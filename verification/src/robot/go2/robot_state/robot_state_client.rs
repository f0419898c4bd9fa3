//! The client of the robot state service.

use vstd::prelude::*;
use crate::channel::factory::ChannelFactory;
use crate::error::SdkError;
use crate::json::write::{
    empty_object, is_plain, report_object, switch_object, write_empty, write_report, write_switch,
};
use crate::robot::go2::robot_state::robot_state_api::{
    ROBOT_STATE_API_ID_SERVICE_LIST, ROBOT_STATE_API_ID_SERVICE_SWITCH,
    ROBOT_STATE_API_ID_SET_REPORT_FREQ, ROBOT_STATE_SERVICE_NAME,
};
use crate::robot::go2::robot_state::service_list::{models, read_services, services_of};
use crate::rpc::client::RpcClient;

verus! {

/// Whether a service runs.
#[derive(Clone, Copy, Debug, PartialEq, Eq)]
pub enum ServiceStatus {
    /// The service does not run.
    Stopped,
    /// The service runs.
    Running,
}

/// A service that runs on the robot, as the robot reports it.
#[derive(Debug)]
pub struct ServiceState {
    /// Name of the service, such as `sport_mode`.
    pub name: String,
    /// 0 for a service that is stopped, 1 for one that runs.
    pub status: i32,
    /// 1 for a service that is protected: it cannot be stopped from outside.
    pub protect: i32,
}

/// A service, as the contracts speak of it.
#[verifier::ext_equal]
pub struct ServiceModel {
    /// Name of the service.
    pub name: Seq<char>,
    /// 0 for a service that is stopped, 1 for one that runs.
    pub status: i32,
    /// 1 for a service that is protected.
    pub protect: i32,
}

impl View for ServiceState {
    type V = ServiceModel;

    open spec fn view(&self) -> ServiceModel {
        ServiceModel { name: self.name@, status: self.status, protect: self.protect }
    }
}

impl Clone for ServiceState {
    /// A copy with the same name, status and flag.
    fn clone(&self) -> (r: Self)
        ensures
            r@ == self@,
    {
        ServiceState { name: self.name.clone(), status: self.status, protect: self.protect }
    }
}

impl ServiceState {
    /// Whether the service runs: it does unless its status is 0.
    pub fn status(&self) -> (r: ServiceStatus)
        ensures
            r == if self.status == 0 {
                ServiceStatus::Stopped
            } else {
                ServiceStatus::Running
            },
    {
        if self.status == 0 {
            ServiceStatus::Stopped
        } else {
            ServiceStatus::Running
        }
    }

    /// Whether the service is protected: it is unless its flag is 0.
    pub fn protected(&self) -> (r: bool)
        ensures
            r == (self.protect != 0),
    {
        self.protect != 0
    }
}

/// The detail of the failure to name a service.
pub open spec fn unsupported_name() -> Seq<char> {
    "unsupported service name"@
}

/// Asks for, and changes, the services that run on the robot.
///
/// Each method starts one call of the robot state service and gives its
/// sequence number. The owner of the client then works on the calls of the
/// client, which [`client_mut`](Self::client_mut) gives: it sends the frames
/// of the outbox, hands in the frames that arrive, and asks for the result.
pub struct RobotStateClient {
    rpc: RpcClient,
}

impl RobotStateClient {
    /// The calls of the client and their state.
    pub closed spec fn rpc(&self) -> RpcClient {
        self.rpc
    }

    /// An uninitialized client in domain 0, with the default timeout and no
    /// call made.
    pub fn new() -> (r: Self)
        ensures
            r.rpc().fresh(0, ROBOT_STATE_SERVICE_NAME@, 0),
    {
        RobotStateClient { rpc: RpcClient::new(ROBOT_STATE_SERVICE_NAME) }
    }

    /// An uninitialized client in the domain of `factory`, with the default
    /// timeout and no call made.
    pub fn with_factory(factory: &ChannelFactory) -> (r: Self)
        ensures
            r.rpc().fresh(factory.domain_id, ROBOT_STATE_SERVICE_NAME@, 0),
    {
        RobotStateClient { rpc: RpcClient::with_factory(factory, ROBOT_STATE_SERVICE_NAME) }
    }

    /// The calls of the client and their state.
    pub fn client(&self) -> (r: &RpcClient)
        ensures
            *r == self.rpc(),
    {
        &self.rpc
    }

    /// The calls of the client, to send what waits, to take what arrives and
    /// to ask for results.
    pub fn client_mut(&mut self) -> (r: &mut RpcClient)
        ensures
            *r == old(self).rpc(),
            final(self).rpc() == *final(r),
    {
        &mut self.rpc
    }

    /// The time that a call waits for its reply.
    pub fn timeout(&self) -> (r: u64)
        ensures
            r == self.rpc().timeout(),
    {
        self.rpc.get_timeout()
    }

    /// Sets the time that the calls made from now on wait for their reply.
    pub fn set_timeout(&mut self, timeout: u64)
        ensures
            RpcClient::retimed(old(self).rpc(), final(self).rpc(), timeout),
    {
        self.rpc.set_timeout(timeout);
    }

    /// Opens the channels to the robot state service.
    ///
    /// Fails with `Init`, and changes nothing, on a client that is
    /// initialized and was not closed since.
    pub fn init(&mut self) -> (r: Result<(), SdkError>)
        ensures
            RpcClient::initialized(old(self).rpc(), final(self).rpc(), r),
    {
        self.rpc.init()
    }

    /// Asks for the list of services.
    /// [`service_list_result`](Self::service_list_result) reads the answer.
    pub fn service_list(&mut self, now: u64) -> (r: Result<u64, SdkError>)
        ensures
            RpcClient::called(
                old(self).rpc(),
                final(self).rpc(),
                r,
                ROBOT_STATE_API_ID_SERVICE_LIST,
                empty_object(),
                now,
            ),
    {
        let parameter = write_empty();
        self.rpc.call(ROBOT_STATE_API_ID_SERVICE_LIST, parameter.as_str(), now)
    }

    /// The services that the call started by
    /// [`service_list`](Self::service_list) gave, where the call ended with
    /// `result`.
    ///
    /// A call that succeeded gives the services that its result lists, or
    /// fails with `Serialization` where the result is no list of services. A
    /// call that failed fails here for the same reason.
    pub fn service_list_result(result: Result<Vec<u8>, SdkError>) -> (r: Result<
        Vec<ServiceState>,
        SdkError,
    >)
        ensures
            match result {
                Ok(data) => match r {
                    Ok(list) => services_of(data@) == Some(models(list@)),
                    Err(e) => services_of(data@) is None && e is Serialization && e.detail()
                        == crate::json::read::unexpected(),
                },
                Err(e) => r matches Err(same) && same == e,
            },
    {
        match result {
            Ok(data) => read_services(data.as_slice()),
            Err(e) => Err(e),
        }
    }

    /// Starts the service `name` where `swit` is 1, and stops it where `swit`
    /// is 0.
    ///
    /// Fails with `Serialization`, and starts no call, where `name` holds a
    /// character that is not printable ASCII, a quotation mark or a
    /// backslash.
    pub fn service_switch(&mut self, name: &str, swit: i32, now: u64) -> (r: Result<u64, SdkError>)
        ensures
            if is_plain(name@) {
                RpcClient::called(
                    old(self).rpc(),
                    final(self).rpc(),
                    r,
                    ROBOT_STATE_API_ID_SERVICE_SWITCH,
                    switch_object(name@, swit as int),
                    now,
                )
            } else {
                &&& r matches Err(e) && e is Serialization && e.detail() == unsupported_name()
                &&& final(self).rpc() == old(self).rpc()
            },
    {
        match write_switch(name, swit) {
            Some(parameter) => self.rpc.call(
                ROBOT_STATE_API_ID_SERVICE_SWITCH,
                parameter.as_str(),
                now,
            ),
            None => Err(SdkError::Serialization(String::from_str("unsupported service name"))),
        }
    }

    /// Asks the robot to report its state every `interval` milliseconds, for
    /// `duration` milliseconds.
    pub fn set_report_freq(&mut self, interval: i32, duration: i32, now: u64) -> (r: Result<
        u64,
        SdkError,
    >)
        ensures
            RpcClient::called(
                old(self).rpc(),
                final(self).rpc(),
                r,
                ROBOT_STATE_API_ID_SET_REPORT_FREQ,
                report_object(interval as int, duration as int),
                now,
            ),
    {
        let parameter = write_report(interval, duration);
        self.rpc.call(ROBOT_STATE_API_ID_SET_REPORT_FREQ, parameter.as_str(), now)
    }
}

impl Default for RobotStateClient {
    /// An uninitialized client in domain 0, with the default timeout and no
    /// call made.
    fn default() -> (r: Self)
        ensures
            r.rpc().fresh(0, ROBOT_STATE_SERVICE_NAME@, 0),
    {
        Self::new()
    }
}

} // verus!
