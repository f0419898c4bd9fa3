//! The client of the sport service.

use vstd::prelude::*;
use crate::channel::factory::ChannelFactory;
use crate::error::SdkError;
use crate::json::number::JsonNumber;
use crate::json::read::{flag_of, read_flag, unexpected};
use crate::json::write::{
    empty_object, flag_value, value_object, vector_object, write_empty, write_flag, write_value,
    write_vector,
};
use crate::robot::go2::sport::sport_api::{
    ROBOT_SPORT_API_ID_AUTORECOVERY_GET, ROBOT_SPORT_API_ID_AUTORECOVERY_SET,
    ROBOT_SPORT_API_ID_BACKFLIP, ROBOT_SPORT_API_ID_BALANCESTAND, ROBOT_SPORT_API_ID_CLASSICWALK,
    ROBOT_SPORT_API_ID_CONTENT, ROBOT_SPORT_API_ID_CROSSSTEP, ROBOT_SPORT_API_ID_DAMP,
    ROBOT_SPORT_API_ID_DANCE1, ROBOT_SPORT_API_ID_DANCE2, ROBOT_SPORT_API_ID_ECONOMICGAIT,
    ROBOT_SPORT_API_ID_EULER, ROBOT_SPORT_API_ID_FREEAVOID, ROBOT_SPORT_API_ID_FREEBOUND,
    ROBOT_SPORT_API_ID_FREEJUMP, ROBOT_SPORT_API_ID_FREEWALK, ROBOT_SPORT_API_ID_FRONTFLIP,
    ROBOT_SPORT_API_ID_FRONTJUMP, ROBOT_SPORT_API_ID_FRONTPOUNCE, ROBOT_SPORT_API_ID_HANDSTAND,
    ROBOT_SPORT_API_ID_HEART, ROBOT_SPORT_API_ID_HELLO, ROBOT_SPORT_API_ID_LEFTFLIP,
    ROBOT_SPORT_API_ID_MOVE, ROBOT_SPORT_API_ID_POSE, ROBOT_SPORT_API_ID_RECOVERYSTAND,
    ROBOT_SPORT_API_ID_RISESIT, ROBOT_SPORT_API_ID_SCRAPE, ROBOT_SPORT_API_ID_SIT,
    ROBOT_SPORT_API_ID_SPEEDLEVEL, ROBOT_SPORT_API_ID_STANDDOWN, ROBOT_SPORT_API_ID_STANDUP,
    ROBOT_SPORT_API_ID_STATICWALK, ROBOT_SPORT_API_ID_STOPMOVE, ROBOT_SPORT_API_ID_STRETCH,
    ROBOT_SPORT_API_ID_SWITCHAVOIDMODE, ROBOT_SPORT_API_ID_SWITCHJOYSTICK,
    ROBOT_SPORT_API_ID_TROTRUN, ROBOT_SPORT_API_ID_WALKUPRIGHT, ROBOT_SPORT_SERVICE_NAME,
};
use crate::rpc::client::RpcClient;

verus! {

/// Commands the locomotion of the robot.
///
/// Each command is one call of the sport service, with the number of its
/// method and its arguments as a JSON object. A command method starts the
/// call and gives its sequence number. The owner of the client then works
/// on the calls of the client, which [`client_mut`](Self::client_mut) gives:
/// it sends the frames of the outbox, hands in the frames that arrive, and
/// asks for the result, which [`RpcClient::result_code`] turns into the code
/// of the command. The client repeats no call by itself: not every command
/// may be repeated without harm.
pub struct SportClient {
    enable_lease: bool,
    rpc: RpcClient,
}

impl SportClient {
    /// Whether the client asks for exclusive control of the robot.
    pub closed spec fn lease(&self) -> bool {
        self.enable_lease
    }

    /// The calls of the client and their state.
    pub closed spec fn rpc(&self) -> RpcClient {
        self.rpc
    }

    /// What a command does: the one call of method `api_id` with the
    /// arguments `parameter` is started at `now`, as
    /// [`RpcClient::called`] says, and the lease stays as it is.
    pub open spec fn issued(
        before: Self,
        after: Self,
        r: Result<u64, SdkError>,
        api_id: i32,
        parameter: Seq<char>,
        now: u64,
    ) -> bool {
        &&& RpcClient::called(before.rpc(), after.rpc(), r, api_id, parameter, now)
        &&& after.lease() == before.lease()
    }

    /// An uninitialized client in domain 0, with the default timeout and no
    /// call made. With `enable_lease` the client asks for exclusive control
    /// of the robot.
    pub fn new(enable_lease: bool) -> (r: Self)
        ensures
            r.lease() == enable_lease,
            r.rpc().fresh(0, ROBOT_SPORT_SERVICE_NAME@, 0),
    {
        SportClient { enable_lease, rpc: RpcClient::new(ROBOT_SPORT_SERVICE_NAME) }
    }

    /// An uninitialized client in the domain of `factory`, with the default
    /// timeout and no call made. With `enable_lease` the client asks for
    /// exclusive control of the robot.
    pub fn with_factory(factory: &ChannelFactory, enable_lease: bool) -> (r: Self)
        ensures
            r.lease() == enable_lease,
            r.rpc().fresh(factory.domain_id, ROBOT_SPORT_SERVICE_NAME@, 0),
    {
        SportClient {
            enable_lease,
            rpc: RpcClient::with_factory(factory, ROBOT_SPORT_SERVICE_NAME),
        }
    }

    /// Whether the client asks for exclusive control of the robot.
    pub fn enable_lease(&self) -> (r: bool)
        ensures
            r == self.lease(),
    {
        self.enable_lease
    }

    /// The calls of the client and their state.
    pub fn client(&self) -> (r: &RpcClient)
        ensures
            *r == self.rpc(),
    {
        &self.rpc
    }

    /// The calls of the client, to send what waits, to take what arrives and
    /// to ask for results.
    pub fn client_mut(&mut self) -> (r: &mut RpcClient)
        ensures
            *r == old(self).rpc(),
            final(self).rpc() == *final(r),
            final(self).lease() == old(self).lease(),
    {
        &mut self.rpc
    }

    /// The time that a call waits for its reply.
    pub fn timeout(&self) -> (r: u64)
        ensures
            r == self.rpc().timeout(),
    {
        self.rpc.get_timeout()
    }

    /// Sets the time that the calls made from now on wait for their reply.
    pub fn set_timeout(&mut self, timeout: u64)
        ensures
            RpcClient::retimed(old(self).rpc(), final(self).rpc(), timeout),
            final(self).lease() == old(self).lease(),
    {
        self.rpc.set_timeout(timeout);
    }

    /// Opens the channels to the sport service.
    ///
    /// Fails with `Init`, and changes nothing, on a client that is
    /// initialized and was not closed since.
    pub fn init(&mut self) -> (r: Result<(), SdkError>)
        ensures
            RpcClient::initialized(old(self).rpc(), final(self).rpc(), r),
            final(self).lease() == old(self).lease(),
    {
        self.rpc.init()
    }

    /// The flag that the call started by
    /// [`auto_recover_get`](Self::auto_recover_get) gave, where the call
    /// ended with `result`.
    ///
    /// A call that succeeded gives the flag that its result carries, or
    /// fails with `Serialization` where the result carries none. A call that
    /// failed, with `ApiError` and the code of the service or for another
    /// reason, fails here for the same reason.
    pub fn auto_recover_flag(result: Result<Vec<u8>, SdkError>) -> (r: Result<bool, SdkError>)
        ensures
            match result {
                Ok(data) => match r {
                    Ok(flag) => flag_of(data@) == Some(flag),
                    Err(e) => flag_of(data@) is None && e is Serialization && e.detail()
                        == unexpected(),
                },
                Err(e) => r == Err::<bool, SdkError>(e),
            },
    {
        match result {
            Ok(data) => read_flag(data.as_slice()),
            Err(e) => Err(e),
        }
    }

    /// Starts the call of method `api_id` with the arguments `parameter`.
    fn call_api(&mut self, api_id: i32, parameter: &str, now: u64) -> (r: Result<u64, SdkError>)
        ensures
            Self::issued(*old(self), *final(self), r, api_id, parameter@, now),
    {
        self.rpc.call(api_id, parameter, now)
    }

    /// Lets all motors go limp.
    pub fn damp(&mut self, now: u64) -> (r: Result<u64, SdkError>)
        ensures
            Self::issued(*old(self), *final(self), r, ROBOT_SPORT_API_ID_DAMP, empty_object(), now),
    {
        let parameter = write_empty();
        self.call_api(ROBOT_SPORT_API_ID_DAMP, parameter.as_str(), now)
    }

    /// Stands and keeps the balance.
    pub fn balance_stand(&mut self, now: u64) -> (r: Result<u64, SdkError>)
        ensures
            Self::issued(
                *old(self),
                *final(self),
                r,
                ROBOT_SPORT_API_ID_BALANCESTAND,
                empty_object(),
                now,
            ),
    {
        let parameter = write_empty();
        self.call_api(ROBOT_SPORT_API_ID_BALANCESTAND, parameter.as_str(), now)
    }

    /// Stops moving.
    pub fn stop_move(&mut self, now: u64) -> (r: Result<u64, SdkError>)
        ensures
            Self::issued(
                *old(self),
                *final(self),
                r,
                ROBOT_SPORT_API_ID_STOPMOVE,
                empty_object(),
                now,
            ),
    {
        let parameter = write_empty();
        self.call_api(ROBOT_SPORT_API_ID_STOPMOVE, parameter.as_str(), now)
    }

    /// Stands up.
    pub fn stand_up(&mut self, now: u64) -> (r: Result<u64, SdkError>)
        ensures
            Self::issued(
                *old(self),
                *final(self),
                r,
                ROBOT_SPORT_API_ID_STANDUP,
                empty_object(),
                now,
            ),
    {
        let parameter = write_empty();
        self.call_api(ROBOT_SPORT_API_ID_STANDUP, parameter.as_str(), now)
    }

    /// Lies down.
    pub fn stand_down(&mut self, now: u64) -> (r: Result<u64, SdkError>)
        ensures
            Self::issued(
                *old(self),
                *final(self),
                r,
                ROBOT_SPORT_API_ID_STANDDOWN,
                empty_object(),
                now,
            ),
    {
        let parameter = write_empty();
        self.call_api(ROBOT_SPORT_API_ID_STANDDOWN, parameter.as_str(), now)
    }

    /// Gets up after a fall.
    pub fn recovery_stand(&mut self, now: u64) -> (r: Result<u64, SdkError>)
        ensures
            Self::issued(
                *old(self),
                *final(self),
                r,
                ROBOT_SPORT_API_ID_RECOVERYSTAND,
                empty_object(),
                now,
            ),
    {
        let parameter = write_empty();
        self.call_api(ROBOT_SPORT_API_ID_RECOVERYSTAND, parameter.as_str(), now)
    }

    /// Sets the attitude of the body: `roll`, `pitch` and `yaw` in radians.
    pub fn euler(
        &mut self,
        roll: &JsonNumber,
        pitch: &JsonNumber,
        yaw: &JsonNumber,
        now: u64,
    ) -> (r: Result<u64, SdkError>)
        ensures
            Self::issued(
                *old(self),
                *final(self),
                r,
                ROBOT_SPORT_API_ID_EULER,
                vector_object(roll.text(), pitch.text(), yaw.text()),
                now,
            ),
    {
        let parameter = write_vector(roll, pitch, yaw);
        self.call_api(ROBOT_SPORT_API_ID_EULER, parameter.as_str(), now)
    }

    /// Moves with the velocity `vx` and `vy` in m/s and the yaw rate `vyaw` in
    /// rad/s.
    pub fn move_cmd(
        &mut self,
        vx: &JsonNumber,
        vy: &JsonNumber,
        vyaw: &JsonNumber,
        now: u64,
    ) -> (r: Result<u64, SdkError>)
        ensures
            Self::issued(
                *old(self),
                *final(self),
                r,
                ROBOT_SPORT_API_ID_MOVE,
                vector_object(vx.text(), vy.text(), vyaw.text()),
                now,
            ),
    {
        let parameter = write_vector(vx, vy, vyaw);
        self.call_api(ROBOT_SPORT_API_ID_MOVE, parameter.as_str(), now)
    }

    /// Sits down.
    pub fn sit(&mut self, now: u64) -> (r: Result<u64, SdkError>)
        ensures
            Self::issued(*old(self), *final(self), r, ROBOT_SPORT_API_ID_SIT, empty_object(), now),
    {
        let parameter = write_empty();
        self.call_api(ROBOT_SPORT_API_ID_SIT, parameter.as_str(), now)
    }

    /// Rises from sitting.
    pub fn rise_sit(&mut self, now: u64) -> (r: Result<u64, SdkError>)
        ensures
            Self::issued(
                *old(self),
                *final(self),
                r,
                ROBOT_SPORT_API_ID_RISESIT,
                empty_object(),
                now,
            ),
    {
        let parameter = write_empty();
        self.call_api(ROBOT_SPORT_API_ID_RISESIT, parameter.as_str(), now)
    }

    /// Sets the speed level.
    pub fn speed_level(&mut self, level: i32, now: u64) -> (r: Result<u64, SdkError>)
        ensures
            Self::issued(
                *old(self),
                *final(self),
                r,
                ROBOT_SPORT_API_ID_SPEEDLEVEL,
                value_object(level as int),
                now,
            ),
    {
        let parameter = write_value(level);
        self.call_api(ROBOT_SPORT_API_ID_SPEEDLEVEL, parameter.as_str(), now)
    }

    /// Waves hello.
    pub fn hello(&mut self, now: u64) -> (r: Result<u64, SdkError>)
        ensures
            Self::issued(
                *old(self),
                *final(self),
                r,
                ROBOT_SPORT_API_ID_HELLO,
                empty_object(),
                now,
            ),
    {
        let parameter = write_empty();
        self.call_api(ROBOT_SPORT_API_ID_HELLO, parameter.as_str(), now)
    }

    /// Stretches.
    pub fn stretch(&mut self, now: u64) -> (r: Result<u64, SdkError>)
        ensures
            Self::issued(
                *old(self),
                *final(self),
                r,
                ROBOT_SPORT_API_ID_STRETCH,
                empty_object(),
                now,
            ),
    {
        let parameter = write_empty();
        self.call_api(ROBOT_SPORT_API_ID_STRETCH, parameter.as_str(), now)
    }

    /// Switches control by the joystick on or off.
    pub fn switch_joystick(&mut self, flag: bool, now: u64) -> (r: Result<u64, SdkError>)
        ensures
            Self::issued(
                *old(self),
                *final(self),
                r,
                ROBOT_SPORT_API_ID_SWITCHJOYSTICK,
                value_object(flag_value(flag)),
                now,
            ),
    {
        let parameter = write_flag(flag);
        self.call_api(ROBOT_SPORT_API_ID_SWITCHJOYSTICK, parameter.as_str(), now)
    }

    /// Shows contentment.
    pub fn content(&mut self, now: u64) -> (r: Result<u64, SdkError>)
        ensures
            Self::issued(
                *old(self),
                *final(self),
                r,
                ROBOT_SPORT_API_ID_CONTENT,
                empty_object(),
                now,
            ),
    {
        let parameter = write_empty();
        self.call_api(ROBOT_SPORT_API_ID_CONTENT, parameter.as_str(), now)
    }

    /// Draws a heart.
    pub fn heart(&mut self, now: u64) -> (r: Result<u64, SdkError>)
        ensures
            Self::issued(
                *old(self),
                *final(self),
                r,
                ROBOT_SPORT_API_ID_HEART,
                empty_object(),
                now,
            ),
    {
        let parameter = write_empty();
        self.call_api(ROBOT_SPORT_API_ID_HEART, parameter.as_str(), now)
    }

    /// Switches posing on or off.
    pub fn pose(&mut self, flag: bool, now: u64) -> (r: Result<u64, SdkError>)
        ensures
            Self::issued(
                *old(self),
                *final(self),
                r,
                ROBOT_SPORT_API_ID_POSE,
                value_object(flag_value(flag)),
                now,
            ),
    {
        let parameter = write_flag(flag);
        self.call_api(ROBOT_SPORT_API_ID_POSE, parameter.as_str(), now)
    }

    /// Scrapes with the front paws.
    pub fn scrape(&mut self, now: u64) -> (r: Result<u64, SdkError>)
        ensures
            Self::issued(
                *old(self),
                *final(self),
                r,
                ROBOT_SPORT_API_ID_SCRAPE,
                empty_object(),
                now,
            ),
    {
        let parameter = write_empty();
        self.call_api(ROBOT_SPORT_API_ID_SCRAPE, parameter.as_str(), now)
    }

    /// Flips forwards.
    pub fn front_flip(&mut self, now: u64) -> (r: Result<u64, SdkError>)
        ensures
            Self::issued(
                *old(self),
                *final(self),
                r,
                ROBOT_SPORT_API_ID_FRONTFLIP,
                empty_object(),
                now,
            ),
    {
        let parameter = write_empty();
        self.call_api(ROBOT_SPORT_API_ID_FRONTFLIP, parameter.as_str(), now)
    }

    /// Jumps forwards.
    pub fn front_jump(&mut self, now: u64) -> (r: Result<u64, SdkError>)
        ensures
            Self::issued(
                *old(self),
                *final(self),
                r,
                ROBOT_SPORT_API_ID_FRONTJUMP,
                empty_object(),
                now,
            ),
    {
        let parameter = write_empty();
        self.call_api(ROBOT_SPORT_API_ID_FRONTJUMP, parameter.as_str(), now)
    }

    /// Pounces forwards.
    pub fn front_pounce(&mut self, now: u64) -> (r: Result<u64, SdkError>)
        ensures
            Self::issued(
                *old(self),
                *final(self),
                r,
                ROBOT_SPORT_API_ID_FRONTPOUNCE,
                empty_object(),
                now,
            ),
    {
        let parameter = write_empty();
        self.call_api(ROBOT_SPORT_API_ID_FRONTPOUNCE, parameter.as_str(), now)
    }

    /// Dances the first dance.
    pub fn dance1(&mut self, now: u64) -> (r: Result<u64, SdkError>)
        ensures
            Self::issued(
                *old(self),
                *final(self),
                r,
                ROBOT_SPORT_API_ID_DANCE1,
                empty_object(),
                now,
            ),
    {
        let parameter = write_empty();
        self.call_api(ROBOT_SPORT_API_ID_DANCE1, parameter.as_str(), now)
    }

    /// Dances the second dance.
    pub fn dance2(&mut self, now: u64) -> (r: Result<u64, SdkError>)
        ensures
            Self::issued(
                *old(self),
                *final(self),
                r,
                ROBOT_SPORT_API_ID_DANCE2,
                empty_object(),
                now,
            ),
    {
        let parameter = write_empty();
        self.call_api(ROBOT_SPORT_API_ID_DANCE2, parameter.as_str(), now)
    }

    /// Flips to the left.
    pub fn left_flip(&mut self, now: u64) -> (r: Result<u64, SdkError>)
        ensures
            Self::issued(
                *old(self),
                *final(self),
                r,
                ROBOT_SPORT_API_ID_LEFTFLIP,
                empty_object(),
                now,
            ),
    {
        let parameter = write_empty();
        self.call_api(ROBOT_SPORT_API_ID_LEFTFLIP, parameter.as_str(), now)
    }

    /// Flips backwards.
    pub fn back_flip(&mut self, now: u64) -> (r: Result<u64, SdkError>)
        ensures
            Self::issued(
                *old(self),
                *final(self),
                r,
                ROBOT_SPORT_API_ID_BACKFLIP,
                empty_object(),
                now,
            ),
    {
        let parameter = write_empty();
        self.call_api(ROBOT_SPORT_API_ID_BACKFLIP, parameter.as_str(), now)
    }

    /// Switches the handstand on or off.
    pub fn hand_stand(&mut self, flag: bool, now: u64) -> (r: Result<u64, SdkError>)
        ensures
            Self::issued(
                *old(self),
                *final(self),
                r,
                ROBOT_SPORT_API_ID_HANDSTAND,
                value_object(flag_value(flag)),
                now,
            ),
    {
        let parameter = write_flag(flag);
        self.call_api(ROBOT_SPORT_API_ID_HANDSTAND, parameter.as_str(), now)
    }

    /// Walks freely.
    pub fn free_walk(&mut self, now: u64) -> (r: Result<u64, SdkError>)
        ensures
            Self::issued(
                *old(self),
                *final(self),
                r,
                ROBOT_SPORT_API_ID_FREEWALK,
                empty_object(),
                now,
            ),
    {
        let parameter = write_empty();
        self.call_api(ROBOT_SPORT_API_ID_FREEWALK, parameter.as_str(), now)
    }

    /// Switches bounding on or off.
    pub fn free_bound(&mut self, flag: bool, now: u64) -> (r: Result<u64, SdkError>)
        ensures
            Self::issued(
                *old(self),
                *final(self),
                r,
                ROBOT_SPORT_API_ID_FREEBOUND,
                value_object(flag_value(flag)),
                now,
            ),
    {
        let parameter = write_flag(flag);
        self.call_api(ROBOT_SPORT_API_ID_FREEBOUND, parameter.as_str(), now)
    }

    /// Switches jumping on or off.
    pub fn free_jump(&mut self, flag: bool, now: u64) -> (r: Result<u64, SdkError>)
        ensures
            Self::issued(
                *old(self),
                *final(self),
                r,
                ROBOT_SPORT_API_ID_FREEJUMP,
                value_object(flag_value(flag)),
                now,
            ),
    {
        let parameter = write_flag(flag);
        self.call_api(ROBOT_SPORT_API_ID_FREEJUMP, parameter.as_str(), now)
    }

    /// Switches the avoidance of obstacles on or off.
    pub fn free_avoid(&mut self, flag: bool, now: u64) -> (r: Result<u64, SdkError>)
        ensures
            Self::issued(
                *old(self),
                *final(self),
                r,
                ROBOT_SPORT_API_ID_FREEAVOID,
                value_object(flag_value(flag)),
                now,
            ),
    {
        let parameter = write_flag(flag);
        self.call_api(ROBOT_SPORT_API_ID_FREEAVOID, parameter.as_str(), now)
    }

    /// Switches the classic walk on or off.
    pub fn classic_walk(&mut self, flag: bool, now: u64) -> (r: Result<u64, SdkError>)
        ensures
            Self::issued(
                *old(self),
                *final(self),
                r,
                ROBOT_SPORT_API_ID_CLASSICWALK,
                value_object(flag_value(flag)),
                now,
            ),
    {
        let parameter = write_flag(flag);
        self.call_api(ROBOT_SPORT_API_ID_CLASSICWALK, parameter.as_str(), now)
    }

    /// Switches walking upright on or off.
    pub fn walk_upright(&mut self, flag: bool, now: u64) -> (r: Result<u64, SdkError>)
        ensures
            Self::issued(
                *old(self),
                *final(self),
                r,
                ROBOT_SPORT_API_ID_WALKUPRIGHT,
                value_object(flag_value(flag)),
                now,
            ),
    {
        let parameter = write_flag(flag);
        self.call_api(ROBOT_SPORT_API_ID_WALKUPRIGHT, parameter.as_str(), now)
    }

    /// Switches the cross step on or off.
    pub fn cross_step(&mut self, flag: bool, now: u64) -> (r: Result<u64, SdkError>)
        ensures
            Self::issued(
                *old(self),
                *final(self),
                r,
                ROBOT_SPORT_API_ID_CROSSSTEP,
                value_object(flag_value(flag)),
                now,
            ),
    {
        let parameter = write_flag(flag);
        self.call_api(ROBOT_SPORT_API_ID_CROSSSTEP, parameter.as_str(), now)
    }

    /// Switches the recovery after a fall on or off.
    pub fn auto_recover_set(&mut self, flag: bool, now: u64) -> (r: Result<u64, SdkError>)
        ensures
            Self::issued(
                *old(self),
                *final(self),
                r,
                ROBOT_SPORT_API_ID_AUTORECOVERY_SET,
                value_object(flag_value(flag)),
                now,
            ),
    {
        let parameter = write_flag(flag);
        self.call_api(ROBOT_SPORT_API_ID_AUTORECOVERY_SET, parameter.as_str(), now)
    }

    /// Asks whether the recovery after a fall is on. [`auto_recover_flag`](Self::auto_recover_flag)
    /// reads the answer.
    pub fn auto_recover_get(&mut self, now: u64) -> (r: Result<u64, SdkError>)
        ensures
            Self::issued(
                *old(self),
                *final(self),
                r,
                ROBOT_SPORT_API_ID_AUTORECOVERY_GET,
                empty_object(),
                now,
            ),
    {
        let parameter = write_empty();
        self.call_api(ROBOT_SPORT_API_ID_AUTORECOVERY_GET, parameter.as_str(), now)
    }

    /// Walks statically stable.
    pub fn static_walk(&mut self, now: u64) -> (r: Result<u64, SdkError>)
        ensures
            Self::issued(
                *old(self),
                *final(self),
                r,
                ROBOT_SPORT_API_ID_STATICWALK,
                empty_object(),
                now,
            ),
    {
        let parameter = write_empty();
        self.call_api(ROBOT_SPORT_API_ID_STATICWALK, parameter.as_str(), now)
    }

    /// Trots fast.
    pub fn trot_run(&mut self, now: u64) -> (r: Result<u64, SdkError>)
        ensures
            Self::issued(
                *old(self),
                *final(self),
                r,
                ROBOT_SPORT_API_ID_TROTRUN,
                empty_object(),
                now,
            ),
    {
        let parameter = write_empty();
        self.call_api(ROBOT_SPORT_API_ID_TROTRUN, parameter.as_str(), now)
    }

    /// Walks with the least energy.
    pub fn economic_gait(&mut self, now: u64) -> (r: Result<u64, SdkError>)
        ensures
            Self::issued(
                *old(self),
                *final(self),
                r,
                ROBOT_SPORT_API_ID_ECONOMICGAIT,
                empty_object(),
                now,
            ),
    {
        let parameter = write_empty();
        self.call_api(ROBOT_SPORT_API_ID_ECONOMICGAIT, parameter.as_str(), now)
    }

    /// Goes to the next mode of avoidance.
    pub fn switch_avoid_mode(&mut self, now: u64) -> (r: Result<u64, SdkError>)
        ensures
            Self::issued(
                *old(self),
                *final(self),
                r,
                ROBOT_SPORT_API_ID_SWITCHAVOIDMODE,
                empty_object(),
                now,
            ),
    {
        let parameter = write_empty();
        self.call_api(ROBOT_SPORT_API_ID_SWITCHAVOIDMODE, parameter.as_str(), now)
    }
}

} // verus!
