//! The name of the sport service and the numbers of its methods.

use vstd::prelude::*;

verus! {

/// Name of the sport service.
pub const ROBOT_SPORT_SERVICE_NAME: &'static str = "sport";

/// Version of the interface of the sport service.
pub const ROBOT_SPORT_API_VERSION: &'static str = "1.0.0.1";

// Postures and walking.

/// Let all motors go limp.
pub const ROBOT_SPORT_API_ID_DAMP: i32 = 1001;

/// Stand and keep the balance.
pub const ROBOT_SPORT_API_ID_BALANCESTAND: i32 = 1002;

/// Stop moving.
pub const ROBOT_SPORT_API_ID_STOPMOVE: i32 = 1003;

/// Stand up.
pub const ROBOT_SPORT_API_ID_STANDUP: i32 = 1004;

/// Lie down.
pub const ROBOT_SPORT_API_ID_STANDDOWN: i32 = 1005;

/// Get up after a fall.
pub const ROBOT_SPORT_API_ID_RECOVERYSTAND: i32 = 1006;

/// Set roll, pitch and yaw of the body.
pub const ROBOT_SPORT_API_ID_EULER: i32 = 1007;

/// Move with a velocity.
pub const ROBOT_SPORT_API_ID_MOVE: i32 = 1008;

/// Sit down.
pub const ROBOT_SPORT_API_ID_SIT: i32 = 1009;

/// Rise from sitting.
pub const ROBOT_SPORT_API_ID_RISESIT: i32 = 1010;

// Speed and gestures.

/// Set the speed level.
pub const ROBOT_SPORT_API_ID_SPEEDLEVEL: i32 = 1015;

/// Wave hello.
pub const ROBOT_SPORT_API_ID_HELLO: i32 = 1016;

/// Stretch.
pub const ROBOT_SPORT_API_ID_STRETCH: i32 = 1017;

/// Show contentment.
pub const ROBOT_SPORT_API_ID_CONTENT: i32 = 1020;

// Dances and tricks.

/// First dance.
pub const ROBOT_SPORT_API_ID_DANCE1: i32 = 1022;

/// Second dance.
pub const ROBOT_SPORT_API_ID_DANCE2: i32 = 1023;

/// Switch control by the joystick on or off.
pub const ROBOT_SPORT_API_ID_SWITCHJOYSTICK: i32 = 1027;

/// Switch posing on or off.
pub const ROBOT_SPORT_API_ID_POSE: i32 = 1028;

/// Scrape with the front paws.
pub const ROBOT_SPORT_API_ID_SCRAPE: i32 = 1029;

/// Flip forwards.
pub const ROBOT_SPORT_API_ID_FRONTFLIP: i32 = 1030;

/// Jump forwards.
pub const ROBOT_SPORT_API_ID_FRONTJUMP: i32 = 1031;

/// Pounce forwards.
pub const ROBOT_SPORT_API_ID_FRONTPOUNCE: i32 = 1032;

/// Draw a heart.
pub const ROBOT_SPORT_API_ID_HEART: i32 = 1036;

// Gaits.

/// Walk statically stable.
pub const ROBOT_SPORT_API_ID_STATICWALK: i32 = 1061;

/// Trot fast.
pub const ROBOT_SPORT_API_ID_TROTRUN: i32 = 1062;

/// Walk with the least energy.
pub const ROBOT_SPORT_API_ID_ECONOMICGAIT: i32 = 1063;

// Advanced modes.

/// Flip to the left.
pub const ROBOT_SPORT_API_ID_LEFTFLIP: i32 = 2041;

/// Flip backwards.
pub const ROBOT_SPORT_API_ID_BACKFLIP: i32 = 2043;

/// Switch the handstand on or off.
pub const ROBOT_SPORT_API_ID_HANDSTAND: i32 = 2044;

/// Walk freely.
pub const ROBOT_SPORT_API_ID_FREEWALK: i32 = 2045;

/// Switch bounding on or off.
pub const ROBOT_SPORT_API_ID_FREEBOUND: i32 = 2046;

/// Switch jumping on or off.
pub const ROBOT_SPORT_API_ID_FREEJUMP: i32 = 2047;

/// Switch the avoidance of obstacles on or off.
pub const ROBOT_SPORT_API_ID_FREEAVOID: i32 = 2048;

/// Switch the classic walk on or off.
pub const ROBOT_SPORT_API_ID_CLASSICWALK: i32 = 2049;

/// Switch walking upright on or off.
pub const ROBOT_SPORT_API_ID_WALKUPRIGHT: i32 = 2050;

/// Switch the cross step on or off.
pub const ROBOT_SPORT_API_ID_CROSSSTEP: i32 = 2051;

/// Switch the recovery after a fall on or off.
pub const ROBOT_SPORT_API_ID_AUTORECOVERY_SET: i32 = 2054;

/// Ask whether the recovery after a fall is on.
pub const ROBOT_SPORT_API_ID_AUTORECOVERY_GET: i32 = 2055;

/// Go to the next mode of avoidance.
pub const ROBOT_SPORT_API_ID_SWITCHAVOIDMODE: i32 = 2058;

/// The numbers of the methods grow in the order of this list: no two
/// methods share a number.
pub proof fn lemma_method_numbers_grow()
    ensures
        ROBOT_SPORT_API_ID_DAMP
            < ROBOT_SPORT_API_ID_BALANCESTAND
            < ROBOT_SPORT_API_ID_STOPMOVE
            < ROBOT_SPORT_API_ID_STANDUP
            < ROBOT_SPORT_API_ID_STANDDOWN
            < ROBOT_SPORT_API_ID_RECOVERYSTAND
            < ROBOT_SPORT_API_ID_EULER
            < ROBOT_SPORT_API_ID_MOVE
            < ROBOT_SPORT_API_ID_SIT
            < ROBOT_SPORT_API_ID_RISESIT
            < ROBOT_SPORT_API_ID_SPEEDLEVEL
            < ROBOT_SPORT_API_ID_HELLO
            < ROBOT_SPORT_API_ID_STRETCH
            < ROBOT_SPORT_API_ID_CONTENT
            < ROBOT_SPORT_API_ID_DANCE1
            < ROBOT_SPORT_API_ID_DANCE2
            < ROBOT_SPORT_API_ID_SWITCHJOYSTICK
            < ROBOT_SPORT_API_ID_POSE
            < ROBOT_SPORT_API_ID_SCRAPE
            < ROBOT_SPORT_API_ID_FRONTFLIP
            < ROBOT_SPORT_API_ID_FRONTJUMP
            < ROBOT_SPORT_API_ID_FRONTPOUNCE
            < ROBOT_SPORT_API_ID_HEART
            < ROBOT_SPORT_API_ID_STATICWALK
            < ROBOT_SPORT_API_ID_TROTRUN
            < ROBOT_SPORT_API_ID_ECONOMICGAIT
            < ROBOT_SPORT_API_ID_LEFTFLIP
            < ROBOT_SPORT_API_ID_BACKFLIP
            < ROBOT_SPORT_API_ID_HANDSTAND
            < ROBOT_SPORT_API_ID_FREEWALK
            < ROBOT_SPORT_API_ID_FREEBOUND
            < ROBOT_SPORT_API_ID_FREEJUMP
            < ROBOT_SPORT_API_ID_FREEAVOID
            < ROBOT_SPORT_API_ID_CLASSICWALK
            < ROBOT_SPORT_API_ID_WALKUPRIGHT
            < ROBOT_SPORT_API_ID_CROSSSTEP
            < ROBOT_SPORT_API_ID_AUTORECOVERY_SET
            < ROBOT_SPORT_API_ID_AUTORECOVERY_GET
            < ROBOT_SPORT_API_ID_SWITCHAVOIDMODE,
{
}

} // verus!
