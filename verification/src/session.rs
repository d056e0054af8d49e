//! The state of one game session that the simulation systems share.

use vstd::prelude::*;

verus! {

/// Handle by which the engine names a body. The library never looks inside
/// one: it hands back the handles it was given.
#[verifier::external_type_specification]
#[verifier::external_body]
pub struct ExEntity(bevy::ecs::entity::Entity);

/// Number of table bounces a launched ball may make. One more and the ball
/// is taken back.
pub const BOUNCE_LIMIT: u32 = 2;

/// Whether the ball is in flight. While it is, the physics engine alone moves
/// it; while it is not, the ball stays where the controller put it.
#[derive(Clone, Copy, Debug, PartialEq, Eq, Structural)]
pub struct LaunchState {
    pub launched: bool,
}

impl Default for LaunchState {
    fn default() -> (r: LaunchState)
        ensures
            !r.launched,
    {
        LaunchState { launched: false }
    }
}

/// Contacts between ball and table since the last launch or respawn.
#[derive(Clone, Copy, Debug, PartialEq, Eq, Structural)]
pub struct BallTableCollisionCount {
    pub count: u32,
}

impl Default for BallTableCollisionCount {
    fn default() -> (r: BallTableCollisionCount)
        ensures
            r.count == 0,
    {
        BallTableCollisionCount { count: 0 }
    }
}

/// The two values above as one, for the specifications that thread them
/// through a sequence of events.
pub struct Rally {
    pub launched: bool,
    pub count: u32,
}

/// The session that the two resources hold.
pub open spec fn rally(launch_state: LaunchState, counter: BallTableCollisionCount) -> Rally {
    Rally { launched: launch_state.launched, count: counter.count }
}

} // verus!
