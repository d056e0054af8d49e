//! What a game session starts with.

use vstd::prelude::*;
use crate::command::{RacketCommandQueue, RacketTransformCommand};
use crate::practice::TrajectoryPreview;
use crate::session::{BallTableCollisionCount, LaunchState};

verus! {

/// The state of one session. It is made when the program starts and handed
/// to the systems that work on it; nothing of it lies outside.
#[derive(Debug)]
pub struct Resources {
    pub command_queue: RacketCommandQueue,
    pub launch_state: LaunchState,
    pub collision_count: BallTableCollisionCount,
    pub preview: TrajectoryPreview,
}

/// The state with which a session starts: no command waits, the ball is not
/// launched and has not bounced, and no respawn is on its way.
pub fn init_resources() -> (r: Resources)
    ensures
        r.command_queue@ == Seq::<RacketTransformCommand>::empty(),
        !r.launch_state.launched,
        r.collision_count.count == 0,
        r.preview == TrajectoryPreview::empty(),
{
    Resources {
        command_queue: RacketCommandQueue::new(),
        launch_state: LaunchState::default(),
        collision_count: BallTableCollisionCount::default(),
        preview: TrajectoryPreview::new(),
    }
}

} // verus!
