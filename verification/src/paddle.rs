//! From commands to the paddle's pose.
//!
//! Each tick the commands that wait are taken out of the queue and turned,
//! one by one and oldest first, into plans for the paddle. A plan names the
//! terms of the pose; the program works out the pose from them, in
//! floating-point arithmetic, and gives it to every paddle on the scene.

use vstd::prelude::*;
use crate::command::{CommandDataType, RacketCommandQueue, RacketTransformCommand};
use crate::math::{Scalar, Vec3, ONE_BITS, ZERO_BITS};
use crate::session::LaunchState;

verus! {

/// `-pi/2`, as near as a number comes to it: the paddle's turn about the
/// upright axis at angle zero.
pub const QUARTER_TURN_BITS: u32 = 0xbfc9_0fdb;

/// `4.0`: the arc on which the paddle moves is a quarter as deep as the
/// circle of radius one.
pub const ARC_DIVISOR_BITS: u32 = 0x4080_0000;

/// `0.1`: how far from the net the paddle's arc is centred.
pub const ANCHOR_X_BITS: u32 = 0x3dcc_cccd;

/// `-0.03`: how high the paddle's arc lies.
pub const ANCHOR_Y_BITS: u32 = 0xbcf5_c28f;

/// `0.05`: the paddle's sideways offset for an angle below zero.
pub const OFFSET_BELOW_BITS: u32 = 0x3d4c_cccd;

/// `-0.05`: the paddle's sideways offset for any other angle.
pub const OFFSET_OTHER_BITS: u32 = 0xbd4c_cccd;

/// `0.9`: how far from the net the paddle stands while the ball flies.
pub const STANCE_X_BITS: u32 = 0x3f66_6666;

/// `1.0`: how high the paddle stands while the ball flies.
pub const STANCE_Y_BITS: u32 = ONE_BITS;

/// `0.0`: the paddle's sideways place while the ball flies.
pub const STANCE_Z_BITS: u32 = ZERO_BITS;

/// The last term of the paddle's place.
#[derive(Clone, Copy, Debug, PartialEq, Eq, Structural)]
pub enum PaddleBias {
    /// The ball flies: the paddle keeps to its stance. The vector is added
    /// to the paddle's place, all three parts of it.
    Stance(Vec3),
    /// The ball waits at `at`: the paddle goes where the ball is. The ball's
    /// sideways place, `at.z`, is added in any case. Its distance from the
    /// net and its height, `at.x` and `at.y`, are added only where
    /// `near_side` says that the ball is on the player's side of the net.
    Ball { at: Vec3, near_side: bool },
}

/// The pose that a rotation command asks of the paddle, by its terms.
///
/// The paddle is turned, from where it faces the table, by the quarter turn
/// of [`QUARTER_TURN_BITS`] plus `angle` about the upright axis, and by
/// `tilt` about the third axis. Its place is the point
/// `(-cos(|angle|) / 4, 0, 0)` of an arc, the divisor being that of
/// [`ARC_DIVISOR_BITS`], moved by `anchor` and then by `bias`. The readout
/// shows `angle`.
#[derive(Clone, Copy, Debug, PartialEq, Eq, Structural)]
pub struct PaddlePlan {
    /// The command's x: the angle by which the controller is turned.
    pub angle: Scalar,
    /// The command's w.
    pub tilt: Scalar,
    pub anchor: Vec3,
    pub bias: PaddleBias,
}

/// The anchor for an angle: `(0.1, -0.03, 0.05)` for an angle below zero and
/// `(0.1, -0.03, -0.05)` for any other, `-0.0` and a NaN among them.
pub open spec fn anchor_for(angle: Scalar) -> Vec3 {
    if angle.less_than(Scalar { bits: ZERO_BITS }) {
        Vec3::of_bits(ANCHOR_X_BITS, ANCHOR_Y_BITS, OFFSET_BELOW_BITS)
    } else {
        Vec3::of_bits(ANCHOR_X_BITS, ANCHOR_Y_BITS, OFFSET_OTHER_BITS)
    }
}

/// The bias for a ball at `ball`, launched or not.
pub open spec fn bias_for(ball: Vec3, launched: bool) -> PaddleBias {
    if launched {
        PaddleBias::Stance(Vec3::of_bits(STANCE_X_BITS, STANCE_Y_BITS, STANCE_Z_BITS))
    } else {
        PaddleBias::Ball { at: ball, near_side: ball.x.greater_than(Scalar { bits: ZERO_BITS }) }
    }
}

/// The plan that a command makes. Only a rotation makes one; a position
/// command asks nothing of the paddle.
pub open spec fn plan_of(data: CommandDataType, ball: Vec3, launched: bool) -> Option<PaddlePlan> {
    match data {
        CommandDataType::Rotation(q) => Some(
            PaddlePlan {
                angle: q.x,
                tilt: q.w,
                anchor: anchor_for(q.x),
                bias: bias_for(ball, launched),
            },
        ),
        CommandDataType::Position(_) => None,
    }
}

/// The plans that `commands` make, in the order of the commands.
pub open spec fn plans_of(
    commands: Seq<RacketTransformCommand>,
    ball: Vec3,
    launched: bool,
) -> Seq<PaddlePlan>
    decreases commands.len(),
{
    if commands.len() == 0 {
        Seq::empty()
    } else {
        match plan_of(commands.last().command, ball, launched) {
            Some(plan) => plans_of(commands.drop_last(), ball, launched).push(plan),
            None => plans_of(commands.drop_last(), ball, launched),
        }
    }
}

/// The plan of a rotation command, for a ball at `ball_translation`. The
/// plan depends on the arguments alone: the same command on the same ball
/// makes the same plan. Any other command makes none.
pub fn handle_rotation_command(
    data: CommandDataType,
    ball_translation: Vec3,
    launch_state: &LaunchState,
) -> (r: Option<PaddlePlan>)
    ensures
        data is Rotation ==> r == plan_of(data, ball_translation, launch_state.launched),
        data is Rotation ==> r is Some,
        !(data is Rotation) ==> r is None,
{
    let rotation = match data {
        CommandDataType::Rotation(rotation) => rotation,
        CommandDataType::Position(_) => {
            return None;
        },
    };
    let zero = Scalar::zero_value();
    let anchor = if rotation.x.lt(zero) {
        Vec3::from_bits(ANCHOR_X_BITS, ANCHOR_Y_BITS, OFFSET_BELOW_BITS)
    } else {
        Vec3::from_bits(ANCHOR_X_BITS, ANCHOR_Y_BITS, OFFSET_OTHER_BITS)
    };
    let bias = if launch_state.launched {
        PaddleBias::Stance(Vec3::from_bits(STANCE_X_BITS, STANCE_Y_BITS, STANCE_Z_BITS))
    } else {
        PaddleBias::Ball { at: ball_translation, near_side: ball_translation.x.gt(zero) }
    };
    Some(PaddlePlan { angle: rotation.x, tilt: rotation.w, anchor, bias })
}

/// A position command asks nothing of the paddle, whatever it carries, and
/// neither does any other command handed to this function.
pub fn handle_position_command(
    data: CommandDataType,
    ball_translation: Vec3,
    launch_state: &LaunchState,
) -> (r: Option<PaddlePlan>)
    ensures
        r is None,
        data is Position ==> r == plan_of(data, ball_translation, launch_state.launched),
{
    None
}

/// One tick of the command application.
///
/// Without a ball on the scene the tick does nothing: the commands stay in
/// the queue. With a ball, the queue is emptied, and the result holds the
/// plans of the commands that were in it, oldest first. Each plan is meant
/// for every paddle, and a later plan replaces an earlier one.
pub fn apply_racket_commands(
    queue: &mut RacketCommandQueue,
    ball_translation: Option<Vec3>,
    launch_state: &LaunchState,
) -> (plans: Vec<PaddlePlan>)
    ensures
        ball_translation is None ==> plans@.len() == 0 && final(queue)@ == old(queue)@,
        ball_translation is Some ==> final(queue)@.len() == 0,
        ball_translation is Some ==> plans@ == plans_of(
            old(queue)@,
            ball_translation.unwrap(),
            launch_state.launched,
        ),
{
    let mut plans: Vec<PaddlePlan> = Vec::new();
    let ball = match ball_translation {
        Some(ball) => ball,
        None => {
            return plans;
        },
    };
    let batch = queue.drain();
    let mut i: usize = 0;
    while i < batch.len()
        invariant
            i <= batch@.len(),
            plans@ == plans_of(batch@.subrange(0, i as int), ball, launch_state.launched),
        decreases batch@.len() - i,
    {
        assert(batch@.subrange(0, i + 1).drop_last() == batch@.subrange(0, i as int));
        let data = batch[i].command;
        let plan = match data {
            CommandDataType::Position(_) => handle_position_command(data, ball, launch_state),
            CommandDataType::Rotation(_) => handle_rotation_command(data, ball, launch_state),
        };
        match plan {
            Some(plan) => {
                plans.push(plan);
            },
            None => {},
        }
        i = i + 1;
    }
    assert(batch@.subrange(0, batch@.len() as int) == batch@);
    plans
}

} // verus!
