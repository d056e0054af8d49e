//! The ball's life in the plain game: it waits, it is launched, and when it
//! leaves the field in flight or has bounced on the table too often it is
//! taken home.

use vstd::prelude::*;
use bevy::ecs::entity::Entity;
use crate::math::{Scalar, Vec3, ONE_BITS, ZERO_BITS};
use crate::session::{rally, BallTableCollisionCount, LaunchState, Rally, BOUNCE_LIMIT};

verus! {

/// `2.0`: the field ends there upwards, and sideways on both axes.
pub const FIELD_MAX_BITS: u32 = 0x4000_0000;

/// `-2.0`: the field ends there along the table's width.
pub const FIELD_MIN_BITS: u32 = 0xc000_0000;

/// `0.9`: how far from the net a ball is put back.
pub const HOME_X_BITS: u32 = 0x3f66_6666;

/// `1.0`: how high a ball is put back.
pub const HOME_Y_BITS: u32 = ONE_BITS;

/// `0.0`: a ball is put back on the table's middle line.
pub const HOME_Z_BITS: u32 = ZERO_BITS;

/// `-1.5`: behind this line the far wall throws the ball back.
pub const WALL_X_BITS: u32 = 0xbfc0_0000;

/// `0.8`: the share of its speed that a ball keeps off the far wall.
pub const WALL_DAMPING_BITS: u32 = 0x3f4c_cccd;

/// What the lifecycle reads of a ball.
#[derive(Clone, Copy, Debug, PartialEq, Eq)]
pub struct BallBody {
    pub entity: Entity,
    pub translation: Vec3,
    /// The factor by which gravity acts on the ball, if the body has one.
    pub gravity_scale: Option<Scalar>,
}

/// Linear and angular velocity of a body.
#[derive(Clone, Copy, Debug, PartialEq, Eq, Structural)]
pub struct Velocity {
    pub linvel: Vec3,
    pub angvel: Vec3,
}

impl Velocity {
    /// A body at rest.
    pub open spec fn rest() -> Velocity {
        Velocity { linvel: Vec3::origin(), angvel: Vec3::origin() }
    }

    /// A body at rest.
    pub fn zero() -> (r: Velocity)
        ensures
            r == Velocity::rest(),
    {
        Velocity { linvel: Vec3::zero(), angvel: Vec3::zero() }
    }
}

/// What one tick changes of a ball. A field that is `None` leaves that part
/// of the body as the engine has it.
#[derive(Clone, Copy, Debug, PartialEq, Eq)]
pub struct BallUpdate {
    pub entity: Entity,
    pub gravity_scale: Option<Scalar>,
    pub translation: Option<Vec3>,
    pub velocity: Option<Velocity>,
}

impl BallUpdate {
    /// The factor by which gravity acts on `ball` once the update is applied.
    pub open spec fn gravity_of(self, ball: BallBody) -> Option<Scalar> {
        if self.gravity_scale is Some {
            self.gravity_scale
        } else {
            ball.gravity_scale
        }
    }
}

/// The place a ball is taken back to: `(0.9, 1.0, 0.0)`.
pub open spec fn home() -> Vec3 {
    Vec3::of_bits(HOME_X_BITS, HOME_Y_BITS, HOME_Z_BITS)
}

/// The ball is beyond one of the five sides of the field. The side towards
/// the far wall is open: see [`bounce_system`].
pub open spec fn left_the_field(t: Vec3) -> bool {
    ||| t.x.greater_than(Scalar { bits: FIELD_MAX_BITS })
    ||| t.y.greater_than(Scalar { bits: FIELD_MAX_BITS })
    ||| t.y.less_than(Scalar { bits: ZERO_BITS })
    ||| t.z.greater_than(Scalar { bits: FIELD_MAX_BITS })
    ||| t.z.less_than(Scalar { bits: FIELD_MIN_BITS })
}

/// The ball has to be taken home: it is launched and has left the field, or
/// it has bounced on the table more than [`BOUNCE_LIMIT`] times. A ball that
/// waits is not taken home for where it is.
pub open spec fn must_go_home(t: Vec3, session: Rally) -> bool {
    (session.launched && left_the_field(t)) || session.count > BOUNCE_LIMIT
}

/// The tick can read what it needs of the ball: a launched ball must have a
/// gravity scale.
pub open spec fn ball_readable(ball: BallBody, rally: Rally) -> bool {
    rally.launched ==> ball.gravity_scale is Some
}

/// One tick for one ball.
///
/// A launched ball on which gravity does not act yet gets gravity. A ball
/// that must go home is put at [`home`], at rest and without gravity; the
/// session is then no longer launched and its bounce count is 0. Taking home
/// wins where both apply.
pub open spec fn ball_step(ball: BallBody, rally: Rally) -> (BallUpdate, Rally) {
    let wake = rally.launched && ball.gravity_scale is Some && ball.gravity_scale.unwrap().zero();
    if must_go_home(ball.translation, rally) {
        (
            BallUpdate {
                entity: ball.entity,
                gravity_scale: Some(Scalar { bits: ZERO_BITS }),
                translation: Some(home()),
                velocity: Some(Velocity::rest()),
            },
            Rally { launched: false, count: 0 },
        )
    } else {
        (
            BallUpdate {
                entity: ball.entity,
                gravity_scale: if wake {
                    Some(Scalar { bits: ONE_BITS })
                } else {
                    None
                },
                translation: None,
                velocity: None,
            },
            rally,
        )
    }
}

/// The session after the first `n` of `balls` had their tick, in order.
pub open spec fn rally_after(balls: Seq<BallBody>, n: nat, start: Rally) -> Rally
    decreases n,
{
    if n == 0 {
        start
    } else {
        ball_step(balls[n - 1], rally_after(balls, (n - 1) as nat, start)).1
    }
}

/// Each of `balls` is readable when its turn comes.
pub open spec fn balls_readable(balls: Seq<BallBody>, start: Rally) -> bool {
    forall|i: int|
        0 <= i < balls.len() ==> ball_readable(#[trigger] balls[i], rally_after(balls, i as nat, start))
}

pub fn is_out_of_field(t: Vec3) -> (r: bool)
    ensures
        r == left_the_field(t),
{
    let max = Scalar::from_bits(FIELD_MAX_BITS);
    let min = Scalar::from_bits(FIELD_MIN_BITS);
    let floor = Scalar::from_bits(ZERO_BITS);
    t.x.gt(max) || t.y.gt(max) || t.y.lt(floor) || t.z.gt(max) || t.z.lt(min)
}

/// One tick of the lifecycle for one ball: see [`ball_step`].
///
/// Afterwards the bounce count is within its limit, and a session that is
/// still launched has a ball on which gravity acts.
pub fn control_ball(
    ball: &BallBody,
    launch_state: &mut LaunchState,
    counter: &mut BallTableCollisionCount,
) -> (update: BallUpdate)
    requires
        ball_readable(*ball, rally(*old(launch_state), *old(counter))),
    ensures
        update == ball_step(*ball, rally(*old(launch_state), *old(counter))).0,
        rally(*final(launch_state), *final(counter)) == ball_step(
            *ball,
            rally(*old(launch_state), *old(counter)),
        ).1,
        final(counter).count <= BOUNCE_LIMIT,
        final(launch_state).launched ==> !update.gravity_of(*ball).unwrap().zero(),
{
    let mut gravity_scale: Option<Scalar> = None;
    if launch_state.launched {
        match ball.gravity_scale {
            Some(scale) => {
                if scale.is_zero() {
                    gravity_scale = Some(Scalar::one_value());
                }
            },
            None => {},
        }
    }
    if (launch_state.launched && is_out_of_field(ball.translation)) || counter.count
        > BOUNCE_LIMIT {
        launch_state.launched = false;
        counter.count = 0;
        BallUpdate {
            entity: ball.entity,
            gravity_scale: Some(Scalar::zero_value()),
            translation: Some(Vec3::from_bits(HOME_X_BITS, HOME_Y_BITS, HOME_Z_BITS)),
            velocity: Some(Velocity::zero()),
        }
    } else {
        BallUpdate { entity: ball.entity, gravity_scale, translation: None, velocity: None }
    }
}

/// Whether every ball can be read when its turn comes, in a tick that
/// begins with the session given: see [`balls_readable`].
pub fn balls_are_readable(
    balls: &Vec<BallBody>,
    launch_state: &LaunchState,
    counter: &BallTableCollisionCount,
) -> (ok: bool)
    ensures
        ok == balls_readable(balls@, rally(*launch_state, *counter)),
{
    let ghost start = rally(*launch_state, *counter);
    let mut launch = LaunchState { launched: launch_state.launched };
    let mut count = BallTableCollisionCount { count: counter.count };
    let mut i: usize = 0;
    while i < balls.len()
        invariant
            i <= balls@.len(),
            start == rally(*launch_state, *counter),
            rally(launch, count) == rally_after(balls@, i as nat, start),
            forall|j: int|
                0 <= j < i ==> ball_readable(
                    #[trigger] balls@[j],
                    rally_after(balls@, j as nat, start),
                ),
        decreases balls@.len() - i,
    {
        if launch.launched && balls[i].gravity_scale.is_none() {
            return false;
        }
        let _ = control_ball(&balls[i], &mut launch, &mut count);
        i = i + 1;
    }
    true
}

/// One tick of the lifecycle.
///
/// Without exactly one paddle on the scene the tick does nothing. With one,
/// every ball has its turn, in order, each on the session as the ball before
/// it left it; the result holds one update for each ball.
pub fn control_ball_system(
    balls: &Vec<BallBody>,
    racket_found: bool,
    launch_state: &mut LaunchState,
    counter: &mut BallTableCollisionCount,
) -> (updates: Vec<BallUpdate>)
    requires
        racket_found ==> balls_readable(balls@, rally(*old(launch_state), *old(counter))),
    ensures
        !racket_found ==> updates@.len() == 0 && *final(launch_state) == *old(launch_state)
            && *final(counter) == *old(counter),
        racket_found ==> updates@.len() == balls@.len(),
        racket_found ==> forall|i: int|
            0 <= i < balls@.len() ==> #[trigger] updates@[i] == ball_step(
                balls@[i],
                rally_after(balls@, i as nat, rally(*old(launch_state), *old(counter))),
            ).0,
        racket_found ==> rally(*final(launch_state), *final(counter)) == rally_after(
            balls@,
            balls@.len(),
            rally(*old(launch_state), *old(counter)),
        ),
        racket_found && balls@.len() > 0 ==> final(counter).count <= BOUNCE_LIMIT,
{
    let mut updates: Vec<BallUpdate> = Vec::new();
    if !racket_found {
        return updates;
    }
    let ghost start = rally(*launch_state, *counter);
    let mut i: usize = 0;
    while i < balls.len()
        invariant
            i <= balls@.len(),
            updates@.len() == i,
            balls_readable(balls@, start),
            rally(*launch_state, *counter) == rally_after(balls@, i as nat, start),
            forall|j: int|
                0 <= j < i ==> #[trigger] updates@[j] == ball_step(
                    balls@[j],
                    rally_after(balls@, j as nat, start),
                ).0,
            i > 0 ==> counter.count <= BOUNCE_LIMIT,
        decreases balls@.len() - i,
    {
        let update = control_ball(&balls[i], launch_state, counter);
        updates.push(update);
        i = i + 1;
    }
    updates
}

/// What the far wall does to a ball.
#[derive(Clone, Copy, Debug, PartialEq, Eq, Structural)]
pub struct Rebound {
    /// The ball's speed along the table before the wall, without its sign.
    pub speed: Scalar,
    /// The share of that speed the ball leaves with: `0.8`.
    pub damping: Scalar,
}

/// The ball is behind the far wall's line.
pub open spec fn behind_far_wall(t: Vec3) -> bool {
    t.x.less_than(Scalar { bits: WALL_X_BITS })
}

/// What the far wall does to a ball that moves with `linvel`.
pub open spec fn rebound_of(linvel: Vec3) -> Rebound {
    Rebound { speed: linvel.x.absolute(), damping: Scalar { bits: WALL_DAMPING_BITS } }
}

/// The far wall. A ball behind its line is sent back towards the player:
/// its speed along the table becomes the product of the two numbers of the
/// [`Rebound`]. Any other ball is left alone.
pub fn bounce_system(translation: Vec3, linvel: Vec3) -> (r: Option<Rebound>)
    ensures
        behind_far_wall(translation) ==> r == Some(rebound_of(linvel)),
        !behind_far_wall(translation) ==> r is None,
{
    if translation.x.lt(Scalar::from_bits(WALL_X_BITS)) {
        Some(Rebound { speed: linvel.x.abs(), damping: Scalar::from_bits(WALL_DAMPING_BITS) })
    } else {
        None
    }
}

} // verus!
