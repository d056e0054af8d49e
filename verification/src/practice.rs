//! The ball's life in practice: a ball that is out is not put back at once.
//! A new serve is drawn, its path is shown for two seconds, and then the
//! ball is put on that path.

use vstd::prelude::*;
use bevy::ecs::entity::Entity;
use crate::lifecycle::{BallBody, Velocity};
use crate::math::{Scalar, Vec3, ONE_BITS, ZERO_BITS};
use crate::session::{rally, BallTableCollisionCount, LaunchState, Rally, BOUNCE_LIMIT};

verus! {

/// The time for which the path of a new serve is shown, in nanoseconds.
pub const RESPAWN_DELAY_NANOS: u64 = 2_000_000_000;

/// The time on the timer with which a session begins, in nanoseconds.
pub const FIRST_DELAY_NANOS: u64 = 1_000_000_000;

/// `-9.81`: the fall with which the path of a staged serve is drawn, in
/// metres per second and second along the upright axis.
pub const PREVIEW_GRAVITY_BITS: u32 = 0xc11c_f5c3;

/// `0.05`: the step in seconds with which the path of a staged serve is
/// drawn.
pub const PREVIEW_STEP_BITS: u32 = 0x3d4c_cccd;

/// The number of steps for which the path of a staged serve is drawn.
pub const PREVIEW_STEPS: u32 = 40;

/// `1.0`: the practice field ends there towards the player.
pub const PRACTICE_MAX_X_BITS: u32 = ONE_BITS;

/// `-1.0`: the practice field ends there beyond the net.
pub const PRACTICE_MIN_X_BITS: u32 = 0xbf80_0000;

/// `2.0`: the practice field ends there upwards.
pub const PRACTICE_MAX_Y_BITS: u32 = 0x4000_0000;

/// `0.5`: the practice field ends there downwards.
pub const PRACTICE_MIN_Y_BITS: u32 = 0x3f00_0000;

/// `0.7`: the practice field ends there on one side.
pub const PRACTICE_MAX_Z_BITS: u32 = 0x3f33_3333;

/// `-0.7`: the practice field ends there on the other side.
pub const PRACTICE_MIN_Z_BITS: u32 = 0xbf33_3333;

/// A timer that runs once: it counts up to its duration and stays there.
/// Times are in nanoseconds.
#[derive(Clone, Copy, Debug, PartialEq, Eq, Structural)]
pub struct Timer {
    pub elapsed: u64,
    pub duration: u64,
    pub finished: bool,
}

impl Timer {
    /// A timer that has not run yet.
    pub open spec fn fresh(duration: u64) -> Timer {
        Timer { elapsed: 0, duration, finished: false }
    }

    /// The timer after `delta` more nanoseconds. A finished timer stays as
    /// it is. A running timer adds `delta` to its time, as far as the time
    /// can be counted; once that reaches the duration the timer is finished
    /// and its time is the duration.
    pub open spec fn ticked(self, delta: u64) -> Timer {
        if self.finished {
            self
        } else if self.elapsed + delta >= self.duration {
            Timer { elapsed: self.duration, duration: self.duration, finished: true }
        } else {
            Timer {
                elapsed: (self.elapsed + delta) as u64,
                duration: self.duration,
                finished: false,
            }
        }
    }

    pub fn once(duration: u64) -> (timer: Timer)
        ensures
            timer == Timer::fresh(duration),
    {
        Timer { elapsed: 0, duration, finished: false }
    }

    pub fn tick(&mut self, delta: u64)
        ensures
            *final(self) == old(self).ticked(delta),
    {
        if !self.finished {
            if self.duration <= self.elapsed || delta >= self.duration - self.elapsed {
                self.elapsed = self.duration;
                self.finished = true;
            } else {
                self.elapsed = self.elapsed + delta;
            }
        }
    }

    pub fn finished(&self) -> (r: bool)
        ensures
            r == self.finished,
    {
        self.finished
    }
}

/// The numbers between `low` and `high`, both among them.
#[derive(Clone, Copy, Debug, PartialEq, Eq, Structural)]
pub struct Range {
    pub low: Scalar,
    pub high: Scalar,
}

impl Range {
    /// `value` is a number of the range: not below `low` and not above
    /// `high`. No NaN is.
    pub open spec fn holds(self, value: Scalar) -> bool {
        self.low.at_most(value) && value.at_most(self.high)
    }

    pub fn contains(self, value: Scalar) -> (r: bool)
        ensures
            r == self.holds(value),
    {
        self.low.le(value) && value.le(self.high)
    }
}

/// From where a new serve is drawn: each number of a serve is drawn from its
/// range, every number of the range as likely as any other.
#[derive(Clone, Copy, Debug, PartialEq, Eq, Structural)]
pub struct ServeRanges {
    /// Distance from the net: `-0.3` to `-0.1`.
    pub x: Range,
    /// Height: `1.0` to `1.2`.
    pub y: Range,
    /// Sideways place: `-0.4` to `0.4`.
    pub z: Range,
    /// Speed towards the player: `2.0` to `4.0`.
    pub speed_x: Range,
    /// Speed sideways: `-1.0` to `1.0`.
    pub speed_z: Range,
}

/// The range between two bit patterns.
pub open spec fn range_of_bits(low: u32, high: u32) -> Range {
    Range { low: Scalar { bits: low }, high: Scalar { bits: high } }
}

/// The ranges of a new serve.
pub open spec fn serve_ranges_spec() -> ServeRanges {
    ServeRanges {
        x: range_of_bits(0xbe99_999a, 0xbdcc_cccd),
        y: range_of_bits(0x3f80_0000, 0x3f99_999a),
        z: range_of_bits(0xbecc_cccd, 0x3ecc_cccd),
        speed_x: range_of_bits(0x4000_0000, 0x4080_0000),
        speed_z: range_of_bits(0xbf80_0000, 0x3f80_0000),
    }
}

pub fn serve_ranges() -> (r: ServeRanges)
    ensures
        r == serve_ranges_spec(),
{
    ServeRanges {
        x: Range { low: Scalar::from_bits(0xbe99_999a), high: Scalar::from_bits(0xbdcc_cccd) },
        y: Range { low: Scalar::from_bits(0x3f80_0000), high: Scalar::from_bits(0x3f99_999a) },
        z: Range { low: Scalar::from_bits(0xbecc_cccd), high: Scalar::from_bits(0x3ecc_cccd) },
        speed_x: Range {
            low: Scalar::from_bits(0x4000_0000),
            high: Scalar::from_bits(0x4080_0000),
        },
        speed_z: Range {
            low: Scalar::from_bits(0xbf80_0000),
            high: Scalar::from_bits(0x3f80_0000),
        },
    }
}

/// The five numbers drawn for a new serve.
#[derive(Clone, Copy, Debug, PartialEq, Eq, Structural)]
pub struct ServeSample {
    pub x: Scalar,
    pub y: Scalar,
    pub z: Scalar,
    pub speed_x: Scalar,
    pub speed_z: Scalar,
}

impl ServeSample {
    /// Where the serve begins.
    pub open spec fn translation(self) -> Vec3 {
        Vec3 { x: self.x, y: self.y, z: self.z }
    }

    /// With what velocity the serve begins: it neither rises nor falls.
    pub open spec fn linvel(self) -> Vec3 {
        Vec3 { x: self.speed_x, y: Scalar { bits: ZERO_BITS }, z: self.speed_z }
    }
}

/// Each number of the serve is a number of its range.
pub open spec fn serve_in_ranges(sample: ServeSample, ranges: ServeRanges) -> bool {
    &&& ranges.x.holds(sample.x)
    &&& ranges.y.holds(sample.y)
    &&& ranges.z.holds(sample.z)
    &&& ranges.speed_x.holds(sample.speed_x)
    &&& ranges.speed_z.holds(sample.speed_z)
}

/// Whether a serve is one that may be staged: each of its numbers lies in
/// the range it is drawn from.
pub fn is_serve_in_ranges(sample: ServeSample) -> (ok: bool)
    ensures
        ok == serve_in_ranges(sample, serve_ranges_spec()),
{
    let ranges = serve_ranges();
    ranges.x.contains(sample.x) && ranges.y.contains(sample.y) && ranges.z.contains(sample.z)
        && ranges.speed_x.contains(sample.speed_x) && ranges.speed_z.contains(sample.speed_z)
}

/// A ball is put on its new path: its transform is replaced by one at
/// `translation`, not turned and of natural size, and its velocity by
/// `velocity`.
#[derive(Clone, Copy, Debug, PartialEq, Eq)]
pub struct Respawn {
    pub entity: Entity,
    pub translation: Vec3,
    pub velocity: Velocity,
}

/// What the preview does in one tick.
#[derive(Clone, Copy, Debug, PartialEq, Eq)]
pub enum PreviewPhase {
    /// No respawn is on its way. The balls are checked.
    Clear,
    /// A respawn waits for its time. Its path is shown; the balls are left
    /// alone, by the respawn and by the checks.
    Waiting,
    /// The time is up: the ball is put on its path. The balls are checked.
    Released(Respawn),
}

/// The respawn that is on its way, and the serve that was drawn for it.
#[derive(Clone, Copy, Debug, PartialEq, Eq)]
pub struct TrajectoryPreview {
    pub timer: Timer,
    pub pending_reset: bool,
    pub cached_translation: Vec3,
    pub cached_velocity: Vec3,
    /// The ball that waits for the respawn.
    pub entity: Option<Entity>,
}

impl TrajectoryPreview {
    /// The preview with which a session begins: nothing on its way.
    pub open spec fn empty() -> TrajectoryPreview {
        TrajectoryPreview {
            timer: Timer::fresh(FIRST_DELAY_NANOS),
            pending_reset: false,
            cached_translation: Vec3::origin(),
            cached_velocity: Vec3::origin(),
            entity: None,
        }
    }

    pub fn new() -> (preview: TrajectoryPreview)
        ensures
            preview == TrajectoryPreview::empty(),
    {
        TrajectoryPreview {
            timer: Timer::once(FIRST_DELAY_NANOS),
            pending_reset: false,
            cached_translation: Vec3::zero(),
            cached_velocity: Vec3::zero(),
            entity: None,
        }
    }

    /// The preview once a respawn of `entity` with the serve `sample` was put
    /// on its way. A respawn that was on its way before is forgotten.
    pub open spec fn staged(self, entity: Entity, sample: ServeSample) -> TrajectoryPreview {
        TrajectoryPreview {
            timer: Timer::fresh(RESPAWN_DELAY_NANOS),
            pending_reset: true,
            cached_translation: sample.translation(),
            cached_velocity: sample.linvel(),
            entity: Some(entity),
        }
    }

    /// The serve that the preview holds begins within the ranges of a new
    /// serve, and with a velocity within them that neither rises nor falls.
    pub open spec fn holds_serve_in_ranges(self) -> bool {
        let ranges = serve_ranges_spec();
        &&& ranges.x.holds(self.cached_translation.x)
        &&& ranges.y.holds(self.cached_translation.y)
        &&& ranges.z.holds(self.cached_translation.z)
        &&& ranges.speed_x.holds(self.cached_velocity.x)
        &&& self.cached_velocity.y == Scalar { bits: ZERO_BITS }
        &&& ranges.speed_z.holds(self.cached_velocity.z)
    }

    /// Puts a respawn of `entity` on its way: see [`Self::staged`]. The
    /// serve has to be one of the ranges of a new serve:
    /// [`is_serve_in_ranges`] tells.
    pub fn stage(&mut self, entity: Entity, sample: ServeSample)
        requires
            serve_in_ranges(sample, serve_ranges_spec()),
        ensures
            *final(self) == old(self).staged(entity, sample),
            final(self).holds_serve_in_ranges(),
    {
        self.pending_reset = true;
        self.timer = Timer::once(RESPAWN_DELAY_NANOS);
        self.cached_translation = Vec3::new(sample.x, sample.y, sample.z);
        self.cached_velocity = Vec3::new(sample.speed_x, Scalar::zero_value(), sample.speed_z);
        self.entity = Some(entity);
    }

    /// The respawn that the preview holds for `entity`.
    pub open spec fn respawn_of(self, entity: Entity) -> Respawn {
        Respawn {
            entity,
            translation: self.cached_translation,
            velocity: Velocity { linvel: self.cached_velocity, angvel: Vec3::origin() },
        }
    }

    /// What the preview does in a tick of `delta` nanoseconds.
    ///
    /// With no respawn on its way it does nothing. Else its timer runs on.
    /// While the timer is not finished the respawn waits. When it is, the
    /// respawn is released and the preview forgets it. A preview whose timer
    /// is finished but which knows no ball has nothing to release and stays
    /// as it is.
    pub open spec fn phase_after(self, delta: u64) -> PreviewPhase {
        if !self.pending_reset {
            PreviewPhase::Clear
        } else if !self.timer.ticked(delta).finished {
            PreviewPhase::Waiting
        } else {
            match self.entity {
                Some(entity) => PreviewPhase::Released(self.respawn_of(entity)),
                None => PreviewPhase::Clear,
            }
        }
    }

    /// The preview after a tick of `delta` nanoseconds: see
    /// [`Self::phase_after`].
    pub open spec fn advanced(self, delta: u64) -> TrajectoryPreview {
        if !self.pending_reset {
            self
        } else {
            let timer = self.timer.ticked(delta);
            if timer.finished && self.entity is Some {
                TrajectoryPreview {
                    timer,
                    pending_reset: false,
                    cached_translation: self.cached_translation,
                    cached_velocity: self.cached_velocity,
                    entity: None,
                }
            } else {
                TrajectoryPreview {
                    timer,
                    pending_reset: self.pending_reset,
                    cached_translation: self.cached_translation,
                    cached_velocity: self.cached_velocity,
                    entity: self.entity,
                }
            }
        }
    }

    /// One tick of the preview: see [`Self::phase_after`] and
    /// [`Self::advanced`]. A release ends the flight: the session is then
    /// not launched and has no bounce to its name. Any other tick leaves the
    /// session as it is.
    pub fn advance(
        &mut self,
        delta: u64,
        launch_state: &mut LaunchState,
        counter: &mut BallTableCollisionCount,
    ) -> (phase: PreviewPhase)
        ensures
            phase == old(self).phase_after(delta),
            *final(self) == old(self).advanced(delta),
            rally(*final(launch_state), *final(counter)) == rally_after_phase(
                phase,
                rally(*old(launch_state), *old(counter)),
            ),
    {
        if !self.pending_reset {
            return PreviewPhase::Clear;
        }
        self.timer.tick(delta);
        if !self.timer.finished() {
            return PreviewPhase::Waiting;
        }
        match self.entity {
            Some(entity) => {
                let respawn = Respawn {
                    entity,
                    translation: self.cached_translation,
                    velocity: Velocity { linvel: self.cached_velocity, angvel: Vec3::zero() },
                };
                launch_state.launched = false;
                counter.count = 0;
                self.pending_reset = false;
                self.entity = None;
                PreviewPhase::Released(respawn)
            },
            None => PreviewPhase::Clear,
        }
    }
}

/// The session after a tick of the preview.
pub open spec fn rally_after_phase(phase: PreviewPhase, before: Rally) -> Rally {
    if phase is Released {
        Rally { launched: false, count: 0 }
    } else {
        before
    }
}

/// The ball is beyond one of the six sides of the practice field.
pub open spec fn left_practice_field(t: Vec3) -> bool {
    ||| t.x.greater_than(Scalar { bits: PRACTICE_MAX_X_BITS })
    ||| t.x.less_than(Scalar { bits: PRACTICE_MIN_X_BITS })
    ||| t.y.greater_than(Scalar { bits: PRACTICE_MAX_Y_BITS })
    ||| t.y.less_than(Scalar { bits: PRACTICE_MIN_Y_BITS })
    ||| t.z.greater_than(Scalar { bits: PRACTICE_MAX_Z_BITS })
    ||| t.z.less_than(Scalar { bits: PRACTICE_MIN_Z_BITS })
}

pub fn is_out_of_practice_field(t: Vec3) -> (r: bool)
    ensures
        r == left_practice_field(t),
{
    t.x.gt(Scalar::from_bits(PRACTICE_MAX_X_BITS)) || t.x.lt(Scalar::from_bits(PRACTICE_MIN_X_BITS))
        || t.y.gt(Scalar::from_bits(PRACTICE_MAX_Y_BITS)) || t.y.lt(
        Scalar::from_bits(PRACTICE_MIN_Y_BITS),
    ) || t.z.gt(Scalar::from_bits(PRACTICE_MAX_Z_BITS)) || t.z.lt(
        Scalar::from_bits(PRACTICE_MIN_Z_BITS),
    )
}

/// What a tick finds of one ball.
#[derive(Clone, Copy, Debug, PartialEq, Eq)]
pub struct BallCheck {
    pub entity: Entity,
    /// The factor by which gravity is to act on the ball from now on: `1.0`
    /// for a ball that flies and on which gravity does not act yet. `None`
    /// leaves the ball as the engine has it.
    pub gravity_scale: Option<Scalar>,
    /// The ball flies and is out: a new serve is to be drawn and staged for
    /// it.
    pub respawn_due: bool,
}

/// What a tick finds of `ball`. Only a ball in flight is looked at. It is
/// out once it has left the practice field or has bounced on the table more
/// than [`BOUNCE_LIMIT`] times.
pub open spec fn check_of(ball: BallBody, session: Rally) -> BallCheck {
    if session.launched {
        BallCheck {
            entity: ball.entity,
            gravity_scale: if ball.gravity_scale is Some && ball.gravity_scale.unwrap().zero() {
                Some(Scalar { bits: ONE_BITS })
            } else {
                None
            },
            respawn_due: left_practice_field(ball.translation) || session.count > BOUNCE_LIMIT,
        }
    } else {
        BallCheck { entity: ball.entity, gravity_scale: None, respawn_due: false }
    }
}

/// Checks one ball: see [`check_of`].
pub fn check_ball(
    ball: &BallBody,
    launch_state: &LaunchState,
    counter: &BallTableCollisionCount,
) -> (check: BallCheck)
    requires
        launch_state.launched ==> ball.gravity_scale is Some,
    ensures
        check == check_of(*ball, rally(*launch_state, *counter)),
{
    if launch_state.launched {
        let gravity_scale = match ball.gravity_scale {
            Some(scale) => if scale.is_zero() {
                Some(Scalar::one_value())
            } else {
                None
            },
            None => None,
        };
        let respawn_due = is_out_of_practice_field(ball.translation) || counter.count
            > BOUNCE_LIMIT;
        BallCheck { entity: ball.entity, gravity_scale, respawn_due }
    } else {
        BallCheck { entity: ball.entity, gravity_scale: None, respawn_due: false }
    }
}

/// What one tick of the practice lifecycle found.
#[derive(Debug)]
pub struct PracticeTick {
    pub phase: PreviewPhase,
    /// One check for each ball, in the order of the balls; none while a
    /// respawn waits.
    pub checks: Vec<BallCheck>,
}

/// The balls can be read in a tick that begins with `preview` and
/// `session`: where the tick checks balls in flight, each has a gravity
/// scale.
pub open spec fn practice_readable(
    preview: TrajectoryPreview,
    delta: u64,
    balls: Seq<BallBody>,
    session: Rally,
) -> bool {
    let phase = preview.phase_after(delta);
    !(phase is Waiting) && rally_after_phase(phase, session).launched ==> forall|i: int|
        0 <= i < balls.len() ==> (#[trigger] balls[i]).gravity_scale is Some
}

/// Whether the balls can be read in a tick of `delta` nanoseconds that
/// begins with the preview and the session given: see
/// [`practice_readable`].
pub fn practice_is_readable(
    preview: &TrajectoryPreview,
    delta: u64,
    balls: &Vec<BallBody>,
    launch_state: &LaunchState,
    counter: &BallTableCollisionCount,
) -> (ok: bool)
    ensures
        ok == practice_readable(*preview, delta, balls@, rally(*launch_state, *counter)),
{
    let mut ahead = *preview;
    let mut launch = LaunchState { launched: launch_state.launched };
    let mut count = BallTableCollisionCount { count: counter.count };
    let phase = ahead.advance(delta, &mut launch, &mut count);
    match phase {
        PreviewPhase::Waiting => {
            return true;
        },
        _ => {},
    }
    if !launch.launched {
        return true;
    }
    let mut i: usize = 0;
    while i < balls.len()
        invariant
            i <= balls@.len(),
            phase == preview.phase_after(delta),
            !(phase is Waiting),
            rally_after_phase(phase, rally(*launch_state, *counter)).launched,
            forall|j: int| 0 <= j < i ==> (#[trigger] balls@[j]).gravity_scale is Some,
        decreases balls@.len() - i,
    {
        if balls[i].gravity_scale.is_none() {
            return false;
        }
        i = i + 1;
    }
    true
}

/// One tick of the practice lifecycle.
///
/// First the preview has its tick. While a respawn waits nothing else
/// happens. Else every ball is checked, on the session as the preview left
/// it. For each ball whose respawn is due the caller draws a serve and
/// stages it, in the order of the checks.
pub fn control_ball_system(
    preview: &mut TrajectoryPreview,
    delta: u64,
    balls: &Vec<BallBody>,
    launch_state: &mut LaunchState,
    counter: &mut BallTableCollisionCount,
) -> (tick: PracticeTick)
    requires
        practice_readable(*old(preview), delta, balls@, rally(*old(launch_state), *old(counter))),
    ensures
        tick.phase == old(preview).phase_after(delta),
        *final(preview) == old(preview).advanced(delta),
        rally(*final(launch_state), *final(counter)) == rally_after_phase(
            tick.phase,
            rally(*old(launch_state), *old(counter)),
        ),
        tick.phase is Waiting ==> tick.checks@.len() == 0,
        !(tick.phase is Waiting) ==> tick.checks@.len() == balls@.len(),
        !(tick.phase is Waiting) ==> forall|i: int|
            0 <= i < balls@.len() ==> #[trigger] tick.checks@[i] == check_of(
                balls@[i],
                rally(*final(launch_state), *final(counter)),
            ),
{
    let phase = preview.advance(delta, launch_state, counter);
    let mut checks: Vec<BallCheck> = Vec::new();
    match phase {
        PreviewPhase::Waiting => {
            return PracticeTick { phase, checks };
        },
        _ => {},
    }
    let mut i: usize = 0;
    while i < balls.len()
        invariant
            i <= balls@.len(),
            checks@.len() == i,
            launch_state.launched ==> forall|j: int|
                0 <= j < balls@.len() ==> (#[trigger] balls@[j]).gravity_scale is Some,
            forall|j: int|
                0 <= j < i ==> #[trigger] checks@[j] == check_of(
                    balls@[j],
                    rally(*launch_state, *counter),
                ),
        decreases balls@.len() - i,
    {
        let check = check_ball(&balls[i], launch_state, counter);
        checks.push(check);
        i = i + 1;
    }
    PracticeTick { phase, checks }
}

/// The sum of `deltas`.
pub open spec fn total_nanos(deltas: Seq<u64>) -> nat
    decreases deltas.len(),
{
    if deltas.len() == 0 {
        0
    } else {
        deltas[0] as nat + total_nanos(deltas.drop_first())
    }
}

/// The preview after one tick for each of `deltas`, in order.
pub open spec fn advanced_through(preview: TrajectoryPreview, deltas: Seq<u64>) -> TrajectoryPreview
    decreases deltas.len(),
{
    if deltas.len() == 0 {
        preview
    } else {
        advanced_through(preview.advanced(deltas[0]), deltas.drop_first())
    }
}

/// In how many of the ticks for `deltas` a respawn is released.
pub open spec fn releases(preview: TrajectoryPreview, deltas: Seq<u64>) -> nat
    decreases deltas.len(),
{
    if deltas.len() == 0 {
        0
    } else if preview.phase_after(deltas[0]) is Released {
        1 + releases(preview.advanced(deltas[0]), deltas.drop_first())
    } else {
        releases(preview.advanced(deltas[0]), deltas.drop_first())
    }
}

/// In how many of the ticks for `deltas` a respawn waits.
pub open spec fn waits(preview: TrajectoryPreview, deltas: Seq<u64>) -> nat
    decreases deltas.len(),
{
    if deltas.len() == 0 {
        0
    } else if preview.phase_after(deltas[0]) is Waiting {
        1 + waits(preview.advanced(deltas[0]), deltas.drop_first())
    } else {
        waits(preview.advanced(deltas[0]), deltas.drop_first())
    }
}

proof fn lemma_nothing_pending(preview: TrajectoryPreview, deltas: Seq<u64>)
    requires
        !preview.pending_reset,
    ensures
        releases(preview, deltas) == 0,
        waits(preview, deltas) == 0,
        advanced_through(preview, deltas) == preview,
    decreases deltas.len(),
{
    if deltas.len() > 0 {
        lemma_nothing_pending(preview.advanced(deltas[0]), deltas.drop_first());
    }
}

/// A respawn is released once, when its time is up, and not before. Take a
/// preview with a respawn on its way and a timer that still runs, and any
/// ticks, however long and however many. While the time they add up to
/// falls short of what the timer lacks, every tick finds the respawn
/// waiting: none is released, and the preview keeps the ball and the serve.
/// Once the time reaches what the timer lacks, exactly one tick has released
/// the respawn, every tick before it found it waiting, and nothing is on
/// its way any more.
pub proof fn lemma_respawn_released_once(preview: TrajectoryPreview, deltas: Seq<u64>)
    requires
        preview.pending_reset,
        preview.entity is Some,
        !preview.timer.finished,
        preview.timer.elapsed < preview.timer.duration,
    ensures
        preview.timer.elapsed + total_nanos(deltas) < preview.timer.duration ==> {
            &&& releases(preview, deltas) == 0
            &&& waits(preview, deltas) == deltas.len()
            &&& advanced_through(preview, deltas).pending_reset
            &&& advanced_through(preview, deltas).entity == preview.entity
            &&& advanced_through(preview, deltas).cached_translation == preview.cached_translation
            &&& advanced_through(preview, deltas).cached_velocity == preview.cached_velocity
        },
        preview.timer.elapsed + total_nanos(deltas) >= preview.timer.duration ==> {
            &&& releases(preview, deltas) == 1
            &&& waits(preview, deltas) < deltas.len()
            &&& !advanced_through(preview, deltas).pending_reset
        },
    decreases deltas.len(),
{
    if deltas.len() > 0 {
        let next = preview.advanced(deltas[0]);
        let rest = deltas.drop_first();
        if preview.timer.elapsed + deltas[0] >= preview.timer.duration {
            lemma_nothing_pending(next, rest);
        } else {
            lemma_respawn_released_once(next, rest);
        }
    }
}

/// The respawn of a staged serve comes after two seconds. From the moment a
/// respawn is staged, ticks that add up to less than two seconds release
/// nothing, and ticks that add up to two seconds or more have released it
/// exactly once, with the serve that was staged.
pub proof fn lemma_staged_respawn_takes_two_seconds(
    before: TrajectoryPreview,
    entity: Entity,
    sample: ServeSample,
    deltas: Seq<u64>,
)
    ensures
        total_nanos(deltas) < RESPAWN_DELAY_NANOS ==> releases(
            before.staged(entity, sample),
            deltas,
        ) == 0 && advanced_through(before.staged(entity, sample), deltas).pending_reset,
        total_nanos(deltas) >= RESPAWN_DELAY_NANOS ==> releases(
            before.staged(entity, sample),
            deltas,
        ) == 1 && !advanced_through(before.staged(entity, sample), deltas).pending_reset,
        before.staged(entity, sample).respawn_of(entity).translation == sample.translation(),
        before.staged(entity, sample).respawn_of(entity).velocity.linvel == sample.linvel(),
{
    lemma_respawn_released_once(before.staged(entity, sample), deltas);
}

} // verus!
