//! What the game makes of the physics engine's events: a paddle that meets
//! the ball launches it, a table that meets the ball is counted, and the
//! force between paddle and ball sets the direction of the serve.
//!
//! Each event is handled by itself and in the order of arrival. The engine
//! may report one contact more than once: nothing here assumes otherwise.

use vstd::prelude::*;
use bevy::ecs::entity::Entity;
use crate::math::{Scalar, Vec3};
use crate::session::{rally, BallTableCollisionCount, LaunchState, Rally};

verus! {

/// `3.0`: the speed with which the ball leaves the paddle.
pub const SERVE_SPEED_BITS: u32 = 0x4040_0000;

/// One of the two bodies of an event, with what the scene says it is.
#[derive(Clone, Copy, Debug, PartialEq, Eq)]
pub struct Body {
    pub entity: Entity,
    pub is_ball: bool,
    pub is_racket: bool,
    pub is_table: bool,
}

/// Two bodies have begun or ceased to touch.
#[derive(Clone, Copy, Debug, PartialEq, Eq)]
pub enum CollisionEvent {
    Started(Body, Body),
    Stopped(Body, Body),
}

/// One of the two is the ball and the other the paddle.
pub open spec fn ball_meets_racket(a: Body, b: Body) -> bool {
    (a.is_ball && b.is_racket) || (b.is_ball && a.is_racket)
}

/// One of the two is the ball and the other the table.
pub open spec fn ball_meets_table(a: Body, b: Body) -> bool {
    (a.is_ball && b.is_table) || (b.is_ball && a.is_table)
}

/// The session as the paddle's part of a contact leaves it: a ball that
/// waits is launched, with no bounce to its name. A ball in flight stays as
/// it is.
pub open spec fn after_racket(a: Body, b: Body, before: Rally) -> Rally {
    if ball_meets_racket(a, b) && !before.launched {
        Rally { launched: true, count: 0 }
    } else {
        before
    }
}

/// The bounce count can take what the event adds to it.
pub open spec fn collision_fits(event: CollisionEvent, before: Rally) -> bool {
    match event {
        CollisionEvent::Started(a, b) => ball_meets_table(a, b) ==> after_racket(a, b, before).count
            < u32::MAX,
        CollisionEvent::Stopped(_, _) => true,
    }
}

/// The session after one event. Only the start of a contact counts. The
/// paddle's part comes first, then the table's: each contact of ball and
/// table adds one bounce, launched or not.
pub open spec fn collision_step(event: CollisionEvent, before: Rally) -> Rally {
    match event {
        CollisionEvent::Started(a, b) => {
            let mid = after_racket(a, b, before);
            if ball_meets_table(a, b) {
                Rally { launched: mid.launched, count: (mid.count + 1) as u32 }
            } else {
                mid
            }
        },
        CollisionEvent::Stopped(_, _) => before,
    }
}

/// The session after the first `n` of `events`, in order.
pub open spec fn rally_through(events: Seq<CollisionEvent>, n: nat, start: Rally) -> Rally
    decreases n,
{
    if n == 0 {
        start
    } else {
        collision_step(events[n - 1], rally_through(events, (n - 1) as nat, start))
    }
}

/// The bounce count can take every event when its turn comes.
pub open spec fn collisions_fit(events: Seq<CollisionEvent>, start: Rally) -> bool {
    forall|i: int|
        0 <= i < events.len() ==> collision_fits(
            #[trigger] events[i],
            rally_through(events, i as nat, start),
        )
}

/// Handles one collision event: see [`collision_step`].
pub fn on_collision(
    event: &CollisionEvent,
    launch_state: &mut LaunchState,
    counter: &mut BallTableCollisionCount,
)
    requires
        collision_fits(*event, rally(*old(launch_state), *old(counter))),
    ensures
        rally(*final(launch_state), *final(counter)) == collision_step(
            *event,
            rally(*old(launch_state), *old(counter)),
        ),
{
    match event {
        CollisionEvent::Started(a, b) => {
            let hit_racket = (a.is_ball && b.is_racket) || (b.is_ball && a.is_racket);
            if hit_racket && !launch_state.launched {
                launch_state.launched = true;
                counter.count = 0;
            }
            let hit_table = (a.is_ball && b.is_table) || (b.is_ball && a.is_table);
            if hit_table {
                counter.count = counter.count + 1;
            }
        },
        CollisionEvent::Stopped(_, _) => {},
    }
}

/// Handles the collision events of one tick, in order.
pub fn collision_event_system(
    events: &Vec<CollisionEvent>,
    launch_state: &mut LaunchState,
    counter: &mut BallTableCollisionCount,
)
    requires
        collisions_fit(events@, rally(*old(launch_state), *old(counter))),
    ensures
        rally(*final(launch_state), *final(counter)) == rally_through(
            events@,
            events@.len(),
            rally(*old(launch_state), *old(counter)),
        ),
{
    let ghost start = rally(*launch_state, *counter);
    let mut i: usize = 0;
    while i < events.len()
        invariant
            i <= events@.len(),
            collisions_fit(events@, start),
            rally(*launch_state, *counter) == rally_through(events@, i as nat, start),
        decreases events@.len() - i,
    {
        on_collision(&events[i], launch_state, counter);
        i = i + 1;
    }
}

/// Whether the bounce count can take every one of `events` when its turn
/// comes, in a tick that begins with the session given: see
/// [`collisions_fit`].
pub fn collisions_have_room(
    events: &Vec<CollisionEvent>,
    launch_state: &LaunchState,
    counter: &BallTableCollisionCount,
) -> (ok: bool)
    ensures
        ok == collisions_fit(events@, rally(*launch_state, *counter)),
{
    let ghost start = rally(*launch_state, *counter);
    let mut launch = LaunchState { launched: launch_state.launched };
    let mut count = BallTableCollisionCount { count: counter.count };
    let mut i: usize = 0;
    while i < events.len()
        invariant
            i <= events@.len(),
            start == rally(*launch_state, *counter),
            rally(launch, count) == rally_through(events@, i as nat, start),
            forall|j: int|
                0 <= j < i ==> collision_fits(
                    #[trigger] events@[j],
                    rally_through(events@, j as nat, start),
                ),
        decreases events@.len() - i,
    {
        let fits = match events[i] {
            CollisionEvent::Started(a, b) => {
                let hit_racket = (a.is_ball && b.is_racket) || (b.is_ball && a.is_racket);
                let hit_table = (a.is_ball && b.is_table) || (b.is_ball && a.is_table);
                !hit_table || (hit_racket && !launch.launched) || count.count < u32::MAX
            },
            CollisionEvent::Stopped(_, _) => true,
        };
        if !fits {
            return false;
        }
        on_collision(&events[i], &mut launch, &mut count);
        i = i + 1;
    }
    true
}

/// How many bounces an event adds: one where ball and table begin to touch.
pub open spec fn bounces_of(event: CollisionEvent) -> nat {
    match event {
        CollisionEvent::Started(a, b) => if ball_meets_table(a, b) {
            1
        } else {
            0
        },
        CollisionEvent::Stopped(_, _) => 0,
    }
}

/// A contact reported again while the ball is in flight does nothing but
/// count. Whatever the event, and the paddle may be part of it: a launched
/// session stays launched, its bounces are never set back, and the event
/// adds as many bounces the second time as the first.
pub proof fn lemma_contact_in_flight_only_counts(event: CollisionEvent, before: Rally)
    requires
        before.launched,
        before.count + 2 * bounces_of(event) <= u32::MAX,
    ensures
        collision_step(event, before).launched,
        collision_step(event, before).count == before.count + bounces_of(event),
        collision_step(event, collision_step(event, before)).launched,
        collision_step(event, collision_step(event, before)).count == before.count + 2
            * bounces_of(event),
{
}

/// The physics engine reports the force between two bodies that touch.
#[derive(Clone, Copy, Debug, PartialEq, Eq)]
pub struct ContactForceEvent {
    pub collider1: Body,
    pub collider2: Body,
    /// The sum of the forces between the two.
    pub total_force: Vec3,
}

/// A serve: the ball's linear velocity becomes the direction of `force`,
/// scaled to `speed`. A force without direction, none or one that cannot be
/// brought to length one, leaves the ball at rest. What the engine's solver
/// had worked out for the ball is overwritten, not added to.
#[derive(Clone, Copy, Debug, PartialEq, Eq)]
pub struct Serve {
    pub ball: Entity,
    pub force: Vec3,
    pub speed: Scalar,
}

/// The serve that a contact force leads to: one where ball and paddle
/// touch, for the body that is the ball. Where each body is both ball and
/// paddle the first body is served.
pub open spec fn serve_of(event: ContactForceEvent) -> Option<Serve> {
    if event.collider1.is_ball && event.collider2.is_racket {
        Some(
            Serve {
                ball: event.collider1.entity,
                force: event.total_force,
                speed: Scalar { bits: SERVE_SPEED_BITS },
            },
        )
    } else if event.collider2.is_ball && event.collider1.is_racket {
        Some(
            Serve {
                ball: event.collider2.entity,
                force: event.total_force,
                speed: Scalar { bits: SERVE_SPEED_BITS },
            },
        )
    } else {
        None
    }
}

/// The serves that `events` lead to, in the order of the events.
pub open spec fn serves_of(events: Seq<ContactForceEvent>) -> Seq<Serve>
    decreases events.len(),
{
    if events.len() == 0 {
        Seq::empty()
    } else {
        match serve_of(events.last()) {
            Some(serve) => serves_of(events.drop_last()).push(serve),
            None => serves_of(events.drop_last()),
        }
    }
}

/// Handles one contact-force event: see [`serve_of`].
pub fn on_contact_force(event: &ContactForceEvent) -> (r: Option<Serve>)
    ensures
        r == serve_of(*event),
{
    if event.collider1.is_ball && event.collider2.is_racket {
        Some(
            Serve {
                ball: event.collider1.entity,
                force: event.total_force,
                speed: Scalar::from_bits(SERVE_SPEED_BITS),
            },
        )
    } else if event.collider2.is_ball && event.collider1.is_racket {
        Some(
            Serve {
                ball: event.collider2.entity,
                force: event.total_force,
                speed: Scalar::from_bits(SERVE_SPEED_BITS),
            },
        )
    } else {
        None
    }
}

/// Handles the contact-force events of one tick: the serves to carry out,
/// in the order of the events. The same event handled again gives the same
/// serve again, and a serve carried out twice leaves the ball as one does.
pub fn contact_force_system(events: &Vec<ContactForceEvent>) -> (serves: Vec<Serve>)
    ensures
        serves@ == serves_of(events@),
{
    let mut serves: Vec<Serve> = Vec::new();
    let mut i: usize = 0;
    while i < events.len()
        invariant
            i <= events@.len(),
            serves@ == serves_of(events@.subrange(0, i as int)),
        decreases events@.len() - i,
    {
        assert(events@.subrange(0, i + 1).drop_last() == events@.subrange(0, i as int));
        match on_contact_force(&events[i]) {
            Some(serve) => {
                serves.push(serve);
            },
            None => {},
        }
        i = i + 1;
    }
    assert(events@.subrange(0, events@.len() as int) == events@);
    serves
}

} // verus!
