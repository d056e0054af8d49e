use bevy::ecs::entity::Entity;
use pong_core::math::{Scalar, Vec3};
use pong_core::reaction::{
    collision_event_system, collisions_have_room, contact_force_system, on_collision,
    on_contact_force, Body, CollisionEvent, ContactForceEvent, Serve,
};
use pong_core::session::{BallTableCollisionCount, LaunchState};

fn scalar(value: f32) -> Scalar {
    Scalar::from_bits(value.to_bits())
}

fn vec3(x: f32, y: f32, z: f32) -> Vec3 {
    Vec3::new(scalar(x), scalar(y), scalar(z))
}

fn ball() -> Body {
    Body { entity: Entity::from_raw(1), is_ball: true, is_racket: false, is_table: false }
}

fn racket() -> Body {
    Body { entity: Entity::from_raw(2), is_ball: false, is_racket: true, is_table: false }
}

fn table() -> Body {
    Body { entity: Entity::from_raw(3), is_ball: false, is_racket: false, is_table: true }
}

fn net() -> Body {
    Body { entity: Entity::from_raw(4), is_ball: false, is_racket: false, is_table: false }
}

fn run(events: Vec<CollisionEvent>, launched: bool, count: u32) -> (bool, u32) {
    let mut launch = LaunchState { launched };
    let mut counter = BallTableCollisionCount { count };
    assert!(collisions_have_room(&events, &launch, &counter));
    collision_event_system(&events, &mut launch, &mut counter);
    (launch.launched, counter.count)
}

fn velocity_of(serve: &Serve) -> bevy::math::Vec3 {
    let force = bevy::math::Vec3::new(
        f32::from_bits(serve.force.x.to_bits()),
        f32::from_bits(serve.force.y.to_bits()),
        f32::from_bits(serve.force.z.to_bits()),
    );
    force.normalize_or_zero() * f32::from_bits(serve.speed.to_bits())
}

#[test]
fn paddle_launches_a_waiting_ball() {
    assert_eq!(run(vec![CollisionEvent::Started(ball(), racket())], false, 2), (true, 0));
    assert_eq!(run(vec![CollisionEvent::Started(racket(), ball())], false, 2), (true, 0));
}

#[test]
fn contact_in_flight_does_not_launch_again() {
    let event = CollisionEvent::Started(ball(), racket());
    assert_eq!(run(vec![event], true, 2), (true, 2));
    assert_eq!(run(vec![event, event], true, 2), (true, 2));
    assert_eq!(run(vec![event, event], false, 2), (true, 0));
}

#[test]
fn same_table_contact_twice_counts_twice_and_nothing_else() {
    let event = CollisionEvent::Started(ball(), table());
    assert_eq!(run(vec![event], true, 1), (true, 2));
    assert_eq!(run(vec![event, event], true, 1), (true, 3));
    let mixed = Body { is_racket: true, ..table() };
    let event = CollisionEvent::Started(ball(), mixed);
    assert_eq!(run(vec![event], true, 1), (true, 2));
    assert_eq!(run(vec![event, event], true, 1), (true, 3));
}

#[test]
fn table_bounces_are_counted_from_zero_to_three() {
    let events = vec![
        CollisionEvent::Started(ball(), table()),
        CollisionEvent::Started(ball(), table()),
        CollisionEvent::Started(table(), ball()),
    ];
    assert_eq!(run(events.clone(), true, 0), (true, 3));
    assert_eq!(run(events, false, 0), (false, 3));
}

#[test]
fn paddle_contact_between_bounces_counts_anew_only_for_a_waiting_ball() {
    let events = vec![
        CollisionEvent::Started(ball(), table()),
        CollisionEvent::Started(ball(), racket()),
        CollisionEvent::Started(ball(), table()),
    ];
    assert_eq!(run(events.clone(), false, 0), (true, 1));
    assert_eq!(run(events, true, 0), (true, 2));
}

#[test]
fn end_of_contact_and_other_bodies_change_nothing() {
    let events = vec![
        CollisionEvent::Stopped(ball(), racket()),
        CollisionEvent::Stopped(ball(), table()),
        CollisionEvent::Started(ball(), net()),
        CollisionEvent::Started(racket(), table()),
        CollisionEvent::Started(ball(), ball()),
        CollisionEvent::Started(table(), table()),
    ];
    assert_eq!(run(events.clone(), false, 1), (false, 1));
    assert_eq!(run(events, true, 1), (true, 1));
    assert_eq!(run(vec![], true, 4), (true, 4));
}

#[test]
fn one_event_at_a_time() {
    let mut launch = LaunchState { launched: false };
    let mut counter = BallTableCollisionCount { count: 7 };
    on_collision(&CollisionEvent::Started(ball(), racket()), &mut launch, &mut counter);
    assert_eq!((launch.launched, counter.count), (true, 0));
    on_collision(&CollisionEvent::Started(table(), ball()), &mut launch, &mut counter);
    assert_eq!((launch.launched, counter.count), (true, 1));
    on_collision(&CollisionEvent::Stopped(table(), ball()), &mut launch, &mut counter);
    assert_eq!((launch.launched, counter.count), (true, 1));
}

#[test]
fn room_for_bounces_is_what_the_bounces_need() {
    let bounce = CollisionEvent::Started(ball(), table());
    let launch = CollisionEvent::Started(ball(), racket());
    let other = CollisionEvent::Stopped(ball(), table());
    let idle = LaunchState { launched: false };
    let flying = LaunchState { launched: true };
    let full = BallTableCollisionCount { count: u32::MAX };
    assert!(collisions_have_room(&vec![], &flying, &full));
    assert!(collisions_have_room(&vec![other, launch, other], &flying, &full));
    assert!(!collisions_have_room(&vec![bounce], &flying, &full));
    assert!(!collisions_have_room(&vec![other, bounce], &idle, &full));
    assert!(collisions_have_room(&vec![launch, bounce], &idle, &full));
    assert!(!collisions_have_room(&vec![launch, bounce], &flying, &full));
    let both = Body { is_table: true, ..racket() };
    assert!(collisions_have_room(&vec![CollisionEvent::Started(ball(), both)], &idle, &full));
    assert!(!collisions_have_room(&vec![CollisionEvent::Started(ball(), both)], &flying, &full));
    let nearly = BallTableCollisionCount { count: u32::MAX - 2 };
    assert!(collisions_have_room(&vec![bounce, other, bounce], &flying, &nearly));
    assert!(!collisions_have_room(&vec![bounce, bounce, bounce], &flying, &nearly));
    let mut launch_state = flying;
    let mut counter = nearly;
    collision_event_system(&vec![bounce, bounce], &mut launch_state, &mut counter);
    assert_eq!(counter.count, u32::MAX);
}

#[test]
fn force_between_ball_and_paddle_sets_the_serve() {
    let event = ContactForceEvent {
        collider1: ball(),
        collider2: racket(),
        total_force: vec3(0.0, 3.0, 4.0),
    };
    let serve = on_contact_force(&event).unwrap();
    assert_eq!(serve, Serve { ball: ball().entity, force: vec3(0.0, 3.0, 4.0), speed: scalar(3.0) });
    let velocity = velocity_of(&serve);
    assert!(velocity.abs_diff_eq(bevy::math::Vec3::new(0.0, 1.8, 2.4), 1.0e-6), "{velocity}");
}

#[test]
fn serve_is_for_the_body_that_is_the_ball() {
    let force = vec3(1.0, 0.0, 0.0);
    let event = ContactForceEvent { collider1: racket(), collider2: ball(), total_force: force };
    assert_eq!(on_contact_force(&event).unwrap().ball, ball().entity);
    let event = ContactForceEvent { collider1: ball(), collider2: racket(), total_force: force };
    assert_eq!(on_contact_force(&event).unwrap().ball, ball().entity);
    let both = Body { entity: Entity::from_raw(9), is_ball: true, is_racket: true, is_table: false };
    let event = ContactForceEvent { collider1: both, collider2: racket(), total_force: force };
    assert_eq!(on_contact_force(&event).unwrap().ball, both.entity);
    let event = ContactForceEvent { collider1: both, collider2: ball(), total_force: force };
    assert_eq!(on_contact_force(&event).unwrap().ball, ball().entity);
}

#[test]
fn force_between_other_bodies_serves_nothing() {
    let force = vec3(1.0, 2.0, 3.0);
    for (a, b) in [(ball(), table()), (table(), ball()), (racket(), table()), (ball(), ball()), (racket(), racket()), (net(), ball())] {
        let event = ContactForceEvent { collider1: a, collider2: b, total_force: force };
        assert_eq!(on_contact_force(&event), None);
    }
}

#[test]
fn force_without_direction_leaves_the_ball_at_rest() {
    let event = ContactForceEvent { collider1: ball(), collider2: racket(), total_force: vec3(0.0, 0.0, 0.0) };
    let serve = on_contact_force(&event).unwrap();
    assert_eq!(velocity_of(&serve), bevy::math::Vec3::ZERO);
}

#[test]
fn serves_come_in_the_order_of_the_events() {
    let events = vec![
        ContactForceEvent { collider1: ball(), collider2: racket(), total_force: vec3(1.0, 0.0, 0.0) },
        ContactForceEvent { collider1: ball(), collider2: table(), total_force: vec3(5.0, 5.0, 5.0) },
        ContactForceEvent { collider1: racket(), collider2: ball(), total_force: vec3(0.0, 2.0, 0.0) },
        ContactForceEvent { collider1: ball(), collider2: racket(), total_force: vec3(1.0, 0.0, 0.0) },
    ];
    let serves = contact_force_system(&events);
    let serve = |x: f32, y: f32| Serve { ball: ball().entity, force: vec3(x, y, 0.0), speed: scalar(3.0) };
    assert_eq!(serves, vec![serve(1.0, 0.0), serve(0.0, 2.0), serve(1.0, 0.0)]);
    assert_eq!(velocity_of(&serves[0]), velocity_of(&serves[2]));
    assert_eq!(contact_force_system(&vec![]), vec![]);
}
