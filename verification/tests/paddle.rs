use pong_core::command::{CommandDataType, RacketCommandQueue, RacketTransformCommand};
use pong_core::math::{Quat, Scalar, Vec3};
use pong_core::paddle::{
    apply_racket_commands, handle_position_command, handle_rotation_command, PaddleBias,
    PaddlePlan, ARC_DIVISOR_BITS,
};
use pong_core::session::LaunchState;

fn scalar(value: f32) -> Scalar {
    Scalar::from_bits(value.to_bits())
}

fn float(value: Scalar) -> f32 {
    f32::from_bits(value.to_bits())
}

fn vec3(x: f32, y: f32, z: f32) -> Vec3 {
    Vec3::new(scalar(x), scalar(y), scalar(z))
}

fn rotation(angle: f32, w: f32) -> CommandDataType {
    CommandDataType::Rotation(Quat::from_xyzw(scalar(angle), scalar(0.25), scalar(0.5), scalar(w)))
}

fn position(x: f32) -> CommandDataType {
    CommandDataType::Position(vec3(x, 0.0, 0.0))
}

fn place(plan: &PaddlePlan) -> (f32, f32, f32) {
    let angle = float(plan.angle);
    let mut x = -angle.abs().cos() / f32::from_bits(ARC_DIVISOR_BITS) + float(plan.anchor.x);
    let mut y = 0.0 + float(plan.anchor.y);
    let mut z = 0.0 + float(plan.anchor.z);
    match plan.bias {
        PaddleBias::Stance(v) => {
            x += float(v.x);
            y += float(v.y);
            z += float(v.z);
        }
        PaddleBias::Ball { at, near_side } => {
            z += float(at.z);
            if near_side {
                x += float(at.x);
                y += float(at.y);
            }
        }
    }
    (x, y, z)
}

fn place_as_written(angle: f32, ball: (f32, f32, f32), launched: bool) -> (f32, f32, f32) {
    let (mut x, mut y, mut z) = (-angle.abs().cos() / 4. + 0.1, -0.03, 0.);
    if angle < 0. {
        z += 0.05;
    } else {
        z -= 0.05;
    }
    if !launched {
        z += ball.2;
        if ball.0 > 0. {
            x += ball.0;
            y += ball.1;
        }
    } else {
        x += 0.9;
        y += 1.0;
        z += 0.;
    }
    (x, y, z)
}

#[test]
fn rotation_at_angle_zero_gives_the_same_place_every_time() {
    let idle = LaunchState { launched: false };
    let ball = vec3(0.95, 1.05, 0.0);
    let first = handle_rotation_command(rotation(0.0, 0.0), ball, &idle).unwrap();
    let second = handle_rotation_command(rotation(0.0, 0.0), ball, &idle).unwrap();
    assert_eq!(first, second);
    assert_eq!(
        first,
        PaddlePlan {
            angle: scalar(0.0),
            tilt: scalar(0.0),
            anchor: vec3(0.1, -0.03, -0.05),
            bias: PaddleBias::Ball { at: ball, near_side: true },
        }
    );
    assert_eq!(place(&first), place(&second));
    assert_eq!(place(&first), (-0.25 + 0.1 + 0.95, -0.03 + 1.05, -0.05));
    let flying = LaunchState { launched: true };
    let plan = handle_rotation_command(rotation(0.0, 0.0), ball, &flying).unwrap();
    assert_eq!(
        plan,
        PaddlePlan {
            angle: scalar(0.0),
            tilt: scalar(0.0),
            anchor: vec3(0.1, -0.03, -0.05),
            bias: PaddleBias::Stance(vec3(0.9, 1.0, 0.0)),
        }
    );
    assert_eq!(place(&plan), (-0.25 + 0.1 + 0.9, -0.03 + 1.0, -0.05));
}

#[test]
fn plan_gives_the_place_that_the_arithmetic_gives() {
    let angles = [-3.0f32, -1.0, -0.5, -0.0, 0.0, 0.3, 1.0, 2.5, f32::NAN];
    let balls = [(0.95f32, 1.05f32, 0.0f32), (-0.2, 1.1, 0.3), (0.0, 1.0, -0.4), (-0.0, 0.5, 0.1)];
    for angle in angles {
        for ball in balls {
            for launched in [false, true] {
                let plan = handle_rotation_command(
                    rotation(angle, 0.75),
                    vec3(ball.0, ball.1, ball.2),
                    &LaunchState { launched },
                )
                .unwrap();
                let got = place(&plan);
                let want = place_as_written(angle, ball, launched);
                assert_eq!(got.0.to_bits(), want.0.to_bits(), "{angle} {ball:?} {launched}");
                assert_eq!(got.1.to_bits(), want.1.to_bits(), "{angle} {ball:?} {launched}");
                assert_eq!(got.2.to_bits(), want.2.to_bits(), "{angle} {ball:?} {launched}");
                assert_eq!(plan.angle.to_bits(), angle.to_bits());
                assert_eq!(plan.tilt, scalar(0.75));
            }
        }
    }
}

#[test]
fn offset_changes_side_at_angle_zero() {
    let idle = LaunchState { launched: false };
    let ball = vec3(0.0, 0.0, 0.0);
    let below = handle_rotation_command(rotation(-0.001, 0.0), ball, &idle).unwrap();
    assert_eq!(below.anchor, vec3(0.1, -0.03, 0.05));
    for angle in [0.0f32, -0.0, 0.001, f32::NAN] {
        let plan = handle_rotation_command(rotation(angle, 0.0), ball, &idle).unwrap();
        assert_eq!(plan.anchor, vec3(0.1, -0.03, -0.05), "{angle}");
    }
}

#[test]
fn waiting_ball_draws_the_paddle_only_from_the_players_side() {
    let idle = LaunchState { launched: false };
    let near = handle_rotation_command(rotation(0.5, 0.0), vec3(0.2, 1.0, 0.3), &idle).unwrap();
    assert_eq!(near.bias, PaddleBias::Ball { at: vec3(0.2, 1.0, 0.3), near_side: true });
    for x in [0.0f32, -0.0, -0.2, f32::NAN] {
        let far = handle_rotation_command(rotation(0.5, 0.0), vec3(x, 1.0, 0.3), &idle).unwrap();
        assert_eq!(far.bias, PaddleBias::Ball { at: vec3(x, 1.0, 0.3), near_side: false });
    }
}

#[test]
fn position_command_makes_no_plan() {
    let idle = LaunchState { launched: false };
    let ball = vec3(0.95, 1.05, 0.0);
    assert_eq!(handle_position_command(position(1.0), ball, &idle), None);
    assert_eq!(handle_position_command(rotation(1.0, 0.0), ball, &idle), None);
    assert_eq!(handle_rotation_command(position(1.0), ball, &idle), None);
}

#[test]
fn commands_are_applied_in_the_order_of_arrival() {
    let mut queue = RacketCommandQueue::new();
    for data in [rotation(0.1, 0.0), position(5.0), rotation(-0.2, 1.0), rotation(0.3, 0.5)] {
        queue.push(RacketTransformCommand { command: data });
    }
    let ball = vec3(0.95, 1.05, 0.0);
    let idle = LaunchState { launched: false };
    let plans = apply_racket_commands(&mut queue, Some(ball), &idle);
    let angles: Vec<f32> = plans.iter().map(|p| float(p.angle)).collect();
    assert_eq!(angles, vec![0.1, -0.2, 0.3]);
    for (plan, data) in plans.iter().zip([rotation(0.1, 0.0), rotation(-0.2, 1.0), rotation(0.3, 0.5)]) {
        assert_eq!(Some(*plan), handle_rotation_command(data, ball, &idle));
    }
    assert!(queue.is_empty());
    assert_eq!(apply_racket_commands(&mut queue, Some(ball), &idle), vec![]);
}

#[test]
fn without_a_ball_the_commands_wait() {
    let mut queue = RacketCommandQueue::new();
    queue.push(RacketTransformCommand { command: rotation(0.1, 0.0) });
    queue.push(RacketTransformCommand { command: rotation(0.2, 0.0) });
    let idle = LaunchState { launched: false };
    assert_eq!(apply_racket_commands(&mut queue, None, &idle), vec![]);
    assert_eq!(queue.len(), 2);
    let plans = apply_racket_commands(&mut queue, Some(vec3(0.0, 1.0, 0.0)), &idle);
    assert_eq!(plans.len(), 2);
    assert!(queue.is_empty());
}

#[test]
fn position_commands_alone_leave_the_paddle_alone() {
    let mut queue = RacketCommandQueue::new();
    queue.push(RacketTransformCommand { command: position(0.1) });
    queue.push(RacketTransformCommand { command: position(0.2) });
    let flying = LaunchState { launched: true };
    assert_eq!(apply_racket_commands(&mut queue, Some(vec3(0.0, 1.0, 0.0)), &flying), vec![]);
    assert!(queue.is_empty());
}
