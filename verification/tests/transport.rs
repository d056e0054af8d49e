use pong_core::command::{CommandDataType, RacketCommandQueue, RacketTransformCommand};
use pong_core::math::{Quat, Scalar};
use pong_core::transport::{
    after_echo, load_certs, load_key, material_path, receive, select_key, settle_echo,
    ConnectionStage, EchoOutcome, Incoming, MaterialError, PrivateKey, Reaction, CONTROL_PORT,
    PAGES_PORT,
};

fn scalar(value: f32) -> Scalar {
    Scalar::from_bits(value.to_bits())
}

fn read_number(field: &[u8]) -> Option<Scalar> {
    let text = std::str::from_utf8(field).ok()?;
    let value: f32 = text.parse().ok()?;
    Some(scalar(value))
}

fn section(label: &str, body: &str) -> String {
    format!("-----BEGIN {label}-----\n{body}\n-----END {label}-----\n")
}

const PKCS8: &str = "PRIVATE KEY";
const RSA: &str = "RSA PRIVATE KEY";
const EC: &str = "EC PRIVATE KEY";
const CERT: &str = "CERTIFICATE";

#[test]
fn pkcs8_key_is_found() {
    let pem = section(PKCS8, "AQID");
    assert_eq!(load_key(pem.as_bytes()), Ok(PrivateKey::Pkcs8(vec![1, 2, 3])));
}

#[test]
fn rsa_key_is_found_where_no_pkcs8_key_is() {
    let pem = section(RSA, "BAUGBw==");
    assert_eq!(load_key(pem.as_bytes()), Ok(PrivateKey::Rsa(vec![4, 5, 6, 7])));
    let pem = section(CERT, "AQID") + &section(RSA, "BAUGBw==") + &section(RSA, "AQID");
    assert_eq!(load_key(pem.as_bytes()), Ok(PrivateKey::Rsa(vec![4, 5, 6, 7])));
}

#[test]
fn pkcs8_key_comes_before_an_rsa_key() {
    let pem = section(RSA, "BAUGBw==") + &section(PKCS8, "AQID") + &section(PKCS8, "BAUGBw==");
    assert_eq!(load_key(pem.as_bytes()), Ok(PrivateKey::Pkcs8(vec![1, 2, 3])));
}

#[test]
fn file_without_a_key_is_refused() {
    assert_eq!(load_key(b""), Err(MaterialError::NoPrivateKey));
    assert_eq!(load_key(b"no sections here\n"), Err(MaterialError::NoPrivateKey));
    let pem = section(CERT, "AQID") + &section(EC, "AQID");
    assert_eq!(load_key(pem.as_bytes()), Err(MaterialError::NoPrivateKey));
}

#[test]
fn broken_key_file_is_refused() {
    let pem = format!("-----BEGIN {PKCS8}-----\nAQID\n");
    assert_eq!(load_key(pem.as_bytes()), Err(MaterialError::Pkcs8Unreadable));
    let pem = section(RSA, "!!!!");
    assert_eq!(load_key(pem.as_bytes()), Err(MaterialError::Pkcs8Unreadable));
    let pem = section(PKCS8, "AQID") + &format!("-----BEGIN {RSA}-----\nAQID\n");
    assert_eq!(load_key(pem.as_bytes()), Err(MaterialError::Pkcs8Unreadable));
}

#[test]
fn key_is_picked_from_what_was_read() {
    let keys = |all: &[&[u8]]| Some(all.iter().map(|k| k.to_vec()).collect::<Vec<_>>());
    assert_eq!(select_key(keys(&[b"a", b"b"]), keys(&[b"c"])), Ok(PrivateKey::Pkcs8(b"a".to_vec())));
    assert_eq!(select_key(keys(&[b"a"]), None), Ok(PrivateKey::Pkcs8(b"a".to_vec())));
    assert_eq!(select_key(keys(&[]), keys(&[b"c", b"d"])), Ok(PrivateKey::Rsa(b"c".to_vec())));
    assert_eq!(select_key(keys(&[]), keys(&[])), Err(MaterialError::NoPrivateKey));
    assert_eq!(select_key(keys(&[]), None), Err(MaterialError::RsaUnreadable));
    assert_eq!(select_key(None, keys(&[b"c"])), Err(MaterialError::Pkcs8Unreadable));
    assert_eq!(select_key(None, None), Err(MaterialError::Pkcs8Unreadable));
}

#[test]
fn certificates_come_in_the_order_of_the_file() {
    let pem = section(CERT, "AQID") + &section(PKCS8, "AQID") + &section(CERT, "BAUGBw==");
    assert_eq!(load_certs(pem.as_bytes()), Ok(vec![vec![1, 2, 3], vec![4, 5, 6, 7]]));
    assert_eq!(load_certs(b""), Ok(vec![]));
    assert_eq!(load_certs(section(PKCS8, "AQID").as_bytes()), Ok(vec![]));
}

#[test]
fn broken_certificate_file_is_refused() {
    let pem = section(CERT, "AQID") + &format!("-----BEGIN {CERT}-----\nAQID\n");
    assert_eq!(load_certs(pem.as_bytes()), Err(MaterialError::CertificatesUnreadable));
    let pem = section(CERT, "****");
    assert_eq!(load_certs(pem.as_bytes()), Err(MaterialError::CertificatesUnreadable));
}

#[test]
fn material_lies_where_the_environment_says() {
    assert_eq!(material_path(Some("/etc/tls/a.crt".to_string()), "server.crt"), "/etc/tls/a.crt");
    assert_eq!(material_path(None, "server.crt"), "server.crt");
    assert_eq!(material_path(None, "server.key"), "server.key");
    assert_eq!(material_path(Some(String::new()), "server.key"), "");
}

#[test]
fn ports_are_fixed() {
    assert_eq!(CONTROL_PORT, 8080);
    assert_eq!(PAGES_PORT, 3000);
}

#[test]
fn connection_opens_after_both_handshakes() {
    let stage = ConnectionStage::Accepted;
    let stage = stage.handshake_done(true);
    assert_eq!(stage, ConnectionStage::Secured);
    let stage = stage.handshake_done(true);
    assert_eq!(stage, ConnectionStage::Open);
    assert_eq!(stage.handshake_done(true), ConnectionStage::Open);
    assert_eq!(stage.handshake_done(false), ConnectionStage::Open);
}

#[test]
fn failed_handshake_ends_the_connection() {
    assert_eq!(ConnectionStage::Accepted.handshake_done(false), ConnectionStage::Closed);
    assert_eq!(ConnectionStage::Secured.handshake_done(false), ConnectionStage::Closed);
    assert_eq!(ConnectionStage::Closed.handshake_done(true), ConnectionStage::Closed);
    assert_eq!(ConnectionStage::Closed.handshake_done(false), ConnectionStage::Closed);
}

#[test]
fn text_is_echoed_in_upper_case() {
    assert_eq!(
        receive(&Incoming::Text("rotation:0.1,0.2,0.3,0.4".to_string())),
        Reaction::Echo("ROTATION:0.1,0.2,0.3,0.4".to_string())
    );
    assert_eq!(receive(&Incoming::Text("hello".to_string())), Reaction::Echo("HELLO".to_string()));
    assert_eq!(receive(&Incoming::Text(String::new())), Reaction::Echo(String::new()));
    assert_eq!(
        receive(&Incoming::Text("stra\u{df}e".to_string())),
        Reaction::Echo("STRASSE".to_string())
    );
}

#[test]
fn close_and_failure_end_the_connection() {
    assert_eq!(receive(&Incoming::Close), Reaction::Disconnect);
    assert_eq!(receive(&Incoming::Failed), Reaction::Disconnect);
    assert_eq!(receive(&Incoming::Ended), Reaction::Disconnect);
}

#[test]
fn other_frames_are_passed_over() {
    assert_eq!(receive(&Incoming::Other), Reaction::KeepReading);
}

#[test]
fn command_joins_the_queue_after_the_echo() {
    let mut queue = RacketCommandQueue::new();
    assert!(after_echo(true, "rotation:0.1,0.2,0.3,0.4", &mut queue, read_number));
    assert!(after_echo(true, "rotation:1,2,3,4", &mut queue, read_number));
    let q = |x: f32, y: f32, z: f32, w: f32| RacketTransformCommand {
        command: CommandDataType::Rotation(Quat::from_xyzw(scalar(x), scalar(y), scalar(z), scalar(w))),
    };
    assert_eq!(queue.drain(), vec![q(0.1, 0.2, 0.3, 0.4), q(1.0, 2.0, 3.0, 4.0)]);
}

#[test]
fn frame_that_is_no_command_is_dropped_and_the_connection_stays() {
    let mut queue = RacketCommandQueue::new();
    assert!(after_echo(true, "hello", &mut queue, read_number));
    assert!(after_echo(true, "rotation:1,2,3", &mut queue, read_number));
    assert!(after_echo(true, "", &mut queue, read_number));
    assert!(queue.is_empty());
}

#[test]
fn failed_echo_ends_the_connection_before_the_command() {
    let mut queue = RacketCommandQueue::new();
    assert!(!after_echo(false, "rotation:0.1,0.2,0.3,0.4", &mut queue, read_number));
    assert!(queue.is_empty());
}

#[test]
fn echo_that_went_out_gives_the_command_to_push() {
    let q = RacketTransformCommand {
        command: CommandDataType::Rotation(Quat::from_xyzw(
            scalar(0.1),
            scalar(0.2),
            scalar(0.3),
            scalar(0.4),
        )),
    };
    assert_eq!(
        settle_echo(true, "rotation:0.1,0.2,0.3,0.4", read_number),
        EchoOutcome { read_on: true, command: Some(q) }
    );
    assert_eq!(
        settle_echo(true, "rotation:0.1,0.2,0.3", read_number),
        EchoOutcome { read_on: true, command: None }
    );
    assert_eq!(settle_echo(true, "hello", read_number), EchoOutcome { read_on: true, command: None });
}

#[test]
fn echo_that_failed_gives_no_command() {
    assert_eq!(
        settle_echo(false, "rotation:0.1,0.2,0.3,0.4", read_number),
        EchoOutcome { read_on: false, command: None }
    );
    assert_eq!(settle_echo(false, "", read_number), EchoOutcome { read_on: false, command: None });
}

#[test]
fn frames_of_a_connection_join_the_queue_in_their_order() {
    let q = |x: f32| RacketTransformCommand {
        command: CommandDataType::Rotation(Quat::from_xyzw(scalar(x), scalar(0.0), scalar(0.0), scalar(1.0))),
    };
    let mut queue = RacketCommandQueue::new();
    queue.push(q(-1.0));
    queue.push(q(-2.0));
    let frames = ["rotation:1,0,0,1", "ping", "rotation:2,0,0,1", "rotation:x,0,0,1", "", "rotation:3,0,0,1"];
    for frame in frames {
        assert!(after_echo(true, frame, &mut queue, read_number));
    }
    assert_eq!(queue.drain(), vec![q(-1.0), q(-2.0), q(1.0), q(2.0), q(3.0)]);
    let mut other = RacketCommandQueue::new();
    for frame in frames {
        let outcome = settle_echo(true, frame, read_number);
        assert!(outcome.read_on);
        if let Some(command) = outcome.command {
            other.push(command);
        }
    }
    assert_eq!(other.drain(), vec![q(1.0), q(2.0), q(3.0)]);
}
