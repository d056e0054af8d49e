//! What the control server decides: which key it serves with, how far a
//! connection has come, and what each message of a controller leads to.
//!
//! Sockets, handshakes and files belong to the program around the library.
//! It reads the PEM files, runs the handshakes and reads the messages, and
//! asks the functions here what to do with what it got.

use vstd::prelude::*;
use vstd::string::StringSliceAdditionalSpecFns;
use crate::codec::{decoded, decodes_to, parse_transform_command, reads_as};
use crate::command::{RacketCommandQueue, RacketTransformCommand};
use crate::math::Scalar;

verus! {

/// Port on which controllers connect.
pub const CONTROL_PORT: u16 = 8080;

/// Port on which the controller's own pages are served.
pub const PAGES_PORT: u16 = 3000;

/// Name of the environment variable that says where the certificate file
/// lies.
pub const CERT_PATH_VARIABLE: &'static str = "SSL_CERT_PATH";

/// Name of the environment variable that says where the key file lies.
pub const KEY_PATH_VARIABLE: &'static str = "SSL_KEY_PATH";

/// Where the certificate file lies if the environment does not say.
pub const USUAL_CERT_PATH: &'static str = "server.crt";

/// Where the key file lies if the environment does not say.
pub const USUAL_KEY_PATH: &'static str = "server.key";

/// The directory from which the controller's own pages are served.
pub const PAGES_DIRECTORY: &'static str = "./dist";

/// The error with which reading a PEM section fails.
#[verifier::external_type_specification]
#[verifier::external_body]
pub struct ExIoError(std::io::Error);

/// The configuration with which the server answers TLS handshakes.
#[verifier::external_type_specification]
#[verifier::external_body]
pub struct ExServerConfig(rustls::ServerConfig);

/// The error with which `rustls` refuses a certificate chain or a key.
#[verifier::external_type_specification]
#[verifier::external_body]
pub struct ExTlsError(rustls::Error);

/// The certificates that `rustls_pemfile::certs` finds in a PEM text, each by
/// its DER bytes and in the order of the text; `None` where the text is
/// broken before its end.
pub uninterp spec fn pem_certificates(pem: Seq<u8>) -> Option<Seq<Seq<u8>>>;

/// The keys that `rustls_pemfile::pkcs8_private_keys` finds in a PEM text.
pub uninterp spec fn pem_pkcs8_keys(pem: Seq<u8>) -> Option<Seq<Seq<u8>>>;

/// The keys that `rustls_pemfile::rsa_private_keys` finds in a PEM text.
pub uninterp spec fn pem_rsa_keys(pem: Seq<u8>) -> Option<Seq<Seq<u8>>>;

/// What `str::to_uppercase` makes of a text.
pub uninterp spec fn uppercased(text: Seq<char>) -> Seq<char>;

/// Calls `rustls_pemfile::certs` on the text and collects what it yields.
/// The sections marked `CERTIFICATE` come back decoded, in their order, the
/// other sections are passed over; the first section that cannot be read
/// ends the call with its error. The outcome depends on the text alone.
#[verifier::external_body]
fn read_certificates(pem: &[u8]) -> (r: Result<Vec<Vec<u8>>, std::io::Error>)
    ensures
        r is Ok <==> pem_certificates(pem@) is Some,
        r is Ok ==> r.unwrap().deep_view() == pem_certificates(pem@).unwrap(),
{
    let mut reader = pem;
    rustls_pemfile::certs(&mut reader).map(|section| section.map(|der| der.to_vec())).collect()
}

/// Calls `rustls_pemfile::pkcs8_private_keys` on the text and collects what
/// it yields. The sections marked `PRIVATE KEY` come back decoded, in their
/// order, the other sections are passed over; the first section that cannot
/// be read ends the call with its error. The outcome depends on the text
/// alone.
#[verifier::external_body]
fn read_pkcs8_keys(pem: &[u8]) -> (r: Result<Vec<Vec<u8>>, std::io::Error>)
    ensures
        r is Ok <==> pem_pkcs8_keys(pem@) is Some,
        r is Ok ==> r.unwrap().deep_view() == pem_pkcs8_keys(pem@).unwrap(),
{
    let mut reader = pem;
    rustls_pemfile::pkcs8_private_keys(&mut reader).map(
        |section| section.map(|der| der.secret_pkcs8_der().to_vec()),
    ).collect()
}

/// Calls `rustls_pemfile::rsa_private_keys` on the text and collects what it
/// yields. The sections marked `RSA PRIVATE KEY` come back decoded, in their
/// order, the other sections are passed over; the first section that cannot
/// be read ends the call with its error. The outcome depends on the text
/// alone.
#[verifier::external_body]
fn read_rsa_keys(pem: &[u8]) -> (r: Result<Vec<Vec<u8>>, std::io::Error>)
    ensures
        r is Ok <==> pem_rsa_keys(pem@) is Some,
        r is Ok ==> r.unwrap().deep_view() == pem_rsa_keys(pem@).unwrap(),
{
    let mut reader = pem;
    rustls_pemfile::rsa_private_keys(&mut reader).map(
        |section| section.map(|der| der.secret_pkcs1_der().to_vec()),
    ).collect()
}

/// Builds the server's TLS configuration with `rustls`: the builder of
/// `ServerConfig` on the crypto provider of ring, with the default protocol
/// versions and without client authentication, ended by `with_single_cert`
/// on the chain and the key. Nothing is claimed of the outcome. `rustls`
/// refuses a key that it cannot read or that does not belong to the chain's
/// first certificate, and reading a key may draw on the machine's random
/// numbers.
#[verifier::external_body]
fn build_config(certs: Vec<Vec<u8>>, key: PrivateKey) -> (r: Result<
    rustls::ServerConfig,
    rustls::Error,
>) {
    let chain = certs.into_iter().map(rustls::pki_types::CertificateDer::from).collect();
    let key = match key {
        PrivateKey::Pkcs8(der) => rustls::pki_types::PrivateKeyDer::Pkcs8(der.into()),
        PrivateKey::Rsa(der) => rustls::pki_types::PrivateKeyDer::Pkcs1(der.into()),
    };
    let provider = std::sync::Arc::new(rustls::crypto::ring::default_provider());
    rustls::ServerConfig::builder_with_provider(provider)
        .with_safe_default_protocol_versions()?
        .with_no_client_auth()
        .with_single_cert(chain, key)
}

/// Calls `str::to_uppercase`.
#[verifier::external_body]
fn uppercase(text: &str) -> (r: String)
    ensures
        r@ == uppercased(text@),
{
    text.to_uppercase()
}

/// A private key by its encoding, in DER bytes.
#[derive(Clone, Debug, PartialEq, Eq)]
pub enum PrivateKey {
    Pkcs8(Vec<u8>),
    Rsa(Vec<u8>),
}

/// A private key by its encoding.
pub enum PrivateKeyBytes {
    Pkcs8(Seq<u8>),
    Rsa(Seq<u8>),
}

impl View for PrivateKey {
    type V = PrivateKeyBytes;

    open spec fn view(&self) -> PrivateKeyBytes {
        match self {
            PrivateKey::Pkcs8(der) => PrivateKeyBytes::Pkcs8(der@),
            PrivateKey::Rsa(der) => PrivateKeyBytes::Rsa(der@),
        }
    }
}

/// Why the server has no certificate or no key. Each of these keeps the
/// server from starting.
#[derive(Clone, Copy, Debug, PartialEq, Eq, Structural)]
pub enum MaterialError {
    /// The certificate file holds a section that cannot be read.
    CertificatesUnreadable,
    /// The key file holds a section that cannot be read as PKCS#8 is looked
    /// for.
    Pkcs8Unreadable,
    /// The key file holds no PKCS#8 key, and a section that cannot be read as
    /// an RSA key is looked for.
    RsaUnreadable,
    /// The key file holds neither a PKCS#8 key nor an RSA key.
    NoPrivateKey,
    /// Certificates and key were read, and no configuration can be built
    /// from them.
    Rejected,
}

/// The key to serve with: the first PKCS#8 key, and where there is none the
/// first RSA key. The RSA keys are looked at only where no PKCS#8 key was
/// found.
pub open spec fn selected_key(
    pkcs8: Option<Seq<Seq<u8>>>,
    rsa: Option<Seq<Seq<u8>>>,
) -> Result<PrivateKeyBytes, MaterialError> {
    match pkcs8 {
        None => Err(MaterialError::Pkcs8Unreadable),
        Some(keys) => if keys.len() > 0 {
            Ok(PrivateKeyBytes::Pkcs8(keys[0]))
        } else {
            match rsa {
                None => Err(MaterialError::RsaUnreadable),
                Some(keys) => if keys.len() > 0 {
                    Ok(PrivateKeyBytes::Rsa(keys[0]))
                } else {
                    Err(MaterialError::NoPrivateKey)
                },
            }
        },
    }
}

/// The view of what [`select_key`] and [`load_key`] return.
pub open spec fn key_view(r: Result<PrivateKey, MaterialError>) -> Result<
    PrivateKeyBytes,
    MaterialError,
> {
    match r {
        Ok(key) => Ok(key@),
        Err(e) => Err(e),
    }
}

/// Picks the key to serve with from what the two readings of the key file
/// gave, `None` standing for a reading that failed: see [`selected_key`].
pub fn select_key(pkcs8: Option<Vec<Vec<u8>>>, rsa: Option<Vec<Vec<u8>>>) -> (r: Result<
    PrivateKey,
    MaterialError,
>)
    ensures
        key_view(r) == selected_key(
            match pkcs8 {
                Some(keys) => Some(keys.deep_view()),
                None => None,
            },
            match rsa {
                Some(keys) => Some(keys.deep_view()),
                None => None,
            },
        ),
{
    match pkcs8 {
        None => Err(MaterialError::Pkcs8Unreadable),
        Some(mut keys) => {
            if keys.len() > 0 {
                let ghost all = keys.deep_view();
                assert(all[0] == keys@[0]@);
                let first = keys.remove(0);
                Ok(PrivateKey::Pkcs8(first))
            } else {
                match rsa {
                    None => Err(MaterialError::RsaUnreadable),
                    Some(mut keys) => {
                        if keys.len() > 0 {
                            let ghost all = keys.deep_view();
                            assert(all[0] == keys@[0]@);
                            let first = keys.remove(0);
                            Ok(PrivateKey::Rsa(first))
                        } else {
                            Err(MaterialError::NoPrivateKey)
                        }
                    },
                }
            }
        },
    }
}

/// The private key of a PEM text: its first PKCS#8 key, and where it holds
/// none its first RSA key.
pub fn load_key(pem: &[u8]) -> (r: Result<PrivateKey, MaterialError>)
    ensures
        key_view(r) == selected_key(pem_pkcs8_keys(pem@), pem_rsa_keys(pem@)),
{
    let pkcs8 = match read_pkcs8_keys(pem) {
        Ok(keys) => Some(keys),
        Err(_) => None,
    };
    let rsa = match read_rsa_keys(pem) {
        Ok(keys) => Some(keys),
        Err(_) => None,
    };
    select_key(pkcs8, rsa)
}

/// The certificates of a PEM text, each by its DER bytes and in the order of
/// the text.
pub fn load_certs(pem: &[u8]) -> (r: Result<Vec<Vec<u8>>, MaterialError>)
    ensures
        r is Ok <==> pem_certificates(pem@) is Some,
        r is Ok ==> r.unwrap().deep_view() == pem_certificates(pem@).unwrap(),
        r is Err ==> r == Err::<Vec<Vec<u8>>, MaterialError>(MaterialError::CertificatesUnreadable),
{
    match read_certificates(pem) {
        Ok(certs) => Ok(certs),
        Err(_) => Err(MaterialError::CertificatesUnreadable),
    }
}

/// What is wrong with the two files, if they do not hold certificates and a
/// key: the certificates are looked at first, then the key.
pub open spec fn material_error(cert_pem: Seq<u8>, key_pem: Seq<u8>) -> Option<MaterialError> {
    match pem_certificates(cert_pem) {
        None => Some(MaterialError::CertificatesUnreadable),
        Some(_) => match selected_key(pem_pkcs8_keys(key_pem), pem_rsa_keys(key_pem)) {
            Err(e) => Some(e),
            Ok(_) => None,
        },
    }
}

/// What the server starts with, given what building a configuration came to:
/// the configuration built, or [`MaterialError::Rejected`].
pub fn config_from(built: Result<rustls::ServerConfig, rustls::Error>) -> (r: Result<
    rustls::ServerConfig,
    MaterialError,
>)
    ensures
        built is Ok ==> r is Ok && r.unwrap() == built.unwrap(),
        built is Err ==> r is Err && r.unwrap_err() == MaterialError::Rejected,
{
    match built {
        Ok(config) => Ok(config),
        Err(_) => Err(MaterialError::Rejected),
    }
}

/// The server's TLS configuration, from the text of its certificate file and
/// the text of its key file.
///
/// Where the files do not hold certificates and a key, the error says what
/// is wrong with them, and no configuration is attempted. Where they do, the
/// configuration is built from all the certificates and the key selected,
/// and the only error left is [`MaterialError::Rejected`].
pub fn server_config(cert_pem: &[u8], key_pem: &[u8]) -> (r: Result<
    rustls::ServerConfig,
    MaterialError,
>)
    ensures
        material_error(cert_pem@, key_pem@) is Some ==> r is Err && r.unwrap_err()
            == material_error(cert_pem@, key_pem@).unwrap(),
        material_error(cert_pem@, key_pem@) is None ==> r is Ok || r.unwrap_err()
            == MaterialError::Rejected,
{
    let certs = match load_certs(cert_pem) {
        Ok(certs) => certs,
        Err(e) => {
            return Err(e);
        },
    };
    let key = match load_key(key_pem) {
        Ok(key) => key,
        Err(e) => {
            return Err(e);
        },
    };
    config_from(build_config(certs, key))
}

/// Where a file of the server's TLS material lies: where the environment
/// says, and under its usual name where the environment says nothing.
pub fn material_path(configured: Option<String>, usual: &str) -> (path: String)
    ensures
        path@ == match configured {
            Some(given) => given@,
            None => usual@,
        },
{
    match configured {
        Some(given) => given,
        None => usual.to_owned(),
    }
}

/// How far a connection has come.
#[derive(Clone, Copy, Debug, PartialEq, Eq, Structural)]
pub enum ConnectionStage {
    /// The TCP connection stands; the TLS handshake is due.
    Accepted,
    /// TLS stands; the WebSocket upgrade is due.
    Secured,
    /// The controller's messages are read.
    Open,
    /// The connection is over. Other connections and the listener go on.
    Closed,
}

impl ConnectionStage {
    /// The stage after a handshake that went well or not. An open connection
    /// has no handshake left and stays open; a closed one stays closed.
    pub open spec fn after_handshake(self, succeeded: bool) -> ConnectionStage {
        match self {
            ConnectionStage::Accepted => if succeeded {
                ConnectionStage::Secured
            } else {
                ConnectionStage::Closed
            },
            ConnectionStage::Secured => if succeeded {
                ConnectionStage::Open
            } else {
                ConnectionStage::Closed
            },
            ConnectionStage::Open => ConnectionStage::Open,
            ConnectionStage::Closed => ConnectionStage::Closed,
        }
    }

    pub fn handshake_done(self, succeeded: bool) -> (next: ConnectionStage)
        ensures
            next == self.after_handshake(succeeded),
    {
        match self {
            ConnectionStage::Accepted => if succeeded {
                ConnectionStage::Secured
            } else {
                ConnectionStage::Closed
            },
            ConnectionStage::Secured => if succeeded {
                ConnectionStage::Open
            } else {
                ConnectionStage::Closed
            },
            ConnectionStage::Open => ConnectionStage::Open,
            ConnectionStage::Closed => ConnectionStage::Closed,
        }
    }
}

/// What reading the next message of an open connection gave.
#[derive(Clone, Debug, PartialEq, Eq)]
pub enum Incoming {
    /// A text frame.
    Text(String),
    /// The controller closes the connection.
    Close,
    /// A frame that is neither: binary data, a ping, a pong.
    Other,
    /// Reading failed.
    Failed,
    /// The stream has ended.
    Ended,
}

/// What the server does about a message.
#[derive(Clone, Debug, PartialEq, Eq)]
pub enum Reaction {
    /// Send this text back, then report to [`after_echo`] whether it went
    /// out.
    Echo(String),
    /// Read the next message.
    KeepReading,
    /// End this connection.
    Disconnect,
}

/// What the server does about `incoming`. A text frame is answered with its
/// own text in upper case. A close frame, a failed read and the end of the
/// stream end the connection. Any other frame is passed over.
pub fn receive(incoming: &Incoming) -> (r: Reaction)
    ensures
        match *incoming {
            Incoming::Text(text) => r matches Reaction::Echo(reply) && reply@ == uppercased(text@),
            Incoming::Other => r is KeepReading,
            _ => r is Disconnect,
        },
{
    match incoming {
        Incoming::Text(text) => Reaction::Echo(uppercase(text.as_str())),
        Incoming::Close => Reaction::Disconnect,
        Incoming::Other => Reaction::KeepReading,
        Incoming::Failed => Reaction::Disconnect,
        Incoming::Ended => Reaction::Disconnect,
    }
}

/// The queue once `command` was pushed, if there is one.
pub open spec fn with_command(
    queue: Seq<RacketTransformCommand>,
    command: Option<RacketTransformCommand>,
) -> Seq<RacketTransformCommand> {
    match command {
        Some(c) => queue.push(c),
        None => queue,
    }
}

/// What the echo of a text frame leads to.
#[derive(Clone, Copy, Debug, PartialEq, Eq, Structural)]
pub struct EchoOutcome {
    /// Whether to read the next message. If not, the connection ends.
    pub read_on: bool,
    /// The command to push onto the queue, if the frame is one.
    pub command: Option<RacketTransformCommand>,
}

/// The second half of a text frame's handling, after the echo, up to the
/// queue. Where the echo did not go out the connection ends and the frame
/// is dropped undecoded. Where it did, the frame is decoded: its command, if
/// it is one, is to join the queue; a frame that is no command is dropped
/// and the connection stays open all the same.
///
/// The queue is not touched here. Its owner takes the lock for the push of
/// the command alone.
pub fn settle_echo<F: Fn(&[u8]) -> Option<Scalar>>(echoed: bool, text: &str, read_number: F) -> (r:
    EchoOutcome)
    requires
        forall|field: &[u8]| #[trigger] read_number.requires((field,)),
    ensures
        r.read_on == echoed,
        !echoed ==> r.command is None,
        echoed ==> decodes_to(text.spec_bytes(), read_number, r.command),
        forall|number: spec_fn(Seq<u8>) -> Option<Scalar>| #[trigger]
            reads_as(read_number, number) && echoed ==> r.command == decoded(
                text.spec_bytes(),
                number,
            ),
{
    if !echoed {
        return EchoOutcome { read_on: false, command: None };
    }
    EchoOutcome { read_on: true, command: parse_transform_command(text, read_number) }
}

/// The second half of a text frame's handling, after the echo, with the
/// queue at hand: [`settle_echo`], and the push of its command. The queue
/// keeps what it held, in its order, and the command, if there is one,
/// comes behind it. Returns whether to read on.
pub fn after_echo<F: Fn(&[u8]) -> Option<Scalar>>(
    echoed: bool,
    text: &str,
    queue: &mut RacketCommandQueue,
    read_number: F,
) -> (read_on: bool)
    requires
        forall|field: &[u8]| #[trigger] read_number.requires((field,)),
    ensures
        read_on == echoed,
        !echoed ==> final(queue)@ == old(queue)@,
        echoed ==> exists|command: Option<RacketTransformCommand>|
            decodes_to(text.spec_bytes(), read_number, command) && final(queue)@
                == #[trigger] with_command(old(queue)@, command),
        forall|number: spec_fn(Seq<u8>) -> Option<Scalar>| #[trigger]
            reads_as(read_number, number) && echoed ==> final(queue)@ == with_command(
                old(queue)@,
                decoded(text.spec_bytes(), number),
            ),
{
    let outcome = settle_echo(echoed, text, read_number);
    match outcome.command {
        Some(command) => {
            queue.push(command);
        },
        None => {},
    }
    assert(queue@ == with_command(old(queue)@, outcome.command));
    outcome.read_on
}

/// The commands that `frames` hold, in the order of the frames, `number`
/// being what reading a field gives. A frame that is no command adds
/// nothing.
pub open spec fn commands_in(
    frames: Seq<Seq<u8>>,
    number: spec_fn(Seq<u8>) -> Option<Scalar>,
) -> Seq<RacketTransformCommand>
    decreases frames.len(),
{
    if frames.len() == 0 {
        Seq::empty()
    } else {
        with_command(commands_in(frames.drop_last(), number), decoded(frames.last(), number))
    }
}

/// The queue after the text frames of a connection were handled one after
/// the other, every echo having gone out.
pub open spec fn after_frames(
    queue: Seq<RacketTransformCommand>,
    frames: Seq<Seq<u8>>,
    number: spec_fn(Seq<u8>) -> Option<Scalar>,
) -> Seq<RacketTransformCommand>
    decreases frames.len(),
{
    if frames.len() == 0 {
        queue
    } else {
        with_command(after_frames(queue, frames.drop_last(), number), decoded(frames.last(), number))
    }
}

/// A connection appends its commands in the order of its frames. Whatever
/// the queue held and whatever frames arrive: once they are handled, every
/// echo having gone out, the queue is what it was, with nothing taken out
/// and nothing moved, followed by one command for each frame that is a
/// command, in the order of arrival. A frame that is no command pushes
/// nothing.
pub proof fn lemma_frames_append_in_order(
    queue: Seq<RacketTransformCommand>,
    frames: Seq<Seq<u8>>,
    number: spec_fn(Seq<u8>) -> Option<Scalar>,
)
    ensures
        after_frames(queue, frames, number) == queue + commands_in(frames, number),
        commands_in(frames, number).len() <= frames.len(),
    decreases frames.len(),
{
    if frames.len() > 0 {
        lemma_frames_append_in_order(queue, frames.drop_last(), number);
    }
}

} // verus!
