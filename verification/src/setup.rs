//! The TLS and QUIC configuration that the server and the clients build
//! before any connection: the server's self-signed identity, its TLS
//! configuration, the QUIC crypto configurations, the server's idle timeout
//! and the name under which the clients address the server.

use vstd::prelude::*;

verus! {

/// Declares the certificate generator's error type.
#[verifier::external_type_specification]
#[verifier::external_body]
pub struct ExCertificateError(rcgen::Error);

/// Declares the TLS library's error type.
#[verifier::external_type_specification]
#[verifier::external_body]
pub struct ExTlsError(rustls::Error);

/// Declares the TLS server configuration.
#[verifier::external_type_specification]
#[verifier::external_body]
pub struct ExTlsServerConfig(rustls::ServerConfig);

/// Declares the TLS client configuration.
#[verifier::external_type_specification]
#[verifier::external_body]
pub struct ExTlsClientConfig(rustls::ClientConfig);

/// Declares the QUIC server crypto configuration built on TLS.
#[verifier::external_type_specification]
#[verifier::external_body]
pub struct ExQuicServerCrypto(quinn::crypto::rustls::QuicServerConfig);

/// Declares the QUIC client crypto configuration built on TLS.
#[verifier::external_type_specification]
#[verifier::external_body]
pub struct ExQuicClientCrypto(quinn::crypto::rustls::QuicClientConfig);

/// Declares the error of a TLS configuration that lacks QUIC's initial cipher suite.
#[verifier::external_type_specification]
#[verifier::external_body]
pub struct ExNoInitialCipherSuite(quinn::crypto::rustls::NoInitialCipherSuite);

/// Declares QUIC's idle timeout.
#[verifier::external_type_specification]
#[verifier::external_body]
pub struct ExIdleTimeout(quinn::IdleTimeout);

/// Declares the error of a value out of QUIC's variable-length integer range.
#[verifier::external_type_specification]
#[verifier::external_body]
pub struct ExVarIntBoundsExceeded(quinn::VarIntBoundsExceeded);

/// Declares the name under which a TLS client addresses the server.
#[verifier::external_type_specification]
#[verifier::external_body]
pub struct ExServerName<'a>(rustls::pki_types::ServerName<'a>);

/// Declares the error of a string that is neither a DNS name nor an IP address.
#[verifier::external_type_specification]
#[verifier::external_body]
pub struct ExInvalidDnsNameError(rustls::pki_types::InvalidDnsNameError);

/// Why the configuration could not be built; each variant carries the
/// underlying library's error.
#[derive(Debug)]
pub enum SetupError {
    /// A requested certificate name holds a character outside ASCII, so it is
    /// neither an IP address nor a DNS name.
    CertificateName(rcgen::Error),
    /// The self-signed certificate could not be generated otherwise.
    Certificate(rcgen::Error),
    /// The TLS server configuration refused the certificate or key.
    Tls(rustls::Error),
    /// A TLS configuration lacks the cipher suite that QUIC starts with.
    QuicCrypto(quinn::crypto::rustls::NoInitialCipherSuite),
    /// The idle timeout is out of QUIC's range.
    IdleTimeout(quinn::VarIntBoundsExceeded),
    /// The server name is neither a DNS name nor an IP address.
    ServerName(rustls::pki_types::InvalidDnsNameError),
}

/// The server's certificate and private key, DER-encoded (the key as PKCS#8).
pub struct ServerIdentity {
    pub cert_der: Vec<u8>,
    pub key_der: Vec<u8>,
}

/// How long an idle QUIC connection stays open on the server, in seconds.
pub const SERVER_IDLE_TIMEOUT_SECS: u64 = 10;

/// The largest value a QUIC variable-length integer holds.
pub const VARINT_MAX: u64 = 0x3fff_ffff_ffff_ffff;

/// Whether the TLS server configuration, built with the aws-lc-rs provider and
/// the default protocol versions, accepts `cert_der` as its single certificate
/// and `key_der` as the matching PKCS#8 private key.
pub uninterp spec fn tls_accepts_single_cert(cert_der: Seq<u8>, key_der: Seq<u8>) -> bool;

/// The idle timeout that `IdleTimeout::try_from` makes of a duration of
/// `secs` seconds, where it succeeds.
pub uninterp spec fn idle_timeout_of_secs(secs: u64) -> quinn::IdleTimeout;

/// Whether `name` parses as a DNS name or, failing that, as an IP address.
pub uninterp spec fn server_name_accepted(name: Seq<char>) -> bool;

/// The TLS name that `ServerName::try_from` makes of `name`, where it succeeds.
pub uninterp spec fn server_name_of(name: Seq<char>) -> rustls::pki_types::ServerName<'static>;

/// The DER-encoded certificate chain that a TLS server configuration presents.
pub uninterp spec fn presented_chain(config: rustls::ServerConfig) -> Seq<Seq<u8>>;

/// Whether the crypto provider of a TLS server configuration offers the
/// cipher suite that QUIC starts with (TLS13_AES_128_GCM_SHA256).
pub uninterp spec fn quic_server_accepts(tls: rustls::ServerConfig) -> bool;

/// The QUIC server crypto configuration that `QuicServerConfig::try_from`
/// makes of `tls`, where it succeeds.
pub uninterp spec fn quic_server_crypto_of(tls: rustls::ServerConfig) -> quinn::crypto::rustls::QuicServerConfig;

/// Whether the crypto provider of a TLS client configuration offers the
/// cipher suite that QUIC starts with (TLS13_AES_128_GCM_SHA256).
pub uninterp spec fn quic_client_accepts(tls: rustls::ClientConfig) -> bool;

/// The QUIC client crypto configuration that `QuicClientConfig::try_from`
/// makes of `tls`, where it succeeds.
pub uninterp spec fn quic_client_crypto_of(tls: rustls::ClientConfig) -> quinn::crypto::rustls::QuicClientConfig;

/// Whether the DER-encoded certificate `cert_der` is issued for exactly the
/// subject alternative names `names`, in order: each one as an IP address
/// where it parses as one, else as a DNS name.
pub uninterp spec fn issued_for(cert_der: Seq<u8>, names: Seq<Seq<char>>) -> bool;

/// The names in `names`, as character sequences.
pub open spec fn name_chars(names: Seq<String>) -> Seq<Seq<char>> {
    names.map_values(|n: String| n@)
}

/// Whether some name in `names` holds a character outside ASCII.
pub open spec fn has_non_ascii_name(names: Seq<String>) -> bool {
    exists|i: int| 0 <= i < names.len() && !vstd::utf8::is_ascii_chars(#[trigger] names[i]@)
}

/// Calls `rcgen::generate_simple_self_signed` with `names` as the subject
/// alternative names and hands back the certificate and the key pair,
/// DER-encoded; its error is told apart by variant: the IA5-string refusal of
/// a name, or any other. The key is random, so the result is not named.
/// Claimed, as the source shows: a name with a non-ASCII character is refused
/// (it is no IP address and no IA5 string), and on this path only such a name
/// raises the IA5-string refusal; the certificate is issued for exactly
/// `names`; and a generated pair (an ECDSA P-256 key in PKCS#8 and the
/// certificate over its public key) is accepted by the TLS server
/// configuration.
#[verifier::external_body]
fn generate_simple_self_signed(names: Vec<String>) -> (r: Result<(Vec<u8>, Vec<u8>), SetupError>)
    ensures
        has_non_ascii_name(names@) ==> r is Err,
        r matches Err(e) ==> e is Certificate || e is CertificateName,
        r matches Err(e) ==> (e is CertificateName ==> has_non_ascii_name(names@)),
        r matches Ok((cert, key)) ==> issued_for(cert@, name_chars(names@)),
        r matches Ok((cert, key)) ==> tls_accepts_single_cert(cert@, key@),
{
    match rcgen::generate_simple_self_signed(names) {
        Ok(certified) => Ok((certified.cert.der().to_vec(), certified.key_pair.serialize_der())),
        Err(e @ rcgen::Error::InvalidAsn1String(rcgen::InvalidAsn1String::Ia5String(_))) => {
            Err(SetupError::CertificateName(e))
        },
        Err(e) => Err(SetupError::Certificate(e)),
    }
}

/// Builds a `rustls::ServerConfig` (builder with the aws-lc-rs default
/// provider, the default protocol versions, no client authentication) and
/// calls `with_single_cert` with `cert_der` and the PKCS#8 key `key_der`.
/// Claimed: it succeeds exactly when the configuration accepts that
/// certificate and key, which depends on the two byte strings alone; the
/// configuration then presents the chain made of `cert_der` alone, and its
/// provider (aws-lc-rs by default) offers QUIC's initial cipher suite.
#[verifier::external_body]
fn single_cert_server_config(cert_der: Vec<u8>, key_der: Vec<u8>) -> (r: Result<rustls::ServerConfig, rustls::Error>)
    ensures
        r is Ok <==> tls_accepts_single_cert(cert_der@, key_der@),
        r matches Ok(c) ==> presented_chain(c) == seq![cert_der@] && quic_server_accepts(c),
{
    rustls::ServerConfig::builder_with_provider(std::sync::Arc::new(rustls::crypto::aws_lc_rs::default_provider()))
        .with_protocol_versions(rustls::DEFAULT_VERSIONS)?
        .with_no_client_auth()
        .with_single_cert(
            vec![rustls::pki_types::CertificateDer::from(cert_der)],
            rustls::pki_types::PrivateKeyDer::Pkcs8(key_der.into()),
        )
}

/// Calls `QuicServerConfig::try_from` on a TLS server configuration.
/// Claimed, as the source shows: it succeeds exactly when the
/// configuration's provider offers QUIC's initial cipher suite, and its
/// result depends on the configuration alone.
#[verifier::external_body]
fn quic_server_config_from(tls: rustls::ServerConfig) -> (r: Result<quinn::crypto::rustls::QuicServerConfig, quinn::crypto::rustls::NoInitialCipherSuite>)
    ensures
        r is Ok <==> quic_server_accepts(tls),
        r matches Ok(q) ==> q == quic_server_crypto_of(tls),
{
    quinn::crypto::rustls::QuicServerConfig::try_from(tls)
}

/// Calls `QuicClientConfig::try_from` on a TLS client configuration.
/// Claimed, as the source shows: it succeeds exactly when the
/// configuration's provider offers QUIC's initial cipher suite, and its
/// result depends on the configuration alone.
#[verifier::external_body]
fn quic_client_config_from(tls: rustls::ClientConfig) -> (r: Result<quinn::crypto::rustls::QuicClientConfig, quinn::crypto::rustls::NoInitialCipherSuite>)
    ensures
        r is Ok <==> quic_client_accepts(tls),
        r matches Ok(q) ==> q == quic_client_crypto_of(tls),
{
    quinn::crypto::rustls::QuicClientConfig::try_from(tls)
}

/// Calls `IdleTimeout::try_from` on a duration of `secs` seconds. Claimed,
/// as the source shows: it converts the duration's milliseconds to a
/// variable-length integer, which succeeds exactly when they are below 2^62;
/// the timeout it makes depends on `secs` alone.
#[verifier::external_body]
fn idle_timeout_from_secs(secs: u64) -> (r: Result<quinn::IdleTimeout, quinn::VarIntBoundsExceeded>)
    ensures
        r is Ok <==> secs * 1000 <= VARINT_MAX,
        r matches Ok(t) ==> t == idle_timeout_of_secs(secs),
{
    quinn::IdleTimeout::try_from(std::time::Duration::from_secs(secs))
}

/// Calls `ServerName::try_from` on `name` and makes the result owned.
/// Claimed: it succeeds exactly when the name is accepted, and the name it
/// makes depends on the string alone.
#[verifier::external_body]
fn server_name_from(name: &str) -> (r: Result<rustls::pki_types::ServerName<'static>, rustls::pki_types::InvalidDnsNameError>)
    ensures
        r is Ok <==> server_name_accepted(name@),
        r matches Ok(n) ==> n == server_name_of(name@),
{
    match rustls::pki_types::ServerName::try_from(name) {
        Ok(parsed) => Ok(parsed.to_owned()),
        Err(e) => Err(e),
    }
}

/// The TLS signature schemes (by their IANA code points) that the clients'
/// certificate verifier declares: ECDSA P-256 with SHA-256, Ed25519, and
/// RSA-PSS with SHA-256, in that order.
pub fn verify_schemes() -> (codes: Vec<u16>)
    ensures
        codes@ == seq![0x0403u16, 0x0807u16, 0x0804u16],
{
    let codes: Vec<u16> = vec![0x0403, 0x0807, 0x0804];
    assert(codes@ =~= seq![0x0403u16, 0x0807u16, 0x0804u16]);
    codes
}

/// The name the clients use for the server, and for which the server's
/// certificate is issued.
pub fn peer_name() -> (name: &'static str)
    ensures
        name == crate::bench::server_name_spec(),
        name@ == "localhost"@,
{
    "localhost"
}

/// The subject alternative names of the server's certificate: the peer name only.
pub fn certificate_names() -> (names: Vec<String>)
    ensures
        names@.len() == 1,
        names@[0]@ == "localhost"@,
{
    let mut names: Vec<String> = Vec::new();
    names.push(peer_name().to_owned());
    names
}

/// Generates a self-signed certificate for `names` and its key pair.
pub fn generate_identity(names: Vec<String>) -> (r: Result<ServerIdentity, SetupError>)
    ensures
        has_non_ascii_name(names@) ==> r is Err,
        r matches Ok(id) ==> issued_for(id.cert_der@, name_chars(names@)),
        r matches Ok(id) ==> tls_accepts_single_cert(id.cert_der@, id.key_der@),
        r matches Err(e) ==> e is Certificate || e is CertificateName,
        r matches Err(e) ==> (e is CertificateName ==> has_non_ascii_name(names@)),
{
    match generate_simple_self_signed(names) {
        Ok((cert_der, key_der)) => Ok(ServerIdentity { cert_der, key_der }),
        Err(e) => Err(e),
    }
}

/// The TLS server configuration that presents `identity`.
pub fn server_tls_config(identity: ServerIdentity) -> (r: Result<rustls::ServerConfig, SetupError>)
    ensures
        r is Ok <==> tls_accepts_single_cert(identity.cert_der@, identity.key_der@),
        r matches Ok(c) ==> presented_chain(c) == seq![identity.cert_der@] && quic_server_accepts(c),
        r matches Err(e) ==> e is Tls,
{
    match single_cert_server_config(identity.cert_der, identity.key_der) {
        Ok(config) => Ok(config),
        Err(e) => Err(SetupError::Tls(e)),
    }
}

/// The QUIC server crypto configuration over the TLS configuration `tls`.
pub fn quic_server_crypto(tls: rustls::ServerConfig) -> (r: Result<quinn::crypto::rustls::QuicServerConfig, SetupError>)
    ensures
        r is Ok <==> quic_server_accepts(tls),
        r matches Ok(q) ==> q == quic_server_crypto_of(tls),
        r matches Err(e) ==> e is QuicCrypto,
{
    match quic_server_config_from(tls) {
        Ok(config) => Ok(config),
        Err(e) => Err(SetupError::QuicCrypto(e)),
    }
}

/// The QUIC client crypto configuration over the TLS configuration `tls`.
pub fn quic_client_crypto(tls: rustls::ClientConfig) -> (r: Result<quinn::crypto::rustls::QuicClientConfig, SetupError>)
    ensures
        r is Ok <==> quic_client_accepts(tls),
        r matches Ok(q) ==> q == quic_client_crypto_of(tls),
        r matches Err(e) ==> e is QuicCrypto,
{
    match quic_client_config_from(tls) {
        Ok(config) => Ok(config),
        Err(e) => Err(SetupError::QuicCrypto(e)),
    }
}

/// A copy of the bytes of `v`.
fn copy_bytes(v: &Vec<u8>) -> (c: Vec<u8>)
    ensures
        c@ == v@,
{
    let mut c: Vec<u8> = Vec::new();
    let mut i: usize = 0;
    while i < v.len()
        invariant
            i <= v@.len(),
            c@ == v@.take(i as int),
        decreases v@.len() - i,
    {
        c.push(v[i]);
        i = i + 1;
        assert(c@ =~= v@.take(i as int));
    }
    assert(v@.take(v@.len() as int) =~= v@);
    c
}

/// Everything the echo servers are configured with: the TLS configuration
/// for TLS over TCP, the QUIC crypto configuration and QUIC's idle timeout.
pub struct ServerSetup {
    pub tls: rustls::ServerConfig,
    pub quic: quinn::crypto::rustls::QuicServerConfig,
    pub idle: quinn::IdleTimeout,
}

/// Generates the server's identity for `names` and builds all of its
/// configuration, presenting a certificate issued for exactly `names`. Only the generation can fail: a generated identity is
/// always accepted by TLS, and the TLS configuration always carries QUIC's
/// initial cipher suite.
pub fn server_setup(names: Vec<String>) -> (r: Result<ServerSetup, SetupError>)
    ensures
        r matches Err(e) ==> e is Certificate || e is CertificateName,
        r matches Err(e) ==> (e is CertificateName ==> has_non_ascii_name(names@)),
        has_non_ascii_name(names@) ==> r is Err,
        r matches Ok(s) ==> {
            &&& s.idle == idle_timeout_of_secs(SERVER_IDLE_TIMEOUT_SECS)
            &&& exists|cert: Seq<u8>, c: rustls::ServerConfig| {
                &&& issued_for(cert, name_chars(names@))
                &&& presented_chain(s.tls) == seq![cert]
                &&& presented_chain(c) == seq![cert]
                &&& s.quic == quic_server_crypto_of(c)
            }
        },
{
    let ghost requested = name_chars(names@);
    let identity = match generate_identity(names) {
        Ok(id) => id,
        Err(e) => return Err(e),
    };
    let second = ServerIdentity { cert_der: copy_bytes(&identity.cert_der), key_der: copy_bytes(&identity.key_der) };
    let ghost cert = identity.cert_der@;
    let tls = match server_tls_config(identity) {
        Ok(c) => c,
        Err(e) => return Err(e),
    };
    let for_quic = match server_tls_config(second) {
        Ok(c) => c,
        Err(e) => return Err(e),
    };
    let ghost c = for_quic;
    let quic = match quic_server_crypto(for_quic) {
        Ok(q) => q,
        Err(e) => return Err(e),
    };
    let idle = match server_idle_timeout() {
        Ok(t) => t,
        Err(e) => return Err(e),
    };
    assert(issued_for(cert, requested) && presented_chain(tls) == seq![cert] && presented_chain(c) == seq![cert]
        && quic == quic_server_crypto_of(c));
    Ok(ServerSetup { tls, quic, idle })
}

/// QUIC's idle timeout of `secs` seconds; refused when its milliseconds do
/// not fit a variable-length integer.
pub fn idle_timeout(secs: u64) -> (r: Result<quinn::IdleTimeout, SetupError>)
    ensures
        r is Ok <==> secs * 1000 <= VARINT_MAX,
        r matches Ok(t) ==> t == idle_timeout_of_secs(secs),
        r matches Err(e) ==> e is IdleTimeout,
{
    match idle_timeout_from_secs(secs) {
        Ok(t) => Ok(t),
        Err(e) => Err(SetupError::IdleTimeout(e)),
    }
}

/// The server's idle timeout of ten seconds, which always fits.
pub fn server_idle_timeout() -> (r: Result<quinn::IdleTimeout, SetupError>)
    ensures
        r matches Ok(t) && t == idle_timeout_of_secs(SERVER_IDLE_TIMEOUT_SECS),
{
    idle_timeout(SERVER_IDLE_TIMEOUT_SECS)
}

/// The TLS name for `name`.
pub fn server_name(name: &str) -> (r: Result<rustls::pki_types::ServerName<'static>, SetupError>)
    ensures
        r is Ok <==> server_name_accepted(name@),
        r matches Ok(n) ==> n == server_name_of(name@),
        r matches Err(e) ==> e is ServerName,
{
    match server_name_from(name) {
        Ok(n) => Ok(n),
        Err(e) => Err(SetupError::ServerName(e)),
    }
}

} // verus!
