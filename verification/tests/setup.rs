use std::sync::Arc;

use aerospace_net_bench::setup::{
    certificate_names, generate_identity, idle_timeout, peer_name, quic_client_crypto, quic_server_crypto,
    server_idle_timeout, server_name, server_setup, server_tls_config, verify_schemes, ServerIdentity, SetupError, VARINT_MAX,
};

#[test]
fn names_are_localhost() {
    assert_eq!(peer_name(), "localhost");
    assert_eq!(certificate_names(), vec!["localhost".to_string()]);
}

#[test]
fn generated_identity_makes_a_server_config() {
    let identity = generate_identity(certificate_names()).expect("certificate");
    assert!(!identity.cert_der.is_empty());
    assert!(!identity.key_der.is_empty());
    let tls = server_tls_config(identity).expect("tls config");
    assert!(quic_server_crypto(tls).is_ok());
}

#[test]
fn invalid_certificate_name_is_refused() {
    match generate_identity(vec!["bad name\u{e9}".to_string()]) {
        Err(SetupError::CertificateName(_)) => {}
        other => panic!("unexpected: {:?}", other.map(|_| ())),
    }
}

#[test]
fn garbage_key_is_refused() {
    let identity = generate_identity(certificate_names()).expect("certificate");
    let broken = ServerIdentity { cert_der: identity.cert_der, key_der: vec![1, 2, 3] };
    match server_tls_config(broken) {
        Err(SetupError::Tls(_)) => {}
        other => panic!("unexpected: {:?}", other.map(|_| ())),
    }
}

#[test]
fn mismatched_key_is_refused() {
    let a = generate_identity(certificate_names()).expect("certificate");
    let b = generate_identity(certificate_names()).expect("certificate");
    let mixed = ServerIdentity { cert_der: a.cert_der, key_der: b.key_der };
    assert!(matches!(server_tls_config(mixed), Err(SetupError::Tls(_))));
}

#[test]
fn idle_timeouts() {
    assert_eq!(
        server_idle_timeout().expect("ten seconds"),
        quinn::IdleTimeout::from(quinn::VarInt::from_u32(10_000))
    );
    let t = idle_timeout(10).expect("ten seconds");
    assert_eq!(format!("{:?}", t), "10000");
    assert!(idle_timeout(VARINT_MAX / 1000).is_ok());
    assert!(matches!(idle_timeout(VARINT_MAX / 1000 + 1), Err(SetupError::IdleTimeout(_))));
    assert!(matches!(idle_timeout(u64::MAX), Err(SetupError::IdleTimeout(_))));
}

#[test]
fn server_names() {
    assert_eq!(
        server_name("localhost").unwrap(),
        rustls::pki_types::ServerName::try_from("localhost").unwrap()
    );
    assert_ne!(
        server_name("localhost").unwrap(),
        rustls::pki_types::ServerName::try_from("127.0.0.1").unwrap()
    );
    assert!(server_name("127.0.0.1").is_ok());
    assert!(matches!(server_name("not a host name"), Err(SetupError::ServerName(_))));
    assert!(matches!(server_name(""), Err(SetupError::ServerName(_))));
}

#[test]
fn client_crypto_for_quic() {
    let tls = rustls::ClientConfig::builder_with_provider(Arc::new(rustls::crypto::aws_lc_rs::default_provider()))
        .with_safe_default_protocol_versions()
        .unwrap()
        .with_root_certificates(rustls::RootCertStore::empty())
        .with_no_client_auth();
    assert!(quic_client_crypto(tls).is_ok());
}

#[test]
fn verifier_schemes() {
    let schemes: Vec<rustls::SignatureScheme> =
        verify_schemes().into_iter().map(rustls::SignatureScheme::from).collect();
    assert_eq!(
        schemes,
        vec![
            rustls::SignatureScheme::ECDSA_NISTP256_SHA256,
            rustls::SignatureScheme::ED25519,
            rustls::SignatureScheme::RSA_PSS_SHA256,
        ]
    );
}

#[test]
fn server_setup_succeeds_for_the_peer_name() {
    let setup = server_setup(certificate_names()).expect("server setup");
    assert_eq!(setup.idle, quinn::IdleTimeout::from(quinn::VarInt::from_u32(10_000)));
}

#[test]
fn server_setup_refuses_non_ascii_names() {
    assert!(matches!(server_setup(vec!["h\u{f6}st".to_string()]), Err(SetupError::CertificateName(_))));
}

#[test]
fn certificate_names_the_requested_hosts() {
    let id = generate_identity(vec!["localhost".to_string(), "127.0.0.1".to_string()]).expect("certificate");
    let der = &id.cert_der;
    // the DNS name appears as an IA5 string, the address as its four octets
    assert!(der.windows(9).any(|w| w == b"localhost"));
    assert!(der.windows(4).any(|w| w == [127, 0, 0, 1]));
    let other = generate_identity(vec!["example.org".to_string()]).expect("certificate");
    assert!(!other.cert_der.windows(9).any(|w| w == b"localhost"));
}
