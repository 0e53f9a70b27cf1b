use aerospace_net_bench::endpoint::{client_bind_endpoint, server_endpoint, Endpoint, Service, LOOPBACK};
use aerospace_net_bench::payload::{make_payload, DEFAULT_PAYLOAD_SIZE};
use aerospace_net_bench::protocol::{
    parse_plain_client_protocol, parse_secure_client_protocol, plain_client_usage, secure_client_usage,
    BenchTest,
};

#[test]
fn secure_client_knows_three_protocols() {
    assert_eq!(parse_secure_client_protocol("tcp"), Some(BenchTest::TlsTcp));
    assert_eq!(parse_secure_client_protocol("quic"), Some(BenchTest::ResumedQuic));
    assert_eq!(parse_secure_client_protocol("udp"), Some(BenchTest::RawUdp));
}

#[test]
fn secure_client_refuses_other_names() {
    assert_eq!(parse_secure_client_protocol("TCP"), None);
    assert_eq!(parse_secure_client_protocol(""), None);
    assert_eq!(parse_secure_client_protocol("tcp "), None);
    assert_eq!(parse_secure_client_protocol("sctp"), None);
    assert_eq!(parse_secure_client_protocol("quick"), None);
}

#[test]
fn plain_client_knows_two_protocols() {
    assert_eq!(parse_plain_client_protocol("tcp"), Some(BenchTest::PlainTcp));
    assert_eq!(parse_plain_client_protocol("quic"), Some(BenchTest::ResumedQuic));
    assert_eq!(parse_plain_client_protocol("udp"), None);
    assert_eq!(parse_plain_client_protocol("tc"), None);
}

#[test]
fn usage_hints() {
    assert_eq!(secure_client_usage(), "❌ Use --protocol tcp, quic, or udp");
    assert_eq!(plain_client_usage(), "❌ Use --protocol tcp or --protocol quic");
}

#[test]
fn payload_is_zero_filled() {
    let p = make_payload(4096);
    assert_eq!(p.len(), 4096);
    assert!(p.iter().all(|b| *b == 0));
    assert!(make_payload(0).is_empty());
    assert_eq!(make_payload(DEFAULT_PAYLOAD_SIZE).len(), 1024);
}

#[test]
fn services_listen_on_loopback_ports() {
    assert_eq!(server_endpoint(Service::Tcp), Endpoint { ip: LOOPBACK, port: 8080 });
    assert_eq!(server_endpoint(Service::Quic), Endpoint { ip: LOOPBACK, port: 8081 });
    assert_eq!(server_endpoint(Service::Udp), Endpoint { ip: LOOPBACK, port: 8082 });
    assert_eq!(client_bind_endpoint(), Endpoint { ip: 0x7f00_0001, port: 0 });
}
