use aerospace_net_bench::echo::{EchoAction, EchoLoop, Received, ECHO_BUFFER_LEN};
use aerospace_net_bench::endpoint::Service;

fn reply_of(a: EchoAction) -> Option<Vec<u8>> {
    match a {
        EchoAction::Reply(bytes) => Some(bytes),
        _ => None,
    }
}

fn is_stop(a: &EchoAction) -> bool {
    matches!(a, EchoAction::Stop)
}

fn is_listen(a: &EchoAction) -> bool {
    matches!(a, EchoAction::Listen)
}

#[test]
fn tls_echo_sends_back_what_it_read() {
    let mut buf = vec![0u8; ECHO_BUFFER_LEN];
    buf[..5].copy_from_slice(b"hello");
    let mut l = EchoLoop::new(Service::Tcp);
    assert_eq!(reply_of(l.on_receive(Received::Bytes(5), &buf)), Some(b"hello".to_vec()));
    assert!(is_listen(&l.on_sent(true)));
    assert!(l.open);
}

#[test]
fn tls_echo_stops_on_empty_read_end_or_error() {
    let buf = vec![7u8; 16];
    let mut l = EchoLoop::new(Service::Tcp);
    assert!(is_stop(&l.on_receive(Received::Bytes(0), &buf)));
    assert!(!l.open);
    assert!(is_stop(&l.on_receive(Received::Bytes(3), &buf)));

    let mut l = EchoLoop::new(Service::Tcp);
    assert!(is_stop(&l.on_receive(Received::Failed, &buf)));
    let mut l = EchoLoop::new(Service::Tcp);
    assert!(is_stop(&l.on_receive(Received::Closed, &buf)));
}

#[test]
fn tls_echo_stops_when_the_write_fails() {
    let buf = vec![1u8, 2, 3];
    let mut l = EchoLoop::new(Service::Tcp);
    assert_eq!(reply_of(l.on_receive(Received::Bytes(3), &buf)), Some(vec![1, 2, 3]));
    assert!(is_stop(&l.on_sent(false)));
    assert!(is_stop(&l.on_receive(Received::Bytes(3), &buf)));
}

#[test]
fn quic_stream_ignores_failed_writes() {
    let buf = vec![9u8, 8, 7, 6];
    let mut l = EchoLoop::new(Service::Quic);
    assert_eq!(reply_of(l.on_receive(Received::Bytes(2), &buf)), Some(vec![9, 8]));
    assert!(is_listen(&l.on_sent(false)));
    assert_eq!(reply_of(l.on_receive(Received::Bytes(4), &buf)), Some(vec![9, 8, 7, 6]));
    assert!(is_stop(&l.on_receive(Received::Closed, &buf)));
    assert!(!l.open);
}

#[test]
fn udp_echo_keeps_serving() {
    let buf = vec![4u8, 5, 6];
    let mut l = EchoLoop::new(Service::Udp);
    assert!(is_listen(&l.on_receive(Received::Failed, &buf)));
    assert_eq!(reply_of(l.on_receive(Received::Bytes(0), &buf)), Some(vec![]));
    assert!(is_listen(&l.on_sent(false)));
    assert_eq!(reply_of(l.on_receive(Received::Bytes(3), &buf)), Some(vec![4, 5, 6]));
    assert!(l.open);
}

#[test]
fn echoed_stream_equals_arrived_stream() {
    // a stream of chunks, all delivered: what goes back is what came in
    let chunks: [&[u8]; 3] = [b"abc", b"de", b"fghij"];
    let mut sent = Vec::new();
    let mut l = EchoLoop::new(Service::Tcp);
    for c in chunks {
        let mut buf = vec![0u8; 8];
        buf[..c.len()].copy_from_slice(c);
        let reply = reply_of(l.on_receive(Received::Bytes(c.len()), &buf)).unwrap();
        sent.extend(reply);
        l.on_sent(true);
    }
    assert_eq!(sent, b"abcdefghij".to_vec());
}
