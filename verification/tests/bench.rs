use aerospace_net_bench::bench::{
    plan, report_lines, report_title, Action, Bench, Channel, Event, Line, Report, Step, RECV_BUFFER_LEN,
};
use aerospace_net_bench::endpoint::{Endpoint, LOOPBACK};
use aerospace_net_bench::protocol::BenchTest;

fn ep(port: u16) -> Endpoint {
    Endpoint { ip: LOOPBACK, port }
}

/// Feeds a begin at `times[0]` and completions at the rest; returns every action.
fn drive(test: BenchTest, len: usize, times: &[u64]) -> Vec<Action> {
    let mut bench = Bench::new(test, len);
    let mut actions = vec![bench.step(Event::Begin { at: times[0] })];
    for t in &times[1..] {
        actions.push(bench.step(Event::Done { at: *t }));
    }
    actions
}

#[test]
fn plans_follow_the_measurements() {
    assert_eq!(
        plan(BenchTest::PlainTcp, 10),
        vec![
            Step::TcpConnect { to: ep(8080) },
            Step::Send { over: Channel::Tcp, len: 10 },
            Step::ReceiveExact { over: Channel::Tcp, len: 10 },
        ]
    );
    assert_eq!(
        plan(BenchTest::TlsTcp, 4096),
        vec![
            Step::PrepareTls { name: "localhost" },
            Step::TcpConnect { to: ep(8080) },
            Step::TlsHandshake,
            Step::Send { over: Channel::Tls, len: 4096 },
            Step::ReceiveExact { over: Channel::Tls, len: 4096 },
        ]
    );
    assert_eq!(
        plan(BenchTest::RawUdp, 7),
        vec![
            Step::UdpBind { at: ep(0) },
            Step::UdpConnect { to: ep(8082) },
            Step::Send { over: Channel::Udp, len: 7 },
            Step::ReceiveWithin { capacity: RECV_BUFFER_LEN, millis: 1500 },
        ]
    );
    assert_eq!(
        plan(BenchTest::ResumedQuic, 3),
        vec![
            Step::PrepareQuic { bind: ep(0), early_data: true },
            Step::QuicConnect { to: ep(8081), name: "localhost" },
            Step::QuicClose { code: 0, reason: "session_saved" },
            Step::Pause { millis: 200 },
            Step::ResumeEarly { to: ep(8081), name: "localhost" },
            Step::OpenStream,
            Step::Send { over: Channel::QuicStream, len: 3 },
            Step::FinishStream,
            Step::ReceiveExact { over: Channel::QuicStream, len: 3 },
        ]
    );
    assert_eq!(RECV_BUFFER_LEN, 65536);
}

#[test]
fn complete_tls_run_reports_handshake_and_round_trip() {
    let times = [100, 150, 400, 900, 1000, 1700];
    let actions = drive(BenchTest::TlsTcp, 64, &times);
    let mut expected: Vec<Action> = plan(BenchTest::TlsTcp, 64).into_iter().map(Action::Perform).collect();
    expected.push(Action::Finish(Report { connect_nanos: 750, transfer_nanos: 800, first_connect_nanos: None }));
    assert_eq!(actions, expected);
}

#[test]
fn complete_plain_tcp_run() {
    let actions = drive(BenchTest::PlainTcp, 1, &[0, 300, 350, 1000]);
    assert_eq!(
        actions.last(),
        Some(&Action::Finish(Report { connect_nanos: 300, transfer_nanos: 700, first_connect_nanos: None }))
    );
}

#[test]
fn complete_quic_run_measures_the_resumed_connection() {
    let times = [0, 10, 310, 320, 200_000_320, 200_050_000, 200_050_100, 200_060_000, 200_060_100, 200_500_000];
    let actions = drive(BenchTest::ResumedQuic, 4096, &times);
    assert_eq!(actions.len(), 10);
    assert_eq!(
        actions[9],
        Action::Finish(Report {
            connect_nanos: 49_680,
            transfer_nanos: 450_000,
            first_connect_nanos: Some(300),
        })
    );
    // connect + transfer span the measured connection to the end of the echo
    assert_eq!(49_680 + 450_000, times[9] - times[4]);
}

#[test]
fn first_quic_connection_time_is_known_after_it() {
    let mut bench = Bench::new(BenchTest::ResumedQuic, 8);
    assert_eq!(bench.first_connect_nanos(), None);
    bench.step(Event::Begin { at: 5 });
    bench.step(Event::Done { at: 20 });
    assert_eq!(bench.first_connect_nanos(), None);
    bench.step(Event::Done { at: 120 });
    assert_eq!(bench.first_connect_nanos(), Some(100));
    assert_eq!(bench.test(), BenchTest::ResumedQuic);
}

#[test]
fn udp_reply_timeout_reports_the_full_wait() {
    let mut bench = Bench::new(BenchTest::RawUdp, 4096);
    bench.step(Event::Begin { at: 1_000 });
    bench.step(Event::Done { at: 1_050 });
    bench.step(Event::Done { at: 1_144 });
    assert_eq!(bench.step(Event::Done { at: 2_000 }), Action::Perform(Step::ReceiveWithin { capacity: 65536, millis: 1500 }));
    assert_eq!(
        bench.step(Event::Failed),
        Action::Finish(Report { connect_nanos: 144, transfer_nanos: 1_500_000_000, first_connect_nanos: None })
    );
    assert_eq!(bench.step(Event::Done { at: 9 }), Action::Halt);
}

#[test]
fn udp_reply_in_time() {
    let actions = drive(BenchTest::RawUdp, 16, &[0, 10, 20, 30, 400_000_020]);
    assert_eq!(
        actions.last(),
        Some(&Action::Finish(Report { connect_nanos: 20, transfer_nanos: 400_000_000, first_connect_nanos: None }))
    );
}

#[test]
fn failed_connect_aborts_and_stays_aborted() {
    let mut bench = Bench::new(BenchTest::TlsTcp, 16);
    assert_eq!(bench.step(Event::Begin { at: 0 }), Action::Perform(Step::PrepareTls { name: "localhost" }));
    assert_eq!(bench.step(Event::Done { at: 1 }), Action::Perform(Step::TcpConnect { to: ep(8080) }));
    assert_eq!(bench.step(Event::Failed), Action::Abort);
    assert_eq!(bench.step(Event::Done { at: 2 }), Action::Halt);
    assert_eq!(bench.step(Event::Failed), Action::Halt);
    assert_eq!(bench.step(Event::Begin { at: 3 }), Action::Halt);
}

#[test]
fn failed_udp_send_aborts() {
    let mut bench = Bench::new(BenchTest::RawUdp, 16);
    bench.step(Event::Begin { at: 0 });
    bench.step(Event::Done { at: 1 });
    assert_eq!(bench.step(Event::Done { at: 2 }), Action::Perform(Step::Send { over: Channel::Udp, len: 16 }));
    assert_eq!(bench.step(Event::Failed), Action::Abort);
}

#[test]
fn events_out_of_order_are_ignored() {
    let mut bench = Bench::new(BenchTest::PlainTcp, 1);
    assert_eq!(bench.step(Event::Done { at: 1 }), Action::Halt);
    assert_eq!(bench.step(Event::Failed), Action::Halt);
    assert_eq!(bench.step(Event::Begin { at: 2 }), Action::Perform(Step::TcpConnect { to: ep(8080) }));
    assert_eq!(bench.step(Event::Begin { at: 3 }), Action::Halt);
}

#[test]
fn clock_going_backwards_gives_zero() {
    let actions = drive(BenchTest::PlainTcp, 1, &[500, 400, 450, 300]);
    assert_eq!(
        actions.last(),
        Some(&Action::Finish(Report { connect_nanos: 0, transfer_nanos: 0, first_connect_nanos: None }))
    );
}

#[test]
fn report_titles() {
    assert_eq!(report_title(BenchTest::PlainTcp), "📊 TCP RESULTS:");
    assert_eq!(report_title(BenchTest::TlsTcp), "📊 TLS-OVER-TCP RESULTS:");
    assert_eq!(report_title(BenchTest::RawUdp), "📊 RAW-UDP RESULTS:");
    assert_eq!(report_title(BenchTest::ResumedQuic), "📊 0-RTT QUIC RESULTS:");
}

#[test]
fn refused_early_data_falls_back_to_the_full_handshake() {
    let mut bench = Bench::new(BenchTest::ResumedQuic, 2);
    bench.step(Event::Begin { at: 0 });
    for t in [10, 300, 310] {
        bench.step(Event::Done { at: t });
    }
    assert_eq!(
        bench.step(Event::Done { at: 200_000_310 }),
        Action::Perform(Step::ResumeEarly { to: ep(8081), name: "localhost" })
    );
    assert_eq!(bench.step(Event::Refused), Action::Perform(Step::AwaitHandshake));
    assert_eq!(bench.step(Event::Refused), Action::Halt);
    assert_eq!(bench.step(Event::Done { at: 200_100_310 }), Action::Perform(Step::OpenStream));
    bench.step(Event::Done { at: 200_100_320 });
    bench.step(Event::Done { at: 200_100_330 });
    bench.step(Event::Done { at: 200_100_340 });
    assert_eq!(
        bench.step(Event::Done { at: 200_200_310 }),
        Action::Finish(Report { connect_nanos: 100_000, transfer_nanos: 100_000, first_connect_nanos: Some(290) })
    );
}

#[test]
fn refusal_outside_the_resumption_is_ignored() {
    let mut bench = Bench::new(BenchTest::TlsTcp, 2);
    bench.step(Event::Begin { at: 0 });
    assert_eq!(bench.step(Event::Refused), Action::Halt);
    assert_eq!(bench.step(Event::Done { at: 1 }), Action::Perform(Step::TcpConnect { to: ep(8080) }));
}

#[test]
fn narration_of_the_plain_quic_client() {
    let mut bench = Bench::new(BenchTest::ResumedQuic, 2);
    let mut printed = Vec::new();
    let mut record = |b: &Bench| {
        if let Some(line) = b.narration(true) {
            printed.push(line);
        }
        assert_eq!(b.narration(false), None);
    };
    bench.step(Event::Begin { at: 0 });
    record(&bench);
    for t in [10, 310, 320, 200_000_320, 200_000_400, 200_000_500, 200_000_600, 200_000_700, 200_000_800] {
        bench.step(Event::Done { at: t });
        record(&bench);
    }
    assert_eq!(
        printed,
        vec![
            Line::Text("🔒 [QUIC] Attempting 1st Connection (Initial 1-RTT Setup)..."),
            Line::Timed { label: "🟢 1st Connection Established in: ", nanos: 300 },
            Line::Text("\n⚡ [QUIC] Reconnecting via 0-RTT Early Resumption..."),
        ]
    );
}

#[test]
fn other_measurements_do_not_narrate() {
    let mut bench = Bench::new(BenchTest::TlsTcp, 2);
    bench.step(Event::Begin { at: 0 });
    for t in [1, 2, 3, 4] {
        assert_eq!(bench.narration(true), None);
        bench.step(Event::Done { at: t });
    }
}

#[test]
fn report_has_heading_and_two_timed_lines() {
    let r = Report { connect_nanos: 833_558_000, transfer_nanos: 882_200_000, first_connect_nanos: None };
    assert_eq!(
        report_lines(BenchTest::TlsTcp, r),
        vec![
            Line::Text("📊 TLS-OVER-TCP RESULTS:"),
            Line::Timed { label: "   Handshake/Connection Time: ", nanos: 833_558_000 },
            Line::Timed { label: "   Data Round-Trip Time:      ", nanos: 882_200_000 },
        ]
    );
    let lines = report_lines(BenchTest::ResumedQuic, Report { connect_nanos: 0, transfer_nanos: 0, first_connect_nanos: Some(5) });
    assert_eq!(lines[0], Line::Text("📊 0-RTT QUIC RESULTS:"));
    assert_eq!(lines.len(), 3);
}
