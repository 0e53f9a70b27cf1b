//! What a measurement reports and prints, and how it is planned, stated
//! directly in terms of the clock readings, the payload length and the test.

use vstd::prelude::*;
use crate::bench::{
    narration_spec, plan_spec, report_lines_spec, report_title_spec, Action, BenchView, Channel, Event,
    Line, Report, Step,
};
use crate::bench_laws::{clean_events, lemma_complete_run, lemma_failure_ends, run, running};
use crate::endpoint::{service_endpoint, Endpoint, Service, LOOPBACK, QUIC_PORT};
use crate::protocol::{plain_client_choice, secure_client_choice, BenchTest};
use crate::payload::payload_spec;
use crate::bench::fresh;

verus! {

/// Clock readings that never go backwards.
pub open spec fn monotonic(times: Seq<u64>) -> bool {
    forall|i: int, j: int| 0 <= i <= j < times.len() ==> times[i] <= times[j]
}

/// A complete measurement, with a clock that never goes backwards, reports:
/// - plain TCP: the connection time is the TCP connect, the round trip
///   everything after it (the write and the exact read);
/// - TLS over TCP: the connection time runs from the start of the TCP
///   connect to the end of the TLS handshake, the round trip from there;
/// - raw UDP: the connection time covers binding and connecting the socket,
///   the round trip the send and the reply;
/// - QUIC: the connection time is that of the resumed connection alone (from
///   the end of the pause to the end of the resumption), the round trip from
///   there to the end of the exact read, and the first connection's time is
///   reported apart.
pub proof fn lemma_reported_times(test: BenchTest, len: usize, times: Seq<u64>)
    requires
        times.len() == plan_spec(test, len).len() + 1,
        monotonic(times),
    ensures
        run(fresh(test, len), clean_events(times)).1.last() == Action::Finish(match test {
            BenchTest::PlainTcp => Report {
                connect_nanos: (times[1] - times[0]) as u64,
                transfer_nanos: (times[3] - times[1]) as u64,
                first_connect_nanos: None,
            },
            BenchTest::TlsTcp => Report {
                connect_nanos: (times[3] - times[1]) as u64,
                transfer_nanos: (times[5] - times[3]) as u64,
                first_connect_nanos: None,
            },
            BenchTest::RawUdp => Report {
                connect_nanos: (times[2] - times[0]) as u64,
                transfer_nanos: (times[4] - times[2]) as u64,
                first_connect_nanos: None,
            },
            BenchTest::ResumedQuic => Report {
                connect_nanos: (times[5] - times[4]) as u64,
                transfer_nanos: (times[9] - times[5]) as u64,
                first_connect_nanos: Some((times[2] - times[1]) as u64),
            },
        }),
{
    lemma_complete_run(test, len, times);
    lemma_plan_shape(test, len, len);
    assert(times[0] <= times[1] && times[1] <= times[2] && times[2] <= times[3]);
    if times.len() > 5 {
        assert(times[3] <= times[4] && times[4] <= times[5]);
    }
    if times.len() > 9 {
        assert(times[5] <= times[9]);
    }
}

/// When the datagram echo does not come in time (or its receive fails), the
/// UDP measurement still finishes: its connection time covers binding and
/// connecting the socket, and its round trip is the full 1.5 s wait.
pub proof fn lemma_missed_reply_report(len: usize, times: Seq<u64>)
    requires
        times.len() == 4,
        monotonic(times),
    ensures
        run(fresh(BenchTest::RawUdp, len), clean_events(times).push(Event::Failed)).1.last()
            == Action::Finish(Report {
                connect_nanos: (times[2] - times[0]) as u64,
                transfer_nanos: 1_500_000_000,
                first_connect_nanos: None,
            }),
{
    lemma_plan_shape(BenchTest::RawUdp, len, len);
    lemma_failure_ends(BenchTest::RawUdp, len, times);
    assert(times[0] <= times[2]);
}

/// A step with its payload length set aside.
pub open spec fn without_length(s: Step) -> Step {
    match s {
        Step::Send { over, len } => Step::Send { over, len: 0 },
        Step::ReceiveExact { over, len } => Step::ReceiveExact { over, len: 0 },
        _ => s,
    }
}

/// The payload length changes nothing in a plan but the lengths written and
/// read, which are always the whole payload; the plans have three (plain
/// TCP), five (TLS), four (UDP) and nine (QUIC) steps.
pub proof fn lemma_plan_shape(test: BenchTest, a: usize, b: usize)
    ensures
        plan_spec(test, a).len() == plan_spec(test, b).len(),
        plan_spec(test, a).len() == (match test {
            BenchTest::PlainTcp => 3int,
            BenchTest::TlsTcp => 5int,
            BenchTest::RawUdp => 4int,
            BenchTest::ResumedQuic => 9int,
        }),
        forall|i: int| 0 <= i < plan_spec(test, a).len() ==>
            without_length(#[trigger] plan_spec(test, a)[i]) == without_length(plan_spec(test, b)[i]),
        forall|i: int| 0 <= i < plan_spec(test, a).len() ==> (match #[trigger] plan_spec(test, a)[i] {
            Step::Send { len, .. } => len == a,
            Step::ReceiveExact { len, .. } => len == a,
            _ => true,
        }),
{
}

/// Whatever the payload length, the QUIC measurement enables early data for
/// the client, closes its first connection with code 0 and reason
/// "session_saved", pauses 200 ms, and then resumes with 0-RTT towards the
/// QUIC service under the name "localhost".
pub proof fn lemma_quic_resumes_with_early_data(len: usize)
    ensures
        plan_spec(BenchTest::ResumedQuic, len)[0]
            == (Step::PrepareQuic { bind: Endpoint { ip: LOOPBACK, port: 0 }, early_data: true }),
        plan_spec(BenchTest::ResumedQuic, len)[2] == (Step::QuicClose { code: 0, reason: "session_saved" }),
        plan_spec(BenchTest::ResumedQuic, len)[3] == (Step::Pause { millis: 200 }),
        plan_spec(BenchTest::ResumedQuic, len)[4]
            == (Step::ResumeEarly { to: Endpoint { ip: LOOPBACK, port: QUIC_PORT }, name: "localhost" }),
        plan_spec(BenchTest::ResumedQuic, len)[6] == (Step::Send { over: Channel::QuicStream, len }),
{
}

/// Every printed report has exactly three lines: the heading of its test,
/// the connection time of the report, then its round-trip time.
pub proof fn lemma_report_lines(test: BenchTest, report: Report)
    ensures
        report_lines_spec(test, report).len() == 3,
        report_lines_spec(test, report)[0] == Line::Text(report_title_spec(test)),
        report_lines_spec(test, report)[1]
            == (Line::Timed { label: "   Handshake/Connection Time: ", nanos: report.connect_nanos }),
        report_lines_spec(test, report)[2]
            == (Line::Timed { label: "   Data Round-Trip Time:      ", nanos: report.transfer_nanos }),
{
}

/// Only the QUIC measurement narrates, and only when asked to.
pub proof fn lemma_only_quic_narrates(v: BenchView, narrated: bool)
    requires
        v.test != BenchTest::ResumedQuic || !narrated,
    ensures
        narration_spec(v, narrated) is None,
{
}

/// While the QUIC measurement runs, a narrating client announces the first
/// connection before making it, then reports how long it took, then
/// announces the resumption before starting it; before every other step it
/// says nothing.
pub proof fn lemma_quic_narration(len: usize, times: Seq<u64>)
    requires
        1 <= times.len() <= plan_spec(BenchTest::ResumedQuic, len).len(),
        monotonic(times),
    ensures
        narration_spec(running(BenchTest::ResumedQuic, len, times), true) == if times.len() == 2 {
            Some(Line::Text("🔒 [QUIC] Attempting 1st Connection (Initial 1-RTT Setup)..."))
        } else if times.len() == 3 {
            Some(Line::Timed { label: "🟢 1st Connection Established in: ", nanos: (times[2] - times[1]) as u64 })
        } else if times.len() == 5 {
            Some(Line::Text("\n⚡ [QUIC] Reconnecting via 0-RTT Early Resumption..."))
        } else {
            None::<Line>
        },
{
    if times.len() >= 3 {
        assert(times[1] <= times[2]);
    }
}

/// The two clients agree on "quic"; "tcp" is TLS over TCP for the encrypted
/// client exactly when it is plain TCP for the unencrypted one; only the
/// encrypted client knows UDP; and each client runs only its own kind of TCP.
pub proof fn lemma_clients_agree(name: Seq<char>)
    ensures
        plain_client_choice(name) == Some(BenchTest::ResumedQuic) <==> secure_client_choice(name) == Some(BenchTest::ResumedQuic),
        plain_client_choice(name) == Some(BenchTest::PlainTcp) <==> secure_client_choice(name) == Some(BenchTest::TlsTcp),
        plain_client_choice(name) is None <==> (secure_client_choice(name) is None || secure_client_choice(name) == Some(BenchTest::RawUdp)),
        plain_client_choice(name) != Some(BenchTest::TlsTcp) && plain_client_choice(name) != Some(BenchTest::RawUdp),
        secure_client_choice(name) != Some(BenchTest::PlainTcp),
{
}

/// The three services listen on the loopback address, each on its own port.
pub proof fn lemma_services_apart(a: Service, b: Service)
    ensures
        service_endpoint(a).ip == LOOPBACK,
        a != b ==> service_endpoint(a).port != service_endpoint(b).port,
{
}

/// The payload has the requested length and holds only zero bytes.
pub proof fn lemma_payload_is_zeros(size: nat)
    ensures
        payload_spec(size).len() == size,
        forall|i: int| 0 <= i < size ==> #[trigger] payload_spec(size)[i] == 0u8,
{
}

} // verus!
