//! One round-trip measurement as a state machine.
//!
//! The client driver performs each [`Step`] the machine asks for (network
//! I/O, awaiting, sleeping) and answers with an [`Event`] that carries the
//! monotonic clock reading, in nanoseconds, at which the step completed.
//! The machine decides what comes next and, at the end, which durations are
//! reported.

use vstd::prelude::*;
use crate::endpoint::{client_bind_endpoint, client_bind_spec, server_endpoint, service_endpoint, Endpoint, Service};
use crate::protocol::BenchTest;

verus! {

/// Size of the buffer into which a datagram reply is received.
pub const RECV_BUFFER_LEN: usize = 65536;

/// How long the UDP client waits for its echo, in milliseconds.
pub const UDP_REPLY_TIMEOUT_MS: u64 = 1500;

/// Pause between closing the first QUIC connection and resuming, in milliseconds.
pub const RESUMPTION_PAUSE_MS: u64 = 200;

/// Nanoseconds in a millisecond.
pub const NANOS_PER_MILLI: u64 = 1_000_000;

/// The application error code with which the first QUIC connection is closed.
pub const SESSION_CLOSE_CODE: u32 = 0;

/// The connection or socket over which payload bytes travel.
#[derive(Clone, Copy, Debug, PartialEq, Eq, Structural)]
pub enum Channel {
    /// The plain TCP connection.
    Tcp,
    /// The TLS session over the TCP connection.
    Tls,
    /// The connected UDP socket.
    Udp,
    /// The bidirectional QUIC stream.
    QuicStream,
}

/// The name under which the clients address the server (TLS and QUIC).
pub open spec fn server_name_spec() -> &'static str {
    "localhost"
}

/// The reason given when the first QUIC connection is closed.
pub open spec fn close_reason_spec() -> &'static str {
    "session_saved"
}

/// What the client driver is asked to do next.
#[derive(Clone, Copy, Debug, PartialEq, Eq)]
pub enum Step {
    /// Build the TLS client configuration and the connector, and the TLS
    /// name made of `name`.
    PrepareTls { name: &'static str },
    /// Build the QUIC client configuration, with early (0-RTT) data enabled
    /// when `early_data` is set, and open a client endpoint bound at `bind`.
    PrepareQuic { bind: Endpoint, early_data: bool },
    /// Open a TCP connection to `to`.
    TcpConnect { to: Endpoint },
    /// Run the TLS handshake over the open TCP connection.
    TlsHandshake,
    /// Bind a UDP socket at `at`.
    UdpBind { at: Endpoint },
    /// Connect the UDP socket to `to`.
    UdpConnect { to: Endpoint },
    /// Open a QUIC connection to `to` under the server name `name`, and wait
    /// for its handshake.
    QuicConnect { to: Endpoint, name: &'static str },
    /// Open a QUIC connection to `to` under the server name `name` from the
    /// cached session ticket and use it at once, with 0-RTT data; the driver
    /// answers [`Event::Refused`] when the endpoint cannot send early data.
    ResumeEarly { to: Endpoint, name: &'static str },
    /// Wait for the full handshake of the connection whose 0-RTT start was refused.
    AwaitHandshake,
    /// Close the current QUIC connection with application code `code` and
    /// the reason `reason`.
    QuicClose { code: u32, reason: &'static str },
    /// Sleep for `millis` milliseconds.
    Pause { millis: u64 },
    /// Open a bidirectional QUIC stream.
    OpenStream,
    /// Write the first `len` bytes of the payload over `over` (over UDP, in
    /// clear: the datagram service is unencrypted).
    Send { over: Channel, len: usize },
    /// Finish the sending side of the QUIC stream.
    FinishStream,
    /// Read exactly `len` bytes from `over`.
    ReceiveExact { over: Channel, len: usize },
    /// Receive one datagram into a buffer of `capacity` bytes, waiting at
    /// most `millis` milliseconds.
    ReceiveWithin { capacity: usize, millis: u64 },
}

/// The exact steps of `test` for a payload of `len` bytes, in order.
pub open spec fn plan_spec(test: BenchTest, len: usize) -> Seq<Step> {
    match test {
        BenchTest::PlainTcp => seq![
            Step::TcpConnect { to: service_endpoint(Service::Tcp) },
            Step::Send { over: Channel::Tcp, len },
            Step::ReceiveExact { over: Channel::Tcp, len },
        ],
        BenchTest::TlsTcp => seq![
            Step::PrepareTls { name: server_name_spec() },
            Step::TcpConnect { to: service_endpoint(Service::Tcp) },
            Step::TlsHandshake,
            Step::Send { over: Channel::Tls, len },
            Step::ReceiveExact { over: Channel::Tls, len },
        ],
        BenchTest::RawUdp => seq![
            Step::UdpBind { at: client_bind_spec() },
            Step::UdpConnect { to: service_endpoint(Service::Udp) },
            Step::Send { over: Channel::Udp, len },
            Step::ReceiveWithin { capacity: RECV_BUFFER_LEN, millis: UDP_REPLY_TIMEOUT_MS },
        ],
        BenchTest::ResumedQuic => seq![
            Step::PrepareQuic { bind: client_bind_spec(), early_data: true },
            Step::QuicConnect { to: service_endpoint(Service::Quic), name: server_name_spec() },
            Step::QuicClose { code: SESSION_CLOSE_CODE, reason: close_reason_spec() },
            Step::Pause { millis: RESUMPTION_PAUSE_MS },
            Step::ResumeEarly { to: service_endpoint(Service::Quic), name: server_name_spec() },
            Step::OpenStream,
            Step::Send { over: Channel::QuicStream, len },
            Step::FinishStream,
            Step::ReceiveExact { over: Channel::QuicStream, len },
        ],
    }
}

/// The steps of `test` for a payload of `len` bytes.
pub fn plan(test: BenchTest, len: usize) -> (steps: Vec<Step>)
    ensures
        steps@ == plan_spec(test, len),
        // every write sends the whole payload and every exact read expects all of it back
        forall|i: int| 0 <= i < steps@.len() ==> match #[trigger] steps@[i] {
            Step::Send { len: n, .. } => n == len,
            Step::ReceiveExact { len: n, .. } => n == len,
            _ => true,
        },
{
    let tcp = server_endpoint(Service::Tcp);
    let udp = server_endpoint(Service::Udp);
    let quic = server_endpoint(Service::Quic);
    let bind = client_bind_endpoint();
    let steps = match test {
        BenchTest::PlainTcp => vec![
            Step::TcpConnect { to: tcp },
            Step::Send { over: Channel::Tcp, len },
            Step::ReceiveExact { over: Channel::Tcp, len },
        ],
        BenchTest::TlsTcp => vec![
            Step::PrepareTls { name: "localhost" },
            Step::TcpConnect { to: tcp },
            Step::TlsHandshake,
            Step::Send { over: Channel::Tls, len },
            Step::ReceiveExact { over: Channel::Tls, len },
        ],
        BenchTest::RawUdp => vec![
            Step::UdpBind { at: bind },
            Step::UdpConnect { to: udp },
            Step::Send { over: Channel::Udp, len },
            Step::ReceiveWithin { capacity: RECV_BUFFER_LEN, millis: UDP_REPLY_TIMEOUT_MS },
        ],
        BenchTest::ResumedQuic => vec![
            Step::PrepareQuic { bind, early_data: true },
            Step::QuicConnect { to: quic, name: "localhost" },
            Step::QuicClose { code: SESSION_CLOSE_CODE, reason: "session_saved" },
            Step::Pause { millis: RESUMPTION_PAUSE_MS },
            Step::ResumeEarly { to: quic, name: "localhost" },
            Step::OpenStream,
            Step::Send { over: Channel::QuicStream, len },
            Step::FinishStream,
            Step::ReceiveExact { over: Channel::QuicStream, len },
        ],
    };
    assert(steps@ =~= plan_spec(test, len));
    steps
}

/// The durations that a finished measurement reports, in nanoseconds.
#[derive(Clone, Copy, Debug, PartialEq, Eq, Structural)]
pub struct Report {
    /// Time to establish the measured connection (for QUIC, the resumed one).
    pub connect_nanos: u64,
    /// Time from the established connection to the complete echo.
    pub transfer_nanos: u64,
    /// For QUIC, the time to establish the first, ticket-less connection.
    pub first_connect_nanos: Option<u64>,
}

/// Time from clock reading `from` to clock reading `to`; zero if the clock
/// went backwards.
pub open spec fn elapsed(from: u64, to: u64) -> u64 {
    if from <= to {
        (to - from) as u64
    } else {
        0
    }
}

/// The transfer time reported when no datagram reply came in time.
pub open spec fn udp_timeout_nanos() -> u64 {
    (UDP_REPLY_TIMEOUT_MS * NANOS_PER_MILLI) as u64
}

/// The index into the clock readings at which the measured connection starts.
///
/// Reading 0 is taken when the measurement begins, reading `i + 1` when step
/// `i` completes.
pub open spec fn connect_start(test: BenchTest) -> int {
    match test {
        BenchTest::PlainTcp => 0,
        BenchTest::TlsTcp => 1,
        BenchTest::RawUdp => 0,
        BenchTest::ResumedQuic => 4,
    }
}

/// The index into the clock readings at which the measured connection is up.
pub open spec fn connect_end(test: BenchTest) -> int {
    match test {
        BenchTest::PlainTcp => 1,
        BenchTest::TlsTcp => 3,
        BenchTest::RawUdp => 2,
        BenchTest::ResumedQuic => 5,
    }
}

/// What a measurement of `test` reports for the clock readings `times`
/// (reading 0 at the start, reading `i + 1` when step `i` completed).
/// `reply_missed` is set when the datagram echo did not arrive in time.
pub open spec fn report_spec(test: BenchTest, times: Seq<u64>, reply_missed: bool) -> Report {
    let connect = elapsed(times[connect_start(test)], times[connect_end(test)]);
    Report {
        connect_nanos: connect,
        transfer_nanos: if reply_missed {
            udp_timeout_nanos()
        } else {
            elapsed(times[connect_end(test)], times[times.len() - 1])
        },
        first_connect_nanos: match test {
            BenchTest::ResumedQuic => Some(elapsed(times[1], times[2])),
            _ => None,
        },
    }
}

/// The heading under which the report of `test` is printed.
pub open spec fn report_title_spec(test: BenchTest) -> &'static str {
    match test {
        BenchTest::PlainTcp => "📊 TCP RESULTS:",
        BenchTest::TlsTcp => "📊 TLS-OVER-TCP RESULTS:",
        BenchTest::RawUdp => "📊 RAW-UDP RESULTS:",
        BenchTest::ResumedQuic => "📊 0-RTT QUIC RESULTS:",
    }
}

/// The heading of the report of `test`.
pub fn report_title(test: BenchTest) -> (title: &'static str)
    ensures
        title == report_title_spec(test),
{
    match test {
        BenchTest::PlainTcp => "📊 TCP RESULTS:",
        BenchTest::TlsTcp => "📊 TLS-OVER-TCP RESULTS:",
        BenchTest::RawUdp => "📊 RAW-UDP RESULTS:",
        BenchTest::ResumedQuic => "📊 0-RTT QUIC RESULTS:",
    }
}

/// A line the client prints: text, or a label followed by a duration of
/// `nanos` nanoseconds.
#[derive(Clone, Copy, Debug, PartialEq, Eq)]
pub enum Line {
    Text(&'static str),
    Timed { label: &'static str, nanos: u64 },
}

/// The label of the connection time in a report.
pub open spec fn connect_label_spec() -> &'static str {
    "   Handshake/Connection Time: "
}

/// The label of the round-trip time in a report.
pub open spec fn round_trip_label_spec() -> &'static str {
    "   Data Round-Trip Time:      "
}

/// The lines of the printed report of `test`: the heading, the connection
/// time and the round-trip time, and nothing else.
pub open spec fn report_lines_spec(test: BenchTest, report: Report) -> Seq<Line> {
    seq![
        Line::Text(report_title_spec(test)),
        Line::Timed { label: connect_label_spec(), nanos: report.connect_nanos },
        Line::Timed { label: round_trip_label_spec(), nanos: report.transfer_nanos },
    ]
}

/// The lines to print for `report`, a report of `test`.
pub fn report_lines(test: BenchTest, report: Report) -> (lines: Vec<Line>)
    ensures
        lines@ == report_lines_spec(test, report),
{
    let lines = vec![
        Line::Text(report_title(test)),
        Line::Timed { label: "   Handshake/Connection Time: ", nanos: report.connect_nanos },
        Line::Timed { label: "   Data Round-Trip Time:      ", nanos: report.transfer_nanos },
    ];
    assert(lines@ =~= report_lines_spec(test, report));
    lines
}

/// Where a measurement stands.
#[derive(Clone, Copy, Debug, PartialEq, Eq, Structural)]
pub enum Status {
    /// Not begun.
    Ready,
    /// A step is in progress.
    Running,
    /// The report has been handed out.
    Finished,
    /// A step failed; the measurement stopped.
    Aborted,
}

/// What the client driver reports to the machine.
#[derive(Clone, Copy, Debug, PartialEq, Eq, Structural)]
pub enum Event {
    /// The measurement begins at clock reading `at`.
    Begin { at: u64 },
    /// The step in progress completed at clock reading `at`.
    Done { at: u64 },
    /// The step in progress failed (for a bounded receive: or timed out).
    Failed,
    /// The endpoint cannot start the resumed connection with 0-RTT data
    /// (it holds no usable session ticket); its handshake is still under way.
    Refused,
}

/// What the machine asks of the client driver.
#[derive(Clone, Copy, Debug, PartialEq, Eq)]
pub enum Action {
    /// Perform this step and report how it went.
    Perform(Step),
    /// The measurement is complete; print this report.
    Finish(Report),
    /// A step failed; the measurement ends with that step's error.
    Abort,
    /// The event does not fit the state; nothing to do.
    Halt,
}

/// The abstract state of a measurement.
pub struct BenchView {
    pub test: BenchTest,
    pub payload_len: usize,
    /// Clock readings so far: at the start, then after each completed step.
    pub times: Seq<u64>,
    pub status: Status,
    /// The resumed connection's 0-RTT start was refused and its full
    /// handshake is awaited instead.
    pub awaiting_handshake: bool,
}

/// A measurement that has not begun.
pub open spec fn fresh(test: BenchTest, payload_len: usize) -> BenchView {
    BenchView { test, payload_len, times: Seq::empty(), status: Status::Ready, awaiting_handshake: false }
}

/// One transition of the measurement: the next state and the action.
pub open spec fn step_spec(v: BenchView, e: Event) -> (BenchView, Action) {
    let plan = plan_spec(v.test, v.payload_len);
    match (v.status, e) {
        (Status::Ready, Event::Begin { at }) => (
            BenchView { times: seq![at], status: Status::Running, ..v },
            Action::Perform(plan[0]),
        ),
        (Status::Running, Event::Done { at }) => {
            let times = v.times.push(at);
            if times.len() == plan.len() + 1 {
                (
                    BenchView { times, status: Status::Finished, awaiting_handshake: false, ..v },
                    Action::Finish(report_spec(v.test, times, false)),
                )
            } else {
                (
                    BenchView { times, awaiting_handshake: false, ..v },
                    Action::Perform(plan[times.len() - 1]),
                )
            }
        },
        (Status::Running, Event::Refused) => {
            if plan[v.times.len() - 1] is ResumeEarly && !v.awaiting_handshake {
                (BenchView { awaiting_handshake: true, ..v }, Action::Perform(Step::AwaitHandshake))
            } else {
                (v, Action::Halt)
            }
        },
        (Status::Running, Event::Failed) => {
            if plan[v.times.len() - 1] is ReceiveWithin {
                (
                    BenchView { status: Status::Finished, ..v },
                    Action::Finish(report_spec(v.test, v.times, true)),
                )
            } else {
                (BenchView { status: Status::Aborted, ..v }, Action::Abort)
            }
        },
        _ => (v, Action::Halt),
    }
}

/// The line that the unencrypted client prints, when it narrates, before it
/// performs the step in progress: around the first QUIC connection, the
/// attempt, then how long it took, then the announcement of the resumption.
pub open spec fn narration_spec(v: BenchView, narrated: bool) -> Option<Line> {
    if narrated && v.test == BenchTest::ResumedQuic && v.status == Status::Running && !v.awaiting_handshake {
        if v.times.len() == 2 {
            Some(Line::Text("🔒 [QUIC] Attempting 1st Connection (Initial 1-RTT Setup)..."))
        } else if v.times.len() == 3 {
            Some(Line::Timed { label: "🟢 1st Connection Established in: ", nanos: elapsed(v.times[1], v.times[2]) })
        } else if v.times.len() == 5 {
            Some(Line::Text("\n⚡ [QUIC] Reconnecting via 0-RTT Early Resumption..."))
        } else {
            None
        }
    } else {
        None
    }
}

/// A measurement in progress.
pub struct Bench {
    test: BenchTest,
    payload_len: usize,
    steps: Vec<Step>,
    times: Vec<u64>,
    status: Status,
    awaiting_handshake: bool,
}

impl View for Bench {
    type V = BenchView;

    closed spec fn view(&self) -> BenchView {
        BenchView {
            test: self.test,
            payload_len: self.payload_len,
            times: self.times@,
            status: self.status,
            awaiting_handshake: self.awaiting_handshake,
        }
    }
}

/// Time from clock reading `from` to `to`, zero if the clock went backwards.
fn elapsed_nanos(from: u64, to: u64) -> (d: u64)
    ensures
        d == elapsed(from, to),
{
    if from <= to {
        to - from
    } else {
        0
    }
}

impl Bench {
    /// The machine's internal consistency: the stored steps are the plan,
    /// and the clock readings match the status.
    pub closed spec fn wf(&self) -> bool {
        &&& self.steps@ == plan_spec(self.test, self.payload_len)
        &&& (self.awaiting_handshake ==> self.status != Status::Ready)
        &&& match self.status {
            Status::Ready => self.times@.len() == 0,
            Status::Running => 1 <= self.times@.len() <= self.steps@.len(),
            Status::Finished => self.times@.len() >= 1,
            Status::Aborted => self.times@.len() >= 1,
        }
    }

    /// A measurement of `test` with a payload of `payload_len` bytes, not begun.
    pub fn new(test: BenchTest, payload_len: usize) -> (b: Bench)
        ensures
            b.wf(),
            b@ == fresh(test, payload_len),
    {
        Bench {
            test,
            payload_len,
            steps: plan(test, payload_len),
            times: Vec::new(),
            status: Status::Ready,
            awaiting_handshake: false,
        }
    }

    /// Which measurement this is.
    pub fn test(&self) -> (t: BenchTest)
        ensures
            t == self@.test,
    {
        self.test
    }

    /// The time the first QUIC connection took to establish, once it has.
    pub fn first_connect_nanos(&self) -> (d: Option<u64>)
        requires
            self.wf(),
        ensures
            d == (if self@.test == BenchTest::ResumedQuic && self@.times.len() >= 3 {
                Some(elapsed(self@.times[1], self@.times[2]))
            } else {
                None
            }),
    {
        if self.test == BenchTest::ResumedQuic && self.times.len() >= 3 {
            Some(elapsed_nanos(self.times[1], self.times[2]))
        } else {
            None
        }
    }

    /// The line to print before performing the step in progress, if the
    /// client narrates (`narrated`).
    pub fn narration(&self, narrated: bool) -> (line: Option<Line>)
        requires
            self.wf(),
        ensures
            line == narration_spec(self@, narrated),
    {
        if narrated && self.test == BenchTest::ResumedQuic && self.status == Status::Running
            && !self.awaiting_handshake {
            if self.times.len() == 2 {
                Some(Line::Text("🔒 [QUIC] Attempting 1st Connection (Initial 1-RTT Setup)..."))
            } else if self.times.len() == 3 {
                Some(Line::Timed {
                    label: "🟢 1st Connection Established in: ",
                    nanos: elapsed_nanos(self.times[1], self.times[2]),
                })
            } else if self.times.len() == 5 {
                Some(Line::Text("\n⚡ [QUIC] Reconnecting via 0-RTT Early Resumption..."))
            } else {
                None
            }
        } else {
            None
        }
    }

    /// The report for the clock readings gathered so far.
    fn report(&self, reply_missed: bool) -> (r: Report)
        requires
            self.wf(),
            self.times@.len() > connect_end(self.test),
        ensures
            r == report_spec(self.test, self.times@, reply_missed),
    {
        let (start, end): (usize, usize) = match self.test {
            BenchTest::PlainTcp => (0, 1),
            BenchTest::TlsTcp => (1, 3),
            BenchTest::RawUdp => (0, 2),
            BenchTest::ResumedQuic => (4, 5),
        };
        let connect_nanos = elapsed_nanos(self.times[start], self.times[end]);
        let transfer_nanos = if reply_missed {
            UDP_REPLY_TIMEOUT_MS * NANOS_PER_MILLI
        } else {
            elapsed_nanos(self.times[end], self.times[self.times.len() - 1])
        };
        let first_connect_nanos = match self.test {
            BenchTest::ResumedQuic => Some(elapsed_nanos(self.times[1], self.times[2])),
            _ => None,
        };
        Report { connect_nanos, transfer_nanos, first_connect_nanos }
    }

    /// Takes the driver's `event` and says what to do next.
    pub fn step(&mut self, event: Event) -> (action: Action)
        requires
            old(self).wf(),
        ensures
            final(self).wf(),
            (final(self)@, action) == step_spec(old(self)@, event),
    {
        match (self.status, event) {
            (Status::Ready, Event::Begin { at }) => {
                self.times.push(at);
                self.status = Status::Running;
                assert(self.times@ =~= seq![at]);
                Action::Perform(self.steps[0])
            },
            (Status::Running, Event::Done { at }) => {
                self.times.push(at);
                self.awaiting_handshake = false;
                if self.times.len() == self.steps.len() + 1 {
                    self.status = Status::Finished;
                    let r = self.report(false);
                    Action::Finish(r)
                } else {
                    Action::Perform(self.steps[self.times.len() - 1])
                }
            },
            (Status::Running, Event::Failed) => {
                let current = self.steps[self.times.len() - 1];
                if let Step::ReceiveWithin { .. } = current {
                    self.status = Status::Finished;
                    let r = self.report(true);
                    Action::Finish(r)
                } else {
                    self.status = Status::Aborted;
                    Action::Abort
                }
            },
            (Status::Running, Event::Refused) => {
                let current = self.steps[self.times.len() - 1];
                if let Step::ResumeEarly { .. } = current {
                    if !self.awaiting_handshake {
                        self.awaiting_handshake = true;
                        return Action::Perform(Step::AwaitHandshake);
                    }
                }
                Action::Halt
            },
            _ => Action::Halt,
        }
    }
}

} // verus!
