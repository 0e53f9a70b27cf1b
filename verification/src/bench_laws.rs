//! What holds of whole measurements, across many calls of `Bench::step`.

use vstd::prelude::*;
use crate::bench::{
    connect_start, elapsed, fresh, plan_spec, report_spec, step_spec, udp_timeout_nanos, Action,
    BenchView, Event, Status, Step,
};
use crate::protocol::BenchTest;

verus! {

/// The state and the actions after feeding `events` to a measurement in state `v`.
pub open spec fn run(v: BenchView, events: Seq<Event>) -> (BenchView, Seq<Action>)
    decreases events.len(),
{
    if events.len() == 0 {
        (v, Seq::empty())
    } else {
        let (v1, a) = step_spec(v, events[0]);
        let (v2, rest) = run(v1, events.drop_first());
        (v2, seq![a] + rest)
    }
}

/// The events of steps that all complete: at the clock readings `ts`.
pub open spec fn done_events(ts: Seq<u64>) -> Seq<Event> {
    Seq::new(ts.len(), |i: int| Event::Done { at: ts[i] })
}

/// The events of a measurement that begins at `times[0]` and whose steps
/// complete at `times[1]`, `times[2]`, ...
pub open spec fn clean_events(times: Seq<u64>) -> Seq<Event> {
    seq![Event::Begin { at: times[0] }] + done_events(times.drop_first())
}

/// The requests to perform `steps`, in order.
pub open spec fn performs(steps: Seq<Step>) -> Seq<Action> {
    Seq::new(steps.len(), |i: int| Action::Perform(steps[i]))
}

/// A measurement in progress with clock readings `times`.
pub open spec fn running(test: BenchTest, len: usize, times: Seq<u64>) -> BenchView {
    BenchView { test, payload_len: len, times, status: Status::Running, awaiting_handshake: false }
}

/// Feeding `a` and then `b` is feeding `a + b`.
pub proof fn lemma_run_concat(v: BenchView, a: Seq<Event>, b: Seq<Event>)
    ensures
        run(v, a + b) == ({
            let (v1, x) = run(v, a);
            let (v2, y) = run(v1, b);
            (v2, x + y)
        }),
    decreases a.len(),
{
    if a.len() == 0 {
        assert(a + b =~= b);
        let (v2, y) = run(v, b);
        assert(Seq::<Action>::empty() + y =~= y);
    } else {
        let (v1, first) = step_spec(v, a[0]);
        assert((a + b).drop_first() =~= a.drop_first() + b);
        lemma_run_concat(v1, a.drop_first(), b);
        let (w1, x1) = run(v1, a.drop_first());
        let (w2, y) = run(w1, b);
        assert(seq![first] + (x1 + y) =~= (seq![first] + x1) + y);
    }
}

/// Steps that complete move a measurement along its plan, one step each.
proof fn lemma_progress(test: BenchTest, len: usize, times: Seq<u64>, k: int)
    requires
        1 <= k <= times.len() <= plan_spec(test, len).len(),
    ensures
        run(running(test, len, times.take(k)), done_events(times.subrange(k, times.len() as int)))
            == (running(test, len, times), performs(plan_spec(test, len).subrange(k, times.len() as int))),
    decreases times.len() - k,
{
    let plan = plan_spec(test, len);
    let events = done_events(times.subrange(k, times.len() as int));
    if k == times.len() {
        assert(times.take(k) =~= times);
        assert(events =~= Seq::<Event>::empty());
        assert(performs(plan.subrange(k, times.len() as int)) =~= Seq::<Action>::empty());
    } else {
        let v = running(test, len, times.take(k));
        assert(times.take(k).push(times[k]) =~= times.take(k + 1));
        let (v1, a) = step_spec(v, events[0]);
        assert(v1 == running(test, len, times.take(k + 1)));
        assert(a == Action::Perform(plan[k]));
        assert(events.drop_first() =~= done_events(times.subrange(k + 1, times.len() as int)));
        lemma_progress(test, len, times, k + 1);
        assert(seq![a] + performs(plan.subrange(k + 1, times.len() as int))
            =~= performs(plan.subrange(k, times.len() as int)));
    }
}

/// A measurement that has begun and whose steps so far completed is running,
/// and has asked for exactly the steps of its plan up to the one in progress:
/// nothing is reported before the last step completes.
pub proof fn lemma_prefix(test: BenchTest, len: usize, times: Seq<u64>)
    requires
        1 <= times.len() <= plan_spec(test, len).len(),
    ensures
        run(fresh(test, len), clean_events(times))
            == (running(test, len, times), performs(plan_spec(test, len).take(times.len() as int))),
{
    let plan = plan_spec(test, len);
    let events = clean_events(times);
    let (v1, a) = step_spec(fresh(test, len), events[0]);
    assert(times.take(1) =~= seq![times[0]]);
    assert(v1 == running(test, len, times.take(1)));
    assert(events.drop_first() =~= done_events(times.subrange(1, times.len() as int)));
    lemma_progress(test, len, times, 1);
    assert(seq![a] + performs(plan.subrange(1, times.len() as int))
        =~= performs(plan.take(times.len() as int)));
}

/// A measurement whose steps all complete asks for exactly the steps of its
/// plan, in order, and then finishes with the report computed from the clock
/// readings.
pub proof fn lemma_complete_run(test: BenchTest, len: usize, times: Seq<u64>)
    requires
        times.len() == plan_spec(test, len).len() + 1,
    ensures
        run(fresh(test, len), clean_events(times)) == (
            BenchView { test, payload_len: len, times, status: Status::Finished, awaiting_handshake: false },
            performs(plan_spec(test, len)).push(Action::Finish(report_spec(test, times, false))),
        ),
{
    let plan = plan_spec(test, len);
    let n = plan.len() as int;
    let head = times.take(n);
    lemma_prefix(test, len, head);
    assert(clean_events(times) =~= clean_events(head) + seq![Event::Done { at: times[n] }]);
    lemma_run_concat(fresh(test, len), clean_events(head), seq![Event::Done { at: times[n] }]);
    assert(head.push(times[n]) =~= times);
    assert(plan.take(n) =~= plan);
    let last = seq![Event::Done { at: times[n] }];
    assert(last.drop_first() =~= Seq::<Event>::empty());
    let (v1, a) = step_spec(running(test, len, head), last[0]);
    assert(v1 == BenchView { test, payload_len: len, times, status: Status::Finished, awaiting_handshake: false });
    assert(a == Action::Finish(report_spec(test, times, false)));
    assert(run(v1, last.drop_first()) == (v1, Seq::<Action>::empty()));
    assert(run(running(test, len, head), last) == (v1, seq![a] + Seq::<Action>::empty()));
    assert(performs(plan.take(n)) + (seq![a] + Seq::<Action>::empty())
        =~= performs(plan).push(a));
}

/// A step that fails ends the measurement: with the timeout report when it
/// is the bounded wait for the datagram echo (the last step of the UDP
/// measurement), and otherwise with an abort.
pub proof fn lemma_failure_ends(test: BenchTest, len: usize, times: Seq<u64>)
    requires
        1 <= times.len() <= plan_spec(test, len).len(),
    ensures
        ({
            let (v, actions) = run(fresh(test, len), clean_events(times).push(Event::Failed));
            &&& actions.drop_last() == performs(plan_spec(test, len).take(times.len() as int))
            &&& if test == BenchTest::RawUdp && times.len() == plan_spec(test, len).len() {
                &&& v.status == Status::Finished
                &&& actions.last() == Action::Finish(report_spec(test, times, true))
                &&& report_spec(test, times, true).transfer_nanos == 1_500_000_000
            } else {
                &&& v.status == Status::Aborted
                &&& actions.last() == Action::Abort
            }
        }),
{
    lemma_prefix(test, len, times);
    let failed = seq![Event::Failed];
    assert(clean_events(times).push(Event::Failed) =~= clean_events(times) + failed);
    lemma_run_concat(fresh(test, len), clean_events(times), failed);
    assert(failed.drop_first() =~= Seq::<Event>::empty());
    let (v1, a) = step_spec(running(test, len, times), Event::Failed);
    assert(run(v1, failed.drop_first()) == (v1, Seq::<Action>::empty()));
    assert(run(running(test, len, times), failed) == (v1, seq![a] + Seq::<Action>::empty()));
    let prefix = performs(plan_spec(test, len).take(times.len() as int));
    assert((prefix + (seq![a] + Seq::<Action>::empty())).last() == a);
    assert((prefix + (seq![a] + Seq::<Action>::empty())).drop_last() =~= prefix);
    let plan = plan_spec(test, len);
    assert(plan[times.len() - 1] is ReceiveWithin <==> (test == BenchTest::RawUdp && times.len() == plan.len()));
    assert(udp_timeout_nanos() == 1_500_000_000);
}

/// Once a measurement has finished or aborted, no event changes it and none
/// asks for anything.
pub proof fn lemma_stopped_stays(v: BenchView, events: Seq<Event>)
    requires
        v.status == Status::Finished || v.status == Status::Aborted,
    ensures
        run(v, events) == (v, Seq::new(events.len(), |_i: int| Action::Halt)),
    decreases events.len(),
{
    if events.len() > 0 {
        lemma_stopped_stays(v, events.drop_first());
        assert(seq![Action::Halt] + Seq::new((events.len() - 1) as nat, |_i: int| Action::Halt)
            =~= Seq::new(events.len(), |_i: int| Action::Halt));
    }
}

/// When the clock never goes backwards, the connection time and the transfer
/// time of a complete measurement add up to the time from the start of the
/// measured connection to the end of the echo; for QUIC the first connection
/// time is the time its first connect step took.
pub proof fn lemma_durations_add_up(test: BenchTest, len: usize, times: Seq<u64>)
    requires
        times.len() == plan_spec(test, len).len() + 1,
        forall|i: int, j: int| 0 <= i <= j < times.len() ==> times[i] <= times[j],
    ensures
        ({
            let r = report_spec(test, times, false);
            &&& r.connect_nanos + r.transfer_nanos == times[times.len() - 1] - times[connect_start(test)]
            &&& r.first_connect_nanos == if test == BenchTest::ResumedQuic {
                Some((times[2] - times[1]) as u64)
            } else {
                None::<u64>
            }
        }),
{
}

/// When the resumed QUIC connection cannot start with 0-RTT data, the
/// measurement waits for its full handshake instead and otherwise runs as if
/// the resumption had gone through: the same later steps, and the report
/// computed from the same clock readings (the resumed connection's time
/// ending when its handshake completes).
pub proof fn lemma_early_data_fallback(len: usize, times: Seq<u64>)
    requires
        times.len() == plan_spec(BenchTest::ResumedQuic, len).len() + 1,
    ensures
        ({
            let test = BenchTest::ResumedQuic;
            let plan = plan_spec(test, len);
            let events = clean_events(times.take(5)) + seq![Event::Refused] + done_events(times.skip(5));
            run(fresh(test, len), events) == (
                BenchView { test, payload_len: len, times, status: Status::Finished, awaiting_handshake: false },
                performs(plan.take(5)).push(Action::Perform(Step::AwaitHandshake))
                    + performs(plan.skip(5)).push(Action::Finish(report_spec(test, times, false))),
            )
        }),
{
    let test = BenchTest::ResumedQuic;
    let plan = plan_spec(test, len);
    let n = plan.len() as int;
    let head = times.take(5);
    let mid = times.take(n);
    assert(head.take(5) =~= head);
    lemma_prefix(test, len, head);
    // the refusal
    let refused = seq![Event::Refused];
    let waiting = BenchView { awaiting_handshake: true, ..running(test, len, head) };
    let (w1, a1) = step_spec(running(test, len, head), Event::Refused);
    assert(w1 == waiting);
    assert(a1 == Action::Perform(Step::AwaitHandshake));
    assert(run(w1, refused.drop_first()) == (w1, Seq::<Action>::empty()));
    assert(run(running(test, len, head), refused) == (w1, seq![a1] + Seq::<Action>::empty()));
    // the awaited handshake completes
    let (w2, a2) = step_spec(waiting, Event::Done { at: times[5] });
    assert(head.push(times[5]) =~= times.take(6));
    assert(w2 == running(test, len, times.take(6)));
    assert(a2 == Action::Perform(plan[5]));
    // the rest, up to the last step
    assert(mid.take(6) =~= times.take(6));
    lemma_progress(test, len, mid, 6);
    let (w3, a3) = step_spec(running(test, len, mid), Event::Done { at: times[n] });
    assert(mid.push(times[n]) =~= times);
    let last = seq![Event::Done { at: times[n] }];
    assert(run(w3, last.drop_first()) == (w3, Seq::<Action>::empty()));
    assert(run(running(test, len, mid), last) == (w3, seq![a3] + Seq::<Action>::empty()));
    let after = done_events(times.skip(5));
    let rest = done_events(mid.subrange(6, n));
    assert(after =~= seq![Event::Done { at: times[5] }] + (rest + last));
    assert(after.drop_first() =~= rest + last);
    lemma_run_concat(running(test, len, times.take(6)), rest, last);
    assert(run(waiting, after) == (w3, seq![a2] + (performs(plan.subrange(6, n)) + (seq![a3] + Seq::<Action>::empty()))));
    let events = clean_events(head) + refused + after;
    lemma_run_concat(fresh(test, len), clean_events(head) + refused, after);
    lemma_run_concat(fresh(test, len), clean_events(head), refused);
    let pre = performs(plan.take(5));
    assert(performs(plan.skip(5)) =~= seq![a2] + performs(plan.subrange(6, n)));
    assert((pre + (seq![a1] + Seq::<Action>::empty())) + (seq![a2] + (performs(plan.subrange(6, n)) + (seq![a3] + Seq::<Action>::empty())))
        =~= pre.push(a1) + performs(plan.skip(5)).push(a3));
}

} // verus!
