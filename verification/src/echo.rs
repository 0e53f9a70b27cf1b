//! The echo servers' decisions: what to send back and when to stop serving.
//!
//! The server driver reads into a buffer of [`ECHO_BUFFER_LEN`] bytes,
//! reports the outcome with [`EchoLoop::on_receive`], writes whatever reply
//! it is handed, and reports that write with [`EchoLoop::on_sent`].

use vstd::prelude::*;
use crate::endpoint::Service;

verus! {

/// Size of the buffer each echo server reads into.
pub const ECHO_BUFFER_LEN: usize = 65536;

/// The outcome of one read on a connection, stream or socket.
#[derive(Clone, Copy, Debug, PartialEq, Eq, Structural)]
pub enum Received {
    /// The first `n` bytes of the buffer hold what was read.
    Bytes(usize),
    /// The peer finished the stream.
    Closed,
    /// The read failed.
    Failed,
}

/// What the echo driver is asked to do next.
pub enum EchoAction {
    /// Send these bytes back (to the sender of the datagram, for UDP).
    Reply(Vec<u8>),
    /// Read again.
    Listen,
    /// Stop serving this connection or stream.
    Stop,
}

/// An [`EchoAction`] as a value.
pub enum EchoStep {
    Reply(Seq<u8>),
    Listen,
    Stop,
}

impl View for EchoAction {
    type V = EchoStep;

    open spec fn view(&self) -> EchoStep {
        match self {
            EchoAction::Reply(bytes) => EchoStep::Reply(bytes@),
            EchoAction::Listen => EchoStep::Listen,
            EchoAction::Stop => EchoStep::Stop,
        }
    }
}

/// The transition on a read outcome `r`, with the buffer holding `buf`:
/// whether the loop stays open, and what to do.
///
/// A TLS or QUIC stream ends on an empty read, on the end of the stream and
/// on a read error; otherwise the bytes read are sent back. The UDP socket
/// sends back every datagram, the empty one too, and keeps listening after
/// an error.
pub open spec fn receive_spec(service: Service, open: bool, r: Received, buf: Seq<u8>) -> (bool, EchoStep) {
    if !open {
        (false, EchoStep::Stop)
    } else {
        match r {
            Received::Bytes(n) => if n == 0 && service != Service::Udp {
                (false, EchoStep::Stop)
            } else {
                (true, EchoStep::Reply(buf.take(n as int)))
            },
            _ => if service == Service::Udp {
                (true, EchoStep::Listen)
            } else {
                (false, EchoStep::Stop)
            },
        }
    }
}

/// The transition on the outcome of sending a reply: a TLS connection stops
/// when its write fails; the QUIC stream and the UDP socket ignore the
/// outcome and read again.
pub open spec fn sent_spec(service: Service, open: bool, ok: bool) -> (bool, EchoStep) {
    if !open {
        (false, EchoStep::Stop)
    } else if service == Service::Tcp && !ok {
        (false, EchoStep::Stop)
    } else {
        (true, EchoStep::Listen)
    }
}

/// The echo loop of one TLS connection, one QUIC stream or the UDP socket.
pub struct EchoLoop {
    pub service: Service,
    /// Whether the loop still serves.
    pub open: bool,
}

impl EchoLoop {
    /// A loop that serves.
    pub fn new(service: Service) -> (l: EchoLoop)
        ensures
            l.service == service,
            l.open,
    {
        EchoLoop { service, open: true }
    }

    /// Decides on the outcome `r` of a read into `buf`.
    pub fn on_receive(&mut self, r: Received, buf: &[u8]) -> (action: EchoAction)
        requires
            r matches Received::Bytes(n) ==> n <= buf@.len(),
        ensures
            final(self).service == old(self).service,
            (final(self).open, action.view()) == receive_spec(old(self).service, old(self).open, r, buf@),
    {
        if !self.open {
            return EchoAction::Stop;
        }
        match r {
            Received::Bytes(n) => {
                if n == 0 && self.service != Service::Udp {
                    self.open = false;
                    EchoAction::Stop
                } else {
                    let mut reply: Vec<u8> = Vec::new();
                    let mut i: usize = 0;
                    while i < n
                        invariant
                            n <= buf@.len(),
                            i <= n,
                            reply@ == buf@.take(i as int),
                        decreases n - i,
                    {
                        reply.push(buf[i]);
                        i = i + 1;
                        assert(reply@ =~= buf@.take(i as int));
                    }
                    EchoAction::Reply(reply)
                }
            },
            _ => {
                if self.service == Service::Udp {
                    EchoAction::Listen
                } else {
                    self.open = false;
                    EchoAction::Stop
                }
            },
        }
    }

    /// Decides on the outcome of sending a reply: `ok` if it was sent.
    pub fn on_sent(&mut self, ok: bool) -> (action: EchoAction)
        ensures
            final(self).service == old(self).service,
            (final(self).open, action.view()) == sent_spec(old(self).service, old(self).open, ok),
    {
        if !self.open {
            EchoAction::Stop
        } else if self.service == Service::Tcp && !ok {
            self.open = false;
            EchoAction::Stop
        } else {
            EchoAction::Listen
        }
    }
}

/// One read and, if a reply is sent, the outcome of that write.
pub struct Exchange {
    pub received: Received,
    /// The buffer after the read.
    pub buf: Seq<u8>,
    /// Whether the reply, if any, was sent.
    pub sent_ok: bool,
}

/// The bytes sent back over `xs`, by a loop of `service` that is `open`.
pub open spec fn echoed(service: Service, open: bool, xs: Seq<Exchange>) -> Seq<u8>
    decreases xs.len(),
{
    if xs.len() == 0 {
        Seq::empty()
    } else {
        let x = xs[0];
        let (open1, step) = receive_spec(service, open, x.received, x.buf);
        match step {
            EchoStep::Reply(bytes) => {
                let (open2, _) = sent_spec(service, open1, x.sent_ok);
                bytes + echoed(service, open2, xs.drop_first())
            },
            _ => echoed(service, open1, xs.drop_first()),
        }
    }
}

/// All the bytes that arrived over `xs`, in order.
pub open spec fn arrived(xs: Seq<Exchange>) -> Seq<u8>
    decreases xs.len(),
{
    if xs.len() == 0 {
        Seq::empty()
    } else {
        let x = xs[0];
        let here = match x.received {
            Received::Bytes(n) => x.buf.take(n as int),
            _ => Seq::empty(),
        };
        here + arrived(xs.drop_first())
    }
}

/// Every read reports no more bytes than the buffer holds.
pub open spec fn reads_fit(xs: Seq<Exchange>) -> bool {
    forall|i: int| 0 <= i < xs.len() ==> ((#[trigger] xs[i]).received matches Received::Bytes(n) ==> n <= xs[i].buf.len())
}

/// Every read brought bytes and every reply was sent.
pub open spec fn uninterrupted(xs: Seq<Exchange>) -> bool {
    forall|i: int| 0 <= i < xs.len() ==> {
        &&& (#[trigger] xs[i]).received matches Received::Bytes(n) && n > 0
        &&& xs[i].sent_ok
    }
}

/// An echo loop only ever sends back bytes that arrived, in the order they
/// arrived: what it sends is a prefix of what arrived.
pub proof fn lemma_echo_is_prefix(service: Service, open: bool, xs: Seq<Exchange>)
    requires
        reads_fit(xs),
    ensures
        echoed(service, open, xs).is_prefix_of(arrived(xs)),
    decreases xs.len(),
{
    if xs.len() > 0 {
        let x = xs[0];
        let rest = xs.drop_first();
        assert(reads_fit(rest)) by {
            assert forall|i: int| 0 <= i < rest.len() implies ((#[trigger] rest[i]).received matches Received::Bytes(n) ==> n <= rest[i].buf.len()) by {
                assert(rest[i] == xs[i + 1]);
            }
        }
        let (open1, step) = receive_spec(service, open, x.received, x.buf);
        let (open2, _) = sent_spec(service, open1, x.sent_ok);
        lemma_echo_is_prefix(service, open1, rest);
        lemma_echo_is_prefix(service, open2, rest);
        lemma_nothing_after_stop(service, rest);
        let here = match x.received {
            Received::Bytes(n) => x.buf.take(n as int),
            _ => Seq::empty(),
        };
        assert(arrived(xs) == here + arrived(rest));
        match step {
            EchoStep::Reply(bytes) => {
                assert(bytes == here);
                let e = echoed(service, open2, rest);
                assert((bytes + e).is_prefix_of(here + arrived(rest))) by {
                    assert forall|i: int| 0 <= i < (bytes + e).len() implies (bytes + e)[i] == (here + arrived(rest))[i] by {
                        if i >= bytes.len() {
                            assert(e[i - bytes.len()] == arrived(rest)[i - bytes.len()]);
                        }
                    }
                }
            },
            _ => {
                if open1 {
                    assert(here.len() == 0);
                    assert(here + arrived(rest) =~= arrived(rest));
                } else {
                    assert(echoed(service, open1, rest) == Seq::<u8>::empty());
                }
            },
        }
    }
}

/// A loop that has stopped sends nothing more.
pub proof fn lemma_nothing_after_stop(service: Service, xs: Seq<Exchange>)
    ensures
        echoed(service, false, xs) == Seq::<u8>::empty(),
    decreases xs.len(),
{
    if xs.len() > 0 {
        lemma_nothing_after_stop(service, xs.drop_first());
    }
}

/// When every read brings bytes and every reply goes out, an open echo loop
/// sends back exactly what arrived.
pub proof fn lemma_echo_returns_everything(service: Service, xs: Seq<Exchange>)
    requires
        reads_fit(xs),
        uninterrupted(xs),
    ensures
        echoed(service, true, xs) == arrived(xs),
    decreases xs.len(),
{
    if xs.len() > 0 {
        let rest = xs.drop_first();
        assert(reads_fit(rest)) by {
            assert forall|i: int| 0 <= i < rest.len() implies ((#[trigger] rest[i]).received matches Received::Bytes(n) ==> n <= rest[i].buf.len()) by {
                assert(rest[i] == xs[i + 1]);
            }
        }
        assert(uninterrupted(rest)) by {
            assert forall|i: int| 0 <= i < rest.len() implies {
                &&& (#[trigger] rest[i]).received matches Received::Bytes(n) && n > 0
                &&& rest[i].sent_ok
            } by {
                assert(rest[i] == xs[i + 1]);
            }
        }
        assert(xs[0].received matches Received::Bytes(n) && n > 0);
        assert(xs[0].sent_ok);
        lemma_echo_returns_everything(service, rest);
    }
}

/// The UDP echo never stops: every datagram is sent back, whatever happens
/// to the sends, and every failed read is followed by another read.
pub proof fn lemma_udp_echoes_every_datagram(xs: Seq<Exchange>)
    requires
        reads_fit(xs),
    ensures
        echoed(Service::Udp, true, xs) == arrived(xs),
    decreases xs.len(),
{
    if xs.len() > 0 {
        let rest = xs.drop_first();
        assert(reads_fit(rest)) by {
            assert forall|i: int| 0 <= i < rest.len() implies ((#[trigger] rest[i]).received matches Received::Bytes(n) ==> n <= rest[i].buf.len()) by {
                assert(rest[i] == xs[i + 1]);
            }
        }
        lemma_udp_echoes_every_datagram(rest);
        let x = xs[0];
        match x.received {
            Received::Bytes(n) => {},
            _ => {
                assert(Seq::<u8>::empty() + arrived(rest) =~= arrived(rest));
            },
        }
    }
}

/// A TLS connection or a QUIC stream that is served stops on every read that
/// brings no bytes: an empty read, the end of the stream, or a failed read.
pub proof fn lemma_streams_stop_without_bytes(service: Service, r: Received, buf: Seq<u8>)
    requires
        service != Service::Udp,
        !(r matches Received::Bytes(n) && n > 0),
    ensures
        !receive_spec(service, true, r, buf).0,
        receive_spec(service, true, r, buf).1 is Stop,
{
}

/// A read that brings `n` bytes (for UDP, any datagram, the empty one too)
/// is answered with exactly the first `n` bytes of the buffer, and the loop
/// keeps serving.
pub proof fn lemma_read_bytes_are_echoed(service: Service, n: usize, buf: Seq<u8>)
    requires
        n <= buf.len(),
        n > 0 || service == Service::Udp,
    ensures
        receive_spec(service, true, Received::Bytes(n), buf).0,
        receive_spec(service, true, Received::Bytes(n), buf).1 == EchoStep::Reply(buf.subrange(0, n as int)),
{
}

/// No read closes the UDP socket: a failed one is followed by another read.
pub proof fn lemma_udp_keeps_serving(r: Received, buf: Seq<u8>)
    ensures
        receive_spec(Service::Udp, true, r, buf).0,
        !(receive_spec(Service::Udp, true, r, buf).1 is Stop),
{
}

/// After a reply: a TLS connection stops exactly when its write failed; a
/// QUIC stream and the UDP socket read again whatever became of the write.
pub proof fn lemma_after_reply(service: Service, ok: bool)
    ensures
        sent_spec(service, true, ok).0 == !(service == Service::Tcp && !ok),
        sent_spec(service, true, ok).0 ==> sent_spec(service, true, ok).1 is Listen,
        !sent_spec(service, true, ok).0 ==> sent_spec(service, true, ok).1 is Stop,
{
}

} // verus!
