//! Which measurement a client runs, chosen by the `--protocol` argument.

use vstd::prelude::*;
use vstd::string::StringSliceAdditionalSpecFns;

verus! {

broadcast use vstd::utf8::encode_utf8_decode_utf8;

/// The round-trip measurements the clients can run.
#[derive(Clone, Copy, Debug, PartialEq, Eq, Structural)]
pub enum BenchTest {
    /// Plain TCP: connect, then write the payload and read it back.
    PlainTcp,
    /// TLS 1.3 over TCP: connect and handshake, then write and read back.
    TlsTcp,
    /// Raw UDP: send one datagram and wait a bounded time for the echo.
    RawUdp,
    /// QUIC: a first connection to obtain a session ticket, then a resumed
    /// connection over which the payload makes its round trip.
    ResumedQuic,
}

/// The measurement that the encrypted-transport client runs for `name`:
/// "tcp", "quic" or "udp"; any other name selects none.
pub open spec fn secure_client_choice(name: Seq<char>) -> Option<BenchTest> {
    if name == "tcp"@ {
        Some(BenchTest::TlsTcp)
    } else if name == "quic"@ {
        Some(BenchTest::ResumedQuic)
    } else if name == "udp"@ {
        Some(BenchTest::RawUdp)
    } else {
        None
    }
}

/// The measurement that the unencrypted-transport client runs for `name`:
/// "tcp" or "quic"; any other name selects none.
pub open spec fn plain_client_choice(name: Seq<char>) -> Option<BenchTest> {
    if name == "tcp"@ {
        Some(BenchTest::PlainTcp)
    } else if name == "quic"@ {
        Some(BenchTest::ResumedQuic)
    } else {
        None
    }
}

/// The hint printed when the encrypted-transport client gets an unknown protocol.
pub fn secure_client_usage() -> (hint: &'static str)
    ensures
        hint@ == "❌ Use --protocol tcp, quic, or udp"@,
{
    "❌ Use --protocol tcp, quic, or udp"
}

/// The hint printed when the unencrypted-transport client gets an unknown protocol.
pub fn plain_client_usage() -> (hint: &'static str)
    ensures
        hint@ == "❌ Use --protocol tcp or --protocol quic"@,
{
    "❌ Use --protocol tcp or --protocol quic"
}

/// Whether two byte strings are equal.
fn bytes_equal(a: &[u8], b: &[u8]) -> (eq: bool)
    ensures
        eq == (a@ == b@),
{
    if a.len() != b.len() {
        return false;
    }
    let mut i: usize = 0;
    while i < a.len()
        invariant
            a@.len() == b@.len(),
            i <= a@.len(),
            forall|j: int| 0 <= j < i ==> a@[j] == b@[j],
        decreases a@.len() - i,
    {
        if a[i] != b[i] {
            return false;
        }
        i = i + 1;
    }
    assert(a@ =~= b@);
    true
}

/// Whether two strings are equal, compared through their UTF-8 encodings.
fn str_equal(a: &str, b: &str) -> (eq: bool)
    ensures
        eq == (a@ == b@),
{
    let eq = bytes_equal(a.as_bytes(), b.as_bytes());
    proof {
        if eq {
            assert(vstd::utf8::decode_utf8(a.spec_bytes()) == a@);
            assert(vstd::utf8::decode_utf8(b.spec_bytes()) == b@);
        }
    }
    eq
}

/// Chooses the measurement of the encrypted-transport client.
pub fn parse_secure_client_protocol(name: &str) -> (choice: Option<BenchTest>)
    ensures
        choice == secure_client_choice(name@),
{
    if str_equal(name, "tcp") {
        Some(BenchTest::TlsTcp)
    } else if str_equal(name, "quic") {
        Some(BenchTest::ResumedQuic)
    } else if str_equal(name, "udp") {
        Some(BenchTest::RawUdp)
    } else {
        None
    }
}

/// Chooses the measurement of the unencrypted-transport client.
pub fn parse_plain_client_protocol(name: &str) -> (choice: Option<BenchTest>)
    ensures
        choice == plain_client_choice(name@),
{
    if str_equal(name, "tcp") {
        Some(BenchTest::PlainTcp)
    } else if str_equal(name, "quic") {
        Some(BenchTest::ResumedQuic)
    } else {
        None
    }
}

} // verus!
