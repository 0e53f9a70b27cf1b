//! Building blocks of a transport benchmark: which protocol a client runs,
//! the exact steps of each round-trip measurement and how the timings are
//! derived from them, the echo servers' decisions, and the TLS/QUIC setup.

pub mod endpoint;
pub mod payload;
pub mod protocol;
pub mod bench;
pub mod bench_laws;
pub mod echo;
pub mod setup;
pub mod measure_laws;
