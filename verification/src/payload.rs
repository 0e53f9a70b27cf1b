//! The message that each benchmark sends and expects back.

use vstd::prelude::*;

verus! {

/// The payload size, in bytes, when none is given.
pub const DEFAULT_PAYLOAD_SIZE: usize = 1024;

/// The payload of `size` bytes: all zero.
pub open spec fn payload_spec(size: nat) -> Seq<u8> {
    Seq::new(size, |_i: int| 0u8)
}

/// Builds the zero-filled payload of `size` bytes.
pub fn make_payload(size: usize) -> (payload: Vec<u8>)
    ensures
        payload@ == payload_spec(size as nat),
{
    let mut payload: Vec<u8> = Vec::new();
    let mut i: usize = 0;
    while i < size
        invariant
            i <= size,
            payload@ == payload_spec(i as nat),
        decreases size - i,
    {
        payload.push(0u8);
        i = i + 1;
        assert(payload@ =~= payload_spec(i as nat));
    }
    payload
}

} // verus!
