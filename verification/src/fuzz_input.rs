//! Interpretation of raw fuzzer input as a list of syscall numbers for the
//! whitelist filter builder.

use vstd::prelude::*;
use vstd::bytes::{
    lemma_auto_spec_u64_to_from_le_bytes, spec_u64_from_le_bytes, spec_u64_to_le_bytes,
    spec_u64_to_le_bytes_open, spec_u64_to_le_bytes_to_open, u64_from_le_bytes,
};
use vstd::slice::slice_subrange;

verus! {

/// Most syscalls that the whitelist filter builder accepts.
pub const MAX_FILTER_SYSCALLS: usize = 200;

/// The eight little-endian bytes of `x` in two's complement.
pub open spec fn le_bytes_of(x: i64) -> Seq<u8> {
    spec_u64_to_le_bytes_open(x as u64)
}

/// Whether `data` is usable: a positive multiple of eight bytes encoding at
/// most `MAX_FILTER_SYSCALLS` numbers.
pub open spec fn usable_input(data: Seq<u8>) -> bool {
    &&& data.len() >= 8
    &&& data.len() % 8 == 0
    &&& data.len() / 8 <= MAX_FILTER_SYSCALLS
}

/// Exactly the inputs whose length is a positive multiple of eight bytes, at
/// most eight bytes per accepted syscall, are usable.
pub proof fn lemma_usable_lengths(data: Seq<u8>)
    ensures
        usable_input(data) <==> (8 <= data.len() && data.len() % 8 == 0 && data.len() <= 8
            * MAX_FILTER_SYSCALLS),
{
}

/// Reads `data` as consecutive little-endian `i64` syscall numbers.
///
/// Returns `None` when `data` is shorter than eight bytes, not a multiple of
/// eight bytes, or holds more than `MAX_FILTER_SYSCALLS` numbers; otherwise
/// the numbers, the `i`-th being encoded by bytes `8 i .. 8 i + 8`.
pub fn syscalls_from_bytes(data: &[u8]) -> (r: Option<Vec<i64>>)
    ensures
        r is Some <==> usable_input(data@),
        r is Some <==> (8 <= data@.len() && data@.len() % 8 == 0 && data@.len() <= 8
            * MAX_FILTER_SYSCALLS),
        r matches Some(v) ==> {
            &&& v@.len() == data@.len() / 8
            &&& forall|i: int|
                0 <= i < v@.len() ==> #[trigger] le_bytes_of(v@[i]) == data@.subrange(
                    8 * i,
                    8 * i + 8,
                )
        },
{
    proof {
        lemma_usable_lengths(data@);
    }
    if data.len() < 8 || data.len() % 8 != 0 {
        return None;
    }
    let count = data.len() / 8;
    if count > MAX_FILTER_SYSCALLS {
        return None;
    }
    let mut out: Vec<i64> = Vec::new();
    let mut i: usize = 0;
    while i < count
        invariant
            count == data@.len() / 8,
            data@.len() == 8 * count,
            count <= MAX_FILTER_SYSCALLS,
            i <= count,
            out@.len() == i,
            forall|k: int|
                0 <= k < i ==> #[trigger] le_bytes_of(out@[k]) == data@.subrange(8 * k, 8 * k + 8),
        decreases count - i,
    {
        let chunk = slice_subrange(data, 8 * i, 8 * i + 8);
        let u = u64_from_le_bytes(chunk);
        let x = u as i64;
        proof {
            lemma_auto_spec_u64_to_from_le_bytes();
            assert((x as u64) == u) by (bit_vector)
                requires
                    x == u as i64,
            ;
            spec_u64_to_le_bytes_to_open(u);
            assert(spec_u64_to_le_bytes(spec_u64_from_le_bytes(chunk@)) == chunk@);
        }
        out.push(x);
        i = i + 1;
    }
    Some(out)
}

} // verus!
