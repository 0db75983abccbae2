//! What the two decode backends hand back, turned into one outcome: a
//! finished output buffer, or `None` for a failed decode.

use vstd::prelude::*;
use crate::layout::MeshDecodeConfig;

verus! {

/// Whether a direct-call codec that was given `capacity` bytes and reported
/// writing `written` of them may be trusted.
pub open spec fn direct_write_accepted(written: nat, capacity: nat) -> bool {
    0 < written <= capacity
}

/// The zero-filled buffer that the direct-call codec writes into: exactly
/// as many bytes as the layout requires.
pub fn direct_output_buffer(config: &MeshDecodeConfig) -> (r: Vec<u8>)
    requires
        config.wf(),
        config.spec_required_size() <= usize::MAX,
    ensures
        r@.len() == config.spec_required_size(),
        forall|i: int| 0 <= i < r@.len() ==> r@[i] == 0u8,
{
    let n = config.estimate_buffer_size();
    let mut buf: Vec<u8> = Vec::with_capacity(n);
    let mut i: usize = 0;
    while i < n
        invariant
            0 <= i <= n,
            buf@.len() == i,
            forall|k: int| 0 <= k < buf@.len() ==> buf@[k] == 0u8,
        decreases n - i,
    {
        buf.push(0u8);
        i = i + 1;
    }
    buf
}

/// Settles a direct-call decode. A report of no bytes, or of more bytes
/// than `buf` holds, is a failure; otherwise `buf` is cut to the reported
/// length.
pub fn accept_direct_write(buf: Vec<u8>, written: usize) -> (r: Option<Vec<u8>>)
    ensures
        r is Some <==> direct_write_accepted(written as nat, buf@.len()),
        r is Some ==> r->0@ == buf@.take(written as int),
        r is Some ==> r->0@.len() == written,
{
    if written == 0 || written > buf.len() {
        None
    } else {
        let mut out = buf;
        out.truncate(written);
        Some(out)
    }
}

/// Settles a sandboxed-worker decode. `result` is the buffer the worker
/// resolved with, or `None` where loading, lookup or decoding failed. Only
/// a buffer of exactly `expected_len` bytes is a success.
pub fn accept_worker_output(result: Option<Vec<u8>>, expected_len: usize) -> (r: Option<Vec<u8>>)
    ensures
        r is Some <==> (result is Some && result->0@.len() == expected_len),
        r is Some ==> r == result,
{
    match result {
        Some(buf) => {
            if buf.len() == expected_len {
                Some(buf)
            } else {
                None
            }
        },
        None => None,
    }
}

} // verus!
