//! The buffer-mode exporter: capacity negotiation over caller-owned memory.
//!
//! The transformed length is not known until the transformation has run, and
//! the caller must not be made to over-allocate on speculation. So the
//! protocol has two phases. The caller offers a buffer and a capacity cell
//! holding the buffer's usable size. The callee first applies an *advisory*
//! pre-check — the input length is a lower bound on the space needed, under
//! the common assumption that a transformation does not grow its input — and
//! fails fast when even that bound exceeds the offer. Otherwise it runs the
//! transformation, writes the *authoritative* requirement (result length
//! plus one byte for the terminator) into the capacity cell whether or not
//! the copy can proceed, and only copies when the result and its terminator
//! truly fit. A failed call therefore always teaches the caller a size to
//! retry with, and never touches the buffer; a successful call leaves the
//! result, then a zero terminator, then the untouched tail of the buffer.
//!
//! The pre-check is advisory only: passing it never implies success, and the
//! authoritative check is never skipped.

use vstd::prelude::*;

use crate::byte_view::{byte_view, effective_input};
use crate::ffi_cow::FFICow;
use crate::transform::Transform;

verus! {

/// A required capacity, clamped to what a `usize` cell can report.
pub open spec fn clamped(n: nat) -> nat {
    if n > usize::MAX as nat {
        usize::MAX as nat
    } else {
        n
    }
}

/// The advisory pre-check: the input alone already overflows the offer.
pub open spec fn advisory_rejects(input_len: nat, cap: nat) -> bool {
    input_len > cap
}

/// When the negotiation succeeds: the offer passes the advisory bound and
/// truly holds the result together with its terminator.
pub open spec fn accepts(input_len: nat, result_len: nat, cap: nat) -> bool {
    input_len <= cap && result_len < cap
}

/// What the capacity cell holds after the call: the advisory lower bound
/// when the fast path rejected, the authoritative requirement otherwise.
pub open spec fn reported_capacity(input_len: nat, result_len: nat, cap: nat) -> nat {
    if advisory_rejects(input_len, cap) {
        input_len + 1
    } else {
        result_len + 1
    }
}

/// Runs the transformation over the effective input and copies the result
/// into the caller's buffer under the negotiation protocol. Returns `0` on
/// success and `-1` on failure; an absent source fails without writing
/// anything. On every other call the capacity cell is left holding the
/// reported requirement, success or not. On success the buffer holds the
/// result, a zero terminator, and its own untouched tail; on failure it is
/// untouched.
pub fn encoding_encode<T: Transform>(
    t: &T,
    src: Option<&[u8]>,
    len: usize,
    buf: &mut Vec<u8>,
    bufcap: &mut usize,
) -> (r: i32)
    requires
        src matches Some(s) ==> len <= s@.len(),
        *old(bufcap) <= old(buf)@.len(),
    ensures
        r == 0 || r == -1,
        final(buf)@.len() == old(buf)@.len(),
        src is None ==> r == -1 && *final(bufcap) == *old(bufcap) && final(buf)@ == old(buf)@,
        src matches Some(s) ==> {
            let view = effective_input(s@, len as nat);
            let result = t.result(view);
            let cap = *old(bufcap) as nat;
            &&& (r == 0 <==> accepts(view.len(), result.len(), cap))
            &&& *final(bufcap) == clamped(reported_capacity(view.len(), result.len(), cap))
            &&& r == 0 ==> final(buf)@ == result + seq![0u8] + old(buf)@.skip(
                result.len() as int + 1,
            )
            &&& r == -1 ==> final(buf)@ == old(buf)@
        },
{
    let view = match byte_view(src, len) {
        None => {
            return -1;
        },
        Some(v) => v,
    };
    let cap: usize = *bufcap;
    let min_len: usize = view.len();
    if min_len > cap {
        *bufcap = if min_len == usize::MAX {
            usize::MAX
        } else {
            min_len + 1
        };
        return -1;
    }
    let out = t.apply(view);
    let cow = FFICow::from_output(out, view);
    let l: usize = cow.len();
    *bufcap = if l == usize::MAX {
        usize::MAX
    } else {
        l + 1
    };
    if l >= cap {
        return -1;
    }
    let data = cow.as_slice(view);
    let ghost buf0 = buf@;
    let mut i: usize = 0;
    while i < l
        invariant
            0 <= i <= l,
            l < cap <= buf0.len(),
            buf@.len() == buf0.len(),
            data@.len() == l,
            buf@ == data@.take(i as int) + buf0.skip(i as int),
        decreases l - i,
    {
        buf[i] = *vstd::slice::slice_index_get(data, i);
        proof {
            assert(data@.take(i as int).push(data@[i as int]) =~= data@.take(i as int + 1));
            assert((data@.take(i as int) + buf0.skip(i as int)).update(i as int, data@[i as int])
                =~= data@.take(i as int + 1) + buf0.skip(i as int + 1));
        }
        i = i + 1;
    }
    buf[l] = 0;
    proof {
        assert(data@.take(l as int) =~= data@);
        assert((data@ + buf0.skip(l as int)).update(l as int, 0u8) =~= data@ + seq![0u8]
            + buf0.skip(l as int + 1));
    }
    0
}

/// A first call offering no capacity at all always fails; for a
/// length-preserving transformation the cell then reports exactly the
/// authoritative requirement, and every retry offering at least that much
/// is accepted.
pub proof fn lemma_zero_capacity_retry(input_len: nat, result_len: nat)
    requires
        result_len == input_len,
    ensures
        !accepts(input_len, result_len, 0),
        reported_capacity(input_len, result_len, 0) == result_len + 1,
        forall|cap: nat|
            cap >= reported_capacity(input_len, result_len, 0) ==> accepts(
                input_len,
                result_len,
                cap,
            ),
{
}

/// Once the authoritative requirement is known it suffices: whenever the
/// input is no longer than the result and its terminator, an offer of
/// exactly the reported requirement is accepted.
pub proof fn lemma_reported_capacity_suffices(input_len: nat, result_len: nat)
    requires
        input_len <= result_len + 1,
    ensures
        accepts(input_len, result_len, result_len + 1),
{
}

/// The pre-check is advisory only: an offer it lets through is still
/// rejected whenever the result and its terminator do not truly fit.
pub proof fn lemma_authoritative_check_governs(input_len: nat, result_len: nat, cap: nat)
    requires
        !advisory_rejects(input_len, cap),
        result_len >= cap,
    ensures
        !accepts(input_len, result_len, cap),
{
}

} // verus!
