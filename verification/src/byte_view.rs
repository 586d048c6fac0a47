//! The byte-view adapter: from a caller-supplied, possibly absent byte
//! source to the read-only view the transformation runs over.
//!
//! Two calling conventions share one adapter. With an explicit length the
//! view is exactly the first `len` bytes of the source. A length of zero
//! deliberately switches to the terminated convention: the view runs up to,
//! and not including, the first zero byte (or to the end when there is
//! none). An absent source stands for a null pointer and is rejected; byte
//! content is never inspected beyond the terminator scan, and nothing is
//! copied.

use vstd::prelude::*;

verus! {

/// The length of the prefix of `s` that lies before its first zero byte;
/// the whole of `s` when no byte is zero.
pub open spec fn terminated_len(s: Seq<u8>) -> nat
    decreases s.len(),
{
    if s.len() == 0 {
        0
    } else if s[0] == 0 {
        0
    } else {
        1 + terminated_len(s.drop_first())
    }
}

/// The effective input length under the dual convention: `len` itself when
/// it is positive, the terminated prefix length when `len` is zero.
pub open spec fn effective_len(s: Seq<u8>, len: nat) -> nat {
    if len == 0 {
        terminated_len(s)
    } else {
        len
    }
}

/// The effective input: the view the transformation will see.
pub open spec fn effective_input(s: Seq<u8>, len: nat) -> Seq<u8> {
    s.take(effective_len(s, len) as int)
}

/// A scan that stopped at `i` because `s[i]` is zero, or at the end, having
/// seen no zero before, has found the terminated prefix length.
proof fn lemma_terminated_len_of_scan(s: Seq<u8>, i: int)
    requires
        0 <= i <= s.len(),
        forall|j: int| 0 <= j < i ==> s[j] != 0,
        i < s.len() ==> s[i] == 0,
    ensures
        terminated_len(s) == i,
    decreases s.len(),
{
    if s.len() > 0 && s[0] != 0 {
        lemma_terminated_len_of_scan(s.drop_first(), i - 1);
    }
}

/// Adapts a caller-supplied source to the read-only view of exactly the
/// effective input bytes: `None` exactly when the source is absent. No copy
/// is made; the view is a subslice of the source.
pub fn byte_view<'a>(src: Option<&'a [u8]>, len: usize) -> (r: Option<&'a [u8]>)
    requires
        src matches Some(s) ==> len <= s@.len(),
    ensures
        r is Some <==> src is Some,
        src matches Some(s) ==> (r matches Some(v) && v@ == effective_input(s@, len as nat)),
{
    match src {
        None => None,
        Some(s) => {
            if len > 0 {
                Some(vstd::slice::slice_subrange(s, 0, len))
            } else {
                let n: usize = s.len();
                let mut i: usize = 0;
                while i < n && *vstd::slice::slice_index_get(s, i) != 0
                    invariant
                        n == s@.len(),
                        0 <= i <= n,
                        forall|j: int| 0 <= j < i ==> s@[j] != 0,
                    decreases n - i,
                {
                    i = i + 1;
                }
                proof {
                    lemma_terminated_len_of_scan(s@, i as int);
                }
                Some(vstd::slice::slice_subrange(s, 0, i))
            }
        },
    }
}

} // verus!
