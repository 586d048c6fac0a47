//! The handle-mode exporter.
//!
//! In handle mode the tagged result stays on the callee's heap and the
//! caller receives an opaque [`Handle`] for it. The caller's obligations are
//! the classic ones of manually managed memory: a handle may be used only
//! while it is live, and must be given back for exactly one release. The
//! [`HandleRegistry`] owns the heap slots; every contract below is stated
//! over its sequence of slots, so that liveness, the single-release rule and
//! freedom from leaks are all visible facts rather than conventions.

use vstd::prelude::*;

use crate::byte_view::{byte_view, effective_input};
use crate::ffi_cow::FFICow;
use crate::transform::Transform;

verus! {

/// An opaque ticket for one exported result. It carries no data a caller
/// can use directly; only the registry that issued it can look it up.
#[derive(Clone, Copy)]
pub struct Handle {
    id: usize,
}

impl Handle {
    /// The slot this handle denotes.
    pub closed spec fn id(self) -> nat {
        self.id as nat
    }
}

/// The heap of exported results. A slot holds `Some` result from the moment
/// it is exported until its one release, and `None` afterwards.
pub struct HandleRegistry {
    slots: Vec<Option<FFICow>>,
}

/// How many slots are still awaiting their release.
pub open spec fn live_count(s: Seq<Option<FFICow>>) -> nat
    decreases s.len(),
{
    if s.len() == 0 {
        0
    } else {
        live_count(s.drop_last()) + if s.last() is Some {
            1nat
        } else {
            0nat
        }
    }
}

impl HandleRegistry {
    /// The slots, in the order their handles were issued.
    pub closed spec fn slots_view(self) -> Seq<Option<FFICow>> {
        self.slots@
    }

    /// What the slot of `h` holds; `None` past the end or after release.
    pub open spec fn stored(self, h: Handle) -> Option<FFICow> {
        if h.id() < self.slots_view().len() {
            self.slots_view()[h.id() as int]
        } else {
            None
        }
    }

    /// A handle that was issued and not yet released.
    pub open spec fn is_live(self, h: Handle) -> bool {
        self.stored(h) is Some
    }

    pub fn new() -> (r: HandleRegistry)
        ensures
            r.slots_view() == Seq::<Option<FFICow>>::empty(),
    {
        HandleRegistry { slots: Vec::new() }
    }

    /// Runs the transformation over the effective input and exports the
    /// tagged result: the caller receives a fresh live handle and with it
    /// the obligation of one release. An absent source is rejected with no
    /// export at all. A pass-through is stored as a borrowed result — no
    /// allocation beyond the slot — and the stored bytes are exactly what
    /// the transformation produces standalone.
    pub fn encoding_encode_s<T: Transform>(
        &mut self,
        t: &T,
        src: Option<&[u8]>,
        len: usize,
    ) -> (r: Option<Handle>)
        requires
            src matches Some(s) ==> len <= s@.len(),
        ensures
            r is Some <==> src is Some,
            src is None ==> final(self).slots_view() == old(self).slots_view(),
            src matches Some(s) ==> r matches Some(h) && {
                let view = effective_input(s@, len as nat);
                &&& h.id() == old(self).slots_view().len()
                &&& final(self).slots_view().len() == old(self).slots_view().len() + 1
                &&& final(self).stored(h) matches Some(cow) && {
                    &&& cow.wf(view)
                    &&& cow.bytes(view) == t.result(view)
                    &&& cow.is_borrowed() <==> t.result(view) == view
                }
                &&& final(self).slots_view() == old(self).slots_view().push(
                    final(self).stored(h),
                )
            },
    {
        match byte_view(src, len) {
            None => None,
            Some(view) => {
                let out = t.apply(view);
                let cow = FFICow::from_output(out, view);
                let h = Handle { id: self.slots.len() };
                self.slots.push(Some(cow));
                Some(h)
            },
        }
    }

    /// The byte length of a live exported result, without consuming it.
    pub fn fficow_len(&self, h: Handle) -> (l: usize)
        requires
            self.is_live(h),
        ensures
            self.stored(h) matches Some(cow) && l == cow.spec_len(),
    {
        match &self.slots[h.id] {
            Some(cow) => cow.len(),
            None => vstd::pervasive::unreached(),
        }
    }

    /// How many exported results are still awaiting their release: the
    /// registry's live allocations, observable to a caller auditing its own
    /// release discipline.
    pub fn live_handles(&self) -> (n: usize)
        ensures
            n == live_count(self.slots_view()),
    {
        let total: usize = self.slots.len();
        let mut n: usize = 0;
        let mut i: usize = 0;
        proof {
            assert(self.slots_view().take(0) =~= Seq::<Option<FFICow>>::empty());
        }
        while i < total
            invariant
                total == self.slots_view().len(),
                0 <= i <= total,
                n <= i,
                n == live_count(self.slots_view().take(i as int)),
            decreases total - i,
        {
            proof {
                assert(self.slots_view().take(i as int + 1).drop_last() =~= self.slots_view().take(
                    i as int,
                ));
                assert(self.slots_view().take(i as int + 1).last() == self.slots_view()[i as int]);
            }
            if self.slots[i].is_some() {
                n = n + 1;
            }
            i = i + 1;
        }
        proof {
            assert(self.slots_view().take(total as int) =~= self.slots_view());
        }
        n
    }

    /// Releases a live exported result: the slot is reclaimed, every other
    /// slot is untouched, and the handle is live no more. Releasing a handle
    /// twice, or one this registry never issued, is excluded by the
    /// precondition — the single-owner discipline is the caller's to keep.
    pub fn fficow_free(&mut self, h: Handle)
        requires
            old(self).is_live(h),
        ensures
            !final(self).is_live(h),
            final(self).slots_view() == old(self).slots_view().update(h.id() as int, None),
    {
        self.slots[h.id] = None;
    }
}

/// A well-formed exported result reports as its length exactly the byte
/// length the transformation's result has standalone.
pub proof fn lemma_reported_length(cow: FFICow, view: Seq<u8>, result: Seq<u8>)
    requires
        cow.wf(view),
        cow.bytes(view) == result,
    ensures
        cow.spec_len() == result.len(),
{
    crate::ffi_cow::lemma_len_is_bytes_len(cow, view);
}

/// A well-formed sequence of export and single release leaks nothing: after
/// exporting into a fresh slot and releasing that same slot, exactly as many
/// slots are live as before.
pub proof fn lemma_single_release_restores_live_count(s: Seq<Option<FFICow>>, cow: FFICow)
    ensures
        live_count(s.push(Some(cow)).update(s.len() as int, None)) == live_count(s),
{
    assert(s.push(Some(cow)).update(s.len() as int, None) =~= s.push(None));
    assert(s.push(None).drop_last() =~= s);
}

} // verus!
