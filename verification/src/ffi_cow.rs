//! The ownership-tagged result of a transformation.
//!
//! A transformation over a caller-supplied byte source ends in one of two
//! states: the result *is* the source (pass-through, nothing was allocated),
//! or the result is a fresh allocation the caller now owns. [`FFICow`] keeps
//! the two apart with an explicit tag, so the length can be read without
//! knowing which side is active, and so that a pass-through never forces a
//! copy. The borrowed side carries only a length; its bytes are, by
//! construction, exactly the bytes of the source it was built over, which is
//! why every specification about a borrowed result is stated relative to that
//! source sequence.

use vstd::prelude::*;

use crate::transform::TransformOutput;

verus! {

/// A result that is a view of the source bytes: nothing owned, nothing to
/// release. `len` always equals the length of the source it was built over.
pub struct FFIStr {
    len: usize,
}

/// A result that owns a fresh buffer of bytes.
pub struct FFIString {
    buf: Vec<u8>,
}

/// An ownership-tagged transformation result: either a view of the source
/// (`Borrowed`) or a fresh allocation (`Owned`). Exactly one variant is
/// active; the tag decides which release action is owed.
pub enum FFICow {
    Borrowed(FFIStr),
    Owned(FFIString),
}

impl FFIStr {
    /// A view covering the whole of `source`.
    pub fn from_source(source: &[u8]) -> (r: FFIStr)
        ensures
            r.spec_len() == source@.len(),
    {
        FFIStr { len: source.len() }
    }

    pub closed spec fn spec_len(self) -> nat {
        self.len as nat
    }
}

impl FFIString {
    /// Takes ownership of a freshly produced buffer.
    pub fn from_buffer(buf: Vec<u8>) -> (r: FFIString)
        ensures
            r.spec_bytes() == buf@,
    {
        FFIString { buf }
    }

    pub closed spec fn spec_bytes(self) -> Seq<u8> {
        self.buf@
    }
}

impl FFICow {
    /// Well-formed over `source`: a borrowed result records exactly the
    /// source's length, so its length can be reported without the source.
    pub open spec fn wf(self, source: Seq<u8>) -> bool {
        match self {
            FFICow::Borrowed(fs) => fs.spec_len() == source.len(),
            FFICow::Owned(_) => true,
        }
    }

    /// The bytes this result stands for, given the source it was built over.
    pub open spec fn bytes(self, source: Seq<u8>) -> Seq<u8> {
        match self {
            FFICow::Borrowed(_) => source,
            FFICow::Owned(fs) => fs.spec_bytes(),
        }
    }

    /// The stored length: what `len` reports without consulting the source.
    pub open spec fn spec_len(self) -> nat {
        match self {
            FFICow::Borrowed(fs) => fs.spec_len(),
            FFICow::Owned(fs) => fs.spec_bytes().len(),
        }
    }

    pub open spec fn is_borrowed(self) -> bool {
        self matches FFICow::Borrowed(_)
    }

    /// Wraps the source itself: the pass-through outcome. No allocation.
    pub fn wrap_borrowed(source: &[u8]) -> (r: FFICow)
        ensures
            r.is_borrowed(),
            r.wf(source@),
            r.bytes(source@) == source@,
    {
        FFICow::Borrowed(FFIStr::from_source(source))
    }

    /// Wraps a fresh buffer: the caller of the boundary now owns it.
    pub fn wrap_owned(buf: Vec<u8>) -> (r: FFICow)
        ensures
            !r.is_borrowed(),
            forall|source: Seq<u8>| r.wf(source) && #[trigger] r.bytes(source) == buf@,
    {
        FFICow::Owned(FFIString::from_buffer(buf))
    }

    /// The byte length of the result, on either variant, without consuming it.
    pub fn len(&self) -> (l: usize)
        ensures
            l == self.spec_len(),
    {
        match self {
            FFICow::Borrowed(fs) => fs.len,
            FFICow::Owned(fs) => fs.buf.len(),
        }
    }

    /// Tags a transformation's outcome. The conversion law of the type: a
    /// pass-through becomes `Borrowed` and allocates nothing; only a fresh
    /// buffer becomes `Owned`.
    pub fn from_output(out: TransformOutput, source: &[u8]) -> (r: FFICow)
        ensures
            r.wf(source@),
            r.is_borrowed() <==> out is Unchanged,
            match out {
                TransformOutput::Unchanged => r.bytes(source@) == source@,
                TransformOutput::Replaced(v) => r.bytes(source@) == v@,
            },
    {
        match out {
            TransformOutput::Unchanged => FFICow::wrap_borrowed(source),
            TransformOutput::Replaced(v) => FFICow::wrap_owned(v),
        }
    }

    /// Consumes the result. An owned result gives up its buffer, without
    /// copying; a borrowed result gives nothing, since its bytes are the
    /// source's own and were never this value's to give away.
    pub fn into_buffer(self) -> (r: Option<Vec<u8>>)
        ensures
            r is Some <==> !self.is_borrowed(),
            r matches Some(v) ==> v@.len() == self.spec_len() && forall|source: Seq<u8>|
                v@ == #[trigger] self.bytes(source),
    {
        match self {
            FFICow::Borrowed(_) => None,
            FFICow::Owned(fs) => Some(fs.buf),
        }
    }

    /// The result's bytes as a view: the source itself for a borrowed result,
    /// the owned buffer otherwise. No copy on either side.
    pub fn as_slice<'a>(&'a self, source: &'a [u8]) -> (b: &'a [u8])
        requires
            self.wf(source@),
        ensures
            b@ == self.bytes(source@),
    {
        match self {
            FFICow::Borrowed(_) => source,
            FFICow::Owned(fs) => fs.buf.as_slice(),
        }
    }
}

/// A well-formed result reports as its length exactly the length of the
/// bytes it stands for, whichever variant is active.
pub proof fn lemma_len_is_bytes_len(cow: FFICow, source: Seq<u8>)
    requires
        cow.wf(source),
    ensures
        cow.spec_len() == cow.bytes(source).len(),
{
}

} // verus!
