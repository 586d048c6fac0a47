//! The transformation consumed at the boundary.
//!
//! The boundary layer does not care what the transformation computes; it
//! cares whether the transformation allocated. [`Transform::apply`] therefore
//! returns [`TransformOutput`]: `Unchanged` signals pass-through (the result
//! is the input, byte for byte, and nothing was allocated), `Replaced` hands
//! over a fresh buffer. An implementation must signal pass-through exactly
//! when the result equals the input, so that a caller never pays for an
//! allocation it does not need.
//!
//! Two implementations are provided: [`Identity`], which always passes
//! through, and [`XmlEscape`], which grows the input whenever it contains a
//! byte with a markup meaning.

use vstd::prelude::*;

verus! {

/// The outcome of a transformation: either the input itself, untouched, or a
/// freshly allocated buffer of different content.
pub enum TransformOutput {
    Unchanged,
    Replaced(Vec<u8>),
}

/// A byte-to-bytes transformation with a pass-through signal.
///
/// `result` is the mathematical function the transformation computes;
/// `apply` computes it, and is obliged to answer `Unchanged` precisely when
/// the result equals the input.
pub trait Transform {
    /// What the transformation produces on `input`.
    spec fn result(&self, input: Seq<u8>) -> Seq<u8>;

    /// Runs the transformation. `Unchanged` if and only if the result equals
    /// the input; otherwise the fresh buffer holds the result.
    fn apply(&self, input: &[u8]) -> (out: TransformOutput)
        ensures
            match out {
                TransformOutput::Unchanged => self.result(input@) == input@,
                TransformOutput::Replaced(v) => v@ == self.result(input@) && v@ != input@,
            },
    ;
}

/// The transformation that leaves every input as it is.
pub struct Identity;

impl Transform for Identity {
    open spec fn result(&self, input: Seq<u8>) -> Seq<u8> {
        input
    }

    fn apply(&self, input: &[u8]) -> (out: TransformOutput) {
        TransformOutput::Unchanged
    }
}

/// True of the bytes that carry markup meaning: `&`, `<` and `>`.
pub open spec fn is_markup_byte(b: u8) -> bool {
    b == 38 || b == 60 || b == 62
}

/// The replacement for one byte: `&amp;`, `&lt;` or `&gt;` for a markup
/// byte, the byte itself otherwise.
pub open spec fn escaped_byte(b: u8) -> Seq<u8> {
    if b == 38 {
        seq![38u8, 97u8, 109u8, 112u8, 59u8]
    } else if b == 60 {
        seq![38u8, 108u8, 116u8, 59u8]
    } else if b == 62 {
        seq![38u8, 103u8, 116u8, 59u8]
    } else {
        seq![b]
    }
}

/// Every byte replaced by its escape, in order.
pub open spec fn xml_escaped(s: Seq<u8>) -> Seq<u8>
    decreases s.len(),
{
    if s.len() == 0 {
        Seq::empty()
    } else {
        escaped_byte(s[0]) + xml_escaped(s.drop_first())
    }
}

/// Escaping distributes over appending one byte at the back.
proof fn lemma_escaped_push(s: Seq<u8>, b: u8)
    ensures
        xml_escaped(s.push(b)) == xml_escaped(s) + escaped_byte(b),
    decreases s.len(),
{
    if s.len() == 0 {
        assert(s.push(b)[0] == b);
        assert(s.push(b).drop_first() =~= Seq::<u8>::empty());
        assert(xml_escaped(s.push(b)) == escaped_byte(b) + xml_escaped(Seq::<u8>::empty()));
        assert(xml_escaped(s.push(b)) =~= escaped_byte(b));
        assert(xml_escaped(s) + escaped_byte(b) =~= escaped_byte(b));
    } else {
        assert(s.push(b)[0] == s[0]);
        assert(s.push(b).drop_first() =~= s.drop_first().push(b));
        lemma_escaped_push(s.drop_first(), b);
        assert(xml_escaped(s.push(b)) == escaped_byte(s[0]) + (xml_escaped(s.drop_first())
            + escaped_byte(b)));
        assert(xml_escaped(s) + escaped_byte(b) =~= escaped_byte(s[0]) + (xml_escaped(
            s.drop_first(),
        ) + escaped_byte(b)));
    }
}

/// A markup-free sequence escapes to itself.
proof fn lemma_escaped_of_clean(s: Seq<u8>)
    requires
        forall|i: int| 0 <= i < s.len() ==> !is_markup_byte(#[trigger] s[i]),
    ensures
        xml_escaped(s) == s,
    decreases s.len(),
{
    if s.len() > 0 {
        lemma_escaped_of_clean(s.drop_first());
        assert(escaped_byte(s[0]) + s.drop_first() =~= s);
    }
}

/// Escaping never shrinks, and grows strictly past any markup byte.
proof fn lemma_escaped_len(s: Seq<u8>)
    ensures
        xml_escaped(s).len() >= s.len(),
        (exists|i: int| 0 <= i < s.len() && is_markup_byte(#[trigger] s[i])) ==> xml_escaped(
            s,
        ).len() > s.len(),
    decreases s.len(),
{
    if s.len() > 0 {
        lemma_escaped_len(s.drop_first());
        if exists|i: int| 0 <= i < s.len() && is_markup_byte(#[trigger] s[i]) {
            let i = choose|i: int| 0 <= i < s.len() && is_markup_byte(#[trigger] s[i]);
            if i > 0 {
                assert(s.drop_first()[i - 1] == s[i]);
            }
        }
    }
}

/// Replaces `&`, `<` and `>` by their character references, and signals
/// pass-through on inputs that contain none of them.
pub struct XmlEscape;

impl Transform for XmlEscape {
    open spec fn result(&self, input: Seq<u8>) -> Seq<u8> {
        xml_escaped(input)
    }

    fn apply(&self, input: &[u8]) -> (out: TransformOutput) {
        let n: usize = input.len();
        let mut found = false;
        let mut i: usize = 0;
        while i < n
            invariant
                n == input@.len(),
                0 <= i <= n,
                found <==> exists|j: int| 0 <= j < i && is_markup_byte(#[trigger] input@[j]),
            decreases n - i,
        {
            let b = *vstd::slice::slice_index_get(input, i);
            if b == 38 || b == 60 || b == 62 {
                found = true;
            }
            i = i + 1;
        }
        if !found {
            proof {
                lemma_escaped_of_clean(input@);
            }
            return TransformOutput::Unchanged;
        }
        let mut v: Vec<u8> = Vec::new();
        let mut i: usize = 0;
        while i < n
            invariant
                n == input@.len(),
                0 <= i <= n,
                v@ == xml_escaped(input@.take(i as int)),
            decreases n - i,
        {
            let b = *vstd::slice::slice_index_get(input, i);
            if b == 38 {
                v.push(38);
                v.push(97);
                v.push(109);
                v.push(112);
                v.push(59);
            } else if b == 60 {
                v.push(38);
                v.push(108);
                v.push(116);
                v.push(59);
            } else if b == 62 {
                v.push(38);
                v.push(103);
                v.push(116);
                v.push(59);
            } else {
                v.push(b);
            }
            proof {
                lemma_escaped_push(input@.take(i as int), input@[i as int]);
                assert(input@.take(i as int).push(input@[i as int]) =~= input@.take(
                    i as int + 1,
                ));
                assert(v@ =~= xml_escaped(input@.take(i as int + 1)));
            }
            i = i + 1;
        }
        proof {
            assert(input@.take(n as int) =~= input@);
            lemma_escaped_len(input@);
        }
        TransformOutput::Replaced(v)
    }
}

} // verus!
