use vstd::prelude::*;
use crate::model::{Case, encode_bytes, encode_chars};
use crate::table::byte2hex;

verus! {

/// The longest text, in characters, that the encoders here will build: four
/// bytes per character must still fit in an `isize`.
pub open spec fn fits_text(len: nat) -> bool {
    4 * len <= isize::MAX
}

/// Relies on `String::push`: appends one character. It panics only when the
/// string's byte length would pass `isize::MAX`, which `requires` rules out.
#[verifier::external_body]
pub(crate) fn push_char(s: &mut String, c: char)
    requires
        fits_text(old(s)@.len() + 1),
    ensures
        final(s)@ == old(s)@.push(c),
{
    s.push(c)
}

/// A lazy producer of the hex characters of a byte slice, one per call of
/// `next`. It holds its position in the input and at most one pending
/// character: the low digit of the byte whose high digit it handed out last.
pub struct BytesToHexChars<'a> {
    inner: &'a [u8],
    pos: usize,
    case: Case,
    next: Option<char>,
}

impl<'a> BytesToHexChars<'a> {
    /// The characters that are still to come, in order.
    pub closed spec fn remaining(&self) -> Seq<char> {
        let rest = encode_chars(self.inner@.subrange(self.pos as int, self.inner@.len() as int), self.case);
        match self.next {
            Some(c) => seq![c] + rest,
            None => rest,
        }
    }

    /// The position lies within the input, and twice the input's length
    /// plus one fits in a `usize`.
    pub closed spec fn wf(&self) -> bool {
        &&& self.pos <= self.inner@.len()
        &&& self.inner@.len() <= usize::MAX / 2
    }

    /// Starts at the first byte of `inner`, with nothing pending.
    pub fn new(inner: &'a [u8], case: Case) -> (r: Self)
        requires
            inner@.len() <= usize::MAX / 2,
        ensures
            r.wf(),
            r.remaining() == encode_chars(inner@, case),
    {
        let r = BytesToHexChars { inner, pos: 0, case, next: None };
        assert(inner@.subrange(0, inner@.len() as int) =~= inner@);
        r
    }

    /// Hands out the next character, or `None` once all have been handed out.
    pub fn next(&mut self) -> (r: Option<char>)
        requires
            old(self).wf(),
        ensures
            final(self).wf(),
            old(self).remaining().len() == 0 ==> r is None && final(self).remaining() == old(self).remaining(),
            old(self).remaining().len() > 0 ==> r == Some(old(self).remaining()[0])
                && final(self).remaining() == old(self).remaining().drop_first(),
    {
        let ghost before = self.remaining();
        match self.next {
            Some(c) => {
                self.next = None;
                assert(self.remaining() =~= before.drop_first());
                Some(c)
            },
            None => {
                if self.pos == self.inner.len() {
                    return None;
                }
                let byte = self.inner[self.pos];
                let (high, low) = byte2hex(byte, self.case);
                let ghost rest = self.inner@.subrange(self.pos as int, self.inner@.len() as int);
                let ghost tail = self.inner@.subrange(self.pos + 1, self.inner@.len() as int);
                self.pos = self.pos + 1;
                self.next = Some(low as char);
                proof {
                    assert(rest[0] == byte);
                    assert(rest.drop_first() =~= tail);
                    assert(encode_bytes(rest, self.case) =~= seq![high, low] + encode_bytes(tail, self.case)) by {
                        assert forall|k: int| 0 <= k < 2 * tail.len()
                        implies #[trigger] encode_bytes(rest, self.case)[k + 2] == encode_bytes(tail, self.case)[k] by {
                            assert((k + 2) / 2 == k / 2 + 1);
                            assert((k + 2) % 2 == k % 2);
                        }
                        assert forall|k: int| 0 <= k < encode_bytes(rest, self.case).len()
                        implies encode_bytes(rest, self.case)[k] == (seq![high, low] + encode_bytes(tail, self.case))[k] by {
                            if k >= 2 {
                                assert(encode_bytes(rest, self.case)[(k - 2) + 2] == encode_bytes(tail, self.case)[k - 2]);
                            }
                        }
                    }
                    assert(self.remaining() =~= before.drop_first());
                }
                Some(high as char)
            },
        }
    }

    /// The number of characters still to come.
    pub fn len(&self) -> (r: usize)
        requires
            self.wf(),
        ensures
            r == self.remaining().len(),
    {
        let mut length = (self.inner.len() - self.pos) * 2;
        if self.next.is_some() {
            length = length + 1;
        }
        length
    }

    /// Lower and upper bound of the number of characters still to come: both
    /// are exact.
    pub fn size_hint(&self) -> (r: (usize, Option<usize>))
        requires
            self.wf(),
        ensures
            r.0 == self.remaining().len(),
            r.1 == Some(r.0),
    {
        let length = self.len();
        (length, Some(length))
    }
}

/// Appends every character that `it` still holds to `s`.
fn extend_with(s: &mut String, chars: BytesToHexChars)
    requires
        chars.wf(),
        fits_text(old(s)@.len() + chars.remaining().len()),
    ensures
        final(s)@ == old(s)@ + chars.remaining(),
{
    let mut it = chars;
    let ghost all = it.remaining();
    loop
        invariant
            it.wf(),
            s@ + it.remaining() == old(s)@ + all,
            fits_text(old(s)@.len() + all.len()),
        ensures
            s@ == old(s)@ + all,
        decreases it.remaining().len(),
    {
        let ghost before = it.remaining();
        match it.next() {
            Some(c) => {
                assert(s@.len() + before.len() == old(s)@.len() + all.len()) by {
                    assert((s@ + before).len() == (old(s)@ + all).len());
                }
                push_char(s, c);
                assert(s@ + it.remaining() =~= old(s)@ + all) by {
                    assert(before =~= seq![c] + before.drop_first());
                    assert(old(s)@ + all == s@.drop_last() + before);
                }
            },
            None => {
                assert(s@ =~= old(s)@ + all) by {
                    assert(s@ + before == s@);
                }
                break;
            },
        }
    }
}

/// The hex text of `source` as a new string.
pub fn encode_to_iter(case: Case, source: &[u8]) -> (r: String)
    requires
        fits_text(2 * source@.len()),
    ensures
        r@ == encode_chars(source@, case),
{
    let mut s = String::new();
    extend_with(&mut s, BytesToHexChars::new(source, case));
    assert(s@ =~= encode_chars(source@, case));
    s
}

/// Appends the lowercase hex text of `data` to `s`.
pub fn encode_to(data: &[u8], s: &mut String)
    requires
        fits_text(old(s)@.len() + 2 * data@.len()),
    ensures
        final(s)@ == old(s)@ + encode_chars(data@, Case::Lower),
{
    extend_with(s, BytesToHexChars::new(data, Case::Lower));
}

/// Appends the uppercase hex text of `data` to `s`.
pub fn encode_upper_to(data: &[u8], s: &mut String)
    requires
        fits_text(old(s)@.len() + 2 * data@.len()),
    ensures
        final(s)@ == old(s)@ + encode_chars(data@, Case::Upper),
{
    extend_with(s, BytesToHexChars::new(data, Case::Upper));
}

/// The lowercase hex text of `data`.
pub fn encode(data: &[u8]) -> (r: String)
    requires
        fits_text(2 * data@.len()),
    ensures
        r@ == encode_chars(data@, Case::Lower),
        r@.len() == 2 * data@.len(),
{
    encode_to_iter(Case::Lower, data)
}

/// The uppercase hex text of `data`.
pub fn encode_upper(data: &[u8]) -> (r: String)
    requires
        fits_text(2 * data@.len()),
    ensures
        r@ == encode_chars(data@, Case::Upper),
        r@.len() == 2 * data@.len(),
{
    encode_to_iter(Case::Upper, data)
}

} // verus!
