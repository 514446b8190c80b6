//! The text that a string-valued answer holds.
//!
//! A driver answers with the bytes of a C string: the text, then a NUL, and
//! on some drivers more than one. The text is what remains when every
//! trailing NUL is taken off. A NUL inside the text stays where it is.

use vstd::prelude::*;
use vstd::slice::slice_subrange;
use vstd::utf8::{decode_utf8, encode_utf8, valid_utf8};

verus! {

/// `s` without the NUL bytes at its end.
pub open spec fn trim_nul(s: Seq<u8>) -> Seq<u8>
    decreases s.len(),
{
    if s.len() > 0 && s.last() == 0 {
        trim_nul(s.drop_last())
    } else {
        s
    }
}

/// What `String::from_utf8_lossy` of std makes of bytes that are not valid
/// UTF-8: the text with U+FFFD in place of each sequence that is not valid.
pub uninterp spec fn lossy_text(bytes: Seq<u8>) -> Seq<char>;

/// The text of an answer: its bytes without the trailing NULs, read as
/// UTF-8, and leniently where they are not valid UTF-8.
pub open spec fn text_of(bytes: Seq<u8>) -> Seq<char> {
    let t = trim_nul(bytes);
    if valid_utf8(t) {
        decode_utf8(t)
    } else {
        lossy_text(t)
    }
}

/// What trimming does: it keeps a prefix, that prefix does not end in NUL,
/// and everything after it is NUL. Trimming twice is trimming once.
pub proof fn lemma_trim_nul(s: Seq<u8>)
    ensures
        trim_nul(s).len() <= s.len(),
        trim_nul(s) == s.subrange(0, trim_nul(s).len() as int),
        trim_nul(s).len() > 0 ==> trim_nul(s).last() != 0,
        forall|i: int| trim_nul(s).len() <= i < s.len() ==> s[i] == 0,
        trim_nul(trim_nul(s)) == trim_nul(s),
    decreases s.len(),
{
    if s.len() > 0 && s.last() == 0 {
        let d = s.drop_last();
        lemma_trim_nul(d);
        assert(d.subrange(0, trim_nul(d).len() as int) =~= s.subrange(0, trim_nul(d).len() as int));
        assert forall|i: int| trim_nul(s).len() <= i < s.len() implies s[i] == 0 by {
            if i < d.len() {
                assert(d[i] == 0);
            }
        }
    } else {
        assert(s =~= s.subrange(0, s.len() as int));
    }
}

/// Text that is valid UTF-8 comes through whole: encoding the text of an
/// answer gives back every byte of the answer but its trailing NULs.
pub proof fn lemma_text_round_trip(bytes: Seq<u8>)
    requires
        valid_utf8(trim_nul(bytes)),
    ensures
        encode_utf8(text_of(bytes)) == trim_nul(bytes),
{
    vstd::utf8::decode_utf8_encode_utf8(trim_nul(bytes));
}

/// The text of an answer does not depend on how many NULs end it.
pub proof fn lemma_text_ignores_trailing_nul(bytes: Seq<u8>)
    ensures
        text_of(bytes.push(0)) == text_of(bytes),
        text_of(trim_nul(bytes)) == text_of(bytes),
{
    assert(bytes.push(0).drop_last() =~= bytes);
    lemma_trim_nul(bytes);
}

/// `String::from_utf8_lossy` of std, with its result made a `String`. Of
/// bytes that are valid UTF-8 it gives the text that they encode; of any
/// others, what `lossy_text` names.
#[verifier::external_body]
fn from_utf8_lossy(bytes: &[u8]) -> (text: String)
    ensures
        valid_utf8(bytes@) ==> text@ == decode_utf8(bytes@),
        !valid_utf8(bytes@) ==> text@ == lossy_text(bytes@),
{
    String::from_utf8_lossy(bytes).into_owned()
}

/// How many bytes of `bytes` are left when its trailing NULs are taken off.
pub fn trimmed_len(bytes: &[u8]) -> (n: usize)
    ensures
        n == trim_nul(bytes@).len(),
        n <= bytes@.len(),
        trim_nul(bytes@) == bytes@.subrange(0, n as int),
{
    let mut n: usize = bytes.len();
    proof {
        assert(bytes@.subrange(0, n as int) =~= bytes@);
    }
    while n > 0 && bytes[n - 1] == 0
        invariant
            n <= bytes@.len(),
            trim_nul(bytes@) == trim_nul(bytes@.subrange(0, n as int)),
        decreases n,
    {
        proof {
            assert(bytes@.subrange(0, n as int).drop_last() =~= bytes@.subrange(0, n - 1));
        }
        n -= 1;
    }
    n
}

/// The text of an answer.
pub fn to_text(bytes: &[u8]) -> (text: String)
    ensures
        text@ == text_of(bytes@),
{
    let n: usize = trimmed_len(bytes);
    from_utf8_lossy(slice_subrange(bytes, 0, n))
}

} // verus!
