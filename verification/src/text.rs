//! Item names as text: exact comparison, and comparison after lowering the
//! ASCII capitals.

use vstd::prelude::*;
use vstd::string::StrSliceExecFns;
use vstd::string::StringSliceAdditionalSpecFns;

verus! {

/// `c` with an ASCII capital replaced by its small letter; any other
/// character is left as it is.
pub open spec fn ascii_lower(c: char) -> char {
    if 'A' <= c && c <= 'Z' {
        ((c as u8) + 32) as char
    } else {
        c
    }
}

/// `s` with each ASCII capital replaced by its small letter.
pub open spec fn ascii_lowercase(s: Seq<char>) -> Seq<char> {
    Seq::new(s.len(), |i: int| ascii_lower(s[i]))
}

/// Lowering is idempotent: a lowered text has no ASCII capital left to lower.
pub proof fn lemma_lowercase_idempotent(s: Seq<char>)
    ensures
        ascii_lowercase(ascii_lowercase(s)) == ascii_lowercase(s),
{
    assert(ascii_lowercase(ascii_lowercase(s)) =~= ascii_lowercase(s));
}

/// Computes [`ascii_lower`].
pub fn lower_char(c: char) -> (lowered: char)
    ensures
        lowered == ascii_lower(c),
{
    if 'A' <= c && c <= 'Z' {
        ((c as u8) + 32) as char
    } else {
        c
    }
}

/// Whether `a` and `b` hold the same characters.
///
/// The comparison is made on the UTF-8 bytes, which determine the characters.
pub fn same_text(a: &str, b: &str) -> (same: bool)
    ensures
        same == (a@ == b@),
{
    let x = a.as_bytes();
    let y = b.as_bytes();
    if x.len() != y.len() {
        return false;
    }
    let mut i: usize = 0;
    while i < x.len()
        invariant
            i <= x.len(),
            x.len() == y.len(),
            x@ == a.spec_bytes(),
            y@ == b.spec_bytes(),
            forall|j: int| 0 <= j < i ==> x[j] == y[j],
        decreases x.len() - i,
    {
        if x[i] != y[i] {
            assert(x@[i as int] != y@[i as int]);
            return false;
        }
        i += 1;
    }
    proof {
        assert(x@ =~= y@);
        vstd::utf8::encode_utf8_decode_utf8(a@);
        vstd::utf8::encode_utf8_decode_utf8(b@);
    }
    true
}

/// Whether `name` reads `listed` once its ASCII capitals are lowered.
pub fn lowered_is(name: &str, listed: &str) -> (same: bool)
    ensures
        same == (ascii_lowercase(name@) == listed@),
{
    let n = name.unicode_len();
    if n != listed.unicode_len() {
        return false;
    }
    let mut i: usize = 0;
    while i < n
        invariant
            i <= n,
            n == name@.len(),
            n == listed@.len(),
            forall|j: int| 0 <= j < i ==> ascii_lower(name@[j]) == listed@[j],
        decreases n - i,
    {
        if lower_char(name.get_char(i)) != listed.get_char(i) {
            assert(ascii_lowercase(name@)[i as int] != listed@[i as int]);
            return false;
        }
        i += 1;
    }
    assert(ascii_lowercase(name@) =~= listed@);
    true
}

} // verus!
