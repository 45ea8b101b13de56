//! Small verified helpers on strings and byte strings: equality, prefix and
//! suffix tests.  File names are handled as byte strings, as the surrounding
//! process reads them from the operating system.

use vstd::prelude::*;

verus! {

use vstd::string::StringSliceAdditionalSpecFns;

/// True when `suffix` is a suffix of `s`.
pub open spec fn is_suffix_of<A>(suffix: Seq<A>, s: Seq<A>) -> bool {
    suffix.len() <= s.len() && s.skip(s.len() - suffix.len()) == suffix
}

/// True when `prefix` is a prefix of `s`.
pub open spec fn is_prefix_of<A>(prefix: Seq<A>, s: Seq<A>) -> bool {
    prefix.len() <= s.len() && s.take(prefix.len() as int) == prefix
}

/// The lowercase form a string's characters, as Unicode case mapping
/// defines it.  Named only: the full mapping is not restated here.
pub uninterp spec fn lower_of(s: Seq<char>) -> Seq<char>;

/// Relies on str::to_lowercase of std: the result is a function of the
/// characters alone.
#[verifier::external_body]
pub(crate) fn to_lowercase(s: &str) -> (r: String)
    ensures
        r@ == lower_of(s@),
{
    s.to_lowercase()
}

/// Byte-string equality.
pub fn bytes_eq(a: &[u8], b: &[u8]) -> (r: bool)
    ensures
        r == (a@ == b@),
{
    if a.len() != b.len() {
        return false;
    }
    let n = a.len();
    let mut i: usize = 0;
    while i < n
        invariant
            n == a@.len() == b@.len(),
            i <= n,
            forall|j: int| 0 <= j < i ==> a@[j] == b@[j],
        decreases n - i,
    {
        if a[i] != b[i] {
            return false;
        }
        i += 1;
    }
    proof {
        assert(a@ =~= b@);
    }
    true
}

/// String equality, stated over the character views.
pub fn str_eq(a: &str, b: &str) -> (r: bool)
    ensures
        r == (a@ == b@),
{
    let r = bytes_eq(a.as_bytes(), b.as_bytes());
    proof {
        broadcast use vstd::utf8::encode_utf8_decode_utf8;

        assert(vstd::utf8::decode_utf8(vstd::utf8::encode_utf8(a@)) == a@);
        assert(vstd::utf8::decode_utf8(vstd::utf8::encode_utf8(b@)) == b@);
    }
    r
}

/// True when the byte string `s` ends with `suffix`.
pub fn bytes_end_with(s: &[u8], suffix: &[u8]) -> (r: bool)
    ensures
        r == is_suffix_of(suffix@, s@),
{
    if suffix.len() > s.len() {
        return false;
    }
    let start = s.len() - suffix.len();
    let n = suffix.len();
    let mut i: usize = 0;
    while i < n
        invariant
            n == suffix@.len(),
            n <= s@.len(),
            s@.len() <= usize::MAX,
            start == s@.len() - n,
            i <= n,
            forall|j: int| 0 <= j < i ==> s@[start + j] == suffix@[j],
        decreases n - i,
    {
        if s[start + i] != suffix[i] {
            proof {
                assert(s@.skip(s@.len() - suffix@.len())[i as int] == s@[start + i]);
            }
            return false;
        }
        i += 1;
    }
    proof {
        assert(s@.skip(s@.len() - suffix@.len()) =~= suffix@);
    }
    true
}

/// True when the byte string `s` starts with `prefix`.
pub fn bytes_start_with(s: &[u8], prefix: &[u8]) -> (r: bool)
    ensures
        r == is_prefix_of(prefix@, s@),
{
    if prefix.len() > s.len() {
        return false;
    }
    let n = prefix.len();
    let mut i: usize = 0;
    while i < n
        invariant
            n == prefix@.len(),
            n <= s@.len(),
            i <= n,
            forall|j: int| 0 <= j < i ==> s@[j] == prefix@[j],
        decreases n - i,
    {
        if s[i] != prefix[i] {
            proof {
                assert(s@.take(prefix@.len() as int)[i as int] == s@[i as int]);
            }
            return false;
        }
        i += 1;
    }
    proof {
        assert(s@.take(prefix@.len() as int) =~= prefix@);
    }
    true
}

} // verus!
