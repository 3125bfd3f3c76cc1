//! String operations with specifications over the character sequence of a string.

use vstd::prelude::*;
use vstd::string::StrSliceExecFns;
use vstd::string::StringSliceAdditionalSpecFns;
use vstd::string::StringExecFns;

verus! {

broadcast use vstd::utf8::encode_utf8_decode_utf8;

/// Whether two strings hold the same characters.
pub fn str_eq(a: &str, b: &str) -> (same: bool)
    ensures
        same == (a@ == b@),
{
    let x = a.as_bytes();
    let y = b.as_bytes();
    if x.len() != y.len() {
        return false;
    }
    let mut i: usize = 0;
    while i < x.len()
        invariant
            x@ == a.spec_bytes(),
            y@ == b.spec_bytes(),
            x@.len() == y@.len(),
            0 <= i <= x@.len(),
            forall|j: int| 0 <= j < i ==> x@[j] == y@[j],
        decreases x@.len() - i,
    {
        if x[i] != y[i] {
            return false;
        }
        i = i + 1;
    }
    proof {
        assert(x@ =~= y@);
        assert(vstd::utf8::decode_utf8(a.spec_bytes()) == a@);
        assert(vstd::utf8::decode_utf8(b.spec_bytes()) == b@);
    }
    true
}

/// The number of bytes of the UTF-8 encoding of `s`.
pub open spec fn utf8_len(s: Seq<char>) -> nat {
    vstd::utf8::encode_utf8(s).len()
}

/// The length of `s` in bytes (`str::len`).
pub fn byte_len(s: &str) -> (len: usize)
    ensures
        len == utf8_len(s@),
{
    s.as_bytes().len()
}

/// A string holding the characters of `s`.
pub fn to_owned_string(s: &str) -> (owned: String)
    ensures
        owned@ == s@,
{
    String::from_str(s)
}

/// `s` with every leading occurrence of `pattern` removed, one after another; `s` itself where
/// `pattern` is empty.
pub open spec fn trim_start_repeated(s: Seq<char>, pattern: Seq<char>) -> Seq<char>
    decreases s.len(),
{
    if pattern.len() > 0 && pattern.len() <= s.len() && s.subrange(0, pattern.len() as int)
        == pattern {
        trim_start_repeated(s.subrange(pattern.len() as int, s.len() as int), pattern)
    } else {
        s
    }
}

/// Removes every leading occurrence of `pattern` from `s`, as `str::trim_start_matches` does for a
/// string pattern; an empty pattern removes nothing.
pub fn trim_start_matches<'a>(s: &'a str, pattern: &str) -> (rest: &'a str)
    ensures
        rest@ == trim_start_repeated(s@, pattern@),
{
    let n = s.unicode_len();
    let m = pattern.unicode_len();
    if m == 0 {
        return s;
    }
    let mut k: usize = 0;
    assert(s@.subrange(0, n as int) =~= s@);
    while m <= n - k && str_eq(s.substring_char(k, k + m), pattern)
        invariant
            n == s@.len(),
            m == pattern@.len(),
            m > 0,
            k <= n,
            trim_start_repeated(s@.subrange(k as int, n as int), pattern@) == trim_start_repeated(
                s@,
                pattern@,
            ),
        decreases n - k,
    {
        proof {
            let t = s@.subrange(k as int, n as int);
            assert(t.subrange(0, m as int) =~= s@.subrange(k as int, (k + m) as int));
            assert(t.subrange(m as int, t.len() as int) =~= s@.subrange((k + m) as int, n as int));
        }
        k = k + m;
    }
    proof {
        let t = s@.subrange(k as int, n as int);
        if m <= t.len() {
            assert(t.subrange(0, m as int) =~= s@.subrange(k as int, (k + m) as int));
        }
    }
    s.substring_char(k, n)
}

/// Appends `c` to `s` (`String::push`).
#[verifier::external_body]
pub(crate) fn push_char(s: &mut String, c: char)
    ensures
        final(s)@ == old(s)@.push(c),
{
    s.push(c)
}

/// A string made of the given characters.
pub fn string_from_chars(chars: &Vec<char>) -> (s: String)
    ensures
        s@ == chars@,
{
    let mut s = String::new();
    let mut i: usize = 0;
    while i < chars.len()
        invariant
            i <= chars@.len(),
            s@ == chars@.subrange(0, i as int),
        decreases chars@.len() - i,
    {
        push_char(&mut s, chars[i]);
        proof {
            assert(chars@.subrange(0, i + 1) =~= chars@.subrange(0, i as int).push(chars@[i as int]));
        }
        i = i + 1;
    }
    proof {
        assert(chars@.subrange(0, chars@.len() as int) =~= chars@);
    }
    s
}

} // verus!
