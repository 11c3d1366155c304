//! Character-level text helpers: string equality and substring search,
//! specified over the character sequences that `&str` views as.

use vstd::prelude::*;

verus! {

/// `needle` occurs in `hay` starting at position `i`.
pub open spec fn matches_at(hay: Seq<char>, needle: Seq<char>, i: int) -> bool {
    &&& 0 <= i
    &&& i + needle.len() <= hay.len()
    &&& forall|j: int| 0 <= j < needle.len() ==> hay[i + j] == needle[j]
}

/// `needle` occurs somewhere in `hay`.
pub open spec fn contains_seq(hay: Seq<char>, needle: Seq<char>) -> bool {
    exists|i: int| matches_at(hay, needle, i)
}

/// Character-wise string equality.
pub fn str_eq(a: &str, b: &str) -> (r: bool)
    ensures
        r == (a@ == b@),
{
    let alen = a.unicode_len();
    let blen = b.unicode_len();
    if alen != blen {
        return false;
    }
    let mut i: usize = 0;
    while i < alen
        invariant
            alen == a@.len(),
            blen == b@.len(),
            alen == blen,
            i <= alen,
            forall|j: int| 0 <= j < i ==> a@[j] == b@[j],
        decreases alen - i,
    {
        if a.get_char(i) != b.get_char(i) {
            return false;
        }
        i += 1;
    }
    proof {
        assert(a@ =~= b@);
    }
    true
}

/// Whether `needle` occurs in `hay` at position `i` exactly.
pub(crate) fn occurs_at(hay: &str, needle: &str, i: usize) -> (r: bool)
    requires
        i + needle@.len() <= hay@.len(),
        hay@.len() <= usize::MAX,
    ensures
        r == matches_at(hay@, needle@, i as int),
{
    let nlen = needle.unicode_len();
    let mut j: usize = 0;
    while j < nlen
        invariant
            nlen == needle@.len(),
            i + nlen <= hay@.len(),
            hay@.len() <= usize::MAX,
            j <= nlen,
            forall|k: int| 0 <= k < j ==> hay@[i + k] == needle@[k],
        decreases nlen - j,
    {
        if hay.get_char(i + j) != needle.get_char(j) {
            return false;
        }
        j += 1;
    }
    true
}

/// Naive substring search.
pub fn contains_substr(hay: &str, needle: &str) -> (r: bool)
    ensures
        r == contains_seq(hay@, needle@),
{
    let hlen = hay.unicode_len();
    let nlen = needle.unicode_len();
    if nlen > hlen {
        return false;
    }
    let mut i: usize = 0;
    while i <= hlen - nlen
        invariant
            hlen == hay@.len(),
            nlen == needle@.len(),
            nlen <= hlen,
            i <= hlen - nlen + 1,
            forall|p: int| 0 <= p < i ==> !matches_at(hay@, needle@, p),
        decreases hlen + 1 - nlen - i,
    {
        if occurs_at(hay, needle, i) {
            return true;
        }
        i += 1;
    }
    false
}

/// `u` is the code of a character with the Unicode `White_Space` property —
/// the characters that `str::trim` removes.
pub open spec fn is_ws_code(u: u32) -> bool {
    ||| u == 0x09
    ||| u == 0x0A
    ||| u == 0x0B
    ||| u == 0x0C
    ||| u == 0x0D
    ||| u == 0x20
    ||| u == 0x85
    ||| u == 0xA0
    ||| u == 0x1680
    ||| (0x2000 <= u && u <= 0x200A)
    ||| u == 0x2028
    ||| u == 0x2029
    ||| u == 0x202F
    ||| u == 0x205F
    ||| u == 0x3000
}

/// `c` is a whitespace character.
pub open spec fn is_unicode_ws(c: char) -> bool {
    is_ws_code(c as u32)
}

/// `t` is `s` with leading and trailing whitespace removed: `t` is the
/// subrange of `s` from `a` to `b`, everything outside it is whitespace, and
/// its own ends are not.
pub open spec fn trim_bounds(s: Seq<char>, t: Seq<char>, a: int, b: int) -> bool {
    &&& 0 <= a <= b <= s.len()
    &&& t == s.subrange(a, b)
    &&& forall|j: int| 0 <= j < a ==> is_unicode_ws(#[trigger] s[j])
    &&& forall|j: int| b <= j < s.len() ==> is_unicode_ws(#[trigger] s[j])
    &&& (a < b ==> !is_unicode_ws(s[a]) && !is_unicode_ws(s[b - 1]))
}

/// `t` is `s` with leading and trailing whitespace removed.
pub open spec fn is_trimmed(s: Seq<char>, t: Seq<char>) -> bool {
    exists|a: int, b: int| trim_bounds(s, t, a, b)
}

/// `c` is a whitespace character.
fn ws(c: char) -> (r: bool)
    ensures
        r == is_unicode_ws(c),
{
    let u = c as u32;
    u == 0x09 || u == 0x0A || u == 0x0B || u == 0x0C || u == 0x0D || u == 0x20 || u == 0x85 || u
        == 0xA0 || u == 0x1680 || (0x2000 <= u && u <= 0x200A) || u == 0x2028 || u == 0x2029 || u
        == 0x202F || u == 0x205F || u == 0x3000
}

/// Remove leading and trailing whitespace.
pub fn trim_ws(s: &str) -> (r: String)
    ensures
        is_trimmed(s@, r@),
{
    let len = s.unicode_len();
    let mut a: usize = 0;
    while a < len && ws(s.get_char(a))
        invariant
            len == s@.len(),
            a <= len,
            forall|j: int| 0 <= j < a ==> is_unicode_ws(#[trigger] s@[j]),
        decreases len - a,
    {
        a += 1;
    }
    if a == len {
        let r = String::new();
        proof {
            assert(r@ =~= s@.subrange(len as int, len as int));
            assert(trim_bounds(s@, r@, len as int, len as int));
        }
        return r;
    }
    let mut b: usize = len;
    while b > a + 1 && ws(s.get_char(b - 1))
        invariant
            len == s@.len(),
            a < b <= len,
            !is_unicode_ws(s@[a as int]),
            forall|j: int| b <= j < len ==> is_unicode_ws(#[trigger] s@[j]),
        decreases b,
    {
        b -= 1;
    }
    let r = s.substring_char(a, b).to_owned();
    proof {
        assert(trim_bounds(s@, r@, a as int, b as int));
    }
    r
}

} // verus!
