//! Ticket-key extraction: find the first occurrence of
//! `<project>-<digits>` in the creation command's output.
//!
//! The project key is matched literally (not as a regular expression), and
//! the digit run is maximal, so the result is the leftmost, longest key
//! occurrence in the text.

use vstd::prelude::*;

use crate::text::matches_at;
use crate::text::occurs_at;

verus! {

/// `c` is one of the decimal digits `'0'` to `'9'`.
pub open spec fn is_ascii_digit(c: char) -> bool {
    48 <= c as u32 && c as u32 <= 57
}

/// The key pattern for `project` stands at `i` in `text` with a digit run of
/// length `k`: the project key itself, a hyphen, then `k >= 1` digits, and
/// the run is maximal (the next character, if any, is not a digit).
pub open spec fn key_match_at(text: Seq<char>, project: Seq<char>, i: int, k: int) -> bool {
    let d = i + project.len() + 1;
    &&& matches_at(text, project, i)
    &&& i + project.len() < text.len()
    &&& text[i + project.len()] == '-'
    &&& k >= 1
    &&& d + k <= text.len()
    &&& forall|j: int| d <= j < d + k ==> is_ascii_digit(#[trigger] text[j])
    &&& (d + k == text.len() || !is_ascii_digit(text[d + k]))
}

/// A key occurrence begins at `i`: the project key, a hyphen, and at least
/// one digit.
pub open spec fn key_begins_at(text: Seq<char>, project: Seq<char>, i: int) -> bool {
    &&& matches_at(text, project, i)
    &&& i + project.len() + 2 <= text.len()
    &&& text[i + project.len()] == '-'
    &&& is_ascii_digit(text[i + project.len() + 1])
}

/// Some key occurrence exists in `text`.
pub open spec fn has_key(text: Seq<char>, project: Seq<char>) -> bool {
    exists|i: int| key_begins_at(text, project, i)
}

/// The extracted key for a maximal match at `i` with digit run `k`.
pub open spec fn key_at(text: Seq<char>, project: Seq<char>, i: int, k: int) -> Seq<char> {
    text.subrange(i, i + project.len() + 1 + k)
}

/// A digit run that has started can always be extended to a maximal one.
proof fn lemma_run_completes(text: Seq<char>, project: Seq<char>, i: int, e: int)
    requires
        matches_at(text, project, i),
        text[i + project.len()] == '-',
        i + project.len() + 1 < e <= text.len(),
        forall|j: int| i + project.len() + 1 <= j < e ==> is_ascii_digit(text[j]),
    ensures
        exists|k: int| key_match_at(text, project, i, k),
    decreases text.len() - e,
{
    let d = i + project.len() + 1;
    if e == text.len() || !is_ascii_digit(text[e]) {
        let k = e - d;
        assert(key_match_at(text, project, i, k));
    } else {
        lemma_run_completes(text, project, i, e + 1);
    }
}

/// Wherever a key occurrence begins, a maximal key match stands: if the
/// creation output contains the project key, a hyphen and a digit, a key is
/// extracted.
pub proof fn lemma_key_token_is_extracted(text: Seq<char>, project: Seq<char>, i: int)
    requires
        key_begins_at(text, project, i),
    ensures
        has_key(text, project),
        exists|k: int| key_match_at(text, project, i, k),
{
    lemma_run_completes(text, project, i, i + project.len() + 2);
}

/// Wherever the text contains the project key, a hyphen and a nonempty
/// digit run as one contiguous token, a key is found: for any project key
/// and any creation output that holds such a token, extraction cannot come
/// back empty.
pub proof fn lemma_contained_token_yields_key(
    text: Seq<char>,
    project: Seq<char>,
    digits: Seq<char>,
    i: int,
)
    requires
        digits.len() >= 1,
        forall|j: int| 0 <= j < digits.len() ==> is_ascii_digit(#[trigger] digits[j]),
        matches_at(text, project + seq!['-'] + digits, i),
    ensures
        has_key(text, project),
{
    let token = project + seq!['-'] + digits;
    let pl = project.len() as int;
    assert forall|j: int| 0 <= j < pl implies text[i + j] == project[j] by {
        assert(text[i + j] == token[j]);
        assert(token[j] == project[j]);
    }
    assert(text[i + pl] == token[pl]);
    assert(token[pl] == '-');
    assert(text[i + pl + 1] == token[pl + 1]);
    assert(token[pl + 1] == digits[0]);
    assert(key_begins_at(text, project, i));
    lemma_key_token_is_extracted(text, project, i);
}

/// `c` is a decimal digit.
fn digit(c: char) -> (r: bool)
    ensures
        r == is_ascii_digit(c),
{
    let u = c as u32;
    48 <= u && u <= 57
}

/// Scan `text` for the first occurrence of the project key followed by a
/// hyphen and a digit run, and return that occurrence whole, its digit run
/// taken as long as possible; `None` when no such occurrence exists.
pub fn extract_key(text: &str, project: &str) -> (r: Option<String>)
    ensures
        r is Some <==> has_key(text@, project@),
        r matches Some(key) ==> exists|i: int, k: int|
            {
                &&& #[trigger] key_match_at(text@, project@, i, k)
                &&& key@ == key_at(text@, project@, i, k)
                &&& forall|p: int| 0 <= p < i ==> !key_begins_at(text@, project@, p)
            },
{
    let tlen = text.unicode_len();
    let pl = project.unicode_len();
    let mut i: usize = 0;
    while i < tlen
        invariant
            tlen == text@.len(),
            pl == project@.len(),
            i <= tlen,
            forall|p: int| 0 <= p < i ==> !key_begins_at(text@, project@, p),
        decreases tlen - i,
    {
        if tlen - i >= 2 && pl <= tlen - i - 2 {
            if occurs_at(text, project, i) && text.get_char(i + pl) == '-' && digit(
                text.get_char(i + pl + 1),
            ) {
                let start_digits = i + pl + 1;
                let mut e: usize = start_digits + 1;
                while e < tlen && digit(text.get_char(e))
                    invariant
                        tlen == text@.len(),
                        pl == project@.len(),
                        matches_at(text@, project@, i as int),
                        text@[i + pl] == '-',
                        start_digits == i + pl + 1,
                        start_digits + 1 <= e <= tlen,
                        forall|j: int| start_digits <= j < e ==> is_ascii_digit(text@[j]),
                    decreases tlen - e,
                {
                    e += 1;
                }
                proof {
                    let k = e - start_digits;
                    assert(key_match_at(text@, project@, i as int, k as int));
                    assert(key_begins_at(text@, project@, i as int));
                }
                let sub = text.substring_char(i, e);
                return Some(sub.to_owned());
            }
        }
        proof {
            assert(!key_begins_at(text@, project@, i as int));
        }
        i += 1;
    }
    None
}

} // verus!
