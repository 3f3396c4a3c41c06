//! Operations on text that the rest of the library shares.

use vstd::prelude::*;
use vstd::string::*;

verus! {

/// `text` without its double-quote characters, the others in their order.
pub open spec fn without_quotes(text: Seq<char>) -> Seq<char> {
    text.filter(not_a_quote())
}

/// The test that a character is no double quote.
pub open spec fn not_a_quote() -> spec_fn(char) -> bool {
    |c: char| c != '"'
}

/// `needle` occurs in `hay` as a run of consecutive characters.
pub open spec fn occurs_in(needle: Seq<char>, hay: Seq<char>) -> bool {
    exists|i: int|
        0 <= i && i + needle.len() <= hay.len() && #[trigger] hay.subrange(
            i,
            i + needle.len(),
        ) == needle
}

/// Whether two pieces of text hold the same characters.
pub fn same_text(a: &str, b: &str) -> (same: bool)
    ensures
        same == (a@ == b@),
{
    let n: usize = a.unicode_len();
    if n != b.unicode_len() {
        return false;
    }
    let mut i: usize = 0;
    while i < n
        invariant
            n == a@.len(),
            n == b@.len(),
            i <= n,
            forall|j: int| 0 <= j < i ==> a@[j] == b@[j],
        decreases n - i,
    {
        if a.get_char(i) != b.get_char(i) {
            return false;
        }
        i = i + 1;
    }
    assert(a@ =~= b@);
    true
}

/// Removes every double quote from `raw`, as the client wraps bare strings in them.
pub fn strip_quotes(raw: &str) -> (clean: String)
    ensures
        clean@ == without_quotes(raw@),
{
    let n: usize = raw.unicode_len();
    let mut clean = String::new();
    let mut i: usize = 0;
    while i < n
        invariant
            n == raw@.len(),
            i <= n,
            clean@ == without_quotes(raw@.take(i as int)),
        decreases n - i,
    {
        let c = raw.get_char(i);
        proof {
            let next = raw@.take(i + 1);
            assert(raw@.subrange(i as int, i + 1) =~= seq![c]);
            assert(next =~= raw@.take(i as int).push(c));
            raw@.take(i as int).lemma_filter_push(c, not_a_quote());
        }
        if c != '"' {
            clean.append(raw.substring_char(i, i + 1));
            assert(clean@ =~= without_quotes(raw@.take(i as int)).push(c));
        }
        i = i + 1;
    }
    assert(raw@.take(n as int) =~= raw@);
    clean
}

/// Standard library call `str::contains` with a `&str` pattern: whether the
/// pattern matches a sub-slice of the text. Stated here as the pattern's
/// characters occurring consecutively in the text's characters.
#[verifier::external_body]
pub(crate) fn contains_text(hay: &str, needle: &str) -> (found: bool)
    ensures
        found == occurs_in(needle@, hay@),
{
    hay.contains(needle)
}

} // verus!
