//! Finding a ticker in a headline.

use crate::text::{chars_of, occurs_at, occurs_at_exec, uppercase_of};
use vstd::prelude::*;

verus! {

/// Whether `c` is one of the 52 ASCII letters.
pub open spec fn is_ascii_letter(c: char) -> bool {
    (0x41 <= c as u32 <= 0x5a) || (0x61 <= c as u32 <= 0x7a)
}

/// Whether `c` is one of the 52 ASCII letters.
pub fn char_is_ascii_letter(c: char) -> (r: bool)
    ensures
        r == is_ascii_letter(c),
{
    let n: u32 = c as u32;
    (0x41 <= n && n <= 0x5a) || (0x61 <= n && n <= 0x7a)
}

/// Whether `needle` stands in `hay` at index `at` as a word of its own: no
/// ASCII letter comes right before it or right after it.
pub open spec fn word_at(hay: Seq<char>, needle: Seq<char>, at: int) -> bool {
    &&& occurs_at(hay, needle, at)
    &&& (at == 0 || !is_ascii_letter(hay[at - 1]))
    &&& (at + needle.len() >= hay.len() || !is_ascii_letter(hay[at + needle.len()]))
}

/// Whether the non-empty `needle` stands somewhere in `hay` as a word of its
/// own.
pub open spec fn contains_word(hay: Seq<char>, needle: Seq<char>) -> bool {
    needle.len() > 0 && exists|at: int| word_at(hay, needle, at)
}

/// Whether `needle` stands somewhere in `hay` as a word of its own.
pub fn contains_word_chars(hay: &Vec<char>, needle: &Vec<char>) -> (r: bool)
    ensures
        r == contains_word(hay@, needle@),
{
    if needle.len() == 0 {
        return false;
    }
    if needle.len() > hay.len() {
        assert(forall|at: int| !occurs_at(hay@, needle@, at));
        return false;
    }
    let last: usize = hay.len() - needle.len();
    let mut at: usize = 0;
    while at <= last
        invariant
            at <= last + 1,
            last < hay.len(),
            last == hay.len() - needle.len(),
            needle.len() > 0,
            forall|k: int| 0 <= k < at ==> !word_at(hay@, needle@, k),
        decreases last + 1 - at,
    {
        if occurs_at_exec(hay, needle, at) {
            let before_ok = at == 0 || !char_is_ascii_letter(hay[at - 1]);
            let end = at + needle.len();
            let after_ok = end >= hay.len() || !char_is_ascii_letter(hay[end]);
            if before_ok && after_ok {
                assert(word_at(hay@, needle@, at as int));
                return true;
            }
        }
        at += 1;
    }
    assert(forall|k: int| !word_at(hay@, needle@, k));
    false
}

/// Whether a headline names a ticker as a word of its own, whatever the
/// case of the headline: "DEWA" is in "Saham DEWA Naik" and in
/// "Darma (DEWA)", not in "Dewan Pengawas". The ticker is taken as it is;
/// an empty ticker is in no headline.
pub fn title_contains_ticker(title: &str, ticker: &str) -> (r: bool)
    ensures
        r == contains_word(uppercase_of(title@), ticker@),
{
    if ticker.is_empty() {
        return false;
    }
    let upper = title.to_uppercase();
    let hay = chars_of(upper.as_str());
    let needle = chars_of(ticker);
    contains_word_chars(&hay, &needle)
}

} // verus!
