//! The symbol locator and the pattern matchers: finding the first occurrence
//! of a character, and testing a line for one substring or for a pair of
//! substrings.

use vstd::prelude::*;
use vstd::string::StrSliceExecFns;

verus! {

/// `pat` occurs in `text` starting at position `i`.
pub open spec fn is_match_at(text: Seq<char>, pat: Seq<char>, i: int) -> bool {
    &&& 0 <= i
    &&& i + pat.len() <= text.len()
    &&& forall|j: int| 0 <= j < pat.len() ==> text[i + j] == pat[j]
}

/// `pat` occurs somewhere in `text`.
pub open spec fn contains_sub(text: Seq<char>, pat: Seq<char>) -> bool {
    exists|i: int| is_match_at(text, pat, i)
}

/// `i` is the position of the first occurrence of `c` in `text`.
pub open spec fn is_first_idx(text: Seq<char>, c: char, i: int) -> bool {
    &&& 0 <= i < text.len()
    &&& text[i] == c
    &&& forall|j: int| 0 <= j < i ==> text[j] != c
}

/// A character has at most one first occurrence.
pub proof fn lemma_first_idx_unique(text: Seq<char>, c: char, i: int, j: int)
    requires
        is_first_idx(text, c, i),
        is_first_idx(text, c, j),
    ensures
        i == j,
{
    if i < j {
        assert(text[i] != c);
    }
    if j < i {
        assert(text[j] != c);
    }
}

/// Whether `symbol` occurs in `input` starting exactly at position `i`.
fn match_at(input: &str, symbol: &str, i: usize) -> (r: bool)
    requires
        i + symbol@.len() <= input@.len(),
        input@.len() <= usize::MAX,
    ensures
        r == is_match_at(input@, symbol@, i as int),
{
    let m = symbol.unicode_len();
    let mut j: usize = 0;
    while j < m
        invariant
            m == symbol@.len(),
            i + m <= input@.len() <= usize::MAX,
            j <= m,
            forall|p: int| 0 <= p < j ==> input@[i + p] == symbol@[p],
        decreases m - j,
    {
        if input.get_char(i + j) != symbol.get_char(j) {
            return false;
        }
        j += 1;
    }
    true
}

/// Whether `symbol` occurs anywhere in `input`.
pub fn check_symbol_string(input: &str, symbol: &str) -> (r: bool)
    ensures
        r == contains_sub(input@, symbol@),
{
    let n = input.unicode_len();
    let m = symbol.unicode_len();
    if m > n {
        return false;
    }
    if m == 0 {
        assert(is_match_at(input@, symbol@, 0));
        return true;
    }
    let mut i: usize = 0;
    while i <= n - m
        invariant
            n == input@.len(),
            m == symbol@.len(),
            0 < m <= n,
            i <= n - m + 1,
            forall|p: int| 0 <= p < i ==> !is_match_at(input@, symbol@, p),
        decreases n - m + 1 - i,
    {
        if match_at(input, symbol, i) {
            return true;
        }
        i += 1;
    }
    false
}

/// Whether both `symbol1` and `symbol2` occur in `input`, independently of
/// each other (no ordering or adjacency between them is required).
pub fn check_matching_pair(input: &str, symbol1: &str, symbol2: &str) -> (r: bool)
    ensures
        r == (contains_sub(input@, symbol1@) && contains_sub(input@, symbol2@)),
{
    check_symbol_string(input, symbol1) && check_symbol_string(input, symbol2)
}

/// The symbol locator: scan `input` left to right, character by character,
/// for `symbol`. Returns `(true, position)` with the position of the first
/// occurrence, or `(false, 0)` when the character never occurs; the position
/// of a missing character must not be used as a split point.
pub fn get_index_for_symbol(input: &str, symbol: char) -> (r: (bool, usize))
    ensures
        r.0 == input@.contains(symbol),
        r.0 ==> is_first_idx(input@, symbol, r.1 as int),
        !r.0 ==> r.1 == 0,
{
    let n = input.unicode_len();
    let mut index: usize = 0;
    while index < n
        invariant
            n == input@.len(),
            index <= n,
            forall|j: int| 0 <= j < index ==> input@[j] != symbol,
        decreases n - index,
    {
        if input.get_char(index) == symbol {
            return (true, index);
        }
        index += 1;
    }
    (false, 0)
}

} // verus!
