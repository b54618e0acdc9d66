//! The expression extractor: splitting a line that holds a `{{ variable }}`
//! placeholder into head, variable name, and tail.

use vstd::prelude::*;
use vstd::string::StrSliceExecFns;
use vstd::string::StringExecFns;

use crate::search::get_index_for_symbol;
use crate::search::is_first_idx;
use crate::search::lemma_first_idx_unique;
use crate::ExpressionData;

verus! {

/// `i` and `k` are valid split points for extraction: `i` is where the first
/// `{` stands, `k` where the first `}` stands, the opening delimiter fits
/// before `k`, and the closing delimiter fits inside the line.
pub open spec fn split_points(t: Seq<char>, i: int, k: int) -> bool {
    &&& is_first_idx(t, '{', i)
    &&& is_first_idx(t, '}', k)
    &&& i + 2 <= k
    &&& k + 2 <= t.len()
}

/// The line can be split around a placeholder without leaving its bounds:
/// this is what makes extraction safe.
pub open spec fn extract_ok(t: Seq<char>) -> bool {
    exists|i: int, k: int| split_points(t, i, k)
}

/// `e` holds the three parts of `t` cut at the split points `i` and `k`:
/// the text before the first `{`, the text strictly between the opening
/// `{{` and the first `}`, and the text after the closing `}}`.
pub open spec fn split_parts(t: Seq<char>, e: ExpressionData, i: int, k: int) -> bool {
    &&& (e.head matches Some(h) && h@ == t.subrange(0, i))
    &&& e.variable@ == t.subrange(i + 2, k)
    &&& (e.tail matches Some(tl) && tl@ == t.subrange(k + 2, t.len() as int))
}

/// `e` is the extraction of `t`: its parts are cut at the first `{` and the
/// first `}` of the line.
pub open spec fn extracts_to(t: Seq<char>, e: ExpressionData) -> bool {
    exists|i: int, k: int| split_points(t, i, k) && split_parts(t, e, i, k)
}

/// Split a line around its `{{ variable }}` placeholder: `head` is the text
/// before the first `{`, `variable` the text between the opening `{{` and
/// the first `}`, and `tail` the text after the closing `}}`. Both `head`
/// and `tail` are always filled in, even when empty.
///
/// The caller must have confirmed that the line has the accepted shape (the
/// classifier checks this before routing a line here).
pub fn get_expression_data(input_line: &str) -> (r: ExpressionData)
    requires
        extract_ok(input_line@),
    ensures
        extracts_to(input_line@, r),
{
    let ghost t = input_line@;
    let ghost (i0, k0): (int, int) = choose|i0: int, k0: int| split_points(t, i0, k0);
    proof {
        assert(t[i0] == '{');
        assert(t.contains('{'));
        assert(t[k0] == '}');
        assert(t.contains('}'));
    }
    let (_h, i) = get_index_for_symbol(input_line, '{');
    let (_j, k) = get_index_for_symbol(input_line, '}');
    proof {
        lemma_first_idx_unique(t, '{', i as int, i0);
        lemma_first_idx_unique(t, '}', k as int, k0);
    }
    let n = input_line.unicode_len();
    let head = String::from_str(input_line.substring_char(0, i));
    let variable = String::from_str(input_line.substring_char(i + 2, k));
    let tail = String::from_str(input_line.substring_char(k + 2, n));

    let r = ExpressionData { head: Some(head), variable, tail: Some(tail) };
    proof {
        assert(split_points(t, i as int, k as int));
        assert(split_parts(t, r, i as int, k as int));
    }
    r
}

} // verus!
