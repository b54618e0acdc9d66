//! The content classifier: an ordered sequence of substring checks that
//! assigns one line of template source to exactly one content category.

use vstd::prelude::*;
use vstd::string::StrSliceExecFns;
use vstd::string::StringExecFns;

use crate::extract::extract_ok;
use crate::extract::extracts_to;
use crate::extract::get_expression_data;
use crate::extract::split_points;
use crate::search::check_matching_pair;
use crate::search::check_symbol_string;
use crate::search::contains_sub;
use crate::search::get_index_for_symbol;
use crate::search::lemma_first_idx_unique;
use crate::ContentType;
use crate::TagType;

verus! {

/// The line carries both tag delimiters, `{%` and `%}`.
pub open spec fn is_tag_line(t: Seq<char>) -> bool {
    contains_sub(t, "{%"@) && contains_sub(t, "%}"@)
}

/// The line carries the keywords of a `for` tag: both `for` and `in`, or
/// `endfor`.
pub open spec fn is_for_line(t: Seq<char>) -> bool {
    (contains_sub(t, "for"@) && contains_sub(t, "in"@)) || contains_sub(t, "endfor"@)
}

/// The line carries the keywords of an `if` tag: `if` or `endif`.
pub open spec fn is_if_line(t: Seq<char>) -> bool {
    contains_sub(t, "if"@) || contains_sub(t, "endif"@)
}

/// The line carries both variable delimiters, `{{` and `}}`.
pub open spec fn is_var_line(t: Seq<char>) -> bool {
    contains_sub(t, "{{"@) && contains_sub(t, "}}"@)
}

/// The classifier's decision order. The order is significant, because the
/// categories overlap: a tag line is tested for `for` before `if`; a line
/// with both tag and variable delimiters that matches neither keyword set
/// still counts as a template variable; only a line with neither delimiter
/// pair is a literal; everything else is unrecognized. A line whose variable
/// delimiters are present but cannot be split safely (its first `}` comes
/// before its first `{{` can close) is unrecognized rather than sliced out
/// of bounds.
pub open spec fn classifies_as(t: Seq<char>, r: ContentType) -> bool {
    if is_tag_line(t) && is_for_line(t) {
        r == ContentType::Tag(TagType::ForTag)
    } else if is_tag_line(t) && is_if_line(t) {
        r == ContentType::Tag(TagType::IfTag)
    } else if is_var_line(t) && extract_ok(t) {
        r matches ContentType::TemplateVariable(e) && extracts_to(t, e)
    } else if is_var_line(t) {
        r == ContentType::Unrecognized
    } else if !is_tag_line(t) {
        r matches ContentType::Literal(s) && s@ == t
    } else {
        r == ContentType::Unrecognized
    }
}

/// Map one line of template source to exactly one [`ContentType`],
/// following the decision order of [`classifies_as`].
pub fn get_content_type(input_line: &str) -> (r: ContentType)
    ensures
        classifies_as(input_line@, r),
{
    let ghost t = input_line@;
    let is_tag_expression = check_matching_pair(input_line, "{%", "%}");
    let is_for_tag = (check_symbol_string(input_line, "for") && check_symbol_string(
        input_line,
        "in",
    )) || check_symbol_string(input_line, "endfor");
    let is_if_tag = check_symbol_string(input_line, "if") || check_symbol_string(
        input_line,
        "endif",
    );
    let is_template_variable = check_matching_pair(input_line, "{{", "}}");

    if is_tag_expression && is_for_tag {
        ContentType::Tag(TagType::ForTag)
    } else if is_tag_expression && is_if_tag {
        ContentType::Tag(TagType::IfTag)
    } else if is_template_variable {
        let n = input_line.unicode_len();
        let (found_open, i) = get_index_for_symbol(input_line, '{');
        let (found_close, k) = get_index_for_symbol(input_line, '}');
        if found_open && found_close && k >= 2 && i <= k - 2 && k <= n - 2 {
            proof {
                assert(split_points(t, i as int, k as int));
            }
            ContentType::TemplateVariable(get_expression_data(input_line))
        } else {
            proof {
                if extract_ok(t) {
                    let (i0, k0): (int, int) = choose|i0: int, k0: int| split_points(t, i0, k0);
                    assert(t[i0] == '{');
                    assert(t.contains('{'));
                    assert(t[k0] == '}');
                    assert(t.contains('}'));
                    lemma_first_idx_unique(t, '{', i as int, i0);
                    lemma_first_idx_unique(t, '}', k as int, k0);
                    assert(false);
                }
            }
            ContentType::Unrecognized
        }
    } else if !is_tag_expression && !is_template_variable {
        ContentType::Literal(String::from_str(input_line))
    } else {
        ContentType::Unrecognized
    }
}

} // verus!
