//! The properties the classifier and the extractor are held to, stated over
//! the same spec functions their contracts use.

use vstd::prelude::*;

use crate::classify::classifies_as;
use crate::classify::is_for_line;
use crate::classify::is_if_line;
use crate::classify::is_tag_line;
use crate::classify::is_var_line;
use crate::extract::extract_ok;
use crate::extract::extracts_to;
use crate::extract::split_parts;
use crate::extract::split_points;
use crate::search::contains_sub;
use crate::search::is_first_idx;
use crate::search::lemma_first_idx_unique;
use crate::ContentType;
use crate::ExpressionData;
use crate::TagType;

verus! {

/// A line with none of the four delimiter substrings is classified as a
/// literal that carries the line unchanged.
pub proof fn lemma_literal_classification(t: Seq<char>, r: ContentType)
    requires
        !contains_sub(t, "{{"@),
        !contains_sub(t, "}}"@),
        !contains_sub(t, "{%"@),
        !contains_sub(t, "%}"@),
        classifies_as(t, r),
    ensures
        r matches ContentType::Literal(s) && s@ == t,
{
}

/// The tag-with-for check precedes the variable check: a tag line that
/// carries the `for` keywords is classified as a `for` tag, whatever else
/// the line contains.
pub proof fn lemma_for_tag_precedes_variable(t: Seq<char>, r: ContentType)
    requires
        is_tag_line(t),
        is_for_line(t),
        classifies_as(t, r),
    ensures
        r == ContentType::Tag(TagType::ForTag),
{
}

/// A tag line that carries neither the `for` keywords nor the `if`
/// keywords, and no variable delimiters, is classified as unrecognized.
pub proof fn lemma_tag_without_keyword_unrecognized(t: Seq<char>, r: ContentType)
    requires
        is_tag_line(t),
        !is_for_line(t),
        !is_if_line(t),
        !is_var_line(t),
        classifies_as(t, r),
    ensures
        r == ContentType::Unrecognized,
{
}

/// In a line of the accepted shape `h + "{{" + v + "}}" + t`, where none of
/// the parts contains a brace, the first `{` of the line opens the
/// placeholder and the first `}` closes it, so extraction is safe.
pub proof fn lemma_placeholder_line_shape(h: Seq<char>, v: Seq<char>, t: Seq<char>)
    requires
        forall|j: int| 0 <= j < h.len() ==> h[j] != '{' && h[j] != '}',
        forall|j: int| 0 <= j < v.len() ==> v[j] != '{' && v[j] != '}',
        forall|j: int| 0 <= j < t.len() ==> t[j] != '{' && t[j] != '}',
    ensures
        split_points(h + "{{"@ + v + "}}"@ + t, h.len() as int, h.len() + 2 + v.len() as int),
        extract_ok(h + "{{"@ + v + "}}"@ + t),
{
    reveal_strlit("{{");
    reveal_strlit("}}");
    let line = h + "{{"@ + v + "}}"@ + t;
    let i = h.len() as int;
    let k = h.len() as int + 2 + v.len() as int;
    assert(("{{"@).len() == 2 && ("}}"@).len() == 2);
    assert(("{{"@)[0] == '{' && ("{{"@)[1] == '{');
    assert(("}}"@)[0] == '}' && ("}}"@)[1] == '}');
    assert(line.len() == h.len() + 2 + v.len() + 2 + t.len());
    assert forall|j: int| 0 <= j < h.len() implies line[j] == h[j] by {}
    assert(line[i] == '{');
    assert(line[i + 1] == '{');
    assert forall|j: int| 0 <= j < v.len() implies line[i + 2 + j] == v[j] by {}
    assert(line[k] == '}');
    assert(is_first_idx(line, '{', i));
    assert forall|j: int| 0 <= j < k implies line[j] != '}' by {
        if j < i {
            assert(line[j] == h[j]);
        } else if j < i + 2 {
            assert(line[j] == '{');
        } else {
            assert(line[j] == v[j - (i + 2)]);
        }
    }
    assert(is_first_idx(line, '}', k));
    assert(split_points(line, i, k));
}

/// Round trip: extracting a line of the accepted shape
/// `h + "{{" + v + "}}" + t`, where none of the parts contains a brace,
/// recovers exactly `h` as the head, `v` as the variable, and `t` as the
/// tail.
pub proof fn lemma_extract_round_trip(h: Seq<char>, v: Seq<char>, t: Seq<char>, e: ExpressionData)
    requires
        forall|j: int| 0 <= j < h.len() ==> h[j] != '{' && h[j] != '}',
        forall|j: int| 0 <= j < v.len() ==> v[j] != '{' && v[j] != '}',
        forall|j: int| 0 <= j < t.len() ==> t[j] != '{' && t[j] != '}',
        extracts_to(h + "{{"@ + v + "}}"@ + t, e),
    ensures
        e.head matches Some(hh) && hh@ == h,
        e.variable@ == v,
        e.tail matches Some(tt) && tt@ == t,
{
    reveal_strlit("{{");
    reveal_strlit("}}");
    lemma_placeholder_line_shape(h, v, t);
    let line = h + "{{"@ + v + "}}"@ + t;
    let i = h.len() as int;
    let k = h.len() as int + 2 + v.len() as int;
    let (i0, k0): (int, int) = choose|i0: int, k0: int|
        split_points(line, i0, k0) && split_parts(line, e, i0, k0);
    lemma_first_idx_unique(line, '{', i0, i);
    lemma_first_idx_unique(line, '}', k0, k);
    assert forall|j: int| 0 <= j < h.len() implies line[j] == h[j] by {}
    assert forall|j: int| 0 <= j < v.len() implies line[i + 2 + j] == v[j] by {}
    assert forall|j: int| 0 <= j < t.len() implies line[k + 2 + j] == t[j] by {}
    assert(line.subrange(0, i) =~= h);
    assert(line.subrange(i + 2, k) =~= v);
    assert(line.subrange(k + 2, line.len() as int) =~= t);
}

} // verus!
