//! Classification and extraction core of a minimal line-oriented template
//! engine.
//!
//! Given one line of template source text, [`get_content_type`] decides what
//! kind of content it is: plain text, a `{{ variable }}` interpolation, a
//! `{% ... %}` control tag, or unrecognized. For variable interpolations,
//! [`get_expression_data`] splits the line into the literal text before the
//! placeholder, the variable name, and the literal text after it, and
//! [`generate_html_template_var`] substitutes a value from a [`Context`] to
//! produce the rendered fragment.

use vstd::prelude::*;

pub mod classify;
pub mod extract;
pub mod laws;
pub mod render;
pub mod search;

pub use classify::get_content_type;
pub use extract::get_expression_data;
pub use render::generate_html_template_var;
pub use render::Context;
pub use search::check_matching_pair;
pub use search::check_symbol_string;
pub use search::get_index_for_symbol;

verus! {

/// The kinds of content one line of template source can hold. Exactly one
/// variant applies per line; overlaps are resolved by the classifier's
/// decision order (see [`classify::classifies_as`]).
#[derive(PartialEq, Debug)]
pub enum ContentType {
    /// Plain text with no recognized markers; carries the line unchanged.
    Literal(String),
    /// A line containing a `{{ ... }}` placeholder, already split apart.
    TemplateVariable(ExpressionData),
    /// A control-tag line such as `{% for x in xs %}`.
    Tag(TagType),
    /// Markers are present but the line matches no known shape.
    Unrecognized,
}

/// The control construct a tag line stands for. Only these two are modeled;
/// tags are detected, never executed.
#[derive(PartialEq, Debug)]
pub enum TagType {
    ForTag,
    IfTag,
}

/// A line split around one `{{ ... }}` placeholder. For the line
/// `Hi {{name}} ,welcome`: `head` is `"Hi "`, `variable` is `"name"`, and
/// `tail` is `" ,welcome"`. The extractor always fills `head` and `tail`,
/// even when they are empty.
#[derive(PartialEq, Debug)]
pub struct ExpressionData {
    pub head: Option<String>,
    pub variable: String,
    pub tail: Option<String>,
}

} // verus!
