use template_core::check_matching_pair;
use template_core::check_symbol_string;
use template_core::generate_html_template_var;
use template_core::get_content_type;
use template_core::get_expression_data;
use template_core::get_index_for_symbol;
use template_core::ContentType;
use template_core::Context;
use template_core::ExpressionData;
use template_core::TagType;

#[test]
fn endfor_classifies_as_for_tag() {
    assert_eq!(ContentType::Tag(TagType::ForTag), get_content_type("{% endfor %}"));
}

#[test]
fn endif_classifies_as_if_tag() {
    assert_eq!(ContentType::Tag(TagType::IfTag), get_content_type("{% endif %}"));
}

#[test]
fn variable_line_splits_around_placeholder() {
    let expected = ExpressionData {
        head: Some("Hi ".to_string()),
        variable: "name".to_string(),
        tail: Some(" world".to_string()),
    };
    assert_eq!(
        ContentType::TemplateVariable(expected),
        get_content_type("Hi {{name}} world")
    );
}

#[test]
fn extraction_round_trip_plain_parts() {
    let expected = ExpressionData {
        head: Some("ab".to_string()),
        variable: "xy".to_string(),
        tail: Some("cd".to_string()),
    };
    assert_eq!(expected, get_expression_data("ab{{xy}}cd"));
}

#[test]
fn extraction_fills_empty_head_and_tail() {
    let expected = ExpressionData {
        head: Some("".to_string()),
        variable: "v".to_string(),
        tail: Some("".to_string()),
    };
    assert_eq!(expected, get_expression_data("{{v}}"));
}

#[test]
fn extraction_keeps_spaces_in_variable() {
    let expected = ExpressionData {
        head: Some("a".to_string()),
        variable: " n ".to_string(),
        tail: Some("b".to_string()),
    };
    assert_eq!(expected, get_expression_data("a{{ n }}b"));
}

#[test]
fn extraction_counts_characters_not_bytes() {
    let expected = ExpressionData {
        head: Some("héé ".to_string()),
        variable: "ñ".to_string(),
        tail: Some("!".to_string()),
    };
    assert_eq!(expected, get_expression_data("héé {{ñ}}!"));
}

#[test]
fn render_substitutes_bound_variable() {
    let content = ExpressionData {
        head: Some("Hi ".to_string()),
        variable: "name".to_string(),
        tail: Some(" world".to_string()),
    };
    let mut context = Context::new();
    context.insert("name".to_string(), "Bob".to_string());
    assert_eq!("Hi Bob world", generate_html_template_var(content, &context));
}

#[test]
fn render_omits_unbound_variable() {
    let content = ExpressionData {
        head: Some("Hi ".to_string()),
        variable: "name".to_string(),
        tail: Some(" world".to_string()),
    };
    let context = Context::new();
    assert_eq!("Hi  world", generate_html_template_var(content, &context));
}

#[test]
fn render_without_head_or_tail() {
    let content = ExpressionData {
        head: None,
        variable: "x".to_string(),
        tail: None,
    };
    let mut context = Context::new();
    context.insert("x".to_string(), "1".to_string());
    assert_eq!("1", generate_html_template_var(content, &context));
}

#[test]
fn render_uses_latest_binding() {
    let content = ExpressionData {
        head: None,
        variable: "name".to_string(),
        tail: None,
    };
    let mut context = Context::new();
    context.insert("name".to_string(), "Bob".to_string());
    context.insert("name".to_string(), "Eve".to_string());
    assert_eq!("Eve", generate_html_template_var(content, &context));
}

#[test]
fn for_tag_precedes_variable() {
    assert_eq!(
        ContentType::Tag(TagType::ForTag),
        get_content_type("{% for x in xs %} {{x}}")
    );
}

#[test]
fn tag_without_keyword_is_unrecognized() {
    assert_eq!(ContentType::Unrecognized, get_content_type("{% unknown %}"));
}

#[test]
fn misordered_braces_are_unrecognized() {
    assert_eq!(ContentType::Unrecognized, get_content_type("}}{{"));
}

#[test]
fn symbol_string_absent() {
    assert_eq!(false, check_symbol_string("{{hello}}", "%}"));
}

#[test]
fn matching_pair_needs_both_symbols() {
    assert_eq!(false, check_matching_pair("{{hello", "{{", "}}"));
}

#[test]
fn index_for_missing_symbol() {
    assert_eq!((false, 0), get_index_for_symbol("abc", '{'));
}

#[test]
fn index_counts_characters_not_bytes() {
    assert_eq!((true, 6), get_index_for_symbol("héllo {x}", '{'));
}
