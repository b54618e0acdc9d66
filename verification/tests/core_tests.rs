use template_core::check_matching_pair;
use template_core::check_symbol_string;
use template_core::get_content_type;
use template_core::get_expression_data;
use template_core::get_index_for_symbol;
use template_core::ContentType;
use template_core::ExpressionData;
use template_core::TagType;

#[test]
fn check_literal_test() {
    let s = "<h1>Hello world</h1>";
    assert_eq!(ContentType::Literal(s.to_string()), get_content_type(s));
}

#[test]
fn check_template_variable_test() {
    let content = ExpressionData {
        head: Some("Hi ".to_string()),
        variable: "name".to_string(),
        tail: Some(" ,welcome".to_string()),
    };
    assert_eq!(
        ContentType::TemplateVariable(content),
        get_content_type("Hi {{name}} ,welcome")
    );
}

#[test]
fn check_for_tag_test() {
    assert_eq!(
        ContentType::Tag(TagType::ForTag),
        get_content_type("{% for name in names %} ,welcome")
    );
}

#[test]
fn check_if_tag_test() {
    assert_eq!(
        ContentType::Tag(TagType::IfTag),
        get_content_type("{% if name == 'Bob' %}")
    );
}

#[test]
fn check_symbol_string_test() {
    assert_eq!(true, check_symbol_string("{{hello}}", "{{"));
}

#[test]
fn lib_check_symbol_string_test() {
    assert_eq!(true, check_symbol_string("{{hello}}", "{{"));
}

#[test]
fn check_symbol_pair_test() {
    assert_eq!(true, check_matching_pair("{{hello}}", "{{", "}}"));
}

#[test]
fn check_get_expression_data_test() {
    let expression_data = ExpressionData {
        head: Some("hi ".to_string()),
        variable: "name".to_string(),
        tail: Some(", welcome".to_string()),
    };
    assert_eq!(expression_data, get_expression_data("hi {{name}}, welcome"));
}

#[test]
fn check_get_index_for_symbol_test() {
    assert_eq!((true, 3), get_index_for_symbol("hi {name}, welcome", '{'));
}
