use graphql_tag_transform::binder::Binder;
use graphql_tag_transform::document::{ObjectField, Value, Variable};
use graphql_tag_transform::error::{Child, ConvertError};
use graphql_tag_transform::literal::{Literal, Property};
use graphql_tag_transform::serializer::{
    create_boolean_value, create_enum_value, create_float_value, create_int_value,
    create_list_value, create_list_value_values, create_null_value, create_object_field,
    create_object_fields, create_object_value, create_placeholder, create_present_value,
    create_string_value, create_value,
};
use graphql_tag_transform::text::{contains_text, string_value_text, strip_quotes};

fn s(text: &str) -> String {
    text.to_string()
}

fn text(value: &str) -> Literal {
    Literal::Text(s(value))
}

fn obj(props: Vec<(&str, Literal)>) -> Literal {
    Literal::Object(
        props.into_iter().map(|(key, value)| Property { key: s(key), value }).collect(),
    )
}

fn arr(items: Vec<Literal>) -> Literal {
    Literal::Array(items)
}

fn name(value: &str) -> Literal {
    obj(vec![("kind", text("Name")), ("value", text(value))])
}

fn leaf(kind: &str, value: Literal) -> Literal {
    obj(vec![("kind", text(kind)), ("value", value)])
}

fn no_binder() -> Binder {
    Binder::new(vec![])
}

#[test]
fn string_value_loses_its_quotes() {
    assert_eq!(create_string_value(&s("\"hello\"")), Ok(leaf("StringValue", text("hello"))));
    assert_eq!(create_string_value(&s("\"\"")), Ok(leaf("StringValue", text(""))));
}

#[test]
fn string_value_ignores_what_stands_around_the_quotes() {
    assert_eq!(
        create_string_value(&s("  \"hello world\" \n")),
        Ok(leaf("StringValue", text("hello world")))
    );
    assert_eq!(string_value_text(&s("= \"a\",")), Ok(s("a")));
}

#[test]
fn string_value_takes_its_last_quoted_span() {
    assert_eq!(string_value_text(&s("\"a\" \"bc\"")), Ok(s("bc")));
}

#[test]
fn string_value_keeps_text_between_quotes_as_written() {
    assert_eq!(
        string_value_text(&s("\"caf\u{e9} \u{1F600} 1.50\"")),
        Ok(s("caf\u{e9} \u{1F600} 1.50"))
    );
}

#[test]
fn string_value_without_quoted_span_loses_first_and_last_character() {
    assert_eq!(string_value_text(&s("'abc'")), Ok(s("abc")));
    assert_eq!(string_value_text(&s("\"ab")), Ok(s("a")));
    assert_eq!(string_value_text(&s("xy")), Ok(s("")));
}

#[test]
fn string_value_too_short_is_refused() {
    assert_eq!(create_string_value(&s("x")), Err(ConvertError::UnquotedString));
    assert_eq!(create_string_value(&s("\"")), Err(ConvertError::UnquotedString));
    assert_eq!(create_string_value(&String::new()), Err(ConvertError::UnquotedString));
}

#[test]
fn strip_quotes_works_on_what_the_search_found() {
    let source = s("\"whole\"");
    assert_eq!(strip_quotes(&Some(vec![]), &source), Ok(s("whole")));
    assert_eq!(strip_quotes(&Some(vec![s("\"a\""), s("\"bcd\"")]), &source), Ok(s("bcd")));
    assert_eq!(strip_quotes(&Some(vec![s("\"")]), &source), Err(ConvertError::UnquotedString));
    assert_eq!(strip_quotes(&None, &source), Err(ConvertError::PatternRejected));
}

#[test]
fn contains_text_finds_equal_strings_only() {
    let list = vec![s("gql"), s("graphql")];
    assert!(contains_text(&list, &s("gql")));
    assert!(contains_text(&list, &s("graphql")));
    assert!(!contains_text(&list, &s("gq")));
    assert!(!contains_text(&vec![], &s("gql")));
}

#[test]
fn numeric_tokens_are_copied_as_written() {
    assert_eq!(create_int_value(&Some(s("007"))), Ok(leaf("IntValue", text("007"))));
    assert_eq!(create_int_value(&Some(s("-3"))), Ok(leaf("IntValue", text("-3"))));
    assert_eq!(create_float_value(&Some(s("1.50e3"))), Ok(leaf("FloatValue", text("1.50e3"))));
    assert_eq!(create_int_value(&None), Err(ConvertError::Missing(Child::IntToken)));
    assert_eq!(create_float_value(&None), Err(ConvertError::Missing(Child::FloatToken)));
}

#[test]
fn boolean_value_is_a_boolean_literal() {
    assert_eq!(create_boolean_value(true), leaf("BooleanValue", Literal::Flag(true)));
    assert_eq!(create_boolean_value(false), leaf("BooleanValue", Literal::Flag(false)));
}

#[test]
fn enum_and_null_values() {
    assert_eq!(create_enum_value(&Some(s("ACTIVE"))), Ok(leaf("EnumValue", text("ACTIVE"))));
    assert_eq!(create_enum_value(&None), Err(ConvertError::Missing(Child::Name)));
    assert_eq!(create_null_value(), obj(vec![("kind", text("NullValue"))]));
}

#[test]
fn each_variant_of_value_goes_to_its_node() {
    let b = no_binder();
    let var = Value::Variable(Variable { name: Some(s("v")) });
    assert_eq!(
        create_present_value(&var, &b),
        Ok(obj(vec![("kind", text("Variable")), ("name", name("v"))]))
    );
    assert_eq!(
        create_present_value(&Value::StringValue(s("\"t\"")), &b),
        Ok(leaf("StringValue", text("t")))
    );
    assert_eq!(
        create_present_value(&Value::FloatValue(Some(s("1.0"))), &b),
        Ok(leaf("FloatValue", text("1.0")))
    );
    assert_eq!(
        create_present_value(&Value::IntValue(Some(s("1"))), &b),
        Ok(leaf("IntValue", text("1")))
    );
    assert_eq!(
        create_present_value(&Value::BooleanValue(true), &b),
        Ok(leaf("BooleanValue", Literal::Flag(true)))
    );
    assert_eq!(
        create_present_value(&Value::NullValue, &b),
        Ok(obj(vec![("kind", text("NullValue"))]))
    );
    assert_eq!(
        create_present_value(&Value::EnumValue(Some(s("E"))), &b),
        Ok(leaf("EnumValue", text("E")))
    );
    assert_eq!(
        create_value(&Some(Value::IntValue(Some(s("1")))), &b),
        Ok(leaf("IntValue", text("1")))
    );
}

#[test]
fn list_value_keeps_its_items_in_order() {
    // [1, [2], "x"]
    let list = vec![
        Value::IntValue(Some(s("1"))),
        Value::ListValue(vec![Value::IntValue(Some(s("2")))]),
        Value::StringValue(s("\"x\"")),
    ];
    let items = arr(vec![
        leaf("IntValue", text("1")),
        obj(vec![("kind", text("ListValue")), ("values", arr(vec![leaf("IntValue", text("2"))]))]),
        leaf("StringValue", text("x")),
    ]);
    assert_eq!(
        create_list_value_values(&list, &no_binder()),
        Ok(arr(vec![
            leaf("IntValue", text("1")),
            obj(vec![
                ("kind", text("ListValue")),
                ("values", arr(vec![leaf("IntValue", text("2"))])),
            ]),
            leaf("StringValue", text("x")),
        ]))
    );
    assert_eq!(
        create_list_value(&list, &no_binder()),
        Ok(obj(vec![("kind", text("ListValue")), ("values", items)]))
    );
    assert_eq!(
        create_list_value(&vec![], &no_binder()),
        Ok(obj(vec![("kind", text("ListValue")), ("values", arr(vec![]))]))
    );
}

#[test]
fn list_value_fails_with_its_first_failing_item() {
    let list = vec![
        Value::IntValue(Some(s("1"))),
        Value::EnumValue(None),
        Value::IntValue(None),
    ];
    assert_eq!(create_list_value(&list, &no_binder()), Err(ConvertError::Missing(Child::Name)));
}

#[test]
fn object_value_keeps_its_fields_in_order() {
    // {b: 1, a: {c: null}}
    let fields = vec![
        ObjectField { name: Some(s("b")), value: Some(Value::IntValue(Some(s("1")))) },
        ObjectField {
            name: Some(s("a")),
            value: Some(Value::ObjectValue(vec![ObjectField {
                name: Some(s("c")),
                value: Some(Value::NullValue),
            }])),
        },
    ];
    let field = |n: &str, v: Literal| {
        obj(vec![("kind", text("ObjectField")), ("name", name(n)), ("value", v)])
    };
    let inner = obj(vec![
        ("kind", text("ObjectValue")),
        ("fields", arr(vec![field("c", obj(vec![("kind", text("NullValue"))]))])),
    ]);
    assert_eq!(
        create_object_field(&fields[0], &no_binder()),
        Ok(field("b", leaf("IntValue", text("1"))))
    );
    assert_eq!(
        create_object_fields(&fields, &no_binder()),
        Ok(arr(vec![field("b", leaf("IntValue", text("1"))), field("a", inner)]))
    );
    let inner = obj(vec![
        ("kind", text("ObjectValue")),
        ("fields", arr(vec![field("c", obj(vec![("kind", text("NullValue"))]))])),
    ]);
    assert_eq!(
        create_object_value(&fields, &no_binder()),
        Ok(obj(vec![
            ("kind", text("ObjectValue")),
            ("fields", arr(vec![field("b", leaf("IntValue", text("1"))), field("a", inner)])),
        ]))
    );
    assert_eq!(
        create_object_field(&ObjectField { name: None, value: None }, &no_binder()),
        Err(ConvertError::Missing(Child::Name))
    );
}

#[test]
fn placeholder_becomes_the_bound_host_expression() {
    let binder = Binder::new(vec![Some(s("first")), Some(s("second"))]);
    assert_eq!(create_placeholder(&s("first"), &binder), Ok(Literal::Host(0)));
    assert_eq!(create_placeholder(&s("second"), &binder), Ok(Literal::Host(1)));
    assert_eq!(create_placeholder(&s("third"), &binder), Err(ConvertError::UnboundPlaceholder));
    assert_eq!(
        create_present_value(&Value::Placeholder(s("second")), &binder),
        Ok(Literal::Host(1))
    );
    // inside a list the live expression stands among the literals
    let list = vec![Value::IntValue(Some(s("1"))), Value::Placeholder(s("first"))];
    assert_eq!(
        create_list_value_values(&list, &binder),
        Ok(arr(vec![leaf("IntValue", text("1")), Literal::Host(0)]))
    );
}

#[test]
fn binder_resolves_a_key_to_its_last_position() {
    let binder = Binder::new(vec![Some(s("a")), Some(s("b")), Some(s("a"))]);
    assert_eq!(binder.resolve(&s("a")), Some(2));
    assert_eq!(binder.resolve(&s("b")), Some(1));
    assert_eq!(binder.resolve(&s("c")), None);
    assert_eq!(Binder::new(vec![]).resolve(&s("a")), None);
}

#[test]
fn expression_without_a_key_is_named_by_no_placeholder() {
    let binder = Binder::new(vec![None, Some(s("a")), None]);
    assert_eq!(binder.resolve(&s("a")), Some(1));
    assert_eq!(binder.resolve(&s("")), None);
    assert_eq!(create_placeholder(&s(""), &binder), Err(ConvertError::UnboundPlaceholder));
    assert_eq!(Binder::new(vec![None, None]).resolve(&s("")), None);
}

#[test]
fn literal_constructors_keep_what_they_are_given() {
    assert_eq!(Literal::text("kind"), text("kind"));
    assert_eq!(Literal::array(vec![text("a"), Literal::Flag(true)]), arr(vec![
        text("a"),
        Literal::Flag(true),
    ]));
    assert_eq!(
        Literal::object(vec![Property { key: s("k"), value: text("v") }]),
        obj(vec![("k", text("v"))])
    );
    assert_eq!(Binder::new(vec![Some(s("a")), None]).keys, vec![Some(s("a")), None]);
}
