use graphql_tag_transform::binder::Binder;
use graphql_tag_transform::document::{
    Argument, DefaultValue, Definition, Directive, Document, Field, FragmentDefinition,
    FragmentSpread, InlineFragment, ListType, NamedType, ObjectField, OperationDefinition,
    OperationType, Selection, SelectionSet, TypeCondition, TypeRef, Value, Variable,
    VariableDefinition,
};
use graphql_tag_transform::error::{Child, ConvertError, TypeSystemKind};
use graphql_tag_transform::literal::{create_key_value_prop, Literal, Property};
use graphql_tag_transform::serializer::{
    create_argument, create_arguments, create_default_value, create_definition,
    create_definitions, create_directives, create_document, create_field,
    create_fragment_definition, create_fragment_spread, create_inline_fragment, create_list_type,
    create_name, create_named_type, create_operation_definition, create_selection,
    create_selection_set, create_selections, create_type, create_type_condition, create_value,
    create_variable_definition, create_variable_definitions, create_variable_value,
    get_operation_token,
};

fn s(text: &str) -> String {
    text.to_string()
}

fn text(value: &str) -> Literal {
    Literal::Text(s(value))
}

fn obj(props: Vec<(&str, Literal)>) -> Literal {
    Literal::Object(
        props.into_iter().map(|(key, value)| Property { key: s(key), value }).collect(),
    )
}

fn arr(items: Vec<Literal>) -> Literal {
    Literal::Array(items)
}

fn name(value: &str) -> Literal {
    obj(vec![("kind", text("Name")), ("value", text(value))])
}

fn no_binder() -> Binder {
    Binder::new(vec![])
}

fn query_token() -> Option<OperationType> {
    Some(OperationType { query_token: true, mutation_token: false, subscription_token: false })
}

fn plain_field(field_name: &str) -> Field {
    Field { name: Some(s(field_name)), arguments: None, directives: None, selection_set: None }
}

fn field_literal(field_name: &str, arguments: Literal, selection_set: Literal) -> Literal {
    obj(vec![
        ("kind", text("Field")),
        ("name", name(field_name)),
        ("arguments", arguments),
        ("directives", arr(vec![])),
        ("selectionSet", selection_set),
    ])
}

fn operation(op_name: &str, selections: Vec<Selection>) -> OperationDefinition {
    OperationDefinition {
        operation_type: query_token(),
        name: Some(s(op_name)),
        variable_definitions: None,
        directives: None,
        selection_set: Some(SelectionSet { selections }),
    }
}

fn some_directives() -> Option<Vec<Directive>> {
    Some(vec![Directive {
        name: Some(s("include")),
        arguments: Some(vec![Argument {
            name: Some(s("if")),
            value: Some(Value::BooleanValue(true)),
        }]),
    }])
}

// query Q { user { firstName } }
fn query_q() -> Document {
    let user = Field {
        name: Some(s("user")),
        arguments: None,
        directives: None,
        selection_set: Some(SelectionSet {
            selections: vec![Selection::Field(plain_field("firstName"))],
        }),
    };
    Document {
        definitions: vec![Definition::Operation(operation("Q", vec![Selection::Field(user)]))],
    }
}

#[test]
fn query_with_nested_field_converts_to_the_whole_tree() {
    let expected = obj(vec![
        ("kind", text("Document")),
        (
            "definitions",
            arr(vec![obj(vec![
                ("kind", text("OperationDefinition")),
                ("name", name("Q")),
                ("directives", arr(vec![])),
                (
                    "selectionSet",
                    obj(vec![
                        ("kind", text("SelectionSet")),
                        (
                            "selections",
                            arr(vec![field_literal(
                                "user",
                                arr(vec![]),
                                obj(vec![
                                    ("kind", text("SelectionSet")),
                                    (
                                        "selections",
                                        arr(vec![field_literal(
                                            "firstName",
                                            arr(vec![]),
                                            obj(vec![]),
                                        )]),
                                    ),
                                ]),
                            )]),
                        ),
                    ]),
                ),
                ("variableDefinitions", arr(vec![])),
                ("operation", text("query")),
            ])]),
        ),
    ]);
    assert_eq!(create_document(&query_q(), &no_binder()), Ok(expected));
}

#[test]
fn variable_definition_with_default_and_named_type() {
    // $a: Int = 3
    let definition = VariableDefinition {
        variable: Some(Variable { name: Some(s("a")) }),
        ty: Some(TypeRef::Named(NamedType { name: Some(s("Int")) })),
        default_value: Some(DefaultValue { value: Some(Value::IntValue(Some(s("3")))) }),
        directives: None,
    };
    let expected = obj(vec![
        ("kind", text("VariableDefinition")),
        ("directives", arr(vec![])),
        ("defaultValue", obj(vec![("kind", text("IntValue")), ("value", text("3"))])),
        ("type", obj(vec![("kind", text("NamedType")), ("name", name("Int"))])),
        ("variable", obj(vec![("kind", text("Variable")), ("name", name("a"))])),
    ]);
    assert_eq!(create_variable_definition(&definition, &no_binder()), Ok(expected));
}

#[test]
fn variable_definition_without_default_or_type_has_empty_objects() {
    let definition = VariableDefinition {
        variable: Some(Variable { name: Some(s("a")) }),
        ty: None,
        default_value: None,
        directives: None,
    };
    let expected = obj(vec![
        ("kind", text("VariableDefinition")),
        ("directives", arr(vec![])),
        ("defaultValue", obj(vec![])),
        ("type", obj(vec![])),
        ("variable", obj(vec![("kind", text("Variable")), ("name", name("a"))])),
    ]);
    assert_eq!(create_variable_definition(&definition, &no_binder()), Ok(expected));
}

#[test]
fn variable_definition_failures() {
    let no_variable =
        VariableDefinition { variable: None, ty: None, default_value: None, directives: None };
    assert_eq!(
        create_variable_definition(&no_variable, &no_binder()),
        Err(ConvertError::Missing(Child::Variable))
    );
    let unnamed = VariableDefinition {
        variable: Some(Variable { name: None }),
        ty: None,
        default_value: None,
        directives: None,
    };
    assert_eq!(
        create_variable_definition(&unnamed, &no_binder()),
        Err(ConvertError::Missing(Child::Name))
    );
    let empty_default = VariableDefinition {
        variable: Some(Variable { name: Some(s("a")) }),
        ty: Some(TypeRef::NonNull),
        default_value: Some(DefaultValue { value: None }),
        directives: None,
    };
    // the default value is looked at before the type
    assert_eq!(
        create_variable_definition(&empty_default, &no_binder()),
        Err(ConvertError::Missing(Child::Value))
    );
}

#[test]
fn absent_variable_definitions_are_an_empty_array() {
    assert_eq!(create_variable_definitions(&None, &no_binder()), Ok(arr(vec![])));
    assert_eq!(create_variable_definitions(&Some(vec![]), &no_binder()), Ok(arr(vec![])));
}

#[test]
fn variable_definitions_keep_their_order() {
    let defs = Some(vec![
        VariableDefinition {
            variable: Some(Variable { name: Some(s("a")) }),
            ty: None,
            default_value: None,
            directives: None,
        },
        VariableDefinition {
            variable: Some(Variable { name: Some(s("b")) }),
            ty: None,
            default_value: None,
            directives: None,
        },
    ]);
    let var = |n: &str| {
        obj(vec![
            ("kind", text("VariableDefinition")),
            ("directives", arr(vec![])),
            ("defaultValue", obj(vec![])),
            ("type", obj(vec![])),
            ("variable", obj(vec![("kind", text("Variable")), ("name", name(n))])),
        ])
    };
    assert_eq!(create_variable_definitions(&defs, &no_binder()), Ok(arr(vec![var("a"), var("b")])));
}

#[test]
fn absent_arguments_are_an_empty_array() {
    assert_eq!(create_arguments(&None, &no_binder()), Ok(arr(vec![])));
}

#[test]
fn absent_selection_set_is_an_empty_object() {
    assert_eq!(create_selection_set(&None, &no_binder()), Ok(obj(vec![])));
}

#[test]
fn absent_default_value_is_an_empty_object() {
    assert_eq!(create_default_value(&None, &no_binder()), Ok(obj(vec![])));
}

#[test]
fn absent_type_and_type_condition_are_empty_objects() {
    assert_eq!(create_type(&None), Ok(obj(vec![])));
    assert_eq!(create_type_condition(&None), Ok(obj(vec![])));
}

#[test]
fn field_without_arguments_or_selection_set() {
    assert_eq!(
        create_field(&plain_field("id"), &no_binder()),
        Ok(field_literal("id", arr(vec![]), obj(vec![])))
    );
}

#[test]
fn field_with_arguments() {
    // user(id: $ss, first: 10)
    let field = Field {
        name: Some(s("user")),
        arguments: Some(vec![
            Argument {
                name: Some(s("id")),
                value: Some(Value::Variable(Variable { name: Some(s("ss")) })),
            },
            Argument { name: Some(s("first")), value: Some(Value::IntValue(Some(s("10")))) },
        ]),
        directives: None,
        selection_set: None,
    };
    let expected = field_literal(
        "user",
        arr(vec![
            obj(vec![
                ("kind", text("Argument")),
                ("name", name("id")),
                ("value", obj(vec![("kind", text("Variable")), ("name", name("ss"))])),
            ]),
            obj(vec![
                ("kind", text("Argument")),
                ("name", name("first")),
                ("value", obj(vec![("kind", text("IntValue")), ("value", text("10"))])),
            ]),
        ]),
        obj(vec![]),
    );
    assert_eq!(create_field(&field, &no_binder()), Ok(expected));
}

#[test]
fn field_failures_come_in_source_order() {
    let unnamed = Field {
        name: None,
        arguments: Some(vec![Argument { name: None, value: None }]),
        directives: None,
        selection_set: None,
    };
    assert_eq!(create_field(&unnamed, &no_binder()), Err(ConvertError::Missing(Child::Name)));
    let bad_argument_and_selection = Field {
        name: Some(s("f")),
        arguments: Some(vec![Argument { name: Some(s("a")), value: None }]),
        directives: None,
        selection_set: Some(SelectionSet {
            selections: vec![Selection::FragmentSpread(FragmentSpread {
                name: None,
                directives: None,
            })],
        }),
    };
    assert_eq!(
        create_field(&bad_argument_and_selection, &no_binder()),
        Err(ConvertError::Missing(Child::Value))
    );
}

#[test]
fn directives_in_the_source_are_written_empty() {
    assert_eq!(create_directives(&None), arr(vec![]));
    assert_eq!(create_directives(&some_directives()), arr(vec![]));
    let field = Field {
        name: Some(s("id")),
        arguments: None,
        directives: some_directives(),
        selection_set: None,
    };
    assert_eq!(
        create_field(&field, &no_binder()),
        Ok(field_literal("id", arr(vec![]), obj(vec![])))
    );
    let mut op = operation("Q", vec![Selection::Field(field)]);
    op.directives = some_directives();
    let mut plain = operation("Q", vec![Selection::Field(plain_field("id"))]);
    plain.directives = None;
    assert_eq!(
        create_operation_definition(&op, &no_binder()),
        create_operation_definition(&plain, &no_binder())
    );
}

#[test]
fn directive_arguments_are_never_looked_at() {
    // a directive whose argument has no value would fail if it were converted
    let broken = Some(vec![Directive {
        name: None,
        arguments: Some(vec![Argument { name: None, value: None }]),
    }]);
    let spread = FragmentSpread { name: Some(s("F")), directives: broken };
    assert_eq!(
        create_fragment_spread(&spread),
        Ok(obj(vec![
            ("kind", text("FragmentSpread")),
            ("name", name("F")),
            ("directives", arr(vec![])),
        ]))
    );
}

#[test]
fn definitions_array_has_one_element_per_definition_in_order() {
    let document = Document {
        definitions: vec![
            Definition::Operation(operation("A", vec![])),
            Definition::Fragment(FragmentDefinition {
                name: Some(s("B")),
                type_condition: Some(TypeCondition { name: Some(s("T")) }),
                directives: None,
                selection_set: None,
            }),
            Definition::Operation(operation("C", vec![])),
        ],
    };
    let literal = create_document(&document, &no_binder()).unwrap();
    let props = match literal {
        Literal::Object(props) => props,
        other => panic!("not an object: {:?}", other),
    };
    assert_eq!(props.len(), 2);
    assert_eq!(props[0], Property { key: s("kind"), value: text("Document") });
    assert_eq!(props[1].key, "definitions");
    let items = match &props[1].value {
        Literal::Array(items) => items,
        other => panic!("not an array: {:?}", other),
    };
    assert_eq!(items.len(), 3);
    for (i, definition) in document.definitions.iter().enumerate() {
        assert_eq!(Ok(&items[i]), create_definition(definition, &no_binder()).as_ref());
    }
    assert_eq!(
        create_definitions(&document.definitions, &no_binder()),
        Ok(Literal::Array(
            document
                .definitions
                .iter()
                .map(|d| create_definition(d, &no_binder()).unwrap())
                .collect()
        ))
    );
}

#[test]
fn empty_document_has_no_definitions() {
    let document = Document { definitions: vec![] };
    assert_eq!(
        create_document(&document, &no_binder()),
        Ok(obj(vec![("kind", text("Document")), ("definitions", arr(vec![]))]))
    );
}

#[test]
fn schema_definition_fails_the_whole_document() {
    let document = Document {
        definitions: vec![
            Definition::Operation(operation("Q", vec![Selection::Field(plain_field("id"))])),
            Definition::TypeSystem(TypeSystemKind::SchemaDefinition),
        ],
    };
    assert_eq!(
        create_document(&document, &no_binder()),
        Err(ConvertError::UnsupportedDefinition(TypeSystemKind::SchemaDefinition))
    );
}

#[test]
fn every_type_system_definition_is_refused_with_its_kind() {
    let kinds = [
        TypeSystemKind::DirectiveDefinition,
        TypeSystemKind::SchemaDefinition,
        TypeSystemKind::ScalarTypeDefinition,
        TypeSystemKind::ObjectTypeDefinition,
        TypeSystemKind::InterfaceTypeDefinition,
        TypeSystemKind::UnionTypeDefinition,
        TypeSystemKind::EnumTypeDefinition,
        TypeSystemKind::InputObjectTypeDefinition,
        TypeSystemKind::SchemaExtension,
        TypeSystemKind::ScalarTypeExtension,
        TypeSystemKind::ObjectTypeExtension,
        TypeSystemKind::InterfaceTypeExtension,
        TypeSystemKind::UnionTypeExtension,
        TypeSystemKind::EnumTypeExtension,
        TypeSystemKind::InputObjectTypeExtension,
    ];
    for kind in kinds {
        assert_eq!(
            create_definition(&Definition::TypeSystem(kind), &no_binder()),
            Err(ConvertError::UnsupportedDefinition(kind))
        );
    }
}

#[test]
fn first_failing_definition_decides_the_failure() {
    let document = Document {
        definitions: vec![
            Definition::TypeSystem(TypeSystemKind::EnumTypeDefinition),
            Definition::TypeSystem(TypeSystemKind::SchemaDefinition),
        ],
    };
    assert_eq!(
        create_document(&document, &no_binder()),
        Err(ConvertError::UnsupportedDefinition(TypeSystemKind::EnumTypeDefinition))
    );
}

#[test]
fn operation_definition_has_its_properties_in_order() {
    // mutation M($a: Int) { id }
    let definition = OperationDefinition {
        operation_type: Some(OperationType {
            query_token: false,
            mutation_token: true,
            subscription_token: false,
        }),
        name: Some(s("M")),
        variable_definitions: Some(vec![VariableDefinition {
            variable: Some(Variable { name: Some(s("a")) }),
            ty: Some(TypeRef::Named(NamedType { name: Some(s("Int")) })),
            default_value: None,
            directives: None,
        }]),
        directives: None,
        selection_set: Some(SelectionSet { selections: vec![Selection::Field(plain_field("id"))] }),
    };
    let expected = obj(vec![
        ("kind", text("OperationDefinition")),
        ("name", name("M")),
        ("directives", arr(vec![])),
        (
            "selectionSet",
            obj(vec![
                ("kind", text("SelectionSet")),
                ("selections", arr(vec![field_literal("id", arr(vec![]), obj(vec![]))])),
            ]),
        ),
        (
            "variableDefinitions",
            arr(vec![obj(vec![
                ("kind", text("VariableDefinition")),
                ("directives", arr(vec![])),
                ("defaultValue", obj(vec![])),
                ("type", obj(vec![("kind", text("NamedType")), ("name", name("Int"))])),
                ("variable", obj(vec![("kind", text("Variable")), ("name", name("a"))])),
            ])]),
        ),
        ("operation", text("mutation")),
    ]);
    assert_eq!(create_operation_definition(&definition, &no_binder()), Ok(expected));
}

#[test]
fn operation_definition_failures() {
    let mut unnamed = operation("Q", vec![]);
    unnamed.name = None;
    unnamed.operation_type = None;
    assert_eq!(
        create_operation_definition(&unnamed, &no_binder()),
        Err(ConvertError::Missing(Child::Name))
    );
    let mut untyped = operation("Q", vec![]);
    untyped.operation_type = None;
    assert_eq!(
        create_operation_definition(&untyped, &no_binder()),
        Err(ConvertError::Missing(Child::OperationType))
    );
}

#[test]
fn operation_token_follows_the_keyword() {
    let tokens = |q, m, su| {
        Some(OperationType { query_token: q, mutation_token: m, subscription_token: su })
    };
    assert_eq!(get_operation_token(&tokens(true, false, false)), Ok(s("query")));
    assert_eq!(get_operation_token(&tokens(false, true, false)), Ok(s("mutation")));
    assert_eq!(get_operation_token(&tokens(false, false, true)), Ok(s("subscription")));
    assert_eq!(get_operation_token(&tokens(false, false, false)), Ok(s("query")));
    assert_eq!(get_operation_token(&tokens(true, true, true)), Ok(s("query")));
    assert_eq!(get_operation_token(&tokens(false, true, true)), Ok(s("mutation")));
    assert_eq!(get_operation_token(&None), Err(ConvertError::Missing(Child::OperationType)));
}

#[test]
fn fragment_definition_has_its_properties_in_order() {
    // fragment F on User { id }
    let definition = FragmentDefinition {
        name: Some(s("F")),
        type_condition: Some(TypeCondition { name: Some(s("User")) }),
        directives: None,
        selection_set: Some(SelectionSet { selections: vec![Selection::Field(plain_field("id"))] }),
    };
    let expected = obj(vec![
        ("kind", text("FragmentDefinition")),
        ("name", name("F")),
        ("typeCondition", obj(vec![("kind", text("NamedType")), ("name", name("User"))])),
        ("directives", arr(vec![])),
        (
            "selectionSet",
            obj(vec![
                ("kind", text("SelectionSet")),
                ("selections", arr(vec![field_literal("id", arr(vec![]), obj(vec![]))])),
            ]),
        ),
    ]);
    assert_eq!(create_fragment_definition(&definition, &no_binder()), Ok(expected));
}

#[test]
fn fragment_definition_failures() {
    let unnamed = FragmentDefinition {
        name: None,
        type_condition: None,
        directives: None,
        selection_set: None,
    };
    assert_eq!(
        create_fragment_definition(&unnamed, &no_binder()),
        Err(ConvertError::Missing(Child::Name))
    );
    let untyped = FragmentDefinition {
        name: Some(s("F")),
        type_condition: Some(TypeCondition { name: None }),
        directives: None,
        selection_set: None,
    };
    assert_eq!(
        create_fragment_definition(&untyped, &no_binder()),
        Err(ConvertError::Missing(Child::Name))
    );
}

#[test]
fn fragment_spread_carries_its_name_as_a_name_node() {
    let spread = FragmentSpread { name: Some(s("Parts")), directives: None };
    let expected = obj(vec![
        ("kind", text("FragmentSpread")),
        ("name", name("Parts")),
        ("directives", arr(vec![])),
    ]);
    assert_eq!(create_fragment_spread(&spread), Ok(expected));
    assert_eq!(
        create_fragment_spread(&FragmentSpread { name: None, directives: None }),
        Err(ConvertError::Missing(Child::Name))
    );
}

#[test]
fn inline_fragment_has_its_properties_in_order() {
    // ... on User { id }
    let fragment = InlineFragment {
        type_condition: Some(TypeCondition { name: Some(s("User")) }),
        directives: None,
        selection_set: Some(SelectionSet { selections: vec![Selection::Field(plain_field("id"))] }),
    };
    let expected = obj(vec![
        ("kind", text("InlineFragment")),
        ("typeCondition", obj(vec![("kind", text("NamedType")), ("name", name("User"))])),
        ("directives", arr(vec![])),
        (
            "selectionSet",
            obj(vec![
                ("kind", text("SelectionSet")),
                ("selections", arr(vec![field_literal("id", arr(vec![]), obj(vec![]))])),
            ]),
        ),
    ]);
    assert_eq!(create_inline_fragment(&fragment, &no_binder()), Ok(expected));
}

#[test]
fn inline_fragment_without_condition_or_selection() {
    let fragment = InlineFragment { type_condition: None, directives: None, selection_set: None };
    let expected = obj(vec![
        ("kind", text("InlineFragment")),
        ("typeCondition", obj(vec![])),
        ("directives", arr(vec![])),
        ("selectionSet", obj(vec![])),
    ]);
    assert_eq!(create_inline_fragment(&fragment, &no_binder()), Ok(expected));
}

#[test]
fn selections_keep_their_order_and_variants() {
    let selections = vec![
        Selection::Field(plain_field("a")),
        Selection::FragmentSpread(FragmentSpread { name: Some(s("F")), directives: None }),
        Selection::InlineFragment(InlineFragment {
            type_condition: None,
            directives: None,
            selection_set: None,
        }),
    ];
    let expected = arr(vec![
        field_literal("a", arr(vec![]), obj(vec![])),
        obj(vec![
            ("kind", text("FragmentSpread")),
            ("name", name("F")),
            ("directives", arr(vec![])),
        ]),
        obj(vec![
            ("kind", text("InlineFragment")),
            ("typeCondition", obj(vec![])),
            ("directives", arr(vec![])),
            ("selectionSet", obj(vec![])),
        ]),
    ]);
    assert_eq!(create_selections(&selections, &no_binder()), Ok(expected));
    assert_eq!(
        create_selection(&selections[1], &no_binder()),
        create_fragment_spread(&FragmentSpread { name: Some(s("F")), directives: None })
    );
}

#[test]
fn selection_set_wraps_its_selections() {
    let set = Some(SelectionSet { selections: vec![] });
    assert_eq!(
        create_selection_set(&set, &no_binder()),
        Ok(obj(vec![("kind", text("SelectionSet")), ("selections", arr(vec![]))]))
    );
}

#[test]
fn named_and_list_types() {
    let named = NamedType { name: Some(s("Int")) };
    assert_eq!(
        create_named_type(&named),
        Ok(obj(vec![("kind", text("NamedType")), ("name", name("Int"))]))
    );
    // [[Int]]
    let inner = ListType { ty: Box::new(Some(TypeRef::Named(NamedType { name: Some(s("Int")) }))) };
    let outer = ListType { ty: Box::new(Some(TypeRef::List(inner))) };
    let expected = obj(vec![
        ("kind", text("ListType")),
        (
            "type",
            obj(vec![
                ("kind", text("ListType")),
                ("type", obj(vec![("kind", text("NamedType")), ("name", name("Int"))])),
            ]),
        ),
    ]);
    assert_eq!(create_list_type(&outer), Ok(expected));
    let empty = ListType { ty: Box::new(None) };
    assert_eq!(
        create_list_type(&empty),
        Ok(obj(vec![("kind", text("ListType")), ("type", obj(vec![]))]))
    );
}

#[test]
fn non_null_type_is_refused() {
    assert_eq!(create_type(&Some(TypeRef::NonNull)), Err(ConvertError::UnsupportedNonNullType));
    let list = ListType { ty: Box::new(Some(TypeRef::NonNull)) };
    assert_eq!(
        create_type(&Some(TypeRef::List(list))),
        Err(ConvertError::UnsupportedNonNullType)
    );
    assert_eq!(
        create_named_type(&NamedType { name: None }),
        Err(ConvertError::Missing(Child::Name))
    );
}

#[test]
fn name_and_variable_nodes() {
    assert_eq!(create_name(s("user")), name("user"));
    assert_eq!(
        create_variable_value(&Variable { name: Some(s("id")) }),
        Ok(obj(vec![("kind", text("Variable")), ("name", name("id"))]))
    );
    assert_eq!(
        create_variable_value(&Variable { name: None }),
        Err(ConvertError::Missing(Child::Name))
    );
}

#[test]
fn key_value_prop_holds_key_and_value() {
    assert_eq!(
        create_key_value_prop(s("kind"), text("Name")),
        Property { key: s("kind"), value: text("Name") }
    );
}

#[test]
fn argument_failures() {
    assert_eq!(
        create_argument(&Argument { name: None, value: None }, &no_binder()),
        Err(ConvertError::Missing(Child::Name))
    );
    assert_eq!(
        create_argument(&Argument { name: Some(s("a")), value: None }, &no_binder()),
        Err(ConvertError::Missing(Child::Value))
    );
    assert_eq!(create_value(&None, &no_binder()), Err(ConvertError::Missing(Child::Value)));
}

#[test]
fn object_field_value_is_required_in_object_values() {
    let value = Value::ObjectValue(vec![ObjectField { name: Some(s("a")), value: None }]);
    assert_eq!(
        create_value(&Some(value), &no_binder()),
        Err(ConvertError::Missing(Child::Value))
    );
}
