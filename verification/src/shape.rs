//! What the serializer writes, as mathematics: for each node of a document
//! the literal tree that stands for it, or the failure that ends the
//! conversion.
//!
//! A node becomes an object literal whose first property is `kind`, followed
//! by the node's own properties in a fixed order. An absent optional child
//! is written as `{}`, an absent list as `[]`, and every `directives`
//! property as `[]`. Children are visited in source order and the first
//! failure wins.

use vstd::prelude::*;
use crate::binder::{bound_position, Keys};
use crate::document::{
    Argument,
    DefaultValue,
    Definition,
    Document,
    Field,
    FragmentDefinition,
    FragmentSpread,
    InlineFragment,
    ListType,
    NamedType,
    ObjectField,
    OperationDefinition,
    OperationType,
    Selection,
    SelectionSet,
    TypeCondition,
    TypeRef,
    Value,
    Variable,
    VariableDefinition,
};
use crate::error::{Child, ConvertError};
use crate::literal::{empty_array, empty_object, Literal, Tree};
use crate::text::string_text;

verus! {

/// The model of a converted node or of the failure.
pub open spec fn outcome(r: Result<Literal, ConvertError>) -> Result<Tree, ConvertError> {
    match r {
        Ok(literal) => Ok(literal@),
        Err(e) => Err(e),
    }
}

/// The trees of a run of nodes, or the failure of the first node that has
/// one.
pub open spec fn collect(parts: Seq<Result<Tree, ConvertError>>) -> Result<Seq<Tree>, ConvertError>
    decreases parts.len(),
{
    if parts.len() == 0 {
        Ok(Seq::empty())
    } else {
        match (collect(parts.drop_last()), parts.last()) {
            (Ok(trees), Ok(tree)) => Ok(trees.push(tree)),
            (Err(e), _) => Err(e),
            (_, Err(e)) => Err(e),
        }
    }
}

/// The array literal of a run of nodes.
pub open spec fn array_of(parts: Seq<Result<Tree, ConvertError>>) -> Result<Tree, ConvertError> {
    match collect(parts) {
        Ok(trees) => Ok(Tree::Array(trees)),
        Err(e) => Err(e),
    }
}

/// Taking one more node: the trees so far with the new node's tree, or the
/// first failure.
pub proof fn collect_extend(parts: Seq<Result<Tree, ConvertError>>, i: int)
    requires
        0 <= i < parts.len(),
    ensures
        collect(parts.take(i + 1)) == match (collect(parts.take(i)), parts[i]) {
            (Ok(trees), Ok(tree)) => Ok::<Seq<Tree>, ConvertError>(trees.push(tree)),
            (Err(e), _) => Err(e),
            (_, Err(e)) => Err(e),
        },
{
    let longer = parts.take(i + 1);
    assert(longer.drop_last() == parts.take(i));
    assert(longer.last() == parts[i]);
}

/// A failure among the first `i` nodes is the failure of the whole run.
pub proof fn collect_prefix_failure(parts: Seq<Result<Tree, ConvertError>>, i: int)
    requires
        0 <= i <= parts.len(),
        collect(parts.take(i)) is Err,
    ensures
        collect(parts) == collect(parts.take(i)),
    decreases parts.len() - i,
{
    if i < parts.len() {
        collect_extend(parts, i);
        collect_prefix_failure(parts, i + 1);
    } else {
        assert(parts.take(i) == parts);
    }
}

/// A run converts exactly if each of its nodes does, and then to as many
/// trees as it has nodes, each the tree of its node, in order.
pub proof fn collect_is_pointwise(parts: Seq<Result<Tree, ConvertError>>)
    ensures
        match collect(parts) {
            Ok(trees) => trees.len() == parts.len() && forall|i: int|
                0 <= i < parts.len() ==> parts[i] == Ok::<Tree, ConvertError>(#[trigger] trees[i]),
            Err(e) => exists|i: int|
                0 <= i < parts.len() && #[trigger] parts[i] == Err::<Tree, ConvertError>(e)
                    && forall|j: int| 0 <= j < i ==> (#[trigger] parts[j]) is Ok,
        },
    decreases parts.len(),
{
    if parts.len() > 0 {
        let front = parts.drop_last();
        collect_is_pointwise(front);
        match collect(front) {
            Ok(trees) => {
                match parts.last() {
                    Ok(tree) => {
                        let all = trees.push(tree);
                        assert forall|i: int| 0 <= i < parts.len() implies parts[i] == Ok::<
                            Tree,
                            ConvertError,
                        >(#[trigger] all[i]) by {
                            if i < front.len() {
                                assert(front[i] == parts[i]);
                            }
                        }
                    },
                    Err(e) => {
                        let i = parts.len() - 1;
                        assert(parts[i] == Err::<Tree, ConvertError>(e));
                        assert forall|j: int| 0 <= j < i implies (#[trigger] parts[j]) is Ok by {
                            assert(front[j] == Ok::<Tree, ConvertError>(trees[j]));
                            assert(front[j] == parts[j]);
                        }
                    },
                }
            },
            Err(e) => {
                let i = choose|i: int|
                    0 <= i < front.len() && #[trigger] front[i] == Err::<Tree, ConvertError>(e)
                        && forall|j: int| 0 <= j < i ==> (#[trigger] front[j]) is Ok;
                assert(parts[i] == front[i]);
                assert forall|j: int| 0 <= j < i implies (#[trigger] parts[j]) is Ok by {
                    assert(front[j] == parts[j]);
                }
            },
        }
    }
}

/// The property `key: value`.
pub open spec fn prop(key: &str, value: Tree) -> (Seq<char>, Tree) {
    (key@, value)
}

/// The property `kind: "<kind>"`.
pub open spec fn kind_prop(kind: &str) -> (Seq<char>, Tree) {
    ("kind"@, Tree::Text(kind@))
}

/// `{kind: "Name", value}`.
pub open spec fn name_tree(name: Seq<char>) -> Tree {
    Tree::Object(seq![kind_prop("Name"), prop("value", Tree::Text(name))])
}

/// The name node of a node that must have a name.
pub open spec fn required_name_tree(name: Option<String>) -> Result<Tree, ConvertError> {
    match name {
        Some(text) => Ok(name_tree(text@)),
        None => Err(ConvertError::Missing(Child::Name)),
    }
}

/// `{kind: "Document", definitions}`.
pub open spec fn document_tree(document: Document, keys: Keys) -> Result<Tree, ConvertError> {
    match definitions_tree(document.definitions, keys) {
        Ok(definitions) => Ok(
            Tree::Object(seq![kind_prop("Document"), prop("definitions", definitions)]),
        ),
        Err(e) => Err(e),
    }
}

/// What each definition of a list converts to, in order.
pub open spec fn definition_parts(definitions: Vec<Definition>, keys: Keys) -> Seq<
    Result<Tree, ConvertError>,
> {
    Seq::new(definitions@.len(), |i: int| definition_tree(definitions@[i], keys))
}

/// The array of the definitions.
pub open spec fn definitions_tree(definitions: Vec<Definition>, keys: Keys) -> Result<
    Tree,
    ConvertError,
> {
    array_of(definition_parts(definitions, keys))
}

/// An operation or a fragment; a definition of the type system fails.
pub open spec fn definition_tree(definition: Definition, keys: Keys) -> Result<Tree, ConvertError> {
    match definition {
        Definition::Fragment(fragment) => fragment_definition_tree(fragment, keys),
        Definition::Operation(operation) => operation_definition_tree(operation, keys),
        Definition::TypeSystem(kind) => Err(ConvertError::UnsupportedDefinition(kind)),
    }
}

/// `{kind: "OperationDefinition", name, directives, selectionSet,
/// variableDefinitions, operation}`.
pub open spec fn operation_definition_tree(
    definition: OperationDefinition,
    keys: Keys,
) -> Result<Tree, ConvertError> {
    match (
        required_name_tree(definition.name),
        variable_definitions_tree(definition.variable_definitions, keys),
        selection_set_tree(definition.selection_set, keys),
        operation_token(definition.operation_type),
    ) {
        (Ok(name), Ok(variable_definitions), Ok(selection_set), Ok(operation)) => Ok(
            Tree::Object(
                seq![
                    kind_prop("OperationDefinition"),
                    prop("name", name),
                    prop("directives", empty_array()),
                    prop("selectionSet", selection_set),
                    prop("variableDefinitions", variable_definitions),
                    prop("operation", Tree::Text(operation)),
                ],
            ),
        ),
        (Err(e), _, _, _) => Err(e),
        (_, Err(e), _, _) => Err(e),
        (_, _, Err(e), _) => Err(e),
        (_, _, _, Err(e)) => Err(e),
    }
}

/// The keyword of an operation: that of the first keyword token that the
/// node holds, of `query`, `mutation` and `subscription` in this order, and
/// `query` where it holds none.
pub open spec fn operation_token(operation_type: Option<OperationType>) -> Result<
    Seq<char>,
    ConvertError,
> {
    match operation_type {
        None => Err(ConvertError::Missing(Child::OperationType)),
        Some(tokens) => Ok(
            if tokens.query_token {
                "query"@
            } else if tokens.mutation_token {
                "mutation"@
            } else if tokens.subscription_token {
                "subscription"@
            } else {
                "query"@
            },
        ),
    }
}

/// `{kind: "FragmentDefinition", name, typeCondition, directives,
/// selectionSet}`.
pub open spec fn fragment_definition_tree(
    definition: FragmentDefinition,
    keys: Keys,
) -> Result<Tree, ConvertError> {
    match (
        required_name_tree(definition.name),
        type_condition_tree(definition.type_condition),
        selection_set_tree(definition.selection_set, keys),
    ) {
        (Ok(name), Ok(type_condition), Ok(selection_set)) => Ok(
            Tree::Object(
                seq![
                    kind_prop("FragmentDefinition"),
                    prop("name", name),
                    prop("typeCondition", type_condition),
                    prop("directives", empty_array()),
                    prop("selectionSet", selection_set),
                ],
            ),
        ),
        (Err(e), _, _) => Err(e),
        (_, Err(e), _) => Err(e),
        (_, _, Err(e)) => Err(e),
    }
}

/// What each variable definition of a list converts to, in order.
pub open spec fn variable_definition_parts(
    definitions: Vec<VariableDefinition>,
    keys: Keys,
) -> Seq<Result<Tree, ConvertError>> {
    Seq::new(definitions@.len(), |i: int| variable_definition_tree(definitions@[i], keys))
}

/// The array of the variable definitions; `[]` where the operation has none.
pub open spec fn variable_definitions_tree(
    definitions: Option<Vec<VariableDefinition>>,
    keys: Keys,
) -> Result<Tree, ConvertError> {
    match definitions {
        None => Ok(empty_array()),
        Some(list) => array_of(variable_definition_parts(list, keys)),
    }
}

/// `{kind: "VariableDefinition", directives, defaultValue, type, variable}`.
pub open spec fn variable_definition_tree(
    definition: VariableDefinition,
    keys: Keys,
) -> Result<Tree, ConvertError> {
    match (
        defined_variable_tree(definition.variable),
        default_value_tree(definition.default_value, keys),
        type_tree(definition.ty),
    ) {
        (Ok(variable), Ok(default_value), Ok(ty)) => Ok(
            Tree::Object(
                seq![
                    kind_prop("VariableDefinition"),
                    prop("directives", empty_array()),
                    prop("defaultValue", default_value),
                    prop("type", ty),
                    prop("variable", variable),
                ],
            ),
        ),
        (Err(e), _, _) => Err(e),
        (_, Err(e), _) => Err(e),
        (_, _, Err(e)) => Err(e),
    }
}

/// The variable that a variable definition must have.
pub open spec fn defined_variable_tree(variable: Option<Variable>) -> Result<Tree, ConvertError> {
    match variable {
        Some(variable) => variable_tree(variable),
        None => Err(ConvertError::Missing(Child::Variable)),
    }
}

/// A named type or a list type; `{}` where the type is absent; a non-null
/// type fails.
pub open spec fn type_tree(ty: Option<TypeRef>) -> Result<Tree, ConvertError>
    decreases ty,
{
    match ty {
        None => Ok(empty_object()),
        Some(TypeRef::Named(named)) => named_type_tree(named),
        Some(TypeRef::List(list)) => list_type_tree(list),
        Some(TypeRef::NonNull) => Err(ConvertError::UnsupportedNonNullType),
    }
}

/// `{kind: "NamedType", name}`.
pub open spec fn named_type_tree(named: NamedType) -> Result<Tree, ConvertError> {
    match required_name_tree(named.name) {
        Ok(name) => Ok(Tree::Object(seq![kind_prop("NamedType"), prop("name", name)])),
        Err(e) => Err(e),
    }
}

/// `{kind: "ListType", type}`.
pub open spec fn list_type_tree(list: ListType) -> Result<Tree, ConvertError>
    decreases list,
{
    match type_tree(*list.ty) {
        Ok(ty) => Ok(Tree::Object(seq![kind_prop("ListType"), prop("type", ty)])),
        Err(e) => Err(e),
    }
}

/// The named type of a type condition; `{}` where the condition is absent.
pub open spec fn type_condition_tree(condition: Option<TypeCondition>) -> Result<
    Tree,
    ConvertError,
> {
    match condition {
        None => Ok(empty_object()),
        Some(condition) => match required_name_tree(condition.name) {
            Ok(name) => Ok(Tree::Object(seq![kind_prop("NamedType"), prop("name", name)])),
            Err(e) => Err(e),
        },
    }
}

/// `{kind: "SelectionSet", selections}`; `{}` where the set is absent.
pub open spec fn selection_set_tree(
    selection_set: Option<SelectionSet>,
    keys: Keys,
) -> Result<Tree, ConvertError>
    decreases selection_set,
{
    match selection_set {
        None => Ok(empty_object()),
        Some(set) => match selections_tree(set.selections, keys) {
            Ok(selections) => Ok(
                Tree::Object(seq![kind_prop("SelectionSet"), prop("selections", selections)]),
            ),
            Err(e) => Err(e),
        },
    }
}

/// What each selection of a list converts to, in order.
pub open spec fn selection_parts(selections: Vec<Selection>, keys: Keys) -> Seq<
    Result<Tree, ConvertError>,
>
    decreases selections, 0int,
{
    Seq::new(
        selections@.len(),
        |i: int|
            if 0 <= i < selections@.len() {
                selection_tree(selections@[i], keys)
            } else {
                arbitrary()
            },
    )
}

/// The array of the selections.
pub open spec fn selections_tree(selections: Vec<Selection>, keys: Keys) -> Result<
    Tree,
    ConvertError,
>
    decreases selections, 1int,
{
    array_of(selection_parts(selections, keys))
}

/// A field, a fragment spread or an inline fragment.
pub open spec fn selection_tree(selection: Selection, keys: Keys) -> Result<Tree, ConvertError>
    decreases selection,
{
    match selection {
        Selection::Field(field) => field_tree(field, keys),
        Selection::FragmentSpread(spread) => fragment_spread_tree(spread),
        Selection::InlineFragment(fragment) => inline_fragment_tree(fragment, keys),
    }
}

/// `{kind: "Field", name, arguments, directives, selectionSet}`.
pub open spec fn field_tree(field: Field, keys: Keys) -> Result<Tree, ConvertError>
    decreases field,
{
    match (
        required_name_tree(field.name),
        arguments_tree(field.arguments, keys),
        selection_set_tree(field.selection_set, keys),
    ) {
        (Ok(name), Ok(arguments), Ok(selection_set)) => Ok(
            Tree::Object(
                seq![
                    kind_prop("Field"),
                    prop("name", name),
                    prop("arguments", arguments),
                    prop("directives", empty_array()),
                    prop("selectionSet", selection_set),
                ],
            ),
        ),
        (Err(e), _, _) => Err(e),
        (_, Err(e), _) => Err(e),
        (_, _, Err(e)) => Err(e),
    }
}

/// `{kind: "FragmentSpread", name, directives}`.
pub open spec fn fragment_spread_tree(spread: FragmentSpread) -> Result<Tree, ConvertError> {
    match required_name_tree(spread.name) {
        Ok(name) => Ok(
            Tree::Object(
                seq![
                    kind_prop("FragmentSpread"),
                    prop("name", name),
                    prop("directives", empty_array()),
                ],
            ),
        ),
        Err(e) => Err(e),
    }
}

/// `{kind: "InlineFragment", typeCondition, directives, selectionSet}`.
pub open spec fn inline_fragment_tree(fragment: InlineFragment, keys: Keys) -> Result<
    Tree,
    ConvertError,
>
    decreases fragment,
{
    match (
        type_condition_tree(fragment.type_condition),
        selection_set_tree(fragment.selection_set, keys),
    ) {
        (Ok(type_condition), Ok(selection_set)) => Ok(
            Tree::Object(
                seq![
                    kind_prop("InlineFragment"),
                    prop("typeCondition", type_condition),
                    prop("directives", empty_array()),
                    prop("selectionSet", selection_set),
                ],
            ),
        ),
        (Err(e), _) => Err(e),
        (_, Err(e)) => Err(e),
    }
}

/// What each argument of a list converts to, in order.
pub open spec fn argument_parts(arguments: Vec<Argument>, keys: Keys) -> Seq<
    Result<Tree, ConvertError>,
> {
    Seq::new(arguments@.len(), |i: int| argument_tree(arguments@[i], keys))
}

/// The array of the arguments; `[]` where the field has none.
pub open spec fn arguments_tree(arguments: Option<Vec<Argument>>, keys: Keys) -> Result<
    Tree,
    ConvertError,
> {
    match arguments {
        None => Ok(empty_array()),
        Some(list) => array_of(argument_parts(list, keys)),
    }
}

/// `{kind: "Argument", name, value}`.
pub open spec fn argument_tree(argument: Argument, keys: Keys) -> Result<Tree, ConvertError> {
    match (required_name_tree(argument.name), value_tree(argument.value, keys)) {
        (Ok(name), Ok(value)) => Ok(
            Tree::Object(seq![kind_prop("Argument"), prop("name", name), prop("value", value)]),
        ),
        (Err(e), _) => Err(e),
        (_, Err(e)) => Err(e),
    }
}

/// The value of a default; `{}` where the definition has no default.
pub open spec fn default_value_tree(
    default_value: Option<DefaultValue>,
    keys: Keys,
) -> Result<Tree, ConvertError> {
    match default_value {
        None => Ok(empty_object()),
        Some(default) => value_tree(default.value, keys),
    }
}

/// A value that must be there.
pub open spec fn value_tree(value: Option<Value>, keys: Keys) -> Result<Tree, ConvertError>
    decreases value,
{
    match value {
        None => Err(ConvertError::Missing(Child::Value)),
        Some(value) => present_value_tree(value, keys),
    }
}

/// A value, by its variant. A placeholder becomes the host expression that
/// its key is bound to.
pub open spec fn present_value_tree(value: Value, keys: Keys) -> Result<Tree, ConvertError>
    decreases value,
{
    match value {
        Value::Variable(variable) => variable_tree(variable),
        Value::StringValue(source) => string_value_tree(source@),
        Value::FloatValue(token) => float_value_tree(token),
        Value::IntValue(token) => int_value_tree(token),
        Value::BooleanValue(truth) => Ok(boolean_value_tree(truth)),
        Value::NullValue => Ok(null_value_tree()),
        Value::EnumValue(name) => enum_value_tree(name),
        Value::ListValue(items) => list_value_tree(items, keys),
        Value::ObjectValue(fields) => object_value_tree(fields, keys),
        Value::Placeholder(key) => placeholder_tree(key@, keys),
    }
}

/// `{kind: "Variable", name}`.
pub open spec fn variable_tree(variable: Variable) -> Result<Tree, ConvertError> {
    match required_name_tree(variable.name) {
        Ok(name) => Ok(Tree::Object(seq![kind_prop("Variable"), prop("name", name)])),
        Err(e) => Err(e),
    }
}

/// `{kind: "StringValue", value}`, the value being the text between the
/// quotes.
pub open spec fn string_value_tree(source: Seq<char>) -> Result<Tree, ConvertError> {
    match string_text(source) {
        Ok(text) => Ok(string_value_node(text)),
        Err(e) => Err(e),
    }
}

/// `{kind: "StringValue", value}`.
pub open spec fn string_value_node(text: Seq<char>) -> Tree {
    Tree::Object(seq![kind_prop("StringValue"), prop("value", Tree::Text(text))])
}

/// `{kind: "FloatValue", value}`, the value being the token as written.
pub open spec fn float_value_tree(token: Option<String>) -> Result<Tree, ConvertError> {
    match token {
        Some(text) => Ok(
            Tree::Object(seq![kind_prop("FloatValue"), prop("value", Tree::Text(text@))]),
        ),
        None => Err(ConvertError::Missing(Child::FloatToken)),
    }
}

/// `{kind: "IntValue", value}`, the value being the token as written.
pub open spec fn int_value_tree(token: Option<String>) -> Result<Tree, ConvertError> {
    match token {
        Some(text) => Ok(
            Tree::Object(seq![kind_prop("IntValue"), prop("value", Tree::Text(text@))]),
        ),
        None => Err(ConvertError::Missing(Child::IntToken)),
    }
}

/// `{kind: "BooleanValue", value}`, the value being a boolean literal.
pub open spec fn boolean_value_tree(truth: bool) -> Tree {
    Tree::Object(seq![kind_prop("BooleanValue"), prop("value", Tree::Flag(truth))])
}

/// `{kind: "EnumValue", value}`.
pub open spec fn enum_value_tree(name: Option<String>) -> Result<Tree, ConvertError> {
    match name {
        Some(text) => Ok(
            Tree::Object(seq![kind_prop("EnumValue"), prop("value", Tree::Text(text@))]),
        ),
        None => Err(ConvertError::Missing(Child::Name)),
    }
}

/// `{kind: "NullValue"}`.
pub open spec fn null_value_tree() -> Tree {
    Tree::Object(seq![kind_prop("NullValue")])
}

/// `{kind: "ListValue", values}`.
pub open spec fn list_value_tree(items: Vec<Value>, keys: Keys) -> Result<Tree, ConvertError>
    decreases items, 2int,
{
    match list_value_values_tree(items, keys) {
        Ok(values) => Ok(Tree::Object(seq![kind_prop("ListValue"), prop("values", values)])),
        Err(e) => Err(e),
    }
}

/// What each item of a list value converts to, in order.
pub open spec fn list_value_parts(items: Vec<Value>, keys: Keys) -> Seq<Result<Tree, ConvertError>>
    decreases items, 0int,
{
    Seq::new(
        items@.len(),
        |i: int|
            if 0 <= i < items@.len() {
                present_value_tree(items@[i], keys)
            } else {
                arbitrary()
            },
    )
}

/// The array of the items of a list value.
pub open spec fn list_value_values_tree(items: Vec<Value>, keys: Keys) -> Result<Tree, ConvertError>
    decreases items, 1int,
{
    array_of(list_value_parts(items, keys))
}

/// `{kind: "ObjectValue", fields}`.
pub open spec fn object_value_tree(fields: Vec<ObjectField>, keys: Keys) -> Result<
    Tree,
    ConvertError,
>
    decreases fields, 2int,
{
    match object_fields_tree(fields, keys) {
        Ok(list) => Ok(Tree::Object(seq![kind_prop("ObjectValue"), prop("fields", list)])),
        Err(e) => Err(e),
    }
}

/// What each field of an object value converts to, in order.
pub open spec fn object_field_parts(fields: Vec<ObjectField>, keys: Keys) -> Seq<
    Result<Tree, ConvertError>,
>
    decreases fields, 0int,
{
    Seq::new(
        fields@.len(),
        |i: int|
            if 0 <= i < fields@.len() {
                object_field_tree(fields@[i], keys)
            } else {
                arbitrary()
            },
    )
}

/// The array of the fields of an object value.
pub open spec fn object_fields_tree(fields: Vec<ObjectField>, keys: Keys) -> Result<
    Tree,
    ConvertError,
>
    decreases fields, 1int,
{
    array_of(object_field_parts(fields, keys))
}

/// `{kind: "ObjectField", name, value}`.
pub open spec fn object_field_tree(field: ObjectField, keys: Keys) -> Result<Tree, ConvertError>
    decreases field,
{
    match (required_name_tree(field.name), value_tree(field.value, keys)) {
        (Ok(name), Ok(value)) => Ok(
            Tree::Object(
                seq![kind_prop("ObjectField"), prop("name", name), prop("value", value)],
            ),
        ),
        (Err(e), _) => Err(e),
        (_, Err(e)) => Err(e),
    }
}

/// The host expression that a placeholder's key is bound to.
pub open spec fn placeholder_tree(key: Seq<char>, keys: Keys) -> Result<Tree, ConvertError> {
    match bound_position(keys, key) {
        Some(position) => Ok(Tree::Host(position)),
        None => Err(ConvertError::UnboundPlaceholder),
    }
}

} // verus!
