//! What holds of every document that converts: the shape of the nodes that
//! are written, the count and order of the definitions, and how absent
//! parts and directives come out.

use vstd::prelude::*;
use crate::binder::{bound_position, bound_position_holds_key, Keys};
use crate::document::{
    Argument,
    DefaultValue,
    Definition,
    Document,
    Field,
    FragmentDefinition,
    FragmentSpread,
    InlineFragment,
    ListType,
    NamedType,
    ObjectField,
    OperationDefinition,
    Selection,
    SelectionSet,
    TypeCondition,
    TypeRef,
    Value,
    Variable,
    VariableDefinition,
};
use crate::error::ConvertError;
use crate::kinds::{field_names, kind_text, NodeKind};
use crate::literal::{empty_array, empty_object, Tree};
use crate::shape::{
    argument_parts,
    argument_tree,
    arguments_tree,
    array_of,
    boolean_value_tree,
    collect,
    collect_is_pointwise,
    default_value_tree,
    definition_parts,
    definition_tree,
    definitions_tree,
    document_tree,
    enum_value_tree,
    field_tree,
    float_value_tree,
    fragment_definition_tree,
    fragment_spread_tree,
    inline_fragment_tree,
    int_value_tree,
    list_type_tree,
    list_value_parts,
    list_value_values_tree,
    name_tree,
    named_type_tree,
    null_value_tree,
    object_field_parts,
    object_field_tree,
    object_fields_tree,
    operation_definition_tree,
    placeholder_tree,
    present_value_tree,
    required_name_tree,
    selection_parts,
    selection_set_tree,
    selection_tree,
    selections_tree,
    string_value_tree,
    type_condition_tree,
    type_tree,
    value_tree,
    variable_definition_parts,
    variable_definition_tree,
    variable_definitions_tree,
    variable_tree,
};

verus! {

/// The properties of a node of the given kind: `kind` with the kind's text,
/// then the kind's own properties under their keys, in their order.
pub open spec fn is_node(props: Seq<(Seq<char>, Tree)>, kind: NodeKind) -> bool {
    &&& props.len() == 1 + field_names(kind).len()
    &&& props[0] == ("kind"@, Tree::Text(kind_text(kind)))
    &&& forall|i: int|
        0 <= i < field_names(kind).len() ==> (#[trigger] props[i + 1]).0 == field_names(kind)[i]
}

/// Every object in the tree is `{}` or a node of some kind.
pub open spec fn canonical(tree: Tree) -> bool
    decreases tree,
{
    match tree {
        Tree::Object(props) => {
            &&& props.len() == 0 || exists|kind: NodeKind| is_node(props, kind)
            &&& forall|i: int| 0 <= i < props.len() ==> canonical((#[trigger] props[i]).1)
        },
        Tree::Array(items) => forall|i: int|
            0 <= i < items.len() ==> canonical(#[trigger] items[i]),
        _ => true,
    }
}

/// Every property `directives` in the tree holds `[]`.
pub open spec fn directives_empty(tree: Tree) -> bool
    decreases tree,
{
    match tree {
        Tree::Object(props) => forall|i: int|
            0 <= i < props.len() ==> {
                &&& (#[trigger] props[i]).0 == "directives"@ ==> props[i].1 == empty_array()
                &&& directives_empty(props[i].1)
            },
        Tree::Array(items) => forall|i: int|
            0 <= i < items.len() ==> directives_empty(#[trigger] items[i]),
        _ => true,
    }
}

/// Both invariants at once.
spec fn sound(tree: Tree) -> bool {
    canonical(tree) && directives_empty(tree)
}

/// A converted part is sound, and a failed part is of no concern.
spec fn sound_if_ok(part: Result<Tree, ConvertError>) -> bool {
    part matches Ok(tree) ==> sound(tree)
}

/// No other key is `directives`.
proof fn other_keys_differ()
    ensures
        "kind"@ != "directives"@,
        "definitions"@ != "directives"@,
        "name"@ != "directives"@,
        "selectionSet"@ != "directives"@,
        "variableDefinitions"@ != "directives"@,
        "operation"@ != "directives"@,
        "typeCondition"@ != "directives"@,
        "defaultValue"@ != "directives"@,
        "type"@ != "directives"@,
        "variable"@ != "directives"@,
        "value"@ != "directives"@,
        "selections"@ != "directives"@,
        "arguments"@ != "directives"@,
        "values"@ != "directives"@,
        "fields"@ != "directives"@,
{
    reveal_strlit("directives");
    reveal_strlit("kind");
    reveal_strlit("definitions");
    reveal_strlit("name");
    reveal_strlit("selectionSet");
    reveal_strlit("variableDefinitions");
    reveal_strlit("operation");
    reveal_strlit("typeCondition");
    reveal_strlit("defaultValue");
    reveal_strlit("type");
    reveal_strlit("variable");
    reveal_strlit("value");
    reveal_strlit("selections");
    reveal_strlit("arguments");
    reveal_strlit("values");
    reveal_strlit("fields");
    assert("selections"@[0] != "directives"@[0]);
    assert("definitions"@.len() != "directives"@.len());
    assert("defaultValue"@.len() != "directives"@.len());
}

/// A node is sound if its parts are and its `directives` is `[]`.
proof fn node_is_sound(props: Seq<(Seq<char>, Tree)>, kind: NodeKind)
    requires
        is_node(props, kind),
        forall|i: int| 1 <= i < props.len() ==> sound((#[trigger] props[i]).1),
        forall|i: int|
            1 <= i < props.len() && (#[trigger] props[i]).0 == "directives"@ ==> props[i].1
                == empty_array(),
    ensures
        sound(Tree::Object(props)),
{
    other_keys_differ();
    assert(canonical(props[0].1) && directives_empty(props[0].1));
    assert forall|i: int| 0 <= i < props.len() implies canonical((#[trigger] props[i]).1) by {
        if i > 0 {
            assert(sound(props[i].1));
        }
    }
    assert forall|i: int| 0 <= i < props.len() implies {
        &&& (#[trigger] props[i]).0 == "directives"@ ==> props[i].1 == empty_array()
        &&& directives_empty(props[i].1)
    } by {
        if i > 0 {
            assert(sound(props[i].1));
        }
    }
}

/// `{}` and `[]` are sound.
proof fn empty_is_sound()
    ensures
        sound(empty_object()),
        sound(empty_array()),
{
}

/// An array is sound if its items are.
proof fn array_is_sound(parts: Seq<Result<Tree, ConvertError>>)
    requires
        forall|i: int| 0 <= i < parts.len() ==> sound_if_ok(#[trigger] parts[i]),
    ensures
        sound_if_ok(array_of(parts)),
{
    collect_is_pointwise(parts);
    match collect(parts) {
        Ok(trees) => {
            assert forall|i: int| 0 <= i < trees.len() implies sound(#[trigger] trees[i]) by {
                assert(sound_if_ok(parts[i]));
            }
        },
        Err(_) => {},
    }
}

/// A node with one property of its own.
proof fn node1_is_sound(kind: NodeKind, key: Seq<char>, value: Tree)
    requires
        field_names(kind) == seq![key],
        key != "directives"@,
        sound(value),
    ensures
        sound(Tree::Object(seq![("kind"@, Tree::Text(kind_text(kind))), (key, value)])),
{
    let props = seq![("kind"@, Tree::Text(kind_text(kind))), (key, value)];
    assert(is_node(props, kind));
    node_is_sound(props, kind);
}

proof fn name_is_sound(name: Seq<char>)
    ensures
        sound(name_tree(name)),
{
    other_keys_differ();
    node1_is_sound(NodeKind::Name, "value"@, Tree::Text(name));
}

proof fn required_name_is_sound(name: Option<String>)
    ensures
        sound_if_ok(required_name_tree(name)),
{
    if let Some(text) = name {
        name_is_sound(text@);
    }
}

proof fn named_type_is_sound(named: NamedType)
    ensures
        sound_if_ok(named_type_tree(named)),
{
    other_keys_differ();
    required_name_is_sound(named.name);
    if let Ok(name) = required_name_tree(named.name) {
        node1_is_sound(NodeKind::NamedType, "name"@, name);
    }
}

proof fn type_is_sound(ty: Option<TypeRef>)
    ensures
        sound_if_ok(type_tree(ty)),
    decreases ty,
{
    empty_is_sound();
    match ty {
        Some(TypeRef::Named(named)) => named_type_is_sound(named),
        Some(TypeRef::List(list)) => list_type_is_sound(list),
        _ => {},
    }
}

proof fn list_type_is_sound(list: ListType)
    ensures
        sound_if_ok(list_type_tree(list)),
    decreases list,
{
    other_keys_differ();
    type_is_sound(*list.ty);
    if let Ok(ty) = type_tree(*list.ty) {
        node1_is_sound(NodeKind::ListType, "type"@, ty);
    }
}

proof fn type_condition_is_sound(condition: Option<TypeCondition>)
    ensures
        sound_if_ok(type_condition_tree(condition)),
{
    other_keys_differ();
    empty_is_sound();
    if let Some(present) = condition {
        required_name_is_sound(present.name);
        if let Ok(name) = required_name_tree(present.name) {
            node1_is_sound(NodeKind::NamedType, "name"@, name);
        }
    }
}

proof fn variable_is_sound(variable: Variable)
    ensures
        sound_if_ok(variable_tree(variable)),
{
    other_keys_differ();
    required_name_is_sound(variable.name);
    if let Ok(name) = required_name_tree(variable.name) {
        node1_is_sound(NodeKind::Variable, "name"@, name);
    }
}

proof fn leaf_values_are_sound(text: Seq<char>, truth: bool)
    ensures
        sound_if_ok(string_value_tree(text)),
        sound(boolean_value_tree(truth)),
        sound(null_value_tree()),
{
    other_keys_differ();
    if let Ok(tree) = string_value_tree(text) {
        let inner = tree->Object_0[1].1;
        node1_is_sound(NodeKind::StringValue, "value"@, inner);
    }
    node1_is_sound(NodeKind::BooleanValue, "value"@, Tree::Flag(truth));
    let props = seq![("kind"@, Tree::Text(kind_text(NodeKind::NullValue)))];
    assert(is_node(props, NodeKind::NullValue));
    node_is_sound(props, NodeKind::NullValue);
}

proof fn token_values_are_sound(token: Option<String>)
    ensures
        sound_if_ok(float_value_tree(token)),
        sound_if_ok(int_value_tree(token)),
        sound_if_ok(enum_value_tree(token)),
{
    other_keys_differ();
    if let Some(text) = token {
        node1_is_sound(NodeKind::FloatValue, "value"@, Tree::Text(text@));
        node1_is_sound(NodeKind::IntValue, "value"@, Tree::Text(text@));
        node1_is_sound(NodeKind::EnumValue, "value"@, Tree::Text(text@));
    }
}

proof fn value_is_sound(value: Option<Value>, keys: Keys)
    ensures
        sound_if_ok(value_tree(value, keys)),
    decreases value,
{
    if let Some(present) = value {
        present_value_is_sound(present, keys);
    }
}

proof fn present_value_is_sound(value: Value, keys: Keys)
    ensures
        sound_if_ok(present_value_tree(value, keys)),
    decreases value,
{
    other_keys_differ();
    match value {
        Value::Variable(variable) => variable_is_sound(variable),
        Value::StringValue(source) => leaf_values_are_sound(source@, true),
        Value::FloatValue(token) => token_values_are_sound(token),
        Value::IntValue(token) => token_values_are_sound(token),
        Value::BooleanValue(truth) => leaf_values_are_sound(Seq::empty(), truth),
        Value::NullValue => leaf_values_are_sound(Seq::empty(), true),
        Value::EnumValue(name) => token_values_are_sound(name),
        Value::ListValue(items) => {
            let parts = list_value_parts(items, keys);
            assert forall|i: int| 0 <= i < parts.len() implies sound_if_ok(#[trigger] parts[i]) by {
                present_value_is_sound(items@[i], keys);
            }
            array_is_sound(parts);
            if let Ok(values) = list_value_values_tree(items, keys) {
                node1_is_sound(NodeKind::ListValue, "values"@, values);
            }
        },
        Value::ObjectValue(fields) => {
            let parts = object_field_parts(fields, keys);
            assert forall|i: int| 0 <= i < parts.len() implies sound_if_ok(#[trigger] parts[i]) by {
                object_field_is_sound(fields@[i], keys);
            }
            array_is_sound(parts);
            if let Ok(list) = object_fields_tree(fields, keys) {
                node1_is_sound(NodeKind::ObjectValue, "fields"@, list);
            }
        },
        Value::Placeholder(key) => {},
    }
}

proof fn object_field_is_sound(field: ObjectField, keys: Keys)
    ensures
        sound_if_ok(object_field_tree(field, keys)),
    decreases field,
{
    other_keys_differ();
    required_name_is_sound(field.name);
    value_is_sound(field.value, keys);
    if let Ok(tree) = object_field_tree(field, keys) {
        let props = tree->Object_0;
        assert(is_node(props, NodeKind::ObjectField));
        node_is_sound(props, NodeKind::ObjectField);
    }
}

proof fn argument_is_sound(argument: Argument, keys: Keys)
    ensures
        sound_if_ok(argument_tree(argument, keys)),
{
    other_keys_differ();
    required_name_is_sound(argument.name);
    value_is_sound(argument.value, keys);
    if let Ok(tree) = argument_tree(argument, keys) {
        let props = tree->Object_0;
        assert(is_node(props, NodeKind::Argument));
        node_is_sound(props, NodeKind::Argument);
    }
}

proof fn arguments_are_sound(arguments: Option<Vec<Argument>>, keys: Keys)
    ensures
        sound_if_ok(arguments_tree(arguments, keys)),
{
    empty_is_sound();
    if let Some(list) = arguments {
        let parts = argument_parts(list, keys);
        assert forall|i: int| 0 <= i < parts.len() implies sound_if_ok(#[trigger] parts[i]) by {
            argument_is_sound(list@[i], keys);
        }
        array_is_sound(parts);
    }
}

proof fn default_value_is_sound(default_value: Option<DefaultValue>, keys: Keys)
    ensures
        sound_if_ok(default_value_tree(default_value, keys)),
{
    empty_is_sound();
    if let Some(default) = default_value {
        value_is_sound(default.value, keys);
    }
}

proof fn selection_set_is_sound(selection_set: Option<SelectionSet>, keys: Keys)
    ensures
        sound_if_ok(selection_set_tree(selection_set, keys)),
    decreases selection_set,
{
    other_keys_differ();
    empty_is_sound();
    if let Some(set) = selection_set {
        let parts = selection_parts(set.selections, keys);
        assert forall|i: int| 0 <= i < parts.len() implies sound_if_ok(#[trigger] parts[i]) by {
            selection_is_sound(set.selections@[i], keys);
        }
        array_is_sound(parts);
        if let Ok(selections) = selections_tree(set.selections, keys) {
            node1_is_sound(NodeKind::SelectionSet, "selections"@, selections);
        }
    }
}

proof fn selection_is_sound(selection: Selection, keys: Keys)
    ensures
        sound_if_ok(selection_tree(selection, keys)),
    decreases selection,
{
    match selection {
        Selection::Field(field) => field_is_sound(field, keys),
        Selection::FragmentSpread(spread) => fragment_spread_is_sound(spread),
        Selection::InlineFragment(fragment) => inline_fragment_is_sound(fragment, keys),
    }
}

proof fn field_is_sound(field: Field, keys: Keys)
    ensures
        sound_if_ok(field_tree(field, keys)),
    decreases field,
{
    other_keys_differ();
    empty_is_sound();
    required_name_is_sound(field.name);
    arguments_are_sound(field.arguments, keys);
    selection_set_is_sound(field.selection_set, keys);
    if let Ok(tree) = field_tree(field, keys) {
        let props = tree->Object_0;
        assert(is_node(props, NodeKind::Field));
        node_is_sound(props, NodeKind::Field);
    }
}

proof fn fragment_spread_is_sound(spread: FragmentSpread)
    ensures
        sound_if_ok(fragment_spread_tree(spread)),
{
    other_keys_differ();
    empty_is_sound();
    required_name_is_sound(spread.name);
    if let Ok(tree) = fragment_spread_tree(spread) {
        let props = tree->Object_0;
        assert(is_node(props, NodeKind::FragmentSpread));
        node_is_sound(props, NodeKind::FragmentSpread);
    }
}

proof fn inline_fragment_is_sound(fragment: InlineFragment, keys: Keys)
    ensures
        sound_if_ok(inline_fragment_tree(fragment, keys)),
    decreases fragment,
{
    other_keys_differ();
    empty_is_sound();
    type_condition_is_sound(fragment.type_condition);
    selection_set_is_sound(fragment.selection_set, keys);
    if let Ok(tree) = inline_fragment_tree(fragment, keys) {
        let props = tree->Object_0;
        assert(is_node(props, NodeKind::InlineFragment));
        node_is_sound(props, NodeKind::InlineFragment);
    }
}

proof fn variable_definition_is_sound(definition: VariableDefinition, keys: Keys)
    ensures
        sound_if_ok(variable_definition_tree(definition, keys)),
{
    other_keys_differ();
    empty_is_sound();
    if let Some(variable) = definition.variable {
        variable_is_sound(variable);
    }
    default_value_is_sound(definition.default_value, keys);
    type_is_sound(definition.ty);
    if let Ok(tree) = variable_definition_tree(definition, keys) {
        let props = tree->Object_0;
        assert(is_node(props, NodeKind::VariableDefinition));
        node_is_sound(props, NodeKind::VariableDefinition);
    }
}

proof fn variable_definitions_are_sound(
    definitions: Option<Vec<VariableDefinition>>,
    keys: Keys,
)
    ensures
        sound_if_ok(variable_definitions_tree(definitions, keys)),
{
    empty_is_sound();
    if let Some(list) = definitions {
        let parts = variable_definition_parts(list, keys);
        assert forall|i: int| 0 <= i < parts.len() implies sound_if_ok(#[trigger] parts[i]) by {
            variable_definition_is_sound(list@[i], keys);
        }
        array_is_sound(parts);
    }
}

proof fn operation_definition_is_sound(definition: OperationDefinition, keys: Keys)
    ensures
        sound_if_ok(operation_definition_tree(definition, keys)),
{
    other_keys_differ();
    empty_is_sound();
    required_name_is_sound(definition.name);
    variable_definitions_are_sound(definition.variable_definitions, keys);
    selection_set_is_sound(definition.selection_set, keys);
    if let Ok(tree) = operation_definition_tree(definition, keys) {
        let props = tree->Object_0;
        assert(is_node(props, NodeKind::OperationDefinition));
        node_is_sound(props, NodeKind::OperationDefinition);
    }
}

proof fn fragment_definition_is_sound(definition: FragmentDefinition, keys: Keys)
    ensures
        sound_if_ok(fragment_definition_tree(definition, keys)),
{
    other_keys_differ();
    empty_is_sound();
    required_name_is_sound(definition.name);
    type_condition_is_sound(definition.type_condition);
    selection_set_is_sound(definition.selection_set, keys);
    if let Ok(tree) = fragment_definition_tree(definition, keys) {
        let props = tree->Object_0;
        assert(is_node(props, NodeKind::FragmentDefinition));
        node_is_sound(props, NodeKind::FragmentDefinition);
    }
}

proof fn definition_is_sound(definition: Definition, keys: Keys)
    ensures
        sound_if_ok(definition_tree(definition, keys)),
{
    match definition {
        Definition::Fragment(fragment) => fragment_definition_is_sound(fragment, keys),
        Definition::Operation(operation) => operation_definition_is_sound(operation, keys),
        Definition::TypeSystem(_) => {},
    }
}

proof fn document_is_sound(document: Document, keys: Keys)
    ensures
        sound_if_ok(document_tree(document, keys)),
{
    other_keys_differ();
    let parts = definition_parts(document.definitions, keys);
    assert forall|i: int| 0 <= i < parts.len() implies sound_if_ok(#[trigger] parts[i]) by {
        definition_is_sound(document.definitions@[i], keys);
    }
    array_is_sound(parts);
    if let Ok(definitions) = definitions_tree(document.definitions, keys) {
        node1_is_sound(NodeKind::Document, "definitions"@, definitions);
    }
}

/// Every node that a conversion writes is of one of the kinds of the
/// grammar: its `kind` holds the text of that kind, and its properties are
/// those of the kind, under their keys and in their order. The only objects
/// without a kind are the `{}` that stand for absent parts.
pub proof fn emitted_nodes_are_canonical(document: Document, keys: Keys)
    ensures
        document_tree(document, keys) matches Ok(tree) ==> canonical(tree),
{
    document_is_sound(document, keys);
}

/// Directives are never written: whatever directives the source holds, each
/// `directives` property of the tree of a document is `[]`.
pub proof fn directives_are_always_empty(document: Document, keys: Keys)
    ensures
        document_tree(document, keys) matches Ok(tree) ==> directives_empty(tree),
{
    document_is_sound(document, keys);
}

/// A document that converts becomes a `Document` node whose `definitions`
/// holds one element for each definition of the document, in source order,
/// each the tree of its definition.
pub proof fn definitions_keep_count_and_order(document: Document, keys: Keys)
    ensures
        document_tree(document, keys) matches Ok(tree) ==> {
            &&& tree matches Tree::Object(props)
            &&& props.len() == 2
            &&& props[0] == ("kind"@, Tree::Text("Document"@))
            &&& props[1].0 == "definitions"@
            &&& props[1].1 matches Tree::Array(items)
            &&& items.len() == document.definitions@.len()
            &&& forall|i: int|
                0 <= i < items.len() ==> definition_tree(document.definitions@[i], keys) == Ok::<
                    Tree,
                    ConvertError,
                >(#[trigger] items[i])
        },
{
    let parts = definition_parts(document.definitions, keys);
    collect_is_pointwise(parts);
    if let Ok(trees) = collect(parts) {
        assert forall|i: int| 0 <= i < trees.len() implies definition_tree(
            document.definitions@[i],
            keys,
        ) == Ok::<Tree, ConvertError>(#[trigger] trees[i]) by {
            assert(parts[i] == Ok::<Tree, ConvertError>(trees[i]));
        }
    }
}

/// A document converts only if each of its definitions is an operation or a
/// fragment: a single definition of the type system makes the whole
/// conversion fail.
pub proof fn type_system_definitions_are_refused(document: Document, keys: Keys, i: int)
    requires
        0 <= i < document.definitions@.len(),
        document.definitions@[i] is TypeSystem,
    ensures
        document_tree(document, keys) is Err,
{
    let parts = definition_parts(document.definitions, keys);
    collect_is_pointwise(parts);
    if let Ok(trees) = collect(parts) {
        assert(parts[i] == Ok::<Tree, ConvertError>(trees[i]));
    }
}

/// A placeholder stands for the interpolated expression that its key is
/// bound to: where `key` is the key of the expression at position `i` of the
/// template, and of none after it, the placeholder converts to that very
/// expression, not to a literal made from it.
pub proof fn placeholders_become_their_expressions(key: String, keys: Keys, i: int)
    requires
        0 <= i < keys.len(),
        keys[i] == Some(key@),
        forall|j: int| i < j < keys.len() ==> keys[j] != Some(key@),
    ensures
        present_value_tree(Value::Placeholder(key), keys) == Ok::<Tree, ConvertError>(
            Tree::Host(i as nat),
        ),
{
    bound_position_holds_key(keys, key@);
    match bound_position(keys, key@) {
        Some(position) => {
            if position < i {
                assert(keys[i] != Some(key@));
            }
        },
        None => {
            assert(keys.contains(keys[i]));
        },
    }
}

/// A placeholder whose key no interpolated expression has is refused; an
/// expression without a key is named by no placeholder.
pub proof fn unbound_placeholders_are_refused(key: String, keys: Keys)
    requires
        !keys.contains(Some(key@)),
    ensures
        present_value_tree(Value::Placeholder(key), keys) == Err::<Tree, ConvertError>(
            ConvertError::UnboundPlaceholder,
        ),
{
    bound_position_holds_key(keys, key@);
}

/// What is absent is written empty: a field without arguments has
/// `arguments: []`, a field without a selection set has `selectionSet: {}`,
/// and a variable definition without a default has `defaultValue: {}`.
pub proof fn absent_parts_are_empty(
    field: Field,
    definition: VariableDefinition,
    keys: Keys,
)
    ensures
        field_tree(field, keys) matches Ok(Tree::Object(props)) ==> {
            &&& props[2].0 == "arguments"@
            &&& props[4].0 == "selectionSet"@
            &&& field.arguments is None ==> props[2].1 == empty_array()
            &&& field.selection_set is None ==> props[4].1 == empty_object()
        },
        variable_definition_tree(definition, keys) matches Ok(Tree::Object(props)) ==> {
            &&& props[2].0 == "defaultValue"@
            &&& definition.default_value is None ==> props[2].1 == empty_object()
        },
{
}

} // verus!
