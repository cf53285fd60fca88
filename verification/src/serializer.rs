//! The serializer: converts a parsed document into the literal tree that
//! stands for it, node by node.
//!
//! Each function converts one category of node and returns the literal that
//! the functions of the shape module state for it, or the failure that they
//! state. Nothing is returned of a document that fails in any part.

use vstd::prelude::*;
use crate::binder::Binder;
use crate::document::{
    Argument,
    DefaultValue,
    Definition,
    Directive,
    Document,
    Field,
    FragmentDefinition,
    FragmentSpread,
    InlineFragment,
    ListType,
    NamedType,
    ObjectField,
    OperationDefinition,
    OperationType,
    Selection,
    SelectionSet,
    TypeCondition,
    TypeRef,
    Value,
    Variable,
    VariableDefinition,
};
use crate::error::{Child, ConvertError};
use crate::laws::{
    canonical,
    directives_are_always_empty,
    directives_empty,
    emitted_nodes_are_canonical,
};
use crate::literal::{
    create_key_value_prop,
    empty_array,
    empty_object,
    entries,
    trees,
    Literal,
    Property,
    Tree,
};
use crate::shape::{
    argument_parts,
    argument_tree,
    arguments_tree,
    boolean_value_tree,
    collect,
    collect_extend,
    collect_prefix_failure,
    default_value_tree,
    definition_parts,
    definition_tree,
    definitions_tree,
    document_tree,
    enum_value_tree,
    field_tree,
    float_value_tree,
    fragment_definition_tree,
    fragment_spread_tree,
    inline_fragment_tree,
    int_value_tree,
    kind_prop,
    list_type_tree,
    list_value_parts,
    list_value_tree,
    list_value_values_tree,
    name_tree,
    named_type_tree,
    null_value_tree,
    object_field_parts,
    object_field_tree,
    object_fields_tree,
    object_value_tree,
    operation_definition_tree,
    operation_token,
    outcome,
    placeholder_tree,
    present_value_tree,
    prop,
    required_name_tree,
    selection_parts,
    selection_set_tree,
    selection_tree,
    selections_tree,
    string_value_tree,
    type_condition_tree,
    type_tree,
    value_tree,
    variable_definition_parts,
    variable_definition_tree,
    variable_definitions_tree,
    variable_tree,
};
use crate::text::string_value_text;

verus! {

/// The property `kind: "<kind>"`.
fn create_kind(kind: &str) -> (p: Property)
    ensures
        p@ == kind_prop(kind),
{
    create_key_value_prop("kind".to_owned(), Literal::text(kind))
}

/// The property `key: value`.
fn create_prop(key: &str, value: Literal) -> (p: Property)
    ensures
        p@ == prop(key, value@),
{
    create_key_value_prop(key.to_owned(), value)
}

/// `{kind: "<kind>", key: value}`.
fn create_node(kind: &str, key: &str, value: Literal) -> (r: Literal)
    ensures
        r@ == Tree::Object(seq![kind_prop(kind), prop(key, value@)]),
{
    let props = vec![create_kind(kind), create_prop(key, value)];
    proof {
        assert(entries(props@) =~= seq![kind_prop(kind), prop(key, value@)]);
    }
    Literal::object(props)
}

/// The empty object literal `{}`.
fn create_empty_object() -> (r: Literal)
    ensures
        r@ == empty_object(),
{
    let props: Vec<Property> = Vec::new();
    proof {
        assert(entries(props@) =~= Seq::empty());
    }
    Literal::object(props)
}

/// The empty array literal `[]`.
fn create_empty_array() -> (r: Literal)
    ensures
        r@ == empty_array(),
{
    let items: Vec<Literal> = Vec::new();
    proof {
        assert(trees(items@) =~= Seq::empty());
    }
    Literal::array(items)
}

/// `{kind: "Name", value: name}`.
pub fn create_name(name: String) -> (r: Literal)
    ensures
        r@ == name_tree(name@),
{
    create_node("Name", "value", Literal::Text(name))
}

/// The name node of a node that must have a name: fails where the name is
/// absent.
pub fn create_required_name(name: &Option<String>) -> (r: Result<Literal, ConvertError>)
    ensures
        outcome(r) == required_name_tree(*name),
{
    match name {
        Some(text) => Ok(create_name(text.clone())),
        None => Err(ConvertError::Missing(Child::Name)),
    }
}

/// The directives of a node: always `[]`, whatever the source holds.
pub fn create_directives(directives: &Option<Vec<Directive>>) -> (r: Literal)
    ensures
        r@ == empty_array(),
{
    create_empty_array()
}

/// A type: a named type or a list type, `{}` where it is absent. Fails on a
/// non-null type, and where a named type inside lacks its name.
pub fn create_type(type_def: &Option<TypeRef>) -> (r: Result<Literal, ConvertError>)
    ensures
        outcome(r) == type_tree(*type_def),
        type_def is None ==> outcome(r) == Ok::<Tree, ConvertError>(empty_object()),
    decreases type_def,
{
    match type_def {
        None => Ok(create_empty_object()),
        Some(TypeRef::Named(named_type)) => create_named_type(named_type),
        Some(TypeRef::List(list_type)) => create_list_type(list_type),
        Some(TypeRef::NonNull) => Err(ConvertError::UnsupportedNonNullType),
    }
}

/// `{kind: "NamedType", name}`. Fails where the name is absent.
pub fn create_named_type(named_type: &NamedType) -> (r: Result<Literal, ConvertError>)
    ensures
        outcome(r) == named_type_tree(*named_type),
{
    let name = create_required_name(&named_type.name)?;
    Ok(create_node("NamedType", "name", name))
}

/// `{kind: "ListType", type}`. Fails where the type of the items does.
pub fn create_list_type(list_type: &ListType) -> (r: Result<Literal, ConvertError>)
    ensures
        outcome(r) == list_type_tree(*list_type),
    decreases list_type,
{
    let type_def = create_type(&*list_type.ty)?;
    Ok(create_node("ListType", "type", type_def))
}

/// The named type of a type condition, `{}` where the condition is absent.
/// Fails where the condition names no type.
pub fn create_type_condition(type_condition: &Option<TypeCondition>) -> (r: Result<
    Literal,
    ConvertError,
>)
    ensures
        outcome(r) == type_condition_tree(*type_condition),
        type_condition is None ==> outcome(r) == Ok::<Tree, ConvertError>(empty_object()),
{
    match type_condition {
        None => Ok(create_empty_object()),
        Some(condition) => {
            let name = create_required_name(&condition.name)?;
            Ok(create_node("NamedType", "name", name))
        },
    }
}

/// `{kind: "Variable", name}`. Fails where the name is absent.
pub fn create_variable_value(var: &Variable) -> (r: Result<Literal, ConvertError>)
    ensures
        outcome(r) == variable_tree(*var),
{
    let name = create_required_name(&var.name)?;
    Ok(create_node("Variable", "name", name))
}

/// A value that must be there: fails where it is absent, else converts it.
pub fn create_value(value: &Option<Value>, binder: &Binder) -> (r: Result<Literal, ConvertError>)
    ensures
        outcome(r) == value_tree(*value, binder@),
    decreases value,
{
    match value {
        None => Err(ConvertError::Missing(Child::Value)),
        Some(present) => create_present_value(present, binder),
    }
}

/// A value, by its variant. A placeholder becomes a reference to the host
/// expression that the binder holds for its key, and fails where the key is
/// not bound.
pub fn create_present_value(value: &Value, binder: &Binder) -> (r: Result<Literal, ConvertError>)
    ensures
        outcome(r) == present_value_tree(*value, binder@),
    decreases value,
{
    match value {
        Value::Variable(var) => create_variable_value(var),
        Value::StringValue(str) => create_string_value(str),
        Value::FloatValue(token) => create_float_value(token),
        Value::IntValue(token) => create_int_value(token),
        Value::BooleanValue(truth) => Ok(create_boolean_value(*truth)),
        Value::NullValue => Ok(create_null_value()),
        Value::EnumValue(enum_val) => create_enum_value(enum_val),
        Value::ListValue(list) => create_list_value(list, binder),
        Value::ObjectValue(object) => create_object_value(object, binder),
        Value::Placeholder(key) => create_placeholder(key, binder),
    }
}

/// The host expression that stands behind a placeholder, used as it is.
/// Fails where the binder holds none under the key.
pub fn create_placeholder(key: &String, binder: &Binder) -> (r: Result<Literal, ConvertError>)
    ensures
        outcome(r) == placeholder_tree(key@, binder@),
{
    match binder.resolve(key) {
        Some(position) => Ok(Literal::Host(position)),
        None => Err(ConvertError::UnboundPlaceholder),
    }
}

/// `{kind: "StringValue", value}`, the value being the text between the
/// quotes of the node's source `str`: of its last span in double quotes, or
/// of the whole source where it holds no such span.
pub fn create_string_value(str: &String) -> (r: Result<Literal, ConvertError>)
    ensures
        outcome(r) == string_value_tree(str@),
{
    let text = string_value_text(str)?;
    Ok(create_node("StringValue", "value", Literal::Text(text)))
}

/// `{kind: "FloatValue", value}`, the value being the token as it was
/// written. Fails where the token is absent.
pub fn create_float_value(token: &Option<String>) -> (r: Result<Literal, ConvertError>)
    ensures
        outcome(r) == float_value_tree(*token),
{
    match token {
        Some(token) => Ok(create_node("FloatValue", "value", Literal::Text(token.clone()))),
        None => Err(ConvertError::Missing(Child::FloatToken)),
    }
}

/// `{kind: "IntValue", value}`, the value being the token as it was written.
/// Fails where the token is absent.
pub fn create_int_value(token: &Option<String>) -> (r: Result<Literal, ConvertError>)
    ensures
        outcome(r) == int_value_tree(*token),
{
    match token {
        Some(token) => Ok(create_node("IntValue", "value", Literal::Text(token.clone()))),
        None => Err(ConvertError::Missing(Child::IntToken)),
    }
}

/// `{kind: "BooleanValue", value}`, the value being a boolean literal.
pub fn create_boolean_value(truth: bool) -> (r: Literal)
    ensures
        r@ == boolean_value_tree(truth),
{
    create_node("BooleanValue", "value", Literal::Flag(truth))
}

/// `{kind: "EnumValue", value}`. Fails where the name is absent.
pub fn create_enum_value(enum_val: &Option<String>) -> (r: Result<Literal, ConvertError>)
    ensures
        outcome(r) == enum_value_tree(*enum_val),
{
    match enum_val {
        Some(name) => Ok(create_node("EnumValue", "value", Literal::Text(name.clone()))),
        None => Err(ConvertError::Missing(Child::Name)),
    }
}

/// `{kind: "NullValue"}`.
pub fn create_null_value() -> (r: Literal)
    ensures
        r@ == null_value_tree(),
{
    let props = vec![create_kind("NullValue")];
    proof {
        assert(entries(props@) =~= seq![kind_prop("NullValue")]);
    }
    Literal::object(props)
}

/// `{kind: "ListValue", values}`. Fails where an item does.
pub fn create_list_value(list: &Vec<Value>, binder: &Binder) -> (r: Result<Literal, ConvertError>)
    ensures
        outcome(r) == list_value_tree(*list, binder@),
    decreases list, 2int,
{
    let values = create_list_value_values(list, binder)?;
    Ok(create_node("ListValue", "values", values))
}

/// `{kind: "ObjectValue", fields}`. Fails where a field does.
pub fn create_object_value(object: &Vec<ObjectField>, binder: &Binder) -> (r: Result<
    Literal,
    ConvertError,
>)
    ensures
        outcome(r) == object_value_tree(*object, binder@),
    decreases object, 2int,
{
    let fields = create_object_fields(object, binder)?;
    Ok(create_node("ObjectValue", "fields", fields))
}

/// The array of the fields of an object value, in source order. Fails with
/// the failure of the first field that has one.
pub fn create_object_fields(object_fields: &Vec<ObjectField>, binder: &Binder) -> (r: Result<
    Literal,
    ConvertError,
>)
    ensures
        outcome(r) == object_fields_tree(*object_fields, binder@),
    decreases object_fields, 1int,
{
    let ghost parts = object_field_parts(*object_fields, binder@);
    let mut all_fields: Vec<Literal> = Vec::new();
    let mut i: usize = 0;
    assert(trees(all_fields@) =~= Seq::empty());
    while i < object_fields.len()
        invariant
            i <= object_fields.len(),
            parts == object_field_parts(*object_fields, binder@),
            collect(parts.take(i as int)) == Ok::<Seq<Tree>, ConvertError>(trees(all_fields@)),
        decreases object_fields.len() - i,
    {
        proof {
            collect_extend(parts, i as int);
        }
        let ghost before = all_fields@;
        match create_object_field(&object_fields[i], binder) {
            Ok(field) => {
                all_fields.push(field);
                assert(trees(all_fields@) =~= trees(before).push(field@));
            },
            Err(e) => {
                proof {
                    collect_prefix_failure(parts, i + 1);
                }
                return Err(e);
            },
        }
        i += 1;
    }
    assert(parts.take(i as int) == parts);
    Ok(Literal::array(all_fields))
}

/// `{kind: "ObjectField", name, value}`. Fails where the name or the value
/// is absent, and where the value fails.
pub fn create_object_field(field: &ObjectField, binder: &Binder) -> (r: Result<
    Literal,
    ConvertError,
>)
    ensures
        outcome(r) == object_field_tree(*field, binder@),
    decreases field,
{
    let kind = create_kind("ObjectField");
    let name = create_prop("name", create_required_name(&field.name)?);
    let value = create_prop("value", create_value(&field.value, binder)?);
    let props = vec![kind, name, value];
    proof {
        assert(entries(props@) =~= seq![kind@, name@, value@]);
    }
    Ok(Literal::object(props))
}

/// The array of the items of a list value, in source order. Fails with the
/// failure of the first item that has one.
pub fn create_list_value_values(values: &Vec<Value>, binder: &Binder) -> (r: Result<
    Literal,
    ConvertError,
>)
    ensures
        outcome(r) == list_value_values_tree(*values, binder@),
    decreases values, 1int,
{
    let ghost parts = list_value_parts(*values, binder@);
    let mut all_values: Vec<Literal> = Vec::new();
    let mut i: usize = 0;
    assert(trees(all_values@) =~= Seq::empty());
    while i < values.len()
        invariant
            i <= values.len(),
            parts == list_value_parts(*values, binder@),
            collect(parts.take(i as int)) == Ok::<Seq<Tree>, ConvertError>(trees(all_values@)),
        decreases values.len() - i,
    {
        proof {
            collect_extend(parts, i as int);
        }
        let ghost before = all_values@;
        match create_present_value(&values[i], binder) {
            Ok(value) => {
                all_values.push(value);
                assert(trees(all_values@) =~= trees(before).push(value@));
            },
            Err(e) => {
                proof {
                    collect_prefix_failure(parts, i + 1);
                }
                return Err(e);
            },
        }
        i += 1;
    }
    assert(parts.take(i as int) == parts);
    Ok(Literal::array(all_values))
}

/// The array of the arguments, in source order, `[]` where there are none.
/// Fails with the failure of the first argument that has one.
pub fn create_arguments(arguments: &Option<Vec<Argument>>, binder: &Binder) -> (r: Result<
    Literal,
    ConvertError,
>)
    ensures
        outcome(r) == arguments_tree(*arguments, binder@),
        arguments is None ==> outcome(r) == Ok::<Tree, ConvertError>(empty_array()),
{
    let unwrapped_arguments = match arguments {
        None => {
            return Ok(create_empty_array());
        },
        Some(list) => list,
    };
    let ghost parts = argument_parts(*unwrapped_arguments, binder@);
    let mut all_arguments: Vec<Literal> = Vec::new();
    let mut i: usize = 0;
    assert(trees(all_arguments@) =~= Seq::empty());
    while i < unwrapped_arguments.len()
        invariant
            i <= unwrapped_arguments.len(),
            *arguments == Some(*unwrapped_arguments),
            parts == argument_parts(*unwrapped_arguments, binder@),
            collect(parts.take(i as int)) == Ok::<Seq<Tree>, ConvertError>(trees(all_arguments@)),
        decreases unwrapped_arguments.len() - i,
    {
        proof {
            collect_extend(parts, i as int);
        }
        let ghost before = all_arguments@;
        match create_argument(&unwrapped_arguments[i], binder) {
            Ok(argument) => {
                all_arguments.push(argument);
                assert(trees(all_arguments@) =~= trees(before).push(argument@));
            },
            Err(e) => {
                proof {
                    collect_prefix_failure(parts, i + 1);
                }
                return Err(e);
            },
        }
        i += 1;
    }
    assert(parts.take(i as int) == parts);
    Ok(Literal::array(all_arguments))
}

/// `{kind: "Argument", name, value}`. Fails where the name or the value is
/// absent, and where the value fails.
pub fn create_argument(argument: &Argument, binder: &Binder) -> (r: Result<Literal, ConvertError>)
    ensures
        outcome(r) == argument_tree(*argument, binder@),
{
    let kind = create_kind("Argument");
    let name = create_prop("name", create_required_name(&argument.name)?);
    let value = create_prop("value", create_value(&argument.value, binder)?);
    let props = vec![kind, name, value];
    proof {
        assert(entries(props@) =~= seq![kind@, name@, value@]);
    }
    Ok(Literal::object(props))
}

/// The value of a default, `{}` where the definition has none. Fails where
/// the default holds no value, and where its value fails.
pub fn create_default_value(default_value: &Option<DefaultValue>, binder: &Binder) -> (r: Result<
    Literal,
    ConvertError,
>)
    ensures
        outcome(r) == default_value_tree(*default_value, binder@),
        default_value is None ==> outcome(r) == Ok::<Tree, ConvertError>(empty_object()),
{
    match default_value {
        None => Ok(create_empty_object()),
        Some(unwrapped_default_value) => create_value(&unwrapped_default_value.value, binder),
    }
}

/// `{kind: "SelectionSet", selections}`, `{}` where the set is absent. Fails
/// where a selection does.
pub fn create_selection_set(selection_set: &Option<SelectionSet>, binder: &Binder) -> (r: Result<
    Literal,
    ConvertError,
>)
    ensures
        outcome(r) == selection_set_tree(*selection_set, binder@),
        selection_set is None ==> outcome(r) == Ok::<Tree, ConvertError>(empty_object()),
    decreases selection_set,
{
    match selection_set {
        None => Ok(create_empty_object()),
        Some(unwrapped_selection_set) => {
            let selections = create_selections(&unwrapped_selection_set.selections, binder)?;
            Ok(create_node("SelectionSet", "selections", selections))
        },
    }
}

/// The array of the selections, in source order. Fails with the failure of
/// the first selection that has one.
pub fn create_selections(selections: &Vec<Selection>, binder: &Binder) -> (r: Result<
    Literal,
    ConvertError,
>)
    ensures
        outcome(r) == selections_tree(*selections, binder@),
    decreases selections, 1int,
{
    let ghost parts = selection_parts(*selections, binder@);
    let mut all_selections: Vec<Literal> = Vec::new();
    let mut i: usize = 0;
    assert(trees(all_selections@) =~= Seq::empty());
    while i < selections.len()
        invariant
            i <= selections.len(),
            parts == selection_parts(*selections, binder@),
            collect(parts.take(i as int)) == Ok::<Seq<Tree>, ConvertError>(trees(all_selections@)),
        decreases selections.len() - i,
    {
        proof {
            collect_extend(parts, i as int);
        }
        let ghost before = all_selections@;
        match create_selection(&selections[i], binder) {
            Ok(selection) => {
                all_selections.push(selection);
                assert(trees(all_selections@) =~= trees(before).push(selection@));
            },
            Err(e) => {
                proof {
                    collect_prefix_failure(parts, i + 1);
                }
                return Err(e);
            },
        }
        i += 1;
    }
    assert(parts.take(i as int) == parts);
    Ok(Literal::array(all_selections))
}

/// A field, a fragment spread or an inline fragment.
pub fn create_selection(selection: &Selection, binder: &Binder) -> (r: Result<
    Literal,
    ConvertError,
>)
    ensures
        outcome(r) == selection_tree(*selection, binder@),
    decreases selection,
{
    match selection {
        Selection::Field(field) => create_field(field, binder),
        Selection::FragmentSpread(frag_spread) => create_fragment_spread(frag_spread),
        Selection::InlineFragment(inline_frag) => create_inline_fragment(inline_frag, binder),
    }
}

/// `{kind: "Field", name, arguments, directives, selectionSet}`. Fails where
/// the name is absent, and where an argument or the selection set fails.
pub fn create_field(field: &Field, binder: &Binder) -> (r: Result<Literal, ConvertError>)
    ensures
        outcome(r) == field_tree(*field, binder@),
    decreases field,
{
    let kind = create_kind("Field");
    let name = create_prop("name", create_required_name(&field.name)?);
    let arguments = create_prop("arguments", create_arguments(&field.arguments, binder)?);
    let directives = create_prop("directives", create_directives(&field.directives));
    let sel_set = create_prop("selectionSet", create_selection_set(&field.selection_set, binder)?);
    let props = vec![kind, name, arguments, directives, sel_set];
    proof {
        assert(entries(props@) =~= seq![kind@, name@, arguments@, directives@, sel_set@]);
    }
    Ok(Literal::object(props))
}

/// `{kind: "FragmentSpread", name, directives}`. Fails where the name is
/// absent.
pub fn create_fragment_spread(frag_spread: &FragmentSpread) -> (r: Result<Literal, ConvertError>)
    ensures
        outcome(r) == fragment_spread_tree(*frag_spread),
{
    let kind = create_kind("FragmentSpread");
    let name = create_prop("name", create_required_name(&frag_spread.name)?);
    let directives = create_prop("directives", create_directives(&frag_spread.directives));
    let props = vec![kind, name, directives];
    proof {
        assert(entries(props@) =~= seq![kind@, name@, directives@]);
    }
    Ok(Literal::object(props))
}

/// `{kind: "InlineFragment", typeCondition, directives, selectionSet}`.
/// Fails where the type condition or the selection set does.
pub fn create_inline_fragment(inline_frag: &InlineFragment, binder: &Binder) -> (r: Result<
    Literal,
    ConvertError,
>)
    ensures
        outcome(r) == inline_fragment_tree(*inline_frag, binder@),
    decreases inline_frag,
{
    let kind = create_kind("InlineFragment");
    let type_condition = create_prop(
        "typeCondition",
        create_type_condition(&inline_frag.type_condition)?,
    );
    let directives = create_prop("directives", create_directives(&inline_frag.directives));
    let sel_set = create_prop(
        "selectionSet",
        create_selection_set(&inline_frag.selection_set, binder)?,
    );
    let props = vec![kind, type_condition, directives, sel_set];
    proof {
        assert(entries(props@) =~= seq![kind@, type_condition@, directives@, sel_set@]);
    }
    Ok(Literal::object(props))
}

/// The array of the variable definitions, in source order, `[]` where the
/// operation has none. Fails with the failure of the first definition that
/// has one.
pub fn create_variable_definitions(
    variable_defs: &Option<Vec<VariableDefinition>>,
    binder: &Binder,
) -> (r: Result<Literal, ConvertError>)
    ensures
        outcome(r) == variable_definitions_tree(*variable_defs, binder@),
        variable_defs is None ==> outcome(r) == Ok::<Tree, ConvertError>(empty_array()),
{
    let list = match variable_defs {
        None => {
            return Ok(create_empty_array());
        },
        Some(list) => list,
    };
    let ghost parts = variable_definition_parts(*list, binder@);
    let mut all_variable_definitions: Vec<Literal> = Vec::new();
    let mut i: usize = 0;
    assert(trees(all_variable_definitions@) =~= Seq::empty());
    while i < list.len()
        invariant
            i <= list.len(),
            *variable_defs == Some(*list),
            parts == variable_definition_parts(*list, binder@),
            collect(parts.take(i as int)) == Ok::<Seq<Tree>, ConvertError>(
                trees(all_variable_definitions@),
            ),
        decreases list.len() - i,
    {
        proof {
            collect_extend(parts, i as int);
        }
        let ghost before = all_variable_definitions@;
        match create_variable_definition(&list[i], binder) {
            Ok(variable_def) => {
                all_variable_definitions.push(variable_def);
                assert(trees(all_variable_definitions@) =~= trees(before).push(variable_def@));
            },
            Err(e) => {
                proof {
                    collect_prefix_failure(parts, i + 1);
                }
                return Err(e);
            },
        }
        i += 1;
    }
    assert(parts.take(i as int) == parts);
    Ok(Literal::array(all_variable_definitions))
}

/// `{kind: "VariableDefinition", directives, defaultValue, type, variable}`.
/// Fails where the variable is absent or has no name, and where the default
/// value or the type fails.
pub fn create_variable_definition(variable_def: &VariableDefinition, binder: &Binder) -> (r: Result<
    Literal,
    ConvertError,
>)
    ensures
        outcome(r) == variable_definition_tree(*variable_def, binder@),
{
    let kind = create_kind("VariableDefinition");
    let directives = create_prop("directives", create_directives(&variable_def.directives));
    let variable = match &variable_def.variable {
        Some(var) => create_prop("variable", create_variable_value(var)?),
        None => {
            return Err(ConvertError::Missing(Child::Variable));
        },
    };
    let default_value = create_prop(
        "defaultValue",
        create_default_value(&variable_def.default_value, binder)?,
    );
    let type_def = create_prop("type", create_type(&variable_def.ty)?);
    let props = vec![kind, directives, default_value, type_def, variable];
    proof {
        assert(entries(props@) =~= seq![kind@, directives@, default_value@, type_def@, variable@]);
    }
    Ok(Literal::object(props))
}

/// The keyword of an operation: `query`, `mutation` or `subscription`, by
/// the first of these tokens that the node holds, and `query` where it holds
/// none. Fails where the operation has no operation type.
pub fn get_operation_token(operation_type: &Option<OperationType>) -> (r: Result<
    String,
    ConvertError,
>)
    ensures
        match r {
            Ok(token) => operation_token(*operation_type) == Ok::<Seq<char>, ConvertError>(token@),
            Err(e) => operation_token(*operation_type) == Err::<Seq<char>, ConvertError>(e),
        },
{
    let opr_tokn = match operation_type {
        Some(tokens) => tokens,
        None => {
            return Err(ConvertError::Missing(Child::OperationType));
        },
    };
    if opr_tokn.query_token {
        return Ok("query".to_owned());
    }
    if opr_tokn.mutation_token {
        return Ok("mutation".to_owned());
    }
    if opr_tokn.subscription_token {
        return Ok("subscription".to_owned());
    }
    Ok("query".to_owned())
}

/// `{kind: "OperationDefinition", name, directives, selectionSet,
/// variableDefinitions, operation}`. Fails where the name or the operation
/// type is absent, and where a variable definition or the selection set
/// fails.
pub fn create_operation_definition(definition: &OperationDefinition, binder: &Binder) -> (r: Result<
    Literal,
    ConvertError,
>)
    ensures
        outcome(r) == operation_definition_tree(*definition, binder@),
{
    let kind = create_kind("OperationDefinition");
    let name = create_prop("name", create_required_name(&definition.name)?);
    let variable_definitions = create_prop(
        "variableDefinitions",
        create_variable_definitions(&definition.variable_definitions, binder)?,
    );
    let directives = create_prop("directives", create_directives(&definition.directives));
    let selection_set = create_prop(
        "selectionSet",
        create_selection_set(&definition.selection_set, binder)?,
    );
    let operation = create_prop(
        "operation",
        Literal::Text(get_operation_token(&definition.operation_type)?),
    );
    let props = vec![kind, name, directives, selection_set, variable_definitions, operation];
    proof {
        assert(entries(props@) =~= seq![
            kind@,
            name@,
            directives@,
            selection_set@,
            variable_definitions@,
            operation@,
        ]);
    }
    Ok(Literal::object(props))
}

/// `{kind: "FragmentDefinition", name, typeCondition, directives,
/// selectionSet}`. Fails where the name is absent, and where the type
/// condition or the selection set fails.
pub fn create_fragment_definition(definition: &FragmentDefinition, binder: &Binder) -> (r: Result<
    Literal,
    ConvertError,
>)
    ensures
        outcome(r) == fragment_definition_tree(*definition, binder@),
{
    let kind = create_kind("FragmentDefinition");
    let name = create_prop("name", create_required_name(&definition.name)?);
    let type_condition = create_prop(
        "typeCondition",
        create_type_condition(&definition.type_condition)?,
    );
    let directives = create_prop("directives", create_directives(&definition.directives));
    let selection_set = create_prop(
        "selectionSet",
        create_selection_set(&definition.selection_set, binder)?,
    );
    let props = vec![kind, name, type_condition, directives, selection_set];
    proof {
        assert(entries(props@) =~= seq![
            kind@,
            name@,
            type_condition@,
            directives@,
            selection_set@,
        ]);
    }
    Ok(Literal::object(props))
}

/// An operation or a fragment. Fails on a definition of the type system,
/// with its kind.
pub fn create_definition(definition: &Definition, binder: &Binder) -> (r: Result<
    Literal,
    ConvertError,
>)
    ensures
        outcome(r) == definition_tree(*definition, binder@),
        *definition matches Definition::TypeSystem(kind) ==> r == Err::<Literal, ConvertError>(
            ConvertError::UnsupportedDefinition(kind),
        ),
{
    match definition {
        Definition::Fragment(frag_def) => create_fragment_definition(frag_def, binder),
        Definition::Operation(operation_def) => create_operation_definition(operation_def, binder),
        Definition::TypeSystem(kind) => Err(ConvertError::UnsupportedDefinition(*kind)),
    }
}

/// The array of the definitions, in source order. Fails with the failure of
/// the first definition that has one.
pub fn create_definitions(definitions: &Vec<Definition>, binder: &Binder) -> (r: Result<
    Literal,
    ConvertError,
>)
    ensures
        outcome(r) == definitions_tree(*definitions, binder@),
{
    let ghost parts = definition_parts(*definitions, binder@);
    let mut all_definitions: Vec<Literal> = Vec::new();
    let mut i: usize = 0;
    assert(trees(all_definitions@) =~= Seq::empty());
    while i < definitions.len()
        invariant
            i <= definitions.len(),
            parts == definition_parts(*definitions, binder@),
            collect(parts.take(i as int)) == Ok::<Seq<Tree>, ConvertError>(trees(all_definitions@)),
        decreases definitions.len() - i,
    {
        proof {
            collect_extend(parts, i as int);
        }
        let ghost before = all_definitions@;
        match create_definition(&definitions[i], binder) {
            Ok(def) => {
                all_definitions.push(def);
                assert(trees(all_definitions@) =~= trees(before).push(def@));
            },
            Err(e) => {
                proof {
                    collect_prefix_failure(parts, i + 1);
                }
                return Err(e);
            },
        }
        i += 1;
    }
    assert(parts.take(i as int) == parts);
    Ok(Literal::array(all_definitions))
}

/// `{kind: "Document", definitions}`: the literal that stands for the whole
/// document, with one element of `definitions` for each definition, in
/// source order. Fails where any definition does, and then hands out
/// nothing of the document.
pub fn create_document(document: &Document, binder: &Binder) -> (r: Result<Literal, ConvertError>)
    ensures
        outcome(r) == document_tree(*document, binder@),
        r matches Ok(literal) ==> canonical(literal@) && directives_empty(literal@),
{
    proof {
        emitted_nodes_are_canonical(*document, binder@);
        directives_are_always_empty(*document, binder@);
    }
    let definitions = create_definitions(&document.definitions, binder)?;
    Ok(create_node("Document", "definitions", definitions))
}

} // verus!
