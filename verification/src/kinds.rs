//! The node kinds of the query grammar's syntax tree: the text that names each
//! kind, and the properties that a node of the kind carries after `kind`.

use vstd::prelude::*;

verus! {

/// A kind of node that the serializer writes.
#[derive(Clone, Copy, Debug, PartialEq, Eq, Structural)]
pub enum NodeKind {
    Document,
    OperationDefinition,
    FragmentDefinition,
    VariableDefinition,
    NamedType,
    ListType,
    Name,
    SelectionSet,
    Field,
    FragmentSpread,
    InlineFragment,
    Argument,
    Variable,
    StringValue,
    FloatValue,
    IntValue,
    BooleanValue,
    EnumValue,
    NullValue,
    ListValue,
    ObjectValue,
    ObjectField,
}

/// The text of a kind, as a node's `kind` property holds it.
pub open spec fn kind_text(kind: NodeKind) -> Seq<char> {
    match kind {
        NodeKind::Document => "Document"@,
        NodeKind::OperationDefinition => "OperationDefinition"@,
        NodeKind::FragmentDefinition => "FragmentDefinition"@,
        NodeKind::VariableDefinition => "VariableDefinition"@,
        NodeKind::NamedType => "NamedType"@,
        NodeKind::ListType => "ListType"@,
        NodeKind::Name => "Name"@,
        NodeKind::SelectionSet => "SelectionSet"@,
        NodeKind::Field => "Field"@,
        NodeKind::FragmentSpread => "FragmentSpread"@,
        NodeKind::InlineFragment => "InlineFragment"@,
        NodeKind::Argument => "Argument"@,
        NodeKind::Variable => "Variable"@,
        NodeKind::StringValue => "StringValue"@,
        NodeKind::FloatValue => "FloatValue"@,
        NodeKind::IntValue => "IntValue"@,
        NodeKind::BooleanValue => "BooleanValue"@,
        NodeKind::EnumValue => "EnumValue"@,
        NodeKind::NullValue => "NullValue"@,
        NodeKind::ListValue => "ListValue"@,
        NodeKind::ObjectValue => "ObjectValue"@,
        NodeKind::ObjectField => "ObjectField"@,
    }
}

/// The keys of a node's properties after `kind`, in the order in which the
/// node carries them.
pub open spec fn field_names(kind: NodeKind) -> Seq<Seq<char>> {
    match kind {
        NodeKind::Document => seq!["definitions"@],
        NodeKind::OperationDefinition => seq![
            "name"@,
            "directives"@,
            "selectionSet"@,
            "variableDefinitions"@,
            "operation"@,
        ],
        NodeKind::FragmentDefinition => seq![
            "name"@,
            "typeCondition"@,
            "directives"@,
            "selectionSet"@,
        ],
        NodeKind::VariableDefinition => seq![
            "directives"@,
            "defaultValue"@,
            "type"@,
            "variable"@,
        ],
        NodeKind::NamedType => seq!["name"@],
        NodeKind::ListType => seq!["type"@],
        NodeKind::Name => seq!["value"@],
        NodeKind::SelectionSet => seq!["selections"@],
        NodeKind::Field => seq!["name"@, "arguments"@, "directives"@, "selectionSet"@],
        NodeKind::FragmentSpread => seq!["name"@, "directives"@],
        NodeKind::InlineFragment => seq!["typeCondition"@, "directives"@, "selectionSet"@],
        NodeKind::Argument => seq!["name"@, "value"@],
        NodeKind::Variable => seq!["name"@],
        NodeKind::StringValue => seq!["value"@],
        NodeKind::FloatValue => seq!["value"@],
        NodeKind::IntValue => seq!["value"@],
        NodeKind::BooleanValue => seq!["value"@],
        NodeKind::EnumValue => seq!["value"@],
        NodeKind::NullValue => Seq::empty(),
        NodeKind::ListValue => seq!["values"@],
        NodeKind::ObjectValue => seq!["fields"@],
        NodeKind::ObjectField => seq!["name"@, "value"@],
    }
}

} // verus!
