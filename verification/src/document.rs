//! The parsed query document, as plain data.
//!
//! Each type holds what a parser of the query grammar reports of one node.
//! A child that the grammar promises is still an `Option`: a parser that
//! recovers from errors may leave it out, and the serializer refuses such a
//! node. Order is source order throughout.
//!
//! The types are plain algebraic data without an invariant: every value is
//! a document. Contracts read them as they are, a list by its sequence and a
//! string by its characters.

use vstd::prelude::*;
use crate::error::TypeSystemKind;

verus! {

/// A document: its top-level definitions.
#[derive(Debug, PartialEq, Eq)]
pub struct Document {
    pub definitions: Vec<Definition>,
}

/// A top-level definition.
#[derive(Debug, PartialEq, Eq)]
pub enum Definition {
    Operation(OperationDefinition),
    Fragment(FragmentDefinition),
    /// A definition of the type system, of which only the kind is kept.
    TypeSystem(TypeSystemKind),
}

/// `query Name($v: T) @d { .. }`, or a mutation or subscription.
#[derive(Debug, PartialEq, Eq)]
pub struct OperationDefinition {
    pub operation_type: Option<OperationType>,
    pub name: Option<String>,
    pub variable_definitions: Option<Vec<VariableDefinition>>,
    pub directives: Option<Vec<Directive>>,
    pub selection_set: Option<SelectionSet>,
}

/// The keyword of an operation: which of the three keyword tokens the node
/// holds.
#[derive(Clone, Copy, Debug, PartialEq, Eq, Structural)]
pub struct OperationType {
    pub query_token: bool,
    pub mutation_token: bool,
    pub subscription_token: bool,
}

/// `fragment Name on T @d { .. }`.
#[derive(Debug, PartialEq, Eq)]
pub struct FragmentDefinition {
    pub name: Option<String>,
    pub type_condition: Option<TypeCondition>,
    pub directives: Option<Vec<Directive>>,
    pub selection_set: Option<SelectionSet>,
}

/// `on T`: the name of the type, where the node holds one.
#[derive(Debug, PartialEq, Eq)]
pub struct TypeCondition {
    pub name: Option<String>,
}

/// `$v: T = default @d`.
#[derive(Debug, PartialEq, Eq)]
pub struct VariableDefinition {
    pub variable: Option<Variable>,
    pub ty: Option<TypeRef>,
    pub default_value: Option<DefaultValue>,
    pub directives: Option<Vec<Directive>>,
}

/// `$name`.
#[derive(Debug, PartialEq, Eq)]
pub struct Variable {
    pub name: Option<String>,
}

/// `= value`.
#[derive(Debug, PartialEq, Eq)]
pub struct DefaultValue {
    pub value: Option<Value>,
}

/// A reference to a type.
#[derive(Debug, PartialEq, Eq)]
pub enum TypeRef {
    Named(NamedType),
    List(ListType),
    /// `T!`: recognized, never converted.
    NonNull,
}

/// `T`.
#[derive(Debug, PartialEq, Eq)]
pub struct NamedType {
    pub name: Option<String>,
}

/// `[T]`.
#[derive(Debug, PartialEq, Eq)]
pub struct ListType {
    pub ty: Box<Option<TypeRef>>,
}

/// `{ .. }`.
#[derive(Debug, PartialEq, Eq)]
pub struct SelectionSet {
    pub selections: Vec<Selection>,
}

/// One entry of a selection set.
#[derive(Debug, PartialEq, Eq)]
pub enum Selection {
    Field(Field),
    FragmentSpread(FragmentSpread),
    InlineFragment(InlineFragment),
}

/// `name(args) @d { .. }`.
#[derive(Debug, PartialEq, Eq)]
pub struct Field {
    pub name: Option<String>,
    pub arguments: Option<Vec<Argument>>,
    pub directives: Option<Vec<Directive>>,
    pub selection_set: Option<SelectionSet>,
}

/// `...Name @d`.
#[derive(Debug, PartialEq, Eq)]
pub struct FragmentSpread {
    pub name: Option<String>,
    pub directives: Option<Vec<Directive>>,
}

/// `... on T @d { .. }`.
#[derive(Debug, PartialEq, Eq)]
pub struct InlineFragment {
    pub type_condition: Option<TypeCondition>,
    pub directives: Option<Vec<Directive>>,
    pub selection_set: Option<SelectionSet>,
}

/// `name: value`, in the arguments of a field or of a directive.
#[derive(Debug, PartialEq, Eq)]
pub struct Argument {
    pub name: Option<String>,
    pub value: Option<Value>,
}

/// `@name(args)`.
#[derive(Debug, PartialEq, Eq)]
pub struct Directive {
    pub name: Option<String>,
    pub arguments: Option<Vec<Argument>>,
}

/// A value.
#[derive(Debug, PartialEq, Eq)]
pub enum Value {
    Variable(Variable),
    /// The source text of the string value's node.
    StringValue(String),
    /// The text of the float token.
    FloatValue(Option<String>),
    /// The text of the integer token.
    IntValue(Option<String>),
    /// Whether the node holds the token `true`.
    BooleanValue(bool),
    NullValue,
    /// The name of the enum value.
    EnumValue(Option<String>),
    ListValue(Vec<Value>),
    ObjectValue(Vec<ObjectField>),
    /// A position that stands for an interpolated host expression, named by
    /// its key.
    Placeholder(String),
}

/// `name: value`, in an object value.
#[derive(Debug, PartialEq, Eq)]
pub struct ObjectField {
    pub name: Option<String>,
    pub value: Option<Value>,
}

} // verus!
