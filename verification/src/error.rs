//! Why a document cannot be converted. Either failure ends the conversion of
//! the whole unit: no part of the tree is handed out.

use vstd::prelude::*;

verus! {

/// A definition of the type system: recognized, never converted.
#[derive(Clone, Copy, Debug, PartialEq, Eq, Structural)]
pub enum TypeSystemKind {
    DirectiveDefinition,
    SchemaDefinition,
    ScalarTypeDefinition,
    ObjectTypeDefinition,
    InterfaceTypeDefinition,
    UnionTypeDefinition,
    EnumTypeDefinition,
    InputObjectTypeDefinition,
    SchemaExtension,
    ScalarTypeExtension,
    ObjectTypeExtension,
    InterfaceTypeExtension,
    UnionTypeExtension,
    EnumTypeExtension,
    InputObjectTypeExtension,
}

/// A child that the grammar promises of a node.
#[derive(Clone, Copy, Debug, PartialEq, Eq, Structural)]
pub enum Child {
    Name,
    Variable,
    Value,
    OperationType,
    FloatToken,
    IntToken,
}

/// The failure of a conversion.
#[derive(Clone, Copy, Debug, PartialEq, Eq, Structural)]
pub enum ConvertError {
    /// The document holds a definition of the type system.
    UnsupportedDefinition(TypeSystemKind),
    /// A type is marked non-null.
    UnsupportedNonNullType,
    /// A node lacks a child that the grammar promises.
    Missing(Child),
    /// The text of a string value is too short to hold its two quotes.
    UnquotedString,
    /// The pattern that finds the quoted part of a string value was rejected.
    PatternRejected,
    /// A placeholder names no interpolated expression.
    UnboundPlaceholder,
}

} // verus!
