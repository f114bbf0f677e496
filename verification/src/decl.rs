//! The model of an annotated type declaration.
//!
//! A generator only ever looks at two things in a declaration: the declared
//! name and the shape (struct, enum, or union). Field lists are never
//! inspected, so they are not part of the model.

use vstd::prelude::*;

verus! {

/// The structural category of a type declaration. Only `Struct` is accepted
/// by the generators; the field layout of a struct (named, tuple, or unit)
/// plays no part, so it is not recorded.
#[derive(Clone, Copy, Debug, PartialEq, Eq, Structural)]
pub enum Shape {
    Struct,
    Enum,
    Union,
}

/// What a generator reads from an annotated type declaration: its declared
/// name and its shape.
#[derive(Debug)]
pub struct Decl {
    pub name: String,
    pub shape: Shape,
}

/// The two fatal conditions of a generator run.
#[derive(Clone, Copy, Debug, PartialEq, Eq, Structural)]
pub enum DeriveError {
    /// The input text could not be parsed as a type declaration at all.
    Unparsable,
    /// The declaration parsed, but its shape is not a plain struct.
    UnsupportedShape,
}

/// Shape validation: a declaration is accepted exactly when it is a struct.
pub fn check_shape(shape: Shape) -> (r: Result<(), DeriveError>)
    ensures
        shape == Shape::Struct ==> r == Ok::<(), DeriveError>(()),
        shape != Shape::Struct ==> r == Err::<(), DeriveError>(DeriveError::UnsupportedShape),
{
    match shape {
        Shape::Struct => Ok(()),
        Shape::Enum => Err(DeriveError::UnsupportedShape),
        Shape::Union => Err(DeriveError::UnsupportedShape),
    }
}

} // verus!
