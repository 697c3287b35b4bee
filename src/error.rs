//! How the attribute reports what it rejects.

use vstd::prelude::*;

verus! {

/// The ways in which the decorated item can have the wrong shape.
#[derive(Clone, Copy, Debug, PartialEq, Eq, Structural)]
pub enum ShapeError {
    /// The item is not an impl block.
    NotAnImpl,
    /// The impl is an inherent impl, or its trait carries no `!`.
    NotNegated,
    /// The impl is marked `unsafe`.
    UnsafeNotAllowed,
    /// The impl body declares items.
    BodyNotEmpty,
}

/// What went wrong, by category.
#[derive(Clone, Copy, Debug, PartialEq, Eq, Structural)]
pub enum ErrorKind {
    /// The attribute was given arguments.
    Argument,
    /// The decorated item has the wrong shape.
    Shape(ShapeError),
    /// The trait is not one of the auto traits that can be negated.
    UnsupportedTrait,
}

/// The part of the input that a diagnostic points at.
#[derive(Clone, Copy, Debug, PartialEq, Eq, Structural)]
pub enum SpanAt {
    /// The attribute's argument tokens.
    Args,
    /// The whole decorated item.
    Item,
    /// The trait path of the impl.
    TraitPath,
    /// The `!` together with the trait path.
    NegatedPath,
    /// The first item of the impl body.
    FirstItem,
}

/// A compile error to report at a place in the input.
#[derive(Clone, Debug)]
pub struct Diagnostic {
    pub kind: ErrorKind,
    pub at: SpanAt,
    pub message: String,
}

} // verus!
