//! The shape of a field's declared type: optional, sequence, or plain.
//!
//! The shape is read off the outer name and the generic argument alone. A type
//! that only stands for `Option<T>` under another name is plain.

use vstd::prelude::*;
use crate::descriptor::{same_text, TypeExpression, TypeModel};

verus! {

/// The three shapes a declared type can have.
#[derive(Debug, PartialEq, Eq)]
pub enum TypeShape {
    /// `Option<inner>`.
    Optional(TypeExpression),
    /// `Vec<inner>`.
    Sequence(TypeExpression),
    /// Any other type, as declared.
    Plain(TypeExpression),
}

/// What a [`TypeShape`] is in contracts.
pub enum ShapeModel {
    Optional(TypeModel),
    Sequence(TypeModel),
    Plain(TypeModel),
}

impl View for TypeShape {
    type V = ShapeModel;

    open spec fn view(&self) -> ShapeModel {
        match *self {
            TypeShape::Optional(inner) => ShapeModel::Optional(inner@),
            TypeShape::Sequence(inner) => ShapeModel::Sequence(inner@),
            TypeShape::Plain(ty) => ShapeModel::Plain(ty@),
        }
    }
}

/// The outer name of an optional type.
pub open spec fn option_name() -> Seq<char> {
    "Option"@
}

/// The outer name of a sequence type.
pub open spec fn sequence_name() -> Seq<char> {
    "Vec"@
}

/// The type `Option<payload>`.
pub open spec fn optional_of(payload: TypeModel) -> TypeModel {
    TypeModel { name: option_name(), argument: Some(Box::new(payload)) }
}

/// The type `Vec<element>`.
pub open spec fn sequence_of(element: TypeModel) -> TypeModel {
    TypeModel { name: sequence_name(), argument: Some(Box::new(element)) }
}

/// The shape of a declared type.
pub open spec fn classify_spec(ty: TypeModel) -> ShapeModel {
    if ty.name == option_name() && ty.argument is Some {
        ShapeModel::Optional(*ty.argument->0)
    } else if ty.name == sequence_name() && ty.argument is Some {
        ShapeModel::Sequence(*ty.argument->0)
    } else {
        ShapeModel::Plain(ty)
    }
}

impl ShapeModel {
    /// The type inside: the generic argument of an optional or a sequence,
    /// and a plain type itself.
    pub open spec fn inner(self) -> TypeModel {
        match self {
            ShapeModel::Optional(inner) => inner,
            ShapeModel::Sequence(inner) => inner,
            ShapeModel::Plain(ty) => ty,
        }
    }

    /// The declared type that has this shape.
    pub open spec fn declared(self) -> TypeModel {
        match self {
            ShapeModel::Optional(inner) => optional_of(inner),
            ShapeModel::Sequence(inner) => sequence_of(inner),
            ShapeModel::Plain(ty) => ty,
        }
    }
}

/// The outer name of a type.
pub fn get_ident_from_type(ty: &TypeExpression) -> (name: &String)
    ensures
        name@ == ty@.name,
{
    &ty.name
}

/// The single generic argument of a type, where it has exactly one.
pub fn get_in_angle_bracket(ty: &TypeExpression) -> (argument: Option<&TypeExpression>)
    ensures
        argument is Some == ty@.argument is Some,
        argument is Some ==> argument->0@ == *ty@.argument->0,
{
    match &ty.argument {
        Some(inner) => Some(&**inner),
        None => None,
    }
}

/// Whether the outer name of `ty` is literally `to_match_on`.
pub fn is_a(to_match_on: &str, ty: &TypeExpression) -> (hit: bool)
    ensures
        hit == (ty@.name == to_match_on@),
{
    same_text(get_ident_from_type(ty).as_str(), to_match_on)
}

/// Classifies a declared type. There is no error: what is not recognised by
/// name and argument is plain.
pub fn classify(ty: &TypeExpression) -> (shape: TypeShape)
    ensures
        shape@ == classify_spec(ty@),
{
    match get_in_angle_bracket(ty) {
        Some(inner) => {
            if is_a("Option", ty) {
                TypeShape::Optional(inner.duplicate())
            } else if is_a("Vec", ty) {
                TypeShape::Sequence(inner.duplicate())
            } else {
                TypeShape::Plain(ty.duplicate())
            }
        },
        None => TypeShape::Plain(ty.duplicate()),
    }
}

/// The declared type can be read back from its shape.
pub proof fn classify_round_trip(ty: TypeModel)
    ensures
        classify_spec(ty).declared() == ty,
{
    reveal_strlit("Option");
    reveal_strlit("Vec");
    match classify_spec(ty) {
        ShapeModel::Optional(inner) => {
            assert(ty.argument == Some(Box::new(inner)));
        },
        ShapeModel::Sequence(inner) => {
            assert(ty.argument == Some(Box::new(inner)));
        },
        ShapeModel::Plain(_) => {},
    }
}

impl TypeShape {
    /// A copy of the type inside.
    pub fn inner(&self) -> (ty: TypeExpression)
        ensures
            ty@ == self@.inner(),
    {
        match self {
            TypeShape::Optional(inner) => inner.duplicate(),
            TypeShape::Sequence(inner) => inner.duplicate(),
            TypeShape::Plain(ty) => ty.duplicate(),
        }
    }

    /// The declared type that has this shape.
    pub fn declared(&self) -> (ty: TypeExpression)
        ensures
            ty@ == self@.declared(),
    {
        match self {
            TypeShape::Optional(inner) => TypeExpression::generic("Option", inner.duplicate()),
            TypeShape::Sequence(inner) => TypeExpression::generic("Vec", inner.duplicate()),
            TypeShape::Plain(ty) => ty.duplicate(),
        }
    }
}

} // verus!
