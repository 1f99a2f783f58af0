//! What holds of every shape, stated over the model and proved.

use crate::array_element::ArrayElement;
use crate::model::ShapeView;
use crate::primitive_type::PrimitiveType;
use crate::shape::Shape;
use vstd::prelude::*;
use vstd::std_specs::cmp::PartialEqSpec;

verus! {

/// An array shape made for an element kind holds that kind's tag and the
/// dimensions it was given, unchanged and in order, and is no tuple: it has no
/// tuple size. This is stated of every kind but one whose tag is the one
/// reserved for tuples.
pub proof fn lemma_array_shape_of_kind<E: ArrayElement>(dimensions: Seq<i64>)
    requires
        E::PRIMITIVE_TYPE != PrimitiveType::Tuple,
    ensures
        ShapeView::array(E::PRIMITIVE_TYPE, dimensions).element_type == E::PRIMITIVE_TYPE,
        ShapeView::array(E::PRIMITIVE_TYPE, dimensions).dimensions == dimensions,
        !ShapeView::array(E::PRIMITIVE_TYPE, dimensions).is_tuple(),
        ShapeView::array(E::PRIMITIVE_TYPE, dimensions).tuple_size() is None,
        ShapeView::array(E::PRIMITIVE_TYPE, dimensions).well_formed(),
{
}

/// An array shape made with a tag given at run time holds that tag and the
/// dimensions it was given, and is a tuple exactly when the tag is the one
/// reserved for tuples.
pub proof fn lemma_array_shape_of_tag(element_type: PrimitiveType, dimensions: Seq<i64>)
    ensures
        ShapeView::array(element_type, dimensions).element_type == element_type,
        ShapeView::array(element_type, dimensions).dimensions == dimensions,
        ShapeView::array(element_type, dimensions).is_tuple() == (element_type
            == PrimitiveType::Tuple),
        element_type != PrimitiveType::Tuple ==> ShapeView::array(
            element_type,
            dimensions,
        ).well_formed(),
{
}

/// A tuple shape is a tuple, reports the arity it was made with, and has no
/// dimensions.
pub proof fn lemma_tuple_shape(arity: nat)
    ensures
        ShapeView::tuple(arity).is_tuple(),
        ShapeView::tuple(arity).tuple_size() == Some(arity),
        ShapeView::tuple(arity).dimensions.len() == 0,
        ShapeView::tuple(arity).first_dim() is None,
        ShapeView::tuple(arity).last_dim() is None,
        ShapeView::tuple(arity).well_formed(),
{
}

/// A shape that is no tuple has no tuple size, whatever arity it holds; a
/// shape that is one has the arity it holds.
pub proof fn lemma_tuple_size_follows_the_tag(shape: ShapeView)
    ensures
        !shape.is_tuple() ==> shape.tuple_size() is None,
        shape.is_tuple() ==> shape.tuple_size() == Some(shape.tuple_arity),
        shape.tuple_size() is Some <==> shape.is_tuple(),
{
}

/// A shape has a first and a last dimension exactly when it has a dimension
/// at all, and with one dimension the two are the same.
pub proof fn lemma_first_and_last_dim(shape: ShapeView)
    ensures
        shape.first_dim() is Some <==> shape.dimensions.len() > 0,
        shape.last_dim() is Some <==> shape.dimensions.len() > 0,
        shape.dimensions.len() > 0 ==> shape.first_dim() == Some(shape.dimensions[0]),
        shape.dimensions.len() > 0 ==> shape.last_dim() == Some(
            shape.dimensions[shape.dimensions.len() - 1],
        ),
        shape.dimensions.len() == 1 ==> shape.first_dim() == shape.last_dim(),
{
}

/// Two shapes compare equal exactly when they hold the same tag, the same
/// dimensions in the same order and the same tuple arity.
pub proof fn lemma_equality_is_structural(a: Shape, b: Shape)
    ensures
        a.eq_spec(&b) <==> {
            &&& a@.element_type == b@.element_type
            &&& a@.dimensions == b@.dimensions
            &&& a@.tuple_arity == b@.tuple_arity
        },
{
}

/// An array shape made again from the tag and the dimensions read back from
/// a shape without tuple arity is equal to that shape.
pub proof fn lemma_round_trip(shape: Shape, again: Shape)
    requires
        shape@.tuple_arity == 0,
        again@ == ShapeView::array(shape@.element_type, shape@.dimensions),
    ensures
        again@ == shape@,
        again.eq_spec(&shape),
{
}

/// A tuple shape made again from the tuple size read back from a tuple shape
/// is equal to that shape.
pub proof fn lemma_round_trip_of_tuple(shape: Shape, again: Shape, arity: nat)
    requires
        shape@ == ShapeView::tuple(arity),
        shape@.tuple_size() matches Some(size) && again@ == ShapeView::tuple(size),
    ensures
        again@ == shape@,
        again.eq_spec(&shape),
{
}

} // verus!
