//! The mathematical model of a shape, over which the contracts are stated.

use crate::error::ErrorView;
use crate::product::wrapped_product;
use crate::primitive_type::PrimitiveType;
use vstd::prelude::*;

verus! {

/// What a shape stands for: the element tag, the size of each axis in order,
/// and the number of sub-shapes of a tuple.
pub struct ShapeView {
    pub element_type: PrimitiveType,
    pub dimensions: Seq<i64>,
    pub tuple_arity: nat,
}

impl ShapeView {
    /// The shape of an array of `element_type` with the given axes.
    pub open spec fn array(element_type: PrimitiveType, dimensions: Seq<i64>) -> ShapeView {
        ShapeView { element_type, dimensions, tuple_arity: 0 }
    }

    /// The shape of a tuple of `arity` sub-shapes.
    pub open spec fn tuple(arity: nat) -> ShapeView {
        ShapeView {
            element_type: PrimitiveType::Tuple,
            dimensions: Seq::empty(),
            tuple_arity: arity,
        }
    }

    /// Whether the tag is the one reserved for tuples.
    pub open spec fn is_tuple(self) -> bool {
        self.element_type == PrimitiveType::Tuple
    }

    /// The invariant of the data model: a tuple shape has no dimensions, and
    /// an array shape has no tuple arity.
    pub open spec fn well_formed(self) -> bool {
        &&& self.is_tuple() ==> self.dimensions.len() == 0
        &&& !self.is_tuple() ==> self.tuple_arity == 0
    }

    /// The number of sub-shapes of a tuple shape; nothing for an array shape,
    /// whatever arity it holds.
    pub open spec fn tuple_size(self) -> Option<nat> {
        if self.is_tuple() {
            Some(self.tuple_arity)
        } else {
            None
        }
    }

    /// The size of the first axis, if there is one.
    pub open spec fn first_dim(self) -> Option<i64> {
        if self.dimensions.len() > 0 {
            Some(self.dimensions.first())
        } else {
            None
        }
    }

    /// The size of the last axis, if there is one.
    pub open spec fn last_dim(self) -> Option<i64> {
        if self.dimensions.len() > 0 {
            Some(self.dimensions.last())
        } else {
            None
        }
    }

    /// The product of the sizes of all axes, wrapped around at the width of
    /// `usize`; 1 without axes.
    pub open spec fn element_count(self) -> int {
        wrapped_product(self.dimensions)
    }

    /// The error that reports this shape's dimensions where `expected` of
    /// them were asked for.
    pub open spec fn arity_mismatch(self, expected: nat) -> ErrorView {
        ErrorView::UnexpectedNumberOfDims {
            expected,
            got: self.dimensions.len(),
            dims: self.dimensions,
        }
    }
}

} // verus!
