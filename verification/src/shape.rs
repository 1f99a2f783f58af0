use crate::array_element::ArrayElement;
use crate::model::ShapeView;
use crate::primitive_type::PrimitiveType;
use crate::product::{lemma_wrapped_product_step, word_modulus, wrapped_product};
use vstd::arithmetic::div_mod::lemma_small_mod;
use vstd::prelude::*;
use vstd::std_specs::cmp::PartialEqSpecImpl;

verus! {

/// A shape specifies a primitive type as well as some array dimensions.
///
/// Two shapes are equal when they hold the same tag, the same dimensions in
/// the same order and the same tuple arity.
#[derive(Debug)]
pub struct Shape {
    ty: PrimitiveType,
    dimensions: Vec<i64>,
    tuple_shapes_size: usize,
}

impl View for Shape {
    type V = ShapeView;

    closed spec fn view(&self) -> ShapeView {
        ShapeView {
            element_type: self.ty,
            dimensions: self.dimensions@,
            tuple_arity: self.tuple_shapes_size as nat,
        }
    }
}

impl Clone for Shape {
    fn clone(&self) -> (copy: Shape)
        ensures
            copy@ == self@,
    {
        Shape {
            ty: self.ty,
            dimensions: self.dimensions.clone(),
            tuple_shapes_size: self.tuple_shapes_size,
        }
    }
}

impl PartialEq for Shape {
    fn eq(&self, other: &Shape) -> (equal: bool) {
        let n: usize = self.dimensions.len();
        if self.ty != other.ty || self.tuple_shapes_size != other.tuple_shapes_size || n
            != other.dimensions.len() {
            return false;
        }
        let mut i: usize = 0;
        while i < n
            invariant
                n == self.dimensions.len(),
                n == other.dimensions.len(),
                i <= n,
                self.dimensions@.take(i as int) == other.dimensions@.take(i as int),
            decreases n - i,
        {
            if self.dimensions[i] != other.dimensions[i] {
                return false;
            }
            proof {
                let mine = self.dimensions@;
                let theirs = other.dimensions@;
                assert(mine.take(i as int + 1) == mine.take(i as int).push(mine[i as int]));
                assert(theirs.take(i as int + 1) == theirs.take(i as int).push(theirs[i as int]));
            }
            i += 1;
        }
        proof {
            assert(self.dimensions@.take(n as int) == self.dimensions@);
            assert(other.dimensions@.take(n as int) == other.dimensions@);
        }
        true
    }
}

impl PartialEqSpecImpl for Shape {
    open spec fn obeys_eq_spec() -> bool {
        true
    }

    open spec fn eq_spec(&self, other: &Shape) -> bool {
        self@ == other@
    }
}

impl Eq for Shape {

}

impl Shape {
    /// Create a new shape.
    pub fn new<E: ArrayElement>(dimensions: Vec<i64>) -> (shape: Shape)
        ensures
            shape@ == ShapeView::array(E::PRIMITIVE_TYPE, dimensions@),
            E::PRIMITIVE_TYPE != PrimitiveType::Tuple ==> shape@.well_formed(),
    {
        Shape { ty: E::PRIMITIVE_TYPE, dimensions, tuple_shapes_size: 0 }
    }

    /// Create a new shape.
    ///
    /// The tag is stored as given. Tuple shapes are made with [`Shape::tuple`]:
    /// handing the tuple tag to this function yields a shape that reports
    /// itself as a tuple of no sub-shapes and still lists `dimensions`.
    pub fn with_type(ty: PrimitiveType, dimensions: Vec<i64>) -> (shape: Shape)
        ensures
            shape@ == ShapeView::array(ty, dimensions@),
            ty != PrimitiveType::Tuple ==> shape@.well_formed(),
    {
        Shape { ty, dimensions, tuple_shapes_size: 0 }
    }

    /// Create a new tuple shape.
    pub fn tuple(size: usize) -> (shape: Shape)
        ensures
            shape@ == ShapeView::tuple(size as nat),
            shape@.well_formed(),
    {
        Shape { ty: PrimitiveType::Tuple, dimensions: Vec::new(), tuple_shapes_size: size }
    }

    /// The stored primitive type.
    pub fn element_type(&self) -> (ty: PrimitiveType)
        ensures
            ty == self@.element_type,
    {
        self.ty
    }

    /// The stored primitive type, shortcut for `element_type`.
    pub fn ty(&self) -> (ty: PrimitiveType)
        ensures
            ty == self@.element_type,
    {
        self.ty
    }

    /// The number of elements stored in arrays that use this shape, this is the product of sizes
    /// across each dimension.
    ///
    /// Each size is cast to `usize` and the product wraps around at the width
    /// of `usize`, so no size is rejected: a negative one enters the product
    /// as a large unsigned factor.
    pub fn element_count(&self) -> (count: usize)
        ensures
            count == self@.element_count(),
    {
        let n: usize = self.dimensions.len();
        let mut count: usize = 1;
        let mut i: usize = 0;
        proof {
            lemma_small_mod(1, word_modulus() as nat);
        }
        while i < n
            invariant
                n == self.dimensions.len(),
                i <= n,
                count == wrapped_product(self.dimensions@.take(i as int)),
            decreases n - i,
        {
            let dim: i64 = self.dimensions[i];
            proof {
                let seen = self.dimensions@.take(i as int + 1);
                assert(seen.drop_last() == self.dimensions@.take(i as int));
                lemma_wrapped_product_step(seen);
            }
            count = count.wrapping_mul(dim as usize);
            i += 1;
        }
        proof {
            assert(self.dimensions@.take(n as int) == self.dimensions@);
        }
        count
    }

    /// The size of each axis, in the order given at construction.
    pub fn dimensions(&self) -> (dims: &[i64])
        ensures
            dims@ == self@.dimensions,
    {
        self.dimensions.as_slice()
    }

    /// The size of the first axis, if there is one.
    pub fn first_dim(&self) -> (dim: Option<i64>)
        ensures
            dim == self@.first_dim(),
    {
        if self.dimensions.len() > 0 {
            Some(self.dimensions[0])
        } else {
            None
        }
    }

    /// The size of the last axis, if there is one.
    pub fn last_dim(&self) -> (dim: Option<i64>)
        ensures
            dim == self@.last_dim(),
    {
        let n: usize = self.dimensions.len();
        if n > 0 {
            Some(self.dimensions[n - 1])
        } else {
            None
        }
    }

    /// Whether this shape describes a tuple rather than an array.
    pub fn is_tuple(&self) -> (b: bool)
        ensures
            b == self@.is_tuple(),
    {
        self.ty == PrimitiveType::Tuple
    }

    /// The number of sub-shapes of a tuple shape; nothing for an array shape.
    pub fn tuple_size(&self) -> (size: Option<usize>)
        ensures
            match size {
                Some(n) => self@.tuple_size() == Some(n as nat),
                None => self@.tuple_size() is None,
            },
    {
        if self.ty == PrimitiveType::Tuple {
            Some(self.tuple_shapes_size)
        } else {
            None
        }
    }
}

} // verus!
