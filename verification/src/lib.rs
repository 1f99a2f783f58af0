//! Shapes of multi-dimensional arrays: an element type with a list of
//! dimension sizes, or a tuple of a fixed number of sub-shapes.

pub mod array_element;
pub mod convert;
pub mod error;
pub mod laws;
pub mod model;
pub mod primitive_type;
pub mod product;
pub mod shape;

pub use array_element::ArrayElement;
pub use error::Error;
pub use primitive_type::PrimitiveType;
pub use shape::Shape;
