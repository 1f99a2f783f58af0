use crate::primitive_type::PrimitiveType;
use vstd::prelude::*;

verus! {

/// An element kind that can be stored in an array, with the tag that names it.
pub trait ArrayElement {
    const PRIMITIVE_TYPE: PrimitiveType;
}

impl ArrayElement for bool {
    const PRIMITIVE_TYPE: PrimitiveType = PrimitiveType::Pred;
}

impl ArrayElement for i8 {
    const PRIMITIVE_TYPE: PrimitiveType = PrimitiveType::S8;
}

impl ArrayElement for i16 {
    const PRIMITIVE_TYPE: PrimitiveType = PrimitiveType::S16;
}

impl ArrayElement for i32 {
    const PRIMITIVE_TYPE: PrimitiveType = PrimitiveType::S32;
}

impl ArrayElement for i64 {
    const PRIMITIVE_TYPE: PrimitiveType = PrimitiveType::S64;
}

impl ArrayElement for u8 {
    const PRIMITIVE_TYPE: PrimitiveType = PrimitiveType::U8;
}

impl ArrayElement for u16 {
    const PRIMITIVE_TYPE: PrimitiveType = PrimitiveType::U16;
}

impl ArrayElement for u32 {
    const PRIMITIVE_TYPE: PrimitiveType = PrimitiveType::U32;
}

impl ArrayElement for u64 {
    const PRIMITIVE_TYPE: PrimitiveType = PrimitiveType::U64;
}

/// The tag of each element kind provided here; none of them is the tag
/// reserved for tuples.
pub proof fn lemma_tags_of_element_kinds()
    ensures
        <bool as ArrayElement>::PRIMITIVE_TYPE == PrimitiveType::Pred,
        <i8 as ArrayElement>::PRIMITIVE_TYPE == PrimitiveType::S8,
        <i16 as ArrayElement>::PRIMITIVE_TYPE == PrimitiveType::S16,
        <i32 as ArrayElement>::PRIMITIVE_TYPE == PrimitiveType::S32,
        <i64 as ArrayElement>::PRIMITIVE_TYPE == PrimitiveType::S64,
        <u8 as ArrayElement>::PRIMITIVE_TYPE == PrimitiveType::U8,
        <u16 as ArrayElement>::PRIMITIVE_TYPE == PrimitiveType::U16,
        <u32 as ArrayElement>::PRIMITIVE_TYPE == PrimitiveType::U32,
        <u64 as ArrayElement>::PRIMITIVE_TYPE == PrimitiveType::U64,
{
}

} // verus!
