use vstd::prelude::*;

verus! {

/// Tag naming the scalar kind stored in an array.
///
/// `Tuple` is reserved: a shape carrying it describes a tuple of sub-shapes
/// rather than a flat array.
#[derive(Clone, Copy, Debug, PartialEq, Eq, Hash, Structural)]
pub enum PrimitiveType {
    Invalid,
    Pred,
    S8,
    S16,
    S32,
    S64,
    U8,
    U16,
    U32,
    U64,
    F16,
    F32,
    Bf16,
    F64,
    C64,
    C128,
    Tuple,
    OpaqueType,
    Token,
}

} // verus!
