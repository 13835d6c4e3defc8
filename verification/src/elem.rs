//! Element types.
use vstd::prelude::*;

verus! {

/// Tag of the scalar type a kernel is specialised for.
#[derive(Clone, Copy, Debug, PartialEq, Eq, Structural)]
pub enum Elem {
    Float,
    Int,
    UInt,
    Bool,
}

impl Elem {
    /// Number that stands for the tag inside a cache key.
    pub open spec fn spec_code(self) -> u64 {
        match self {
            Elem::Float => 0,
            Elem::Int => 1,
            Elem::UInt => 2,
            Elem::Bool => 3,
        }
    }

    #[verifier::when_used_as_spec(spec_code)]
    pub fn code(self) -> (c: u64)
        ensures
            c == self.spec_code(),
    {
        match self {
            Elem::Float => 0,
            Elem::Int => 1,
            Elem::UInt => 2,
            Elem::Bool => 3,
        }
    }
}

/// A host type whose values can be elements of a tensor on the device.
pub trait JitElement {
    /// The tag of this type.
    spec fn spec_gpu_elem() -> Elem;

    /// The tag under which kernels for this type are generated.
    fn gpu_elem() -> (e: Elem)
        ensures
            e == Self::spec_gpu_elem(),
    ;
}

impl JitElement for i32 {
    open spec fn spec_gpu_elem() -> Elem {
        Elem::Int
    }

    fn gpu_elem() -> (e: Elem) {
        Elem::Int
    }
}

impl JitElement for u32 {
    open spec fn spec_gpu_elem() -> Elem {
        Elem::UInt
    }

    fn gpu_elem() -> (e: Elem) {
        Elem::UInt
    }
}

} // verus!
