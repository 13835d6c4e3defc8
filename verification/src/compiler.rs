//! The boundary to the generator of kernel source.
use vstd::prelude::*;
use crate::kernel::CompilationInfo;

verus! {

/// The generator rejected a descriptor.
#[derive(Clone, Debug, PartialEq, Eq)]
pub struct KernelCompilationError {
    pub message: String,
}

/// What a generator answers: the source text, or why there is none.
pub type Generated = Result<String, KernelCompilationError>;

/// A generator of kernel source for one target.
///
/// What it returns is a function of the generator and the descriptor.
/// `source` names that result, and the contract of `compile` says no more
/// of an implementation than that it returns it.
pub trait Compiler {
    /// What this generator answers for `info`.
    spec fn source(&self, info: &CompilationInfo<'_>) -> Generated;

    /// Lowers `info` to source text of the target.
    fn compile(&self, info: &CompilationInfo<'_>) -> (r: Generated)
        ensures
            r == self.source(info),
    ;
}

} // verus!
