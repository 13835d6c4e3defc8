//! Just-in-time generation and dispatch of elementwise kernels.
//!
//! An operation is described once as a graph of per-element instructions.
//! From it the crate derives the two compilation descriptors of a unary
//! kernel, keeps the generated source of each in a cache, and dispatches
//! the kernel on a tensor either in place or into a fresh buffer.
pub mod elem;
pub mod graph;
pub mod kernel;
pub mod compiler;
pub mod cache;
pub mod client;
pub mod tensor;
pub mod unary;
