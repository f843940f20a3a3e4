//! A gradient-boosted-tree inference engine: it loads a serialized tree
//! ensemble into an immutable flat-array representation and evaluates it over
//! columnar batches of feature data.
//!
//! IEEE-754 double-precision values travel through the library as raw `u64`
//! bit patterns; the `fp` module gives them their ordering and finiteness
//! semantics.

pub mod decode;
pub mod errors;
pub mod fp;
pub mod json;
pub mod loader;
pub mod objective;
pub mod predict;
pub mod tree;
