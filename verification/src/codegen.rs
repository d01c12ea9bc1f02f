//! Helpers of the source-text backend: indentation, modifier lists and the
//! names of types.


pub mod backend;
pub mod indent;
pub mod java;
pub mod render;
pub mod writer;
