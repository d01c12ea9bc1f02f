//! What is read from an archive besides its classes.

pub mod jar;
pub mod manifest;
