//! Mirrors shader structure declarations as host-side field lists.
//!
//! A declaration is looked up by name among the structures of a shader
//! source, every field's shader type is mapped to a host numeric, vector or
//! matrix type, array specifiers are resolved into nested fixed-size arrays,
//! and the fields come out in declaration order together with their byte
//! footprints.

pub mod convert;
pub mod dims;
pub mod error;
pub mod host;
pub mod laws;
pub mod locate;
pub mod syntax;
