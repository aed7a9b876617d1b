//! Safe binding glue and build-time code generation for a native SQL parser.
//!
//! The library holds what the binding decides on its own: the mapping from the
//! native library's C types to Rust types, the decoding of the native library's
//! JSON layout descriptions, the generation of the node enum from them, the
//! validation of queries before they cross the native boundary, and the
//! translation of native errors.

pub mod text;
pub mod typemap;
pub mod defs;
pub mod codegen;
pub mod binding;
