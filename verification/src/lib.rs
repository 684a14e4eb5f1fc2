//! Decoder for the WebAssembly binary module format.
//!
//! The decoder validates the module header, walks the length-prefixed
//! sections and builds typed values for the type and import sections. Every
//! executable function is specified against the byte grammar in
//! [`decode::grammar`], a set of pure functions over `Seq<u8>`.

pub mod decode;
pub mod module;
pub mod types;
