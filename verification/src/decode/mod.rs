//! Decoding of the binary module format.

pub mod data_decoding;
pub mod decoder;
pub mod error;
pub mod grammar;
pub mod theorems;

pub use data_decoding::FromLe;
pub use decoder::{Decoder, FUNCTION_MAGIC_BYTES, HEADER_MAGIC_BYTES};
pub use error::DecodeError;

use crate::decode::decoder::viewed;
use crate::decode::grammar::{parse_module, sections_from};
use crate::module::WasmModule;
use crate::types::SectionView;
use vstd::prelude::*;

verus! {

/// Decodes a whole module: the header, the version, and one section after
/// another until the input is used up. The first failure ends the decode.
#[verifier::loop_isolation(false)]
pub fn decode_bytes(bytes: &[u8]) -> (r: Result<WasmModule, DecodeError>)
    ensures
        viewed(r) == parse_module(bytes@),
{
    let mut decoder = Decoder::new(bytes);
    let mut module = WasmModule::default();
    decoder.read_validate()?;
    let version: u32 = decoder.read_version()?;
    module.version = version;
    let ghost first = decoder.offset();
    while !decoder.is_end()
        invariant
            decoder.wf(),
            decoder.input() == bytes@,
            module@.version == version,
            sections_from(bytes@, first, Seq::empty()) == sections_from(
                bytes@,
                decoder.offset(),
                module@.sections,
            ),
        decreases bytes@.len() - decoder.offset(),
    {
        let (section_type, section_size) = decoder.decode_section_type()?;
        let section = decoder.decode_section(section_type, section_size)?;
        module.consume(section);
    }
    Ok(module)
}

} // verus!
