//! The executable decoder: a position in a byte slice, and one method for
//! each thing the grammar describes.

use crate::decode::error::{DecodeError, DecodeErrorView};
use crate::decode::grammar::{
    function_types_from, group_weight, header_magic, import_entries_from,
    parse_function_type, parse_global_type, parse_header, parse_import_descriptor,
    parse_import_entry, parse_import_section, parse_limits, parse_memory_type, parse_name,
    parse_section, parse_section_header, parse_table_type, parse_type_section,
    parse_value_types, parse_varuint, parse_version, read_byte, read_span, skip_section,
    text_of, value_types_from, varuint_from,
};
use crate::decode::data_decoding::FromLe;
use crate::types::{
    function_type_views, import_entry_views, GlobalType, ImportSection,
    MemoryType, Mutability, SectionView, TableType, TypeSection, VarUInt, WasmElementType,
    WasmFunctionType, WasmImportDescriptor, WasmImportEntry, WasmLimits, WasmSection,
    WasmValueType,
};
use vstd::prelude::*;
use vstd::slice::{slice_subrange, slice_to_vec};
use vstd::utf8::{decode_utf8, valid_utf8};

verus! {

/// The outcome of a call in the terms of the grammar, for a result that is
/// its own mathematical value.
pub open spec fn plain<T>(r: Result<T, DecodeError>) -> Result<T, DecodeErrorView> {
    match r {
        Ok(x) => Ok(x),
        Err(e) => Err(e@),
    }
}

/// The outcome of a call in the terms of the grammar, for a result that has
/// a view.
pub open spec fn viewed<T: View>(r: Result<T, DecodeError>) -> Result<T::V, DecodeErrorView> {
    match r {
        Ok(x) => Ok(x@),
        Err(e) => Err(e@),
    }
}

/// The magic bytes at the start of a module.
pub const HEADER_MAGIC_BYTES: [u8; 4] = [0x00, 0x61, 0x73, 0x64];

/// The marker byte at the start of a function type.
pub const FUNCTION_MAGIC_BYTES: [u8; 1] = [0x60];

/// `String::from_utf8` of std: the string is returned exactly when the bytes
/// are valid UTF-8, and its characters are then the ones the bytes encode.
#[verifier::external_body]
fn string_from_utf8(bytes: Vec<u8>) -> (r: Option<String>)
    ensures
        r is Some <==> valid_utf8(bytes@),
        r matches Some(s) ==> s@ == decode_utf8(bytes@),
{
    match String::from_utf8(bytes) {
        Ok(s) => Some(s),
        Err(_) => None,
    }
}

/// The bytes as text for a diagnostic: empty where they are not UTF-8.
fn text_of_bytes(bytes: &[u8]) -> (r: String)
    ensures
        r@ == text_of(bytes@),
{
    match string_from_utf8(slice_to_vec(bytes)) {
        Some(s) => s,
        None => String::new(),
    }
}

/// A reader over a byte slice that remembers how far it has read.
pub struct Decoder<'a> {
    bytes: &'a [u8],
    pos: usize,
}

impl<'a> Decoder<'a> {
    /// The whole input, read and unread.
    pub closed spec fn input(&self) -> Seq<u8> {
        self.bytes@
    }

    /// How many bytes of the input have been consumed.
    pub closed spec fn offset(&self) -> int {
        self.pos as int
    }

    /// The position lies within the input.
    pub open spec fn wf(&self) -> bool {
        0 <= self.offset() <= self.input().len()
    }

    /// A decoder at the start of `bytes`.
    pub fn new(bytes: &'a [u8]) -> (r: Self)
        ensures
            r.wf(),
            r.input() == bytes@,
            r.offset() == 0,
    {
        Decoder { bytes, pos: 0 }
    }

    /// The whole input.
    pub fn get_ref(&self) -> (r: &'a [u8])
        ensures
            r@ == self.input(),
    {
        self.bytes
    }

    /// The number of bytes consumed so far.
    pub fn position(&self) -> (r: usize)
        ensures
            r == self.offset(),
    {
        self.pos
    }

    /// Whether every byte of the input has been consumed.
    pub fn is_end(&self) -> (r: bool)
        ensures
            r == (self.offset() >= self.input().len()),
    {
        self.pos >= self.bytes.len()
    }

    /// Reads one byte.
    pub fn read_byte(&mut self) -> (r: Result<u8, DecodeError>)
        requires
            old(self).wf(),
        ensures
            final(self).wf(),
            final(self).input() == old(self).input(),
            plain(r) == read_byte(old(self).input(), old(self).offset()).0,
            final(self).offset() == read_byte(old(self).input(), old(self).offset()).1,
    {
        if self.pos < self.bytes.len() {
            let byte: u8 = self.bytes[self.pos];
            self.pos = self.pos + 1;
            Ok(byte)
        } else {
            self.pos = self.bytes.len();
            Err(DecodeError::UnexpectedEof)
        }
    }

    /// Reads exactly `n` bytes, or fails and moves to the end of the input.
    pub fn read_bytes(&mut self, n: usize) -> (r: Result<&'a [u8], DecodeError>)
        requires
            old(self).wf(),
        ensures
            final(self).wf(),
            final(self).input() == old(self).input(),
            viewed(r) == read_span(old(self).input(), old(self).offset(), n as int).0,
            final(self).offset() == read_span(old(self).input(), old(self).offset(), n as int).1,
    {
        if n <= self.bytes.len() - self.pos {
            let span = slice_subrange(self.bytes, self.pos, self.pos + n);
            self.pos = self.pos + n;
            Ok(span)
        } else {
            self.pos = self.bytes.len();
            Err(DecodeError::UnexpectedEof)
        }
    }

    /// Decodes a variable-length unsigned integer. Each byte gives its low
    /// seven bits, the lowest group first; the first byte without its high
    /// bit ends the integer. A value that does not fit in 32 bits, and any
    /// sixth byte, fails with `Numeric`.
    pub fn decode_varuint(&mut self) -> (r: Result<VarUInt, DecodeError>)
        requires
            old(self).wf(),
        ensures
            final(self).wf(),
            final(self).input() == old(self).input(),
            plain(r) == parse_varuint(old(self).input(), old(self).offset()).0,
            final(self).offset() == parse_varuint(old(self).input(), old(self).offset()).1,
            r is Ok ==> final(self).offset() > old(self).offset(),
    {
        let mut value: u32 = 0;
        let mut index: u32 = 0;
        let ghost start = self.pos as int;
        loop
            invariant
                self.wf(),
                self.input() == old(self).input(),
                start == old(self).offset(),
                start <= self.pos,
                index <= 5,
                index > 0 ==> start < self.pos,
                index < 5 ==> value < group_weight(index as nat),
                varuint_from(self.bytes@, start, 0, 0) == varuint_from(
                    self.bytes@,
                    self.pos as int,
                    index as nat,
                    value as nat,
                ),
            decreases self.bytes@.len() - self.pos,
        {
            if self.pos >= self.bytes.len() {
                self.pos = self.bytes.len();
                return Err(DecodeError::UnexpectedEof);
            }
            let byte: u8 = self.bytes[self.pos];
            self.pos = self.pos + 1;
            let low: u32 = (byte & 0x7f) as u32;
            let ghost weight: nat = group_weight(index as nat);
            let ghost term: nat = (byte % 128) as nat * weight;
            proof {
                reveal_with_fuel(group_weight, 6);
                assert(byte & 0x7f == byte % 128) by (bit_vector);
                assert((byte & 0x80 == 0) == (byte < 128)) by (bit_vector);
                assert(index == 0 ==> weight == 1);
                assert(index == 1 ==> weight == 128);
                assert(index == 2 ==> weight == 16384);
                assert(index == 3 ==> weight == 2097152);
                assert(index == 4 ==> weight == 268435456);
                assert(term == low * weight);
                assert(index <= 4 ==> term + weight <= 128 * weight) by (nonlinear_arith)
                    requires
                        term == low * weight,
                        low <= 127,
                ;
                assert(index == 4 && low > 15 ==> term >= 16 * 268435456) by (nonlinear_arith)
                    requires
                        term == low * weight,
                        index == 4 ==> weight == 268435456,
                ;
                assert(index == 4 && low <= 15 ==> term <= 15 * 268435456) by (nonlinear_arith)
                    requires
                        term == low * weight,
                        index == 4 ==> weight == 268435456,
                ;
            }
            if index >= 5 || (index == 4 && low > 0x0f) {
                return Err(
                    DecodeError::Numeric { current_value: value, invalid_byte: byte as u32 },
                );
            }
            let shift: u32 = 7 * index;
            proof {
                let w: u32 = weight as u32;
                assert((low << shift) == low * w) by (bit_vector)
                    requires
                        low <= 127,
                        (shift == 0 && w == 1) || (shift == 7 && w == 128) || (shift == 14 && w
                            == 16384) || (shift == 21 && w == 2097152) || (shift == 28 && w
                            == 268435456 && low <= 15),
                ;
                assert(low * w == term);
            }
            value = value + (low << shift);
            if byte & 0x80 == 0 {
                return Ok(VarUInt(value));
            }
            index = index + 1;
        }
    }

    /// Checks the module magic. Input that does not start with it, however
    /// long, fails with `Binary`; the bytes looked at are consumed.
    pub fn read_validate(&mut self) -> (r: Result<(), DecodeError>)
        requires
            old(self).wf(),
        ensures
            final(self).wf(),
            final(self).input() == old(self).input(),
            plain(r) == parse_header(old(self).input(), old(self).offset()).0,
            final(self).offset() == parse_header(old(self).input(), old(self).offset()).1,
    {
        let left: usize = self.bytes.len() - self.pos;
        let n: usize = if left >= 4 {
            4
        } else {
            left
        };
        let found = slice_subrange(self.bytes, self.pos, self.pos + n);
        self.pos = self.pos + n;
        if n == 4 && found[0] == HEADER_MAGIC_BYTES[0] && found[1] == HEADER_MAGIC_BYTES[1]
            && found[2] == HEADER_MAGIC_BYTES[2] && found[3] == HEADER_MAGIC_BYTES[3] {
            assert(found@ =~= header_magic());
            Ok(())
        } else {
            assert(found@ != header_magic()) by {
                if found@ == header_magic() {
                    assert(found@.len() == 4);
                    assert(found@[0] == 0x00 && found@[1] == 0x61 && found@[2] == 0x73
                        && found@[3] == 0x64);
                }
            }
            let expected = text_of_bytes(HEADER_MAGIC_BYTES.as_slice());
            assert(HEADER_MAGIC_BYTES@ =~= header_magic());
            Err(DecodeError::Binary { expected, found: text_of_bytes(found) })
        }
    }

    /// Reads the version: four bytes, little-endian.
    pub fn read_version(&mut self) -> (r: Result<u32, DecodeError>)
        requires
            old(self).wf(),
        ensures
            final(self).wf(),
            final(self).input() == old(self).input(),
            plain(r) == parse_version(old(self).input(), old(self).offset()).0,
            final(self).offset() == parse_version(old(self).input(), old(self).offset()).1,
    {
        let version_bytes = self.read_bytes(4)?;
        Ok(<u32 as FromLe>::from_le_bytes(version_bytes))
    }

    /// Decodes limits: a flag byte, the minimum, and the maximum where the
    /// flag's lowest bit is set.
    pub fn decode_limits(&mut self) -> (r: Result<WasmLimits, DecodeError>)
        requires
            old(self).wf(),
        ensures
            final(self).wf(),
            final(self).input() == old(self).input(),
            plain(r) == parse_limits(old(self).input(), old(self).offset()).0,
            final(self).offset() == parse_limits(old(self).input(), old(self).offset()).1,
    {
        let flags: u8 = self.read_byte()?;
        assert((flags & 0x01 != 0) == (flags % 2 == 1)) by (bit_vector);
        let min: u32 = self.decode_varuint()?.0;
        let max: Option<u32> = if flags & 0x01 != 0 {
            Some(self.decode_varuint()?.0)
        } else {
            None
        };
        Ok(WasmLimits { min, max })
    }

    /// Decodes a table type: the element type byte, of which only `0x70`
    /// (funcref) is known, then limits.
    pub fn decode_table_type(&mut self) -> (r: Result<TableType, DecodeError>)
        requires
            old(self).wf(),
        ensures
            final(self).wf(),
            final(self).input() == old(self).input(),
            plain(r) == parse_table_type(old(self).input(), old(self).offset()).0,
            final(self).offset() == parse_table_type(old(self).input(), old(self).offset()).1,
    {
        let element_type_byte: u8 = self.read_byte()?;
        let element_type = match element_type_byte {
            0x70 => WasmElementType::Funcref,
            _ => {
                return Err(DecodeError::ElementType { invalid_byte: element_type_byte });
            },
        };
        let limits = self.decode_limits()?;
        Ok(TableType { element_type, limits })
    }

    /// Decodes a memory type: limits.
    pub fn decode_memory_type(&mut self) -> (r: Result<MemoryType, DecodeError>)
        requires
            old(self).wf(),
        ensures
            final(self).wf(),
            final(self).input() == old(self).input(),
            plain(r) == parse_memory_type(old(self).input(), old(self).offset()).0,
            final(self).offset() == parse_memory_type(old(self).input(), old(self).offset()).1,
    {
        let limits = self.decode_limits()?;
        Ok(MemoryType { limits })
    }

    /// Decodes a global type: the value type byte, then the mutability byte,
    /// which must be 0 or 1.
    pub fn decode_global_type(&mut self) -> (r: Result<GlobalType, DecodeError>)
        requires
            old(self).wf(),
        ensures
            final(self).wf(),
            final(self).input() == old(self).input(),
            plain(r) == parse_global_type(old(self).input(), old(self).offset()).0,
            final(self).offset() == parse_global_type(old(self).input(), old(self).offset()).1,
    {
        let value_type_byte: u8 = self.read_byte()?;
        let value_type = WasmValueType::from(value_type_byte);
        let mutability_byte: u8 = self.read_byte()?;
        let mutability = match mutability_byte {
            0x00 => Mutability::Immutable,
            0x01 => Mutability::Mutable,
            _ => {
                return Err(DecodeError::MutabilityByte { invalid_byte: mutability_byte });
            },
        };
        Ok(GlobalType { value_type, mutability })
    }

    /// Decodes a vector of value types: a count, then one byte for each.
    pub fn decode_value_types(&mut self) -> (r: Result<Vec<WasmValueType>, DecodeError>)
        requires
            old(self).wf(),
        ensures
            final(self).wf(),
            final(self).input() == old(self).input(),
            viewed(r) == parse_value_types(old(self).input(), old(self).offset()).0,
            final(self).offset() == parse_value_types(old(self).input(), old(self).offset()).1,
    {
        let count: u32 = self.decode_varuint()?.0;
        let mut items: Vec<WasmValueType> = Vec::new();
        let mut i: u32 = 0;
        while i < count
            invariant
                self.wf(),
                self.input() == old(self).input(),
                i <= count,
                parse_value_types(old(self).input(), old(self).offset()) == value_types_from(
                    self.input(),
                    self.offset(),
                    (count - i) as nat,
                    items@,
                ),
            decreases count - i,
        {
            let byte: u8 = self.read_byte()?;
            items.push(WasmValueType::from(byte));
            i = i + 1;
        }
        Ok(items)
    }

    /// Decodes a function type: the marker byte `0x60`, the parameter types,
    /// the return types.
    pub fn decode_function_type(&mut self) -> (r: Result<WasmFunctionType, DecodeError>)
        requires
            old(self).wf(),
        ensures
            final(self).wf(),
            final(self).input() == old(self).input(),
            viewed(r) == parse_function_type(old(self).input(), old(self).offset()).0,
            final(self).offset() == parse_function_type(old(self).input(), old(self).offset()).1,
    {
        let marker: u8 = self.read_byte()?;
        if marker != FUNCTION_MAGIC_BYTES[0] {
            return Err(DecodeError::TypeSectionBytes);
        }
        let params = self.decode_value_types()?;
        let results = self.decode_value_types()?;
        Ok(WasmFunctionType { params, returns: results })
    }

    /// Decodes a type section of `size` bytes. The bytes are cut out of
    /// the input first, so the decoder ends behind them whatever they hold;
    /// they hold a count and that many function types.
    #[verifier::loop_isolation(false)]
    pub fn decode_type_section(&mut self, size: u32) -> (r: Result<WasmSection, DecodeError>)
        requires
            old(self).wf(),
        ensures
            final(self).wf(),
            final(self).input() == old(self).input(),
            viewed(r) == parse_type_section(old(self).input(), old(self).offset(), size).0,
            final(self).offset() == parse_type_section(
                old(self).input(),
                old(self).offset(),
                size,
            ).1,
    {
        let section_bytes = self.read_bytes(size as usize)?;
        let mut section_decoder = Decoder::new(section_bytes);
        let count: u32 = section_decoder.decode_varuint()?.0;
        let ghost first = section_decoder.offset();
        let mut items: Vec<WasmFunctionType> = Vec::new();
        let mut i: u32 = 0;
        assert(function_type_views(items@) =~= Seq::empty());
        while i < count
            invariant
                section_decoder.wf(),
                section_decoder.input() == section_bytes@,
                i <= count,
                function_types_from(section_bytes@, first, count as nat, Seq::empty())
                    == function_types_from(
                    section_bytes@,
                    section_decoder.offset(),
                    (count - i) as nat,
                    function_type_views(items@),
                ),
            decreases count - i,
        {
            let item = section_decoder.decode_function_type()?;
            assert(function_type_views(items@.push(item)) =~= function_type_views(items@).push(
                item@,
            ));
            items.push(item);
            i = i + 1;
        }
        Ok(WasmSection::Type(TypeSection { items }))
    }

    /// Decodes a name: a byte count, then that many bytes of UTF-8.
    pub fn decode_name(&mut self) -> (r: Result<String, DecodeError>)
        requires
            old(self).wf(),
        ensures
            final(self).wf(),
            final(self).input() == old(self).input(),
            viewed(r) == parse_name(old(self).input(), old(self).offset()).0,
            final(self).offset() == parse_name(old(self).input(), old(self).offset()).1,
    {
        let length: u32 = self.decode_varuint()?.0;
        let bytes = self.read_bytes(length as usize)?;
        match string_from_utf8(slice_to_vec(bytes)) {
            Some(name) => Ok(name),
            None => Err(DecodeError::Utf8),
        }
    }

    /// Decodes an import descriptor: the kind byte, then a type index (0), a
    /// table type (1), a memory type (2) or a global type (3).
    pub fn decode_import_descriptor(&mut self) -> (r: Result<WasmImportDescriptor, DecodeError>)
        requires
            old(self).wf(),
        ensures
            final(self).wf(),
            final(self).input() == old(self).input(),
            plain(r) == parse_import_descriptor(old(self).input(), old(self).offset()).0,
            final(self).offset() == parse_import_descriptor(
                old(self).input(),
                old(self).offset(),
            ).1,
    {
        let import_kind: u8 = self.read_byte()?;
        match import_kind {
            0x00 => Ok(WasmImportDescriptor::Function(self.decode_varuint()?)),
            0x01 => Ok(WasmImportDescriptor::Table(self.decode_table_type()?)),
            0x02 => Ok(WasmImportDescriptor::Memory(self.decode_memory_type()?)),
            0x03 => Ok(WasmImportDescriptor::Global(self.decode_global_type()?)),
            _ => Err(DecodeError::ImportKind { invalid_byte: import_kind }),
        }
    }

    /// Decodes an import entry: module name, field name, descriptor.
    pub fn decode_import_entry(&mut self) -> (r: Result<WasmImportEntry, DecodeError>)
        requires
            old(self).wf(),
        ensures
            final(self).wf(),
            final(self).input() == old(self).input(),
            viewed(r) == parse_import_entry(old(self).input(), old(self).offset()).0,
            final(self).offset() == parse_import_entry(old(self).input(), old(self).offset()).1,
    {
        let module_name = self.decode_name()?;
        let field_name = self.decode_name()?;
        let descriptor = self.decode_import_descriptor()?;
        Ok(WasmImportEntry { module_name, field_name, descriptor })
    }

    /// Decodes an import section of `size` bytes. The bytes are cut out of
    /// the input first, so the decoder ends behind them whatever they hold;
    /// they hold a count and that many import entries.
    #[verifier::loop_isolation(false)]
    pub fn decode_import_section(&mut self, size: u32) -> (r: Result<WasmSection, DecodeError>)
        requires
            old(self).wf(),
        ensures
            final(self).wf(),
            final(self).input() == old(self).input(),
            viewed(r) == parse_import_section(old(self).input(), old(self).offset(), size).0,
            final(self).offset() == parse_import_section(
                old(self).input(),
                old(self).offset(),
                size,
            ).1,
    {
        let section_bytes = self.read_bytes(size as usize)?;
        let mut section_decoder = Decoder::new(section_bytes);
        let count: u32 = section_decoder.decode_varuint()?.0;
        let ghost first = section_decoder.offset();
        let mut items: Vec<WasmImportEntry> = Vec::new();
        let mut i: u32 = 0;
        assert(import_entry_views(items@) =~= Seq::empty());
        while i < count
            invariant
                section_decoder.wf(),
                section_decoder.input() == section_bytes@,
                i <= count,
                import_entries_from(section_bytes@, first, count as nat, Seq::empty())
                    == import_entries_from(
                    section_bytes@,
                    section_decoder.offset(),
                    (count - i) as nat,
                    import_entry_views(items@),
                ),
            decreases count - i,
        {
            let item = section_decoder.decode_import_entry()?;
            assert(import_entry_views(items@.push(item)) =~= import_entry_views(items@).push(
                item@,
            ));
            items.push(item);
            i = i + 1;
        }
        Ok(WasmSection::Import(ImportSection { items }))
    }

    /// Consumes the `size` bytes of a section whose content is passed over.
    fn skip_payload(&mut self, size: u32) -> (r: Result<(), DecodeError>)
        requires
            old(self).wf(),
        ensures
            final(self).wf(),
            final(self).input() == old(self).input(),
            r is Ok <==> old(self).offset() + size <= old(self).input().len(),
            r is Ok ==> final(self).offset() == old(self).offset() + size,
            r matches Err(e) ==> e@ == DecodeErrorView::UnexpectedEof && final(self).offset()
                == old(self).input().len(),
    {
        let _ = self.read_bytes(size as usize)?;
        Ok(())
    }

    /// Decodes a custom section: consumes exactly its `size` bytes, whatever
    /// they are, and gives the marker without content.
    pub fn decode_custom_section(&mut self, size: u32) -> (r: Result<WasmSection, DecodeError>)
        requires
            old(self).wf(),
        ensures
            final(self).wf(),
            final(self).input() == old(self).input(),
            viewed(r) == skip_section(
                old(self).input(),
                old(self).offset(),
                size,
                SectionView::Custom,
            ).0,
            final(self).offset() == skip_section(
                old(self).input(),
                old(self).offset(),
                size,
                SectionView::Custom,
            ).1,
    {
        self.skip_payload(size)?;
        Ok(WasmSection::Custom(()))
    }

    /// Decodes a table section: consumes exactly its `size` bytes, whatever
    /// they are, and gives the marker without content.
    pub fn decode_table_section(&mut self, size: u32) -> (r: Result<WasmSection, DecodeError>)
        requires
            old(self).wf(),
        ensures
            final(self).wf(),
            final(self).input() == old(self).input(),
            viewed(r) == skip_section(
                old(self).input(),
                old(self).offset(),
                size,
                SectionView::Table,
            ).0,
            final(self).offset() == skip_section(
                old(self).input(),
                old(self).offset(),
                size,
                SectionView::Table,
            ).1,
    {
        self.skip_payload(size)?;
        Ok(WasmSection::Table(()))
    }

    /// Decodes a memory section: consumes exactly its `size` bytes, whatever
    /// they are, and gives the marker without content.
    pub fn decode_memory_section(&mut self, size: u32) -> (r: Result<WasmSection, DecodeError>)
        requires
            old(self).wf(),
        ensures
            final(self).wf(),
            final(self).input() == old(self).input(),
            viewed(r) == skip_section(
                old(self).input(),
                old(self).offset(),
                size,
                SectionView::Memory,
            ).0,
            final(self).offset() == skip_section(
                old(self).input(),
                old(self).offset(),
                size,
                SectionView::Memory,
            ).1,
    {
        self.skip_payload(size)?;
        Ok(WasmSection::Memory(()))
    }

    /// Decodes a global section: consumes exactly its `size` bytes, whatever
    /// they are, and gives the marker without content.
    pub fn decode_global_section(&mut self, size: u32) -> (r: Result<WasmSection, DecodeError>)
        requires
            old(self).wf(),
        ensures
            final(self).wf(),
            final(self).input() == old(self).input(),
            viewed(r) == skip_section(
                old(self).input(),
                old(self).offset(),
                size,
                SectionView::Global,
            ).0,
            final(self).offset() == skip_section(
                old(self).input(),
                old(self).offset(),
                size,
                SectionView::Global,
            ).1,
    {
        self.skip_payload(size)?;
        Ok(WasmSection::Global(()))
    }

    /// Decodes a start section: consumes exactly its `size` bytes, whatever
    /// they are, and gives the marker without content.
    pub fn decode_start_section(&mut self, size: u32) -> (r: Result<WasmSection, DecodeError>)
        requires
            old(self).wf(),
        ensures
            final(self).wf(),
            final(self).input() == old(self).input(),
            viewed(r) == skip_section(
                old(self).input(),
                old(self).offset(),
                size,
                SectionView::Start,
            ).0,
            final(self).offset() == skip_section(
                old(self).input(),
                old(self).offset(),
                size,
                SectionView::Start,
            ).1,
    {
        self.skip_payload(size)?;
        Ok(WasmSection::Start(()))
    }

    /// Decodes an element section: consumes exactly its `size` bytes,
    /// whatever they are, and gives the marker without content.
    pub fn decode_element_section(&mut self, size: u32) -> (r: Result<WasmSection, DecodeError>)
        requires
            old(self).wf(),
        ensures
            final(self).wf(),
            final(self).input() == old(self).input(),
            viewed(r) == skip_section(
                old(self).input(),
                old(self).offset(),
                size,
                SectionView::Element,
            ).0,
            final(self).offset() == skip_section(
                old(self).input(),
                old(self).offset(),
                size,
                SectionView::Element,
            ).1,
    {
        self.skip_payload(size)?;
        Ok(WasmSection::Element(()))
    }

    /// Reads the head of a section: its kind byte and its size.
    pub fn decode_section_type(&mut self) -> (r: Result<(u8, u32), DecodeError>)
        requires
            old(self).wf(),
        ensures
            final(self).wf(),
            final(self).input() == old(self).input(),
            plain(r) == parse_section_header(old(self).input(), old(self).offset()).0,
            final(self).offset() == parse_section_header(old(self).input(), old(self).offset()).1,
            r is Ok ==> final(self).offset() >= old(self).offset() + 2,
    {
        let kind: u8 = self.read_byte()?;
        let size: u32 = self.decode_varuint()?.0;
        Ok((kind, size))
    }

    /// Decodes the body of a section of the given kind and size. A kind
    /// that is not known fails with `SectionKind` and consumes nothing.
    pub fn decode_section(&mut self, kind: u8, size: u32) -> (r: Result<WasmSection, DecodeError>)
        requires
            old(self).wf(),
        ensures
            final(self).wf(),
            final(self).input() == old(self).input(),
            viewed(r) == parse_section(old(self).input(), old(self).offset(), kind, size).0,
            final(self).offset() == parse_section(
                old(self).input(),
                old(self).offset(),
                kind,
                size,
            ).1,
            final(self).offset() >= old(self).offset(),
    {
        match kind {
            0 => self.decode_custom_section(size),
            1 => self.decode_type_section(size),
            2 => self.decode_import_section(size),
            4 => self.decode_table_section(size),
            5 => self.decode_memory_section(size),
            6 => self.decode_global_section(size),
            8 => self.decode_start_section(size),
            9 => self.decode_element_section(size),
            _ => Err(DecodeError::SectionKind { invalid_byte: kind }),
        }
    }
}

} // verus!
