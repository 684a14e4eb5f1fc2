//! The byte grammar of a module, as pure functions over `Seq<u8>`.
//!
//! A parser here takes the whole input and a position in it, and gives back
//! what stands at that position, or the failure, together with the position
//! at which the read stopped. The executable decoder is specified against
//! these functions.

use crate::decode::data_decoding::le_value;
use crate::decode::error::DecodeErrorView;
use crate::module::ModuleView;
use crate::types::{
    value_type_of, FunctionTypeView, GlobalType, ImportEntryView, MemoryType, Mutability,
    SectionView, TableType, VarUInt, WasmElementType, WasmImportDescriptor, WasmLimits,
    WasmValueType,
};
use vstd::prelude::*;
use vstd::utf8::{decode_utf8, valid_utf8};

verus! {

/// The four bytes every module starts with.
pub open spec fn header_magic() -> Seq<u8> {
    seq![0x00u8, 0x61u8, 0x73u8, 0x64u8]
}

/// The bytes as text: their characters where they are UTF-8, else nothing.
pub open spec fn text_of(bytes: Seq<u8>) -> Seq<char> {
    if valid_utf8(bytes) {
        decode_utf8(bytes)
    } else {
        Seq::empty()
    }
}

/// One byte at `pos`. A read past the end fails and leaves the position at
/// the end of the input.
pub open spec fn read_byte(s: Seq<u8>, pos: int) -> (Result<u8, DecodeErrorView>, int) {
    if 0 <= pos < s.len() {
        (Ok(s[pos]), pos + 1)
    } else {
        (Err(DecodeErrorView::UnexpectedEof), s.len() as int)
    }
}

/// Exactly `n` bytes at `pos`, or a failure that leaves the position at the
/// end of the input.
pub open spec fn read_span(s: Seq<u8>, pos: int, n: int) -> (
    Result<Seq<u8>, DecodeErrorView>,
    int,
) {
    if 0 <= pos && 0 <= n && pos + n <= s.len() {
        (Ok(s.subrange(pos, pos + n)), pos + n)
    } else {
        (Err(DecodeErrorView::UnexpectedEof), s.len() as int)
    }
}

/// The weight of the seven-bit group with the given index: 128 to its power.
pub open spec fn group_weight(index: nat) -> nat
    decreases index,
{
    if index == 0 {
        1
    } else {
        128 * group_weight((index - 1) as nat)
    }
}

/// A variable-length integer of which `index` groups, worth `value`, have
/// been read. Each byte adds its low seven bits times the group's weight; a
/// byte under 128 is the last. A sixth byte, or a group that takes the value
/// over 32 bits, fails with the value so far and the byte.
pub open spec fn varuint_from(s: Seq<u8>, pos: int, index: nat, value: nat) -> (
    Result<VarUInt, DecodeErrorView>,
    int,
)
    decreases s.len() - pos,
{
    if !(0 <= pos < s.len()) {
        (Err(DecodeErrorView::UnexpectedEof), s.len() as int)
    } else {
        let byte = s[pos];
        let sum = value + (byte % 128) as nat * group_weight(index);
        if index >= 5 || sum > u32::MAX {
            (
                Err(
                    DecodeErrorView::Numeric {
                        current_value: value as u32,
                        invalid_byte: byte as u32,
                    },
                ),
                pos + 1,
            )
        } else if byte < 128 {
            (Ok(VarUInt(sum as u32)), pos + 1)
        } else {
            varuint_from(s, pos + 1, index + 1, sum)
        }
    }
}

/// The variable-length integer at `pos`.
pub open spec fn parse_varuint(s: Seq<u8>, pos: int) -> (Result<VarUInt, DecodeErrorView>, int) {
    varuint_from(s, pos, 0, 0)
}

/// The LEB128 encoding of `v`: seven bits to a byte, low group first, the
/// high bit set on every byte but the last.
pub open spec fn leb128(v: nat) -> Seq<u8>
    decreases v,
{
    if v < 128 {
        seq![v as u8]
    } else {
        seq![(v % 128 + 128) as u8] + leb128(v / 128)
    }
}

/// The element type a byte stands for; only `0x70` is known.
pub open spec fn element_type_of(byte: u8) -> Result<WasmElementType, DecodeErrorView> {
    if byte == 0x70 {
        Ok(WasmElementType::Funcref)
    } else {
        Err(DecodeErrorView::ElementType { invalid_byte: byte })
    }
}

/// The mutability a byte stands for; only 0 and 1 are known.
pub open spec fn mutability_of(byte: u8) -> Result<Mutability, DecodeErrorView> {
    if byte == 0 {
        Ok(Mutability::Immutable)
    } else if byte == 1 {
        Ok(Mutability::Mutable)
    } else {
        Err(DecodeErrorView::MutabilityByte { invalid_byte: byte })
    }
}

/// Limits: a flag byte, the minimum, and the maximum where the flag's lowest
/// bit is set.
pub open spec fn parse_limits(s: Seq<u8>, pos: int) -> (Result<WasmLimits, DecodeErrorView>, int) {
    let (flags, p1) = read_byte(s, pos);
    match flags {
        Err(e) => (Err(e), p1),
        Ok(flags) => {
            let (min, p2) = parse_varuint(s, p1);
            match min {
                Err(e) => (Err(e), p2),
                Ok(min) => if flags % 2 == 1 {
                    let (max, p3) = parse_varuint(s, p2);
                    match max {
                        Err(e) => (Err(e), p3),
                        Ok(max) => (Ok(WasmLimits { min: min.0, max: Some(max.0) }), p3),
                    }
                } else {
                    (Ok(WasmLimits { min: min.0, max: None }), p2)
                },
            }
        },
    }
}

/// A table type: the element type byte, then limits.
pub open spec fn parse_table_type(s: Seq<u8>, pos: int) -> (
    Result<TableType, DecodeErrorView>,
    int,
) {
    let (byte, p1) = read_byte(s, pos);
    match byte {
        Err(e) => (Err(e), p1),
        Ok(byte) => match element_type_of(byte) {
            Err(e) => (Err(e), p1),
            Ok(element_type) => {
                let (limits, p2) = parse_limits(s, p1);
                match limits {
                    Err(e) => (Err(e), p2),
                    Ok(limits) => (Ok(TableType { element_type, limits }), p2),
                }
            },
        },
    }
}

/// A memory type: limits.
pub open spec fn parse_memory_type(s: Seq<u8>, pos: int) -> (
    Result<MemoryType, DecodeErrorView>,
    int,
) {
    let (limits, p1) = parse_limits(s, pos);
    match limits {
        Err(e) => (Err(e), p1),
        Ok(limits) => (Ok(MemoryType { limits }), p1),
    }
}

/// A global type: the value type byte, then the mutability byte.
pub open spec fn parse_global_type(s: Seq<u8>, pos: int) -> (
    Result<GlobalType, DecodeErrorView>,
    int,
) {
    let (value_byte, p1) = read_byte(s, pos);
    match value_byte {
        Err(e) => (Err(e), p1),
        Ok(value_byte) => {
            let (flag, p2) = read_byte(s, p1);
            match flag {
                Err(e) => (Err(e), p2),
                Ok(flag) => match mutability_of(flag) {
                    Err(e) => (Err(e), p2),
                    Ok(mutability) => (
                        Ok(GlobalType { value_type: value_type_of(value_byte), mutability }),
                        p2,
                    ),
                },
            }
        },
    }
}

/// `remaining` more value type bytes behind those that gave `acc`.
pub open spec fn value_types_from(
    s: Seq<u8>,
    pos: int,
    remaining: nat,
    acc: Seq<WasmValueType>,
) -> (Result<Seq<WasmValueType>, DecodeErrorView>, int)
    decreases remaining,
{
    if remaining == 0 {
        (Ok(acc), pos)
    } else {
        let (byte, p1) = read_byte(s, pos);
        match byte {
            Err(e) => (Err(e), p1),
            Ok(byte) => value_types_from(
                s,
                p1,
                (remaining - 1) as nat,
                acc.push(value_type_of(byte)),
            ),
        }
    }
}

/// A vector of value types: a count, then one byte for each.
pub open spec fn parse_value_types(s: Seq<u8>, pos: int) -> (
    Result<Seq<WasmValueType>, DecodeErrorView>,
    int,
) {
    let (count, p1) = parse_varuint(s, pos);
    match count {
        Err(e) => (Err(e), p1),
        Ok(count) => value_types_from(s, p1, count.0 as nat, Seq::empty()),
    }
}

/// A function type: the marker byte `0x60`, the parameters, the returns.
pub open spec fn parse_function_type(s: Seq<u8>, pos: int) -> (
    Result<FunctionTypeView, DecodeErrorView>,
    int,
) {
    let (marker, p1) = read_byte(s, pos);
    match marker {
        Err(e) => (Err(e), p1),
        Ok(marker) => if marker != 0x60 {
            (Err(DecodeErrorView::TypeSectionBytes), p1)
        } else {
            let (params, p2) = parse_value_types(s, p1);
            match params {
                Err(e) => (Err(e), p2),
                Ok(params) => {
                    let (results, p3) = parse_value_types(s, p2);
                    match results {
                        Err(e) => (Err(e), p3),
                        Ok(results) => (Ok(FunctionTypeView { params, returns: results }), p3),
                    }
                },
            }
        },
    }
}

/// `remaining` more function types behind those that gave `acc`.
pub open spec fn function_types_from(
    s: Seq<u8>,
    pos: int,
    remaining: nat,
    acc: Seq<FunctionTypeView>,
) -> (Result<Seq<FunctionTypeView>, DecodeErrorView>, int)
    decreases remaining,
{
    if remaining == 0 {
        (Ok(acc), pos)
    } else {
        let (item, p1) = parse_function_type(s, pos);
        match item {
            Err(e) => (Err(e), p1),
            Ok(item) => function_types_from(s, p1, (remaining - 1) as nat, acc.push(item)),
        }
    }
}

/// The payload of a type section: a count, then that many function types.
/// Bytes of the payload behind the last of them are not looked at.
pub open spec fn parse_type_payload(payload: Seq<u8>) -> Result<
    Seq<FunctionTypeView>,
    DecodeErrorView,
> {
    let (count, p1) = parse_varuint(payload, 0);
    match count {
        Err(e) => Err(e),
        Ok(count) => function_types_from(payload, p1, count.0 as nat, Seq::empty()).0,
    }
}

/// A name: a byte count, then that many bytes, which must be UTF-8.
pub open spec fn parse_name(s: Seq<u8>, pos: int) -> (Result<Seq<char>, DecodeErrorView>, int) {
    let (length, p1) = parse_varuint(s, pos);
    match length {
        Err(e) => (Err(e), p1),
        Ok(length) => {
            let (bytes, p2) = read_span(s, p1, length.0 as int);
            match bytes {
                Err(e) => (Err(e), p2),
                Ok(bytes) => if valid_utf8(bytes) {
                    (Ok(decode_utf8(bytes)), p2)
                } else {
                    (Err(DecodeErrorView::Utf8), p2)
                },
            }
        },
    }
}

/// An import descriptor: the kind byte, then what the kind asks for.
pub open spec fn parse_import_descriptor(s: Seq<u8>, pos: int) -> (
    Result<WasmImportDescriptor, DecodeErrorView>,
    int,
) {
    let (kind, p1) = read_byte(s, pos);
    match kind {
        Err(e) => (Err(e), p1),
        Ok(kind) => if kind == 0 {
            let (index, p2) = parse_varuint(s, p1);
            match index {
                Err(e) => (Err(e), p2),
                Ok(index) => (Ok(WasmImportDescriptor::Function(index)), p2),
            }
        } else if kind == 1 {
            let (table, p2) = parse_table_type(s, p1);
            match table {
                Err(e) => (Err(e), p2),
                Ok(table) => (Ok(WasmImportDescriptor::Table(table)), p2),
            }
        } else if kind == 2 {
            let (memory, p2) = parse_memory_type(s, p1);
            match memory {
                Err(e) => (Err(e), p2),
                Ok(memory) => (Ok(WasmImportDescriptor::Memory(memory)), p2),
            }
        } else if kind == 3 {
            let (global, p2) = parse_global_type(s, p1);
            match global {
                Err(e) => (Err(e), p2),
                Ok(global) => (Ok(WasmImportDescriptor::Global(global)), p2),
            }
        } else {
            (Err(DecodeErrorView::ImportKind { invalid_byte: kind }), p1)
        },
    }
}

/// An import entry: the module name, the field name, the descriptor.
pub open spec fn parse_import_entry(s: Seq<u8>, pos: int) -> (
    Result<ImportEntryView, DecodeErrorView>,
    int,
) {
    let (module_name, p1) = parse_name(s, pos);
    match module_name {
        Err(e) => (Err(e), p1),
        Ok(module_name) => {
            let (field_name, p2) = parse_name(s, p1);
            match field_name {
                Err(e) => (Err(e), p2),
                Ok(field_name) => {
                    let (descriptor, p3) = parse_import_descriptor(s, p2);
                    match descriptor {
                        Err(e) => (Err(e), p3),
                        Ok(descriptor) => (
                            Ok(ImportEntryView { module_name, field_name, descriptor }),
                            p3,
                        ),
                    }
                },
            }
        },
    }
}

/// `remaining` more import entries behind those that gave `acc`.
pub open spec fn import_entries_from(
    s: Seq<u8>,
    pos: int,
    remaining: nat,
    acc: Seq<ImportEntryView>,
) -> (Result<Seq<ImportEntryView>, DecodeErrorView>, int)
    decreases remaining,
{
    if remaining == 0 {
        (Ok(acc), pos)
    } else {
        let (item, p1) = parse_import_entry(s, pos);
        match item {
            Err(e) => (Err(e), p1),
            Ok(item) => import_entries_from(s, p1, (remaining - 1) as nat, acc.push(item)),
        }
    }
}

/// The payload of an import section: a count, then that many entries. Bytes
/// of the payload behind the last of them are not looked at.
pub open spec fn parse_import_payload(payload: Seq<u8>) -> Result<
    Seq<ImportEntryView>,
    DecodeErrorView,
> {
    let (count, p1) = parse_varuint(payload, 0);
    match count {
        Err(e) => Err(e),
        Ok(count) => import_entries_from(payload, p1, count.0 as nat, Seq::empty()).0,
    }
}

/// A type section of `size` bytes at `pos`: the bytes are cut out first and
/// decoded on their own, so the position ends behind them whatever they hold.
pub open spec fn parse_type_section(s: Seq<u8>, pos: int, size: u32) -> (
    Result<SectionView, DecodeErrorView>,
    int,
) {
    let (payload, p1) = read_span(s, pos, size as int);
    match payload {
        Err(e) => (Err(e), p1),
        Ok(payload) => match parse_type_payload(payload) {
            Err(e) => (Err(e), p1),
            Ok(items) => (Ok(SectionView::Type(items)), p1),
        },
    }
}

/// An import section of `size` bytes at `pos`, cut out and decoded likewise.
pub open spec fn parse_import_section(s: Seq<u8>, pos: int, size: u32) -> (
    Result<SectionView, DecodeErrorView>,
    int,
) {
    let (payload, p1) = read_span(s, pos, size as int);
    match payload {
        Err(e) => (Err(e), p1),
        Ok(payload) => match parse_import_payload(payload) {
            Err(e) => (Err(e), p1),
            Ok(items) => (Ok(SectionView::Import(items)), p1),
        },
    }
}

/// A section of `size` bytes whose content is passed over: the marker when
/// the bytes are there, each of them consumed and none read.
pub open spec fn skip_section(s: Seq<u8>, pos: int, size: u32, marker: SectionView) -> (
    Result<SectionView, DecodeErrorView>,
    int,
) {
    let (payload, p1) = read_span(s, pos, size as int);
    match payload {
        Err(e) => (Err(e), p1),
        Ok(_) => (Ok(marker), p1),
    }
}

/// The head of a section: its kind byte and its size.
pub open spec fn parse_section_header(s: Seq<u8>, pos: int) -> (
    Result<(u8, u32), DecodeErrorView>,
    int,
) {
    let (kind, p1) = read_byte(s, pos);
    match kind {
        Err(e) => (Err(e), p1),
        Ok(kind) => {
            let (size, p2) = parse_varuint(s, p1);
            match size {
                Err(e) => (Err(e), p2),
                Ok(size) => (Ok((kind, size.0)), p2),
            }
        },
    }
}

/// The body of a section of the given kind and size. A kind that is not one
/// of the eight known fails, and nothing is consumed for it.
pub open spec fn parse_section(s: Seq<u8>, pos: int, kind: u8, size: u32) -> (
    Result<SectionView, DecodeErrorView>,
    int,
) {
    if kind == 0 {
        skip_section(s, pos, size, SectionView::Custom)
    } else if kind == 1 {
        parse_type_section(s, pos, size)
    } else if kind == 2 {
        parse_import_section(s, pos, size)
    } else if kind == 4 {
        skip_section(s, pos, size, SectionView::Table)
    } else if kind == 5 {
        skip_section(s, pos, size, SectionView::Memory)
    } else if kind == 6 {
        skip_section(s, pos, size, SectionView::Global)
    } else if kind == 8 {
        skip_section(s, pos, size, SectionView::Start)
    } else if kind == 9 {
        skip_section(s, pos, size, SectionView::Element)
    } else {
        (Err(DecodeErrorView::SectionKind { invalid_byte: kind }), pos)
    }
}

/// One whole section at `pos`: head and body.
pub open spec fn parse_framed_section(s: Seq<u8>, pos: int) -> (
    Result<SectionView, DecodeErrorView>,
    int,
) {
    let (head, p1) = parse_section_header(s, pos);
    match head {
        Err(e) => (Err(e), p1),
        Ok(head) => parse_section(s, p1, head.0, head.1),
    }
}

/// The sections from `pos` to the end of the input, behind those that gave
/// `acc`. The input must end exactly where a section ends.
pub open spec fn sections_from(s: Seq<u8>, pos: int, acc: Seq<SectionView>) -> Result<
    Seq<SectionView>,
    DecodeErrorView,
>
    decreases s.len() - pos,
    via sections_from_decreases
{
    if !(0 <= pos < s.len()) {
        Ok(acc)
    } else {
        let (section, p1) = parse_framed_section(s, pos);
        match section {
            Err(e) => Err(e),
            Ok(section) => sections_from(s, p1, acc.push(section)),
        }
    }
}

#[via_fn]
proof fn sections_from_decreases(s: Seq<u8>, pos: int, acc: Seq<SectionView>) {
    if 0 <= pos < s.len() {
        lemma_framed_section_advances(s, pos);
    }
}

/// The header: the next four bytes must be the magic. Where they are not, or
/// fewer than four are left, the failure holds the magic and what was found,
/// both as text.
pub open spec fn parse_header(s: Seq<u8>, pos: int) -> (Result<(), DecodeErrorView>, int) {
    let end = if pos + 4 <= s.len() {
        pos + 4
    } else {
        s.len() as int
    };
    let found = s.subrange(pos, end);
    if found == header_magic() {
        (Ok(()), end)
    } else {
        (
            Err(
                DecodeErrorView::Binary {
                    expected: text_of(header_magic()),
                    found: text_of(found),
                },
            ),
            end,
        )
    }
}

/// The value of four bytes in little-endian order.
pub open spec fn le_u32(b: Seq<u8>) -> u32 {
    le_value(b) as u32
}

/// The version: four bytes, little-endian.
pub open spec fn parse_version(s: Seq<u8>, pos: int) -> (Result<u32, DecodeErrorView>, int) {
    let (bytes, p1) = read_span(s, pos, 4);
    match bytes {
        Err(e) => (Err(e), p1),
        Ok(bytes) => (Ok(le_u32(bytes)), p1),
    }
}

/// A whole module: header, version, and sections up to the end of the input.
pub open spec fn parse_module(s: Seq<u8>) -> Result<ModuleView, DecodeErrorView> {
    let (header, p1) = parse_header(s, 0);
    match header {
        Err(e) => Err(e),
        Ok(_) => {
            let (version, p2) = parse_version(s, p1);
            match version {
                Err(e) => Err(e),
                Ok(version) => match sections_from(s, p2, Seq::empty()) {
                    Err(e) => Err(e),
                    Ok(sections) => Ok(ModuleView { version, sections }),
                },
            }
        },
    }
}

/// A variable-length integer that is read takes at least one byte and stays
/// within the input.
pub proof fn lemma_varuint_advances(s: Seq<u8>, pos: int, index: nat, value: nat)
    requires
        0 <= pos <= s.len(),
    ensures
        varuint_from(s, pos, index, value).0 is Ok ==> pos < varuint_from(s, pos, index, value).1,
        pos <= varuint_from(s, pos, index, value).1 <= s.len(),
    decreases s.len() - pos,
{
    if pos < s.len() {
        let byte = s[pos];
        let sum = value + (byte % 128) as nat * group_weight(index);
        if !(index >= 5 || sum > u32::MAX) && byte >= 128 {
            lemma_varuint_advances(s, pos + 1, index + 1, sum);
        }
    }
}

/// A section that is read takes at least two bytes and stays within the
/// input.
pub proof fn lemma_framed_section_advances(s: Seq<u8>, pos: int)
    requires
        0 <= pos <= s.len(),
    ensures
        parse_framed_section(s, pos).0 is Ok ==> pos + 2 <= parse_framed_section(s, pos).1,
        pos <= parse_framed_section(s, pos).1 <= s.len(),
{
    if pos < s.len() {
        lemma_varuint_advances(s, pos + 1, 0, 0);
    }
}

} // verus!
