use wasm_decode::decode::{DecodeError, Decoder, HEADER_MAGIC_BYTES};
use wasm_decode::types::{
    GlobalType, MemoryType, Mutability, TableType, VarUInt, WasmElementType,
    WasmImportDescriptor, WasmLimits, WasmSection, WasmValueType,
};

fn leb128(mut v: u32) -> Vec<u8> {
    let mut out = Vec::new();
    loop {
        let low = (v & 0x7f) as u8;
        v >>= 7;
        if v == 0 {
            out.push(low);
            return out;
        }
        out.push(low | 0x80);
    }
}

#[test]
fn test_new_decoder() {
    let decoder = Decoder::new(&[1, 2, 3, 4][..]);
    assert_eq!(decoder.get_ref().len(), 4);
}

#[test]
fn test_decode_varuint() {
    let mut decoder = Decoder::new(&[0b10000001, 0b00000001][..]);
    let result = decoder.decode_varuint().unwrap();
    assert_eq!(u32::from(result), 129); // 128 (second byte) + 1 (first byte)
}

#[test]
fn test_read_validate() {
    let mut decoder = Decoder::new(&HEADER_MAGIC_BYTES[..]);
    assert!(decoder.read_validate().is_ok());
}

#[test]
fn test_read_validate_failed() {
    let mut decoder = Decoder::new(&[1, 2, 3, 4][..]);
    assert!(decoder.read_validate().is_err());
}

#[test]
fn test_read_version() {
    let mut decoder = Decoder::new(&[1, 0, 0, 0][..]);
    let version = decoder.read_version().unwrap();
    assert_eq!(version, 1);
}

#[test]
fn test_decode_import_section() {
    // A single import from a module named "mod" with field "field",
    // importing a function with type index 0.
    let data = [
        0x01, // Import count (1)
        0x03, 0x6d, 0x6f, 0x64, // Module name length (3), module name ("mod")
        0x05, 0x66, 0x69, 0x65, 0x6c, 0x64, // Field name length (5), field name ("field")
        0x00, // Import kind (0 = function)
        0x00, // Function type index (0)
    ];

    let mut decoder = Decoder::new(&data[..]);
    let import_section = decoder.decode_import_section(data.len() as u32).unwrap();

    match import_section {
        WasmSection::Import(import_section) => {
            assert_eq!(import_section.items.len(), 1);
            let import_entry = &import_section.items[0];
            assert_eq!(import_entry.module_name, "mod");
            assert_eq!(import_entry.field_name, "field");
            match import_entry.descriptor {
                WasmImportDescriptor::Function(type_index) => {
                    assert_eq!(u32::from(type_index), 0);
                }
                _ => panic!("Expected function import descriptor"),
            }
        }
        _ => panic!("Expected import section"),
    }
}

#[test]
fn new_decoder_starts_at_zero() {
    let decoder = Decoder::new(&[9, 9][..]);
    assert_eq!(decoder.position(), 0);
    assert!(!decoder.is_end());
    assert!(Decoder::new(&[][..]).is_end());
}

#[test]
fn read_byte_and_bytes_advance() {
    let data = [1u8, 2, 3, 4, 5];
    let mut decoder = Decoder::new(&data[..]);
    assert_eq!(decoder.read_byte().unwrap(), 1);
    assert_eq!(decoder.read_bytes(3).unwrap(), &[2u8, 3, 4][..]);
    assert_eq!(decoder.position(), 4);
    assert!(matches!(decoder.read_bytes(2), Err(DecodeError::UnexpectedEof)));
    assert_eq!(decoder.position(), 5);
    assert!(matches!(decoder.read_byte(), Err(DecodeError::UnexpectedEof)));
}

#[test]
fn varuint_round_trip_on_chosen_values() {
    for v in [0u32, 1, 127, 128, 129, 300, 16383, 16384, 0x0fff_ffff, 0x1000_0000, u32::MAX] {
        let mut bytes = leb128(v);
        let used = bytes.len();
        bytes.push(0xaa);
        let mut decoder = Decoder::new(&bytes[..]);
        assert_eq!(decoder.decode_varuint().unwrap(), VarUInt::from(v));
        assert_eq!(decoder.position(), used);
    }
}

#[test]
fn varuint_single_and_largest() {
    let mut decoder = Decoder::new(&[0x00][..]);
    assert_eq!(u32::from(decoder.decode_varuint().unwrap()), 0);
    let mut decoder = Decoder::new(&[0xe5, 0x8e, 0x26][..]);
    assert_eq!(u32::from(decoder.decode_varuint().unwrap()), 624485);
    let mut decoder = Decoder::new(&[0xff, 0xff, 0xff, 0xff, 0x0f][..]);
    assert_eq!(u32::from(decoder.decode_varuint().unwrap()), u32::MAX);
    assert_eq!(decoder.position(), 5);
}

#[test]
fn varuint_fifth_byte_too_large_is_numeric() {
    let mut decoder = Decoder::new(&[0xff, 0xff, 0xff, 0xff, 0x1f][..]);
    match decoder.decode_varuint() {
        Err(DecodeError::Numeric { current_value, invalid_byte }) => {
            assert_eq!(current_value, 0x0fff_ffff);
            assert_eq!(invalid_byte, 0x1f);
        }
        other => panic!("expected a numeric error, got {:?}", other),
    }
    assert_eq!(decoder.position(), 5);
}

#[test]
fn varuint_sixth_byte_is_numeric() {
    let mut decoder = Decoder::new(&[0x80, 0x80, 0x80, 0x80, 0x80, 0x00][..]);
    match decoder.decode_varuint() {
        Err(DecodeError::Numeric { current_value, invalid_byte }) => {
            assert_eq!(current_value, 0);
            assert_eq!(invalid_byte, 0);
        }
        other => panic!("expected a numeric error, got {:?}", other),
    }
    let mut decoder = Decoder::new(&[0xff, 0xff, 0xff, 0xff, 0xff, 0xff][..]);
    assert!(matches!(
        decoder.decode_varuint(),
        Err(DecodeError::Numeric { current_value: 0x0fff_ffff, invalid_byte: 0xff })
    ));
}

#[test]
fn varuint_truncated_is_eof() {
    let mut decoder = Decoder::new(&[0x80, 0x80][..]);
    assert!(matches!(decoder.decode_varuint(), Err(DecodeError::UnexpectedEof)));
    let mut decoder = Decoder::new(&[][..]);
    assert!(matches!(decoder.decode_varuint(), Err(DecodeError::UnexpectedEof)));
}

#[test]
fn header_mismatch_reports_both_texts() {
    let mut decoder = Decoder::new(&[0x41, 0x42, 0x43, 0x44, 0x45][..]);
    match decoder.read_validate() {
        Err(DecodeError::Binary { expected, found }) => {
            assert_eq!(expected, "\0asd");
            assert_eq!(found, "ABCD");
        }
        other => panic!("expected a binary error, got {:?}", other),
    }
    assert_eq!(decoder.position(), 4);
}

#[test]
fn header_shorter_than_four_bytes_is_binary() {
    let mut decoder = Decoder::new(&[0x00, 0x61][..]);
    match decoder.read_validate() {
        Err(DecodeError::Binary { expected, found }) => {
            assert_eq!(expected, "\0asd");
            assert_eq!(found, "\0a");
        }
        other => panic!("expected a binary error, got {:?}", other),
    }
    let mut decoder = Decoder::new(&[][..]);
    assert!(matches!(decoder.read_validate(), Err(DecodeError::Binary { .. })));
}

#[test]
fn header_found_bytes_not_utf8_give_empty_text() {
    let mut decoder = Decoder::new(&[0xff, 0xfe, 0xfd, 0xfc][..]);
    match decoder.read_validate() {
        Err(DecodeError::Binary { expected, found }) => {
            assert_eq!(expected, "\0asd");
            assert_eq!(found, "");
        }
        other => panic!("expected a binary error, got {:?}", other),
    }
}

#[test]
fn version_is_little_endian() {
    let mut decoder = Decoder::new(&[0x78, 0x56, 0x34, 0x12][..]);
    assert_eq!(decoder.read_version().unwrap(), 0x1234_5678);
    let mut decoder = Decoder::new(&[1, 0, 0][..]);
    assert!(matches!(decoder.read_version(), Err(DecodeError::UnexpectedEof)));
}

#[test]
fn type_section_example() {
    let data = [0x01, 0x60, 0x01, 0x7f, 0x01, 0x7e];
    let mut decoder = Decoder::new(&data[..]);
    match decoder.decode_type_section(data.len() as u32).unwrap() {
        WasmSection::Type(section) => {
            assert_eq!(section.items.len(), 1);
            assert_eq!(section.items[0].params, vec![WasmValueType::I32]);
            assert_eq!(section.items[0].returns, vec![WasmValueType::I64]);
        }
        _ => panic!("expected a type section"),
    }
    assert_eq!(decoder.position(), 6);
}

#[test]
fn type_section_keeps_declaration_order() {
    let data = [0x02, 0x60, 0x02, 0x7d, 0x7c, 0x00, 0x60, 0x00, 0x01, 0x7f];
    let mut decoder = Decoder::new(&data[..]);
    match decoder.decode_type_section(data.len() as u32).unwrap() {
        WasmSection::Type(section) => {
            assert_eq!(section.items.len(), 2);
            assert_eq!(section.items[0].params, vec![WasmValueType::F32, WasmValueType::F64]);
            assert!(section.items[0].returns.is_empty());
            assert!(section.items[1].params.is_empty());
            assert_eq!(section.items[1].returns, vec![WasmValueType::I32]);
        }
        _ => panic!("expected a type section"),
    }
}

#[test]
fn type_section_without_marker_fails() {
    let data = [0x01, 0x61, 0x00, 0x00];
    let mut decoder = Decoder::new(&data[..]);
    assert!(matches!(
        decoder.decode_type_section(data.len() as u32),
        Err(DecodeError::TypeSectionBytes)
    ));
    assert_eq!(decoder.position(), 4);
}

#[test]
fn type_section_cannot_read_past_its_size() {
    // The count asks for a function type, but the section holds one byte.
    let data = [0x01, 0x60, 0x00, 0x00];
    let mut decoder = Decoder::new(&data[..]);
    assert!(matches!(decoder.decode_type_section(1), Err(DecodeError::UnexpectedEof)));
    assert_eq!(decoder.position(), 1);
}

#[test]
fn section_longer_than_input_is_eof() {
    let data = [0x00];
    let mut decoder = Decoder::new(&data[..]);
    assert!(matches!(decoder.decode_type_section(5), Err(DecodeError::UnexpectedEof)));
    let mut decoder = Decoder::new(&data[..]);
    assert!(matches!(decoder.decode_import_section(5), Err(DecodeError::UnexpectedEof)));
    let mut decoder = Decoder::new(&data[..]);
    assert!(matches!(decoder.decode_custom_section(2), Err(DecodeError::UnexpectedEof)));
}

#[test]
fn import_section_with_every_kind() {
    let data = [
        0x04, // four imports
        0x01, 0x61, 0x01, 0x66, 0x00, 0x05, // "a" "f" function 5
        0x01, 0x62, 0x01, 0x74, 0x01, 0x70, 0x01, 0x01, 0x10, // "b" "t" table funcref 1..16
        0x01, 0x63, 0x01, 0x6d, 0x02, 0x00, 0x02, // "c" "m" memory 2..
        0x01, 0x64, 0x01, 0x67, 0x03, 0x7e, 0x01, // "d" "g" global i64 mutable
    ];
    let mut decoder = Decoder::new(&data[..]);
    let section = match decoder.decode_import_section(data.len() as u32).unwrap() {
        WasmSection::Import(section) => section,
        _ => panic!("expected an import section"),
    };
    assert_eq!(section.items.len(), 4);
    assert_eq!(section.items[0].module_name, "a");
    assert_eq!(section.items[0].field_name, "f");
    assert_eq!(section.items[0].descriptor, WasmImportDescriptor::Function(VarUInt::from(5)));
    assert_eq!(
        section.items[1].descriptor,
        WasmImportDescriptor::Table(TableType {
            element_type: WasmElementType::Funcref,
            limits: WasmLimits { min: 1, max: Some(16) },
        })
    );
    assert_eq!(
        section.items[2].descriptor,
        WasmImportDescriptor::Memory(MemoryType { limits: WasmLimits { min: 2, max: None } })
    );
    assert_eq!(
        section.items[3].descriptor,
        WasmImportDescriptor::Global(GlobalType {
            value_type: WasmValueType::I64,
            mutability: Mutability::Mutable,
        })
    );
    assert_eq!(section.items[3].module_name, "d");
}

#[test]
fn import_name_decodes_multibyte_utf8() {
    // "é" is c3 a9.
    let data = [0x02, 0xc3, 0xa9];
    let mut decoder = Decoder::new(&data[..]);
    assert_eq!(decoder.decode_name().unwrap(), "é");
    assert_eq!(decoder.position(), 3);
}

#[test]
fn import_name_not_utf8_fails() {
    let data = [0x01, 0x02, 0xc3, 0x28, 0x01, 0x66, 0x00, 0x00];
    let mut decoder = Decoder::new(&data[..]);
    assert!(matches!(
        decoder.decode_import_section(data.len() as u32),
        Err(DecodeError::Utf8)
    ));
}

#[test]
fn import_kind_out_of_range_fails() {
    let data = [0x01, 0x01, 0x61, 0x01, 0x62, 0x04, 0x00];
    let mut decoder = Decoder::new(&data[..]);
    assert!(matches!(
        decoder.decode_import_section(data.len() as u32),
        Err(DecodeError::ImportKind { invalid_byte: 4 })
    ));
}

#[test]
fn invalid_mutability() {
    let mut decoder = Decoder::new(&[0x7f, 0x02][..]);
    assert!(matches!(
        decoder.decode_global_type(),
        Err(DecodeError::MutabilityByte { invalid_byte: 2 })
    ));
}

#[test]
fn global_type_decodes_both_flags() {
    let mut decoder = Decoder::new(&[0x7f, 0x00, 0x7c, 0x01][..]);
    assert_eq!(
        decoder.decode_global_type().unwrap(),
        GlobalType { value_type: WasmValueType::I32, mutability: Mutability::Immutable }
    );
    assert_eq!(
        decoder.decode_global_type().unwrap(),
        GlobalType { value_type: WasmValueType::F64, mutability: Mutability::Mutable }
    );
    assert!(decoder.is_end());
}

#[test]
fn global_type_with_unknown_value_byte_is_unsupported() {
    let mut decoder = Decoder::new(&[0x11, 0x00][..]);
    assert_eq!(
        decoder.decode_global_type().unwrap(),
        GlobalType { value_type: WasmValueType::UNSUPPORTED, mutability: Mutability::Immutable }
    );
}

#[test]
fn invalid_element_type() {
    let mut decoder = Decoder::new(&[0x71, 0x00, 0x00][..]);
    assert!(matches!(
        decoder.decode_table_type(),
        Err(DecodeError::ElementType { invalid_byte: 0x71 })
    ));
    assert_eq!(decoder.position(), 1);
}

#[test]
fn table_and_memory_limits() {
    let mut decoder = Decoder::new(&[0x70, 0x00, 0x03, 0x01, 0x80, 0x01, 0x90, 0x03][..]);
    assert_eq!(
        decoder.decode_table_type().unwrap(),
        TableType {
            element_type: WasmElementType::Funcref,
            limits: WasmLimits { min: 3, max: None },
        }
    );
    assert_eq!(
        decoder.decode_memory_type().unwrap(),
        MemoryType { limits: WasmLimits { min: 128, max: Some(400) } }
    );
    assert!(decoder.is_end());
}

#[test]
fn limits_flag_uses_lowest_bit_only() {
    let mut decoder = Decoder::new(&[0x03, 0x01, 0x02, 0x02, 0x07][..]);
    assert_eq!(decoder.decode_limits().unwrap(), WasmLimits { min: 1, max: Some(2) });
    assert_eq!(decoder.decode_limits().unwrap(), WasmLimits { min: 7, max: None });
}

#[test]
fn opaque_sections_consume_their_size() {
    let data = [0xde, 0xad, 0xbe, 0xef, 0x01, 0x02, 0x03, 0x04, 0x05, 0x06, 0x07, 0x08];
    let mut decoder = Decoder::new(&data[..]);
    assert!(matches!(decoder.decode_custom_section(4).unwrap(), WasmSection::Custom(())));
    assert_eq!(decoder.position(), 4);
    assert!(matches!(decoder.decode_table_section(1).unwrap(), WasmSection::Table(())));
    assert!(matches!(decoder.decode_memory_section(2).unwrap(), WasmSection::Memory(())));
    assert!(matches!(decoder.decode_global_section(0).unwrap(), WasmSection::Global(())));
    assert_eq!(decoder.position(), 7);
    assert!(matches!(decoder.decode_start_section(3).unwrap(), WasmSection::Start(())));
    assert!(matches!(decoder.decode_element_section(2).unwrap(), WasmSection::Element(())));
    assert!(decoder.is_end());
}

#[test]
fn section_head_and_dispatch() {
    let data = [0x01, 0x06, 0x01, 0x60, 0x01, 0x7f, 0x01, 0x7e];
    let mut decoder = Decoder::new(&data[..]);
    let (kind, size) = decoder.decode_section_type().unwrap();
    assert_eq!((kind, size), (1, 6));
    assert!(matches!(decoder.decode_section(kind, size).unwrap(), WasmSection::Type(_)));
    assert!(decoder.is_end());
}

#[test]
fn unknown_section_kind_fails() {
    let mut decoder = Decoder::new(&[0x00, 0x00][..]);
    assert!(matches!(
        decoder.decode_section(3, 0),
        Err(DecodeError::SectionKind { invalid_byte: 3 })
    ));
    assert_eq!(decoder.position(), 0);
    assert!(matches!(
        decoder.decode_section(12, 1),
        Err(DecodeError::SectionKind { invalid_byte: 12 })
    ));
}
