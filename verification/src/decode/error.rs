//! The failures a decode can end in.

use vstd::prelude::*;

verus! {

/// Why a decode failed. A decode stops at the first failure.
#[derive(Debug)]
#[allow(inconsistent_fields)]
pub enum DecodeError {
    /// The input does not start with the module magic. Both fields hold the
    /// bytes as text where they are UTF-8, and are empty where they are not.
    Binary { expected: String, found: String },
    /// A variable-length integer does not fit in 32 bits.
    Numeric { current_value: u32, invalid_byte: u32 },
    /// A function type does not start with its marker byte.
    TypeSectionBytes,
    /// A table type names an element type that is not known.
    ElementType { invalid_byte: u8 },
    /// A global type's mutability byte is neither 0 nor 1.
    MutabilityByte { invalid_byte: u8 },
    /// An instruction byte that is not known.
    OpCode { opcode: u8 },
    /// The input ended before a read was complete.
    UnexpectedEof,
    /// A name is not valid UTF-8.
    Utf8,
    /// An import names a kind that is not known.
    ImportKind { invalid_byte: u8 },
    /// A section names a kind that is not known.
    SectionKind { invalid_byte: u8 },
}

/// The mathematical value of a [`DecodeError`].
#[allow(inconsistent_fields)]
pub ghost enum DecodeErrorView {
    Binary { expected: Seq<char>, found: Seq<char> },
    Numeric { current_value: u32, invalid_byte: u32 },
    TypeSectionBytes,
    ElementType { invalid_byte: u8 },
    MutabilityByte { invalid_byte: u8 },
    OpCode { opcode: u8 },
    UnexpectedEof,
    Utf8,
    ImportKind { invalid_byte: u8 },
    SectionKind { invalid_byte: u8 },
}

impl View for DecodeError {
    type V = DecodeErrorView;

    open spec fn view(&self) -> DecodeErrorView {
        match self {
            DecodeError::Binary { expected, found } => DecodeErrorView::Binary {
                expected: expected@,
                found: found@,
            },
            DecodeError::Numeric { current_value, invalid_byte } => DecodeErrorView::Numeric {
                current_value: *current_value,
                invalid_byte: *invalid_byte,
            },
            DecodeError::TypeSectionBytes => DecodeErrorView::TypeSectionBytes,
            DecodeError::ElementType { invalid_byte } => DecodeErrorView::ElementType {
                invalid_byte: *invalid_byte,
            },
            DecodeError::MutabilityByte { invalid_byte } => DecodeErrorView::MutabilityByte {
                invalid_byte: *invalid_byte,
            },
            DecodeError::OpCode { opcode } => DecodeErrorView::OpCode { opcode: *opcode },
            DecodeError::UnexpectedEof => DecodeErrorView::UnexpectedEof,
            DecodeError::Utf8 => DecodeErrorView::Utf8,
            DecodeError::ImportKind { invalid_byte } => DecodeErrorView::ImportKind {
                invalid_byte: *invalid_byte,
            },
            DecodeError::SectionKind { invalid_byte } => DecodeErrorView::SectionKind {
                invalid_byte: *invalid_byte,
            },
        }
    }
}

/// The message for each kind of failure.
pub open spec fn message_text(e: DecodeErrorView) -> Seq<char> {
    match e {
        DecodeErrorView::Binary { .. } => "Not a WebAssembly binary."@,
        DecodeErrorView::Numeric { .. } => "An invalid numerical value was found while decoding the WebAssembly binary."@,
        DecodeErrorView::TypeSectionBytes => "The WebAssembly binary contains a type section with invalid magic bytes."@,
        DecodeErrorView::ElementType { .. } => "The WebAssembly binary contains a table type with an invalid element type."@,
        DecodeErrorView::MutabilityByte { .. } => "The WebAssembly binary contains a global type with an invalid mutability byte."@,
        DecodeErrorView::OpCode { .. } => "Unexpected WebAssembly OpCode received"@,
        DecodeErrorView::UnexpectedEof => "The WebAssembly binary ended before a read was complete."@,
        DecodeErrorView::Utf8 => "The WebAssembly binary contains a name that is not valid UTF-8."@,
        DecodeErrorView::ImportKind { .. } => "The WebAssembly binary contains an import with an invalid kind."@,
        DecodeErrorView::SectionKind { .. } => "The WebAssembly binary contains a section with an invalid kind."@,
    }
}

impl DecodeError {
    /// A human-readable message that names the kind of failure.
    pub fn message(&self) -> (r: String)
        ensures
            r@ == message_text(self@),
    {
        match self {
            DecodeError::Binary { .. } => "Not a WebAssembly binary.".to_owned(),
            DecodeError::Numeric { .. } => "An invalid numerical value was found while decoding the WebAssembly binary.".to_owned(),
            DecodeError::TypeSectionBytes => "The WebAssembly binary contains a type section with invalid magic bytes.".to_owned(),
            DecodeError::ElementType { .. } => "The WebAssembly binary contains a table type with an invalid element type.".to_owned(),
            DecodeError::MutabilityByte { .. } => "The WebAssembly binary contains a global type with an invalid mutability byte.".to_owned(),
            DecodeError::OpCode { .. } => "Unexpected WebAssembly OpCode received".to_owned(),
            DecodeError::UnexpectedEof => "The WebAssembly binary ended before a read was complete.".to_owned(),
            DecodeError::Utf8 => "The WebAssembly binary contains a name that is not valid UTF-8.".to_owned(),
            DecodeError::ImportKind { .. } => "The WebAssembly binary contains an import with an invalid kind.".to_owned(),
            DecodeError::SectionKind { .. } => "The WebAssembly binary contains a section with an invalid kind.".to_owned(),
        }
    }
}

} // verus!
