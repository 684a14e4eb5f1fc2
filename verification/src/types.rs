//! The values a decoded module is made of, and their mathematical views.

use vstd::prelude::*;
use vstd::std_specs::convert::FromSpecImpl;

verus! {

/// AKA variable-length integer data (varuint): an unsigned 32-bit value that
/// the binary format stores in LEB128 form.
#[derive(Clone, Copy, Debug, PartialEq, Eq, Structural)]
pub struct VarUInt(pub u32);

impl From<u32> for VarUInt {
    fn from(x: u32) -> (r: Self) {
        VarUInt(x)
    }
}

impl FromSpecImpl<u32> for VarUInt {
    open spec fn obeys_from_spec() -> bool {
        true
    }

    open spec fn from_spec(x: u32) -> Self {
        VarUInt(x)
    }
}

impl From<VarUInt> for u32 {
    fn from(value: VarUInt) -> (r: u32) {
        value.0
    }
}

impl FromSpecImpl<VarUInt> for u32 {
    open spec fn obeys_from_spec() -> bool {
        true
    }

    open spec fn from_spec(value: VarUInt) -> u32 {
        value.0
    }
}

/// The type of a WebAssembly value.
#[derive(Clone, Copy, Debug, PartialEq, Eq, Structural)]
pub enum WasmValueType {
    I32,
    I64,
    F32,
    F64,
    UNSUPPORTED,
}

/// The value type that an encoded byte stands for: `0x7f`, `0x7e`, `0x7d` and
/// `0x7c` are the four numeric types, every other byte is `UNSUPPORTED`.
pub open spec fn value_type_of(x: u8) -> WasmValueType {
    if x == 0x7f {
        WasmValueType::I32
    } else if x == 0x7e {
        WasmValueType::I64
    } else if x == 0x7d {
        WasmValueType::F32
    } else if x == 0x7c {
        WasmValueType::F64
    } else {
        WasmValueType::UNSUPPORTED
    }
}

impl From<u8> for WasmValueType {
    fn from(x: u8) -> (r: Self) {
        match x {
            0x7f => WasmValueType::I32,
            0x7e => WasmValueType::I64,
            0x7d => WasmValueType::F32,
            0x7c => WasmValueType::F64,
            _ => WasmValueType::UNSUPPORTED,
        }
    }
}

impl FromSpecImpl<u8> for WasmValueType {
    open spec fn obeys_from_spec() -> bool {
        true
    }

    open spec fn from_spec(x: u8) -> Self {
        value_type_of(x)
    }
}

impl From<VarUInt> for WasmValueType {
    /// Only the low eight bits of the integer select the type.
    fn from(value: VarUInt) -> (r: Self) {
        let low: u8 = (value.0 % 256) as u8;
        WasmValueType::from(low)
    }
}

impl FromSpecImpl<VarUInt> for WasmValueType {
    open spec fn obeys_from_spec() -> bool {
        true
    }

    open spec fn from_spec(value: VarUInt) -> Self {
        value_type_of((value.0 % 256) as u8)
    }
}

/// Whether a global may be assigned after its initialisation.
#[derive(Clone, Copy, Debug, PartialEq, Eq, Structural)]
pub enum Mutability {
    Immutable,
    Mutable,
}

/// The kind of reference a table holds.
#[derive(Clone, Copy, Debug, PartialEq, Eq, Structural)]
pub enum WasmElementType {
    Funcref,
    Externref,
}

/// A minimum and an optional maximum; an absent maximum means unbounded.
#[derive(Clone, Copy, Debug, PartialEq, Eq)]
pub struct WasmLimits {
    pub min: u32,
    pub max: Option<u32>,
}

/// A table type: its element type and its limits.
#[derive(Clone, Copy, Debug, PartialEq, Eq)]
pub struct TableType {
    pub element_type: WasmElementType,
    pub limits: WasmLimits,
}

/// A memory type: its limits.
#[derive(Clone, Copy, Debug, PartialEq, Eq)]
pub struct MemoryType {
    pub limits: WasmLimits,
}

/// A global type: its value type and its mutability flag.
#[derive(Clone, Copy, Debug, PartialEq, Eq, Structural)]
pub struct GlobalType {
    pub value_type: WasmValueType,
    pub mutability: Mutability,
}

/// What an import entry brings in.
#[derive(Clone, Copy, Debug, PartialEq, Eq)]
pub enum WasmImportDescriptor {
    /// Index into the function types of the type section.
    Function(VarUInt),
    Table(TableType),
    Memory(MemoryType),
    Global(GlobalType),
}

/// A function signature: parameter types and return types, in order.
#[derive(Debug, Default)]
pub struct WasmFunctionType {
    pub params: Vec<WasmValueType>,
    pub returns: Vec<WasmValueType>,
}

/// The mathematical value of a [`WasmFunctionType`].
pub ghost struct FunctionTypeView {
    pub params: Seq<WasmValueType>,
    pub returns: Seq<WasmValueType>,
}

impl View for WasmFunctionType {
    type V = FunctionTypeView;

    open spec fn view(&self) -> FunctionTypeView {
        FunctionTypeView { params: self.params@, returns: self.returns@ }
    }
}

/// The function types of a module; a type's position is its type index.
#[derive(Debug)]
pub struct TypeSection {
    pub items: Vec<WasmFunctionType>,
}

/// The mathematical values of the function types, in order.
pub open spec fn function_type_views(items: Seq<WasmFunctionType>) -> Seq<FunctionTypeView> {
    items.map_values(|f: WasmFunctionType| f@)
}

impl View for TypeSection {
    type V = Seq<FunctionTypeView>;

    open spec fn view(&self) -> Seq<FunctionTypeView> {
        function_type_views(self.items@)
    }
}

/// One import: the two names and the descriptor of what is imported.
#[derive(Debug)]
pub struct WasmImportEntry {
    pub module_name: String,
    pub field_name: String,
    pub descriptor: WasmImportDescriptor,
}

/// The mathematical value of a [`WasmImportEntry`].
pub ghost struct ImportEntryView {
    pub module_name: Seq<char>,
    pub field_name: Seq<char>,
    pub descriptor: WasmImportDescriptor,
}

impl View for WasmImportEntry {
    type V = ImportEntryView;

    open spec fn view(&self) -> ImportEntryView {
        ImportEntryView {
            module_name: self.module_name@,
            field_name: self.field_name@,
            descriptor: self.descriptor,
        }
    }
}

/// The imports of a module, in declaration order.
#[derive(Debug)]
pub struct ImportSection {
    pub items: Vec<WasmImportEntry>,
}

/// The mathematical values of the import entries, in order.
pub open spec fn import_entry_views(items: Seq<WasmImportEntry>) -> Seq<ImportEntryView> {
    items.map_values(|e: WasmImportEntry| e@)
}

impl View for ImportSection {
    type V = Seq<ImportEntryView>;

    open spec fn view(&self) -> Seq<ImportEntryView> {
        import_entry_views(self.items@)
    }
}

/// One decoded section. The kinds that carry `()` are framed and skipped:
/// their bytes are consumed and not interpreted.
#[derive(Debug)]
pub enum WasmSection {
    Type(TypeSection),
    Custom(()),
    Import(ImportSection),
    Table(()),
    Memory(()),
    Global(()),
    Start(()),
    Element(()),
}

/// The mathematical value of a [`WasmSection`].
pub ghost enum SectionView {
    Type(Seq<FunctionTypeView>),
    Custom,
    Import(Seq<ImportEntryView>),
    Table,
    Memory,
    Global,
    Start,
    Element,
}

/// The mathematical values of the sections, in order.
pub open spec fn section_views(sections: Seq<WasmSection>) -> Seq<SectionView> {
    sections.map_values(|s: WasmSection| s@)
}

impl View for WasmSection {
    type V = SectionView;

    open spec fn view(&self) -> SectionView {
        match self {
            WasmSection::Type(t) => SectionView::Type(t@),
            WasmSection::Custom(_) => SectionView::Custom,
            WasmSection::Import(i) => SectionView::Import(i@),
            WasmSection::Table(_) => SectionView::Table,
            WasmSection::Memory(_) => SectionView::Memory,
            WasmSection::Global(_) => SectionView::Global,
            WasmSection::Start(_) => SectionView::Start,
            WasmSection::Element(_) => SectionView::Element,
        }
    }
}

} // verus!
