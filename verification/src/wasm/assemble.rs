//! Writing a module's parts out as a WebAssembly binary with `wasm_encoder`.
//!
//! Each section builder is an outside type; what the module needs of it is
//! named: the entries added to it, in order, and what it writes for those
//! entries. A section refuses to be written when its contents pass 4 GiB, so
//! each section's size is bounded from its entries before it is written.
use vstd::prelude::*;
use vstd::string::StringSliceAdditionalSpecFns;
use vstd::utf8::encode_utf8;
use crate::wasm::backend::{fits_index_space, invalid_target_message, target_and_imports_checked, wasm_triple, CodegenError, Target, WasmBackend};
use crate::wasm::builder::Body;
use crate::wasm::encode::{body_encoding, encode, function_bytes};
use crate::wasm::layout::{triple_architecture, Arch};
use crate::wasm::model::ValTy;
use crate::wasm::module::{imports_supported, module_lowers, module_ready, parts_hold, ExportKind, ModuleExport, ModuleImport, ModuleParts};
use crate::wasm::program::{Program, SymbolId};
use crate::wasm::stdlib::MATH_COUNT;

verus! {

#[verifier::external_type_specification]
#[verifier::external_body]
pub struct ExModule(wasm_encoder::Module);

#[verifier::external_type_specification]
#[verifier::external_body]
pub struct ExTypeSection(wasm_encoder::TypeSection);

#[verifier::external_type_specification]
#[verifier::external_body]
pub struct ExImportSection(wasm_encoder::ImportSection);

#[verifier::external_type_specification]
#[verifier::external_body]
pub struct ExFunctionSection(wasm_encoder::FunctionSection);

#[verifier::external_type_specification]
#[verifier::external_body]
pub struct ExTableSection(wasm_encoder::TableSection);

#[verifier::external_type_specification]
#[verifier::external_body]
pub struct ExMemorySection(wasm_encoder::MemorySection);

#[verifier::external_type_specification]
#[verifier::external_body]
pub struct ExGlobalSection(wasm_encoder::GlobalSection);

#[verifier::external_type_specification]
#[verifier::external_body]
pub struct ExExportSection(wasm_encoder::ExportSection);

#[verifier::external_type_specification]
#[verifier::external_body]
pub struct ExElementSection(wasm_encoder::ElementSection);

#[verifier::external_type_specification]
#[verifier::external_body]
pub struct ExCodeSection(wasm_encoder::CodeSection);

#[verifier::external_type_specification]
#[verifier::external_body]
pub struct ExDataSection(wasm_encoder::DataSection);

/// The largest size of a section's contents that can be written, leaving
/// room for the entry count.
pub const SECTION_LIMIT: u64 = 0xffff_fffa;

/// The eight bytes that open every module: the magic `\0asm` and version 1.
pub open spec fn module_header() -> Seq<u8> {
    seq![0x00u8, 0x61u8, 0x73u8, 0x6du8, 0x01u8, 0x00u8, 0x00u8, 0x00u8]
}

// ---- the module ----

/// The bytes written to `m` so far.
pub uninterp spec fn module_bytes(m: wasm_encoder::Module) -> Seq<u8>;

/// `Module::new`: a module holding only its header.
pub assume_specification[ wasm_encoder::Module::new ]() -> (fresh: wasm_encoder::Module)
    ensures
        module_bytes(fresh) == module_header(),
;

/// `Module::finish`: the bytes written to the module.
pub assume_specification[ wasm_encoder::Module::finish ](built: wasm_encoder::Module) -> (r: Vec<u8>)
    ensures
        r@ == module_bytes(built),
;

// ---- the type section ----

/// The function types added to `s`: parameters and results, in order.
pub uninterp spec fn type_entries(s: wasm_encoder::TypeSection) -> Seq<(Seq<ValTy>, Seq<ValTy>)>;

/// What `wasm_encoder` writes for a type section holding `entries`.
pub uninterp spec fn type_section_encoding(entries: Seq<(Seq<ValTy>, Seq<ValTy>)>) -> Seq<u8>;

/// A bound on the size of a type section's contents: each function type
/// takes its tag, two counts and a byte per value type.
pub open spec fn types_bound(e: Seq<(Seq<ValTy>, Seq<ValTy>)>) -> nat
    decreases e.len(),
{
    if e.len() == 0 {
        0
    } else {
        types_bound(e.drop_last()) + 16 + e.last().0.len() + e.last().1.len()
    }
}

/// `TypeSection::new`: an empty type section.
pub assume_specification[ wasm_encoder::TypeSection::new ]() -> (s: wasm_encoder::TypeSection)
    ensures
        type_entries(s) == Seq::<(Seq<ValTy>, Seq<ValTy>)>::empty(),
;

/// `TypeSection::ty().function(..)`: adds the function type with these
/// parameters and results. The counts must fit in 32 bits, as must the
/// number of entries.
#[verifier::external_body]
fn push_type(s: &mut wasm_encoder::TypeSection, params: &Vec<ValTy>, results: &Vec<ValTy>)
    requires
        params@.len() <= u32::MAX,
        results@.len() <= u32::MAX,
        type_entries(*old(s)).len() < u32::MAX,
    ensures
        type_entries(*final(s)) == type_entries(*old(s)).push((params@, results@)),
{
    let vt = |t: &ValTy| match t {
        ValTy::I32 => wasm_encoder::ValType::I32,
        ValTy::I64 => wasm_encoder::ValType::I64,
        ValTy::F32 => wasm_encoder::ValType::F32,
        ValTy::F64 => wasm_encoder::ValType::F64,
    };
    s.ty().function(params.iter().map(vt), results.iter().map(vt));
}

/// `Module::section` with a type section: writes its id, 1, then the section.
#[verifier::external_body]
fn add_types(m: &mut wasm_encoder::Module, s: &wasm_encoder::TypeSection)
    requires
        types_bound(type_entries(*s)) <= SECTION_LIMIT,
    ensures
        module_bytes(*final(m)) == module_bytes(*old(m)) + seq![1u8] + type_section_encoding(type_entries(*s)),
{
    m.section(s);
}

// ---- the import section ----

/// The function imports added to `s`: module, name and type index, in order.
pub uninterp spec fn import_entries(s: wasm_encoder::ImportSection) -> Seq<(Seq<char>, Seq<char>, u32)>;

/// What `wasm_encoder` writes for an import section holding `entries`.
pub uninterp spec fn import_section_encoding(entries: Seq<(Seq<char>, Seq<char>, u32)>) -> Seq<u8>;

/// A bound on the size of an import section's contents: each import takes
/// its two names with their lengths, a kind and a type index.
pub open spec fn imports_bound(e: Seq<(Seq<char>, Seq<char>, u32)>) -> nat
    decreases e.len(),
{
    if e.len() == 0 {
        0
    } else {
        imports_bound(e.drop_last()) + 16 + encode_utf8(e.last().0).len() + encode_utf8(e.last().1).len()
    }
}

/// `ImportSection::new`: an empty import section.
pub assume_specification[ wasm_encoder::ImportSection::new ]() -> (s: wasm_encoder::ImportSection)
    ensures
        import_entries(s) == Seq::<(Seq<char>, Seq<char>, u32)>::empty(),
;

/// `ImportSection::import` with a function type index: adds that import.
#[verifier::external_body]
fn push_import(s: &mut wasm_encoder::ImportSection, module: &str, name: &str, type_index: u32)
    requires
        module.spec_bytes().len() <= u32::MAX,
        name.spec_bytes().len() <= u32::MAX,
        import_entries(*old(s)).len() < u32::MAX,
    ensures
        import_entries(*final(s)) == import_entries(*old(s)).push((module@, name@, type_index)),
{
    s.import(module, name, wasm_encoder::EntityType::Function(type_index));
}

/// `Module::section` with an import section: writes its id, 2, then the
/// section.
#[verifier::external_body]
fn add_imports(m: &mut wasm_encoder::Module, s: &wasm_encoder::ImportSection)
    requires
        imports_bound(import_entries(*s)) <= SECTION_LIMIT,
    ensures
        module_bytes(*final(m)) == module_bytes(*old(m)) + seq![2u8] + import_section_encoding(import_entries(*s)),
{
    m.section(s);
}

// ---- the function section ----

/// The type indices added to `s`, in order.
pub uninterp spec fn function_entries(s: wasm_encoder::FunctionSection) -> Seq<u32>;

/// What `wasm_encoder` writes for a function section holding `entries`.
pub uninterp spec fn function_section_encoding(entries: Seq<u32>) -> Seq<u8>;

/// `FunctionSection::new`: an empty function section.
pub assume_specification[ wasm_encoder::FunctionSection::new ]() -> (s: wasm_encoder::FunctionSection)
    ensures
        function_entries(s) == Seq::<u32>::empty(),
;

/// `FunctionSection::function`: adds a function of that type.
#[verifier::external_body]
fn push_function(s: &mut wasm_encoder::FunctionSection, type_index: u32)
    requires
        function_entries(*old(s)).len() < u32::MAX,
    ensures
        function_entries(*final(s)) == function_entries(*old(s)).push(type_index),
{
    s.function(type_index);
}

/// `Module::section` with a function section: writes its id, 3, then the
/// section. Each entry takes at most five bytes.
#[verifier::external_body]
fn add_functions(m: &mut wasm_encoder::Module, s: &wasm_encoder::FunctionSection)
    requires
        5 * function_entries(*s).len() <= SECTION_LIMIT,
    ensures
        module_bytes(*final(m)) == module_bytes(*old(m)) + seq![3u8] + function_section_encoding(function_entries(*s)),
{
    m.section(s);
}

// ---- the table section ----

/// The sizes of the funcref tables added to `s`, in order.
pub uninterp spec fn table_entries(s: wasm_encoder::TableSection) -> Seq<u32>;

/// What `wasm_encoder` writes for a table section holding `entries`.
pub uninterp spec fn table_section_encoding(entries: Seq<u32>) -> Seq<u8>;

/// `TableSection::new`: an empty table section.
pub assume_specification[ wasm_encoder::TableSection::new ]() -> (s: wasm_encoder::TableSection)
    ensures
        table_entries(s) == Seq::<u32>::empty(),
;

/// `TableSection::table`: adds a 32-bit, unshared funcref table whose
/// minimum and maximum size are both `size`.
#[verifier::external_body]
fn push_table(s: &mut wasm_encoder::TableSection, size: u32)
    requires
        table_entries(*old(s)).len() < u32::MAX,
    ensures
        table_entries(*final(s)) == table_entries(*old(s)).push(size),
{
    s.table(wasm_encoder::TableType {
        element_type: wasm_encoder::RefType::FUNCREF,
        table64: false,
        minimum: size as u64,
        maximum: Some(size as u64),
        shared: false,
    });
}

/// `Module::section` with a table section: writes its id, 4, then the
/// section. Each table takes at most 32 bytes.
#[verifier::external_body]
fn add_tables(m: &mut wasm_encoder::Module, s: &wasm_encoder::TableSection)
    requires
        32 * table_entries(*s).len() <= SECTION_LIMIT,
    ensures
        module_bytes(*final(m)) == module_bytes(*old(m)) + seq![4u8] + table_section_encoding(table_entries(*s)),
{
    m.section(s);
}

// ---- the memory section ----

/// The minimum page counts of the memories added to `s`, in order.
pub uninterp spec fn memory_entries(s: wasm_encoder::MemorySection) -> Seq<u32>;

/// What `wasm_encoder` writes for a memory section holding `entries`.
pub uninterp spec fn memory_section_encoding(entries: Seq<u32>) -> Seq<u8>;

/// `MemorySection::new`: an empty memory section.
pub assume_specification[ wasm_encoder::MemorySection::new ]() -> (s: wasm_encoder::MemorySection)
    ensures
        memory_entries(s) == Seq::<u32>::empty(),
;

/// `MemorySection::memory`: adds a 32-bit, unshared memory of at least
/// `pages` pages, with no maximum and the default page size.
#[verifier::external_body]
fn push_memory(s: &mut wasm_encoder::MemorySection, pages: u32)
    requires
        memory_entries(*old(s)).len() < u32::MAX,
    ensures
        memory_entries(*final(s)) == memory_entries(*old(s)).push(pages),
{
    s.memory(wasm_encoder::MemoryType {
        minimum: pages as u64,
        maximum: None,
        memory64: false,
        shared: false,
        page_size_log2: None,
    });
}

/// `Module::section` with a memory section: writes its id, 5, then the
/// section. Each memory takes at most 32 bytes.
#[verifier::external_body]
fn add_memories(m: &mut wasm_encoder::Module, s: &wasm_encoder::MemorySection)
    requires
        32 * memory_entries(*s).len() <= SECTION_LIMIT,
    ensures
        module_bytes(*final(m)) == module_bytes(*old(m)) + seq![5u8] + memory_section_encoding(memory_entries(*s)),
{
    m.section(s);
}

// ---- the global section ----

/// The initial values of the globals added to `s`, in order.
pub uninterp spec fn global_entries(s: wasm_encoder::GlobalSection) -> Seq<i32>;

/// What `wasm_encoder` writes for a global section holding `entries`.
pub uninterp spec fn global_section_encoding(entries: Seq<i32>) -> Seq<u8>;

/// `GlobalSection::new`: an empty global section.
pub assume_specification[ wasm_encoder::GlobalSection::new ]() -> (s: wasm_encoder::GlobalSection)
    ensures
        global_entries(s) == Seq::<i32>::empty(),
;

/// `GlobalSection::global`: adds a mutable, unshared `i32` global that
/// starts at `value`.
#[verifier::external_body]
fn push_global(s: &mut wasm_encoder::GlobalSection, value: i32)
    requires
        global_entries(*old(s)).len() < u32::MAX,
    ensures
        global_entries(*final(s)) == global_entries(*old(s)).push(value),
{
    s.global(
        wasm_encoder::GlobalType { val_type: wasm_encoder::ValType::I32, mutable: true, shared: false },
        &wasm_encoder::ConstExpr::i32_const(value),
    );
}

/// `Module::section` with a global section: writes its id, 6, then the
/// section. Each global takes at most 32 bytes.
#[verifier::external_body]
fn add_globals(m: &mut wasm_encoder::Module, s: &wasm_encoder::GlobalSection)
    requires
        32 * global_entries(*s).len() <= SECTION_LIMIT,
    ensures
        module_bytes(*final(m)) == module_bytes(*old(m)) + seq![6u8] + global_section_encoding(global_entries(*s)),
{
    m.section(s);
}

// ---- the export section ----

/// The exports added to `s`: name, kind and index, in order.
pub uninterp spec fn export_entries(s: wasm_encoder::ExportSection) -> Seq<(Seq<char>, ExportKind, u32)>;

/// What `wasm_encoder` writes for an export section holding `entries`.
pub uninterp spec fn export_section_encoding(entries: Seq<(Seq<char>, ExportKind, u32)>) -> Seq<u8>;

/// A bound on the size of an export section's contents: each export takes
/// its name with its length, a kind and an index.
pub open spec fn exports_bound(e: Seq<(Seq<char>, ExportKind, u32)>) -> nat
    decreases e.len(),
{
    if e.len() == 0 {
        0
    } else {
        exports_bound(e.drop_last()) + 16 + encode_utf8(e.last().0).len()
    }
}

/// `ExportSection::new`: an empty export section.
pub assume_specification[ wasm_encoder::ExportSection::new ]() -> (s: wasm_encoder::ExportSection)
    ensures
        export_entries(s) == Seq::<(Seq<char>, ExportKind, u32)>::empty(),
;

/// `ExportSection::export`: adds an export of a function or a memory.
#[verifier::external_body]
fn push_export(s: &mut wasm_encoder::ExportSection, name: &str, kind: ExportKind, index: u32)
    requires
        name.spec_bytes().len() <= u32::MAX,
        export_entries(*old(s)).len() < u32::MAX,
    ensures
        export_entries(*final(s)) == export_entries(*old(s)).push((name@, kind, index)),
{
    let kind = match kind {
        ExportKind::Function => wasm_encoder::ExportKind::Func,
        ExportKind::Memory => wasm_encoder::ExportKind::Memory,
    };
    s.export(name, kind, index);
}

/// `Module::section` with an export section: writes its id, 7, then the
/// section.
#[verifier::external_body]
fn add_exports(m: &mut wasm_encoder::Module, s: &wasm_encoder::ExportSection)
    requires
        exports_bound(export_entries(*s)) <= SECTION_LIMIT,
    ensures
        module_bytes(*final(m)) == module_bytes(*old(m)) + seq![7u8] + export_section_encoding(export_entries(*s)),
{
    m.section(s);
}

// ---- the element section ----

/// The function indices of the active segments for table 0 at offset 0
/// added to `s`, in order.
pub uninterp spec fn element_entries(s: wasm_encoder::ElementSection) -> Seq<Seq<u32>>;

/// What `wasm_encoder` writes for an element section holding `entries`.
pub uninterp spec fn element_section_encoding(entries: Seq<Seq<u32>>) -> Seq<u8>;

/// A bound on the size of an element section's contents: each segment
/// takes its flags, its offset, a count and at most five bytes per index.
pub open spec fn elements_bound(e: Seq<Seq<u32>>) -> nat
    decreases e.len(),
{
    if e.len() == 0 {
        0
    } else {
        elements_bound(e.drop_last()) + 16 + 5 * e.last().len()
    }
}

/// `ElementSection::new`: an empty element section.
pub assume_specification[ wasm_encoder::ElementSection::new ]() -> (s: wasm_encoder::ElementSection)
    ensures
        element_entries(s) == Seq::<Seq<u32>>::empty(),
;

/// `ElementSection::active` with no table index (table 0, `funcref`), an
/// `i32.const 0` offset and these function indices.
#[verifier::external_body]
fn push_elements(s: &mut wasm_encoder::ElementSection, functions: &Vec<u32>)
    requires
        functions@.len() <= u32::MAX,
        element_entries(*old(s)).len() < u32::MAX,
    ensures
        element_entries(*final(s)) == element_entries(*old(s)).push(functions@),
{
    s.active(
        None,
        &wasm_encoder::ConstExpr::i32_const(0),
        wasm_encoder::Elements::Functions(std::borrow::Cow::Borrowed(functions.as_slice())),
    );
}

/// `Module::section` with an element section: writes its id, 9, then the
/// section.
#[verifier::external_body]
fn add_elements(m: &mut wasm_encoder::Module, s: &wasm_encoder::ElementSection)
    requires
        elements_bound(element_entries(*s)) <= SECTION_LIMIT,
    ensures
        module_bytes(*final(m)) == module_bytes(*old(m)) + seq![9u8] + element_section_encoding(element_entries(*s)),
{
    m.section(s);
}

// ---- the code section ----

/// The function bodies written to `s`, each as `Function` writes itself.
pub uninterp spec fn code_entries(s: wasm_encoder::CodeSection) -> Seq<Seq<u8>>;

/// What `wasm_encoder` writes for a code section holding `entries`.
pub uninterp spec fn code_section_encoding(entries: Seq<Seq<u8>>) -> Seq<u8>;

/// The size of a code section's contents: its entries, one after another.
pub open spec fn code_bound(e: Seq<Seq<u8>>) -> nat
    decreases e.len(),
{
    if e.len() == 0 {
        0
    } else {
        code_bound(e.drop_last()) + e.last().len()
    }
}

/// The size of `f`'s body: its locals and instructions.
pub uninterp spec fn function_len(f: wasm_encoder::Function) -> nat;

/// `CodeSection::new`: an empty code section.
pub assume_specification[ wasm_encoder::CodeSection::new ]() -> (s: wasm_encoder::CodeSection)
    ensures
        code_entries(s) == Seq::<Seq<u8>>::empty(),
;

/// `Function::byte_len`: the size of `f`'s body. What `f` writes into a code
/// section is that body after its size, which takes at most five bytes.
#[verifier::external_body]
fn function_byte_len(f: &wasm_encoder::Function) -> (n: usize)
    ensures
        n == function_len(*f),
        n + 1 <= crate::wasm::encode::function_bytes(*f).len() <= n + 5,
{
    f.byte_len()
}

/// `CodeSection::function`: writes `f` into the section. Its body's size
/// must fit in 32 bits.
#[verifier::external_body]
fn push_code(s: &mut wasm_encoder::CodeSection, f: &wasm_encoder::Function)
    requires
        function_len(*f) <= u32::MAX,
        code_entries(*old(s)).len() < u32::MAX,
    ensures
        code_entries(*final(s)) == code_entries(*old(s)).push(crate::wasm::encode::function_bytes(*f)),
{
    s.function(f);
}

/// `Module::section` with a code section: writes its id, 10, then the
/// section.
#[verifier::external_body]
fn add_code(m: &mut wasm_encoder::Module, s: &wasm_encoder::CodeSection)
    requires
        code_bound(code_entries(*s)) <= SECTION_LIMIT,
    ensures
        module_bytes(*final(m)) == module_bytes(*old(m)) + seq![10u8] + code_section_encoding(code_entries(*s)),
{
    m.section(s);
}

// ---- the data section ----

/// The bytes of the active segments for memory 0 at offset 0 added to `s`,
/// in order.
pub uninterp spec fn data_entries(s: wasm_encoder::DataSection) -> Seq<Seq<u8>>;

/// What `wasm_encoder` writes for a data section holding `entries`.
pub uninterp spec fn data_section_encoding(entries: Seq<Seq<u8>>) -> Seq<u8>;

/// A bound on the size of a data section's contents: each segment takes its
/// flag, its offset, its length and its bytes.
pub open spec fn data_bound(e: Seq<Seq<u8>>) -> nat
    decreases e.len(),
{
    if e.len() == 0 {
        0
    } else {
        data_bound(e.drop_last()) + 16 + e.last().len()
    }
}

/// `DataSection::new`: an empty data section.
pub assume_specification[ wasm_encoder::DataSection::new ]() -> (s: wasm_encoder::DataSection)
    ensures
        data_entries(s) == Seq::<Seq<u8>>::empty(),
;

/// `DataSection::active` for memory 0 with an `i32.const 0` offset.
#[verifier::external_body]
fn push_data(s: &mut wasm_encoder::DataSection, data: &Vec<u8>)
    requires
        data@.len() <= u32::MAX,
        data_entries(*old(s)).len() < u32::MAX,
    ensures
        data_entries(*final(s)) == data_entries(*old(s)).push(data@),
{
    s.active(0, &wasm_encoder::ConstExpr::i32_const(0), data.iter().copied());
}

/// `Module::section` with a data section: writes its id, 11, then the
/// section.
#[verifier::external_body]
fn add_data(m: &mut wasm_encoder::Module, s: &wasm_encoder::DataSection)
    requires
        data_bound(data_entries(*s)) <= SECTION_LIMIT,
    ensures
        module_bytes(*final(m)) == module_bytes(*old(m)) + seq![11u8] + data_section_encoding(data_entries(*s)),
{
    m.section(s);
}

// ---- custom sections ----

/// What `wasm_encoder` writes for a custom section with this name and data.
pub uninterp spec fn custom_section_encoding(name: Seq<char>, data: Seq<char>) -> Seq<u8>;

/// `Module::section` with a `CustomSection`: writes its id, 0, then the
/// section, whose name and data are the UTF-8 bytes of `name` and `data`.
#[verifier::external_body]
fn add_custom(m: &mut wasm_encoder::Module, name: &str, data: &str)
    requires
        name.spec_bytes().len() + data.spec_bytes().len() <= SECTION_LIMIT,
    ensures
        module_bytes(*final(m)) == module_bytes(*old(m)) + seq![0u8] + custom_section_encoding(name@, data@),
{
    m.section(&wasm_encoder::CustomSection {
        name: std::borrow::Cow::Borrowed(name),
        data: std::borrow::Cow::Borrowed(data.as_bytes()),
    });
}


// ---- the module image ----

/// The function types of a module, as parameter and result sequences.
pub open spec fn type_view(types: Seq<(Vec<ValTy>, Vec<ValTy>)>) -> Seq<(Seq<ValTy>, Seq<ValTy>)> {
    types.map_values(|t: (Vec<ValTy>, Vec<ValTy>)| (t.0@, t.1@))
}

/// A module's imports, as module, name and type index.
pub open spec fn import_view(imports: Seq<ModuleImport>) -> Seq<(Seq<char>, Seq<char>, u32)> {
    imports.map_values(|i: ModuleImport| (i.module@, i.name@, i.type_index))
}

/// A module's exports, as name, kind and index.
pub open spec fn export_view(exports: Seq<ModuleExport>) -> Seq<(Seq<char>, ExportKind, u32)> {
    exports.map_values(|e: ModuleExport| (e.name@, e.kind, e.index))
}

/// The function indices `0..n`, in order: table entry `i` holds function `i`.
pub open spec fn table_functions(n: u32) -> Seq<u32> {
    Seq::new(n as nat, |i: int| i as u32)
}

/// The code-section entries of a module: the encoded bodies, with the math
/// helpers' entries at the math position.
pub open spec fn code_view(parts: ModuleParts, math: Seq<Seq<u8>>) -> Seq<Seq<u8>> {
    let bodies = parts.bodies@.map_values(|b: Body| body_encoding(b.locals@, b.code@));
    bodies.take(parts.math_position as int) + math + bodies.skip(parts.math_position as int)
}

/// What the math helper functions write into a code section.
pub open spec fn math_view(math: Seq<wasm_encoder::Function>) -> Seq<Seq<u8>> {
    math.map_values(|f: wasm_encoder::Function| function_bytes(f))
}

/// The binary of a module with these parts: the header, then the type,
/// import, function, table, memory, global, export, element, code and data
/// sections, then the `vut.interface` custom section with the metadata. The
/// table is a funcref table of `table_size` entries whose entry `i` is
/// function `i`; memory 0 has `pages` pages and holds the data at address 0;
/// global 0 (the heap pointer) starts at `heap_init` and global 1 at 0.
pub open spec fn module_image(parts: ModuleParts, math: Seq<Seq<u8>>) -> Seq<u8> {
    module_header()
        + seq![1u8] + type_section_encoding(type_view(parts.types@))
        + seq![2u8] + import_section_encoding(import_view(parts.imports@))
        + seq![3u8] + function_section_encoding(parts.function_types@)
        + seq![4u8] + table_section_encoding(seq![parts.table_size])
        + seq![5u8] + memory_section_encoding(seq![parts.pages])
        + seq![6u8] + global_section_encoding(seq![parts.heap_init, 0i32])
        + seq![7u8] + export_section_encoding(export_view(parts.exports@))
        + seq![9u8] + element_section_encoding(seq![table_functions(parts.table_size)])
        + seq![10u8] + code_section_encoding(code_view(parts, math))
        + seq![11u8] + data_section_encoding(seq![parts.data@])
        + seq![0u8] + custom_section_encoding("vut.interface"@, parts.metadata@)
}

/// A compiled module's code section has one entry per entry of its function
/// section: the lowered and helper bodies, with the math helpers among them.
pub proof fn lemma_code_matches_functions(program: &Program, entry: SymbolId, parts: ModuleParts, math: Seq<Seq<u8>>)
    requires
        parts_hold(program, entry, &parts),
        math.len() == MATH_COUNT,
    ensures
        code_view(parts, math).len() == parts.function_types@.len(),
{
}

/// What the code section's checks count for entries `e`: their sizes, and
/// four bytes more for each.
pub open spec fn code_need(e: Seq<Seq<u8>>) -> nat {
    code_bound(e) + 4 * e.len()
}

proof fn lemma_types_prefix(e: Seq<(Seq<ValTy>, Seq<ValTy>)>, n: int)
    requires
        0 <= n <= e.len(),
    ensures
        types_bound(e.take(n)) <= types_bound(e),
    decreases e.len() - n,
{
    if n < e.len() {
        lemma_types_prefix(e, n + 1);
        assert(e.take(n + 1).drop_last() =~= e.take(n));
    } else {
        assert(e.take(n) =~= e);
    }
}

proof fn lemma_imports_prefix(e: Seq<(Seq<char>, Seq<char>, u32)>, n: int)
    requires
        0 <= n <= e.len(),
    ensures
        imports_bound(e.take(n)) <= imports_bound(e),
    decreases e.len() - n,
{
    if n < e.len() {
        lemma_imports_prefix(e, n + 1);
        assert(e.take(n + 1).drop_last() =~= e.take(n));
    } else {
        assert(e.take(n) =~= e);
    }
}

proof fn lemma_exports_prefix(e: Seq<(Seq<char>, ExportKind, u32)>, n: int)
    requires
        0 <= n <= e.len(),
    ensures
        exports_bound(e.take(n)) <= exports_bound(e),
    decreases e.len() - n,
{
    if n < e.len() {
        lemma_exports_prefix(e, n + 1);
        assert(e.take(n + 1).drop_last() =~= e.take(n));
    } else {
        assert(e.take(n) =~= e);
    }
}

proof fn lemma_code_prefix(e: Seq<Seq<u8>>, n: int)
    requires
        0 <= n <= e.len(),
    ensures
        code_need(e.take(n)) <= code_need(e),
    decreases e.len() - n,
{
    if n < e.len() {
        lemma_code_prefix(e, n + 1);
        assert(e.take(n + 1).drop_last() =~= e.take(n));
    } else {
        assert(e.take(n) =~= e);
    }
}

/// The type section of `types`, unless its contents pass the section limit.
fn type_section(types: &Vec<(Vec<ValTy>, Vec<ValTy>)>) -> (r: Option<wasm_encoder::TypeSection>)
    ensures
        r matches Some(s) ==> type_entries(s) == type_view(types@) && types_bound(type_entries(s)) <= SECTION_LIMIT,
        r is Some <==> types_bound(type_view(types@)) <= SECTION_LIMIT,
{
    let ghost view = type_view(types@);
    let mut s = wasm_encoder::TypeSection::new();
    let mut acc: u64 = 0;
    let mut k: usize = 0;
    while k < types.len()
        invariant
            k <= types@.len(),
            view == type_view(types@),
            type_entries(s) == view.take(k as int),
            types_bound(type_entries(s)) == acc as nat,
            acc <= SECTION_LIMIT,
            16 * k <= acc,
        decreases types@.len() - k,
    {
        let p = types[k].0.len() as u64;
        let q = types[k].1.len() as u64;
        if p > SECTION_LIMIT || q > SECTION_LIMIT || acc + 16 + p + q > SECTION_LIMIT {
            proof {
                assert(view.take(k as int + 1).drop_last() =~= view.take(k as int));
                lemma_types_prefix(view, k as int + 1);
            }
            return None;
        }
        let ghost before = type_entries(s);
        push_type(&mut s, &types[k].0, &types[k].1);
        proof {
            assert(type_entries(s).drop_last() =~= before);
            assert(view.take(k as int + 1) =~= view.take(k as int).push(view[k as int]));
        }
        acc = acc + 16 + p + q;
        k = k + 1;
    }
    proof {
        assert(view.take(k as int) =~= view);
    }
    Some(s)
}

/// The import section of `imports`, unless its contents pass the section
/// limit.
fn import_section(imports: &Vec<ModuleImport>) -> (r: Option<wasm_encoder::ImportSection>)
    ensures
        r matches Some(s) ==> import_entries(s) == import_view(imports@)
            && imports_bound(import_entries(s)) <= SECTION_LIMIT,
        r is Some <==> imports_bound(import_view(imports@)) <= SECTION_LIMIT,
{
    let ghost view = import_view(imports@);
    let mut s = wasm_encoder::ImportSection::new();
    let mut acc: u64 = 0;
    let mut k: usize = 0;
    while k < imports.len()
        invariant
            k <= imports@.len(),
            view == import_view(imports@),
            import_entries(s) == view.take(k as int),
            imports_bound(import_entries(s)) == acc as nat,
            acc <= SECTION_LIMIT,
            16 * k <= acc,
        decreases imports@.len() - k,
    {
        let module = imports[k].module.as_str();
        let name = imports[k].name.as_str();
        let p = module.as_bytes().len() as u64;
        let q = name.as_bytes().len() as u64;
        if p > SECTION_LIMIT || q > SECTION_LIMIT || acc + 16 + p + q > SECTION_LIMIT {
            proof {
                assert(view.take(k as int + 1).drop_last() =~= view.take(k as int));
                lemma_imports_prefix(view, k as int + 1);
            }
            return None;
        }
        let ghost before = import_entries(s);
        push_import(&mut s, module, name, imports[k].type_index);
        proof {
            assert(import_entries(s).drop_last() =~= before);
            assert(view.take(k as int + 1) =~= view.take(k as int).push(view[k as int]));
        }
        acc = acc + 16 + p + q;
        k = k + 1;
    }
    proof {
        assert(view.take(k as int) =~= view);
    }
    Some(s)
}

/// The function section of `types`, unless it passes the section limit.
fn function_section(types: &Vec<u32>) -> (r: Option<wasm_encoder::FunctionSection>)
    ensures
        r matches Some(s) ==> function_entries(s) == types@ && 5 * function_entries(s).len() <= SECTION_LIMIT,
        r is Some <==> 5 * types@.len() <= SECTION_LIMIT,
{
    if types.len() > 858_993_458 {
        return None;
    }
    let mut s = wasm_encoder::FunctionSection::new();
    let mut k: usize = 0;
    while k < types.len()
        invariant
            k <= types@.len() <= 858_993_458,
            function_entries(s) == types@.take(k as int),
        decreases types@.len() - k,
    {
        push_function(&mut s, types[k]);
        proof {
            assert(types@.take(k as int + 1) =~= types@.take(k as int).push(types@[k as int]));
        }
        k = k + 1;
    }
    proof {
        assert(types@.take(k as int) =~= types@);
    }
    Some(s)
}

/// The export section of `exports`, unless its contents pass the section
/// limit.
fn export_section(exports: &Vec<ModuleExport>) -> (r: Option<wasm_encoder::ExportSection>)
    ensures
        r matches Some(s) ==> export_entries(s) == export_view(exports@)
            && exports_bound(export_entries(s)) <= SECTION_LIMIT,
        r is Some <==> exports_bound(export_view(exports@)) <= SECTION_LIMIT,
{
    let ghost view = export_view(exports@);
    let mut s = wasm_encoder::ExportSection::new();
    let mut acc: u64 = 0;
    let mut k: usize = 0;
    while k < exports.len()
        invariant
            k <= exports@.len(),
            view == export_view(exports@),
            export_entries(s) == view.take(k as int),
            exports_bound(export_entries(s)) == acc as nat,
            acc <= SECTION_LIMIT,
            16 * k <= acc,
        decreases exports@.len() - k,
    {
        let name = exports[k].name.as_str();
        let p = name.as_bytes().len() as u64;
        if p > SECTION_LIMIT || acc + 16 + p > SECTION_LIMIT {
            proof {
                assert(view.take(k as int + 1).drop_last() =~= view.take(k as int));
                lemma_exports_prefix(view, k as int + 1);
            }
            return None;
        }
        let ghost before = export_entries(s);
        push_export(&mut s, name, exports[k].kind, exports[k].index);
        proof {
            assert(export_entries(s).drop_last() =~= before);
            assert(view.take(k as int + 1) =~= view.take(k as int).push(view[k as int]));
        }
        acc = acc + 16 + p;
        k = k + 1;
    }
    proof {
        assert(view.take(k as int) =~= view);
    }
    Some(s)
}

/// The element section that fills table 0 with functions `0..size`, unless
/// it passes the section limit.
fn element_section(size: u32) -> (r: Option<wasm_encoder::ElementSection>)
    ensures
        r matches Some(s) ==> element_entries(s) == seq![table_functions(size)]
            && elements_bound(element_entries(s)) <= SECTION_LIMIT,
        r is Some <==> 16 + 5 * size <= SECTION_LIMIT,
{
    if size > 858_993_454 {
        return None;
    }
    let mut functions: Vec<u32> = Vec::new();
    let mut i: u32 = 0;
    while i < size
        invariant
            i <= size,
            functions@ == table_functions(size).take(i as int),
        decreases size - i,
    {
        functions.push(i);
        proof {
            assert(table_functions(size).take(i as int + 1) =~= table_functions(size).take(i as int).push(i));
        }
        i = i + 1;
    }
    proof {
        assert(table_functions(size).take(i as int) =~= table_functions(size));
    }
    let mut s = wasm_encoder::ElementSection::new();
    push_elements(&mut s, &functions);
    proof {
        assert(element_entries(s) =~= seq![table_functions(size)]);
        assert(element_entries(s).drop_last() =~= Seq::<Seq<u32>>::empty());
        assert(elements_bound(Seq::<Seq<u32>>::empty()) == 0);
        assert(element_entries(s).last().len() == size);
    }
    Some(s)
}

/// Writes `f` into the code section `s` whose contents so far have bound
/// `*acc` and `*count` entries, unless that passes the section limit.
fn push_code_checked(s: &mut wasm_encoder::CodeSection, f: &wasm_encoder::Function, acc: &mut u64, count: &mut u64) -> (ok: bool)
    requires
        code_bound(code_entries(*old(s))) <= *old(acc) <= SECTION_LIMIT,
        *old(acc) <= code_need(code_entries(*old(s))),
        code_entries(*old(s)).len() == *old(count),
    ensures
        ok <==> (function_len(*f) <= SECTION_LIMIT && *old(acc) + function_len(*f) + 5 <= SECTION_LIMIT
            && *old(count) < 0xffff_fffe),
        ok ==> code_entries(*final(s)) == code_entries(*old(s)).push(function_bytes(*f))
            && *final(acc) == *old(acc) + function_len(*f) + 5 && *final(count) == *old(count) + 1,
        !ok ==> *final(s) == *old(s) && *final(acc) == *old(acc) && *final(count) == *old(count),
        !ok ==> code_need(code_entries(*old(s)).push(function_bytes(*f))) > SECTION_LIMIT || *old(count) >= 0xffff_fffe,
        code_bound(code_entries(*final(s))) <= *final(acc) <= SECTION_LIMIT,
        *final(acc) <= code_need(code_entries(*final(s))),
        code_entries(*final(s)).len() == *final(count),
{
    let n = function_byte_len(f) as u64;
    if n > SECTION_LIMIT || *acc + n + 5 > SECTION_LIMIT || *count >= 0xffff_fffe {
        proof {
            let e = code_entries(*s).push(function_bytes(*f));
            assert(e.drop_last() =~= code_entries(*s));
        }
        return false;
    }
    let ghost before = code_entries(*s);
    push_code(s, f);
    proof {
        assert(code_entries(*s).drop_last() =~= before);
    }
    *acc = *acc + n + 5;
    *count = *count + 1;
    true
}

/// The code section of `parts` with the math helpers `math` at the math
/// position, unless it passes the section limit.
fn code_section(parts: &ModuleParts, math: &Vec<wasm_encoder::Function>) -> (r: Option<wasm_encoder::CodeSection>)
    requires
        parts.math_position <= parts.bodies@.len(),
    ensures
        r matches Some(s) ==> code_entries(s) == code_view(*parts, math_view(math@))
            && code_bound(code_entries(s)) <= SECTION_LIMIT,
        code_need(code_view(*parts, math_view(math@))) <= SECTION_LIMIT
            && code_view(*parts, math_view(math@)).len() < 0xffff_fffe
            && declarations_fit(parts.bodies@) ==> r is Some,
{
    let ghost cv = code_view(*parts, math_view(math@));
    let ghost bv = parts.bodies@.map_values(|b: Body| body_encoding(b.locals@, b.code@));
    let ghost mv = math_view(math@);
    let pos = parts.math_position;
    assert(cv == bv.take(pos as int) + mv + bv.skip(pos as int));
    let mut s = wasm_encoder::CodeSection::new();
    let mut acc: u64 = 0;
    let mut count: u64 = 0;
    let mut i: usize = 0;
    while i < pos
        invariant
            i <= pos <= parts.bodies@.len(),
            bv == parts.bodies@.map_values(|b: Body| body_encoding(b.locals@, b.code@)),
            code_entries(s) == bv.take(i as int),
            code_bound(code_entries(s)) <= acc <= SECTION_LIMIT,
            acc <= code_need(code_entries(s)),
            code_entries(s).len() == count,
            cv == code_view(*parts, math_view(math@)),
            mv == math_view(math@),
            cv == bv.take(pos as int) + mv + bv.skip(pos as int),
        decreases pos - i,
    {
        if parts.bodies[i].locals.len() > 0xffff_ffff {
            return None;
        }
        let f = encode(&parts.bodies[i]);
        if !push_code_checked(&mut s, &f, &mut acc, &mut count) {
            proof {
                assert(cv.take(i as int + 1) =~= bv.take(i as int).push(bv[i as int]));
                lemma_code_prefix(cv, i as int + 1);
            }
            return None;
        }
        proof {
            assert(bv.take(i as int + 1) =~= bv.take(i as int).push(bv[i as int]));
        }
        i = i + 1;
    }
    let mut j: usize = 0;
    while j < math.len()
        invariant
            i == pos <= parts.bodies@.len(),
            bv == parts.bodies@.map_values(|b: Body| body_encoding(b.locals@, b.code@)),
            j <= math@.len(),
            mv == math_view(math@),
            code_entries(s) == bv.take(pos as int) + mv.take(j as int),
            code_bound(code_entries(s)) <= acc <= SECTION_LIMIT,
            acc <= code_need(code_entries(s)),
            code_entries(s).len() == count,
            cv == code_view(*parts, math_view(math@)),
            mv == math_view(math@),
            cv == bv.take(pos as int) + mv + bv.skip(pos as int),
        decreases math@.len() - j,
    {
        if !push_code_checked(&mut s, &math[j], &mut acc, &mut count) {
            proof {
                assert(cv.take(pos as int + j as int + 1) =~= (bv.take(pos as int) + mv.take(j as int)).push(mv[j as int]));
                lemma_code_prefix(cv, pos as int + j as int + 1);
            }
            return None;
        }
        proof {
            assert(mv.take(j as int + 1) =~= mv.take(j as int).push(mv[j as int]));
            assert(bv.take(pos as int) + mv.take(j as int + 1) =~= (bv.take(pos as int) + mv.take(j as int)).push(mv[j as int]));
        }
        j = j + 1;
    }
    proof {
        assert(mv.take(j as int) =~= mv);
    }
    while i < parts.bodies.len()
        invariant
            pos <= i <= parts.bodies@.len(),
            pos == parts.math_position,
            bv == parts.bodies@.map_values(|b: Body| body_encoding(b.locals@, b.code@)),
            code_entries(s) == bv.take(pos as int) + mv + bv.subrange(pos as int, i as int),
            code_bound(code_entries(s)) <= acc <= SECTION_LIMIT,
            acc <= code_need(code_entries(s)),
            code_entries(s).len() == count,
            cv == code_view(*parts, math_view(math@)),
            mv == math_view(math@),
            cv == bv.take(pos as int) + mv + bv.skip(pos as int),
        decreases parts.bodies@.len() - i,
    {
        if parts.bodies[i].locals.len() > 0xffff_ffff {
            return None;
        }
        let f = encode(&parts.bodies[i]);
        if !push_code_checked(&mut s, &f, &mut acc, &mut count) {
            proof {
                let m = mv.len() + i;
                assert(cv.take(m + 1) =~= (bv.take(pos as int) + mv + bv.subrange(pos as int, i as int)).push(bv[i as int]));
                lemma_code_prefix(cv, m + 1);
            }
            return None;
        }
        proof {
            assert(bv.take(pos as int) + mv + bv.subrange(pos as int, i as int + 1) =~= (bv.take(pos as int) + mv
                + bv.subrange(pos as int, i as int)).push(bv[i as int]));
        }
        i = i + 1;
    }
    proof {
        assert(bv.subrange(pos as int, i as int) =~= bv.skip(pos as int));
    }
    Some(s)
}

/// Every body declares at most `u32::MAX` local entries, the most that the
/// encoder writes.
pub open spec fn declarations_fit(bodies: Seq<Body>) -> bool {
    forall|i: int| 0 <= i < bodies.len() ==> (#[trigger] bodies[i]).locals@.len() <= u32::MAX
}

/// The sizes that writing a module with these parts checks: each section's
/// contents bounded by the section limit (the code section with four bytes
/// of slack per function, and fewer than `0xffff_fffe` functions).
pub open spec fn image_fits(parts: ModuleParts, math: Seq<Seq<u8>>) -> bool {
    &&& types_bound(type_view(parts.types@)) <= SECTION_LIMIT
    &&& imports_bound(import_view(parts.imports@)) <= SECTION_LIMIT
    &&& 5 * parts.function_types@.len() <= SECTION_LIMIT
    &&& exports_bound(export_view(parts.exports@)) <= SECTION_LIMIT
    &&& 16 + 5 * parts.table_size <= SECTION_LIMIT
    &&& code_need(code_view(parts, math)) <= SECTION_LIMIT
    &&& code_view(parts, math).len() < 0xffff_fffe
    &&& declarations_fit(parts.bodies@)
    &&& 16 + parts.data@.len() <= SECTION_LIMIT
    &&& encode_utf8("vut.interface"@).len() + encode_utf8(parts.metadata@).len() <= SECTION_LIMIT
}

/// The binary of a module with these parts and these math helpers, or
/// `None` when some section's contents would pass 4 GiB.
pub fn assemble(parts: &ModuleParts, math: &Vec<wasm_encoder::Function>) -> (r: Option<Vec<u8>>)
    requires
        parts.math_position <= parts.bodies@.len(),
    ensures
        r matches Some(bytes) ==> bytes@ == module_image(*parts, math_view(math@)),
        image_fits(*parts, math_view(math@)) ==> r is Some,
{
    let types = match type_section(&parts.types) {
        Some(s) => s,
        None => {
            return None;
        },
    };
    let imports = match import_section(&parts.imports) {
        Some(s) => s,
        None => {
            return None;
        },
    };
    let functions = match function_section(&parts.function_types) {
        Some(s) => s,
        None => {
            return None;
        },
    };
    let exports = match export_section(&parts.exports) {
        Some(s) => s,
        None => {
            return None;
        },
    };
    let elements = match element_section(parts.table_size) {
        Some(s) => s,
        None => {
            return None;
        },
    };
    let code = match code_section(parts, math) {
        Some(s) => s,
        None => {
            return None;
        },
    };
    if parts.data.len() as u64 > SECTION_LIMIT - 16 {
        return None;
    }
    let name = "vut.interface";
    let metadata = parts.metadata.as_str();
    let name_len = name.as_bytes().len() as u64;
    let metadata_len = metadata.as_bytes().len() as u64;
    if name_len > SECTION_LIMIT || metadata_len > SECTION_LIMIT - name_len {
        return None;
    }
    let mut table = wasm_encoder::TableSection::new();
    push_table(&mut table, parts.table_size);
    let mut memory = wasm_encoder::MemorySection::new();
    push_memory(&mut memory, parts.pages);
    let mut globals = wasm_encoder::GlobalSection::new();
    push_global(&mut globals, parts.heap_init);
    push_global(&mut globals, 0);
    let mut data = wasm_encoder::DataSection::new();
    push_data(&mut data, &parts.data);
    proof {
        assert(table_entries(table) =~= seq![parts.table_size]);
        assert(memory_entries(memory) =~= seq![parts.pages]);
        assert(global_entries(globals) =~= seq![parts.heap_init, 0i32]);
        assert(data_entries(data) =~= seq![parts.data@]);
        assert(data_entries(data).drop_last() =~= Seq::<Seq<u8>>::empty());
        assert(data_bound(Seq::<Seq<u8>>::empty()) == 0);
        assert(data_entries(data).last() == parts.data@);
    }
    let mut m = wasm_encoder::Module::new();
    add_types(&mut m, &types);
    add_imports(&mut m, &imports);
    add_functions(&mut m, &functions);
    add_tables(&mut m, &table);
    add_memories(&mut m, &memory);
    add_globals(&mut m, &globals);
    add_exports(&mut m, &exports);
    add_elements(&mut m, &elements);
    add_code(&mut m, &code);
    add_data(&mut m, &data);
    add_custom(&mut m, name, metadata);
    Some(m.finish())
}

impl WasmBackend {
    /// Compiles `program` into an executable wasm module whose start
    /// function runs `entry`, with `math` as the bodies of the math helpers.
    /// Fails as `module_parts` does, or when a section would pass 4 GiB.
    pub fn compile_executable_module(
        &self,
        program: &Program,
        entry: SymbolId,
        math: &Vec<wasm_encoder::Function>,
    ) -> (r: Result<Vec<u8>, CodegenError>)
        requires
            wasm_triple(self.target().triple@) ==> fits_index_space(program) && module_ready(program),
            math@.len() == MATH_COUNT,
        ensures
            wasm_triple(self.target().triple@) && imports_supported(program, entry) && module_lowers(program, entry)
                && (forall|parts: ModuleParts| #[trigger] parts_hold(program, entry, &parts) ==> image_fits(parts, math_view(math@)))
                ==> r is Ok,
            ({
                let arch = triple_architecture(self.target().triple@);
                !(arch == Some(Arch::Wasm32) || arch == Some(Arch::Wasm64))
                    ==> (r matches Err(CodegenError::InvalidTarget(msg))
                        && msg@ == invalid_target_message(self.target().triple@))
            }),
            r matches Ok(bytes) ==> exists|parts: ModuleParts|
                parts_hold(program, entry, &parts) && #[trigger] module_image(parts, math_view(math@)) == bytes@,
            r matches Err(e) ==> (e is Backend || e is InvalidTarget),
            target_and_imports_checked(self.target().triple@, program, entry, r),
    {
        let parts = match self.module_parts(program, entry) {
            Ok(p) => p,
            Err(e) => {
                return Err(e);
            },
        };
        match assemble(&parts, math) {
            Some(bytes) => {
                assert(parts_hold(program, entry, &parts) && module_image(parts, math_view(math@)) == bytes@);
                Ok(bytes)
            },
            None => Err(CodegenError::Backend(String::from_str("wasm backend: a module section exceeds 4 GiB"))),
        }
    }
}

/// The symbol a plain object is compiled from: that of the program's first
/// function, or symbol 0 for a program without functions.
pub open spec fn object_entry(program: &Program) -> SymbolId {
    if program.functions@.len() == 0 { SymbolId(0) } else { program.functions@[0].symbol }
}

/// Emits a plain object for `program` (the same as a final module): the
/// executable module for `wasm32-wasip1` with the program's first function
/// as its entry, and `math` as the bodies of the math helpers.
pub fn compile_object(program: &Program, math: &Vec<wasm_encoder::Function>) -> (r: Result<Vec<u8>, CodegenError>)
    requires
        fits_index_space(program),
        module_ready(program),
        math@.len() == MATH_COUNT,
    ensures
        imports_supported(program, object_entry(program)) && module_lowers(program, object_entry(program)) && (forall|
            parts: ModuleParts,
        | #[trigger] parts_hold(program, object_entry(program), &parts) ==> image_fits(parts, math_view(math@))) ==> r is Ok,
        r matches Ok(bytes) ==> exists|parts: ModuleParts|
            parts_hold(program, object_entry(program), &parts) && #[trigger] module_image(parts, math_view(math@)) == bytes@,
        r matches Err(e) ==> e is Backend,
        target_and_imports_checked("wasm32-wasip1"@, program, object_entry(program), r),
{
    let triple = "wasm32-wasip1";
    let wasm = crate::wasm::layout::is_wasm_target(triple);
    assert(wasm_triple(triple@));
    let entry = if program.functions.len() == 0 { SymbolId(0) } else { program.functions[0].symbol };
    let backend = WasmBackend::new(Target::portable(triple));
    backend.compile_executable_module(program, entry, math)
}

} // verus!
