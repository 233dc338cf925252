//! The binary encoding of WebAssembly modules: their components, their sections and the
//! preamble that starts them.
//!
//! See <https://webassembly.github.io/spec/core/binary/modules.html>
use crate::compiler::emitter::instruction::{
    emit_expression, emit_indices, emitted, expression_encoding, followed_by,
};
use crate::compiler::emitter::types::{
    concat, emit_function_type, emit_global_type, emit_memory_type, emit_reference_type,
    emit_table_type, emit_value_type, function_type_encoding, global_type_encoding,
    lemma_concat_all, lemma_concat_step, memory_type_encoding, reference_type_byte,
    table_type_encoding, value_type_encoding, vector_encoding,
};
use crate::compiler::emitter::values::{
    bytes_encoding, emit_byte, emit_bytes, emit_i32, emit_name, emit_u32, emit_usize,
    leb128_signed, leb128_unsigned, name_encoding,
};
use crate::compiler::emitter::Emit;
use crate::compiler::errors::CompilerError;
use crate::web_assembly::{
    Data, DataMode, Element, ElementInitializer, ElementMode, Export, ExportDescription,
    Expression, Function, FunctionType, Global, Import, ImportDescription, Memory, Module, Name,
    ReferenceType, Start, Table, ValueType,
};
use vstd::prelude::*;

verus! {

/// `before` is kept at the start of `after`.
pub open spec fn extends(before: Seq<u8>, after: Seq<u8>) -> bool {
    before.is_prefix_of(after)
}

proof fn lemma_extends_transitive(a: Seq<u8>, b: Seq<u8>, c: Seq<u8>)
    requires
        a.is_prefix_of(b),
        b.is_prefix_of(c),
    ensures
        a.is_prefix_of(c),
{
    assert(c.subrange(0, a.len() as int) =~= b.subrange(0, a.len() as int));
}

proof fn lemma_extends_append(a: Seq<u8>, b: Seq<u8>)
    ensures
        a.is_prefix_of(a + b),
{
    assert((a + b).subrange(0, a.len() as int) =~= a);
}

/// The encodings of `items`, one after the other; `None` where one of them has none.
pub open spec fn encodings<T: Emit>(items: Seq<T>) -> Option<Seq<u8>>
    decreases items.len(),
{
    if items.len() == 0 {
        Some(Seq::empty())
    } else {
        followed_by(encodings(items.drop_last()), items.last().encoding())
    }
}

/// A vector: its length, then the encoding of each item in order.
pub open spec fn vector_of<T: Emit>(items: Seq<T>) -> Option<Seq<u8>> {
    followed_by(Some(leb128_unsigned(items.len())), encodings(items))
}

proof fn lemma_encodings_failure_extends<T: Emit>(s: Seq<T>, k: int)
    requires
        0 <= k <= s.len(),
        encodings(s.take(k)) is None,
    ensures
        encodings(s) is None,
    decreases s.len() - k,
{
    if k < s.len() {
        assert(s.take(k + 1).drop_last() =~= s.take(k));
        lemma_encodings_failure_extends(s, k + 1);
    } else {
        assert(s.take(k) =~= s);
    }
}

/// Emits a vector: its length, then each item in order.
pub fn emit_vector<T: Emit>(items: &[T], output: &mut Vec<u8>) -> (r: Result<usize, CompilerError>)
    ensures
        emitted(old(output)@, final(output)@, r, vector_of(items@)),
{
    let start = output.len();
    emit_usize(items.len(), output);
    let ghost s = items@;
    let ghost prefix = output@;
    let mut i: usize = 0;
    assert(s.take(0) =~= Seq::<T>::empty());
    while i < items.len()
        invariant
            s == items@,
            i <= s.len(),
            start == old(output)@.len(),
            prefix == old(output)@ + leb128_unsigned(s.len()),
            encodings(s.take(i as int)) is Some,
            output@ == prefix + encodings(s.take(i as int))->0,
        decreases s.len() - i,
    {
        assert(s.take(i as int + 1).drop_last() =~= s.take(i as int));
        assert(s.take(i as int + 1).last() == s[i as int]);
        match items[i].emit(output) {
            Ok(_) => {},
            Err(e) => {
                proof {
                    lemma_encodings_failure_extends(s, i as int + 1);
                    assert(output@.subrange(0, old(output)@.len() as int) =~= old(output)@);
                }
                return Err(e);
            },
        }
        i = i + 1;
    }
    assert(s.take(s.len() as int) =~= s);
    assert(output@ =~= old(output)@ + vector_of(s)->0);
    Ok(output.len() - start)
}

/// The sections of a module, each given by its id.
#[derive(Clone, Copy, Debug, PartialEq, Eq, Structural)]
pub enum ModuleSection {
    /// Custom sections have the id 0.
    /// They are intended to be used for debugging information or third-party extensions,
    /// and are ignored by the WebAssembly semantics.
    /// Their contents consist of a name further identifying the custom section,
    /// followed by an uninterpreted sequence of bytes for custom use.
    CustomSection,
    /// The type section has the id 1.
    /// It decodes into a vector of function types that represent the types of a module.
    TypeSection,
    /// The import section has the id 2.
    /// It decodes into a vector of imports that represent the imports of a module.
    ImportSection,
    /// The function section has the id 3.
    /// It decodes into a vector of type indices that represent the type fields of the functions
    /// of a module. Their locals and bodies are encoded separately in the code section.
    FunctionSection,
    /// The table section has the id 4.
    /// It decodes into a vector of tables that represent the tables of a module.
    TableSection,
    /// The memory section has the id 5.
    /// It decodes into a vector of memories that represent the memories of a module.
    MemorySection,
    /// The global section has the id 6.
    /// It decodes into a vector of globals that represent the globals of a module.
    GlobalSection,
    /// The export section has the id 7.
    /// It decodes into a vector of exports that represent the exports of a module.
    ExportSection,
    /// The start section has the id 8.
    /// It decodes into an optional start function that represents the start of a module.
    StartSection,
    /// The element section has the id 9.
    /// It decodes into a vector of element segments that represent the elements of a module.
    ElementSection,
    /// The code section has the id 10.
    /// It decodes into a vector of code entries that are pairs of value type vectors and
    /// expressions: the locals and bodies of the functions of a module.
    CodeSection,
    /// The data section has the id 11.
    /// It decodes into a vector of data segments that represent the data of a module.
    DataSection,
    /// The data count section has the id 12.
    /// It decodes into an optional count of the data segments in the data section.
    DataCountSection,
}

/// The id of a section.
pub open spec fn section_id(section: ModuleSection) -> u8 {
    match section {
        ModuleSection::CustomSection => 0,
        ModuleSection::TypeSection => 1,
        ModuleSection::ImportSection => 2,
        ModuleSection::FunctionSection => 3,
        ModuleSection::TableSection => 4,
        ModuleSection::MemorySection => 5,
        ModuleSection::GlobalSection => 6,
        ModuleSection::ExportSection => 7,
        ModuleSection::StartSection => 8,
        ModuleSection::ElementSection => 9,
        ModuleSection::CodeSection => 10,
        ModuleSection::DataSection => 11,
        ModuleSection::DataCountSection => 12,
    }
}

impl ModuleSection {
    /// The id of this section.
    pub fn id(&self) -> (r: u8)
        ensures
            r == section_id(*self),
    {
        match self {
            ModuleSection::CustomSection => 0,
            ModuleSection::TypeSection => 1,
            ModuleSection::ImportSection => 2,
            ModuleSection::FunctionSection => 3,
            ModuleSection::TableSection => 4,
            ModuleSection::MemorySection => 5,
            ModuleSection::GlobalSection => 6,
            ModuleSection::ExportSection => 7,
            ModuleSection::StartSection => 8,
            ModuleSection::ElementSection => 9,
            ModuleSection::CodeSection => 10,
            ModuleSection::DataSection => 11,
            ModuleSection::DataCountSection => 12,
        }
    }
}

/// Emits the id of a module section.
pub fn emit_module_section(section: ModuleSection, output: &mut Vec<u8>) -> (r: usize)
    ensures
        final(output)@ == old(output)@.push(section_id(section)),
        r == 1,
{
    emit_byte(section.id(), output)
}

/// A section: its id, the length of its content, then the content.
pub open spec fn section_encoding(section: ModuleSection, content: Seq<u8>) -> Seq<u8> {
    seq![section_id(section)] + leb128_unsigned(content.len()) + content
}

/// Emits a section whose content has been emitted to `content`.
fn emit_section(section: ModuleSection, content: &Vec<u8>, output: &mut Vec<u8>) -> (r: usize)
    ensures
        final(output)@ == old(output)@ + section_encoding(section, content@),
        r == section_encoding(section, content@).len(),
{
    let start = output.len();
    emit_module_section(section, output);
    emit_usize(content.len(), output);
    emit_bytes(content.as_slice(), output, false);
    assert(output@ =~= old(output)@ + section_encoding(section, content@));
    output.len() - start
}

/// Custom content: a name, then uninterpreted bytes.
pub open spec fn custom_content_encoding(name: Seq<u8>, content: Seq<u8>) -> Seq<u8> {
    bytes_encoding(name, true) + content
}

/// Emits named custom content.
fn emit_custom_content(name: &Name, content: &[u8], output: &mut Vec<u8>) -> (r: usize)
    ensures
        final(output)@ == old(output)@ + custom_content_encoding(name.bytes@, content@),
        r == custom_content_encoding(name.bytes@, content@).len(),
{
    let start = output.len();
    emit_name(name, output);
    emit_bytes(content, output, false);
    assert(output@ =~= old(output)@ + custom_content_encoding(name.bytes@, content@));
    output.len() - start
}

/// An import description: a tag for the kind of definition, then its type.
pub open spec fn import_description_encoding(description: ImportDescription) -> Seq<u8> {
    match description {
        ImportDescription::Function(index) => seq![0x00u8] + leb128_unsigned(index as nat),
        ImportDescription::Table(kind) => seq![0x01u8] + table_type_encoding(kind),
        ImportDescription::Memory(kind) => seq![0x02u8] + memory_type_encoding(kind),
        ImportDescription::Global(kind) => seq![0x03u8] + global_type_encoding(kind),
    }
}

/// An import: the name of the module, the name of the definition, then its description.
pub open spec fn import_encoding(import: Import) -> Seq<u8> {
    name_encoding(import.module) + name_encoding(import.name) + import_description_encoding(
        import.description,
    )
}

/// An export description: a tag for the kind of definition as a signed integer, then its
/// index.
pub open spec fn export_description_encoding(description: ExportDescription) -> Seq<u8> {
    match description {
        ExportDescription::Function(index) => leb128_signed(0) + leb128_unsigned(index as nat),
        ExportDescription::Table(index) => leb128_signed(1) + leb128_unsigned(index as nat),
        ExportDescription::Memory(index) => leb128_signed(2) + leb128_unsigned(index as nat),
        ExportDescription::Global(index) => leb128_signed(3) + leb128_unsigned(index as nat),
    }
}

/// An export: its name, then its description.
pub open spec fn export_encoding(export: Export) -> Seq<u8> {
    name_encoding(export.name) + export_description_encoding(export.description)
}

/// A global: its type, then the expression that initializes it.
pub open spec fn global_encoding(global: Global) -> Option<Seq<u8>> {
    followed_by(Some(global_type_encoding(global.kind)), expression_encoding(global.initializer))
}

/// The vector of the function indices of an element segment.
pub open spec fn indices_encoding(indices: Seq<usize>) -> Seq<u8> {
    vector_encoding(indices, |i: usize| leb128_unsigned(i as nat))
}

/// An element segment: a tag for its initializers, mode, table and reference type, then what
/// the tag calls for. Function indices always stand for function references, written with
/// the element kind `0x00`: function indices of external references have no encoding.
pub open spec fn element_encoding(element: Element) -> Option<Seq<u8>> {
    let kind = element.kind;
    let function = kind == ReferenceType::Function;
    match (element.initializers, element.mode) {
        (ElementInitializer::FunctionIndex(_), _) if !function => None,
        (ElementInitializer::FunctionIndex(indices), ElementMode::Active(table, offset)) => {
            if table == 0 {
                followed_by(
                    followed_by(Some(seq![0x00u8]), expression_encoding(offset)),
                    Some(indices_encoding(indices@)),
                )
            } else {
                followed_by(
                    followed_by(
                        Some(seq![0x02u8] + leb128_unsigned(table as nat)),
                        expression_encoding(offset),
                    ),
                    Some(seq![0x00u8] + indices_encoding(indices@)),
                )
            }
        },
        (ElementInitializer::FunctionIndex(indices), ElementMode::Passive) => Some(
            seq![0x01u8, 0x00u8] + indices_encoding(indices@),
        ),
        (ElementInitializer::FunctionIndex(indices), ElementMode::Declarative) => Some(
            seq![0x03u8, 0x00u8] + indices_encoding(indices@),
        ),
        (ElementInitializer::Expression(expressions), ElementMode::Active(table, offset)) => {
            if table == 0 && function {
                followed_by(
                    followed_by(Some(seq![0x04u8]), expression_encoding(offset)),
                    vector_of(expressions@),
                )
            } else {
                followed_by(
                    followed_by(
                        Some(seq![0x06u8] + leb128_unsigned(table as nat)),
                        expression_encoding(offset),
                    ),
                    followed_by(Some(seq![reference_type_byte(kind)]), vector_of(expressions@)),
                )
            }
        },
        (ElementInitializer::Expression(expressions), ElementMode::Passive) => followed_by(
            Some(seq![0x05u8, reference_type_byte(kind)]),
            vector_of(expressions@),
        ),
        (ElementInitializer::Expression(expressions), ElementMode::Declarative) => followed_by(
            Some(seq![0x07u8, reference_type_byte(kind)]),
            vector_of(expressions@),
        ),
    }
}

/// A data segment: a tag for its mode and memory, what the tag calls for, then the vector of
/// its bytes.
pub open spec fn data_encoding(data: Data) -> Option<Seq<u8>> {
    let mode = match data.mode {
        DataMode::Active(memory, offset) => {
            if memory == 0 {
                followed_by(Some(seq![0x00u8]), expression_encoding(offset))
            } else {
                followed_by(
                    Some(seq![0x02u8] + leb128_unsigned(memory as nat)),
                    expression_encoding(offset),
                )
            }
        },
        DataMode::Passive => Some(seq![0x01u8]),
    };
    followed_by(mode, Some(bytes_encoding(data.initializer@, true)))
}

/// The locals of a function: their count, then each as a count of 1 and its type.
pub open spec fn locals_encoding(locals: Seq<ValueType>) -> Seq<u8> {
    vector_encoding(locals, |k: ValueType| leb128_unsigned(1) + value_type_encoding(k))
}

/// The code of a function: its locals, then its body.
pub open spec fn code_encoding(function: Function) -> Option<Seq<u8>> {
    followed_by(Some(locals_encoding(function.locals.kinds@)), expression_encoding(function.body))
}

/// The entry of a function in the code section: the size of its code, then its code.
pub open spec fn function_encoding(function: Function) -> Option<Seq<u8>> {
    match code_encoding(function) {
        Some(code) => Some(leb128_unsigned(code.len()) + code),
        None => None,
    }
}

/// Emits an import description.
pub fn emit_import_description(description: &ImportDescription, output: &mut Vec<u8>) -> (r:
    usize)
    ensures
        final(output)@ == old(output)@ + import_description_encoding(*description),
        r == import_description_encoding(*description).len(),
{
    let start = output.len();
    match description {
        ImportDescription::Function(index) => {
            emit_byte(0x00u8, output);
            emit_usize(*index, output);
        },
        ImportDescription::Table(kind) => {
            emit_byte(0x01u8, output);
            emit_table_type(kind, output);
        },
        ImportDescription::Memory(kind) => {
            emit_byte(0x02u8, output);
            emit_memory_type(kind, output);
        },
        ImportDescription::Global(kind) => {
            emit_byte(0x03u8, output);
            emit_global_type(kind, output);
        },
    }
    assert(output@ =~= old(output)@ + import_description_encoding(*description));
    output.len() - start
}

/// Emits an import.
pub fn emit_import(import: &Import, output: &mut Vec<u8>) -> (r: usize)
    ensures
        final(output)@ == old(output)@ + import_encoding(*import),
        r == import_encoding(*import).len(),
{
    let start = output.len();
    emit_name(&import.module, output);
    emit_name(&import.name, output);
    emit_import_description(&import.description, output);
    assert(output@ =~= old(output)@ + import_encoding(*import));
    output.len() - start
}

/// Emits a table.
pub fn emit_table(table: &Table, output: &mut Vec<u8>) -> (r: usize)
    ensures
        final(output)@ == old(output)@ + table_type_encoding(table.kind),
        r == table_type_encoding(table.kind).len(),
{
    emit_table_type(&table.kind, output)
}

/// Emits a memory.
pub fn emit_memory(memory: &Memory, output: &mut Vec<u8>) -> (r: usize)
    ensures
        final(output)@ == old(output)@ + memory_type_encoding(memory.kind),
        r == memory_type_encoding(memory.kind).len(),
{
    emit_memory_type(&memory.kind, output)
}

/// Emits a global.
pub fn emit_global(global: &Global, output: &mut Vec<u8>) -> (r: Result<usize, CompilerError>)
    ensures
        emitted(old(output)@, final(output)@, r, global_encoding(*global)),
{
    let start = output.len();
    emit_global_type(&global.kind, output);
    let ghost middle = output@;
    match emit_expression(&global.initializer, output) {
        Ok(_) => {},
        Err(e) => {
            proof {
                lemma_extends_append(old(output)@, middle.subrange(old(output)@.len() as int, middle.len() as int));
                assert(old(output)@ + middle.subrange(old(output)@.len() as int, middle.len() as int) =~= middle);
                lemma_extends_transitive(old(output)@, middle, output@);
            }
            return Err(e);
        },
    }
    assert(output@ =~= old(output)@ + global_encoding(*global)->0);
    Ok(output.len() - start)
}

/// Emits an export description.
pub fn emit_export_description(description: &ExportDescription, output: &mut Vec<u8>) -> (r:
    usize)
    ensures
        final(output)@ == old(output)@ + export_description_encoding(*description),
        r == export_description_encoding(*description).len(),
{
    let start = output.len();
    let (tag, index): (i32, usize) = match description {
        ExportDescription::Function(index) => (0, *index),
        ExportDescription::Table(index) => (1, *index),
        ExportDescription::Memory(index) => (2, *index),
        ExportDescription::Global(index) => (3, *index),
    };
    emit_i32(tag, output);
    emit_usize(index, output);
    assert(output@ =~= old(output)@ + export_description_encoding(*description));
    output.len() - start
}

/// Emits an export.
pub fn emit_export(export: &Export, output: &mut Vec<u8>) -> (r: usize)
    ensures
        final(output)@ == old(output)@ + export_encoding(*export),
        r == export_encoding(*export).len(),
{
    let start = output.len();
    emit_name(&export.name, output);
    emit_export_description(&export.description, output);
    assert(output@ =~= old(output)@ + export_encoding(*export));
    output.len() - start
}

/// Emits the start function of a module: its index.
pub fn emit_start(start: &Start, output: &mut Vec<u8>) -> (r: usize)
    ensures
        final(output)@ == old(output)@ + leb128_unsigned(start.function as nat),
        r == leb128_unsigned(start.function as nat).len(),
{
    emit_usize(start.function, output)
}

impl Emit for Expression {
    open spec fn encoding(&self) -> Option<Seq<u8>> {
        expression_encoding(*self)
    }

    fn emit(&self, output: &mut Vec<u8>) -> (r: Result<usize, CompilerError>) {
        emit_expression(self, output)
    }
}

impl Emit for FunctionType {
    open spec fn encoding(&self) -> Option<Seq<u8>> {
        Some(function_type_encoding(*self))
    }

    fn emit(&self, output: &mut Vec<u8>) -> (r: Result<usize, CompilerError>) {
        Ok(emit_function_type(self, output))
    }
}

impl Emit for Import {
    open spec fn encoding(&self) -> Option<Seq<u8>> {
        Some(import_encoding(*self))
    }

    fn emit(&self, output: &mut Vec<u8>) -> (r: Result<usize, CompilerError>) {
        Ok(emit_import(self, output))
    }
}

impl Emit for Table {
    open spec fn encoding(&self) -> Option<Seq<u8>> {
        Some(table_type_encoding(self.kind))
    }

    fn emit(&self, output: &mut Vec<u8>) -> (r: Result<usize, CompilerError>) {
        Ok(emit_table(self, output))
    }
}

impl Emit for Memory {
    open spec fn encoding(&self) -> Option<Seq<u8>> {
        Some(memory_type_encoding(self.kind))
    }

    fn emit(&self, output: &mut Vec<u8>) -> (r: Result<usize, CompilerError>) {
        Ok(emit_memory(self, output))
    }
}

impl Emit for Global {
    open spec fn encoding(&self) -> Option<Seq<u8>> {
        global_encoding(*self)
    }

    fn emit(&self, output: &mut Vec<u8>) -> (r: Result<usize, CompilerError>) {
        emit_global(self, output)
    }
}

impl Emit for Export {
    open spec fn encoding(&self) -> Option<Seq<u8>> {
        Some(export_encoding(*self))
    }

    fn emit(&self, output: &mut Vec<u8>) -> (r: Result<usize, CompilerError>) {
        Ok(emit_export(self, output))
    }
}

impl Emit for Element {
    open spec fn encoding(&self) -> Option<Seq<u8>> {
        element_encoding(*self)
    }

    fn emit(&self, output: &mut Vec<u8>) -> (r: Result<usize, CompilerError>) {
        emit_element(self, output)
    }
}

impl Emit for Data {
    open spec fn encoding(&self) -> Option<Seq<u8>> {
        data_encoding(*self)
    }

    fn emit(&self, output: &mut Vec<u8>) -> (r: Result<usize, CompilerError>) {
        emit_data(self, output)
    }
}

impl Emit for Function {
    open spec fn encoding(&self) -> Option<Seq<u8>> {
        function_encoding(*self)
    }

    fn emit(&self, output: &mut Vec<u8>) -> (r: Result<usize, CompilerError>) {
        emit_function(self, output)
    }
}

/// Emits an expression that follows the part of a segment written after `before`; on
/// failure `before` is kept at the start of the output.
fn emit_offset(offset: &Expression, output: &mut Vec<u8>, Ghost(before): Ghost<Seq<u8>>) -> (r:
    Result<usize, CompilerError>)
    requires
        before.is_prefix_of(old(output)@),
    ensures
        r is Ok ==> expression_encoding(*offset) is Some && final(output)@ == old(output)@
            + expression_encoding(*offset)->0,
        r is Err ==> expression_encoding(*offset) is None && r == Err::<usize, CompilerError>(
            CompilerError::InvalidSyntax,
        ) && before.is_prefix_of(final(output)@),
{
    let r = emit_expression(offset, output);
    proof {
        if r is Err {
            lemma_extends_transitive(before, old(output)@, output@);
        }
    }
    r
}

/// What emitting part of a module leaves: on success, the output followed by the encoding;
/// on a syntax error, the output followed by whatever was written before the error was found.
pub open spec fn built_onto(
    before: Seq<u8>,
    after: Seq<u8>,
    r: Result<(), CompilerError>,
    encoding: Option<Seq<u8>>,
) -> bool {
    match encoding {
        Some(bytes) => r is Ok && after == before + bytes,
        None => r == Err::<(), CompilerError>(CompilerError::InvalidSyntax) && before.is_prefix_of(after),
    }
}

/// Emits an element segment of function indices.
fn build_indices_element(
    kind: ReferenceType,
    indices: &Vec<usize>,
    mode: &ElementMode,
    output: &mut Vec<u8>,
) -> (r: Result<(), CompilerError>)
    ensures
        built_onto(
            old(output)@,
            final(output)@,
            r,
            element_encoding(
                Element { kind, mode: *mode, initializers: ElementInitializer::FunctionIndex(*indices) },
            ),
        ),
        kind != ReferenceType::Function ==> final(output)@ == old(output)@,
{
    let ghost element = Element { kind, mode: *mode, initializers: ElementInitializer::FunctionIndex(*indices) };
    if kind != ReferenceType::Function {
        return Err(CompilerError::InvalidSyntax);
    }
    match mode {
        ElementMode::Active(table, offset) => {
            if *table == 0 {
                emit_byte(0x00u8, output);
            } else {
                emit_byte(0x02u8, output);
                emit_usize(*table, output);
            }
            let ghost header = output@;
            proof {
                assert(header.subrange(0, old(output)@.len() as int) =~= old(output)@);
            }
            match emit_expression(offset, output) {
                Ok(_) => {},
                Err(e) => {
                    proof {
                        lemma_extends_transitive(old(output)@, header, output@);
                    }
                    return Err(e);
                },
            }
            if *table != 0 {
                emit_byte(0x00u8, output);
            }
        },
        ElementMode::Passive => {
            emit_byte(0x01u8, output);
            emit_byte(0x00u8, output);
        },
        ElementMode::Declarative => {
            emit_byte(0x03u8, output);
            emit_byte(0x00u8, output);
        },
    }
    emit_indices(indices.as_slice(), output);
    assert(output@ =~= old(output)@ + element_encoding(element)->0);
    Ok(())
}

/// Emits an element segment of expressions.
fn build_expressions_element(
    kind: ReferenceType,
    expressions: &Vec<Expression>,
    mode: &ElementMode,
    output: &mut Vec<u8>,
) -> (r: Result<(), CompilerError>)
    ensures
        built_onto(
            old(output)@,
            final(output)@,
            r,
            element_encoding(
                Element { kind, mode: *mode, initializers: ElementInitializer::Expression(*expressions) },
            ),
        ),
{
    let ghost element = Element { kind, mode: *mode, initializers: ElementInitializer::Expression(*expressions) };
    let function = kind == ReferenceType::Function;
    match mode {
        ElementMode::Active(table, offset) => {
            if *table == 0 && function {
                emit_byte(0x04u8, output);
            } else {
                emit_byte(0x06u8, output);
                emit_usize(*table, output);
            }
            let ghost header = output@;
            proof {
                assert(header.subrange(0, old(output)@.len() as int) =~= old(output)@);
            }
            match emit_expression(offset, output) {
                Ok(_) => {},
                Err(e) => {
                    proof {
                        lemma_extends_transitive(old(output)@, header, output@);
                    }
                    return Err(e);
                },
            }
            if !(*table == 0 && function) {
                emit_reference_type(&kind, output);
            }
        },
        ElementMode::Passive => {
            emit_byte(0x05u8, output);
            emit_reference_type(&kind, output);
        },
        ElementMode::Declarative => {
            emit_byte(0x07u8, output);
            emit_reference_type(&kind, output);
        },
    }
    let ghost header = output@;
    proof {
        assert(header.subrange(0, old(output)@.len() as int) =~= old(output)@);
    }
    match emit_vector(expressions.as_slice(), output) {
        Ok(_) => {},
        Err(e) => {
            proof {
                lemma_extends_transitive(old(output)@, header, output@);
            }
            return Err(e);
        },
    }
    assert(output@ =~= old(output)@ + element_encoding(element)->0);
    Ok(())
}

/// Emits an element segment. Function indices of external references are a syntax error,
/// found before anything is written; an offset or an expression that has no encoding is a
/// syntax error found while writing, and the bytes written before it stay.
pub fn emit_element(element: &Element, output: &mut Vec<u8>) -> (r: Result<usize, CompilerError>)
    ensures
        emitted(old(output)@, final(output)@, r, element_encoding(*element)),
        element.initializers is FunctionIndex && element.kind != ReferenceType::Function
            ==> final(output)@ == old(output)@,
{
    let start = output.len();
    let built = match &element.initializers {
        ElementInitializer::FunctionIndex(indices) => build_indices_element(element.kind, indices, &element.mode, output),
        ElementInitializer::Expression(expressions) => build_expressions_element(element.kind, expressions, &element.mode, output),
    };
    match built {
        Ok(()) => {},
        Err(e) => {
            return Err(e);
        },
    }
    Ok(output.len() - start)
}

/// Emits a data segment.
pub fn emit_data(data: &Data, output: &mut Vec<u8>) -> (r: Result<usize, CompilerError>)
    ensures
        emitted(old(output)@, final(output)@, r, data_encoding(*data)),
{
    let start = output.len();
    let ghost before = output@;
    match &data.mode {
        DataMode::Active(memory, offset) => {
            if *memory == 0 {
                emit_byte(0x00u8, output);
            } else {
                emit_byte(0x02u8, output);
                emit_usize(*memory, output);
            }
            proof { lemma_extends_append(before, output@.subrange(before.len() as int, output@.len() as int)); assert(before + output@.subrange(before.len() as int, output@.len() as int) =~= output@); }
            emit_offset(offset, output, Ghost(before))?;
        },
        DataMode::Passive => {
            emit_byte(0x01u8, output);
        },
    }
    emit_bytes(data.initializer.as_slice(), output, true);
    assert(output@ =~= old(output)@ + data_encoding(*data)->0);
    Ok(output.len() - start)
}

/// Emits the locals of a function.
fn emit_locals(locals: &[ValueType], output: &mut Vec<u8>) -> (r: usize)
    ensures
        final(output)@ == old(output)@ + locals_encoding(locals@),
        r == locals_encoding(locals@).len(),
{
    let ghost f = |k: ValueType| leb128_unsigned(1) + value_type_encoding(k);
    let start = output.len();
    emit_usize(locals.len(), output);
    let ghost prefix = output@;
    let mut i: usize = 0;
    while i < locals.len()
        invariant
            i <= locals@.len(),
            f == (|k: ValueType| leb128_unsigned(1) + value_type_encoding(k)),
            output@ == prefix + concat(locals@.take(i as int), f),
        decreases locals.len() - i,
    {
        emit_u32(1u32, output);
        emit_value_type(&locals[i], output);
        proof {
            lemma_concat_step(locals@, i as int, f);
        }
        i = i + 1;
    }
    proof {
        lemma_concat_all(locals@, f);
    }
    assert(output@ =~= old(output)@ + locals_encoding(locals@));
    output.len() - start
}

/// Emits the entry of a function in the code section. Its code is emitted to a buffer first,
/// so that its size can precede it; on failure nothing is written.
fn emit_function(function: &Function, output: &mut Vec<u8>) -> (r: Result<usize, CompilerError>)
    ensures
        emitted(old(output)@, final(output)@, r, function_encoding(*function)),
{
    let mut buffer: Vec<u8> = Vec::new();
    emit_locals(function.locals.kinds(), &mut buffer);
    match emit_expression(&function.body, &mut buffer) {
        Ok(_) => {},
        Err(e) => {
            proof {
                lemma_extends_append(output@, Seq::empty());
                assert(output@ + Seq::<u8>::empty() =~= output@);
            }
            return Err(e);
        },
    }
    let start = output.len();
    emit_usize(buffer.len(), output);
    emit_bytes(buffer.as_slice(), output, false);
    assert(output@ =~= old(output)@ + function_encoding(*function)->0);
    Ok(output.len() - start)
}

/// A section of a vector of items, left out where there are none.
pub open spec fn vector_section<T: Emit>(section: ModuleSection, items: Seq<T>) -> Option<Seq<u8>> {
    if items.len() == 0 {
        Some(Seq::empty())
    } else {
        match vector_of(items) {
            Some(content) => Some(section_encoding(section, content)),
            None => None,
        }
    }
}

/// The function section: the vector of the type indices of the functions, left out where
/// there are none.
pub open spec fn function_section(functions: Seq<Function>) -> Seq<u8> {
    if functions.len() == 0 {
        Seq::empty()
    } else {
        section_encoding(
            ModuleSection::FunctionSection,
            vector_encoding(functions, |f: Function| leb128_unsigned(f.kind as nat)),
        )
    }
}

/// The start section, left out where there is no start function.
pub open spec fn start_section(start: Option<Start>) -> Seq<u8> {
    match start {
        Some(start) => section_encoding(
            ModuleSection::StartSection,
            leb128_unsigned(start.function as nat),
        ),
        None => Seq::empty(),
    }
}

/// The data count section: the number of data segments, left out where there are none.
pub open spec fn data_count_section(data: Seq<Data>) -> Seq<u8> {
    if data.len() == 0 {
        Seq::empty()
    } else {
        section_encoding(ModuleSection::DataCountSection, leb128_unsigned(data.len()))
    }
}

/// The `k`-th section of a module in the order that the binary format prescribes, left out
/// where the module has nothing for it.
pub open spec fn section_part(module: Module, k: nat) -> Option<Seq<u8>> {
    if k == 0 {
        vector_section(ModuleSection::TypeSection, module.types@)
    } else if k == 1 {
        vector_section(ModuleSection::ImportSection, module.imports@)
    } else if k == 2 {
        Some(function_section(module.functions@))
    } else if k == 3 {
        vector_section(ModuleSection::TableSection, module.tables@)
    } else if k == 4 {
        vector_section(ModuleSection::MemorySection, module.memories@)
    } else if k == 5 {
        vector_section(ModuleSection::GlobalSection, module.globals@)
    } else if k == 6 {
        vector_section(ModuleSection::ExportSection, module.exports@)
    } else if k == 7 {
        Some(start_section(module.start))
    } else if k == 8 {
        vector_section(ModuleSection::ElementSection, module.elements@)
    } else if k == 9 {
        Some(data_count_section(module.data@))
    } else if k == 10 {
        vector_section(ModuleSection::CodeSection, module.functions@)
    } else {
        vector_section(ModuleSection::DataSection, module.data@)
    }
}

/// The number of sections that a module may have, besides custom sections.
pub open spec fn section_count() -> nat {
    12
}

/// The first `k` sections of a module, one after the other.
pub open spec fn sections_upto(module: Module, k: nat) -> Option<Seq<u8>>
    decreases k,
{
    if k == 0 {
        Some(Seq::empty())
    } else {
        followed_by(sections_upto(module, (k - 1) as nat), section_part(module, (k - 1) as nat))
    }
}

/// The sections of a module in the order that the binary format prescribes.
pub open spec fn sections_encoding(module: Module) -> Option<Seq<u8>> {
    sections_upto(module, section_count())
}

proof fn lemma_sections_failure_extends(module: Module, k: nat, j: nat)
    requires
        k <= j,
        sections_upto(module, k) is None,
    ensures
        sections_upto(module, j) is None,
    decreases j - k,
{
    if k < j {
        lemma_sections_failure_extends(module, k, (j - 1) as nat);
    }
}

/// The magic number and the version of the binary format.
pub open spec fn preamble() -> Seq<u8> {
    seq![0x00u8, 0x61u8, 0x73u8, 0x6Du8, 0x01u8, 0x00u8, 0x00u8, 0x00u8]
}

/// The custom section named `version` whose content is the given version.
pub open spec fn version_section(version: Seq<u8>) -> Seq<u8> {
    section_encoding(
        ModuleSection::CustomSection,
        custom_content_encoding(vstd::utf8::encode_utf8("version"@), version),
    )
}

/// A module: the preamble, the custom section with the version of the compiler where one is
/// given, then the sections.
pub open spec fn module_encoding(module: Module, version: Option<Seq<u8>>) -> Option<Seq<u8>> {
    let header = match version {
        Some(v) => preamble() + version_section(v),
        None => preamble(),
    };
    followed_by(Some(header), sections_encoding(module))
}

/// Emits the section of a vector of items, unless there are none.
fn emit_vector_section<T: Emit>(section: ModuleSection, items: &[T], output: &mut Vec<u8>) -> (r:
    Result<usize, CompilerError>)
    ensures
        emitted(old(output)@, final(output)@, r, vector_section(section, items@)),
{
    if items.len() == 0 {
        assert(output@ =~= old(output)@ + Seq::<u8>::empty());
        return Ok(0);
    }
    let mut buffer: Vec<u8> = Vec::new();
    match emit_vector(items, &mut buffer) {
        Ok(_) => {},
        Err(e) => {
            proof {
                lemma_extends_append(output@, Seq::empty());
                assert(output@ + Seq::<u8>::empty() =~= output@);
            }
            return Err(e);
        },
    }
    assert(buffer@ =~= vector_of(items@)->0);
    Ok(emit_section(section, &buffer, output))
}

/// Emits the function section, unless there are no functions.
fn emit_function_section(functions: &[Function], output: &mut Vec<u8>) -> (r: usize)
    ensures
        final(output)@ == old(output)@ + function_section(functions@),
        r == function_section(functions@).len(),
{
    if functions.len() == 0 {
        assert(output@ =~= old(output)@ + function_section(functions@));
        return 0;
    }
    let ghost f = |f: Function| leb128_unsigned(f.kind as nat);
    let mut buffer: Vec<u8> = Vec::new();
    emit_usize(functions.len(), &mut buffer);
    let ghost prefix = buffer@;
    let mut i: usize = 0;
    while i < functions.len()
        invariant
            i <= functions@.len(),
            f == (|f: Function| leb128_unsigned(f.kind as nat)),
            buffer@ == prefix + concat(functions@.take(i as int), f),
        decreases functions.len() - i,
    {
        emit_usize(functions[i].kind(), &mut buffer);
        proof {
            lemma_concat_step(functions@, i as int, f);
        }
        i = i + 1;
    }
    proof {
        lemma_concat_all(functions@, f);
    }
    assert(buffer@ =~= vector_encoding(functions@, f));
    emit_section(ModuleSection::FunctionSection, &buffer, output)
}

/// Emits the start section, unless there is no start function.
fn emit_start_section(start: &Option<Start>, output: &mut Vec<u8>) -> (r: usize)
    ensures
        final(output)@ == old(output)@ + start_section(*start),
        r == start_section(*start).len(),
{
    match start {
        Some(start) => {
            let mut buffer: Vec<u8> = Vec::new();
            emit_start(start, &mut buffer);
            assert(buffer@ =~= leb128_unsigned(start.function as nat));
            emit_section(ModuleSection::StartSection, &buffer, output)
        },
        None => {
            assert(output@ =~= old(output)@ + start_section(None));
            0
        },
    }
}

/// Emits the data count section, unless there are no data segments.
fn emit_data_count_section(data: &[Data], output: &mut Vec<u8>) -> (r: usize)
    ensures
        final(output)@ == old(output)@ + data_count_section(data@),
        r == data_count_section(data@).len(),
{
    if data.len() == 0 {
        assert(output@ =~= old(output)@ + data_count_section(data@));
        return 0;
    }
    let mut buffer: Vec<u8> = Vec::new();
    emit_usize(data.len(), &mut buffer);
    assert(buffer@ =~= leb128_unsigned(data@.len()));
    emit_section(ModuleSection::DataCountSection, &buffer, output)
}

/// Emits the `k`-th section of a module.
fn emit_section_part(module: &Module, k: usize, output: &mut Vec<u8>) -> (r: Result<
    usize,
    CompilerError,
>)
    requires
        k < section_count(),
    ensures
        emitted(old(output)@, final(output)@, r, section_part(*module, k as nat)),
{
    if k == 0 {
        emit_vector_section(ModuleSection::TypeSection, module.types.as_slice(), output)
    } else if k == 1 {
        emit_vector_section(ModuleSection::ImportSection, module.imports.as_slice(), output)
    } else if k == 2 {
        Ok(emit_function_section(module.functions.as_slice(), output))
    } else if k == 3 {
        emit_vector_section(ModuleSection::TableSection, module.tables.as_slice(), output)
    } else if k == 4 {
        emit_vector_section(ModuleSection::MemorySection, module.memories.as_slice(), output)
    } else if k == 5 {
        emit_vector_section(ModuleSection::GlobalSection, module.globals.as_slice(), output)
    } else if k == 6 {
        emit_vector_section(ModuleSection::ExportSection, module.exports.as_slice(), output)
    } else if k == 7 {
        Ok(emit_start_section(&module.start, output))
    } else if k == 8 {
        emit_vector_section(ModuleSection::ElementSection, module.elements.as_slice(), output)
    } else if k == 9 {
        Ok(emit_data_count_section(module.data.as_slice(), output))
    } else if k == 10 {
        emit_vector_section(ModuleSection::CodeSection, module.functions.as_slice(), output)
    } else {
        emit_vector_section(ModuleSection::DataSection, module.data.as_slice(), output)
    }
}

/// Emits the sections of a module.
fn emit_sections(module: &Module, output: &mut Vec<u8>) -> (r: Result<usize, CompilerError>)
    ensures
        emitted(old(output)@, final(output)@, r, sections_encoding(*module)),
{
    let start = output.len();
    let mut k: usize = 0;
    assert(output@ =~= old(output)@ + sections_upto(*module, 0)->0);
    while k < 12
        invariant
            k <= section_count(),
            start == old(output)@.len(),
            sections_upto(*module, k as nat) is Some,
            output@ == old(output)@ + sections_upto(*module, k as nat)->0,
        decreases 12 - k,
    {
        let ghost before = output@;
        match emit_section_part(module, k, output) {
            Ok(_) => {},
            Err(e) => {
                proof {
                    lemma_sections_failure_extends(*module, (k + 1) as nat, section_count());
                    lemma_extends_append(old(output)@, sections_upto(*module, k as nat)->0);
                    lemma_extends_transitive(old(output)@, before, output@);
                }
                return Err(e);
            },
        }
        assert(output@ =~= old(output)@ + sections_upto(*module, (k + 1) as nat)->0);
        k = k + 1;
    }
    Ok(output.len() - start)
}

/// Emits the custom section named `version` with the given version of the compiler.
fn emit_version(version: &str, output: &mut Vec<u8>) -> (r: usize)
    ensures
        final(output)@ == old(output)@ + version_section(vstd::utf8::encode_utf8(version@)),
        r == version_section(vstd::utf8::encode_utf8(version@)).len(),
{
    let name = Name::new(String::from_str("version"));
    let mut buffer: Vec<u8> = Vec::new();
    emit_custom_content(&name, version.as_bytes(), &mut buffer);
    emit_section(ModuleSection::CustomSection, &buffer, output)
}

/// Emits the preamble: the magic number and the version of the binary format.
fn emit_preamble(output: &mut Vec<u8>) -> (r: usize)
    ensures
        final(output)@ == old(output)@ + preamble(),
        r == 8,
{
    let start = output.len();
    let magic: [u8; 4] = [0x00u8, 0x61u8, 0x73u8, 0x6Du8];
    let format: [u8; 4] = [0x01u8, 0x00u8, 0x00u8, 0x00u8];
    emit_bytes(&magic, output, false);
    emit_bytes(&format, output, false);
    assert(output@ =~= old(output)@ + preamble());
    output.len() - start
}

/// Emits a module: the preamble, then the sections of the module. An empty module is the
/// preamble alone.
pub fn emit_module(module: &Module, output: &mut Vec<u8>) -> (r: Result<usize, CompilerError>)
    ensures
        emitted(old(output)@, final(output)@, r, module_encoding(*module, None)),
{
    module.emit(output)
}

/// Emits a module with a record of the compiler that made it: the preamble, a custom section
/// named `version` that holds the given version, then the sections of the module.
pub fn emit_module_with_version(module: &Module, version: &str, output: &mut Vec<u8>) -> (r: Result<
    usize,
    CompilerError,
>)
    ensures
        emitted(old(output)@, final(output)@, r, module_encoding(*module, Some(vstd::utf8::encode_utf8(version@)))),
{
    let start = output.len();
    emit_preamble(output);
    emit_version(version, output);
    let ghost header = output@;
    match emit_sections(module, output) {
        Ok(_) => {},
        Err(e) => {
            proof {
                lemma_extends_append(old(output)@, preamble() + version_section(vstd::utf8::encode_utf8(version@)));
                assert(old(output)@ + (preamble() + version_section(vstd::utf8::encode_utf8(version@))) =~= header);
                lemma_extends_transitive(old(output)@, header, output@);
            }
            return Err(e);
        },
    }
    assert(output@ =~= old(output)@ + module_encoding(*module, Some(vstd::utf8::encode_utf8(version@)))->0);
    Ok(output.len() - start)
}

impl Emit for Module {
    /// A module on its own: the preamble, then its sections.
    open spec fn encoding(&self) -> Option<Seq<u8>> {
        module_encoding(*self, None)
    }

    fn emit(&self, output: &mut Vec<u8>) -> (r: Result<usize, CompilerError>) {
        let start = output.len();
        emit_preamble(output);
        let ghost header = output@;
        match emit_sections(self, output) {
            Ok(_) => {},
            Err(e) => {
                proof {
                    lemma_extends_append(old(output)@, preamble());
                    lemma_extends_transitive(old(output)@, header, output@);
                }
                return Err(e);
            },
        }
        assert(output@ =~= old(output)@ + module_encoding(*self, None)->0);
        Ok(output.len() - start)
    }
}

} // verus!
