//! The syntax tree of a WebAssembly module.
//!
//! See <https://webassembly.github.io/spec/core/syntax/index.html>
#![allow(non_camel_case_types)]
use vstd::prelude::*;

verus! {

/// An index into the functions, tables, memories, globals, types, elements or data of a module.
pub type Index = usize;

pub type TypeIndex = usize;

pub type MemoryIndex = usize;

#[derive(Clone, Copy, Debug, PartialEq, Eq, Structural)]
pub enum NumberType {
    I32,
    I64,
    F32,
    F64,
}

#[derive(Clone, Copy, Debug, PartialEq, Eq, Structural)]
pub enum IntegerType {
    I32,
    I64,
}

#[derive(Clone, Copy, Debug, PartialEq, Eq, Structural)]
pub enum FloatType {
    F32,
    F64,
}

#[derive(Clone, Copy, Debug, PartialEq, Eq, Structural)]
pub enum SignExtension {
    Signed,
    Unsigned,
}

/// The width of a partial load or store: the value type and the number of bits in memory.
#[derive(Clone, Copy, Debug, PartialEq, Eq, Structural)]
pub enum StorageSize {
    I32_8,
    I32_16,
    I64_8,
    I64_16,
    I64_32,
}

#[derive(Clone, Copy, Debug, PartialEq, Eq, Structural)]
pub enum ReferenceType {
    Function,
    External,
}

#[derive(Clone, Copy, Debug, PartialEq, Eq, Structural)]
pub enum ValueType {
    Number(NumberType),
    Reference(ReferenceType),
}

/// A sequence of value types: the parameters or the results of a function.
#[derive(Clone, Debug, PartialEq)]
pub struct ResultType {
    pub kinds: Vec<ValueType>,
}

impl ResultType {
    pub fn new(kinds: Vec<ValueType>) -> (r: ResultType)
        ensures
            r.kinds@ == kinds@,
    {
        ResultType { kinds }
    }

    pub fn kinds(&self) -> (r: &[ValueType])
        ensures
            r@ == self.kinds@,
    {
        self.kinds.as_slice()
    }

    pub fn len(&self) -> (r: usize)
        ensures
            r == self.kinds@.len(),
    {
        self.kinds.len()
    }
}

#[derive(Clone, Debug, PartialEq)]
pub struct FunctionType {
    pub parameters: ResultType,
    pub results: ResultType,
}

impl FunctionType {
    pub fn new(parameters: ResultType, results: ResultType) -> (r: FunctionType)
        ensures
            r.parameters == parameters,
            r.results == results,
    {
        FunctionType { parameters, results }
    }
}

/// The size range of a memory or table: a minimum and an optional maximum.
#[derive(Clone, Copy, Debug, PartialEq, Eq, Structural)]
pub struct Limit {
    pub min: usize,
    pub max: Option<usize>,
}

impl Limit {
    pub fn new(min: usize, max: Option<usize>) -> (r: Limit)
        ensures
            r.min == min,
            r.max == max,
    {
        Limit { min, max }
    }

    pub fn min(&self) -> (r: usize)
        ensures
            r == self.min,
    {
        self.min
    }

    pub fn max(&self) -> (r: Option<usize>)
        ensures
            r == self.max,
    {
        self.max
    }
}

#[derive(Clone, Copy, Debug, PartialEq, Eq, Structural)]
pub struct MemoryType {
    pub limits: Limit,
}

impl MemoryType {
    pub fn new(limits: Limit) -> (r: MemoryType)
        ensures
            r.limits == limits,
    {
        MemoryType { limits }
    }
}

#[derive(Clone, Copy, Debug, PartialEq, Eq, Structural)]
pub struct TableType {
    pub limits: Limit,
    pub kind: ReferenceType,
}

impl TableType {
    pub fn new(limits: Limit, kind: ReferenceType) -> (r: TableType)
        ensures
            r.limits == limits,
            r.kind == kind,
    {
        TableType { limits, kind }
    }
}

#[derive(Clone, Copy, Debug, PartialEq, Eq, Structural)]
pub struct GlobalType {
    pub mutable: bool,
    pub kind: ValueType,
}

impl GlobalType {
    pub fn new(mutable: bool, kind: ValueType) -> (r: GlobalType)
        ensures
            r.mutable == mutable,
            r.kind == kind,
    {
        GlobalType { mutable, kind }
    }
}

/// A name, held as the bytes of its UTF-8 encoding.
#[derive(Clone, Debug, PartialEq)]
pub struct Name {
    pub bytes: Vec<u8>,
}

impl Name {
    /// The name with the given text.
    pub fn new(value: String) -> (r: Name)
        ensures
            r.bytes@ == vstd::utf8::encode_utf8(value@),
    {
        Name { bytes: value.as_str().as_bytes_vec() }
    }

    /// The bytes of the UTF-8 encoding of this name.
    pub fn as_bytes(&self) -> (r: &[u8])
        ensures
            r@ == self.bytes@,
    {
        self.bytes.as_slice()
    }
}

#[derive(Debug, PartialEq)]
pub enum NumericInstruction {
    I32Constant(i32),
    I64Constant(i64),
    F32Constant(u32),
    F64Constant(u64),
    EqualToZero(IntegerType),
    Equal(NumberType),
    NotEqual(NumberType),
    LessThanInteger(IntegerType, SignExtension),
    GreaterThanInteger(IntegerType, SignExtension),
    LessThanOrEqualToInteger(IntegerType, SignExtension),
    GreaterThanOrEqualToInteger(IntegerType, SignExtension),
    LessThanFloat(FloatType),
    GreaterThanFloat(FloatType),
    LessThanOrEqualToFloat(FloatType),
    GreaterThanOrEqualToFloat(FloatType),
    CountLeadingZeros(IntegerType),
    CountTrailingZeros(IntegerType),
    CountOnes(IntegerType),
    Add(NumberType),
    Subtract(NumberType),
    Multiply(NumberType),
    DivideInteger(IntegerType, SignExtension),
    Remainder(IntegerType, SignExtension),
    And(IntegerType),
    Or(IntegerType),
    Xor(IntegerType),
    ShiftLeft(IntegerType),
    ShiftRight(IntegerType, SignExtension),
    RotateLeft(IntegerType),
    RotateRight(IntegerType),
    AbsoluteValue(FloatType),
    Negate(FloatType),
    Ceiling(FloatType),
    Floor(FloatType),
    Truncate(FloatType),
    Nearest(FloatType),
    SquareRoot(FloatType),
    DivideFloat(FloatType),
    Minimum(FloatType),
    Maximum(FloatType),
    CopySign(FloatType),
    Wrap,
    ConvertAndTruncate(IntegerType, FloatType, SignExtension),
    ExtendWithSignExtension(SignExtension),
    Convert(FloatType, IntegerType, SignExtension),
    Demote,
    Promote,
    ReinterpretFloat(IntegerType, FloatType),
    ReinterpretInteger(FloatType, IntegerType),
    ExtendSigned(StorageSize),
    ConvertAndTruncateWithSaturation(IntegerType, FloatType, SignExtension),
}

#[derive(Clone, Copy, Debug, PartialEq, Eq, Structural)]
pub enum ReferenceInstruction {
    ReferenceNull(ReferenceType),
    ReferenceIsNull,
    ReferenceFunction(Index),
}

#[derive(Debug, PartialEq)]
pub enum ParametricInstruction {
    Drop,
    Select(Option<Vec<ValueType>>),
}

#[derive(Clone, Copy, Debug, PartialEq, Eq, Structural)]
pub enum VariableInstruction {
    LocalGet(Index),
    LocalSet(Index),
    LocalTee(Index),
    GlobalGet(Index),
    GlobalSet(Index),
}

#[derive(Clone, Copy, Debug, PartialEq, Eq, Structural)]
pub enum TableInstruction {
    TableGet(Index),
    TableSet(Index),
    TableInit(Index, Index),
    ElementDrop(Index),
    TableCopy(Index, Index),
    TableGrow(Index),
    TableSize(Index),
    TableFill(Index),
}

/// The alignment and offset of a memory access.
#[derive(Clone, Copy, Debug, PartialEq, Eq, Structural)]
pub struct MemoryArgument {
    pub align: usize,
    pub offset: usize,
}

impl MemoryArgument {
    pub fn new(align: usize, offset: usize) -> (r: MemoryArgument)
        ensures
            r.align == align,
            r.offset == offset,
    {
        MemoryArgument { align, offset }
    }
}

#[derive(Clone, Copy, Debug, PartialEq, Eq, Structural)]
pub enum MemoryInstruction {
    Load(NumberType, MemoryArgument),
    LoadPartial(StorageSize, SignExtension, MemoryArgument),
    Store(NumberType, MemoryArgument),
    StorePartial(StorageSize, MemoryArgument),
    MemorySize,
    MemoryGrow,
    MemoryInit(Index),
    DataDrop(Index),
    MemoryCopy,
    MemoryFill,
}

/// The type of a block: a type index, a single result type, or no result.
#[derive(Clone, Copy, Debug, PartialEq, Eq, Structural)]
pub enum BlockType {
    Index(TypeIndex),
    ValueType(ValueType),
    Empty,
}

#[derive(Debug, PartialEq)]
pub enum ControlInstruction {
    Unreachable,
    Nop,
    Block(BlockType, Expression),
    Loop(BlockType, Expression),
    If(BlockType, Expression, Option<Expression>),
    Branch(Index),
    BranchIf(Index),
    BranchTable(Vec<Index>, Index),
    Return,
    Call(Index),
    CallIndirect(Index, TypeIndex),
}

#[derive(Debug, PartialEq)]
pub enum Instruction {
    Numeric(NumericInstruction),
    Reference(ReferenceInstruction),
    Parametric(ParametricInstruction),
    Variable(VariableInstruction),
    Table(TableInstruction),
    Memory(MemoryInstruction),
    Control(ControlInstruction),
}

/// A sequence of instructions.
#[derive(Debug, PartialEq)]
pub struct Expression {
    pub instructions: Vec<Instruction>,
}

impl Expression {
    pub fn new(instructions: Vec<Instruction>) -> (r: Expression)
        ensures
            r.instructions@ == instructions@,
    {
        Expression { instructions }
    }
}

#[derive(Debug, PartialEq)]
pub struct Function {
    pub kind: TypeIndex,
    pub locals: ResultType,
    pub body: Expression,
}

impl Function {
    pub fn new(kind: TypeIndex, locals: ResultType, body: Expression) -> (r: Function)
        ensures
            r.kind == kind,
            r.locals == locals,
            r.body == body,
    {
        Function { kind, locals, body }
    }

    /// The index of this function's type.
    pub fn kind(&self) -> (r: TypeIndex)
        ensures
            r == self.kind,
    {
        self.kind
    }
}

#[derive(Clone, Copy, Debug, PartialEq, Eq, Structural)]
pub struct Table {
    pub kind: TableType,
}

impl Table {
    pub fn new(kind: TableType) -> (r: Table)
        ensures
            r.kind == kind,
    {
        Table { kind }
    }
}

#[derive(Clone, Copy, Debug, PartialEq, Eq, Structural)]
pub struct Memory {
    pub kind: MemoryType,
}

impl Memory {
    pub fn new(kind: MemoryType) -> (r: Memory)
        ensures
            r.kind == kind,
    {
        Memory { kind }
    }
}

#[derive(Debug, PartialEq)]
pub struct Global {
    pub kind: GlobalType,
    pub initializer: Expression,
}

impl Global {
    pub fn new(kind: GlobalType, initializer: Expression) -> (r: Global)
        ensures
            r.kind == kind,
            r.initializer == initializer,
    {
        Global { kind, initializer }
    }
}

#[derive(Clone, Copy, Debug, PartialEq, Eq, Structural)]
pub enum ExportDescription {
    Function(Index),
    Table(Index),
    Memory(Index),
    Global(Index),
}

#[derive(Clone, Debug, PartialEq)]
pub struct Export {
    pub name: Name,
    pub description: ExportDescription,
}

impl Export {
    pub fn new(name: Name, description: ExportDescription) -> (r: Export)
        ensures
            r.name == name,
            r.description == description,
    {
        Export { name, description }
    }
}

#[derive(Clone, Copy, Debug, PartialEq, Eq, Structural)]
pub enum ImportDescription {
    Function(TypeIndex),
    Table(TableType),
    Memory(MemoryType),
    Global(GlobalType),
}

#[derive(Clone, Debug, PartialEq)]
pub struct Import {
    pub module: Name,
    pub name: Name,
    pub description: ImportDescription,
}

impl Import {
    pub fn new(module: Name, name: Name, description: ImportDescription) -> (r: Import)
        ensures
            r.module == module,
            r.name == name,
            r.description == description,
    {
        Import { module, name, description }
    }
}

#[derive(Clone, Copy, Debug, PartialEq, Eq, Structural)]
pub struct Start {
    pub function: Index,
}

impl Start {
    pub fn new(function: Index) -> (r: Start)
        ensures
            r.function == function,
    {
        Start { function }
    }
}

#[derive(Debug, PartialEq)]
pub enum ElementMode {
    Passive,
    Active(Index, Expression),
    Declarative,
}

#[derive(Debug, PartialEq)]
pub enum ElementInitializer {
    FunctionIndex(Vec<Index>),
    Expression(Vec<Expression>),
}

#[derive(Debug, PartialEq)]
pub struct Element {
    pub kind: ReferenceType,
    pub mode: ElementMode,
    pub initializers: ElementInitializer,
}

impl Element {
    pub fn new(kind: ReferenceType, mode: ElementMode, initializers: ElementInitializer) -> (r:
        Element)
        ensures
            r.kind == kind,
            r.mode == mode,
            r.initializers == initializers,
    {
        Element { kind, mode, initializers }
    }
}

#[derive(Debug, PartialEq)]
pub enum DataMode {
    Passive,
    Active(MemoryIndex, Expression),
}

#[derive(Debug, PartialEq)]
pub struct Data {
    pub mode: DataMode,
    pub initializer: Vec<u8>,
}

impl Data {
    pub fn new(mode: DataMode, initializer: Vec<u8>) -> (r: Data)
        ensures
            r.mode == mode,
            r.initializer@ == initializer@,
    {
        Data { mode, initializer }
    }
}

/// A WebAssembly module: the definitions of its types, functions, tables, memories,
/// globals, elements, data, start function, imports and exports.
#[derive(Debug, PartialEq)]
pub struct Module {
    pub types: Vec<FunctionType>,
    pub functions: Vec<Function>,
    pub tables: Vec<Table>,
    pub memories: Vec<Memory>,
    pub globals: Vec<Global>,
    pub elements: Vec<Element>,
    pub data: Vec<Data>,
    pub start: Option<Start>,
    pub imports: Vec<Import>,
    pub exports: Vec<Export>,
}

impl Module {
    /// A module that defines nothing.
    pub fn new() -> (r: Module)
        ensures
            r.types@.len() == 0,
            r.functions@.len() == 0,
            r.tables@.len() == 0,
            r.memories@.len() == 0,
            r.globals@.len() == 0,
            r.elements@.len() == 0,
            r.data@.len() == 0,
            r.start is None,
            r.imports@.len() == 0,
            r.exports@.len() == 0,
    {
        Module {
            types: Vec::new(),
            functions: Vec::new(),
            tables: Vec::new(),
            memories: Vec::new(),
            globals: Vec::new(),
            elements: Vec::new(),
            data: Vec::new(),
            start: None,
            imports: Vec::new(),
            exports: Vec::new(),
        }
    }

    /// Adds a type to this module and returns its index.
    pub fn add_type(&mut self, kind: FunctionType) -> (r: Index)
        requires
            old(self).types@.len() < usize::MAX,
        ensures
            r == old(self).types@.len(),
            final(self).types@ == old(self).types@.push(kind),
            final(self).functions == old(self).functions,
            final(self).tables == old(self).tables,
            final(self).memories == old(self).memories,
            final(self).globals == old(self).globals,
            final(self).elements == old(self).elements,
            final(self).data == old(self).data,
            final(self).imports == old(self).imports,
            final(self).exports == old(self).exports,
            final(self).start == old(self).start,
    {
        let index = self.types.len();
        self.types.push(kind);
        index
    }

    /// Adds a function to this module and returns its index.
    pub fn add_function(&mut self, function: Function) -> (r: Index)
        requires
            old(self).functions@.len() < usize::MAX,
        ensures
            r == old(self).functions@.len(),
            final(self).functions@ == old(self).functions@.push(function),
            final(self).types == old(self).types,
            final(self).tables == old(self).tables,
            final(self).memories == old(self).memories,
            final(self).globals == old(self).globals,
            final(self).elements == old(self).elements,
            final(self).data == old(self).data,
            final(self).imports == old(self).imports,
            final(self).exports == old(self).exports,
            final(self).start == old(self).start,
    {
        let index = self.functions.len();
        self.functions.push(function);
        index
    }

    /// Adds a table to this module and returns its index.
    pub fn add_table(&mut self, table: Table) -> (r: Index)
        requires
            old(self).tables@.len() < usize::MAX,
        ensures
            r == old(self).tables@.len(),
            final(self).tables@ == old(self).tables@.push(table),
            final(self).types == old(self).types,
            final(self).functions == old(self).functions,
            final(self).memories == old(self).memories,
            final(self).globals == old(self).globals,
            final(self).elements == old(self).elements,
            final(self).data == old(self).data,
            final(self).imports == old(self).imports,
            final(self).exports == old(self).exports,
            final(self).start == old(self).start,
    {
        let index = self.tables.len();
        self.tables.push(table);
        index
    }

    /// Adds a memory to this module and returns its index.
    pub fn add_memory(&mut self, memory: Memory) -> (r: Index)
        requires
            old(self).memories@.len() < usize::MAX,
        ensures
            r == old(self).memories@.len(),
            final(self).memories@ == old(self).memories@.push(memory),
            final(self).types == old(self).types,
            final(self).functions == old(self).functions,
            final(self).tables == old(self).tables,
            final(self).globals == old(self).globals,
            final(self).elements == old(self).elements,
            final(self).data == old(self).data,
            final(self).imports == old(self).imports,
            final(self).exports == old(self).exports,
            final(self).start == old(self).start,
    {
        let index = self.memories.len();
        self.memories.push(memory);
        index
    }

    /// Adds a global to this module and returns its index.
    pub fn add_global(&mut self, global: Global) -> (r: Index)
        requires
            old(self).globals@.len() < usize::MAX,
        ensures
            r == old(self).globals@.len(),
            final(self).globals@ == old(self).globals@.push(global),
            final(self).types == old(self).types,
            final(self).functions == old(self).functions,
            final(self).tables == old(self).tables,
            final(self).memories == old(self).memories,
            final(self).elements == old(self).elements,
            final(self).data == old(self).data,
            final(self).imports == old(self).imports,
            final(self).exports == old(self).exports,
            final(self).start == old(self).start,
    {
        let index = self.globals.len();
        self.globals.push(global);
        index
    }

    /// Adds a element to this module and returns its index.
    pub fn add_element(&mut self, element: Element) -> (r: Index)
        requires
            old(self).elements@.len() < usize::MAX,
        ensures
            r == old(self).elements@.len(),
            final(self).elements@ == old(self).elements@.push(element),
            final(self).types == old(self).types,
            final(self).functions == old(self).functions,
            final(self).tables == old(self).tables,
            final(self).memories == old(self).memories,
            final(self).globals == old(self).globals,
            final(self).data == old(self).data,
            final(self).imports == old(self).imports,
            final(self).exports == old(self).exports,
            final(self).start == old(self).start,
    {
        let index = self.elements.len();
        self.elements.push(element);
        index
    }

    /// Adds a data to this module and returns its index.
    pub fn add_data(&mut self, data: Data) -> (r: Index)
        requires
            old(self).data@.len() < usize::MAX,
        ensures
            r == old(self).data@.len(),
            final(self).data@ == old(self).data@.push(data),
            final(self).types == old(self).types,
            final(self).functions == old(self).functions,
            final(self).tables == old(self).tables,
            final(self).memories == old(self).memories,
            final(self).globals == old(self).globals,
            final(self).elements == old(self).elements,
            final(self).imports == old(self).imports,
            final(self).exports == old(self).exports,
            final(self).start == old(self).start,
    {
        let index = self.data.len();
        self.data.push(data);
        index
    }

    /// Adds a import to this module and returns its index.
    pub fn add_import(&mut self, import: Import) -> (r: Index)
        requires
            old(self).imports@.len() < usize::MAX,
        ensures
            r == old(self).imports@.len(),
            final(self).imports@ == old(self).imports@.push(import),
            final(self).types == old(self).types,
            final(self).functions == old(self).functions,
            final(self).tables == old(self).tables,
            final(self).memories == old(self).memories,
            final(self).globals == old(self).globals,
            final(self).elements == old(self).elements,
            final(self).data == old(self).data,
            final(self).exports == old(self).exports,
            final(self).start == old(self).start,
    {
        let index = self.imports.len();
        self.imports.push(import);
        index
    }

    /// Adds a export to this module and returns its index.
    pub fn add_export(&mut self, export: Export) -> (r: Index)
        requires
            old(self).exports@.len() < usize::MAX,
        ensures
            r == old(self).exports@.len(),
            final(self).exports@ == old(self).exports@.push(export),
            final(self).types == old(self).types,
            final(self).functions == old(self).functions,
            final(self).tables == old(self).tables,
            final(self).memories == old(self).memories,
            final(self).globals == old(self).globals,
            final(self).elements == old(self).elements,
            final(self).data == old(self).data,
            final(self).imports == old(self).imports,
            final(self).start == old(self).start,
    {
        let index = self.exports.len();
        self.exports.push(export);
        index
    }

    /// Sets the start function of this module.
    pub fn set_start(&mut self, start: Option<Start>)
        ensures
            final(self).start == start,
            final(self).types == old(self).types,
            final(self).functions == old(self).functions,
            final(self).tables == old(self).tables,
            final(self).memories == old(self).memories,
            final(self).globals == old(self).globals,
            final(self).elements == old(self).elements,
            final(self).data == old(self).data,
            final(self).imports == old(self).imports,
            final(self).exports == old(self).exports,
    {
        self.start = start;
    }
}

} // verus!
