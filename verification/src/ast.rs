//! The high-level representation of a WebAssembly (version 1) module.
//!
//! Function types are held inline, bodies are flat instruction sequences
//! with explicit `end` markers, and every cross reference between entities
//! is a dense integer index.

use std::marker::PhantomData;
use vstd::prelude::*;

verus! {

/// A zero-based index, tagged by the kind of entity that it indexes.
#[derive(Debug, PartialEq, Eq, Hash)]
pub struct Idx<T>(pub usize, pub PhantomData<T>);

impl<T> Idx<T> {
    /// The index with the given number.
    pub open spec fn of(i: usize) -> Idx<T> {
        Idx(i, PhantomData)
    }

    pub fn new(i: usize) -> (r: Idx<T>)
        ensures
            r == Idx::<T>::of(i),
    {
        Idx(i, PhantomData)
    }
}

impl<T> Clone for Idx<T> {
    fn clone(&self) -> (r: Self)
        ensures
            r == *self,
    {
        Idx(self.0, PhantomData)
    }
}

impl<T> Copy for Idx<T> {

}

impl<T> From<usize> for Idx<T> {
    fn from(i: usize) -> (r: Idx<T>) {
        Idx(i, PhantomData)
    }
}

impl<T> vstd::std_specs::convert::FromSpecImpl<usize> for Idx<T> {
    open spec fn obeys_from_spec() -> bool {
        true
    }

    open spec fn from_spec(i: usize) -> Idx<T> {
        Idx::<T>::of(i)
    }
}

/// The four value types.
#[derive(Clone, Copy, Debug, PartialEq, Eq, Structural, PartialOrd, Ord, Hash)]
pub enum ValType {
    I32,
    I64,
    F32,
    F64,
}

impl ValType {
    /// The position of the type in the order `i32 < i64 < f32 < f64`.
    pub open spec fn rank(self) -> nat {
        match self {
            ValType::I32 => 0,
            ValType::I64 => 1,
            ValType::F32 => 2,
            ValType::F64 => 3,
        }
    }

    /// The type's name in the text format.
    pub open spec fn name(self) -> Seq<char> {
        match self {
            ValType::I32 => "i32"@,
            ValType::I64 => "i64"@,
            ValType::F32 => "f32"@,
            ValType::F64 => "f64"@,
        }
    }

    pub fn to_str(self) -> (r: &'static str)
        ensures
            r@ == self.name(),
    {
        match self {
            ValType::I32 => "i32",
            ValType::I64 => "i64",
            ValType::F32 => "f32",
            ValType::F64 => "f64",
        }
    }
}

/// A local is declared by its type alone.
pub type Local = ValType;

/// The result of a block: at most one value.
pub type BlockType = Option<ValType>;

pub type Expr = Vec<Instr>;

pub type ConstExpr = Vec<Instr>;

/// The mathematical content of a function type.
pub struct Signature {
    pub params: Seq<ValType>,
    pub results: Seq<ValType>,
}

#[derive(Clone, Debug, PartialEq, Eq, Hash)]
pub struct FunctionType {
    pub params: Vec<ValType>,
    pub results: Vec<ValType>,
}

impl View for FunctionType {
    type V = Signature;

    open spec fn view(&self) -> Signature {
        Signature { params: self.params@, results: self.results@ }
    }
}

impl FunctionType {
    pub fn new(params: Vec<ValType>, results: Vec<ValType>) -> (r: FunctionType)
        ensures
            r@ == (Signature { params: params@, results: results@ }),
    {
        FunctionType { params, results }
    }
}

#[derive(Clone, Copy, Debug, PartialEq, Eq, Structural, Hash)]
pub enum ElemType {
    Anyfunc,
}

#[derive(Clone, Copy, Debug, PartialEq, Eq, Structural, Hash)]
pub enum Mutability {
    Const,
    Mut,
}

#[derive(Clone, Copy, Debug, PartialEq, Eq, Hash)]
pub struct Limits {
    pub initial_size: u32,
    pub max_size: Option<u32>,
}

#[derive(Clone, Copy, Debug, PartialEq, Eq, Hash)]
pub struct TableType(pub ElemType, pub Limits);

#[derive(Clone, Copy, Debug, PartialEq, Eq, Hash)]
pub struct MemoryType(pub Limits);

#[derive(Clone, Copy, Debug, PartialEq, Eq, Structural, Hash)]
pub struct GlobalType(pub ValType, pub Mutability);

/// The immediate of a memory access.
#[derive(Clone, Copy, Debug, PartialEq, Eq, Structural, Hash)]
pub struct Memarg {
    pub alignment: u32,
    pub offset: u32,
}

impl Default for Memarg {
    fn default() -> (r: Memarg)
        ensures
            r == (Memarg { alignment: 0, offset: 0 }),
    {
        Memarg { alignment: 0, offset: 0 }
    }
}

/// Tag of the indices that name an enclosing block, counted from the
/// innermost one.
#[derive(Clone, Copy, Debug, PartialEq, Eq, Hash)]
pub struct Label;

/// One instruction. Structured control flow is not nested: `Block`, `Loop`
/// and `If` open a block and a later `End` closes it. The two float
/// constants hold the bit pattern of their value.
#[derive(Clone, Debug, PartialEq, Eq, Hash)]
pub enum Instr {
    Unreachable,
    Nop,
    Block(BlockType),
    Loop(BlockType),
    If(BlockType),
    Else,
    End,
    Br(Idx<Label>),
    BrIf(Idx<Label>),
    BrTable(Vec<Idx<Label>>, Idx<Label>),
    Return,
    Call(Idx<Function>),
    CallIndirect(FunctionType, Idx<Table>),
    Drop,
    Select,
    GetLocal(Idx<Local>),
    SetLocal(Idx<Local>),
    TeeLocal(Idx<Local>),
    GetGlobal(Idx<Global>),
    SetGlobal(Idx<Global>),
    I32Load(Memarg),
    I64Load(Memarg),
    F32Load(Memarg),
    F64Load(Memarg),
    I32Load8S(Memarg),
    I32Load8U(Memarg),
    I32Load16S(Memarg),
    I32Load16U(Memarg),
    I64Load8S(Memarg),
    I64Load8U(Memarg),
    I64Load16S(Memarg),
    I64Load16U(Memarg),
    I64Load32S(Memarg),
    I64Load32U(Memarg),
    I32Store(Memarg),
    I64Store(Memarg),
    F32Store(Memarg),
    F64Store(Memarg),
    I32Store8(Memarg),
    I32Store16(Memarg),
    I64Store8(Memarg),
    I64Store16(Memarg),
    I64Store32(Memarg),
    CurrentMemory(Idx<Memory>),
    GrowMemory(Idx<Memory>),
    I32Const(i32),
    I64Const(i64),
    F32Const(u32),
    F64Const(u64),
    I32Eqz,
    I32Eq,
    I32Ne,
    I32LtS,
    I32LtU,
    I32GtS,
    I32GtU,
    I32LeS,
    I32LeU,
    I32GeS,
    I32GeU,
    I64Eqz,
    I64Eq,
    I64Ne,
    I64LtS,
    I64LtU,
    I64GtS,
    I64GtU,
    I64LeS,
    I64LeU,
    I64GeS,
    I64GeU,
    F32Eq,
    F32Ne,
    F32Lt,
    F32Gt,
    F32Le,
    F32Ge,
    F64Eq,
    F64Ne,
    F64Lt,
    F64Gt,
    F64Le,
    F64Ge,
    I32Clz,
    I32Ctz,
    I32Popcnt,
    I32Add,
    I32Sub,
    I32Mul,
    I32DivS,
    I32DivU,
    I32RemS,
    I32RemU,
    I32And,
    I32Or,
    I32Xor,
    I32Shl,
    I32ShrS,
    I32ShrU,
    I32Rotl,
    I32Rotr,
    I64Clz,
    I64Ctz,
    I64Popcnt,
    I64Add,
    I64Sub,
    I64Mul,
    I64DivS,
    I64DivU,
    I64RemS,
    I64RemU,
    I64And,
    I64Or,
    I64Xor,
    I64Shl,
    I64ShrS,
    I64ShrU,
    I64Rotl,
    I64Rotr,
    F32Abs,
    F32Neg,
    F32Ceil,
    F32Floor,
    F32Trunc,
    F32Nearest,
    F32Sqrt,
    F32Add,
    F32Sub,
    F32Mul,
    F32Div,
    F32Min,
    F32Max,
    F32Copysign,
    F64Abs,
    F64Neg,
    F64Ceil,
    F64Floor,
    F64Trunc,
    F64Nearest,
    F64Sqrt,
    F64Add,
    F64Sub,
    F64Mul,
    F64Div,
    F64Min,
    F64Max,
    F64Copysign,
    I32WrapI64,
    I32TruncSF32,
    I32TruncUF32,
    I32TruncSF64,
    I32TruncUF64,
    I64ExtendSI32,
    I64ExtendUI32,
    I64TruncSF32,
    I64TruncUF32,
    I64TruncSF64,
    I64TruncUF64,
    F32ConvertSI32,
    F32ConvertUI32,
    F32ConvertSI64,
    F32ConvertUI64,
    F32DemoteF64,
    F64ConvertSI32,
    F64ConvertUI32,
    F64ConvertSI64,
    F64ConvertUI64,
    F64PromoteF32,
    I32ReinterpretF32,
    I64ReinterpretF64,
    F32ReinterpretI32,
    F64ReinterpretI64,
}

#[derive(Clone, Debug, PartialEq, Eq, Hash)]
pub enum ImportType {
    Function(FunctionType),
    Table(TableType),
    Memory(MemoryType),
    Global(GlobalType),
}

/// What an import brings, with a function type by its content.
pub enum ImportKind {
    Function(Signature),
    Table(TableType),
    Memory(MemoryType),
    Global(GlobalType),
}

impl View for ImportType {
    type V = ImportKind;

    open spec fn view(&self) -> ImportKind {
        match *self {
            ImportType::Function(ty) => ImportKind::Function(ty@),
            ImportType::Table(ty) => ImportKind::Table(ty),
            ImportType::Memory(ty) => ImportKind::Memory(ty),
            ImportType::Global(ty) => ImportKind::Global(ty),
        }
    }
}

#[derive(Clone, Debug, PartialEq, Eq, Hash)]
pub struct Import {
    pub module: String,
    pub name: String,
    pub type_: ImportType,
}

pub struct ImportView {
    pub module: Seq<char>,
    pub name: Seq<char>,
    pub type_: ImportKind,
}

impl View for Import {
    type V = ImportView;

    open spec fn view(&self) -> ImportView {
        ImportView { module: self.module@, name: self.name@, type_: self.type_@ }
    }
}

#[derive(Clone, Copy, Debug, PartialEq, Eq, Hash)]
pub enum ExportType {
    Function(Idx<Function>),
    Table(Idx<Table>),
    Memory(Idx<Memory>),
    Global(Idx<Global>),
}

#[derive(Clone, Debug, PartialEq, Eq, Hash)]
pub struct Export {
    pub name: String,
    pub type_: ExportType,
}

pub struct ExportView {
    pub name: Seq<char>,
    pub type_: ExportType,
}

impl View for Export {
    type V = ExportView;

    open spec fn view(&self) -> ExportView {
        ExportView { name: self.name@, type_: self.type_ }
    }
}

/// The locals and the instructions of a function that the module defines.
#[derive(Clone, Debug, PartialEq, Eq, Hash)]
pub struct Code {
    pub locals: Vec<Local>,
    pub body: Expr,
}

pub struct CodeView {
    pub locals: Seq<ValType>,
    pub body: Seq<Instr>,
}

impl View for Code {
    type V = CodeView;

    open spec fn view(&self) -> CodeView {
        CodeView { locals: self.locals@, body: self.body@ }
    }
}

/// A function of the module. An imported function has no code.
#[derive(Clone, Debug, PartialEq, Eq, Hash)]
pub struct Function {
    pub type_: FunctionType,
    pub code: Option<Code>,
}

pub struct FunctionView {
    pub type_: Signature,
    pub code: Option<CodeView>,
}

impl View for Function {
    type V = FunctionView;

    open spec fn view(&self) -> FunctionView {
        FunctionView {
            type_: self.type_@,
            code: match self.code {
                Some(code) => Some(code@),
                None => None,
            },
        }
    }
}

#[derive(Clone, Debug, PartialEq, Eq, Hash)]
pub struct Global {
    pub type_: GlobalType,
    pub init: ConstExpr,
}

/// An initializer of a table: functions placed from an offset on.
#[derive(Clone, Debug, PartialEq, Eq, Hash)]
pub struct Element {
    pub offset: ConstExpr,
    pub functions: Vec<Idx<Function>>,
}

/// An initializer of a memory: bytes placed from an offset on.
#[derive(Clone, Debug, PartialEq, Eq, Hash)]
pub struct Data {
    pub offset: ConstExpr,
    pub bytes: Vec<u8>,
}

#[derive(Clone, Debug, PartialEq, Eq, Hash)]
pub struct Table {
    pub type_: TableType,
    pub inits: Vec<Element>,
}

#[derive(Clone, Debug, PartialEq, Eq, Hash)]
pub struct Memory {
    pub type_: MemoryType,
    pub inits: Vec<Data>,
}

#[derive(Clone, Debug, PartialEq, Eq, Hash)]
pub struct Module {
    pub start: Option<Idx<Function>>,
    pub imports: Vec<Import>,
    pub exports: Vec<Export>,
    pub globals: Vec<Global>,
    pub functions: Vec<Function>,
    pub tables: Vec<Table>,
    pub memories: Vec<Memory>,
    pub custom_sections: Vec<Vec<u8>>,
}

/// The content of a module. The parts that hold no function type and no
/// text stand in it as they are.
pub struct ModuleView {
    pub start: Option<Idx<Function>>,
    pub imports: Seq<ImportView>,
    pub exports: Seq<ExportView>,
    pub globals: Seq<Global>,
    pub functions: Seq<FunctionView>,
    pub tables: Seq<Table>,
    pub memories: Seq<Memory>,
    pub custom_sections: Seq<Vec<u8>>,
}

impl View for Module {
    type V = ModuleView;

    open spec fn view(&self) -> ModuleView {
        ModuleView {
            start: self.start,
            imports: self.imports@.map_values(|i: Import| i@),
            exports: self.exports@.map_values(|e: Export| e@),
            globals: self.globals@,
            functions: self.functions@.map_values(|f: Function| f@),
            tables: self.tables@,
            memories: self.memories@,
            custom_sections: self.custom_sections@,
        }
    }
}

impl Module {
    /// Appends a function without code and the import that declares it, and
    /// returns the new function's index.
    pub fn add_function_import(&mut self, type_: FunctionType, module: String, name: String) -> (idx:
        Idx<Function>)
        ensures
            idx == Idx::<Function>::of(old(self).functions.len()),
            final(self).functions.len() == old(self).functions.len() + 1,
            final(self)@ == old(self)@.with_function_import(type_@, module@, name@),
    {
        let idx = Idx::new(self.functions.len());
        let params = clone_types(&type_.params);
        let results = clone_types(&type_.results);
        let declared = FunctionType { params, results };
        self.imports.push(Import { module, name, type_: ImportType::Function(declared) });
        self.functions.push(Function { type_, code: None });
        proof {
            let want = old(self)@.with_function_import(type_@, module@, name@);
            assert(final(self)@.imports =~= want.imports);
            assert(final(self)@.functions =~= want.functions);
        }
        idx
    }
}

impl ModuleView {
    /// The module with one more imported function at the end.
    pub open spec fn with_function_import(
        self,
        type_: Signature,
        module: Seq<char>,
        name: Seq<char>,
    ) -> ModuleView {
        ModuleView {
            imports: self.imports.push(
                ImportView { module, name, type_: ImportKind::Function(type_) },
            ),
            functions: self.functions.push(FunctionView { type_, code: None }),
            ..self
        }
    }
}

/// A copy of a vector of value types.
pub fn clone_types(tys: &Vec<ValType>) -> (r: Vec<ValType>)
    ensures
        r@ == tys@,
{
    clone_types_of(tys.as_slice())
}

/// The value types of a slice as a vector.
pub fn clone_types_of(tys: &[ValType]) -> (r: Vec<ValType>)
    ensures
        r@ == tys@,
{
    let mut r: Vec<ValType> = Vec::new();
    let mut i: usize = 0;
    while i < tys.len()
        invariant
            i <= tys.len(),
            r@ == tys@.take(i as int),
        decreases tys.len() - i,
    {
        r.push(tys[i]);
        i += 1;
    }
    r
}

} // verus!
