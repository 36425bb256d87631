//! WebAssembly module grammar: indices, module fields and the module
//! itself.

use vstd::prelude::*;

use super::instructions::Expr;
use super::types::{FuncType, GlobalType, MemType, TableType, ValType};
use super::values::Name;

verus! {

/// A module: the collection of definitions that one compiled unit holds.
/// Built strictly by append during code generation; the supported subset
/// only ever populates `types`, `funcs` and `exports`.
#[derive(Debug)]
pub struct Module {
    pub types: Vec<FuncType>,
    pub funcs: Vec<Func>,
    pub tables: Vec<Table>,
    pub mems: Vec<Mem>,
    pub globals: Vec<Global>,
    pub elem: Vec<Elem>,
    pub data: Vec<Data>,
    pub start: Option<Start>,
    pub imports: Vec<Import>,
    pub exports: Vec<Export>,
}

// Indices

#[derive(Clone, Copy, Debug, PartialEq, Eq, Structural)]
pub struct TypeIdx(pub u32);

#[derive(Clone, Copy, Debug, PartialEq, Eq, Structural)]
pub struct FuncIdx(pub u32);

#[derive(Clone, Copy, Debug, PartialEq, Eq, Structural)]
pub struct TableIdx(pub u32);

#[derive(Clone, Copy, Debug, PartialEq, Eq, Structural)]
pub struct MemIdx(pub u32);

#[derive(Clone, Copy, Debug, PartialEq, Eq, Structural)]
pub struct GlobalIdx(pub u32);

#[derive(Clone, Copy, Debug, PartialEq, Eq, Structural)]
pub struct LocalIdx(pub u32);

#[derive(Clone, Copy, Debug, PartialEq, Eq, Structural)]
pub struct LabelIdx(pub u32);

// Functions

/// A function: the index of its type, its declared locals beyond the
/// parameters, and its body.
#[derive(Debug)]
pub struct Func {
    pub ty: TypeIdx,
    pub locals: Vec<ValType>,
    pub body: Expr,
}

// Tables

#[derive(Debug)]
pub struct Table {
    pub ty: TableType,
}

// Memories

#[derive(Debug)]
pub struct Mem {
    pub ty: MemType,
}

// Globals

#[derive(Debug)]
pub struct Global {
    pub ty: GlobalType,
    pub init: Expr,
}

// Element segments

#[derive(Debug)]
pub struct Elem {
    pub table: TableIdx,
    pub offset: Expr,
    pub init: Vec<FuncIdx>,
}

// Data segments

#[derive(Debug)]
pub struct Data {
    pub data: MemIdx,
    pub offset: Expr,
    pub init: Vec<u8>,
}

// Start function

#[derive(Debug)]
pub struct Start {
    pub func: FuncIdx,
}

// Exports

#[derive(Debug)]
pub struct Export {
    pub name: Name,
    pub desc: ExportDesc,
}

#[derive(Debug)]
pub enum ExportDesc {
    Func(FuncIdx),
    Table(TableIdx),
    Mem(MemIdx),
    Global(GlobalIdx),
}

// Imports

#[derive(Debug)]
pub struct Import {
    pub module: Name,
    pub name: Name,
    pub desc: ImportDesc,
}

#[derive(Debug)]
pub enum ImportDesc {
    Func(TypeIdx),
    Table(TableType),
    Mem(MemType),
    Global(GlobalType),
}

// Implementations

impl Module {
    /// A fresh module with every section empty.
    pub fn new() -> (m: Module)
        ensures
            m.types@.len() == 0,
            m.funcs@.len() == 0,
            m.tables@.len() == 0,
            m.mems@.len() == 0,
            m.globals@.len() == 0,
            m.elem@.len() == 0,
            m.data@.len() == 0,
            m.start is None,
            m.imports@.len() == 0,
            m.exports@.len() == 0,
    {
        Module {
            types: Vec::new(),
            funcs: Vec::new(),
            tables: Vec::new(),
            mems: Vec::new(),
            globals: Vec::new(),
            elem: Vec::new(),
            data: Vec::new(),
            start: None,
            imports: Vec::new(),
            exports: Vec::new(),
        }
    }
}

} // verus!
