//! WebAssembly type grammar: value types, result types, function types,
//! limits, memory/table/global types and external types.

use vstd::prelude::*;

verus! {

/// One of the four primitive value types of the instruction set.
#[derive(Clone, Copy, Debug, PartialEq, Eq, Structural)]
pub enum ValType {
    I32,
    I64,
    F32,
    F64,
}

/// An ordered sequence of value types, as used for parameters and results.
#[derive(Debug)]
pub struct ResultType(pub Vec<ValType>);

/// A function type: parameter types followed by result types.
#[derive(Debug)]
pub struct FuncType(pub ResultType, pub ResultType);

/// Size limits for memories and tables.
#[derive(Debug)]
pub struct Limits {
    pub min: u32,
    pub max: Option<u32>,
}

/// A memory type is just its limits.
#[derive(Debug)]
pub struct MemType(pub Limits);

/// A table type: limits plus the element type of the table.
#[derive(Debug)]
pub struct TableType(pub Limits, pub ElemType);

/// The single element type of tables (function references).
#[derive(Debug)]
pub struct ElemType;

/// A global type: mutability plus the value type of the global.
#[derive(Debug)]
pub struct GlobalType(pub Mut, pub ValType);

/// Mutability of a global.
#[derive(Debug)]
pub enum Mut {
    Const,
    Var,
}

/// The type of an importable/exportable entity.
#[derive(Debug)]
pub enum ExternType {
    Func(FuncType),
    Table(TableType),
    Mem(MemType),
    Global(GlobalType),
}

} // verus!
