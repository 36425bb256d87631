//! The WebAssembly side of the backend: the abstract module model
//! (`syntax`) and the binary encoder (`binary`), with the commonly used
//! names re-exported at this level.

pub mod binary;
pub mod exec;
pub mod syntax;

pub use binary::emit;
pub use binary::EncodeError;
pub use syntax::instructions::BlockType;
pub use syntax::instructions::Expr;
pub use syntax::instructions::Instr;
pub use syntax::instructions::MemArg;
pub use syntax::modules::Data;
pub use syntax::modules::Elem;
pub use syntax::modules::Export;
pub use syntax::modules::ExportDesc;
pub use syntax::modules::Func;
pub use syntax::modules::FuncIdx;
pub use syntax::modules::Global;
pub use syntax::modules::GlobalIdx;
pub use syntax::modules::Import;
pub use syntax::modules::ImportDesc;
pub use syntax::modules::LabelIdx;
pub use syntax::modules::LocalIdx;
pub use syntax::modules::Mem;
pub use syntax::modules::MemIdx;
pub use syntax::modules::Module;
pub use syntax::modules::Start;
pub use syntax::modules::Table;
pub use syntax::modules::TableIdx;
pub use syntax::modules::TypeIdx;
pub use syntax::types::ElemType;
pub use syntax::types::ExternType;
pub use syntax::types::FuncType;
pub use syntax::types::GlobalType;
pub use syntax::types::Limits;
pub use syntax::types::MemType;
pub use syntax::types::Mut;
pub use syntax::types::ResultType;
pub use syntax::types::TableType;
pub use syntax::types::ValType;
pub use syntax::values::Name;
