//! Abstract syntax of WebAssembly modules, following the structure of the
//! module grammar: types, instructions, module fields and names.

pub mod instructions;
pub mod modules;
pub mod types;
pub mod values;
