//! Encoding of the type grammar: value types, result types and function
//! types.

use vstd::prelude::*;

use super::values::uleb;
use super::EncodeError;
use super::Emitter;
use crate::wasm::syntax::types::{FuncType, ResultType, ValType};

verus! {

/// The one-byte encoding of a value type.
pub open spec fn val_type_byte(t: ValType) -> u8 {
    match t {
        ValType::I32 => 0x7f,
        ValType::I64 => 0x7e,
        ValType::F32 => 0x7d,
        ValType::F64 => 0x7c,
    }
}

/// The encoding of a result type: its length followed by one byte per
/// value type.
pub open spec fn result_type_bytes(ts: Seq<ValType>) -> Seq<u8> {
    uleb(ts.len()) + Seq::new(ts.len(), |i: int| val_type_byte(ts[i]))
}

/// The encoding of a function type: the `0x60` tag, then the parameter
/// and result types as result types.
pub open spec fn func_type_bytes(ft: FuncType) -> Seq<u8> {
    seq![0x60u8] + result_type_bytes(ft.0.0@) + result_type_bytes(ft.1.0@)
}

impl Emitter {
    /// Append the one-byte encoding of a value type.
    pub fn emit_val_type(&mut self, val_type: &ValType) -> (r: Result<(), EncodeError>)
        ensures
            r is Ok,
            final(self).out@ == old(self).out@ + seq![val_type_byte(*val_type)],
    {
        self.out.push(
            match val_type {
                ValType::I32 => 0x7f,
                ValType::I64 => 0x7e,
                ValType::F32 => 0x7d,
                ValType::F64 => 0x7c,
            },
        );
        proof {
            assert(self.out@ =~= old(self).out@ + seq![val_type_byte(*val_type)]);
        }
        Ok(())
    }

    /// Append the encoding of a result type.
    pub fn emit_result_type(&mut self, result_type: &ResultType) -> (r: Result<(), EncodeError>)
        ensures
            r is Ok,
            final(self).out@ == old(self).out@ + result_type_bytes(result_type.0@),
    {
        let n = result_type.0.len();
        self.write_uleb(n as u64)?;
        let ghost mid = self.out@;
        let ghost ts = result_type.0@;
        for i in 0..n
            invariant
                n == ts.len(),
                result_type.0@ == ts,
                self.out@ == mid + Seq::new(i as nat, |j: int| val_type_byte(ts[j])),
        {
            self.emit_val_type(&result_type.0[i])?;
            proof {
                assert(self.out@ =~= mid + Seq::new((i + 1) as nat, |j: int| val_type_byte(ts[j])));
            }
        }
        proof {
            assert(self.out@ =~= old(self).out@ + result_type_bytes(ts));
        }
        Ok(())
    }

    /// Append the encoding of a function type.
    pub fn emit_func_type(&mut self, func_type: &FuncType) -> (r: Result<(), EncodeError>)
        ensures
            r is Ok,
            final(self).out@ == old(self).out@ + func_type_bytes(*func_type),
    {
        self.out.push(0x60);
        self.emit_result_type(&func_type.0)?;
        self.emit_result_type(&func_type.1)?;
        proof {
            assert(self.out@ =~= old(self).out@ + func_type_bytes(*func_type));
        }
        Ok(())
    }
}

} // verus!
