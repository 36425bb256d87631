//! The binary encoder: serializes a module into the exact byte stream the
//! binary format defines.
//!
//! Every emitting method carries an `ensures` clause pinning the emitted
//! bytes to a specification-level byte sequence, so the whole encoding of
//! a module is characterized exactly by [`modules::module_bytes`].

pub mod instructions;
pub mod modules;
pub mod types;
pub mod values;

use vstd::prelude::*;

use super::syntax::modules::Module;

verus! {

/// Failure of the binary encoder.  With an in-memory byte sink, the only
/// failure left is being asked to encode an instruction the encoder does
/// not implement.
#[derive(Clone, Copy, Debug, PartialEq, Eq, Structural)]
pub enum EncodeError {
    UnsupportedInstr,
}

/// The encoder: accumulates the encoded bytes of one module in memory.
/// The caller hands the finished byte sequence to whatever sink it owns.
pub struct Emitter {
    pub out: Vec<u8>,
}

impl Emitter {
    /// A fresh emitter with an empty output buffer.
    pub fn new() -> (e: Emitter)
        ensures
            e.out@ == Seq::<u8>::empty(),
    {
        Emitter { out: Vec::new() }
    }

    /// Append raw bytes to the output.
    pub fn write(&mut self, buf: &[u8]) -> (r: Result<(), EncodeError>)
        ensures
            r is Ok,
            final(self).out@ == old(self).out@ + buf@,
    {
        self.out.extend_from_slice(buf);
        Ok(())
    }
}

/// Encode a whole module.  Succeeds exactly when every instruction in the
/// module is one the encoder implements, and then returns precisely the
/// byte stream the binary format defines for it.
pub fn emit(module: &Module) -> (r: Result<Vec<u8>, EncodeError>)
    ensures
        modules::module_supported(*module) ==> (r matches Ok(v) && v@
            == modules::module_bytes(*module)),
        !modules::module_supported(*module) ==> r == Result::<Vec<u8>, EncodeError>::Err(
            EncodeError::UnsupportedInstr,
        ),
{
    let mut emitter = Emitter::new();
    match emitter.emit_module(module) {
        Ok(()) => Ok(emitter.out),
        Err(e) => Err(e),
    }
}

} // verus!
