//! Encoding of instructions: each instruction maps to a fixed opcode byte
//! (or the `0xFC` prefix and a sub-opcode) followed by its operands.
//!
//! Structured control instructions, indirect calls and 64-bit integer
//! constants have no encoding here; asking for one is a hard failure, the
//! encoder never skips or substitutes an opcode.

use vstd::prelude::*;

use super::values::{le4, le8, s32_of_u32, sleb, uleb};
use super::EncodeError;
use super::Emitter;
use crate::wasm::syntax::instructions::{Expr, Instr};

verus! {

/// Whether the encoder implements the given instruction.
pub open spec fn instr_supported(i: Instr) -> bool {
    match i {
        Instr::Block(_, _) => false,
        Instr::Loop(_, _) => false,
        Instr::IfElse(_, _, _) => false,
        Instr::Br(_) => false,
        Instr::BrIf(_) => false,
        Instr::BrTable(_, _) => false,
        Instr::Call(_) => false,
        Instr::CallIndirect(_) => false,
        Instr::I64Const(_) => false,
        Instr::I32ReinterpretF64 => false,
        Instr::I64ReinterpretF32 => false,
        Instr::F32ReinterpretI64 => false,
        Instr::F64ReinterpretI32 => false,
        _ => true,
    }
}

/// The byte encoding of one supported instruction (empty for the
/// unsupported ones, which the encoder refuses before consulting this).
pub open spec fn instr_bytes(i: Instr) -> Seq<u8> {
    match i {
        // Control instructions
        Instr::Unreachable => seq![0x00u8],
        Instr::Nop => seq![0x01u8],
        Instr::Return => seq![0x0fu8],
        // Parametric instructions
        Instr::Drop => seq![0x1au8],
        Instr::Select => seq![0x1bu8],
        // Variable instructions
        Instr::LocalGet(x) => seq![0x20u8] + uleb(x.0 as nat),
        Instr::LocalSet(x) => seq![0x21u8] + uleb(x.0 as nat),
        Instr::LocalTee(x) => seq![0x22u8] + uleb(x.0 as nat),
        Instr::GlobalGet(x) => seq![0x23u8] + uleb(x.0 as nat),
        Instr::GlobalSet(x) => seq![0x24u8] + uleb(x.0 as nat),
        // Memory instructions: alignment exponent, then offset
        Instr::I32Load(m) => seq![0x28u8] + uleb(m.align as nat) + uleb(m.offset as nat),
        Instr::I64Load(m) => seq![0x29u8] + uleb(m.align as nat) + uleb(m.offset as nat),
        Instr::F32Load(m) => seq![0x2au8] + uleb(m.align as nat) + uleb(m.offset as nat),
        Instr::F64Load(m) => seq![0x2bu8] + uleb(m.align as nat) + uleb(m.offset as nat),
        Instr::I32Load8S(m) => seq![0x2cu8] + uleb(m.align as nat) + uleb(m.offset as nat),
        Instr::I32Load8U(m) => seq![0x2du8] + uleb(m.align as nat) + uleb(m.offset as nat),
        Instr::I32Load16S(m) => seq![0x2eu8] + uleb(m.align as nat) + uleb(m.offset as nat),
        Instr::I32Load16U(m) => seq![0x2fu8] + uleb(m.align as nat) + uleb(m.offset as nat),
        Instr::I64Load8S(m) => seq![0x30u8] + uleb(m.align as nat) + uleb(m.offset as nat),
        Instr::I64Load8U(m) => seq![0x31u8] + uleb(m.align as nat) + uleb(m.offset as nat),
        Instr::I64Load16S(m) => seq![0x32u8] + uleb(m.align as nat) + uleb(m.offset as nat),
        Instr::I64Load16U(m) => seq![0x33u8] + uleb(m.align as nat) + uleb(m.offset as nat),
        Instr::I64Load32S(m) => seq![0x34u8] + uleb(m.align as nat) + uleb(m.offset as nat),
        Instr::I64Load32U(m) => seq![0x35u8] + uleb(m.align as nat) + uleb(m.offset as nat),
        Instr::I32Store(m) => seq![0x36u8] + uleb(m.align as nat) + uleb(m.offset as nat),
        Instr::I64Store(m) => seq![0x37u8] + uleb(m.align as nat) + uleb(m.offset as nat),
        Instr::F32Store(m) => seq![0x38u8] + uleb(m.align as nat) + uleb(m.offset as nat),
        Instr::F64Store(m) => seq![0x39u8] + uleb(m.align as nat) + uleb(m.offset as nat),
        Instr::I32Store8(m) => seq![0x3au8] + uleb(m.align as nat) + uleb(m.offset as nat),
        Instr::I32Store16(m) => seq![0x3bu8] + uleb(m.align as nat) + uleb(m.offset as nat),
        Instr::I64Store8(m) => seq![0x3cu8] + uleb(m.align as nat) + uleb(m.offset as nat),
        Instr::I64Store16(m) => seq![0x3du8] + uleb(m.align as nat) + uleb(m.offset as nat),
        Instr::I64Store32(m) => seq![0x3eu8] + uleb(m.align as nat) + uleb(m.offset as nat),
        Instr::MemorySize => seq![0x3fu8, 0x00u8],
        Instr::MemoryGrow => seq![0x40u8, 0x00u8],
        // Numeric instructions
        Instr::I32Const(n) => seq![0x41u8] + sleb(s32_of_u32(n)),
        Instr::F32Const(z) => seq![0x43u8] + le4(z),
        Instr::F64Const(z) => seq![0x44u8] + le8(z),
        Instr::I32Eqz => seq![0x45u8],
        Instr::I32Eq => seq![0x46u8],
        Instr::I32Ne => seq![0x47u8],
        Instr::I32LtS => seq![0x48u8],
        Instr::I32LtU => seq![0x49u8],
        Instr::I32GtS => seq![0x4au8],
        Instr::I32GtU => seq![0x4bu8],
        Instr::I32LeS => seq![0x4cu8],
        Instr::I32LeU => seq![0x4du8],
        Instr::I32GeS => seq![0x4eu8],
        Instr::I32GeU => seq![0x4fu8],
        Instr::I64Eqz => seq![0x50u8],
        Instr::I64Eq => seq![0x51u8],
        Instr::I64Ne => seq![0x52u8],
        Instr::I64LtS => seq![0x53u8],
        Instr::I64LtU => seq![0x54u8],
        Instr::I64GtS => seq![0x55u8],
        Instr::I64GtU => seq![0x56u8],
        Instr::I64LeS => seq![0x57u8],
        Instr::I64LeU => seq![0x58u8],
        Instr::I64GeS => seq![0x59u8],
        Instr::I64GeU => seq![0x5au8],
        Instr::F32Eq => seq![0x5bu8],
        Instr::F32Ne => seq![0x5cu8],
        Instr::F32Lt => seq![0x5du8],
        Instr::F32Gt => seq![0x5eu8],
        Instr::F32Le => seq![0x5fu8],
        Instr::F32Ge => seq![0x60u8],
        Instr::F64Eq => seq![0x61u8],
        Instr::F64Ne => seq![0x62u8],
        Instr::F64Lt => seq![0x63u8],
        Instr::F64Gt => seq![0x64u8],
        Instr::F64Le => seq![0x65u8],
        Instr::F64Ge => seq![0x66u8],
        Instr::I32Clz => seq![0x67u8],
        Instr::I32Ctz => seq![0x68u8],
        Instr::I32Popcnt => seq![0x69u8],
        Instr::I32Add => seq![0x6au8],
        Instr::I32Sub => seq![0x6bu8],
        Instr::I32Mul => seq![0x6cu8],
        Instr::I32DivS => seq![0x6du8],
        Instr::I32DivU => seq![0x6eu8],
        Instr::I32RemS => seq![0x6fu8],
        Instr::I32RemU => seq![0x70u8],
        Instr::I32And => seq![0x71u8],
        Instr::I32Or => seq![0x72u8],
        Instr::I32Xor => seq![0x73u8],
        Instr::I32Shl => seq![0x74u8],
        Instr::I32ShrS => seq![0x75u8],
        Instr::I32ShrU => seq![0x76u8],
        Instr::I32Rotl => seq![0x77u8],
        Instr::I32Rotr => seq![0x78u8],
        Instr::I64Clz => seq![0x79u8],
        Instr::I64Ctz => seq![0x7au8],
        Instr::I64Popcnt => seq![0x7bu8],
        Instr::I64Add => seq![0x7cu8],
        Instr::I64Sub => seq![0x7du8],
        Instr::I64Mul => seq![0x7eu8],
        Instr::I64DivS => seq![0x7fu8],
        Instr::I64DivU => seq![0x80u8],
        Instr::I64RemS => seq![0x81u8],
        Instr::I64RemU => seq![0x82u8],
        Instr::I64And => seq![0x83u8],
        Instr::I64Or => seq![0x84u8],
        Instr::I64Xor => seq![0x85u8],
        Instr::I64Shl => seq![0x86u8],
        Instr::I64ShrS => seq![0x87u8],
        Instr::I64ShrU => seq![0x88u8],
        Instr::I64Rotl => seq![0x89u8],
        Instr::I64Rotr => seq![0x8au8],
        Instr::F32Abs => seq![0x8bu8],
        Instr::F32Neg => seq![0x8cu8],
        Instr::F32Ceil => seq![0x8du8],
        Instr::F32Floor => seq![0x8eu8],
        Instr::F32Trunc => seq![0x8fu8],
        Instr::F32Nearest => seq![0x90u8],
        Instr::F32Sqrt => seq![0x91u8],
        Instr::F32Add => seq![0x92u8],
        Instr::F32Sub => seq![0x93u8],
        Instr::F32Mul => seq![0x94u8],
        Instr::F32Div => seq![0x95u8],
        Instr::F32Min => seq![0x96u8],
        Instr::F32Max => seq![0x97u8],
        Instr::F32Copysign => seq![0x98u8],
        Instr::F64Abs => seq![0x99u8],
        Instr::F64Neg => seq![0x9au8],
        Instr::F64Ceil => seq![0x9bu8],
        Instr::F64Floor => seq![0x9cu8],
        Instr::F64Trunc => seq![0x9du8],
        Instr::F64Nearest => seq![0x9eu8],
        Instr::F64Sqrt => seq![0x9fu8],
        Instr::F64Add => seq![0xa0u8],
        Instr::F64Sub => seq![0xa1u8],
        Instr::F64Mul => seq![0xa2u8],
        Instr::F64Div => seq![0xa3u8],
        Instr::F64Min => seq![0xa4u8],
        Instr::F64Max => seq![0xa5u8],
        Instr::F64Copysign => seq![0xa6u8],
        Instr::I32WrapI64 => seq![0xa7u8],
        Instr::I32TruncF32S => seq![0xa8u8],
        Instr::I32TruncF32U => seq![0xa9u8],
        Instr::I32TruncF64S => seq![0xaau8],
        Instr::I32TruncF64U => seq![0xabu8],
        Instr::I64ExtendI32S => seq![0xacu8],
        Instr::I64ExtendI32U => seq![0xadu8],
        Instr::I64TruncF32S => seq![0xaeu8],
        Instr::I64TruncF32U => seq![0xafu8],
        Instr::I64TruncF64S => seq![0xb0u8],
        Instr::I64TruncF64U => seq![0xb1u8],
        Instr::F32ConvertI32S => seq![0xb2u8],
        Instr::F32ConvertI32U => seq![0xb3u8],
        Instr::F32ConvertI64S => seq![0xb4u8],
        Instr::F32ConvertI64U => seq![0xb5u8],
        Instr::F32DemoteF64 => seq![0xb6u8],
        Instr::F64ConvertI32S => seq![0xb7u8],
        Instr::F64ConvertI32U => seq![0xb8u8],
        Instr::F64ConvertI64S => seq![0xb9u8],
        Instr::F64ConvertI64U => seq![0xbau8],
        Instr::F64PromoteF32 => seq![0xbbu8],
        Instr::I32ReinterpretF32 => seq![0xbcu8],
        Instr::I64ReinterpretF64 => seq![0xbdu8],
        Instr::F32ReinterpretI32 => seq![0xbeu8],
        Instr::F64ReinterpretI64 => seq![0xbfu8],
        Instr::I32Extend8S => seq![0xc0u8],
        Instr::I32Extend16S => seq![0xc1u8],
        Instr::I64Extend8S => seq![0xc2u8],
        Instr::I64Extend16S => seq![0xc3u8],
        Instr::I64Extend32S => seq![0xc4u8],
        Instr::I32TruncSatF32S => seq![0xfcu8, 0x00u8],
        Instr::I32TruncSatF32U => seq![0xfcu8, 0x01u8],
        Instr::I32TruncSatF64S => seq![0xfcu8, 0x02u8],
        Instr::I32TruncSatF64U => seq![0xfcu8, 0x03u8],
        Instr::I64TruncSatF32S => seq![0xfcu8, 0x04u8],
        Instr::I64TruncSatF32U => seq![0xfcu8, 0x05u8],
        Instr::I64TruncSatF64S => seq![0xfcu8, 0x06u8],
        Instr::I64TruncSatF64U => seq![0xfcu8, 0x07u8],
        _ => Seq::empty(),
    }
}

/// The concatenated encodings of an instruction sequence.
pub open spec fn instrs_bytes(s: Seq<Instr>) -> Seq<u8>
    decreases s.len(),
{
    if s.len() == 0 {
        Seq::empty()
    } else {
        instr_bytes(s[0]) + instrs_bytes(s.drop_first())
    }
}

/// Appending one instruction appends its encoding.
pub proof fn lemma_instrs_bytes_last(s: Seq<Instr>)
    requires
        s.len() > 0,
    ensures
        instrs_bytes(s) == instrs_bytes(s.drop_last()) + instr_bytes(s.last()),
    decreases s.len(),
{
    if s.len() == 1 {
        assert(s.drop_last() =~= Seq::<Instr>::empty());
        assert(s.drop_first() =~= Seq::<Instr>::empty());
        assert(instrs_bytes(s) =~= instrs_bytes(s.drop_last()) + instr_bytes(s.last()));
    } else {
        lemma_instrs_bytes_last(s.drop_first());
        assert(s.drop_first().drop_last() =~= s.drop_last().drop_first());
        assert(instrs_bytes(s) =~= instrs_bytes(s.drop_last()) + instr_bytes(s.last()));
    }
}

/// Whether the encoder implements every instruction of an expression.
pub open spec fn expr_supported(e: Expr) -> bool {
    forall|i: int| 0 <= i < e.0@.len() ==> instr_supported(#[trigger] e.0@[i])
}

/// The encoding of an expression: its instructions followed by the end
/// byte.
pub open spec fn expr_bytes(e: Expr) -> Seq<u8> {
    instrs_bytes(e.0@) + seq![0x0bu8]
}

impl Emitter {
    /// Append the encoding of one instruction; fails, emitting nothing,
    /// on an instruction the encoder does not implement.
    #[verifier::rlimit(50)]
    pub(crate) fn emit_instr(&mut self, instr: &Instr) -> (r: Result<(), EncodeError>)
        ensures
            instr_supported(*instr) ==> r is Ok && final(self).out@ == old(self).out@
                + instr_bytes(*instr),
            !instr_supported(*instr) ==> r == Result::<(), EncodeError>::Err(
                EncodeError::UnsupportedInstr,
            ) && final(self).out@ == old(self).out@,
    {
        match instr {
            // Control instructions
            Instr::Unreachable => self.out.push(0x00),
            Instr::Nop => self.out.push(0x01),
            Instr::Block(_, _) => return Err(EncodeError::UnsupportedInstr),
            Instr::Loop(_, _) => return Err(EncodeError::UnsupportedInstr),
            Instr::IfElse(_, _, _) => return Err(EncodeError::UnsupportedInstr),
            Instr::Br(_) => return Err(EncodeError::UnsupportedInstr),
            Instr::BrIf(_) => return Err(EncodeError::UnsupportedInstr),
            Instr::BrTable(_, _) => return Err(EncodeError::UnsupportedInstr),
            Instr::Return => self.out.push(0x0f),
            Instr::Call(_) => return Err(EncodeError::UnsupportedInstr),
            Instr::CallIndirect(_) => return Err(EncodeError::UnsupportedInstr),
            // Parametric instructions
            Instr::Drop => self.out.push(0x1a),
            Instr::Select => self.out.push(0x1b),
            // Variable instructions
            Instr::LocalGet(x) => {
                self.out.push(0x20);
                self.write_uleb(x.0 as u64)?;
            },
            Instr::LocalSet(x) => {
                self.out.push(0x21);
                self.write_uleb(x.0 as u64)?;
            },
            Instr::LocalTee(x) => {
                self.out.push(0x22);
                self.write_uleb(x.0 as u64)?;
            },
            Instr::GlobalGet(x) => {
                self.out.push(0x23);
                self.write_uleb(x.0 as u64)?;
            },
            Instr::GlobalSet(x) => {
                self.out.push(0x24);
                self.write_uleb(x.0 as u64)?;
            },
            // Memory instructions
            Instr::I32Load(m) => {
                self.out.push(0x28);
                self.write_uleb(m.align as u64)?;
                self.write_uleb(m.offset as u64)?;
            },
            Instr::I64Load(m) => {
                self.out.push(0x29);
                self.write_uleb(m.align as u64)?;
                self.write_uleb(m.offset as u64)?;
            },
            Instr::F32Load(m) => {
                self.out.push(0x2a);
                self.write_uleb(m.align as u64)?;
                self.write_uleb(m.offset as u64)?;
            },
            Instr::F64Load(m) => {
                self.out.push(0x2b);
                self.write_uleb(m.align as u64)?;
                self.write_uleb(m.offset as u64)?;
            },
            Instr::I32Load8S(m) => {
                self.out.push(0x2c);
                self.write_uleb(m.align as u64)?;
                self.write_uleb(m.offset as u64)?;
            },
            Instr::I32Load8U(m) => {
                self.out.push(0x2d);
                self.write_uleb(m.align as u64)?;
                self.write_uleb(m.offset as u64)?;
            },
            Instr::I32Load16S(m) => {
                self.out.push(0x2e);
                self.write_uleb(m.align as u64)?;
                self.write_uleb(m.offset as u64)?;
            },
            Instr::I32Load16U(m) => {
                self.out.push(0x2f);
                self.write_uleb(m.align as u64)?;
                self.write_uleb(m.offset as u64)?;
            },
            Instr::I64Load8S(m) => {
                self.out.push(0x30);
                self.write_uleb(m.align as u64)?;
                self.write_uleb(m.offset as u64)?;
            },
            Instr::I64Load8U(m) => {
                self.out.push(0x31);
                self.write_uleb(m.align as u64)?;
                self.write_uleb(m.offset as u64)?;
            },
            Instr::I64Load16S(m) => {
                self.out.push(0x32);
                self.write_uleb(m.align as u64)?;
                self.write_uleb(m.offset as u64)?;
            },
            Instr::I64Load16U(m) => {
                self.out.push(0x33);
                self.write_uleb(m.align as u64)?;
                self.write_uleb(m.offset as u64)?;
            },
            Instr::I64Load32S(m) => {
                self.out.push(0x34);
                self.write_uleb(m.align as u64)?;
                self.write_uleb(m.offset as u64)?;
            },
            Instr::I64Load32U(m) => {
                self.out.push(0x35);
                self.write_uleb(m.align as u64)?;
                self.write_uleb(m.offset as u64)?;
            },
            Instr::I32Store(m) => {
                self.out.push(0x36);
                self.write_uleb(m.align as u64)?;
                self.write_uleb(m.offset as u64)?;
            },
            Instr::I64Store(m) => {
                self.out.push(0x37);
                self.write_uleb(m.align as u64)?;
                self.write_uleb(m.offset as u64)?;
            },
            Instr::F32Store(m) => {
                self.out.push(0x38);
                self.write_uleb(m.align as u64)?;
                self.write_uleb(m.offset as u64)?;
            },
            Instr::F64Store(m) => {
                self.out.push(0x39);
                self.write_uleb(m.align as u64)?;
                self.write_uleb(m.offset as u64)?;
            },
            Instr::I32Store8(m) => {
                self.out.push(0x3a);
                self.write_uleb(m.align as u64)?;
                self.write_uleb(m.offset as u64)?;
            },
            Instr::I32Store16(m) => {
                self.out.push(0x3b);
                self.write_uleb(m.align as u64)?;
                self.write_uleb(m.offset as u64)?;
            },
            Instr::I64Store8(m) => {
                self.out.push(0x3c);
                self.write_uleb(m.align as u64)?;
                self.write_uleb(m.offset as u64)?;
            },
            Instr::I64Store16(m) => {
                self.out.push(0x3d);
                self.write_uleb(m.align as u64)?;
                self.write_uleb(m.offset as u64)?;
            },
            Instr::I64Store32(m) => {
                self.out.push(0x3e);
                self.write_uleb(m.align as u64)?;
                self.write_uleb(m.offset as u64)?;
            },
            Instr::MemorySize => {
                self.out.push(0x3f);
                self.out.push(0x00);
            },
            Instr::MemoryGrow => {
                self.out.push(0x40);
                self.out.push(0x00);
            },
            // Numeric instructions
            Instr::I32Const(n) => {
                self.out.push(0x41);
                self.write_i32(*n)?;
            },
            Instr::I64Const(_) => return Err(EncodeError::UnsupportedInstr),
            Instr::F32Const(z) => {
                self.out.push(0x43);
                self.write_le4(*z)?;
            },
            Instr::F64Const(z) => {
                self.out.push(0x44);
                self.write_le8(*z)?;
            },
            Instr::I32Eqz => self.out.push(0x45),
            Instr::I32Eq => self.out.push(0x46),
            Instr::I32Ne => self.out.push(0x47),
            Instr::I32LtS => self.out.push(0x48),
            Instr::I32LtU => self.out.push(0x49),
            Instr::I32GtS => self.out.push(0x4a),
            Instr::I32GtU => self.out.push(0x4b),
            Instr::I32LeS => self.out.push(0x4c),
            Instr::I32LeU => self.out.push(0x4d),
            Instr::I32GeS => self.out.push(0x4e),
            Instr::I32GeU => self.out.push(0x4f),
            Instr::I64Eqz => self.out.push(0x50),
            Instr::I64Eq => self.out.push(0x51),
            Instr::I64Ne => self.out.push(0x52),
            Instr::I64LtS => self.out.push(0x53),
            Instr::I64LtU => self.out.push(0x54),
            Instr::I64GtS => self.out.push(0x55),
            Instr::I64GtU => self.out.push(0x56),
            Instr::I64LeS => self.out.push(0x57),
            Instr::I64LeU => self.out.push(0x58),
            Instr::I64GeS => self.out.push(0x59),
            Instr::I64GeU => self.out.push(0x5a),
            Instr::F32Eq => self.out.push(0x5b),
            Instr::F32Ne => self.out.push(0x5c),
            Instr::F32Lt => self.out.push(0x5d),
            Instr::F32Gt => self.out.push(0x5e),
            Instr::F32Le => self.out.push(0x5f),
            Instr::F32Ge => self.out.push(0x60),
            Instr::F64Eq => self.out.push(0x61),
            Instr::F64Ne => self.out.push(0x62),
            Instr::F64Lt => self.out.push(0x63),
            Instr::F64Gt => self.out.push(0x64),
            Instr::F64Le => self.out.push(0x65),
            Instr::F64Ge => self.out.push(0x66),
            Instr::I32Clz => self.out.push(0x67),
            Instr::I32Ctz => self.out.push(0x68),
            Instr::I32Popcnt => self.out.push(0x69),
            Instr::I32Add => self.out.push(0x6a),
            Instr::I32Sub => self.out.push(0x6b),
            Instr::I32Mul => self.out.push(0x6c),
            Instr::I32DivS => self.out.push(0x6d),
            Instr::I32DivU => self.out.push(0x6e),
            Instr::I32RemS => self.out.push(0x6f),
            Instr::I32RemU => self.out.push(0x70),
            Instr::I32And => self.out.push(0x71),
            Instr::I32Or => self.out.push(0x72),
            Instr::I32Xor => self.out.push(0x73),
            Instr::I32Shl => self.out.push(0x74),
            Instr::I32ShrS => self.out.push(0x75),
            Instr::I32ShrU => self.out.push(0x76),
            Instr::I32Rotl => self.out.push(0x77),
            Instr::I32Rotr => self.out.push(0x78),
            Instr::I64Clz => self.out.push(0x79),
            Instr::I64Ctz => self.out.push(0x7a),
            Instr::I64Popcnt => self.out.push(0x7b),
            Instr::I64Add => self.out.push(0x7c),
            Instr::I64Sub => self.out.push(0x7d),
            Instr::I64Mul => self.out.push(0x7e),
            Instr::I64DivS => self.out.push(0x7f),
            Instr::I64DivU => self.out.push(0x80),
            Instr::I64RemS => self.out.push(0x81),
            Instr::I64RemU => self.out.push(0x82),
            Instr::I64And => self.out.push(0x83),
            Instr::I64Or => self.out.push(0x84),
            Instr::I64Xor => self.out.push(0x85),
            Instr::I64Shl => self.out.push(0x86),
            Instr::I64ShrS => self.out.push(0x87),
            Instr::I64ShrU => self.out.push(0x88),
            Instr::I64Rotl => self.out.push(0x89),
            Instr::I64Rotr => self.out.push(0x8a),
            Instr::F32Abs => self.out.push(0x8b),
            Instr::F32Neg => self.out.push(0x8c),
            Instr::F32Ceil => self.out.push(0x8d),
            Instr::F32Floor => self.out.push(0x8e),
            Instr::F32Trunc => self.out.push(0x8f),
            Instr::F32Nearest => self.out.push(0x90),
            Instr::F32Sqrt => self.out.push(0x91),
            Instr::F32Add => self.out.push(0x92),
            Instr::F32Sub => self.out.push(0x93),
            Instr::F32Mul => self.out.push(0x94),
            Instr::F32Div => self.out.push(0x95),
            Instr::F32Min => self.out.push(0x96),
            Instr::F32Max => self.out.push(0x97),
            Instr::F32Copysign => self.out.push(0x98),
            Instr::F64Abs => self.out.push(0x99),
            Instr::F64Neg => self.out.push(0x9a),
            Instr::F64Ceil => self.out.push(0x9b),
            Instr::F64Floor => self.out.push(0x9c),
            Instr::F64Trunc => self.out.push(0x9d),
            Instr::F64Nearest => self.out.push(0x9e),
            Instr::F64Sqrt => self.out.push(0x9f),
            Instr::F64Add => self.out.push(0xa0),
            Instr::F64Sub => self.out.push(0xa1),
            Instr::F64Mul => self.out.push(0xa2),
            Instr::F64Div => self.out.push(0xa3),
            Instr::F64Min => self.out.push(0xa4),
            Instr::F64Max => self.out.push(0xa5),
            Instr::F64Copysign => self.out.push(0xa6),
            Instr::I32WrapI64 => self.out.push(0xa7),
            Instr::I32TruncF32S => self.out.push(0xa8),
            Instr::I32TruncF32U => self.out.push(0xa9),
            Instr::I32TruncF64S => self.out.push(0xaa),
            Instr::I32TruncF64U => self.out.push(0xab),
            Instr::I64ExtendI32S => self.out.push(0xac),
            Instr::I64ExtendI32U => self.out.push(0xad),
            Instr::I64TruncF32S => self.out.push(0xae),
            Instr::I64TruncF32U => self.out.push(0xaf),
            Instr::I64TruncF64S => self.out.push(0xb0),
            Instr::I64TruncF64U => self.out.push(0xb1),
            Instr::F32ConvertI32S => self.out.push(0xb2),
            Instr::F32ConvertI32U => self.out.push(0xb3),
            Instr::F32ConvertI64S => self.out.push(0xb4),
            Instr::F32ConvertI64U => self.out.push(0xb5),
            Instr::F32DemoteF64 => self.out.push(0xb6),
            Instr::F64ConvertI32S => self.out.push(0xb7),
            Instr::F64ConvertI32U => self.out.push(0xb8),
            Instr::F64ConvertI64S => self.out.push(0xb9),
            Instr::F64ConvertI64U => self.out.push(0xba),
            Instr::F64PromoteF32 => self.out.push(0xbb),
            Instr::I32ReinterpretF32 => self.out.push(0xbc),
            Instr::I64ReinterpretF64 => self.out.push(0xbd),
            Instr::F32ReinterpretI32 => self.out.push(0xbe),
            Instr::F64ReinterpretI64 => self.out.push(0xbf),
            Instr::I32ReinterpretF64 => return Err(EncodeError::UnsupportedInstr),
            Instr::I64ReinterpretF32 => return Err(EncodeError::UnsupportedInstr),
            Instr::F32ReinterpretI64 => return Err(EncodeError::UnsupportedInstr),
            Instr::F64ReinterpretI32 => return Err(EncodeError::UnsupportedInstr),
            Instr::I32Extend8S => self.out.push(0xc0),
            Instr::I32Extend16S => self.out.push(0xc1),
            Instr::I64Extend8S => self.out.push(0xc2),
            Instr::I64Extend16S => self.out.push(0xc3),
            Instr::I64Extend32S => self.out.push(0xc4),
            Instr::I32TruncSatF32S => {
                self.out.push(0xfc);
                self.out.push(0x00);
            },
            Instr::I32TruncSatF32U => {
                self.out.push(0xfc);
                self.out.push(0x01);
            },
            Instr::I32TruncSatF64S => {
                self.out.push(0xfc);
                self.out.push(0x02);
            },
            Instr::I32TruncSatF64U => {
                self.out.push(0xfc);
                self.out.push(0x03);
            },
            Instr::I64TruncSatF32S => {
                self.out.push(0xfc);
                self.out.push(0x04);
            },
            Instr::I64TruncSatF32U => {
                self.out.push(0xfc);
                self.out.push(0x05);
            },
            Instr::I64TruncSatF64S => {
                self.out.push(0xfc);
                self.out.push(0x06);
            },
            Instr::I64TruncSatF64U => {
                self.out.push(0xfc);
                self.out.push(0x07);
            },
        }
        proof {
            assert(self.out@ =~= old(self).out@ + instr_bytes(*instr));
        }
        Ok(())
    }

    /// Append the encoding of an expression: every instruction in order,
    /// then the end byte.
    pub fn emit_expr(&mut self, expr: &Expr) -> (r: Result<(), EncodeError>)
        ensures
            expr_supported(*expr) ==> r is Ok && final(self).out@ == old(self).out@ + expr_bytes(
                *expr,
            ),
            !expr_supported(*expr) ==> r == Result::<(), EncodeError>::Err(
                EncodeError::UnsupportedInstr,
            ),
    {
        let ghost pre = self.out@;
        let ghost instrs = expr.0@;
        let n = expr.0.len();
        for i in 0..n
            invariant
                n == instrs.len(),
                expr.0@ == instrs,
                self.out@ == pre + instrs_bytes(instrs.take(i as int)),
                forall|j: int| 0 <= j < i ==> instr_supported(#[trigger] instrs[j]),
        {
            match self.emit_instr(&expr.0[i]) {
                Ok(()) => {},
                Err(e) => {
                    proof {
                        assert(!instr_supported(instrs[i as int]));
                        assert(!expr_supported(*expr));
                    }
                    return Err(e);
                },
            }
            proof {
                lemma_instrs_bytes_last(instrs.take(i + 1));
                assert(instrs.take(i + 1).drop_last() =~= instrs.take(i as int));
                assert(instrs.take(i + 1).last() == instrs[i as int]);
            }
        }
        self.out.push(0x0b);
        proof {
            assert(instrs.take(n as int) =~= instrs);
            assert(self.out@ =~= pre + expr_bytes(*expr));
        }
        Ok(())
    }
}

} // verus!
