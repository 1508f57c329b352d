//! Reader that decodes one instruction at a time from a borrowed expression
//! region.  `spec_instruction_at` says which instruction an opcode and its
//! immediates denote and where the next one begins; a `br_table` immediate
//! is represented in the specification by its label sequence, since the
//! decoded value carries a restartable reader rather than plain data.

use vstd::prelude::*;
use crate::leb::{
    leb128_s32_at, leb128_s64_at, leb128_s33_at, leb128_u32_at, BinaryReaderError,
};
use crate::readers::binary::{le_u32_at, le_u64_at, value_type_of, BinaryReader};
use crate::readers::branch_table::{spec_label_seq_at, BranchTableReader};
use crate::types::{
    BlockType, FuncIndex, GlobalIndex, Instruction, LabelIndex, LocalIndex, MemoryArgument,
    TypeIndex,
};

verus! {

#[derive(PartialEq, Eq, Structural, Clone, Copy, Debug)]
pub enum InstructionReaderError {
    BinaryReaderError(BinaryReaderError),
    InvalidInstruction,
    InvalidBlockTypeIndex,
    InvalidMemorySizeByte,
    InvalidSatOpCode,
}

/// The instruction a single opcode byte with no immediate denotes, if any.
pub open spec fn spec_simple_op<'a>(b: u8) -> Option<Instruction<'a>> {
    match b {
        0x00 => Some(Instruction::Unreachable),
        0x01 => Some(Instruction::Nop),
        0x05 => Some(Instruction::Else),
        0x0B => Some(Instruction::End),
        0x0F => Some(Instruction::Return),
        0x1A => Some(Instruction::Drop),
        0x1B => Some(Instruction::Select),
        0x45 => Some(Instruction::I32Eqz),
        0x46 => Some(Instruction::I32Eq),
        0x47 => Some(Instruction::I32Ne),
        0x48 => Some(Instruction::I32Lts),
        0x49 => Some(Instruction::I32Ltu),
        0x4A => Some(Instruction::I32Gts),
        0x4B => Some(Instruction::I32Gtu),
        0x4C => Some(Instruction::I32Les),
        0x4D => Some(Instruction::I32Leu),
        0x4E => Some(Instruction::I32Ges),
        0x4F => Some(Instruction::I32Geu),
        0x50 => Some(Instruction::I64Eqz),
        0x51 => Some(Instruction::I64Eq),
        0x52 => Some(Instruction::I64Ne),
        0x53 => Some(Instruction::I64Lts),
        0x54 => Some(Instruction::I64Ltu),
        0x55 => Some(Instruction::I64Gts),
        0x56 => Some(Instruction::I64Gtu),
        0x57 => Some(Instruction::I64Les),
        0x58 => Some(Instruction::I64Leu),
        0x59 => Some(Instruction::I64Ges),
        0x5A => Some(Instruction::I64Geu),
        0x5B => Some(Instruction::F32Eq),
        0x5C => Some(Instruction::F32Ne),
        0x5D => Some(Instruction::F32Lt),
        0x5E => Some(Instruction::F32Gt),
        0x5F => Some(Instruction::F32Le),
        0x60 => Some(Instruction::F32Ge),
        0x61 => Some(Instruction::F64Eq),
        0x62 => Some(Instruction::F64Ne),
        0x63 => Some(Instruction::F64Lt),
        0x64 => Some(Instruction::F64Gt),
        0x65 => Some(Instruction::F64Le),
        0x66 => Some(Instruction::F64Ge),
        0x67 => Some(Instruction::I32Clz),
        0x68 => Some(Instruction::I32Ctz),
        0x69 => Some(Instruction::I32Popcnt),
        0x6A => Some(Instruction::I32Add),
        0x6B => Some(Instruction::I32Sub),
        0x6C => Some(Instruction::I32Mul),
        0x6D => Some(Instruction::I32Divs),
        0x6E => Some(Instruction::I32Divu),
        0x6F => Some(Instruction::I32Rems),
        0x70 => Some(Instruction::I32Remu),
        0x71 => Some(Instruction::I32And),
        0x72 => Some(Instruction::I32Or),
        0x73 => Some(Instruction::I32Xor),
        0x74 => Some(Instruction::I32Shl),
        0x75 => Some(Instruction::I32Shrs),
        0x76 => Some(Instruction::I32Shru),
        0x77 => Some(Instruction::I32Rotl),
        0x78 => Some(Instruction::I32Rotr),
        0x79 => Some(Instruction::I64Clz),
        0x7A => Some(Instruction::I64Ctz),
        0x7B => Some(Instruction::I64Popcnt),
        0x7C => Some(Instruction::I64Add),
        0x7D => Some(Instruction::I64Sub),
        0x7E => Some(Instruction::I64Mul),
        0x7F => Some(Instruction::I64Divs),
        0x80 => Some(Instruction::I64Divu),
        0x81 => Some(Instruction::I64Rems),
        0x82 => Some(Instruction::I64Remu),
        0x83 => Some(Instruction::I64And),
        0x84 => Some(Instruction::I64Or),
        0x85 => Some(Instruction::I64Xor),
        0x86 => Some(Instruction::I64Shl),
        0x87 => Some(Instruction::I64Shrs),
        0x88 => Some(Instruction::I64Shru),
        0x89 => Some(Instruction::I64Rotl),
        0x8A => Some(Instruction::I64Rotr),
        0x8B => Some(Instruction::F32Abs),
        0x8C => Some(Instruction::F32Neg),
        0x8D => Some(Instruction::F32Ceil),
        0x8E => Some(Instruction::F32Floor),
        0x8F => Some(Instruction::F32Trunc),
        0x90 => Some(Instruction::F32Nearest),
        0x91 => Some(Instruction::F32Sqrt),
        0x92 => Some(Instruction::F32Add),
        0x93 => Some(Instruction::F32Sub),
        0x94 => Some(Instruction::F32Mul),
        0x95 => Some(Instruction::F32Div),
        0x96 => Some(Instruction::F32Min),
        0x97 => Some(Instruction::F32Max),
        0x98 => Some(Instruction::F32Copysign),
        0x99 => Some(Instruction::F64Abs),
        0x9A => Some(Instruction::F64Neg),
        0x9B => Some(Instruction::F64Ceil),
        0x9C => Some(Instruction::F64Floor),
        0x9D => Some(Instruction::F64Trunc),
        0x9E => Some(Instruction::F64Nearest),
        0x9F => Some(Instruction::F64Sqrt),
        0xA0 => Some(Instruction::F64Add),
        0xA1 => Some(Instruction::F64Sub),
        0xA2 => Some(Instruction::F64Mul),
        0xA3 => Some(Instruction::F64Div),
        0xA4 => Some(Instruction::F64Min),
        0xA5 => Some(Instruction::F64Max),
        0xA6 => Some(Instruction::F64Copysign),
        0xA7 => Some(Instruction::I32WrapI64),
        0xA8 => Some(Instruction::I32TruncF32s),
        0xA9 => Some(Instruction::I32TruncF32u),
        0xAA => Some(Instruction::I32TruncF64s),
        0xAB => Some(Instruction::I32TruncF64u),
        0xAC => Some(Instruction::I64ExtendI32s),
        0xAD => Some(Instruction::I64ExtendI32u),
        0xAE => Some(Instruction::I64TruncF32s),
        0xAF => Some(Instruction::I64TruncF32u),
        0xB0 => Some(Instruction::I64TruncF64s),
        0xB1 => Some(Instruction::I64TruncF64u),
        0xB2 => Some(Instruction::F32ConvertI32s),
        0xB3 => Some(Instruction::F32ConvertI32u),
        0xB4 => Some(Instruction::F32ConvertI64s),
        0xB5 => Some(Instruction::F32ConvertI64u),
        0xB6 => Some(Instruction::F32DemoteF64),
        0xB7 => Some(Instruction::F64ConvertI32s),
        0xB8 => Some(Instruction::F64ConvertI32u),
        0xB9 => Some(Instruction::F64ConvertI64s),
        0xBA => Some(Instruction::F64ConvertI64u),
        0xBB => Some(Instruction::F64PromoteF32),
        0xBC => Some(Instruction::I32ReinterpretF32),
        0xBD => Some(Instruction::I64ReinterpretF64),
        0xBE => Some(Instruction::F32ReinterpretI32),
        0xBF => Some(Instruction::F64ReinterpretI64),
        0xC0 => Some(Instruction::I32Extend8s),
        0xC1 => Some(Instruction::I32Extend16s),
        0xC2 => Some(Instruction::I64Extend8s),
        0xC3 => Some(Instruction::I64Extend16s),
        0xC4 => Some(Instruction::I64Extend32s),
        _ => None,
    }
}

/// The memory-access instruction an opcode in `0x28..=0x3E` denotes, with
/// its decoded immediate.
pub open spec fn spec_mem_op<'a>(b: u8, m: MemoryArgument) -> Option<Instruction<'a>> {
    match b {
        0x28 => Some(Instruction::I32Load { memory_argument: m }),
        0x29 => Some(Instruction::I64Load { memory_argument: m }),
        0x2A => Some(Instruction::F32Load { memory_argument: m }),
        0x2B => Some(Instruction::F64Load { memory_argument: m }),
        0x2C => Some(Instruction::I32Load8s { memory_argument: m }),
        0x2D => Some(Instruction::I32Load8u { memory_argument: m }),
        0x2E => Some(Instruction::I32Load16s { memory_argument: m }),
        0x2F => Some(Instruction::I32Load16u { memory_argument: m }),
        0x30 => Some(Instruction::I64Load8s { memory_argument: m }),
        0x31 => Some(Instruction::I64Load8u { memory_argument: m }),
        0x32 => Some(Instruction::I64Load16s { memory_argument: m }),
        0x33 => Some(Instruction::I64Load16u { memory_argument: m }),
        0x34 => Some(Instruction::I64Load32s { memory_argument: m }),
        0x35 => Some(Instruction::I64Load32u { memory_argument: m }),
        0x36 => Some(Instruction::I32Store { memory_argument: m }),
        0x37 => Some(Instruction::I64Store { memory_argument: m }),
        0x38 => Some(Instruction::F32Store { memory_argument: m }),
        0x39 => Some(Instruction::F64Store { memory_argument: m }),
        0x3A => Some(Instruction::I32Store8 { memory_argument: m }),
        0x3B => Some(Instruction::I32Store16 { memory_argument: m }),
        0x3C => Some(Instruction::I64Store8 { memory_argument: m }),
        0x3D => Some(Instruction::I64Store16 { memory_argument: m }),
        0x3E => Some(Instruction::I64Store32 { memory_argument: m }),
        _ => None,
    }
}

/// The memory-access immediate at position `i` of `s`: an alignment
/// exponent, then an offset, both LEB128.
pub open spec fn spec_memarg_at(s: Seq<u8>, i: int) -> Result<(MemoryArgument, int), BinaryReaderError> {
    match leb128_u32_at(s, i) {
        Ok((alignment, j)) => match leb128_u32_at(s, j) {
            Ok((offset, k)) => Ok(
                (MemoryArgument { alignment: alignment as u32, offset: offset as u32 }, k),
            ),
            Err(e) => Err(e),
        },
        Err(e) => Err(e),
    }
}

/// The block type at position `i` of `s`: a value type if the byte is one,
/// else `0x40` for no values, else a signed 33-bit type index that must fit
/// an unsigned 32-bit index.
pub open spec fn spec_block_type_at(s: Seq<u8>, i: int) -> Result<(BlockType, int), InstructionReaderError> {
    if !(0 <= i < s.len()) {
        Err(InstructionReaderError::BinaryReaderError(BinaryReaderError::UnexpectedEof))
    } else {
        match value_type_of(s[i]) {
            Some(vt) => Ok((BlockType::ValueType(vt), i + 1)),
            None => if s[i] == 0x40 {
                Ok((BlockType::Empty, i + 1))
            } else {
                match leb128_s33_at(s, i) {
                    Ok((v, j)) => if 0 <= v <= u32::MAX {
                        Ok((BlockType::TypeIndex(TypeIndex(v as u32)), j))
                    } else {
                        Err(InstructionReaderError::InvalidBlockTypeIndex)
                    },
                    Err(e) => Err(InstructionReaderError::BinaryReaderError(e)),
                }
            },
        }
    }
}

/// What the instruction at position `i` of `s` denotes and where the next
/// one begins.  The payload is `None` exactly for a `br_table` opcode, whose
/// decoded value carries a reader over its labels rather than plain data; a
/// table declaring `u32::MAX` labels is rejected with `InvalidU32`, since
/// together with its default target it cannot be counted in a `u32`.
pub open spec fn spec_instruction_at<'a>(s: Seq<u8>, i: int) -> Result<(Option<Instruction<'a>>, int), InstructionReaderError> {
    if !(0 <= i < s.len()) {
        Err(InstructionReaderError::BinaryReaderError(BinaryReaderError::UnexpectedEof))
    } else {
        let b = s[i];
        if spec_simple_op::<'a>(b) is Some {
            Ok((spec_simple_op(b), i + 1))
        } else if b == 0x02 || b == 0x03 || b == 0x04 {
            match spec_block_type_at(s, i + 1) {
                Ok((bt, j)) => Ok(
                    (
                        Some(
                            if b == 0x02 {
                                Instruction::Block { block_type: bt }
                            } else if b == 0x03 {
                                Instruction::Loop { block_type: bt }
                            } else {
                                Instruction::If { block_type: bt }
                            },
                        ),
                        j,
                    ),
                ),
                Err(e) => Err(e),
            }
        } else if b == 0x0C || b == 0x0D {
            match leb128_u32_at(s, i + 1) {
                Ok((v, j)) => Ok(
                    (
                        Some(
                            if b == 0x0C {
                                Instruction::Branch { label_index: LabelIndex(v as u32) }
                            } else {
                                Instruction::BranchIf { label_index: LabelIndex(v as u32) }
                            },
                        ),
                        j,
                    ),
                ),
                Err(e) => Err(InstructionReaderError::BinaryReaderError(e)),
            }
        } else if b == 0x0E {
            match leb128_u32_at(s, i + 1) {
                Ok((n, j)) => if n == 0xffff_ffff {
                    Err(InstructionReaderError::BinaryReaderError(BinaryReaderError::InvalidU32))
                } else {
                    match spec_label_seq_at(s, j, n + 1) {
                        Ok((_, k)) => Ok((None, k)),
                        Err(e) => Err(InstructionReaderError::BinaryReaderError(e)),
                    }
                },
                Err(e) => Err(InstructionReaderError::BinaryReaderError(e)),
            }
        } else if b == 0x10 {
            match leb128_u32_at(s, i + 1) {
                Ok((v, j)) => Ok(
                    (Some(Instruction::Call { func_index: FuncIndex(v as u32) }), j),
                ),
                Err(e) => Err(InstructionReaderError::BinaryReaderError(e)),
            }
        } else if b == 0x11 {
            match leb128_u32_at(s, i + 1) {
                Ok((v, j)) => if !(0 <= j < s.len()) {
                    Err(InstructionReaderError::BinaryReaderError(BinaryReaderError::UnexpectedEof))
                } else if s[j] != 0x00 {
                    Err(InstructionReaderError::InvalidInstruction)
                } else {
                    Ok((Some(Instruction::CallIndirect { type_index: TypeIndex(v as u32) }), j + 1))
                },
                Err(e) => Err(InstructionReaderError::BinaryReaderError(e)),
            }
        } else if 0x20 <= b && b <= 0x24 {
            match leb128_u32_at(s, i + 1) {
                Ok((v, j)) => Ok(
                    (
                        Some(
                            if b == 0x20 {
                                Instruction::LocalGet { local_index: LocalIndex(v as u32) }
                            } else if b == 0x21 {
                                Instruction::LocalSet { local_index: LocalIndex(v as u32) }
                            } else if b == 0x22 {
                                Instruction::LocalTee { local_index: LocalIndex(v as u32) }
                            } else if b == 0x23 {
                                Instruction::GlobalGet { global_index: GlobalIndex(v as u32) }
                            } else {
                                Instruction::GlobalSet { global_index: GlobalIndex(v as u32) }
                            },
                        ),
                        j,
                    ),
                ),
                Err(e) => Err(InstructionReaderError::BinaryReaderError(e)),
            }
        } else if 0x28 <= b && b <= 0x3E {
            match spec_memarg_at(s, i + 1) {
                Ok((m, j)) => Ok((spec_mem_op(b, m), j)),
                Err(e) => Err(InstructionReaderError::BinaryReaderError(e)),
            }
        } else if b == 0x3F || b == 0x40 {
            if !(0 <= i + 1 < s.len()) {
                Err(InstructionReaderError::BinaryReaderError(BinaryReaderError::UnexpectedEof))
            } else if s[i + 1] != 0x00 {
                Err(InstructionReaderError::InvalidMemorySizeByte)
            } else if b == 0x3F {
                Ok((Some(Instruction::MemorySize), i + 2))
            } else {
                Ok((Some(Instruction::MemoryGrow), i + 2))
            }
        } else if b == 0x41 {
            match leb128_s32_at(s, i + 1) {
                Ok((v, j)) => Ok((Some(Instruction::I32Const(v as i32)), j)),
                Err(e) => Err(InstructionReaderError::BinaryReaderError(e)),
            }
        } else if b == 0x42 {
            match leb128_s64_at(s, i + 1) {
                Ok((v, j)) => Ok((Some(Instruction::I64Const(v as i64)), j)),
                Err(e) => Err(InstructionReaderError::BinaryReaderError(e)),
            }
        } else if b == 0x43 {
            if i + 5 <= s.len() {
                Ok((Some(Instruction::F32Const(le_u32_at(s, i + 1) as u32)), i + 5))
            } else {
                Err(InstructionReaderError::BinaryReaderError(BinaryReaderError::UnexpectedEof))
            }
        } else if b == 0x44 {
            if i + 9 <= s.len() {
                Ok((Some(Instruction::F64Const(le_u64_at(s, i + 1) as u64)), i + 9))
            } else {
                Err(InstructionReaderError::BinaryReaderError(BinaryReaderError::UnexpectedEof))
            }
        } else if b == 0xFC {
            match leb128_u32_at(s, i + 1) {
                Ok((v, j)) => if v == 0 {
                    Ok((Some(Instruction::I32TruncSatF32s), j))
                } else if v == 1 {
                    Ok((Some(Instruction::I32TruncSatF32u), j))
                } else if v == 2 {
                    Ok((Some(Instruction::I32TruncSatF64s), j))
                } else if v == 3 {
                    Ok((Some(Instruction::I32TruncSatF64u), j))
                } else if v == 4 {
                    Ok((Some(Instruction::I64TruncSatF32s), j))
                } else if v == 5 {
                    Ok((Some(Instruction::I64TruncSatF32u), j))
                } else if v == 6 {
                    Ok((Some(Instruction::I64TruncSatF64s), j))
                } else if v == 7 {
                    Ok((Some(Instruction::I64TruncSatF64u), j))
                } else {
                    Err(InstructionReaderError::InvalidSatOpCode)
                },
                Err(e) => Err(InstructionReaderError::BinaryReaderError(e)),
            }
        } else {
            Err(InstructionReaderError::InvalidInstruction)
        }
    }
}

/// The instruction a single opcode byte with no immediate denotes, if any.
fn simple_op<'a>(b: u8) -> (r: Option<Instruction<'a>>)
    ensures
        r == spec_simple_op::<'a>(b),
{
    match b {
        0x00 => Some(Instruction::Unreachable),
        0x01 => Some(Instruction::Nop),
        0x05 => Some(Instruction::Else),
        0x0B => Some(Instruction::End),
        0x0F => Some(Instruction::Return),
        0x1A => Some(Instruction::Drop),
        0x1B => Some(Instruction::Select),
        0x45 => Some(Instruction::I32Eqz),
        0x46 => Some(Instruction::I32Eq),
        0x47 => Some(Instruction::I32Ne),
        0x48 => Some(Instruction::I32Lts),
        0x49 => Some(Instruction::I32Ltu),
        0x4A => Some(Instruction::I32Gts),
        0x4B => Some(Instruction::I32Gtu),
        0x4C => Some(Instruction::I32Les),
        0x4D => Some(Instruction::I32Leu),
        0x4E => Some(Instruction::I32Ges),
        0x4F => Some(Instruction::I32Geu),
        0x50 => Some(Instruction::I64Eqz),
        0x51 => Some(Instruction::I64Eq),
        0x52 => Some(Instruction::I64Ne),
        0x53 => Some(Instruction::I64Lts),
        0x54 => Some(Instruction::I64Ltu),
        0x55 => Some(Instruction::I64Gts),
        0x56 => Some(Instruction::I64Gtu),
        0x57 => Some(Instruction::I64Les),
        0x58 => Some(Instruction::I64Leu),
        0x59 => Some(Instruction::I64Ges),
        0x5A => Some(Instruction::I64Geu),
        0x5B => Some(Instruction::F32Eq),
        0x5C => Some(Instruction::F32Ne),
        0x5D => Some(Instruction::F32Lt),
        0x5E => Some(Instruction::F32Gt),
        0x5F => Some(Instruction::F32Le),
        0x60 => Some(Instruction::F32Ge),
        0x61 => Some(Instruction::F64Eq),
        0x62 => Some(Instruction::F64Ne),
        0x63 => Some(Instruction::F64Lt),
        0x64 => Some(Instruction::F64Gt),
        0x65 => Some(Instruction::F64Le),
        0x66 => Some(Instruction::F64Ge),
        0x67 => Some(Instruction::I32Clz),
        0x68 => Some(Instruction::I32Ctz),
        0x69 => Some(Instruction::I32Popcnt),
        0x6A => Some(Instruction::I32Add),
        0x6B => Some(Instruction::I32Sub),
        0x6C => Some(Instruction::I32Mul),
        0x6D => Some(Instruction::I32Divs),
        0x6E => Some(Instruction::I32Divu),
        0x6F => Some(Instruction::I32Rems),
        0x70 => Some(Instruction::I32Remu),
        0x71 => Some(Instruction::I32And),
        0x72 => Some(Instruction::I32Or),
        0x73 => Some(Instruction::I32Xor),
        0x74 => Some(Instruction::I32Shl),
        0x75 => Some(Instruction::I32Shrs),
        0x76 => Some(Instruction::I32Shru),
        0x77 => Some(Instruction::I32Rotl),
        0x78 => Some(Instruction::I32Rotr),
        0x79 => Some(Instruction::I64Clz),
        0x7A => Some(Instruction::I64Ctz),
        0x7B => Some(Instruction::I64Popcnt),
        0x7C => Some(Instruction::I64Add),
        0x7D => Some(Instruction::I64Sub),
        0x7E => Some(Instruction::I64Mul),
        0x7F => Some(Instruction::I64Divs),
        0x80 => Some(Instruction::I64Divu),
        0x81 => Some(Instruction::I64Rems),
        0x82 => Some(Instruction::I64Remu),
        0x83 => Some(Instruction::I64And),
        0x84 => Some(Instruction::I64Or),
        0x85 => Some(Instruction::I64Xor),
        0x86 => Some(Instruction::I64Shl),
        0x87 => Some(Instruction::I64Shrs),
        0x88 => Some(Instruction::I64Shru),
        0x89 => Some(Instruction::I64Rotl),
        0x8A => Some(Instruction::I64Rotr),
        0x8B => Some(Instruction::F32Abs),
        0x8C => Some(Instruction::F32Neg),
        0x8D => Some(Instruction::F32Ceil),
        0x8E => Some(Instruction::F32Floor),
        0x8F => Some(Instruction::F32Trunc),
        0x90 => Some(Instruction::F32Nearest),
        0x91 => Some(Instruction::F32Sqrt),
        0x92 => Some(Instruction::F32Add),
        0x93 => Some(Instruction::F32Sub),
        0x94 => Some(Instruction::F32Mul),
        0x95 => Some(Instruction::F32Div),
        0x96 => Some(Instruction::F32Min),
        0x97 => Some(Instruction::F32Max),
        0x98 => Some(Instruction::F32Copysign),
        0x99 => Some(Instruction::F64Abs),
        0x9A => Some(Instruction::F64Neg),
        0x9B => Some(Instruction::F64Ceil),
        0x9C => Some(Instruction::F64Floor),
        0x9D => Some(Instruction::F64Trunc),
        0x9E => Some(Instruction::F64Nearest),
        0x9F => Some(Instruction::F64Sqrt),
        0xA0 => Some(Instruction::F64Add),
        0xA1 => Some(Instruction::F64Sub),
        0xA2 => Some(Instruction::F64Mul),
        0xA3 => Some(Instruction::F64Div),
        0xA4 => Some(Instruction::F64Min),
        0xA5 => Some(Instruction::F64Max),
        0xA6 => Some(Instruction::F64Copysign),
        0xA7 => Some(Instruction::I32WrapI64),
        0xA8 => Some(Instruction::I32TruncF32s),
        0xA9 => Some(Instruction::I32TruncF32u),
        0xAA => Some(Instruction::I32TruncF64s),
        0xAB => Some(Instruction::I32TruncF64u),
        0xAC => Some(Instruction::I64ExtendI32s),
        0xAD => Some(Instruction::I64ExtendI32u),
        0xAE => Some(Instruction::I64TruncF32s),
        0xAF => Some(Instruction::I64TruncF32u),
        0xB0 => Some(Instruction::I64TruncF64s),
        0xB1 => Some(Instruction::I64TruncF64u),
        0xB2 => Some(Instruction::F32ConvertI32s),
        0xB3 => Some(Instruction::F32ConvertI32u),
        0xB4 => Some(Instruction::F32ConvertI64s),
        0xB5 => Some(Instruction::F32ConvertI64u),
        0xB6 => Some(Instruction::F32DemoteF64),
        0xB7 => Some(Instruction::F64ConvertI32s),
        0xB8 => Some(Instruction::F64ConvertI32u),
        0xB9 => Some(Instruction::F64ConvertI64s),
        0xBA => Some(Instruction::F64ConvertI64u),
        0xBB => Some(Instruction::F64PromoteF32),
        0xBC => Some(Instruction::I32ReinterpretF32),
        0xBD => Some(Instruction::I64ReinterpretF64),
        0xBE => Some(Instruction::F32ReinterpretI32),
        0xBF => Some(Instruction::F64ReinterpretI64),
        0xC0 => Some(Instruction::I32Extend8s),
        0xC1 => Some(Instruction::I32Extend16s),
        0xC2 => Some(Instruction::I64Extend8s),
        0xC3 => Some(Instruction::I64Extend16s),
        0xC4 => Some(Instruction::I64Extend32s),
        _ => None,
    }
}

/// The memory-access instruction an opcode in `0x28..=0x3E` denotes.
fn mem_op<'a>(b: u8, m: MemoryArgument) -> (r: Option<Instruction<'a>>)
    ensures
        r == spec_mem_op::<'a>(b, m),
{
    match b {
        0x28 => Some(Instruction::I32Load { memory_argument: m }),
        0x29 => Some(Instruction::I64Load { memory_argument: m }),
        0x2A => Some(Instruction::F32Load { memory_argument: m }),
        0x2B => Some(Instruction::F64Load { memory_argument: m }),
        0x2C => Some(Instruction::I32Load8s { memory_argument: m }),
        0x2D => Some(Instruction::I32Load8u { memory_argument: m }),
        0x2E => Some(Instruction::I32Load16s { memory_argument: m }),
        0x2F => Some(Instruction::I32Load16u { memory_argument: m }),
        0x30 => Some(Instruction::I64Load8s { memory_argument: m }),
        0x31 => Some(Instruction::I64Load8u { memory_argument: m }),
        0x32 => Some(Instruction::I64Load16s { memory_argument: m }),
        0x33 => Some(Instruction::I64Load16u { memory_argument: m }),
        0x34 => Some(Instruction::I64Load32s { memory_argument: m }),
        0x35 => Some(Instruction::I64Load32u { memory_argument: m }),
        0x36 => Some(Instruction::I32Store { memory_argument: m }),
        0x37 => Some(Instruction::I64Store { memory_argument: m }),
        0x38 => Some(Instruction::F32Store { memory_argument: m }),
        0x39 => Some(Instruction::F64Store { memory_argument: m }),
        0x3A => Some(Instruction::I32Store8 { memory_argument: m }),
        0x3B => Some(Instruction::I32Store16 { memory_argument: m }),
        0x3C => Some(Instruction::I64Store8 { memory_argument: m }),
        0x3D => Some(Instruction::I64Store16 { memory_argument: m }),
        0x3E => Some(Instruction::I64Store32 { memory_argument: m }),
        _ => None,
    }
}

/// A cursor decoding instructions from an expression region.
#[derive(Clone, Copy)]
pub struct InstructionReader<'a> {
    reader: BinaryReader<'a>,
}

impl<'a> InstructionReader<'a> {
    pub closed spec fn bytes(&self) -> Seq<u8> {
        self.reader.bytes()
    }

    pub closed spec fn pos(&self) -> int {
        self.reader.pos()
    }

    pub closed spec fn wf(&self) -> bool {
        self.reader.wf()
    }

    pub(crate) fn from_reader(reader: BinaryReader<'a>) -> (r: InstructionReader<'a>)
        ensures
            r.bytes() == reader.bytes(),
            r.pos() == reader.pos(),
            reader.wf() ==> r.wf(),
    {
        InstructionReader { reader }
    }

    pub(crate) fn get_position(&self) -> (r: usize)
        ensures
            r == self.pos(),
    {
        self.reader.get_position()
    }

    pub(crate) fn new(buffer: &'a [u8]) -> (r: Result<InstructionReader<'a>, BinaryReaderError>)
        ensures
            match r {
                Ok(ir) => ir.wf() && ir.bytes() == buffer@ && ir.pos() == 0,
                Err(_) => false,
            },
    {
        let reader = BinaryReader::new(buffer);
        Ok(InstructionReader { reader })
    }

    /// Whether the region's bytes are exhausted.
    pub fn eof(&self) -> (r: bool)
        requires
            self.wf(),
        ensures
            r == (self.pos() == self.bytes().len()),
    {
        self.reader.eof()
    }

    /// Decodes one instruction.  For a `br_table` opcode the returned value
    /// carries a restartable reader whose labels are the ones the immediate
    /// denotes; every other opcode's result is pinned by
    /// `spec_instruction_at` directly.
    #[verifier::rlimit(100)]
    #[verifier::spinoff_prover]
    pub fn read(&mut self) -> (r: Result<Instruction<'a>, InstructionReaderError>)
        requires
            old(self).wf(),
        ensures
            final(self).wf(),
            final(self).bytes() == old(self).bytes(),
            old(self).pos() <= final(self).pos(),
            final(self).pos() <= final(self).bytes().len(),
            r is Ok ==> old(self).pos() < final(self).pos(),
            match r {
                Ok(instr) => spec_instruction_at::<'a>(old(self).bytes(), old(self).pos())
                    matches Ok((oi, j)) && (final(self).pos() == j && (match oi {
                    Some(m) => instr == m,
                    None => instr matches Instruction::BranchTable { branch_table_reader } && ({
                        &&& branch_table_reader.wf()
                        &&& branch_table_reader.spec_taken() == 0
                        &&& crate::readers::branch_table::spec_br_table_at(
                            old(self).bytes(),
                            old(self).pos() + 1,
                        ) matches Ok((ls, k)) && (branch_table_reader.spec_labels() == ls && k == j)
                    }),
                })),
                Err(e) => spec_instruction_at::<'a>(old(self).bytes(), old(self).pos())
                    == Err::<(Option<Instruction<'a>>, int), InstructionReaderError>(e),
            },
    {
        let b = match self.reader.read_byte() {
            Ok(b) => b,
            Err(e) => {
                return Err(InstructionReaderError::BinaryReaderError(e));
            },
        };
        if let Some(instr) = simple_op(b) {
            return Ok(instr);
        }
        match b {
            0x02 | 0x03 | 0x04 => {
                let block_type = match self.read_block_type() {
                    Ok(bt) => bt,
                    Err(e) => {
                        return Err(e);
                    },
                };
                if b == 0x02 {
                    Ok(Instruction::Block { block_type })
                } else if b == 0x03 {
                    Ok(Instruction::Loop { block_type })
                } else {
                    Ok(Instruction::If { block_type })
                }
            },
            0x0C | 0x0D => {
                let v = match self.reader.read_leb128_u32() {
                    Ok(v) => v,
                    Err(e) => {
                        return Err(InstructionReaderError::BinaryReaderError(e));
                    },
                };
                if b == 0x0C {
                    Ok(Instruction::Branch { label_index: LabelIndex(v) })
                } else {
                    Ok(Instruction::BranchIf { label_index: LabelIndex(v) })
                }
            },
            0x0E => {
                let branch_table_reader = match BranchTableReader::scan(&mut self.reader) {
                    Ok(btr) => btr,
                    Err(e) => {
                        return Err(InstructionReaderError::BinaryReaderError(e));
                    },
                };
                Ok(Instruction::BranchTable { branch_table_reader })
            },
            0x10 => {
                let v = match self.reader.read_leb128_u32() {
                    Ok(v) => v,
                    Err(e) => {
                        return Err(InstructionReaderError::BinaryReaderError(e));
                    },
                };
                Ok(Instruction::Call { func_index: FuncIndex(v) })
            },
            0x11 => {
                let v = match self.reader.read_leb128_u32() {
                    Ok(v) => v,
                    Err(e) => {
                        return Err(InstructionReaderError::BinaryReaderError(e));
                    },
                };
                match self.reader.read_byte() {
                    Ok(0x00) => Ok(Instruction::CallIndirect { type_index: TypeIndex(v) }),
                    Ok(_) => Err(InstructionReaderError::InvalidInstruction),
                    Err(e) => Err(InstructionReaderError::BinaryReaderError(e)),
                }
            },
            0x20 | 0x21 | 0x22 | 0x23 | 0x24 => {
                let v = match self.reader.read_leb128_u32() {
                    Ok(v) => v,
                    Err(e) => {
                        return Err(InstructionReaderError::BinaryReaderError(e));
                    },
                };
                if b == 0x20 {
                    Ok(Instruction::LocalGet { local_index: LocalIndex(v) })
                } else if b == 0x21 {
                    Ok(Instruction::LocalSet { local_index: LocalIndex(v) })
                } else if b == 0x22 {
                    Ok(Instruction::LocalTee { local_index: LocalIndex(v) })
                } else if b == 0x23 {
                    Ok(Instruction::GlobalGet { global_index: GlobalIndex(v) })
                } else {
                    Ok(Instruction::GlobalSet { global_index: GlobalIndex(v) })
                }
            },
            0x3F | 0x40 => {
                match self.reader.read_byte() {
                    Ok(0x00) => if b == 0x3F {
                        Ok(Instruction::MemorySize)
                    } else {
                        Ok(Instruction::MemoryGrow)
                    },
                    Ok(_) => Err(InstructionReaderError::InvalidMemorySizeByte),
                    Err(e) => Err(InstructionReaderError::BinaryReaderError(e)),
                }
            },
            0x41 => {
                let v = match self.reader.read_leb128_s32() {
                    Ok(v) => v,
                    Err(e) => {
                        return Err(InstructionReaderError::BinaryReaderError(e));
                    },
                };
                Ok(Instruction::I32Const(v))
            },
            0x42 => {
                let v = match self.reader.read_leb128_s64() {
                    Ok(v) => v,
                    Err(e) => {
                        return Err(InstructionReaderError::BinaryReaderError(e));
                    },
                };
                Ok(Instruction::I64Const(v))
            },
            0x43 => {
                let v = match self.reader.read_fixed_u32_le() {
                    Ok(v) => v,
                    Err(e) => {
                        return Err(InstructionReaderError::BinaryReaderError(e));
                    },
                };
                Ok(Instruction::F32Const(v))
            },
            0x44 => {
                let v = match self.reader.read_fixed_u64_le() {
                    Ok(v) => v,
                    Err(e) => {
                        return Err(InstructionReaderError::BinaryReaderError(e));
                    },
                };
                Ok(Instruction::F64Const(v))
            },
            0xFC => {
                let v = match self.reader.read_leb128_u32() {
                    Ok(v) => v,
                    Err(e) => {
                        return Err(InstructionReaderError::BinaryReaderError(e));
                    },
                };
                match v {
                    0 => Ok(Instruction::I32TruncSatF32s),
                    1 => Ok(Instruction::I32TruncSatF32u),
                    2 => Ok(Instruction::I32TruncSatF64s),
                    3 => Ok(Instruction::I32TruncSatF64u),
                    4 => Ok(Instruction::I64TruncSatF32s),
                    5 => Ok(Instruction::I64TruncSatF32u),
                    6 => Ok(Instruction::I64TruncSatF64s),
                    7 => Ok(Instruction::I64TruncSatF64u),
                    _ => Err(InstructionReaderError::InvalidSatOpCode),
                }
            },
            _ => {
                if 0x28 <= b && b <= 0x3E {
                    let memory_argument = match self.read_memory_argument() {
                        Ok(m) => m,
                        Err(e) => {
                            return Err(e);
                        },
                    };
                    match mem_op(b, memory_argument) {
                        Some(instr) => Ok(instr),
                        None => {
                            proof {
                                assert(false);
                            }
                            Err(InstructionReaderError::InvalidInstruction)
                        },
                    }
                } else {
                    Err(InstructionReaderError::InvalidInstruction)
                }
            },
        }
    }

    /// Reads a memory-access immediate: alignment exponent, then offset.
    fn read_memory_argument(&mut self) -> (r: Result<MemoryArgument, InstructionReaderError>)
        requires
            old(self).wf(),
        ensures
            final(self).wf(),
            final(self).bytes() == old(self).bytes(),
            old(self).pos() <= final(self).pos(),
            match r {
                Ok(m) => spec_memarg_at(old(self).bytes(), old(self).pos())
                    matches Ok((sm, j)) && sm == m && final(self).pos() == j,
                Err(InstructionReaderError::BinaryReaderError(e)) => spec_memarg_at(
                    old(self).bytes(),
                    old(self).pos(),
                ) == Err::<(MemoryArgument, int), BinaryReaderError>(e),
                Err(_) => false,
            },
    {
        let alignment = match self.reader.read_leb128_u32() {
            Ok(v) => v,
            Err(e) => {
                return Err(InstructionReaderError::BinaryReaderError(e));
            },
        };
        let offset = match self.reader.read_leb128_u32() {
            Ok(v) => v,
            Err(e) => {
                return Err(InstructionReaderError::BinaryReaderError(e));
            },
        };
        Ok(MemoryArgument { alignment, offset })
    }

    /// Reads a block type, leaving the cursor before an invalid value-type
    /// byte so the fall-back encodings can be tried.
    fn read_block_type(&mut self) -> (r: Result<BlockType, InstructionReaderError>)
        requires
            old(self).wf(),
        ensures
            final(self).wf(),
            final(self).bytes() == old(self).bytes(),
            old(self).pos() <= final(self).pos(),
            match r {
                Ok(bt) => spec_block_type_at(old(self).bytes(), old(self).pos())
                    matches Ok((sb, j)) && sb == bt && final(self).pos() == j,
                Err(e) => spec_block_type_at(old(self).bytes(), old(self).pos())
                    == Err::<(BlockType, int), InstructionReaderError>(e),
            },
    {
        match self.reader.read_value_type() {
            Ok(vt) => Ok(BlockType::ValueType(vt)),
            Err(BinaryReaderError::UnexpectedEof) => Err(
                InstructionReaderError::BinaryReaderError(BinaryReaderError::UnexpectedEof),
            ),
            Err(_) => {
                let position = self.reader.get_position();
                let byte = match self.reader.read_byte() {
                    Ok(b) => b,
                    Err(e) => {
                        return Err(InstructionReaderError::BinaryReaderError(e));
                    },
                };
                if byte == 0x40 {
                    Ok(BlockType::Empty)
                } else {
                    self.reader.set_position(position);
                    let index = match self.reader.read_leb128_s33() {
                        Ok(v) => v,
                        Err(e) => {
                            return Err(InstructionReaderError::BinaryReaderError(e));
                        },
                    };
                    if index < 0 || index > 0xffff_ffffi64 {
                        Err(InstructionReaderError::InvalidBlockTypeIndex)
                    } else {
                        Ok(BlockType::TypeIndex(TypeIndex(index as u32)))
                    }
                }
            },
        }
    }
}

/// The instruction at position `i` of `s`, at a fixed lifetime, so that
/// specifications that only inspect the decoded shape can recurse over it.
pub open spec fn spec_instr_shape(s: Seq<u8>, i: int) -> Result<(Option<Instruction<'static>>, int), InstructionReaderError> {
    spec_instruction_at(s, i)
}

/// The position just past the first decoded `End` instruction at or after
/// `i`: instructions are decoded one after another — so an `End` byte inside
/// an immediate does not terminate the expression — until an `End` opcode is
/// met or decoding fails.
pub open spec fn spec_expr_end_at(s: Seq<u8>, i: int) -> Result<int, InstructionReaderError>
    decreases s.len() - i when 0 <= i <= s.len()
{
    match spec_instr_shape(s, i) {
        Err(e) => Err(e),
        Ok((oi, j)) => if !(i < j <= s.len()) {
            // A decoded instruction always advances within the region; this
            // branch is never taken.
            Err(InstructionReaderError::BinaryReaderError(BinaryReaderError::UnexpectedEof))
        } else if oi matches Some(Instruction::End) {
            Ok(j)
        } else {
            spec_expr_end_at(s, j)
        },
    }
}

impl<'a> BinaryReader<'a> {
    /// Decodes instructions forward until an `End` instruction and hands the
    /// region up to and including it to a fresh instruction reader.
    /// Initializer regions are delimited this way before the validator
    /// decodes them again.
    pub(crate) fn create_instruction_reader(&mut self) -> (r: Result<
        InstructionReader<'a>,
        InstructionReaderError,
    >)
        requires
            old(self).wf(),
        ensures
            final(self).wf(),
            final(self).bytes() == old(self).bytes(),
            old(self).pos() <= final(self).pos(),
            match r {
                Ok(ir) => {
                    &&& spec_expr_end_at(old(self).bytes(), old(self).pos()) == Ok::<int,
                        InstructionReaderError>(final(self).pos())
                    &&& ir.wf()
                    &&& ir.pos() == 0
                    &&& ir.bytes() == old(self).bytes().subrange(
                        old(self).pos(),
                        final(self).pos(),
                    )
                },
                Err(e) => spec_expr_end_at(old(self).bytes(), old(self).pos()) == Err::<int,
                    InstructionReaderError>(e),
            },
    {
        let before = self.get_position();
        let mut expr_reader = InstructionReader::from_reader(*self);
        loop
            invariant_except_break
                spec_expr_end_at(self.bytes(), before as int) == spec_expr_end_at(
                    self.bytes(),
                    expr_reader.pos(),
                ),
            invariant
                self.wf(),
                expr_reader.wf(),
                expr_reader.bytes() == self.bytes(),
                before == self.pos(),
                self.pos() <= expr_reader.pos(),
            ensures
                self.wf(),
                before == self.pos(),
                self.pos() <= expr_reader.pos() <= self.bytes().len(),
                expr_reader.bytes() == self.bytes(),
                spec_expr_end_at(self.bytes(), before as int) == Ok::<int,
                    InstructionReaderError>(expr_reader.pos()),
            decreases self.bytes().len() - expr_reader.pos(),
        {
            match expr_reader.read() {
                Ok(Instruction::End) => {
                    break;
                },
                Ok(_) => {
                },
                Err(e) => {
                    return Err(e);
                },
            }
        }
        let after = expr_reader.get_position();
        let slice = match self.create_buffer_slice(before, after) {
            Ok(sl) => sl,
            Err(_) => {
                proof {
                    assert(false);
                }
                return Err(
                    InstructionReaderError::BinaryReaderError(BinaryReaderError::UnexpectedEof),
                );
            },
        };
        self.set_position(after);
        match InstructionReader::new(slice) {
            Ok(ir) => Ok(ir),
            Err(e) => Err(InstructionReaderError::BinaryReaderError(e)),
        }
    }

    /// Scans and validates a whole `br_table` immediate and returns a
    /// restartable cursor over its labels.
    pub(crate) fn create_branch_table_reader(&mut self) -> (r: Result<
        BranchTableReader<'a>,
        BinaryReaderError,
    >)
        requires
            old(self).wf(),
        ensures
            final(self).wf(),
            final(self).bytes() == old(self).bytes(),
            old(self).pos() <= final(self).pos(),
            match r {
                Ok(btr) => {
                    &&& btr.wf()
                    &&& btr.spec_taken() == 0
                    &&& crate::readers::branch_table::spec_br_table_at(
                        old(self).bytes(),
                        old(self).pos(),
                    ) == Ok::<(Seq<u32>, int), BinaryReaderError>(
                        (btr.spec_labels(), final(self).pos()),
                    )
                },
                Err(e) => match leb128_u32_at(old(self).bytes(), old(self).pos()) {
                    Ok((n, _)) => if n == u32::MAX {
                        e == BinaryReaderError::InvalidU32
                    } else {
                        crate::readers::branch_table::spec_br_table_at(
                            old(self).bytes(),
                            old(self).pos(),
                        ) == Err::<(Seq<u32>, int), BinaryReaderError>(e)
                    },
                    Err(e2) => e == e2,
                },
            },
    {
        BranchTableReader::scan(self)
    }
}

} // verus!
