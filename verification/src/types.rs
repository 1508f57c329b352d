//! The structural entities of a module: value types, typed indices, function
//! types, limits, imports, exports, segment descriptions and instructions.

use vstd::prelude::*;
use crate::readers::branch_table::BranchTableReader;

verus! {

/// Index into the type section.
#[derive(PartialEq, Eq, Structural, Clone, Copy, Debug)]
pub struct TypeIndex(pub u32);

/// Index into the function index space (imported functions first).
#[derive(PartialEq, Eq, Structural, Clone, Copy, Debug)]
pub struct FuncIndex(pub u32);

/// Index into the table index space.
#[derive(PartialEq, Eq, Structural, Clone, Copy, Debug)]
pub struct TableIndex(pub u32);

/// Index into the memory index space.
#[derive(PartialEq, Eq, Structural, Clone, Copy, Debug)]
pub struct MemoryIndex(pub u32);

/// Index into the global index space.
#[derive(PartialEq, Eq, Structural, Clone, Copy, Debug)]
pub struct GlobalIndex(pub u32);

/// Index into a function's locals (parameters first).
#[derive(PartialEq, Eq, Structural, Clone, Copy, Debug)]
pub struct LocalIndex(pub u32);

/// Relative branch target: 0 is the innermost enclosing frame.
#[derive(PartialEq, Eq, Structural, Clone, Copy, Debug)]
pub struct LabelIndex(pub u32);

/// The four value types of the v1 specification.
#[derive(PartialEq, Eq, Structural, Clone, Copy, Debug)]
pub enum ValueType {
    I32,
    I64,
    F32,
    F64,
}

/// The signature of a function: ordered parameter and result types.
#[derive(PartialEq, Eq, Debug)]
pub struct FunctionType {
    pub params: Vec<ValueType>,
    pub results: Vec<ValueType>,
}

/// Size bounds of a table or memory: `min` elements now, at most `max` ever.
#[derive(PartialEq, Eq, Structural, Clone, Copy, Debug)]
pub struct Limits {
    pub min: u32,
    pub max: Option<u32>,
}

/// A table of function references with its limits.
#[derive(PartialEq, Eq, Structural, Clone, Copy, Debug)]
pub struct TableType {
    pub limits: Limits,
}

/// A linear memory with its limits, counted in 64 KiB pages.
#[derive(PartialEq, Eq, Structural, Clone, Copy, Debug)]
pub struct MemoryType {
    pub limits: Limits,
}

/// A global variable's value type and mutability.
#[derive(PartialEq, Eq, Structural, Clone, Copy, Debug)]
pub struct GlobalType {
    pub var_type: ValueType,
    pub mutable: bool,
}

/// What an import brings into the module.
#[derive(PartialEq, Eq, Structural, Clone, Copy, Debug)]
pub enum ImportDescriptor {
    Func { type_index: TypeIndex },
    Table(TableType),
    Memory(MemoryType),
    Global(GlobalType),
}

/// One entry of the import section.
#[derive(PartialEq, Eq, Debug)]
pub struct Import {
    pub module_name: String,
    pub name: String,
    pub import_descriptor: ImportDescriptor,
}

/// What an export makes visible outside the module.
#[derive(PartialEq, Eq, Structural, Clone, Copy, Debug)]
pub enum ExportDescriptor {
    Func { func_index: FuncIndex },
    Table { table_index: TableIndex },
    Memory { memory_index: MemoryIndex },
    Global { global_index: GlobalIndex },
}

/// One entry of the export section.
#[derive(PartialEq, Eq, Debug)]
pub struct Export {
    pub name: String,
    pub export_descriptor: ExportDescriptor,
}

/// A run of `count` locals that share one value type.
#[derive(PartialEq, Eq, Structural, Clone, Copy, Debug)]
pub struct Locals {
    pub count: u32,
    pub value_type: ValueType,
}

/// The signature of a structured control instruction: no values, one value
/// type, or a reference into the type section.
#[derive(PartialEq, Eq, Structural, Clone, Copy, Debug)]
pub enum BlockType {
    Empty,
    ValueType(ValueType),
    TypeIndex(TypeIndex),
}

/// The immediate of a memory access: an alignment exponent and a byte offset.
#[derive(PartialEq, Eq, Structural, Clone, Copy, Debug)]
pub struct MemoryArgument {
    pub alignment: u32,
    pub offset: u32,
}

/// One decoded instruction of the v1 instruction set, with the
/// sign-extension and saturating-truncation opcodes.  The `f32` and `f64`
/// constants carry the raw little-endian bit patterns of their immediates.
#[derive(Clone, Copy)]
pub enum Instruction<'a> {
    Unreachable,
    Nop,
    Block { block_type: BlockType },
    Loop { block_type: BlockType },
    If { block_type: BlockType },
    Else,
    End,
    Branch { label_index: LabelIndex },
    BranchIf { label_index: LabelIndex },
    BranchTable { branch_table_reader: BranchTableReader<'a> },
    Return,
    Call { func_index: FuncIndex },
    CallIndirect { type_index: TypeIndex },
    Drop,
    Select,
    LocalGet { local_index: LocalIndex },
    LocalSet { local_index: LocalIndex },
    LocalTee { local_index: LocalIndex },
    GlobalGet { global_index: GlobalIndex },
    GlobalSet { global_index: GlobalIndex },
    I32Load { memory_argument: MemoryArgument },
    I64Load { memory_argument: MemoryArgument },
    F32Load { memory_argument: MemoryArgument },
    F64Load { memory_argument: MemoryArgument },
    I32Load8s { memory_argument: MemoryArgument },
    I32Load8u { memory_argument: MemoryArgument },
    I32Load16s { memory_argument: MemoryArgument },
    I32Load16u { memory_argument: MemoryArgument },
    I64Load8s { memory_argument: MemoryArgument },
    I64Load8u { memory_argument: MemoryArgument },
    I64Load16s { memory_argument: MemoryArgument },
    I64Load16u { memory_argument: MemoryArgument },
    I64Load32s { memory_argument: MemoryArgument },
    I64Load32u { memory_argument: MemoryArgument },
    I32Store { memory_argument: MemoryArgument },
    I64Store { memory_argument: MemoryArgument },
    F32Store { memory_argument: MemoryArgument },
    F64Store { memory_argument: MemoryArgument },
    I32Store8 { memory_argument: MemoryArgument },
    I32Store16 { memory_argument: MemoryArgument },
    I64Store8 { memory_argument: MemoryArgument },
    I64Store16 { memory_argument: MemoryArgument },
    I64Store32 { memory_argument: MemoryArgument },
    MemorySize,
    MemoryGrow,
    I32Const(i32),
    I64Const(i64),
    F32Const(u32),
    F64Const(u64),
    I32Eqz,
    I32Eq,
    I32Ne,
    I32Lts,
    I32Ltu,
    I32Gts,
    I32Gtu,
    I32Les,
    I32Leu,
    I32Ges,
    I32Geu,
    I64Eqz,
    I64Eq,
    I64Ne,
    I64Lts,
    I64Ltu,
    I64Gts,
    I64Gtu,
    I64Les,
    I64Leu,
    I64Ges,
    I64Geu,
    F32Eq,
    F32Ne,
    F32Lt,
    F32Gt,
    F32Le,
    F32Ge,
    F64Eq,
    F64Ne,
    F64Lt,
    F64Gt,
    F64Le,
    F64Ge,
    I32Clz,
    I32Ctz,
    I32Popcnt,
    I32Add,
    I32Sub,
    I32Mul,
    I32Divs,
    I32Divu,
    I32Rems,
    I32Remu,
    I32And,
    I32Or,
    I32Xor,
    I32Shl,
    I32Shrs,
    I32Shru,
    I32Rotl,
    I32Rotr,
    I64Clz,
    I64Ctz,
    I64Popcnt,
    I64Add,
    I64Sub,
    I64Mul,
    I64Divs,
    I64Divu,
    I64Rems,
    I64Remu,
    I64And,
    I64Or,
    I64Xor,
    I64Shl,
    I64Shrs,
    I64Shru,
    I64Rotl,
    I64Rotr,
    F32Abs,
    F32Neg,
    F32Ceil,
    F32Floor,
    F32Trunc,
    F32Nearest,
    F32Sqrt,
    F32Add,
    F32Sub,
    F32Mul,
    F32Div,
    F32Min,
    F32Max,
    F32Copysign,
    F64Abs,
    F64Neg,
    F64Ceil,
    F64Floor,
    F64Trunc,
    F64Nearest,
    F64Sqrt,
    F64Add,
    F64Sub,
    F64Mul,
    F64Div,
    F64Min,
    F64Max,
    F64Copysign,
    I32WrapI64,
    I32TruncF32s,
    I32TruncF32u,
    I32TruncF64s,
    I32TruncF64u,
    I64ExtendI32s,
    I64ExtendI32u,
    I64TruncF32s,
    I64TruncF32u,
    I64TruncF64s,
    I64TruncF64u,
    F32ConvertI32s,
    F32ConvertI32u,
    F32ConvertI64s,
    F32ConvertI64u,
    F32DemoteF64,
    F64ConvertI32s,
    F64ConvertI32u,
    F64ConvertI64s,
    F64ConvertI64u,
    F64PromoteF32,
    I32ReinterpretF32,
    I64ReinterpretF64,
    F32ReinterpretI32,
    F64ReinterpretI64,
    I32Extend8s,
    I32Extend16s,
    I64Extend8s,
    I64Extend16s,
    I64Extend32s,
    I32TruncSatF32s,
    I32TruncSatF32u,
    I32TruncSatF64s,
    I32TruncSatF64u,
    I64TruncSatF32s,
    I64TruncSatF32u,
    I64TruncSatF64s,
    I64TruncSatF64u,
}

} // verus!
