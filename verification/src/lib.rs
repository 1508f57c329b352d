//! A streaming reader and validator for binary WebAssembly (v1) modules.
//!
//! The crate is layered: a bounds-checked byte cursor decodes LEB128 and
//! fixed-width primitives; section readers hand out one typed item at a time
//! from a section body; a parser drives a small state machine over the module
//! preamble and its sections; and a validator checks the module against the
//! static rules of the specification, including the stack-polymorphic type
//! check of function bodies.

mod leb;
mod parser;
mod readers;
mod types;
mod validators;

pub use crate::leb::{
    leb128_s_encode, leb128_u32_encode, lemma_leb128_s32_rejects_bad_final_byte,
    lemma_leb128_s32_roundtrip, lemma_leb128_s33_rejects_bad_final_byte,
    lemma_leb128_s33_roundtrip, lemma_leb128_s64_rejects_bad_final_byte,
    lemma_leb128_s64_roundtrip, lemma_leb128_u32_overlong, lemma_leb128_u32_roundtrip,
    BinaryReaderError,
};
pub use crate::parser::{Chunk, ParseError, Parser, SectionReader};
pub use crate::readers::binary::BinaryReader;
pub use crate::readers::branch_table::{BranchReaderError, BranchTableReader};
pub use crate::readers::code_section::{
    Code, CodeReaderError, CodeSectionReader, LocalsIterationProof, LocalsReader,
};
pub use crate::readers::custom_section::{CustomReaderError, CustomSectionReader};
pub use crate::readers::data_section::{DataReaderError, DataSectionReader, DataSegment};
pub use crate::readers::element_section::{
    ElementReaderError, ElementSectionReader, ElementSegment,
};
pub use crate::readers::export_section::{ExportReaderError, ExportSectionReader};
pub use crate::readers::function_section::{FunctionReaderError, FunctionSectionReader};
pub use crate::readers::global_section::{GlobalReaderError, GlobalSectionReader, GlobalSegment};
pub use crate::readers::import_section::{ImportReaderError, ImportSectionReader};
pub use crate::readers::instruction::{InstructionReader, InstructionReaderError};
pub use crate::readers::memory_section::{MemoryReaderError, MemorySectionReader};
pub use crate::readers::preamble::{PreambleReader, PreambleReaderError};
pub use crate::readers::start_section::{StartReaderError, StartSectionReader};
pub use crate::readers::table_section::{TableReaderError, TableSectionReader};
pub use crate::readers::type_section::{TypeReaderError, TypeSectionReader};
pub use crate::validators::code::{
    is_expr_const_and_of_right_type, lemma_br_table_targets_uniform,
    lemma_unreachable_pops_always_succeed, CodeValidationError, CodeValidator, CodeValidatorState,
    ControlFrame, ControlFrameKind, Operand,
};
pub use crate::validators::data::{validate_data, DataValidationError};
pub use crate::validators::element::{validate_element, ElementValidationError};
pub use crate::validators::export::{ExportValidationError, ExportValidator};
pub use crate::validators::global::{validate_global_type, GlobalValidationError};
pub use crate::validators::module::{ValidationError, Validator};
pub use crate::validators::import::{validate_import_desc, ImportValidationError};
pub use crate::validators::memory::{validate_memory_type, MemoryLimitsValidationError};
pub use crate::validators::preamble::{validate_preamble, PreambleValidationError};
pub use crate::validators::start::{validate_start, StartValidationError};
pub use crate::validators::type_index::{validate_type_index, TypeIndexValidationError};
pub use crate::types::{
    BlockType, Export, ExportDescriptor, FuncIndex, FunctionType, GlobalIndex, GlobalType, Import,
    ImportDescriptor, Instruction, LabelIndex, Limits, LocalIndex, Locals, MemoryArgument,
    MemoryIndex, MemoryType, TableIndex, TableType, TypeIndex, ValueType,
};
