//! Check of a data segment: the memory index must be in range and the
//! offset initializer must be a constant expression of type `i32`.

use vstd::prelude::*;
use crate::readers::data_section::DataSegment;
use crate::types::{GlobalType, MemoryIndex, ValueType};
use crate::validators::code::{spec_const_expr_ok, is_expr_const_and_of_right_type, CodeValidationError};

verus! {

#[derive(PartialEq, Eq, Structural, Clone, Copy, Debug)]
pub enum DataValidationError {
    InvalidMemoryIndex(MemoryIndex),
    CodeValidation(CodeValidationError),
}

/// Accepts exactly a data segment whose memory index is declared and whose
/// offset initializer is a constant expression of type `i32`.
pub fn validate_data(
    data_segment: &mut DataSegment,
    max_memory_index: Option<MemoryIndex>,
    imported_globals: &Vec<GlobalType>,
) -> (r: Result<(), DataValidationError>)
    requires
        old(data_segment).instruction_reader.wf(),
        old(data_segment).instruction_reader.pos() == 0,
    ensures
        match r {
            Ok(()) => (max_memory_index matches Some(m) && old(data_segment).memory_index.0 <= m.0)
                && spec_const_expr_ok(
                old(data_segment).instruction_reader.bytes(),
                ValueType::I32,
                imported_globals@,
            ) is Ok,
            Err(DataValidationError::InvalidMemoryIndex(i)) => i == old(data_segment).memory_index
                && !(max_memory_index matches Some(m) && old(data_segment).memory_index.0 <= m.0),
            Err(DataValidationError::CodeValidation(e)) => (max_memory_index matches Some(m)
                && old(data_segment).memory_index.0 <= m.0) && spec_const_expr_ok(
                old(data_segment).instruction_reader.bytes(),
                ValueType::I32,
                imported_globals@,
            ) == Err::<(), CodeValidationError>(e),
        },
{
    let in_range = match max_memory_index {
        Some(m) => data_segment.memory_index.0 <= m.0,
        None => false,
    };
    if !in_range {
        return Err(DataValidationError::InvalidMemoryIndex(data_segment.memory_index));
    }
    match is_expr_const_and_of_right_type(
        &mut data_segment.instruction_reader,
        ValueType::I32,
        imported_globals,
    ) {
        Ok(()) => Ok(()),
        Err(e) => Err(DataValidationError::CodeValidation(e)),
    }
}

} // verus!
