//! Check of the start section: the function must exist and take and return
//! nothing.

use vstd::prelude::*;
use crate::types::{FuncIndex, FunctionType, TypeIndex};

verus! {

#[derive(PartialEq, Eq, Structural, Clone, Copy, Debug)]
pub enum StartValidationError {
    InvalidFuncIndex(FuncIndex),
    InvalidTypeIndex(TypeIndex),
    InvalidType,
}

/// Accepts exactly a start function that exists, whose type index is
/// declared, and whose type has no parameters and no results.
pub fn validate_start(
    start_func_index: FuncIndex,
    func_type_indices: &Vec<TypeIndex>,
    function_types: &Vec<FunctionType>,
) -> (r: Result<(), StartValidationError>)
    ensures
        match r {
            Ok(()) => {
                &&& start_func_index.0 < func_type_indices@.len()
                &&& func_type_indices@[start_func_index.0 as int].0 < function_types@.len()
                &&& function_types@[func_type_indices@[start_func_index.0 as int].0 as int].params@
                    =~= Seq::<crate::types::ValueType>::empty()
                &&& function_types@[func_type_indices@[start_func_index.0 as int].0 as int].results@
                    =~= Seq::<crate::types::ValueType>::empty()
            },
            Err(StartValidationError::InvalidFuncIndex(f)) => f == start_func_index
                && start_func_index.0 >= func_type_indices@.len(),
            Err(StartValidationError::InvalidTypeIndex(t)) => {
                &&& start_func_index.0 < func_type_indices@.len()
                &&& t == func_type_indices@[start_func_index.0 as int]
                &&& t.0 >= function_types@.len()
            },
            Err(StartValidationError::InvalidType) => {
                &&& start_func_index.0 < func_type_indices@.len()
                &&& func_type_indices@[start_func_index.0 as int].0 < function_types@.len()
                &&& !(function_types@[func_type_indices@[start_func_index.0 as int].0 as int]
                    .params@.len() == 0
                    && function_types@[func_type_indices@[start_func_index.0 as int].0 as int]
                    .results@.len() == 0)
            },
        },
{
    if start_func_index.0 as usize >= func_type_indices.len() {
        return Err(StartValidationError::InvalidFuncIndex(start_func_index));
    }
    let type_index = func_type_indices[start_func_index.0 as usize];
    if type_index.0 as usize >= function_types.len() {
        return Err(StartValidationError::InvalidTypeIndex(type_index));
    }
    let func_type = &function_types[type_index.0 as usize];
    if func_type.params.len() != 0 || func_type.results.len() != 0 {
        return Err(StartValidationError::InvalidType);
    }
    Ok(())
}

} // verus!
