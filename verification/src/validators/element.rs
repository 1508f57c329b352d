//! Check of an element segment: the table index must be in range, the
//! offset initializer must be a constant expression of type `i32`, and
//! every listed function index must be declared.

use vstd::prelude::*;
use crate::readers::element_section::ElementSegment;
use crate::types::{FuncIndex, GlobalType, TableIndex, ValueType};
use crate::validators::code::{spec_const_expr_ok, is_expr_const_and_of_right_type, CodeValidationError};

verus! {

#[derive(PartialEq, Eq, Structural, Clone, Copy, Debug)]
pub enum ElementValidationError {
    InvalidTableIndex(TableIndex),
    InvalidFuncIndex(FuncIndex),
    CodeValidation(CodeValidationError),
}

/// Whether a function index is within the declared function index space.
pub open spec fn spec_func_index_ok(f: FuncIndex, max_func_index: Option<FuncIndex>) -> bool {
    max_func_index matches Some(m) && f.0 <= m.0
}

/// Accepts exactly an element segment whose table index is declared, whose
/// offset initializer is a constant expression of type `i32`, and whose
/// function indices are all declared.
pub fn validate_element(
    element_segment: &mut ElementSegment,
    max_table_index: Option<TableIndex>,
    max_func_index: Option<FuncIndex>,
    imported_globals: &Vec<GlobalType>,
) -> (r: Result<(), ElementValidationError>)
    requires
        old(element_segment).instruction_reader.wf(),
        old(element_segment).instruction_reader.pos() == 0,
    ensures
        match r {
            Ok(()) => {
                &&& (max_table_index matches Some(m) && old(element_segment).table_index.0 <= m.0)
                &&& spec_const_expr_ok(
                    old(element_segment).instruction_reader.bytes(),
                    ValueType::I32,
                    imported_globals@,
                ) is Ok
                &&& forall|k: int|
                    0 <= k < old(element_segment).function_indices@.len()
                        ==> spec_func_index_ok(
                        #[trigger] old(element_segment).function_indices@[k],
                        max_func_index,
                    )
            },
            Err(ElementValidationError::InvalidTableIndex(t)) => t == old(
                element_segment,
            ).table_index && !(max_table_index matches Some(m) && t.0 <= m.0),
            Err(ElementValidationError::CodeValidation(e)) => {
                &&& (max_table_index matches Some(m) && old(element_segment).table_index.0 <= m.0)
                &&& spec_const_expr_ok(
                    old(element_segment).instruction_reader.bytes(),
                    ValueType::I32,
                    imported_globals@,
                ) == Err::<(), CodeValidationError>(e)
            },
            Err(ElementValidationError::InvalidFuncIndex(f)) => {
                &&& (max_table_index matches Some(m) && old(element_segment).table_index.0 <= m.0)
                &&& spec_const_expr_ok(
                    old(element_segment).instruction_reader.bytes(),
                    ValueType::I32,
                    imported_globals@,
                ) is Ok
                &&& exists|k: int|
                    0 <= k < old(element_segment).function_indices@.len() && ({
                        &&& old(element_segment).function_indices@[k] == f
                        &&& !spec_func_index_ok(
                            #[trigger] old(element_segment).function_indices@[k],
                            max_func_index,
                        )
                        &&& forall|i: int| 0 <= i < k ==> spec_func_index_ok(
                            #[trigger] old(element_segment).function_indices@[i],
                            max_func_index,
                        )
                    })
            },
        },
{
    let table_ok = match max_table_index {
        Some(m) => element_segment.table_index.0 <= m.0,
        None => false,
    };
    if !table_ok {
        return Err(ElementValidationError::InvalidTableIndex(element_segment.table_index));
    }
    match is_expr_const_and_of_right_type(
        &mut element_segment.instruction_reader,
        ValueType::I32,
        imported_globals,
    ) {
        Ok(()) => {},
        Err(e) => {
            return Err(ElementValidationError::CodeValidation(e));
        },
    }
    let mut k: usize = 0;
    let n = element_segment.function_indices.len();
    while k < n
        invariant
            element_segment.function_indices@ == old(element_segment).function_indices@,
            n == element_segment.function_indices@.len(),
            k <= n,
            max_table_index matches Some(m) && old(element_segment).table_index.0 <= m.0,
            spec_const_expr_ok(
                old(element_segment).instruction_reader.bytes(),
                ValueType::I32,
                imported_globals@,
            ) is Ok,
            forall|i: int| 0 <= i < k ==> spec_func_index_ok(
                #[trigger] element_segment.function_indices@[i],
                max_func_index,
            ),
        decreases n - k,
    {
        let f = element_segment.function_indices[k];
        let ok = match max_func_index {
            Some(m) => f.0 <= m.0,
            None => false,
        };
        if !ok {
            proof {
                let kk = k as int;
                assert(old(element_segment).function_indices@[kk] == f);
                assert(!spec_func_index_ok(
                    old(element_segment).function_indices@[kk],
                    max_func_index,
                ));
                assert(forall|i: int| 0 <= i < kk ==> spec_func_index_ok(
                    #[trigger] old(element_segment).function_indices@[i],
                    max_func_index,
                ));
            }
            return Err(ElementValidationError::InvalidFuncIndex(f));
        }
        k = k + 1;
    }
    Ok(())
}

} // verus!
