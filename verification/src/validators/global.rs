//! Check of a global segment: its initializer must be a constant expression
//! of the declared type.

use vstd::prelude::*;
use crate::readers::global_section::GlobalSegment;
use crate::types::GlobalType;
use crate::validators::code::{spec_const_expr_ok, is_expr_const_and_of_right_type, CodeValidationError};

verus! {

#[derive(PartialEq, Eq, Structural, Clone, Copy, Debug)]
pub enum GlobalValidationError {
    CodeValidation(CodeValidationError),
}

/// Accepts exactly a global whose initializer is a constant expression of
/// its declared value type.
pub fn validate_global_type(global: &mut GlobalSegment, imported_globals: &Vec<GlobalType>) -> (r: Result<
    (),
    GlobalValidationError,
>)
    requires
        old(global).instruction_reader.wf(),
        old(global).instruction_reader.pos() == 0,
    ensures
        match r {
            Ok(()) => spec_const_expr_ok(
                old(global).instruction_reader.bytes(),
                old(global).global_type.var_type,
                imported_globals@,
            ) is Ok,
            Err(GlobalValidationError::CodeValidation(e)) => spec_const_expr_ok(
                old(global).instruction_reader.bytes(),
                old(global).global_type.var_type,
                imported_globals@,
            ) == Err::<(), CodeValidationError>(e),
        },
{
    let expected = global.global_type.var_type;
    match is_expr_const_and_of_right_type(&mut global.instruction_reader, expected, imported_globals) {
        Ok(()) => Ok(()),
        Err(e) => Err(GlobalValidationError::CodeValidation(e)),
    }
}

} // verus!
