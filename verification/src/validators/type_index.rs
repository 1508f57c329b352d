//! Check that a type index refers to an entry of the type section.

use vstd::prelude::*;
use crate::types::TypeIndex;

verus! {

#[derive(PartialEq, Eq, Structural, Clone, Copy, Debug)]
pub enum TypeIndexValidationError {
    InvalidTypeIndex,
}

/// Accepts exactly the type indices up to the greatest declared one.
pub fn validate_type_index(type_index: &TypeIndex, max_type_index: Option<TypeIndex>) -> (r:
    Result<(), TypeIndexValidationError>)
    ensures
        r is Ok <==> (max_type_index matches Some(m) && type_index.0 <= m.0),
        r is Err ==> r == Err::<(), TypeIndexValidationError>(
            TypeIndexValidationError::InvalidTypeIndex,
        ),
{
    match max_type_index {
        Some(index) => {
            if type_index.0 > index.0 {
                Err(TypeIndexValidationError::InvalidTypeIndex)
            } else {
                Ok(())
            }
        },
        None => Err(TypeIndexValidationError::InvalidTypeIndex),
    }
}

} // verus!
