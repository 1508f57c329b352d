//! Check of import descriptors: a function's type index must be declared, a
//! table's and a memory's limits must fit their bounds.

use vstd::prelude::*;
use crate::types::{ImportDescriptor, TypeIndex};
use crate::validators::memory::spec_limits_in_range;
use crate::validators::memory::limits_in_range;
use crate::validators::type_index::validate_type_index;

verus! {

#[derive(PartialEq, Eq, Structural, Clone, Copy, Debug)]
pub enum ImportValidationError {
    InvalidFuncTypeIndex,
    InvalidTableLimits,
    InvalidMemoryLimits,
}

/// Which error, if any, an import descriptor is rejected with, given the
/// greatest declared type index.
pub open spec fn spec_import_desc_error(desc: ImportDescriptor, max_type_index: Option<TypeIndex>) -> Option<ImportValidationError> {
    match desc {
        ImportDescriptor::Func { type_index } => if max_type_index matches Some(m) && type_index.0
            <= m.0 {
            None
        } else {
            Some(ImportValidationError::InvalidFuncTypeIndex)
        },
        ImportDescriptor::Table(t) => if spec_limits_in_range(t.limits, u32::MAX) {
            None
        } else {
            Some(ImportValidationError::InvalidTableLimits)
        },
        ImportDescriptor::Memory(m) => if spec_limits_in_range(m.limits, 65536) {
            None
        } else {
            Some(ImportValidationError::InvalidMemoryLimits)
        },
        ImportDescriptor::Global(_) => None,
    }
}

/// Accepts exactly the import descriptors `spec_import_desc_error` does not
/// reject, with that error otherwise.
pub fn validate_import_desc(import_desc: &ImportDescriptor, max_type_index: Option<TypeIndex>) -> (r: Result<(), ImportValidationError>)
    ensures
        match r {
            Ok(()) => spec_import_desc_error(*import_desc, max_type_index) is None,
            Err(e) => spec_import_desc_error(*import_desc, max_type_index) == Some(e),
        },
{
    match import_desc {
        ImportDescriptor::Func { type_index } => {
            match validate_type_index(type_index, max_type_index) {
                Ok(()) => Ok(()),
                Err(_) => Err(ImportValidationError::InvalidFuncTypeIndex),
            }
        },
        ImportDescriptor::Table(table_type) => {
            if !limits_in_range(&table_type.limits, u32::MAX) {
                Err(ImportValidationError::InvalidTableLimits)
            } else {
                Ok(())
            }
        },
        ImportDescriptor::Memory(memory_type) => {
            if !limits_in_range(&memory_type.limits, 65536) {
                Err(ImportValidationError::InvalidMemoryLimits)
            } else {
                Ok(())
            }
        },
        ImportDescriptor::Global(_) => Ok(()),
    }
}

} // verus!
