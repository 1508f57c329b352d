//! Check of the export section: names must be unique across all exports and
//! each referenced index must be in range for its kind.

use vstd::prelude::*;
use crate::types::{Export, ExportDescriptor, FuncIndex, GlobalIndex, MemoryIndex, TableIndex};

verus! {

#[derive(PartialEq, Eq, Structural, Clone, Copy, Debug)]
pub enum ExportValidationError {
    DuplicateName,
    InvalidFuncIndex(FuncIndex),
    InvalidTableIndex(TableIndex),
    InvalidMemoryIndex(MemoryIndex),
    InvalidGlobalIndex(GlobalIndex),
}

/// Which error, if any, an export descriptor is rejected with, given the
/// greatest declared index of each kind.
pub open spec fn spec_export_desc_error(
    desc: ExportDescriptor,
    max_func_index: Option<FuncIndex>,
    max_table_index: Option<TableIndex>,
    max_memory_index: Option<MemoryIndex>,
    max_global_index: Option<GlobalIndex>,
) -> Option<ExportValidationError> {
    match desc {
        ExportDescriptor::Func { func_index } => if max_func_index matches Some(m) && func_index.0
            <= m.0 {
            None
        } else {
            Some(ExportValidationError::InvalidFuncIndex(func_index))
        },
        ExportDescriptor::Table { table_index } => if max_table_index matches Some(m)
            && table_index.0 <= m.0 {
            None
        } else {
            Some(ExportValidationError::InvalidTableIndex(table_index))
        },
        ExportDescriptor::Memory { memory_index } => if max_memory_index matches Some(m)
            && memory_index.0 <= m.0 {
            None
        } else {
            Some(ExportValidationError::InvalidMemoryIndex(memory_index))
        },
        ExportDescriptor::Global { global_index } => if max_global_index matches Some(m)
            && global_index.0 <= m.0 {
            None
        } else {
            Some(ExportValidationError::InvalidGlobalIndex(global_index))
        },
    }
}

/// Tracks the names exported so far, for duplicate detection.
pub struct ExportValidator {
    exported_names: Vec<String>,
}

impl ExportValidator {
    /// The names recorded so far.
    pub closed spec fn names(&self) -> Seq<Seq<char>> {
        self.exported_names@.map_values(|s: String| s@)
    }

    pub fn new() -> (r: ExportValidator)
        ensures
            r.names() =~= Seq::<Seq<char>>::empty(),
    {
        ExportValidator { exported_names: Vec::new() }
    }

    /// Accepts exactly an export whose name was not exported before and
    /// whose descriptor's index is in range for its kind.  The name is
    /// recorded even when the descriptor is rejected.
    pub fn validate(
        &mut self,
        export: &Export,
        max_func_index: Option<FuncIndex>,
        max_table_index: Option<TableIndex>,
        max_memory_index: Option<MemoryIndex>,
        max_global_index: Option<GlobalIndex>,
    ) -> (r: Result<(), ExportValidationError>)
        ensures
            old(self).names().contains(export.name@) ==> {
                &&& r == Err::<(), ExportValidationError>(ExportValidationError::DuplicateName)
                &&& final(self).names() == old(self).names()
            },
            !old(self).names().contains(export.name@) ==> {
                &&& final(self).names() == old(self).names().push(export.name@)
                &&& match r {
                    Ok(()) => spec_export_desc_error(
                        export.export_descriptor,
                        max_func_index,
                        max_table_index,
                        max_memory_index,
                        max_global_index,
                    ) is None,
                    Err(e) => spec_export_desc_error(
                        export.export_descriptor,
                        max_func_index,
                        max_table_index,
                        max_memory_index,
                        max_global_index,
                    ) == Some(e),
                }
            },
    {
        let mut i: usize = 0;
        let n = self.exported_names.len();
        while i < n
            invariant
                n == self.exported_names@.len(),
                i <= n,
                self == old(self),
                forall|k: int| 0 <= k < i ==> self.names()[k] != export.name@,
            decreases n - i,
        {
            if String::eq(&self.exported_names[i], &export.name) {
                proof {
                    assert(old(self).names()[i as int] == export.name@);
                }
                return Err(ExportValidationError::DuplicateName);
            }
            i = i + 1;
        }
        proof {
            assert(forall|k: int| 0 <= k < old(self).names().len()
                ==> old(self).names()[k] != export.name@);
        }
        self.exported_names.push(export.name.clone());
        proof {
            assert(self.names() =~= old(self).names().push(export.name@));
        }
        match export.export_descriptor {
            ExportDescriptor::Func { func_index } => {
                match max_func_index {
                    Some(m) if func_index.0 <= m.0 => Ok(()),
                    _ => Err(ExportValidationError::InvalidFuncIndex(func_index)),
                }
            },
            ExportDescriptor::Table { table_index } => {
                match max_table_index {
                    Some(m) if table_index.0 <= m.0 => Ok(()),
                    _ => Err(ExportValidationError::InvalidTableIndex(table_index)),
                }
            },
            ExportDescriptor::Memory { memory_index } => {
                match max_memory_index {
                    Some(m) if memory_index.0 <= m.0 => Ok(()),
                    _ => Err(ExportValidationError::InvalidMemoryIndex(memory_index)),
                }
            },
            ExportDescriptor::Global { global_index } => {
                match max_global_index {
                    Some(m) if global_index.0 <= m.0 => Ok(()),
                    _ => Err(ExportValidationError::InvalidGlobalIndex(global_index)),
                }
            },
        }
    }
}

} // verus!
