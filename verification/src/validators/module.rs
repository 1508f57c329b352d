//! The module validator: holds the validation context accumulated from the
//! sections seen so far and checks each chunk the parser emits against it.
//! For every section kind a spec fold (`spec_validate_*_section`) says item
//! by item what is accepted, with which error a malformed or invalid section
//! is rejected, and how the context grows; `Validator::validate` is proved
//! exact against those folds.

use vstd::prelude::*;
use crate::leb::{leb128_u32_at, BinaryReaderError};
use crate::parser::{Chunk, SectionReader};
use crate::readers::binary::{spec_bytes_vec_at, spec_global_type_at, spec_table_type_at, spec_memory_type_at};
use crate::readers::code_section::CodeReaderError;
use crate::readers::data_section::DataReaderError;
use crate::readers::element_section::{spec_u32_vec_at, ElementReaderError};
use crate::readers::export_section::{spec_export_at, ExportReaderError};
use crate::readers::function_section::FunctionReaderError;
use crate::readers::global_section::GlobalReaderError;
use crate::readers::import_section::{spec_import_at, ImportReaderError};
use crate::readers::instruction::{spec_expr_end_at, InstructionReaderError};
use crate::readers::memory_section::MemoryReaderError;
use crate::readers::table_section::TableReaderError;
use crate::readers::type_section::{spec_func_type_at, TypeReaderError};
use crate::types::{
    FuncIndex, FunctionType, GlobalIndex, GlobalType, ImportDescriptor, MemoryIndex, MemoryType,
    TableIndex, TableType, TypeIndex, ValueType,
};
use crate::validators::code::{
    spec_const_expr_ok, spec_validate_code, CodeValidationError, CodeValidator,
};
use crate::validators::data::{validate_data, DataValidationError};
use crate::validators::element::{validate_element, ElementValidationError};
use crate::validators::export::{spec_export_desc_error, ExportValidationError, ExportValidator};
use crate::validators::global::{validate_global_type, GlobalValidationError};
use crate::validators::import::{
    spec_import_desc_error, validate_import_desc, ImportValidationError,
};
use crate::validators::memory::{
    spec_limits_in_range, limits_in_range, validate_memory_type, MemoryLimitsValidationError,
};
use crate::validators::preamble::{
    spec_wasm_magic, spec_wasm_supported_version, validate_preamble, PreambleValidationError,
};
use crate::validators::start::{validate_start, StartValidationError};
use crate::validators::type_index::{validate_type_index, TypeIndexValidationError};

verus! {

#[derive(PartialEq, Eq, Structural, Clone, Copy, Debug)]
pub enum ValidationError {
    PreambleValidation(PreambleValidationError),
    TypeReader(TypeReaderError),
    ImportValidation(ImportValidationError),
    ImportReader(ImportReaderError),
    FunctionValidation(TypeIndexValidationError),
    FunctionReader(FunctionReaderError),
    TableReader(TableReaderError),
    MemoryReader(MemoryReaderError),
    MemoryValidation(MemoryLimitsValidationError),
    GlobalReader(GlobalReaderError),
    GlobalValidation(GlobalValidationError),
    ExportReader(ExportReaderError),
    ExportValidation(ExportValidationError),
    StartValidation(StartValidationError),
    ElementReader(ElementReaderError),
    ElementValidation(ElementValidationError),
    DataReader(DataReaderError),
    DataValidation(DataValidationError),
    CodeReader(CodeReaderError),
    InstructionReader(InstructionReaderError),
    CodeValidation(CodeValidationError),
    UnknownSection(u8),
}

/// The greatest index of a space with `len` entries.
pub open spec fn spec_max_type_index(len: nat) -> Option<TypeIndex> {
    if len == 0 {
        None
    } else {
        Some(TypeIndex((len - 1) as u32))
    }
}

pub open spec fn spec_max_func_index(len: nat) -> Option<FuncIndex> {
    if len == 0 {
        None
    } else {
        Some(FuncIndex((len - 1) as u32))
    }
}

pub open spec fn spec_max_table_index(count: nat) -> Option<TableIndex> {
    if count == 0 {
        None
    } else {
        Some(TableIndex((count - 1) as u32))
    }
}

pub open spec fn spec_max_memory_index(count: nat) -> Option<MemoryIndex> {
    if count == 0 {
        None
    } else {
        Some(MemoryIndex((count - 1) as u32))
    }
}

pub open spec fn spec_max_global_index(len: nat) -> Option<GlobalIndex> {
    if len == 0 {
        None
    } else {
        Some(GlobalIndex((len - 1) as u32))
    }
}

/// The type section's items from position `i` on: `n` function types, each
/// appended to the type space, which may never pass the `u32` capacity.  An
/// error carries the types declared up to it.
pub open spec fn spec_validate_type_section(s: Seq<u8>, i: int, n: nat, model: Seq<(Seq<ValueType>, Seq<ValueType>)>) -> Result<
    Seq<(Seq<ValueType>, Seq<ValueType>)>,
    (Seq<(Seq<ValueType>, Seq<ValueType>)>, ValidationError),
>
    decreases n,
{
    if n == 0 {
        Ok(model)
    } else {
        match spec_func_type_at(s, i) {
            Err(e) => Err((model, ValidationError::TypeReader(e))),
            Ok(((ps, rs), j)) => if model.len() >= u32::MAX {
                Err(
                    (
                        model,
                        ValidationError::FunctionValidation(
                            TypeIndexValidationError::InvalidTypeIndex,
                        ),
                    ),
                )
            } else {
                spec_validate_type_section(s, j, (n - 1) as nat, model.push((ps, rs)))
            },
        }
    }
}

/// The import-section fold's state: the function index space, the globals
/// (all, and the imported ones), the count of imported functions, and the
/// table and memory counts.
pub struct ImportState {
    pub function_type_indices: Seq<TypeIndex>,
    pub globals: Seq<GlobalType>,
    pub imported_globals: Seq<GlobalType>,
    pub num_imported_functions: nat,
    pub num_tables: nat,
    pub num_memories: nat,
}

/// The import section's items from position `i` on: `n` imports, each
/// checked against the declared types and the limits bounds, then recorded.
/// At most one table and one memory may exist across imports and
/// definitions, and the index spaces may never pass the `u32` capacity.
pub open spec fn spec_validate_import_section(s: Seq<u8>, i: int, n: nat, types_len: nat, st: ImportState) -> Result<ImportState, (ImportState, ValidationError)>
    decreases n,
{
    if n == 0 {
        Ok(st)
    } else {
        match spec_import_at(s, i) {
            Err(e) => Err((st, ValidationError::ImportReader(e))),
            Ok(((_, _, desc), j)) => match spec_import_desc_error(
                desc,
                spec_max_type_index(types_len),
            ) {
                Some(e) => Err((st, ValidationError::ImportValidation(e))),
                None => if st.function_type_indices.len() >= u32::MAX || st.globals.len()
                    >= u32::MAX {
                    Err(
                        (
                            st,
                            ValidationError::ImportValidation(
                                ImportValidationError::InvalidFuncTypeIndex,
                            ),
                        ),
                    )
                } else {
                    match desc {
                        ImportDescriptor::Func { type_index } => spec_validate_import_section(
                            s,
                            j,
                            (n - 1) as nat,
                            types_len,
                            ImportState {
                                function_type_indices: st.function_type_indices.push(type_index),
                                num_imported_functions: st.num_imported_functions + 1,
                                ..st
                            },
                        ),
                        ImportDescriptor::Table(_) => if st.num_tables >= 1 {
                            Err(
                                (
                                    st,
                                    ValidationError::ImportValidation(
                                        ImportValidationError::InvalidTableLimits,
                                    ),
                                ),
                            )
                        } else {
                            spec_validate_import_section(
                                s,
                                j,
                                (n - 1) as nat,
                                types_len,
                                ImportState { num_tables: st.num_tables + 1, ..st },
                            )
                        },
                        ImportDescriptor::Memory(_) => if st.num_memories >= 1 {
                            Err(
                                (
                                    st,
                                    ValidationError::ImportValidation(
                                        ImportValidationError::InvalidMemoryLimits,
                                    ),
                                ),
                            )
                        } else {
                            spec_validate_import_section(
                                s,
                                j,
                                (n - 1) as nat,
                                types_len,
                                ImportState { num_memories: st.num_memories + 1, ..st },
                            )
                        },
                        ImportDescriptor::Global(g) => spec_validate_import_section(
                            s,
                            j,
                            (n - 1) as nat,
                            types_len,
                            ImportState {
                                globals: st.globals.push(g),
                                imported_globals: st.imported_globals.push(g),
                                ..st
                            },
                        ),
                    }
                },
            },
        }
    }
}

/// The function section's items from position `i` on: `n` type indices,
/// each within the declared types, appended to the function index space.
pub open spec fn spec_validate_function_section(s: Seq<u8>, i: int, n: nat, types_len: nat, ftis: Seq<TypeIndex>, num_defined: nat) -> Result<(Seq<TypeIndex>, nat), ((Seq<TypeIndex>, nat), ValidationError)>
    decreases n,
{
    if n == 0 {
        Ok((ftis, num_defined))
    } else {
        match leb128_u32_at(s, i) {
            Err(e) => Err(
                ((ftis, num_defined), ValidationError::FunctionReader(
                    FunctionReaderError::BinaryReaderError(e),
                )),
            ),
            Ok((v, j)) => if !(spec_max_type_index(types_len) matches Some(m) && v <= m.0) {
                Err(
                    ((ftis, num_defined), ValidationError::FunctionValidation(
                        TypeIndexValidationError::InvalidTypeIndex,
                    )),
                )
            } else if ftis.len() >= u32::MAX {
                Err(
                    ((ftis, num_defined), ValidationError::FunctionValidation(
                        TypeIndexValidationError::InvalidTypeIndex,
                    )),
                )
            } else {
                spec_validate_function_section(
                    s,
                    j,
                    (n - 1) as nat,
                    types_len,
                    ftis.push(TypeIndex(v as u32)),
                    num_defined + 1,
                )
            },
        }
    }
}

/// The table section's items from position `i` on: `n` table types, each
/// with limits within the `u32` bound, with at most one table ever declared
/// or imported.
pub open spec fn spec_validate_table_section(s: Seq<u8>, i: int, n: nat, num_tables: nat) -> Result<nat, (nat, ValidationError)>
    decreases n,
{
    if n == 0 {
        Ok(num_tables)
    } else {
        match spec_table_type_at(s, i) {
            Err(e) => Err(
                (num_tables, ValidationError::TableReader(TableReaderError::BinaryReaderError(e))),
            ),
            Ok((t, j)) => if !spec_limits_in_range(t.limits, u32::MAX) {
                Err(
                    (num_tables, ValidationError::ImportValidation(
                        ImportValidationError::InvalidTableLimits,
                    )),
                )
            } else if num_tables >= 1 {
                Err(
                    (num_tables, ValidationError::ImportValidation(
                        ImportValidationError::InvalidTableLimits,
                    )),
                )
            } else {
                spec_validate_table_section(s, j, (n - 1) as nat, num_tables + 1)
            },
        }
    }
}

/// The memory section's items from position `i` on: `n` memory types, each
/// with limits within the 65536-page bound, with at most one memory ever
/// declared or imported.
pub open spec fn spec_validate_memory_section(s: Seq<u8>, i: int, n: nat, num_memories: nat) -> Result<nat, (nat, ValidationError)>
    decreases n,
{
    if n == 0 {
        Ok(num_memories)
    } else {
        match spec_memory_type_at(s, i) {
            Err(e) => Err(
                (num_memories, ValidationError::MemoryReader(
                    MemoryReaderError::BinaryReaderError(e),
                )),
            ),
            Ok((m, j)) => if !spec_limits_in_range(m.limits, 65536) {
                Err(
                    (num_memories, ValidationError::MemoryValidation(
                        MemoryLimitsValidationError::InvalidMemoryLimits,
                    )),
                )
            } else if num_memories >= 1 {
                Err(
                    (num_memories, ValidationError::MemoryValidation(
                        MemoryLimitsValidationError::InvalidMemoryLimits,
                    )),
                )
            } else {
                spec_validate_memory_section(s, j, (n - 1) as nat, num_memories + 1)
            },
        }
    }
}

/// One global-section item at position `i` of `s`, as the global reader
/// yields it: the global's type and its initializer region, which runs up to
/// and including its `End` instruction.
pub open spec fn spec_global_item_at(s: Seq<u8>, i: int) -> Result<((GlobalType, int, int), int), GlobalReaderError> {
    match spec_global_type_at(s, i) {
        Err(e) => Err(GlobalReaderError::BinaryReaderError(e)),
        Ok((gt, j)) => match spec_expr_end_at(s, j) {
            Err(InstructionReaderError::BinaryReaderError(e)) => Err(
                GlobalReaderError::BinaryReaderError(e),
            ),
            Err(e) => Err(GlobalReaderError::InstructionReaderError(e)),
            Ok(k) => Ok(((gt, j, k), k)),
        },
    }
}

/// The global section's items from position `i` on: `n` globals, each with
/// an initializer that is a constant expression of the declared type,
/// reading at most the immutable imported globals; each accepted global is
/// appended, and the global index space may never pass the `u32` capacity.
pub open spec fn spec_validate_global_section(s: Seq<u8>, i: int, n: nat, imported_globals: Seq<GlobalType>, globals: Seq<GlobalType>) -> Result<Seq<GlobalType>, (Seq<GlobalType>, ValidationError)>
    decreases n,
{
    if n == 0 {
        Ok(globals)
    } else {
        match spec_global_item_at(s, i) {
            Err(e) => Err((globals, ValidationError::GlobalReader(e))),
            Ok(((gt, j, k), m)) => match spec_const_expr_ok(
                s.subrange(j, k),
                gt.var_type,
                imported_globals,
            ) {
                Err(e) => Err(
                    (globals, ValidationError::GlobalValidation(
                        GlobalValidationError::CodeValidation(e),
                    )),
                ),
                Ok(()) => if globals.len() >= u32::MAX {
                    Err(
                        (globals, ValidationError::GlobalValidation(
                            GlobalValidationError::CodeValidation(
                                CodeValidationError::InvalidGlobalIndex(GlobalIndex(u32::MAX)),
                            ),
                        )),
                    )
                } else {
                    spec_validate_global_section(
                        s,
                        m,
                        (n - 1) as nat,
                        imported_globals,
                        globals.push(gt),
                    )
                },
            },
        }
    }
}

/// The export section's items from position `i` on: `n` exports, each with
/// a name no earlier export used and an index in range for its kind.  The
/// name is recorded even when the index is rejected.
pub open spec fn spec_validate_export_section(
    s: Seq<u8>,
    i: int,
    n: nat,
    names: Seq<Seq<char>>,
    max_func: Option<FuncIndex>,
    max_table: Option<TableIndex>,
    max_memory: Option<MemoryIndex>,
    max_global: Option<GlobalIndex>,
) -> Result<(), ValidationError>
    decreases n,
{
    if n == 0 {
        Ok(())
    } else {
        match spec_export_at(s, i) {
            Err(e) => Err(ValidationError::ExportReader(e)),
            Ok(((name, desc), j)) => if names.contains(name) {
                Err(ValidationError::ExportValidation(ExportValidationError::DuplicateName))
            } else {
                match spec_export_desc_error(desc, max_func, max_table, max_memory, max_global) {
                    Some(e) => Err(ValidationError::ExportValidation(e)),
                    None => spec_validate_export_section(
                        s,
                        j,
                        (n - 1) as nat,
                        names.push(name),
                        max_func,
                        max_table,
                        max_memory,
                        max_global,
                    ),
                }
            },
        }
    }
}

/// One element-section item at position `i` of `s`, as the element reader
/// yields it: the table index, the offset initializer region, and the
/// function indices.
pub open spec fn spec_element_item_at(s: Seq<u8>, i: int) -> Result<((nat, int, int, Seq<u32>), int), ElementReaderError> {
    match leb128_u32_at(s, i) {
        Err(e) => Err(ElementReaderError::BinaryReaderError(e)),
        Ok((t, j)) => match spec_expr_end_at(s, j) {
            Err(InstructionReaderError::BinaryReaderError(e)) => Err(
                ElementReaderError::BinaryReaderError(e),
            ),
            Err(e) => Err(ElementReaderError::InstructionReaderError(e)),
            Ok(k) => match spec_u32_vec_at(s, k) {
                Err(e) => Err(ElementReaderError::BinaryReaderError(e)),
                Ok((fs, m)) => Ok(((t, j, k, fs), m)),
            },
        },
    }
}

/// The first listed function index that is out of range, if any.
pub open spec fn spec_first_invalid_func(fs: Seq<u32>, k: int, num_funcs: nat) -> Option<u32>
    decreases fs.len() - k when 0 <= k <= fs.len()
{
    if k >= fs.len() {
        None
    } else if fs[k] >= num_funcs {
        Some(fs[k])
    } else {
        spec_first_invalid_func(fs, k + 1, num_funcs)
    }
}

/// The element section's items from position `i` on: `n` segments, each
/// with a declared table index, an offset initializer that is a constant
/// `i32` expression reading at most the immutable imported globals, and
/// declared function indices.
pub open spec fn spec_validate_element_section(s: Seq<u8>, i: int, n: nat, num_tables: nat, num_funcs: nat, imported_globals: Seq<GlobalType>) -> Result<(), ValidationError>
    decreases n,
{
    if n == 0 {
        Ok(())
    } else {
        match spec_element_item_at(s, i) {
            Err(e) => Err(ValidationError::ElementReader(e)),
            Ok(((t, j, k, fs), m)) => if t >= num_tables {
                Err(
                    ValidationError::ElementValidation(
                        ElementValidationError::InvalidTableIndex(TableIndex(t as u32)),
                    ),
                )
            } else {
                match spec_const_expr_ok(s.subrange(j, k), ValueType::I32, imported_globals) {
                    Err(e) => Err(
                        ValidationError::ElementValidation(
                            ElementValidationError::CodeValidation(e),
                        ),
                    ),
                    Ok(()) => match spec_first_invalid_func(fs, 0, num_funcs) {
                        Some(f) => Err(
                            ValidationError::ElementValidation(
                                ElementValidationError::InvalidFuncIndex(FuncIndex(f)),
                            ),
                        ),
                        None => spec_validate_element_section(
                            s,
                            m,
                            (n - 1) as nat,
                            num_tables,
                            num_funcs,
                            imported_globals,
                        ),
                    },
                }
            },
        }
    }
}

/// One data-section item at position `i` of `s`, as the data reader yields
/// it: the memory index, the offset initializer region, and the initial
/// contents.
pub open spec fn spec_data_item_at(s: Seq<u8>, i: int) -> Result<((nat, int, int, Seq<u8>), int), DataReaderError> {
    match leb128_u32_at(s, i) {
        Err(e) => Err(DataReaderError::BinaryReaderError(e)),
        Ok((m, j)) => match spec_expr_end_at(s, j) {
            Err(InstructionReaderError::BinaryReaderError(e)) => Err(
                DataReaderError::BinaryReaderError(e),
            ),
            Err(e) => Err(DataReaderError::InstructionReaderError(e)),
            Ok(k) => match spec_bytes_vec_at(s, k) {
                Err(e) => Err(DataReaderError::BinaryReaderError(e)),
                Ok((bs, end)) => Ok(((m, j, k, bs), end)),
            },
        },
    }
}

/// The data section's items from position `i` on: `n` segments, each with a
/// declared memory index and an offset initializer that is a constant `i32`
/// expression reading at most the immutable imported globals.
pub open spec fn spec_validate_data_section(s: Seq<u8>, i: int, n: nat, num_memories: nat, imported_globals: Seq<GlobalType>) -> Result<(), ValidationError>
    decreases n,
{
    if n == 0 {
        Ok(())
    } else {
        match spec_data_item_at(s, i) {
            Err(e) => Err(ValidationError::DataReader(e)),
            Ok(((m, j, k, _), end)) => if m >= num_memories {
                Err(
                    ValidationError::DataValidation(
                        DataValidationError::InvalidMemoryIndex(MemoryIndex(m as u32)),
                    ),
                )
            } else {
                match spec_const_expr_ok(s.subrange(j, k), ValueType::I32, imported_globals) {
                    Err(e) => Err(
                        ValidationError::DataValidation(DataValidationError::CodeValidation(e)),
                    ),
                    Ok(()) => spec_validate_data_section(
                        s,
                        end,
                        (n - 1) as nat,
                        num_memories,
                        imported_globals,
                    ),
                }
            },
        }
    }
}

/// The code section's entries from position `i` on: `n` size-prefixed code
/// entries, entry `k` type-checked as the `k`-th module-defined function —
/// whose index follows all imported functions.
pub open spec fn spec_validate_code_section(
    s: Seq<u8>,
    i: int,
    n: nat,
    k: nat,
    globals: Seq<GlobalType>,
    types: Seq<FunctionType>,
    type_indices: Seq<TypeIndex>,
    num_imported: nat,
    has_table: bool,
    has_memory: bool,
) -> Result<(), ValidationError>
    decreases n,
{
    if n == 0 {
        Ok(())
    } else {
        match spec_bytes_vec_at(s, i) {
            Err(e) => Err(
                ValidationError::CodeReader(CodeReaderError::BinaryReaderError(e)),
            ),
            Ok((entry, j)) => match spec_validate_code(
                entry,
                globals,
                types,
                type_indices,
                FuncIndex((num_imported + k) as u32),
                has_table,
                has_memory,
            ) {
                Err(e) => Err(ValidationError::CodeValidation(e)),
                Ok(()) => spec_validate_code_section(
                    s,
                    j,
                    (n - 1) as nat,
                    k + 1,
                    globals,
                    types,
                    type_indices,
                    num_imported,
                    has_table,
                    has_memory,
                ),
            },
        }
    }
}

/// The context the sections seen so far have accumulated.
struct ValidationContext {
    function_types: Vec<FunctionType>,
    globals: Vec<GlobalType>,
    imported_globals: Vec<GlobalType>,
    function_type_indices: Vec<TypeIndex>,
    num_imported_functions: u32,
    num_defined_functions: u32,
    max_table_index: Option<TableIndex>,
    max_memory_index: Option<MemoryIndex>,
}

/// Validates each chunk the parser emits, in emission order.
pub struct Validator {
    context: ValidationContext,
}

impl Validator {
    /// The function types the type section has declared.
    pub closed spec fn spec_function_types(&self) -> Seq<FunctionType> {
        self.context.function_types@
    }

    /// The function types as mathematics: parameter and result type lists.
    pub open spec fn spec_function_types_model(&self) -> Seq<(Seq<ValueType>, Seq<ValueType>)> {
        self.spec_function_types().map_values(|ft: FunctionType| (ft.params@, ft.results@))
    }

    /// The globals declared so far, in declaration order.
    pub closed spec fn spec_globals(&self) -> Seq<GlobalType> {
        self.context.globals@
    }

    /// The imported globals, the only ones an initializer may read.
    pub closed spec fn spec_imported_globals(&self) -> Seq<GlobalType> {
        self.context.imported_globals@
    }

    /// The type index of each function of the index space, imported
    /// functions first.
    pub closed spec fn spec_function_type_indices(&self) -> Seq<TypeIndex> {
        self.context.function_type_indices@
    }

    /// How many functions are imported.
    pub closed spec fn spec_num_imported_functions(&self) -> nat {
        self.context.num_imported_functions as nat
    }

    /// How many functions the function section has declared.
    pub closed spec fn spec_num_defined_functions(&self) -> nat {
        self.context.num_defined_functions as nat
    }

    /// How many tables exist across imports and definitions: zero or one.
    pub closed spec fn spec_num_tables(&self) -> nat {
        match self.context.max_table_index {
            None => 0,
            Some(m) => m.0 as nat + 1,
        }
    }

    /// How many memories exist across imports and definitions: zero or one.
    pub closed spec fn spec_num_memories(&self) -> nat {
        match self.context.max_memory_index {
            None => 0,
            Some(m) => m.0 as nat + 1,
        }
    }

    /// Whether a table has been declared or imported.
    pub open spec fn spec_has_table(&self) -> bool {
        self.spec_num_tables() > 0
    }

    /// Whether a memory has been declared or imported.
    pub open spec fn spec_has_memory(&self) -> bool {
        self.spec_num_memories() > 0
    }

    /// The context's invariant: the index spaces fit `u32`, the function
    /// index space is exactly the imported functions followed by the
    /// module-defined ones, and at most one table and one memory exist.
    pub closed spec fn ctx_wf(&self) -> bool {
        &&& self.context.function_types@.len() <= u32::MAX
        &&& self.context.globals@.len() <= u32::MAX
        &&& self.context.function_type_indices@.len() <= u32::MAX
        &&& self.context.imported_globals@.len() <= self.context.globals@.len()
        &&& self.context.num_imported_functions + self.context.num_defined_functions
            == self.context.function_type_indices@.len()
        &&& (self.context.max_table_index matches Some(m) ==> m.0 == 0)
        &&& (self.context.max_memory_index matches Some(m) ==> m.0 == 0)
    }

    pub fn new() -> (r: Validator)
        ensures
            r.ctx_wf(),
            r.spec_function_types().len() == 0,
            r.spec_globals().len() == 0,
            r.spec_imported_globals().len() == 0,
            r.spec_function_type_indices().len() == 0,
            r.spec_num_imported_functions() == 0,
            r.spec_num_defined_functions() == 0,
            r.spec_num_tables() == 0,
            r.spec_num_memories() == 0,
    {
        Validator {
            context: ValidationContext {
                function_types: Vec::new(),
                globals: Vec::new(),
                imported_globals: Vec::new(),
                function_type_indices: Vec::new(),
                num_imported_functions: 0,
                num_defined_functions: 0,
                max_table_index: None,
                max_memory_index: None,
            },
        }
    }

    /// Whether a whole chunk's readers are in their freshly-built state.
    pub open spec fn spec_chunk_wf(chunk: Chunk) -> bool {
        match chunk {
            Chunk::Preamble(_, _) => true,
            Chunk::Done => true,
            Chunk::Section(sr) => match sr {
                SectionReader::Custom(_) => true,
                SectionReader::Type(r) => r.wf(),
                SectionReader::Import(r) => r.wf(),
                SectionReader::Function(r) => r.wf(),
                SectionReader::Table(r) => r.wf(),
                SectionReader::Memory(r) => r.wf(),
                SectionReader::Global(r) => r.wf(),
                SectionReader::Export(r) => r.wf(),
                SectionReader::Start(_) => true,
                SectionReader::Element(r) => r.wf(),
                SectionReader::Code(r) => r.wf(),
                SectionReader::Data(r) => r.wf(),
                SectionReader::Unknown(_) => true,
            },
        }
    }

    /// The parts of the context a section kind does not touch stay as they
    /// were.
    pub open spec fn spec_ctx_unchanged_but(
        &self,
        other: &Validator,
        types: bool,
        functions: bool,
        globals: bool,
        tables: bool,
        memories: bool,
    ) -> bool {
        &&& (!types ==> self.spec_function_types() == other.spec_function_types())
        &&& (!functions ==> self.spec_function_type_indices() == other.spec_function_type_indices()
            && self.spec_num_imported_functions() == other.spec_num_imported_functions()
            && self.spec_num_defined_functions() == other.spec_num_defined_functions())
        &&& (!globals ==> self.spec_globals() == other.spec_globals()
            && self.spec_imported_globals() == other.spec_imported_globals())
        &&& (!tables ==> self.spec_num_tables() == other.spec_num_tables())
        &&& (!memories ==> self.spec_num_memories() == other.spec_num_memories())
    }

    /// Validates one chunk against the context accumulated so far, exactly
    /// as the per-section folds say: the preamble must carry the magic bytes
    /// and the supported version; a `Done` chunk and a custom section always
    /// pass; an unknown section id is rejected; every other section is
    /// checked item by item and its effect recorded, leaving untouched parts
    /// of the context as they were even when an item is rejected.
    pub fn validate<'a>(&mut self, chunk: &Chunk<'a>) -> (r: Result<(), ValidationError>)
        requires
            old(self).ctx_wf(),
            Self::spec_chunk_wf(*chunk),
        ensures
            final(self).ctx_wf(),
            *chunk matches Chunk::Preamble(magic, version) ==> ({
                &&& (r is Ok <==> (magic@ == spec_wasm_magic() && version
                    == spec_wasm_supported_version()))
                &&& (magic@ != spec_wasm_magic() ==> r == Err::<(), ValidationError>(
                    ValidationError::PreambleValidation(PreambleValidationError::BadMagicNumber),
                ))
                &&& (magic@ == spec_wasm_magic() && version != spec_wasm_supported_version()
                    ==> r == Err::<(), ValidationError>(
                    ValidationError::PreambleValidation(PreambleValidationError::BadVersion),
                ))
                &&& final(self).spec_ctx_unchanged_but(old(self), false, false, false, false, false)
            }),
            *chunk is Done ==> r is Ok && final(self).spec_ctx_unchanged_but(
                old(self),
                false,
                false,
                false,
                false,
                false,
            ),
            *chunk matches Chunk::Section(SectionReader::Unknown(id)) ==> r == Err::<(),
                ValidationError>(ValidationError::UnknownSection(id))
                && final(self).spec_ctx_unchanged_but(old(self), false, false, false, false, false),
            *chunk matches Chunk::Section(SectionReader::Custom(_)) ==> r is Ok
                && final(self).spec_ctx_unchanged_but(old(self), false, false, false, false, false),
            *chunk matches Chunk::Section(SectionReader::Type(reader)) ==> ({
                &&& final(self).spec_ctx_unchanged_but(old(self), true, false, false, false, false)
                &&& match spec_validate_type_section(
                    reader.body(),
                    reader.pos(),
                    reader.spec_count() as nat,
                    old(self).spec_function_types_model(),
                ) {
                    Ok(model) => r is Ok && final(self).spec_function_types_model() == model,
                    Err((model, e)) => r == Err::<(), ValidationError>(e) && final(self).spec_function_types_model() == model,
                }
            }),
            *chunk matches Chunk::Section(SectionReader::Import(reader)) ==> ({
                &&& final(self).spec_ctx_unchanged_but(old(self), false, true, true, true, true)
                &&& match spec_validate_import_section(
                    reader.body(),
                    reader.pos(),
                    reader.spec_count() as nat,
                    old(self).spec_function_types().len(),
                    ImportState {
                        function_type_indices: old(self).spec_function_type_indices(),
                        globals: old(self).spec_globals(),
                        imported_globals: old(self).spec_imported_globals(),
                        num_imported_functions: old(self).spec_num_imported_functions(),
                        num_tables: old(self).spec_num_tables(),
                        num_memories: old(self).spec_num_memories(),
                    },
                ) {
                    Ok(st) => r is Ok && final(self).spec_import_state() == st,
                    Err((st, e)) => r == Err::<(), ValidationError>(e) && final(self).spec_import_state() == st,
                }
            }),
            *chunk matches Chunk::Section(SectionReader::Function(reader)) ==> ({
                &&& final(self).spec_ctx_unchanged_but(old(self), false, true, false, false, false)
                &&& final(self).spec_num_imported_functions() == old(
                    self,
                ).spec_num_imported_functions()
                &&& match spec_validate_function_section(
                    reader.body(),
                    reader.pos(),
                    reader.spec_count() as nat,
                    old(self).spec_function_types().len(),
                    old(self).spec_function_type_indices(),
                    old(self).spec_num_defined_functions(),
                ) {
                    Ok((ftis, nd)) => r is Ok && final(self).spec_function_type_indices() == ftis
                        && final(self).spec_num_defined_functions() == nd,
                    Err(((ftis, nd), e)) => r == Err::<(), ValidationError>(e) && final(self).spec_function_type_indices() == ftis && final(self).spec_num_defined_functions() == nd,
                }
            }),
            *chunk matches Chunk::Section(SectionReader::Table(reader)) ==> ({
                &&& final(self).spec_ctx_unchanged_but(old(self), false, false, false, true, false)
                &&& match spec_validate_table_section(
                    reader.body(),
                    reader.pos(),
                    reader.spec_count() as nat,
                    old(self).spec_num_tables(),
                ) {
                    Ok(nt) => r is Ok && final(self).spec_num_tables() == nt,
                    Err((nt, e)) => r == Err::<(), ValidationError>(e) && final(self).spec_num_tables() == nt,
                }
            }),
            *chunk matches Chunk::Section(SectionReader::Memory(reader)) ==> ({
                &&& final(self).spec_ctx_unchanged_but(old(self), false, false, false, false, true)
                &&& match spec_validate_memory_section(
                    reader.body(),
                    reader.pos(),
                    reader.spec_count() as nat,
                    old(self).spec_num_memories(),
                ) {
                    Ok(nm) => r is Ok && final(self).spec_num_memories() == nm,
                    Err((nm, e)) => r == Err::<(), ValidationError>(e) && final(self).spec_num_memories() == nm,
                }
            }),
            *chunk matches Chunk::Section(SectionReader::Global(reader)) ==> ({
                &&& final(self).spec_ctx_unchanged_but(old(self), false, false, true, false, false)
                &&& final(self).spec_imported_globals() == old(self).spec_imported_globals()
                &&& match spec_validate_global_section(
                    reader.body(),
                    reader.pos(),
                    reader.spec_count() as nat,
                    old(self).spec_imported_globals(),
                    old(self).spec_globals(),
                ) {
                    Ok(gs) => r is Ok && final(self).spec_globals() == gs,
                    Err((gs, e)) => r == Err::<(), ValidationError>(e) && final(self).spec_globals() == gs,
                }
            }),
            *chunk matches Chunk::Section(SectionReader::Export(reader)) ==> ({
                &&& final(self).spec_ctx_unchanged_but(old(self), false, false, false, false, false)
                &&& r == spec_validate_export_section(
                    reader.body(),
                    reader.pos(),
                    reader.spec_count() as nat,
                    Seq::empty(),
                    spec_max_func_index(old(self).spec_function_type_indices().len()),
                    spec_max_table_index(old(self).spec_num_tables()),
                    spec_max_memory_index(old(self).spec_num_memories()),
                    spec_max_global_index(old(self).spec_globals().len()),
                )
            }),
            *chunk matches Chunk::Section(SectionReader::Start(reader)) ==> ({
                &&& final(self).spec_ctx_unchanged_but(old(self), false, false, false, false, false)
                &&& (r is Ok <==> ({
                    &&& reader.spec_func_index().0 < old(self).spec_function_type_indices().len()
                    &&& old(self).spec_function_type_indices()[reader.spec_func_index().0 as int].0
                        < old(self).spec_function_types().len()
                    &&& old(self).spec_function_types_model()[old(
                        self,
                    ).spec_function_type_indices()[reader.spec_func_index().0 as int].0 as int].0.len()
                        == 0
                    &&& old(self).spec_function_types_model()[old(
                        self,
                    ).spec_function_type_indices()[reader.spec_func_index().0 as int].0 as int].1.len()
                        == 0
                }))
            }),
            *chunk matches Chunk::Section(SectionReader::Element(reader)) ==> ({
                &&& final(self).spec_ctx_unchanged_but(old(self), false, false, false, false, false)
                &&& r == spec_validate_element_section(
                    reader.body(),
                    reader.pos(),
                    reader.spec_count() as nat,
                    old(self).spec_num_tables(),
                    old(self).spec_function_type_indices().len(),
                    old(self).spec_imported_globals(),
                )
            }),
            *chunk matches Chunk::Section(SectionReader::Data(reader)) ==> ({
                &&& final(self).spec_ctx_unchanged_but(old(self), false, false, false, false, false)
                &&& r == spec_validate_data_section(
                    reader.body(),
                    reader.pos(),
                    reader.spec_count() as nat,
                    old(self).spec_num_memories(),
                    old(self).spec_imported_globals(),
                )
            }),
            *chunk matches Chunk::Section(SectionReader::Code(reader)) ==> ({
                &&& final(self).spec_ctx_unchanged_but(old(self), false, false, false, false, false)
                &&& if reader.spec_count() != old(self).spec_num_defined_functions() {
                    r == Err::<(), ValidationError>(
                        ValidationError::CodeValidation(
                            CodeValidationError::InvalidFunctionIndex(
                                FuncIndex(
                                    (old(self).spec_num_imported_functions() + (
                                    if reader.spec_count() < old(
                                        self,
                                    ).spec_num_defined_functions() {
                                        reader.spec_count() as nat
                                    } else {
                                        old(self).spec_num_defined_functions()
                                    })) as u32,
                                ),
                            ),
                        ),
                    )
                } else {
                    r == spec_validate_code_section(
                        reader.body(),
                        reader.pos(),
                        reader.spec_count() as nat,
                        0,
                        old(self).spec_globals(),
                        old(self).spec_function_types(),
                        old(self).spec_function_type_indices(),
                        old(self).spec_num_imported_functions(),
                        old(self).spec_has_table(),
                        old(self).spec_has_memory(),
                    )
                }
            }),
    {
        match chunk {
            Chunk::Preamble(magic_number, version) => {
                match validate_preamble(magic_number, *version) {
                    Ok(()) => Ok(()),
                    Err(e) => Err(ValidationError::PreambleValidation(e)),
                }
            },
            Chunk::Section(section_reader) => {
                match section_reader {
                    SectionReader::Custom(_) => Ok(()),
                    SectionReader::Type(reader) => self.validate_type_section(reader),
                    SectionReader::Import(reader) => self.validate_import_section(reader),
                    SectionReader::Function(reader) => self.validate_function_section(reader),
                    SectionReader::Table(reader) => self.validate_table_section(reader),
                    SectionReader::Memory(reader) => self.validate_memory_section(reader),
                    SectionReader::Global(reader) => self.validate_global_section(reader),
                    SectionReader::Export(reader) => self.validate_export_section(reader),
                    SectionReader::Start(reader) => {
                        let func_index = reader.get_func_index();
                        match validate_start(
                            func_index,
                            &self.context.function_type_indices,
                            &self.context.function_types,
                        ) {
                            Ok(()) => Ok(()),
                            Err(e) => Err(ValidationError::StartValidation(e)),
                        }
                    },
                    SectionReader::Element(reader) => self.validate_element_section(reader),
                    SectionReader::Code(reader) => self.validate_code_section(reader),
                    SectionReader::Data(reader) => self.validate_data_section(reader),
                    SectionReader::Unknown(id) => Err(ValidationError::UnknownSection(*id)),
                }
            },
            Chunk::Done => Ok(()),
        }
    }

    #[verifier::rlimit(100)]
    #[verifier::spinoff_prover]
    fn validate_type_section<'a>(
        &mut self,
        reader: &crate::readers::type_section::TypeSectionReader<'a>,
    ) -> (r: Result<(), ValidationError>)
        requires
            old(self).ctx_wf(),
            reader.wf(),
        ensures
            final(self).ctx_wf(),
            final(self).spec_ctx_unchanged_but(old(self), true, false, false, false, false),
            match spec_validate_type_section(
                reader.body(),
                reader.pos(),
                reader.spec_count() as nat,
                old(self).spec_function_types_model(),
            ) {
                Ok(model) => r is Ok && final(self).spec_function_types_model() == model,
                Err((model, e)) => r == Err::<(), ValidationError>(e) && final(self).spec_function_types_model() == model,
            },
    {
        let mut rd = *reader;
        proof {
            assert(rd == *reader);
        }
        let count = rd.get_count();
        let ghost s = rd.body();
        let ghost p0 = rd.pos();
        let ghost model0 = old(self).spec_function_types_model();
        let mut i: u32 = 0;
        while i < count
            invariant
                old(self).ctx_wf(),
                s == reader.body(),
                p0 == reader.pos(),
                count == reader.spec_count(),
                rd.wf(),
                rd.body() == s,
                rd.spec_count() == count,
                i <= count,
                model0 == old(self).spec_function_types_model(),
                self.ctx_wf(),
                self.spec_ctx_unchanged_but(old(self), true, false, false, false, false),
                spec_validate_type_section(s, p0, count as nat, model0)
                    == spec_validate_type_section(
                    s,
                    rd.pos(),
                    (count - i) as nat,
                    self.spec_function_types_model(),
                ),
            decreases count - i,
        {
            let function_type = match rd.read() {
                Ok(t) => t,
                Err(e) => {
                    return Err(ValidationError::TypeReader(e));
                },
            };
            if self.context.function_types.len() == u32::MAX as usize {
                return Err(
                    ValidationError::FunctionValidation(TypeIndexValidationError::InvalidTypeIndex),
                );
            }
            let ghost prev = self.spec_function_types_model();
            self.context.function_types.push(function_type);
            i = i + 1;
            proof {
                assert(self.spec_function_types_model() =~= prev.push(
                    (function_type.params@, function_type.results@),
                ));
            }
        }
        Ok(())
    }

    #[verifier::rlimit(100)]
    #[verifier::spinoff_prover]
    fn validate_import_section<'a>(
        &mut self,
        reader: &crate::readers::import_section::ImportSectionReader<'a>,
    ) -> (r: Result<(), ValidationError>)
        requires
            old(self).ctx_wf(),
            reader.wf(),
        ensures
            final(self).ctx_wf(),
            final(self).spec_ctx_unchanged_but(old(self), false, true, true, true, true),
            match spec_validate_import_section(
                reader.body(),
                reader.pos(),
                reader.spec_count() as nat,
                old(self).spec_function_types().len(),
                old(self).spec_import_state(),
            ) {
                Ok(st) => r is Ok && final(self).spec_import_state() == st,
                Err((st, e)) => r == Err::<(), ValidationError>(e) && final(self).spec_import_state() == st,
            },
    {
        let mut rd = *reader;
        proof {
            assert(rd == *reader);
        }
        let count = rd.get_count();
        let ghost s = rd.body();
        let ghost p0 = rd.pos();
        let ghost st0 = old(self).spec_import_state();
        let n_types = self.context.function_types.len();
        let max_type_index = if n_types == 0 {
            None
        } else {
            Some(TypeIndex((n_types - 1) as u32))
        };
        proof {
            assert(max_type_index == spec_max_type_index(old(self).spec_function_types().len()));
        }
        let mut i: u32 = 0;
        while i < count
            invariant
                old(self).ctx_wf(),
                max_type_index == spec_max_type_index(old(self).spec_function_types().len()),
                s == reader.body(),
                p0 == reader.pos(),
                count == reader.spec_count(),
                rd.wf(),
                rd.body() == s,
                rd.spec_count() == count,
                i <= count,
                st0 == old(self).spec_import_state(),
                self.ctx_wf(),
                self.spec_ctx_unchanged_but(old(self), false, true, true, true, true),
                spec_validate_import_section(
                    s,
                    p0,
                    count as nat,
                    old(self).spec_function_types().len(),
                    st0,
                ) == spec_validate_import_section(
                    s,
                    rd.pos(),
                    (count - i) as nat,
                    old(self).spec_function_types().len(),
                    self.spec_import_state(),
                ),
            decreases count - i,
        {
            let import = match rd.read() {
                Ok(imp) => imp,
                Err(e) => {
                    return Err(ValidationError::ImportReader(e));
                },
            };
            let import_desc = import.import_descriptor;
            match validate_import_desc(&import_desc, max_type_index) {
                Ok(()) => {},
                Err(e) => {
                    return Err(ValidationError::ImportValidation(e));
                },
            }
            if self.context.function_type_indices.len() == u32::MAX as usize
                || self.context.globals.len() == u32::MAX as usize {
                return Err(
                    ValidationError::ImportValidation(ImportValidationError::InvalidFuncTypeIndex),
                );
            }
            match import_desc {
                ImportDescriptor::Func { type_index } => {
                    self.context.function_type_indices.push(type_index);
                    self.context.num_imported_functions = self.context.num_imported_functions + 1;
                },
                ImportDescriptor::Table(_) => {
                    if self.context.max_table_index.is_some() {
                        return Err(
                            ValidationError::ImportValidation(
                                ImportValidationError::InvalidTableLimits,
                            ),
                        );
                    }
                    self.context.max_table_index = Some(TableIndex(0));
                },
                ImportDescriptor::Memory(_) => {
                    if self.context.max_memory_index.is_some() {
                        return Err(
                            ValidationError::ImportValidation(
                                ImportValidationError::InvalidMemoryLimits,
                            ),
                        );
                    }
                    self.context.max_memory_index = Some(MemoryIndex(0));
                },
                ImportDescriptor::Global(global_type) => {
                    self.context.globals.push(global_type);
                    self.context.imported_globals.push(global_type);
                },
            }
            i = i + 1;
        }
        Ok(())
    }

    #[verifier::rlimit(100)]
    #[verifier::spinoff_prover]
    fn validate_function_section<'a>(
        &mut self,
        reader: &crate::readers::function_section::FunctionSectionReader<'a>,
    ) -> (r: Result<(), ValidationError>)
        requires
            old(self).ctx_wf(),
            reader.wf(),
        ensures
            final(self).ctx_wf(),
            final(self).spec_ctx_unchanged_but(old(self), false, true, false, false, false),
            final(self).spec_num_imported_functions() == old(self).spec_num_imported_functions(),
            match spec_validate_function_section(
                reader.body(),
                reader.pos(),
                reader.spec_count() as nat,
                old(self).spec_function_types().len(),
                old(self).spec_function_type_indices(),
                old(self).spec_num_defined_functions(),
            ) {
                Ok((ftis, nd)) => r is Ok && final(self).spec_function_type_indices() == ftis
                    && final(self).spec_num_defined_functions() == nd,
                Err(((ftis, nd), e)) => r == Err::<(), ValidationError>(e) && final(self).spec_function_type_indices() == ftis && final(self).spec_num_defined_functions()
                    == nd,
            },
    {
        let mut rd = *reader;
        proof {
            assert(rd == *reader);
        }
        let count = rd.get_count();
        let ghost s = rd.body();
        let ghost p0 = rd.pos();
        let n_types = self.context.function_types.len();
        let max_type_index = if n_types == 0 {
            None
        } else {
            Some(TypeIndex((n_types - 1) as u32))
        };
        proof {
            assert(max_type_index == spec_max_type_index(old(self).spec_function_types().len()));
        }
        let mut i: u32 = 0;
        while i < count
            invariant
                old(self).ctx_wf(),
                max_type_index == spec_max_type_index(old(self).spec_function_types().len()),
                s == reader.body(),
                p0 == reader.pos(),
                count == reader.spec_count(),
                rd.wf(),
                rd.body() == s,
                rd.spec_count() == count,
                i <= count,
                self.ctx_wf(),
                self.spec_ctx_unchanged_but(old(self), false, true, false, false, false),
                self.spec_num_imported_functions() == old(self).spec_num_imported_functions(),
                spec_validate_function_section(
                    s,
                    p0,
                    count as nat,
                    old(self).spec_function_types().len(),
                    old(self).spec_function_type_indices(),
                    old(self).spec_num_defined_functions(),
                ) == spec_validate_function_section(
                    s,
                    rd.pos(),
                    (count - i) as nat,
                    old(self).spec_function_types().len(),
                    self.spec_function_type_indices(),
                    self.spec_num_defined_functions(),
                ),
            decreases count - i,
        {
            let type_index = match rd.read() {
                Ok(t) => t,
                Err(e) => {
                    return Err(ValidationError::FunctionReader(e));
                },
            };
            match validate_type_index(&type_index, max_type_index) {
                Ok(()) => {},
                Err(e) => {
                    return Err(ValidationError::FunctionValidation(e));
                },
            }
            if self.context.function_type_indices.len() == u32::MAX as usize {
                return Err(
                    ValidationError::FunctionValidation(TypeIndexValidationError::InvalidTypeIndex),
                );
            }
            self.context.function_type_indices.push(type_index);
            self.context.num_defined_functions = self.context.num_defined_functions + 1;
            i = i + 1;
        }
        Ok(())
    }

    #[verifier::rlimit(100)]
    #[verifier::spinoff_prover]
    fn validate_table_section<'a>(
        &mut self,
        reader: &crate::readers::table_section::TableSectionReader<'a>,
    ) -> (r: Result<(), ValidationError>)
        requires
            old(self).ctx_wf(),
            reader.wf(),
        ensures
            final(self).ctx_wf(),
            final(self).spec_ctx_unchanged_but(old(self), false, false, false, true, false),
            match spec_validate_table_section(
                reader.body(),
                reader.pos(),
                reader.spec_count() as nat,
                old(self).spec_num_tables(),
            ) {
                Ok(nt) => r is Ok && final(self).spec_num_tables() == nt,
                Err((nt, e)) => r == Err::<(), ValidationError>(e) && final(self).spec_num_tables()
                    == nt,
            },
    {
        let mut rd = *reader;
        proof {
            assert(rd == *reader);
        }
        let count = rd.get_count();
        let ghost s = rd.body();
        let ghost p0 = rd.pos();
        let mut i: u32 = 0;
        while i < count
            invariant
                old(self).ctx_wf(),
                s == reader.body(),
                p0 == reader.pos(),
                count == reader.spec_count(),
                rd.wf(),
                rd.body() == s,
                rd.spec_count() == count,
                i <= count,
                self.ctx_wf(),
                self.spec_ctx_unchanged_but(old(self), false, false, false, true, false),
                spec_validate_table_section(s, p0, count as nat, old(self).spec_num_tables())
                    == spec_validate_table_section(
                    s,
                    rd.pos(),
                    (count - i) as nat,
                    self.spec_num_tables(),
                ),
            decreases count - i,
        {
            let table = match rd.read() {
                Ok(t) => t,
                Err(e) => {
                    return Err(ValidationError::TableReader(e));
                },
            };
            if !limits_in_range(&table.limits, u32::MAX) {
                return Err(
                    ValidationError::ImportValidation(ImportValidationError::InvalidTableLimits),
                );
            }
            if self.context.max_table_index.is_some() {
                return Err(
                    ValidationError::ImportValidation(ImportValidationError::InvalidTableLimits),
                );
            }
            self.context.max_table_index = Some(TableIndex(0));
            i = i + 1;
        }
        Ok(())
    }

    #[verifier::rlimit(100)]
    #[verifier::spinoff_prover]
    fn validate_memory_section<'a>(
        &mut self,
        reader: &crate::readers::memory_section::MemorySectionReader<'a>,
    ) -> (r: Result<(), ValidationError>)
        requires
            old(self).ctx_wf(),
            reader.wf(),
        ensures
            final(self).ctx_wf(),
            final(self).spec_ctx_unchanged_but(old(self), false, false, false, false, true),
            match spec_validate_memory_section(
                reader.body(),
                reader.pos(),
                reader.spec_count() as nat,
                old(self).spec_num_memories(),
            ) {
                Ok(nm) => r is Ok && final(self).spec_num_memories() == nm,
                Err((nm, e)) => r == Err::<(), ValidationError>(e) && final(self).spec_num_memories() == nm,
            },
    {
        let mut rd = *reader;
        proof {
            assert(rd == *reader);
        }
        let count = rd.get_count();
        let ghost s = rd.body();
        let ghost p0 = rd.pos();
        let mut i: u32 = 0;
        while i < count
            invariant
                old(self).ctx_wf(),
                s == reader.body(),
                p0 == reader.pos(),
                count == reader.spec_count(),
                rd.wf(),
                rd.body() == s,
                rd.spec_count() == count,
                i <= count,
                self.ctx_wf(),
                self.spec_ctx_unchanged_but(old(self), false, false, false, false, true),
                spec_validate_memory_section(s, p0, count as nat, old(self).spec_num_memories())
                    == spec_validate_memory_section(
                    s,
                    rd.pos(),
                    (count - i) as nat,
                    self.spec_num_memories(),
                ),
            decreases count - i,
        {
            let memory_type = match rd.read() {
                Ok(m) => m,
                Err(e) => {
                    return Err(ValidationError::MemoryReader(e));
                },
            };
            match validate_memory_type(&memory_type) {
                Ok(()) => {},
                Err(e) => {
                    return Err(ValidationError::MemoryValidation(e));
                },
            }
            if self.context.max_memory_index.is_some() {
                return Err(
                    ValidationError::MemoryValidation(
                        MemoryLimitsValidationError::InvalidMemoryLimits,
                    ),
                );
            }
            self.context.max_memory_index = Some(MemoryIndex(0));
            i = i + 1;
        }
        Ok(())
    }

    #[verifier::rlimit(100)]
    #[verifier::spinoff_prover]
    fn validate_global_section<'a>(
        &mut self,
        reader: &crate::readers::global_section::GlobalSectionReader<'a>,
    ) -> (r: Result<(), ValidationError>)
        requires
            old(self).ctx_wf(),
            reader.wf(),
        ensures
            final(self).ctx_wf(),
            final(self).spec_ctx_unchanged_but(old(self), false, false, true, false, false),
            final(self).spec_imported_globals() == old(self).spec_imported_globals(),
            match spec_validate_global_section(
                reader.body(),
                reader.pos(),
                reader.spec_count() as nat,
                old(self).spec_imported_globals(),
                old(self).spec_globals(),
            ) {
                Ok(gs) => r is Ok && final(self).spec_globals() == gs,
                Err((gs, e)) => r == Err::<(), ValidationError>(e) && final(self).spec_globals()
                    == gs,
            },
    {
        let mut rd = *reader;
        proof {
            assert(rd == *reader);
        }
        let count = rd.get_count();
        let ghost s = rd.body();
        let ghost p0 = rd.pos();
        let mut i: u32 = 0;
        while i < count
            invariant
                old(self).ctx_wf(),
                s == reader.body(),
                p0 == reader.pos(),
                count == reader.spec_count(),
                rd.wf(),
                rd.body() == s,
                rd.spec_count() == count,
                i <= count,
                self.ctx_wf(),
                self.spec_ctx_unchanged_but(old(self), false, false, true, false, false),
                self.spec_imported_globals() == old(self).spec_imported_globals(),
                spec_validate_global_section(
                    s,
                    p0,
                    count as nat,
                    old(self).spec_imported_globals(),
                    old(self).spec_globals(),
                ) == spec_validate_global_section(
                    s,
                    rd.pos(),
                    (count - i) as nat,
                    old(self).spec_imported_globals(),
                    self.spec_globals(),
                ),
            decreases count - i,
        {
            let mut global = match rd.read() {
                Ok(g) => g,
                Err(e) => {
                    return Err(ValidationError::GlobalReader(e));
                },
            };
            let global_type = global.global_type;
            match validate_global_type(&mut global, &self.context.imported_globals) {
                Ok(()) => {},
                Err(GlobalValidationError::CodeValidation(e)) => {
                    return Err(
                        ValidationError::GlobalValidation(GlobalValidationError::CodeValidation(e)),
                    );
                },
            }
            if self.context.globals.len() == u32::MAX as usize {
                return Err(
                    ValidationError::GlobalValidation(
                        GlobalValidationError::CodeValidation(
                            CodeValidationError::InvalidGlobalIndex(GlobalIndex(u32::MAX)),
                        ),
                    ),
                );
            }
            self.context.globals.push(global_type);
            i = i + 1;
        }
        Ok(())
    }

    #[verifier::rlimit(100)]
    #[verifier::spinoff_prover]
    fn validate_export_section<'a>(
        &mut self,
        reader: &crate::readers::export_section::ExportSectionReader<'a>,
    ) -> (r: Result<(), ValidationError>)
        requires
            old(self).ctx_wf(),
            reader.wf(),
        ensures
            final(self).ctx_wf(),
            final(self).spec_ctx_unchanged_but(old(self), false, false, false, false, false),
            r == spec_validate_export_section(
                reader.body(),
                reader.pos(),
                reader.spec_count() as nat,
                Seq::empty(),
                spec_max_func_index(old(self).spec_function_type_indices().len()),
                spec_max_table_index(old(self).spec_num_tables()),
                spec_max_memory_index(old(self).spec_num_memories()),
                spec_max_global_index(old(self).spec_globals().len()),
            ),
    {
        let mut rd = *reader;
        proof {
            assert(rd == *reader);
        }
        let count = rd.get_count();
        let ghost s = rd.body();
        let ghost p0 = rd.pos();
        let n_funcs = self.context.function_type_indices.len();
        let max_func_index = if n_funcs == 0 {
            None
        } else {
            Some(FuncIndex((n_funcs - 1) as u32))
        };
        let max_table_index = self.context.max_table_index;
        let max_memory_index = self.context.max_memory_index;
        let n_globals = self.context.globals.len();
        let max_global_index = if n_globals == 0 {
            None
        } else {
            Some(GlobalIndex((n_globals - 1) as u32))
        };
        proof {
            assert(max_func_index == spec_max_func_index(
                old(self).spec_function_type_indices().len(),
            ));
            assert(max_table_index == spec_max_table_index(old(self).spec_num_tables()));
            assert(max_memory_index == spec_max_memory_index(old(self).spec_num_memories()));
            assert(max_global_index == spec_max_global_index(old(self).spec_globals().len()));
        }
        let mut export_validator = ExportValidator::new();
        let mut i: u32 = 0;
        while i < count
            invariant
                old(self).ctx_wf(),
                max_func_index == spec_max_func_index(
                    old(self).spec_function_type_indices().len(),
                ),
                max_table_index == spec_max_table_index(old(self).spec_num_tables()),
                max_memory_index == spec_max_memory_index(old(self).spec_num_memories()),
                max_global_index == spec_max_global_index(old(self).spec_globals().len()),
                s == reader.body(),
                p0 == reader.pos(),
                count == reader.spec_count(),
                rd.wf(),
                rd.body() == s,
                rd.spec_count() == count,
                i <= count,
                self == old(self),
                spec_validate_export_section(
                    s,
                    p0,
                    count as nat,
                    Seq::empty(),
                    max_func_index,
                    max_table_index,
                    max_memory_index,
                    max_global_index,
                ) == spec_validate_export_section(
                    s,
                    rd.pos(),
                    (count - i) as nat,
                    export_validator.names(),
                    max_func_index,
                    max_table_index,
                    max_memory_index,
                    max_global_index,
                ),
            decreases count - i,
        {
            let export = match rd.read() {
                Ok(e) => e,
                Err(e) => {
                    return Err(ValidationError::ExportReader(e));
                },
            };
            match export_validator.validate(
                &export,
                max_func_index,
                max_table_index,
                max_memory_index,
                max_global_index,
            ) {
                Ok(()) => {},
                Err(e) => {
                    return Err(ValidationError::ExportValidation(e));
                },
            }
            i = i + 1;
        }
        Ok(())
    }

    #[verifier::rlimit(100)]
    #[verifier::spinoff_prover]
    fn validate_element_section<'a>(
        &mut self,
        reader: &crate::readers::element_section::ElementSectionReader<'a>,
    ) -> (r: Result<(), ValidationError>)
        requires
            old(self).ctx_wf(),
            reader.wf(),
        ensures
            final(self).ctx_wf(),
            final(self).spec_ctx_unchanged_but(old(self), false, false, false, false, false),
            r == spec_validate_element_section(
                reader.body(),
                reader.pos(),
                reader.spec_count() as nat,
                old(self).spec_num_tables(),
                old(self).spec_function_type_indices().len(),
                old(self).spec_imported_globals(),
            ),
    {
        let mut rd = *reader;
        proof {
            assert(rd == *reader);
        }
        let count = rd.get_count();
        let ghost s = rd.body();
        let ghost p0 = rd.pos();
        let n_funcs = self.context.function_type_indices.len();
        let max_func_index = if n_funcs == 0 {
            None
        } else {
            Some(FuncIndex((n_funcs - 1) as u32))
        };
        proof {
            assert(max_func_index == spec_max_func_index(
                old(self).spec_function_type_indices().len(),
            ));
        }
        let mut i: u32 = 0;
        while i < count
            invariant
                old(self).ctx_wf(),
                max_func_index == spec_max_func_index(
                    old(self).spec_function_type_indices().len(),
                ),
                s == reader.body(),
                p0 == reader.pos(),
                count == reader.spec_count(),
                rd.wf(),
                rd.body() == s,
                rd.spec_count() == count,
                i <= count,
                self == old(self),
                spec_validate_element_section(
                    s,
                    p0,
                    count as nat,
                    old(self).spec_num_tables(),
                    old(self).spec_function_type_indices().len(),
                    old(self).spec_imported_globals(),
                ) == spec_validate_element_section(
                    s,
                    rd.pos(),
                    (count - i) as nat,
                    old(self).spec_num_tables(),
                    old(self).spec_function_type_indices().len(),
                    old(self).spec_imported_globals(),
                ),
            decreases count - i,
        {
            let mut element_segment = match rd.read() {
                Ok(seg) => seg,
                Err(e) => {
                    return Err(ValidationError::ElementReader(e));
                },
            };
            let ghost fis = element_segment.function_indices@;
            let ghost fs = fis.map_values(|f: FuncIndex| f.0);
            let ghost nf = old(self).spec_function_type_indices().len();
            match validate_element(
                &mut element_segment,
                self.context.max_table_index,
                max_func_index,
                &self.context.imported_globals,
            ) {
                Ok(()) => {
                    proof {
                        assert forall|k: int| 0 <= k < fs.len() implies fs[k] < nf by {
                            assert(crate::validators::element::spec_func_index_ok(
                                fis[k],
                                max_func_index,
                            ));
                        }
                        lemma_first_invalid_from(fs, 0, fs.len() as int, nf);
                    }
                },
                Err(ElementValidationError::InvalidTableIndex(t)) => {
                    return Err(
                        ValidationError::ElementValidation(
                            ElementValidationError::InvalidTableIndex(t),
                        ),
                    );
                },
                Err(ElementValidationError::CodeValidation(e)) => {
                    return Err(
                        ValidationError::ElementValidation(
                            ElementValidationError::CodeValidation(e),
                        ),
                    );
                },
                Err(ElementValidationError::InvalidFuncIndex(f)) => {
                    proof {
                        let k = choose|k: int|
                            0 <= k < fis.len() && ({
                                &&& fis[k] == f
                                &&& !crate::validators::element::spec_func_index_ok(
                                    fis[k],
                                    max_func_index,
                                )
                                &&& forall|i2: int|
                                    0 <= i2 < k ==> crate::validators::element::spec_func_index_ok(
                                        #[trigger] fis[i2],
                                        max_func_index,
                                    )
                            });
                        assert(fs[k] == f.0);
                        assert(fs[k] >= nf);
                        assert forall|i2: int| 0 <= i2 < k implies #[trigger] fs[i2] < nf by {
                            assert(crate::validators::element::spec_func_index_ok(
                                fis[i2],
                                max_func_index,
                            ));
                        }
                        lemma_first_invalid_from(fs, 0, k, nf);
                    }
                    return Err(
                        ValidationError::ElementValidation(
                            ElementValidationError::InvalidFuncIndex(f),
                        ),
                    );
                },
            }
            i = i + 1;
        }
        Ok(())
    }

    #[verifier::rlimit(100)]
    #[verifier::spinoff_prover]
    fn validate_data_section<'a>(
        &mut self,
        reader: &crate::readers::data_section::DataSectionReader<'a>,
    ) -> (r: Result<(), ValidationError>)
        requires
            old(self).ctx_wf(),
            reader.wf(),
        ensures
            final(self).ctx_wf(),
            final(self).spec_ctx_unchanged_but(old(self), false, false, false, false, false),
            r == spec_validate_data_section(
                reader.body(),
                reader.pos(),
                reader.spec_count() as nat,
                old(self).spec_num_memories(),
                old(self).spec_imported_globals(),
            ),
    {
        let mut rd = *reader;
        proof {
            assert(rd == *reader);
        }
        let count = rd.get_count();
        let ghost s = rd.body();
        let ghost p0 = rd.pos();
        let mut i: u32 = 0;
        while i < count
            invariant
                old(self).ctx_wf(),
                s == reader.body(),
                p0 == reader.pos(),
                count == reader.spec_count(),
                rd.wf(),
                rd.body() == s,
                rd.spec_count() == count,
                i <= count,
                self == old(self),
                spec_validate_data_section(
                    s,
                    p0,
                    count as nat,
                    old(self).spec_num_memories(),
                    old(self).spec_imported_globals(),
                ) == spec_validate_data_section(
                    s,
                    rd.pos(),
                    (count - i) as nat,
                    old(self).spec_num_memories(),
                    old(self).spec_imported_globals(),
                ),
            decreases count - i,
        {
            let mut data_segment = match rd.read() {
                Ok(seg) => seg,
                Err(e) => {
                    return Err(ValidationError::DataReader(e));
                },
            };
            match validate_data(
                &mut data_segment,
                self.context.max_memory_index,
                &self.context.imported_globals,
            ) {
                Ok(()) => {},
                Err(DataValidationError::InvalidMemoryIndex(m)) => {
                    return Err(
                        ValidationError::DataValidation(DataValidationError::InvalidMemoryIndex(m)),
                    );
                },
                Err(DataValidationError::CodeValidation(e)) => {
                    return Err(
                        ValidationError::DataValidation(DataValidationError::CodeValidation(e)),
                    );
                },
            }
            i = i + 1;
        }
        Ok(())
    }

    #[verifier::rlimit(100)]
    #[verifier::spinoff_prover]
    fn validate_code_section<'a>(
        &mut self,
        reader: &crate::readers::code_section::CodeSectionReader<'a>,
    ) -> (r: Result<(), ValidationError>)
        requires
            old(self).ctx_wf(),
            reader.wf(),
        ensures
            final(self).ctx_wf(),
            final(self).spec_ctx_unchanged_but(old(self), false, false, false, false, false),
            if reader.spec_count() != old(self).spec_num_defined_functions() {
                r == Err::<(), ValidationError>(
                    ValidationError::CodeValidation(
                        CodeValidationError::InvalidFunctionIndex(
                            FuncIndex(
                                (old(self).spec_num_imported_functions() + (
                                if reader.spec_count() < old(self).spec_num_defined_functions() {
                                    reader.spec_count() as nat
                                } else {
                                    old(self).spec_num_defined_functions()
                                })) as u32,
                            ),
                        ),
                    ),
                )
            } else {
                r == spec_validate_code_section(
                    reader.body(),
                    reader.pos(),
                    reader.spec_count() as nat,
                    0,
                    old(self).spec_globals(),
                    old(self).spec_function_types(),
                    old(self).spec_function_type_indices(),
                    old(self).spec_num_imported_functions(),
                    old(self).spec_has_table(),
                    old(self).spec_has_memory(),
                )
            },
    {
        let mut rd = *reader;
        proof {
            assert(rd == *reader);
        }
        let count = rd.get_count();
        let ghost s = rd.body();
        let ghost p0 = rd.pos();
        let num_imported = self.context.num_imported_functions;
        let num_defined = self.context.num_defined_functions;
        if count != num_defined {
            // The count of code entries must equal the count of declared
            // functions; the error names the first function index without a
            // body, or the index space's end when there are extra entries.
            let missing = if count < num_defined {
                count
            } else {
                num_defined
            };
            return Err(
                ValidationError::CodeValidation(
                    CodeValidationError::InvalidFunctionIndex(FuncIndex(num_imported + missing)),
                ),
            );
        }
        let mut k: u32 = 0;
        while k < count
            invariant
                old(self).ctx_wf(),
                num_imported == old(self).spec_num_imported_functions(),
                count == old(self).spec_num_defined_functions(),
                num_imported + count <= u32::MAX,
                s == reader.body(),
                p0 == reader.pos(),
                count == reader.spec_count(),
                rd.wf(),
                rd.body() == s,
                rd.spec_count() == count,
                k <= count,
                self == old(self),
                spec_validate_code_section(
                    s,
                    p0,
                    count as nat,
                    0,
                    old(self).spec_globals(),
                    old(self).spec_function_types(),
                    old(self).spec_function_type_indices(),
                    old(self).spec_num_imported_functions(),
                    old(self).spec_has_table(),
                    old(self).spec_has_memory(),
                ) == spec_validate_code_section(
                    s,
                    rd.pos(),
                    (count - k) as nat,
                    k as nat,
                    old(self).spec_globals(),
                    old(self).spec_function_types(),
                    old(self).spec_function_type_indices(),
                    old(self).spec_num_imported_functions(),
                    old(self).spec_has_table(),
                    old(self).spec_has_memory(),
                ),
            decreases count - k,
        {
            let code = match rd.read() {
                Ok(c) => c,
                Err(e) => {
                    return Err(ValidationError::CodeReader(e));
                },
            };
            let mut code_validator = CodeValidator::new(code);
            match code_validator.validate(
                &self.context.globals,
                &self.context.function_types,
                &self.context.function_type_indices,
                FuncIndex(num_imported + k),
                self.context.max_table_index,
                self.context.max_memory_index,
            ) {
                Ok(()) => {},
                Err(e) => {
                    return Err(ValidationError::CodeValidation(e));
                },
            }
            k = k + 1;
        }
        Ok(())
    }

    /// The import-touched parts of the context as one fold state.
    pub open spec fn spec_import_state(&self) -> ImportState {
        ImportState {
            function_type_indices: self.spec_function_type_indices(),
            globals: self.spec_globals(),
            imported_globals: self.spec_imported_globals(),
            num_imported_functions: self.spec_num_imported_functions(),
            num_tables: self.spec_num_tables(),
            num_memories: self.spec_num_memories(),
        }
    }
}

/// Scanning for the first out-of-range function index from `j` on, when all
/// indices before `k` are in range, lands exactly on `k`.
proof fn lemma_first_invalid_from(fs: Seq<u32>, j: int, k: int, num_funcs: nat)
    requires
        0 <= j <= k <= fs.len(),
        forall|i: int| j <= i < k ==> #[trigger] fs[i] < num_funcs,
        k < fs.len() ==> fs[k] >= num_funcs,
    ensures
        spec_first_invalid_func(fs, j, num_funcs) == (if k < fs.len() {
            Some(fs[k])
        } else {
            None::<u32>
        }),
    decreases k - j,
{
    if j < k {
        lemma_first_invalid_from(fs, j + 1, k, num_funcs);
    }
}

} // verus!
