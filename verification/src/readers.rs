pub mod binary;
pub mod branch_table;
pub mod code_section;
pub mod custom_section;
pub mod data_section;
pub mod element_section;
pub mod export_section;
pub mod function_section;
pub mod global_section;
pub mod import_section;
pub mod instruction;
pub mod memory_section;
pub mod preamble;
pub mod start_section;
pub mod table_section;
pub mod type_section;
