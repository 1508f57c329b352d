pub mod code;
pub mod data;
pub mod element;
pub mod export;
pub mod global;
pub mod import;
pub mod memory;
pub mod module;
pub mod preamble;
pub mod start;
pub mod type_index;
