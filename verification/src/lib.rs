pub mod awx;
pub mod builders;
pub mod config;
pub mod error;
pub mod json;
pub mod laws;
pub mod result;
pub mod secret;
pub mod shell;
pub mod string_map;
pub mod table;
pub mod text;
pub mod tool;
pub mod tools;
