//! Type declaration files for the modules of a statically typed language.
//!
//! Given a type-checked [`module::Module`], [`generator::TypeScriptGenerator`]
//! produces the document of its declaration file: one declaration for each
//! public type, constant and function, and the imports they rest on.

pub mod document;
pub mod error;
pub mod text;
pub mod casing;
pub mod joining;
pub mod names;
pub mod types;
pub mod usage;
pub mod lists;
pub mod printer;
pub mod imports;
pub mod module;
pub mod generator;
pub mod render;
pub mod guarantees;
