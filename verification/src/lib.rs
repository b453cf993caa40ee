//! The verified core of a bridge between Rust and Dart.

pub mod build_script;
pub mod call_laws;
pub mod calls;
pub mod codegen;
pub mod codegen_all;
pub mod config;
pub mod dart_output;
pub mod data;
pub mod error;
pub mod file_laws;
pub mod generation_laws;
pub mod handler;
pub mod paths;
pub mod rust_output;
pub mod script_laws;
pub mod steps;
pub mod text;
pub mod text_laws;
