//! The settings of one code generation.

use vstd::prelude::*;

verus! {

/// What the generator is told of one crate, with every default filled in.
#[derive(Clone, Debug)]
pub struct Opts {
    /// Directory of the Rust crate whose functions are bridged.
    pub rust_crate_dir: String,
    /// Generated Rust file.
    pub rust_output_path: String,
    /// Generated Rust file for native targets, where it is separate.
    pub rust_io_output_path: String,
    /// Generated Rust file for web targets, where it is separate.
    pub rust_wasm_output_path: String,
    /// Generated Dart file.
    pub dart_output_path: String,
    /// Generated Dart file for native targets, where it is separate.
    pub dart_io_output_path: String,
    /// Generated Dart file for web targets, where it is separate.
    pub dart_wasm_output_path: String,
    /// Generated Dart file for declarations, where they are separate.
    pub dart_decl_output_path: Option<String>,
    /// Dart file that the `freezed` builder leaves.
    pub dart_freezed_path: String,
    /// Root of the Dart package, where one was given or found.
    pub dart_root: Option<String>,
    /// Root of the Dart package, or the directory assumed in its place.
    pub dart_root_or_default: String,
    /// Name of the Dart class that wraps the native symbols.
    pub dart_wire_class_name: String,
    /// Line length that the Dart formatter keeps to.
    pub dart_format_line_length: i32,
    /// Generated C headers.
    pub c_output_path: Vec<String>,
    /// Places to look for LLVM.
    pub llvm_path: Vec<String>,
    /// Extra options for the LLVM compiler.
    pub llvm_compiler_opts: String,
    /// Do not look at the Dart dependencies.
    pub skip_deps_check: bool,
    /// Do not declare the generated module in the crate root.
    pub skip_add_mod_to_lib: bool,
    /// Generate for web targets too.
    pub wasm_enabled: bool,
    /// Keep the generated Rust code in one file.
    pub inline_rust: bool,
    /// Run the Dart builders where the generated code needs them.
    pub build_runner: bool,
}

/// The parts of the paths in an [`Opts`] that the generator needs on their own.
///
/// There is no part where the path has none, nor where its [`Opts`] does not call for it.
#[derive(Debug)]
pub struct OutputPaths {
    /// Directory of `rust_output_path`.
    pub rust_output_dir: Option<String>,
    /// Directory of `dart_output_path`.
    pub dart_output_dir: Option<String>,
    /// Directory of each path in `c_output_path`.
    pub c_output_dirs: Vec<Option<String>>,
    /// File name of `rust_io_output_path`.
    pub rust_io_file: Option<String>,
    /// File name of `rust_wasm_output_path`.
    pub rust_wasm_file: Option<String>,
    /// File name of `dart_io_output_path`.
    pub dart_io_file: Option<String>,
    /// File name of `dart_wasm_output_path`.
    pub dart_wasm_file: Option<String>,
    /// `dart_decl_output_path` as seen from the directory of `dart_output_path`.
    pub dart_decl_import: Option<String>,
}

} // verus!
