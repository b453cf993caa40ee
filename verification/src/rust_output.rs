//! The generated Rust files.

use crate::config::{Opts, OutputPaths};
use crate::text::{or_empty, texts};
use vstd::prelude::*;
use vstd::string::*;

verus! {

/// Generated Rust code: what every target shares, and what each kind of target has of its own.
pub struct RustCode {
    pub common: String,
    pub io: String,
    pub wasm: String,
}

/// A file and what to write into it.
pub struct TextFile {
    pub path: String,
    pub text: String,
}

/// The contents of a [`TextFile`].
pub struct TextFileView {
    pub path: Seq<char>,
    pub text: Seq<char>,
}

impl View for TextFile {
    type V = TextFileView;

    open spec fn view(&self) -> TextFileView {
        TextFileView { path: self.path@, text: self.text@ }
    }
}

/// The contents of a list of files.
pub open spec fn text_files(files: Seq<TextFile>) -> Seq<TextFileView> {
    files.map_values(|file: TextFile| file@)
}

/// The declaration of the module `name`: with its code in place, or in the file `file`.
pub open spec fn platform_module(
    inline: bool,
    name: Seq<char>,
    body: Seq<char>,
    file: Seq<char>,
) -> Seq<char> {
    if inline {
        "mod "@ + name + " { use super::*;\n "@ + body + " }"@
    } else {
        "#[path = \""@ + file + "\"] mod "@ + name + ";"@
    }
}

/// The part of the Rust root file for web targets.
pub open spec fn web_section(config: Opts, paths: OutputPaths, code: RustCode) -> Seq<char> {
    if config.wasm_enabled {
        "\n/// cbindgen:ignore\n#[cfg(target_family = \"wasm\")]\n"@ + platform_module(
            config.inline_rust,
            "web"@,
            code.wasm@,
            paths.rust_wasm_file->0@,
        ) + "\n#[cfg(target_family = \"wasm\")]\npub use web::*;"@
    } else {
        ""@
    }
}

/// The text of the Rust root file.
pub open spec fn rust_root(config: Opts, paths: OutputPaths, code: RustCode) -> Seq<char> {
    code.common@ + "\n"@ + web_section(config, paths, code)
        + "\n\n#[cfg(not(target_family = \"wasm\"))]\n"@ + platform_module(
        config.inline_rust,
        "io"@,
        code.io@,
        paths.rust_io_file->0@,
    ) + "\n#[cfg(not(target_family = \"wasm\"))]\npub use io::*;\n"@
}

/// The file of a platform module that stands on its own.
pub open spec fn module_file(path: Seq<char>, body: Seq<char>) -> TextFileView {
    TextFileView { path, text: "use super::*;\n"@ + body }
}

/// The Rust files of a generation: the root, and the platform modules unless they stand in it.
pub open spec fn rust_files(config: Opts, paths: OutputPaths, code: RustCode) -> Seq<TextFileView> {
    let root = TextFileView {
        path: config.rust_output_path@,
        text: rust_root(config, paths, code),
    };
    let io = module_file(config.rust_io_output_path@, code.io@);
    let wasm = module_file(config.rust_wasm_output_path@, code.wasm@);
    if config.inline_rust {
        seq![root]
    } else if !config.wasm_enabled {
        seq![root, io]
    } else {
        seq![root, io, wasm]
    }
}

/// The Rust files that go through the formatter.
pub open spec fn formatted_rust_paths(config: Opts) -> Seq<Seq<char>> {
    if config.wasm_enabled && !config.inline_rust {
        seq![
            config.rust_output_path@,
            config.rust_io_output_path@,
            config.rust_wasm_output_path@,
        ]
    } else {
        seq![config.rust_output_path@]
    }
}

fn emit_platform_module(inline: bool, name: &str, body: &str, file: &str) -> (text: String)
    ensures
        text@ == platform_module(inline, name@, body@, file@),
{
    if inline {
        "mod ".to_string().concat(name).concat(" { use super::*;\n ").concat(body).concat(" }")
    } else {
        "#[path = \"".to_string().concat(file).concat("\"] mod ").concat(name).concat(";")
    }
}

fn emit_web_section(config: &Opts, paths: &OutputPaths, code: &RustCode) -> (text: String)
    requires
        !paths.lacks_module_file(*config),
    ensures
        text@ == web_section(*config, *paths, *code),
{
    if config.wasm_enabled {
        let module = emit_platform_module(
            config.inline_rust,
            "web",
            code.wasm.as_str(),
            or_empty(&paths.rust_wasm_file),
        );
        "\n/// cbindgen:ignore\n#[cfg(target_family = \"wasm\")]\n".to_string().concat(
            module.as_str(),
        ).concat("\n#[cfg(target_family = \"wasm\")]\npub use web::*;")
    } else {
        "".to_string()
    }
}

/// The Rust files to write for the generated `code`, in the order in which they are written.
pub fn write_rust_modules(config: &Opts, paths: &OutputPaths, code: &RustCode) -> (files: Vec<
    TextFile,
>)
    requires
        !paths.lacks_module_file(*config),
    ensures
        text_files(files@) == rust_files(*config, *paths, *code),
{
    let web = emit_web_section(config, paths, code);
    let io = emit_platform_module(
        config.inline_rust,
        "io",
        code.io.as_str(),
        or_empty(&paths.rust_io_file),
    );
    let root = code.common.clone().concat("\n").concat(web.as_str()).concat(
        "\n\n#[cfg(not(target_family = \"wasm\"))]\n",
    ).concat(io.as_str()).concat("\n#[cfg(not(target_family = \"wasm\"))]\npub use io::*;\n");
    let mut files: Vec<TextFile> = Vec::new();
    files.push(TextFile { path: config.rust_output_path.clone(), text: root });
    if !config.inline_rust {
        files.push(
            TextFile {
                path: config.rust_io_output_path.clone(),
                text: "use super::*;\n".to_string().concat(code.io.as_str()),
            },
        );
        if config.wasm_enabled {
            files.push(
                TextFile {
                    path: config.rust_wasm_output_path.clone(),
                    text: "use super::*;\n".to_string().concat(code.wasm.as_str()),
                },
            );
        }
    }
    assert(text_files(files@) =~= rust_files(*config, *paths, *code));
    files
}

/// The paths to hand to the Rust formatter.
pub fn rust_paths_to_format(config: &Opts) -> (paths: Vec<String>)
    ensures
        texts(paths@) == formatted_rust_paths(*config),
{
    let mut paths: Vec<String> = Vec::new();
    paths.push(config.rust_output_path.clone());
    if config.wasm_enabled && !config.inline_rust {
        paths.push(config.rust_io_output_path.clone());
        paths.push(config.rust_wasm_output_path.clone());
    }
    assert(texts(paths@) =~= formatted_rust_paths(*config));
    paths
}

/// Every Rust file that is written goes through the formatter, where the platform modules stand in
/// the root file or web targets are generated for.
pub proof fn written_rust_files_are_formatted(
    config: Opts,
    paths: OutputPaths,
    code: RustCode,
    i: int,
)
    requires
        config.inline_rust || config.wasm_enabled,
        0 <= i < rust_files(config, paths, code).len(),
    ensures
        formatted_rust_paths(config).contains(rust_files(config, paths, code)[i].path),
{
    assert(formatted_rust_paths(config)[i] == rust_files(config, paths, code)[i].path);
}

/// Only files that are written go through the Rust formatter.
pub proof fn formatted_rust_files_are_written(
    config: Opts,
    paths: OutputPaths,
    code: RustCode,
    i: int,
)
    requires
        0 <= i < formatted_rust_paths(config).len(),
    ensures
        exists|j: int|
            0 <= j < rust_files(config, paths, code).len() && formatted_rust_paths(config)[i]
                == #[trigger] rust_files(config, paths, code)[j].path,
{
    assert(formatted_rust_paths(config)[i] == rust_files(config, paths, code)[i].path);
}

} // verus!
