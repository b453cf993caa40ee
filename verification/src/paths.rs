//! Parts of file system paths.
//!
//! What separates the components of a path, and which paths are absolute, is a matter of the
//! platform. So each function named here has the platform's main separator as a parameter, `/` or
//! `\`, and each result is that of one family of platforms or the other.

use crate::config::{Opts, OutputPaths};
use crate::text::{text_of, texts};
use vstd::prelude::*;
use vstd::string::*;

verus! {

/// What `std::path::Path::parent` gives for `path` where `separator` is the main separator.
pub uninterp spec fn parent_text(separator: char, path: Seq<char>) -> Option<Seq<char>>;

/// What `std::path::Path::file_name` gives for `path` where `separator` is the main separator.
pub uninterp spec fn file_name_text(separator: char, path: Seq<char>) -> Option<Seq<char>>;

/// What `pathdiff::diff_paths` gives for `path` and `base` where `separator` is the main separator.
pub uninterp spec fn diff_paths_text(
    separator: char,
    path: Seq<char>,
    base: Seq<char>,
) -> Option<Seq<char>>;

/// `result` is the parent of `path` on some platform. An empty path has none.
pub open spec fn is_parent(path: Seq<char>, result: Option<Seq<char>>) -> bool {
    &&& result == parent_text('/', path) || result == parent_text('\\', path)
    &&& path.len() == 0 ==> result is None
}

/// `result` is the file name of `path` on some platform. An empty path has none.
pub open spec fn is_file_name(path: Seq<char>, result: Option<Seq<char>>) -> bool {
    &&& result == file_name_text('/', path) || result == file_name_text('\\', path)
    &&& path.len() == 0 ==> result is None
}

/// `result` is the way from `base` to `path` on some platform.
pub open spec fn is_diff(path: Seq<char>, base: Seq<char>, result: Option<Seq<char>>) -> bool {
    result == diff_paths_text('/', path, base) || result == diff_paths_text('\\', path, base)
}

/// Calls `std::path::Path::parent`, which gives the path without its final component, and nothing
/// for a path that ends in a root or a prefix or is empty. The parent of a path that is text is
/// text too. Which prefixes and roots there are is left to the platform.
#[verifier::external_body]
fn parent(path: &str) -> (result: Option<String>)
    ensures
        text_of(result) == parent_text('/', path@) || text_of(result) == parent_text('\\', path@),
        path@.len() == 0 ==> result is None,
{
    std::path::Path::new(path).parent().and_then(|p| p.to_str()).map(|s| s.to_string())
}

/// Calls `std::path::Path::file_name`, which gives the final component of the path, and nothing
/// where that is `..` or the path has no component of a normal name. A component of a path that is
/// text is text too. What separates the components is left to the platform.
#[verifier::external_body]
fn file_name(path: &str) -> (result: Option<String>)
    ensures
        text_of(result) == file_name_text('/', path@) || text_of(result) == file_name_text(
            '\\',
            path@,
        ),
        path@.len() == 0 ==> result is None,
{
    std::path::Path::new(path).file_name().and_then(|n| n.to_str()).map(|s| s.to_string())
}

/// Calls `pathdiff::diff_paths`, which gives the relative path that leads from `base` to `path`,
/// `path` itself where it alone is absolute, and nothing where no such path can be told. It is made
/// of components of `path` and of `..`, so it is text. What separates the components, and which
/// paths are absolute, is left to the platform.
#[verifier::external_body]
fn diff_paths(path: &str, base: &str) -> (result: Option<String>)
    ensures
        text_of(result) == diff_paths_text('/', path@, base@) || text_of(result)
            == diff_paths_text('\\', path@, base@),
{
    pathdiff::diff_paths(path, base).and_then(|p| p.to_str().map(|s| s.to_string()))
}

/// `dirs` are the directories of `paths`, one for each.
pub open spec fn are_parents(paths: Seq<Seq<char>>, dirs: Seq<Option<String>>) -> bool {
    &&& dirs.len() == paths.len()
    &&& forall|i: int| 0 <= i < paths.len() ==> #[trigger] is_parent(paths[i], text_of(dirs[i]))
}

/// `name` is the file name of `path` if it is needed, and nothing if not.
pub open spec fn is_needed_name(needed: bool, path: Seq<char>, name: Option<String>) -> bool {
    if needed {
        is_file_name(path, text_of(name))
    } else {
        name is None
    }
}

impl Opts {
    /// The file name of the native Rust module is written into the Rust code.
    pub open spec fn needs_rust_io_file(self) -> bool {
        !self.inline_rust
    }

    /// The file name of the web Rust module is written into the Rust code.
    pub open spec fn needs_rust_wasm_file(self) -> bool {
        !self.inline_rust && self.wasm_enabled
    }

    /// The file names of the native and the web Dart code are written into the declarations.
    pub open spec fn needs_dart_files(self) -> bool {
        self.dart_decl_output_path is Some && self.wasm_enabled
    }
}

impl OutputPaths {
    /// Each part is that of the path in `config` which it is named after.
    pub open spec fn are_of(self, config: Opts) -> bool {
        &&& is_parent(config.rust_output_path@, text_of(self.rust_output_dir))
        &&& is_parent(config.dart_output_path@, text_of(self.dart_output_dir))
        &&& are_parents(texts(config.c_output_path@), self.c_output_dirs@)
        &&& is_needed_name(
            config.needs_rust_io_file(),
            config.rust_io_output_path@,
            self.rust_io_file,
        )
        &&& is_needed_name(
            config.needs_rust_wasm_file(),
            config.rust_wasm_output_path@,
            self.rust_wasm_file,
        )
        &&& is_needed_name(
            config.needs_dart_files(),
            config.dart_io_output_path@,
            self.dart_io_file,
        )
        &&& is_needed_name(
            config.needs_dart_files(),
            config.dart_wasm_output_path@,
            self.dart_wasm_file,
        )
        &&& match (config.dart_decl_output_path, self.dart_output_dir) {
            (Some(path), Some(dir)) => is_diff(path@, dir@, text_of(self.dart_decl_import)),
            _ => self.dart_decl_import is None,
        }
    }

    /// The directory of the Rust or of the Dart file is missing.
    pub open spec fn lacks_output_dir(self) -> bool {
        self.rust_output_dir is None || self.dart_output_dir is None
    }

    /// The file name of a Rust module that `config` calls for is missing.
    pub open spec fn lacks_module_file(self, config: Opts) -> bool {
        ||| config.needs_rust_io_file() && self.rust_io_file is None
        ||| config.needs_rust_wasm_file() && self.rust_wasm_file is None
    }

    /// The directory of the C header `at` is missing.
    pub open spec fn lacks_header_dir(self, at: int) -> bool {
        self.c_output_dirs@[at] is None
    }

    /// A part of what the Dart declarations import, or are imported by, is missing.
    pub open spec fn lacks_import(self, config: Opts) -> bool {
        ||| config.dart_decl_output_path is Some && self.dart_decl_import is None
        ||| config.needs_dart_files() && (self.dart_io_file is None || self.dart_wasm_file is None)
    }

    /// No part that `config` calls for is missing.
    pub open spec fn lack_nothing(self, config: Opts) -> bool {
        &&& !self.lacks_output_dir()
        &&& !self.lacks_module_file(config)
        &&& forall|i: int|
            0 <= i < self.c_output_dirs@.len() ==> !(#[trigger] self.lacks_header_dir(i))
        &&& !self.lacks_import(config)
    }

    /// Tells whether the Rust and the Dart file have their directories.
    pub fn has_output_dirs(&self) -> (result: bool)
        ensures
            result == !self.lacks_output_dir(),
    {
        self.rust_output_dir.is_some() && self.dart_output_dir.is_some()
    }

    /// Tells whether the Rust modules have the file names that `config` calls for.
    pub fn has_module_files(&self, config: &Opts) -> (result: bool)
        ensures
            result == !self.lacks_module_file(*config),
    {
        config.inline_rust || self.rust_io_file.is_some() && (!config.wasm_enabled
            || self.rust_wasm_file.is_some())
    }

    /// Tells whether the Dart declarations have what they import and are imported by.
    pub fn has_imports(&self, config: &Opts) -> (result: bool)
        ensures
            result == !self.lacks_import(*config),
    {
        config.dart_decl_output_path.is_none() || self.dart_decl_import.is_some() && (
        !config.wasm_enabled || self.dart_io_file.is_some() && self.dart_wasm_file.is_some())
    }

    /// Tells whether no part that `config` calls for is missing.
    pub fn are_whole(&self, config: &Opts) -> (result: bool)
        ensures
            result == self.lack_nothing(*config),
    {
        if !self.has_output_dirs() || !self.has_module_files(config) || !self.has_imports(config) {
            return false;
        }
        let mut at: usize = 0;
        while at < self.c_output_dirs.len()
            invariant
                at <= self.c_output_dirs@.len(),
                forall|i: int| 0 <= i < at ==> !(#[trigger] self.lacks_header_dir(i)),
            decreases self.c_output_dirs@.len() - at,
        {
            if self.c_output_dirs[at].is_none() {
                assert(self.lacks_header_dir(at as int));
                return false;
            }
            at = at + 1;
        }
        true
    }
}

fn needed_name(needed: bool, path: &str) -> (name: Option<String>)
    ensures
        is_needed_name(needed, path@, name),
{
    if needed {
        file_name(path)
    } else {
        None
    }
}

fn parents(paths: &Vec<String>) -> (dirs: Vec<Option<String>>)
    ensures
        are_parents(texts(paths@), dirs@),
{
    let mut dirs: Vec<Option<String>> = Vec::new();
    let mut at: usize = 0;
    while at < paths.len()
        invariant
            at <= paths@.len(),
            dirs@.len() == at,
            forall|i: int| 0 <= i < at ==> #[trigger] is_parent(paths@[i]@, text_of(dirs@[i])),
        decreases paths@.len() - at,
    {
        dirs.push(parent(paths[at].as_str()));
        at = at + 1;
    }
    dirs
}

/// Takes the paths in `config` apart.
pub fn output_paths(config: &Opts) -> (paths: OutputPaths)
    ensures
        paths.are_of(*config),
{
    let dart_output_dir = parent(config.dart_output_path.as_str());
    let dart_decl_import = match (&config.dart_decl_output_path, &dart_output_dir) {
        (Some(path), Some(dir)) => diff_paths(path.as_str(), dir.as_str()),
        _ => None,
    };
    let separate = !config.inline_rust;
    let split = config.dart_decl_output_path.is_some() && config.wasm_enabled;
    OutputPaths {
        rust_output_dir: parent(config.rust_output_path.as_str()),
        dart_output_dir,
        c_output_dirs: parents(&config.c_output_path),
        rust_io_file: needed_name(separate, config.rust_io_output_path.as_str()),
        rust_wasm_file: needed_name(
            separate && config.wasm_enabled,
            config.rust_wasm_output_path.as_str(),
        ),
        dart_io_file: needed_name(split, config.dart_io_output_path.as_str()),
        dart_wasm_file: needed_name(split, config.dart_wasm_output_path.as_str()),
        dart_decl_import,
    }
}

} // verus!
