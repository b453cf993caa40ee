//! Laws of the files of a code generation: what is written, where to, and what is formatted.
//!
//! Each law speaks of what the functions return for what they are given.

use crate::codegen::{frb_codegen, CodegenRun};
use crate::config::{Opts, OutputPaths};
use crate::dart_output::{
    dart_files, dart_parts, dart_paths_to_format, files_with_decls, files_with_web,
    formatted_dart_paths, single_dart_parts, single_parts, write_dart_decls, write_dart_with_web,
    DartFile, DartPart,
};
use crate::paths::{diff_paths_text, file_name_text, is_parent, output_paths, parent_text};
use crate::rust_output::{
    formatted_rust_paths, rust_files, rust_paths_to_format, text_files, write_rust_modules,
    RustCode, TextFile,
};
use crate::steps::BindgenStubs;
use crate::text::{text_of, texts};
use vstd::prelude::*;

verus! {

/// The file names of the Rust modules are there where the modules have files of their own.
pub open spec fn modules_have_names(config: Opts, paths: OutputPaths) -> bool {
    config.inline_rust || {
        &&& paths.rust_io_file is Some
        &&& config.wasm_enabled ==> paths.rust_wasm_file is Some
    }
}

/// `files` are those that are written for `code`.
pub open spec fn are_written(
    config: Opts,
    paths: OutputPaths,
    code: RustCode,
    files: Vec<TextFile>,
) -> bool {
    &&& modules_have_names(config, paths)
    &&& call_ensures(write_rust_modules, (&config, &paths, &code), files)
}

proof fn rust_files_as_shown(
    config: Opts,
    paths: OutputPaths,
    code: RustCode,
    files: Vec<TextFile>,
)
    requires
        are_written(config, paths, code, files),
    ensures
        files@.len() == rust_files(config, paths, code).len(),
        forall|i: int|
            0 <= i < files@.len() ==> (#[trigger] files@[i]).path@ == rust_files(
                config,
                paths,
                code,
            )[i].path && files@[i].text@ == rust_files(config, paths, code)[i].text,
{
    let shown = text_files(files@);
    assert(shown == rust_files(config, paths, code));
    assert(shown.len() == files@.len());
    assert forall|i: int| 0 <= i < files@.len() implies (#[trigger] files@[i]).path@
        == shown[i].path && files@[i].text@ == shown[i].text by {
        assert(shown[i] == files@[i]@);
    }
}

/// The first Rust file is the root. Whatever else is in it, it starts with the whole of the common
/// code and a line feed.
pub proof fn rust_root_starts_with_common_code(
    config: Opts,
    paths: OutputPaths,
    code: RustCode,
    files: Vec<TextFile>,
)
    requires
        are_written(config, paths, code, files),
    ensures
        files@.len() > 0,
        files@[0].path@ == config.rust_output_path@,
        files@[0].text@.len() > code.common@.len(),
        files@[0].text@.take(code.common@.len() as int) == code.common@,
        files@[0].text@[code.common@.len() as int] == '\n',
{
    rust_root_is_put_together(config, paths, code, files);
    reveal_strlit("\n");
    let root = files@[0].text@;
    assert(root.take(code.common@.len() as int) =~= code.common@);
}

/// The root of the Rust code declares the native module, and the web module where web targets are
/// generated for, each for its targets only: with the code in place, or by the name of the file that
/// has it.
pub proof fn rust_root_is_put_together(
    config: Opts,
    paths: OutputPaths,
    code: RustCode,
    files: Vec<TextFile>,
)
    requires
        are_written(config, paths, code, files),
    ensures
        files@.len() > 0,
        files@[0].path@ == config.rust_output_path@,
        ({
            let native = if config.inline_rust {
                "mod "@ + "io"@ + " { use super::*;\n "@ + code.io@ + " }"@
            } else {
                "#[path = \""@ + paths.rust_io_file->0@ + "\"] mod "@ + "io"@ + ";"@
            };
            let web = if config.inline_rust {
                "mod "@ + "web"@ + " { use super::*;\n "@ + code.wasm@ + " }"@
            } else {
                "#[path = \""@ + paths.rust_wasm_file->0@ + "\"] mod "@ + "web"@ + ";"@
            };
            let web_targets = "\n/// cbindgen:ignore\n#[cfg(target_family = \"wasm\")]\n"@ + web
                + "\n#[cfg(target_family = \"wasm\")]\npub use web::*;"@;
            let native_targets = "\n\n#[cfg(not(target_family = \"wasm\"))]\n"@ + native
                + "\n#[cfg(not(target_family = \"wasm\"))]\npub use io::*;\n"@;
            &&& config.wasm_enabled ==> files@[0].text@ == code.common@ + "\n"@ + web_targets
                + native_targets
            &&& !config.wasm_enabled ==> files@[0].text@ == code.common@ + "\n"@ + native_targets
        }),
{
    reveal_strlit("");
    rust_files_as_shown(config, paths, code, files);
    let root = files@[0]@;
    let native = if config.inline_rust {
        "mod "@ + "io"@ + " { use super::*;\n "@ + code.io@ + " }"@
    } else {
        "#[path = \""@ + paths.rust_io_file->0@ + "\"] mod "@ + "io"@ + ";"@
    };
    let web = if config.inline_rust {
        "mod "@ + "web"@ + " { use super::*;\n "@ + code.wasm@ + " }"@
    } else {
        "#[path = \""@ + paths.rust_wasm_file->0@ + "\"] mod "@ + "web"@ + ";"@
    };
    let web_targets = "\n/// cbindgen:ignore\n#[cfg(target_family = \"wasm\")]\n"@ + web
        + "\n#[cfg(target_family = \"wasm\")]\npub use web::*;"@;
    let native_targets = "\n\n#[cfg(not(target_family = \"wasm\"))]\n"@ + native
        + "\n#[cfg(not(target_family = \"wasm\"))]\npub use io::*;\n"@;
    if config.wasm_enabled {
        assert(root.text =~= code.common@ + "\n"@ + web_targets + native_targets);
    } else {
        assert(root.text =~= code.common@ + "\n"@ + native_targets);
    }
}

/// Modules that are not in the root have files of their own, the native one first, and these have
/// nothing but an import and the code. There are no other files.
pub proof fn separate_modules_have_files(
    config: Opts,
    paths: OutputPaths,
    code: RustCode,
    files: Vec<TextFile>,
)
    requires
        are_written(config, paths, code, files),
    ensures
        config.inline_rust ==> files@.len() == 1,
        !config.inline_rust ==> {
            &&& files@.len() == if config.wasm_enabled {
                3int
            } else {
                2
            }
            &&& files@[1].path@ == config.rust_io_output_path@
            &&& files@[1].text@ == "use super::*;\n"@ + code.io@
            &&& config.wasm_enabled ==> files@[2].path@ == config.rust_wasm_output_path@
            &&& config.wasm_enabled ==> files@[2].text@ == "use super::*;\n"@ + code.wasm@
        },
{
    rust_files_as_shown(config, paths, code, files);
}

/// The length of all texts together.
pub open spec fn total_length(files: Seq<TextFile>) -> int
    decreases files.len(),
{
    if files.len() == 0 {
        0
    } else {
        total_length(files.drop_last()) + files.last().text@.len()
    }
}

/// Every piece of code is written exactly once: whatever is added to the common code, to the native
/// code, or to the web code where web targets are generated for, all files together grow by just
/// that. Web code that is not generated for leaves no trace.
pub proof fn code_is_written_once(
    config: Opts,
    paths: OutputPaths,
    one: RustCode,
    other: RustCode,
    files: Vec<TextFile>,
    other_files: Vec<TextFile>,
)
    requires
        are_written(config, paths, one, files),
        are_written(config, paths, other, other_files),
    ensures
        files@.len() == other_files@.len(),
        total_length(files@) - total_length(other_files@) == one.common@.len() - other.common@.len()
            + one.io@.len() - other.io@.len() + if config.wasm_enabled {
            one.wasm@.len() - other.wasm@.len()
        } else {
            0
        },
        !config.wasm_enabled && one.common@ == other.common@ && one.io@ == other.io@
            ==> forall|i: int|
            0 <= i < files@.len() ==> (#[trigger] files@[i]).text@ == other_files@[i].text@,
{
    separate_modules_have_files(config, paths, one, files);
    separate_modules_have_files(config, paths, other, other_files);
    rust_root_is_put_together(config, paths, one, files);
    rust_root_is_put_together(config, paths, other, other_files);
    reveal_with_fuel(total_length, 4);
}

/// The Rust formatter gets the root, and after it the files of the modules where these are separate
/// and web targets are generated for.
pub proof fn rust_formatter_gets(config: Opts, paths: Vec<String>)
    requires
        call_ensures(rust_paths_to_format, (&config,), paths),
    ensures
        paths@.len() > 0,
        paths@[0]@ == config.rust_output_path@,
        paths@.len() > 1 <==> config.wasm_enabled && !config.inline_rust,
        paths@.len() > 1 ==> {
            &&& paths@.len() == 3
            &&& paths@[1]@ == config.rust_io_output_path@
            &&& paths@[2]@ == config.rust_wasm_output_path@
        },
{
    let shown = texts(paths@);
    assert(shown == formatted_rust_paths(config));
    assert(shown.len() == paths@.len());
    assert(shown[0] == paths@[0]@);
    if config.wasm_enabled && !config.inline_rust {
        assert(shown[1] == paths@[1]@);
        assert(shown[2] == paths@[2]@);
    }
}

/// `part` is an import section and nothing else, with the text `text`.
pub open spec fn imports(part: DartPart, text: Seq<char>) -> bool {
    part matches DartPart::Import(import) && import@ == text
}

/// `files` are those that are written with the declarations at `decl_path`, which lie at `way` from
/// the directory of the main file.
pub open spec fn are_written_with_decls(
    config: Opts,
    paths: OutputPaths,
    decl_path: &str,
    way: String,
    files: Vec<DartFile>,
) -> bool {
    &&& paths.dart_decl_import == Some(way)
    &&& config.wasm_enabled ==> paths.dart_io_file is Some && paths.dart_wasm_file is Some
    &&& call_ensures(write_dart_decls, (&config, &paths, decl_path), files)
}

proof fn decl_files_as_shown(
    config: Opts,
    paths: OutputPaths,
    decl_path: &str,
    way: String,
    files: Vec<DartFile>,
)
    requires
        are_written_with_decls(config, paths, decl_path, way, files),
    ensures
        files@.len() == if config.wasm_enabled {
            4int
        } else {
            2
        },
        forall|i: int|
            0 <= i < files@.len() ==> (#[trigger] files@[i]).path@
                == files_with_decls(config, paths, decl_path@)[i].path,
        forall|i: int|
            0 <= i < files@.len() ==> (#[trigger] files@[i]).parts@.len()
                == files_with_decls(config, paths, decl_path@)[i].parts.len(),
        forall|i: int, k: int|
            0 <= i < files@.len() && 0 <= k < files@[i].parts@.len() ==> (
            #[trigger] files@[i].parts@[k])@ == files_with_decls(
                config,
                paths,
                decl_path@,
            )[i].parts[k],
{
    let shown = dart_files(files@);
    let expected = files_with_decls(config, paths, decl_path@);
    assert(shown == expected);
    assert(shown.len() == files@.len());
    assert forall|i: int| 0 <= i < files@.len() implies {
        &&& (#[trigger] files@[i]).path@ == expected[i].path
        &&& files@[i].parts@.len() == expected[i].parts.len()
    } by {
        assert(shown[i] == files@[i]@);
    }
    assert forall|i: int, k: int|
        0 <= i < files@.len() && 0 <= k < files@[i].parts@.len() implies (
    #[trigger] files@[i].parts@[k])@ == expected[i].parts[k] by {
        assert(shown[i] == files@[i]@);
        assert(dart_parts(files@[i].parts@)[k] == files@[i].parts@[k]@);
    }
}

/// With the declarations apart, they have their file, and so has the rest: the native and the web
/// code of their own where web targets are generated for, and all of it in the main file if not.
pub proof fn declarations_stand_apart(
    config: Opts,
    paths: OutputPaths,
    decl_path: &str,
    way: String,
    files: Vec<DartFile>,
)
    requires
        are_written_with_decls(config, paths, decl_path, way, files),
    ensures
        files@.len() == if config.wasm_enabled {
            4int
        } else {
            2
        },
        files@[0].path@ == decl_path@,
        files@[1].path@ == config.dart_output_path@,
        config.wasm_enabled ==> files@[2].path@ == config.dart_io_output_path@,
        config.wasm_enabled ==> files@[3].path@ == config.dart_wasm_output_path@,
        forall|i: int|
            0 <= i < files@.len() ==> (#[trigger] files@[i]).parts@.len() == if i == 1
                && !config.wasm_enabled {
                4int
            } else {
                3
            },
        forall|i: int| 0 <= i < files@.len() ==> (#[trigger] files@[i]).parts@[0] is FilePrelude,
        files@[0].parts@[2] is DeclAll,
        files@[1].parts@[2] is ImplCommon,
        config.wasm_enabled ==> files@[2].parts@[2] is ImplIoWire && files@[3].parts@[2] is ImplWasm,
        !config.wasm_enabled ==> files@[1].parts@[3] is ImplIoWire,
{
    decl_files_as_shown(config, paths, decl_path, way, files);
    assert(files@[0].parts@[0]@ is FilePrelude);
    assert(files@[0].parts@[2]@ is DeclAll);
    assert(files@[1].parts@[0]@ is FilePrelude);
    assert(files@[1].parts@[2]@ is ImplCommon);
    if config.wasm_enabled {
        assert(files@[2].parts@[0]@ is FilePrelude);
        assert(files@[2].parts@[2]@ is ImplIoWire);
        assert(files@[3].parts@[0]@ is FilePrelude);
        assert(files@[3].parts@[2]@ is ImplWasm);
    } else {
        assert(files@[1].parts@[3]@ is ImplIoWire);
    }
}

/// Every Dart file but that of the declarations imports the declarations, once, by the whole way to
/// them from the directory of the main file. The declarations import the native code or, for web
/// targets, the web code by their file names, and nothing where web targets are not generated for.
pub proof fn declarations_are_imported(
    config: Opts,
    paths: OutputPaths,
    decl_path: &str,
    way: String,
    files: Vec<DartFile>,
)
    requires
        are_written_with_decls(config, paths, decl_path, way, files),
    ensures
        forall|i: int|
            1 <= i < files@.len() ==> imports(
                (#[trigger] files@[i]).parts@[1],
                "import \""@ + way@ + "\";"@,
            ),
        forall|i: int, k: int|
            0 <= i < files@.len() && 0 <= k < files@[i].parts@.len() ==> ((
            #[trigger] files@[i].parts@[k]) is Import <==> k == 1),
        config.wasm_enabled ==> imports(
            files@[0].parts@[1],
            "import '"@ + paths.dart_io_file->0@ + "' if (dart.library.html) '"@
                + paths.dart_wasm_file->0@ + "';"@,
        ),
        !config.wasm_enabled ==> imports(files@[0].parts@[1], Seq::empty()),
{
    reveal_strlit("");
    decl_files_as_shown(config, paths, decl_path, way, files);
    assert forall|i: int| 1 <= i < files@.len() implies imports(
        (#[trigger] files@[i]).parts@[1],
        "import \""@ + way@ + "\";"@,
    ) by {
        assert(files@[i].parts@[1]@ is Import);
    }
    assert(files@[0].parts@[1]@ is Import);
    assert(""@ =~= Seq::<char>::empty());
    assert forall|i: int, k: int|
        0 <= i < files@.len() && 0 <= k < files@[i].parts@.len() implies ((
    #[trigger] files@[i].parts@[k]) is Import <==> k == 1) by {
        assert(files@[i].parts@[k]@ is Import <==> files@[i].parts@[k] is Import);
    }
}

/// Declarations that lie elsewhere are imported otherwise: two different ways never give the same
/// import.
pub proof fn different_ways_are_imported_differently(
    config: Opts,
    paths: OutputPaths,
    other_paths: OutputPaths,
    decl_path: &str,
    way: String,
    other_way: String,
    files: Vec<DartFile>,
    other_files: Vec<DartFile>,
    i: int,
)
    requires
        are_written_with_decls(config, paths, decl_path, way, files),
        are_written_with_decls(config, other_paths, decl_path, other_way, other_files),
        way@ != other_way@,
        1 <= i < files@.len(),
    ensures
        other_files@.len() == files@.len(),
        files@[i].parts@[1]->Import_0@ != other_files@[i].parts@[1]->Import_0@,
        files@[i].parts@[1]->Import_0@.len() - other_files@[i].parts@[1]->Import_0@.len()
            == way@.len() - other_way@.len(),
{
    declarations_stand_apart(config, paths, decl_path, way, files);
    declarations_stand_apart(config, other_paths, decl_path, other_way, other_files);
    declarations_are_imported(config, paths, decl_path, way, files);
    declarations_are_imported(config, other_paths, decl_path, other_way, other_files);
    assert(imports(files@[i].parts@[1], "import \""@ + way@ + "\";"@));
    assert(imports(other_files@[i].parts@[1], "import \""@ + other_way@ + "\";"@));
    let start = "import \""@.len() as int;
    let one = files@[i].parts@[1]->Import_0@;
    let other = other_files@[i].parts@[1]->Import_0@;
    assert(one.subrange(start, start + way@.len()) =~= way@);
    assert(other.subrange(start, start + other_way@.len()) =~= other_way@);
}

/// With the declarations in the main file and web targets generated for, the native and the web code
/// have files of their own.
pub proof fn platforms_stand_apart(config: Opts, files: Vec<DartFile>)
    requires
        call_ensures(write_dart_with_web, (&config,), files),
    ensures
        files@.len() == 3,
        files@[0].path@ == config.dart_output_path@,
        files@[1].path@ == config.dart_io_output_path@,
        files@[2].path@ == config.dart_wasm_output_path@,
        files@[0].parts@.len() == 3,
        files@[1].parts@.len() == 2,
        files@[2].parts@.len() == 2,
        forall|i: int| 0 <= i < 3 ==> (#[trigger] files@[i]).parts@[0] is FilePrelude,
        files@[0].parts@[1] is DeclAll,
        files@[0].parts@[2] is ImplCommon,
        files@[1].parts@[1] is ImplIoWire,
        files@[2].parts@[1] is ImplWasm,
{
    let shown = dart_files(files@);
    assert(shown == files_with_web(config));
    assert(shown.len() == files@.len());
    assert forall|i: int, k: int|
        0 <= i < 3 && 0 <= k < shown[i].parts.len() implies (#[trigger] files@[i].parts@[k])@
        == shown[i].parts[k] by {
        assert(shown[i] == files@[i]@);
        assert(dart_parts(files@[i].parts@)[k] == files@[i].parts@[k]@);
    }
    assert(shown[0] == files@[0]@);
    assert(shown[1] == files@[1]@);
    assert(shown[2] == files@[2]@);
    assert(dart_parts(files@[0].parts@).len() == 3);
    assert(dart_parts(files@[1].parts@).len() == 2);
    assert(dart_parts(files@[2].parts@).len() == 2);
    assert(files@[0].parts@[0]@ is FilePrelude);
    assert(files@[1].parts@[0]@ is FilePrelude);
    assert(files@[2].parts@[0]@ is FilePrelude);
    assert(files@[0].parts@[1]@ is DeclAll);
    assert(files@[0].parts@[2]@ is ImplCommon);
    assert(files@[1].parts@[1]@ is ImplIoWire);
    assert(files@[2].parts@[1]@ is ImplWasm);
}

/// A Dart file that has everything has the prelude, all declarations, the common code and the native
/// code, in this order.
pub proof fn single_file_has_everything(parts: Vec<DartPart>)
    requires
        call_ensures(single_dart_parts, (), parts),
    ensures
        parts@.len() == 4,
        parts@[0] is FilePrelude,
        parts@[1] is DeclAll,
        parts@[2] is ImplCommon,
        parts@[3] is ImplIoWire,
{
    let shown = dart_parts(parts@);
    assert(shown == single_parts());
    assert(shown.len() == parts@.len());
    assert(shown[0] == parts@[0]@);
    assert(shown[1] == parts@[1]@);
    assert(shown[2] == parts@[2]@);
    assert(shown[3] == parts@[3]@);
}

/// The Dart formatter gets the main file first, and then the declarations where they are apart, the
/// web and the native code where web targets are generated for, and the file that the `freezed`
/// builder leaves where that builder is run. It gets nothing else.
pub proof fn dart_formatter_gets(config: Opts, needs_freezed: bool, paths: Vec<String>)
    requires
        call_ensures(dart_paths_to_format, (&config, needs_freezed), paths),
    ensures
        ({
            let decls: int = if config.dart_decl_output_path is Some {
                1
            } else {
                0
            };
            let platforms: int = if config.wasm_enabled {
                2
            } else {
                0
            };
            let freezed: int = if needs_freezed && config.build_runner {
                1
            } else {
                0
            };
            &&& paths@.len() == 1 + decls + platforms + freezed
            &&& paths@[0]@ == config.dart_output_path@
            &&& decls == 1 ==> paths@[1]@ == config.dart_decl_output_path->0@
            &&& platforms == 2 ==> paths@[1 + decls]@ == config.dart_wasm_output_path@
            &&& platforms == 2 ==> paths@[2 + decls]@ == config.dart_io_output_path@
            &&& freezed == 1 ==> paths@[1 + decls + platforms]@ == config.dart_freezed_path@
        }),
{
    let shown = texts(paths@);
    assert(shown == formatted_dart_paths(config, needs_freezed));
    assert(shown.len() == paths@.len());
    assert forall|i: int| 0 <= i < paths@.len() implies shown[i] == (#[trigger] paths@[i])@ by {}
}

/// `part` is what taking the parent of `path` gives.
pub open spec fn taken_as_parent(part: Option<String>, path: Seq<char>) -> bool {
    let text = match part {
        Some(dir) => Some(dir@),
        None => None,
    };
    text == parent_text('/', path) || text == parent_text('\\', path)
}

/// `part` is what taking the file name of `path` gives, if it is needed, and nothing if not.
pub open spec fn taken_as_name(part: Option<String>, needed: bool, path: Seq<char>) -> bool {
    let text = match part {
        Some(name) => Some(name@),
        None => None,
    };
    if needed {
        text == file_name_text('/', path) || text == file_name_text('\\', path)
    } else {
        part is None
    }
}

/// Each part of a path is taken from the path that it is named after, and a name only where it is
/// written into a file: those of the Rust modules where they have files of their own, and those of
/// the Dart code for platforms where the declarations import it.
pub open spec fn parts_are_taken(config: Opts, paths: OutputPaths) -> bool {
    let apart = config.dart_decl_output_path is Some && config.wasm_enabled;
    &&& taken_as_parent(paths.rust_output_dir, config.rust_output_path@)
    &&& taken_as_parent(paths.dart_output_dir, config.dart_output_path@)
    &&& paths.c_output_dirs@.len() == config.c_output_path@.len()
    &&& forall|i: int|
        0 <= i < config.c_output_path@.len() ==> taken_as_parent(
            #[trigger] paths.c_output_dirs@[i],
            config.c_output_path@[i]@,
        )
    &&& taken_as_name(paths.rust_io_file, !config.inline_rust, config.rust_io_output_path@)
    &&& taken_as_name(
        paths.rust_wasm_file,
        !config.inline_rust && config.wasm_enabled,
        config.rust_wasm_output_path@,
    )
    &&& taken_as_name(paths.dart_io_file, apart, config.dart_io_output_path@)
    &&& taken_as_name(paths.dart_wasm_file, apart, config.dart_wasm_output_path@)
    &&& match (config.dart_decl_output_path, paths.dart_output_dir) {
        (Some(decl_path), Some(dir)) => taken_as_way(paths.dart_decl_import, decl_path@, dir@),
        _ => paths.dart_decl_import is None,
    }
}

/// `part` is what taking the way from `dir` to `path` gives.
pub open spec fn taken_as_way(part: Option<String>, path: Seq<char>, dir: Seq<char>) -> bool {
    let text = match part {
        Some(way) => Some(way@),
        None => None,
    };
    text == diff_paths_text('/', path, dir) || text == diff_paths_text('\\', path, dir)
}

/// Taking paths apart gives each part of the path that it is named after.
pub proof fn parts_are_taken_from_their_paths(config: Opts, paths: OutputPaths)
    requires
        call_ensures(output_paths, (&config,), paths),
    ensures
        parts_are_taken(config, paths),
{
    parts_as_told(config, paths);
}

/// A generation works with the parts of its own paths, and with the settings, the fixed code and the
/// symbols that it was given.
pub proof fn generation_works_with_what_it_was_given(
    config: Opts,
    stubs: BindgenStubs,
    all_symbols: Vec<String>,
    run: CodegenRun,
)
    requires
        call_ensures(frb_codegen, (config, stubs, all_symbols), run),
    ensures
        run.job().config == config,
        run.job().stubs == stubs,
        run.job().all_symbols == all_symbols,
        parts_are_taken(config, run.job().paths),
{
    parts_as_told(config, run.job().paths);
}

/// What is missing of the paths is told by looking at the parts that are needed.
pub proof fn missing_parts_are_told(config: Opts, paths: OutputPaths, told: (bool, bool, bool, bool))
    requires
        call_ensures(OutputPaths::has_output_dirs, (&paths,), told.0),
        call_ensures(OutputPaths::has_module_files, (&paths, &config), told.1),
        call_ensures(OutputPaths::has_imports, (&paths, &config), told.2),
        call_ensures(OutputPaths::are_whole, (&paths, &config), told.3),
    ensures
        told.0 <==> paths.rust_output_dir is Some && paths.dart_output_dir is Some,
        told.1 <==> modules_have_names(config, paths),
        told.2 <==> (config.dart_decl_output_path is Some ==> {
            &&& paths.dart_decl_import is Some
            &&& config.wasm_enabled ==> paths.dart_io_file is Some && paths.dart_wasm_file is Some
        }),
        told.3 <==> told.0 && told.1 && told.2 && forall|i: int|
            0 <= i < paths.c_output_dirs@.len() ==> (#[trigger] paths.c_output_dirs@[i]) is Some,
{
    assert forall|i: int| 0 <= i < paths.c_output_dirs@.len() implies (
    #[trigger] paths.lacks_header_dir(i)) == (paths.c_output_dirs@[i] is None) by {}
    if told.3 {
        assert forall|i: int| 0 <= i < paths.c_output_dirs@.len() implies (
        #[trigger] paths.c_output_dirs@[i]) is Some by {
            assert(!paths.lacks_header_dir(i));
        }
    }
}

proof fn parts_as_told(config: Opts, paths: OutputPaths)
    requires
        paths.are_of(config),
    ensures
        parts_are_taken(config, paths),
{
    assert forall|i: int| 0 <= i < config.c_output_path@.len() implies taken_as_parent(
        #[trigger] paths.c_output_dirs@[i],
        config.c_output_path@[i]@,
    ) by {
        assert(is_parent(
            texts(config.c_output_path@)[i],
            text_of(paths.c_output_dirs@[i]),
        ));
    }
}

} // verus!
