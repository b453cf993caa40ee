//! The generated Dart files.
//!
//! A Dart file is put together from parts. What the parts hold is up to the Dart generator; which
//! parts a file has, and in which order, is decided here.

use crate::config::{Opts, OutputPaths};
use crate::text::{or_empty, texts};
use vstd::prelude::*;
use vstd::string::*;

verus! {

/// A part of a generated Dart file.
pub enum DartPart {
    /// What stands at the head of every file.
    FilePrelude,
    /// All declarations.
    DeclAll,
    /// Code that every target shares.
    ImplCommon,
    /// Code for native targets, followed by the wrapper class of the native symbols.
    ImplIoWire,
    /// Code for web targets.
    ImplWasm,
    /// Nothing but this import section.
    Import(String),
}

/// The contents of a [`DartPart`].
pub enum DartPartView {
    FilePrelude,
    DeclAll,
    ImplCommon,
    ImplIoWire,
    ImplWasm,
    Import(Seq<char>),
}

impl View for DartPart {
    type V = DartPartView;

    open spec fn view(&self) -> DartPartView {
        match self {
            DartPart::FilePrelude => DartPartView::FilePrelude,
            DartPart::DeclAll => DartPartView::DeclAll,
            DartPart::ImplCommon => DartPartView::ImplCommon,
            DartPart::ImplIoWire => DartPartView::ImplIoWire,
            DartPart::ImplWasm => DartPartView::ImplWasm,
            DartPart::Import(text) => DartPartView::Import(text@),
        }
    }
}

/// A Dart file and the parts that make it up, first to last.
pub struct DartFile {
    pub path: String,
    pub parts: Vec<DartPart>,
}

/// The contents of a [`DartFile`].
pub struct DartFileView {
    pub path: Seq<char>,
    pub parts: Seq<DartPartView>,
}

/// The contents of a list of parts.
pub open spec fn dart_parts(parts: Seq<DartPart>) -> Seq<DartPartView> {
    parts.map_values(|part: DartPart| part@)
}

impl View for DartFile {
    type V = DartFileView;

    open spec fn view(&self) -> DartFileView {
        DartFileView { path: self.path@, parts: dart_parts(self.parts@) }
    }
}

/// The contents of a list of files.
pub open spec fn dart_files(files: Seq<DartFile>) -> Seq<DartFileView> {
    files.map_values(|file: DartFile| file@)
}

/// The import of the platform code into the declarations.
pub open spec fn common_import(config: Opts, paths: OutputPaths) -> Seq<char> {
    if config.wasm_enabled {
        "import '"@ + paths.dart_io_file->0@ + "' if (dart.library.html) '"@ + paths.dart_wasm_file->0@
            + "';"@
    } else {
        ""@
    }
}

/// The import of the declarations into the other files.
pub open spec fn decl_import(paths: OutputPaths) -> Seq<char> {
    "import \""@ + paths.dart_decl_import->0@ + "\";"@
}

/// The Dart files where the declarations at `decl_path` stand apart from the rest.
pub open spec fn files_with_decls(
    config: Opts,
    paths: OutputPaths,
    decl_path: Seq<char>,
) -> Seq<DartFileView> {
    let prelude = DartPartView::FilePrelude;
    let import = DartPartView::Import(decl_import(paths));
    let decls = DartFileView {
        path: decl_path,
        parts: seq![
            prelude,
            DartPartView::Import(common_import(config, paths)),
            DartPartView::DeclAll,
        ],
    };
    if config.wasm_enabled {
        seq![
            decls,
            DartFileView {
                path: config.dart_output_path@,
                parts: seq![prelude, import, DartPartView::ImplCommon],
            },
            DartFileView {
                path: config.dart_io_output_path@,
                parts: seq![prelude, import, DartPartView::ImplIoWire],
            },
            DartFileView {
                path: config.dart_wasm_output_path@,
                parts: seq![prelude, import, DartPartView::ImplWasm],
            },
        ]
    } else {
        seq![
            decls,
            DartFileView {
                path: config.dart_output_path@,
                parts: seq![prelude, import, DartPartView::ImplCommon, DartPartView::ImplIoWire],
            },
        ]
    }
}

/// The Dart files where the declarations stand with the common code and web targets are generated
/// for.
pub open spec fn files_with_web(config: Opts) -> Seq<DartFileView> {
    let prelude = DartPartView::FilePrelude;
    seq![
        DartFileView {
            path: config.dart_output_path@,
            parts: seq![prelude, DartPartView::DeclAll, DartPartView::ImplCommon],
        },
        DartFileView {
            path: config.dart_io_output_path@,
            parts: seq![prelude, DartPartView::ImplIoWire],
        },
        DartFileView {
            path: config.dart_wasm_output_path@,
            parts: seq![prelude, DartPartView::ImplWasm],
        },
    ]
}

/// The parts of the one Dart file where nothing is split off.
pub open spec fn single_parts() -> Seq<DartPartView> {
    seq![
        DartPartView::FilePrelude,
        DartPartView::DeclAll,
        DartPartView::ImplCommon,
        DartPartView::ImplIoWire,
    ]
}

/// The one Dart file where nothing is split off.
pub open spec fn single_file(config: Opts) -> DartFileView {
    DartFileView { path: config.dart_output_path@, parts: single_parts() }
}

/// Everything goes into one Dart file.
pub open spec fn is_single(config: Opts) -> bool {
    config.dart_decl_output_path is None && !config.wasm_enabled
}

/// The Dart files of a generation.
pub open spec fn all_dart_files(config: Opts, paths: OutputPaths) -> Seq<DartFileView> {
    match config.dart_decl_output_path {
        Some(decl_path) => files_with_decls(config, paths, decl_path@),
        None => if config.wasm_enabled {
            files_with_web(config)
        } else {
            seq![single_file(config)]
        },
    }
}

/// The Dart files that go through the formatter.
pub open spec fn formatted_dart_paths(config: Opts, needs_freezed: bool) -> Seq<Seq<char>> {
    let decl = match config.dart_decl_output_path {
        Some(path) => seq![path@],
        None => seq![],
    };
    let platforms = if config.wasm_enabled {
        seq![config.dart_wasm_output_path@, config.dart_io_output_path@]
    } else {
        seq![]
    };
    let freezed = if needs_freezed && config.build_runner {
        seq![config.dart_freezed_path@]
    } else {
        seq![]
    };
    seq![config.dart_output_path@] + decl + platforms + freezed
}

fn parts_with_import(import: &str, part: DartPart) -> (parts: Vec<DartPart>)
    ensures
        dart_parts(parts@) == seq![
            DartPartView::FilePrelude,
            DartPartView::Import(import@),
            part@,
        ],
{
    let mut parts: Vec<DartPart> = Vec::new();
    parts.push(DartPart::FilePrelude);
    parts.push(DartPart::Import(import.to_string()));
    parts.push(part);
    assert(dart_parts(parts@) =~= seq![
        DartPartView::FilePrelude,
        DartPartView::Import(import@),
        part@,
    ]);
    parts
}

/// The Dart files to write where the declarations go to `decl_path`, in the order in which they are
/// written.
pub fn write_dart_decls(config: &Opts, paths: &OutputPaths, decl_path: &str) -> (files: Vec<
    DartFile,
>)
    requires
        paths.dart_decl_import is Some,
        config.wasm_enabled ==> paths.dart_io_file is Some && paths.dart_wasm_file is Some,
    ensures
        dart_files(files@) == files_with_decls(*config, *paths, decl_path@),
{
    let import = "import \"".to_string().concat(or_empty(&paths.dart_decl_import)).concat("\";");
    let common = if config.wasm_enabled {
        "import '".to_string().concat(or_empty(&paths.dart_io_file)).concat(
            "' if (dart.library.html) '",
        ).concat(or_empty(&paths.dart_wasm_file)).concat("';")
    } else {
        "".to_string()
    };
    let mut files: Vec<DartFile> = Vec::new();
    files.push(
        DartFile {
            path: decl_path.to_string(),
            parts: parts_with_import(common.as_str(), DartPart::DeclAll),
        },
    );
    let mut main_parts = parts_with_import(import.as_str(), DartPart::ImplCommon);
    if config.wasm_enabled {
        files.push(DartFile { path: config.dart_output_path.clone(), parts: main_parts });
        files.push(
            DartFile {
                path: config.dart_io_output_path.clone(),
                parts: parts_with_import(import.as_str(), DartPart::ImplIoWire),
            },
        );
        files.push(
            DartFile {
                path: config.dart_wasm_output_path.clone(),
                parts: parts_with_import(import.as_str(), DartPart::ImplWasm),
            },
        );
    } else {
        let ghost before = dart_parts(main_parts@);
        main_parts.push(DartPart::ImplIoWire);
        assert(dart_parts(main_parts@) =~= before.push(DartPartView::ImplIoWire));
        assert(dart_parts(main_parts@) =~= seq![
            DartPartView::FilePrelude,
            DartPartView::Import(import@),
            DartPartView::ImplCommon,
            DartPartView::ImplIoWire,
        ]);
        files.push(DartFile { path: config.dart_output_path.clone(), parts: main_parts });
    }
    assert(dart_files(files@) =~= files_with_decls(*config, *paths, decl_path@));
    files
}

/// The Dart files to write where the declarations stand with the common code and web targets are
/// generated for, in the order in which they are written.
pub fn write_dart_with_web(config: &Opts) -> (files: Vec<DartFile>)
    ensures
        dart_files(files@) == files_with_web(*config),
{
    let mut main_parts: Vec<DartPart> = Vec::new();
    main_parts.push(DartPart::FilePrelude);
    main_parts.push(DartPart::DeclAll);
    main_parts.push(DartPart::ImplCommon);
    let mut io_parts: Vec<DartPart> = Vec::new();
    io_parts.push(DartPart::FilePrelude);
    io_parts.push(DartPart::ImplIoWire);
    let mut wasm_parts: Vec<DartPart> = Vec::new();
    wasm_parts.push(DartPart::FilePrelude);
    wasm_parts.push(DartPart::ImplWasm);
    let ghost expected = files_with_web(*config);
    assert(dart_parts(main_parts@) =~= expected[0].parts);
    assert(dart_parts(io_parts@) =~= expected[1].parts);
    assert(dart_parts(wasm_parts@) =~= expected[2].parts);
    let mut files: Vec<DartFile> = Vec::new();
    files.push(DartFile { path: config.dart_output_path.clone(), parts: main_parts });
    files.push(DartFile { path: config.dart_io_output_path.clone(), parts: io_parts });
    files.push(DartFile { path: config.dart_wasm_output_path.clone(), parts: wasm_parts });
    assert(dart_files(files@) =~= expected);
    files
}

/// The parts of the Dart file that holds everything.
pub fn single_dart_parts() -> (parts: Vec<DartPart>)
    ensures
        dart_parts(parts@) == single_parts(),
{
    let mut parts: Vec<DartPart> = Vec::new();
    parts.push(DartPart::FilePrelude);
    parts.push(DartPart::DeclAll);
    parts.push(DartPart::ImplCommon);
    parts.push(DartPart::ImplIoWire);
    assert(dart_parts(parts@) =~= single_parts());
    parts
}

/// The paths to hand to the Dart formatter.
pub fn dart_paths_to_format(config: &Opts, needs_freezed: bool) -> (paths: Vec<String>)
    ensures
        texts(paths@) == formatted_dart_paths(*config, needs_freezed),
{
    let mut paths: Vec<String> = Vec::new();
    paths.push(config.dart_output_path.clone());
    if let Some(path) = &config.dart_decl_output_path {
        paths.push(path.clone());
    }
    if config.wasm_enabled {
        paths.push(config.dart_wasm_output_path.clone());
        paths.push(config.dart_io_output_path.clone());
    }
    if needs_freezed && config.build_runner {
        paths.push(config.dart_freezed_path.clone());
    }
    assert(texts(paths@) =~= formatted_dart_paths(*config, needs_freezed));
    paths
}

/// `part` stands in `files`, at the place `j` of the file `i`.
pub open spec fn stands_at(files: Seq<DartFileView>, part: DartPartView, i: int, j: int) -> bool {
    0 <= i < files.len() && 0 <= j < files[i].parts.len() && files[i].parts[j] == part
}

/// `part` stands at one place in `files` and at no other.
pub open spec fn stands_once(files: Seq<DartFileView>, part: DartPartView) -> bool {
    exists|i: int, j: int|
        #[trigger] stands_at(files, part, i, j) && forall|k: int, l: int| #[trigger]
            stands_at(files, part, k, l) ==> k == i && l == j
}

proof fn generated_part_stands_nowhere_else(
    config: Opts,
    paths: OutputPaths,
    part: DartPartView,
    i: int,
    j: int,
)
    requires
        part !is FilePrelude,
        part !is Import,
        stands_at(all_dart_files(config, paths), part, i, j),
    ensures
        stands_once(all_dart_files(config, paths), part),
{
    let files = all_dart_files(config, paths);
    assert forall|k: int, l: int| #[trigger] stands_at(files, part, k, l) implies k == i && l
        == j by {
        assert(files[i].parts[j] == files[k].parts[l]);
    }
}

/// Whatever is split off, all declarations, the common code and the native code are written
/// exactly once, and the code for web targets exactly once where it is generated and else never.
pub proof fn dart_parts_are_written_once(config: Opts, paths: OutputPaths)
    ensures
        stands_once(all_dart_files(config, paths), DartPartView::DeclAll),
        stands_once(all_dart_files(config, paths), DartPartView::ImplCommon),
        stands_once(all_dart_files(config, paths), DartPartView::ImplIoWire),
        config.wasm_enabled ==> stands_once(all_dart_files(config, paths), DartPartView::ImplWasm),
        !config.wasm_enabled ==> forall|i: int, j: int|
            !stands_at(all_dart_files(config, paths), DartPartView::ImplWasm, i, j),
{
    let decls: int = if config.dart_decl_output_path is Some { 1 } else { 0 };
    generated_part_stands_nowhere_else(config, paths, DartPartView::DeclAll, 0, decls + 1);
    generated_part_stands_nowhere_else(config, paths, DartPartView::ImplCommon, decls, 2);
    if config.wasm_enabled {
        let place = decls + 1;
        generated_part_stands_nowhere_else(config, paths, DartPartView::ImplIoWire, decls + 1, place);
        generated_part_stands_nowhere_else(config, paths, DartPartView::ImplWasm, decls + 2, place);
    } else {
        generated_part_stands_nowhere_else(config, paths, DartPartView::ImplIoWire, decls, 3);
    }
}

/// Every Dart file starts with the file prelude.
pub proof fn dart_files_start_with_prelude(config: Opts, paths: OutputPaths, i: int)
    requires
        0 <= i < all_dart_files(config, paths).len(),
    ensures
        all_dart_files(config, paths)[i].parts.len() > 0,
        all_dart_files(config, paths)[i].parts[0] == DartPartView::FilePrelude,
{
}

/// Every Dart file that is written goes through the formatter.
pub proof fn written_dart_files_are_formatted(
    config: Opts,
    paths: OutputPaths,
    needs_freezed: bool,
    i: int,
)
    requires
        0 <= i < all_dart_files(config, paths).len(),
    ensures
        formatted_dart_paths(config, needs_freezed).contains(
            all_dart_files(config, paths)[i].path,
        ),
{
    let formatted = formatted_dart_paths(config, needs_freezed);
    let path = all_dart_files(config, paths)[i].path;
    let decls: int = if config.dart_decl_output_path is Some { 1 } else { 0 };
    let place: int = if i < decls {
        1
    } else if i == decls {
        0
    } else if i == decls + 1 {
        decls + 2
    } else {
        decls + 1
    };
    assert(formatted[place] == path);
}

/// Only files that are written go through the Dart formatter, and the one that the `freezed`
/// builder leaves.
pub proof fn formatted_dart_files_are_written(
    config: Opts,
    paths: OutputPaths,
    needs_freezed: bool,
    i: int,
)
    requires
        0 <= i < formatted_dart_paths(config, needs_freezed).len(),
    ensures
        ({
            let path = formatted_dart_paths(config, needs_freezed)[i];
            ||| exists|j: int|
                0 <= j < all_dart_files(config, paths).len() && path
                    == #[trigger] all_dart_files(config, paths)[j].path
            ||| needs_freezed && config.build_runner && path == config.dart_freezed_path@
        }),
{
    let files = all_dart_files(config, paths);
    let path = formatted_dart_paths(config, needs_freezed)[i];
    let decls: int = if config.dart_decl_output_path is Some { 1 } else { 0 };
    let place: int = if i == 0 {
        decls
    } else if i == 1 && decls == 1 {
        0
    } else if i == decls + 1 {
        decls + 2
    } else {
        decls + 1
    };
    if !(needs_freezed && config.build_runner && path == config.dart_freezed_path@) {
        assert(path == files[place].path);
    }
}

} // verus!
