//! The script of a code generation: the outside work that it asks for, in order.
//!
//! Some of the work gives an answer that later work depends on, so how much of the script is known
//! depends on the answers that are in.

use crate::config::{Opts, OutputPaths};
use crate::dart_output::{
    all_dart_files, dart_files, dart_parts, dart_paths_to_format, formatted_dart_paths, is_single,
    single_dart_parts, single_file, single_parts, write_dart_decls, write_dart_with_web, DartFile,
    DartFileView, DartPart, DartPartView,
};
use crate::rust_output::{
    formatted_rust_paths, rust_files, rust_paths_to_format, text_files, write_rust_modules,
    RustCode, TextFile, TextFileView,
};
use crate::text::{texts, unique_lines, with_unique_lines};
use vstd::prelude::*;
use vstd::string::*;

verus! {

/// One piece of outside work.
pub enum Step {
    /// Make sure that the tools are there.
    EnsureTools { dart_root: String, skip_deps_check: bool },
    /// Parse and transform the source; answers with the names of the C structures.
    ParseSource,
    /// Create a directory and those above it.
    CreateDirAll { dir: String },
    /// Generate the Rust code; answers with it.
    GenerateRust,
    /// Write a file.
    WriteText { file: TextFile },
    /// Generate the Dart code; answers whether it needs the `freezed` builder.
    GenerateDart,
    /// Format Rust files.
    FormatRust { paths: Vec<String> },
    /// Declare the generated module in the crate root.
    AddModToLib { rust_crate_dir: String, rust_output_path: String },
    /// Make a temporary file for the Dart wrapper class.
    MakeWireFile,
    /// Make a temporary file for the C header.
    MakeHeaderFile { suffix: String },
    /// Tell which symbols to leave out; answers with their names.
    ExcludeSymbols { all_symbols: Vec<String> },
    /// Make a temporary directory for a crate.
    MakeCrateDir,
    /// Write a file below the temporary directory.
    WriteInCrate { file: TextFile },
    /// Create a directory below the temporary directory.
    CreateDirInCrate { dir: String },
    /// Bind the temporary crate to C and to Dart.
    Bindgen {
        dart_class_name: String,
        c_struct_names: Vec<String>,
        exclude_symbols: Vec<String>,
        llvm_install_path: Vec<String>,
        llvm_compiler_opts: String,
        dart_root: String,
    },
    /// Generate C code that mentions the functions; answers with it.
    GenerateDummy { func_names: Vec<String> },
    /// Announce that the C header `path` comes next.
    AnnounceHeader { path: String },
    /// Read the temporary C header; answers with its text.
    ReadHeader,
    /// Read the Dart wrapper class and bring it into shape.
    ReadWire { dart_class_name: String },
    /// Make sure that the Dart wrapper class is sane.
    CheckWire { dart_class_name: String },
    /// Put a Dart file together and write it.
    WriteDart { dart_file: DartFile },
    /// Put the parts of a Dart file together; answers with the import section of the whole.
    JoinDart { parts: Vec<DartPart> },
    /// Write the Dart file put together last, with another import section.
    WriteJoined { path: String, import: String },
    /// Run the Dart builders.
    BuildRunner { dart_root: String },
    /// Format Dart files.
    FormatDart { line_length: i32, paths: Vec<String> },
}

/// The contents of a [`Step`].
pub enum StepView {
    EnsureTools { dart_root: Seq<char>, skip_deps_check: bool },
    ParseSource,
    CreateDirAll { dir: Seq<char> },
    GenerateRust,
    WriteText { file: TextFileView },
    GenerateDart,
    FormatRust { paths: Seq<Seq<char>> },
    AddModToLib { rust_crate_dir: Seq<char>, rust_output_path: Seq<char> },
    MakeWireFile,
    MakeHeaderFile { suffix: Seq<char> },
    ExcludeSymbols { all_symbols: Seq<Seq<char>> },
    MakeCrateDir,
    WriteInCrate { file: TextFileView },
    CreateDirInCrate { dir: Seq<char> },
    Bindgen {
        dart_class_name: Seq<char>,
        c_struct_names: Seq<Seq<char>>,
        exclude_symbols: Seq<Seq<char>>,
        llvm_install_path: Seq<Seq<char>>,
        llvm_compiler_opts: Seq<char>,
        dart_root: Seq<char>,
    },
    GenerateDummy { func_names: Seq<Seq<char>> },
    AnnounceHeader { path: Seq<char> },
    ReadHeader,
    ReadWire { dart_class_name: Seq<char> },
    CheckWire { dart_class_name: Seq<char> },
    WriteDart { dart_file: DartFileView },
    JoinDart { parts: Seq<DartPartView> },
    WriteJoined { path: Seq<char>, import: Seq<char> },
    BuildRunner { dart_root: Seq<char> },
    FormatDart { line_length: i32, paths: Seq<Seq<char>> },
}

impl View for Step {
    type V = StepView;

    open spec fn view(&self) -> StepView {
        match *self {
            Step::EnsureTools { dart_root, skip_deps_check } => StepView::EnsureTools {
                dart_root: dart_root@,
                skip_deps_check,
            },
            Step::ParseSource => StepView::ParseSource,
            Step::CreateDirAll { dir } => StepView::CreateDirAll { dir: dir@ },
            Step::GenerateRust => StepView::GenerateRust,
            Step::WriteText { file } => StepView::WriteText { file: file@ },
            Step::GenerateDart => StepView::GenerateDart,
            Step::FormatRust { paths } => StepView::FormatRust { paths: texts(paths@) },
            Step::AddModToLib { rust_crate_dir, rust_output_path } => StepView::AddModToLib {
                rust_crate_dir: rust_crate_dir@,
                rust_output_path: rust_output_path@,
            },
            Step::MakeWireFile => StepView::MakeWireFile,
            Step::MakeHeaderFile { suffix } => StepView::MakeHeaderFile { suffix: suffix@ },
            Step::ExcludeSymbols { all_symbols } => StepView::ExcludeSymbols {
                all_symbols: texts(all_symbols@),
            },
            Step::MakeCrateDir => StepView::MakeCrateDir,
            Step::WriteInCrate { file } => StepView::WriteInCrate { file: file@ },
            Step::CreateDirInCrate { dir } => StepView::CreateDirInCrate { dir: dir@ },
            Step::Bindgen {
                dart_class_name,
                c_struct_names,
                exclude_symbols,
                llvm_install_path,
                llvm_compiler_opts,
                dart_root,
            } => StepView::Bindgen {
                dart_class_name: dart_class_name@,
                c_struct_names: texts(c_struct_names@),
                exclude_symbols: texts(exclude_symbols@),
                llvm_install_path: texts(llvm_install_path@),
                llvm_compiler_opts: llvm_compiler_opts@,
                dart_root: dart_root@,
            },
            Step::GenerateDummy { func_names } => StepView::GenerateDummy {
                func_names: texts(func_names@),
            },
            Step::AnnounceHeader { path } => StepView::AnnounceHeader { path: path@ },
            Step::ReadHeader => StepView::ReadHeader,
            Step::ReadWire { dart_class_name } => StepView::ReadWire {
                dart_class_name: dart_class_name@,
            },
            Step::CheckWire { dart_class_name } => StepView::CheckWire {
                dart_class_name: dart_class_name@,
            },
            Step::WriteDart { dart_file } => StepView::WriteDart { dart_file: dart_file@ },
            Step::JoinDart { parts } => StepView::JoinDart { parts: dart_parts(parts@) },
            Step::WriteJoined { path, import } => StepView::WriteJoined {
                path: path@,
                import: import@,
            },
            Step::BuildRunner { dart_root } => StepView::BuildRunner { dart_root: dart_root@ },
            Step::FormatDart { line_length, paths } => StepView::FormatDart {
                line_length,
                paths: texts(paths@),
            },
        }
    }
}

/// The contents of a list of steps.
pub open spec fn steps(list: Seq<Step>) -> Seq<StepView> {
    list.map_values(|step: Step| step@)
}

/// Fixed code that binding needs beside the generated code.
pub struct BindgenStubs {
    /// Manifest of the temporary crate.
    pub cargo_toml: String,
    /// Code to add to that of native targets.
    pub wire_code: String,
    /// Functions to mention beside the generated ones.
    pub extern_func_names: Vec<String>,
}

/// What a code generation starts from.
pub struct Job {
    pub config: Opts,
    pub paths: OutputPaths,
    pub stubs: BindgenStubs,
    /// The symbols of all generations that run together.
    pub all_symbols: Vec<String>,
}

impl Job {
    /// Of every C header it is known whether it has a directory.
    pub open spec fn is_valid(self) -> bool {
        self.paths.c_output_dirs@.len() == self.config.c_output_path@.len()
    }
}

/// Generated Rust code and the functions that it makes known to C.
pub struct GeneratedRust {
    pub code: RustCode,
    pub extern_func_names: Vec<String>,
}

/// The answers that are in.
pub struct Answers {
    pub c_struct_names: Vec<String>,
    pub rust: Option<GeneratedRust>,
    pub needs_freezed: bool,
    pub exclude_symbols: Option<Vec<String>>,
    pub c_dummy: Option<String>,
    /// The texts of the C header, one for each time that it was read.
    pub headers: Vec<String>,
    pub import: Option<String>,
}

/// The contents of [`Answers`].
pub struct AnswersView {
    pub c_struct_names: Seq<Seq<char>>,
    pub rust: Option<GeneratedRust>,
    pub needs_freezed: bool,
    pub exclude_symbols: Option<Seq<Seq<char>>>,
    pub c_dummy: Option<Seq<char>>,
    pub headers: Seq<Seq<char>>,
    pub import: Option<Seq<char>>,
}

impl View for Answers {
    type V = AnswersView;

    open spec fn view(&self) -> AnswersView {
        AnswersView {
            c_struct_names: texts(self.c_struct_names@),
            rust: self.rust,
            needs_freezed: self.needs_freezed,
            exclude_symbols: match self.exclude_symbols {
                Some(names) => Some(texts(names@)),
                None => None,
            },
            c_dummy: match self.c_dummy {
                Some(text) => Some(text@),
                None => None,
            },
            headers: texts(self.headers@),
            import: match self.import {
                Some(text) => Some(text@),
                None => None,
            },
        }
    }
}

/// The first step.
pub open spec fn first_step(job: Job) -> StepView {
    StepView::EnsureTools {
        dart_root: job.config.dart_root_or_default@,
        skip_deps_check: job.config.skip_deps_check,
    }
}

/// Up to the generation of the Rust code. Without the directories of the Rust and of the Dart file
/// it ends after the first step.
pub open spec fn opening(job: Job) -> Seq<StepView> {
    if job.paths.lacks_output_dir() {
        seq![first_step(job)]
    } else {
        seq![
            first_step(job),
            StepView::ParseSource,
            StepView::CreateDirAll { dir: job.paths.rust_output_dir->0@ },
            StepView::GenerateRust,
        ]
    }
}

/// Writing each of `files`.
pub open spec fn text_writes(files: Seq<TextFileView>) -> Seq<StepView> {
    files.map_values(|file: TextFileView| StepView::WriteText { file })
}

/// From the generated Rust code to the choice of symbols. Without the file names of the Rust modules
/// there is nothing to write.
pub open spec fn rust_section(job: Job, answers: AnswersView) -> Seq<StepView> {
    match answers.rust {
        None => seq![],
        Some(_) if job.paths.lacks_module_file(job.config) => seq![],
        Some(rust) => {
            let add_mod = if job.config.skip_add_mod_to_lib {
                seq![]
            } else {
                seq![
                    StepView::AddModToLib {
                        rust_crate_dir: job.config.rust_crate_dir@,
                        rust_output_path: job.config.rust_output_path@,
                    },
                ]
            };
            text_writes(rust_files(job.config, job.paths, rust.code)) + seq![
                StepView::GenerateDart,
                StepView::FormatRust { paths: formatted_rust_paths(job.config) },
            ] + add_mod + seq![
                StepView::MakeWireFile,
                StepView::MakeHeaderFile { suffix: ".h"@ },
                StepView::ExcludeSymbols { all_symbols: texts(job.all_symbols@) },
            ]
        },
    }
}

/// The temporary crate and its binding, up to the dummy C code.
pub open spec fn bindgen_section(job: Job, answers: AnswersView) -> Seq<StepView> {
    match (answers.rust, answers.exclude_symbols) {
        (Some(rust), Some(exclude_symbols)) => seq![
            StepView::MakeCrateDir,
            StepView::WriteInCrate {
                file: TextFileView { path: "Cargo.toml"@, text: job.stubs.cargo_toml@ },
            },
            StepView::CreateDirInCrate { dir: "src"@ },
            StepView::WriteInCrate {
                file: TextFileView {
                    path: "src/lib.rs"@,
                    text: rust.code.io@ + job.stubs.wire_code@,
                },
            },
            StepView::Bindgen {
                dart_class_name: job.config.dart_wire_class_name@,
                c_struct_names: answers.c_struct_names,
                exclude_symbols,
                llvm_install_path: texts(job.config.llvm_path@),
                llvm_compiler_opts: job.config.llvm_compiler_opts@,
                dart_root: job.config.dart_root_or_default@,
            },
            StepView::GenerateDummy {
                func_names: texts(rust.extern_func_names@) + texts(job.stubs.extern_func_names@),
            },
        ],
        _ => seq![],
    }
}

/// What the C header `at` takes: its directory, the text that was generated, and that text with
/// the dummy code after it. Without a directory it is only announced.
pub open spec fn one_header(job: Job, answers: AnswersView, at: int) -> Seq<StepView> {
    let path = job.config.c_output_path@[at]@;
    let announce = StepView::AnnounceHeader { path };
    if job.paths.lacks_header_dir(at) {
        seq![announce]
    } else {
        let open = seq![
            announce,
            StepView::CreateDirAll { dir: job.paths.c_output_dirs@[at]->0@ },
            StepView::ReadHeader,
        ];
        if at < answers.headers.len() {
            open + seq![
                StepView::WriteText {
                    file: TextFileView {
                        path,
                        text: answers.headers[at] + "\n"@ + answers.c_dummy->0,
                    },
                },
            ]
        } else {
            open
        }
    }
}

/// What the first `count` C headers take.
pub open spec fn headers_up_to(job: Job, answers: AnswersView, count: int) -> Seq<StepView>
    decreases count,
{
    if count <= 0 {
        seq![]
    } else {
        headers_up_to(job, answers, count - 1) + one_header(job, answers, count - 1)
    }
}

/// Every C header has been read for.
pub open spec fn headers_are_read(job: Job, answers: AnswersView) -> bool {
    answers.headers.len() >= job.config.c_output_path@.len()
}

/// The C headers, as far as they can be told: the next one is known once the text of the one
/// before it is in.
pub open spec fn header_section(job: Job, answers: AnswersView) -> Seq<StepView> {
    if answers.c_dummy is None {
        seq![]
    } else if headers_are_read(job, answers) {
        headers_up_to(job, answers, job.config.c_output_path@.len() as int)
    } else {
        headers_up_to(job, answers, answers.headers.len() as int + 1)
    }
}

/// Writing each of `files`.
pub open spec fn dart_writes(files: Seq<DartFileView>) -> Seq<StepView> {
    files.map_values(|dart_file: DartFileView| StepView::WriteDart { dart_file })
}

/// The Dart wrapper class and the Dart files. Where an import cannot be told, no Dart file is written.
pub open spec fn dart_section(job: Job, answers: AnswersView) -> Seq<StepView> {
    if answers.c_dummy is None || !headers_are_read(job, answers)
        || job.paths.lacks_output_dir() {
        seq![]
    } else {
        let class_name = job.config.dart_wire_class_name@;
        seq![
            StepView::CreateDirAll { dir: job.paths.dart_output_dir->0@ },
            StepView::ReadWire { dart_class_name: class_name },
            StepView::CheckWire { dart_class_name: class_name },
        ] + if job.paths.lacks_import(job.config) {
            seq![]
        } else if is_single(job.config) {
            seq![StepView::JoinDart { parts: single_parts() }]
        } else {
            dart_writes(all_dart_files(job.config, job.paths))
        }
    }
}

/// The Dart builders are to run, but where is unknown.
pub open spec fn lacks_dart_root(job: Job, answers: AnswersView) -> bool {
    answers.needs_freezed && job.config.build_runner && job.config.dart_root is None
}

/// The Dart builders, where they are to run, and the formatting of the Dart files.
pub open spec fn closing(job: Job, answers: AnswersView) -> Seq<StepView> {
    let format = StepView::FormatDart {
        line_length: job.config.dart_format_line_length,
        paths: formatted_dart_paths(job.config, answers.needs_freezed),
    };
    if lacks_dart_root(job, answers) {
        seq![]
    } else if answers.needs_freezed && job.config.build_runner {
        seq![StepView::BuildRunner { dart_root: job.config.dart_root->0@ }, format]
    } else {
        seq![format]
    }
}

/// The known script breaks off where a part of a path is needed that is missing: after the first
/// step, when the Rust modules are due, when a C header is due, or when the Dart files are due.
pub open spec fn breaks_off(job: Job, answers: AnswersView) -> bool {
    if job.paths.lacks_output_dir() {
        true
    } else if answers.rust is None {
        false
    } else if job.paths.lacks_module_file(job.config) {
        true
    } else if answers.exclude_symbols is None || answers.c_dummy is None {
        false
    } else if !headers_are_read(job, answers) {
        job.paths.lacks_header_dir(answers.headers.len() as int)
    } else {
        job.paths.lacks_import(job.config)
    }
}

/// No part of a path is missing, and all answers that the script asks for are in.
pub open spec fn is_complete(job: Job, answers: AnswersView) -> bool {
    &&& job.paths.lack_nothing(job.config)
    &&& answers.rust is Some
    &&& answers.exclude_symbols is Some
    &&& answers.c_dummy is Some
    &&& headers_are_read(job, answers)
    &&& is_single(job.config) ==> answers.import is Some
}

/// The end of the script: the single Dart file, if there is just one, and the closing.
pub open spec fn end_section(job: Job, answers: AnswersView) -> Seq<StepView> {
    if !is_complete(job, answers) {
        seq![]
    } else if is_single(job.config) {
        seq![
            StepView::WriteJoined {
                path: single_file(job.config).path,
                import: with_unique_lines(answers.import->0),
            },
        ] + closing(job, answers)
    } else {
        closing(job, answers)
    }
}

/// The script of `job` as far as `answers` let it be told.
#[verifier::opaque]
pub open spec fn script(job: Job, answers: AnswersView) -> Seq<StepView> {
    opening(job) + rust_section(job, answers) + bindgen_section(job, answers) + header_section(
        job,
        answers,
    ) + dart_section(job, answers) + end_section(job, answers)
}

fn cloned_list(list: &Vec<String>) -> (copy: Vec<String>)
    ensures
        texts(copy@) == texts(list@),
{
    let copy = list.clone();
    assert(texts(copy@) =~= texts(list@));
    copy
}

fn push_opening(job: &Job, list: &mut Vec<Step>)
    ensures
        steps(final(list)@) == steps(old(list)@) + opening(*job),
{
    list.push(
        Step::EnsureTools {
            dart_root: job.config.dart_root_or_default.clone(),
            skip_deps_check: job.config.skip_deps_check,
        },
    );
    if let (Some(dir), Some(_)) = (&job.paths.rust_output_dir, &job.paths.dart_output_dir) {
        list.push(Step::ParseSource);
        list.push(Step::CreateDirAll { dir: dir.clone() });
        list.push(Step::GenerateRust);
    }
    assert(steps(list@) =~= steps(old(list)@) + opening(*job));
}

fn push_text_writes(files: Vec<TextFile>, list: &mut Vec<Step>)
    ensures
        steps(final(list)@) == steps(old(list)@) + text_writes(text_files(files@)),
{
    let ghost before = steps(list@);
    assert(text_writes(text_files(files@)).take(0) =~= seq![]);
    assert(before + seq![] =~= before);
    for file in iter: files
        invariant
            iter.seq() == files@,
            steps(list@) == before + text_writes(text_files(files@)).take(iter.index() as int),
    {
        let ghost written = text_writes(text_files(files@));
        let ghost so_far = steps(list@);
        let ghost at = iter.index() as int;
        list.push(Step::WriteText { file });
        assert(steps(list@) =~= so_far.push(StepView::WriteText { file: file@ }));
        assert(written.take(at + 1) =~= written.take(at).push(written[at]));
        assert(steps(list@) =~= before + written.take(at + 1));
    }
    assert(text_writes(text_files(files@)).take(files@.len() as int) =~= text_writes(
        text_files(files@),
    ));
}

fn push_rust_section(job: &Job, rust: &GeneratedRust, list: &mut Vec<Step>)
    requires
        !job.paths.lacks_module_file(job.config),
    ensures
        forall|answers: AnswersView|
            answers.rust == Some(*rust) ==> steps(final(list)@) == steps(old(list)@)
                + #[trigger] rust_section(*job, answers),
{
    push_text_writes(write_rust_modules(&job.config, &job.paths, &rust.code), list);
    let ghost written = steps(list@);
    list.push(Step::GenerateDart);
    list.push(Step::FormatRust { paths: rust_paths_to_format(&job.config) });
    if !job.config.skip_add_mod_to_lib {
        list.push(
            Step::AddModToLib {
                rust_crate_dir: job.config.rust_crate_dir.clone(),
                rust_output_path: job.config.rust_output_path.clone(),
            },
        );
    }
    list.push(Step::MakeWireFile);
    list.push(Step::MakeHeaderFile { suffix: ".h".to_string() });
    list.push(Step::ExcludeSymbols { all_symbols: cloned_list(&job.all_symbols) });
    assert forall|answers: AnswersView| answers.rust == Some(*rust) implies steps(list@) == steps(
        old(list)@,
    ) + #[trigger] rust_section(*job, answers) by {
        let section = rust_section(*job, answers);
        let count = rust_files(job.config, job.paths, rust.code).len() as int;
        assert(written =~= steps(old(list)@) + section.take(count));
        assert(steps(list@) =~= written + section.skip(count));
        assert(steps(list@) =~= steps(old(list)@) + rust_section(*job, answers));
    }
}

fn push_bindgen_section(
    job: &Job,
    answers: &Answers,
    rust: &GeneratedRust,
    exclude_symbols: &Vec<String>,
    list: &mut Vec<Step>,
)
    requires
        answers@.rust == Some(*rust),
        answers@.exclude_symbols == Some(texts(exclude_symbols@)),
    ensures
        steps(final(list)@) == steps(old(list)@) + bindgen_section(*job, answers@),
{
    let lib_rs = rust.code.io.clone().concat(job.stubs.wire_code.as_str());
    let mut func_names = cloned_list(&rust.extern_func_names);
    let mut extra_names = cloned_list(&job.stubs.extern_func_names);
    let ghost expected = texts(func_names@) + texts(extra_names@);
    func_names.append(&mut extra_names);
    assert(texts(func_names@) =~= expected);
    list.push(Step::MakeCrateDir);
    list.push(
        Step::WriteInCrate {
            file: TextFile { path: "Cargo.toml".to_string(), text: job.stubs.cargo_toml.clone() },
        },
    );
    list.push(Step::CreateDirInCrate { dir: "src".to_string() });
    list.push(
        Step::WriteInCrate { file: TextFile { path: "src/lib.rs".to_string(), text: lib_rs } },
    );
    list.push(
        Step::Bindgen {
            dart_class_name: job.config.dart_wire_class_name.clone(),
            c_struct_names: cloned_list(&answers.c_struct_names),
            exclude_symbols: cloned_list(exclude_symbols),
            llvm_install_path: cloned_list(&job.config.llvm_path),
            llvm_compiler_opts: job.config.llvm_compiler_opts.clone(),
            dart_root: job.config.dart_root_or_default.clone(),
        },
    );
    list.push(Step::GenerateDummy { func_names });
    assert(steps(list@) =~= steps(old(list)@) + bindgen_section(*job, answers@));
}

fn push_header_section(job: &Job, answers: &Answers, c_dummy: &str, list: &mut Vec<Step>)
    requires
        job.is_valid(),
        answers@.c_dummy == Some(c_dummy@),
    ensures
        steps(final(list)@) == steps(old(list)@) + header_section(*job, answers@),
{
    let total: usize = job.config.c_output_path.len();
    let read: usize = answers.headers.len();
    let count: usize = if read >= total {
        total
    } else {
        read + 1
    };
    let ghost before = steps(list@);
    let mut at: usize = 0;
    assert(before =~= before + headers_up_to(*job, answers@, 0));
    while at < count
        invariant
            job.is_valid(),
            answers@.c_dummy == Some(c_dummy@),
            read == answers.headers@.len(),
            at <= count <= job.config.c_output_path@.len(),
            steps(list@) == before + headers_up_to(*job, answers@, at as int),
        decreases count - at,
    {
        let ghost so_far = steps(list@);
        list.push(Step::AnnounceHeader { path: job.config.c_output_path[at].clone() });
        if let Some(dir) = &job.paths.c_output_dirs[at] {
            list.push(Step::CreateDirAll { dir: dir.clone() });
            list.push(Step::ReadHeader);
            if at < read {
                let text = answers.headers[at].clone().concat("\n").concat(c_dummy);
                list.push(
                    Step::WriteText {
                        file: TextFile { path: job.config.c_output_path[at].clone(), text },
                    },
                );
            }
        }
        assert(steps(list@) =~= so_far + one_header(*job, answers@, at as int));
        assert(steps(list@) =~= before + headers_up_to(*job, answers@, at + 1));
        at = at + 1;
    }
}

fn push_dart_writes(files: Vec<DartFile>, list: &mut Vec<Step>)
    ensures
        steps(final(list)@) == steps(old(list)@) + dart_writes(dart_files(files@)),
{
    let ghost before = steps(list@);
    assert(dart_writes(dart_files(files@)).take(0) =~= seq![]);
    assert(before + seq![] =~= before);
    for dart_file in iter: files
        invariant
            iter.seq() == files@,
            steps(list@) == before + dart_writes(dart_files(files@)).take(iter.index() as int),
    {
        let ghost written = dart_writes(dart_files(files@));
        let ghost so_far = steps(list@);
        let ghost at = iter.index() as int;
        list.push(Step::WriteDart { dart_file });
        assert(steps(list@) =~= so_far.push(StepView::WriteDart { dart_file: dart_file@ }));
        assert(written.take(at + 1) =~= written.take(at).push(written[at]));
        assert(steps(list@) =~= before + written.take(at + 1));
    }
    assert(dart_writes(dart_files(files@)).take(files@.len() as int) =~= dart_writes(
        dart_files(files@),
    ));
}

fn push_dart_section(job: &Job, dart_output_dir: &str, list: &mut Vec<Step>)
    requires
        !job.paths.lacks_output_dir(),
        dart_output_dir@ == job.paths.dart_output_dir->0@,
    ensures
        forall|answers: AnswersView|
            answers.c_dummy is Some && headers_are_read(*job, answers) ==> steps(final(list)@)
                == steps(old(list)@) + #[trigger] dart_section(*job, answers),
{
    let ghost before = steps(list@);
    list.push(Step::CreateDirAll { dir: dart_output_dir.to_string() });
    list.push(Step::ReadWire { dart_class_name: job.config.dart_wire_class_name.clone() });
    list.push(Step::CheckWire { dart_class_name: job.config.dart_wire_class_name.clone() });
    let ghost wire = steps(list@);
    let ghost expected = if job.paths.lacks_import(job.config) {
        seq![]
    } else if is_single(job.config) {
        seq![StepView::JoinDart { parts: single_parts() }]
    } else {
        dart_writes(all_dart_files(job.config, job.paths))
    };
    if job.paths.has_imports(&job.config) {
        match &job.config.dart_decl_output_path {
            Some(decl_path) => push_dart_writes(
                write_dart_decls(&job.config, &job.paths, decl_path.as_str()),
                list,
            ),
            None => {
                if job.config.wasm_enabled {
                    push_dart_writes(write_dart_with_web(&job.config), list);
                } else {
                    list.push(Step::JoinDart { parts: single_dart_parts() });
                }
            },
        }
    }
    assert(steps(list@) =~= wire + expected);
    assert forall|answers: AnswersView|
        answers.c_dummy is Some && headers_are_read(*job, answers) implies steps(list@) == before
        + #[trigger] dart_section(*job, answers) by {
        assert(before + dart_section(*job, answers) =~= wire + expected);
    }
}

fn push_end_section(job: &Job, answers: &Answers, list: &mut Vec<Step>)
    requires
        is_complete(*job, answers@),
    ensures
        steps(final(list)@) == steps(old(list)@) + end_section(*job, answers@),
{
    if job.config.dart_decl_output_path.is_none() && !job.config.wasm_enabled {
        if let Some(import) = &answers.import {
            list.push(
                Step::WriteJoined {
                    path: job.config.dart_output_path.clone(),
                    import: unique_lines(import.as_str()),
                },
            );
        }
    }
    let build = answers.needs_freezed && job.config.build_runner;
    if build {
        if let Some(dart_root) = &job.config.dart_root {
            list.push(Step::BuildRunner { dart_root: dart_root.clone() });
        }
    }
    if !build || job.config.dart_root.is_some() {
        list.push(
            Step::FormatDart {
                line_length: job.config.dart_format_line_length,
                paths: dart_paths_to_format(&job.config, answers.needs_freezed),
            },
        );
    }
    assert(steps(list@) =~= steps(old(list)@) + end_section(*job, answers@));
}

/// The script of `job` as far as `answers` let it be told.
pub fn make_script(job: &Job, answers: &Answers) -> (list: Vec<Step>)
    requires
        job.is_valid(),
    ensures
        steps(list@) == script(*job, answers@),
{
    proof {
        reveal(script);
    }
    let mut list: Vec<Step> = Vec::new();
    assert(steps(list@) =~= seq![]);
    push_opening(job, &mut list);
    assert(steps(list@) =~= opening(*job));
    if let Some(rust) = &answers.rust {
        if job.paths.has_module_files(&job.config) {
            push_rust_section(job, rust, &mut list);
        }
        if let Some(exclude_symbols) = &answers.exclude_symbols {
            push_bindgen_section(job, answers, rust, exclude_symbols, &mut list);
        }
    }
    if let Some(c_dummy) = &answers.c_dummy {
        push_header_section(job, answers, c_dummy.as_str(), &mut list);
        if answers.headers.len() >= job.config.c_output_path.len() {
            if let (Some(_), Some(dir)) = (&job.paths.rust_output_dir, &job.paths.dart_output_dir) {
                push_dart_section(job, dir.as_str(), &mut list);
            }
        }
    }
    let single = job.config.dart_decl_output_path.is_none() && !job.config.wasm_enabled;
    if job.paths.are_whole(&job.config) && answers.rust.is_some()
        && answers.exclude_symbols.is_some() && answers.c_dummy.is_some() && answers.headers.len()
        >= job.config.c_output_path.len() && (!single || answers.import.is_some()) {
        push_end_section(job, answers, &mut list);
    }
    assert(steps(list@) =~= script(*job, answers@));
    list
}

} // verus!
