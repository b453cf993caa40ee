//! Laws of the script of a code generation: which steps it has, with what, and in which order.

use crate::config::Opts;
use crate::dart_output::{
    all_dart_files, dart_files, dart_parts, dart_paths_to_format, formatted_dart_paths,
    single_dart_parts, single_parts, write_dart_decls, write_dart_with_web, DartFile, DartPart,
};
use crate::rust_output::{
    formatted_rust_paths, rust_files, rust_paths_to_format, text_files, write_rust_modules,
    TextFile, TextFileView,
};
use crate::steps::{
    bindgen_section, closing, dart_section, end_section, header_section, headers_up_to,
    make_script, one_header, opening, rust_section, script, steps, Answers, AnswersView,
    GeneratedRust, Job, Step, StepView,
};
use crate::text::{first_occurrences, joined, lines_of, texts};
use vstd::prelude::*;

verus! {

/// The Rust and the Dart file have their directories.
pub open spec fn has_directories(job: Job) -> bool {
    job.paths.rust_output_dir is Some && job.paths.dart_output_dir is Some
}

/// The Rust modules have the file names that the Rust code needs.
pub open spec fn has_module_names(job: Job) -> bool {
    job.config.inline_rust || {
        &&& job.paths.rust_io_file is Some
        &&& job.config.wasm_enabled ==> job.paths.rust_wasm_file is Some
    }
}

/// The first `count` C headers have their directories.
pub open spec fn has_header_directories(job: Job, count: int) -> bool {
    &&& job.paths.c_output_dirs@.len() == job.config.c_output_path@.len()
    &&& 0 <= count <= job.config.c_output_path@.len()
    &&& forall|i: int| 0 <= i < count ==> (#[trigger] job.paths.c_output_dirs@[i]) is Some
}

/// What the Dart declarations import, and are imported by, is known.
pub open spec fn has_import_names(job: Job) -> bool {
    job.config.dart_decl_output_path is Some ==> {
        &&& job.paths.dart_decl_import is Some
        &&& job.config.wasm_enabled ==> job.paths.dart_io_file is Some
            && job.paths.dart_wasm_file is Some
    }
}

/// Everything goes into one Dart file.
pub open spec fn has_one_dart_file(config: Opts) -> bool {
    config.dart_decl_output_path is None && !config.wasm_enabled
}

/// The Dart builders are to be run.
pub open spec fn needs_builders(job: Job, answers: AnswersView) -> bool {
    answers.needs_freezed && job.config.build_runner
}

/// How many Rust files are written.
pub open spec fn rust_file_count(config: Opts) -> int {
    if config.inline_rust {
        1
    } else if config.wasm_enabled {
        3
    } else {
        2
    }
}

/// How many steps come before the temporary files.
pub open spec fn temporary_at(config: Opts) -> int {
    4 + rust_file_count(config) + if config.skip_add_mod_to_lib {
        2int
    } else {
        3
    }
}

/// How many steps come before the first C header.
pub open spec fn headers_at(config: Opts) -> int {
    temporary_at(config) + 9
}

/// How many steps come before the Dart wrapper class.
pub open spec fn wire_at(config: Opts) -> int {
    headers_at(config) + 4 * config.c_output_path@.len()
}

/// How many steps the Dart files take.
pub open spec fn dart_file_steps(config: Opts) -> int {
    if config.dart_decl_output_path is Some {
        if config.wasm_enabled {
            4
        } else {
            2
        }
    } else if config.wasm_enabled {
        3
    } else {
        2
    }
}

/// How many steps come before the builders and the formatting of the Dart files.
pub open spec fn end_at(config: Opts) -> int {
    wire_at(config) + 3 + dart_file_steps(config)
}

/// The generation starts with the tools, as the settings say. Then the source is parsed, the
/// directory of the Rust file is created, and the Rust code is generated. Without the directories of
/// the Rust and of the Dart file there are the tools, and nothing else.
pub proof fn script_starts_with_the_tools(job: Job, answers: AnswersView)
    ensures
        script(job, answers).len() > 0,
        script(job, answers)[0] == (StepView::EnsureTools {
            dart_root: job.config.dart_root_or_default@,
            skip_deps_check: job.config.skip_deps_check,
        }),
        has_directories(job) ==> {
            &&& script(job, answers).len() >= 4
            &&& script(job, answers)[1] is ParseSource
            &&& script(job, answers)[2] == (StepView::CreateDirAll {
                dir: job.paths.rust_output_dir->0@,
            })
            &&& script(job, answers)[3] is GenerateRust
        },
        answers.rust is None && answers.exclude_symbols is None && answers.c_dummy is None ==> script(
            job,
            answers,
        ).len() == if has_directories(job) {
            4int
        } else {
            1
        },
{
    reveal(script);
}

/// Once the Rust code is generated, all its files are written, in order. Then the Dart code is
/// generated, the Rust files are formatted, and the generated module is declared unless the settings
/// say not to. Two temporary files are made, and it is asked which of all symbols to leave out.
pub proof fn rust_files_are_written_and_formatted(
    job: Job,
    answers: AnswersView,
    rust: GeneratedRust,
    files: Vec<TextFile>,
    formatted: Vec<String>,
)
    requires
        has_directories(job),
        has_module_names(job),
        answers.rust == Some(rust),
        call_ensures(write_rust_modules, (&job.config, &job.paths, &rust.code), files),
        call_ensures(rust_paths_to_format, (&job.config,), formatted),
    ensures
        ({
            let whole = script(job, answers);
            let written = 4 + rust_file_count(job.config);
            let temporary = temporary_at(job.config);
            &&& files@.len() == rust_file_count(job.config)
            &&& whole.len() >= temporary + 3
            &&& forall|i: int|
                0 <= i < files@.len() ==> whole[4 + i] == (StepView::WriteText {
                    file: TextFileView {
                        path: (#[trigger] files@[i]).path@,
                        text: files@[i].text@,
                    },
                })
            &&& whole[written] is GenerateDart
            &&& whole[written + 1] is FormatRust
            &&& whole[written + 1]->FormatRust_paths.len() == formatted@.len()
            &&& forall|i: int|
                0 <= i < formatted@.len() ==> whole[written + 1]->FormatRust_paths[i] == (
                #[trigger] formatted@[i])@
            &&& !job.config.skip_add_mod_to_lib ==> whole[written + 2] == (StepView::AddModToLib {
                rust_crate_dir: job.config.rust_crate_dir@,
                rust_output_path: job.config.rust_output_path@,
            })
            &&& whole[temporary] is MakeWireFile
            &&& whole[temporary + 1] == (StepView::MakeHeaderFile { suffix: ".h"@ })
            &&& whole[temporary + 2] is ExcludeSymbols
            &&& whole[temporary + 2]->all_symbols.len() == job.all_symbols@.len()
            &&& forall|i: int|
                0 <= i < job.all_symbols@.len() ==> whole[temporary + 2]->all_symbols[i] == (
                #[trigger] job.all_symbols@[i])@
        }),
{
    reveal(script);
    let whole = script(job, answers);
    let section = rust_section(job, answers);
    let first = opening(job);
    assert(first.len() == 4);
    let expected = rust_files(job.config, job.paths, rust.code);
    let shown = text_files(files@);
    assert(shown == expected);
    assert(shown.len() == files@.len());
    assert forall|i: int| 0 <= i < section.len() implies whole[4 + i] == #[trigger] section[i] by {}
    assert forall|i: int| 0 <= i < files@.len() implies whole[4 + i] == (StepView::WriteText {
        file: TextFileView { path: (#[trigger] files@[i]).path@, text: files@[i].text@ },
    }) by {
        assert(shown[i] == files@[i]@);
        assert(section[i] == (StepView::WriteText { file: expected[i] }));
        assert(whole[4 + i] == section[i]);
    }
    let count = rust_file_count(job.config);
    let paths = texts(formatted@);
    assert(paths == formatted_rust_paths(job.config));
    assert(paths.len() == formatted@.len());
    assert(section[count] is GenerateDart);
    assert(section[count + 1] == (StepView::FormatRust { paths }));
    let declared: int = if job.config.skip_add_mod_to_lib {
        0
    } else {
        1
    };
    if declared == 1 {
        assert(section[count + 2] is AddModToLib);
    }
    assert(section[count + 2 + declared] is MakeWireFile);
    assert(section[count + 3 + declared] == (StepView::MakeHeaderFile { suffix: ".h"@ }));
    assert(section[count + 4 + declared] == (StepView::ExcludeSymbols {
        all_symbols: texts(job.all_symbols@),
    }));
    assert(section.len() == count + 5 + declared);
}

/// Without the file names of the Rust modules no file is written: nothing comes after the generation
/// of the Rust code.
pub proof fn no_rust_file_is_written_without_names(job: Job, answers: AnswersView)
    requires
        has_directories(job),
        !has_module_names(job),
        answers.rust is Some,
        answers.exclude_symbols is None,
        answers.c_dummy is None,
    ensures
        script(job, answers).len() == 4,
        script(job, answers).last() is GenerateRust,
{
    reveal(script);
}

/// Once it is known which symbols to leave out, a temporary crate is made of the manifest and of the
/// native code with the code that binding needs after it. The crate is bound with just the names
/// that were answered and the settings that were given, and dummy code is generated for the
/// functions of the Rust code and then the others.
pub proof fn temporary_crate_is_bound(
    job: Job,
    answers: AnswersView,
    rust: GeneratedRust,
    exclude_symbols: Seq<Seq<char>>,
)
    requires
        has_directories(job),
        has_module_names(job),
        answers.rust == Some(rust),
        answers.exclude_symbols == Some(exclude_symbols),
    ensures
        ({
            let whole = script(job, answers);
            let at = temporary_at(job.config) + 3;
            &&& at + 6 == headers_at(job.config)
            &&& whole.len() >= at + 6
            &&& whole[at] is MakeCrateDir
            &&& whole[at + 1] == (StepView::WriteInCrate {
                file: TextFileView { path: "Cargo.toml"@, text: job.stubs.cargo_toml@ },
            })
            &&& whole[at + 2] == (StepView::CreateDirInCrate { dir: "src"@ })
            &&& whole[at + 3] == (StepView::WriteInCrate {
                file: TextFileView {
                    path: "src/lib.rs"@,
                    text: rust.code.io@ + job.stubs.wire_code@,
                },
            })
            &&& whole[at + 4] is Bindgen
            &&& whole[at + 4]->Bindgen_dart_class_name == job.config.dart_wire_class_name@
            &&& whole[at + 4]->c_struct_names == answers.c_struct_names
            &&& whole[at + 4]->exclude_symbols == exclude_symbols
            &&& whole[at + 4]->llvm_install_path.len() == job.config.llvm_path@.len()
            &&& forall|i: int|
                0 <= i < job.config.llvm_path@.len() ==> whole[at + 4]->llvm_install_path[i] == (
                #[trigger] job.config.llvm_path@[i])@
            &&& whole[at + 4]->llvm_compiler_opts == job.config.llvm_compiler_opts@
            &&& whole[at + 4]->Bindgen_dart_root == job.config.dart_root_or_default@
            &&& whole[at + 5] is GenerateDummy
            &&& whole[at + 5]->func_names.len() == rust.extern_func_names@.len()
                + job.stubs.extern_func_names@.len()
            &&& forall|i: int|
                0 <= i < rust.extern_func_names@.len() ==> whole[at + 5]->func_names[i] == (
                #[trigger] rust.extern_func_names@[i])@
            &&& forall|i: int|
                0 <= i < job.stubs.extern_func_names@.len() ==> whole[at
                    + 5]->func_names[rust.extern_func_names@.len() + i] == (
                #[trigger] job.stubs.extern_func_names@[i])@
        }),
{
    reveal(script);
    let whole = script(job, answers);
    let front = opening(job) + rust_section(job, answers);
    let section = bindgen_section(job, answers);
    rust_section_length(job, answers);
    assert(front.len() == temporary_at(job.config) + 3);
    assert(section.len() == 6);
    assert forall|i: int| 0 <= i < 6 implies whole[front.len() + i] == #[trigger] section[i] by {}
    assert(section[0] is MakeCrateDir);
    assert(section[1] is WriteInCrate);
    assert(section[2] is CreateDirInCrate);
    assert(section[3] is WriteInCrate);
    assert(section[4] is Bindgen);
    assert(section[5] is GenerateDummy);
}

proof fn rust_section_length(job: Job, answers: AnswersView)
    requires
        has_directories(job),
        has_module_names(job),
        answers.rust is Some,
    ensures
        opening(job).len() + rust_section(job, answers).len() == temporary_at(job.config) + 3,
        rust_section(job, answers).len() > 0,
{
}

proof fn header_length(job: Job, answers: AnswersView, count: int)
    requires
        has_header_directories(job, count),
        count <= answers.headers.len(),
    ensures
        headers_up_to(job, answers, count).len() == 4 * count,
        forall|i: int|
            0 <= i < count ==> #[trigger] headers_up_to(job, answers, count)[4 * i]
                == one_header(job, answers, i)[0],
        forall|i: int|
            0 <= i < count ==> #[trigger] headers_up_to(job, answers, count)[4 * i + 1]
                == one_header(job, answers, i)[1],
        forall|i: int|
            0 <= i < count ==> #[trigger] headers_up_to(job, answers, count)[4 * i + 2]
                == one_header(job, answers, i)[2],
        forall|i: int|
            0 <= i < count ==> #[trigger] headers_up_to(job, answers, count)[4 * i + 3]
                == one_header(job, answers, i)[3],
    decreases count,
{
    if count > 0 {
        assert(job.paths.c_output_dirs@[count - 1] is Some);
        header_length(job, answers, count - 1);
        let earlier = headers_up_to(job, answers, count - 1);
        let last = one_header(job, answers, count - 1);
        assert(last.len() == 4);
        let all = headers_up_to(job, answers, count);
        assert(all == earlier + last);
        assert forall|i: int, k: int| 0 <= i < count && 0 <= k < 4 implies #[trigger] all[4 * i + k]
            == one_header(job, answers, i)[k] by {
            if i < count - 1 {
                assert(all[4 * i + k] == earlier[4 * i + k]);
                assert(earlier[4 * i] == one_header(job, answers, i)[0]);
                assert(earlier[4 * i + 1] == one_header(job, answers, i)[1]);
                assert(earlier[4 * i + 2] == one_header(job, answers, i)[2]);
                assert(earlier[4 * i + 3] == one_header(job, answers, i)[3]);
            } else {
                assert(all[4 * i + k] == last[k]);
            }
        }
        assert forall|i: int| 0 <= i < count implies #[trigger] all[4 * i] == one_header(
            job,
            answers,
            i,
        )[0] by {
            assert(all[4 * i + 0] == one_header(job, answers, i)[0]);
        }
    }
}

/// Each C header is announced, gets its directory, and is written to its own path: the text that was
/// read for it, a line feed, and the dummy code. The headers come in order, after the dummy code was
/// generated.
pub proof fn headers_are_written(
    job: Job,
    answers: AnswersView,
    c_dummy: Seq<char>,
    count: int,
    i: int,
)
    requires
        has_directories(job),
        has_module_names(job),
        has_header_directories(job, count),
        answers.rust is Some,
        answers.exclude_symbols is Some,
        answers.c_dummy == Some(c_dummy),
        answers.headers.len() == count,
        0 <= i < count,
    ensures
        ({
            let whole = script(job, answers);
            let at = headers_at(job.config) + 4 * i;
            let path = job.config.c_output_path@[i]@;
            &&& whole.len() >= at + 4
            &&& whole[at] == (StepView::AnnounceHeader { path })
            &&& whole[at + 1] == (StepView::CreateDirAll {
                dir: job.paths.c_output_dirs@[i]->0@,
            })
            &&& whole[at + 2] is ReadHeader
            &&& whole[at + 3] == (StepView::WriteText {
                file: TextFileView { path, text: answers.headers[i] + "\n"@ + c_dummy },
            })
        }),
{
    reveal(script);
    let whole = script(job, answers);
    let front = opening(job) + rust_section(job, answers) + bindgen_section(job, answers);
    rust_section_length(job, answers);
    assert(front.len() == headers_at(job.config));
    header_length(job, answers, count);
    let read = headers_up_to(job, answers, count);
    let section = header_section(job, answers);
    if count < job.config.c_output_path@.len() {
        assert(section == read + one_header(job, answers, count));
    }
    assert(job.paths.c_output_dirs@[i] is Some);
    assert forall|k: int| 0 <= k < read.len() implies whole[front.len() + k] == #[trigger] read[k] by {
        assert(section[k] == read[k]);
    }
    assert(read[4 * i] == one_header(job, answers, i)[0]);
    assert(read[4 * i + 1] == one_header(job, answers, i)[1]);
    assert(read[4 * i + 2] == one_header(job, answers, i)[2]);
    assert(read[4 * i + 3] == one_header(job, answers, i)[3]);
}

/// A C header without a directory is announced, and nothing comes after that. The headers before it
/// are written.
pub proof fn header_without_directory_is_announced(job: Job, answers: AnswersView)
    requires
        has_directories(job),
        has_module_names(job),
        has_header_directories(job, answers.headers.len() as int),
        answers.rust is Some,
        answers.exclude_symbols is Some,
        answers.c_dummy is Some,
        answers.headers.len() < job.config.c_output_path@.len(),
        job.paths.c_output_dirs@[answers.headers.len() as int] is None,
        answers.import is None,
    ensures
        script(job, answers).len() == headers_at(job.config) + 4 * answers.headers.len() + 1,
        script(job, answers).last() == (StepView::AnnounceHeader {
            path: job.config.c_output_path@[answers.headers.len() as int]@,
        }),
{
    reveal(script);
    let count = answers.headers.len() as int;
    let front = opening(job) + rust_section(job, answers) + bindgen_section(job, answers);
    rust_section_length(job, answers);
    header_length(job, answers, count);
    assert(job.paths.lacks_header_dir(count));
    assert(header_section(job, answers) == headers_up_to(job, answers, count) + one_header(
        job,
        answers,
        count,
    ));
    assert(script(job, answers) =~= front + header_section(job, answers));
}

proof fn front_of_the_dart_files(job: Job, answers: AnswersView)
    requires
        has_directories(job),
        has_module_names(job),
        has_header_directories(job, job.config.c_output_path@.len() as int),
        answers.rust is Some,
        answers.exclude_symbols is Some,
        answers.c_dummy is Some,
        answers.headers.len() == job.config.c_output_path@.len(),
    ensures
        script(job, answers).len() == wire_at(job.config) + dart_section(job, answers).len()
            + end_section(job, answers).len(),
        forall|i: int|
            0 <= i < dart_section(job, answers).len() ==> script(job, answers)[wire_at(job.config)
                + i] == #[trigger] dart_section(job, answers)[i],
        forall|i: int|
            0 <= i < end_section(job, answers).len() ==> script(job, answers)[wire_at(job.config)
                + dart_section(job, answers).len() + i] == #[trigger] end_section(job, answers)[i],
        dart_section(job, answers).len() >= 3,
{
    reveal(script);
    rust_section_length(job, answers);
    header_length(job, answers, job.config.c_output_path@.len() as int);
    let front = opening(job) + rust_section(job, answers) + bindgen_section(job, answers)
        + header_section(job, answers);
    assert(front.len() == wire_at(job.config));
}

/// Once every C header is read for, the directory of the Dart file is created, and the wrapper class
/// of the native symbols is read and checked, under its own name. Where an import cannot be told,
/// nothing comes after the check.
pub proof fn wrapper_class_is_checked(job: Job, answers: AnswersView)
    requires
        has_directories(job),
        has_module_names(job),
        has_header_directories(job, job.config.c_output_path@.len() as int),
        answers.rust is Some,
        answers.exclude_symbols is Some,
        answers.c_dummy is Some,
        answers.headers.len() == job.config.c_output_path@.len(),
    ensures
        ({
            let whole = script(job, answers);
            let at = wire_at(job.config);
            &&& whole.len() >= at + 3
            &&& whole[at] == (StepView::CreateDirAll { dir: job.paths.dart_output_dir->0@ })
            &&& whole[at + 1] == (StepView::ReadWire {
                dart_class_name: job.config.dart_wire_class_name@,
            })
            &&& whole[at + 2] == (StepView::CheckWire {
                dart_class_name: job.config.dart_wire_class_name@,
            })
            &&& !has_import_names(job) ==> whole.len() == at + 3
        }),
{
    front_of_the_dart_files(job, answers);
    let dart = dart_section(job, answers);
    assert(dart[0] is CreateDirAll);
    assert(dart[1] is ReadWire);
    assert(dart[2] is CheckWire);
}

/// Where the declarations are apart, or web targets are generated for, every Dart file is written,
/// in order, right after the check.
pub proof fn dart_files_are_written(job: Job, answers: AnswersView, files: Vec<DartFile>, i: int)
    requires
        has_directories(job),
        has_module_names(job),
        has_header_directories(job, job.config.c_output_path@.len() as int),
        has_import_names(job),
        answers.rust is Some,
        answers.exclude_symbols is Some,
        answers.c_dummy is Some,
        answers.headers.len() == job.config.c_output_path@.len(),
        match job.config.dart_decl_output_path {
            Some(decl_path) => exists|path: &str|
                path@ == decl_path@ && #[trigger] call_ensures(
                    write_dart_decls,
                    (&job.config, &job.paths, path),
                    files,
                ),
            None => job.config.wasm_enabled && call_ensures(
                write_dart_with_web,
                (&job.config,),
                files,
            ),
        },
        0 <= i < files@.len(),
    ensures
        files@.len() == dart_file_steps(job.config),
        script(job, answers).len() >= end_at(job.config),
        script(job, answers)[wire_at(job.config) + 3 + i] is WriteDart,
        ({
            let written = script(job, answers)[wire_at(job.config) + 3 + i]->dart_file;
            &&& written.path == files@[i].path@
            &&& written.parts.len() == files@[i].parts@.len()
            &&& forall|k: int|
                0 <= k < files@[i].parts@.len() ==> written.parts[k] == (
                #[trigger] files@[i].parts@[k])@
        }),
{
    front_of_the_dart_files(job, answers);
    let dart = dart_section(job, answers);
    let expected = all_dart_files(job.config, job.paths);
    let shown = dart_files(files@);
    assert(shown == expected);
    assert(shown.len() == files@.len());
    assert(dart.len() == 3 + expected.len());
    assert(dart[3 + i] == (StepView::WriteDart { dart_file: expected[i] }));
    assert(shown[i] == files@[i]@);
    assert(expected[i].parts == dart_parts(files@[i].parts@));
    assert(dart_parts(files@[i].parts@).len() == files@[i].parts@.len());
}

/// Where everything goes into one Dart file, its parts are put together right after the check, and
/// the whole is written to the path of that file, with an import section that has every line of the
/// old one once, in the order in which they first occur.
pub proof fn one_dart_file_is_written(
    job: Job,
    answers: AnswersView,
    import: Seq<char>,
    parts: Vec<DartPart>,
)
    requires
        has_directories(job),
        has_module_names(job),
        has_header_directories(job, job.config.c_output_path@.len() as int),
        has_one_dart_file(job.config),
        answers.rust is Some,
        answers.exclude_symbols is Some,
        answers.c_dummy is Some,
        answers.headers.len() == job.config.c_output_path@.len(),
        answers.import == Some(import),
        call_ensures(single_dart_parts, (), parts),
    ensures
        ({
            let whole = script(job, answers);
            let at = wire_at(job.config) + 3;
            &&& whole.len() >= at + 2
            &&& whole[at] is JoinDart
            &&& whole[at]->parts.len() == parts@.len()
            &&& forall|k: int|
                0 <= k < parts@.len() ==> whole[at]->parts[k] == (#[trigger] parts@[k])@
            &&& whole[at + 1] == (StepView::WriteJoined {
                path: job.config.dart_output_path@,
                import: joined(first_occurrences(lines_of(import)), "\n"@),
            })
        }),
{
    front_of_the_dart_files(job, answers);
    nothing_is_missing(job);
    let dart = dart_section(job, answers);
    let end = end_section(job, answers);
    let shown = dart_parts(parts@);
    assert(shown == single_parts());
    assert(shown.len() == parts@.len());
    assert(dart.len() == 4);
    assert(dart[3] == (StepView::JoinDart { parts: single_parts() }));
    assert(end[0] is WriteJoined);
}

proof fn nothing_is_missing(job: Job)
    requires
        has_directories(job),
        has_module_names(job),
        has_header_directories(job, job.config.c_output_path@.len() as int),
        has_import_names(job),
    ensures
        job.paths.lack_nothing(job.config),
{
    assert forall|i: int| 0 <= i < job.paths.c_output_dirs@.len() implies !(
    #[trigger] job.paths.lacks_header_dir(i)) by {
        assert(job.paths.c_output_dirs@[i] is Some);
    }
}

/// No part of a path is missing that is needed, and all answers are in.
pub open spec fn has_all(job: Job, answers: AnswersView) -> bool {
    &&& has_directories(job)
    &&& has_module_names(job)
    &&& has_header_directories(job, job.config.c_output_path@.len() as int)
    &&& has_import_names(job)
    &&& answers.rust is Some
    &&& answers.exclude_symbols is Some
    &&& answers.c_dummy is Some
    &&& answers.headers.len() == job.config.c_output_path@.len()
    &&& has_one_dart_file(job.config) ==> answers.import is Some
}

/// After the Dart files comes the formatting of all of them, at the line length that is set, and
/// nothing else, but for the builders before it where they are to be run. Where these are to be run
/// and the root of the Dart package is unknown, nothing comes after the Dart files.
pub proof fn script_ends_with_the_formatting(
    job: Job,
    answers: AnswersView,
    formatted: Vec<String>,
)
    requires
        has_all(job, answers),
        call_ensures(dart_paths_to_format, (&job.config, answers.needs_freezed), formatted),
    ensures
        ({
            let whole = script(job, answers);
            let at = end_at(job.config);
            let builders: int = if needs_builders(job, answers) {
                1
            } else {
                0
            };
            if builders == 1 && job.config.dart_root is None {
                whole.len() == at
            } else {
                &&& whole.len() == at + builders + 1
                &&& builders == 1 ==> whole[at] == (StepView::BuildRunner {
                    dart_root: job.config.dart_root->0@,
                })
                &&& whole.last() is FormatDart
                &&& whole.last()->line_length == job.config.dart_format_line_length
                &&& whole.last()->FormatDart_paths.len() == formatted@.len()
                &&& forall|i: int|
                    0 <= i < formatted@.len() ==> whole.last()->FormatDart_paths[i] == (
                    #[trigger] formatted@[i])@
            }
        }),
{
    front_of_the_dart_files(job, answers);
    nothing_is_missing(job);
    let whole = script(job, answers);
    let dart = dart_section(job, answers);
    let end = end_section(job, answers);
    let paths = texts(formatted@);
    assert(paths == formatted_dart_paths(job.config, answers.needs_freezed));
    assert(paths.len() == formatted@.len());
    let one: int = if has_one_dart_file(job.config) {
        1
    } else {
        0
    };
    assert(dart.len() + one == 3 + dart_file_steps(job.config));
    assert(end.skip(one) =~= closing(job, answers));
    if end.len() > one {
        assert(end.last() == closing(job, answers).last());
        assert(whole.last() == end[end.len() - 1]);
        assert(end[one] == closing(job, answers)[0]);
    }
}

proof fn early_steps_build_nothing(job: Job, answers: AnswersView, i: int)
    requires
        has_all(job, answers),
        0 <= i < wire_at(job.config) + 3,
    ensures
        i < script(job, answers).len(),
        !(script(job, answers)[i] is BuildRunner),
        !(script(job, answers)[i] is FormatDart),
        !(script(job, answers)[i] is WriteDart),
        !(script(job, answers)[i] is WriteJoined),
{
    let whole = script(job, answers);
    let rust = answers.rust->0;
    wrapper_class_is_checked(job, answers);
    script_starts_with_the_tools(job, answers);
    reveal(script);
    rust_section_length(job, answers);
    let first = opening(job);
    let section = rust_section(job, answers);
    let binding = bindgen_section(job, answers);
    let count = job.config.c_output_path@.len() as int;
    if i < first.len() {
        assert(whole[i] == first[i]);
    } else if i < first.len() + section.len() {
        assert(whole[i] == section[i - first.len()]);
    } else if i < headers_at(job.config) {
        assert(whole[i] == binding[i - first.len() - section.len()]);
    } else if i < wire_at(job.config) {
        let place = i - headers_at(job.config);
        let header = place / 4;
        headers_are_written(job, answers, answers.c_dummy->0, count, header);
        let at = headers_at(job.config) + 4 * header;
        assert(i == at || i == at + 1 || i == at + 2 || i == at + 3);
    } else {
        let at = wire_at(job.config);
        assert(i == at || i == at + 1 || i == at + 2);
    }
}

/// The builders are run, once, exactly where the Dart code needs them and they are not switched off:
/// in the root of the Dart package, after every Dart file is written, and before any is formatted.
pub proof fn builders_run_where_needed(job: Job, answers: AnswersView)
    requires
        has_all(job, answers),
        needs_builders(job, answers) ==> job.config.dart_root is Some,
    ensures
        needs_builders(job, answers) <==> exists|i: int|
            0 <= i < script(job, answers).len() && #[trigger] script(job, answers)[i] is BuildRunner,
        forall|i: int|
            0 <= i < script(job, answers).len() && #[trigger] script(job, answers)[i] is BuildRunner
                ==> {
                &&& script(job, answers)[i] == (StepView::BuildRunner {
                    dart_root: job.config.dart_root->0@,
                })
                &&& i == script(job, answers).len() - 2
            },
        forall|i: int|
            0 <= i < script(job, answers).len() && #[trigger] script(job, answers)[i] is FormatDart
                ==> i == script(job, answers).len() - 1,
        forall|i: int|
            0 <= i < script(job, answers).len() && (#[trigger] script(job, answers)[i] is WriteDart
                || script(job, answers)[i] is WriteJoined) ==> i < end_at(job.config),
        script(job, answers).len() > end_at(job.config),
{
    let whole = script(job, answers);
    let dart = dart_section(job, answers);
    let end = end_section(job, answers);
    front_of_the_dart_files(job, answers);
    nothing_is_missing(job);
    let one: int = if has_one_dart_file(job.config) {
        1
    } else {
        0
    };
    let middle = wire_at(job.config) + dart.len();
    assert(dart.len() + one == 3 + dart_file_steps(job.config));
    assert(end.skip(one) =~= closing(job, answers));
    if one == 1 {
        assert(end[0] is WriteJoined);
    }
    assert(whole[middle + one] == end[one]);
    assert(end[one] == closing(job, answers)[0]);
    if needs_builders(job, answers) {
        assert(whole[middle + one + 1] == end[one + 1]);
        assert(end[one + 1] == closing(job, answers)[1]);
        assert(whole[end_at(job.config)] is BuildRunner);
    }
    assert forall|i: int| 0 <= i < end_at(job.config) implies !(#[trigger] whole[i] is BuildRunner)
        && !(whole[i] is FormatDart) by {
        if i < wire_at(job.config) + 3 {
            early_steps_build_nothing(job, answers, i);
        } else if i < middle {
            assert(whole[i] == dart[i - wire_at(job.config)]);
        } else {
            assert(whole[i] == end[i - middle]);
        }
    }
}

/// The list of steps has the script, step by step.
pub proof fn steps_are_the_script(job: Job, answers: Answers, list: Vec<Step>)
    requires
        call_ensures(make_script, (&job, &answers), list),
    ensures
        list@.len() == script(job, answers@).len(),
        forall|i: int| 0 <= i < list@.len() ==> (#[trigger] list@[i])@ == script(job, answers@)[i],
{
    let shown = steps(list@);
    assert(shown.len() == list@.len());
    assert forall|i: int| 0 <= i < list@.len() implies (#[trigger] list@[i])@ == script(
        job,
        answers@,
    )[i] by {
        assert(shown[i] == list@[i]@);
    }
}

} // verus!
