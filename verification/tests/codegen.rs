use flutter_rust_bridge::codegen::{
    dart_root_unknown_message, frb_codegen, CodegenError, CodegenRun, Progress, Reply,
};
use flutter_rust_bridge::codegen_all::{frb_codegen_all, AllProgress};
use flutter_rust_bridge::config::{Opts, OutputPaths};
use flutter_rust_bridge::dart_output::{
    dart_paths_to_format, write_dart_decls, write_dart_with_web, DartFile, DartPart,
};
use flutter_rust_bridge::paths::output_paths;
use flutter_rust_bridge::rust_output::{rust_paths_to_format, write_rust_modules, RustCode};
use flutter_rust_bridge::steps::{BindgenStubs, GeneratedRust, Job, Step};

fn text(s: &str) -> String {
    s.to_string()
}

fn some(s: &str) -> Option<String> {
    Some(text(s))
}

fn opts() -> Opts {
    Opts {
        rust_crate_dir: text("rust"),
        rust_output_path: text("rust/src/bridge.rs"),
        rust_io_output_path: text("rust/src/bridge.io.rs"),
        rust_wasm_output_path: text("rust/src/bridge.web.rs"),
        dart_output_path: text("lib/bridge.dart"),
        dart_io_output_path: text("lib/bridge.io.dart"),
        dart_wasm_output_path: text("lib/bridge.web.dart"),
        dart_decl_output_path: None,
        dart_freezed_path: text("lib/bridge.freezed.dart"),
        dart_root: Some(text(".")),
        dart_root_or_default: text("."),
        dart_wire_class_name: text("BridgeWire"),
        dart_format_line_length: 120,
        c_output_path: vec![],
        llvm_path: vec![text("/llvm")],
        llvm_compiler_opts: text("-I/x"),
        skip_deps_check: false,
        skip_add_mod_to_lib: false,
        wasm_enabled: false,
        inline_rust: true,
        build_runner: true,
    }
}

fn code() -> RustCode {
    RustCode { common: text("COMMON"), io: text("IO"), wasm: text("WASM") }
}

fn stubs() -> BindgenStubs {
    BindgenStubs {
        cargo_toml: text("[package]"),
        wire_code: text("DUMMY"),
        extern_func_names: vec![text("store")],
    }
}

fn paths(config: &Opts) -> OutputPaths {
    output_paths(config)
}

fn part_name(part: &DartPart) -> String {
    match part {
        DartPart::FilePrelude => text("prelude"),
        DartPart::DeclAll => text("decl"),
        DartPart::ImplCommon => text("common"),
        DartPart::ImplIoWire => text("io"),
        DartPart::ImplWasm => text("wasm"),
        DartPart::Import(import) => import.clone(),
    }
}

fn shape(files: &[DartFile]) -> Vec<(String, Vec<String>)> {
    files
        .iter()
        .map(|file| (file.path.clone(), file.parts.iter().map(part_name).collect()))
        .collect()
}

fn expect(files: Vec<DartFile>, expected: &[(&str, &[&str])]) {
    let expected: Vec<(String, Vec<String>)> = expected
        .iter()
        .map(|(path, parts)| (text(path), parts.iter().map(|part| text(part)).collect()))
        .collect();
    assert_eq!(shape(&files), expected);
}

#[test]
fn paths_are_taken_apart() {
    let mut config = opts();
    config.inline_rust = false;
    config.wasm_enabled = true;
    config.dart_decl_output_path = Some(text("lib/src/decl.dart"));
    config.c_output_path = vec![text("ios/a.h"), text("b.h")];
    let paths = paths(&config);
    assert_eq!(paths.rust_output_dir, some("rust/src"));
    assert_eq!(paths.dart_output_dir, some("lib"));
    assert_eq!(paths.c_output_dirs, vec![some("ios"), some("")]);
    assert_eq!(paths.rust_io_file, some("bridge.io.rs"));
    assert_eq!(paths.rust_wasm_file, some("bridge.web.rs"));
    assert_eq!(paths.dart_io_file, some("bridge.io.dart"));
    assert_eq!(paths.dart_wasm_file, some("bridge.web.dart"));
    assert_eq!(
        paths.dart_decl_import,
        Some(text("src/decl.dart").replace('/', std::path::MAIN_SEPARATOR_STR))
    );
    assert!(paths.are_whole(&config));
}

#[test]
fn names_that_nothing_calls_for_are_left_out() {
    let mut config = opts();
    config.rust_io_output_path = text("..");
    config.dart_io_output_path = text("");
    let paths = paths(&config);
    assert_eq!(paths.rust_io_file, None);
    assert_eq!(paths.dart_io_file, None);
    assert_eq!(paths.dart_decl_import, None);
    assert!(paths.are_whole(&config));
}

/// The generation of `config` ends after the step `last` for want of a part of a path, and every
/// step before that can still fail.
fn breaks_off_after(config: Opts, last: &str) {
    assert!(!output_paths(&config).are_whole(&config));
    let (seen, outcome) = run(config.clone(), true, None);
    assert!(matches!(outcome, Err(CodegenError::PathLacksPart)));
    assert_eq!(seen.last().unwrap(), last);
    for at in 0..seen.len() {
        let (some_seen, outcome) = run(config.clone(), true, Some(at));
        assert_eq!(some_seen, seen[..at + 1]);
        assert!(matches!(outcome, Err(CodegenError::Step(error)) if error == "failed"));
    }
}

#[test]
fn a_missing_output_directory_shows_after_the_tools() {
    let mut config = opts();
    config.rust_output_path = text("");
    breaks_off_after(config, "tools . false");
    let mut config = opts();
    config.dart_output_path = text("/");
    config.c_output_path = vec![text("")];
    breaks_off_after(config, "tools . false");
}

#[test]
fn a_missing_module_file_shows_when_rust_is_written() {
    let mut config = opts();
    config.inline_rust = false;
    config.rust_io_output_path = text("..");
    breaks_off_after(config, "rust");
    let mut config = opts();
    config.inline_rust = false;
    config.rust_wasm_output_path = text("");
    assert!(run(config.clone(), true, None).1.is_ok());
    config.wasm_enabled = true;
    breaks_off_after(config, "rust");
}

#[test]
fn a_missing_header_directory_shows_when_the_header_is_due() {
    let mut config = opts();
    config.c_output_path = vec![text("")];
    breaks_off_after(config, "header ");
    let mut config = opts();
    config.c_output_path = vec![text("ios/a.h"), text("/"), text("b.h")];
    breaks_off_after(config.clone(), "header /");
    assert!(run(config, true, None).0.contains(&text("write ios/a.h")));
}

#[test]
fn a_missing_import_shows_when_dart_is_written() {
    let mut config = opts();
    config.dart_output_path = text("../lib/bridge.dart");
    config.dart_decl_output_path = Some(text("decl.dart"));
    breaks_off_after(config, "check wire BridgeWire");
    let mut config = opts();
    config.dart_decl_output_path = Some(text("lib/decl.dart"));
    config.dart_wasm_output_path = text("..");
    assert!(run(config.clone(), true, None).1.is_ok());
    config.wasm_enabled = true;
    breaks_off_after(config, "check wire BridgeWire");
}

#[test]
fn inline_rust_is_one_file() {
    let config = opts();
    let files = write_rust_modules(&config, &paths(&config), &code());
    assert_eq!(files.len(), 1);
    assert_eq!(files[0].path, "rust/src/bridge.rs");
    assert_eq!(
        files[0].text,
        "COMMON\n\n\n#[cfg(not(target_family = \"wasm\"))]\nmod io { use super::*;\n IO }\n#[cfg(not(target_family = \"wasm\"))]\npub use io::*;\n"
    );
}

#[test]
fn inline_rust_has_the_web_module() {
    let mut config = opts();
    config.wasm_enabled = true;
    let files = write_rust_modules(&config, &paths(&config), &code());
    assert_eq!(files.len(), 1);
    assert_eq!(
        files[0].text,
        "COMMON\n\n/// cbindgen:ignore\n#[cfg(target_family = \"wasm\")]\nmod web { use super::*;\n WASM }\n#[cfg(target_family = \"wasm\")]\npub use web::*;\n\n#[cfg(not(target_family = \"wasm\"))]\nmod io { use super::*;\n IO }\n#[cfg(not(target_family = \"wasm\"))]\npub use io::*;\n"
    );
}

#[test]
fn separate_rust_modules_have_their_files() {
    let mut config = opts();
    config.inline_rust = false;
    config.wasm_enabled = true;
    let files = write_rust_modules(&config, &paths(&config), &code());
    assert_eq!(files.len(), 3);
    assert!(files[0].text.contains("#[path = \"bridge.io.rs\"] mod io;"));
    assert!(files[0].text.contains("#[path = \"bridge.web.rs\"] mod web;"));
    assert_eq!((files[1].path.as_str(), files[1].text.as_str()), ("rust/src/bridge.io.rs", "use super::*;\nIO"));
    assert_eq!((files[2].path.as_str(), files[2].text.as_str()), ("rust/src/bridge.web.rs", "use super::*;\nWASM"));
    let formatted = rust_paths_to_format(&config);
    let written: Vec<String> = files.iter().map(|file| file.path.clone()).collect();
    assert_eq!(formatted, written);
}

#[test]
fn a_separate_native_module_alone_is_not_formatted() {
    let mut config = opts();
    config.inline_rust = false;
    let files = write_rust_modules(&config, &paths(&config), &code());
    assert_eq!(files.len(), 2);
    assert_eq!(rust_paths_to_format(&config), vec!["rust/src/bridge.rs"]);
}

#[test]
fn declarations_stand_apart() {
    let mut config = opts();
    config.dart_decl_output_path = Some(text("lib/decl.dart"));
    let files = write_dart_decls(&config, &paths(&config), "lib/decl.dart");
    let import = "import \"decl.dart\";";
    expect(
        files,
        &[
            ("lib/decl.dart", &["prelude", "", "decl"]),
            ("lib/bridge.dart", &["prelude", import, "common", "io"]),
        ],
    );
}

#[test]
fn declarations_stand_apart_with_web_targets() {
    let mut config = opts();
    config.wasm_enabled = true;
    config.dart_decl_output_path = Some(text("lib/decl.dart"));
    let files = write_dart_decls(&config, &paths(&config), "lib/decl.dart");
    let import = "import \"decl.dart\";";
    let common = "import 'bridge.io.dart' if (dart.library.html) 'bridge.web.dart';";
    expect(
        files,
        &[
            ("lib/decl.dart", &["prelude", common, "decl"]),
            ("lib/bridge.dart", &["prelude", import, "common"]),
            ("lib/bridge.io.dart", &["prelude", import, "io"]),
            ("lib/bridge.web.dart", &["prelude", import, "wasm"]),
        ],
    );
    assert_eq!(
        dart_paths_to_format(&config, true),
        vec![
            "lib/bridge.dart",
            "lib/decl.dart",
            "lib/bridge.web.dart",
            "lib/bridge.io.dart",
            "lib/bridge.freezed.dart",
        ]
    );
}

#[test]
fn declarations_stand_with_the_common_code() {
    let mut config = opts();
    config.wasm_enabled = true;
    expect(
        write_dart_with_web(&config),
        &[
            ("lib/bridge.dart", &["prelude", "decl", "common"]),
            ("lib/bridge.io.dart", &["prelude", "io"]),
            ("lib/bridge.web.dart", &["prelude", "wasm"]),
        ],
    );
    assert_eq!(dart_paths_to_format(&opts(), false), vec!["lib/bridge.dart"]);
}

fn step_name(step: &Step) -> String {
    match step {
        Step::EnsureTools { dart_root, skip_deps_check } => {
            format!("tools {} {}", dart_root, skip_deps_check)
        }
        Step::ParseSource => text("parse"),
        Step::CreateDirAll { dir } => format!("mkdir {}", dir),
        Step::GenerateRust => text("rust"),
        Step::WriteText { file } => format!("write {}", file.path),
        Step::GenerateDart => text("dart"),
        Step::FormatRust { paths } => format!("rustfmt {}", paths.join(" ")),
        Step::AddModToLib { rust_crate_dir, rust_output_path } => {
            format!("mod {} {}", rust_crate_dir, rust_output_path)
        }
        Step::MakeWireFile => text("wire file"),
        Step::MakeHeaderFile { suffix } => format!("header file {}", suffix),
        Step::ExcludeSymbols { all_symbols } => format!("exclude {}", all_symbols.join(" ")),
        Step::MakeCrateDir => text("crate"),
        Step::WriteInCrate { file } => format!("crate {} {}", file.path, file.text),
        Step::CreateDirInCrate { dir } => format!("crate dir {}", dir),
        Step::Bindgen { dart_class_name, c_struct_names, exclude_symbols, llvm_install_path, llvm_compiler_opts, dart_root } => {
            format!(
                "bindgen {} {} {} {} {} {}",
                dart_class_name,
                c_struct_names.join(","),
                exclude_symbols.join(","),
                llvm_install_path.join(","),
                llvm_compiler_opts,
                dart_root
            )
        }
        Step::GenerateDummy { func_names } => format!("dummy {}", func_names.join(" ")),
        Step::AnnounceHeader { path } => format!("header {}", path),
        Step::ReadHeader => text("read header"),
        Step::ReadWire { dart_class_name } => format!("read wire {}", dart_class_name),
        Step::CheckWire { dart_class_name } => format!("check wire {}", dart_class_name),
        Step::WriteDart { dart_file } => format!("dart {}", dart_file.path),
        Step::JoinDart { parts } => {
            let names: Vec<String> = parts.iter().map(part_name).collect();
            format!("join {}", names.join(" "))
        }
        Step::WriteJoined { path, import } => format!("joined {} {}", path, import),
        Step::BuildRunner { dart_root } => format!("build {}", dart_root),
        Step::FormatDart { line_length, paths } => {
            format!("dartfmt {} {}", line_length, paths.join(" "))
        }
    }
}

fn answer(step: &Step, freezed: bool) -> Reply<String> {
    match step {
        Step::ParseSource => Reply::Names(vec![text("wire_a"), text("wire_b")]),
        Step::GenerateRust => Reply::Rust(GeneratedRust {
            code: code(),
            extern_func_names: vec![text("f"), text("g")],
        }),
        Step::GenerateDart => Reply::Dart { needs_freezed: freezed },
        Step::ExcludeSymbols { .. } => Reply::Names(vec![text("s1")]),
        Step::GenerateDummy { .. } => Reply::Text(text("DUMMY_C")),
        Step::ReadHeader => Reply::Text(text("HEADER")),
        Step::JoinDart { .. } => Reply::Text(text("import 'a';\nimport 'b';\nimport 'a';")),
        _ => Reply::Done,
    }
}

fn run(
    config: Opts,
    freezed: bool,
    fail_at: Option<usize>,
) -> (Vec<String>, Result<(), CodegenError<String>>) {
    let mut seen: Vec<String> = Vec::new();
    let mut current = frb_codegen(config, stubs(), vec![text("s1"), text("s2")]);
    loop {
        let reply = if fail_at == Some(seen.len()) {
            Reply::Failed(text("failed"))
        } else {
            answer(current.pending(), freezed)
        };
        seen.push(step_name(current.pending()));
        match current.reply(reply) {
            Progress::Running(next) => current = next,
            Progress::Finished(outcome) => return (seen, outcome),
        }
    }
}

const SINGLE: [&str; 24] = [
    "tools . false",
    "parse",
    "mkdir rust/src",
    "rust",
    "write rust/src/bridge.rs",
    "dart",
    "rustfmt rust/src/bridge.rs",
    "mod rust rust/src/bridge.rs",
    "wire file",
    "header file .h",
    "exclude s1 s2",
    "crate",
    "crate Cargo.toml [package]",
    "crate dir src",
    "crate src/lib.rs IODUMMY",
    "bindgen BridgeWire wire_a,wire_b s1 /llvm -I/x .",
    "dummy f g store",
    "mkdir lib",
    "read wire BridgeWire",
    "check wire BridgeWire",
    "join prelude decl common io",
    "joined lib/bridge.dart import 'a';\nimport 'b';",
    "build .",
    "dartfmt 120 lib/bridge.dart lib/bridge.freezed.dart",
];

#[test]
fn a_generation_does_its_steps_in_order() {
    let (seen, outcome) = run(opts(), true, None);
    assert_eq!(seen, SINGLE);
    assert!(outcome.is_ok());
}

#[test]
fn a_failed_step_is_the_last() {
    for at in 0..SINGLE.len() {
        let (seen, outcome) = run(opts(), true, Some(at));
        assert_eq!(seen, SINGLE[..at + 1]);
        assert!(matches!(outcome, Err(CodegenError::Step(error)) if error == "failed"));
    }
}

#[test]
fn builders_run_only_where_needed() {
    let (seen, outcome) = run(opts(), false, None);
    assert!(outcome.is_ok());
    assert_eq!(seen.last().unwrap(), "dartfmt 120 lib/bridge.dart");
    assert!(!seen.iter().any(|step| step.starts_with("build")));
    let mut config = opts();
    config.build_runner = false;
    config.dart_root = None;
    let (seen, outcome) = run(config, true, None);
    assert!(outcome.is_ok());
    assert_eq!(seen.last().unwrap(), "dartfmt 120 lib/bridge.dart");
}

#[test]
fn builders_need_the_dart_root() {
    let mut config = opts();
    config.dart_root = None;
    let (seen, outcome) = run(config, true, None);
    assert!(matches!(outcome, Err(CodegenError::DartRootUnknown)));
    assert_eq!(seen, SINGLE[..22]);
    assert_eq!(
        dart_root_unknown_message(),
        "build_runner configured to run, but Dart root could not be inferred.\n        Please specify --dart-root, or disable build_runner with --no-build-runner."
    );
}

#[test]
fn every_header_gets_the_dummy_code() {
    let mut config = opts();
    config.c_output_path = vec![text("ios/a.h"), text("macos/b.h")];
    config.skip_add_mod_to_lib = true;
    let (seen, outcome) = run(config, true, None);
    assert!(outcome.is_ok());
    assert!(!seen.iter().any(|step| step.starts_with("mod ")));
    let at = seen.iter().position(|step| step == "dummy f g store").unwrap();
    assert_eq!(
        seen[at + 1..at + 10],
        [
            "header ios/a.h",
            "mkdir ios",
            "read header",
            "write ios/a.h",
            "header macos/b.h",
            "mkdir macos",
            "read header",
            "write macos/b.h",
            "mkdir lib",
        ]
    );
}

#[test]
fn a_header_is_followed_by_the_dummy_code() {
    let mut config = opts();
    config.c_output_path = vec![text("ios/a.h")];
    let mut current = frb_codegen(config, stubs(), vec![]);
    loop {
        if let Step::WriteText { file } = current.pending() {
            if file.path == "ios/a.h" {
                assert_eq!(file.text, "HEADER\nDUMMY_C");
                return;
            }
        }
        let reply = answer(current.pending(), false);
        match current.reply(reply) {
            Progress::Running(next) => current = next,
            Progress::Finished(_) => panic!("the header is not written"),
        }
    }
}

#[test]
fn web_targets_have_dart_files_of_their_own() {
    let mut config = opts();
    config.wasm_enabled = true;
    config.dart_decl_output_path = Some(text("lib/decl.dart"));
    let (seen, outcome) = run(config, false, None);
    assert!(outcome.is_ok());
    assert_eq!(
        seen[seen.len() - 6..],
        [
            "check wire BridgeWire",
            "dart lib/decl.dart",
            "dart lib/bridge.dart",
            "dart lib/bridge.io.dart",
            "dart lib/bridge.web.dart",
            "dartfmt 120 lib/bridge.dart lib/decl.dart lib/bridge.web.dart lib/bridge.io.dart",
        ]
    );
}

#[test]
fn a_reply_that_does_not_fit_changes_nothing() {
    let config = opts();
    let paths = paths(&config);
    let job = Job { config, paths, stubs: stubs(), all_symbols: vec![] };
    let current = CodegenRun::start(job);
    assert_eq!(step_name(current.pending()), SINGLE[0]);
    match current.reply::<String>(Reply::Text(text("?"))) {
        Progress::Running(next) => assert_eq!(step_name(next.pending()), SINGLE[0]),
        Progress::Finished(_) => panic!("the generation is over"),
    }
}

#[test]
fn generations_run_in_order() {
    let mut second = opts();
    second.rust_crate_dir = text("second");
    let mut progress: AllProgress<String> =
        frb_codegen_all(vec![opts(), second], Ok(vec![text("s")]));
    let mut seen: Vec<String> = Vec::new();
    loop {
        match progress {
            AllProgress::Running(run) => {
                assert_eq!(*run.symbols(), vec!["s"]);
                seen.push(run.config().rust_crate_dir.clone());
                progress = run.reply(Ok(()));
            }
            AllProgress::Finished(outcome) => {
                assert_eq!(outcome, Ok(()));
                break;
            }
        }
    }
    assert_eq!(seen, vec!["rust", "second"]);
}

#[test]
fn the_first_failure_ends_the_generations() {
    let progress: AllProgress<&str> = frb_codegen_all(vec![opts(), opts()], Ok(vec![]));
    match progress {
        AllProgress::Running(run) => {
            assert!(matches!(run.reply(Err("bad")), AllProgress::Finished(Err("bad"))));
        }
        AllProgress::Finished(_) => panic!("nothing was run"),
    }
}

#[test]
fn nothing_runs_without_symbols() {
    let progress: AllProgress<&str> = frb_codegen_all(vec![opts()], Err("twice"));
    assert!(matches!(progress, AllProgress::Finished(Err("twice"))));
    let progress: AllProgress<&str> = frb_codegen_all(vec![], Ok(vec![]));
    assert!(matches!(progress, AllProgress::Finished(Ok(()))));
}
