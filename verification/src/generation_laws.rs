//! Laws of the course of code generations and of copying: what follows each reply and each event.

use crate::build_script::{
    copy_failure_message, copy_files, skip_rebuild_if_recursive_rustc_expand, BuildStage,
    CopyAction, CopyEvent,
};
use crate::codegen::{
    frb_codegen, question, recorded, CodegenError, CodegenRun, Progress, Reply,
};
use crate::codegen_all::{frb_codegen_all, AllProgress, AllRun};
use crate::config::Opts;
use crate::dart_output::{DartPart, DartPartView};
use crate::script_laws::{
    has_directories, has_header_directories, has_import_names, has_module_names, has_one_dart_file,
    needs_builders,
};
use crate::steps::{is_complete, script, Answers, AnswersView, BindgenStubs, Step, StepView};
use crate::text::texts;
use vstd::prelude::*;

verus! {

/// `shown` are the texts of `list`, one for each.
pub open spec fn shows(shown: Seq<Seq<char>>, list: Seq<String>) -> bool {
    &&& shown.len() == list.len()
    &&& forall|i: int| 0 <= i < list.len() ==> shown[i] == (#[trigger] list[i])@
}

/// Nothing of a step is lost when it is looked at: its kind and everything that it holds is there.
pub proof fn steps_show_all_they_hold(step: Step)
    ensures
        step matches Step::EnsureTools { dart_root, skip_deps_check } ==> step@ == (
        StepView::EnsureTools { dart_root: dart_root@, skip_deps_check }),
        step is ParseSource <==> step@ is ParseSource,
        step matches Step::CreateDirAll { dir } ==> step@ == (StepView::CreateDirAll { dir: dir@ }),
        step is GenerateRust <==> step@ is GenerateRust,
        step matches Step::WriteText { file } ==> {
            &&& step@ is WriteText
            &&& step@->WriteText_file.path == file.path@
            &&& step@->WriteText_file.text == file.text@
        },
        step is GenerateDart <==> step@ is GenerateDart,
        step matches Step::FormatRust { paths } ==> step@ is FormatRust && shows(
            step@->FormatRust_paths,
            paths@,
        ),
        step matches Step::AddModToLib { rust_crate_dir, rust_output_path } ==> step@ == (
        StepView::AddModToLib {
            rust_crate_dir: rust_crate_dir@,
            rust_output_path: rust_output_path@,
        }),
        step is MakeWireFile <==> step@ is MakeWireFile,
        step matches Step::MakeHeaderFile { suffix } ==> step@ == (StepView::MakeHeaderFile {
            suffix: suffix@,
        }),
        step matches Step::ExcludeSymbols { all_symbols } ==> step@ is ExcludeSymbols && shows(
            step@->all_symbols,
            all_symbols@,
        ),
        step is MakeCrateDir <==> step@ is MakeCrateDir,
        step matches Step::WriteInCrate { file } ==> {
            &&& step@ is WriteInCrate
            &&& step@->WriteInCrate_file.path == file.path@
            &&& step@->WriteInCrate_file.text == file.text@
        },
        step matches Step::CreateDirInCrate { dir } ==> step@ == (StepView::CreateDirInCrate {
            dir: dir@,
        }),
        step is ReadHeader <==> step@ is ReadHeader,
{
    lists_are_shown();
}

/// Nothing of a later step is lost either.
pub proof fn later_steps_show_all_they_hold(step: Step)
    ensures
        step matches Step::Bindgen {
            dart_class_name,
            c_struct_names,
            exclude_symbols,
            llvm_install_path,
            llvm_compiler_opts,
            dart_root,
        } ==> {
            &&& step@ is Bindgen
            &&& step@->Bindgen_dart_class_name == dart_class_name@
            &&& shows(step@->c_struct_names, c_struct_names@)
            &&& shows(step@->exclude_symbols, exclude_symbols@)
            &&& shows(step@->llvm_install_path, llvm_install_path@)
            &&& step@->llvm_compiler_opts == llvm_compiler_opts@
            &&& step@->Bindgen_dart_root == dart_root@
        },
        step matches Step::GenerateDummy { func_names } ==> step@ is GenerateDummy && shows(
            step@->func_names,
            func_names@,
        ),
        step matches Step::AnnounceHeader { path } ==> step@ == (StepView::AnnounceHeader {
            path: path@,
        }),
        step matches Step::ReadWire { dart_class_name } ==> step@ == (StepView::ReadWire {
            dart_class_name: dart_class_name@,
        }),
        step matches Step::CheckWire { dart_class_name } ==> step@ == (StepView::CheckWire {
            dart_class_name: dart_class_name@,
        }),
        step matches Step::WriteDart { dart_file } ==> {
            &&& step@ is WriteDart
            &&& step@->dart_file.path == dart_file.path@
            &&& step@->dart_file.parts.len() == dart_file.parts@.len()
            &&& forall|i: int|
                0 <= i < dart_file.parts@.len() ==> step@->dart_file.parts[i] == (
                #[trigger] dart_file.parts@[i])@
        },
        step matches Step::JoinDart { parts } ==> {
            &&& step@ is JoinDart
            &&& step@->parts.len() == parts@.len()
            &&& forall|i: int| 0 <= i < parts@.len() ==> step@->parts[i] == (#[trigger] parts@[i])@
        },
        step matches Step::WriteJoined { path, import } ==> step@ == (StepView::WriteJoined {
            path: path@,
            import: import@,
        }),
        step matches Step::BuildRunner { dart_root } ==> step@ == (StepView::BuildRunner {
            dart_root: dart_root@,
        }),
        step matches Step::FormatDart { line_length, paths } ==> {
            &&& step@ is FormatDart
            &&& step@->line_length == line_length
            &&& shows(step@->FormatDart_paths, paths@)
        },
{
    lists_are_shown();
}

proof fn lists_are_shown()
    ensures
        forall|list: Seq<String>| shows(#[trigger] texts(list), list),
{
    assert forall|list: Seq<String>| shows(#[trigger] texts(list), list) by {
        assert(texts(list).len() == list.len());
    }
}

/// Nothing of a part of a Dart file is lost when it is looked at.
pub proof fn parts_show_all_they_hold(part: DartPart)
    ensures
        part is FilePrelude <==> part@ is FilePrelude,
        part is DeclAll <==> part@ is DeclAll,
        part is ImplCommon <==> part@ is ImplCommon,
        part is ImplIoWire <==> part@ is ImplIoWire,
        part is ImplWasm <==> part@ is ImplWasm,
        part matches DartPart::Import(text) ==> part@ == DartPartView::Import(text@),
{
}

/// Nothing of the answers is lost when they are looked at.
pub proof fn answers_show_all_they_hold(answers: Answers)
    ensures
        shows(answers@.c_struct_names, answers.c_struct_names@),
        answers@.rust == answers.rust,
        answers@.needs_freezed == answers.needs_freezed,
        answers.exclude_symbols is None <==> answers@.exclude_symbols is None,
        answers.exclude_symbols matches Some(names) ==> shows(answers@.exclude_symbols->0, names@),
        answers.c_dummy is None <==> answers@.c_dummy is None,
        answers.c_dummy matches Some(text) ==> answers@.c_dummy == Some(text@),
        shows(answers@.headers, answers.headers@),
        answers.import is None <==> answers@.import is None,
        answers.import matches Some(text) ==> answers@.import == Some(text@),
{
    lists_are_shown();
}

/// A generation starts with the tools, whatever its paths are, with no answer in.
pub proof fn generation_starts_with_the_tools<'a>(
    config: Opts,
    stubs: BindgenStubs,
    all_symbols: Vec<String>,
    run: CodegenRun,
    step: &'a Step,
)
    requires
        call_ensures(frb_codegen, (config, stubs, all_symbols), run),
        call_ensures(CodegenRun::pending, (&run,), step),
    ensures
        run.position() == 0,
        run.answers().c_struct_names.len() == 0,
        run.answers().rust is None,
        !run.answers().needs_freezed,
        run.answers().exclude_symbols is None,
        run.answers().c_dummy is None,
        run.answers().headers.len() == 0,
        run.answers().import is None,
        step is EnsureTools,
        step->EnsureTools_dart_root@ == config.dart_root_or_default@,
        step->EnsureTools_skip_deps_check == config.skip_deps_check,
{
    steps_show_all_they_hold(*step);
    later_steps_show_all_they_hold(*step);
}

/// The step that a generation asks for is the one at its position in the script that its answers
/// make.
pub proof fn pending_step_is_next_in_the_script<'a>(run: CodegenRun, step: &'a Step)
    requires
        call_ensures(CodegenRun::pending, (&run,), step),
    ensures
        step@ == script(run.job(), run.answers())[run.position()],
{
}

/// The first step that fails ends the generation, with its failure.
pub proof fn failed_step_ends_the_generation<E>(run: CodegenRun, error: E, progress: Progress<E>)
    requires
        call_ensures(CodegenRun::reply::<E>, (run, Reply::Failed(error)), progress),
    ensures
        progress == Progress::<E>::Finished(Err(CodegenError::Step(error))),
{
}

/// `reply` is of the kind that `step` is answered with.
pub open spec fn fits<E>(step: StepView, reply: Reply<E>) -> bool {
    if step is ParseSource || step is ExcludeSymbols {
        reply is Names
    } else if step is GenerateRust {
        reply is Rust
    } else if step is GenerateDart {
        reply is Dart
    } else if step is GenerateDummy || step is ReadHeader || step is JoinDart {
        reply is Text
    } else {
        reply is Done
    }
}

/// A reply of the wrong kind changes nothing.
pub proof fn wrong_reply_changes_nothing<E>(run: CodegenRun, reply: Reply<E>, progress: Progress<E>)
    requires
        call_ensures(CodegenRun::reply::<E>, (run, reply), progress),
        !(reply is Failed),
        !fits(script(run.job(), run.answers())[run.position()], reply),
    ensures
        progress == Progress::<E>::Running(run),
{
}

/// `after` has what `before` had, and the answer that `reply` gives to `step`.
pub open spec fn learns<E>(
    before: AnswersView,
    step: StepView,
    reply: Reply<E>,
    after: AnswersView,
) -> bool {
    &&& step is ParseSource ==> shows(after.c_struct_names, reply->Names_0@)
    &&& !(step is ParseSource) ==> after.c_struct_names == before.c_struct_names
    &&& step is GenerateRust ==> after.rust == Some(reply->Rust_0)
    &&& !(step is GenerateRust) ==> after.rust == before.rust
    &&& step is GenerateDart ==> after.needs_freezed == reply->needs_freezed
    &&& !(step is GenerateDart) ==> after.needs_freezed == before.needs_freezed
    &&& step is ExcludeSymbols ==> after.exclude_symbols is Some && shows(
        after.exclude_symbols->0,
        reply->Names_0@,
    )
    &&& !(step is ExcludeSymbols) ==> after.exclude_symbols == before.exclude_symbols
    &&& step is GenerateDummy ==> after.c_dummy == Some(reply->Text_0@)
    &&& !(step is GenerateDummy) ==> after.c_dummy == before.c_dummy
    &&& step is ReadHeader ==> after.headers == before.headers.push(reply->Text_0@)
    &&& !(step is ReadHeader) ==> after.headers == before.headers
    &&& step is JoinDart ==> after.import == Some(reply->Text_0@)
    &&& !(step is JoinDart) ==> after.import == before.import
}

/// After a reply of the right kind the generation goes on with the next step: it keeps what it works
/// with, has learned what the reply says and nothing else, and has done one step more, with those
/// before it unchanged.
pub proof fn answered_step_leads_to_the_next<E>(run: CodegenRun, reply: Reply<E>, next: CodegenRun)
    requires
        call_ensures(CodegenRun::reply::<E>, (run, reply), Progress::<E>::Running(next)),
        fits(script(run.job(), run.answers())[run.position()], reply),
    ensures
        next.job() == run.job(),
        next.position() == run.position() + 1,
        next.position() < script(next.job(), next.answers()).len(),
        learns(
            run.answers(),
            script(run.job(), run.answers())[run.position()],
            reply,
            next.answers(),
        ),
        script(next.job(), next.answers()).take(next.position()) == script(
            run.job(),
            run.answers(),
        ).take(run.position()).push(script(run.job(), run.answers())[run.position()]),
{
    lists_are_shown();
}

/// A generation that ends after a step was answered has done the whole script that its answers make.
/// It has succeeded exactly when no part of a path is missing, every answer is in, and the root of
/// the Dart package is known if the builders are to be run; a part that is missing and a root that is
/// unknown are told apart.
pub proof fn generation_ends_as_its_answers_say<E>(
    run: CodegenRun,
    reply: Reply<E>,
    outcome: Result<(), CodegenError<E>>,
)
    requires
        run.job().paths.c_output_dirs@.len() == run.job().config.c_output_path@.len(),
        call_ensures(CodegenRun::reply::<E>, (run, reply), Progress::<E>::Finished(outcome)),
        fits(script(run.job(), run.answers())[run.position()], reply),
    ensures
        exists|after: AnswersView|
            #![trigger script(run.job(), after)]
            {
                let job = run.job();
                let whole = {
                    &&& has_directories(job)
                    &&& has_module_names(job)
                    &&& has_header_directories(job, job.config.c_output_path@.len() as int)
                    &&& has_import_names(job)
                };
                let unknown = needs_builders(job, after) && job.config.dart_root is None;
                &&& learns(run.answers(), script(job, run.answers())[run.position()], reply, after)
                &&& script(job, after) == script(job, run.answers()).take(
                    run.position(),
                ).push(script(job, run.answers())[run.position()])
                &&& outcome is Ok ==> whole && !unknown
                &&& outcome is Err ==> {
                    ||| outcome->Err_0 is PathLacksPart && !whole
                    ||| outcome->Err_0 is DartRootUnknown && whole && unknown
                }
                &&& whole ==> {
                    &&& after.rust is Some
                    &&& after.exclude_symbols is Some
                    &&& after.c_dummy is Some
                    &&& after.headers.len() >= job.config.c_output_path@.len()
                    &&& has_one_dart_file(job.config) ==> after.import is Some
                }
            },
{
    let job = run.job();
    let due = script(job, run.answers())[run.position()];
    let after = recorded(run.answers(), question(due), reply);
    lists_are_shown();
    assert(learns(run.answers(), due, reply, after));
    assert(script(job, after) == script(job, run.answers()).take(run.position()).push(due));
    assert forall|i: int| 0 <= i < job.paths.c_output_dirs@.len() implies (
    #[trigger] job.paths.lacks_header_dir(i)) == (job.paths.c_output_dirs@[i] is None) by {}
    if is_complete(job, after) {
        assert forall|i: int| 0 <= i < job.paths.c_output_dirs@.len() implies (
        #[trigger] job.paths.c_output_dirs@[i]) is Some by {
            assert(!job.paths.lacks_header_dir(i));
        }
    }
}

/// Generations start with the first settings, unless the symbols could not be told, which ends them
/// with that error, or there are no settings, which ends them well.
pub proof fn generations_start_with_the_first<'a, E>(
    configs: Vec<Opts>,
    all_symbols: Result<Vec<String>, E>,
    progress: AllProgress<E>,
    config: &'a Opts,
    symbols: &'a Vec<String>,
)
    requires
        call_ensures(frb_codegen_all::<E>, (configs, all_symbols), progress),
        progress matches AllProgress::Running(run) ==> {
            &&& call_ensures(AllRun::config, (&run,), config)
            &&& call_ensures(AllRun::symbols, (&run,), symbols)
        },
    ensures
        all_symbols matches Err(error) ==> progress == AllProgress::<E>::Finished(Err(error)),
        all_symbols is Ok && configs@.len() == 0 ==> progress == AllProgress::<E>::Finished(Ok(())),
        all_symbols is Ok && configs@.len() > 0 ==> {
            &&& progress is Running
            &&& progress->Running_0.configs() == configs@
            &&& progress->Running_0.position() == 0
            &&& *config == configs@[0]
            &&& *symbols == all_symbols->Ok_0
        },
{
}

/// After a generation that succeeded, the one with the next settings is run, with the same symbols,
/// until there are no more. A generation that failed ends them all, with its error.
pub proof fn generations_go_on_until_one_fails<'a, E>(
    run: AllRun,
    outcome: Result<(), E>,
    progress: AllProgress<E>,
    symbols: &'a Vec<String>,
    config: &'a Opts,
    next_symbols: &'a Vec<String>,
)
    requires
        call_ensures(AllRun::reply::<E>, (run, outcome), progress),
        call_ensures(AllRun::symbols, (&run,), symbols),
        progress matches AllProgress::Running(next) ==> {
            &&& call_ensures(AllRun::config, (&next,), config)
            &&& call_ensures(AllRun::symbols, (&next,), next_symbols)
        },
    ensures
        outcome matches Err(error) ==> progress == AllProgress::<E>::Finished(Err(error)),
        outcome is Ok && run.position() + 1 >= run.configs().len() ==> progress == AllProgress::<
            E,
        >::Finished(Ok(())),
        outcome is Ok && run.position() + 1 < run.configs().len() ==> {
            &&& progress is Running
            &&& progress->Running_0.configs() == run.configs()
            &&& progress->Running_0.position() == run.position() + 1
            &&& *config == run.configs()[run.position() + 1]
            &&& *next_symbols == *symbols
        },
{
}

/// A file is copied exactly if it is a plain file that was found. The end of the entries ends the
/// copying well, a failure ends it with that failure, and everything else leads to the next entry.
pub proof fn only_plain_files_are_copied<F, E>(event: CopyEvent<F, E>, action: CopyAction<F, E>)
    requires
        call_ensures(copy_files::<F, E>, (event,), action),
    ensures
        action is Copy <==> event is Entry && event->is_file,
        action is Copy ==> action->Copy_0 == event->file,
        action is Finished <==> event is End || event is Failed,
        event is End ==> action == CopyAction::<F, E>::Finished(Ok(())),
        event matches CopyEvent::Failed(error) ==> action == CopyAction::<F, E>::Finished(
            Err(error),
        ),
{
}

/// Files are copied only where both directories are known, from the one of the outer run to that of
/// this run. Cargo is told which variable matters in every build script, and nowhere else.
pub proof fn files_are_copied_from_the_outer_run(
    out_dir: Option<String>,
    pre_expand_out_dir: Option<String>,
    stage: BuildStage,
    line: Option<&'static str>,
)
    requires
        call_ensures(
            skip_rebuild_if_recursive_rustc_expand,
            (out_dir, pre_expand_out_dir),
            stage,
        ),
        call_ensures(BuildStage::cargo_line, (&stage,), line),
    ensures
        stage is Expansion <==> out_dir is Some && pre_expand_out_dir is Some,
        stage is Expansion ==> stage->from == pre_expand_out_dir->0 && stage->to == out_dir->0,
        stage is Outside <==> out_dir is None,
        line is Some <==> out_dir is Some,
        line matches Some(text) ==> text@
            == "cargo:rerun-if-env-changed=FRB_PRE_EXPAND_BUILD_OUT_DIR"@,
{
}

/// What is said of a failed copy has both directories and the error in it, in this order and whole.
pub proof fn copy_failure_names_everything(from: &str, to: &str, error: &str, message: String)
    requires
        call_ensures(copy_failure_message, (from, to, error), message),
    ensures
        message@ == "Failed to copy files from FRB_PRE_EXPAND_BUILD_OUT_DIR ("@ + from@
            + ") to OUT_DIR ("@ + to@ + "): "@ + error@,
{
}

} // verus!
