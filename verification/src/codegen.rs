//! The course of a code generation.
//!
//! A [`CodegenRun`] says which outside work is due. Its caller does the work and replies with the
//! outcome, until the run says how the generation ended.

use crate::config::Opts;
use crate::dart_output::{all_dart_files, is_single, single_file};
use crate::paths::output_paths;
use crate::rust_output::{rust_files, TextFileView};
use crate::steps::{
    bindgen_section, breaks_off, closing, dart_section, end_section, first_step, header_section,
    headers_are_read, headers_up_to, is_complete, lacks_dart_root, make_script, one_header,
    opening, rust_section, script, steps, Answers, AnswersView, BindgenStubs, GeneratedRust, Job,
    Step, StepView,
};
use crate::text::{texts, with_unique_lines};
use vstd::prelude::*;
use vstd::string::*;

verus! {

/// What a step is answered with.
#[derive(Clone, Copy)]
pub enum Question {
    /// Nothing but that it is done.
    Nothing,
    /// The names of the C structures.
    StructNames,
    /// The generated Rust code.
    Rust,
    /// Whether the Dart code needs the `freezed` builder.
    Dart,
    /// The symbols to leave out.
    Symbols,
    /// The dummy C code.
    Dummy,
    /// The text of the C header.
    Header,
    /// The import section of a Dart file.
    Import,
}

/// What comes back from a step: its answer, or that it failed.
pub enum Reply<E> {
    Done,
    Names(Vec<String>),
    Rust(GeneratedRust),
    Dart { needs_freezed: bool },
    Text(String),
    Failed(E),
}

/// Why a code generation stopped early.
pub enum CodegenError<E> {
    /// A step failed.
    Step(E),
    /// The Dart builders are to run, but the root of the Dart package is unknown.
    DartRootUnknown,
    /// An output path has no directory or no file name where one is needed.
    PathLacksPart,
}

/// What is said of a generation that stopped for want of the root of the Dart package.
pub fn dart_root_unknown_message() -> (message: &'static str)
    ensures
        message@
            == "build_runner configured to run, but Dart root could not be inferred.\n        Please specify --dart-root, or disable build_runner with --no-build-runner."@,
{
    "build_runner configured to run, but Dart root could not be inferred.\n        Please specify --dart-root, or disable build_runner with --no-build-runner."
}

/// What the step is answered with.
pub open spec fn question(step: StepView) -> Question {
    match step {
        StepView::ParseSource => Question::StructNames,
        StepView::GenerateRust => Question::Rust,
        StepView::GenerateDart => Question::Dart,
        StepView::ExcludeSymbols { .. } => Question::Symbols,
        StepView::GenerateDummy { .. } => Question::Dummy,
        StepView::ReadHeader => Question::Header,
        StepView::JoinDart { .. } => Question::Import,
        _ => Question::Nothing,
    }
}

/// `reply` answers `question`.
pub open spec fn answers_question<E>(question: Question, reply: Reply<E>) -> bool {
    match question {
        Question::Nothing => reply is Done,
        Question::StructNames | Question::Symbols => reply is Names,
        Question::Rust => reply is Rust,
        Question::Dart => reply is Dart,
        Question::Dummy | Question::Header | Question::Import => reply is Text,
    }
}

/// `answers` with the answer to `question` that `reply` gives.
pub open spec fn recorded<E>(
    answers: AnswersView,
    question: Question,
    reply: Reply<E>,
) -> AnswersView {
    match (question, reply) {
        (Question::StructNames, Reply::Names(names)) => AnswersView {
            c_struct_names: texts(names@),
            ..answers
        },
        (Question::Rust, Reply::Rust(rust)) => AnswersView { rust: Some(rust), ..answers },
        (Question::Dart, Reply::Dart { needs_freezed }) => AnswersView { needs_freezed, ..answers },
        (Question::Symbols, Reply::Names(names)) => AnswersView {
            exclude_symbols: Some(texts(names@)),
            ..answers
        },
        (Question::Dummy, Reply::Text(text)) => AnswersView { c_dummy: Some(text@), ..answers },
        (Question::Header, Reply::Text(text)) => AnswersView {
            headers: answers.headers.push(text@),
            ..answers
        },
        (Question::Import, Reply::Text(text)) => AnswersView { import: Some(text@), ..answers },
        _ => answers,
    }
}

/// No answer is in.
pub open spec fn no_answers() -> AnswersView {
    AnswersView {
        c_struct_names: seq![],
        rust: None,
        needs_freezed: false,
        exclude_symbols: None,
        c_dummy: None,
        headers: seq![],
        import: None,
    }
}

/// The first `count` C headers have their directories.
spec fn has_header_dirs(job: Job, count: int) -> bool {
    forall|i: int| 0 <= i < count ==> !(#[trigger] job.paths.lacks_header_dir(i))
}

/// No answer is in before those that the script asks for earlier.
spec fn is_ordered(job: Job, answers: AnswersView) -> bool {
    &&& job.paths.lacks_output_dir() ==> answers.rust is None
    &&& answers.rust is None || job.paths.lacks_module_file(job.config)
        ==> answers.exclude_symbols is None
    &&& answers.exclude_symbols is None ==> answers.c_dummy is None
    &&& answers.c_dummy is None ==> answers.headers.len() == 0 && answers.import is None
    &&& answers.headers.len() <= job.config.c_output_path@.len()
    &&& has_header_dirs(job, answers.headers.len() as int)
    &&& !headers_are_read(job, answers) ==> answers.import is None
    &&& answers.import is Some ==> is_single(job.config)
}

/// How much of the script lies before the last step that was answered, that step included.
spec fn answered_length(job: Job, answers: AnswersView) -> int {
    let before_headers = opening(job).len() + rust_section(job, answers).len() + bindgen_section(
        job,
        answers,
    ).len();
    if answers.rust is None {
        0
    } else if answers.exclude_symbols is None {
        opening(job).len() as int
    } else if answers.c_dummy is None {
        opening(job).len() + rust_section(job, answers).len() as int
    } else if answers.import is Some {
        before_headers + header_section(job, answers).len() + dart_section(job, answers).len() as int
    } else if answers.headers.len() == 0 {
        before_headers as int
    } else {
        before_headers + 4 * answers.headers.len() - 1
    }
}

/// A run can stand at `position` with `answers` in.
spec fn is_reachable(job: Job, answers: AnswersView, position: int) -> bool {
    &&& job.is_valid()
    &&& is_ordered(job, answers)
    &&& answered_length(job, answers) <= position < script(job, answers).len()
}

/// How many steps the first `count` C headers take.
spec fn header_length(job: Job, answers: AnswersView, count: int) -> int {
    if count <= answers.headers.len() {
        4 * count
    } else if job.paths.lacks_header_dir(count - 1) {
        4 * count - 3
    } else {
        4 * count - 1
    }
}

proof fn header_steps(job: Job, answers: AnswersView, count: int)
    requires
        0 <= count <= answers.headers.len() + 1,
        has_header_dirs(
            job,
            if count <= answers.headers.len() {
                count
            } else {
                count - 1
            },
        ),
    ensures
        headers_up_to(job, answers, count).len() == header_length(job, answers, count),
        forall|i: int|
            0 <= i < headers_up_to(job, answers, count).len() ==> question(
                #[trigger] headers_up_to(job, answers, count)[i],
            ) == if i % 4 == 2 {
                Question::Header
            } else {
                Question::Nothing
            },
    decreases count,
{
    if count > 0 {
        header_steps(job, answers, count - 1);
        assert(one_header(job, answers, count - 1).len() == if count <= answers.headers.len() {
            4int
        } else if job.paths.lacks_header_dir(count - 1) {
            1
        } else {
            3
        });
    }
}

/// The question whose answer the rest of the script waits for.
spec fn awaited(job: Job, answers: AnswersView) -> Question {
    if answers.rust is None {
        Question::Rust
    } else if answers.exclude_symbols is None {
        Question::Symbols
    } else if answers.c_dummy is None {
        Question::Dummy
    } else if !headers_are_read(job, answers) {
        Question::Header
    } else {
        Question::Import
    }
}

proof fn rust_section_questions(job: Job, answers: AnswersView)
    requires
        answers.rust is Some,
        !job.paths.lacks_module_file(job.config),
    ensures
        rust_section(job, answers).len() > 0,
        question(rust_section(job, answers).last()) == Question::Symbols,
        forall|i: int|
            0 <= i < rust_section(job, answers).len() - 1 ==> {
                ||| question(#[trigger] rust_section(job, answers)[i]) == Question::Nothing
                ||| question(rust_section(job, answers)[i]) == Question::Dart
            },
{
}

proof fn bindgen_section_questions(job: Job, answers: AnswersView)
    requires
        answers.rust is Some,
        answers.exclude_symbols is Some,
    ensures
        bindgen_section(job, answers).len() == 6,
        question(bindgen_section(job, answers)[5]) == Question::Dummy,
        forall|i: int|
            0 <= i < 5 ==> question(#[trigger] bindgen_section(job, answers)[i])
                == Question::Nothing,
{
}

proof fn dart_section_questions(job: Job, answers: AnswersView)
    requires
        answers.c_dummy is Some,
        headers_are_read(job, answers),
        !job.paths.lacks_output_dir(),
    ensures
        dart_section(job, answers).len() > 0,
        is_single(job.config) ==> question(dart_section(job, answers).last()) == Question::Import,
        forall|i: int|
            0 <= i < dart_section(job, answers).len() && (is_single(job.config) ==> i
                < dart_section(job, answers).len() - 1) ==> question(
                #[trigger] dart_section(job, answers)[i],
            ) == Question::Nothing,
{
}

proof fn end_section_questions(job: Job, answers: AnswersView)
    ensures
        forall|i: int|
            0 <= i < end_section(job, answers).len() ==> question(
                #[trigger] end_section(job, answers)[i],
            ) == Question::Nothing,
{
}

/// Of the steps that are still to come, only the last asks for the awaited answer, and the others
/// ask for nothing that the known script depends on.
proof fn questions_to_come(job: Job, answers: AnswersView, i: int)
    requires
        job.is_valid(),
        is_ordered(job, answers),
        answered_length(job, answers) <= i < script(job, answers).len(),
    ensures
        ({
            let asked = question(script(job, answers)[i]);
            let open = !is_complete(job, answers) && !breaks_off(job, answers);
            &&& open && i == script(job, answers).len() - 1 ==> asked == awaited(job, answers)
            &&& !open || i < script(job, answers).len() - 1 ==> {
                ||| asked == Question::Nothing
                ||| asked == Question::StructNames && answers.rust is None
                ||| asked == Question::Dart && answers.rust is Some && answers.exclude_symbols
                    is None
            }
        }),
{
    reveal(script);
    let whole = script(job, answers);
    if answers.rust is None {
        assert(whole =~= opening(job));
    } else if answers.exclude_symbols is None {
        if !job.paths.lacks_module_file(job.config) {
            rust_section_questions(job, answers);
        }
        assert(whole =~= opening(job) + rust_section(job, answers));
    } else if answers.c_dummy is None {
        bindgen_section_questions(job, answers);
        let front = opening(job) + rust_section(job, answers);
        assert(whole =~= front + bindgen_section(job, answers));
    } else {
        bindgen_section_questions(job, answers);
        let front = opening(job) + rust_section(job, answers) + bindgen_section(job, answers);
        let headers = header_section(job, answers);
        let count = job.config.c_output_path@.len() as int;
        if !headers_are_read(job, answers) {
            header_steps(job, answers, answers.headers.len() as int + 1);
            assert(whole =~= front + headers);
            assert(whole[i] == headers[i - front.len()]);
        } else {
            header_steps(job, answers, count);
            dart_section_questions(job, answers);
            end_section_questions(job, answers);
            let dart = dart_section(job, answers);
            let end = end_section(job, answers);
            assert(whole =~= front + headers + dart + end);
            if i < front.len() + headers.len() {
                assert(whole[i] == headers[i - front.len()]);
            } else if i < front.len() + headers.len() + dart.len() {
                assert(whole[i] == dart[i - front.len() - headers.len()]);
            } else {
                assert(whole[i] == end[i - front.len() - headers.len() - dart.len()]);
            }
        }
    }
}

proof fn headers_already_read(job: Job, answers: AnswersView, text: Seq<char>, count: int)
    requires
        0 <= count <= answers.headers.len(),
    ensures
        headers_up_to(job, AnswersView { headers: answers.headers.push(text), ..answers }, count)
            == headers_up_to(job, answers, count),
    decreases count,
{
    if count > 0 {
        headers_already_read(job, answers, text, count - 1);
    }
}

/// An answer adds to the known script and changes nothing in it, and the known script runs out only
/// once all answers are in.
proof fn answer_extends_script<E>(job: Job, answers: AnswersView, position: int, reply: Reply<E>)
    requires
        is_reachable(job, answers, position),
        answers_question(question(script(job, answers)[position]), reply),
    ensures
        ({
            let after = recorded(answers, question(script(job, answers)[position]), reply);
            &&& script(job, answers).is_prefix_of(script(job, after))
            &&& position + 1 < script(job, after).len() ==> is_reachable(job, after, position + 1)
            &&& position + 1 == script(job, after).len() ==> is_complete(job, after)
                || breaks_off(job, after)
        }),
{
    reveal(script);
    let asked = question(script(job, answers)[position]);
    let before = script(job, answers);
    let after = recorded(answers, asked, reply);
    let grown = script(job, after);
    questions_to_come(job, answers, position);
    if asked == Question::Nothing {
    } else if asked == Question::StructNames || asked == Question::Dart {
        assert(grown =~= before);
        assert(!is_complete(job, answers));
        questions_to_come(job, answers, before.len() - 1);
    } else if asked == Question::Rust {
        if !job.paths.lacks_module_file(job.config) {
            rust_section_questions(job, after);
        }
        assert(before =~= opening(job));
        assert(grown =~= before + rust_section(job, after));
    } else if asked == Question::Symbols {
        assert(before =~= opening(job) + rust_section(job, answers));
        assert(rust_section(job, answers) == rust_section(job, after));
        assert(grown =~= before + bindgen_section(job, after));
    } else if asked == Question::Dummy {
        assert(before =~= opening(job) + rust_section(job, answers) + bindgen_section(
            job,
            answers,
        ));
        assert(rust_section(job, answers) == rust_section(job, after));
        assert(bindgen_section(job, answers) == bindgen_section(job, after));
        assert(grown =~= before + header_section(job, after) + dart_section(job, after)
            + end_section(job, after));
        if headers_are_read(job, after) {
            dart_section_questions(job, after);
        } else {
            header_steps(job, after, 1);
        }
    } else if asked == Question::Header {
        let read = answers.headers.len() as int;
        let front = opening(job) + rust_section(job, answers) + bindgen_section(job, answers);
        assert(before =~= front + header_section(job, answers));
        assert(rust_section(job, answers) == rust_section(job, after));
        assert(bindgen_section(job, answers) == bindgen_section(job, after));
        headers_already_read(job, answers, after.headers.last(), read);
        header_steps(job, answers, read + 1);
        header_steps(job, after, read + 1);
        let one_more = headers_up_to(job, after, read + 1);
        assert(one_more.take(one_more.len() - 1) =~= header_section(job, answers));
        if headers_are_read(job, after) {
            assert(header_section(job, after) == one_more);
        } else {
            header_steps(job, after, read + 2);
            assert(header_section(job, after) == one_more + one_header(job, after, read + 1));
        }
        assert(grown =~= front + header_section(job, after) + dart_section(job, after)
            + end_section(job, after));
        assert(before =~= grown.take(before.len() as int));
    } else {
        let front = opening(job) + rust_section(job, answers) + bindgen_section(job, answers);
        let count = job.config.c_output_path@.len() as int;
        assert(after == AnswersView { import: after.import, ..answers });
        same_headers(job, answers, after, count);
        assert(before =~= front + header_section(job, answers) + dart_section(job, answers));
        assert(rust_section(job, answers) == rust_section(job, after));
        assert(bindgen_section(job, answers) == bindgen_section(job, after));
        assert(grown =~= before + end_section(job, after));
    }
}

proof fn same_headers(job: Job, answers: AnswersView, after: AnswersView, count: int)
    requires
        answers.headers == after.headers,
        answers.c_dummy == after.c_dummy,
    ensures
        headers_up_to(job, answers, count) == headers_up_to(job, after, count),
    decreases count,
{
    if count > 0 {
        same_headers(job, answers, after, count - 1);
    }
}

/// A code generation that is under way: there is a step to be done.
pub struct CodegenRun {
    job: Job,
    answers: Answers,
    script: Vec<Step>,
    position: usize,
}

/// Where a code generation stands after a reply.
pub enum Progress<E> {
    /// There is another step to be done.
    Running(CodegenRun),
    /// The generation is over.
    Finished(Result<(), CodegenError<E>>),
}

/// How a generation ends once its script has been done.
pub open spec fn ending<E>(job: Job, answers: AnswersView) -> Result<(), CodegenError<E>> {
    if breaks_off(job, answers) {
        Err(CodegenError::PathLacksPart)
    } else if lacks_dart_root(job, answers) {
        Err(CodegenError::DartRootUnknown)
    } else {
        Ok(())
    }
}

/// `progress` is where `run` stands after `reply` came back from the step that was due: the first
/// failure ends the generation, a reply that does not answer the step changes nothing, and after
/// the last step the generation has succeeded unless the script breaks off there, or the root of
/// the Dart package was needed and is unknown.
pub open spec fn follows<E>(run: CodegenRun, reply: Reply<E>, progress: Progress<E>) -> bool {
    let asked = question(run.due());
    let after = recorded(run.answers(), asked, reply);
    let done = run.performed().push(run.due());
    if reply is Failed {
        progress == Progress::<E>::Finished(Err(CodegenError::Step(reply->Failed_0)))
    } else if !answers_question(asked, reply) {
        progress == Progress::<E>::Running(run)
    } else if run.position() + 1 < script(run.job(), after).len() {
        &&& progress matches Progress::Running(next)
        &&& next.job() == run.job()
        &&& next.answers() == after
        &&& next.position() == run.position() + 1
        &&& next.performed() == done
    } else {
        &&& is_complete(run.job(), after) || breaks_off(run.job(), after)
        &&& done == script(run.job(), after)
        &&& progress == Progress::<E>::Finished(ending::<E>(run.job(), after))
    }
}

impl CodegenRun {
    #[verifier::type_invariant]
    spec fn is_well_formed(self) -> bool {
        &&& steps(self.script@) == script(self.job, self.answers@)
        &&& is_reachable(self.job, self.answers@, self.position as int)
    }

    /// What the generation started from.
    pub closed spec fn job(self) -> Job {
        self.job
    }

    /// The answers that are in.
    pub closed spec fn answers(self) -> AnswersView {
        self.answers@
    }

    /// How many steps have been done.
    pub closed spec fn position(self) -> int {
        self.position as int
    }

    /// The script, as far as it is known.
    pub open spec fn script(self) -> Seq<StepView> {
        script(self.job(), self.answers())
    }

    /// The steps that have been done.
    pub open spec fn performed(self) -> Seq<StepView> {
        self.script().take(self.position())
    }

    /// The step to be done.
    pub open spec fn due(self) -> StepView {
        self.script()[self.position()]
    }

    /// Starts the generation of `job`.
    pub fn start(job: Job) -> (run: CodegenRun)
        requires
            job.is_valid(),
        ensures
            run.job() == job,
            run.answers() == no_answers(),
            run.position() == 0,
            run.script() == opening(job),
            run.performed() == Seq::<StepView>::empty(),
    {
        let answers = Answers {
            c_struct_names: Vec::new(),
            rust: None,
            needs_freezed: false,
            exclude_symbols: None,
            c_dummy: None,
            headers: Vec::new(),
            import: None,
        };
        assert(answers@.c_struct_names =~= seq![]);
        assert(answers@.headers =~= seq![]);
        proof {
            reveal(script);
        }
        let script = make_script(&job, &answers);
        let run = CodegenRun { job, answers, script, position: 0 };
        assert(run.script() =~= opening(job));
        assert(run.performed() =~= seq![]);
        run
    }

    /// The step to be done.
    pub fn pending(&self) -> (step: &Step)
        ensures
            step@ == self.due(),
    {
        proof {
            use_type_invariant(self);
        }
        assert(steps(self.script@)[self.position as int] == self.script@[self.position as int]@);
        &self.script[self.position]
    }

    /// Goes on with what came back from the pending step.
    pub fn reply<E>(self, reply: Reply<E>) -> (progress: Progress<E>)
        ensures
            follows(self, reply, progress),
    {
        proof {
            use_type_invariant(&self);
        }
        let asked = ask(self.pending());
        let fits = fits(asked, &reply);
        if let Reply::Failed(error) = reply {
            return Progress::Finished(Err(CodegenError::Step(error)));
        }
        if !fits {
            return Progress::Running(self);
        }
        let ghost before = self;
        proof {
            answer_extends_script(self.job, self.answers@, self.position as int, reply);
            assert(self.position < self.script.len());
        }
        let CodegenRun { job, answers, script, position } = self;
        let answers = record(answers, asked, reply);
        let script = match asked {
            Question::Nothing => script,
            _ => make_script(&job, &answers),
        };
        let position: usize = position + 1;
        proof {
            let known = before.script();
            let grown = steps(script@);
            let done = before.performed().push(before.due());
            assert(done =~= known.take(position as int));
            assert(known.take(position as int) =~= grown.take(position as int));
        }
        if position < script.len() {
            Progress::Running(CodegenRun { job, answers, script, position })
        } else {
            assert(steps(script@).take(position as int) =~= steps(script@));
            if !job.paths.are_whole(&job.config) {
                Progress::Finished(Err(CodegenError::PathLacksPart))
            } else if answers.needs_freezed && job.config.build_runner && job.config.dart_root.is_none() {
                Progress::Finished(Err(CodegenError::DartRootUnknown))
            } else {
                Progress::Finished(Ok(()))
            }
        }
    }
}

fn ask(step: &Step) -> (asked: Question)
    ensures
        asked == question(step@),
{
    match step {
        Step::ParseSource => Question::StructNames,
        Step::GenerateRust => Question::Rust,
        Step::GenerateDart => Question::Dart,
        Step::ExcludeSymbols { .. } => Question::Symbols,
        Step::GenerateDummy { .. } => Question::Dummy,
        Step::ReadHeader => Question::Header,
        Step::JoinDart { .. } => Question::Import,
        _ => Question::Nothing,
    }
}

fn fits<E>(asked: Question, reply: &Reply<E>) -> (result: bool)
    ensures
        result == answers_question(asked, *reply),
{
    match (asked, reply) {
        (Question::Nothing, Reply::Done) => true,
        (Question::StructNames, Reply::Names(_)) => true,
        (Question::Rust, Reply::Rust(_)) => true,
        (Question::Dart, Reply::Dart { .. }) => true,
        (Question::Symbols, Reply::Names(_)) => true,
        (Question::Dummy, Reply::Text(_)) => true,
        (Question::Header, Reply::Text(_)) => true,
        (Question::Import, Reply::Text(_)) => true,
        _ => false,
    }
}

fn record<E>(answers: Answers, asked: Question, reply: Reply<E>) -> (after: Answers)
    ensures
        after@ == recorded(answers@, asked, reply),
{
    match (asked, reply) {
        (Question::StructNames, Reply::Names(names)) => Answers {
            c_struct_names: names,
            ..answers
        },
        (Question::Rust, Reply::Rust(rust)) => Answers { rust: Some(rust), ..answers },
        (Question::Dart, Reply::Dart { needs_freezed }) => Answers { needs_freezed, ..answers },
        (Question::Symbols, Reply::Names(names)) => Answers {
            exclude_symbols: Some(names),
            ..answers
        },
        (Question::Dummy, Reply::Text(text)) => Answers { c_dummy: Some(text), ..answers },
        (Question::Header, Reply::Text(text)) => {
            let mut headers = answers.headers;
            let ghost read = texts(headers@);
            headers.push(text);
            assert(texts(headers@) =~= read.push(text@));
            Answers { headers, ..answers }
        },
        (Question::Import, Reply::Text(text)) => Answers { import: Some(text), ..answers },
        _ => answers,
    }
}

/// Starts a code generation, whose first step is to make sure that the tools are there. A path in
/// `config` that lacks a part makes a difference only where that part is needed.
pub fn frb_codegen(config: Opts, stubs: BindgenStubs, all_symbols: Vec<String>) -> (run: CodegenRun)
    ensures
        run.job().config == config,
        run.job().paths.are_of(config),
        run.job().stubs == stubs,
        run.job().all_symbols == all_symbols,
        run.answers() == no_answers(),
        run.position() == 0,
        run.script() == opening(run.job()),
        run.due() == first_step(run.job()),
{
    let paths = output_paths(&config);
    assert(texts(config.c_output_path@).len() == paths.c_output_dirs@.len());
    CodegenRun::start(Job { config, paths, stubs, all_symbols })
}

/// `states` are where a generation stands from the start on, one after each of `replies`, each of
/// which answers its step or says that it failed.
pub open spec fn is_course<E>(states: Seq<Progress<E>>, replies: Seq<Reply<E>>) -> bool {
    &&& states.len() == replies.len() + 1
    &&& forall|i: int|
        0 <= i < replies.len() ==> {
            &&& (#[trigger] states[i]) is Running
            &&& follows(states[i]->Running_0, replies[i], states[i + 1])
            &&& replies[i] is Failed || answers_question(
                question(states[i]->Running_0.due()),
                replies[i],
            )
        }
}

/// The steps that were due in the states before the last.
pub open spec fn steps_due<E>(states: Seq<Progress<E>>) -> Seq<StepView> {
    Seq::new((states.len() - 1) as nat, |i: int| states[i]->Running_0.due())
}

/// `answers` with those that `replies` give to the steps `due`, one to each.
pub open spec fn answers_given<E>(
    answers: AnswersView,
    due: Seq<StepView>,
    replies: Seq<Reply<E>>,
) -> AnswersView
    decreases replies.len(),
{
    if replies.len() == 0 {
        answers
    } else {
        recorded(
            answers_given(answers, due.drop_last(), replies.drop_last()),
            question(due.last()),
            replies.last(),
        )
    }
}

/// A generation does the steps of its script in order, each of them once, and the script is the one
/// that the answers given on the way make it. It is over only after the whole script, with no step
/// failed, and ends as that script does; a step that fails is the last that is done, and its
/// failure is that of the generation.
pub proof fn generation_follows_its_script<E>(
    run: CodegenRun,
    states: Seq<Progress<E>>,
    replies: Seq<Reply<E>>,
)
    requires
        run.position() == 0,
        is_course(states, replies),
        states[0] == Progress::<E>::Running(run),
    ensures
        forall|i: int| 0 <= i < replies.len() - 1 ==> !((#[trigger] replies[i]) is Failed),
        ({
            let answers = answers_given(run.answers(), steps_due(states), replies);
            match states.last() {
                Progress::Running(last) => {
                    &&& last.job() == run.job()
                    &&& last.answers() == answers
                    &&& last.performed() == steps_due(states)
                    &&& last.position() == replies.len()
                    &&& replies.len() > 0 ==> !(replies.last() is Failed)
                },
                Progress::Finished(Err(CodegenError::Step(error))) => {
                    &&& replies.len() > 0
                    &&& replies.last() == Reply::<E>::Failed(error)
                },
                Progress::Finished(outcome) => {
                    &&& replies.len() > 0
                    &&& !(replies.last() is Failed)
                    &&& is_complete(run.job(), answers) || breaks_off(run.job(), answers)
                    &&& steps_due(states) == script(run.job(), answers)
                    &&& outcome == ending::<E>(run.job(), answers)
                },
            }
        }),
    decreases replies.len(),
{
    if replies.len() == 0 {
        assert(steps_due(states) =~= run.performed());
    } else {
        let earlier = replies.drop_last();
        let before = states.drop_last();
        assert(states[replies.len() - 1] is Running);
        assert forall|i: int| 0 <= i < earlier.len() implies {
            &&& (#[trigger] before[i]) is Running
            &&& follows(before[i]->Running_0, earlier[i], before[i + 1])
            &&& earlier[i] is Failed || answers_question(
                question(before[i]->Running_0.due()),
                earlier[i],
            )
        } by {
            assert(states[i] is Running);
        }
        generation_follows_its_script(run, before, earlier);
        assert forall|i: int| 0 <= i < replies.len() - 1 implies !((
        #[trigger] replies[i]) is Failed) by {
            assert(replies[i] == earlier[i]);
        }
        let last = before.last()->Running_0;
        assert(before.last() == states[replies.len() - 1]);
        assert(steps_due(states) =~= steps_due(before).push(last.due()));
        assert(steps_due(states).drop_last() =~= steps_due(before));
        assert(states.last() == states[replies.len() as int]);
    }
}

/// Where the tools are missing, or the source cannot be parsed, the generation fails with just that,
/// whatever its paths lack, and nothing else was done: no directory was created, no file was
/// written, and no formatter and no builder was run. A path without a directory is found out only
/// after the tools, and before the source is parsed.
pub proof fn early_failures_come_first<E>(
    run: CodegenRun,
    states: Seq<Progress<E>>,
    replies: Seq<Reply<E>>,
)
    requires
        run.position() == 0,
        run.answers() == no_answers(),
        run.script() == opening(run.job()),
        is_course(states, replies),
        states[0] == Progress::<E>::Running(run),
    ensures
        replies.len() > 0 ==> steps_due(states)[0] == first_step(run.job()),
        replies.len() > 0 && replies[0] is Failed ==> {
            &&& steps_due(states) == seq![first_step(run.job())]
            &&& states.last() == Progress::<E>::Finished(
                Err(CodegenError::Step(replies[0]->Failed_0)),
            )
        },
        replies.len() > 0 && !(replies[0] is Failed) && run.job().paths.lacks_output_dir() ==> {
            &&& steps_due(states) == seq![first_step(run.job())]
            &&& states.last() == Progress::<E>::Finished(Err(CodegenError::PathLacksPart))
        },
        replies.len() > 1 ==> steps_due(states)[1] == StepView::ParseSource,
        replies.len() > 1 && replies[1] is Failed ==> {
            &&& steps_due(states) == seq![first_step(run.job()), StepView::ParseSource]
            &&& states.last() == Progress::<E>::Finished(
                Err(CodegenError::Step(replies[1]->Failed_0)),
            )
        },
{
    if replies.len() > 0 {
        assert(states[0] is Running);
        if replies[0] is Failed || run.job().paths.lacks_output_dir() {
            if replies.len() > 1 {
                assert(states[1] is Running);
            }
            assert(steps_due(states) =~= seq![first_step(run.job())]);
        } else if replies.len() > 1 {
            assert(states[1] is Running);
            let second = states[1]->Running_0;
            assert(second.answers() == no_answers());
            assert(second.due() == run.script()[1]);
            if replies[1] is Failed {
                if replies.len() > 2 {
                    assert(states[2] is Running);
                }
                assert(steps_due(states) =~= seq![first_step(run.job()), StepView::ParseSource]);
            }
        }
    }
}

/// A generation whose paths lack nothing never ends for want of a part.
pub proof fn whole_paths_never_break_off<E>(job: Job, answers: AnswersView)
    requires
        job.is_valid(),
        job.paths.lack_nothing(job.config),
    ensures
        !breaks_off(job, answers),
        ending::<E>(job, answers) != Err::<(), CodegenError<E>>(CodegenError::PathLacksPart),
{
}

/// `step` writes a Dart file, or works on Dart files that are written.
pub open spec fn touches_dart_files(step: StepView) -> bool {
    step is WriteDart || step is WriteJoined || step is BuildRunner || step is FormatDart
}

/// No Dart file is written, built or formatted before the Dart wrapper class was found sane.
pub proof fn wire_is_checked_before_dart_files(job: Job, answers: AnswersView, i: int)
    requires
        0 <= i < script(job, answers).len(),
        touches_dart_files(script(job, answers)[i]),
    ensures
        exists|j: int| 0 <= j < i && #[trigger] script(job, answers)[j] is CheckWire,
{
    reveal(script);
    let whole = script(job, answers);
    let front = opening(job) + rust_section(job, answers) + bindgen_section(job, answers);
    let headers = header_section(job, answers);
    let dart = dart_section(job, answers);
    assert(whole =~= front + headers + dart + end_section(job, answers));
    headers_leave_dart_files(job, answers, job.config.c_output_path@.len() as int);
    headers_leave_dart_files(job, answers, answers.headers.len() as int + 1);
    if i >= front.len() && i < front.len() + headers.len() {
        assert(whole[i] == headers[i - front.len()]);
    }
    assert(i >= front.len() + headers.len());
    assert(whole[(front.len() + headers.len() + 2) as int] == dart[2]);
}

proof fn headers_leave_dart_files(job: Job, answers: AnswersView, count: int)
    ensures
        forall|i: int|
            0 <= i < headers_up_to(job, answers, count).len() ==> !touches_dart_files(
                #[trigger] headers_up_to(job, answers, count)[i],
            ),
    decreases count,
{
    if count > 0 {
        headers_leave_dart_files(job, answers, count - 1);
        let earlier = headers_up_to(job, answers, count - 1);
        let last = one_header(job, answers, count - 1);
        assert forall|i: int| 0 <= i < (earlier + last).len() implies !touches_dart_files(
            #[trigger] (earlier + last)[i],
        ) by {
            if i < earlier.len() {
                assert((earlier + last)[i] == earlier[i]);
            } else {
                assert((earlier + last)[i] == last[i - earlier.len()]);
            }
        }
    }
}

/// Once all answers are in, the script ends with the formatting of the Dart files, unless the root
/// of the Dart package is needed and unknown.
pub proof fn formatting_comes_last(job: Job, answers: AnswersView)
    requires
        is_complete(job, answers),
        !lacks_dart_root(job, answers),
    ensures
        script(job, answers).len() > 0,
        script(job, answers).last() is FormatDart,
{
    reveal(script);
    let end = end_section(job, answers);
    assert(closing(job, answers).last() is FormatDart);
    assert(end.last() is FormatDart);
    assert(script(job, answers).last() == end.last());
}

/// Once all answers are in, the script writes every generated Rust file, every C header and every
/// Dart file.
pub proof fn complete_script_writes_all_files(job: Job, answers: AnswersView)
    requires
        job.is_valid(),
        is_complete(job, answers),
    ensures
        forall|i: int|
            0 <= i < rust_files(job.config, job.paths, answers.rust->0.code).len()
                ==> #[trigger] script(job, answers).contains(
                StepView::WriteText {
                    file: rust_files(job.config, job.paths, answers.rust->0.code)[i],
                },
            ),
        forall|i: int|
            0 <= i < job.config.c_output_path@.len() ==> #[trigger] script(job, answers).contains(
                StepView::WriteText {
                    file: TextFileView {
                        path: job.config.c_output_path@[i]@,
                        text: answers.headers[i] + "\n"@ + answers.c_dummy->0,
                    },
                },
            ),
        is_single(job.config) ==> script(job, answers).contains(
            StepView::WriteJoined {
                path: single_file(job.config).path,
                import: with_unique_lines(answers.import->0),
            },
        ),
        !is_single(job.config) ==> forall|i: int|
            0 <= i < all_dart_files(job.config, job.paths).len() ==> #[trigger] script(
                job,
                answers,
            ).contains(
                StepView::WriteDart { dart_file: all_dart_files(job.config, job.paths)[i] },
            ),
{
    reveal(script);
    let whole = script(job, answers);
    let first = opening(job).len() as int;
    let rust = rust_section(job, answers);
    let before_headers = first + rust.len() + bindgen_section(job, answers).len();
    let headers = header_section(job, answers);
    let dart = dart_section(job, answers);
    assert forall|i: int|
        0 <= i < rust_files(job.config, job.paths, answers.rust->0.code).len() implies #[trigger]
    whole.contains(
        StepView::WriteText { file: rust_files(job.config, job.paths, answers.rust->0.code)[i] },
    ) by {
        assert(whole[first + i] == rust[i]);
    }
    assert forall|i: int| 0 <= i < job.config.c_output_path@.len() implies #[trigger] whole.contains(
        StepView::WriteText {
            file: TextFileView {
                path: job.config.c_output_path@[i]@,
                text: answers.headers[i] + "\n"@ + answers.c_dummy->0,
            },
        },
    ) by {
        header_is_written(job, answers, job.config.c_output_path@.len() as int, i);
        assert(whole[before_headers + 4 * i + 3] == headers[4 * i + 3]);
    }
    let before_dart = before_headers + headers.len();
    if is_single(job.config) {
        assert(whole[(before_dart + dart.len()) as int] == end_section(job, answers)[0]);
    } else {
        assert forall|i: int|
            0 <= i < all_dart_files(job.config, job.paths).len() implies #[trigger] whole.contains(
            StepView::WriteDart { dart_file: all_dart_files(job.config, job.paths)[i] },
        ) by {
            assert(whole[before_dart + 3 + i] == dart[3 + i]);
        }
    }
}

proof fn header_is_written(job: Job, answers: AnswersView, count: int, i: int)
    requires
        0 <= i < count <= answers.headers.len(),
        has_header_dirs(job, count),
    ensures
        headers_up_to(job, answers, count).len() == 4 * count,
        headers_up_to(job, answers, count)[4 * i + 3] == (StepView::WriteText {
            file: TextFileView {
                path: job.config.c_output_path@[i]@,
                text: answers.headers[i] + "\n"@ + answers.c_dummy->0,
            },
        }),
    decreases count,
{
    header_steps(job, answers, count);
    header_steps(job, answers, count - 1);
    if i < count - 1 {
        header_is_written(job, answers, count - 1, i);
    }
}

} // verus!
