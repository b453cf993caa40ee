//! The course of a call from Dart.
//!
//! Running the called function, sending to a port and running an error handler can each panic. The
//! functions here take what came of one of these and say what comes next, so that no panic is lost
//! and none gets through to Dart.

use crate::error::{Error, Outcome, PanicPayload, ReturnedError};
use crate::handler::{
    is_failure, wire_sync_from_data, wires_error, ErrorHandler, FfiCallMode, MessagePort,
    SimpleHandler, ThreadPoolExecutor, WireSyncReturn, WireValue, WrapInfo,
};
use vstd::prelude::*;

verus! {

/// A call whose task is being prepared or handed to the executor.
pub struct WrapRun {
    wrap_info: WrapInfo,
    port: MessagePort,
    future: bool,
}

/// What comes next in a call that does not return at once.
pub enum WrapNext {
    /// Prepare the task.
    Prepare(WrapRun),
    /// Hand the task to the executor, as a function.
    Execute(WrapRun),
    /// Hand the task to the executor, as a future.
    ExecuteFuture(WrapRun),
    /// Run the error handler; whatever comes of that, the call is over then.
    HandleError { port: MessagePort, error: Error },
    /// The call is over.
    Over,
}

/// `next` is how a call made with `wrap_info` starts, whose task is a future or not: one without a
/// port is over at once.
pub open spec fn starts_call(wrap_info: WrapInfo, future: bool, next: WrapNext) -> bool {
    match wrap_info.port {
        Some(_) => next matches WrapNext::Prepare(run) && run.info() == wrap_info
            && run.is_future() == future,
        None => next is Over,
    }
}

/// `next` is what comes after the preparation of the task, a future or not, had `outcome`.
pub open spec fn follows_preparation(
    wrap_info: WrapInfo,
    future: bool,
    outcome: Outcome<()>,
    next: WrapNext,
) -> bool {
    match outcome {
        Outcome::Completed(_) => if future {
            next matches WrapNext::ExecuteFuture(run) && run.info() == wrap_info
        } else {
            next matches WrapNext::Execute(run) && run.info() == wrap_info
        },
        Outcome::Panicked(payload) => next == (WrapNext::HandleError {
            port: wrap_info.port->0,
            error: Error::Panic(payload),
        }),
    }
}

/// `next` is what comes after handing the task to the executor had `outcome`.
pub open spec fn follows_execution(
    wrap_info: WrapInfo,
    outcome: Outcome<()>,
    next: WrapNext,
) -> bool {
    match outcome {
        Outcome::Completed(_) => next is Over,
        Outcome::Panicked(payload) => next == (WrapNext::HandleError {
            port: wrap_info.port->0,
            error: Error::Panic(payload),
        }),
    }
}

impl WrapRun {
    #[verifier::type_invariant]
    spec fn is_well_formed(self) -> bool {
        self.wrap_info.port == Some(self.port)
    }

    /// What the call was made with.
    pub closed spec fn info(self) -> WrapInfo {
        self.wrap_info
    }

    /// The task is a future.
    pub closed spec fn is_future(self) -> bool {
        self.future
    }

    /// What the executor is to be told.
    pub fn wrap_info(&self) -> (wrap_info: WrapInfo)
        ensures
            wrap_info == self.info(),
            wrap_info.port is Some,
    {
        proof {
            use_type_invariant(self);
        }
        self.wrap_info.clone()
    }

    /// Goes on after the preparation of the task.
    pub fn prepared(self, outcome: Outcome<()>) -> (next: WrapNext)
        ensures
            follows_preparation(self.info(), self.is_future(), outcome, next),
    {
        proof {
            use_type_invariant(&self);
        }
        match outcome {
            Outcome::Completed(_) => if self.future {
                WrapNext::ExecuteFuture(self)
            } else {
                WrapNext::Execute(self)
            },
            Outcome::Panicked(payload) => WrapNext::HandleError {
                port: self.port,
                error: Error::Panic(payload),
            },
        }
    }

    /// Goes on after the task was handed to the executor.
    pub fn executed(self, outcome: Outcome<()>) -> (next: WrapNext)
        ensures
            follows_execution(self.info(), outcome, next),
    {
        proof {
            use_type_invariant(&self);
        }
        match outcome {
            Outcome::Completed(_) => WrapNext::Over,
            Outcome::Panicked(payload) => WrapNext::HandleError {
                port: self.port,
                error: Error::Panic(payload),
            },
        }
    }
}

/// What is sent to Dart of a task, or handed to the error handler.
pub enum Report<T> {
    /// Send the result.
    Success { port: MessagePort, value: T },
    /// Run the error handler.
    HandleError { port: MessagePort, error: Error },
    /// Send nothing: the task has sent its results itself.
    Nothing,
}

/// The report on what a task has returned.
pub open spec fn report<T>(
    port: MessagePort,
    mode: FfiCallMode,
    task_result: Result<T, ReturnedError>,
) -> Report<T> {
    match task_result {
        Ok(value) => match mode {
            FfiCallMode::Normal => Report::Success { port, value },
            _ => Report::Nothing,
        },
        Err(error) => Report::HandleError { port, error: Error::ResultError(error) },
    }
}

/// Reports on what a task has returned. A task that returns at once does not come here.
pub fn report_task_result<T>(
    port: MessagePort,
    mode: FfiCallMode,
    task_result: Result<T, ReturnedError>,
) -> (result: Report<T>)
    requires
        task_result is Ok ==> !(mode is Sync),
    ensures
        result == report(port, mode, task_result),
{
    match task_result {
        Ok(value) => match mode {
            FfiCallMode::Normal => Report::Success { port, value },
            _ => Report::Nothing,
        },
        Err(error) => Report::HandleError { port, error: Error::ResultError(error) },
    }
}

/// A task that the executor runs.
pub struct TaskRun {
    port: MessagePort,
    mode: FfiCallMode,
}

/// What to do when a report was made.
pub enum AfterReport {
    /// If making it panicked, report that.
    Watch { port: MessagePort },
    /// Nothing: the task is over.
    Leave,
}

/// What comes next for a task.
pub enum TaskNext<T> {
    /// Make a report.
    Report { report: Report<T>, then: AfterReport },
    /// The task is over.
    Over,
}

/// What is said of a task that returns at once and was run as one that does not.
pub open spec fn sync_misuse() -> Seq<char> {
    "execute and execute_async should never be called with FfiCallMode::Sync, please call execute_sync instead"@
}

/// The report of a panic with `payload`, after which nothing comes.
pub open spec fn panic_report<T>(port: MessagePort, payload: PanicPayload) -> TaskNext<T> {
    TaskNext::Report {
        report: Report::HandleError { port, error: Error::Panic(payload) },
        then: AfterReport::Leave,
    }
}

/// `next` is the report of a panic with the literal `text`, after which nothing comes.
pub open spec fn reports_literal<T>(next: TaskNext<T>, port: MessagePort, text: Seq<char>) -> bool {
    exists|literal: &'static str|
        literal@ == text && next == #[trigger] panic_report::<T>(
            port,
            PanicPayload::Literal(literal),
        )
}

/// `next` is what comes after the task of `port` and `mode` had `outcome`.
pub open spec fn follows_task<T>(
    port: MessagePort,
    mode: FfiCallMode,
    outcome: Outcome<Result<T, ReturnedError>>,
    next: TaskNext<T>,
) -> bool {
    match outcome {
        Outcome::Panicked(payload) => next == panic_report::<T>(port, payload),
        Outcome::Completed(result) => if result is Ok && mode is Sync {
            reports_literal(next, port, sync_misuse())
        } else if report(port, mode, result) is Nothing {
            next is Over
        } else {
            next == (TaskNext::Report {
                report: report(port, mode, result),
                then: AfterReport::Watch { port },
            })
        },
    }
}

impl TaskRun {
    /// The port that the task reports to.
    pub closed spec fn to_port(self) -> MessagePort {
        self.port
    }

    /// How the task was called.
    pub closed spec fn call_mode(self) -> FfiCallMode {
        self.mode
    }

    /// Goes on after the task was run.
    pub fn settled<T>(self, outcome: Outcome<Result<T, ReturnedError>>) -> (next: TaskNext<T>)
        ensures
            follows_task(self.to_port(), self.call_mode(), outcome, next),
    {
        let port = self.port;
        match outcome {
            Outcome::Panicked(payload) => TaskNext::Report {
                report: Report::HandleError { port, error: Error::Panic(payload) },
                then: AfterReport::Leave,
            },
            Outcome::Completed(result) => {
                let misused = match (&result, self.mode) {
                    (Ok(_), FfiCallMode::Sync) => true,
                    _ => false,
                };
                if misused {
                    let payload = PanicPayload::Literal(
                        "execute and execute_async should never be called with FfiCallMode::Sync, please call execute_sync instead",
                    );
                    let next = TaskNext::Report {
                        report: Report::HandleError { port, error: Error::Panic(payload) },
                        then: AfterReport::Leave,
                    };
                    assert(next == panic_report::<T>(port, payload));
                    return next;
                }
                match report_task_result(port, self.mode, result) {
                    Report::Nothing => TaskNext::Over,
                    report => TaskNext::Report { report, then: AfterReport::Watch { port } },
                }
            },
        }
    }
}

impl AfterReport {
    /// Goes on after the report was made.
    pub fn reported<T>(self, outcome: Outcome<()>) -> (next: TaskNext<T>)
        ensures
            follows_report(self, outcome, next),
    {
        match (self, outcome) {
            (AfterReport::Watch { port }, Outcome::Panicked(payload)) => TaskNext::Report {
                report: Report::HandleError { port, error: Error::Panic(payload) },
                then: AfterReport::Leave,
            },
            _ => TaskNext::Over,
        }
    }
}

/// `next` is what comes after making a report had `outcome`.
pub open spec fn follows_report<T>(
    then: AfterReport,
    outcome: Outcome<()>,
    next: TaskNext<T>,
) -> bool {
    match (then, outcome) {
        (AfterReport::Watch { port }, Outcome::Panicked(payload)) => next == panic_report::<T>(
            port,
            payload,
        ),
        _ => next is Over,
    }
}

impl<EH: ErrorHandler> ThreadPoolExecutor<EH> {
    /// Executes a Rust function and reports on what it returns.
    pub fn execute(&self, wrap_info: WrapInfo) -> (run: TaskRun)
        requires
            wrap_info.port is Some,
        ensures
            run.to_port() == wrap_info.port->0,
            run.call_mode() == wrap_info.mode,
    {
        TaskRun { port: wrap_info.port.unwrap(), mode: wrap_info.mode }
    }

    /// Executes a Rust future and reports on what it returns.
    pub fn execute_future(&self, wrap_info: WrapInfo) -> (run: TaskRun)
        requires
            wrap_info.port is Some,
        ensures
            run.to_port() == wrap_info.port->0,
            run.call_mode() == wrap_info.mode,
    {
        TaskRun { port: wrap_info.port.unwrap(), mode: wrap_info.mode }
    }
}

/// The error handler of a call that returns at once is being run.
pub enum Handling {
    /// For what the task has returned.
    Result,
    /// For a panic.
    Panic,
}

/// What comes next in a call that returns at once.
pub enum SyncNext<D> {
    /// Run the error handler.
    HandleError { error: Error, handling: Handling },
    /// Return to Dart.
    Finished(WireSyncReturn<D>),
}

/// What comes after the task of a call that returns at once was run.
pub open spec fn sync_after_task<D>(outcome: Outcome<Result<D, ReturnedError>>) -> SyncNext<D> {
    match outcome {
        Outcome::Completed(Ok(data)) => SyncNext::Finished(
            WireSyncReturn { data: WireValue::Data(data), success: true },
        ),
        Outcome::Completed(Err(error)) => SyncNext::HandleError {
            error: Error::ResultError(error),
            handling: Handling::Result,
        },
        Outcome::Panicked(payload) => SyncNext::HandleError {
            error: Error::Panic(payload),
            handling: Handling::Panic,
        },
    }
}

/// What comes after the error handler of a call that returns at once was run.
pub open spec fn sync_after_handler<D>(
    handling: Handling,
    outcome: Outcome<WireSyncReturn<D>>,
) -> SyncNext<D> {
    match (handling, outcome) {
        (_, Outcome::Completed(wire)) => SyncNext::Finished(wire),
        (Handling::Result, Outcome::Panicked(payload)) => SyncNext::HandleError {
            error: Error::Panic(payload),
            handling: Handling::Panic,
        },
        (Handling::Panic, Outcome::Panicked(_)) => SyncNext::Finished(
            WireSyncReturn { data: WireValue::Null, success: false },
        ),
    }
}

impl Handling {
    /// Goes on after the error handler was run.
    pub fn handled<D>(self, outcome: Outcome<WireSyncReturn<D>>) -> (next: SyncNext<D>)
        ensures
            next == sync_after_handler(self, outcome),
    {
        match (self, outcome) {
            (_, Outcome::Completed(wire)) => SyncNext::Finished(wire),
            (Handling::Result, Outcome::Panicked(payload)) => SyncNext::HandleError {
                error: Error::Panic(payload),
                handling: Handling::Panic,
            },
            (Handling::Panic, Outcome::Panicked(_)) => SyncNext::Finished(
                wire_sync_from_data(WireValue::Null, false),
            ),
        }
    }
}

impl<E, EH: ErrorHandler> SimpleHandler<E, EH> {
    /// Starts a call: prepares its arguments, executes a Rust function and sets up its return
    /// value. A call without a port is over at once, since nobody could be told of it.
    pub fn wrap(&self, wrap_info: WrapInfo) -> (next: WrapNext)
        ensures
            starts_call(wrap_info, false, next),
    {
        match wrap_info.port {
            Some(port) => WrapNext::Prepare(WrapRun { wrap_info, port, future: false }),
            None => WrapNext::Over,
        }
    }

    /// Same as [`SimpleHandler::wrap`], but for a future.
    pub fn wrap_future(&self, wrap_info: WrapInfo) -> (next: WrapNext)
        ensures
            starts_call(wrap_info, true, next),
    {
        match wrap_info.port {
            Some(port) => WrapNext::Prepare(WrapRun { wrap_info, port, future: true }),
            None => WrapNext::Over,
        }
    }

    /// Goes on after the task of a call that returns at once was run.
    pub fn wrap_sync<D>(&self, outcome: Outcome<Result<D, ReturnedError>>) -> (next: SyncNext<D>)
        ensures
            next == sync_after_task(outcome),
    {
        match outcome {
            Outcome::Completed(Ok(data)) => SyncNext::Finished(
                wire_sync_from_data(WireValue::Data(data), true),
            ),
            Outcome::Completed(Err(error)) => SyncNext::HandleError {
                error: Error::ResultError(error),
                handling: Handling::Result,
            },
            Outcome::Panicked(payload) => SyncNext::HandleError {
                error: Error::Panic(payload),
                handling: Handling::Panic,
            },
        }
    }
}

/// `next` comes after `before`, with what came of the preparation or of handing over the task if
/// that was to be done.
pub open spec fn wrap_continues(
    before: WrapNext,
    preparation: Outcome<()>,
    execution: Outcome<()>,
    next: WrapNext,
) -> bool {
    match before {
        WrapNext::Prepare(run) => follows_preparation(
            run.info(),
            run.is_future(),
            preparation,
            next,
        ),
        WrapNext::Execute(run) => follows_execution(run.info(), execution, next),
        WrapNext::ExecuteFuture(run) => follows_execution(run.info(), execution, next),
        _ => next == before,
    }
}

/// A call prepares its task and hands it to the executor. It runs the error handler exactly when one
/// of these panics, with that panic and its own port; the task is handed over only if it was
/// prepared, as what it is, and a call without a port does nothing at all.
pub proof fn call_handles_its_panic(
    wrap_info: WrapInfo,
    future: bool,
    preparation: Outcome<()>,
    execution: Outcome<()>,
    start: WrapNext,
    middle: WrapNext,
    last: WrapNext,
)
    requires
        starts_call(wrap_info, future, start),
        wrap_continues(start, preparation, execution, middle),
        wrap_continues(middle, preparation, execution, last),
    ensures
        match wrap_info.port {
            None => start is Over && last is Over,
            Some(port) => {
                &&& start is Prepare
                &&& middle is Execute <==> preparation is Completed && !future
                &&& middle is ExecuteFuture <==> preparation is Completed && future
                &&& match (preparation, execution) {
                    (Outcome::Panicked(payload), _) => last == (WrapNext::HandleError {
                        port,
                        error: Error::Panic(payload),
                    }),
                    (Outcome::Completed(_), Outcome::Panicked(payload)) => last == (
                    WrapNext::HandleError { port, error: Error::Panic(payload) }),
                    _ => last is Over,
                }
            },
        },
{
}

/// `next` comes after `before`, with what came of the error handler if it was to be run.
pub open spec fn sync_continues<D>(
    before: SyncNext<D>,
    outcome: Outcome<WireSyncReturn<D>>,
    next: SyncNext<D>,
) -> bool {
    match before {
        SyncNext::Finished(_) => next == before,
        SyncNext::HandleError { handling, .. } => next == sync_after_handler(handling, outcome),
    }
}

/// A call that returns at once does return, whatever panics: its task is run once and the error
/// handler at most twice.
pub proof fn sync_call_returns<D>(
    task: Outcome<Result<D, ReturnedError>>,
    first: Outcome<WireSyncReturn<D>>,
    second: Outcome<WireSyncReturn<D>>,
    middle: SyncNext<D>,
    last: SyncNext<D>,
)
    requires
        sync_continues(sync_after_task(task), first, middle),
        sync_continues(middle, second, last),
    ensures
        last is Finished,
{
}

/// The task ran to its end and returned without an error.
pub open spec fn returned_ok<T>(task: Outcome<Result<T, ReturnedError>>) -> bool {
    match task {
        Outcome::Completed(result) => result is Ok,
        Outcome::Panicked(_) => false,
    }
}

/// The task ran to its end and returned an error whose message can be told.
pub open spec fn returned_error<T>(task: Outcome<Result<T, ReturnedError>>) -> bool {
    match task {
        Outcome::Completed(Err(returned)) => returned.shown is Completed,
        _ => false,
    }
}

/// As long as the error handler claims no success, a call that returns at once is a success
/// exactly when its task returned without an error.
pub proof fn sync_success_is_that_of_the_task<D>(
    task: Outcome<Result<D, ReturnedError>>,
    first: Outcome<WireSyncReturn<D>>,
    second: Outcome<WireSyncReturn<D>>,
    middle: SyncNext<D>,
    last: SyncNext<D>,
)
    requires
        first matches Outcome::Completed(wire) ==> !wire.success,
        second matches Outcome::Completed(wire) ==> !wire.success,
        sync_continues(sync_after_task(task), first, middle),
        sync_continues(middle, second, last),
    ensures
        last matches SyncNext::Finished(wire) && (wire.success <==> returned_ok(task)),
{
}

/// What a call that returns at once tells Dart with the default error handler, after its task had
/// `task` and failed: the code and the message of the error, or of the panic that telling the
/// message ended in.
pub open spec fn default_failure<D>(task: Outcome<Result<D, ReturnedError>>) -> Seq<char> {
    match task {
        Outcome::Completed(Err(returned)) => match returned.shown {
            Outcome::Completed(message) => "RESULT_ERROR"@ + ": "@ + message@,
            Outcome::Panicked(payload) => "PANIC_ERROR"@ + ": "@ + payload.text(),
        },
        Outcome::Panicked(payload) => "PANIC_ERROR"@ + ": "@ + payload.text(),
        _ => seq![],
    }
}

/// `wire` is what a call that returns at once hands to Dart with the default error handler, after
/// its task had `task`: what the task returned and a success, or else a failure.
pub open spec fn is_default_answer<D>(
    task: Outcome<Result<D, ReturnedError>>,
    wire: WireSyncReturn<D>,
) -> bool {
    match task {
        Outcome::Completed(Ok(data)) => wire == (WireSyncReturn {
            data: WireValue::Data(data),
            success: true,
        }),
        _ => is_failure(wire, default_failure(task)),
    }
}

/// `outcome` is that of the default error handler, if `before` says to run it.
pub open spec fn default_handler_ran<D>(
    before: SyncNext<D>,
    outcome: Outcome<WireSyncReturn<D>>,
) -> bool {
    before matches SyncNext::HandleError { error, .. } ==> wires_error(error, outcome)
}

/// With the default error handler, what a call that returns at once hands to Dart is settled by what
/// came of its task, and by nothing that the call was made with.
pub proof fn default_answer_is_that_of_the_task<D>(
    task: Outcome<Result<D, ReturnedError>>,
    first: Outcome<WireSyncReturn<D>>,
    second: Outcome<WireSyncReturn<D>>,
    middle: SyncNext<D>,
    last: SyncNext<D>,
)
    requires
        sync_continues(sync_after_task(task), first, middle),
        sync_continues(middle, second, last),
        default_handler_ran(sync_after_task(task), first),
        default_handler_ran(middle, second),
    ensures
        last matches SyncNext::Finished(wire) && is_default_answer(task, wire),
{
}

/// Two calls that return at once with the default error handler, whose tasks came to the same, hand
/// the same to Dart. It is a success exactly when the task returned without an error, and else a
/// text that starts with the code of an error: that of a returned error, where its message could be
/// told, and that of a panic in all other cases.
pub proof fn default_answers_agree<D>(
    task: Outcome<Result<D, ReturnedError>>,
    one: WireSyncReturn<D>,
    other: WireSyncReturn<D>,
)
    requires
        is_default_answer(task, one),
        is_default_answer(task, other),
    ensures
        one.success == other.success,
        one.success <==> returned_ok(task),
        returned_ok(task) ==> one == other,
        !returned_ok(task) ==> {
            &&& one.data is Text
            &&& other.data is Text
            &&& one.data->Text_0@ == other.data->Text_0@
            &&& (if returned_error(task) {
                "RESULT_ERROR: "@
            } else {
                "PANIC_ERROR: "@
            }).is_prefix_of(one.data->Text_0@)
        },
{
    reveal_strlit("PANIC_ERROR");
    reveal_strlit("RESULT_ERROR");
    reveal_strlit(": ");
    reveal_strlit("PANIC_ERROR: ");
    reveal_strlit("RESULT_ERROR: ");
    assert("PANIC_ERROR: "@ =~= "PANIC_ERROR"@ + ": "@);
    assert("RESULT_ERROR: "@ =~= "RESULT_ERROR"@ + ": "@);
}

/// `next` comes after `before`, with what came of making the report if there was one to be made.
pub open spec fn task_continues<T>(
    before: TaskNext<T>,
    outcome: Outcome<()>,
    next: TaskNext<T>,
) -> bool {
    match before {
        TaskNext::Over => next is Over,
        TaskNext::Report { then, .. } => follows_report(then, outcome, next),
    }
}

/// A task makes at most two reports. It makes a second one only for a panic while the first was
/// made, and none after it has reported a panic.
pub proof fn task_reports_end<T>(
    port: MessagePort,
    mode: FfiCallMode,
    task: Outcome<Result<T, ReturnedError>>,
    first: Outcome<()>,
    second: Outcome<()>,
    start: TaskNext<T>,
    middle: TaskNext<T>,
    last: TaskNext<T>,
)
    requires
        follows_task(port, mode, task, start),
        task_continues(start, first, middle),
        task_continues(middle, second, last),
    ensures
        last is Over,
        match first {
            Outcome::Completed(_) => middle is Over,
            Outcome::Panicked(payload) => middle is Over || middle == panic_report::<T>(
                port,
                payload,
            ),
        },
        forall|payload: PanicPayload|
            start == #[trigger] panic_report::<T>(port, payload) ==> middle is Over,
{
}

/// A task reports a success exactly when it was called as [`FfiCallMode::Normal`] and returned
/// without an error, and then it sends what it returned.
pub proof fn task_success_is_sent<T>(
    port: MessagePort,
    mode: FfiCallMode,
    task: Outcome<Result<T, ReturnedError>>,
    next: TaskNext<T>,
)
    requires
        follows_task(port, mode, task, next),
    ensures
        match next {
            TaskNext::Report { report: Report::Success { port: to, value }, .. } => {
                &&& to == port
                &&& mode is Normal
                &&& task == Outcome::Completed(Ok::<T, ReturnedError>(value))
            },
            _ => !(mode is Normal && returned_ok(task)),
        },
{
}

} // verus!
