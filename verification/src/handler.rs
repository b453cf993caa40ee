//! Handlers and executors for bridged functions.

use crate::error::{error_line, Error, Outcome};
use vstd::prelude::*;
use vstd::string::*;

verus! {

/// A Dart `SendPort`.
pub type MessagePort = i64;

/// The types of return values for a particular Rust function.
#[derive(Copy, Clone)]
pub enum FfiCallMode {
    /// The default mode, returns a Dart `Future<T>`.
    Normal,
    /// Used by [`SyncReturn`] to skip spawning workers.
    Sync,
    /// Returns a Dart `Stream<T>`.
    Stream,
}

/// Supporting information to identify a function's operating mode.
pub struct WrapInfo {
    /// A Dart `SendPort`. [`None`] if the mode is [`FfiCallMode::Sync`].
    pub port: Option<MessagePort>,
    /// Usually the name of the function.
    pub debug_name: &'static str,
    /// The call mode of this function.
    pub mode: FfiCallMode,
}

impl Clone for WrapInfo {
    fn clone(&self) -> (copy: Self)
        ensures
            copy == *self,
    {
        WrapInfo { port: self.port, debug_name: self.debug_name, mode: self.mode }
    }
}

/// Marks a value that is returned to Dart at once.
pub struct SyncReturn<T>(pub T);

/// A value as Dart gets it, where `D` is what the results of tasks are converted to.
pub enum WireValue<D> {
    /// The result of a task.
    Data(D),
    /// A text.
    Text(String),
    /// A truth value.
    Bool(bool),
    /// Nothing.
    Null,
}

/// What a function that returns at once hands to Dart: data, and whether the function succeeded.
pub struct WireSyncReturn<D> {
    pub data: WireValue<D>,
    pub success: bool,
}

impl<D> WireSyncReturn<D> {
    /// The list that goes over the wire.
    pub fn into_items(self) -> (items: Vec<WireValue<D>>)
        ensures
            items@ == seq![self.data, WireValue::Bool(self.success)],
    {
        let mut items: Vec<WireValue<D>> = Vec::new();
        items.push(self.data);
        items.push(WireValue::Bool(self.success));
        items
    }
}

/// Pairs `data` with whether it comes from a success.
pub fn wire_sync_from_data<D>(data: WireValue<D>, success: bool) -> (wire: WireSyncReturn<D>)
    ensures
        wire == (WireSyncReturn { data, success }),
{
    WireSyncReturn { data, success }
}

/// An error that is to be sent to a port.
pub struct ErrorReport {
    pub port: MessagePort,
    pub code: String,
    pub message: String,
}

/// `outcome` is that of telling `port` of `error`: a report with the code and the message of the
/// error, or the panic that telling its message ends in.
pub open spec fn reports_error(
    port: MessagePort,
    error: Error,
    outcome: Outcome<Option<ErrorReport>>,
) -> bool {
    match error.telling() {
        Outcome::Completed(message) => {
            &&& outcome matches Outcome::Completed(Some(sent))
            &&& sent.port == port
            &&& sent.code@ == error.code_text()
            &&& sent.message@ == message
        },
        Outcome::Panicked(payload) => outcome == Outcome::<Option<ErrorReport>>::Panicked(payload),
    }
}

/// `wire` is a failure with the text `text`.
pub open spec fn is_failure<D>(wire: WireSyncReturn<D>, text: Seq<char>) -> bool {
    &&& !wire.success
    &&& wire.data matches WireValue::Text(shown)
    &&& shown@ == text
}

/// `outcome` is that of answering with `error` at once: a failure with the code and the message of
/// the error, or the panic that telling its message ends in.
pub open spec fn wires_error<D>(error: Error, outcome: Outcome<WireSyncReturn<D>>) -> bool {
    match error.telling() {
        Outcome::Completed(message) => outcome matches Outcome::Completed(wire) && is_failure(
            wire,
            error.code_text() + ": "@ + message,
        ),
        Outcome::Panicked(payload) => outcome == Outcome::<WireSyncReturn<D>>::Panicked(payload),
    }
}

/// A handler model that sends back the error to a Dart `SendPort`.
///
/// For example, instead of using the default [`ReportDartErrorHandler`],
/// you could implement your own handler that logs each error to stderr,
/// or to an external logging service.
pub trait ErrorHandler: Copy + Send + 'static {
    /// The default error handler. What it completes with, if anything, is sent.
    fn handle_error(&self, port: MessagePort, error: Error) -> Outcome<Option<ErrorReport>>;

    /// Special handler only used for synchronous code.
    fn handle_error_sync<D>(&self, error: Error) -> Outcome<WireSyncReturn<D>>;
}

/// The default error handler used by generated code.
#[derive(Clone, Copy)]
pub struct ReportDartErrorHandler;

impl ErrorHandler for ReportDartErrorHandler {
    fn handle_error(&self, port: MessagePort, error: Error) -> (outcome: Outcome<
        Option<ErrorReport>,
    >)
        ensures
            reports_error(port, error, outcome),
    {
        let code = error.code().to_string();
        match error.into_message() {
            Outcome::Completed(message) => Outcome::Completed(
                Some(ErrorReport { port, code, message }),
            ),
            Outcome::Panicked(payload) => Outcome::Panicked(payload),
        }
    }

    fn handle_error_sync<D>(&self, error: Error) -> (outcome: Outcome<WireSyncReturn<D>>)
        ensures
            wires_error(error, outcome),
    {
        let code = error.code();
        match error.into_message() {
            Outcome::Completed(message) => Outcome::Completed(
                wire_sync_from_data(WireValue::Text(error_line(code, message.as_str())), false),
            ),
            Outcome::Panicked(payload) => Outcome::Panicked(payload),
        }
    }
}

/// The default executor used.
/// It creates an internal thread pool, and each call to a Rust function is
/// handled by a different thread.
pub struct ThreadPoolExecutor<EH: ErrorHandler> {
    error_handler: EH,
}

impl<EH: ErrorHandler> ThreadPoolExecutor<EH> {
    /// The handler of what goes wrong in a task.
    pub closed spec fn handler(self) -> EH {
        self.error_handler
    }

    /// Create a new executor backed by a thread pool.
    pub fn new(error_handler: EH) -> (executor: Self)
        ensures
            executor.handler() == error_handler,
    {
        ThreadPoolExecutor { error_handler }
    }

    /// The handler of what goes wrong in a task.
    pub fn error_handler(&self) -> (error_handler: EH)
        ensures
            error_handler == self.handler(),
    {
        self.error_handler
    }

    /// Executes a Rust function that returns a [`SyncReturn`].
    pub fn execute_sync<F, T>(&self, _wrap_info: WrapInfo, sync_task: F) -> (result: Result<
        SyncReturn<T>,
        anyhow::Error,
    >) where F: FnOnce() -> Result<SyncReturn<T>, anyhow::Error>
        requires
            call_requires(sync_task, ()),
        ensures
            call_ensures(sync_task, (), result),
    {
        sync_task()
    }
}

/// The simple handler uses a simple thread pool to execute tasks.
pub struct SimpleHandler<E, EH: ErrorHandler> {
    executor: E,
    error_handler: EH,
}

impl<E, EH: ErrorHandler> SimpleHandler<E, EH> {
    /// The executor of the tasks.
    pub closed spec fn task_executor(self) -> E {
        self.executor
    }

    /// The handler of what goes wrong.
    pub closed spec fn handler(self) -> EH {
        self.error_handler
    }

    /// Create a new default handler.
    pub fn new(executor: E, error_handler: EH) -> (handler: Self)
        ensures
            handler.task_executor() == executor,
            handler.handler() == error_handler,
    {
        SimpleHandler { executor, error_handler }
    }

    /// The executor of the tasks.
    pub fn executor(&self) -> (executor: &E)
        ensures
            *executor == self.task_executor(),
    {
        &self.executor
    }

    /// The handler of what goes wrong.
    pub fn error_handler(&self) -> (error_handler: EH)
        ensures
            error_handler == self.handler(),
    {
        self.error_handler
    }
}

/// The default handler used by the generated code.
pub type DefaultHandler = SimpleHandler<
    ThreadPoolExecutor<ReportDartErrorHandler>,
    ReportDartErrorHandler,
>;

impl Default for DefaultHandler {
    fn default() -> (handler: Self)
        ensures
            handler.task_executor().handler() == ReportDartErrorHandler,
            handler.handler() == ReportDartErrorHandler,
    {
        Self::new(ThreadPoolExecutor::new(ReportDartErrorHandler), ReportDartErrorHandler)
    }
}

} // verus!
