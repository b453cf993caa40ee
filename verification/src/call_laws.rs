//! Laws of calls from Dart: what Dart gets to know of a call, whatever comes of its task.
//!
//! Each law speaks of what the functions return for what they are given.

use crate::calls::{
    report_task_result, AfterReport, Handling, Report, SyncNext, TaskNext, TaskRun, WrapNext,
    WrapRun,
};
use crate::error::{
    error_line, with_shown_error, Error, Outcome, PanicPayload, ReturnedError,
};
use crate::handler::{
    wire_sync_from_data, wires_error, ErrorHandler, ErrorReport, FfiCallMode, MessagePort,
    ReportDartErrorHandler, SimpleHandler, SyncReturn, ThreadPoolExecutor, WireSyncReturn,
    WireValue, WrapInfo,
};
use vstd::prelude::*;

verus! {

/// A task that did not return without an error is never passed over: its error handler is run next,
/// with the port of the call. It gets the very error that the task returned, or the very panic, and
/// after a panic nothing else is reported.
pub proof fn failed_task_is_handled<T, EH: ErrorHandler>(
    executor: ThreadPoolExecutor<EH>,
    wrap_info: WrapInfo,
    port: MessagePort,
    run: TaskRun,
    outcome: Outcome<Result<T, ReturnedError>>,
    next: TaskNext<T>,
)
    requires
        wrap_info.port == Some(port),
        call_ensures(ThreadPoolExecutor::<EH>::execute, (&executor, wrap_info), run)
            || call_ensures(ThreadPoolExecutor::<EH>::execute_future, (&executor, wrap_info), run),
        call_ensures(TaskRun::settled::<T>, (run, outcome), next),
        !(outcome matches Outcome::Completed(result) && result is Ok),
    ensures
        next is Report,
        next->report is HandleError,
        next->report->HandleError_port == port,
        outcome matches Outcome::Completed(Err(error)) ==> {
            &&& next->report->HandleError_error == Error::ResultError(error)
            &&& next->then == (AfterReport::Watch { port })
        },
        outcome matches Outcome::Panicked(payload) ==> {
            &&& next->report->HandleError_error == Error::Panic(payload)
            &&& next->then is Leave
        },
{
}

/// Of a task that returned without an error, its result goes to the port of a normal call. To a
/// stream nothing is added, and a call that should have returned at once is reported as a panic that
/// says so.
pub proof fn successful_task_is_reported_by_mode<T, EH: ErrorHandler>(
    executor: ThreadPoolExecutor<EH>,
    wrap_info: WrapInfo,
    port: MessagePort,
    run: TaskRun,
    value: T,
    next: TaskNext<T>,
)
    requires
        wrap_info.port == Some(port),
        call_ensures(ThreadPoolExecutor::<EH>::execute, (&executor, wrap_info), run)
            || call_ensures(ThreadPoolExecutor::<EH>::execute_future, (&executor, wrap_info), run),
        call_ensures(
            TaskRun::settled::<T>,
            (run, Outcome::Completed(Ok::<T, ReturnedError>(value))),
            next,
        ),
    ensures
        wrap_info.mode is Normal ==> next == (TaskNext::Report {
            report: Report::Success { port, value },
            then: AfterReport::Watch { port },
        }),
        wrap_info.mode is Stream ==> next is Over,
        wrap_info.mode is Sync ==> {
            &&& next is Report
            &&& next->then is Leave
            &&& next->report is HandleError
            &&& next->report->HandleError_port == port
            &&& next->report->HandleError_error matches Error::Panic(PanicPayload::Literal(text))
            &&& text@
                == "execute and execute_async should never be called with FfiCallMode::Sync, please call execute_sync instead"@
        },
{
}

/// A function and a future are reported on alike: what is sent depends on the port, the mode and
/// what came of the task.
pub proof fn functions_and_futures_are_reported_alike<T, EH: ErrorHandler>(
    executor: ThreadPoolExecutor<EH>,
    wrap_info: WrapInfo,
    function: TaskRun,
    future: TaskRun,
    outcome: Outcome<Result<T, ReturnedError>>,
    one: TaskNext<T>,
    other: TaskNext<T>,
)
    requires
        wrap_info.port is Some,
        call_ensures(ThreadPoolExecutor::<EH>::execute, (&executor, wrap_info), function),
        call_ensures(ThreadPoolExecutor::<EH>::execute_future, (&executor, wrap_info), future),
        call_ensures(TaskRun::settled::<T>, (function, outcome), one),
        call_ensures(TaskRun::settled::<T>, (future, outcome), other),
    ensures
        one is Over <==> other is Over,
        !(wrap_info.mode is Sync) ==> one == other,
{
    if let Outcome::Completed(Ok(value)) = outcome {
        let port = wrap_info.port->0;
        successful_task_is_reported_by_mode(executor, wrap_info, port, function, value, one);
        successful_task_is_reported_by_mode(executor, wrap_info, port, future, value, other);
    } else {
        let port = wrap_info.port->0;
        failed_task_is_handled(executor, wrap_info, port, function, outcome, one);
        failed_task_is_handled(executor, wrap_info, port, future, outcome, other);
    }
}

/// A report that could be made is the last. A panic while it was made is reported in its turn, to
/// the port that is watched, and a panic while that was made is not.
pub proof fn panic_while_reporting_is_reported_once<T>(
    then: AfterReport,
    outcome: Outcome<()>,
    next: TaskNext<T>,
)
    requires
        call_ensures(AfterReport::reported::<T>, (then, outcome), next),
    ensures
        next is Over <==> outcome is Completed || then is Leave,
        next is Report ==> {
            &&& next->then is Leave
            &&& next->report == (Report::<T>::HandleError {
                port: then->port,
                error: Error::Panic(outcome->Panicked_0),
            })
        },
{
}

/// What a task returned is reported to the port that is given: an error to the error handler, the
/// result of a normal call as it is, and of a stream nothing.
pub proof fn results_are_reported<T>(
    port: MessagePort,
    mode: FfiCallMode,
    task_result: Result<T, ReturnedError>,
    report: Report<T>,
)
    requires
        call_ensures(report_task_result::<T>, (port, mode, task_result), report),
        task_result is Ok ==> !(mode is Sync),
    ensures
        task_result matches Err(error) ==> report == (Report::<T>::HandleError {
            port,
            error: Error::ResultError(error),
        }),
        task_result matches Ok(value) ==> (mode is Normal ==> report == (Report::Success {
            port,
            value,
        })),
        task_result is Ok && mode is Stream ==> report is Nothing,
{
}

/// A call whose preparation completes is handed to the executor with the very port, name and mode
/// that it was made with, a future as a future and any other task as a function.
pub proof fn call_is_handed_over_unchanged<E, EH: ErrorHandler>(
    handler: SimpleHandler<E, EH>,
    wrap_info: WrapInfo,
    future: bool,
    start: WrapNext,
    next: WrapNext,
    handed: WrapInfo,
)
    requires
        wrap_info.port is Some,
        if future {
            call_ensures(SimpleHandler::<E, EH>::wrap_future, (&handler, wrap_info), start)
        } else {
            call_ensures(SimpleHandler::<E, EH>::wrap, (&handler, wrap_info), start)
        },
        start is Prepare ==> call_ensures(
            WrapRun::prepared,
            (start->Prepare_0, Outcome::Completed(())),
            next,
        ),
        next is Execute ==> call_ensures(WrapRun::wrap_info, (&next->Execute_0,), handed),
        next is ExecuteFuture ==> call_ensures(
            WrapRun::wrap_info,
            (&next->ExecuteFuture_0,),
            handed,
        ),
    ensures
        start is Prepare,
        next is ExecuteFuture <==> future,
        next is Execute <==> !future,
        handed.port == wrap_info.port,
        handed.debug_name == wrap_info.debug_name,
        handed.mode == wrap_info.mode,
{
}

/// A call without a port is over before anything is prepared.
pub proof fn call_without_a_port_does_nothing<E, EH: ErrorHandler>(
    handler: SimpleHandler<E, EH>,
    wrap_info: WrapInfo,
    start: WrapNext,
)
    requires
        wrap_info.port is None,
        call_ensures(SimpleHandler::<E, EH>::wrap, (&handler, wrap_info), start) || call_ensures(
            SimpleHandler::<E, EH>::wrap_future,
            (&handler, wrap_info),
            start,
        ),
    ensures
        start is Over,
{
}

/// A call whose preparation panics is not handed over. The error handler is run with that panic and
/// the port of the call.
pub proof fn panic_while_preparing_is_handled<E, EH: ErrorHandler>(
    handler: SimpleHandler<E, EH>,
    wrap_info: WrapInfo,
    port: MessagePort,
    payload: PanicPayload,
    start: WrapNext,
    next: WrapNext,
)
    requires
        wrap_info.port == Some(port),
        call_ensures(SimpleHandler::<E, EH>::wrap, (&handler, wrap_info), start) || call_ensures(
            SimpleHandler::<E, EH>::wrap_future,
            (&handler, wrap_info),
            start,
        ),
        start is Prepare ==> call_ensures(
            WrapRun::prepared,
            (start->Prepare_0, Outcome::<()>::Panicked(payload)),
            next,
        ),
    ensures
        next == (WrapNext::HandleError { port, error: Error::Panic(payload) }),
{
}

/// A call that was handed over is over, unless that panicked: then the error handler is run with
/// that panic and the port of the call.
pub proof fn panic_while_handing_over_is_handled<E, EH: ErrorHandler>(
    handler: SimpleHandler<E, EH>,
    wrap_info: WrapInfo,
    port: MessagePort,
    outcome: Outcome<()>,
    start: WrapNext,
    prepared: WrapNext,
    last: WrapNext,
)
    requires
        wrap_info.port == Some(port),
        call_ensures(SimpleHandler::<E, EH>::wrap, (&handler, wrap_info), start) || call_ensures(
            SimpleHandler::<E, EH>::wrap_future,
            (&handler, wrap_info),
            start,
        ),
        start is Prepare ==> call_ensures(
            WrapRun::prepared,
            (start->Prepare_0, Outcome::Completed(())),
            prepared,
        ),
        prepared is Execute ==> call_ensures(
            WrapRun::executed,
            (prepared->Execute_0, outcome),
            last,
        ),
        prepared is ExecuteFuture ==> call_ensures(
            WrapRun::executed,
            (prepared->ExecuteFuture_0, outcome),
            last,
        ),
    ensures
        outcome is Completed ==> last is Over,
        outcome matches Outcome::Panicked(payload) ==> last == (WrapNext::HandleError {
            port,
            error: Error::Panic(payload),
        }),
{
}

/// A call for a stream whose task returns without an error sends nothing of its own, from the start
/// of the call to the end of the task.
pub proof fn stream_is_left_to_its_task<T, E, EH: ErrorHandler>(
    handler: SimpleHandler<E, EH>,
    executor: ThreadPoolExecutor<EH>,
    wrap_info: WrapInfo,
    future: bool,
    start: WrapNext,
    next: WrapNext,
    handed: WrapInfo,
    run: TaskRun,
    value: T,
    last: TaskNext<T>,
)
    requires
        wrap_info.port is Some,
        wrap_info.mode is Stream,
        if future {
            call_ensures(SimpleHandler::<E, EH>::wrap_future, (&handler, wrap_info), start)
        } else {
            call_ensures(SimpleHandler::<E, EH>::wrap, (&handler, wrap_info), start)
        },
        start is Prepare ==> call_ensures(
            WrapRun::prepared,
            (start->Prepare_0, Outcome::Completed(())),
            next,
        ),
        next is Execute ==> call_ensures(WrapRun::wrap_info, (&next->Execute_0,), handed),
        next is ExecuteFuture ==> call_ensures(
            WrapRun::wrap_info,
            (&next->ExecuteFuture_0,),
            handed,
        ),
        call_ensures(ThreadPoolExecutor::<EH>::execute, (&executor, handed), run) || call_ensures(
            ThreadPoolExecutor::<EH>::execute_future,
            (&executor, handed),
            run,
        ),
        call_ensures(
            TaskRun::settled::<T>,
            (run, Outcome::Completed(Ok::<T, ReturnedError>(value))),
            last,
        ),
    ensures
        last is Over,
{
    call_is_handed_over_unchanged(handler, wrap_info, future, start, next, handed);
    let port = handed.port->0;
    successful_task_is_reported_by_mode(executor, handed, port, run, value, last);
}

/// A call that returns at once returns the result of its task as a success, without asking the error
/// handler; else the error handler is run with the very error that the task returned, or the very
/// panic.
pub proof fn sync_result_is_returned_or_handled<D, E, EH: ErrorHandler>(
    handler: SimpleHandler<E, EH>,
    outcome: Outcome<Result<D, ReturnedError>>,
    next: SyncNext<D>,
)
    requires
        call_ensures(SimpleHandler::<E, EH>::wrap_sync::<D>, (&handler, outcome), next),
    ensures
        outcome matches Outcome::Completed(Ok(data)) ==> {
            &&& next is Finished
            &&& next->Finished_0.data == WireValue::Data(data)
            &&& next->Finished_0.success
        },
        outcome matches Outcome::Completed(Err(error)) ==> {
            &&& next is HandleError
            &&& next->error == Error::ResultError(error)
            &&& next->handling is Result
        },
        outcome matches Outcome::Panicked(payload) ==> {
            &&& next is HandleError
            &&& next->error == Error::Panic(payload)
            &&& next->handling is Panic
        },
{
}

/// What the error handler of a call that returns at once completes with is returned as it is. Its
/// panic over a returned error is handled like one of the task, and its panic over a panic ends the
/// call with nothing and no success.
pub proof fn sync_handler_has_the_last_word<D>(
    handling: Handling,
    outcome: Outcome<WireSyncReturn<D>>,
    next: SyncNext<D>,
)
    requires
        call_ensures(Handling::handled::<D>, (handling, outcome), next),
    ensures
        outcome matches Outcome::Completed(wire) ==> next == SyncNext::Finished(wire),
        outcome matches Outcome::Panicked(payload) ==> {
            &&& handling is Result ==> next == (SyncNext::<D>::HandleError {
                error: Error::Panic(payload),
                handling: Handling::Panic,
            })
            &&& handling is Panic ==> {
                &&& next is Finished
                &&& next->Finished_0.data is Null
                &&& !next->Finished_0.success
            }
        },
{
}

/// A panic says its own text, whether it was a literal or put together, and a fixed text if it
/// carries none.
pub proof fn panic_says_its_text(payload: PanicPayload, message: String)
    requires
        call_ensures(PanicPayload::message, (&payload,), message),
    ensures
        payload matches PanicPayload::Literal(text) ==> message@ == text@,
        payload matches PanicPayload::Text(text) ==> message@ == text@,
        payload is Other ==> message@ == "Box<dyn Any>"@,
{
}

/// A literal text is what a panic carries if it has one, and else a text put together, if it has
/// that.
pub proof fn literal_comes_before_text(
    literal: Option<&'static str>,
    text: Option<String>,
    payload: PanicPayload,
)
    requires
        call_ensures(PanicPayload::new, (literal, text), payload),
    ensures
        literal matches Some(l) ==> payload == PanicPayload::Literal(l),
        literal is None && text is Some ==> payload == PanicPayload::Text(text->0),
        literal is None && text is None ==> payload is Other,
{
}

/// The two kinds of error are told apart by their codes.
pub proof fn codes_tell_errors_apart(error: Error, code: &'static str)
    requires
        call_ensures(Error::code, (&error,), code),
    ensures
        error is ResultError ==> code@ == "RESULT_ERROR"@,
        error is Panic ==> code@ == "PANIC_ERROR"@,
{
}

/// The message of a returned error is all that it says of itself, and that of a panic is all that
/// the panic says.
pub proof fn message_is_the_whole_text(error: Error, message: String, told: String)
    requires
        call_ensures(Error::message, (&error,), message),
        error matches Error::ResultError(returned) ==> returned.shown is Completed,
        error matches Error::Panic(payload) ==> call_ensures(
            PanicPayload::message,
            (&payload,),
            told,
        ),
    ensures
        error matches Error::ResultError(returned) ==> message@ == returned.shown->Completed_0@,
        error is Panic ==> message@ == told@,
{
}

/// Asking an error for its message by value gives the message, and panics only where telling what a
/// returned error says did, with that panic.
pub proof fn message_is_lost_only_to_a_panic(error: Error, message: String, outcome: Outcome<String>)
    requires
        call_ensures(Error::into_message, (error,), outcome),
        error is Panic ==> call_ensures(Error::message, (&error,), message),
    ensures
        error matches Error::ResultError(returned) ==> {
            &&& returned.shown matches Outcome::Completed(text) ==> {
                &&& outcome is Completed
                &&& outcome->Completed_0@ == text@
            }
            &&& returned.shown matches Outcome::Panicked(payload) ==> outcome
                == Outcome::<String>::Panicked(payload)
        },
        error is Panic ==> outcome is Completed && outcome->Completed_0@ == message@,
{
}

/// Where a task returned an error, that error is kept and shown by the formatter that is given; all
/// else stays as it came.
pub proof fn only_errors_are_shown<T, F: Fn(&anyhow::Error) -> Outcome<String>>(
    outcome: Outcome<Result<T, anyhow::Error>>,
    format: F,
    result: Outcome<Result<T, ReturnedError>>,
)
    requires
        call_ensures(with_shown_error::<T, F>, (outcome, format), result),
    ensures
        outcome matches Outcome::Completed(Ok(value)) ==> result == Outcome::Completed(
            Ok::<T, ReturnedError>(value),
        ),
        outcome matches Outcome::Panicked(payload) ==> result
            == Outcome::<Result<T, ReturnedError>>::Panicked(payload),
        outcome matches Outcome::Completed(Err(error)) ==> {
            &&& result matches Outcome::Completed(Err(returned))
            &&& returned.error == error
            &&& call_ensures(format, (&error,), returned.shown)
        },
{
}

/// The default error handler sends one report to the port that it is given: the code of the error,
/// and the whole of its message. It panics only where telling what a returned error says did.
pub proof fn default_handler_reports_the_error(
    port: MessagePort,
    error: Error,
    outcome: Outcome<Option<ErrorReport>>,
)
    requires
        call_ensures(
            <ReportDartErrorHandler as ErrorHandler>::handle_error,
            (&ReportDartErrorHandler, port, error),
            outcome,
        ),
    ensures
        error matches Error::ResultError(returned) ==> {
            &&& returned.shown matches Outcome::Completed(text) ==> {
                &&& outcome matches Outcome::Completed(Some(report))
                &&& report.port == port
                &&& report.code@ == "RESULT_ERROR"@
                &&& report.message@ == text@
            }
            &&& returned.shown matches Outcome::Panicked(payload) ==> outcome
                == Outcome::<Option<ErrorReport>>::Panicked(payload)
        },
        error matches Error::Panic(payload) ==> {
            &&& outcome matches Outcome::Completed(Some(report))
            &&& report.port == port
            &&& report.code@ == "PANIC_ERROR"@
            &&& payload matches PanicPayload::Literal(text) ==> report.message@ == text@
            &&& payload matches PanicPayload::Text(text) ==> report.message@ == text@
            &&& payload is Other ==> report.message@ == "Box<dyn Any>"@
        },
{
}

/// Of a call that returns at once, with the default error handler, Dart gets the result of the task
/// and a success, or the code and the whole message of the error and no success.
pub proof fn default_sync_call_tells_all<D, E>(
    handler: SimpleHandler<E, ReportDartErrorHandler>,
    task: Outcome<Result<D, ReturnedError>>,
    first: Outcome<WireSyncReturn<D>>,
    second: Outcome<WireSyncReturn<D>>,
    start: SyncNext<D>,
    middle: SyncNext<D>,
    last: SyncNext<D>,
)
    requires
        call_ensures(
            SimpleHandler::<E, ReportDartErrorHandler>::wrap_sync::<D>,
            (&handler, task),
            start,
        ),
        start matches SyncNext::HandleError { error, handling } ==> {
            &&& wires_error(error, first)
            &&& call_ensures(Handling::handled::<D>, (handling, first), middle)
        },
        start is Finished ==> middle == start,
        middle matches SyncNext::HandleError { error, handling } ==> {
            &&& wires_error(error, second)
            &&& call_ensures(Handling::handled::<D>, (handling, second), last)
        },
        middle is Finished ==> last == middle,
    ensures
        last is Finished,
        task matches Outcome::Completed(Ok(data)) ==> {
            &&& last->Finished_0.success
            &&& last->Finished_0.data == WireValue::Data(data)
        },
        task matches Outcome::Completed(Err(returned)) ==> {
            &&& !last->Finished_0.success
            &&& last->Finished_0.data is Text
            &&& returned.shown matches Outcome::Completed(message)
                ==> last->Finished_0.data->Text_0@ == "RESULT_ERROR"@ + ": "@ + message@
            &&& returned.shown matches Outcome::Panicked(PanicPayload::Text(text))
                ==> last->Finished_0.data->Text_0@ == "PANIC_ERROR"@ + ": "@ + text@
            &&& returned.shown matches Outcome::Panicked(PanicPayload::Literal(text))
                ==> last->Finished_0.data->Text_0@ == "PANIC_ERROR"@ + ": "@ + text@
        },
        task matches Outcome::Panicked(payload) ==> {
            &&& !last->Finished_0.success
            &&& last->Finished_0.data is Text
            &&& payload matches PanicPayload::Literal(text) ==> last->Finished_0.data->Text_0@
                == "PANIC_ERROR"@ + ": "@ + text@
            &&& payload matches PanicPayload::Text(text) ==> last->Finished_0.data->Text_0@
                == "PANIC_ERROR"@ + ": "@ + text@
            &&& payload is Other ==> last->Finished_0.data->Text_0@ == "PANIC_ERROR"@ + ": "@
                + "Box<dyn Any>"@
        },
{
}

/// A code and a message stand on one line with nothing lost: the line is as long as both and what
/// separates them, starts with the code and ends with the message.
pub proof fn line_keeps_code_and_message(code: &str, message: &str, line: String)
    requires
        call_ensures(error_line, (code, message), line),
    ensures
        line@.len() == code@.len() + 2 + message@.len(),
        line@.take(code@.len() as int) == code@,
        line@.skip(code@.len() as int).take(2) == seq![':', ' '],
        line@.skip(code@.len() as int + 2) == message@,
{
    reveal_strlit(": ");
    assert(line@.take(code@.len() as int) =~= code@);
    assert(line@.skip(code@.len() as int).take(2) =~= seq![':', ' ']);
    assert(line@.skip(code@.len() as int + 2) =~= message@);
}

/// What goes over the wire for a call that returns at once is its data, and then whether it was a
/// success.
pub proof fn wire_is_data_and_success<D>(
    data: WireValue<D>,
    success: bool,
    wire: WireSyncReturn<D>,
    items: Vec<WireValue<D>>,
)
    requires
        call_ensures(wire_sync_from_data::<D>, (data, success), wire),
        call_ensures(WireSyncReturn::<D>::into_items, (wire,), items),
    ensures
        items@.len() == 2,
        items@[0] == data,
        items@[1] == WireValue::<D>::Bool(success),
{
}

/// A task that returns at once is run as it is, and what it returned is handed back, whatever the
/// call was made with.
pub proof fn sync_task_is_run_as_it_is<F, T, EH: ErrorHandler>(
    executor: ThreadPoolExecutor<EH>,
    wrap_info: WrapInfo,
    sync_task: F,
    result: Result<SyncReturn<T>, anyhow::Error>,
) where F: FnOnce() -> Result<SyncReturn<T>, anyhow::Error>
    requires
        call_ensures(
            ThreadPoolExecutor::<EH>::execute_sync::<F, T>,
            (&executor, wrap_info, sync_task),
            result,
        ),
    ensures
        call_ensures(sync_task, (), result),
{
}

/// A handler and an executor give back what they were made of.
pub proof fn handlers_are_made_of_their_parts<E, EH: ErrorHandler>(
    executor: E,
    error_handler: EH,
    handler: SimpleHandler<E, EH>,
    pool: ThreadPoolExecutor<EH>,
    kept_executor: &E,
    kept: EH,
    pool_kept: EH,
)
    requires
        call_ensures(SimpleHandler::<E, EH>::new, (executor, error_handler), handler),
        call_ensures(SimpleHandler::<E, EH>::executor, (&handler,), kept_executor),
        call_ensures(SimpleHandler::<E, EH>::error_handler, (&handler,), kept),
        call_ensures(ThreadPoolExecutor::<EH>::new, (error_handler,), pool),
        call_ensures(ThreadPoolExecutor::<EH>::error_handler, (&pool,), pool_kept),
    ensures
        *kept_executor == executor,
        kept == error_handler,
        pool_kept == error_handler,
{
}

} // verus!
