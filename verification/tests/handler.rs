use anyhow::Error as AnyhowError;
use flutter_rust_bridge::calls::{
    report_task_result, AfterReport, Handling, Report, SyncNext, TaskNext, WrapNext,
};
use flutter_rust_bridge::error::{
    error_line, with_shown_error, Error, Outcome, PanicPayload, ReturnedError,
};
use flutter_rust_bridge::handler::{
    wire_sync_from_data, DefaultHandler, ErrorHandler, FfiCallMode, ReportDartErrorHandler,
    SimpleHandler, SyncReturn, ThreadPoolExecutor, WireSyncReturn, WireValue, WrapInfo,
};

fn info(port: Option<i64>, mode: FfiCallMode) -> WrapInfo {
    WrapInfo { port, debug_name: "call", mode }
}

fn literal(text: &'static str) -> PanicPayload {
    PanicPayload::Literal(text)
}

fn panic_error(text: &'static str) -> Error {
    Error::Panic(literal(text))
}

fn show(error: &AnyhowError) -> Outcome<String> {
    Outcome::Completed(format!("{:?}", error))
}

fn fail_to_show(_error: &AnyhowError) -> Outcome<String> {
    Outcome::Panicked(literal("no words"))
}

fn returned(text: &'static str) -> ReturnedError {
    ReturnedError::new(AnyhowError::msg(text), show)
}

fn unspeakable() -> ReturnedError {
    ReturnedError::new(AnyhowError::msg("bad"), fail_to_show)
}

fn completed<T>(outcome: Outcome<T>) -> T {
    match outcome {
        Outcome::Completed(value) => value,
        Outcome::Panicked(_) => panic!("it panicked"),
    }
}

fn error_text(wire: WireSyncReturn<i32>) -> String {
    assert!(!wire.success);
    match wire.data {
        WireValue::Text(text) => text,
        _ => panic!("not a text"),
    }
}

#[test]
fn errors_have_codes() {
    assert_eq!(panic_error("x").code(), "PANIC_ERROR");
    assert_eq!(Error::ResultError(returned("x")).code(), "RESULT_ERROR");
}

#[test]
fn panics_say_what_they_carry() {
    assert_eq!(panic_error("literal").message(), "literal");
    assert_eq!(Error::Panic(PanicPayload::Text("made".to_string())).message(), "made");
    assert_eq!(Error::Panic(PanicPayload::Other).message(), "Box<dyn Any>");
}

#[test]
fn a_literal_panic_goes_first() {
    assert!(matches!(
        PanicPayload::new(Some("a"), Some("b".to_string())),
        PanicPayload::Literal("a")
    ));
    assert_eq!(PanicPayload::new(None, Some("b".to_string())).message(), "b");
    assert!(matches!(PanicPayload::new(None, None), PanicPayload::Other));
}

#[test]
fn result_errors_are_shown_with_their_causes() {
    let error = AnyhowError::msg("disk full").context("could not save");
    let error = Error::ResultError(ReturnedError::new(error, show));
    assert!(error.message().starts_with("could not save\n\nCaused by:\n    disk full"));
    let message = error.message();
    assert_eq!(completed(error.into_message()), message);
    let outcome = Error::ResultError(unspeakable()).into_message();
    assert!(matches!(outcome, Outcome::Panicked(PanicPayload::Literal("no words"))));
}

#[test]
fn returned_errors_keep_the_error() {
    let outcome: Outcome<Result<i32, AnyhowError>> =
        Outcome::Completed(Err(AnyhowError::msg("bad")));
    match with_shown_error(outcome, show) {
        Outcome::Completed(Err(returned)) => {
            assert_eq!(returned.error.to_string(), "bad");
            assert!(completed(returned.shown).starts_with("bad"));
        }
        _ => panic!("the error is lost"),
    }
    let outcome: Outcome<Result<i32, AnyhowError>> = Outcome::Completed(Ok(3));
    assert!(matches!(with_shown_error(outcome, show), Outcome::Completed(Ok(3))));
    let outcome: Outcome<Result<i32, AnyhowError>> = Outcome::Panicked(literal("task"));
    assert!(matches!(
        with_shown_error(outcome, show),
        Outcome::Panicked(PanicPayload::Literal("task"))
    ));
}

#[test]
fn a_line_has_code_and_message() {
    assert_eq!(error_line("CODE", "message"), "CODE: message");
}

#[test]
fn the_default_handler_reports_to_the_port() {
    let report = completed(ReportDartErrorHandler.handle_error(9, panic_error("boom"))).unwrap();
    assert_eq!(report.port, 9);
    assert_eq!(report.code, "PANIC_ERROR");
    assert_eq!(report.message, "boom");

    let error = Error::ResultError(returned("bad"));
    let report = completed(ReportDartErrorHandler.handle_error(3, error)).unwrap();
    assert_eq!(report.code, "RESULT_ERROR");
    assert!(report.message.starts_with("bad"));

    let outcome = ReportDartErrorHandler.handle_error(3, Error::ResultError(unspeakable()));
    assert!(matches!(outcome, Outcome::Panicked(PanicPayload::Literal("no words"))));
}

#[test]
fn the_default_handler_answers_at_once() {
    let wire = ReportDartErrorHandler.handle_error_sync(panic_error("boom"));
    assert_eq!(error_text(completed(wire)), "PANIC_ERROR: boom");
    let wire = ReportDartErrorHandler.handle_error_sync(Error::ResultError(returned("bad")));
    assert!(error_text(completed(wire)).starts_with("RESULT_ERROR: bad"));
    let outcome: Outcome<WireSyncReturn<i32>> =
        ReportDartErrorHandler.handle_error_sync(Error::ResultError(unspeakable()));
    assert!(matches!(outcome, Outcome::Panicked(PanicPayload::Literal("no words"))));
}

#[test]
fn the_wire_has_data_and_success() {
    let items = wire_sync_from_data(WireValue::Data(4), true).into_items();
    assert_eq!(items.len(), 2);
    assert!(matches!(items[0], WireValue::Data(4)));
    assert!(matches!(items[1], WireValue::Bool(true)));
}

#[test]
fn a_call_without_a_port_is_over() {
    let handler = DefaultHandler::default();
    assert!(matches!(handler.wrap(info(None, FfiCallMode::Normal)), WrapNext::Over));
    assert!(matches!(handler.wrap_future(info(None, FfiCallMode::Stream)), WrapNext::Over));
}

#[test]
fn a_call_prepares_and_executes() {
    let handler = DefaultHandler::default();
    let run = match handler.wrap(info(Some(2), FfiCallMode::Normal)) {
        WrapNext::Prepare(run) => run,
        _ => panic!("nothing to prepare"),
    };
    let run = match run.prepared(Outcome::Completed(())) {
        WrapNext::Execute(run) => run,
        _ => panic!("nothing to execute"),
    };
    assert_eq!(run.wrap_info().port, Some(2));
    assert_eq!(run.wrap_info().debug_name, "call");
    assert!(matches!(run.executed(Outcome::Completed(())), WrapNext::Over));
}

#[test]
fn a_panic_before_the_task_is_handled() {
    let handler = DefaultHandler::default();
    for executing in [false, true] {
        let mut run = match handler.wrap_future(info(Some(2), FfiCallMode::Normal)) {
            WrapNext::Prepare(run) => run,
            _ => panic!("nothing to prepare"),
        };
        let next = if executing {
            run = match run.prepared(Outcome::Completed(())) {
                WrapNext::ExecuteFuture(run) => run,
                _ => panic!("nothing to execute"),
            };
            run.executed(Outcome::Panicked(literal("late")))
        } else {
            run.prepared(Outcome::Panicked(literal("late")))
        };
        match next {
            WrapNext::HandleError { port, error } => {
                assert_eq!(port, 2);
                assert_eq!(error.code(), "PANIC_ERROR");
                assert_eq!(error.message(), "late");
            }
            _ => panic!("the panic is lost"),
        }
    }
}

#[test]
fn results_are_reported_by_mode() {
    let report = report_task_result(1, FfiCallMode::Normal, Ok(5));
    assert!(matches!(report, Report::Success { port: 1, value: 5 }));
    let report = report_task_result(1, FfiCallMode::Stream, Ok(5));
    assert!(matches!(report, Report::Nothing));
    for mode in [FfiCallMode::Normal, FfiCallMode::Stream, FfiCallMode::Sync] {
        match report_task_result::<i32>(1, mode, Err(returned("bad"))) {
            Report::HandleError { port, error } => {
                assert_eq!(port, 1);
                assert_eq!(error.code(), "RESULT_ERROR");
            }
            _ => panic!("the error is lost"),
        }
    }
}

fn settle(mode: FfiCallMode, outcome: Outcome<Result<i32, ReturnedError>>) -> TaskNext<i32> {
    let executor = ThreadPoolExecutor::new(ReportDartErrorHandler);
    executor.execute(info(Some(8), mode)).settled(outcome)
}

fn panic_report(next: TaskNext<i32>) -> (String, AfterReport) {
    match next {
        TaskNext::Report { report: Report::HandleError { port, error }, then } => {
            assert_eq!(port, 8);
            assert_eq!(error.code(), "PANIC_ERROR");
            (error.message(), then)
        }
        _ => panic!("no panic is reported"),
    }
}

#[test]
fn a_task_sends_its_result() {
    match settle(FfiCallMode::Normal, Outcome::Completed(Ok(6))) {
        TaskNext::Report { report, then } => {
            assert!(matches!(report, Report::Success { port: 8, value: 6 }));
            let next: TaskNext<i32> = then.reported(Outcome::Completed(()));
            assert!(matches!(next, TaskNext::Over));
        }
        TaskNext::Over => panic!("the result is lost"),
    }
    assert!(matches!(settle(FfiCallMode::Stream, Outcome::Completed(Ok(6))), TaskNext::Over));
}

#[test]
fn a_panic_while_sending_is_reported_once() {
    match settle(FfiCallMode::Normal, Outcome::Completed(Ok(6))) {
        TaskNext::Report { then, .. } => {
            let (message, then) = panic_report(then.reported(Outcome::Panicked(literal("post"))));
            assert_eq!(message, "post");
            let next: TaskNext<i32> = then.reported(Outcome::Panicked(literal("again")));
            assert!(matches!(next, TaskNext::Over));
        }
        TaskNext::Over => panic!("the result is lost"),
    }
}

#[test]
fn a_panicking_task_is_reported() {
    let (message, then) =
        panic_report(settle(FfiCallMode::Stream, Outcome::Panicked(literal("task"))));
    assert_eq!(message, "task");
    assert!(matches!(then, AfterReport::Leave));
    match settle(FfiCallMode::Normal, Outcome::Panicked(PanicPayload::Other)) {
        TaskNext::Report { report: Report::HandleError { port: 8, error }, .. } => {
            assert!(matches!(error, Error::Panic(PanicPayload::Other)));
        }
        _ => panic!("no panic is reported"),
    }
}

#[test]
fn a_task_called_as_sync_is_reported_as_a_panic() {
    let (message, _) = panic_report(settle(FfiCallMode::Sync, Outcome::Completed(Ok(1))));
    assert_eq!(
        message,
        "execute and execute_async should never be called with FfiCallMode::Sync, please call execute_sync instead"
    );
    let executor = ThreadPoolExecutor::new(ReportDartErrorHandler);
    let run = executor.execute_future(info(Some(8), FfiCallMode::Sync));
    let (message, _) = panic_report(run.settled(Outcome::Completed(Ok(1))));
    assert!(message.contains("please call execute_sync instead"));
}

#[test]
fn the_executor_runs_a_sync_task() {
    let executor = ThreadPoolExecutor::new(ReportDartErrorHandler);
    let result = executor.execute_sync(info(None, FfiCallMode::Sync), || Ok(SyncReturn(12)));
    assert_eq!(result.unwrap().0, 12);
    let result =
        executor.execute_sync::<_, i32>(info(None, FfiCallMode::Sync), || Err(AnyhowError::msg("no")));
    assert_eq!(result.err().unwrap().to_string(), "no");
}

#[test]
fn a_sync_call_returns_its_result() {
    let handler = SimpleHandler::new((), ReportDartErrorHandler);
    match handler.wrap_sync(Outcome::Completed(Ok(7))) {
        SyncNext::Finished(wire) => {
            assert!(wire.success);
            assert!(matches!(wire.data, WireValue::Data(7)));
        }
        _ => panic!("the result is lost"),
    }
}

fn sync_error(next: SyncNext<i32>) -> (Error, Handling) {
    match next {
        SyncNext::HandleError { error, handling } => (error, handling),
        SyncNext::Finished(_) => panic!("the error is lost"),
    }
}

fn finished(next: SyncNext<i32>) -> WireSyncReturn<i32> {
    match next {
        SyncNext::Finished(wire) => wire,
        SyncNext::HandleError { .. } => panic!("there is no end"),
    }
}

#[test]
fn a_sync_error_is_handled() {
    let handler = DefaultHandler::default();
    let (error, handling) =
        sync_error(handler.wrap_sync(Outcome::Completed(Err(returned("bad")))));
    assert_eq!(error.code(), "RESULT_ERROR");
    let wire = handler.error_handler().handle_error_sync(error);
    let wire = finished(handling.handled(wire));
    assert!(error_text(wire).starts_with("RESULT_ERROR: bad"));
}

fn default_answer(task: Outcome<Result<i32, ReturnedError>>) -> WireSyncReturn<i32> {
    let handler = DefaultHandler::default();
    let mut next = handler.wrap_sync(task);
    loop {
        match next {
            SyncNext::Finished(wire) => return wire,
            SyncNext::HandleError { error, handling } => {
                next = handling.handled(handler.error_handler().handle_error_sync(error));
            }
        }
    }
}

#[test]
fn default_answers_depend_on_the_task_alone() {
    for _ in 0..2 {
        let wire = default_answer(Outcome::Completed(Ok(4)));
        assert!(wire.success);
        assert!(matches!(wire.data, WireValue::Data(4)));
        let wire = default_answer(Outcome::Completed(Err(returned("bad"))));
        assert!(error_text(wire).starts_with("RESULT_ERROR: bad"));
        let wire = default_answer(Outcome::Completed(Err(unspeakable())));
        assert_eq!(error_text(wire), "PANIC_ERROR: no words");
        let wire = default_answer(Outcome::Panicked(PanicPayload::Other));
        assert_eq!(error_text(wire), "PANIC_ERROR: Box<dyn Any>");
    }
}

#[test]
fn a_sync_call_returns_though_everything_panics() {
    let handler = DefaultHandler::default();
    let (_, handling) =
        sync_error(handler.wrap_sync(Outcome::Completed(Err(returned("bad")))));
    let (error, handling) = sync_error(handling.handled(Outcome::Panicked(literal("first"))));
    assert_eq!(error.message(), "first");
    let wire = finished(handling.handled(Outcome::Panicked(literal("second"))));
    assert!(!wire.success);
    assert!(matches!(wire.data, WireValue::Null));

    let (error, handling) = sync_error(handler.wrap_sync(Outcome::Panicked(literal("task"))));
    assert_eq!(error.message(), "task");
    let wire = finished(handling.handled(Outcome::Panicked(literal("second"))));
    assert!(matches!(wire.data, WireValue::Null));
}

#[test]
fn handlers_keep_what_they_are_made_of() {
    let handler = SimpleHandler::new(33, ReportDartErrorHandler);
    assert_eq!(*handler.executor(), 33);
    let handler = DefaultHandler::default();
    let error_handler = handler.executor().error_handler();
    let report = completed(error_handler.handle_error(1, panic_error("p")));
    assert_eq!(report.unwrap().message, "p");
}
