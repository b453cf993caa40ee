//! Errors from running bridged functions.

use anyhow::Error as AnyhowError;
use vstd::prelude::*;
use vstd::string::*;

verus! {

/// `anyhow::Error`, of which nothing is known but that there is one.
#[verifier::external_type_specification]
#[verifier::external_body]
pub struct ExAnyhowError(AnyhowError);

/// What a panic carries, as far as it can be told.
#[derive(Debug)]
pub enum PanicPayload {
    /// A literal text.
    Literal(&'static str),
    /// A text put together at run time.
    Text(String),
    /// Something else.
    Other,
}

impl PanicPayload {
    /// What the panic says.
    pub open spec fn text(self) -> Seq<char> {
        match self {
            PanicPayload::Literal(text) => text@,
            PanicPayload::Text(text) => text@,
            PanicPayload::Other => "Box<dyn Any>"@,
        }
    }

    /// Tells what a panic carries from whether it is a literal text and whether it is a text put
    /// together at run time.
    pub fn new(literal: Option<&'static str>, text: Option<String>) -> (payload: PanicPayload)
        ensures
            payload == match (literal, text) {
                (Some(literal), _) => PanicPayload::Literal(literal),
                (None, Some(text)) => PanicPayload::Text(text),
                (None, None) => PanicPayload::Other,
            },
    {
        match literal {
            Some(literal) => PanicPayload::Literal(literal),
            None => match text {
                Some(text) => PanicPayload::Text(text),
                None => PanicPayload::Other,
            },
        }
    }

    /// What the panic says.
    pub fn message(&self) -> (message: String)
        ensures
            message@ == self.text(),
    {
        match self {
            PanicPayload::Literal(text) => (*text).to_string(),
            PanicPayload::Text(text) => text.clone(),
            PanicPayload::Other => "Box<dyn Any>".to_string(),
        }
    }
}

/// What came of running something that can panic.
#[derive(Debug)]
pub enum Outcome<T> {
    /// It ran to its end.
    Completed(T),
    /// It panicked.
    Panicked(PanicPayload),
}

/// An error that a task has returned, with what came of formatting it.
#[derive(Debug)]
pub struct ReturnedError {
    /// The error itself.
    pub error: anyhow::Error,
    /// What the error says of itself, or how it panicked over that.
    pub shown: Outcome<String>,
}

impl ReturnedError {
    /// Pairs `error` with what `format` makes of it.
    pub fn new<F: Fn(&anyhow::Error) -> Outcome<String>>(error: anyhow::Error, format: F) -> (
    returned: ReturnedError)
        requires
            call_requires(format, (&error,)),
        ensures
            returned.error == error,
            call_ensures(format, (&error,), returned.shown),
    {
        let shown = format(&error);
        ReturnedError { error, shown }
    }
}

/// What came of a task, where an error that it has returned goes with what `format` makes of it.
pub fn with_shown_error<T, F: Fn(&anyhow::Error) -> Outcome<String>>(
    outcome: Outcome<Result<T, anyhow::Error>>,
    format: F,
) -> (result: Outcome<Result<T, ReturnedError>>)
    requires
        outcome matches Outcome::Completed(Err(error)) ==> call_requires(format, (&error,)),
    ensures
        match outcome {
            Outcome::Completed(Ok(value)) => result == Outcome::Completed(
                Ok::<T, ReturnedError>(value),
            ),
            Outcome::Completed(Err(error)) => {
                &&& result matches Outcome::Completed(Err(returned))
                &&& returned.error == error
                &&& call_ensures(format, (&error,), returned.shown)
            },
            Outcome::Panicked(payload) => result
                == Outcome::<Result<T, ReturnedError>>::Panicked(payload),
        },
{
    match outcome {
        Outcome::Completed(Ok(value)) => Outcome::Completed(Ok(value)),
        Outcome::Completed(Err(error)) => Outcome::Completed(Err(ReturnedError::new(error, format))),
        Outcome::Panicked(payload) => Outcome::Panicked(payload),
    }
}

/// Errors that occur from normal code execution.
#[derive(Debug)]
pub enum Error {
    /// Errors from an [`anyhow::Error`].
    ResultError(ReturnedError),
    /// Exceptional errors from panicking.
    Panic(PanicPayload),
}

impl Error {
    /// The identifier of the type of error.
    pub open spec fn code_text(self) -> Seq<char> {
        match self {
            Error::ResultError(_) => "RESULT_ERROR"@,
            Error::Panic(_) => "PANIC_ERROR"@,
        }
    }

    /// What comes of asking the error for its message: for a panic it is what the panic says, and
    /// for any other error it is what came of formatting that error.
    pub open spec fn telling(self) -> Outcome<Seq<char>> {
        match self {
            Error::ResultError(returned) => match returned.shown {
                Outcome::Completed(text) => Outcome::Completed(text@),
                Outcome::Panicked(payload) => Outcome::Panicked(payload),
            },
            Error::Panic(payload) => Outcome::Completed(payload.text()),
        }
    }

    /// The identifier of the type of error.
    pub fn code(&self) -> (code: &'static str)
        ensures
            code@ == self.code_text(),
    {
        match self {
            Error::ResultError(_) => "RESULT_ERROR",
            Error::Panic(_) => "PANIC_ERROR",
        }
    }

    /// The message of the error, where it can be told.
    pub fn message(&self) -> (message: String)
        requires
            self.telling() is Completed,
        ensures
            Outcome::Completed(message@) == self.telling(),
    {
        match self {
            Error::ResultError(returned) => match &returned.shown {
                Outcome::Completed(text) => text.clone(),
                Outcome::Panicked(payload) => payload.message(),
            },
            Error::Panic(payload) => payload.message(),
        }
    }

    /// The message of the error, or the panic that telling it ended in.
    pub fn into_message(self) -> (outcome: Outcome<String>)
        ensures
            match outcome {
                Outcome::Completed(message) => self.telling() == Outcome::Completed(message@),
                Outcome::Panicked(payload) => self.telling() == Outcome::<Seq<char>>::Panicked(
                    payload,
                ),
            },
    {
        match self {
            Error::ResultError(returned) => returned.shown,
            Error::Panic(payload) => Outcome::Completed(payload.message()),
        }
    }
}

/// A code and a message on one line.
pub fn error_line(code: &str, message: &str) -> (line: String)
    ensures
        line@ == code@ + ": "@ + message@,
{
    code.to_string().concat(": ").concat(message)
}

} // verus!
