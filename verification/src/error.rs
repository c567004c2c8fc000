//! What can go wrong when a project is compiled, run or tested.
use vstd::prelude::*;

use crate::text::{followed_by, optional_text};

verus! {

/// An error.
#[derive(Debug)]
pub enum Error {
    /// Diagnostics were found. The message shows them.
    FailedToCompile { message: String },
    /// There is no Sierra program, though no diagnostics were found.
    NoSierraProgram,
    /// The program counts gas, and none was given.
    GasCounterRequired,
    /// The Sierra program could not be compiled to CASM.
    CasmCompilationFailed { reason: String },
    /// The contract class could not be turned into JSON beside its CASM.
    SierraSerializationFailed { reason: String },
    /// The CASM could not be turned into JSON.
    CasmSerializationFailed { reason: String },
    /// The result could not be written as JSON.
    SerializationFailed { reason: String },
    /// A step outside this library failed. The message is that of its own error.
    Outside { message: String },
}

/// What an [`Error`] holds.
#[verifier::ext_equal]
pub enum ErrorView {
    FailedToCompile { message: Seq<char> },
    NoSierraProgram,
    GasCounterRequired,
    CasmCompilationFailed { reason: Seq<char> },
    SierraSerializationFailed { reason: Seq<char> },
    CasmSerializationFailed { reason: Seq<char> },
    SerializationFailed { reason: Seq<char> },
    Outside { message: Seq<char> },
}

impl View for Error {
    type V = ErrorView;

    open spec fn view(&self) -> ErrorView {
        match *self {
            Error::FailedToCompile { message } => ErrorView::FailedToCompile { message: message@ },
            Error::NoSierraProgram => ErrorView::NoSierraProgram,
            Error::GasCounterRequired => ErrorView::GasCounterRequired,
            Error::CasmCompilationFailed { reason } => ErrorView::CasmCompilationFailed {
                reason: reason@,
            },
            Error::SierraSerializationFailed { reason } => ErrorView::SierraSerializationFailed {
                reason: reason@,
            },
            Error::CasmSerializationFailed { reason } => ErrorView::CasmSerializationFailed {
                reason: reason@,
            },
            Error::SerializationFailed { reason } => ErrorView::SerializationFailed {
                reason: reason@,
            },
            Error::Outside { message } => ErrorView::Outside { message: message@ },
        }
    }
}

impl ErrorView {
    /// The message that a user sees.
    pub open spec fn message(self) -> Seq<char> {
        match self {
            ErrorView::FailedToCompile { message } => message,
            ErrorView::NoSierraProgram => "Compilation failed without any diagnostics."@,
            ErrorView::GasCounterRequired => {
                "Program requires gas counter, please provide `--available-gas` argument."@
            },
            ErrorView::CasmCompilationFailed { reason } => {
                "Sierra to CASM compilation failed: "@ + reason
            },
            ErrorView::SierraSerializationFailed { reason: _ } => "Sierra serialization failed."@,
            ErrorView::CasmSerializationFailed { reason: _ } => "CASM serialization failed."@,
            ErrorView::SerializationFailed { reason: _ } => "Serialization failed."@,
            ErrorView::Outside { message } => message,
        }
    }

    /// The message of the error behind this one, which the message itself does not show.
    pub open spec fn cause(self) -> Option<Seq<char>> {
        match self {
            ErrorView::SierraSerializationFailed { reason } => Some(reason),
            ErrorView::CasmSerializationFailed { reason } => Some(reason),
            ErrorView::SerializationFailed { reason } => Some(reason),
            _ => None,
        }
    }
}

impl Error {
    /// The message that a user sees.
    pub fn message(&self) -> (message: String)
        ensures
            message@ == self@.message(),
    {
        match self {
            Error::FailedToCompile { message } => message.clone(),
            Error::NoSierraProgram => "Compilation failed without any diagnostics.".to_owned(),
            Error::GasCounterRequired => {
                "Program requires gas counter, please provide `--available-gas` argument.".to_owned()
            },
            Error::CasmCompilationFailed { reason } => {
                followed_by("Sierra to CASM compilation failed: ", reason.as_str())
            },
            Error::SierraSerializationFailed { reason: _ } => {
                "Sierra serialization failed.".to_owned()
            },
            Error::CasmSerializationFailed { reason: _ } => "CASM serialization failed.".to_owned(),
            Error::SerializationFailed { reason: _ } => "Serialization failed.".to_owned(),
            Error::Outside { message } => message.clone(),
        }
    }

    /// The message of the error behind this one, which the message itself does not show.
    pub fn cause(&self) -> (cause: Option<String>)
        ensures
            optional_text(cause) == self@.cause(),
    {
        match self {
            Error::SierraSerializationFailed { reason } => Some(reason.clone()),
            Error::CasmSerializationFailed { reason } => Some(reason.clone()),
            Error::SerializationFailed { reason } => Some(reason.clone()),
            _ => None,
        }
    }
}

/// A result that is a text or an error.
pub open spec fn text_result(result: Result<String, Error>) -> Result<Seq<char>, ErrorView> {
    match result {
        Ok(text) => Ok(text@),
        Err(error) => Err(error@),
    }
}

} // verus!
