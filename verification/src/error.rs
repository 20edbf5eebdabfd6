//! The failures that reach a caller, each with what is needed to report it.

use crate::config::ConfigError;
use vstd::prelude::*;

verus! {

/// What is told of an answer to a call that was not the pending one, where
/// only a text can be handed on.
pub const OUT_OF_STEP: &'static str = "out of step";

/// The calls that a driver makes outside the process.
#[derive(Clone, Copy, Debug, PartialEq, Eq, Structural)]
pub enum Operation {
    ConnectManager,
    LocateExecutable,
    CreateService,
    SetDescription,
    OpenService,
    QueryStatus,
    StartService,
    StopService,
    DeleteService,
    StartDispatcher,
    RegisterHandler,
    ReportStatus,
}

/// A failure that ends what was under way.
#[derive(Debug, PartialEq, Eq)]
pub enum Error {
    /// The configuration breaks a rule. Nothing was bound.
    ConfigValidation(ConfigError),
    /// The listen address could not be had.
    Bind { address: String, cause: String },
    /// The service manager refused a call.
    ServiceManager { operation: Operation, cause: String },
    /// The runtime that hosts the server could not be built.
    Runtime { cause: String },
    /// The sidecar file could not be located or written.
    ConfigStore { cause: String },
    /// The log could not be opened.
    Logger { cause: String },
    /// The server ended abnormally.
    ServerPanicked,
    /// The server ended with a failure of its own.
    ServerFailed { cause: String },
    /// No scope could be derived: the identities of the registry are used up,
    /// or the registry does not know the scope to derive from.
    NoScope,
    /// The driver answered a call that was not the pending one.
    OutOfStep,
}

/// [`Error`] as the contracts see it.
pub enum ErrorView {
    ConfigValidation(ConfigError),
    Bind { address: Seq<char>, cause: Seq<char> },
    ServiceManager { operation: Operation, cause: Seq<char> },
    Runtime { cause: Seq<char> },
    ConfigStore { cause: Seq<char> },
    Logger { cause: Seq<char> },
    ServerPanicked,
    ServerFailed { cause: Seq<char> },
    NoScope,
    OutOfStep,
}

impl View for Error {
    type V = ErrorView;

    open spec fn view(&self) -> ErrorView {
        match *self {
            Error::ConfigValidation(e) => ErrorView::ConfigValidation(e),
            Error::Bind { address, cause } => ErrorView::Bind { address: address@, cause: cause@ },
            Error::ServiceManager { operation, cause } => ErrorView::ServiceManager {
                operation,
                cause: cause@,
            },
            Error::Runtime { cause } => ErrorView::Runtime { cause: cause@ },
            Error::ConfigStore { cause } => ErrorView::ConfigStore { cause: cause@ },
            Error::Logger { cause } => ErrorView::Logger { cause: cause@ },
            Error::ServerPanicked => ErrorView::ServerPanicked,
            Error::ServerFailed { cause } => ErrorView::ServerFailed { cause: cause@ },
            Error::NoScope => ErrorView::NoScope,
            Error::OutOfStep => ErrorView::OutOfStep,
        }
    }
}

impl Clone for Error {
    fn clone(&self) -> (copy: Error)
        ensures
            copy@ == self@,
    {
        match self {
            Error::ConfigValidation(e) => Error::ConfigValidation(*e),
            Error::Bind { address, cause } => Error::Bind {
                address: address.clone(),
                cause: cause.clone(),
            },
            Error::ServiceManager { operation, cause } => Error::ServiceManager {
                operation: *operation,
                cause: cause.clone(),
            },
            Error::Runtime { cause } => Error::Runtime { cause: cause.clone() },
            Error::ConfigStore { cause } => Error::ConfigStore { cause: cause.clone() },
            Error::Logger { cause } => Error::Logger { cause: cause.clone() },
            Error::ServerPanicked => Error::ServerPanicked,
            Error::ServerFailed { cause } => Error::ServerFailed { cause: cause.clone() },
            Error::NoScope => Error::NoScope,
            Error::OutOfStep => Error::OutOfStep,
        }
    }
}

/// What a run hands back to its caller, as the contracts see it.
pub open spec fn result_view(result: Result<(), Error>) -> Result<(), ErrorView> {
    match result {
        Ok(()) => Ok(()),
        Err(e) => Err(e@),
    }
}

/// A copy of what a run hands back.
pub fn clone_result(result: &Result<(), Error>) -> (copy: Result<(), Error>)
    ensures
        result_view(copy) == result_view(*result),
{
    match result {
        Ok(()) => Ok(()),
        Err(e) => Err(e.clone()),
    }
}

/// The exit code of the process: zero after success, one after a failure.
pub fn exit_code(result: &Result<(), Error>) -> (code: u8)
    ensures
        code == if result is Ok { 0u8 } else { 1u8 },
{
    match result {
        Ok(()) => 0,
        Err(_) => 1,
    }
}

} // verus!
