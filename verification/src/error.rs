//! Error values shared by the whole library.
use vstd::prelude::*;
use vstd::string::*;

verus! {

/// What an agent error is about.
#[derive(Debug, Clone, Copy, PartialEq, Eq, Structural)]
pub enum AgentErrorKind {
    /// No particular kind.
    Other,
    /// The thing asked for is not there.
    NotFound,
    /// The thing asked for is already there.
    Conflict,
}

/// Errors of the library.
#[derive(Debug)]
pub enum Error {
    /// A configuration value was refused.
    Config {
        /// What was being done.
        operation: String,
        /// Why it was refused.
        reason: String,
    },
    /// The machine's agent, or the process that carries it, failed.
    Agent {
        /// What was being done.
        operation: String,
        /// Why it failed.
        reason: String,
        /// What the failure is about.
        kind: AgentErrorKind,
    },
    /// A disk image could not be handled.
    Storage {
        /// What was being done.
        operation: String,
        /// Why it failed.
        reason: String,
    },
    /// A host mount could not be resolved.
    Mount {
        /// What was being done.
        operation: String,
        /// Why it failed.
        reason: String,
    },
    /// The machine could not be created.
    VmCreation {
        /// Why it failed.
        reason: String,
    },
    /// No machine has this name.
    VmNotFound {
        /// The name that was looked up.
        name: String,
    },
    /// The machine is in the wrong state.
    InvalidState {
        /// The state that the operation needs.
        expected: String,
        /// The state that was found.
        actual: String,
    },
    /// The root filesystem does not exist.
    RootfsNotFound {
        /// The path that was looked up.
        path: String,
    },
    /// The state database failed.
    Database {
        /// What was being done.
        operation: String,
        /// Why it failed.
        reason: String,
    },
    /// The state database cannot be reached at all.
    DatabaseUnavailable {
        /// Why it cannot.
        reason: String,
    },
}

/// The mathematical value of an [`Error`].
pub enum ErrorView {
    /// See [`Error::Config`].
    Config { operation: Seq<char>, reason: Seq<char> },
    /// See [`Error::Agent`].
    Agent { operation: Seq<char>, reason: Seq<char>, kind: AgentErrorKind },
    /// See [`Error::Storage`].
    Storage { operation: Seq<char>, reason: Seq<char> },
    /// See [`Error::Mount`].
    Mount { operation: Seq<char>, reason: Seq<char> },
    /// See [`Error::VmCreation`].
    VmCreation { reason: Seq<char> },
    /// See [`Error::VmNotFound`].
    VmNotFound { name: Seq<char> },
    /// See [`Error::InvalidState`].
    InvalidState { expected: Seq<char>, actual: Seq<char> },
    /// See [`Error::RootfsNotFound`].
    RootfsNotFound { path: Seq<char> },
    /// See [`Error::Database`].
    Database { operation: Seq<char>, reason: Seq<char> },
    /// See [`Error::DatabaseUnavailable`].
    DatabaseUnavailable { reason: Seq<char> },
}

impl View for Error {
    type V = ErrorView;

    open spec fn view(&self) -> ErrorView {
        match self {
            Error::Config { operation, reason } => ErrorView::Config {
                operation: operation@,
                reason: reason@,
            },
            Error::Agent { operation, reason, kind } => ErrorView::Agent {
                operation: operation@,
                reason: reason@,
                kind: *kind,
            },
            Error::Storage { operation, reason } => ErrorView::Storage {
                operation: operation@,
                reason: reason@,
            },
            Error::Mount { operation, reason } => ErrorView::Mount {
                operation: operation@,
                reason: reason@,
            },
            Error::VmCreation { reason } => ErrorView::VmCreation { reason: reason@ },
            Error::VmNotFound { name } => ErrorView::VmNotFound { name: name@ },
            Error::InvalidState { expected, actual } => ErrorView::InvalidState {
                expected: expected@,
                actual: actual@,
            },
            Error::RootfsNotFound { path } => ErrorView::RootfsNotFound { path: path@ },
            Error::Database { operation, reason } => ErrorView::Database {
                operation: operation@,
                reason: reason@,
            },
            Error::DatabaseUnavailable { reason } => ErrorView::DatabaseUnavailable {
                reason: reason@,
            },
        }
    }
}

/// The outcome of an operation, with the value and the error by their views.
pub open spec fn outcome<T: View>(r: core::result::Result<T, Error>) -> core::result::Result<
    T::V,
    ErrorView,
> {
    match r {
        Ok(v) => Ok(v@),
        Err(e) => Err(e@),
    }
}

/// The value of [`Error::config`].
pub open spec fn config_error(operation: Seq<char>, reason: Seq<char>) -> ErrorView {
    ErrorView::Config { operation, reason }
}

/// The value of [`Error::agent`].
pub open spec fn agent_error(operation: Seq<char>, reason: Seq<char>) -> ErrorView {
    ErrorView::Agent { operation, reason, kind: AgentErrorKind::Other }
}

impl Error {
    /// A refused configuration value.
    pub fn config(operation: &str, reason: String) -> (e: Error)
        ensures
            e@ == config_error(operation@, reason@),
    {
        Error::Config { operation: operation.to_owned(), reason }
    }

    /// A failure of the agent.
    pub fn agent(operation: &str, reason: String) -> (e: Error)
        ensures
            e@ == agent_error(operation@, reason@),
    {
        Error::Agent { operation: operation.to_owned(), reason, kind: AgentErrorKind::Other }
    }

    /// The agent does not have what was asked for.
    pub fn agent_not_found(operation: &str, reason: String) -> (e: Error)
        ensures
            e@ == (ErrorView::Agent {
                operation: operation@,
                reason: reason@,
                kind: AgentErrorKind::NotFound,
            }),
    {
        Error::Agent { operation: operation.to_owned(), reason, kind: AgentErrorKind::NotFound }
    }

    /// The agent already has what was to be made.
    pub fn agent_conflict(operation: &str, reason: String) -> (e: Error)
        ensures
            e@ == (ErrorView::Agent {
                operation: operation@,
                reason: reason@,
                kind: AgentErrorKind::Conflict,
            }),
    {
        Error::Agent { operation: operation.to_owned(), reason, kind: AgentErrorKind::Conflict }
    }

    /// A disk image could not be handled.
    pub fn storage(operation: &str, reason: String) -> (e: Error)
        ensures
            e@ == (ErrorView::Storage { operation: operation@, reason: reason@ }),
    {
        Error::Storage { operation: operation.to_owned(), reason }
    }

    /// A host mount could not be resolved.
    pub fn mount(operation: &str, reason: String) -> (e: Error)
        ensures
            e@ == (ErrorView::Mount { operation: operation@, reason: reason@ }),
    {
        Error::Mount { operation: operation.to_owned(), reason }
    }

    /// The machine could not be created.
    pub fn vm_creation(reason: &str) -> (e: Error)
        ensures
            e@ == (ErrorView::VmCreation { reason: reason@ }),
    {
        Error::VmCreation { reason: reason.to_owned() }
    }

    /// The state database failed.
    pub fn database(operation: &str, reason: String) -> (e: Error)
        ensures
            e@ == (ErrorView::Database { operation: operation@, reason: reason@ }),
    {
        Error::Database { operation: operation.to_owned(), reason }
    }

    /// The state database cannot be reached at all.
    pub fn database_unavailable(reason: &str) -> (e: Error)
        ensures
            e@ == (ErrorView::DatabaseUnavailable { reason: reason@ }),
    {
        Error::DatabaseUnavailable { reason: reason.to_owned() }
    }

    /// No machine has this name.
    pub fn vm_not_found(name: &str) -> (e: Error)
        ensures
            e@ == (ErrorView::VmNotFound { name: name@ }),
    {
        Error::VmNotFound { name: name.to_owned() }
    }
}

} // verus!
