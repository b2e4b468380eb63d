//! Failures of the probes. Each one carries the text or code it was made of.

use vstd::prelude::*;

verus! {

/// The kinds of failure.
#[derive(Debug, Clone, Copy, PartialEq, Eq, Structural)]
pub enum ErrorKind {
    NotFound,
    InvalidFormat,
    ParseError,
    UnsupportedArchitecture,
    ExecutionFailure,
    IoError,
    MountError,
    ResolutionError,
    ConnectionError,
    InvalidState,
    UnexpectedReply,
}

/// A failure of a probe.
#[derive(Debug, Clone, PartialEq, Eq)]
pub enum ProbeError {
    /// No executable of this name could be located.
    NotFound { name: String },
    /// A line of tabular text has too few columns, or none came at all.
    /// `line_no` counts from 0; `text` is the line as it was read.
    InvalidFormat { line_no: usize, text: String },
    /// A command answered, but with output that has no line of the expected
    /// shape. `text` is that output.
    ParseError { text: String },
    /// The machine reports a hardware name that is not supported.
    UnsupportedArchitecture { name: String },
    /// A command could not be run (`code` is `None`, `message` says why), or
    /// it ran and reported failure (`code` is its exit code where it has one,
    /// `message` its error output).
    ExecutionFailure { command: String, code: Option<i32>, message: String },
    /// A file system query or a directory creation failed.
    IoError { path: String, message: String },
    /// The mount call failed with this system error.
    MountError { source: String, target: String, fs_type: String, errno: i32, message: String },
    /// The endpoint's name could not be resolved.
    ResolutionError { endpoint: String, message: String },
    /// No connection came about within the timeout.
    ConnectionError { endpoint: String, timeout: u64, message: String },
    /// The endpoint resolved to no address at all.
    InvalidState { endpoint: String },
    /// The reply handed to a probe does not answer the request it made.
    UnexpectedReply,
}

/// A [`ProbeError`] as plain text.
pub enum ProbeErrorView {
    NotFound { name: Seq<char> },
    InvalidFormat { line_no: int, text: Seq<char> },
    ParseError { text: Seq<char> },
    UnsupportedArchitecture { name: Seq<char> },
    ExecutionFailure { command: Seq<char>, code: Option<i32>, message: Seq<char> },
    IoError { path: Seq<char>, message: Seq<char> },
    MountError {
        source: Seq<char>,
        target: Seq<char>,
        fs_type: Seq<char>,
        errno: i32,
        message: Seq<char>,
    },
    ResolutionError { endpoint: Seq<char>, message: Seq<char> },
    ConnectionError { endpoint: Seq<char>, timeout: u64, message: Seq<char> },
    InvalidState { endpoint: Seq<char> },
    UnexpectedReply,
}

impl ProbeErrorView {
    /// The kind of this failure.
    pub open spec fn kind(self) -> ErrorKind {
        match self {
            ProbeErrorView::NotFound { .. } => ErrorKind::NotFound,
            ProbeErrorView::InvalidFormat { .. } => ErrorKind::InvalidFormat,
            ProbeErrorView::ParseError { .. } => ErrorKind::ParseError,
            ProbeErrorView::UnsupportedArchitecture { .. } => ErrorKind::UnsupportedArchitecture,
            ProbeErrorView::ExecutionFailure { .. } => ErrorKind::ExecutionFailure,
            ProbeErrorView::IoError { .. } => ErrorKind::IoError,
            ProbeErrorView::MountError { .. } => ErrorKind::MountError,
            ProbeErrorView::ResolutionError { .. } => ErrorKind::ResolutionError,
            ProbeErrorView::ConnectionError { .. } => ErrorKind::ConnectionError,
            ProbeErrorView::InvalidState { .. } => ErrorKind::InvalidState,
            ProbeErrorView::UnexpectedReply => ErrorKind::UnexpectedReply,
        }
    }
}

impl View for ProbeError {
    type V = ProbeErrorView;

    open spec fn view(&self) -> ProbeErrorView {
        match self {
            ProbeError::NotFound { name } => ProbeErrorView::NotFound { name: name@ },
            ProbeError::InvalidFormat { line_no, text } => ProbeErrorView::InvalidFormat {
                line_no: *line_no as int,
                text: text@,
            },
            ProbeError::ParseError { text } => ProbeErrorView::ParseError { text: text@ },
            ProbeError::UnsupportedArchitecture { name } => {
                ProbeErrorView::UnsupportedArchitecture { name: name@ }
            },
            ProbeError::ExecutionFailure { command, code, message } => {
                ProbeErrorView::ExecutionFailure {
                    command: command@,
                    code: *code,
                    message: message@,
                }
            },
            ProbeError::IoError { path, message } => ProbeErrorView::IoError {
                path: path@,
                message: message@,
            },
            ProbeError::MountError { source, target, fs_type, errno, message } => {
                ProbeErrorView::MountError {
                    source: source@,
                    target: target@,
                    fs_type: fs_type@,
                    errno: *errno,
                    message: message@,
                }
            },
            ProbeError::ResolutionError { endpoint, message } => ProbeErrorView::ResolutionError {
                endpoint: endpoint@,
                message: message@,
            },
            ProbeError::ConnectionError { endpoint, timeout, message } => {
                ProbeErrorView::ConnectionError {
                    endpoint: endpoint@,
                    timeout: *timeout,
                    message: message@,
                }
            },
            ProbeError::InvalidState { endpoint } => ProbeErrorView::InvalidState {
                endpoint: endpoint@,
            },
            ProbeError::UnexpectedReply => ProbeErrorView::UnexpectedReply,
        }
    }
}

/// `r` with its failure as plain text.
pub open spec fn failure_view<T>(r: Result<T, ProbeError>) -> Result<T, ProbeErrorView> {
    match r {
        Ok(value) => Ok(value),
        Err(e) => Err(e@),
    }
}

/// `r` as plain text, value and failure alike.
pub open spec fn outcome_view<T: View>(r: Result<T, ProbeError>) -> Result<T::V, ProbeErrorView> {
    match r {
        Ok(value) => Ok(value@),
        Err(e) => Err(e@),
    }
}

impl ProbeError {
    /// The kind of this failure.
    pub fn kind(&self) -> (k: ErrorKind)
        ensures
            k == self@.kind(),
    {
        match self {
            ProbeError::NotFound { .. } => ErrorKind::NotFound,
            ProbeError::InvalidFormat { .. } => ErrorKind::InvalidFormat,
            ProbeError::ParseError { .. } => ErrorKind::ParseError,
            ProbeError::UnsupportedArchitecture { .. } => ErrorKind::UnsupportedArchitecture,
            ProbeError::ExecutionFailure { .. } => ErrorKind::ExecutionFailure,
            ProbeError::IoError { .. } => ErrorKind::IoError,
            ProbeError::MountError { .. } => ErrorKind::MountError,
            ProbeError::ResolutionError { .. } => ErrorKind::ResolutionError,
            ProbeError::ConnectionError { .. } => ErrorKind::ConnectionError,
            ProbeError::InvalidState { .. } => ErrorKind::InvalidState,
            ProbeError::UnexpectedReply => ErrorKind::UnexpectedReply,
        }
    }
}

} // verus!
