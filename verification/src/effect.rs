//! What a probe asks of the machine, and what the machine answers.
//!
//! A probe is a pair of functions: one that starts it and one that takes the
//! reply to its last request. Both return a [`Step`]: the next request, or
//! the probe's result. The caller performs each request and brings the reply
//! back; nothing here runs a process, reads a file or opens a socket.

use vstd::prelude::*;
use crate::error::{ProbeError, ProbeErrorView};

verus! {

/// What a command left behind: its exit code (`None` where a signal ended
/// it), and its output. `stdout` comes without leading and trailing
/// whitespace; `stderr` comes as it was written.
#[derive(Debug, Clone, PartialEq, Eq)]
pub struct CmdRes {
    pub status: Option<i32>,
    pub stdout: String,
    pub stderr: String,
}

/// A [`CmdRes`] as plain text.
pub struct CmdResView {
    pub status: Option<i32>,
    pub stdout: Seq<char>,
    pub stderr: Seq<char>,
}

impl CmdResView {
    /// Whether the command exited with code 0.
    pub open spec fn success(self) -> bool {
        self.status == Some(0i32)
    }
}

impl View for CmdRes {
    type V = CmdResView;

    open spec fn view(&self) -> CmdResView {
        CmdResView { status: self.status, stdout: self.stdout@, stderr: self.stderr@ }
    }
}

impl CmdRes {
    /// Whether the command exited with code 0.
    pub fn success(&self) -> (b: bool)
        ensures
            b == self@.success(),
    {
        match self.status {
            Some(code) => code == 0,
            None => false,
        }
    }
}

/// One thing to do on the machine.
#[derive(Debug, Clone, PartialEq, Eq)]
pub enum Request {
    /// Read the file at `path` as text. Answered by [`Reply::Read`].
    ReadFile { path: String },
    /// Is there a file at `path`? Answered by [`Reply::Exists`].
    FileExists { path: String },
    /// Is there a directory at `path`? Answered by [`Reply::Exists`].
    DirExists { path: String },
    /// Create the directory `path` and every missing parent. Answered by
    /// [`Reply::Created`].
    CreateDirAll { path: String },
    /// Run `program` with `args` and wait for it. Answered by [`Reply::Ran`].
    Run { program: String, args: Vec<String> },
    /// Mount `source` on `target` as `fs_type`, with no flags and no data.
    /// Answered by [`Reply::Mounted`].
    Mount { source: String, target: String, fs_type: String },
    /// Resolve `endpoint` (`host:port`) to socket addresses. Answered by
    /// [`Reply::Resolved`].
    Resolve { endpoint: String },
    /// Open a TCP connection to `address` within `timeout_secs` seconds and
    /// close it again at once. Answered by [`Reply::Connected`].
    Connect { address: String, timeout_secs: u64 },
}

/// The texts of `v`, in order.
pub open spec fn texts(v: Seq<String>) -> Seq<Seq<char>> {
    Seq::new(v.len(), |i: int| v[i]@)
}

/// A [`Request`] as plain text.
pub enum RequestView {
    ReadFile { path: Seq<char> },
    FileExists { path: Seq<char> },
    DirExists { path: Seq<char> },
    CreateDirAll { path: Seq<char> },
    Run { program: Seq<char>, args: Seq<Seq<char>> },
    Mount { source: Seq<char>, target: Seq<char>, fs_type: Seq<char> },
    Resolve { endpoint: Seq<char> },
    Connect { address: Seq<char>, timeout_secs: u64 },
}

impl View for Request {
    type V = RequestView;

    open spec fn view(&self) -> RequestView {
        match self {
            Request::ReadFile { path } => RequestView::ReadFile { path: path@ },
            Request::FileExists { path } => RequestView::FileExists { path: path@ },
            Request::DirExists { path } => RequestView::DirExists { path: path@ },
            Request::CreateDirAll { path } => RequestView::CreateDirAll { path: path@ },
            Request::Run { program, args } => RequestView::Run {
                program: program@,
                args: texts(args@),
            },
            Request::Mount { source, target, fs_type } => RequestView::Mount {
                source: source@,
                target: target@,
                fs_type: fs_type@,
            },
            Request::Resolve { endpoint } => RequestView::Resolve { endpoint: endpoint@ },
            Request::Connect { address, timeout_secs } => RequestView::Connect {
                address: address@,
                timeout_secs: *timeout_secs,
            },
        }
    }
}

/// The answer to a [`Request`]. An `Err` holds the system's own words.
#[derive(Debug, PartialEq, Eq)]
pub enum Reply {
    /// On success: the content of the file.
    Read(Result<String, String>),
    /// On success: whether the file or directory is there.
    Exists(Result<bool, String>),
    Created(Result<(), String>),
    /// On success: what the command left behind, whatever its exit code. On
    /// failure: why it could not be run.
    Ran(Result<CmdRes, String>),
    /// On failure: the system error number and its description.
    Mounted(Result<(), (i32, String)>),
    /// On success: the addresses, in the order the resolver gave them.
    Resolved(Result<Vec<String>, String>),
    Connected(Result<(), String>),
}

/// A [`Reply`] as plain text.
pub enum ReplyView {
    Read(Result<Seq<char>, Seq<char>>),
    Exists(Result<bool, Seq<char>>),
    Created(Result<(), Seq<char>>),
    Ran(Result<CmdResView, Seq<char>>),
    Mounted(Result<(), (i32, Seq<char>)>),
    Resolved(Result<Seq<Seq<char>>, Seq<char>>),
    Connected(Result<(), Seq<char>>),
}

impl View for Reply {
    type V = ReplyView;

    open spec fn view(&self) -> ReplyView {
        match self {
            Reply::Read(Ok(content)) => ReplyView::Read(Ok(content@)),
            Reply::Read(Err(why)) => ReplyView::Read(Err(why@)),
            Reply::Exists(Ok(found)) => ReplyView::Exists(Ok(*found)),
            Reply::Exists(Err(why)) => ReplyView::Exists(Err(why@)),
            Reply::Created(Ok(_)) => ReplyView::Created(Ok(())),
            Reply::Created(Err(why)) => ReplyView::Created(Err(why@)),
            Reply::Ran(Ok(out)) => ReplyView::Ran(Ok(out@)),
            Reply::Ran(Err(why)) => ReplyView::Ran(Err(why@)),
            Reply::Mounted(Ok(_)) => ReplyView::Mounted(Ok(())),
            Reply::Mounted(Err(e)) => ReplyView::Mounted(Err((e.0, e.1@))),
            Reply::Resolved(Ok(addresses)) => ReplyView::Resolved(Ok(texts(addresses@))),
            Reply::Resolved(Err(why)) => ReplyView::Resolved(Err(why@)),
            Reply::Connected(Ok(_)) => ReplyView::Connected(Ok(())),
            Reply::Connected(Err(why)) => ReplyView::Connected(Err(why@)),
        }
    }
}

/// What a probe wants next.
#[derive(Debug, PartialEq, Eq)]
pub enum Step<T> {
    /// Perform this request and come back with the reply.
    Ask(Request),
    /// The probe is over, with this result.
    Done(Result<T, ProbeError>),
}

/// A [`Step`] as plain text.
pub enum StepView<V> {
    Ask(RequestView),
    Done(Result<V, ProbeErrorView>),
}

impl<T: View> View for Step<T> {
    type V = StepView<T::V>;

    open spec fn view(&self) -> StepView<T::V> {
        match self {
            Step::Ask(request) => StepView::Ask(request@),
            Step::Done(Ok(value)) => StepView::Done(Ok(value@)),
            Step::Done(Err(e)) => StepView::Done(Err(e@)),
        }
    }
}

} // verus!
