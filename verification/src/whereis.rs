//! Where an executable lives.
//!
//! The usual directories are tried first, in a fixed order. Where none of
//! them has the command, `whereis -b` is asked, and the first path that it
//! lists is checked like the others. A path is returned only after the
//! machine has said that a file is there.

use vstd::prelude::*;
use vstd::string::StrSliceExecFns;
use vstd::string::StringExecFns;
use crate::defs::WHEREIS_CMD;
use crate::effect::{texts, CmdRes, CmdResView, Reply, ReplyView, Request, RequestView};
use crate::effect::{Step, StepView};
use crate::error::{outcome_view, ProbeError, ProbeErrorView};
use crate::text::{chars_of, word_spans, words};

verus! {

broadcast use vstd::seq::group_seq_axioms;

/// How many directories are tried before `whereis` is asked.
pub const BIN_DIR_COUNT: usize = 4;

/// The directories that are tried before `whereis` is asked, in this order.
pub open spec fn bin_dirs() -> Seq<Seq<char>> {
    seq!["/bin"@, "/usr/bin"@, "/sbin"@, "/usr/sbin"@]
}

/// The path of `cmd` in the directory of number `index`.
pub open spec fn candidate(index: int, cmd: Seq<char>) -> Seq<char> {
    bin_dirs()[index] + "/"@ + cmd
}

/// The command that lists the binaries of `cmd`.
pub open spec fn locate_query(cmd: Seq<char>) -> RequestView {
    RequestView::Run { program: WHEREIS_CMD@, args: seq!["-b"@, cmd] }
}

/// Whether `path` starts at the root directory.
pub open spec fn is_absolute(path: Seq<char>) -> bool {
    path.len() > 0 && path[0] == '/'
}

/// What the answer of `whereis -b` says: the path after the command's name.
/// The answer has the form `name: path path ...`, so the path is its second
/// word; a word that is no absolute path is no answer.
pub open spec fn located_path(cmd: Seq<char>, out: CmdResView) -> Result<
    Seq<char>,
    ProbeErrorView,
> {
    if !out.success() {
        Err(
            ProbeErrorView::ExecutionFailure {
                command: WHEREIS_CMD@,
                code: out.status,
                message: out.stderr,
            },
        )
    } else if out.stdout.len() == 0 {
        Err(ProbeErrorView::InvalidFormat { line_no: 0, text: out.stdout })
    } else if words(out.stdout).len() < 2 || !is_absolute(words(out.stdout)[1]) {
        Err(ProbeErrorView::NotFound { name: cmd })
    } else {
        Ok(words(out.stdout)[1])
    }
}

/// How far the search for a command has come.
#[derive(Debug, Clone, PartialEq, Eq)]
pub enum WhereisState {
    /// Asked whether the command is in the directory of number `index`.
    Probing { index: usize },
    /// Asked `whereis` for the command.
    Locating,
    /// Asked whether the path that `whereis` gave is a file.
    Confirming { path: String },
    /// Over: the result has been handed out.
    Finished,
}

/// A [`WhereisState`] as plain text.
pub enum WhereisStateView {
    Probing { index: int },
    Locating,
    Confirming { path: Seq<char> },
    Finished,
}

impl View for WhereisState {
    type V = WhereisStateView;

    open spec fn view(&self) -> WhereisStateView {
        match self {
            WhereisState::Probing { index } => WhereisStateView::Probing { index: *index as int },
            WhereisState::Locating => WhereisStateView::Locating,
            WhereisState::Confirming { path } => WhereisStateView::Confirming { path: path@ },
            WhereisState::Finished => WhereisStateView::Finished,
        }
    }
}

/// Whether a search can be in `state`: the directory's number is one of the
/// list, and the path under confirmation is absolute. A state that is not
/// valid waits on no request, and any reply to it ends the search as one that
/// answers nothing.
pub open spec fn whereis_state_valid(state: WhereisStateView) -> bool {
    match state {
        WhereisStateView::Probing { index } => 0 <= index < bin_dirs().len(),
        WhereisStateView::Confirming { path } => is_absolute(path),
        _ => true,
    }
}

/// The request that a search in `state` waits on, if any.
pub open spec fn whereis_pending(cmd: Seq<char>, state: WhereisStateView) -> Option<RequestView> {
    match state {
        WhereisStateView::Probing { index } => if 0 <= index < bin_dirs().len() {
            Some(RequestView::FileExists { path: candidate(index, cmd) })
        } else {
            None
        },
        WhereisStateView::Locating => Some(locate_query(cmd)),
        WhereisStateView::Confirming { path } => if is_absolute(path) {
            Some(RequestView::FileExists { path })
        } else {
            None
        },
        WhereisStateView::Finished => None,
    }
}

/// How many requests a search in `state` can still make.
pub open spec fn whereis_requests_left(state: WhereisStateView) -> nat {
    match state {
        WhereisStateView::Probing { index } => if 0 <= index < bin_dirs().len() {
            (bin_dirs().len() + 2 - index) as nat
        } else {
            0
        },
        WhereisStateView::Locating => 2,
        WhereisStateView::Confirming { path } => if is_absolute(path) {
            1
        } else {
            0
        },
        WhereisStateView::Finished => 0,
    }
}

/// The first step of the search for `cmd`.
pub open spec fn whereis_first(cmd: Seq<char>) -> (WhereisStateView, StepView<Seq<char>>) {
    (
        WhereisStateView::Probing { index: 0 },
        StepView::Ask(RequestView::FileExists { path: candidate(0, cmd) }),
    )
}

/// The step that follows `reply` in `state`.
pub open spec fn whereis_next(cmd: Seq<char>, state: WhereisStateView, reply: ReplyView) -> (
    WhereisStateView,
    StepView<Seq<char>>,
) {
    match (state, reply) {
        (WhereisStateView::Probing { index }, ReplyView::Exists(found)) => {
            if !(0 <= index < bin_dirs().len()) {
                (WhereisStateView::Finished, StepView::Done(Err(ProbeErrorView::UnexpectedReply)))
            } else if found == Ok::<bool, Seq<char>>(true) {
                (WhereisStateView::Finished, StepView::Done(Ok(candidate(index, cmd))))
            } else if index + 1 < bin_dirs().len() {
                (
                    WhereisStateView::Probing { index: index + 1 },
                    StepView::Ask(RequestView::FileExists { path: candidate(index + 1, cmd) }),
                )
            } else {
                (WhereisStateView::Locating, StepView::Ask(locate_query(cmd)))
            }
        },
        (WhereisStateView::Locating, ReplyView::Ran(Err(why))) => (
            WhereisStateView::Finished,
            StepView::Done(
                Err(
                    ProbeErrorView::ExecutionFailure {
                        command: WHEREIS_CMD@,
                        code: None,
                        message: why,
                    },
                ),
            ),
        ),
        (WhereisStateView::Locating, ReplyView::Ran(Ok(out))) => match located_path(cmd, out) {
            Ok(path) => (
                WhereisStateView::Confirming { path },
                StepView::Ask(RequestView::FileExists { path }),
            ),
            Err(e) => (WhereisStateView::Finished, StepView::Done(Err(e))),
        },
        (WhereisStateView::Confirming { path }, ReplyView::Exists(found)) => {
            if !is_absolute(path) {
                (WhereisStateView::Finished, StepView::Done(Err(ProbeErrorView::UnexpectedReply)))
            } else if found == Ok::<bool, Seq<char>>(true) {
                (WhereisStateView::Finished, StepView::Done(Ok(path)))
            } else {
                (
                    WhereisStateView::Finished,
                    StepView::Done(Err(ProbeErrorView::NotFound { name: cmd })),
                )
            }
        },
        _ => (WhereisStateView::Finished, StepView::Done(Err(ProbeErrorView::UnexpectedReply))),
    }
}

/// The directory of number `index`.
fn bin_dir(index: usize) -> (dir: &'static str)
    requires
        index < bin_dirs().len(),
    ensures
        dir@ == bin_dirs()[index as int],
{
    if index == 0 {
        "/bin"
    } else if index == 1 {
        "/usr/bin"
    } else if index == 2 {
        "/sbin"
    } else {
        "/usr/sbin"
    }
}

/// The path of `cmd` in the directory of number `index`.
fn candidate_path(index: usize, cmd: &str) -> (path: String)
    requires
        index < bin_dirs().len(),
    ensures
        path@ == candidate(index as int, cmd@),
{
    String::from_str(bin_dir(index)).concat("/").concat(cmd)
}

/// Whether `path` starts at the root directory.
fn absolute(path: &str) -> (b: bool)
    ensures
        b == is_absolute(path@),
{
    path.unicode_len() > 0 && path.get_char(0) == '/'
}

/// The request that asks `whereis` for `cmd`.
fn locate_request(cmd: &str) -> (request: Request)
    ensures
        request@ == locate_query(cmd@),
{
    let mut args: Vec<String> = Vec::new();
    args.push(String::from_str("-b"));
    args.push(String::from_str(cmd));
    assert(texts(args@) == seq!["-b"@, cmd@]);
    Request::Run { program: String::from_str(WHEREIS_CMD), args }
}

/// Reads the path of `cmd` out of what `whereis -b` answered.
pub fn located(cmd: &str, out: CmdRes) -> (res: Result<String, ProbeError>)
    ensures
        outcome_view(res) == located_path(cmd@, out@),
{
    if !out.success() {
        return Err(
            ProbeError::ExecutionFailure {
                command: String::from_str(WHEREIS_CMD),
                code: out.status,
                message: out.stderr,
            },
        );
    }
    if out.stdout.as_str().is_empty() {
        return Err(ProbeError::InvalidFormat { line_no: 0, text: out.stdout });
    }
    let cs = chars_of(out.stdout.as_str());
    assert(cs@.subrange(0, cs@.len() as int) == cs@);
    let spans = word_spans(&cs, 0, cs.len());
    if spans.len() < 2 {
        return Err(ProbeError::NotFound { name: String::from_str(cmd) });
    }
    let (start, end) = spans[1];
    if cs[start] != '/' {
        return Err(ProbeError::NotFound { name: String::from_str(cmd) });
    }
    Ok(String::from_str(out.stdout.as_str().substring_char(start, end)))
}

/// Starts the search for `cmd`.
pub fn whereis_start(cmd: &str) -> (res: (WhereisState, Step<String>))
    ensures
        (res.0@, res.1@) == whereis_first(cmd@),
{
    (
        WhereisState::Probing { index: 0 },
        Step::Ask(Request::FileExists { path: candidate_path(0, cmd) }),
    )
}

/// Goes on with the search for `cmd` in `state`, now that `reply` has come.
pub fn whereis(cmd: &str, state: WhereisState, reply: Reply) -> (res: (WhereisState, Step<String>))
    ensures
        (res.0@, res.1@) == whereis_next(cmd@, state@, reply@),
{
    match (state, reply) {
        (WhereisState::Probing { index }, Reply::Exists(found)) => {
            if index >= BIN_DIR_COUNT {
                return (WhereisState::Finished, Step::Done(Err(ProbeError::UnexpectedReply)));
            }
            let exists = match found {
                Ok(b) => b,
                Err(_) => false,
            };
            if exists {
                (WhereisState::Finished, Step::Done(Ok(candidate_path(index, cmd))))
            } else if index + 1 < BIN_DIR_COUNT {
                (
                    WhereisState::Probing { index: index + 1 },
                    Step::Ask(Request::FileExists { path: candidate_path(index + 1, cmd) }),
                )
            } else {
                (WhereisState::Locating, Step::Ask(locate_request(cmd)))
            }
        },
        (WhereisState::Locating, Reply::Ran(Err(why))) => (
            WhereisState::Finished,
            Step::Done(
                Err(
                    ProbeError::ExecutionFailure {
                        command: String::from_str(WHEREIS_CMD),
                        code: None,
                        message: why,
                    },
                ),
            ),
        ),
        (WhereisState::Locating, Reply::Ran(Ok(out))) => match located(cmd, out) {
            Ok(path) => {
                let request = Request::FileExists { path: path.clone() };
                (WhereisState::Confirming { path }, Step::Ask(request))
            },
            Err(e) => (WhereisState::Finished, Step::Done(Err(e))),
        },
        (WhereisState::Confirming { path }, Reply::Exists(found)) => {
            if !absolute(path.as_str()) {
                return (WhereisState::Finished, Step::Done(Err(ProbeError::UnexpectedReply)));
            }
            let exists = match found {
                Ok(b) => b,
                Err(_) => false,
            };
            if exists {
                (WhereisState::Finished, Step::Done(Ok(path)))
            } else {
                (
                    WhereisState::Finished,
                    Step::Done(Err(ProbeError::NotFound { name: String::from_str(cmd) })),
                )
            }
        },
        _ => (WhereisState::Finished, Step::Done(Err(ProbeError::UnexpectedReply))),
    }
}

/// A search is only ever in a valid state: it starts in one, and every step
/// leads to one.
pub proof fn lemma_whereis_states_are_valid(
    cmd: Seq<char>,
    state: WhereisStateView,
    reply: ReplyView,
)
    ensures
        whereis_state_valid(whereis_first(cmd).0),
        whereis_state_valid(whereis_next(cmd, state, reply).0),
{
}

/// A path is handed out only for a file that is there, and it is absolute:
/// from whatever state, the search ends in `Ok(path)` only on the reply that
/// a file exists, that reply answers the question about this very path, and
/// the path starts at the root directory.
pub proof fn lemma_whereis_returns_existing_file(
    cmd: Seq<char>,
    state: WhereisStateView,
    reply: ReplyView,
    path: Seq<char>,
)
    requires
        whereis_next(cmd, state, reply).1 == StepView::Done(Ok::<Seq<char>, ProbeErrorView>(path)),
    ensures
        reply == ReplyView::Exists(Ok(true)),
        whereis_state_valid(state),
        whereis_pending(cmd, state) == Some(RequestView::FileExists { path }),
        is_absolute(path),
{
    reveal_strlit("/bin");
    reveal_strlit("/usr/bin");
    reveal_strlit("/sbin");
    reveal_strlit("/usr/sbin");
}

/// The search comes to an end: every request uses up one of the six that a
/// search has at its start, namely the four directories, `whereis` and the
/// confirmation of its answer.
pub proof fn lemma_whereis_ends(cmd: Seq<char>, state: WhereisStateView, reply: ReplyView)
    ensures
        whereis_requests_left(whereis_first(cmd).0) == 6,
        whereis_next(cmd, state, reply).1 is Ask ==> whereis_requests_left(
            whereis_next(cmd, state, reply).0,
        ) < whereis_requests_left(state),
        whereis_next(cmd, state, reply).1 is Done ==> whereis_requests_left(
            whereis_next(cmd, state, reply).0,
        ) == 0,
{
}

/// The search keeps track of what it asked: after each step the state waits
/// on the request that the step made, and on nothing once the step is the
/// result.
pub proof fn lemma_whereis_waits_on_its_request(
    cmd: Seq<char>,
    state: WhereisStateView,
    reply: ReplyView,
)
    ensures
        whereis_pending(cmd, whereis_first(cmd).0) == Some(whereis_first(cmd).1->Ask_0),
        match whereis_next(cmd, state, reply).1 {
            StepView::Ask(request) => whereis_pending(cmd, whereis_next(cmd, state, reply).0)
                == Some(request),
            StepView::Done(_) => whereis_next(cmd, state, reply).0 == WhereisStateView::Finished,
        },
{
}

/// The directories come before `whereis`, in their order: while a directory
/// is left, a reply that the file is not there leads to the question about
/// the next one, and only after the last one to `whereis`.
pub proof fn lemma_whereis_tries_directories_in_order(
    cmd: Seq<char>,
    index: int,
    found: Result<bool, Seq<char>>,
)
    requires
        0 <= index < bin_dirs().len(),
        found != Ok::<bool, Seq<char>>(true),
    ensures
        whereis_next(cmd, WhereisStateView::Probing { index }, ReplyView::Exists(found)).1
            == StepView::<Seq<char>>::Ask(
            if index + 1 < bin_dirs().len() {
                RequestView::FileExists { path: candidate(index + 1, cmd) }
            } else {
                locate_query(cmd)
            },
        ),
{
}

} // verus!
