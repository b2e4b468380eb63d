//! Whether UEFI Secure Boot is on.
//!
//! A machine without the UEFI firmware directory has no Secure Boot. On one
//! that has it, `mokutil --sb-state` is asked, if `mokutil` can be found; a
//! machine without the tool counts as one without Secure Boot. What the tool
//! says is then told apart three ways: a state line on its standard output,
//! the known message that the system does not support Secure Boot anywhere
//! in its error output, and anything else, which is a failure and never a
//! silent "off".

use vstd::prelude::*;
use vstd::string::StrSliceExecFns;
use vstd::string::StringExecFns;
use crate::defs::{MOKUTIL_CMD, SB_STATE_PATTERN, SYS_UEFI_DIR};
use crate::effect::{texts, CmdRes, CmdResView, Reply, ReplyView, Request, RequestView};
use crate::effect::{Step, StepView};
use crate::error::{failure_view, ProbeError, ProbeErrorView};
use crate::pattern::{capture, regex_capture};
use crate::text::{chars_of, contains, line_spans, lines, occurs_at, occurs_in, spans_cut};
use crate::text::str_eq;
use crate::whereis::{whereis, whereis_first, whereis_next, whereis_start};
use crate::whereis::{lemma_whereis_ends, lemma_whereis_waits_on_its_request, whereis_requests_left};
use crate::whereis::{WhereisState, WhereisStateView};

verus! {

broadcast use vstd::seq::group_seq_axioms;

/// The message in the error output of `mokutil` on a system without Secure
/// Boot.
pub const SB_NOT_SUPPORTED: &'static str = "This system doesn't support Secure Boot";

/// The argument that makes `mokutil` report the state.
pub const SB_STATE_ARG: &'static str = "--sb-state";

/// The state that a captured word stands for: on for `enabled`, off for
/// anything else.
pub open spec fn capture_state(found: Option<Seq<char>>) -> Option<bool> {
    match found {
        Some(word) => Some(word == "enabled"@),
        None => None,
    }
}

/// The state that `line` reports, if it is a state line.
pub open spec fn line_state(line: Seq<char>) -> Option<bool> {
    capture_state(regex_capture(SB_STATE_PATTERN@, line, 1))
}

/// The state that the first state line among `ls` reports.
pub open spec fn first_state(ls: Seq<Seq<char>>) -> Option<bool>
    decreases ls.len(),
{
    if ls.len() == 0 {
        None
    } else if line_state(ls[0]) is Some {
        line_state(ls[0])
    } else {
        first_state(ls.skip(1))
    }
}

/// What a scan of the standard output amounts to: the state it found, or the
/// failure to read the output.
pub open spec fn scan_verdict(first: Option<bool>, stdout: Seq<char>) -> Result<
    bool,
    ProbeErrorView,
> {
    match first {
        Some(on) => Ok(on),
        None => Err(ProbeErrorView::ParseError { text: stdout }),
    }
}

/// What the answer `out` of the helper `helper` says about Secure Boot.
pub open spec fn secure_boot_verdict(helper: Seq<char>, out: CmdResView) -> Result<
    bool,
    ProbeErrorView,
> {
    if out.stderr.len() == 0 {
        scan_verdict(first_state(lines(out.stdout)), out.stdout)
    } else if occurs_in(SB_NOT_SUPPORTED@, out.stderr) {
        Ok(false)
    } else {
        Err(
            ProbeErrorView::ExecutionFailure {
                command: helper,
                code: out.status,
                message: out.stderr,
            },
        )
    }
}

/// The command that asks the helper at `helper` for the state.
pub open spec fn sb_state_query(helper: Seq<char>) -> RequestView {
    RequestView::Run { program: helper, args: seq![SB_STATE_ARG@] }
}

/// How far the probe has come.
#[derive(Debug, Clone, PartialEq, Eq)]
pub enum SecureBootState {
    /// Asked whether the firmware directory is there.
    CheckingFirmware,
    /// Looking for `mokutil`; `search` is how far that has come.
    Resolving { search: WhereisState },
    /// Asked the helper for the state.
    Querying { helper: String },
    /// Over: the result has been handed out.
    Finished,
}

/// A [`SecureBootState`] as plain text.
pub enum SecureBootStateView {
    CheckingFirmware,
    Resolving { search: WhereisStateView },
    Querying { helper: Seq<char> },
    Finished,
}

impl View for SecureBootState {
    type V = SecureBootStateView;

    open spec fn view(&self) -> SecureBootStateView {
        match self {
            SecureBootState::CheckingFirmware => SecureBootStateView::CheckingFirmware,
            SecureBootState::Resolving { search } => SecureBootStateView::Resolving {
                search: search@,
            },
            SecureBootState::Querying { helper } => SecureBootStateView::Querying {
                helper: helper@,
            },
            SecureBootState::Finished => SecureBootStateView::Finished,
        }
    }
}

/// How many requests a probe in `state` can still make.
pub open spec fn secure_boot_requests_left(state: SecureBootStateView) -> nat {
    match state {
        SecureBootStateView::CheckingFirmware => 8,
        SecureBootStateView::Resolving { search } => whereis_requests_left(search) + 1,
        SecureBootStateView::Querying { .. } => 1,
        SecureBootStateView::Finished => 0,
    }
}

/// The first step of the probe.
pub open spec fn secure_boot_first() -> (SecureBootStateView, StepView<bool>) {
    (
        SecureBootStateView::CheckingFirmware,
        StepView::Ask(RequestView::DirExists { path: SYS_UEFI_DIR@ }),
    )
}

/// Where the probe goes once the search for `mokutil` has made `step`.
pub open spec fn after_search(search: WhereisStateView, step: StepView<Seq<char>>) -> (
    SecureBootStateView,
    StepView<bool>,
) {
    match step {
        StepView::Ask(request) => (
            SecureBootStateView::Resolving { search },
            StepView::Ask(request),
        ),
        StepView::Done(Ok(helper)) => (
            SecureBootStateView::Querying { helper },
            StepView::Ask(sb_state_query(helper)),
        ),
        StepView::Done(Err(e)) => if e == ProbeErrorView::UnexpectedReply {
            (SecureBootStateView::Finished, StepView::Done(Err(ProbeErrorView::UnexpectedReply)))
        } else {
            (SecureBootStateView::Finished, StepView::Done(Ok(false)))
        },
    }
}

/// The step that follows `reply` in `state`.
pub open spec fn secure_boot_next(state: SecureBootStateView, reply: ReplyView) -> (
    SecureBootStateView,
    StepView<bool>,
) {
    match state {
        SecureBootStateView::CheckingFirmware => match reply {
            ReplyView::Exists(Err(why)) => (
                SecureBootStateView::Finished,
                StepView::Done(Err(ProbeErrorView::IoError { path: SYS_UEFI_DIR@, message: why })),
            ),
            ReplyView::Exists(Ok(found)) => if found {
                after_search(whereis_first(MOKUTIL_CMD@).0, whereis_first(MOKUTIL_CMD@).1)
            } else {
                (SecureBootStateView::Finished, StepView::Done(Ok(false)))
            },
            _ => (
                SecureBootStateView::Finished,
                StepView::Done(Err(ProbeErrorView::UnexpectedReply)),
            ),
        },
        SecureBootStateView::Resolving { search } => after_search(
            whereis_next(MOKUTIL_CMD@, search, reply).0,
            whereis_next(MOKUTIL_CMD@, search, reply).1,
        ),
        SecureBootStateView::Querying { helper } => match reply {
            ReplyView::Ran(Err(why)) => (
                SecureBootStateView::Finished,
                StepView::Done(
                    Err(
                        ProbeErrorView::ExecutionFailure {
                            command: helper,
                            code: None,
                            message: why,
                        },
                    ),
                ),
            ),
            ReplyView::Ran(Ok(out)) => (
                SecureBootStateView::Finished,
                StepView::Done(secure_boot_verdict(helper, out)),
            ),
            _ => (
                SecureBootStateView::Finished,
                StepView::Done(Err(ProbeErrorView::UnexpectedReply)),
            ),
        },
        SecureBootStateView::Finished => (
            SecureBootStateView::Finished,
            StepView::Done(Err(ProbeErrorView::UnexpectedReply)),
        ),
    }
}

/// The state that a captured word stands for.
pub fn state_of_capture(found: Option<String>) -> (state: Option<bool>)
    ensures
        state == capture_state(
            match found {
                Some(word) => Some(word@),
                None => None,
            },
        ),
{
    match found {
        Some(word) => Some(str_eq(word.as_str(), "enabled")),
        None => None,
    }
}

/// The state that `line` reports, if it is a state line.
pub fn state_of_line(line: &str) -> (state: Option<bool>)
    ensures
        state == line_state(line@),
{
    match capture(SB_STATE_PATTERN, line, 1) {
        Ok(found) => state_of_capture(found),
        Err(_) => None,
    }
}

/// The state that the first state line of `stdout` reports.
pub fn first_line_state(stdout: &str) -> (state: Option<bool>)
    ensures
        state == first_state(lines(stdout@)),
{
    let cs = chars_of(stdout);
    let spans = line_spans(&cs);
    let ghost ls = lines(stdout@);
    let mut k: usize = 0;
    assert(ls.skip(0) == ls);
    while k < spans.len()
        invariant
            cs@ == stdout@,
            ls == lines(stdout@),
            spans_cut(cs@, spans@, ls),
            k <= spans.len(),
            first_state(ls) == first_state(ls.skip(k as int)),
        decreases spans.len() - k,
    {
        let (start, end) = spans[k];
        let state = state_of_line(stdout.substring_char(start, end));
        if state.is_some() {
            return state;
        }
        assert(ls.skip(k as int).skip(1) == ls.skip(k + 1));
        k = k + 1;
    }
    None
}

/// What a scan of the standard output amounts to.
pub fn verdict_of_scan(first: Option<bool>, stdout: String) -> (res: Result<bool, ProbeError>)
    ensures
        failure_view(res) == scan_verdict(first, stdout@),
{
    match first {
        Some(on) => Ok(on),
        None => Err(ProbeError::ParseError { text: stdout }),
    }
}

/// What the answer `out` of the helper `helper` says about Secure Boot.
pub fn secure_boot_state(helper: String, out: CmdRes) -> (res: Result<bool, ProbeError>)
    ensures
        failure_view(res) == secure_boot_verdict(helper@, out@),
{
    if out.stderr.as_str().is_empty() {
        let first = first_line_state(out.stdout.as_str());
        verdict_of_scan(first, out.stdout)
    } else {
        let err = chars_of(out.stderr.as_str());
        let known = chars_of(SB_NOT_SUPPORTED);
        if contains(&err, &known) {
            Ok(false)
        } else {
            Err(
                ProbeError::ExecutionFailure {
                    command: helper,
                    code: out.status,
                    message: out.stderr,
                },
            )
        }
    }
}

/// Passes on what the search for `mokutil` wants, or asks the helper it found.
fn follow_search(search: WhereisState, step: Step<String>) -> (res: (SecureBootState, Step<bool>))
    ensures
        (res.0@, res.1@) == after_search(search@, step@),
{
    match step {
        Step::Ask(request) => (SecureBootState::Resolving { search }, Step::Ask(request)),
        Step::Done(Ok(helper)) => {
            let mut args: Vec<String> = Vec::new();
            args.push(String::from_str(SB_STATE_ARG));
            assert(texts(args@) == seq![SB_STATE_ARG@]);
            let request = Request::Run { program: helper.clone(), args };
            (SecureBootState::Querying { helper }, Step::Ask(request))
        },
        Step::Done(Err(e)) => match e {
            ProbeError::UnexpectedReply => (
                SecureBootState::Finished,
                Step::Done(Err(ProbeError::UnexpectedReply)),
            ),
            _ => (SecureBootState::Finished, Step::Done(Ok(false))),
        },
    }
}

/// Starts the probe.
pub fn is_secure_boot_start() -> (res: (SecureBootState, Step<bool>))
    ensures
        (res.0@, res.1@) == secure_boot_first(),
{
    (
        SecureBootState::CheckingFirmware,
        Step::Ask(Request::DirExists { path: String::from_str(SYS_UEFI_DIR) }),
    )
}

/// Goes on with the probe in `state`, now that `reply` has come.
pub fn is_secure_boot(state: SecureBootState, reply: Reply) -> (res: (SecureBootState, Step<bool>))
    ensures
        (res.0@, res.1@) == secure_boot_next(state@, reply@),
{
    match state {
        SecureBootState::CheckingFirmware => match reply {
            Reply::Exists(Err(why)) => (
                SecureBootState::Finished,
                Step::Done(
                    Err(
                        ProbeError::IoError {
                            path: String::from_str(SYS_UEFI_DIR),
                            message: why,
                        },
                    ),
                ),
            ),
            Reply::Exists(Ok(found)) => {
                if found {
                    let (search, step) = whereis_start(MOKUTIL_CMD);
                    follow_search(search, step)
                } else {
                    (SecureBootState::Finished, Step::Done(Ok(false)))
                }
            },
            _ => (SecureBootState::Finished, Step::Done(Err(ProbeError::UnexpectedReply))),
        },
        SecureBootState::Resolving { search } => {
            let (search, step) = whereis(MOKUTIL_CMD, search, reply);
            follow_search(search, step)
        },
        SecureBootState::Querying { helper } => match reply {
            Reply::Ran(Err(why)) => (
                SecureBootState::Finished,
                Step::Done(
                    Err(ProbeError::ExecutionFailure { command: helper, code: None, message: why }),
                ),
            ),
            Reply::Ran(Ok(out)) => (
                SecureBootState::Finished,
                Step::Done(secure_boot_state(helper, out)),
            ),
            _ => (SecureBootState::Finished, Step::Done(Err(ProbeError::UnexpectedReply))),
        },
        SecureBootState::Finished => (
            SecureBootState::Finished,
            Step::Done(Err(ProbeError::UnexpectedReply)),
        ),
    }
}

/// Without the firmware directory there is no Secure Boot, and no failure
/// either: the probe asks for the directory first, and the reply that it is
/// not there ends the probe with `false` before any helper is looked for.
pub proof fn lemma_no_firmware_directory_means_off()
    ensures
        secure_boot_first() == (
            SecureBootStateView::CheckingFirmware,
            StepView::<bool>::Ask(RequestView::DirExists { path: SYS_UEFI_DIR@ }),
        ),
        secure_boot_next(SecureBootStateView::CheckingFirmware, ReplyView::Exists(Ok(false))) == (
            SecureBootStateView::Finished,
            StepView::Done(Ok::<bool, ProbeErrorView>(false)),
        ),
{
}

/// The probe comes to an end: every request uses up one of the eight that a
/// probe has at its start, namely the firmware directory, the six of the
/// search for the helper, and the question to the helper.
pub proof fn lemma_secure_boot_ends(state: SecureBootStateView, reply: ReplyView)
    ensures
        secure_boot_requests_left(secure_boot_first().0) == 8,
        secure_boot_next(state, reply).1 is Ask ==> secure_boot_requests_left(
            secure_boot_next(state, reply).0,
        ) < secure_boot_requests_left(state),
        secure_boot_next(state, reply).1 is Done ==> secure_boot_requests_left(
            secure_boot_next(state, reply).0,
        ) == 0,
{
    if let SecureBootStateView::Resolving { search } = state {
        lemma_whereis_ends(MOKUTIL_CMD@, search, reply);
        lemma_whereis_waits_on_its_request(MOKUTIL_CMD@, search, reply);
    }
    lemma_whereis_ends(MOKUTIL_CMD@, WhereisStateView::Finished, reply);
}

/// Lines of which none is a state line report no state.
pub proof fn lemma_no_state_line_no_state(ls: Seq<Seq<char>>)
    requires
        forall|i: int| 0 <= i < ls.len() ==> line_state(#[trigger] ls[i]) is None,
    ensures
        first_state(ls) is None,
    decreases ls.len(),
{
    if ls.len() > 0 {
        assert(line_state(ls[0]) is None);
        let rest = ls.skip(1);
        assert forall|i: int| 0 <= i < rest.len() implies line_state(
            #[trigger] rest[i],
        ) is None by {
            assert(rest[i] == ls[i + 1]);
        }
        lemma_no_state_line_no_state(rest);
    }
}

/// The known message means "off", wherever it stands: error output that
/// holds the message that the system does not support Secure Boot, be it
/// behind the helper's name or before more text, ends the probe with `false`,
/// whatever the standard output and the exit code are.
pub proof fn lemma_known_message_means_off(helper: Seq<char>, out: CmdResView)
    requires
        occurs_in(SB_NOT_SUPPORTED@, out.stderr),
    ensures
        secure_boot_verdict(helper, out) == Ok::<bool, ProbeErrorView>(false),
        secure_boot_next(SecureBootStateView::Querying { helper }, ReplyView::Ran(Ok(out))) == (
            SecureBootStateView::Finished,
            StepView::Done(Ok::<bool, ProbeErrorView>(false)),
        ),
{
    reveal_strlit("This system doesn't support Secure Boot");
    let k = choose|k: int| occurs_at(SB_NOT_SUPPORTED@, out.stderr, k);
    assert(occurs_at(SB_NOT_SUPPORTED@, out.stderr, k));
}

/// Any other error output is a failure and not "off": where the error output
/// is not empty and does not hold the known message, the probe ends with an
/// execution failure that holds the error output.
pub proof fn lemma_other_error_output_is_a_failure(helper: Seq<char>, out: CmdResView)
    requires
        out.stderr.len() > 0,
        !occurs_in(SB_NOT_SUPPORTED@, out.stderr),
    ensures
        secure_boot_verdict(helper, out) == Err::<bool, ProbeErrorView>(
            ProbeErrorView::ExecutionFailure {
                command: helper,
                code: out.status,
                message: out.stderr,
            },
        ),
{
}

/// Output that cannot be read is a failure, not "off": where the helper
/// wrote nothing to its error output and no line of its standard output
/// matches the state pattern, the probe ends with a parse error that holds
/// the output, whatever the helper's exit code was.
pub proof fn lemma_unreadable_output_is_a_failure(helper: Seq<char>, out: CmdResView)
    requires
        out.stderr.len() == 0,
        forall|i: int|
            0 <= i < lines(out.stdout).len() ==> regex_capture(
                SB_STATE_PATTERN@,
                #[trigger] lines(out.stdout)[i],
                1,
            ) is None,
    ensures
        secure_boot_verdict(helper, out) == Err::<bool, ProbeErrorView>(
            ProbeErrorView::ParseError { text: out.stdout },
        ),
        secure_boot_next(SecureBootStateView::Querying { helper }, ReplyView::Ran(Ok(out))) == (
            SecureBootStateView::Finished,
            StepView::Done(
                Err::<bool, ProbeErrorView>(ProbeErrorView::ParseError { text: out.stdout }),
            ),
        ),
{
    lemma_no_state_line_no_state(lines(out.stdout));
}

/// The first state line decides: where line `i` is a state line and no line
/// before it is one, the state is what line `i` reports.
pub proof fn lemma_first_state_line_decides(ls: Seq<Seq<char>>, i: int)
    requires
        0 <= i < ls.len(),
        line_state(ls[i]) is Some,
        forall|j: int| 0 <= j < i ==> line_state(#[trigger] ls[j]) is None,
    ensures
        first_state(ls) == line_state(ls[i]),
    decreases ls.len(),
{
    if i > 0 {
        assert(line_state(ls[0]) is None);
        let rest = ls.skip(1);
        assert(rest[i - 1] == ls[i]);
        assert forall|j: int| 0 <= j < i - 1 implies line_state(#[trigger] rest[j]) is None by {
            assert(rest[j] == ls[j + 1]);
        }
        lemma_first_state_line_decides(rest, i - 1);
    }
}

/// A missing helper is no failure: however the search for `mokutil` fails,
/// the probe ends with `false`. The one failure that is passed on is that of
/// a reply which answers nothing the search asked: that is a fault of the
/// caller and says nothing of the helper.
pub proof fn lemma_missing_helper_means_off(search: WhereisStateView, e: ProbeErrorView)
    requires
        e != ProbeErrorView::UnexpectedReply,
    ensures
        after_search(search, StepView::Done(Err(e))) == (
            SecureBootStateView::Finished,
            StepView::Done(Ok::<bool, ProbeErrorView>(false)),
        ),
{
}

} // verus!
