//! Which CPU architecture the machine runs, from the hardware name that
//! `uname -m` prints.

use vstd::prelude::*;
use vstd::string::StringExecFns;
use crate::defs::{OSArch, UNAME_CMD};
use crate::effect::{texts, CmdResView, Reply, ReplyView, Request, RequestView};
use crate::error::{failure_view, ProbeError, ProbeErrorView};
use crate::text::{str_eq, str_lowercase, to_lowercase};

verus! {

/// The command that prints the hardware name.
pub open spec fn os_arch_query() -> RequestView {
    RequestView::Run { program: UNAME_CMD@, args: seq!["-m"@] }
}

/// The architecture that a hardware name in lower case stands for.
pub open spec fn arch_named(lower: Seq<char>) -> Option<OSArch> {
    if lower == "x86_64"@ {
        Some(OSArch::AMD64)
    } else if lower == "i386"@ {
        Some(OSArch::I386)
    } else if lower == "armv7l"@ {
        Some(OSArch::ARMHF)
    } else {
        None
    }
}

/// What the answer to [`os_arch_query`] says about the architecture. The
/// hardware name counts in any mix of upper and lower case; a name that is
/// not known is a failure, never a guess.
pub open spec fn os_arch_of(reply: ReplyView) -> Result<OSArch, ProbeErrorView> {
    match reply {
        ReplyView::Ran(Ok(out)) => if !out.success() {
            Err(
                ProbeErrorView::ExecutionFailure {
                    command: UNAME_CMD@,
                    code: out.status,
                    message: out.stderr,
                },
            )
        } else {
            match arch_named(str_lowercase(out.stdout)) {
                Some(arch) => Ok(arch),
                None => Err(ProbeErrorView::UnsupportedArchitecture { name: out.stdout }),
            }
        },
        ReplyView::Ran(Err(why)) => Err(
            ProbeErrorView::ExecutionFailure { command: UNAME_CMD@, code: None, message: why },
        ),
        _ => Err(ProbeErrorView::UnexpectedReply),
    }
}

/// The request that [`get_os_arch`] wants answered.
pub fn os_arch_request() -> (request: Request)
    ensures
        request@ == os_arch_query(),
{
    let mut args: Vec<String> = Vec::new();
    args.push(String::from_str("-m"));
    assert(texts(args@) == seq!["-m"@]);
    Request::Run { program: String::from_str(UNAME_CMD), args }
}

/// The architecture of the hardware name `lower`, which is in lower case.
pub fn arch_from_name(lower: &str) -> (arch: Option<OSArch>)
    ensures
        arch == arch_named(lower@),
{
    if str_eq(lower, "x86_64") {
        Some(OSArch::AMD64)
    } else if str_eq(lower, "i386") {
        Some(OSArch::I386)
    } else if str_eq(lower, "armv7l") {
        Some(OSArch::ARMHF)
    } else {
        None
    }
}

/// The machine's architecture, from the reply to [`os_arch_request`].
pub fn get_os_arch(reply: Reply) -> (res: Result<OSArch, ProbeError>)
    ensures
        failure_view(res) == os_arch_of(reply@),
{
    match reply {
        Reply::Ran(Ok(out)) => {
            if out.success() {
                let lower = to_lowercase(out.stdout.as_str());
                match arch_from_name(lower.as_str()) {
                    Some(arch) => Ok(arch),
                    None => Err(ProbeError::UnsupportedArchitecture { name: out.stdout }),
                }
            } else {
                Err(
                    ProbeError::ExecutionFailure {
                        command: String::from_str(UNAME_CMD),
                        code: out.status,
                        message: out.stderr,
                    },
                )
            }
        },
        Reply::Ran(Err(why)) => Err(
            ProbeError::ExecutionFailure {
                command: String::from_str(UNAME_CMD),
                code: None,
                message: why,
            },
        ),
        _ => Err(ProbeError::UnexpectedReply),
    }
}

/// A hardware name that is not known is a failure and no guess: where
/// `uname` succeeded with a name whose lower case is none of the three
/// known ones, the result is the failure that holds the name as it came.
pub proof fn lemma_unknown_name_is_a_failure(out: CmdResView)
    requires
        out.success(),
        str_lowercase(out.stdout) != "x86_64"@,
        str_lowercase(out.stdout) != "i386"@,
        str_lowercase(out.stdout) != "armv7l"@,
    ensures
        os_arch_of(ReplyView::Ran(Ok(out))) == Err::<OSArch, ProbeErrorView>(
            ProbeErrorView::UnsupportedArchitecture { name: out.stdout },
        ),
{
}

/// Upper and lower case make no difference: two names with the same lower
/// case stand for the same architecture, or both for none.
pub proof fn lemma_case_makes_no_difference(a: CmdResView, b: CmdResView)
    requires
        a.success(),
        b.success(),
        str_lowercase(a.stdout) == str_lowercase(b.stdout),
    ensures
        os_arch_of(ReplyView::Ran(Ok(a))) is Ok <==> os_arch_of(ReplyView::Ran(Ok(b))) is Ok,
        os_arch_of(ReplyView::Ran(Ok(a))) is Ok ==> os_arch_of(ReplyView::Ran(Ok(a))) == os_arch_of(
            ReplyView::Ran(Ok(b)),
        ),
{
}

} // verus!
