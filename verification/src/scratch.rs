//! Scratch space: a uniquely named temporary file or directory, made by
//! `mktemp`.

use vstd::prelude::*;
use vstd::string::StringExecFns;
use crate::defs::MKTEMP_CMD;
use crate::effect::{texts, Reply, ReplyView, Request, RequestView};
use crate::error::{outcome_view, ProbeError, ProbeErrorView};

verus! {

broadcast use vstd::seq::group_seq_axioms;

/// The text of `s`, if there is one.
pub open spec fn opt_text(s: Option<&str>) -> Option<Seq<char>> {
    match s {
        Some(text) => Some(text@),
        None => None,
    }
}

/// The arguments of `mktemp`: `-p` and the parent directory where one is
/// given, `-d` for a directory, and last the name pattern where one is given.
pub open spec fn mktemp_args(dir: bool, pattern: Option<Seq<char>>, path: Option<Seq<char>>) -> Seq<
    Seq<char>,
> {
    let parent = match path {
        Some(p) => seq!["-p"@, p],
        None => Seq::empty(),
    };
    let kind = if dir {
        seq!["-d"@]
    } else {
        Seq::empty()
    };
    let name = match pattern {
        Some(t) => seq![t],
        None => Seq::empty(),
    };
    parent + kind + name
}

/// The command that makes the scratch path.
pub open spec fn mktemp_query(
    dir: bool,
    pattern: Option<Seq<char>>,
    path: Option<Seq<char>>,
) -> RequestView {
    RequestView::Run { program: MKTEMP_CMD@, args: mktemp_args(dir, pattern, path) }
}

/// What the answer to [`mktemp_query`] amounts to: the path that `mktemp`
/// printed, or its failure with what it wrote to its error output.
pub open spec fn mktemp_outcome(reply: ReplyView) -> Result<Seq<char>, ProbeErrorView> {
    match reply {
        ReplyView::Ran(Ok(out)) => if out.success() {
            Ok(out.stdout)
        } else {
            Err(
                ProbeErrorView::ExecutionFailure {
                    command: MKTEMP_CMD@,
                    code: out.status,
                    message: out.stderr,
                },
            )
        },
        ReplyView::Ran(Err(why)) => Err(
            ProbeErrorView::ExecutionFailure { command: MKTEMP_CMD@, code: None, message: why },
        ),
        _ => Err(ProbeErrorView::UnexpectedReply),
    }
}

/// The request that [`mktemp`] wants answered: a temporary file, or a
/// directory where `dir` is set, under `path` where one is given, named
/// after `pattern` where one is given.
pub fn mktemp_request(dir: bool, pattern: Option<&str>, path: Option<&str>) -> (request: Request)
    ensures
        request@ == mktemp_query(dir, opt_text(pattern), opt_text(path)),
{
    let mut args: Vec<String> = Vec::new();
    if let Some(parent) = path {
        args.push(String::from_str("-p"));
        args.push(String::from_str(parent));
    }
    if dir {
        args.push(String::from_str("-d"));
    }
    if let Some(name) = pattern {
        args.push(String::from_str(name));
    }
    assert(texts(args@) == mktemp_args(dir, opt_text(pattern), opt_text(path)));
    Request::Run { program: String::from_str(MKTEMP_CMD), args }
}

/// The scratch path, from the reply to [`mktemp_request`].
pub fn mktemp(reply: Reply) -> (res: Result<String, ProbeError>)
    ensures
        outcome_view(res) == mktemp_outcome(reply@),
{
    match reply {
        Reply::Ran(Ok(out)) => {
            if out.success() {
                Ok(out.stdout)
            } else {
                Err(
                    ProbeError::ExecutionFailure {
                        command: String::from_str(MKTEMP_CMD),
                        code: out.status,
                        message: out.stderr,
                    },
                )
            }
        },
        Reply::Ran(Err(why)) => Err(
            ProbeError::ExecutionFailure {
                command: String::from_str(MKTEMP_CMD),
                code: None,
                message: why,
            },
        ),
        _ => Err(ProbeError::UnexpectedReply),
    }
}

} // verus!
