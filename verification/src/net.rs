//! Whether an endpoint answers: one TCP connection to `host:port`, tried
//! once, within a timeout.

use vstd::prelude::*;
use vstd::string::StringExecFns;
use crate::effect::{texts, Reply, ReplyView, Request, RequestView, Step, StepView};
use crate::error::{ProbeError, ProbeErrorView};

verus! {

broadcast use vstd::seq::group_seq_axioms;

/// The decimal digit for `d`.
pub open spec fn digit(d: nat) -> char {
    seq!['0', '1', '2', '3', '4', '5', '6', '7', '8', '9'][d as int]
}

/// `n` written in decimal, without leading zeros.
pub open spec fn decimal(n: nat) -> Seq<char>
    decreases n,
{
    if n < 10 {
        seq![digit(n)]
    } else {
        decimal(n / 10).push(digit(n % 10))
    }
}

/// The endpoint as the resolver takes it: host, colon, port.
pub open spec fn endpoint_of(host: Seq<char>, port: u16) -> Seq<char> {
    host + seq![':'] + decimal(port as nat)
}

/// How far the check has come.
#[derive(Debug, Clone, Copy, PartialEq, Eq, Structural)]
pub enum TcpState {
    /// Asked for the addresses of the endpoint.
    Resolving,
    /// Asked for a connection to the first address.
    Connecting,
    /// Over: the result has been handed out.
    Finished,
}

/// The first step of the check.
pub open spec fn tcp_first(host: Seq<char>, port: u16) -> (TcpState, StepView<()>) {
    (TcpState::Resolving, StepView::Ask(RequestView::Resolve { endpoint: endpoint_of(host, port) }))
}

/// The step that follows `reply` in `state`.
pub open spec fn tcp_next(
    host: Seq<char>,
    port: u16,
    timeout: u64,
    state: TcpState,
    reply: ReplyView,
) -> (TcpState, StepView<()>) {
    let endpoint = endpoint_of(host, port);
    match (state, reply) {
        (TcpState::Resolving, ReplyView::Resolved(Err(why))) => (
            TcpState::Finished,
            StepView::Done(Err(ProbeErrorView::ResolutionError { endpoint, message: why })),
        ),
        (TcpState::Resolving, ReplyView::Resolved(Ok(addresses))) => if addresses.len() == 0 {
            (TcpState::Finished, StepView::Done(Err(ProbeErrorView::InvalidState { endpoint })))
        } else {
            (
                TcpState::Connecting,
                StepView::Ask(
                    RequestView::Connect { address: addresses[0], timeout_secs: timeout },
                ),
            )
        },
        (TcpState::Connecting, ReplyView::Connected(Err(why))) => (
            TcpState::Finished,
            StepView::Done(
                Err(ProbeErrorView::ConnectionError { endpoint, timeout, message: why }),
            ),
        ),
        (TcpState::Connecting, ReplyView::Connected(Ok(_))) => (
            TcpState::Finished,
            StepView::Done(Ok(())),
        ),
        _ => (TcpState::Finished, StepView::Done(Err(ProbeErrorView::UnexpectedReply))),
    }
}

/// The decimal digit for `d`, as a string.
fn digit_str(d: u16) -> (s: &'static str)
    requires
        d < 10,
    ensures
        s@ == seq![digit(d as nat)],
{
    proof {
        reveal_strlit("0");
        reveal_strlit("1");
        reveal_strlit("2");
        reveal_strlit("3");
        reveal_strlit("4");
        reveal_strlit("5");
        reveal_strlit("6");
        reveal_strlit("7");
        reveal_strlit("8");
        reveal_strlit("9");
    }
    if d == 0 {
        "0"
    } else if d == 1 {
        "1"
    } else if d == 2 {
        "2"
    } else if d == 3 {
        "3"
    } else if d == 4 {
        "4"
    } else if d == 5 {
        "5"
    } else if d == 6 {
        "6"
    } else if d == 7 {
        "7"
    } else if d == 8 {
        "8"
    } else {
        "9"
    }
}

/// `n` written in decimal.
pub fn decimal_string(n: u16) -> (s: String)
    ensures
        s@ == decimal(n as nat),
    decreases n,
{
    if n < 10 {
        String::from_str(digit_str(n))
    } else {
        decimal_string(n / 10).concat(digit_str(n % 10))
    }
}

/// The endpoint `host:port`.
pub fn endpoint(host: &str, port: u16) -> (s: String)
    ensures
        s@ == endpoint_of(host@, port),
{
    proof {
        reveal_strlit(":");
    }
    let number = decimal_string(port);
    String::from_str(host).concat(":").concat(number.as_str())
}

/// Starts the check of `host:port`.
pub fn check_tcp_connect_start(host: &str, port: u16) -> (res: (TcpState, Step<()>))
    ensures
        (res.0, res.1@) == tcp_first(host@, port),
{
    (TcpState::Resolving, Step::Ask(Request::Resolve { endpoint: endpoint(host, port) }))
}

/// Goes on with the check of `host:port` in `state`, now that `reply` has
/// come. The connection gets `timeout` seconds.
pub fn check_tcp_connect(
    host: &str,
    port: u16,
    timeout: u64,
    state: TcpState,
    reply: Reply,
) -> (res: (TcpState, Step<()>))
    ensures
        (res.0, res.1@) == tcp_next(host@, port, timeout, state, reply@),
{
    match (state, reply) {
        (TcpState::Resolving, Reply::Resolved(Err(why))) => (
            TcpState::Finished,
            Step::Done(
                Err(ProbeError::ResolutionError { endpoint: endpoint(host, port), message: why }),
            ),
        ),
        (TcpState::Resolving, Reply::Resolved(Ok(addresses))) => {
            if addresses.len() == 0 {
                (
                    TcpState::Finished,
                    Step::Done(Err(ProbeError::InvalidState { endpoint: endpoint(host, port) })),
                )
            } else {
                let address = addresses[0].clone();
                (
                    TcpState::Connecting,
                    Step::Ask(Request::Connect { address, timeout_secs: timeout }),
                )
            }
        },
        (TcpState::Connecting, Reply::Connected(Err(why))) => (
            TcpState::Finished,
            Step::Done(
                Err(
                    ProbeError::ConnectionError {
                        endpoint: endpoint(host, port),
                        timeout,
                        message: why,
                    },
                ),
            ),
        ),
        (TcpState::Connecting, Reply::Connected(Ok(_))) => (TcpState::Finished, Step::Done(Ok(()))),
        _ => (TcpState::Finished, Step::Done(Err(ProbeError::UnexpectedReply))),
    }
}

/// A connection that does not come about, be it for a timeout, ends the
/// check with a connection error that holds the endpoint, the timeout and
/// the system's words.
pub proof fn lemma_failed_connection_is_an_error(
    host: Seq<char>,
    port: u16,
    timeout: u64,
    why: Seq<char>,
)
    ensures
        tcp_next(host, port, timeout, TcpState::Connecting, ReplyView::Connected(Err(why))) == (
            TcpState::Finished,
            StepView::Done(
                Err::<(), ProbeErrorView>(
                    ProbeErrorView::ConnectionError {
                        endpoint: endpoint_of(host, port),
                        timeout,
                        message: why,
                    },
                ),
            ),
        ),
{
}

/// One attempt and no more: the only step that asks for anything is the one
/// after the resolution, it asks for a connection to the first address with
/// the timeout as given, and the step after that is the result.
pub proof fn lemma_connection_is_tried_once(
    host: Seq<char>,
    port: u16,
    timeout: u64,
    state: TcpState,
    reply: ReplyView,
)
    ensures
        tcp_next(host, port, timeout, state, reply).1 matches StepView::Ask(request) ==> {
            &&& state == TcpState::Resolving
            &&& tcp_next(host, port, timeout, state, reply).0 == TcpState::Connecting
            &&& reply matches ReplyView::Resolved(Ok(addresses))
            &&& addresses.len() > 0
            &&& request == RequestView::Connect { address: addresses[0], timeout_secs: timeout }
        },
        state == TcpState::Connecting ==> tcp_next(host, port, timeout, state, reply).1 is Done,
{
}

} // verus!
