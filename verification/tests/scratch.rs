use preflight::effect::{CmdRes, Reply, Request};
use preflight::error::ProbeError;
use preflight::scratch::{mktemp, mktemp_request};

fn run(args: &[&str]) -> Request {
    Request::Run { program: "mktemp".to_string(), args: args.iter().map(|a| a.to_string()).collect() }
}

#[test]
fn plain_temporary_file_needs_no_arguments() {
    assert_eq!(mktemp_request(false, None, None), run(&[]));
}

#[test]
fn arguments_come_in_their_order() {
    assert_eq!(mktemp_request(true, None, None), run(&["-d"]));
    assert_eq!(mktemp_request(false, Some("img.XXXX"), None), run(&["img.XXXX"]));
    assert_eq!(mktemp_request(false, None, Some("/mnt/work")), run(&["-p", "/mnt/work"]));
    assert_eq!(mktemp_request(true, Some("img.XXXX"), None), run(&["-d", "img.XXXX"]));
    assert_eq!(mktemp_request(true, None, Some("/mnt/work")), run(&["-p", "/mnt/work", "-d"]));
    assert_eq!(
        mktemp_request(false, Some("img.XXXX"), Some("/mnt/work")),
        run(&["-p", "/mnt/work", "img.XXXX"])
    );
    assert_eq!(
        mktemp_request(true, Some("img.XXXX"), Some("/mnt/work")),
        run(&["-p", "/mnt/work", "-d", "img.XXXX"])
    );
}

#[test]
fn printed_path_is_returned() {
    let out = CmdRes { status: Some(0), stdout: "/tmp/tmp.Ab12".to_string(), stderr: String::new() };
    assert_eq!(mktemp(Reply::Ran(Ok(out))), Ok("/tmp/tmp.Ab12".to_string()));
}

#[test]
fn failure_carries_the_error_output() {
    let out = CmdRes {
        status: Some(1),
        stdout: "/tmp/x".to_string(),
        stderr: "mktemp: failed to create file".to_string(),
    };
    assert_eq!(
        mktemp(Reply::Ran(Ok(out))),
        Err(ProbeError::ExecutionFailure {
            command: "mktemp".to_string(),
            code: Some(1),
            message: "mktemp: failed to create file".to_string()
        })
    );
}

#[test]
fn mktemp_that_cannot_run_is_an_execution_failure() {
    assert_eq!(
        mktemp(Reply::Ran(Err("No such file or directory".to_string()))),
        Err(ProbeError::ExecutionFailure {
            command: "mktemp".to_string(),
            code: None,
            message: "No such file or directory".to_string()
        })
    );
}

#[test]
fn other_replies_do_not_answer_mktemp() {
    assert_eq!(mktemp(Reply::Created(Ok(()))), Err(ProbeError::UnexpectedReply));
}
