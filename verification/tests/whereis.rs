use preflight::effect::{CmdRes, Reply, Request, Step};
use preflight::error::{ErrorKind, ProbeError};
use preflight::whereis::{located, whereis, whereis_start, WhereisState};

fn file_exists(path: &str) -> Step<String> {
    Step::Ask(Request::FileExists { path: path.to_string() })
}

fn answer(stdout: &str) -> CmdRes {
    CmdRes { status: Some(0), stdout: stdout.to_string(), stderr: String::new() }
}

fn after_all_directories(cmd: &str) -> WhereisState {
    let (mut state, _) = whereis_start(cmd);
    for _ in 0..4 {
        state = whereis(cmd, state, Reply::Exists(Ok(false))).0;
    }
    state
}

#[test]
fn search_starts_in_bin() {
    let (state, step) = whereis_start("mokutil");
    assert_eq!(state, WhereisState::Probing { index: 0 });
    assert_eq!(step, file_exists("/bin/mokutil"));
}

#[test]
fn file_in_the_first_directory_is_returned() {
    let (state, _) = whereis_start("ls");
    let (state, step) = whereis("ls", state, Reply::Exists(Ok(true)));
    assert_eq!(state, WhereisState::Finished);
    assert_eq!(step, Step::Done(Ok("/bin/ls".to_string())));
}

#[test]
fn directories_are_tried_in_order() {
    let (state, _) = whereis_start("tool");
    let (state, step) = whereis("tool", state, Reply::Exists(Ok(false)));
    assert_eq!(step, file_exists("/usr/bin/tool"));
    let (state, step) = whereis("tool", state, Reply::Exists(Ok(false)));
    assert_eq!(step, file_exists("/sbin/tool"));
    let (state, step) = whereis("tool", state, Reply::Exists(Ok(false)));
    assert_eq!(step, file_exists("/usr/sbin/tool"));
    assert_eq!(state, WhereisState::Probing { index: 3 });
    let (state, step) = whereis("tool", state, Reply::Exists(Ok(true)));
    assert_eq!(state, WhereisState::Finished);
    assert_eq!(step, Step::Done(Ok("/usr/sbin/tool".to_string())));
}

#[test]
fn query_that_fails_counts_as_no_file() {
    let (state, _) = whereis_start("tool");
    let (state, step) = whereis("tool", state, Reply::Exists(Err("Permission denied".to_string())));
    assert_eq!(state, WhereisState::Probing { index: 1 });
    assert_eq!(step, file_exists("/usr/bin/tool"));
}

#[test]
fn locator_is_asked_after_the_last_directory() {
    let (mut state, _) = whereis_start("tool");
    for _ in 0..3 {
        state = whereis("tool", state, Reply::Exists(Ok(false))).0;
    }
    let (state, step) = whereis("tool", state, Reply::Exists(Ok(false)));
    assert_eq!(state, WhereisState::Locating);
    assert_eq!(
        step,
        Step::Ask(Request::Run {
            program: "whereis".to_string(),
            args: vec!["-b".to_string(), "tool".to_string()]
        })
    );
}

#[test]
fn located_path_is_checked_before_it_is_returned() {
    let state = after_all_directories("tool");
    let (state, step) = whereis("tool", state, Reply::Ran(Ok(answer("tool: /opt/bin/tool /opt/tool"))));
    assert_eq!(state, WhereisState::Confirming { path: "/opt/bin/tool".to_string() });
    assert_eq!(step, file_exists("/opt/bin/tool"));
    let (state, step) = whereis("tool", state, Reply::Exists(Ok(true)));
    assert_eq!(state, WhereisState::Finished);
    assert_eq!(step, Step::Done(Ok("/opt/bin/tool".to_string())));
}

#[test]
fn located_path_that_is_no_file_is_not_found() {
    let state = after_all_directories("tool");
    let (state, _) = whereis("tool", state, Reply::Ran(Ok(answer("tool: /opt/bin/tool"))));
    let (state, step) = whereis("tool", state, Reply::Exists(Ok(false)));
    assert_eq!(state, WhereisState::Finished);
    assert_eq!(step, Step::Done(Err(ProbeError::NotFound { name: "tool".to_string() })));
}

#[test]
fn locator_without_a_path_is_not_found() {
    let state = after_all_directories("tool");
    let (state, step) = whereis("tool", state, Reply::Ran(Ok(answer("tool:"))));
    assert_eq!(state, WhereisState::Finished);
    assert_eq!(step, Step::Done(Err(ProbeError::NotFound { name: "tool".to_string() })));
}

#[test]
fn locator_with_a_relative_path_is_not_found() {
    let state = after_all_directories("tool");
    let (state, step) = whereis("tool", state, Reply::Ran(Ok(answer("tool: bin/tool /opt/tool"))));
    assert_eq!(state, WhereisState::Finished);
    assert_eq!(step, Step::Done(Err(ProbeError::NotFound { name: "tool".to_string() })));
}

#[test]
fn locator_without_output_is_a_format_error() {
    let state = after_all_directories("tool");
    let (_, step) = whereis("tool", state, Reply::Ran(Ok(answer(""))));
    assert_eq!(step, Step::Done(Err(ProbeError::InvalidFormat { line_no: 0, text: String::new() })));
}

#[test]
fn locator_that_fails_is_an_execution_failure() {
    let state = after_all_directories("tool");
    let out = CmdRes { status: Some(1), stdout: "tool: /x".to_string(), stderr: "bad".to_string() };
    let (_, step) = whereis("tool", state, Reply::Ran(Ok(out)));
    assert_eq!(
        step,
        Step::Done(Err(ProbeError::ExecutionFailure {
            command: "whereis".to_string(),
            code: Some(1),
            message: "bad".to_string()
        }))
    );
}

#[test]
fn locator_that_cannot_run_is_an_execution_failure() {
    let state = after_all_directories("tool");
    let (state, step) = whereis("tool", state, Reply::Ran(Err("not there".to_string())));
    assert_eq!(state, WhereisState::Finished);
    assert_eq!(
        step,
        Step::Done(Err(ProbeError::ExecutionFailure {
            command: "whereis".to_string(),
            code: None,
            message: "not there".to_string()
        }))
    );
}

#[test]
fn reply_to_another_request_ends_the_search() {
    let (state, _) = whereis_start("tool");
    let (state, step) = whereis("tool", state, Reply::Ran(Ok(answer("tool: /x"))));
    assert_eq!(state, WhereisState::Finished);
    assert_eq!(step, Step::Done(Err(ProbeError::UnexpectedReply)));
    let (_, step) = whereis("tool", WhereisState::Locating, Reply::Exists(Ok(true)));
    assert_eq!(step, Step::Done(Err(ProbeError::UnexpectedReply)));
    let (_, step) = whereis("tool", WhereisState::Finished, Reply::Exists(Ok(true)));
    assert_eq!(step, Step::Done(Err(ProbeError::UnexpectedReply)));
    let (_, step) = whereis("tool", WhereisState::Probing { index: 4 }, Reply::Exists(Ok(true)));
    assert_eq!(step, Step::Done(Err(ProbeError::UnexpectedReply)));
}

#[test]
fn state_with_a_relative_path_hands_out_nothing() {
    let state = WhereisState::Confirming { path: "bin/tool".to_string() };
    let (state, step) = whereis("tool", state, Reply::Exists(Ok(true)));
    assert_eq!(state, WhereisState::Finished);
    assert_eq!(step, Step::Done(Err(ProbeError::UnexpectedReply)));
    let state = WhereisState::Confirming { path: String::new() };
    let (_, step) = whereis("tool", state, Reply::Exists(Ok(true)));
    assert_eq!(step, Step::Done(Err(ProbeError::UnexpectedReply)));
    let state = WhereisState::Confirming { path: "/opt/tool".to_string() };
    let (_, step) = whereis("tool", state, Reply::Exists(Ok(true)));
    assert_eq!(step, Step::Done(Ok("/opt/tool".to_string())));
}

#[test]
fn second_word_of_the_answer_is_the_path() {
    assert_eq!(located("sh", answer("sh: /bin/sh /usr/bin/sh")), Ok("/bin/sh".to_string()));
    assert_eq!(located("sh", answer("sh:   /bin/sh")), Ok("/bin/sh".to_string()));
    assert_eq!(located("sh", answer("sh:\t/bin/sh\n")), Ok("/bin/sh".to_string()));
    assert_eq!(located("sh", answer("sh:")), Err(ProbeError::NotFound { name: "sh".to_string() }));
    assert_eq!(located("sh", answer("sh: sh")), Err(ProbeError::NotFound { name: "sh".to_string() }));
    assert_eq!(located("sh", answer(" ")), Err(ProbeError::NotFound { name: "sh".to_string() }));
    let err = located("sh", answer("")).err().unwrap();
    assert_eq!(err.kind(), ErrorKind::InvalidFormat);
}
