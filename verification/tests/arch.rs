use preflight::arch::{arch_from_name, get_os_arch, os_arch_request};
use preflight::defs::OSArch;
use preflight::effect::{CmdRes, Reply, Request};
use preflight::error::{ErrorKind, ProbeError};

fn ran(status: Option<i32>, stdout: &str, stderr: &str) -> Reply {
    Reply::Ran(Ok(CmdRes { status, stdout: stdout.to_string(), stderr: stderr.to_string() }))
}

#[test]
fn uname_is_asked_for_the_hardware_name() {
    assert_eq!(
        os_arch_request(),
        Request::Run { program: "uname".to_string(), args: vec!["-m".to_string()] }
    );
}

#[test]
fn x86_64_in_any_case_is_amd64() {
    assert_eq!(get_os_arch(ran(Some(0), "x86_64", "")), Ok(OSArch::AMD64));
    assert_eq!(get_os_arch(ran(Some(0), "X86_64", "")), Ok(OSArch::AMD64));
}

#[test]
fn i386_and_armv7l_are_known() {
    assert_eq!(get_os_arch(ran(Some(0), "i386", "")), Ok(OSArch::I386));
    assert_eq!(get_os_arch(ran(Some(0), "I386", "")), Ok(OSArch::I386));
    assert_eq!(get_os_arch(ran(Some(0), "armv7l", "")), Ok(OSArch::ARMHF));
    assert_eq!(get_os_arch(ran(Some(0), "ARMv7L", "")), Ok(OSArch::ARMHF));
}

#[test]
fn aarch64_fails_and_is_not_guessed() {
    let res = get_os_arch(ran(Some(0), "aarch64", ""));
    assert_eq!(res, Err(ProbeError::UnsupportedArchitecture { name: "aarch64".to_string() }));
    assert_eq!(res.err().unwrap().kind(), ErrorKind::UnsupportedArchitecture);
}

#[test]
fn unknown_names_fail_with_the_name_as_it_came() {
    assert_eq!(
        get_os_arch(ran(Some(0), "MIPS", "")),
        Err(ProbeError::UnsupportedArchitecture { name: "MIPS".to_string() })
    );
    assert_eq!(
        get_os_arch(ran(Some(0), "x86_64\n", "")),
        Err(ProbeError::UnsupportedArchitecture { name: "x86_64\n".to_string() })
    );
    assert_eq!(
        get_os_arch(ran(Some(0), "", "")),
        Err(ProbeError::UnsupportedArchitecture { name: String::new() })
    );
}

#[test]
fn failed_uname_is_an_execution_failure() {
    assert_eq!(
        get_os_arch(ran(Some(2), "x86_64", "uname: bad option")),
        Err(ProbeError::ExecutionFailure {
            command: "uname".to_string(),
            code: Some(2),
            message: "uname: bad option".to_string()
        })
    );
    assert_eq!(
        get_os_arch(ran(None, "x86_64", "")),
        Err(ProbeError::ExecutionFailure { command: "uname".to_string(), code: None, message: String::new() })
    );
}

#[test]
fn uname_that_cannot_run_is_an_execution_failure() {
    assert_eq!(
        get_os_arch(Reply::Ran(Err("No such file or directory".to_string()))),
        Err(ProbeError::ExecutionFailure {
            command: "uname".to_string(),
            code: None,
            message: "No such file or directory".to_string()
        })
    );
}

#[test]
fn other_replies_do_not_answer_the_architecture() {
    assert_eq!(get_os_arch(Reply::Exists(Ok(true))), Err(ProbeError::UnexpectedReply));
    assert_eq!(get_os_arch(Reply::Connected(Ok(()))), Err(ProbeError::UnexpectedReply));
}

#[test]
fn names_in_lower_case_map_to_architectures() {
    assert_eq!(arch_from_name("x86_64"), Some(OSArch::AMD64));
    assert_eq!(arch_from_name("i386"), Some(OSArch::I386));
    assert_eq!(arch_from_name("armv7l"), Some(OSArch::ARMHF));
    assert_eq!(arch_from_name("X86_64"), None);
    assert_eq!(arch_from_name("aarch64"), None);
    assert_eq!(arch_from_name(""), None);
}

#[test]
fn exit_code_zero_is_success() {
    let out = CmdRes { status: Some(0), stdout: String::new(), stderr: String::new() };
    assert!(out.success());
    assert!(!CmdRes { status: Some(1), ..out.clone() }.success());
    assert!(!CmdRes { status: None, ..out }.success());
}
