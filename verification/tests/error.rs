use preflight::error::{ErrorKind, ProbeError};

fn s(text: &str) -> String {
    text.to_string()
}

#[test]
fn every_failure_has_its_kind() {
    let cases = vec![
        (ProbeError::NotFound { name: s("mokutil") }, ErrorKind::NotFound),
        (ProbeError::InvalidFormat { line_no: 3, text: s("tmpfs /tmp") }, ErrorKind::InvalidFormat),
        (ProbeError::ParseError { text: s("?") }, ErrorKind::ParseError),
        (ProbeError::UnsupportedArchitecture { name: s("mips") }, ErrorKind::UnsupportedArchitecture),
        (
            ProbeError::ExecutionFailure { command: s("uname"), code: Some(1), message: s("no") },
            ErrorKind::ExecutionFailure,
        ),
        (ProbeError::IoError { path: s("/etc/mtab"), message: s("denied") }, ErrorKind::IoError),
        (
            ProbeError::MountError {
                source: s("/dev/sda1"),
                target: s("/mnt"),
                fs_type: s("vfat"),
                errno: 16,
                message: s("EBUSY"),
            },
            ErrorKind::MountError,
        ),
        (ProbeError::ResolutionError { endpoint: s("h:1"), message: s("no") }, ErrorKind::ResolutionError),
        (
            ProbeError::ConnectionError { endpoint: s("h:1"), timeout: 1, message: s("no") },
            ErrorKind::ConnectionError,
        ),
        (ProbeError::InvalidState { endpoint: s("h:1") }, ErrorKind::InvalidState),
        (ProbeError::UnexpectedReply, ErrorKind::UnexpectedReply),
    ];
    for (error, kind) in cases {
        assert_eq!(error.kind(), kind);
    }
}

#[test]
fn failures_compare_by_what_they_hold() {
    let a = ProbeError::InvalidFormat { line_no: 1, text: s("x") };
    assert_eq!(a, a.clone());
    assert_ne!(a, ProbeError::InvalidFormat { line_no: 2, text: s("x") });
    assert_ne!(a, ProbeError::InvalidFormat { line_no: 1, text: s("y") });
    assert_ne!(a, ProbeError::ParseError { text: s("x") });
}
