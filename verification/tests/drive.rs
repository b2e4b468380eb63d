use preflight::arch::{get_os_arch, os_arch_request};
use preflight::defs::OSArch;
use preflight::effect::{CmdRes, Reply, Request, Step};
use preflight::error::ProbeError;
use preflight::mounter::{mount_fs, mount_fs_start, MigrateInfo};
use preflight::net::{check_tcp_connect, check_tcp_connect_start};
use preflight::secure_boot::{is_secure_boot, is_secure_boot_start};
use preflight::whereis::{whereis, whereis_start};

/// A machine made of files, directories and the output of one helper.
struct Machine {
    files: Vec<&'static str>,
    dirs: Vec<&'static str>,
    helper_out: (&'static str, &'static str),
    asked: Vec<Request>,
}

impl Machine {
    fn new(files: &[&'static str], dirs: &[&'static str], helper_out: (&'static str, &'static str)) -> Machine {
        Machine { files: files.to_vec(), dirs: dirs.to_vec(), helper_out, asked: Vec::new() }
    }

    fn perform(&mut self, request: Request) -> Reply {
        self.asked.push(request.clone());
        match request {
            Request::ReadFile { .. } => Reply::Read(Err("not a file".to_string())),
            Request::FileExists { path } => Reply::Exists(Ok(self.files.contains(&path.as_str()))),
            Request::DirExists { path } => Reply::Exists(Ok(self.dirs.contains(&path.as_str()))),
            Request::CreateDirAll { .. } => Reply::Created(Ok(())),
            Request::Run { program, .. } => {
                let (stdout, stderr) = if program == "whereis" {
                    ("mokutil: /opt/sbin/mokutil", "")
                } else if program == "uname" {
                    ("X86_64", "")
                } else {
                    self.helper_out
                };
                Reply::Ran(Ok(CmdRes {
                    status: Some(0),
                    stdout: stdout.to_string(),
                    stderr: stderr.to_string(),
                }))
            }
            Request::Mount { .. } => Reply::Mounted(Ok(())),
            Request::Resolve { .. } => Reply::Resolved(Ok(vec!["192.0.2.1:80".to_string()])),
            Request::Connect { .. } => Reply::Connected(Err("timed out".to_string())),
        }
    }

    fn run<S, T>(
        &mut self,
        start: (S, Step<T>),
        mut next: impl FnMut(S, Reply) -> (S, Step<T>),
    ) -> Result<T, ProbeError> {
        let (mut state, mut step) = start;
        loop {
            match step {
                Step::Done(result) => return result,
                Step::Ask(request) => {
                    let reply = self.perform(request);
                    let (state_after, step_after) = next(state, reply);
                    state = state_after;
                    step = step_after;
                }
            }
        }
    }
}

#[test]
fn machine_without_firmware_directory_is_asked_one_question() {
    let mut machine = Machine::new(&["/usr/bin/mokutil"], &[], ("SecureBoot enabled", ""));
    assert_eq!(machine.run(is_secure_boot_start(), is_secure_boot), Ok(false));
    assert_eq!(machine.asked, vec![Request::DirExists { path: "/sys/firmware/efi".to_string() }]);
}

#[test]
fn machine_with_secure_boot_is_found_out() {
    let mut machine = Machine::new(&["/usr/bin/mokutil"], &["/sys/firmware/efi"], ("SecureBoot enabled", ""));
    assert_eq!(machine.run(is_secure_boot_start(), is_secure_boot), Ok(true));
    assert_eq!(
        machine.asked,
        vec![
            Request::DirExists { path: "/sys/firmware/efi".to_string() },
            Request::FileExists { path: "/bin/mokutil".to_string() },
            Request::FileExists { path: "/usr/bin/mokutil".to_string() },
            Request::Run { program: "/usr/bin/mokutil".to_string(), args: vec!["--sb-state".to_string()] },
        ]
    );
}

#[test]
fn machine_with_helper_outside_the_usual_directories() {
    let mut machine = Machine::new(&["/opt/sbin/mokutil"], &["/sys/firmware/efi"], ("SecureBoot disabled", ""));
    assert_eq!(machine.run(is_secure_boot_start(), is_secure_boot), Ok(false));
    assert_eq!(machine.asked.len(), 8);
    assert_eq!(
        machine.asked[5],
        Request::Run { program: "whereis".to_string(), args: vec!["-b".to_string(), "mokutil".to_string()] }
    );
    assert_eq!(machine.asked[6], Request::FileExists { path: "/opt/sbin/mokutil".to_string() });
    assert_eq!(
        machine.asked[7],
        Request::Run { program: "/opt/sbin/mokutil".to_string(), args: vec!["--sb-state".to_string()] }
    );
}

#[test]
fn machine_without_helper_has_no_secure_boot() {
    let mut machine = Machine::new(&[], &["/sys/firmware/efi"], ("SecureBoot enabled", ""));
    assert_eq!(machine.run(is_secure_boot_start(), is_secure_boot), Ok(false));
    assert_eq!(machine.asked.len(), 7);
}

#[test]
fn machine_with_a_helper_that_talks_nonsense_fails() {
    let mut machine = Machine::new(&["/bin/mokutil"], &["/sys/firmware/efi"], ("Secure Boot: yes", ""));
    assert_eq!(
        machine.run(is_secure_boot_start(), is_secure_boot),
        Err(ProbeError::ParseError { text: "Secure Boot: yes".to_string() })
    );
}

#[test]
fn search_runs_to_the_first_file() {
    let mut machine = Machine::new(&["/sbin/fsck", "/usr/sbin/fsck"], &[], ("", ""));
    let found = machine.run(whereis_start("fsck"), |state, reply| whereis("fsck", state, reply));
    assert_eq!(found, Ok("/sbin/fsck".to_string()));
    assert_eq!(machine.asked.len(), 3);
}

#[test]
fn mounting_runs_through_creation_and_mount() {
    let mut machine = Machine::new(&[], &[], ("", ""));
    let mut info = MigrateInfo::new();
    let res = machine.run(mount_fs_start("/mnt/efi"), |state, reply| {
        mount_fs("/mnt/efi", "/dev/sda1", "vfat", &mut info, state, reply)
    });
    assert_eq!(res, Ok(()));
    assert_eq!(
        machine.asked,
        vec![
            Request::DirExists { path: "/mnt/efi".to_string() },
            Request::CreateDirAll { path: "/mnt/efi".to_string() },
            Request::Mount {
                source: "/dev/sda1".to_string(),
                target: "/mnt/efi".to_string(),
                fs_type: "vfat".to_string()
            },
        ]
    );
    assert_eq!(info.get_mounts(), &vec!["/mnt/efi".to_string()]);
}

#[test]
fn unreachable_address_ends_in_a_connection_error() {
    let mut machine = Machine::new(&[], &[], ("", ""));
    let res = machine.run(check_tcp_connect_start("example.net", 80), |state, reply| {
        check_tcp_connect("example.net", 80, 2, state, reply)
    });
    assert_eq!(
        res,
        Err(ProbeError::ConnectionError {
            endpoint: "example.net:80".to_string(),
            timeout: 2,
            message: "timed out".to_string()
        })
    );
    assert_eq!(
        machine.asked,
        vec![
            Request::Resolve { endpoint: "example.net:80".to_string() },
            Request::Connect { address: "192.0.2.1:80".to_string(), timeout_secs: 2 },
        ]
    );
}

#[test]
fn architecture_is_read_from_uname() {
    let mut machine = Machine::new(&[], &[], ("", ""));
    let reply = machine.perform(os_arch_request());
    assert_eq!(get_os_arch(reply), Ok(OSArch::AMD64));
}
