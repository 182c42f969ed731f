use mount_sidecar::coordination::PID_FILENAME;
use mount_sidecar::mountpoint::{
    cleanup_stale_state, evidence_plan, force_unmount, is_mounted, is_mountpoint, CleanupStep,
    EvidencePlan, MountEvidence, Os, UnmountPlan,
};
use mount_sidecar::path::join_paths;
use mount_sidecar::pidfile::{
    is_sidecar_alive, pid_file_contents, read_pid, sidecar_pid, Family, ProcessProbe, STILL_ACTIVE,
};
use mount_sidecar::protocol::Reply;

const RUNNING: ProcessProbe = ProcessProbe::Signal { status: 0 };
const GONE: ProcessProbe = ProcessProbe::Signal { status: -1 };

fn failed(text: &str) -> Reply {
    Reply::Failed { code: None, text: text.to_string() }
}

#[test]
fn test_is_sidecar_alive_nonexistent_pid() {
    assert!(!is_sidecar_alive(Family::Unix, None, RUNNING));
}

#[test]
fn test_is_sidecar_alive_invalid_pid() {
    assert!(!is_sidecar_alive(Family::Unix, Some("not_a_number\n"), RUNNING));
}

#[test]
fn test_is_sidecar_alive_dead_pid() {
    assert_eq!(sidecar_pid(Family::Unix, Some("99999999\n")), Some(99999999));
    assert!(!is_sidecar_alive(Family::Unix, Some("99999999\n"), GONE));
}

#[test]
fn test_is_sidecar_alive_current_process() {
    let pid: u32 = 4711;
    let contents = format!("{pid}\n");
    assert_eq!(sidecar_pid(Family::Unix, Some(&contents)), Some(4711));
    assert!(is_sidecar_alive(Family::Unix, Some(&contents), RUNNING));
}

/// Runs a clean-up on a pid file with the given contents and returns whether the file is left, and
/// whether the mount is.
fn clean_up(mut pid_file: Option<String>, probe: ProcessProbe, mut mounted: bool) -> (bool, bool) {
    let mut step = cleanup_stale_state();
    loop {
        let reply = match &step {
            CleanupStep::AskPidFile => {
                if pid_file.is_some() {
                    Reply::Yes
                } else {
                    Reply::No
                }
            }
            CleanupStep::AskSidecar => {
                if is_sidecar_alive(Family::Unix, pid_file.as_deref(), probe) {
                    Reply::Yes
                } else {
                    Reply::No
                }
            }
            CleanupStep::RemovePidFile => {
                pid_file = None;
                Reply::Done
            }
            CleanupStep::AskMountpoint => {
                if mounted {
                    Reply::Yes
                } else {
                    Reply::No
                }
            }
            CleanupStep::ForceUnmount => {
                mounted = false;
                Reply::Done
            }
            CleanupStep::Clean => return (pid_file.is_some(), mounted),
            CleanupStep::Failed(text) => panic!("{text}"),
        };
        step = step.next(reply);
    }
}

#[test]
fn test_cleanup_stale_state_removes_dead_pidfile() {
    let env_dir = join_paths(b"/tmp", "env".as_bytes());
    let pid_path = join_paths(&env_dir, PID_FILENAME.as_bytes());
    assert_eq!(pid_path, b"/tmp/env/.rattler-fs.pid".to_vec());
    let (left, _) = clean_up(Some("99999999\n".to_string()), GONE, false);
    assert!(!left);
}

#[test]
fn test_is_mountpoint_regular_dir() {
    let same = MountEvidence::Devices { own: Some(7), parent: Some(7) };
    assert!(!is_mountpoint(b"/tmp/dir", same));
}

#[test]
fn mount_points_are_on_a_device_of_their_own() {
    let other = || MountEvidence::Devices { own: Some(7), parent: Some(8) };
    assert!(is_mountpoint(b"/tmp/dir", other()));
    assert!(is_mounted(b"/tmp/dir", other()));
    assert!(is_mounted(b"dir", other()));
    assert!(!is_mountpoint(b"/", other()));
    assert!(!is_mountpoint(b"", other()));
    assert!(!is_mountpoint(b"/tmp/dir", MountEvidence::Devices { own: None, parent: Some(8) }));
    assert!(!is_mountpoint(b"/tmp/dir", MountEvidence::Devices { own: Some(7), parent: None }));
    assert!(!is_mounted(b"/tmp/dir", MountEvidence::Devices { own: Some(7), parent: Some(7) }));
}

#[test]
fn mounts_without_devices_are_told_by_their_sidecar() {
    let sidecar = |pid_file: Option<&str>, exit_code| MountEvidence::Sidecar {
        pid_file: pid_file.map(|text| text.to_string()),
        probe: ProcessProbe::ExitCode { queried: 1, exit_code },
    };
    assert!(is_mountpoint(b"/tmp/dir", sidecar(Some("12\n"), STILL_ACTIVE)));
    assert!(!is_mounted(b"/tmp/dir", sidecar(Some("12\n"), 0)));
    assert!(!is_mounted(b"/tmp/dir", sidecar(Some("?"), STILL_ACTIVE)));
    assert!(!is_mounted(b"/tmp/dir", sidecar(None, STILL_ACTIVE)));
}

#[test]
fn what_is_looked_at_to_tell_a_mount_point() {
    let parent = |path: &[u8]| match evidence_plan(Family::Unix, path) {
        EvidencePlan::Devices { parent } => parent,
        plan => panic!("{plan:?}"),
    };
    assert_eq!(parent(b"/tmp/dir"), Some(b"/tmp".to_vec()));
    assert_eq!(parent(b"/dir"), Some(b"/".to_vec()));
    assert_eq!(parent(b"dir"), Some(b".".to_vec()));
    assert_eq!(parent(b"dir//"), Some(b".".to_vec()));
    assert_eq!(parent(b".hidden"), Some(b".".to_vec()));
    assert_eq!(parent(b"."), Some(b"..".to_vec()));
    assert_eq!(parent(b"./"), Some(b"..".to_vec()));
    assert_eq!(parent(b".."), Some(b"../..".to_vec()));
    assert_eq!(parent(b"../"), Some(b"../..".to_vec()));
    assert_eq!(parent(b"./dir"), Some(b".".to_vec()));
    assert_eq!(parent(b"../dir"), Some(b"..".to_vec()));
    assert_eq!(parent(b"a/.."), Some(b"a".to_vec()));
    assert_eq!(parent(b"a/b/"), Some(b"a".to_vec()));
    assert_eq!(parent(b"/"), None);
    assert_eq!(parent(b""), None);
    assert_eq!(
        evidence_plan(Family::Windows, b"C:/envs/env"),
        EvidencePlan::Sidecar { pid_path: b"C:/envs/env.rattler-fs.pid".to_vec() }
    );
}

#[test]
fn a_live_sidecar_keeps_its_pid_file() {
    assert_eq!(clean_up(Some("1\n".to_string()), RUNNING, false), (true, false));
}

#[test]
fn a_live_sidecar_keeps_its_mount() {
    assert_eq!(clean_up(Some("1\n".to_string()), RUNNING, true), (true, true));
    assert_eq!(clean_up(Some("1\n".to_string()), GONE, true), (false, false));
    let step = CleanupStep::AskSidecar.next(Reply::Yes);
    assert_eq!(step, CleanupStep::Clean);
    assert_eq!(step.next(Reply::Yes), CleanupStep::Clean);
}

#[test]
fn zero_and_negative_numbers_are_the_ids_of_no_sidecar() {
    for text in ["0\n", "-1\n", "-2147483648\n", "-0", "+0", "00"] {
        assert_eq!(sidecar_pid(Family::Unix, Some(text)), None, "{text:?}");
        assert!(!is_sidecar_alive(Family::Unix, Some(text), RUNNING), "{text:?}");
        let active = ProcessProbe::ExitCode { queried: 1, exit_code: STILL_ACTIVE };
        assert!(!is_sidecar_alive(Family::Windows, Some(text), active), "{text:?}");
    }
    assert!(is_sidecar_alive(Family::Unix, Some("1\n"), RUNNING));
}

#[test]
fn what_is_left_mounted_is_unmounted() {
    assert_eq!(clean_up(None, GONE, true), (false, false));
    assert_eq!(clean_up(Some("x".to_string()), RUNNING, true), (false, false));
}

#[test]
fn clean_up_goes_on_when_the_pid_file_stays() {
    let step = CleanupStep::RemovePidFile.next(failed("denied"));
    assert_eq!(step, CleanupStep::AskMountpoint);
    let step = CleanupStep::ForceUnmount.next(failed("busy"));
    assert_eq!(step, CleanupStep::Failed("busy".to_string()));
    assert_eq!(CleanupStep::AskPidFile.next(Reply::Done), CleanupStep::AskPidFile);
}

#[test]
fn written_pids_are_read_back() {
    for pid in [1u32, 9, 10, 4711, 2147483647] {
        let contents = pid_file_contents(pid);
        assert_eq!(contents, format!("{pid}\n"));
        assert_eq!(read_pid(Family::Unix, &contents), Some(pid as i64));
        assert_eq!(read_pid(Family::Windows, &contents), Some(pid as i64));
    }
    for pid in [2147483648u32, 4294967295] {
        let contents = pid_file_contents(pid);
        assert_eq!(read_pid(Family::Unix, &contents), None);
        assert_eq!(read_pid(Family::Windows, &contents), Some(pid as i64));
    }
}

#[test]
fn pids_are_read_as_the_standard_library_reads_them() {
    for text in [
        "",
        " ",
        "\n",
        "7",
        " 7 ",
        "\t7\r\n",
        "\u{2003}7\u{3000}",
        "\u{85}7\u{a0}",
        "\u{200b}7",
        "+7",
        "-7",
        "-0",
        "+",
        "-",
        "+-7",
        "--7",
        "7 7",
        "7a",
        "0x7",
        "007",
        "2147483647",
        "2147483648",
        "-2147483648",
        "-2147483649",
        "4294967295",
        "4294967296",
        "99999999999999999999999999",
        "00000000000000000000000000000000000042",
        "-99999999999999999999999999",
        "٣",
        "1_000",
        "1.0",
    ] {
        let unix = text.trim().parse::<i32>().ok().map(|n| n as i64).filter(|n| *n >= 1);
        let windows = text.trim().parse::<u32>().ok().map(|n| n as i64).filter(|n| *n >= 1);
        assert_eq!(read_pid(Family::Unix, text), unix, "{text:?}");
        assert_eq!(read_pid(Family::Windows, text), windows, "{text:?}");
    }
}

#[test]
fn white_space_is_that_of_the_standard_library() {
    for code in 0..0x11_0000u32 {
        if let Some(c) = char::from_u32(code) {
            if c.is_whitespace() || code < 0x3100 {
                let text = format!("{c}5{c}");
                let expected = text.trim().parse::<i32>().ok().map(|n| n as i64);
                assert_eq!(read_pid(Family::Unix, &text), expected, "{code:x}");
            }
        }
    }
}

#[test]
fn a_windows_process_lives_until_it_has_an_exit_code() {
    let pid_file = Some("12\n");
    let code = |queried, exit_code| ProcessProbe::ExitCode { queried, exit_code };
    assert!(is_sidecar_alive(Family::Windows, pid_file, code(1, STILL_ACTIVE)));
    assert!(!is_sidecar_alive(Family::Windows, pid_file, code(0, STILL_ACTIVE)));
    assert!(!is_sidecar_alive(Family::Windows, pid_file, code(1, 0)));
    assert!(!is_sidecar_alive(Family::Windows, pid_file, ProcessProbe::NoHandle));
    assert!(!is_sidecar_alive(Family::Windows, Some("-12\n"), code(1, STILL_ACTIVE)));
}

#[test]
fn unmounting_by_force() {
    assert_eq!(
        force_unmount(Os::Linux, b"/tmp/env", None),
        UnmountPlan::Run {
            program: "fusermount3".to_string(),
            args: vec!["-uz".to_string(), "/tmp/env".to_string()],
        }
    );
    assert_eq!(
        force_unmount(Os::MacOs, b"/tmp/e\xffnv", None),
        UnmountPlan::Run {
            program: "umount".to_string(),
            args: vec!["-f".to_string(), "/tmp/e\u{fffd}nv".to_string()],
        }
    );
    assert_eq!(
        force_unmount(Os::Windows, b"C:/envs/env", Some("17\n")),
        UnmountPlan::Terminate {
            pid: Some(17),
            exit_code: 1,
            pid_path: b"C:/envs/env.rattler-fs.pid".to_vec(),
        }
    );
    assert_eq!(
        force_unmount(Os::Windows, b"C:/envs/env", Some("-17\n")),
        UnmountPlan::Terminate {
            pid: None,
            exit_code: 1,
            pid_path: b"C:/envs/env.rattler-fs.pid".to_vec(),
        }
    );
    assert_eq!(force_unmount(Os::Other, b"/tmp/env", None), UnmountPlan::Nothing);
}
