use std::collections::hash_map::DefaultHasher;
use std::hash::{Hash, Hasher};
use std::path::Path;

use mount_sidecar::coordination::{
    coordination_paths, lock_file_access, FileAccess, LockUser, MountGuard,
};
use mount_sidecar::ensure::{
    ensure_mount, EnsureError, EnsureMount, EnsureStep, Terms,
};
use mount_sidecar::pidfile::Family;
use mount_sidecar::protocol::Reply;
use mount_sidecar::start::{
    event_name, ready_event_name, sidecar_arguments, sidecar_command, start_sidecar, Readiness,
    ReadyChannel, SidecarCommand, StartError, StartStep, Stream, READY_LINE,
    READY_TIMEOUT_SECONDS, WAIT_ABANDONED, WAIT_OBJECT_0, WAIT_TIMEOUT,
};
use mount_sidecar::umount::{
    execute, not_mounted_message, unmounted_message, Termination, UmountError, UmountStep,
    ENDED_EXIT_CODE, UNMOUNT_PAUSE_MILLIS,
};

const BUSY: i32 = 11;

const RETRIES: u32 = 3;

fn terms(family: Family) -> Terms {
    Terms { family, busy_code: BUSY, retry_limit: RETRIES }
}

fn failed(code: Option<i32>, text: &str) -> Reply {
    Reply::Failed { code, text: text.to_string() }
}

fn run(family: Family, replies: Vec<Reply>) -> EnsureMount {
    let mut client = ensure_mount(b"/tmp/envs/default", terms(family));
    for reply in replies {
        client = client.next(reply);
    }
    client
}

#[test]
fn a_client_knows_its_files() {
    let client = run(Family::Unix, vec![]);
    assert_eq!(client.lock_path(), b"/tmp/envs/default.rattler-fs.lock".to_vec());
    assert_eq!(client.pid_path(), b"/tmp/envs/default.rattler-fs.pid".to_vec());
    assert_eq!(*client.step(), EnsureStep::CreateEnvDir);
    assert!(client.guard().is_none());
}

#[test]
fn a_sidecar_in_its_grace_period_is_reused() {
    let client = run(
        Family::Unix,
        vec![Reply::Done, Reply::Done, Reply::Done, Reply::Yes, Reply::Done],
    );
    let guard: Option<MountGuard> = client.guard();
    assert_eq!(guard.unwrap().lock_path(), b"/tmp/envs/default.rattler-fs.lock");
}

#[test]
fn a_dead_sidecar_is_replaced() {
    let mut client = run(Family::Unix, vec![Reply::Done, Reply::Done, Reply::Done, Reply::No]);
    assert_eq!(*client.step(), EnsureStep::CleanBeforeStart);
    client = client.next(Reply::Done);
    assert_eq!(*client.step(), EnsureStep::StartSidecar);
    client = client.next(Reply::Done);
    assert_eq!(*client.step(), EnsureStep::Downgrade);
    client = client.next(Reply::Done);
    assert_eq!(*client.step(), EnsureStep::Mounted);
}

#[test]
fn windows_releases_the_lock_before_it_shares_it() {
    let mut client = run(
        Family::Windows,
        vec![Reply::Done, Reply::Done, Reply::Done, Reply::Yes],
    );
    assert_eq!(*client.step(), EnsureStep::ReleaseExclusive);
    client = client.next(failed(None, "ignored"));
    assert_eq!(*client.step(), EnsureStep::AcquireSharedAgain);
    client = client.next(failed(Some(1), "no"));
    assert_eq!(
        *client.step(),
        EnsureStep::Failed(EnsureError::AcquireShared("no".to_string()))
    );
}

#[test]
fn a_busy_lock_is_shared() {
    let mut client = run(
        Family::Unix,
        vec![Reply::Done, Reply::Done, failed(Some(BUSY), "busy")],
    );
    assert_eq!(*client.step(), EnsureStep::AcquireShared);
    client = client.next(Reply::Done);
    assert_eq!(*client.step(), EnsureStep::AskSharedSidecar);
    client = client.next(Reply::Yes);
    assert_eq!(*client.step(), EnsureStep::Mounted);
}

#[test]
fn a_stale_share_is_given_up_and_tried_again() {
    let mut client = run(
        Family::Unix,
        vec![Reply::Done, Reply::Done, failed(Some(BUSY), "busy"), Reply::Done, Reply::No],
    );
    assert_eq!(*client.step(), EnsureStep::ReleaseShared);
    client = client.next(failed(None, "ignored"));
    assert_eq!(*client.step(), EnsureStep::CleanBeforeRetry);
    client = client.next(Reply::Done);
    assert_eq!(*client.step(), EnsureStep::CreateEnvDir);
}

#[test]
fn every_failure_of_a_client_has_its_words() {
    let done = |n: usize| (0..n).map(|_| Reply::Done).collect::<Vec<Reply>>();
    let message = |family: Family, replies: Vec<Reply>| match run(family, replies).step() {
        EnsureStep::Failed(error) => error.message(),
        step => panic!("{step:?}"),
    };
    let with = |mut replies: Vec<Reply>, more: Vec<Reply>| {
        replies.extend(more);
        replies
    };
    let unix = Family::Unix;
    assert_eq!(message(unix, vec![failed(None, "denied")]), "denied");
    assert_eq!(message(unix, with(done(1), vec![failed(None, "no file")])), "no file");
    assert_eq!(
        message(unix, with(done(2), vec![failed(Some(5), "broken")])),
        "failed to acquire lock: broken"
    );
    assert_eq!(
        message(unix, with(done(2), vec![failed(None, "broken")])),
        "failed to acquire lock: broken"
    );
    assert_eq!(
        message(unix, with(done(3), vec![Reply::No, failed(None, "stuck")])),
        "stuck"
    );
    assert_eq!(
        message(unix, with(done(3), vec![Reply::No, Reply::Done, failed(None, "no start")])),
        "no start"
    );
    assert_eq!(
        message(unix, with(done(3), vec![Reply::Yes, failed(None, "lost")])),
        "failed to downgrade to shared lock: lost"
    );
    assert_eq!(
        message(unix, with(done(2), vec![failed(Some(BUSY), ""), failed(None, "lost")])),
        "failed to acquire shared lock: lost"
    );
    assert_eq!(
        message(
            Family::Windows,
            with(done(3), vec![Reply::Yes, Reply::Done, failed(None, "lost")])
        ),
        "failed to acquire shared lock: lost"
    );
}

#[test]
fn replies_that_do_not_fit_change_nothing() {
    assert_eq!(*run(Family::Unix, vec![Reply::Yes]).step(), EnsureStep::CreateEnvDir);
    let mounted = vec![Reply::Done, Reply::Done, Reply::Done, Reply::Yes, Reply::Done];
    let mut client = run(Family::Unix, mounted);
    client = client.next(failed(None, "late"));
    assert_eq!(*client.step(), EnsureStep::Mounted);
}

#[test]
fn the_command_line_of_a_sidecar() {
    let args = sidecar_arguments(
        "default",
        b"/tmp/envs/default",
        b"/tmp/envs/default.rattler-fs.pid",
        &ReadyChannel::Fd(7),
    );
    assert_eq!(
        args,
        vec![
            "mount",
            "--managed",
            "-e",
            "default",
            "--mount-point",
            "/tmp/envs/default",
            "--pidfile",
            "/tmp/envs/default.rattler-fs.pid",
            "--ready-fd",
            "7",
        ]
    );
    let event = event_name(12, 0xbeef);
    assert_eq!(event, "Local\\pixi-mount-ready-12-beef");
    let args = sidecar_arguments("e", b"d\xff", b"p", &ReadyChannel::Event(event));
    assert_eq!(
        args,
        vec![
            "mount",
            "--managed",
            "-e",
            "e",
            "--mount-point",
            "d\u{fffd}",
            "--pidfile",
            "p",
            "--ready-event",
            "Local\\pixi-mount-ready-12-beef",
        ]
    );
}

#[test]
fn numbers_are_written_as_the_standard_library_writes_them() {
    for fd in [0i32, 9, 10, 123, -1, -10, i32::MAX, i32::MIN] {
        let args = sidecar_arguments("e", b"d", b"p", &ReadyChannel::Fd(fd));
        assert_eq!(args[9], fd.to_string());
    }
    for hash in [0u64, 9, 10, 15, 16, 255, 0xdead_beef, u64::MAX] {
        assert_eq!(event_name(0, hash), format!("Local\\pixi-mount-ready-0-{hash:x}"));
    }
    for status in [1u32, 0x103, 0xffff_ffff, 0x0102_0304] {
        assert_eq!(
            StartError::UnexpectedStatus(status).message(),
            format!("WaitForSingleObject returned unexpected status: 0x{status:08x}")
        );
    }
}

#[test]
fn event_names_tell_processes_and_environments_apart() {
    assert_ne!(event_name(1, 0x23), event_name(12, 0x3));
    assert_ne!(event_name(1, 2), event_name(1, 3));
    assert_ne!(event_name(1, 2), event_name(2, 2));
}

#[test]
fn a_sidecar_is_started_step_by_step() {
    let unix = Family::Unix;
    let mut step = start_sidecar();
    assert_eq!(step, StartStep::CreateChannel);
    step = step.next(unix, Reply::Done);
    assert_eq!(step, StartStep::FindExecutable);
    step = step.next(unix, Reply::Done);
    assert_eq!(step, StartStep::Spawn);
    step = step.next(unix, Reply::Done);
    assert_eq!(step, StartStep::CloseWriteEnd);
    step = step.next(unix, failed(None, "ignored"));
    assert_eq!(step, StartStep::AwaitReady);
    step = step.waited(unix, Readiness::Line(READY_LINE.to_string()));
    assert_eq!(step, StartStep::Ready);
    assert_eq!(StartStep::Spawn.next(Family::Windows, Reply::Done), StartStep::AwaitReady);
    assert_eq!(READY_TIMEOUT_SECONDS, 30);
    assert_eq!(
        StartStep::Spawn.waited(unix, Readiness::TimedOut),
        StartStep::Spawn
    );
}

#[test]
fn every_failure_of_a_start_has_its_words() {
    let message = |step: StartStep| match step {
        StartStep::Failed(error) => error.message(),
        step => panic!("{step:?}"),
    };
    let unix = Family::Unix;
    let windows = Family::Windows;
    assert_eq!(
        message(StartStep::CreateChannel.next(unix, failed(None, "e"))),
        "failed to create pipe: e"
    );
    assert_eq!(
        message(StartStep::CreateChannel.next(windows, failed(None, "e"))),
        "failed to create readiness event: e"
    );
    assert_eq!(message(StartStep::FindExecutable.next(unix, failed(None, "e"))), "e");
    assert_eq!(message(StartStep::Spawn.next(unix, failed(None, "s"))), "s");
    let waited = |family, readiness| StartStep::AwaitReady.waited(family, readiness);
    assert_eq!(
        message(waited(unix, Readiness::Line("  no luck \n".to_string()))),
        "sidecar reported error: no luck"
    );
    assert_eq!(message(waited(unix, Readiness::Line(String::new()))), "sidecar reported error: ");
    assert_eq!(
        message(waited(unix, Readiness::Line("read".to_string()))),
        "sidecar reported error: read"
    );
    assert_eq!(
        message(waited(unix, Readiness::Line("not ready".to_string()))),
        "sidecar reported error: not ready"
    );
    assert_eq!(
        message(waited(unix, Readiness::ReadFailed("e".to_string()))),
        "failed to read from sidecar pipe: e"
    );
    assert_eq!(
        message(waited(unix, Readiness::TaskFailed("e".to_string()))),
        "sidecar readiness task failed: e"
    );
    assert_eq!(message(waited(windows, Readiness::TaskFailed("e".to_string()))), "e");
    assert_eq!(waited(windows, Readiness::WaitStatus(WAIT_OBJECT_0)), StartStep::Ready);
    for (readiness, words) in [
        (Readiness::TimedOut, "timed out waiting for mount sidecar to become ready"),
        (
            Readiness::WaitStatus(WAIT_TIMEOUT),
            "timed out waiting for mount sidecar to become ready",
        ),
        (
            Readiness::WaitStatus(WAIT_ABANDONED),
            "sidecar readiness event was abandoned (sidecar may have crashed)",
        ),
        (
            Readiness::WaitStatus(0xffff_ffff),
            "WaitForSingleObject returned unexpected status: 0xffffffff",
        ),
        (
            Readiness::WaitStatus(0x2a),
            "WaitForSingleObject returned unexpected status: 0x0000002a",
        ),
    ] {
        let step = waited(windows, readiness);
        assert!(matches!(step, StartStep::KillChild(_)));
        assert_eq!(message(step.next(windows, failed(None, "ignored"))), words);
    }
}

#[test]
fn a_live_sidecar_is_told_to_end() {
    let unix = Family::Unix;
    let mut step = execute();
    assert_eq!(step, UmountStep::AskMounted);
    step = step.next(unix, Reply::Yes);
    assert_eq!(step, UmountStep::AskSidecar);
    step = step.next(unix, Reply::Yes);
    assert_eq!(step, UmountStep::ReadPidFile);
    step = step.next(unix, Reply::Text(" 42\n".to_string()));
    assert_eq!(step, UmountStep::Terminate { pid: 42, by: Termination::SigTerm });
    step = step.next(unix, Reply::Done);
    assert_eq!(step, UmountStep::Pause);
    step = step.next(unix, Reply::Done);
    assert_eq!(step, UmountStep::AskStillMounted);
    step = step.next(unix, Reply::Yes);
    assert_eq!(step, UmountStep::ForceUnmount);
    step = step.next(unix, Reply::Done);
    assert_eq!(step, UmountStep::AskMountedAfterForce);
    step = step.next(unix, Reply::No);
    assert_eq!(step, UmountStep::RemovePidFile);
    step = step.next(unix, failed(None, "ignored"));
    assert_eq!(step, UmountStep::ReportUnmounted);
    step = step.next(unix, Reply::Done);
    assert_eq!(step, UmountStep::Finished);
    assert_eq!(UNMOUNT_PAUSE_MILLIS, 500);
    assert_eq!(ENDED_EXIT_CODE, 0);
}

#[test]
fn nothing_is_done_where_nothing_is_mounted() {
    let step = execute().next(Family::Unix, Reply::No);
    assert_eq!(step, UmountStep::ReportNotMounted);
    assert_eq!(step.next(Family::Unix, Reply::Done), UmountStep::Finished);
}

#[test]
fn unmounting_without_a_sidecar() {
    let unix = Family::Unix;
    assert_eq!(UmountStep::AskSidecar.next(unix, Reply::No), UmountStep::AskStillMounted);
    assert_eq!(
        UmountStep::ReadPidFile.next(unix, Reply::Text("?".to_string())),
        UmountStep::AskStillMounted
    );
    assert_eq!(
        UmountStep::ReadPidFile.next(unix, failed(None, "gone")),
        UmountStep::AskStillMounted
    );
    assert_eq!(
        UmountStep::ReadPidFile.next(unix, Reply::Text("4294967295".to_string())),
        UmountStep::AskStillMounted
    );
    assert_eq!(
        UmountStep::ReadPidFile.next(Family::Windows, Reply::Text("4294967295".to_string())),
        UmountStep::Terminate { pid: 4294967295, by: Termination::ExitCode(0) }
    );
    assert_eq!(UmountStep::AskStillMounted.next(unix, Reply::No), UmountStep::RemovePidFile);
    assert_eq!(
        UmountStep::ForceUnmount.next(unix, failed(None, "busy")),
        UmountStep::Failed(UmountError::Force("busy".to_string()))
    );
    assert_eq!(UmountError::Force("busy".to_string()).message(), "busy");
}

#[test]
fn what_stays_mounted_is_not_reported_unmounted() {
    let unix = Family::Unix;
    let step = UmountStep::ForceUnmount.next(unix, Reply::Done);
    assert_eq!(step, UmountStep::AskMountedAfterForce);
    let step = step.next(unix, Reply::Yes);
    assert_eq!(step, UmountStep::Failed(UmountError::StillMounted));
    assert_eq!(UmountError::StillMounted.message(), "failed to unmount: still mounted");
    assert_eq!(step.next(unix, Reply::Done), UmountStep::Failed(UmountError::StillMounted));
}

#[test]
fn no_group_of_processes_is_told_to_end() {
    for text in ["0\n", "-1\n", "-4711\n", "+0", "-0", "000"] {
        for family in [Family::Unix, Family::Windows] {
            assert_eq!(
                UmountStep::ReadPidFile.next(family, Reply::Text(text.to_string())),
                UmountStep::AskStillMounted,
                "{text:?}"
            );
        }
    }
    assert_eq!(
        UmountStep::ReadPidFile.next(Family::Unix, Reply::Text("1".to_string())),
        UmountStep::Terminate { pid: 1, by: Termination::SigTerm }
    );
}

/// One round of a client that finds the lock held by others and the sidecar dead.
fn stale_round() -> Vec<Reply> {
    vec![
        Reply::Done,
        Reply::Done,
        failed(Some(BUSY), "busy"),
        Reply::Done,
        Reply::No,
        Reply::Done,
        Reply::Done,
    ]
}

#[test]
fn a_client_does_not_start_over_for_ever() {
    let mut client = run(Family::Unix, vec![]);
    for _ in 0..RETRIES {
        for reply in stale_round() {
            client = client.next(reply);
        }
        assert_eq!(*client.step(), EnsureStep::CreateEnvDir);
    }
    for reply in stale_round() {
        client = client.next(reply);
    }
    assert_eq!(*client.step(), EnsureStep::Failed(EnsureError::StillStale));
    assert_eq!(
        EnsureError::StillStale.message(),
        "mount sidecar is not running, but its lock is still held by other processes"
    );
    let mut client = ensure_mount(b"/e", Terms { retry_limit: 0, ..terms(Family::Windows) });
    for reply in stale_round() {
        client = client.next(reply);
    }
    assert_eq!(*client.step(), EnsureStep::Failed(EnsureError::StillStale));
}

#[test]
fn a_client_that_starts_over_may_still_come_to_its_mount() {
    let mut replies = stale_round();
    replies.extend(vec![Reply::Done, Reply::Done, Reply::Done, Reply::No, Reply::Done]);
    replies.extend(vec![Reply::Done, Reply::Done]);
    assert_eq!(*run(Family::Unix, replies).step(), EnsureStep::Mounted);
}

#[test]
fn a_lock_file_is_opened_as_it_is() {
    let open = |read, write, create| FileAccess { read, write, create, truncate: false };
    assert_eq!(lock_file_access(LockUser::Client, Family::Unix), open(false, true, true));
    assert_eq!(lock_file_access(LockUser::Client, Family::Windows), open(true, true, true));
    assert_eq!(lock_file_access(LockUser::Sidecar, Family::Unix), open(true, false, false));
    assert_eq!(lock_file_access(LockUser::Sidecar, Family::Windows), open(true, false, false));
}

#[test]
fn a_sidecar_is_run_in_the_workspace() {
    let command = sidecar_command(
        b"/bin/pixi".to_vec(),
        b"/ws".to_vec(),
        "default",
        b"/tmp/envs/default",
        b"/tmp/envs/default.rattler-fs.pid",
        &ReadyChannel::Fd(6),
    );
    let args = sidecar_arguments(
        "default",
        b"/tmp/envs/default",
        b"/tmp/envs/default.rattler-fs.pid",
        &ReadyChannel::Fd(6),
    );
    assert_eq!(
        command,
        SidecarCommand {
            program: b"/bin/pixi".to_vec(),
            args,
            directory: b"/ws".to_vec(),
            stdin: Stream::Null,
            stdout: Stream::Null,
            stderr: Stream::Inherited,
            inherited_fd: Some(6),
        }
    );
    let event = ReadyChannel::Event("e".to_string());
    let command = sidecar_command(vec![], vec![], "e", b"d", b"p", &event);
    assert_eq!(command.inherited_fd, None);
}

#[test]
fn the_event_of_an_environment_is_named_by_the_hash_of_its_path() {
    for path in ["/tmp/a", "/tmp//a/", "a/./b", "", "caf\u{e9}"] {
        let mut hasher = DefaultHasher::new();
        Path::new(path).hash(&mut hasher);
        assert_eq!(
            ready_event_name(12, path.as_bytes()),
            format!("Local\\pixi-mount-ready-12-{:x}", hasher.finish())
        );
    }
    assert_eq!(ready_event_name(1, b"/tmp/a"), ready_event_name(1, b"/tmp//a/"));
    assert_ne!(ready_event_name(1, b"/tmp/a"), ready_event_name(1, b"/tmp/b"));
}

#[test]
fn reports_of_unmounting() {
    assert_eq!(not_mounted_message(b"/tmp/env"), "Not mounted: /tmp/env");
    assert_eq!(unmounted_message(b"/tmp/e\xffnv"), "Unmounted /tmp/e\u{fffd}nv");
}

#[test]
fn a_sidecar_is_told_of_the_files_of_its_starter() {
    let client = ensure_mount("/tmp/envs/caf\u{e9}".as_bytes(), terms(Family::Unix));
    let args = sidecar_arguments(
        "e",
        "/tmp/envs/caf\u{e9}".as_bytes(),
        client.pid_path(),
        &ReadyChannel::Fd(7),
    );
    let (lock_path, pid_path) = coordination_paths(args[5].as_bytes());
    assert_eq!(lock_path, client.lock_path());
    assert_eq!(pid_path, client.pid_path());
    assert_eq!(args[7].as_bytes(), client.pid_path());
}
