use mount_sidecar::managed::{
    execute_managed, ManagedError, ManagedSidecar, ManagedStep, POLL_INTERVAL_SECONDS,
};
use mount_sidecar::mount::{
    execute, execute_interactive, mount_config, mounted_message, plan_mount, select_mount_point,
    InteractiveStep, MountBackend, MountConfig, MountError, MountRequest, MountStep, Transport,
};
use mount_sidecar::pidfile::Family;
use mount_sidecar::protocol::Reply;

fn failed(text: &str) -> Reply {
    Reply::Failed { code: None, text: text.to_string() }
}

fn sidecar(grace_period: u64, has_pid_file: bool, has_ready_channel: bool) -> ManagedSidecar {
    let unix = Family::Unix;
    execute_managed(b"/tmp/envs/default", unix, grace_period, has_pid_file, has_ready_channel)
}

fn run(mut sidecar: ManagedSidecar, replies: Vec<Reply>) -> ManagedSidecar {
    for reply in replies {
        sidecar = sidecar.next(reply);
    }
    sidecar
}

fn done(n: usize) -> Vec<Reply> {
    (0..n).map(|_| Reply::Done).collect()
}

/// A sidecar without a pid file and without a pipe that waits for its first tick.
fn waiting(grace_period: u64) -> ManagedSidecar {
    let sidecar = run(sidecar(grace_period, false, false), done(6));
    assert_eq!(sidecar.step, ManagedStep::AwaitTick { idle_seconds: 0 });
    sidecar
}

fn tick(sidecar: ManagedSidecar, free: bool) -> ManagedSidecar {
    if free {
        sidecar.next(Reply::Yes).next(Reply::Done)
    } else {
        sidecar.next(Reply::No)
    }
}

#[test]
fn a_sidecar_mounts_records_and_reports_in_this_order() {
    let mut sidecar = sidecar(10, true, true);
    assert_eq!(sidecar.lock_path, b"/tmp/envs/default.rattler-fs.lock".to_vec());
    for step in [
        ManagedStep::Detach,
        ManagedStep::CreateMountDir,
        ManagedStep::MountEnvironment,
        ManagedStep::WritePidFile,
        ManagedStep::SignalReady,
        ManagedStep::WatchTermination,
        ManagedStep::OpenLockFile,
        ManagedStep::SkipFirstTick,
        ManagedStep::AwaitTick { idle_seconds: 0 },
        ManagedStep::RemovePidFile,
        ManagedStep::Finished,
    ] {
        assert_eq!(sidecar.step, step);
        sidecar = sidecar.next(Reply::Done);
    }
    assert_eq!(sidecar.step, ManagedStep::Finished);
}

#[test]
fn what_a_sidecar_was_not_given_it_skips() {
    assert_eq!(run(sidecar(1, false, true), done(3)).step, ManagedStep::SignalReady);
    assert_eq!(run(sidecar(1, true, false), done(4)).step, ManagedStep::WatchTermination);
    assert_eq!(run(sidecar(1, false, false), done(3)).step, ManagedStep::WatchTermination);
    assert_eq!(run(sidecar(1, false, false), done(7)).step, ManagedStep::Finished);
}

#[test]
fn a_windows_sidecar_reports_and_polls() {
    let mut sidecar = execute_managed(b"/tmp/envs/default", Family::Windows, 2, true, true);
    for step in [
        ManagedStep::CreateMountDir,
        ManagedStep::MountEnvironment,
        ManagedStep::WritePidFile,
        ManagedStep::SignalReady,
        ManagedStep::OpenLockFile,
        ManagedStep::SkipFirstTick,
    ] {
        assert_eq!(sidecar.step, step);
        sidecar = sidecar.next(Reply::Done);
    }
    sidecar = tick(sidecar, true);
    assert_eq!(sidecar.step, ManagedStep::AwaitTick { idle_seconds: 1 });
    assert_eq!(tick(sidecar, true).step, ManagedStep::RemovePidFile);
    let quiet = execute_managed(b"/tmp/envs/default", Family::Windows, 2, false, false);
    assert_eq!(run(quiet, done(2)).step, ManagedStep::OpenLockFile);
}

#[test]
fn a_probe_is_released_before_anything_else() {
    let probing = waiting(3).next(Reply::Yes);
    assert_eq!(probing.step, ManagedStep::ReleaseProbe { idle_seconds: 0 });
    assert_eq!(
        probing.next(Reply::Done).step,
        ManagedStep::AwaitTick { idle_seconds: 1 }
    );
}

#[test]
fn a_sidecar_goes_after_its_grace_period() {
    let mut sidecar = waiting(3);
    for idle_seconds in 1..3u64 {
        sidecar = tick(sidecar, true);
        assert_eq!(sidecar.step, ManagedStep::AwaitTick { idle_seconds });
    }
    sidecar = tick(sidecar, true);
    assert_eq!(sidecar.step, ManagedStep::Finished);
    assert_eq!(POLL_INTERVAL_SECONDS, 1);
}

#[test]
fn a_client_starts_the_grace_period_anew() {
    let mut sidecar = waiting(3);
    for free in [true, true, false, true, true] {
        sidecar = tick(sidecar, free);
    }
    assert_eq!(sidecar.step, ManagedStep::AwaitTick { idle_seconds: 2 });
    assert_eq!(tick(sidecar, true).step, ManagedStep::Finished);
}

#[test]
fn no_grace_period_is_one_second() {
    assert_eq!(tick(waiting(0), true).step, ManagedStep::Finished);
    assert_eq!(tick(waiting(1), true).step, ManagedStep::Finished);
    let busy = tick(waiting(0), false);
    assert_eq!(busy.step, ManagedStep::AwaitTick { idle_seconds: 0 });
}

#[test]
fn the_longest_grace_period_does_not_overflow() {
    let mut sidecar = waiting(u64::MAX);
    sidecar.step = ManagedStep::ReleaseProbe { idle_seconds: u64::MAX - 2 };
    sidecar = sidecar.next(Reply::Done);
    assert_eq!(sidecar.step, ManagedStep::AwaitTick { idle_seconds: u64::MAX - 1 });
    assert_eq!(tick(sidecar, true).step, ManagedStep::Finished);
}

#[test]
fn a_signal_ends_a_sidecar() {
    let mut sidecar = waiting(3);
    sidecar.has_pid_file = true;
    assert_eq!(sidecar.next(Reply::Done).step, ManagedStep::RemovePidFile);
}

#[test]
fn waiting_for_a_signal_may_fail() {
    assert_eq!(waiting(3).next(failed("no handler")).step, ManagedStep::Finished);
    let mut sidecar = waiting(3);
    sidecar.has_pid_file = true;
    assert_eq!(sidecar.next(failed("no handler")).step, ManagedStep::RemovePidFile);
    let mut sidecar = waiting(3);
    sidecar.family = Family::Windows;
    assert_eq!(
        sidecar.next(failed("no handler")).step,
        ManagedStep::Failed(ManagedError::Signal("no handler".to_string()))
    );
}

#[test]
fn every_failure_of_a_sidecar_has_its_words() {
    let message = |n: usize, text: &str| {
        let mut replies = done(n);
        replies.push(failed(text));
        match run(sidecar(1, true, true), replies).step {
            ManagedStep::Failed(error) => error.message(),
            step => panic!("{step:?}"),
        }
    };
    assert_eq!(message(0, "no session"), "failed to daemonize: no session");
    assert_eq!(message(1, "denied"), "denied");
    assert_eq!(message(2, "no fuse"), "failed to mount: no fuse");
    assert_eq!(message(3, "disk full"), "disk full");
    assert_eq!(message(5, "no signals"), "no signals");
    assert_eq!(message(6, "no lock file"), "no lock file");
}

#[test]
fn what_a_sidecar_does_not_look_at_does_not_stop_it() {
    let mut replies = done(4);
    replies.push(failed("pipe closed"));
    assert_eq!(run(sidecar(1, true, true), replies).step, ManagedStep::WatchTermination);
    let released = waiting(2).next(Reply::Yes).next(failed("ignored"));
    assert_eq!(released.step, ManagedStep::AwaitTick { idle_seconds: 1 });
    let mut sidecar = waiting(2);
    sidecar.step = ManagedStep::RemovePidFile;
    assert_eq!(sidecar.next(failed("gone")).step, ManagedStep::Finished);
}

fn request(name: &str, mount_point: Option<&str>, read_only: bool) -> MountRequest {
    MountRequest {
        environment_name: name.to_string(),
        env_dir: b"/w/.pixi/envs/test".to_vec(),
        mount_point: mount_point.map(|path| path.as_bytes().to_vec()),
        read_only,
        backend: MountBackend::Auto,
    }
}

#[test]
fn a_mount_is_planned() {
    let plan = plan_mount(request("test", None, false));
    assert_eq!(plan.environment_name, "test");
    assert_eq!(plan.mount_point, b"/w/.pixi/envs/test".to_vec());
    assert_eq!(plan.overlay_dir, Some(b"/w/.pixi/envs/test.rattler-fs-overlay".to_vec()));
    assert_eq!(plan.transport, Transport::Auto);
}

#[test]
fn the_default_environment_has_a_name() {
    assert_eq!(plan_mount(request("", None, true)).environment_name, "default");
    assert_eq!(rattler_lock::DEFAULT_ENVIRONMENT_NAME, "default");
}

#[test]
fn another_mount_point_leaves_the_overlay_where_it_is() {
    let plan = plan_mount(request("test", Some("/mnt"), false));
    assert_eq!(plan.mount_point, b"/mnt".to_vec());
    assert_eq!(plan.overlay_dir, Some(b"/w/.pixi/envs/test.rattler-fs-overlay".to_vec()));
    assert_eq!(select_mount_point(None, b"/e".to_vec()), b"/e".to_vec());
    assert_eq!(select_mount_point(Some(b"/m".to_vec()), b"/e".to_vec()), b"/m".to_vec());
}

#[test]
fn backends_have_their_transports() {
    for (backend, transport) in [
        (MountBackend::Auto, Transport::Auto),
        (MountBackend::Nfs, Transport::Nfs),
        (MountBackend::Fuse, Transport::Fuse),
    ] {
        let mut wanted = request("test", None, true);
        wanted.backend = backend;
        assert_eq!(plan_mount(wanted).transport, transport);
    }
}

#[test]
fn a_mount_is_writable_exactly_with_an_overlay() {
    let config = mount_config(plan_mount(request("test", None, false)), "h".to_string());
    assert_eq!(
        config,
        MountConfig::Writable {
            mount_point: b"/w/.pixi/envs/test".to_vec(),
            overlay_dir: b"/w/.pixi/envs/test.rattler-fs-overlay".to_vec(),
            transport: Transport::Auto,
            env_hash: "h".to_string(),
        }
    );
    let config = mount_config(plan_mount(request("test", None, true)), "h".to_string());
    assert_eq!(
        config,
        MountConfig::ReadOnly {
            mount_point: b"/w/.pixi/envs/test".to_vec(),
            transport: Transport::Auto,
            env_hash: "h".to_string(),
        }
    );
}

#[test]
fn a_sidecar_uses_the_lock_file_as_it_is() {
    let mut step = execute();
    for expected in [
        MountStep::LocateWorkspace,
        MountStep::SelectEnvironment,
        MountStep::LoadLockFile,
        MountStep::LocateCache,
        MountStep::HashEnvironment,
        MountStep::RunManaged,
        MountStep::Finished,
    ] {
        assert_eq!(step, expected);
        step = step.next(true, Reply::Done);
    }
}

#[test]
fn an_interactive_mount_updates_the_lock_file() {
    let mut step = execute();
    for expected in [
        MountStep::LocateWorkspace,
        MountStep::SelectEnvironment,
        MountStep::UpdateLockFile,
        MountStep::HashEnvironment,
        MountStep::RunInteractive,
        MountStep::Finished,
    ] {
        assert_eq!(step, expected);
        step = step.next(false, Reply::Done);
    }
}

#[test]
fn every_failure_of_the_mount_command_has_its_words() {
    for (step, managed, error, words) in [
        (MountStep::LocateWorkspace, true, MountError::Workspace("e".to_string()), "e"),
        (MountStep::SelectEnvironment, true, MountError::Environment("e".to_string()), "e"),
        (MountStep::LoadLockFile, true, MountError::LockFile("e".to_string()), "e"),
        (MountStep::LocateCache, true, MountError::Cache("e".to_string()), "e"),
        (MountStep::UpdateLockFile, false, MountError::Update("e".to_string()), "e"),
        (
            MountStep::HashEnvironment,
            false,
            MountError::Hash("e".to_string()),
            "failed to compute env hash: e",
        ),
        (MountStep::RunManaged, true, MountError::Run("e".to_string()), "e"),
        (MountStep::RunInteractive, false, MountError::Run("e".to_string()), "e"),
    ] {
        assert_eq!(error.message(), words);
        assert_eq!(step.next(managed, failed("e")), MountStep::Failed(error));
    }
}

#[test]
fn an_interactive_mount_lasts_until_a_signal() {
    let mut step = execute_interactive();
    for expected in [
        InteractiveStep::CreateMountDir,
        InteractiveStep::MountEnvironment,
        InteractiveStep::Announce,
        InteractiveStep::WatchTermination,
        InteractiveStep::AwaitSignal,
        InteractiveStep::Finished,
    ] {
        assert_eq!(step, expected);
        step = step.next(Family::Unix, Reply::Done);
    }
    assert_eq!(
        InteractiveStep::Announce.next(Family::Windows, Reply::Done),
        InteractiveStep::AwaitSignal
    );
}

#[test]
fn an_interactive_mount_can_fail() {
    let unix = Family::Unix;
    assert_eq!(
        InteractiveStep::CreateMountDir.next(unix, failed("e")),
        InteractiveStep::Failed(ManagedError::CreateDir("e".to_string()))
    );
    assert_eq!(
        InteractiveStep::MountEnvironment.next(unix, failed("e")),
        InteractiveStep::Failed(ManagedError::Mount("e".to_string()))
    );
    assert_eq!(
        InteractiveStep::WatchTermination.next(unix, failed("e")),
        InteractiveStep::Failed(ManagedError::Signal("e".to_string()))
    );
    assert_eq!(
        InteractiveStep::AwaitSignal.next(unix, failed("e")),
        InteractiveStep::Failed(ManagedError::Signal("e".to_string()))
    );
    assert_eq!(
        InteractiveStep::AwaitSignal.next(Family::Windows, failed("e")),
        InteractiveStep::Failed(ManagedError::Signal("e".to_string()))
    );
}

#[test]
fn the_announcement_of_a_mount() {
    assert_eq!(
        mounted_message(b"/tmp/env"),
        "Mounted at /tmp/env. Press Ctrl+C to unmount."
    );
}
