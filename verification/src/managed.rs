//! The life of a sidecar.
//!
//! A sidecar leaves the session of the process that started it, mounts the environment, records
//! its process id and reports that it is ready. From then on it tries, once a second, to lock the
//! lock file exclusively. While a client holds a share in the lock this fails; when it has worked
//! out for as many seconds in a row as the grace period has, the sidecar goes.

use vstd::prelude::*;

use crate::coordination;
use crate::coordination::coordination_paths;
use crate::path;
use crate::pidfile::Family;
use crate::protocol::Reply;
use crate::text::concat2;

verus! {

/// The time between two looks at the lock file, in seconds.
pub const POLL_INTERVAL_SECONDS: u64 = 1;

/// Why a sidecar ended before its time. Each holds the description of what went wrong.
#[derive(Debug, PartialEq, Eq)]
pub enum ManagedError {
    /// The process could not leave the session of the process that started it.
    Detach(String),
    /// The mount point could not be created.
    CreateDir(String),
    /// The environment could not be mounted.
    Mount(String),
    /// The pid file could not be written.
    WritePidFile(String),
    /// Signals could not be listened for.
    Signal(String),
    /// The lock file could not be opened.
    OpenLock(String),
}

impl ManagedError {
    /// The words of the error.
    pub open spec fn words(self) -> Seq<char> {
        match self {
            ManagedError::Detach(text) => "failed to daemonize: "@ + text@,
            ManagedError::CreateDir(text) => text@,
            ManagedError::Mount(text) => "failed to mount: "@ + text@,
            ManagedError::WritePidFile(text) => text@,
            ManagedError::Signal(text) => text@,
            ManagedError::OpenLock(text) => text@,
        }
    }

    /// Words the error for a user.
    pub fn message(&self) -> (message: String)
        ensures
            message@ == self.words(),
    {
        match self {
            ManagedError::Detach(text) => concat2("failed to daemonize: ", text.as_str()),
            ManagedError::CreateDir(text) => text.clone(),
            ManagedError::Mount(text) => concat2("failed to mount: ", text.as_str()),
            ManagedError::WritePidFile(text) => text.clone(),
            ManagedError::Signal(text) => text.clone(),
            ManagedError::OpenLock(text) => text.clone(),
        }
    }
}

/// What a sidecar has to do next.
#[derive(Debug, PartialEq, Eq)]
pub enum ManagedStep {
    /// Leave the session of the process that started this one, and lead one of its own.
    Detach,
    /// Create the mount point and the directories above it.
    CreateMountDir,
    /// Mount the environment.
    MountEnvironment,
    /// Write the process id to the pid file.
    WritePidFile,
    /// Report that the sidecar is ready through the channel that it was given, a pipe or an event,
    /// and close it; whether that works out is not looked at.
    SignalReady,
    /// Begin to listen for the signal to terminate.
    WatchTermination,
    /// Open the lock file, as [`coordination::lock_file_access`] says.
    OpenLockFile,
    /// Let the first tick of the clock pass, so that the client that started the sidecar gets its
    /// share in the lock.
    SkipFirstTick,
    /// Wait for the next tick, or for a signal to end. At a tick, try to lock the lock file
    /// exclusively, without waiting: yes if the lock was obtained, no if it was not. A signal is
    /// reported as done. Waiting for it may fail, which is an error on Windows alone.
    AwaitTick { idle_seconds: u64 },
    /// Release the exclusive lock at once.
    ReleaseProbe { idle_seconds: u64 },
    /// Remove the pid file; whether that works out is not looked at.
    RemovePidFile,
    /// Unmount and end.
    Finished,
    /// End with an error, and unmount what has been mounted.
    Failed(ManagedError),
}

/// A sidecar.
#[derive(Debug, PartialEq, Eq)]
pub struct ManagedSidecar {
    /// How the operating system locks files and reports signals.
    pub family: Family,
    /// For how many seconds the sidecar stays without clients.
    pub grace_period: u64,
    /// Whether there is a pid file to write.
    pub has_pid_file: bool,
    /// Whether there is a pipe or an event to report through.
    pub has_ready_channel: bool,
    /// The lock file of the environment.
    pub lock_path: Vec<u8>,
    /// What has to be done next.
    pub step: ManagedStep,
}

/// What decides over the course of a sidecar, apart from what happens to it.
pub struct Setup {
    /// How the operating system locks files and reports signals.
    pub family: Family,
    /// For how many seconds the sidecar stays without clients.
    pub grace_period: u64,
    /// Whether there is a pid file to write.
    pub has_pid_file: bool,
    /// Whether there is a pipe or an event to report through.
    pub has_ready_channel: bool,
}

impl Setup {
    /// How many seconds in a row have to pass without a client: the grace period, and one second
    /// in any case.
    pub open spec fn patience(self) -> nat {
        if self.grace_period == 0 {
            1
        } else {
            self.grace_period as nat
        }
    }

    /// What a sidecar has to do first. There are no sessions to leave on Windows.
    pub open spec fn first_step(self) -> ManagedStep {
        match self.family {
            Family::Unix => ManagedStep::Detach,
            Family::Windows => ManagedStep::CreateMountDir,
        }
    }

    /// What follows once the pid file, if there is one, has been written.
    pub open spec fn toward_waiting(self) -> ManagedStep {
        if self.has_ready_channel {
            ManagedStep::SignalReady
        } else {
            self.toward_polling()
        }
    }

    /// What follows once the sidecar has reported, if it has a channel for it. There is no signal
    /// to terminate on Windows.
    pub open spec fn toward_polling(self) -> ManagedStep {
        match self.family {
            Family::Unix => ManagedStep::WatchTermination,
            Family::Windows => ManagedStep::OpenLockFile,
        }
    }

    /// What follows once the sidecar is to end.
    pub open spec fn toward_end(self) -> ManagedStep {
        if self.has_pid_file {
            ManagedStep::RemovePidFile
        } else {
            ManagedStep::Finished
        }
    }
}

impl ManagedStep {
    /// What is to be done after `reply`. A reply that does not answer what was asked for changes
    /// nothing.
    pub open spec fn after(self, setup: Setup, reply: Reply) -> ManagedStep {
        match (self, reply) {
            (ManagedStep::Detach, Reply::Done) => ManagedStep::CreateMountDir,
            (ManagedStep::Detach, Reply::Failed { code, text }) => ManagedStep::Failed(
                ManagedError::Detach(text),
            ),
            (ManagedStep::CreateMountDir, Reply::Done) => ManagedStep::MountEnvironment,
            (ManagedStep::CreateMountDir, Reply::Failed { code, text }) => ManagedStep::Failed(
                ManagedError::CreateDir(text),
            ),
            (ManagedStep::MountEnvironment, Reply::Done) => if setup.has_pid_file {
                ManagedStep::WritePidFile
            } else {
                setup.toward_waiting()
            },
            (ManagedStep::MountEnvironment, Reply::Failed { code, text }) => ManagedStep::Failed(
                ManagedError::Mount(text),
            ),
            (ManagedStep::WritePidFile, Reply::Done) => setup.toward_waiting(),
            (ManagedStep::WritePidFile, Reply::Failed { code, text }) => ManagedStep::Failed(
                ManagedError::WritePidFile(text),
            ),
            (ManagedStep::SignalReady, Reply::Done) => setup.toward_polling(),
            (ManagedStep::SignalReady, Reply::Failed { code, text }) => setup.toward_polling(),
            (ManagedStep::WatchTermination, Reply::Done) => ManagedStep::OpenLockFile,
            (ManagedStep::WatchTermination, Reply::Failed { code, text }) => ManagedStep::Failed(
                ManagedError::Signal(text),
            ),
            (ManagedStep::OpenLockFile, Reply::Done) => ManagedStep::SkipFirstTick,
            (ManagedStep::OpenLockFile, Reply::Failed { code, text }) => ManagedStep::Failed(
                ManagedError::OpenLock(text),
            ),
            (ManagedStep::SkipFirstTick, Reply::Done) => ManagedStep::AwaitTick { idle_seconds: 0 },
            (ManagedStep::AwaitTick { idle_seconds }, Reply::Yes) => ManagedStep::ReleaseProbe {
                idle_seconds,
            },
            (ManagedStep::AwaitTick { idle_seconds }, Reply::No) => ManagedStep::AwaitTick {
                idle_seconds: 0,
            },
            (ManagedStep::AwaitTick { idle_seconds }, Reply::Done) => setup.toward_end(),
            (ManagedStep::AwaitTick { idle_seconds }, Reply::Failed { code, text }) =>
                match setup.family {
                Family::Unix => setup.toward_end(),
                Family::Windows => ManagedStep::Failed(ManagedError::Signal(text)),
            },
            (ManagedStep::ReleaseProbe { idle_seconds }, Reply::Done) =>
                ManagedStep::after_idle_second(setup, idle_seconds),
            (ManagedStep::ReleaseProbe { idle_seconds }, Reply::Failed { code, text }) =>
                ManagedStep::after_idle_second(setup, idle_seconds),
            (ManagedStep::RemovePidFile, Reply::Done) => ManagedStep::Finished,
            (ManagedStep::RemovePidFile, Reply::Failed { code, text }) => ManagedStep::Finished,
            (step, _) => step,
        }
    }

    /// What is to be done when one more second has passed without a client, after `idle_seconds`
    /// such seconds before it.
    pub open spec fn after_idle_second(setup: Setup, idle_seconds: u64) -> ManagedStep {
        if idle_seconds + 1 >= setup.grace_period {
            setup.toward_end()
        } else {
            ManagedStep::AwaitTick { idle_seconds: (idle_seconds + 1) as u64 }
        }
    }
}

impl ManagedSidecar {
    /// The part of a sidecar that does not change.
    pub open spec fn setup(self) -> Setup {
        Setup {
            family: self.family,
            grace_period: self.grace_period,
            has_pid_file: self.has_pid_file,
            has_ready_channel: self.has_ready_channel,
        }
    }

    /// A sidecar that has been idle for the whole of its grace period does not wait any longer.
    pub open spec fn well_formed(self) -> bool {
        match self.step {
            ManagedStep::AwaitTick { idle_seconds } => idle_seconds < self.setup().patience(),
            ManagedStep::ReleaseProbe { idle_seconds } => idle_seconds < self.setup().patience(),
            _ => true,
        }
    }

    /// Takes note of what came of the step that was asked for.
    pub fn next(self, reply: Reply) -> (sidecar: ManagedSidecar)
        ensures
            self.well_formed() ==> sidecar.well_formed(),
            sidecar == (ManagedSidecar { step: self.step.after(self.setup(), reply), ..self }),
    {
        let family = self.family;
        let grace_period = self.grace_period;
        let has_pid_file = self.has_pid_file;
        let has_ready_channel = self.has_ready_channel;
        let polling = match family {
            Family::Unix => ManagedStep::WatchTermination,
            Family::Windows => ManagedStep::OpenLockFile,
        };
        let end = if has_pid_file {
            ManagedStep::RemovePidFile
        } else {
            ManagedStep::Finished
        };
        let step = match (self.step, reply) {
            (ManagedStep::Detach, Reply::Done) => ManagedStep::CreateMountDir,
            (ManagedStep::Detach, Reply::Failed { text, .. }) => ManagedStep::Failed(
                ManagedError::Detach(text),
            ),
            (ManagedStep::CreateMountDir, Reply::Done) => ManagedStep::MountEnvironment,
            (ManagedStep::CreateMountDir, Reply::Failed { text, .. }) => ManagedStep::Failed(
                ManagedError::CreateDir(text),
            ),
            (ManagedStep::MountEnvironment, Reply::Done) => if has_pid_file {
                ManagedStep::WritePidFile
            } else if has_ready_channel {
                ManagedStep::SignalReady
            } else {
                polling
            },
            (ManagedStep::MountEnvironment, Reply::Failed { text, .. }) => ManagedStep::Failed(
                ManagedError::Mount(text),
            ),
            (ManagedStep::WritePidFile, Reply::Done) => if has_ready_channel {
                ManagedStep::SignalReady
            } else {
                polling
            },
            (ManagedStep::WritePidFile, Reply::Failed { text, .. }) => ManagedStep::Failed(
                ManagedError::WritePidFile(text),
            ),
            (ManagedStep::SignalReady, Reply::Done) => polling,
            (ManagedStep::SignalReady, Reply::Failed { .. }) => polling,
            (ManagedStep::WatchTermination, Reply::Done) => ManagedStep::OpenLockFile,
            (ManagedStep::WatchTermination, Reply::Failed { text, .. }) => ManagedStep::Failed(
                ManagedError::Signal(text),
            ),
            (ManagedStep::OpenLockFile, Reply::Done) => ManagedStep::SkipFirstTick,
            (ManagedStep::OpenLockFile, Reply::Failed { text, .. }) => ManagedStep::Failed(
                ManagedError::OpenLock(text),
            ),
            (ManagedStep::SkipFirstTick, Reply::Done) => ManagedStep::AwaitTick { idle_seconds: 0 },
            (ManagedStep::AwaitTick { idle_seconds }, Reply::Yes) => ManagedStep::ReleaseProbe {
                idle_seconds,
            },
            (ManagedStep::AwaitTick { .. }, Reply::No) => ManagedStep::AwaitTick {
                idle_seconds: 0,
            },
            (ManagedStep::AwaitTick { .. }, Reply::Done) => end,
            (ManagedStep::AwaitTick { .. }, Reply::Failed { text, .. }) => match family {
                Family::Unix => end,
                Family::Windows => ManagedStep::Failed(ManagedError::Signal(text)),
            },
            (ManagedStep::ReleaseProbe { idle_seconds }, Reply::Done)
            | (ManagedStep::ReleaseProbe { idle_seconds }, Reply::Failed { .. }) => {
                if grace_period == 0 || idle_seconds >= grace_period - 1 {
                    end
                } else {
                    ManagedStep::AwaitTick { idle_seconds: idle_seconds + 1 }
                }
            },
            (ManagedStep::RemovePidFile, Reply::Done) => ManagedStep::Finished,
            (ManagedStep::RemovePidFile, Reply::Failed { .. }) => ManagedStep::Finished,
            (step, _) => step,
        };
        ManagedSidecar {
            family,
            grace_period,
            has_pid_file,
            has_ready_channel,
            lock_path: self.lock_path,
            step,
        }
    }
}

/// Begins the life of a sidecar for the environment at `mount_point`.
pub fn execute_managed(
    mount_point: &[u8],
    family: Family,
    grace_period: u64,
    has_pid_file: bool,
    has_ready_channel: bool,
) -> (sidecar: ManagedSidecar)
    requires
        path::file_name(mount_point@) is Some,
    ensures
        sidecar.well_formed(),
        sidecar.setup() == (Setup { family, grace_period, has_pid_file, has_ready_channel }),
        sidecar.step == sidecar.setup().first_step(),
        sidecar.lock_path@ == coordination::sibling(mount_point@, coordination::LOCK_FILENAME@),
        sidecar.lock_path@ == coordination::lock_file_of(mount_point@),
{
    let (lock_path, _) = coordination_paths(mount_point);
    let step = match family {
        Family::Unix => ManagedStep::Detach,
        Family::Windows => ManagedStep::CreateMountDir,
    };
    ManagedSidecar {
        family,
        grace_period,
        has_pid_file,
        has_ready_channel,
        lock_path,
        step,
    }
}

// ---------------------------------------------------------------------------
// Laws of the idle time
// ---------------------------------------------------------------------------

/// What a sidecar does after one tick: at `free` it obtains the exclusive lock and releases it.
pub open spec fn after_tick(step: ManagedStep, setup: Setup, free: bool) -> ManagedStep {
    if free {
        step.after(setup, Reply::Yes).after(setup, Reply::Done)
    } else {
        step.after(setup, Reply::No)
    }
}

/// What a sidecar that has begun to wait does after the ticks `ticks`, if no signal ends it. Once
/// it does not wait for ticks any more, ticks mean nothing to it.
pub open spec fn after_ticks(setup: Setup, ticks: Seq<bool>) -> ManagedStep
    decreases ticks.len(),
{
    if ticks.len() == 0 {
        ManagedStep::AwaitTick { idle_seconds: 0 }
    } else {
        let before = after_ticks(setup, ticks.drop_last());
        if before is AwaitTick {
            after_tick(before, setup, ticks.last())
        } else {
            before
        }
    }
}

/// How many ticks in a row, up to the last, found the lock free.
pub open spec fn free_at_the_end(ticks: Seq<bool>) -> nat
    decreases ticks.len(),
{
    if ticks.len() > 0 && ticks.last() {
        free_at_the_end(ticks.drop_last()) + 1
    } else {
        0
    }
}

/// Whether, at some time during the ticks `ticks`, the lock was found free for `patience` ticks
/// in a row.
pub open spec fn ran_out(ticks: Seq<bool>, patience: nat) -> bool {
    exists|k: int| 0 <= k <= ticks.len() && free_at_the_end(#[trigger] ticks.take(k)) >= patience
}

/// A sidecar ends for want of clients exactly when the lock has been found free for as many
/// seconds in a row as its grace period has, and for one in any case. Until then it has counted
/// the seconds since a client was last there.
pub proof fn law_a_sidecar_stays_for_its_grace_period(setup: Setup, ticks: Seq<bool>)
    ensures
        ran_out(ticks, setup.patience()) ==> after_ticks(setup, ticks) == setup.toward_end(),
        !ran_out(ticks, setup.patience()) ==> after_ticks(setup, ticks) == (
        ManagedStep::AwaitTick { idle_seconds: free_at_the_end(ticks) as u64 })
            && free_at_the_end(ticks) < setup.patience(),
    decreases ticks.len(),
{
    assert(ticks.take(ticks.len() as int) =~= ticks);
    if ticks.len() == 0 {
        assert forall|k: int| 0 <= k <= ticks.len() implies free_at_the_end(
            #[trigger] ticks.take(k),
        ) < setup.patience() by {
            assert(ticks.take(k) =~= ticks);
        }
    } else {
        let before = ticks.drop_last();
        law_a_sidecar_stays_for_its_grace_period(setup, before);
        assert forall|k: int| 0 <= k <= before.len() implies #[trigger] ticks.take(k)
            == before.take(k) by {
            assert(ticks.take(k) =~= before.take(k));
        }
        if ran_out(before, setup.patience()) {
            let k = choose|k: int|
                0 <= k <= before.len() && free_at_the_end(#[trigger] before.take(k))
                    >= setup.patience();
            assert(ticks.take(k) == before.take(k));
            assert(ran_out(ticks, setup.patience()));
        } else {
            if ran_out(ticks, setup.patience()) {
                let k = choose|k: int|
                    0 <= k <= ticks.len() && free_at_the_end(#[trigger] ticks.take(k))
                        >= setup.patience();
                if k <= before.len() {
                    assert(before.take(k) == ticks.take(k));
                }
                assert(k == ticks.len());
            } else {
                assert(free_at_the_end(ticks.take(ticks.len() as int)) < setup.patience());
            }
        }
    }
}

/// A sidecar does not leave its clients: if the lock is refused to it at every tick at which a
/// client holds a share, then, at the tick at which it ends for want of clients, none has held a
/// share at any tick of a whole grace period.
///
/// `held` says of each tick whether a client held a share in the lock then.
pub proof fn law_a_sidecar_does_not_leave_its_clients(
    setup: Setup,
    ticks: Seq<bool>,
    held: Seq<bool>,
)
    requires
        held.len() == ticks.len() > 0,
        forall|i: int| 0 <= i < ticks.len() && #[trigger] held[i] ==> !ticks[i],
        after_ticks(setup, ticks.drop_last()) is AwaitTick,
        !(after_ticks(setup, ticks) is AwaitTick),
    ensures
        setup.patience() <= ticks.len(),
        forall|i: int| ticks.len() - setup.patience() <= i < ticks.len() ==> !#[trigger] held[i],
{
    let before = ticks.drop_last();
    law_a_sidecar_stays_for_its_grace_period(setup, before);
    law_a_sidecar_stays_for_its_grace_period(setup, ticks);
    let k = choose|k: int|
        0 <= k <= ticks.len() && free_at_the_end(#[trigger] ticks.take(k)) >= setup.patience();
    if k < ticks.len() {
        assert(before.take(k) =~= ticks.take(k));
        assert(ran_out(before, setup.patience()));
    }
    assert(ticks.take(k) =~= ticks);
    lemma_free_at_the_end(ticks);
}

/// What is counted as free in a row is free.
proof fn lemma_free_at_the_end(ticks: Seq<bool>)
    ensures
        free_at_the_end(ticks) <= ticks.len(),
        forall|i: int| ticks.len() - free_at_the_end(ticks) <= i < ticks.len() ==> ticks[i],
    decreases ticks.len(),
{
    if ticks.len() > 0 && ticks.last() {
        lemma_free_at_the_end(ticks.drop_last());
        assert forall|i: int| ticks.len() - free_at_the_end(ticks) <= i < ticks.len() implies
            ticks[i] by {
            if i < ticks.len() - 1 {
                assert(ticks.drop_last()[i] == ticks[i]);
            }
        }
    }
}

// ---------------------------------------------------------------------------
// Laws of the course
// ---------------------------------------------------------------------------

/// What a sidecar has to do after the replies `replies`, from the start.
pub open spec fn managed_after(setup: Setup, replies: Seq<Reply>) -> ManagedStep
    decreases replies.len(),
{
    if replies.len() == 0 {
        setup.first_step()
    } else {
        managed_after(setup, replies.drop_last()).after(setup, replies.last())
    }
}

/// Whether, in the replies `replies`, the process left the session of the one that started it.
pub open spec fn detached(setup: Setup, replies: Seq<Reply>) -> bool
    decreases replies.len(),
{
    replies.len() > 0 && (detached(setup, replies.drop_last()) || (managed_after(
        setup,
        replies.drop_last(),
    ) is Detach && replies.last() is Done))
}

/// A sidecar is a daemon: where there are sessions, it does nothing before it has left that of the
/// process that started it.
pub proof fn law_a_sidecar_is_a_daemon(setup: Setup, replies: Seq<Reply>)
    ensures
        setup.family is Unix ==> match managed_after(setup, replies) {
            ManagedStep::Detach => true,
            ManagedStep::Failed(ManagedError::Detach(_)) => true,
            _ => detached(setup, replies),
        },
    decreases replies.len(),
{
    if replies.len() > 0 {
        law_a_sidecar_is_a_daemon(setup, replies.drop_last());
    }
}

/// Whether a sidecar holds the lock on the lock file after the replies `replies`: a probe that was
/// answered with yes obtains it, and releasing it gives it back.
pub open spec fn holds_lock(setup: Setup, replies: Seq<Reply>) -> bool
    decreases replies.len(),
{
    if replies.len() == 0 {
        false
    } else {
        match (managed_after(setup, replies.drop_last()), replies.last()) {
            (ManagedStep::AwaitTick { idle_seconds }, Reply::Yes) => true,
            (ManagedStep::ReleaseProbe { idle_seconds }, Reply::Done) => false,
            _ => holds_lock(setup, replies.drop_last()),
        }
    }
}

/// Whether, in the replies `replies`, releasing the lock failed.
pub open spec fn release_failed(setup: Setup, replies: Seq<Reply>) -> bool
    decreases replies.len(),
{
    replies.len() > 0 && (release_failed(setup, replies.drop_last()) || (managed_after(
        setup,
        replies.drop_last(),
    ) is ReleaseProbe && replies.last() is Failed))
}

/// A sidecar holds the lock only between a probe that obtained it and its release, which is the
/// very next thing that it does, so that it keeps no client waiting. It holds it at no other step,
/// unless the operating system has failed to release it.
pub proof fn law_a_sidecar_holds_the_lock_only_while_it_probes(setup: Setup, replies: Seq<Reply>)
    ensures
        managed_after(setup, replies) is ReleaseProbe ==> holds_lock(setup, replies),
        holds_lock(setup, replies) ==> managed_after(setup, replies) is ReleaseProbe
            || release_failed(setup, replies),
    decreases replies.len(),
{
    if replies.len() > 0 {
        law_a_sidecar_holds_the_lock_only_while_it_probes(setup, replies.drop_last());
    }
}

/// Whether the environment was mounted in the replies `replies`.
pub open spec fn environment_mounted(setup: Setup, replies: Seq<Reply>) -> bool
    decreases replies.len(),
{
    replies.len() > 0 && (environment_mounted(setup, replies.drop_last()) || (managed_after(
        setup,
        replies.drop_last(),
    ) is MountEnvironment && replies.last() is Done))
}

/// Whether the pid file was written in the replies `replies`.
pub open spec fn pid_file_written(setup: Setup, replies: Seq<Reply>) -> bool
    decreases replies.len(),
{
    replies.len() > 0 && (pid_file_written(setup, replies.drop_last()) || (managed_after(
        setup,
        replies.drop_last(),
    ) is WritePidFile && replies.last() is Done))
}

/// Whether the removal of the pid file was carried out or failed in the replies `replies`.
pub open spec fn pid_file_removal_tried(setup: Setup, replies: Seq<Reply>) -> bool
    decreases replies.len(),
{
    replies.len() > 0 && (pid_file_removal_tried(setup, replies.drop_last()) || (managed_after(
        setup,
        replies.drop_last(),
    ) is RemovePidFile && (replies.last() is Done || replies.last() is Failed)))
}

/// A sidecar reports that it is ready only when the environment is mounted and the process id is
/// on record, if there is a file for it; and it only waits for clients after that.
pub proof fn law_ready_means_mounted_and_recorded(setup: Setup, replies: Seq<Reply>)
    ensures
        match managed_after(setup, replies) {
            ManagedStep::Detach => true,
            ManagedStep::CreateMountDir => true,
            ManagedStep::MountEnvironment => true,
            ManagedStep::WritePidFile => environment_mounted(setup, replies),
            ManagedStep::Failed(_) => true,
            _ => environment_mounted(setup, replies) && (setup.has_pid_file ==> pid_file_written(
                setup,
                replies,
            )),
        },
    decreases replies.len(),
{
    if replies.len() > 0 {
        law_ready_means_mounted_and_recorded(setup, replies.drop_last());
    }
}

/// A sidecar that has come to its end without an error has tried to remove its pid file, if it has
/// one, and it does so not before it is to end.
pub proof fn law_an_ended_sidecar_has_tried_to_remove_its_pid_file(
    setup: Setup,
    replies: Seq<Reply>,
)
    ensures
        managed_after(setup, replies) is Finished && setup.has_pid_file ==> pid_file_removal_tried(
            setup,
            replies,
        ),
        pid_file_removal_tried(setup, replies) ==> managed_after(setup, replies) is Finished,
    decreases replies.len(),
{
    if replies.len() > 0 {
        law_an_ended_sidecar_has_tried_to_remove_its_pid_file(setup, replies.drop_last());
    }
}

/// However it is answered, a sidecar stays well formed: the count of idle seconds never reaches
/// its grace period while it still waits.
pub proof fn law_idle_seconds_stay_below_the_grace_period(setup: Setup, replies: Seq<Reply>)
    ensures
        match managed_after(setup, replies) {
            ManagedStep::AwaitTick { idle_seconds } => idle_seconds < setup.patience(),
            ManagedStep::ReleaseProbe { idle_seconds } => idle_seconds < setup.patience(),
            _ => true,
        },
    decreases replies.len(),
{
    if replies.len() > 0 {
        law_idle_seconds_stay_below_the_grace_period(setup, replies.drop_last());
    }
}

// ---------------------------------------------------------------------------
// Laws of the answers
// ---------------------------------------------------------------------------

/// One more reply takes a sidecar one step on.
proof fn lemma_one_more_reply(setup: Setup, replies: Seq<Reply>, reply: Reply)
    ensures
        managed_after(setup, replies.push(reply)) == managed_after(setup, replies).after(
            setup,
            reply,
        ),
{
    assert(replies.push(reply).drop_last() =~= replies);
}

/// Whether a sidecar has failed, with an error of these words.
pub open spec fn failed_saying(step: ManagedStep, words: Seq<char>) -> bool {
    step matches ManagedStep::Failed(error) && error.words() == words
}

/// What a sidecar goes through until it waits for its clients, in this order.
pub open spec fn stages(setup: Setup) -> Seq<ManagedStep> {
    (if setup.family is Unix {
        seq![ManagedStep::Detach]
    } else {
        seq![]
    }) + seq![ManagedStep::CreateMountDir, ManagedStep::MountEnvironment] + (
    if setup.has_pid_file {
        seq![ManagedStep::WritePidFile]
    } else {
        seq![]
    }) + (if setup.has_ready_channel {
        seq![ManagedStep::SignalReady]
    } else {
        seq![]
    }) + (if setup.family is Unix {
        seq![ManagedStep::WatchTermination]
    } else {
        seq![]
    }) + seq![ManagedStep::OpenLockFile, ManagedStep::SkipFirstTick]
}

/// A sidecar with which all goes well goes through its stages one by one, and then waits for its
/// clients, with no idle second counted yet.
pub proof fn law_a_sidecar_goes_through_its_stages(setup: Setup, n: nat)
    requires
        n <= stages(setup).len(),
    ensures
        managed_after(setup, Seq::new(n, |i: int| Reply::Done)) == if n < stages(setup).len() {
            stages(setup)[n as int]
        } else {
            ManagedStep::AwaitTick { idle_seconds: 0 }
        },
    decreases n,
{
    let replies = Seq::new(n, |i: int| Reply::Done);
    if n > 0 {
        law_a_sidecar_goes_through_its_stages(setup, (n - 1) as nat);
        assert(replies.drop_last() =~= Seq::new((n - 1) as nat, |i: int| Reply::Done));
    }
}

/// A signal ends a sidecar, however long it has been idle: it removes its pid file, if it has one,
/// and is finished whatever comes of that. A wait for the signal that fails ends it in the same way
/// on Unix, and with the reason on Windows.
pub proof fn law_a_signal_ends_a_sidecar(
    setup: Setup,
    idle_seconds: u64,
    code: Option<i32>,
    text: String,
    removed: Reply,
)
    requires
        removed is Done || removed is Failed,
    ensures
        ({
            let waiting = ManagedStep::AwaitTick { idle_seconds };
            let signalled = waiting.after(setup, Reply::Done);
            let failed = waiting.after(setup, Reply::Failed { code, text });
            &&& signalled == if setup.has_pid_file {
                ManagedStep::RemovePidFile
            } else {
                ManagedStep::Finished
            }
            &&& signalled.after(setup, removed) is Finished
            &&& match setup.family {
                Family::Unix => failed == signalled,
                Family::Windows => failed_saying(failed, text@),
            }
        }),
{
}

/// A tick counts one idle second if the lock is free, whatever comes of releasing it, and none if
/// it is not; the sidecar ends exactly with the second that completes its grace period, and with
/// the first where there is none.
pub proof fn law_a_tick_counts_one_second(setup: Setup, idle_seconds: u64, released: Reply)
    requires
        released is Done || released is Failed,
    ensures
        ({
            let waiting = ManagedStep::AwaitTick { idle_seconds };
            let free = waiting.after(setup, Reply::Yes);
            let counted = free.after(setup, released);
            &&& free == (ManagedStep::ReleaseProbe { idle_seconds })
            &&& waiting.after(setup, Reply::No) == (ManagedStep::AwaitTick { idle_seconds: 0 })
            &&& if idle_seconds + 1 >= setup.grace_period {
                counted == waiting.after(setup, Reply::Done)
            } else {
                counted matches ManagedStep::AwaitTick { idle_seconds: count } && count
                    == idle_seconds + 1
            }
        }),
        setup.grace_period == 0 ==> setup.patience() == 1,
        setup.grace_period > 0 ==> setup.patience() == setup.grace_period,
{
}

/// A failure ends a sidecar with the reason that was given; to report, to release the lock and to
/// remove the pid file are the things whose failure changes nothing.
pub proof fn law_a_sidecar_fails_with_the_reason(
    setup: Setup,
    replies: Seq<Reply>,
    code: Option<i32>,
    text: String,
)
    ensures
        ({
            let failed = managed_after(setup, replies.push(Reply::Failed { code, text }));
            match managed_after(setup, replies) {
                ManagedStep::Detach => failed_saying(failed, "failed to daemonize: "@ + text@),
                ManagedStep::CreateMountDir => failed_saying(failed, text@),
                ManagedStep::MountEnvironment => failed_saying(
                    failed,
                    "failed to mount: "@ + text@,
                ),
                ManagedStep::WritePidFile => failed_saying(failed, text@),
                ManagedStep::WatchTermination => failed_saying(failed, text@),
                ManagedStep::OpenLockFile => failed_saying(failed, text@),
                ManagedStep::SignalReady => failed == managed_after(
                    setup,
                    replies.push(Reply::Done),
                ),
                ManagedStep::ReleaseProbe { idle_seconds } => failed == managed_after(
                    setup,
                    replies.push(Reply::Done),
                ),
                ManagedStep::RemovePidFile => failed is Finished,
                _ => true,
            }
        }),
{
    lemma_one_more_reply(setup, replies, Reply::Failed { code, text });
    lemma_one_more_reply(setup, replies, Reply::Done);
}

/// A sidecar takes no notice of what does not answer it, and its end is final.
pub proof fn law_a_sidecar_heeds_answers_alone(setup: Setup, replies: Seq<Reply>, reply: Reply)
    ensures
        ({
            let step = managed_after(setup, replies);
            let unfit = reply is Text || ((reply is Yes || reply is No) && !(step is AwaitTick))
                || (step is SkipFirstTick && reply is Failed) || step is Finished || step is Failed;
            unfit ==> managed_after(setup, replies.push(reply)) == step
        }),
{
    lemma_one_more_reply(setup, replies, reply);
}

} // verus!
