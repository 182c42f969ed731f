//! Making sure that an environment is mounted.
//!
//! A client tries to lock the lock file exclusively, without waiting.
//!
//! - It gets the lock: nobody else uses the mount. A sidecar that is still alive, in its grace
//!   period, is used again; otherwise what a dead one left behind is cleaned up and a new one is
//!   started. Either way the client goes on with a shared lock.
//! - The lock is held by others: the mount exists or is being made. The client waits for a shared
//!   lock and makes sure that the sidecar is alive; if it is not, the client lets go, cleans up and
//!   tries again from the start, a limited number of times.

use vstd::prelude::*;

use crate::coordination;
use crate::coordination::{coordination_paths, MountGuard};
use crate::path;
use crate::pidfile::Family;
use crate::protocol::Reply;
use crate::text::concat2;

verus! {

/// What a client goes by.
#[derive(Clone, Copy, Debug, PartialEq, Eq, Structural)]
pub struct Terms {
    /// How the operating system locks files.
    pub family: Family,
    /// The error code with which a lock that others hold is refused.
    pub busy_code: i32,
    /// How often the client may start over because it found the lock held by others and the
    /// sidecar dead.
    pub retry_limit: u32,
}

/// Why an environment could not be mounted. Each but the last holds the description of what went
/// wrong.
#[derive(Debug, PartialEq, Eq)]
pub enum EnsureError {
    /// The directory of the environment could not be created.
    CreateDir(String),
    /// The lock file could not be opened.
    OpenLock(String),
    /// The exclusive lock was refused for another reason than that the file is locked.
    AcquireLock(String),
    /// The exclusive lock could not be turned into a shared one.
    Downgrade(String),
    /// The shared lock was refused.
    AcquireShared(String),
    /// What a dead sidecar left behind could not be cleaned up.
    Cleanup(String),
    /// The sidecar could not be started.
    Start(String),
    /// The sidecar was dead and others held the lock, also after as many retries
    /// as the client has.
    StillStale,
}

impl EnsureError {
    /// The words of the error.
    pub open spec fn words(self) -> Seq<char> {
        match self {
            EnsureError::CreateDir(text) => text@,
            EnsureError::OpenLock(text) => text@,
            EnsureError::AcquireLock(text) => "failed to acquire lock: "@ + text@,
            EnsureError::Downgrade(text) => "failed to downgrade to shared lock: "@ + text@,
            EnsureError::AcquireShared(text) => "failed to acquire shared lock: "@ + text@,
            EnsureError::Cleanup(text) => text@,
            EnsureError::Start(text) => text@,
            EnsureError::StillStale =>
                "mount sidecar is not running, but its lock is still held by other processes"@,
        }
    }

    /// Words the error for a user.
    pub fn message(&self) -> (message: String)
        ensures
            message@ == self.words(),
    {
        match self {
            EnsureError::CreateDir(text) => text.clone(),
            EnsureError::OpenLock(text) => text.clone(),
            EnsureError::AcquireLock(text) => concat2("failed to acquire lock: ", text.as_str()),
            EnsureError::Downgrade(text) => concat2(
                "failed to downgrade to shared lock: ",
                text.as_str(),
            ),
            EnsureError::AcquireShared(text) => concat2(
                "failed to acquire shared lock: ",
                text.as_str(),
            ),
            EnsureError::Cleanup(text) => text.clone(),
            EnsureError::Start(text) => text.clone(),
            EnsureError::StillStale => String::from_str(
                "mount sidecar is not running, but its lock is still held by other processes",
            ),
        }
    }
}

/// What a client that wants a mounted environment has to do next.
#[derive(Debug, PartialEq, Eq)]
pub enum EnsureStep {
    /// Create the directory of the environment and those above it.
    CreateEnvDir,
    /// Open the lock file, as [`coordination::lock_file_access`] says.
    OpenLockFile,
    /// Try to lock the lock file exclusively, without waiting.
    TryExclusive,
    /// Find out whether the sidecar is alive; the exclusive lock is held.
    AskGraceSidecar,
    /// Clean up what a dead sidecar left behind; the exclusive lock is held.
    CleanBeforeStart,
    /// Start a sidecar and wait until it is ready; the exclusive lock is held.
    StartSidecar,
    /// Turn the exclusive lock into a shared one.
    Downgrade,
    /// Release the exclusive lock.
    ReleaseExclusive,
    /// Wait for the shared lock, after the exclusive one has been released.
    AcquireSharedAgain,
    /// Wait for the shared lock while others use the mount.
    AcquireShared,
    /// Find out whether the sidecar is alive; the shared lock is held.
    AskSharedSidecar,
    /// Release the shared lock and close the lock file.
    ReleaseShared,
    /// Clean up what a dead sidecar left behind, before everything is tried again.
    CleanBeforeRetry,
    /// Nothing: the environment is mounted and the shared lock is held.
    Mounted,
    /// Nothing: the environment could not be mounted. The lock file is closed.
    Failed(EnsureError),
}

impl EnsureStep {
    /// What follows once the sidecar is known to run while the exclusive lock is held.
    pub open spec fn toward_shared(family: Family) -> EnsureStep {
        match family {
            Family::Unix => EnsureStep::Downgrade,
            Family::Windows => EnsureStep::ReleaseExclusive,
        }
    }

    /// What is to be done after `reply`, once everything was tried again `retries` times. A reply
    /// that does not answer what was asked for changes nothing.
    pub open spec fn after(self, terms: Terms, retries: nat, reply: Reply) -> EnsureStep {
        match (self, reply) {
            (EnsureStep::CreateEnvDir, Reply::Done) => EnsureStep::OpenLockFile,
            (EnsureStep::CreateEnvDir, Reply::Failed { code, text }) => EnsureStep::Failed(
                EnsureError::CreateDir(text),
            ),
            (EnsureStep::OpenLockFile, Reply::Done) => EnsureStep::TryExclusive,
            (EnsureStep::OpenLockFile, Reply::Failed { code, text }) => EnsureStep::Failed(
                EnsureError::OpenLock(text),
            ),
            (EnsureStep::TryExclusive, Reply::Done) => EnsureStep::AskGraceSidecar,
            (EnsureStep::TryExclusive, Reply::Failed { code, text }) => if code == Some(
                terms.busy_code,
            ) {
                EnsureStep::AcquireShared
            } else {
                EnsureStep::Failed(EnsureError::AcquireLock(text))
            },
            (EnsureStep::AskGraceSidecar, Reply::Yes) => EnsureStep::toward_shared(terms.family),
            (EnsureStep::AskGraceSidecar, Reply::No) => EnsureStep::CleanBeforeStart,
            (EnsureStep::CleanBeforeStart, Reply::Done) => EnsureStep::StartSidecar,
            (EnsureStep::CleanBeforeStart, Reply::Failed { code, text }) => EnsureStep::Failed(
                EnsureError::Cleanup(text),
            ),
            (EnsureStep::StartSidecar, Reply::Done) => EnsureStep::toward_shared(terms.family),
            (EnsureStep::StartSidecar, Reply::Failed { code, text }) => EnsureStep::Failed(
                EnsureError::Start(text),
            ),
            (EnsureStep::Downgrade, Reply::Done) => EnsureStep::Mounted,
            (EnsureStep::Downgrade, Reply::Failed { code, text }) => EnsureStep::Failed(
                EnsureError::Downgrade(text),
            ),
            (EnsureStep::ReleaseExclusive, Reply::Done) => EnsureStep::AcquireSharedAgain,
            (EnsureStep::ReleaseExclusive, Reply::Failed { code, text }) =>
                EnsureStep::AcquireSharedAgain,
            (EnsureStep::AcquireSharedAgain, Reply::Done) => EnsureStep::Mounted,
            (EnsureStep::AcquireSharedAgain, Reply::Failed { code, text }) => EnsureStep::Failed(
                EnsureError::AcquireShared(text),
            ),
            (EnsureStep::AcquireShared, Reply::Done) => EnsureStep::AskSharedSidecar,
            (EnsureStep::AcquireShared, Reply::Failed { code, text }) => EnsureStep::Failed(
                EnsureError::AcquireShared(text),
            ),
            (EnsureStep::AskSharedSidecar, Reply::Yes) => EnsureStep::Mounted,
            (EnsureStep::AskSharedSidecar, Reply::No) => EnsureStep::ReleaseShared,
            (EnsureStep::ReleaseShared, Reply::Done) => EnsureStep::CleanBeforeRetry,
            (EnsureStep::ReleaseShared, Reply::Failed { code, text }) =>
                EnsureStep::CleanBeforeRetry,
            (EnsureStep::CleanBeforeRetry, Reply::Done) => if retries < terms.retry_limit {
                EnsureStep::CreateEnvDir
            } else {
                EnsureStep::Failed(EnsureError::StillStale)
            },
            (EnsureStep::CleanBeforeRetry, Reply::Failed { code, text }) => EnsureStep::Failed(
                EnsureError::Cleanup(text),
            ),
            (step, _) => step,
        }
    }
}

/// How far a client has come.
pub struct Progress {
    /// What has to be done next.
    pub step: EnsureStep,
    /// How often everything was tried again.
    pub retries: nat,
}

impl Progress {
    /// Where every client starts.
    pub open spec fn start() -> Progress {
        Progress { step: EnsureStep::CreateEnvDir, retries: 0 }
    }

    /// How far a client has come after `reply`.
    pub open spec fn after(self, terms: Terms, reply: Reply) -> Progress {
        let step = self.step.after(terms, self.retries, reply);
        Progress {
            step,
            retries: if self.step is CleanBeforeRetry && step is CreateEnvDir {
                self.retries + 1
            } else {
                self.retries
            },
        }
    }
}

/// What a client is to those who state something of it.
pub struct EnsureView {
    /// What the client goes by.
    pub terms: Terms,
    /// The lock file of the environment.
    pub lock_path: Seq<u8>,
    /// The pid file of its sidecar.
    pub pid_path: Seq<u8>,
    /// How far the client has come.
    pub progress: Progress,
}

impl EnsureView {
    /// The lock file that the client holds a share in, once the environment is mounted.
    pub open spec fn share(self) -> Option<Seq<u8>> {
        if self.progress.step is Mounted {
            Some(self.lock_path)
        } else {
            None
        }
    }
}

/// A client on its way to a mounted environment.
///
/// It can only be had from [`ensure_mount`] and only moves on by [`EnsureMount::next`], so that a
/// client that says that the environment is mounted has gone all the way.
#[derive(Debug, PartialEq, Eq)]
pub struct EnsureMount {
    terms: Terms,
    lock_path: Vec<u8>,
    pid_path: Vec<u8>,
    step: EnsureStep,
    retries: u32,
}

impl View for EnsureMount {
    type V = EnsureView;

    closed spec fn view(&self) -> EnsureView {
        EnsureView {
            terms: self.terms,
            lock_path: self.lock_path@,
            pid_path: self.pid_path@,
            progress: Progress { step: self.step, retries: self.retries as nat },
        }
    }
}

/// Sets out to make sure that the environment at `env_dir` is mounted.
pub fn ensure_mount(env_dir: &[u8], terms: Terms) -> (client: EnsureMount)
    requires
        path::file_name(env_dir@) is Some,
    ensures
        client@ == (EnsureView {
            terms,
            lock_path: coordination::sibling(env_dir@, coordination::LOCK_FILENAME@),
            pid_path: coordination::sibling(env_dir@, coordination::PID_FILENAME@),
            progress: Progress::start(),
        }),
        client@.lock_path == coordination::lock_file_of(env_dir@),
        client@.pid_path == coordination::pid_file_of(env_dir@),
{
    let (lock_path, pid_path) = coordination_paths(env_dir);
    EnsureMount { terms, lock_path, pid_path, step: EnsureStep::CreateEnvDir, retries: 0 }
}

impl EnsureMount {
    /// What has to be done next.
    pub fn step(&self) -> (step: &EnsureStep)
        ensures
            *step == self@.progress.step,
    {
        &self.step
    }

    /// The lock file of the environment.
    pub fn lock_path(&self) -> (lock_path: &[u8])
        ensures
            lock_path@ == self@.lock_path,
    {
        self.lock_path.as_slice()
    }

    /// The pid file of its sidecar.
    pub fn pid_path(&self) -> (pid_path: &[u8])
        ensures
            pid_path@ == self@.pid_path,
    {
        self.pid_path.as_slice()
    }

    /// Takes note of what came of the step that was asked for.
    pub fn next(self, reply: Reply) -> (client: EnsureMount)
        ensures
            client@ == (EnsureView {
                progress: self@.progress.after(self@.terms, reply),
                ..self@
            }),
    {
        let terms = self.terms;
        let shared = match terms.family {
            Family::Unix => EnsureStep::Downgrade,
            Family::Windows => EnsureStep::ReleaseExclusive,
        };
        let mut retries: u32 = self.retries;
        let step = match (self.step, reply) {
            (EnsureStep::CreateEnvDir, Reply::Done) => EnsureStep::OpenLockFile,
            (EnsureStep::CreateEnvDir, Reply::Failed { text, .. }) => EnsureStep::Failed(
                EnsureError::CreateDir(text),
            ),
            (EnsureStep::OpenLockFile, Reply::Done) => EnsureStep::TryExclusive,
            (EnsureStep::OpenLockFile, Reply::Failed { text, .. }) => EnsureStep::Failed(
                EnsureError::OpenLock(text),
            ),
            (EnsureStep::TryExclusive, Reply::Done) => EnsureStep::AskGraceSidecar,
            (EnsureStep::TryExclusive, Reply::Failed { code, text }) => {
                let busy = match code {
                    Some(found) => found == terms.busy_code,
                    None => false,
                };
                if busy {
                    EnsureStep::AcquireShared
                } else {
                    EnsureStep::Failed(EnsureError::AcquireLock(text))
                }
            },
            (EnsureStep::AskGraceSidecar, Reply::Yes) => shared,
            (EnsureStep::AskGraceSidecar, Reply::No) => EnsureStep::CleanBeforeStart,
            (EnsureStep::CleanBeforeStart, Reply::Done) => EnsureStep::StartSidecar,
            (EnsureStep::CleanBeforeStart, Reply::Failed { text, .. }) => EnsureStep::Failed(
                EnsureError::Cleanup(text),
            ),
            (EnsureStep::StartSidecar, Reply::Done) => shared,
            (EnsureStep::StartSidecar, Reply::Failed { text, .. }) => EnsureStep::Failed(
                EnsureError::Start(text),
            ),
            (EnsureStep::Downgrade, Reply::Done) => EnsureStep::Mounted,
            (EnsureStep::Downgrade, Reply::Failed { text, .. }) => EnsureStep::Failed(
                EnsureError::Downgrade(text),
            ),
            (EnsureStep::ReleaseExclusive, Reply::Done) => EnsureStep::AcquireSharedAgain,
            (EnsureStep::ReleaseExclusive, Reply::Failed { .. }) => EnsureStep::AcquireSharedAgain,
            (EnsureStep::AcquireSharedAgain, Reply::Done) => EnsureStep::Mounted,
            (EnsureStep::AcquireSharedAgain, Reply::Failed { text, .. }) => EnsureStep::Failed(
                EnsureError::AcquireShared(text),
            ),
            (EnsureStep::AcquireShared, Reply::Done) => EnsureStep::AskSharedSidecar,
            (EnsureStep::AcquireShared, Reply::Failed { text, .. }) => EnsureStep::Failed(
                EnsureError::AcquireShared(text),
            ),
            (EnsureStep::AskSharedSidecar, Reply::Yes) => EnsureStep::Mounted,
            (EnsureStep::AskSharedSidecar, Reply::No) => EnsureStep::ReleaseShared,
            (EnsureStep::ReleaseShared, Reply::Done) => EnsureStep::CleanBeforeRetry,
            (EnsureStep::ReleaseShared, Reply::Failed { .. }) => EnsureStep::CleanBeforeRetry,
            (EnsureStep::CleanBeforeRetry, Reply::Done) => if retries < terms.retry_limit {
                retries = retries + 1;
                EnsureStep::CreateEnvDir
            } else {
                EnsureStep::Failed(EnsureError::StillStale)
            },
            (EnsureStep::CleanBeforeRetry, Reply::Failed { text, .. }) => EnsureStep::Failed(
                EnsureError::Cleanup(text),
            ),
            (step, _) => step,
        };
        EnsureMount {
            terms,
            lock_path: self.lock_path,
            pid_path: self.pid_path,
            step,
            retries,
        }
    }

    /// The share in the mounted environment, once it is mounted.
    pub fn guard(self) -> (guard: Option<MountGuard>)
        ensures
            match guard {
                Some(guard) => self@.progress.step is Mounted && guard@ == self@.lock_path,
                None => !(self@.progress.step is Mounted),
            },
            match guard {
                Some(guard) => self@.share() == Some(guard@),
                None => self@.share() is None,
            },
    {
        match self.step {
            EnsureStep::Mounted => Some(MountGuard::new(self.lock_path)),
            _ => None,
        }
    }
}

// ---------------------------------------------------------------------------
// Laws
// ---------------------------------------------------------------------------

/// How far a client has come after the replies `replies`, from the start.
pub open spec fn progress_after(terms: Terms, replies: Seq<Reply>) -> Progress
    decreases replies.len(),
{
    if replies.len() == 0 {
        Progress::start()
    } else {
        progress_after(terms, replies.drop_last()).after(terms, replies.last())
    }
}

/// What a client has to do after the replies `replies`, from the start.
pub open spec fn step_after(terms: Terms, replies: Seq<Reply>) -> EnsureStep {
    progress_after(terms, replies).step
}

/// What a process holds of the lock on a file.
pub enum Held {
    /// No lock.
    Nothing,
    /// A share in the lock.
    Shared,
    /// The lock alone.
    Exclusive,
}

/// What a client holds after the replies `replies`. A client that has failed closes the file, and
/// with it goes the lock.
pub open spec fn lock_held(terms: Terms, replies: Seq<Reply>) -> Held
    decreases replies.len(),
{
    if replies.len() == 0 {
        Held::Nothing
    } else {
        match (step_after(terms, replies.drop_last()), replies.last()) {
            (EnsureStep::TryExclusive, Reply::Done) => Held::Exclusive,
            (EnsureStep::Downgrade, Reply::Done) => Held::Shared,
            (EnsureStep::AcquireShared, Reply::Done) => Held::Shared,
            (EnsureStep::AcquireSharedAgain, Reply::Done) => Held::Shared,
            (EnsureStep::ReleaseExclusive, Reply::Done) => Held::Nothing,
            (EnsureStep::ReleaseShared, Reply::Done) => Held::Nothing,
            (EnsureStep::ReleaseShared, Reply::Failed { code, text }) => Held::Nothing,
            _ => if step_after(terms, replies) is Failed {
                Held::Nothing
            } else {
                lock_held(terms, replies.drop_last())
            },
        }
    }
}

/// Whether, in the replies `replies`, the directory of the environment was created.
pub open spec fn directory_created(terms: Terms, replies: Seq<Reply>) -> bool
    decreases replies.len(),
{
    replies.len() > 0 && (directory_created(terms, replies.drop_last()) || (step_after(
        terms,
        replies.drop_last(),
    ) is CreateEnvDir && replies.last() is Done))
}

/// Whether a client has the lock file open after the replies `replies`. It closes it where it
/// releases its share to start over, and where it has failed.
pub open spec fn lock_file_open(terms: Terms, replies: Seq<Reply>) -> bool
    decreases replies.len(),
{
    if replies.len() == 0 {
        false
    } else {
        match (step_after(terms, replies.drop_last()), replies.last()) {
            (EnsureStep::OpenLockFile, Reply::Done) => true,
            (EnsureStep::ReleaseShared, Reply::Done) => false,
            (EnsureStep::ReleaseShared, Reply::Failed { code, text }) => false,
            _ => lock_file_open(terms, replies.drop_last()) && !(step_after(
                terms,
                replies,
            ) is Failed),
        }
    }
}

/// Whether the last that a client learned of the sidecar, in the replies `replies`, is that it
/// runs: it was found alive, or it was started and became ready.
pub open spec fn sidecar_vouched_for(terms: Terms, replies: Seq<Reply>) -> bool
    decreases replies.len(),
{
    if replies.len() == 0 {
        false
    } else {
        match (step_after(terms, replies.drop_last()), replies.last()) {
            (EnsureStep::AskGraceSidecar, Reply::Yes) => true,
            (EnsureStep::AskSharedSidecar, Reply::Yes) => true,
            (EnsureStep::StartSidecar, Reply::Done) => true,
            (EnsureStep::AskGraceSidecar, Reply::No) => false,
            (EnsureStep::AskSharedSidecar, Reply::No) => false,
            _ => sidecar_vouched_for(terms, replies.drop_last()),
        }
    }
}

/// Whether the sidecar was found dead, in the replies `replies`, since the client last obtained the
/// exclusive lock.
pub open spec fn found_dead_under_lock(terms: Terms, replies: Seq<Reply>) -> bool
    decreases replies.len(),
{
    if replies.len() == 0 {
        false
    } else {
        match (step_after(terms, replies.drop_last()), replies.last()) {
            (EnsureStep::TryExclusive, Reply::Done) => false,
            (EnsureStep::AskGraceSidecar, Reply::No) => true,
            _ => found_dead_under_lock(terms, replies.drop_last()),
        }
    }
}

/// Whether a clean-up was carried out, in the replies `replies`, since the client last obtained the
/// exclusive lock.
pub open spec fn cleaned_under_lock(terms: Terms, replies: Seq<Reply>) -> bool
    decreases replies.len(),
{
    if replies.len() == 0 {
        false
    } else {
        match (step_after(terms, replies.drop_last()), replies.last()) {
            (EnsureStep::TryExclusive, Reply::Done) => false,
            (EnsureStep::CleanBeforeStart, Reply::Done) => true,
            _ => cleaned_under_lock(terms, replies.drop_last()),
        }
    }
}

/// How many times a client has tried to start a sidecar in the replies `replies`, whatever came of
/// it.
pub open spec fn starts_tried(terms: Terms, replies: Seq<Reply>) -> nat
    decreases replies.len(),
{
    if replies.len() == 0 {
        0
    } else {
        let before = starts_tried(terms, replies.drop_last());
        match (step_after(terms, replies.drop_last()), replies.last()) {
            (EnsureStep::StartSidecar, Reply::Done) => before + 1,
            (EnsureStep::StartSidecar, Reply::Failed { code, text }) => before + 1,
            _ => before,
        }
    }
}

/// A client holds the lock that its step speaks of, whatever replies it has had: the exclusive
/// lock while it looks for a sidecar in its grace period, cleans up before a start and starts a new
/// one, the shared lock once the environment is mounted, and none where it starts over or has
/// failed.
pub proof fn law_steps_hold_their_locks(terms: Terms, replies: Seq<Reply>)
    ensures
        match step_after(terms, replies) {
            EnsureStep::AskGraceSidecar => lock_held(terms, replies) is Exclusive,
            EnsureStep::CleanBeforeStart => lock_held(terms, replies) is Exclusive,
            EnsureStep::StartSidecar => lock_held(terms, replies) is Exclusive,
            EnsureStep::Downgrade => lock_held(terms, replies) is Exclusive,
            EnsureStep::ReleaseExclusive => lock_held(terms, replies) is Exclusive,
            EnsureStep::AcquireSharedAgain => !(lock_held(terms, replies) is Shared),
            EnsureStep::AskSharedSidecar => lock_held(terms, replies) is Shared,
            EnsureStep::ReleaseShared => lock_held(terms, replies) is Shared,
            EnsureStep::Mounted => lock_held(terms, replies) is Shared,
            _ => lock_held(terms, replies) is Nothing,
        },
    decreases replies.len(),
{
    if replies.len() > 0 {
        law_steps_hold_their_locks(terms, replies.drop_last());
    }
}

/// A client whose environment is mounted has created its directory, has the lock file open and
/// holds a share in the lock, never the lock alone. So it stays, whatever is reported later: the
/// share goes when the file is closed, not before.
pub proof fn law_a_mounted_environment_is_held(
    terms: Terms,
    replies: Seq<Reply>,
    more: Seq<Reply>,
)
    requires
        step_after(terms, replies) is Mounted,
    ensures
        step_after(terms, replies + more) is Mounted,
        directory_created(terms, replies + more),
        lock_file_open(terms, replies + more),
        lock_held(terms, replies + more) is Shared,
    decreases more.len(),
{
    let all = replies + more;
    if more.len() > 0 {
        law_a_mounted_environment_is_held(terms, replies, more.drop_last());
        assert(all.drop_last() =~= replies + more.drop_last());
    } else {
        assert(all =~= replies);
    }
    lemma_the_lock_file_is_open(terms, all);
    law_steps_hold_their_locks(terms, all);
}

/// From the first lock on, a client has the directory created and the lock file open.
proof fn lemma_the_lock_file_is_open(terms: Terms, replies: Seq<Reply>)
    ensures
        match step_after(terms, replies) {
            EnsureStep::CreateEnvDir => true,
            EnsureStep::Failed(_) => true,
            _ => directory_created(terms, replies),
        },
        match step_after(terms, replies) {
            EnsureStep::CreateEnvDir => !lock_file_open(terms, replies),
            EnsureStep::OpenLockFile => !lock_file_open(terms, replies),
            EnsureStep::CleanBeforeRetry => !lock_file_open(terms, replies),
            EnsureStep::Failed(_) => !lock_file_open(terms, replies),
            _ => lock_file_open(terms, replies),
        },
    decreases replies.len(),
{
    if replies.len() > 0 {
        lemma_the_lock_file_is_open(terms, replies.drop_last());
    }
}

/// An environment is only reported mounted when its sidecar was found alive or was started and
/// became ready, and nothing that was learned later says otherwise.
pub proof fn law_mounted_means_the_sidecar_was_seen_running(terms: Terms, replies: Seq<Reply>)
    ensures
        step_after(terms, replies) is Mounted ==> sidecar_vouched_for(terms, replies),
        match step_after(terms, replies) {
            EnsureStep::Downgrade => sidecar_vouched_for(terms, replies),
            EnsureStep::ReleaseExclusive => sidecar_vouched_for(terms, replies),
            EnsureStep::AcquireSharedAgain => sidecar_vouched_for(terms, replies),
            _ => true,
        },
    decreases replies.len(),
{
    if replies.len() > 0 {
        law_mounted_means_the_sidecar_was_seen_running(terms, replies.drop_last());
    }
}

/// A sidecar is started only after the client, while it held the exclusive lock without a break,
/// found none alive and cleaned up what a dead one left behind.
pub proof fn law_a_start_replaces_a_dead_sidecar(terms: Terms, replies: Seq<Reply>)
    ensures
        match step_after(terms, replies) {
            EnsureStep::CleanBeforeStart => {
                &&& found_dead_under_lock(terms, replies)
                &&& lock_held(terms, replies) is Exclusive
            },
            EnsureStep::StartSidecar => {
                &&& found_dead_under_lock(terms, replies)
                &&& cleaned_under_lock(terms, replies)
                &&& lock_held(terms, replies) is Exclusive
            },
            _ => true,
        },
    decreases replies.len(),
{
    law_steps_hold_their_locks(terms, replies);
    if replies.len() > 0 {
        law_a_start_replaces_a_dead_sidecar(terms, replies.drop_last());
    }
}

/// A client tries to start a sidecar once at most, however often it has to start over.
pub proof fn law_a_client_starts_one_sidecar_at_most(terms: Terms, replies: Seq<Reply>)
    ensures
        starts_tried(terms, replies) <= 1,
        starts_tried(terms, replies) == 1 ==> match step_after(terms, replies) {
            EnsureStep::Downgrade => true,
            EnsureStep::ReleaseExclusive => true,
            EnsureStep::AcquireSharedAgain => true,
            EnsureStep::Mounted => true,
            EnsureStep::Failed(_) => true,
            _ => false,
        },
    decreases replies.len(),
{
    if replies.len() > 0 {
        law_a_client_starts_one_sidecar_at_most(terms, replies.drop_last());
    }
}

/// How far a step lies from the end of its round.
pub open spec fn steps_left(step: EnsureStep) -> nat {
    match step {
        EnsureStep::CreateEnvDir => 8,
        EnsureStep::OpenLockFile => 7,
        EnsureStep::TryExclusive => 6,
        EnsureStep::AskGraceSidecar => 5,
        EnsureStep::CleanBeforeStart => 4,
        EnsureStep::AcquireShared => 4,
        EnsureStep::StartSidecar => 3,
        EnsureStep::AskSharedSidecar => 3,
        EnsureStep::Downgrade => 2,
        EnsureStep::ReleaseExclusive => 2,
        EnsureStep::ReleaseShared => 2,
        EnsureStep::AcquireSharedAgain => 1,
        EnsureStep::CleanBeforeRetry => 1,
        EnsureStep::Mounted => 0,
        EnsureStep::Failed(_) => 0,
    }
}

/// How many answers a client needs at most from where it is to the end.
pub open spec fn answers_needed(terms: Terms, progress: Progress) -> int {
    (terms.retry_limit - progress.retries) * 8 + steps_left(progress.step)
}

/// Whether a reply answers what a client asks for.
pub open spec fn answers(step: EnsureStep, reply: Reply) -> bool {
    match step {
        EnsureStep::AskGraceSidecar | EnsureStep::AskSharedSidecar => reply is Yes || reply is No,
        _ => reply is Done || reply is Failed,
    }
}

/// Whether every reply answers what was asked for when it came.
pub open spec fn all_answer(terms: Terms, replies: Seq<Reply>) -> bool {
    forall|i: int|
        0 <= i < replies.len() ==> answers(
            step_after(terms, #[trigger] replies.take(i)),
            replies[i],
        )
}

/// A client starts over no more often than its limit says, and it comes to an end: after
/// `8 * (retry_limit + 1)` answers the environment is mounted or the client has failed, whatever
/// the answers were.
pub proof fn law_retries_are_bounded(terms: Terms, replies: Seq<Reply>)
    ensures
        progress_after(terms, replies).retries <= terms.retry_limit,
        all_answer(terms, replies) && replies.len() >= 8 * (terms.retry_limit + 1) ==> (
        step_after(terms, replies) is Mounted || step_after(terms, replies) is Failed),
{
    lemma_every_answer_counts(terms, replies);
}

/// Every answer brings a client nearer to the end.
proof fn lemma_every_answer_counts(terms: Terms, replies: Seq<Reply>)
    ensures
        progress_after(terms, replies).retries <= terms.retry_limit,
        all_answer(terms, replies) ==> {
            ||| steps_left(step_after(terms, replies)) == 0
            ||| answers_needed(terms, progress_after(terms, replies)) + replies.len() <= 8 * (
            terms.retry_limit + 1)
        },
    decreases replies.len(),
{
    if replies.len() > 0 {
        let before = replies.drop_last();
        lemma_every_answer_counts(terms, before);
        if all_answer(terms, replies) {
            assert forall|i: int| 0 <= i < before.len() implies answers(
                step_after(terms, #[trigger] before.take(i)),
                before[i],
            ) by {
                assert(before.take(i) =~= replies.take(i));
            }
            assert(replies.take(replies.len() - 1) =~= before);
        }
    }
}

/// What two processes may hold of the lock on one file at the same time.
pub open spec fn compatible(a: Held, b: Held) -> bool {
    &&& a is Exclusive ==> b is Nothing
    &&& b is Exclusive ==> a is Nothing
}

/// While one client looks for a sidecar with the lock to itself, cleans up before a start or starts
/// a sidecar, no other client does any of these, and no other client has the environment mounted,
/// as long as the operating system grants an exclusive lock to one process alone.
///
/// A client that has let go of a share to start over cleans up without a lock, and may do so at
/// the same time.
pub proof fn law_sidecars_are_started_one_at_a_time(
    terms: Terms,
    a: Seq<Reply>,
    b: Seq<Reply>,
)
    requires
        compatible(lock_held(terms, a), lock_held(terms, b)),
    ensures
        match step_after(terms, a) {
            EnsureStep::AskGraceSidecar | EnsureStep::CleanBeforeStart | EnsureStep::StartSidecar =>
                match step_after(terms, b) {
                    EnsureStep::AskGraceSidecar => false,
                    EnsureStep::CleanBeforeStart => false,
                    EnsureStep::StartSidecar => false,
                    EnsureStep::AskSharedSidecar => false,
                    EnsureStep::Mounted => false,
                    _ => true,
                },
            _ => true,
        },
{
    law_steps_hold_their_locks(terms, a);
    law_steps_hold_their_locks(terms, b);
}

/// How far a client that has come to `start` has come after the replies `replies`.
pub open spec fn progress_from(terms: Terms, start: Progress, replies: Seq<Reply>) -> Progress
    decreases replies.len(),
{
    if replies.len() == 0 {
        start
    } else {
        progress_from(terms, start, replies.drop_last()).after(terms, replies.last())
    }
}

/// A client that found the sidecar alive while it held the exclusive lock uses that sidecar:
/// whatever comes next, it neither cleans up nor starts another.
pub proof fn law_a_sidecar_in_its_grace_period_is_used_again(
    terms: Terms,
    retries: nat,
    replies: Seq<Reply>,
)
    ensures
        match progress_from(
            terms,
            (Progress { step: EnsureStep::AskGraceSidecar, retries }).after(terms, Reply::Yes),
            replies,
        ).step {
            EnsureStep::Downgrade => true,
            EnsureStep::ReleaseExclusive => true,
            EnsureStep::AcquireSharedAgain => true,
            EnsureStep::Mounted => true,
            EnsureStep::Failed(_) => true,
            _ => false,
        },
    decreases replies.len(),
{
    if replies.len() > 0 {
        law_a_sidecar_in_its_grace_period_is_used_again(terms, retries, replies.drop_last());
    }
}

/// The end of the way is final: a mounted environment stays mounted and a failure stays a failure,
/// whatever is reported later.
pub proof fn law_the_outcome_is_final(
    terms: Terms,
    outcome: Progress,
    replies: Seq<Reply>,
)
    requires
        outcome.step is Mounted || outcome.step is Failed,
    ensures
        progress_from(terms, outcome, replies) == outcome,
    decreases replies.len(),
{
    if replies.len() > 0 {
        law_the_outcome_is_final(terms, outcome, replies.drop_last());
    }
}

// ---------------------------------------------------------------------------
// Laws of the course
// ---------------------------------------------------------------------------

/// One more reply takes a client one step on.
proof fn lemma_one_more_reply(terms: Terms, replies: Seq<Reply>, reply: Reply)
    ensures
        progress_after(terms, replies.push(reply)) == progress_after(terms, replies).after(
            terms,
            reply,
        ),
{
    assert(replies.push(reply).drop_last() =~= replies);
}

/// Whether a client has failed, with an error of these words.
pub open spec fn failed_saying(step: EnsureStep, words: Seq<char>) -> bool {
    step matches EnsureStep::Failed(error) && error.words() == words
}

/// Every round begins alike: the directory is created, the lock file is opened, and the exclusive
/// lock is tried for.
pub proof fn law_a_round_begins_with_the_lock_file(terms: Terms, replies: Seq<Reply>)
    ensures
        step_after(terms, Seq::empty()) is CreateEnvDir,
        step_after(terms, replies) is CreateEnvDir ==> {
            &&& step_after(terms, replies.push(Reply::Done)) is OpenLockFile
            &&& step_after(terms, replies.push(Reply::Done).push(Reply::Done)) is TryExclusive
        },
{
    lemma_one_more_reply(terms, replies, Reply::Done);
    lemma_one_more_reply(terms, replies.push(Reply::Done), Reply::Done);
}

/// A lock that others hold is shared, by whatever code the operating system says that it is held:
/// the client waits for a share, and if it then finds the sidecar alive the environment is mounted.
/// A refusal with any other code, or with none, ends the client with the reason of the refusal.
pub proof fn law_a_lock_that_others_hold_is_shared(
    terms: Terms,
    replies: Seq<Reply>,
    code: Option<i32>,
    text: String,
)
    requires
        step_after(terms, replies) is TryExclusive,
    ensures
        ({
            let refused = replies.push(Reply::Failed { code, text });
            if code == Some(terms.busy_code) {
                &&& step_after(terms, refused) is AcquireShared
                &&& step_after(terms, refused.push(Reply::Done)) is AskSharedSidecar
                &&& step_after(terms, refused.push(Reply::Done).push(Reply::Yes)) is Mounted
            } else {
                failed_saying(step_after(terms, refused), "failed to acquire lock: "@ + text@)
            }
        }),
{
    let refused = replies.push(Reply::Failed { code, text });
    lemma_one_more_reply(terms, replies, Reply::Failed { code, text });
    lemma_one_more_reply(terms, refused, Reply::Done);
    lemma_one_more_reply(terms, refused.push(Reply::Done), Reply::Yes);
}

/// A client that has obtained the lock for itself comes to its mount: it uses a sidecar that is
/// alive, and in the place of a dead one it starts another once what that one left behind is
/// cleaned up. Either way it goes on to a share, in one step on Unix and by letting go first on
/// Windows, whatever comes of letting go.
pub proof fn law_a_client_with_the_lock_comes_to_its_mount(
    terms: Terms,
    replies: Seq<Reply>,
    released: Reply,
)
    requires
        step_after(terms, replies) is TryExclusive,
        released is Done || released is Failed,
    ensures
        ({
            let granted = replies.push(Reply::Done);
            let alive = granted.push(Reply::Yes);
            let dead = granted.push(Reply::No);
            let cleaned = dead.push(Reply::Done);
            let started = cleaned.push(Reply::Done);
            &&& step_after(terms, granted) is AskGraceSidecar
            &&& step_after(terms, dead) is CleanBeforeStart
            &&& step_after(terms, cleaned) is StartSidecar
            &&& step_after(terms, alive) == step_after(terms, started)
            &&& match terms.family {
                Family::Unix => {
                    &&& step_after(terms, alive) is Downgrade
                    &&& step_after(terms, alive.push(Reply::Done)) is Mounted
                    &&& step_after(terms, started.push(Reply::Done)) is Mounted
                },
                Family::Windows => {
                    &&& step_after(terms, alive) is ReleaseExclusive
                    &&& step_after(terms, alive.push(released)) is AcquireSharedAgain
                    &&& step_after(terms, alive.push(released).push(Reply::Done)) is Mounted
                    &&& step_after(terms, started.push(released).push(Reply::Done)) is Mounted
                },
            }
        }),
{
    let granted = replies.push(Reply::Done);
    let alive = granted.push(Reply::Yes);
    let dead = granted.push(Reply::No);
    let cleaned = dead.push(Reply::Done);
    let started = cleaned.push(Reply::Done);
    lemma_one_more_reply(terms, replies, Reply::Done);
    lemma_one_more_reply(terms, granted, Reply::Yes);
    lemma_one_more_reply(terms, granted, Reply::No);
    lemma_one_more_reply(terms, dead, Reply::Done);
    lemma_one_more_reply(terms, cleaned, Reply::Done);
    lemma_one_more_reply(terms, alive, Reply::Done);
    lemma_one_more_reply(terms, started, Reply::Done);
    lemma_one_more_reply(terms, alive, released);
    lemma_one_more_reply(terms, started, released);
    lemma_one_more_reply(terms, alive.push(released), Reply::Done);
    lemma_one_more_reply(terms, started.push(released), Reply::Done);
}

/// A client that shares the lock of a dead sidecar lets go of it, whatever comes of that, cleans up
/// and starts over, as long as it has a retry left; each such round uses up one. A client without
/// one left fails instead.
pub proof fn law_a_stale_share_costs_a_retry(
    terms: Terms,
    replies: Seq<Reply>,
    released: Reply,
)
    requires
        step_after(terms, replies) is AskSharedSidecar,
        released is Done || released is Failed,
    ensures
        ({
            let stale = replies.push(Reply::No);
            let let_go = stale.push(released);
            let cleaned = let_go.push(Reply::Done);
            let used = progress_after(terms, replies).retries;
            &&& step_after(terms, stale) is ReleaseShared
            &&& step_after(terms, let_go) is CleanBeforeRetry
            &&& if used < terms.retry_limit {
                &&& step_after(terms, cleaned) is CreateEnvDir
                &&& progress_after(terms, cleaned).retries == used + 1
            } else {
                failed_saying(
                    step_after(terms, cleaned),
                    "mount sidecar is not running, but its lock is still held by other processes"@,
                )
            }
        }),
{
    let stale = replies.push(Reply::No);
    let let_go = stale.push(released);
    lemma_one_more_reply(terms, replies, Reply::No);
    lemma_one_more_reply(terms, stale, released);
    lemma_one_more_reply(terms, let_go, Reply::Done);
}

/// Retries are used up by nothing else, and the first round has used none.
pub proof fn law_only_a_stale_round_uses_a_retry(terms: Terms, replies: Seq<Reply>, reply: Reply)
    ensures
        progress_after(terms, Seq::empty()).retries == 0,
        !(step_after(terms, replies) is CleanBeforeRetry) || !(reply is Done) ==> progress_after(
            terms,
            replies.push(reply),
        ).retries == progress_after(terms, replies).retries,
{
    lemma_one_more_reply(terms, replies, reply);
}

/// A failure is reported with the reason that the operating system gave, behind what was tried for.
/// Letting go of a lock is the one thing whose failure changes nothing.
pub proof fn law_a_client_fails_with_the_reason(
    terms: Terms,
    replies: Seq<Reply>,
    code: Option<i32>,
    text: String,
)
    ensures
        ({
            let failed = step_after(terms, replies.push(Reply::Failed { code, text }));
            match step_after(terms, replies) {
                EnsureStep::CreateEnvDir => failed_saying(failed, text@),
                EnsureStep::OpenLockFile => failed_saying(failed, text@),
                EnsureStep::CleanBeforeStart => failed_saying(failed, text@),
                EnsureStep::CleanBeforeRetry => failed_saying(failed, text@),
                EnsureStep::StartSidecar => failed_saying(failed, text@),
                EnsureStep::Downgrade => failed_saying(
                    failed,
                    "failed to downgrade to shared lock: "@ + text@,
                ),
                EnsureStep::AcquireShared => failed_saying(
                    failed,
                    "failed to acquire shared lock: "@ + text@,
                ),
                EnsureStep::AcquireSharedAgain => failed_saying(
                    failed,
                    "failed to acquire shared lock: "@ + text@,
                ),
                EnsureStep::ReleaseExclusive => failed == step_after(
                    terms,
                    replies.push(Reply::Done),
                ),
                EnsureStep::ReleaseShared => failed == step_after(terms, replies.push(Reply::Done)),
                _ => true,
            }
        }),
{
    lemma_one_more_reply(terms, replies, Reply::Failed { code, text });
    lemma_one_more_reply(terms, replies, Reply::Done);
}

/// A client takes no notice of what does not answer it: neither of a yes or a no that it has not
/// asked for, nor of anything else where it has asked a question, nor of a text.
pub proof fn law_a_client_heeds_answers_alone(terms: Terms, replies: Seq<Reply>, reply: Reply)
    ensures
        ({
            let asks = step_after(terms, replies) is AskGraceSidecar || step_after(
                terms,
                replies,
            ) is AskSharedSidecar;
            reply is Text || (asks && !(reply is Yes || reply is No)) || (!asks && (reply is Yes
                || reply is No)) ==> progress_after(terms, replies.push(reply)) == progress_after(
                terms,
                replies,
            )
        }),
{
    lemma_one_more_reply(terms, replies, reply);
}

/// A client has a share to hand out exactly when its environment is mounted, and it is a share in
/// the lock file that the client has locked.
pub proof fn law_a_share_is_one_in_the_lock_file(client: EnsureView)
    ensures
        client.share() is Some <==> client.progress.step is Mounted,
        client.share() matches Some(lock_path) ==> lock_path == client.lock_path,
{
}

} // verus!
