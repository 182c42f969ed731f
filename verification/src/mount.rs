//! Mounting an environment on request.
//!
//! The request is turned into a plan: where to mount, what to mount, and how. A sidecar mounts what
//! its starter has locked and fetched; an interactive mount brings the lock file up to date first,
//! then stays in the foreground until it is interrupted.

use vstd::prelude::*;

use crate::coordination;
use crate::coordination::MountGuard;
use crate::managed::ManagedError;
use crate::path;
use crate::path::display_text;
use crate::pidfile::Family;
use crate::protocol::Reply;
use crate::text::{concat2, concat3};

verus! {

// ---------------------------------------------------------------------------
// The plan
// ---------------------------------------------------------------------------

/// The file system that the configuration asks for.
#[derive(Clone, Copy, Debug, PartialEq, Eq, Structural)]
pub enum MountBackend {
    Auto,
    Nfs,
    Fuse,
}

/// The file system that a mount is made with.
#[derive(Clone, Copy, Debug, PartialEq, Eq, Structural)]
pub enum Transport {
    Auto,
    Nfs,
    Fuse,
}

/// What was asked for.
#[derive(Debug, PartialEq, Eq)]
pub struct MountRequest {
    /// The name of the environment; empty for the default environment.
    pub environment_name: String,
    /// The directory of the environment.
    pub env_dir: Vec<u8>,
    /// Where to mount instead of at the directory of the environment.
    pub mount_point: Option<Vec<u8>>,
    /// Whether the mount is not to be written to.
    pub read_only: bool,
    /// The file system that is asked for.
    pub backend: MountBackend,
}

/// What is to be mounted, and where.
#[derive(Debug, PartialEq, Eq)]
pub struct MountPlan {
    /// The name under which the environment stands in the lock file.
    pub environment_name: String,
    /// Where to mount.
    pub mount_point: Vec<u8>,
    /// Where to keep what is written, if the mount can be written to.
    pub overlay_dir: Option<Vec<u8>>,
    /// The file system to mount with.
    pub transport: Transport,
}

/// The name under which lock files hold the default environment.
///
/// Trusted: `rattler_lock::DEFAULT_ENVIRONMENT_NAME` is the text `default`.
#[verifier::external_body]
fn default_environment_name() -> (name: &'static str)
    ensures
        name@ == "default"@,
{
    rattler_lock::DEFAULT_ENVIRONMENT_NAME
}

/// The name under which lock files hold the environment `name`.
pub open spec fn locked_name(name: Seq<char>) -> Seq<char> {
    if name.len() == 0 {
        "default"@
    } else {
        name
    }
}

/// The file system that `backend` asks for.
pub open spec fn transport_for(backend: MountBackend) -> Transport {
    match backend {
        MountBackend::Auto => Transport::Auto,
        MountBackend::Nfs => Transport::Nfs,
        MountBackend::Fuse => Transport::Fuse,
    }
}

/// Whether `mount_point` is the one that was asked for, or, where none was, the directory of the
/// environment.
pub open spec fn is_mount_point_for(
    mount_point: Seq<u8>,
    requested: Option<Vec<u8>>,
    env_dir: Seq<u8>,
) -> bool {
    match requested {
        Some(wanted) => mount_point == wanted@,
        None => mount_point == env_dir,
    }
}

/// Whether a plan does what a request asks for.
pub open spec fn carries_out(plan: MountPlan, request: MountRequest) -> bool {
    &&& plan.environment_name@ == locked_name(request.environment_name@)
    &&& is_mount_point_for(plan.mount_point@, request.mount_point, request.env_dir@)
    &&& match plan.overlay_dir {
        Some(overlay) => !request.read_only && overlay@ == coordination::overlay_of(
            request.env_dir@,
        ),
        None => request.read_only,
    }
    &&& plan.transport == transport_for(request.backend)
}

/// Picks the mount point: the one that was asked for, or else the directory of the environment.
pub fn select_mount_point(requested: Option<Vec<u8>>, env_dir: Vec<u8>) -> (mount_point: Vec<u8>)
    ensures
        mount_point == (match requested {
            Some(mount_point) => mount_point,
            None => env_dir,
        }),
        is_mount_point_for(mount_point@, requested, env_dir@),
{
    match requested {
        Some(mount_point) => mount_point,
        None => env_dir,
    }
}

/// Turns a request into a plan.
///
/// The overlay stands beside the directory of the environment, also where the mount point is
/// another one; that directory needs a file name, unless the mount is read-only.
pub fn plan_mount(request: MountRequest) -> (plan: MountPlan)
    requires
        !request.read_only ==> path::file_name(request.env_dir@) is Some,
    ensures
        plan.environment_name@ == locked_name(request.environment_name@),
        plan.mount_point == (match request.mount_point {
            Some(mount_point) => mount_point,
            None => request.env_dir,
        }),
        request.read_only ==> plan.overlay_dir is None,
        !request.read_only ==> (plan.overlay_dir matches Some(overlay) && overlay@
            == coordination::sibling(request.env_dir@, coordination::OVERLAY_DIRNAME@)),
        plan.transport == transport_for(request.backend),
        carries_out(plan, request),
{
    let environment_name = if request.environment_name.as_str().is_empty() {
        String::from_str(default_environment_name())
    } else {
        request.environment_name
    };
    let overlay_dir = if request.read_only {
        None
    } else {
        Some(MountGuard::overlay_dir(request.env_dir.as_slice()))
    };
    let transport = match request.backend {
        MountBackend::Auto => Transport::Auto,
        MountBackend::Nfs => Transport::Nfs,
        MountBackend::Fuse => Transport::Fuse,
    };
    let mount_point = select_mount_point(request.mount_point, request.env_dir);
    MountPlan { environment_name, mount_point, overlay_dir, transport }
}

/// How a file system is mounted.
#[derive(Debug, PartialEq, Eq)]
pub enum MountConfig {
    /// What is written goes to the overlay directory.
    Writable {
        mount_point: Vec<u8>,
        overlay_dir: Vec<u8>,
        transport: Transport,
        env_hash: String,
    },
    /// Nothing can be written.
    ReadOnly { mount_point: Vec<u8>, transport: Transport, env_hash: String },
}

/// Whether a configuration is a plan with the hash `env_hash`.
pub open spec fn completes(config: MountConfig, plan: MountPlan, env_hash: Seq<char>) -> bool {
    match config {
        MountConfig::Writable { mount_point, overlay_dir, transport, env_hash: hash } => {
            &&& mount_point@ == plan.mount_point@
            &&& plan.overlay_dir matches Some(overlay) && overlay@ == overlay_dir@
            &&& transport == plan.transport
            &&& hash@ == env_hash
        },
        MountConfig::ReadOnly { mount_point, transport, env_hash: hash } => {
            &&& mount_point@ == plan.mount_point@
            &&& plan.overlay_dir is None
            &&& transport == plan.transport
            &&& hash@ == env_hash
        },
    }
}

/// Completes a plan with the hash of the environment.
pub fn mount_config(plan: MountPlan, env_hash: String) -> (config: MountConfig)
    ensures
        config == (match plan.overlay_dir {
            Some(overlay_dir) => MountConfig::Writable {
                mount_point: plan.mount_point,
                overlay_dir,
                transport: plan.transport,
                env_hash,
            },
            None => MountConfig::ReadOnly {
                mount_point: plan.mount_point,
                transport: plan.transport,
                env_hash,
            },
        }),
        completes(config, plan, env_hash@),
{
    let mount_point = plan.mount_point;
    let transport = plan.transport;
    match plan.overlay_dir {
        Some(overlay_dir) => MountConfig::Writable {
            mount_point,
            overlay_dir,
            transport,
            env_hash,
        },
        None => MountConfig::ReadOnly { mount_point, transport, env_hash },
    }
}

// ---------------------------------------------------------------------------
// The command
// ---------------------------------------------------------------------------

/// Why an environment was not mounted. Each holds the description of what went wrong.
#[derive(Debug, PartialEq, Eq)]
pub enum MountError {
    /// There is no workspace to be found.
    Workspace(String),
    /// The workspace has no such environment.
    Environment(String),
    /// The lock file could not be read.
    LockFile(String),
    /// The cache of packages could not be found.
    Cache(String),
    /// The lock file could not be brought up to date.
    Update(String),
    /// The hash of the environment could not be computed.
    Hash(String),
    /// Mounting, or what followed it, failed.
    Run(String),
}

impl MountError {
    /// The words of the error.
    pub open spec fn words(self) -> Seq<char> {
        match self {
            MountError::Workspace(text) => text@,
            MountError::Environment(text) => text@,
            MountError::LockFile(text) => text@,
            MountError::Cache(text) => text@,
            MountError::Update(text) => text@,
            MountError::Hash(text) => "failed to compute env hash: "@ + text@,
            MountError::Run(text) => text@,
        }
    }

    /// Words the error for a user.
    pub fn message(&self) -> (message: String)
        ensures
            message@ == self.words(),
    {
        match self {
            MountError::Workspace(text) => text.clone(),
            MountError::Environment(text) => text.clone(),
            MountError::LockFile(text) => text.clone(),
            MountError::Cache(text) => text.clone(),
            MountError::Update(text) => text.clone(),
            MountError::Hash(text) => concat2("failed to compute env hash: ", text.as_str()),
            MountError::Run(text) => text.clone(),
        }
    }
}

/// What the mount command has to do next.
#[derive(Debug, PartialEq, Eq)]
pub enum MountStep {
    /// Find the workspace.
    LocateWorkspace,
    /// Find the environment, and plan the mount.
    SelectEnvironment,
    /// Read the lock file as it is.
    LoadLockFile,
    /// Find the cache of packages.
    LocateCache,
    /// Bring the lock file and the cache up to date, without installing anything.
    UpdateLockFile,
    /// Compute the hash of the environment.
    HashEnvironment,
    /// Live the life of a sidecar.
    RunManaged,
    /// Mount in the foreground.
    RunInteractive,
    /// Nothing: it is over.
    Finished,
    /// Nothing: it failed.
    Failed(MountError),
}

/// Sets out to mount an environment.
pub fn execute() -> (step: MountStep)
    ensures
        step == MountStep::LocateWorkspace,
{
    MountStep::LocateWorkspace
}

impl MountStep {
    /// What is to be done after `reply`. A reply that does not answer what was asked for changes
    /// nothing.
    pub open spec fn after(self, managed: bool, reply: Reply) -> MountStep {
        match (self, reply) {
            (MountStep::LocateWorkspace, Reply::Done) => MountStep::SelectEnvironment,
            (MountStep::LocateWorkspace, Reply::Failed { code, text }) => MountStep::Failed(
                MountError::Workspace(text),
            ),
            (MountStep::SelectEnvironment, Reply::Done) => if managed {
                MountStep::LoadLockFile
            } else {
                MountStep::UpdateLockFile
            },
            (MountStep::SelectEnvironment, Reply::Failed { code, text }) => MountStep::Failed(
                MountError::Environment(text),
            ),
            (MountStep::LoadLockFile, Reply::Done) => MountStep::LocateCache,
            (MountStep::LoadLockFile, Reply::Failed { code, text }) => MountStep::Failed(
                MountError::LockFile(text),
            ),
            (MountStep::LocateCache, Reply::Done) => MountStep::HashEnvironment,
            (MountStep::LocateCache, Reply::Failed { code, text }) => MountStep::Failed(
                MountError::Cache(text),
            ),
            (MountStep::UpdateLockFile, Reply::Done) => MountStep::HashEnvironment,
            (MountStep::UpdateLockFile, Reply::Failed { code, text }) => MountStep::Failed(
                MountError::Update(text),
            ),
            (MountStep::HashEnvironment, Reply::Done) => if managed {
                MountStep::RunManaged
            } else {
                MountStep::RunInteractive
            },
            (MountStep::HashEnvironment, Reply::Failed { code, text }) => MountStep::Failed(
                MountError::Hash(text),
            ),
            (MountStep::RunManaged, Reply::Done) => MountStep::Finished,
            (MountStep::RunManaged, Reply::Failed { code, text }) => MountStep::Failed(
                MountError::Run(text),
            ),
            (MountStep::RunInteractive, Reply::Done) => MountStep::Finished,
            (MountStep::RunInteractive, Reply::Failed { code, text }) => MountStep::Failed(
                MountError::Run(text),
            ),
            (step, _) => step,
        }
    }

    /// Takes note of what came of the step that was asked for. `managed` says whether this process
    /// is a sidecar.
    pub fn next(self, managed: bool, reply: Reply) -> (step: MountStep)
        ensures
            step == self.after(managed, reply),
    {
        match (self, reply) {
            (MountStep::LocateWorkspace, Reply::Done) => MountStep::SelectEnvironment,
            (MountStep::LocateWorkspace, Reply::Failed { text, .. }) => MountStep::Failed(
                MountError::Workspace(text),
            ),
            (MountStep::SelectEnvironment, Reply::Done) => if managed {
                MountStep::LoadLockFile
            } else {
                MountStep::UpdateLockFile
            },
            (MountStep::SelectEnvironment, Reply::Failed { text, .. }) => MountStep::Failed(
                MountError::Environment(text),
            ),
            (MountStep::LoadLockFile, Reply::Done) => MountStep::LocateCache,
            (MountStep::LoadLockFile, Reply::Failed { text, .. }) => MountStep::Failed(
                MountError::LockFile(text),
            ),
            (MountStep::LocateCache, Reply::Done) => MountStep::HashEnvironment,
            (MountStep::LocateCache, Reply::Failed { text, .. }) => MountStep::Failed(
                MountError::Cache(text),
            ),
            (MountStep::UpdateLockFile, Reply::Done) => MountStep::HashEnvironment,
            (MountStep::UpdateLockFile, Reply::Failed { text, .. }) => MountStep::Failed(
                MountError::Update(text),
            ),
            (MountStep::HashEnvironment, Reply::Done) => if managed {
                MountStep::RunManaged
            } else {
                MountStep::RunInteractive
            },
            (MountStep::HashEnvironment, Reply::Failed { text, .. }) => MountStep::Failed(
                MountError::Hash(text),
            ),
            (MountStep::RunManaged, Reply::Done) => MountStep::Finished,
            (MountStep::RunManaged, Reply::Failed { text, .. }) => MountStep::Failed(
                MountError::Run(text),
            ),
            (MountStep::RunInteractive, Reply::Done) => MountStep::Finished,
            (MountStep::RunInteractive, Reply::Failed { text, .. }) => MountStep::Failed(
                MountError::Run(text),
            ),
            (step, _) => step,
        }
    }
}

// ---------------------------------------------------------------------------
// The interactive mount
// ---------------------------------------------------------------------------

/// What an interactive mount has to do next.
#[derive(Debug, PartialEq, Eq)]
pub enum InteractiveStep {
    /// Create the mount point and the directories above it.
    CreateMountDir,
    /// Mount the environment.
    MountEnvironment,
    /// Tell the user where it is mounted.
    Announce,
    /// Begin to listen for the signal to terminate.
    WatchTermination,
    /// Wait for a signal to end.
    AwaitSignal,
    /// Unmount and end.
    Finished,
    /// End with an error, and unmount what has been mounted.
    Failed(ManagedError),
}

/// Sets out to mount in the foreground.
pub fn execute_interactive() -> (step: InteractiveStep)
    ensures
        step == InteractiveStep::CreateMountDir,
{
    InteractiveStep::CreateMountDir
}

impl InteractiveStep {
    /// What is to be done after `reply`. A reply that does not answer what was asked for changes
    /// nothing.
    pub open spec fn after(self, family: Family, reply: Reply) -> InteractiveStep {
        match (self, reply) {
            (InteractiveStep::CreateMountDir, Reply::Done) => InteractiveStep::MountEnvironment,
            (InteractiveStep::CreateMountDir, Reply::Failed { code, text }) =>
                InteractiveStep::Failed(ManagedError::CreateDir(text)),
            (InteractiveStep::MountEnvironment, Reply::Done) => InteractiveStep::Announce,
            (InteractiveStep::MountEnvironment, Reply::Failed { code, text }) =>
                InteractiveStep::Failed(ManagedError::Mount(text)),
            (InteractiveStep::Announce, Reply::Done) => match family {
                Family::Unix => InteractiveStep::WatchTermination,
                Family::Windows => InteractiveStep::AwaitSignal,
            },
            (InteractiveStep::WatchTermination, Reply::Done) => InteractiveStep::AwaitSignal,
            (InteractiveStep::WatchTermination, Reply::Failed { code, text }) =>
                InteractiveStep::Failed(ManagedError::Signal(text)),
            (InteractiveStep::AwaitSignal, Reply::Done) => InteractiveStep::Finished,
            (InteractiveStep::AwaitSignal, Reply::Failed { code, text }) =>
                InteractiveStep::Failed(ManagedError::Signal(text)),
            (step, _) => step,
        }
    }

    /// Takes note of what came of the step that was asked for.
    pub fn next(self, family: Family, reply: Reply) -> (step: InteractiveStep)
        ensures
            step == self.after(family, reply),
    {
        match (self, reply) {
            (InteractiveStep::CreateMountDir, Reply::Done) => InteractiveStep::MountEnvironment,
            (InteractiveStep::CreateMountDir, Reply::Failed { text, .. }) =>
                InteractiveStep::Failed(ManagedError::CreateDir(text)),
            (InteractiveStep::MountEnvironment, Reply::Done) => InteractiveStep::Announce,
            (InteractiveStep::MountEnvironment, Reply::Failed { text, .. }) =>
                InteractiveStep::Failed(ManagedError::Mount(text)),
            (InteractiveStep::Announce, Reply::Done) => match family {
                Family::Unix => InteractiveStep::WatchTermination,
                Family::Windows => InteractiveStep::AwaitSignal,
            },
            (InteractiveStep::WatchTermination, Reply::Done) => InteractiveStep::AwaitSignal,
            (InteractiveStep::WatchTermination, Reply::Failed { text, .. }) =>
                InteractiveStep::Failed(ManagedError::Signal(text)),
            (InteractiveStep::AwaitSignal, Reply::Done) => InteractiveStep::Finished,
            (InteractiveStep::AwaitSignal, Reply::Failed { text, .. }) => InteractiveStep::Failed(
                ManagedError::Signal(text),
            ),
            (step, _) => step,
        }
    }
}

/// The announcement of an interactive mount.
pub open spec fn mounted_words(mount_point: Seq<u8>) -> Seq<char> {
    "Mounted at "@ + path::displayed(mount_point) + ". Press Ctrl+C to unmount."@
}

/// Words the announcement of an interactive mount.
pub fn mounted_message(mount_point: &[u8]) -> (message: String)
    ensures
        message@ == "Mounted at "@ + path::displayed(mount_point@)
            + ". Press Ctrl+C to unmount."@,
        message@ == mounted_words(mount_point@),
{
    concat3("Mounted at ", display_text(mount_point).as_str(), ". Press Ctrl+C to unmount.")
}

// ---------------------------------------------------------------------------
// Laws
// ---------------------------------------------------------------------------

/// What the mount command has to do after the replies `replies`, from the start.
pub open spec fn mount_after(managed: bool, replies: Seq<Reply>) -> MountStep
    decreases replies.len(),
{
    if replies.len() == 0 {
        MountStep::LocateWorkspace
    } else {
        mount_after(managed, replies.drop_last()).after(managed, replies.last())
    }
}

/// Whether, in the replies `replies`, the step `step` of the mount command was done.
pub open spec fn was_done(managed: bool, replies: Seq<Reply>, step: MountStep) -> bool
    decreases replies.len(),
{
    replies.len() > 0 && (was_done(managed, replies.drop_last(), step) || (mount_after(
        managed,
        replies.drop_last(),
    ) == step && replies.last() is Done))
}

/// A sidecar mounts what is locked: it never brings the lock file up to date, and it never mounts
/// in the foreground. An interactive mount never lives the life of a sidecar, and it does not
/// mount before the lock file is up to date.
pub proof fn law_a_sidecar_mounts_what_is_locked(managed: bool, replies: Seq<Reply>)
    ensures
        match mount_after(managed, replies) {
            MountStep::LoadLockFile => managed,
            MountStep::LocateCache => managed && was_done(
                managed,
                replies,
                MountStep::LoadLockFile,
            ),
            MountStep::UpdateLockFile => !managed,
            MountStep::HashEnvironment => if managed {
                was_done(managed, replies, MountStep::LoadLockFile)
            } else {
                was_done(managed, replies, MountStep::UpdateLockFile)
            },
            MountStep::RunManaged => managed && was_done(managed, replies, MountStep::LoadLockFile)
                && was_done(managed, replies, MountStep::HashEnvironment),
            MountStep::RunInteractive => !managed && was_done(
                managed,
                replies,
                MountStep::UpdateLockFile,
            ) && was_done(managed, replies, MountStep::HashEnvironment),
            _ => true,
        },
    decreases replies.len(),
{
    if replies.len() > 0 {
        law_a_sidecar_mounts_what_is_locked(managed, replies.drop_last());
    }
}

/// What an interactive mount has to do after the replies `replies`, from the start.
pub open spec fn interactive_after(family: Family, replies: Seq<Reply>) -> InteractiveStep
    decreases replies.len(),
{
    if replies.len() == 0 {
        InteractiveStep::CreateMountDir
    } else {
        interactive_after(family, replies.drop_last()).after(family, replies.last())
    }
}

/// Whether, in the replies `replies`, the environment was mounted in the foreground.
pub open spec fn mounted_in_foreground(family: Family, replies: Seq<Reply>) -> bool
    decreases replies.len(),
{
    replies.len() > 0 && (mounted_in_foreground(family, replies.drop_last()) || (interactive_after(
        family,
        replies.drop_last(),
    ) is MountEnvironment && replies.last() is Done))
}

/// Whether, in the replies `replies`, the signal to end an interactive mount came.
pub open spec fn signal_came(family: Family, replies: Seq<Reply>) -> bool
    decreases replies.len(),
{
    replies.len() > 0 && (signal_came(family, replies.drop_last()) || (interactive_after(
        family,
        replies.drop_last(),
    ) is AwaitSignal && replies.last() is Done))
}

/// An interactive mount lasts until it is told to end: it ends without an error exactly when the
/// signal that it waits for has come, and not before it was mounted.
pub proof fn law_an_interactive_mount_lasts_until_its_signal(family: Family, replies: Seq<Reply>)
    ensures
        interactive_after(family, replies) is Finished <==> signal_came(family, replies),
        interactive_after(family, replies) is Finished ==> mounted_in_foreground(family, replies),
    decreases replies.len(),
{
    law_an_announced_mount_is_mounted(family, replies);
    if replies.len() > 0 {
        law_an_interactive_mount_lasts_until_its_signal(family, replies.drop_last());
    }
}

/// An interactive mount is announced, and its end is waited for, only when the environment is
/// mounted.
pub proof fn law_an_announced_mount_is_mounted(family: Family, replies: Seq<Reply>)
    ensures
        match interactive_after(family, replies) {
            InteractiveStep::CreateMountDir => true,
            InteractiveStep::MountEnvironment => true,
            InteractiveStep::Failed(_) => true,
            _ => mounted_in_foreground(family, replies),
        },
    decreases replies.len(),
{
    if replies.len() > 0 {
        law_an_announced_mount_is_mounted(family, replies.drop_last());
    }
}

// ---------------------------------------------------------------------------
// Laws of the plan
// ---------------------------------------------------------------------------

/// A plan does what its request asks for, each part for itself: an environment keeps its name, and
/// one without a name is the default one; the mount point is the one that was asked for, or the
/// directory of the environment; the file system is the one that was asked for; and there is an
/// overlay exactly if the mount can be written to, beside the directory of the environment wherever
/// the mount point is.
pub proof fn law_a_plan_carries_out_its_request(plan: MountPlan, request: MountRequest)
    requires
        carries_out(plan, request),
    ensures
        request.environment_name@.len() > 0 ==> plan.environment_name@ == request.environment_name@,
        request.environment_name@.len() == 0 ==> plan.environment_name@ == "default"@,
        request.mount_point matches Some(wanted) ==> plan.mount_point@ == wanted@,
        request.mount_point is None ==> plan.mount_point@ == request.env_dir@,
        request.backend is Auto <==> plan.transport is Auto,
        request.backend is Nfs <==> plan.transport is Nfs,
        request.backend is Fuse <==> plan.transport is Fuse,
        request.read_only <==> plan.overlay_dir is None,
        plan.overlay_dir matches Some(overlay) ==> overlay@ == coordination::sibling(
            request.env_dir@,
            ".rattler-fs-overlay"@,
        ),
{
}

/// A part of a request that is changed changes that part of the plan alone.
pub proof fn law_the_parts_of_a_plan_are_independent(
    a: MountPlan,
    b: MountPlan,
    request: MountRequest,
    other: MountRequest,
)
    requires
        carries_out(a, request),
        carries_out(b, other),
    ensures
        request.environment_name@ == other.environment_name@ ==> a.environment_name@
            == b.environment_name@,
        request.backend == other.backend ==> a.transport == b.transport,
        request.env_dir@ == other.env_dir@ && request.mount_point == other.mount_point
            ==> a.mount_point@ == b.mount_point@,
        request.env_dir@ == other.env_dir@ && !request.read_only && !other.read_only
            ==> a.overlay_dir->0@ == b.overlay_dir->0@,
{
}

/// The mount point is the one that was asked for, whatever it is, and otherwise the directory of
/// the environment.
pub proof fn law_a_requested_mount_point_is_used(
    mount_point: Seq<u8>,
    requested: Option<Vec<u8>>,
    env_dir: Seq<u8>,
)
    requires
        is_mount_point_for(mount_point, requested, env_dir),
    ensures
        requested matches Some(wanted) ==> mount_point == wanted@,
        requested is None ==> mount_point == env_dir,
{
}

/// What a plan says is handed on as it is, with the hash, and the mount can be written to exactly
/// if the plan has an overlay.
pub proof fn law_a_configuration_hands_the_plan_on(
    config: MountConfig,
    plan: MountPlan,
    env_hash: Seq<char>,
)
    requires
        completes(config, plan, env_hash),
    ensures
        config is Writable <==> plan.overlay_dir is Some,
        config matches MountConfig::Writable { mount_point, overlay_dir, transport, env_hash: hash }
            ==> {
            &&& mount_point@ == plan.mount_point@
            &&& overlay_dir@ == plan.overlay_dir->0@
            &&& transport == plan.transport
            &&& hash@ == env_hash
        },
        config matches MountConfig::ReadOnly { mount_point, transport, env_hash: hash } ==> {
            &&& mount_point@ == plan.mount_point@
            &&& transport == plan.transport
            &&& hash@ == env_hash
        },
{
}

/// The announcement of a mount names the mount point, as it is shown, between its fixed words.
pub proof fn law_an_announcement_names_the_mount_point(mount_point: Seq<u8>)
    ensures
        ({
            let words = mounted_words(mount_point);
            let shown = path::displayed(mount_point);
            &&& words.take(11) == "Mounted at "@
            &&& words.subrange(11, 11int + shown.len()) == shown
            &&& words.skip(11int + shown.len()) == ". Press Ctrl+C to unmount."@
        }),
{
    reveal_strlit("Mounted at ");
    let words = mounted_words(mount_point);
    let shown = path::displayed(mount_point);
    assert(words.take(11) =~= "Mounted at "@);
    assert(words.subrange(11, 11int + shown.len()) =~= shown);
    assert(words.skip(11int + shown.len()) =~= ". Press Ctrl+C to unmount."@);
}

// ---------------------------------------------------------------------------
// Laws of the course
// ---------------------------------------------------------------------------

/// One more reply takes the command one step on.
proof fn lemma_one_more_reply(managed: bool, replies: Seq<Reply>, reply: Reply)
    ensures
        mount_after(managed, replies.push(reply)) == mount_after(managed, replies).after(
            managed,
            reply,
        ),
{
    assert(replies.push(reply).drop_last() =~= replies);
}

/// Whether the command has failed, with an error of these words.
pub open spec fn failed_saying(step: MountStep, words: Seq<char>) -> bool {
    step matches MountStep::Failed(error) && error.words() == words
}

/// What the command goes through if all goes well, in this order.
pub open spec fn stages(managed: bool) -> Seq<MountStep> {
    if managed {
        seq![
            MountStep::LocateWorkspace,
            MountStep::SelectEnvironment,
            MountStep::LoadLockFile,
            MountStep::LocateCache,
            MountStep::HashEnvironment,
            MountStep::RunManaged,
            MountStep::Finished,
        ]
    } else {
        seq![
            MountStep::LocateWorkspace,
            MountStep::SelectEnvironment,
            MountStep::UpdateLockFile,
            MountStep::HashEnvironment,
            MountStep::RunInteractive,
            MountStep::Finished,
        ]
    }
}

/// The command goes through its stages one by one, from wherever it is: what is done leads to the
/// next stage, and what fails ends it with its reason. What does not answer changes nothing, and
/// its end is final.
pub proof fn law_the_command_goes_through_its_stages(
    managed: bool,
    replies: Seq<Reply>,
    reply: Reply,
)
    ensures
        mount_after(managed, Seq::empty()) == stages(managed)[0],
        mount_after(managed, replies) is Failed || exists|i: int|
            0 <= i < stages(managed).len() && mount_after(managed, replies) == #[trigger] stages(
                managed,
            )[i],
        forall|i: int|
            0 <= i < stages(managed).len() - 1 && mount_after(managed, replies)
                == #[trigger] stages(managed)[i] ==> match reply {
                Reply::Done => mount_after(managed, replies.push(reply)) == stages(managed)[i + 1],
                Reply::Failed { code, text } => failed_saying(
                    mount_after(managed, replies.push(reply)),
                    if stages(managed)[i] is HashEnvironment {
                        "failed to compute env hash: "@ + text@
                    } else {
                        text@
                    },
                ),
                _ => mount_after(managed, replies.push(reply)) == mount_after(managed, replies),
            },
        mount_after(managed, replies) is Finished || mount_after(managed, replies) is Failed
            ==> mount_after(managed, replies.push(reply)) == mount_after(managed, replies),
    decreases replies.len(),
{
    lemma_one_more_reply(managed, replies, reply);
    if replies.len() > 0 {
        let before = replies.drop_last();
        law_the_command_goes_through_its_stages(managed, before, replies.last());
        assert(before.push(replies.last()) =~= replies);
        if !(mount_after(managed, before) is Failed) {
            let i = choose|i: int|
                0 <= i < stages(managed).len() && mount_after(managed, before) == #[trigger] stages(
                    managed,
                )[i];
            if i < stages(managed).len() - 1 && replies.last() is Done {
                assert(mount_after(managed, replies) == stages(managed)[i + 1]);
            } else {
                assert(mount_after(managed, replies) is Failed || mount_after(managed, replies)
                    == stages(managed)[i]);
            }
        }
    } else {
        assert(mount_after(managed, replies) == stages(managed)[0]);
    }
}

/// What an interactive mount goes through if all goes well, in this order.
pub open spec fn interactive_stages(family: Family) -> Seq<InteractiveStep> {
    seq![
        InteractiveStep::CreateMountDir,
        InteractiveStep::MountEnvironment,
        InteractiveStep::Announce,
    ] + (if family is Unix {
        seq![InteractiveStep::WatchTermination]
    } else {
        seq![]
    }) + seq![InteractiveStep::AwaitSignal, InteractiveStep::Finished]
}

/// An interactive mount goes through its stages one by one: what is done leads to the next stage,
/// and what fails ends it with its reason; announcing it does not fail. What does not answer
/// changes nothing, and its end is final.
pub proof fn law_an_interactive_mount_goes_through_its_stages(
    family: Family,
    replies: Seq<Reply>,
    reply: Reply,
)
    ensures
        interactive_after(family, Seq::empty()) == interactive_stages(family)[0],
        forall|i: int|
            0 <= i < interactive_stages(family).len() - 1 && interactive_after(family, replies)
                == #[trigger] interactive_stages(family)[i] ==> match reply {
                Reply::Done => interactive_after(family, replies.push(reply))
                    == interactive_stages(family)[i + 1],
                Reply::Failed { code, text } => if interactive_stages(family)[i] is Announce {
                    interactive_after(family, replies.push(reply)) is Announce
                } else {
                    interactive_after(family, replies.push(reply)) matches InteractiveStep::Failed(
                        error,
                    ) && error.words() == if interactive_stages(family)[i] is MountEnvironment {
                        "failed to mount: "@ + text@
                    } else {
                        text@
                    }
                },
                _ => interactive_after(family, replies.push(reply)) == interactive_after(
                    family,
                    replies,
                ),
            },
        interactive_after(family, replies) is Finished || interactive_after(
            family,
            replies,
        ) is Failed ==> interactive_after(family, replies.push(reply)) == interactive_after(
            family,
            replies,
        ),
{
    assert(replies.push(reply).drop_last() =~= replies);
}

} // verus!
