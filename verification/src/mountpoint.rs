//! Whether something is mounted, and getting rid of a mount that was left behind.

use vstd::prelude::*;

use crate::coordination;
use crate::coordination::coordination_paths;
use crate::path;
use crate::path::{base_name, display_text, parent_dir};
use crate::pidfile;
use crate::pidfile::{is_sidecar_alive, sidecar_pid, Family, ProcessProbe};
use crate::protocol::Reply;
use crate::text;

verus! {

/// What has to be looked at to tell whether a path is a mount point.
#[derive(Debug, PartialEq, Eq)]
pub enum EvidencePlan {
    /// The device of the path and that of the directory `parent`, if the path has one.
    Devices { parent: Option<Vec<u8>> },
    /// The pid file at `pid_path` and the process that it records, where mounts have no device of
    /// their own.
    Sidecar { pid_path: Vec<u8> },
}

/// The directory that `path` is compared with: its parent, if that is not empty. A relative path
/// of one component has an empty parent: the directory that holds a name is `.`, the one that
/// holds `.` is `..`, and the one that holds `..` is `../..`.
pub open spec fn directory_of(path: Seq<u8>) -> Option<Seq<u8>> {
    match path::parent(path) {
        Some(parent) => Some(
            if parent.len() > 0 {
                parent
            } else if path::file_name(path) is Some {
                seq![path::DOT]
            } else if path::components(path).len() == 0 {
                seq![path::DOT, path::DOT]
            } else {
                seq![path::DOT, path::DOT, path::SEPARATOR, path::DOT, path::DOT]
            },
        ),
        None => None,
    }
}

/// Whether a plan looks at what tells whether `path` is a mount point.
pub open spec fn looks_at(plan: EvidencePlan, family: Family, path: Seq<u8>) -> bool {
    match plan {
        EvidencePlan::Devices { parent } => family is Unix && match parent {
            Some(directory) => directory_of(path) == Some(directory@),
            None => directory_of(path) is None,
        },
        EvidencePlan::Sidecar { pid_path } => family is Windows && pid_path@
            == coordination::sibling(path, coordination::PID_FILENAME@),
    }
}

/// The directory that holds a relative path of one component.
fn directory_of_one(path: &[u8]) -> (directory: Vec<u8>)
    requires
        path::parent(path@) == Some(Seq::<u8>::empty()),
    ensures
        directory_of(path@) == Some(directory@),
{
    let mut directory: Vec<u8> = Vec::new();
    directory.push(path::DOT);
    if base_name(path).is_some() {
        assert(directory@ =~= seq![path::DOT]);
        return directory;
    }
    directory.push(path::DOT);
    let current = path.len() > 0 && path[0] == path::DOT && (path.len() == 1 || path[1]
        == path::SEPARATOR);
    proof {
        path::lemma_a_lone_component(path@);
    }
    if current {
        assert(directory@ =~= seq![path::DOT, path::DOT]);
        return directory;
    }
    directory.push(path::SEPARATOR);
    directory.push(path::DOT);
    directory.push(path::DOT);
    assert(directory@ =~= seq![
        path::DOT,
        path::DOT,
        path::SEPARATOR,
        path::DOT,
        path::DOT,
    ]);
    directory
}

/// Plans what to look at to tell whether `path` is a mount point.
pub fn evidence_plan(family: Family, path: &[u8]) -> (plan: EvidencePlan)
    requires
        family is Windows ==> path::file_name(path@) is Some,
    ensures
        match family {
            Family::Unix => plan matches EvidencePlan::Devices { parent } && match parent {
                Some(directory) => directory_of(path@) == Some(directory@),
                None => directory_of(path@) is None,
            },
            Family::Windows => plan matches EvidencePlan::Sidecar { pid_path } && pid_path@
                == coordination::sibling(path@, coordination::PID_FILENAME@),
        },
        looks_at(plan, family, path@),
{
    match family {
        Family::Unix => match parent_dir(path) {
            Some(parent) => if parent.len() > 0 {
                EvidencePlan::Devices { parent: Some(parent) }
            } else {
                assert(parent@ =~= Seq::<u8>::empty());
                EvidencePlan::Devices { parent: Some(directory_of_one(path)) }
            },
            None => EvidencePlan::Devices { parent: None },
        },
        Family::Windows => {
            let (_, pid_path) = coordination_paths(path);
            EvidencePlan::Sidecar { pid_path }
        },
    }
}

/// What there is to tell a mount point by.
#[derive(Debug, PartialEq, Eq)]
pub enum MountEvidence {
    /// The devices that the path and the directory that holds it are on, as far as they could be
    /// found out.
    Devices { own: Option<u64>, parent: Option<u64> },
    /// The contents of the pid file of the path, if it could be read, and the answer of the
    /// operating system about the process that it records.
    Sidecar { pid_file: Option<String>, probe: ProcessProbe },
}

/// Whether `path` is a mount point: it is on another device than its parent, or, where mounts have
/// no device of their own, its sidecar is alive.
pub open spec fn mounted(path: Seq<u8>, evidence: MountEvidence) -> bool {
    match evidence {
        MountEvidence::Devices { own: Some(own), parent: Some(parent) } => path::parent(
            path,
        ) is Some && own != parent,
        MountEvidence::Devices { own, parent } => false,
        MountEvidence::Sidecar { pid_file, probe } => pidfile::sidecar_alive(
            Family::Windows,
            match pid_file {
                Some(text) => Some(text@),
                None => None,
            },
            probe,
        ),
    }
}

/// Decides whether `path` is a mount point, by what [`evidence_plan`] asks for.
pub fn is_mountpoint(path: &[u8], evidence: MountEvidence) -> (found: bool)
    ensures
        found == mounted(path@, evidence),
{
    match evidence {
        MountEvidence::Devices { own, parent } => match own {
            None => false,
            Some(own) => match parent_dir(path) {
                None => false,
                Some(_) => match parent {
                    None => false,
                    Some(parent) => own != parent,
                },
            },
        },
        MountEvidence::Sidecar { pid_file, probe } => match pid_file {
            Some(text) => is_sidecar_alive(Family::Windows, Some(text.as_str()), probe),
            None => is_sidecar_alive(Family::Windows, None, probe),
        },
    }
}

/// Decides whether a mount is active for the environment at `env_dir`.
pub fn is_mounted(env_dir: &[u8], evidence: MountEvidence) -> (found: bool)
    ensures
        found == mounted(env_dir@, evidence),
{
    is_mountpoint(env_dir, evidence)
}

/// The operating systems that unmount in different ways.
#[derive(Clone, Copy, Debug, PartialEq, Eq, Structural)]
pub enum Os {
    MacOs,
    Linux,
    Windows,
    Other,
}

/// How a mount is got rid of. Whether it works out is not looked at.
#[derive(Debug, PartialEq, Eq)]
pub enum UnmountPlan {
    /// Run `program` with `args`.
    Run { program: String, args: Vec<String> },
    /// Terminate the process `pid`, if there is one, with the exit code `exit_code`, and remove
    /// the pid file.
    Terminate { pid: Option<i64>, exit_code: u32, pid_path: Vec<u8> },
    /// Do nothing.
    Nothing,
}

/// Whether a plan runs `program` with `args`.
pub open spec fn runs(plan: UnmountPlan, program: Seq<char>, args: Seq<Seq<char>>) -> bool {
    &&& plan matches UnmountPlan::Run { program: p, args: a }
    &&& p@ == program
    &&& text::texts(a@) == args
}

/// Whether a plan terminates the process that the pid file records, if it records one, with
/// `exit_code`, and removes the file at `pid_path`.
pub open spec fn terminates(
    plan: UnmountPlan,
    pid_file: Option<Seq<char>>,
    exit_code: u32,
    pid_path: Seq<u8>,
) -> bool {
    &&& plan matches UnmountPlan::Terminate { pid, exit_code: code, pid_path: file }
    &&& code == exit_code
    &&& file@ == pid_path
    &&& match pid {
        Some(n) => pidfile::sidecar_pid_of(Family::Windows, pid_file) == Some(n as int),
        None => pidfile::sidecar_pid_of(Family::Windows, pid_file) is None,
    }
}

/// Whether a plan forces the unmounting of `mount_point`, on an operating system, where its pid
/// file holds `pid_file`.
pub open spec fn unmounts(
    plan: UnmountPlan,
    os: Os,
    mount_point: Seq<u8>,
    pid_file: Option<Seq<char>>,
) -> bool {
    match plan {
        UnmountPlan::Run { program, args } => {
            &&& os is MacOs || os is Linux
            &&& program@ == if os is MacOs {
                "umount"@
            } else {
                "fusermount3"@
            }
            &&& args@.len() == 2
            &&& args@[0]@ == if os is MacOs {
                "-f"@
            } else {
                "-uz"@
            }
            &&& args@[1]@ == path::displayed(mount_point)
        },
        UnmountPlan::Terminate { pid, exit_code, pid_path } => {
            &&& os is Windows
            &&& terminates(
                plan,
                pid_file,
                exit_code,
                coordination::sibling(mount_point, coordination::PID_FILENAME@),
            )
            &&& exit_code == 1
        },
        UnmountPlan::Nothing => os is Other,
    }
}

/// A command line of a flag and a path.
fn command(program: &str, flag: &str, mount_point: &[u8]) -> (plan: UnmountPlan)
    ensures
        runs(plan, program@, seq![flag@, path::displayed(mount_point@)]),
        plan matches UnmountPlan::Run { program: _, args } && args@.len() == 2 && args@[0]@ == flag@
            && args@[1]@ == path::displayed(mount_point@),
{
    let mut args: Vec<String> = Vec::new();
    args.push(String::from_str(flag));
    args.push(display_text(mount_point));
    assert(text::texts(args@) =~= seq![flag@, path::displayed(mount_point@)]);
    UnmountPlan::Run { program: String::from_str(program), args }
}

/// Plans how to force the unmounting of `mount_point`.
///
/// `pid_file` holds the contents of the pid file of the mount point, or `None` if it could not be
/// read; it is only looked at on Windows, where a mount ends with its sidecar.
pub fn force_unmount(os: Os, mount_point: &[u8], pid_file: Option<&str>) -> (plan: UnmountPlan)
    requires
        os is Windows ==> path::file_name(mount_point@) is Some,
    ensures
        match os {
            Os::MacOs => runs(plan, "umount"@, seq!["-f"@, path::displayed(mount_point@)]),
            Os::Linux => runs(plan, "fusermount3"@, seq!["-uz"@, path::displayed(mount_point@)]),
            Os::Windows => terminates(
                plan,
                pidfile::file_text(pid_file),
                1,
                coordination::sibling(mount_point@, coordination::PID_FILENAME@),
            ),
            Os::Other => plan is Nothing,
        },
        unmounts(plan, os, mount_point@, pidfile::file_text(pid_file)),
{
    match os {
        Os::MacOs => command("umount", "-f", mount_point),
        Os::Linux => command("fusermount3", "-uz", mount_point),
        Os::Windows => {
            let (_, pid_path) = coordination_paths(mount_point);
            UnmountPlan::Terminate {
                pid: sidecar_pid(Family::Windows, pid_file),
                exit_code: 1,
                pid_path,
            }
        },
        Os::Other => UnmountPlan::Nothing,
    }
}

/// What has to be done next to clean up what a dead sidecar left behind.
#[derive(Debug, PartialEq, Eq)]
pub enum CleanupStep {
    /// Find out whether there is a pid file.
    AskPidFile,
    /// Find out whether the sidecar is alive.
    AskSidecar,
    /// Remove the pid file; whether that works out is not looked at.
    RemovePidFile,
    /// Find out whether the environment is a mount point.
    AskMountpoint,
    /// Force the unmounting of the environment.
    ForceUnmount,
    /// Nothing: the clean-up is through, or there is a live sidecar and nothing is stale.
    Clean,
    /// Nothing: the environment could not be unmounted.
    Failed(String),
}

/// Sets out to clean up what a dead sidecar left behind.
pub fn cleanup_stale_state() -> (step: CleanupStep)
    ensures
        step == CleanupStep::AskPidFile,
{
    CleanupStep::AskPidFile
}

impl CleanupStep {
    /// What is to be done after `reply`. A reply that does not answer what was asked for changes
    /// nothing.
    pub open spec fn after(self, reply: Reply) -> CleanupStep {
        match (self, reply) {
            (CleanupStep::AskPidFile, Reply::Yes) => CleanupStep::AskSidecar,
            (CleanupStep::AskPidFile, Reply::No) => CleanupStep::AskMountpoint,
            (CleanupStep::AskSidecar, Reply::Yes) => CleanupStep::Clean,
            (CleanupStep::AskSidecar, Reply::No) => CleanupStep::RemovePidFile,
            (CleanupStep::RemovePidFile, Reply::Done) => CleanupStep::AskMountpoint,
            (CleanupStep::RemovePidFile, Reply::Failed { code, text }) =>
                CleanupStep::AskMountpoint,
            (CleanupStep::AskMountpoint, Reply::Yes) => CleanupStep::ForceUnmount,
            (CleanupStep::AskMountpoint, Reply::No) => CleanupStep::Clean,
            (CleanupStep::ForceUnmount, Reply::Done) => CleanupStep::Clean,
            (CleanupStep::ForceUnmount, Reply::Failed { code, text }) => CleanupStep::Failed(text),
            (step, _) => step,
        }
    }

    /// Takes note of what came of the step that was asked for.
    pub fn next(self, reply: Reply) -> (step: CleanupStep)
        ensures
            step == self.after(reply),
    {
        match (self, reply) {
            (CleanupStep::AskPidFile, Reply::Yes) => CleanupStep::AskSidecar,
            (CleanupStep::AskPidFile, Reply::No) => CleanupStep::AskMountpoint,
            (CleanupStep::AskSidecar, Reply::Yes) => CleanupStep::Clean,
            (CleanupStep::AskSidecar, Reply::No) => CleanupStep::RemovePidFile,
            (CleanupStep::RemovePidFile, Reply::Done) => CleanupStep::AskMountpoint,
            (CleanupStep::RemovePidFile, Reply::Failed { .. }) => CleanupStep::AskMountpoint,
            (CleanupStep::AskMountpoint, Reply::Yes) => CleanupStep::ForceUnmount,
            (CleanupStep::AskMountpoint, Reply::No) => CleanupStep::Clean,
            (CleanupStep::ForceUnmount, Reply::Done) => CleanupStep::Clean,
            (CleanupStep::ForceUnmount, Reply::Failed { text, .. }) => CleanupStep::Failed(text),
            (step, _) => step,
        }
    }
}

// ---------------------------------------------------------------------------
// Laws
// ---------------------------------------------------------------------------

/// What a clean-up has to do after the replies `replies`.
pub open spec fn cleanup_after(replies: Seq<Reply>) -> CleanupStep
    decreases replies.len(),
{
    if replies.len() == 0 {
        CleanupStep::AskPidFile
    } else {
        cleanup_after(replies.drop_last()).after(replies.last())
    }
}

/// Whether, in the replies `replies`, a pid file was found and its sidecar was found dead.
pub open spec fn found_stale_pid_file(replies: Seq<Reply>) -> bool
    decreases replies.len(),
{
    replies.len() > 0 && (found_stale_pid_file(replies.drop_last()) || (cleanup_after(
        replies.drop_last(),
    ) is AskSidecar && replies.last() is No))
}

/// Whether, in the replies `replies`, no pid file was found.
pub open spec fn found_no_pid_file(replies: Seq<Reply>) -> bool
    decreases replies.len(),
{
    replies.len() > 0 && (found_no_pid_file(replies.drop_last()) || (cleanup_after(
        replies.drop_last(),
    ) is AskPidFile && replies.last() is No))
}

/// Whether, in the replies `replies`, the sidecar was found alive.
pub open spec fn found_alive(replies: Seq<Reply>) -> bool
    decreases replies.len(),
{
    replies.len() > 0 && (found_alive(replies.drop_last()) || (cleanup_after(
        replies.drop_last(),
    ) is AskSidecar && replies.last() is Yes))
}

/// Whether, in the replies `replies`, the environment was found to be a mount point.
pub open spec fn found_mounted(replies: Seq<Reply>) -> bool
    decreases replies.len(),
{
    replies.len() > 0 && (found_mounted(replies.drop_last()) || (cleanup_after(
        replies.drop_last(),
    ) is AskMountpoint && replies.last() is Yes))
}

/// Whether, in the replies `replies`, the removal of the pid file was carried out or failed.
pub open spec fn removal_tried(replies: Seq<Reply>) -> bool
    decreases replies.len(),
{
    replies.len() > 0 && (removal_tried(replies.drop_last()) || (cleanup_after(
        replies.drop_last(),
    ) is RemovePidFile && (replies.last() is Done || replies.last() is Failed)))
}

/// Whether, in the replies `replies`, unmounting the environment by force was carried out.
pub open spec fn unmounting_done(replies: Seq<Reply>) -> bool
    decreases replies.len(),
{
    replies.len() > 0 && (unmounting_done(replies.drop_last()) || (cleanup_after(
        replies.drop_last(),
    ) is ForceUnmount && replies.last() is Done))
}

/// A clean-up removes a pid file only if it has found its sidecar dead, and it unmounts only what
/// it has found mounted without a pid file or with one whose sidecar is dead.
pub proof fn law_cleanup_touches_only_what_is_stale(replies: Seq<Reply>)
    ensures
        cleanup_after(replies) is RemovePidFile || removal_tried(replies) ==> found_stale_pid_file(
            replies,
        ),
        cleanup_after(replies) is ForceUnmount || unmounting_done(replies) ==> {
            &&& found_mounted(replies)
            &&& found_no_pid_file(replies) || found_stale_pid_file(replies)
        },
        cleanup_after(replies) is AskMountpoint ==> found_no_pid_file(replies)
            || found_stale_pid_file(replies),
    decreases replies.len(),
{
    if replies.len() > 0 {
        law_cleanup_touches_only_what_is_stale(replies.drop_last());
    }
}

/// A clean-up leaves a live sidecar alone: once it has found the sidecar alive it is through,
/// whatever is reported later, and it has neither removed the pid file nor unmounted anything.
pub proof fn law_cleanup_leaves_a_live_sidecar_alone(replies: Seq<Reply>)
    ensures
        found_alive(replies) ==> {
            &&& cleanup_after(replies) is Clean
            &&& !removal_tried(replies)
            &&& !unmounting_done(replies)
        },
        cleanup_after(replies) is AskPidFile || cleanup_after(replies) is AskSidecar ==> {
            &&& !removal_tried(replies)
            &&& !unmounting_done(replies)
        },
    decreases replies.len(),
{
    if replies.len() > 0 {
        law_cleanup_leaves_a_live_sidecar_alone(replies.drop_last());
    }
}

/// When a clean-up is through, the removal of a pid file that it found stale has been tried, and
/// unmounting what it found mounted has been carried out.
pub proof fn law_cleanup_deals_with_all_that_is_stale(replies: Seq<Reply>)
    ensures
        cleanup_after(replies) is Clean ==> {
            &&& found_stale_pid_file(replies) ==> removal_tried(replies)
            &&& found_mounted(replies) ==> unmounting_done(replies)
        },
        match cleanup_after(replies) {
            CleanupStep::AskPidFile | CleanupStep::AskSidecar => !found_mounted(replies)
                && !found_stale_pid_file(replies),
            CleanupStep::RemovePidFile => !found_mounted(replies),
            CleanupStep::AskMountpoint => !found_mounted(replies) && (found_stale_pid_file(replies)
                ==> removal_tried(replies)),
            CleanupStep::ForceUnmount => found_stale_pid_file(replies) ==> removal_tried(replies),
            _ => true,
        },
    decreases replies.len(),
{
    if replies.len() > 0 {
        law_cleanup_deals_with_all_that_is_stale(replies.drop_last());
    }
}

// ---------------------------------------------------------------------------
// Laws of the evidence
// ---------------------------------------------------------------------------

/// A path that has a parent is a mount point if and only if it is on another device than its
/// parent, whatever the numbers of the devices; so the answer is the same when they are swapped.
/// Where one of them is not known, or where there is no parent, there is no mount point.
pub proof fn law_a_mount_point_is_on_another_device(
    path: Seq<u8>,
    own: u64,
    parent: u64,
    unknown: Option<u64>,
)
    ensures
        path::parent(path) is Some ==> {
            &&& mounted(path, MountEvidence::Devices { own: Some(own), parent: Some(parent) })
                <==> own != parent
            &&& mounted(path, MountEvidence::Devices { own: Some(own), parent: Some(parent) })
                == mounted(path, MountEvidence::Devices { own: Some(parent), parent: Some(own) })
        },
        path::parent(path) is None ==> !mounted(
            path,
            MountEvidence::Devices { own: Some(own), parent: Some(parent) },
        ),
        !mounted(path, MountEvidence::Devices { own: None, parent: unknown }),
        !mounted(path, MountEvidence::Devices { own: unknown, parent: None }),
{
}

/// Where mounts have no device of their own, a path is a mount point if and only if its pid file
/// could be read, records a process id, and that process is running, whatever the path is.
pub proof fn law_a_mount_without_a_device_is_its_sidecar(
    path: Seq<u8>,
    text: String,
    probe: ProcessProbe,
)
    ensures
        mounted(path, MountEvidence::Sidecar { pid_file: Some(text), probe })
            <==> pidfile::recorded_pid(Family::Windows, text@) is Some && probe.running(),
        !mounted(path, MountEvidence::Sidecar { pid_file: None, probe }),
{
}

/// What is looked at follows from the path: on Unix the directory that holds it, on Windows the pid
/// file beside it; two plans for one path look at the same.
pub proof fn law_what_is_looked_at_follows_from_the_path(
    a: EvidencePlan,
    b: EvidencePlan,
    family: Family,
    path: Seq<u8>,
)
    requires
        looks_at(a, family, path),
        looks_at(b, family, path),
    ensures
        family is Unix ==> {
            &&& a matches EvidencePlan::Devices { parent: first }
            &&& b matches EvidencePlan::Devices { parent: second }
            &&& first is Some <==> path::parent(path) is Some
            &&& first is Some ==> second is Some && first->0@ == second->0@
        },
        family is Windows ==> {
            &&& a matches EvidencePlan::Sidecar { pid_path: first }
            &&& b matches EvidencePlan::Sidecar { pid_path: second }
            &&& first@ == second@
            &&& first@ == coordination::sibling(path, ".rattler-fs.pid"@)
        },
{
}

/// The directory that a path is compared with holds it: to look the name of the path up in that
/// directory leads to the same components. It is the parent where that is not empty, and it is
/// never empty; a path has one exactly if it has a parent.
pub proof fn law_the_directory_of_a_path_holds_it(path: Seq<u8>)
    ensures
        directory_of(path) is Some <==> path::parent(path) is Some,
        directory_of(path) matches Some(directory) ==> {
            &&& directory.len() > 0
            &&& path::parent(path)->0.len() > 0 ==> directory == path::parent(path)->0
            &&& path::file_name(path) matches Some(name) ==> path::components(
                path::join(directory, name),
            ) == path::components(path)
            &&& path::parent(path)->0.len() == 0 && path::file_name(path) is None ==> {
                ||| path::components(path).len() == 0 && directory == seq![path::DOT, path::DOT]
                ||| path::components(path).len() > 0 && path::components(directory) == seq![
                    seq![path::DOT, path::DOT],
                    seq![path::DOT, path::DOT],
                ]
            }
        },
{
    path::lemma_two_steps_up();
    if directory_of(path) is Some && path::file_name(path) is Some {
        let name = path::file_name(path)->0;
        path::lemma_file_name_is_name(path);
        if path::components(path).len() > 0 {
            path::law_parent_and_file_name_part_a_path(path);
        }
        path::law_a_joined_name_is_one_more_component(directory_of(path)->0, name);
        if path::parent(path)->0.len() == 0 {
            assert(path::components(path::parent(path)->0) =~= Seq::<Seq<u8>>::empty());
            assert(path::components(seq![path::DOT]) =~= Seq::<Seq<u8>>::empty());
        }
    }
}

// ---------------------------------------------------------------------------
// Laws of unmounting by force
// ---------------------------------------------------------------------------

/// The plan to unmount names the very mount point: on Linux and on macOS its last argument gives
/// the bytes of a path that is valid UTF-8 back, and the program and the flag are those of the
/// operating system, whatever the mount point is. The pid file plays no role there.
pub proof fn law_unmounting_names_the_mount_point(
    plan: UnmountPlan,
    os: Os,
    mount_point: Seq<u8>,
    pid_file: Option<Seq<char>>,
    other_pid_file: Option<Seq<char>>,
)
    requires
        os is Linux || os is MacOs,
        unmounts(plan, os, mount_point, pid_file),
    ensures
        plan is Run,
        plan->program@ == if os is Linux {
            "fusermount3"@
        } else {
            "umount"@
        },
        plan->args@.len() == 2,
        plan->args@[0]@ == if os is Linux {
            "-uz"@
        } else {
            "-f"@
        },
        vstd::utf8::valid_utf8(mount_point) ==> vstd::utf8::encode_utf8(plan->args@[1]@)
            == mount_point,
        plan->args@[1]@ == path::displayed(mount_point),
        unmounts(plan, os, mount_point, other_pid_file),
{
    if vstd::utf8::valid_utf8(mount_point) {
        vstd::utf8::decode_utf8_encode_utf8(mount_point);
    }
}

/// On Windows the sidecar that the pid file of the mount point records is ended, with the exit code
/// one, and nothing is if the file records none or could not be read; either way that file is
/// removed. On other systems nothing is done.
pub proof fn law_unmounting_ends_the_recorded_sidecar(
    plan: UnmountPlan,
    os: Os,
    mount_point: Seq<u8>,
    pid_file: Option<Seq<char>>,
)
    requires
        unmounts(plan, os, mount_point, pid_file),
    ensures
        os is Other <==> plan is Nothing,
        os is Windows ==> {
            &&& plan matches UnmountPlan::Terminate { pid, exit_code, pid_path }
            &&& exit_code == 1
            &&& pid_path@ == coordination::sibling(mount_point, ".rattler-fs.pid"@)
            &&& pid_file is None ==> pid is None
            &&& pid_file matches Some(text) ==> match pidfile::recorded_pid(
                Family::Windows,
                text,
            ) {
                Some(recorded) => pid matches Some(ended) && ended == recorded,
                None => pid is None,
            }
        },
{
}

// ---------------------------------------------------------------------------
// Laws of the course of a clean-up
// ---------------------------------------------------------------------------

/// One more reply takes a clean-up one step on.
proof fn lemma_one_more_reply(replies: Seq<Reply>, reply: Reply)
    ensures
        cleanup_after(replies.push(reply)) == cleanup_after(replies).after(reply),
{
    assert(replies.push(reply).drop_last() =~= replies);
}

/// A clean-up looks for a pid file first. It removes one whose sidecar is dead, whatever comes of
/// that, and then, as where there is none, unmounts what is mounted; a failure to unmount is
/// reported with its reason. A live sidecar ends it at once.
pub proof fn law_a_cleanup_goes_through(
    replies: Seq<Reply>,
    removed: Reply,
    code: Option<i32>,
    text: String,
)
    requires
        removed is Done || removed is Failed,
    ensures
        cleanup_after(Seq::empty()) is AskPidFile,
        cleanup_after(replies) is AskPidFile ==> {
            let found = replies.push(Reply::Yes);
            let dead = found.push(Reply::No);
            &&& cleanup_after(replies.push(Reply::No)) is AskMountpoint
            &&& cleanup_after(found) is AskSidecar
            &&& cleanup_after(found.push(Reply::Yes)) is Clean
            &&& cleanup_after(dead) is RemovePidFile
            &&& cleanup_after(dead.push(removed)) is AskMountpoint
        },
        cleanup_after(replies) is AskMountpoint ==> {
            let mounted = replies.push(Reply::Yes);
            &&& cleanup_after(replies.push(Reply::No)) is Clean
            &&& cleanup_after(mounted) is ForceUnmount
            &&& cleanup_after(mounted.push(Reply::Done)) is Clean
            &&& cleanup_after(mounted.push(Reply::Failed { code, text }))
                == CleanupStep::Failed(text)
        },
{
    let yes = replies.push(Reply::Yes);
    lemma_one_more_reply(replies, Reply::Yes);
    lemma_one_more_reply(replies, Reply::No);
    lemma_one_more_reply(yes, Reply::Yes);
    lemma_one_more_reply(yes, Reply::No);
    lemma_one_more_reply(yes.push(Reply::No), removed);
    lemma_one_more_reply(yes, Reply::Done);
    lemma_one_more_reply(yes, Reply::Failed { code, text });
}

/// A clean-up takes no notice of what does not answer it, and its end is final.
pub proof fn law_a_cleanup_heeds_answers_alone(replies: Seq<Reply>, reply: Reply)
    ensures
        ({
            let step = cleanup_after(replies);
            let asks = step is AskPidFile || step is AskSidecar || step is AskMountpoint;
            reply is Text || (asks && !(reply is Yes || reply is No)) || (!asks && (reply is Yes
                || reply is No)) || step is Clean || step is Failed ==> cleanup_after(
                replies.push(reply),
            ) == step
        }),
{
    lemma_one_more_reply(replies, reply);
}

} // verus!
