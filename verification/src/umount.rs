//! Unmounting an environment on request.
//!
//! The sidecar is told to end, if it is alive, and is given a moment to unmount by itself. What is
//! still mounted after that is unmounted by force, and success is only reported once nothing is
//! mounted any more.

use vstd::prelude::*;

use crate::path;
use crate::path::display_text;
use crate::pidfile;
use crate::pidfile::{read_pid, Family};
use crate::protocol::Reply;
use crate::text::concat2;

verus! {

/// How long a sidecar that was told to end is waited for, in milliseconds.
pub const UNMOUNT_PAUSE_MILLIS: u64 = 500;

/// The exit code with which a sidecar is ended where it cannot be told to end.
pub const ENDED_EXIT_CODE: u32 = 0;

/// How a process is told to end.
#[derive(Clone, Copy, Debug, PartialEq, Eq, Structural)]
pub enum Termination {
    /// The signal `SIGTERM`, on which it ends by itself.
    SigTerm,
    /// It is ended from outside, with this exit code.
    ExitCode(u32),
}

/// What has to be done next to unmount an environment.
#[derive(Debug, PartialEq, Eq)]
pub enum UmountStep {
    /// Find out whether the environment is mounted.
    AskMounted,
    /// Tell the user that it is not.
    ReportNotMounted,
    /// Find out whether the sidecar is alive.
    AskSidecar,
    /// Read the pid file.
    ReadPidFile,
    /// Tell the process to end, by these means; whether that works out is not looked at.
    Terminate { pid: i64, by: Termination },
    /// Give the sidecar [`UNMOUNT_PAUSE_MILLIS`] to unmount.
    Pause,
    /// Find out whether the environment is still mounted.
    AskStillMounted,
    /// Unmount it by force; whether that works out is asked afterwards.
    ForceUnmount,
    /// Find out whether the environment is mounted even after that.
    AskMountedAfterForce,
    /// Remove the pid file; whether that works out is not looked at.
    RemovePidFile,
    /// Tell the user that the environment is unmounted.
    ReportUnmounted,
    /// Nothing: it is over.
    Finished,
    /// Nothing: the environment could not be unmounted.
    Failed(UmountError),
}

/// Why an environment was not unmounted.
#[derive(Debug, PartialEq, Eq)]
pub enum UmountError {
    /// Unmounting by force failed, for this reason.
    Force(String),
    /// The environment was mounted even after it had been unmounted by force.
    StillMounted,
}

impl UmountError {
    /// The words of the error.
    pub open spec fn words(self) -> Seq<char> {
        match self {
            UmountError::Force(text) => text@,
            UmountError::StillMounted => "failed to unmount: still mounted"@,
        }
    }

    /// Words the error for a user.
    pub fn message(&self) -> (message: String)
        ensures
            message@ == self.words(),
    {
        match self {
            UmountError::Force(text) => text.clone(),
            UmountError::StillMounted => String::from_str("failed to unmount: still mounted"),
        }
    }
}

/// Sets out to unmount an environment.
pub fn execute() -> (step: UmountStep)
    ensures
        step == UmountStep::AskMounted,
{
    UmountStep::AskMounted
}

impl UmountStep {
    /// How a sidecar is told to end.
    pub open spec fn termination(family: Family) -> Termination {
        match family {
            Family::Unix => Termination::SigTerm,
            Family::Windows => Termination::ExitCode(ENDED_EXIT_CODE),
        }
    }

    /// What is to be done once the pid file has been read and holds `text`.
    pub open spec fn after_pid_file(family: Family, text: Seq<char>) -> UmountStep {
        match pidfile::recorded_pid(family, text) {
            Some(pid) => UmountStep::Terminate {
                pid: pid as i64,
                by: UmountStep::termination(family),
            },
            None => UmountStep::AskStillMounted,
        }
    }

    /// What is to be done after `reply`. A reply that does not answer what was asked for changes
    /// nothing.
    pub open spec fn after(self, family: Family, reply: Reply) -> UmountStep {
        match (self, reply) {
            (UmountStep::AskMounted, Reply::Yes) => UmountStep::AskSidecar,
            (UmountStep::AskMounted, Reply::No) => UmountStep::ReportNotMounted,
            (UmountStep::ReportNotMounted, Reply::Done) => UmountStep::Finished,
            (UmountStep::AskSidecar, Reply::Yes) => UmountStep::ReadPidFile,
            (UmountStep::AskSidecar, Reply::No) => UmountStep::AskStillMounted,
            (UmountStep::ReadPidFile, Reply::Text(text)) => UmountStep::after_pid_file(
                family,
                text@,
            ),
            (UmountStep::ReadPidFile, Reply::Failed { code, text }) => UmountStep::AskStillMounted,
            (UmountStep::Terminate { pid, by }, Reply::Done) => UmountStep::Pause,
            (UmountStep::Terminate { pid, by }, Reply::Failed { code, text }) => UmountStep::Pause,
            (UmountStep::Pause, Reply::Done) => UmountStep::AskStillMounted,
            (UmountStep::AskStillMounted, Reply::Yes) => UmountStep::ForceUnmount,
            (UmountStep::AskStillMounted, Reply::No) => UmountStep::RemovePidFile,
            (UmountStep::ForceUnmount, Reply::Done) => UmountStep::AskMountedAfterForce,
            (UmountStep::ForceUnmount, Reply::Failed { code, text }) => UmountStep::Failed(
                UmountError::Force(text),
            ),
            (UmountStep::AskMountedAfterForce, Reply::Yes) => UmountStep::Failed(
                UmountError::StillMounted,
            ),
            (UmountStep::AskMountedAfterForce, Reply::No) => UmountStep::RemovePidFile,
            (UmountStep::RemovePidFile, Reply::Done) => UmountStep::ReportUnmounted,
            (UmountStep::RemovePidFile, Reply::Failed { code, text }) =>
                UmountStep::ReportUnmounted,
            (UmountStep::ReportUnmounted, Reply::Done) => UmountStep::Finished,
            (step, _) => step,
        }
    }

    /// Takes note of what came of the step that was asked for.
    pub fn next(self, family: Family, reply: Reply) -> (step: UmountStep)
        ensures
            step == self.after(family, reply),
    {
        match (self, reply) {
            (UmountStep::AskMounted, Reply::Yes) => UmountStep::AskSidecar,
            (UmountStep::AskMounted, Reply::No) => UmountStep::ReportNotMounted,
            (UmountStep::ReportNotMounted, Reply::Done) => UmountStep::Finished,
            (UmountStep::AskSidecar, Reply::Yes) => UmountStep::ReadPidFile,
            (UmountStep::AskSidecar, Reply::No) => UmountStep::AskStillMounted,
            (UmountStep::ReadPidFile, Reply::Text(text)) => match read_pid(family, text.as_str()) {
                Some(pid) => {
                    let by = match family {
                        Family::Unix => Termination::SigTerm,
                        Family::Windows => Termination::ExitCode(ENDED_EXIT_CODE),
                    };
                    UmountStep::Terminate { pid, by }
                },
                None => UmountStep::AskStillMounted,
            },
            (UmountStep::ReadPidFile, Reply::Failed { .. }) => UmountStep::AskStillMounted,
            (UmountStep::Terminate { .. }, Reply::Done) => UmountStep::Pause,
            (UmountStep::Terminate { .. }, Reply::Failed { .. }) => UmountStep::Pause,
            (UmountStep::Pause, Reply::Done) => UmountStep::AskStillMounted,
            (UmountStep::AskStillMounted, Reply::Yes) => UmountStep::ForceUnmount,
            (UmountStep::AskStillMounted, Reply::No) => UmountStep::RemovePidFile,
            (UmountStep::ForceUnmount, Reply::Done) => UmountStep::AskMountedAfterForce,
            (UmountStep::ForceUnmount, Reply::Failed { text, .. }) => UmountStep::Failed(
                UmountError::Force(text),
            ),
            (UmountStep::AskMountedAfterForce, Reply::Yes) => UmountStep::Failed(
                UmountError::StillMounted,
            ),
            (UmountStep::AskMountedAfterForce, Reply::No) => UmountStep::RemovePidFile,
            (UmountStep::RemovePidFile, Reply::Done) => UmountStep::ReportUnmounted,
            (UmountStep::RemovePidFile, Reply::Failed { .. }) => UmountStep::ReportUnmounted,
            (UmountStep::ReportUnmounted, Reply::Done) => UmountStep::Finished,
            (step, _) => step,
        }
    }
}

/// The report that nothing is mounted at `mount_point`.
pub open spec fn not_mounted_words(mount_point: Seq<u8>) -> Seq<char> {
    "Not mounted: "@ + path::displayed(mount_point)
}

/// The report that `mount_point` has been unmounted.
pub open spec fn unmounted_words(mount_point: Seq<u8>) -> Seq<char> {
    "Unmounted "@ + path::displayed(mount_point)
}

/// Words the report that nothing is mounted at `mount_point`.
pub fn not_mounted_message(mount_point: &[u8]) -> (message: String)
    ensures
        message@ == "Not mounted: "@ + path::displayed(mount_point@),
        message@ == not_mounted_words(mount_point@),
{
    concat2("Not mounted: ", display_text(mount_point).as_str())
}

/// Words the report that `mount_point` has been unmounted.
pub fn unmounted_message(mount_point: &[u8]) -> (message: String)
    ensures
        message@ == "Unmounted "@ + path::displayed(mount_point@),
        message@ == unmounted_words(mount_point@),
{
    concat2("Unmounted ", display_text(mount_point).as_str())
}

// ---------------------------------------------------------------------------
// Laws
// ---------------------------------------------------------------------------

/// What has to be done after the replies `replies`, from the start.
pub open spec fn umount_after(family: Family, replies: Seq<Reply>) -> UmountStep
    decreases replies.len(),
{
    if replies.len() == 0 {
        UmountStep::AskMounted
    } else {
        umount_after(family, replies.drop_last()).after(family, replies.last())
    }
}

/// Whether, in the replies `replies`, the question that `asked` stands for was answered with
/// `answer`.
pub open spec fn answered(
    family: Family,
    replies: Seq<Reply>,
    asked: UmountStep,
    answer: Reply,
) -> bool
    decreases replies.len(),
{
    replies.len() > 0 && (answered(family, replies.drop_last(), asked, answer) || (umount_after(
        family,
        replies.drop_last(),
    ) == asked && replies.last() == answer))
}

/// An environment that is not mounted is left alone: no process is told to end, nothing is
/// unmounted and no file is removed.
pub proof fn law_what_is_not_mounted_is_left_alone(family: Family, replies: Seq<Reply>)
    ensures
        match umount_after(family, replies) {
            UmountStep::AskMounted => !answered(
                family,
                replies,
                UmountStep::AskMounted,
                Reply::Yes,
            ) && !answered(family, replies, UmountStep::AskMounted, Reply::No),
            UmountStep::ReportNotMounted => !answered(
                family,
                replies,
                UmountStep::AskMounted,
                Reply::Yes,
            ),
            UmountStep::Finished => true,
            _ => answered(family, replies, UmountStep::AskMounted, Reply::Yes) && !answered(
                family,
                replies,
                UmountStep::AskMounted,
                Reply::No,
            ),
        },
    decreases replies.len(),
{
    if replies.len() > 0 {
        law_what_is_not_mounted_is_left_alone(family, replies.drop_last());
    }
}

/// A process is told to end only after the sidecar was found alive, and it is the one process that
/// the pid file records: its id is above zero. It is told by the means of its operating system.
pub proof fn law_only_a_live_recorded_sidecar_is_told_to_end(family: Family, replies: Seq<Reply>)
    ensures
        umount_after(family, replies) is ReadPidFile ==> answered(
            family,
            replies,
            UmountStep::AskSidecar,
            Reply::Yes,
        ),
        umount_after(family, replies) matches UmountStep::Terminate { pid, by } ==> {
            &&& by == UmountStep::termination(family)
            &&& 0 < pid <= family.highest_pid()
            &&& answered(family, replies, UmountStep::AskSidecar, Reply::Yes)
            &&& exists|text: String|
                #[trigger] pidfile::recorded_pid(family, text@) == Some(pid as int) && answered(
                    family,
                    replies,
                    UmountStep::ReadPidFile,
                    Reply::Text(text),
                )
        },
    decreases replies.len(),
{
    if replies.len() > 0 {
        let before = replies.drop_last();
        law_only_a_live_recorded_sidecar_is_told_to_end(family, before);
        if umount_after(family, replies) is Terminate {
            if umount_after(family, before) is Terminate {
                let pid = umount_after(family, before)->pid;
                let text = choose|text: String|
                    #[trigger] pidfile::recorded_pid(family, text@) == Some(pid as int)
                        && answered(
                        family,
                        before,
                        UmountStep::ReadPidFile,
                        Reply::Text(text),
                    );
                assert(answered(family, replies, UmountStep::ReadPidFile, Reply::Text(text)));
            } else {
                let text = replies.last()->Text_0;
                assert(answered(family, replies, UmountStep::ReadPidFile, Reply::Text(text)));
                assert(pidfile::recorded_pid(family, text@) is Some);
            }
        }
    }
}

/// The last answer, in the replies `replies`, to the question whether the environment is mounted.
pub open spec fn last_seen_mounted(family: Family, replies: Seq<Reply>) -> Option<bool>
    decreases replies.len(),
{
    if replies.len() == 0 {
        None
    } else {
        match (umount_after(family, replies.drop_last()), replies.last()) {
            (UmountStep::AskMounted, Reply::Yes) => Some(true),
            (UmountStep::AskMounted, Reply::No) => Some(false),
            (UmountStep::AskStillMounted, Reply::Yes) => Some(true),
            (UmountStep::AskStillMounted, Reply::No) => Some(false),
            (UmountStep::AskMountedAfterForce, Reply::Yes) => Some(true),
            (UmountStep::AskMountedAfterForce, Reply::No) => Some(false),
            _ => last_seen_mounted(family, replies.drop_last()),
        }
    }
}

/// An environment is reported unmounted, its pid file is removed, and the command ends without an
/// error only when the last look has found it not mounted.
pub proof fn law_success_means_not_mounted(family: Family, replies: Seq<Reply>)
    ensures
        match umount_after(family, replies) {
            UmountStep::ReportNotMounted => last_seen_mounted(family, replies) == Some(false),
            UmountStep::RemovePidFile => last_seen_mounted(family, replies) == Some(false),
            UmountStep::ReportUnmounted => last_seen_mounted(family, replies) == Some(false),
            UmountStep::Finished => last_seen_mounted(family, replies) == Some(false),
            _ => true,
        },
    decreases replies.len(),
{
    if replies.len() > 0 {
        law_success_means_not_mounted(family, replies.drop_last());
    }
}

// ---------------------------------------------------------------------------
// Laws of the course
// ---------------------------------------------------------------------------

/// One more reply takes the command one step on.
proof fn lemma_one_more_reply(family: Family, replies: Seq<Reply>, reply: Reply)
    ensures
        umount_after(family, replies.push(reply)) == umount_after(family, replies).after(
            family,
            reply,
        ),
{
    assert(replies.push(reply).drop_last() =~= replies);
}

/// Whether the command has failed, with an error of these words.
pub open spec fn failed_saying(step: UmountStep, words: Seq<char>) -> bool {
    step matches UmountStep::Failed(error) && error.words() == words
}

/// A live sidecar is told to end: if the pid file that is read once it was found alive records a
/// process, that very process is told, by `SIGTERM` on Unix and with the exit code zero on Windows,
/// and whatever comes of it, it is given its pause before the environment is looked at again.
/// Where the file records no process, or cannot be read, the environment is looked at again at
/// once.
pub proof fn law_a_live_recorded_sidecar_is_told_to_end(
    family: Family,
    replies: Seq<Reply>,
    text: String,
    code: Option<i32>,
    reason: String,
    told: Reply,
)
    requires
        umount_after(family, replies) is AskSidecar,
        told is Done || told is Failed,
    ensures
        ({
            let alive = replies.push(Reply::Yes);
            let read = alive.push(Reply::Text(text));
            let unread = alive.push(Reply::Failed { code, text: reason });
            &&& umount_after(family, alive) is ReadPidFile
            &&& umount_after(family, unread) is AskStillMounted
            &&& match pidfile::recorded_pid(family, text@) {
                Some(recorded) => {
                    &&& umount_after(family, read) matches UmountStep::Terminate { pid, by }
                    &&& pid == recorded
                    &&& family is Unix ==> by is SigTerm
                    &&& family is Windows ==> by == Termination::ExitCode(0)
                    &&& umount_after(family, read.push(told)) is Pause
                    &&& umount_after(family, read.push(told).push(Reply::Done)) is AskStillMounted
                },
                None => umount_after(family, read) is AskStillMounted,
            }
        }),
{
    let alive = replies.push(Reply::Yes);
    let read = alive.push(Reply::Text(text));
    lemma_one_more_reply(family, replies, Reply::Yes);
    lemma_one_more_reply(family, alive, Reply::Text(text));
    lemma_one_more_reply(family, alive, Reply::Failed { code, text: reason });
    lemma_one_more_reply(family, read, told);
    lemma_one_more_reply(family, read.push(told), Reply::Done);
}

/// The sidecar that is told to end is the one that wrote the pid file, whatever its id.
pub proof fn law_the_writer_of_the_pid_file_is_told_to_end(
    family: Family,
    replies: Seq<Reply>,
    text: String,
    pid: nat,
)
    requires
        umount_after(family, replies) is ReadPidFile,
        1 <= pid <= match family {
            Family::Unix => 0x7fff_ffffint,
            Family::Windows => 0xffff_ffffint,
        },
        text@ == pidfile::pid_line(pid),
    ensures
        umount_after(family, replies.push(Reply::Text(text))) matches UmountStep::Terminate {
            pid: told,
            by,
        } && told == pid,
{
    pidfile::law_written_pid_is_read_back(family, pid);
    lemma_one_more_reply(family, replies, Reply::Text(text));
}

/// The command looks whether the environment is mounted first. If it is not, it says so and is
/// through; if it is, it looks for the sidecar, and where that is dead it looks at the environment
/// again at once.
pub proof fn law_the_command_begins_with_a_look(family: Family, replies: Seq<Reply>)
    ensures
        umount_after(family, Seq::empty()) is AskMounted,
        umount_after(family, replies) is AskMounted ==> {
            &&& umount_after(family, replies.push(Reply::No)) is ReportNotMounted
            &&& umount_after(family, replies.push(Reply::No).push(Reply::Done)) is Finished
            &&& umount_after(family, replies.push(Reply::Yes)) is AskSidecar
        },
        umount_after(family, replies) is AskSidecar ==> umount_after(
            family,
            replies.push(Reply::No),
        ) is AskStillMounted,
{
    lemma_one_more_reply(family, replies, Reply::No);
    lemma_one_more_reply(family, replies, Reply::Yes);
    lemma_one_more_reply(family, replies.push(Reply::No), Reply::Done);
}

/// What is still mounted is unmounted by force and looked at once more. The command is through, and
/// has said so, once a look has found nothing mounted, whatever comes of removing the pid file; if
/// the environment is mounted even after that, or force fails, the command fails and says why.
pub proof fn law_the_command_ends_with_a_look(
    family: Family,
    replies: Seq<Reply>,
    removed: Reply,
    code: Option<i32>,
    reason: String,
)
    requires
        umount_after(family, replies) is AskStillMounted,
        removed is Done || removed is Failed,
    ensures
        ({
            let gone = replies.push(Reply::No);
            let mounted = replies.push(Reply::Yes);
            let forced = mounted.push(Reply::Done);
            let gone_then = forced.push(Reply::No);
            &&& umount_after(family, gone) is RemovePidFile
            &&& umount_after(family, gone.push(removed)) is ReportUnmounted
            &&& umount_after(family, gone.push(removed).push(Reply::Done)) is Finished
            &&& umount_after(family, mounted) is ForceUnmount
            &&& failed_saying(
                umount_after(family, mounted.push(Reply::Failed { code, text: reason })),
                reason@,
            )
            &&& umount_after(family, forced) is AskMountedAfterForce
            &&& failed_saying(
                umount_after(family, forced.push(Reply::Yes)),
                "failed to unmount: still mounted"@,
            )
            &&& umount_after(family, gone_then) is RemovePidFile
            &&& umount_after(family, gone_then.push(removed)) is ReportUnmounted
            &&& umount_after(family, gone_then.push(removed).push(Reply::Done)) is Finished
        }),
{
    let gone = replies.push(Reply::No);
    let mounted = replies.push(Reply::Yes);
    let forced = mounted.push(Reply::Done);
    let gone_then = forced.push(Reply::No);
    lemma_one_more_reply(family, replies, Reply::No);
    lemma_one_more_reply(family, replies, Reply::Yes);
    lemma_one_more_reply(family, gone, removed);
    lemma_one_more_reply(family, gone.push(removed), Reply::Done);
    lemma_one_more_reply(family, mounted, Reply::Done);
    lemma_one_more_reply(family, mounted, Reply::Failed { code, text: reason });
    lemma_one_more_reply(family, forced, Reply::Yes);
    lemma_one_more_reply(family, forced, Reply::No);
    lemma_one_more_reply(family, gone_then, removed);
    lemma_one_more_reply(family, gone_then.push(removed), Reply::Done);
}

/// The command takes no notice of what does not answer it, and its end is final.
pub proof fn law_the_command_heeds_answers_alone(
    family: Family,
    replies: Seq<Reply>,
    reply: Reply,
)
    ensures
        ({
            let step = umount_after(family, replies);
            let asks = step is AskMounted || step is AskSidecar || step is AskStillMounted
                || step is AskMountedAfterForce;
            let unfit = (asks && !(reply is Yes || reply is No)) || (!asks && (reply is Yes
                || reply is No)) || (reply is Text && !(step is ReadPidFile)) || (reply is Done
                && step is ReadPidFile) || (reply is Failed && (step is Pause
                || step is ReportNotMounted || step is ReportUnmounted)) || step is Finished
                || step is Failed;
            unfit ==> umount_after(family, replies.push(reply)) == step
        }),
{
    lemma_one_more_reply(family, replies, reply);
}

/// The reports of the command say what they report and then name the mount point: what stands
/// behind the first words is the mount point as it is shown.
pub proof fn law_reports_name_the_mount_point(mount_point: Seq<u8>)
    ensures
        not_mounted_words(mount_point).take(13) == "Not mounted: "@,
        not_mounted_words(mount_point).skip(13) == path::displayed(mount_point),
        unmounted_words(mount_point).take(10) == "Unmounted "@,
        unmounted_words(mount_point).skip(10) == path::displayed(mount_point),
{
    reveal_strlit("Not mounted: ");
    reveal_strlit("Unmounted ");
    assert(not_mounted_words(mount_point).take(13) =~= "Not mounted: "@);
    assert(not_mounted_words(mount_point).skip(13) =~= path::displayed(mount_point));
    assert(unmounted_words(mount_point).take(10) =~= "Unmounted "@);
    assert(unmounted_words(mount_point).skip(10) =~= path::displayed(mount_point));
}

} // verus!
