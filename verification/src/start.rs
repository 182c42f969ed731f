//! Starting a sidecar and waiting until it is ready.
//!
//! The sidecar is this program again, run as [`sidecar_command`] says. It reports through a
//! channel: on Unix it writes a line to a pipe that it inherits, on Windows it signals a named
//! event.

use std::collections::hash_map::DefaultHasher;
use std::hash::{Hash, Hasher};

use vstd::prelude::*;

use crate::coordination;
use crate::path;
use crate::path::display_text;
use crate::pidfile::Family;
use crate::protocol::Reply;
use crate::text;
use crate::text::{
    concat2, concat3, hex8_text, numeral_text, signed_decimal_text, starts_with, trim_text,
};

verus! {

/// How many seconds a sidecar has to become ready.
pub const READY_TIMEOUT_SECONDS: u64 = 30;

/// What a sidecar writes to its pipe when it is ready.
pub const READY_LINE: &'static str = "ready\n";

// ---------------------------------------------------------------------------
// The command line
// ---------------------------------------------------------------------------

/// Where a sidecar reports that it is ready.
#[derive(Debug, PartialEq, Eq)]
pub enum ReadyChannel {
    /// The write end of a pipe, by its number.
    Fd(i32),
    /// A named event.
    Event(String),
}

impl ReadyChannel {
    /// The option that names the channel on the command line.
    pub open spec fn option(self) -> Seq<char> {
        match self {
            ReadyChannel::Fd(fd) => "--ready-fd"@,
            ReadyChannel::Event(name) => "--ready-event"@,
        }
    }

    /// The value of that option.
    pub open spec fn value(self) -> Seq<char> {
        match self {
            ReadyChannel::Fd(fd) => text::signed_decimal(fd as int),
            ReadyChannel::Event(name) => name@,
        }
    }
}

/// The arguments that a sidecar is run with.
pub open spec fn arguments(
    environment_name: Seq<char>,
    env_dir: Seq<u8>,
    pid_path: Seq<u8>,
    channel: ReadyChannel,
) -> Seq<Seq<char>> {
    seq![
        "mount"@,
        "--managed"@,
        "-e"@,
        environment_name,
        "--mount-point"@,
        path::displayed(env_dir),
        "--pidfile"@,
        path::displayed(pid_path),
        channel.option(),
        channel.value(),
    ]
}

/// Puts together the arguments that a sidecar is run with.
pub fn sidecar_arguments(
    environment_name: &str,
    env_dir: &[u8],
    pid_path: &[u8],
    channel: &ReadyChannel,
) -> (args: Vec<String>)
    ensures
        text::texts(args@) == arguments(environment_name@, env_dir@, pid_path@, *channel),
{
    let mut args: Vec<String> = Vec::new();
    args.push(String::from_str("mount"));
    args.push(String::from_str("--managed"));
    args.push(String::from_str("-e"));
    args.push(String::from_str(environment_name));
    args.push(String::from_str("--mount-point"));
    args.push(display_text(env_dir));
    args.push(String::from_str("--pidfile"));
    args.push(display_text(pid_path));
    match channel {
        ReadyChannel::Fd(fd) => {
            args.push(String::from_str("--ready-fd"));
            args.push(signed_decimal_text(*fd));
        },
        ReadyChannel::Event(name) => {
            args.push(String::from_str("--ready-event"));
            args.push(name.clone());
        },
    }
    assert(text::texts(args@) =~= arguments(environment_name@, env_dir@, pid_path@, *channel));
    args
}

/// Where a standard stream of a process leads.
#[derive(Clone, Copy, Debug, PartialEq, Eq, Structural)]
pub enum Stream {
    /// Nowhere.
    Null,
    /// Where the one of the process that starts it leads.
    Inherited,
}

/// How a sidecar is run.
#[derive(Debug, PartialEq, Eq)]
pub struct SidecarCommand {
    /// The executable.
    pub program: Vec<u8>,
    /// Its arguments.
    pub args: Vec<String>,
    /// The directory that it is run in.
    pub directory: Vec<u8>,
    /// Its standard input.
    pub stdin: Stream,
    /// Its standard output.
    pub stdout: Stream,
    /// Its standard error.
    pub stderr: Stream,
    /// The file descriptor that stays open in it, besides the standard streams.
    pub inherited_fd: Option<i32>,
}

/// Whether a command runs `executable` in `workspace_root` as the sidecar of an environment, with
/// nothing of its starter but standard error and the end of the pipe that it reports through.
pub open spec fn runs_sidecar(
    command: SidecarCommand,
    executable: Seq<u8>,
    workspace_root: Seq<u8>,
    environment_name: Seq<char>,
    env_dir: Seq<u8>,
    pid_path: Seq<u8>,
    channel: ReadyChannel,
) -> bool {
    &&& command.program@ == executable
    &&& text::texts(command.args@) == arguments(environment_name, env_dir, pid_path, channel)
    &&& command.directory@ == workspace_root
    &&& command.stdin is Null
    &&& command.stdout is Null
    &&& command.stderr is Inherited
    &&& match channel {
        ReadyChannel::Fd(fd) => command.inherited_fd == Some(fd),
        ReadyChannel::Event(name) => command.inherited_fd is None,
    }
}

/// Plans how a sidecar is run: the executable of this program, in the root of the workspace, with
/// no stream of its starter but standard error, and with the end of the pipe that it reports
/// through.
pub fn sidecar_command(
    executable: Vec<u8>,
    workspace_root: Vec<u8>,
    environment_name: &str,
    env_dir: &[u8],
    pid_path: &[u8],
    channel: &ReadyChannel,
) -> (command: SidecarCommand)
    ensures
        command.program == executable,
        text::texts(command.args@) == arguments(environment_name@, env_dir@, pid_path@, *channel),
        command.directory == workspace_root,
        command.stdin == Stream::Null,
        command.stdout == Stream::Null,
        command.stderr == Stream::Inherited,
        command.inherited_fd == (match *channel {
            ReadyChannel::Fd(fd) => Some(fd),
            ReadyChannel::Event(name) => None,
        }),
        runs_sidecar(
            command,
            executable@,
            workspace_root@,
            environment_name@,
            env_dir@,
            pid_path@,
            *channel,
        ),
{
    let args = sidecar_arguments(environment_name, env_dir, pid_path, channel);
    let inherited_fd = match channel {
        ReadyChannel::Fd(fd) => Some(*fd),
        ReadyChannel::Event(_) => None,
    };
    SidecarCommand {
        program: executable,
        args,
        directory: workspace_root,
        stdin: Stream::Null,
        stdout: Stream::Null,
        stderr: Stream::Inherited,
        inherited_fd,
    }
}

/// The name of the event by which a sidecar that process `pid` starts reports. `hash` tells apart
/// the environments for which that process waits.
pub open spec fn event_name_of(pid: nat, hash: nat) -> Seq<char> {
    "Local\\pixi-mount-ready-"@ + text::decimal(pid) + "-"@ + text::numeral(hash, 16)
}

/// Names the event by which a sidecar reports that it is ready.
pub fn event_name(pid: u32, hash: u64) -> (name: String)
    ensures
        name@ == event_name_of(pid as nat, hash as nat),
{
    let decimal = numeral_text(pid as u64, 10);
    let hex = numeral_text(hash, 16);
    let mut name = concat3("Local\\pixi-mount-ready-", decimal.as_str(), "-");
    name.append(hex.as_str());
    name
}

/// Feeds a path to a hasher, by the `Hash` of `std::path::Path`.
///
/// Trusted: nothing is claimed of what the hasher has been fed. It goes by the components of the
/// path as the operating system tells them apart, so that it is not the same on every machine.
#[verifier::external_body]
fn feed_path(path: &str, hasher: &mut DefaultHasher) {
    std::path::Path::new(path).hash(hasher)
}

/// Names the event by which the sidecar of the environment at `env_dir` reports to process `pid`.
///
/// The name is that of [`event_name`] for the hash of the path. Which hash a path has is not
/// stated: it depends on the operating system and on the standard library.
pub fn ready_event_name(pid: u32, env_dir: &[u8]) -> (name: String)
    ensures
        exists|hash: u64| name@ == #[trigger] event_name_of(pid as nat, hash as nat),
{
    let mut hasher = DefaultHasher::new();
    feed_path(display_text(env_dir).as_str(), &mut hasher);
    event_name(pid, hasher.finish())
}

// ---------------------------------------------------------------------------
// Waiting
// ---------------------------------------------------------------------------

/// Why a sidecar could not be started.
#[derive(Debug, PartialEq, Eq)]
pub enum StartError {
    /// The pipe could not be created.
    CreatePipe(String),
    /// The event could not be created.
    CreateEvent(String),
    /// This program could not be found.
    Executable(String),
    /// The process could not be started.
    Spawn(String),
    /// The sidecar wrote something else than that it is ready, or closed the pipe unsaid.
    Reported(String),
    /// The pipe could not be read.
    Read(String),
    /// The task that reads the pipe broke off.
    ReadTask(String),
    /// The task that waits for the event broke off.
    WaitTask(String),
    /// The sidecar did not report in time.
    TimedOut,
    /// The event was abandoned.
    Abandoned,
    /// Waiting for the event ended with a status that is not expected.
    UnexpectedStatus(u32),
}

impl StartError {
    /// The words of the error.
    pub open spec fn words(self) -> Seq<char> {
        match self {
            StartError::CreatePipe(text) => "failed to create pipe: "@ + text@,
            StartError::CreateEvent(text) => "failed to create readiness event: "@ + text@,
            StartError::Executable(text) => text@,
            StartError::Spawn(text) => text@,
            StartError::Reported(line) => "sidecar reported error: "@ + text::trim(line@),
            StartError::Read(text) => "failed to read from sidecar pipe: "@ + text@,
            StartError::ReadTask(text) => "sidecar readiness task failed: "@ + text@,
            StartError::WaitTask(text) => text@,
            StartError::TimedOut => "timed out waiting for mount sidecar to become ready"@,
            StartError::Abandoned =>
                "sidecar readiness event was abandoned (sidecar may have crashed)"@,
            StartError::UnexpectedStatus(status) =>
                "WaitForSingleObject returned unexpected status: 0x"@ + text::zero_padded(
                text::numeral(status as nat, 16),
                8,
            ),
        }
    }

    /// Words the error for a user.
    pub fn message(&self) -> (message: String)
        ensures
            message@ == self.words(),
    {
        match self {
            StartError::CreatePipe(text) => concat2("failed to create pipe: ", text.as_str()),
            StartError::CreateEvent(text) => concat2(
                "failed to create readiness event: ",
                text.as_str(),
            ),
            StartError::Executable(text) => text.clone(),
            StartError::Spawn(text) => text.clone(),
            StartError::Reported(line) => concat2(
                "sidecar reported error: ",
                trim_text(line.as_str()),
            ),
            StartError::Read(text) => concat2("failed to read from sidecar pipe: ", text.as_str()),
            StartError::ReadTask(text) => concat2("sidecar readiness task failed: ", text.as_str()),
            StartError::WaitTask(text) => text.clone(),
            StartError::TimedOut => String::from_str(
                "timed out waiting for mount sidecar to become ready",
            ),
            StartError::Abandoned => String::from_str(
                "sidecar readiness event was abandoned (sidecar may have crashed)",
            ),
            StartError::UnexpectedStatus(status) => {
                let digits = hex8_text(*status);
                concat2(
                    "WaitForSingleObject returned unexpected status: 0x",
                    digits.as_str(),
                )
            },
        }
    }
}

/// The status of a wait that ended because the event was signalled.
pub const WAIT_OBJECT_0: u32 = 0;

/// The status of a wait that ended because the event was abandoned.
pub const WAIT_ABANDONED: u32 = 128;

/// The status of a wait that took too long.
pub const WAIT_TIMEOUT: u32 = 258;

/// What came of waiting for a sidecar to become ready.
#[derive(Debug, PartialEq, Eq)]
pub enum Readiness {
    /// This line was read from the pipe; it is empty if the pipe was closed before.
    Line(String),
    /// The pipe could not be read.
    ReadFailed(String),
    /// The task that read the pipe, or waited for the event, broke off.
    TaskFailed(String),
    /// The time for reading the pipe was up.
    TimedOut,
    /// Waiting for the event ended with this status.
    WaitStatus(u32),
}

/// What has to be done next to start a sidecar.
#[derive(Debug, PartialEq, Eq)]
pub enum StartStep {
    /// Create the channel by which the sidecar reports.
    CreateChannel,
    /// Find the executable of this program.
    FindExecutable,
    /// Run it as a detached process, with the channel open to it.
    Spawn,
    /// Close the end of the pipe that belongs to the sidecar.
    CloseWriteEnd,
    /// Wait for the sidecar to report, for [`READY_TIMEOUT_SECONDS`] at most.
    AwaitReady,
    /// Kill the sidecar, which is given up for this reason.
    KillChild(StartError),
    /// Nothing: the sidecar is ready.
    Ready,
    /// Nothing: the sidecar could not be started.
    Failed(StartError),
}

/// Sets out to start a sidecar.
pub fn start_sidecar() -> (step: StartStep)
    ensures
        step == StartStep::CreateChannel,
{
    StartStep::CreateChannel
}

impl StartStep {
    /// What is to be done after `reply`. A reply that does not answer what was asked for changes
    /// nothing.
    pub open spec fn after(self, family: Family, reply: Reply) -> StartStep {
        match (self, reply) {
            (StartStep::CreateChannel, Reply::Done) => StartStep::FindExecutable,
            (StartStep::CreateChannel, Reply::Failed { code, text }) => StartStep::Failed(
                match family {
                    Family::Unix => StartError::CreatePipe(text),
                    Family::Windows => StartError::CreateEvent(text),
                },
            ),
            (StartStep::FindExecutable, Reply::Done) => StartStep::Spawn,
            (StartStep::FindExecutable, Reply::Failed { code, text }) => StartStep::Failed(
                StartError::Executable(text),
            ),
            (StartStep::Spawn, Reply::Done) => match family {
                Family::Unix => StartStep::CloseWriteEnd,
                Family::Windows => StartStep::AwaitReady,
            },
            (StartStep::Spawn, Reply::Failed { code, text }) => StartStep::Failed(
                StartError::Spawn(text),
            ),
            (StartStep::CloseWriteEnd, Reply::Done) => StartStep::AwaitReady,
            (StartStep::CloseWriteEnd, Reply::Failed { code, text }) => StartStep::AwaitReady,
            (StartStep::KillChild(error), Reply::Done) => StartStep::Failed(error),
            (StartStep::KillChild(error), Reply::Failed { code, text }) => StartStep::Failed(error),
            (step, _) => step,
        }
    }

    /// What is to be done once waiting for the sidecar has come to an end.
    pub open spec fn after_wait(family: Family, readiness: Readiness) -> StartStep {
        match readiness {
            Readiness::Line(line) => if text::has_prefix(line@, "ready"@) {
                StartStep::Ready
            } else {
                StartStep::Failed(StartError::Reported(line))
            },
            Readiness::ReadFailed(text) => StartStep::Failed(StartError::Read(text)),
            Readiness::TaskFailed(text) => StartStep::Failed(
                match family {
                    Family::Unix => StartError::ReadTask(text),
                    Family::Windows => StartError::WaitTask(text),
                },
            ),
            Readiness::TimedOut => StartStep::KillChild(StartError::TimedOut),
            Readiness::WaitStatus(status) => if status == WAIT_OBJECT_0 {
                StartStep::Ready
            } else if status == WAIT_TIMEOUT {
                StartStep::KillChild(StartError::TimedOut)
            } else if status == WAIT_ABANDONED {
                StartStep::KillChild(StartError::Abandoned)
            } else {
                StartStep::KillChild(StartError::UnexpectedStatus(status))
            },
        }
    }

    /// Takes note of what came of the step that was asked for.
    pub fn next(self, family: Family, reply: Reply) -> (step: StartStep)
        ensures
            step == self.after(family, reply),
    {
        match (self, reply) {
            (StartStep::CreateChannel, Reply::Done) => StartStep::FindExecutable,
            (StartStep::CreateChannel, Reply::Failed { text, .. }) => match family {
                Family::Unix => StartStep::Failed(StartError::CreatePipe(text)),
                Family::Windows => StartStep::Failed(StartError::CreateEvent(text)),
            },
            (StartStep::FindExecutable, Reply::Done) => StartStep::Spawn,
            (StartStep::FindExecutable, Reply::Failed { text, .. }) => StartStep::Failed(
                StartError::Executable(text),
            ),
            (StartStep::Spawn, Reply::Done) => match family {
                Family::Unix => StartStep::CloseWriteEnd,
                Family::Windows => StartStep::AwaitReady,
            },
            (StartStep::Spawn, Reply::Failed { text, .. }) => StartStep::Failed(
                StartError::Spawn(text),
            ),
            (StartStep::CloseWriteEnd, Reply::Done) => StartStep::AwaitReady,
            (StartStep::CloseWriteEnd, Reply::Failed { .. }) => StartStep::AwaitReady,
            (StartStep::KillChild(error), Reply::Done) => StartStep::Failed(error),
            (StartStep::KillChild(error), Reply::Failed { .. }) => StartStep::Failed(error),
            (step, _) => step,
        }
    }

    /// Takes note of what came of waiting for the sidecar.
    pub fn waited(self, family: Family, readiness: Readiness) -> (step: StartStep)
        ensures
            self is AwaitReady ==> step == StartStep::after_wait(family, readiness),
            !(self is AwaitReady) ==> step == self,
    {
        match self {
            StartStep::AwaitReady => match readiness {
                Readiness::Line(line) => if starts_with(line.as_str(), "ready") {
                    StartStep::Ready
                } else {
                    StartStep::Failed(StartError::Reported(line))
                },
                Readiness::ReadFailed(text) => StartStep::Failed(StartError::Read(text)),
                Readiness::TaskFailed(text) => match family {
                    Family::Unix => StartStep::Failed(StartError::ReadTask(text)),
                    Family::Windows => StartStep::Failed(StartError::WaitTask(text)),
                },
                Readiness::TimedOut => StartStep::KillChild(StartError::TimedOut),
                Readiness::WaitStatus(status) => if status == WAIT_OBJECT_0 {
                    StartStep::Ready
                } else if status == WAIT_TIMEOUT {
                    StartStep::KillChild(StartError::TimedOut)
                } else if status == WAIT_ABANDONED {
                    StartStep::KillChild(StartError::Abandoned)
                } else {
                    StartStep::KillChild(StartError::UnexpectedStatus(status))
                },
            },
            step => step,
        }
    }
}

// ---------------------------------------------------------------------------
// Laws
// ---------------------------------------------------------------------------

/// A sidecar is told, in its arguments, of the very mount point and pid file that its starter looks
/// at, if these are valid UTF-8; so both derive the same lock file from the mount point.
pub proof fn law_a_sidecar_is_told_of_the_files_of_its_starter(
    environment_name: Seq<char>,
    env_dir: Seq<u8>,
    pid_path: Seq<u8>,
    channel: ReadyChannel,
)
    requires
        vstd::utf8::valid_utf8(env_dir),
        vstd::utf8::valid_utf8(pid_path),
    ensures
        ({
            let args = arguments(environment_name, env_dir, pid_path, channel);
            let mount_point = vstd::utf8::encode_utf8(args[5]);
            &&& args[3] == environment_name
            &&& mount_point == env_dir
            &&& coordination::sibling(mount_point, coordination::LOCK_FILENAME@)
                == coordination::sibling(env_dir, coordination::LOCK_FILENAME@)
            &&& vstd::utf8::encode_utf8(args[7]) == pid_path
        }),
{
    vstd::utf8::decode_utf8_encode_utf8(env_dir);
    vstd::utf8::decode_utf8_encode_utf8(pid_path);
}

/// What is heard while a sidecar is started.
pub enum StartEvent {
    /// What came of a step.
    Replied(Reply),
    /// What came of waiting for the sidecar.
    Waited(Readiness),
}

/// What has to be done after the events `events`, from the start.
pub open spec fn start_after(family: Family, events: Seq<StartEvent>) -> StartStep
    decreases events.len(),
{
    if events.len() == 0 {
        StartStep::CreateChannel
    } else {
        let before = start_after(family, events.drop_last());
        match events.last() {
            StartEvent::Replied(reply) => before.after(family, reply),
            StartEvent::Waited(readiness) => if before is AwaitReady {
                StartStep::after_wait(family, readiness)
            } else {
                before
            },
        }
    }
}

/// How often, in the events `events`, the step `step` was done.
pub open spec fn times_done(family: Family, events: Seq<StartEvent>, step: StartStep) -> nat
    decreases events.len(),
{
    if events.len() == 0 {
        0
    } else {
        let before = times_done(family, events.drop_last(), step);
        if start_after(family, events.drop_last()) == step && events.last()
            == StartEvent::Replied(Reply::Done) {
            before + 1
        } else {
            before
        }
    }
}

/// Whether what came of waiting says that the sidecar is ready: the line that was read says so, or
/// the event was signalled.
pub open spec fn says_ready(readiness: Readiness) -> bool {
    match readiness {
        Readiness::Line(line) => text::has_prefix(line@, "ready"@),
        Readiness::WaitStatus(status) => status == WAIT_OBJECT_0,
        _ => false,
    }
}

/// Whether, in the events `events`, waiting for the sidecar ended with the report that it is ready.
pub open spec fn reported_ready(family: Family, events: Seq<StartEvent>) -> bool
    decreases events.len(),
{
    events.len() > 0 && (reported_ready(family, events.drop_last()) || (start_after(
        family,
        events.drop_last(),
    ) is AwaitReady && match events.last() {
        StartEvent::Waited(readiness) => says_ready(readiness),
        StartEvent::Replied(_) => false,
    }))
}

/// A sidecar is ready only if the channel was made, the program found, one process started, and
/// that process reported that it is ready; and each step is taken only after those before it. No
/// more than one process is started, whatever happens, and only a process that was started is
/// killed.
pub proof fn law_ready_means_started_and_reported(family: Family, events: Seq<StartEvent>)
    ensures
        match start_after(family, events) {
            StartStep::CreateChannel => times_done(family, events, StartStep::Spawn) == 0,
            StartStep::FindExecutable => {
                &&& times_done(family, events, StartStep::CreateChannel) == 1
                &&& times_done(family, events, StartStep::Spawn) == 0
            },
            StartStep::Spawn => {
                &&& times_done(family, events, StartStep::CreateChannel) == 1
                &&& times_done(family, events, StartStep::FindExecutable) == 1
                &&& times_done(family, events, StartStep::Spawn) == 0
            },
            StartStep::Failed(_) => times_done(family, events, StartStep::Spawn) <= 1,
            _ => {
                &&& times_done(family, events, StartStep::CreateChannel) == 1
                &&& times_done(family, events, StartStep::FindExecutable) == 1
                &&& times_done(family, events, StartStep::Spawn) == 1
            },
        },
        start_after(family, events) is Ready <==> reported_ready(family, events),
        start_after(family, events) is CreateChannel ==> times_done(
            family,
            events,
            StartStep::CreateChannel,
        ) == 0,
        start_after(family, events) is CreateChannel || start_after(
            family,
            events,
        ) is FindExecutable ==> times_done(family, events, StartStep::FindExecutable) == 0,
    decreases events.len(),
{
    if events.len() > 0 {
        law_ready_means_started_and_reported(family, events.drop_last());
    }
}

/// A line that starts with what a sidecar writes when it is ready is taken to mean that it is.
pub proof fn law_the_ready_line_is_understood(family: Family, line: String)
    requires
        text::has_prefix(line@, READY_LINE@),
    ensures
        StartStep::after_wait(family, Readiness::Line(line)) is Ready,
{
    reveal_strlit("ready");
    reveal_strlit("ready\n");
    assert(line@.take(5) =~= line@.take(6).take(5));
    assert(READY_LINE@.take(5) =~= "ready"@);
}

/// Whether a sidecar that did not become ready is killed: it is if waiting for it took too long or
/// ended in a way that says nothing of it, and it is left alone if it said itself that it failed
/// or if the waiting broke off.
pub proof fn law_a_sidecar_that_stays_silent_is_killed(family: Family, readiness: Readiness)
    ensures
        StartStep::after_wait(family, readiness) is KillChild <==> (readiness is TimedOut || (
        readiness matches Readiness::WaitStatus(status) && status != WAIT_OBJECT_0)),
        StartStep::after_wait(family, readiness) matches StartStep::KillChild(error) ==> (
        StartStep::after_wait(family, readiness).after(family, Reply::Done) == StartStep::Failed(
            error,
        )),
{
}

/// A digit tells which number it stands for.
proof fn lemma_digits_are_unique(a: nat, b: nat)
    requires
        a < 16,
        b < 16,
        text::digit_char(a) == text::digit_char(b),
    ensures
        a == b,
{
    assert(text::digit_char(a) as int == if a < 10 { 48 + a } else { 87 + a });
    assert(text::digit_char(b) as int == if b < 10 { 48 + b } else { 87 + b });
}

/// The numeral of a number tells which number it is.
proof fn lemma_numerals_are_unique(a: nat, b: nat, base: nat)
    requires
        2 <= base <= 16,
        text::numeral(a, base) == text::numeral(b, base),
    ensures
        a == b,
    decreases a,
{
    let s = text::numeral(a, base);
    let t = text::numeral(b, base);
    if a < base && b < base {
        assert(s[0] == t[0]);
        lemma_digits_are_unique(a, b);
    } else if a < base {
        lemma_numeral_len(b / base, base);
        assert(s.len() != t.len());
    } else if b < base {
        lemma_numeral_len(a / base, base);
        assert(s.len() != t.len());
    } else {
        let m = a / base;
        let n = b / base;
        let i = a % base;
        let j = b % base;
        assert(m < a && i < base && a == base * m + i) by (nonlinear_arith)
            requires
                2 <= base <= a,
                m == a / base,
                i == a % base,
        ;
        assert(j < base && b == base * n + j) by (nonlinear_arith)
            requires
                2 <= base <= b,
                n == b / base,
                j == b % base,
        ;
        assert(s.drop_last() =~= text::numeral(m, base));
        assert(t.drop_last() =~= text::numeral(n, base));
        lemma_numerals_are_unique(m, n, base);
        assert(s.last() == text::digit_char(i));
        assert(t.last() == text::digit_char(j));
        lemma_digits_are_unique(i, j);
    }
}

/// A numeral has at least one digit, and no character of it is a hyphen.
proof fn lemma_numeral_len(n: nat, base: nat)
    requires
        2 <= base <= 16,
    ensures
        text::numeral(n, base).len() > 0,
        forall|i: int| 0 <= i < text::numeral(n, base).len() ==> text::numeral(n, base)[i] != '-',
    decreases n,
{
    if n >= base {
        assert(n / base < n) by (nonlinear_arith)
            requires
                2 <= base <= n,
        ;
        assert(n % base < base) by (nonlinear_arith)
            requires
                2 <= base,
        ;
        lemma_numeral_len(n / base, base);
    }
}

/// Different processes, and different hashes of environments within one process, wait for
/// different events.
pub proof fn law_event_names_do_not_collide(pid_a: nat, hash_a: nat, pid_b: nat, hash_b: nat)
    requires
        event_name_of(pid_a, hash_a) == event_name_of(pid_b, hash_b),
    ensures
        pid_a == pid_b,
        hash_a == hash_b,
{
    reveal_strlit("-");
    let prefix = "Local\\pixi-mount-ready-"@;
    let a = text::decimal(pid_a);
    let b = text::decimal(pid_b);
    let x = text::numeral(hash_a, 16);
    let y = text::numeral(hash_b, 16);
    let left = event_name_of(pid_a, hash_a);
    let right = event_name_of(pid_b, hash_b);
    lemma_numeral_len(pid_a, 10);
    lemma_numeral_len(pid_b, 10);
    let n = prefix.len() as int;
    assert(forall|i: int| 0 <= i < a.len() ==> left[n + i] == a[i]);
    assert(forall|i: int| 0 <= i < b.len() ==> right[n + i] == b[i]);
    assert(left[n + a.len()] == '-');
    assert(right[n + b.len()] == '-');
    if a.len() < b.len() {
        assert(right[n + a.len()] == b[a.len() as int]);
    }
    if b.len() < a.len() {
        assert(left[n + b.len()] == a[b.len() as int]);
    }
    assert(a =~= b) by {
        assert forall|i: int| 0 <= i < a.len() implies a[i] == b[i] by {
            assert(left[n + i] == right[n + i]);
        }
    }
    let m = n + a.len() + 1;
    assert(x =~= left.skip(m));
    assert(y =~= right.skip(m));
    lemma_numerals_are_unique(pid_a, pid_b, 10);
    lemma_numerals_are_unique(hash_a, hash_b, 16);
}

// ---------------------------------------------------------------------------
// Laws of the command line
// ---------------------------------------------------------------------------

/// A sidecar is run by the very program, in the very directory and for the very environment that it
/// is started for; it is told its mount point, its pid file and its channel as they are, whatever
/// they are. The pipe that it reports through is the one that stays open in it.
pub proof fn law_a_sidecar_is_run_for_its_environment(
    command: SidecarCommand,
    executable: Seq<u8>,
    workspace_root: Seq<u8>,
    environment_name: Seq<char>,
    env_dir: Seq<u8>,
    pid_path: Seq<u8>,
    channel: ReadyChannel,
)
    requires
        runs_sidecar(
            command,
            executable,
            workspace_root,
            environment_name,
            env_dir,
            pid_path,
            channel,
        ),
    ensures
        command.program@ == executable,
        command.directory@ == workspace_root,
        command.stdin is Null && command.stdout is Null && command.stderr is Inherited,
        command.args@.len() == 10,
        command.args@[0]@ == "mount"@,
        command.args@[1]@ == "--managed"@,
        command.args@[2]@ == "-e"@,
        command.args@[3]@ == environment_name,
        command.args@[4]@ == "--mount-point"@,
        command.args@[5]@ == path::displayed(env_dir),
        command.args@[6]@ == "--pidfile"@,
        command.args@[7]@ == path::displayed(pid_path),
        channel matches ReadyChannel::Fd(fd) ==> {
            &&& command.args@[8]@ == "--ready-fd"@
            &&& fd >= 0 ==> text::value_in(command.args@[9]@, 10) == fd
            &&& fd < 0 ==> command.args@[9]@[0] == '-' && text::value_in(
                command.args@[9]@.skip(1),
                10,
            ) == -fd
            &&& command.inherited_fd == Some(fd)
        },
        channel matches ReadyChannel::Event(name) ==> {
            &&& command.args@[8]@ == "--ready-event"@
            &&& command.args@[9]@ == name@
            &&& command.inherited_fd is None
        },
{
    let expected = arguments(environment_name, env_dir, pid_path, channel);
    text::law_texts_are_those_of_the_members(command.args@);
    assert(expected.len() == 10);
    assert forall|i: int| 0 <= i < 10 implies #[trigger] command.args@[i]@ == expected[i] by {
        assert(text::texts(command.args@)[i] == command.args@[i]@);
    }
    if let ReadyChannel::Fd(fd) = channel {
        if fd >= 0 {
            text::law_a_numeral_denotes_its_number(fd as nat, 10);
            text::law_a_minus_sign_stands_before_a_negative_number(fd as nat);
        } else {
            let magnitude = (-fd) as nat;
            text::law_a_numeral_denotes_its_number(magnitude, 10);
            text::law_a_minus_sign_stands_before_a_negative_number(magnitude);
            assert(command.args@[9]@.skip(1) =~= text::decimal(magnitude));
        }
    }
}

/// An event is named by the process that waits for it, in decimal, and by a hash, in hexadecimal:
/// both numbers can be read from the name, whatever they are.
pub proof fn law_an_event_name_holds_its_numbers(pid: nat, hash: nat)
    ensures
        ({
            let name = event_name_of(pid, hash);
            let digits = text::decimal(pid);
            &&& name.take(23) == "Local\\pixi-mount-ready-"@
            &&& name.subrange(23, 23int + digits.len()) == digits
            &&& text::value_in(digits, 10) == pid
            &&& name[23int + digits.len()] == '-'
            &&& text::value_in(name.skip(24int + digits.len()), 16) == hash
            &&& name.skip(24int + digits.len())[0] == '0' ==> hash == 0
        }),
{
    reveal_strlit("Local\\pixi-mount-ready-");
    reveal_strlit("-");
    let name = event_name_of(pid, hash);
    let digits = text::decimal(pid);
    text::law_a_numeral_denotes_its_number(pid, 10);
    text::law_a_numeral_denotes_its_number(hash, 16);
    assert(name.take(23) =~= "Local\\pixi-mount-ready-"@);
    assert(name.subrange(23, 23int + digits.len()) =~= digits);
    assert(name.skip(24int + digits.len()) =~= text::numeral(hash, 16));
}

// ---------------------------------------------------------------------------
// Laws of the course
// ---------------------------------------------------------------------------

/// One more event takes a start one step on.
proof fn lemma_one_more_event(family: Family, events: Seq<StartEvent>, event: StartEvent)
    ensures
        start_after(family, events.push(event)) == match event {
            StartEvent::Replied(reply) => start_after(family, events).after(family, reply),
            StartEvent::Waited(readiness) => if start_after(family, events) is AwaitReady {
                StartStep::after_wait(family, readiness)
            } else {
                start_after(family, events)
            },
        },
{
    assert(events.push(event).drop_last() =~= events);
}

/// Whether a start has failed, with an error of these words.
pub open spec fn failed_saying(step: StartStep, words: Seq<char>) -> bool {
    step matches StartStep::Failed(error) && error.words() == words
}

/// Whether a start is given up, for a reason of these words, and the sidecar is killed first.
pub open spec fn killed_saying(step: StartStep, words: Seq<char>) -> bool {
    step matches StartStep::KillChild(error) && error.words() == words
}

/// What a start goes through until it waits for the sidecar, in this order.
pub open spec fn stages(family: Family) -> Seq<StartStep> {
    seq![StartStep::CreateChannel, StartStep::FindExecutable, StartStep::Spawn] + (
    if family is Unix {
        seq![StartStep::CloseWriteEnd]
    } else {
        seq![]
    }) + seq![StartStep::AwaitReady]
}

/// A start goes through its stages one by one: what is done leads to the next stage, and what fails
/// ends the start with its reason, but for closing the own end of the pipe, whose failure changes
/// nothing. What does not answer changes nothing, and the end of a start is final.
pub proof fn law_a_start_goes_through_its_stages(
    family: Family,
    events: Seq<StartEvent>,
    reply: Reply,
)
    ensures
        start_after(family, Seq::empty()) == stages(family)[0],
        ({
            let step = start_after(family, events);
            let next = start_after(family, events.push(StartEvent::Replied(reply)));
            &&& forall|i: int|
                0 <= i < stages(family).len() - 1 && step == #[trigger] stages(family)[i]
                    ==> match reply {
                    Reply::Done => next == stages(family)[i + 1],
                    Reply::Failed { code, text } => match step {
                        StartStep::CreateChannel => failed_saying(
                            next,
                            if family is Unix {
                                "failed to create pipe: "@ + text@
                            } else {
                                "failed to create readiness event: "@ + text@
                            },
                        ),
                        StartStep::CloseWriteEnd => next == stages(family)[i + 1],
                        _ => failed_saying(next, text@),
                    },
                    _ => next == step,
                }
            &&& step is AwaitReady || step is Ready || step is Failed ==> next == step
            &&& step matches StartStep::KillChild(error) ==> if reply is Done || reply is Failed {
                next == StartStep::Failed(error)
            } else {
                next == step
            }
        }),
{
    lemma_one_more_event(family, events, StartEvent::Replied(reply));
}

/// A sidecar is ready if and only if the line that it writes begins with the word, whatever else it
/// writes and on whatever system; any other line is reported as its error, without the white space
/// around it.
pub proof fn law_a_sidecar_is_ready_if_it_says_so(
    family: Family,
    events: Seq<StartEvent>,
    line: String,
)
    requires
        start_after(family, events) is AwaitReady,
    ensures
        ({
            let next = start_after(family, events.push(StartEvent::Waited(Readiness::Line(line))));
            let says = line@.len() >= 5 && line@[0] == 'r' && line@[1] == 'e' && line@[2] == 'a'
                && line@[3] == 'd' && line@[4] == 'y';
            if says {
                next is Ready
            } else {
                failed_saying(next, "sidecar reported error: "@ + text::trim(line@))
            }
        }),
{
    reveal_strlit("ready");
    lemma_one_more_event(family, events, StartEvent::Waited(Readiness::Line(line)));
    let says = line@.len() >= 5 && line@[0] == 'r' && line@[1] == 'e' && line@[2] == 'a'
        && line@[3] == 'd' && line@[4] == 'y';
    if says {
        assert(line@.take(5) =~= "ready"@);
    } else if line@.len() >= 5 {
        assert(line@.take(5)[0] == line@[0] && line@.take(5)[1] == line@[1] && line@.take(5)[2]
            == line@[2] && line@.take(5)[3] == line@[3] && line@.take(5)[4] == line@[4]);
    }
}

/// A sidecar that signals its event is ready. Waiting that ends with any other status gives it up
/// and kills it, and so does waiting that takes too long; the error says which it was, and tells
/// the status if it is none of those that are expected. Waiting that breaks off ends the start with
/// its reason.
pub proof fn law_what_waiting_comes_to(
    family: Family,
    events: Seq<StartEvent>,
    status: u32,
    text: String,
)
    requires
        start_after(family, events) is AwaitReady,
    ensures
        ({
            let signalled = start_after(
                family,
                events.push(StartEvent::Waited(Readiness::WaitStatus(status))),
            );
            let late = start_after(family, events.push(StartEvent::Waited(Readiness::TimedOut)));
            let unread = start_after(
                family,
                events.push(StartEvent::Waited(Readiness::ReadFailed(text))),
            );
            let broken = start_after(
                family,
                events.push(StartEvent::Waited(Readiness::TaskFailed(text))),
            );
            &&& killed_saying(late, "timed out waiting for mount sidecar to become ready"@)
            &&& failed_saying(unread, "failed to read from sidecar pipe: "@ + text@)
            &&& failed_saying(
                broken,
                if family is Unix {
                    "sidecar readiness task failed: "@ + text@
                } else {
                    text@
                },
            )
            &&& if status == 0 {
                signalled is Ready
            } else if status == 258 {
                signalled == late
            } else if status == 128 {
                killed_saying(
                    signalled,
                    "sidecar readiness event was abandoned (sidecar may have crashed)"@,
                )
            } else {
                signalled == StartStep::KillChild(StartError::UnexpectedStatus(status))
            }
        }),
{
    lemma_one_more_event(family, events, StartEvent::Waited(Readiness::WaitStatus(status)));
    lemma_one_more_event(family, events, StartEvent::Waited(Readiness::TimedOut));
    lemma_one_more_event(family, events, StartEvent::Waited(Readiness::ReadFailed(text)));
    lemma_one_more_event(family, events, StartEvent::Waited(Readiness::TaskFailed(text)));
}

/// What is heard of waiting is heeded only while the sidecar is waited for.
pub proof fn law_waiting_is_heeded_in_its_place(
    family: Family,
    events: Seq<StartEvent>,
    readiness: Readiness,
)
    ensures
        !(start_after(family, events) is AwaitReady) ==> start_after(
            family,
            events.push(StartEvent::Waited(readiness)),
        ) == start_after(family, events),
{
    lemma_one_more_event(family, events, StartEvent::Waited(readiness));
}

/// An unexpected status is told in hexadecimal, with eight digits, from which it can be read.
pub proof fn law_an_unexpected_status_is_told(status: u32)
    ensures
        ({
            let words = StartError::UnexpectedStatus(status).words();
            let digits = words.skip(50);
            &&& words.take(50) == "WaitForSingleObject returned unexpected status: 0x"@
            &&& digits.len() >= 8
            &&& text::value_in(digits, 16) == status
            &&& digits.len() > 8 ==> digits[0] != '0'
        }),
{
    reveal_strlit("WaitForSingleObject returned unexpected status: 0x");
    let words = StartError::UnexpectedStatus(status).words();
    let own = text::numeral(status as nat, 16);
    let digits = text::zero_padded(own, 8);
    text::law_a_numeral_denotes_its_number(status as nat, 16);
    text::law_padding_puts_zeros_in_front(own, 8);
    assert(words.take(50) =~= "WaitForSingleObject returned unexpected status: 0x"@);
    assert(words.skip(50) =~= digits);
    let zeros = (digits.len() - own.len()) as nat;
    assert(digits =~= Seq::new(zeros, |i: int| '0') + own);
    text::lemma_zeros_keep_the_value(zeros, own, 16);
}

} // verus!
