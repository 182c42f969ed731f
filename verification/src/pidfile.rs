//! The file in which a sidecar records its process id.
//!
//! The sidecar writes its id as one line of decimal digits. Whoever wants to know whether the
//! sidecar is alive reads that line back and asks the operating system about the process.

use vstd::prelude::*;

use crate::text;
use crate::text::{numeral_text, parse_number};

verus! {

/// The two families of operating systems that a mount is coordinated on.
#[derive(Clone, Copy, Debug, PartialEq, Eq, Structural)]
pub enum Family {
    /// Locks with `flock`, signals with `kill`, process ids are `i32`.
    Unix,
    /// Locks with `LockFileEx`, terminates processes by handle, process ids are `u32`.
    Windows,
}

/// The smallest number that is the id of a sidecar.
///
/// Zero and the negative numbers stand for groups of processes, for all processes or for the
/// system itself, never for one process that was started.
pub const LOWEST_PID: i64 = 1;

impl Family {
    /// The largest number that is a process id.
    pub open spec fn highest_pid(self) -> int {
        match self {
            Family::Unix => i32::MAX as int,
            Family::Windows => u32::MAX as int,
        }
    }
}

/// What a sidecar with process id `pid` writes to its pid file.
pub open spec fn pid_line(pid: nat) -> Seq<char> {
    text::decimal(pid) + seq!['\n']
}

/// The process id that the text of a pid file records, if it records one: a number that can be the
/// id of a sidecar, with nothing but white space around it.
pub open spec fn recorded_pid(family: Family, text: Seq<char>) -> Option<int> {
    text::number_in_range(
        text::trim(text),
        LOWEST_PID as int,
        family.highest_pid(),
    )
}

/// Writes the contents of the pid file of process `pid`.
pub fn pid_file_contents(pid: u32) -> (text: String)
    ensures
        text@ == pid_line(pid as nat),
{
    proof {
        reveal_strlit("\n");
    }
    let mut text = numeral_text(pid as u64, 10);
    text.append("\n");
    assert(text@ =~= pid_line(pid as nat));
    text
}

/// Reads the process id out of the text of a pid file.
///
/// White space around the number is ignored; anything that cannot be the process id of a sidecar
/// on `family` gives `None`.
pub fn read_pid(family: Family, text: &str) -> (pid: Option<i64>)
    ensures
        match pid {
            Some(n) => recorded_pid(family, text@) == Some(n as int),
            None => recorded_pid(family, text@) is None,
        },
{
    match family {
        Family::Unix => parse_number(text, LOWEST_PID, i32::MAX as i64),
        Family::Windows => parse_number(text, LOWEST_PID, u32::MAX as i64),
    }
}

/// The exit code that Windows reports for a process that has not ended.
pub const STILL_ACTIVE: u32 = 259;

/// What the operating system answered when it was asked about a process.
#[derive(Clone, Copy, Debug, PartialEq, Eq, Structural)]
pub enum ProcessProbe {
    /// `kill(pid, 0)` returned `status`.
    Signal { status: i32 },
    /// No handle to the process could be opened.
    NoHandle,
    /// `GetExitCodeProcess` returned `queried` and stored `exit_code`.
    ExitCode { queried: i32, exit_code: u32 },
}

impl ProcessProbe {
    /// Whether the answer says that the process is running.
    pub open spec fn running(self) -> bool {
        match self {
            ProcessProbe::Signal { status } => status == 0,
            ProcessProbe::NoHandle => false,
            ProcessProbe::ExitCode { queried, exit_code } => queried != 0 && exit_code
                == STILL_ACTIVE,
        }
    }

    /// Tests whether the answer says that the process is running.
    pub fn is_running(self) -> (running: bool)
        ensures
            running == self.running(),
    {
        match self {
            ProcessProbe::Signal { status } => status == 0,
            ProcessProbe::NoHandle => false,
            ProcessProbe::ExitCode { queried, exit_code } => queried != 0 && exit_code
                == STILL_ACTIVE,
        }
    }
}

/// The process id that a pid file records; a file that could not be read records none.
pub open spec fn sidecar_pid_of(family: Family, pid_file: Option<Seq<char>>) -> Option<int> {
    match pid_file {
        Some(text) => recorded_pid(family, text),
        None => None,
    }
}

/// The contents of a pid file as characters.
pub open spec fn file_text(pid_file: Option<&str>) -> Option<Seq<char>> {
    match pid_file {
        Some(text) => Some(text@),
        None => None,
    }
}

/// The process to ask the operating system about, given the contents of the pid file, or `None`
/// for a file that could not be read.
pub fn sidecar_pid(family: Family, pid_file: Option<&str>) -> (pid: Option<i64>)
    ensures
        match pid {
            Some(n) => sidecar_pid_of(family, file_text(pid_file)) == Some(n as int),
            None => sidecar_pid_of(family, file_text(pid_file)) is None,
        },
{
    match pid_file {
        Some(text) => read_pid(family, text),
        None => None,
    }
}

/// Whether a sidecar is alive, given the contents of its pid file and what the operating system
/// says of the process that they record.
pub open spec fn sidecar_alive(
    family: Family,
    pid_file: Option<Seq<char>>,
    probe: ProcessProbe,
) -> bool {
    sidecar_pid_of(family, pid_file) is Some && probe.running()
}

/// Decides whether the sidecar is alive.
///
/// `pid_file` holds the contents of the pid file, or `None` if it could not be read. `probe` is
/// the answer of the operating system about the process that the file records; it plays no role
/// where the file records none.
pub fn is_sidecar_alive(
    family: Family,
    pid_file: Option<&str>,
    probe: ProcessProbe,
) -> (alive: bool)
    ensures
        alive == sidecar_alive(family, file_text(pid_file), probe),
{
    match sidecar_pid(family, pid_file) {
        Some(_) => probe.is_running(),
        None => false,
    }
}

// ---------------------------------------------------------------------------
// Laws
// ---------------------------------------------------------------------------

/// A decimal numeral consists of digits, starts with none that is white space or a sign, and
/// denotes the number it was written for.
proof fn lemma_decimal_denotes(n: nat)
    ensures
        text::decimal(n).len() > 0,
        text::all_digits(text::decimal(n)),
        text::digits_value(text::decimal(n)) == n,
    decreases n,
{
    let s = text::decimal(n);
    if n < 10 {
        assert(s.drop_last().len() == 0);
        assert(text::digits_value(s.drop_last()) == 0);
    } else {
        let front = text::decimal(n / 10);
        lemma_decimal_denotes(n / 10);
        assert(s.drop_last() =~= front);
        assert forall|i: int| 0 <= i < s.len() implies text::is_digit(#[trigger] s[i]) by {
            if i < front.len() {
                assert(text::is_digit(front[i]));
            }
        }
    }
}

/// Reading a pid file gives back the process id that was written to it, for every id that a
/// process can have on the family of operating systems.
pub proof fn law_written_pid_is_read_back(family: Family, pid: nat)
    requires
        LOWEST_PID <= pid <= family.highest_pid(),
    ensures
        recorded_pid(family, pid_line(pid)) == Some(pid as int),
{
    let line = pid_line(pid);
    let digits = text::decimal(pid);
    lemma_decimal_denotes(pid);
    assert(line[0] == digits[0]);
    assert(text::is_digit(digits[0]));
    assert(text::trim_start(line) == line);
    assert(line.last() == '\n');
    assert(line.drop_last() =~= digits);
    assert(text::is_digit(digits[digits.len() - 1]));
    assert(text::trim_end(digits) == digits);
    assert(text::trim(line) == digits);
}

/// A sidecar that wrote its pid file is found alive exactly as long as the operating system says
/// that its process is running.
pub proof fn law_recorded_sidecar_is_alive_while_running(
    family: Family,
    pid: nat,
    probe: ProcessProbe,
)
    requires
        LOWEST_PID <= pid <= family.highest_pid(),
    ensures
        sidecar_alive(family, Some(pid_line(pid)), probe) <==> probe.running(),
{
    law_written_pid_is_read_back(family, pid);
}

/// A pid file records nothing but the id of a single process: what it records is above zero, and a
/// file that holds zero or a number with a minus sign names no sidecar, so that none is found
/// alive.
pub proof fn law_a_recorded_pid_is_that_of_one_process(
    family: Family,
    pid_file: Option<Seq<char>>,
    probe: ProcessProbe,
)
    ensures
        sidecar_pid_of(family, pid_file) matches Some(pid) ==> 0 < pid <= family.highest_pid(),
        pid_file matches Some(text) && (text::spelled_number(text::trim(text)) == Some(0int) || (
        text::trim(text).len() > 0 && text::trim(text)[0] == '-')) ==> {
            &&& sidecar_pid_of(family, pid_file) is None
            &&& !sidecar_alive(family, pid_file, probe)
        },
{
    if pid_file is Some {
        let digits = text::trim(pid_file->0);
        if digits.len() > 0 && digits[0] == '-' {
            assert(!text::is_digit(digits[0]));
        }
    }
}

// ---------------------------------------------------------------------------
// Laws of reading
// ---------------------------------------------------------------------------

/// The id of every process can be read from a pid file, however it is spelled there and whatever
/// white space stands around it: all numbers from one up to the largest `i32` on Unix and up to the
/// largest `u32` on Windows, and no others.
pub proof fn law_every_spelling_of_a_pid_is_read(
    family: Family,
    before: Seq<char>,
    plus: bool,
    zeros: nat,
    pid: nat,
    after: Seq<char>,
)
    requires
        text::is_blank(before),
        text::is_blank(after),
    ensures
        ({
            let highest: int = match family {
                Family::Unix => 0x7fff_ffff,
                Family::Windows => 0xffff_ffff,
            };
            let read = recorded_pid(family, before + text::spelling(plus, zeros, pid) + after);
            if 1 <= pid <= highest {
                read == Some(pid as int)
            } else {
                read is None
            }
        }),
{
    let core = text::spelling(plus, zeros, pid);
    text::law_a_numeral_denotes_its_number(pid, 10);
    text::law_a_spelled_number_is_read(
        plus,
        zeros,
        pid,
        LOWEST_PID as int,
        family.highest_pid(),
    );
    text::law_only_digits_spell_a_number(core, 0, 0);
    assert(core.len() > 0);
    assert(text::is_digit(core[0]) || core[0] == '+');
    assert(text::is_digit(core.last()));
    text::law_trimming_takes_white_space_away(before, core, after);
}

/// A pid file that holds anything but digits, with a plus sign in front of them at most and white
/// space around them, records no process.
pub proof fn law_only_digits_are_a_pid(family: Family, text: Seq<char>)
    ensures
        recorded_pid(family, text) is Some ==> {
            let core = text::trim(text);
            &&& core.len() > 0
            &&& text::is_digit(core.last())
            &&& forall|i: int| 0 <= i < core.len() ==> text::is_digit(#[trigger] core[i]) || (i == 0
                && core[i] == '+')
        },
{
    text::law_only_digits_spell_a_number(
        text::trim(text),
        LOWEST_PID as int,
        family.highest_pid(),
    );
}

/// A pid file holds one line: the decimal digits of the id, whatever it is, and a line feed.
pub proof fn law_a_pid_file_is_one_line(pid: nat)
    ensures
        ({
            let line = pid_line(pid);
            let digits = line.drop_last();
            &&& line.len() > 1
            &&& line.last() == '\n'
            &&& text::value_in(digits, 10) == pid
            &&& forall|i: int|
                0 <= i < digits.len() ==> 0 <= text::digit_value(#[trigger] digits[i]) < 10
            &&& pid > 0 ==> digits[0] != '0'
        }),
{
    text::law_a_numeral_denotes_its_number(pid, 10);
    assert(pid_line(pid).drop_last() =~= text::decimal(pid));
}

/// A process is running, on Unix, if and only if the signal zero could be sent to it, and on
/// Windows if and only if a handle was opened and its exit code, which the system gave, is the one
/// of a process that has not ended; by which number other than zero the system says that it gave
/// the code is all the same.
pub proof fn law_what_the_system_says_of_a_process(
    status: i32,
    queried: i32,
    exit_code: u32,
)
    ensures
        (ProcessProbe::Signal { status }).running() <==> status == 0,
        !ProcessProbe::NoHandle.running(),
        !(ProcessProbe::ExitCode { queried: 0, exit_code }).running(),
        queried != 0 ==> ((ProcessProbe::ExitCode { queried, exit_code }).running() <==> exit_code
            == 259),
{
}

/// A sidecar is alive if and only if its pid file could be read, records a process, and that
/// process is running; which process it is plays no further role.
pub proof fn law_a_live_sidecar_is_recorded_and_running(
    family: Family,
    text: Seq<char>,
    other: Seq<char>,
    probe: ProcessProbe,
)
    ensures
        sidecar_alive(family, Some(text), probe) <==> recorded_pid(family, text) is Some
            && probe.running(),
        !sidecar_alive(family, None, probe),
        sidecar_pid_of(family, Some(text)) == recorded_pid(family, text),
        sidecar_pid_of(family, None) is None,
        recorded_pid(family, text) is Some && recorded_pid(family, other) is Some
            ==> sidecar_alive(family, Some(text), probe) == sidecar_alive(
            family,
            Some(other),
            probe,
        ),
{
}

} // verus!
