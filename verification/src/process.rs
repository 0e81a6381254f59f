//! What a child process left behind, captured within a fixed bound per
//! stream, and the rule for which command lines a batch file may get.
use vstd::prelude::*;

use crate::runtime::file_set::same_text;
use std::collections::BTreeMap;
use std::path::PathBuf;
use std::time::Duration;

verus! {

/// The most bytes kept of each of stdout and stderr: 4 MiB.
pub const LOG_LIMIT: usize = 4194304;

/// How a child process ended and what it wrote.
#[derive(Debug)]
pub struct ProcessOutput {
    pub exit_code: Option<i32>,
    pub stdout: Vec<u8>,
    pub stderr: Vec<u8>,
    /// Some output was dropped because a stream reached [`LOG_LIMIT`].
    pub truncated: bool,
    pub cancelled: bool,
    pub timed_out: bool,
    /// Every process of the child's job had exited when the run ended.
    pub processes_reaped: bool,
}

/// How the wait for a child ended: it exited, the run was cancelled, or
/// the deadline passed. Whichever comes first ends the wait.
#[derive(Debug, Clone, Copy, PartialEq, Eq, Structural)]
pub enum RunEnd {
    Exited,
    Cancelled,
    TimedOut,
}

/// How many times the shell asks whether the child's job is empty before
/// it stops waiting for the job's processes to exit.
pub const REAP_POLLS: u32 = 100;

/// How long the shell waits after each poll that finds the job busy, in
/// milliseconds.
pub const REAP_POLL_INTERVAL_MS: u64 = 20;

/// How long the shell keeps collecting output after the run, per chunk, in
/// seconds.
pub const OUTPUT_DRAIN_TIMEOUT_SECS: u64 = 2;

/// What the shell does after one poll of the child's job.
#[derive(Debug, Clone, Copy, PartialEq, Eq, Structural)]
pub enum ReapAction {
    /// The job is empty: the processes were reaped; stop polling.
    Stop,
    /// Wait [`REAP_POLL_INTERVAL_MS`], then poll again.
    WaitThenPoll,
    /// Wait [`REAP_POLL_INTERVAL_MS`], then stop polling: the polls are used up.
    WaitThenStop,
}

/// The room left in a stream that holds `held` bytes.
pub open spec fn room_left(held: int) -> int {
    if held >= LOG_LIMIT {
        0
    } else {
        LOG_LIMIT - held
    }
}

/// How many of `sent` bytes a stream that holds `held` bytes keeps.
pub open spec fn kept_bytes(held: int, sent: int) -> int {
    if sent < room_left(held) {
        sent
    } else {
        room_left(held)
    }
}

/// Whether `stream` names standard output; any other name is stderr.
pub open spec fn is_stdout_stream(stream: Seq<char>) -> bool {
    stream == "stdout"@
}

impl ProcessOutput {
    /// An output with nothing captured yet.
    pub fn new() -> (output: ProcessOutput)
        ensures
            output.exit_code is None,
            output.stdout@ == Seq::<u8>::empty(),
            output.stderr@ == Seq::<u8>::empty(),
            !output.truncated,
            !output.cancelled,
            !output.timed_out,
            !output.processes_reaped,
    {
        ProcessOutput {
            exit_code: None,
            stdout: Vec::new(),
            stderr: Vec::new(),
            truncated: false,
            cancelled: false,
            timed_out: false,
            processes_reaped: false,
        }
    }
}

impl ProcessOutput {
    /// Records how the wait for the child ended and the exit code it then
    /// had: a cancellation or a timeout is marked, an exit marks neither.
    /// Nothing captured changes.
    pub fn end_run(&mut self, end: RunEnd, exit_code: Option<i32>)
        ensures
            final(self).exit_code == exit_code,
            final(self).cancelled == (old(self).cancelled || end == RunEnd::Cancelled),
            final(self).timed_out == (old(self).timed_out || end == RunEnd::TimedOut),
            final(self).stdout@ == old(self).stdout@,
            final(self).stderr@ == old(self).stderr@,
            final(self).truncated == old(self).truncated,
            final(self).processes_reaped == old(self).processes_reaped,
            !old(self).cancelled && !old(self).timed_out ==> !(final(self).cancelled
                && final(self).timed_out),
    {
        match end {
            RunEnd::Exited => {},
            RunEnd::Cancelled => {
                self.cancelled = true;
            },
            RunEnd::TimedOut => {
                self.timed_out = true;
            },
        }
        self.exit_code = exit_code;
    }
}

impl ProcessOutput {
    /// Takes in poll number `polls_done` (from 0) of the child's job, which
    /// found the job empty or not: an empty job marks the processes reaped
    /// and ends the polling; a busy one means waiting, then polling again
    /// until [`REAP_POLLS`] polls are done.
    pub fn reap_step(&mut self, polls_done: u32, job_empty: bool) -> (action: ReapAction)
        ensures
            job_empty ==> action == ReapAction::Stop && final(self).processes_reaped,
            !job_empty ==> final(self).processes_reaped == old(self).processes_reaped && action == (
            if polls_done + 1 >= REAP_POLLS {
                ReapAction::WaitThenStop
            } else {
                ReapAction::WaitThenPoll
            }),
            final(self).exit_code == old(self).exit_code,
            final(self).stdout@ == old(self).stdout@,
            final(self).stderr@ == old(self).stderr@,
            final(self).truncated == old(self).truncated,
            final(self).cancelled == old(self).cancelled,
            final(self).timed_out == old(self).timed_out,
    {
        if job_empty {
            self.processes_reaped = true;
            return ReapAction::Stop;
        }
        if polls_done >= REAP_POLLS - 1 {
            ReapAction::WaitThenStop
        } else {
            ReapAction::WaitThenPoll
        }
    }
}

/// Appends the first `n` bytes of `data` to `target`.
fn keep_prefix(target: &mut Vec<u8>, data: &[u8], n: usize)
    requires
        n <= data@.len(),
    ensures
        final(target)@ == old(target)@ + data@.take(n as int),
{
    let ghost start = target@;
    let mut k: usize = 0;
    while k < n
        invariant
            n <= data@.len(),
            k <= n,
            target@ == start + data@.take(k as int),
        decreases n - k,
    {
        target.push(data[k]);
        assert(data@.take(k + 1) =~= data@.take(k as int).push(data@[k as int]));
        assert(target@ =~= start + data@.take(k + 1));
        k = k + 1;
    }
}

/// Adds a chunk that the child wrote on `stream` (`"stdout"`, or else
/// stderr), keeping at most [`LOG_LIMIT`] bytes per stream. Marks the output
/// truncated when the chunk does not fit. Returns whether the stream still
/// had room, in which case the chunk is reported as progress.
pub fn append(output: &mut ProcessOutput, stream: &str, data: &[u8]) -> (report: bool)
    ensures
        is_stdout_stream(stream@) ==> {
            &&& final(output).stdout@ == old(output).stdout@ + data@.take(
                kept_bytes(old(output).stdout@.len() as int, data@.len() as int),
            )
            &&& final(output).stderr@ == old(output).stderr@
            &&& final(output).truncated == (old(output).truncated || data@.len() > room_left(
                old(output).stdout@.len() as int,
            ))
            &&& report == (room_left(old(output).stdout@.len() as int) > 0)
        },
        !is_stdout_stream(stream@) ==> {
            &&& final(output).stderr@ == old(output).stderr@ + data@.take(
                kept_bytes(old(output).stderr@.len() as int, data@.len() as int),
            )
            &&& final(output).stdout@ == old(output).stdout@
            &&& final(output).truncated == (old(output).truncated || data@.len() > room_left(
                old(output).stderr@.len() as int,
            ))
            &&& report == (room_left(old(output).stderr@.len() as int) > 0)
        },
        final(output).exit_code == old(output).exit_code,
        final(output).cancelled == old(output).cancelled,
        final(output).timed_out == old(output).timed_out,
        final(output).processes_reaped == old(output).processes_reaped,
{
    let to_stdout = same_text(stream, "stdout");
    let held = if to_stdout {
        output.stdout.len()
    } else {
        output.stderr.len()
    };
    let available = LOG_LIMIT.saturating_sub(held);
    let kept = if available < data.len() {
        available
    } else {
        data.len()
    };
    if to_stdout {
        keep_prefix(&mut output.stdout, data, kept);
    } else {
        keep_prefix(&mut output.stderr, data, kept);
    }
    if data.len() > available {
        output.truncated = true;
    }
    available > 0
}

/// A program to run, with its arguments, working directory, extra
/// environment and time limit.
pub struct ProcessSpec {
    pub program: PathBuf,
    pub args: Vec<String>,
    pub directory: PathBuf,
    pub env: BTreeMap<String, String>,
    pub timeout: Duration,
}

/// Why a process was not started.
#[derive(Debug, Clone, Copy, PartialEq, Eq, Structural)]
pub enum ProcessError {
    /// A batch file's path or argument holds a shell metacharacter.
    UnsupportedBatchMetacharacters,
}

/// The characters that `cmd.exe` would interpret in a batch file's command
/// line: `%`, `!`, `&`, `|`, `<`, `>`, `^`, carriage return and line feed.
pub open spec fn is_batch_metacharacter(c: char) -> bool {
    c == '%' || c == '!' || c == '&' || c == '|' || c == '<' || c == '>' || c == '^' || c == '\r'
        || c == '\n'
}

/// The code of `c`, with ASCII upper-case letters made lower-case.
pub open spec fn ascii_lower(c: char) -> int {
    if 'A' <= c <= 'Z' {
        (c as u32) + 32
    } else {
        c as u32 as int
    }
}

/// `a` and `b` are equal but for ASCII case.
pub open spec fn equal_ignoring_ascii_case(a: Seq<char>, b: Seq<char>) -> bool {
    &&& a.len() == b.len()
    &&& forall|i: int| 0 <= i < a.len() ==> ascii_lower(#[trigger] a[i]) == ascii_lower(b[i])
}

/// The extension of a Windows batch file, `bat` or `cmd` in any case.
pub open spec fn is_batch_extension(extension: Seq<char>) -> bool {
    equal_ignoring_ascii_case(extension, "bat"@) || equal_ignoring_ascii_case(extension, "cmd"@)
}

/// No character of `text` is a batch metacharacter.
pub open spec fn free_of_batch_metacharacters(text: Seq<char>) -> bool {
    forall|i: int| 0 <= i < text.len() ==> !is_batch_metacharacter(#[trigger] text[i])
}

/// The characters of `text`.
fn chars_of(text: &str) -> (chars: Vec<char>)
    ensures
        chars@ == text@,
{
    let mut chars: Vec<char> = Vec::new();
    for c in it: text.chars()
        invariant
            it.seq() == text@,
            chars@ == text@.take(it.index() as int),
    {
        assert(text@.take(it.index() + 1) =~= chars@.push(c));
        chars.push(c);
    }
    assert(text@.take(text@.len() as int) =~= text@);
    chars
}

fn lower_ascii(c: char) -> (lower: u32)
    ensures
        lower as int == ascii_lower(c),
{
    if 'A' <= c && c <= 'Z' {
        (c as u32) + 32
    } else {
        c as u32
    }
}

/// Whether `text` equals `lower`, an ASCII lower-case word, but for ASCII
/// case.
fn equals_ignoring_ascii_case(text: &str, lower: &str) -> (same: bool)
    ensures
        same == equal_ignoring_ascii_case(text@, lower@),
{
    let a = chars_of(text);
    let b = chars_of(lower);
    if a.len() != b.len() {
        return false;
    }
    let mut i: usize = 0;
    while i < a.len()
        invariant
            a@ == text@,
            b@ == lower@,
            a@.len() == b@.len(),
            i <= a@.len(),
            forall|k: int| 0 <= k < i ==> ascii_lower(#[trigger] a@[k]) == ascii_lower(b@[k]),
        decreases a@.len() - i,
    {
        if lower_ascii(a[i]) != lower_ascii(b[i]) {
            return false;
        }
        i = i + 1;
    }
    true
}

/// Whether `text` holds a batch metacharacter.
fn has_batch_metacharacter(text: &str) -> (found: bool)
    ensures
        found == !free_of_batch_metacharacters(text@),
{
    let chars = chars_of(text);
    let mut i: usize = 0;
    while i < chars.len()
        invariant
            chars@ == text@,
            i <= chars@.len(),
            forall|k: int| 0 <= k < i ==> !is_batch_metacharacter(#[trigger] chars@[k]),
        decreases chars@.len() - i,
    {
        let c = chars[i];
        if c == '%' || c == '!' || c == '&' || c == '|' || c == '<' || c == '>' || c == '^' || c
            == '\r' || c == '\n' {
            return true;
        }
        i = i + 1;
    }
    false
}

/// A batch file (`.bat` or `.cmd`, in any case) may be started only where
/// neither its path nor any argument holds a batch metacharacter; any other
/// program may be started with any command line.
pub fn check_batch_command(extension: Option<&str>, program: &str, args: &[String]) -> (r: Result<
    (),
    ProcessError,
>)
    ensures
        (r is Ok) == (!(extension matches Some(e) && is_batch_extension(e@)) || (
        free_of_batch_metacharacters(program@) && forall|i: int|
            0 <= i < args@.len() ==> free_of_batch_metacharacters(#[trigger] args@[i]@))),
        r is Err ==> r == Err::<(), ProcessError>(ProcessError::UnsupportedBatchMetacharacters),
{
    let is_batch = match extension {
        Some(e) => equals_ignoring_ascii_case(e, "bat") || equals_ignoring_ascii_case(e, "cmd"),
        None => false,
    };
    if !is_batch {
        return Ok(());
    }
    let mut i: usize = 0;
    while i < args.len()
        invariant
            extension matches Some(e) && is_batch_extension(e@),
            i <= args@.len(),
            forall|k: int| 0 <= k < i ==> free_of_batch_metacharacters(#[trigger] args@[k]@),
        decreases args@.len() - i,
    {
        if has_batch_metacharacter(args[i].as_str()) {
            return Err(ProcessError::UnsupportedBatchMetacharacters);
        }
        i = i + 1;
    }
    if has_batch_metacharacter(program) {
        return Err(ProcessError::UnsupportedBatchMetacharacters);
    }
    Ok(())
}

/// The variables of the host environment that a tool inherits; everything
/// else, credentials of the control plane among it, is withheld.
pub fn inherited_environment_keys() -> (keys: Vec<&'static str>)
    ensures
        keys@.map_values(|k: &str| k@) == seq![
            "PATH"@,
            "JAVA_HOME"@,
            "SystemRoot"@,
            "WINDIR"@,
            "COMSPEC"@,
            "PATHEXT"@,
            "LANG"@,
            "LC_ALL"@,
        ],
{
    let keys = vec!["PATH", "JAVA_HOME", "SystemRoot", "WINDIR", "COMSPEC", "PATHEXT", "LANG", "LC_ALL"];
    assert(keys@.map_values(|k: &str| k@) =~= seq![
        "PATH"@,
        "JAVA_HOME"@,
        "SystemRoot"@,
        "WINDIR"@,
        "COMSPEC"@,
        "PATHEXT"@,
        "LANG"@,
        "LC_ALL"@,
    ]);
    keys
}

/// The variables that point a tool at its private temporary directory.
pub fn temporary_directory_keys() -> (keys: Vec<&'static str>)
    ensures
        keys@.map_values(|k: &str| k@) == seq!["TMPDIR"@, "TMP"@, "TEMP"@],
{
    let keys = vec!["TMPDIR", "TMP", "TEMP"];
    assert(keys@.map_values(|k: &str| k@) =~= seq!["TMPDIR"@, "TMP"@, "TEMP"@]);
    keys
}

/// The capture of a stream stays within [`LOG_LIMIT`]: a stream holding at
/// most that many bytes still does after any chunk, keeps at most the chunk,
/// and once full keeps nothing more and marks every non-empty chunk as
/// truncated.
pub proof fn lemma_capture_stays_bounded(held: int, sent: int)
    requires
        0 <= held <= LOG_LIMIT,
        0 <= sent,
    ensures
        held + kept_bytes(held, sent) <= LOG_LIMIT,
        0 <= kept_bytes(held, sent) <= sent,
        held == LOG_LIMIT ==> kept_bytes(held, sent) == 0 && (sent > 0 ==> sent > room_left(held)),
        sent <= room_left(held) ==> kept_bytes(held, sent) == sent,
{
}

} // verus!
