//! What the guest left in its output directory, weighed against the output
//! policy, and how a finished run is reported.
use vstd::prelude::*;
use vstd::utf8::{decode_utf8, encode_utf8, valid_utf8};

use crate::process::ProcessOutput;
use crate::runtime::error::HostRuntimeError;
use crate::runtime::policy::HostRuntimeOutputPolicy;
use crate::runtime::windows_host::HostRuntimeReceipt;

verus! {

/// A file handed to or taken from the guest: its relative path, its
/// SHA-256 digest and its size in bytes.
#[derive(Debug, Clone, PartialEq, Eq)]
pub struct HostRuntimeArtifact {
    pub path: String,
    pub sha256: String,
    pub size: u64,
}

/// The guest's accepted output: its receipt, the receipt and optional files
/// that it left, and their total size.
#[derive(Debug, Clone, PartialEq, Eq)]
pub struct HostRuntimeOutput {
    pub receipt: HostRuntimeReceipt,
    pub artifacts: Vec<HostRuntimeArtifact>,
    pub total_bytes: u64,
}

/// What the shell found at the path of one optional output file.
#[derive(Debug)]
pub enum OutputProbe {
    /// Nothing is there.
    Absent,
    /// Something is there, but not a regular file.
    NotAFile,
    /// A regular file, read and hashed.
    File(HostRuntimeArtifact),
}

/// The sum of the sizes of `artifacts`.
pub open spec fn total_size(artifacts: Seq<HostRuntimeArtifact>) -> int
    decreases artifacts.len(),
{
    if artifacts.len() == 0 {
        0
    } else {
        total_size(artifacts.drop_last()) + artifacts.last().size
    }
}

proof fn lemma_total_size_nonnegative(artifacts: Seq<HostRuntimeArtifact>)
    ensures
        total_size(artifacts) >= 0,
    decreases artifacts.len(),
{
    if artifacts.len() > 0 {
        lemma_total_size_nonnegative(artifacts.drop_last());
    }
}

/// `n`, or `u64::MAX` where `n` does not fit.
pub open spec fn saturated(n: int) -> u64 {
    if n > u64::MAX {
        u64::MAX
    } else {
        n as u64
    }
}

/// The files collected so far from the guest's output directory, the
/// receipt first, and their total size (saturated at `u64::MAX`).
pub struct OutputTally {
    artifacts: Vec<HostRuntimeArtifact>,
    total_bytes: u64,
}

impl View for OutputTally {
    type V = Seq<HostRuntimeArtifact>;

    closed spec fn view(&self) -> Seq<HostRuntimeArtifact> {
        self.artifacts@
    }
}

/// Where `name` is allowed in the output directory.
pub open spec fn output_name_allowed(policy: HostRuntimeOutputPolicy, name: Seq<char>) -> bool {
    policy.required_files@.contains(name) || policy.optional_files@.contains(name)
}

/// `entries[k]` is the first directory entry that the policy does not allow.
pub open spec fn first_unexpected_entry(
    policy: HostRuntimeOutputPolicy,
    entries: Seq<Seq<char>>,
    k: int,
) -> bool {
    &&& 0 <= k < entries.len()
    &&& !output_name_allowed(policy, entries[k])
    &&& forall|j: int| 0 <= j < k ==> output_name_allowed(policy, #[trigger] entries[j])
}

impl OutputTally {
    #[verifier::type_invariant]
    spec fn counted(self) -> bool {
        self.total_bytes == saturated(total_size(self.artifacts@))
    }

    /// A tally that holds the receipt alone.
    pub fn new(receipt: HostRuntimeArtifact) -> (tally: OutputTally)
        ensures
            tally@ == seq![receipt],
    {
        let total_bytes = receipt.size;
        let mut artifacts = Vec::new();
        artifacts.push(receipt);
        assert(artifacts@.drop_last() =~= Seq::<HostRuntimeArtifact>::empty());
        assert(total_size(artifacts@) == total_size(artifacts@.drop_last()) + artifacts@.last().size);
        OutputTally { artifacts, total_bytes }
    }

    /// The total size of the tallied files, saturated at `u64::MAX`.
    pub fn total_bytes(&self) -> (total: u64)
        ensures
            total == saturated(total_size(self@)),
    {
        proof {
            use_type_invariant(self);
        }
        self.total_bytes
    }

    /// Takes in what was found at the optional output file `name`: nothing
    /// is skipped, a non-file is refused, and a file is refused when it
    /// exceeds the policy's per-file limit and counted otherwise.
    pub fn record(
        &mut self,
        policy: &HostRuntimeOutputPolicy,
        name: &str,
        probe: OutputProbe,
    ) -> (r: Result<(), HostRuntimeError>)
        ensures
            match probe {
                OutputProbe::Absent => r is Ok && final(self)@ == old(self)@,
                OutputProbe::NotAFile => final(self)@ == old(self)@ && (r matches Err(
                    HostRuntimeError::OutputNotAFile(f),
                ) && f@ == name@),
                OutputProbe::File(a) => if a.size > policy.max_file_bytes {
                    final(self)@ == old(self)@ && (r matches Err(
                        HostRuntimeError::OutputFileTooLarge(f),
                    ) && f@ == name@)
                } else {
                    r is Ok && final(self)@ == old(self)@.push(a)
                },
            },
    {
        proof {
            use_type_invariant(&*self);
        }
        match probe {
            OutputProbe::Absent => Ok(()),
            OutputProbe::NotAFile => Err(HostRuntimeError::OutputNotAFile(name.to_owned())),
            OutputProbe::File(a) => {
                if a.size > policy.max_file_bytes {
                    return Err(HostRuntimeError::OutputFileTooLarge(name.to_owned()));
                }
                let ghost before = self.artifacts@;
                let mut emptied = OutputTally { artifacts: Vec::new(), total_bytes: 0 };
                std::mem::swap(self, &mut emptied);
                proof {
                    use_type_invariant(&emptied);
                }
                let OutputTally { mut artifacts, total_bytes } = emptied;
                let total = total_bytes.saturating_add(a.size);
                artifacts.push(a);
                assert(artifacts@.drop_last() =~= before);
                assert(total_size(artifacts@) == total_size(before) + a.size);
                proof {
                    lemma_total_size_nonnegative(before);
                }
                *self = OutputTally { artifacts, total_bytes: total };
                Ok(())
            },
        }
    }

    /// Refuses a tally whose total exceeds the policy's limit.
    pub fn check_total(&self, policy: &HostRuntimeOutputPolicy) -> (r: Result<(), HostRuntimeError>)
        ensures
            r == (if saturated(total_size(self@)) > policy.max_total_bytes {
                Err(HostRuntimeError::OutputTooLarge)
            } else {
                Ok::<(), HostRuntimeError>(())
            }),
    {
        if self.total_bytes() > policy.max_total_bytes {
            return Err(HostRuntimeError::OutputTooLarge);
        }
        Ok(())
    }

    /// Ends the collection: refuses a total above the policy's limit, then
    /// the first directory entry that the policy does not allow; otherwise
    /// returns the output with the tallied files and their exact total.
    pub fn finish(
        self,
        policy: &HostRuntimeOutputPolicy,
        receipt: HostRuntimeReceipt,
        entries: &[String],
    ) -> (r: Result<HostRuntimeOutput, HostRuntimeError>)
        ensures
            saturated(total_size(self@)) > policy.max_total_bytes ==> r
                == Err::<HostRuntimeOutput, HostRuntimeError>(HostRuntimeError::OutputTooLarge),
            saturated(total_size(self@)) <= policy.max_total_bytes ==> match r {
                Ok(out) => {
                    &&& forall|j: int|
                        0 <= j < entries@.len() ==> output_name_allowed(
                            *policy,
                            #[trigger] entries@[j]@,
                        )
                    &&& out.receipt == receipt
                    &&& out.artifacts@ == self@
                    &&& out.total_bytes == saturated(total_size(self@))
                    &&& out.total_bytes <= policy.max_total_bytes
                    &&& policy.max_total_bytes < u64::MAX ==> out.total_bytes == total_size(self@)
                },
                Err(e) => exists|k: int|
                    #![trigger entries@[k]]
                    first_unexpected_entry(*policy, entries@.map_values(|s: String| s@), k) && (e
                        matches HostRuntimeError::UnexpectedOutput(f) && f@ == entries@[k]@),
            },
    {
        proof {
            use_type_invariant(&self);
        }
        if self.total_bytes > policy.max_total_bytes {
            return Err(HostRuntimeError::OutputTooLarge);
        }
        let ghost names = entries@.map_values(|s: String| s@);
        let mut i: usize = 0;
        while i < entries.len()
            invariant
                i <= entries@.len(),
                self.total_bytes == saturated(total_size(self@)),
                self.total_bytes <= policy.max_total_bytes,
                names == entries@.map_values(|s: String| s@),
                forall|j: int| 0 <= j < i ==> output_name_allowed(*policy, #[trigger] entries@[j]@),
            decreases entries@.len() - i,
        {
            let name = entries[i].as_str();
            if !(policy.required_files.contains(name) || policy.optional_files.contains(name)) {
                assert(first_unexpected_entry(*policy, names, i as int));
                return Err(HostRuntimeError::UnexpectedOutput(entries[i].clone()));
            }
            i = i + 1;
        }
        let ghost tallied = self@;
        proof {
            lemma_total_size_nonnegative(tallied);
        }
        let OutputTally { artifacts, total_bytes } = self;
        assert(artifacts@ == tallied);
        Ok(HostRuntimeOutput { receipt, artifacts, total_bytes })
    }
}

/// The text that a lossy UTF-8 decoding gives of `bytes`: each invalid
/// sequence becomes U+FFFD.
pub uninterp spec fn lossy_utf8(bytes: Seq<u8>) -> Seq<char>;

/// `std::str::from_utf8`, owned: the text of `bytes` exactly when they are
/// valid UTF-8.
#[verifier::external_body]
fn utf8_text(bytes: &[u8]) -> (text: Option<String>)
    ensures
        text is Some == valid_utf8(bytes@),
        text matches Some(t) ==> t@ == decode_utf8(bytes@),
{
    std::str::from_utf8(bytes).ok().map(|t| t.to_owned())
}

/// `String::from_utf8_lossy`, owned: named by [`lossy_utf8`]; valid UTF-8
/// comes back unchanged.
#[verifier::external_body]
fn lossy_text(bytes: &[u8]) -> (text: String)
    ensures
        text@ == lossy_utf8(bytes@),
        valid_utf8(bytes@) ==> text@ == decode_utf8(bytes@),
{
    String::from_utf8_lossy(bytes).into_owned()
}

/// The text of captured guest output: the UTF-8 text where the bytes are
/// valid UTF-8, else `code_page_text` where it is given, else the lossy
/// decoding.
pub open spec fn guest_text(bytes: Seq<u8>, code_page_text: Option<Seq<char>>) -> Seq<char> {
    if valid_utf8(bytes) {
        decode_utf8(bytes)
    } else if code_page_text is Some {
        code_page_text->0
    } else {
        lossy_utf8(bytes)
    }
}

/// Decodes captured guest output, preferring UTF-8, then the text that the
/// console's code page gave (where the platform has one), then the lossy
/// UTF-8 decoding.
pub fn decode_guest_output_with(bytes: &[u8], code_page_text: Option<String>) -> (text: String)
    ensures
        text@ == guest_text(
            bytes@,
            match code_page_text {
                Some(t) => Some(t@),
                None => None,
            },
        ),
{
    match utf8_text(bytes) {
        Some(text) => text,
        None => match code_page_text {
            Some(text) => text,
            None => lossy_text(bytes),
        },
    }
}

/// Decodes captured guest output where no console code page offers a
/// decoding: UTF-8 where it is valid, else lossily. Where the console has a
/// code page (Windows), [`decode_guest_output_with`] takes its decoding.
pub fn decode_guest_output(bytes: &[u8]) -> (text: String)
    ensures
        text@ == guest_text(bytes@, None),
{
    decode_guest_output_with(bytes, None)
}

/// How a guest run ended.
#[derive(Debug, Clone, PartialEq, Eq)]
pub struct HostRuntimeExecution {
    pub exit_code: Option<i32>,
    pub timed_out: bool,
    pub cancelled: bool,
    pub processes_reaped: bool,
    pub success: bool,
    pub stdout: String,
    pub stderr: String,
}

/// A run succeeded: it exited with status 0, every process of its job was
/// reaped, and it was neither timed out nor cancelled.
pub open spec fn run_succeeded(output: ProcessOutput) -> bool {
    &&& output.exit_code == Some(0i32)
    &&& output.processes_reaped
    &&& !output.timed_out
    &&& !output.cancelled
}

/// Reports a finished run of the guest script; the two optional texts are
/// the code-page decodings of stdout and stderr where the platform has them.
pub fn execution_report(
    output: &ProcessOutput,
    stdout_code_page: Option<String>,
    stderr_code_page: Option<String>,
) -> (execution: HostRuntimeExecution)
    ensures
        execution.exit_code == output.exit_code,
        execution.timed_out == output.timed_out,
        execution.cancelled == output.cancelled,
        execution.processes_reaped == output.processes_reaped,
        execution.success == run_succeeded(*output),
        execution.stdout@ == guest_text(
            output.stdout@,
            match stdout_code_page {
                Some(t) => Some(t@),
                None => None,
            },
        ),
        execution.stderr@ == guest_text(
            output.stderr@,
            match stderr_code_page {
                Some(t) => Some(t@),
                None => None,
            },
        ),
{
    let success = match output.exit_code {
        Some(code) => code == 0,
        None => false,
    } && output.processes_reaped && !output.timed_out && !output.cancelled;
    HostRuntimeExecution {
        exit_code: output.exit_code,
        timed_out: output.timed_out,
        cancelled: output.cancelled,
        processes_reaped: output.processes_reaped,
        success,
        stdout: decode_guest_output_with(output.stdout.as_slice(), stdout_code_page),
        stderr: decode_guest_output_with(output.stderr.as_slice(), stderr_code_page),
    }
}

/// Guest output that is text comes back exactly as written: the UTF-8
/// encoding of any text decodes to that text, whatever the code page
/// offers.
pub proof fn lemma_text_output_round_trips(text: Seq<char>, code_page_text: Option<Seq<char>>)
    ensures
        guest_text(encode_utf8(text), code_page_text) == text,
{
    vstd::utf8::encode_utf8_valid_utf8(text);
    vstd::utf8::encode_utf8_decode_utf8(text);
}

} // verus!
