//! Sessions, receipts and entrypoints of the host runtime.
use vstd::prelude::*;
use vstd::utf8::encode_utf8;

use crate::runtime::digest::{sha256_hex, sha256_text};
use crate::runtime::error::{HostRuntimeError, SessionField, TransferKind};
use crate::runtime::file_set::{same_text, FileSet};
use crate::runtime::paths::{relative_path, relative_path_ok};
use crate::runtime::text::{identifier_bytes, is_identifier, is_sha256, sha256_bytes};
use crate::runtime::windows_runtime::{WindowsRuntimeAdapter, WindowsRuntimeConfig, WindowsRuntimeEntry};
use std::path::PathBuf;

pub use crate::runtime::output::{
    decode_guest_output, HostRuntimeArtifact, HostRuntimeExecution, HostRuntimeOutput,
};
pub use crate::runtime::policy::HostRuntimeOutputPolicy;

verus! {

/// The receipt schema that this runtime writes and reads.
pub const HOST_RUNTIME_SCHEMA_VERSION: u32 = 1;

/// The program that the guest runs for a session.
#[derive(Debug, Clone, Copy, PartialEq, Eq, Structural)]
pub enum HostRuntimeEntrypoint {
    OriginalPe,
    WindowsPython,
    WindowsNativeSource,
    WindowsLibFuzzerPrebuilt,
}

/// The PowerShell script of each entrypoint.
pub open spec fn entrypoint_script(entrypoint: HostRuntimeEntrypoint) -> Seq<char> {
    match entrypoint {
        HostRuntimeEntrypoint::OriginalPe => "run-pe.ps1"@,
        HostRuntimeEntrypoint::WindowsPython => "run-python.ps1"@,
        HostRuntimeEntrypoint::WindowsNativeSource => "run-native-source.ps1"@,
        HostRuntimeEntrypoint::WindowsLibFuzzerPrebuilt => "run-libfuzzer.ps1"@,
    }
}

impl HostRuntimeEntrypoint {
    /// The file name of the script that runs this entrypoint.
    pub fn script(self) -> (script: &'static str)
        ensures
            script@ == entrypoint_script(self),
    {
        match self {
            HostRuntimeEntrypoint::OriginalPe => "run-pe.ps1",
            HostRuntimeEntrypoint::WindowsPython => "run-python.ps1",
            HostRuntimeEntrypoint::WindowsNativeSource => "run-native-source.ps1",
            HostRuntimeEntrypoint::WindowsLibFuzzerPrebuilt => "run-libfuzzer.ps1",
        }
    }
}

/// The identity of one guest session and the digests it is bound to.
#[derive(Debug, Clone, PartialEq, Eq)]
pub struct HostRuntimeSession {
    pub run_id: String,
    pub attempt_id: String,
    pub session_id: String,
    pub target_sha256: String,
    pub config_sha256: String,
}

/// `session` starts with `attempt` followed by a hyphen.
pub open spec fn namespaced_by(session: Seq<u8>, attempt: Seq<u8>) -> bool {
    &&& session.len() > attempt.len()
    &&& session.subrange(0, attempt.len() as int) == attempt
    &&& session[attempt.len() as int] == 45
}

/// What [`HostRuntimeSession::validate`] answers: the first rule that the
/// session breaks, in the order the rules are checked.
pub open spec fn session_verdict(s: HostRuntimeSession) -> Result<(), HostRuntimeError> {
    if !identifier_bytes(encode_utf8(s.run_id@)) {
        Err(HostRuntimeError::InvalidIdentifier(SessionField::RunId))
    } else if !identifier_bytes(encode_utf8(s.attempt_id@)) {
        Err(HostRuntimeError::InvalidIdentifier(SessionField::AttemptId))
    } else if !identifier_bytes(encode_utf8(s.session_id@)) {
        Err(HostRuntimeError::InvalidIdentifier(SessionField::SessionId))
    } else if !namespaced_by(encode_utf8(s.session_id@), encode_utf8(s.attempt_id@)) {
        Err(HostRuntimeError::SessionNotNamespaced)
    } else if !(sha256_bytes(encode_utf8(s.target_sha256@)) && sha256_bytes(
        encode_utf8(s.config_sha256@),
    )) {
        Err(HostRuntimeError::InvalidDigest)
    } else {
        Ok(())
    }
}

/// Whether `session` starts with `attempt` and a hyphen.
fn is_namespaced_by(session: &str, attempt: &str) -> (ok: bool)
    ensures
        ok == namespaced_by(encode_utf8(session@), encode_utf8(attempt@)),
{
    let s = session.as_bytes();
    let a = attempt.as_bytes();
    if s.len() <= a.len() {
        return false;
    }
    let mut i: usize = 0;
    while i < a.len()
        invariant
            s@ == encode_utf8(session@),
            a@ == encode_utf8(attempt@),
            s@.len() > a@.len(),
            i <= a@.len(),
            forall|k: int| 0 <= k < i ==> s@[k] == a@[k],
        decreases a@.len() - i,
    {
        if s[i] != a[i] {
            return false;
        }
        i = i + 1;
    }
    assert(s@.subrange(0, a@.len() as int) =~= a@);
    s[a.len()] == 45u8
}

impl HostRuntimeSession {
    /// Checks that the three identifiers are well formed, that the session
    /// is namespaced by its attempt, and that both digests are SHA-256
    /// values.
    pub fn validate(&self) -> (r: Result<(), HostRuntimeError>)
        ensures
            r == session_verdict(*self),
    {
        if !is_identifier(self.run_id.as_str()) {
            return Err(HostRuntimeError::InvalidIdentifier(SessionField::RunId));
        }
        if !is_identifier(self.attempt_id.as_str()) {
            return Err(HostRuntimeError::InvalidIdentifier(SessionField::AttemptId));
        }
        if !is_identifier(self.session_id.as_str()) {
            return Err(HostRuntimeError::InvalidIdentifier(SessionField::SessionId));
        }
        if !is_namespaced_by(self.session_id.as_str(), self.attempt_id.as_str()) {
            return Err(HostRuntimeError::SessionNotNamespaced);
        }
        if !(is_sha256(self.target_sha256.as_str()) && is_sha256(self.config_sha256.as_str())) {
            return Err(HostRuntimeError::InvalidDigest);
        }
        Ok(())
    }
}

/// What the guest writes back as `session.json` when it is done.
#[derive(Debug, Clone, PartialEq, Eq)]
pub struct HostRuntimeReceipt {
    pub schema_version: u32,
    pub run_id: String,
    pub attempt_id: String,
    pub session_id: String,
    pub status: String,
}

/// A status that a receipt may report.
pub open spec fn is_receipt_status(status: Seq<char>) -> bool {
    status == "COMPLETED"@ || status == "ERROR"@
}

/// What [`HostRuntimeReceipt::validate`] answers.
pub open spec fn receipt_verdict(r: HostRuntimeReceipt, s: HostRuntimeSession) -> Result<(), HostRuntimeError> {
    if r.schema_version != HOST_RUNTIME_SCHEMA_VERSION {
        Err(HostRuntimeError::UnsupportedReceiptSchema)
    } else if !(r.run_id@ == s.run_id@ && r.attempt_id@ == s.attempt_id@ && r.session_id@
        == s.session_id@) {
        Err(HostRuntimeError::ReceiptForAnotherAttempt)
    } else if !is_receipt_status(r.status@) {
        Err(HostRuntimeError::InvalidReceiptStatus)
    } else {
        Ok(())
    }
}

impl HostRuntimeReceipt {
    /// Checks that the receipt has the supported schema, belongs to
    /// `session`, and reports `COMPLETED` or `ERROR`.
    pub fn validate(&self, session: &HostRuntimeSession) -> (r: Result<(), HostRuntimeError>)
        ensures
            r == receipt_verdict(*self, *session),
    {
        if self.schema_version != HOST_RUNTIME_SCHEMA_VERSION {
            return Err(HostRuntimeError::UnsupportedReceiptSchema);
        }
        if !(self.run_id == session.run_id && self.attempt_id == session.attempt_id
            && self.session_id == session.session_id) {
            return Err(HostRuntimeError::ReceiptForAnotherAttempt);
        }
        let status = self.status.as_str();
        if !(same_text(status, "COMPLETED") || same_text(status, "ERROR")) {
            return Err(HostRuntimeError::InvalidReceiptStatus);
        }
        Ok(())
    }
}

/// A filesystem path, carried through the library unread.
#[verifier::external_type_specification]
#[verifier::external_body]
pub struct ExPathBuf(PathBuf);

/// `PathBuf::clone`, which the derived `Clone` of the session records calls;
/// nothing is claimed of the copy.
pub assume_specification[ <PathBuf as Clone>::clone ](path: &PathBuf) -> (copy: PathBuf);

/// A file to copy into the guest's input or tool directory: where it is on
/// the host, and its relative path inside the guest.
#[derive(Debug, Clone, PartialEq, Eq)]
pub struct HostRuntimeFileTransfer {
    pub source: PathBuf,
    pub path: String,
}

/// A request for a guest session: what to run, where, and with which files.
#[derive(Debug, Clone)]
pub struct HostRuntimeSpec {
    pub entrypoint: HostRuntimeEntrypoint,
    pub session: HostRuntimeSession,
    pub root: PathBuf,
    pub tool_root: PathBuf,
    pub inputs: Vec<HostRuntimeFileTransfer>,
    pub tools: Vec<HostRuntimeFileTransfer>,
    pub runtime_config: Option<WindowsRuntimeConfig>,
}

/// A prepared session directory: its layout and the files copied into it.
#[derive(Debug, Clone)]
pub struct PreparedHostRuntime {
    pub entrypoint: HostRuntimeEntrypoint,
    pub session: HostRuntimeSession,
    pub root: PathBuf,
    pub tool_root: PathBuf,
    pub input: PathBuf,
    pub output: PathBuf,
    pub tools: PathBuf,
    pub script: PathBuf,
    pub manifest: PathBuf,
    pub input_files: Vec<crate::runtime::output::HostRuntimeArtifact>,
    pub tool_files: Vec<crate::runtime::output::HostRuntimeArtifact>,
}

/// The longest path of a prepared input or tool file, in bytes.
pub const MAX_PREPARED_PATH_BYTES: usize = 512;

/// Every artifact's path is at most 512 bytes long.
pub open spec fn paths_fit(artifacts: Seq<crate::runtime::output::HostRuntimeArtifact>) -> bool {
    forall|i: int|
        0 <= i < artifacts.len() ==> encode_utf8(#[trigger] artifacts[i].path@).len()
            <= MAX_PREPARED_PATH_BYTES
}

/// Whether every path in `artifacts` is at most 512 bytes long.
fn paths_are_short(artifacts: &Vec<crate::runtime::output::HostRuntimeArtifact>) -> (ok: bool)
    ensures
        ok == paths_fit(artifacts@),
{
    let mut i: usize = 0;
    while i < artifacts.len()
        invariant
            i <= artifacts@.len(),
            forall|j: int|
                0 <= j < i ==> encode_utf8(#[trigger] artifacts@[j].path@).len()
                    <= MAX_PREPARED_PATH_BYTES,
        decreases artifacts@.len() - i,
    {
        if artifacts[i].path.as_str().as_bytes().len() > MAX_PREPARED_PATH_BYTES {
            return false;
        }
        i = i + 1;
    }
    true
}

/// Checks that no input or tool path of a prepared session is longer than
/// 512 bytes.
pub fn verify_inputs(prepared: &PreparedHostRuntime) -> (r: Result<(), HostRuntimeError>)
    ensures
        r == (if paths_fit(prepared.input_files@) && paths_fit(prepared.tool_files@) {
            Ok::<(), HostRuntimeError>(())
        } else {
            Err(HostRuntimeError::PathTooLong)
        }),
{
    if !paths_are_short(&prepared.input_files) || !paths_are_short(&prepared.tool_files) {
        return Err(HostRuntimeError::PathTooLong);
    }
    Ok(())
}

/// Accepts the path of the next file of a transfer list (of `kind`):
/// refuses a path that is not a safe relative path, then one that `seen`
/// already holds, and otherwise adds it to `seen`.
pub fn accept_transfer_path(kind: TransferKind, seen: &mut FileSet, path: &str) -> (r: Result<
    (),
    HostRuntimeError,
>)
    ensures
        !relative_path_ok(path@) ==> final(seen)@ == old(seen)@ && (r matches Err(
            HostRuntimeError::UnsafeTransferPath(k, p),
        ) && k == kind && p@ == path@),
        relative_path_ok(path@) && old(seen)@.contains(path@) ==> final(seen)@ == old(seen)@ && (r
            matches Err(HostRuntimeError::DuplicateTransferPath(k, p)) && k == kind && p@
            == path@),
        relative_path_ok(path@) && !old(seen)@.contains(path@) ==> r is Ok
            && final(seen)@.to_set() == old(seen)@.to_set().insert(path@),
{
    if relative_path(path).is_none() {
        return Err(HostRuntimeError::UnsafeTransferPath(kind, path.to_owned()));
    }
    if seen.contains(path) {
        return Err(HostRuntimeError::DuplicateTransferPath(kind, path.to_owned()));
    }
    seen.insert(path.to_owned());
    Ok(())
}

/// The adapter suits the entrypoint: a PE adapter for an original PE, the
/// Python adapter for Python, and the matching adapter for native source
/// and libFuzzer.
pub open spec fn adapter_suits(entrypoint: HostRuntimeEntrypoint, adapter: WindowsRuntimeAdapter) -> bool {
    match entrypoint {
        HostRuntimeEntrypoint::OriginalPe => adapter == WindowsRuntimeAdapter::OriginalPe32
            || adapter == WindowsRuntimeAdapter::OriginalPe64,
        HostRuntimeEntrypoint::WindowsPython => adapter == WindowsRuntimeAdapter::PythonCall,
        HostRuntimeEntrypoint::WindowsNativeSource => adapter
            == WindowsRuntimeAdapter::NativeSource,
        HostRuntimeEntrypoint::WindowsLibFuzzerPrebuilt => adapter
            == WindowsRuntimeAdapter::LibFuzzerPrebuilt,
    }
}

/// The entry suits the entrypoint: a function for Python, a command line
/// for the others.
pub open spec fn entry_suits(entrypoint: HostRuntimeEntrypoint, entry: WindowsRuntimeEntry) -> bool {
    match entrypoint {
        HostRuntimeEntrypoint::WindowsPython => entry is Function,
        _ => entry is CommandLine,
    }
}

/// What the entrypoint check answers of the configuration alone, given what
/// the configuration's own validation answered (its error message, if any).
pub open spec fn entrypoint_config_verdict(
    entrypoint: HostRuntimeEntrypoint,
    config: Option<WindowsRuntimeConfig>,
    config_check: Result<(), String>,
) -> Result<(), HostRuntimeError> {
    match config {
        None => Err(HostRuntimeError::EntrypointConfigMismatch),
        Some(c) => if config_check is Err {
            Err(HostRuntimeError::InvalidRuntimeConfig(config_check->Err_0))
        } else if !adapter_suits(entrypoint, c.adapter) {
            Err(HostRuntimeError::WrongAdapter(entrypoint))
        } else if !entry_suits(entrypoint, c.entry) {
            Err(HostRuntimeError::WrongEntry(entrypoint))
        } else {
            Ok(())
        },
    }
}

/// `inputs[k]` is the first input whose path is `target`.
pub open spec fn first_target_input(inputs: Seq<HostRuntimeFileTransfer>, target: Seq<char>, k: int) -> bool {
    &&& 0 <= k < inputs.len()
    &&& inputs[k].path@ == target
    &&& forall|j: int| 0 <= j < k ==> (#[trigger] inputs[j]).path@ != target
}

/// Checks that the runtime configuration is present, valid (`config_check`
/// is what its own validation answered; its error is reported as it came),
/// and suits the entrypoint in
/// adapter and entry; then returns the index of the first input that is the
/// configuration's target, whose digest the caller is to compare with
/// [`confirm_target_digest`].
pub fn validate_entrypoint(spec: &HostRuntimeSpec, config_check: Result<(), String>) -> (r: Result<
    usize,
    HostRuntimeError,
>)
    ensures
        entrypoint_config_verdict(spec.entrypoint, spec.runtime_config, config_check) matches Err(
            e,
        ) ==> r == Err::<usize, HostRuntimeError>(e),
        entrypoint_config_verdict(spec.entrypoint, spec.runtime_config, config_check) is Ok ==> {
            let target = spec.runtime_config->0.target_path@;
            match r {
                Ok(k) => first_target_input(spec.inputs@, target, k as int),
                Err(e) => e == HostRuntimeError::TargetMissing && forall|j: int|
                    0 <= j < spec.inputs@.len() ==> (#[trigger] spec.inputs@[j]).path@ != target,
            }
        },
{
    let config = match &spec.runtime_config {
        None => {
            return Err(HostRuntimeError::EntrypointConfigMismatch);
        },
        Some(config) => config,
    };
    if let Err(message) = config_check {
        return Err(HostRuntimeError::InvalidRuntimeConfig(message));
    }
    let adapter_ok = match spec.entrypoint {
        HostRuntimeEntrypoint::OriginalPe => config.adapter == WindowsRuntimeAdapter::OriginalPe32
            || config.adapter == WindowsRuntimeAdapter::OriginalPe64,
        HostRuntimeEntrypoint::WindowsPython => config.adapter == WindowsRuntimeAdapter::PythonCall,
        HostRuntimeEntrypoint::WindowsNativeSource => config.adapter
            == WindowsRuntimeAdapter::NativeSource,
        HostRuntimeEntrypoint::WindowsLibFuzzerPrebuilt => config.adapter
            == WindowsRuntimeAdapter::LibFuzzerPrebuilt,
    };
    if !adapter_ok {
        return Err(HostRuntimeError::WrongAdapter(spec.entrypoint));
    }
    let entry_ok = match (&spec.entrypoint, &config.entry) {
        (HostRuntimeEntrypoint::WindowsPython, WindowsRuntimeEntry::Function { .. }) => true,
        (HostRuntimeEntrypoint::WindowsPython, _) => false,
        (_, WindowsRuntimeEntry::CommandLine { .. }) => true,
        _ => false,
    };
    if !entry_ok {
        return Err(HostRuntimeError::WrongEntry(spec.entrypoint));
    }
    let target = config.target_path.as_str();
    let mut i: usize = 0;
    while i < spec.inputs.len()
        invariant
            i <= spec.inputs@.len(),
            target@ == spec.runtime_config->0.target_path@,
            entrypoint_config_verdict(spec.entrypoint, spec.runtime_config, config_check) is Ok,
            forall|j: int| 0 <= j < i ==> (#[trigger] spec.inputs@[j]).path@ != target@,
        decreases spec.inputs@.len() - i,
    {
        if same_text(spec.inputs[i].path.as_str(), target) {
            return Ok(i);
        }
        i = i + 1;
    }
    Err(HostRuntimeError::TargetMissing)
}

/// Compares the SHA-256 digest of the target file's `contents`, as read
/// from disk, with the one that the runtime configuration expects.
pub fn confirm_target_digest(spec: &HostRuntimeSpec, contents: &[u8]) -> (r: Result<
    (),
    HostRuntimeError,
>)
    ensures
        r == (match spec.runtime_config {
            None => Err(HostRuntimeError::EntrypointConfigMismatch),
            Some(c) => if sha256_text(contents@) == c.target_sha256@ {
                Ok::<(), HostRuntimeError>(())
            } else {
                Err(HostRuntimeError::TargetDigestMismatch)
            },
        }),
{
    match &spec.runtime_config {
        None => Err(HostRuntimeError::EntrypointConfigMismatch),
        Some(config) => {
            let digest = sha256_hex(contents);
            if same_text(digest.as_str(), config.target_sha256.as_str()) {
                Ok(())
            } else {
                Err(HostRuntimeError::TargetDigestMismatch)
            }
        },
    }
}

/// The PowerShell command line of a session: run `script` with the input,
/// output, Python and Zig directories, and, for libFuzzer, the LLVM
/// directory too.
pub open spec fn runtime_argument_list(
    entrypoint: HostRuntimeEntrypoint,
    script: Seq<char>,
    input: Seq<char>,
    output: Seq<char>,
    python: Seq<char>,
    zig: Seq<char>,
    llvm: Seq<char>,
) -> Seq<Seq<char>> {
    seq![
        "-NoProfile"@,
        "-ExecutionPolicy"@,
        "Bypass"@,
        "-File"@,
        script,
        "-InputPath"@,
        input,
        "-OutputPath"@,
        output,
        "-PythonPath"@,
        python,
        "-ZigPath"@,
        zig,
    ] + if entrypoint == HostRuntimeEntrypoint::WindowsLibFuzzerPrebuilt {
        seq!["-LlvmPath"@, llvm]
    } else {
        Seq::<Seq<char>>::empty()
    }
}

/// Builds the PowerShell arguments that run a prepared session.
pub fn runtime_arguments(
    entrypoint: HostRuntimeEntrypoint,
    script: &str,
    input: &str,
    output: &str,
    python: &str,
    zig: &str,
    llvm: &str,
) -> (args: Vec<String>)
    ensures
        args@.map_values(|a: String| a@) == runtime_argument_list(
            entrypoint,
            script@,
            input@,
            output@,
            python@,
            zig@,
            llvm@,
        ),
{
    let mut args: Vec<String> = Vec::new();
    args.push("-NoProfile".to_owned());
    args.push("-ExecutionPolicy".to_owned());
    args.push("Bypass".to_owned());
    args.push("-File".to_owned());
    args.push(script.to_owned());
    args.push("-InputPath".to_owned());
    args.push(input.to_owned());
    args.push("-OutputPath".to_owned());
    args.push(output.to_owned());
    args.push("-PythonPath".to_owned());
    args.push(python.to_owned());
    args.push("-ZigPath".to_owned());
    args.push(zig.to_owned());
    if entrypoint == HostRuntimeEntrypoint::WindowsLibFuzzerPrebuilt {
        args.push("-LlvmPath".to_owned());
        args.push(llvm.to_owned());
    }
    assert(args@.map_values(|a: String| a@) =~= runtime_argument_list(
        entrypoint,
        script@,
        input@,
        output@,
        python@,
        zig@,
        llvm@,
    ));
    args
}

/// A receipt that echoes its session's run, attempt and session ids under
/// the supported schema is accepted exactly when its status is `COMPLETED`
/// or `ERROR`; a receipt that differs from the session in any id is refused
/// as belonging to another attempt.
pub proof fn lemma_receipt_matches_its_session(r: HostRuntimeReceipt, s: HostRuntimeSession)
    requires
        r.schema_version == HOST_RUNTIME_SCHEMA_VERSION,
    ensures
        r.run_id@ == s.run_id@ && r.attempt_id@ == s.attempt_id@ && r.session_id@ == s.session_id@
            ==> (receipt_verdict(r, s) is Ok <==> is_receipt_status(r.status@)),
        !(r.run_id@ == s.run_id@ && r.attempt_id@ == s.attempt_id@ && r.session_id@
            == s.session_id@) ==> receipt_verdict(r, s) == Err::<(), HostRuntimeError>(
            HostRuntimeError::ReceiptForAnotherAttempt,
        ),
{
}

/// A session passes validation exactly when its three identifiers are 1 to
/// 128 letters, digits, hyphens or underscores, its digests are 64
/// hexadecimal digits, and the bytes of `session_id` begin with every byte
/// of `attempt_id` followed by a hyphen.
pub proof fn lemma_session_validation_law(s: HostRuntimeSession)
    ensures
        session_verdict(s) is Ok <==> {
            let run = encode_utf8(s.run_id@);
            let attempt = encode_utf8(s.attempt_id@);
            let session = encode_utf8(s.session_id@);
            &&& identifier_bytes(run)
            &&& identifier_bytes(attempt)
            &&& identifier_bytes(session)
            &&& session.len() > attempt.len()
            &&& forall|k: int| 0 <= k < attempt.len() ==> session[k] == attempt[k]
            &&& session[attempt.len() as int] == 45
            &&& sha256_bytes(encode_utf8(s.target_sha256@))
            &&& sha256_bytes(encode_utf8(s.config_sha256@))
        },
        session_verdict(s) is Ok ==> {
            let attempt = encode_utf8(s.attempt_id@);
            let session = encode_utf8(s.session_id@);
            forall|k: int| 0 <= k < attempt.len() ==> #[trigger] session[k] == attempt[k]
        },
{
    let attempt = encode_utf8(s.attempt_id@);
    let session = encode_utf8(s.session_id@);
    if session.len() > attempt.len() && (forall|k: int|
        0 <= k < attempt.len() ==> session[k] == attempt[k]) {
        assert(session.subrange(0, attempt.len() as int) =~= attempt);
    }
    if namespaced_by(session, attempt) {
        assert forall|k: int| 0 <= k < attempt.len() implies session[k] == attempt[k] by {
            assert(session.subrange(0, attempt.len() as int)[k] == session[k]);
        }
    }
}

/// The PowerShell command line is the thirteen fixed arguments naming the
/// script and the input, output, Python and Zig directories; only the
/// libFuzzer entrypoint gets the two more that name the LLVM directory.
pub proof fn lemma_runtime_arguments_law(
    entrypoint: HostRuntimeEntrypoint,
    script: Seq<char>,
    input: Seq<char>,
    output: Seq<char>,
    python: Seq<char>,
    zig: Seq<char>,
    llvm: Seq<char>,
)
    ensures
        ({
            let args = runtime_argument_list(entrypoint, script, input, output, python, zig, llvm);
            &&& args[0] == "-NoProfile"@
            &&& args[1] == "-ExecutionPolicy"@
            &&& args[2] == "Bypass"@
            &&& args[3] == "-File"@
            &&& args[4] == script
            &&& args[5] == "-InputPath"@
            &&& args[6] == input
            &&& args[7] == "-OutputPath"@
            &&& args[8] == output
            &&& args[9] == "-PythonPath"@
            &&& args[10] == python
            &&& args[11] == "-ZigPath"@
            &&& args[12] == zig
            &&& entrypoint != HostRuntimeEntrypoint::WindowsLibFuzzerPrebuilt ==> args.len() == 13
            &&& entrypoint == HostRuntimeEntrypoint::WindowsLibFuzzerPrebuilt ==> {
                &&& args.len() == 15
                &&& args[13] == "-LlvmPath"@
                &&& args[14] == llvm
            }
        }),
{
}

/// Each entrypoint accepts only its own adapters and entry kind, once the
/// configuration is present and valid: an original PE needs a 32- or 64-bit
/// PE adapter and a command line, Windows Python the Python adapter and a
/// function, native source the native-source adapter and a command line,
/// and libFuzzer the prebuilt libFuzzer adapter and a command line. A wrong
/// adapter is reported before a wrong entry; a missing configuration and a
/// failed validation come first.
pub proof fn lemma_entrypoint_adapter_law(
    entrypoint: HostRuntimeEntrypoint,
    config: Option<WindowsRuntimeConfig>,
    config_check: Result<(), String>,
)
    ensures
        config is None ==> entrypoint_config_verdict(entrypoint, config, config_check)
            == Err::<(), HostRuntimeError>(HostRuntimeError::EntrypointConfigMismatch),
        config is Some && config_check is Err ==> entrypoint_config_verdict(
            entrypoint,
            config,
            config_check,
        ) == Err::<(), HostRuntimeError>(
            HostRuntimeError::InvalidRuntimeConfig(config_check->Err_0),
        ),
        config is Some && config_check is Ok ==> {
            let adapter = config->0.adapter;
            let entry = config->0.entry;
            let verdict = entrypoint_config_verdict(entrypoint, config, config_check);
            &&& entrypoint == HostRuntimeEntrypoint::OriginalPe && adapter
                != WindowsRuntimeAdapter::OriginalPe32 && adapter
                != WindowsRuntimeAdapter::OriginalPe64 ==> verdict == Err::<(), HostRuntimeError>(
                HostRuntimeError::WrongAdapter(entrypoint),
            )
            &&& entrypoint == HostRuntimeEntrypoint::WindowsPython && adapter
                != WindowsRuntimeAdapter::PythonCall ==> verdict == Err::<(), HostRuntimeError>(
                HostRuntimeError::WrongAdapter(entrypoint),
            )
            &&& entrypoint == HostRuntimeEntrypoint::WindowsNativeSource && adapter
                != WindowsRuntimeAdapter::NativeSource ==> verdict == Err::<(), HostRuntimeError>(
                HostRuntimeError::WrongAdapter(entrypoint),
            )
            &&& entrypoint == HostRuntimeEntrypoint::WindowsLibFuzzerPrebuilt && adapter
                != WindowsRuntimeAdapter::LibFuzzerPrebuilt ==> verdict == Err::<
                (),
                HostRuntimeError,
            >(HostRuntimeError::WrongAdapter(entrypoint))
            &&& (entrypoint == HostRuntimeEntrypoint::OriginalPe && (adapter
                == WindowsRuntimeAdapter::OriginalPe32 || adapter
                == WindowsRuntimeAdapter::OriginalPe64)) ==> verdict == (if entry is CommandLine {
                Ok::<(), HostRuntimeError>(())
            } else {
                Err(HostRuntimeError::WrongEntry(entrypoint))
            })
            &&& (entrypoint == HostRuntimeEntrypoint::WindowsPython && adapter
                == WindowsRuntimeAdapter::PythonCall) ==> verdict == (if entry is Function {
                Ok::<(), HostRuntimeError>(())
            } else {
                Err(HostRuntimeError::WrongEntry(entrypoint))
            })
            &&& (entrypoint == HostRuntimeEntrypoint::WindowsNativeSource && adapter
                == WindowsRuntimeAdapter::NativeSource) ==> verdict == (if entry is CommandLine {
                Ok::<(), HostRuntimeError>(())
            } else {
                Err(HostRuntimeError::WrongEntry(entrypoint))
            })
            &&& (entrypoint == HostRuntimeEntrypoint::WindowsLibFuzzerPrebuilt && adapter
                == WindowsRuntimeAdapter::LibFuzzerPrebuilt) ==> verdict == (
            if entry is CommandLine {
                Ok::<(), HostRuntimeError>(())
            } else {
                Err(HostRuntimeError::WrongEntry(entrypoint))
            })
        },
{
}

} // verus!
