use aegis_application::runtime::digest::{sha256_hex, to_lower_hex};
use aegis_application::runtime::error::{HostRuntimeError, SessionField, TransferKind};
use aegis_application::runtime::file_set::FileSet;
use aegis_application::runtime::output::{OutputProbe, OutputTally};
use aegis_application::runtime::windows_host::{
    accept_transfer_path, confirm_target_digest, runtime_arguments, validate_entrypoint,
    verify_inputs, HostRuntimeArtifact, HostRuntimeEntrypoint, HostRuntimeFileTransfer,
    HostRuntimeOutputPolicy, HostRuntimeReceipt, HostRuntimeSession, HostRuntimeSpec,
    PreparedHostRuntime, HOST_RUNTIME_SCHEMA_VERSION,
};
use aegis_application::runtime::windows_runtime::{
    WindowsRuntimeAdapter, WindowsRuntimeConfig, WindowsRuntimeEntry,
};
use std::path::PathBuf;

const TARGET_DIGEST: &str = "34a04005bcaf206eec990bd9637d9fdb6725e0a0c0d4aebf003f17f4c956eb5c";
const DIGEST: &str = "0123456789abcdef0123456789ABCDEF0123456789abcdef0123456789abcdef";

#[test]
fn libfuzzer_outputs_accept_all_bounded_crash_evidence() {
    let policy = HostRuntimeOutputPolicy::windows_lib_fuzzer();
    policy.validate().unwrap();
    for file in [
        "crash-input.bin",
        "crash-01-input.bin",
        "crash-01-minimize.stdout.log",
        "crash-01-minimize.stderr.log",
        "crash-16-input.bin",
        "crash-16-minimize.stderr.log",
    ] {
        assert!(
            policy.optional_files.contains(file),
            "missing output: {file}"
        );
    }
    assert!(!policy.optional_files.contains("crash-17-input.bin"));
    assert!(!policy.optional_files.contains("crash-01-minimize.log"));
}

#[test]
fn every_preset_policy_is_valid() {
    for policy in [
        HostRuntimeOutputPolicy::original_pe(),
        HostRuntimeOutputPolicy::windows_python(),
        HostRuntimeOutputPolicy::windows_native_source(),
        HostRuntimeOutputPolicy::windows_lib_fuzzer(),
        HostRuntimeOutputPolicy::runtime_output(),
    ] {
        assert_eq!(policy.validate(), Ok(()));
        assert_eq!(policy.required_files.names(), &vec!["session.json".to_string()]);
        assert_eq!(policy.max_file_bytes, 1024 * 1024);
    }
}

#[test]
fn preset_policies_have_their_files_and_limits() {
    let base = HostRuntimeOutputPolicy::original_pe();
    assert_eq!(
        base.optional_files.names(),
        &vec![
            "guest-error.json".to_string(),
            "guest-observation.json".to_string(),
            "target-executed.txt".to_string(),
            "target.stderr.log".to_string(),
            "target.stdout.log".to_string(),
        ]
    );
    assert_eq!(base.max_total_bytes, 2 * 1024 * 1024);
    let native = HostRuntimeOutputPolicy::windows_native_source();
    assert_eq!(native.optional_files.len(), 7);
    assert!(native.optional_files.contains("compile.stderr.log"));
    assert!(native.optional_files.contains("compile.stdout.log"));
    assert_eq!(native.max_total_bytes, 4 * 1024 * 1024);
    let fuzzer = HostRuntimeOutputPolicy::windows_lib_fuzzer();
    assert_eq!(fuzzer.optional_files.len(), 6 + 16 * 3);
    assert!(fuzzer.optional_files.contains("crash-10-minimize.stdout.log"));
    assert!(!fuzzer.optional_files.contains("crash-00-input.bin"));
    assert!(!fuzzer.optional_files.contains("crash-1-input.bin"));
    assert_eq!(fuzzer.max_total_bytes, 4 * 1024 * 1024);
    let names = fuzzer.optional_files.names();
    for pair in names.windows(2) {
        assert!(pair[0] < pair[1]);
    }
}

fn set_of(names: &[&str]) -> FileSet {
    let mut set = FileSet::new();
    for name in names {
        set.insert(name.to_string());
    }
    set
}

fn policy(required: &[&str], optional: &[&str], max_file: u64, max_total: u64) -> HostRuntimeOutputPolicy {
    HostRuntimeOutputPolicy {
        required_files: set_of(required),
        optional_files: set_of(optional),
        max_file_bytes: max_file,
        max_total_bytes: max_total,
    }
}

#[test]
fn policy_validation_reports_each_rule() {
    assert_eq!(
        policy(&[], &["a"], 1, 1).validate(),
        Err(HostRuntimeError::MissingReceiptFile)
    );
    assert_eq!(
        policy(&["session.json", "x"], &["x"], 1, 1).validate(),
        Err(HostRuntimeError::OverlappingOutputFiles)
    );
    assert_eq!(
        policy(&["session.json"], &[], 0, 1).validate(),
        Err(HostRuntimeError::InvalidSizePolicy)
    );
    assert_eq!(
        policy(&["session.json"], &[], 2, 1).validate(),
        Err(HostRuntimeError::InvalidSizePolicy)
    );
    assert_eq!(
        policy(&["session.json"], &[], 1, 64 * 1024 * 1024 + 1).validate(),
        Err(HostRuntimeError::InvalidSizePolicy)
    );
    assert_eq!(policy(&["session.json"], &[], 1, 64 * 1024 * 1024).validate(), Ok(()));
    assert_eq!(
        policy(&["session.json"], &["b/../c", "a\\b"], 1, 1).validate(),
        Err(HostRuntimeError::InvalidOutputPath("a\\b".to_string()))
    );
    assert_eq!(
        policy(&["session.json", "../up"], &["ok"], 1, 1).validate(),
        Err(HostRuntimeError::InvalidOutputPath("../up".to_string()))
    );
}

#[test]
fn file_set_keeps_names_once_in_byte_order() {
    let mut set = FileSet::new();
    assert!(set.insert("b".to_string()));
    assert!(set.insert("a".to_string()));
    assert!(set.insert("B".to_string()));
    assert!(set.insert("ab".to_string()));
    assert!(!set.insert("a".to_string()));
    assert_eq!(
        set.names(),
        &vec!["B".to_string(), "a".to_string(), "ab".to_string(), "b".to_string()]
    );
    assert_eq!(set.len(), 4);
    assert!(set.contains("ab"));
    assert!(!set.contains("abc"));
    assert!(set.is_disjoint(&set_of(&["c", "d"])));
    assert!(!set.is_disjoint(&set_of(&["c", "b"])));
}

fn session() -> HostRuntimeSession {
    HostRuntimeSession {
        run_id: "run-001".into(),
        attempt_id: "attempt-001".into(),
        session_id: "attempt-001-session-001".into(),
        target_sha256: DIGEST.into(),
        config_sha256: DIGEST.to_lowercase(),
    }
}

#[test]
fn session_validation_accepts_a_well_formed_session() {
    assert_eq!(session().validate(), Ok(()));
    let mut s = session();
    s.session_id = "attempt-001-".into();
    assert_eq!(s.validate(), Ok(()));
}

#[test]
fn session_validation_reports_each_rule() {
    let mut s = session();
    s.run_id = String::new();
    assert_eq!(s.validate(), Err(HostRuntimeError::InvalidIdentifier(SessionField::RunId)));
    let mut s = session();
    s.attempt_id = "a".repeat(129);
    assert_eq!(s.validate(), Err(HostRuntimeError::InvalidIdentifier(SessionField::AttemptId)));
    let mut s = session();
    s.session_id = "attempt 001".into();
    assert_eq!(s.validate(), Err(HostRuntimeError::InvalidIdentifier(SessionField::SessionId)));
    let mut s = session();
    s.session_id = "attempt-001session".into();
    assert_eq!(s.validate(), Err(HostRuntimeError::SessionNotNamespaced));
    let mut s = session();
    s.session_id = "attempt-001".into();
    assert_eq!(s.validate(), Err(HostRuntimeError::SessionNotNamespaced));
    let mut s = session();
    s.target_sha256 = DIGEST[..63].into();
    assert_eq!(s.validate(), Err(HostRuntimeError::InvalidDigest));
    let mut s = session();
    s.config_sha256 = DIGEST.replace('a', "g");
    assert_eq!(s.validate(), Err(HostRuntimeError::InvalidDigest));
    let mut s = session();
    s.attempt_id = "a".repeat(128);
    s.session_id = format!("{}-x", "a".repeat(126));
    assert_eq!(s.validate(), Err(HostRuntimeError::SessionNotNamespaced));
}

fn receipt(status: &str) -> HostRuntimeReceipt {
    HostRuntimeReceipt {
        schema_version: HOST_RUNTIME_SCHEMA_VERSION,
        run_id: "run-001".into(),
        attempt_id: "attempt-001".into(),
        session_id: "attempt-001-session-001".into(),
        status: status.into(),
    }
}

#[test]
fn receipt_validation() {
    assert_eq!(receipt("COMPLETED").validate(&session()), Ok(()));
    assert_eq!(receipt("ERROR").validate(&session()), Ok(()));
    assert_eq!(
        receipt("RUNNING").validate(&session()),
        Err(HostRuntimeError::InvalidReceiptStatus)
    );
    assert_eq!(
        receipt("completed").validate(&session()),
        Err(HostRuntimeError::InvalidReceiptStatus)
    );
    let mut r = receipt("COMPLETED");
    r.schema_version = 2;
    assert_eq!(r.validate(&session()), Err(HostRuntimeError::UnsupportedReceiptSchema));
    let mut r = receipt("COMPLETED");
    r.attempt_id = "attempt-002".into();
    assert_eq!(r.validate(&session()), Err(HostRuntimeError::ReceiptForAnotherAttempt));
}

#[test]
fn entrypoint_scripts() {
    assert_eq!(HostRuntimeEntrypoint::OriginalPe.script(), "run-pe.ps1");
    assert_eq!(HostRuntimeEntrypoint::WindowsPython.script(), "run-python.ps1");
    assert_eq!(HostRuntimeEntrypoint::WindowsNativeSource.script(), "run-native-source.ps1");
    assert_eq!(HostRuntimeEntrypoint::WindowsLibFuzzerPrebuilt.script(), "run-libfuzzer.ps1");
}

fn artifact(path: &str, size: u64) -> HostRuntimeArtifact {
    HostRuntimeArtifact { path: path.into(), sha256: DIGEST.into(), size }
}

#[test]
fn output_collection_counts_and_limits_files() {
    let policy = HostRuntimeOutputPolicy::original_pe();
    let mut tally = OutputTally::new(artifact("session.json", 100));
    assert_eq!(tally.record(&policy, "guest-error.json", OutputProbe::Absent), Ok(()));
    assert_eq!(
        tally.record(&policy, "target.stdout.log", OutputProbe::File(artifact("target.stdout.log", 1000))),
        Ok(())
    );
    assert_eq!(tally.total_bytes(), 1100);
    let entries = vec!["session.json".to_string(), "target.stdout.log".to_string()];
    let output = tally.finish(&policy, receipt("COMPLETED"), &entries).unwrap();
    assert_eq!(output.total_bytes, 1100);
    assert_eq!(output.artifacts.len(), 2);
    assert_eq!(output.artifacts[1].path, "target.stdout.log");
    assert_eq!(output.receipt.status, "COMPLETED");
}

#[test]
fn output_collection_refusals() {
    let policy = HostRuntimeOutputPolicy::original_pe();
    let mut tally = OutputTally::new(artifact("session.json", 10));
    assert_eq!(
        tally.record(&policy, "guest-error.json", OutputProbe::NotAFile),
        Err(HostRuntimeError::OutputNotAFile("guest-error.json".into()))
    );
    assert_eq!(
        tally.record(
            &policy,
            "target.stderr.log",
            OutputProbe::File(artifact("target.stderr.log", 1024 * 1024 + 1))
        ),
        Err(HostRuntimeError::OutputFileTooLarge("target.stderr.log".into()))
    );
    assert_eq!(tally.total_bytes(), 10);
    let entries = vec!["session.json".to_string(), "notes.txt".to_string(), "more".to_string()];
    assert_eq!(
        tally.finish(&policy, receipt("COMPLETED"), &entries),
        Err(HostRuntimeError::UnexpectedOutput("notes.txt".into()))
    );
    let mut tally = OutputTally::new(artifact("session.json", 2 * 1024 * 1024 - 5));
    assert_eq!(
        tally.record(&policy, "target.stdout.log", OutputProbe::File(artifact("target.stdout.log", 6))),
        Ok(())
    );
    assert_eq!(
        tally.finish(&policy, receipt("COMPLETED"), &[]),
        Err(HostRuntimeError::OutputTooLarge)
    );
    let mut tally = OutputTally::new(artifact("session.json", u64::MAX));
    assert_eq!(
        tally.record(&policy, "target.stdout.log", OutputProbe::File(artifact("target.stdout.log", 6))),
        Ok(())
    );
    assert_eq!(tally.total_bytes(), u64::MAX);
}

fn prepared(input_path: String) -> PreparedHostRuntime {
    PreparedHostRuntime {
        entrypoint: HostRuntimeEntrypoint::OriginalPe,
        session: session(),
        root: PathBuf::from("/r"),
        tool_root: PathBuf::from("/t"),
        input: PathBuf::from("/r/input"),
        output: PathBuf::from("/r/output"),
        tools: PathBuf::from("/r/tools"),
        script: PathBuf::from("/r/tools/run-pe.ps1"),
        manifest: PathBuf::from("/r/m.json"),
        input_files: vec![artifact(&input_path, 1)],
        tool_files: vec![artifact("run-pe.ps1", 1)],
    }
}

#[test]
fn input_paths_are_bounded() {
    assert_eq!(verify_inputs(&prepared("a".repeat(512))), Ok(()));
    assert_eq!(verify_inputs(&prepared("a".repeat(513))), Err(HostRuntimeError::PathTooLong));
    assert_eq!(verify_inputs(&prepared("é".repeat(257))), Err(HostRuntimeError::PathTooLong));
}

#[test]
fn transfer_paths_are_safe_and_unique() {
    let mut seen = FileSet::new();
    assert_eq!(accept_transfer_path(TransferKind::Input, &mut seen, "target.exe"), Ok(()));
    assert_eq!(
        accept_transfer_path(TransferKind::Input, &mut seen, "target.exe"),
        Err(HostRuntimeError::DuplicateTransferPath(TransferKind::Input, "target.exe".into()))
    );
    assert_eq!(
        accept_transfer_path(TransferKind::Tools, &mut seen, "../escape.ps1"),
        Err(HostRuntimeError::UnsafeTransferPath(TransferKind::Tools, "../escape.ps1".into()))
    );
    assert_eq!(accept_transfer_path(TransferKind::Input, &mut seen, "dir/target.exe"), Ok(()));
    assert_eq!(seen.len(), 2);
}

fn config(adapter: WindowsRuntimeAdapter, entry: WindowsRuntimeEntry) -> WindowsRuntimeConfig {
    WindowsRuntimeConfig {
        adapter,
        entry,
        target_path: "target.exe".into(),
        target_sha256: DIGEST.into(),
        document: "{}".into(),
    }
}

fn command_line() -> WindowsRuntimeEntry {
    WindowsRuntimeEntry::CommandLine { path: "target.exe".into(), arguments: Vec::new() }
}

fn function() -> WindowsRuntimeEntry {
    WindowsRuntimeEntry::Function { module: "store.py".into(), function: "fetch".into() }
}

fn spec(entrypoint: HostRuntimeEntrypoint, config: Option<WindowsRuntimeConfig>) -> HostRuntimeSpec {
    HostRuntimeSpec {
        entrypoint,
        session: session(),
        root: PathBuf::from("/r"),
        tool_root: PathBuf::from("/t"),
        inputs: vec![
            HostRuntimeFileTransfer { source: PathBuf::from("/s/a"), path: "other.bin".into() },
            HostRuntimeFileTransfer { source: PathBuf::from("/s/b"), path: "target.exe".into() },
            HostRuntimeFileTransfer { source: PathBuf::from("/s/c"), path: "target.exe".into() },
        ],
        tools: Vec::new(),
        runtime_config: config,
    }
}

#[test]
fn entrypoint_validation() {
    assert_eq!(validate_entrypoint(&spec(HostRuntimeEntrypoint::OriginalPe, None), Ok(())), Err(HostRuntimeError::EntrypointConfigMismatch));
    assert_eq!(
        validate_entrypoint(&spec(HostRuntimeEntrypoint::OriginalPe, Some(config(WindowsRuntimeAdapter::OriginalPe64, command_line()))), Err("repeats must be positive".to_string())),
        Err(HostRuntimeError::InvalidRuntimeConfig("repeats must be positive".to_string()))
    );
    assert_eq!(validate_entrypoint(&spec(HostRuntimeEntrypoint::OriginalPe, Some(config(WindowsRuntimeAdapter::OriginalPe64, command_line()))), Ok(())), Ok(1));
    assert_eq!(validate_entrypoint(&spec(HostRuntimeEntrypoint::OriginalPe, Some(config(WindowsRuntimeAdapter::OriginalPe32, command_line()))), Ok(())), Ok(1));
    assert_eq!(
        validate_entrypoint(&spec(HostRuntimeEntrypoint::OriginalPe, Some(config(WindowsRuntimeAdapter::PythonCall, command_line()))), Ok(())),
        Err(HostRuntimeError::WrongAdapter(HostRuntimeEntrypoint::OriginalPe))
    );
    assert_eq!(
        validate_entrypoint(&spec(HostRuntimeEntrypoint::OriginalPe, Some(config(WindowsRuntimeAdapter::OriginalPe64, function()))), Ok(())),
        Err(HostRuntimeError::WrongEntry(HostRuntimeEntrypoint::OriginalPe))
    );
    assert_eq!(validate_entrypoint(&spec(HostRuntimeEntrypoint::WindowsPython, Some(config(WindowsRuntimeAdapter::PythonCall, function()))), Ok(())), Ok(1));
    assert_eq!(
        validate_entrypoint(&spec(HostRuntimeEntrypoint::WindowsPython, Some(config(WindowsRuntimeAdapter::PythonCall, command_line()))), Ok(())),
        Err(HostRuntimeError::WrongEntry(HostRuntimeEntrypoint::WindowsPython))
    );
    assert_eq!(
        validate_entrypoint(&spec(HostRuntimeEntrypoint::WindowsNativeSource, Some(config(WindowsRuntimeAdapter::NativeSource, command_line()))), Ok(())),
        Ok(1)
    );
    assert_eq!(
        validate_entrypoint(&spec(HostRuntimeEntrypoint::WindowsLibFuzzerPrebuilt, Some(config(WindowsRuntimeAdapter::NativeSource, command_line()))), Ok(())),
        Err(HostRuntimeError::WrongAdapter(HostRuntimeEntrypoint::WindowsLibFuzzerPrebuilt))
    );
    let mut missing = config(WindowsRuntimeAdapter::LibFuzzerPrebuilt, command_line());
    missing.target_path = "fuzzer.exe".into();
    assert_eq!(
        validate_entrypoint(&spec(HostRuntimeEntrypoint::WindowsLibFuzzerPrebuilt, Some(missing)), Ok(())),
        Err(HostRuntimeError::TargetMissing)
    );
    let s = spec(HostRuntimeEntrypoint::OriginalPe, Some(config(WindowsRuntimeAdapter::OriginalPe64, command_line())));
    assert_eq!(
        confirm_target_digest(&s, b"target"),
        Err(HostRuntimeError::TargetDigestMismatch)
    );
    let mut matching = config(WindowsRuntimeAdapter::OriginalPe64, command_line());
    matching.target_sha256 = TARGET_DIGEST.into();
    let s = spec(HostRuntimeEntrypoint::OriginalPe, Some(matching));
    assert_eq!(confirm_target_digest(&s, b"target"), Ok(()));
    assert_eq!(
        confirm_target_digest(&s, b"target!"),
        Err(HostRuntimeError::TargetDigestMismatch)
    );
    assert_eq!(confirm_target_digest(&spec(HostRuntimeEntrypoint::OriginalPe, None), b"target"), Err(HostRuntimeError::EntrypointConfigMismatch));
}

#[test]
fn runtime_arguments_run_the_script_with_the_session_directories() {
    let args = runtime_arguments(HostRuntimeEntrypoint::OriginalPe, "S", "I", "O", "P", "Z", "L");
    assert_eq!(
        args,
        vec![
            "-NoProfile", "-ExecutionPolicy", "Bypass", "-File", "S", "-InputPath", "I",
            "-OutputPath", "O", "-PythonPath", "P", "-ZigPath", "Z"
        ]
    );
    let args = runtime_arguments(HostRuntimeEntrypoint::WindowsLibFuzzerPrebuilt, "S", "I", "O", "P", "Z", "L");
    assert_eq!(args.len(), 15);
    assert_eq!(&args[13..], &["-LlvmPath".to_string(), "L".to_string()]);
}

#[test]
fn sha256_digests_are_lower_case_hex() {
    assert_eq!(
        sha256_hex(b"abc"),
        "ba7816bf8f01cfea414140de5dae2223b00361a396177a9cb410ff61f20015ad"
    );
    assert_eq!(sha256_hex(b"target"), TARGET_DIGEST);
    assert_eq!(
        sha256_hex(b""),
        "e3b0c44298fc1c149afbf4c8996fb92427ae41e4649b934ca495991b7852b855"
    );
    assert_eq!(to_lower_hex(&[0x00, 0x0f, 0xa0, 0xff]), "000fa0ff");
    assert_eq!(to_lower_hex(&[]), "");
}

#[test]
fn file_sets_and_policies_clone_and_compare() {
    let policy = HostRuntimeOutputPolicy::windows_lib_fuzzer();
    let copy = policy.clone();
    assert_eq!(copy, policy);
    assert_ne!(copy, HostRuntimeOutputPolicy::original_pe());
    assert_eq!(copy.optional_files.names(), policy.optional_files.names());
}
