use aegis_application::process::{
    append, check_batch_command, inherited_environment_keys, temporary_directory_keys,
    ProcessError, ProcessOutput, ReapAction, RunEnd, LOG_LIMIT, REAP_POLLS,
};
use aegis_application::runtime::output::{decode_guest_output, decode_guest_output_with, execution_report};

#[test]
fn append_keeps_chunks_within_the_limit() {
    let mut output = ProcessOutput::new();
    assert!(append(&mut output, "stdout", b"hello"));
    assert!(append(&mut output, "stderr", b"oops"));
    assert!(append(&mut output, "other", b"!"));
    assert_eq!(output.stdout, b"hello");
    assert_eq!(output.stderr, b"oops!");
    assert!(!output.truncated);
}

#[test]
fn append_truncates_at_the_limit() {
    let mut output = ProcessOutput::new();
    let big = vec![7u8; LOG_LIMIT - 2];
    assert!(append(&mut output, "stdout", &big));
    assert!(append(&mut output, "stdout", b"abcd"));
    assert_eq!(output.stdout.len(), LOG_LIMIT);
    assert_eq!(&output.stdout[LOG_LIMIT - 2..], b"ab");
    assert!(output.truncated);
    assert!(!append(&mut output, "stdout", b"x"));
    assert_eq!(output.stdout.len(), LOG_LIMIT);
    assert!(output.stderr.is_empty());
    assert!(append(&mut output, "stderr", b"x"));
}

#[test]
fn batch_files_refuse_metacharacters() {
    let args = vec!["/D".to_string(), "plain".to_string()];
    assert_eq!(check_batch_command(Some("cmd"), "C:/t/run.cmd", &args), Ok(()));
    let bad = vec!["a & b".to_string()];
    assert_eq!(
        check_batch_command(Some("BaT"), "run.bat", &bad),
        Err(ProcessError::UnsupportedBatchMetacharacters)
    );
    assert_eq!(
        check_batch_command(Some("cmd"), "C:/100%/run.cmd", &args),
        Err(ProcessError::UnsupportedBatchMetacharacters)
    );
    assert_eq!(check_batch_command(Some("exe"), "ping.exe", &bad), Ok(()));
    assert_eq!(check_batch_command(None, "ping", &bad), Ok(()));
    assert_eq!(check_batch_command(Some("bats"), "x.bats", &bad), Ok(()));
    for c in ["%", "!", "&", "|", "<", ">", "^", "\r", "\n"] {
        assert!(check_batch_command(Some("CMD"), "x.cmd", &[c.to_string()]).is_err(), "{c:?}");
    }
}

#[test]
fn environment_keys() {
    assert_eq!(
        inherited_environment_keys(),
        vec!["PATH", "JAVA_HOME", "SystemRoot", "WINDIR", "COMSPEC", "PATHEXT", "LANG", "LC_ALL"]
    );
    assert_eq!(temporary_directory_keys(), vec!["TMPDIR", "TMP", "TEMP"]);
}

#[test]
fn guest_output_decoding() {
    assert_eq!(decode_guest_output("héllo".as_bytes()), "héllo");
    assert_eq!(decode_guest_output(&[0x66, 0xff, 0x67]), "f\u{FFFD}g");
    assert_eq!(decode_guest_output_with(&[0x66, 0xff], Some("from code page".into())), "from code page");
    assert_eq!(decode_guest_output_with(b"utf8", Some("ignored".into())), "utf8");
}

#[test]
fn execution_reports_success_only_for_a_clean_exit() {
    let mut output = ProcessOutput::new();
    output.exit_code = Some(0);
    output.processes_reaped = true;
    output.stdout = b"done".to_vec();
    let report = execution_report(&output, None, None);
    assert!(report.success);
    assert_eq!(report.stdout, "done");
    assert_eq!(report.exit_code, Some(0));
    output.timed_out = true;
    assert!(!execution_report(&output, None, None).success);
    output.timed_out = false;
    output.processes_reaped = false;
    assert!(!execution_report(&output, None, None).success);
    output.processes_reaped = true;
    output.exit_code = Some(1);
    assert!(!execution_report(&output, None, None).success);
    output.exit_code = None;
    assert!(!execution_report(&output, None, None).success);
    output.exit_code = Some(0);
    output.cancelled = true;
    let report = execution_report(&output, None, None);
    assert!(!report.success);
    assert!(report.cancelled);
}

#[test]
fn the_end_of_a_run_marks_one_cause() {
    let mut output = ProcessOutput::new();
    assert!(append(&mut output, "stdout", b"kept"));
    output.end_run(RunEnd::Cancelled, Some(1));
    assert!(output.cancelled && !output.timed_out);
    assert_eq!(output.exit_code, Some(1));
    assert_eq!(output.stdout, b"kept");
    let mut output = ProcessOutput::new();
    output.end_run(RunEnd::TimedOut, None);
    assert!(output.timed_out && !output.cancelled);
    assert_eq!(output.exit_code, None);
    let mut output = ProcessOutput::new();
    output.end_run(RunEnd::Exited, Some(0));
    assert!(!output.timed_out && !output.cancelled);
    assert_eq!(output.exit_code, Some(0));
}

#[test]
fn reaping_polls_until_the_job_is_empty_or_the_polls_run_out() {
    let mut output = ProcessOutput::new();
    assert_eq!(output.reap_step(0, false), ReapAction::WaitThenPoll);
    assert!(!output.processes_reaped);
    assert_eq!(output.reap_step(REAP_POLLS - 2, false), ReapAction::WaitThenPoll);
    assert_eq!(output.reap_step(REAP_POLLS - 1, false), ReapAction::WaitThenStop);
    assert!(!output.processes_reaped);
    assert_eq!(output.reap_step(3, true), ReapAction::Stop);
    assert!(output.processes_reaped);
    assert_eq!(REAP_POLLS, 100);
}
