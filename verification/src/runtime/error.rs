//! The ways in which a host runtime request is refused.
use vstd::prelude::*;

use crate::runtime::windows_host::HostRuntimeEntrypoint;

verus! {

/// A session field that must be an identifier.
#[derive(Debug, Clone, Copy, PartialEq, Eq, Structural)]
pub enum SessionField {
    RunId,
    AttemptId,
    SessionId,
}

/// Which set of files a transfer belongs to.
#[derive(Debug, Clone, Copy, PartialEq, Eq, Structural)]
pub enum TransferKind {
    Input,
    Tools,
}

/// Why the host runtime refused a session, a receipt, a policy, a transfer
/// or the guest's output.
#[derive(Debug, Clone, PartialEq, Eq)]
pub enum HostRuntimeError {
    /// The field does not hold 1-128 ASCII letters, digits, hyphens or underscores.
    InvalidIdentifier(SessionField),
    /// `session_id` does not start with `attempt_id` and a hyphen.
    SessionNotNamespaced,
    /// The target or configuration hash is not a SHA-256 value.
    InvalidDigest,
    /// The receipt's schema version is not the supported one.
    UnsupportedReceiptSchema,
    /// The receipt names another run, attempt or session.
    ReceiptForAnotherAttempt,
    /// The receipt's status is neither `COMPLETED` nor `ERROR`.
    InvalidReceiptStatus,
    /// The policy does not require `session.json`.
    MissingReceiptFile,
    /// A file is both required and optional.
    OverlappingOutputFiles,
    /// The policy's size limits are inconsistent or too large.
    InvalidSizePolicy,
    /// A policy file name is not a safe relative path.
    InvalidOutputPath(String),
    /// An input or tool path is longer than 512 bytes.
    PathTooLong,
    /// The entrypoint and the runtime configuration do not match.
    EntrypointConfigMismatch,
    /// The runtime configuration failed its own validation, with that
    /// validation's message.
    InvalidRuntimeConfig(String),
    /// The configuration's adapter does not suit the entrypoint.
    WrongAdapter(HostRuntimeEntrypoint),
    /// The configuration's entry does not suit the entrypoint.
    WrongEntry(HostRuntimeEntrypoint),
    /// No input is the configuration's target.
    TargetMissing,
    /// The target's hash differs from the configured one.
    TargetDigestMismatch,
    /// A transfer path is not a safe relative path.
    UnsafeTransferPath(TransferKind, String),
    /// Two transfers share a path.
    DuplicateTransferPath(TransferKind, String),
    /// An optional output exists but is not a file.
    OutputNotAFile(String),
    /// An optional output file exceeds the per-file limit.
    OutputFileTooLarge(String),
    /// The outputs together exceed the total limit.
    OutputTooLarge,
    /// The output directory holds a name that the policy does not allow.
    UnexpectedOutput(String),
}

} // verus!
