//! A Windows runtime configuration: the whole document that the guest
//! reads, and the parts of it that the host checks: the adapter that runs
//! the target, the kind of entry, and the target file with its expected
//! digest.
use vstd::prelude::*;

verus! {

/// How the guest runs the target.
#[derive(Debug, Clone, Copy, PartialEq, Eq, Structural)]
pub enum WindowsRuntimeAdapter {
    OriginalPe32,
    OriginalPe64,
    PythonCall,
    NativeSource,
    LibFuzzerPrebuilt,
}

/// Where execution of the target starts.
#[derive(Debug, Clone, PartialEq, Eq)]
pub enum WindowsRuntimeEntry {
    /// A program started with command-line arguments.
    CommandLine { path: String, arguments: Vec<String> },
    /// A function of a module.
    Function { module: String, function: String },
}

/// The parts of a runtime configuration that the host runtime checks.
#[derive(Debug, Clone, PartialEq, Eq)]
pub struct WindowsRuntimeConfig {
    pub adapter: WindowsRuntimeAdapter,
    pub entry: WindowsRuntimeEntry,
    /// The input path of the target.
    pub target_path: String,
    /// The target's SHA-256 digest.
    pub target_sha256: String,
    /// The whole configuration, as the JSON document that the guest reads;
    /// the fields above are the parts of it that the host checks.
    pub document: String,
}

} // verus!
