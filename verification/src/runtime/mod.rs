pub mod text;
pub mod paths;
pub mod file_set;
pub mod error;
pub mod windows_host;
pub mod windows_runtime;
pub mod policy;
pub mod output;
pub mod digest;
