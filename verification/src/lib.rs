//! Host-side runtime for Windows guest sessions: the session and receipt
//! rules, the output protocol and its size policy, the bounded capture of
//! process output, and the decisions that the I/O shell asks for.
pub mod process;
pub mod runtime;
