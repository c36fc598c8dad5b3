//! A system call tracer's decision logic: the system call table, the
//! filter that chooses which calls to report, and the state machine that
//! drives a traced child process from stop to stop.
pub mod args;
pub mod catalog;
pub mod filter;
pub mod laws;
pub mod tracer;

pub use args::Opt;
pub use filter::{InvalidKind, InvalidOption, TraceSpec};
pub use tracer::{Command, Phase, SessionState, StopEvent, Step, SyscallEvent, TracerSession};
