//! Process-control engine: enumerate running processes, resolve each one's
//! executable name, match names against a configured list of lowercase
//! fragments, and decide which processes to terminate under policy control
//! (blacklist mode, dry run, verbosity).
//!
//! This crate holds the verified decision core. The operating-system calls
//! that feed it (process enumeration, handle acquisition, module queries,
//! termination) live outside the library and hand it plain values.

pub mod arguments;
pub mod config;
pub mod cycle;
pub mod enumerate;
pub mod handle;
pub mod matcher;
pub mod resolve;
pub mod terminate;

pub use arguments::Arguments;
pub use config::RunningConfig;
pub use cycle::CyclePlan;
pub use enumerate::WinProcess;
pub use handle::HandleGuard;
pub use resolve::ProcessDescriptor;
pub use terminate::TerminationOutcome;
