//! Per-process, per-driver state management for an embedded kernel.
//!
//! A driver that is shared by every user process can keep a private, typed
//! piece of state for each process. The state (a *grant region*) lives in
//! the owning process's memory budget, is allocated lazily on first use,
//! and is never reclaimed while the process lives. A runtime borrow
//! discipline (a tri-state pointer slot per process and per grant) makes
//! sure that no two access paths ever hold the same region at once, even
//! across reentrant call chains.

pub mod can;
pub mod grant;
pub mod kernel;
pub mod process;

pub use grant::{AppliedGrant, Borrowed, Grant};
pub use kernel::Kernel;
pub use process::{AppId, Error, GrantPtr};
