//! A sandboxed scripting runtime core for auto splitters.
//!
//! Auto splitters are guest programs that watch another process's memory and
//! drive a speedrun timer. This crate holds the host side of the boundary:
//! the conventions of the guest interface, the registry of attached
//! processes, the host bindings with their argument validation, the stepping
//! and pacing rules of a loaded module, and the decisions of the controller
//! that loads and unloads modules.

pub mod abi;
pub mod controller;
pub mod environment;
pub mod memory;
pub mod mock;
pub mod process;
pub mod registry;
pub mod stepping;
pub mod timer;
pub mod trap;

pub use controller::Error;
pub use environment::Environment;
pub use mock::MockTimer;
pub use process::Address;
pub use registry::ProcessRegistry;
pub use timer::{TimeSpan, Timer, TimerState};
pub use trap::Trap;
