//! Process targeting and injection engine.
//!
//! The library decides; it never touches the operating system. A caller
//! hands it snapshots of the process table, the leading bytes of a module
//! file and the results of each operating-system step, and gets back typed
//! results: the process a selection designates, the description of a
//! module image, the verdict on their compatibility and, step by step, what
//! to ask of the operating system next while a module is being injected.
//!
//! - `platform`: instruction sets, pointer widths, and when a module's
//!   platform fits a process's.
//! - `process`: process records, and the snapshot of an enumeration.
//! - `resolver`: from a selection to one process of a snapshot.
//! - `module`: from the headers of a file to a module descriptor.
//! - `compat`: the verdict on a process and a module.
//! - `engine`: one injection attempt, as a state machine.
//! - `attempt`: the way to an attempt, in the order resolve, describe,
//!   check.
//!
//! Nothing here fails by panicking: every operation returns a typed result.

pub mod platform;
pub mod process;
pub mod resolver;
pub mod module;
pub mod compat;
pub mod engine;
pub mod attempt;
