//! Keeps the default capture device at a configured volume level.
//!
//! The library holds every decision of the program: which levels are valid,
//! when a reading has drifted, what the drift-correction loop does next, what
//! the scheduled task looks like and in which order the task scheduler is
//! addressed. It performs no I/O itself. The host program executes the
//! requests that the library hands out and reports back what happened.

pub mod audio;
pub mod config;
pub mod drift;
pub mod error;
pub mod level;
pub mod operations;
pub mod passes;
pub mod scheduler;
pub mod script;
pub mod store;
pub mod supervisor;
pub mod task;
pub mod text;
pub mod tray;
