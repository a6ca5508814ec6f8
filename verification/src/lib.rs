//! A debounced, filtered notifier of file-system changes, with the pure parts
//! of a remote-shell wrapper beside it.

pub mod batch;
pub mod classify;
pub mod clock;
pub mod controller;
pub mod error;
pub mod laws;
pub mod notifier;
pub mod ssh;
