//! Core of an auto-clicker: a message-driven control plane that arms and
//! disarms a repeating-action worker via a global hotkey, supports rebinding
//! the hotkey at runtime, and decides when a worker's loop must stop.
//!
//! Everything here is pure logic over plain values. The surrounding program
//! owns the threads, the input hooks and the user interface; it feeds
//! messages in and carries the returned directives out.

pub mod control;
pub mod laws;
pub mod observer;
pub mod worker;
