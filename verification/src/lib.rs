//! Capture of the system-wide debug-output mailbox, with resolution of the
//! process to listen to by executable name.
//!
//! The library holds the decisions: how a process name is matched, how the
//! mailbox segment is laid out and decoded, in which order the channel's
//! named objects are opened or created, and how the capture loop moves
//! between its states. The operating-system calls themselves are made by the
//! program around the library, which hands in what it observed as plain
//! values and carries out the requests the library hands back.

pub mod text;
pub mod winapi;
pub mod mailbox;
pub mod processiter;
pub mod resolver;
pub mod channel;
pub mod capture;
pub mod command;

pub use crate::processiter::ProcessIterator;
pub use crate::resolver::find_process_id_by_name;
pub use crate::winapi::{DBWinBuffer, PROCESSENTRY32W};
