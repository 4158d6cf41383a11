//! The platform interface as plain data: the fixed names and numeric codes
//! the channel is opened with, and the layouts of the two records the
//! platform hands over.

use vstd::prelude::*;

verus! {

/// The value a snapshot request returns in place of a handle when it fails.
pub const INVALID_HANDLE_VALUE: isize = -1;

/// Snapshot request flag: include every process in the system.
pub const TH32CS_SNAPPROCESS: u32 = 0x00000002;

/// Name of the signal a consumer raises when it is prepared to receive.
pub const DBWIN_BUFFER_READY: &'static str = "DBWIN_BUFFER_READY";

/// Name of the signal a producer raises when a message has been written.
pub const DBWIN_DATA_READY: &'static str = "DBWIN_DATA_READY";

/// Name of the shared mailbox segment.
pub const DBWIN_BUFFER: &'static str = "DBWIN_BUFFER";

/// Size in bytes of the mailbox segment.
pub const BUF_SIZE: usize = 4096;

/// Size in bytes of the mailbox's payload field: the segment less the
/// producer identifier.
pub const PAYLOAD_SIZE: usize = 4092;

/// Number of UTF-16 units in a process entry's name field.
pub const MAX_PATH: usize = 260;

/// Wait result: the awaited signal was raised.
pub const WAIT_OBJECT_0: u32 = 0x00000000;

/// Wait timeout that never elapses.
pub const INFINITE: u32 = 0xFFFFFFFF;

/// Access requested on the two signals: everything.
pub const EVENT_ALL_ACCESS: u32 = 0x1F0003;

/// Access requested on the mailbox segment and its view: read.
pub const FILE_MAP_READ: u32 = 0x0004;

/// Page protection requested when the mailbox segment has to be created.
pub const PAGE_READWRITE: u32 = 0x04;

/// One entry of a process snapshot, field for field as the platform fills it.
#[allow(non_snake_case)]
#[derive(Clone, Copy, Debug, PartialEq, Eq)]
pub struct PROCESSENTRY32W {
    pub dwSize: u32,
    pub cntUsage: u32,
    pub th32ProcessID: u32,
    pub th32DefaultHeapID: usize,
    pub th32ModuleID: u32,
    pub cntThreads: u32,
    pub th32ParentProcessID: u32,
    pub pcPriClassBase: i32,
    pub dwFlags: u32,
    pub szExeFile: [u16; MAX_PATH],
}

/// The mailbox segment read as its two fields: who posted, and what.
#[derive(Clone, Copy, Debug, PartialEq, Eq)]
pub struct DBWinBuffer {
    pub process_id: u32,
    pub data: [u8; PAYLOAD_SIZE],
}

} // verus!
