//! The process enumerator: a snapshot of the process table, walked once from
//! its first entry to its last.

use vstd::prelude::*;
use crate::text::{
    decode_utf16_lossy,
    name_matches,
    same_ignoring_ascii_case,
    utf16_lossy,
    without_trailing_nul,
};
use crate::winapi::PROCESSENTRY32W;

verus! {

/// One live process as the enumerator reports it. The name is the snapshot
/// entry's name field decoded as it stands, NUL padding included.
#[derive(Debug, PartialEq, Eq)]
pub struct ProcessRecord {
    pub identifier: u32,
    pub executable_name: String,
}

/// A process record as a mathematical value.
pub struct ProcessRecordView {
    pub identifier: u32,
    pub executable_name: Seq<char>,
}

impl View for ProcessRecord {
    type V = ProcessRecordView;

    open spec fn view(&self) -> ProcessRecordView {
        ProcessRecordView { identifier: self.identifier, executable_name: self.executable_name@ }
    }
}

/// The record that a snapshot entry stands for.
pub open spec fn record_of(entry: PROCESSENTRY32W) -> ProcessRecordView {
    ProcessRecordView {
        identifier: entry.th32ProcessID,
        executable_name: utf16_lossy(entry.szExeFile@),
    }
}

/// The records that a process table stands for, in the table's order.
pub open spec fn records_of(table: Seq<PROCESSENTRY32W>) -> Seq<ProcessRecordView> {
    Seq::new(table.len(), |i: int| record_of(table[i]))
}

impl ProcessRecordView {
    /// Whether the record goes by the queried name: its stored name, less
    /// trailing NUL padding, is the query up to ASCII case.
    pub open spec fn is_named(self, query: Seq<char>) -> bool {
        same_ignoring_ascii_case(without_trailing_nul(self.executable_name), query)
    }
}

impl ProcessRecord {
    /// Whether the record goes by the queried name.
    pub fn matches(&self, query: &str) -> (named: bool)
        ensures
            named == self@.is_named(query@),
    {
        name_matches(self.executable_name.as_str(), query)
    }
}

/// The snapshot of the process table could not be taken.
#[derive(Clone, Copy, Debug, PartialEq, Eq, Structural)]
pub enum EnumerationError {
    SnapshotUnavailable,
}

/// A snapshot of the process table together with the place reached in it.
/// Records come out in the snapshot's order, each once; there is no way back.
pub struct ProcessIterator {
    table: Vec<PROCESSENTRY32W>,
    position: usize,
}

impl ProcessIterator {
    #[verifier::type_invariant]
    spec fn within_table(self) -> bool {
        self.position <= self.table.len()
    }

    /// The entries not yet yielded, next one first.
    pub closed spec fn remaining(self) -> Seq<PROCESSENTRY32W> {
        self.table@.skip(self.position as int)
    }

    /// Opens the enumerator on a snapshot: `Some` table as the platform
    /// filled it, or `None` where the platform could not take one.
    pub fn new(snapshot: Option<Vec<PROCESSENTRY32W>>) -> (opened: Result<
        ProcessIterator,
        EnumerationError,
    >)
        ensures
            match snapshot {
                Some(table) => opened matches Ok(processes) && processes.remaining() == table@,
                None => opened matches Err(EnumerationError::SnapshotUnavailable),
            },
    {
        match snapshot {
            Some(table) => Ok(ProcessIterator { table, position: 0 }),
            None => Err(EnumerationError::SnapshotUnavailable),
        }
    }

    /// Yields the next record, or `None` once the snapshot is exhausted; from
    /// then on every call yields `None`.
    pub fn next(&mut self) -> (item: Option<ProcessRecord>)
        ensures
            match item {
                Some(record) => {
                    &&& old(self).remaining().len() > 0
                    &&& record@ == record_of(old(self).remaining()[0])
                    &&& final(self).remaining() == old(self).remaining().drop_first()
                },
                None => {
                    &&& old(self).remaining().len() == 0
                    &&& final(self).remaining() == old(self).remaining()
                },
            },
    {
        proof {
            use_type_invariant(&*self);
        }
        if self.position < self.table.len() {
            let entry = &self.table[self.position];
            let identifier = entry.th32ProcessID;
            let executable_name = decode_utf16_lossy(entry.szExeFile.as_slice());
            self.position += 1;
            Some(ProcessRecord { identifier, executable_name })
        } else {
            None
        }
    }
}

} // verus!
