use vstd::prelude::*;

use crate::context::{join_halves, join_offset};

verus! {

/// One completion record as the port hands it out: the token of the
/// registration, the byte count, the address of the operation's native
/// descriptor, the two offset halves that descriptor holds, and the status of
/// the I/O (0 when it succeeded, else its Win32 error code).
#[derive(Clone, Copy, Debug, PartialEq, Eq, Structural)]
pub struct CompletionRecord {
    pub token: usize,
    pub bytes_transferred: u32,
    pub descriptor: usize,
    pub offset_low: u32,
    pub offset_high: u32,
    pub status: i32,
}

/// A decoded completion: token, bytes transferred and byte offset. It owns no
/// buffer; the caller correlates it with the context it submitted.
#[derive(Clone, Copy, Debug, PartialEq, Eq)]
pub struct OperationalResult {
    entry: CompletionRecord,
}

impl View for OperationalResult {
    type V = CompletionRecord;

    closed spec fn view(&self) -> CompletionRecord {
        self.entry
    }
}

impl OperationalResult {
    /// The result that a completion record decodes to.
    pub fn new(entry: CompletionRecord) -> (r: OperationalResult)
        ensures
            r@ == entry,
    {
        OperationalResult { entry }
    }

    /// The token of the registration that the operation's handle was bound with.
    pub fn token(&self) -> (r: usize)
        ensures
            r == self@.token,
    {
        self.entry.token
    }

    /// The byte offset that the operation was submitted at.
    pub fn offset(&self) -> (r: u64)
        ensures
            r == join_halves(self@.offset_low, self@.offset_high),
    {
        join_offset(self.entry.offset_low, self.entry.offset_high)
    }

    /// The number of bytes that the operation transferred.
    pub fn bytes_used(&self) -> (r: u32)
        ensures
            r == self@.bytes_transferred,
    {
        self.entry.bytes_transferred
    }

    /// The status of the I/O: 0 when it succeeded, else its Win32 error code
    /// (995 for an operation that was cancelled).
    pub fn status(&self) -> (r: i32)
        ensures
            r == self@.status,
    {
        self.entry.status
    }

    /// The address of the operation's native descriptor.
    pub fn descriptor(&self) -> (r: usize)
        ensures
            r == self@.descriptor,
    {
        self.entry.descriptor
    }
}

} // verus!
