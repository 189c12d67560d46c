use vstd::prelude::*;

use crate::error::{poll_error_spec, registration_error_spec, IocpError};
use crate::operational_result::{CompletionRecord, OperationalResult};
use crate::utils::cvt;
use windows_sys::Win32::Foundation::HANDLE;

verus! {

/// Completes the creation of a port whose native call returned `ret`: the
/// port's handle, or the error with `last_error`, the thread's last error code.
pub fn port_created(ret: HANDLE, last_error: i32) -> (r: Result<HANDLE, IocpError>)
    ensures
        r == if ret == 0 {
            Err::<HANDLE, IocpError>(IocpError::Os(last_error))
        } else {
            Ok::<HANDLE, IocpError>(ret)
        },
{
    if ret == 0 {
        Err(IocpError::Os(last_error))
    } else {
        Ok(ret)
    }
}

/// Completes the registration of a handle whose native call returned `ret`;
/// a handle that is already bound to a port is a registration conflict.
pub fn registered(ret: HANDLE, last_error: i32) -> (r: Result<(), IocpError>)
    ensures
        r == if ret == 0 {
            Err::<(), IocpError>(registration_error_spec(last_error))
        } else {
            Ok::<(), IocpError>(())
        },
{
    if ret == 0 {
        Err(IocpError::from_registration_code(last_error))
    } else {
        Ok(())
    }
}

/// Whether a wait for one completion dequeued a record: the wait succeeded,
/// or it reports the failure of an I/O whose record it still filled in (the
/// record then names the operation's descriptor).
pub open spec fn dequeued(ret: i32, entry: CompletionRecord) -> bool {
    ret != 0 || entry.descriptor != 0
}

/// The record that a wait for one completion returns: the one it filled, with
/// the status that the wait reports for the I/O.
pub open spec fn with_wait_status(ret: i32, last_error: i32, entry: CompletionRecord) -> CompletionRecord {
    CompletionRecord { status: if ret != 0 { 0 } else { last_error }, ..entry }
}

/// Completes a wait for one completion whose native call returned `ret` and
/// filled `entry`: the decoded completion wherever a record was dequeued, also
/// that of a failed or cancelled I/O, whose status is then `last_error`;
/// otherwise a timeout or the OS error.
pub fn polled_one(ret: i32, last_error: i32, entry: CompletionRecord) -> (r: Result<
    OperationalResult,
    IocpError,
>)
    ensures
        dequeued(ret, entry) <==> r is Ok,
        r matches Ok(res) ==> res@ == with_wait_status(ret, last_error, entry),
        r matches Err(e) ==> e == poll_error_spec(last_error),
{
    if ret == 0 && entry.descriptor == 0 {
        Err(IocpError::from_poll_code(last_error))
    } else {
        let status = if ret != 0 { 0 } else { last_error };
        Ok(OperationalResult::new(CompletionRecord { status, ..entry }))
    }
}

/// The number of completions that a batch wait returns: what the port
/// reported as removed, never more than the batch holds.
pub open spec fn batch_len(capacity: nat, removed: u32) -> nat {
    if removed < capacity { removed as nat } else { capacity }
}

/// Completes a wait for a batch whose native call returned `ret`, filled the
/// front of `entries` and reported `removed` of them: one decoded completion
/// for each removed record, with the status it carries, in the port's order,
/// and never more than `entries` holds.
pub fn polled_many(ret: i32, last_error: i32, entries: &Vec<CompletionRecord>, removed: u32) -> (r:
    Result<Vec<OperationalResult>, IocpError>)
    ensures
        ret != 0 <==> r is Ok,
        r matches Ok(v) ==> {
            &&& v@.len() == batch_len(entries@.len(), removed)
            &&& v@.len() <= entries@.len()
            &&& forall|i: int| 0 <= i < v@.len() ==> (#[trigger] v@[i])@ == entries@[i]
        },
        r matches Err(e) ==> e == poll_error_spec(last_error),
{
    if ret == 0 {
        return Err(IocpError::from_poll_code(last_error));
    }
    let n: usize = if (removed as usize) < entries.len() {
        removed as usize
    } else {
        entries.len()
    };
    let mut out: Vec<OperationalResult> = Vec::new();
    let mut i: usize = 0;
    while i < n
        invariant
            n <= entries@.len(),
            n == batch_len(entries@.len(), removed),
            i <= n,
            out@.len() == i,
            forall|j: int| 0 <= j < i ==> (#[trigger] out@[j])@ == entries@[j],
        decreases n - i,
    {
        out.push(OperationalResult::new(entries[i]));
        i += 1;
    }
    Ok(out)
}

/// Completes the posting of a synthetic completion whose native call
/// returned `ret`.
pub fn posted(ret: i32, last_error: i32) -> (r: Result<(), IocpError>)
    ensures
        r == if ret == 0 {
            Err::<(), IocpError>(IocpError::Os(last_error))
        } else {
            Ok::<(), IocpError>(())
        },
{
    match cvt(ret, last_error) {
        Ok(_) => Ok(()),
        Err(e) => Err(e),
    }
}

} // verus!
