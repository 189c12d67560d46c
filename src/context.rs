use vstd::prelude::*;

use crate::error::{IocpError, ERROR_IO_PENDING, ERROR_NOT_FOUND, SOCKET_ERROR, WSA_IO_PENDING};
use crate::utils::{cvt, cvt_for_socket};
use windows_sys::Win32::Foundation::HANDLE;

verus! {

/// Kind of an operation.
#[derive(Clone, Copy, Debug, PartialEq, Eq, Structural)]
pub enum IOType {
    Read,
    Write,
}

/// The low 32 bits of a byte offset.
pub open spec fn low_half(offset: u64) -> u32 {
    (offset % 0x1_0000_0000) as u32
}

/// The high 32 bits of a byte offset.
pub open spec fn high_half(offset: u64) -> u32 {
    (offset / 0x1_0000_0000) as u32
}

/// The byte offset made of a low and a high 32-bit half.
pub open spec fn join_halves(low: u32, high: u32) -> u64 {
    (high * 0x1_0000_0000 + low) as u64
}

/// Splits a byte offset into the low and high 32-bit halves that a native
/// operation descriptor holds.
pub fn split_offset(offset: u64) -> (r: (u32, u32))
    ensures
        r == (low_half(offset), high_half(offset)),
{
    let low = (offset & 0xFFFF_FFFF) as u32;
    let high = (offset >> 32) as u32;
    proof {
        assert(offset & 0xFFFF_FFFF == offset % 0x1_0000_0000) by (bit_vector);
        assert(offset >> 32 == offset / 0x1_0000_0000) by (bit_vector);
    }
    (low, high)
}

/// Joins the low and high 32-bit halves of a native operation descriptor
/// into a byte offset.
pub fn join_offset(low: u32, high: u32) -> (r: u64)
    ensures
        r == join_halves(low, high),
        r == high * 0x1_0000_0000 + low,
{
    let l: u64 = low as u64;
    let h: u64 = high as u64;
    proof {
        assert((h << 32) | l == h * 0x1_0000_0000 + l) by (bit_vector)
            requires
                h < 0x1_0000_0000,
                l < 0x1_0000_0000,
        ;
    }
    (h << 32) | l
}

/// Splitting a byte offset into halves and joining them gives the offset
/// back, for every 64-bit offset.
pub proof fn lemma_offset_round_trip(offset: u64)
    ensures
        join_halves(low_half(offset), high_half(offset)) == offset,
{
}

/// Model of a `Context`. The buffer is shared with the kernel while the
/// operation is outstanding: a read's bytes are whatever the kernel put
/// there, so the model keeps the buffer's length, and the bytes only of a
/// write, which the kernel reads and does not change.
pub struct ContextModel {
    pub buff_len: nat,
    pub payload: Option<Seq<u8>>,
    pub handle: HANDLE,
    pub io_type: IOType,
    pub offset: u64,
}

/// The bytes that the model of a context keeps: those of a write, none of a read.
pub open spec fn payload_of(io_type: IOType, buff: Seq<u8>) -> Option<Seq<u8>> {
    match io_type {
        IOType::Write => Some(buff),
        IOType::Read => None,
    }
}

/// One submitted operation: the buffer it owns while outstanding, its kind,
/// the handle it targets and the byte offset of a positional operation, kept
/// as the two 32-bit halves of the native descriptor.
pub struct Context {
    buff: Vec<u8>,
    handle: HANDLE,
    io_type: IOType,
    offset_low: u32,
    offset_high: u32,
}

impl View for Context {
    type V = ContextModel;

    closed spec fn view(&self) -> ContextModel {
        ContextModel {
            buff_len: self.buff@.len(),
            payload: payload_of(self.io_type, self.buff@),
            handle: self.handle,
            io_type: self.io_type,
            offset: join_halves(self.offset_low, self.offset_high),
        }
    }
}

impl Context {
    /// A context that takes over `buff`, at offset zero.
    pub fn new(handle: HANDLE, buff: Vec<u8>, io_type: IOType) -> (r: Context)
        ensures
            r@ == (ContextModel {
                buff_len: buff@.len(),
                payload: payload_of(io_type, buff@),
                handle,
                io_type,
                offset: 0,
            }),
    {
        Context { buff, handle, io_type, offset_low: 0, offset_high: 0 }
    }

    /// Sets the byte offset of a positional operation.
    pub fn set_offset(&mut self, offset: u64)
        ensures
            final(self)@ == (ContextModel { offset, ..old(self)@ }),
    {
        let (low, high) = split_offset(offset);
        proof {
            lemma_offset_round_trip(offset);
        }
        self.offset_low = low;
        self.offset_high = high;
    }

    /// The byte offset of the operation.
    pub fn offset(&self) -> (r: u64)
        ensures
            r == self@.offset,
    {
        join_offset(self.offset_low, self.offset_high)
    }

    /// The low and high halves of the byte offset, as the native descriptor
    /// holds them.
    pub fn offset_halves(&self) -> (r: (u32, u32))
        ensures
            r == (low_half(self@.offset), high_half(self@.offset)),
    {
        proof {
            let (l, h) = (self.offset_low, self.offset_high);
            assert(low_half(join_halves(l, h)) == l && high_half(join_halves(l, h)) == h);
        }
        (self.offset_low, self.offset_high)
    }

    /// The buffer of the operation: the bytes of a write; for a read, the
    /// bytes that its completion reported are at the front once that
    /// completion has been observed.
    pub fn get_buff(&self) -> (r: &[u8])
        ensures
            r@.len() == self@.buff_len,
            self@.payload matches Some(p) ==> r@ == p,
    {
        self.buff.as_slice()
    }

    /// The kind of the operation.
    pub fn io_type(&self) -> (r: &IOType)
        ensures
            *r == self@.io_type,
    {
        &self.io_type
    }

    /// The handle that the operation targets.
    pub fn handle(&self) -> (r: HANDLE)
        ensures
            r == self@.handle,
    {
        self.handle
    }

    /// Gives the buffer back once the operation is over.
    pub fn into_buff(self) -> (r: Vec<u8>)
        ensures
            r@.len() == self@.buff_len,
            self@.payload matches Some(p) ==> r@ == p,
    {
        self.buff
    }
}

/// Outcome of a submission whose native call returned `status`: success and
/// the `pending` status both hand the context back, any other failure is the
/// error (the buffer is then released with the context).
pub open spec fn submission_spec(
    context: Context,
    status: Result<i32, IocpError>,
    pending: i32,
) -> Result<Context, IocpError> {
    match status {
        Ok(_) => Ok(context),
        Err(e) => if e == IocpError::Os(pending) {
            Ok(context)
        } else {
            Err(e)
        },
    }
}

/// Outcome of a submission through a Win32 call (`ReadFile`, `WriteFile`)
/// that returned `ret`, with `last_error` the thread's last error code.
pub open spec fn file_submission_spec(context: Context, ret: i32, last_error: i32) -> Result<
    Context,
    IocpError,
> {
    submission_spec(
        context,
        if ret == 0 {
            Err(IocpError::Os(last_error))
        } else {
            Ok(ret)
        },
        ERROR_IO_PENDING,
    )
}

/// Outcome of a submission through a WinSock call (`WSARecv`, `WSASend`, ...)
/// that returned `ret`, with `code` WinSock's last error code.
pub open spec fn socket_submission_spec(context: Context, ret: i32, code: i32) -> Result<
    Context,
    IocpError,
> {
    submission_spec(
        context,
        if ret == SOCKET_ERROR {
            Err(IocpError::Os(code))
        } else {
            Ok(ret)
        },
        WSA_IO_PENDING,
    )
}

fn finish_submission(context: Context, status: Result<i32, IocpError>, pending: i32) -> (r: Result<
    Context,
    IocpError,
>)
    ensures
        r == submission_spec(context, status, pending),
{
    match status {
        Ok(_) => Ok(context),
        Err(e) => {
            if e == IocpError::Os(pending) {
                Ok(context)
            } else {
                Err(e)
            }
        },
    }
}

/// Completes a submission through a Win32 call that returned `ret`;
/// `last_error` is the thread's last error code, read right after the call.
pub fn finish_file_submission(context: Context, ret: i32, last_error: i32) -> (r: Result<
    Context,
    IocpError,
>)
    ensures
        r == file_submission_spec(context, ret, last_error),
{
    finish_submission(context, cvt(ret, last_error), ERROR_IO_PENDING)
}

/// Completes a submission through a WinSock call that returned `ret`;
/// `code` is WinSock's last error code, read right after the call.
pub fn finish_socket_submission(context: Context, ret: i32, code: i32) -> (r: Result<
    Context,
    IocpError,
>)
    ensures
        r == socket_submission_spec(context, ret, code),
{
    finish_submission(context, cvt_for_socket(ret, code), WSA_IO_PENDING)
}

/// A submission that the native call reports as pending returns the same
/// `Ok(context)` as one that the call completed at once, for files and for
/// sockets alike; any other failure is an error.
pub proof fn lemma_pending_normalization(context: Context, ret: i32, last_error: i32)
    ensures
        ret != 0 ==> file_submission_spec(context, ret, last_error) == file_submission_spec(
            context,
            0,
            ERROR_IO_PENDING,
        ),
        file_submission_spec(context, 0, ERROR_IO_PENDING) == Ok::<Context, IocpError>(context),
        ret != SOCKET_ERROR ==> socket_submission_spec(context, ret, last_error)
            == socket_submission_spec(context, SOCKET_ERROR, WSA_IO_PENDING),
        socket_submission_spec(context, SOCKET_ERROR, WSA_IO_PENDING) == Ok::<
            Context,
            IocpError,
        >(context),
        last_error != ERROR_IO_PENDING ==> file_submission_spec(context, 0, last_error) == Err::<
            Context,
            IocpError,
        >(IocpError::Os(last_error)),
{
}

/// Outcome of a cancellation request whose native call (`CancelIoEx`)
/// returned `ret`: an operation that was stopped, and one that was no longer
/// outstanding, are both success.
pub open spec fn cancel_spec(ret: i32, last_error: i32) -> Result<(), IocpError> {
    if ret != 0 || last_error == ERROR_NOT_FOUND {
        Ok(())
    } else {
        Err(IocpError::Os(last_error))
    }
}

/// Completes a cancellation request whose native call returned `ret`;
/// `last_error` is the thread's last error code, read right after the call.
pub fn cancel_outcome(ret: i32, last_error: i32) -> (r: Result<(), IocpError>)
    ensures
        r == cancel_spec(ret, last_error),
{
    match cvt(ret, last_error) {
        Ok(_) => Ok(()),
        Err(e) => {
            if e == IocpError::Os(ERROR_NOT_FOUND) {
                Ok(())
            } else {
                Err(e)
            }
        },
    }
}

/// Cancelling an operation that has already completed succeeds: the request
/// finds nothing to stop, and that is no error.
pub proof fn lemma_cancel_idempotent()
    ensures
        cancel_spec(0, ERROR_NOT_FOUND) == Ok::<(), IocpError>(()),
{
}

} // verus!
