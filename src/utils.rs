use vstd::prelude::*;

use crate::error::{IocpError, SOCKET_ERROR};

verus! {

/// The timeout value that makes a wait unbounded.
pub const INFINITE: u32 = 0xFFFF_FFFF;

/// `n` clamped at `u32::MAX`.
pub open spec fn clamp_u32(n: int) -> int {
    if n > u32::MAX { u32::MAX as int } else { n }
}

/// Number of elements of a list as the 32-bit count that native calls take,
/// clamped at `u32::MAX`.
pub fn len<T>(list: &[T]) -> (r: u32)
    ensures
        r as int == clamp_u32(list@.len() as int),
{
    let n = list.len();
    if n > u32::MAX as usize {
        u32::MAX
    } else {
        n as u32
    }
}

/// Outcome of a Win32 call that returns zero on failure; `last_error` is the
/// thread's last error code, read right after the call.
pub fn cvt(ret: i32, last_error: i32) -> (r: Result<i32, IocpError>)
    ensures
        r == if ret == 0 {
            Err::<i32, IocpError>(IocpError::Os(last_error))
        } else {
            Ok::<i32, IocpError>(ret)
        },
{
    if ret == 0 {
        Err(IocpError::Os(last_error))
    } else {
        Ok(ret)
    }
}

/// Outcome of a WinSock call that returns `SOCKET_ERROR` on failure; `code`
/// is WinSock's last error code, read right after the call.
pub fn cvt_for_socket(ret: i32, code: i32) -> (r: Result<i32, IocpError>)
    ensures
        r == if ret == SOCKET_ERROR {
            Err::<i32, IocpError>(IocpError::Os(code))
        } else {
            Ok::<i32, IocpError>(ret)
        },
{
    if ret == SOCKET_ERROR {
        Err(IocpError::Os(code))
    } else {
        Ok(ret)
    }
}

/// Whole milliseconds of a span of `secs` seconds and `nanos` nanoseconds,
/// rounded up.
pub open spec fn millis_ceil(secs: u64, nanos: u32) -> int {
    secs * 1000 + nanos / 1_000_000 + if nanos % 1_000_000 > 0 { 1int } else { 0int }
}

/// The wait in milliseconds that native calls take for a span: the span
/// rounded up to whole milliseconds, or `INFINITE` where that does not fit
/// below it.
pub open spec fn timeout_ms_spec(secs: u64, nanos: u32) -> u32 {
    if millis_ceil(secs, nanos) >= INFINITE {
        INFINITE
    } else {
        millis_ceil(secs, nanos) as u32
    }
}

/// Whole seconds of a span.
pub uninterp spec fn duration_secs(d: std::time::Duration) -> u64;

/// Fractional part of a span, in nanoseconds.
pub uninterp spec fn duration_subsec_nanos(d: std::time::Duration) -> u32;

/// Relies on Duration::as_secs: the whole seconds of the span.
pub assume_specification[ std::time::Duration::as_secs ](d: &std::time::Duration) -> (r: u64)
    ensures
        r == duration_secs(*d),
;

/// Relies on Duration::subsec_nanos: the fractional part, below one second.
pub assume_specification[ std::time::Duration::subsec_nanos ](d: &std::time::Duration) -> (r: u32)
    ensures
        r == duration_subsec_nanos(*d),
        r < 1_000_000_000,
;

/// The wait in milliseconds for a span of `secs` seconds and `nanos`
/// nanoseconds: rounded up, and `INFINITE` where it does not fit in 32 bits.
pub fn timeout_ms(secs: u64, nanos: u32) -> (r: u32)
    ensures
        r == timeout_ms_spec(secs, nanos),
{
    let sub: u64 = (nanos / 1_000_000) as u64 + if nanos % 1_000_000 > 0 { 1 } else { 0 };
    if secs >= (INFINITE as u64) / 1000 + 1 {
        INFINITE
    } else {
        let ms: u64 = secs * 1000 + sub;
        if ms >= INFINITE as u64 {
            INFINITE
        } else {
            ms as u32
        }
    }
}

/// The wait in milliseconds for an optional timeout; no timeout waits
/// without bound.
pub fn dur_to_ms(timeout: Option<std::time::Duration>) -> (r: u32)
    ensures
        r == match timeout {
            None => INFINITE,
            Some(d) => timeout_ms_spec(duration_secs(d), duration_subsec_nanos(d)),
        },
{
    match timeout {
        None => INFINITE,
        Some(d) => timeout_ms(d.as_secs(), d.subsec_nanos()),
    }
}

} // verus!
