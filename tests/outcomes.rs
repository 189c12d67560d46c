use std::time::Duration;

use iocp_rs::{
    cancel_outcome, cvt, cvt_for_socket, dur_to_ms, finish_file_submission,
    finish_socket_submission, len, polled_one, port_created, posted, registered, timeout_ms,
    CompletionRecord, Context, IOType, IocpError, INFINITE,
};

#[test]
fn len_clamps_count() {
    let empty: [u8; 0] = [];
    assert_eq!(len(&empty), 0);
    assert_eq!(len(&[1u8, 2, 3]), 3);
    assert_eq!(len(&vec![0u64; 1000]), 1000);
}

#[test]
fn cvt_outcomes() {
    assert_eq!(cvt(1, 5), Ok(1));
    assert_eq!(cvt(-3, 5), Ok(-3));
    assert_eq!(cvt(0, 5), Err(IocpError::Os(5)));
    assert_eq!(cvt_for_socket(0, 7), Ok(0));
    assert_eq!(cvt_for_socket(12, 7), Ok(12));
    assert_eq!(cvt_for_socket(-1, 10054), Err(IocpError::Os(10054)));
}

#[test]
fn timeouts_in_milliseconds() {
    assert_eq!(dur_to_ms(None), INFINITE);
    assert_eq!(dur_to_ms(Some(Duration::from_millis(50))), 50);
    assert_eq!(dur_to_ms(Some(Duration::from_nanos(1))), 1);
    assert_eq!(dur_to_ms(Some(Duration::from_nanos(1_000_001))), 2);
    assert_eq!(dur_to_ms(Some(Duration::new(1, 500_000))), 1001);
    assert_eq!(dur_to_ms(Some(Duration::new(3, 0))), 3000);
    assert_eq!(dur_to_ms(Some(Duration::ZERO)), 0);
    assert_eq!(dur_to_ms(Some(Duration::from_millis(u32::MAX as u64 - 1))), u32::MAX - 1);
    assert_eq!(dur_to_ms(Some(Duration::from_millis(u32::MAX as u64))), INFINITE);
    assert_eq!(dur_to_ms(Some(Duration::from_secs(u64::MAX))), INFINITE);
    assert_eq!(timeout_ms(0, 50_000_000), 50);
    assert_eq!(timeout_ms(4_294_967, 294_000_000), 4_294_967_294);
    assert_eq!(timeout_ms(4_294_967, 295_000_000), INFINITE);
}

#[test]
fn poll_timeout_is_not_an_os_error() {
    assert_eq!(IocpError::from_poll_code(258), IocpError::Timeout);
    assert_eq!(IocpError::from_poll_code(6), IocpError::Os(6));
    assert_eq!(IocpError::Timeout.raw_os_error(), Some(258));
    assert_eq!(IocpError::Os(6).raw_os_error(), Some(6));
    assert_eq!(IocpError::RegistrationConflict.raw_os_error(), Some(87));
}

#[test]
fn second_registration_conflicts() {
    assert_eq!(registered(0x44, 0), Ok(()));
    assert_eq!(registered(0, 87), Err(IocpError::RegistrationConflict));
    assert_eq!(registered(0, 6), Err(IocpError::Os(6)));
    assert_eq!(IocpError::from_registration_code(87), IocpError::RegistrationConflict);
    assert_eq!(IocpError::from_registration_code(5), IocpError::Os(5));
}

#[test]
fn port_creation_and_post() {
    assert_eq!(port_created(0x80, 0), Ok(0x80));
    assert_eq!(port_created(0, 8), Err(IocpError::Os(8)));
    assert_eq!(posted(1, 0), Ok(()));
    assert_eq!(posted(0, 6), Err(IocpError::Os(6)));
}

#[test]
fn pending_submission_is_success() {
    let done = finish_file_submission(Context::new(3, b"xy".to_vec(), IOType::Write), 1, 0)
        .unwrap();
    let pending = finish_file_submission(Context::new(3, b"xy".to_vec(), IOType::Write), 0, 997)
        .unwrap();
    assert_eq!(done.get_buff(), pending.get_buff());
    assert_eq!(done.handle(), pending.handle());
    assert_eq!(done.io_type(), pending.io_type());
    assert_eq!(done.offset(), pending.offset());
    let failed = finish_file_submission(Context::new(3, b"xy".to_vec(), IOType::Write), 0, 5);
    assert_eq!(failed.err(), Some(IocpError::Os(5)));
}

#[test]
fn pending_socket_submission_is_success() {
    let done = finish_socket_submission(Context::new(3, vec![0; 4], IOType::Read), 0, 0).unwrap();
    let pending =
        finish_socket_submission(Context::new(3, vec![0; 4], IOType::Read), -1, 997).unwrap();
    assert_eq!(done.get_buff(), pending.get_buff());
    assert_eq!(done.io_type(), pending.io_type());
    let failed = finish_socket_submission(Context::new(3, vec![0; 4], IOType::Read), -1, 10054);
    assert_eq!(failed.err(), Some(IocpError::Os(10054)));
}

#[test]
fn cancel_of_finished_operation_succeeds() {
    assert_eq!(cancel_outcome(1, 0), Ok(()));
    assert_eq!(cancel_outcome(0, 1168), Ok(()));
    assert_eq!(cancel_outcome(0, 6), Err(IocpError::Os(6)));
}

#[test]
fn cancelled_read_then_short_poll() {
    let read = finish_file_submission(Context::new(9, vec![0; 8], IOType::Read), 0, 997).unwrap();
    assert_eq!(cancel_outcome(1, 0), Ok(()));
    let (offset_low, offset_high) = read.offset_halves();
    // Either nothing arrives before the deadline...
    let nothing = CompletionRecord {
        token: 0,
        bytes_transferred: 0,
        descriptor: 0,
        offset_low: 0,
        offset_high: 0,
        status: 0,
    };
    assert_eq!(polled_one(0, 258, nothing).unwrap_err(), IocpError::Timeout);
    // ...or exactly one completion: the aborted read's record (the wait
    // reports the abort, code 995), with what was transferred before the stop.
    let aborted = CompletionRecord {
        token: 3,
        bytes_transferred: 0,
        descriptor: 0x40,
        offset_low,
        offset_high,
        status: 0,
    };
    let done = polled_one(0, 995, aborted).unwrap();
    assert_eq!(done.token(), 3);
    assert_eq!(done.bytes_used(), 0);
    assert_eq!(done.descriptor(), 0x40);
    assert_eq!(done.status(), 995);
    assert_eq!(&read.get_buff()[..done.bytes_used() as usize], b"");
}
