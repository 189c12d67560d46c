use iocp_rs::{NetworkSubsystem, SockAddr};

#[test]
fn ipv4_native_layout() {
    let a = SockAddr::V4 { ip: [127, 0, 0, 1], port: 999 };
    let b = a.to_native();
    assert_eq!(b, vec![2, 0, 0x03, 0xe7, 127, 0, 0, 1, 0, 0, 0, 0, 0, 0, 0, 0]);
    assert_eq!(SockAddr::from_native(&b, b.len() as i32), Some(a));
}

#[test]
fn ipv6_native_layout() {
    let mut ip = [0u8; 16];
    ip[15] = 1;
    ip[0] = 0xfe;
    let a = SockAddr::V6 { ip, port: 0x1234, flowinfo: 0x0102_0304, scope_id: 0x0a0b_0c0d };
    let b = a.to_native();
    assert_eq!(b.len(), 28);
    assert_eq!(&b[..8], &[23, 0, 0x12, 0x34, 1, 2, 3, 4]);
    assert_eq!(&b[8..24], &ip);
    assert_eq!(&b[24..], &[0x0d, 0x0c, 0x0b, 0x0a]);
    assert_eq!(SockAddr::from_native(&b, 28), Some(a));
}

#[test]
fn decode_rejects_bad_lengths_and_families() {
    let v4 = SockAddr::V4 { ip: [10, 1, 2, 3], port: 80 }.to_native();
    assert_eq!(SockAddr::from_native(&v4, 3), None);
    assert_eq!(SockAddr::from_native(&v4, -1), None);
    assert_eq!(SockAddr::from_native(&v4, 15), None);
    assert_eq!(SockAddr::from_native(&v4, 17), None);
    let mut other = v4.clone();
    other[0] = 1;
    assert_eq!(SockAddr::from_native(&other, 16), None);
    let mut big = v4.clone();
    big.extend_from_slice(&[9; 16]);
    assert_eq!(
        SockAddr::from_native(&big, 32),
        Some(SockAddr::V4 { ip: [10, 1, 2, 3], port: 80 })
    );
}

#[test]
fn subsystem_started_once_and_torn_down_once() {
    let mut s = NetworkSubsystem::new();
    assert!(!s.is_started());
    assert!(s.acquire());
    assert!(!s.acquire());
    assert_eq!(s.users(), 2);
    assert!(!s.release());
    assert!(s.release());
    assert!(!s.is_started());
    assert!(!s.release());
    assert_eq!(s.users(), 0);
    assert!(s.acquire());
}
