use vstd::prelude::*;

verus! {

/// Address family tag of an IPv4 socket address.
pub const AF_INET: u16 = 2;

/// Address family tag of an IPv6 socket address.
pub const AF_INET6: u16 = 23;

/// Size in bytes of the native IPv4 socket address (`SOCKADDR_IN`).
pub const SOCKADDR_IN_LEN: usize = 16;

/// Size in bytes of the native IPv6 socket address (`SOCKADDR_IN6`).
pub const SOCKADDR_IN6_LEN: usize = 28;

/// A socket address: the peer of a datagram or stream.
#[derive(Clone, Copy, Debug, PartialEq, Eq)]
pub enum SockAddr {
    V4 { ip: [u8; 4], port: u16 },
    V6 { ip: [u8; 16], port: u16, flowinfo: u32, scope_id: u32 },
}

/// Mathematical model of a socket address.
pub enum SockAddrModel {
    V4 { ip: Seq<u8>, port: u16 },
    V6 { ip: Seq<u8>, port: u16, flowinfo: u32, scope_id: u32 },
}

impl View for SockAddr {
    type V = SockAddrModel;

    open spec fn view(&self) -> SockAddrModel {
        match *self {
            SockAddr::V4 { ip, port } => SockAddrModel::V4 { ip: ip@, port },
            SockAddr::V6 { ip, port, flowinfo, scope_id } => SockAddrModel::V6 {
                ip: ip@,
                port,
                flowinfo,
                scope_id,
            },
        }
    }
}

/// A model that some `SockAddr` has: the address is 4 or 16 bytes long.
pub open spec fn model_wf(a: SockAddrModel) -> bool {
    match a {
        SockAddrModel::V4 { ip, .. } => ip.len() == 4,
        SockAddrModel::V6 { ip, .. } => ip.len() == 16,
    }
}

/// Two bytes of `v`, most significant first (network order).
pub open spec fn u16_be(v: u16) -> Seq<u8> {
    seq![(v / 256) as u8, (v % 256) as u8]
}

/// Two bytes of `v`, least significant first (the host order of the native layout).
pub open spec fn u16_le(v: u16) -> Seq<u8> {
    seq![(v % 256) as u8, (v / 256) as u8]
}

/// Four bytes of `v`, most significant first (network order).
pub open spec fn u32_be(v: u32) -> Seq<u8> {
    seq![
        (v / 0x100_0000) as u8,
        (v / 0x1_0000 % 256) as u8,
        (v / 256 % 256) as u8,
        (v % 256) as u8,
    ]
}

/// Four bytes of `v`, least significant first (the host order of the native layout).
pub open spec fn u32_le(v: u32) -> Seq<u8> {
    seq![
        (v % 256) as u8,
        (v / 256 % 256) as u8,
        (v / 0x1_0000 % 256) as u8,
        (v / 0x100_0000) as u8,
    ]
}

/// The 16-bit value of `b[i..i + 2]` read most significant first.
pub open spec fn be16_at(b: Seq<u8>, i: int) -> u16 {
    (b[i] * 256 + b[i + 1]) as u16
}

/// The 16-bit value of `b[i..i + 2]` read least significant first.
pub open spec fn le16_at(b: Seq<u8>, i: int) -> u16 {
    (b[i] + b[i + 1] * 256) as u16
}

/// The 32-bit value of `b[i..i + 4]` read most significant first.
pub open spec fn be32_at(b: Seq<u8>, i: int) -> u32 {
    (((b[i] * 256 + b[i + 1]) * 256 + b[i + 2]) * 256 + b[i + 3]) as u32
}

/// The 32-bit value of `b[i..i + 4]` read least significant first.
pub open spec fn le32_at(b: Seq<u8>, i: int) -> u32 {
    (((b[i + 3] * 256 + b[i + 2]) * 256 + b[i + 1]) * 256 + b[i]) as u32
}

/// The native layout of an address: `SOCKADDR_IN` for IPv4 (family, port,
/// address, eight zero bytes) and `SOCKADDR_IN6` for IPv6 (family, port,
/// flow label, address, scope id). Port and flow label are in network order,
/// family and scope id in host order.
pub open spec fn native_spec(a: SockAddrModel) -> Seq<u8> {
    match a {
        SockAddrModel::V4 { ip, port } => u16_le(AF_INET) + u16_be(port) + ip + Seq::new(
            8,
            |i: int| 0u8,
        ),
        SockAddrModel::V6 { ip, port, flowinfo, scope_id } => u16_le(AF_INET6) + u16_be(port)
            + u32_be(flowinfo) + ip + u32_le(scope_id),
    }
}

/// The address that the first `len` bytes of `b` hold in native layout, if
/// any: `len` must be a byte count within `b` that covers at least the family
/// tag and the whole layout that the tag names.
pub open spec fn from_native_spec(b: Seq<u8>, len: int) -> Option<SockAddrModel> {
    if len < 4 || len > b.len() {
        None
    } else if le16_at(b, 0) == AF_INET && len >= SOCKADDR_IN_LEN {
        Some(SockAddrModel::V4 { ip: b.subrange(4, 8), port: be16_at(b, 2) })
    } else if le16_at(b, 0) == AF_INET6 && len >= SOCKADDR_IN6_LEN {
        Some(
            SockAddrModel::V6 {
                ip: b.subrange(8, 24),
                port: be16_at(b, 2),
                flowinfo: be32_at(b, 4),
                scope_id: le32_at(b, 24),
            },
        )
    } else {
        None
    }
}

proof fn lemma_u16_be(v: u16)
    ensures
        be16_at(u16_be(v), 0) == v,
{
    let b = u16_be(v);
    assert(b[0] * 256 + b[1] == v);
}

proof fn lemma_u16_le(v: u16)
    ensures
        le16_at(u16_le(v), 0) == v,
{
    let b = u16_le(v);
    assert(b[0] + b[1] * 256 == v);
}

proof fn lemma_u32_be(v: u32)
    ensures
        be32_at(u32_be(v), 0) == v,
{
    let b = u32_be(v);
    assert(((b[0] * 256 + b[1]) * 256 + b[2]) * 256 + b[3] == v);
}

proof fn lemma_u32_le(v: u32)
    ensures
        le32_at(u32_le(v), 0) == v,
{
    let b = u32_le(v);
    assert(((b[3] * 256 + b[2]) * 256 + b[1]) * 256 + b[0] == v);
}

/// Decoding the native layout of an address, over its full length, gives
/// the same address back.
pub proof fn lemma_native_round_trip(a: SockAddrModel)
    requires
        model_wf(a),
    ensures
        from_native_spec(native_spec(a), native_spec(a).len() as int) == Some(a),
{
    let b = native_spec(a);
    match a {
        SockAddrModel::V4 { ip, port } => {
            lemma_u16_le(AF_INET);
            lemma_u16_be(port);
            assert(b.subrange(0, 2) =~= u16_le(AF_INET));
            assert(b.subrange(2, 4) =~= u16_be(port));
            assert(b.subrange(4, 8) =~= ip);
        },
        SockAddrModel::V6 { ip, port, flowinfo, scope_id } => {
            lemma_u16_le(AF_INET6);
            lemma_u16_be(port);
            lemma_u32_be(flowinfo);
            lemma_u32_le(scope_id);
            assert(b.subrange(8, 24) =~= ip);
        },
    }
}

impl SockAddr {
    /// The address in native layout; its byte count is the length that native
    /// calls take beside it.
    pub fn to_native(&self) -> (r: Vec<u8>)
        ensures
            r@ == native_spec(self@),
            r@.len() == match *self {
                SockAddr::V4 { .. } => SOCKADDR_IN_LEN,
                SockAddr::V6 { .. } => SOCKADDR_IN6_LEN,
            },
    {
        match *self {
            SockAddr::V4 { ip, port } => {
                let r = vec![
                    (AF_INET % 256) as u8,
                    (AF_INET / 256) as u8,
                    (port / 256) as u8,
                    (port % 256) as u8,
                    ip[0],
                    ip[1],
                    ip[2],
                    ip[3],
                    0u8,
                    0u8,
                    0u8,
                    0u8,
                    0u8,
                    0u8,
                    0u8,
                    0u8,
                ];
                assert(r@ =~= native_spec(self@));
                r
            },
            SockAddr::V6 { ip, port, flowinfo, scope_id } => {
                let r = vec![
                    (AF_INET6 % 256) as u8,
                    (AF_INET6 / 256) as u8,
                    (port / 256) as u8,
                    (port % 256) as u8,
                    (flowinfo / 0x100_0000) as u8,
                    (flowinfo / 0x1_0000 % 256) as u8,
                    (flowinfo / 256 % 256) as u8,
                    (flowinfo % 256) as u8,
                    ip[0],
                    ip[1],
                    ip[2],
                    ip[3],
                    ip[4],
                    ip[5],
                    ip[6],
                    ip[7],
                    ip[8],
                    ip[9],
                    ip[10],
                    ip[11],
                    ip[12],
                    ip[13],
                    ip[14],
                    ip[15],
                    (scope_id % 256) as u8,
                    (scope_id / 256 % 256) as u8,
                    (scope_id / 0x1_0000 % 256) as u8,
                    (scope_id / 0x100_0000) as u8,
                ];
                assert(r@ =~= native_spec(self@));
                r
            },
        }
    }

    /// The address that the first `len` bytes of `storage` hold in native
    /// layout; `None` where `len` is out of range, the family is neither IPv4
    /// nor IPv6, or `len` is too short for the layout that the family names.
    pub fn from_native(storage: &[u8], len: i32) -> (r: Option<SockAddr>)
        ensures
            match r {
                None => from_native_spec(storage@, len as int) is None,
                Some(a) => from_native_spec(storage@, len as int) == Some(a@),
            },
    {
        if len < 4 || len as usize > storage.len() {
            return None;
        }
        let family = (storage[0] as u16) + (storage[1] as u16) * 256;
        let port = (storage[2] as u16) * 256 + (storage[3] as u16);
        if family == AF_INET && len as usize >= SOCKADDR_IN_LEN {
            let ip = [storage[4], storage[5], storage[6], storage[7]];
            let r = SockAddr::V4 { ip, port };
            assert(ip@ =~= storage@.subrange(4, 8));
            Some(r)
        } else if family == AF_INET6 && len as usize >= SOCKADDR_IN6_LEN {
            let flowinfo = (((storage[4] as u32) * 256 + storage[5] as u32) * 256
                + storage[6] as u32) * 256 + storage[7] as u32;
            let scope_id = (((storage[27] as u32) * 256 + storage[26] as u32) * 256
                + storage[25] as u32) * 256 + storage[24] as u32;
            let ip = [
                storage[8],
                storage[9],
                storage[10],
                storage[11],
                storage[12],
                storage[13],
                storage[14],
                storage[15],
                storage[16],
                storage[17],
                storage[18],
                storage[19],
                storage[20],
                storage[21],
                storage[22],
                storage[23],
            ];
            assert(ip@ =~= storage@.subrange(8, 24));
            Some(SockAddr::V6 { ip, port, flowinfo, scope_id })
        } else {
            None
        }
    }
}

} // verus!
