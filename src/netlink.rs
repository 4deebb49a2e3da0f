//! Framing of the `sock_diag` netlink exchange that counts a host's sockets:
//! the dump request, and the count of socket records in each reply batch.
//! Netlink integers are in the host's byte order, which callers pass in.

use vstd::prelude::*;
use crate::metrics::clamp_u64;

verus! {

/// Length of a netlink message header.
pub const NLMSG_HDRLEN: usize = 16;

/// Alignment of netlink messages.
pub const NLMSG_ALIGNTO: usize = 4;

/// Message type of a `sock_diag` request by address family.
pub const SOCK_DIAG_BY_FAMILY: u16 = 20;

/// Flags of a dump request (`NLM_F_REQUEST | NLM_F_DUMP`).
pub const DUMP_REQUEST_FLAGS: u16 = 0x301;

/// Message type that ends a dump.
pub const NLMSG_DONE: u16 = 3;

/// Message type of an error reply.
pub const NLMSG_ERROR: u16 = 2;

/// `IPPROTO_TCP`.
pub const PROTOCOL_TCP: u8 = 6;

/// `IPPROTO_UDP`.
pub const PROTOCOL_UDP: u8 = 17;

/// `AF_INET`.
pub const FAMILY_INET: u8 = 2;

/// `AF_INET6`.
pub const FAMILY_INET6: u8 = 10;

/// Total length of a dump request: header and `inet_diag_req_v2`.
pub const REQUEST_LEN: usize = 72;

/// Why a reply batch could not be read.
#[derive(Debug, Clone, Copy, PartialEq, Eq, Structural)]
pub enum NetlinkError {
    /// A batch or a header is shorter than a header, or a message overruns its batch.
    Malformed,
}

/// The order of bytes in a multi-byte integer.
#[derive(Debug, Clone, Copy, PartialEq, Eq, Structural)]
pub enum ByteOrder {
    Little,
    Big,
}

/// The bytes of `x` in order `o`.
pub open spec fn bytes_u16(x: u16, o: ByteOrder) -> Seq<u8> {
    let le = seq![(x % 256) as u8, (x / 256) as u8];
    match o {
        ByteOrder::Little => le,
        ByteOrder::Big => le.reverse(),
    }
}

/// The bytes of `x` in order `o`.
pub open spec fn bytes_u32(x: u32, o: ByteOrder) -> Seq<u8> {
    let le = seq![
        (x % 256) as u8,
        ((x / 256) % 256) as u8,
        ((x / 65536) % 256) as u8,
        (x / 16777216) as u8,
    ];
    match o {
        ByteOrder::Little => le,
        ByteOrder::Big => le.reverse(),
    }
}

/// The socket states a request asks for: established sockets for TCP, every
/// state otherwise.
pub open spec fn states_for(protocol: u8) -> u32 {
    if protocol == PROTOCOL_TCP {
        2
    } else {
        0xffff_ffff
    }
}

/// The dump request for sockets of `family` and `protocol`, with integers in
/// order `o`: a netlink header (length, type, flags, sequence 0, port 0)
/// followed by an `inet_diag_req_v2` whose socket id is all zero.
pub open spec fn request_bytes(family: u8, protocol: u8, o: ByteOrder) -> Seq<u8> {
    bytes_u32(REQUEST_LEN as u32, o) + bytes_u16(SOCK_DIAG_BY_FAMILY, o) + bytes_u16(
        DUMP_REQUEST_FLAGS,
        o,
    ) + Seq::new(8, |i: int| 0u8) + seq![family, protocol, 0u8, 0u8] + bytes_u32(
        states_for(protocol),
        o,
    ) + Seq::new(48, |i: int| 0u8)
}

fn push_u16(v: &mut Vec<u8>, x: u16, o: ByteOrder)
    ensures
        final(v)@ == old(v)@ + bytes_u16(x, o),
{
    let lo = (x % 256) as u8;
    let hi = (x / 256) as u8;
    match o {
        ByteOrder::Little => {
            v.push(lo);
            v.push(hi);
        },
        ByteOrder::Big => {
            v.push(hi);
            v.push(lo);
        },
    }
    assert(final(v)@ =~= old(v)@ + bytes_u16(x, o));
}

fn push_u32(v: &mut Vec<u8>, x: u32, o: ByteOrder)
    ensures
        final(v)@ == old(v)@ + bytes_u32(x, o),
{
    let b0 = (x % 256) as u8;
    let b1 = ((x / 256) % 256) as u8;
    let b2 = ((x / 65536) % 256) as u8;
    let b3 = (x / 16777216) as u8;
    match o {
        ByteOrder::Little => {
            v.push(b0);
            v.push(b1);
            v.push(b2);
            v.push(b3);
        },
        ByteOrder::Big => {
            v.push(b3);
            v.push(b2);
            v.push(b1);
            v.push(b0);
        },
    }
    assert(final(v)@ =~= old(v)@ + bytes_u32(x, o));
}

fn push_zeros(v: &mut Vec<u8>, n: usize)
    ensures
        final(v)@ == old(v)@ + Seq::new(n as nat, |i: int| 0u8),
{
    let mut k: usize = 0;
    while k < n
        invariant
            k <= n,
            v@ == old(v)@ + Seq::new(k as nat, |i: int| 0u8),
        decreases n - k,
    {
        v.push(0u8);
        k = k + 1;
        assert(v@ =~= old(v)@ + Seq::new(k as nat, |i: int| 0u8));
    }
}

/// The dump request for sockets of `family` and `protocol`, in byte order `o`.
pub fn serialize_netlink_message(family: u8, protocol: u8, o: ByteOrder) -> (r: Vec<u8>)
    ensures
        r@ == request_bytes(family, protocol, o),
        r@.len() == REQUEST_LEN,
{
    let mut v: Vec<u8> = Vec::new();
    push_u32(&mut v, REQUEST_LEN as u32, o);
    push_u16(&mut v, SOCK_DIAG_BY_FAMILY, o);
    push_u16(&mut v, DUMP_REQUEST_FLAGS, o);
    push_zeros(&mut v, 8);
    v.push(family);
    v.push(protocol);
    v.push(0u8);
    v.push(0u8);
    let states: u32 = if protocol == PROTOCOL_TCP {
        2
    } else {
        0xffff_ffff
    };
    push_u32(&mut v, states, o);
    push_zeros(&mut v, 48);
    assert(v@ =~= request_bytes(family, protocol, o));
    v
}

/// `n` rounded up to a multiple of four.
pub open spec fn aligned(n: int) -> int {
    (n + 3) / 4 * 4
}

/// `msglen` rounded up to the netlink alignment.
pub fn nlm_align_of(msglen: u32) -> (r: u64)
    ensures
        r == aligned(msglen as int),
{
    ((msglen as u64) + 3) / 4 * 4
}

/// The `u32` at `b[i..i + 4]` in order `o`.
pub open spec fn u32_at(b: Seq<u8>, i: int, o: ByteOrder) -> int {
    match o {
        ByteOrder::Little => b[i] + b[i + 1] * 256 + b[i + 2] * 65536 + b[i + 3] * 16777216,
        ByteOrder::Big => b[i + 3] + b[i + 2] * 256 + b[i + 1] * 65536 + b[i] * 16777216,
    }
}

/// The `u16` at `b[i..i + 2]` in order `o`.
pub open spec fn u16_at(b: Seq<u8>, i: int, o: ByteOrder) -> int {
    match o {
        ByteOrder::Little => b[i] + b[i + 1] * 256,
        ByteOrder::Big => b[i + 1] + b[i] * 256,
    }
}

/// The header at the start of `b`: the aligned length of its message and
/// whether the message ends the dump (`NLMSG_DONE` or `NLMSG_ERROR`); `None`
/// where `b` is shorter than a header, the length is shorter than a header, or
/// the aligned message overruns `b`.
pub open spec fn header_of(b: Seq<u8>, o: ByteOrder) -> Option<(int, bool)> {
    if b.len() < NLMSG_HDRLEN {
        None
    } else {
        let len = u32_at(b, 0, o);
        let t = u16_at(b, 4, o);
        if len < NLMSG_HDRLEN || aligned(len) > b.len() {
            None
        } else {
            Some((aligned(len), t == NLMSG_DONE || t == NLMSG_ERROR))
        }
    }
}

/// The number of socket records in a batch: the messages before the first
/// that ends the dump, which is not a record itself; and whether such a
/// message came. `None` where a header is malformed. Bytes after the last
/// whole header are ignored.
pub open spec fn batch_count(b: Seq<u8>, o: ByteOrder) -> Option<(int, bool)>
    decreases b.len(),
{
    if b.len() < NLMSG_HDRLEN {
        Some((0, false))
    } else {
        match header_of(b, o) {
            None => None,
            Some((l, end)) => if end {
                Some((0, true))
            } else if l <= 0 {
                None
            } else {
                match batch_count(b.skip(l), o) {
                    None => None,
                    Some((c, d)) => Some((c + 1, d)),
                }
            },
        }
    }
}

proof fn lemma_batch_count_bounds(b: Seq<u8>, o: ByteOrder)
    ensures
        batch_count(b, o) matches Some((c, _)) ==> 0 <= c <= b.len(),
    decreases b.len(),
{
    if b.len() >= NLMSG_HDRLEN {
        if let Some((l, end)) = header_of(b, o) {
            if !end && l > 0 {
                lemma_batch_count_bounds(b.skip(l), o);
            }
        }
    }
}

fn header_at(b: &[u8], off: usize, o: ByteOrder) -> (r: Result<(usize, bool), NetlinkError>)
    requires
        off <= b@.len(),
    ensures
        match header_of(b@.skip(off as int), o) {
            None => r is Err,
            Some((l, end)) => r == Ok::<(usize, bool), NetlinkError>((l as usize, end)),
        },
{
    let n = b.len();
    let ghost s = b@.skip(off as int);
    if n - off < NLMSG_HDRLEN {
        return Err(NetlinkError::Malformed);
    }
    let (len, t): (u64, u64) = match o {
        ByteOrder::Little => (
            (b[off] as u64) + (b[off + 1] as u64) * 256 + (b[off + 2] as u64) * 65536 + (b[off + 3] as u64)
                * 16777216,
            (b[off + 4] as u64) + (b[off + 5] as u64) * 256,
        ),
        ByteOrder::Big => (
            (b[off + 3] as u64) + (b[off + 2] as u64) * 256 + (b[off + 1] as u64) * 65536 + (b[off] as u64)
                * 16777216,
            (b[off + 5] as u64) + (b[off + 4] as u64) * 256,
        ),
    };
    assert(len == u32_at(s, 0, o));
    assert(t == u16_at(s, 4, o));
    let l = (len + 3) / 4 * 4;
    if len < NLMSG_HDRLEN as u64 || l > (n - off) as u64 {
        return Err(NetlinkError::Malformed);
    }
    Ok((l as usize, t == NLMSG_DONE as u64 || t == NLMSG_ERROR as u64))
}

/// The header at the start of `b`, as `header_of` states.
pub fn netlink_message_header(b: &[u8], o: ByteOrder) -> (r: Result<(usize, bool), NetlinkError>)
    ensures
        match header_of(b@, o) {
            None => r is Err,
            Some((l, end)) => r == Ok::<(usize, bool), NetlinkError>((l as usize, end)),
        },
{
    assert(b@.skip(0) =~= b@);
    header_at(b, 0, o)
}

/// Counts the socket records of one reply batch, as `batch_count` states.
pub fn count_netlink_messages(b: &[u8], o: ByteOrder) -> (r: Result<(u64, bool), NetlinkError>)
    ensures
        match batch_count(b@, o) {
            None => r is Err,
            Some((c, done)) => r == Ok::<(u64, bool), NetlinkError>((c as u64, done)),
        },
{
    let n = b.len();
    let mut off: usize = 0;
    let mut msgs: u64 = 0;
    assert(b@.skip(0) =~= b@);
    while n - off >= NLMSG_HDRLEN
        invariant
            n == b@.len(),
            off <= n,
            msgs <= off / 16,
            match batch_count(b@, o) {
                None => batch_count(b@.skip(off as int), o) is None,
                Some((c, d)) => batch_count(b@.skip(off as int), o) == Some((c - msgs, d)),
            },
        decreases n - off,
    {
        let ghost s = b@.skip(off as int);
        let (l, at_end) = match header_at(b, off, o) {
            Ok(h) => h,
            Err(e) => return Err(e),
        };
        if at_end {
            return Ok((msgs, true));
        }
        proof {
            assert(s.skip(l as int) =~= b@.skip(off + l));
        }
        msgs = msgs + 1;
        off = off + l;
    }
    Ok((msgs, false))
}

/// Adds one received batch to a running count of socket records: the new
/// count, and whether the dump ended. A batch shorter than a header is malformed.
pub fn tally_batch(total: u64, batch: &[u8], o: ByteOrder) -> (r: Result<(u64, bool), NetlinkError>)
    ensures
        batch@.len() < NLMSG_HDRLEN ==> r is Err,
        batch@.len() >= NLMSG_HDRLEN ==> match batch_count(batch@, o) {
            None => r is Err,
            Some((c, done)) => r == Ok::<(u64, bool), NetlinkError>((clamp_u64(total + c), done)),
        },
{
    if batch.len() < NLMSG_HDRLEN {
        return Err(NetlinkError::Malformed);
    }
    proof {
        lemma_batch_count_bounds(batch@, o);
    }
    match count_netlink_messages(batch, o) {
        Ok((c, done)) => {
            let t = if total > u64::MAX - c {
                u64::MAX
            } else {
                total + c
            };
            Ok((t, done))
        },
        Err(e) => Err(e),
    }
}

} // verus!
