//! The integer side of an NTP exchange: the request packet, the response's
//! length check, the timestamps' fields, and which samples survive outlier
//! removal.

use vstd::prelude::*;
use vstd::string::*;
use crate::clock::{duration_millis, since_unix_epoch, system_now};
use crate::text::{decimal, push_decimal};

verus! {

/// Length of an NTP packet without extensions.
pub const NTP_PACKET_LEN: usize = 48;

/// First byte of a request: leap indicator 0, version 3, mode 3 (client).
pub const NTP_CLIENT_HEADER: u8 = 0x1b;

/// Seconds from the NTP era (1900) to the Unix epoch (1970).
pub const NTP_UNIX_OFFSET_SECS: u32 = 2208988800;

/// Offset of the receive timestamp in a response.
pub const RECEIVE_TIMESTAMP_OFFSET: usize = 32;

/// Offset of the transmit timestamp in a response.
pub const TRANSMIT_TIMESTAMP_OFFSET: usize = 40;

/// The big-endian unsigned integer of four bytes.
pub open spec fn be_u32(b0: u8, b1: u8, b2: u8, b3: u8) -> int {
    b0 * 16777216 + b1 * 65536 + b2 * 256 + b3
}

/// The fields of the 64-bit timestamp at `offset` of `buf`: whole seconds
/// since the Unix epoch (zero for a time before it) and the binary fraction
/// of a second, in units of 2^-32 s.
pub open spec fn timestamp_fields(buf: Seq<u8>, offset: int) -> (u32, u32) {
    let secs = be_u32(buf[offset], buf[offset + 1], buf[offset + 2], buf[offset + 3]);
    let frac = be_u32(buf[offset + 4], buf[offset + 5], buf[offset + 6], buf[offset + 7]);
    (
        if secs < NTP_UNIX_OFFSET_SECS {
            0u32
        } else {
            (secs - NTP_UNIX_OFFSET_SECS) as u32
        },
        frac as u32,
    )
}

/// Which of `len` samples, sorted by round-trip time, survive when `cutoff`
/// are dropped at each end: `None` keeps them all (fewer than three samples,
/// or nothing would be left).
pub open spec fn kept_window(len: int, cutoff: int) -> Option<(int, int)> {
    if len < 3 || cutoff >= len - cutoff {
        None
    } else {
        Some((cutoff, len - cutoff))
    }
}

/// The request that a client sends: the client header, then zeros.
pub fn ntp_request_packet() -> (p: Vec<u8>)
    ensures
        p@.len() == NTP_PACKET_LEN,
        p@[0] == NTP_CLIENT_HEADER,
        forall|i: int| 1 <= i < NTP_PACKET_LEN ==> p@[i] == 0,
{
    let mut p: Vec<u8> = Vec::new();
    p.push(NTP_CLIENT_HEADER);
    let mut i: usize = 1;
    while i < NTP_PACKET_LEN
        invariant
            1 <= i <= NTP_PACKET_LEN,
            p@.len() == i,
            p@[0] == NTP_CLIENT_HEADER,
            forall|k: int| 1 <= k < i ==> p@[k] == 0,
        decreases NTP_PACKET_LEN - i,
    {
        p.push(0);
        i = i + 1;
    }
    p
}

/// The address to send a request to: the server's NTP port.
pub fn ntp_address(server: &str) -> (a: String)
    ensures
        a@ == server@ + ":123"@,
{
    let mut a = String::from_str(server);
    a.append(":123");
    a
}

/// A response of `n` bytes is usable when it is a whole packet; otherwise
/// the error names its length.
pub fn check_response_len(n: usize) -> (r: Result<(), String>)
    ensures
        r is Ok <==> n >= NTP_PACKET_LEN,
        r matches Err(e) ==> e@ == "short response: "@ + decimal(n as nat) + " bytes"@,
{
    if n < NTP_PACKET_LEN {
        let mut e = String::from_str("short response: ");
        push_decimal(&mut e, n as u64);
        e.append(" bytes");
        return Err(e);
    }
    Ok(())
}

/// Whole seconds from the Unix epoch to 2000-01-01T00:00:00Z; a server
/// timestamp earlier than that is not taken.
pub const EARLIEST_SERVER_UNIX_SECS: u32 = 946684800;

/// Whether a server timestamp with `unix_secs` whole seconds since the epoch
/// is plausible: no earlier than the year 2000. A timestamp in milliseconds
/// with any fraction is at least 2000-01-01 exactly when its whole seconds
/// are. It is not compared with the local clock, which may be off by any
/// amount: correcting that is what the reply is for.
pub open spec fn plausible_timestamp(unix_secs: u32) -> bool {
    unix_secs >= EARLIEST_SERVER_UNIX_SECS
}

/// Takes a reply whose receive and transmit timestamps have the whole
/// seconds `receive_secs` and `transmit_secs` when both are plausible;
/// otherwise the error names the server.
pub fn check_timestamps(receive_secs: u32, transmit_secs: u32, server: &str) -> (r: Result<(), String>)
    ensures
        r is Ok <==> plausible_timestamp(receive_secs) && plausible_timestamp(transmit_secs),
        r matches Err(e) ==> e@ == "invalid ntp timestamp from "@ + server@,
{
    if receive_secs < EARLIEST_SERVER_UNIX_SECS || transmit_secs < EARLIEST_SERVER_UNIX_SECS {
        return Err(invalid_timestamp_error(server));
    }
    Ok(())
}

/// The error of a response whose timestamps are out of range.
pub fn invalid_timestamp_error(server: &str) -> (e: String)
    ensures
        e@ == "invalid ntp timestamp from "@ + server@,
{
    let mut e = String::from_str("invalid ntp timestamp from ");
    e.append(server);
    e
}

fn read_be_u32(buf: &[u8], offset: usize) -> (v: u32)
    requires
        offset + 4 <= buf@.len(),
    ensures
        v == be_u32(buf@[offset as int], buf@[offset + 1], buf@[offset + 2], buf@[offset + 3]),
{
    let b0 = buf[offset] as u64;
    let b1 = buf[offset + 1] as u64;
    let b2 = buf[offset + 2] as u64;
    let b3 = buf[offset + 3] as u64;
    let v = b0 * 16777216 + b1 * 65536 + b2 * 256 + b3;
    v as u32
}

/// The fields of the timestamp at `offset` (see `timestamp_fields`).
pub fn ntp_timestamp_fields(buf: &[u8], offset: usize) -> (f: (u32, u32))
    requires
        offset + 8 <= buf@.len(),
    ensures
        f == timestamp_fields(buf@, offset as int),
{
    let n = buf.len();
    assert(offset + 4 <= n);
    let secs = read_be_u32(buf, offset);
    let frac = read_be_u32(buf, offset + 4);
    (secs.saturating_sub(NTP_UNIX_OFFSET_SECS), frac)
}

/// See `kept_window`. With three or more samples at most all of them may be
/// cut at each end.
pub fn outlier_window(len: usize, cutoff: usize) -> (w: Option<(usize, usize)>)
    requires
        len >= 3 ==> cutoff <= len,
    ensures
        match w {
            Some((a, b)) => kept_window(len as int, cutoff as int) == Some((a as int, b as int)),
            None => kept_window(len as int, cutoff as int).is_none(),
        },
{
    if len < 3 {
        return None;
    }
    let end = len - cutoff;
    if cutoff >= end {
        return None;
    }
    Some((cutoff, end))
}

/// Milliseconds since the Unix epoch on the wall clock, zero before the
/// epoch, cut to 64 bits; the clock's value, which no contract can fix.
pub fn wall_time_ms() -> u64 {
    let t = system_now();
    let millis: u128 = match since_unix_epoch(&t) {
        Some(d) => duration_millis(&d),
        None => 0,
    };
    #[verifier::truncate]
    (millis as u64)
}

/// A big-endian `u32` is read as an unsigned number: it lies in
/// `[0, 2^32)`, its lowest byte is the last byte, each byte above sits in
/// its own place, and raising one byte by one raises the number by that
/// byte's place value.
pub proof fn law_be_u32_is_unsigned_big_endian(b0: u8, b1: u8, b2: u8, b3: u8)
    ensures
        0 <= be_u32(b0, b1, b2, b3) < 0x1_0000_0000,
        be_u32(b0, b1, b2, b3) % 256 == b3,
        (be_u32(b0, b1, b2, b3) / 256) % 256 == b2,
        (be_u32(b0, b1, b2, b3) / 65536) % 256 == b1,
        be_u32(b0, b1, b2, b3) / 16777216 == b0,
        b3 < 255 ==> be_u32(b0, b1, b2, (b3 + 1) as u8) == be_u32(b0, b1, b2, b3) + 1,
        b2 < 255 ==> be_u32(b0, b1, (b2 + 1) as u8, b3) == be_u32(b0, b1, b2, b3) + 256,
        b1 < 255 ==> be_u32(b0, (b1 + 1) as u8, b2, b3) == be_u32(b0, b1, b2, b3) + 65536,
        b0 < 255 ==> be_u32((b0 + 1) as u8, b1, b2, b3) == be_u32(b0, b1, b2, b3) + 16777216,
{
    let v = be_u32(b0, b1, b2, b3);
    assert(v == b3 + 256 * (b2 + 256 * (b1 + 256 * b0)));
    assert(v % 256 == b3 && v / 256 == b2 + 256 * (b1 + 256 * b0)) by (nonlinear_arith)
        requires
            v == b3 + 256 * (b2 + 256 * (b1 + 256 * b0)),
            0 <= b3 < 256,
            0 <= b2 + 256 * (b1 + 256 * b0),
    ;
    let w = b2 + 256 * (b1 + 256 * b0);
    assert(w % 256 == b2 && w / 256 == b1 + 256 * b0) by (nonlinear_arith)
        requires
            w == b2 + 256 * (b1 + 256 * b0),
            0 <= b2 < 256,
            0 <= b1 + 256 * b0,
    ;
    let x = b1 + 256 * b0;
    assert(x % 256 == b1 && x / 256 == b0) by (nonlinear_arith)
        requires
            x == b1 + 256 * b0,
            0 <= b1 < 256,
            0 <= b0,
    ;
    assert(v / 65536 == (v / 256) / 256) by (nonlinear_arith)
        requires
            v >= 0,
    ;
    assert(v / 16777216 == ((v / 256) / 256) / 256) by (nonlinear_arith)
        requires
            v >= 0,
    ;
}

/// The Unix seconds of a timestamp are its big-endian seconds field less
/// the seventy years from 1900 to 1970, never below zero.
pub proof fn law_timestamp_seconds(buf: Seq<u8>, offset: int)
    requires
        0 <= offset,
        offset + 8 <= buf.len(),
    ensures
        timestamp_fields(buf, offset).0 as int == if buf[offset] * 16777216 + buf[offset + 1]
            * 65536 + buf[offset + 2] * 256 + buf[offset + 3] >= 2208988800 {
            buf[offset] * 16777216 + buf[offset + 1] * 65536 + buf[offset + 2] * 256 + buf[offset
                + 3] - 2208988800
        } else {
            0
        },
{
    law_be_u32_is_unsigned_big_endian(buf[offset], buf[offset + 1], buf[offset + 2], buf[offset + 3]);
}

/// The window that survives is never empty, lies inside the samples, and
/// drops as many from each end.
pub proof fn law_kept_window_is_centred(len: int, cutoff: int)
    requires
        cutoff >= 0,
        kept_window(len, cutoff) is Some,
    ensures
        ({
            let (a, b) = kept_window(len, cutoff).unwrap();
            &&& 0 <= a < b <= len
            &&& a == len - b
        }),
{
}

} // verus!
