//! Decisions of the discovery protocol: which reply belongs to a pinged motor,
//! what the reply says about it, when polling stops, and how a scan collects
//! its results.

use vstd::prelude::*;
use vstd::utf8::{decode_utf8, valid_utf8};

verus! {

/// Total time, counted from the end of the settle delay, during which replies
/// to a ping are awaited.
pub const PING_WINDOW_MS: u64 = 50;

/// Delay after sending a ping before polling begins.
pub const PING_SETTLE_MS: u64 = 10;

/// Bound on each single wait for an incoming frame.
pub const POLL_TIMEOUT_MS: u64 = 10;

/// Bus settle time between two consecutive pings of a scan.
pub const SCAN_GAP_MS: u64 = 10;

/// First payload byte of a reply that carries the motor's name.
pub const NAME_REPLY_TAG: u8 = 0x51;

/// What discovery learned about one motor.
#[derive(Clone, Debug)]
pub struct MotorInfo {
    pub motor_id: u8,
    pub is_online: bool,
    pub name: String,
    pub hardware_version: String,
    pub response_time_ms: u64,
}

/// Text of a name or version field that was not reported.
pub open spec fn unknown_text() -> Seq<char> {
    "Unknown"@
}

fn unknown_string() -> (s: String)
    ensures
        s@ == unknown_text(),
{
    String::from_str("Unknown")
}

impl Default for MotorInfo {
    fn default() -> (info: Self)
        ensures
            info.motor_id == 0,
            !info.is_online,
            info.name@ == unknown_text(),
            info.hardware_version@ == unknown_text(),
            info.response_time_ms == 0,
    {
        MotorInfo {
            motor_id: 0,
            is_online: false,
            name: unknown_string(),
            hardware_version: unknown_string(),
            response_time_ms: 0,
        }
    }
}

/// `info` reports `motor_id` absent, every other field at its default.
pub open spec fn is_offline_info(info: MotorInfo, motor_id: u8) -> bool {
    &&& info.motor_id == motor_id
    &&& !info.is_online
    &&& info.name@ == unknown_text()
    &&& info.hardware_version@ == unknown_text()
    &&& info.response_time_ms == 0
}

/// The result recorded for a motor that did not answer.
pub fn offline_info(motor_id: u8) -> (info: MotorInfo)
    ensures
        is_offline_info(info, motor_id),
{
    MotorInfo {
        motor_id,
        is_online: false,
        name: unknown_string(),
        hardware_version: unknown_string(),
        response_time_ms: 0,
    }
}

/// Bits 8..14 of an identifier: the replying motor's own ID.
pub open spec fn source_id_of(id: u32) -> u8 {
    (id as int / 256 % 128) as u8
}

/// The low byte of an identifier.
pub open spec fn direct_id_of(id: u32) -> u8 {
    (id as int % 256) as u8
}

/// The motor a reply with identifier `id` comes from, as seen while waiting
/// for `motor_id`: its source ID when that lies in `1..=127`, else its low
/// byte when that equals `motor_id`, else none.
pub open spec fn detected_id_of(id: u32, motor_id: u8) -> Option<u8> {
    if 1 <= source_id_of(id) <= 127 {
        Some(source_id_of(id))
    } else if direct_id_of(id) == motor_id {
        Some(direct_id_of(id))
    } else {
        None
    }
}

/// A reply with identifier `id` answers the ping of `motor_id`.
pub open spec fn reply_matches(id: u32, motor_id: u8) -> bool {
    detected_id_of(id, motor_id) == Some(motor_id)
}

/// Source ID carried in bits 8..14 of an identifier, the same for standard
/// and extended identifiers.
pub fn source_id(id: u32) -> (r: u8)
    ensures
        r == source_id_of(id),
{
    (id / 256 % 128) as u8
}

/// Low byte of an identifier.
pub fn direct_id(id: u32) -> (r: u8)
    ensures
        r == direct_id_of(id),
{
    (id % 256) as u8
}

/// The motor a reply with identifier `id` is taken to come from while waiting
/// for `motor_id`; the source ID is preferred over the low byte.
pub fn detect_motor_id(id: u32, motor_id: u8) -> (r: Option<u8>)
    ensures
        r == detected_id_of(id, motor_id),
{
    let s = source_id(id);
    let d = direct_id(id);
    if 1 <= s && s <= 127 {
        Some(s)
    } else if d == motor_id {
        Some(d)
    } else {
        None
    }
}

/// `s` without its trailing NUL bytes.
pub open spec fn trim_nul(s: Seq<u8>) -> Seq<u8>
    decreases s.len(),
{
    if s.len() > 0 && s.last() == 0 {
        trim_nul(s.drop_last())
    } else {
        s
    }
}

/// Text of a fixed-width ASCII field: its bytes without trailing NULs, read as
/// UTF-8; a field that is not valid UTF-8 leaves the text unknown.
pub open spec fn field_text(bytes: Seq<u8>) -> Seq<char> {
    if valid_utf8(trim_nul(bytes)) {
        decode_utf8(trim_nul(bytes))
    } else {
        unknown_text()
    }
}

/// Name reported by a reply payload: bytes 1..4 when byte 0 is the name tag.
pub open spec fn reply_name(data: Seq<u8>) -> Seq<char> {
    if data.len() >= 4 && data[0] == NAME_REPLY_TAG {
        field_text(data.subrange(1, 4))
    } else {
        unknown_text()
    }
}

/// Hardware version reported by a reply payload: bytes 4..8.
pub open spec fn reply_version(data: Seq<u8>) -> Seq<char> {
    if data.len() >= 8 {
        field_text(data.subrange(4, 8))
    } else {
        unknown_text()
    }
}

/// Relies on String::from_utf8: `Ok` exactly when the bytes are valid UTF-8,
/// holding the text that they encode.
#[verifier::external_body]
fn utf8_string(bytes: Vec<u8>) -> (r: Option<String>)
    ensures
        r is Some <==> valid_utf8(bytes@),
        r matches Some(s) ==> s@ == decode_utf8(bytes@),
{
    String::from_utf8(bytes).ok()
}

/// Decodes the field `data[from..to]`, dropping trailing NUL bytes.
pub fn decode_field(data: &[u8], from: usize, to: usize) -> (r: String)
    requires
        from <= to <= data@.len(),
    ensures
        r@ == field_text(data@.subrange(from as int, to as int)),
{
    let ghost field = data@.subrange(from as int, to as int);
    let mut end: usize = to;
    while end > from && data[end - 1] == 0
        invariant
            from <= end <= to <= data@.len(),
            field == data@.subrange(from as int, to as int),
            trim_nul(data@.subrange(from as int, end as int)) == trim_nul(field),
        decreases end,
    {
        assert(data@.subrange(from as int, end as int).drop_last() =~= data@.subrange(
            from as int,
            end - 1,
        ));
        end = end - 1;
    }
    let ghost kept = data@.subrange(from as int, end as int);
    assert(trim_nul(kept) == kept);
    let mut bytes: Vec<u8> = Vec::new();
    let mut i: usize = from;
    while i < end
        invariant
            from <= i <= end <= data@.len(),
            bytes@ == data@.subrange(from as int, i as int),
        decreases end - i,
    {
        bytes.push(data[i]);
        assert(bytes@ =~= data@.subrange(from as int, i + 1));
        i = i + 1;
    }
    assert(bytes@ == kept);
    match utf8_string(bytes) {
        Some(s) => s,
        None => unknown_string(),
    }
}

/// `info` is the record of `motor_id` answering after `elapsed_ms` with
/// payload `data`.
pub open spec fn is_online_info(info: MotorInfo, motor_id: u8, elapsed_ms: u64, data: Seq<u8>) -> bool {
    &&& info.motor_id == motor_id
    &&& info.is_online
    &&& info.response_time_ms == elapsed_ms
    &&& info.name@ == reply_name(data)
    &&& info.hardware_version@ == reply_version(data)
}

/// The record of a motor whose reply with payload `data` arrived `elapsed_ms`
/// after the ping was sent.
pub fn online_info(motor_id: u8, elapsed_ms: u64, data: &[u8]) -> (info: MotorInfo)
    ensures
        is_online_info(info, motor_id, elapsed_ms, data@),
{
    let name = if data.len() >= 4 && data[0] == NAME_REPLY_TAG {
        decode_field(data, 1, 4)
    } else {
        unknown_string()
    };
    let hardware_version = if data.len() >= 8 {
        decode_field(data, 4, 8)
    } else {
        unknown_string()
    };
    MotorInfo { motor_id, is_online: true, name, hardware_version, response_time_ms: elapsed_ms }
}

/// Polling for replies goes on while less than the window has passed since
/// it began.
pub fn ping_window_open(window_elapsed_ms: u64) -> (r: bool)
    ensures
        r == (window_elapsed_ms < PING_WINDOW_MS),
{
    window_elapsed_ms < PING_WINDOW_MS
}

/// Judges one frame received while waiting for `motor_id`: the motor's record
/// when the frame answers the ping, `None` when it is to be ignored.
/// `elapsed_ms` is the time since the ping was sent.
pub fn ping_reply(motor_id: u8, id: u32, data: &[u8], elapsed_ms: u64) -> (r: Option<MotorInfo>)
    ensures
        r is Some <==> reply_matches(id, motor_id),
        r matches Some(info) ==> is_online_info(info, motor_id, elapsed_ms, data@),
{
    match detect_motor_id(id, motor_id) {
        Some(found) => {
            if found == motor_id {
                Some(online_info(motor_id, elapsed_ms, data))
            } else {
                None
            }
        },
        None => None,
    }
}

/// What a scan records for `motor_id`: the ping's result, or an offline
/// record when the ping failed on the transport.
pub open spec fn scan_entry(motor_id: u8, outcome: Option<MotorInfo>) -> spec_fn(MotorInfo) -> bool {
    |info: MotorInfo|
        match outcome {
            Some(found) => info == found,
            None => is_offline_info(info, motor_id),
        }
}

/// Appends the result of pinging `motor_id` to a scan's results; a failed
/// ping (`None`) is recorded as an offline motor and never ends the scan.
pub fn record_scan_outcome(results: &mut Vec<MotorInfo>, motor_id: u8, outcome: Option<MotorInfo>)
    ensures
        final(results)@.len() == old(results)@.len() + 1,
        final(results)@.subrange(0, old(results)@.len() as int) == old(results)@,
        scan_entry(motor_id, outcome)(final(results)@.last()),
{
    let entry = match outcome {
        Some(info) => info,
        None => offline_info(motor_id),
    };
    results.push(entry);
    assert(final(results)@.subrange(0, old(results)@.len() as int) =~= old(results)@);
}

/// The IDs a scan of `start..=end` visits, in order.
pub open spec fn scan_id_seq(start: u8, end: u8) -> Seq<u8> {
    if start <= end {
        Seq::new((end - start + 1) as nat, |i: int| (start + i) as u8)
    } else {
        Seq::empty()
    }
}

/// The IDs from `start` to `end` inclusive, in increasing order; empty when
/// `start > end`.
pub fn scan_ids(start: u8, end: u8) -> (r: Vec<u8>)
    ensures
        r@ == scan_id_seq(start, end),
{
    let mut r: Vec<u8> = Vec::new();
    if start <= end {
        let count: u16 = (end - start) as u16 + 1;
        let mut k: u16 = 0;
        while k < count
            invariant
                start <= end,
                count == end - start + 1,
                k <= count,
                r@ == Seq::new(k as nat, |i: int| (start + i) as u8),
            decreases count - k,
        {
            r.push((start as u16 + k) as u8);
            assert(r@ =~= Seq::new((k + 1) as nat, |i: int| (start + i) as u8));
            k = k + 1;
        }
    }
    assert(r@ =~= scan_id_seq(start, end));
    r
}

} // verus!
