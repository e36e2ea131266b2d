//! Result decoder table: a static mapping from a result-kind identifier to
//! the payload byte length that kind's decoder expects and to the decode
//! function itself.  The dispatcher consults it only after the foreign
//! runtime has reported a call ready and free of I/O failure.

use vstd::prelude::*;

verus! {

/// Result kind of the "global achievement percentages ready" operation.
/// Its payload is the 64-bit game identifier, little endian.
pub const KIND_PERCENT_READY: u32 = 10;

/// Payload byte length the percentage-ready decoder expects.
pub const PERCENT_READY_PAYLOAD_LEN: usize = 8;

/// A successfully decoded call result, tagged by the operation it answers.
#[derive(Clone, Copy, PartialEq, Eq, Structural, Debug)]
pub enum DecodedValue {
    /// Game identifier carried by a percentage-ready result.
    GameId(u64),
}

/// Outcome a completion callback is handed: a successfully decoded typed
/// value, or the I/O-failure marker.  Never both.
#[derive(Clone, Copy, PartialEq, Eq, Structural, Debug)]
pub enum CallOutcome {
    /// The foreign call completed normally and its payload decoded.
    Success { value: DecodedValue },
    /// The foreign runtime reported that the call completed abnormally;
    /// the payload was never touched.
    IoFailure,
}

/// Whether the decoder table has an entry for `kind`.
pub open spec fn kind_known(kind: u32) -> bool {
    kind == KIND_PERCENT_READY
}

/// Payload byte length the decoder for a known `kind` expects.
pub open spec fn expected_len(kind: u32) -> nat
    recommends
        kind_known(kind),
{
    PERCENT_READY_PAYLOAD_LEN as nat
}

/// Value of eight little-endian bytes: byte `i` contributes `b[i] * 256^i`.
pub open spec fn u64_from_le_spec(b: Seq<u8>) -> u64
    recommends
        b.len() == 8,
{
    (b[0] as int + b[1] as int * 0x100 + b[2] as int * 0x1_0000 + b[3] as int * 0x100_0000
        + b[4] as int * 0x1_0000_0000 + b[5] as int * 0x100_0000_0000 + b[6] as int
        * 0x1_0000_0000_0000 + b[7] as int * 0x100_0000_0000_0000) as u64
}

/// Typed value a raw payload of the right length decodes to under `kind`.
pub open spec fn decode_spec(kind: u32, payload: Seq<u8>) -> DecodedValue
    recommends
        kind_known(kind),
        payload.len() == expected_len(kind),
{
    DecodedValue::GameId(u64_from_le_spec(payload))
}

/// Payload byte length the decoder for `kind` expects, or `None` where the
/// table has no entry for `kind`.
pub fn expected_payload_len(kind: u32) -> (r: Option<usize>)
    ensures
        r == if kind_known(kind) {
            Some(PERCENT_READY_PAYLOAD_LEN)
        } else {
            None::<usize>
        },
{
    if kind == KIND_PERCENT_READY {
        Some(PERCENT_READY_PAYLOAD_LEN)
    } else {
        None
    }
}

/// Reads an eight-byte little-endian payload as a 64-bit integer.
pub fn u64_from_le(b: &Vec<u8>) -> (r: u64)
    requires
        b@.len() == 8,
    ensures
        r == u64_from_le_spec(b@),
{
    let r: u64 = b[0] as u64 + (b[1] as u64) * 0x100 + (b[2] as u64) * 0x1_0000 + (b[3] as u64)
        * 0x100_0000 + (b[4] as u64) * 0x1_0000_0000 + (b[5] as u64) * 0x100_0000_0000 + (
    b[6] as u64) * 0x1_0000_0000_0000 + (b[7] as u64) * 0x100_0000_0000_0000;
    r
}

/// Decodes a raw payload under a known `kind` whose reported length matches
/// the table's expectation; the dispatcher never calls it otherwise.
pub fn decode_payload(kind: u32, payload: &Vec<u8>) -> (v: DecodedValue)
    requires
        kind_known(kind),
        payload@.len() == expected_len(kind),
    ensures
        v == decode_spec(kind, payload@),
{
    DecodedValue::GameId(u64_from_le(payload))
}

} // verus!
