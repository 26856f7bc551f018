use vstd::prelude::*;

verus! {

/// An instant decoded from the 12-byte TAI64N timestamp field: the first
/// 8 bytes are a big-endian second count (the TAI64 second label), the
/// last 4 bytes a big-endian nanosecond count below one billion.
#[derive(Debug, Clone, Copy, PartialEq, Eq)]
pub struct Timestamp {
    /// The TAI64 second label, read big-endian from the first 8 bytes.
    pub secs: u64,
    /// The nanosecond count, read big-endian from the last 4 bytes.
    pub nanos: u32,
}

/// The second count stored big-endian in the first 8 bytes of a 12-byte
/// timestamp field.
pub open spec fn secs_field(s: Seq<u8>) -> int
    recommends
        s.len() == 12,
{
    (s[0] as int) * 0x100_0000_0000_0000 + (s[1] as int) * 0x1_0000_0000_0000 + (s[2] as int)
        * 0x100_0000_0000 + (s[3] as int) * 0x1_0000_0000 + (s[4] as int) * 0x100_0000 + (
    s[5] as int) * 0x1_0000 + (s[6] as int) * 0x100 + (s[7] as int)
}

/// The nanosecond count stored big-endian in the last 4 bytes of a 12-byte
/// timestamp field.
pub open spec fn nanos_field(s: Seq<u8>) -> int
    recommends
        s.len() == 12,
{
    (s[8] as int) * 0x100_0000 + (s[9] as int) * 0x1_0000 + (s[10] as int) * 0x100 + (s[11] as int)
}

/// A 12-byte timestamp field is well formed exactly when its nanosecond
/// count is below one billion; the second count is unconstrained.
pub open spec fn timestamp_bytes_valid(s: Seq<u8>) -> bool
    recommends
        s.len() == 12,
{
    nanos_field(s) < 1_000_000_000
}

/// The error type of the outside timestamp decoder, opaque to this crate;
/// decode functions translate it into the crate's own error type.
#[verifier::external_type_specification]
#[verifier::external_body]
pub struct ExTai64Error(tai64::Error);

/// Relies on tai64::Tai64N::now and Tai64N::to_bytes: the current instant,
/// written as an 8-byte big-endian second count followed by a 4-byte
/// big-endian nanosecond count, which both arms of the clock conversion
/// keep below one billion. Which instant comes back depends on the system
/// clock, so nothing more is stated of the result.
#[verifier::external_body]
pub(crate) fn current_timestamp_bytes() -> (r: [u8; 12])
    ensures
        timestamp_bytes_valid(r@),
{
    tai64::Tai64N::now().to_bytes()
}

/// Relies on tai64::Tai64N::from_slice: a 12-byte slice parses exactly
/// when its big-endian nanosecond count is below one billion, and the
/// parsed value carries the big-endian second and nanosecond counts of
/// the input bytes (read here out of the pair's public fields).
#[verifier::external_body]
pub(crate) fn parse_timestamp_bytes(b: &[u8; 12]) -> (r: Result<Timestamp, tai64::Error>)
    ensures
        r is Ok <==> timestamp_bytes_valid(b@),
        r matches Ok(t) ==> t.secs == secs_field(b@) && t.nanos == nanos_field(b@),
{
    match tai64::Tai64N::from_slice(b) {
        Ok(t) => Ok(Timestamp { secs: (t.0).0, nanos: t.1 }),
        Err(e) => Err(e),
    }
}

} // verus!
