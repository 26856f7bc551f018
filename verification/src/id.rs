use vstd::prelude::*;

use crate::timestamp::{
    current_timestamp_bytes, nanos_field, parse_timestamp_bytes, secs_field,
    timestamp_bytes_valid, Timestamp,
};

verus! {

/// The ways decoding a 44-byte buffer can fail. Recovering the digest
/// half never fails (its width is fixed by the buffer's type), so the
/// timestamp half is the only fallible part.
#[derive(Debug, Clone, Copy, PartialEq, Eq)]
pub enum HashIdError {
    /// The first 12 bytes of the buffer do not parse as a TAI64N instant.
    MalformedTimestamp,
}

/// The digest the outside hash function computes for the given input
/// bytes. The digest is a pure function of the input alone, so it is
/// given a name here rather than an algorithm.
pub uninterp spec fn blake3_of(input: Seq<u8>) -> Seq<u8>;

/// Relies on blake3::hash, whose 32-byte digest depends on the input
/// bytes alone, and on blake3::Hash::as_bytes, which hands out exactly
/// those digest bytes.
#[verifier::external_body]
fn blake3_digest(input: &[u8]) -> (r: [u8; 32])
    ensures
        r@ == blake3_of(input@),
{
    *blake3::hash(input).as_bytes()
}

/// Relies on nanorand's BufferedRng over the ChaCha8 generator to fill
/// the buffer with cryptographically secure random bytes. The result is
/// random, so nothing is stated of it.
#[verifier::external_body]
fn random_bytes_32() -> (r: [u8; 32]) {
    let mut buffer = [0u8; 32];
    let mut rng = nanorand::BufferedRng::new(nanorand::ChaCha8::new());
    nanorand::Rng::fill_bytes(&mut rng, &mut buffer);
    buffer
}

/// Relies on nanorand's BufferedRng over the ChaCha8 generator to fill
/// the buffer with cryptographically secure random bytes. The result is
/// random, so nothing is stated of it.
#[verifier::external_body]
fn random_bytes_64() -> (r: [u8; 64]) {
    let mut buffer = [0u8; 64];
    let mut rng = nanorand::BufferedRng::new(nanorand::ChaCha8::new());
    nanorand::Rng::fill_bytes(&mut rng, &mut buffer);
    buffer
}

/// The timestamp half of a canonical 44-byte encoding.
pub open spec fn timestamp_part(b: Seq<u8>) -> Seq<u8>
    recommends
        b.len() == 44,
{
    b.subrange(0, 12)
}

/// The digest half of a canonical 44-byte encoding.
pub open spec fn digest_part(b: Seq<u8>) -> Seq<u8>
    recommends
        b.len() == 44,
{
    b.subrange(12, 44)
}

/// The composite identifier: a 12-byte high-resolution timestamp followed
/// by a 32-byte cryptographic digest. Encoded, the timestamp comes first,
/// so encoded identifiers sort primarily by creation time.
#[derive(Debug, Clone, PartialEq, Eq, PartialOrd, Ord)]
pub struct WasmiumHashID {
    /// The TAI64N encoding of the instant the identifier was created.
    pub tai_timestamp: [u8; 12],
    /// The raw bytes of the BLAKE3 digest the identifier carries.
    pub blake3hash: [u8; 32],
}

impl WasmiumHashID {
    /// The canonical 44-byte encoding: timestamp bytes, then digest bytes.
    pub open spec fn encoded(self) -> Seq<u8> {
        self.tai_timestamp@ + self.blake3hash@
    }

    /// Pair the given digest bytes with the current instant, read from
    /// the outside clock at this moment. Construction never fails; the
    /// clock always hands back a well-formed timestamp field.
    pub fn new(blake3hash: [u8; 32]) -> (r: WasmiumHashID)
        ensures
            r.blake3hash == blake3hash,
            timestamp_bytes_valid(r.tai_timestamp@),
    {
        WasmiumHashID { tai_timestamp: current_timestamp_bytes(), blake3hash }
    }

    /// Pair the given timestamp field with the given digest bytes, with
    /// no clock involved: the deterministic constructor, for rebuilding
    /// an identifier from parts already in hand.
    pub fn from_parts(tai_timestamp: [u8; 12], blake3hash: [u8; 32]) -> (r: WasmiumHashID)
        ensures
            r.tai_timestamp == tai_timestamp,
            r.blake3hash == blake3hash,
    {
        WasmiumHashID { tai_timestamp, blake3hash }
    }

    /// Build the canonical 44-byte buffer for this identifier: timestamp
    /// bytes at offsets 0 to 11, digest bytes at offsets 12 to 43.
    pub fn build(&self) -> (r: [u8; 44])
        ensures
            r@ == self.encoded(),
    {
        let mut hash_id = [0u8; 44];
        for i in 0..12usize
            invariant
                forall|j: int| 0 <= j < i ==> hash_id@[j] == self.tai_timestamp@[j],
        {
            hash_id[i] = self.tai_timestamp[i];
        }
        for i in 0..32usize
            invariant
                forall|j: int| 0 <= j < 12 ==> hash_id@[j] == self.tai_timestamp@[j],
                forall|j: int| 0 <= j < i ==> hash_id@[12 + j] == self.blake3hash@[j],
        {
            hash_id[12 + i] = self.blake3hash[i];
        }
        proof {
            assert(hash_id@ =~= self.encoded());
        }
        hash_id
    }

    /// Recover the instant stored in the first 12 bytes of a canonical
    /// buffer. Succeeds exactly when those bytes are a well-formed
    /// timestamp field; otherwise the buffer is rejected as malformed.
    pub fn get_timestamp(hash_id: [u8; 44]) -> (r: Result<Timestamp, HashIdError>)
        ensures
            r is Ok <==> timestamp_bytes_valid(timestamp_part(hash_id@)),
            r matches Ok(t) ==> t.secs == secs_field(timestamp_part(hash_id@)) && t.nanos
                == nanos_field(timestamp_part(hash_id@)),
            r matches Err(e) ==> e == HashIdError::MalformedTimestamp,
    {
        let mut ts = [0u8; 12];
        for i in 0..12usize
            invariant
                forall|j: int| 0 <= j < i ==> ts@[j] == hash_id@[j],
        {
            ts[i] = hash_id[i];
        }
        proof {
            assert(ts@ =~= timestamp_part(hash_id@));
        }
        match parse_timestamp_bytes(&ts) {
            Ok(t) => Ok(t),
            Err(_) => Err(HashIdError::MalformedTimestamp),
        }
    }

    /// Recover the digest stored in the last 32 bytes of a canonical
    /// buffer. The buffer's fixed width makes the digest slice always
    /// the right size, so recovery cannot fail.
    pub fn get_blake3_hash(hash_id: [u8; 44]) -> (r: [u8; 32])
        ensures
            r@ == digest_part(hash_id@),
    {
        let mut digest = [0u8; 32];
        for i in 0..32usize
            invariant
                forall|j: int| 0 <= j < i ==> digest@[j] == hash_id@[12 + j],
        {
            digest[i] = hash_id[12 + i];
        }
        proof {
            assert(digest@ =~= digest_part(hash_id@));
        }
        digest
    }

    /// Hash 32 bytes drawn from the CSPRNG and pair the digest with the
    /// current instant: an identifier tied to no meaningful content.
    pub fn rand32() -> (r: WasmiumHashID)
        ensures
            timestamp_bytes_valid(r.tai_timestamp@),
            exists|seed: Seq<u8>| seed.len() == 32 && r.blake3hash@ == blake3_of(seed),
    {
        let buffer = random_bytes_32();
        let blake3hash = blake3_digest(&buffer);
        WasmiumHashID { tai_timestamp: current_timestamp_bytes(), blake3hash }
    }

    /// Hash 64 bytes drawn from the CSPRNG and pair the digest with the
    /// current instant: an identifier tied to no meaningful content.
    pub fn rand64() -> (r: WasmiumHashID)
        ensures
            timestamp_bytes_valid(r.tai_timestamp@),
            exists|seed: Seq<u8>| seed.len() == 64 && r.blake3hash@ == blake3_of(seed),
    {
        let buffer = random_bytes_64();
        let blake3hash = blake3_digest(&buffer);
        WasmiumHashID { tai_timestamp: current_timestamp_bytes(), blake3hash }
    }
}

/// Law: fixed width. Every canonical encoding is exactly 44 bytes wide.
pub proof fn lemma_encoded_width(id: WasmiumHashID)
    ensures
        id.encoded().len() == 44,
{
}

/// Law: positional correctness. The first 12 bytes of an encoding are
/// exactly the identifier's timestamp field and the last 32 bytes exactly
/// its digest, whatever either holds.
pub proof fn lemma_encoded_positional(id: WasmiumHashID)
    ensures
        timestamp_part(id.encoded()) == id.tai_timestamp@,
        digest_part(id.encoded()) == id.blake3hash@,
{
    assert(timestamp_part(id.encoded()) =~= id.tai_timestamp@);
    assert(digest_part(id.encoded()) =~= id.blake3hash@);
}

/// Law: digest round trip. Decoding the digest half of an identifier's
/// encoding yields exactly the digest the identifier was constructed
/// with, for every digest value.
pub proof fn lemma_digest_round_trip(id: WasmiumHashID)
    ensures
        digest_part(id.encoded()) == id.blake3hash@,
{
    lemma_encoded_positional(id);
}

/// Law: timestamp round trip. For an identifier whose timestamp field is
/// well formed — as every clock-built one is — decoding the timestamp
/// half of its encoding succeeds and yields the second and nanosecond
/// counts of the instant the identifier was built at.
pub proof fn lemma_timestamp_round_trip(id: WasmiumHashID)
    requires
        timestamp_bytes_valid(id.tai_timestamp@),
    ensures
        timestamp_bytes_valid(timestamp_part(id.encoded())),
        secs_field(timestamp_part(id.encoded())) == secs_field(id.tai_timestamp@),
        nanos_field(timestamp_part(id.encoded())) == nanos_field(id.tai_timestamp@),
{
    lemma_encoded_positional(id);
}

/// Law: determinism. The encoding is a function of the identifier value
/// alone, so any two buffers built from the same identifier hold the
/// same bytes.
pub proof fn lemma_encode_deterministic(id: WasmiumHashID, b1: [u8; 44], b2: [u8; 44])
    requires
        b1@ == id.encoded(),
        b2@ == id.encoded(),
    ensures
        b1@ == b2@,
{
}

} // verus!
