use wasmium_hash_id::{HashIdError, Timestamp, WasmiumHashID};

// A fixed, well-formed 12-byte TAI64N field used as the mocked instant:
// second label 0x4000_0000_612C_3D4E, nanosecond count 0x050F_1F2F.
const T0_BYTES: [u8; 12] = [
    0x40, 0x00, 0x00, 0x00, 0x61, 0x2C, 0x3D, 0x4E, 0x05, 0x0F, 0x1F, 0x2F,
];
const T0_SECS: u64 = 4611686020057677134;
const T0_NANOS: u32 = 84877103;

#[test]
fn round_trip_digest() {
    let digest = *blake3::hash(b"some message bytes").as_bytes();
    let id = WasmiumHashID::new(digest);
    let encoded = id.build();
    assert_eq!(WasmiumHashID::get_blake3_hash(encoded), digest);
}

#[test]
fn round_trip_timestamp_mocked_clock() {
    let digest = [0xABu8; 32];
    let id = WasmiumHashID::from_parts(T0_BYTES, digest);
    let encoded = id.build();
    let decoded = WasmiumHashID::get_timestamp(encoded).unwrap();
    assert_eq!(decoded, Timestamp { secs: T0_SECS, nanos: T0_NANOS });
}

#[test]
fn timestamp_agrees_with_outside_decoder() {
    // The library's decoded fields must match what tai64 itself parses
    // out of the same 12 bytes.
    let reference = tai64::Tai64N::from_slice(&T0_BYTES).unwrap();
    assert_eq!((reference.0).0, T0_SECS);
    assert_eq!(reference.1, T0_NANOS);

    let other_bytes: [u8; 12] = [0x40, 0, 0, 0, 0, 0, 0, 37, 0, 0, 0, 1];
    let id = WasmiumHashID::from_parts(other_bytes, [0u8; 32]);
    let decoded = WasmiumHashID::get_timestamp(id.build()).unwrap();
    let reference = tai64::Tai64N::from_slice(&other_bytes).unwrap();
    assert_eq!(decoded.secs, (reference.0).0);
    assert_eq!(decoded.nanos, reference.1);
    assert_ne!(decoded.secs, T0_SECS);
}

#[test]
fn clock_built_identifier_decodes() {
    let id = WasmiumHashID::new([7u8; 32]);
    let decoded = WasmiumHashID::get_timestamp(id.build());
    assert!(decoded.is_ok());
}

#[test]
fn fixed_width() {
    let id = WasmiumHashID::new([0u8; 32]);
    assert_eq!(id.build().len(), 44);
    let id = WasmiumHashID::from_parts([0xFFu8; 12], [0xFFu8; 32]);
    assert_eq!(id.build().len(), 44);
}

#[test]
fn positional_layout() {
    let id = WasmiumHashID::from_parts(T0_BYTES, [0xC3u8; 32]);
    let encoded = id.build();
    assert_eq!(&encoded[0..12], &T0_BYTES);
    assert_eq!(&encoded[12..44], &[0xC3u8; 32]);
}

#[test]
fn timestamp_dominates_ordering() {
    let earlier: [u8; 12] = [0x40, 0, 0, 0, 0, 0, 0, 1, 0, 0, 0, 0];
    let later: [u8; 12] = [0x40, 0, 0, 0, 0, 0, 0, 2, 0, 0, 0, 0];
    // The earlier identifier gets the largest possible digest, the later
    // the smallest: creation time must still decide the comparison.
    let id1 = WasmiumHashID::from_parts(earlier, [0xFFu8; 32]);
    let id2 = WasmiumHashID::from_parts(later, [0x00u8; 32]);
    let enc1 = id1.build();
    let enc2 = id2.build();
    assert!(enc1[..] < enc2[..]);
    assert!(id1 < id2);
}

#[test]
fn equal_timestamps_fall_back_to_digest() {
    let id1 = WasmiumHashID::from_parts(T0_BYTES, [0x01u8; 32]);
    let id2 = WasmiumHashID::from_parts(T0_BYTES, [0x02u8; 32]);
    let enc1 = id1.build();
    let enc2 = id2.build();
    assert!(enc1[..] < enc2[..]);
}

#[test]
fn encode_is_deterministic() {
    let id = WasmiumHashID::new(*blake3::hash(b"twice").as_bytes());
    assert_eq!(id.build(), id.build());
    let copy = id.clone();
    assert_eq!(copy.build(), id.build());
}

#[test]
fn malformed_timestamp_rejected() {
    // A nanosecond count of 0xFFFF_FFFF is far above one billion, so the
    // timestamp field is invalid under the tai64 format's own rules.
    let bad: [u8; 12] = [0x40, 0, 0, 0, 0, 0, 0, 1, 0xFF, 0xFF, 0xFF, 0xFF];
    assert!(tai64::Tai64N::from_slice(&bad).is_err());
    let id = WasmiumHashID::from_parts(bad, [0u8; 32]);
    let decoded = WasmiumHashID::get_timestamp(id.build());
    assert_eq!(decoded.unwrap_err(), HashIdError::MalformedTimestamp);
}

#[test]
fn smallest_invalid_nanos_rejected_largest_valid_accepted() {
    let mut field = T0_BYTES;
    // Exactly one billion nanoseconds: the smallest invalid count.
    field[8..12].copy_from_slice(&1_000_000_000u32.to_be_bytes());
    let id = WasmiumHashID::from_parts(field, [0u8; 32]);
    assert!(WasmiumHashID::get_timestamp(id.build()).is_err());

    // One below a billion: the largest valid count.
    field[8..12].copy_from_slice(&999_999_999u32.to_be_bytes());
    let id = WasmiumHashID::from_parts(field, [0u8; 32]);
    let decoded = WasmiumHashID::get_timestamp(id.build()).unwrap();
    assert_eq!(decoded.nanos, 999_999_999);
    assert_eq!(decoded.secs, T0_SECS);
}

#[test]
fn zero_message_scenario() {
    // Hash the 8 zero bytes with the outside hash function, build at the
    // mocked instant, and check both halves of the encoding exactly.
    let dz = *blake3::hash(&[0u8; 8]).as_bytes();
    let id = WasmiumHashID::from_parts(T0_BYTES, dz);
    let encoded = id.build();
    assert_eq!(encoded.len(), 44);
    assert_eq!(&encoded[0..12], &T0_BYTES);
    assert_eq!(&encoded[12..44], &dz);
    let decoded_ts = WasmiumHashID::get_timestamp(encoded).unwrap();
    assert_eq!(decoded_ts, Timestamp { secs: T0_SECS, nanos: T0_NANOS });
    assert_eq!(WasmiumHashID::get_blake3_hash(encoded), dz);
}

#[test]
fn rand32_yields_decodable_identifier() {
    let id = WasmiumHashID::rand32();
    let encoded = id.build();
    assert_eq!(encoded.len(), 44);
    assert!(WasmiumHashID::get_timestamp(encoded).is_ok());
    assert_eq!(WasmiumHashID::get_blake3_hash(encoded), id.blake3hash);
}

#[test]
fn rand64_yields_decodable_identifier() {
    let id = WasmiumHashID::rand64();
    let encoded = id.build();
    assert_eq!(encoded.len(), 44);
    assert!(WasmiumHashID::get_timestamp(encoded).is_ok());
    assert_eq!(WasmiumHashID::get_blake3_hash(encoded), id.blake3hash);
}
