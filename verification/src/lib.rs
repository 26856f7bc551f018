//! A compact, sortable, globally-unique identifier: a 12-byte TAI64N
//! timestamp paired with a 32-byte BLAKE3 digest, encoded as a fixed
//! 44-byte buffer whose byte-lexicographic order follows creation time.

pub mod id;
pub mod order;
pub mod timestamp;

pub use id::HashIdError;
pub use id::WasmiumHashID;
pub use timestamp::Timestamp;
