//! Fixed-layout binary records in big-endian byte order.
//!
//! A record is a value whose fields each occupy a fixed number of bytes:
//! integers of a declared width, fixed-size byte arrays, and tuples of
//! these. [`BytesDecodeExt::decode`] reads a record from the front of a byte
//! buffer and [`BytesEncodeExt::encode`] writes one into a fresh buffer. What
//! both mean is given by [`FixedLayout`], and the round-trip laws are proved
//! in [`laws`].

mod binrw_calls;
pub mod bytes;
pub mod cursor;
pub mod error;
pub mod ints;
pub mod laws;
pub mod layout;
pub mod tuples;
pub mod wire;

pub use error::CodecError;
pub use layout::{BytesDecodeExt, BytesEncodeExt, FixedLayout};
