//! Codec for the OpenSea Stream API event schema.
//!
//! Decodes marketplace-event messages (item listed, sold, transferred,
//! metadata updated, cancelled, offer received, bid received) from their
//! JSON wire form into a typed, validated representation, and re-encodes
//! that representation back to the same wire form.
//!
//! The codec is a pure function from structured values to typed events and
//! back: it owns no connection and performs no I/O. What decoding and
//! encoding mean is stated in [`codec`] over a ghost model of JSON, every
//! executable decoder and encoder is proved against that statement, and
//! [`laws`] proves that decoding inverts encoding for every well-formed
//! event of every kind.

pub mod address;
pub mod chain;
pub mod codec;
pub mod decode;
pub mod encode;
pub mod error;
pub mod link;
pub mod price;
pub mod protocol;
pub mod schema;
pub mod time;
pub mod json;
pub mod laws;
pub mod text;
pub mod u256;

pub use decode::decode_stream_event;
pub use encode::encode_stream_event;
pub use error::{DecodeError, ErrorKind};
pub use json::Json;
pub use protocol::{Collection, Event, Network};
