//! Compact status lists for verifiable credentials: status codes packed at a
//! fixed bit width, compressed with zlib, and rendered as JSON or CBOR.

pub mod base64;
pub mod builder;
pub mod compression;
pub mod decoder;
pub mod encoder;
pub mod envelope;
pub mod error;
pub mod layout;
pub mod text;
pub mod types;

pub use builder::StatusListBuilder;
pub use decoder::StatusListDecoder;
pub use encoder::StatusListEncoder;
pub use error::{BuilderError, DecoderError, StatusTypeError};
pub use types::{
    BitsPerStatus, CborStatusList, JsonStatusList, SerializationError, StatusList, StatusType,
};
