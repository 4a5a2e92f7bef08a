//! Content negotiation for request and response bodies.
//!
//! A media type named by a `Content-Type` or `Accept` header is resolved to
//! one of a fixed set of codecs, with JSON as the permissive default.

pub mod accept;
pub mod anymedia;
pub mod codec;
pub mod error;
pub mod media_type;
pub mod mimetypes;
pub mod response;
pub mod text;

pub use accept::Accept;
pub use anymedia::AnyMedia;
pub use codec::{CodecId, Direction};
pub use error::{AnyMediaDeserializeError, AnyMediaRejection, AnyMediaSerializeError};
pub use media_type::MediaType;
pub use response::MediaResponse;
