//! Responses in plain values, for the HTTP layer to send.

use crate::error::{AnyMediaRejection, AnyMediaSerializeError, RejectionView, SerializeErrorView};
use vstd::prelude::*;
use vstd::string::StrSliceExecFns;
use vstd::utf8::encode_utf8;

verus! {

/// The status of a response that carries an encoded value.
pub const STATUS_OK: u16 = 200;

/// The status of a response to a request whose body was turned down.
pub const STATUS_BAD_REQUEST: u16 = 400;

/// The status of a response whose value could not be encoded.
pub const STATUS_INTERNAL_SERVER_ERROR: u16 = 500;

/// The content type of a response that reports a failure.
pub const TEXT_PLAIN_UTF_8: &'static str = "text/plain; charset=utf-8";

/// A status, a content type and a body.
#[derive(Debug)]
pub struct MediaResponse {
    /// The HTTP status code.
    pub status: u16,
    /// The value of the `Content-Type` header.
    pub content_type: String,
    /// The body.
    pub body: Vec<u8>,
}

/// The mathematical model of a [`MediaResponse`].
pub struct MediaResponseView {
    pub status: u16,
    pub content_type: Seq<char>,
    pub body: Seq<u8>,
}

impl View for MediaResponse {
    type V = MediaResponseView;

    open spec fn view(&self) -> MediaResponseView {
        MediaResponseView {
            status: self.status,
            content_type: self.content_type@,
            body: self.body@,
        }
    }
}

/// The response that reports `message` with `status`, as plain text.
pub open spec fn failure_response(status: u16, message: Seq<char>) -> MediaResponseView {
    MediaResponseView {
        status,
        content_type: TEXT_PLAIN_UTF_8@,
        body: encode_utf8(message),
    }
}

/// The response for the outcome of a serialization under `content_type`:
/// the bytes under that content type, or the codec's message as a server
/// fault.
pub open spec fn encoded_response(
    content_type: Seq<char>,
    outcome: Result<Seq<u8>, SerializeErrorView>,
) -> MediaResponseView {
    match outcome {
        Ok(body) => MediaResponseView { status: STATUS_OK, content_type, body },
        Err(err) => failure_response(STATUS_INTERNAL_SERVER_ERROR, err.message()),
    }
}

/// The response that turns a request down.
pub open spec fn rejection_response(rejection: RejectionView) -> MediaResponseView {
    failure_response(STATUS_BAD_REQUEST, rejection.message())
}

/// The model of what a serializer hands back.
pub open spec fn serialized_view(outcome: Result<Vec<u8>, AnyMediaSerializeError>) -> Result<
    Seq<u8>,
    SerializeErrorView,
> {
    match outcome {
        Ok(body) => Ok(body@),
        Err(err) => Err(err@),
    }
}

impl MediaResponse {
    /// Reports a failure to the client in plain text.
    pub fn failure(status: u16, message: String) -> (r: MediaResponse)
        ensures
            r@ == failure_response(status, message@),
    {
        MediaResponse {
            status,
            content_type: TEXT_PLAIN_UTF_8.to_owned(),
            body: message.as_str().as_bytes_vec(),
        }
    }

    /// Builds the response for the outcome of a serialization. A failure is
    /// reported as a server fault and never retried with another codec.
    pub fn encoded(content_type: String, outcome: Result<Vec<u8>, AnyMediaSerializeError>) -> (r:
        MediaResponse)
        ensures
            r@ == encoded_response(content_type@, serialized_view(outcome)),
    {
        match outcome {
            Ok(body) => MediaResponse { status: STATUS_OK, content_type, body },
            Err(err) => MediaResponse::failure(STATUS_INTERNAL_SERVER_ERROR, err.message()),
        }
    }
}

impl AnyMediaRejection {
    /// The response that turns the request down: a client error with the
    /// rejection's message as plain text.
    pub fn into_response(self) -> (r: MediaResponse)
        ensures
            r@ == rejection_response(self@),
    {
        MediaResponse::failure(STATUS_BAD_REQUEST, self.message())
    }
}

} // verus!
