//! A value together with the media type to send it as.

use crate::accept::Accept;
use crate::codec::{
    content_type_spec, negotiate, resolve, resolve_spec, text_of, CodecId, Direction,
};
use crate::error::{
    rejection_for, AnyMediaDeserializeError, AnyMediaRejection, AnyMediaSerializeError,
    RejectionView,
};
use crate::response::{
    encoded_response, rejection_response, serialized_view, MediaResponse, STATUS_BAD_REQUEST,
};
use std::ops::{Deref, DerefMut};
use vstd::prelude::*;
use vstd::std_specs::convert::FromSpecImpl;

verus! {

/// A decoded request body, or a value for a response body.
///
/// The second field is the media type to encode the value as, most often
/// the `Accept` header of the request. A decoded value carries none: how a
/// body came in says nothing of how the answer should go out.
#[derive(Debug, Clone)]
pub struct AnyMedia<T>(pub T, pub Option<String>);

/// The text of an optional owned header value.
pub open spec fn hint_text(hint: Option<String>) -> Option<Seq<char>> {
    match hint {
        Some(s) => Some(s@),
        None => None,
    }
}

/// What a request body decodes to, given what the codec made of it: the
/// value without a hint, or the rejection that the failure is sorted as.
pub open spec fn decoded<T>(
    outcome: Result<T, AnyMediaDeserializeError>,
    result: Result<AnyMedia<T>, AnyMediaRejection>,
) -> bool {
    match outcome {
        Ok(value) => result == Ok::<AnyMedia<T>, AnyMediaRejection>(AnyMedia(value, None)),
        Err(err) => result matches Err(rejection) && rejection@ == rejection_for(err@),
    }
}

impl<T> AnyMedia<T> {
    /// The media type to encode as, as text.
    pub open spec fn hint(self) -> Option<Seq<char>> {
        hint_text(self.1)
    }

    /// Takes the `Accept` header as the hint, unless the value already has
    /// one: a hint that was set by hand always wins.
    pub fn accepting(self, accept: Accept) -> (r: AnyMedia<T>)
        ensures
            r.0 == self.0,
            r.hint() == if self.1 is Some {
                self.hint()
            } else {
                accept@
            },
    {
        let AnyMedia(data, hint) = self;
        match hint {
            Some(text) => AnyMedia(data, Some(text)),
            None => AnyMedia(data, accept.into_inner()),
        }
    }

    /// Wraps what a codec made of a request body.
    pub fn from_decoded(outcome: Result<T, AnyMediaDeserializeError>) -> (r: Result<
        AnyMedia<T>,
        AnyMediaRejection,
    >)
        ensures
            decoded(outcome, r),
    {
        match outcome {
            Ok(value) => Ok(AnyMedia(value, None)),
            Err(err) => Err(AnyMediaRejection::from_deserialize_error(err)),
        }
    }

    /// Decodes a request body into a value.
    ///
    /// `content_type` is the `Content-Type` header, `body` what reading the
    /// request body gave. `deserialize` runs the codec it is handed on the
    /// bytes. Where the body could not be read no codec runs; else the one
    /// codec that the content type resolves to runs once, and its failure
    /// is final.
    pub fn from_request<F>(content_type: Option<&str>, body: Result<Vec<u8>, String>, deserialize: F) -> (r: Result<AnyMedia<T>, AnyMediaRejection>)
        where
            F: FnOnce(CodecId, Vec<u8>) -> Result<T, AnyMediaDeserializeError>,
        requires
            body matches Ok(bytes) ==> call_requires(
                deserialize,
                (resolve_spec(text_of(content_type), Direction::Decode), bytes),
            ),
        ensures
            match body {
                Err(message) => r matches Err(rejection) && rejection@
                    == (RejectionView::BytesRejection { detail: message@ }),
                Ok(bytes) => exists|outcome: Result<T, AnyMediaDeserializeError>|
                    #[trigger] call_ensures(
                        deserialize,
                        (resolve_spec(text_of(content_type), Direction::Decode), bytes),
                        outcome,
                    ) && decoded(outcome, r),
            },
    {
        match body {
            Err(message) => Err(AnyMediaRejection::BytesRejection { detail: message }),
            Ok(bytes) => {
                let codec = resolve(content_type, Direction::Decode);
                AnyMedia::from_decoded(deserialize(codec, bytes))
            },
        }
    }

    /// Encodes the value into a response.
    ///
    /// `serialize` runs the codec it is handed on the value. The one codec
    /// that the hint resolves to runs once; the response carries its bytes
    /// under the hint's media type, or reports its failure.
    pub fn into_response<F>(self, serialize: F) -> (r: MediaResponse)
        where
            F: FnOnce(CodecId, &T) -> Result<Vec<u8>, AnyMediaSerializeError>,
        requires
            call_requires(serialize, (resolve_spec(self.hint(), Direction::Encode), &self.0)),
        ensures
            exists|outcome: Result<Vec<u8>, AnyMediaSerializeError>|
                #[trigger] call_ensures(
                    serialize,
                    (resolve_spec(self.hint(), Direction::Encode), &self.0),
                    outcome,
                ) && r@ == encoded_response(
                    content_type_spec(self.hint()),
                    serialized_view(outcome),
                ),
    {
        let negotiated = match &self.1 {
            Some(hint) => negotiate(Some(hint.as_str()), Direction::Encode),
            None => negotiate(None, Direction::Encode),
        };
        let outcome = serialize(negotiated.codec, &self.0);
        MediaResponse::encoded(negotiated.content_type, outcome)
    }
}

impl<T> From<T> for AnyMedia<T> {
    fn from(data: T) -> (r: AnyMedia<T>) {
        AnyMedia(data, None)
    }
}

impl<T> FromSpecImpl<T> for AnyMedia<T> {
    open spec fn obeys_from_spec() -> bool {
        true
    }

    open spec fn from_spec(data: T) -> AnyMedia<T> {
        AnyMedia(data, None)
    }
}

impl<T> Deref for AnyMedia<T> {
    type Target = T;

    fn deref(&self) -> (r: &T)
        ensures
            *r == self.0,
    {
        &self.0
    }
}

impl<T> DerefMut for AnyMedia<T> {
    fn deref_mut(&mut self) -> (r: &mut T)
        ensures
            *r == old(self).0,
            *final(self) == AnyMedia(*final(r), old(self).1),
    {
        &mut self.0
    }
}

impl<T: Default> Default for AnyMedia<T> {
    fn default() -> (r: AnyMedia<T>)
        ensures
            r.1 is None,
    {
        AnyMedia(T::default(), None)
    }
}

/// A body that its codec could not read is never taken for a value: the
/// request is turned down, as a client error.
pub proof fn lemma_failed_decode_is_rejected<T>(
    outcome: Result<T, AnyMediaDeserializeError>,
    result: Result<AnyMedia<T>, AnyMediaRejection>,
)
    requires
        outcome is Err,
        decoded(outcome, result),
    ensures
        result matches Err(rejection) && rejection_response(rejection@).status
            == STATUS_BAD_REQUEST,
{
}

/// A body that its codec read is handed on as it is, with no hint for the
/// answer.
pub proof fn lemma_decoded_value_has_no_hint<T>(
    outcome: Result<T, AnyMediaDeserializeError>,
    result: Result<AnyMedia<T>, AnyMediaRejection>,
)
    requires
        outcome is Ok,
        decoded(outcome, result),
    ensures
        result matches Ok(media) && outcome == Ok::<T, AnyMediaDeserializeError>(media.0)
            && media.hint() is None,
{
}

/// What a request decodes to is decided by what the codec made of its body
/// and by nothing else: two decodings of one outcome give the same value,
/// or the same rejection with the same message, whatever ran before or
/// beside them.
pub proof fn lemma_decoding_depends_on_the_outcome_alone<T>(
    outcome: Result<T, AnyMediaDeserializeError>,
    first: Result<AnyMedia<T>, AnyMediaRejection>,
    second: Result<AnyMedia<T>, AnyMediaRejection>,
)
    requires
        decoded(outcome, first),
        decoded(outcome, second),
    ensures
        first is Ok <==> second is Ok,
        first matches Ok(a) ==> second matches Ok(b) && a == b,
        first matches Err(a) ==> second matches Err(b) && a@ == b@,
{
}

/// What a value encodes to is decided by its hint and by what the codec
/// made of the value, and by nothing else: two responses to one hint and
/// one outcome agree in status, content type and body.
pub proof fn lemma_encoding_depends_on_hint_and_outcome(
    hint: Option<Seq<char>>,
    outcome: Result<Vec<u8>, AnyMediaSerializeError>,
    first: MediaResponse,
    second: MediaResponse,
)
    requires
        first@ == encoded_response(content_type_spec(hint), serialized_view(outcome)),
        second@ == encoded_response(content_type_spec(hint), serialized_view(outcome)),
    ensures
        first@.status == second@.status,
        first@.content_type == second@.content_type,
        first@.body == second@.body,
{
}

} // verus!
