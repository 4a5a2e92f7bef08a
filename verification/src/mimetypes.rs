//! One function per codec and direction, from what the codec's call gave
//! to what the negotiation goes on with.

use crate::error::{
    json_failure_read, yaml_failure_read, AnyMediaDeserializeError, AnyMediaSerializeError,
};
use vstd::prelude::*;
use vstd::string::{to_string_from_display_ensures, StrSliceExecFns};
use vstd::utf8::encode_utf8;

verus! {

/// Takes the outcome of `serde_json::to_vec`: the bytes are the body.
pub fn serialize_json(outcome: Result<Vec<u8>, serde_json::Error>) -> (r: Result<
    Vec<u8>,
    AnyMediaSerializeError,
>)
    ensures
        match outcome {
            Ok(body) => r == Ok::<Vec<u8>, AnyMediaSerializeError>(body),
            Err(err) => r matches Err(AnyMediaSerializeError::JsonError(message))
                && to_string_from_display_ensures(&err, message),
        },
{
    match outcome {
        Ok(body) => Ok(body),
        Err(err) => Err(AnyMediaSerializeError::from_json(&err)),
    }
}

/// Takes the outcome of `serde_urlencoded::to_string`: the text, in UTF-8,
/// is the body.
pub fn serialize_urlencoded(outcome: Result<String, serde_urlencoded::ser::Error>) -> (r: Result<
    Vec<u8>,
    AnyMediaSerializeError,
>)
    ensures
        match outcome {
            Ok(text) => r matches Ok(body) && body@ == encode_utf8(text@),
            Err(err) => r matches Err(AnyMediaSerializeError::UrlEncodedError(message))
                && to_string_from_display_ensures(&err, message),
        },
{
    match outcome {
        Ok(text) => Ok(text.as_str().as_bytes_vec()),
        Err(err) => Err(AnyMediaSerializeError::from_urlencoded(&err)),
    }
}

/// Takes the outcome of `serde_yaml::to_string`: the text, in UTF-8, is the
/// body.
pub fn serialize_yaml(outcome: Result<String, serde_yaml::Error>) -> (r: Result<
    Vec<u8>,
    AnyMediaSerializeError,
>)
    ensures
        match outcome {
            Ok(text) => r matches Ok(body) && body@ == encode_utf8(text@),
            Err(err) => r matches Err(AnyMediaSerializeError::YamlError(message))
                && to_string_from_display_ensures(&err, message),
        },
{
    match outcome {
        Ok(text) => Ok(text.as_str().as_bytes_vec()),
        Err(err) => Err(AnyMediaSerializeError::from_yaml(&err)),
    }
}

/// Takes the outcome of `serde_xml_rs::to_string`: the text, in UTF-8, is
/// the body.
pub fn serialize_xml(outcome: Result<String, serde_xml_rs::Error>) -> (r: Result<
    Vec<u8>,
    AnyMediaSerializeError,
>)
    ensures
        match outcome {
            Ok(text) => r matches Ok(body) && body@ == encode_utf8(text@),
            Err(err) => r matches Err(AnyMediaSerializeError::XmlError(message))
                && to_string_from_display_ensures(&err, message),
        },
{
    match outcome {
        Ok(text) => Ok(text.as_str().as_bytes_vec()),
        Err(err) => Err(AnyMediaSerializeError::from_xml(&err)),
    }
}

/// Takes the outcome of `serde_path_to_error::deserialize` over a JSON
/// deserializer. A failure keeps the category and the path that the codec
/// gave it, which decide how the request is turned down.
pub fn deserialize_json<T>(outcome: Result<T, serde_path_to_error::Error<serde_json::Error>>) -> (r:
    Result<T, AnyMediaDeserializeError>)
    ensures
        match outcome {
            Ok(value) => r == Ok::<T, AnyMediaDeserializeError>(value),
            Err(err) => r matches Err(failure) && json_failure_read(err, failure),
        },
{
    match outcome {
        Ok(value) => Ok(value),
        Err(err) => Err(AnyMediaDeserializeError::from_json(&err)),
    }
}

/// Takes the outcome of `serde_urlencoded::from_bytes`.
pub fn deserialize_urlencoded<T>(outcome: Result<T, serde_urlencoded::de::Error>) -> (r: Result<
    T,
    AnyMediaDeserializeError,
>)
    ensures
        match outcome {
            Ok(value) => r == Ok::<T, AnyMediaDeserializeError>(value),
            Err(err) => r matches Err(AnyMediaDeserializeError::UrlEncodedError { detail })
                && to_string_from_display_ensures(&err, detail),
        },
{
    match outcome {
        Ok(value) => Ok(value),
        Err(err) => Err(AnyMediaDeserializeError::from_urlencoded(&err)),
    }
}

/// Takes the outcome of `serde_path_to_error::deserialize` over a YAML
/// deserializer.
pub fn deserialize_yaml<T>(outcome: Result<T, serde_path_to_error::Error<serde_yaml::Error>>) -> (r:
    Result<T, AnyMediaDeserializeError>)
    ensures
        match outcome {
            Ok(value) => r == Ok::<T, AnyMediaDeserializeError>(value),
            Err(err) => r matches Err(failure) && yaml_failure_read(err, failure),
        },
{
    match outcome {
        Ok(value) => Ok(value),
        Err(err) => Err(AnyMediaDeserializeError::from_yaml(&err)),
    }
}

} // verus!
