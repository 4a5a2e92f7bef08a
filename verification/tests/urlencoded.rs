use axum_media::error::RejectionKind;
use axum_media::mimetypes::{
    deserialize_json, deserialize_urlencoded, serialize_json, serialize_urlencoded,
};
use axum_media::{
    Accept, AnyMedia, AnyMediaDeserializeError, AnyMediaRejection, AnyMediaSerializeError,
    CodecId, MediaResponse,
};
use std::collections::BTreeMap;

type TestData = BTreeMap<String, bool>;

fn test_data(test: bool) -> TestData {
    let mut data = BTreeMap::new();
    data.insert("test".to_string(), test);
    data
}

fn encode(codec: CodecId, value: &TestData) -> Result<Vec<u8>, AnyMediaSerializeError> {
    match codec {
        CodecId::UrlEncoded => serialize_urlencoded(serde_urlencoded::to_string(value)),
        _ => serialize_json(serde_json::to_vec(value)),
    }
}

fn decode(codec: CodecId, bytes: Vec<u8>) -> Result<TestData, AnyMediaDeserializeError> {
    match codec {
        CodecId::UrlEncoded => deserialize_urlencoded(serde_urlencoded::from_bytes(&bytes)),
        _ => {
            let mut deserializer = serde_json::Deserializer::from_slice(&bytes);
            let outcome = match serde_path_to_error::deserialize(&mut deserializer) {
                Ok(value) => match deserializer.end() {
                    Ok(()) => Ok(value),
                    Err(err) => Err(serde_path_to_error::Error::new(
                        serde_path_to_error::Track::new().path(),
                        err,
                    )),
                },
                Err(err) => Err(err),
            };
            deserialize_json(outcome)
        }
    }
}

fn handler(accept: Accept) -> MediaResponse {
    AnyMedia(test_data(true), accept.into()).into_response(encode)
}

#[test]
fn urlencoded_it_should_serialize_urlencoded() {
    let res = handler(Accept::from_header(Some("application/x-www-form-urlencoded")));

    assert_eq!(res.status, 200);
    assert_eq!(String::from_utf8(res.body).unwrap(), "test=true");
    assert_eq!(res.content_type, "application/x-www-form-urlencoded");
}

#[test]
fn urlencoded_it_should_deserialize_urlencoded() {
    let res = AnyMedia::from_request(
        Some("application/x-www-form-urlencoded"),
        Ok(b"test=true".to_vec()),
        decode,
    );

    let AnyMedia(data, _) = res.unwrap();
    assert_eq!(data["test"].to_string(), "true");
}

#[test]
fn urlencoded_without_accept_falls_back_to_json() {
    let res = handler(Accept::from_header(None));
    assert_eq!(res.status, 200);
    assert_eq!(res.content_type, "application/json");
    assert_eq!(res.body, b"{\"test\":true}".to_vec());
}

#[test]
fn urlencoded_suffix_selects_the_form_codec() {
    let res = handler(Accept::from_header(Some("application/vnd.form+x-www-form-urlencoded")));
    assert_eq!(res.body, b"test=true".to_vec());
    assert_eq!(res.content_type, "application/vnd.form+x-www-form-urlencoded");
}

#[test]
fn urlencoded_round_trip_gives_flat_values_back() {
    let mut data = test_data(false);
    data.insert("other key".to_string(), true);
    let res = AnyMedia(data.clone(), Some("application/x-www-form-urlencoded".to_string()))
        .into_response(encode);
    assert_eq!(res.body, b"other+key=true&test=false".to_vec());
    let back = AnyMedia::from_request(Some(&res.content_type), Ok(res.body), decode).unwrap();
    assert_eq!(back.0, data);
    assert_eq!(back.1, None);
}

#[test]
fn urlencoded_parse_failure_is_format_specific() {
    let res = AnyMedia::from_request(
        Some("application/x-www-form-urlencoded"),
        Ok(b"test=maybe".to_vec()),
        decode,
    );
    let rejection = res.unwrap_err();
    assert!(matches!(rejection, AnyMediaRejection::UrlEncodedError { .. }));
    assert_eq!(rejection.kind(), RejectionKind::FormatSpecific);
    assert_eq!(rejection.path(), None);
    let message = rejection.message();
    assert!(message.starts_with("Failed to parse the request body as form urlencoded: "));
    let response = rejection.into_response();
    assert_eq!(response.status, 400);
    assert_eq!(response.content_type, "text/plain; charset=utf-8");
    assert_eq!(response.body, message.into_bytes());
}

#[test]
fn urlencoded_errors_keep_codec_and_message() {
    let err = serde_urlencoded::from_str::<TestData>("test=maybe").unwrap_err();
    let text = err.to_string();
    let failure = AnyMediaDeserializeError::from_urlencoded(&err);
    assert_eq!(failure.codec(), CodecId::UrlEncoded);
    assert!(matches!(&failure, AnyMediaDeserializeError::UrlEncodedError { detail } if *detail == text));
    assert!(matches!(
        deserialize_urlencoded::<TestData>(Err(err)),
        Err(AnyMediaDeserializeError::UrlEncodedError { detail }) if detail == text
    ));
    assert_eq!(deserialize_urlencoded(Ok(5u8)).unwrap(), 5);

    let err = serde_urlencoded::to_string(&vec![1u8]).unwrap_err();
    let text = err.to_string();
    let failure = AnyMediaSerializeError::from_urlencoded(&err);
    assert_eq!(failure.codec(), CodecId::UrlEncoded);
    assert_eq!(failure.message(), text);
    assert!(matches!(
        serialize_urlencoded(Err(err)),
        Err(AnyMediaSerializeError::UrlEncodedError(m)) if m == text
    ));
    assert_eq!(serialize_urlencoded(Ok("a=b".to_string())).unwrap(), b"a=b".to_vec());
}

#[test]
fn urlencoded_encode_failure_is_a_server_fault() {
    let res = AnyMedia(vec![1u8, 2u8], Some("application/x-www-form-urlencoded".to_string()))
        .into_response(|codec, value: &Vec<u8>| match codec {
            CodecId::UrlEncoded => serialize_urlencoded(serde_urlencoded::to_string(value)),
            _ => serialize_json(serde_json::to_vec(value)),
        });
    assert_eq!(res.status, 500);
    assert_eq!(res.content_type, "text/plain; charset=utf-8");
    assert!(!res.body.is_empty());
}
