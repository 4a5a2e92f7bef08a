use axum_media::codec::{
    codec_for, lookup, negotiate, resolve, CodecId, Direction, APPLICATION_JSON,
};
use axum_media::media_type::MediaType;
use axum_media::text::{eq_ignore_ascii_case, to_lower_char};
use axum_media::Accept;

#[test]
fn absent_content_type_resolves_to_json() {
    assert_eq!(resolve(None, Direction::Decode), CodecId::Json);
    assert_eq!(resolve(None, Direction::Encode), CodecId::Json);
}

#[test]
fn empty_content_type_resolves_to_json() {
    assert_eq!(resolve(Some(""), Direction::Decode), CodecId::Json);
    assert_eq!(resolve(Some(""), Direction::Encode), CodecId::Json);
    let negotiated = negotiate(Some(""), Direction::Encode);
    assert_eq!(negotiated.codec, CodecId::Json);
    assert_eq!(negotiated.content_type, "application/json");
}

#[test]
fn absent_hint_is_announced_as_json() {
    let negotiated = negotiate(None, Direction::Encode);
    assert_eq!(negotiated.codec, CodecId::Json);
    assert_eq!(negotiated.content_type, APPLICATION_JSON);
}

#[test]
fn exact_subtypes_resolve_by_the_table() {
    assert_eq!(resolve(Some("application/json"), Direction::Decode), CodecId::Json);
    assert_eq!(
        resolve(Some("application/x-www-form-urlencoded"), Direction::Decode),
        CodecId::UrlEncoded
    );
    assert_eq!(resolve(Some("application/yaml"), Direction::Decode), CodecId::Yaml);
    assert_eq!(resolve(Some("application/yaml"), Direction::Encode), CodecId::Yaml);
    assert_eq!(resolve(Some("application/xml"), Direction::Encode), CodecId::Xml);
}

#[test]
fn xml_is_for_responses_only() {
    assert_eq!(resolve(Some("application/xml"), Direction::Decode), CodecId::Json);
    assert_eq!(resolve(Some("application/atom+xml"), Direction::Decode), CodecId::Json);
    assert_eq!(resolve(Some("application/atom+xml"), Direction::Encode), CodecId::Xml);
    assert_eq!(lookup("xml", Direction::Decode), None);
    assert_eq!(lookup("xml", Direction::Encode), Some(CodecId::Xml));
}

#[test]
fn vendor_type_resolves_by_its_suffix() {
    assert_eq!(resolve(Some("application/vnd.custom+json"), Direction::Decode), CodecId::Json);
    assert_eq!(resolve(Some("application/vnd.custom+json"), Direction::Encode), CodecId::Json);
    assert_eq!(resolve(Some("application/vnd.api+yaml"), Direction::Decode), CodecId::Yaml);
    assert_eq!(
        resolve(Some("application/vnd.form+x-www-form-urlencoded"), Direction::Encode),
        CodecId::UrlEncoded
    );
}

#[test]
fn subtype_decides_before_the_suffix() {
    assert_eq!(resolve(Some("application/yaml+json"), Direction::Decode), CodecId::Yaml);
    assert_eq!(resolve(Some("application/json+yaml"), Direction::Decode), CodecId::Json);
}

#[test]
fn unsupported_type_resolves_to_json() {
    assert_eq!(resolve(Some("image/png"), Direction::Decode), CodecId::Json);
    assert_eq!(resolve(Some("image/png"), Direction::Encode), CodecId::Json);
    assert_eq!(resolve(Some("text/yaml"), Direction::Decode), CodecId::Json);
    assert_eq!(resolve(Some("application/octet-stream"), Direction::Encode), CodecId::Json);
    assert_eq!(resolve(Some("application/vnd.thing+zip"), Direction::Encode), CodecId::Json);
}

#[test]
fn malformed_text_resolves_to_json() {
    assert_eq!(resolve(Some("not a media type"), Direction::Decode), CodecId::Json);
    assert_eq!(resolve(Some("application"), Direction::Encode), CodecId::Json);
    assert_eq!(resolve(Some("/json"), Direction::Encode), CodecId::Json);
    let negotiated = negotiate(Some("application"), Direction::Encode);
    assert_eq!(negotiated.content_type, "application/json");
}

#[test]
fn resolution_ignores_case() {
    assert_eq!(resolve(Some("Application/JSON"), Direction::Decode), CodecId::Json);
    assert_eq!(
        resolve(Some("APPLICATION/X-WWW-FORM-URLENCODED"), Direction::Decode),
        CodecId::UrlEncoded
    );
    assert_eq!(resolve(Some("application/Vnd.Api+YAML"), Direction::Encode), CodecId::Yaml);
    assert_eq!(lookup("JSON", Direction::Decode), Some(CodecId::Json));
    assert_eq!(lookup("Yaml", Direction::Decode), Some(CodecId::Yaml));
    assert_eq!(lookup("jsonx", Direction::Decode), None);
    assert_eq!(lookup("", Direction::Decode), None);
}

#[test]
fn parameters_do_not_change_the_codec() {
    assert_eq!(
        resolve(Some("application/json; charset=utf-8"), Direction::Decode),
        CodecId::Json
    );
    assert_eq!(
        resolve(Some("application/x-www-form-urlencoded; charset=UTF-8"), Direction::Decode),
        CodecId::UrlEncoded
    );
}

#[test]
fn hint_is_echoed_as_the_content_type() {
    let negotiated = negotiate(Some("application/vnd.api+json"), Direction::Encode);
    assert_eq!(negotiated.codec, CodecId::Json);
    assert_eq!(negotiated.content_type, "application/vnd.api+json");
    let negotiated = negotiate(Some("image/png"), Direction::Encode);
    assert_eq!(negotiated.codec, CodecId::Json);
    assert_eq!(negotiated.content_type, "image/png");
    let negotiated = negotiate(Some("application/x-www-form-urlencoded"), Direction::Encode);
    assert_eq!(negotiated.codec, CodecId::UrlEncoded);
    assert_eq!(negotiated.content_type, "application/x-www-form-urlencoded");
}

#[test]
fn media_type_parts_are_read_apart() {
    let media = MediaType::parse("application/vnd.api+json; charset=utf-8").unwrap();
    assert_eq!(media.primary(), "application");
    assert_eq!(media.subtype(), "vnd.api");
    assert_eq!(media.suffix(), Some("json"));
    assert_eq!(media.as_str(), "application/vnd.api+json; charset=utf-8");
    assert_eq!(codec_for(&media, Direction::Decode), CodecId::Json);
    assert_eq!(media.into_text(), "application/vnd.api+json; charset=utf-8");

    let media = MediaType::parse("text/plain").unwrap();
    assert_eq!(media.primary(), "text");
    assert_eq!(media.subtype(), "plain");
    assert_eq!(media.suffix(), None);
    assert_eq!(codec_for(&media, Direction::Encode), CodecId::Json);
}

#[test]
fn media_type_is_stored_in_lower_case() {
    let media = MediaType::parse("Application/JSON").unwrap();
    assert_eq!(media.primary(), "application");
    assert_eq!(media.subtype(), "json");
    assert_eq!(media.as_str(), "application/json");
}

#[test]
fn media_type_needs_a_primary_type_and_a_subtype() {
    assert!(MediaType::parse("").is_none());
    assert!(MediaType::parse("text").is_none());
    assert!(MediaType::parse("text/").is_none());
    assert!(MediaType::parse("/plain").is_none());
    assert!(MediaType::parse("te xt/plain").is_none());
    assert!(MediaType::parse("text/plain").is_some());
    assert_eq!(negotiate(Some("text/"), Direction::Encode).content_type, "application/json");
}

#[test]
fn tokens_compare_without_ascii_case() {
    assert!(eq_ignore_ascii_case("JSON", "json"));
    assert!(eq_ignore_ascii_case("", ""));
    assert!(eq_ignore_ascii_case("x-Www-Form", "X-www-form"));
    assert!(!eq_ignore_ascii_case("json", "jso"));
    assert!(!eq_ignore_ascii_case("json", "jsom"));
    assert!(!eq_ignore_ascii_case("K", "\u{212a}"));
    assert!(eq_ignore_ascii_case("\u{e9}t\u{e9}", "\u{e9}T\u{e9}"));
    assert!(!eq_ignore_ascii_case("\u{e9}", "\u{c9}"));
    assert_eq!(to_lower_char('A'), 'a');
    assert_eq!(to_lower_char('Z'), 'z');
    assert_eq!(to_lower_char('a'), 'a');
    assert_eq!(to_lower_char('@'), '@');
    assert_eq!(to_lower_char('['), '[');
    assert_eq!(to_lower_char('-'), '-');
}

#[test]
fn accept_keeps_the_header_as_it_came() {
    let accept = Accept::from_header(Some("application/x-www-form-urlencoded"));
    assert_eq!(accept.as_deref(), Some("application/x-www-form-urlencoded"));
    assert_eq!(*accept, Some("application/x-www-form-urlencoded".to_string()));
    let hint: Option<String> = accept.into();
    assert_eq!(hint, Some("application/x-www-form-urlencoded".to_string()));

    let unchecked = Accept::from_header(Some("not a media type, q=oops"));
    assert_eq!(unchecked.into_inner(), Some("not a media type, q=oops".to_string()));
}

#[test]
fn missing_accept_is_no_fault() {
    let accept = Accept::from_header(None);
    assert_eq!(accept.as_deref(), None);
    assert!(accept.is_none());
    let hint: Option<String> = accept.clone().into();
    assert_eq!(hint, None);
    assert_eq!(accept.into_inner(), None);
}

#[test]
fn accept_can_be_changed_in_place() {
    let mut accept = Accept::from_header(None);
    *accept = Some("application/yaml".to_string());
    assert_eq!(accept.as_deref(), Some("application/yaml"));
}

#[test]
fn interleaved_resolutions_do_not_interfere() {
    let alone_a = resolve(Some("application/x-www-form-urlencoded"), Direction::Decode);
    let alone_b = negotiate(Some("application/vnd.api+yaml"), Direction::Encode);
    for _ in 0..3 {
        let b = negotiate(Some("application/vnd.api+yaml"), Direction::Encode);
        let a = resolve(Some("application/x-www-form-urlencoded"), Direction::Decode);
        let c = resolve(None, Direction::Decode);
        assert_eq!(a, alone_a);
        assert_eq!(b.codec, alone_b.codec);
        assert_eq!(b.content_type, alone_b.content_type);
        assert_eq!(c, CodecId::Json);
    }
}
