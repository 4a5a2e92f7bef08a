//! The codec table and the resolution of a media type to a codec.

use crate::media_type::{parse_spec, MediaType, MediaTypeView};
use crate::text::{ascii_lower, eq_ignore_ascii_case};
use vstd::prelude::*;

verus! {

/// One of the formats this build can read or write.
#[derive(Clone, Copy, Debug, PartialEq, Eq, Structural)]
pub enum CodecId {
    /// JSON, the default.
    Json,
    /// `key=value&key2=value2` forms.
    UrlEncoded,
    /// YAML.
    Yaml,
    /// XML, for responses only.
    Xml,
}

/// Whether a body is being read or written.
#[derive(Clone, Copy, Debug, PartialEq, Eq, Structural)]
pub enum Direction {
    /// A request body is turned into a value.
    Decode,
    /// A value is turned into a response body.
    Encode,
}

/// The media type of the default codec.
pub const APPLICATION_JSON: &'static str = "application/json";

/// A codec together with the content type to announce it under.
#[derive(Debug)]
pub struct Negotiated {
    /// The codec to run.
    pub codec: CodecId,
    /// The value for the `Content-Type` header.
    pub content_type: String,
}

/// Whether two media type tokens are equal once both are in lower case.
pub open spec fn same_token(a: Seq<char>, b: Seq<char>) -> bool {
    ascii_lower(a) == ascii_lower(b)
}

/// The table entry for a subtype or suffix of an `application` media type.
pub open spec fn table_entry(name: Seq<char>, direction: Direction) -> Option<CodecId> {
    if same_token(name, "json"@) {
        Some(CodecId::Json)
    } else if same_token(name, "x-www-form-urlencoded"@) {
        Some(CodecId::UrlEncoded)
    } else if same_token(name, "yaml"@) {
        Some(CodecId::Yaml)
    } else if same_token(name, "xml"@) && direction == Direction::Encode {
        Some(CodecId::Xml)
    } else {
        None
    }
}

/// The codec for a media type: the entry of its subtype, else the entry of
/// its suffix, else JSON.
pub open spec fn codec_for_media(media: MediaTypeView, direction: Direction) -> CodecId {
    if !same_token(media.primary, "application"@) {
        CodecId::Json
    } else {
        match table_entry(media.subtype, direction) {
            Some(codec) => codec,
            None => match media.suffix {
                Some(suffix) => match table_entry(suffix, direction) {
                    Some(codec) => codec,
                    None => CodecId::Json,
                },
                None => CodecId::Json,
            },
        }
    }
}

/// The codec for a header value that may be absent: JSON where there is no
/// media type to go by.
pub open spec fn resolve_spec(mime_text: Option<Seq<char>>, direction: Direction) -> CodecId {
    match mime_text {
        None => CodecId::Json,
        Some(text) => match parse_spec(text) {
            None => CodecId::Json,
            Some(media) => codec_for_media(media, direction),
        },
    }
}

/// The content type that a response carries for a hint: the text of the
/// media type that the hint names, as it is, whichever codec that media
/// type resolves to; that of JSON where the hint names none.
pub open spec fn content_type_spec(mime_text: Option<Seq<char>>) -> Seq<char> {
    match mime_text {
        None => APPLICATION_JSON@,
        Some(text) => match parse_spec(text) {
            None => APPLICATION_JSON@,
            Some(media) => media.text,
        },
    }
}

/// The text of an optional header value.
pub open spec fn text_of(value: Option<&str>) -> Option<Seq<char>> {
    match value {
        Some(s) => Some(s@),
        None => None,
    }
}

/// Looks a subtype or suffix up in the table.
pub fn lookup(name: &str, direction: Direction) -> (r: Option<CodecId>)
    ensures
        r == table_entry(name@, direction),
{
    if eq_ignore_ascii_case(name, "json") {
        Some(CodecId::Json)
    } else if eq_ignore_ascii_case(name, "x-www-form-urlencoded") {
        Some(CodecId::UrlEncoded)
    } else if eq_ignore_ascii_case(name, "yaml") {
        Some(CodecId::Yaml)
    } else if eq_ignore_ascii_case(name, "xml") && direction == Direction::Encode {
        Some(CodecId::Xml)
    } else {
        None
    }
}

/// Picks the codec for a parsed media type.
pub fn codec_for(media: &MediaType, direction: Direction) -> (r: CodecId)
    ensures
        r == codec_for_media(media@, direction),
{
    if !eq_ignore_ascii_case(media.primary(), "application") {
        return CodecId::Json;
    }
    if let Some(codec) = lookup(media.subtype(), direction) {
        return codec;
    }
    match media.suffix() {
        Some(suffix) => match lookup(suffix, direction) {
            Some(codec) => codec,
            None => CodecId::Json,
        },
        None => CodecId::Json,
    }
}

/// Resolves a header value, if there is one, to a codec. Never fails: text
/// that is absent, malformed or names nothing in the table gives JSON.
pub fn resolve(mime_text: Option<&str>, direction: Direction) -> (r: CodecId)
    ensures
        r == resolve_spec(text_of(mime_text), direction),
{
    match mime_text {
        None => CodecId::Json,
        Some(text) => match MediaType::parse(text) {
            None => CodecId::Json,
            Some(media) => codec_for(&media, direction),
        },
    }
}

/// Resolves a hint to a codec and to the content type of the response.
/// The hint is only consulted: its media type is echoed back as text, also
/// where a suffix or the default decided the codec.
pub fn negotiate(mime_text: Option<&str>, direction: Direction) -> (r: Negotiated)
    ensures
        r.codec == resolve_spec(text_of(mime_text), direction),
        r.content_type@ == content_type_spec(text_of(mime_text)),
{
    let media = match mime_text {
        None => None,
        Some(text) => MediaType::parse(text),
    };
    match media {
        None => Negotiated { codec: CodecId::Json, content_type: APPLICATION_JSON.to_owned() },
        Some(media) => {
            let codec = codec_for(&media, direction);
            Negotiated { codec, content_type: media.into_text() }
        },
    }
}

/// A header that is absent or empty always resolves to JSON, in both
/// directions, and a response to it is announced as JSON.
pub proof fn lemma_absent_or_empty_resolves_to_json(
    mime_text: Option<Seq<char>>,
    direction: Direction,
)
    requires
        mime_text matches Some(text) ==> text.len() == 0,
    ensures
        resolve_spec(mime_text, direction) == CodecId::Json,
        content_type_spec(mime_text) == APPLICATION_JSON@,
{
}

/// Text that names no media type resolves to JSON: resolution never fails.
pub proof fn lemma_unparsable_resolves_to_json(text: Seq<char>, direction: Direction)
    requires
        parse_spec(text) is None,
    ensures
        resolve_spec(Some(text), direction) == CodecId::Json,
        content_type_spec(Some(text)) == APPLICATION_JSON@,
{
}

/// A media type outside `application`, such as `image/png`, resolves to
/// JSON whatever its subtype and suffix are.
pub proof fn lemma_other_primary_type_resolves_to_json(media: MediaTypeView, direction: Direction)
    requires
        !same_token(media.primary, "application"@),
    ensures
        codec_for_media(media, direction) == CodecId::Json,
{
}

/// An `application` media type whose subtype and suffix are both unknown
/// to the table resolves to JSON.
pub proof fn lemma_unknown_names_resolve_to_json(media: MediaTypeView, direction: Direction)
    requires
        table_entry(media.subtype, direction) is None,
        media.suffix matches Some(suffix) ==> table_entry(suffix, direction) is None,
    ensures
        codec_for_media(media, direction) == CodecId::Json,
{
}

/// The subtype decides before the suffix does: a subtype that the table
/// knows gives its codec whatever the suffix is.
pub proof fn lemma_subtype_decides_first(
    media: MediaTypeView,
    direction: Direction,
    codec: CodecId,
)
    requires
        same_token(media.primary, "application"@),
        table_entry(media.subtype, direction) == Some(codec),
    ensures
        codec_for_media(media, direction) == codec,
{
}

/// A vendor media type resolves by its suffix: where the table does not
/// know the subtype of an `application` media type, the entry of the suffix
/// is the codec. So `application/vnd.custom+json`, once parsed, is JSON.
pub proof fn lemma_suffix_decides_for_unknown_subtype(
    media: MediaTypeView,
    direction: Direction,
    suffix: Seq<char>,
    codec: CodecId,
)
    requires
        same_token(media.primary, "application"@),
        table_entry(media.subtype, direction) is None,
        media.suffix == Some(suffix),
        table_entry(suffix, direction) == Some(codec),
    ensures
        codec_for_media(media, direction) == codec,
{
}

/// Media type tokens are compared without regard to ASCII case: two media
/// types that differ in case only resolve to the same codec.
pub proof fn lemma_resolution_ignores_case(
    a: MediaTypeView,
    b: MediaTypeView,
    direction: Direction,
)
    requires
        same_token(a.primary, b.primary),
        same_token(a.subtype, b.subtype),
        a.suffix is Some == b.suffix is Some,
        a.suffix matches Some(x) ==> b.suffix matches Some(y) && same_token(x, y),
    ensures
        codec_for_media(a, direction) == codec_for_media(b, direction),
{
}

/// XML is a format for responses only: no request body resolves to it.
pub proof fn lemma_decode_never_resolves_to_xml(mime_text: Option<Seq<char>>)
    ensures
        resolve_spec(mime_text, Direction::Decode) != CodecId::Xml,
{
}

/// A body is read by the codec that would write it: but for XML, which is
/// only written, a media type resolves to the same codec in both
/// directions.
pub proof fn lemma_decode_agrees_with_encode(mime_text: Option<Seq<char>>)
    requires
        resolve_spec(mime_text, Direction::Encode) != CodecId::Xml,
    ensures
        resolve_spec(mime_text, Direction::Decode) == resolve_spec(mime_text, Direction::Encode),
{
}

/// A response is read back by the codec that wrote it. Where the text that
/// a response is announced under names the same media type again, and the
/// body was not written as XML, a request that carries that text as its
/// content type resolves to the codec that wrote the body.
pub proof fn lemma_announced_type_resolves_alike(hint: Seq<char>, media: MediaTypeView)
    requires
        parse_spec(hint) == Some(media),
        parse_spec(media.text) == Some(media),
        resolve_spec(Some(hint), Direction::Encode) != CodecId::Xml,
    ensures
        content_type_spec(Some(hint)) == media.text,
        resolve_spec(Some(content_type_spec(Some(hint))), Direction::Decode) == resolve_spec(
            Some(hint),
            Direction::Encode,
        ),
{
}

} // verus!
