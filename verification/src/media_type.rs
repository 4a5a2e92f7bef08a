//! Media types as the negotiation reads them.

use vstd::prelude::*;

verus! {

/// A parsed media type such as `application/vnd.api+json`.
///
/// A value is built once per request or response and never changed.
pub struct MediaType {
    primary: String,
    subtype: String,
    suffix: Option<String>,
    text: String,
}

/// The mathematical model of a [`MediaType`].
pub struct MediaTypeView {
    /// The top level type, `application` in `application/vnd.api+json`.
    pub primary: Seq<char>,
    /// The subtype without its suffix, `vnd.api` in the example.
    pub subtype: Seq<char>,
    /// The structured syntax suffix, `json` in the example.
    pub suffix: Option<Seq<char>>,
    /// The whole media type as text, parameters included.
    pub text: Seq<char>,
}

impl MediaTypeView {
    /// A media type always names a primary type and a subtype.
    pub open spec fn wf(self) -> bool {
        self.primary.len() > 0 && self.subtype.len() > 0
    }
}

impl View for MediaType {
    type V = MediaTypeView;

    closed spec fn view(&self) -> MediaTypeView {
        MediaTypeView {
            primary: self.primary@,
            subtype: self.subtype@,
            suffix: match self.suffix {
                Some(s) => Some(s@),
                None => None,
            },
            text: self.text@,
        }
    }
}

/// What `mime::Mime::from_str` makes of `text`: `None` where it reports a
/// parse error, else the parts that the accessors `type_`, `subtype` and
/// `suffix` and the `Display` impl of the parsed value give.
pub uninterp spec fn mime_parse(text: Seq<char>) -> Option<MediaTypeView>;

/// The media type that `text` names: what [`mime_parse`] yields, unless the
/// text is empty or a part that every media type must have is.
pub open spec fn parse_spec(text: Seq<char>) -> Option<MediaTypeView> {
    if text.len() == 0 {
        None
    } else {
        match mime_parse(text) {
            Some(m) => if m.wf() {
                Some(m)
            } else {
                None
            },
            None => None,
        }
    }
}

/// Calls `mime::Mime::from_str` (through `str::parse`) and copies out what
/// `Mime::type_`, `Mime::subtype`, `Mime::suffix` and `Mime::to_string`
/// give for the parsed value.
///
/// The parser reads nothing but its argument, so the contract only gives
/// the outcome a name, [`mime_parse`]; it claims nothing about which texts
/// parse.
#[verifier::external_body]
fn mime_parts(text: &str) -> (r: Option<MediaType>)
    ensures
        match r {
            Some(m) => mime_parse(text@) == Some(m@),
            None => mime_parse(text@) is None,
        },
{
    match text.parse::<mime::Mime>() {
        Ok(m) => Some(
            MediaType {
                primary: m.type_().as_str().to_owned(),
                subtype: m.subtype().as_str().to_owned(),
                suffix: m.suffix().map(|s| s.as_str().to_owned()),
                text: m.to_string(),
            },
        ),
        Err(_) => None,
    }
}

impl MediaType {
    /// Parses a header value. Malformed text yields no media type, and so
    /// does text that leaves the primary type or the subtype empty.
    pub fn parse(text: &str) -> (r: Option<MediaType>)
        ensures
            match r {
                Some(m) => parse_spec(text@) == Some(m@) && m@.wf(),
                None => parse_spec(text@) is None,
            },
    {
        if text.is_empty() {
            return None;
        }
        match mime_parts(text) {
            Some(m) => MediaType::from_parts(m.primary, m.subtype, m.suffix, m.text),
            None => None,
        }
    }

    /// Builds a media type from its parts. A media type always names a
    /// primary type and a subtype: where either is empty there is none.
    pub fn from_parts(
        primary: String,
        subtype: String,
        suffix: Option<String>,
        text: String,
    ) -> (r: Option<MediaType>)
        ensures
            r is None <==> primary@.len() == 0 || subtype@.len() == 0,
            r matches Some(m) ==> m@ == (MediaTypeView {
                primary: primary@,
                subtype: subtype@,
                suffix: match suffix {
                    Some(s) => Some(s@),
                    None => None,
                },
                text: text@,
            }) && m@.wf(),
    {
        if primary.as_str().is_empty() || subtype.as_str().is_empty() {
            None
        } else {
            Some(MediaType { primary, subtype, suffix, text })
        }
    }

    /// The top level type.
    pub fn primary(&self) -> (r: &str)
        ensures
            r@ == self@.primary,
    {
        self.primary.as_str()
    }

    /// The subtype, without its suffix.
    pub fn subtype(&self) -> (r: &str)
        ensures
            r@ == self@.subtype,
    {
        self.subtype.as_str()
    }

    /// The structured syntax suffix, if the media type has one.
    pub fn suffix(&self) -> (r: Option<&str>)
        ensures
            match r {
                Some(s) => self@.suffix == Some(s@),
                None => self@.suffix is None,
            },
    {
        match &self.suffix {
            Some(s) => Some(s.as_str()),
            None => None,
        }
    }

    /// The whole media type as text.
    pub fn as_str(&self) -> (r: &str)
        ensures
            r@ == self@.text,
    {
        self.text.as_str()
    }

    /// Gives up the media type for its text.
    pub fn into_text(self) -> (r: String)
        ensures
            r@ == self@.text,
    {
        self.text
    }
}

} // verus!
