//! Failures of the codecs, and what a client is told of them.

use crate::codec::CodecId;
use vstd::prelude::*;
use vstd::string::{to_string_from_display_ensures, StringExecFns};

verus! {

/// `serde_json::Error`, carried as it is: nothing inside it is read here.
#[verifier::external_type_specification]
#[verifier::external_body]
pub struct ExJsonError(serde_json::Error);

/// `serde_json::error::Category`, with its four variants as the crate
/// declares them, so that a `match` on it is checked to be complete.
#[verifier::external_type_specification]
pub struct ExJsonCategory(serde_json::error::Category);

/// `serde_path_to_error::Error`, a deserializer's error with the path at
/// which it arose, carried as it is.
#[verifier::external_type_specification]
#[verifier::external_body]
#[verifier::reject_recursive_types(E)]
pub struct ExPathError<E>(serde_path_to_error::Error<E>);

/// `serde_urlencoded::de::Error`, carried as it is and only printed.
#[verifier::external_type_specification]
#[verifier::external_body]
pub struct ExUrlEncodedDeError(serde_urlencoded::de::Error);

/// `serde_urlencoded::ser::Error`, carried as it is and only printed.
#[verifier::external_type_specification]
#[verifier::external_body]
pub struct ExUrlEncodedSerError(serde_urlencoded::ser::Error);

/// `serde_yaml::Error`, carried as it is and only printed.
#[verifier::external_type_specification]
#[verifier::external_body]
pub struct ExYamlError(serde_yaml::Error);

/// `serde_xml_rs::Error`, carried as it is and only printed.
#[verifier::external_type_specification]
#[verifier::external_body]
pub struct ExXmlError(serde_xml_rs::Error);

/// The category that `serde_json::Error::classify` gives for the JSON error
/// inside `err`.
pub uninterp spec fn json_failure_category(
    err: serde_path_to_error::Error<serde_json::Error>,
) -> serde_json::error::Category;

/// The text that `Display` gives for the path of `err`, the place in the
/// value at which the JSON deserializer failed.
pub uninterp spec fn json_failure_path(
    err: serde_path_to_error::Error<serde_json::Error>,
) -> Seq<char>;

/// The text that `Display` gives for the path of `err`, the place in the
/// value at which the YAML deserializer failed.
pub uninterp spec fn yaml_failure_path(
    err: serde_path_to_error::Error<serde_yaml::Error>,
) -> Seq<char>;

/// Calls `serde_path_to_error::Error::inner` and, on the JSON error that it
/// hands out, `serde_json::Error::classify`. Both only read the error, so
/// the contract gives the outcome a name, [`json_failure_category`]; which
/// category an error has is not claimed.
#[verifier::external_body]
fn json_failure_category_of(err: &serde_path_to_error::Error<serde_json::Error>) -> (r:
    serde_json::error::Category)
    ensures
        r == json_failure_category(*err),
{
    err.inner().classify()
}

/// Calls `serde_path_to_error::Error::path` and prints the path with its
/// `Display` impl (`to_string`). Both only read the error, so the contract
/// gives the text a name, [`json_failure_path`]; what the path is for a
/// given error is not claimed.
#[verifier::external_body]
fn json_failure_path_of(err: &serde_path_to_error::Error<serde_json::Error>) -> (r: String)
    ensures
        r@ == json_failure_path(*err),
{
    err.path().to_string()
}

/// Calls `serde_path_to_error::Error::path` and prints the path with its
/// `Display` impl (`to_string`). Both only read the error, so the contract
/// gives the text a name, [`yaml_failure_path`]; what the path is for a
/// given error is not claimed.
#[verifier::external_body]
fn yaml_failure_path_of(err: &serde_path_to_error::Error<serde_yaml::Error>) -> (r: String)
    ensures
        r@ == yaml_failure_path(*err),
{
    err.path().to_string()
}

/// The cause of a JSON failure, as the JSON codec sorts it.
#[derive(Clone, Copy, Debug, PartialEq, Eq, Structural)]
pub enum JsonCategory {
    /// Bytes could not be read or written.
    Io,
    /// The input is not JSON.
    Syntax,
    /// The input is JSON of the wrong shape for the target type.
    Data,
    /// The input ends too early.
    Eof,
}

/// How a failure is sorted for the client.
#[derive(Clone, Copy, Debug, PartialEq, Eq, Structural)]
pub enum RejectionKind {
    /// The request body could not be obtained.
    BodyRead,
    /// The body is malformed for the resolved format.
    Syntax,
    /// The body is well formed but does not fit the target type.
    Data,
    /// A failure of one codec that is not sorted further.
    FormatSpecific,
}

/// A value could not be written in the resolved format.
#[derive(Debug)]
pub enum AnyMediaSerializeError {
    /// The JSON codec failed, with its message.
    JsonError(String),
    /// The form codec failed, with its message.
    UrlEncodedError(String),
    /// The YAML codec failed, with its message.
    YamlError(String),
    /// The XML codec failed, with its message.
    XmlError(String),
}

/// The mathematical model of an [`AnyMediaSerializeError`].
pub enum SerializeErrorView {
    JsonError(Seq<char>),
    UrlEncodedError(Seq<char>),
    YamlError(Seq<char>),
    XmlError(Seq<char>),
}

impl SerializeErrorView {
    /// The codec that failed.
    pub open spec fn codec(self) -> CodecId {
        match self {
            SerializeErrorView::JsonError(_) => CodecId::Json,
            SerializeErrorView::UrlEncodedError(_) => CodecId::UrlEncoded,
            SerializeErrorView::YamlError(_) => CodecId::Yaml,
            SerializeErrorView::XmlError(_) => CodecId::Xml,
        }
    }

    /// The message for the client: that of the codec, as it is.
    pub open spec fn message(self) -> Seq<char> {
        match self {
            SerializeErrorView::JsonError(m) => m,
            SerializeErrorView::UrlEncodedError(m) => m,
            SerializeErrorView::YamlError(m) => m,
            SerializeErrorView::XmlError(m) => m,
        }
    }
}

impl View for AnyMediaSerializeError {
    type V = SerializeErrorView;

    open spec fn view(&self) -> SerializeErrorView {
        match self {
            AnyMediaSerializeError::JsonError(m) => SerializeErrorView::JsonError(m@),
            AnyMediaSerializeError::UrlEncodedError(m) => SerializeErrorView::UrlEncodedError(m@),
            AnyMediaSerializeError::YamlError(m) => SerializeErrorView::YamlError(m@),
            AnyMediaSerializeError::XmlError(m) => SerializeErrorView::XmlError(m@),
        }
    }
}

impl AnyMediaSerializeError {
    /// Keeps the message of a JSON serialization failure.
    pub fn from_json(err: &serde_json::Error) -> (r: AnyMediaSerializeError)
        ensures
            r matches AnyMediaSerializeError::JsonError(message)
                && to_string_from_display_ensures(err, message),
    {
        AnyMediaSerializeError::JsonError(err.to_string())
    }

    /// Keeps the message of a form serialization failure.
    pub fn from_urlencoded(err: &serde_urlencoded::ser::Error) -> (r: AnyMediaSerializeError)
        ensures
            r matches AnyMediaSerializeError::UrlEncodedError(message)
                && to_string_from_display_ensures(err, message),
    {
        AnyMediaSerializeError::UrlEncodedError(err.to_string())
    }

    /// Keeps the message of a YAML serialization failure.
    pub fn from_yaml(err: &serde_yaml::Error) -> (r: AnyMediaSerializeError)
        ensures
            r matches AnyMediaSerializeError::YamlError(message)
                && to_string_from_display_ensures(err, message),
    {
        AnyMediaSerializeError::YamlError(err.to_string())
    }

    /// Keeps the message of an XML serialization failure.
    pub fn from_xml(err: &serde_xml_rs::Error) -> (r: AnyMediaSerializeError)
        ensures
            r matches AnyMediaSerializeError::XmlError(message)
                && to_string_from_display_ensures(err, message),
    {
        AnyMediaSerializeError::XmlError(err.to_string())
    }

    /// The codec that failed.
    pub fn codec(&self) -> (r: CodecId)
        ensures
            r == self@.codec(),
    {
        match self {
            AnyMediaSerializeError::JsonError(_) => CodecId::Json,
            AnyMediaSerializeError::UrlEncodedError(_) => CodecId::UrlEncoded,
            AnyMediaSerializeError::YamlError(_) => CodecId::Yaml,
            AnyMediaSerializeError::XmlError(_) => CodecId::Xml,
        }
    }

    /// The message for the client.
    pub fn message(&self) -> (r: String)
        ensures
            r@ == self@.message(),
    {
        match self {
            AnyMediaSerializeError::JsonError(m) => m.clone(),
            AnyMediaSerializeError::UrlEncodedError(m) => m.clone(),
            AnyMediaSerializeError::YamlError(m) => m.clone(),
            AnyMediaSerializeError::XmlError(m) => m.clone(),
        }
    }
}

/// A body could not be read in the resolved format.
#[derive(Debug)]
pub enum AnyMediaDeserializeError {
    /// The JSON codec failed.
    JsonError {
        /// The codec's own sorting of the failure.
        category: JsonCategory,
        /// Where in the value the failure lies, `.` for its root.
        path: String,
        /// The codec's message, after the path where one is known.
        detail: String,
    },
    /// The form codec failed, with its message.
    UrlEncodedError { detail: String },
    /// The YAML codec failed.
    YamlError {
        /// Where in the value the failure lies, `.` for its root.
        path: String,
        /// The codec's message, after the path where one is known.
        detail: String,
    },
}

/// The mathematical model of an [`AnyMediaDeserializeError`].
pub enum DeserializeErrorView {
    JsonError { category: JsonCategory, path: Seq<char>, detail: Seq<char> },
    UrlEncodedError { detail: Seq<char> },
    YamlError { path: Seq<char>, detail: Seq<char> },
}

impl View for AnyMediaDeserializeError {
    type V = DeserializeErrorView;

    open spec fn view(&self) -> DeserializeErrorView {
        match self {
            AnyMediaDeserializeError::JsonError { category, path, detail } => {
                DeserializeErrorView::JsonError {
                    category: *category,
                    path: path@,
                    detail: detail@,
                }
            },
            AnyMediaDeserializeError::UrlEncodedError { detail } => {
                DeserializeErrorView::UrlEncodedError { detail: detail@ }
            },
            AnyMediaDeserializeError::YamlError { path, detail } => {
                DeserializeErrorView::YamlError { path: path@, detail: detail@ }
            },
        }
    }
}

impl DeserializeErrorView {
    /// The codec that failed.
    pub open spec fn codec(self) -> CodecId {
        match self {
            DeserializeErrorView::JsonError { .. } => CodecId::Json,
            DeserializeErrorView::UrlEncodedError { .. } => CodecId::UrlEncoded,
            DeserializeErrorView::YamlError { .. } => CodecId::Yaml,
        }
    }
}

/// The library's name for a category of the JSON codec.
pub open spec fn json_category_spec(category: serde_json::error::Category) -> JsonCategory {
    match category {
        serde_json::error::Category::Io => JsonCategory::Io,
        serde_json::error::Category::Syntax => JsonCategory::Syntax,
        serde_json::error::Category::Data => JsonCategory::Data,
        serde_json::error::Category::Eof => JsonCategory::Eof,
    }
}

/// Gives a category of the JSON codec its name in the library.
pub fn json_category(category: serde_json::error::Category) -> (r: JsonCategory)
    ensures
        r == json_category_spec(category),
{
    match category {
        serde_json::error::Category::Io => JsonCategory::Io,
        serde_json::error::Category::Syntax => JsonCategory::Syntax,
        serde_json::error::Category::Data => JsonCategory::Data,
        serde_json::error::Category::Eof => JsonCategory::Eof,
    }
}

/// What the library reads out of a failure of the JSON deserializer: the
/// codec's category under the library's name, the codec's path as text.
/// The message is the error's own `Display` text.
pub open spec fn json_failure_read(
    err: serde_path_to_error::Error<serde_json::Error>,
    result: AnyMediaDeserializeError,
) -> bool {
    result matches AnyMediaDeserializeError::JsonError { category, path, detail }
        && category == json_category_spec(json_failure_category(err)) && path@
        == json_failure_path(err) && to_string_from_display_ensures(&err, detail)
}

/// What the library reads out of a failure of the YAML deserializer: the
/// path as text and the error's own `Display` text.
pub open spec fn yaml_failure_read(
    err: serde_path_to_error::Error<serde_yaml::Error>,
    result: AnyMediaDeserializeError,
) -> bool {
    result matches AnyMediaDeserializeError::YamlError { path, detail } && path@
        == yaml_failure_path(err) && to_string_from_display_ensures(&err, detail)
}

impl AnyMediaDeserializeError {
    /// Reads out of a JSON failure what the rejection is decided by: the
    /// category, the path and the message.
    pub fn from_json(err: &serde_path_to_error::Error<serde_json::Error>) -> (r:
        AnyMediaDeserializeError)
        ensures
            json_failure_read(*err, r),
    {
        AnyMediaDeserializeError::JsonError {
            category: json_category(json_failure_category_of(err)),
            path: json_failure_path_of(err),
            detail: err.to_string(),
        }
    }

    /// Keeps the message of a form failure.
    pub fn from_urlencoded(err: &serde_urlencoded::de::Error) -> (r: AnyMediaDeserializeError)
        ensures
            r matches AnyMediaDeserializeError::UrlEncodedError { detail }
                && to_string_from_display_ensures(err, detail),
    {
        AnyMediaDeserializeError::UrlEncodedError { detail: err.to_string() }
    }

    /// Keeps the path and the message of a YAML failure.
    pub fn from_yaml(err: &serde_path_to_error::Error<serde_yaml::Error>) -> (r:
        AnyMediaDeserializeError)
        ensures
            yaml_failure_read(*err, r),
    {
        AnyMediaDeserializeError::YamlError {
            path: yaml_failure_path_of(err),
            detail: err.to_string(),
        }
    }

    /// The codec that failed.
    pub fn codec(&self) -> (r: CodecId)
        ensures
            r == self@.codec(),
    {
        match self {
            AnyMediaDeserializeError::JsonError { .. } => CodecId::Json,
            AnyMediaDeserializeError::UrlEncodedError { .. } => CodecId::UrlEncoded,
            AnyMediaDeserializeError::YamlError { .. } => CodecId::Yaml,
        }
    }
}

/// Why a request body was turned down.
#[derive(Debug)]
pub enum AnyMediaRejection {
    /// The body is JSON, but not of the shape the target type asks for.
    JsonDataError {
        /// Where in the value the mismatch lies.
        path: String,
        /// The codec's message.
        detail: String,
    },
    /// The body is not JSON, or ends too early.
    JsonSyntaxError { detail: String },
    /// The JSON codec failed in a way it sorts as neither of the above.
    JsonError { detail: String },
    /// The body is not a form.
    UrlEncodedError { detail: String },
    /// The body could not be read as YAML into the target type.
    YamlDataError {
        /// Where in the value the failure lies.
        path: String,
        /// The codec's message.
        detail: String,
    },
    /// The body could not be obtained.
    BytesRejection { detail: String },
}

/// The mathematical model of an [`AnyMediaRejection`].
pub enum RejectionView {
    JsonDataError { path: Seq<char>, detail: Seq<char> },
    JsonSyntaxError { detail: Seq<char> },
    JsonError { detail: Seq<char> },
    UrlEncodedError { detail: Seq<char> },
    YamlDataError { path: Seq<char>, detail: Seq<char> },
    BytesRejection { detail: Seq<char> },
}

impl View for AnyMediaRejection {
    type V = RejectionView;

    open spec fn view(&self) -> RejectionView {
        match self {
            AnyMediaRejection::JsonDataError { path, detail } => RejectionView::JsonDataError {
                path: path@,
                detail: detail@,
            },
            AnyMediaRejection::JsonSyntaxError { detail } => RejectionView::JsonSyntaxError {
                detail: detail@,
            },
            AnyMediaRejection::JsonError { detail } => RejectionView::JsonError {
                detail: detail@,
            },
            AnyMediaRejection::UrlEncodedError { detail } => RejectionView::UrlEncodedError {
                detail: detail@,
            },
            AnyMediaRejection::YamlDataError { path, detail } => RejectionView::YamlDataError {
                path: path@,
                detail: detail@,
            },
            AnyMediaRejection::BytesRejection { detail } => RejectionView::BytesRejection {
                detail: detail@,
            },
        }
    }
}

/// The rejection that a codec failure leads to. A failure is sorted once
/// and never retried with another codec.
pub open spec fn rejection_for(err: DeserializeErrorView) -> RejectionView {
    match err {
        DeserializeErrorView::JsonError { category, path, detail } => match category {
            JsonCategory::Data => RejectionView::JsonDataError { path, detail },
            JsonCategory::Syntax => RejectionView::JsonSyntaxError { detail },
            JsonCategory::Eof => RejectionView::JsonSyntaxError { detail },
            JsonCategory::Io => RejectionView::JsonError { detail },
        },
        DeserializeErrorView::UrlEncodedError { detail } => RejectionView::UrlEncodedError {
            detail,
        },
        DeserializeErrorView::YamlError { path, detail } => RejectionView::YamlDataError {
            path,
            detail,
        },
    }
}

impl RejectionView {
    /// How the rejection is sorted.
    pub open spec fn kind(self) -> RejectionKind {
        match self {
            RejectionView::JsonDataError { .. } => RejectionKind::Data,
            RejectionView::JsonSyntaxError { .. } => RejectionKind::Syntax,
            RejectionView::JsonError { .. } => RejectionKind::FormatSpecific,
            RejectionView::UrlEncodedError { .. } => RejectionKind::FormatSpecific,
            RejectionView::YamlDataError { .. } => RejectionKind::Data,
            RejectionView::BytesRejection { .. } => RejectionKind::BodyRead,
        }
    }

    /// What went wrong, in words; empty where the message stands alone.
    pub open spec fn headline(self) -> Seq<char> {
        match self {
            RejectionView::JsonDataError { .. } => {
                "Failed to deserialize the JSON body into the target type"@
            },
            RejectionView::JsonSyntaxError { .. } => "Failed to parse the request body as JSON"@,
            RejectionView::JsonError { .. } => "Failed to read the request body as JSON"@,
            RejectionView::UrlEncodedError { .. } => {
                "Failed to parse the request body as form urlencoded"@
            },
            RejectionView::YamlDataError { .. } => {
                "Failed to deserialize the yaml body into the target type"@
            },
            RejectionView::BytesRejection { .. } => Seq::empty(),
        }
    }

    /// The message of the codec or of the transport.
    pub open spec fn detail(self) -> Seq<char> {
        match self {
            RejectionView::JsonDataError { detail, .. } => detail,
            RejectionView::JsonSyntaxError { detail } => detail,
            RejectionView::JsonError { detail } => detail,
            RejectionView::UrlEncodedError { detail } => detail,
            RejectionView::YamlDataError { detail, .. } => detail,
            RejectionView::BytesRejection { detail } => detail,
        }
    }

    /// The text for the client: the headline, a colon and the detail; the
    /// detail alone where the body could not be obtained.
    pub open spec fn message(self) -> Seq<char> {
        if self is BytesRejection {
            self.detail()
        } else {
            self.headline() + ": "@ + self.detail()
        }
    }
}

impl AnyMediaRejection {
    /// Sorts a codec failure.
    pub fn from_deserialize_error(err: AnyMediaDeserializeError) -> (r: AnyMediaRejection)
        ensures
            r@ == rejection_for(err@),
    {
        match err {
            AnyMediaDeserializeError::JsonError { category, path, detail } => match category {
                JsonCategory::Data => AnyMediaRejection::JsonDataError { path, detail },
                JsonCategory::Syntax => AnyMediaRejection::JsonSyntaxError { detail },
                JsonCategory::Eof => AnyMediaRejection::JsonSyntaxError { detail },
                JsonCategory::Io => AnyMediaRejection::JsonError { detail },
            },
            AnyMediaDeserializeError::UrlEncodedError { detail } => {
                AnyMediaRejection::UrlEncodedError { detail }
            },
            AnyMediaDeserializeError::YamlError { path, detail } => {
                AnyMediaRejection::YamlDataError { path, detail }
            },
        }
    }

    /// How the rejection is sorted.
    pub fn kind(&self) -> (r: RejectionKind)
        ensures
            r == self@.kind(),
    {
        match self {
            AnyMediaRejection::JsonDataError { .. } => RejectionKind::Data,
            AnyMediaRejection::JsonSyntaxError { .. } => RejectionKind::Syntax,
            AnyMediaRejection::JsonError { .. } => RejectionKind::FormatSpecific,
            AnyMediaRejection::UrlEncodedError { .. } => RejectionKind::FormatSpecific,
            AnyMediaRejection::YamlDataError { .. } => RejectionKind::Data,
            AnyMediaRejection::BytesRejection { .. } => RejectionKind::BodyRead,
        }
    }

    /// The place in the value that a data error points at, where the
    /// rejection is one.
    pub fn path(&self) -> (r: Option<&str>)
        ensures
            match r {
                Some(p) => match self@ {
                    RejectionView::JsonDataError { path, .. } => p@ == path,
                    RejectionView::YamlDataError { path, .. } => p@ == path,
                    _ => false,
                },
                None => !(self@ is JsonDataError) && !(self@ is YamlDataError),
            },
    {
        match self {
            AnyMediaRejection::JsonDataError { path, .. } => Some(path.as_str()),
            AnyMediaRejection::YamlDataError { path, .. } => Some(path.as_str()),
            _ => None,
        }
    }

    /// The text for the client.
    pub fn message(&self) -> (r: String)
        ensures
            r@ == self@.message(),
    {
        match self {
            AnyMediaRejection::JsonDataError { detail, .. } => {
                "Failed to deserialize the JSON body into the target type".to_owned().concat(
                    ": ",
                ).concat(detail.as_str())
            },
            AnyMediaRejection::JsonSyntaxError { detail } => {
                "Failed to parse the request body as JSON".to_owned().concat(": ").concat(
                    detail.as_str(),
                )
            },
            AnyMediaRejection::JsonError { detail } => {
                "Failed to read the request body as JSON".to_owned().concat(": ").concat(
                    detail.as_str(),
                )
            },
            AnyMediaRejection::UrlEncodedError { detail } => {
                "Failed to parse the request body as form urlencoded".to_owned().concat(
                    ": ",
                ).concat(detail.as_str())
            },
            AnyMediaRejection::YamlDataError { detail, .. } => {
                "Failed to deserialize the yaml body into the target type".to_owned().concat(
                    ": ",
                ).concat(detail.as_str())
            },
            AnyMediaRejection::BytesRejection { detail } => detail.clone(),
        }
    }
}

/// A JSON failure is sorted by the codec's own category: input that is
/// not JSON or ends too early is a syntax error, JSON of the wrong shape a
/// data error at the same path, anything else stays specific to the format.
/// The codec's message is kept in each case.
pub proof fn lemma_json_failure_is_sorted_by_category(
    category: JsonCategory,
    path: Seq<char>,
    detail: Seq<char>,
)
    ensures
        ({
            let rejection = rejection_for(DeserializeErrorView::JsonError { category, path, detail });
            &&& rejection.detail() == detail
            &&& category == JsonCategory::Syntax || category == JsonCategory::Eof
                ==> rejection == (RejectionView::JsonSyntaxError { detail }) && rejection.kind()
                == RejectionKind::Syntax
            &&& category == JsonCategory::Data ==> rejection == (RejectionView::JsonDataError {
                path,
                detail,
            }) && rejection.kind() == RejectionKind::Data
            &&& category == JsonCategory::Io ==> rejection.kind() == RejectionKind::FormatSpecific
        }),
{
}

/// A rejection never reports a failed read of the body for a codec's
/// failure, and never names another format than the one that failed.
pub proof fn lemma_rejection_keeps_the_codec(err: DeserializeErrorView)
    ensures
        rejection_for(err).kind() != RejectionKind::BodyRead,
        rejection_for(err).detail() == match err {
            DeserializeErrorView::JsonError { detail, .. } => detail,
            DeserializeErrorView::UrlEncodedError { detail } => detail,
            DeserializeErrorView::YamlError { detail, .. } => detail,
        },
        match rejection_for(err) {
            RejectionView::JsonDataError { .. } => err.codec() == CodecId::Json,
            RejectionView::JsonSyntaxError { .. } => err.codec() == CodecId::Json,
            RejectionView::JsonError { .. } => err.codec() == CodecId::Json,
            RejectionView::UrlEncodedError { .. } => err.codec() == CodecId::UrlEncoded,
            RejectionView::YamlDataError { .. } => err.codec() == CodecId::Yaml,
            RejectionView::BytesRejection { .. } => false,
        },
{
}

/// The message of every rejection ends with the codec's or the
/// transport's own message.
pub proof fn lemma_message_ends_with_detail(rejection: RejectionView)
    ensures
        rejection.message().len() >= rejection.detail().len(),
        rejection.message().subrange(
            rejection.message().len() - rejection.detail().len(),
            rejection.message().len() as int,
        ) == rejection.detail(),
{
}

} // verus!
