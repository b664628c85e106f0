//! The negotiated payload: a value tagged with the form it travels in.
use vstd::prelude::*;
use vstd::string::*;

use crate::descriptor::{
    content_type_json, content_type_protobuf, option_view, encoding_for_content_type, encoding_of,
    lemma_content_types_differ, str_equal, Encoding, CONTENT_TYPE_JSON, CONTENT_TYPE_PROTOBUF,
};

verus! {

broadcast use vstd::string::to_string_from_display_ensures_for_str;

/// A value that travels either as Protocol Buffers or as JSON.
pub enum JsonOrProtobuf<T> {
    Protobuf(T),
    Json(T),
}

/// A content type that names neither form; it holds the content type as given.
pub struct ContentTypeError(String);

impl ContentTypeError {
    /// The content type that was refused.
    pub closed spec fn view(&self) -> Seq<char> {
        self.0@
    }

    /// The content type that was refused.
    pub fn content_type(&self) -> (r: &str)
        ensures
            r@ == self@,
    {
        self.0.as_str()
    }

    /// A message for people: `Invalid Content-Type ` followed by the content type.
    pub fn message(&self) -> (r: String)
        ensures
            r@ == "Invalid Content-Type "@ + self@,
    {
        let prefix = String::from_str("Invalid Content-Type ");
        prefix.concat(self.0.as_str())
    }
}

impl<T> JsonOrProtobuf<T> {
    /// The form this payload travels in.
    pub open spec fn encoding_spec(&self) -> Encoding {
        match self {
            JsonOrProtobuf::Protobuf(_) => Encoding::Protobuf,
            JsonOrProtobuf::Json(_) => Encoding::Json,
        }
    }

    /// The value this payload carries.
    pub open spec fn value(&self) -> T {
        match self {
            JsonOrProtobuf::Protobuf(v) => *v,
            JsonOrProtobuf::Json(v) => *v,
        }
    }

    /// The payload of `body` in the form `encoding`.
    pub open spec fn wrap(encoding: Encoding, body: T) -> Self {
        match encoding {
            Encoding::Protobuf => JsonOrProtobuf::Protobuf(body),
            Encoding::Json => JsonOrProtobuf::Json(body),
        }
    }

    /// The payload that an `Accept` value asks for: Protocol Buffers when it is
    /// exactly that content type, JSON in every other case.
    pub open spec fn preferred(body: T, accept: Option<Seq<char>>) -> Self {
        if accept == Some(content_type_protobuf()) {
            JsonOrProtobuf::Protobuf(body)
        } else {
            JsonOrProtobuf::Json(body)
        }
    }

    /// The payload of `body` in the form `encoding`.
    pub fn with_encoding(encoding: Encoding, body: T) -> (r: Self)
        ensures
            r == Self::wrap(encoding, body),
    {
        match encoding {
            Encoding::Protobuf => JsonOrProtobuf::Protobuf(body),
            Encoding::Json => JsonOrProtobuf::Json(body),
        }
    }

    /// Tags `body` with the form that `content_type` names, or refuses a
    /// content type that names neither, keeping it in the error.
    pub fn new(body: T, content_type: &str) -> (r: Result<Self, ContentTypeError>)
        ensures
            encoding_of(content_type@) matches Some(e) ==> r == Ok::<Self, ContentTypeError>(
                Self::wrap(e, body),
            ),
            encoding_of(content_type@) is None ==> (r matches Err(err) && err@ == content_type@),
    {
        match encoding_for_content_type(content_type) {
            Some(e) => Ok(Self::with_encoding(e, body)),
            None => Err(ContentTypeError(content_type.to_string())),
        }
    }

    /// Tags `body` with the form that an `Accept` value prefers: Protocol
    /// Buffers only when the value is exactly its content type, JSON otherwise.
    pub fn from_accept(body: T, accept: Option<&str>) -> (r: Self)
        ensures
            r == Self::preferred(body, option_view(accept)),
    {
        match accept {
            Some(s) => {
                if str_equal(s, CONTENT_TYPE_PROTOBUF) {
                    JsonOrProtobuf::Protobuf(body)
                } else {
                    JsonOrProtobuf::Json(body)
                }
            },
            None => JsonOrProtobuf::Json(body),
        }
    }

    /// The form this payload travels in.
    pub fn encoding(&self) -> (r: Encoding)
        ensures
            r == self.encoding_spec(),
    {
        match self {
            JsonOrProtobuf::Protobuf(_) => Encoding::Protobuf,
            JsonOrProtobuf::Json(_) => Encoding::Json,
        }
    }

    /// The value together with the content type of its form.
    pub fn decompose(self) -> (r: (T, String))
        ensures
            r.0 == self.value(),
            r.1@ == self.encoding_spec().content_type_spec(),
    {
        match self {
            JsonOrProtobuf::Protobuf(body) => (body, CONTENT_TYPE_PROTOBUF.to_string()),
            JsonOrProtobuf::Json(body) => (body, CONTENT_TYPE_JSON.to_string()),
        }
    }
}

} // verus!

verus! {

impl<T> TryFrom<(T, String)> for JsonOrProtobuf<T> {
    type Error = ContentTypeError;

    /// `new` on the pair's value and content type.
    fn try_from(value: (T, String)) -> (r: Result<Self, ContentTypeError>)
        ensures
            encoding_of(value.1@) matches Some(e) ==> r == Ok::<Self, ContentTypeError>(
                Self::wrap(e, value.0),
            ),
            encoding_of(value.1@) is None ==> (r matches Err(err) && err@ == value.1@),
    {
        Self::new(value.0, value.1.as_str())
    }
}

#[allow(clippy::from_over_into)]
impl<T> Into<(T, String)> for JsonOrProtobuf<T> {
    /// `decompose`.
    fn into(self) -> (r: (T, String))
        ensures
            ({
                let (v, c): (T, String) = r;
                v == self.value() && c@ == self.encoding_spec().content_type_spec()
            }),
    {
        self.decompose()
    }
}

// The conversions are stated by their own `ensures`; the content type in the
// pair is a `String`, which no spec function can build from its characters.
impl<T> vstd::std_specs::convert::TryFromSpecImpl<(T, String)> for JsonOrProtobuf<T> {
    open spec fn obeys_try_from_spec() -> bool {
        false
    }

    open spec fn try_from_spec(value: (T, String)) -> Result<Self, ContentTypeError> {
        arbitrary()
    }
}

impl<T> vstd::std_specs::convert::IntoSpecImpl<(T, String)> for JsonOrProtobuf<T> {
    open spec fn obeys_into_spec() -> bool {
        false
    }

    open spec fn into_spec(self) -> (T, String) {
        arbitrary()
    }
}

} // verus!
