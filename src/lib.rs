//! A payload that travels either as Protocol Buffers or as JSON, chosen by a
//! content type: the `Content-Type` of a request, or the `Accept` preference
//! for a response.
use vstd::prelude::*;

mod descriptor;
mod laws;
mod payload;
mod request;

pub use descriptor::{
    content_type_json, content_type_protobuf, encoding_for_content_type, encoding_of,
    lemma_content_types_differ, option_view, str_equal, Encoding, CONTENT_TYPE_JSON,
    CONTENT_TYPE_PROTOBUF,
};
pub use laws::{
    lemma_content_type_names_its_encoding, lemma_decompose_then_new, lemma_new_then_decompose,
    lemma_preference_defaults_to_json,
};
pub use payload::{ContentTypeError, JsonOrProtobuf};
pub use request::{
    header_str, header_text_of, headers_encoding, request_encoding, BadRequest, HeaderField,
};
