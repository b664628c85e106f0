//! Laws that relate tagging a value with a content type, reading the content
//! type back, and choosing a form from a preference.
use vstd::prelude::*;

use crate::descriptor::{
    content_type_json, content_type_protobuf, encoding_of, lemma_content_types_differ, Encoding,
};
use crate::payload::JsonOrProtobuf;

verus! {

/// Each form's content type names that form again: what `decompose` or a
/// rendered response declares is read back by `new` and by request decoding
/// as the same form.
pub proof fn lemma_content_type_names_its_encoding(e: Encoding)
    ensures
        encoding_of(e.content_type_spec()) == Some(e),
{
    lemma_content_types_differ();
}

/// Tagging a value with a known content type and decomposing the payload
/// gives back the value and that content type.
pub proof fn lemma_new_then_decompose<T>(v: T, content_type: Seq<char>)
    requires
        encoding_of(content_type) is Some,
    ensures
        ({
            let p = JsonOrProtobuf::<T>::wrap(encoding_of(content_type)->0, v);
            p.value() == v && p.encoding_spec().content_type_spec() == content_type
        }),
{
}

/// Decomposing a payload and tagging its value with the content type that
/// came out gives back the same payload.
pub proof fn lemma_decompose_then_new<T>(p: JsonOrProtobuf<T>)
    ensures
        encoding_of(p.encoding_spec().content_type_spec()) == Some(p.encoding_spec()),
        JsonOrProtobuf::<T>::wrap(p.encoding_spec(), p.value()) == p,
{
    lemma_content_type_names_its_encoding(p.encoding_spec());
}

/// A preference chooses Protocol Buffers exactly when it is that content
/// type; a missing preference, the JSON content type and any other value
/// all choose JSON.
pub proof fn lemma_preference_defaults_to_json<T>(v: T, accept: Option<Seq<char>>)
    ensures
        JsonOrProtobuf::<T>::preferred(v, accept).value() == v,
        JsonOrProtobuf::<T>::preferred(v, accept).encoding_spec() == (if accept == Some(
            content_type_protobuf(),
        ) {
            Encoding::Protobuf
        } else {
            Encoding::Json
        }),
        JsonOrProtobuf::<T>::preferred(v, None) == JsonOrProtobuf::Json(v),
        JsonOrProtobuf::<T>::preferred(v, Some(content_type_json())) == JsonOrProtobuf::Json(v),
{
    lemma_content_types_differ();
}

} // verus!
