//! The two content types this library knows, and the exact-match test that
//! maps a content type to one of them.
use vstd::prelude::*;
use vstd::string::*;

verus! {

/// The content type of the Protocol Buffers form.
pub const CONTENT_TYPE_PROTOBUF: &'static str = "application/octet-stream";

/// The content type of the JSON form.
pub const CONTENT_TYPE_JSON: &'static str = "application/json";

/// The characters of the Protocol Buffers content type.
pub open spec fn content_type_protobuf() -> Seq<char> {
    CONTENT_TYPE_PROTOBUF@
}

/// The characters of the JSON content type.
pub open spec fn content_type_json() -> Seq<char> {
    CONTENT_TYPE_JSON@
}

/// The two content types differ.
pub proof fn lemma_content_types_differ()
    ensures
        content_type_protobuf() != content_type_json(),
{
    reveal_strlit("application/octet-stream");
    reveal_strlit("application/json");
    assert(content_type_protobuf()[12] != content_type_json()[12]);
}

/// The two forms a payload can take.
#[derive(Clone, Copy, Debug, PartialEq, Eq, Structural)]
pub enum Encoding {
    Protobuf,
    Json,
}

impl Encoding {
    /// The characters of the content type that names this form.
    pub open spec fn content_type_spec(self) -> Seq<char> {
        match self {
            Encoding::Protobuf => content_type_protobuf(),
            Encoding::Json => content_type_json(),
        }
    }

    /// The content type that names this form.
    pub fn content_type(self) -> (r: &'static str)
        ensures
            r@ == self.content_type_spec(),
    {
        match self {
            Encoding::Protobuf => CONTENT_TYPE_PROTOBUF,
            Encoding::Json => CONTENT_TYPE_JSON,
        }
    }
}

/// The form that a content type names exactly, if any.
pub open spec fn encoding_of(s: Seq<char>) -> Option<Encoding> {
    if s == content_type_protobuf() {
        Some(Encoding::Protobuf)
    } else if s == content_type_json() {
        Some(Encoding::Json)
    } else {
        None
    }
}

/// The characters of an optional string.
pub open spec fn option_view(s: Option<&str>) -> Option<Seq<char>> {
    match s {
        Some(t) => Some(t@),
        None => None,
    }
}

/// Whether two strings hold the same characters.
pub fn str_equal(a: &str, b: &str) -> (r: bool)
    ensures
        r == (a@ == b@),
{
    let n = a.unicode_len();
    if n != b.unicode_len() {
        return false;
    }
    let mut i: usize = 0;
    while i < n
        invariant
            n == a@.len(),
            n == b@.len(),
            i <= n,
            a@.subrange(0, i as int) == b@.subrange(0, i as int),
        decreases n - i,
    {
        if a.get_char(i) != b.get_char(i) {
            assert(a@[i as int] != b@[i as int]);
            return false;
        }
        assert(a@.subrange(0, i + 1) == a@.subrange(0, i as int).push(a@[i as int]));
        assert(b@.subrange(0, i + 1) == b@.subrange(0, i as int).push(b@[i as int]));
        i = i + 1;
    }
    assert(a@ == a@.subrange(0, n as int));
    assert(b@ == b@.subrange(0, n as int));
    true
}

/// The form that a content type names: the Protocol Buffers and the JSON
/// content type match exactly, case and all, and anything else, parameters
/// included, names neither.
pub fn encoding_for_content_type(content_type: &str) -> (r: Option<Encoding>)
    ensures
        r == encoding_of(content_type@),
{
    if str_equal(content_type, CONTENT_TYPE_PROTOBUF) {
        Some(Encoding::Protobuf)
    } else if str_equal(content_type, CONTENT_TYPE_JSON) {
        Some(Encoding::Json)
    } else {
        None
    }
}

} // verus!
