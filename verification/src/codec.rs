//! Reading and writing JSON with `serde_json`.
//!
//! A [`serde_json::Value`] never leaves this crate: what is read becomes a [`Json`], and what is
//! written is handed out as bytes or text.
use vstd::prelude::*;

use crate::json::{entries_spec, items_spec, json_spec, Json, JsonSpec};

verus! {

/// The value type of `serde_json`, seen only through [`value_contents`].
#[verifier::external_type_specification]
#[verifier::external_body]
pub struct ExValue(serde_json::Value);

/// The document that a `serde_json` value holds.
pub uninterp spec fn value_contents(value: serde_json::Value) -> JsonSpec;

/// What `serde_json::from_slice` makes of `bytes`: a document, or the text of its error.
pub uninterp spec fn json_of_slice(bytes: Seq<u8>) -> Result<JsonSpec, Seq<char>>;

/// What `serde_json::from_str` makes of `text`: a document, or the text of its error.
pub uninterp spec fn json_of_str(text: Seq<char>) -> Result<JsonSpec, Seq<char>>;

/// What `serde_json::to_vec` makes of a document: its bytes, or the text of its error.
pub uninterp spec fn json_bytes(document: JsonSpec) -> Result<Seq<u8>, Seq<char>>;

/// What a `serde_json` value that holds `document` is displayed as.
pub uninterp spec fn json_text(document: JsonSpec) -> Seq<char>;

/// The outermost layer of a `serde_json` value.
enum Layer {
    Null,
    Bool(bool),
    Number(Option<u64>, Option<i64>, String),
    Text(String),
    Array(Vec<serde_json::Value>),
    Object(Vec<(String, serde_json::Value)>),
}

/// Whether `layer` is the outermost layer of `document`.
spec fn is_layer_of(layer: Layer, document: JsonSpec) -> bool {
    match layer {
        Layer::Null => document == JsonSpec::Null,
        Layer::Bool(b) => document == JsonSpec::Bool(b),
        Layer::Number(unsigned, signed, text) => {
            &&& document is Unsigned || document is Negative || document is Fraction
            &&& unsigned == document.as_u64()
            &&& signed == document.as_i64()
            &&& document matches JsonSpec::Fraction(printed) ==> printed == text@
        },
        Layer::Text(text) => document == JsonSpec::Text(text@),
        Layer::Array(values) => document matches JsonSpec::Array(items) && items.len()
            == values@.len() && forall|i: int|
            0 <= i < items.len() ==> #[trigger] items[i] == value_contents(values@[i]),
        Layer::Object(entries) => document matches JsonSpec::Object(fields) && is_listing_of(
            entries@,
            fields,
        ),
    }
}

/// Whether `entries` lists the fields of an object, each once.
spec fn is_listing_of(
    entries: Seq<(String, serde_json::Value)>,
    fields: Map<Seq<char>, JsonSpec>,
) -> bool {
    &&& fields.dom().finite()
    &&& forall|i: int|
        0 <= i < entries.len() ==> fields.dom().contains((#[trigger] entries[i]).0@)
            && fields[entries[i].0@] == value_contents(entries[i].1)
    &&& forall|i: int, j: int|
        0 <= i < j < entries.len() ==> (#[trigger] entries[i]).0@ != (#[trigger] entries[j]).0@
    &&& forall|key: Seq<char>| #[trigger]
        fields.dom().contains(key) ==> exists|i: int|
            0 <= i < entries.len() && (#[trigger] entries[i]).0@ == key
}

/// Takes a `serde_json::Value` apart, one variant for one.
///
/// Trusted: the layer holds what the value holds. A number is what `Number::as_u64` and
/// `Number::as_i64` give, where it is an integer that fits in a `u64` or an `i64`, else what it is
/// displayed as. A `serde_json::Map` hands out each of its fields once.
#[verifier::external_body]
fn value_layer(value: serde_json::Value) -> (layer: Layer)
    ensures
        is_layer_of(layer, value_contents(value)),
{
    match value {
        serde_json::Value::Null => Layer::Null,
        serde_json::Value::Bool(b) => Layer::Bool(b),
        serde_json::Value::Number(n) => Layer::Number(n.as_u64(), n.as_i64(), n.to_string()),
        serde_json::Value::String(text) => Layer::Text(text),
        serde_json::Value::Array(values) => Layer::Array(values),
        serde_json::Value::Object(fields) => Layer::Object(fields.into_iter().collect()),
    }
}

/// Calls `serde_json::from_slice`.
///
/// Trusted: the outcome is a function of the bytes alone.
#[verifier::external_body]
fn value_from_slice(bytes: &[u8]) -> (r: Result<serde_json::Value, String>)
    ensures
        match r {
            Ok(value) => json_of_slice(bytes@) == Ok::<JsonSpec, Seq<char>>(value_contents(value)),
            Err(text) => json_of_slice(bytes@) == Err::<JsonSpec, Seq<char>>(text@),
        },
{
    match serde_json::from_slice(bytes) {
        Ok(value) => Ok(value),
        Err(error) => Err(error.to_string()),
    }
}

/// Calls `serde_json::from_str`.
///
/// Trusted: the outcome is a function of the text alone.
#[verifier::external_body]
fn value_from_str(text: &str) -> (r: Result<serde_json::Value, String>)
    ensures
        match r {
            Ok(value) => json_of_str(text@) == Ok::<JsonSpec, Seq<char>>(value_contents(value)),
            Err(message) => json_of_str(text@) == Err::<JsonSpec, Seq<char>>(message@),
        },
{
    match serde_json::from_str(text) {
        Ok(value) => Ok(value),
        Err(error) => Err(error.to_string()),
    }
}

/// Calls `serde_json::to_vec`.
///
/// Trusted: the outcome is a function of the document that the value holds, and never an error: the
/// keys of a `serde_json::Map` are strings, and the `Serialize` of a value fails on nothing.
#[verifier::external_body]
pub(crate) fn value_bytes(value: &serde_json::Value) -> (r: Result<Vec<u8>, String>)
    ensures
        r is Ok,
        match r {
            Ok(bytes) => json_bytes(value_contents(*value)) == Ok::<Seq<u8>, Seq<char>>(bytes@),
            Err(text) => json_bytes(value_contents(*value)) == Err::<Seq<u8>, Seq<char>>(text@),
        },
{
    match serde_json::to_vec(value) {
        Ok(bytes) => Ok(bytes),
        Err(error) => Err(error.to_string()),
    }
}

/// Displays a `serde_json::Value`.
///
/// Trusted: the text is a function of the document that the value holds, and has no line end:
/// the compact format puts nothing between its tokens, and escapes control characters in strings.
#[verifier::external_body]
pub(crate) fn value_text(value: &serde_json::Value) -> (r: String)
    ensures
        r@ == json_text(value_contents(*value)),
        !r@.contains('\r'),
        !r@.contains('\n'),
{
    value.to_string()
}

/// Calls `serde_json::Map::new`.
///
/// Trusted: a value that holds the map is an object without fields.
#[verifier::external_body]
pub(crate) fn empty_object() -> (r: serde_json::Value)
    ensures
        value_contents(r) == JsonSpec::Object(Map::empty()),
{
    serde_json::Value::Object(serde_json::Map::new())
}

/// Assigns to a field of a `serde_json::Value` by its `IndexMut`.
///
/// Trusted: of an object, that field and no other is replaced or added. On a value that is
/// neither an object nor `null` the assignment panics.
#[verifier::external_body]
pub(crate) fn set_field(object: &mut serde_json::Value, key: &str, value: serde_json::Value)
    requires
        value_contents(*old(object)) is Object,
    ensures
        value_contents(*final(object)) == JsonSpec::Object(
            value_contents(*old(object))->Object_0.insert(key@, value_contents(value)),
        ),
{
    object[key] = value;
}

/// Calls `<serde_json::Value as From<bool>>::from`.
///
/// Trusted: the value holds that boolean.
#[verifier::external_body]
pub(crate) fn bool_value(b: bool) -> (r: serde_json::Value)
    ensures
        value_contents(r) == JsonSpec::Bool(b),
{
    serde_json::Value::from(b)
}

/// Calls `<serde_json::Value as From<u64>>::from`.
///
/// Trusted: the value holds that number.
#[verifier::external_body]
pub(crate) fn number_value(n: u64) -> (r: serde_json::Value)
    ensures
        value_contents(r) == JsonSpec::Unsigned(n),
{
    serde_json::Value::from(n)
}

/// Calls `<serde_json::Value as From<&str>>::from`.
///
/// Trusted: the value holds that text.
#[verifier::external_body]
pub(crate) fn text_value(text: &str) -> (r: serde_json::Value)
    ensures
        value_contents(r) == JsonSpec::Text(text@),
{
    serde_json::Value::from(text)
}

/// Calls `<serde_json::Value as From<Vec<serde_json::Value>>>::from`.
///
/// Trusted: the value is an array that holds what the values hold, in their order.
#[verifier::external_body]
pub(crate) fn array_value(values: Vec<serde_json::Value>) -> (r: serde_json::Value)
    ensures
        value_contents(r) == JsonSpec::Array(
            Seq::new(values@.len(), |i: int| value_contents(values@[i])),
        ),
{
    serde_json::Value::from(values)
}

/// The document that a `serde_json` value holds, as a plain value.
fn json_of_value(value: serde_json::Value) -> (json: Json)
    ensures
        json@ == value_contents(value),
    decreases value_contents(value),
{
    match value_layer(value) {
        Layer::Null => Json::Null,
        Layer::Bool(b) => Json::Bool(b),
        Layer::Number(Some(n), _, _) => Json::Unsigned(n),
        Layer::Number(None, Some(n), _) => Json::Negative(n),
        Layer::Number(None, None, text) => Json::Fraction(text),
        Layer::Text(text) => Json::Text(text),
        Layer::Array(values) => {
            let ghost all = values@;
            let ghost items = value_contents(value)->Array_0;
            let mut out: Vec<Json> = Vec::new();
            for item in it: values
                invariant
                    it.seq() == all,
                    value_contents(value) == JsonSpec::Array(items),
                    items.len() == all.len(),
                    forall|i: int|
                        0 <= i < items.len() ==> #[trigger] items[i] == value_contents(all[i]),
                    out@.len() == it.index(),
                    forall|i: int|
                        0 <= i < out@.len() ==> json_spec(#[trigger] out@[i]) == items[i],
            {
                assert(items[it.index()] == value_contents(item));
                assert(decreases_to!(value_contents(value) => value_contents(value)->Array_0));
                out.push(json_of_value(item));
            }
            assert(items_spec(out@) =~= items);
            Json::Array(out)
        },
        Layer::Object(entries) => {
            let ghost all = entries@;
            let ghost fields = value_contents(value)->Object_0;
            let mut out: Vec<(String, Json)> = Vec::new();
            for entry in it: entries
                invariant
                    it.seq() == all,
                    value_contents(value) == JsonSpec::Object(fields),
                    is_listing_of(all, fields),
                    out@.len() == it.index(),
                    forall|i: int|
                        0 <= i < out@.len() ==> (#[trigger] out@[i]).0@ == all[i].0@ && json_spec(
                            out@[i].1,
                        ) == value_contents(all[i].1),
            {
                assert(all[it.index()] == entry);
                assert(decreases_to!(value_contents(value) => value_contents(value)->Object_0));
                assert(decreases_to!(fields => fields[entry.0@]));
                let (key, field) = entry;
                out.push((key, json_of_value(field)));
            }
            proof {
                lemma_listing(out@, all, fields);
            }
            Json::Object(out)
        },
    }
}

/// Entries that agree with a listing of an object have its content.
proof fn lemma_listing(
    out: Seq<(String, Json)>,
    all: Seq<(String, serde_json::Value)>,
    fields: Map<Seq<char>, JsonSpec>,
)
    requires
        is_listing_of(all, fields),
        out.len() == all.len(),
        forall|i: int|
            0 <= i < out.len() ==> (#[trigger] out[i]).0@ == all[i].0@ && json_spec(out[i].1)
                == value_contents(all[i].1),
    ensures
        entries_spec(out) == fields,
{
    let have = entries_spec(out);
    assert forall|key: Seq<char>| fields.dom().contains(key) implies have.dom().contains(key)
        && have[key] == fields[key] by {
        let i = choose|i: int| 0 <= i < all.len() && (#[trigger] all[i]).0@ == key;
        assert forall|j: int| i < j < out.len() implies (#[trigger] out[j]).0@ != out[i].0@ by {
            assert(all[i].0@ != all[j].0@);
        }
        crate::json::lemma_entry_counts(out, i);
    }
    assert forall|key: Seq<char>| have.dom().contains(key) implies fields.dom().contains(key) by {
        if forall|j: int| 0 <= j < out.len() ==> (#[trigger] out[j]).0@ != key {
            crate::json::lemma_no_entry(out, key);
        } else {
            let j = choose|j: int| 0 <= j < out.len() && (#[trigger] out[j]).0@ == key;
            assert(fields.dom().contains(all[j].0@));
        }
    }
    assert(have =~= fields);
}

/// The content of what was read, or the text of the error.
pub open spec fn read_spec(r: Result<Json, String>) -> Result<JsonSpec, Seq<char>> {
    match r {
        Ok(json) => Ok(json@),
        Err(text) => Err(text@),
    }
}

/// Reads a JSON document from bytes. The error is the text of the error of `serde_json`.
pub fn parse_slice(bytes: &[u8]) -> (r: Result<Json, String>)
    ensures
        read_spec(r) == json_of_slice(bytes@),
{
    match value_from_slice(bytes) {
        Ok(value) => Ok(json_of_value(value)),
        Err(text) => Err(text),
    }
}

/// Reads a JSON document from text. The error is the text of the error of `serde_json`.
pub fn parse_str(text: &str) -> (r: Result<Json, String>)
    ensures
        read_spec(r) == json_of_str(text@),
{
    match value_from_str(text) {
        Ok(value) => Ok(json_of_value(value)),
        Err(message) => Err(message),
    }
}

} // verus!
