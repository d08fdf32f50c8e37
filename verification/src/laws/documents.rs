//! Laws of what JSON documents hold.
use vstd::prelude::*;

use crate::json::{
    array_of, i64_of, lemma_entry_counts, lemma_no_entry, text_of, texts_among, u64_of, Json,
    JsonSpec,
};

verus! {

/// What an object holds under `key`.
pub open spec fn at(document: JsonSpec, key: Seq<char>) -> Option<JsonSpec> {
    if document is Object && document->Object_0.dom().contains(key) {
        Some(document->Object_0[key])
    } else {
        None
    }
}

/// What an object holds under `inner` in the object that it holds under `outer`.
pub open spec fn below(document: JsonSpec, outer: Seq<char>, inner: Seq<char>) -> Option<JsonSpec> {
    if at(document, outer) is Some {
        at(at(document, outer)->0, inner)
    } else {
        None
    }
}

/// Whether `held` is the string `text`.
pub open spec fn is_text(held: Option<JsonSpec>, text: Seq<char>) -> bool {
    held == Some(JsonSpec::Text(text))
}

/// Whether `held` is no string.
pub open spec fn no_text(held: Option<JsonSpec>) -> bool {
    held is None || !(held->0 is Text)
}

/// Whether `held` is the integer `n`.
pub open spec fn is_number(held: Option<JsonSpec>, n: int) -> bool {
    ||| held is Some && held->0 is Unsigned && held->0->Unsigned_0 == n
    ||| held is Some && held->0 is Negative && held->0->Negative_0 == n
}

/// Whether `held` is no integer from `low` to `high`.
pub open spec fn no_number(held: Option<JsonSpec>, low: int, high: int) -> bool {
    forall|n: int| low <= n <= high ==> !is_number(held, n)
}

/// A field is found where an object holds it, and nowhere else.
pub proof fn law_fields_are_found(document: JsonSpec, outer: Seq<char>, inner: Seq<char>)
    ensures
        document.get(outer) == at(document, outer),
        document.pointer(outer, inner) == below(document, outer, inner),
{
}

/// A string, an array or an integer is read as what it is, and nothing else is read as one. An
/// integer is read as an `i64` or a `u64` where it fits, and a negative one never as a `u64`.
pub proof fn law_values_are_read_as_they_are(held: Option<JsonSpec>, text: Seq<char>, n: int)
    ensures
        is_text(held, text) ==> text_of(held) == Some(text),
        no_text(held) ==> text_of(held) is None,
        is_number(held, n) && i64::MIN <= n <= i64::MAX ==> i64_of(held) == Some(n as i64),
        no_number(held, i64::MIN as int, i64::MAX as int) ==> i64_of(held) is None,
        is_number(held, n) && 0 <= n && held->0 is Unsigned ==> u64_of(held) == Some(n as u64),
        is_number(held, n) && n < 0 ==> u64_of(held) is None,
        u64_of(held) matches Some(m) ==> is_number(held, m as int),
        held is Some && held->0 is Array ==> array_of(held) == Some(held->0->Array_0),
        held is None || !(held->0 is Array) ==> array_of(held) is None,
        held matches Some(JsonSpec::Bool(b)) ==> held->0.as_bool() == Some(b),
        held is Some && !(held->0 is Bool) ==> held->0.as_bool() is None,
{
    if no_number(held, i64::MIN as int, i64::MAX as int) {
        if i64_of(held) is Some {
            assert(is_number(held, i64_of(held)->0 as int));
        }
    }
}

/// The strings among two lists of documents are those among the one, then those among the other.
pub proof fn law_strings_among_documents(items: Seq<JsonSpec>, next: JsonSpec)
    ensures
        texts_among(Seq::empty()) == Seq::<Seq<char>>::empty(),
        next matches JsonSpec::Text(text) ==> texts_among(items.push(next)) == texts_among(
            items,
        ).push(text),
        !(next is Text) ==> texts_among(items.push(next)) == texts_among(items),
{
    assert(items.push(next).drop_last() =~= items);
}

/// A document holds what it is made of. Of the entries of an object each adds its key, or replaces
/// what an earlier one says of it.
pub proof fn law_documents_hold_what_they_are_made_of(
    text: String,
    items: Vec<Json>,
    entries: Vec<(String, Json)>,
    b: bool,
    n: u64,
    m: i64,
)
    ensures
        Json::Null@ == JsonSpec::Null,
        Json::Bool(b)@ == JsonSpec::Bool(b),
        Json::Unsigned(n)@ == JsonSpec::Unsigned(n),
        Json::Negative(m)@ == JsonSpec::Negative(m),
        Json::Fraction(text)@ == JsonSpec::Fraction(text@),
        Json::Text(text)@ == JsonSpec::Text(text@),
        Json::Array(items)@ matches JsonSpec::Array(held) && held.len() == items@.len() && forall|
            i: int,
        |
            0 <= i < items@.len() ==> #[trigger] held[i] == items@[i]@,
        Json::Object(entries)@ is Object,
        forall|i: int|
            #![trigger entries@[i]]
            0 <= i < entries@.len() && (forall|j: int|
                i < j < entries@.len() ==> (#[trigger] entries@[j]).0@ != entries@[i].0@) ==> at(
                Json::Object(entries)@,
                entries@[i].0@,
            ) == Some(entries@[i].1@),
        forall|key: Seq<char>|
            (forall|j: int| 0 <= j < entries@.len() ==> (#[trigger] entries@[j]).0@ != key)
                ==> #[trigger] at(Json::Object(entries)@, key) is None,
{
    assert forall|i: int|
        #![trigger entries@[i]]
        0 <= i < entries@.len() && (forall|j: int|
            i < j < entries@.len() ==> (#[trigger] entries@[j]).0@ != entries@[i].0@) implies at(
        Json::Object(entries)@,
        entries@[i].0@,
    ) == Some(entries@[i].1@) by {
        lemma_entry_counts(entries@, i);
    }
    assert forall|key: Seq<char>|
        (forall|j: int| 0 <= j < entries@.len() ==> (#[trigger] entries@[j]).0@ != key)
        implies #[trigger] at(Json::Object(entries)@, key) is None by {
        lemma_no_entry(entries@, key);
    }
}

} // verus!
