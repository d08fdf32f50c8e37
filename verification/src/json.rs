//! JSON documents as plain values.
use vstd::prelude::*;

use crate::text::same_text;

verus! {

/// The content of a JSON document.
pub enum JsonSpec {
    /// `null`.
    Null,
    /// `true` or `false`.
    Bool(bool),
    /// An integer from zero to `u64::MAX`.
    Unsigned(u64),
    /// A negative integer from `i64::MIN`.
    Negative(i64),
    /// Any other number, by the text it is printed as.
    Fraction(Seq<char>),
    /// A string.
    Text(Seq<char>),
    /// An array.
    Array(Seq<JsonSpec>),
    /// An object, by key.
    Object(Map<Seq<char>, JsonSpec>),
}

impl JsonSpec {
    /// The value of the field `key`, where the document is an object that has it.
    pub open spec fn get(self, key: Seq<char>) -> Option<JsonSpec> {
        match self {
            JsonSpec::Object(fields) => if fields.dom().contains(key) {
                Some(fields[key])
            } else {
                None
            },
            _ => None,
        }
    }

    /// The value of the field `inner` of the field `outer`.
    pub open spec fn pointer(self, outer: Seq<char>, inner: Seq<char>) -> Option<JsonSpec> {
        match self.get(outer) {
            Some(document) => document.get(inner),
            None => None,
        }
    }

    /// The string that the document is.
    pub open spec fn as_text(self) -> Option<Seq<char>> {
        match self {
            JsonSpec::Text(text) => Some(text),
            _ => None,
        }
    }

    /// The boolean that the document is.
    pub open spec fn as_bool(self) -> Option<bool> {
        match self {
            JsonSpec::Bool(b) => Some(b),
            _ => None,
        }
    }

    /// The integer that the document is, where it fits in a `u64`.
    pub open spec fn as_u64(self) -> Option<u64> {
        match self {
            JsonSpec::Unsigned(n) => Some(n),
            _ => None,
        }
    }

    /// The integer that the document is, where it fits in an `i64`.
    pub open spec fn as_i64(self) -> Option<i64> {
        match self {
            JsonSpec::Unsigned(n) => if n <= i64::MAX {
                Some(n as i64)
            } else {
                None
            },
            JsonSpec::Negative(n) => Some(n),
            _ => None,
        }
    }

    /// The items of the array that the document is.
    pub open spec fn as_array(self) -> Option<Seq<JsonSpec>> {
        match self {
            JsonSpec::Array(items) => Some(items),
            _ => None,
        }
    }
}

/// The string that a field holds, where there is a field and it holds one.
pub open spec fn text_of(field: Option<JsonSpec>) -> Option<Seq<char>> {
    match field {
        Some(document) => document.as_text(),
        None => None,
    }
}

/// The integer that a field holds, where there is a field and it holds one that fits in an `i64`.
pub open spec fn i64_of(field: Option<JsonSpec>) -> Option<i64> {
    match field {
        Some(document) => document.as_i64(),
        None => None,
    }
}

/// The integer that a field holds, where there is a field and it holds one that fits in a `u64`.
pub open spec fn u64_of(field: Option<JsonSpec>) -> Option<u64> {
    match field {
        Some(document) => document.as_u64(),
        None => None,
    }
}

/// The items that a field holds, where there is a field and it holds an array.
pub open spec fn array_of(field: Option<JsonSpec>) -> Option<Seq<JsonSpec>> {
    match field {
        Some(document) => document.as_array(),
        None => None,
    }
}

/// The strings among `items`, in order.
pub open spec fn texts_among(items: Seq<JsonSpec>) -> Seq<Seq<char>>
    decreases items.len(),
{
    if items.len() == 0 {
        Seq::empty()
    } else {
        match items.last().as_text() {
            Some(text) => texts_among(items.drop_last()).push(text),
            None => texts_among(items.drop_last()),
        }
    }
}

/// A JSON document.
#[derive(Debug, PartialEq, Eq)]
pub enum Json {
    /// `null`.
    Null,
    /// `true` or `false`.
    Bool(bool),
    /// An integer from zero to `u64::MAX`.
    Unsigned(u64),
    /// A negative integer from `i64::MIN`.
    Negative(i64),
    /// Any other number, by the text it is printed as.
    Fraction(String),
    /// A string.
    Text(String),
    /// An array.
    Array(Vec<Json>),
    /// An object. Of two entries with the same key the later one counts.
    Object(Vec<(String, Json)>),
}

/// The content of `json`.
pub open spec fn json_spec(json: Json) -> JsonSpec
    decreases json,
{
    match json {
        Json::Null => JsonSpec::Null,
        Json::Bool(b) => JsonSpec::Bool(b),
        Json::Unsigned(n) => JsonSpec::Unsigned(n),
        Json::Negative(n) => JsonSpec::Negative(n),
        Json::Fraction(text) => JsonSpec::Fraction(text@),
        Json::Text(text) => JsonSpec::Text(text@),
        Json::Array(items) => JsonSpec::Array(items_spec(items@)),
        Json::Object(entries) => JsonSpec::Object(entries_spec(entries@)),
    }
}

/// The contents of a list of documents.
pub open spec fn items_spec(items: Seq<Json>) -> Seq<JsonSpec>
    decreases items,
{
    Seq::new(
        items.len(),
        |i: int|
            if 0 <= i < items.len() {
                json_spec(items[i])
            } else {
                JsonSpec::Null
            },
    )
}

/// The content of a list of entries, each replacing an earlier one of the same key.
pub open spec fn entries_spec(entries: Seq<(String, Json)>) -> Map<Seq<char>, JsonSpec>
    decreases entries,
{
    if entries.len() == 0 {
        Map::empty()
    } else {
        entries_spec(entries.drop_last()).insert(entries.last().0@, json_spec(entries.last().1))
    }
}

impl View for Json {
    type V = JsonSpec;

    open spec fn view(&self) -> JsonSpec {
        json_spec(*self)
    }
}

/// The last entry of a key is the one that counts.
pub proof fn lemma_entry_counts(entries: Seq<(String, Json)>, i: int)
    requires
        0 <= i < entries.len(),
        forall|j: int| i < j < entries.len() ==> (#[trigger] entries[j]).0@ != entries[i].0@,
    ensures
        entries_spec(entries).dom().contains(entries[i].0@),
        entries_spec(entries)[entries[i].0@] == json_spec(entries[i].1),
    decreases entries.len(),
{
    if i < entries.len() - 1 {
        let shorter = entries.drop_last();
        assert(shorter[i] == entries[i]);
        assert forall|j: int| i < j < shorter.len() implies (#[trigger] shorter[j]).0@
            != shorter[i].0@ by {
            assert(shorter[j] == entries[j]);
        }
        lemma_entry_counts(shorter, i);
        assert(entries[entries.len() - 1].0@ != entries[i].0@);
    }
}

/// A key that no entry has is not in the object.
pub proof fn lemma_no_entry(entries: Seq<(String, Json)>, key: Seq<char>)
    requires
        forall|j: int| 0 <= j < entries.len() ==> (#[trigger] entries[j]).0@ != key,
    ensures
        !entries_spec(entries).dom().contains(key),
    decreases entries.len(),
{
    if entries.len() > 0 {
        let shorter = entries.drop_last();
        assert forall|j: int| 0 <= j < shorter.len() implies (#[trigger] shorter[j]).0@ != key by {
            assert(shorter[j] == entries[j]);
        }
        lemma_no_entry(shorter, key);
        assert(entries[entries.len() - 1].0@ != key);
    }
}

impl Json {
    /// The value of the field `key`, where the document is an object that has it.
    pub fn get(&self, key: &str) -> (r: Option<&Json>)
        ensures
            r is Some == self@.get(key@) is Some,
            r matches Some(document) ==> self@.get(key@) == Some(document@),
    {
        match self {
            Json::Object(entries) => {
                let mut i: usize = entries.len();
                while i > 0
                    invariant
                        i <= entries@.len(),
                        self@ == JsonSpec::Object(entries_spec(entries@)),
                        forall|j: int| i <= j < entries@.len() ==> (#[trigger] entries@[j]).0@ != key@,
                    decreases i,
                {
                    i -= 1;
                    if same_text(entries[i].0.as_str(), key) {
                        proof {
                            lemma_entry_counts(entries@, i as int);
                        }
                        return Some(&entries[i].1);
                    }
                }
                proof {
                    lemma_no_entry(entries@, key@);
                }
                None
            },
            _ => None,
        }
    }

    /// The value of the field `inner` of the field `outer`.
    pub fn pointer(&self, outer: &str, inner: &str) -> (r: Option<&Json>)
        ensures
            r is Some == self@.pointer(outer@, inner@) is Some,
            r matches Some(document) ==> self@.pointer(outer@, inner@) == Some(document@),
    {
        match self.get(outer) {
            Some(document) => document.get(inner),
            None => None,
        }
    }

    /// The string that the document is.
    pub fn as_str(&self) -> (r: Option<&str>)
        ensures
            r is Some == self@.as_text() is Some,
            r matches Some(text) ==> self@.as_text() == Some(text@),
    {
        match self {
            Json::Text(text) => Some(text.as_str()),
            _ => None,
        }
    }

    /// The boolean that the document is.
    pub fn as_bool(&self) -> (r: Option<bool>)
        ensures
            r == self@.as_bool(),
    {
        match self {
            Json::Bool(b) => Some(*b),
            _ => None,
        }
    }

    /// The integer that the document is, where it fits in a `u64`.
    pub fn as_u64(&self) -> (r: Option<u64>)
        ensures
            r == self@.as_u64(),
    {
        match self {
            Json::Unsigned(n) => Some(*n),
            _ => None,
        }
    }

    /// The integer that the document is, where it fits in an `i64`.
    pub fn as_i64(&self) -> (r: Option<i64>)
        ensures
            r == self@.as_i64(),
    {
        match self {
            Json::Unsigned(n) => if *n <= i64::MAX as u64 {
                Some(*n as i64)
            } else {
                None
            },
            Json::Negative(n) => Some(*n),
            _ => None,
        }
    }

    /// The items of the array that the document is.
    pub fn as_array(&self) -> (r: Option<&Vec<Json>>)
        ensures
            r is Some == self@.as_array() is Some,
            r matches Some(items) ==> self@.as_array() == Some(items_spec(items@)),
    {
        match self {
            Json::Array(items) => Some(items),
            _ => None,
        }
    }
}

impl Json {
    /// The string that the field `key` holds.
    pub fn text_at(&self, key: &str) -> (r: Option<&str>)
        ensures
            r is Some == text_of(self@.get(key@)) is Some,
            r matches Some(text) ==> text_of(self@.get(key@)) == Some(text@),
    {
        match self.get(key) {
            Some(field) => field.as_str(),
            None => None,
        }
    }

    /// The integer that the field `key` holds, where it fits in an `i64`.
    pub fn i64_at(&self, key: &str) -> (r: Option<i64>)
        ensures
            r == i64_of(self@.get(key@)),
    {
        match self.get(key) {
            Some(field) => field.as_i64(),
            None => None,
        }
    }

    /// The integer that the field `key` holds, where it fits in a `u64`.
    pub fn u64_at(&self, key: &str) -> (r: Option<u64>)
        ensures
            r == u64_of(self@.get(key@)),
    {
        match self.get(key) {
            Some(field) => field.as_u64(),
            None => None,
        }
    }

    /// The string that the field `inner` of the field `outer` holds.
    pub fn text_under(&self, outer: &str, inner: &str) -> (r: Option<&str>)
        ensures
            r is Some == text_of(self@.pointer(outer@, inner@)) is Some,
            r matches Some(text) ==> text_of(self@.pointer(outer@, inner@)) == Some(text@),
    {
        match self.pointer(outer, inner) {
            Some(field) => field.as_str(),
            None => None,
        }
    }

    /// The integer that the field `inner` of the field `outer` holds, where it fits in an `i64`.
    pub fn i64_under(&self, outer: &str, inner: &str) -> (r: Option<i64>)
        ensures
            r == i64_of(self@.pointer(outer@, inner@)),
    {
        match self.pointer(outer, inner) {
            Some(field) => field.as_i64(),
            None => None,
        }
    }

    /// The integer that the field `inner` of the field `outer` holds, where it fits in a `u64`.
    pub fn u64_under(&self, outer: &str, inner: &str) -> (r: Option<u64>)
        ensures
            r == u64_of(self@.pointer(outer@, inner@)),
    {
        match self.pointer(outer, inner) {
            Some(field) => field.as_u64(),
            None => None,
        }
    }
}

impl Clone for Json {
    fn clone(&self) -> (r: Json)
        ensures
            r@ == self@,
        decreases *self,
    {
        match self {
            Json::Null => Json::Null,
            Json::Bool(b) => Json::Bool(*b),
            Json::Unsigned(n) => Json::Unsigned(*n),
            Json::Negative(n) => Json::Negative(*n),
            Json::Fraction(text) => Json::Fraction(text.clone()),
            Json::Text(text) => Json::Text(text.clone()),
            Json::Array(items) => Json::Array(clone_items(items)),
            Json::Object(entries) => Json::Object(clone_entries(entries)),
        }
    }
}

/// A copy of a list of documents.
pub fn clone_items(items: &Vec<Json>) -> (r: Vec<Json>)
    ensures
        items_spec(r@) == items_spec(items@),
    decreases items@,
{
    let mut out: Vec<Json> = Vec::new();
    let mut i: usize = 0;
    while i < items.len()
        invariant
            i <= items@.len(),
            out@.len() == i,
            forall|j: int| 0 <= j < i ==> json_spec(#[trigger] out@[j]) == json_spec(items@[j]),
        decreases items@.len() - i,
    {
        out.push(items[i].clone());
        i += 1;
    }
    assert(items_spec(out@) =~= items_spec(items@));
    out
}

/// A copy of a list of entries.
fn clone_entries(entries: &Vec<(String, Json)>) -> (r: Vec<(String, Json)>)
    ensures
        entries_spec(r@) == entries_spec(entries@),
    decreases entries@,
{
    let mut out: Vec<(String, Json)> = Vec::new();
    let mut i: usize = 0;
    assert(entries@.take(0) =~= Seq::empty());
    while i < entries.len()
        invariant
            i <= entries@.len(),
            entries_spec(out@) == entries_spec(entries@.take(i as int)),
        decreases entries@.len() - i,
    {
        let ghost before = out@;
        out.push((entries[i].0.clone(), entries[i].1.clone()));
        assert(out@.drop_last() =~= before);
        assert(entries@.take(i + 1).drop_last() =~= entries@.take(i as int));
        i += 1;
    }
    assert(entries@.take(entries@.len() as int) =~= entries@);
    out
}

} // verus!
