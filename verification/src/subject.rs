//! Subjects and names: what may be used, and which subject a pattern matches.
use vstd::prelude::*;

use crate::json::{array_of, items_spec, texts_among, Json, JsonSpec};
use crate::text::{
    contains_any, contains_char, owned, pieces, same_text, split, texts, trim, trimmed, CharClass,
};

verus! {

/// Whether `r` fails with the text `error`, or succeeds where there is none.
pub open spec fn fails_with(r: Result<(), String>, error: Option<Seq<char>>) -> bool {
    match r {
        Ok(_) => error is None,
        Err(text) => error == Some(text@),
    }
}

/// Whether a white space character occurs in `s`.
pub open spec fn has_white_space(s: Seq<char>) -> bool {
    exists|i: int| 0 <= i < s.len() && CharClass::Space.holds(#[trigger] s[i])
}

/// Whether `c` may not stand in the name of a stream or a consumer.
pub open spec fn is_forbidden_in_name(c: char) -> bool {
    CharClass::Space.holds(c) || c == '.' || c == '*' || c == '>' || c == '/' || c == '\\'
}

/// What is wrong with `value` as the name of a `kind`: white space around it is disregarded.
pub open spec fn resource_name_error(value: Seq<char>, kind: Seq<char>) -> Option<Seq<char>> {
    let name = trimmed(value);
    if name.len() == 0 {
        Some("NATS "@ + kind + " name is empty"@)
    } else if exists|i: int| 0 <= i < name.len() && is_forbidden_in_name(#[trigger] name[i]) {
        Some(
            "NATS "@ + kind + " name '"@ + name
                + "' contains characters that cannot be used in a JetStream API token"@,
        )
    } else {
        None
    }
}

/// Whether a character of `s` may not stand in the name of a stream or a consumer.
fn contains_forbidden(s: &str) -> (r: bool)
    ensures
        r == exists|i: int| 0 <= i < s@.len() && is_forbidden_in_name(#[trigger] s@[i]),
{
    let chars = crate::text::chars_of(s);
    let mut i: usize = 0;
    while i < chars.len()
        invariant
            i <= chars@.len(),
            chars@ == s@,
            forall|j: int| 0 <= j < i ==> !is_forbidden_in_name(#[trigger] s@[j]),
        decreases chars@.len() - i,
    {
        let c = chars[i];
        if crate::text::is_whitespace(c) || c == '.' || c == '*' || c == '>' || c == '/' || c
            == '\\' {
            assert(is_forbidden_in_name(s@[i as int]));
            return true;
        }
        i += 1;
    }
    false
}

/// Checks that `value` can be used as the name of a `kind` in a JetStream API subject.
pub fn validate_resource_name(value: &str, kind: &str) -> (r: Result<(), String>)
    ensures
        fails_with(r, resource_name_error(value@, kind@)),
{
    let name = trim(value);
    if name.is_empty() {
        let mut text: String = owned("NATS ");
        text.append(kind);
        text.append(" name is empty");
        return Err(text);
    }
    if contains_forbidden(name) {
        let mut text: String = owned("NATS ");
        text.append(kind);
        text.append(" name '");
        text.append(name);
        text.append("' contains characters that cannot be used in a JetStream API token");
        return Err(text);
    }
    Ok(())
}

/// What is wrong with `subject` as a subject to publish on: white space around it is disregarded.
pub open spec fn publish_subject_error(subject: Seq<char>) -> Option<Seq<char>> {
    let name = trimmed(subject);
    if name.len() == 0 {
        Some("NATS publish subject is empty"@)
    } else if has_white_space(name) || name.contains('*') || name.contains('>') {
        Some("NATS publish subject '"@ + name + "' is invalid"@)
    } else if pieces(name, CharClass::Dot).contains(Seq::empty()) {
        Some("NATS publish subject '"@ + name + "' contains an empty token"@)
    } else {
        None
    }
}

/// Whether a token is empty.
fn contains_empty(tokens: &Vec<&str>) -> (r: bool)
    ensures
        r == texts(tokens@).contains(Seq::empty()),
{
    let ghost all = texts(tokens@);
    let mut i: usize = 0;
    while i < tokens.len()
        invariant
            i <= tokens@.len(),
            all == texts(tokens@),
            forall|j: int| 0 <= j < i ==> (#[trigger] all[j]).len() > 0,
        decreases tokens@.len() - i,
    {
        assert(all[i as int] == tokens@[i as int]@);
        if tokens[i].is_empty() {
            assert(all[i as int] =~= Seq::empty());
            return true;
        }
        i += 1;
    }
    false
}

/// Checks that a message can be published on `subject`.
pub fn validate_publish_subject(subject: &str) -> (r: Result<(), String>)
    ensures
        fails_with(r, publish_subject_error(subject@)),
{
    let name = trim(subject);
    if name.is_empty() {
        return Err(owned("NATS publish subject is empty"));
    }
    if contains_any(name, CharClass::Space) || contains_char(name, '*') || contains_char(name, '>') {
        let mut text: String = owned("NATS publish subject '");
        text.append(name);
        text.append("' is invalid");
        return Err(text);
    }
    if contains_empty(&split(name, CharClass::Dot)) {
        let mut text: String = owned("NATS publish subject '");
        text.append(name);
        text.append("' contains an empty token");
        return Err(text);
    }
    Ok(())
}

/// Whether each of the first `n` tokens of a pattern is `*` or the token of the subject.
pub open spec fn tokens_fit(pattern: Seq<Seq<char>>, subject: Seq<Seq<char>>, n: int) -> bool {
    n <= subject.len() && forall|i: int|
        0 <= i < n ==> #[trigger] pattern[i] == "*"@ || pattern[i] == subject[i]
}

/// Whether a pattern matches a subject, token by token: `*` stands for one token, `>` for all that
/// are left.
pub open spec fn tokens_match(pattern: Seq<Seq<char>>, subject: Seq<Seq<char>>) -> bool {
    ||| pattern.len() == subject.len() && tokens_fit(pattern, subject, pattern.len() as int)
    ||| exists|n: int|
        0 <= n < pattern.len() && #[trigger] pattern[n] == ">"@ && tokens_fit(pattern, subject, n)
}

/// Whether a pattern matches a subject.
pub open spec fn matches_subject(pattern: Seq<char>, subject: Seq<char>) -> bool {
    tokens_match(pieces(pattern, CharClass::Dot), pieces(subject, CharClass::Dot))
}

/// Whether `pattern` matches `subject`: of the tokens between full stops, `*` in the pattern stands
/// for one token, and `>` for all that are left.
pub fn subject_matches(pattern: &str, subject: &str) -> (r: bool)
    ensures
        r == matches_subject(pattern@, subject@),
{
    let left = split(pattern, CharClass::Dot);
    let right = split(subject, CharClass::Dot);
    let ghost p = texts(left@);
    let ghost s = texts(right@);
    let mut i: usize = 0;
    while i < left.len()
        invariant
            i <= left@.len(),
            i <= right@.len(),
            p == texts(left@),
            s == texts(right@),
            p == pieces(pattern@, CharClass::Dot),
            s == pieces(subject@, CharClass::Dot),
            forall|j: int| 0 <= j < i ==> #[trigger] p[j] != ">"@ && (p[j] == "*"@ || p[j] == s[j]),
        decreases left@.len() - i,
    {
        assert(p[i as int] == left@[i as int]@);
        if same_text(left[i], ">") {
            return true;
        }
        if i >= right.len() {
            return false;
        }
        assert(s[i as int] == right@[i as int]@);
        if !same_text(left[i], "*") && !same_text(left[i], right[i]) {
            return false;
        }
        i += 1;
    }
    left.len() == right.len()
}

/// The subjects that a stream is bound to, as the reply to a request for its state lists them.
pub open spec fn bound_subjects(info: JsonSpec) -> Seq<Seq<char>> {
    match array_of(info.pointer("config"@, "subjects"@)) {
        Some(items) => texts_among(items),
        None => Seq::empty(),
    }
}

/// Whether a subject holds no wildcard character.
pub open spec fn is_concrete(subject: Seq<char>) -> bool {
    !subject.contains('*') && !subject.contains('>')
}

/// The first of `subjects` that holds no wildcard character.
pub open spec fn first_concrete(subjects: Seq<Seq<char>>) -> Option<Seq<char>>
    decreases subjects.len(),
{
    if subjects.len() == 0 {
        None
    } else if is_concrete(subjects[0]) {
        Some(subjects[0])
    } else {
        first_concrete(subjects.drop_first())
    }
}

/// Whether one of `patterns` matches `subject`.
pub open spec fn any_matches(patterns: Seq<Seq<char>>, subject: Seq<char>) -> bool {
    exists|i: int| 0 <= i < patterns.len() && matches_subject(#[trigger] patterns[i], subject)
}

/// The subject on which to publish to the stream `stream_name`: its name where it is bound to that,
/// else the first concrete subject that it is bound to.
pub open spec fn publish_target(info: JsonSpec, stream_name: Seq<char>) -> Result<
    Seq<char>,
    Seq<char>,
> {
    let subjects = bound_subjects(info);
    if any_matches(subjects, stream_name) {
        Ok(stream_name)
    } else {
        match first_concrete(subjects) {
            Some(subject) => Ok(subject),
            None => Err(
                "JetStream stream '"@ + stream_name
                    + "' only has wildcard subjects. Enter a concrete NATS subject in the message target field."@,
            ),
        }
    }
}

/// The strings among `items`.
fn texts_of(items: &Vec<Json>) -> (r: Vec<&str>)
    ensures
        texts(r@) == texts_among(items_spec(items@)),
{
    let ghost all = items_spec(items@);
    let mut out: Vec<&str> = Vec::new();
    let mut i: usize = 0;
    assert(texts(out@) =~= texts_among(all.take(0)));
    while i < items.len()
        invariant
            i <= items@.len(),
            all == items_spec(items@),
            texts(out@) == texts_among(all.take(i as int)),
        decreases items@.len() - i,
    {
        assert(all.take(i + 1).drop_last() =~= all.take(i as int));
        assert(all.take(i + 1).last() == items@[i as int]@);
        let ghost before = texts(out@);
        if let Some(text) = items[i].as_str() {
            out.push(text);
            assert(texts(out@) =~= before.push(text@));
        }
        i += 1;
    }
    assert(all.take(all.len() as int) =~= all);
    out
}

/// The content of a text that was found, or of the error.
pub open spec fn text_outcome(r: Result<String, String>) -> Result<Seq<char>, Seq<char>> {
    match r {
        Ok(text) => Ok(text@),
        Err(text) => Err(text@),
    }
}

/// The subject on which to publish to the stream `stream_name`, whose state is `info`.
pub fn stream_publish_subject(info: &Json, stream_name: &str) -> (r: Result<String, String>)
    ensures
        text_outcome(r) == publish_target(info@, stream_name@),
{
    let subjects: Vec<&str> = match info.pointer("config", "subjects") {
        Some(field) => match field.as_array() {
            Some(items) => texts_of(items),
            None => Vec::new(),
        },
        None => Vec::new(),
    };
    let ghost all = texts(subjects@);
    assert(all =~= bound_subjects(info@));
    let mut i: usize = 0;
    while i < subjects.len()
        invariant
            i <= subjects@.len(),
            all == texts(subjects@),
            all == bound_subjects(info@),
            forall|j: int| 0 <= j < i ==> !matches_subject(#[trigger] all[j], stream_name@),
        decreases subjects@.len() - i,
    {
        assert(all[i as int] == subjects@[i as int]@);
        if subject_matches(subjects[i], stream_name) {
            return Ok(owned(stream_name));
        }
        i += 1;
    }
    let mut k: usize = 0;
    assert(all.skip(0) =~= all);
    while k < subjects.len()
        invariant
            k <= subjects@.len(),
            all == texts(subjects@),
            all == bound_subjects(info@),
            !any_matches(all, stream_name@),
            first_concrete(all) == first_concrete(all.skip(k as int)),
        decreases subjects@.len() - k,
    {
        assert(all.skip(k as int)[0] == subjects@[k as int]@);
        assert(all.skip(k as int).drop_first() =~= all.skip(k + 1));
        if !contains_char(subjects[k], '*') && !contains_char(subjects[k], '>') {
            return Ok(owned(subjects[k]));
        }
        k += 1;
    }
    let mut text: String = owned("JetStream stream '");
    text.append(stream_name);
    text.append(
        "' only has wildcard subjects. Enter a concrete NATS subject in the message target field.",
    );
    Err(text)
}

} // verus!
