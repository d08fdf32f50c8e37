//! Laws of which names and subjects are valid, which subjects a pattern matches, and on which of its
//! subjects a stream is published to, character by character and token by token.
use vstd::prelude::*;

use crate::json::{texts_among, JsonSpec};
use crate::laws::documents::{
    below, law_fields_are_found, law_strings_among_documents, law_values_are_read_as_they_are,
};
use crate::laws::text::{law_pieces_of_two, lemma_one_piece, lemma_some_piece};
use crate::subject::{
    any_matches, bound_subjects, first_concrete, has_white_space, is_concrete,
    is_forbidden_in_name, matches_subject, publish_subject_error, publish_target,
    resource_name_error, tokens_fit, tokens_match,
};
use crate::text::{is_white_space, pieces, trimmed, CharClass};

verus! {

/// A name is valid where something is left of it once it is trimmed, and that holds neither white
/// space nor a full stop, an asterisk, a greater-than sign or a slash of either kind. What is wrong is
/// told with the kind of name and, where there is one, the name.
pub proof fn law_valid_names(value: Seq<char>, kind: Seq<char>)
    ensures
        resource_name_error(value, kind) is None <==> trimmed(value).len() > 0 && forall|i: int|
            0 <= i < trimmed(value).len() ==> !is_white_space(#[trigger] trimmed(value)[i])
                && trimmed(value)[i] != '.' && trimmed(value)[i] != '*' && trimmed(value)[i] != '>'
                && trimmed(value)[i] != '/' && trimmed(value)[i] != '\\',
        trimmed(value).len() == 0 ==> resource_name_error(value, kind) == Some(
            "NATS "@ + kind + " name is empty"@,
        ),
        trimmed(value).len() > 0 ==> (resource_name_error(value, kind) matches Some(error) ==> error
            == "NATS "@ + kind + " name '"@ + trimmed(value)
            + "' contains characters that cannot be used in a JetStream API token"@),
{
    let name = trimmed(value);
    if name.len() > 0 && resource_name_error(value, kind) is None {
        assert forall|i: int| 0 <= i < name.len() implies !is_white_space(#[trigger] name[i])
            && name[i] != '.' && name[i] != '*' && name[i] != '>' && name[i] != '/' && name[i]
            != '\\' by {
            assert(!is_forbidden_in_name(name[i]));
        }
    }
}

/// Whether two full stops stand side by side in `s`.
pub open spec fn has_double_stop(s: Seq<char>) -> bool {
    exists|i: int| 0 <= i < s.len() - 1 && #[trigger] s[i] == '.' && s[i + 1] == '.'
}

/// The last token is empty where there is nothing, or a full stop comes last.
proof fn lemma_last_token(s: Seq<char>)
    ensures
        pieces(s, CharClass::Dot).len() > 0,
        (pieces(s, CharClass::Dot).last().len() == 0) == (s.len() == 0 || s.last() == '.'),
{
    lemma_some_piece(s, CharClass::Dot);
    if s.len() > 0 {
        lemma_some_piece(s.drop_last(), CharClass::Dot);
    }
}

/// A token before the last is empty where a full stop comes first, or two stand side by side.
proof fn lemma_inner_tokens(s: Seq<char>)
    ensures
        pieces(s, CharClass::Dot).drop_last().contains(Seq::empty()) == (s.len() > 0 && (s[0] == '.'
            || has_double_stop(s))),
    decreases s.len(),
{
    let all = pieces(s, CharClass::Dot);
    let none = Seq::<char>::empty();
    if s.len() == 0 {
        assert(all.drop_last() =~= Seq::empty());
    } else {
        let shorter = s.drop_last();
        let before = pieces(shorter, CharClass::Dot);
        lemma_inner_tokens(shorter);
        lemma_last_token(shorter);
        assert forall|i: int| 0 <= i < shorter.len() implies #[trigger] shorter[i] == s[i] by {}
        if s.last() == '.' {
            assert(all.drop_last() =~= before);
            if before.contains(none) {
                let i = choose|i: int| 0 <= i < before.len() && before[i] == none;
                if i < before.len() - 1 {
                    assert(before.drop_last()[i] == none);
                    if shorter[0] != '.' {
                        let k = choose|k: int|
                            0 <= k < shorter.len() - 1 && #[trigger] shorter[k] == '.' && shorter[k
                                + 1] == '.';
                        assert(s[k] == '.' && s[k + 1] == '.');
                    }
                } else if shorter.len() > 0 {
                    let k = shorter.len() - 1;
                    assert(s[k] == '.' && s[k + 1] == '.');
                }
            } else {
                assert(shorter.len() > 0) by {
                    if shorter.len() == 0 {
                        assert(before[before.len() - 1] =~= none);
                    }
                }
                assert(shorter.last() != '.') by {
                    if shorter.last() == '.' {
                        assert(before[before.len() - 1] =~= none);
                    }
                }
                if before.drop_last().contains(none) {
                    let i = choose|i: int|
                        0 <= i < before.drop_last().len() && before.drop_last()[i] == none;
                    assert(before[i] == none);
                }
                if has_double_stop(s) {
                    let k = choose|k: int|
                        0 <= k < s.len() - 1 && #[trigger] s[k] == '.' && s[k + 1] == '.';
                    if k < shorter.len() - 1 {
                        assert(shorter[k] == '.' && shorter[k + 1] == '.');
                    } else {
                        assert(shorter.last() == s[k]);
                    }
                }
            }
        } else {
            assert(all.drop_last() =~= before.drop_last());
            if has_double_stop(s) {
                let k = choose|k: int|
                    0 <= k < s.len() - 1 && #[trigger] s[k] == '.' && s[k + 1] == '.';
                assert(shorter[k] == '.' && shorter[k + 1] == '.');
            }
            if has_double_stop(shorter) {
                let k = choose|k: int|
                    0 <= k < shorter.len() - 1 && #[trigger] shorter[k] == '.' && shorter[k + 1]
                        == '.';
                assert(s[k] == '.' && s[k + 1] == '.');
            }
        }
    }
}

/// A message can be published on a subject where something is left of it once it is trimmed, that
/// holds neither white space nor a wildcard, and no full stop comes first, last or behind another.
pub proof fn law_valid_subjects(subject: Seq<char>)
    ensures
        publish_subject_error(subject) is None <==> {
            let name = trimmed(subject);
            &&& name.len() > 0
            &&& forall|i: int|
                0 <= i < name.len() ==> !is_white_space(#[trigger] name[i]) && name[i] != '*'
                    && name[i] != '>'
            &&& name[0] != '.'
            &&& name.last() != '.'
            &&& !has_double_stop(name)
        },
{
    let name = trimmed(subject);
    let all = pieces(name, CharClass::Dot);
    let none = Seq::<char>::empty();
    lemma_last_token(name);
    lemma_inner_tokens(name);
    assert(all.contains(none) == (all.drop_last().contains(none) || all.last().len() == 0)) by {
        if all.contains(none) {
            let i = choose|i: int| 0 <= i < all.len() && all[i] == none;
            if i < all.len() - 1 {
                assert(all.drop_last()[i] == none);
            }
        }
        if all.drop_last().contains(none) {
            let i = choose|i: int| 0 <= i < all.drop_last().len() && all.drop_last()[i] == none;
            assert(all[i] == none);
        }
        if all.last().len() == 0 {
            assert(all[all.len() - 1] =~= none);
        }
    }
    if publish_subject_error(subject) is None {
        assert forall|i: int| 0 <= i < name.len() implies !is_white_space(#[trigger] name[i])
            && name[i] != '*' && name[i] != '>' by {
            assert(name.contains(name[i]));
            if is_white_space(name[i]) {
                assert(CharClass::Space.holds(name[i]));
                assert(has_white_space(name));
            }
        }
    }
}

/// What is wrong with a subject is told with the subject, where there is one.
pub proof fn law_invalid_subjects_are_named(subject: Seq<char>)
    ensures
        trimmed(subject).len() == 0 ==> publish_subject_error(subject) == Some(
            "NATS publish subject is empty"@,
        ),
        trimmed(subject).len() > 0 ==> (publish_subject_error(subject) matches Some(error) ==> error
            == "NATS publish subject '"@ + trimmed(subject) + "' is invalid"@ || error
            == "NATS publish subject '"@ + trimmed(subject) + "' contains an empty token"@),
        (exists|i: int|
            0 <= i < trimmed(subject).len() && (is_white_space(#[trigger] trimmed(subject)[i])
                || trimmed(subject)[i] == '*' || trimmed(subject)[i] == '>')) ==> publish_subject_error(subject) == Some(
            "NATS publish subject '"@ + trimmed(subject) + "' is invalid"@,
        ),
        trimmed(subject).len() > 0 && (forall|i: int|
            0 <= i < trimmed(subject).len() ==> !is_white_space(#[trigger] trimmed(subject)[i])
                && trimmed(subject)[i] != '*' && trimmed(subject)[i] != '>') ==> (
        publish_subject_error(subject) matches Some(error) ==> error == "NATS publish subject '"@
            + trimmed(subject) + "' contains an empty token"@),
{
    let name = trimmed(subject);
    if exists|i: int|
        0 <= i < name.len() && (is_white_space(#[trigger] name[i]) || name[i] == '*' || name[i]
            == '>') {
        let i = choose|i: int|
            0 <= i < name.len() && (is_white_space(#[trigger] name[i]) || name[i] == '*' || name[i]
                == '>');
        assert(name.contains(name[i]));
        assert(is_white_space(name[i]) ==> CharClass::Space.holds(name[i]));
        assert(is_white_space(name[i]) ==> has_white_space(name));
    }
    if forall|i: int|
        0 <= i < name.len() ==> !is_white_space(#[trigger] name[i]) && name[i] != '*' && name[i]
            != '>' {
        if has_white_space(name) {
            let i = choose|i: int| 0 <= i < name.len() && CharClass::Space.holds(#[trigger] name[i]);
            assert(!is_white_space(name[i]));
        }
    }
}

/// Whether `t` is one token: it holds no full stop.
pub open spec fn is_one_token(t: Seq<char>) -> bool {
    forall|i: int| 0 <= i < t.len() ==> #[trigger] t[i] != '.'
}

/// Whether the pattern token `p` fits the token `s`.
pub open spec fn fits(p: Seq<char>, s: Seq<char>) -> bool {
    p == seq!['*'] || p == s
}

/// Matching goes on behind a token that fits.
proof fn lemma_behind_first_token(
    p: Seq<char>,
    a: Seq<Seq<char>>,
    s: Seq<char>,
    b: Seq<Seq<char>>,
)
    requires
        p != seq!['>'],
    ensures
        tokens_match(seq![p] + a, seq![s] + b) == (fits(p, s) && tokens_match(a, b)),
{
    reveal_strlit("*");
    reveal_strlit(">");
    assert("*"@ =~= seq!['*']);
    assert(">"@ =~= seq!['>']);
    let x = seq![p] + a;
    let y = seq![s] + b;
    assert forall|n: int| 0 <= n <= a.len() implies #[trigger] tokens_fit(x, y, n + 1) == (fits(p, s)
        && tokens_fit(a, b, n)) by {
        if tokens_fit(x, y, n + 1) {
            assert(x[0] == p && y[0] == s);
            assert forall|i: int| 0 <= i < n implies #[trigger] a[i] == "*"@ || a[i] == b[i] by {
                assert(x[i + 1] == a[i] && y[i + 1] == b[i]);
            }
        }
        if fits(p, s) && tokens_fit(a, b, n) {
            assert forall|i: int| 0 <= i < n + 1 implies #[trigger] x[i] == "*"@ || x[i] == y[i] by {
                if i > 0 {
                    assert(x[i] == a[i - 1] && y[i] == b[i - 1]);
                }
            }
        }
    }
    assert(tokens_fit(x, y, a.len() as int + 1) == (fits(p, s) && tokens_fit(a, b, a.len() as int)));
    if tokens_match(x, y) && !(x.len() == y.len() && tokens_fit(x, y, x.len() as int)) {
        let n = choose|n: int| 0 <= n < x.len() && #[trigger] x[n] == ">"@ && tokens_fit(x, y, n);
        assert(n > 0) by {
            assert(x[0] == p);
        }
        assert(tokens_fit(x, y, (n - 1) + 1));
        assert(a[n - 1] == ">"@);
    }
    if fits(p, s) && tokens_match(a, b) && !(a.len() == b.len() && tokens_fit(
        a,
        b,
        a.len() as int,
    )) {
        let n = choose|n: int| 0 <= n < a.len() && #[trigger] a[n] == ">"@ && tokens_fit(a, b, n);
        assert(tokens_fit(x, y, n + 1));
        assert(x[n + 1] == ">"@);
    }
}

/// The tokens of a token with more behind it.
proof fn lemma_first_token(t: Seq<char>, rest: Seq<char>)
    requires
        is_one_token(t),
    ensures
        pieces(t, CharClass::Dot) == seq![t],
        pieces(t.push('.') + rest, CharClass::Dot) == seq![t] + pieces(rest, CharClass::Dot),
{
    assert forall|i: int| 0 <= i < t.len() implies !CharClass::Dot.holds(#[trigger] t[i]) by {}
    lemma_one_piece(t, CharClass::Dot);
    law_pieces_of_two(t, '.', rest, CharClass::Dot);
}

/// A pattern matches a subject token by token: `>` matches whatever is left, also nothing, `*` matches
/// one token, and any other token itself.
pub proof fn law_matching_goes_token_by_token(
    p: Seq<char>,
    more_p: Seq<char>,
    s: Seq<char>,
    more_s: Seq<char>,
)
    requires
        is_one_token(p),
        is_one_token(s),
    ensures
        matches_subject(p, s) == (p == seq!['>'] || fits(p, s)),
        matches_subject(p, s.push('.') + more_s) == (p == seq!['>']),
        matches_subject(p.push('.') + more_p, s.push('.') + more_s) == (p == seq!['>'] || fits(p, s)
            && matches_subject(more_p, more_s)),
        matches_subject(p.push('.') + more_p, s) == (p == seq!['>'] || fits(p, s) && (more_p == seq![
            '>',
        ] || more_p.len() >= 2 && more_p[0] == '>' && more_p[1] == '.')),
{
    reveal_strlit(">");
    reveal_strlit("*");
    assert(">"@ =~= seq!['>']);
    assert("*"@ =~= seq!['*']);
    lemma_first_token(p, more_p);
    lemma_first_token(s, more_s);
    let a = pieces(more_p, CharClass::Dot);
    let b = pieces(more_s, CharClass::Dot);
    let none = Seq::<Seq<char>>::empty();
    lemma_some_piece(more_p, CharClass::Dot);
    lemma_some_piece(more_s, CharClass::Dot);
    assert(seq![p] + none =~= seq![p]);
    assert(seq![s] + none =~= seq![s]);
    if p == seq!['>'] {
        assert(seq![p][0] == ">"@ && tokens_fit(seq![p], seq![s], 0));
        assert(tokens_fit(seq![p], seq![s] + b, 0));
        assert((seq![p] + a)[0] == ">"@ && tokens_fit(seq![p] + a, seq![s] + b, 0));
        assert(tokens_fit(seq![p] + a, seq![s], 0));
    } else {
        lemma_behind_first_token(p, none, s, none);
        lemma_behind_first_token(p, none, s, b);
        lemma_behind_first_token(p, a, s, b);
        lemma_behind_first_token(p, a, s, none);
        assert(tokens_fit(none, none, 0));
        assert(tokens_match(a, none) == (a[0] == ">"@)) by {
            if a[0] == ">"@ {
                assert(tokens_fit(a, none, 0));
            }
        }
        lemma_leading_tail(more_p);
    }
}

/// When the first token is `>`.
proof fn lemma_leading_tail(s: Seq<char>)
    ensures
        (pieces(s, CharClass::Dot)[0] == seq!['>']) == (s == seq!['>'] || s.len() >= 2 && s[0] == '>'
            && s[1] == '.'),
{
    if exists|k: int| 0 <= k < s.len() && s[k] == '.' {
        let k = lemma_first_stop(s);
        let t = s.take(k);
        lemma_first_token(t, s.skip(k + 1));
        assert(s =~= t.push('.') + s.skip(k + 1));
        assert(pieces(s, CharClass::Dot)[0] == t);
        if t == seq!['>'] {
            assert(t[0] == s[0]);
            assert(k == 1);
        }
        if s.len() >= 2 && s[0] == '>' && s[1] == '.' {
            assert(k == 1) by {
                if k > 1 {
                    assert(t[1] == s[1]);
                }
            }
            assert(t =~= seq!['>']);
        }
        if s == seq!['>'] {
            assert(s[k] == '>');
        }
    } else {
        assert(is_one_token(s));
        lemma_first_token(s, s);
    }
}

/// The place of the first full stop.
proof fn lemma_first_stop(s: Seq<char>) -> (k: int)
    requires
        exists|k: int| 0 <= k < s.len() && s[k] == '.',
    ensures
        0 <= k < s.len(),
        s[k] == '.',
        is_one_token(s.take(k)),
    decreases s.len(),
{
    let k = choose|k: int| 0 <= k < s.len() && s[k] == '.';
    if is_one_token(s.take(k)) {
        k
    } else {
        let t = s.take(k);
        let i = choose|i: int| 0 <= i < t.len() && t[i] == '.';
        assert(t[i] == '.');
        let j = lemma_first_stop(t);
        assert(t.take(j) =~= s.take(j));
        j
    }
}

/// Whether `held` is a string without a wildcard character.
pub open spec fn is_plain_subject(held: JsonSpec) -> bool {
    held is Text && forall|i: int|
        0 <= i < held->Text_0.len() ==> #[trigger] held->Text_0[i] != '*' && held->Text_0[i] != '>'
}

/// What is concrete holds no wildcard character.
proof fn lemma_concrete(s: Seq<char>)
    ensures
        is_concrete(s) == is_plain_subject(JsonSpec::Text(s)),
{
    if is_concrete(s) {
        assert forall|i: int| 0 <= i < s.len() implies #[trigger] s[i] != '*' && s[i] != '>' by {
            assert(s.contains(s[i]));
        }
    }
    if is_plain_subject(JsonSpec::Text(s)) {
        let held = JsonSpec::Text(s);
        assert forall|i: int| 0 <= i < s.len() implies #[trigger] s[i] != '*' && s[i] != '>' by {
            assert(held->Text_0[i] == s[i]);
        }
    }
}

/// One more subject is the first concrete one where there was none before it.
proof fn lemma_first_concrete_of_more(list: Seq<Seq<char>>, next: Seq<char>)
    ensures
        first_concrete(list.push(next)) == (if first_concrete(list) is Some {
            first_concrete(list)
        } else if is_concrete(next) {
            Some(next)
        } else {
            None
        }),
    decreases list.len(),
{
    let more = list.push(next);
    if list.len() == 0 {
        assert(more[0] == next);
        assert(first_concrete(more.drop_first()) is None);
    } else {
        assert(more[0] == list[0]);
        assert(more.drop_first() =~= list.drop_first().push(next));
        lemma_first_concrete_of_more(list.drop_first(), next);
    }
}

/// The first concrete subject among documents, by its place.
proof fn lemma_first_plain(items: Seq<JsonSpec>, k: int)
    requires
        0 <= k <= items.len(),
        forall|i: int| 0 <= i < k ==> !is_plain_subject(#[trigger] items[i]),
        k < items.len() ==> is_plain_subject(items[k]),
    ensures
        first_concrete(texts_among(items)) == (if k < items.len() {
            Some(items[k]->Text_0)
        } else {
            None
        }),
    decreases items.len(),
{
    if items.len() > 0 {
        let before = items.drop_last();
        let last = items.last();
        assert(before.push(last) =~= items);
        law_strings_among_documents(before, last);
        assert forall|i: int| 0 <= i < k && i < before.len() implies !is_plain_subject(
            #[trigger] before[i],
        ) by {
            assert(before[i] == items[i]);
        }
        if k < before.len() {
            assert(before[k] == items[k]);
            lemma_first_plain(before, k);
        } else {
            lemma_first_plain(before, before.len() as int);
        }
        if last is Text {
            lemma_first_concrete_of_more(texts_among(before), last->Text_0);
            lemma_concrete(last->Text_0);
            assert(items[items.len() - 1] == last);
        }
    }
}

/// A pattern is among the strings of documents where one of them is that string.
proof fn lemma_some_string(items: Seq<JsonSpec>, subject: Seq<char>)
    ensures
        any_matches(texts_among(items), subject) == exists|i: int|
            0 <= i < items.len() && (#[trigger] items[i]) is Text && matches_subject(
                items[i]->Text_0,
                subject,
            ),
    decreases items.len(),
{
    if items.len() > 0 {
        let before = items.drop_last();
        let last = items.last();
        let old_texts = texts_among(before);
        let all = texts_among(items);
        assert(before.push(last) =~= items);
        law_strings_among_documents(before, last);
        lemma_some_string(before, subject);
        if any_matches(all, subject) {
            let i = choose|i: int| 0 <= i < all.len() && matches_subject(#[trigger] all[i], subject);
            if i < old_texts.len() {
                assert(matches_subject(old_texts[i], subject));
                let k = choose|k: int|
                    0 <= k < before.len() && (#[trigger] before[k]) is Text && matches_subject(
                        before[k]->Text_0,
                        subject,
                    );
                assert(items[k] is Text && matches_subject(items[k]->Text_0, subject));
            } else {
                assert(items[items.len() - 1] == last);
            }
        }
        if exists|i: int|
            0 <= i < items.len() && (#[trigger] items[i]) is Text && matches_subject(
                items[i]->Text_0,
                subject,
            ) {
            let k = choose|k: int|
                0 <= k < items.len() && (#[trigger] items[k]) is Text && matches_subject(
                    items[k]->Text_0,
                    subject,
                );
            if k < before.len() {
                assert(before[k] is Text && matches_subject(before[k]->Text_0, subject));
                let i = choose|i: int|
                    0 <= i < old_texts.len() && matches_subject(#[trigger] old_texts[i], subject);
                assert(all[i] == old_texts[i]);
            } else {
                assert(all[all.len() - 1] == last->Text_0);
            }
        }
    }
}

/// A message for a stream is published on the name of the stream where one of the strings that the
/// stream is configured with matches that name. Else it is published on the first of those strings
/// that holds no wildcard character, and where there is none, nowhere.
pub proof fn law_where_a_stream_is_published_to(
    info: JsonSpec,
    stream_name: Seq<char>,
    items: Seq<JsonSpec>,
    k: int,
)
    requires
        below(info, "config"@, "subjects"@) == Some(JsonSpec::Array(items)),
    ensures
        (exists|i: int|
            0 <= i < items.len() && (#[trigger] items[i]) is Text && matches_subject(
                items[i]->Text_0,
                stream_name,
            )) ==> publish_target(info, stream_name) == Ok::<Seq<char>, Seq<char>>(stream_name),
        (forall|i: int|
            0 <= i < items.len() && (#[trigger] items[i]) is Text ==> !matches_subject(
                items[i]->Text_0,
                stream_name,
            )) && 0 <= k < items.len() && is_plain_subject(items[k]) && (forall|i: int|
            0 <= i < k ==> !is_plain_subject(#[trigger] items[i])) ==> publish_target(
            info,
            stream_name,
        ) == Ok::<Seq<char>, Seq<char>>(items[k]->Text_0),
        (forall|i: int|
            0 <= i < items.len() && (#[trigger] items[i]) is Text ==> !matches_subject(
                items[i]->Text_0,
                stream_name,
            )) && (forall|i: int| 0 <= i < items.len() ==> !is_plain_subject(#[trigger] items[i]))
            ==> publish_target(info, stream_name) == Err::<Seq<char>, Seq<char>>(
            "JetStream stream '"@ + stream_name
                + "' only has wildcard subjects. Enter a concrete NATS subject in the message target field."@,
        ),
{
    law_fields_are_found(info, "config"@, "subjects"@);
    law_values_are_read_as_they_are(below(info, "config"@, "subjects"@), Seq::empty(), 0);
    assert(bound_subjects(info) == texts_among(items));
    lemma_some_string(items, stream_name);
    if 0 <= k < items.len() && is_plain_subject(items[k]) && (forall|i: int|
        0 <= i < k ==> !is_plain_subject(#[trigger] items[i])) {
        lemma_first_plain(items, k);
    }
    if forall|i: int| 0 <= i < items.len() ==> !is_plain_subject(#[trigger] items[i]) {
        lemma_first_plain(items, items.len() as int);
    }
}

/// Where a stream is not configured with an array of subjects, a message for it is published nowhere.
pub proof fn law_stream_without_subjects(info: JsonSpec, stream_name: Seq<char>)
    requires
        below(info, "config"@, "subjects"@) is None || !(below(info, "config"@, "subjects"@)->0 is Array),
    ensures
        publish_target(info, stream_name) == Err::<Seq<char>, Seq<char>>(
            "JetStream stream '"@ + stream_name
                + "' only has wildcard subjects. Enter a concrete NATS subject in the message target field."@,
        ),
{
    law_fields_are_found(info, "config"@, "subjects"@);
    assert(bound_subjects(info) =~= Seq::empty());
}

} // verus!
