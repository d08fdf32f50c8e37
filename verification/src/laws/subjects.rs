//! Laws of names, subjects and patterns.
use vstd::prelude::*;

use crate::connection::{inbox_subject, is_inbox_token, is_lower_hex};
use crate::json::JsonSpec;
use crate::laws::text::{
    is_free_of, law_join_undoes_split, law_pieces_of_two, law_trim_twice, lemma_one_piece,
    lemma_some_piece, lemma_trim_solid,
};
use crate::subject::{
    any_matches, bound_subjects, first_concrete, has_white_space, is_concrete,
    is_forbidden_in_name, matches_subject, publish_subject_error, publish_target,
    resource_name_error, tokens_fit, tokens_match,
};
use crate::text::{pieces, trimmed, CharClass};

verus! {

/// A subject matches itself, also where it is a pattern.
pub proof fn law_subject_matches_itself(subject: Seq<char>)
    ensures
        matches_subject(subject, subject),
{
}

/// A pattern that has neither `*` nor `>` for a token matches itself and nothing else.
pub proof fn law_plain_pattern_matches_only_itself(pattern: Seq<char>, subject: Seq<char>)
    requires
        !pieces(pattern, CharClass::Dot).contains("*"@),
        !pieces(pattern, CharClass::Dot).contains(">"@),
    ensures
        matches_subject(pattern, subject) == (pattern == subject),
{
    let p = pieces(pattern, CharClass::Dot);
    let s = pieces(subject, CharClass::Dot);
    if matches_subject(pattern, subject) {
        assert forall|i: int| 0 <= i < p.len() implies #[trigger] p[i] == s[i] by {
            assert(p.contains(p[i]));
        }
        assert forall|i: int| 0 <= i < p.len() implies #[trigger] p[i] != ">"@ by {
            assert(p.contains(p[i]));
        }
        assert(p =~= s);
        law_join_undoes_split(pattern);
        law_join_undoes_split(subject);
    }
}

/// The pattern `*` matches the subjects of one token.
pub proof fn law_star_matches_one_token(subject: Seq<char>)
    ensures
        matches_subject("*"@, subject) == !subject.contains('.'),
{
    reveal_strlit("*");
    reveal_strlit(">");
    let star = "*"@;
    assert(star[0] == '*');
    assert(is_free_of(star, CharClass::Dot));
    lemma_one_piece(star, CharClass::Dot);
    assert(">"@[0] != star[0]);
    let p = pieces(star, CharClass::Dot);
    let s = pieces(subject, CharClass::Dot);
    assert(p[0] == star);
    if subject.contains('.') {
        let i = choose|i: int| 0 <= i < subject.len() && subject[i] == '.';
        let a = subject.take(i);
        let b = subject.skip(i + 1);
        assert(subject =~= a.push('.') + b);
        law_pieces_of_two(a, '.', b, CharClass::Dot);
        lemma_some_piece(a, CharClass::Dot);
        lemma_some_piece(b, CharClass::Dot);
        assert(s.len() >= 2);
    } else {
        assert forall|i: int| 0 <= i < subject.len() implies !CharClass::Dot.holds(
            #[trigger] subject[i],
        ) by {
            assert(subject.contains(subject[i]));
        }
        lemma_one_piece(subject, CharClass::Dot);
    }
}

/// The pattern `>` matches every subject.
pub proof fn law_tail_matches_everything(subject: Seq<char>)
    ensures
        matches_subject(">"@, subject),
{
    reveal_strlit(">");
    let tail = ">"@;
    assert(tail[0] == '>');
    assert(is_free_of(tail, CharClass::Dot));
    lemma_one_piece(tail, CharClass::Dot);
    let p = pieces(tail, CharClass::Dot);
    assert(p[0] == ">"@ && tokens_fit(p, pieces(subject, CharClass::Dot), 0));
}

/// A pattern that ends in the token `>` matches the subjects that begin with tokens which the rest
/// of the pattern matches.
pub proof fn law_tail_matches_what_is_left(pattern: Seq<char>, subject: Seq<char>)
    requires
        !pieces(pattern, CharClass::Dot).contains(">"@),
    ensures
        matches_subject(pattern + ".>"@, subject) == tokens_fit(
            pieces(pattern, CharClass::Dot),
            pieces(subject, CharClass::Dot),
            pieces(pattern, CharClass::Dot).len() as int,
        ),
{
    reveal_strlit(">");
    reveal_strlit(".>");
    reveal_strlit("*");
    let tail = ">"@;
    assert(tail[0] == '>');
    assert(is_free_of(tail, CharClass::Dot));
    lemma_one_piece(tail, CharClass::Dot);
    assert(pattern + ".>"@ =~= pattern.push('.') + tail);
    law_pieces_of_two(pattern, '.', tail, CharClass::Dot);
    let head = pieces(pattern, CharClass::Dot);
    let p = pieces(pattern + ".>"@, CharClass::Dot);
    let s = pieces(subject, CharClass::Dot);
    let n = head.len() as int;
    assert(p =~= head.push(tail));
    assert(p[n] == tail);
    assert(forall|i: int| 0 <= i < n ==> #[trigger] p[i] == head[i]);
    assert forall|i: int| 0 <= i < n implies #[trigger] p[i] != tail by {
        assert(head.contains(head[i]));
    }
    if tokens_fit(head, s, n) {
        assert(tokens_fit(p, s, n));
    }
    if tokens_match(p, s) {
        if p.len() == s.len() && tokens_fit(p, s, p.len() as int) {
            assert forall|i: int| 0 <= i < n implies #[trigger] head[i] == "*"@ || head[i] == s[i] by {
                assert(p[i] == head[i]);
            }
        } else {
            let k = choose|k: int|
                0 <= k < p.len() && #[trigger] p[k] == tail && tokens_fit(p, s, k);
            assert(k == n);
            assert forall|i: int| 0 <= i < n implies #[trigger] head[i] == "*"@ || head[i] == s[i] by {
                assert(p[i] == head[i]);
            }
        }
    }
}

/// What is found to be the first concrete subject is one of the subjects, and concrete.
proof fn lemma_first_concrete(subjects: Seq<Seq<char>>)
    ensures
        first_concrete(subjects) matches Some(subject) ==> subjects.contains(subject)
            && is_concrete(subject),
    decreases subjects.len(),
{
    if subjects.len() > 0 {
        if is_concrete(subjects[0]) {
            assert(subjects.contains(subjects[0]));
        } else {
            let rest = subjects.drop_first();
            lemma_first_concrete(rest);
            if let Some(subject) = first_concrete(rest) {
                let i = choose|i: int| 0 <= i < rest.len() && rest[i] == subject;
                assert(subjects[i + 1] == subject);
            }
        }
    }
}

/// The subject on which a message for a stream is published is one that the stream is bound to. It
/// is the name of the stream where the stream is bound to that, else it holds no wildcard.
pub proof fn law_publish_target_is_bound(info: JsonSpec, stream_name: Seq<char>)
    ensures
        publish_target(info, stream_name) matches Ok(subject) ==> any_matches(
            bound_subjects(info),
            subject,
        ) && (subject == stream_name || is_concrete(subject)),
{
    let subjects = bound_subjects(info);
    if !any_matches(subjects, stream_name) {
        lemma_first_concrete(subjects);
        if let Some(subject) = first_concrete(subjects) {
            let i = choose|i: int| 0 <= i < subjects.len() && subjects[i] == subject;
            law_subject_matches_itself(subject);
            assert(matches_subject(subjects[i], subject));
        }
    }
}

/// Whether `t` is a token that a name may be: not empty, and without characters that are forbidden.
pub open spec fn is_name_token(t: Seq<char>) -> bool {
    t.len() > 0 && forall|i: int| 0 <= i < t.len() ==> !is_forbidden_in_name(#[trigger] t[i])
}

/// Whether a message can be published on `s`, and nothing is to be trimmed off it.
pub open spec fn is_solid_subject(s: Seq<char>) -> bool {
    &&& s.len() > 0
    &&& is_free_of(s, CharClass::Space)
    &&& is_concrete(s)
    &&& !pieces(s, CharClass::Dot).contains(Seq::empty())
}

/// A solid subject is one that a message can be published on, and that is written as it is.
pub proof fn lemma_solid_subject(s: Seq<char>)
    requires
        is_solid_subject(s),
    ensures
        publish_subject_error(s) is None,
        trimmed(s) == s,
{
    lemma_trim_solid(s);
}

/// What a message can be published on is solid once it is trimmed.
pub proof fn lemma_published_on(s: Seq<char>)
    requires
        publish_subject_error(s) is None,
    ensures
        is_solid_subject(trimmed(s)),
{
    let name = trimmed(s);
    assert forall|i: int| 0 <= i < name.len() implies !CharClass::Space.holds(#[trigger] name[i]) by {
        if CharClass::Space.holds(name[i]) {
            assert(has_white_space(name));
        }
    }
}

/// A valid name is a token.
proof fn lemma_name_token(value: Seq<char>, kind: Seq<char>)
    requires
        resource_name_error(value, kind) is None,
    ensures
        is_name_token(trimmed(value)),
{
}

/// A token is a solid subject.
proof fn lemma_token_is_subject(t: Seq<char>)
    requires
        is_name_token(t),
    ensures
        is_solid_subject(t),
{
    assert forall|i: int| 0 <= i < t.len() implies !CharClass::Space.holds(#[trigger] t[i]) by {
        assert(!is_forbidden_in_name(t[i]));
    }
    assert forall|i: int| 0 <= i < t.len() implies !CharClass::Dot.holds(#[trigger] t[i]) by {
        assert(!is_forbidden_in_name(t[i]));
    }
    lemma_one_piece(t, CharClass::Dot);
    if t.contains('*') {
        let i = choose|i: int| 0 <= i < t.len() && t[i] == '*';
        assert(is_forbidden_in_name(t[i]));
    }
    if t.contains('>') {
        let i = choose|i: int| 0 <= i < t.len() && t[i] == '>';
        assert(is_forbidden_in_name(t[i]));
    }
}

/// A solid subject with a token behind it is a solid subject.
pub proof fn lemma_append_token(s: Seq<char>, t: Seq<char>)
    requires
        is_solid_subject(s),
        is_name_token(t),
    ensures
        is_solid_subject(s.push('.') + t),
{
    lemma_token_is_subject(t);
    let whole = s.push('.') + t;
    law_pieces_of_two(s, '.', t, CharClass::Dot);
    let a = pieces(s, CharClass::Dot);
    let b = pieces(t, CharClass::Dot);
    if pieces(whole, CharClass::Dot).contains(Seq::empty()) {
        let i = choose|i: int| 0 <= i < (a + b).len() && (a + b)[i] == Seq::<char>::empty();
        if i < a.len() {
            assert(a[i] == Seq::<char>::empty());
        } else {
            assert(b[i - a.len()] == Seq::<char>::empty());
        }
    }
    assert forall|i: int| 0 <= i < whole.len() implies whole[i] != '*' && whole[i] != '>'
        && !CharClass::Space.holds(#[trigger] whole[i]) by {
        if i < s.len() {
            assert(whole[i] == s[i]);
            assert(s.contains(s[i]));
        } else if i > s.len() {
            assert(whole[i] == t[i - s.len() - 1]);
            assert(t.contains(t[i - s.len() - 1]));
        }
    }
}

/// `$JS.API`, `STREAM` and `CONSUMER`, and the operations, are solid where they stand.
proof fn lemma_api_tokens()
    ensures
        is_solid_subject("$JS"@.push('.') + "API"@),
        is_name_token("STREAM"@),
        is_name_token("CONSUMER"@),
        is_name_token("INFO"@),
        is_name_token("LIST"@),
        is_name_token("CREATE"@),
        is_name_token("DELETE"@),
{
    reveal_strlit("$JS");
    reveal_strlit("API");
    reveal_strlit("STREAM");
    reveal_strlit("CONSUMER");
    reveal_strlit("INFO");
    reveal_strlit("LIST");
    reveal_strlit("CREATE");
    reveal_strlit("DELETE");
    assert(is_name_token("$JS"@));
    lemma_token_is_subject("$JS"@);
    lemma_append_token("$JS"@, "API"@);
}

/// A JetStream API subject of three tokens, a name and possibly another.
proof fn lemma_api_subject(area: Seq<char>, operation: Seq<char>, name: Seq<char>, other: Seq<char>)
    requires
        area == "STREAM"@ || area == "CONSUMER"@,
        operation == "INFO"@ || operation == "LIST"@ || operation == "CREATE"@ || operation
            == "DELETE"@,
        is_name_token(name),
        is_name_token(other),
    ensures
        ({
            let operated = (("$JS"@.push('.') + "API"@).push('.') + area).push('.') + operation;
            &&& is_solid_subject(operated)
            &&& is_solid_subject(operated.push('.') + name)
            &&& is_solid_subject((operated.push('.') + name).push('.') + other)
        }),
{
    lemma_api_tokens();
    let base = "$JS"@.push('.') + "API"@;
    lemma_append_token(base, area);
    lemma_append_token(base.push('.') + area, operation);
    let operated = (base.push('.') + area).push('.') + operation;
    lemma_append_token(operated, name);
    lemma_append_token(operated.push('.') + name, other);
}

/// The requests on a stream whose name is valid, and the requests for all streams and for the
/// account, are made on subjects on which a message can be published.
pub proof fn law_stream_subjects_are_valid(stream: Seq<char>)
    requires
        resource_name_error(stream, "stream"@) is None,
        trimmed(stream) == stream,
    ensures
        publish_subject_error("$JS.API.INFO"@) is None,
        publish_subject_error("$JS.API.STREAM.LIST"@) is None,
        publish_subject_error("$JS.API.STREAM.INFO."@ + stream) is None,
        publish_subject_error("$JS.API.STREAM.CREATE."@ + stream) is None,
        publish_subject_error("$JS.API.STREAM.DELETE."@ + stream) is None,
        publish_subject_error("$JS.API.CONSUMER.LIST."@ + stream) is None,
{
    lemma_name_token(stream, "stream"@);
    lemma_api_tokens();
    let base = "$JS"@.push('.') + "API"@;
    lemma_append_token(base, "INFO"@);
    lemma_api_subject("STREAM"@, "LIST"@, stream, stream);
    lemma_api_subject("STREAM"@, "INFO"@, stream, stream);
    lemma_api_subject("STREAM"@, "CREATE"@, stream, stream);
    lemma_api_subject("STREAM"@, "DELETE"@, stream, stream);
    lemma_api_subject("CONSUMER"@, "LIST"@, stream, stream);
    lemma_written_api_subjects(stream, stream);
    lemma_solid_subject("$JS.API.INFO"@);
    lemma_solid_subject("$JS.API.STREAM.LIST"@);
    lemma_solid_subject("$JS.API.STREAM.INFO."@ + stream);
    lemma_solid_subject("$JS.API.STREAM.CREATE."@ + stream);
    lemma_solid_subject("$JS.API.STREAM.DELETE."@ + stream);
    lemma_solid_subject("$JS.API.CONSUMER.LIST."@ + stream);
}

/// The requests on a consumer, where its name and that of its stream are valid, are made on subjects
/// on which a message can be published.
pub proof fn law_consumer_subjects_are_valid(stream: Seq<char>, consumer: Seq<char>)
    requires
        resource_name_error(stream, "stream"@) is None,
        trimmed(stream) == stream,
        resource_name_error(consumer, "consumer"@) is None,
        trimmed(consumer) == consumer,
    ensures
        publish_subject_error("$JS.API.CONSUMER.INFO."@ + stream + "."@ + consumer) is None,
        publish_subject_error("$JS.API.CONSUMER.CREATE."@ + stream + "."@ + consumer) is None,
        publish_subject_error("$JS.API.CONSUMER.DELETE."@ + stream + "."@ + consumer) is None,
{
    lemma_name_token(stream, "stream"@);
    lemma_name_token(consumer, "consumer"@);
    lemma_api_subject("CONSUMER"@, "INFO"@, stream, consumer);
    lemma_api_subject("CONSUMER"@, "CREATE"@, stream, consumer);
    lemma_api_subject("CONSUMER"@, "DELETE"@, stream, consumer);
    lemma_written_api_subjects(stream, consumer);
    lemma_solid_subject("$JS.API.CONSUMER.INFO."@ + stream + "."@ + consumer);
    lemma_solid_subject("$JS.API.CONSUMER.CREATE."@ + stream + "."@ + consumer);
    lemma_solid_subject("$JS.API.CONSUMER.DELETE."@ + stream + "."@ + consumer);
}

/// The JetStream API subjects, token by token.
proof fn lemma_written_api_subjects(stream: Seq<char>, consumer: Seq<char>)
    ensures
        ({
            let base = "$JS"@.push('.') + "API"@;
            let streams = base.push('.') + "STREAM"@;
            let consumers = base.push('.') + "CONSUMER"@;
            &&& "$JS.API.INFO"@ == base.push('.') + "INFO"@
            &&& "$JS.API.STREAM.LIST"@ == streams.push('.') + "LIST"@
            &&& "$JS.API.STREAM.INFO."@ + stream == (streams.push('.') + "INFO"@).push('.') + stream
            &&& "$JS.API.STREAM.CREATE."@ + stream == (streams.push('.') + "CREATE"@).push('.')
                + stream
            &&& "$JS.API.STREAM.DELETE."@ + stream == (streams.push('.') + "DELETE"@).push('.')
                + stream
            &&& "$JS.API.CONSUMER.LIST."@ + stream == (consumers.push('.') + "LIST"@).push('.')
                + stream
            &&& "$JS.API.CONSUMER.INFO."@ + stream + "."@ + consumer == ((consumers.push('.')
                + "INFO"@).push('.') + stream).push('.') + consumer
            &&& "$JS.API.CONSUMER.CREATE."@ + stream + "."@ + consumer == ((consumers.push('.')
                + "CREATE"@).push('.') + stream).push('.') + consumer
            &&& "$JS.API.CONSUMER.DELETE."@ + stream + "."@ + consumer == ((consumers.push('.')
                + "DELETE"@).push('.') + stream).push('.') + consumer
        }),
{
    reveal_strlit("$JS");
    reveal_strlit("API");
    reveal_strlit("STREAM");
    reveal_strlit("CONSUMER");
    reveal_strlit("INFO");
    reveal_strlit("LIST");
    reveal_strlit("CREATE");
    reveal_strlit("DELETE");
    reveal_strlit(".");
    reveal_strlit("$JS.API.INFO");
    reveal_strlit("$JS.API.STREAM.LIST");
    reveal_strlit("$JS.API.STREAM.INFO.");
    reveal_strlit("$JS.API.STREAM.CREATE.");
    reveal_strlit("$JS.API.STREAM.DELETE.");
    reveal_strlit("$JS.API.CONSUMER.LIST.");
    reveal_strlit("$JS.API.CONSUMER.INFO.");
    reveal_strlit("$JS.API.CONSUMER.CREATE.");
    reveal_strlit("$JS.API.CONSUMER.DELETE.");
    let base = "$JS"@.push('.') + "API"@;
    let streams = base.push('.') + "STREAM"@;
    let consumers = base.push('.') + "CONSUMER"@;
    assert("$JS.API.INFO"@ =~= base.push('.') + "INFO"@);
    assert("$JS.API.STREAM.LIST"@ =~= streams.push('.') + "LIST"@);
    assert("$JS.API.STREAM.INFO."@ =~= (streams.push('.') + "INFO"@).push('.'));
    assert("$JS.API.STREAM.CREATE."@ =~= (streams.push('.') + "CREATE"@).push('.'));
    assert("$JS.API.STREAM.DELETE."@ =~= (streams.push('.') + "DELETE"@).push('.'));
    assert("$JS.API.CONSUMER.LIST."@ =~= (consumers.push('.') + "LIST"@).push('.'));
    assert("$JS.API.CONSUMER.INFO."@ =~= (consumers.push('.') + "INFO"@).push('.'));
    assert("$JS.API.CONSUMER.CREATE."@ =~= (consumers.push('.') + "CREATE"@).push('.'));
    assert("$JS.API.CONSUMER.DELETE."@ =~= (consumers.push('.') + "DELETE"@).push('.'));
    assert(forall|a: Seq<char>| #[trigger] (a + stream) + "."@ =~= (a + stream).push('.'));
}

/// The subject to which the replies to a request go is one on which a message can be published, and
/// has no white space.
pub proof fn law_inbox_is_valid(token: Seq<char>)
    requires
        is_inbox_token(token),
    ensures
        is_solid_subject(inbox_subject(token)),
        publish_subject_error(inbox_subject(token)) is None,
{
    reveal_strlit("_INBOX");
    reveal_strlit("DBX");
    reveal_strlit("_INBOX.DBX.");
    assert(is_name_token("_INBOX"@));
    assert(is_name_token("DBX"@));
    assert forall|i: int| 0 <= i < token.len() implies !is_forbidden_in_name(#[trigger] token[i]) by {
        assert(is_lower_hex(token[i]));
    }
    lemma_token_is_subject("_INBOX"@);
    lemma_append_token("_INBOX"@, "DBX"@);
    lemma_append_token("_INBOX"@.push('.') + "DBX"@, token);
    assert("_INBOX.DBX."@ =~= ("_INBOX"@.push('.') + "DBX"@).push('.'));
    lemma_solid_subject(inbox_subject(token));
}

/// Trimming a name or a subject beforehand makes no difference to whether it is valid.
pub proof fn law_validity_disregards_white_space(value: Seq<char>, kind: Seq<char>)
    ensures
        resource_name_error(trimmed(value), kind) == resource_name_error(value, kind),
        publish_subject_error(trimmed(value)) == publish_subject_error(value),
{
    law_trim_twice(value);
}

} // verus!
