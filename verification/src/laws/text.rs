//! Laws of trimming, splitting and joining text.
use vstd::prelude::*;
use vstd::utf8::encode_utf8;

use crate::text::{
    after, all_digits, begins_with, decimal, digits_value, is_digit, is_white_space, joined, lemma_decimal,
    parsed_decimal, pieces, strip_end, strip_start, trimmed, words, CharClass,
};

verus! {

/// Whether no character of `class` occurs in `s`.
pub open spec fn is_free_of(s: Seq<char>, class: CharClass) -> bool {
    forall|i: int| 0 <= i < s.len() ==> !class.holds(#[trigger] s[i])
}

/// Whether `s` consists of characters of `class`.
pub open spec fn is_made_of(s: Seq<char>, class: CharClass) -> bool {
    forall|i: int| 0 <= i < s.len() ==> class.holds(#[trigger] s[i])
}

/// What is taken off the start of a text is of the class, and what is left does not begin with the
/// class.
proof fn lemma_strip_start(s: Seq<char>, class: CharClass)
    ensures
        exists|a: Seq<char>| #[trigger]
            is_made_of(a, class) && s == a + strip_start(s, class),
        strip_start(s, class).len() > 0 ==> !class.holds(strip_start(s, class)[0]),
    decreases s.len(),
{
    if s.len() > 0 && class.holds(s[0]) {
        lemma_strip_start(s.drop_first(), class);
        let a = choose|a: Seq<char>| #[trigger]
            is_made_of(a, class) && s.drop_first() == a + strip_start(s.drop_first(), class);
        let b = seq![s[0]] + a;
        assert(is_made_of(b, class));
        let rest = strip_start(s.drop_first(), class);
        assert(s =~= seq![s[0]] + (a + rest));
        assert(s =~= b + rest);
    } else {
        let a = Seq::<char>::empty();
        assert(is_made_of(a, class));
        assert(s =~= a + strip_start(s, class));
    }
}

/// What is taken off the end of a text is of the class, what is left does not end in the class, and
/// begins as the text does.
proof fn lemma_strip_end(s: Seq<char>, class: CharClass)
    ensures
        exists|b: Seq<char>| #[trigger] is_made_of(b, class) && s == strip_end(s, class) + b,
        strip_end(s, class).len() > 0 ==> !class.holds(strip_end(s, class).last()),
        strip_end(s, class).len() > 0 ==> strip_end(s, class)[0] == s[0],
    decreases s.len(),
{
    if s.len() > 0 && class.holds(s.last()) {
        lemma_strip_end(s.drop_last(), class);
        let a = choose|a: Seq<char>| #[trigger]
            is_made_of(a, class) && s.drop_last() == strip_end(s.drop_last(), class) + a;
        let b = a.push(s.last());
        assert(is_made_of(b, class));
        let rest = strip_end(s.drop_last(), class);
        assert(s =~= (rest + a).push(s.last()));
        assert(s =~= rest + b);
    } else {
        let b = Seq::<char>::empty();
        assert(is_made_of(b, class));
        assert(s =~= strip_end(s, class) + b);
    }
}

/// A text is what it is trimmed to, between two texts of white space. What it is trimmed to neither
/// begins nor ends in white space.
pub proof fn law_trim(s: Seq<char>)
    ensures
        exists|a: Seq<char>, b: Seq<char>|
            #![trigger is_made_of(a, CharClass::Space), is_made_of(b, CharClass::Space)]
            is_made_of(a, CharClass::Space) && is_made_of(b, CharClass::Space) && s == a + trimmed(
                s,
            ) + b,
        trimmed(s).len() > 0 ==> !CharClass::Space.holds(trimmed(s)[0])
            && !CharClass::Space.holds(trimmed(s).last()),
{
    let class = CharClass::Space;
    let rest = strip_start(s, class);
    lemma_strip_start(s, class);
    lemma_strip_end(rest, class);
    let a = choose|a: Seq<char>| #[trigger] is_made_of(a, class) && s == a + rest;
    let b = choose|b: Seq<char>| #[trigger] is_made_of(b, class) && rest == trimmed(s) + b;
    assert(s =~= a + trimmed(s) + b);
}

/// A text that neither begins nor ends in white space is left as it is.
proof fn lemma_trim_keeps(s: Seq<char>)
    requires
        s.len() > 0 ==> !CharClass::Space.holds(s[0]) && !CharClass::Space.holds(s.last()),
    ensures
        trimmed(s) == s,
{
}

/// Trimming a text twice is trimming it once.
pub proof fn law_trim_twice(s: Seq<char>)
    ensures
        trimmed(trimmed(s)) == trimmed(s),
{
    law_trim(s);
    lemma_trim_keeps(trimmed(s));
}

/// A text without white space is left as it is.
pub proof fn lemma_trim_solid(s: Seq<char>)
    requires
        is_free_of(s, CharClass::Space),
    ensures
        trimmed(s) == s,
{
    lemma_trim_keeps(s);
}

/// The characters of what a text is trimmed to are characters of the text.
pub proof fn lemma_trim_chars(s: Seq<char>)
    ensures
        forall|i: int| 0 <= i < trimmed(s).len() ==> s.contains(#[trigger] trimmed(s)[i]),
{
    law_trim(s);
    let class = CharClass::Space;
    let (a, b) = choose|a: Seq<char>, b: Seq<char>|
        #![trigger is_made_of(a, class), is_made_of(b, class)]
        is_made_of(a, class) && is_made_of(b, class) && s == a + trimmed(s) + b;
    assert forall|i: int| 0 <= i < trimmed(s).len() implies s.contains(#[trigger] trimmed(s)[i]) by {
        assert(s[a.len() + i] == trimmed(s)[i]);
    }
}

/// There is always a piece.
pub proof fn lemma_some_piece(s: Seq<char>, class: CharClass)
    ensures
        pieces(s, class).len() > 0,
    decreases s.len(),
{
    if s.len() > 0 {
        lemma_some_piece(s.drop_last(), class);
    }
}

/// The pieces of two texts with a separator between them are the pieces of the one, then those of
/// the other.
pub proof fn law_pieces_of_two(a: Seq<char>, c: char, b: Seq<char>, class: CharClass)
    requires
        class.holds(c),
    ensures
        pieces(a.push(c) + b, class) == pieces(a, class) + pieces(b, class),
    decreases b.len(),
{
    let whole = a.push(c) + b;
    if b.len() == 0 {
        assert(whole =~= a.push(c));
        assert(a.push(c).drop_last() =~= a);
        assert(pieces(whole, class) =~= pieces(a, class) + pieces(b, class));
    } else {
        let shorter = b.drop_last();
        law_pieces_of_two(a, c, shorter, class);
        lemma_some_piece(shorter, class);
        assert(whole.drop_last() =~= a.push(c) + shorter);
        assert(whole.last() == b.last());
        assert(pieces(whole, class) =~= pieces(a, class) + pieces(b, class));
    }
}

/// A text without separators is its only piece.
pub proof fn lemma_one_piece(s: Seq<char>, class: CharClass)
    requires
        is_free_of(s, class),
    ensures
        pieces(s, class) == seq![s],
    decreases s.len(),
{
    if s.len() > 0 {
        let shorter = s.drop_last();
        assert forall|i: int| 0 <= i < shorter.len() implies !class.holds(#[trigger] shorter[i]) by {
            assert(shorter[i] == s[i]);
        }
        lemma_one_piece(shorter, class);
        assert(shorter.push(s.last()) =~= s);
        assert(!class.holds(s[s.len() - 1]));
        assert(pieces(s, class) =~= seq![s]);
    } else {
        assert(s =~= Seq::<char>::empty());
        assert(pieces(s, class) =~= seq![s]);
    }
}

/// No separator stands in a piece, and what stands in a piece stands in the text.
pub proof fn law_pieces_hold_no_separator(s: Seq<char>, class: CharClass)
    ensures
        forall|i: int| 0 <= i < pieces(s, class).len() ==> is_free_of(#[trigger] pieces(s, class)[i], class),
        forall|i: int, k: int|
            0 <= i < pieces(s, class).len() && 0 <= k < pieces(s, class)[i].len() ==> s.contains(
                #[trigger] pieces(s, class)[i][k],
            ),
    decreases s.len(),
{
    if s.len() > 0 {
        let shorter = s.drop_last();
        let before = pieces(shorter, class);
        let all = pieces(s, class);
        law_pieces_hold_no_separator(shorter, class);
        lemma_some_piece(shorter, class);
        assert forall|i: int| 0 <= i < all.len() implies is_free_of(#[trigger] all[i], class) by {
            if i < before.len() - 1 {
                assert(all[i] == before[i]);
            } else if class.holds(s.last()) {
                if i == before.len() - 1 {
                    assert(all[i] == before[i]);
                }
            } else {
                assert(all[i] == before.last().push(s.last()));
                assert(is_free_of(before[before.len() - 1], class));
            }
        }
        assert forall|i: int, k: int|
            0 <= i < all.len() && 0 <= k < all[i].len() implies s.contains(#[trigger] all[i][k]) by {
            if i < before.len() && k < before[i].len() {
                assert(all[i][k] == before[i][k]);
                assert(shorter.contains(before[i][k]));
                let j = choose|j: int| 0 <= j < shorter.len() && shorter[j] == before[i][k];
                assert(s[j] == all[i][k]);
            } else {
                assert(all[i][k] == s.last());
                assert(s[s.len() - 1] == all[i][k]);
            }
        }
    } else {
        assert forall|i: int| 0 <= i < pieces(s, class).len() implies is_free_of(
            #[trigger] pieces(s, class)[i],
            class,
        ) by {
            assert(pieces(s, class)[i] == Seq::<char>::empty());
        }
    }
}

/// A list with a longer last member is joined to a longer text.
proof fn lemma_joined_longer(list: Seq<Seq<char>>, separator: Seq<char>, c: char)
    requires
        list.len() > 0,
    ensures
        joined(list.drop_last().push(list.last().push(c)), separator) == joined(
            list,
            separator,
        ).push(c),
{
    let longer = list.drop_last().push(list.last().push(c));
    assert(longer.drop_last() =~= list.drop_last());
    assert(joined(longer, separator) =~= joined(list, separator).push(c));
}

/// Joining the pieces between full stops with full stops gives the text back.
pub proof fn law_join_undoes_split(s: Seq<char>)
    ensures
        joined(pieces(s, CharClass::Dot), seq!['.']) == s,
    decreases s.len(),
{
    if s.len() > 0 {
        let shorter = s.drop_last();
        let before = pieces(shorter, CharClass::Dot);
        law_join_undoes_split(shorter);
        lemma_some_piece(shorter, CharClass::Dot);
        if s.last() == '.' {
            let all = before.push(Seq::<char>::empty());
            assert(all.drop_last() =~= before);
            assert(joined(all, seq!['.']) =~= s);
        } else {
            lemma_joined_longer(before, seq!['.'], s.last());
            assert(shorter.push(s.last()) =~= s);
        }
    } else {
        assert(pieces(s, CharClass::Dot).len() == 1);
        assert(s =~= Seq::<char>::empty());
    }
}

/// The words of two texts with white space between them are the words of the one, then those of the
/// other.
pub proof fn law_words_of_two(a: Seq<char>, c: char, b: Seq<char>)
    requires
        CharClass::Space.holds(c),
    ensures
        words(a.push(c) + b) == words(a) + words(b),
{
    law_pieces_of_two(a, c, b, CharClass::Space);
    Seq::filter_distributes_over_add(
        pieces(a, CharClass::Space),
        pieces(b, CharClass::Space),
        |piece: Seq<char>| piece.len() > 0,
    );
}

/// A text without white space is its only word, unless it is empty.
pub proof fn lemma_one_word(s: Seq<char>)
    requires
        is_free_of(s, CharClass::Space),
    ensures
        words(s) == (if s.len() > 0 {
            seq![s]
        } else {
            Seq::empty()
        }),
{
    lemma_one_piece(s, CharClass::Space);
    reveal(Seq::filter);
    let one = seq![s];
    assert(one.drop_last() =~= Seq::<Seq<char>>::empty());
    assert(one.last() == s);
    let pred = |piece: Seq<char>| piece.len() > 0;
    assert(one.drop_last().filter(pred) =~= Seq::<Seq<char>>::empty());
    if s.len() > 0 {
        assert(one.filter(pred) =~= seq![s]);
    } else {
        assert(one.filter(pred) =~= Seq::<Seq<char>>::empty());
    }
}

/// The bytes of two texts in a row are the bytes of the one, then those of the other.
pub proof fn law_bytes_of_two(a: Seq<char>, b: Seq<char>)
    ensures
        encode_utf8(a + b) == encode_utf8(a) + encode_utf8(b),
    decreases a.len(),
{
    if a.len() == 0 {
        assert(a + b =~= b);
        assert(encode_utf8(a) + encode_utf8(b) =~= encode_utf8(b));
    } else {
        law_bytes_of_two(a.drop_first(), b);
        assert((a + b).drop_first() =~= a.drop_first() + b);
        assert(encode_utf8(a + b) =~= encode_utf8(a) + encode_utf8(b));
    }
}

/// Which characters text is trimmed or split at.
pub proof fn law_char_classes(c: char)
    ensures
        CharClass::Space.holds(c) == is_white_space(c),
        CharClass::LineEnd.holds(c) <==> c as u32 == 13 || c as u32 == 10,
        CharClass::Quote.holds(c) <==> c as u32 == 39,
        CharClass::Dot.holds(c) <==> c as u32 == 46,
        CharClass::ListSeparator.holds(c) <==> c as u32 == 44 || c as u32 == 59 || c as u32 == 10
            || c as u32 == 13,
        c as u32 <= 127 ==> (is_white_space(c) <==> c as u32 == 32 || 9 <= c as u32 <= 13),
{
}

/// What is taken off the end of a line is its carriage returns and line feeds, all of them and
/// nothing else.
pub proof fn law_line_loses_its_end(body: Seq<char>, end: Seq<char>)
    requires
        forall|i: int| 0 <= i < end.len() ==> #[trigger] end[i] == '\r' || end[i] == '\n',
        body.len() > 0 ==> body.last() != '\r' && body.last() != '\n',
    ensures
        strip_end(body + end, CharClass::LineEnd) == body,
    decreases end.len(),
{
    if end.len() == 0 {
        assert(body + end =~= body);
    } else {
        let shorter = end.drop_last();
        assert(end[end.len() - 1] == '\r' || end[end.len() - 1] == '\n');
        assert((body + end).drop_last() =~= body + shorter);
        law_line_loses_its_end(body, shorter);
    }
}

/// A list is joined member by member, with the separator in front of each but the first.
pub proof fn law_joined(list: Seq<Seq<char>>, next: Seq<char>, separator: Seq<char>)
    ensures
        joined(Seq::empty(), separator) == Seq::<char>::empty(),
        joined(seq![next], separator) == next,
        list.len() > 0 ==> joined(list.push(next), separator) == joined(list, separator) + separator
            + next,
{
    assert(list.push(next).drop_last() =~= list);
}

/// A number is written digit by digit, the last digit behind what is written without it.
pub proof fn law_decimal_digits(n: nat, d: nat)
    requires
        d < 10,
    ensures
        decimal(d) == seq![(48 + d) as char],
        n > 0 ==> decimal(10 * n + d) == decimal(n).push((48 + d) as char),
{
    if n > 0 {
        assert((10 * n + d) / 10 == n);
        assert((10 * n + d) % 10 == d);
    }
}

/// Different numbers are written differently.
pub proof fn law_decimal_tells_numbers_apart(a: nat, b: nat)
    requires
        decimal(a) == decimal(b),
    ensures
        a == b,
{
    lemma_decimal(a);
    lemma_decimal(b);
}

/// Digits that denote `n` denote `10 * n + d` with the digit `d` behind them, as long as that is no
/// more than `max`. One digit denotes its value.
pub proof fn law_digits_are_read_one_by_one(s: Seq<char>, c: char, n: nat, max: nat)
    requires
        '0' <= c <= '9',
    ensures
        parsed_decimal(seq![c], max) == (if c as nat - 48 <= max {
            Some((c as nat - 48) as nat)
        } else {
            None
        }),
        parsed_decimal(s, max) == Some(n) ==> parsed_decimal(s.push(c), max) == (if 10 * n + (c
            as nat - 48) <= max {
            Some((10 * n + (c as nat - 48)) as nat)
        } else {
            None
        }),
{
    let one = seq![c];
    assert(one.drop_last() =~= Seq::<char>::empty());
    assert(digits_value(Seq::<char>::empty()) == 0);
    assert(all_digits(one));
    if parsed_decimal(s, max) == Some(n) {
        let digits = if s[0] == '+' {
            s.drop_first()
        } else {
            s
        };
        let longer = digits.push(c);
        assert(s.push(c)[0] == s[0]);
        assert(s.push(c).drop_first() =~= s.drop_first().push(c));
        assert(longer.drop_last() =~= digits);
        assert(all_digits(longer));
    }
}

/// A plus sign in front of a digit makes no difference. What holds anything but digits behind it
/// denotes nothing, nor does a sign or nothing alone. What denotes something is no more than `max`.
pub proof fn law_only_digits_are_read(s: Seq<char>, max: nat)
    ensures
        s.len() > 0 && '0' <= s[0] <= '9' ==> parsed_decimal(seq!['+'] + s, max)
            == parsed_decimal(s, max),
        parsed_decimal(Seq::empty(), max) is None,
        parsed_decimal(seq!['+'], max) is None,
        parsed_decimal(s, max) matches Some(n) ==> n <= max && s.len() > 0 && forall|i: int|
            0 <= i < s.len() ==> '0' <= #[trigger] s[i] <= '9' || i == 0 && s[i] == '+',
{
    let signed = seq!['+'] + s;
    assert(signed.drop_first() =~= s);
    assert(seq!['+'].drop_first() =~= Seq::<char>::empty());
    if parsed_decimal(s, max) is Some {
        let digits = if s[0] == '+' {
            s.drop_first()
        } else {
            s
        };
        assert forall|i: int| 0 <= i < s.len() implies '0' <= #[trigger] s[i] <= '9' || i == 0
            && s[i] == '+' by {
            if s[0] != '+' {
                assert(is_digit(digits[i]));
            } else if i > 0 {
                assert(is_digit(digits[i - 1]));
            }
        }
    }
}

/// A text begins with a prefix where it is the prefix with something behind it, and that is what comes
/// after the prefix.
pub proof fn law_prefixes(s: Seq<char>, prefix: Seq<char>, rest: Seq<char>)
    ensures
        begins_with(prefix + rest, prefix),
        after(prefix + rest, prefix.len() as int) == rest,
        begins_with(s, prefix) ==> s == prefix + after(s, prefix.len() as int),
{
    assert((prefix + rest).subrange(0, prefix.len() as int) =~= prefix);
    assert(after(prefix + rest, prefix.len() as int) =~= rest);
    if begins_with(s, prefix) {
        let head = s.subrange(0, prefix.len() as int);
        assert(s =~= head + after(s, prefix.len() as int));
    }
}

} // verus!
