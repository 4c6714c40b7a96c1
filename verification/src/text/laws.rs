//! What holds of the operations on text.
use super::model;
use super::model::Text;
use vstd::prelude::*;

verus! {

// ---- Letters ---------------------------------------------------------------------------

/// Lower case changes the letters from `A` to `Z` into those from `a` to `z`, each into its own,
/// and nothing else, and upper case the other way round.
pub proof fn law_cases_change_letters_only(s: Text)
    ensures
        model::lower(s).len() == s.len(),
        model::upper(s).len() == s.len(),
        forall|i: int|
            0 <= i < s.len() ==> (if 'A' <= #[trigger] s[i] <= 'Z' {
                model::lower(s)[i] as u32 == s[i] as u32 + 32
            } else {
                model::lower(s)[i] == s[i]
            }),
        forall|i: int|
            0 <= i < s.len() ==> (if 'a' <= #[trigger] s[i] <= 'z' {
                model::upper(s)[i] as u32 + 32 == s[i] as u32
            } else {
                model::upper(s)[i] == s[i]
            }),
{
}

/// Texts that differ in the case of letters only are the same up to case: a text, and the same in
/// lower case or in upper case.
pub proof fn law_cases_do_not_matter(s: Text)
    ensures
        model::same_ignoring_case(s, model::lower(s)),
        model::same_ignoring_case(s, model::upper(s)),
        model::lower(model::lower(s)) == model::lower(s),
        model::upper(model::upper(s)) == model::upper(s),
{
    assert(model::lower(model::lower(s)) =~= model::lower(s));
    assert(model::upper(model::upper(s)) =~= model::upper(s));
    assert(model::lower(model::upper(s)) =~= model::lower(s));
}

// ---- White space -----------------------------------------------------------------------

proof fn lemma_without_leading(s: Text, class: spec_fn(char) -> bool) -> (n: int)
    ensures
        0 <= n <= s.len(),
        model::without_leading(s, class) == s.skip(n),
        forall|i: int| 0 <= i < n ==> class(#[trigger] s[i]),
        n < s.len() ==> !class(s[n]),
    decreases s.len(),
{
    if s.len() > 0 && class(s[0]) {
        let m = lemma_without_leading(s.skip(1), class);
        assert(s.skip(1).skip(m) =~= s.skip(m + 1));
        assert forall|i: int| 0 <= i < m + 1 implies class(#[trigger] s[i]) by {
            if i > 0 {
                assert(s.skip(1)[i - 1] == s[i]);
            }
        }
        m + 1
    } else {
        assert(s.skip(0) =~= s);
        0
    }
}

proof fn lemma_without_trailing(s: Text, class: spec_fn(char) -> bool) -> (n: int)
    ensures
        0 <= n <= s.len(),
        model::without_trailing(s, class) == s.take(n),
        forall|i: int| n <= i < s.len() ==> class(#[trigger] s[i]),
        n > 0 ==> !class(s[n - 1]),
    decreases s.len(),
{
    if s.len() > 0 && class(s.last()) {
        let m = lemma_without_trailing(s.drop_last(), class);
        assert(s.drop_last().take(m) =~= s.take(m));
        assert forall|i: int| m <= i < s.len() implies class(#[trigger] s[i]) by {
            if i < s.len() - 1 {
                assert(s.drop_last()[i] == s[i]);
            }
        }
        m
    } else {
        assert(s.take(s.len() as int) =~= s);
        s.len() as int
    }
}

/// Trimming takes white space off both ends of a text, all of it and nothing else.
pub proof fn law_trimming_takes_white_space_off(s: Text) -> (r: (int, int))
    ensures
        0 <= r.0 <= r.1 <= s.len(),
        model::trimmed(s) == s.subrange(r.0, r.1),
        forall|i: int| 0 <= i < r.0 ==> model::is_space(#[trigger] s[i]),
        forall|i: int| r.1 <= i < s.len() ==> model::is_space(#[trigger] s[i]),
        r.0 < r.1 ==> !model::is_space(s[r.0]) && !model::is_space(s[r.1 - 1]),
{
    let class = model::space_class();
    let a = lemma_without_leading(s, class);
    let rest = s.skip(a);
    let n = lemma_without_trailing(rest, class);
    assert(rest.take(n) =~= s.subrange(a, a + n));
    assert forall|i: int| a + n <= i < s.len() implies model::is_space(#[trigger] s[i]) by {
        assert(class(rest[i - a]));
    }
    if n > 0 {
        assert(rest[n - 1] == s[a + n - 1]);
        assert(!class(s[a]));
    }
    (a, a + n)
}

/// A text that begins and ends with no white space is left as it is by trimming, and so is what
/// trimming leaves.
pub proof fn law_trimming_is_done_once(s: Text)
    ensures
        s.len() == 0 || (!model::is_space(s[0]) && !model::is_space(s.last())) ==> model::trimmed(s)
            == s,
        model::trimmed(model::trimmed(s)) == model::trimmed(s),
{
    lemma_trimmed_stays(s);
    let (a, b) = law_trimming_takes_white_space_off(s);
    lemma_trimmed_stays(model::trimmed(s));
}

proof fn lemma_trimmed_stays(s: Text)
    ensures
        s.len() == 0 || (!model::is_space(s[0]) && !model::is_space(s.last())) ==> model::trimmed(s)
            == s,
{
    let (a, b) = law_trimming_takes_white_space_off(s);
    if s.len() == 0 {
        assert(s.subrange(a, b) =~= s);
    } else if !model::is_space(s[0]) && !model::is_space(s.last()) {
        assert(a == 0);
        assert(b == s.len());
        assert(s.subrange(0, s.len() as int) =~= s);
    }
}

// ---- Pieces ----------------------------------------------------------------------------

/// Whether a text has a character.
pub open spec fn has_char(s: Text, c: char) -> bool {
    exists|i: int| 0 <= i < s.len() && #[trigger] s[i] == c
}

proof fn lemma_occurs_char(s: Text, c: char, i: int)
    ensures
        model::occurs_at(s, seq![c], i) <==> 0 <= i < s.len() && s[i] == c,
{
    if 0 <= i < s.len() {
        assert(s.subrange(i, i + 1)[0] == s[i]);
        if s[i] == c {
            assert(s.subrange(i, i + 1) =~= seq![c]);
        }
    }
}

/// A text is split where a character first stands: what precedes it does not have it, and the two
/// parts with the character between them are the text. A text without the character is not split.
pub proof fn law_a_text_is_split_where_a_character_first_stands(s: Text, c: char)
    ensures
        match model::split_once(s, seq![c]) {
            Some((before, after)) => s == before + seq![c] + after && !has_char(before, c),
            None => !has_char(s, c),
        },
{
    model::lemma_first_from(s, seq![c], 0);
    match model::first_from(s, seq![c], 0) {
        Some(i) => {
            lemma_occurs_char(s, c, i);
            let before = s.take(i);
            assert(s =~= before + seq![c] + s.skip(i + 1));
            assert forall|j: int| 0 <= j < before.len() implies #[trigger] before[j] != c by {
                lemma_occurs_char(s, c, j);
                assert(!model::occurs_at(s, seq![c], j));
            }
        },
        None => {
            assert forall|j: int| 0 <= j < s.len() implies #[trigger] s[j] != c by {
                lemma_occurs_char(s, c, j);
                assert(!model::occurs_at(s, seq![c], j));
            }
        },
    }
}

/// Where a part does not have a character, a text that begins with the part and the character is
/// split after the part.
pub proof fn law_splitting_finds_the_first_part(before: Text, c: char, after: Text)
    requires
        !has_char(before, c),
    ensures
        model::split_once(before + seq![c] + after, seq![c]) == Some((before, after)),
{
    let s = before + seq![c] + after;
    let n = before.len() as int;
    law_a_text_is_split_where_a_character_first_stands(s, c);
    model::lemma_first_from(s, seq![c], 0);
    lemma_occurs_char(s, c, n);
    assert(s[n] == c);
    match model::first_from(s, seq![c], 0) {
        Some(i) => {
            lemma_occurs_char(s, c, i);
            if i < n {
                assert(before[i] == s[i]);
            }
            assert(i == n);
            assert(s.take(n) =~= before);
            assert(s.skip(n + 1) =~= after);
        },
        None => {
            assert(model::occurs_at(s, seq![c], n));
        },
    }
}

/// The pieces of a text between the places of a character are the text again where the character
/// is put between them, and none of them has it.
pub proof fn law_pieces_make_the_text(s: Text, c: char)
    ensures
        model::pieces(s, seq![c]).len() > 0,
        glued(model::pieces(s, seq![c]), c) == s,
        forall|i: int|
            0 <= i < model::pieces(s, seq![c]).len() ==> !has_char(
                #[trigger] model::pieces(s, seq![c])[i],
                c,
            ),
    decreases s.len(),
{
    law_a_text_is_split_where_a_character_first_stands(s, c);
    match model::split_once(s, seq![c]) {
        Some((before, after)) => {
            assert(after.len() < s.len());
            law_pieces_make_the_text(after, c);
            let rest = model::pieces(after, seq![c]);
            let all = model::pieces(s, seq![c]);
            assert(all == seq![before] + rest);
            assert(all.skip(1) =~= rest);
            assert forall|i: int| 0 <= i < all.len() implies !has_char(#[trigger] all[i], c) by {
                if i > 0 {
                    assert(all[i] == rest[i - 1]);
                }
            }
        },
        None => {
            let all = model::pieces(s, seq![c]);
            assert(all == seq![s]);
        },
    }
}

/// Parts with a character between them.
pub open spec fn glued(parts: Seq<Text>, c: char) -> Text
    decreases parts.len(),
{
    if parts.len() == 0 {
        seq![]
    } else if parts.len() == 1 {
        parts[0]
    } else {
        parts[0] + seq![c] + glued(parts.skip(1), c)
    }
}

/// Parts that do not have a character are the pieces of the text that they make with the
/// character between them.
pub proof fn law_parts_are_the_pieces(parts: Seq<Text>, c: char)
    requires
        parts.len() > 0,
        forall|i: int| 0 <= i < parts.len() ==> !has_char(#[trigger] parts[i], c),
    ensures
        model::pieces(glued(parts, c), seq![c]) == parts,
    decreases parts.len(),
{
    let s = glued(parts, c);
    if parts.len() == 1 {
        law_a_text_is_split_where_a_character_first_stands(s, c);
        if let Some((before, after)) = model::split_once(s, seq![c]) {
            assert(s[before.len() as int] == c);
        }
        assert(model::pieces(s, seq![c]) =~= parts);
    } else {
        let rest = parts.skip(1);
        assert forall|i: int| 0 <= i < rest.len() implies !has_char(#[trigger] rest[i], c) by {
            assert(rest[i] == parts[i + 1]);
        }
        law_parts_are_the_pieces(rest, c);
        law_splitting_finds_the_first_part(parts[0], c, glued(rest, c));
        assert(seq![parts[0]] + rest =~= parts);
    }
}

/// A text that begins with characters of a class, and then has one that is not of it, is split
/// there.
pub proof fn lemma_leading(first: Text, rest: Text, class: spec_fn(char) -> bool)
    requires
        forall|i: int| 0 <= i < first.len() ==> class(#[trigger] first[i]),
        rest.len() == 0 || !class(rest[0]),
    ensures
        model::leading(first + rest, class) == first,
        model::without_leading(first + rest, class) == rest,
    decreases first.len(),
{
    let s = first + rest;
    if first.len() > 0 {
        let shorter = first.skip(1);
        assert forall|i: int| 0 <= i < shorter.len() implies class(#[trigger] shorter[i]) by {
            assert(class(first[i + 1]));
        }
        lemma_leading(shorter, rest, class);
        assert(s.skip(1) =~= shorter + rest);
        assert(s[0] == first[0] && class(first[0]));
        assert(seq![first[0]] + shorter =~= first);
    } else {
        assert(s =~= rest);
        assert(model::leading(rest, class) =~= first);
    }
}

// ---- Numbers ---------------------------------------------------------------------------

proof fn lemma_decimal_digits(n: nat)
    ensures
        model::decimal(n).len() > 0,
        model::all_chars(model::decimal(n), model::digit_class()),
        model::digits_value(model::decimal(n)) == n,
    decreases n,
{
    let s = model::decimal(n);
    let digit = model::digit_char(n % 10);
    assert(digit as u32 == 48 + n % 10);
    if n < 10 {
        assert(s.drop_last() =~= Seq::<char>::empty());
        reveal_with_fuel(model::digits_value, 2);
    } else {
        lemma_decimal_digits(n / 10);
        let rest = model::decimal(n / 10);
        assert(s.drop_last() =~= rest);
        assert forall|i: int| 0 <= i < s.len() implies (model::digit_class())(#[trigger] s[i]) by {
            if i < rest.len() {
                assert(s[i] == rest[i]);
            }
        }
    }
}

/// A number that is written in decimal digits is read back as itself, where it is not too large.
pub proof fn law_numbers_are_read_back(n: nat, max: nat)
    ensures
        n <= max ==> model::parsed_number(model::decimal(n), max) == Some(n),
        n > max ==> model::parsed_number(model::decimal(n), max) is None,
        n < 10 ==> model::decimal(n).len() == 1,
        n > 0 ==> model::decimal(n)[0] != '0',
{
    lemma_decimal_digits(n);
    lemma_no_leading_zero(n);
    let s = model::decimal(n);
    assert((model::digit_class())(s[0]));
}

proof fn lemma_no_leading_zero(n: nat)
    ensures
        n > 0 ==> model::decimal(n)[0] != '0',
        model::decimal(n).len() > 0,
    decreases n,
{
    if n >= 10 {
        lemma_no_leading_zero(n / 10);
        assert(model::decimal(n)[0] == model::decimal(n / 10)[0]);
    } else if n > 0 {
        assert(model::digit_char(n) as u32 == 48 + n);
    }
}

/// What is not made of decimal digits, but for a plus sign in front, is not read as a number.
pub proof fn law_only_digits_are_a_number(s: Text, max: nat, i: int)
    requires
        0 <= i < s.len(),
        !model::is_digit(s[i]),
        i > 0 || s[0] != '+' || s.len() == 1,
    ensures
        model::parsed_number(s, max) is None,
{
    if s[0] == '+' {
        let digits = s.skip(1);
        if digits.len() > 0 && i > 0 {
            assert(digits[i - 1] == s[i]);
            assert(!(model::digit_class())(digits[i - 1]));
        }
    } else {
        assert(!(model::digit_class())(s[i]));
    }
}

// ---- Joining ---------------------------------------------------------------------------

/// Joining puts the separator between neighbours, and neither before the first nor after the
/// last.
pub proof fn law_joining_puts_separators_between(parts: Seq<Text>, separator: Text, part: Text)
    ensures
        model::joined(seq![], separator) == Seq::<char>::empty(),
        model::joined(seq![part], separator) == part,
        parts.len() > 0 ==> model::joined(parts.push(part), separator) == model::joined(
            parts,
            separator,
        ) + separator + part,
{
    assert(parts.push(part).drop_last() =~= parts);
}

/// Padding fills a text up to a width, on the left and with one character, and leaves a text that
/// is wide enough alone.
pub proof fn law_padding_fills_up_on_the_left(s: Text, fill: char, width: nat)
    ensures
        ({
            let padded = model::padded_left(s, fill, width);
            &&& s.len() >= width ==> padded == s
            &&& s.len() < width ==> padded.len() == width && padded.skip(width - s.len()) == s
                && forall|i: int| 0 <= i < width - s.len() ==> #[trigger] padded[i] == fill
        }),
{
    let padded = model::padded_left(s, fill, width);
    if s.len() < width {
        assert(padded.skip(width - s.len()) =~= s);
    }
}

// ---- Lines -----------------------------------------------------------------------------

/// A line ends at its line feed, and a carriage return before the feed is not part of it. What
/// follows are the other lines. A text without a line feed is one line, and an empty one none.
pub proof fn law_lines_end_at_line_feeds(line: Text, rest: Text)
    requires
        !has_char(line, '\n'),
    ensures
        line.len() == 0 || line.last() != '\r' ==> model::lines(line + seq!['\n'] + rest)
            == seq![line] + model::lines(rest),
        model::lines(line + seq!['\r', '\n'] + rest) == seq![line] + model::lines(rest),
        line.len() > 0 ==> model::lines(line) == seq![line],
        model::lines(seq![]) == Seq::<Text>::empty(),
{
    law_splitting_finds_the_first_part(line, '\n', rest);
    let returned = line + seq!['\r'];
    assert forall|i: int| 0 <= i < returned.len() implies #[trigger] returned[i] != '\n' by {
        if i < line.len() {
            assert(returned[i] == line[i]);
        }
    }
    law_splitting_finds_the_first_part(returned, '\n', rest);
    assert(line + seq!['\r', '\n'] + rest =~= returned + seq!['\n'] + rest);
    assert(returned.drop_last() =~= line);
    law_a_text_is_split_where_a_character_first_stands(line, '\n');
    if let Some((before, after)) = model::split_once(line, seq!['\n']) {
        assert(line[before.len() as int] == '\n');
    }
}

/// A negative number is written as a minus sign and the digits of its amount, any other by its
/// digits alone.
pub proof fn law_a_negative_number_has_a_sign(n: int, max: nat)
    requires
        -max <= n <= max,
    ensures
        n >= 0 ==> model::parsed_number(model::signed_decimal(n), max) == Some(n as nat),
        n < 0 ==> model::signed_decimal(n)[0] == '-' && model::parsed_number(
            model::signed_decimal(n).skip(1),
            max,
        ) == Some((-n) as nat),
{
    if n >= 0 {
        law_numbers_are_read_back(n as nat, max);
    } else {
        law_numbers_are_read_back((-n) as nat, max);
        assert(model::signed_decimal(n).skip(1) =~= model::decimal((-n) as nat));
    }
}

} // verus!
