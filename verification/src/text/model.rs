//! What the operations of this module mean, over sequences of characters.
use vstd::prelude::*;

verus! {

/// Text in specifications.
pub type Text = Seq<char>;

/// The views of a sequence of strings.
pub open spec fn texts(values: Seq<String>) -> Seq<Text> {
    values.map_values(|value: String| value@)
}

/// The view of an optional string.
pub open spec fn opt_text(value: Option<String>) -> Option<Text> {
    match value {
        Some(text) => Some(text@),
        None => None,
    }
}

/// The view of an optional string slice.
pub open spec fn opt_str(value: Option<&str>) -> Option<Text> {
    match value {
        Some(text) => Some(text@),
        None => None,
    }
}

/// The view of a result whose error is a message.
pub open spec fn with_message<T>(value: Result<T, String>) -> Result<T, Text> {
    match value {
        Ok(inner) => Ok(inner),
        Err(message) => Err(message@),
    }
}

/// The view of a result that holds text either way.
pub open spec fn text_result(value: Result<String, String>) -> Result<Text, Text> {
    match value {
        Ok(text) => Ok(text@),
        Err(message) => Err(message@),
    }
}

/// The characters with the Unicode property White_Space.
pub open spec fn is_space(c: char) -> bool {
    ||| '\u{9}' <= c <= '\u{d}'
    ||| c == ' '
    ||| c == '\u{85}'
    ||| c == '\u{a0}'
    ||| c == '\u{1680}'
    ||| '\u{2000}' <= c <= '\u{200a}'
    ||| c == '\u{2028}'
    ||| c == '\u{2029}'
    ||| c == '\u{202f}'
    ||| c == '\u{205f}'
    ||| c == '\u{3000}'
}

/// The characters of the general category Cc.
pub open spec fn is_control(c: char) -> bool {
    c <= '\u{1f}' || '\u{7f}' <= c <= '\u{9f}'
}

pub open spec fn is_digit(c: char) -> bool {
    '0' <= c <= '9'
}

pub open spec fn is_letter(c: char) -> bool {
    'a' <= c <= 'z' || 'A' <= c <= 'Z'
}

pub open spec fn is_alphanumeric(c: char) -> bool {
    is_letter(c) || is_digit(c)
}

pub open spec fn is_hex_digit(c: char) -> bool {
    is_digit(c) || 'a' <= c <= 'f' || 'A' <= c <= 'F'
}

pub open spec fn lower_char(c: char) -> char {
    if 'A' <= c <= 'Z' {
        (c as u32 + 32) as char
    } else {
        c
    }
}

pub open spec fn upper_char(c: char) -> char {
    if 'a' <= c <= 'z' {
        (c as u32 - 32) as char
    } else {
        c
    }
}

/// ASCII lower case.
pub open spec fn lower(s: Text) -> Text {
    s.map_values(|c: char| lower_char(c))
}

/// ASCII upper case.
pub open spec fn upper(s: Text) -> Text {
    s.map_values(|c: char| upper_char(c))
}

/// Equality that does not tell ASCII letters' cases apart.
pub open spec fn same_ignoring_case(a: Text, b: Text) -> bool {
    lower(a) == lower(b)
}

/// An optional text that is there and equals `b` up to ASCII case.
pub open spec fn is_ignoring_case(a: Option<Text>, b: Text) -> bool {
    a matches Some(text) && same_ignoring_case(text, b)
}

pub open spec fn all_chars(s: Text, class: spec_fn(char) -> bool) -> bool {
    forall|i: int| 0 <= i < s.len() ==> class(#[trigger] s[i])
}

pub open spec fn without_leading(s: Text, class: spec_fn(char) -> bool) -> Text
    decreases s.len(),
{
    if s.len() > 0 && class(s[0]) {
        without_leading(s.skip(1), class)
    } else {
        s
    }
}

pub open spec fn without_trailing(s: Text, class: spec_fn(char) -> bool) -> Text
    decreases s.len(),
{
    if s.len() > 0 && class(s.last()) {
        without_trailing(s.drop_last(), class)
    } else {
        s
    }
}

/// The longest prefix made of characters of a class.
pub open spec fn leading(s: Text, class: spec_fn(char) -> bool) -> Text
    decreases s.len(),
{
    if s.len() > 0 && class(s[0]) {
        seq![s[0]] + leading(s.skip(1), class)
    } else {
        seq![]
    }
}

pub open spec fn space_class() -> spec_fn(char) -> bool {
    |c: char| is_space(c)
}

pub open spec fn word_class() -> spec_fn(char) -> bool {
    |c: char| !is_space(c)
}

pub open spec fn hex_class() -> spec_fn(char) -> bool {
    |c: char| is_hex_digit(c)
}

pub open spec fn one_class(wanted: char) -> spec_fn(char) -> bool {
    |c: char| c == wanted
}

/// Text without the white space around it.
pub open spec fn trimmed(s: Text) -> Text {
    without_trailing(without_leading(s, space_class()), space_class())
}

/// Text without the copies of one character around it.
pub open spec fn trimmed_of(s: Text, c: char) -> Text {
    without_trailing(without_leading(s, one_class(c)), one_class(c))
}

pub open spec fn occurs_at(s: Text, pattern: Text, i: int) -> bool {
    0 <= i && i + pattern.len() <= s.len() && s.subrange(i, i + pattern.len()) == pattern
}

/// Whether the pattern stands somewhere in the text.
pub open spec fn contains(s: Text, pattern: Text) -> bool {
    exists|i: int| occurs_at(s, pattern, i)
}

/// The first place at or after `from` where the pattern stands.
pub open spec fn first_from(s: Text, pattern: Text, from: int) -> Option<int>
    decreases s.len() - from + 1,
{
    if from < 0 || from + pattern.len() > s.len() {
        None
    } else if s.subrange(from, from + pattern.len()) == pattern {
        Some(from)
    } else {
        first_from(s, pattern, from + 1)
    }
}

/// The last place at or before `from` where the pattern stands.
pub open spec fn last_upto(s: Text, pattern: Text, from: int) -> Option<int>
    decreases from + 1,
{
    if from < 0 {
        None
    } else if occurs_at(s, pattern, from) {
        Some(from)
    } else {
        last_upto(s, pattern, from - 1)
    }
}

/// What stands before and after the first occurrence of the pattern.
pub open spec fn split_once(s: Text, pattern: Text) -> Option<(Text, Text)> {
    match first_from(s, pattern, 0) {
        Some(i) => Some((s.take(i), s.skip(i + pattern.len()))),
        None => None,
    }
}

pub proof fn lemma_first_from(s: Text, pattern: Text, from: int)
    requires
        0 <= from,
    ensures
        match first_from(s, pattern, from) {
            Some(i) => from <= i && occurs_at(s, pattern, i) && (forall|j: int|
                from <= j < i ==> !occurs_at(s, pattern, j)),
            None => forall|j: int| from <= j ==> !occurs_at(s, pattern, j),
        },
    decreases s.len() - from + 1,
{
    if from + pattern.len() > s.len() {
    } else if s.subrange(from, from + pattern.len()) == pattern {
    } else {
        lemma_first_from(s, pattern, from + 1);
        assert(!occurs_at(s, pattern, from));
    }
}

/// The pieces of a text between the occurrences of a nonempty separator.
pub open spec fn pieces(s: Text, separator: Text) -> Seq<Text>
    decreases s.len(),
    via pieces_shrink
{
    match split_once(s, separator) {
        Some((before, after)) => if separator.len() > 0 {
            seq![before] + pieces(after, separator)
        } else {
            seq![s]
        },
        None => seq![s],
    }
}

#[via_fn]
proof fn pieces_shrink(s: Text, separator: Text) {
    lemma_first_from(s, separator, 0);
}

/// The text with each occurrence of a nonempty pattern replaced, from the left.
pub open spec fn replaced(s: Text, pattern: Text, by: Text) -> Text
    decreases s.len(),
    via replaced_shrinks
{
    match split_once(s, pattern) {
        Some((before, after)) => if pattern.len() > 0 {
            before + by + replaced(after, pattern, by)
        } else {
            s
        },
        None => s,
    }
}

#[via_fn]
proof fn replaced_shrinks(s: Text, pattern: Text, by: Text) {
    lemma_first_from(s, pattern, 0);
}

/// A line without the line feed, or the carriage return and line feed, that ends it.
pub open spec fn line_body(before_feed: Text) -> Text {
    if before_feed.len() > 0 && before_feed.last() == '\r' {
        before_feed.drop_last()
    } else {
        before_feed
    }
}

/// The lines of a text. A line end at the end of the text starts no further line.
pub open spec fn lines(s: Text) -> Seq<Text>
    decreases s.len(),
    via lines_shrink
{
    if s.len() == 0 {
        seq![]
    } else {
        match split_once(s, seq!['\n']) {
            Some((before, after)) => seq![line_body(before)] + lines(after),
            None => seq![s],
        }
    }
}

#[via_fn]
proof fn lines_shrink(s: Text) {
    lemma_first_from(s, seq!['\n'], 0);
}

/// The lines of two texts, one after the other, are those of the one and then those of the other,
/// where the first text ends with a line feed.
pub proof fn lemma_lines_of_both(a: Text, b: Text)
    requires
        a.len() == 0 || a.last() == '\n',
    ensures
        lines(a + b) == lines(a) + lines(b),
    decreases a.len(),
{
    let feed = seq!['\n'];
    let both = a + b;
    if a.len() == 0 {
        assert(both =~= b);
        assert(lines(a) + lines(b) =~= lines(b));
    } else {
        let end = a.len() - 1;
        assert(a.subrange(end, end + 1) =~= feed);
        assert(occurs_at(a, feed, end));
        lemma_first_from(a, feed, 0);
        lemma_first_from(both, feed, 0);
        assert forall|j: int| 0 <= j < a.len() implies occurs_at(both, feed, j) == occurs_at(
            a,
            feed,
            j,
        ) by {
            assert(both.subrange(j, j + 1) =~= a.subrange(j, j + 1));
        }
        assert(occurs_at(both, feed, end));
        let i = first_from(a, feed, 0)->0;
        assert(first_from(both, feed, 0) == Some(i));
        let after = a.skip(i + 1);
        assert(both.take(i) =~= a.take(i));
        assert(both.skip(i + 1) =~= after + b);
        lemma_lines_of_both(after, b);
        let first = seq![line_body(a.take(i))];
        assert(lines(a) == first + lines(after));
        assert(lines(both) == first + lines(after + b));
        assert(first + (lines(after) + lines(b)) =~= (first + lines(after)) + lines(b));
    }
}

/// What follows a prefix.
pub open spec fn after_prefix(s: Text, prefix: Text) -> Option<Text> {
    if prefix.is_prefix_of(s) {
        Some(s.skip(prefix.len() as int))
    } else {
        None
    }
}

/// What precedes a suffix.
pub open spec fn before_suffix(s: Text, suffix: Text) -> Option<Text> {
    if suffix.is_suffix_of(s) {
        Some(s.take(s.len() - suffix.len()))
    } else {
        None
    }
}

/// The first run of characters that are not white space.
pub open spec fn first_word(s: Text) -> Option<Text> {
    let rest = without_leading(s, space_class());
    if rest.len() == 0 {
        None
    } else {
        Some(leading(rest, word_class()))
    }
}

/// The parts with a separator between neighbours.
pub open spec fn joined(parts: Seq<Text>, separator: Text) -> Text
    decreases parts.len(),
{
    if parts.len() == 0 {
        seq![]
    } else if parts.len() == 1 {
        parts[0]
    } else {
        joined(parts.drop_last(), separator) + separator + parts.last()
    }
}

/// The number of UTF-16 code units that encode a character.
pub open spec fn utf16_units(c: char) -> nat {
    if c as u32 >= 0x10000 {
        2
    } else {
        1
    }
}

/// The number of UTF-16 code units that encode a text.
pub open spec fn utf16_len(s: Text) -> nat
    decreases s.len(),
{
    if s.len() == 0 {
        0
    } else {
        utf16_len(s.drop_last()) + utf16_units(s.last())
    }
}

pub open spec fn digit_char(d: nat) -> char {
    ('0' as u32 + d) as char
}

/// A number in decimal digits.
pub open spec fn decimal(n: nat) -> Text
    decreases n,
{
    if n < 10 {
        seq![digit_char(n)]
    } else {
        decimal(n / 10).push(digit_char(n % 10))
    }
}

/// A whole number in decimal digits, with a minus sign in front where it is negative.
pub open spec fn signed_decimal(n: int) -> Text {
    if n < 0 {
        seq!['-'] + decimal((-n) as nat)
    } else {
        decimal(n as nat)
    }
}

pub open spec fn hex_char(d: nat) -> char {
    if d < 10 {
        digit_char(d)
    } else {
        ('a' as u32 + d - 10) as char
    }
}

/// A number in lower-case hexadecimal digits.
pub open spec fn hexadecimal(n: nat) -> Text
    decreases n,
{
    if n < 16 {
        seq![hex_char(n)]
    } else {
        hexadecimal(n / 16).push(hex_char(n % 16))
    }
}

/// A machine word in hexadecimal digits with their prefix, a negative one in two's complement.
pub open spec fn hex_word(n: isize) -> Text {
    seq!['0', 'x'] + hexadecimal(
        if n >= 0 {
            n as nat
        } else {
            (usize::MAX + 1 + n) as nat
        },
    )
}

/// An exit code in a message.
pub open spec fn exit_code(code: Option<i32>) -> Text {
    match code {
        Some(n) => "Some("@ + signed_decimal(n as int) + ")"@,
        None => "None"@,
    }
}

/// The value of a run of decimal digits.
pub open spec fn digits_value(s: Text) -> nat
    decreases s.len(),
{
    if s.len() == 0 {
        0
    } else {
        (digits_value(s.drop_last()) * 10 + (s.last() as u32 - '0' as u32)) as nat
    }
}

pub open spec fn digit_class() -> spec_fn(char) -> bool {
    |c: char| is_digit(c)
}

/// The number that a text states in decimal digits, with an optional plus sign in front,
/// where it is one and is at most `max`.
pub open spec fn parsed_number(s: Text, max: nat) -> Option<nat> {
    let digits = if s.len() > 0 && s[0] == '+' {
        s.skip(1)
    } else {
        s
    };
    if digits.len() > 0 && all_chars(digits, digit_class()) && digits_value(digits) <= max {
        Some(digits_value(digits))
    } else {
        None
    }
}

/// Text of at least `width` characters, filled up with `fill` on the left.
pub open spec fn padded_left(s: Text, fill: char, width: nat) -> Text {
    if s.len() < width {
        Seq::new((width - s.len()) as nat, |i: int| fill) + s
    } else {
        s
    }
}

} // verus!
