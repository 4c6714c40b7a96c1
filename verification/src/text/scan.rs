//! Reading text.
use super::compose::{chars_of, text_of};
use super::model;
use super::model::Text;
use vstd::prelude::*;

verus! {

/// Whether two texts are the same.
pub fn same(a: &str, b: &str) -> (r: bool)
    ensures
        r == (a@ == b@),
{
    let x = chars_of(a);
    let y = chars_of(b);
    if x.len() != y.len() {
        return false;
    }
    let mut i: usize = 0;
    while i < x.len()
        invariant
            i <= x@.len(),
            x@ == a@,
            y@ == b@,
            x@.len() == y@.len(),
            x@.take(i as int) == y@.take(i as int),
        decreases x.len() - i,
    {
        if x[i] != y[i] {
            assert(a@[i as int] != b@[i as int]);
            return false;
        }
        assert(x@.take(i + 1) == x@.take(i as int).push(x@[i as int]));
        assert(y@.take(i + 1) == y@.take(i as int).push(y@[i as int]));
        i += 1;
    }
    assert(x@.take(i as int) == a@);
    assert(y@.take(i as int) == b@);
    true
}

fn lower_of(c: char) -> (r: char)
    ensures
        r == model::lower_char(c),
{
    if 'A' <= c && c <= 'Z' {
        (c as u8 + 32) as char
    } else {
        c
    }
}

/// Whether two texts are the same up to the case of ASCII letters.
pub fn same_any_case(a: &str, b: &str) -> (r: bool)
    ensures
        r == model::same_ignoring_case(a@, b@),
{
    let x = chars_of(a);
    let y = chars_of(b);
    if x.len() != y.len() {
        assert(model::lower(a@).len() != model::lower(b@).len());
        return false;
    }
    let mut i: usize = 0;
    while i < x.len()
        invariant
            i <= x@.len(),
            x@ == a@,
            y@ == b@,
            x@.len() == y@.len(),
            forall|k: int| 0 <= k < i ==> model::lower_char(#[trigger] a@[k]) == model::lower_char(b@[k]),
        decreases x.len() - i,
    {
        if lower_of(x[i]) != lower_of(y[i]) {
            assert(model::lower(a@)[i as int] != model::lower(b@)[i as int]);
            return false;
        }
        i += 1;
    }
    assert(model::lower(a@) =~= model::lower(b@));
    true
}

/// Whether an optional text is there and equals another up to the case of ASCII letters.
pub fn opt_is_any_case(a: Option<&str>, b: &str) -> (r: bool)
    ensures
        r == model::is_ignoring_case(model::opt_str(a), b@),
{
    match a {
        Some(text) => same_any_case(text, b),
        None => false,
    }
}

/// Whether a character is white space.
pub fn space(c: char) -> (r: bool)
    ensures
        r == model::is_space(c),
{
    ('\u{9}' <= c && c <= '\u{d}') || c == ' ' || c == '\u{85}' || c == '\u{a0}' || c == '\u{1680}'
        || ('\u{2000}' <= c && c <= '\u{200a}') || c == '\u{2028}' || c == '\u{2029}' || c
        == '\u{202f}' || c == '\u{205f}' || c == '\u{3000}'
}

/// Whether a character is a control character.
pub fn control(c: char) -> (r: bool)
    ensures
        r == model::is_control(c),
{
    c <= '\u{1f}' || ('\u{7f}' <= c && c <= '\u{9f}')
}

/// Whether a character is an ASCII letter.
pub fn letter(c: char) -> (r: bool)
    ensures
        r == model::is_letter(c),
{
    ('a' <= c && c <= 'z') || ('A' <= c && c <= 'Z')
}

/// Whether a character is an ASCII letter or digit.
pub fn alphanumeric(c: char) -> (r: bool)
    ensures
        r == model::is_alphanumeric(c),
{
    letter(c) || ('0' <= c && c <= '9')
}

/// Whether a character is a hexadecimal digit.
pub fn hex_digit(c: char) -> (r: bool)
    ensures
        r == model::is_hex_digit(c),
{
    ('0' <= c && c <= '9') || ('a' <= c && c <= 'f') || ('A' <= c && c <= 'F')
}

/// The classes of characters that the scanning functions know.
#[derive(Clone, Copy)]
pub enum Class {
    Space,
    Word,
    Hex,
    One(char),
}

impl Class {
    pub open spec fn members(self) -> spec_fn(char) -> bool {
        match self {
            Class::Space => model::space_class(),
            Class::Word => model::word_class(),
            Class::Hex => model::hex_class(),
            Class::One(c) => model::one_class(c),
        }
    }

    fn holds(self, c: char) -> (r: bool)
        ensures
            r == (self.members())(c),
    {
        match self {
            Class::Space => space(c),
            Class::Word => !space(c),
            Class::Hex => hex_digit(c),
            Class::One(wanted) => c == wanted,
        }
    }
}

proof fn lemma_skip_leading(s: Text, class: spec_fn(char) -> bool, i: int)
    requires
        0 <= i <= s.len(),
        forall|k: int| 0 <= k < i ==> class(#[trigger] s[k]),
        i < s.len() ==> !class(s[i]),
    ensures
        model::without_leading(s, class) == s.skip(i),
        model::leading(s, class) == s.take(i),
    decreases i,
{
    if i == 0 {
        assert(s.skip(0) == s);
    } else {
        assert(forall|k: int| 0 <= k < i - 1 ==> class(#[trigger] s.skip(1)[k])) by {
            assert forall|k: int| 0 <= k < i - 1 implies class(#[trigger] s.skip(1)[k]) by {
                assert(s.skip(1)[k] == s[k + 1]);
            }
        }
        lemma_skip_leading(s.skip(1), class, i - 1);
        assert(s.skip(1).skip(i - 1) == s.skip(i));
        assert(seq![s[0]] + s.skip(1).take(i - 1) == s.take(i));
    }
}

proof fn lemma_drop_trailing(s: Text, class: spec_fn(char) -> bool, i: int)
    requires
        0 <= i <= s.len(),
        forall|k: int| i <= k < s.len() ==> class(#[trigger] s[k]),
        i > 0 ==> !class(s[i - 1]),
    ensures
        model::without_trailing(s, class) == s.take(i),
    decreases s.len(),
{
    if s.len() == i {
        assert(s.take(i) == s);
    } else {
        let shorter = s.drop_last();
        assert forall|k: int| i <= k < shorter.len() implies class(#[trigger] shorter[k]) by {
            assert(shorter[k] == s[k]);
        }
        lemma_drop_trailing(shorter, class, i);
        assert(shorter.take(i) == s.take(i));
    }
}

fn leading_count(chars: &Vec<char>, class: Class) -> (r: usize)
    ensures
        r <= chars@.len(),
        model::without_leading(chars@, class.members()) == chars@.skip(r as int),
        model::leading(chars@, class.members()) == chars@.take(r as int),
{
    let mut i: usize = 0;
    while i < chars.len() && class.holds(chars[i])
        invariant
            i <= chars@.len(),
            forall|k: int| 0 <= k < i ==> (class.members())(#[trigger] chars@[k]),
        decreases chars.len() - i,
    {
        i += 1;
    }
    proof {
        lemma_skip_leading(chars@, class.members(), i as int);
    }
    i
}

/// The text without the leading characters of a class.
pub fn skip_class(text: &str, class: Class) -> (r: String)
    ensures
        r@ == model::without_leading(text@, class.members()),
{
    let chars = chars_of(text);
    let start: usize = leading_count(&chars, class);
    text_of(&chars, start, chars.len())
}

/// The leading characters of a class.
pub fn take_class(text: &str, class: Class) -> (r: String)
    ensures
        r@ == model::leading(text@, class.members()),
{
    let chars = chars_of(text);
    let end: usize = leading_count(&chars, class);
    text_of(&chars, 0, end)
}

/// The text without the leading and trailing characters of a class.
fn trim_class(text: &str, class: Class) -> (r: String)
    ensures
        r@ == model::without_trailing(model::without_leading(text@, class.members()), class.members()),
{
    let chars = chars_of(text);
    let start: usize = leading_count(&chars, class);
    let mut end: usize = chars.len();
    while end > start && class.holds(chars[end - 1])
        invariant
            start <= end <= chars@.len(),
            forall|k: int| end <= k < chars@.len() ==> (class.members())(#[trigger] chars@[k]),
        decreases end,
    {
        end -= 1;
    }
    proof {
        let rest = chars@.skip(start as int);
        assert forall|k: int| end - start <= k < rest.len() implies (class.members())(
            #[trigger] rest[k],
        ) by {
            assert(rest[k] == chars@[k + start]);
        }
        assert(end > start ==> rest[end - start - 1] == chars@[end - 1]);
        lemma_drop_trailing(rest, class.members(), end - start);
        assert(rest.take(end - start) == chars@.subrange(start as int, end as int));
    }
    text_of(&chars, start, end)
}

/// The text without the white space around it.
pub fn trim(text: &str) -> (r: String)
    ensures
        r@ == model::trimmed(text@),
{
    trim_class(text, Class::Space)
}

/// The text without the copies of a character around it.
pub fn trim_char(text: &str, c: char) -> (r: String)
    ensures
        r@ == model::trimmed_of(text@, c),
{
    trim_class(text, Class::One(c))
}

/// The first run of characters that are not white space.
pub fn word(text: &str) -> (r: Option<String>)
    ensures
        model::opt_text(r) == model::first_word(text@),
{
    let rest = skip_class(text, Class::Space);
    if rest.as_str().is_empty() {
        None
    } else {
        Some(take_class(rest.as_str(), Class::Word))
    }
}

fn stands_at(chars: &Vec<char>, pattern: &Vec<char>, at: usize) -> (r: bool)
    requires
        at + pattern@.len() <= chars@.len(),
    ensures
        r == (chars@.subrange(at as int, at + pattern@.len()) == pattern@),
{
    let count: usize = chars.len();
    let mut k: usize = 0;
    while k < pattern.len()
        invariant
            k <= pattern@.len(),
            at + pattern@.len() <= count == chars@.len(),
            forall|j: int| 0 <= j < k ==> #[trigger] pattern@[j] == chars@[at + j],
        decreases pattern.len() - k,
    {
        if chars[at + k] != pattern[k] {
            assert(chars@.subrange(at as int, at + pattern@.len())[k as int] == chars@[at + k]);
            return false;
        }
        k += 1;
    }
    assert(chars@.subrange(at as int, at + pattern@.len()) =~= pattern@);
    true
}

fn find_from(chars: &Vec<char>, pattern: &Vec<char>, from: usize) -> (r: Option<usize>)
    requires
        from <= chars@.len(),
    ensures
        match r {
            Some(i) => model::first_from(chars@, pattern@, from as int) == Some(i as int) && i
                + pattern@.len() <= chars@.len(),
            None => model::first_from(chars@, pattern@, from as int) is None,
        },
{
    let mut i: usize = from;
    loop
        invariant
            i <= chars@.len(),
            model::first_from(chars@, pattern@, from as int) == model::first_from(chars@, pattern@, i as int),
        decreases chars@.len() - i + 1,
    {
        if pattern.len() > chars.len() - i {
            return None;
        }
        if stands_at(chars, pattern, i) {
            return Some(i);
        }
        if i == chars.len() {
            assert(chars@.subrange(i as int, i + pattern@.len()) =~= pattern@);
            return None;
        }
        i += 1;
    }
}

/// What stands before and after the first occurrence of the pattern.
pub fn split_at_first(text: &str, pattern: &str) -> (r: Option<(String, String)>)
    ensures
        match r {
            Some((before, after)) => model::split_once(text@, pattern@) == Some((before@, after@)),
            None => model::split_once(text@, pattern@) is None,
        },
{
    let chars = chars_of(text);
    let wanted = chars_of(pattern);
    let count: usize = chars.len();
    match find_from(&chars, &wanted, 0) {
        Some(i) => {
            let after: usize = i + wanted.len();
            assert(chars@.subrange(0, i as int) == chars@.take(i as int));
            assert(chars@.subrange(after as int, chars@.len() as int) == chars@.skip(after as int));
            Some((text_of(&chars, 0, i), text_of(&chars, after, count)))
        },
        None => None,
    }
}

/// Whether the pattern stands somewhere in the text.
pub fn has(text: &str, pattern: &str) -> (r: bool)
    ensures
        r == model::contains(text@, pattern@),
{
    let chars = chars_of(text);
    let wanted = chars_of(pattern);
    proof {
        model::lemma_first_from(text@, pattern@, 0);
    }
    match find_from(&chars, &wanted, 0) {
        Some(i) => {
            assert(model::occurs_at(text@, pattern@, i as int));
            true
        },
        None => false,
    }
}

/// What stands before and after the last occurrence of the pattern.
pub fn split_at_last(text: &str, pattern: &str) -> (r: Option<(String, String)>)
    ensures
        match r {
            Some((before, after)) => model::last_upto(text@, pattern@, text@.len() as int) matches Some(i)
                && before@ == text@.take(i) && after@ == text@.skip(i + pattern@.len()),
            None => model::last_upto(text@, pattern@, text@.len() as int) is None,
        },
{
    let chars = chars_of(text);
    let wanted = chars_of(pattern);
    let mut i: usize = chars.len();
    loop
        invariant
            i <= chars@.len(),
            chars@ == text@,
            wanted@ == pattern@,
            model::last_upto(text@, pattern@, text@.len() as int) == model::last_upto(text@, pattern@, i as int),
        decreases i,
    {
        if wanted.len() <= chars.len() - i && stands_at(&chars, &wanted, i) {
            assert(model::occurs_at(text@, pattern@, i as int));
            let after: usize = i + wanted.len();
            assert(chars@.subrange(0, i as int) == chars@.take(i as int));
            assert(chars@.subrange(after as int, chars@.len() as int) == chars@.skip(after as int));
            return Some((text_of(&chars, 0, i), text_of(&chars, after, chars.len())));
        }
        assert(!model::occurs_at(text@, pattern@, i as int));
        if i == 0 {
            assert(model::last_upto(text@, pattern@, -1) is None);
            return None;
        }
        i -= 1;
    }
}

/// What follows a prefix.
pub fn strip_start(text: &str, prefix: &str) -> (r: Option<String>)
    ensures
        model::opt_text(r) == model::after_prefix(text@, prefix@),
{
    let chars = chars_of(text);
    let wanted = chars_of(prefix);
    if wanted.len() <= chars.len() && stands_at(&chars, &wanted, 0) {
        assert(prefix@.is_prefix_of(text@));
        assert(chars@.subrange(wanted@.len() as int, chars@.len() as int) == chars@.skip(
            wanted@.len() as int,
        ));
        Some(text_of(&chars, wanted.len(), chars.len()))
    } else {
        assert(!prefix@.is_prefix_of(text@));
        None
    }
}

/// What precedes a suffix.
pub fn strip_end(text: &str, suffix: &str) -> (r: Option<String>)
    ensures
        model::opt_text(r) == model::before_suffix(text@, suffix@),
{
    let chars = chars_of(text);
    let wanted = chars_of(suffix);
    if wanted.len() <= chars.len() && stands_at(&chars, &wanted, chars.len() - wanted.len()) {
        assert(suffix@.is_suffix_of(text@));
        assert(chars@.subrange(0, chars@.len() - wanted@.len()) == chars@.take(
            chars@.len() - wanted@.len(),
        ));
        Some(text_of(&chars, 0, chars.len() - wanted.len()))
    } else {
        assert(!suffix@.is_suffix_of(text@));
        None
    }
}

proof fn lemma_pieces_step(s: Text, separator: Text)
    requires
        separator.len() > 0,
    ensures
        match model::split_once(s, separator) {
            Some((before, after)) => model::pieces(s, separator) == seq![before] + model::pieces(
                after,
                separator,
            ) && after.len() < s.len(),
            None => model::pieces(s, separator) == seq![s],
        },
{
    model::lemma_first_from(s, separator, 0);
}

/// The pieces of a text between the occurrences of a separator.
pub fn split(text: &str, separator: &str) -> (r: Vec<String>)
    requires
        separator@.len() > 0,
    ensures
        model::texts(r@) == model::pieces(text@, separator@),
{
    let mut found: Vec<String> = Vec::new();
    let mut rest = text.to_owned();
    loop
        invariant
            separator@.len() > 0,
            model::texts(found@) + model::pieces(rest@, separator@) == model::pieces(text@, separator@),
        decreases rest@.len(),
    {
        proof {
            lemma_pieces_step(rest@, separator@);
        }
        match split_at_first(rest.as_str(), separator) {
            Some((before, after)) => {
                let ghost earlier = model::texts(found@);
                found.push(before);
                assert(model::texts(found@) == earlier + seq![before@]);
                assert(earlier + (seq![before@] + model::pieces(after@, separator@)) == (earlier
                    + seq![before@]) + model::pieces(after@, separator@));
                rest = after;
            },
            None => {
                let ghost earlier = model::texts(found@);
                let ghost last = rest@;
                found.push(rest);
                assert(model::texts(found@) == earlier + seq![last]);
                return found;
            },
        }
    }
}

proof fn lemma_lines_step(s: Text)
    requires
        s.len() > 0,
    ensures
        match model::split_once(s, seq!['\n']) {
            Some((before, after)) => model::lines(s) == seq![model::line_body(before)] + model::lines(after)
                && after.len() < s.len(),
            None => model::lines(s) == seq![s],
        },
{
    model::lemma_first_from(s, seq!['\n'], 0);
}

/// The lines of a text.
pub fn lines_of(text: &str) -> (r: Vec<String>)
    ensures
        model::texts(r@) == model::lines(text@),
{
    let mut found: Vec<String> = Vec::new();
    let mut rest = text.to_owned();
    while !rest.as_str().is_empty()
        invariant
            model::texts(found@) + model::lines(rest@) == model::lines(text@),
        decreases rest@.len(),
    {
        proof {
            lemma_lines_step(rest@);
            reveal_strlit("\n");
            assert("\n"@ == seq!['\n']);
        }
        let ghost earlier = model::texts(found@);
        match split_at_first(rest.as_str(), "\n") {
            Some((before, after)) => {
                let body = without_carriage_return(before.as_str());
                found.push(body);
                assert(model::texts(found@) == earlier + seq![body@]);
                assert(earlier + (seq![body@] + model::lines(after@)) == (earlier + seq![body@]) + model::lines(
                    after@,
                ));
                rest = after;
            },
            None => {
                let ghost last = rest@;
                found.push(rest);
                assert(model::texts(found@) == earlier + seq![last]);
                return found;
            },
        }
    }
    assert(model::lines(rest@) == Seq::<Text>::empty());
    assert(model::texts(found@) + Seq::<Text>::empty() == model::texts(found@));
    found
}

fn without_carriage_return(text: &str) -> (r: String)
    ensures
        r@ == model::line_body(text@),
{
    let chars = chars_of(text);
    let count: usize = chars.len();
    if count > 0 && chars[count - 1] == '\r' {
        assert(chars@.subrange(0, count - 1) == chars@.drop_last());
        text_of(&chars, 0, count - 1)
    } else {
        text.to_owned()
    }
}

proof fn lemma_utf16_grows(s: Text, i: int)
    requires
        0 <= i <= s.len(),
    ensures
        model::utf16_len(s.take(i)) <= model::utf16_len(s),
    decreases s.len(),
{
    if i == s.len() {
        assert(s.take(i) == s);
    } else {
        lemma_utf16_grows(s.drop_last(), i);
        assert(s.drop_last().take(i) == s.take(i));
    }
}

/// Whether more than `limit` UTF-16 code units encode a text.
pub fn utf16_longer_than(text: &str, limit: u32) -> (r: bool)
    ensures
        r == (model::utf16_len(text@) > limit),
{
    let chars = chars_of(text);
    let mut count: u64 = 0;
    let mut i: usize = 0;
    while i < chars.len()
        invariant
            i <= chars@.len(),
            chars@ == text@,
            count == model::utf16_len(text@.take(i as int)),
            count <= limit,
        decreases chars.len() - i,
    {
        assert(text@.take(i + 1).drop_last() == text@.take(i as int));
        if chars[i] as u32 >= 0x10000 {
            count += 2;
        } else {
            count += 1;
        }
        i += 1;
        if count > limit as u64 {
            proof {
                lemma_utf16_grows(text@, i as int);
            }
            return true;
        }
    }
    assert(text@.take(i as int) == text@);
    false
}

} // verus!
