//! Building text.
use super::model;
use super::scan::split_at_first;
use vstd::prelude::*;

verus! {

/// `String::push`: the character is appended.
pub assume_specification[ String::push ](text: &mut String, c: char)
    ensures
        final(text)@ == old(text)@.push(c),
;

/// The characters of a text.
pub fn chars_of(text: &str) -> (r: Vec<char>)
    ensures
        r@ == text@,
{
    let mut chars: Vec<char> = Vec::new();
    for c in it: text.chars()
        invariant
            chars@ == text@.take(it.index()),
            it.seq() == text@,
    {
        chars.push(c);
    }
    chars
}

/// The text of the characters from `start` up to `end`.
pub fn text_of(chars: &Vec<char>, start: usize, end: usize) -> (r: String)
    requires
        start <= end <= chars@.len(),
    ensures
        r@ == chars@.subrange(start as int, end as int),
{
    let mut text = String::new();
    let mut i: usize = start;
    while i < end
        invariant
            start <= i <= end <= chars@.len(),
            text@ == chars@.subrange(start as int, i as int),
        decreases end - i,
    {
        text.push(chars[i]);
        i += 1;
        assert(text@ == chars@.subrange(start as int, i as int));
    }
    text
}

/// A copy of a text.
pub fn copy(text: &str) -> (r: String)
    ensures
        r@ == text@,
{
    text.to_owned()
}

/// A copy of an optional text.
pub fn copy_opt(text: &Option<String>) -> (r: Option<String>)
    ensures
        model::opt_text(r) == model::opt_text(*text),
{
    match text {
        Some(inner) => Some(inner.clone()),
        None => None,
    }
}

/// An optional text as an optional slice.
pub fn as_opt_str(text: &Option<String>) -> (r: Option<&str>)
    ensures
        model::opt_str(r) == model::opt_text(*text),
{
    match text {
        Some(inner) => Some(inner.as_str()),
        None => None,
    }
}

/// An owned copy of an optional slice.
pub fn own_opt(text: Option<&str>) -> (r: Option<String>)
    ensures
        model::opt_text(r) == model::opt_str(text),
{
    match text {
        Some(inner) => Some(inner.to_owned()),
        None => None,
    }
}

/// A copy of a list of texts.
pub fn copy_all(values: &Vec<String>) -> (r: Vec<String>)
    ensures
        model::texts(r@) == model::texts(values@),
{
    let mut copies: Vec<String> = Vec::new();
    let mut i: usize = 0;
    while i < values.len()
        invariant
            i <= values@.len(),
            model::texts(copies@) == model::texts(values@.take(i as int)),
        decreases values.len() - i,
    {
        copies.push(values[i].clone());
        assert(model::texts(values@.take(i + 1)) == model::texts(values@.take(i as int)).push(values@[i as int]@));
        i += 1;
    }
    assert(values@.take(i as int) == values@);
    copies
}

/// Two texts, one after the other.
pub fn concat2(a: &str, b: &str) -> (r: String)
    ensures
        r@ == a@ + b@,
{
    let mut text = a.to_owned();
    text.append(b);
    text
}

pub fn concat3(a: &str, b: &str, c: &str) -> (r: String)
    ensures
        r@ == a@ + b@ + c@,
{
    let mut text = a.to_owned();
    text.append(b);
    text.append(c);
    text
}

pub fn concat4(a: &str, b: &str, c: &str, d: &str) -> (r: String)
    ensures
        r@ == a@ + b@ + c@ + d@,
{
    let mut text = a.to_owned();
    text.append(b);
    text.append(c);
    text.append(d);
    text
}

pub fn concat5(a: &str, b: &str, c: &str, d: &str, e: &str) -> (r: String)
    ensures
        r@ == a@ + b@ + c@ + d@ + e@,
{
    let mut text = a.to_owned();
    text.append(b);
    text.append(c);
    text.append(d);
    text.append(e);
    text
}

pub fn concat6(a: &str, b: &str, c: &str, d: &str, e: &str, f: &str) -> (r: String)
    ensures
        r@ == a@ + b@ + c@ + d@ + e@ + f@,
{
    let mut text = a.to_owned();
    text.append(b);
    text.append(c);
    text.append(d);
    text.append(e);
    text.append(f);
    text
}

pub fn concat7(a: &str, b: &str, c: &str, d: &str, e: &str, f: &str, g: &str) -> (r: String)
    ensures
        r@ == a@ + b@ + c@ + d@ + e@ + f@ + g@,
{
    let mut text = a.to_owned();
    text.append(b);
    text.append(c);
    text.append(d);
    text.append(e);
    text.append(f);
    text.append(g);
    text
}

/// The parts with a separator between neighbours.
pub fn join(parts: &Vec<String>, separator: &str) -> (r: String)
    ensures
        r@ == model::joined(model::texts(parts@), separator@),
{
    let mut text = String::new();
    let mut i: usize = 0;
    while i < parts.len()
        invariant
            i <= parts@.len(),
            text@ == model::joined(model::texts(parts@.take(i as int)), separator@),
        decreases parts.len() - i,
    {
        if i > 0 {
            text.append(separator);
        }
        text.append(parts[i].as_str());
        proof {
            let longer = model::texts(parts@.take(i + 1));
            assert(longer.drop_last() == model::texts(parts@.take(i as int)));
            assert(longer.last() == parts@[i as int]@);
            if i == 0 {
                assert(text@ == parts@[0]@);
            }
        }
        i += 1;
    }
    assert(parts@.take(i as int) == parts@);
    text
}

/// ASCII lower case.
pub fn to_lower(text: &str) -> (r: String)
    ensures
        r@ == model::lower(text@),
{
    let chars = chars_of(text);
    let mut out = String::new();
    let mut i: usize = 0;
    while i < chars.len()
        invariant
            i <= chars@.len(),
            chars@ == text@,
            out@ == model::lower(text@.take(i as int)),
        decreases chars.len() - i,
    {
        let c = chars[i];
        if 'A' <= c && c <= 'Z' {
            out.push((c as u8 + 32) as char);
        } else {
            out.push(c);
        }
        assert(text@.take(i + 1) == text@.take(i as int).push(c));
        i += 1;
        assert(out@ == model::lower(text@.take(i as int)));
    }
    assert(text@.take(i as int) == text@);
    out
}

/// ASCII upper case.
pub fn to_upper(text: &str) -> (r: String)
    ensures
        r@ == model::upper(text@),
{
    let chars = chars_of(text);
    let mut out = String::new();
    let mut i: usize = 0;
    while i < chars.len()
        invariant
            i <= chars@.len(),
            chars@ == text@,
            out@ == model::upper(text@.take(i as int)),
        decreases chars.len() - i,
    {
        let c = chars[i];
        if 'a' <= c && c <= 'z' {
            out.push((c as u8 - 32) as char);
        } else {
            out.push(c);
        }
        assert(text@.take(i + 1) == text@.take(i as int).push(c));
        i += 1;
        assert(out@ == model::upper(text@.take(i as int)));
    }
    assert(text@.take(i as int) == text@);
    out
}

/// The text with each occurrence of a pattern replaced, from the left.
pub fn replace(text: &str, pattern: &str, by: &str) -> (r: String)
    requires
        pattern@.len() > 0,
    ensures
        r@ == model::replaced(text@, pattern@, by@),
{
    let mut done = String::new();
    let mut rest = text.to_owned();
    loop
        invariant
            pattern@.len() > 0,
            done@ + model::replaced(rest@, pattern@, by@) == model::replaced(text@, pattern@, by@),
        decreases rest@.len(),
    {
        match split_at_first(rest.as_str(), pattern) {
            Some((before, after)) => {
                proof {
                    model::lemma_first_from(rest@, pattern@, 0);
                    assert(done@ + (before@ + by@ + model::replaced(after@, pattern@, by@)) == (done@
                        + before@ + by@) + model::replaced(after@, pattern@, by@));
                }
                done.append(before.as_str());
                done.append(by);
                rest = after;
            },
            None => {
                done.append(rest.as_str());
                return done;
            },
        }
    }
}

/// Text of at least `width` characters, filled up with `fill` on the left.
pub fn pad_left(text: &str, fill: char, width: usize) -> (r: String)
    ensures
        r@ == model::padded_left(text@, fill, width as nat),
{
    let chars = chars_of(text);
    let mut out = String::new();
    if chars.len() < width {
        let missing: usize = width - chars.len();
        let mut i: usize = 0;
        while i < missing
            invariant
                i <= missing,
                out@ == Seq::new(i as nat, |k: int| fill),
            decreases missing - i,
        {
            out.push(fill);
            i += 1;
            assert(out@ == Seq::new(i as nat, |k: int| fill));
        }
    }
    out.append(text);
    out
}

} // verus!
