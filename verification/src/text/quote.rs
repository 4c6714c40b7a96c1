//! Text in quotation marks.
use super::compose::{concat3, join};
use super::model;
use super::model::Text;
use vstd::prelude::*;

verus! {

/// `{:?}` of a string: the string in quotation marks, with its special characters escaped.
pub uninterp spec fn debug_quoted(text: Seq<char>) -> Seq<char>;

/// Whether a character is written behind a backslash.
pub open spec fn is_escaped(c: char) -> bool {
    c == '"' || c == '\\'
}

/// Text with a backslash before each quotation mark and each backslash.
pub open spec fn escaped(text: Text) -> Text
    decreases text.len(),
{
    if text.len() == 0 {
        seq![]
    } else if is_escaped(text.last()) {
        escaped(text.drop_last()).push('\\').push(text.last())
    } else {
        escaped(text.drop_last()).push(text.last())
    }
}

/// Whether a text is made of printable ASCII characters other than the apostrophe.
pub open spec fn is_plain(text: Text) -> bool {
    forall|i: int| 0 <= i < text.len() ==> ' ' <= #[trigger] text[i] <= '~' && text[i] != '\''
}

/// Text in quotation marks, with a backslash before each quotation mark and each backslash.
pub open spec fn plainly_quoted(text: Text) -> Text {
    seq!['"'] + escaped(text) + seq!['"']
}

/// `std`'s `Debug` formatting of a string. The result is a function of the string. Of a string
/// of printable ASCII characters it is the string in quotation marks, with a backslash before
/// each quotation mark and each backslash. Nothing is stated of the apostrophe, nor of how other
/// characters are written.
#[verifier::external_body]
pub(crate) fn quote(text: &str) -> (r: String)
    ensures
        r@ == debug_quoted(text@),
        is_plain(text@) ==> r@ == plainly_quoted(text@),
{
    format!("{:?}", text)
}

/// Whether those of some texts that are plain are quoted plainly.
pub open spec fn quotes_plainly(values: Seq<Text>) -> bool {
    forall|i: int|
        0 <= i < values.len() && is_plain(#[trigger] values[i]) ==> debug_quoted(values[i])
            == plainly_quoted(values[i])
}

pub proof fn lemma_mark_is_plain()
    ensures
        is_plain("<redacted>"@),
{
    reveal_strlit("<redacted>");
}

/// Texts in quotation marks, with commas between them, in square brackets.
pub open spec fn quoted_list(values: Seq<Text>) -> Text {
    "["@ + model::joined(values.map_values(|value: Text| debug_quoted(value)), ", "@) + "]"@
}

/// Texts in quotation marks, with commas between them, in square brackets.
pub fn quote_list(values: &Vec<String>) -> (r: String)
    ensures
        r@ == quoted_list(model::texts(values@)),
        quotes_plainly(model::texts(values@)),
{
    let ghost wanted = model::texts(values@).map_values(|value: Text| debug_quoted(value));
    let mut parts: Vec<String> = Vec::new();
    let mut i: usize = 0;
    while i < values.len()
        invariant
            i <= values@.len(),
            wanted == model::texts(values@).map_values(|value: Text| debug_quoted(value)),
            model::texts(parts@) == wanted.take(i as int),
            forall|k: int|
                0 <= k < i && is_plain(#[trigger] values@[k]@) ==> debug_quoted(values@[k]@)
                    == plainly_quoted(values@[k]@),
        decreases values.len() - i,
    {
        let ghost before = parts@;
        parts.push(quote(values[i].as_str()));
        proof {
            assert(wanted[i as int] == debug_quoted(values@[i as int]@));
            assert(model::texts(parts@) =~= model::texts(before).push(wanted[i as int]));
            assert(wanted.take(i + 1) =~= wanted.take(i as int).push(wanted[i as int]));
        }
        i += 1;
    }
    assert(wanted.take(i as int) =~= wanted);
    assert(forall|k: int|
        0 <= k < values@.len() ==> #[trigger] model::texts(values@)[k] == values@[k]@);
    concat3("[", join(&parts, ", ").as_str(), "]")
}

} // verus!
