//! Sensitive values, and what is said about a command that failed.
use super::executor::VBoxOutputView;
use super::service;
use crate::text::model;
use crate::text::model::Text;
use crate::text::quote;
use vstd::prelude::*;

verus! {

// ---- Texts without a value -------------------------------------------------------------

proof fn lemma_part(before: Text, part: Text, after: Text, secret: Text)
    requires
        !model::contains(before + part + after, secret),
    ensures
        !model::contains(part, secret),
{
    let whole = before + part + after;
    let n = before.len() as int;
    let m = secret.len() as int;
    assert forall|j: int| !model::occurs_at(part, secret, j) by {
        if model::occurs_at(part, secret, j) {
            assert(whole.subrange(n + j, n + j + m) =~= part.subrange(j, j + m));
            assert(model::occurs_at(whole, secret, n + j));
        }
    }
}

/// A value that lacks a character stands on one side of it.
proof fn lemma_apart(before: Text, between: char, after: Text, secret: Text)
    requires
        secret.len() > 0,
        forall|i: int| 0 <= i < secret.len() ==> #[trigger] secret[i] != between,
        !model::contains(before, secret),
        !model::contains(after, secret),
    ensures
        !model::contains(before + seq![between] + after, secret),
{
    let whole = before + seq![between] + after;
    let n = before.len() as int;
    let m = secret.len() as int;
    assert forall|j: int| !model::occurs_at(whole, secret, j) by {
        if model::occurs_at(whole, secret, j) {
            if j + m <= n {
                assert(whole.subrange(j, j + m) =~= before.subrange(j, j + m));
                assert(model::occurs_at(before, secret, j));
            } else if j > n {
                assert(whole.subrange(j, j + m) =~= after.subrange(j - n - 1, j - n - 1 + m));
                assert(model::occurs_at(after, secret, j - n - 1));
            } else {
                assert(whole.subrange(j, j + m)[n - j] == between);
                assert(secret[n - j] == between);
            }
        }
    }
}

// ---- Taking values out -----------------------------------------------------------------

/// A sensitive argument is not among the arguments that are shown.
pub proof fn law_a_sensitive_argument_is_not_shown(
    arguments: Seq<Text>,
    sensitive: Seq<Text>,
    secret: Text,
)
    requires
        sensitive.contains(secret),
        secret != "<redacted>"@,
    ensures
        !service::redacted_arguments(arguments, sensitive).contains(secret),
        service::redacted_arguments(arguments, sensitive).len() == arguments.len(),
{
    let shown = service::redacted_arguments(arguments, sensitive);
    assert forall|i: int| 0 <= i < shown.len() implies shown[i] != secret by {
        assert(sensitive.contains(arguments[i]) ==> shown[i] == "<redacted>"@);
    }
}

/// Whether a text can be told from what takes its place.
pub open spec fn can_be_taken_out(secret: Text) -> bool {
    &&& secret.len() > 0
    &&& !model::contains("<redacted>"@, secret)
    &&& forall|i: int| 0 <= i < secret.len() ==> #[trigger] secret[i] != '<' && secret[i] != '>'
}

/// Taking one value out takes it out, and brings back no other.
proof fn lemma_replaced(text: Text, pattern: Text, secret: Text)
    requires
        can_be_taken_out(secret),
        pattern.len() > 0,
        pattern == secret || !model::contains(text, secret),
    ensures
        !model::contains(model::replaced(text, pattern, "<redacted>"@), secret),
    decreases text.len(),
{
    let mark = "<redacted>"@;
    let word = "redacted"@;
    reveal_strlit("<redacted>");
    reveal_strlit("redacted");
    model::lemma_first_from(text, pattern, 0);
    match model::first_from(text, pattern, 0) {
        None => {},
        Some(i) => {
            let before = text.take(i);
            let after = text.skip(i + pattern.len());
            let rest = model::replaced(after, pattern, mark);
            let m = secret.len() as int;
            assert(!model::contains(before, secret)) by {
                if pattern == secret {
                    assert forall|j: int| !model::occurs_at(before, secret, j) by {
                        if model::occurs_at(before, secret, j) {
                            assert(text.subrange(j, j + m) =~= before.subrange(j, j + m));
                            assert(model::occurs_at(text, secret, j));
                        }
                    }
                } else {
                    assert(Seq::<char>::empty() + before + text.skip(i) =~= text);
                    lemma_part(seq![], before, text.skip(i), secret);
                }
            }
            if pattern != secret {
                assert(text.take(i + pattern.len()) + after + Seq::<char>::empty() =~= text);
                lemma_part(text.take(i + pattern.len()), after, seq![], secret);
            }
            lemma_replaced(after, pattern, secret);
            assert(seq!['<'] + word + seq!['>'] =~= mark);
            lemma_part(seq!['<'], word, seq!['>'], secret);
            lemma_apart(before, '<', word, secret);
            lemma_apart(before + seq!['<'] + word, '>', rest, secret);
            assert(before + mark + rest =~= before + seq!['<'] + word + seq!['>'] + rest);
        },
    }
}

/// Text from which values were taken out holds none of them.
pub proof fn law_what_is_taken_out_is_gone(text: Text, sensitive: Seq<Text>, secret: Text)
    requires
        sensitive.contains(secret),
        can_be_taken_out(secret),
    ensures
        !model::contains(service::redacted(text, sensitive), secret),
    decreases sensitive.len(),
{
    let others = sensitive.drop_last();
    let last = sensitive.last();
    let earlier = service::redacted(text, others);
    if secret != last {
        let i = choose|i: int| 0 <= i < sensitive.len() && sensitive[i] == secret;
        assert(others[i] == secret);
        law_what_is_taken_out_is_gone(text, others, secret);
    }
    if last.len() > 0 {
        lemma_replaced(earlier, last, secret);
    }
}

// ---- Whole messages --------------------------------------------------------------------

/// A text at the end of an escaped one, without characters that are escaped, stands at the end
/// of what was escaped.
proof fn lemma_escaped_end(text: Text, m: int)
    requires
        0 <= m <= quote::escaped(text).len(),
        forall|k: int|
            quote::escaped(text).len() - m <= k < quote::escaped(text).len()
                ==> !quote::is_escaped(#[trigger] quote::escaped(text)[k]),
    ensures
        m <= text.len(),
        forall|k: int|
            0 <= k < m ==> #[trigger] text[text.len() - 1 - k] == quote::escaped(
                text,
            )[quote::escaped(text).len() - 1 - k],
    decreases text.len(),
{
    let whole = quote::escaped(text);
    if text.len() > 0 && m > 0 {
        let shorter = text.drop_last();
        let start = quote::escaped(shorter);
        assert(whole[whole.len() - 1] == text.last());
        assert(whole == start.push(text.last()));
        assert forall|k: int| start.len() - (m - 1) <= k < start.len() implies !quote::is_escaped(
            #[trigger] start[k],
        ) by {
            assert(start[k] == whole[k]);
        }
        lemma_escaped_end(shorter, m - 1);
        assert forall|k: int| 0 <= k < m implies #[trigger] text[text.len() - 1 - k]
            == whole[whole.len() - 1 - k] by {
            if k > 0 {
                assert(shorter[shorter.len() - 1 - (k - 1)] == start[start.len() - 1 - (k - 1)]);
            }
        }
    }
}

proof fn lemma_escaped(text: Text, secret: Text)
    requires
        secret.len() > 0,
        forall|i: int| 0 <= i < secret.len() ==> !quote::is_escaped(#[trigger] secret[i]),
        !model::contains(text, secret),
    ensures
        !model::contains(quote::escaped(text), secret),
    decreases text.len(),
{
    let whole = quote::escaped(text);
    let m = secret.len() as int;
    if text.len() > 0 {
        let shorter = text.drop_last();
        let start = quote::escaped(shorter);
        let c = text.last();
        assert(Seq::<char>::empty() + shorter + seq![c] =~= text);
        lemma_part(seq![], shorter, seq![c], secret);
        lemma_escaped(shorter, secret);
        if quote::is_escaped(c) {
            assert forall|j: int| !model::occurs_at(seq![c], secret, j) by {
                if model::occurs_at(seq![c], secret, j) {
                    assert(seq![c].subrange(j, j + m)[0] == c);
                }
            }
            assert(quote::is_escaped('\\'));
            lemma_apart(start, '\\', seq![c], secret);
            assert(whole =~= start + seq!['\\'] + seq![c]);
        } else {
            assert forall|j: int| !model::occurs_at(whole, secret, j) by {
                if model::occurs_at(whole, secret, j) {
                    if j + m < whole.len() {
                        assert(whole.subrange(j, j + m) =~= start.subrange(j, j + m));
                        assert(model::occurs_at(start, secret, j));
                    } else {
                        assert forall|k: int| whole.len() - m <= k < whole.len() implies
                            !quote::is_escaped(#[trigger] whole[k]) by {
                            assert(whole.subrange(j, j + m)[k - j] == whole[k]);
                        }
                        lemma_escaped_end(text, m);
                        let at = text.len() - m;
                        assert forall|k: int| 0 <= k < m implies #[trigger] text.subrange(
                            at,
                            at + m,
                        )[k] == secret[k] by {
                            let back = m - 1 - k;
                            assert(text[text.len() - 1 - back] == whole[whole.len() - 1 - back]);
                            assert(whole.subrange(j, j + m)[k] == whole[j + k]);
                        }
                        assert(text.subrange(at, at + m) =~= secret);
                        assert(model::occurs_at(text, secret, at));
                    }
                }
            }
        }
    }
}

/// The words around the arguments and the output in what is said of a command that failed.
pub open spec fn failure_words(code: Option<i32>) -> Text {
    "VBoxManage [] , failed with exit code "@ + model::exit_code(code) + ":"@
}

/// Whether a value can be kept out of what is said of a command that failed: it is no part of
/// the words that are said in any case nor of an argument that is shown, and neither it nor
/// those arguments are such that quoting would disguise them.
pub open spec fn can_be_hidden(
    secret: Text,
    arguments: Seq<Text>,
    sensitive: Seq<Text>,
) -> bool {
    &&& can_be_taken_out(secret)
    &&& forall|i: int|
        0 <= i < secret.len() ==> !quote::is_escaped(#[trigger] secret[i]) && secret[i] != ' '
    &&& forall|code: Option<i32>| !model::contains(#[trigger] failure_words(code), secret)
    &&& forall|i: int|
        0 <= i < arguments.len() ==> sensitive.contains(#[trigger] arguments[i]) || (
        quote::is_plain(arguments[i]) && !model::contains(arguments[i], secret))
}

/// The beginning of a list in quotation marks holds no value that none of its texts hold.
proof fn lemma_list_start(shown: Seq<Text>, secret: Text)
    requires
        shown.len() > 0,
        secret.len() > 0,
        forall|i: int|
            0 <= i < secret.len() ==> !quote::is_escaped(#[trigger] secret[i]) && secret[i] != ' ',
        !model::contains("["@, secret),
        !model::contains(","@, secret),
        forall|i: int|
            0 <= i < shown.len() ==> !model::contains(#[trigger] shown[i], secret)
                && quote::debug_quoted(shown[i]) == quote::plainly_quoted(shown[i]),
    ensures
        ({
            let parts = shown.map_values(|value: Text| quote::debug_quoted(value));
            let start = "["@ + model::joined(parts, ", "@);
            &&& !model::contains(start, secret)
            &&& start.last() == '"'
        }),
    decreases shown.len(),
{
    let quoted = |value: Text| quote::debug_quoted(value);
    let parts = shown.map_values(quoted);
    let start = "["@ + model::joined(parts, ", "@);
    let value = shown.last();
    let body = quote::escaped(value);
    reveal_strlit("[");
    reveal_strlit(",");
    reveal_strlit(", ");
    let none = Seq::<char>::empty();
    assert forall|j: int| !model::occurs_at(none, secret, j) by {}
    lemma_escaped(value, secret);
    assert(quote::is_escaped('"'));
    lemma_apart(body, '"', none, secret);
    let tail = body + seq!['"'] + none;
    assert(parts.last() == quote::debug_quoted(value));
    assert(parts.last() =~= seq!['"'] + tail);
    if shown.len() == 1 {
        lemma_apart("["@, '"', tail, secret);
        assert(start =~= "["@ + seq!['"'] + tail);
    } else {
        let fewer = shown.drop_last();
        assert forall|i: int| 0 <= i < fewer.len() implies !model::contains(
            #[trigger] fewer[i],
            secret,
        ) && quote::debug_quoted(fewer[i]) == quote::plainly_quoted(fewer[i]) by {
            assert(fewer[i] == shown[i]);
        }
        lemma_list_start(fewer, secret);
        assert(parts.drop_last() =~= fewer.map_values(quoted));
        let earlier = "["@ + model::joined(fewer.map_values(quoted), ", "@);
        let inner = earlier.drop_last();
        assert(none + inner + seq!['"'] =~= earlier);
        lemma_part(none, inner, seq!['"'], secret);
        lemma_apart(inner, '"', ","@, secret);
        lemma_apart(inner + seq!['"'] + ","@, ' ', none, secret);
        let before = inner + seq!['"'] + ","@ + seq![' '] + none;
        lemma_apart(before, '"', tail, secret);
        assert(start =~= before + seq!['"'] + tail);
    }
}

/// Whether a message about a command holds none of the sensitive values that can be hidden.
pub open spec fn tells_no_secret(
    message: Text,
    arguments: Seq<Text>,
    sensitive: Seq<Text>,
) -> bool {
    forall|secret: Text|
        sensitive.contains(secret) && #[trigger] can_be_hidden(secret, arguments, sensitive)
            ==> !model::contains(message, secret)
}

/// A message from which the sensitive values were taken out tells none of them.
pub proof fn law_redacted_text_tells_no_secret(
    text: Text,
    arguments: Seq<Text>,
    sensitive: Seq<Text>,
)
    ensures
        tells_no_secret(service::redacted(text, sensitive), arguments, sensitive),
{
    assert forall|secret: Text|
        sensitive.contains(secret) && #[trigger] can_be_hidden(
            secret,
            arguments,
            sensitive,
        ) implies !model::contains(service::redacted(text, sensitive), secret) by {
        law_what_is_taken_out_is_gone(text, sensitive, secret);
    }
}

/// What is said of a command that failed tells no sensitive value, where plain texts are quoted
/// plainly.
pub proof fn law_a_failure_tells_no_secret(
    arguments: Seq<Text>,
    sensitive: Seq<Text>,
    output: VBoxOutputView,
)
    requires
        quote::quotes_plainly(service::redacted_arguments(arguments, sensitive)),
    ensures
        tells_no_secret(
            service::failure_text(arguments, sensitive, output),
            arguments,
            sensitive,
        ),
{
    assert forall|secret: Text|
        sensitive.contains(secret) && #[trigger] can_be_hidden(
            secret,
            arguments,
            sensitive,
        ) implies !model::contains(
        service::failure_text(arguments, sensitive, output),
        secret,
    ) by {
        lemma_failure(arguments, sensitive, output, secret);
    }
}

proof fn lemma_failure(
    arguments: Seq<Text>,
    sensitive: Seq<Text>,
    output: VBoxOutputView,
    secret: Text,
)
    requires
        sensitive.contains(secret),
        can_be_hidden(secret, arguments, sensitive),
        quote::quotes_plainly(service::redacted_arguments(arguments, sensitive)),
    ensures
        !model::contains(service::failure_text(arguments, sensitive, output), secret),
{
    let shown = service::redacted_arguments(arguments, sensitive);
    let code = model::exit_code(output.exit_code);
    let said = service::redacted(model::trimmed(output.stderr), sensitive);
    let none = Seq::<char>::empty();
    law_what_is_taken_out_is_gone(model::trimmed(output.stderr), sensitive, secret);
    let words = failure_words(output.exit_code);
    assert(!model::contains(words, secret));
    reveal_strlit("VBoxManage [] , failed with exit code ");
    reveal_strlit("VBoxManage");
    reveal_strlit("VBoxManage ");
    reveal_strlit("[]");
    reveal_strlit("[");
    reveal_strlit("]");
    reveal_strlit(",");
    reveal_strlit("failed with exit code ");
    reveal_strlit(" failed with exit code ");
    reveal_strlit(":");
    reveal_strlit(": ");
    let ending = "failed with exit code "@ + code + ":"@;
    assert(none + "VBoxManage"@ + words.skip(10) =~= words);
    lemma_part(none, "VBoxManage"@, words.skip(10), secret);
    assert(words.take(11) + "[]"@ + words.skip(13) =~= words);
    lemma_part(words.take(11), "[]"@, words.skip(13), secret);
    assert(none + "["@ + "]"@ =~= "[]"@);
    assert("["@ + "]"@ + none =~= "[]"@);
    lemma_part(none, "["@, "]"@, secret);
    lemma_part("["@, "]"@, none, secret);
    assert(words.take(14) + ","@ + words.skip(15) =~= words);
    lemma_part(words.take(14), ","@, words.skip(15), secret);
    assert(words.take(16) + ending + none =~= words);
    lemma_part(words.take(16), ending, none, secret);
    let list = quote::quoted_list(shown);
    assert(!model::contains(list, secret)) by {
        if shown.len() == 0 {
            assert(list =~= "[]"@);
        } else {
            assert forall|i: int| 0 <= i < shown.len() implies !model::contains(
                #[trigger] shown[i],
                secret,
            ) && quote::debug_quoted(shown[i]) == quote::plainly_quoted(shown[i]) by {
                assert(sensitive.contains(arguments[i]) || quote::is_plain(arguments[i]));
                quote::lemma_mark_is_plain();
            }
            lemma_list_start(shown, secret);
            let parts = shown.map_values(|value: Text| quote::debug_quoted(value));
            let start = "["@ + model::joined(parts, ", "@);
            let inner = start.drop_last();
            assert(none + inner + seq!['"'] =~= start);
            lemma_part(none, inner, seq!['"'], secret);
            assert(quote::is_escaped('"'));
            lemma_apart(inner, '"', "]"@, secret);
            assert(list =~= inner + seq!['"'] + "]"@);
        }
    }
    lemma_apart("VBoxManage"@, ' ', list, secret);
    let first = "VBoxManage"@ + seq![' '] + list;
    lemma_apart(first, ' ', ending, secret);
    let second = first + seq![' '] + ending;
    lemma_apart(second, ' ', said, secret);
    assert(service::failure_text(arguments, sensitive, output) =~= second + seq![' '] + said);
}

} // verus!
