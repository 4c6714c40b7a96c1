//! Which settings an installation may have, said of the characters of the settings.
use super::install_config;
use super::install_config::WindowsInstallConfigView;
use crate::text::laws;
use crate::text::model;
use crate::text::model::Text;
use vstd::prelude::*;

verus! {

/// Whether a character is a letter of the alphabet.
pub open spec fn is_latin(c: char) -> bool {
    'a' <= c <= 'z' || 'A' <= c <= 'Z'
}

/// Whether a character is a letter of the alphabet or a decimal digit.
pub open spec fn is_latin_or_digit(c: char) -> bool {
    is_latin(c) || '0' <= c <= '9'
}

// ---- Product keys ----------------------------------------------------------------------

/// Whether a text has the form of a product key: 29 characters, of which every sixth is a hyphen
/// and the others are letters and digits.
pub open spec fn has_key_form(key: Text) -> bool {
    key.len() == 29 && forall|i: int|
        0 <= i < 29 ==> (if i % 6 == 5 {
            #[trigger] key[i] == '-'
        } else {
            is_latin_or_digit(key[i])
        })
}

/// A product key is one exactly where it has that form.
pub proof fn law_a_product_key_has_five_groups_of_five(key: Text)
    ensures
        install_config::is_product_key(key) <==> has_key_form(key),
{
    reveal_strlit("-");
    assert("-"@ =~= seq!['-']);
    let groups = model::pieces(key, seq!['-']);
    if install_config::is_product_key(key) {
        laws::law_pieces_make_the_text(key, '-');
        lemma_glued_five(groups, '-');
        let g0 = groups[0];
        let g1 = groups[1];
        let g2 = groups[2];
        let g3 = groups[3];
        let g4 = groups[4];
        assert(install_config::is_key_group(g0) && install_config::is_key_group(g1)
            && install_config::is_key_group(g2) && install_config::is_key_group(g3)
            && install_config::is_key_group(g4));
        assert(key.len() == 29);
        assert forall|i: int| 0 <= i < 29 implies (if i % 6 == 5 {
            #[trigger] key[i] == '-'
        } else {
            is_latin_or_digit(key[i])
        }) by {
            if i < 5 {
                assert(key[i] == g0[i]);
            } else if i == 5 || i == 11 || i == 17 || i == 23 {
                assert(key[i] == '-');
            } else if i < 11 {
                assert(key[i] == g1[i - 6]);
            } else if i < 17 {
                assert(key[i] == g2[i - 12]);
            } else if i < 23 {
                assert(key[i] == g3[i - 18]);
            } else {
                assert(key[i] == g4[i - 24]);
            }
        }
    }
    if has_key_form(key) {
        let parts = seq![
            key.subrange(0, 5),
            key.subrange(6, 11),
            key.subrange(12, 17),
            key.subrange(18, 23),
            key.subrange(24, 29),
        ];
        assert forall|k: int| 0 <= k < 5 implies !laws::has_char(#[trigger] parts[k], '-')
            && install_config::is_key_group(parts[k]) by {
            let part = parts[k];
            assert forall|i: int| 0 <= i < 5 implies #[trigger] part[i] == key[6 * k + i]
                && is_latin_or_digit(part[i]) by {
                assert((6 * k + i) % 6 == i);
                assert(is_latin_or_digit(key[6 * k + i]));
            }
        }
        laws::law_parts_are_the_pieces(parts, '-');
        lemma_glued_five(parts, '-');
        assert(key[5] == '-' && key[11] == '-' && key[17] == '-' && key[23] == '-');
        assert(laws::glued(parts, '-') =~= key);
    }
}

proof fn lemma_glued_five(parts: Seq<Text>, c: char)
    requires
        parts.len() == 5,
    ensures
        laws::glued(parts, c) == parts[0] + seq![c] + (parts[1] + seq![c] + (parts[2] + seq![c] + (
        parts[3] + seq![c] + parts[4]))),
{
    reveal_with_fuel(laws::glued, 6);
    assert(parts.skip(1).skip(1)[0] == parts[2]);
    assert(parts.skip(1).skip(1).skip(1)[0] == parts[3]);
    assert(parts.skip(1).skip(1).skip(1).skip(1)[0] == parts[4]);
}

// ---- Locales ---------------------------------------------------------------------------

/// Whether a text has the form of a locale: two or three letters, an underscore, two letters.
pub open spec fn has_locale_form(locale: Text) -> bool {
    let n = locale.len() as int;
    (n == 5 || n == 6) && forall|i: int|
        0 <= i < n ==> (if i == n - 3 {
            #[trigger] locale[i] == '_'
        } else {
            is_latin(locale[i])
        })
}

/// A locale is one exactly where it has that form.
pub proof fn law_a_locale_is_a_language_and_a_country(locale: Text)
    ensures
        install_config::is_locale(locale) <==> has_locale_form(locale),
{
    reveal_strlit("_");
    assert("_"@ =~= seq!['_']);
    let parts = model::pieces(locale, seq!['_']);
    let n = locale.len() as int;
    if install_config::is_locale(locale) {
        laws::law_pieces_make_the_text(locale, '_');
        reveal_with_fuel(laws::glued, 3);
        assert(locale == parts[0] + seq!['_'] + parts[1]);
        assert forall|i: int| 0 <= i < n implies (if i == n - 3 {
            #[trigger] locale[i] == '_'
        } else {
            is_latin(locale[i])
        }) by {
            if i < n - 3 {
                assert(locale[i] == parts[0][i]);
            } else if i > n - 3 {
                assert(locale[i] == parts[1][i - (n - 2)]);
            }
        }
    }
    if has_locale_form(locale) {
        let first = locale.take(n - 3);
        let second = locale.skip(n - 2);
        let made = seq![first, second];
        assert forall|k: int| 0 <= k < 2 implies !laws::has_char(#[trigger] made[k], '_') by {
            let part = made[k];
            assert forall|i: int| 0 <= i < part.len() implies #[trigger] part[i] != '_' by {
                if k == 0 {
                    assert(is_latin(locale[i]));
                } else {
                    assert(is_latin(locale[n - 2 + i]));
                }
            }
        }
        laws::law_parts_are_the_pieces(made, '_');
        reveal_with_fuel(laws::glued, 3);
        assert(locale[n - 3] == '_');
        assert(laws::glued(made, '_') =~= locale);
        assert forall|i: int| 0 <= i < first.len() implies model::is_letter(#[trigger] first[i]) by {
            assert(is_latin(locale[i]));
        }
        assert forall|i: int| 0 <= i < second.len() implies model::is_letter(
            #[trigger] second[i],
        ) by {
            assert(is_latin(locale[n - 2 + i]));
        }
    }
}

// ---- Names -----------------------------------------------------------------------------

/// Whether a text has the form of a label: letters, digits and hyphens, with no hyphen at either
/// end, and not longer than it may be.
pub open spec fn has_label_form(s: Text, longest: int) -> bool {
    &&& 1 <= s.len() <= longest
    &&& forall|i: int| 0 <= i < s.len() ==> is_latin_or_digit(#[trigger] s[i]) || s[i] == '-'
    &&& s[0] != '-'
    &&& s[s.len() - 1] != '-'
}

/// A computer and a domain make a host name exactly where the computer's name is a label of at
/// most 15 characters, the domain is made of labels of at most 63 with dots between them, and the
/// whole is at most 253 long. The host name is the two with a dot between them, in lower case.
pub proof fn law_a_host_name_is_made_of_labels(computer_name: Text, domain_name: Text)
    ensures
        ({
            let computer = model::trimmed(computer_name);
            let domain = model::lower(model::trimmed(domain_name));
            let labels = model::pieces(domain, seq!['.']);
            let made = install_config::hostname(computer_name, domain_name);
            &&& made is Ok <==> {
                &&& has_label_form(computer, 15)
                &&& domain.len() > 0
                &&& forall|i: int|
                    0 <= i < labels.len() ==> has_label_form(#[trigger] labels[i], 63)
                &&& computer.len() + 1 + domain.len() <= 253
            }
            &&& made matches Ok(host) ==> host == model::lower(computer) + seq!['.'] + domain
        }),
{
    reveal_strlit(".");
    assert("."@ =~= seq!['.']);
    let computer = model::trimmed(computer_name);
    let domain = model::lower(model::trimmed(domain_name));
    let labels = model::pieces(domain, seq!['.']);
    lemma_label(computer, 15);
    assert forall|i: int| 0 <= i < labels.len() implies has_label_form(#[trigger] labels[i], 63)
        == install_config::is_label(labels[i], 63) by {
        lemma_label(labels[i], 63);
    }
    if install_config::is_domain(domain) {
        assert forall|i: int| 0 <= i < labels.len() implies has_label_form(
            #[trigger] labels[i],
            63,
        ) by {
            assert(install_config::is_label(model::pieces(domain, "."@)[i], 63));
        }
    }
}

proof fn lemma_label(s: Text, longest: int)
    ensures
        has_label_form(s, longest) == install_config::is_label(s, longest),
{
    if install_config::is_label(s, longest) {
        assert forall|i: int| 0 <= i < s.len() implies is_latin_or_digit(#[trigger] s[i]) || s[i]
            == '-' by {
            assert(install_config::is_label_char(s[i]));
        }
    }
}

/// Whether a character may not stand in the name of a Windows user.
pub open spec fn is_barred(c: char) -> bool {
    model::is_control(c) || laws::has_char("\"/\\[]:;|=,+*?<>"@, c)
}

proof fn lemma_barred(c: char)
    ensures
        laws::has_char("\"/\\[]:;|=,+*?<>"@, c) == install_config::is_forbidden_in_username(c),
{
    reveal_strlit("\"/\\[]:;|=,+*?<>");
    let barred = "\"/\\[]:;|=,+*?<>"@;
    assert(barred.len() == 15);
    assert(barred[0] == '"' && barred[1] == '/' && barred[2] == '\\' && barred[3] == '['
        && barred[4] == ']' && barred[5] == ':' && barred[6] == ';' && barred[7] == '|'
        && barred[8] == '=' && barred[9] == ',' && barred[10] == '+' && barred[11] == '*'
        && barred[12] == '?' && barred[13] == '<' && barred[14] == '>');
}

/// Settings are allowed if and only if each of them is: the user's name is there, not too long,
/// no dots alone and without a character that is barred; the password has 1 to 127 printable
/// characters; computer and domain make a host name; the locale, the language and the country
/// have their forms; the time zone is printable; and the product key, where there is one, has its
/// form.
pub proof fn law_settings_are_allowed_where_each_is(config: WindowsInstallConfigView)
    ensures
        install_config::config_check(config) is Ok <==> {
            let user = model::trimmed(config.username);
            &&& 0 < user.len()
            &&& model::utf16_len(user) <= 20
            &&& user != "."@ && user != ".."@
            &&& forall|i: int| 0 <= i < user.len() ==> !is_barred(#[trigger] user[i])
            &&& 1 <= config.password.len() <= 127
            &&& forall|i: int|
                0 <= i < config.password.len() ==> !model::is_control(
                    #[trigger] config.password[i],
                )
            &&& install_config::hostname(config.computer_name, config.domain_name) is Ok
            &&& has_locale_form(config.locale)
            &&& 2 <= config.language.len() <= 3
            &&& forall|i: int|
                0 <= i < config.language.len() ==> is_latin(#[trigger] config.language[i])
            &&& config.country.len() == 2
            &&& forall|i: int|
                0 <= i < config.country.len() ==> is_latin(#[trigger] config.country[i])
            &&& forall|i: int|
                0 <= i < config.time_zone.len() ==> !model::is_control(
                    #[trigger] config.time_zone[i],
                )
            &&& config.product_key matches Some(key) ==> model::trimmed(key).len() == 0
                || has_key_form(model::trimmed(key))
        },
{
    let user = model::trimmed(config.username);
    law_a_locale_is_a_language_and_a_country(config.locale);
    if let Some(key) = config.product_key {
        law_a_product_key_has_five_groups_of_five(model::trimmed(key));
    }
    assert forall|c: char| #[trigger] is_barred(c) == !install_config::is_username_char(c) by {
        lemma_barred(c);
    }
    lemma_characters(config);
}

proof fn lemma_characters(config: WindowsInstallConfigView)
    requires
        forall|c: char| #[trigger] is_barred(c) == !install_config::is_username_char(c),
    ensures
        ({
            let user = model::trimmed(config.username);
            model::all_chars(user, |c: char| install_config::is_username_char(c)) <==> forall|i: int|
                0 <= i < user.len() ==> !is_barred(#[trigger] user[i])
        }),
        model::all_chars(config.password, |c: char| !model::is_control(c)) <==> forall|i: int|
            0 <= i < config.password.len() ==> !model::is_control(#[trigger] config.password[i]),
        model::all_chars(config.language, |c: char| model::is_letter(c)) <==> forall|i: int|
            0 <= i < config.language.len() ==> is_latin(#[trigger] config.language[i]),
        model::all_chars(config.country, |c: char| model::is_letter(c)) <==> forall|i: int|
            0 <= i < config.country.len() ==> is_latin(#[trigger] config.country[i]),
        model::all_chars(config.time_zone, |c: char| !model::is_control(c)) <==> forall|i: int|
            0 <= i < config.time_zone.len() ==> !model::is_control(#[trigger] config.time_zone[i]),
{
    let user = model::trimmed(config.username);
    let named = |c: char| install_config::is_username_char(c);
    if model::all_chars(user, named) {
        assert forall|i: int| 0 <= i < user.len() implies !is_barred(#[trigger] user[i]) by {
            assert(named(user[i]));
        }
    }
    let printable = |c: char| !model::is_control(c);
    if model::all_chars(config.password, printable) {
        assert forall|i: int| 0 <= i < config.password.len() implies !model::is_control(
            #[trigger] config.password[i],
        ) by {
            assert(printable(config.password[i]));
        }
    }
    if model::all_chars(config.time_zone, printable) {
        assert forall|i: int| 0 <= i < config.time_zone.len() implies !model::is_control(
            #[trigger] config.time_zone[i],
        ) by {
            assert(printable(config.time_zone[i]));
        }
    }
    let latin = |c: char| model::is_letter(c);
    if model::all_chars(config.language, latin) {
        assert forall|i: int| 0 <= i < config.language.len() implies is_latin(
            #[trigger] config.language[i],
        ) by {
            assert(latin(config.language[i]));
        }
    }
    if model::all_chars(config.country, latin) {
        assert forall|i: int| 0 <= i < config.country.len() implies is_latin(
            #[trigger] config.country[i],
        ) by {
            assert(latin(config.country[i]));
        }
    }
}

// ---- Defaults --------------------------------------------------------------------------

/// What an installation is told unless the user says otherwise: the usual names, the host's time
/// zone, Guest Additions, and the language and the country of the host's locale, with hyphen or
/// underscore between them.
pub proof fn law_defaults_follow_the_host(language: Text, country: Text, between: char)
    requires
        between == '-' || between == '_',
        forall|i: int| 0 <= i < language.len() ==> is_latin(#[trigger] language[i]),
        forall|i: int| 0 <= i < country.len() ==> is_latin(#[trigger] country[i]),
    ensures
        ({
            let told = install_config::install_defaults(
                Some(language + seq![between] + country),
            );
            &&& told.language == model::lower(language)
            &&& told.country == model::upper(country)
            &&& told.locale == model::lower(language) + seq!['_'] + model::upper(country)
            &&& told.username == "Barnen"@
            &&& told.computer_name == "BARNEN-PC"@
            &&& told.domain_name == "multiseat.local"@
            &&& told.time_zone.len() == 0
            &&& told.install_guest_additions
        }),
        install_config::install_defaults(None) == install_config::install_defaults(
            Some("en-US"@),
        ),
{
    reveal_strlit("_");
    assert("_"@ =~= seq!['_']);
    let class = install_config::locale_part_class();
    let locale = language + seq![between] + country;
    laws::lemma_leading(language, seq![between] + country, class);
    assert(locale =~= language + (seq![between] + country));
    laws::lemma_leading(country, seq![], class);
    assert(country + Seq::<char>::empty() =~= country);
    assert((seq![between] + country).skip(1) =~= country);
}

} // verus!
