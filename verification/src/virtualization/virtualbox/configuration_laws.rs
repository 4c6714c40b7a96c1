//! What holds of names, of inputs, and of what is said about a command that failed.
use super::install_config;
use super::install_config::WindowsInstallConfigView;
use super::seat_rules;
use super::secrecy;
use super::service;
use crate::devices::PhysicalInputDeviceView;
use crate::seats::ApplicationConfigView;
use crate::text::model;
use crate::text::model::Text;
use crate::text::quote;
use vstd::prelude::*;

verus! {

// ---- Inputs ----------------------------------------------------------------------------

proof fn lemma_seat_index(config: ApplicationConfigView, seat: Text, from: int)
    requires
        0 <= from,
    ensures
        config.seat_index_from(seat, from) matches Some(index) ==> from <= index
            < config.seats.len() && config.seats[index].id == seat,
    decreases config.seats.len() - from,
{
    if from < config.seats.len() && config.seats[from].id != seat {
        lemma_seat_index(config, seat, from + 1);
    }
}

/// A seat that may be started leaves the host its own devices: it is not the host's seat, the
/// host has a keyboard and a mouse, and neither of them is the keyboard or the mouse of the
/// seat.
pub proof fn law_the_host_keeps_its_devices(
    seat: Text,
    config: ApplicationConfigView,
    devices: Seq<PhysicalInputDeviceView>,
)
    requires
        seat_rules::activation_inputs(seat, config, devices) is Ok,
    ensures
        config.seat_index(seat) matches Some(index) && 0 < index < config.seats.len()
            && config.seats[index].id == seat,
        config.seats[0].devices.keyboard is Some,
        config.seats[0].devices.mouse is Some,
        seat_rules::inputs_apart(
            config.seats[0].devices.keyboard->0,
            config.seats[0].devices.mouse->0,
            seat_rules::activation_inputs(seat, config, devices)->Ok_0,
        ),
{
    lemma_seat_index(config, seat, 0);
}

// ---- Names -----------------------------------------------------------------------------

/// Text that begins and ends with something else than white space has none around it.
proof fn lemma_nothing_to_trim(s: Text)
    requires
        s.len() > 0,
        !model::is_space(s[0]),
        !model::is_space(s.last()),
    ensures
        model::trimmed(s) == s,
{
}

/// Bringing the names of a computer up to date is done once: what came of it needs it no more,
/// and stays as it is.
pub proof fn law_migration_settles(computer_name: Text, domain_name: Text)
    ensures
        ({
            let (computer, domain) = install_config::migrated(computer_name, domain_name);
            &&& !install_config::needs_migration(computer, domain)
            &&& install_config::migrated(computer, domain) == (computer, domain)
        }),
{
    reveal_strlit("BARNEN-PC");
    reveal_strlit("multiseat.local");
    reveal_strlit("MULTISEAT-BARNEN");
    lemma_nothing_to_trim("BARNEN-PC"@);
    lemma_nothing_to_trim("multiseat.local"@);
    assert(model::lower("BARNEN-PC"@).len() != model::lower("MULTISEAT-BARNEN"@).len());
}

/// Names that need no migration are left as they are.
pub proof fn law_current_names_are_kept(computer_name: Text, domain_name: Text)
    requires
        !install_config::needs_migration(computer_name, domain_name),
    ensures
        install_config::migrated(computer_name, domain_name) == (computer_name, domain_name),
{
}

/// A host name is a qualified one: the computer's name, which holds no dot, a dot, and the
/// domain. It is not longer than a host name may be, and has no upper-case letter.
pub proof fn law_a_hostname_is_qualified(computer_name: Text, domain_name: Text)
    requires
        install_config::hostname(computer_name, domain_name) is Ok,
    ensures
        ({
            let host = install_config::hostname(computer_name, domain_name)->Ok_0;
            let computer = model::trimmed(computer_name).len() as int;
            &&& 0 < computer <= 15
            &&& computer + 1 < host.len() <= 253
            &&& host[computer] == '.'
            &&& forall|i: int| 0 <= i < computer ==> #[trigger] host[i] != '.'
            &&& forall|i: int| 0 <= i < host.len() ==> !('A' <= #[trigger] host[i] <= 'Z')
        }),
{
    reveal_strlit(".");
    let host = install_config::hostname(computer_name, domain_name)->Ok_0;
    let name = model::trimmed(computer_name);
    let domain = model::trimmed(domain_name);
    let computer = name.len() as int;
    assert(host[computer] == '.');
    assert forall|i: int| 0 <= i < computer implies #[trigger] host[i] != '.' by {
        assert(install_config::is_label_char(name[i]));
        assert(host[i] == model::lower_char(name[i]));
    }
    assert forall|i: int| 0 <= i < host.len() implies !('A' <= #[trigger] host[i] <= 'Z') by {
        if i < computer {
            assert(host[i] == model::lower_char(name[i]));
        } else if i > computer {
            assert(host[i] == model::lower_char(domain[i - computer - 1]));
        }
    }
}

// ---- Sensitive values ------------------------------------------------------------------

/// The characters of a text whose pieces between hyphens are made of a class.
proof fn lemma_of_pieces(s: Text, class: spec_fn(char) -> bool)
    requires
        forall|i: int|
            0 <= i < model::pieces(s, "-"@).len() ==> model::all_chars(
                #[trigger] model::pieces(s, "-"@)[i],
                class,
            ),
    ensures
        forall|k: int| 0 <= k < s.len() ==> class(#[trigger] s[k]) || s[k] == '-',
    decreases s.len(),
{
    reveal_strlit("-");
    let groups = model::pieces(s, "-"@);
    model::lemma_first_from(s, "-"@, 0);
    match model::first_from(s, "-"@, 0) {
        None => {
            assert(groups[0] == s);
        },
        Some(i) => {
            let after = s.skip(i + 1);
            let others = model::pieces(after, "-"@);
            assert(groups == seq![s.take(i)] + others);
            assert forall|j: int| 0 <= j < others.len() implies model::all_chars(
                #[trigger] others[j],
                class,
            ) by {
                assert(groups[j + 1] == others[j]);
            }
            lemma_of_pieces(after, class);
            assert forall|k: int| 0 <= k < s.len() implies class(#[trigger] s[k]) || s[k]
                == '-' by {
                if k < i {
                    assert(groups[0][k] == s[k]);
                } else if k == i {
                    assert(s.subrange(i, i + 1)[0] == s[i]);
                } else {
                    assert(after[k - i - 1] == s[k]);
                }
            }
        },
    }
}

proof fn lemma_decimal(n: nat)
    ensures
        forall|i: int|
            0 <= i < model::decimal(n).len() ==> '0' <= #[trigger] model::decimal(n)[i] <= '9',
    decreases n,
{
    let digit = model::digit_char(n % 10);
    assert('0' <= digit <= '9');
    if n >= 10 {
        lemma_decimal(n / 10);
        let rest = model::decimal(n / 10);
        assert(model::decimal(n) == rest.push(digit));
        assert forall|i: int| 0 <= i < model::decimal(n).len() implies '0'
            <= #[trigger] model::decimal(n)[i] <= '9' by {
            if i < rest.len() {
                assert(model::decimal(n)[i] == rest[i]);
            }
        }
    }
}

/// What is said of every command that failed has no equals sign.
proof fn lemma_failure_words(code: Option<i32>)
    ensures
        forall|i: int|
            0 <= i < secrecy::failure_words(code).len() ==> #[trigger] secrecy::failure_words(
                code,
            )[i] != '=',
{
    reveal_strlit("VBoxManage [] , failed with exit code ");
    reveal_strlit(":");
    reveal_strlit("Some(");
    reveal_strlit(")");
    reveal_strlit("None");
    if let Some(n) = code {
        lemma_decimal((if n < 0 {
            -n
        } else {
            n as int
        }) as nat);
    }
}

/// The argument that hands over the product key of a configuration that is allowed is not
/// among the arguments that are shown where the installation fails, and is taken out of
/// whatever else is said about it. Where the other arguments do not hold it and quoting does not
/// disguise them, nothing that is said about the command holds it.
pub proof fn law_a_product_key_is_not_shown(
    vm_id: Text,
    iso_path: Text,
    password_file: Text,
    additions_iso: Option<Text>,
    config: WindowsInstallConfigView,
    key: Text,
    said: Text,
)
    requires
        install_config::config_check(config) is Ok,
        install_config::used_key(config.product_key) == Some(key),
    ensures
        install_config::unattended(
            vm_id,
            iso_path,
            password_file,
            additions_iso,
            config,
        ) matches Ok((arguments, sensitive)) && {
            let secret = "--key="@ + key;
            &&& arguments.contains(secret)
            &&& !service::redacted_arguments(arguments, sensitive).contains(secret)
            &&& !model::contains(service::redacted(said, sensitive), secret)
            &&& (forall|i: int|
                0 <= i < arguments.len() && #[trigger] arguments[i] != secret ==> quote::is_plain(
                    arguments[i],
                ) && !model::contains(arguments[i], secret)) ==> secrecy::can_be_hidden(
                secret,
                arguments,
                sensitive,
            )
        },
{
    let secret = "--key="@ + key;
    let mark = "<redacted>"@;
    reveal_strlit("--key=");
    reveal_strlit("<redacted>");
    let host = install_config::hostname(config.computer_name, config.domain_name)->Ok_0;
    let arguments = install_config::install_arguments(
        vm_id,
        iso_path,
        password_file,
        additions_iso,
        config,
        host,
    );
    let place = 11 + (if model::trimmed(config.time_zone).len() > 0 {
        1int
    } else {
        0
    });
    assert(arguments[place] == secret);
    assert(seq![secret][0] == secret);
    assert(secret[0] == '-');
    assert(mark[0] == '<');
    secrecy::law_a_sensitive_argument_is_not_shown(arguments, seq![secret], secret);
    lemma_of_pieces(key, |c: char| model::is_alphanumeric(c));
    assert forall|i: int| 0 <= i < secret.len() implies #[trigger] secret[i] != '<' && secret[i]
        != '>' by {
        if i >= 6 {
            assert(secret[i] == key[i - 6]);
        }
    }
    assert forall|j: int| !model::occurs_at(mark, secret, j) by {
        if model::occurs_at(mark, secret, j) {
            assert(mark.subrange(j, j + secret.len())[0] == mark[j]);
        }
    }
    secrecy::law_what_is_taken_out_is_gone(said, seq![secret], secret);
    assert forall|i: int| 0 <= i < secret.len() implies !quote::is_escaped(#[trigger] secret[i])
        && secret[i] != ' ' by {
        if i >= 6 {
            assert(secret[i] == key[i - 6]);
        }
    }
    assert forall|code: Option<i32>| !model::contains(
        #[trigger] secrecy::failure_words(code),
        secret,
    ) by {
        let words = secrecy::failure_words(code);
        lemma_failure_words(code);
        assert forall|j: int| !model::occurs_at(words, secret, j) by {
            if model::occurs_at(words, secret, j) {
                assert(words.subrange(j, j + secret.len())[5] == words[j + 5]);
                assert(secret[5] == '=');
            }
        }
    }
}

} // verus!
