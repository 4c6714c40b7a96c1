//! What an unattended installation is told, setting by setting.
use super::install_config;
use super::install_config::WindowsInstallConfigView;
use crate::text::model;
use crate::text::model::Text;
use vstd::prelude::*;

verus! {

/// What follows the name of the machine in the command of an installation.
pub open spec fn options(arguments: Seq<Text>) -> Seq<Text> {
    arguments.skip(3)
}

/// Whether a text begins with a word.
pub open spec fn begins(text: Text, word: Text) -> bool {
    word.len() <= text.len() && text.take(word.len() as int) == word
}

/// How the names of the options begin. No two of them begin alike.
proof fn lemma_option_names()
    ensures
        "--install-additions"@.len() == 19 && "--install-additions"@[2] == 'i'
            && "--install-additions"@[3] == 'n',
        "--additions-iso="@.len() == 16 && "--additions-iso="@[2] == 'a',
        "--iso="@.len() == 6 && "--iso="@[2] == 'i' && "--iso="@[3] == 's',
        "--user="@.len() == 7 && "--user="@[2] == 'u' && "--user="@[6] == '=',
        "--user-password-file="@.len() == 21 && "--user-password-file="@[2] == 'u'
            && "--user-password-file="@[6] == '-',
        "--full-user-name="@.len() == 17 && "--full-user-name="@[2] == 'f',
        "--hostname="@.len() == 11 && "--hostname="@[2] == 'h',
        "--locale="@.len() == 9 && "--locale="@[2] == 'l' && "--locale="@[3] == 'o',
        "--language="@.len() == 11 && "--language="@[2] == 'l' && "--language="@[3] == 'a',
        "--country="@.len() == 10 && "--country="@[2] == 'c',
        "--time-zone="@.len() == 12 && "--time-zone="@[2] == 't',
        "--key="@.len() == 6 && "--key="@[2] == 'k',
        "--start-vm=gui"@.len() == 14 && "--start-vm=gui"@[2] == 's',
{
    reveal_strlit("--install-additions");
    reveal_strlit("--additions-iso=");
    reveal_strlit("--iso=");
    reveal_strlit("--user=");
    reveal_strlit("--user-password-file=");
    reveal_strlit("--full-user-name=");
    reveal_strlit("--hostname=");
    reveal_strlit("--locale=");
    reveal_strlit("--language=");
    reveal_strlit("--country=");
    reveal_strlit("--time-zone=");
    reveal_strlit("--key=");
    reveal_strlit("--start-vm=gui");
}

proof fn lemma_begins(name: Text, value: Text)
    ensures
        begins(name + value, name),
        (name + value).skip(name.len() as int) == value,
{
    assert((name + value).take(name.len() as int) =~= name);
    assert((name + value).skip(name.len() as int) =~= value);
}

/// The place of an option's character in a text that begins with it.
proof fn lemma_at(text: Text, word: Text, i: int)
    requires
        begins(text, word),
        0 <= i < word.len(),
    ensures
        text[i] == word[i],
{
    assert(text.take(word.len() as int)[i] == text[i]);
}

/// The Guest Additions are installed if and only if that was asked for, and from an image if and
/// only if one was given besides.
pub proof fn law_guest_additions_only_where_wanted(
    vm_id: Text,
    iso_path: Text,
    password_file: Text,
    additions_iso: Option<Text>,
    config: WindowsInstallConfigView,
)
    ensures
        install_config::unattended(
            vm_id,
            iso_path,
            password_file,
            additions_iso,
            config,
        ) matches Ok((arguments, _)) ==> {
            let wanted = config.install_guest_additions;
            &&& options(arguments).contains("--install-additions"@) <==> wanted
            &&& forall|path: Text|
                #![trigger options(arguments).contains("--additions-iso="@ + path)]
                options(arguments).contains("--additions-iso="@ + path) <==> wanted
                    && additions_iso == Some(path)
            &&& forall|i: int|
                3 <= i < arguments.len() && begins(
                    #[trigger] arguments[i],
                    "--additions-iso="@,
                ) ==> wanted && additions_iso == Some(
                    arguments[i].skip("--additions-iso="@.len() as int),
                )
        },
{
    if let Ok((arguments, _)) = install_config::unattended(
        vm_id,
        iso_path,
        password_file,
        additions_iso,
        config,
    ) {
        let wanted = config.install_guest_additions;
        let name = "--additions-iso="@;
        let host = install_config::hostname(config.computer_name, config.domain_name)->Ok_0;
        lemma_option_names();
        assert forall|i: int| 3 <= i < arguments.len() && begins(
            #[trigger] arguments[i],
            name,
        ) implies wanted && additions_iso == Some(arguments[i].skip(name.len() as int)) by {
            lemma_at(arguments[i], name, 2);
            assert(arguments[i][2] == 'a');
            lemma_begins(name, additions_iso->0);
        }
        let given = options(arguments);
        assert forall|i: int| 0 <= i < given.len() && #[trigger] given[i]
            == "--install-additions"@ implies wanted by {
            assert(given[i] == arguments[i + 3]);
            assert(arguments[i + 3][2] == 'i' && arguments[i + 3][3] == 'n');
        }
        let zone = if model::trimmed(config.time_zone).len() > 0 {
            1int
        } else {
            0
        };
        let at = 11 + zone + install_config::key_argument(config.product_key).len();
        if wanted {
            assert(arguments[at] == "--install-additions"@);
            assert(given[at - 3] == arguments[at]);
            if let Some(path) = additions_iso {
                assert(arguments[at + 1] == name + path);
                assert(given[at - 2] == arguments[at + 1]);
            }
        }
        assert forall|path: Text|
            #![trigger options(arguments).contains(name + path)]
            options(arguments).contains(name + path) <==> wanted && additions_iso == Some(
                path,
            ) by {
            if given.contains(name + path) {
                let i = choose|i: int| 0 <= i < given.len() && given[i] == name + path;
                lemma_begins(name, path);
                assert(begins(arguments[i + 3], name));
            }
        }
    }
}

/// Every setting of an installation reaches it: its image, its user, the file with the password,
/// the computer's name in its domain, its locale, its language, its country, its time zone and
/// its product key, each under its own name and nowhere else. Nothing else is told it, and it
/// begins at once.
pub proof fn law_every_setting_reaches_the_installation(
    vm_id: Text,
    iso_path: Text,
    password_file: Text,
    additions_iso: Option<Text>,
    config: WindowsInstallConfigView,
)
    ensures
        install_config::unattended(
            vm_id,
            iso_path,
            password_file,
            additions_iso,
            config,
        ) matches Ok((arguments, sensitive)) ==> {
            let told = options(arguments);
            let user = model::trimmed(config.username);
            let zone = model::trimmed(config.time_zone);
            let key = model::trimmed(config.product_key->0);
            let has_key = config.product_key is Some && key.len() > 0;
            let additions = config.install_guest_additions;
            &&& arguments.len() >= 12
            &&& arguments[0] == "unattended"@
            &&& arguments[1] == "install"@
            &&& arguments[2] == vm_id
            &&& arguments.last() == "--start-vm=gui"@
            &&& told.contains("--iso="@ + iso_path)
            &&& told.contains("--user="@ + user)
            &&& told.contains("--user-password-file="@ + password_file)
            &&& told.contains("--full-user-name="@ + user)
            &&& told.contains(
                "--hostname="@ + (model::lower(model::trimmed(config.computer_name)) + "."@
                    + model::lower(model::trimmed(config.domain_name))),
            )
            &&& told.contains("--locale="@ + config.locale)
            &&& told.contains("--language="@ + config.language)
            &&& told.contains("--country="@ + config.country)
            &&& zone.len() > 0 ==> told.contains("--time-zone="@ + zone)
            &&& has_key ==> told.contains("--key="@ + key) && sensitive == seq!["--key="@ + key]
            &&& !has_key ==> sensitive.len() == 0
            &&& told.len() == 9 + (if zone.len() > 0 {
                1int
            } else {
                0
            }) + (if has_key {
                1int
            } else {
                0
            }) + (if additions {
                1int
            } else {
                0
            }) + (if additions && additions_iso is Some {
                1int
            } else {
                0
            })
        },
{
    if let Ok((arguments, sensitive)) = install_config::unattended(
        vm_id,
        iso_path,
        password_file,
        additions_iso,
        config,
    ) {
        let told = options(arguments);
        let zone = model::trimmed(config.time_zone);
        let key = model::trimmed(config.product_key->0);
        assert forall|i: int| 3 <= i < arguments.len() implies told.contains(
            #[trigger] arguments[i],
        ) by {
            assert(told[i - 3] == arguments[i]);
        }
        assert(told.contains(arguments[3]) && told.contains(arguments[4]) && told.contains(
            arguments[5],
        ) && told.contains(arguments[6]) && told.contains(arguments[7]) && told.contains(
            arguments[8],
        ) && told.contains(arguments[9]) && told.contains(arguments[10]));
        if zone.len() > 0 {
            assert(arguments[11] == "--time-zone="@ + zone);
        }
        if config.product_key is Some && key.len() > 0 {
            let at = 11 + (if zone.len() > 0 {
                1int
            } else {
                0
            });
            assert(arguments[at] == "--key="@ + key);
        }
    }
}

/// Two installations that differ in one setting are told the same but for that setting.
pub proof fn law_a_setting_changes_only_its_own_argument(
    vm_id: Text,
    iso_path: Text,
    password_file: Text,
    additions_iso: Option<Text>,
    config: WindowsInstallConfigView,
    other: WindowsInstallConfigView,
)
    requires
        other == (WindowsInstallConfigView {
            locale: other.locale,
            language: other.language,
            country: other.country,
            ..config
        }),
        install_config::unattended(
            vm_id,
            iso_path,
            password_file,
            additions_iso,
            config,
        ) is Ok,
    ensures
        ({
            let first = install_config::unattended(
                vm_id,
                iso_path,
                password_file,
                additions_iso,
                config,
            )->Ok_0.0;
            let second = install_config::unattended(
                vm_id,
                iso_path,
                password_file,
                additions_iso,
                other,
            );
            second matches Ok((arguments, _)) && arguments == first.update(
                8,
                "--locale="@ + other.locale,
            ).update(9, "--language="@ + other.language).update(
                10,
                "--country="@ + other.country,
            )
        }),
{
    let first = install_config::unattended(
        vm_id,
        iso_path,
        password_file,
        additions_iso,
        config,
    )->Ok_0.0;
    let second = install_config::unattended(
        vm_id,
        iso_path,
        password_file,
        additions_iso,
        other,
    )->Ok_0.0;
    assert(second =~= first.update(8, "--locale="@ + other.locale).update(
        9,
        "--language="@ + other.language,
    ).update(10, "--country="@ + other.country));
}

} // verus!
