//! What an unattended Windows installation is told, and what of it is acceptable.
use crate::duplicate::Duplicate;
use crate::text::compose::{chars_of, concat2, concat3, copy_opt, text_of, to_lower, to_upper};
use crate::text::model;
use crate::text::model::Text;
use crate::text::quote as quotes;
use crate::text::quote::quote;
use crate::text::scan::{
    alphanumeric, control, letter, same, same_any_case, split, trim, utf16_longer_than,
};
use vstd::prelude::*;

verus! {

/// What an unattended installation is told. It holds secrets, so it has no `Debug`; see
/// [`WindowsInstallConfig::redacted_text`].
#[derive(Eq, PartialEq)]
pub struct WindowsInstallConfig {
    pub username: String,
    pub password: String,
    pub computer_name: String,
    pub domain_name: String,
    pub locale: String,
    pub language: String,
    pub country: String,
    pub time_zone: String,
    pub product_key: Option<String>,
    pub install_guest_additions: bool,
}

/// The model of [`WindowsInstallConfig`].
#[verifier::ext_equal]
pub struct WindowsInstallConfigView {
    pub username: Text,
    pub password: Text,
    pub computer_name: Text,
    pub domain_name: Text,
    pub locale: Text,
    pub language: Text,
    pub country: Text,
    pub time_zone: Text,
    pub product_key: Option<Text>,
    pub install_guest_additions: bool,
}

impl View for WindowsInstallConfig {
    type V = WindowsInstallConfigView;

    open spec fn view(&self) -> WindowsInstallConfigView {
        WindowsInstallConfigView {
            username: self.username@,
            password: self.password@,
            computer_name: self.computer_name@,
            domain_name: self.domain_name@,
            locale: self.locale@,
            language: self.language@,
            country: self.country@,
            time_zone: self.time_zone@,
            product_key: model::opt_text(self.product_key),
            install_guest_additions: self.install_guest_additions,
        }
    }
}

impl Duplicate for WindowsInstallConfig {
    fn duplicate(&self) -> (r: Self) {
        WindowsInstallConfig {
            username: self.username.clone(),
            password: self.password.clone(),
            computer_name: self.computer_name.clone(),
            domain_name: self.domain_name.clone(),
            locale: self.locale.clone(),
            language: self.language.clone(),
            country: self.country.clone(),
            time_zone: self.time_zone.clone(),
            product_key: copy_opt(&self.product_key),
            install_guest_additions: self.install_guest_additions,
        }
    }
}

impl Clone for WindowsInstallConfig {
    fn clone(&self) -> (r: Self)
        ensures
            r@ == self@,
    {
        self.duplicate()
    }
}

/// What an installation is told unless the user says otherwise.
#[derive(Debug, Eq, PartialEq)]
pub struct WindowsInstallDefaults {
    pub username: String,
    pub computer_name: String,
    pub domain_name: String,
    pub hostname: String,
    pub locale: String,
    pub language: String,
    pub country: String,
    pub time_zone: String,
    pub install_guest_additions: bool,
}

/// The model of [`WindowsInstallDefaults`].
#[verifier::ext_equal]
pub struct WindowsInstallDefaultsView {
    pub username: Text,
    pub computer_name: Text,
    pub domain_name: Text,
    pub hostname: Text,
    pub locale: Text,
    pub language: Text,
    pub country: Text,
    pub time_zone: Text,
    pub install_guest_additions: bool,
}

impl View for WindowsInstallDefaults {
    type V = WindowsInstallDefaultsView;

    open spec fn view(&self) -> WindowsInstallDefaultsView {
        WindowsInstallDefaultsView {
            username: self.username@,
            computer_name: self.computer_name@,
            domain_name: self.domain_name@,
            hostname: self.hostname@,
            locale: self.locale@,
            language: self.language@,
            country: self.country@,
            time_zone: self.time_zone@,
            install_guest_additions: self.install_guest_additions,
        }
    }
}

impl Duplicate for WindowsInstallDefaults {
    fn duplicate(&self) -> (r: Self) {
        WindowsInstallDefaults {
            username: self.username.clone(),
            computer_name: self.computer_name.clone(),
            domain_name: self.domain_name.clone(),
            hostname: self.hostname.clone(),
            locale: self.locale.clone(),
            language: self.language.clone(),
            country: self.country.clone(),
            time_zone: self.time_zone.clone(),
            install_guest_additions: self.install_guest_additions,
        }
    }
}

impl Clone for WindowsInstallDefaults {
    fn clone(&self) -> (r: Self)
        ensures
            r@ == self@,
    {
        self.duplicate()
    }
}

// ---- Classes of characters -------------------------------------------------------------

/// The characters of a host name's labels.
pub open spec fn is_label_char(c: char) -> bool {
    model::is_alphanumeric(c) || c == '-'
}

/// The characters that a Windows user name must not have, besides control characters.
pub open spec fn is_forbidden_in_username(c: char) -> bool {
    c == '"' || c == '/' || c == '\\' || c == '[' || c == ']' || c == ':' || c == ';' || c == '|'
        || c == '=' || c == ',' || c == '+' || c == '*' || c == '?' || c == '<' || c == '>'
}

/// The characters of a Windows user name.
pub open spec fn is_username_char(c: char) -> bool {
    !model::is_control(c) && !is_forbidden_in_username(c)
}

#[derive(Clone, Copy)]
enum Kind {
    Letter,
    Alphanumeric,
    Label,
    Username,
    Printable,
}

impl Kind {
    spec fn members(self) -> spec_fn(char) -> bool {
        match self {
            Kind::Letter => |c: char| model::is_letter(c),
            Kind::Alphanumeric => |c: char| model::is_alphanumeric(c),
            Kind::Label => |c: char| is_label_char(c),
            Kind::Username => |c: char| is_username_char(c),
            Kind::Printable => |c: char| !model::is_control(c),
        }
    }

    fn holds(self, c: char) -> (r: bool)
        ensures
            r == (self.members())(c),
    {
        match self {
            Kind::Letter => letter(c),
            Kind::Alphanumeric => alphanumeric(c),
            Kind::Label => alphanumeric(c) || c == '-',
            Kind::Username => !control(c) && !(c == '"' || c == '/' || c == '\\' || c == '[' || c
                == ']' || c == ':' || c == ';' || c == '|' || c == '=' || c == ',' || c == '+' || c
                == '*' || c == '?' || c == '<' || c == '>'),
            Kind::Printable => !control(c),
        }
    }
}

fn all_of(text: &str, kind: Kind) -> (r: bool)
    ensures
        r == model::all_chars(text@, kind.members()),
{
    let chars = chars_of(text);
    let mut i: usize = 0;
    while i < chars.len()
        invariant
            i <= chars@.len(),
            chars@ == text@,
            forall|k: int| 0 <= k < i ==> (kind.members())(#[trigger] text@[k]),
        decreases chars.len() - i,
    {
        if !kind.holds(chars[i]) {
            assert(!(kind.members())(text@[i as int]));
            return false;
        }
        i += 1;
    }
    true
}

fn count_of(text: &str) -> (r: usize)
    ensures
        r == text@.len(),
{
    chars_of(text).len()
}

// ---- Host names ------------------------------------------------------------------------

/// Whether a text can be a label of a host name: letters, digits and hyphens, with no hyphen at
/// either end.
pub open spec fn is_label(s: Text, longest: int) -> bool {
    0 < s.len() <= longest && s[0] != '-' && s.last() != '-' && model::all_chars(
        s,
        |c: char| is_label_char(c),
    )
}

/// What is said of a bad computer name.
pub open spec fn computer_name_message() -> Text {
    "Windows computer name must be 1-15 ASCII letters, digits, or hyphens; it cannot contain dots or begin/end with a hyphen"@
}

/// Whether a text, without the white space around it, can be the name of a computer.
pub open spec fn is_computer_name(name: Text) -> bool {
    is_label(model::trimmed(name), 15)
}

/// Whether a text can be a domain: labels with dots between them.
pub open spec fn is_domain(domain: Text) -> bool {
    forall|i: int|
        0 <= i < model::pieces(domain, "."@).len() ==> is_label(
            #[trigger] model::pieces(domain, "."@)[i],
            63,
        )
}

/// A domain as it is used: without white space around it, in lower case.
pub open spec fn used_domain(domain: Text) -> Text {
    model::lower(model::trimmed(domain))
}

/// The full host name of a computer in a domain, or why there is none.
pub open spec fn hostname(computer_name: Text, domain_name: Text) -> Result<Text, Text> {
    let domain = used_domain(domain_name);
    let name = model::lower(model::trimmed(computer_name)) + "."@ + domain;
    if !is_computer_name(computer_name) {
        Err(computer_name_message())
    } else if domain.len() == 0 {
        Err("DNS domain is required for VirtualBox unattended setup"@)
    } else if !is_domain(domain) {
        Err("DNS domain contains an empty or invalid label"@)
    } else if name.len() > 253 {
        Err("generated unattended hostname is not a valid FQDN"@)
    } else {
        Ok(name)
    }
}

fn is_label_text(text: &str, longest: usize) -> (r: bool)
    ensures
        r == is_label(text@, longest as int),
{
    let chars = chars_of(text);
    let count: usize = chars.len();
    assert((Kind::Label.members()) =~= (|c: char| is_label_char(c)));
    count > 0 && count <= longest && chars[0] != '-' && chars[count - 1] != '-' && all_of(
        text,
        Kind::Label,
    )
}

/// That a text can be the name of a computer.
pub fn validate_computer_name(computer_name: &str) -> (r: Result<(), String>)
    ensures
        model::with_message(r) == (if is_computer_name(computer_name@) {
            Ok::<(), Text>(())
        } else {
            Err(computer_name_message())
        }),
{
    let computer = trim(computer_name);
    if is_label_text(computer.as_str(), 15) {
        Ok(())
    } else {
        Err(
            "Windows computer name must be 1-15 ASCII letters, digits, or hyphens; it cannot contain dots or begin/end with a hyphen".to_owned(),
        )
    }
}

fn is_domain_text(domain: &str) -> (r: bool)
    ensures
        r == is_domain(domain@),
{
    proof {
        reveal_strlit(".");
    }
    let labels = split(domain, ".");
    let ghost all = model::pieces(domain@, "."@);
    let mut i: usize = 0;
    while i < labels.len()
        invariant
            i <= labels@.len(),
            all == model::pieces(domain@, "."@),
            all == model::texts(labels@),
            forall|k: int| 0 <= k < i ==> is_label(#[trigger] all[k], 63),
        decreases labels.len() - i,
    {
        assert(all[i as int] == labels@[i as int]@);
        if !is_label_text(labels[i].as_str(), 63) {
            return false;
        }
        i += 1;
    }
    true
}

/// The full host name of a computer in a domain.
pub fn unattended_hostname(computer_name: &str, domain_name: &str) -> (r: Result<String, String>)
    ensures
        model::text_result(r) == hostname(computer_name@, domain_name@),
{
    if let Err(message) = validate_computer_name(computer_name) {
        return Err(message);
    }
    let bare = trim(domain_name);
    let domain = to_lower(bare.as_str());
    if domain.as_str().is_empty() {
        return Err("DNS domain is required for VirtualBox unattended setup".to_owned());
    }
    if !is_domain_text(domain.as_str()) {
        return Err("DNS domain contains an empty or invalid label".to_owned());
    }
    let computer = trim(computer_name);
    let lower = to_lower(computer.as_str());
    let name = concat3(lower.as_str(), ".", domain.as_str());
    if count_of(name.as_str()) > 253 {
        return Err("generated unattended hostname is not a valid FQDN".to_owned());
    }
    Ok(name)
}

/// The name and the domain of a managed computer: where a name is missing, or is the one that
/// was given before names were checked, the present one takes its place, and a missing domain
/// is filled in.
pub open spec fn migrated(computer_name: Text, domain_name: Text) -> (Text, Text) {
    (
        if model::trimmed(computer_name).len() == 0 || model::same_ignoring_case(
            model::trimmed(computer_name),
            "MULTISEAT-BARNEN"@,
        ) {
            "BARNEN-PC"@
        } else {
            computer_name
        },
        if model::trimmed(domain_name).len() == 0 {
            "multiseat.local"@
        } else {
            domain_name
        },
    )
}

/// Whether migration changes something.
pub open spec fn needs_migration(computer_name: Text, domain_name: Text) -> bool {
    model::trimmed(computer_name).len() == 0 || model::same_ignoring_case(
        model::trimmed(computer_name),
        "MULTISEAT-BARNEN"@,
    ) || model::trimmed(domain_name).len() == 0
}

/// Brings the name and the domain of a managed computer up to date.
pub fn migrate_managed_hostname_parts(computer_name: &mut String, domain_name: &mut String) -> (r:
    bool)
    ensures
        (final(computer_name)@, final(domain_name)@) == migrated(
            old(computer_name)@,
            old(domain_name)@,
        ),
        r == needs_migration(old(computer_name)@, old(domain_name)@),
{
    let mut changed = false;
    let computer = trim(computer_name.as_str());
    if computer.as_str().is_empty() || same_any_case(computer.as_str(), "MULTISEAT-BARNEN") {
        *computer_name = "BARNEN-PC".to_owned();
        changed = true;
    }
    let domain = trim(domain_name.as_str());
    if domain.as_str().is_empty() {
        *domain_name = "multiseat.local".to_owned();
        changed = true;
    }
    changed
}

/// Brings the name and the domain in a configuration up to date, and says whether that changed
/// something.
pub fn apply_legacy_managed_install_defaults(config: &mut WindowsInstallConfig) -> (r: bool)
    ensures
        ({
            let (computer_name, domain_name) = migrated(
                old(config)@.computer_name,
                old(config)@.domain_name,
            );
            final(config)@ == (WindowsInstallConfigView {
                computer_name,
                domain_name,
                ..old(config)@
            })
        }),
        r == needs_migration(old(config)@.computer_name, old(config)@.domain_name),
{
    let mut computer_name = config.computer_name.clone();
    let mut domain_name = config.domain_name.clone();
    let changed = migrate_managed_hostname_parts(&mut computer_name, &mut domain_name);
    config.computer_name = computer_name;
    config.domain_name = domain_name;
    changed
}

// ---- Defaults --------------------------------------------------------------------------

/// The characters that stand between the parts of a locale's name.
pub open spec fn locale_part_class() -> spec_fn(char) -> bool {
    |c: char| c != '-' && c != '_'
}

/// The language and the country of a locale such as `en-US`.
pub open spec fn locale_parts(locale: Text) -> (Text, Text) {
    let first = model::leading(locale, locale_part_class());
    let rest = model::without_leading(locale, locale_part_class());
    (
        model::lower(first),
        if rest.len() == 0 {
            "US"@
        } else {
            model::upper(model::leading(rest.skip(1), locale_part_class()))
        },
    )
}

/// What an installation is told unless the user says otherwise, on a host with a locale.
pub open spec fn install_defaults(locale: Option<Text>) -> WindowsInstallDefaultsView {
    let (language, country) = locale_parts(
        match locale {
            Some(text) => text,
            None => "en-US"@,
        },
    );
    WindowsInstallDefaultsView {
        username: "Barnen"@,
        computer_name: "BARNEN-PC"@,
        domain_name: "multiseat.local"@,
        hostname: match hostname("BARNEN-PC"@, "multiseat.local"@) {
            Ok(name) => name,
            Err(_) => "barnen-pc.multiseat.local"@,
        },
        locale: language + "_"@ + country,
        language,
        country,
        time_zone: seq![],
        install_guest_additions: true,
    }
}

fn part_length(chars: &Vec<char>, from: usize) -> (r: usize)
    requires
        from <= chars@.len(),
    ensures
        r <= chars@.len() - from,
        model::leading(chars@.skip(from as int), locale_part_class()) == chars@.subrange(
            from as int,
            from + r,
        ),
        model::without_leading(chars@.skip(from as int), locale_part_class()) == chars@.skip(
            from + r,
        ),
    decreases chars@.len() - from,
{
    let ghost rest = chars@.skip(from as int);
    if from == chars.len() {
        assert(rest =~= Seq::<char>::empty());
        assert(chars@.subrange(from as int, from as int) =~= Seq::<char>::empty());
        return 0;
    }
    assert(rest[0] == chars@[from as int]);
    if chars[from] == '-' || chars[from] == '_' {
        assert(chars@.subrange(from as int, from as int) =~= Seq::<char>::empty());
        return 0;
    }
    let more = part_length(chars, from + 1);
    proof {
        assert(rest.skip(1) =~= chars@.skip(from + 1));
        assert(seq![rest[0]] + chars@.subrange(from + 1, from + 1 + more) =~= chars@.subrange(
            from as int,
            from + 1 + more,
        ));
    }
    more + 1
}

/// What an installation is told unless the user says otherwise, on a host with a locale.
pub fn host_windows_install_defaults(locale: Option<&str>) -> (r: WindowsInstallDefaults)
    ensures
        r@ == install_defaults(model::opt_str(locale)),
{
    let text = match locale {
        Some(text) => text,
        None => "en-US",
    };
    let chars = chars_of(text);
    let count: usize = chars.len();
    assert(chars@.skip(0) =~= text@);
    let first = part_length(&chars, 0);
    let language_part = text_of(&chars, 0, first);
    let language = to_lower(language_part.as_str());
    let country = if first == count {
        assert(chars@.skip(first as int).len() == 0);
        "US".to_owned()
    } else {
        let second = part_length(&chars, first + 1);
        assert(chars@.skip(first as int).skip(1) =~= chars@.skip(first + 1));
        let country_part = text_of(&chars, first + 1, first + 1 + second);
        to_upper(country_part.as_str())
    };
    let hostname = match unattended_hostname("BARNEN-PC", "multiseat.local") {
        Ok(name) => name,
        Err(_) => "barnen-pc.multiseat.local".to_owned(),
    };
    WindowsInstallDefaults {
        username: "Barnen".to_owned(),
        computer_name: "BARNEN-PC".to_owned(),
        domain_name: "multiseat.local".to_owned(),
        hostname,
        locale: concat3(language.as_str(), "_", country.as_str()),
        language,
        country,
        time_zone: String::new(),
        install_guest_additions: true,
    }
}

// ---- Validation ------------------------------------------------------------------------

/// Whether a text can be the name of a Windows user.
pub open spec fn is_username(name: Text) -> bool {
    let username = model::trimmed(name);
    0 < username.len() && model::utf16_len(username) <= 20 && username != "."@ && username != ".."@
        && model::all_chars(username, |c: char| is_username_char(c))
}

/// Whether a text can be a password.
pub open spec fn is_password(password: Text) -> bool {
    0 < password.len() <= 127 && model::all_chars(password, |c: char| !model::is_control(c))
}

/// Whether a text is made of letters, as many as between two bounds.
pub open spec fn letters(s: Text, shortest: int, longest: int) -> bool {
    shortest <= s.len() <= longest && model::all_chars(s, |c: char| model::is_letter(c))
}

/// Whether a text is a locale such as `sv_SE`.
pub open spec fn is_locale(locale: Text) -> bool {
    let parts = model::pieces(locale, "_"@);
    parts.len() == 2 && letters(parts[0], 2, 3) && letters(parts[1], 2, 2)
}

/// Whether a text is one group of a product key.
pub open spec fn is_key_group(s: Text) -> bool {
    s.len() == 5 && model::all_chars(s, |c: char| model::is_alphanumeric(c))
}

/// Whether a text is a product key: five groups of five letters and digits.
pub open spec fn is_product_key(key: Text) -> bool {
    let groups = model::pieces(key, "-"@);
    groups.len() == 5 && (forall|i: int|
        0 <= i < groups.len() ==> is_key_group(#[trigger] groups[i]))
}

/// The product key that is to be used, where there is one.
pub open spec fn used_key(key: Option<Text>) -> Option<Text> {
    match key {
        Some(text) => if model::trimmed(text).len() > 0 {
            Some(model::trimmed(text))
        } else {
            None
        },
        None => None,
    }
}

/// That an installation can be told what a configuration says, or why not.
pub open spec fn config_check(config: WindowsInstallConfigView) -> Result<(), Text> {
    if !is_username(config.username) {
        Err("Windows username is empty, too long, or contains invalid characters"@)
    } else if !is_password(config.password) {
        Err("Windows password must contain 1-127 printable characters"@)
    } else {
        match hostname(config.computer_name, config.domain_name) {
            Err(message) => Err(message),
            Ok(_) => if !is_locale(config.locale) || !letters(config.language, 2, 3) || !letters(
                config.country,
                2,
                2,
            ) {
                Err("locale, language, or country has an invalid format"@)
            } else if !model::all_chars(config.time_zone, |c: char| !model::is_control(c)) {
                Err("time zone contains invalid control characters"@)
            } else if used_key(config.product_key) matches Some(key) && !is_product_key(key) {
                Err("Windows product key must contain five groups of five characters"@)
            } else {
                Ok(())
            },
        }
    }
}

fn username_ok(name: &str) -> (r: bool)
    ensures
        r == is_username(name@),
{
    let username = trim(name);
    assert((Kind::Username.members()) =~= (|c: char| is_username_char(c)));
    !username.as_str().is_empty() && !utf16_longer_than(username.as_str(), 20) && !same(
        username.as_str(),
        ".",
    ) && !same(username.as_str(), "..") && all_of(username.as_str(), Kind::Username)
}

fn password_ok(password: &str) -> (r: bool)
    ensures
        r == is_password(password@),
{
    let count = count_of(password);
    assert((Kind::Printable.members()) =~= (|c: char| !model::is_control(c)));
    0 < count && count <= 127 && all_of(password, Kind::Printable)
}

fn letters_ok(text: &str, shortest: usize, longest: usize) -> (r: bool)
    ensures
        r == letters(text@, shortest as int, longest as int),
{
    let count = count_of(text);
    assert((Kind::Letter.members()) =~= (|c: char| model::is_letter(c)));
    shortest <= count && count <= longest && all_of(text, Kind::Letter)
}

/// Whether a text is a locale such as `sv_SE`.
pub fn valid_locale(locale: &str) -> (r: bool)
    ensures
        r == is_locale(locale@),
{
    proof {
        reveal_strlit("_");
    }
    let parts = split(locale, "_");
    let ghost all = model::pieces(locale@, "_"@);
    assert(all == model::texts(parts@));
    if parts.len() != 2 {
        return false;
    }
    assert(all[0] == parts@[0]@ && all[1] == parts@[1]@);
    letters_ok(parts[0].as_str(), 2, 3) && letters_ok(parts[1].as_str(), 2, 2)
}

fn product_key_ok(key: &str) -> (r: bool)
    ensures
        r == is_product_key(key@),
{
    proof {
        reveal_strlit("-");
    }
    let groups = split(key, "-");
    let ghost all = model::pieces(key@, "-"@);
    if groups.len() != 5 {
        return false;
    }
    let mut i: usize = 0;
    while i < groups.len()
        invariant
            i <= groups@.len(),
            all == model::pieces(key@, "-"@),
            all == model::texts(groups@),
            forall|k: int| 0 <= k < i ==> is_key_group(#[trigger] all[k]),
        decreases groups.len() - i,
    {
        let group = groups[i].as_str();
        assert(all[i as int] == groups@[i as int]@);
        assert((Kind::Alphanumeric.members()) =~= (|c: char| model::is_alphanumeric(c)));
        if count_of(group) != 5 || !all_of(group, Kind::Alphanumeric) {
            assert(!is_key_group(all[i as int]));
            return false;
        }
        i += 1;
    }
    true
}

fn key_in_use(key: &Option<String>) -> (r: Option<String>)
    ensures
        model::opt_text(r) == used_key(model::opt_text(*key)),
{
    match key {
        Some(text) => {
            let bare = trim(text.as_str());
            if bare.as_str().is_empty() {
                None
            } else {
                Some(bare)
            }
        },
        None => None,
    }
}

/// That an installation can be told what a configuration says, or why not.
pub fn validate_windows_install_config(config: &WindowsInstallConfig) -> (r: Result<(), String>)
    ensures
        model::with_message(r) == config_check(config@),
{
    if !username_ok(config.username.as_str()) {
        return Err(
            "Windows username is empty, too long, or contains invalid characters".to_owned(),
        );
    }
    if !password_ok(config.password.as_str()) {
        return Err("Windows password must contain 1-127 printable characters".to_owned());
    }
    if let Err(message) = unattended_hostname(
        config.computer_name.as_str(),
        config.domain_name.as_str(),
    ) {
        return Err(message);
    }
    if !valid_locale(config.locale.as_str()) || !letters_ok(config.language.as_str(), 2, 3)
        || !letters_ok(config.country.as_str(), 2, 2) {
        return Err("locale, language, or country has an invalid format".to_owned());
    }
    assert((Kind::Printable.members()) =~= (|c: char| !model::is_control(c)));
    if !all_of(config.time_zone.as_str(), Kind::Printable) {
        return Err("time zone contains invalid control characters".to_owned());
    }
    if let Some(key) = key_in_use(&config.product_key) {
        if !product_key_ok(key.as_str()) {
            return Err(
                "Windows product key must contain five groups of five characters".to_owned(),
            );
        }
    }
    Ok(())
}

// ---- The command -----------------------------------------------------------------------

/// The argument that hands over a product key.
pub open spec fn key_argument(key: Option<Text>) -> Seq<Text> {
    match used_key(key) {
        Some(text) => seq!["--key="@ + text],
        None => seq![],
    }
}

/// The arguments that ask for the Guest Additions.
pub open spec fn additions_arguments(wanted: bool, iso: Option<Text>) -> Seq<Text> {
    if !wanted {
        seq![]
    } else {
        match iso {
            Some(path) => seq!["--install-additions"@, "--additions-iso="@ + path],
            None => seq!["--install-additions"@],
        }
    }
}

/// The arguments of an unattended installation, with the product key last before the Guest
/// Additions. The password stands in a file, and only the file's path is handed over.
pub open spec fn install_arguments(
    vm_id: Text,
    iso_path: Text,
    password_file: Text,
    additions_iso: Option<Text>,
    config: WindowsInstallConfigView,
    host: Text,
) -> Seq<Text> {
    seq![
        "unattended"@,
        "install"@,
        vm_id,
        "--iso="@ + iso_path,
        "--user="@ + model::trimmed(config.username),
        "--user-password-file="@ + password_file,
        "--full-user-name="@ + model::trimmed(config.username),
        "--hostname="@ + host,
        "--locale="@ + config.locale,
        "--language="@ + config.language,
        "--country="@ + config.country,
    ] + (if model::trimmed(config.time_zone).len() > 0 {
        seq!["--time-zone="@ + model::trimmed(config.time_zone)]
    } else {
        seq![]
    }) + key_argument(config.product_key) + additions_arguments(
        config.install_guest_additions,
        additions_iso,
    ) + seq!["--start-vm=gui"@]
}

/// The arguments of an unattended installation, and those of them that are sensitive.
pub open spec fn unattended(
    vm_id: Text,
    iso_path: Text,
    password_file: Text,
    additions_iso: Option<Text>,
    config: WindowsInstallConfigView,
) -> Result<(Seq<Text>, Seq<Text>), Text> {
    match hostname(config.computer_name, config.domain_name) {
        Err(message) => Err(message),
        Ok(host) => Ok(
            (
                install_arguments(vm_id, iso_path, password_file, additions_iso, config, host),
                key_argument(config.product_key),
            ),
        ),
    }
}

/// The view of arguments, or of why there are none.
pub open spec fn arguments_result(r: Result<(Vec<String>, Vec<String>), String>) -> Result<
    (Seq<Text>, Seq<Text>),
    Text,
> {
    match r {
        Ok((arguments, sensitive)) => Ok((model::texts(arguments@), model::texts(sensitive@))),
        Err(message) => Err(message@),
    }
}

/// The arguments of an unattended installation, and those of them that are sensitive.
pub fn unattended_arguments(
    vm_id: &str,
    iso_path: &str,
    password_file: &str,
    additions_iso: Option<&str>,
    config: &WindowsInstallConfig,
) -> (r: Result<(Vec<String>, Vec<String>), String>)
    ensures
        arguments_result(r) == unattended(
            vm_id@,
            iso_path@,
            password_file@,
            model::opt_str(additions_iso),
            config@,
        ),
{
    let host = match unattended_hostname(
        config.computer_name.as_str(),
        config.domain_name.as_str(),
    ) {
        Ok(host) => host,
        Err(message) => {
            return Err(message);
        },
    };
    let username = trim(config.username.as_str());
    let mut arguments: Vec<String> = Vec::new();
    arguments.push("unattended".to_owned());
    arguments.push("install".to_owned());
    arguments.push(vm_id.to_owned());
    arguments.push(concat2("--iso=", iso_path));
    arguments.push(concat2("--user=", username.as_str()));
    arguments.push(concat2("--user-password-file=", password_file));
    arguments.push(concat2("--full-user-name=", username.as_str()));
    arguments.push(concat2("--hostname=", host.as_str()));
    arguments.push(concat2("--locale=", config.locale.as_str()));
    arguments.push(concat2("--language=", config.language.as_str()));
    arguments.push(concat2("--country=", config.country.as_str()));
    let time_zone = trim(config.time_zone.as_str());
    if !time_zone.as_str().is_empty() {
        arguments.push(concat2("--time-zone=", time_zone.as_str()));
    }
    let mut sensitive: Vec<String> = Vec::new();
    if let Some(key) = key_in_use(&config.product_key) {
        sensitive.push(concat2("--key=", key.as_str()));
        arguments.push(concat2("--key=", key.as_str()));
    }
    if config.install_guest_additions {
        arguments.push("--install-additions".to_owned());
        if let Some(path) = additions_iso {
            arguments.push(concat2("--additions-iso=", path));
        }
    }
    arguments.push("--start-vm=gui".to_owned());
    proof {
        assert(model::texts(arguments@) =~= install_arguments(
            vm_id@,
            iso_path@,
            password_file@,
            model::opt_str(additions_iso),
            config@,
            host@,
        ));
        assert(model::texts(sensitive@) =~= key_argument(config@.product_key));
    }
    Ok((arguments, sensitive))
}

/// The names and values of a configuration's fields, with its secrets taken out.
pub open spec fn redacted_config(config: WindowsInstallConfigView) -> Text {
    "WindowsInstallConfig { username: "@ + quotes::debug_quoted(config.username)
        + ", password: \"<redacted>\", computer_name: "@ + quotes::debug_quoted(config.computer_name)
        + ", domain_name: "@ + quotes::debug_quoted(config.domain_name) + ", locale: "@ + quotes::debug_quoted(
        config.locale,
    ) + ", language: "@ + quotes::debug_quoted(config.language) + ", country: "@ + quotes::debug_quoted(
        config.country,
    ) + ", time_zone: "@ + quotes::debug_quoted(config.time_zone) + ", product_key: "@ + (
    if config.product_key is Some {
        "Some(\"<redacted>\")"@
    } else {
        "None"@
    }) + ", install_guest_additions: "@ + (if config.install_guest_additions {
        "true"@
    } else {
        "false"@
    }) + " }"@
}

impl WindowsInstallConfig {
    /// The configuration as a text without its secrets, for logs.
    pub fn redacted_text(&self) -> (r: String)
        ensures
            r@ == redacted_config(self@),
    {
        let mut text = "WindowsInstallConfig { username: ".to_owned();
        text.append(quote(self.username.as_str()).as_str());
        text.append(", password: \"<redacted>\", computer_name: ");
        text.append(quote(self.computer_name.as_str()).as_str());
        text.append(", domain_name: ");
        text.append(quote(self.domain_name.as_str()).as_str());
        text.append(", locale: ");
        text.append(quote(self.locale.as_str()).as_str());
        text.append(", language: ");
        text.append(quote(self.language.as_str()).as_str());
        text.append(", country: ");
        text.append(quote(self.country.as_str()).as_str());
        text.append(", time_zone: ");
        text.append(quote(self.time_zone.as_str()).as_str());
        text.append(", product_key: ");
        text.append(
            if self.product_key.is_some() {
                "Some(\"<redacted>\")"
            } else {
                "None"
            },
        );
        text.append(", install_guest_additions: ");
        text.append(
            if self.install_guest_additions {
                "true"
            } else {
                "false"
            },
        );
        text.append(" }");
        text
    }
}

} // verus!
