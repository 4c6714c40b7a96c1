//! What the answers of a guest say about its installation.
use crate::duplicate;
use crate::seats::{
    GuestAdditionsInstallState, GuestAdditionsStatus, GuestRunLevel, GuestRunLevelProbe,
    GuestRunLevelProbeView, ManagedInstallState, ManagedInstallationEvidence,
    ManagedInstallationEvidenceView, ManagedInstallationObservation,
    ManagedInstallationObservationView, ManagedVmInstallation, ManagedVmInstallationView,
    ManagedVmStatus, ManagedWindowsVersion, WindowsInstallationStatus,
};
use crate::text::compose::{concat2, concat3, concat6, copy_opt, to_lower};
use crate::text::model;
use crate::text::model::Text;
use crate::text::number::parse_number;
use crate::text::scan::{has, lines_of, same, split_at_first, strip_start, trim, trim_char};
use crate::text_map;
use crate::text_map::TextMap;
use vstd::prelude::*;

verus! {

// ---- Guest properties ------------------------------------------------------------------

/// What stands before a separator, or everything where there is none.
pub open spec fn upto(s: Text, separator: Text) -> Text {
    match model::split_once(s, separator) {
        Some((before, _)) => before,
        None => s,
    }
}

/// The name and the value of a property, in either of the two forms in which VirtualBox lists
/// them: `name = 'value' @ time` and `Name: name, value: value, timestamp: time`.
pub open spec fn property(text: Text) -> Option<(Text, Text)> {
    let line = model::trimmed(text);
    match model::split_once(line, " = "@) {
        Some((name, rest)) => Some(
            (model::trimmed(name), model::trimmed_of(model::trimmed(upto(rest, " @ "@)), '\'')),
        ),
        None => match model::after_prefix(line, "Name: "@) {
            None => None,
            Some(rest) => match model::split_once(rest, ", value: "@) {
                None => None,
                Some((name, value)) => Some(
                    (model::trimmed(name), model::trimmed(upto(value, ", timestamp:"@))),
                ),
            },
        },
    }
}

/// The properties that some lines state. Of two lines with one name the later counts.
pub open spec fn properties_of_lines(lines: Seq<Text>) -> Map<Text, Text>
    decreases lines.len(),
{
    if lines.len() == 0 {
        Map::empty()
    } else {
        let earlier = properties_of_lines(lines.drop_last());
        match property(lines.last()) {
            Some((name, value)) => earlier.insert(name, value),
            None => earlier,
        }
    }
}

/// The properties of a listing.
pub open spec fn guest_property_map(output: Text) -> Map<Text, Text> {
    properties_of_lines(model::lines(output))
}

fn before_separator(text: &str, separator: &str) -> (r: String)
    ensures
        r@ == upto(text@, separator@),
{
    match split_at_first(text, separator) {
        Some((before, _)) => before,
        None => text.to_owned(),
    }
}

fn parse_property(text: &str) -> (r: Option<(String, String)>)
    ensures
        match r {
            Some((name, value)) => property(text@) == Some((name@, value@)),
            None => property(text@) is None,
        },
{
    let line = trim(text);
    if let Some((name, rest)) = split_at_first(line.as_str(), " = ") {
        let value = trim(before_separator(rest.as_str(), " @ ").as_str());
        return Some((trim(name.as_str()), trim_char(value.as_str(), '\'')));
    }
    match strip_start(line.as_str(), "Name: ") {
        None => None,
        Some(rest) => match split_at_first(rest.as_str(), ", value: ") {
            None => None,
            Some((name, value)) => Some(
                (
                    trim(name.as_str()),
                    trim(before_separator(value.as_str(), ", timestamp:").as_str()),
                ),
            ),
        },
    }
}

/// Reads the output of `VBoxManage guestproperty enumerate`.
pub fn parse_guest_properties(output: &str) -> (r: TextMap<String>)
    ensures
        text_map::text_values(r@) == guest_property_map(output@),
{
    let mut properties: TextMap<String> = TextMap::new();
    let lines = lines_of(output);
    let ghost all = model::texts(lines@);
    let mut i: usize = 0;
    assert(all.take(0) =~= Seq::<Text>::empty());
    assert(text_map::text_values(properties@) =~= Map::<Text, Text>::empty());
    while i < lines.len()
        invariant
            i <= lines@.len(),
            all == model::texts(lines@),
            text_map::text_values(properties@) == properties_of_lines(all.take(i as int)),
        decreases lines.len() - i,
    {
        proof {
            assert(all.take(i + 1).drop_last() =~= all.take(i as int));
            assert(all.take(i + 1).last() == lines@[i as int]@);
        }
        if let Some((name, value)) = parse_property(lines[i].as_str()) {
            let ghost before = properties@;
            properties.insert(name.as_str(), value);
            assert(text_map::text_values(properties@) =~= text_map::text_values(before).insert(
                name@,
                value@,
            ));
        }
        i += 1;
    }
    assert(all.take(i as int) =~= all);
    properties
}

/// The value of a property or a field, copied.
pub(crate) fn copied(values: &TextMap<String>, name: &str) -> (r: Option<String>)
    ensures
        model::opt_text(r) == text_map::lookup(text_map::text_values(values@), name@),
{
    match values.get(name) {
        Some(value) => Some(value.clone()),
        None => None,
    }
}

// ---- Reconciliation --------------------------------------------------------------------

/// The higher of two levels.
pub open spec fn higher(a: GuestRunLevel, b: GuestRunLevel) -> GuestRunLevel {
    if a.rank() >= b.rank() {
        a
    } else {
        b
    }
}

/// The highest level that a probe reached.
pub open spec fn strongest(probes: Seq<GuestRunLevelProbeView>) -> GuestRunLevel
    decreases probes.len(),
{
    if probes.len() == 0 {
        GuestRunLevel::Unknown
    } else if probes.last().success {
        higher(strongest(probes.drop_last()), probes.last().level)
    } else {
        strongest(probes.drop_last())
    }
}

/// The first of two values that is there.
pub open spec fn or_else(first: Option<Text>, second: Option<Text>) -> Option<Text> {
    if first is Some {
        first
    } else {
        second
    }
}

/// What a look at a guest gives, together with what is known from earlier ones.
#[verifier::ext_equal]
pub struct Findings {
    /// The highest level that was reached just now.
    pub reached: GuestRunLevel,
    pub current_os: Option<Text>,
    pub current_additions: Option<Text>,
    pub current_host_version: Option<Text>,
    pub os_product: Option<Text>,
    pub additions_version: Option<Text>,
    pub host_version: Option<Text>,
    pub reset_counter: Option<u64>,
    /// Whether the guest is the Windows version that was installed.
    pub os_matches: bool,
}

/// The name of a Windows version, as guests give it, in small letters.
pub open spec fn expected_product(version: ManagedWindowsVersion) -> Text {
    match version {
        ManagedWindowsVersion::Windows10 => "windows 10"@,
        ManagedWindowsVersion::Windows11 => "windows 11"@,
    }
}

/// A counter that a property states.
pub open spec fn counter(text: Option<Text>) -> Option<u64> {
    match text {
        Some(value) => match model::parsed_number(value, u64::MAX as nat) {
            Some(n) => Some(n as u64),
            None => None,
        },
        None => None,
    }
}

/// What a look at a guest gives.
pub open spec fn findings(
    previous: ManagedVmInstallationView,
    probes: Seq<GuestRunLevelProbeView>,
    properties: Map<Text, Text>,
) -> Findings {
    let known = previous.observed.evidence;
    let current_os = text_map::lookup(properties, "/VirtualBox/GuestInfo/OS/Product"@);
    let current_additions = text_map::lookup(properties, "/VirtualBox/GuestAdd/Version"@);
    let current_host_version = text_map::lookup(
        properties,
        "/VirtualBox/GuestAdd/HostVerLastChecked"@,
    );
    let current_resets = counter(
        text_map::lookup(properties, "/VirtualBox/VMInfo/ResetCounter"@),
    );
    let os_product = or_else(current_os, known.guest_os_product);
    Findings {
        reached: strongest(probes),
        current_os,
        current_additions,
        current_host_version,
        os_product,
        additions_version: or_else(
            or_else(current_additions, known.guest_additions_version),
            previous.guest_additions_version,
        ),
        host_version: or_else(current_host_version, known.guest_add_host_version_last_checked),
        reset_counter: if current_resets is Some {
            current_resets
        } else {
            known.reset_counter
        },
        os_matches: match os_product {
            Some(product) => model::contains(
                model::lower(product),
                expected_product(previous.windows_version),
            ),
            None => false,
        },
    }
}

/// Whether Windows is there. Once it was found installed it stays so.
pub open spec fn windows_status(previous: ManagedVmInstallationView, found: Findings) ->
    WindowsInstallationStatus {
    if previous.observed.windows == WindowsInstallationStatus::Installed || found.reached.rank()
        >= GuestRunLevel::Userland.rank() || found.os_matches {
        WindowsInstallationStatus::Installed
    } else if previous.state == ManagedInstallState::Creating || previous.state
        == ManagedInstallState::InstallingWindows || previous.state
        == ManagedInstallState::Rebooting {
        WindowsInstallationStatus::Installing
    } else {
        WindowsInstallationStatus::Unknown
    }
}

/// Whether the Guest Additions are there.
pub open spec fn additions_status(
    previous: ManagedVmInstallationView,
    found: Findings,
    windows: WindowsInstallationStatus,
) -> GuestAdditionsStatus {
    if found.current_additions is Some || (found.additions_version is Some
        && previous.observed.run_level.rank() >= GuestRunLevel::System.rank()) {
        GuestAdditionsStatus::InstalledVersionKnown
    } else if found.reached.rank() >= GuestRunLevel::System.rank() {
        GuestAdditionsStatus::Communicating
    } else if found.current_host_version is Some {
        GuestAdditionsStatus::PartialEvidence
    } else if windows == WindowsInstallationStatus::Installed {
        GuestAdditionsStatus::Unavailable
    } else {
        GuestAdditionsStatus::Unknown
    }
}

/// Whether the evidence of this look alone shows a guest that is ready.
pub open spec fn strong_readiness(found: Findings) -> bool {
    found.reached.rank() >= GuestRunLevel::Userland.rank() || (found.os_matches
        && found.current_additions is Some)
}

/// Whether a machine is off.
pub open spec fn is_off(state: Text) -> bool {
    model::lower(state) == "poweroff"@ || model::lower(state) == "poweredoff"@
}

/// What is to be said of a machine.
pub open spec fn managed_status(
    windows: WindowsInstallationStatus,
    vm_state: Text,
    found: Findings,
) -> ManagedVmStatus {
    let state = model::lower(vm_state);
    if windows == WindowsInstallationStatus::Installed {
        if state == "saved"@ {
            ManagedVmStatus::Saved
        } else if is_off(vm_state) {
            ManagedVmStatus::Stopped
        } else if strong_readiness(found) {
            ManagedVmStatus::Ready
        } else if state == "running"@ && found.current_host_version is Some && found.reached
            == GuestRunLevel::Unknown && found.current_os is None && found.current_additions
            is None {
            ManagedVmStatus::Degraded
        } else if state == "running"@ {
            ManagedVmStatus::OperationalUnverified
        } else {
            ManagedVmStatus::WaitingForGuestAdditions
        }
    } else if state == "aborted"@ || state == "gurumeditation"@ {
        ManagedVmStatus::Failed
    } else {
        ManagedVmStatus::Installing
    }
}

/// Whether the journal shows a guest that was ready on strong evidence.
pub open spec fn was_strongly_complete(previous: ManagedVmInstallationView) -> bool {
    previous.state == ManagedInstallState::Ready && (previous.observed.run_level.rank()
        >= GuestRunLevel::Userland.rank() || (
    previous.observed.evidence.guest_os_product is Some
        && previous.observed.evidence.guest_additions_version is Some))
}

/// How far the installation has come.
pub open spec fn install_state(
    managed: ManagedVmStatus,
    previous: ManagedVmInstallationView,
) -> ManagedInstallState {
    match managed {
        ManagedVmStatus::Ready => ManagedInstallState::Ready,
        ManagedVmStatus::Saved | ManagedVmStatus::Stopped => if was_strongly_complete(previous) {
            ManagedInstallState::Ready
        } else {
            ManagedInstallState::WaitingForGuest
        },
        ManagedVmStatus::WindowsInstalled | ManagedVmStatus::WaitingForGuestAdditions
        | ManagedVmStatus::OperationalUnverified
        | ManagedVmStatus::Degraded => ManagedInstallState::WaitingForGuest,
        ManagedVmStatus::Failed => ManagedInstallState::Failed,
        ManagedVmStatus::Installing => ManagedInstallState::InstallingWindows,
    }
}

pub open spec fn state_name(state: ManagedInstallState) -> Text {
    match state {
        ManagedInstallState::NotCreated => "NotCreated"@,
        ManagedInstallState::Creating => "Creating"@,
        ManagedInstallState::InstallingWindows => "InstallingWindows"@,
        ManagedInstallState::Rebooting => "Rebooting"@,
        ManagedInstallState::InstallingGuestAdditions => "InstallingGuestAdditions"@,
        ManagedInstallState::WaitingForGuest => "WaitingForGuest"@,
        ManagedInstallState::Ready => "Ready"@,
        ManagedInstallState::Failed => "Failed"@,
    }
}

pub open spec fn status_name(status: ManagedVmStatus) -> Text {
    match status {
        ManagedVmStatus::Installing => "Installing"@,
        ManagedVmStatus::WindowsInstalled => "WindowsInstalled"@,
        ManagedVmStatus::WaitingForGuestAdditions => "WaitingForGuestAdditions"@,
        ManagedVmStatus::OperationalUnverified => "OperationalUnverified"@,
        ManagedVmStatus::Degraded => "Degraded"@,
        ManagedVmStatus::Ready => "Ready"@,
        ManagedVmStatus::Saved => "Saved"@,
        ManagedVmStatus::Stopped => "Stopped"@,
        ManagedVmStatus::Failed => "Failed"@,
    }
}

pub open spec fn level_name(level: GuestRunLevel) -> Text {
    match level {
        GuestRunLevel::Unknown => "Unknown"@,
        GuestRunLevel::System => "System"@,
        GuestRunLevel::Userland => "Userland"@,
        GuestRunLevel::Desktop => "Desktop"@,
    }
}

/// What was seen, in words.
pub open spec fn seen_text(vm_state: Text, found: Findings) -> Text {
    if model::lower(vm_state) == "saved"@ {
        "VM is saved; guest runtime readiness is unavailable"@
    } else if is_off(vm_state) {
        "VM is powered off; guest runtime readiness is unavailable"@
    } else if found.reached.rank() >= GuestRunLevel::Userland.rank() {
        level_name(found.reached) + " runlevel reached"@
    } else if found.current_additions is Some && found.os_matches {
        "Guest OS and Guest Additions versions verified"@
    } else if found.current_host_version is Some {
        "partial Guest Additions host-version evidence only"@
    } else {
        "no strong guest readiness evidence"@
    }
}

/// How the Guest Additions' status is recorded.
pub open spec fn recorded_additions(status: GuestAdditionsStatus) -> GuestAdditionsInstallState {
    match status {
        GuestAdditionsStatus::InstalledVersionKnown => GuestAdditionsInstallState::Installed,
        GuestAdditionsStatus::RepairRequired => GuestAdditionsInstallState::Failed,
        GuestAdditionsStatus::Unavailable => GuestAdditionsInstallState::NotInstalled,
        GuestAdditionsStatus::PartialEvidence | GuestAdditionsStatus::Communicating
        | GuestAdditionsStatus::Unknown => GuestAdditionsInstallState::Unknown,
    }
}

/// The error that is recorded: none once a machine is ready, and never a new one in place of an
/// older one.
pub open spec fn recorded_error(
    previous: Option<Text>,
    managed: ManagedVmStatus,
    vm_state: Text,
) -> Option<Text> {
    if managed == ManagedVmStatus::Ready {
        None
    } else if managed == ManagedVmStatus::Failed && previous is None {
        Some("VirtualBox VM entered state '"@ + vm_state + "'"@)
    } else {
        previous
    }
}

/// What is noted of a reconciliation that changed something.
pub open spec fn event_text(
    previous: ManagedVmInstallationView,
    vm_state: Text,
    found: Findings,
    managed: ManagedVmStatus,
) -> Text {
    "Persisted state: "@ + state_name(previous.state) + "; observed: "@ + seen_text(
        vm_state,
        found,
    ) + "; reconciled: "@ + status_name(managed)
}

/// The journal of an installation after a look at its guest.
pub open spec fn reconciled(
    previous: ManagedVmInstallationView,
    vm_state: Text,
    probes: Seq<GuestRunLevelProbeView>,
    properties: Map<Text, Text>,
    timestamp: Option<u64>,
) -> ManagedVmInstallationView {
    let found = findings(previous, probes, properties);
    let windows = windows_status(previous, found);
    let guest_additions = additions_status(previous, found, windows);
    let managed = managed_status(windows, vm_state, found);
    let state = install_state(managed, previous);
    let changed = previous.state != state || previous.observed.managed != managed
        || previous.observed.guest_additions != guest_additions;
    ManagedVmInstallationView {
        state,
        guest_additions: recorded_additions(guest_additions),
        guest_additions_version: found.additions_version,
        last_error: recorded_error(previous.last_error, managed, vm_state),
        observed: ManagedInstallationObservationView {
            windows,
            guest_additions,
            run_level: higher(found.reached, previous.observed.run_level),
            managed,
            evidence: ManagedInstallationEvidenceView {
                last_vm_state: Some(vm_state),
                runlevel_probes: probes,
                guest_os_product: found.os_product,
                guest_additions_version: found.additions_version,
                guest_add_host_version_last_checked: found.host_version,
                reset_counter: found.reset_counter,
                reconciliation_timestamp_unix_ms: timestamp,
                reconciliation_event: if changed {
                    Some(event_text(previous, vm_state, found, managed))
                } else {
                    previous.observed.evidence.reconciliation_event
                },
            },
        },
        ..previous
    }
}

/// [`Findings`] at run time.
struct Look {
    reached: GuestRunLevel,
    current_os: Option<String>,
    current_additions: Option<String>,
    current_host_version: Option<String>,
    os_product: Option<String>,
    additions_version: Option<String>,
    host_version: Option<String>,
    reset_counter: Option<u64>,
    os_matches: bool,
}

impl View for Look {
    type V = Findings;

    closed spec fn view(&self) -> Findings {
        Findings {
            reached: self.reached,
            current_os: model::opt_text(self.current_os),
            current_additions: model::opt_text(self.current_additions),
            current_host_version: model::opt_text(self.current_host_version),
            os_product: model::opt_text(self.os_product),
            additions_version: model::opt_text(self.additions_version),
            host_version: model::opt_text(self.host_version),
            reset_counter: self.reset_counter,
            os_matches: self.os_matches,
        }
    }
}

fn higher_of(a: GuestRunLevel, b: GuestRunLevel) -> (r: GuestRunLevel)
    ensures
        r == higher(a, b),
{
    if a.reaches(b) {
        a
    } else {
        b
    }
}

fn strongest_of(probes: &Vec<GuestRunLevelProbe>) -> (r: GuestRunLevel)
    ensures
        r == strongest(duplicate::views(probes@)),
{
    let ghost all = duplicate::views(probes@);
    let mut level = GuestRunLevel::Unknown;
    let mut i: usize = 0;
    assert(all.take(0) =~= Seq::<GuestRunLevelProbeView>::empty());
    while i < probes.len()
        invariant
            i <= probes@.len(),
            all == duplicate::views(probes@),
            level == strongest(all.take(i as int)),
        decreases probes.len() - i,
    {
        proof {
            assert(all.take(i + 1).drop_last() =~= all.take(i as int));
            assert(all.take(i + 1).last() == probes@[i as int]@);
        }
        if probes[i].success {
            level = higher_of(level, probes[i].level);
        }
        i += 1;
    }
    assert(all.take(i as int) =~= all);
    level
}

fn first_of(first: &Option<String>, second: &Option<String>) -> (r: Option<String>)
    ensures
        model::opt_text(r) == or_else(model::opt_text(*first), model::opt_text(*second)),
{
    if first.is_some() {
        copy_opt(first)
    } else {
        copy_opt(second)
    }
}

fn look_at(
    previous: &ManagedVmInstallation,
    probes: &Vec<GuestRunLevelProbe>,
    properties: &TextMap<String>,
) -> (r: Look)
    ensures
        r@ == findings(previous@, duplicate::views(probes@), text_map::text_values(properties@)),
{
    let known = &previous.observed.evidence;
    let current_os = copied(properties, "/VirtualBox/GuestInfo/OS/Product");
    let current_additions = copied(properties, "/VirtualBox/GuestAdd/Version");
    let current_host_version = copied(properties, "/VirtualBox/GuestAdd/HostVerLastChecked");
    let current_resets: Option<u64> = match properties.get("/VirtualBox/VMInfo/ResetCounter") {
        Some(value) => parse_number(value.as_str(), 0xffff_ffff_ffff_ffff),
        None => None,
    };
    let os_product = first_of(&current_os, &known.guest_os_product);
    let current_or_known = first_of(&current_additions, &known.guest_additions_version);
    let expected = match previous.windows_version {
        ManagedWindowsVersion::Windows10 => "windows 10",
        ManagedWindowsVersion::Windows11 => "windows 11",
    };
    let os_matches = match &os_product {
        Some(product) => {
            let lower = to_lower(product.as_str());
            has(lower.as_str(), expected)
        },
        None => false,
    };
    let additions_version = first_of(&current_or_known, &previous.guest_additions_version);
    let host_version = first_of(
        &current_host_version,
        &known.guest_add_host_version_last_checked,
    );
    Look {
        reached: strongest_of(probes),
        current_os,
        current_additions,
        current_host_version,
        os_product,
        additions_version,
        host_version,
        reset_counter: if current_resets.is_some() {
            current_resets
        } else {
            known.reset_counter
        },
        os_matches,
    }
}

fn windows_of(previous: &ManagedVmInstallation, look: &Look) -> (r: WindowsInstallationStatus)
    ensures
        r == windows_status(previous@, look@),
{
    if previous.observed.windows == WindowsInstallationStatus::Installed || look.reached.reaches(
        GuestRunLevel::Userland,
    ) || look.os_matches {
        WindowsInstallationStatus::Installed
    } else if previous.state == ManagedInstallState::Creating || previous.state
        == ManagedInstallState::InstallingWindows || previous.state
        == ManagedInstallState::Rebooting {
        WindowsInstallationStatus::Installing
    } else {
        WindowsInstallationStatus::Unknown
    }
}

fn additions_of(
    previous: &ManagedVmInstallation,
    look: &Look,
    windows: WindowsInstallationStatus,
) -> (r: GuestAdditionsStatus)
    ensures
        r == additions_status(previous@, look@, windows),
{
    if look.current_additions.is_some() || (look.additions_version.is_some()
        && previous.observed.run_level.reaches(GuestRunLevel::System)) {
        GuestAdditionsStatus::InstalledVersionKnown
    } else if look.reached.reaches(GuestRunLevel::System) {
        GuestAdditionsStatus::Communicating
    } else if look.current_host_version.is_some() {
        GuestAdditionsStatus::PartialEvidence
    } else if windows == WindowsInstallationStatus::Installed {
        GuestAdditionsStatus::Unavailable
    } else {
        GuestAdditionsStatus::Unknown
    }
}

fn off(lower_state: &str) -> (r: bool)
    ensures
        r == (lower_state@ == "poweroff"@ || lower_state@ == "poweredoff"@),
{
    same(lower_state, "poweroff") || same(lower_state, "poweredoff")
}

fn managed_of(windows: WindowsInstallationStatus, vm_state: &str, look: &Look) -> (r:
    ManagedVmStatus)
    ensures
        r == managed_status(windows, vm_state@, look@),
{
    let lower = to_lower(vm_state);
    let state = lower.as_str();
    if windows == WindowsInstallationStatus::Installed {
        let strong = look.reached.reaches(GuestRunLevel::Userland) || (look.os_matches
            && look.current_additions.is_some());
        if same(state, "saved") {
            ManagedVmStatus::Saved
        } else if off(state) {
            ManagedVmStatus::Stopped
        } else if strong {
            ManagedVmStatus::Ready
        } else if same(state, "running") {
            if look.current_host_version.is_some() && look.reached == GuestRunLevel::Unknown
                && look.current_os.is_none() && look.current_additions.is_none() {
                ManagedVmStatus::Degraded
            } else {
                ManagedVmStatus::OperationalUnverified
            }
        } else {
            ManagedVmStatus::WaitingForGuestAdditions
        }
    } else if same(state, "aborted") || same(state, "gurumeditation") {
        ManagedVmStatus::Failed
    } else {
        ManagedVmStatus::Installing
    }
}

fn state_of(managed: ManagedVmStatus, previous: &ManagedVmInstallation) -> (r: ManagedInstallState)
    ensures
        r == install_state(managed, previous@),
{
    let evidence = &previous.observed.evidence;
    let strong = previous.state == ManagedInstallState::Ready && (
    previous.observed.run_level.reaches(GuestRunLevel::Userland) || (
    evidence.guest_os_product.is_some() && evidence.guest_additions_version.is_some()));
    match managed {
        ManagedVmStatus::Ready => ManagedInstallState::Ready,
        ManagedVmStatus::Saved | ManagedVmStatus::Stopped => if strong {
            ManagedInstallState::Ready
        } else {
            ManagedInstallState::WaitingForGuest
        },
        ManagedVmStatus::WindowsInstalled | ManagedVmStatus::WaitingForGuestAdditions
        | ManagedVmStatus::OperationalUnverified
        | ManagedVmStatus::Degraded => ManagedInstallState::WaitingForGuest,
        ManagedVmStatus::Failed => ManagedInstallState::Failed,
        ManagedVmStatus::Installing => ManagedInstallState::InstallingWindows,
    }
}

fn name_of_state(state: ManagedInstallState) -> (r: &'static str)
    ensures
        r@ == state_name(state),
{
    match state {
        ManagedInstallState::NotCreated => "NotCreated",
        ManagedInstallState::Creating => "Creating",
        ManagedInstallState::InstallingWindows => "InstallingWindows",
        ManagedInstallState::Rebooting => "Rebooting",
        ManagedInstallState::InstallingGuestAdditions => "InstallingGuestAdditions",
        ManagedInstallState::WaitingForGuest => "WaitingForGuest",
        ManagedInstallState::Ready => "Ready",
        ManagedInstallState::Failed => "Failed",
    }
}

fn name_of_status(status: ManagedVmStatus) -> (r: &'static str)
    ensures
        r@ == status_name(status),
{
    match status {
        ManagedVmStatus::Installing => "Installing",
        ManagedVmStatus::WindowsInstalled => "WindowsInstalled",
        ManagedVmStatus::WaitingForGuestAdditions => "WaitingForGuestAdditions",
        ManagedVmStatus::OperationalUnverified => "OperationalUnverified",
        ManagedVmStatus::Degraded => "Degraded",
        ManagedVmStatus::Ready => "Ready",
        ManagedVmStatus::Saved => "Saved",
        ManagedVmStatus::Stopped => "Stopped",
        ManagedVmStatus::Failed => "Failed",
    }
}

fn name_of_level(level: GuestRunLevel) -> (r: &'static str)
    ensures
        r@ == level_name(level),
{
    match level {
        GuestRunLevel::Unknown => "Unknown",
        GuestRunLevel::System => "System",
        GuestRunLevel::Userland => "Userland",
        GuestRunLevel::Desktop => "Desktop",
    }
}

fn describe_look(vm_state: &str, look: &Look) -> (r: String)
    ensures
        r@ == seen_text(vm_state@, look@),
{
    let lower = to_lower(vm_state);
    if same(lower.as_str(), "saved") {
        "VM is saved; guest runtime readiness is unavailable".to_owned()
    } else if off(lower.as_str()) {
        "VM is powered off; guest runtime readiness is unavailable".to_owned()
    } else if look.reached.reaches(GuestRunLevel::Userland) {
        concat2(name_of_level(look.reached), " runlevel reached")
    } else if look.current_additions.is_some() && look.os_matches {
        "Guest OS and Guest Additions versions verified".to_owned()
    } else if look.current_host_version.is_some() {
        "partial Guest Additions host-version evidence only".to_owned()
    } else {
        "no strong guest readiness evidence".to_owned()
    }
}

fn additions_record(status: GuestAdditionsStatus) -> (r: GuestAdditionsInstallState)
    ensures
        r == recorded_additions(status),
{
    match status {
        GuestAdditionsStatus::InstalledVersionKnown => GuestAdditionsInstallState::Installed,
        GuestAdditionsStatus::RepairRequired => GuestAdditionsInstallState::Failed,
        GuestAdditionsStatus::Unavailable => GuestAdditionsInstallState::NotInstalled,
        GuestAdditionsStatus::PartialEvidence | GuestAdditionsStatus::Communicating
        | GuestAdditionsStatus::Unknown => GuestAdditionsInstallState::Unknown,
    }
}

fn error_record(previous: &Option<String>, managed: ManagedVmStatus, vm_state: &str) -> (r: Option<
    String,
>)
    ensures
        model::opt_text(r) == recorded_error(model::opt_text(*previous), managed, vm_state@),
{
    if managed == ManagedVmStatus::Ready {
        None
    } else if managed == ManagedVmStatus::Failed && previous.is_none() {
        Some(concat3("VirtualBox VM entered state '", vm_state, "'"))
    } else {
        copy_opt(previous)
    }
}

/// The journal of an installation after a look at its guest, at a time in milliseconds since
/// the Unix epoch.
pub fn reconcile_installation_observation(
    previous: &ManagedVmInstallation,
    vm_state: &str,
    runlevel_probes: Vec<GuestRunLevelProbe>,
    properties: &TextMap<String>,
    timestamp: Option<u64>,
) -> (r: ManagedVmInstallation)
    ensures
        r@ == reconciled(
            previous@,
            vm_state@,
            duplicate::views(runlevel_probes@),
            text_map::text_values(properties@),
            timestamp,
        ),
{
    let look = look_at(previous, &runlevel_probes, properties);
    let windows = windows_of(previous, &look);
    let guest_additions = additions_of(previous, &look, windows);
    let managed = managed_of(windows, vm_state, &look);
    let state = state_of(managed, previous);
    let changed = previous.state != state || previous.observed.managed != managed
        || previous.observed.guest_additions != guest_additions;
    let reconciliation_event = if changed {
        Some(
            concat6(
                "Persisted state: ",
                name_of_state(previous.state),
                "; observed: ",
                describe_look(vm_state, &look).as_str(),
                "; reconciled: ",
                name_of_status(managed),
            ),
        )
    } else {
        copy_opt(&previous.observed.evidence.reconciliation_event)
    };
    let last_error = error_record(&previous.last_error, managed, vm_state);
    let run_level = higher_of(look.reached, previous.observed.run_level);
    ManagedVmInstallation {
        windows_version: previous.windows_version,
        virtual_box_os_type_id: previous.virtual_box_os_type_id.clone(),
        computer_name: previous.computer_name.clone(),
        domain_name: previous.domain_name.clone(),
        state,
        guest_additions: additions_record(guest_additions),
        guest_additions_version: copy_opt(&look.additions_version),
        last_error,
        observed: ManagedInstallationObservation {
            windows,
            guest_additions,
            run_level,
            managed,
            evidence: ManagedInstallationEvidence {
                last_vm_state: Some(vm_state.to_owned()),
                runlevel_probes,
                guest_os_product: look.os_product,
                guest_additions_version: look.additions_version,
                guest_add_host_version_last_checked: look.host_version,
                reset_counter: look.reset_counter,
                reconciliation_timestamp_unix_ms: timestamp,
                reconciliation_event,
            },
        },
    }
}

// ---- Laws ------------------------------------------------------------------------------

/// A look at a guest never takes back that Windows is installed, and never lowers the level
/// that the guest is known to have reached. What is known of its system, of the version of its
/// Guest Additions, of the host's version that they last looked for and of its resets is never
/// forgotten, and what is known stays as it is where the guest tells nothing.
pub proof fn law_progress_is_kept(
    previous: ManagedVmInstallationView,
    vm_state: Text,
    probes: Seq<GuestRunLevelProbeView>,
    properties: Map<Text, Text>,
    timestamp: Option<u64>,
)
    ensures
        ({
            let after = reconciled(previous, vm_state, probes, properties, timestamp);
            let known = previous.observed.evidence;
            let kept = after.observed.evidence;
            &&& previous.observed.windows == WindowsInstallationStatus::Installed
                ==> after.observed.windows == WindowsInstallationStatus::Installed
            &&& after.observed.run_level.rank() >= previous.observed.run_level.rank()
            &&& known.guest_os_product is Some ==> kept.guest_os_product is Some
            &&& known.guest_additions_version is Some ==> kept.guest_additions_version is Some
            &&& known.guest_add_host_version_last_checked is Some
                ==> kept.guest_add_host_version_last_checked is Some
            &&& known.reset_counter is Some ==> kept.reset_counter is Some
            &&& properties == Map::<Text, Text>::empty() ==> {
                &&& kept.guest_os_product == known.guest_os_product
                &&& known.guest_additions_version is Some ==> kept.guest_additions_version
                    == known.guest_additions_version
                &&& kept.guest_add_host_version_last_checked
                    == known.guest_add_host_version_last_checked
                &&& kept.reset_counter == known.reset_counter
            }
        }),
{
}

/// A machine is never called ready without strong evidence from this very look: a guest that
/// reached userland, or the right system together with the version of its Guest Additions.
pub proof fn law_ready_needs_strong_evidence(
    previous: ManagedVmInstallationView,
    vm_state: Text,
    probes: Seq<GuestRunLevelProbeView>,
    properties: Map<Text, Text>,
    timestamp: Option<u64>,
)
    ensures
        reconciled(previous, vm_state, probes, properties, timestamp).observed.managed
            == ManagedVmStatus::Ready ==> (exists|i: int|
            0 <= i < probes.len() && (#[trigger] probes[i]).success && probes[i].level.rank()
                >= GuestRunLevel::Userland.rank()) || (findings(
            previous,
            probes,
            properties,
        ).os_matches && properties.contains_key("/VirtualBox/GuestAdd/Version"@)),
{
    lemma_strongest(probes);
}

/// An installation that was not ready becomes ready only with its machine: a machine that is
/// saved or off makes none ready.
pub proof fn law_only_a_ready_machine_completes(
    previous: ManagedVmInstallationView,
    vm_state: Text,
    probes: Seq<GuestRunLevelProbeView>,
    properties: Map<Text, Text>,
    timestamp: Option<u64>,
)
    requires
        previous.state != ManagedInstallState::Ready,
    ensures
        ({
            let after = reconciled(previous, vm_state, probes, properties, timestamp);
            after.state == ManagedInstallState::Ready <==> after.observed.managed
                == ManagedVmStatus::Ready
        }),
{
}

/// A machine in which Windows is installed is reported as saved whenever it is saved, and as
/// stopped whenever it is off, whatever the guest said before.
pub proof fn law_a_machine_at_rest_is_not_ready(
    previous: ManagedVmInstallationView,
    vm_state: Text,
    probes: Seq<GuestRunLevelProbeView>,
    properties: Map<Text, Text>,
    timestamp: Option<u64>,
)
    requires
        previous.observed.windows == WindowsInstallationStatus::Installed,
    ensures
        ({
            let after = reconciled(previous, vm_state, probes, properties, timestamp);
            &&& model::lower(vm_state) == "saved"@ ==> after.observed.managed
                == ManagedVmStatus::Saved
            &&& model::lower(vm_state) != "saved"@ && is_off(vm_state) ==> after.observed.managed
                == ManagedVmStatus::Stopped
        }),
{
}

proof fn lemma_strongest(probes: Seq<GuestRunLevelProbeView>)
    ensures
        strongest(probes) == GuestRunLevel::Unknown || exists|i: int|
            0 <= i < probes.len() && (#[trigger] probes[i]).success && probes[i].level == strongest(
                probes,
            ),
    decreases probes.len(),
{
    if probes.len() > 0 {
        let earlier = probes.drop_last();
        lemma_strongest(earlier);
        if strongest(probes) != GuestRunLevel::Unknown {
            let last = probes.len() - 1;
            if probes.last().success && strongest(probes) == probes.last().level {
                assert(probes[last].success);
            } else {
                let i = choose|i: int|
                    0 <= i < earlier.len() && (#[trigger] earlier[i]).success && earlier[i].level
                        == strongest(earlier);
                assert(probes[i] == earlier[i]);
            }
        }
    }
}

} // verus!
