//! What a look at a guest shows, said of what the guest told.
use super::guest_observation;
use crate::seats::{
    GuestAdditionsInstallState, GuestAdditionsStatus, GuestRunLevel, GuestRunLevelProbeView, ManagedInstallState,
    ManagedVmInstallationView, ManagedVmStatus, ManagedWindowsVersion, WindowsInstallationStatus,
};
use crate::text::laws;
use crate::text::model;
use crate::text::model::Text;
use vstd::prelude::*;

verus! {

/// Whether a product's name is that of a Windows version.
pub open spec fn names_version(product: Text, version: ManagedWindowsVersion) -> bool {
    ||| version == ManagedWindowsVersion::Windows10 && model::contains(
        model::lower(product),
        "windows 10"@,
    )
    ||| version == ManagedWindowsVersion::Windows11 && model::contains(
        model::lower(product),
        "windows 11"@,
    )
}

/// What the guest's system is known to be: what it says now, or else what it said before.
pub open spec fn known_product(
    previous: ManagedVmInstallationView,
    properties: Map<Text, Text>,
) -> Option<Text> {
    if properties.contains_key("/VirtualBox/GuestInfo/OS/Product"@) {
        Some(properties["/VirtualBox/GuestInfo/OS/Product"@])
    } else {
        previous.observed.evidence.guest_os_product
    }
}

/// Whether a probe found a user's programs running.
pub open spec fn found_userland(probes: Seq<GuestRunLevelProbeView>) -> bool {
    exists|i: int|
        0 <= i < probes.len() && (#[trigger] probes[i]).success && (probes[i].level
            == GuestRunLevel::Userland || probes[i].level == GuestRunLevel::Desktop)
}

/// Whether a probe found the guest's system running.
pub open spec fn found_system(probes: Seq<GuestRunLevelProbeView>) -> bool {
    exists|i: int|
        0 <= i < probes.len() && (#[trigger] probes[i]).success && probes[i].level
            != GuestRunLevel::Unknown
}

proof fn lemma_reached(probes: Seq<GuestRunLevelProbeView>)
    ensures
        ({
            let reached = guest_observation::strongest(probes);
            &&& (reached == GuestRunLevel::Userland || reached == GuestRunLevel::Desktop)
                <==> found_userland(probes)
            &&& reached != GuestRunLevel::Unknown <==> found_system(probes)
        }),
    decreases probes.len(),
{
    if probes.len() > 0 {
        let fewer = probes.drop_last();
        lemma_reached(fewer);
        assert forall|i: int| 0 <= i < fewer.len() implies fewer[i] == #[trigger] probes[i] by {}
        if found_userland(fewer) {
            let i = choose|i: int|
                0 <= i < fewer.len() && (#[trigger] fewer[i]).success && (fewer[i].level
                    == GuestRunLevel::Userland || fewer[i].level == GuestRunLevel::Desktop);
            assert(probes[i].success);
        }
        if found_system(fewer) {
            let i = choose|i: int|
                0 <= i < fewer.len() && (#[trigger] fewer[i]).success && fewer[i].level
                    != GuestRunLevel::Unknown;
            assert(probes[i].success);
        }
        let last = probes.len() - 1;
        assert(probes[last] == probes.last());
        if found_userland(probes) {
            let i = choose|i: int|
                0 <= i < probes.len() && (#[trigger] probes[i]).success && (probes[i].level
                    == GuestRunLevel::Userland || probes[i].level == GuestRunLevel::Desktop);
            assert(i < last ==> fewer[i].success);
        }
        if found_system(probes) {
            let i = choose|i: int|
                0 <= i < probes.len() && (#[trigger] probes[i]).success && probes[i].level
                    != GuestRunLevel::Unknown;
            assert(i < last ==> fewer[i].success);
        }
    }
}

proof fn lemma_states()
    ensures
        "running"@ != "saved"@,
        "running"@ != "poweroff"@,
        "running"@ != "poweredoff"@,
        "saved"@ != "poweroff"@,
        "saved"@ != "poweredoff"@,
        "aborted"@ != "gurumeditation"@,
{
    reveal_strlit("running");
    reveal_strlit("saved");
    reveal_strlit("poweroff");
    reveal_strlit("poweredoff");
    reveal_strlit("aborted");
    reveal_strlit("gurumeditation");
    assert("running"@.len() == 7);
    assert("saved"@.len() == 5);
    assert("poweroff"@.len() == 8);
    assert("poweredoff"@.len() == 10);
    assert("aborted"@[0] == 'a' && "gurumeditation"@[0] == 'g');
}

/// Windows counts as installed if and only if it did before, a user's programs were found
/// running, or the guest's system is known under the name of the version that was to be
/// installed: "windows 10" for Windows 10 and "windows 11" for Windows 11.
pub proof fn law_windows_is_known_by_its_name(
    previous: ManagedVmInstallationView,
    vm_state: Text,
    probes: Seq<GuestRunLevelProbeView>,
    properties: Map<Text, Text>,
    timestamp: Option<u64>,
)
    ensures
        ({
            let after = guest_observation::reconciled(
                previous,
                vm_state,
                probes,
                properties,
                timestamp,
            );
            let product = known_product(previous, properties);
            &&& after.observed.windows == WindowsInstallationStatus::Installed <==> (
            previous.observed.windows == WindowsInstallationStatus::Installed || found_userland(
                probes,
            ) || (product matches Some(name) && names_version(name, previous.windows_version)))
            &&& after.observed.windows == WindowsInstallationStatus::Installing ==> (
            previous.state == ManagedInstallState::Creating || previous.state
                == ManagedInstallState::InstallingWindows || previous.state
                == ManagedInstallState::Rebooting)
            &&& after.observed.evidence.guest_os_product == product
        }),
{
    lemma_reached(probes);
}

/// A running machine is ready if and only if Windows runs in it for sure, by this very look: a
/// user's programs were found running, or the guest's system is known under the name of its
/// version and tells the version of its Guest Additions. A machine that is saved or off is never
/// ready.
pub proof fn law_a_running_machine_is_ready_on_evidence(
    previous: ManagedVmInstallationView,
    vm_state: Text,
    probes: Seq<GuestRunLevelProbeView>,
    properties: Map<Text, Text>,
    timestamp: Option<u64>,
)
    ensures
        ({
            let after = guest_observation::reconciled(
                previous,
                vm_state,
                probes,
                properties,
                timestamp,
            );
            let product = known_product(previous, properties);
            let state = model::lower(vm_state);
            let evidence = found_userland(probes) || (product matches Some(name) && names_version(
                name,
                previous.windows_version,
            ) && properties.contains_key("/VirtualBox/GuestAdd/Version"@));
            &&& after.observed.managed == ManagedVmStatus::Ready ==> evidence
            &&& state == "running"@ && evidence ==> after.observed.managed
                == ManagedVmStatus::Ready && after.state == ManagedInstallState::Ready
                && after.last_error is None
            &&& state == "saved"@ || state == "poweroff"@ || state == "poweredoff"@
                ==> after.observed.managed != ManagedVmStatus::Ready
        }),
{
    lemma_reached(probes);
    lemma_states();
}

/// A machine whose Windows is installed and that shows no evidence of being ready is, while it
/// runs, degraded where the Guest Additions tell of nothing but the host's version, and else
/// unverified. One whose Windows is not installed is being installed, or has failed where
/// VirtualBox aborted it.
pub proof fn law_a_machine_without_evidence(
    previous: ManagedVmInstallationView,
    vm_state: Text,
    probes: Seq<GuestRunLevelProbeView>,
    properties: Map<Text, Text>,
    timestamp: Option<u64>,
)
    ensures
        ({
            let after = guest_observation::reconciled(
                previous,
                vm_state,
                probes,
                properties,
                timestamp,
            );
            let state = model::lower(vm_state);
            let installed = after.observed.windows == WindowsInstallationStatus::Installed;
            let managed = after.observed.managed;
            let only_host_version = properties.contains_key(
                "/VirtualBox/GuestAdd/HostVerLastChecked"@,
            ) && !properties.contains_key("/VirtualBox/GuestInfo/OS/Product"@)
                && !properties.contains_key("/VirtualBox/GuestAdd/Version"@) && !found_system(
                probes,
            );
            &&& installed && state == "running"@ && managed != ManagedVmStatus::Ready ==> managed
                == (if only_host_version {
                ManagedVmStatus::Degraded
            } else {
                ManagedVmStatus::OperationalUnverified
            })
            &&& installed && state == "saved"@ ==> managed == ManagedVmStatus::Saved
            &&& installed && (state == "poweroff"@ || state == "poweredoff"@) ==> managed
                == ManagedVmStatus::Stopped
            &&& !installed ==> managed == (if state == "aborted"@ || state == "gurumeditation"@ {
                ManagedVmStatus::Failed
            } else {
                ManagedVmStatus::Installing
            })
            &&& managed == ManagedVmStatus::Failed ==> after.state == ManagedInstallState::Failed
                && after.last_error is Some
            &&& managed == ManagedVmStatus::Installing ==> after.state
                == ManagedInstallState::InstallingWindows && after.last_error
                == previous.last_error
            &&& managed == ManagedVmStatus::Degraded || managed
                == ManagedVmStatus::OperationalUnverified ==> after.state
                == ManagedInstallState::WaitingForGuest
        }),
{
    lemma_reached(probes);
    lemma_states();
}

/// What the Guest Additions are: installed where they tell their version, at work where the
/// guest's system was found running, there in part where only the host's version is told, and
/// not there where Windows is installed and nothing is told.
pub proof fn law_guest_additions_are_known_by_what_they_tell(
    previous: ManagedVmInstallationView,
    vm_state: Text,
    probes: Seq<GuestRunLevelProbeView>,
    properties: Map<Text, Text>,
    timestamp: Option<u64>,
)
    ensures
        ({
            let after = guest_observation::reconciled(
                previous,
                vm_state,
                probes,
                properties,
                timestamp,
            );
            let told = properties.contains_key("/VirtualBox/GuestAdd/Version"@);
            let checked = properties.contains_key("/VirtualBox/GuestAdd/HostVerLastChecked"@);
            let version = after.observed.evidence.guest_additions_version;
            let knew = version is Some && previous.observed.run_level != GuestRunLevel::Unknown;
            &&& told ==> after.observed.guest_additions
                == GuestAdditionsStatus::InstalledVersionKnown && version == Some(
                properties["/VirtualBox/GuestAdd/Version"@],
            )
            &&& !told && !knew && found_system(probes) ==> after.observed.guest_additions
                == GuestAdditionsStatus::Communicating
            &&& !told && !knew && !found_system(probes) ==> after.observed.guest_additions == (
            if checked {
                GuestAdditionsStatus::PartialEvidence
            } else if after.observed.windows == WindowsInstallationStatus::Installed {
                GuestAdditionsStatus::Unavailable
            } else {
                GuestAdditionsStatus::Unknown
            })
            &&& checked ==> after.observed.evidence.guest_add_host_version_last_checked == Some(
                properties["/VirtualBox/GuestAdd/HostVerLastChecked"@],
            )
        }),
{
    lemma_reached(probes);
}

/// What is not about the guest stays: a look changes neither which machine it is nor how it was
/// set up, and it keeps what the probes and the machine said.
pub proof fn law_a_look_changes_only_what_it_saw(
    previous: ManagedVmInstallationView,
    vm_state: Text,
    probes: Seq<GuestRunLevelProbeView>,
    properties: Map<Text, Text>,
    timestamp: Option<u64>,
)
    ensures
        ({
            let after = guest_observation::reconciled(
                previous,
                vm_state,
                probes,
                properties,
                timestamp,
            );
            &&& after == (ManagedVmInstallationView {
                state: after.state,
                guest_additions: after.guest_additions,
                guest_additions_version: after.guest_additions_version,
                last_error: after.last_error,
                observed: after.observed,
                ..previous
            })
            &&& after.observed.evidence.last_vm_state == Some(vm_state)
            &&& after.observed.evidence.runlevel_probes == probes
            &&& after.observed.evidence.reconciliation_timestamp_unix_ms == timestamp
        }),
{
}

/// A probe that succeeded is not forgotten: the level that the guest is known to have reached is
/// at least the one that it found, and is one that some probe found or that was known before.
pub proof fn law_the_highest_level_is_known(
    previous: ManagedVmInstallationView,
    vm_state: Text,
    probes: Seq<GuestRunLevelProbeView>,
    properties: Map<Text, Text>,
    timestamp: Option<u64>,
    i: int,
)
    requires
        0 <= i < probes.len(),
        probes[i].success,
    ensures
        ({
            let level = guest_observation::reconciled(
                previous,
                vm_state,
                probes,
                properties,
                timestamp,
            ).observed.run_level;
            &&& probes[i].level == GuestRunLevel::Desktop ==> level == GuestRunLevel::Desktop
            &&& probes[i].level == GuestRunLevel::Userland ==> level == GuestRunLevel::Desktop
                || level == GuestRunLevel::Userland
            &&& probes[i].level == GuestRunLevel::System ==> level != GuestRunLevel::Unknown
        }),
{
    lemma_at_least(probes, i);
}

proof fn lemma_at_least(probes: Seq<GuestRunLevelProbeView>, i: int)
    requires
        0 <= i < probes.len(),
        probes[i].success,
    ensures
        guest_observation::strongest(probes).rank() >= probes[i].level.rank(),
    decreases probes.len(),
{
    if i < probes.len() - 1 {
        lemma_at_least(probes.drop_last(), i);
    }
}

/// An installation that is under way stays so until Windows is found.
pub proof fn law_an_installation_goes_on_until_windows_is_found(
    previous: ManagedVmInstallationView,
    vm_state: Text,
    probes: Seq<GuestRunLevelProbeView>,
    properties: Map<Text, Text>,
    timestamp: Option<u64>,
)
    ensures
        ({
            let windows = guest_observation::reconciled(
                previous,
                vm_state,
                probes,
                properties,
                timestamp,
            ).observed.windows;
            let under_way = previous.state == ManagedInstallState::Creating || previous.state
                == ManagedInstallState::InstallingWindows || previous.state
                == ManagedInstallState::Rebooting;
            &&& under_way ==> windows == WindowsInstallationStatus::Installed || windows
                == WindowsInstallationStatus::Installing
            &&& !under_way ==> windows == WindowsInstallationStatus::Installed || windows
                == WindowsInstallationStatus::Unknown
        }),
{
}

/// A machine that is saved or switched off stays complete exactly where it was complete on what it
/// showed: its user's programs were found, or both its system and its Guest Additions were known.
pub proof fn law_a_stopped_machine_is_as_complete_as_it_was(
    previous: ManagedVmInstallationView,
    vm_state: Text,
    probes: Seq<GuestRunLevelProbeView>,
    properties: Map<Text, Text>,
    timestamp: Option<u64>,
)
    ensures
        ({
            let after = guest_observation::reconciled(
                previous,
                vm_state,
                probes,
                properties,
                timestamp,
            );
            let managed = after.observed.managed;
            let known = previous.observed;
            let complete = previous.state == ManagedInstallState::Ready && (known.run_level
                == GuestRunLevel::Userland || known.run_level == GuestRunLevel::Desktop || (
            known.evidence.guest_os_product is Some && known.evidence.guest_additions_version
                is Some));
            managed == ManagedVmStatus::Saved || managed == ManagedVmStatus::Stopped ==> after.state
                == (if complete {
                ManagedInstallState::Ready
            } else {
                ManagedInstallState::WaitingForGuest
            })
        }),
{
}

/// What is recorded of the Guest Additions is what was found of them: installed where their version
/// is known, not installed where they are not there, and else not known.
pub proof fn law_guest_additions_are_recorded_as_found(
    previous: ManagedVmInstallationView,
    vm_state: Text,
    probes: Seq<GuestRunLevelProbeView>,
    properties: Map<Text, Text>,
    timestamp: Option<u64>,
)
    ensures
        ({
            let after = guest_observation::reconciled(
                previous,
                vm_state,
                probes,
                properties,
                timestamp,
            );
            let found = after.observed.guest_additions;
            &&& after.guest_additions == GuestAdditionsInstallState::Installed <==> found
                == GuestAdditionsStatus::InstalledVersionKnown
            &&& after.guest_additions == GuestAdditionsInstallState::NotInstalled <==> found
                == GuestAdditionsStatus::Unavailable
            &&& after.guest_additions != GuestAdditionsInstallState::Failed
            &&& after.guest_additions != GuestAdditionsInstallState::Installing
            &&& after.guest_additions_version == after.observed.evidence.guest_additions_version
        }),
{
}

/// An error that was known stays the error until the machine is ready, and then there is none. A
/// machine without one gets one where it failed, and only there.
pub proof fn law_the_first_error_is_kept(
    previous: ManagedVmInstallationView,
    vm_state: Text,
    probes: Seq<GuestRunLevelProbeView>,
    properties: Map<Text, Text>,
    timestamp: Option<u64>,
)
    ensures
        ({
            let after = guest_observation::reconciled(
                previous,
                vm_state,
                probes,
                properties,
                timestamp,
            );
            let managed = after.observed.managed;
            &&& managed == ManagedVmStatus::Ready ==> after.last_error is None
            &&& managed != ManagedVmStatus::Ready && previous.last_error is Some
                ==> after.last_error == previous.last_error
            &&& managed != ManagedVmStatus::Ready && previous.last_error is None ==> (
            after.last_error is Some <==> managed == ManagedVmStatus::Failed)
        }),
{
}

/// How often a machine was reset is the number that the guest tells in decimal digits, and where it
/// tells none what was known before.
pub proof fn law_resets_are_counted_as_told(
    previous: ManagedVmInstallationView,
    vm_state: Text,
    probes: Seq<GuestRunLevelProbeView>,
    properties: Map<Text, Text>,
    timestamp: Option<u64>,
    resets: u64,
)
    ensures
        ({
            let name = "/VirtualBox/VMInfo/ResetCounter"@;
            let counted = guest_observation::reconciled(
                previous,
                vm_state,
                probes,
                properties,
                timestamp,
            ).observed.evidence.reset_counter;
            &&& properties.contains_key(name) && properties[name] == model::decimal(resets as nat)
                ==> counted == Some(resets)
            &&& !properties.contains_key(name) ==> counted
                == previous.observed.evidence.reset_counter
        }),
{
    laws::law_numbers_are_read_back(resets as nat, u64::MAX as nat);
}

/// What changed is noted: a look that finds everything as it was leaves the note of the last change,
/// and another writes a new one that begins with what was recorded and ends with what was found.
pub proof fn law_a_change_is_noted(
    previous: ManagedVmInstallationView,
    vm_state: Text,
    probes: Seq<GuestRunLevelProbeView>,
    properties: Map<Text, Text>,
    timestamp: Option<u64>,
)
    ensures
        ({
            let after = guest_observation::reconciled(
                previous,
                vm_state,
                probes,
                properties,
                timestamp,
            );
            let note = after.observed.evidence.reconciliation_event;
            let same = after.state == previous.state && after.observed.managed
                == previous.observed.managed && after.observed.guest_additions
                == previous.observed.guest_additions;
            let first = "Persisted state: "@ + guest_observation::state_name(previous.state);
            let last = "; reconciled: "@ + guest_observation::status_name(after.observed.managed);
            &&& same ==> note == previous.observed.evidence.reconciliation_event
            &&& !same ==> note is Some && first.is_prefix_of(note->0) && last.is_suffix_of(note->0)
        }),
{
    let after = guest_observation::reconciled(previous, vm_state, probes, properties, timestamp);
    let found = guest_observation::findings(previous, probes, properties);
    let first = "Persisted state: "@ + guest_observation::state_name(previous.state);
    let last = "; reconciled: "@ + guest_observation::status_name(after.observed.managed);
    let middle = "; observed: "@ + guest_observation::seen_text(vm_state, found);
    let text = guest_observation::event_text(
        previous,
        vm_state,
        found,
        after.observed.managed,
    );
    assert(text =~= first + middle + last);
    assert(first.is_prefix_of(text));
    assert(last =~= text.skip(text.len() - last.len()));
    assert(last.is_suffix_of(text));
}

} // verus!
