//! What installing, watching and taking up an installation bring about, said of the words of the
//! commands and of the fields of what was told.
use super::creation;
use super::creation::ManagedWindowsVmProfileView;
use super::executor::VBoxOutputView;
use super::guest_laws;
use super::guest_observation;
use super::install_config;
use super::install_config::WindowsInstallConfigView;
use super::install_laws;
use super::installation;
use super::machine_info;
use super::recovery;
use super::recovery::{ManagedVmRecoveryClassification, RecoveryMediaView};
use super::service;
use super::service::{Request, Run};
use crate::journal;
use crate::paths;
use crate::seats::{
    GuestAdditionsInstallState, GuestRunLevel, GuestRunLevelProbeView, ManagedInstallState,
    ManagedVmInstallationView, ManagedVmStatus, ManagedWindowsVersion, WindowsInstallationStatus,
};
use crate::text::model;
use crate::text::model::Text;
use crate::virtualization::DetectionState;
use vstd::prelude::*;

verus! {

/// The output of a command, where it succeeded.
pub open spec fn output_at(w: Run, k: int) -> Option<VBoxOutputView> {
    match (w.oracle)(k)->Output_0 {
        Ok(output) => if output.success {
            Some(output)
        } else {
            None
        },
        Err(_) => None,
    }
}

/// Whether two texts are there and equal, whatever the case of their letters.
pub open spec fn reads(fields: Map<Text, Text>, key: Text, value: Text) -> bool {
    fields.contains_key(key) && model::lower(fields[key]) == model::lower(value)
}

// ---- Installing ------------------------------------------------------------------------

/// An installation that succeeds has done four things, in order: it has looked at its machine and
/// found the guest system of its profile, has put the password that was given into a file, has
/// told VirtualBox to install from the image that was given with that file, and has taken the
/// file away. What it records is what it was given.
pub proof fn law_an_installation_does_what_it_is_for(
    w: Run,
    vm_id: Text,
    iso_path: Text,
    config: WindowsInstallConfigView,
    profile: ManagedWindowsVmProfileView,
    additions_iso: Option<Text>,
)
    requires
        installation::install_p(w, vm_id, iso_path, config, profile, additions_iso).1 is Ok,
    ensures
        ({
            let (after, result) = installation::install_p(
                w,
                vm_id,
                iso_path,
                config,
                profile,
                additions_iso,
            );
            let n = w.requests.len() as int;
            let put = after.requests.skip(n);
            let made = result->Ok_0;
            let file = (w.oracle)(n + 1)->Password_0->Ok_0;
            &&& after.requests.len() == n + 4
            &&& after.requests.take(n) == w.requests
            &&& put[0] == Request::Execute(seq!["showvminfo"@, vm_id, "--machinereadable"@])
            &&& output_at(w, n) matches Some(output) && reads(
                machine_info::machine_fields(output.stdout),
                "ostype"@,
                profile.guest_os_description,
            )
            &&& put[1] == Request::KeepPassword(config.password)
            &&& put[2] matches Request::Execute(words) && {
                &&& words[0] == "unattended"@ && words[1] == "install"@ && words[2] == vm_id
                &&& install_laws::options(words).contains("--iso="@ + iso_path)
                &&& install_laws::options(words).contains("--user-password-file="@ + file)
                &&& install_laws::options(words).contains(
                    "--user="@ + model::trimmed(config.username),
                )
                &&& words.last() == "--start-vm=gui"@
            }
            &&& put[3] == Request::ForgetPassword(file)
            &&& made.windows_version == profile.windows_version
            &&& made.virtual_box_os_type_id == profile.virtual_box_os_type_id
            &&& made.computer_name == model::trimmed(config.computer_name)
            &&& made.domain_name == model::lower(model::trimmed(config.domain_name))
            &&& made.state == ManagedInstallState::InstallingWindows
            &&& made.guest_additions == (if config.install_guest_additions {
                GuestAdditionsInstallState::Installing
            } else {
                GuestAdditionsInstallState::NotInstalled
            })
            &&& made.guest_additions_version is None
            &&& made.last_error is None
            &&& made.observed.windows == WindowsInstallationStatus::Installing
            &&& made.observed.managed == ManagedVmStatus::Installing
            &&& config.install_guest_additions ==> additions_iso is Some
        }),
{
    let after = installation::install_p(
        w,
        vm_id,
        iso_path,
        config,
        profile,
        additions_iso,
    ).0;
    let n = w.requests.len() as int;
    let file = (w.oracle)(n + 1)->Password_0->Ok_0;
    let (arguments, sensitive) = install_config::unattended(
        vm_id,
        iso_path,
        file,
        additions_iso,
        config,
    )->Ok_0;
    install_laws::law_every_setting_reaches_the_installation(
        vm_id,
        iso_path,
        file,
        additions_iso,
        config,
    );
    let look = Request::Execute(seq!["showvminfo"@, vm_id, "--machinereadable"@]);
    assert(after.requests =~= w.requests.push(look).push(
        Request::KeepPassword(config.password),
    ).push(Request::Execute(arguments)).push(Request::ForgetPassword(file)));
    assert(after.requests.take(n) =~= w.requests);
}

/// An installation is refused before anything is asked where its settings are not allowed, or
/// where Guest Additions are wanted and their image is not there. Otherwise its first request
/// looks at its machine.
pub proof fn law_an_installation_checks_first(
    w: Run,
    vm_id: Text,
    iso_path: Text,
    config: WindowsInstallConfigView,
    profile: ManagedWindowsVmProfileView,
    additions_iso: Option<Text>,
)
    ensures
        ({
            let (after, result) = installation::install_p(
                w,
                vm_id,
                iso_path,
                config,
                profile,
                additions_iso,
            );
            let n = w.requests.len() as int;
            let allowed = install_config::config_check(config) is Ok && (
            config.install_guest_additions ==> additions_iso is Some);
            &&& !allowed ==> after == w && result is Err
            &&& allowed ==> after.requests.len() > n && after.requests[n] == Request::Execute(
                seq!["showvminfo"@, vm_id, "--machinereadable"@],
            )
        }),
{
}

// ---- Watching --------------------------------------------------------------------------

/// A probe asks whether a guest has reached a level, by that level's own name, and found it if and
/// only if the exit code was zero, whatever was printed.
pub proof fn law_a_probe_goes_by_the_exit_code(
    w: Run,
    vm_id: Text,
    timeout_ms: nat,
    level: GuestRunLevel,
    name: Text,
)
    ensures
        ({
            let (after, probe) = installation::probe_p(w, vm_id, timeout_ms, level, name);
            let n = w.requests.len() as int;
            let answer = (w.oracle)(n + 1)->Output_0;
            &&& after.state == w.state
            &&& after.requests.len() == n + 3
            &&& after.requests.take(n) == w.requests
            &&& after.requests[n + 1] == Request::Execute(
                seq![
                    "guestcontrol"@,
                    vm_id,
                    "waitrunlevel"@,
                    name,
                    "--timeout"@,
                    model::decimal(timeout_ms),
                ],
            )
            &&& probe.level == level
            &&& probe.success <==> (answer matches Ok(output) && output.exit_code == Some(0i32))
            &&& (answer matches Ok(output) ==> probe.exit_code == output.exit_code && probe.stdout
                == output.stdout && probe.stderr == output.stderr)
            &&& (answer matches Err(error) ==> probe.exit_code is None && probe.stderr == error)
        }),
{
    let (after, probe) = installation::probe_p(w, vm_id, timeout_ms, level, name);
    let n = w.requests.len() as int;
    assert(after.requests.take(n) =~= w.requests);
}

/// The three levels of a guest are probed in turn, each under its own name: its system, its
/// user's programs and its desktop.
pub proof fn law_each_level_is_probed_by_its_name(w: Run, vm_id: Text, timeout_ms: nat)
    ensures
        ({
            let (after, probes) = installation::probes_p(w, vm_id, timeout_ms);
            let n = w.requests.len() as int;
            &&& probes.len() == 3
            &&& probes[0].level == GuestRunLevel::System
            &&& probes[1].level == GuestRunLevel::Userland
            &&& probes[2].level == GuestRunLevel::Desktop
            &&& after.requests.len() == n + 9
            &&& after.requests[n + 1] matches Request::Execute(words) && words.len() == 6
                && words[1] == vm_id && words[3] == "system"@
            &&& after.requests[n + 4] matches Request::Execute(words) && words.len() == 6
                && words[1] == vm_id && words[3] == "userland"@
            &&& after.requests[n + 7] matches Request::Execute(words) && words.len() == 6
                && words[1] == vm_id && words[3] == "desktop"@
        }),
{
}

/// A look at an installation reports what the machine, the probes and the guest's properties
/// said, taken in by one look, about the machine that was asked about. Watching is over once the
/// machine is ready or has failed.
pub proof fn law_a_look_reports_what_it_saw(
    w: Run,
    vm_id: Text,
    previous: ManagedVmInstallationView,
)
    ensures
        installation::inspect_installation_p(w, vm_id, previous).1 matches Ok(report) ==> {
            let n = w.requests.len() as int;
            let after = installation::inspect_installation_p(w, vm_id, previous).0;
            &&& report.vm_id == vm_id
            &&& report.windows_guest_detected <==> report.installation.observed.windows
                == WindowsInstallationStatus::Installed
            &&& report.monitoring_complete <==> (report.installation.observed.managed
                == ManagedVmStatus::Ready || report.installation.observed.managed
                == ManagedVmStatus::Failed)
            &&& after.requests.len() == n + 12
            &&& after.requests[n] == Request::Execute(
                seq!["showvminfo"@, vm_id, "--machinereadable"@],
            )
            &&& after.requests[n + 10] == Request::Execute(
                seq!["guestproperty"@, "enumerate"@, vm_id],
            )
            &&& report.installation == guest_observation::reconciled(
                previous,
                report.vm_state,
                installation::probes_p(service::inspect_vm_p(w, vm_id).0, vm_id, 2000).1,
                guest_observation::guest_property_map(output_at(w, n + 10)->0.stdout),
                (w.oracle)(n + 11)->Millis_0,
            )
            &&& output_at(w, n) matches Some(output) && report.vm_state == (
            if machine_info::machine_fields(output.stdout).contains_key("VMState"@) {
                machine_info::machine_fields(output.stdout)["VMState"@]
            } else {
                "unknown"@
            })
        },
{
    if let Ok(report) = installation::inspect_installation_p(w, vm_id, previous).1 {
        let (w1, answer) = service::inspect_vm_p(w, vm_id);
        let (w2, probes) = installation::probes_p(w1, vm_id, 2000);
        let (w3, _) = installation::guest_properties_p(w2, vm_id);
        let n = w.requests.len() as int;
        assert(w2.requests.len() == n + 10);
        assert(w3.requests.len() == n + 11);
        assert(w2.requests[n] == w1.requests[n]);
    }
}

// ---- The machine of an installation that failed ----------------------------------------

/// A machine may be taken up again if and only if it is the managed one by its identifier, has
/// the guest system of its profile, is off or was aborted, and has the hardware that its Windows
/// version needs.
pub proof fn law_a_machine_is_taken_up_only_as_it_was_made(
    fields: Map<Text, Text>,
    vm_id: Text,
    profile: ManagedWindowsVmProfileView,
)
    ensures
        recovery::machine_check(fields, vm_id, profile) is Ok <==> {
            &&& reads(fields, "UUID"@, vm_id)
            &&& reads(fields, "ostype"@, profile.guest_os_description)
            &&& reads(fields, "VMState"@, "poweroff"@) || reads(fields, "VMState"@, "aborted"@)
            &&& profile.windows_version == ManagedWindowsVersion::Windows11 ==> reads(
                fields,
                "firmware"@,
                "EFI"@,
            )
            &&& profile.windows_version == ManagedWindowsVersion::Windows10 ==> reads(
                fields,
                "firmware"@,
                "BIOS"@,
            )
            &&& reads(fields, "ioapic"@, "on"@)
            &&& reads(fields, "xhci"@, "on"@)
            &&& reads(fields, "graphicscontroller"@, "vboxsvga"@)
            &&& reads(fields, "storagecontrollertype0"@, "IntelAhci"@)
            &&& reads(fields, "nic1"@, "nat"@)
            &&& reads(fields, "audio_out"@, "on"@)
        },
{
    lemma_lowered();
}

proof fn lemma_lowered()
    ensures
        model::lower("poweroff"@) != model::lower("running"@),
        model::lower("poweroff"@) != model::lower("paused"@),
        model::lower("poweroff"@) != model::lower("saved"@),
        model::lower("aborted"@) != model::lower("running"@),
        model::lower("aborted"@) != model::lower("paused"@),
        model::lower("aborted"@) != model::lower("saved"@),
        model::lower("unknown"@) != model::lower("poweroff"@),
        model::lower("unknown"@) != model::lower("aborted"@),
{
    reveal_strlit("poweroff");
    reveal_strlit("running");
    reveal_strlit("paused");
    reveal_strlit("saved");
    reveal_strlit("aborted");
    reveal_strlit("unknown");
    assert(model::lower("poweroff"@).len() == 8);
    assert(model::lower("running"@).len() == 7 && model::lower("running"@)[0] == 'r');
    assert(model::lower("paused"@).len() == 6);
    assert(model::lower("saved"@).len() == 5);
    assert(model::lower("aborted"@).len() == 7 && model::lower("aborted"@)[0] == 'a');
    assert(model::lower("unknown"@).len() == 7 && model::lower("unknown"@)[0] == 'u');
}

/// There is a sign that Windows is there if and only if it was found before, the guest names a
/// Windows, its Guest Additions tell their version or the host's, or a user's programs were found
/// running.
pub proof fn law_any_sign_of_windows_counts(
    previous: ManagedVmInstallationView,
    properties: Map<Text, Text>,
    probes: Seq<GuestRunLevelProbeView>,
)
    ensures
        recovery::has_progressed(previous, properties, probes) <==> {
            ||| previous.observed.windows == WindowsInstallationStatus::Installed
            ||| properties.contains_key("/VirtualBox/GuestInfo/OS/Product"@) && model::contains(
                model::lower(properties["/VirtualBox/GuestInfo/OS/Product"@]),
                "windows"@,
            )
            ||| properties.contains_key("/VirtualBox/GuestAdd/Version"@)
            ||| properties.contains_key("/VirtualBox/GuestAdd/HostVerLastChecked"@)
            ||| guest_laws::found_userland(probes)
        },
{
    if recovery::reached_userland(probes) {
        let i = choose|i: int|
            0 <= i < probes.len() && (#[trigger] probes[i]).success && probes[i].level.rank()
                >= GuestRunLevel::Userland.rank();
        assert(probes[i].success);
    }
    if guest_laws::found_userland(probes) {
        let i = choose|i: int|
            0 <= i < probes.len() && (#[trigger] probes[i]).success && (probes[i].level
                == GuestRunLevel::Userland || probes[i].level == GuestRunLevel::Desktop);
        assert(probes[i].success);
    }
}

/// Whether a path leads to a file with an extension, whatever the case of its letters.
pub open spec fn ends_in(path: Text, extension: Text) -> bool {
    paths::extension(path) matches Some(found) && model::lower(found) == model::lower(extension)
}

/// The medium of an installation is the image that was attached, where that is an image, or the
/// prepared medium of this very machine, where that is complete: it is named after the machine's
/// identifier, names an image, and the two files that VirtualBox makes for the machine stand
/// beside it. Any other medium is refused.
pub proof fn law_only_the_machines_own_medium_is_used(w: Run, vm_id: Text, attached: Text)
    ensures
        ({
            let (after, result) = recovery::media_p(w, vm_id, attached);
            let n = w.requests.len() as int;
            match result {
                Ok(RecoveryMediaView::OriginalIso { iso_path }) => {
                    &&& iso_path == attached
                    &&& ends_in(attached, "iso"@)
                    &&& after.requests == w.requests.push(Request::InspectIso(attached))
                    &&& creation::iso_check(attached, (w.oracle)(n)->Iso_0) is Ok
                },
                Ok(RecoveryMediaView::Prepared { iso_path, unattended_media_path }) => {
                    &&& unattended_media_path == attached
                    &&& ends_in(attached, "viso"@)
                    &&& !ends_in(attached, "iso"@)
                    &&& paths::file_name(attached) matches Some(name) && model::lower(name)
                        == model::lower("Unattended-"@ + vm_id + "-"@ + "aux-iso.viso"@)
                    &&& after.requests.len() == n + 4
                    &&& after.requests[n] == Request::ReadText(attached)
                    &&& (w.oracle)(n)->Content_0 matches Ok(definition) && recovery::imported_iso(
                        definition,
                    ) == Some(iso_path)
                    &&& after.requests[n + 1] == Request::InspectIso(iso_path)
                    &&& creation::iso_check(iso_path, (w.oracle)(n + 1)->Iso_0) is Ok
                    &&& paths::parent(attached) matches Some(directory) && {
                        &&& after.requests[n + 2] == Request::IsFile(
                            paths::joined(
                                directory,
                                "Unattended-"@ + vm_id + "-"@ + "autounattend.xml"@,
                            ),
                        )
                        &&& after.requests[n + 3] == Request::IsFile(
                            paths::joined(
                                directory,
                                "Unattended-"@ + vm_id + "-"@ + "VBOXPOST.CMD"@,
                            ),
                        )
                    }
                    &&& (w.oracle)(n + 2)->Flag_0
                    &&& (w.oracle)(n + 3)->Flag_0
                },
                Err(_) => true,
            }
        }),
        !ends_in(attached, "iso"@) && !ends_in(attached, "viso"@) ==> recovery::media_p(
            w,
            vm_id,
            attached,
        ).1 is Err,
{
}

/// The system disk of a machine is what stands at the first port of its controller and is there,
/// and the medium of its installation is what stands at the second.
pub proof fn law_disk_and_medium_stand_at_their_ports(
    w: Run,
    vm_id: Text,
    fields: Map<Text, Text>,
)
    ensures
        recovery::attachments_p(w, vm_id, fields).1 matches Ok((disk, media)) ==> {
            let n = w.requests.len() as int;
            let w1 = journal::ask(w, Request::IsFile(disk)).0;
            &&& fields.contains_key("SATA-0-0"@) && fields["SATA-0-0"@] == disk && disk != "none"@
            &&& (w.oracle)(n)->Flag_0
            &&& fields.contains_key("SATA-1-0"@) && fields["SATA-1-0"@] != "none"@
            &&& recovery::media_p(w1, vm_id, fields["SATA-1-0"@]).1 == Ok::<
                RecoveryMediaView,
                Text,
            >(media)
        },
{
}

// ---- Taking an installation up ---------------------------------------------------------

/// An installation has a plan only where it is a managed one that failed, its machine is as it
/// was made and at rest, its disk and its medium are there, and the guest shows no sign of
/// Windows. The plan is about that machine, disk and medium, and asks for credentials exactly
/// where the installation has to be prepared afresh.
pub proof fn law_a_plan_rests_on_every_check(
    w: Run,
    vm_id: Text,
    managed: bool,
    previous: ManagedVmInstallationView,
)
    ensures
        recovery::validate_p(w, vm_id, managed, previous).1 matches Ok(found) ==> {
            let n = w.requests.len() as int;
            let told = found.status;
            &&& managed
            &&& previous.state == ManagedInstallState::Failed
            &&& previous.observed.windows != WindowsInstallationStatus::Installed
            &&& found.profile.windows_version == previous.windows_version
            &&& previous.virtual_box_os_type_id.len() > 0 ==> model::lower(
                previous.virtual_box_os_type_id,
            ) == model::lower(found.profile.virtual_box_os_type_id)
            &&& output_at(w, n + 1) matches Some(output) && {
                let fields = machine_info::machine_fields(output.stdout);
                &&& recovery::machine_check(fields, vm_id, found.profile) is Ok
                &&& fields.contains_key("SATA-0-0"@)
                &&& told.system_disk_path == Some(fields["SATA-0-0"@])
                &&& fields.contains_key("SATA-1-0"@)
                &&& told.unattended_preparation_present ==> told.unattended_media_path == Some(
                    fields["SATA-1-0"@],
                )
                &&& !told.unattended_preparation_present ==> told.iso_path == Some(
                    fields["SATA-1-0"@],
                )
                &&& told.vm_state == Some(fields["VMState"@])
            }
            &&& told.vm_id == vm_id
            &&& told.windows_version == previous.windows_version
            &&& told.virtual_box_os_type_id == found.profile.virtual_box_os_type_id
            &&& told.vm_configuration_valid
            &&& told.iso_path is Some
            &&& told.credentials_required <==> !told.unattended_preparation_present
            &&& told.classification == (if told.unattended_preparation_present {
                ManagedVmRecoveryClassification::RecoverablePreparedInstall
            } else {
                ManagedVmRecoveryClassification::RecoverablePreBoot
            })
        },
{
    if let Ok(found) = recovery::validate_p(w, vm_id, managed, previous).1 {
        super::creation_outcomes::law_a_profile_is_of_its_version(
            w,
            previous.windows_version,
            None,
        );
        let (w1, r1) = recovery::profile_of_p(w, managed, previous);
        let profile = r1->Ok_0;
        let (w2, r2) = service::checked_p(
            w1,
            seq!["showvminfo"@, vm_id, "--machinereadable"@],
        );
        let fields = machine_info::machine_fields(r2->Ok_0.stdout);
        law_a_machine_is_taken_up_only_as_it_was_made(fields, vm_id, profile);
        let (w3, r3) = recovery::attachments_p(w2, vm_id, fields);
        law_disk_and_medium_stand_at_their_ports(w2, vm_id, fields);
        let at = journal::ask(w2, Request::IsFile(fields["SATA-0-0"@])).0;
        law_only_the_machines_own_medium_is_used(at, vm_id, fields["SATA-1-0"@]);
    }
}

/// An installation can be taken up if and only if there is a plan for it, the firmware says that
/// it allows virtualization, and VirtualBox says that it can use it. Where there is none, the
/// reason is told.
pub proof fn law_what_can_be_taken_up(
    w: Run,
    vm_id: Text,
    managed: bool,
    previous: ManagedVmInstallationView,
)
    ensures
        ({
            let told = recovery::status_p(w, vm_id, managed, previous).1;
            let n = w.requests.len() as int;
            let w1 = recovery::readiness_p(w).0;
            let plan = recovery::validate_p(w1, vm_id, managed, previous).1;
            &&& told.firmware_virtualization == (w.oracle)(n)->Detection_0
            &&& w1.requests == w.requests.push(Request::Firmware).push(
                Request::Execute(seq!["list"@, "hostinfo"@]),
            )
            &&& output_at(w, n + 1) is None ==> told.virtual_box_execution
                == DetectionState::Unknown
            &&& told.can_resume <==> {
                &&& plan is Ok
                &&& told.firmware_virtualization == DetectionState::Yes
                &&& told.virtual_box_execution == DetectionState::Yes
            }
            &&& told.virtualization_ready <==> {
                &&& told.firmware_virtualization == DetectionState::Yes
                &&& told.virtual_box_execution == DetectionState::Yes
            }
            &&& told.virtualization_blocker is Some <==> !told.virtualization_ready
            &&& !told.can_resume ==> told.reason is Some
            &&& told.vm_id == vm_id
            &&& told.windows_version == previous.windows_version
            &&& (plan matches Err(reason) ==> told.reason == Some(reason))
            &&& plan is Err && previous.state == ManagedInstallState::Ready
                ==> told.classification == ManagedVmRecoveryClassification::Ready
            &&& plan is Err && previous.state == ManagedInstallState::Failed
                ==> told.classification == ManagedVmRecoveryClassification::Unrecoverable
            &&& plan is Err && (previous.state == ManagedInstallState::InstallingWindows
                || previous.state == ManagedInstallState::Rebooting || previous.state
                == ManagedInstallState::InstallingGuestAdditions || previous.state
                == ManagedInstallState::WaitingForGuest) ==> told.classification
                == ManagedVmRecoveryClassification::InstallationInProgress
            &&& plan is Err && (previous.state == ManagedInstallState::NotCreated
                || previous.state == ManagedInstallState::Creating) ==> told.classification
                == ManagedVmRecoveryClassification::Unknown
        }),
{
    let w1 = recovery::readiness_p(w).0;
    law_a_plan_rests_on_every_check(w1, vm_id, managed, previous);
    assert(w1.requests =~= w.requests.push(Request::Firmware).push(
        Request::Execute(seq!["list"@, "hostinfo"@]),
    ));
    if let Ok(found) = recovery::validate_p(w1, vm_id, managed, previous).1 {
        assert(found.status.reason is None);
    }
}

/// An installation that was prepared is taken up by starting its machine with a window, and goes
/// on as it was, being installed and without an error. Another one is prepared afresh, on the same
/// machine, from the image that is attached to it.
pub proof fn law_an_installation_is_taken_up_on_its_machine(
    w: Run,
    vm_id: Text,
    managed: bool,
    previous: ManagedVmInstallationView,
    config: WindowsInstallConfigView,
    additions_iso: Option<Text>,
)
    requires
        recovery::resume_p(w, vm_id, managed, previous, config, additions_iso).1 is Ok,
    ensures
        ({
            let (after, result) = recovery::resume_p(
                w,
                vm_id,
                managed,
                previous,
                config,
                additions_iso,
            );
            let (w1, plan) = recovery::validate_p(w, vm_id, managed, previous);
            let made = result->Ok_0;
            &&& plan matches Ok(found) && {
                &&& found.status.unattended_preparation_present ==> {
                    &&& after.requests == w1.requests.push(
                        Request::Execute(seq!["startvm"@, vm_id, "--type"@, "gui"@]),
                    )
                    &&& made == (ManagedVmInstallationView {
                        state: ManagedInstallState::InstallingWindows,
                        last_error: None,
                        ..previous
                    })
                }
                &&& !found.status.unattended_preparation_present ==> {
                    &&& installation::install_p(
                        w1,
                        vm_id,
                        found.status.iso_path->0,
                        config,
                        found.profile,
                        additions_iso,
                    ) == (after, result)
                }
            }
        }),
{
    law_a_plan_rests_on_every_check(w, vm_id, managed, previous);
}

// ---- What went wrong before ------------------------------------------------------------

/// Hardware virtualization is said to have been missing exactly where the evidence holds one of
/// VirtualBox's two codes for that, and each code that it holds is named.
pub proof fn law_missing_virtualization_is_told_by_its_codes(evidence: Text)
    ensures
        ({
            let nem = model::contains(evidence, "VERR_NEM_NOT_AVAILABLE"@);
            let svm = model::contains(evidence, "VERR_SVM_DISABLED"@);
            &&& recovery::failure_codes(evidence) is Some <==> nem || svm
            &&& nem && !svm ==> recovery::failure_codes(evidence) == Some(
                "VERR_NEM_NOT_AVAILABLE"@,
            )
            &&& svm && !nem ==> recovery::failure_codes(evidence) == Some("VERR_SVM_DISABLED"@)
            &&& nem || svm ==> recovery::problem(Some(evidence), None) == Some(
                "Hardware virtualization was unavailable"@,
            )
            &&& !nem && !svm ==> recovery::problem(Some(evidence), None) == Some(
                "The previous installation attempt was interrupted"@,
            )
        }),
        recovery::problem(None, None) is None,
        recovery::problem(None, Some("aborted"@)) == Some(
            "The previous installation attempt was interrupted"@,
        ),
{
}

/// The names that are suggested for an installation are its own, where they are there and were
/// not given before names were checked, and else the usual ones. They make the host name that is
/// suggested with them.
pub proof fn law_suggested_names_are_the_installations_own(
    w: Run,
    vm_id: Text,
    managed: bool,
    previous: ManagedVmInstallationView,
)
    ensures
        ({
            let told = recovery::status_p(w, vm_id, managed, previous).1;
            let computer = model::trimmed(previous.computer_name);
            let old = computer.len() == 0 || model::lower(computer) == model::lower(
                "MULTISEAT-BARNEN"@,
            );
            &&& told.suggested_computer_name == (if old {
                "BARNEN-PC"@
            } else {
                previous.computer_name
            })
            &&& told.suggested_domain_name == (if model::trimmed(previous.domain_name).len() == 0 {
                "multiseat.local"@
            } else {
                previous.domain_name
            })
            &&& (install_config::hostname(
                told.suggested_computer_name,
                told.suggested_domain_name,
            ) matches Ok(host) ==> told.suggested_hostname == host)
        }),
{
}

} // verus!
