//! What holds of every installation and of every recovery, whatever VirtualBox and the host
//! answer.
use super::creation::ManagedWindowsVmProfileView;
use super::install_config;
use super::install_config::WindowsInstallConfigView;
use super::installation;
use super::machine_info;
use super::recovery;
use super::recovery::ManagedVmRecoveryClassification;
use super::request_laws;
use super::request_laws::Rule;
use super::service;
use super::service::{Request, Run};
use crate::journal;
use crate::paths;
use crate::seats::{GuestRunLevel, ManagedInstallState, ManagedVmInstallationView};
use crate::text::model::Text;
use crate::text_map;
use crate::virtualization::DetectionState;
use vstd::prelude::*;

verus! {

/// The rule of a program that only asks.
pub open spec fn only_asks() -> Rule {
    |earlier: Seq<Request>, put: Request| request_laws::reading(put)
}

// ---- Watching --------------------------------------------------------------------------

proof fn lemma_probe(
    w: Run,
    vm_id: Text,
    timeout_ms: nat,
    level: GuestRunLevel,
    name: Text,
    rule: Rule,
)
    requires
        request_laws::admits_reading(rule),
    ensures
        request_laws::goes(
            w,
            installation::probe_p(w, vm_id, timeout_ms, level, name).0,
            rule,
        ),
        installation::probe_p(w, vm_id, timeout_ms, level, name).0.state == w.state,
{
    let arguments = installation::probe_arguments(vm_id, name, timeout_ms);
    assert(request_laws::reading(Request::Execute(arguments)));
    request_laws::lemma_moment(w, rule);
    let (w0, started) = service::moment_p(w);
    request_laws::lemma_ask(w0, Request::Execute(arguments), rule);
    let (w1, _) = service::execute_p(w0, arguments);
    request_laws::lemma_goes_both(w, w0, w1, rule);
    request_laws::lemma_ask(w1, Request::Elapsed(started), rule);
    request_laws::lemma_goes_both(w, w1, journal::ask(w1, Request::Elapsed(started)).0, rule);
}

proof fn lemma_probes(w: Run, vm_id: Text, timeout_ms: nat, rule: Rule)
    requires
        request_laws::admits_reading(rule),
    ensures
        request_laws::goes(w, installation::probes_p(w, vm_id, timeout_ms).0, rule),
        installation::probes_p(w, vm_id, timeout_ms).0.state == w.state,
{
    lemma_probe(w, vm_id, timeout_ms, GuestRunLevel::System, "system"@, rule);
    let (w1, _) = installation::probe_p(w, vm_id, timeout_ms, GuestRunLevel::System, "system"@);
    lemma_probe(w1, vm_id, timeout_ms, GuestRunLevel::Userland, "userland"@, rule);
    let (w2, _) = installation::probe_p(
        w1,
        vm_id,
        timeout_ms,
        GuestRunLevel::Userland,
        "userland"@,
    );
    lemma_probe(w2, vm_id, timeout_ms, GuestRunLevel::Desktop, "desktop"@, rule);
    let (w3, _) = installation::probe_p(w2, vm_id, timeout_ms, GuestRunLevel::Desktop, "desktop"@);
    request_laws::lemma_goes_both(w, w1, w2, rule);
    request_laws::lemma_goes_both(w, w2, w3, rule);
}

proof fn lemma_guest_properties(w: Run, vm_id: Text, rule: Rule)
    requires
        request_laws::admits_reading(rule),
    ensures
        request_laws::goes(w, installation::guest_properties_p(w, vm_id).0, rule),
        installation::guest_properties_p(w, vm_id).0.state == w.state,
{
    request_laws::lemma_checked(w, seq!["guestproperty"@, "enumerate"@, vm_id], rule);
}

/// Watching an installation changes nothing: it only asks.
pub proof fn law_watching_changes_nothing(
    w: Run,
    vm_id: Text,
    previous: ManagedVmInstallationView,
)
    ensures
        journal::within(
            w,
            installation::inspect_installation_p(w, vm_id, previous).0,
            only_asks(),
        ),
        installation::inspect_installation_p(w, vm_id, previous).0.state == w.state,
{
    let rule = only_asks();
    request_laws::lemma_inspect(w, vm_id, rule);
    let (w1, inspected) = service::inspect_vm_p(w, vm_id);
    if inspected is Ok {
        lemma_probes(w1, vm_id, 2000, rule);
        let (w2, _) = installation::probes_p(w1, vm_id, 2000);
        request_laws::lemma_goes_both(w, w1, w2, rule);
        lemma_guest_properties(w2, vm_id, rule);
        let (w3, properties) = installation::guest_properties_p(w2, vm_id);
        request_laws::lemma_goes_both(w, w2, w3, rule);
        if properties is Ok {
            request_laws::lemma_ask(w3, Request::UnixTime, rule);
            request_laws::lemma_goes_both(
                w,
                w3,
                journal::ask(w3, Request::UnixTime).0,
                rule,
            );
        }
    }
}

// ---- Installing ------------------------------------------------------------------------

/// The password of an installation stands in no command: the command is the same whatever the
/// password is.
pub proof fn law_the_password_is_in_no_command(
    vm_id: Text,
    iso_path: Text,
    password_file: Text,
    additions_iso: Option<Text>,
    config: WindowsInstallConfigView,
    password: Text,
)
    ensures
        install_config::unattended(vm_id, iso_path, password_file, additions_iso, config)
            == install_config::unattended(
            vm_id,
            iso_path,
            password_file,
            additions_iso,
            (WindowsInstallConfigView { password, ..config }),
        ),
{
}

/// The rule of an installation of a machine: beside questions, the password is put into a file
/// and taken away, and one command prepares this machine.
pub open spec fn installs_only(vm_id: Text, password: Text) -> Rule {
    |earlier: Seq<Request>, put: Request|
        match put {
            Request::KeepPassword(text) => text == password,
            Request::ForgetPassword(_) => true,
            Request::Execute(arguments) => request_laws::reading_command(arguments) || (
            arguments.len() > 2 && arguments[0] == "unattended"@ && arguments[1] == "install"@
                && arguments[2] == vm_id),
            _ => request_laws::reading(put),
        }
}

/// Whether every password that was put into a file after some requests was taken away again by
/// the last request.
pub open spec fn forgets(before: Run, after: Run) -> bool {
    forall|k: int|
        #![trigger after.requests[k]]
        before.requests.len() <= k < after.requests.len() && after.requests[k] is KeepPassword
            ==> match (after.oracle)(k)->Password_0 {
            Ok(path) => after.requests.last() == Request::ForgetPassword(path),
            Err(_) => k == after.requests.len() - 1,
        }
}

proof fn lemma_install_from_file(
    w: Run,
    vm_id: Text,
    iso_path: Text,
    config: WindowsInstallConfigView,
    profile: ManagedWindowsVmProfileView,
    additions_iso: Option<Text>,
    password_file: Text,
)
    ensures
        ({
            let (after, _) = installation::install_from_file_p(
                w,
                vm_id,
                iso_path,
                config,
                profile,
                additions_iso,
                password_file,
            );
            &&& request_laws::goes(w, after, installs_only(vm_id, config.password))
            &&& after.state == w.state
            &&& after.requests == w.requests || (after.requests.len() == w.requests.len() + 1
                && after.requests.last() is Execute)
        }),
{
    let rule = installs_only(vm_id, config.password);
    request_laws::lemma_goes_none(w, rule);
    if let Ok((arguments, _)) = install_config::unattended(
        vm_id,
        iso_path,
        password_file,
        additions_iso,
        config,
    ) {
        assert(arguments[0] == "unattended"@);
        assert(arguments[1] == "install"@);
        assert(arguments[2] == vm_id);
        request_laws::lemma_ask(w, Request::Execute(arguments), rule);
    }
}

/// An installation puts its password into a file only where the machine is the one that its
/// profile describes, and takes the file away as its last act, whatever came of it. It runs no
/// command that changes something but the one that prepares its own machine.
pub proof fn law_a_kept_password_is_forgotten(
    w: Run,
    vm_id: Text,
    iso_path: Text,
    config: WindowsInstallConfigView,
    profile: ManagedWindowsVmProfileView,
    additions_iso: Option<Text>,
)
    ensures
        ({
            let (after, result) = installation::install_p(
                w,
                vm_id,
                iso_path,
                config,
                profile,
                additions_iso,
            );
            &&& journal::within(w, after, installs_only(vm_id, config.password))
            &&& forgets(w, after)
            &&& after.state == w.state
            &&& installation::check_profile_p(w, vm_id, profile).1 is Err ==> journal::within(
                w,
                after,
                only_asks(),
            )
        }),
{
    let rule = installs_only(vm_id, config.password);
    let (after, result) = installation::install_p(
        w,
        vm_id,
        iso_path,
        config,
        profile,
        additions_iso,
    );
    request_laws::lemma_goes_none(w, rule);
    request_laws::lemma_goes_none(w, only_asks());
    if install_config::config_check(config) is Ok && !(config.install_guest_additions
        && additions_iso is None) {
        request_laws::lemma_inspect(w, vm_id, rule);
        request_laws::lemma_inspect(w, vm_id, only_asks());
        let (w1, checked) = installation::check_profile_p(w, vm_id, profile);
        assert(w1.requests == w.requests.push(w1.requests.last()));
        assert(w1.requests.last() is Execute);
        if checked is Ok {
            let keep = Request::KeepPassword(config.password);
            request_laws::lemma_ask(w1, keep, rule);
            let (w2, reply) = journal::ask(w1, keep);
            request_laws::lemma_goes_both(w, w1, w2, rule);
            if let Ok(path) = reply->Password_0 {
                lemma_install_from_file(
                    w2,
                    vm_id,
                    iso_path,
                    config,
                    profile,
                    additions_iso,
                    path,
                );
                let (w3, _) = installation::install_from_file_p(
                    w2,
                    vm_id,
                    iso_path,
                    config,
                    profile,
                    additions_iso,
                    path,
                );
                request_laws::lemma_goes_both(w, w2, w3, rule);
                request_laws::lemma_ask(w3, Request::ForgetPassword(path), rule);
                request_laws::lemma_goes_both(w, w3, after, rule);
                let n = w.requests.len() as int;
                assert(w3.requests.take(n + 2) == w2.requests);
                assert(w3.requests[n] == w3.requests.take(n + 2)[n]);
                assert(w3.requests[n + 1] == w3.requests.take(n + 2)[n + 1]);
                assert(forgets(w, after));
            }
        }
    }
}

// ---- Recovering ------------------------------------------------------------------------

proof fn lemma_iso(w: Run, path: Text, rule: Rule)
    requires
        request_laws::admits_reading(rule),
    ensures
        request_laws::goes(w, recovery::iso_p(w, path).0, rule),
        recovery::iso_p(w, path).0.state == w.state,
{
    request_laws::lemma_goes_none(w, rule);
    request_laws::lemma_ask(w, Request::InspectIso(path), rule);
}

proof fn lemma_artifact(w: Run, directory: Text, vm_id: Text, suffix: Text, rule: Rule)
    requires
        request_laws::admits_reading(rule),
    ensures
        request_laws::goes(w, recovery::artifact_p(w, directory, vm_id, suffix).0, rule),
        recovery::artifact_p(w, directory, vm_id, suffix).0.state == w.state,
{
    request_laws::lemma_ask(
        w,
        Request::IsFile(paths::joined(directory, recovery::artifact(vm_id, suffix))),
        rule,
    );
}

proof fn lemma_prepared_media(w: Run, vm_id: Text, attached: Text, rule: Rule)
    requires
        request_laws::admits_reading(rule),
    ensures
        request_laws::goes(w, recovery::prepared_media_p(w, vm_id, attached).0, rule),
        recovery::prepared_media_p(w, vm_id, attached).0.state == w.state,
{
    request_laws::lemma_ask(w, Request::ReadText(attached), rule);
    let (w1, reply) = journal::ask(w, Request::ReadText(attached));
    if let Ok(definition) = reply->Content_0 {
        if let Some(iso_path) = recovery::imported_iso(definition) {
            lemma_iso(w1, iso_path, rule);
            let (w2, checked) = recovery::iso_p(w1, iso_path);
            request_laws::lemma_goes_both(w, w1, w2, rule);
            if let (Ok(()), Some(directory)) = (checked, paths::parent(attached)) {
                lemma_artifact(w2, directory, vm_id, "autounattend.xml"@, rule);
                let (w3, first) = recovery::artifact_p(w2, directory, vm_id, "autounattend.xml"@);
                request_laws::lemma_goes_both(w, w2, w3, rule);
                if first is Ok {
                    lemma_artifact(w3, directory, vm_id, "VBOXPOST.CMD"@, rule);
                    let (w4, _) = recovery::artifact_p(w3, directory, vm_id, "VBOXPOST.CMD"@);
                    request_laws::lemma_goes_both(w, w3, w4, rule);
                }
            }
        }
    }
}

proof fn lemma_media(w: Run, vm_id: Text, attached: Text, rule: Rule)
    requires
        request_laws::admits_reading(rule),
    ensures
        request_laws::goes(w, recovery::media_p(w, vm_id, attached).0, rule),
        recovery::media_p(w, vm_id, attached).0.state == w.state,
{
    request_laws::lemma_goes_none(w, rule);
    lemma_iso(w, attached, rule);
    lemma_prepared_media(w, vm_id, attached, rule);
}

proof fn lemma_attachments(w: Run, vm_id: Text, fields: Map<Text, Text>, rule: Rule)
    requires
        request_laws::admits_reading(rule),
    ensures
        request_laws::goes(w, recovery::attachments_p(w, vm_id, fields).0, rule),
        recovery::attachments_p(w, vm_id, fields).0.state == w.state,
{
    request_laws::lemma_goes_none(w, rule);
    if let Some(disk) = recovery::attached_at(fields, "SATA-0-0"@) {
        request_laws::lemma_ask(w, Request::IsFile(disk), rule);
        let (w1, reply) = journal::ask(w, Request::IsFile(disk));
        if let Some(medium) = recovery::attached_at(fields, "SATA-1-0"@) {
            lemma_media(w1, vm_id, medium, rule);
            request_laws::lemma_goes_both(
                w,
                w1,
                recovery::media_p(w1, vm_id, medium).0,
                rule,
            );
        }
    }
}

proof fn lemma_untouched(w: Run, vm_id: Text, previous: ManagedVmInstallationView, rule: Rule)
    requires
        request_laws::admits_reading(rule),
    ensures
        request_laws::goes(w, recovery::untouched_p(w, vm_id, previous).0, rule),
        recovery::untouched_p(w, vm_id, previous).0.state == w.state,
{
    lemma_guest_properties(w, vm_id, rule);
    let (w1, properties) = installation::guest_properties_p(w, vm_id);
    if properties is Ok {
        lemma_probes(w1, vm_id, 2000, rule);
        request_laws::lemma_goes_both(w, w1, installation::probes_p(w1, vm_id, 2000).0, rule);
    }
}

proof fn lemma_history(w: Run, error: Option<Text>, fields: Map<Text, Text>, rule: Rule)
    requires
        request_laws::admits_reading(rule),
    ensures
        request_laws::goes(w, recovery::history_p(w, error, fields).0, rule),
        recovery::history_p(w, error, fields).0.state == w.state,
{
    request_laws::lemma_goes_none(w, rule);
    if let Some(folder) = text_map::lookup(fields, "LogFldr"@) {
        request_laws::lemma_ask(
            w,
            Request::ReadText(paths::joined(folder, "VBox.log"@)),
            rule,
        );
    }
}

proof fn lemma_profile_of(
    w: Run,
    managed: bool,
    previous: ManagedVmInstallationView,
    rule: Rule,
)
    requires
        request_laws::admits_reading(rule),
    ensures
        request_laws::goes(w, recovery::profile_of_p(w, managed, previous).0, rule),
        recovery::profile_of_p(w, managed, previous).0.state == w.state,
{
    request_laws::lemma_goes_none(w, rule);
    request_laws::lemma_checked(w, seq!["list"@, "ostypes"@], rule);
}

/// What can be taken up is found out by questions alone.
proof fn lemma_validate(
    w: Run,
    vm_id: Text,
    managed: bool,
    previous: ManagedVmInstallationView,
    rule: Rule,
)
    requires
        request_laws::admits_reading(rule),
    ensures
        request_laws::goes(w, recovery::validate_p(w, vm_id, managed, previous).0, rule),
        recovery::validate_p(w, vm_id, managed, previous).0.state == w.state,
{
    lemma_profile_of(w, managed, previous, rule);
    let (w1, found) = recovery::profile_of_p(w, managed, previous);
    if let Ok(profile) = found {
        let command = seq!["showvminfo"@, vm_id, "--machinereadable"@];
        request_laws::lemma_checked(w1, command, rule);
        let (w2, answer) = service::checked_p(w1, command);
        request_laws::lemma_goes_both(w, w1, w2, rule);
        if let Ok(output) = answer {
            let fields = machine_info::machine_fields(output.stdout);
            if recovery::machine_check(fields, vm_id, profile) is Ok {
                lemma_attachments(w2, vm_id, fields, rule);
                let (w3, attached) = recovery::attachments_p(w2, vm_id, fields);
                request_laws::lemma_goes_both(w, w2, w3, rule);
                if attached is Ok {
                    lemma_untouched(w3, vm_id, previous, rule);
                    let (w4, untouched) = recovery::untouched_p(w3, vm_id, previous);
                    request_laws::lemma_goes_both(w, w3, w4, rule);
                    if untouched is Ok {
                        lemma_history(w4, previous.last_error, fields, rule);
                        let (w5, _) = recovery::history_p(w4, previous.last_error, fields);
                        request_laws::lemma_goes_both(w, w4, w5, rule);
                    }
                }
            }
        }
    }
}

/// Finding out what can be done about an installation changes nothing. It says that the
/// installation can be taken up only where the firmware and VirtualBox both can run a machine
/// and where every check was passed.
pub proof fn law_a_recovery_status_changes_nothing(
    w: Run,
    vm_id: Text,
    managed: bool,
    previous: ManagedVmInstallationView,
)
    ensures
        ({
            let (after, found) = recovery::status_p(w, vm_id, managed, previous);
            &&& journal::within(w, after, only_asks())
            &&& after.state == w.state
            &&& found.can_resume ==> {
                &&& found.firmware_virtualization == DetectionState::Yes
                &&& found.virtual_box_execution == DetectionState::Yes
                &&& managed
                &&& previous.state == ManagedInstallState::Failed
                &&& recovery::validate_p(
                    recovery::readiness_p(w).0,
                    vm_id,
                    managed,
                    previous,
                ).1 is Ok
            }
        }),
{
    let rule = only_asks();
    request_laws::lemma_ask(w, Request::Firmware, rule);
    let (w1, _) = journal::ask(w, Request::Firmware);
    request_laws::lemma_checked(w1, seq!["list"@, "hostinfo"@], rule);
    let (w2, _) = recovery::readiness_p(w);
    request_laws::lemma_goes_both(w, w1, w2, rule);
    lemma_validate(w2, vm_id, managed, previous, rule);
    request_laws::lemma_goes_both(
        w,
        w2,
        recovery::validate_p(w2, vm_id, managed, previous).0,
        rule,
    );
}

/// Nothing is asked of VirtualBox, and nothing is taken up, for a machine that is not managed
/// or whose installation has not failed.
pub proof fn law_only_a_failed_managed_installation_is_taken_up(
    w: Run,
    vm_id: Text,
    managed: bool,
    previous: ManagedVmInstallationView,
    config: WindowsInstallConfigView,
    additions_iso: Option<Text>,
)
    requires
        !managed || previous.state != ManagedInstallState::Failed,
    ensures
        ({
            let (after, result) = recovery::resume_p(
                w,
                vm_id,
                managed,
                previous,
                config,
                additions_iso,
            );
            after == w && result is Err
        }),
        recovery::status_p(w, vm_id, managed, previous).1.can_resume == false,
{
}

/// The command that starts a machine whose installation was prepared.
pub open spec fn start_command(vm_id: Text) -> Seq<Text> {
    seq!["startvm"@, vm_id, "--type"@, "gui"@]
}

/// The rule of a recovery: what an installation of this machine may do, or its start.
pub open spec fn recovers_only(vm_id: Text, password: Text) -> Rule {
    |earlier: Seq<Request>, put: Request|
        installs_only(vm_id, password)(earlier, put) || put == Request::Execute(
            start_command(vm_id),
        )
}

/// The rule of a recovery of an installation that was prepared: its machine is started, and
/// neither a password nor another preparation is asked for.
pub open spec fn starts_only(vm_id: Text) -> Rule {
    |earlier: Seq<Request>, put: Request|
        request_laws::reading(put) || put == Request::Execute(start_command(vm_id))
}

/// A recovery makes and deletes no machine and no disk: it starts its machine, or prepares it
/// afresh. An installation that was prepared is taken up by a start alone: no password is put
/// into a file and no preparation is run.
pub proof fn law_a_recovery_keeps_its_machine(
    w: Run,
    vm_id: Text,
    managed: bool,
    previous: ManagedVmInstallationView,
    config: WindowsInstallConfigView,
    additions_iso: Option<Text>,
)
    ensures
        ({
            let (after, result) = recovery::resume_p(
                w,
                vm_id,
                managed,
                previous,
                config,
                additions_iso,
            );
            let checked = recovery::validate_p(w, vm_id, managed, previous).1;
            &&& journal::within(w, after, recovers_only(vm_id, config.password))
            &&& forgets(w, after)
            &&& after.state == w.state
            &&& checked is Err ==> journal::within(w, after, only_asks()) && result is Err
            &&& (checked is Ok && checked->Ok_0.status.classification
                == ManagedVmRecoveryClassification::RecoverablePreparedInstall)
                ==> journal::within(w, after, starts_only(vm_id))
        }),
{
    let wide = recovers_only(vm_id, config.password);
    let narrow = starts_only(vm_id);
    let (after, _) = recovery::resume_p(w, vm_id, managed, previous, config, additions_iso);
    let (w1, checked) = recovery::validate_p(w, vm_id, managed, previous);
    lemma_validate(w, vm_id, managed, previous, only_asks());
    lemma_validate(w, vm_id, managed, previous, wide);
    lemma_validate(w, vm_id, managed, previous, narrow);
    assert forall|k: int| w.requests.len() <= k < w1.requests.len() implies !((
    #[trigger] w1.requests[k]) is KeepPassword) by {
        assert(only_asks()(w1.requests.take(k), w1.requests[k]));
    }
    if let Ok(found) = checked {
        if found.status.classification
            == ManagedVmRecoveryClassification::RecoverablePreparedInstall {
            request_laws::lemma_checked(w1, start_command(vm_id), wide);
            request_laws::lemma_checked(w1, start_command(vm_id), narrow);
            request_laws::lemma_goes_both(w, w1, after, wide);
            request_laws::lemma_goes_both(w, w1, after, narrow);
            assert(forgets(w, after));
        } else {
            let iso_path = found.status.iso_path->0;
            law_a_kept_password_is_forgotten(
                w1,
                vm_id,
                iso_path,
                config,
                found.profile,
                additions_iso,
            );
            journal::lemma_within_wider(
                w1,
                after,
                installs_only(vm_id, config.password),
                wide,
            );
            journal::lemma_within_both(w, w1, after, wide);
            assert forall|k: int|
                w.requests.len() <= k < after.requests.len() && (
                #[trigger] after.requests[k]) is KeepPassword implies match (after.oracle)(
                k,
            )->Password_0 {
                Ok(path) => after.requests.last() == Request::ForgetPassword(path),
                Err(_) => k == after.requests.len() - 1,
            } by {
                if k < w1.requests.len() {
                    assert(after.requests.take(w1.requests.len() as int)[k] == after.requests[k]);
                }
            }
        }
    }
}

} // verus!
