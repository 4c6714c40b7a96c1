//! Installing Windows without attendance, and watching the installation.
use super::creation::{
    IsoInspection, ManagedWindowsVmProfile, ManagedWindowsVmProfileView, VmCreationResult,
    VmCreationResultView,
};
use super::executor;
use super::executor::{Answer, VBoxOutput};
use super::guest_observation;
use super::guest_observation::{parse_guest_properties, reconcile_installation_observation};
use super::install_config;
use super::install_config::{
    unattended_arguments, unattended_hostname, validate_windows_install_config,
    WindowsInstallConfig, WindowsInstallConfigView,
};
use super::service;
use super::service::{args3, Reply, Request, Run, VirtualBoxRuntimeService};
use crate::duplicate;
use crate::duplicate::Duplicate;
use crate::journal;
use crate::journal::{Journaled, Relation};
use crate::seats;
use crate::seats::{
    GuestAdditionsInstallState, GuestRunLevel, GuestRunLevelProbe, GuestRunLevelProbeView,
    ManagedInstallState, ManagedInstallationObservation, ManagedInstallationObservationView,
    ManagedVmInstallation, ManagedVmInstallationView, ManagedVmStatus, WindowsInstallationStatus,
};
use crate::text::compose::{as_opt_str, concat2, concat4, concat7, to_lower};
use crate::text::model;
use crate::text::model::Text;
use crate::text::number::number_text;
use crate::text::scan::{opt_is_any_case, trim};
use crate::text_map;
use crate::text_map::TextMap;
use crate::virtualization::DetectionState;
use vstd::prelude::*;

verus! {

/// Why a password could not be put into a file.
#[derive(Debug, Eq, PartialEq)]
pub enum PasswordFailure {
    Create(String),
    Write(String),
}

/// The model of [`PasswordFailure`].
pub enum PasswordFailureView {
    Create(Text),
    Write(Text),
}

impl View for PasswordFailure {
    type V = PasswordFailureView;

    open spec fn view(&self) -> PasswordFailureView {
        match self {
            PasswordFailure::Create(error) => PasswordFailureView::Create(error@),
            PasswordFailure::Write(error) => PasswordFailureView::Write(error@),
        }
    }
}

/// The view of a password's file, or of why there is none.
pub open spec fn password_result(r: Result<String, PasswordFailure>) -> Result<
    Text,
    PasswordFailureView,
> {
    match r {
        Ok(path) => Ok(path@),
        Err(failure) => Err(failure@),
    }
}

/// The host on which machines are set up: its files and its firmware. Nothing is promised of
/// what it answers but what an implementation chooses to promise.
pub trait InstallationHost {
    /// Which answers it may give to which requests, whatever it has been asked before.
    open spec fn answers(&self) -> Relation<Request, Reply> {
        |request: Request, reply: Reply| true
    }

    /// Whether there is a file at a path.
    fn is_file(&mut self, path: &str) -> (r: bool)
        ensures
            old(self).answers()(Request::IsFile(path@), Reply::Flag(r)),
            final(self).answers() == old(self).answers(),
    ;

    /// Opens a path as an ISO image.
    fn inspect_iso(&mut self, path: &str) -> (r: IsoInspection)
        ensures
            old(self).answers()(Request::InspectIso(path@), Reply::Iso(r@)),
            final(self).answers() == old(self).answers(),
    ;

    /// The text of a file.
    fn read_text(&mut self, path: &str) -> (r: Result<String, String>)
        ensures
            old(self).answers()(Request::ReadText(path@), Reply::Content(model::text_result(r))),
            final(self).answers() == old(self).answers(),
    ;

    /// Whether the firmware allows virtualization.
    fn firmware_virtualization(&mut self) -> (r: DetectionState)
        ensures
            old(self).answers()(Request::Firmware, Reply::Detection(r)),
            final(self).answers() == old(self).answers(),
    ;

    /// Puts a password into a new file that only the user can read, and gives its path. Leaves
    /// no file behind where that fails.
    fn keep_password(&mut self, password: &str) -> (r: Result<String, PasswordFailure>)
        ensures
            old(self).answers()(
                Request::KeepPassword(password@),
                Reply::Password(password_result(r)),
            ),
            final(self).answers() == old(self).answers(),
    ;

    /// Takes a file with a password away.
    fn forget_password(&mut self, path: &str)
        ensures
            old(self).answers()(Request::ForgetPassword(path@), Reply::Nothing),
            final(self).answers() == old(self).answers(),
    ;
}

/// A machine that was created and whose installation was started.
#[derive(Debug, Eq, PartialEq)]
pub struct ManagedVmSetupResult {
    pub creation: VmCreationResult,
    pub installation: ManagedVmInstallation,
}

/// The model of [`ManagedVmSetupResult`].
#[verifier::ext_equal]
pub struct ManagedVmSetupResultView {
    pub creation: VmCreationResultView,
    pub installation: ManagedVmInstallationView,
}

impl View for ManagedVmSetupResult {
    type V = ManagedVmSetupResultView;

    open spec fn view(&self) -> ManagedVmSetupResultView {
        ManagedVmSetupResultView {
            creation: self.creation@,
            installation: self.installation@,
        }
    }
}

impl Duplicate for ManagedVmSetupResult {
    fn duplicate(&self) -> (r: Self) {
        ManagedVmSetupResult {
            creation: self.creation.duplicate(),
            installation: self.installation.duplicate(),
        }
    }
}

impl Clone for ManagedVmSetupResult {
    fn clone(&self) -> (r: Self)
        ensures
            r@ == self@,
    {
        self.duplicate()
    }
}

/// What a look at an installation gave.
#[derive(Debug, Eq, PartialEq)]
pub struct ManagedInstallationSnapshot {
    pub vm_id: String,
    pub vm_state: String,
    pub installation: ManagedVmInstallation,
    pub windows_guest_detected: bool,
    pub monitoring_complete: bool,
}

/// The model of [`ManagedInstallationSnapshot`].
#[verifier::ext_equal]
pub struct ManagedInstallationSnapshotView {
    pub vm_id: Text,
    pub vm_state: Text,
    pub installation: ManagedVmInstallationView,
    pub windows_guest_detected: bool,
    pub monitoring_complete: bool,
}

impl View for ManagedInstallationSnapshot {
    type V = ManagedInstallationSnapshotView;

    open spec fn view(&self) -> ManagedInstallationSnapshotView {
        ManagedInstallationSnapshotView {
            vm_id: self.vm_id@,
            vm_state: self.vm_state@,
            installation: self.installation@,
            windows_guest_detected: self.windows_guest_detected,
            monitoring_complete: self.monitoring_complete,
        }
    }
}

impl Duplicate for ManagedInstallationSnapshot {
    fn duplicate(&self) -> (r: Self) {
        ManagedInstallationSnapshot {
            vm_id: self.vm_id.clone(),
            vm_state: self.vm_state.clone(),
            installation: self.installation.duplicate(),
            windows_guest_detected: self.windows_guest_detected,
            monitoring_complete: self.monitoring_complete,
        }
    }
}

impl Clone for ManagedInstallationSnapshot {
    fn clone(&self) -> (r: Self)
        ensures
            r@ == self@,
    {
        self.duplicate()
    }
}

/// The step at which an installation failed, and why.
#[derive(Debug, Eq, PartialEq)]
pub struct InstallationFailure {
    pub failed_step: String,
    pub message: String,
}

/// The model of [`InstallationFailure`].
#[verifier::ext_equal]
pub struct InstallationFailureView {
    pub failed_step: Text,
    pub message: Text,
}

impl View for InstallationFailure {
    type V = InstallationFailureView;

    open spec fn view(&self) -> InstallationFailureView {
        InstallationFailureView {
            failed_step: self.failed_step@,
            message: self.message@,
        }
    }
}

impl Duplicate for InstallationFailure {
    fn duplicate(&self) -> (r: Self) {
        InstallationFailure {
            failed_step: self.failed_step.clone(),
            message: self.message.clone(),
        }
    }
}

impl Clone for InstallationFailure {
    fn clone(&self) -> (r: Self)
        ensures
            r@ == self@,
    {
        self.duplicate()
    }
}

impl InstallationFailure {
    /// The failure in words.
    pub fn to_text(&self) -> (r: String)
        ensures
            r@ == "Windows installation failed at '"@ + self@.failed_step + "': "@ + self@.message,
    {
        concat4(
            "Windows installation failed at '",
            self.failed_step.as_str(),
            "': ",
            self.message.as_str(),
        )
    }
}

pub open spec fn failed_at(step: Text, message: Text) -> InstallationFailureView {
    InstallationFailureView { failed_step: step, message }
}

pub(crate) fn failure(step: &str, message: String) -> (r: InstallationFailure)
    ensures
        r@ == failed_at(step@, message@),
{
    InstallationFailure { failed_step: step.to_owned(), message }
}

/// The view of an installation, or of why there is none.
pub open spec fn installation_result(r: Result<ManagedVmInstallation, InstallationFailure>) ->
    Result<ManagedVmInstallationView, InstallationFailureView> {
    match r {
        Ok(installation) => Ok(installation@),
        Err(reason) => Err(reason@),
    }
}

// ---- Probing a guest -------------------------------------------------------------------

/// The arguments of a probe.
pub open spec fn probe_arguments(vm_id: Text, name: Text, timeout_ms: nat) -> Seq<Text> {
    seq![
        "guestcontrol"@,
        vm_id,
        "waitrunlevel"@,
        name,
        "--timeout"@,
        model::decimal(timeout_ms),
    ]
}

/// What the answer to a probe means. Only the exit code counts.
pub open spec fn probe_of(level: GuestRunLevel, answer: Answer, elapsed: Option<u64>) ->
    GuestRunLevelProbeView {
    let elapsed_ms = match elapsed {
        Some(ms) => ms,
        None => u64::MAX,
    };
    match answer {
        Ok(output) => GuestRunLevelProbeView {
            level,
            success: output.exit_code == Some(0i32),
            exit_code: output.exit_code,
            stdout: output.stdout,
            stderr: output.stderr,
            elapsed_ms,
        },
        Err(error) => GuestRunLevelProbeView {
            level,
            success: false,
            exit_code: None,
            stdout: seq![],
            stderr: error,
            elapsed_ms,
        },
    }
}

/// Probes one level of a guest.
pub open spec fn probe_p(
    w: Run,
    vm_id: Text,
    timeout_ms: nat,
    level: GuestRunLevel,
    name: Text,
) -> (Run, GuestRunLevelProbeView) {
    let (w0, started) = service::moment_p(w);
    let (w1, answer) = service::execute_p(w0, probe_arguments(vm_id, name, timeout_ms));
    let (w2, reply) = journal::ask(w1, Request::Elapsed(started));
    (w2, probe_of(level, answer, reply->Millis_0))
}

/// Probes the levels of a guest, one after the other.
pub open spec fn probes_p(w: Run, vm_id: Text, timeout_ms: nat) -> (
    Run,
    Seq<GuestRunLevelProbeView>,
) {
    let (w1, system) = probe_p(w, vm_id, timeout_ms, GuestRunLevel::System, "system"@);
    let (w2, userland) = probe_p(w1, vm_id, timeout_ms, GuestRunLevel::Userland, "userland"@);
    let (w3, desktop) = probe_p(w2, vm_id, timeout_ms, GuestRunLevel::Desktop, "desktop"@);
    (w3, seq![system, userland, desktop])
}

/// Asks for the properties of a guest.
pub open spec fn guest_properties_p(w: Run, vm_id: Text) -> (Run, Result<Map<Text, Text>, Text>) {
    match service::checked_p(w, seq!["guestproperty"@, "enumerate"@, vm_id]) {
        (w1, Err(message)) => (w1, Err(message)),
        (w1, Ok(output)) => (w1, Ok(guest_observation::guest_property_map(output.stdout))),
    }
}

/// What is reported of an installation.
pub open spec fn snapshot(vm_id: Text, vm_state: Text, installation: ManagedVmInstallationView) ->
    ManagedInstallationSnapshotView {
    ManagedInstallationSnapshotView {
        vm_id,
        vm_state,
        installation,
        windows_guest_detected: installation.observed.windows
            == WindowsInstallationStatus::Installed,
        monitoring_complete: installation.observed.managed == ManagedVmStatus::Ready
            || installation.observed.managed == ManagedVmStatus::Failed,
    }
}

/// Looks at an installation.
pub open spec fn inspect_installation_p(
    w: Run,
    vm_id: Text,
    previous: ManagedVmInstallationView,
) -> (Run, Result<ManagedInstallationSnapshotView, Text>) {
    match service::inspect_vm_p(w, vm_id) {
        (w1, Err(message)) => (w1, Err(message)),
        (w1, Ok(vm)) => {
            let (w2, probes) = probes_p(w1, vm_id, 2000);
            match guest_properties_p(w2, vm_id) {
                (w3, Err(message)) => (w3, Err(message)),
                (w3, Ok(properties)) => {
                    let (w4, reply) = journal::ask(w3, Request::UnixTime);
                    (
                        w4,
                        Ok(
                            snapshot(
                                vm_id,
                                vm.state,
                                guest_observation::reconciled(
                                    previous,
                                    vm.state,
                                    probes,
                                    properties,
                                    reply->Millis_0,
                                ),
                            ),
                        ),
                    )
                },
            }
        },
    }
}

// ---- Starting an installation ----------------------------------------------------------

/// What is recorded of an installation that was started.
pub open spec fn started_installation(
    config: WindowsInstallConfigView,
    profile: ManagedWindowsVmProfileView,
) -> ManagedVmInstallationView {
    ManagedVmInstallationView {
        windows_version: profile.windows_version,
        virtual_box_os_type_id: profile.virtual_box_os_type_id,
        computer_name: model::trimmed(config.computer_name),
        domain_name: model::lower(model::trimmed(config.domain_name)),
        state: ManagedInstallState::InstallingWindows,
        guest_additions: if config.install_guest_additions {
            GuestAdditionsInstallState::Installing
        } else {
            GuestAdditionsInstallState::NotInstalled
        },
        guest_additions_version: None,
        last_error: None,
        observed: ManagedInstallationObservationView {
            windows: WindowsInstallationStatus::Installing,
            managed: ManagedVmStatus::Installing,
            ..seats::no_observation()
        },
    }
}

/// What is said where the machine is not the one that the profile describes.
pub open spec fn wrong_profile_text(profile: ManagedWindowsVmProfileView) -> Text {
    "managed VM does not use selected "@ + profile.display_name + " profile (ID "@
        + profile.virtual_box_os_type_id + ", description "@ + profile.guest_os_description + ")"@
}

/// Makes sure that a machine is the one that a profile describes.
pub open spec fn check_profile_p(
    w: Run,
    vm_id: Text,
    profile: ManagedWindowsVmProfileView,
) -> (Run, Result<(), InstallationFailureView>) {
    let step = "verify-managed-guest-profile"@;
    match service::inspect_vm_p(w, vm_id) {
        (w1, Err(message)) => (w1, Err(failed_at(step, message))),
        (w1, Ok(vm)) => if model::is_ignoring_case(
            vm.guest_os_description,
            profile.guest_os_description,
        ) {
            (w1, Ok(()))
        } else {
            (w1, Err(failed_at(step, wrong_profile_text(profile))))
        },
    }
}

/// Starts an installation whose password stands in a file.
pub open spec fn install_from_file_p(
    w: Run,
    vm_id: Text,
    iso_path: Text,
    config: WindowsInstallConfigView,
    profile: ManagedWindowsVmProfileView,
    additions_iso: Option<Text>,
    password_file: Text,
) -> (Run, Result<ManagedVmInstallationView, InstallationFailureView>) {
    match install_config::hostname(config.computer_name, config.domain_name) {
        Err(message) => (w, Err(failed_at("validate-installation-hostname"@, message))),
        Ok(host) => match install_config::unattended(
            vm_id,
            iso_path,
            password_file,
            additions_iso,
            config,
        ) {
            Err(message) => (w, Err(failed_at("build-unattended-command"@, message))),
            Ok((arguments, sensitive)) => match service::checked_redacted_p(
                w,
                arguments,
                sensitive,
            ) {
                (w1, Err(message)) => (
                    w1,
                    Err(
                        failed_at(
                            "prepare-and-start-unattended-installation"@,
                            "Computer name: "@ + model::trimmed(config.computer_name)
                                + "; DNS domain: "@ + model::trimmed(config.domain_name)
                                + "; generated hostname: "@ + host + ("; "@ + message),
                        ),
                    ),
                ),
                (w1, Ok(_)) => (w1, Ok(started_installation(config, profile))),
            },
        },
    }
}

/// Starts an installation. The password is kept in a file for as long as `VBoxManage` runs, and
/// is taken away whatever came of it.
pub open spec fn install_p(
    w: Run,
    vm_id: Text,
    iso_path: Text,
    config: WindowsInstallConfigView,
    profile: ManagedWindowsVmProfileView,
    additions_iso: Option<Text>,
) -> (Run, Result<ManagedVmInstallationView, InstallationFailureView>) {
    match install_config::config_check(config) {
        Err(message) => (w, Err(failed_at("validate-installation"@, message))),
        Ok(()) => if config.install_guest_additions && additions_iso is None {
            (
                w,
                Err(
                    failed_at(
                        "locate-guest-additions"@,
                        "Guest Additions was requested but VBoxGuestAdditions.iso was not found"@,
                    ),
                ),
            )
        } else {
            match check_profile_p(w, vm_id, profile) {
                (w1, Err(reason)) => (w1, Err(reason)),
                (w1, Ok(())) => {
                    let (w2, reply) = journal::ask(w1, Request::KeepPassword(config.password));
                    match reply->Password_0 {
                        Err(PasswordFailureView::Create(error)) => (
                            w2,
                            Err(
                                failed_at(
                                    "create-password-file"@,
                                    "could not create temporary password file: "@ + error,
                                ),
                            ),
                        ),
                        Err(PasswordFailureView::Write(error)) => (
                            w2,
                            Err(
                                failed_at(
                                    "write-password-file"@,
                                    "could not prepare temporary password file: "@ + error,
                                ),
                            ),
                        ),
                        Ok(path) => {
                            let (w3, result) = install_from_file_p(
                                w2,
                                vm_id,
                                iso_path,
                                config,
                                profile,
                                additions_iso,
                                path,
                            );
                            (journal::ask(w3, Request::ForgetPassword(path)).0, result)
                        },
                    }
                },
            }
        },
    }
}

spec fn unit_result(r: Result<(), InstallationFailure>) -> Result<(), InstallationFailureView> {
    match r {
        Ok(()) => Ok(()),
        Err(reason) => Err(reason@),
    }
}

/// The view of properties, or of why there are none.
pub open spec fn properties_result(r: Result<TextMap<String>, String>) -> Result<
    Map<Text, Text>,
    Text,
> {
    match r {
        Ok(properties) => Ok(text_map::text_values(properties@)),
        Err(message) => Err(message@),
    }
}

/// The view of a snapshot, or of why there is none.
pub open spec fn snapshot_result(r: Result<ManagedInstallationSnapshot, String>) -> Result<
    ManagedInstallationSnapshotView,
    Text,
> {
    match r {
        Ok(found) => Ok(found@),
        Err(message) => Err(message@),
    }
}

fn probe_command(vm_id: &str, name: &str, timeout_ms: u64) -> (r: Vec<String>)
    ensures
        model::texts(r@) == probe_arguments(vm_id@, name@, timeout_ms as nat),
{
    let mut command: Vec<String> = Vec::new();
    command.push("guestcontrol".to_owned());
    command.push(vm_id.to_owned());
    command.push("waitrunlevel".to_owned());
    command.push(name.to_owned());
    command.push("--timeout".to_owned());
    command.push(number_text(timeout_ms));
    assert(model::texts(command@) =~= probe_arguments(vm_id@, name@, timeout_ms as nat));
    command
}

fn read_probe(level: GuestRunLevel, answer: Result<VBoxOutput, String>, elapsed: Option<u64>) -> (r:
    GuestRunLevelProbe)
    ensures
        r@ == probe_of(level, executor::answer_view(answer), elapsed),
{
    let elapsed_ms: u64 = match elapsed {
        Some(ms) => ms,
        None => u64::MAX,
    };
    match answer {
        Ok(output) => {
            let success = match output.exit_code {
                Some(code) => code == 0,
                None => false,
            };
            GuestRunLevelProbe {
                level,
                success,
                exit_code: output.exit_code,
                stdout: output.stdout,
                stderr: output.stderr,
                elapsed_ms,
            }
        },
        Err(error) => GuestRunLevelProbe {
            level,
            success: false,
            exit_code: None,
            stdout: String::new(),
            stderr: error,
            elapsed_ms,
        },
    }
}

fn new_installation(config: &WindowsInstallConfig, profile: &ManagedWindowsVmProfile) -> (r:
    ManagedVmInstallation)
    ensures
        r@ == started_installation(config@, profile@),
{
    let domain = trim(config.domain_name.as_str());
    let mut observed = ManagedInstallationObservation::default();
    observed.windows = WindowsInstallationStatus::Installing;
    observed.managed = ManagedVmStatus::Installing;
    ManagedVmInstallation {
        windows_version: profile.windows_version,
        virtual_box_os_type_id: profile.virtual_box_os_type_id.clone(),
        computer_name: trim(config.computer_name.as_str()),
        domain_name: to_lower(domain.as_str()),
        state: ManagedInstallState::InstallingWindows,
        guest_additions: if config.install_guest_additions {
            GuestAdditionsInstallState::Installing
        } else {
            GuestAdditionsInstallState::NotInstalled
        },
        guest_additions_version: None,
        last_error: None,
        observed,
    }
}

impl VirtualBoxRuntimeService {
    fn probe_level(
        &mut self,
        vm_id: &str,
        timeout_ms: u64,
        level: GuestRunLevel,
        name: &str,
    ) -> (r: GuestRunLevelProbe)
        ensures
            journal::runs(
                *old(self),
                *final(self),
                |w: Run| probe_p(w, vm_id@, timeout_ms as nat, level, name@),
                r@,
            ),
    {
        let started = self.moment();
        let command = probe_command(vm_id, name, timeout_ms);
        let answer = self.execute(&command);
        let elapsed = self.elapsed(started);
        read_probe(level, answer, elapsed)
    }

    /// Probes how far a guest has started.
    pub fn probe_guest_runlevels(&mut self, vm_id: &str, timeout_ms: u64) -> (r: Vec<
        GuestRunLevelProbe,
    >)
        ensures
            journal::runs(
                *old(self),
                *final(self),
                |w: Run| probes_p(w, vm_id@, timeout_ms as nat),
                duplicate::views(r@),
            ),
    {
        let system = self.probe_level(vm_id, timeout_ms, GuestRunLevel::System, "system");
        let userland = self.probe_level(vm_id, timeout_ms, GuestRunLevel::Userland, "userland");
        let desktop = self.probe_level(vm_id, timeout_ms, GuestRunLevel::Desktop, "desktop");
        let probes = vec![system, userland, desktop];
        assert(duplicate::views(probes@) =~= seq![system@, userland@, desktop@]);
        probes
    }

    pub(crate) fn guest_properties(&mut self, vm_id: &str) -> (r: Result<TextMap<String>, String>)
        ensures
            journal::runs(
                *old(self),
                *final(self),
                |w: Run| guest_properties_p(w, vm_id@),
                properties_result(r),
            ),
    {
        match self.checked(args3("guestproperty", "enumerate", vm_id)) {
            Ok(output) => Ok(parse_guest_properties(output.stdout.as_str())),
            Err(message) => Err(message),
        }
    }

    /// Looks at an installation, and brings its journal up to date.
    pub fn inspect_managed_installation(
        &mut self,
        vm_id: &str,
        previous: &ManagedVmInstallation,
    ) -> (r: Result<ManagedInstallationSnapshot, String>)
        ensures
            journal::runs(
                *old(self),
                *final(self),
                |w: Run| inspect_installation_p(w, vm_id@, previous@),
                snapshot_result(r),
            ),
    {
        let vm = match self.inspect_vm(vm_id) {
            Ok(vm) => vm,
            Err(message) => {
                return Err(message);
            },
        };
        let probes = self.probe_guest_runlevels(vm_id, 2000);
        let properties = match self.guest_properties(vm_id) {
            Ok(properties) => properties,
            Err(message) => {
                return Err(message);
            },
        };
        let timestamp = self.unix_time();
        let installation = reconcile_installation_observation(
            previous,
            vm.state.as_str(),
            probes,
            &properties,
            timestamp,
        );
        let windows_guest_detected = installation.observed.windows
            == WindowsInstallationStatus::Installed;
        let monitoring_complete = installation.observed.managed == ManagedVmStatus::Ready
            || installation.observed.managed == ManagedVmStatus::Failed;
        Ok(
            ManagedInstallationSnapshot {
                vm_id: vm_id.to_owned(),
                vm_state: vm.state,
                installation,
                windows_guest_detected,
                monitoring_complete,
            },
        )
    }

    fn check_profile(&mut self, vm_id: &str, profile: &ManagedWindowsVmProfile) -> (r: Result<
        (),
        InstallationFailure,
    >)
        ensures
            journal::runs(
                *old(self),
                *final(self),
                |w: Run| check_profile_p(w, vm_id@, profile@),
                unit_result(r),
            ),
    {
        let step = "verify-managed-guest-profile";
        let vm = match self.inspect_vm(vm_id) {
            Ok(vm) => vm,
            Err(message) => {
                return Err(failure(step, message));
            },
        };
        if opt_is_any_case(
            as_opt_str(&vm.guest_os_description),
            profile.guest_os_description.as_str(),
        ) {
            Ok(())
        } else {
            Err(
                failure(
                    step,
                    concat7(
                        "managed VM does not use selected ",
                        profile.display_name.as_str(),
                        " profile (ID ",
                        profile.virtual_box_os_type_id.as_str(),
                        ", description ",
                        profile.guest_os_description.as_str(),
                        ")",
                    ),
                ),
            )
        }
    }

    fn install_from_file(
        &mut self,
        vm_id: &str,
        iso_path: &str,
        config: &WindowsInstallConfig,
        profile: &ManagedWindowsVmProfile,
        additions_iso: Option<&str>,
        password_file: &str,
    ) -> (r: Result<ManagedVmInstallation, InstallationFailure>)
        ensures
            journal::runs(
                *old(self),
                *final(self),
                |w: Run|
                    install_from_file_p(
                        w,
                        vm_id@,
                        iso_path@,
                        config@,
                        profile@,
                        model::opt_str(additions_iso),
                        password_file@,
                    ),
                installation_result(r),
            ),
    {
        let host = match unattended_hostname(
            config.computer_name.as_str(),
            config.domain_name.as_str(),
        ) {
            Ok(host) => host,
            Err(message) => {
                return Err(failure("validate-installation-hostname", message));
            },
        };
        let (arguments, sensitive) = match unattended_arguments(
            vm_id,
            iso_path,
            password_file,
            additions_iso,
            config,
        ) {
            Ok(command) => command,
            Err(message) => {
                return Err(failure("build-unattended-command", message));
            },
        };
        match self.checked_redacted(arguments, &sensitive) {
            Ok(_) => Ok(new_installation(config, profile)),
            Err(message) => {
                let tail = concat2("; ", message.as_str());
                let computer = trim(config.computer_name.as_str());
                let domain = trim(config.domain_name.as_str());
                let text = concat7(
                    "Computer name: ",
                    computer.as_str(),
                    "; DNS domain: ",
                    domain.as_str(),
                    "; generated hostname: ",
                    host.as_str(),
                    tail.as_str(),
                );
                Err(failure("prepare-and-start-unattended-installation", text))
            },
        }
    }

    /// Starts an unattended installation of Windows in a machine.
    pub fn prepare_unattended_install<H: InstallationHost>(
        &mut self,
        host: &mut H,
        vm_id: &str,
        iso_path: &str,
        config: &WindowsInstallConfig,
        profile: &ManagedWindowsVmProfile,
        additions_iso: Option<&str>,
    ) -> (r: Result<ManagedVmInstallation, InstallationFailure>)
        ensures
            final(host).answers() == old(host).answers(),
            journal::runs_with(
                *old(self),
                *final(self),
                service::answers_with(old(self).answers(), old(host).answers()),
                |w: Run|
                    install_p(
                        w,
                        vm_id@,
                        iso_path@,
                        config@,
                        profile@,
                        model::opt_str(additions_iso),
                    ),
                installation_result(r),
            ),
    {
        if let Err(message) = validate_windows_install_config(config) {
            return Err(failure("validate-installation", message));
        }
        if config.install_guest_additions && additions_iso.is_none() {
            return Err(
                failure(
                    "locate-guest-additions",
                    "Guest Additions was requested but VBoxGuestAdditions.iso was not found".to_owned(),
                ),
            );
        }
        if let Err(reason) = self.check_profile(vm_id, profile) {
            return Err(reason);
        }
        let password_file = match self.keep_password(host, config.password.as_str()) {
            Ok(path) => path,
            Err(PasswordFailure::Create(error)) => {
                return Err(
                    failure(
                        "create-password-file",
                        concat2("could not create temporary password file: ", error.as_str()),
                    ),
                );
            },
            Err(PasswordFailure::Write(error)) => {
                return Err(
                    failure(
                        "write-password-file",
                        concat2("could not prepare temporary password file: ", error.as_str()),
                    ),
                );
            },
        };
        let result = self.install_from_file(
            vm_id,
            iso_path,
            config,
            profile,
            additions_iso,
            password_file.as_str(),
        );
        self.forget_password(host, password_file.as_str());
        result
    }
}

} // verus!
