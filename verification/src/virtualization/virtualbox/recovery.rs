//! Taking up an installation that failed.
use super::creation;
use super::creation::{
    validate_iso, ManagedWindowsVmProfile, ManagedWindowsVmProfileView,
};
use super::guest_observation::copied;
use super::install_config;
use super::install_config::{
    migrate_managed_hostname_parts, unattended_hostname, WindowsInstallConfig,
    WindowsInstallConfigView,
};
use super::installation;
use super::installation::{
    failure, InstallationFailure, InstallationFailureView, InstallationHost,
};
use super::machine_info;
use super::machine_info::parse_machine_readable;
use super::service;
use super::service::{args2, args3, args4, Request, Run, VirtualBoxRuntimeService};
use crate::duplicate;
use crate::duplicate::Duplicate;
use crate::journal;
use crate::journal::Journaled;
use crate::paths;
use crate::paths::{file_name_of, has_extension, join_path, parent_of};
use crate::seats::{
    GuestRunLevel, GuestRunLevelProbe, GuestRunLevelProbeView, ManagedInstallState,
    ManagedVmInstallation, ManagedVmInstallationView, ManagedWindowsVersion,
    WindowsInstallationStatus,
};
use crate::text::compose::{
    as_opt_str, concat2, concat3, concat4, concat5, copy_opt, to_lower,
};
use crate::text::model;
use crate::text::model::Text;
use crate::text::scan::{
    has, lines_of, opt_is_any_case, same, same_any_case, skip_class, split_at_first, strip_start,
    trim, word, Class,
};
use crate::text_map;
use crate::text_map::TextMap;
use crate::virtualization::DetectionState;
use vstd::prelude::*;

verus! {

/// What can be done about an installation.
#[derive(Clone, Copy, Debug, Eq, PartialEq, Structural)]
pub enum ManagedVmRecoveryClassification {
    RecoverablePreBoot,
    RecoverablePreparedInstall,
    InstallationInProgress,
    Ready,
    Unrecoverable,
    Unknown,
}

/// What can be done about an installation, and why.
#[derive(Debug, Eq, PartialEq)]
pub struct ManagedVmRecoveryStatus {
    pub can_resume: bool,
    pub classification: ManagedVmRecoveryClassification,
    pub reason: Option<String>,
    pub previous_failure: Option<String>,
    pub previous_problem: Option<String>,
    pub firmware_virtualization: DetectionState,
    pub virtual_box_execution: DetectionState,
    pub virtualization_ready: bool,
    pub virtualization_blocker: Option<String>,
    pub vm_configuration_valid: bool,
    pub unattended_preparation_present: bool,
    pub unattended_media_path: Option<String>,
    pub vm_id: String,
    pub vm_name: Option<String>,
    pub vm_state: Option<String>,
    pub windows_version: ManagedWindowsVersion,
    pub virtual_box_os_type_id: String,
    pub virtual_box_os_description: Option<String>,
    pub system_disk_path: Option<String>,
    pub iso_path: Option<String>,
    pub iso_medium_uuid: Option<String>,
    pub credentials_required: bool,
    pub suggested_computer_name: String,
    pub suggested_domain_name: String,
    pub suggested_hostname: String,
}

/// The model of [`ManagedVmRecoveryStatus`].
#[verifier::ext_equal]
pub struct ManagedVmRecoveryStatusView {
    pub can_resume: bool,
    pub classification: ManagedVmRecoveryClassification,
    pub reason: Option<Text>,
    pub previous_failure: Option<Text>,
    pub previous_problem: Option<Text>,
    pub firmware_virtualization: DetectionState,
    pub virtual_box_execution: DetectionState,
    pub virtualization_ready: bool,
    pub virtualization_blocker: Option<Text>,
    pub vm_configuration_valid: bool,
    pub unattended_preparation_present: bool,
    pub unattended_media_path: Option<Text>,
    pub vm_id: Text,
    pub vm_name: Option<Text>,
    pub vm_state: Option<Text>,
    pub windows_version: ManagedWindowsVersion,
    pub virtual_box_os_type_id: Text,
    pub virtual_box_os_description: Option<Text>,
    pub system_disk_path: Option<Text>,
    pub iso_path: Option<Text>,
    pub iso_medium_uuid: Option<Text>,
    pub credentials_required: bool,
    pub suggested_computer_name: Text,
    pub suggested_domain_name: Text,
    pub suggested_hostname: Text,
}

impl View for ManagedVmRecoveryStatus {
    type V = ManagedVmRecoveryStatusView;

    open spec fn view(&self) -> ManagedVmRecoveryStatusView {
        ManagedVmRecoveryStatusView {
            can_resume: self.can_resume,
            classification: self.classification,
            reason: model::opt_text(self.reason),
            previous_failure: model::opt_text(self.previous_failure),
            previous_problem: model::opt_text(self.previous_problem),
            firmware_virtualization: self.firmware_virtualization,
            virtual_box_execution: self.virtual_box_execution,
            virtualization_ready: self.virtualization_ready,
            virtualization_blocker: model::opt_text(self.virtualization_blocker),
            vm_configuration_valid: self.vm_configuration_valid,
            unattended_preparation_present: self.unattended_preparation_present,
            unattended_media_path: model::opt_text(self.unattended_media_path),
            vm_id: self.vm_id@,
            vm_name: model::opt_text(self.vm_name),
            vm_state: model::opt_text(self.vm_state),
            windows_version: self.windows_version,
            virtual_box_os_type_id: self.virtual_box_os_type_id@,
            virtual_box_os_description: model::opt_text(self.virtual_box_os_description),
            system_disk_path: model::opt_text(self.system_disk_path),
            iso_path: model::opt_text(self.iso_path),
            iso_medium_uuid: model::opt_text(self.iso_medium_uuid),
            credentials_required: self.credentials_required,
            suggested_computer_name: self.suggested_computer_name@,
            suggested_domain_name: self.suggested_domain_name@,
            suggested_hostname: self.suggested_hostname@,
        }
    }
}

impl Duplicate for ManagedVmRecoveryStatus {
    fn duplicate(&self) -> (r: Self) {
        ManagedVmRecoveryStatus {
            can_resume: self.can_resume,
            classification: self.classification,
            reason: copy_opt(&self.reason),
            previous_failure: copy_opt(&self.previous_failure),
            previous_problem: copy_opt(&self.previous_problem),
            firmware_virtualization: self.firmware_virtualization,
            virtual_box_execution: self.virtual_box_execution,
            virtualization_ready: self.virtualization_ready,
            virtualization_blocker: copy_opt(&self.virtualization_blocker),
            vm_configuration_valid: self.vm_configuration_valid,
            unattended_preparation_present: self.unattended_preparation_present,
            unattended_media_path: copy_opt(&self.unattended_media_path),
            vm_id: self.vm_id.clone(),
            vm_name: copy_opt(&self.vm_name),
            vm_state: copy_opt(&self.vm_state),
            windows_version: self.windows_version,
            virtual_box_os_type_id: self.virtual_box_os_type_id.clone(),
            virtual_box_os_description: copy_opt(&self.virtual_box_os_description),
            system_disk_path: copy_opt(&self.system_disk_path),
            iso_path: copy_opt(&self.iso_path),
            iso_medium_uuid: copy_opt(&self.iso_medium_uuid),
            credentials_required: self.credentials_required,
            suggested_computer_name: self.suggested_computer_name.clone(),
            suggested_domain_name: self.suggested_domain_name.clone(),
            suggested_hostname: self.suggested_hostname.clone(),
        }
    }
}

impl Clone for ManagedVmRecoveryStatus {
    fn clone(&self) -> (r: Self)
        ensures
            r@ == self@,
    {
        self.duplicate()
    }
}

/// An installation that can be taken up.
#[derive(Debug, Eq, PartialEq)]
pub struct ManagedVmRecoveryPlan {
    pub status: ManagedVmRecoveryStatus,
    pub profile: ManagedWindowsVmProfile,
}

/// The model of [`ManagedVmRecoveryPlan`].
#[verifier::ext_equal]
pub struct ManagedVmRecoveryPlanView {
    pub status: ManagedVmRecoveryStatusView,
    pub profile: ManagedWindowsVmProfileView,
}

impl View for ManagedVmRecoveryPlan {
    type V = ManagedVmRecoveryPlanView;

    open spec fn view(&self) -> ManagedVmRecoveryPlanView {
        ManagedVmRecoveryPlanView {
            status: self.status@,
            profile: self.profile@,
        }
    }
}

impl Duplicate for ManagedVmRecoveryPlan {
    fn duplicate(&self) -> (r: Self) {
        ManagedVmRecoveryPlan {
            status: self.status.duplicate(),
            profile: self.profile.duplicate(),
        }
    }
}

impl Clone for ManagedVmRecoveryPlan {
    fn clone(&self) -> (r: Self)
        ensures
            r@ == self@,
    {
        self.duplicate()
    }
}

/// The medium from which an installation can be taken up.
#[derive(Debug, Eq, PartialEq)]
pub enum RecoveryMedia {
    OriginalIso { iso_path: String },
    Prepared { iso_path: String, unattended_media_path: String },
}

/// The model of [`RecoveryMedia`].
pub enum RecoveryMediaView {
    OriginalIso { iso_path: Text },
    Prepared { iso_path: Text, unattended_media_path: Text },
}

impl View for RecoveryMedia {
    type V = RecoveryMediaView;

    open spec fn view(&self) -> RecoveryMediaView {
        match self {
            RecoveryMedia::OriginalIso { iso_path } => RecoveryMediaView::OriginalIso {
                iso_path: iso_path@,
            },
            RecoveryMedia::Prepared {
                iso_path,
                unattended_media_path,
            } => RecoveryMediaView::Prepared {
                iso_path: iso_path@,
                unattended_media_path: unattended_media_path@,
            },
        }
    }
}

// ---- Readiness of the host -------------------------------------------------------------

/// What one line says about hardware virtualization, where it speaks of it.
pub open spec fn support_line(line: Text) -> Option<DetectionState> {
    match model::split_once(line, ":"@) {
        None => None,
        Some((label, value)) => if model::same_ignoring_case(
            model::trimmed(label),
            "Processor supports HW virtualization"@,
        ) {
            let answer = model::lower(model::trimmed(value));
            Some(
                if answer == "yes"@ {
                    DetectionState::Yes
                } else if answer == "no"@ {
                    DetectionState::No
                } else {
                    DetectionState::Unknown
                },
            )
        } else {
            None
        },
    }
}

/// What the first line at or after `from` that speaks of hardware virtualization says.
pub open spec fn support_from(lines: Seq<Text>, from: int) -> DetectionState
    decreases lines.len() - from,
{
    if from < 0 || from >= lines.len() {
        DetectionState::Unknown
    } else {
        match support_line(lines[from]) {
            Some(state) => state,
            None => support_from(lines, from + 1),
        }
    }
}

fn parse_support_line(line: &str) -> (r: Option<DetectionState>)
    ensures
        r == support_line(line@),
{
    match split_at_first(line, ":") {
        None => None,
        Some((label, value)) => {
            let label = trim(label.as_str());
            if !same_any_case(label.as_str(), "Processor supports HW virtualization") {
                return None;
            }
            let value = trim(value.as_str());
            let answer = to_lower(value.as_str());
            if same(answer.as_str(), "yes") {
                Some(DetectionState::Yes)
            } else if same(answer.as_str(), "no") {
                Some(DetectionState::No)
            } else {
                Some(DetectionState::Unknown)
            }
        },
    }
}

/// Whether `VBoxManage list hostinfo` reports hardware virtualization.
pub fn parse_host_virtualization_support(output: &str) -> (r: DetectionState)
    ensures
        r == support_from(model::lines(output@), 0),
{
    let lines = lines_of(output);
    let ghost all = model::texts(lines@);
    let mut i: usize = 0;
    while i < lines.len()
        invariant
            i <= lines@.len(),
            all == model::texts(lines@),
            all == model::lines(output@),
            support_from(all, 0) == support_from(all, i as int),
        decreases lines.len() - i,
    {
        assert(all[i as int] == lines@[i as int]@);
        if let Some(state) = parse_support_line(lines[i].as_str()) {
            return state;
        }
        i += 1;
    }
    DetectionState::Unknown
}

/// What stands in the way of running a machine.
pub open spec fn blocker(firmware: DetectionState, execution: DetectionState) -> Option<Text> {
    if firmware == DetectionState::No {
        Some("firmware virtualization is disabled"@)
    } else if firmware == DetectionState::Unknown {
        Some("firmware virtualization readiness could not be determined"@)
    } else if execution == DetectionState::No {
        Some("VirtualBox reports that hardware virtualization is unavailable"@)
    } else if execution == DetectionState::Unknown {
        Some("VirtualBox execution readiness could not be determined"@)
    } else {
        None
    }
}

fn blocker_of(firmware: DetectionState, execution: DetectionState) -> (r: Option<String>)
    ensures
        model::opt_text(r) == blocker(firmware, execution),
{
    if firmware == DetectionState::No {
        Some("firmware virtualization is disabled".to_owned())
    } else if firmware == DetectionState::Unknown {
        Some("firmware virtualization readiness could not be determined".to_owned())
    } else if execution == DetectionState::No {
        Some("VirtualBox reports that hardware virtualization is unavailable".to_owned())
    } else if execution == DetectionState::Unknown {
        Some("VirtualBox execution readiness could not be determined".to_owned())
    } else {
        None
    }
}

/// Whether an installation can be taken up on a host.
pub open spec fn can_resume(
    classification: ManagedVmRecoveryClassification,
    firmware: DetectionState,
    execution: DetectionState,
) -> bool {
    (classification == ManagedVmRecoveryClassification::RecoverablePreBoot || classification
        == ManagedVmRecoveryClassification::RecoverablePreparedInstall) && firmware
        == DetectionState::Yes && execution == DetectionState::Yes
}

/// Whether an installation can be taken up on a host.
pub fn recovery_can_resume(
    classification: ManagedVmRecoveryClassification,
    firmware: DetectionState,
    virtual_box_execution: DetectionState,
) -> (r: bool)
    ensures
        r == can_resume(classification, firmware, virtual_box_execution),
{
    (classification == ManagedVmRecoveryClassification::RecoverablePreBoot || classification
        == ManagedVmRecoveryClassification::RecoverablePreparedInstall) && firmware
        == DetectionState::Yes && virtual_box_execution == DetectionState::Yes
}

// ---- The previous attempt --------------------------------------------------------------

/// The codes in some evidence that say that hardware virtualization was missing.
pub open spec fn failure_codes(evidence: Text) -> Option<Text> {
    let nem = model::contains(evidence, "VERR_NEM_NOT_AVAILABLE"@);
    let svm = model::contains(evidence, "VERR_SVM_DISABLED"@);
    if nem && svm {
        Some("VERR_NEM_NOT_AVAILABLE; VERR_SVM_DISABLED"@)
    } else if nem {
        Some("VERR_NEM_NOT_AVAILABLE"@)
    } else if svm {
        Some("VERR_SVM_DISABLED"@)
    } else {
        None
    }
}

fn codes_in(evidence: &str) -> (r: Option<String>)
    ensures
        model::opt_text(r) == failure_codes(evidence@),
{
    let nem = has(evidence, "VERR_NEM_NOT_AVAILABLE");
    let svm = has(evidence, "VERR_SVM_DISABLED");
    if nem && svm {
        Some("VERR_NEM_NOT_AVAILABLE; VERR_SVM_DISABLED".to_owned())
    } else if nem {
        Some("VERR_NEM_NOT_AVAILABLE".to_owned())
    } else if svm {
        Some("VERR_SVM_DISABLED".to_owned())
    } else {
        None
    }
}

/// What went wrong before, in words.
pub open spec fn problem(previous_failure: Option<Text>, vm_state: Option<Text>) -> Option<Text> {
    if previous_failure matches Some(failure) && failure_codes(failure) is Some {
        Some("Hardware virtualization was unavailable"@)
    } else if previous_failure is Some || vm_state == Some("aborted"@) {
        Some("The previous installation attempt was interrupted"@)
    } else {
        None
    }
}

/// What went wrong before, in words.
pub fn previous_problem(previous_failure: Option<&str>, vm_state: Option<&str>) -> (r: Option<
    String,
>)
    ensures
        model::opt_text(r) == problem(model::opt_str(previous_failure), model::opt_str(vm_state)),
{
    let known = match previous_failure {
        Some(failure) => codes_in(failure).is_some(),
        None => false,
    };
    let aborted = match vm_state {
        Some(state) => same(state, "aborted"),
        None => false,
    };
    if known {
        Some("Hardware virtualization was unavailable".to_owned())
    } else if previous_failure.is_some() || aborted {
        Some("The previous installation attempt was interrupted".to_owned())
    } else {
        None
    }
}

/// The evidence of a failure: the error in the journal, and the machine's log where there is
/// one.
pub open spec fn history_p(w: Run, error: Option<Text>, fields: Map<Text, Text>) -> (
    Run,
    Option<Text>,
) {
    let start = match error {
        Some(text) => text,
        None => seq![],
    };
    match text_map::lookup(fields, "LogFldr"@) {
        None => (w, failure_codes(start)),
        Some(folder) => {
            let (w1, reply) = journal::ask(w, Request::ReadText(paths::joined(folder, "VBox.log"@)));
            match reply->Content_0 {
                Ok(log) => (w1, failure_codes(start + "\n"@ + log)),
                Err(_) => (w1, failure_codes(start)),
            }
        },
    }
}

// ---- Media -----------------------------------------------------------------------------

/// The Windows image that the definition of an unattended medium names.
pub open spec fn imported_iso(definition: Text) -> Option<Text> {
    match model::split_once(definition, "--import-iso-skip-eltorito"@) {
        None => None,
        Some((_, after)) => {
            let rest = model::without_leading(after, model::space_class());
            match (model::after_prefix(rest, "'"@), model::after_prefix(rest, "\""@)) {
                (Some(quoted), _) => match model::split_once(quoted, "'"@) {
                    Some((path, _)) => Some(path),
                    None => None,
                },
                (None, Some(quoted)) => match model::split_once(quoted, "\""@) {
                    Some((path, _)) => Some(path),
                    None => None,
                },
                (None, None) => model::first_word(rest),
            }
        },
    }
}

/// The Windows image that the definition of an unattended medium names.
pub fn imported_iso_path(definition: &str) -> (r: Option<String>)
    ensures
        model::opt_text(r) == imported_iso(definition@),
{
    let after = match split_at_first(definition, "--import-iso-skip-eltorito") {
        Some((_, after)) => after,
        None => {
            return None;
        },
    };
    let rest = skip_class(after.as_str(), Class::Space);
    if let Some(quoted) = strip_start(rest.as_str(), "'") {
        return match split_at_first(quoted.as_str(), "'") {
            Some((path, _)) => Some(path),
            None => None,
        };
    }
    if let Some(quoted) = strip_start(rest.as_str(), "\"") {
        return match split_at_first(quoted.as_str(), "\"") {
            Some((path, _)) => Some(path),
            None => None,
        };
    }
    word(rest.as_str())
}

/// The name of a file that VirtualBox makes for the unattended installation of a machine.
pub open spec fn artifact(vm_id: Text, suffix: Text) -> Text {
    "Unattended-"@ + vm_id + "-"@ + suffix
}

/// Makes sure that a file of a preparation is there.
pub open spec fn artifact_p(w: Run, directory: Text, vm_id: Text, suffix: Text) -> (
    Run,
    Result<(), Text>,
) {
    let path = paths::joined(directory, artifact(vm_id, suffix));
    let (w1, reply) = journal::ask(w, Request::IsFile(path));
    (
        w1,
        if reply->Flag_0 {
            Ok(())
        } else {
            Err(
                "managed unattended preparation is incomplete: '"@ + path + "' is missing"@,
            )
        },
    )
}

/// Makes sure that a path leads to an ISO image.
pub open spec fn iso_p(w: Run, path: Text) -> (Run, Result<(), Text>) {
    if model::is_ignoring_case(paths::extension(path), "iso"@) {
        let (w1, reply) = journal::ask(w, Request::InspectIso(path));
        (w1, creation::iso_check(path, reply->Iso_0))
    } else {
        (w, Err("'"@ + path + "' is not an .iso file"@))
    }
}

/// Makes sure that a prepared medium belongs to a machine and is complete.
pub open spec fn prepared_media_p(w: Run, vm_id: Text, attached: Text) -> (
    Run,
    Result<RecoveryMediaView, Text>,
) {
    let (w1, reply) = journal::ask(w, Request::ReadText(attached));
    match reply->Content_0 {
        Err(error) => (
            w1,
            Err("could not inspect managed unattended medium '"@ + attached + "': "@ + error),
        ),
        Ok(definition) => match imported_iso(definition) {
            None => (w1, Err("managed unattended VISO does not identify its Windows ISO"@)),
            Some(iso_path) => match iso_p(w1, iso_path) {
                (w2, Err(message)) => (w2, Err(message)),
                (w2, Ok(())) => match paths::parent(attached) {
                    None => (w2, Err("managed unattended VISO has no parent directory"@)),
                    Some(directory) => match artifact_p(
                        w2,
                        directory,
                        vm_id,
                        "autounattend.xml"@,
                    ) {
                        (w3, Err(message)) => (w3, Err(message)),
                        (w3, Ok(())) => match artifact_p(w3, directory, vm_id, "VBOXPOST.CMD"@) {
                            (w4, Err(message)) => (w4, Err(message)),
                            (w4, Ok(())) => (
                                w4,
                                Ok(
                                    RecoveryMediaView::Prepared {
                                        iso_path,
                                        unattended_media_path: attached,
                                    },
                                ),
                            ),
                        },
                    },
                },
            },
        },
    }
}

/// What the medium in a machine's drive is.
pub open spec fn media_p(w: Run, vm_id: Text, attached: Text) -> (
    Run,
    Result<RecoveryMediaView, Text>,
) {
    if model::is_ignoring_case(paths::extension(attached), "iso"@) {
        match iso_p(w, attached) {
            (w1, Err(message)) => (w1, Err(message)),
            (w1, Ok(())) => (w1, Ok(RecoveryMediaView::OriginalIso { iso_path: attached })),
        }
    } else if !model::is_ignoring_case(paths::extension(attached), "viso"@) {
        (
            w,
            Err(
                "attached installation medium '"@ + attached
                    + "' is neither an ISO nor a managed unattended VISO"@,
            ),
        )
    } else if !model::is_ignoring_case(
        paths::file_name(attached),
        artifact(vm_id, "aux-iso.viso"@),
    ) {
        (w, Err("attached unattended media does not belong to the managed VM UUID"@))
    } else {
        prepared_media_p(w, vm_id, attached)
    }
}

// ---- The machine -----------------------------------------------------------------------

/// Whether a field has a value, up to ASCII case.
pub open spec fn field_is(fields: Map<Text, Text>, name: Text, value: Text) -> bool {
    model::is_ignoring_case(text_map::lookup(fields, name), value)
}

/// What of a machine's hardware is not as its profile wants it.
pub open spec fn hardware_problem(fields: Map<Text, Text>, version: ManagedWindowsVersion) ->
    Option<Text> {
    let firmware = if version == ManagedWindowsVersion::Windows11 {
        "EFI"@
    } else {
        "BIOS"@
    };
    if !field_is(fields, "firmware"@, firmware) {
        Some("firmware"@)
    } else if !field_is(fields, "ioapic"@, "on"@) {
        Some("I/O APIC"@)
    } else if !field_is(fields, "xhci"@, "on"@) {
        Some("xHCI"@)
    } else if !field_is(fields, "graphicscontroller"@, "vboxsvga"@) {
        Some("graphics controller"@)
    } else if !field_is(fields, "storagecontrollertype0"@, "IntelAhci"@) {
        Some("SATA controller"@)
    } else if !field_is(fields, "nic1"@, "nat"@) {
        Some("NAT network"@)
    } else if !field_is(fields, "audio_out"@, "on"@) {
        Some("audio output"@)
    } else {
        None
    }
}

/// The state that a machine reports.
pub open spec fn reported_state(fields: Map<Text, Text>) -> Text {
    match text_map::lookup(fields, "VMState"@) {
        Some(state) => state,
        None => "unknown"@,
    }
}

/// That a machine is the managed one, is at rest and is as its profile wants it.
pub open spec fn machine_check(
    fields: Map<Text, Text>,
    vm_id: Text,
    profile: ManagedWindowsVmProfileView,
) -> Result<(), Text> {
    let state = reported_state(fields);
    match text_map::lookup(fields, "UUID"@) {
        None => Err("VirtualBox VM has no UUID"@),
        Some(uuid) => if !model::same_ignoring_case(uuid, vm_id) {
            Err("VirtualBox returned UUID "@ + uuid + ", not managed UUID "@ + vm_id)
        } else {
            match text_map::lookup(fields, "ostype"@) {
                None => Err("VirtualBox VM has no OS type description"@),
                Some(description) => if !model::same_ignoring_case(
                    description,
                    profile.guest_os_description,
                ) {
                    Err(
                        "VM OS description '"@ + description
                            + "' does not match managed profile '"@ + profile.guest_os_description
                            + "'"@,
                    )
                } else if model::same_ignoring_case(state, "running"@)
                    || model::same_ignoring_case(state, "paused"@)
                    || model::same_ignoring_case(state, "saved"@) {
                    Err(
                        "managed installation is already active; current VM state is "@ + state,
                    )
                } else if !model::same_ignoring_case(state, "poweroff"@)
                    && !model::same_ignoring_case(state, "aborted"@) {
                    Err("managed VM has an unknown recovery state: "@ + state)
                } else {
                    match hardware_problem(fields, profile.windows_version) {
                        Some(label) => Err(
                            "managed VM "@ + label
                                + " is not compatible with the selected profile"@,
                        ),
                        None => Ok(()),
                    }
                },
            }
        },
    }
}

/// The medium at a port, where there is one.
pub open spec fn attached_at(fields: Map<Text, Text>, port: Text) -> Option<Text> {
    match text_map::lookup(fields, port) {
        Some(path) => if path == "none"@ {
            None
        } else {
            Some(path)
        },
        None => None,
    }
}

/// Whether a probe found a guest that has started.
pub open spec fn reached_userland(probes: Seq<GuestRunLevelProbeView>) -> bool {
    exists|i: int|
        0 <= i < probes.len() && (#[trigger] probes[i]).success && probes[i].level.rank()
            >= GuestRunLevel::Userland.rank()
}

/// Whether there is any sign that Windows is already there.
pub open spec fn has_progressed(
    journal: ManagedVmInstallationView,
    properties: Map<Text, Text>,
    probes: Seq<GuestRunLevelProbeView>,
) -> bool {
    journal.observed.windows == WindowsInstallationStatus::Installed || (text_map::lookup(
        properties,
        "/VirtualBox/GuestInfo/OS/Product"@,
    ) matches Some(product) && model::contains(model::lower(product), "windows"@))
        || properties.contains_key("/VirtualBox/GuestAdd/Version"@) || properties.contains_key(
        "/VirtualBox/GuestAdd/HostVerLastChecked"@,
    ) || reached_userland(probes)
}

/// Which profile an installation that failed was to have.
pub open spec fn profile_of_p(w: Run, managed: bool, journal: ManagedVmInstallationView) -> (
    Run,
    Result<ManagedWindowsVmProfileView, Text>,
) {
    if !managed {
        (w, Err("unrelated VM is not marked as managed by MultiSeat Lite"@))
    } else if journal.state != ManagedInstallState::Failed {
        (w, Err("managed installation is not in a failed recovery state"@))
    } else {
        match creation::profile_p(w, journal.windows_version, None) {
            (w1, Err(message)) => (w1, Err(message)),
            (w1, Ok(profile)) => if journal.virtual_box_os_type_id.len() > 0
                && !model::same_ignoring_case(
                journal.virtual_box_os_type_id,
                profile.virtual_box_os_type_id,
            ) {
                (
                    w1,
                    Err(
                        "managed journal OS type '"@ + journal.virtual_box_os_type_id
                            + "' does not match resolved profile '"@
                            + profile.virtual_box_os_type_id + "'"@,
                    ),
                )
            } else {
                (w1, Ok(profile))
            },
        }
    }
}

/// What a machine has attached: its system disk, and the medium of its installation.
pub open spec fn attachments_p(w: Run, vm_id: Text, fields: Map<Text, Text>) -> (
    Run,
    Result<(Text, RecoveryMediaView), Text>,
) {
    match attached_at(fields, "SATA-0-0"@) {
        None => (w, Err("managed SATA system disk is not attached"@)),
        Some(disk) => {
            let (w1, reply) = journal::ask(w, Request::IsFile(disk));
            if !reply->Flag_0 {
                (w1, Err("managed system disk '"@ + disk + "' is unavailable"@))
            } else {
                match attached_at(fields, "SATA-1-0"@) {
                    None => (w1, Err("Windows installation ISO is not attached"@)),
                    Some(medium) => match media_p(w1, vm_id, medium) {
                        (w2, Err(message)) => (w2, Err(message)),
                        (w2, Ok(media)) => (w2, Ok((disk, media))),
                    },
                }
            }
        },
    }
}

/// Makes sure that a guest shows no sign of Windows.
pub open spec fn untouched_p(w: Run, vm_id: Text, journal: ManagedVmInstallationView) -> (
    Run,
    Result<(), Text>,
) {
    match installation::guest_properties_p(w, vm_id) {
        (w1, Err(message)) => (w1, Err(message)),
        (w1, Ok(properties)) => {
            let (w2, probes) = installation::probes_p(w1, vm_id, 2000);
            (
                w2,
                if has_progressed(journal, properties, probes) {
                    Err(
                        "guest evidence indicates Windows installation has already progressed or completed"@,
                    )
                } else {
                    Ok(())
                },
            )
        },
    }
}

/// The plan for taking an installation up.
pub open spec fn plan(
    vm_id: Text,
    journal: ManagedVmInstallationView,
    profile: ManagedWindowsVmProfileView,
    fields: Map<Text, Text>,
    disk: Text,
    media: RecoveryMediaView,
    history: Option<Text>,
) -> ManagedVmRecoveryPlanView {
    let state = reported_state(fields);
    let previous_failure = if history is Some {
        history
    } else {
        journal.last_error
    };
    let prepared = match media {
        RecoveryMediaView::OriginalIso { .. } => None,
        RecoveryMediaView::Prepared { unattended_media_path, .. } => Some(unattended_media_path),
    };
    ManagedVmRecoveryPlanView {
        status: ManagedVmRecoveryStatusView {
            can_resume: false,
            classification: match media {
                RecoveryMediaView::OriginalIso {
                    ..
                } => ManagedVmRecoveryClassification::RecoverablePreBoot,
                RecoveryMediaView::Prepared {
                    ..
                } => ManagedVmRecoveryClassification::RecoverablePreparedInstall,
            },
            reason: None,
            previous_problem: problem(previous_failure, Some(state)),
            previous_failure,
            firmware_virtualization: DetectionState::Unknown,
            virtual_box_execution: DetectionState::Unknown,
            virtualization_ready: false,
            virtualization_blocker: None,
            vm_configuration_valid: true,
            unattended_preparation_present: prepared is Some,
            unattended_media_path: prepared,
            vm_id,
            vm_name: text_map::lookup(fields, "name"@),
            vm_state: Some(state),
            windows_version: journal.windows_version,
            virtual_box_os_type_id: profile.virtual_box_os_type_id,
            virtual_box_os_description: Some(profile.guest_os_description),
            system_disk_path: Some(disk),
            iso_path: Some(
                match media {
                    RecoveryMediaView::OriginalIso { iso_path } => iso_path,
                    RecoveryMediaView::Prepared { iso_path, .. } => iso_path,
                },
            ),
            iso_medium_uuid: text_map::lookup(fields, "SATA-ImageUUID-1-0"@),
            credentials_required: media is OriginalIso,
            suggested_computer_name: seq![],
            suggested_domain_name: seq![],
            suggested_hostname: seq![],
        },
        profile,
    }
}

/// Makes sure that an installation that failed can be taken up safely, and how.
pub open spec fn validate_p(
    w: Run,
    vm_id: Text,
    managed: bool,
    journal: ManagedVmInstallationView,
) -> (Run, Result<ManagedVmRecoveryPlanView, Text>) {
    match profile_of_p(w, managed, journal) {
        (w1, Err(message)) => (w1, Err(message)),
        (w1, Ok(profile)) => match service::checked_p(
            w1,
            seq!["showvminfo"@, vm_id, "--machinereadable"@],
        ) {
            (w2, Err(message)) => (w2, Err(message)),
            (w2, Ok(output)) => {
                let fields = machine_info::machine_fields(output.stdout);
                match machine_check(fields, vm_id, profile) {
                    Err(message) => (w2, Err(message)),
                    Ok(()) => match attachments_p(w2, vm_id, fields) {
                        (w3, Err(message)) => (w3, Err(message)),
                        (w3, Ok((disk, media))) => match untouched_p(w3, vm_id, journal) {
                            (w4, Err(message)) => (w4, Err(message)),
                            (w4, Ok(())) => {
                                let (w5, history) = history_p(w4, journal.last_error, fields);
                                (
                                    w5,
                                    Ok(plan(vm_id, journal, profile, fields, disk, media, history)),
                                )
                            },
                        },
                    },
                }
            },
        },
    }
}

/// Finds out whether the host can run a machine.
pub open spec fn readiness_p(w: Run) -> (Run, (DetectionState, DetectionState)) {
    let (w1, reply) = journal::ask(w, Request::Firmware);
    match service::checked_p(w1, seq!["list"@, "hostinfo"@]) {
        (w2, Ok(output)) => (
            w2,
            (reply->Detection_0, support_from(model::lines(output.stdout), 0)),
        ),
        (w2, Err(_)) => (w2, (reply->Detection_0, DetectionState::Unknown)),
    }
}

/// How an installation that cannot be taken up is classified.
pub open spec fn fallback_classification(state: ManagedInstallState) ->
    ManagedVmRecoveryClassification {
    match state {
        ManagedInstallState::Ready => ManagedVmRecoveryClassification::Ready,
        ManagedInstallState::InstallingWindows | ManagedInstallState::Rebooting
        | ManagedInstallState::InstallingGuestAdditions
        | ManagedInstallState::WaitingForGuest => ManagedVmRecoveryClassification::InstallationInProgress,
        ManagedInstallState::NotCreated
        | ManagedInstallState::Creating => ManagedVmRecoveryClassification::Unknown,
        ManagedInstallState::Failed => ManagedVmRecoveryClassification::Unrecoverable,
    }
}

/// The hostname that is suggested for names: the one that they make, or the usual one.
pub open spec fn suggested_host(computer_name: Text, domain_name: Text) -> Text {
    match install_config::hostname(computer_name, domain_name) {
        Ok(host) => host,
        Err(_) => "barnen-pc.multiseat.local"@,
    }
}

/// The status of an installation for which there is a plan.
pub open spec fn planned_status(
    status: ManagedVmRecoveryStatusView,
    journal: ManagedVmInstallationView,
    firmware: DetectionState,
    execution: DetectionState,
) -> ManagedVmRecoveryStatusView {
    let (computer_name, domain_name) = install_config::migrated(
        journal.computer_name,
        journal.domain_name,
    );
    ManagedVmRecoveryStatusView {
        firmware_virtualization: firmware,
        virtual_box_execution: execution,
        virtualization_ready: firmware == DetectionState::Yes && execution == DetectionState::Yes,
        virtualization_blocker: blocker(firmware, execution),
        can_resume: can_resume(status.classification, firmware, execution),
        reason: if status.reason is None {
            blocker(firmware, execution)
        } else {
            status.reason
        },
        suggested_computer_name: computer_name,
        suggested_domain_name: domain_name,
        suggested_hostname: suggested_host(computer_name, domain_name),
        ..status
    }
}

/// The status of an installation for which there is none.
pub open spec fn unplanned_status(
    reason: Text,
    vm_id: Text,
    journal: ManagedVmInstallationView,
    firmware: DetectionState,
    execution: DetectionState,
) -> ManagedVmRecoveryStatusView {
    let (computer_name, domain_name) = install_config::migrated(
        journal.computer_name,
        journal.domain_name,
    );
    ManagedVmRecoveryStatusView {
        can_resume: false,
        classification: fallback_classification(journal.state),
        reason: Some(reason),
        previous_failure: journal.last_error,
        previous_problem: problem(journal.last_error, None),
        firmware_virtualization: firmware,
        virtual_box_execution: execution,
        virtualization_ready: firmware == DetectionState::Yes && execution == DetectionState::Yes,
        virtualization_blocker: blocker(firmware, execution),
        vm_configuration_valid: false,
        unattended_preparation_present: false,
        unattended_media_path: None,
        vm_id,
        vm_name: None,
        vm_state: None,
        windows_version: journal.windows_version,
        virtual_box_os_type_id: journal.virtual_box_os_type_id,
        virtual_box_os_description: None,
        system_disk_path: None,
        iso_path: None,
        iso_medium_uuid: None,
        credentials_required: true,
        suggested_computer_name: computer_name,
        suggested_domain_name: domain_name,
        suggested_hostname: suggested_host(computer_name, domain_name),
    }
}

/// Finds out what can be done about an installation.
pub open spec fn status_p(
    w: Run,
    vm_id: Text,
    managed: bool,
    journal: ManagedVmInstallationView,
) -> (Run, ManagedVmRecoveryStatusView) {
    let (w1, (firmware, execution)) = readiness_p(w);
    match validate_p(w1, vm_id, managed, journal) {
        (w2, Ok(found)) => (w2, planned_status(found.status, journal, firmware, execution)),
        (w2, Err(reason)) => (w2, unplanned_status(reason, vm_id, journal, firmware, execution)),
    }
}

/// Takes an installation up: a prepared one by starting its machine, and another one by
/// preparing it afresh.
pub open spec fn resume_p(
    w: Run,
    vm_id: Text,
    managed: bool,
    journal: ManagedVmInstallationView,
    config: WindowsInstallConfigView,
    additions_iso: Option<Text>,
) -> (Run, Result<ManagedVmInstallationView, InstallationFailureView>) {
    match validate_p(w, vm_id, managed, journal) {
        (w1, Err(message)) => (
            w1,
            Err(installation::failed_at("validate-managed-vm-recovery"@, message)),
        ),
        (w1, Ok(found)) => if found.status.classification
            == ManagedVmRecoveryClassification::RecoverablePreparedInstall {
            match service::checked_p(w1, seq!["startvm"@, vm_id, "--type"@, "gui"@]) {
                (w2, Err(message)) => (
                    w2,
                    Err(
                        installation::failed_at(
                            "start-prepared-unattended-installation"@,
                            message,
                        ),
                    ),
                ),
                (w2, Ok(_)) => (
                    w2,
                    Ok(
                        ManagedVmInstallationView {
                            state: ManagedInstallState::InstallingWindows,
                            last_error: None,
                            ..journal
                        },
                    ),
                ),
            }
        } else {
            installation::install_p(
                w1,
                vm_id,
                found.status.iso_path->0,
                config,
                found.profile,
                additions_iso,
            )
        },
    }
}

// ---- The service -----------------------------------------------------------------------

spec fn media_result(r: Result<RecoveryMedia, String>) -> Result<RecoveryMediaView, Text> {
    match r {
        Ok(media) => Ok(media@),
        Err(message) => Err(message@),
    }
}

spec fn attachments_result(r: Result<(String, RecoveryMedia), String>) -> Result<
    (Text, RecoveryMediaView),
    Text,
> {
    match r {
        Ok((disk, media)) => Ok((disk@, media@)),
        Err(message) => Err(message@),
    }
}

/// The view of a plan, or of why there is none.
pub open spec fn plan_result(r: Result<ManagedVmRecoveryPlan, String>) -> Result<
    ManagedVmRecoveryPlanView,
    Text,
> {
    match r {
        Ok(found) => Ok(found@),
        Err(message) => Err(message@),
    }
}

fn artifact_name(vm_id: &str, suffix: &str) -> (r: String)
    ensures
        r@ == artifact(vm_id@, suffix@),
{
    concat4("Unattended-", vm_id, "-", suffix)
}

fn has_field(fields: &TextMap<String>, name: &str, value: &str) -> (r: bool)
    ensures
        r == field_is(text_map::text_values(fields@), name@, value@),
{
    match fields.get(name) {
        Some(found) => same_any_case(found.as_str(), value),
        None => false,
    }
}

fn hardware_fault(fields: &TextMap<String>, version: ManagedWindowsVersion) -> (r: Option<
    &'static str,
>)
    ensures
        model::opt_str(r) == hardware_problem(text_map::text_values(fields@), version),
{
    let firmware = if version == ManagedWindowsVersion::Windows11 {
        "EFI"
    } else {
        "BIOS"
    };
    if !has_field(fields, "firmware", firmware) {
        Some("firmware")
    } else if !has_field(fields, "ioapic", "on") {
        Some("I/O APIC")
    } else if !has_field(fields, "xhci", "on") {
        Some("xHCI")
    } else if !has_field(fields, "graphicscontroller", "vboxsvga") {
        Some("graphics controller")
    } else if !has_field(fields, "storagecontrollertype0", "IntelAhci") {
        Some("SATA controller")
    } else if !has_field(fields, "nic1", "nat") {
        Some("NAT network")
    } else if !has_field(fields, "audio_out", "on") {
        Some("audio output")
    } else {
        None
    }
}

fn state_in(fields: &TextMap<String>) -> (r: String)
    ensures
        r@ == reported_state(text_map::text_values(fields@)),
{
    match fields.get("VMState") {
        Some(state) => state.clone(),
        None => "unknown".to_owned(),
    }
}

fn check_state(state: &str) -> (r: Result<(), String>)
    ensures
        model::with_message(r) == (if model::same_ignoring_case(state@, "running"@)
            || model::same_ignoring_case(state@, "paused"@) || model::same_ignoring_case(
            state@,
            "saved"@,
        ) {
            Err("managed installation is already active; current VM state is "@ + state@)
        } else if !model::same_ignoring_case(state@, "poweroff"@) && !model::same_ignoring_case(
            state@,
            "aborted"@,
        ) {
            Err("managed VM has an unknown recovery state: "@ + state@)
        } else {
            Ok(())
        }),
{
    if same_any_case(state, "running") || same_any_case(state, "paused") || same_any_case(
        state,
        "saved",
    ) {
        return Err(
            concat2("managed installation is already active; current VM state is ", state),
        );
    }
    if !same_any_case(state, "poweroff") && !same_any_case(state, "aborted") {
        return Err(concat2("managed VM has an unknown recovery state: ", state));
    }
    Ok(())
}

fn check_machine(fields: &TextMap<String>, vm_id: &str, profile: &ManagedWindowsVmProfile) -> (r:
    Result<(), String>)
    ensures
        model::with_message(r) == machine_check(
            text_map::text_values(fields@),
            vm_id@,
            profile@,
        ),
{
    let uuid = match fields.get("UUID") {
        Some(uuid) => uuid,
        None => {
            return Err("VirtualBox VM has no UUID".to_owned());
        },
    };
    if !same_any_case(uuid.as_str(), vm_id) {
        return Err(
            concat4("VirtualBox returned UUID ", uuid.as_str(), ", not managed UUID ", vm_id),
        );
    }
    let description = match fields.get("ostype") {
        Some(description) => description,
        None => {
            return Err("VirtualBox VM has no OS type description".to_owned());
        },
    };
    if !same_any_case(description.as_str(), profile.guest_os_description.as_str()) {
        return Err(
            concat5(
                "VM OS description '",
                description.as_str(),
                "' does not match managed profile '",
                profile.guest_os_description.as_str(),
                "'",
            ),
        );
    }
    let state = state_in(fields);
    if let Err(message) = check_state(state.as_str()) {
        return Err(message);
    }
    match hardware_fault(fields, profile.windows_version) {
        Some(label) => Err(
            concat3("managed VM ", label, " is not compatible with the selected profile"),
        ),
        None => Ok(()),
    }
}

fn medium_at(fields: &TextMap<String>, port: &str) -> (r: Option<String>)
    ensures
        model::opt_text(r) == attached_at(text_map::text_values(fields@), port@),
{
    match fields.get(port) {
        Some(path) => if same(path.as_str(), "none") {
            None
        } else {
            Some(path.clone())
        },
        None => None,
    }
}

fn userland_among(probes: &Vec<GuestRunLevelProbe>) -> (r: bool)
    ensures
        r == reached_userland(duplicate::views(probes@)),
{
    let ghost all = duplicate::views(probes@);
    let mut i: usize = 0;
    while i < probes.len()
        invariant
            i <= probes@.len(),
            all == duplicate::views(probes@),
            forall|k: int|
                0 <= k < i ==> !((#[trigger] all[k]).success && all[k].level.rank()
                    >= GuestRunLevel::Userland.rank()),
        decreases probes.len() - i,
    {
        assert(all[i as int] == probes@[i as int]@);
        if probes[i].success && probes[i].level.reaches(GuestRunLevel::Userland) {
            return true;
        }
        i += 1;
    }
    false
}

fn shows_progress(
    journal: &ManagedVmInstallation,
    properties: &TextMap<String>,
    probes: &Vec<GuestRunLevelProbe>,
) -> (r: bool)
    ensures
        r == has_progressed(
            journal@,
            text_map::text_values(properties@),
            duplicate::views(probes@),
        ),
{
    let windows = match properties.get("/VirtualBox/GuestInfo/OS/Product") {
        Some(product) => {
            let lower = to_lower(product.as_str());
            has(lower.as_str(), "windows")
        },
        None => false,
    };
    journal.observed.windows == WindowsInstallationStatus::Installed || windows
        || properties.contains_key("/VirtualBox/GuestAdd/Version") || properties.contains_key(
        "/VirtualBox/GuestAdd/HostVerLastChecked",
    ) || userland_among(probes)
}

fn make_plan(
    vm_id: &str,
    journal: &ManagedVmInstallation,
    profile: ManagedWindowsVmProfile,
    fields: &TextMap<String>,
    disk: String,
    media: RecoveryMedia,
    history: Option<String>,
) -> (r: ManagedVmRecoveryPlan)
    ensures
        r@ == plan(
            vm_id@,
            journal@,
            profile@,
            text_map::text_values(fields@),
            disk@,
            media@,
            model::opt_text(history),
        ),
{
    let state = state_in(fields);
    let previous_failure = if history.is_some() {
        history
    } else {
        copy_opt(&journal.last_error)
    };
    let (classification, iso_path, prepared, credentials_required) = match media {
        RecoveryMedia::OriginalIso { iso_path } => (
            ManagedVmRecoveryClassification::RecoverablePreBoot,
            iso_path,
            None,
            true,
        ),
        RecoveryMedia::Prepared { iso_path, unattended_media_path } => (
            ManagedVmRecoveryClassification::RecoverablePreparedInstall,
            iso_path,
            Some(unattended_media_path),
            false,
        ),
    };
    let previous_problem = previous_problem(as_opt_str(&previous_failure), Some(state.as_str()));
    let status = ManagedVmRecoveryStatus {
        can_resume: false,
        classification,
        reason: None,
        previous_failure,
        previous_problem,
        firmware_virtualization: DetectionState::Unknown,
        virtual_box_execution: DetectionState::Unknown,
        virtualization_ready: false,
        virtualization_blocker: None,
        vm_configuration_valid: true,
        unattended_preparation_present: prepared.is_some(),
        unattended_media_path: prepared,
        vm_id: vm_id.to_owned(),
        vm_name: copied(fields, "name"),
        vm_state: Some(state),
        windows_version: journal.windows_version,
        virtual_box_os_type_id: profile.virtual_box_os_type_id.clone(),
        virtual_box_os_description: Some(profile.guest_os_description.clone()),
        system_disk_path: Some(disk),
        iso_path: Some(iso_path),
        iso_medium_uuid: copied(fields, "SATA-ImageUUID-1-0"),
        credentials_required,
        suggested_computer_name: String::new(),
        suggested_domain_name: String::new(),
        suggested_hostname: String::new(),
    };
    ManagedVmRecoveryPlan { status, profile }
}

fn suggest_host(computer_name: &str, domain_name: &str) -> (r: String)
    ensures
        r@ == suggested_host(computer_name@, domain_name@),
{
    match unattended_hostname(computer_name, domain_name) {
        Ok(host) => host,
        Err(_) => "barnen-pc.multiseat.local".to_owned(),
    }
}

fn classify(state: ManagedInstallState) -> (r: ManagedVmRecoveryClassification)
    ensures
        r == fallback_classification(state),
{
    match state {
        ManagedInstallState::Ready => ManagedVmRecoveryClassification::Ready,
        ManagedInstallState::InstallingWindows | ManagedInstallState::Rebooting
        | ManagedInstallState::InstallingGuestAdditions
        | ManagedInstallState::WaitingForGuest => ManagedVmRecoveryClassification::InstallationInProgress,
        ManagedInstallState::NotCreated
        | ManagedInstallState::Creating => ManagedVmRecoveryClassification::Unknown,
        ManagedInstallState::Failed => ManagedVmRecoveryClassification::Unrecoverable,
    }
}

fn status_with_plan(
    status: ManagedVmRecoveryStatus,
    journal: &ManagedVmInstallation,
    firmware: DetectionState,
    execution: DetectionState,
) -> (r: ManagedVmRecoveryStatus)
    ensures
        r@ == planned_status(status@, journal@, firmware, execution),
{
    let mut computer_name = journal.computer_name.clone();
    let mut domain_name = journal.domain_name.clone();
    migrate_managed_hostname_parts(&mut computer_name, &mut domain_name);
    let mut status = status;
    status.firmware_virtualization = firmware;
    status.virtual_box_execution = execution;
    status.virtualization_ready = firmware == DetectionState::Yes && execution
        == DetectionState::Yes;
    status.virtualization_blocker = blocker_of(firmware, execution);
    status.can_resume = recovery_can_resume(status.classification, firmware, execution);
    if status.reason.is_none() {
        status.reason = blocker_of(firmware, execution);
    }
    status.suggested_hostname = suggest_host(computer_name.as_str(), domain_name.as_str());
    status.suggested_computer_name = computer_name;
    status.suggested_domain_name = domain_name;
    status
}

fn status_without_plan(
    reason: String,
    vm_id: &str,
    journal: &ManagedVmInstallation,
    firmware: DetectionState,
    execution: DetectionState,
) -> (r: ManagedVmRecoveryStatus)
    ensures
        r@ == unplanned_status(reason@, vm_id@, journal@, firmware, execution),
{
    let mut computer_name = journal.computer_name.clone();
    let mut domain_name = journal.domain_name.clone();
    migrate_managed_hostname_parts(&mut computer_name, &mut domain_name);
    let suggested_hostname = suggest_host(computer_name.as_str(), domain_name.as_str());
    ManagedVmRecoveryStatus {
        can_resume: false,
        classification: classify(journal.state),
        reason: Some(reason),
        previous_failure: copy_opt(&journal.last_error),
        previous_problem: previous_problem(as_opt_str(&journal.last_error), None),
        firmware_virtualization: firmware,
        virtual_box_execution: execution,
        virtualization_ready: firmware == DetectionState::Yes && execution == DetectionState::Yes,
        virtualization_blocker: blocker_of(firmware, execution),
        vm_configuration_valid: false,
        unattended_preparation_present: false,
        unattended_media_path: None,
        vm_id: vm_id.to_owned(),
        vm_name: None,
        vm_state: None,
        windows_version: journal.windows_version,
        virtual_box_os_type_id: journal.virtual_box_os_type_id.clone(),
        virtual_box_os_description: None,
        system_disk_path: None,
        iso_path: None,
        iso_medium_uuid: None,
        credentials_required: true,
        suggested_computer_name: computer_name,
        suggested_domain_name: domain_name,
        suggested_hostname,
    }
}

impl VirtualBoxRuntimeService {
    fn check_iso<H: InstallationHost>(&mut self, host: &mut H, path: &str) -> (r: Result<
        (),
        String,
    >)
        ensures
            final(host).answers() == old(host).answers(),
            journal::runs_with(
                *old(self),
                *final(self),
                service::answers_with(old(self).answers(), old(host).answers()),
                |w: Run| iso_p(w, path@),
                model::with_message(r),
            ),
    {
        if !has_extension(path, "iso") {
            return Err(concat3("'", path, "' is not an .iso file"));
        }
        let found = self.inspect_iso(host, path);
        validate_iso(path, &found)
    }

    fn check_artifact<H: InstallationHost>(
        &mut self,
        host: &mut H,
        directory: &str,
        vm_id: &str,
        suffix: &str,
    ) -> (r: Result<(), String>)
        ensures
            final(host).answers() == old(host).answers(),
            journal::runs_with(
                *old(self),
                *final(self),
                service::answers_with(old(self).answers(), old(host).answers()),
                |w: Run| artifact_p(w, directory@, vm_id@, suffix@),
                model::with_message(r),
            ),
    {
        let name = artifact_name(vm_id, suffix);
        let path = join_path(directory, name.as_str());
        if self.is_file(host, path.as_str()) {
            Ok(())
        } else {
            Err(
                concat3(
                    "managed unattended preparation is incomplete: '",
                    path.as_str(),
                    "' is missing",
                ),
            )
        }
    }

    fn inspect_prepared_media<H: InstallationHost>(
        &mut self,
        host: &mut H,
        vm_id: &str,
        attached: &str,
    ) -> (r: Result<RecoveryMedia, String>)
        ensures
            final(host).answers() == old(host).answers(),
            journal::runs_with(
                *old(self),
                *final(self),
                service::answers_with(old(self).answers(), old(host).answers()),
                |w: Run| prepared_media_p(w, vm_id@, attached@),
                media_result(r),
            ),
    {
        let definition = match self.read_text(host, attached) {
            Ok(text) => text,
            Err(error) => {
                return Err(
                    concat4(
                        "could not inspect managed unattended medium '",
                        attached,
                        "': ",
                        error.as_str(),
                    ),
                );
            },
        };
        let iso_path = match imported_iso_path(definition.as_str()) {
            Some(path) => path,
            None => {
                return Err(
                    "managed unattended VISO does not identify its Windows ISO".to_owned(),
                );
            },
        };
        if let Err(message) = self.check_iso(host, iso_path.as_str()) {
            return Err(message);
        }
        let directory = match parent_of(attached) {
            Some(directory) => directory,
            None => {
                return Err("managed unattended VISO has no parent directory".to_owned());
            },
        };
        if let Err(message) = self.check_artifact(
            host,
            directory.as_str(),
            vm_id,
            "autounattend.xml",
        ) {
            return Err(message);
        }
        if let Err(message) = self.check_artifact(host, directory.as_str(), vm_id, "VBOXPOST.CMD") {
            return Err(message);
        }
        Ok(RecoveryMedia::Prepared { iso_path, unattended_media_path: attached.to_owned() })
    }

    /// Finds out what the medium in a machine's drive is.
    pub fn inspect_recovery_media<H: InstallationHost>(
        &mut self,
        host: &mut H,
        vm_id: &str,
        attached_path: &str,
    ) -> (r: Result<RecoveryMedia, String>)
        ensures
            final(host).answers() == old(host).answers(),
            journal::runs_with(
                *old(self),
                *final(self),
                service::answers_with(old(self).answers(), old(host).answers()),
                |w: Run| media_p(w, vm_id@, attached_path@),
                match r {
                    Ok(media) => Ok(media@),
                    Err(message) => Err(message@),
                },
            ),
    {
        if has_extension(attached_path, "iso") {
            return match self.check_iso(host, attached_path) {
                Ok(()) => Ok(RecoveryMedia::OriginalIso { iso_path: attached_path.to_owned() }),
                Err(message) => Err(message),
            };
        }
        if !has_extension(attached_path, "viso") {
            return Err(
                concat3(
                    "attached installation medium '",
                    attached_path,
                    "' is neither an ISO nor a managed unattended VISO",
                ),
            );
        }
        let expected = artifact_name(vm_id, "aux-iso.viso");
        let name = file_name_of(attached_path);
        if !opt_is_any_case(as_opt_str(&name), expected.as_str()) {
            return Err(
                "attached unattended media does not belong to the managed VM UUID".to_owned(),
            );
        }
        self.inspect_prepared_media(host, vm_id, attached_path)
    }

    fn historical_virtualization_failure<H: InstallationHost>(
        &mut self,
        host: &mut H,
        error: &Option<String>,
        fields: &TextMap<String>,
    ) -> (r: Option<String>)
        ensures
            final(host).answers() == old(host).answers(),
            journal::runs_with(
                *old(self),
                *final(self),
                service::answers_with(old(self).answers(), old(host).answers()),
                |w: Run|
                    history_p(w, model::opt_text(*error), text_map::text_values(fields@)),
                model::opt_text(r),
            ),
    {
        let mut evidence = match error {
            Some(text) => text.clone(),
            None => String::new(),
        };
        if let Some(folder) = fields.get("LogFldr") {
            let path = join_path(folder.as_str(), "VBox.log");
            if let Ok(log) = self.read_text(host, path.as_str()) {
                evidence = concat3(evidence.as_str(), "\n", log.as_str());
            }
        }
        codes_in(evidence.as_str())
    }

    fn virtualization_readiness<H: InstallationHost>(&mut self, host: &mut H) -> (r: (
        DetectionState,
        DetectionState,
    ))
        ensures
            final(host).answers() == old(host).answers(),
            journal::runs_with(
                *old(self),
                *final(self),
                service::answers_with(old(self).answers(), old(host).answers()),
                |w: Run| readiness_p(w),
                r,
            ),
    {
        let firmware = self.firmware(host);
        let execution = match self.checked(args2("list", "hostinfo")) {
            Ok(output) => parse_host_virtualization_support(output.stdout.as_str()),
            Err(_) => DetectionState::Unknown,
        };
        (firmware, execution)
    }

    fn recovery_profile(&mut self, managed: bool, journal: &ManagedVmInstallation) -> (r: Result<
        ManagedWindowsVmProfile,
        String,
    >)
        ensures
            journal::runs(
                *old(self),
                *final(self),
                |w: Run| profile_of_p(w, managed, journal@),
                creation::profile_result(r),
            ),
    {
        if !managed {
            return Err("unrelated VM is not marked as managed by MultiSeat Lite".to_owned());
        }
        if journal.state != ManagedInstallState::Failed {
            return Err("managed installation is not in a failed recovery state".to_owned());
        }
        let profile = match self.resolve_windows_profile(journal.windows_version, None) {
            Ok(profile) => profile,
            Err(message) => {
                return Err(message);
            },
        };
        if !journal.virtual_box_os_type_id.as_str().is_empty() && !same_any_case(
            journal.virtual_box_os_type_id.as_str(),
            profile.virtual_box_os_type_id.as_str(),
        ) {
            return Err(
                concat5(
                    "managed journal OS type '",
                    journal.virtual_box_os_type_id.as_str(),
                    "' does not match resolved profile '",
                    profile.virtual_box_os_type_id.as_str(),
                    "'",
                ),
            );
        }
        Ok(profile)
    }

    fn recovery_attachments<H: InstallationHost>(
        &mut self,
        host: &mut H,
        vm_id: &str,
        fields: &TextMap<String>,
    ) -> (r: Result<(String, RecoveryMedia), String>)
        ensures
            final(host).answers() == old(host).answers(),
            journal::runs_with(
                *old(self),
                *final(self),
                service::answers_with(old(self).answers(), old(host).answers()),
                |w: Run| attachments_p(w, vm_id@, text_map::text_values(fields@)),
                attachments_result(r),
            ),
    {
        let disk = match medium_at(fields, "SATA-0-0") {
            Some(disk) => disk,
            None => {
                return Err("managed SATA system disk is not attached".to_owned());
            },
        };
        if !self.is_file(host, disk.as_str()) {
            return Err(concat3("managed system disk '", disk.as_str(), "' is unavailable"));
        }
        let medium = match medium_at(fields, "SATA-1-0") {
            Some(medium) => medium,
            None => {
                return Err("Windows installation ISO is not attached".to_owned());
            },
        };
        match self.inspect_recovery_media(host, vm_id, medium.as_str()) {
            Ok(media) => Ok((disk, media)),
            Err(message) => Err(message),
        }
    }

    fn check_untouched(&mut self, vm_id: &str, journal: &ManagedVmInstallation) -> (r: Result<
        (),
        String,
    >)
        ensures
            journal::runs(
                *old(self),
                *final(self),
                |w: Run| untouched_p(w, vm_id@, journal@),
                model::with_message(r),
            ),
    {
        let properties = match self.guest_properties(vm_id) {
            Ok(properties) => properties,
            Err(message) => {
                return Err(message);
            },
        };
        let probes = self.probe_guest_runlevels(vm_id, 2000);
        if shows_progress(journal, &properties, &probes) {
            Err(
                "guest evidence indicates Windows installation has already progressed or completed".to_owned(),
            )
        } else {
            Ok(())
        }
    }

    fn validate_managed_vm_recovery<H: InstallationHost>(
        &mut self,
        host: &mut H,
        configured_vm_id: &str,
        managed_by_multiseat: bool,
        journal: &ManagedVmInstallation,
    ) -> (r: Result<ManagedVmRecoveryPlan, String>)
        ensures
            final(host).answers() == old(host).answers(),
            journal::runs_with(
                *old(self),
                *final(self),
                service::answers_with(old(self).answers(), old(host).answers()),
                |w: Run| validate_p(w, configured_vm_id@, managed_by_multiseat, journal@),
                plan_result(r),
            ),
            r matches Ok(found) ==> found.status.iso_path is Some,
    {
        let profile = match self.recovery_profile(managed_by_multiseat, journal) {
            Ok(profile) => profile,
            Err(message) => {
                return Err(message);
            },
        };
        let output = match self.checked(
            args3("showvminfo", configured_vm_id, "--machinereadable"),
        ) {
            Ok(output) => output,
            Err(message) => {
                return Err(message);
            },
        };
        let fields = parse_machine_readable(output.stdout.as_str());
        if let Err(message) = check_machine(&fields, configured_vm_id, &profile) {
            return Err(message);
        }
        let (disk, media) = match self.recovery_attachments(host, configured_vm_id, &fields) {
            Ok(found) => found,
            Err(message) => {
                return Err(message);
            },
        };
        if let Err(message) = self.check_untouched(configured_vm_id, journal) {
            return Err(message);
        }
        let history = self.historical_virtualization_failure(host, &journal.last_error, &fields);
        Ok(make_plan(configured_vm_id, journal, profile, &fields, disk, media, history))
    }

    /// Finds out what can be done about an installation.
    pub fn managed_vm_recovery_status<H: InstallationHost>(
        &mut self,
        host: &mut H,
        configured_vm_id: &str,
        managed_by_multiseat: bool,
        journal: &ManagedVmInstallation,
    ) -> (r: ManagedVmRecoveryStatus)
        ensures
            final(host).answers() == old(host).answers(),
            journal::runs_with(
                *old(self),
                *final(self),
                service::answers_with(old(self).answers(), old(host).answers()),
                |w: Run| status_p(w, configured_vm_id@, managed_by_multiseat, journal@),
                r@,
            ),
    {
        let (firmware, execution) = self.virtualization_readiness(host);
        match self.validate_managed_vm_recovery(
            host,
            configured_vm_id,
            managed_by_multiseat,
            journal,
        ) {
            Ok(found) => status_with_plan(found.status, journal, firmware, execution),
            Err(reason) => status_without_plan(
                reason,
                configured_vm_id,
                journal,
                firmware,
                execution,
            ),
        }
    }

    /// Takes an installation up.
    pub fn resume_managed_unattended_install<H: InstallationHost>(
        &mut self,
        host: &mut H,
        configured_vm_id: &str,
        managed_by_multiseat: bool,
        journal: &ManagedVmInstallation,
        config: &WindowsInstallConfig,
        additions_iso: Option<&str>,
    ) -> (r: Result<ManagedVmInstallation, InstallationFailure>)
        ensures
            final(host).answers() == old(host).answers(),
            journal::runs_with(
                *old(self),
                *final(self),
                service::answers_with(old(self).answers(), old(host).answers()),
                |w: Run|
                    resume_p(
                        w,
                        configured_vm_id@,
                        managed_by_multiseat,
                        journal@,
                        config@,
                        model::opt_str(additions_iso),
                    ),
                installation::installation_result(r),
            ),
    {
        let found = match self.validate_managed_vm_recovery(
            host,
            configured_vm_id,
            managed_by_multiseat,
            journal,
        ) {
            Ok(found) => found,
            Err(message) => {
                return Err(failure("validate-managed-vm-recovery", message));
            },
        };
        if found.status.classification
            == ManagedVmRecoveryClassification::RecoverablePreparedInstall {
            return match self.checked(args4("startvm", configured_vm_id, "--type", "gui")) {
                Ok(_) => {
                    let mut resumed = journal.duplicate();
                    resumed.state = ManagedInstallState::InstallingWindows;
                    resumed.last_error = None;
                    Ok(resumed)
                },
                Err(message) => Err(failure("start-prepared-unattended-installation", message)),
            };
        }
        let iso_path = match found.status.iso_path {
            Some(path) => path,
            None => {
                return Err(
                    failure(
                        "validate-managed-vm-recovery",
                        "validated recovery has no Windows ISO path".to_owned(),
                    ),
                );
            },
        };
        self.prepare_unattended_install(
            host,
            configured_vm_id,
            iso_path.as_str(),
            config,
            &found.profile,
            additions_iso,
        )
    }
}

} // verus!
