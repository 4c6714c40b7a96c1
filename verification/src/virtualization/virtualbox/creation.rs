//! Creating a managed Windows machine, and undoing what an attempt that failed has created.
use super::executor::{VBoxOutput, VBoxOutputView};
use super::install_config;
use super::install_config::{
    host_windows_install_defaults, validate_windows_install_config, WindowsInstallConfig,
    WindowsInstallConfigView, WindowsInstallDefaults, WindowsInstallDefaultsView,
};
use super::installation::InstallationHost;
use super::machine_info;
use super::machine_info::parse_machine_readable;
use super::runtime::{VirtualMachine, VirtualMachineView};
use super::service;
use super::service::{args2, args3, args4, Request, Run, VirtualBoxRuntimeService};
use crate::duplicate;
use crate::duplicate::{duplicate_all, Duplicate};
use crate::journal;
use crate::journal::Journaled;
use crate::paths;
use crate::paths::{has_extension, join_path, parent_of};
use crate::seats::ManagedWindowsVersion;
use crate::text::compose::{
    concat2, concat3, concat4, concat5, copy_all, copy_opt, join, own_opt, to_lower,
};
use crate::text::model;
use crate::text::model::Text;
use crate::text::number::number_text;
use crate::text::scan::{
    has, lines_of, same_any_case, split, split_at_first, strip_start, trim,
};
use crate::text_map;
use vstd::prelude::*;

verus! {

/// The place in an ISO image at which its signature stands.
pub const ISO_PRIMARY_VOLUME_DESCRIPTOR: u64 = 32769;

/// Whether a machine boots signed systems only.
#[derive(Clone, Copy, Debug, Eq, PartialEq, Structural)]
pub enum SecureBootStatus {
    NotRequired,
    WillConfigure,
    Configured,
}

/// Whether the Guest Additions are in a guest.
#[derive(Clone, Copy, Debug, Eq, PartialEq, Structural)]
pub enum GuestAdditionsState {
    NotInstalled,
    InstallationPending,
    Installed,
    Unknown,
}

/// What is there for installing the Guest Additions.
#[derive(Debug, Eq, PartialEq)]
pub struct GuestAdditionsPreparation {
    pub state: GuestAdditionsState,
    pub bundled_iso_path: Option<String>,
    pub automatic_installation_supported: bool,
}

/// The model of [`GuestAdditionsPreparation`].
#[verifier::ext_equal]
pub struct GuestAdditionsPreparationView {
    pub state: GuestAdditionsState,
    pub bundled_iso_path: Option<Text>,
    pub automatic_installation_supported: bool,
}

impl View for GuestAdditionsPreparation {
    type V = GuestAdditionsPreparationView;

    open spec fn view(&self) -> GuestAdditionsPreparationView {
        GuestAdditionsPreparationView {
            state: self.state,
            bundled_iso_path: model::opt_text(self.bundled_iso_path),
            automatic_installation_supported: self.automatic_installation_supported,
        }
    }
}

impl Duplicate for GuestAdditionsPreparation {
    fn duplicate(&self) -> (r: Self) {
        GuestAdditionsPreparation {
            state: self.state,
            bundled_iso_path: copy_opt(&self.bundled_iso_path),
            automatic_installation_supported: self.automatic_installation_supported,
        }
    }
}

impl Clone for GuestAdditionsPreparation {
    fn clone(&self) -> (r: Self)
        ensures
            r@ == self@,
    {
        self.duplicate()
    }
}

/// What a machine for a Windows version has.
#[derive(Debug, Eq, PartialEq)]
pub struct ManagedWindowsVmProfile {
    pub windows_version: ManagedWindowsVersion,
    pub display_name: String,
    pub virtual_box_os_type_id: String,
    pub guest_os_description: String,
    pub architecture: String,
    pub firmware: String,
    pub tpm: String,
    pub tpm_required: bool,
    pub io_apic_enabled: bool,
    pub secure_boot: SecureBootStatus,
    pub secure_boot_required: bool,
    pub usb_controller: String,
    pub graphics_controller: String,
    pub vram_mb: u32,
    pub network: String,
    pub audio_output_enabled: bool,
    pub storage_controller: String,
    pub guest_additions: GuestAdditionsPreparation,
}

/// The model of [`ManagedWindowsVmProfile`].
#[verifier::ext_equal]
pub struct ManagedWindowsVmProfileView {
    pub windows_version: ManagedWindowsVersion,
    pub display_name: Text,
    pub virtual_box_os_type_id: Text,
    pub guest_os_description: Text,
    pub architecture: Text,
    pub firmware: Text,
    pub tpm: Text,
    pub tpm_required: bool,
    pub io_apic_enabled: bool,
    pub secure_boot: SecureBootStatus,
    pub secure_boot_required: bool,
    pub usb_controller: Text,
    pub graphics_controller: Text,
    pub vram_mb: u32,
    pub network: Text,
    pub audio_output_enabled: bool,
    pub storage_controller: Text,
    pub guest_additions: GuestAdditionsPreparationView,
}

impl View for ManagedWindowsVmProfile {
    type V = ManagedWindowsVmProfileView;

    open spec fn view(&self) -> ManagedWindowsVmProfileView {
        ManagedWindowsVmProfileView {
            windows_version: self.windows_version,
            display_name: self.display_name@,
            virtual_box_os_type_id: self.virtual_box_os_type_id@,
            guest_os_description: self.guest_os_description@,
            architecture: self.architecture@,
            firmware: self.firmware@,
            tpm: self.tpm@,
            tpm_required: self.tpm_required,
            io_apic_enabled: self.io_apic_enabled,
            secure_boot: self.secure_boot,
            secure_boot_required: self.secure_boot_required,
            usb_controller: self.usb_controller@,
            graphics_controller: self.graphics_controller@,
            vram_mb: self.vram_mb,
            network: self.network@,
            audio_output_enabled: self.audio_output_enabled,
            storage_controller: self.storage_controller@,
            guest_additions: self.guest_additions@,
        }
    }
}

impl Duplicate for ManagedWindowsVmProfile {
    fn duplicate(&self) -> (r: Self) {
        ManagedWindowsVmProfile {
            windows_version: self.windows_version,
            display_name: self.display_name.clone(),
            virtual_box_os_type_id: self.virtual_box_os_type_id.clone(),
            guest_os_description: self.guest_os_description.clone(),
            architecture: self.architecture.clone(),
            firmware: self.firmware.clone(),
            tpm: self.tpm.clone(),
            tpm_required: self.tpm_required,
            io_apic_enabled: self.io_apic_enabled,
            secure_boot: self.secure_boot,
            secure_boot_required: self.secure_boot_required,
            usb_controller: self.usb_controller.clone(),
            graphics_controller: self.graphics_controller.clone(),
            vram_mb: self.vram_mb,
            network: self.network.clone(),
            audio_output_enabled: self.audio_output_enabled,
            storage_controller: self.storage_controller.clone(),
            guest_additions: self.guest_additions.duplicate(),
        }
    }
}

impl Clone for ManagedWindowsVmProfile {
    fn clone(&self) -> (r: Self)
        ensures
            r@ == self@,
    {
        self.duplicate()
    }
}

/// The machine that is to be created.
#[derive(Eq, PartialEq)]
pub struct VmCreationRequest {
    pub name: String,
    pub iso_path: String,
    pub memory_mb: u64,
    pub cpus: u32,
    pub disk_gb: u64,
    pub windows_version: ManagedWindowsVersion,
    pub installation: WindowsInstallConfig,
}

/// The model of [`VmCreationRequest`].
#[verifier::ext_equal]
pub struct VmCreationRequestView {
    pub name: Text,
    pub iso_path: Text,
    pub memory_mb: u64,
    pub cpus: u32,
    pub disk_gb: u64,
    pub windows_version: ManagedWindowsVersion,
    pub installation: WindowsInstallConfigView,
}

impl View for VmCreationRequest {
    type V = VmCreationRequestView;

    open spec fn view(&self) -> VmCreationRequestView {
        VmCreationRequestView {
            name: self.name@,
            iso_path: self.iso_path@,
            memory_mb: self.memory_mb,
            cpus: self.cpus,
            disk_gb: self.disk_gb,
            windows_version: self.windows_version,
            installation: self.installation@,
        }
    }
}

impl Duplicate for VmCreationRequest {
    fn duplicate(&self) -> (r: Self) {
        VmCreationRequest {
            name: self.name.clone(),
            iso_path: self.iso_path.clone(),
            memory_mb: self.memory_mb,
            cpus: self.cpus,
            disk_gb: self.disk_gb,
            windows_version: self.windows_version,
            installation: self.installation.duplicate(),
        }
    }
}

impl Clone for VmCreationRequest {
    fn clone(&self) -> (r: Self)
        ensures
            r@ == self@,
    {
        self.duplicate()
    }
}

/// The machine that is proposed for a host.
#[derive(Debug, Eq, PartialEq)]
pub struct VmCreationProposal {
    pub host_memory_mb: u64,
    pub host_logical_cpus: u32,
    pub memory_mb: u64,
    pub cpus: u32,
    pub disk_gb: u64,
    pub default_windows_version: ManagedWindowsVersion,
    pub profiles: Vec<ManagedWindowsVmProfile>,
    pub installation_defaults: WindowsInstallDefaults,
}

/// The model of [`VmCreationProposal`].
#[verifier::ext_equal]
pub struct VmCreationProposalView {
    pub host_memory_mb: u64,
    pub host_logical_cpus: u32,
    pub memory_mb: u64,
    pub cpus: u32,
    pub disk_gb: u64,
    pub default_windows_version: ManagedWindowsVersion,
    pub profiles: Seq<ManagedWindowsVmProfileView>,
    pub installation_defaults: WindowsInstallDefaultsView,
}

impl View for VmCreationProposal {
    type V = VmCreationProposalView;

    open spec fn view(&self) -> VmCreationProposalView {
        VmCreationProposalView {
            host_memory_mb: self.host_memory_mb,
            host_logical_cpus: self.host_logical_cpus,
            memory_mb: self.memory_mb,
            cpus: self.cpus,
            disk_gb: self.disk_gb,
            default_windows_version: self.default_windows_version,
            profiles: duplicate::views(self.profiles@),
            installation_defaults: self.installation_defaults@,
        }
    }
}

impl Duplicate for VmCreationProposal {
    fn duplicate(&self) -> (r: Self) {
        VmCreationProposal {
            host_memory_mb: self.host_memory_mb,
            host_logical_cpus: self.host_logical_cpus,
            memory_mb: self.memory_mb,
            cpus: self.cpus,
            disk_gb: self.disk_gb,
            default_windows_version: self.default_windows_version,
            profiles: duplicate_all(&self.profiles),
            installation_defaults: self.installation_defaults.duplicate(),
        }
    }
}

impl Clone for VmCreationProposal {
    fn clone(&self) -> (r: Self)
        ensures
            r@ == self@,
    {
        self.duplicate()
    }
}

/// One step of a creation.
#[derive(Debug, Eq, PartialEq)]
pub struct VmCreationLogEntry {
    pub step: String,
    pub outcome: String,
    pub detail: String,
}

/// The model of [`VmCreationLogEntry`].
#[verifier::ext_equal]
pub struct VmCreationLogEntryView {
    pub step: Text,
    pub outcome: Text,
    pub detail: Text,
}

impl View for VmCreationLogEntry {
    type V = VmCreationLogEntryView;

    open spec fn view(&self) -> VmCreationLogEntryView {
        VmCreationLogEntryView {
            step: self.step@,
            outcome: self.outcome@,
            detail: self.detail@,
        }
    }
}

impl Duplicate for VmCreationLogEntry {
    fn duplicate(&self) -> (r: Self) {
        VmCreationLogEntry {
            step: self.step.clone(),
            outcome: self.outcome.clone(),
            detail: self.detail.clone(),
        }
    }
}

impl Clone for VmCreationLogEntry {
    fn clone(&self) -> (r: Self)
        ensures
            r@ == self@,
    {
        self.duplicate()
    }
}

/// A machine that was created.
#[derive(Debug, Eq, PartialEq)]
pub struct VmCreationResult {
    pub vm: VirtualMachine,
    pub profile: ManagedWindowsVmProfile,
    pub changed_settings: Vec<String>,
    pub logs: Vec<VmCreationLogEntry>,
}

/// The model of [`VmCreationResult`].
#[verifier::ext_equal]
pub struct VmCreationResultView {
    pub vm: VirtualMachineView,
    pub profile: ManagedWindowsVmProfileView,
    pub changed_settings: Seq<Text>,
    pub logs: Seq<VmCreationLogEntryView>,
}

impl View for VmCreationResult {
    type V = VmCreationResultView;

    open spec fn view(&self) -> VmCreationResultView {
        VmCreationResultView {
            vm: self.vm@,
            profile: self.profile@,
            changed_settings: model::texts(self.changed_settings@),
            logs: duplicate::views(self.logs@),
        }
    }
}

impl Duplicate for VmCreationResult {
    fn duplicate(&self) -> (r: Self) {
        VmCreationResult {
            vm: self.vm.duplicate(),
            profile: self.profile.duplicate(),
            changed_settings: copy_all(&self.changed_settings),
            logs: duplicate_all(&self.logs),
        }
    }
}

impl Clone for VmCreationResult {
    fn clone(&self) -> (r: Self)
        ensures
            r@ == self@,
    {
        self.duplicate()
    }
}

/// Why a machine was not created, and what was undone.
#[derive(Debug, Eq, PartialEq)]
pub struct VmCreationFailure {
    pub failed_step: String,
    pub message: String,
    pub logs: Vec<VmCreationLogEntry>,
    pub rollback_actions: Vec<VmCreationLogEntry>,
}

/// The model of [`VmCreationFailure`].
#[verifier::ext_equal]
pub struct VmCreationFailureView {
    pub failed_step: Text,
    pub message: Text,
    pub logs: Seq<VmCreationLogEntryView>,
    pub rollback_actions: Seq<VmCreationLogEntryView>,
}

impl View for VmCreationFailure {
    type V = VmCreationFailureView;

    open spec fn view(&self) -> VmCreationFailureView {
        VmCreationFailureView {
            failed_step: self.failed_step@,
            message: self.message@,
            logs: duplicate::views(self.logs@),
            rollback_actions: duplicate::views(self.rollback_actions@),
        }
    }
}

impl Duplicate for VmCreationFailure {
    fn duplicate(&self) -> (r: Self) {
        VmCreationFailure {
            failed_step: self.failed_step.clone(),
            message: self.message.clone(),
            logs: duplicate_all(&self.logs),
            rollback_actions: duplicate_all(&self.rollback_actions),
        }
    }
}

impl Clone for VmCreationFailure {
    fn clone(&self) -> (r: Self)
        ensures
            r@ == self@,
    {
        self.duplicate()
    }
}

/// A guest system that VirtualBox knows.
#[derive(Debug, Eq, PartialEq)]
pub struct VirtualBoxOsType {
    pub id: String,
    pub description: String,
    pub architecture: String,
}

/// The model of [`VirtualBoxOsType`].
#[verifier::ext_equal]
pub struct VirtualBoxOsTypeView {
    pub id: Text,
    pub description: Text,
    pub architecture: Text,
}

impl View for VirtualBoxOsType {
    type V = VirtualBoxOsTypeView;

    open spec fn view(&self) -> VirtualBoxOsTypeView {
        VirtualBoxOsTypeView {
            id: self.id@,
            description: self.description@,
            architecture: self.architecture@,
        }
    }
}

impl Duplicate for VirtualBoxOsType {
    fn duplicate(&self) -> (r: Self) {
        VirtualBoxOsType {
            id: self.id.clone(),
            description: self.description.clone(),
            architecture: self.architecture.clone(),
        }
    }
}

impl Clone for VirtualBoxOsType {
    fn clone(&self) -> (r: Self)
        ensures
            r@ == self@,
    {
        self.duplicate()
    }
}

/// What a creation has made so far.
#[derive(Debug, Eq, PartialEq)]
pub struct CreationTransaction {
    pub vm_identifier: Option<String>,
    pub vm_uuid: Option<String>,
    pub disk_path: Option<String>,
    pub disk_created: bool,
    pub disk_attached: bool,
    pub logs: Vec<VmCreationLogEntry>,
}

/// The model of [`CreationTransaction`].
#[verifier::ext_equal]
pub struct CreationTransactionView {
    pub vm_identifier: Option<Text>,
    pub vm_uuid: Option<Text>,
    pub disk_path: Option<Text>,
    pub disk_created: bool,
    pub disk_attached: bool,
    pub logs: Seq<VmCreationLogEntryView>,
}

impl View for CreationTransaction {
    type V = CreationTransactionView;

    open spec fn view(&self) -> CreationTransactionView {
        CreationTransactionView {
            vm_identifier: model::opt_text(self.vm_identifier),
            vm_uuid: model::opt_text(self.vm_uuid),
            disk_path: model::opt_text(self.disk_path),
            disk_created: self.disk_created,
            disk_attached: self.disk_attached,
            logs: duplicate::views(self.logs@),
        }
    }
}

impl Duplicate for CreationTransaction {
    fn duplicate(&self) -> (r: Self) {
        CreationTransaction {
            vm_identifier: copy_opt(&self.vm_identifier),
            vm_uuid: copy_opt(&self.vm_uuid),
            disk_path: copy_opt(&self.disk_path),
            disk_created: self.disk_created,
            disk_attached: self.disk_attached,
            logs: duplicate_all(&self.logs),
        }
    }
}

impl Clone for CreationTransaction {
    fn clone(&self) -> (r: Self)
        ensures
            r@ == self@,
    {
        self.duplicate()
    }
}

/// The step at which a creation failed, and why.
#[derive(Debug, Eq, PartialEq)]
pub struct StepFailure {
    pub step: String,
    pub message: String,
}

/// The model of [`StepFailure`].
#[verifier::ext_equal]
pub struct StepFailureView {
    pub step: Text,
    pub message: Text,
}

impl View for StepFailure {
    type V = StepFailureView;

    open spec fn view(&self) -> StepFailureView {
        StepFailureView {
            step: self.step@,
            message: self.message@,
        }
    }
}

impl Duplicate for StepFailure {
    fn duplicate(&self) -> (r: Self) {
        StepFailure {
            step: self.step.clone(),
            message: self.message.clone(),
        }
    }
}

impl Clone for StepFailure {
    fn clone(&self) -> (r: Self)
        ensures
            r@ == self@,
    {
        self.duplicate()
    }
}

/// What reading the signature of an image gave.
#[derive(Debug, Eq, PartialEq)]
pub enum IsoSignature {
    SeekFailed(String),
    ReadFailed(String),
    Read(Vec<u8>),
}

/// What opening a file as an image gave.
#[derive(Debug, Eq, PartialEq)]
pub enum IsoInspection {
    OpenFailed(String),
    MetadataFailed(String),
    Opened { is_file: bool, length: u64, signature: IsoSignature },
}

/// The model of [`IsoSignature`].
pub enum IsoSignatureView {
    SeekFailed(Text),
    ReadFailed(Text),
    Read(Seq<u8>),
}

/// The model of [`IsoInspection`].
pub enum IsoInspectionView {
    OpenFailed(Text),
    MetadataFailed(Text),
    Opened { is_file: bool, length: u64, signature: IsoSignatureView },
}

impl View for IsoSignature {
    type V = IsoSignatureView;

    open spec fn view(&self) -> IsoSignatureView {
        match self {
            IsoSignature::SeekFailed(error) => IsoSignatureView::SeekFailed(error@),
            IsoSignature::ReadFailed(error) => IsoSignatureView::ReadFailed(error@),
            IsoSignature::Read(bytes) => IsoSignatureView::Read(bytes@),
        }
    }
}

impl View for IsoInspection {
    type V = IsoInspectionView;

    open spec fn view(&self) -> IsoInspectionView {
        match self {
            IsoInspection::OpenFailed(error) => IsoInspectionView::OpenFailed(error@),
            IsoInspection::MetadataFailed(error) => IsoInspectionView::MetadataFailed(error@),
            IsoInspection::Opened { is_file, length, signature } => IsoInspectionView::Opened {
                is_file: *is_file,
                length: *length,
                signature: signature@,
            },
        }
    }
}

// ---- ISO images ------------------------------------------------------------------------

/// The signature of an ISO-9660 image: `CD001`.
pub open spec fn iso_signature() -> Seq<u8> {
    seq![67u8, 68u8, 48u8, 48u8, 49u8]
}

/// That a path leads to an ISO image, or why not.
pub open spec fn iso_check(path: Text, found: IsoInspectionView) -> Result<(), Text> {
    if !model::is_ignoring_case(paths::extension(path), "iso"@) {
        Err("'"@ + path + "' is not an .iso file"@)
    } else {
        match found {
            IsoInspectionView::OpenFailed(error) => Err(
                "Windows ISO '"@ + path + "' is not readable: "@ + error,
            ),
            IsoInspectionView::MetadataFailed(error) => Err(
                "could not inspect Windows ISO '"@ + path + "': "@ + error,
            ),
            IsoInspectionView::Opened { is_file, length, signature } => if !is_file || length
                < ISO_PRIMARY_VOLUME_DESCRIPTOR + 5 {
                Err("'"@ + path + "' is too small to be a valid ISO image"@)
            } else {
                match signature {
                    IsoSignatureView::SeekFailed(error) => Err(
                        "could not seek Windows ISO '"@ + path + "': "@ + error,
                    ),
                    IsoSignatureView::ReadFailed(error) => Err(
                        "could not read Windows ISO '"@ + path + "': "@ + error,
                    ),
                    IsoSignatureView::Read(bytes) => if bytes == iso_signature() {
                        Ok(())
                    } else {
                        Err(
                            "'"@ + path
                                + "' does not contain an ISO-9660 primary volume descriptor"@,
                        )
                    },
                }
            },
        }
    }
}

/// That a path leads to an ISO image, or why not.
pub fn validate_iso(path: &str, found: &IsoInspection) -> (r: Result<(), String>)
    ensures
        model::with_message(r) == iso_check(path@, found@),
{
    if !has_extension(path, "iso") {
        return Err(concat3("'", path, "' is not an .iso file"));
    }
    match found {
        IsoInspection::OpenFailed(error) => Err(
            concat4("Windows ISO '", path, "' is not readable: ", error.as_str()),
        ),
        IsoInspection::MetadataFailed(error) => Err(
            concat4("could not inspect Windows ISO '", path, "': ", error.as_str()),
        ),
        IsoInspection::Opened { is_file, length, signature } => {
            if !*is_file || *length < ISO_PRIMARY_VOLUME_DESCRIPTOR + 5 {
                return Err(concat3("'", path, "' is too small to be a valid ISO image"));
            }
            match signature {
                IsoSignature::SeekFailed(error) => Err(
                    concat4("could not seek Windows ISO '", path, "': ", error.as_str()),
                ),
                IsoSignature::ReadFailed(error) => Err(
                    concat4("could not read Windows ISO '", path, "': ", error.as_str()),
                ),
                IsoSignature::Read(bytes) => {
                    let valid = bytes.len() == 5 && bytes[0] == 67 && bytes[1] == 68 && bytes[2]
                        == 48 && bytes[3] == 48 && bytes[4] == 49;
                    assert(valid == (bytes@ =~= iso_signature()));
                    if valid {
                        Ok(())
                    } else {
                        Err(
                            concat3(
                                "'",
                                path,
                                "' does not contain an ISO-9660 primary volume descriptor",
                            ),
                        )
                    }
                },
            }
        },
    }
}

// ---- Profiles --------------------------------------------------------------------------

/// What a listing of guest systems has given so far.
#[verifier::ext_equal]
pub struct OsListing {
    pub current: Option<VirtualBoxOsTypeView>,
    pub records: Seq<VirtualBoxOsTypeView>,
}

pub open spec fn closed_os(listing: OsListing) -> Seq<VirtualBoxOsTypeView> {
    match listing.current {
        Some(record) => listing.records.push(record),
        None => listing.records,
    }
}

/// The guest system that a heading names.
pub open spec fn headed_os(value: Text) -> VirtualBoxOsTypeView {
    match model::split_once(value, "--"@) {
        Some((id, description)) => VirtualBoxOsTypeView {
            id: model::trimmed(id),
            description: model::trimmed(description),
            architecture: seq![],
        },
        None => VirtualBoxOsTypeView {
            id: model::trimmed(value),
            description: seq![],
            architecture: seq![],
        },
    }
}

/// The listing after one more line.
pub open spec fn after_os_line(listing: OsListing, text: Text) -> OsListing {
    let line = model::trimmed(text);
    match model::after_prefix(line, "ID / Description:"@) {
        Some(value) => OsListing { current: Some(headed_os(value)), records: closed_os(listing) },
        None => match (listing.current, model::after_prefix(line, "Architecture:"@)) {
            (Some(record), Some(value)) => OsListing {
                current: Some(
                    VirtualBoxOsTypeView { architecture: model::trimmed(value), ..record },
                ),
                ..listing
            },
            _ => listing,
        },
    }
}

/// The listing after some lines.
pub open spec fn after_os_lines(lines: Seq<Text>) -> OsListing
    decreases lines.len(),
{
    if lines.len() == 0 {
        OsListing { current: None, records: seq![] }
    } else {
        after_os_line(after_os_lines(lines.drop_last()), lines.last())
    }
}

/// The guest systems of a listing.
pub open spec fn os_types(output: Text) -> Seq<VirtualBoxOsTypeView> {
    closed_os(after_os_lines(model::lines(output)))
}

spec fn os_holds(
    current: Option<VirtualBoxOsType>,
    records: Vec<VirtualBoxOsType>,
    listing: OsListing,
) -> bool {
    duplicate::opt_view(current) == listing.current && duplicate::views(records@)
        == listing.records
}

fn close_os(current: Option<VirtualBoxOsType>, records: &mut Vec<VirtualBoxOsType>)
    ensures
        duplicate::views(final(records)@) == closed_os(
            OsListing {
                current: duplicate::opt_view(current),
                records: duplicate::views(old(records)@),
            },
        ),
{
    if let Some(record) = current {
        let ghost before = records@;
        records.push(record);
        assert(duplicate::views(records@) =~= duplicate::views(before).push(record@));
    }
}

/// Reads the output of `VBoxManage list ostypes`.
pub fn parse_virtual_box_os_types(output: &str) -> (r: Vec<VirtualBoxOsType>)
    ensures
        duplicate::views(r@) == os_types(output@),
{
    let mut records: Vec<VirtualBoxOsType> = Vec::new();
    let mut current: Option<VirtualBoxOsType> = None;
    let lines = lines_of(output);
    let ghost all = model::texts(lines@);
    let mut i: usize = 0;
    assert(all.take(0) =~= Seq::<Text>::empty());
    assert(duplicate::views(records@) =~= Seq::<VirtualBoxOsTypeView>::empty());
    while i < lines.len()
        invariant
            i <= lines@.len(),
            all == model::texts(lines@),
            os_holds(current, records, after_os_lines(all.take(i as int))),
        decreases lines.len() - i,
    {
        proof {
            assert(all.take(i + 1).drop_last() =~= all.take(i as int));
            assert(all.take(i + 1).last() == lines@[i as int]@);
        }
        let line = trim(lines[i].as_str());
        match strip_start(line.as_str(), "ID / Description:") {
            Some(value) => {
                close_os(current, &mut records);
                current =
                match split_at_first(value.as_str(), "--") {
                    Some((id, description)) => Some(
                        VirtualBoxOsType {
                            id: trim(id.as_str()),
                            description: trim(description.as_str()),
                            architecture: String::new(),
                        },
                    ),
                    None => Some(
                        VirtualBoxOsType {
                            id: trim(value.as_str()),
                            description: String::new(),
                            architecture: String::new(),
                        },
                    ),
                };
            },
            None => {
                current =
                match (current, strip_start(line.as_str(), "Architecture:")) {
                    (Some(record), Some(value)) => Some(
                        VirtualBoxOsType {
                            id: record.id,
                            description: record.description,
                            architecture: trim(value.as_str()),
                        },
                    ),
                    (record, _) => record,
                };
            },
        }
        i += 1;
    }
    assert(all.take(i as int) =~= all);
    close_os(current, &mut records);
    records
}

/// The name of a Windows version.
pub open spec fn version_name(version: ManagedWindowsVersion) -> Text {
    match version {
        ManagedWindowsVersion::Windows10 => "Windows 10"@,
        ManagedWindowsVersion::Windows11 => "Windows 11"@,
    }
}

/// Whether a guest system is a Windows version for 64-bit x86.
pub open spec fn fits_version(record: VirtualBoxOsTypeView, version: ManagedWindowsVersion) -> bool {
    model::contains(record.description, version_name(version)) && model::contains(
        record.description,
        "64-bit"@,
    ) && model::contains(record.architecture, "x86"@) && model::contains(
        record.architecture,
        "64-bit"@,
    )
}

/// The first guest system at or after `from` that is a Windows version.
pub open spec fn os_from(
    records: Seq<VirtualBoxOsTypeView>,
    version: ManagedWindowsVersion,
    from: int,
) -> Option<VirtualBoxOsTypeView>
    decreases records.len() - from,
{
    if from < 0 || from >= records.len() {
        None
    } else if fits_version(records[from], version) {
        Some(records[from])
    } else {
        os_from(records, version, from + 1)
    }
}

/// The guest system that is a Windows version, or why there is none.
pub open spec fn os_for(records: Seq<VirtualBoxOsTypeView>, version: ManagedWindowsVersion) ->
    Result<VirtualBoxOsTypeView, Text> {
    match os_from(records, version, 0) {
        Some(record) => Ok(record),
        None => Err(
            "installed VirtualBox does not report a supported "@ + version_name(version)
                + " x64 OS type"@,
        ),
    }
}

fn version_text(version: ManagedWindowsVersion) -> (r: &'static str)
    ensures
        r@ == version_name(version),
{
    match version {
        ManagedWindowsVersion::Windows10 => "Windows 10",
        ManagedWindowsVersion::Windows11 => "Windows 11",
    }
}

/// The guest system that is a Windows version, or why there is none.
pub fn resolve_windows_os_type(
    records: &Vec<VirtualBoxOsType>,
    windows_version: ManagedWindowsVersion,
) -> (r: Result<VirtualBoxOsType, String>)
    ensures
        match r {
            Ok(record) => os_for(duplicate::views(records@), windows_version) == Ok::<
                VirtualBoxOsTypeView,
                Text,
            >(record@),
            Err(message) => os_for(duplicate::views(records@), windows_version) == Err::<
                VirtualBoxOsTypeView,
                Text,
            >(message@),
        },
{
    let name = version_text(windows_version);
    let ghost all = duplicate::views(records@);
    let mut i: usize = 0;
    while i < records.len()
        invariant
            i <= records@.len(),
            all == duplicate::views(records@),
            name@ == version_name(windows_version),
            os_from(all, windows_version, 0) == os_from(all, windows_version, i as int),
        decreases records.len() - i,
    {
        let record = &records[i];
        assert(all[i as int] == record@);
        if has(record.description.as_str(), name) && has(record.description.as_str(), "64-bit")
            && has(record.architecture.as_str(), "x86") && has(
            record.architecture.as_str(),
            "64-bit",
        ) {
            return Ok(record.duplicate());
        }
        i += 1;
    }
    Err(concat3("installed VirtualBox does not report a supported ", name, " x64 OS type"))
}

/// The profile of a Windows version. Only Windows 11 needs UEFI, a TPM and secure boot.
pub open spec fn profile_of(
    version: ManagedWindowsVersion,
    os_type: VirtualBoxOsTypeView,
    secure_boot: SecureBootStatus,
    additions_iso: Option<Text>,
) -> ManagedWindowsVmProfileView {
    let eleven = version == ManagedWindowsVersion::Windows11;
    ManagedWindowsVmProfileView {
        windows_version: version,
        display_name: if eleven {
            "Windows 11 x64"@
        } else {
            "Windows 10 x64"@
        },
        virtual_box_os_type_id: os_type.id,
        guest_os_description: os_type.description,
        architecture: "x86_64"@,
        firmware: if eleven {
            "UEFI"@
        } else {
            "BIOS"@
        },
        tpm: if eleven {
            "2.0 (VirtualBox virtual TPM)"@
        } else {
            "Not required"@
        },
        tpm_required: eleven,
        io_apic_enabled: true,
        secure_boot,
        secure_boot_required: eleven,
        usb_controller: "xHCI"@,
        graphics_controller: "VBoxSVGA"@,
        vram_mb: 128,
        network: "NAT"@,
        audio_output_enabled: true,
        storage_controller: "SATA (Intel AHCI)"@,
        guest_additions: GuestAdditionsPreparationView {
            state: GuestAdditionsState::NotInstalled,
            bundled_iso_path: additions_iso,
            automatic_installation_supported: true,
        },
    }
}

/// The profile of a Windows version.
pub fn windows_profile(
    windows_version: ManagedWindowsVersion,
    os_type: VirtualBoxOsType,
    secure_boot: SecureBootStatus,
    additions_iso: Option<&str>,
) -> (r: ManagedWindowsVmProfile)
    ensures
        r@ == profile_of(windows_version, os_type@, secure_boot, model::opt_str(additions_iso)),
{
    let eleven = windows_version == ManagedWindowsVersion::Windows11;
    ManagedWindowsVmProfile {
        windows_version,
        display_name: (if eleven {
            "Windows 11 x64"
        } else {
            "Windows 10 x64"
        }).to_owned(),
        virtual_box_os_type_id: os_type.id,
        guest_os_description: os_type.description,
        architecture: "x86_64".to_owned(),
        firmware: (if eleven {
            "UEFI"
        } else {
            "BIOS"
        }).to_owned(),
        tpm: (if eleven {
            "2.0 (VirtualBox virtual TPM)"
        } else {
            "Not required"
        }).to_owned(),
        tpm_required: eleven,
        io_apic_enabled: true,
        secure_boot,
        secure_boot_required: eleven,
        usb_controller: "xHCI".to_owned(),
        graphics_controller: "VBoxSVGA".to_owned(),
        vram_mb: 128,
        network: "NAT".to_owned(),
        audio_output_enabled: true,
        storage_controller: "SATA (Intel AHCI)".to_owned(),
        guest_additions: GuestAdditionsPreparation {
            state: GuestAdditionsState::NotInstalled,
            bundled_iso_path: own_opt(additions_iso),
            automatic_installation_supported: true,
        },
    }
}

/// Where the Guest Additions' image would stand, next to `VBoxManage`.
pub open spec fn additions_path(vbox_manage_path: Text) -> Option<Text> {
    match paths::parent(vbox_manage_path) {
        Some(directory) => Some(paths::joined(directory, "VBoxGuestAdditions.iso"@)),
        None => None,
    }
}

/// Where the Guest Additions' image would stand, next to `VBoxManage`.
pub fn guest_additions_place(vbox_manage_path: &str) -> (r: Option<String>)
    ensures
        model::opt_text(r) == additions_path(vbox_manage_path@),
{
    match parent_of(vbox_manage_path) {
        Some(directory) => Some(join_path(directory.as_str(), "VBoxGuestAdditions.iso")),
        None => None,
    }
}

/// What was changed for a profile, in words.
pub open spec fn settings_of(profile: ManagedWindowsVmProfileView) -> Seq<Text> {
    seq![
        "Managed guest: "@ + profile.display_name,
        "VirtualBox OS type ID: "@ + profile.virtual_box_os_type_id,
        "Guest OS description: "@ + profile.guest_os_description,
        "Architecture: "@ + profile.architecture,
        "Firmware: "@ + profile.firmware,
        "TPM: "@ + profile.tpm,
        "I/O APIC: enabled"@,
        if profile.secure_boot_required {
            "Secure Boot: Microsoft signatures + Oracle platform key"@
        } else {
            "Secure Boot: not required"@
        },
        "USB: "@ + profile.usb_controller,
        "Graphics: "@ + profile.graphics_controller + " / "@ + model::decimal(
            profile.vram_mb as nat,
        ) + " MB VRAM"@,
        "Network: "@ + profile.network,
        "Audio output: enabled"@,
        "Storage: "@ + profile.storage_controller,
    ]
}

/// What was changed for a profile, in words.
pub fn profile_settings(profile: &ManagedWindowsVmProfile) -> (r: Vec<String>)
    ensures
        model::texts(r@) == settings_of(profile@),
{
    let mut settings: Vec<String> = Vec::new();
    settings.push(concat2("Managed guest: ", profile.display_name.as_str()));
    settings.push(concat2("VirtualBox OS type ID: ", profile.virtual_box_os_type_id.as_str()));
    settings.push(concat2("Guest OS description: ", profile.guest_os_description.as_str()));
    settings.push(concat2("Architecture: ", profile.architecture.as_str()));
    settings.push(concat2("Firmware: ", profile.firmware.as_str()));
    settings.push(concat2("TPM: ", profile.tpm.as_str()));
    settings.push("I/O APIC: enabled".to_owned());
    settings.push(
        (if profile.secure_boot_required {
            "Secure Boot: Microsoft signatures + Oracle platform key"
        } else {
            "Secure Boot: not required"
        }).to_owned(),
    );
    settings.push(concat2("USB: ", profile.usb_controller.as_str()));
    let vram = number_text(profile.vram_mb as u64);
    settings.push(
        concat5(
            "Graphics: ",
            profile.graphics_controller.as_str(),
            " / ",
            vram.as_str(),
            " MB VRAM",
        ),
    );
    settings.push(concat2("Network: ", profile.network.as_str()));
    settings.push("Audio output: enabled".to_owned());
    settings.push(concat2("Storage: ", profile.storage_controller.as_str()));
    assert(model::texts(settings@) =~= settings_of(profile@));
    settings
}

// ---- Resources -------------------------------------------------------------------------

pub open spec fn at_least(a: int, b: int) -> int {
    if a < b {
        b
    } else {
        a
    }
}

pub open spec fn at_most(a: int, b: int) -> int {
    if a > b {
        b
    } else {
        a
    }
}

/// The memory that is proposed for a machine: two fifths of the host's, between 4 and 16
/// gigabytes, and never so much that the host keeps less than 4.
pub open spec fn proposed_memory(host_memory_mb: int) -> int {
    at_most(
        at_most(at_least(host_memory_mb * 40 / 100, 4096), 16384),
        at_least(at_least(host_memory_mb - 4096, 0), 2048),
    )
}

/// The processors that are proposed for a machine: half of the host's, between two and eight,
/// and never all of them.
pub open spec fn proposed_cpus(host_cpus: int) -> int {
    at_most(at_most(at_least(host_cpus / 2, 2), 8), at_least(host_cpus - 1, 1))
}

/// The machine that is proposed for a host.
pub open spec fn proposal(
    host_memory_mb: u64,
    host_cpus: u32,
    profiles: Seq<ManagedWindowsVmProfileView>,
    locale: Option<Text>,
) -> VmCreationProposalView {
    VmCreationProposalView {
        host_memory_mb,
        host_logical_cpus: host_cpus,
        memory_mb: proposed_memory(host_memory_mb as int) as u64,
        cpus: proposed_cpus(host_cpus as int) as u32,
        disk_gb: 72,
        default_windows_version: ManagedWindowsVersion::Windows10,
        profiles,
        installation_defaults: install_config::install_defaults(locale),
    }
}

/// The machine that is proposed for a host.
pub fn creation_proposal(
    host_memory_mb: u64,
    host_cpus: u32,
    profiles: Vec<ManagedWindowsVmProfile>,
    locale: Option<&str>,
) -> (r: VmCreationProposal)
    requires
        host_memory_mb * 40 <= u64::MAX,
    ensures
        r@ == proposal(
            host_memory_mb,
            host_cpus,
            duplicate::views(profiles@),
            model::opt_str(locale),
        ),
{
    let share: u64 = host_memory_mb * 40 / 100;
    let raised: u64 = if share < 4096 {
        4096
    } else {
        share
    };
    let wanted: u64 = if raised > 16384 {
        16384
    } else {
        raised
    };
    let spare: u64 = if host_memory_mb < 4096 {
        0
    } else {
        host_memory_mb - 4096
    };
    let limit: u64 = if spare < 2048 {
        2048
    } else {
        spare
    };
    let memory_mb: u64 = if wanted > limit {
        limit
    } else {
        wanted
    };
    let half: u32 = host_cpus / 2;
    let raised_cpus: u32 = if half < 2 {
        2
    } else {
        half
    };
    let wanted_cpus: u32 = if raised_cpus > 8 {
        8
    } else {
        raised_cpus
    };
    let limit_cpus: u32 = if host_cpus < 2 {
        1
    } else {
        host_cpus - 1
    };
    let cpus: u32 = if wanted_cpus > limit_cpus {
        limit_cpus
    } else {
        wanted_cpus
    };
    VmCreationProposal {
        host_memory_mb,
        host_logical_cpus: host_cpus,
        memory_mb,
        cpus,
        disk_gb: 72,
        default_windows_version: ManagedWindowsVersion::Windows10,
        profiles,
        installation_defaults: host_windows_install_defaults(locale),
    }
}

/// That a machine's resources are enough, and leave enough to the host.
pub open spec fn resources_check(
    memory_mb: int,
    cpus: int,
    disk_gb: int,
    host_memory_mb: int,
    host_cpus: int,
) -> Result<(), Text> {
    let most_memory = at_least(host_memory_mb - 4096, 0);
    let most_cpus = at_least(host_cpus - 1, 1);
    if memory_mb < 2048 || cpus == 0 || disk_gb < 32 {
        Err("VM resource values are below safe minimums"@)
    } else if memory_mb > most_memory || cpus > most_cpus {
        Err(
            "requested resources do not leave the host reserve (maximum "@ + model::decimal(
                most_memory as nat,
            ) + " MB and "@ + model::decimal(most_cpus as nat) + " CPUs)"@,
        )
    } else if disk_gb > 2048 {
        Err("virtual disk size exceeds the 2048 GB safety limit"@)
    } else {
        Ok(())
    }
}

/// That a machine's resources are enough, and leave enough to the host.
pub fn validate_resources(request: &VmCreationRequest, host_memory_mb: u64, host_cpus: u32) -> (r:
    Result<(), String>)
    ensures
        model::with_message(r) == resources_check(
            request.memory_mb as int,
            request.cpus as int,
            request.disk_gb as int,
            host_memory_mb as int,
            host_cpus as int,
        ),
{
    if request.memory_mb < 2048 || request.cpus == 0 || request.disk_gb < 32 {
        return Err("VM resource values are below safe minimums".to_owned());
    }
    let most_memory: u64 = if host_memory_mb < 4096 {
        0
    } else {
        host_memory_mb - 4096
    };
    let most_cpus: u32 = if host_cpus < 2 {
        1
    } else {
        host_cpus - 1
    };
    if request.memory_mb > most_memory || request.cpus > most_cpus {
        return Err(
            concat5(
                "requested resources do not leave the host reserve (maximum ",
                number_text(most_memory).as_str(),
                " MB and ",
                number_text(most_cpus as u64).as_str(),
                " CPUs)",
            ),
        );
    }
    if request.disk_gb > 2048 {
        return Err("virtual disk size exceeds the 2048 GB safety limit".to_owned());
    }
    Ok(())
}

// ---- Programs --------------------------------------------------------------------------

/// A creation on its way: the world, and what has been made so far.
#[verifier::ext_equal]
pub struct Build {
    pub w: Run,
    pub made: CreationTransactionView,
}

/// What a creation is given.
#[verifier::ext_equal]
pub struct Order {
    pub request: VmCreationRequestView,
    pub host_memory_mb: u64,
    pub host_cpus: u32,
    pub iso: IsoInspectionView,
    pub additions_iso: Option<Text>,
}

pub open spec fn failed_at(step: Text, message: Text) -> StepFailureView {
    StepFailureView { step, message }
}

pub open spec fn success_entry(step: Text, detail: Text) -> VmCreationLogEntryView {
    VmCreationLogEntryView { step, outcome: "success"@, detail }
}

pub open spec fn error_entry(step: Text, detail: Text) -> VmCreationLogEntryView {
    VmCreationLogEntryView { step, outcome: "error"@, detail }
}

pub open spec fn logged(build: Build, entry: VmCreationLogEntryView) -> Build {
    Build {
        made: CreationTransactionView { logs: build.made.logs.push(entry), ..build.made },
        ..build
    }
}

/// One command of a creation.
pub open spec fn step_p(build: Build, step: Text, arguments: Seq<Text>) -> (
    Build,
    Result<VBoxOutputView, StepFailureView>,
) {
    let (w, answer) = service::checked_p(build.w, arguments);
    let after = Build { w, ..build };
    match answer {
        Ok(output) => (
            logged(
                after,
                success_entry(
                    step,
                    "VBoxManage accepted "@ + model::decimal(arguments.len()) + " argument(s)"@,
                ),
            ),
            Ok(output),
        ),
        Err(message) => (logged(after, error_entry(step, message)), Err(failed_at(step, message))),
    }
}

/// The profiles of the Windows versions that VirtualBox knows.
pub open spec fn profiles_p(w: Run, additions_iso: Option<Text>) -> (
    Run,
    Result<Seq<ManagedWindowsVmProfileView>, Text>,
) {
    match service::checked_p(w, seq!["list"@, "ostypes"@]) {
        (w1, Err(message)) => (w1, Err(message)),
        (w1, Ok(output)) => {
            let records = os_types(output.stdout);
            (
                w1,
                match os_for(records, ManagedWindowsVersion::Windows10) {
                    Err(message) => Err(message),
                    Ok(ten) => match os_for(records, ManagedWindowsVersion::Windows11) {
                        Err(message) => Err(message),
                        Ok(eleven) => Ok(
                            seq![
                                profile_of(
                                    ManagedWindowsVersion::Windows10,
                                    ten,
                                    SecureBootStatus::NotRequired,
                                    additions_iso,
                                ),
                                profile_of(
                                    ManagedWindowsVersion::Windows11,
                                    eleven,
                                    SecureBootStatus::WillConfigure,
                                    additions_iso,
                                ),
                            ],
                        ),
                    },
                },
            )
        },
    }
}

/// The machine that is proposed for a host.
pub open spec fn proposal_p(
    w: Run,
    host_resources: Result<(u64, u32), Text>,
    locale: Option<Text>,
    additions_iso: Option<Text>,
) -> (Run, Result<VmCreationProposalView, Text>) {
    match host_resources {
        Err(message) => (w, Err(message)),
        Ok((host_memory_mb, host_cpus)) => match profiles_p(w, additions_iso) {
            (w1, Err(message)) => (w1, Err(message)),
            (w1, Ok(profiles)) => (
                w1,
                Ok(proposal(host_memory_mb, host_cpus, profiles, locale)),
            ),
        },
    }
}

/// The profile of a Windows version.
pub open spec fn profile_p(
    w: Run,
    version: ManagedWindowsVersion,
    additions_iso: Option<Text>,
) -> (Run, Result<ManagedWindowsVmProfileView, Text>) {
    match profiles_p(w, additions_iso) {
        (w1, Err(message)) => (w1, Err(message)),
        (w1, Ok(profiles)) => (
            w1,
            Ok(
                match version {
                    ManagedWindowsVersion::Windows10 => profiles[0],
                    ManagedWindowsVersion::Windows11 => profiles[1],
                },
            ),
        ),
    }
}

/// What speaks against a creation before VirtualBox is asked anything.
pub open spec fn order_check(order: Order) -> Result<(), StepFailureView> {
    let request = order.request;
    if model::trimmed(request.name).len() == 0 {
        Err(failed_at("validate-request"@, "VM name is required"@))
    } else {
        match iso_check(request.iso_path, order.iso) {
            Err(message) => Err(failed_at("validate-windows-iso"@, message)),
            Ok(()) => match resources_check(
                request.memory_mb as int,
                request.cpus as int,
                request.disk_gb as int,
                order.host_memory_mb as int,
                order.host_cpus as int,
            ) {
                Err(message) => Err(failed_at("validate-resources"@, message)),
                Ok(()) => match install_config::config_check(request.installation) {
                    Err(message) => Err(failed_at("validate-installation"@, message)),
                    Ok(()) => if request.installation.install_guest_additions
                        && order.additions_iso is None {
                        Err(
                            failed_at(
                                "locate-guest-additions"@,
                                "Guest Additions installation was requested but VBoxGuestAdditions.iso was not found"@,
                            ),
                        )
                    } else {
                        Ok(())
                    },
                },
            },
        }
    }
}

/// The first machine at or after `from` with a name, up to ASCII case.
pub open spec fn named_from(machines: Seq<VirtualMachineView>, name: Text, from: int) -> Option<
    VirtualMachineView,
>
    decreases machines.len() - from,
{
    if from < 0 || from >= machines.len() {
        None
    } else if model::same_ignoring_case(machines[from].name, name) {
        Some(machines[from])
    } else {
        named_from(machines, name, from + 1)
    }
}

/// Makes sure that no machine has the name, and gives the machines that there are.
pub open spec fn check_existing_p(build: Build, name: Text) -> (
    Build,
    Result<Seq<VirtualMachineView>, StepFailureView>,
) {
    let step = "check-existing-vms"@;
    match service::list_vms_p(build.w) {
        (w, Err(message)) => (Build { w, ..build }, Err(failed_at(step, message))),
        (w, Ok(list)) => {
            let after = Build { w, ..build };
            if list.warnings.len() > 0 {
                (
                    after,
                    Err(
                        failed_at(
                            step,
                            "VM enumeration was incomplete, so collision safety cannot be proven: "@
                                + model::joined(list.warnings, "; "@),
                        ),
                    ),
                )
            } else {
                match named_from(list.machines, name, 0) {
                    Some(vm) => (
                        after,
                        Err(
                            failed_at(
                                step,
                                "a VM named '"@ + vm.name + "' already exists with UUID "@ + vm.uuid
                                    + "; it will not be modified"@,
                            ),
                        ),
                    ),
                    None => (
                        logged(after, success_entry(step, "no name collision detected"@)),
                        Ok(list.machines),
                    ),
                }
            }
        },
    }
}

/// The identifier in the first line at or after `from` that states one.
pub open spec fn uuid_line_from(lines: Seq<Text>, from: int) -> Option<Text>
    decreases lines.len() - from,
{
    if from < 0 || from >= lines.len() {
        None
    } else if model::pieces(lines[from], "UUID:"@).len() > 1 {
        Some(model::trimmed(model::pieces(lines[from], "UUID:"@)[1]))
    } else {
        uuid_line_from(lines, from + 1)
    }
}

/// The identifier of a machine that was just registered.
pub open spec fn created_uuid(output: Text) -> Option<Text> {
    match text_map::lookup(machine_info::machine_fields(output), "UUID"@) {
        Some(uuid) => Some(uuid),
        None => uuid_line_from(model::lines(output), 0),
    }
}

/// Whether one of some machines has an identifier, up to ASCII case.
pub open spec fn uuid_taken(machines: Seq<VirtualMachineView>, uuid: Text) -> bool {
    exists|i: int|
        0 <= i < machines.len() && model::same_ignoring_case(
            model::lower((#[trigger] machines[i]).uuid),
            uuid,
        )
}

/// Registers a machine, and takes note of how it can be named. Its name is known to be its own;
/// its identifier is used only if no other machine had it.
pub open spec fn register_p(
    build: Build,
    name: Text,
    profile: ManagedWindowsVmProfileView,
    existing: Seq<VirtualMachineView>,
) -> (Build, Result<Text, StepFailureView>) {
    match step_p(
        build,
        "register-vm"@,
        seq![
            "createvm"@,
            "--name"@,
            name,
            "--ostype"@,
            profile.virtual_box_os_type_id,
            "--platform-architecture"@,
            "x86"@,
            "--register"@,
        ],
    ) {
        (after, Err(failure)) => (after, Err(failure)),
        (after, Ok(output)) => {
            let named = Build {
                made: CreationTransactionView { vm_identifier: Some(name), ..after.made },
                ..after
            };
            match created_uuid(output.stdout) {
                None => (
                    named,
                    Err(
                        failed_at(
                            "parse-created-vm"@,
                            "VBoxManage createvm returned no VM UUID"@,
                        ),
                    ),
                ),
                Some(uuid) => if uuid_taken(existing, uuid) {
                    (
                        named,
                        Err(
                            failed_at(
                                "validate-created-vm-uuid"@,
                                "VirtualBox returned pre-existing VM UUID "@ + uuid,
                            ),
                        ),
                    )
                } else {
                    (
                        Build {
                            made: CreationTransactionView {
                                vm_uuid: Some(uuid),
                                vm_identifier: Some(uuid),
                                ..named.made
                            },
                            ..named
                        },
                        Ok(uuid),
                    )
                },
            }
        },
    }
}

/// The command that gives a machine its hardware.
pub open spec fn hardware_arguments(
    vm_id: Text,
    request: VmCreationRequestView,
    tpm: bool,
) -> Seq<Text> {
    seq![
        "modifyvm"@,
        vm_id,
        "--memory"@,
        model::decimal(request.memory_mb as nat),
        "--cpus"@,
        model::decimal(request.cpus as nat),
        "--firmware"@,
        if request.windows_version == ManagedWindowsVersion::Windows11 {
            "efi"@
        } else {
            "bios"@
        },
    ] + (if tpm {
        seq!["--tpm-type"@, "2.0"@]
    } else {
        seq![]
    }) + seq![
        "--ioapic"@,
        "on"@,
        "--usb-xhci"@,
        "on"@,
        "--graphicscontroller"@,
        "vboxsvga"@,
        "--vram"@,
        "128"@,
        "--nic1"@,
        "nat"@,
        "--audio-enabled"@,
        "on"@,
        "--audio-in"@,
        "off"@,
        "--audio-out"@,
        "on"@,
        "--boot1"@,
        "dvd"@,
        "--boot2"@,
        "disk"@,
        "--boot3"@,
        "none"@,
        "--boot4"@,
        "none"@,
    ]
}

/// Sets secure boot up: the variable store, Microsoft's signatures, the platform key, and only
/// then the switch.
pub open spec fn secure_boot_p(build: Build, vm_id: Text) -> (Build, Result<(), StepFailureView>) {
    match step_p(
        build,
        "initialize-uefi-variable-store"@,
        seq!["modifynvram"@, vm_id, "inituefivarstore"@],
    ) {
        (b1, Err(failure)) => (b1, Err(failure)),
        (b1, Ok(_)) => match step_p(
            b1,
            "enroll-microsoft-secure-boot-signatures"@,
            seq!["modifynvram"@, vm_id, "enrollmssignatures"@],
        ) {
            (b2, Err(failure)) => (b2, Err(failure)),
            (b2, Ok(_)) => match step_p(
                b2,
                "enroll-virtualbox-platform-key"@,
                seq!["modifynvram"@, vm_id, "enrollorclpk"@],
            ) {
                (b3, Err(failure)) => (b3, Err(failure)),
                (b3, Ok(_)) => match step_p(
                    b3,
                    "enable-secure-boot"@,
                    seq!["modifynvram"@, vm_id, "secureboot"@, "--enable"@],
                ) {
                    (b4, Err(failure)) => (b4, Err(failure)),
                    (b4, Ok(_)) => (b4, Ok(())),
                },
            },
        },
    }
}

/// Gives a machine its hardware, and secure boot where its profile needs it.
pub open spec fn configure_p(
    build: Build,
    request: VmCreationRequestView,
    vm_id: Text,
    profile: ManagedWindowsVmProfileView,
) -> (Build, Result<ManagedWindowsVmProfileView, StepFailureView>) {
    match step_p(
        build,
        "configure-managed-windows-hardware"@,
        hardware_arguments(vm_id, request, profile.tpm_required),
    ) {
        (b1, Err(failure)) => (b1, Err(failure)),
        (b1, Ok(_)) => if !profile.secure_boot_required {
            (b1, Ok(profile))
        } else {
            match secure_boot_p(b1, vm_id) {
                (b2, Err(failure)) => (b2, Err(failure)),
                (b2, Ok(())) => (
                    b2,
                    Ok(
                        ManagedWindowsVmProfileView {
                            secure_boot: SecureBootStatus::Configured,
                            ..profile
                        },
                    ),
                ),
            }
        },
    }
}

/// Where the system disk of a machine goes: next to the machine's configuration.
pub open spec fn disk_place(output: Text) -> Result<Text, StepFailureView> {
    match text_map::lookup(machine_info::machine_fields(output), "CfgFile"@) {
        None => Err(
            failed_at(
                "inspect-managed-vm-location"@,
                "new VM has no configuration file path"@,
            ),
        ),
        Some(file) => match paths::parent(file) {
            None => Err(
                failed_at(
                    "derive-system-disk-path"@,
                    "VM configuration has no parent directory"@,
                ),
            ),
            Some(directory) => Ok(paths::joined(directory, "Barnen-system.vdi"@)),
        },
    }
}

/// The arguments that attach a medium.
pub open spec fn storage_arguments(
    vm_id: Text,
    port: Text,
    kind: Text,
    medium: Text,
) -> Seq<Text> {
    seq![
        "storageattach"@,
        vm_id,
        "--storagectl"@,
        "SATA"@,
        "--port"@,
        port,
        "--device"@,
        "0"@,
        "--type"@,
        kind,
        "--medium"@,
        medium,
    ]
}

/// Creates the system disk of a machine, and takes note of it.
pub open spec fn create_disk_p(build: Build, vm_id: Text, disk_gb: int) -> (
    Build,
    Result<Text, StepFailureView>,
) {
    match step_p(
        build,
        "inspect-managed-vm-location"@,
        seq!["showvminfo"@, vm_id, "--machinereadable"@],
    ) {
        (b1, Err(failure)) => (b1, Err(failure)),
        (b1, Ok(output)) => match disk_place(output.stdout) {
            Err(failure) => (b1, Err(failure)),
            Ok(disk) => {
                let b2 = Build {
                    made: CreationTransactionView { disk_path: Some(disk), ..b1.made },
                    ..b1
                };
                if disk_gb * 1024 > u64::MAX {
                    (b2, Err(failed_at("derive-system-disk-size"@, "disk size overflow"@)))
                } else {
                    match step_p(
                        b2,
                        "create-system-disk"@,
                        seq![
                            "createmedium"@,
                            "disk"@,
                            "--filename"@,
                            disk,
                            "--size"@,
                            model::decimal((disk_gb * 1024) as nat),
                            "--format"@,
                            "VDI"@,
                        ],
                    ) {
                        (b3, Err(failure)) => (b3, Err(failure)),
                        (b3, Ok(_)) => (
                            Build {
                                made: CreationTransactionView { disk_created: true, ..b3.made },
                                ..b3
                            },
                            Ok(disk),
                        ),
                    }
                }
            },
        },
    }
}

/// Gives a machine its controller, its system disk and the installation image.
pub open spec fn attach_media_p(build: Build, vm_id: Text, disk: Text, iso_path: Text) -> (
    Build,
    Result<(), StepFailureView>,
) {
    match step_p(
        build,
        "create-sata-controller"@,
        seq![
            "storagectl"@,
            vm_id,
            "--name"@,
            "SATA"@,
            "--add"@,
            "sata"@,
            "--controller"@,
            "IntelAhci"@,
        ],
    ) {
        (b1, Err(failure)) => (b1, Err(failure)),
        (b1, Ok(_)) => match step_p(
            b1,
            "attach-system-disk"@,
            storage_arguments(vm_id, "0"@, "hdd"@, disk),
        ) {
            (b2, Err(failure)) => (b2, Err(failure)),
            (b2, Ok(_)) => {
                let b3 = Build {
                    made: CreationTransactionView { disk_attached: true, ..b2.made },
                    ..b2
                };
                match step_p(
                    b3,
                    "attach-windows-iso"@,
                    storage_arguments(vm_id, "1"@, "dvddrive"@, iso_path),
                ) {
                    (b4, Err(failure)) => (b4, Err(failure)),
                    (b4, Ok(_)) => (b4, Ok(())),
                }
            },
        },
    }
}

/// Everything before a machine is registered: which profile it gets, and that its name is free.
pub open spec fn prepare_p(build: Build, order: Order) -> (
    Build,
    Result<(ManagedWindowsVmProfileView, Seq<VirtualMachineView>), StepFailureView>,
) {
    let request = order.request;
    let step = "resolve-virtualbox-os-type"@;
    match order_check(order) {
        Err(failure) => (build, Err(failure)),
        Ok(()) => match profile_p(build.w, request.windows_version, order.additions_iso) {
            (w, Err(message)) => (Build { w, ..build }, Err(failed_at(step, message))),
            (w, Ok(profile)) => {
                let b1 = logged(
                    logged(
                        Build { w, ..build },
                        success_entry(
                            step,
                            profile.display_name + " uses VirtualBox OS type "@
                                + profile.virtual_box_os_type_id,
                        ),
                    ),
                    success_entry(
                        "validate-windows-iso"@,
                        "readable ISO-9660 image: "@ + request.iso_path,
                    ),
                );
                match check_existing_p(b1, model::trimmed(request.name)) {
                    (b2, Err(failure)) => (b2, Err(failure)),
                    (b2, Ok(existing)) => (b2, Ok((profile, existing))),
                }
            },
        },
    }
}

/// Everything after a machine was registered.
pub open spec fn furnish_p(
    build: Build,
    request: VmCreationRequestView,
    vm_id: Text,
    profile: ManagedWindowsVmProfileView,
) -> (Build, Result<VmCreationResultView, StepFailureView>) {
    match configure_p(build, request, vm_id, profile) {
        (b1, Err(failure)) => (b1, Err(failure)),
        (b1, Ok(configured)) => match create_disk_p(b1, vm_id, request.disk_gb as int) {
            (b2, Err(failure)) => (b2, Err(failure)),
            (b2, Ok(disk)) => match attach_media_p(b2, vm_id, disk, request.iso_path) {
                (b3, Err(failure)) => (b3, Err(failure)),
                (b3, Ok(())) => {
                    let (w, answer) = service::inspect_vm_p(b3.w, vm_id);
                    let b4 = Build { w, ..b3 };
                    match answer {
                        Err(message) => (b4, Err(failed_at("verify-created-vm"@, message))),
                        Ok(vm) => (
                            b4,
                            Ok(
                                VmCreationResultView {
                                    vm,
                                    changed_settings: settings_of(configured),
                                    profile: configured,
                                    logs: b4.made.logs,
                                },
                            ),
                        ),
                    }
                },
            },
        },
    }
}

/// Looks for the Guest Additions' image next to `VBoxManage`.
pub open spec fn additions_iso_p(w: Run, vbox_manage_path: Text) -> (Run, Option<Text>) {
    match additions_path(vbox_manage_path) {
        None => (w, None),
        Some(path) => {
            let (w1, reply) = journal::ask(w, Request::IsFile(path));
            (
                w1,
                if reply->Flag_0 {
                    Some(path)
                } else {
                    None
                },
            )
        },
    }
}

/// The steps of a creation.
pub open spec fn create_steps_p(build: Build, order: Order) -> (
    Build,
    Result<VmCreationResultView, StepFailureView>,
) {
    match prepare_p(build, order) {
        (b1, Err(failure)) => (b1, Err(failure)),
        (b1, Ok((profile, existing))) => match register_p(
            b1,
            model::trimmed(order.request.name),
            profile,
            existing,
        ) {
            (b2, Err(failure)) => (b2, Err(failure)),
            (b2, Ok(vm_id)) => furnish_p(b2, order.request, vm_id, profile),
        },
    }
}

/// One command that undoes something.
pub open spec fn undo_p(w: Run, step: Text, arguments: Seq<Text>) -> (Run, VmCreationLogEntryView) {
    match service::checked_p(w, arguments) {
        (w1, Ok(_)) => (
            w1,
            success_entry(step, "removed only resource owned by this creation operation"@),
        ),
        (w1, Err(message)) => (w1, error_entry(step, message)),
    }
}

/// Undoes a creation: deletes a disk that no machine has yet, then the machine.
pub open spec fn rollback_creation_p(w: Run, made: CreationTransactionView) -> (
    Run,
    Seq<VmCreationLogEntryView>,
) {
    let (w1, first) = if made.disk_created && !made.disk_attached {
        match made.disk_path {
            Some(path) => {
                let (after, entry) = undo_p(
                    w,
                    "delete-unattached-managed-disk"@,
                    seq!["closemedium"@, "disk"@, path, "--delete"@],
                );
                (after, seq![entry])
            },
            None => (w, seq![]),
        }
    } else {
        (w, seq![])
    };
    match made.vm_identifier {
        Some(identifier) => {
            let (w2, entry) = undo_p(
                w1,
                "delete-managed-vm"@,
                seq!["unregistervm"@, identifier, "--delete"@],
            );
            (w2, first.push(entry))
        },
        None => (w1, first),
    }
}

/// Nothing made yet.
pub open spec fn nothing_made() -> CreationTransactionView {
    CreationTransactionView {
        vm_identifier: None,
        vm_uuid: None,
        disk_path: None,
        disk_created: false,
        disk_attached: false,
        logs: seq![],
    }
}

/// Creates a machine. Where that fails, what was made is undone.
pub open spec fn create_p(w: Run, order: Order) -> (
    Run,
    Result<VmCreationResultView, VmCreationFailureView>,
) {
    match create_steps_p(Build { w, made: nothing_made() }, order) {
        (build, Ok(result)) => (build.w, Ok(result)),
        (build, Err(failure)) => {
            let (w1, rollback_actions) = rollback_creation_p(build.w, build.made);
            (
                w1,
                Err(
                    VmCreationFailureView {
                        failed_step: failure.step,
                        message: failure.message,
                        logs: build.made.logs,
                        rollback_actions,
                    },
                ),
            )
        },
    }
}

/// Creates a machine, where it was found out what the host has.
pub open spec fn create_on_host_p(
    w: Run,
    host_resources: Result<(u64, u32), Text>,
    request: VmCreationRequestView,
    iso: IsoInspectionView,
    additions_iso: Option<Text>,
) -> (Run, Result<VmCreationResultView, VmCreationFailureView>) {
    match host_resources {
        Err(message) => (
            w,
            Err(
                VmCreationFailureView {
                    failed_step: "host-resource-validation"@,
                    message,
                    logs: seq![],
                    rollback_actions: seq![],
                },
            ),
        ),
        Ok((host_memory_mb, host_cpus)) => create_p(
            w,
            Order { request, host_memory_mb, host_cpus, iso, additions_iso },
        ),
    }
}

// ---- The service -----------------------------------------------------------------------

/// The view of a creation's result.
pub open spec fn creation_result(r: Result<VmCreationResult, VmCreationFailure>) -> Result<
    VmCreationResultView,
    VmCreationFailureView,
> {
    match r {
        Ok(result) => Ok(result@),
        Err(failure) => Err(failure@),
    }
}

spec fn step_result<T: View>(r: Result<T, StepFailure>) -> Result<T::V, StepFailureView> {
    match r {
        Ok(value) => Ok(value@),
        Err(failure) => Err(failure@),
    }
}

spec fn unit_result(r: Result<(), StepFailure>) -> Result<(), StepFailureView> {
    match r {
        Ok(()) => Ok(()),
        Err(failure) => Err(failure@),
    }
}

spec fn prepared_result(
    r: Result<(ManagedWindowsVmProfile, Vec<VirtualMachine>), StepFailure>,
) -> Result<(ManagedWindowsVmProfileView, Seq<VirtualMachineView>), StepFailureView> {
    match r {
        Ok((profile, existing)) => Ok((profile@, duplicate::views(existing@))),
        Err(failure) => Err(failure@),
    }
}

spec fn machines_result(r: Result<Vec<VirtualMachine>, StepFailure>) -> Result<
    Seq<VirtualMachineView>,
    StepFailureView,
> {
    match r {
        Ok(existing) => Ok(duplicate::views(existing@)),
        Err(failure) => Err(failure@),
    }
}

/// The view of what a host has, or of why that is not known.
pub open spec fn resources_view(r: Result<(u64, u32), String>) -> Result<(u64, u32), Text> {
    match r {
        Ok(resources) => Ok(resources),
        Err(message) => Err(message@),
    }
}

/// The view of a proposal, or of why there is none.
pub open spec fn proposal_result(r: Result<VmCreationProposal, String>) -> Result<
    VmCreationProposalView,
    Text,
> {
    match r {
        Ok(found) => Ok(found@),
        Err(message) => Err(message@),
    }
}

/// The view of profiles, or of why there are none.
pub open spec fn profiles_result(r: Result<Vec<ManagedWindowsVmProfile>, String>) -> Result<
    Seq<ManagedWindowsVmProfileView>,
    Text,
> {
    match r {
        Ok(profiles) => Ok(duplicate::views(profiles@)),
        Err(message) => Err(message@),
    }
}

/// The view of a profile, or of why there is none.
pub open spec fn profile_result(r: Result<ManagedWindowsVmProfile, String>) -> Result<
    ManagedWindowsVmProfileView,
    Text,
> {
    match r {
        Ok(profile) => Ok(profile@),
        Err(message) => Err(message@),
    }
}

fn step_error(step: &str, message: String) -> (r: StepFailure)
    ensures
        r@ == failed_at(step@, message@),
{
    StepFailure { step: step.to_owned(), message }
}

fn success_log(step: &str, detail: String) -> (r: VmCreationLogEntry)
    ensures
        r@ == success_entry(step@, detail@),
{
    VmCreationLogEntry { step: step.to_owned(), outcome: "success".to_owned(), detail }
}

fn error_log(step: &str, detail: String) -> (r: VmCreationLogEntry)
    ensures
        r@ == error_entry(step@, detail@),
{
    VmCreationLogEntry { step: step.to_owned(), outcome: "error".to_owned(), detail }
}

fn push_log(transaction: &mut CreationTransaction, entry: VmCreationLogEntry)
    ensures
        final(transaction)@ == (CreationTransactionView {
            logs: old(transaction)@.logs.push(entry@),
            ..old(transaction)@
        }),
{
    transaction.logs.push(entry);
    assert(transaction@.logs =~= old(transaction)@.logs.push(entry@));
}

fn check_order(
    request: &VmCreationRequest,
    host_memory_mb: u64,
    host_cpus: u32,
    iso: &IsoInspection,
    additions_iso: Option<&str>,
) -> (r: Result<(), StepFailure>)
    ensures
        unit_result(r) == order_check(
            Order {
                request: request@,
                host_memory_mb,
                host_cpus,
                iso: iso@,
                additions_iso: model::opt_str(additions_iso),
            },
        ),
{
    let name = trim(request.name.as_str());
    if name.as_str().is_empty() {
        return Err(step_error("validate-request", "VM name is required".to_owned()));
    }
    if let Err(message) = validate_iso(request.iso_path.as_str(), iso) {
        return Err(step_error("validate-windows-iso", message));
    }
    if let Err(message) = validate_resources(request, host_memory_mb, host_cpus) {
        return Err(step_error("validate-resources", message));
    }
    if let Err(message) = validate_windows_install_config(&request.installation) {
        return Err(step_error("validate-installation", message));
    }
    if request.installation.install_guest_additions && additions_iso.is_none() {
        return Err(
            step_error(
                "locate-guest-additions",
                "Guest Additions installation was requested but VBoxGuestAdditions.iso was not found".to_owned(),
            ),
        );
    }
    Ok(())
}

fn find_named<'a>(machines: &'a Vec<VirtualMachine>, name: &str) -> (r: Option<&'a VirtualMachine>)
    ensures
        match r {
            Some(vm) => named_from(duplicate::views(machines@), name@, 0) == Some(vm@),
            None => named_from(duplicate::views(machines@), name@, 0) is None,
        },
{
    let ghost all = duplicate::views(machines@);
    let mut i: usize = 0;
    while i < machines.len()
        invariant
            i <= machines@.len(),
            all == duplicate::views(machines@),
            named_from(all, name@, 0) == named_from(all, name@, i as int),
        decreases machines.len() - i,
    {
        assert(all[i as int] == machines@[i as int]@);
        if same_any_case(machines[i].name.as_str(), name) {
            return Some(&machines[i]);
        }
        i += 1;
    }
    None
}

fn is_uuid_taken(machines: &Vec<VirtualMachine>, uuid: &str) -> (r: bool)
    ensures
        r == uuid_taken(duplicate::views(machines@), uuid@),
{
    let ghost all = duplicate::views(machines@);
    let mut i: usize = 0;
    while i < machines.len()
        invariant
            i <= machines@.len(),
            all == duplicate::views(machines@),
            forall|k: int|
                0 <= k < i ==> !model::same_ignoring_case(
                    model::lower((#[trigger] all[k]).uuid),
                    uuid@,
                ),
        decreases machines.len() - i,
    {
        assert(all[i as int] == machines@[i as int]@);
        let lower = to_lower(machines[i].uuid.as_str());
        if same_any_case(lower.as_str(), uuid) {
            return true;
        }
        i += 1;
    }
    false
}

fn find_created_uuid(output: &str) -> (r: Option<String>)
    ensures
        model::opt_text(r) == created_uuid(output@),
{
    let fields = parse_machine_readable(output);
    if let Some(uuid) = fields.get("UUID") {
        return Some(uuid.clone());
    }
    let lines = lines_of(output);
    let ghost all = model::texts(lines@);
    let mut i: usize = 0;
    while i < lines.len()
        invariant
            i <= lines@.len(),
            all == model::texts(lines@),
            created_uuid(output@) == uuid_line_from(all, i as int),
        decreases lines.len() - i,
    {
        assert(all[i as int] == lines@[i as int]@);
        proof {
            reveal_strlit("UUID:");
        }
        let parts = split(lines[i].as_str(), "UUID:");
        let ghost pieces = model::pieces(all[i as int], "UUID:"@);
        assert(model::texts(parts@) == pieces);
        if parts.len() > 1 {
            assert(pieces[1] == parts@[1]@);
            return Some(trim(parts[1].as_str()));
        }
        i += 1;
    }
    None
}

fn register_command(name: &str, os_type: &str) -> (r: Vec<String>)
    ensures
        model::texts(r@) == seq![
            "createvm"@,
            "--name"@,
            name@,
            "--ostype"@,
            os_type@,
            "--platform-architecture"@,
            "x86"@,
            "--register"@,
        ],
{
    let mut command: Vec<String> = Vec::new();
    command.push("createvm".to_owned());
    command.push("--name".to_owned());
    command.push(name.to_owned());
    command.push("--ostype".to_owned());
    command.push(os_type.to_owned());
    command.push("--platform-architecture".to_owned());
    command.push("x86".to_owned());
    command.push("--register".to_owned());
    assert(model::texts(command@) =~= seq![
        "createvm"@,
        "--name"@,
        name@,
        "--ostype"@,
        os_type@,
        "--platform-architecture"@,
        "x86"@,
        "--register"@,
    ]);
    command
}

fn push_pair(command: &mut Vec<String>, name: &str, value: &str)
    ensures
        model::texts(final(command)@) == model::texts(old(command)@) + seq![name@, value@],
{
    command.push(name.to_owned());
    command.push(value.to_owned());
    assert(model::texts(command@) =~= model::texts(old(command)@) + seq![name@, value@]);
}

fn hardware_command(vm_id: &str, request: &VmCreationRequest, tpm: bool) -> (r: Vec<String>)
    ensures
        model::texts(r@) == hardware_arguments(vm_id@, request@, tpm),
{
    let firmware = if request.windows_version == ManagedWindowsVersion::Windows11 {
        "efi"
    } else {
        "bios"
    };
    let memory = number_text(request.memory_mb);
    let cpus = number_text(request.cpus as u64);
    let mut command: Vec<String> = Vec::new();
    push_pair(&mut command, "modifyvm", vm_id);
    push_pair(&mut command, "--memory", memory.as_str());
    push_pair(&mut command, "--cpus", cpus.as_str());
    push_pair(&mut command, "--firmware", firmware);
    if tpm {
        push_pair(&mut command, "--tpm-type", "2.0");
    }
    push_pair(&mut command, "--ioapic", "on");
    push_pair(&mut command, "--usb-xhci", "on");
    push_pair(&mut command, "--graphicscontroller", "vboxsvga");
    push_pair(&mut command, "--vram", "128");
    push_pair(&mut command, "--nic1", "nat");
    push_pair(&mut command, "--audio-enabled", "on");
    push_pair(&mut command, "--audio-in", "off");
    push_pair(&mut command, "--audio-out", "on");
    push_pair(&mut command, "--boot1", "dvd");
    push_pair(&mut command, "--boot2", "disk");
    push_pair(&mut command, "--boot3", "none");
    push_pair(&mut command, "--boot4", "none");
    assert(model::texts(command@) =~= hardware_arguments(vm_id@, request@, tpm));
    command
}

fn storage_command(vm_id: &str, port: &str, kind: &str, medium: &str) -> (r: Vec<String>)
    ensures
        model::texts(r@) == storage_arguments(vm_id@, port@, kind@, medium@),
{
    let mut command: Vec<String> = Vec::new();
    push_pair(&mut command, "storageattach", vm_id);
    push_pair(&mut command, "--storagectl", "SATA");
    push_pair(&mut command, "--port", port);
    push_pair(&mut command, "--device", "0");
    push_pair(&mut command, "--type", kind);
    push_pair(&mut command, "--medium", medium);
    assert(model::texts(command@) =~= storage_arguments(vm_id@, port@, kind@, medium@));
    command
}

fn disk_command(disk: &str, size: &str) -> (r: Vec<String>)
    ensures
        model::texts(r@) == seq![
            "createmedium"@,
            "disk"@,
            "--filename"@,
            disk@,
            "--size"@,
            size@,
            "--format"@,
            "VDI"@,
        ],
{
    let mut command: Vec<String> = Vec::new();
    push_pair(&mut command, "createmedium", "disk");
    push_pair(&mut command, "--filename", disk);
    push_pair(&mut command, "--size", size);
    push_pair(&mut command, "--format", "VDI");
    assert(model::texts(command@) =~= seq![
        "createmedium"@,
        "disk"@,
        "--filename"@,
        disk@,
        "--size"@,
        size@,
        "--format"@,
        "VDI"@,
    ]);
    command
}

fn controller_command(vm_id: &str) -> (r: Vec<String>)
    ensures
        model::texts(r@) == seq![
            "storagectl"@,
            vm_id@,
            "--name"@,
            "SATA"@,
            "--add"@,
            "sata"@,
            "--controller"@,
            "IntelAhci"@,
        ],
{
    let mut command: Vec<String> = Vec::new();
    push_pair(&mut command, "storagectl", vm_id);
    push_pair(&mut command, "--name", "SATA");
    push_pair(&mut command, "--add", "sata");
    push_pair(&mut command, "--controller", "IntelAhci");
    assert(model::texts(command@) =~= seq![
        "storagectl"@,
        vm_id@,
        "--name"@,
        "SATA"@,
        "--add"@,
        "sata"@,
        "--controller"@,
        "IntelAhci"@,
    ]);
    command
}

fn find_disk_place(output: &str) -> (r: Result<String, StepFailure>)
    ensures
        step_result(r) == disk_place(output@),
{
    let fields = parse_machine_readable(output);
    match fields.get("CfgFile") {
        None => Err(
            step_error(
                "inspect-managed-vm-location",
                "new VM has no configuration file path".to_owned(),
            ),
        ),
        Some(file) => match parent_of(file.as_str()) {
            None => Err(
                step_error(
                    "derive-system-disk-path",
                    "VM configuration has no parent directory".to_owned(),
                ),
            ),
            Some(directory) => Ok(join_path(directory.as_str(), "Barnen-system.vdi")),
        },
    }
}

impl VirtualBoxRuntimeService {
    /// Looks for the Guest Additions' image next to `VBoxManage`.
    pub fn guest_additions_iso_next_to<H: InstallationHost>(
        &mut self,
        host: &mut H,
        vbox_manage_path: &str,
    ) -> (r: Option<String>)
        ensures
            final(host).answers() == old(host).answers(),
            journal::runs_with(
                *old(self),
                *final(self),
                service::answers_with(old(self).answers(), old(host).answers()),
                |w: Run| additions_iso_p(w, vbox_manage_path@),
                model::opt_text(r),
            ),
    {
        match guest_additions_place(vbox_manage_path) {
            None => None,
            Some(path) => if self.is_file(host, path.as_str()) {
                Some(path)
            } else {
                None
            },
        }
    }

    /// The machine that is proposed for this host, where it was found out what the host has.
    pub fn current_host_creation_proposal(
        &mut self,
        host_resources: Result<(u64, u32), String>,
        locale: Option<&str>,
        guest_additions_iso: Option<&str>,
    ) -> (r: Result<VmCreationProposal, String>)
        requires
            host_resources matches Ok((host_memory_mb, _)) ==> host_memory_mb * 40 <= u64::MAX,
        ensures
            journal::runs(
                *old(self),
                *final(self),
                |w: Run|
                    proposal_p(
                        w,
                        resources_view(host_resources),
                        model::opt_str(locale),
                        model::opt_str(guest_additions_iso),
                    ),
                proposal_result(r),
            ),
    {
        let (host_memory_mb, host_cpus) = match host_resources {
            Ok(resources) => resources,
            Err(message) => {
                return Err(message);
            },
        };
        match self.supported_windows_profiles(guest_additions_iso) {
            Err(message) => Err(message),
            Ok(profiles) => Ok(creation_proposal(host_memory_mb, host_cpus, profiles, locale)),
        }
    }

    /// The profiles of the Windows versions that VirtualBox knows.
    pub fn supported_windows_profiles(&mut self, guest_additions_iso: Option<&str>) -> (r: Result<
        Vec<ManagedWindowsVmProfile>,
        String,
    >)
        ensures
            journal::runs(
                *old(self),
                *final(self),
                |w: Run| profiles_p(w, model::opt_str(guest_additions_iso)),
                profiles_result(r),
            ),
            r matches Ok(profiles) ==> profiles@.len() == 2,
    {
        let output = match self.checked(args2("list", "ostypes")) {
            Ok(output) => output,
            Err(message) => {
                return Err(message);
            },
        };
        let records = parse_virtual_box_os_types(output.stdout.as_str());
        let ten = match resolve_windows_os_type(&records, ManagedWindowsVersion::Windows10) {
            Ok(record) => record,
            Err(message) => {
                return Err(message);
            },
        };
        let eleven = match resolve_windows_os_type(&records, ManagedWindowsVersion::Windows11) {
            Ok(record) => record,
            Err(message) => {
                return Err(message);
            },
        };
        let first = windows_profile(
            ManagedWindowsVersion::Windows10,
            ten,
            SecureBootStatus::NotRequired,
            guest_additions_iso,
        );
        let second = windows_profile(
            ManagedWindowsVersion::Windows11,
            eleven,
            SecureBootStatus::WillConfigure,
            guest_additions_iso,
        );
        let profiles = vec![first, second];
        assert(duplicate::views(profiles@) =~= seq![first@, second@]);
        Ok(profiles)
    }

    /// The profile of a Windows version.
    pub(crate) fn resolve_windows_profile(
        &mut self,
        windows_version: ManagedWindowsVersion,
        guest_additions_iso: Option<&str>,
    ) -> (r: Result<ManagedWindowsVmProfile, String>)
        ensures
            journal::runs(
                *old(self),
                *final(self),
                |w: Run| profile_p(w, windows_version, model::opt_str(guest_additions_iso)),
                profile_result(r),
            ),
    {
        match self.supported_windows_profiles(guest_additions_iso) {
            Err(message) => Err(message),
            Ok(profiles) => {
                assert(duplicate::views(profiles@)[0] == profiles@[0]@);
                assert(duplicate::views(profiles@)[1] == profiles@[1]@);
                match windows_version {
                    ManagedWindowsVersion::Windows10 => Ok(profiles[0].duplicate()),
                    ManagedWindowsVersion::Windows11 => Ok(profiles[1].duplicate()),
                }
            },
        }
    }

    fn creation_step(
        &mut self,
        transaction: &mut CreationTransaction,
        step: &str,
        arguments: Vec<String>,
    ) -> (r: Result<VBoxOutput, StepFailure>)
        ensures
            journal::runs(
                *old(self),
                *final(self),
                |w: Run|
                    {
                        let (build, result) = step_p(
                            Build { w, made: old(transaction)@ },
                            step@,
                            model::texts(arguments@),
                        );
                        (build.w, (build.made, result))
                    },
                (final(transaction)@, step_result(r)),
            ),
    {
        let count: usize = arguments.len();
        assert(model::texts(arguments@).len() == count);
        match self.checked(arguments) {
            Ok(output) => {
                let detail = concat3(
                    "VBoxManage accepted ",
                    number_text(count as u64).as_str(),
                    " argument(s)",
                );
                push_log(transaction, success_log(step, detail));
                Ok(output)
            },
            Err(message) => {
                push_log(transaction, error_log(step, message.clone()));
                Err(step_error(step, message))
            },
        }
    }

    fn check_existing(&mut self, transaction: &mut CreationTransaction, name: &str) -> (r: Result<
        Vec<VirtualMachine>,
        StepFailure,
    >)
        ensures
            journal::runs(
                *old(self),
                *final(self),
                |w: Run|
                    {
                        let (build, result) = check_existing_p(
                            Build { w, made: old(transaction)@ },
                            name@,
                        );
                        (build.w, (build.made, result))
                    },
                (final(transaction)@, machines_result(r)),
            ),
    {
        let step = "check-existing-vms";
        let existing = match self.list_vms() {
            Ok(list) => list,
            Err(message) => {
                return Err(step_error(step, message));
            },
        };
        assert(model::texts(existing.warnings@).len() == existing.warnings@.len());
        if existing.warnings.len() > 0 {
            return Err(
                step_error(
                    step,
                    concat2(
                        "VM enumeration was incomplete, so collision safety cannot be proven: ",
                        join(&existing.warnings, "; ").as_str(),
                    ),
                ),
            );
        }
        if let Some(vm) = find_named(&existing.machines, name) {
            return Err(
                step_error(
                    step,
                    concat5(
                        "a VM named '",
                        vm.name.as_str(),
                        "' already exists with UUID ",
                        vm.uuid.as_str(),
                        "; it will not be modified",
                    ),
                ),
            );
        }
        push_log(transaction, success_log(step, "no name collision detected".to_owned()));
        Ok(existing.machines)
    }

    fn prepare_creation(
        &mut self,
        transaction: &mut CreationTransaction,
        request: &VmCreationRequest,
        host_memory_mb: u64,
        host_cpus: u32,
        iso: &IsoInspection,
        guest_additions_iso: Option<&str>,
    ) -> (r: Result<(ManagedWindowsVmProfile, Vec<VirtualMachine>), StepFailure>)
        ensures
            journal::runs(
                *old(self),
                *final(self),
                |w: Run|
                    {
                        let (build, result) = prepare_p(
                            Build { w, made: old(transaction)@ },
                            Order {
                                request: request@,
                                host_memory_mb,
                                host_cpus,
                                iso: iso@,
                                additions_iso: model::opt_str(guest_additions_iso),
                            },
                        );
                        (build.w, (build.made, result))
                    },
                (final(transaction)@, prepared_result(r)),
            ),
    {
        if let Err(failure) = check_order(
            request,
            host_memory_mb,
            host_cpus,
            iso,
            guest_additions_iso,
        ) {
            return Err(failure);
        }
        let step = "resolve-virtualbox-os-type";
        let profile = match self.resolve_windows_profile(
            request.windows_version,
            guest_additions_iso,
        ) {
            Ok(profile) => profile,
            Err(message) => {
                return Err(step_error(step, message));
            },
        };
        push_log(
            transaction,
            success_log(
                step,
                concat3(
                    profile.display_name.as_str(),
                    " uses VirtualBox OS type ",
                    profile.virtual_box_os_type_id.as_str(),
                ),
            ),
        );
        push_log(
            transaction,
            success_log(
                "validate-windows-iso",
                concat2("readable ISO-9660 image: ", request.iso_path.as_str()),
            ),
        );
        let name = trim(request.name.as_str());
        match self.check_existing(transaction, name.as_str()) {
            Ok(existing) => Ok((profile, existing)),
            Err(failure) => Err(failure),
        }
    }

    fn register_machine(
        &mut self,
        transaction: &mut CreationTransaction,
        name: &str,
        profile: &ManagedWindowsVmProfile,
        existing: &Vec<VirtualMachine>,
    ) -> (r: Result<String, StepFailure>)
        ensures
            journal::runs(
                *old(self),
                *final(self),
                |w: Run|
                    {
                        let (build, result) = register_p(
                            Build { w, made: old(transaction)@ },
                            name@,
                            profile@,
                            duplicate::views(existing@),
                        );
                        (build.w, (build.made, result))
                    },
                (final(transaction)@, step_result(r)),
            ),
    {
        let created = match self.creation_step(
            transaction,
            "register-vm",
            register_command(name, profile.virtual_box_os_type_id.as_str()),
        ) {
            Ok(output) => output,
            Err(failure) => {
                return Err(failure);
            },
        };
        // No other machine has this name, so it names the new one even without an identifier.
        transaction.vm_identifier = Some(name.to_owned());
        let uuid = match find_created_uuid(created.stdout.as_str()) {
            Some(uuid) => uuid,
            None => {
                return Err(
                    step_error(
                        "parse-created-vm",
                        "VBoxManage createvm returned no VM UUID".to_owned(),
                    ),
                );
            },
        };
        if is_uuid_taken(existing, uuid.as_str()) {
            return Err(
                step_error(
                    "validate-created-vm-uuid",
                    concat2("VirtualBox returned pre-existing VM UUID ", uuid.as_str()),
                ),
            );
        }
        transaction.vm_uuid = Some(uuid.clone());
        transaction.vm_identifier = Some(uuid.clone());
        Ok(uuid)
    }

    fn set_up_secure_boot(&mut self, transaction: &mut CreationTransaction, vm_id: &str) -> (r:
        Result<(), StepFailure>)
        ensures
            journal::runs(
                *old(self),
                *final(self),
                |w: Run|
                    {
                        let (build, result) = secure_boot_p(
                            Build { w, made: old(transaction)@ },
                            vm_id@,
                        );
                        (build.w, (build.made, result))
                    },
                (final(transaction)@, unit_result(r)),
            ),
    {
        if let Err(failure) = self.creation_step(
            transaction,
            "initialize-uefi-variable-store",
            args3("modifynvram", vm_id, "inituefivarstore"),
        ) {
            return Err(failure);
        }
        if let Err(failure) = self.creation_step(
            transaction,
            "enroll-microsoft-secure-boot-signatures",
            args3("modifynvram", vm_id, "enrollmssignatures"),
        ) {
            return Err(failure);
        }
        if let Err(failure) = self.creation_step(
            transaction,
            "enroll-virtualbox-platform-key",
            args3("modifynvram", vm_id, "enrollorclpk"),
        ) {
            return Err(failure);
        }
        if let Err(failure) = self.creation_step(
            transaction,
            "enable-secure-boot",
            args4("modifynvram", vm_id, "secureboot", "--enable"),
        ) {
            return Err(failure);
        }
        Ok(())
    }

    fn configure_machine(
        &mut self,
        transaction: &mut CreationTransaction,
        request: &VmCreationRequest,
        vm_id: &str,
        profile: ManagedWindowsVmProfile,
    ) -> (r: Result<ManagedWindowsVmProfile, StepFailure>)
        ensures
            journal::runs(
                *old(self),
                *final(self),
                |w: Run|
                    {
                        let (build, result) = configure_p(
                            Build { w, made: old(transaction)@ },
                            request@,
                            vm_id@,
                            profile@,
                        );
                        (build.w, (build.made, result))
                    },
                (final(transaction)@, step_result(r)),
            ),
    {
        let mut profile = profile;
        if let Err(failure) = self.creation_step(
            transaction,
            "configure-managed-windows-hardware",
            hardware_command(vm_id, request, profile.tpm_required),
        ) {
            return Err(failure);
        }
        if profile.secure_boot_required {
            if let Err(failure) = self.set_up_secure_boot(transaction, vm_id) {
                return Err(failure);
            }
            profile.secure_boot = SecureBootStatus::Configured;
        }
        Ok(profile)
    }

    fn create_disk(&mut self, transaction: &mut CreationTransaction, vm_id: &str, disk_gb: u64)
        -> (r: Result<String, StepFailure>)
        ensures
            journal::runs(
                *old(self),
                *final(self),
                |w: Run|
                    {
                        let (build, result) = create_disk_p(
                            Build { w, made: old(transaction)@ },
                            vm_id@,
                            disk_gb as int,
                        );
                        (build.w, (build.made, result))
                    },
                (final(transaction)@, step_result(r)),
            ),
    {
        let info = match self.creation_step(
            transaction,
            "inspect-managed-vm-location",
            args3("showvminfo", vm_id, "--machinereadable"),
        ) {
            Ok(output) => output,
            Err(failure) => {
                return Err(failure);
            },
        };
        let disk = match find_disk_place(info.stdout.as_str()) {
            Ok(disk) => disk,
            Err(failure) => {
                return Err(failure);
            },
        };
        transaction.disk_path = Some(disk.clone());
        let size_mb: u64 = match disk_gb.checked_mul(1024) {
            Some(size) => size,
            None => {
                return Err(
                    step_error("derive-system-disk-size", "disk size overflow".to_owned()),
                );
            },
        };
        let size = number_text(size_mb);
        if let Err(failure) = self.creation_step(
            transaction,
            "create-system-disk",
            disk_command(disk.as_str(), size.as_str()),
        ) {
            return Err(failure);
        }
        transaction.disk_created = true;
        Ok(disk)
    }

    fn attach_media(
        &mut self,
        transaction: &mut CreationTransaction,
        vm_id: &str,
        disk: &str,
        iso_path: &str,
    ) -> (r: Result<(), StepFailure>)
        ensures
            journal::runs(
                *old(self),
                *final(self),
                |w: Run|
                    {
                        let (build, result) = attach_media_p(
                            Build { w, made: old(transaction)@ },
                            vm_id@,
                            disk@,
                            iso_path@,
                        );
                        (build.w, (build.made, result))
                    },
                (final(transaction)@, unit_result(r)),
            ),
    {
        if let Err(failure) = self.creation_step(
            transaction,
            "create-sata-controller",
            controller_command(vm_id),
        ) {
            return Err(failure);
        }
        if let Err(failure) = self.creation_step(
            transaction,
            "attach-system-disk",
            storage_command(vm_id, "0", "hdd", disk),
        ) {
            return Err(failure);
        }
        transaction.disk_attached = true;
        if let Err(failure) = self.creation_step(
            transaction,
            "attach-windows-iso",
            storage_command(vm_id, "1", "dvddrive", iso_path),
        ) {
            return Err(failure);
        }
        Ok(())
    }

    fn furnish_machine(
        &mut self,
        transaction: &mut CreationTransaction,
        request: &VmCreationRequest,
        vm_id: &str,
        profile: ManagedWindowsVmProfile,
    ) -> (r: Result<VmCreationResult, StepFailure>)
        ensures
            journal::runs(
                *old(self),
                *final(self),
                |w: Run|
                    {
                        let (build, result) = furnish_p(
                            Build { w, made: old(transaction)@ },
                            request@,
                            vm_id@,
                            profile@,
                        );
                        (build.w, (build.made, result))
                    },
                (final(transaction)@, step_result(r)),
            ),
    {
        let profile = match self.configure_machine(transaction, request, vm_id, profile) {
            Ok(profile) => profile,
            Err(failure) => {
                return Err(failure);
            },
        };
        let disk = match self.create_disk(transaction, vm_id, request.disk_gb) {
            Ok(disk) => disk,
            Err(failure) => {
                return Err(failure);
            },
        };
        if let Err(failure) = self.attach_media(
            transaction,
            vm_id,
            disk.as_str(),
            request.iso_path.as_str(),
        ) {
            return Err(failure);
        }
        let vm = match self.inspect_vm(vm_id) {
            Ok(vm) => vm,
            Err(message) => {
                return Err(step_error("verify-created-vm", message));
            },
        };
        let changed_settings = profile_settings(&profile);
        Ok(VmCreationResult { vm, profile, changed_settings, logs: duplicate_all(&transaction.logs) })
    }

    fn create_vm_steps(
        &mut self,
        transaction: &mut CreationTransaction,
        request: &VmCreationRequest,
        host_memory_mb: u64,
        host_cpus: u32,
        iso: &IsoInspection,
        guest_additions_iso: Option<&str>,
    ) -> (r: Result<VmCreationResult, StepFailure>)
        ensures
            journal::runs(
                *old(self),
                *final(self),
                |w: Run|
                    {
                        let (build, result) = create_steps_p(
                            Build { w, made: old(transaction)@ },
                            Order {
                                request: request@,
                                host_memory_mb,
                                host_cpus,
                                iso: iso@,
                                additions_iso: model::opt_str(guest_additions_iso),
                            },
                        );
                        (build.w, (build.made, result))
                    },
                (final(transaction)@, step_result(r)),
            ),
    {
        let (profile, existing) = match self.prepare_creation(
            transaction,
            request,
            host_memory_mb,
            host_cpus,
            iso,
            guest_additions_iso,
        ) {
            Ok(prepared) => prepared,
            Err(failure) => {
                return Err(failure);
            },
        };
        let name = trim(request.name.as_str());
        let vm_id = match self.register_machine(transaction, name.as_str(), &profile, &existing) {
            Ok(id) => id,
            Err(failure) => {
                return Err(failure);
            },
        };
        self.furnish_machine(transaction, request, vm_id.as_str(), profile)
    }

    fn rollback_step(&mut self, step: &str, arguments: Vec<String>) -> (r: VmCreationLogEntry)
        ensures
            journal::runs(
                *old(self),
                *final(self),
                |w: Run| undo_p(w, step@, model::texts(arguments@)),
                r@,
            ),
    {
        match self.checked(arguments) {
            Ok(_) => success_log(
                step,
                "removed only resource owned by this creation operation".to_owned(),
            ),
            Err(message) => error_log(step, message),
        }
    }

    fn rollback_creation(&mut self, transaction: &CreationTransaction) -> (r: Vec<
        VmCreationLogEntry,
    >)
        ensures
            journal::runs(
                *old(self),
                *final(self),
                |w: Run| rollback_creation_p(w, transaction@),
                duplicate::views(r@),
            ),
    {
        let mut actions: Vec<VmCreationLogEntry> = Vec::new();
        assert(duplicate::views(actions@) =~= Seq::<VmCreationLogEntryView>::empty());
        if transaction.disk_created && !transaction.disk_attached {
            if let Some(path) = &transaction.disk_path {
                let entry = self.rollback_step(
                    "delete-unattached-managed-disk",
                    args4("closemedium", "disk", path.as_str(), "--delete"),
                );
                actions.push(entry);
                assert(duplicate::views(actions@) =~= seq![entry@]);
            }
        }
        if let Some(identifier) = &transaction.vm_identifier {
            let ghost before = actions@;
            let entry = self.rollback_step(
                "delete-managed-vm",
                args3("unregistervm", identifier.as_str(), "--delete"),
            );
            actions.push(entry);
            assert(duplicate::views(actions@) =~= duplicate::views(before).push(entry@));
        }
        actions
    }

    /// Creates a machine on a host with so much memory and so many processors. Where that fails,
    /// what was made is undone.
    pub fn create_vm_with_host_resources(
        &mut self,
        request: &VmCreationRequest,
        host_memory_mb: u64,
        host_cpus: u32,
        iso: &IsoInspection,
        guest_additions_iso: Option<&str>,
    ) -> (r: Result<VmCreationResult, VmCreationFailure>)
        ensures
            journal::runs(
                *old(self),
                *final(self),
                |w: Run|
                    create_p(
                        w,
                        Order {
                            request: request@,
                            host_memory_mb,
                            host_cpus,
                            iso: iso@,
                            additions_iso: model::opt_str(guest_additions_iso),
                        },
                    ),
                creation_result(r),
            ),
    {
        let mut transaction = CreationTransaction {
            vm_identifier: None,
            vm_uuid: None,
            disk_path: None,
            disk_created: false,
            disk_attached: false,
            logs: Vec::new(),
        };
        assert(transaction@ =~= nothing_made());
        match self.create_vm_steps(
            &mut transaction,
            request,
            host_memory_mb,
            host_cpus,
            iso,
            guest_additions_iso,
        ) {
            Ok(result) => Ok(result),
            Err(failure) => {
                let rollback_actions = self.rollback_creation(&transaction);
                Err(
                    VmCreationFailure {
                        failed_step: failure.step,
                        message: failure.message,
                        logs: transaction.logs,
                        rollback_actions,
                    },
                )
            },
        }
    }

    /// Creates a machine, where it was found out what the host has.
    pub fn create_vm(
        &mut self,
        request: &VmCreationRequest,
        host_resources: Result<(u64, u32), String>,
        iso: &IsoInspection,
        guest_additions_iso: Option<&str>,
    ) -> (r: Result<VmCreationResult, VmCreationFailure>)
        ensures
            journal::runs(
                *old(self),
                *final(self),
                |w: Run|
                    create_on_host_p(
                        w,
                        resources_view(host_resources),
                        request@,
                        iso@,
                        model::opt_str(guest_additions_iso),
                    ),
                creation_result(r),
            ),
    {
        match host_resources {
            Err(message) => {
                let failure = VmCreationFailure {
                    failed_step: "host-resource-validation".to_owned(),
                    message,
                    logs: Vec::new(),
                    rollback_actions: Vec::new(),
                };
                assert(failure@.logs =~= Seq::<VmCreationLogEntryView>::empty());
                assert(failure@.rollback_actions =~= Seq::<VmCreationLogEntryView>::empty());
                Err(failure)
            },
            Ok((host_memory_mb, host_cpus)) => self.create_vm_with_host_resources(
                request,
                host_memory_mb,
                host_cpus,
                iso,
                guest_additions_iso,
            ),
        }
    }

    /// Deletes a machine that was created but could not be recorded.
    pub fn rollback_created_vm_after_persistence_failure(&mut self, vm_id: &str) -> (r: Result<
        (),
        String,
    >)
        ensures
            journal::runs(
                *old(self),
                *final(self),
                |w: Run|
                    {
                        let (after, answer) = service::checked_p(
                            w,
                            seq!["unregistervm"@, vm_id@, "--delete"@],
                        );
                        (
                            after,
                            match answer {
                                Ok(_) => Ok(()),
                                Err(message) => Err(message),
                            },
                        )
                    },
                model::with_message(r),
            ),
    {
        match self.checked(args3("unregistervm", vm_id, "--delete")) {
            Ok(_) => Ok(()),
            Err(message) => Err(message),
        }
    }
}

// ---- Failures in words -----------------------------------------------------------------

/// A step and its outcome.
pub open spec fn entry_text(entry: VmCreationLogEntryView) -> Text {
    entry.step + "="@ + entry.outcome
}

/// A step, its outcome and what it did.
pub open spec fn action_text(entry: VmCreationLogEntryView) -> Text {
    entry.step + "="@ + entry.outcome + " ("@ + entry.detail + ")"@
}

/// A failure in words.
pub open spec fn failure_text(failure: VmCreationFailureView) -> Text {
    "VM creation failed at '"@ + failure.failed_step + "': "@ + failure.message + (
    if failure.logs.len() > 0 {
        "; creation log: "@ + model::joined(
            failure.logs.map_values(|entry: VmCreationLogEntryView| entry_text(entry)),
            ", "@,
        )
    } else {
        seq![]
    }) + (if failure.rollback_actions.len() > 0 {
        "; rollback: "@ + model::joined(
            failure.rollback_actions.map_values(
                |entry: VmCreationLogEntryView| action_text(entry),
            ),
            "; "@,
        )
    } else {
        seq![]
    })
}

fn entry_texts(entries: &Vec<VmCreationLogEntry>, detailed: bool) -> (r: Vec<String>)
    ensures
        model::texts(r@) == duplicate::views(entries@).map_values(
            |entry: VmCreationLogEntryView|
                if detailed {
                    action_text(entry)
                } else {
                    entry_text(entry)
                },
        ),
{
    let ghost wanted = duplicate::views(entries@).map_values(
        |entry: VmCreationLogEntryView|
            if detailed {
                action_text(entry)
            } else {
                entry_text(entry)
            },
    );
    let mut parts: Vec<String> = Vec::new();
    let mut i: usize = 0;
    while i < entries.len()
        invariant
            i <= entries@.len(),
            wanted == duplicate::views(entries@).map_values(
                |entry: VmCreationLogEntryView|
                    if detailed {
                        action_text(entry)
                    } else {
                        entry_text(entry)
                    },
            ),
            model::texts(parts@) == wanted.take(i as int),
        decreases entries.len() - i,
    {
        let entry = &entries[i];
        let mut text = concat3(entry.step.as_str(), "=", entry.outcome.as_str());
        if detailed {
            text.append(" (");
            text.append(entry.detail.as_str());
            text.append(")");
        }
        let ghost before = parts@;
        parts.push(text);
        proof {
            assert(wanted[i as int] == text@);
            assert(model::texts(parts@) =~= model::texts(before).push(text@));
            assert(wanted.take(i + 1) =~= wanted.take(i as int).push(wanted[i as int]));
        }
        i += 1;
    }
    assert(wanted.take(i as int) =~= wanted);
    parts
}

impl VmCreationFailure {
    /// The failure in words.
    pub fn to_text(&self) -> (r: String)
        ensures
            r@ == failure_text(self@),
    {
        let mut text = concat4(
            "VM creation failed at '",
            self.failed_step.as_str(),
            "': ",
            self.message.as_str(),
        );
        let ghost start = text@;
        let ghost mut middle: Text = seq![];
        let ghost mut end: Text = seq![];
        if self.logs.len() > 0 {
            let parts = entry_texts(&self.logs, false);
            let list = join(&parts, ", ");
            text.append("; creation log: ");
            text.append(list.as_str());
            proof {
                middle = "; creation log: "@ + list@;
                assert(model::texts(parts@) =~= self@.logs.map_values(
                    |entry: VmCreationLogEntryView| entry_text(entry),
                ));
                assert(text@ =~= start + middle);
            }
        }
        assert(text@ =~= start + middle);
        if self.rollback_actions.len() > 0 {
            let parts = entry_texts(&self.rollback_actions, true);
            let list = join(&parts, "; ");
            text.append("; rollback: ");
            text.append(list.as_str());
            proof {
                end = "; rollback: "@ + list@;
                assert(model::texts(parts@) =~= self@.rollback_actions.map_values(
                    |entry: VmCreationLogEntryView| action_text(entry),
                ));
            }
        }
        assert(text@ =~= start + middle + end);
        text
    }
}

} // verus!
