//! What the runtime of a seat reports and remembers.
use super::mouse_integration;
use super::mouse_integration::{MouseIntegrationStatus, MouseIntegrationStatusView};
use super::presentation::{DisplayPresentationStatus, DisplayPresentationStatusView};
use crate::displays::DisplayBounds;
use crate::duplicate;
use crate::duplicate::{duplicate_all, Duplicate};
use crate::seats::{InputRoutingRuntimeStatus, InputRoutingStrategy, UsbPassthroughSafety};
use crate::text::compose::{copy_all, copy_opt};
use crate::text::model;
use crate::text::model::Text;
use crate::virtualization::SeatRuntimeStatus;
use crate::virtualization::usb::UsbCorrelationState;
use std::time::Instant;
use vstd::prelude::*;

verus! {

/// A machine as VirtualBox describes it.
#[derive(Debug, Eq, PartialEq)]
pub struct VirtualMachine {
    pub name: String,
    pub uuid: String,
    pub state: String,
    pub guest_os_description: Option<String>,
    pub usb_xhci_enabled: Option<bool>,
    pub session_pid: Option<u32>,
}

/// The model of [`VirtualMachine`].
#[verifier::ext_equal]
pub struct VirtualMachineView {
    pub name: Text,
    pub uuid: Text,
    pub state: Text,
    pub guest_os_description: Option<Text>,
    pub usb_xhci_enabled: Option<bool>,
    pub session_pid: Option<u32>,
}

impl View for VirtualMachine {
    type V = VirtualMachineView;

    open spec fn view(&self) -> VirtualMachineView {
        VirtualMachineView {
            name: self.name@,
            uuid: self.uuid@,
            state: self.state@,
            guest_os_description: model::opt_text(self.guest_os_description),
            usb_xhci_enabled: self.usb_xhci_enabled,
            session_pid: self.session_pid,
        }
    }
}

impl Duplicate for VirtualMachine {
    fn duplicate(&self) -> (r: Self) {
        VirtualMachine {
            name: self.name.clone(),
            uuid: self.uuid.clone(),
            state: self.state.clone(),
            guest_os_description: copy_opt(&self.guest_os_description),
            usb_xhci_enabled: self.usb_xhci_enabled,
            session_pid: self.session_pid,
        }
    }
}

impl Clone for VirtualMachine {
    fn clone(&self) -> (r: Self)
        ensures
            r@ == self@,
    {
        self.duplicate()
    }
}

/// The machines of a host, and what was wrong with their list.
#[derive(Debug, Eq, PartialEq)]
pub struct VirtualMachineList {
    pub machines: Vec<VirtualMachine>,
    pub warnings: Vec<String>,
}

/// The model of [`VirtualMachineList`].
#[verifier::ext_equal]
pub struct VirtualMachineListView {
    pub machines: Seq<VirtualMachineView>,
    pub warnings: Seq<Text>,
}

impl View for VirtualMachineList {
    type V = VirtualMachineListView;

    open spec fn view(&self) -> VirtualMachineListView {
        VirtualMachineListView {
            machines: duplicate::views(self.machines@),
            warnings: model::texts(self.warnings@),
        }
    }
}

impl Duplicate for VirtualMachineList {
    fn duplicate(&self) -> (r: Self) {
        VirtualMachineList {
            machines: duplicate_all(&self.machines),
            warnings: copy_all(&self.warnings),
        }
    }
}

impl Clone for VirtualMachineList {
    fn clone(&self) -> (r: Self)
        ensures
            r@ == self@,
    {
        self.duplicate()
    }
}

/// Whether something was seen.
#[derive(Clone, Copy, Debug, Eq, PartialEq, Structural)]
pub enum EvidencePresence {
    Present,
    Missing,
    Unknown,
}

/// What became of the command that attaches a device.
#[derive(Clone, Copy, Debug, Eq, PartialEq, Structural)]
pub enum UsbAttachCommandStatus {
    NotRequested,
    Success,
    Failure,
}

/// Whether a guest sees a device.
#[derive(Clone, Copy, Debug, Eq, PartialEq, Structural)]
pub enum GuestUsbVisibility {
    Verified,
    Missing,
    Unknown,
}

/// How a device that a seat uses is doing.
#[derive(Clone, Copy, Debug, Eq, PartialEq, Structural)]
pub enum UsbRuntimeHealth {
    NotResolved,
    HostBusy,
    AttachRequested,
    Captured,
    DisappearedAfterAttach,
    PhysicalDeviceDisconnected,
    Released,
    Ambiguous,
    Failed,
}

/// What is known of a device that a seat uses.
#[derive(Debug, Eq, PartialEq)]
pub struct RuntimeUsbDiagnostic {
    pub windows_physical_device: EvidencePresence,
    pub usb_parent: EvidencePresence,
    pub virtual_box_host_device: EvidencePresence,
    pub resolved_usb_parent: Option<String>,
    pub runtime_uuid: Option<String>,
    pub runtime_address: Option<String>,
    pub state_before_attach: Option<String>,
    pub attach_command: UsbAttachCommandStatus,
    pub state_immediately_after_attach: Option<String>,
    pub state_after_retry: Option<String>,
    pub current_virtual_box_state: Option<String>,
    pub guest_visibility: GuestUsbVisibility,
    pub health: UsbRuntimeHealth,
    pub probe_error: Option<String>,
}

/// The model of [`RuntimeUsbDiagnostic`].
#[verifier::ext_equal]
pub struct RuntimeUsbDiagnosticView {
    pub windows_physical_device: EvidencePresence,
    pub usb_parent: EvidencePresence,
    pub virtual_box_host_device: EvidencePresence,
    pub resolved_usb_parent: Option<Text>,
    pub runtime_uuid: Option<Text>,
    pub runtime_address: Option<Text>,
    pub state_before_attach: Option<Text>,
    pub attach_command: UsbAttachCommandStatus,
    pub state_immediately_after_attach: Option<Text>,
    pub state_after_retry: Option<Text>,
    pub current_virtual_box_state: Option<Text>,
    pub guest_visibility: GuestUsbVisibility,
    pub health: UsbRuntimeHealth,
    pub probe_error: Option<Text>,
}

impl View for RuntimeUsbDiagnostic {
    type V = RuntimeUsbDiagnosticView;

    open spec fn view(&self) -> RuntimeUsbDiagnosticView {
        RuntimeUsbDiagnosticView {
            windows_physical_device: self.windows_physical_device,
            usb_parent: self.usb_parent,
            virtual_box_host_device: self.virtual_box_host_device,
            resolved_usb_parent: model::opt_text(self.resolved_usb_parent),
            runtime_uuid: model::opt_text(self.runtime_uuid),
            runtime_address: model::opt_text(self.runtime_address),
            state_before_attach: model::opt_text(self.state_before_attach),
            attach_command: self.attach_command,
            state_immediately_after_attach: model::opt_text(self.state_immediately_after_attach),
            state_after_retry: model::opt_text(self.state_after_retry),
            current_virtual_box_state: model::opt_text(self.current_virtual_box_state),
            guest_visibility: self.guest_visibility,
            health: self.health,
            probe_error: model::opt_text(self.probe_error),
        }
    }
}

impl Duplicate for RuntimeUsbDiagnostic {
    fn duplicate(&self) -> (r: Self) {
        RuntimeUsbDiagnostic {
            windows_physical_device: self.windows_physical_device,
            usb_parent: self.usb_parent,
            virtual_box_host_device: self.virtual_box_host_device,
            resolved_usb_parent: copy_opt(&self.resolved_usb_parent),
            runtime_uuid: copy_opt(&self.runtime_uuid),
            runtime_address: copy_opt(&self.runtime_address),
            state_before_attach: copy_opt(&self.state_before_attach),
            attach_command: self.attach_command,
            state_immediately_after_attach: copy_opt(&self.state_immediately_after_attach),
            state_after_retry: copy_opt(&self.state_after_retry),
            current_virtual_box_state: copy_opt(&self.current_virtual_box_state),
            guest_visibility: self.guest_visibility,
            health: self.health,
            probe_error: copy_opt(&self.probe_error),
        }
    }
}

impl Clone for RuntimeUsbDiagnostic {
    fn clone(&self) -> (r: Self)
        ensures
            r@ == self@,
    {
        self.duplicate()
    }
}

/// What is known of a device before anything was looked at.
pub open spec fn no_diagnostic() -> RuntimeUsbDiagnosticView {
    RuntimeUsbDiagnosticView {
        windows_physical_device: EvidencePresence::Unknown,
        usb_parent: EvidencePresence::Unknown,
        virtual_box_host_device: EvidencePresence::Unknown,
        resolved_usb_parent: None,
        runtime_uuid: None,
        runtime_address: None,
        state_before_attach: None,
        attach_command: UsbAttachCommandStatus::NotRequested,
        state_immediately_after_attach: None,
        state_after_retry: None,
        current_virtual_box_state: None,
        guest_visibility: GuestUsbVisibility::Unknown,
        health: UsbRuntimeHealth::NotResolved,
        probe_error: None,
    }
}

impl Default for RuntimeUsbDiagnostic {
    fn default() -> (r: Self)
        ensures
            r@ == no_diagnostic(),
    {
        RuntimeUsbDiagnostic {
            windows_physical_device: EvidencePresence::Unknown,
            usb_parent: EvidencePresence::Unknown,
            virtual_box_host_device: EvidencePresence::Unknown,
            resolved_usb_parent: None,
            runtime_uuid: None,
            runtime_address: None,
            state_before_attach: None,
            attach_command: UsbAttachCommandStatus::NotRequested,
            state_immediately_after_attach: None,
            state_after_retry: None,
            current_virtual_box_state: None,
            guest_visibility: GuestUsbVisibility::Unknown,
            health: UsbRuntimeHealth::NotResolved,
            probe_error: None,
        }
    }
}

/// How the keyboard or the mouse of a seat is doing.
#[derive(Debug, Eq, PartialEq)]
pub struct RuntimeComponentStatus {
    pub configured: bool,
    pub attached: bool,
    pub physical_device_id: Option<String>,
    pub runtime_uuid: Option<String>,
    pub mapping: Option<UsbCorrelationState>,
    pub usb: RuntimeUsbDiagnostic,
    pub routing_strategy: InputRoutingStrategy,
    pub routing_status: InputRoutingRuntimeStatus,
    pub successful_guest_sends: Option<u64>,
    pub usb_passthrough_safety: UsbPassthroughSafety,
    pub safety_reason: Option<String>,
}

/// The model of [`RuntimeComponentStatus`].
#[verifier::ext_equal]
pub struct RuntimeComponentStatusView {
    pub configured: bool,
    pub attached: bool,
    pub physical_device_id: Option<Text>,
    pub runtime_uuid: Option<Text>,
    pub mapping: Option<UsbCorrelationState>,
    pub usb: RuntimeUsbDiagnosticView,
    pub routing_strategy: InputRoutingStrategy,
    pub routing_status: InputRoutingRuntimeStatus,
    pub successful_guest_sends: Option<u64>,
    pub usb_passthrough_safety: UsbPassthroughSafety,
    pub safety_reason: Option<Text>,
}

impl View for RuntimeComponentStatus {
    type V = RuntimeComponentStatusView;

    open spec fn view(&self) -> RuntimeComponentStatusView {
        RuntimeComponentStatusView {
            configured: self.configured,
            attached: self.attached,
            physical_device_id: model::opt_text(self.physical_device_id),
            runtime_uuid: model::opt_text(self.runtime_uuid),
            mapping: self.mapping,
            usb: self.usb@,
            routing_strategy: self.routing_strategy,
            routing_status: self.routing_status,
            successful_guest_sends: self.successful_guest_sends,
            usb_passthrough_safety: self.usb_passthrough_safety,
            safety_reason: model::opt_text(self.safety_reason),
        }
    }
}

impl Duplicate for RuntimeComponentStatus {
    fn duplicate(&self) -> (r: Self) {
        RuntimeComponentStatus {
            configured: self.configured,
            attached: self.attached,
            physical_device_id: copy_opt(&self.physical_device_id),
            runtime_uuid: copy_opt(&self.runtime_uuid),
            mapping: self.mapping,
            usb: self.usb.duplicate(),
            routing_strategy: self.routing_strategy,
            routing_status: self.routing_status,
            successful_guest_sends: self.successful_guest_sends,
            usb_passthrough_safety: self.usb_passthrough_safety,
            safety_reason: copy_opt(&self.safety_reason),
        }
    }
}

impl Clone for RuntimeComponentStatus {
    fn clone(&self) -> (r: Self)
        ensures
            r@ == self@,
    {
        self.duplicate()
    }
}

/// Whether the window of a machine is open to the host's input.
#[derive(Clone, Copy, Debug, Eq, PartialEq, Structural)]
pub enum ManagedSeatDisplayMode {
    NormalVirtualBox,
    SeatDisplayLocked,
}

/// Whether the mouse of a seat is the seat's alone.
#[derive(Clone, Copy, Debug, Eq, PartialEq, Structural)]
pub enum MouseIsolationStatus {
    Active,
    Inactive,
    Error,
    Unverified,
}

/// How well the host's keyboard is kept from the machine's window.
#[derive(Clone, Copy, Debug, Eq, PartialEq, Structural)]
pub enum HostGuiKeyboardIsolation {
    BestEffort,
}

/// How well the input of the host and that of a seat are kept apart.
#[derive(Debug, Eq, PartialEq)]
pub struct ManagedInputIsolationStatus {
    pub display_mode: ManagedSeatDisplayMode,
    pub mouse_capture_policy: Option<String>,
    pub mouse_capture_disabled: bool,
    pub mouse_capture_policy_owned: bool,
    pub mouse_capture_policy_error: Option<String>,
    pub mouse_integration: MouseIntegrationStatus,
    pub mouse_isolation: MouseIsolationStatus,
    pub focus_protection_active: bool,
    pub focus_protection_locked: bool,
    pub focus_restoration_count: u64,
    pub focus_protection_error: Option<String>,
    pub dennis_keyboard_attached: bool,
    pub dennis_mouse_attached: bool,
    pub host_gui_keyboard_isolation: HostGuiKeyboardIsolation,
}

/// The model of [`ManagedInputIsolationStatus`].
#[verifier::ext_equal]
pub struct ManagedInputIsolationStatusView {
    pub display_mode: ManagedSeatDisplayMode,
    pub mouse_capture_policy: Option<Text>,
    pub mouse_capture_disabled: bool,
    pub mouse_capture_policy_owned: bool,
    pub mouse_capture_policy_error: Option<Text>,
    pub mouse_integration: MouseIntegrationStatusView,
    pub mouse_isolation: MouseIsolationStatus,
    pub focus_protection_active: bool,
    pub focus_protection_locked: bool,
    pub focus_restoration_count: u64,
    pub focus_protection_error: Option<Text>,
    pub dennis_keyboard_attached: bool,
    pub dennis_mouse_attached: bool,
    pub host_gui_keyboard_isolation: HostGuiKeyboardIsolation,
}

impl View for ManagedInputIsolationStatus {
    type V = ManagedInputIsolationStatusView;

    open spec fn view(&self) -> ManagedInputIsolationStatusView {
        ManagedInputIsolationStatusView {
            display_mode: self.display_mode,
            mouse_capture_policy: model::opt_text(self.mouse_capture_policy),
            mouse_capture_disabled: self.mouse_capture_disabled,
            mouse_capture_policy_owned: self.mouse_capture_policy_owned,
            mouse_capture_policy_error: model::opt_text(self.mouse_capture_policy_error),
            mouse_integration: self.mouse_integration@,
            mouse_isolation: self.mouse_isolation,
            focus_protection_active: self.focus_protection_active,
            focus_protection_locked: self.focus_protection_locked,
            focus_restoration_count: self.focus_restoration_count,
            focus_protection_error: model::opt_text(self.focus_protection_error),
            dennis_keyboard_attached: self.dennis_keyboard_attached,
            dennis_mouse_attached: self.dennis_mouse_attached,
            host_gui_keyboard_isolation: self.host_gui_keyboard_isolation,
        }
    }
}

impl Duplicate for ManagedInputIsolationStatus {
    fn duplicate(&self) -> (r: Self) {
        ManagedInputIsolationStatus {
            display_mode: self.display_mode,
            mouse_capture_policy: copy_opt(&self.mouse_capture_policy),
            mouse_capture_disabled: self.mouse_capture_disabled,
            mouse_capture_policy_owned: self.mouse_capture_policy_owned,
            mouse_capture_policy_error: copy_opt(&self.mouse_capture_policy_error),
            mouse_integration: self.mouse_integration.duplicate(),
            mouse_isolation: self.mouse_isolation,
            focus_protection_active: self.focus_protection_active,
            focus_protection_locked: self.focus_protection_locked,
            focus_restoration_count: self.focus_restoration_count,
            focus_protection_error: copy_opt(&self.focus_protection_error),
            dennis_keyboard_attached: self.dennis_keyboard_attached,
            dennis_mouse_attached: self.dennis_mouse_attached,
            host_gui_keyboard_isolation: self.host_gui_keyboard_isolation,
        }
    }
}

impl Clone for ManagedInputIsolationStatus {
    fn clone(&self) -> (r: Self)
        ensures
            r@ == self@,
    {
        self.duplicate()
    }
}

/// The isolation of a seat of which nothing is known yet.
pub open spec fn no_isolation() -> ManagedInputIsolationStatusView {
    ManagedInputIsolationStatusView {
        display_mode: ManagedSeatDisplayMode::NormalVirtualBox,
        mouse_capture_policy: None,
        mouse_capture_disabled: false,
        mouse_capture_policy_owned: false,
        mouse_capture_policy_error: None,
        mouse_integration: mouse_integration::untouched(),
        mouse_isolation: MouseIsolationStatus::Unverified,
        focus_protection_active: false,
        focus_protection_locked: false,
        focus_restoration_count: 0,
        focus_protection_error: None,
        dennis_keyboard_attached: false,
        dennis_mouse_attached: false,
        host_gui_keyboard_isolation: HostGuiKeyboardIsolation::BestEffort,
    }
}

impl Default for ManagedInputIsolationStatus {
    fn default() -> (r: Self)
        ensures
            r@ == no_isolation(),
    {
        ManagedInputIsolationStatus {
            display_mode: ManagedSeatDisplayMode::NormalVirtualBox,
            mouse_capture_policy: None,
            mouse_capture_disabled: false,
            mouse_capture_policy_owned: false,
            mouse_capture_policy_error: None,
            mouse_integration: MouseIntegrationStatus::default(),
            mouse_isolation: MouseIsolationStatus::Unverified,
            focus_protection_active: false,
            focus_protection_locked: false,
            focus_restoration_count: 0,
            focus_protection_error: None,
            dennis_keyboard_attached: false,
            dennis_mouse_attached: false,
            host_gui_keyboard_isolation: HostGuiKeyboardIsolation::BestEffort,
        }
    }
}

/// One thing that was done for a seat.
#[derive(Debug, Eq, PartialEq)]
pub struct RuntimeLogEntry {
    pub action: String,
    pub outcome: String,
    pub physical_device_id: Option<String>,
    pub runtime_uuid: Option<String>,
    pub detail: String,
}

/// The model of [`RuntimeLogEntry`].
#[verifier::ext_equal]
pub struct RuntimeLogEntryView {
    pub action: Text,
    pub outcome: Text,
    pub physical_device_id: Option<Text>,
    pub runtime_uuid: Option<Text>,
    pub detail: Text,
}

impl View for RuntimeLogEntry {
    type V = RuntimeLogEntryView;

    open spec fn view(&self) -> RuntimeLogEntryView {
        RuntimeLogEntryView {
            action: self.action@,
            outcome: self.outcome@,
            physical_device_id: model::opt_text(self.physical_device_id),
            runtime_uuid: model::opt_text(self.runtime_uuid),
            detail: self.detail@,
        }
    }
}

impl Duplicate for RuntimeLogEntry {
    fn duplicate(&self) -> (r: Self) {
        RuntimeLogEntry {
            action: self.action.clone(),
            outcome: self.outcome.clone(),
            physical_device_id: copy_opt(&self.physical_device_id),
            runtime_uuid: copy_opt(&self.runtime_uuid),
            detail: self.detail.clone(),
        }
    }
}

impl Clone for RuntimeLogEntry {
    fn clone(&self) -> (r: Self)
        ensures
            r@ == self@,
    {
        self.duplicate()
    }
}

/// One stage of the start of a seat.
#[derive(Debug, Eq, PartialEq)]
pub struct StartupTraceEntry {
    pub stage: String,
    pub timestamp_ms: u64,
    pub elapsed_ms: u64,
    pub duration_ms: Option<u64>,
    pub detail: Option<String>,
    pub error: Option<String>,
    pub process_id: Option<u32>,
    pub window_handle: Option<isize>,
    pub target_display_id: Option<String>,
    pub target_bounds: Option<DisplayBounds>,
    pub exit_status: Option<i32>,
}

/// The model of [`StartupTraceEntry`].
#[verifier::ext_equal]
pub struct StartupTraceEntryView {
    pub stage: Text,
    pub timestamp_ms: u64,
    pub elapsed_ms: u64,
    pub duration_ms: Option<u64>,
    pub detail: Option<Text>,
    pub error: Option<Text>,
    pub process_id: Option<u32>,
    pub window_handle: Option<isize>,
    pub target_display_id: Option<Text>,
    pub target_bounds: Option<DisplayBounds>,
    pub exit_status: Option<i32>,
}

impl View for StartupTraceEntry {
    type V = StartupTraceEntryView;

    open spec fn view(&self) -> StartupTraceEntryView {
        StartupTraceEntryView {
            stage: self.stage@,
            timestamp_ms: self.timestamp_ms,
            elapsed_ms: self.elapsed_ms,
            duration_ms: self.duration_ms,
            detail: model::opt_text(self.detail),
            error: model::opt_text(self.error),
            process_id: self.process_id,
            window_handle: self.window_handle,
            target_display_id: model::opt_text(self.target_display_id),
            target_bounds: self.target_bounds,
            exit_status: self.exit_status,
        }
    }
}

impl Duplicate for StartupTraceEntry {
    fn duplicate(&self) -> (r: Self) {
        StartupTraceEntry {
            stage: self.stage.clone(),
            timestamp_ms: self.timestamp_ms,
            elapsed_ms: self.elapsed_ms,
            duration_ms: self.duration_ms,
            detail: copy_opt(&self.detail),
            error: copy_opt(&self.error),
            process_id: self.process_id,
            window_handle: self.window_handle,
            target_display_id: copy_opt(&self.target_display_id),
            target_bounds: self.target_bounds,
            exit_status: self.exit_status,
        }
    }
}

impl Clone for StartupTraceEntry {
    fn clone(&self) -> (r: Self)
        ensures
            r@ == self@,
    {
        self.duplicate()
    }
}

/// Everything that is known of a seat at one moment.
#[derive(Debug, Eq, PartialEq)]
pub struct SeatRuntimeSnapshot {
    pub seat_id: String,
    pub status: SeatRuntimeStatus,
    pub vm_id: Option<String>,
    pub vm_state: Option<String>,
    pub vm_started_by_multiseat: bool,
    pub keyboard: RuntimeComponentStatus,
    pub mouse: RuntimeComponentStatus,
    pub display_presentation: DisplayPresentationStatus,
    pub startup_trace: Vec<StartupTraceEntry>,
    pub input_isolation: ManagedInputIsolationStatus,
    pub message: Option<String>,
    pub logs: Vec<RuntimeLogEntry>,
}

/// The model of [`SeatRuntimeSnapshot`].
#[verifier::ext_equal]
pub struct SeatRuntimeSnapshotView {
    pub seat_id: Text,
    pub status: SeatRuntimeStatus,
    pub vm_id: Option<Text>,
    pub vm_state: Option<Text>,
    pub vm_started_by_multiseat: bool,
    pub keyboard: RuntimeComponentStatusView,
    pub mouse: RuntimeComponentStatusView,
    pub display_presentation: DisplayPresentationStatusView,
    pub startup_trace: Seq<StartupTraceEntryView>,
    pub input_isolation: ManagedInputIsolationStatusView,
    pub message: Option<Text>,
    pub logs: Seq<RuntimeLogEntryView>,
}

impl View for SeatRuntimeSnapshot {
    type V = SeatRuntimeSnapshotView;

    open spec fn view(&self) -> SeatRuntimeSnapshotView {
        SeatRuntimeSnapshotView {
            seat_id: self.seat_id@,
            status: self.status,
            vm_id: model::opt_text(self.vm_id),
            vm_state: model::opt_text(self.vm_state),
            vm_started_by_multiseat: self.vm_started_by_multiseat,
            keyboard: self.keyboard@,
            mouse: self.mouse@,
            display_presentation: self.display_presentation@,
            startup_trace: duplicate::views(self.startup_trace@),
            input_isolation: self.input_isolation@,
            message: model::opt_text(self.message),
            logs: duplicate::views(self.logs@),
        }
    }
}

impl Duplicate for SeatRuntimeSnapshot {
    fn duplicate(&self) -> (r: Self) {
        SeatRuntimeSnapshot {
            seat_id: self.seat_id.clone(),
            status: self.status,
            vm_id: copy_opt(&self.vm_id),
            vm_state: copy_opt(&self.vm_state),
            vm_started_by_multiseat: self.vm_started_by_multiseat,
            keyboard: self.keyboard.duplicate(),
            mouse: self.mouse.duplicate(),
            display_presentation: self.display_presentation.duplicate(),
            startup_trace: duplicate_all(&self.startup_trace),
            input_isolation: self.input_isolation.duplicate(),
            message: copy_opt(&self.message),
            logs: duplicate_all(&self.logs),
        }
    }
}

impl Clone for SeatRuntimeSnapshot {
    fn clone(&self) -> (r: Self)
        ensures
            r@ == self@,
    {
        self.duplicate()
    }
}

/// What came of an operation on a seat.
#[derive(Debug, Eq, PartialEq)]
pub struct SeatOperationResult {
    pub success: bool,
    pub runtime: SeatRuntimeSnapshot,
    pub errors: Vec<String>,
    pub rollback_attempted: bool,
}

/// The model of [`SeatOperationResult`].
#[verifier::ext_equal]
pub struct SeatOperationResultView {
    pub success: bool,
    pub runtime: SeatRuntimeSnapshotView,
    pub errors: Seq<Text>,
    pub rollback_attempted: bool,
}

impl View for SeatOperationResult {
    type V = SeatOperationResultView;

    open spec fn view(&self) -> SeatOperationResultView {
        SeatOperationResultView {
            success: self.success,
            runtime: self.runtime@,
            errors: model::texts(self.errors@),
            rollback_attempted: self.rollback_attempted,
        }
    }
}

impl Duplicate for SeatOperationResult {
    fn duplicate(&self) -> (r: Self) {
        SeatOperationResult {
            success: self.success,
            runtime: self.runtime.duplicate(),
            errors: copy_all(&self.errors),
            rollback_attempted: self.rollback_attempted,
        }
    }
}

impl Clone for SeatOperationResult {
    fn clone(&self) -> (r: Self)
        ensures
            r@ == self@,
    {
        self.duplicate()
    }
}

/// The two kinds of input that a seat has.
#[derive(Clone, Copy, Debug, Eq, PartialEq, Structural)]
pub enum InputKind {
    Keyboard,
    Mouse,
}

/// A device that was handed to a guest.
#[derive(Debug, Eq, PartialEq)]
pub struct ManagedAttachment {
    pub physical_device_id: String,
    pub runtime_uuid: String,
    pub kind: InputKind,
    pub mapping: UsbCorrelationState,
    pub diagnostic: RuntimeUsbDiagnostic,
}

/// The model of [`ManagedAttachment`].
#[verifier::ext_equal]
pub struct ManagedAttachmentView {
    pub physical_device_id: Text,
    pub runtime_uuid: Text,
    pub kind: InputKind,
    pub mapping: UsbCorrelationState,
    pub diagnostic: RuntimeUsbDiagnosticView,
}

impl View for ManagedAttachment {
    type V = ManagedAttachmentView;

    open spec fn view(&self) -> ManagedAttachmentView {
        ManagedAttachmentView {
            physical_device_id: self.physical_device_id@,
            runtime_uuid: self.runtime_uuid@,
            kind: self.kind,
            mapping: self.mapping,
            diagnostic: self.diagnostic@,
        }
    }
}

impl Duplicate for ManagedAttachment {
    fn duplicate(&self) -> (r: Self) {
        ManagedAttachment {
            physical_device_id: self.physical_device_id.clone(),
            runtime_uuid: self.runtime_uuid.clone(),
            kind: self.kind,
            mapping: self.mapping,
            diagnostic: self.diagnostic.duplicate(),
        }
    }
}

impl Clone for ManagedAttachment {
    fn clone(&self) -> (r: Self)
        ensures
            r@ == self@,
    {
        self.duplicate()
    }
}

/// The USB device that a physical device is at the moment.
#[derive(Debug, Eq, PartialEq)]
pub struct ResolvedUsb {
    pub uuid: String,
    pub address: Option<String>,
    pub state: Option<String>,
    pub mapping: UsbCorrelationState,
}

/// The model of [`ResolvedUsb`].
#[verifier::ext_equal]
pub struct ResolvedUsbView {
    pub uuid: Text,
    pub address: Option<Text>,
    pub state: Option<Text>,
    pub mapping: UsbCorrelationState,
}

impl View for ResolvedUsb {
    type V = ResolvedUsbView;

    open spec fn view(&self) -> ResolvedUsbView {
        ResolvedUsbView {
            uuid: self.uuid@,
            address: model::opt_text(self.address),
            state: model::opt_text(self.state),
            mapping: self.mapping,
        }
    }
}

impl Duplicate for ResolvedUsb {
    fn duplicate(&self) -> (r: Self) {
        ResolvedUsb {
            uuid: self.uuid.clone(),
            address: copy_opt(&self.address),
            state: copy_opt(&self.state),
            mapping: self.mapping,
        }
    }
}

impl Clone for ResolvedUsb {
    fn clone(&self) -> (r: Self)
        ensures
            r@ == self@,
    {
        self.duplicate()
    }
}

/// What was seen of a device.
#[derive(Debug, Eq, PartialEq)]
pub struct UsbObservation {
    pub windows_physical_device: EvidencePresence,
    pub usb_parent: EvidencePresence,
    pub virtual_box_host_device: EvidencePresence,
    pub resolved_usb_parent: Option<String>,
    pub runtime_uuid: Option<String>,
    pub runtime_address: Option<String>,
    pub current_state: Option<String>,
    pub mapping: Option<UsbCorrelationState>,
    pub health: UsbRuntimeHealth,
}

/// The model of [`UsbObservation`].
#[verifier::ext_equal]
pub struct UsbObservationView {
    pub windows_physical_device: EvidencePresence,
    pub usb_parent: EvidencePresence,
    pub virtual_box_host_device: EvidencePresence,
    pub resolved_usb_parent: Option<Text>,
    pub runtime_uuid: Option<Text>,
    pub runtime_address: Option<Text>,
    pub current_state: Option<Text>,
    pub mapping: Option<UsbCorrelationState>,
    pub health: UsbRuntimeHealth,
}

impl View for UsbObservation {
    type V = UsbObservationView;

    open spec fn view(&self) -> UsbObservationView {
        UsbObservationView {
            windows_physical_device: self.windows_physical_device,
            usb_parent: self.usb_parent,
            virtual_box_host_device: self.virtual_box_host_device,
            resolved_usb_parent: model::opt_text(self.resolved_usb_parent),
            runtime_uuid: model::opt_text(self.runtime_uuid),
            runtime_address: model::opt_text(self.runtime_address),
            current_state: model::opt_text(self.current_state),
            mapping: self.mapping,
            health: self.health,
        }
    }
}

impl Duplicate for UsbObservation {
    fn duplicate(&self) -> (r: Self) {
        UsbObservation {
            windows_physical_device: self.windows_physical_device,
            usb_parent: self.usb_parent,
            virtual_box_host_device: self.virtual_box_host_device,
            resolved_usb_parent: copy_opt(&self.resolved_usb_parent),
            runtime_uuid: copy_opt(&self.runtime_uuid),
            runtime_address: copy_opt(&self.runtime_address),
            current_state: copy_opt(&self.current_state),
            mapping: self.mapping,
            health: self.health,
        }
    }
}

impl Clone for UsbObservation {
    fn clone(&self) -> (r: Self)
        ensures
            r@ == self@,
    {
        self.duplicate()
    }
}

/// A moment of the machine's clock.
#[verifier::external_type_specification]
#[verifier::external_body]
pub struct ExInstant(Instant);

/// What is remembered of a seat.
pub struct RuntimeRecord {
    pub vm_started_by_multiseat: bool,
    pub attached: Vec<ManagedAttachment>,
    pub logs: Vec<RuntimeLogEntry>,
    pub last_error: Option<String>,
    pub transitional: Option<SeatRuntimeStatus>,
    pub display_mode: ManagedSeatDisplayMode,
    pub mouse_integration: MouseIntegrationStatus,
    pub keyboard_routing_status: InputRoutingRuntimeStatus,
    pub startup_started: Option<Instant>,
    pub startup_trace: Vec<StartupTraceEntry>,
}

/// The model of [`RuntimeRecord`].
#[verifier::ext_equal]
pub struct RuntimeRecordView {
    pub vm_started_by_multiseat: bool,
    pub attached: Seq<ManagedAttachmentView>,
    pub logs: Seq<RuntimeLogEntryView>,
    pub last_error: Option<Text>,
    pub transitional: Option<SeatRuntimeStatus>,
    pub display_mode: ManagedSeatDisplayMode,
    pub mouse_integration: MouseIntegrationStatusView,
    pub keyboard_routing_status: InputRoutingRuntimeStatus,
    pub startup_started: Option<Instant>,
    pub startup_trace: Seq<StartupTraceEntryView>,
}

impl View for RuntimeRecord {
    type V = RuntimeRecordView;

    open spec fn view(&self) -> RuntimeRecordView {
        RuntimeRecordView {
            vm_started_by_multiseat: self.vm_started_by_multiseat,
            attached: duplicate::views(self.attached@),
            logs: duplicate::views(self.logs@),
            last_error: model::opt_text(self.last_error),
            transitional: self.transitional,
            display_mode: self.display_mode,
            mouse_integration: self.mouse_integration@,
            keyboard_routing_status: self.keyboard_routing_status,
            startup_started: self.startup_started,
            startup_trace: duplicate::views(self.startup_trace@),
        }
    }
}

impl Duplicate for RuntimeRecord {
    fn duplicate(&self) -> (r: Self) {
        RuntimeRecord {
            vm_started_by_multiseat: self.vm_started_by_multiseat,
            attached: duplicate_all(&self.attached),
            logs: duplicate_all(&self.logs),
            last_error: copy_opt(&self.last_error),
            transitional: self.transitional,
            display_mode: self.display_mode,
            mouse_integration: self.mouse_integration.duplicate(),
            keyboard_routing_status: self.keyboard_routing_status,
            startup_started: self.startup_started,
            startup_trace: duplicate_all(&self.startup_trace),
        }
    }
}

/// What is remembered of a seat that nothing was done for.
pub open spec fn no_record() -> RuntimeRecordView {
    RuntimeRecordView {
        vm_started_by_multiseat: false,
        attached: seq![],
        logs: seq![],
        last_error: None,
        transitional: None,
        display_mode: ManagedSeatDisplayMode::NormalVirtualBox,
        mouse_integration: mouse_integration::untouched(),
        keyboard_routing_status: InputRoutingRuntimeStatus::PrototypeInactive,
        startup_started: None,
        startup_trace: seq![],
    }
}

impl Default for RuntimeRecord {
    fn default() -> (r: Self)
        ensures
            r@ == no_record(),
    {
        RuntimeRecord {
            vm_started_by_multiseat: false,
            attached: Vec::new(),
            logs: Vec::new(),
            last_error: None,
            transitional: None,
            display_mode: ManagedSeatDisplayMode::NormalVirtualBox,
            mouse_integration: MouseIntegrationStatus::default(),
            keyboard_routing_status: InputRoutingRuntimeStatus::PrototypeInactive,
            startup_started: None,
            startup_trace: Vec::new(),
        }
    }
}

} // verus!
