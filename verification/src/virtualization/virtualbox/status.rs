//! What is reported of a seat.
use super::focus_protection::{FocusProtectionStatus, FocusProtectionStatusView};
use super::mouse_integration::MouseIntegrationState;
use super::presentation::{
    DisplayPresentationStatus, DisplayPresentationStatusView, PresentationState,
};
use super::runtime::{
    HostGuiKeyboardIsolation, InputKind, ManagedAttachment, ManagedAttachmentView,
    ManagedInputIsolationStatus, ManagedInputIsolationStatusView, ManagedSeatDisplayMode,
    MouseIsolationStatus, RuntimeComponentStatus, RuntimeComponentStatusView, RuntimeRecord,
    RuntimeRecordView, SeatRuntimeSnapshot, SeatRuntimeSnapshotView, UsbAttachCommandStatus,
    UsbObservation, UsbRuntimeHealth,
};
use super::seat_rules;
use super::seat_rules::{component_status, observe_usb_in_snapshot, target_device_id, Looked};
use super::service;
use super::service::{Request, Run, VirtualBoxRuntimeService};
use crate::devices::{PhysicalInputDevice, PhysicalInputDeviceView};
use crate::duplicate;
use crate::journal;
use crate::seats::{
    ApplicationConfig, ApplicationConfigView, DeviceRoutingBackend, InputRoutingRuntimeStatus,
    InputRoutingStrategy, SeatId,
};
use crate::text::compose::as_opt_str;
use crate::text::model;
use crate::text::model::Text;
use crate::text::scan::opt_is_any_case;
use crate::virtualization::SeatRuntimeStatus;
use crate::virtualization::usb::{VirtualBoxStatus, VirtualBoxStatusView};
use vstd::prelude::*;

verus! {

/// A listing of USB devices, or why there is none.
pub type UsbListed = Result<VirtualBoxStatusView, Text>;

/// Whether an attachment of a kind was accepted.
pub open spec fn attach_accepted(attached: Seq<ManagedAttachmentView>, kind: InputKind) -> bool {
    exists|i: int|
        0 <= i < attached.len() && (#[trigger] attached[i]).kind == kind
            && attached[i].diagnostic.attach_command == UsbAttachCommandStatus::Success
}

/// What is looked up about the device of a kind. One that is not handed to the guest is not
/// looked up.
pub open spec fn looked_up(
    usb: UsbListed,
    id: Option<Text>,
    kind: InputKind,
    strategy: InputRoutingStrategy,
    devices: Seq<PhysicalInputDeviceView>,
    record: RuntimeRecordView,
) -> Looked {
    match id {
        None => Ok(None),
        Some(text) => if strategy != InputRoutingStrategy::VirtualBoxUsbPassthrough {
            Ok(None)
        } else {
            match usb {
                Err(error) => Err(error),
                Ok(status) => Ok(
                    Some(
                        seat_rules::observed(
                            text,
                            kind,
                            devices,
                            status,
                            attach_accepted(record.attached, kind),
                        ),
                    ),
                ),
            }
        },
    }
}

/// What is reported of the keyboard or the mouse of a seat.
pub open spec fn component_of(
    seat: Text,
    config: ApplicationConfigView,
    kind: InputKind,
    strategy: InputRoutingStrategy,
    devices: Seq<PhysicalInputDeviceView>,
    usb: UsbListed,
    record: RuntimeRecordView,
) -> RuntimeComponentStatusView {
    let id = seat_rules::device_of(config, seat, kind);
    seat_rules::component(
        id,
        kind,
        record,
        devices,
        looked_up(usb, id, kind, strategy, devices, record),
        strategy,
        match id {
            Some(text) => config.safety_of(text, DeviceRoutingBackend::VirtualBoxUsbPassthrough),
            None => None,
        },
    )
}

/// What is reported of the keyboard of a seat. One that is routed natively is doing as its
/// router says.
pub open spec fn keyboard_of(
    seat: Text,
    config: ApplicationConfigView,
    devices: Seq<PhysicalInputDeviceView>,
    usb: UsbListed,
    record: RuntimeRecordView,
) -> RuntimeComponentStatusView {
    let strategy = config.routing_of(seat).keyboard;
    let keyboard = component_of(
        seat,
        config,
        InputKind::Keyboard,
        strategy,
        devices,
        usb,
        record,
    );
    if strategy == InputRoutingStrategy::NativeKeyboardRouting {
        RuntimeComponentStatusView {
            routing_status: record.keyboard_routing_status,
            ..keyboard
        }
    } else {
        keyboard
    }
}

/// The device of a kind that the host keeps for itself.
pub open spec fn host_device(config: ApplicationConfigView, kind: InputKind) -> Option<Text> {
    if config.seats.len() == 0 {
        None
    } else {
        match kind {
            InputKind::Keyboard => config.seats[0].devices.keyboard,
            InputKind::Mouse => config.seats[0].devices.mouse,
        }
    }
}

/// Whether the host's own device of a kind has been taken by VirtualBox.
pub open spec fn host_captured(
    config: ApplicationConfigView,
    devices: Seq<PhysicalInputDeviceView>,
    usb: UsbListed,
    kind: InputKind,
) -> bool {
    match (host_device(config, kind), usb) {
        (Some(id), Ok(status)) => seat_rules::observed(id, kind, devices, status, false).health
            == UsbRuntimeHealth::Captured,
        _ => false,
    }
}

/// What was learned of the mouse-capture policy of a managed machine; nothing of another.
pub type Policy = Option<Result<Option<Text>, Text>>;

/// Everything that was asked for a report.
#[verifier::ext_equal]
pub struct Findings {
    pub vm_state: Option<Text>,
    pub usb: UsbListed,
    pub policy: Policy,
    pub focus: FocusProtectionStatusView,
    pub display: DisplayPresentationStatusView,
}

pub open spec fn policy_value(policy: Policy) -> Option<Text> {
    match policy {
        Some(Ok(value)) => value,
        _ => None,
    }
}

pub open spec fn policy_error(policy: Policy) -> Option<Text> {
    match policy {
        Some(Err(error)) => Some(error),
        _ => None,
    }
}

pub open spec fn capture_disabled(policy: Policy) -> bool {
    model::is_ignoring_case(policy_value(policy), "Disabled"@)
}

/// Whether the mouse of a seat is the seat's alone: it is attached, the machine's window leaves
/// the host's mouse alone, focus is protected, and the host's mouse has not been taken.
pub open spec fn mouse_isolation_of(
    managed: bool,
    record: RuntimeRecordView,
    policy: Policy,
    mouse_attached: bool,
    focus: FocusProtectionStatusView,
    host_mouse_captured: bool,
) -> MouseIsolationStatus {
    if !managed || record.display_mode != ManagedSeatDisplayMode::SeatDisplayLocked {
        MouseIsolationStatus::Inactive
    } else if policy_error(policy) is Some {
        MouseIsolationStatus::Error
    } else if mouse_attached && capture_disabled(policy) && record.mouse_integration.observed
        == MouseIntegrationState::Disabled && focus.active && focus.locked && !host_mouse_captured {
        MouseIsolationStatus::Active
    } else if record.mouse_integration.observed == MouseIntegrationState::Unknown {
        MouseIsolationStatus::Unverified
    } else {
        MouseIsolationStatus::Inactive
    }
}

/// Whether a seat runs with everything that it should have.
pub open spec fn fully_running(
    managed: bool,
    keyboard: RuntimeComponentStatusView,
    mouse: RuntimeComponentStatusView,
    host_keyboard_captured: bool,
    host_mouse_captured: bool,
    isolation: MouseIsolationStatus,
    display: DisplayPresentationStatusView,
) -> bool {
    keyboard.routing_status == InputRoutingRuntimeStatus::Active && mouse.routing_status
        == InputRoutingRuntimeStatus::Active && !host_keyboard_captured && !host_mouse_captured && (
    !managed || isolation == MouseIsolationStatus::Active) && (!managed || display.state
        == PresentationState::Presented)
}

/// What a seat is doing.
pub open spec fn overall(
    record: RuntimeRecordView,
    configured: bool,
    vm_state: Option<Text>,
    complete: bool,
) -> SeatRuntimeStatus {
    match record.transitional {
        Some(status) => status,
        None => if !configured {
            SeatRuntimeStatus::NotConfigured
        } else if record.last_error is Some {
            SeatRuntimeStatus::Error
        } else if model::is_ignoring_case(vm_state, "running"@) {
            if complete {
                SeatRuntimeStatus::Running
            } else {
                SeatRuntimeStatus::PartiallyRunning
            }
        } else {
            SeatRuntimeStatus::Stopped
        },
    }
}

/// What is reported of a seat, from what is remembered and what was found out.
pub open spec fn snapshot_of(
    seat: Text,
    config: ApplicationConfigView,
    devices: Seq<PhysicalInputDeviceView>,
    record: RuntimeRecordView,
    found: Findings,
) -> SeatRuntimeSnapshotView {
    let machine = config.machine(seat);
    let managed = config.is_managed(seat);
    let keyboard = keyboard_of(seat, config, devices, found.usb, record);
    let mouse = component_of(
        seat,
        config,
        InputKind::Mouse,
        config.routing_of(seat).mouse,
        devices,
        found.usb,
        record,
    );
    let host_keyboard = host_captured(config, devices, found.usb, InputKind::Keyboard);
    let host_mouse = host_captured(config, devices, found.usb, InputKind::Mouse);
    let isolation = mouse_isolation_of(
        managed,
        record,
        found.policy,
        mouse.attached,
        found.focus,
        host_mouse,
    );
    SeatRuntimeSnapshotView {
        seat_id: seat,
        status: overall(
            record,
            machine is Some,
            found.vm_state,
            fully_running(
                managed,
                keyboard,
                mouse,
                host_keyboard,
                host_mouse,
                isolation,
                found.display,
            ),
        ),
        vm_id: match machine {
            Some(found_machine) => Some(found_machine.vm_id),
            None => None,
        },
        vm_state: found.vm_state,
        vm_started_by_multiseat: record.vm_started_by_multiseat,
        keyboard,
        mouse,
        display_presentation: found.display,
        startup_trace: record.startup_trace,
        input_isolation: ManagedInputIsolationStatusView {
            display_mode: record.display_mode,
            mouse_capture_policy: policy_value(found.policy),
            mouse_capture_disabled: capture_disabled(found.policy),
            mouse_capture_policy_owned: machine matches Some(found_machine)
                && found_machine.mouse_capture_policy_owned,
            mouse_capture_policy_error: policy_error(found.policy),
            mouse_integration: record.mouse_integration,
            mouse_isolation: isolation,
            focus_protection_active: found.focus.active,
            focus_protection_locked: found.focus.locked,
            focus_restoration_count: found.focus.restoration_count,
            focus_protection_error: found.focus.last_error,
            dennis_keyboard_attached: host_keyboard,
            dennis_mouse_attached: host_mouse,
            host_gui_keyboard_isolation: HostGuiKeyboardIsolation::BestEffort,
        },
        message: record.last_error,
        logs: record.logs,
    }
}

/// The state of a seat's machine, where it has one that can be inspected.
pub open spec fn vm_state_p(w: Run, vm_id: Option<Text>) -> (Run, Option<Text>) {
    match vm_id {
        None => (w, None),
        Some(id) => match service::inspect_vm_p(w, id) {
            (w1, Ok(vm)) => (w1, Some(vm.state)),
            (w1, Err(_)) => (w1, None),
        },
    }
}

/// The mouse-capture policy of a seat's machine, where it is a managed one.
pub open spec fn policy_p(w: Run, seat: Text, config: ApplicationConfigView) -> (Run, Policy) {
    match config.machine(seat) {
        Some(machine) => if machine.managed_by_multiseat {
            let (w1, answer) = service::capture_policy_p(w, machine.vm_id);
            (w1, Some(answer))
        } else {
            (w, None)
        },
        None => (w, None),
    }
}

/// Finds out everything that is reported of a seat.
pub open spec fn findings_p(w: Run, seat: Text, config: ApplicationConfigView) -> (Run, Findings) {
    let (w1, vm_state) = vm_state_p(
        w,
        match config.machine(seat) {
            Some(machine) => Some(machine.vm_id),
            None => None,
        },
    );
    let (w2, usb) = service::usb_status_p(w1);
    let (w3, policy) = policy_p(w2, seat, config);
    let (w4, focus) = journal::ask(w3, Request::FocusStatus);
    let (w5, display) = journal::ask(w4, Request::PresentationStatus);
    (
        w5,
        Findings {
            vm_state,
            usb,
            policy,
            focus: focus->Focus_0,
            display: display->Presentation_0,
        },
    )
}

/// Reports on a seat.
pub open spec fn status_p(
    w: Run,
    seat: Text,
    config: ApplicationConfigView,
    devices: Seq<PhysicalInputDeviceView>,
) -> (Run, SeatRuntimeSnapshotView) {
    let (w1, found) = findings_p(w, seat, config);
    (w1, snapshot_of(seat, config, devices, service::record_of(w, seat), found))
}

/// The view of a report, or of why there is none.
pub open spec fn snapshot_result(r: Result<SeatRuntimeSnapshot, String>) -> Result<
    SeatRuntimeSnapshotView,
    Text,
> {
    match r {
        Ok(snapshot) => Ok(snapshot@),
        Err(message) => Err(message@),
    }
}

fn accepted_attach(attached: &Vec<ManagedAttachment>, kind: InputKind) -> (r: bool)
    ensures
        r == attach_accepted(duplicate::views(attached@), kind),
{
    let ghost all = duplicate::views(attached@);
    let mut i: usize = 0;
    while i < attached.len()
        invariant
            i <= attached@.len(),
            all == duplicate::views(attached@),
            forall|k: int|
                0 <= k < i ==> !((#[trigger] all[k]).kind == kind
                    && all[k].diagnostic.attach_command == UsbAttachCommandStatus::Success),
        decreases attached.len() - i,
    {
        assert(all[i as int] == attached@[i as int]@);
        if attached[i].kind == kind && attached[i].diagnostic.attach_command
            == UsbAttachCommandStatus::Success {
            return true;
        }
        i += 1;
    }
    false
}

fn look_up(
    usb: &Result<VirtualBoxStatus, String>,
    id: &Option<String>,
    kind: InputKind,
    strategy: InputRoutingStrategy,
    devices: &[PhysicalInputDevice],
    record: &RuntimeRecord,
) -> (r: Result<Option<UsbObservation>, String>)
    ensures
        seat_rules::looked_view(r) == looked_up(
            service::usb_result(*usb),
            model::opt_text(*id),
            kind,
            strategy,
            duplicate::views(devices@),
            record@,
        ),
{
    match id {
        None => Ok(None),
        Some(text) => if strategy != InputRoutingStrategy::VirtualBoxUsbPassthrough {
            Ok(None)
        } else {
            match usb {
                Err(error) => Err(error.clone()),
                Ok(status) => {
                    let accepted = accepted_attach(&record.attached, kind);
                    Ok(
                        Some(
                            observe_usb_in_snapshot(
                                text.as_str(),
                                kind,
                                devices,
                                status,
                                accepted,
                            ),
                        ),
                    )
                },
            }
        },
    }
}

fn report_component(
    seat_id: &SeatId,
    configuration: &ApplicationConfig,
    kind: InputKind,
    strategy: InputRoutingStrategy,
    devices: &[PhysicalInputDevice],
    usb: &Result<VirtualBoxStatus, String>,
    record: &RuntimeRecord,
) -> (r: RuntimeComponentStatus)
    ensures
        r@ == component_of(
            seat_id@,
            configuration@,
            kind,
            strategy,
            duplicate::views(devices@),
            service::usb_result(*usb),
            record@,
        ),
{
    let id = target_device_id(seat_id, configuration, kind);
    let observation = look_up(usb, &id, kind, strategy, devices, record);
    let safety = match &id {
        Some(text) => configuration.device_safety(
            text.as_str(),
            DeviceRoutingBackend::VirtualBoxUsbPassthrough,
        ),
        None => None,
    };
    component_status(id, kind, record, devices, observation, strategy, safety)
}

fn report_keyboard(
    seat_id: &SeatId,
    configuration: &ApplicationConfig,
    devices: &[PhysicalInputDevice],
    usb: &Result<VirtualBoxStatus, String>,
    record: &RuntimeRecord,
) -> (r: RuntimeComponentStatus)
    ensures
        r@ == keyboard_of(
            seat_id@,
            configuration@,
            duplicate::views(devices@),
            service::usb_result(*usb),
            record@,
        ),
{
    let strategy = configuration.input_routing(seat_id).keyboard;
    let mut keyboard = report_component(
        seat_id,
        configuration,
        InputKind::Keyboard,
        strategy,
        devices,
        usb,
        record,
    );
    if strategy == InputRoutingStrategy::NativeKeyboardRouting {
        keyboard.routing_status = record.keyboard_routing_status;
    }
    keyboard
}

fn is_host_captured(
    configuration: &ApplicationConfig,
    devices: &[PhysicalInputDevice],
    usb: &Result<VirtualBoxStatus, String>,
    kind: InputKind,
) -> (r: bool)
    ensures
        r == host_captured(
            configuration@,
            duplicate::views(devices@),
            service::usb_result(*usb),
            kind,
        ),
{
    if configuration.seats.len() == 0 {
        return false;
    }
    let host = &configuration.seats[0];
    assert(configuration@.seats[0] == host@);
    let device = match kind {
        InputKind::Keyboard => &host.devices.keyboard,
        InputKind::Mouse => &host.devices.mouse,
    };
    match (device, usb) {
        (Some(id), Ok(status)) => {
            let seen = observe_usb_in_snapshot(id.0.as_str(), kind, devices, status, false);
            seen.health == UsbRuntimeHealth::Captured
        },
        _ => false,
    }
}

spec fn policy_view(policy: Option<Result<Option<String>, String>>) -> Policy {
    match policy {
        Some(answer) => Some(service::opt_text_result(answer)),
        None => None,
    }
}

spec fn findings_view(
    vm_state: Option<String>,
    usb: Result<VirtualBoxStatus, String>,
    policy: Option<Result<Option<String>, String>>,
    focus: FocusProtectionStatus,
    display: DisplayPresentationStatus,
) -> Findings {
    Findings {
        vm_state: model::opt_text(vm_state),
        usb: service::usb_result(usb),
        policy: policy_view(policy),
        focus: focus@,
        display: display@,
    }
}

fn assemble(
    seat_id: &SeatId,
    configuration: &ApplicationConfig,
    devices: &[PhysicalInputDevice],
    record: RuntimeRecord,
    vm_state: Option<String>,
    usb: Result<VirtualBoxStatus, String>,
    policy: Option<Result<Option<String>, String>>,
    focus: FocusProtectionStatus,
    display: DisplayPresentationStatus,
) -> (r: SeatRuntimeSnapshot)
    ensures
        r@ == snapshot_of(
            seat_id@,
            configuration@,
            duplicate::views(devices@),
            record@,
            findings_view(vm_state, usb, policy, focus, display),
        ),
{
    let (vm_id, managed, policy_owned) = match configuration.machine_of(seat_id) {
        Some(machine) => (
            Some(machine.vm_id.clone()),
            machine.managed_by_multiseat,
            machine.mouse_capture_policy_owned,
        ),
        None => (None, false, false),
    };
    let routing = configuration.input_routing(seat_id);
    let keyboard = report_keyboard(seat_id, configuration, devices, &usb, &record);
    let mouse = report_component(
        seat_id,
        configuration,
        InputKind::Mouse,
        routing.mouse,
        devices,
        &usb,
        &record,
    );
    let host_keyboard = is_host_captured(configuration, devices, &usb, InputKind::Keyboard);
    let host_mouse = is_host_captured(configuration, devices, &usb, InputKind::Mouse);
    let (policy_value, policy_error) = match policy {
        Some(Ok(value)) => (value, None),
        Some(Err(error)) => (None, Some(error)),
        None => (None, None),
    };
    let capture_disabled = opt_is_any_case(as_opt_str(&policy_value), "Disabled");
    let observed = record.mouse_integration.observed;
    let isolation = if !managed || record.display_mode
        != ManagedSeatDisplayMode::SeatDisplayLocked {
        MouseIsolationStatus::Inactive
    } else if policy_error.is_some() {
        MouseIsolationStatus::Error
    } else if mouse.attached && capture_disabled && observed == MouseIntegrationState::Disabled
        && focus.active && focus.locked && !host_mouse {
        MouseIsolationStatus::Active
    } else if observed == MouseIntegrationState::Unknown {
        MouseIsolationStatus::Unverified
    } else {
        MouseIsolationStatus::Inactive
    };
    let complete = keyboard.routing_status == InputRoutingRuntimeStatus::Active
        && mouse.routing_status == InputRoutingRuntimeStatus::Active && !host_keyboard
        && !host_mouse && (!managed || isolation == MouseIsolationStatus::Active) && (!managed
        || display.state == PresentationState::Presented);
    let status = match record.transitional {
        Some(status) => status,
        None => if vm_id.is_none() {
            SeatRuntimeStatus::NotConfigured
        } else if record.last_error.is_some() {
            SeatRuntimeStatus::Error
        } else if opt_is_any_case(as_opt_str(&vm_state), "running") {
            if complete {
                SeatRuntimeStatus::Running
            } else {
                SeatRuntimeStatus::PartiallyRunning
            }
        } else {
            SeatRuntimeStatus::Stopped
        },
    };
    SeatRuntimeSnapshot {
        seat_id: seat_id.0.clone(),
        status,
        vm_id,
        vm_state,
        vm_started_by_multiseat: record.vm_started_by_multiseat,
        keyboard,
        mouse,
        display_presentation: display,
        startup_trace: record.startup_trace,
        input_isolation: ManagedInputIsolationStatus {
            display_mode: record.display_mode,
            mouse_capture_policy: policy_value,
            mouse_capture_disabled: capture_disabled,
            mouse_capture_policy_owned: policy_owned,
            mouse_capture_policy_error: policy_error,
            mouse_integration: record.mouse_integration,
            mouse_isolation: isolation,
            focus_protection_active: focus.active,
            focus_protection_locked: focus.locked,
            focus_restoration_count: focus.restoration_count,
            focus_protection_error: focus.last_error,
            dennis_keyboard_attached: host_keyboard,
            dennis_mouse_attached: host_mouse,
            host_gui_keyboard_isolation: HostGuiKeyboardIsolation::BestEffort,
        },
        message: record.last_error,
        logs: record.logs,
    }
}

impl VirtualBoxRuntimeService {
    /// Reports on a seat.
    pub fn status(
        &mut self,
        seat_id: &SeatId,
        configuration: &ApplicationConfig,
        physical_devices: &[PhysicalInputDevice],
    ) -> (r: Result<SeatRuntimeSnapshot, String>)
        ensures
            r is Ok,
            journal::runs(
                *old(self),
                *final(self),
                |w: Run|
                    status_p(w, seat_id@, configuration@, duplicate::views(physical_devices@)),
                r->Ok_0@,
            ),
    {
        let record = self.record(seat_id);
        let (vm_id, managed) = match configuration.machine_of(seat_id) {
            Some(machine) => (Some(machine.vm_id.clone()), machine.managed_by_multiseat),
            None => (None, false),
        };
        let vm_state = match &vm_id {
            Some(id) => match self.inspect_vm(id.as_str()) {
                Ok(vm) => Some(vm.state),
                Err(_) => None,
            },
            None => None,
        };
        let usb = self.usb_status();
        let policy = match &vm_id {
            Some(id) => if managed {
                Some(self.mouse_capture_policy(id.as_str()))
            } else {
                None
            },
            None => None,
        };
        let focus = self.focus_status();
        let display = self.presentation_status();
        Ok(
            assemble(
                seat_id,
                configuration,
                physical_devices,
                record,
                vm_state,
                usb,
                policy,
                focus,
                display,
            ),
        )
    }
}

} // verus!
