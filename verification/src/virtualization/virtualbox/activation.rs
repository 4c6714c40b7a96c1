//! Starting a seat, stopping it, and letting go of its devices.
use super::isolation;
use super::isolation::identity_of;
use super::machine_info;
use super::machine_info::validate_vm;
use super::mouse_integration::{MouseIntegrationState, MouseIntegrationStatusView};
use super::runtime::{
    InputKind, ManagedAttachment, ManagedAttachmentView, ManagedSeatDisplayMode, RuntimeRecordView,
    SeatRuntimeSnapshot, SeatRuntimeSnapshotView,
};
use super::seat_rules;
use super::seat_rules::{
    configured_display_id, configured_vm_id, find_usb, is_managed, validate_activation,
    validate_target_inputs_only, ActivationInputs, ActivationInputsView,
};
use super::service;
use super::service::{args3, args4, Request, Run, VirtualBoxRuntimeService};
use super::status;
use super::usb_attachment;
use crate::devices::{PhysicalInputDevice, PhysicalInputDeviceView};
use crate::duplicate;
use crate::duplicate::Duplicate;
use crate::journal;
use crate::seats::{
    ApplicationConfig, ApplicationConfigView, InputRoutingRuntimeStatus, InputRoutingStrategy,
    SeatId, SeatInputRouting,
};
use crate::text::compose::{as_opt_str, concat2, concat3, join};
use crate::text::model;
use crate::text::model::Text;
use crate::text::scan::{opt_is_any_case, same_any_case};
use crate::virtualization::SeatRuntimeStatus;
use crate::virtualization::usb;
use crate::virtualization::usb::{correlate_usb_device, UsbCorrelationState};
use std::sync::Arc;
use std::sync::atomic::AtomicBool;
use std::time::Instant;
use vstd::prelude::*;

verus! {

// ---- Programs --------------------------------------------------------------------------

/// Everything that a start is given.
#[verifier::ext_equal]
pub struct StartRequest {
    pub seat: Text,
    pub config: ApplicationConfigView,
    pub devices: Seq<PhysicalInputDeviceView>,
    pub anchor: Option<isize>,
    pub flag: Option<Arc<AtomicBool>>,
}

/// The record of a seat whose start begins, or began at a moment. What a start in the background
/// has noted stays.
pub open spec fn begun(record: RuntimeRecordView, started: Instant) -> RuntimeRecordView {
    RuntimeRecordView {
        transitional: Some(SeatRuntimeStatus::Starting),
        last_error: None,
        attached: seq![],
        logs: seq![],
        keyboard_routing_status: InputRoutingRuntimeStatus::PrototypeInactive,
        startup_started: Some(started),
        startup_trace: if record.startup_started is Some {
            record.startup_trace
        } else {
            seq![]
        },
        ..record
    }
}

/// Notes that a start begins.
pub open spec fn begin_p(w: Run, seat: Text, vm_state: Text) -> Run {
    let (w0, started) = service::startup_p(w, seat);
    let w1 = service::remember(w0, seat, begun(service::record_of(w0, seat), started));
    let w2 = if service::record_of(w1, seat).startup_trace.len() == 0 {
        service::trace_p(w1, seat, "StartRequested"@, None, None, None, None)
    } else {
        w1
    };
    let w3 = service::log_p(
        w2,
        seat,
        "activation"@,
        "started"@,
        None,
        None,
        "activation validation succeeded"@,
    );
    service::log_p(w3, seat, "vm-state"@, "observed"@, None, None, vm_state)
}

pub open spec fn note_display_mode(w: Run, seat: Text, mode: ManagedSeatDisplayMode) -> Run {
    service::remember(
        w,
        seat,
        RuntimeRecordView { display_mode: mode, ..service::record_of(w, seat) },
    )
}

/// Keeps a managed machine's window from taking the host's mouse.
pub open spec fn restrain_p(w: Run, seat: Text, vm_id: Text, managed: bool) -> (
    Run,
    Result<(), Text>,
) {
    if !managed {
        (w, Ok(()))
    } else {
        match service::set_capture_policy_p(w, vm_id, "Disabled"@) {
            (w1, Err(message)) => (w1, Err(message)),
            (w1, Ok(())) => (
                note_display_mode(w1, seat, ManagedSeatDisplayMode::SeatDisplayLocked),
                Ok(()),
            ),
        }
    }
}

/// Starts a machine, unless it is running, and remembers who started it.
pub open spec fn power_on_p(w: Run, seat: Text, vm_id: Text, running: bool) -> (
    Run,
    Result<(), Text>,
) {
    if running {
        (
            service::log_p(
                w,
                seat,
                "vm-start"@,
                "skipped"@,
                None,
                None,
                "VM was already running"@,
            ),
            Ok(()),
        )
    } else {
        let (w0, started) = service::moment_p(w);
        match service::checked_p(w0, seq!["startvm"@, vm_id, "--type"@, "gui"@]) {
            (w1, Err(message)) => (w1, Err(message)),
            (w1, Ok(output)) => {
                let w2 = service::timed_trace_p(
                    w1,
                    seat,
                    "VMStartRequested"@,
                    started,
                    Some(vm_id),
                    None,
                    output.exit_code,
                );
                let w3 = service::remember(
                    w2,
                    seat,
                    RuntimeRecordView {
                        vm_started_by_multiseat: true,
                        ..service::record_of(w2, seat)
                    },
                );
                (
                    service::log_p(
                        w3,
                        seat,
                        "vm-start"@,
                        "success"@,
                        None,
                        None,
                        "VirtualBox VM start requested"@,
                    ),
                    Ok(()),
                )
            },
        }
    }
}

/// Shows a managed machine on its display, and keeps the host's input from it.
pub open spec fn present_p(w: Run, request: StartRequest, vm_id: Text, managed: bool) -> (
    Run,
    Result<(), Text>,
) {
    let seat = request.seat;
    if !managed {
        (w, Ok(()))
    } else {
        match service::inspect_vm_p(w, vm_id) {
            (w1, Err(message)) => (w1, Err(message)),
            (w1, Ok(vm)) => {
                let w2 = isolation::start_presentation_p(w1, seat, request.config, vm);
                let w3 = service::trace_p(
                    w2,
                    seat,
                    "PresentationWorkerStarted"@,
                    seat_rules::display_of(request.config, seat),
                    None,
                    None,
                    None,
                );
                let (w4, focused) = journal::ask(
                    w3,
                    Request::FocusStart(isolation::window_identity(vm), request.anchor),
                );
                match focused->Done_0 {
                    Err(message) => (w4, Err(message)),
                    Ok(()) => {
                        let w5 = service::trace_p(
                            w4,
                            seat,
                            "FocusProtectionActive"@,
                            None,
                            None,
                            None,
                            None,
                        );
                        let (w6, reply) = journal::ask(
                            w5,
                            Request::MouseRequest(vm_id, MouseIntegrationState::Disabled),
                        );
                        match reply->Mouse_0 {
                            Err(message) => (w6, Err(message)),
                            Ok(integration) => (
                                isolation::note_mode(
                                    w6,
                                    seat,
                                    ManagedSeatDisplayMode::SeatDisplayLocked,
                                    integration,
                                ),
                                Ok(()),
                            ),
                        }
                    },
                }
            },
        }
    }
}

/// Why a device is not handed to the guest.
pub open spec fn skip_reason(strategy: InputRoutingStrategy) -> Text {
    match strategy {
        InputRoutingStrategy::NativeKeyboardRouting =>
            "physical keyboard USB passthrough disabled; native diagnostic routing selected"@,
        InputRoutingStrategy::Disabled => "input routing is disabled"@,
        InputRoutingStrategy::VirtualBoxUsbPassthrough => "VirtualBox USB passthrough selected"@,
    }
}

/// Takes back what was handed over, and remembers why.
pub open spec fn fail_attach_p(
    w: Run,
    seat: Text,
    vm_id: Text,
    inputs: ActivationInputsView,
    error: Text,
) -> (Run, Text) {
    let (w1, errors) = usb_attachment::rollback_p(
        w,
        seat,
        vm_id,
        seq![inputs.keyboard, inputs.mouse],
    );
    let message = if errors.len() == 0 {
        error
    } else {
        error + "; rollback errors: "@ + model::joined(errors, "; "@)
    };
    (isolation::record_error_p(w1, seat, message), message)
}

/// Notes that handing over a mouse begins, after a look at the clock.
pub open spec fn announced(
    w: Run,
    seat: Text,
    kind: InputKind,
    device: PhysicalInputDeviceView,
) -> Run {
    if kind == InputKind::Mouse {
        service::trace_p(
            service::moment_p(w).0,
            seat,
            "MouseAttachStarted"@,
            Some(device.id),
            None,
            None,
            None,
        )
    } else {
        w
    }
}

/// Hands one device of a seat to the guest, where that is how it is routed. Which USB device it
/// is is looked up at that moment.
pub open spec fn attach_input_p(
    w: Run,
    request: StartRequest,
    vm_id: Text,
    kind: InputKind,
    device: PhysicalInputDeviceView,
    strategy: InputRoutingStrategy,
    inputs: ActivationInputsView,
) -> (Run, Result<(), Text>) {
    let seat = request.seat;
    if strategy != InputRoutingStrategy::VirtualBoxUsbPassthrough {
        (
            service::log_p(
                w,
                seat,
                "input-routing"@,
                "usb-skipped"@,
                Some(device.id),
                None,
                skip_reason(strategy),
            ),
            Ok(()),
        )
    } else {
        let (w0, started) = service::moment_p(w);
        let w1 = announced(w, seat, kind, device);
        match service::not_cancelled_p(w1, request.flag) {
            (w2, Err(message)) => (w2, Err(message)),
            (w2, Ok(())) => match usb_attachment::resolve_single_p(w2, device) {
                (w3, Err(message)) => (w3, Err(message)),
                (w3, Ok(found)) => match usb_attachment::attach_p(
                    w3,
                    seat,
                    vm_id,
                    kind,
                    device,
                    found,
                    request.devices,
                ) {
                    (w4, Err(error)) => {
                        let (w5, message) = fail_attach_p(w4, seat, vm_id, inputs, error);
                        (w5, Err(message))
                    },
                    (w4, Ok(())) => (
                        if kind == InputKind::Mouse {
                            service::timed_trace_p(
                                w4,
                                seat,
                                "MouseCaptured"@,
                                started,
                                Some(device.id),
                                None,
                                None,
                            )
                        } else {
                            w4
                        },
                        Ok(()),
                    ),
                },
            },
        }
    }
}

/// Hands the keyboard and then the mouse of a seat to the guest.
pub open spec fn attach_inputs_p(
    w: Run,
    request: StartRequest,
    vm_id: Text,
    inputs: ActivationInputsView,
    routing: SeatInputRouting,
) -> (Run, Result<(), Text>) {
    match attach_input_p(
        w,
        request,
        vm_id,
        InputKind::Keyboard,
        inputs.keyboard,
        routing.keyboard,
        inputs,
    ) {
        (w1, Err(message)) => (w1, Err(message)),
        (w1, Ok(())) => attach_input_p(
            w1,
            request,
            vm_id,
            InputKind::Mouse,
            inputs.mouse,
            routing.mouse,
            inputs,
        ),
    }
}

/// Waits until a machine runs.
pub open spec fn await_running_p(w: Run, request: StartRequest, vm_id: Text) -> (
    Run,
    Result<(), Text>,
) {
    let (w0, started) = service::moment_p(w);
    match service::wait_for_state_p(w0, vm_id, "running"@, 40, request.flag) {
        (w1, Err(message)) => (w1, Err(message)),
        (w1, Ok(())) => service::not_cancelled_p(
            service::timed_trace_p(
                w1,
                request.seat,
                "VMRunningObserved"@,
                started,
                Some(vm_id),
                None,
                None,
            ),
            request.flag,
        ),
    }
}

/// What follows once a machine was found fit: everything up to its running.
pub open spec fn bring_up_p(
    w: Run,
    request: StartRequest,
    vm_id: Text,
    inputs: ActivationInputsView,
    vm_state: Text,
) -> (Run, Result<(), Text>) {
    let seat = request.seat;
    let managed = request.config.is_managed(seat);
    let routing = request.config.routing_of(seat);
    let running = model::same_ignoring_case(vm_state, "running"@);
    match restrain_p(begin_p(w, seat, vm_state), seat, vm_id, managed) {
        (w1, Err(message)) => (w1, Err(message)),
        (w1, Ok(())) => match usb_attachment::resolve_required_p(
            w1,
            inputs,
            routing,
            request.config,
        ) {
            (w2, Err(message)) => (w2, Err(message)),
            (w2, Ok(())) => match service::not_cancelled_p(w2, request.flag) {
                (w3, Err(message)) => (w3, Err(message)),
                (w3, Ok(())) => match power_on_p(w3, seat, vm_id, running) {
                    (w4, Err(message)) => (w4, Err(message)),
                    (w4, Ok(())) => await_running_p(w4, request, vm_id),
                },
            },
        },
    }
}

/// What follows once a machine is running.
pub open spec fn hand_over_p(
    w: Run,
    request: StartRequest,
    vm_id: Text,
    inputs: ActivationInputsView,
) -> (Run, Result<SeatRuntimeSnapshotView, Text>) {
    let seat = request.seat;
    match present_p(w, request, vm_id, request.config.is_managed(seat)) {
        (w1, Err(message)) => (w1, Err(message)),
        (w1, Ok(())) => match attach_inputs_p(
            w1,
            request,
            vm_id,
            inputs,
            request.config.routing_of(seat),
        ) {
            (w2, Err(message)) => (w2, Err(message)),
            (w2, Ok(())) => isolation::report_p(
                service::remember(
                    w2,
                    seat,
                    RuntimeRecordView {
                        transitional: None,
                        ..service::record_of(w2, seat)
                    },
                ),
                seat,
                request.config,
                request.devices,
            ),
        },
    }
}

/// Starts a seat: checks what it was given, then its machine, then brings the machine up and
/// hands the devices over.
pub open spec fn start_inner_p(w: Run, request: StartRequest) -> (
    Run,
    Result<SeatRuntimeSnapshotView, Text>,
) {
    match service::not_cancelled_p(w, request.flag) {
        (w1, Err(message)) => (w1, Err(message)),
        (w1, Ok(())) => match seat_rules::activation_inputs(
            request.seat,
            request.config,
            request.devices,
        ) {
            Err(message) => (w1, Err(message)),
            Ok(inputs) => match seat_rules::vm_of(request.config, request.seat) {
                Err(message) => (w1, Err(message)),
                Ok(vm_id) => match service::inspect_vm_p(w1, vm_id) {
                    (w2, Err(message)) => (w2, Err(message)),
                    (w2, Ok(vm)) => if machine_info::machine_errors(vm).len() > 0 {
                        (w2, Err(model::joined(machine_info::machine_errors(vm), "; "@)))
                    } else {
                        match bring_up_p(w2, request, vm_id, inputs, vm.state) {
                            (w3, Err(message)) => (w3, Err(message)),
                            (w3, Ok(())) => hand_over_p(w3, request, vm_id, inputs),
                        }
                    },
                },
            },
        },
    }
}

/// Starts a seat. Where that fails, presentation and focus protection end.
pub open spec fn start_p(w: Run, request: StartRequest) -> (
    Run,
    Result<SeatRuntimeSnapshotView, Text>,
) {
    match start_inner_p(w, request) {
        (w1, Ok(snapshot)) => (w1, Ok(snapshot)),
        (w1, Err(message)) => {
            let (w2, _) = journal::ask(w1, Request::PresentationStop);
            let (w3, _) = journal::ask(w2, Request::FocusStop);
            (w3, Err(message))
        },
    }
}

/// Asks a running machine to shut down, by the Guest Additions or else by its power button, and
/// waits a while.
pub open spec fn power_off_p(w: Run, seat: Text, vm_id: Text) -> (Run, Result<(), Text>) {
    match service::checked_p(w, seq!["controlvm"@, vm_id, "shutdown"@]) {
        (w1, Ok(_)) => (
            service::wait_for_state_p(
                service::log_p(
                    w1,
                    seat,
                    "vm-stop"@,
                    "requested"@,
                    None,
                    None,
                    "graceful Guest Additions shutdown requested"@,
                ),
                vm_id,
                "poweroff"@,
                30,
                None,
            ).0,
            Ok(()),
        ),
        (w1, Err(error)) => {
            let w2 = service::log_p(
                w1,
                seat,
                "vm-stop"@,
                "fallback"@,
                None,
                None,
                "Guest shutdown unavailable: "@ + error,
            );
            match service::checked_p(w2, seq!["controlvm"@, vm_id, "acpipowerbutton"@]) {
                (w3, Err(message)) => (w3, Err(message)),
                (w3, Ok(_)) => (
                    service::wait_for_state_p(
                        service::log_p(
                            w3,
                            seat,
                            "vm-stop"@,
                            "requested"@,
                            None,
                            None,
                            "ACPI power button requested"@,
                        ),
                        vm_id,
                        "poweroff"@,
                        30,
                        None,
                    ).0,
                    Ok(()),
                ),
            }
        },
    }
}

pub open spec fn note_stopping(
    w: Run,
    seat: Text,
    integration: MouseIntegrationStatusView,
) -> Run {
    service::remember(
        w,
        seat,
        RuntimeRecordView {
            transitional: Some(SeatRuntimeStatus::Stopping),
            mouse_integration: integration,
            ..service::record_of(w, seat)
        },
    )
}

pub open spec fn note_stopped(w: Run, seat: Text) -> Run {
    service::remember(
        w,
        seat,
        RuntimeRecordView {
            transitional: None,
            vm_started_by_multiseat: false,
            last_error: None,
            display_mode: ManagedSeatDisplayMode::NormalVirtualBox,
            ..service::record_of(w, seat)
        },
    )
}

/// Stops a seat: takes its devices back, and shuts its machine down if it runs.
pub open spec fn stop_p(
    w: Run,
    seat: Text,
    config: ApplicationConfigView,
    devices: Seq<PhysicalInputDeviceView>,
) -> (Run, Result<SeatRuntimeSnapshotView, Text>) {
    match isolation::shutdown_p(isolation::cancel_start_p(w, seat)) {
        (w1, Err(message)) => (w1, Err(message)),
        (w1, Ok(())) => match seat_rules::vm_of(config, seat) {
            Err(message) => (w1, Err(message)),
            Ok(vm_id) => {
                let (w2, reply) = journal::ask(w1, Request::MouseRestore(vm_id));
                match reply->Mouse_0 {
                    Err(message) => (w2, Err(message)),
                    Ok(integration) => match usb_attachment::detach_managed_p(
                        note_stopping(w2, seat, integration),
                        seat,
                        vm_id,
                        devices,
                    ) {
                        (w3, Err(message)) => (w3, Err(message)),
                        (w3, Ok(())) => shut_machine_p(w3, seat, config, devices, vm_id),
                    },
                }
            },
        },
    }
}

pub open spec fn shut_machine_p(
    w: Run,
    seat: Text,
    config: ApplicationConfigView,
    devices: Seq<PhysicalInputDeviceView>,
    vm_id: Text,
) -> (Run, Result<SeatRuntimeSnapshotView, Text>) {
    match service::inspect_vm_p(w, vm_id) {
        (w1, Err(message)) => (w1, Err(message)),
        (w1, Ok(vm)) => if machine_info::is_running(vm) {
            match power_off_p(w1, seat, vm_id) {
                (w2, Err(message)) => (w2, Err(message)),
                (w2, Ok(())) => isolation::report_p(
                    note_stopped(w2, seat),
                    seat,
                    config,
                    devices,
                ),
            }
        } else {
            isolation::report_p(note_stopped(w1, seat), seat, config, devices)
        },
    }
}

/// The attachments of a seat but those of a kind.
pub open spec fn without_kind(attached: Seq<ManagedAttachmentView>, kind: InputKind) -> Seq<
    ManagedAttachmentView,
> {
    attached.filter(|item: ManagedAttachmentView| item.kind != kind)
}

/// Forgets the attachments of a kind.
pub open spec fn forget_kind(w: Run, seat: Text, kind: InputKind) -> Run {
    let record = service::record_of(w, seat);
    service::remember(
        w,
        seat,
        RuntimeRecordView { attached: without_kind(record.attached, kind), ..record },
    )
}

/// The USB device that a device is for sure, where VirtualBox has taken it.
pub open spec fn captured_uuid(
    device: PhysicalInputDeviceView,
    status: usb::VirtualBoxStatusView,
) -> Option<Text> {
    let mapping = usb::correlated(device, status);
    if mapping.state == UsbCorrelationState::Exact || mapping.state
        == UsbCorrelationState::Unambiguous {
        match mapping.matched_uuid {
            None => None,
            Some(uuid) => {
                let state = match seat_rules::usb_device(status.usb_devices, uuid) {
                    Some(found) => found.current_state,
                    None => None,
                };
                if model::is_ignoring_case(state, "captured"@) || model::is_ignoring_case(
                    state,
                    "held"@,
                ) {
                    Some(uuid)
                } else {
                    None
                }
            },
        }
    } else {
        None
    }
}

/// Lets go of one device of a seat, where VirtualBox has taken it.
pub open spec fn release_one_p(
    w: Run,
    seat: Text,
    vm_id: Text,
    kind: InputKind,
    device: PhysicalInputDeviceView,
    strategy: InputRoutingStrategy,
) -> (Run, Result<(), Text>) {
    if strategy != InputRoutingStrategy::VirtualBoxUsbPassthrough {
        (forget_kind(w, seat, kind), Ok(()))
    } else {
        match service::usb_status_p(w) {
            (w1, Err(message)) => (w1, Err(message)),
            (w1, Ok(status)) => match captured_uuid(device, status) {
                None => (forget_kind(w1, seat, kind), Ok(())),
                Some(uuid) => {
                    let (w2, answer) = service::checked_p(
                        w1,
                        seq!["controlvm"@, vm_id, "usbdetach"@, uuid],
                    );
                    let w3 = service::log_p(
                        w2,
                        seat,
                        "usb-detach"@,
                        if answer is Ok {
                            "success"@
                        } else {
                            "error"@
                        },
                        Some(device.id),
                        Some(uuid),
                        match answer {
                            Ok(_) => "configured Barnen device released"@,
                            Err(error) => error,
                        },
                    );
                    (forget_kind(w3, seat, kind), Ok(()))
                },
            },
        }
    }
}

/// Lets go of the devices of a seat.
pub open spec fn release_p(
    w: Run,
    seat: Text,
    config: ApplicationConfigView,
    devices: Seq<PhysicalInputDeviceView>,
) -> (Run, Result<SeatRuntimeSnapshotView, Text>) {
    let routing = config.routing_of(seat);
    match seat_rules::target_inputs(seat, config, devices) {
        Err(message) => (w, Err(message)),
        Ok(inputs) => match seat_rules::vm_of(config, seat) {
            Err(message) => (w, Err(message)),
            Ok(vm_id) => match release_one_p(
                w,
                seat,
                vm_id,
                InputKind::Keyboard,
                inputs.keyboard,
                routing.keyboard,
            ) {
                (w1, Err(message)) => (w1, Err(message)),
                (w1, Ok(())) => match release_one_p(
                    w1,
                    seat,
                    vm_id,
                    InputKind::Mouse,
                    inputs.mouse,
                    routing.mouse,
                ) {
                    (w2, Err(message)) => (w2, Err(message)),
                    (w2, Ok(())) => isolation::report_p(
                        service::remember(
                            w2,
                            seat,
                            RuntimeRecordView {
                                last_error: None,
                                transitional: None,
                                ..service::record_of(w2, seat)
                            },
                        ),
                        seat,
                        config,
                        devices,
                    ),
                },
            },
        },
    }
}

// ---- The service -----------------------------------------------------------------------

pub open spec fn start_request(
    seat_id: &SeatId,
    configuration: &ApplicationConfig,
    physical_devices: &[PhysicalInputDevice],
    focus_anchor: Option<isize>,
    cancellation: Option<&Arc<AtomicBool>>,
) -> StartRequest {
    StartRequest {
        seat: seat_id@,
        config: configuration@,
        devices: duplicate::views(physical_devices@),
        anchor: focus_anchor,
        flag: service::flag_of(cancellation),
    }
}

impl VirtualBoxRuntimeService {
    /// Starts a seat.
    pub fn start(
        &mut self,
        seat_id: &SeatId,
        configuration: &ApplicationConfig,
        physical_devices: &[PhysicalInputDevice],
        focus_anchor: Option<isize>,
    ) -> (r: Result<SeatRuntimeSnapshot, String>)
        ensures
            journal::runs(
                *old(self),
                *final(self),
                |w: Run|
                    start_p(
                        w,
                        StartRequest {
                            seat: seat_id@,
                            config: configuration@,
                            devices: duplicate::views(physical_devices@),
                            anchor: focus_anchor,
                            flag: None,
                        },
                    ),
                status::snapshot_result(r),
            ),
    {
        let result = self.start_inner(seat_id, configuration, physical_devices, focus_anchor, None);
        if result.is_err() {
            let _ = self.presentation_stop();
            let _ = self.focus_stop();
        }
        result
    }

    /// Starts a seat, unless a flag is raised meanwhile.
    pub fn start_with_cancellation(
        &mut self,
        seat_id: &SeatId,
        configuration: &ApplicationConfig,
        physical_devices: &[PhysicalInputDevice],
        focus_anchor: Option<isize>,
        cancellation: &Arc<AtomicBool>,
    ) -> (r: Result<SeatRuntimeSnapshot, String>)
        ensures
            journal::runs(
                *old(self),
                *final(self),
                |w: Run|
                    start_p(
                        w,
                        StartRequest {
                            seat: seat_id@,
                            config: configuration@,
                            devices: duplicate::views(physical_devices@),
                            anchor: focus_anchor,
                            flag: Some(*cancellation),
                        },
                    ),
                status::snapshot_result(r),
            ),
    {
        let result = self.start_inner(
            seat_id,
            configuration,
            physical_devices,
            focus_anchor,
            Some(cancellation),
        );
        if result.is_err() {
            let _ = self.presentation_stop();
            let _ = self.focus_stop();
        }
        result
    }

    fn begin_activation(&mut self, seat_id: &SeatId, vm_state: &str)
        ensures
            journal::runs(
                *old(self),
                *final(self),
                |w: Run| (begin_p(w, seat_id@, vm_state@), ()),
                (),
            ),
    {
        let mut record = self.record(seat_id);
        let ghost before = record@;
        record.transitional = Some(SeatRuntimeStatus::Starting);
        record.last_error = None;
        record.attached = Vec::new();
        record.logs = Vec::new();
        record.keyboard_routing_status = InputRoutingRuntimeStatus::PrototypeInactive;
        if record.startup_started.is_none() {
            record.startup_started = Some(self.moment());
            record.startup_trace = Vec::new();
        }
        let untraced = record.startup_trace.len() == 0;
        assert(record@ =~= begun(before, record@.startup_started->0));
        assert(untraced == (record@.startup_trace.len() == 0));
        self.replace_record(seat_id, record);
        if untraced {
            self.trace(seat_id, "StartRequested", None, None);
        }
        self.log(seat_id, "activation", "started", None, None, "activation validation succeeded");
        self.log(seat_id, "vm-state", "observed", None, None, vm_state);
    }

    fn restrain(&mut self, seat_id: &SeatId, vm_id: &str, managed: bool) -> (r: Result<(), String>)
        ensures
            journal::runs(
                *old(self),
                *final(self),
                |w: Run| restrain_p(w, seat_id@, vm_id@, managed),
                model::with_message(r),
            ),
    {
        if !managed {
            return Ok(());
        }
        if let Err(message) = self.set_mouse_capture_policy(vm_id, "Disabled") {
            return Err(message);
        }
        let mut record = self.record(seat_id);
        record.display_mode = ManagedSeatDisplayMode::SeatDisplayLocked;
        self.replace_record(seat_id, record);
        Ok(())
    }

    fn power_on(&mut self, seat_id: &SeatId, vm_id: &str, running: bool) -> (r: Result<(), String>)
        ensures
            journal::runs(
                *old(self),
                *final(self),
                |w: Run| power_on_p(w, seat_id@, vm_id@, running),
                model::with_message(r),
            ),
    {
        if running {
            self.log(seat_id, "vm-start", "skipped", None, None, "VM was already running");
            return Ok(());
        }
        let started = self.moment();
        let output = match self.checked(args4("startvm", vm_id, "--type", "gui")) {
            Ok(output) => output,
            Err(message) => {
                return Err(message);
            },
        };
        self.trace_since(
            seat_id,
            "VMStartRequested",
            started,
            Some(vm_id),
            None,
            output.exit_code,
        );
        let mut record = self.record(seat_id);
        record.vm_started_by_multiseat = true;
        self.replace_record(seat_id, record);
        self.log(seat_id, "vm-start", "success", None, None, "VirtualBox VM start requested");
        Ok(())
    }

    fn present_machine(
        &mut self,
        seat_id: &SeatId,
        configuration: &ApplicationConfig,
        physical_devices: &[PhysicalInputDevice],
        focus_anchor: Option<isize>,
        cancellation: Option<&Arc<AtomicBool>>,
        vm_id: &str,
        managed: bool,
    ) -> (r: Result<(), String>)
        ensures
            journal::runs(
                *old(self),
                *final(self),
                |w: Run|
                    present_p(
                        w,
                        start_request(
                            seat_id,
                            configuration,
                            physical_devices,
                            focus_anchor,
                            cancellation,
                        ),
                        vm_id@,
                        managed,
                    ),
                model::with_message(r),
            ),
    {
        if !managed {
            return Ok(());
        }
        let vm = match self.inspect_vm(vm_id) {
            Ok(vm) => vm,
            Err(message) => {
                return Err(message);
            },
        };
        self.start_managed_presentation(seat_id, configuration, &vm);
        let display = configured_display_id(seat_id, configuration);
        self.trace(seat_id, "PresentationWorkerStarted", as_opt_str(&display), None);
        if let Err(message) = self.focus_start(identity_of(&vm), focus_anchor) {
            return Err(message);
        }
        self.trace(seat_id, "FocusProtectionActive", None, None);
        let integration = match self.mouse_request(vm_id, MouseIntegrationState::Disabled) {
            Ok(integration) => integration,
            Err(message) => {
                return Err(message);
            },
        };
        let mut record = self.record(seat_id);
        record.mouse_integration = integration;
        record.display_mode = ManagedSeatDisplayMode::SeatDisplayLocked;
        self.replace_record(seat_id, record);
        Ok(())
    }

    fn fail_attach(
        &mut self,
        seat_id: &SeatId,
        vm_id: &str,
        inputs: &ActivationInputs<'_>,
        error: String,
    ) -> (r: String)
        ensures
            journal::runs(
                *old(self),
                *final(self),
                |w: Run| fail_attach_p(w, seat_id@, vm_id@, inputs@, error@),
                r@,
            ),
    {
        let devices = vec![inputs.keyboard.duplicate(), inputs.mouse.duplicate()];
        assert(duplicate::views(devices@) =~= seq![inputs@.keyboard, inputs@.mouse]);
        let errors = self.rollback(seat_id, vm_id, devices.as_slice());
        let message = if errors.len() == 0 {
            error
        } else {
            concat3(error.as_str(), "; rollback errors: ", join(&errors, "; ").as_str())
        };
        let _ = self.record_error(seat_id, message.as_str());
        message
    }

    fn attach_input(
        &mut self,
        seat_id: &SeatId,
        configuration: &ApplicationConfig,
        physical_devices: &[PhysicalInputDevice],
        focus_anchor: Option<isize>,
        cancellation: Option<&Arc<AtomicBool>>,
        vm_id: &str,
        kind: InputKind,
        physical: &PhysicalInputDevice,
        strategy: InputRoutingStrategy,
        inputs: &ActivationInputs<'_>,
    ) -> (r: Result<(), String>)
        ensures
            journal::runs(
                *old(self),
                *final(self),
                |w: Run|
                    attach_input_p(
                        w,
                        start_request(
                            seat_id,
                            configuration,
                            physical_devices,
                            focus_anchor,
                            cancellation,
                        ),
                        vm_id@,
                        kind,
                        physical@,
                        strategy,
                        inputs@,
                    ),
                model::with_message(r),
            ),
    {
        let id = physical.id.as_str();
        if strategy != InputRoutingStrategy::VirtualBoxUsbPassthrough {
            let reason = match strategy {
                InputRoutingStrategy::NativeKeyboardRouting =>
                    "physical keyboard USB passthrough disabled; native diagnostic routing selected",
                InputRoutingStrategy::Disabled => "input routing is disabled",
                InputRoutingStrategy::VirtualBoxUsbPassthrough =>
                    "VirtualBox USB passthrough selected",
            };
            self.log(seat_id, "input-routing", "usb-skipped", Some(id), None, reason);
            return Ok(());
        }
        let mut attach_started: Option<Instant> = None;
        if kind == InputKind::Mouse {
            attach_started = Some(self.moment());
            self.trace(seat_id, "MouseAttachStarted", Some(id), None);
        }
        if let Err(message) = self.check_start_cancelled(cancellation) {
            return Err(message);
        }
        let resolved = match self.resolve_single_usb(physical) {
            Ok(resolved) => resolved,
            Err(message) => {
                return Err(message);
            },
        };
        if let Err(error) = self.attach(
            seat_id,
            vm_id,
            kind,
            physical,
            &resolved,
            physical_devices,
        ) {
            return Err(self.fail_attach(seat_id, vm_id, inputs, error));
        }
        if let Some(started) = attach_started {
            self.trace_since(seat_id, "MouseCaptured", started, Some(id), None, None);
        }
        Ok(())
    }

    fn bring_up(
        &mut self,
        seat_id: &SeatId,
        configuration: &ApplicationConfig,
        physical_devices: &[PhysicalInputDevice],
        focus_anchor: Option<isize>,
        cancellation: Option<&Arc<AtomicBool>>,
        vm_id: &str,
        inputs: &ActivationInputs<'_>,
        vm_state: &str,
    ) -> (r: Result<(), String>)
        ensures
            journal::runs(
                *old(self),
                *final(self),
                |w: Run|
                    bring_up_p(
                        w,
                        start_request(
                            seat_id,
                            configuration,
                            physical_devices,
                            focus_anchor,
                            cancellation,
                        ),
                        vm_id@,
                        inputs@,
                        vm_state@,
                    ),
                model::with_message(r),
            ),
    {
        let managed = is_managed(seat_id, configuration);
        let routing = configuration.input_routing(seat_id);
        let running = same_any_case(vm_state, "running");
        self.begin_activation(seat_id, vm_state);
        if let Err(message) = self.restrain(seat_id, vm_id, managed) {
            return Err(message);
        }
        // The identifiers found here only show that the devices can be found: each is looked up
        // again when its device is handed over.
        if let Err(message) = self.resolve_required_usb(inputs, routing, configuration) {
            return Err(message);
        }
        if let Err(message) = self.check_start_cancelled(cancellation) {
            return Err(message);
        }
        if let Err(message) = self.power_on(seat_id, vm_id, running) {
            return Err(message);
        }
        let started = self.moment();
        if let Err(message) = self.wait_for_vm_state(vm_id, "running", 40, cancellation) {
            return Err(message);
        }
        self.trace_since(seat_id, "VMRunningObserved", started, Some(vm_id), None, None);
        self.check_start_cancelled(cancellation)
    }

    fn attach_inputs(
        &mut self,
        seat_id: &SeatId,
        configuration: &ApplicationConfig,
        physical_devices: &[PhysicalInputDevice],
        focus_anchor: Option<isize>,
        cancellation: Option<&Arc<AtomicBool>>,
        vm_id: &str,
        inputs: &ActivationInputs<'_>,
    ) -> (r: Result<(), String>)
        ensures
            journal::runs(
                *old(self),
                *final(self),
                |w: Run|
                    attach_inputs_p(
                        w,
                        start_request(
                            seat_id,
                            configuration,
                            physical_devices,
                            focus_anchor,
                            cancellation,
                        ),
                        vm_id@,
                        inputs@,
                        configuration@.routing_of(seat_id@),
                    ),
                model::with_message(r),
            ),
    {
        let routing = configuration.input_routing(seat_id);
        if let Err(message) = self.attach_input(
            seat_id,
            configuration,
            physical_devices,
            focus_anchor,
            cancellation,
            vm_id,
            InputKind::Keyboard,
            inputs.keyboard,
            routing.keyboard,
            inputs,
        ) {
            return Err(message);
        }
        self.attach_input(
            seat_id,
            configuration,
            physical_devices,
            focus_anchor,
            cancellation,
            vm_id,
            InputKind::Mouse,
            inputs.mouse,
            routing.mouse,
            inputs,
        )
    }

    fn hand_over(
        &mut self,
        seat_id: &SeatId,
        configuration: &ApplicationConfig,
        physical_devices: &[PhysicalInputDevice],
        focus_anchor: Option<isize>,
        cancellation: Option<&Arc<AtomicBool>>,
        vm_id: &str,
        inputs: &ActivationInputs<'_>,
    ) -> (r: Result<SeatRuntimeSnapshot, String>)
        ensures
            journal::runs(
                *old(self),
                *final(self),
                |w: Run|
                    hand_over_p(
                        w,
                        start_request(
                            seat_id,
                            configuration,
                            physical_devices,
                            focus_anchor,
                            cancellation,
                        ),
                        vm_id@,
                        inputs@,
                    ),
                status::snapshot_result(r),
            ),
    {
        let managed = is_managed(seat_id, configuration);
        if let Err(message) = self.present_machine(
            seat_id,
            configuration,
            physical_devices,
            focus_anchor,
            cancellation,
            vm_id,
            managed,
        ) {
            return Err(message);
        }
        if let Err(message) = self.attach_inputs(
            seat_id,
            configuration,
            physical_devices,
            focus_anchor,
            cancellation,
            vm_id,
            inputs,
        ) {
            return Err(message);
        }
        let mut record = self.record(seat_id);
        record.transitional = None;
        self.replace_record(seat_id, record);
        self.status(seat_id, configuration, physical_devices)
    }

    pub(crate) fn start_inner(
        &mut self,
        seat_id: &SeatId,
        configuration: &ApplicationConfig,
        physical_devices: &[PhysicalInputDevice],
        focus_anchor: Option<isize>,
        cancellation: Option<&Arc<AtomicBool>>,
    ) -> (r: Result<SeatRuntimeSnapshot, String>)
        ensures
            journal::runs(
                *old(self),
                *final(self),
                |w: Run|
                    start_inner_p(
                        w,
                        start_request(
                            seat_id,
                            configuration,
                            physical_devices,
                            focus_anchor,
                            cancellation,
                        ),
                    ),
                status::snapshot_result(r),
            ),
    {
        if let Err(message) = self.check_start_cancelled(cancellation) {
            return Err(message);
        }
        let inputs = match validate_activation(seat_id, configuration, physical_devices) {
            Ok(inputs) => inputs,
            Err(message) => {
                return Err(message);
            },
        };
        let vm_id = match configured_vm_id(seat_id, configuration) {
            Ok(id) => id,
            Err(message) => {
                return Err(message);
            },
        };
        let vm = match self.inspect_vm(vm_id.as_str()) {
            Ok(vm) => vm,
            Err(message) => {
                return Err(message);
            },
        };
        let vm_errors = validate_vm(&vm);
        assert(model::texts(vm_errors@).len() == vm_errors@.len());
        if vm_errors.len() > 0 {
            return Err(join(&vm_errors, "; "));
        }
        if let Err(message) = self.bring_up(
            seat_id,
            configuration,
            physical_devices,
            focus_anchor,
            cancellation,
            vm_id.as_str(),
            &inputs,
            vm.state.as_str(),
        ) {
            return Err(message);
        }
        self.hand_over(
            seat_id,
            configuration,
            physical_devices,
            focus_anchor,
            cancellation,
            vm_id.as_str(),
            &inputs,
        )
    }

    fn power_off(&mut self, seat_id: &SeatId, vm_id: &str) -> (r: Result<(), String>)
        ensures
            journal::runs(
                *old(self),
                *final(self),
                |w: Run| power_off_p(w, seat_id@, vm_id@),
                model::with_message(r),
            ),
    {
        match self.checked(args3("controlvm", vm_id, "shutdown")) {
            Ok(_) => {
                self.log(
                    seat_id,
                    "vm-stop",
                    "requested",
                    None,
                    None,
                    "graceful Guest Additions shutdown requested",
                );
            },
            Err(error) => {
                let detail = concat2("Guest shutdown unavailable: ", error.as_str());
                self.log(seat_id, "vm-stop", "fallback", None, None, detail.as_str());
                if let Err(message) = self.checked(
                    args3("controlvm", vm_id, "acpipowerbutton"),
                ) {
                    return Err(message);
                }
                self.log(
                    seat_id,
                    "vm-stop",
                    "requested",
                    None,
                    None,
                    "ACPI power button requested",
                );
            },
        }
        let _ = self.wait_for_vm_state(vm_id, "poweroff", 30, None);
        Ok(())
    }

    /// Stops a seat.
    pub fn stop(
        &mut self,
        seat_id: &SeatId,
        configuration: &ApplicationConfig,
        physical_devices: &[PhysicalInputDevice],
    ) -> (r: Result<SeatRuntimeSnapshot, String>)
        ensures
            journal::runs(
                *old(self),
                *final(self),
                |w: Run|
                    stop_p(w, seat_id@, configuration@, duplicate::views(physical_devices@)),
                status::snapshot_result(r),
            ),
    {
        self.cancel_asynchronous_start(seat_id);
        if let Err(message) = self.shutdown_focus_protection() {
            return Err(message);
        }
        let vm_id = match configured_vm_id(seat_id, configuration) {
            Ok(id) => id,
            Err(message) => {
                return Err(message);
            },
        };
        let integration = match self.mouse_restore(vm_id.as_str()) {
            Ok(integration) => integration,
            Err(message) => {
                return Err(message);
            },
        };
        let mut record = self.record(seat_id);
        record.transitional = Some(SeatRuntimeStatus::Stopping);
        record.mouse_integration = integration;
        self.replace_record(seat_id, record);
        if let Err(message) = self.detach_managed(seat_id, vm_id.as_str(), physical_devices) {
            return Err(message);
        }
        let vm = match self.inspect_vm(vm_id.as_str()) {
            Ok(vm) => vm,
            Err(message) => {
                return Err(message);
            },
        };
        if same_any_case(vm.state.as_str(), "running") {
            if let Err(message) = self.power_off(seat_id, vm_id.as_str()) {
                return Err(message);
            }
        }
        let mut record = self.record(seat_id);
        record.transitional = None;
        record.vm_started_by_multiseat = false;
        record.last_error = None;
        record.display_mode = ManagedSeatDisplayMode::NormalVirtualBox;
        self.replace_record(seat_id, record);
        self.status(seat_id, configuration, physical_devices)
    }

    fn drop_kind(&mut self, seat_id: &SeatId, kind: InputKind)
        ensures
            journal::runs(
                *old(self),
                *final(self),
                |w: Run| (forget_kind(w, seat_id@, kind), ()),
                (),
            ),
    {
        let mut record = self.record(seat_id);
        let ghost before = record@;
        record.attached = retain_other_kinds(&record.attached, kind);
        assert(record@ == (RuntimeRecordView {
            attached: without_kind(before.attached, kind),
            ..before
        }));
        self.replace_record(seat_id, record);
    }

    fn release_one(
        &mut self,
        seat_id: &SeatId,
        vm_id: &str,
        kind: InputKind,
        physical: &PhysicalInputDevice,
        strategy: InputRoutingStrategy,
    ) -> (r: Result<(), String>)
        ensures
            journal::runs(
                *old(self),
                *final(self),
                |w: Run| release_one_p(w, seat_id@, vm_id@, kind, physical@, strategy),
                model::with_message(r),
            ),
    {
        if strategy != InputRoutingStrategy::VirtualBoxUsbPassthrough {
            self.drop_kind(seat_id, kind);
            return Ok(());
        }
        let current = match self.usb_status() {
            Ok(status) => status,
            Err(message) => {
                return Err(message);
            },
        };
        if let Some(uuid) = find_captured(physical, &current) {
            match self.checked(args4("controlvm", vm_id, "usbdetach", uuid.as_str())) {
                Ok(_) => {
                    self.log(
                        seat_id,
                        "usb-detach",
                        "success",
                        Some(physical.id.as_str()),
                        Some(uuid.as_str()),
                        "configured Barnen device released",
                    );
                },
                Err(error) => {
                    self.log(
                        seat_id,
                        "usb-detach",
                        "error",
                        Some(physical.id.as_str()),
                        Some(uuid.as_str()),
                        error.as_str(),
                    );
                },
            }
        }
        self.drop_kind(seat_id, kind);
        Ok(())
    }

    /// Lets go of the devices of a seat.
    pub fn release(
        &mut self,
        seat_id: &SeatId,
        configuration: &ApplicationConfig,
        physical_devices: &[PhysicalInputDevice],
    ) -> (r: Result<SeatRuntimeSnapshot, String>)
        ensures
            journal::runs(
                *old(self),
                *final(self),
                |w: Run|
                    release_p(w, seat_id@, configuration@, duplicate::views(physical_devices@)),
                status::snapshot_result(r),
            ),
    {
        let inputs = match validate_target_inputs_only(seat_id, configuration, physical_devices) {
            Ok(inputs) => inputs,
            Err(message) => {
                return Err(message);
            },
        };
        let vm_id = match configured_vm_id(seat_id, configuration) {
            Ok(id) => id,
            Err(message) => {
                return Err(message);
            },
        };
        let routing = configuration.input_routing(seat_id);
        if let Err(message) = self.release_one(
            seat_id,
            vm_id.as_str(),
            InputKind::Keyboard,
            inputs.keyboard,
            routing.keyboard,
        ) {
            return Err(message);
        }
        if let Err(message) = self.release_one(
            seat_id,
            vm_id.as_str(),
            InputKind::Mouse,
            inputs.mouse,
            routing.mouse,
        ) {
            return Err(message);
        }
        let mut record = self.record(seat_id);
        record.last_error = None;
        record.transitional = None;
        self.replace_record(seat_id, record);
        self.status(seat_id, configuration, physical_devices)
    }
}

fn retain_other_kinds(attached: &Vec<ManagedAttachment>, kind: InputKind) -> (r: Vec<
    ManagedAttachment,
>)
    ensures
        duplicate::views(r@) == without_kind(duplicate::views(attached@), kind),
{
    let ghost all = duplicate::views(attached@);
    let ghost keep = |item: ManagedAttachmentView| item.kind != kind;
    let mut kept: Vec<ManagedAttachment> = Vec::new();
    let mut i: usize = 0;
    proof {
        reveal(Seq::filter);
        assert(duplicate::views(kept@) =~= all.take(0).filter(keep));
    }
    while i < attached.len()
        invariant
            i <= attached@.len(),
            all == duplicate::views(attached@),
            keep == (|item: ManagedAttachmentView| item.kind != kind),
            duplicate::views(kept@) == all.take(i as int).filter(keep),
        decreases attached.len() - i,
    {
        let item = &attached[i];
        proof {
            reveal(Seq::filter);
            assert(all.take(i + 1).drop_last() =~= all.take(i as int));
            assert(all.take(i + 1).last() == item@);
        }
        if item.kind != kind {
            let ghost before = kept@;
            kept.push(item.duplicate());
            assert(duplicate::views(kept@) =~= duplicate::views(before).push(item@));
        }
        i += 1;
    }
    assert(all.take(i as int) =~= all);
    kept
}

fn find_captured(physical: &PhysicalInputDevice, status: &usb::VirtualBoxStatus) -> (r: Option<
    String,
>)
    ensures
        model::opt_text(r) == captured_uuid(physical@, status@),
{
    let mapping = correlate_usb_device(physical, status);
    if mapping.state != UsbCorrelationState::Exact && mapping.state
        != UsbCorrelationState::Unambiguous {
        return None;
    }
    match &mapping.matched_uuid {
        None => None,
        Some(uuid) => {
            let captured = match find_usb(&status.usb_devices, uuid.as_str()) {
                Some(device) => {
                    let state = as_opt_str(&device.current_state);
                    opt_is_any_case(state, "captured") || opt_is_any_case(state, "held")
                },
                None => false,
            };
            if captured {
                Some(uuid.clone())
            } else {
                None
            }
        },
    }
}

} // verus!
