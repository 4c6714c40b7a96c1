//! Keeping the input of the host and that of a seat apart, and accepting starts.
use super::focus_protection::{ManagedVmWindowIdentity, ManagedVmWindowIdentityView};
use super::mouse_integration::{MouseIntegrationState, MouseIntegrationStatusView};
use super::presentation;
use super::presentation::{
    DisplayPresentationStatus, DisplayPresentationStatusView, PresentationState,
};
use super::runtime;
use super::runtime::{
    InputKind, ManagedInputIsolationStatus, ManagedSeatDisplayMode, RuntimeRecord,
    RuntimeRecordView, SeatRuntimeSnapshot, SeatRuntimeSnapshotView, VirtualMachine,
    VirtualMachineView,
};
use super::seat_rules;
use super::seat_rules::{
    configured_display_id, configured_vm_id, managed_backend, pending_component, require_running,
    target_device_id,
};
use super::service;
use super::service::{Request, Run, ServiceView, VirtualBoxRuntimeService};
use super::status;
use crate::devices::{PhysicalInputDevice, PhysicalInputDeviceView};
use crate::duplicate;
use crate::journal;
use crate::journal::Journaled;
use crate::seats::{ApplicationConfig, ApplicationConfigView, InputRoutingRuntimeStatus, SeatId};
use crate::text::compose::concat3;
use crate::text::model;
use crate::text::model::Text;
use crate::text_map;
use crate::virtualization::SeatRuntimeStatus;
use std::sync::Arc;
use std::sync::atomic::AtomicBool;
use std::time::Instant;
use vstd::prelude::*;

verus! {

// ---- Programs --------------------------------------------------------------------------

/// Remembers an error of a seat.
pub open spec fn record_error_p(w: Run, seat: Text, error: Text) -> Run {
    service::remember(
        w,
        seat,
        RuntimeRecordView {
            last_error: Some(error),
            transitional: Some(SeatRuntimeStatus::Error),
            ..service::record_of(w, seat)
        },
    )
}

/// What is reported of a seat whose start has just been accepted.
pub open spec fn accepted_snapshot(
    seat: Text,
    config: ApplicationConfigView,
    record: RuntimeRecordView,
) -> SeatRuntimeSnapshotView {
    let routing = config.routing_of(seat);
    SeatRuntimeSnapshotView {
        seat_id: seat,
        status: SeatRuntimeStatus::Starting,
        vm_id: match config.machine(seat) {
            Some(machine) => Some(machine.vm_id),
            None => None,
        },
        vm_state: Some("start-requested"@),
        vm_started_by_multiseat: false,
        keyboard: seat_rules::pending(
            seat_rules::device_of(config, seat, InputKind::Keyboard),
            routing.keyboard,
            record,
        ),
        mouse: seat_rules::pending(
            seat_rules::device_of(config, seat, InputKind::Mouse),
            routing.mouse,
            record,
        ),
        display_presentation: DisplayPresentationStatusView {
            state: PresentationState::WaitingForVmWindow,
            assigned_display_id: seat_rules::display_of(config, seat),
            ..presentation::no_presentation()
        },
        startup_trace: record.startup_trace,
        input_isolation: runtime::no_isolation(),
        message: Some("Start accepted; VM and seat components are starting"@),
        logs: record.logs,
    }
}

/// What accepting a start gives: the flag that cancels it, and a report.
pub type Accepted = (Arc<AtomicBool>, SeatRuntimeSnapshotView);

/// Accepts the start of a seat, unless it is being started. A new flag, which is not raised,
/// cancels it from now on.
pub open spec fn begin_start_p(w: Run, seat: Text, config: ApplicationConfigView) -> (
    Run,
    Result<Accepted, Text>,
) {
    if w.state.starting.contains(seat) {
        (w, Err("seat '"@ + seat + "' is already starting"@))
    } else {
        let (w0, reply) = journal::ask(w, Request::NewFlag(false));
        let flag = reply->NewFlag_0;
        let (w1, started) = service::moment_p(
            journal::in_state(
                w0,
                ServiceView {
                    starting: w.state.starting.insert(seat),
                    cancellations: w.state.cancellations.insert(seat, flag),
                    ..w.state
                },
            ),
        );
        let w2 = service::remember(
            w1,
            seat,
            RuntimeRecordView {
                transitional: Some(SeatRuntimeStatus::Starting),
                startup_started: Some(started),
                ..runtime::no_record()
            },
        );
        let w3 = service::trace_p(w2, seat, "StartRequested"@, None, None, None, None);
        let w4 = service::trace_p(
            w3,
            seat,
            "StartCommandReturned"@,
            Some("startup accepted; activation continues on a background worker"@),
            None,
            None,
            None,
        );
        (w4, Ok((flag, accepted_snapshot(seat, config, service::record_of(w4, seat)))))
    }
}

/// The start of a seat is over.
pub open spec fn finish_start_p(w: Run, seat: Text) -> Run {
    journal::in_state(
        w,
        ServiceView {
            starting: w.state.starting.remove(seat),
            cancellations: w.state.cancellations.remove(seat),
            ..w.state
        },
    )
}

/// Cancels the start of a seat, where it can be cancelled.
pub open spec fn cancel_start_p(w: Run, seat: Text) -> Run {
    match text_map::lookup(w.state.cancellations, seat) {
        Some(flag) => journal::ask(w, Request::Cancel(flag)).0,
        None => w,
    }
}

/// Remembers how the native routing of a keyboard is doing.
pub open spec fn keyboard_routing_p(
    w: Run,
    seat: Text,
    status: InputRoutingRuntimeStatus,
    detail: Text,
) -> Run {
    service::log_p(
        service::remember(
            w,
            seat,
            RuntimeRecordView {
                keyboard_routing_status: status,
                ..service::record_of(w, seat)
            },
        ),
        seat,
        "keyboard-routing"@,
        if status == InputRoutingRuntimeStatus::Active || status
            == InputRoutingRuntimeStatus::PrototypeActive {
            "active"@
        } else {
            "error"@
        },
        None,
        None,
        detail,
    )
}

/// Keeps a managed machine's window from taking the host's mouse. A machine that is not managed
/// is left alone.
pub open spec fn ensure_capture_disabled_p(w: Run, seat: Text, config: ApplicationConfigView) -> (
    Run,
    Result<bool, Text>,
) {
    match config.machine(seat) {
        None => (w, Err(seat_rules::no_machine_message(seat))),
        Some(machine) => if !machine.managed_by_multiseat {
            (w, Ok(false))
        } else {
            match service::set_capture_policy_p(w, machine.vm_id, "Disabled"@) {
                (w1, Err(message)) => (w1, Err(message)),
                (w1, Ok(())) => (w1, Ok(true)),
            }
        },
    }
}

/// The identity of a machine's window.
pub open spec fn window_identity(vm: VirtualMachineView) -> ManagedVmWindowIdentityView {
    ManagedVmWindowIdentityView {
        vm_uuid: vm.uuid,
        vm_name: vm.name,
        session_pid: vm.session_pid,
    }
}

/// Begins to show a machine on the display of its seat. Where that fails, the machine runs on.
pub open spec fn start_presentation_p(
    w: Run,
    seat: Text,
    config: ApplicationConfigView,
    vm: VirtualMachineView,
) -> Run {
    match seat_rules::display_of(config, seat) {
        None => journal::ask(
            w,
            Request::PresentationUnavailable(
                None,
                "seat has no assigned physical display; VM remains running"@,
            ),
        ).0,
        Some(display) => {
            let (w1, reply) = journal::ask(
                w,
                Request::PresentationStart(window_identity(vm), display),
            );
            match reply->Done_0 {
                Ok(()) => w1,
                Err(error) => journal::ask(
                    w1,
                    Request::PresentationUnavailable(Some(display), error),
                ).0,
            }
        },
    }
}

/// Remembers how open a machine's window is to the host, and how its mouse integration is.
pub open spec fn note_mode(
    w: Run,
    seat: Text,
    mode: ManagedSeatDisplayMode,
    integration: MouseIntegrationStatusView,
) -> Run {
    service::remember(
        w,
        seat,
        RuntimeRecordView {
            display_mode: mode,
            mouse_integration: integration,
            ..service::record_of(w, seat)
        },
    )
}

/// A report that cannot fail, as the end of an operation that can.
pub open spec fn report_p(
    w: Run,
    seat: Text,
    config: ApplicationConfigView,
    devices: Seq<PhysicalInputDeviceView>,
) -> (Run, Result<SeatRuntimeSnapshotView, Text>) {
    let (w1, snapshot) = status::status_p(w, seat, config, devices);
    (w1, Ok(snapshot))
}

/// Opens a managed machine's window to the host's input.
pub open spec fn unlock_p(
    w: Run,
    seat: Text,
    config: ApplicationConfigView,
    devices: Seq<PhysicalInputDeviceView>,
) -> (Run, Result<SeatRuntimeSnapshotView, Text>) {
    match seat_rules::managed_machine(config, seat) {
        Err(message) => (w, Err(message)),
        Ok(vm_id) => match service::inspect_vm_p(w, vm_id) {
            (w1, Err(message)) => (w1, Err(message)),
            (w1, Ok(vm)) => match seat_rules::running_or_error(vm) {
                Err(message) => (w1, Err(message)),
                Ok(()) => match service::set_capture_policy_p(w1, vm_id, "Default"@) {
                    (w2, Err(message)) => (w2, Err(message)),
                    (w2, Ok(())) => {
                        let (w3, reply) = journal::ask(
                            w2,
                            Request::MouseRequest(vm_id, MouseIntegrationState::Enabled),
                        );
                        match reply->Mouse_0 {
                            Err(message) => (w3, Err(message)),
                            Ok(integration) => unlock_windows_p(
                                w3,
                                seat,
                                config,
                                devices,
                                integration,
                            ),
                        }
                    },
                },
            },
        },
    }
}

pub open spec fn unlock_windows_p(
    w: Run,
    seat: Text,
    config: ApplicationConfigView,
    devices: Seq<PhysicalInputDeviceView>,
    integration: MouseIntegrationStatusView,
) -> (Run, Result<SeatRuntimeSnapshotView, Text>) {
    let (w1, shown) = journal::ask(w, Request::PresentationLock(false));
    match shown->Done_0 {
        Err(message) => (w1, Err(message)),
        Ok(()) => {
            let (w2, focused) = journal::ask(w1, Request::FocusLock(false));
            match focused->Done_0 {
                Err(message) => (w2, Err(message)),
                Ok(()) => report_p(
                    service::log_p(
                        note_mode(
                            w2,
                            seat,
                            ManagedSeatDisplayMode::NormalVirtualBox,
                            integration,
                        ),
                        seat,
                        "input-isolation"@,
                        "temporarily-unlocked"@,
                        None,
                        None,
                        "administrator temporarily allowed VirtualBox GUI host input"@,
                    ),
                    seat,
                    config,
                    devices,
                ),
            }
        },
    }
}

/// Closes a managed machine's window to the host's input.
pub open spec fn lock_p(
    w: Run,
    seat: Text,
    config: ApplicationConfigView,
    devices: Seq<PhysicalInputDeviceView>,
    anchor: Option<isize>,
) -> (Run, Result<SeatRuntimeSnapshotView, Text>) {
    match seat_rules::managed_machine(config, seat) {
        Err(message) => (w, Err(message)),
        Ok(vm_id) => match service::inspect_vm_p(w, vm_id) {
            (w1, Err(message)) => (w1, Err(message)),
            (w1, Ok(vm)) => match seat_rules::running_or_error(vm) {
                Err(message) => (w1, Err(message)),
                Ok(()) => match service::set_capture_policy_p(w1, vm_id, "Disabled"@) {
                    (w2, Err(message)) => (w2, Err(message)),
                    (w2, Ok(())) => {
                        let (w3, reply) = journal::ask(
                            w2,
                            Request::MouseRequest(vm_id, MouseIntegrationState::Disabled),
                        );
                        match reply->Mouse_0 {
                            Err(message) => (w3, Err(message)),
                            Ok(integration) => lock_windows_p(
                                w3,
                                seat,
                                config,
                                devices,
                                vm,
                                integration,
                                anchor,
                            ),
                        }
                    },
                },
            },
        },
    }
}

pub open spec fn lock_windows_p(
    w: Run,
    seat: Text,
    config: ApplicationConfigView,
    devices: Seq<PhysicalInputDeviceView>,
    vm: VirtualMachineView,
    integration: MouseIntegrationStatusView,
    anchor: Option<isize>,
) -> (Run, Result<SeatRuntimeSnapshotView, Text>) {
    let w1 = start_presentation_p(w, seat, config, vm);
    let (w2, focused) = journal::ask(w1, Request::FocusStart(window_identity(vm), anchor));
    match focused->Done_0 {
        Err(message) => (w2, Err(message)),
        Ok(()) => report_p(
            service::log_p(
                note_mode(w2, seat, ManagedSeatDisplayMode::SeatDisplayLocked, integration),
                seat,
                "input-isolation"@,
                "locked"@,
                None,
                None,
                "VirtualBox GUI host input locked for managed seat"@,
            ),
            seat,
            config,
            devices,
        ),
    }
}

/// Ends presentation and focus protection.
pub open spec fn shutdown_p(w: Run) -> (Run, Result<(), Text>) {
    let (w1, shown) = journal::ask(w, Request::PresentationStop);
    match shown->Done_0 {
        Err(message) => (w1, Err(message)),
        Ok(()) => {
            let (w2, focused) = journal::ask(w1, Request::FocusStop);
            (w2, focused->Done_0)
        },
    }
}

// ---- The service -----------------------------------------------------------------------

/// The view of a flag, or of why there is none.
pub open spec fn accepted_result(
    r: Result<(Arc<AtomicBool>, SeatRuntimeSnapshot), String>,
) -> Result<Accepted, Text> {
    match r {
        Ok((flag, snapshot)) => Ok((flag, snapshot@)),
        Err(message) => Err(message@),
    }
}

pub(crate) fn identity_of(vm: &VirtualMachine) -> (r: ManagedVmWindowIdentity)
    ensures
        r@ == window_identity(vm@),
{
    ManagedVmWindowIdentity {
        vm_uuid: vm.uuid.clone(),
        vm_name: vm.name.clone(),
        session_pid: vm.session_pid,
    }
}

impl VirtualBoxRuntimeService {
    /// Remembers an error of a seat.
    pub fn record_error(&mut self, seat_id: &SeatId, error: &str) -> (r: Result<(), String>)
        ensures
            r is Ok,
            journal::runs(
                *old(self),
                *final(self),
                |w: Run| (record_error_p(w, seat_id@, error@), ()),
                (),
            ),
    {
        let mut record = self.record(seat_id);
        record.last_error = Some(error.to_owned());
        record.transitional = Some(SeatRuntimeStatus::Error);
        self.replace_record(seat_id, record);
        Ok(())
    }

    fn accepted_start_snapshot(&self, seat_id: &SeatId, configuration: &ApplicationConfig) -> (r:
        SeatRuntimeSnapshot)
        ensures
            forall|w: Run|
                w.state == self.state() ==> r@ == accepted_snapshot(
                    seat_id@,
                    configuration@,
                    #[trigger] service::record_of(w, seat_id@),
                ),
    {
        let routing = configuration.input_routing(seat_id);
        let keyboard_id = target_device_id(seat_id, configuration, InputKind::Keyboard);
        let mouse_id = target_device_id(seat_id, configuration, InputKind::Mouse);
        let record = self.record(seat_id);
        let vm_id = match configured_vm_id(seat_id, configuration) {
            Ok(id) => Some(id),
            Err(_) => None,
        };
        let keyboard = pending_component(keyboard_id, routing.keyboard, &record);
        let mouse = pending_component(mouse_id, routing.mouse, &record);
        SeatRuntimeSnapshot {
            seat_id: seat_id.0.clone(),
            status: SeatRuntimeStatus::Starting,
            vm_id,
            vm_state: Some("start-requested".to_owned()),
            vm_started_by_multiseat: false,
            keyboard,
            mouse,
            display_presentation: DisplayPresentationStatus {
                state: PresentationState::WaitingForVmWindow,
                assigned_display_id: configured_display_id(seat_id, configuration),
                ..DisplayPresentationStatus::default()
            },
            startup_trace: record.startup_trace,
            input_isolation: ManagedInputIsolationStatus::default(),
            message: Some("Start accepted; VM and seat components are starting".to_owned()),
            logs: record.logs,
        }
    }

    /// Accepts the start of a seat, which goes on in the background. The flag that comes back
    /// cancels it.
    pub fn begin_asynchronous_start(
        &mut self,
        seat_id: &SeatId,
        configuration: &ApplicationConfig,
    ) -> (r: Result<(Arc<AtomicBool>, SeatRuntimeSnapshot), String>)
        ensures
            journal::runs(
                *old(self),
                *final(self),
                |w: Run| begin_start_p(w, seat_id@, configuration@),
                accepted_result(r),
            ),
            r matches Ok((flag, _)) ==> text_map::lookup(
                final(self).state().cancellations,
                seat_id@,
            ) == Some(flag),
    {
        if self.is_starting(seat_id) {
            return Err(concat3("seat '", seat_id.0.as_str(), "' is already starting"));
        }
        let cancellation = self.new_flag(false);
        self.note_start(seat_id, cancellation.clone());
        let mut record = RuntimeRecord::default();
        record.transitional = Some(SeatRuntimeStatus::Starting);
        record.startup_started = Some(self.moment());
        self.replace_record(seat_id, record);
        self.trace(seat_id, "StartRequested", None, None);
        self.trace(
            seat_id,
            "StartCommandReturned",
            Some("startup accepted; activation continues on a background worker"),
            None,
        );
        let snapshot = self.accepted_start_snapshot(seat_id, configuration);
        proof {
            assert(journal::agrees(journal::told(self.journal()), self.journal()));
        }
        Ok((cancellation, snapshot))
    }

    /// The start of a seat is over.
    pub fn finish_asynchronous_start(&mut self, seat_id: &SeatId)
        ensures
            journal::runs(
                *old(self),
                *final(self),
                |w: Run| (finish_start_p(w, seat_id@), ()),
                (),
            ),
    {
        self.forget_start(seat_id);
    }

    /// Cancels the start of a seat, where it can be cancelled.
    pub fn cancel_asynchronous_start(&mut self, seat_id: &SeatId)
        ensures
            journal::runs(
                *old(self),
                *final(self),
                |w: Run| (cancel_start_p(w, seat_id@), ()),
                (),
            ),
    {
        self.raise_cancellation(seat_id);
    }

    /// Remembers how the native routing of a keyboard is doing.
    pub fn set_keyboard_routing_runtime(
        &mut self,
        seat_id: &SeatId,
        status: InputRoutingRuntimeStatus,
        detail: &str,
    ) -> (r: Result<(), String>)
        ensures
            r is Ok,
            journal::runs(
                *old(self),
                *final(self),
                |w: Run| (keyboard_routing_p(w, seat_id@, status, detail@), ()),
                (),
            ),
    {
        let mut record = self.record(seat_id);
        record.keyboard_routing_status = status;
        self.replace_record(seat_id, record);
        let outcome = if status == InputRoutingRuntimeStatus::Active || status
            == InputRoutingRuntimeStatus::PrototypeActive {
            "active"
        } else {
            "error"
        };
        self.log(seat_id, "keyboard-routing", outcome, None, None, detail);
        Ok(())
    }

    /// Notes a stage of the start of a seat.
    pub fn record_startup_stage(
        &mut self,
        seat_id: &SeatId,
        stage: &str,
        detail: Option<&str>,
        error: Option<&str>,
    ) -> (r: Result<(), String>)
        ensures
            r is Ok,
            journal::runs(
                *old(self),
                *final(self),
                |w: Run|
                    (
                        service::trace_p(
                            w,
                            seat_id@,
                            stage@,
                            model::opt_str(detail),
                            model::opt_str(error),
                            None,
                            None,
                        ),
                        (),
                    ),
                (),
            ),
    {
        self.trace(seat_id, stage, detail, error);
        Ok(())
    }

    /// Notes a stage of the start of a seat, and the time since a moment.
    pub fn record_startup_duration(
        &mut self,
        seat_id: &SeatId,
        stage: &str,
        started: Instant,
        detail: Option<&str>,
        error: Option<&str>,
    ) -> (r: Result<(), String>)
        ensures
            r is Ok,
            journal::runs(
                *old(self),
                *final(self),
                |w: Run|
                    (
                        service::timed_trace_p(
                            w,
                            seat_id@,
                            stage@,
                            started,
                            model::opt_str(detail),
                            model::opt_str(error),
                            None,
                        ),
                        (),
                    ),
                (),
            ),
    {
        self.trace_since(seat_id, stage, started, detail, error, None);
        Ok(())
    }

    /// Keeps a managed machine's window from taking the host's mouse, and makes sure of it. A
    /// machine that is not managed is left alone.
    pub fn ensure_managed_mouse_capture_disabled(
        &mut self,
        seat_id: &SeatId,
        configuration: &ApplicationConfig,
    ) -> (r: Result<bool, String>)
        ensures
            journal::runs(
                *old(self),
                *final(self),
                |w: Run| ensure_capture_disabled_p(w, seat_id@, configuration@),
                model::with_message(r),
            ),
    {
        match configuration.machine_of(seat_id) {
            None => Err(
                concat3("seat '", seat_id.0.as_str(), "' has no VirtualBox VM selected"),
            ),
            Some(machine) => if !machine.managed_by_multiseat {
                Ok(false)
            } else {
                match self.set_mouse_capture_policy(machine.vm_id.as_str(), "Disabled") {
                    Err(message) => Err(message),
                    Ok(()) => Ok(true),
                }
            },
        }
    }

    /// Opens a managed machine's window to the host's input.
    pub fn allow_host_input_temporarily(
        &mut self,
        seat_id: &SeatId,
        configuration: &ApplicationConfig,
        physical_devices: &[PhysicalInputDevice],
    ) -> (r: Result<SeatRuntimeSnapshot, String>)
        ensures
            journal::runs(
                *old(self),
                *final(self),
                |w: Run|
                    unlock_p(w, seat_id@, configuration@, duplicate::views(physical_devices@)),
                status::snapshot_result(r),
            ),
    {
        let vm_id = match managed_backend(seat_id, configuration) {
            Ok(id) => id,
            Err(message) => {
                return Err(message);
            },
        };
        let vm = match self.inspect_vm(vm_id.as_str()) {
            Ok(vm) => vm,
            Err(message) => {
                return Err(message);
            },
        };
        if let Err(message) = require_running(&vm) {
            return Err(message);
        }
        if let Err(message) = self.set_mouse_capture_policy(vm_id.as_str(), "Default") {
            return Err(message);
        }
        let integration = match self.mouse_request(vm_id.as_str(), MouseIntegrationState::Enabled) {
            Ok(integration) => integration,
            Err(message) => {
                return Err(message);
            },
        };
        if let Err(message) = self.presentation_lock(false) {
            return Err(message);
        }
        if let Err(message) = self.focus_lock(false) {
            return Err(message);
        }
        let mut record = self.record(seat_id);
        record.display_mode = ManagedSeatDisplayMode::NormalVirtualBox;
        record.mouse_integration = integration;
        self.replace_record(seat_id, record);
        self.log(
            seat_id,
            "input-isolation",
            "temporarily-unlocked",
            None,
            None,
            "administrator temporarily allowed VirtualBox GUI host input",
        );
        self.status(seat_id, configuration, physical_devices)
    }

    /// Closes a managed machine's window to the host's input.
    pub fn lock_seat_input(
        &mut self,
        seat_id: &SeatId,
        configuration: &ApplicationConfig,
        physical_devices: &[PhysicalInputDevice],
        focus_anchor: Option<isize>,
    ) -> (r: Result<SeatRuntimeSnapshot, String>)
        ensures
            journal::runs(
                *old(self),
                *final(self),
                |w: Run|
                    lock_p(
                        w,
                        seat_id@,
                        configuration@,
                        duplicate::views(physical_devices@),
                        focus_anchor,
                    ),
                status::snapshot_result(r),
            ),
    {
        let vm_id = match managed_backend(seat_id, configuration) {
            Ok(id) => id,
            Err(message) => {
                return Err(message);
            },
        };
        let vm = match self.inspect_vm(vm_id.as_str()) {
            Ok(vm) => vm,
            Err(message) => {
                return Err(message);
            },
        };
        if let Err(message) = require_running(&vm) {
            return Err(message);
        }
        if let Err(message) = self.set_mouse_capture_policy(vm_id.as_str(), "Disabled") {
            return Err(message);
        }
        let integration = match self.mouse_request(
            vm_id.as_str(),
            MouseIntegrationState::Disabled,
        ) {
            Ok(integration) => integration,
            Err(message) => {
                return Err(message);
            },
        };
        self.start_managed_presentation(seat_id, configuration, &vm);
        if let Err(message) = self.focus_start(identity_of(&vm), focus_anchor) {
            return Err(message);
        }
        let mut record = self.record(seat_id);
        record.display_mode = ManagedSeatDisplayMode::SeatDisplayLocked;
        record.mouse_integration = integration;
        self.replace_record(seat_id, record);
        self.log(
            seat_id,
            "input-isolation",
            "locked",
            None,
            None,
            "VirtualBox GUI host input locked for managed seat",
        );
        self.status(seat_id, configuration, physical_devices)
    }

    /// Ends presentation and focus protection.
    pub fn shutdown_focus_protection(&mut self) -> (r: Result<(), String>)
        ensures
            journal::runs(
                *old(self),
                *final(self),
                |w: Run| shutdown_p(w),
                model::with_message(r),
            ),
    {
        if let Err(message) = self.presentation_stop() {
            return Err(message);
        }
        self.focus_stop()
    }

    /// Begins to show a machine on the display of its seat.
    pub(crate) fn start_managed_presentation(
        &mut self,
        seat_id: &SeatId,
        configuration: &ApplicationConfig,
        vm: &VirtualMachine,
    )
        ensures
            journal::runs(
                *old(self),
                *final(self),
                |w: Run| (start_presentation_p(w, seat_id@, configuration@, vm@), ()),
                (),
            ),
    {
        let display = match configured_display_id(seat_id, configuration) {
            Some(display) => display,
            None => {
                let _ = self.presentation_unavailable(
                    None,
                    "seat has no assigned physical display; VM remains running".to_owned(),
                );
                return ;
            },
        };
        if let Err(error) = self.presentation_start(identity_of(vm), display.clone()) {
            let _ = self.presentation_unavailable(Some(display), error);
        }
    }
}

} // verus!
