//! What holds of every start, stop and release of a seat, whatever the components answer.
use super::activation;
use super::activation::StartRequest;
use super::focus_protection::ManagedVmWindowIdentityView;
use super::isolation;
use super::machine_info;
use super::mouse_integration::{MouseIntegrationState, MouseIntegrationStatusView};
use super::request_laws;
use super::request_laws::Rule;
use super::runtime::{
    InputKind, ManagedAttachmentView, ManagedSeatDisplayMode, ResolvedUsbView, RuntimeRecordView,
    UsbAttachCommandStatus, UsbObservationView, UsbRuntimeHealth, VirtualMachineView,
};
use super::seat_rules;
use super::seat_rules::ActivationInputsView;
use super::service;
use super::service::{Reply, Request, Run};
use super::usb_attachment;
use crate::devices::PhysicalInputDeviceView;
use crate::journal;
use crate::journal::Oracle;
use crate::seats::{ApplicationConfigView, InputRoutingStrategy, SeatInputRouting};
use crate::text::model;
use crate::text::model::Text;
use crate::virtualization::usb;
use std::sync::Arc;
use std::sync::atomic::AtomicBool;
use std::time::Instant;
use vstd::prelude::*;

verus! {

// ---- Commands --------------------------------------------------------------------------

pub open spec fn listing_command() -> Seq<Text> {
    seq!["list"@, "usbhost"@]
}

pub open spec fn start_command(vm_id: Text) -> Seq<Text> {
    seq!["startvm"@, vm_id, "--type"@, "gui"@]
}

pub open spec fn attach_command(vm_id: Text, uuid: Text) -> Seq<Text> {
    seq!["controlvm"@, vm_id, "usbattach"@, uuid]
}

pub open spec fn detach_command(vm_id: Text, uuid: Text) -> Seq<Text> {
    seq!["controlvm"@, vm_id, "usbdetach"@, uuid]
}

/// Whether a request starts a machine.
pub open spec fn starts_machine(request: Request) -> bool {
    request matches Request::Execute(arguments) && arguments.len() > 0 && arguments[0]
        == "startvm"@
}

/// Whether a request hands a USB device to a machine.
pub open spec fn attaches(request: Request) -> bool {
    request matches Request::Execute(arguments) && arguments.len() == 4 && arguments[0]
        == "controlvm"@ && arguments[2] == "usbattach"@
}

/// Whether a request takes a USB device back from a machine.
pub open spec fn detaches(request: Request) -> bool {
    request matches Request::Execute(arguments) && arguments.len() == 4 && arguments[0]
        == "controlvm"@ && arguments[2] == "usbdetach"@
}

/// Whether a request changes the settings of a machine.
pub open spec fn sets_policy(request: Request) -> bool {
    request matches Request::Execute(arguments) && arguments.len() > 0 && arguments[0]
        == "setextradata"@
}

/// The words of the commands are different ones.
pub proof fn lemma_words()
    ensures
        "startvm"@ != "list"@,
        "startvm"@ != "showvminfo"@,
        "startvm"@ != "getextradata"@,
        "startvm"@ != "guestproperty"@,
        "startvm"@ != "guestcontrol"@,
        "startvm"@ != "controlvm"@,
        "startvm"@ != "setextradata"@,
        "controlvm"@ != "list"@,
        "controlvm"@ != "showvminfo"@,
        "controlvm"@ != "getextradata"@,
        "controlvm"@ != "guestproperty"@,
        "controlvm"@ != "guestcontrol"@,
        "controlvm"@ != "setextradata"@,
        "setextradata"@ != "list"@,
        "setextradata"@ != "showvminfo"@,
        "setextradata"@ != "getextradata"@,
        "setextradata"@ != "guestproperty"@,
        "setextradata"@ != "guestcontrol"@,
        "usbattach"@ != "usbdetach"@,
{
    reveal_strlit("startvm");
    reveal_strlit("list");
    reveal_strlit("showvminfo");
    reveal_strlit("getextradata");
    reveal_strlit("guestproperty");
    reveal_strlit("guestcontrol");
    reveal_strlit("controlvm");
    reveal_strlit("setextradata");
    reveal_strlit("usbattach");
    reveal_strlit("usbdetach");
    assert("startvm"@[5] == 'v' && "startvm"@.len() == 7);
    assert("controlvm"@.len() == 9 && "controlvm"@[0] == 'c');
    assert("setextradata"@.len() == 12 && "setextradata"@[0] == 's');
    assert("getextradata"@.len() == 12 && "getextradata"@[0] == 'g');
    assert("guestcontrol"@.len() == 12 && "guestcontrol"@[0] == 'g');
    assert("usbattach"@[3] == 'a');
    assert("usbdetach"@[3] == 'd');
}

// ---- Listings --------------------------------------------------------------------------

/// What the request before answered, where that asked for the USB devices.
pub open spec fn listing_at(oracle: Oracle<Reply>, earlier: Seq<Request>, i: int) -> Option<
    usb::VirtualBoxStatusView,
> {
    if 0 <= i < earlier.len() && earlier[i] == Request::Execute(listing_command()) {
        match service::judged(listing_command(), seq![], oracle(i)->Output_0) {
            Ok(output) => Some(service::listed_usb(output.stdout)),
            Err(_) => None,
        }
    } else {
        None
    }
}

/// Whether the last request asked for the USB devices, and the answer said for sure that a
/// device is the one with an identifier.
pub open spec fn looked_up(
    oracle: Oracle<Reply>,
    earlier: Seq<Request>,
    device: PhysicalInputDeviceView,
    uuid: Text,
) -> bool {
    listing_at(oracle, earlier, earlier.len() - 1) matches Some(status)
        && usb_attachment::resolved(device, status) matches Ok(found) && found.uuid == uuid
}

/// Whether an earlier request asked for the USB devices, and the answer said for sure where the
/// devices of a seat are that go to the guest, and that they may go there.
pub open spec fn devices_found(
    oracle: Oracle<Reply>,
    earlier: Seq<Request>,
    config: ApplicationConfigView,
    inputs: ActivationInputsView,
    routing: SeatInputRouting,
) -> bool {
    exists|i: int|
        #![trigger listing_at(oracle, earlier, i)]
        (listing_at(oracle, earlier, i) matches Some(status) && usb_attachment::required(
            status,
            config,
            "Barnen keyboard"@,
            inputs.keyboard,
            routing.keyboard,
            true,
        ) is Ok && usb_attachment::required(
            status,
            config,
            "Barnen mouse"@,
            inputs.mouse,
            routing.mouse,
            false,
        ) is Ok)
}

// ---- Pieces ----------------------------------------------------------------------------

/// Whether a rule allows handing a device over right after it was looked up.
pub open spec fn admits_attach(
    rule: Rule,
    oracle: Oracle<Reply>,
    vm_id: Text,
    device: PhysicalInputDeviceView,
) -> bool {
    forall|earlier: Seq<Request>, uuid: Text|
        looked_up(oracle, earlier, device, uuid) ==> #[trigger] rule(
            earlier,
            Request::Execute(attach_command(vm_id, uuid)),
        )
}

/// Whether a rule allows taking a device back right after it was looked up.
pub open spec fn admits_detach(
    rule: Rule,
    oracle: Oracle<Reply>,
    vm_id: Text,
    device: PhysicalInputDeviceView,
) -> bool {
    forall|earlier: Seq<Request>, uuid: Text|
        looked_up(oracle, earlier, device, uuid) ==> #[trigger] rule(
            earlier,
            Request::Execute(detach_command(vm_id, uuid)),
        )
}

/// Whether a window's identity is what an earlier request was told of a machine, where that
/// asked for the machine's description.
pub open spec fn told_identity(
    oracle: Oracle<Reply>,
    earlier: Seq<Request>,
    vm_id: Text,
    target: ManagedVmWindowIdentityView,
) -> bool {
    exists|k: int|
        #![trigger earlier[k]]
        0 <= k < earlier.len() && earlier[k] == Request::Execute(
            seq!["showvminfo"@, vm_id, "--machinereadable"@],
        ) && (oracle(k)->Output_0 matches Ok(output) && output.success && {
            let vm = machine_info::described_machine(
                machine_info::machine_fields(output.stdout),
                vm_id,
            );
            &&& target.vm_uuid == vm.uuid
            &&& target.vm_name == vm.name
            &&& target.session_pid == vm.session_pid
        })
}

/// Whether a request shows the window of a seat's machine on the display that is set for the
/// seat, says that it cannot be shown there, guards the window for the caller's own window, or
/// turns the machine's mouse integration off.
pub open spec fn is_for_window(
    oracle: Oracle<Reply>,
    earlier: Seq<Request>,
    config: ApplicationConfigView,
    seat: Text,
    vm_id: Text,
    anchor: Option<isize>,
    put: Request,
) -> bool {
    match put {
        Request::PresentationStart(target, display) => seat_rules::is_display_of(
            config.seats,
            seat,
            Some(display),
        ) && told_identity(oracle, earlier, vm_id, target),
        Request::PresentationUnavailable(display, _) => seat_rules::is_display_of(
            config.seats,
            seat,
            display,
        ),
        Request::FocusStart(target, near) => near == anchor && told_identity(
            oracle,
            earlier,
            vm_id,
            target,
        ),
        Request::MouseRequest(machine, desired) => machine == vm_id && desired
            == MouseIntegrationState::Disabled,
        _ => false,
    }
}

/// Whether a rule allows the requests that show a seat's machine and keep the host's input from
/// it.
pub open spec fn admits_windows(
    rule: Rule,
    oracle: Oracle<Reply>,
    config: ApplicationConfigView,
    seat: Text,
    vm_id: Text,
    anchor: Option<isize>,
) -> bool {
    forall|earlier: Seq<Request>, put: Request|
        is_for_window(oracle, earlier, config, seat, vm_id, anchor, put) ==> #[trigger] rule(
            earlier,
            put,
        )
}

pub proof fn lemma_told(w: Run, vm_id: Text)
    ensures
        service::inspect_vm_p(w, vm_id).1 matches Ok(vm) ==> told_identity(
            w.oracle,
            service::inspect_vm_p(w, vm_id).0.requests,
            vm_id,
            isolation::window_identity(vm),
        ),
{
    let (after, answer) = service::inspect_vm_p(w, vm_id);
    if answer is Ok {
        let k = w.requests.len() as int;
        assert(after.requests[k] == Request::Execute(
            seq!["showvminfo"@, vm_id, "--machinereadable"@],
        ));
    }
}

/// What was told stays told.
pub proof fn lemma_still_told(
    before: Run,
    after: Run,
    vm_id: Text,
    target: ManagedVmWindowIdentityView,
    rule: Rule,
)
    requires
        told_identity(before.oracle, before.requests, vm_id, target),
        journal::within(before, after, rule),
    ensures
        told_identity(after.oracle, after.requests, vm_id, target),
{
    let k = choose|k: int|
        #![trigger before.requests[k]]
        0 <= k < before.requests.len() && before.requests[k] == Request::Execute(
            seq!["showvminfo"@, vm_id, "--machinereadable"@],
        ) && ((before.oracle)(k)->Output_0 matches Ok(output) && output.success && {
            let vm = machine_info::described_machine(
                machine_info::machine_fields(output.stdout),
                vm_id,
            );
            &&& target.vm_uuid == vm.uuid
            &&& target.vm_name == vm.name
            &&& target.session_pid == vm.session_pid
        });
    assert(after.requests.take(before.requests.len() as int)[k] == after.requests[k]);
}

pub proof fn lemma_begin(w: Run, seat: Text, vm_state: Text, rule: Rule)
    requires
        request_laws::admits_reading(rule),
    ensures
        request_laws::goes(w, activation::begin_p(w, seat, vm_state), rule),
{
    request_laws::lemma_startup(w, seat, rule);
    let (w0, started) = service::startup_p(w, seat);
    let begun = activation::begun(service::record_of(w0, seat), started);
    let w1 = service::remember(w0, seat, begun);
    request_laws::lemma_remember(w0, seat, begun, rule);
    request_laws::lemma_goes_both(w, w0, w1, rule);
    let empty = service::record_of(w1, seat).startup_trace.len() == 0;
    let w2 = if empty {
        service::trace_p(w1, seat, "StartRequested"@, None, None, None, None)
    } else {
        w1
    };
    request_laws::lemma_trace(w1, seat, "StartRequested"@, None, None, None, None, rule);
    request_laws::lemma_goes_none(w1, rule);
    request_laws::lemma_goes_both(w, w1, w2, rule);
    let w3 = service::log_p(
        w2,
        seat,
        "activation"@,
        "started"@,
        None,
        None,
        "activation validation succeeded"@,
    );
    request_laws::lemma_log(
        w2,
        seat,
        "activation"@,
        "started"@,
        None,
        None,
        "activation validation succeeded"@,
        rule,
    );
    request_laws::lemma_goes_both(w, w2, w3, rule);
    request_laws::lemma_log(w3, seat, "vm-state"@, "observed"@, None, None, vm_state, rule);
    request_laws::lemma_goes_both(w, w3, activation::begin_p(w, seat, vm_state), rule);
}

pub proof fn lemma_restrain(w: Run, seat: Text, vm_id: Text, managed: bool, rule: Rule)
    requires
        request_laws::admits_reading(rule),
        managed ==> request_laws::admits(
            rule,
            request_laws::policy_command(vm_id, "Disabled"@),
        ),
    ensures
        request_laws::goes(w, activation::restrain_p(w, seat, vm_id, managed).0, rule),
{
    let after = activation::restrain_p(w, seat, vm_id, managed).0;
    if !managed {
        request_laws::lemma_goes_none(w, rule);
    } else {
        request_laws::lemma_set_policy(w, vm_id, "Disabled"@, rule);
        let (w1, answer) = service::set_capture_policy_p(w, vm_id, "Disabled"@);
        if answer is Ok {
            let record = RuntimeRecordView {
                display_mode: ManagedSeatDisplayMode::SeatDisplayLocked,
                ..service::record_of(w1, seat)
            };
            request_laws::lemma_remember(w1, seat, record, rule);
            request_laws::lemma_goes_both(w, w1, after, rule);
        }
    }
}

/// Where the devices of a seat were found for sure, the listing that said so is the last request.
pub proof fn lemma_resolve_required(
    w: Run,
    inputs: ActivationInputsView,
    routing: SeatInputRouting,
    config: ApplicationConfigView,
    rule: Rule,
)
    requires
        request_laws::admits_reading(rule),
    ensures
        ({
            let (after, result) = usb_attachment::resolve_required_p(w, inputs, routing, config);
            &&& request_laws::goes(w, after, rule)
            &&& after.state == w.state
            &&& result is Ok ==> devices_found(
                w.oracle,
                after.requests,
                config,
                inputs,
                routing,
            )
        }),
{
    request_laws::lemma_usb_status(w, rule);
    let (w1, answer) = service::usb_status_p(w);
    if answer is Ok {
        let i = w.requests.len() as int;
        assert(w1.requests[i] == Request::Execute(listing_command()));
        assert(listing_at(w.oracle, w1.requests, i) == Some(answer->Ok_0));
    }
}

/// A device that was found for sure was found by the last request.
pub proof fn lemma_resolve_single(w: Run, device: PhysicalInputDeviceView, rule: Rule)
    requires
        request_laws::admits_reading(rule),
    ensures
        ({
            let (after, result) = usb_attachment::resolve_single_p(w, device);
            &&& request_laws::goes(w, after, rule)
            &&& after.state == w.state
            &&& result matches Ok(found) ==> looked_up(
                w.oracle,
                after.requests,
                device,
                found.uuid,
            )
        }),
{
    request_laws::lemma_usb_status(w, rule);
    let (w1, answer) = service::usb_status_p(w);
    if answer is Ok {
        let i = w.requests.len() as int;
        assert(w1.requests[i] == Request::Execute(listing_command()));
        assert(listing_at(w.oracle, w1.requests, i) == Some(answer->Ok_0));
    }
}

pub proof fn lemma_power_on(w: Run, seat: Text, vm_id: Text, running: bool, rule: Rule)
    requires
        request_laws::admits_reading(rule),
        running || rule(
            service::moment_p(w).0.requests,
            Request::Execute(start_command(vm_id)),
        ),
    ensures
        request_laws::goes(w, activation::power_on_p(w, seat, vm_id, running).0, rule),
{
    let after = activation::power_on_p(w, seat, vm_id, running).0;
    if running {
        request_laws::lemma_log(
            w,
            seat,
            "vm-start"@,
            "skipped"@,
            None,
            None,
            "VM was already running"@,
            rule,
        );
    } else {
        request_laws::lemma_moment(w, rule);
        let (w0, started) = service::moment_p(w);
        request_laws::lemma_checked(w0, start_command(vm_id), rule);
        let (w1, answer) = service::checked_p(w0, start_command(vm_id));
        request_laws::lemma_goes_both(w, w0, w1, rule);
        if let Ok(output) = answer {
            request_laws::lemma_timed_trace(
                w1,
                seat,
                "VMStartRequested"@,
                started,
                Some(vm_id),
                None,
                output.exit_code,
                rule,
            );
            let w2 = service::timed_trace_p(
                w1,
                seat,
                "VMStartRequested"@,
                started,
                Some(vm_id),
                None,
                output.exit_code,
            );
            request_laws::lemma_goes_both(w, w1, w2, rule);
            let record = RuntimeRecordView {
                vm_started_by_multiseat: true,
                ..service::record_of(w2, seat)
            };
            request_laws::lemma_remember(w2, seat, record, rule);
            let w3 = service::remember(w2, seat, record);
            request_laws::lemma_goes_both(w, w2, w3, rule);
            request_laws::lemma_log(
                w3,
                seat,
                "vm-start"@,
                "success"@,
                None,
                None,
                "VirtualBox VM start requested"@,
                rule,
            );
            request_laws::lemma_goes_both(w, w3, after, rule);
        }
    }
}

pub proof fn lemma_start_presentation(
    w: Run,
    seat: Text,
    config: ApplicationConfigView,
    vm: VirtualMachineView,
    vm_id: Text,
    anchor: Option<isize>,
    rule: Rule,
)
    requires
        admits_windows(rule, w.oracle, config, seat, vm_id, anchor),
        told_identity(w.oracle, w.requests, vm_id, isolation::window_identity(vm)),
    ensures
        request_laws::goes(w, isolation::start_presentation_p(w, seat, config, vm), rule),
        isolation::start_presentation_p(w, seat, config, vm).state == w.state,
{
    seat_rules::law_a_seats_devices_are_its_own(config, seat);
    match seat_rules::display_of(config, seat) {
        None => {
            let request = Request::PresentationUnavailable(
                None,
                "seat has no assigned physical display; VM remains running"@,
            );
            request_laws::lemma_ask(w, request, rule);
        },
        Some(display) => {
            let request = Request::PresentationStart(isolation::window_identity(vm), display);
            request_laws::lemma_ask(w, request, rule);
            let (w1, reply) = journal::ask(w, request);
            if let Err(error) = reply->Done_0 {
                let second = Request::PresentationUnavailable(Some(display), error);
                request_laws::lemma_ask(w1, second, rule);
                request_laws::lemma_goes_both(w, w1, journal::ask(w1, second).0, rule);
            }
        },
    }
}

pub proof fn lemma_note_mode(
    w: Run,
    seat: Text,
    mode: ManagedSeatDisplayMode,
    integration: MouseIntegrationStatusView,
    rule: Rule,
)
    ensures
        request_laws::goes(w, isolation::note_mode(w, seat, mode, integration), rule),
{
    let record = RuntimeRecordView {
        display_mode: mode,
        mouse_integration: integration,
        ..service::record_of(w, seat)
    };
    request_laws::lemma_remember(w, seat, record, rule);
}

pub proof fn lemma_present(w: Run, request: StartRequest, vm_id: Text, managed: bool, rule: Rule)
    requires
        request_laws::admits_reading(rule),
        managed ==> admits_windows(
            rule,
            w.oracle,
            request.config,
            request.seat,
            vm_id,
            request.anchor,
        ),
    ensures
        request_laws::goes(w, activation::present_p(w, request, vm_id, managed).0, rule),
{
    let seat = request.seat;
    let after = activation::present_p(w, request, vm_id, managed).0;
    if !managed {
        request_laws::lemma_goes_none(w, rule);
    } else {
        request_laws::lemma_inspect(w, vm_id, rule);
        let (w1, answer) = service::inspect_vm_p(w, vm_id);
        if let Ok(vm) = answer {
            lemma_told(w, vm_id);
            let target = isolation::window_identity(vm);
            lemma_start_presentation(
                w1,
                seat,
                request.config,
                vm,
                vm_id,
                request.anchor,
                rule,
            );
            let w2 = isolation::start_presentation_p(w1, seat, request.config, vm);
            request_laws::lemma_goes_both(w, w1, w2, rule);
            let detail = seat_rules::display_of(request.config, seat);
            request_laws::lemma_trace(
                w2,
                seat,
                "PresentationWorkerStarted"@,
                detail,
                None,
                None,
                None,
                rule,
            );
            let w3 = service::trace_p(
                w2,
                seat,
                "PresentationWorkerStarted"@,
                detail,
                None,
                None,
                None,
            );
            request_laws::lemma_goes_both(w, w2, w3, rule);
            lemma_still_told(w1, w2, vm_id, target, rule);
            lemma_still_told(w2, w3, vm_id, target, rule);
            let focus = Request::FocusStart(isolation::window_identity(vm), request.anchor);
            request_laws::lemma_ask(w3, focus, rule);
            let (w4, focused) = journal::ask(w3, focus);
            request_laws::lemma_goes_both(w, w3, w4, rule);
            if focused->Done_0 is Ok {
                request_laws::lemma_trace(
                    w4,
                    seat,
                    "FocusProtectionActive"@,
                    None,
                    None,
                    None,
                    None,
                    rule,
                );
                let w5 = service::trace_p(
                    w4,
                    seat,
                    "FocusProtectionActive"@,
                    None,
                    None,
                    None,
                    None,
                );
                request_laws::lemma_goes_both(w, w4, w5, rule);
                let mouse = Request::MouseRequest(
                    vm_id,
                    MouseIntegrationState::Disabled,
                );
                request_laws::lemma_ask(w5, mouse, rule);
                let (w6, reply) = journal::ask(w5, mouse);
                request_laws::lemma_goes_both(w, w5, w6, rule);
                if let Ok(integration) = reply->Mouse_0 {
                    lemma_note_mode(
                        w6,
                        seat,
                        ManagedSeatDisplayMode::SeatDisplayLocked,
                        integration,
                        rule,
                    );
                    request_laws::lemma_goes_both(w, w6, after, rule);
                }
            }
        }
    }
}

pub proof fn lemma_attach(
    w: Run,
    seat: Text,
    vm_id: Text,
    kind: InputKind,
    device: PhysicalInputDeviceView,
    found: ResolvedUsbView,
    devices: Seq<PhysicalInputDeviceView>,
    rule: Rule,
)
    requires
        request_laws::admits_reading(rule),
        rule(w.requests, Request::Execute(attach_command(vm_id, found.uuid))),
    ensures
        request_laws::goes(
            w,
            usb_attachment::attach_p(w, seat, vm_id, kind, device, found, devices).0,
            rule,
        ),
{
    let after = usb_attachment::attach_p(w, seat, vm_id, kind, device, found, devices).0;
    let w1 = service::log_p(
        w,
        seat,
        "usb-resolve"@,
        "success"@,
        Some(device.id),
        Some(found.uuid),
        "current VirtualBox runtime identity resolved"@,
    );
    request_laws::lemma_log(
        w,
        seat,
        "usb-resolve"@,
        "success"@,
        Some(device.id),
        Some(found.uuid),
        "current VirtualBox runtime identity resolved"@,
        rule,
    );
    let noted = service::record_of(w1, seat);
    let record = RuntimeRecordView {
        attached: noted.attached.push(usb_attachment::fresh_attachment(kind, device, found)),
        ..noted
    };
    request_laws::lemma_remember(w1, seat, record, rule);
    let w2 = usb_attachment::note_attachment(w1, seat, kind, device, found);
    request_laws::lemma_goes_both(w, w1, w2, rule);
    request_laws::lemma_checked(w2, attach_command(vm_id, found.uuid), rule);
    let (w3, answer) = service::checked_p(w2, attach_command(vm_id, found.uuid));
    request_laws::lemma_goes_both(w, w2, w3, rule);
    let w4 = usb_attachment::note_outcome(w3, seat, kind, answer is Ok);
    let outcome = usb_attachment::with_attachment(
        service::record_of(w3, seat),
        kind,
        |item: ManagedAttachmentView| usb_attachment::with_outcome(item, answer is Ok),
    );
    request_laws::lemma_remember(w3, seat, outcome, rule);
    request_laws::lemma_goes_both(w, w3, w4, rule);
    if answer is Ok {
        let w5 = service::log_p(
            w4,
            seat,
            "usb-attach"@,
            "success"@,
            Some(device.id),
            Some(found.uuid),
            "VBoxManage accepted dynamic attachment"@,
        );
        request_laws::lemma_log(
            w4,
            seat,
            "usb-attach"@,
            "success"@,
            Some(device.id),
            Some(found.uuid),
            "VBoxManage accepted dynamic attachment"@,
            rule,
        );
        request_laws::lemma_goes_both(w, w4, w5, rule);
        request_laws::lemma_observe(w5, device.id, kind, devices, true, rule);
        let (w6, first) = usb_attachment::observe_p(w5, device.id, kind, devices, true);
        request_laws::lemma_goes_both(w, w5, w6, rule);
        if let Ok(seen) = first {
            lemma_note_observation(w6, seat, kind, seen, true, rule);
            let w7 = usb_attachment::note_observation(w6, seat, kind, seen, true);
            request_laws::lemma_goes_both(w, w6, w7, rule);
            request_laws::lemma_ask(w7, Request::Wait(500), rule);
            let (w8, _) = journal::ask(w7, Request::Wait(500));
            request_laws::lemma_goes_both(w, w7, w8, rule);
            request_laws::lemma_observe(w8, device.id, kind, devices, true, rule);
            let (w9, second) = usb_attachment::observe_p(w8, device.id, kind, devices, true);
            request_laws::lemma_goes_both(w, w8, w9, rule);
            if let Ok(again) = second {
                lemma_note_observation(w9, seat, kind, again, false, rule);
                let w10 = usb_attachment::note_observation(w9, seat, kind, again, false);
                request_laws::lemma_goes_both(w, w9, w10, rule);
                let captured = again.health == UsbRuntimeHealth::Captured;
                request_laws::lemma_log(
                    w10,
                    seat,
                    "usb-verify"@,
                    if captured {
                        "success"@
                    } else {
                        "unhealthy"@
                    },
                    Some(device.id),
                    again.runtime_uuid,
                    if captured {
                        "VirtualBox positively reports the device as captured/held"@
                    } else {
                        "attach command succeeded without positive captured evidence"@
                    },
                    rule,
                );
                request_laws::lemma_goes_both(w, w10, after, rule);
            }
        }
    }
}

proof fn lemma_note_observation(
    w: Run,
    seat: Text,
    kind: InputKind,
    seen: UsbObservationView,
    immediate: bool,
    rule: Rule,
)
    ensures
        request_laws::goes(
            w,
            usb_attachment::note_observation(w, seat, kind, seen, immediate),
            rule,
        ),
{
    let record = usb_attachment::with_attachment(
        service::record_of(w, seat),
        kind,
        |item: ManagedAttachmentView| usb_attachment::with_observation(item, seen, immediate),
    );
    request_laws::lemma_remember(w, seat, record, rule);
}

/// Whether handing an attachment's device over was accepted.
pub open spec fn was_accepted(item: ManagedAttachmentView) -> bool {
    item.diagnostic.attach_command == UsbAttachCommandStatus::Success
}

pub proof fn lemma_detach_one(
    w: Run,
    seat: Text,
    vm_id: Text,
    devices: Seq<PhysicalInputDeviceView>,
    item: ManagedAttachmentView,
    words: usb_attachment::Wording,
    rule: Rule,
)
    requires
        request_laws::admits_reading(rule),
        was_accepted(item) ==> (seat_rules::physical(devices, item.physical_device_id, item.kind) matches Some(
            device,
        ) ==> admits_detach(rule, w.oracle, vm_id, device)),
    ensures
        request_laws::goes(
            w,
            usb_attachment::detach_one_p(w, seat, vm_id, devices, item, words).0,
            rule,
        ),
{
    let after = usb_attachment::detach_one_p(w, seat, vm_id, devices, item, words).0;
    request_laws::lemma_goes_none(w, rule);
    request_laws::lemma_log(
        w,
        seat,
        words.action,
        "skipped"@,
        Some(item.physical_device_id),
        item.diagnostic.runtime_uuid,
        words.gone,
        rule,
    );
    if was_accepted(item) {
        if let Some(device) = seat_rules::physical(
            devices,
            item.physical_device_id,
            item.kind,
        ) {
            lemma_resolve_single(w, device, rule);
            let (w1, answer) = usb_attachment::resolve_single_p(w, device);
            if let Ok(found) = answer {
                request_laws::lemma_checked(w1, detach_command(vm_id, found.uuid), rule);
                let (w2, done) = service::checked_p(w1, detach_command(vm_id, found.uuid));
                request_laws::lemma_goes_both(w, w1, w2, rule);
                let w3 = service::log_p(
                    w2,
                    seat,
                    words.action,
                    "success"@,
                    Some(item.physical_device_id),
                    Some(found.uuid),
                    words.done,
                );
                request_laws::lemma_log(
                    w2,
                    seat,
                    words.action,
                    "success"@,
                    Some(item.physical_device_id),
                    Some(found.uuid),
                    words.done,
                    rule,
                );
                request_laws::lemma_goes_both(w, w2, w3, rule);
            }
        }
    }
}

/// Whether a rule allows taking back, right after it was looked up, each of some devices that
/// was handed over.
pub open spec fn admits_taking_back(
    rule: Rule,
    oracle: Oracle<Reply>,
    vm_id: Text,
    devices: Seq<PhysicalInputDeviceView>,
    items: Seq<ManagedAttachmentView>,
) -> bool {
    forall|i: int|
        0 <= i < items.len() && was_accepted(#[trigger] items[i]) ==> (seat_rules::physical(
            devices,
            items[i].physical_device_id,
            items[i].kind,
        ) matches Some(device) ==> admits_detach(rule, oracle, vm_id, device))
}

pub proof fn lemma_detach_items(
    w: Run,
    seat: Text,
    vm_id: Text,
    devices: Seq<PhysicalInputDeviceView>,
    items: Seq<ManagedAttachmentView>,
    count: int,
    words: usb_attachment::Wording,
    rule: Rule,
)
    requires
        request_laws::admits_reading(rule),
        0 <= count <= items.len(),
        admits_taking_back(rule, w.oracle, vm_id, devices, items),
    ensures
        request_laws::goes(
            w,
            usb_attachment::detach_items_p(w, seat, vm_id, devices, items, count, words).0,
            rule,
        ),
    decreases count,
{
    if count == 0 {
        request_laws::lemma_goes_none(w, rule);
    } else {
        lemma_detach_items(w, seat, vm_id, devices, items, count - 1, words, rule);
        let (w1, _) = usb_attachment::detach_items_p(
            w,
            seat,
            vm_id,
            devices,
            items,
            count - 1,
            words,
        );
        let item = items[items.len() - count];
        lemma_detach_one(w1, seat, vm_id, devices, item, words, rule);
        request_laws::lemma_goes_both(
            w,
            w1,
            usb_attachment::detach_items_p(w, seat, vm_id, devices, items, count, words).0,
            rule,
        );
    }
}

pub proof fn lemma_forget_attachments(w: Run, seat: Text, rule: Rule)
    ensures
        request_laws::goes(w, usb_attachment::forget_attachments(w, seat), rule),
{
    let record = RuntimeRecordView { attached: seq![], ..service::record_of(w, seat) };
    request_laws::lemma_remember(w, seat, record, rule);
}

/// A device that is found among some is one of them.
proof fn lemma_physical_from(
    devices: Seq<PhysicalInputDeviceView>,
    id: Text,
    kind: InputKind,
    from: int,
)
    requires
        0 <= from,
    ensures
        seat_rules::physical_from(devices, id, kind, from) matches Some(device) ==> exists|i: int|
            from <= i < devices.len() && #[trigger] devices[i] == device,
    decreases devices.len() - from,
{
    if from < devices.len() && !(devices[from].is_named(id) && seat_rules::gives(
        devices[from],
        kind,
    )) {
        lemma_physical_from(devices, id, kind, from + 1);
    }
}

/// A rule that allows taking the two devices of a seat back allows it for every attachment.
proof fn lemma_seat_devices(
    rule: Rule,
    oracle: Oracle<Reply>,
    vm_id: Text,
    inputs: ActivationInputsView,
    items: Seq<ManagedAttachmentView>,
)
    requires
        admits_detach(rule, oracle, vm_id, inputs.keyboard),
        admits_detach(rule, oracle, vm_id, inputs.mouse),
    ensures
        admits_taking_back(rule, oracle, vm_id, seq![inputs.keyboard, inputs.mouse], items),
{
    let devices = seq![inputs.keyboard, inputs.mouse];
    assert forall|i: int| 0 <= i < items.len() && was_accepted(#[trigger] items[i]) implies (
    seat_rules::physical(devices, items[i].physical_device_id, items[i].kind) matches Some(device)
        ==> admits_detach(rule, oracle, vm_id, device)) by {
        lemma_physical_from(devices, items[i].physical_device_id, items[i].kind, 0);
    }
}

pub proof fn lemma_fail_attach(
    w: Run,
    seat: Text,
    vm_id: Text,
    inputs: ActivationInputsView,
    error: Text,
    rule: Rule,
)
    requires
        request_laws::admits_reading(rule),
        admits_detach(rule, w.oracle, vm_id, inputs.keyboard),
        admits_detach(rule, w.oracle, vm_id, inputs.mouse),
    ensures
        request_laws::goes(w, activation::fail_attach_p(w, seat, vm_id, inputs, error).0, rule),
{
    let devices = seq![inputs.keyboard, inputs.mouse];
    let items = service::record_of(w, seat).attached;
    lemma_seat_devices(rule, w.oracle, vm_id, inputs, items);
    lemma_detach_items(
        w,
        seat,
        vm_id,
        devices,
        items,
        items.len() as int,
        usb_attachment::rollback_wording(),
        rule,
    );
    let (w1, _) = usb_attachment::detach_items_p(
        w,
        seat,
        vm_id,
        devices,
        items,
        items.len() as int,
        usb_attachment::rollback_wording(),
    );
    lemma_forget_attachments(w1, seat, rule);
    let (w2, errors) = usb_attachment::rollback_p(w, seat, vm_id, devices);
    request_laws::lemma_goes_both(w, w1, w2, rule);
    let (after, message) = activation::fail_attach_p(w, seat, vm_id, inputs, error);
    let record = RuntimeRecordView {
        last_error: Some(message),
        transitional: Some(crate::virtualization::SeatRuntimeStatus::Error),
        ..service::record_of(w2, seat)
    };
    request_laws::lemma_remember(w2, seat, record, rule);
    request_laws::lemma_goes_both(w, w2, after, rule);
}

/// What a rule has to allow for the devices of a seat.
pub open spec fn admits_inputs(
    rule: Rule,
    oracle: Oracle<Reply>,
    vm_id: Text,
    inputs: ActivationInputsView,
    routing: SeatInputRouting,
) -> bool {
    &&& admits_detach(rule, oracle, vm_id, inputs.keyboard)
    &&& admits_detach(rule, oracle, vm_id, inputs.mouse)
    &&& routing.keyboard == InputRoutingStrategy::VirtualBoxUsbPassthrough ==> admits_attach(
        rule,
        oracle,
        vm_id,
        inputs.keyboard,
    )
    &&& routing.mouse == InputRoutingStrategy::VirtualBoxUsbPassthrough ==> admits_attach(
        rule,
        oracle,
        vm_id,
        inputs.mouse,
    )
}

pub proof fn lemma_announced(
    w: Run,
    seat: Text,
    kind: InputKind,
    device: PhysicalInputDeviceView,
    rule: Rule,
)
    requires
        request_laws::admits_reading(rule),
    ensures
        request_laws::goes(w, activation::announced(w, seat, kind, device), rule),
{
    let stage = "MouseAttachStarted"@;
    let after = activation::announced(w, seat, kind, device);
    request_laws::lemma_goes_none(w, rule);
    request_laws::lemma_moment(w, rule);
    let w1 = service::moment_p(w).0;
    request_laws::lemma_trace(w1, seat, stage, Some(device.id), None, None, None, rule);
    if kind == InputKind::Mouse {
        request_laws::lemma_goes_both(w, w1, after, rule);
    }
}

pub proof fn lemma_attach_input(
    w: Run,
    request: StartRequest,
    vm_id: Text,
    kind: InputKind,
    device: PhysicalInputDeviceView,
    strategy: InputRoutingStrategy,
    inputs: ActivationInputsView,
    rule: Rule,
)
    requires
        request_laws::admits_reading(rule),
        request_laws::admits_checks(rule, request.flag),
        admits_detach(rule, w.oracle, vm_id, inputs.keyboard),
        admits_detach(rule, w.oracle, vm_id, inputs.mouse),
        strategy == InputRoutingStrategy::VirtualBoxUsbPassthrough ==> admits_attach(
            rule,
            w.oracle,
            vm_id,
            device,
        ),
    ensures
        request_laws::goes(
            w,
            activation::attach_input_p(w, request, vm_id, kind, device, strategy, inputs).0,
            rule,
        ),
{
    let seat = request.seat;
    let after = activation::attach_input_p(
        w,
        request,
        vm_id,
        kind,
        device,
        strategy,
        inputs,
    ).0;
    if strategy != InputRoutingStrategy::VirtualBoxUsbPassthrough {
        request_laws::lemma_log(
            w,
            seat,
            "input-routing"@,
            "usb-skipped"@,
            Some(device.id),
            None,
            activation::skip_reason(strategy),
            rule,
        );
    } else {
        let started = service::moment_p(w).1;
        let w1 = activation::announced(w, seat, kind, device);
        lemma_announced(w, seat, kind, device, rule);
        request_laws::lemma_not_cancelled(w1, request.flag, rule);
        let (w2, go) = service::not_cancelled_p(w1, request.flag);
        request_laws::lemma_goes_both(w, w1, w2, rule);
        if go is Ok {
            lemma_resolve_single(w2, device, rule);
            let (w3, answer) = usb_attachment::resolve_single_p(w2, device);
            request_laws::lemma_goes_both(w, w2, w3, rule);
            if let Ok(found) = answer {
                lemma_attach(w3, seat, vm_id, kind, device, found, request.devices, rule);
                let (w4, result) = usb_attachment::attach_p(
                    w3,
                    seat,
                    vm_id,
                    kind,
                    device,
                    found,
                    request.devices,
                );
                request_laws::lemma_goes_both(w, w3, w4, rule);
                match result {
                    Err(error) => {
                        lemma_fail_attach(w4, seat, vm_id, inputs, error, rule);
                        request_laws::lemma_goes_both(w, w4, after, rule);
                    },
                    Ok(()) => {
                        request_laws::lemma_timed_trace(
                            w4,
                            seat,
                            "MouseCaptured"@,
                            started,
                            Some(device.id),
                            None,
                            None,
                            rule,
                        );
                        request_laws::lemma_goes_none(w4, rule);
                        request_laws::lemma_goes_both(w, w4, after, rule);
                    },
                }
            }
        }
    }
}

pub proof fn lemma_attach_inputs(
    w: Run,
    request: StartRequest,
    vm_id: Text,
    inputs: ActivationInputsView,
    routing: SeatInputRouting,
    rule: Rule,
)
    requires
        request_laws::admits_reading(rule),
        request_laws::admits_checks(rule, request.flag),
        admits_inputs(rule, w.oracle, vm_id, inputs, routing),
    ensures
        request_laws::goes(
            w,
            activation::attach_inputs_p(w, request, vm_id, inputs, routing).0,
            rule,
        ),
{
    lemma_attach_input(
        w,
        request,
        vm_id,
        InputKind::Keyboard,
        inputs.keyboard,
        routing.keyboard,
        inputs,
        rule,
    );
    let (w1, result) = activation::attach_input_p(
        w,
        request,
        vm_id,
        InputKind::Keyboard,
        inputs.keyboard,
        routing.keyboard,
        inputs,
    );
    if result is Ok {
        lemma_attach_input(
            w1,
            request,
            vm_id,
            InputKind::Mouse,
            inputs.mouse,
            routing.mouse,
            inputs,
            rule,
        );
        request_laws::lemma_goes_both(
            w,
            w1,
            activation::attach_inputs_p(w, request, vm_id, inputs, routing).0,
            rule,
        );
    }
}

/// Whether a rule allows starting a machine once the devices of a seat were found for sure.
pub open spec fn admits_start(
    rule: Rule,
    oracle: Oracle<Reply>,
    config: ApplicationConfigView,
    vm_id: Text,
    inputs: ActivationInputsView,
    routing: SeatInputRouting,
) -> bool {
    forall|earlier: Seq<Request>|
        devices_found(oracle, earlier, config, inputs, routing) ==> #[trigger] rule(
            earlier,
            Request::Execute(start_command(vm_id)),
        )
}

/// What was found early is found later.
proof fn lemma_found_stays(
    before: Run,
    after: Run,
    config: ApplicationConfigView,
    inputs: ActivationInputsView,
    routing: SeatInputRouting,
    rule: Rule,
)
    requires
        journal::within(before, after, rule),
        devices_found(before.oracle, before.requests, config, inputs, routing),
    ensures
        devices_found(after.oracle, after.requests, config, inputs, routing),
{
    let found = |i: int|
        listing_at(before.oracle, before.requests, i) matches Some(status)
            && usb_attachment::required(
            status,
            config,
            "Barnen keyboard"@,
            inputs.keyboard,
            routing.keyboard,
            true,
        ) is Ok && usb_attachment::required(
            status,
            config,
            "Barnen mouse"@,
            inputs.mouse,
            routing.mouse,
            false,
        ) is Ok;
    let i = choose|i: int| #[trigger] listing_at(before.oracle, before.requests, i) is Some
        && found(i);
    assert(listing_at(before.oracle, before.requests, i) is Some && found(i));
    assert(after.requests.take(before.requests.len() as int)[i] == after.requests[i]);
    assert(listing_at(after.oracle, after.requests, i) == listing_at(
        before.oracle,
        before.requests,
        i,
    ));
}

/// Everything that a rule has to allow of a start, but the requests that only ask.
pub open spec fn admits_activation(
    rule: Rule,
    oracle: Oracle<Reply>,
    request: StartRequest,
    vm_id: Text,
    inputs: ActivationInputsView,
    running: bool,
) -> bool {
    let managed = request.config.is_managed(request.seat);
    let routing = request.config.routing_of(request.seat);
    &&& managed ==> request_laws::admits(rule, request_laws::policy_command(vm_id, "Disabled"@))
    &&& managed ==> admits_windows(
        rule,
        oracle,
        request.config,
        request.seat,
        vm_id,
        request.anchor,
    )
    &&& running || admits_start(rule, oracle, request.config, vm_id, inputs, routing)
    &&& admits_inputs(rule, oracle, vm_id, inputs, routing)
}

pub proof fn lemma_await_running(w: Run, request: StartRequest, vm_id: Text, rule: Rule)
    requires
        request_laws::admits_reading(rule),
        request_laws::admits_checks(rule, request.flag),
    ensures
        request_laws::goes(w, activation::await_running_p(w, request, vm_id).0, rule),
{
    let seat = request.seat;
    let after = activation::await_running_p(w, request, vm_id).0;
    request_laws::lemma_moment(w, rule);
    let (w0, started) = service::moment_p(w);
    request_laws::lemma_wait_for_state(w0, vm_id, "running"@, 40, request.flag, rule);
    let (w1, reached) = service::wait_for_state_p(w0, vm_id, "running"@, 40, request.flag);
    request_laws::lemma_goes_both(w, w0, w1, rule);
    if reached is Ok {
        let stage = "VMRunningObserved"@;
        request_laws::lemma_timed_trace(w1, seat, stage, started, Some(vm_id), None, None, rule);
        let w2 = service::timed_trace_p(w1, seat, stage, started, Some(vm_id), None, None);
        request_laws::lemma_goes_both(w, w1, w2, rule);
        request_laws::lemma_not_cancelled(w2, request.flag, rule);
        request_laws::lemma_goes_both(w, w2, after, rule);
    }
}

pub proof fn lemma_bring_up(
    w: Run,
    request: StartRequest,
    vm_id: Text,
    inputs: ActivationInputsView,
    vm_state: Text,
    rule: Rule,
)
    requires
        request_laws::admits_reading(rule),
        request_laws::admits_checks(rule, request.flag),
        admits_activation(
            rule,
            w.oracle,
            request,
            vm_id,
            inputs,
            model::same_ignoring_case(vm_state, "running"@),
        ),
    ensures
        request_laws::goes(
            w,
            activation::bring_up_p(w, request, vm_id, inputs, vm_state).0,
            rule,
        ),
        activation::bring_up_p(w, request, vm_id, inputs, vm_state).1 is Ok ==> devices_found(
            w.oracle,
            activation::bring_up_p(w, request, vm_id, inputs, vm_state).0.requests,
            request.config,
            inputs,
            request.config.routing_of(request.seat),
        ),
{
    let seat = request.seat;
    let managed = request.config.is_managed(seat);
    let routing = request.config.routing_of(seat);
    let running = model::same_ignoring_case(vm_state, "running"@);
    let after = activation::bring_up_p(w, request, vm_id, inputs, vm_state).0;
    lemma_begin(w, seat, vm_state, rule);
    let begun = activation::begin_p(w, seat, vm_state);
    lemma_restrain(begun, seat, vm_id, managed, rule);
    let (w1, restrained) = activation::restrain_p(begun, seat, vm_id, managed);
    request_laws::lemma_goes_both(w, begun, w1, rule);
    if restrained is Ok {
        lemma_resolve_required(w1, inputs, routing, request.config, rule);
        let (w2, resolved) = usb_attachment::resolve_required_p(
            w1,
            inputs,
            routing,
            request.config,
        );
        request_laws::lemma_goes_both(w, w1, w2, rule);
        if resolved is Ok {
            request_laws::lemma_not_cancelled(w2, request.flag, rule);
            let (w3, go) = service::not_cancelled_p(w2, request.flag);
            request_laws::lemma_goes_both(w, w2, w3, rule);
            lemma_found_stays(w2, w3, request.config, inputs, routing, rule);
            request_laws::lemma_moment(w3, rule);
            let later = service::moment_p(w3).0;
            lemma_found_stays(w3, later, request.config, inputs, routing, rule);
            if go is Ok {
                lemma_power_on(w3, seat, vm_id, running, rule);
                let (w4, powered) = activation::power_on_p(w3, seat, vm_id, running);
                request_laws::lemma_goes_both(w, w3, w4, rule);
                lemma_found_stays(w3, w4, request.config, inputs, routing, rule);
                if powered is Ok {
                    lemma_await_running(w4, request, vm_id, rule);
                    request_laws::lemma_goes_both(w, w4, after, rule);
                    lemma_found_stays(w4, after, request.config, inputs, routing, rule);
                }
            }
        }
    }
}

pub proof fn lemma_hand_over(
    w: Run,
    request: StartRequest,
    vm_id: Text,
    inputs: ActivationInputsView,
    running: bool,
    rule: Rule,
)
    requires
        request_laws::admits_reading(rule),
        request_laws::admits_checks(rule, request.flag),
        admits_activation(rule, w.oracle, request, vm_id, inputs, running),
    ensures
        request_laws::goes(w, activation::hand_over_p(w, request, vm_id, inputs).0, rule),
{
    let seat = request.seat;
    let routing = request.config.routing_of(seat);
    let after = activation::hand_over_p(w, request, vm_id, inputs).0;
    lemma_present(w, request, vm_id, request.config.is_managed(seat), rule);
    let (w1, presented) = activation::present_p(
        w,
        request,
        vm_id,
        request.config.is_managed(seat),
    );
    if presented is Ok {
        lemma_attach_inputs(w1, request, vm_id, inputs, routing, rule);
        let (w2, attached) = activation::attach_inputs_p(w1, request, vm_id, inputs, routing);
        request_laws::lemma_goes_both(w, w1, w2, rule);
        if attached is Ok {
            let record = RuntimeRecordView {
                transitional: None,
                ..service::record_of(w2, seat)
            };
            request_laws::lemma_remember(w2, seat, record, rule);
            let w3 = service::remember(w2, seat, record);
            request_laws::lemma_goes_both(w, w2, w3, rule);
            request_laws::lemma_status(w3, seat, request.config, request.devices, rule);
            request_laws::lemma_goes_both(w, w3, after, rule);
        }
    }
}

/// The machine of a seat as a start first finds it.
pub open spec fn first_found(w: Run, request: StartRequest, vm_id: Text) -> Result<
    VirtualMachineView,
    Text,
> {
    service::inspect_vm_p(service::not_cancelled_p(w, request.flag).0, vm_id).1
}

/// Whether a rule allows everything that a start may have to do.
pub open spec fn admits_whole_start(rule: Rule, w: Run, request: StartRequest) -> bool {
    &&& request_laws::admits_reading(rule)
    &&& request_laws::admits_checks(rule, request.flag)
    &&& forall|earlier: Seq<Request>| #[trigger] rule(earlier, Request::PresentationStop)
    &&& forall|earlier: Seq<Request>| #[trigger] rule(earlier, Request::FocusStop)
    &&& (seat_rules::activation_inputs(request.seat, request.config, request.devices) matches Ok(
        inputs,
    ) ==> (seat_rules::vm_of(request.config, request.seat) matches Ok(vm_id) ==> (first_found(
        w,
        request,
        vm_id,
    ) matches Ok(vm) ==> admits_activation(
        rule,
        w.oracle,
        request,
        vm_id,
        inputs,
        machine_info::is_running(vm),
    ))))
}

pub proof fn lemma_start_inner(w: Run, request: StartRequest, rule: Rule)
    requires
        admits_whole_start(rule, w, request),
    ensures
        request_laws::goes(w, activation::start_inner_p(w, request).0, rule),
{
    let after = activation::start_inner_p(w, request).0;
    request_laws::lemma_not_cancelled(w, request.flag, rule);
    let (w1, go) = service::not_cancelled_p(w, request.flag);
    if go is Ok {
        match (
            seat_rules::activation_inputs(request.seat, request.config, request.devices),
            seat_rules::vm_of(request.config, request.seat),
        ) {
            (Ok(inputs), Ok(vm_id)) => {
                request_laws::lemma_inspect(w1, vm_id, rule);
                let (w2, answer) = service::inspect_vm_p(w1, vm_id);
                request_laws::lemma_goes_both(w, w1, w2, rule);
                if let Ok(vm) = answer {
                    if machine_info::machine_errors(vm).len() == 0 {
                        lemma_bring_up(w2, request, vm_id, inputs, vm.state, rule);
                        let (w3, up) = activation::bring_up_p(
                            w2,
                            request,
                            vm_id,
                            inputs,
                            vm.state,
                        );
                        request_laws::lemma_goes_both(w, w2, w3, rule);
                        if up is Ok {
                            lemma_hand_over(
                                w3,
                                request,
                                vm_id,
                                inputs,
                                machine_info::is_running(vm),
                                rule,
                            );
                            request_laws::lemma_goes_both(w, w3, after, rule);
                        }
                    }
                }
            },
            _ => {},
        }
    }
}

pub proof fn lemma_start(w: Run, request: StartRequest, rule: Rule)
    requires
        admits_whole_start(rule, w, request),
    ensures
        request_laws::goes(w, activation::start_p(w, request).0, rule),
{
    lemma_start_inner(w, request, rule);
    let (w1, result) = activation::start_inner_p(w, request);
    if result is Err {
        request_laws::lemma_ask(w1, Request::PresentationStop, rule);
        let (w2, _) = journal::ask(w1, Request::PresentationStop);
        request_laws::lemma_goes_both(w, w1, w2, rule);
        request_laws::lemma_ask(w2, Request::FocusStop, rule);
        let (w3, _) = journal::ask(w2, Request::FocusStop);
        request_laws::lemma_goes_both(w, w2, w3, rule);
    }
}

// ---- Laws of a start -------------------------------------------------------------------

/// A start that the seat's configuration or devices do not allow runs no command: a seat without
/// a keyboard or a mouse, one whose devices are not there or are the host's, and the host's own
/// seat are refused before VirtualBox is asked anything.
pub proof fn law_a_refused_start_runs_nothing(w: Run, request: StartRequest)
    requires
        seat_rules::activation_inputs(request.seat, request.config, request.devices) is Err,
    ensures
        journal::within(
            w,
            activation::start_p(w, request).0,
            |earlier: Seq<Request>, put: Request| !(put is Execute),
        ),
        activation::start_p(w, request).1 is Err,
{
    let rule: Rule = |earlier: Seq<Request>, put: Request| !(put is Execute);
    request_laws::lemma_not_cancelled(w, request.flag, rule);
    let w1 = service::not_cancelled_p(w, request.flag).0;
    request_laws::lemma_ask(w1, Request::PresentationStop, rule);
    let (w2, _) = journal::ask(w1, Request::PresentationStop);
    request_laws::lemma_goes_both(w, w1, w2, rule);
    request_laws::lemma_ask(w2, Request::FocusStop, rule);
    request_laws::lemma_goes_both(w, w2, journal::ask(w2, Request::FocusStop).0, rule);
}

/// A machine is started only after VirtualBox has listed its USB devices, and said for sure
/// which of them are the seat's that go to the guest, and only where those may go there.
pub proof fn law_a_machine_starts_only_with_its_devices_found(w: Run, request: StartRequest)
    ensures
        journal::within(
            w,
            activation::start_p(w, request).0,
            |earlier: Seq<Request>, put: Request|
                starts_machine(put) ==> (seat_rules::activation_inputs(
                    request.seat,
                    request.config,
                    request.devices,
                ) matches Ok(inputs) && devices_found(
                    w.oracle,
                    earlier,
                    request.config,
                    inputs,
                    request.config.routing_of(request.seat),
                )),
        ),
{
    let rule: Rule = |earlier: Seq<Request>, put: Request|
        starts_machine(put) ==> (seat_rules::activation_inputs(
            request.seat,
            request.config,
            request.devices,
        ) matches Ok(inputs) && devices_found(
            w.oracle,
            earlier,
            request.config,
            inputs,
            request.config.routing_of(request.seat),
        ));
    lemma_words();
    lemma_start(w, request, rule);
}

/// Whether a device of a seat is to go to the guest but may not.
pub open spec fn is_unsafe(
    config: ApplicationConfigView,
    inputs: ActivationInputsView,
    routing: SeatInputRouting,
) -> bool {
    ||| routing.keyboard == InputRoutingStrategy::VirtualBoxUsbPassthrough
        && seat_rules::passthrough_allowed(config, inputs.keyboard, true) is Err
    ||| routing.mouse == InputRoutingStrategy::VirtualBoxUsbPassthrough
        && seat_rules::passthrough_allowed(config, inputs.mouse, false) is Err
}

/// The rule that no machine is started and no device is handed over.
pub open spec fn starts_and_attaches_none() -> Rule {
    |earlier: Seq<Request>, put: Request| !starts_machine(put) && !attaches(put)
}

proof fn lemma_unsafe_is_never_found(
    oracle: Oracle<Reply>,
    earlier: Seq<Request>,
    config: ApplicationConfigView,
    inputs: ActivationInputsView,
    routing: SeatInputRouting,
)
    requires
        is_unsafe(config, inputs, routing),
    ensures
        !devices_found(oracle, earlier, config, inputs, routing),
{
}

proof fn lemma_admits_preparation(flag: Option<Arc<AtomicBool>>)
    ensures
        request_laws::admits_reading(starts_and_attaches_none()),
        request_laws::admits_checks(starts_and_attaches_none(), flag),
        forall|vm_id: Text|
            request_laws::admits(
                starts_and_attaches_none(),
                #[trigger] request_laws::policy_command(vm_id, "Disabled"@),
            ),
{
    lemma_words();
}

proof fn lemma_unsafe_start_inner(w: Run, request: StartRequest, inputs: ActivationInputsView)
    requires
        seat_rules::activation_inputs(request.seat, request.config, request.devices) == Ok::<
            ActivationInputsView,
            Text,
        >(inputs),
        is_unsafe(request.config, inputs, request.config.routing_of(request.seat)),
    ensures
        request_laws::goes(
            w,
            activation::start_inner_p(w, request).0,
            starts_and_attaches_none(),
        ),
        activation::start_inner_p(w, request).1 is Err,
{
    let rule = starts_and_attaches_none();
    lemma_admits_preparation(request.flag);
    request_laws::lemma_not_cancelled(w, request.flag, rule);
    let (w1, go) = service::not_cancelled_p(w, request.flag);
    match seat_rules::vm_of(request.config, request.seat) {
        Ok(vm_id) => {
            if go is Ok {
                request_laws::lemma_inspect(w1, vm_id, rule);
                let (w2, answer) = service::inspect_vm_p(w1, vm_id);
                request_laws::lemma_goes_both(w, w1, w2, rule);
                if let Ok(vm) = answer {
                    if machine_info::machine_errors(vm).len() == 0 {
                        lemma_unsafe_bring_up(w2, request, vm_id, inputs, vm.state, rule);
                        let (w3, _) = activation::bring_up_p(
                            w2,
                            request,
                            vm_id,
                            inputs,
                            vm.state,
                        );
                        request_laws::lemma_goes_both(w, w2, w3, rule);
                    }
                }
            }
        },
        Err(_) => {},
    }
}

/// A device that may not be handed over, or a keyboard that was not cleared for it, keeps its
/// seat from starting: no machine is started, and no device is handed over.
pub proof fn law_an_unsafe_device_starts_nothing(
    w: Run,
    request: StartRequest,
    inputs: ActivationInputsView,
)
    requires
        seat_rules::activation_inputs(request.seat, request.config, request.devices) == Ok::<
            ActivationInputsView,
            Text,
        >(inputs),
        is_unsafe(request.config, inputs, request.config.routing_of(request.seat)),
    ensures
        journal::within(w, activation::start_p(w, request).0, starts_and_attaches_none()),
        activation::start_p(w, request).1 is Err,
{
    let rule = starts_and_attaches_none();
    lemma_unsafe_start_inner(w, request, inputs);
    let (end, _) = activation::start_inner_p(w, request);
    request_laws::lemma_ask(end, Request::PresentationStop, rule);
    let (w3, _) = journal::ask(end, Request::PresentationStop);
    request_laws::lemma_goes_both(w, end, w3, rule);
    request_laws::lemma_ask(w3, Request::FocusStop, rule);
    request_laws::lemma_goes_both(w, w3, journal::ask(w3, Request::FocusStop).0, rule);
}

proof fn lemma_unsafe_bring_up(
    w: Run,
    request: StartRequest,
    vm_id: Text,
    inputs: ActivationInputsView,
    vm_state: Text,
    rule: Rule,
)
    requires
        request_laws::admits_reading(rule),
        request_laws::admits(rule, request_laws::policy_command(vm_id, "Disabled"@)),
        is_unsafe(request.config, inputs, request.config.routing_of(request.seat)),
    ensures
        request_laws::goes(
            w,
            activation::bring_up_p(w, request, vm_id, inputs, vm_state).0,
            rule,
        ),
        activation::bring_up_p(w, request, vm_id, inputs, vm_state).1 is Err,
{
    let seat = request.seat;
    let managed = request.config.is_managed(seat);
    let routing = request.config.routing_of(seat);
    lemma_begin(w, seat, vm_state, rule);
    let begun = activation::begin_p(w, seat, vm_state);
    lemma_restrain(begun, seat, vm_id, managed, rule);
    let (w1, restrained) = activation::restrain_p(begun, seat, vm_id, managed);
    request_laws::lemma_goes_both(w, begun, w1, rule);
    if restrained is Ok {
        lemma_resolve_required(w1, inputs, routing, request.config, rule);
        let (w2, resolved) = usb_attachment::resolve_required_p(
            w1,
            inputs,
            routing,
            request.config,
        );
        request_laws::lemma_goes_both(w, w1, w2, rule);
        lemma_unsafe_is_never_found(w.oracle, w2.requests, request.config, inputs, routing);
    }
}

/// Whether a device is one of a seat's that go to the guest.
pub open spec fn goes_to_guest(
    device: PhysicalInputDeviceView,
    inputs: ActivationInputsView,
    routing: SeatInputRouting,
) -> bool {
    ||| routing.keyboard == InputRoutingStrategy::VirtualBoxUsbPassthrough && device
        == inputs.keyboard
    ||| routing.mouse == InputRoutingStrategy::VirtualBoxUsbPassthrough && device == inputs.mouse
}

/// The rule that what is handed over goes to the seat's machine, is one of the seat's devices
/// that go to the guest, and has the identifier that it was just found under.
pub open spec fn attaches_as_looked_up(oracle: Oracle<Reply>, request: StartRequest) -> Rule {
    |earlier: Seq<Request>, put: Request|
        attaches(put) ==> (seat_rules::activation_inputs(
            request.seat,
            request.config,
            request.devices,
        ) matches Ok(inputs) && seat_rules::vm_of(request.config, request.seat) == Ok::<
            Text,
            Text,
        >(put->Execute_0[1]) && exists|device: PhysicalInputDeviceView|
            #![trigger looked_up(oracle, earlier, device, put->Execute_0[3])]
            goes_to_guest(device, inputs, request.config.routing_of(request.seat)) && looked_up(
                oracle,
                earlier,
                device,
                put->Execute_0[3],
            ))
}

/// What is handed to a guest is a device of its seat that is routed there, under the identifier
/// that VirtualBox gave it at that very moment. A device that is routed otherwise, such as a
/// keyboard that is routed natively, is never handed over, nor is an identifier used again.
pub proof fn law_attachments_are_looked_up_at_once(w: Run, request: StartRequest)
    ensures
        journal::within(
            w,
            activation::start_inner_p(w, request).0,
            attaches_as_looked_up(w.oracle, request),
        ),
        journal::within(
            w,
            activation::start_p(w, request).0,
            attaches_as_looked_up(w.oracle, request),
        ),
{
    let rule = attaches_as_looked_up(w.oracle, request);
    assert(admits_whole_start(rule, w, request)) by {
        lemma_words();
        if let (Ok(inputs), Ok(vm_id)) = (
            seat_rules::activation_inputs(request.seat, request.config, request.devices),
            seat_rules::vm_of(request.config, request.seat),
        ) {
            lemma_admits_looked_up(w.oracle, request, vm_id, inputs);
        }
    }
    lemma_start_inner(w, request, rule);
    lemma_start(w, request, rule);
}

proof fn lemma_admits_looked_up(
    oracle: Oracle<Reply>,
    request: StartRequest,
    vm_id: Text,
    inputs: ActivationInputsView,
)
    requires
        seat_rules::activation_inputs(request.seat, request.config, request.devices) == Ok::<
            ActivationInputsView,
            Text,
        >(inputs),
        seat_rules::vm_of(request.config, request.seat) == Ok::<Text, Text>(vm_id),
    ensures
        forall|running: bool| #[trigger]
            admits_activation(
                attaches_as_looked_up(oracle, request),
                oracle,
                request,
                vm_id,
                inputs,
                running,
            ),
{
    let rule = attaches_as_looked_up(oracle, request);
    let routing = request.config.routing_of(request.seat);
    lemma_words();
    assert(admits_windows(
        rule,
        oracle,
        request.config,
        request.seat,
        vm_id,
        request.anchor,
    ));
    assert(admits_start(rule, oracle, request.config, vm_id, inputs, routing));
    assert(request_laws::admits(rule, request_laws::policy_command(vm_id, "Disabled"@)));
    assert forall|earlier: Seq<Request>, uuid: Text|
        looked_up(oracle, earlier, inputs.keyboard, uuid) && routing.keyboard
            == InputRoutingStrategy::VirtualBoxUsbPassthrough implies #[trigger] rule(
        earlier,
        Request::Execute(attach_command(vm_id, uuid)),
    ) by {
        assert(goes_to_guest(inputs.keyboard, inputs, routing));
    }
    assert forall|earlier: Seq<Request>, uuid: Text|
        looked_up(oracle, earlier, inputs.mouse, uuid) && routing.mouse
            == InputRoutingStrategy::VirtualBoxUsbPassthrough implies #[trigger] rule(
        earlier,
        Request::Execute(attach_command(vm_id, uuid)),
    ) by {
        assert(goes_to_guest(inputs.mouse, inputs, routing));
    }
    assert(admits_inputs(rule, oracle, vm_id, inputs, routing));
}

/// A seat none of whose devices is routed to the guest has no device handed over.
pub proof fn law_other_routes_attach_nothing(w: Run, request: StartRequest)
    requires
        request.config.routing_of(request.seat).keyboard
            != InputRoutingStrategy::VirtualBoxUsbPassthrough,
        request.config.routing_of(request.seat).mouse
            != InputRoutingStrategy::VirtualBoxUsbPassthrough,
    ensures
        journal::within(
            w,
            activation::start_inner_p(w, request).0,
            |earlier: Seq<Request>, put: Request| !attaches(put),
        ),
        journal::within(
            w,
            activation::start_p(w, request).0,
            |earlier: Seq<Request>, put: Request| !attaches(put),
        ),
{
    let narrow = attaches_as_looked_up(w.oracle, request);
    let rule: Rule = |earlier: Seq<Request>, put: Request| !attaches(put);
    law_attachments_are_looked_up_at_once(w, request);
    assert forall|earlier: Seq<Request>, put: Request|
        narrow(earlier, put) implies #[trigger] rule(earlier, put) by {
    }
    journal::lemma_within_wider(w, activation::start_inner_p(w, request).0, narrow, rule);
    journal::lemma_within_wider(w, activation::start_p(w, request).0, narrow, rule);
}

/// The rule that no machine is started.
pub open spec fn starts_none() -> Rule {
    |earlier: Seq<Request>, put: Request| !starts_machine(put)
}

/// The rule that no machine's settings are touched, and that no window is moved or guarded.
pub open spec fn touches_no_window() -> Rule {
    |earlier: Seq<Request>, put: Request|
        !sets_policy(put) && !(put is PresentationStart) && !(put is FocusStart) && !(
        put is MouseRequest)
}

proof fn lemma_admits_starting_none(
    oracle: Oracle<Reply>,
    request: StartRequest,
    vm_id: Text,
    inputs: ActivationInputsView,
)
    ensures
        request_laws::admits_reading(starts_none()),
        admits_activation(starts_none(), oracle, request, vm_id, inputs, true),
{
    lemma_words();
}

proof fn lemma_admits_unmanaged(
    oracle: Oracle<Reply>,
    request: StartRequest,
    vm_id: Text,
    inputs: ActivationInputsView,
    running: bool,
)
    requires
        !request.config.is_managed(request.seat),
    ensures
        request_laws::admits_reading(touches_no_window()),
        admits_activation(touches_no_window(), oracle, request, vm_id, inputs, running),
{
    lemma_words();
}

/// A machine that runs already is not started.
pub proof fn law_a_running_machine_is_not_started(
    w: Run,
    request: StartRequest,
    vm_id: Text,
    vm: VirtualMachineView,
)
    requires
        seat_rules::vm_of(request.config, request.seat) == Ok::<Text, Text>(vm_id),
        first_found(w, request, vm_id) == Ok::<VirtualMachineView, Text>(vm),
        machine_info::is_running(vm),
    ensures
        journal::within(w, activation::start_p(w, request).0, starts_none()),
{
    assert(admits_whole_start(starts_none(), w, request)) by {
        match seat_rules::activation_inputs(request.seat, request.config, request.devices) {
            Ok(inputs) => lemma_admits_starting_none(w.oracle, request, vm_id, inputs),
            Err(_) => lemma_admits_starting_none(w.oracle, request, vm_id, arbitrary()),
        }
    }
    lemma_start(w, request, starts_none());
}

/// The settings of a machine that is not managed are not touched by a start, and its window is
/// neither moved nor guarded.
pub proof fn law_an_unmanaged_machine_keeps_its_settings(w: Run, request: StartRequest)
    requires
        !request.config.is_managed(request.seat),
    ensures
        journal::within(w, activation::start_p(w, request).0, touches_no_window()),
{
    assert(admits_whole_start(touches_no_window(), w, request)) by {
        assert forall|vm_id: Text, inputs: ActivationInputsView, running: bool| #[trigger]
            admits_activation(
            touches_no_window(),
            w.oracle,
            request,
            vm_id,
            inputs,
            running,
        ) by {
            lemma_admits_unmanaged(w.oracle, request, vm_id, inputs, running);
        }
        lemma_words();
    }
    lemma_start(w, request, touches_no_window());
}

/// Only the machine of the seat is set up by a start, and only where it is a managed one.
pub proof fn law_only_the_seats_managed_machine_is_set_up(w: Run, request: StartRequest)
    ensures
        journal::within(
            w,
            activation::start_p(w, request).0,
            sets_up_only(request.seat, request.config),
        ),
{
    let rule = sets_up_only(request.seat, request.config);
    assert(admits_whole_start(rule, w, request)) by {
        lemma_words();
        if let Ok(vm_id) = seat_rules::vm_of(request.config, request.seat) {
            assert forall|inputs: ActivationInputsView, running: bool| #[trigger]
                admits_activation(rule, w.oracle, request, vm_id, inputs, running) by {
                lemma_admits_set_up(w.oracle, request, vm_id, inputs, running);
            }
        }
    }
    lemma_start(w, request, rule);
}

/// The rule that settings are changed of no machine but the managed one of a seat.
pub open spec fn sets_up_only(seat: Text, config: ApplicationConfigView) -> Rule {
    |earlier: Seq<Request>, put: Request|
        sets_policy(put) ==> config.is_managed(seat) && seat_rules::vm_of(config, seat) == Ok::<
            Text,
            Text,
        >(put->Execute_0[1])
}

proof fn lemma_admits_set_up(
    oracle: Oracle<Reply>,
    request: StartRequest,
    vm_id: Text,
    inputs: ActivationInputsView,
    running: bool,
)
    requires
        seat_rules::vm_of(request.config, request.seat) == Ok::<Text, Text>(vm_id),
    ensures
        admits_activation(
            sets_up_only(request.seat, request.config),
            oracle,
            request,
            vm_id,
            inputs,
            running,
        ),
{
    lemma_words();
}

// ---- Cancellation ----------------------------------------------------------------------

/// Whether a request asked if the start was cancelled, and was told that it was.
pub open spec fn found_cancelled(oracle: Oracle<Reply>, requests: Seq<Request>, k: int) -> bool {
    requests[k] is Cancelled && oracle(k)->Flag_0
}

/// Whether a program that was told that the start was cancelled asked nothing after that, and
/// failed.
pub open spec fn heeds(before: Run, after: Run, succeeded: bool) -> bool {
    &&& after.oracle == before.oracle
    &&& before.requests.len() <= after.requests.len()
    &&& after.requests.take(before.requests.len() as int) == before.requests
    &&& forall|k: int|
        before.requests.len() <= k < after.requests.len() && #[trigger] found_cancelled(
            after.oracle,
            after.requests,
            k,
        ) ==> k == after.requests.len() - 1 && !succeeded
}

/// The rule that nobody asks whether the start was cancelled.
pub open spec fn checks_none() -> Rule {
    |earlier: Seq<Request>, put: Request| !(put is Cancelled)
}

proof fn lemma_heeds_quietly(before: Run, after: Run, succeeded: bool)
    requires
        request_laws::goes(before, after, checks_none()),
    ensures
        heeds(before, after, succeeded),
{
}

proof fn lemma_heeds_both(a: Run, b: Run, c: Run, succeeded: bool)
    requires
        heeds(a, b, true),
        heeds(b, c, succeeded),
    ensures
        heeds(a, c, succeeded),
{
    let early = a.requests.len() as int;
    let middle = b.requests.len() as int;
    assert(c.requests.take(early) =~= c.requests.take(middle).take(early));
    assert forall|k: int|
        early <= k < c.requests.len() && #[trigger] found_cancelled(
            c.oracle,
            c.requests,
            k,
        ) implies k == c.requests.len() - 1 && !succeeded by {
        if k < middle {
            assert(c.requests.take(middle)[k] == c.requests[k]);
            assert(found_cancelled(b.oracle, b.requests, k));
        }
    }
}

proof fn lemma_heeds_check(w: Run, flag: Option<Arc<AtomicBool>>)
    ensures
        ({
            let (after, go) = service::not_cancelled_p(w, flag);
            heeds(w, after, go is Ok)
        }),
{
    let (after, go) = service::not_cancelled_p(w, flag);
    assert(after.requests.take(w.requests.len() as int) =~= w.requests);
}

proof fn lemma_heeds_waiting(
    w: Run,
    vm_id: Text,
    desired: Text,
    attempts: nat,
    flag: Option<Arc<AtomicBool>>,
)
    ensures
        ({
            let (after, result) = service::wait_for_state_p(
                w,
                vm_id,
                desired,
                attempts,
                flag,
            );
            heeds(w, after, result is Ok)
        }),
    decreases attempts,
{
    let rule = checks_none();
    let (after, result) = service::wait_for_state_p(w, vm_id, desired, attempts, flag);
    if attempts == 0 {
        assert(after.requests.take(w.requests.len() as int) =~= w.requests);
    } else {
        lemma_heeds_check(w, flag);
        let (w1, go) = service::not_cancelled_p(w, flag);
        if go is Ok {
            request_laws::lemma_inspect(w1, vm_id, rule);
            let (w2, answer) = service::inspect_vm_p(w1, vm_id);
            lemma_heeds_quietly(w1, w2, true);
            lemma_heeds_quietly(w1, w2, false);
            lemma_heeds_both(w, w1, w2, true);
            lemma_heeds_both(w, w1, w2, false);
            if let Ok(vm) = answer {
                if !model::same_ignoring_case(vm.state, desired) {
                    request_laws::lemma_ask(w2, Request::Wait(500), rule);
                    let (w3, _) = journal::ask(w2, Request::Wait(500));
                    lemma_heeds_quietly(w2, w3, true);
                    lemma_heeds_both(w, w2, w3, true);
                    lemma_heeds_waiting(w3, vm_id, desired, (attempts - 1) as nat, flag);
                    lemma_heeds_both(w, w3, after, result is Ok);
                }
            }
        }
    }
}

/// Nothing of an activation but its own checks asks whether it was cancelled.
proof fn lemma_quiet_inputs(oracle: Oracle<Reply>, vm_id: Text, device: PhysicalInputDeviceView)
    ensures
        request_laws::admits_reading(checks_none()),
        forall|config: ApplicationConfigView, seat: Text, anchor: Option<isize>| #[trigger]
            admits_windows(checks_none(), oracle, config, seat, vm_id, anchor),
        admits_attach(checks_none(), oracle, vm_id, device),
        admits_detach(checks_none(), oracle, vm_id, device),
        request_laws::admits(
            checks_none(),
            request_laws::policy_command(vm_id, "Disabled"@),
        ),
{
}

proof fn lemma_heeds_attach_input(
    w: Run,
    request: StartRequest,
    vm_id: Text,
    kind: InputKind,
    device: PhysicalInputDeviceView,
    strategy: InputRoutingStrategy,
    inputs: ActivationInputsView,
)
    ensures
        ({
            let (after, result) = activation::attach_input_p(
                w,
                request,
                vm_id,
                kind,
                device,
                strategy,
                inputs,
            );
            heeds(w, after, result is Ok)
        }),
{
    let rule = checks_none();
    let seat = request.seat;
    let (after, result) = activation::attach_input_p(
        w,
        request,
        vm_id,
        kind,
        device,
        strategy,
        inputs,
    );
    lemma_quiet_inputs(w.oracle, vm_id, device);
    lemma_quiet_inputs(w.oracle, vm_id, inputs.keyboard);
    lemma_quiet_inputs(w.oracle, vm_id, inputs.mouse);
    if strategy != InputRoutingStrategy::VirtualBoxUsbPassthrough {
        lemma_attach_input(
            w,
            StartRequest { flag: None, ..request },
            vm_id,
            kind,
            device,
            strategy,
            inputs,
            rule,
        );
        lemma_heeds_quietly(w, after, true);
    } else {
        let started = service::moment_p(w).1;
        let w1 = activation::announced(w, seat, kind, device);
        lemma_announced(w, seat, kind, device, rule);
        lemma_heeds_quietly(w, w1, true);
        lemma_heeds_check(w1, request.flag);
        let (w2, go) = service::not_cancelled_p(w1, request.flag);
        lemma_heeds_both(w, w1, w2, go is Ok);
        if go is Ok {
            lemma_quiet_attachment(w2, request, vm_id, kind, device, started, inputs);
            let (w3, end) = attach_resolved_p(w2, request, vm_id, kind, device, started, inputs);
            lemma_heeds_quietly(w2, w3, end is Ok);
            lemma_heeds_both(w, w2, w3, end is Ok);
        }
    }
}

/// What follows once a device is to be handed over and the start was not cancelled.
pub open spec fn attach_resolved_p(
    w: Run,
    request: StartRequest,
    vm_id: Text,
    kind: InputKind,
    device: PhysicalInputDeviceView,
    started: Instant,
    inputs: ActivationInputsView,
) -> (Run, Result<(), Text>) {
    let seat = request.seat;
    match usb_attachment::resolve_single_p(w, device) {
        (w3, Err(message)) => (w3, Err(message)),
        (w3, Ok(found)) => match usb_attachment::attach_p(
            w3,
            seat,
            vm_id,
            kind,
            device,
            found,
            request.devices,
        ) {
            (w4, Err(error)) => {
                let (w5, message) = activation::fail_attach_p(w4, seat, vm_id, inputs, error);
                (w5, Err(message))
            },
            (w4, Ok(())) => (
                if kind == InputKind::Mouse {
                    service::timed_trace_p(
                        w4,
                        seat,
                        "MouseCaptured"@,
                        started,
                        Some(device.id),
                        None,
                        None,
                    )
                } else {
                    w4
                },
                Ok(()),
            ),
        },
    }
}

proof fn lemma_quiet_attachment(
    w: Run,
    request: StartRequest,
    vm_id: Text,
    kind: InputKind,
    device: PhysicalInputDeviceView,
    started: Instant,
    inputs: ActivationInputsView,
)
    ensures
        request_laws::goes(
            w,
            attach_resolved_p(w, request, vm_id, kind, device, started, inputs).0,
            checks_none(),
        ),
{
    let rule = checks_none();
    let seat = request.seat;
    let after = attach_resolved_p(w, request, vm_id, kind, device, started, inputs).0;
    lemma_quiet_inputs(w.oracle, vm_id, device);
    lemma_quiet_inputs(w.oracle, vm_id, inputs.keyboard);
    lemma_quiet_inputs(w.oracle, vm_id, inputs.mouse);
    lemma_resolve_single(w, device, rule);
    let (w3, answer) = usb_attachment::resolve_single_p(w, device);
    if let Ok(found) = answer {
        lemma_attach(w3, seat, vm_id, kind, device, found, request.devices, rule);
        let (w4, result) = usb_attachment::attach_p(
            w3,
            seat,
            vm_id,
            kind,
            device,
            found,
            request.devices,
        );
        request_laws::lemma_goes_both(w, w3, w4, rule);
        match result {
            Err(error) => {
                lemma_fail_attach(w4, seat, vm_id, inputs, error, rule);
                request_laws::lemma_goes_both(w, w4, after, rule);
            },
            Ok(()) => {
                request_laws::lemma_timed_trace(
                    w4,
                    seat,
                    "MouseCaptured"@,
                    started,
                    Some(device.id),
                    None,
                    None,
                    rule,
                );
                request_laws::lemma_goes_none(w4, rule);
                request_laws::lemma_goes_both(w, w4, after, rule);
            },
        }
    }
}

proof fn lemma_heeds_await_running(w: Run, request: StartRequest, vm_id: Text)
    ensures
        ({
            let (after, result) = activation::await_running_p(w, request, vm_id);
            heeds(w, after, result is Ok)
        }),
{
    let rule = checks_none();
    let seat = request.seat;
    let (after, result) = activation::await_running_p(w, request, vm_id);
    request_laws::lemma_moment(w, rule);
    let (w0, started) = service::moment_p(w);
    lemma_heeds_quietly(w, w0, true);
    lemma_heeds_waiting(w0, vm_id, "running"@, 40, request.flag);
    let (w1, reached) = service::wait_for_state_p(w0, vm_id, "running"@, 40, request.flag);
    lemma_heeds_both(w, w0, w1, reached is Ok);
    if reached is Ok {
        let stage = "VMRunningObserved"@;
        request_laws::lemma_timed_trace(w1, seat, stage, started, Some(vm_id), None, None, rule);
        let w2 = service::timed_trace_p(w1, seat, stage, started, Some(vm_id), None, None);
        lemma_heeds_quietly(w1, w2, true);
        lemma_heeds_both(w, w1, w2, true);
        lemma_heeds_check(w2, request.flag);
        lemma_heeds_both(w, w2, after, result is Ok);
    }
}

proof fn lemma_heeds_bring_up(
    w: Run,
    request: StartRequest,
    vm_id: Text,
    inputs: ActivationInputsView,
    vm_state: Text,
)
    ensures
        ({
            let (after, result) = activation::bring_up_p(w, request, vm_id, inputs, vm_state);
            heeds(w, after, result is Ok)
        }),
{
    let rule = checks_none();
    let seat = request.seat;
    let managed = request.config.is_managed(seat);
    let routing = request.config.routing_of(seat);
    let running = model::same_ignoring_case(vm_state, "running"@);
    let (after, result) = activation::bring_up_p(w, request, vm_id, inputs, vm_state);
    lemma_quiet_inputs(w.oracle, vm_id, inputs.mouse);
    lemma_begin(w, seat, vm_state, rule);
    let begun = activation::begin_p(w, seat, vm_state);
    lemma_restrain(begun, seat, vm_id, managed, rule);
    let (w1, restrained) = activation::restrain_p(begun, seat, vm_id, managed);
    request_laws::lemma_goes_both(w, begun, w1, rule);
    lemma_heeds_quietly(w, w1, restrained is Ok);
    if restrained is Ok {
        lemma_resolve_required(w1, inputs, routing, request.config, rule);
        let (w2, resolved) = usb_attachment::resolve_required_p(
            w1,
            inputs,
            routing,
            request.config,
        );
        request_laws::lemma_goes_both(w, w1, w2, rule);
        lemma_heeds_quietly(w, w2, resolved is Ok);
        if resolved is Ok {
            lemma_heeds_check(w2, request.flag);
            let (w3, go) = service::not_cancelled_p(w2, request.flag);
            lemma_heeds_both(w, w2, w3, go is Ok);
            if go is Ok {
                lemma_power_on(w3, seat, vm_id, running, rule);
                let (w4, powered) = activation::power_on_p(w3, seat, vm_id, running);
                lemma_heeds_quietly(w3, w4, powered is Ok);
                lemma_heeds_both(w, w3, w4, powered is Ok);
                if powered is Ok {
                    lemma_heeds_await_running(w4, request, vm_id);
                    lemma_heeds_both(w, w4, after, result is Ok);
                }
            }
        }
    }
}

proof fn lemma_heeds_hand_over(
    w: Run,
    request: StartRequest,
    vm_id: Text,
    inputs: ActivationInputsView,
)
    ensures
        ({
            let (after, result) = activation::hand_over_p(w, request, vm_id, inputs);
            heeds(w, after, result is Ok)
        }),
{
    let rule = checks_none();
    let seat = request.seat;
    let managed = request.config.is_managed(seat);
    let routing = request.config.routing_of(seat);
    let (after, result) = activation::hand_over_p(w, request, vm_id, inputs);
    lemma_quiet_inputs(w.oracle, vm_id, inputs.mouse);
    lemma_present(w, request, vm_id, managed, rule);
    let (w1, presented) = activation::present_p(w, request, vm_id, managed);
    lemma_heeds_quietly(w, w1, presented is Ok);
    if presented is Ok {
        lemma_heeds_attach_input(
            w1,
            request,
            vm_id,
            InputKind::Keyboard,
            inputs.keyboard,
            routing.keyboard,
            inputs,
        );
        let (w2, first) = activation::attach_input_p(
            w1,
            request,
            vm_id,
            InputKind::Keyboard,
            inputs.keyboard,
            routing.keyboard,
            inputs,
        );
        lemma_heeds_both(w, w1, w2, first is Ok);
        if first is Ok {
            lemma_heeds_attach_input(
                w2,
                request,
                vm_id,
                InputKind::Mouse,
                inputs.mouse,
                routing.mouse,
                inputs,
            );
            let (w3, second) = activation::attach_input_p(
                w2,
                request,
                vm_id,
                InputKind::Mouse,
                inputs.mouse,
                routing.mouse,
                inputs,
            );
            lemma_heeds_both(w, w2, w3, second is Ok);
            if second is Ok {
                let record = RuntimeRecordView {
                    transitional: None,
                    ..service::record_of(w3, seat)
                };
                request_laws::lemma_remember(w3, seat, record, rule);
                let w4 = service::remember(w3, seat, record);
                request_laws::lemma_status(w4, seat, request.config, request.devices, rule);
                request_laws::lemma_goes_both(w3, w4, after, rule);
                lemma_heeds_quietly(w3, after, true);
                lemma_heeds_both(w, w3, after, true);
            }
        }
    }
}

proof fn lemma_heeds_start_inner(w: Run, request: StartRequest)
    ensures
        ({
            let (after, result) = activation::start_inner_p(w, request);
            heeds(w, after, result is Ok)
        }),
{
    let rule = checks_none();
    let (after, result) = activation::start_inner_p(w, request);
    lemma_heeds_check(w, request.flag);
    let (w1, go) = service::not_cancelled_p(w, request.flag);
    if go is Ok {
        request_laws::lemma_goes_none(w1, rule);
        lemma_heeds_quietly(w1, w1, false);
        lemma_heeds_both(w, w1, w1, false);
        match (
            seat_rules::activation_inputs(request.seat, request.config, request.devices),
            seat_rules::vm_of(request.config, request.seat),
        ) {
            (Ok(inputs), Ok(vm_id)) => {
                request_laws::lemma_inspect(w1, vm_id, rule);
                let (w2, answer) = service::inspect_vm_p(w1, vm_id);
                lemma_heeds_quietly(w1, w2, true);
                lemma_heeds_quietly(w1, w2, false);
                lemma_heeds_both(w, w1, w2, true);
                lemma_heeds_both(w, w1, w2, false);
                if let Ok(vm) = answer {
                    if machine_info::machine_errors(vm).len() == 0 {
                        lemma_heeds_bring_up(w2, request, vm_id, inputs, vm.state);
                        let (w3, up) = activation::bring_up_p(
                            w2,
                            request,
                            vm_id,
                            inputs,
                            vm.state,
                        );
                        lemma_heeds_both(w, w2, w3, up is Ok);
                        if up is Ok {
                            lemma_heeds_hand_over(w3, request, vm_id, inputs);
                            lemma_heeds_both(w, w3, after, result is Ok);
                        }
                    }
                }
            },
            _ => {},
        }
    }
}

/// What follows a start that failed.
pub open spec fn wound_up(w: Run) -> Run {
    journal::ask(journal::ask(w, Request::PresentationStop).0, Request::FocusStop).0
}

proof fn lemma_cancelled_end(w: Run, inner: Run, succeeded: bool, after: Run, k: int)
    requires
        heeds(w, inner, succeeded),
        after == (if succeeded {
            inner
        } else {
            wound_up(inner)
        }),
        w.requests.len() <= k < after.requests.len(),
        found_cancelled(w.oracle, after.requests, k),
    ensures
        !succeeded,
        after.requests.skip(k + 1) == seq![Request::PresentationStop, Request::FocusStop],
{
    let end = inner.requests.len() as int;
    if !succeeded {
        assert(after.requests[end] == Request::PresentationStop);
        assert(after.requests[end + 1] == Request::FocusStop);
    }
    assert(k < end);
    assert(after.requests[k] == inner.requests[k]);
    assert(found_cancelled(inner.oracle, inner.requests, k));
    assert(after.requests.skip(k + 1) =~= seq![Request::PresentationStop, Request::FocusStop]);
}

proof fn lemma_start_shape(w: Run, request: StartRequest)
    ensures
        ({
            let (inner, result) = activation::start_inner_p(w, request);
            activation::start_p(w, request) == (
                if result is Ok {
                    inner
                } else {
                    wound_up(inner)
                },
                result,
            )
        }),
{
}

/// A start heeds its own flag and no other: one without a flag asks about none.
pub proof fn law_a_start_heeds_its_own_flag(w: Run, request: StartRequest)
    ensures
        journal::within(
            w,
            activation::start_p(w, request).0,
            |earlier: Seq<Request>, put: Request|
                put matches Request::Cancelled(flag) ==> request.flag == Some(flag),
        ),
{
    let rule: Rule = |earlier: Seq<Request>, put: Request|
        put matches Request::Cancelled(flag) ==> request.flag == Some(flag);
    lemma_start(w, request, rule);
}

/// Once a start was found cancelled, it runs no command any more, and it fails. All that is
/// left to do is to end the presentation and the protection of focus.
pub proof fn law_a_cancelled_start_runs_nothing_more(w: Run, request: StartRequest, k: int)
    requires
        w.requests.len() <= k < activation::start_p(w, request).0.requests.len(),
        found_cancelled(w.oracle, activation::start_p(w, request).0.requests, k),
    ensures
        activation::start_p(w, request).1 is Err,
        activation::start_p(w, request).0.requests.skip(k + 1) == seq![
            Request::PresentationStop,
            Request::FocusStop,
        ],
{
    lemma_heeds_start_inner(w, request);
    lemma_start_shape(w, request);
    let (inner, result) = activation::start_inner_p(w, request);
    lemma_cancelled_end(w, inner, result is Ok, activation::start_p(w, request).0, k);
}

} // verus!
