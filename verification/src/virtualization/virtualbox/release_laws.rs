//! What holds of every stop and every release of a seat, whatever the components answer.
use super::activation;
use super::activation_laws;
use super::isolation;
use super::machine_info;
use super::request_laws;
use super::request_laws::Rule;
use super::runtime::{InputKind, ManagedAttachmentView, ManagedSeatDisplayMode, RuntimeRecordView};
use super::seat_rules;
use super::service;
use super::service::{Reply, Request, Run};
use super::usb_attachment;
use crate::devices::PhysicalInputDeviceView;
use crate::journal;
use crate::journal::Oracle;
use crate::seats::{ApplicationConfigView, InputRoutingStrategy};
use crate::text::model::Text;
use crate::text_map;
use crate::virtualization::SeatRuntimeStatus;
use vstd::prelude::*;

verus! {

pub open spec fn shutdown_command(vm_id: Text) -> Seq<Text> {
    seq!["controlvm"@, vm_id, "shutdown"@]
}

pub open spec fn power_button_command(vm_id: Text) -> Seq<Text> {
    seq!["controlvm"@, vm_id, "acpipowerbutton"@]
}

// ---- Stopping --------------------------------------------------------------------------

/// What a rule has to allow of the end of a presentation, and of a start that is cancelled.
pub open spec fn admits_ending(rule: Rule, w: Run, seat: Text) -> bool {
    &&& forall|earlier: Seq<Request>| #[trigger] rule(earlier, Request::PresentationStop)
    &&& forall|earlier: Seq<Request>| #[trigger] rule(earlier, Request::FocusStop)
    &&& (text_map::lookup(w.state.cancellations, seat) matches Some(flag) ==> forall|
        earlier: Seq<Request>,
    |
        #[trigger] rule(earlier, Request::Cancel(flag)))
}

/// What a rule has to allow of a stop, but the requests that only ask.
pub open spec fn admits_stop(
    rule: Rule,
    w: Run,
    seat: Text,
    config: ApplicationConfigView,
    devices: Seq<PhysicalInputDeviceView>,
) -> bool {
    &&& request_laws::admits_reading(rule)
    &&& admits_ending(rule, w, seat)
    &&& (seat_rules::vm_of(config, seat) matches Ok(vm_id) ==> {
        &&& forall|earlier: Seq<Request>| #[trigger] rule(earlier, Request::MouseRestore(vm_id))
        &&& request_laws::admits(rule, shutdown_command(vm_id))
        &&& request_laws::admits(rule, power_button_command(vm_id))
        &&& activation_laws::admits_taking_back(
            rule,
            w.oracle,
            vm_id,
            devices,
            service::record_of(w, seat).attached,
        )
    })
}

pub proof fn lemma_power_off(w: Run, seat: Text, vm_id: Text, rule: Rule)
    requires
        request_laws::admits_reading(rule),
        request_laws::admits(rule, shutdown_command(vm_id)),
        request_laws::admits(rule, power_button_command(vm_id)),
    ensures
        request_laws::goes(w, activation::power_off_p(w, seat, vm_id).0, rule),
        service::record_of(activation::power_off_p(w, seat, vm_id).0, seat).attached
            == service::record_of(w, seat).attached,
{
    request_laws::lemma_checked(w, shutdown_command(vm_id), rule);
    let (w1, answer) = service::checked_p(w, shutdown_command(vm_id));
    match answer {
        Ok(_) => {
            let detail = "graceful Guest Additions shutdown requested"@;
            request_laws::lemma_log(
                w1,
                seat,
                "vm-stop"@,
                "requested"@,
                None,
                None,
                detail,
                rule,
            );
            let w2 = service::log_p(w1, seat, "vm-stop"@, "requested"@, None, None, detail);
            request_laws::lemma_goes_both(w, w1, w2, rule);
            request_laws::lemma_wait_for_state(w2, vm_id, "poweroff"@, 30, None, rule);
            let w3 = service::wait_for_state_p(w2, vm_id, "poweroff"@, 30, None).0;
            request_laws::lemma_goes_both(w, w2, w3, rule);
        },
        Err(error) => {
            let detail = "Guest shutdown unavailable: "@ + error;
            request_laws::lemma_log(w1, seat, "vm-stop"@, "fallback"@, None, None, detail, rule);
            let w2 = service::log_p(w1, seat, "vm-stop"@, "fallback"@, None, None, detail);
            request_laws::lemma_goes_both(w, w1, w2, rule);
            request_laws::lemma_checked(w2, power_button_command(vm_id), rule);
            let (w3, pressed) = service::checked_p(w2, power_button_command(vm_id));
            request_laws::lemma_goes_both(w, w2, w3, rule);
            if pressed is Ok {
                let words = "ACPI power button requested"@;
                request_laws::lemma_log(
                    w3,
                    seat,
                    "vm-stop"@,
                    "requested"@,
                    None,
                    None,
                    words,
                    rule,
                );
                let w4 = service::log_p(w3, seat, "vm-stop"@, "requested"@, None, None, words);
                request_laws::lemma_goes_both(w, w3, w4, rule);
                request_laws::lemma_wait_for_state(w4, vm_id, "poweroff"@, 30, None, rule);
                let w5 = service::wait_for_state_p(w4, vm_id, "poweroff"@, 30, None).0;
                request_laws::lemma_goes_both(w, w4, w5, rule);
            }
        },
    }
}

pub proof fn lemma_shut_machine(
    w: Run,
    seat: Text,
    config: ApplicationConfigView,
    devices: Seq<PhysicalInputDeviceView>,
    vm_id: Text,
    rule: Rule,
)
    requires
        request_laws::admits_reading(rule),
        request_laws::admits(rule, shutdown_command(vm_id)),
        request_laws::admits(rule, power_button_command(vm_id)),
    ensures
        ({
            let (after, result) = activation::shut_machine_p(w, seat, config, devices, vm_id);
            let record = service::record_of(after, seat);
            &&& request_laws::goes(w, after, rule)
            &&& result is Ok ==> {
                &&& record.attached == service::record_of(w, seat).attached
                &&& !record.vm_started_by_multiseat
                &&& record.display_mode == ManagedSeatDisplayMode::NormalVirtualBox
                &&& record.last_error is None
                &&& record.transitional is None
            }
        }),
{
    let (after, result) = activation::shut_machine_p(w, seat, config, devices, vm_id);
    request_laws::lemma_inspect(w, vm_id, rule);
    let (w1, answer) = service::inspect_vm_p(w, vm_id);
    if let Ok(vm) = answer {
        let (w2, off) = if machine_info::is_running(vm) {
            activation::power_off_p(w1, seat, vm_id)
        } else {
            (w1, Ok(()))
        };
        lemma_power_off(w1, seat, vm_id, rule);
        request_laws::lemma_goes_none(w1, rule);
        request_laws::lemma_goes_both(w, w1, w2, rule);
        if off is Ok {
            let record = RuntimeRecordView {
                transitional: None,
                vm_started_by_multiseat: false,
                last_error: None,
                display_mode: ManagedSeatDisplayMode::NormalVirtualBox,
                ..service::record_of(w2, seat)
            };
            request_laws::lemma_remember(w2, seat, record, rule);
            let w3 = activation::note_stopped(w2, seat);
            request_laws::lemma_goes_both(w, w2, w3, rule);
            request_laws::lemma_status(w3, seat, config, devices, rule);
            request_laws::lemma_goes_both(w, w3, after, rule);
        }
    }
}

pub proof fn lemma_cancel_and_shut(w: Run, seat: Text, rule: Rule)
    requires
        admits_ending(rule, w, seat),
    ensures
        ({
            let after = isolation::shutdown_p(isolation::cancel_start_p(w, seat)).0;
            &&& request_laws::goes(w, after, rule)
            &&& after.state == w.state
        }),
{
    let w1 = isolation::cancel_start_p(w, seat);
    match text_map::lookup(w.state.cancellations, seat) {
        Some(flag) => request_laws::lemma_ask(w, Request::Cancel(flag), rule),
        None => request_laws::lemma_goes_none(w, rule),
    }
    request_laws::lemma_ask(w1, Request::PresentationStop, rule);
    let (w2, shown) = journal::ask(w1, Request::PresentationStop);
    request_laws::lemma_goes_both(w, w1, w2, rule);
    request_laws::lemma_ask(w2, Request::FocusStop, rule);
    let (w3, _) = journal::ask(w2, Request::FocusStop);
    request_laws::lemma_goes_both(w, w2, w3, rule);
}

pub proof fn lemma_detach_managed(
    w: Run,
    seat: Text,
    vm_id: Text,
    devices: Seq<PhysicalInputDeviceView>,
    rule: Rule,
)
    requires
        request_laws::admits_reading(rule),
        activation_laws::admits_taking_back(
            rule,
            w.oracle,
            vm_id,
            devices,
            service::record_of(w, seat).attached,
        ),
    ensures
        ({
            let (after, result) = usb_attachment::detach_managed_p(w, seat, vm_id, devices);
            &&& request_laws::goes(w, after, rule)
            &&& result is Ok ==> service::record_of(after, seat).attached.len() == 0
        }),
{
    let items = service::record_of(w, seat).attached;
    let words = usb_attachment::detach_wording();
    let count = items.len() as int;
    activation_laws::lemma_detach_items(w, seat, vm_id, devices, items, count, words, rule);
    let (w1, errors) = usb_attachment::detach_items_p(
        w,
        seat,
        vm_id,
        devices,
        items,
        count,
        words,
    );
    activation_laws::lemma_forget_attachments(w1, seat, rule);
    request_laws::lemma_goes_both(
        w,
        w1,
        usb_attachment::forget_attachments(w1, seat),
        rule,
    );
}

pub proof fn lemma_stop(
    w: Run,
    seat: Text,
    config: ApplicationConfigView,
    devices: Seq<PhysicalInputDeviceView>,
    rule: Rule,
)
    requires
        admits_stop(rule, w, seat, config, devices),
    ensures
        ({
            let (after, result) = activation::stop_p(w, seat, config, devices);
            let record = service::record_of(after, seat);
            &&& request_laws::goes(w, after, rule)
            &&& result is Ok ==> {
                &&& record.attached.len() == 0
                &&& !record.vm_started_by_multiseat
                &&& record.display_mode == ManagedSeatDisplayMode::NormalVirtualBox
                &&& record.last_error is None
                &&& record.transitional is None
            }
        }),
{
    let after = activation::stop_p(w, seat, config, devices).0;
    lemma_cancel_and_shut(w, seat, rule);
    let (w1, shut) = isolation::shutdown_p(isolation::cancel_start_p(w, seat));
    if shut is Ok {
        if let Ok(vm_id) = seat_rules::vm_of(config, seat) {
            request_laws::lemma_ask(w1, Request::MouseRestore(vm_id), rule);
            let (w2, reply) = journal::ask(w1, Request::MouseRestore(vm_id));
            request_laws::lemma_goes_both(w, w1, w2, rule);
            if let Ok(integration) = reply->Mouse_0 {
                let record = RuntimeRecordView {
                    transitional: Some(SeatRuntimeStatus::Stopping),
                    mouse_integration: integration,
                    ..service::record_of(w2, seat)
                };
                request_laws::lemma_remember(w2, seat, record, rule);
                let w3 = activation::note_stopping(w2, seat, integration);
                request_laws::lemma_goes_both(w, w2, w3, rule);
                lemma_detach_managed(w3, seat, vm_id, devices, rule);
                let (w4, detached) = usb_attachment::detach_managed_p(w3, seat, vm_id, devices);
                request_laws::lemma_goes_both(w, w3, w4, rule);
                if detached is Ok {
                    lemma_shut_machine(w4, seat, config, devices, vm_id, rule);
                    request_laws::lemma_goes_both(w, w4, after, rule);
                }
            }
        }
    }
}

pub proof fn lemma_power_words()
    ensures
        "shutdown"@ != "usbattach"@,
        "shutdown"@ != "usbdetach"@,
        "acpipowerbutton"@ != "usbattach"@,
        "acpipowerbutton"@ != "usbdetach"@,
{
    reveal_strlit("shutdown");
    reveal_strlit("acpipowerbutton");
    reveal_strlit("usbattach");
    reveal_strlit("usbdetach");
    assert("shutdown"@.len() == 8);
    assert("acpipowerbutton"@.len() == 15);
}

/// The rule of a stop: no machine is started and no device is handed over, and a device is
/// taken back only where handing it over to this seat was accepted, under the identifier that
/// VirtualBox gave it at that very moment.
pub open spec fn takes_back_only(
    oracle: Oracle<Reply>,
    devices: Seq<PhysicalInputDeviceView>,
    attached: Seq<ManagedAttachmentView>,
) -> Rule {
    |earlier: Seq<Request>, put: Request|
        !activation_laws::starts_machine(put) && !activation_laws::attaches(put) && (
        activation_laws::detaches(put) ==> exists|i: int|
            0 <= i < attached.len() && activation_laws::was_accepted(#[trigger] attached[i]) && (
            seat_rules::physical(
                devices,
                attached[i].physical_device_id,
                attached[i].kind,
            ) matches Some(device) && activation_laws::looked_up(
                oracle,
                earlier,
                device,
                put->Execute_0[3],
            )))
}

proof fn lemma_admits_taking_back_only(
    oracle: Oracle<Reply>,
    devices: Seq<PhysicalInputDeviceView>,
    attached: Seq<ManagedAttachmentView>,
    vm_id: Text,
)
    ensures
        request_laws::admits_reading(takes_back_only(oracle, devices, attached)),
        activation_laws::admits_taking_back(
            takes_back_only(oracle, devices, attached),
            oracle,
            vm_id,
            devices,
            attached,
        ),
        request_laws::admits(
            takes_back_only(oracle, devices, attached),
            shutdown_command(vm_id),
        ),
        request_laws::admits(
            takes_back_only(oracle, devices, attached),
            power_button_command(vm_id),
        ),
{
    activation_laws::lemma_words();
    lemma_power_words();
    let rule = takes_back_only(oracle, devices, attached);
    assert forall|i: int|
        0 <= i < attached.len() && activation_laws::was_accepted(#[trigger] attached[i]) implies (
    seat_rules::physical(
        devices,
        attached[i].physical_device_id,
        attached[i].kind,
    ) matches Some(device) ==> activation_laws::admits_detach(rule, oracle, vm_id, device)) by {
        if let Some(device) = seat_rules::physical(
            devices,
            attached[i].physical_device_id,
            attached[i].kind,
        ) {
            assert forall|earlier: Seq<Request>, uuid: Text|
                activation_laws::looked_up(oracle, earlier, device, uuid) implies #[trigger] rule(
                earlier,
                Request::Execute(activation_laws::detach_command(vm_id, uuid)),
            ) by {
                assert(activation_laws::was_accepted(attached[i]));
            }
        }
    }
}

/// Stopping a seat takes back only what was handed to it, and hands nothing over.
pub proof fn law_a_stop_takes_back_only_what_was_accepted(
    w: Run,
    seat: Text,
    config: ApplicationConfigView,
    devices: Seq<PhysicalInputDeviceView>,
)
    ensures
        journal::within(
            w,
            activation::stop_p(w, seat, config, devices).0,
            takes_back_only(w.oracle, devices, service::record_of(w, seat).attached),
        ),
{
    let attached = service::record_of(w, seat).attached;
    let rule = takes_back_only(w.oracle, devices, attached);
    assert(admits_stop(rule, w, seat, config, devices)) by {
        match seat_rules::vm_of(config, seat) {
            Ok(vm_id) => lemma_admits_taking_back_only(w.oracle, devices, attached, vm_id),
            Err(_) => lemma_admits_taking_back_only(w.oracle, devices, attached, seat),
        }
    }
    lemma_stop(w, seat, config, devices, rule);
}

/// A seat that was stopped holds no device, its machine is no longer counted as started here,
/// and its window is open to the host again.
pub proof fn law_a_stopped_seat_holds_nothing(
    w: Run,
    seat: Text,
    config: ApplicationConfigView,
    devices: Seq<PhysicalInputDeviceView>,
)
    requires
        activation::stop_p(w, seat, config, devices).1 is Ok,
    ensures
        ({
            let record = service::record_of(
                activation::stop_p(w, seat, config, devices).0,
                seat,
            );
            &&& record.attached.len() == 0
            &&& !record.vm_started_by_multiseat
            &&& record.display_mode == ManagedSeatDisplayMode::NormalVirtualBox
            &&& record.last_error is None
            &&& record.transitional is None
        }),
{
    lemma_stop(
        w,
        seat,
        config,
        devices,
        |earlier: Seq<Request>, put: Request| true,
    );
}

// ---- Releasing -------------------------------------------------------------------------

proof fn lemma_forget_kind(w: Run, seat: Text, kind: InputKind, rule: Rule)
    ensures
        request_laws::goes(w, activation::forget_kind(w, seat, kind), rule),
{
    let record = service::record_of(w, seat);
    request_laws::lemma_remember(
        w,
        seat,
        RuntimeRecordView {
            attached: activation::without_kind(record.attached, kind),
            ..record
        },
        rule,
    );
}

/// Whether the last request asked for the USB devices, and the answer said for sure that a
/// device is the one with an identifier and that VirtualBox has taken it.
pub open spec fn captured_at_once(
    oracle: Oracle<Reply>,
    earlier: Seq<Request>,
    device: PhysicalInputDeviceView,
    uuid: Text,
) -> bool {
    activation_laws::listing_at(oracle, earlier, earlier.len() - 1) matches Some(status)
        && activation::captured_uuid(device, status) == Some(uuid)
}

/// Whether a rule allows letting go of a device that was just found taken.
pub open spec fn admits_letting_go(
    rule: Rule,
    oracle: Oracle<Reply>,
    vm_id: Text,
    device: PhysicalInputDeviceView,
) -> bool {
    forall|earlier: Seq<Request>, uuid: Text|
        captured_at_once(oracle, earlier, device, uuid) ==> #[trigger] rule(
            earlier,
            Request::Execute(activation_laws::detach_command(vm_id, uuid)),
        )
}

pub proof fn lemma_release_one(
    w: Run,
    seat: Text,
    vm_id: Text,
    kind: InputKind,
    device: PhysicalInputDeviceView,
    strategy: InputRoutingStrategy,
    rule: Rule,
)
    requires
        request_laws::admits_reading(rule),
        strategy == InputRoutingStrategy::VirtualBoxUsbPassthrough ==> admits_letting_go(
            rule,
            w.oracle,
            vm_id,
            device,
        ),
    ensures
        request_laws::goes(
            w,
            activation::release_one_p(w, seat, vm_id, kind, device, strategy).0,
            rule,
        ),
{
    let after = activation::release_one_p(w, seat, vm_id, kind, device, strategy).0;
    if strategy != InputRoutingStrategy::VirtualBoxUsbPassthrough {
        lemma_forget_kind(w, seat, kind, rule);
    } else {
        request_laws::lemma_usb_status(w, rule);
        let (w1, answer) = service::usb_status_p(w);
        if let Ok(status) = answer {
            let i = w.requests.len() as int;
            assert(w1.requests[i] == Request::Execute(activation_laws::listing_command()));
            assert(activation_laws::listing_at(w.oracle, w1.requests, i) == Some(status));
            match activation::captured_uuid(device, status) {
                None => {
                    lemma_forget_kind(w1, seat, kind, rule);
                    request_laws::lemma_goes_both(w, w1, after, rule);
                },
                Some(uuid) => {
                    let command = activation_laws::detach_command(vm_id, uuid);
                    assert(captured_at_once(w.oracle, w1.requests, device, uuid));
                    request_laws::lemma_checked(w1, command, rule);
                    let (w2, done) = service::checked_p(w1, command);
                    request_laws::lemma_goes_both(w, w1, w2, rule);
                    let outcome = if done is Ok {
                        "success"@
                    } else {
                        "error"@
                    };
                    let detail = match done {
                        Ok(_) => "configured Barnen device released"@,
                        Err(error) => error,
                    };
                    request_laws::lemma_log(
                        w2,
                        seat,
                        "usb-detach"@,
                        outcome,
                        Some(device.id),
                        Some(uuid),
                        detail,
                        rule,
                    );
                    let w3 = service::log_p(
                        w2,
                        seat,
                        "usb-detach"@,
                        outcome,
                        Some(device.id),
                        Some(uuid),
                        detail,
                    );
                    request_laws::lemma_goes_both(w, w2, w3, rule);
                    lemma_forget_kind(w3, seat, kind, rule);
                    request_laws::lemma_goes_both(w, w3, after, rule);
                },
            }
        }
    }
}

/// What a rule has to allow of a release, but the requests that only ask.
pub open spec fn admits_release(
    rule: Rule,
    oracle: Oracle<Reply>,
    seat: Text,
    config: ApplicationConfigView,
    devices: Seq<PhysicalInputDeviceView>,
) -> bool {
    let routing = config.routing_of(seat);
    &&& request_laws::admits_reading(rule)
    &&& (seat_rules::target_inputs(seat, config, devices) matches Ok(inputs) ==> (
    seat_rules::vm_of(config, seat) matches Ok(vm_id) ==> {
        &&& routing.keyboard == InputRoutingStrategy::VirtualBoxUsbPassthrough
            ==> admits_letting_go(rule, oracle, vm_id, inputs.keyboard)
        &&& routing.mouse == InputRoutingStrategy::VirtualBoxUsbPassthrough ==> admits_letting_go(
            rule,
            oracle,
            vm_id,
            inputs.mouse,
        )
    }))
}

pub proof fn lemma_release(
    w: Run,
    seat: Text,
    config: ApplicationConfigView,
    devices: Seq<PhysicalInputDeviceView>,
    rule: Rule,
)
    requires
        admits_release(rule, w.oracle, seat, config, devices),
    ensures
        request_laws::goes(w, activation::release_p(w, seat, config, devices).0, rule),
{
    let routing = config.routing_of(seat);
    let after = activation::release_p(w, seat, config, devices).0;
    request_laws::lemma_goes_none(w, rule);
    match (seat_rules::target_inputs(seat, config, devices), seat_rules::vm_of(config, seat)) {
        (Ok(inputs), Ok(vm_id)) => {
            lemma_release_one(
                w,
                seat,
                vm_id,
                InputKind::Keyboard,
                inputs.keyboard,
                routing.keyboard,
                rule,
            );
            let (w1, first) = activation::release_one_p(
                w,
                seat,
                vm_id,
                InputKind::Keyboard,
                inputs.keyboard,
                routing.keyboard,
            );
            if first is Ok {
                lemma_release_one(
                    w1,
                    seat,
                    vm_id,
                    InputKind::Mouse,
                    inputs.mouse,
                    routing.mouse,
                    rule,
                );
                let (w2, second) = activation::release_one_p(
                    w1,
                    seat,
                    vm_id,
                    InputKind::Mouse,
                    inputs.mouse,
                    routing.mouse,
                );
                request_laws::lemma_goes_both(w, w1, w2, rule);
                if second is Ok {
                    let record = RuntimeRecordView {
                        last_error: None,
                        transitional: None,
                        ..service::record_of(w2, seat)
                    };
                    request_laws::lemma_remember(w2, seat, record, rule);
                    let w3 = service::remember(w2, seat, record);
                    request_laws::lemma_goes_both(w, w2, w3, rule);
                    request_laws::lemma_status(w3, seat, config, devices, rule);
                    request_laws::lemma_goes_both(w, w3, after, rule);
                }
            }
        },
        _ => {},
    }
}

/// The rule of a release: no machine is started and no device is handed over, and VirtualBox
/// lets go only of a seat's own devices that go to the guest, where it was just found to hold
/// them.
pub open spec fn lets_go_only(
    oracle: Oracle<Reply>,
    seat: Text,
    config: ApplicationConfigView,
    devices: Seq<PhysicalInputDeviceView>,
) -> Rule {
    |earlier: Seq<Request>, put: Request|
        !activation_laws::starts_machine(put) && !activation_laws::attaches(put) && (
        activation_laws::detaches(put) ==> (seat_rules::target_inputs(
            seat,
            config,
            devices,
        ) matches Ok(inputs) && exists|device: PhysicalInputDeviceView|
            #![trigger captured_at_once(oracle, earlier, device, put->Execute_0[3])]
            activation_laws::goes_to_guest(device, inputs, config.routing_of(seat))
                && captured_at_once(oracle, earlier, device, put->Execute_0[3])))
}

proof fn lemma_admits_letting_go_only(
    oracle: Oracle<Reply>,
    seat: Text,
    config: ApplicationConfigView,
    devices: Seq<PhysicalInputDeviceView>,
)
    ensures
        admits_release(
            lets_go_only(oracle, seat, config, devices),
            oracle,
            seat,
            config,
            devices,
        ),
{
    activation_laws::lemma_words();
}

/// A release lets go only of the seat's own devices, as VirtualBox lists them at that moment.
pub proof fn law_a_release_lets_go_of_the_seats_own_devices(
    w: Run,
    seat: Text,
    config: ApplicationConfigView,
    devices: Seq<PhysicalInputDeviceView>,
)
    ensures
        journal::within(
            w,
            activation::release_p(w, seat, config, devices).0,
            lets_go_only(w.oracle, seat, config, devices),
        ),
{
    lemma_admits_letting_go_only(w.oracle, seat, config, devices);
    lemma_release(w, seat, config, devices, lets_go_only(w.oracle, seat, config, devices));
}

/// A seat that runs on, is stopped or is released keeps its startup trace within its limit.
pub proof fn law_traces_stay_bounded(
    w: Run,
    request: activation::StartRequest,
    seat: Text,
    config: ApplicationConfigView,
    devices: Seq<PhysicalInputDeviceView>,
)
    requires
        request_laws::bounded(w.state),
    ensures
        request_laws::bounded(activation::start_p(w, request).0.state),
        request_laws::bounded(activation::stop_p(w, seat, config, devices).0.state),
        request_laws::bounded(activation::release_p(w, seat, config, devices).0.state),
{
    let rule: Rule = |earlier: Seq<Request>, put: Request| true;
    activation_laws::lemma_start(w, request, rule);
    lemma_stop(w, seat, config, devices, rule);
    lemma_release(w, seat, config, devices, rule);
}

} // verus!
