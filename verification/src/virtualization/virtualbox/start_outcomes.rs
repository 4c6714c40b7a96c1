//! What a start of a seat brings about, said of the configuration's own fields and of the words
//! of the requests.
use super::activation;
use super::activation::StartRequest;
use super::activation_laws;
use super::focus_protection::ManagedVmWindowIdentityView;
use super::isolation;
use super::mouse_integration::MouseIntegrationState;
use super::request_laws;
use super::request_laws::Rule;
use super::runtime::InputKind;
use super::seat_rules;
use super::seat_rules::ActivationInputsView;
use super::service;
use super::service::{Reply, Request, Run};
use super::status;
use super::usb_attachment;
use crate::devices::PhysicalInputDeviceView;
use crate::journal;
use crate::journal::Oracle;
use crate::seats;
use crate::seats::{
    ApplicationConfigView, DeviceRoutingBackend, InputRoutingStrategy, SeatConfigView, SeatDeviceAssignmentsView,
};
use crate::text::model;
use crate::text::model::Text;
use vstd::prelude::*;

verus! {

// ---- Whose display, whose machine ------------------------------------------------------

/// The machine of a seat is the one that is set for it.
pub proof fn law_a_seats_machine_is_its_own(config: ApplicationConfigView, seat: Text)
    ensures
        match seat_rules::vm_of(config, seat) {
            Ok(vm_id) => config.machines.contains_key(seat) && vm_id
                == config.machines[seat].vm_id,
            Err(_) => !config.machines.contains_key(seat),
        },
        match seat_rules::managed_machine(config, seat) {
            Ok(vm_id) => config.machines.contains_key(seat) && vm_id
                == config.machines[seat].vm_id && config.machines[seat].managed_by_multiseat,
            Err(_) => !config.machines.contains_key(seat)
                || !config.machines[seat].managed_by_multiseat,
        },
{
}

/// Whether a request about windows is about the machine and the display that are set for a
/// seat: the window that is shown and guarded is one that VirtualBox described under the
/// machine's identifier, it is shown on the display of the first seat in the list with the
/// seat's identifier, it is guarded for the caller's own window, and the mouse integration that
/// is turned off is the machine's.
pub open spec fn keeps_to_its_seat(oracle: Oracle<Reply>, request: StartRequest) -> Rule {
    |earlier: Seq<Request>, put: Request|
        {
            let own = request.config.machines[request.seat].vm_id;
            let managed = request.config.machines.contains_key(request.seat)
                && request.config.machines[request.seat].managed_by_multiseat;
            &&& (put matches Request::PresentationStart(target, display) ==> managed && (exists|
                i: int,
            |
                #[trigger] seats::is_first(request.config.seats, request.seat, i)
                    && request.config.seats[i].devices.display == Some(display))
                && activation_laws::told_identity(oracle, earlier, own, target))
            &&& (put matches Request::PresentationUnavailable(display, _) ==> managed && (forall|
                i: int,
            |
                #[trigger] seats::is_first(request.config.seats, request.seat, i)
                    ==> request.config.seats[i].devices.display == display))
            &&& (put matches Request::FocusStart(target, anchor) ==> managed && anchor
                == request.anchor && activation_laws::told_identity(oracle, earlier, own, target))
            &&& (put matches Request::MouseRequest(machine, desired) ==> managed && machine == own
                && desired == MouseIntegrationState::Disabled)
        }
}

proof fn lemma_admits_own(
    oracle: Oracle<Reply>,
    request: StartRequest,
    vm_id: Text,
    inputs: ActivationInputsView,
)
    requires
        seat_rules::vm_of(request.config, request.seat) == Ok::<Text, Text>(vm_id),
    ensures
        forall|running: bool| #[trigger]
            activation_laws::admits_activation(
                keeps_to_its_seat(oracle, request),
                oracle,
                request,
                vm_id,
                inputs,
                running,
            ),
{
    let rule = keeps_to_its_seat(oracle, request);
    let list = request.config.seats;
    seats::law_a_seat_is_the_first_with_its_identifier(request.config, request.seat);
    if request.config.is_managed(request.seat) {
        assert forall|earlier: Seq<Request>, put: Request|
            activation_laws::is_for_window(
                oracle,
                earlier,
                request.config,
                request.seat,
                vm_id,
                request.anchor,
                put,
            ) implies #[trigger] rule(earlier, put) by {
            if let Request::PresentationUnavailable(Some(display), _) = put {
                let i = choose|i: int|
                    #[trigger] seats::is_first(list, request.seat, i)
                        && list[i].devices.display == Some(display);
                assert forall|j: int| #[trigger] seats::is_first(list, request.seat, j) implies j
                    == i by {}
            }
        }
    }
}

/// Whatever the components answer, a start shows the window of its seat's own machine, on the
/// display that is set for that seat and on no other, and guards that window alone. Where no
/// display is set for the seat, no window is shown.
pub proof fn law_a_window_is_shown_on_its_seats_display(w: Run, request: StartRequest)
    ensures
        journal::within(
            w,
            activation::start_p(w, request).0,
            keeps_to_its_seat(w.oracle, request),
        ),
{
    let rule = keeps_to_its_seat(w.oracle, request);
    assert(activation_laws::admits_whole_start(rule, w, request)) by {
        if let (Ok(inputs), Ok(vm_id)) = (
            seat_rules::activation_inputs(request.seat, request.config, request.devices),
            seat_rules::vm_of(request.config, request.seat),
        ) {
            lemma_admits_own(w.oracle, request, vm_id, inputs);
        }
    }
    activation_laws::lemma_start(w, request, rule);
}

/// Whether two configurations differ in nothing but the displays of seats other than one.
pub open spec fn differ_in_other_displays(
    a: ApplicationConfigView,
    b: ApplicationConfigView,
    seat: Text,
) -> bool {
    &&& b == (ApplicationConfigView { seats: b.seats, ..a })
    &&& a.seats.len() == b.seats.len()
    &&& forall|i: int|
        0 <= i < a.seats.len() ==> #[trigger] b.seats[i] == (SeatConfigView {
            devices: SeatDeviceAssignmentsView {
                display: b.seats[i].devices.display,
                ..a.seats[i].devices
            },
            ..a.seats[i]
        })
    &&& forall|i: int| #[trigger] seats::is_first(a.seats, seat, i) ==> a.seats[i] == b.seats[i]
}

proof fn lemma_same_seat(a: ApplicationConfigView, b: ApplicationConfigView, seat: Text)
    requires
        differ_in_other_displays(a, b, seat),
    ensures
        a.seat_index(seat) == b.seat_index(seat),
        a.seat(seat) == b.seat(seat),
        a.machine(seat) == b.machine(seat),
        a.is_managed(seat) == b.is_managed(seat),
        a.routing_of(seat) == b.routing_of(seat),
        seat_rules::display_of(a, seat) == seat_rules::display_of(b, seat),
        seat_rules::vm_of(a, seat) == seat_rules::vm_of(b, seat),
        forall|devices: Seq<PhysicalInputDeviceView>| #[trigger]
            seat_rules::activation_inputs(seat, a, devices) == seat_rules::activation_inputs(
                seat,
                b,
                devices,
            ),
        forall|device: PhysicalInputDeviceView, keyboard: bool| #[trigger]
            seat_rules::passthrough_allowed(a, device, keyboard)
                == seat_rules::passthrough_allowed(b, device, keyboard),
{
    seats::law_a_seat_is_the_first_with_its_identifier(a, seat);
    seats::law_a_seat_is_the_first_with_its_identifier(b, seat);
    match a.seat_index(seat) {
        Some(i) => {
            assert(seats::is_first(a.seats, seat, i));
            assert forall|j: int| 0 <= j < i implies (#[trigger] b.seats[j]).id != seat by {
                assert(a.seats[j].id != seat);
            }
            assert(seats::is_first(b.seats, seat, i));
        },
        None => {
            assert forall|j: int| 0 <= j < b.seats.len() implies (#[trigger] b.seats[j]).id
                != seat by {
                assert(a.seats[j].id != seat);
            }
            if let Some(i) = b.seat_index(seat) {
                assert(seats::is_first(b.seats, seat, i));
            }
        },
    }
    assert forall|devices: Seq<PhysicalInputDeviceView>| #[trigger]
        seat_rules::activation_inputs(seat, a, devices) == seat_rules::activation_inputs(
        seat,
        b,
        devices,
    ) by {
        if a.seat_index(seat) is Some {
            assert(b.seats[0].devices.keyboard == a.seats[0].devices.keyboard);
            assert(b.seats[0].devices.mouse == a.seats[0].devices.mouse);
        }
    }
    assert forall|device: PhysicalInputDeviceView, keyboard: bool| #[trigger]
        seat_rules::passthrough_allowed(a, device, keyboard) == seat_rules::passthrough_allowed(
        b,
        device,
        keyboard,
    ) by {
        lemma_same_safety(a, b, device.id, DeviceRoutingBackend::VirtualBoxUsbPassthrough, 0);
    }
}

proof fn lemma_same_safety(
    a: ApplicationConfigView,
    b: ApplicationConfigView,
    id: Text,
    backend: DeviceRoutingBackend,
    from: int,
)
    requires
        a.safety == b.safety,
        0 <= from,
    ensures
        a.safety_from(id, backend, from) == b.safety_from(id, backend, from),
    decreases a.safety.len() - from,
{
    if from < a.safety.len() {
        lemma_same_safety(a, b, id, backend, from + 1);
    }
}

/// Where the display of another seat is changed, a start of a seat puts the same requests as
/// before, whatever the components answer.
pub proof fn law_other_seats_displays_make_no_difference(
    w: Run,
    request: StartRequest,
    other: ApplicationConfigView,
)
    requires
        differ_in_other_displays(request.config, other, request.seat),
    ensures
        activation::start_p(w, StartRequest { config: other, ..request }).0.requests
            == activation::start_p(w, request).0.requests,
        activation::start_p(w, StartRequest { config: other, ..request }).1 is Ok
            == activation::start_p(w, request).1 is Ok,
{
    let changed = StartRequest { config: other, ..request };
    lemma_same_seat(request.config, other, request.seat);
    let (w1, go) = service::not_cancelled_p(w, request.flag);
    if go is Ok {
        if let (Ok(inputs), Ok(vm_id)) = (
            seat_rules::activation_inputs(request.seat, request.config, request.devices),
            seat_rules::vm_of(request.config, request.seat),
        ) {
            let (w2, answer) = service::inspect_vm_p(w1, vm_id);
            if let Ok(vm) = answer {
                lemma_same_bring_up(w2, request, changed, vm_id, inputs, vm.state);
                let (w3, up) = activation::bring_up_p(w2, request, vm_id, inputs, vm.state);
                if up is Ok {
                    lemma_same_hand_over(w3, request, changed, vm_id, inputs);
                }
            }
        }
    }
}

proof fn lemma_same_bring_up(
    w: Run,
    request: StartRequest,
    changed: StartRequest,
    vm_id: Text,
    inputs: ActivationInputsView,
    vm_state: Text,
)
    requires
        changed == (StartRequest { config: changed.config, ..request }),
        differ_in_other_displays(request.config, changed.config, request.seat),
    ensures
        activation::bring_up_p(w, changed, vm_id, inputs, vm_state) == activation::bring_up_p(
            w,
            request,
            vm_id,
            inputs,
            vm_state,
        ),
{
    let seat = request.seat;
    lemma_same_seat(request.config, changed.config, seat);
    let begun = activation::begin_p(w, seat, vm_state);
    let managed = request.config.is_managed(seat);
    let routing = request.config.routing_of(seat);
    let (w1, restrained) = activation::restrain_p(begun, seat, vm_id, managed);
    if restrained is Ok {
        assert(usb_attachment::resolve_required_p(w1, inputs, routing, changed.config)
            == usb_attachment::resolve_required_p(w1, inputs, routing, request.config));
    }
}

proof fn lemma_same_attach(
    w: Run,
    request: StartRequest,
    changed: StartRequest,
    vm_id: Text,
    inputs: ActivationInputsView,
)
    requires
        changed == (StartRequest { config: changed.config, ..request }),
        differ_in_other_displays(request.config, changed.config, request.seat),
    ensures
        ({
            let routing = request.config.routing_of(request.seat);
            activation::attach_inputs_p(w, changed, vm_id, inputs, routing)
                == activation::attach_inputs_p(w, request, vm_id, inputs, routing)
        }),
{
    let routing = request.config.routing_of(request.seat);
    assert(activation::attach_input_p(
        w,
        changed,
        vm_id,
        InputKind::Keyboard,
        inputs.keyboard,
        routing.keyboard,
        inputs,
    ) == activation::attach_input_p(
        w,
        request,
        vm_id,
        InputKind::Keyboard,
        inputs.keyboard,
        routing.keyboard,
        inputs,
    ));
    let w1 = activation::attach_input_p(
        w,
        request,
        vm_id,
        InputKind::Keyboard,
        inputs.keyboard,
        routing.keyboard,
        inputs,
    ).0;
    assert(activation::attach_input_p(
        w1,
        changed,
        vm_id,
        InputKind::Mouse,
        inputs.mouse,
        routing.mouse,
        inputs,
    ) == activation::attach_input_p(
        w1,
        request,
        vm_id,
        InputKind::Mouse,
        inputs.mouse,
        routing.mouse,
        inputs,
    ));
}

proof fn lemma_same_hand_over(
    w: Run,
    request: StartRequest,
    changed: StartRequest,
    vm_id: Text,
    inputs: ActivationInputsView,
)
    requires
        changed == (StartRequest { config: changed.config, ..request }),
        differ_in_other_displays(request.config, changed.config, request.seat),
    ensures
        activation::hand_over_p(w, changed, vm_id, inputs).0 == activation::hand_over_p(
            w,
            request,
            vm_id,
            inputs,
        ).0,
        activation::hand_over_p(w, changed, vm_id, inputs).1 is Ok == activation::hand_over_p(
            w,
            request,
            vm_id,
            inputs,
        ).1 is Ok,
{
    let seat = request.seat;
    lemma_same_seat(request.config, changed.config, seat);
    let managed = request.config.is_managed(seat);
    assert(activation::present_p(w, changed, vm_id, managed) == activation::present_p(
        w,
        request,
        vm_id,
        managed,
    )) by {
        if let (w1, Ok(vm)) = service::inspect_vm_p(w, vm_id) {
            assert(isolation::start_presentation_p(w1, seat, changed.config, vm)
                == isolation::start_presentation_p(w1, seat, request.config, vm));
        }
    }
    let (w1, presented) = activation::present_p(w, request, vm_id, managed);
    if presented is Ok {
        lemma_same_attach(w1, request, changed, vm_id, inputs);
        let routing = request.config.routing_of(seat);
        let (w2, attached) = activation::attach_inputs_p(w1, request, vm_id, inputs, routing);
        if attached is Ok {
            lemma_same_report(w2, request, changed);
        }
    }
}

proof fn lemma_same_report(w: Run, request: StartRequest, changed: StartRequest)
    requires
        changed == (StartRequest { config: changed.config, ..request }),
        differ_in_other_displays(request.config, changed.config, request.seat),
    ensures
        forall|at: Run| #[trigger]
            isolation::report_p(at, request.seat, changed.config, request.devices).0
                == isolation::report_p(at, request.seat, request.config, request.devices).0,
{
    lemma_same_seat(request.config, changed.config, request.seat);
    assert forall|at: Run| #[trigger]
        isolation::report_p(at, request.seat, changed.config, request.devices).0
            == isolation::report_p(at, request.seat, request.config, request.devices).0 by {
        assert(status::findings_p(at, request.seat, changed.config) == status::findings_p(
            at,
            request.seat,
            request.config,
        ));
    }
}

// ---- What a start that succeeds has done -----------------------------------------------

/// Whether a program has put a request.
pub open spec fn has_put(before: Run, after: Run, put: Request) -> bool {
    exists|k: int|
        before.requests.len() <= k < after.requests.len() && #[trigger] after.requests[k] == put
}

/// The rule that allows everything.
pub open spec fn anything() -> Rule {
    |earlier: Seq<Request>, put: Request| true
}

pub proof fn lemma_put_early(a: Run, b: Run, c: Run, put: Request)
    requires
        has_put(a, b, put),
        journal::within(b, c, anything()),
    ensures
        has_put(a, c, put),
{
    let k = choose|k: int|
        a.requests.len() <= k < b.requests.len() && #[trigger] b.requests[k] == put;
    assert(c.requests.take(b.requests.len() as int)[k] == c.requests[k]);
}

pub proof fn lemma_put_late(a: Run, b: Run, c: Run, put: Request)
    requires
        journal::within(a, b, anything()),
        has_put(b, c, put),
    ensures
        has_put(a, c, put),
{
    let k = choose|k: int|
        b.requests.len() <= k < c.requests.len() && #[trigger] c.requests[k] == put;
    assert(c.requests[k] == put);
}

pub proof fn lemma_put_now(w: Run, put: Request)
    ensures
        has_put(w, journal::ask(w, put).0, put),
{
    let after = journal::ask(w, put).0;
    assert(after.requests[w.requests.len() as int] == put);
}

/// Whether a device was handed to a machine, under an identifier that VirtualBox gave it in the
/// request just before.
pub open spec fn was_handed_over(
    before: Run,
    after: Run,
    vm_id: Text,
    device: PhysicalInputDeviceView,
) -> bool {
    exists|k: int, uuid: Text|
        #![trigger activation_laws::looked_up(after.oracle, after.requests.take(k), device, uuid)]
        before.requests.len() <= k < after.requests.len() && after.requests[k]
            == Request::Execute(seq!["controlvm"@, vm_id, "usbattach"@, uuid])
            && activation_laws::looked_up(after.oracle, after.requests.take(k), device, uuid)
}

proof fn lemma_handed_early(
    a: Run,
    b: Run,
    c: Run,
    vm_id: Text,
    device: PhysicalInputDeviceView,
)
    requires
        was_handed_over(a, b, vm_id, device),
        journal::within(b, c, anything()),
    ensures
        was_handed_over(a, c, vm_id, device),
{
    let (k, uuid) = choose|k: int, uuid: Text|
        #![trigger activation_laws::looked_up(b.oracle, b.requests.take(k), device, uuid)]
        a.requests.len() <= k < b.requests.len() && b.requests[k] == Request::Execute(
            seq!["controlvm"@, vm_id, "usbattach"@, uuid],
        ) && activation_laws::looked_up(b.oracle, b.requests.take(k), device, uuid);
    let n = b.requests.len() as int;
    assert(c.requests.take(n)[k] == c.requests[k]);
    assert(c.requests.take(k) =~= c.requests.take(n).take(k));
    assert(activation_laws::looked_up(c.oracle, c.requests.take(k), device, uuid));
}

proof fn lemma_handed_late(
    a: Run,
    b: Run,
    c: Run,
    vm_id: Text,
    device: PhysicalInputDeviceView,
)
    requires
        journal::within(a, b, anything()),
        was_handed_over(b, c, vm_id, device),
    ensures
        was_handed_over(a, c, vm_id, device),
{
    let (k, uuid) = choose|k: int, uuid: Text|
        #![trigger activation_laws::looked_up(c.oracle, c.requests.take(k), device, uuid)]
        b.requests.len() <= k < c.requests.len() && c.requests[k] == Request::Execute(
            seq!["controlvm"@, vm_id, "usbattach"@, uuid],
        ) && activation_laws::looked_up(c.oracle, c.requests.take(k), device, uuid);
    assert(activation_laws::looked_up(c.oracle, c.requests.take(k), device, uuid));
}

proof fn lemma_attached(
    w: Run,
    request: StartRequest,
    vm_id: Text,
    kind: InputKind,
    device: PhysicalInputDeviceView,
    inputs: ActivationInputsView,
)
    requires
        activation::attach_input_p(
            w,
            request,
            vm_id,
            kind,
            device,
            InputRoutingStrategy::VirtualBoxUsbPassthrough,
            inputs,
        ).1 is Ok,
    ensures
        was_handed_over(
            w,
            activation::attach_input_p(
                w,
                request,
                vm_id,
                kind,
                device,
                InputRoutingStrategy::VirtualBoxUsbPassthrough,
                inputs,
            ).0,
            vm_id,
            device,
        ),
{
    let rule = anything();
    let strategy = InputRoutingStrategy::VirtualBoxUsbPassthrough;
    let seat = request.seat;
    let after = activation::attach_input_p(
        w,
        request,
        vm_id,
        kind,
        device,
        strategy,
        inputs,
    ).0;
    activation_laws::lemma_announced(w, seat, kind, device, rule);
    let w1 = activation::announced(w, seat, kind, device);
    request_laws::lemma_not_cancelled(w1, request.flag, rule);
    let w2 = service::not_cancelled_p(w1, request.flag).0;
    request_laws::lemma_goes_both(w, w1, w2, rule);
    activation_laws::lemma_resolve_single(w2, device, rule);
    let (w3, answer) = usb_attachment::resolve_single_p(w2, device);
    request_laws::lemma_goes_both(w, w2, w3, rule);
    let found = answer->Ok_0;
    activation_laws::lemma_attach(w3, seat, vm_id, kind, device, found, request.devices, rule);
    let (w4, done) = usb_attachment::attach_p(
        w3,
        seat,
        vm_id,
        kind,
        device,
        found,
        request.devices,
    );
    let put = Request::Execute(seq!["controlvm"@, vm_id, "usbattach"@, found.uuid]);
    let k = w3.requests.len() as int;
    lemma_attach_first(w3, seat, vm_id, kind, device, found, request.devices);
    assert(w4.requests.take(k) == w3.requests);
    assert(activation_laws::looked_up(w4.oracle, w4.requests.take(k), device, found.uuid));
    assert(was_handed_over(w3, w4, vm_id, device));
    lemma_handed_late(w, w3, w4, vm_id, device);
    if kind == InputKind::Mouse {
        let started = service::moment_p(w).1;
        let stage = "MouseCaptured"@;
        request_laws::lemma_timed_trace(
            w4,
            seat,
            stage,
            started,
            Some(device.id),
            None,
            None,
            rule,
        );
        lemma_handed_early(w, w4, after, vm_id, device);
    }
}

proof fn lemma_attach_first(
    w: Run,
    seat: Text,
    vm_id: Text,
    kind: InputKind,
    device: PhysicalInputDeviceView,
    found: super::runtime::ResolvedUsbView,
    devices: Seq<PhysicalInputDeviceView>,
)
    requires
        journal::within(
            w,
            usb_attachment::attach_p(w, seat, vm_id, kind, device, found, devices).0,
            anything(),
        ),
    ensures
        ({
            let after = usb_attachment::attach_p(w, seat, vm_id, kind, device, found, devices).0;
            &&& after.requests.len() > w.requests.len()
            &&& after.requests[w.requests.len() as int] == Request::Execute(
                seq!["controlvm"@, vm_id, "usbattach"@, found.uuid],
            )
        }),
{
    let rule = anything();
    let command = seq!["controlvm"@, vm_id, "usbattach"@, found.uuid];
    let after = usb_attachment::attach_p(w, seat, vm_id, kind, device, found, devices).0;
    let w1 = service::log_p(
        w,
        seat,
        "usb-resolve"@,
        "success"@,
        Some(device.id),
        Some(found.uuid),
        "current VirtualBox runtime identity resolved"@,
    );
    let w2 = usb_attachment::note_attachment(w1, seat, kind, device, found);
    let (w3, answer) = service::checked_p(w2, command);
    assert(w3.requests == w.requests.push(Request::Execute(command)));
    let w4 = usb_attachment::note_outcome(w3, seat, kind, answer is Ok);
    assert(w4.requests == w3.requests);
    if answer is Ok {
        let w5 = service::log_p(
            w4,
            seat,
            "usb-attach"@,
            "success"@,
            Some(device.id),
            Some(found.uuid),
            "VBoxManage accepted dynamic attachment"@,
        );
        assert(w5.requests == w3.requests);
        request_laws::lemma_observe(w5, device.id, kind, devices, true, rule);
        let (w6, first) = usb_attachment::observe_p(w5, device.id, kind, devices, true);
        assert(w6.requests.take(w5.requests.len() as int) == w5.requests);
        lemma_kept_at(w5, w6, w.requests.len() as int);
        if let Ok(seen) = first {
            let w7 = usb_attachment::note_observation(w6, seat, kind, seen, true);
            let (w8, _) = journal::ask(w7, Request::Wait(500));
            request_laws::lemma_observe(w8, device.id, kind, devices, true, rule);
            let (w9, _) = usb_attachment::observe_p(w8, device.id, kind, devices, true);
            lemma_kept_at(w8, w9, w.requests.len() as int);
        }
    }
}

proof fn lemma_kept_at(before: Run, after: Run, k: int)
    requires
        journal::within(before, after, anything()),
        0 <= k < before.requests.len(),
    ensures
        after.requests[k] == before.requests[k],
{
    assert(after.requests.take(before.requests.len() as int)[k] == after.requests[k]);
}

/// What a presentation of a managed machine has put, where it succeeded.
proof fn lemma_presented(w: Run, request: StartRequest, vm_id: Text)
    requires
        activation::present_p(w, request, vm_id, true).1 is Ok,
    ensures
        ({
            let after = activation::present_p(w, request, vm_id, true).0;
            &&& has_put(
                w,
                after,
                Request::MouseRequest(vm_id, MouseIntegrationState::Disabled),
            )
            &&& exists|target: ManagedVmWindowIdentityView|
                #![trigger activation_laws::told_identity(after.oracle, after.requests, vm_id, target)]
                activation_laws::told_identity(after.oracle, after.requests, vm_id, target)
                    && has_put(w, after, Request::FocusStart(target, request.anchor)) && match seat_rules::display_of(
                    request.config,
                    request.seat,
                ) {
                    Some(display) => has_put(
                        w,
                        after,
                        Request::PresentationStart(target, display),
                    ),
                    None => true,
                }
        }),
{
    let rule = anything();
    let seat = request.seat;
    let after = activation::present_p(w, request, vm_id, true).0;
    request_laws::lemma_inspect(w, vm_id, rule);
    activation_laws::lemma_told(w, vm_id);
    let (w1, answer) = service::inspect_vm_p(w, vm_id);
    let vm = answer->Ok_0;
    let target = isolation::window_identity(vm);
    activation_laws::lemma_start_presentation(
        w1,
        seat,
        request.config,
        vm,
        vm_id,
        request.anchor,
        rule,
    );
    let w2 = isolation::start_presentation_p(w1, seat, request.config, vm);
    let detail = seat_rules::display_of(request.config, seat);
    let stage = "PresentationWorkerStarted"@;
    request_laws::lemma_trace(w2, seat, stage, detail, None, None, None, rule);
    let w3 = service::trace_p(w2, seat, stage, detail, None, None, None);
    let focus = Request::FocusStart(target, request.anchor);
    lemma_put_now(w3, focus);
    request_laws::lemma_ask(w3, focus, rule);
    let (w4, _) = journal::ask(w3, focus);
    let next = "FocusProtectionActive"@;
    request_laws::lemma_trace(w4, seat, next, None, None, None, None, rule);
    let w5 = service::trace_p(w4, seat, next, None, None, None, None);
    let mouse = Request::MouseRequest(vm_id, MouseIntegrationState::Disabled);
    lemma_put_now(w5, mouse);
    request_laws::lemma_ask(w5, mouse, rule);
    let (w6, _) = journal::ask(w5, mouse);
    journal::lemma_within_none(w6, after, rule);
    request_laws::lemma_goes_both(w, w1, w2, rule);
    request_laws::lemma_goes_both(w, w2, w3, rule);
    request_laws::lemma_goes_both(w, w3, w4, rule);
    request_laws::lemma_goes_both(w, w4, w5, rule);
    lemma_put_late(w, w5, w6, mouse);
    lemma_put_early(w, w6, after, mouse);
    lemma_put_late(w, w3, w4, focus);
    lemma_put_early(w, w4, w5, focus);
    lemma_put_early(w, w5, w6, focus);
    lemma_put_early(w, w6, after, focus);
    if let Some(display) = detail {
        let show = Request::PresentationStart(target, display);
        lemma_put_now(w1, show);
        let (shown, reply) = journal::ask(w1, show);
        journal::lemma_within_none(shown, shown, rule);
        if let Err(error) = reply->Done_0 {
            request_laws::lemma_ask(
                shown,
                Request::PresentationUnavailable(Some(display), error),
                rule,
            );
        }
        lemma_put_early(w1, shown, w2, show);
        lemma_put_late(w, w1, w2, show);
        lemma_put_early(w, w2, w3, show);
        lemma_put_early(w, w3, w4, show);
        lemma_put_early(w, w4, w5, show);
        lemma_put_early(w, w5, w6, show);
        lemma_put_early(w, w6, after, show);
    }
    activation_laws::lemma_still_told(w1, w2, vm_id, target, rule);
    activation_laws::lemma_still_told(w2, w3, vm_id, target, rule);
    activation_laws::lemma_still_told(w3, w4, vm_id, target, rule);
    activation_laws::lemma_still_told(w4, w5, vm_id, target, rule);
    activation_laws::lemma_still_told(w5, w6, vm_id, target, rule);
    activation_laws::lemma_still_told(w6, after, vm_id, target, rule);
}

/// What bringing a machine up has put, where it succeeded.
proof fn lemma_brought_up(
    w: Run,
    request: StartRequest,
    vm_id: Text,
    inputs: ActivationInputsView,
    vm_state: Text,
)
    requires
        activation::bring_up_p(w, request, vm_id, inputs, vm_state).1 is Ok,
    ensures
        ({
            let after = activation::bring_up_p(w, request, vm_id, inputs, vm_state).0;
            &&& journal::within(w, after, anything())
            &&& request.config.is_managed(request.seat) ==> has_put(
                w,
                after,
                Request::Execute(
                    seq!["setextradata"@, vm_id, "GUI/MouseCapturePolicy"@, "Disabled"@],
                ),
            )
            &&& model::lower(vm_state) != model::lower("running"@) ==> has_put(
                w,
                after,
                Request::Execute(seq!["startvm"@, vm_id, "--type"@, "gui"@]),
            )
        }),
{
    let rule = anything();
    let seat = request.seat;
    let managed = request.config.is_managed(seat);
    let routing = request.config.routing_of(seat);
    let running = model::same_ignoring_case(vm_state, "running"@);
    let after = activation::bring_up_p(w, request, vm_id, inputs, vm_state).0;
    activation_laws::lemma_begin(w, seat, vm_state, rule);
    let begun = activation::begin_p(w, seat, vm_state);
    activation_laws::lemma_restrain(begun, seat, vm_id, managed, rule);
    let (w1, _) = activation::restrain_p(begun, seat, vm_id, managed);
    activation_laws::lemma_resolve_required(w1, inputs, routing, request.config, rule);
    let (w2, _) = usb_attachment::resolve_required_p(w1, inputs, routing, request.config);
    request_laws::lemma_not_cancelled(w2, request.flag, rule);
    let (w3, _) = service::not_cancelled_p(w2, request.flag);
    activation_laws::lemma_power_on(w3, seat, vm_id, running, rule);
    let (w4, _) = activation::power_on_p(w3, seat, vm_id, running);
    activation_laws::lemma_await_running(w4, request, vm_id, rule);
    request_laws::lemma_goes_both(w, begun, w1, rule);
    request_laws::lemma_goes_both(w, w1, w2, rule);
    request_laws::lemma_goes_both(w, w2, w3, rule);
    request_laws::lemma_goes_both(w, w3, w4, rule);
    request_laws::lemma_goes_both(w, w4, after, rule);
    if managed {
        let command = seq!["setextradata"@, vm_id, "GUI/MouseCapturePolicy"@, "Disabled"@];
        let put = Request::Execute(command);
        lemma_put_now(begun, put);
        let (set, _) = service::checked_p(begun, command);
        request_laws::lemma_capture_policy(set, vm_id, rule);
        let (read, _) = service::capture_policy_p(set, vm_id);
        lemma_put_early(begun, set, read, put);
        journal::lemma_within_none(read, w1, rule);
        lemma_put_early(begun, read, w1, put);
        lemma_put_late(w, begun, w1, put);
        lemma_put_early(w, w1, w2, put);
        lemma_put_early(w, w2, w3, put);
        lemma_put_early(w, w3, w4, put);
        lemma_put_early(w, w4, after, put);
    }
    if !running {
        let command = seq!["startvm"@, vm_id, "--type"@, "gui"@];
        let put = Request::Execute(command);
        request_laws::lemma_moment(w3, rule);
        let (at, started) = service::moment_p(w3);
        lemma_put_now(at, put);
        let (done, answer) = service::checked_p(at, command);
        let stage = "VMStartRequested"@;
        let code = answer->Ok_0.exit_code;
        request_laws::lemma_timed_trace(
            done,
            seat,
            stage,
            started,
            Some(vm_id),
            None,
            code,
            rule,
        );
        let traced = service::timed_trace_p(done, seat, stage, started, Some(vm_id), None, code);
        lemma_put_late(w3, at, done, put);
        lemma_put_early(w3, done, traced, put);
        journal::lemma_within_none(traced, w4, rule);
        lemma_put_early(w3, traced, w4, put);
        lemma_put_late(w, w3, w4, put);
        lemma_put_early(w, w4, after, put);
    }
}

/// Where a start succeeds, what it is for has been done, whatever the components answered: the
/// seat's own machine runs, started where it did not run before; each device of the seat that
/// goes to the guest was handed to that machine, under the identifier that it had at that
/// moment; and a managed machine was kept from the host's mouse, its window was shown on the
/// display that is set for the seat, where one is, and guarded for the caller's own window.
pub proof fn law_a_start_does_what_it_is_for(
    w: Run,
    request: StartRequest,
    inputs: ActivationInputsView,
    vm: super::runtime::VirtualMachineView,
)
    requires
        activation::start_p(w, request).1 is Ok,
        seat_rules::activation_inputs(request.seat, request.config, request.devices) == Ok::<
            ActivationInputsView,
            Text,
        >(inputs),
        activation_laws::first_found(
            w,
            request,
            request.config.machines[request.seat].vm_id,
        ) == Ok::<super::runtime::VirtualMachineView, Text>(vm),
    ensures
        ({
            let after = activation::start_p(w, request).0;
            let config = request.config;
            let own = config.machines[request.seat].vm_id;
            &&& config.machines.contains_key(request.seat)
            &&& model::lower(vm.state) != model::lower("running"@) ==> has_put(
                w,
                after,
                Request::Execute(seq!["startvm"@, own, "--type"@, "gui"@]),
            )
            &&& config.routing_of(request.seat).keyboard
                == InputRoutingStrategy::VirtualBoxUsbPassthrough ==> was_handed_over(
                w,
                after,
                own,
                inputs.keyboard,
            )
            &&& config.routing_of(request.seat).mouse
                == InputRoutingStrategy::VirtualBoxUsbPassthrough ==> was_handed_over(
                w,
                after,
                own,
                inputs.mouse,
            )
            &&& config.machines[request.seat].managed_by_multiseat ==> {
                &&& has_put(
                    w,
                    after,
                    Request::Execute(
                        seq!["setextradata"@, own, "GUI/MouseCapturePolicy"@, "Disabled"@],
                    ),
                )
                &&& has_put(w, after, Request::MouseRequest(own, MouseIntegrationState::Disabled))
                &&& exists|target: ManagedVmWindowIdentityView|
                    has_put(w, after, Request::FocusStart(target, request.anchor)) && forall|
                        i: int,
                    |
                        #[trigger] seats::is_first(config.seats, request.seat, i) ==> (
                        config.seats[i].devices.display matches Some(display) ==> has_put(
                            w,
                            after,
                            Request::PresentationStart(target, display),
                        ))
            }
        }),
{
    let rule = anything();
    let seat = request.seat;
    let config = request.config;
    let after = activation::start_p(w, request).0;
    let vm_id = seat_rules::vm_of(config, seat)->Ok_0;
    let routing = config.routing_of(seat);
    let managed = config.is_managed(seat);
    request_laws::lemma_not_cancelled(w, request.flag, rule);
    let (w1, _) = service::not_cancelled_p(w, request.flag);
    request_laws::lemma_inspect(w1, vm_id, rule);
    let (w2, _) = service::inspect_vm_p(w1, vm_id);
    request_laws::lemma_goes_both(w, w1, w2, rule);
    lemma_brought_up(w2, request, vm_id, inputs, vm.state);
    let (w3, _) = activation::bring_up_p(w2, request, vm_id, inputs, vm.state);
    journal::lemma_within_both(w, w2, w3, rule);
    activation_laws::lemma_present(w3, request, vm_id, managed, rule);
    let (w4, _) = activation::present_p(w3, request, vm_id, managed);
    journal::lemma_within_both(w, w3, w4, rule);
    activation_laws::lemma_attach_inputs(w4, request, vm_id, inputs, routing, rule);
    let (w5, _) = activation::attach_inputs_p(w4, request, vm_id, inputs, routing);
    journal::lemma_within_both(w, w4, w5, rule);
    let record = super::runtime::RuntimeRecordView {
        transitional: None,
        ..service::record_of(w5, seat)
    };
    let w6 = service::remember(w5, seat, record);
    journal::lemma_within_none(w5, w6, rule);
    request_laws::lemma_status(w6, seat, config, request.devices, rule);
    journal::lemma_within_both(w5, w6, after, rule);
    journal::lemma_within_both(w4, w5, after, rule);
    journal::lemma_within_both(w3, w4, after, rule);
    lemma_inputs_handed(w4, request, vm_id, inputs);
    if routing.keyboard == InputRoutingStrategy::VirtualBoxUsbPassthrough {
        lemma_handed_late(w, w4, w5, vm_id, inputs.keyboard);
        lemma_handed_early(w, w5, after, vm_id, inputs.keyboard);
    }
    if routing.mouse == InputRoutingStrategy::VirtualBoxUsbPassthrough {
        lemma_handed_late(w, w4, w5, vm_id, inputs.mouse);
        lemma_handed_early(w, w5, after, vm_id, inputs.mouse);
    }
    if model::lower(vm.state) != model::lower("running"@) {
        let put = Request::Execute(seq!["startvm"@, vm_id, "--type"@, "gui"@]);
        lemma_put_late(w, w2, w3, put);
        lemma_put_early(w, w3, after, put);
    }
    if managed {
        let put = Request::Execute(
            seq!["setextradata"@, vm_id, "GUI/MouseCapturePolicy"@, "Disabled"@],
        );
        lemma_put_late(w, w2, w3, put);
        lemma_put_early(w, w3, after, put);
        lemma_shown(w, w3, w4, after, request, vm_id);
    }
}

proof fn lemma_shown(w: Run, w3: Run, w4: Run, after: Run, request: StartRequest, vm_id: Text)
    requires
        activation::present_p(w3, request, vm_id, true).1 is Ok,
        w4 == activation::present_p(w3, request, vm_id, true).0,
        journal::within(w, w3, anything()),
        journal::within(w4, after, anything()),
    ensures
        has_put(w, after, Request::MouseRequest(vm_id, MouseIntegrationState::Disabled)),
        exists|target: ManagedVmWindowIdentityView|
            has_put(w, after, Request::FocusStart(target, request.anchor)) && forall|i: int|
                #[trigger] seats::is_first(request.config.seats, request.seat, i) ==> (
                request.config.seats[i].devices.display matches Some(display) ==> has_put(
                    w,
                    after,
                    Request::PresentationStart(target, display),
                )),
{
    let seat = request.seat;
    let mouse = Request::MouseRequest(vm_id, MouseIntegrationState::Disabled);
    lemma_presented(w3, request, vm_id);
    lemma_put_late(w, w3, w4, mouse);
    lemma_put_early(w, w4, after, mouse);
    let target = choose|target: ManagedVmWindowIdentityView|
        #![trigger activation_laws::told_identity(w4.oracle, w4.requests, vm_id, target)]
        activation_laws::told_identity(w4.oracle, w4.requests, vm_id, target) && has_put(
            w3,
            w4,
            Request::FocusStart(target, request.anchor),
        ) && match seat_rules::display_of(request.config, seat) {
            Some(display) => has_put(w3, w4, Request::PresentationStart(target, display)),
            None => true,
        };
    let focus = Request::FocusStart(target, request.anchor);
    lemma_put_late(w, w3, w4, focus);
    lemma_put_early(w, w4, after, focus);
    seat_rules::law_a_seats_devices_are_its_own(request.config, seat);
    if let Some(display) = seat_rules::display_of(request.config, seat) {
        let show = Request::PresentationStart(target, display);
        lemma_put_late(w, w3, w4, show);
        lemma_put_early(w, w4, after, show);
    }
    assert forall|i: int| #[trigger] seats::is_first(request.config.seats, seat, i) implies (
    request.config.seats[i].devices.display matches Some(display) ==> has_put(
        w,
        after,
        Request::PresentationStart(target, display),
    )) by {}
}

proof fn lemma_inputs_handed(
    w: Run,
    request: StartRequest,
    vm_id: Text,
    inputs: ActivationInputsView,
)
    requires
        activation::attach_inputs_p(
            w,
            request,
            vm_id,
            inputs,
            request.config.routing_of(request.seat),
        ).1 is Ok,
    ensures
        ({
            let routing = request.config.routing_of(request.seat);
            let after = activation::attach_inputs_p(w, request, vm_id, inputs, routing).0;
            &&& routing.keyboard == InputRoutingStrategy::VirtualBoxUsbPassthrough
                ==> was_handed_over(w, after, vm_id, inputs.keyboard)
            &&& routing.mouse == InputRoutingStrategy::VirtualBoxUsbPassthrough
                ==> was_handed_over(w, after, vm_id, inputs.mouse)
        }),
{
    let rule = anything();
    let routing = request.config.routing_of(request.seat);
    let after = activation::attach_inputs_p(w, request, vm_id, inputs, routing).0;
    let w1 = activation::attach_input_p(
        w,
        request,
        vm_id,
        InputKind::Keyboard,
        inputs.keyboard,
        routing.keyboard,
        inputs,
    ).0;
    activation_laws::lemma_attach_input(
        w,
        request,
        vm_id,
        InputKind::Keyboard,
        inputs.keyboard,
        routing.keyboard,
        inputs,
        rule,
    );
    activation_laws::lemma_attach_input(
        w1,
        request,
        vm_id,
        InputKind::Mouse,
        inputs.mouse,
        routing.mouse,
        inputs,
        rule,
    );
    if routing.keyboard == InputRoutingStrategy::VirtualBoxUsbPassthrough {
        lemma_attached(w, request, vm_id, InputKind::Keyboard, inputs.keyboard, inputs);
        lemma_handed_early(w, w1, after, vm_id, inputs.keyboard);
    }
    if routing.mouse == InputRoutingStrategy::VirtualBoxUsbPassthrough {
        lemma_attached(w1, request, vm_id, InputKind::Mouse, inputs.mouse, inputs);
        lemma_handed_late(w, w1, after, vm_id, inputs.mouse);
    }
}

} // verus!
