//! What stopping, releasing, locking and unlocking a seat bring about, said of the words of the
//! requests.
use super::activation;
use super::activation::StartRequest;
use super::activation_laws;
use super::focus_protection::ManagedVmWindowIdentityView;
use super::isolation;
use super::isolation_laws;
use super::mouse_integration::MouseIntegrationState;
use super::release_laws;
use super::request_laws;
use super::request_laws::Rule;
use super::runtime::{ManagedAttachmentView, ManagedSeatDisplayMode};
use super::seat_rules;
use super::seat_rules::ActivationInputsView;
use super::service;
use super::service::{Reply, Request, Run};
use super::start_outcomes;
use super::usb_attachment;
use crate::devices::PhysicalInputDeviceView;
use crate::journal;
use crate::journal::Oracle;
use crate::seats;
use crate::seats::ApplicationConfigView;
use crate::text::model;
use crate::text::model::Text;
use vstd::prelude::*;

verus! {

// ---- Which commands --------------------------------------------------------------------

/// Whether a seat has a machine with an identifier.
pub open spec fn is_machine_of(config: ApplicationConfigView, seat: Text, vm_id: Text) -> bool {
    config.machines.contains_key(seat) && config.machines[seat].vm_id == vm_id
}

/// Whether a command does one of the things that a start may do, to the seat's own machine: turn
/// the capturing of the host's mouse off, start it with a window, hand it a device or take one
/// back.
pub open spec fn is_start_command(
    config: ApplicationConfigView,
    seat: Text,
    words: Seq<Text>,
) -> bool {
    let own = config.machines[seat].vm_id;
    &&& config.machines.contains_key(seat)
    &&& {
        ||| words == seq!["setextradata"@, own, "GUI/MouseCapturePolicy"@, "Disabled"@]
            && config.machines[seat].managed_by_multiseat
        ||| words == seq!["startvm"@, own, "--type"@, "gui"@]
        ||| words.len() == 4 && words[0] == "controlvm"@ && words[1] == own && (words[2]
            == "usbattach"@ || words[2] == "usbdetach"@)
    }
}

/// A start runs no command but those that only ask and those that are needed for it, and touches
/// no machine but its seat's own.
pub proof fn law_a_start_touches_only_its_machine(w: Run, request: StartRequest)
    ensures
        journal::within(
            w,
            activation::start_p(w, request).0,
            |earlier: Seq<Request>, put: Request|
                put matches Request::Execute(words) ==> request_laws::reading_command(words)
                    || is_start_command(request.config, request.seat, words),
        ),
{
    let rule: Rule = |earlier: Seq<Request>, put: Request|
        put matches Request::Execute(words) ==> request_laws::reading_command(words)
            || is_start_command(request.config, request.seat, words);
    assert(activation_laws::admits_whole_start(rule, w, request)) by {
        if let (Ok(inputs), Ok(vm_id)) = (
            seat_rules::activation_inputs(request.seat, request.config, request.devices),
            seat_rules::vm_of(request.config, request.seat),
        ) {
            let managed = request.config.is_managed(request.seat);
            let policy = request_laws::policy_command(vm_id, "Disabled"@);
            assert(managed ==> request_laws::admits(rule, policy));
            assert(activation_laws::admits_windows(
                rule,
                w.oracle,
                request.config,
                request.seat,
                vm_id,
                request.anchor,
            ));
            lemma_admits_devices(rule, w.oracle, request, vm_id, inputs);
        }
    }
    activation_laws::lemma_start(w, request, rule);
}

proof fn lemma_admits_devices(
    rule: Rule,
    oracle: Oracle<Reply>,
    request: StartRequest,
    vm_id: Text,
    inputs: ActivationInputsView,
)
    requires
        is_machine_of(request.config, request.seat, vm_id),
        forall|earlier: Seq<Request>, words: Seq<Text>|
            is_start_command(request.config, request.seat, words) ==> #[trigger] rule(
                earlier,
                Request::Execute(words),
            ),
    ensures
        activation_laws::admits_inputs(
            rule,
            oracle,
            vm_id,
            inputs,
            request.config.routing_of(request.seat),
        ),
        activation_laws::admits_start(
            rule,
            oracle,
            request.config,
            vm_id,
            inputs,
            request.config.routing_of(request.seat),
        ),
{
    let config = request.config;
    assert forall|uuid: Text| is_start_command(
        config,
        request.seat,
        #[trigger] activation_laws::attach_command(vm_id, uuid),
    ) by {}
    assert forall|uuid: Text| is_start_command(
        config,
        request.seat,
        #[trigger] activation_laws::detach_command(vm_id, uuid),
    ) by {}
    assert(is_start_command(config, request.seat, activation_laws::start_command(vm_id)));
}

/// Whether a command does one of the things that a stop may do, to the seat's own machine: take
/// a device back, ask the guest to shut down, or press its power button.
pub open spec fn is_stop_command(
    config: ApplicationConfigView,
    seat: Text,
    words: Seq<Text>,
) -> bool {
    let own = config.machines[seat].vm_id;
    &&& config.machines.contains_key(seat)
    &&& words.len() >= 3
    &&& words[0] == "controlvm"@
    &&& words[1] == own
    &&& {
        ||| words.len() == 4 && words[2] == "usbdetach"@
        ||| words.len() == 3 && (words[2] == "shutdown"@ || words[2] == "acpipowerbutton"@)
    }
}

/// Whether a request is one of a stop: it only asks, or is one of a stop's commands, cancels the
/// seat's own start, ends the presentation and the protection of focus, or puts the mouse
/// integration of the seat's own machine back.
pub open spec fn is_of_stop(
    w: Run,
    seat: Text,
    config: ApplicationConfigView,
    put: Request,
) -> bool {
    match put {
        Request::Execute(words) => request_laws::reading_command(words) || is_stop_command(
            config,
            seat,
            words,
        ),
        Request::Cancel(flag) => w.state.cancellations.contains_key(seat)
            && w.state.cancellations[seat] == flag,
        Request::MouseRestore(vm_id) => is_machine_of(config, seat, vm_id),
        Request::PresentationStop | Request::FocusStop => true,
        _ => request_laws::reading(put),
    }
}

/// A stop is gentle: it never switches a machine off, touches no machine but its seat's own, and
/// cancels no start but its seat's.
pub proof fn law_a_stop_is_gentle(
    w: Run,
    seat: Text,
    config: ApplicationConfigView,
    devices: Seq<PhysicalInputDeviceView>,
)
    ensures
        journal::within(
            w,
            activation::stop_p(w, seat, config, devices).0,
            |earlier: Seq<Request>, put: Request| is_of_stop(w, seat, config, put),
        ),
{
    let rule: Rule = |earlier: Seq<Request>, put: Request| is_of_stop(w, seat, config, put);
    assert(release_laws::admits_stop(rule, w, seat, config, devices)) by {
        if let Ok(vm_id) = seat_rules::vm_of(config, seat) {
            assert(is_stop_command(config, seat, release_laws::shutdown_command(vm_id)));
            assert(is_stop_command(config, seat, release_laws::power_button_command(vm_id)));
            assert forall|uuid: Text| is_stop_command(
                config,
                seat,
                #[trigger] activation_laws::detach_command(vm_id, uuid),
            ) by {}
        }
    }
    release_laws::lemma_stop(w, seat, config, devices, rule);
}

/// A release runs no command but those that only ask and those that take a device back from the
/// seat's own machine.
pub proof fn law_a_release_touches_only_its_machine(
    w: Run,
    seat: Text,
    config: ApplicationConfigView,
    devices: Seq<PhysicalInputDeviceView>,
)
    ensures
        journal::within(
            w,
            activation::release_p(w, seat, config, devices).0,
            |earlier: Seq<Request>, put: Request|
                request_laws::reading(put) || (put matches Request::Execute(words) && words.len()
                    == 4 && words[0] == "controlvm"@ && is_machine_of(config, seat, words[1])
                    && words[2] == "usbdetach"@),
        ),
{
    let rule: Rule = |earlier: Seq<Request>, put: Request|
        request_laws::reading(put) || (put matches Request::Execute(words) && words.len() == 4
            && words[0] == "controlvm"@ && is_machine_of(config, seat, words[1]) && words[2]
            == "usbdetach"@);
    release_laws::lemma_release(w, seat, config, devices, rule);
}

// ---- A stop that succeeds --------------------------------------------------------------

/// Where a stop succeeds, what it is for has been done: the presentation and the protection of
/// focus have ended, a start under way was cancelled, the mouse integration of the seat's
/// machine was put back, and every device that the seat held and that can still be there was
/// taken back from that machine. Where the machine was then found running, its guest was asked
/// to shut down.
pub proof fn law_a_stop_does_what_it_is_for(
    w: Run,
    seat: Text,
    config: ApplicationConfigView,
    devices: Seq<PhysicalInputDeviceView>,
)
    requires
        activation::stop_p(w, seat, config, devices).1 is Ok,
    ensures
        ({
            let after = activation::stop_p(w, seat, config, devices).0;
            let own = config.machines[seat].vm_id;
            let held = service::record_of(w, seat).attached;
            &&& config.machines.contains_key(seat)
            &&& w.state.cancellations.contains_key(seat) ==> start_outcomes::has_put(
                w,
                after,
                Request::Cancel(w.state.cancellations[seat]),
            )
            &&& start_outcomes::has_put(w, after, Request::PresentationStop)
            &&& start_outcomes::has_put(w, after, Request::FocusStop)
            &&& start_outcomes::has_put(w, after, Request::MouseRestore(own))
            &&& forall|i: int|
                0 <= i < held.len() && isolation_laws::may_be_there(#[trigger] held[i])
                    ==> isolation_laws::taken_back(w, after, own, devices, held[i])
            &&& start_outcomes::has_put(
                w,
                after,
                Request::Execute(seq!["controlvm"@, own, "shutdown"@]),
            ) || found_at_rest(w, after, own)
        }),
{
    let rule = start_outcomes::anything();
    let after = activation::stop_p(w, seat, config, devices).0;
    let own = config.machines[seat].vm_id;
    let cancelled = isolation::cancel_start_p(w, seat);
    journal::lemma_within_none(w, w, rule);
    if w.state.cancellations.contains_key(seat) {
        let flag = w.state.cancellations[seat];
        start_outcomes::lemma_put_now(w, Request::Cancel(flag));
        journal::lemma_within_ask(w, Request::Cancel(flag), rule);
    }
    start_outcomes::lemma_put_now(cancelled, Request::PresentationStop);
    journal::lemma_within_ask(cancelled, Request::PresentationStop, rule);
    let (a, _) = journal::ask(cancelled, Request::PresentationStop);
    start_outcomes::lemma_put_now(a, Request::FocusStop);
    journal::lemma_within_ask(a, Request::FocusStop, rule);
    let (b, _) = journal::ask(a, Request::FocusStop);
    start_outcomes::lemma_put_now(b, Request::MouseRestore(own));
    journal::lemma_within_ask(b, Request::MouseRestore(own), rule);
    let (c, reply) = journal::ask(b, Request::MouseRestore(own));
    let integration = reply->Mouse_0->Ok_0;
    let d = activation::note_stopping(c, seat, integration);
    journal::lemma_within_none(c, d, rule);
    release_laws::lemma_detach_managed(d, seat, own, devices, rule);
    let (e, _) = usb_attachment::detach_managed_p(d, seat, own, devices);
    release_laws::lemma_shut_machine(e, seat, config, devices, own, rule);
    journal::lemma_within_both(w, cancelled, a, rule);
    journal::lemma_within_both(w, a, b, rule);
    journal::lemma_within_both(w, b, c, rule);
    journal::lemma_within_both(w, c, d, rule);
    journal::lemma_within_both(w, d, e, rule);
    journal::lemma_within_both(d, e, after, rule);
    journal::lemma_within_both(c, d, after, rule);
    journal::lemma_within_both(b, c, after, rule);
    journal::lemma_within_both(a, b, after, rule);
    journal::lemma_within_both(cancelled, a, after, rule);
    if w.state.cancellations.contains_key(seat) {
        let put = Request::Cancel(w.state.cancellations[seat]);
        start_outcomes::lemma_put_early(w, cancelled, after, put);
    }
    start_outcomes::lemma_put_late(w, cancelled, a, Request::PresentationStop);
    start_outcomes::lemma_put_early(w, a, after, Request::PresentationStop);
    start_outcomes::lemma_put_late(w, a, b, Request::FocusStop);
    start_outcomes::lemma_put_early(w, b, after, Request::FocusStop);
    start_outcomes::lemma_put_late(w, b, c, Request::MouseRestore(own));
    start_outcomes::lemma_put_early(w, c, after, Request::MouseRestore(own));
    lemma_all_taken_back(w, d, e, after, seat, own, devices);
    lemma_shut(w, e, after, seat, config, devices, own);
}

/// Whether a description of a machine said that it does not run.
pub open spec fn found_at_rest(before: Run, after: Run, vm_id: Text) -> bool {
    exists|k: int|
        before.requests.len() <= k < after.requests.len() && #[trigger] after.requests[k]
            == Request::Execute(seq!["showvminfo"@, vm_id, "--machinereadable"@]) && ((
        after.oracle)(k)->Output_0 matches Ok(output) && output.success && {
            let fields = super::machine_info::machine_fields(output.stdout);
            let state = if fields.contains_key("VMState"@) {
                fields["VMState"@]
            } else {
                "unknown"@
            };
            model::lower(state) != model::lower("running"@)
        })
}

proof fn lemma_all_taken_back(
    w: Run,
    d: Run,
    e: Run,
    after: Run,
    seat: Text,
    own: Text,
    devices: Seq<PhysicalInputDeviceView>,
)
    requires
        journal::within(w, d, start_outcomes::anything()),
        journal::within(e, after, start_outcomes::anything()),
        service::record_of(d, seat).attached == service::record_of(w, seat).attached,
        e == usb_attachment::detach_managed_p(d, seat, own, devices).0,
        usb_attachment::detach_managed_p(d, seat, own, devices).1 is Ok,
    ensures
        ({
            let held = service::record_of(w, seat).attached;
            forall|i: int|
                0 <= i < held.len() && isolation_laws::may_be_there(#[trigger] held[i])
                    ==> isolation_laws::taken_back(w, after, own, devices, held[i])
        }),
{
    let rule = start_outcomes::anything();
    let held = service::record_of(w, seat).attached;
    let words = usb_attachment::detach_wording();
    let count = held.len() as int;
    let (e0, errors) = usb_attachment::detach_items_p(d, seat, own, devices, held, count, words);
    journal::lemma_within_none(e0, e, rule);
    journal::lemma_within_both(e0, e, after, rule);
    assert forall|i: int|
        0 <= i < held.len() && isolation_laws::may_be_there(#[trigger] held[i]) implies
        isolation_laws::taken_back(w, after, own, devices, held[i]) by {
        isolation_laws::lemma_items_taken_back(d, seat, own, devices, held, count, words, i);
        isolation_laws::lemma_taken_back_stays(d, e0, after, own, devices, held[i], rule);
        lemma_taken_back_since(w, d, after, own, devices, held[i]);
    }
}

proof fn lemma_taken_back_since(
    w: Run,
    d: Run,
    after: Run,
    own: Text,
    devices: Seq<PhysicalInputDeviceView>,
    item: ManagedAttachmentView,
)
    requires
        w.requests.len() <= d.requests.len(),
        isolation_laws::taken_back(d, after, own, devices, item),
    ensures
        isolation_laws::taken_back(w, after, own, devices, item),
{
    let k = choose|k: int|
        d.requests.len() <= k < after.requests.len() && activation_laws::detaches(
            #[trigger] after.requests[k],
        ) && after.requests[k]->Execute_0[1] == own && (seat_rules::physical(
            devices,
            item.physical_device_id,
            item.kind,
        ) matches Some(device) && activation_laws::looked_up(
            after.oracle,
            after.requests.take(k),
            device,
            after.requests[k]->Execute_0[3],
        ));
    assert(activation_laws::detaches(after.requests[k]));
}

proof fn lemma_shut(
    w: Run,
    e: Run,
    after: Run,
    seat: Text,
    config: ApplicationConfigView,
    devices: Seq<PhysicalInputDeviceView>,
    own: Text,
)
    requires
        journal::within(w, e, start_outcomes::anything()),
        after == activation::shut_machine_p(e, seat, config, devices, own).0,
        journal::within(e, after, start_outcomes::anything()),
        activation::shut_machine_p(e, seat, config, devices, own).1 is Ok,
    ensures
        start_outcomes::has_put(
            w,
            after,
            Request::Execute(seq!["controlvm"@, own, "shutdown"@]),
        ) || found_at_rest(w, after, own),
{
    let rule = start_outcomes::anything();
    let (f, answer) = service::inspect_vm_p(e, own);
    let vm = answer->Ok_0;
    let k = e.requests.len() as int;
    let look = Request::Execute(seq!["showvminfo"@, own, "--machinereadable"@]);
    assert(f.requests == e.requests.push(look));
    journal::lemma_within_ask(e, look, rule);
    if super::machine_info::is_running(vm) {
        let command = seq!["controlvm"@, own, "shutdown"@];
        let put = Request::Execute(command);
        start_outcomes::lemma_put_now(f, put);
        let (g, asked) = service::checked_p(f, command);
        let off = activation::power_off_p(f, seat, own).0;
        lemma_power_off_rest(f, g, off, seat, own);
        start_outcomes::lemma_put_early(f, g, off, put);
        let rest = activation::note_stopped(off, seat);
        journal::lemma_within_none(off, rest, rule);
        request_laws::lemma_status(rest, seat, config, devices, rule);
        journal::lemma_within_both(off, rest, after, rule);
        start_outcomes::lemma_put_early(f, off, after, put);
        journal::lemma_within_both(w, e, f, rule);
        start_outcomes::lemma_put_late(w, f, after, put);
    } else {
        let rest = activation::note_stopped(f, seat);
        journal::lemma_within_none(f, rest, rule);
        request_laws::lemma_status(rest, seat, config, devices, rule);
        journal::lemma_within_both(f, rest, after, rule);
        assert(after.requests.take(f.requests.len() as int)[k] == after.requests[k]);
        assert(after.requests[k] == look);
    }
}

/// What follows the request to shut down.
proof fn lemma_power_off_rest(f: Run, g: Run, off: Run, seat: Text, own: Text)
    requires
        g == service::checked_p(f, seq!["controlvm"@, own, "shutdown"@]).0,
        off == activation::power_off_p(f, seat, own).0,
    ensures
        journal::within(g, off, start_outcomes::anything()),
{
    let rule = start_outcomes::anything();
    let (_, asked) = service::checked_p(f, seq!["controlvm"@, own, "shutdown"@]);
    match asked {
        Ok(_) => {
            let h = service::log_p(
                g,
                seat,
                "vm-stop"@,
                "requested"@,
                None,
                None,
                "graceful Guest Additions shutdown requested"@,
            );
            journal::lemma_within_none(g, h, rule);
            request_laws::lemma_wait_for_state(h, own, "poweroff"@, 30, None, rule);
            journal::lemma_within_both(g, h, off, rule);
        },
        Err(error) => {
            let h = service::log_p(
                g,
                seat,
                "vm-stop"@,
                "fallback"@,
                None,
                None,
                "Guest shutdown unavailable: "@ + error,
            );
            journal::lemma_within_none(g, h, rule);
            let button = seq!["controlvm"@, own, "acpipowerbutton"@];
            request_laws::lemma_checked(h, button, rule);
            let (i, pressed) = service::checked_p(h, button);
            journal::lemma_within_both(g, h, i, rule);
            if pressed is Ok {
                let j = service::log_p(
                    i,
                    seat,
                    "vm-stop"@,
                    "requested"@,
                    None,
                    None,
                    "ACPI power button requested"@,
                );
                journal::lemma_within_none(i, j, rule);
                request_laws::lemma_wait_for_state(j, own, "poweroff"@, 30, None, rule);
                journal::lemma_within_both(i, j, off, rule);
                journal::lemma_within_both(g, i, off, rule);
            }
        },
    }
}

/// The power button of a machine is pressed only where its guest could not be asked to shut
/// down: right after that was tried, and failed.
pub proof fn law_the_power_button_is_a_last_resort(w: Run, seat: Text, vm_id: Text)
    ensures
        ({
            let after = activation::power_off_p(w, seat, vm_id).0;
            let first = w.requests.len() as int;
            &&& after.requests.len() > first
            &&& after.requests[first] == Request::Execute(seq!["controlvm"@, vm_id, "shutdown"@])
            &&& service::checked_p(w, seq!["controlvm"@, vm_id, "shutdown"@]).1 is Err ==> {
                &&& after.requests.len() > first + 1
                &&& after.requests[first + 1] == Request::Execute(
                    seq!["controlvm"@, vm_id, "acpipowerbutton"@],
                )
            }
            &&& service::checked_p(w, seq!["controlvm"@, vm_id, "shutdown"@]).1 is Ok
                ==> !start_outcomes::has_put(
                w,
                after,
                Request::Execute(seq!["controlvm"@, vm_id, "acpipowerbutton"@]),
            )
        }),
{
    let rule = start_outcomes::anything();
    let after = activation::power_off_p(w, seat, vm_id).0;
    let first = w.requests.len() as int;
    let ask = seq!["controlvm"@, vm_id, "shutdown"@];
    let button = seq!["controlvm"@, vm_id, "acpipowerbutton"@];
    let (g, asked) = service::checked_p(w, ask);
    lemma_power_off_rest(w, g, after, seat, vm_id);
    assert(g.requests[first] == Request::Execute(ask));
    assert(after.requests.take(g.requests.len() as int)[first] == after.requests[first]);
    match asked {
        Err(error) => {
            let h = service::log_p(
                g,
                seat,
                "vm-stop"@,
                "fallback"@,
                None,
                None,
                "Guest shutdown unavailable: "@ + error,
            );
            let (i, pressed) = service::checked_p(h, button);
            assert(i.requests[first + 1] == Request::Execute(button));
            if pressed is Ok {
                let j = service::log_p(
                    i,
                    seat,
                    "vm-stop"@,
                    "requested"@,
                    None,
                    None,
                    "ACPI power button requested"@,
                );
                request_laws::lemma_wait_for_state(j, vm_id, "poweroff"@, 30, None, rule);
                assert(after.requests.take(j.requests.len() as int)[first + 1]
                    == after.requests[first + 1]);
            }
        },
        Ok(_) => {
            let h = service::log_p(
                g,
                seat,
                "vm-stop"@,
                "requested"@,
                None,
                None,
                "graceful Guest Additions shutdown requested"@,
            );
            let asks: Rule = |earlier: Seq<Request>, put: Request| request_laws::reading(put);
            request_laws::lemma_wait_for_state(h, vm_id, "poweroff"@, 30, None, asks);
            lemma_button_words(vm_id);
            assert forall|k: int| first <= k < after.requests.len() implies #[trigger] after.requests[k]
                != Request::Execute(button) by {
                if k > first {
                    assert(request_laws::reading(after.requests[k]));
                }
            }
        },
    }
}

proof fn lemma_button_words(vm_id: Text)
    ensures
        seq!["controlvm"@, vm_id, "shutdown"@] != seq!["controlvm"@, vm_id, "acpipowerbutton"@],
        !request_laws::reading(Request::Execute(seq!["controlvm"@, vm_id, "acpipowerbutton"@])),
{
    activation_laws::lemma_words();
    reveal_strlit("shutdown");
    reveal_strlit("acpipowerbutton");
    assert("shutdown"@.len() == 8 && "acpipowerbutton"@.len() == 15);
    assert(seq!["controlvm"@, vm_id, "shutdown"@][2] == "shutdown"@);
    assert(seq!["controlvm"@, vm_id, "acpipowerbutton"@][2] == "acpipowerbutton"@);
}

// ---- Locking and unlocking -------------------------------------------------------------

/// Where unlocking a seat succeeds, the requests that it is for were put, in order and before
/// any other: its own machine was looked at, was let capture the host's mouse, got its mouse
/// integration back, and its window was freed, by the presentation and by the protection of
/// focus. The seat is remembered as open.
pub proof fn law_unlocking_opens_the_window(
    w: Run,
    seat: Text,
    config: ApplicationConfigView,
    devices: Seq<PhysicalInputDeviceView>,
)
    requires
        isolation::unlock_p(w, seat, config, devices).1 is Ok,
    ensures
        ({
            let after = isolation::unlock_p(w, seat, config, devices).0;
            let own = config.machines[seat].vm_id;
            let put = after.requests.skip(w.requests.len() as int);
            &&& config.machines.contains_key(seat) && config.machines[seat].managed_by_multiseat
            &&& put.len() >= 6
            &&& put[0] == Request::Execute(seq!["showvminfo"@, own, "--machinereadable"@])
            &&& put[1] == Request::Execute(
                seq!["setextradata"@, own, "GUI/MouseCapturePolicy"@, "Default"@],
            )
            &&& put[2] == Request::Execute(seq!["getextradata"@, own, "GUI/MouseCapturePolicy"@])
            &&& put[3] == Request::MouseRequest(own, MouseIntegrationState::Enabled)
            &&& put[4] == Request::PresentationLock(false)
            &&& put[5] == Request::FocusLock(false)
            &&& service::record_of(after, seat).display_mode
                == ManagedSeatDisplayMode::NormalVirtualBox
        }),
{
    let rule = start_outcomes::anything();
    let after = isolation::unlock_p(w, seat, config, devices).0;
    let own = config.machines[seat].vm_id;
    let n = w.requests.len() as int;
    let (w1, _) = service::inspect_vm_p(w, own);
    let (w2, _) = service::set_capture_policy_p(w1, own, "Default"@);
    let (w3, reply) = journal::ask(
        w2,
        Request::MouseRequest(own, MouseIntegrationState::Enabled),
    );
    let integration = reply->Mouse_0->Ok_0;
    let (w4, _) = journal::ask(w3, Request::PresentationLock(false));
    let (w5, _) = journal::ask(w4, Request::FocusLock(false));
    assert(w5.requests.len() == n + 6);
    let mode = ManagedSeatDisplayMode::NormalVirtualBox;
    let w6 = service::log_p(
        isolation::note_mode(w5, seat, mode, integration),
        seat,
        "input-isolation"@,
        "temporarily-unlocked"@,
        None,
        None,
        "administrator temporarily allowed VirtualBox GUI host input"@,
    );
    assert(w6.requests == w5.requests);
    request_laws::lemma_status(w6, seat, config, devices, rule);
    let put = after.requests.skip(n);
    assert forall|k: int| 0 <= k < 6 implies #[trigger] put[k] == w5.requests[n + k] by {
        assert(after.requests.take(n + 6)[n + k] == after.requests[n + k]);
    }
    assert(put[0] == w5.requests[n + 0]);
    assert(put[1] == w5.requests[n + 1]);
    assert(put[2] == w5.requests[n + 2]);
    assert(put[3] == w5.requests[n + 3]);
    assert(put[4] == w5.requests[n + 4]);
    assert(put[5] == w5.requests[n + 5]);
}

/// Where locking a seat succeeds, the requests that it is for were put: its own machine was
/// looked at, was kept from capturing the host's mouse, had its mouse integration turned off, its
/// window was shown on the display that is set for the seat, where one is, and guarded for the
/// caller's own window. The seat is remembered as locked.
pub proof fn law_locking_closes_the_window(
    w: Run,
    seat: Text,
    config: ApplicationConfigView,
    devices: Seq<PhysicalInputDeviceView>,
    anchor: Option<isize>,
)
    requires
        isolation::lock_p(w, seat, config, devices, anchor).1 is Ok,
    ensures
        ({
            let after = isolation::lock_p(w, seat, config, devices, anchor).0;
            let own = config.machines[seat].vm_id;
            let put = after.requests.skip(w.requests.len() as int);
            &&& config.machines.contains_key(seat) && config.machines[seat].managed_by_multiseat
            &&& put.len() >= 6
            &&& put[0] == Request::Execute(seq!["showvminfo"@, own, "--machinereadable"@])
            &&& put[1] == Request::Execute(
                seq!["setextradata"@, own, "GUI/MouseCapturePolicy"@, "Disabled"@],
            )
            &&& put[2] == Request::Execute(seq!["getextradata"@, own, "GUI/MouseCapturePolicy"@])
            &&& put[3] == Request::MouseRequest(own, MouseIntegrationState::Disabled)
            &&& exists|target: ManagedVmWindowIdentityView|
                start_outcomes::has_put(w, after, Request::FocusStart(target, anchor)) && forall|
                    i: int,
                |
                    #[trigger] seats::is_first(config.seats, seat, i) ==> (
                    config.seats[i].devices.display matches Some(display) ==> put[4]
                        == Request::PresentationStart(target, display))
            &&& service::record_of(after, seat).display_mode
                == ManagedSeatDisplayMode::SeatDisplayLocked
        }),
{
    let rule = start_outcomes::anything();
    let after = isolation::lock_p(w, seat, config, devices, anchor).0;
    let own = config.machines[seat].vm_id;
    let n = w.requests.len() as int;
    seat_rules::law_a_seats_devices_are_its_own(config, seat);
    let (w1, found) = service::inspect_vm_p(w, own);
    let vm = found->Ok_0;
    let target = isolation::window_identity(vm);
    let (w2, _) = service::set_capture_policy_p(w1, own, "Disabled"@);
    let (w3, reply) = journal::ask(
        w2,
        Request::MouseRequest(own, MouseIntegrationState::Disabled),
    );
    let integration = reply->Mouse_0->Ok_0;
    let w4 = isolation::start_presentation_p(w3, seat, config, vm);
    assert(w3.requests.len() == n + 4);
    assert(w4.requests.len() >= n + 5);
    assert(w4.requests.take(n + 4) =~= w3.requests);
    let focus = Request::FocusStart(target, anchor);
    let (w5, _) = journal::ask(w4, focus);
    let mode = ManagedSeatDisplayMode::SeatDisplayLocked;
    let w6 = service::log_p(
        isolation::note_mode(w5, seat, mode, integration),
        seat,
        "input-isolation"@,
        "locked"@,
        None,
        None,
        "VirtualBox GUI host input locked for managed seat"@,
    );
    assert(w6.requests == w5.requests);
    request_laws::lemma_status(w6, seat, config, devices, rule);
    let put = after.requests.skip(n);
    let end = w5.requests.len() as int;
    assert forall|k: int| 0 <= k < end - n implies #[trigger] put[k] == w5.requests[n + k] by {
        assert(after.requests.take(end)[n + k] == after.requests[n + k]);
    }
    assert(w3.requests[n + 0] == w5.requests[n + 0]) by {
        assert(w4.requests.take(n + 4)[n + 0] == w4.requests[n + 0]);
    }
    assert(w3.requests[n + 1] == w5.requests[n + 1]) by {
        assert(w4.requests.take(n + 4)[n + 1] == w4.requests[n + 1]);
    }
    assert(w3.requests[n + 2] == w5.requests[n + 2]) by {
        assert(w4.requests.take(n + 4)[n + 2] == w4.requests[n + 2]);
    }
    assert(w3.requests[n + 3] == w5.requests[n + 3]) by {
        assert(w4.requests.take(n + 4)[n + 3] == w4.requests[n + 3]);
    }
    assert(put[0] == w5.requests[n + 0]);
    assert(put[1] == w5.requests[n + 1]);
    assert(put[2] == w5.requests[n + 2]);
    assert(put[3] == w5.requests[n + 3]);
    assert(put[4] == w5.requests[n + 4]);
    assert(after.requests[end - 1] == focus) by {
        assert(after.requests.take(end)[end - 1] == after.requests[end - 1]);
    }
    assert(start_outcomes::has_put(w, after, focus));
    assert forall|i: int| #[trigger] seats::is_first(config.seats, seat, i) implies (
    config.seats[i].devices.display matches Some(display) ==> put[4]
        == Request::PresentationStart(target, display)) by {}
}

} // verus!
