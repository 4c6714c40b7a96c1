//! What holds of locking and unlocking a seat, and of starts in the background.
use super::activation;
use super::activation_laws;
use super::isolation;
use super::isolation::Accepted;
use super::mouse_integration::{MouseIntegrationState, MouseIntegrationStatusView};
use super::request_laws;
use super::request_laws::Rule;
use super::runtime::{
    ManagedAttachmentView, ManagedSeatDisplayMode, UsbRuntimeHealth, VirtualMachineView,
};
use super::seat_rules;
use super::seat_rules::ActivationInputsView;
use super::service;
use super::service::{Reply, Request, Run, ServiceView};
use super::usb_attachment;
use crate::devices::PhysicalInputDeviceView;
use crate::journal;
use crate::journal::Oracle;
use crate::seats::ApplicationConfigView;
use crate::text::model;
use crate::text::model::Text;
use crate::text_map;
use crate::virtualization::SeatRuntimeStatus;
use vstd::prelude::*;

verus! {

/// Nobody locks, unlocks or restrains a machine that is not managed: it is asked nothing.
pub proof fn law_an_unmanaged_machine_is_left_alone(
    w: Run,
    seat: Text,
    config: ApplicationConfigView,
    devices: Seq<PhysicalInputDeviceView>,
    anchor: Option<isize>,
)
    requires
        !config.is_managed(seat),
    ensures
        isolation::unlock_p(w, seat, config, devices).0 == w,
        isolation::unlock_p(w, seat, config, devices).1 is Err,
        isolation::lock_p(w, seat, config, devices, anchor).0 == w,
        isolation::lock_p(w, seat, config, devices, anchor).1 is Err,
        isolation::ensure_capture_disabled_p(w, seat, config).0 == w,
        isolation::ensure_capture_disabled_p(w, seat, config).1 != Ok::<bool, Text>(true),
{
}

// ---- Locking and unlocking -------------------------------------------------------------

/// What a rule has to allow of locking and unlocking, but the requests that only ask.
pub open spec fn admits_switching(
    rule: Rule,
    oracle: Oracle<Reply>,
    seat: Text,
    config: ApplicationConfigView,
    anchor: Option<isize>,
) -> bool {
    &&& request_laws::admits_reading(rule)
    &&& (seat_rules::managed_machine(config, seat) matches Ok(vm_id) ==> {
        &&& activation_laws::admits_windows(rule, oracle, config, seat, vm_id, anchor)
        &&& forall|earlier: Seq<Request>| #[trigger]
            rule(earlier, Request::MouseRequest(vm_id, MouseIntegrationState::Enabled))
    })
    &&& forall|earlier: Seq<Request>| #[trigger] rule(earlier, Request::PresentationLock(false))
    &&& forall|earlier: Seq<Request>| #[trigger] rule(earlier, Request::FocusLock(false))
    &&& forall|vm_id: Text, policy: Text|
        seat_rules::managed_machine(config, seat) == Ok::<Text, Text>(vm_id) ==> #[trigger]
            request_laws::admits(rule, request_laws::policy_command(vm_id, policy))
}

proof fn lemma_unlock_windows(
    w: Run,
    seat: Text,
    config: ApplicationConfigView,
    devices: Seq<PhysicalInputDeviceView>,
    integration: MouseIntegrationStatusView,
    anchor: Option<isize>,
    rule: Rule,
)
    requires
        admits_switching(rule, w.oracle, seat, config, anchor),
    ensures
        ({
            let after = isolation::unlock_windows_p(w, seat, config, devices, integration).0;
            &&& request_laws::goes(w, after, rule)
            &&& service::record_of(after, seat).attached == service::record_of(w, seat).attached
        }),
{
    let after = isolation::unlock_windows_p(w, seat, config, devices, integration).0;
    request_laws::lemma_ask(w, Request::PresentationLock(false), rule);
    let (w1, shown) = journal::ask(w, Request::PresentationLock(false));
    if shown->Done_0 is Ok {
        request_laws::lemma_ask(w1, Request::FocusLock(false), rule);
        let (w2, focused) = journal::ask(w1, Request::FocusLock(false));
        request_laws::lemma_goes_both(w, w1, w2, rule);
        if focused->Done_0 is Ok {
            let mode = ManagedSeatDisplayMode::NormalVirtualBox;
            activation_laws::lemma_note_mode(w2, seat, mode, integration, rule);
            let w3 = isolation::note_mode(w2, seat, mode, integration);
            request_laws::lemma_goes_both(w, w2, w3, rule);
            let detail = "administrator temporarily allowed VirtualBox GUI host input"@;
            request_laws::lemma_log(
                w3,
                seat,
                "input-isolation"@,
                "temporarily-unlocked"@,
                None,
                None,
                detail,
                rule,
            );
            let w4 = service::log_p(
                w3,
                seat,
                "input-isolation"@,
                "temporarily-unlocked"@,
                None,
                None,
                detail,
            );
            request_laws::lemma_goes_both(w, w3, w4, rule);
            request_laws::lemma_status(w4, seat, config, devices, rule);
            request_laws::lemma_goes_both(w, w4, after, rule);
        }
    }
}

proof fn lemma_lock_windows(
    w: Run,
    seat: Text,
    config: ApplicationConfigView,
    devices: Seq<PhysicalInputDeviceView>,
    vm: VirtualMachineView,
    vm_id: Text,
    integration: MouseIntegrationStatusView,
    anchor: Option<isize>,
    rule: Rule,
)
    requires
        admits_switching(rule, w.oracle, seat, config, anchor),
        seat_rules::managed_machine(config, seat) == Ok::<Text, Text>(vm_id),
        activation_laws::told_identity(
            w.oracle,
            w.requests,
            vm_id,
            isolation::window_identity(vm),
        ),
    ensures
        ({
            let after = isolation::lock_windows_p(
                w,
                seat,
                config,
                devices,
                vm,
                integration,
                anchor,
            ).0;
            &&& request_laws::goes(w, after, rule)
            &&& service::record_of(after, seat).attached == service::record_of(w, seat).attached
        }),
{
    let after = isolation::lock_windows_p(w, seat, config, devices, vm, integration, anchor).0;
    activation_laws::lemma_start_presentation(w, seat, config, vm, vm_id, anchor, rule);
    let w1 = isolation::start_presentation_p(w, seat, config, vm);
    let focus = Request::FocusStart(isolation::window_identity(vm), anchor);
    let target = isolation::window_identity(vm);
    activation_laws::lemma_still_told(w, w1, vm_id, target, rule);
    request_laws::lemma_ask(w1, focus, rule);
    let (w2, focused) = journal::ask(w1, focus);
    request_laws::lemma_goes_both(w, w1, w2, rule);
    if focused->Done_0 is Ok {
        let mode = ManagedSeatDisplayMode::SeatDisplayLocked;
        activation_laws::lemma_note_mode(w2, seat, mode, integration, rule);
        let w3 = isolation::note_mode(w2, seat, mode, integration);
        request_laws::lemma_goes_both(w, w2, w3, rule);
        let detail = "VirtualBox GUI host input locked for managed seat"@;
        request_laws::lemma_log(
            w3,
            seat,
            "input-isolation"@,
            "locked"@,
            None,
            None,
            detail,
            rule,
        );
        let w4 = service::log_p(
            w3,
            seat,
            "input-isolation"@,
            "locked"@,
            None,
            None,
            detail,
        );
        request_laws::lemma_goes_both(w, w3, w4, rule);
        request_laws::lemma_status(w4, seat, config, devices, rule);
        request_laws::lemma_goes_both(w, w4, after, rule);
    }
}

pub proof fn lemma_unlock(
    w: Run,
    seat: Text,
    config: ApplicationConfigView,
    devices: Seq<PhysicalInputDeviceView>,
    anchor: Option<isize>,
    rule: Rule,
)
    requires
        admits_switching(rule, w.oracle, seat, config, anchor),
    ensures
        ({
            let after = isolation::unlock_p(w, seat, config, devices).0;
            &&& request_laws::goes(w, after, rule)
            &&& service::record_of(after, seat).attached == service::record_of(w, seat).attached
        }),
{
    let after = isolation::unlock_p(w, seat, config, devices).0;
    request_laws::lemma_goes_none(w, rule);
    if let Ok(vm_id) = seat_rules::managed_machine(config, seat) {
        request_laws::lemma_inspect(w, vm_id, rule);
        let (w1, answer) = service::inspect_vm_p(w, vm_id);
        if let Ok(vm) = answer {
            if seat_rules::running_or_error(vm) is Ok {
                assert(request_laws::admits(
                    rule,
                    request_laws::policy_command(vm_id, "Default"@),
                ));
                request_laws::lemma_set_policy(w1, vm_id, "Default"@, rule);
                let (w2, set) = service::set_capture_policy_p(w1, vm_id, "Default"@);
                request_laws::lemma_goes_both(w, w1, w2, rule);
                if set is Ok {
                    let mouse = Request::MouseRequest(vm_id, MouseIntegrationState::Enabled);
                    request_laws::lemma_ask(w2, mouse, rule);
                    let (w3, reply) = journal::ask(w2, mouse);
                    request_laws::lemma_goes_both(w, w2, w3, rule);
                    if let Ok(integration) = reply->Mouse_0 {
                        lemma_unlock_windows(w3, seat, config, devices, integration, anchor, rule);
                        request_laws::lemma_goes_both(w, w3, after, rule);
                    }
                }
            }
        }
    }
}

pub proof fn lemma_lock(
    w: Run,
    seat: Text,
    config: ApplicationConfigView,
    devices: Seq<PhysicalInputDeviceView>,
    anchor: Option<isize>,
    rule: Rule,
)
    requires
        admits_switching(rule, w.oracle, seat, config, anchor),
    ensures
        ({
            let after = isolation::lock_p(w, seat, config, devices, anchor).0;
            &&& request_laws::goes(w, after, rule)
            &&& service::record_of(after, seat).attached == service::record_of(w, seat).attached
        }),
{
    let after = isolation::lock_p(w, seat, config, devices, anchor).0;
    request_laws::lemma_goes_none(w, rule);
    if let Ok(vm_id) = seat_rules::managed_machine(config, seat) {
        request_laws::lemma_inspect(w, vm_id, rule);
        let (w1, answer) = service::inspect_vm_p(w, vm_id);
        activation_laws::lemma_told(w, vm_id);
        if let Ok(vm) = answer {
            let target = isolation::window_identity(vm);
            if seat_rules::running_or_error(vm) is Ok {
                assert(request_laws::admits(
                    rule,
                    request_laws::policy_command(vm_id, "Disabled"@),
                ));
                request_laws::lemma_set_policy(w1, vm_id, "Disabled"@, rule);
                let (w2, set) = service::set_capture_policy_p(w1, vm_id, "Disabled"@);
                request_laws::lemma_goes_both(w, w1, w2, rule);
                if set is Ok {
                    let mouse = Request::MouseRequest(vm_id, MouseIntegrationState::Disabled);
                    request_laws::lemma_ask(w2, mouse, rule);
                    let (w3, reply) = journal::ask(w2, mouse);
                    request_laws::lemma_goes_both(w, w2, w3, rule);
                    activation_laws::lemma_still_told(w1, w2, vm_id, target, rule);
                    activation_laws::lemma_still_told(w2, w3, vm_id, target, rule);
                    if let Ok(integration) = reply->Mouse_0 {
                        lemma_lock_windows(
                            w3,
                            seat,
                            config,
                            devices,
                            vm,
                            vm_id,
                            integration,
                            anchor,
                            rule,
                        );
                        request_laws::lemma_goes_both(w, w3, after, rule);
                    }
                }
            }
        }
    }
}

/// The rule of locking and unlocking: no machine is started, no device changes hands, and the
/// settings of no machine but the seat's managed one are changed.
pub open spec fn switches_only(seat: Text, config: ApplicationConfigView) -> Rule {
    |earlier: Seq<Request>, put: Request|
        !activation_laws::starts_machine(put) && !activation_laws::attaches(put)
            && !activation_laws::detaches(put) && (activation_laws::sets_policy(put)
            ==> seat_rules::managed_machine(config, seat) == Ok::<Text, Text>(
            put->Execute_0[1],
        ))
}

proof fn lemma_admits_switching_only(
    oracle: Oracle<Reply>,
    seat: Text,
    config: ApplicationConfigView,
    anchor: Option<isize>,
)
    ensures
        admits_switching(switches_only(seat, config), oracle, seat, config, anchor),
{
    activation_laws::lemma_words();
}

/// Opening a seat's window to the host and closing it again moves no device: none is handed
/// over, none is taken back, and the seat holds afterwards what it held before. The settings of
/// other machines are left alone.
pub proof fn law_unlocking_and_locking_move_no_device(
    w: Run,
    seat: Text,
    config: ApplicationConfigView,
    devices: Seq<PhysicalInputDeviceView>,
    anchor: Option<isize>,
)
    ensures
        ({
            let unlocked = isolation::unlock_p(w, seat, config, devices).0;
            let locked = isolation::lock_p(w, seat, config, devices, anchor).0;
            let attached = service::record_of(w, seat).attached;
            &&& journal::within(w, unlocked, switches_only(seat, config))
            &&& journal::within(w, locked, switches_only(seat, config))
            &&& service::record_of(unlocked, seat).attached == attached
            &&& service::record_of(locked, seat).attached == attached
        }),
{
    lemma_admits_switching_only(w.oracle, seat, config, anchor);
    lemma_unlock(w, seat, config, devices, anchor, switches_only(seat, config));
    lemma_lock(w, seat, config, devices, anchor, switches_only(seat, config));
}

// ---- Starts in the background ----------------------------------------------------------

/// Whether two states remember the same of a seat.
pub open spec fn same_seat(before: ServiceView, after: ServiceView, seat: Text) -> bool {
    &&& text_map::lookup(after.records, seat) == text_map::lookup(before.records, seat)
    &&& text_map::lookup(after.cancellations, seat) == text_map::lookup(
        before.cancellations,
        seat,
    )
    &&& after.starting.contains(seat) == before.starting.contains(seat)
}

/// A seat that is being started in the background cannot be started once more, until its start
/// is over. Trying to leaves everything as it was. Once it is over, a start has a new flag.
pub proof fn law_a_second_start_is_refused(w: Run, seat: Text, config: ApplicationConfigView)
    requires
        isolation::begin_start_p(w, seat, config).1 is Ok,
    ensures
        ({
            let begun = isolation::begin_start_p(w, seat, config).0;
            let over = isolation::finish_start_p(begun, seat);
            &&& isolation::begin_start_p(begun, seat, config).0 == begun
            &&& isolation::begin_start_p(begun, seat, config).1 == Err::<Accepted, Text>(
                "seat '"@ + seat + "' is already starting"@,
            )
            &&& isolation::begin_start_p(over, seat, config).1 is Ok
            &&& isolation::begin_start_p(over, seat, config).0.requests[over.requests.len() as int]
                == Request::NewFlag(false)
        }),
{
}

/// A start in the background that is accepted is reported as under way. The flag that comes with
/// it is a new one that is not raised, and is the one that cancelling the seat's start raises.
/// What is remembered of other seats stays.
pub proof fn law_an_accepted_start_has_its_flag(w: Run, seat: Text, config: ApplicationConfigView)
    ensures
        ({
            let (begun, result) = isolation::begin_start_p(w, seat, config);
            result matches Ok((flag, snapshot)) ==> {
                &&& begun.requests[w.requests.len() as int] == Request::NewFlag(false)
                &&& (w.oracle)(w.requests.len() as int)->NewFlag_0 == flag
                &&& text_map::lookup(begun.state.cancellations, seat) == Some(flag)
                &&& isolation::cancel_start_p(begun, seat) == journal::ask(
                    begun,
                    Request::Cancel(flag),
                ).0
                &&& begun.state.starting.contains(seat)
                &&& snapshot.status == SeatRuntimeStatus::Starting
                &&& snapshot.vm_state == Some("start-requested"@)
                &&& snapshot.startup_trace.len() == 2
                &&& snapshot.startup_trace[0].stage == "StartRequested"@
                &&& snapshot.startup_trace[1].stage == "StartCommandReturned"@
            }
        }),
        forall|other: Text|
            other != seat ==> #[trigger] same_seat(
                w.state,
                isolation::begin_start_p(w, seat, config).0.state,
                other,
            ),
        forall|other: Text|
            other != seat ==> #[trigger] same_seat(
                w.state,
                isolation::finish_start_p(w, seat).state,
                other,
            ),
{
}

/// A start in the background is accepted without running anything.
pub proof fn law_a_start_is_accepted_at_once(w: Run, seat: Text, config: ApplicationConfigView)
    ensures
        journal::within(
            w,
            isolation::begin_start_p(w, seat, config).0,
            |earlier: Seq<Request>, put: Request|
                put == Request::NewFlag(false) || put is Moment || put is Clock,
        ),
{
    let rule: Rule = |earlier: Seq<Request>, put: Request|
        put == Request::NewFlag(false) || put is Moment || put is Clock;
    let after = isolation::begin_start_p(w, seat, config).0;
    if w.state.starting.contains(seat) {
        journal::lemma_within_none(w, after, rule);
    } else {
        journal::lemma_within_ask(w, Request::NewFlag(false), rule);
        let first = journal::ask(w, Request::NewFlag(false)).0;
        journal::lemma_within_ask(first, Request::Moment, rule);
        let (second, started) = service::moment_p(first);
        journal::lemma_within_both(w, first, second, rule);
        journal::lemma_within_ask(second, Request::Clock(started), rule);
        let third = journal::ask(second, Request::Clock(started)).0;
        journal::lemma_within_both(w, second, third, rule);
        journal::lemma_within_ask(third, Request::Clock(started), rule);
        let fourth = journal::ask(third, Request::Clock(started)).0;
        journal::lemma_within_both(w, third, fourth, rule);
        assert(after.requests == fourth.requests);
        journal::lemma_within_none(fourth, after, rule);
        journal::lemma_within_both(w, fourth, after, rule);
    }
}

// ---- Rolling back ----------------------------------------------------------------------

/// Whether a device that was handed over can still be there.
pub open spec fn may_be_there(item: ManagedAttachmentView) -> bool {
    activation_laws::was_accepted(item) && item.diagnostic.health
        != UsbRuntimeHealth::DisappearedAfterAttach && item.diagnostic.health
        != UsbRuntimeHealth::PhysicalDeviceDisconnected
}

/// Whether some request took a device back, right after it was looked up.
pub open spec fn taken_back(
    before: Run,
    after: Run,
    vm_id: Text,
    devices: Seq<PhysicalInputDeviceView>,
    item: ManagedAttachmentView,
) -> bool {
    exists|k: int|
        before.requests.len() <= k < after.requests.len() && activation_laws::detaches(
            #[trigger] after.requests[k],
        ) && after.requests[k]->Execute_0[1] == vm_id && (seat_rules::physical(
            devices,
            item.physical_device_id,
            item.kind,
        ) matches Some(device) && activation_laws::looked_up(
            after.oracle,
            after.requests.take(k),
            device,
            after.requests[k]->Execute_0[3],
        ))
}

pub proof fn lemma_taken_back_stays(
    before: Run,
    middle: Run,
    after: Run,
    vm_id: Text,
    devices: Seq<PhysicalInputDeviceView>,
    item: ManagedAttachmentView,
    rule: Rule,
)
    requires
        taken_back(before, middle, vm_id, devices, item),
        journal::within(middle, after, rule),
    ensures
        taken_back(before, after, vm_id, devices, item),
{
    let k = choose|k: int|
        before.requests.len() <= k < middle.requests.len() && activation_laws::detaches(
            #[trigger] middle.requests[k],
        ) && middle.requests[k]->Execute_0[1] == vm_id && (seat_rules::physical(
            devices,
            item.physical_device_id,
            item.kind,
        ) matches Some(device) && activation_laws::looked_up(
            middle.oracle,
            middle.requests.take(k),
            device,
            middle.requests[k]->Execute_0[3],
        ));
    let end = middle.requests.len() as int;
    assert(after.requests.take(end)[k] == after.requests[k]);
    assert(after.requests.take(k) =~= middle.requests.take(k));
}

proof fn lemma_one_taken_back(
    w: Run,
    seat: Text,
    vm_id: Text,
    devices: Seq<PhysicalInputDeviceView>,
    item: ManagedAttachmentView,
    words: usb_attachment::Wording,
)
    requires
        may_be_there(item),
        usb_attachment::detach_one_p(w, seat, vm_id, devices, item, words).1 is None,
    ensures
        taken_back(
            w,
            usb_attachment::detach_one_p(w, seat, vm_id, devices, item, words).0,
            vm_id,
            devices,
            item,
        ),
{
    let rule: Rule = |earlier: Seq<Request>, put: Request| true;
    let after = usb_attachment::detach_one_p(w, seat, vm_id, devices, item, words).0;
    let device = seat_rules::physical(devices, item.physical_device_id, item.kind)->Some_0;
    activation_laws::lemma_resolve_single(w, device, rule);
    let (w1, answer) = usb_attachment::resolve_single_p(w, device);
    let found = answer->Ok_0;
    let k = w1.requests.len() as int;
    assert(after.requests[k] == Request::Execute(
        activation_laws::detach_command(vm_id, found.uuid),
    ));
    assert(after.requests.take(k) =~= w1.requests);
}

pub proof fn lemma_items_taken_back(
    w: Run,
    seat: Text,
    vm_id: Text,
    devices: Seq<PhysicalInputDeviceView>,
    items: Seq<ManagedAttachmentView>,
    count: int,
    words: usb_attachment::Wording,
    i: int,
)
    requires
        0 <= count <= items.len(),
        items.len() - count <= i < items.len(),
        may_be_there(items[i]),
        usb_attachment::detach_items_p(
            w,
            seat,
            vm_id,
            devices,
            items,
            count,
            words,
        ).1.len() == 0,
    ensures
        taken_back(
            w,
            usb_attachment::detach_items_p(w, seat, vm_id, devices, items, count, words).0,
            vm_id,
            devices,
            items[i],
        ),
    decreases count,
{
    let rule: Rule = |earlier: Seq<Request>, put: Request| true;
    let (w1, errors) = usb_attachment::detach_items_p(
        w,
        seat,
        vm_id,
        devices,
        items,
        count - 1,
        words,
    );
    let item = items[items.len() - count];
    let (w2, error) = usb_attachment::detach_one_p(w1, seat, vm_id, devices, item, words);
    activation_laws::lemma_detach_items(
        w,
        seat,
        vm_id,
        devices,
        items,
        count - 1,
        words,
        rule,
    );
    if i == items.len() - count {
        lemma_one_taken_back(w1, seat, vm_id, devices, item, words);
        let k = choose|k: int|
            w1.requests.len() <= k < w2.requests.len() && activation_laws::detaches(
                #[trigger] w2.requests[k],
            ) && w2.requests[k]->Execute_0[1] == vm_id && (seat_rules::physical(
                devices,
                item.physical_device_id,
                item.kind,
            ) matches Some(device) && activation_laws::looked_up(
                w2.oracle,
                w2.requests.take(k),
                device,
                w2.requests[k]->Execute_0[3],
            ));
        assert(activation_laws::detaches(w2.requests[k]));
    } else {
        lemma_items_taken_back(w, seat, vm_id, devices, items, count - 1, words, i);
        activation_laws::lemma_detach_one(w1, seat, vm_id, devices, item, words, rule);
        lemma_taken_back_stays(w, w1, w2, vm_id, devices, items[i], rule);
    }
}

/// Where handing a device over fails, every device that was handed over and can still be there
/// is taken back, or the failure says why it was not. Nothing is remembered as held.
pub proof fn law_a_failed_attachment_is_rolled_back(
    w: Run,
    seat: Text,
    vm_id: Text,
    inputs: ActivationInputsView,
    error: Text,
    i: int,
)
    requires
        0 <= i < service::record_of(w, seat).attached.len(),
        may_be_there(service::record_of(w, seat).attached[i]),
    ensures
        ({
            let (after, message) = activation::fail_attach_p(w, seat, vm_id, inputs, error);
            &&& service::record_of(after, seat).attached.len() == 0
            &&& service::record_of(after, seat).last_error == Some(message)
            &&& message == error ==> taken_back(
                w,
                after,
                vm_id,
                seq![inputs.keyboard, inputs.mouse],
                service::record_of(w, seat).attached[i],
            )
        }),
{
    let rule: Rule = |earlier: Seq<Request>, put: Request| true;
    let devices = seq![inputs.keyboard, inputs.mouse];
    let items = service::record_of(w, seat).attached;
    let words = usb_attachment::rollback_wording();
    let (after, message) = activation::fail_attach_p(w, seat, vm_id, inputs, error);
    let (w1, errors) = usb_attachment::detach_items_p(
        w,
        seat,
        vm_id,
        devices,
        items,
        items.len() as int,
        words,
    );
    if errors.len() > 0 {
        reveal_strlit("; rollback errors: ");
        assert(message.len() > error.len());
    } else {
        lemma_items_taken_back(
            w,
            seat,
            vm_id,
            devices,
            items,
            items.len() as int,
            words,
            i,
        );
        journal::lemma_within_none(w1, after, rule);
        lemma_taken_back_stays(w, w1, after, vm_id, devices, items[i], rule);
    }
}

/// A mouse-capture policy counts as set only once it has been read back: the command that sets it
/// is followed by one that asks for it, and that one was answered with the policy.
pub proof fn law_a_policy_is_read_back(w: Run, vm_id: Text, policy: Text)
    requires
        service::set_capture_policy_p(w, vm_id, policy).1 is Ok,
    ensures
        ({
            let asked = w.requests.len() as int + 1;
            &&& service::set_capture_policy_p(w, vm_id, policy).0.requests == w.requests.push(
                Request::Execute(request_laws::policy_command(vm_id, policy)),
            ).push(Request::Execute(seq!["getextradata"@, vm_id, "GUI/MouseCapturePolicy"@]))
            &&& (w.oracle)(asked)->Output_0 matches Ok(output) && output.success
                && model::is_ignoring_case(service::extra_data(output.stdout), policy)
        }),
{
}

} // verus!
