//! What the steps of starting and stopping a seat leave behind, said of what was asked and
//! answered.
use super::activation;
use super::activation::StartRequest;
use super::executor::Answer;
use super::isolation;
use super::mouse_integration;
use super::mouse_integration::{
    MouseIntegrationControl, MouseIntegrationState, MouseIntegrationStatusView, SimulatedMice,
};
use super::presentation;
use super::presentation::{
    DisplayPresentationStatusView, PresentationMode, PresentationState, WindowDescriptorView,
};
use super::record_laws;
use super::runtime;
use super::runtime::{
    EvidencePresence, InputKind, ManagedAttachmentView, ManagedSeatDisplayMode, ResolvedUsbView,
    RuntimeRecordView, UsbAttachCommandStatus, UsbObservationView, UsbRuntimeHealth,
    VirtualMachineView,
};
use super::seat_rules;
use super::seat_rules::ActivationInputsView;
use super::service;
use super::service::{Request, Run};
use super::usb_attachment;
use super::usb_attachment::Wording;
use crate::devices::PhysicalInputDeviceView;
use crate::seats::{ApplicationConfigView, InputRoutingRuntimeStatus};
use crate::sequences;
use crate::text::model;
use crate::text::model::Text;
use crate::virtualization::usb;
use crate::virtualization::usb::{UsbCorrelationState, VirtualBoxStatusView};
use crate::virtualization::SeatRuntimeStatus;
use std::time::Instant;
use vstd::prelude::*;

verus! {

// ---- Starting --------------------------------------------------------------------------

/// A seat that nothing was done for has nothing: no machine that was started for it, no device, no
/// note and no error.
pub proof fn law_a_new_seat_has_nothing()
    ensures
        ({
            let record = runtime::no_record();
            &&& !record.vm_started_by_multiseat
            &&& record.attached.len() == 0
            &&& record.logs.len() == 0
            &&& record.startup_trace.len() == 0
            &&& record.last_error is None
            &&& record.transitional is None
            &&& record.startup_started is None
            &&& record.display_mode == ManagedSeatDisplayMode::NormalVirtualBox
            &&& record.keyboard_routing_status == InputRoutingRuntimeStatus::PrototypeInactive
            &&& record.mouse_integration.observed == MouseIntegrationState::Unknown
            &&& !record.mouse_integration.owned_by_multiseat
        }),
{
}

/// A start begins with nothing attached, no note and no error, and the seat is starting. Whether
/// its machine was started for it before is not forgotten.
pub proof fn law_a_start_begins_clean(record: RuntimeRecordView, started: Instant)
    ensures
        ({
            let begun = activation::begun(record, started);
            &&& begun.transitional == Some(SeatRuntimeStatus::Starting)
            &&& begun.last_error is None
            &&& begun.attached.len() == 0
            &&& begun.logs.len() == 0
            &&& begun.keyboard_routing_status == InputRoutingRuntimeStatus::PrototypeInactive
            &&& begun.startup_started == Some(started)
            &&& record.startup_started is Some ==> begun.startup_trace == record.startup_trace
            &&& record.startup_started is None ==> begun.startup_trace.len() == 0
            &&& begun.vm_started_by_multiseat == record.vm_started_by_multiseat
            &&& begun.display_mode == record.display_mode
            &&& begun.mouse_integration == record.mouse_integration
        }),
{
}

/// A machine that runs is not started, and who started it stays as it was remembered. A machine
/// that does not is started by one command, and exactly where that succeeds it is remembered as
/// started here.
pub proof fn law_who_started_a_machine_is_remembered(
    w: Run,
    seat: Text,
    vm_id: Text,
    running: bool,
)
    ensures
        ({
            let n = w.requests.len() as int;
            let (after, result) = activation::power_on_p(w, seat, vm_id, running);
            let before = service::record_of(w, seat);
            let record = service::record_of(after, seat);
            let answer: Answer = (w.oracle)(n + 1)->Output_0;
            &&& running ==> result is Ok && record_laws::changes_only(w, after, seat)
                && record.vm_started_by_multiseat == before.vm_started_by_multiseat
            &&& !running ==> {
                &&& after.requests.len() > n + 1
                &&& after.requests[n + 1] == Request::Execute(
                    seq!["startvm"@, vm_id, "--type"@, "gui"@],
                )
                &&& result is Ok <==> answer is Ok && answer->Ok_0.success
                &&& result is Ok ==> record.vm_started_by_multiseat
                &&& result is Err ==> record == before
            }
            &&& record.attached == before.attached
        }),
{
    if !running {
        let n = w.requests.len() as int;
        let (w0, started) = service::moment_p(w);
        let (w1, answer) = service::checked_p(w0, seq!["startvm"@, vm_id, "--type"@, "gui"@]);
        assert(w1.requests[n + 1] == Request::Execute(
            seq!["startvm"@, vm_id, "--type"@, "gui"@],
        ));
        if let Ok(output) = answer {
            let w2 = service::timed_trace_p(
                w1,
                seat,
                "VMStartRequested"@,
                started,
                Some(vm_id),
                None,
                output.exit_code,
            );
            assert(w2.requests[n + 1] == w1.requests[n + 1]);
        }
    }
}

/// A start begins by making the record of its seat a clean one: starting, with nothing attached, no
/// error, and its first two notes.
pub proof fn law_a_seat_begins_as_starting(w: Run, seat: Text, vm_state: Text)
    ensures
        ({
            let record = service::record_of(activation::begin_p(w, seat, vm_state), seat);
            &&& record.transitional == Some(SeatRuntimeStatus::Starting)
            &&& record.last_error is None
            &&& record.attached.len() == 0
            &&& record.startup_started is Some
            &&& record.logs.len() == 2
            &&& record.logs[0].action == "activation"@ && record.logs[0].outcome == "started"@
            &&& record.logs[1].action == "vm-state"@ && record.logs[1].detail == vm_state
        }),
{
}

/// A managed machine's window is kept from the host's mouse before anything else, and the seat's
/// window counts as closed exactly where that was done. A machine that is not managed is left as
/// it is.
pub proof fn law_a_managed_window_is_closed_first(w: Run, seat: Text, vm_id: Text, managed: bool)
    ensures
        ({
            let n = w.requests.len() as int;
            let (after, result) = activation::restrain_p(w, seat, vm_id, managed);
            let record = service::record_of(after, seat);
            &&& !managed ==> after == w && result is Ok
            &&& managed ==> after.requests.len() > n && after.requests[n] == Request::Execute(
                seq!["setextradata"@, vm_id, "GUI/MouseCapturePolicy"@, "Disabled"@],
            )
            &&& managed && result is Ok ==> record.display_mode
                == ManagedSeatDisplayMode::SeatDisplayLocked
            &&& managed && result is Err ==> record == service::record_of(w, seat)
        }),
{
}

/// The policy of a seat's window is set where its machine is managed, and says so. A machine that
/// is not managed is left alone, and a seat without one is refused.
pub proof fn law_only_a_managed_window_is_set(w: Run, seat: Text, config: ApplicationConfigView)
    ensures
        ({
            let n = w.requests.len() as int;
            let (after, result) = isolation::ensure_capture_disabled_p(w, seat, config);
            let machine = config.machines[seat];
            &&& !config.machines.contains_key(seat) ==> after == w && result is Err
            &&& config.machines.contains_key(seat) && !machine.managed_by_multiseat ==> after == w
                && result == Ok::<bool, Text>(false)
            &&& config.machines.contains_key(seat) && machine.managed_by_multiseat ==> {
                &&& after.requests.len() > n
                &&& after.requests[n] == Request::Execute(
                    seq![
                        "setextradata"@,
                        machine.vm_id,
                        "GUI/MouseCapturePolicy"@,
                        "Disabled"@,
                    ],
                )
                &&& result is Ok ==> result->Ok_0
            }
        }),
{
}

/// A seat whose start succeeded is no longer starting.
pub proof fn law_a_started_seat_is_no_longer_starting(
    w: Run,
    request: StartRequest,
    vm_id: Text,
    inputs: ActivationInputsView,
)
    ensures
        ({
            let (after, result) = activation::hand_over_p(w, request, vm_id, inputs);
            result is Ok ==> service::record_of(after, request.seat).transitional is None
        }),
{
}

/// A start that failed ends what was begun to be shown and protected, whatever it failed at, and
/// tells why it failed.
pub proof fn law_a_failed_start_ends_what_it_began(w: Run, request: StartRequest)
    ensures
        ({
            let (after, result) = activation::start_p(w, request);
            let (inner, told) = activation::start_inner_p(w, request);
            &&& result == told
            &&& result is Ok ==> after == inner
            &&& result is Err ==> after.requests == inner.requests.push(
                Request::PresentationStop,
            ).push(Request::FocusStop) && after.state == inner.state
        }),
{
}

/// A start that was accepted is known as under way, one that is over is not, and the starts of
/// other seats go on.
pub proof fn law_a_start_that_is_over_is_forgotten(w: Run, seat: Text, other: Text)
    requires
        other != seat,
    ensures
        ({
            let after = isolation::finish_start_p(w, seat);
            &&& after.requests == w.requests
            &&& !after.state.starting.contains(seat)
            &&& !after.state.cancellations.contains_key(seat)
            &&& after.state.starting.contains(other) <==> w.state.starting.contains(other)
            &&& after.state.cancellations.contains_key(other)
                <==> w.state.cancellations.contains_key(other)
            &&& after.state.records == w.state.records
        }),
{
}

/// Cancelling a start raises the flag of that start, and nothing where there is none.
pub proof fn law_cancelling_raises_the_starts_own_flag(w: Run, seat: Text)
    ensures
        ({
            let after = isolation::cancel_start_p(w, seat);
            &&& after.state == w.state
            &&& w.state.cancellations.contains_key(seat) ==> after.requests == w.requests.push(
                Request::Cancel(w.state.cancellations[seat]),
            )
            &&& !w.state.cancellations.contains_key(seat) ==> after.requests == w.requests
        }),
{
}

/// A machine's window is shown on the display that its seat has, by its identifier, its name and
/// its process. Where it cannot be shown, or the seat has no display, that is told.
pub proof fn law_a_window_that_cannot_be_shown_is_told(
    w: Run,
    seat: Text,
    config: ApplicationConfigView,
    vm: VirtualMachineView,
)
    ensures
        ({
            let n = w.requests.len() as int;
            let after = isolation::start_presentation_p(w, seat, config, vm);
            let display = seat_rules::display_of(config, seat);
            &&& after.state == w.state
            &&& display is None ==> {
                &&& after.requests.len() == n + 1
                &&& after.requests[n] is PresentationUnavailable
                &&& after.requests[n]->PresentationUnavailable_0 is None
            }
            &&& display matches Some(place) ==> {
                let refused = (w.oracle)(n)->Done_0;
                &&& after.requests[n] matches Request::PresentationStart(window, shown)
                &&& shown == place
                &&& window.vm_uuid == vm.uuid
                &&& window.vm_name == vm.name
                &&& window.session_pid == vm.session_pid
                &&& refused is Ok ==> after.requests.len() == n + 1
                &&& refused matches Err(error) ==> after.requests.len() == n + 2
                    && after.requests[n + 1] == Request::PresentationUnavailable(
                    Some(place),
                    error,
                )
            }
        }),
{
}

/// How open a window is and how its mouse is integrated is remembered as it was told.
pub proof fn law_the_mode_and_the_mouse_are_remembered(
    w: Run,
    seat: Text,
    mode: ManagedSeatDisplayMode,
    integration: MouseIntegrationStatusView,
)
    ensures
        ({
            let after = isolation::note_mode(w, seat, mode, integration);
            let record = service::record_of(after, seat);
            &&& record_laws::changes_only(w, after, seat)
            &&& record.display_mode == mode
            &&& record.mouse_integration == integration
            &&& record == (RuntimeRecordView {
                display_mode: mode,
                mouse_integration: integration,
                ..service::record_of(w, seat)
            })
        }),
{
}

// ---- Attachments -----------------------------------------------------------------------

/// What is handed over is the device that was found for sure, with its own address and state.
pub proof fn law_a_device_is_found_for_sure(
    device: PhysicalInputDeviceView,
    status: VirtualBoxStatusView,
)
    ensures
        ({
            let mapping = usb::correlated(device, status);
            let sure = mapping.state == UsbCorrelationState::Exact || mapping.state
                == UsbCorrelationState::Unambiguous;
            let found = usb_attachment::resolved(device, status);
            &&& found is Ok <==> sure && mapping.matched_uuid is Some
            &&& found matches Ok(usb) ==> {
                let listed = seat_rules::usb_device(status.usb_devices, usb.uuid);
                &&& Some(usb.uuid) == mapping.matched_uuid
                &&& usb.mapping == mapping.state
                &&& listed matches Some(entry) ==> usb.address == entry.address && usb.state
                    == entry.current_state
                &&& listed is None ==> usb.address is None && usb.state is None
            }
        }),
{
}

/// An attachment is remembered before it is made: which device it is, what it was found to be, and
/// that nothing was asked for yet.
pub proof fn law_an_attachment_is_remembered_before_it_is_made(
    w: Run,
    seat: Text,
    kind: InputKind,
    device: PhysicalInputDeviceView,
    found: ResolvedUsbView,
)
    ensures
        ({
            let after = usb_attachment::note_attachment(w, seat, kind, device, found);
            let before = service::record_of(w, seat);
            let record = service::record_of(after, seat);
            let item = record.attached.last();
            &&& record_laws::changes_only(w, after, seat)
            &&& record.attached.len() == before.attached.len() + 1
            &&& record.attached.drop_last() == before.attached
            &&& item.physical_device_id == device.id
            &&& item.runtime_uuid == found.uuid
            &&& item.kind == kind
            &&& item.mapping == found.mapping
            &&& item.diagnostic.runtime_uuid == Some(found.uuid)
            &&& item.diagnostic.runtime_address == found.address
            &&& item.diagnostic.state_before_attach == found.state
            &&& item.diagnostic.resolved_usb_parent == device.usb_parent_instance_id
            &&& item.diagnostic.usb_parent == EvidencePresence::Present
                <==> device.usb_parent_instance_id is Some
            &&& item.diagnostic.windows_physical_device == EvidencePresence::Present
            &&& item.diagnostic.virtual_box_host_device == EvidencePresence::Present
            &&& item.diagnostic.attach_command == UsbAttachCommandStatus::NotRequested
            &&& item.diagnostic.health == UsbRuntimeHealth::AttachRequested
        }),
{
    let after = usb_attachment::note_attachment(w, seat, kind, device, found);
    assert(service::record_of(after, seat).attached.drop_last() =~= service::record_of(
        w,
        seat,
    ).attached);
}

/// What came of the command is remembered of the attachment: that it was accepted, or that it
/// failed and the device with it. Which device it is stays.
pub proof fn law_what_came_of_a_command_is_remembered(item: ManagedAttachmentView, accepted: bool)
    ensures
        ({
            let after = usb_attachment::with_outcome(item, accepted);
            &&& after.diagnostic.attach_command == UsbAttachCommandStatus::Success <==> accepted
            &&& after.diagnostic.attach_command == UsbAttachCommandStatus::Failure <==> !accepted
            &&& accepted ==> after.diagnostic.health == item.diagnostic.health
            &&& !accepted ==> after.diagnostic.health == UsbRuntimeHealth::Failed
            &&& after.physical_device_id == item.physical_device_id
            &&& after.runtime_uuid == item.runtime_uuid
            &&& after.kind == item.kind
            &&& after.mapping == item.mapping
        }),
{
}

/// What was seen of an attached device is remembered as it was seen, the state at the first look
/// apart from the one at the second. Which device it is stays.
pub proof fn law_what_was_seen_is_remembered(
    item: ManagedAttachmentView,
    seen: UsbObservationView,
    first: bool,
)
    ensures
        ({
            let after = usb_attachment::with_observation(item, seen, first);
            let told = after.diagnostic;
            let known = item.diagnostic;
            &&& after.physical_device_id == item.physical_device_id
            &&& after.kind == item.kind
            &&& seen.runtime_uuid matches Some(uuid) ==> after.runtime_uuid == uuid
            &&& seen.runtime_uuid is None ==> after.runtime_uuid == item.runtime_uuid
            &&& seen.mapping matches Some(mapping) ==> after.mapping == mapping
            &&& seen.mapping is None ==> after.mapping == item.mapping
            &&& told.windows_physical_device == seen.windows_physical_device
            &&& told.usb_parent == seen.usb_parent
            &&& told.virtual_box_host_device == seen.virtual_box_host_device
            &&& told.resolved_usb_parent == seen.resolved_usb_parent
            &&& told.runtime_uuid == seen.runtime_uuid
            &&& told.runtime_address == seen.runtime_address
            &&& told.current_virtual_box_state == seen.current_state
            &&& told.health == seen.health
            &&& first ==> told.state_immediately_after_attach == seen.current_state
                && told.state_after_retry == known.state_after_retry
            &&& !first ==> told.state_after_retry == seen.current_state
                && told.state_immediately_after_attach == known.state_immediately_after_attach
            &&& told.state_before_attach == known.state_before_attach
            &&& told.attach_command == known.attach_command
        }),
{
}

/// A change of an attachment changes the first one of its kind, and no other.
pub proof fn law_a_change_is_of_one_attachment(
    record: RuntimeRecordView,
    kind: InputKind,
    change: spec_fn(ManagedAttachmentView) -> ManagedAttachmentView,
    i: int,
)
    requires
        0 <= i < record.attached.len(),
        record.attached[i].kind == kind,
        forall|j: int| 0 <= j < i ==> (#[trigger] record.attached[j]).kind != kind,
    ensures
        ({
            let after = usb_attachment::with_attachment(record, kind, change);
            &&& after.attached.len() == record.attached.len()
            &&& after.attached[i] == change(record.attached[i])
            &&& forall|j: int|
                0 <= j < record.attached.len() && j != i ==> #[trigger] after.attached[j]
                    == record.attached[j]
            &&& after == (RuntimeRecordView { attached: after.attached, ..record })
        }),
{
    lemma_first_of_kind(record.attached, kind, 0, i);
}

proof fn lemma_first_of_kind(
    attached: Seq<ManagedAttachmentView>,
    kind: InputKind,
    from: int,
    i: int,
)
    requires
        0 <= from <= i < attached.len(),
        attached[i].kind == kind,
        forall|j: int| 0 <= j < i ==> (#[trigger] attached[j]).kind != kind,
    ensures
        seat_rules::attachment_index_from(attached, kind, from) == Some(i),
    decreases i - from,
{
    if from < i {
        assert(attached[from].kind != kind);
        lemma_first_of_kind(attached, kind, from + 1, i);
    }
}

// ---- Taking back -----------------------------------------------------------------------

/// A device that was not handed over is not taken back, and one that has gone is passed over with a
/// note. Any other is looked up afresh and taken back from its machine by its identifier of that
/// moment; what goes wrong is told.
pub proof fn law_a_device_is_taken_back_by_what_it_is_now(
    w: Run,
    seat: Text,
    vm_id: Text,
    devices: Seq<PhysicalInputDeviceView>,
    item: ManagedAttachmentView,
    words: Wording,
)
    ensures
        ({
            let (after, error) = usb_attachment::detach_one_p(
                w,
                seat,
                vm_id,
                devices,
                item,
                words,
            );
            let accepted = item.diagnostic.attach_command == UsbAttachCommandStatus::Success;
            let gone = item.diagnostic.health == UsbRuntimeHealth::DisappearedAfterAttach
                || item.diagnostic.health == UsbRuntimeHealth::PhysicalDeviceDisconnected;
            let device = seat_rules::physical(devices, item.physical_device_id, item.kind);
            &&& !accepted ==> after == w && error is None
            &&& accepted && gone ==> record_laws::changes_only(w, after, seat) && error is None
                && service::record_of(after, seat).logs.last().outcome == "skipped"@
            &&& accepted && !gone && device is None ==> after == w && error is Some
            &&& accepted && !gone && device is Some ==> {
                let (looked, found) = usb_attachment::resolve_single_p(w, device->0);
                let answer: Answer = (looked.oracle)(looked.requests.len() as int)->Output_0;
                &&& found is Err ==> after == looked && error is Some
                &&& found matches Ok(usb) ==> {
                    &&& after.requests == looked.requests.push(
                        Request::Execute(seq!["controlvm"@, vm_id, "usbdetach"@, usb.uuid]),
                    )
                    &&& error is None <==> answer is Ok && answer->Ok_0.success
                    &&& error is None ==> service::record_of(after, seat).logs.last().outcome
                        == "success"@ && service::record_of(after, seat).logs.last().runtime_uuid
                        == Some(usb.uuid)
                }
            }
        }),
{
}

/// Devices are taken back one after the other, the last that was handed over first, and each is
/// tried whatever came of the others.
pub proof fn law_devices_are_taken_back_in_reverse(
    w: Run,
    seat: Text,
    vm_id: Text,
    devices: Seq<PhysicalInputDeviceView>,
    items: Seq<ManagedAttachmentView>,
    words: Wording,
)
    ensures
        usb_attachment::detach_items_p(w, seat, vm_id, devices, items, 0, words).0 == w,
        items.len() > 0 ==> {
            let n = items.len() as int;
            let (w1, errors) = usb_attachment::detach_items_p(
                w,
                seat,
                vm_id,
                devices,
                items,
                n - 1,
                words,
            );
            let (w2, error) = usb_attachment::detach_one_p(
                w1,
                seat,
                vm_id,
                devices,
                items[0],
                words,
            );
            let (after, all) = usb_attachment::detach_items_p(
                w,
                seat,
                vm_id,
                devices,
                items,
                n,
                words,
            );
            &&& after == w2
            &&& error is None ==> all == errors
            &&& error matches Some(message) ==> all == errors.push(message)
        },
        items.len() > 0 ==> usb_attachment::detach_items_p(
            w,
            seat,
            vm_id,
            devices,
            items,
            1,
            words,
        ).0 == usb_attachment::detach_one_p(w, seat, vm_id, devices, items.last(), words).0,
{
    reveal_with_fuel(usb_attachment::detach_items_p, 3);
}

proof fn lemma_detach_keeps(
    w: Run,
    seat: Text,
    vm_id: Text,
    devices: Seq<PhysicalInputDeviceView>,
    items: Seq<ManagedAttachmentView>,
    count: int,
    words: Wording,
)
    ensures
        service::record_of(
            usb_attachment::detach_items_p(w, seat, vm_id, devices, items, count, words).0,
            seat,
        ).attached == service::record_of(w, seat).attached,
    decreases count,
{
    if count > 0 {
        lemma_detach_keeps(w, seat, vm_id, devices, items, count - 1, words);
    }
}

/// Where every device was taken back, none is remembered as held. Where one was not, what was held
/// stays remembered, and it is told. After a failure nothing stays remembered.
pub proof fn law_what_was_not_taken_back_stays_remembered(
    w: Run,
    seat: Text,
    vm_id: Text,
    devices: Seq<PhysicalInputDeviceView>,
)
    ensures
        ({
            let (after, result) = usb_attachment::detach_managed_p(w, seat, vm_id, devices);
            let held = service::record_of(after, seat).attached;
            &&& result is Ok ==> held.len() == 0
            &&& result is Err ==> held == service::record_of(w, seat).attached
        }),
        service::record_of(
            usb_attachment::rollback_p(w, seat, vm_id, devices).0,
            seat,
        ).attached.len() == 0,
{
    let items = service::record_of(w, seat).attached;
    lemma_detach_keeps(
        w,
        seat,
        vm_id,
        devices,
        items,
        items.len() as int,
        usb_attachment::detach_wording(),
    );
}

/// Forgetting the devices of a kind forgets those and keeps the others, in their order.
pub proof fn law_only_one_kind_is_forgotten(
    w: Run,
    seat: Text,
    kind: InputKind,
    item: ManagedAttachmentView,
)
    ensures
        ({
            let after = activation::forget_kind(w, seat, kind);
            let before = service::record_of(w, seat);
            let record = service::record_of(after, seat);
            &&& record_laws::changes_only(w, after, seat)
            &&& record.attached.contains(item) <==> before.attached.contains(item) && item.kind
                != kind
            &&& record == (RuntimeRecordView { attached: record.attached, ..before })
        }),
{
    let before = service::record_of(w, seat);
    let keep = |held: ManagedAttachmentView| held.kind != kind;
    let kept = before.attached.filter(keep);
    if kept.contains(item) {
        let i = choose|i: int| 0 <= i < kept.len() && kept[i] == item;
        sequences::lemma_kept(before.attached, keep, i);
    }
    if before.attached.contains(item) && item.kind != kind {
        let i = choose|i: int| 0 <= i < before.attached.len() && before.attached[i] == item;
        sequences::lemma_passes(before.attached, keep, i);
    }
}

/// A device counts as taken where VirtualBox found it for sure and says that it is captured or
/// held.
pub proof fn law_a_device_is_taken_where_virtual_box_says_so(
    device: PhysicalInputDeviceView,
    status: VirtualBoxStatusView,
)
    ensures
        ({
            let mapping = usb::correlated(device, status);
            let sure = mapping.state == UsbCorrelationState::Exact || mapping.state
                == UsbCorrelationState::Unambiguous;
            let listed = seat_rules::usb_device(status.usb_devices, mapping.matched_uuid->0);
            let taken = listed is Some && listed->0.current_state is Some && (
            model::same_ignoring_case(listed->0.current_state->0, "Captured"@)
                || model::same_ignoring_case(listed->0.current_state->0, "Held"@));
            let found = activation::captured_uuid(device, status);
            &&& found is Some <==> sure && mapping.matched_uuid is Some && taken
            &&& found is Some ==> found == mapping.matched_uuid
        }),
{
    reveal_strlit("Captured");
    reveal_strlit("captured");
    reveal_strlit("Held");
    reveal_strlit("held");
    assert(model::lower("Captured"@) =~= model::lower("captured"@));
    assert(model::lower("Held"@) =~= model::lower("held"@));
}

/// A seat that is being stopped is stopping, and one that was stopped is at rest: nothing is under
/// way, no error is left, its machine counts as nobody's and its window as open. What it holds is
/// not touched by either.
pub proof fn law_a_stopped_seat_is_at_rest(
    w: Run,
    seat: Text,
    integration: MouseIntegrationStatusView,
)
    ensures
        ({
            let after = activation::note_stopping(w, seat, integration);
            let record = service::record_of(after, seat);
            &&& record_laws::changes_only(w, after, seat)
            &&& record.transitional == Some(SeatRuntimeStatus::Stopping)
            &&& record.mouse_integration == integration
            &&& record.attached == service::record_of(w, seat).attached
        }),
        ({
            let after = activation::note_stopped(w, seat);
            let record = service::record_of(after, seat);
            &&& record_laws::changes_only(w, after, seat)
            &&& record.transitional is None
            &&& record.last_error is None
            &&& !record.vm_started_by_multiseat
            &&& record.display_mode == ManagedSeatDisplayMode::NormalVirtualBox
            &&& record.attached == service::record_of(w, seat).attached
            &&& record.logs == service::record_of(w, seat).logs
        }),
{
}

// ---- Mice and windows ------------------------------------------------------------------

/// A mouse that was switched is reported as switched here and as it was asked for. One that is put
/// back is reported as it was before, and no longer as switched here. One that was not switched is
/// not known.
pub proof fn law_a_switched_mouse_is_reported(
    mice: SimulatedMice,
    vm_id: Text,
    desired: MouseIntegrationState,
)
    ensures
        ({
            let status = mouse_integration::switched_status(desired);
            &&& status.requested == desired
            &&& status.observed == desired
            &&& status.owned_by_multiseat
            &&& status.control == MouseIntegrationControl::Supported
        }),
        ({
            let before = mice.state(vm_id);
            let status = mice.switched(vm_id, desired).restored_status(vm_id);
            &&& !mice.original.contains_key(vm_id) ==> status.observed == before
                && status.requested == before
            &&& !status.owned_by_multiseat
        }),
        !mice.original.contains_key(vm_id) ==> mice.restored_status(vm_id).observed
            == MouseIntegrationState::Unknown && !mice.restored_status(
            vm_id,
        ).owned_by_multiseat && mice.restored_status(vm_id).control
            == MouseIntegrationControl::ManualRequired,
        !mice.states.contains_key(vm_id) ==> mice.state(vm_id) == MouseIntegrationState::Enabled,
        mice.switched(vm_id, desired).state(vm_id) == desired,
{
}

/// A presentation that is locked is shown without a frame, and one that is not is an ordinary
/// window. One that cannot be had says which display and why.
pub proof fn law_a_presentation_is_reported_as_it_is(
    status: DisplayPresentationStatusView,
    display: Option<Text>,
    message: Text,
)
    ensures
        presentation::relocked(status, true).state == PresentationState::Presented,
        presentation::relocked(status, true).mode == PresentationMode::Borderless,
        presentation::relocked(status, false).state == PresentationState::NotPresented,
        presentation::relocked(status, false).mode == PresentationMode::ConventionalWindow,
        presentation::relocked(status, true).assigned_display_id == status.assigned_display_id,
        ({
            let told = presentation::unavailable(display, message);
            &&& told.state == PresentationState::PresentationUnavailable
            &&& told.assigned_display_id == display
            &&& told.last_error == Some(message)
            &&& !told.managed_window_found
            &&& told.trace.len() == 0
        }),
{
}

/// What is told of a window is what it is.
pub proof fn law_a_window_is_told_as_it_is(window: WindowDescriptorView)
    ensures
        ({
            let told = presentation::diagnostic(window);
            &&& told.process_id == window.process_id
            &&& told.window_handle == window.handle
            &&& told.class_name == window.class_name
            &&& told.title == window.title
            &&& told.visible == window.visible
            &&& told.owner_window_handle == window.owner_handle
            &&& told.bounds == window.bounds
        }),
{
}

} // verus!
