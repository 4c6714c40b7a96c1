//! What a seat has and may have, said of the fields of its configuration and of the devices.
use super::runtime::{
    EvidencePresence, InputKind, ManagedSeatDisplayMode, MouseIsolationStatus, RuntimeRecordView,
    UsbRuntimeHealth,
};
use super::mouse_integration::MouseIntegrationState;
use super::presentation::PresentationState;
use super::seat_rules;
use super::status;
use super::status::Findings;
use super::usb_attachment;
use crate::devices::PhysicalInputDeviceView;
use crate::seats;
use crate::seats::{
    ApplicationConfigView, DeviceRoutingBackend, InputRoutingRuntimeStatus, InputRoutingStrategy,
    UsbPassthroughSafety,
};
use crate::text::model;
use crate::text::model::Text;
use crate::virtualization::SeatRuntimeStatus;
use crate::virtualization::usb;
use crate::virtualization::usb::{VirtualBoxStatusView, VirtualBoxUsbDeviceView};
use crate::virtualization::usb_laws;
use vstd::prelude::*;

verus! {

// ---- Devices ---------------------------------------------------------------------------

/// Whether a device is a keyboard or a mouse that an identifier names, by itself or by one of
/// its nodes, whatever the case of the letters.
pub open spec fn answers_to(device: PhysicalInputDeviceView, id: Text, kind: InputKind) -> bool {
    &&& model::lower(device.id) == model::lower(id) || exists|k: int|
        0 <= k < device.logical_nodes.len() && model::lower(
            (#[trigger] device.logical_nodes[k]).id,
        ) == model::lower(id)
    &&& kind == InputKind::Keyboard ==> device.capabilities.keyboard
    &&& kind == InputKind::Mouse ==> device.capabilities.mouse
}

proof fn lemma_answers(device: PhysicalInputDeviceView, id: Text, kind: InputKind)
    ensures
        answers_to(device, id, kind) == (device.is_named(id) && seat_rules::gives(device, kind)),
{
    if device.has_logical_id(id) {
        let k = choose|k: int|
            0 <= k < device.logical_nodes.len() && model::same_ignoring_case(
                (#[trigger] device.logical_nodes[k]).id,
                id,
            );
        assert(model::lower(device.logical_nodes[k].id) == model::lower(id));
    }
    if exists|k: int|
        0 <= k < device.logical_nodes.len() && model::lower(
            (#[trigger] device.logical_nodes[k]).id,
        ) == model::lower(id) {
        let k = choose|k: int|
            0 <= k < device.logical_nodes.len() && model::lower(
                (#[trigger] device.logical_nodes[k]).id,
            ) == model::lower(id);
        assert(model::same_ignoring_case(device.logical_nodes[k].id, id));
    }
}

/// Whether a place in a list of devices is the first that answers to an identifier.
pub open spec fn is_first_device(
    devices: Seq<PhysicalInputDeviceView>,
    id: Text,
    kind: InputKind,
    i: int,
) -> bool {
    &&& 0 <= i < devices.len()
    &&& answers_to(devices[i], id, kind)
    &&& forall|j: int| 0 <= j < i ==> !answers_to(#[trigger] devices[j], id, kind)
}

proof fn lemma_physical_from(
    devices: Seq<PhysicalInputDeviceView>,
    id: Text,
    kind: InputKind,
    from: int,
)
    requires
        0 <= from,
    ensures
        match seat_rules::physical_from(devices, id, kind, from) {
            Some(device) => exists|i: int|
                from <= i < devices.len() && #[trigger] devices[i] == device && answers_to(
                    device,
                    id,
                    kind,
                ) && forall|j: int| from <= j < i ==> !answers_to(#[trigger] devices[j], id, kind),
            None => forall|j: int|
                from <= j < devices.len() ==> !answers_to(#[trigger] devices[j], id, kind),
        },
    decreases devices.len() - from,
{
    if from < devices.len() {
        lemma_answers(devices[from], id, kind);
        lemma_physical_from(devices, id, kind, from + 1);
    }
}

/// The device that an identifier names is the first one in the list that answers to it and is of
/// the kind that is asked for. Where none does, there is none.
pub proof fn law_a_device_is_the_first_that_answers(
    devices: Seq<PhysicalInputDeviceView>,
    id: Text,
    kind: InputKind,
)
    ensures
        match seat_rules::physical(devices, id, kind) {
            Some(device) => exists|i: int|
                #[trigger] is_first_device(devices, id, kind, i) && device == devices[i],
            None => forall|j: int|
                0 <= j < devices.len() ==> !answers_to(#[trigger] devices[j], id, kind),
        },
        forall|i: int|
            #[trigger] is_first_device(devices, id, kind, i) ==> seat_rules::physical(
                devices,
                id,
                kind,
            ) == Some(devices[i]),
{
    lemma_physical_from(devices, id, kind, 0);
    if let Some(device) = seat_rules::physical(devices, id, kind) {
        let i = choose|i: int|
            0 <= i < devices.len() && #[trigger] devices[i] == device && answers_to(
                device,
                id,
                kind,
            ) && forall|j: int| 0 <= j < i ==> !answers_to(#[trigger] devices[j], id, kind);
        assert(is_first_device(devices, id, kind, i));
    }
}

/// A seat may be started if and only if it is in the list and not the host's own, has a machine,
/// its keyboard and its mouse are set and there, the host's keyboard and mouse are set, and
/// neither of those is one of the seat's. It is started with the very devices that are set for
/// it.
pub proof fn law_a_seat_is_started_with_its_own_devices(
    seat: Text,
    config: ApplicationConfigView,
    devices: Seq<PhysicalInputDeviceView>,
    i: int,
    k: int,
    m: int,
)
    requires
        seats::is_first(config.seats, seat, i),
        config.seats[i].devices.keyboard matches Some(id) ==> is_first_device(
            devices,
            id,
            InputKind::Keyboard,
            k,
        ),
        config.seats[i].devices.mouse matches Some(id) ==> is_first_device(
            devices,
            id,
            InputKind::Mouse,
            m,
        ),
    ensures
        ({
            let own = config.seats[i].devices;
            let host = config.seats[0].devices;
            let found = seat_rules::activation_inputs(seat, config, devices);
            &&& found is Ok <==> {
                &&& i > 0
                &&& config.machines.contains_key(seat)
                &&& own.keyboard is Some
                &&& own.mouse is Some
                &&& host.keyboard is Some
                &&& host.mouse is Some
                &&& model::lower(host.keyboard->0) != model::lower(devices[k].id)
                &&& model::lower(host.mouse->0) != model::lower(devices[m].id)
                &&& model::lower(host.keyboard->0) != model::lower(devices[m].id)
                &&& model::lower(host.mouse->0) != model::lower(devices[k].id)
            }
            &&& found matches Ok(inputs) ==> inputs.keyboard == devices[k] && inputs.mouse
                == devices[m]
        }),
{
    seats::law_a_seat_is_the_first_with_its_identifier(config, seat);
    if let Some(id) = config.seats[i].devices.keyboard {
        law_a_device_is_the_first_that_answers(devices, id, InputKind::Keyboard);
    }
    if let Some(id) = config.seats[i].devices.mouse {
        law_a_device_is_the_first_that_answers(devices, id, InputKind::Mouse);
    }
}

/// A seat is not started where a device that is set for it is not there.
pub proof fn law_a_seat_needs_its_devices(
    seat: Text,
    config: ApplicationConfigView,
    devices: Seq<PhysicalInputDeviceView>,
    i: int,
)
    requires
        seats::is_first(config.seats, seat, i),
        ({
            let own = config.seats[i].devices;
            ||| own.keyboard matches Some(id) && forall|j: int|
                0 <= j < devices.len() ==> !answers_to(
                    #[trigger] devices[j],
                    id,
                    InputKind::Keyboard,
                )
            ||| own.mouse matches Some(id) && forall|j: int|
                0 <= j < devices.len() ==> !answers_to(#[trigger] devices[j], id, InputKind::Mouse)
        }),
    ensures
        seat_rules::activation_inputs(seat, config, devices) is Err,
{
    seats::law_a_seat_is_the_first_with_its_identifier(config, seat);
    if let Some(id) = config.seats[i].devices.keyboard {
        law_a_device_is_the_first_that_answers(devices, id, InputKind::Keyboard);
    }
    if let Some(id) = config.seats[i].devices.mouse {
        law_a_device_is_the_first_that_answers(devices, id, InputKind::Mouse);
    }
}

// ---- Clearance -------------------------------------------------------------------------

/// Whether a place in the safety records is the first about handing a device to VirtualBox.
pub open spec fn is_first_record(config: ApplicationConfigView, id: Text, i: int) -> bool {
    &&& 0 <= i < config.safety.len()
    &&& config.safety[i].backend == DeviceRoutingBackend::VirtualBoxUsbPassthrough
    &&& model::lower(config.safety[i].physical_device_id) == model::lower(id)
    &&& forall|j: int|
        0 <= j < i ==> (#[trigger] config.safety[j]).backend
            != DeviceRoutingBackend::VirtualBoxUsbPassthrough || model::lower(
            config.safety[j].physical_device_id,
        ) != model::lower(id)
}

proof fn lemma_safety_from(config: ApplicationConfigView, id: Text, from: int)
    requires
        0 <= from,
    ensures
        match config.safety_from(id, DeviceRoutingBackend::VirtualBoxUsbPassthrough, from) {
            Some(record) => exists|i: int|
                from <= i < config.safety.len() && #[trigger] config.safety[i] == record
                    && record.backend == DeviceRoutingBackend::VirtualBoxUsbPassthrough
                    && model::lower(record.physical_device_id) == model::lower(id) && forall|j: int|
                    from <= j < i ==> (#[trigger] config.safety[j]).backend
                        != DeviceRoutingBackend::VirtualBoxUsbPassthrough || model::lower(
                        config.safety[j].physical_device_id,
                    ) != model::lower(id),
            None => forall|j: int|
                from <= j < config.safety.len() ==> (#[trigger] config.safety[j]).backend
                    != DeviceRoutingBackend::VirtualBoxUsbPassthrough || model::lower(
                    config.safety[j].physical_device_id,
                ) != model::lower(id),
        },
    decreases config.safety.len() - from,
{
    if from < config.safety.len() {
        lemma_safety_from(config, id, from + 1);
    }
}

/// The record about handing a device to VirtualBox is the first one that names the device and
/// that way of routing it.
pub proof fn law_the_first_record_counts(config: ApplicationConfigView, id: Text)
    ensures
        match config.safety_of(id, DeviceRoutingBackend::VirtualBoxUsbPassthrough) {
            Some(record) => exists|i: int|
                #[trigger] is_first_record(config, id, i) && config.safety[i] == record,
            None => forall|i: int| !#[trigger] is_first_record(config, id, i),
        },
        forall|i: int|
            #[trigger] is_first_record(config, id, i) ==> config.safety_of(
                id,
                DeviceRoutingBackend::VirtualBoxUsbPassthrough,
            ) == Some(config.safety[i]),
{
    lemma_safety_from(config, id, 0);
    if let Some(record) = config.safety_of(id, DeviceRoutingBackend::VirtualBoxUsbPassthrough) {
        let i = choose|i: int|
            0 <= i < config.safety.len() && #[trigger] config.safety[i] == record && record.backend
                == DeviceRoutingBackend::VirtualBoxUsbPassthrough && model::lower(
                record.physical_device_id,
            ) == model::lower(id) && forall|j: int|
                0 <= j < i ==> (#[trigger] config.safety[j]).backend
                    != DeviceRoutingBackend::VirtualBoxUsbPassthrough || model::lower(
                    config.safety[j].physical_device_id,
                ) != model::lower(id);
        assert(is_first_record(config, id, i));
    }
}

/// A device that is known to make trouble, or is disabled, is not handed to a guest. A keyboard
/// is handed over only where a record says that this works; another device also without one.
pub proof fn law_a_keyboard_needs_clearance(
    config: ApplicationConfigView,
    device: PhysicalInputDeviceView,
    i: int,
)
    ensures
        is_first_record(config, device.id, i) ==> {
            let safety = config.safety[i].safety;
            &&& seat_rules::passthrough_allowed(config, device, true) is Ok <==> safety
                == UsbPassthroughSafety::Supported
            &&& seat_rules::passthrough_allowed(config, device, false) is Ok <==> safety
                != UsbPassthroughSafety::KnownProblematic && safety
                != UsbPassthroughSafety::Disabled
        },
        (forall|j: int| !#[trigger] is_first_record(config, device.id, j)) ==> {
            &&& seat_rules::passthrough_allowed(config, device, true) is Err
            &&& seat_rules::passthrough_allowed(config, device, false) is Ok
        },
{
    law_the_first_record_counts(config, device.id);
}

/// The devices of a seat that go to the guest have to be cleared and found for sure, keyboards
/// as keyboards and mice as mice; those that do not go there need neither.
pub proof fn law_what_goes_to_the_guest_is_cleared_and_found(
    listed: VirtualBoxStatusView,
    config: ApplicationConfigView,
    label: Text,
    device: PhysicalInputDeviceView,
    strategy: InputRoutingStrategy,
    keyboard: bool,
)
    ensures
        usb_attachment::required(listed, config, label, device, strategy, keyboard) is Ok <==> {
            ||| strategy == InputRoutingStrategy::NativeKeyboardRouting
            ||| strategy == InputRoutingStrategy::Disabled
            ||| seat_rules::passthrough_allowed(config, device, keyboard) is Ok
                && usb::correlated(device, listed).matched_uuid is Some
        },
{
    usb::law_a_correlation_never_guesses(device, listed);
}

// ---- Observing -------------------------------------------------------------------------

proof fn lemma_state_words()
    ensures
        "captured"@ != "busy"@,
        "captured"@ != "available"@,
        "captured"@ != "unavailable"@,
        "held"@ != "busy"@,
        "held"@ != "available"@,
        "held"@ != "unavailable"@,
        "busy"@ != "available"@,
        "busy"@ != "unavailable"@,
{
    reveal_strlit("captured");
    reveal_strlit("held");
    reveal_strlit("busy");
    reveal_strlit("available");
    reveal_strlit("unavailable");
    assert("captured"@.len() == 8 && "held"@.len() == 4 && "busy"@.len() == 4);
    assert("available"@.len() == 9 && "unavailable"@.len() == 11);
    assert("held"@[0] == 'h' && "busy"@[0] == 'b');
}

/// VirtualBox has taken a device if and only if it calls it captured or held. One that it calls
/// busy is the host's, and one that it calls available or unavailable was let go.
pub proof fn law_states_mean_what_they_say(state: Text)
    ensures
        ({
            let health = seat_rules::health_of_state(Some(state));
            let word = model::lower(state);
            &&& health == UsbRuntimeHealth::Captured <==> word == "captured"@ || word == "held"@
            &&& health == UsbRuntimeHealth::HostBusy <==> word == "busy"@
            &&& health == UsbRuntimeHealth::Released <==> word == "available"@ || word
                == "unavailable"@
            &&& health == UsbRuntimeHealth::Failed <==> !(word == "captured"@ || word == "held"@
                || word == "busy"@ || word == "available"@ || word == "unavailable"@)
        }),
        seat_rules::health_of_state(None) == UsbRuntimeHealth::Failed,
{
    lemma_state_words();
}

/// A listed device is known by its identifier, and where several have one, the first counts.
pub proof fn law_a_listed_device_is_the_first_with_its_identifier(
    devices: Seq<VirtualBoxUsbDeviceView>,
    uuid: Text,
    i: int,
)
    requires
        0 <= i < devices.len(),
        devices[i].uuid == uuid,
        forall|j: int| 0 <= j < i ==> (#[trigger] devices[j]).uuid != uuid,
    ensures
        seat_rules::usb_device(devices, uuid) == Some(devices[i]),
{
    lemma_first_usb(devices, uuid, 0, i);
}

proof fn lemma_first_usb(
    devices: Seq<VirtualBoxUsbDeviceView>,
    uuid: Text,
    from: int,
    i: int,
)
    requires
        0 <= from <= i < devices.len(),
        devices[i].uuid == uuid,
        forall|j: int| 0 <= j < i ==> (#[trigger] devices[j]).uuid != uuid,
    ensures
        seat_rules::usb_from(devices, uuid, from) == Some(devices[i]),
    decreases i - from,
{
    if from < i {
        assert(devices[from].uuid != uuid);
        lemma_first_usb(devices, uuid, from + 1, i);
    }
}

proof fn lemma_usb_from(devices: Seq<VirtualBoxUsbDeviceView>, uuid: Text, from: int)
    requires
        0 <= from,
    ensures
        match seat_rules::usb_from(devices, uuid, from) {
            Some(found) => exists|i: int|
                from <= i < devices.len() && #[trigger] devices[i] == found && found.uuid == uuid
                    && forall|j: int| from <= j < i ==> (#[trigger] devices[j]).uuid != uuid,
            None => forall|j: int|
                from <= j < devices.len() ==> (#[trigger] devices[j]).uuid != uuid,
        },
    decreases devices.len() - from,
{
    if from < devices.len() && devices[from].uuid != uuid {
        lemma_usb_from(devices, uuid, from + 1);
    }
}

/// A device that is there and is the only one of its make on the list is observed as what that
/// entry says: under its identifier, at its address, in its state. One that is not there is
/// disconnected. One of whose make nothing is listed has vanished where it was attached, and
/// was not found otherwise.
pub proof fn law_a_device_is_observed_as_it_is_listed(
    id: Text,
    kind: InputKind,
    devices: Seq<PhysicalInputDeviceView>,
    listed: VirtualBoxStatusView,
    after_attach: bool,
    k: int,
    i: int,
)
    requires
        is_first_device(devices, id, kind, k),
        listed.installed,
        listed.operational,
        0 <= i < listed.usb_devices.len(),
        usb_laws::same_make(listed.usb_devices[i], devices[k]),
        forall|j: int|
            0 <= j < listed.usb_devices.len() && j != i ==> !usb_laws::same_make(
                #[trigger] listed.usb_devices[j],
                devices[k],
            ) && listed.usb_devices[j].uuid != listed.usb_devices[i].uuid,
    ensures
        ({
            let seen = seat_rules::observed(id, kind, devices, listed, after_attach);
            let entry = listed.usb_devices[i];
            &&& seen.windows_physical_device == EvidencePresence::Present
            &&& seen.virtual_box_host_device == EvidencePresence::Present
            &&& seen.runtime_uuid == Some(entry.uuid)
            &&& seen.runtime_address == entry.address
            &&& seen.current_state == entry.current_state
            &&& seen.resolved_usb_parent == devices[k].usb_parent_instance_id
            &&& seen.health == seat_rules::health_of_state(entry.current_state)
        }),
{
    law_a_device_is_the_first_that_answers(devices, id, kind);
    usb_laws::law_the_only_one_of_its_make_is_found(devices[k], listed, i);
    lemma_usb_from(listed.usb_devices, listed.usb_devices[i].uuid, 0);
}

/// A device that is not there is observed as disconnected, one of whose make nothing is listed
/// as vanished where it was attached and as not found otherwise, and one that cannot be told
/// from others as ambiguous.
pub proof fn law_a_device_that_is_not_found(
    id: Text,
    kind: InputKind,
    devices: Seq<PhysicalInputDeviceView>,
    listed: VirtualBoxStatusView,
    after_attach: bool,
)
    ensures
        ({
            let seen = seat_rules::observed(id, kind, devices, listed, after_attach);
            &&& (forall|j: int|
                0 <= j < devices.len() ==> !answers_to(#[trigger] devices[j], id, kind)) ==> {
                &&& seen.health == UsbRuntimeHealth::PhysicalDeviceDisconnected
                &&& seen.windows_physical_device == EvidencePresence::Missing
                &&& seen.runtime_uuid is None
            }
            &&& forall|k: int|
                #[trigger] is_first_device(devices, id, kind, k) && (forall|j: int|
                    0 <= j < listed.usb_devices.len() ==> !usb_laws::same_make(
                        #[trigger] listed.usb_devices[j],
                        devices[k],
                    )) ==> {
                    &&& seen.health == (if after_attach {
                        UsbRuntimeHealth::DisappearedAfterAttach
                    } else {
                        UsbRuntimeHealth::NotResolved
                    })
                    &&& seen.virtual_box_host_device == EvidencePresence::Missing
                    &&& seen.runtime_uuid is None
                }
        }),
{
    let seen = seat_rules::observed(id, kind, devices, listed, after_attach);
    law_a_device_is_the_first_that_answers(devices, id, kind);
    assert forall|k: int|
        #[trigger] is_first_device(devices, id, kind, k) && (forall|j: int|
            0 <= j < listed.usb_devices.len() ==> !usb_laws::same_make(
                #[trigger] listed.usb_devices[j],
                devices[k],
            )) implies {
        &&& seen.health == (if after_attach {
            UsbRuntimeHealth::DisappearedAfterAttach
        } else {
            UsbRuntimeHealth::NotResolved
        })
        &&& seen.virtual_box_host_device == EvidencePresence::Missing
        &&& seen.runtime_uuid is None
    } by {
        usb_laws::law_nothing_of_its_make_is_nothing(devices[k], listed);
    }
}

// ---- Reports ---------------------------------------------------------------------------

/// How input reaches a seat: as it was set, and else a keyboard natively and a mouse through
/// VirtualBox.
pub proof fn law_input_is_routed_as_it_was_set(config: ApplicationConfigView, seat: Text)
    ensures
        config.routing.contains_key(seat) ==> config.routing_of(seat) == config.routing[seat],
        !config.routing.contains_key(seat) ==> {
            &&& config.routing_of(seat).keyboard == InputRoutingStrategy::NativeKeyboardRouting
            &&& config.routing_of(seat).mouse == InputRoutingStrategy::VirtualBoxUsbPassthrough
        },
{
}

/// A report is about its seat: it names the seat's own machine, keyboard, mouse and routing, and
/// the host's devices that it tells about are those of the first seat.
pub proof fn law_a_report_is_about_its_seat(
    seat: Text,
    config: ApplicationConfigView,
    devices: Seq<PhysicalInputDeviceView>,
    record: RuntimeRecordView,
    found: Findings,
)
    ensures
        ({
            let report = status::snapshot_of(seat, config, devices, record, found);
            &&& report.seat_id == seat
            &&& report.vm_id == (if config.machines.contains_key(seat) {
                Some(config.machines[seat].vm_id)
            } else {
                None
            })
            &&& report.vm_state == found.vm_state
            &&& report.vm_started_by_multiseat == record.vm_started_by_multiseat
            &&& report.display_presentation == found.display
            &&& report.startup_trace == record.startup_trace
            &&& report.message == record.last_error
            &&& report.logs == record.logs
            &&& report.input_isolation.display_mode == record.display_mode
            &&& report.input_isolation.mouse_integration == record.mouse_integration
            &&& report.input_isolation.focus_protection_active == found.focus.active
            &&& report.input_isolation.focus_protection_locked == found.focus.locked
            &&& report.input_isolation.focus_restoration_count == found.focus.restoration_count
            &&& report.input_isolation.focus_protection_error == found.focus.last_error
            &&& report.keyboard.routing_strategy == config.routing_of(seat).keyboard
            &&& report.mouse.routing_strategy == config.routing_of(seat).mouse
            &&& forall|i: int|
                #[trigger] seats::is_first(config.seats, seat, i) ==> {
                    &&& report.keyboard.physical_device_id == config.seats[i].devices.keyboard
                    &&& report.mouse.physical_device_id == config.seats[i].devices.mouse
                }
            &&& report.input_isolation.mouse_capture_disabled <==> (found.policy matches Some(
                Ok(Some(policy)),
            ) && model::lower(policy) == model::lower("Disabled"@))
        }),
{
    seat_rules::law_a_seats_devices_are_its_own(config, seat);
}

/// What a seat is reported to be doing: what it is in the middle of, if anything; else that it is
/// not set up where it has no machine, an error where one is remembered, stopped where its
/// machine does not run, and running or partly running where it does.
pub proof fn law_a_seat_is_doing_what_is_reported(
    seat: Text,
    config: ApplicationConfigView,
    devices: Seq<PhysicalInputDeviceView>,
    record: RuntimeRecordView,
    found: Findings,
)
    ensures
        ({
            let report = status::snapshot_of(seat, config, devices, record, found);
            let runs = found.vm_state matches Some(state) && model::lower(state) == model::lower(
                "running"@,
            );
            let has_machine = config.machines.contains_key(seat);
            let managed = has_machine && config.machines[seat].managed_by_multiseat;
            let complete = report.keyboard.routing_status == InputRoutingRuntimeStatus::Active
                && report.mouse.routing_status == InputRoutingRuntimeStatus::Active
                && !report.input_isolation.dennis_keyboard_attached
                && !report.input_isolation.dennis_mouse_attached && (managed ==> (
            report.input_isolation.mouse_isolation == MouseIsolationStatus::Active
                && found.display.state == PresentationState::Presented));
            &&& (record.transitional matches Some(status) ==> report.status == status)
            &&& record.transitional is None ==> report.status == (if !has_machine {
                SeatRuntimeStatus::NotConfigured
            } else if record.last_error is Some {
                SeatRuntimeStatus::Error
            } else if !runs {
                SeatRuntimeStatus::Stopped
            } else if complete {
                SeatRuntimeStatus::Running
            } else {
                SeatRuntimeStatus::PartiallyRunning
            })
        }),
{
}

/// The mouse of a seat is the seat's alone if and only if its machine is a managed one, the seat
/// is locked, the policy of the machine's window is known and turns capturing off, mouse
/// integration is off, focus is protected and locked, the mouse is attached, and the host's own
/// mouse has not been taken.
pub proof fn law_a_mouse_is_isolated_where_everything_holds(
    seat: Text,
    config: ApplicationConfigView,
    devices: Seq<PhysicalInputDeviceView>,
    record: RuntimeRecordView,
    found: Findings,
)
    ensures
        ({
            let report = status::snapshot_of(seat, config, devices, record, found);
            report.input_isolation.mouse_isolation == MouseIsolationStatus::Active <==> {
                &&& config.machines.contains_key(seat)
                &&& config.machines[seat].managed_by_multiseat
                &&& record.display_mode == ManagedSeatDisplayMode::SeatDisplayLocked
                &&& found.policy matches Some(Ok(Some(policy))) && model::lower(policy)
                    == model::lower("Disabled"@)
                &&& record.mouse_integration.observed == MouseIntegrationState::Disabled
                &&& found.focus.active
                &&& found.focus.locked
                &&& report.mouse.attached
                &&& !report.input_isolation.dennis_mouse_attached
            }
        }),
{
}

/// A device that goes to the guest is active exactly where VirtualBox has taken it, and an error
/// otherwise. One that is routed natively does as its router says, and one that is disabled is
/// disabled.
pub proof fn law_routing_is_reported_as_it_is(
    seat: Text,
    config: ApplicationConfigView,
    devices: Seq<PhysicalInputDeviceView>,
    record: RuntimeRecordView,
    found: Findings,
)
    ensures
        ({
            let report = status::snapshot_of(seat, config, devices, record, found);
            let keyboard = report.keyboard;
            let mouse = report.mouse;
            &&& keyboard.attached <==> keyboard.usb.health == UsbRuntimeHealth::Captured
            &&& mouse.attached <==> mouse.usb.health == UsbRuntimeHealth::Captured
            &&& keyboard.routing_strategy == InputRoutingStrategy::VirtualBoxUsbPassthrough ==> (
            keyboard.routing_status == (if keyboard.attached {
                InputRoutingRuntimeStatus::Active
            } else {
                InputRoutingRuntimeStatus::Error
            }))
            &&& mouse.routing_strategy == InputRoutingStrategy::VirtualBoxUsbPassthrough ==> (
            mouse.routing_status == (if mouse.attached {
                InputRoutingRuntimeStatus::Active
            } else {
                InputRoutingRuntimeStatus::Error
            }))
            &&& keyboard.routing_strategy == InputRoutingStrategy::NativeKeyboardRouting
                ==> keyboard.routing_status == record.keyboard_routing_status
            &&& keyboard.routing_strategy == InputRoutingStrategy::Disabled
                ==> keyboard.routing_status == InputRoutingRuntimeStatus::Disabled
            &&& mouse.routing_strategy == InputRoutingStrategy::Disabled ==> mouse.routing_status
                == InputRoutingRuntimeStatus::Disabled
        }),
{
}

/// The host's own keyboard, or mouse, is reported as taken exactly where VirtualBox lists the one
/// that is set for the first seat as taken.
pub proof fn law_the_hosts_devices_are_watched(
    seat: Text,
    config: ApplicationConfigView,
    devices: Seq<PhysicalInputDeviceView>,
    record: RuntimeRecordView,
    found: Findings,
)
    ensures
        ({
            let report = status::snapshot_of(seat, config, devices, record, found);
            &&& report.input_isolation.dennis_keyboard_attached <==> {
                &&& config.seats.len() > 0
                &&& config.seats[0].devices.keyboard is Some
                &&& found.usb is Ok
                &&& seat_rules::observed(
                    config.seats[0].devices.keyboard->0,
                    InputKind::Keyboard,
                    devices,
                    found.usb->Ok_0,
                    false,
                ).health == UsbRuntimeHealth::Captured
            }
            &&& report.input_isolation.dennis_mouse_attached <==> {
                &&& config.seats.len() > 0
                &&& config.seats[0].devices.mouse is Some
                &&& found.usb is Ok
                &&& seat_rules::observed(
                    config.seats[0].devices.mouse->0,
                    InputKind::Mouse,
                    devices,
                    found.usb->Ok_0,
                    false,
                ).health == UsbRuntimeHealth::Captured
            }
        }),
{
}

} // verus!
