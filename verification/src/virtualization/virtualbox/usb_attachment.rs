//! Handing devices to a guest and taking them back.
use super::runtime;
use super::runtime::{
    EvidencePresence, InputKind, ManagedAttachment, ManagedAttachmentView, ResolvedUsb,
    ResolvedUsbView, RuntimeRecordView, RuntimeUsbDiagnostic, RuntimeUsbDiagnosticView,
    UsbAttachCommandStatus, UsbObservation, UsbObservationView, UsbRuntimeHealth,
};
use super::seat_rules;
use super::seat_rules::{
    acceptable_uuid, ensure_usb_passthrough_allowed, find_attachment, find_physical, find_usb,
    observe_usb_in_snapshot, ActivationInputs, ActivationInputsView,
};
use super::service;
use super::service::{args4, Request, Run, VirtualBoxRuntimeService};
use crate::devices::{PhysicalInputDevice, PhysicalInputDeviceView};
use crate::duplicate;
use crate::duplicate::Duplicate;
use crate::journal;
use crate::seats::{
    ApplicationConfig, ApplicationConfigView, InputRoutingStrategy, SeatId, SeatInputRouting,
};
use crate::text::compose::{as_opt_str, concat3, copy_opt, join};
use crate::text::model;
use crate::text::model::Text;
use crate::virtualization::usb;
use crate::virtualization::usb::correlate_usb_device;
use vstd::prelude::*;

verus! {

// ---- Programs --------------------------------------------------------------------------

/// What a listing says about a device, where it says it for sure.
pub open spec fn resolved(
    device: PhysicalInputDeviceView,
    status: usb::VirtualBoxStatusView,
) -> Result<ResolvedUsbView, Text> {
    let mapping = usb::correlated(device, status);
    match seat_rules::safe_uuid(mapping, device.id) {
        Err(message) => Err(message),
        Ok(uuid) => {
            let found = seat_rules::usb_device(status.usb_devices, uuid);
            Ok(
                ResolvedUsbView {
                    uuid,
                    address: match found {
                        Some(usb) => usb.address,
                        None => None,
                    },
                    state: match found {
                        Some(usb) => usb.current_state,
                        None => None,
                    },
                    mapping: mapping.state,
                },
            )
        },
    }
}

/// Finds out which USB device a physical device is now.
pub open spec fn resolve_single_p(w: Run, device: PhysicalInputDeviceView) -> (
    Run,
    Result<ResolvedUsbView, Text>,
) {
    match service::usb_status_p(w) {
        (w1, Err(message)) => (w1, Err(message)),
        (w1, Ok(status)) => (w1, resolved(device, status)),
    }
}

/// That a device of a seat may be handed to the guest and can be found for sure.
pub open spec fn required(
    status: usb::VirtualBoxStatusView,
    config: ApplicationConfigView,
    label: Text,
    device: PhysicalInputDeviceView,
    strategy: InputRoutingStrategy,
    keyboard_capable: bool,
) -> Result<(), Text> {
    if strategy != InputRoutingStrategy::VirtualBoxUsbPassthrough {
        Ok(())
    } else {
        match seat_rules::passthrough_allowed(config, device, keyboard_capable) {
            Err(message) => Err(message),
            Ok(()) => match seat_rules::safe_uuid(usb::correlated(device, status), label) {
                Err(message) => Err(message),
                Ok(_) => Ok(()),
            },
        }
    }
}

/// That the devices of a seat that go to the guest may go there and can be found for sure.
pub open spec fn resolve_required_p(
    w: Run,
    inputs: ActivationInputsView,
    routing: SeatInputRouting,
    config: ApplicationConfigView,
) -> (Run, Result<(), Text>) {
    match service::usb_status_p(w) {
        (w1, Err(message)) => (w1, Err(message)),
        (w1, Ok(status)) => (
            w1,
            match required(
                status,
                config,
                "Barnen keyboard"@,
                inputs.keyboard,
                routing.keyboard,
                true,
            ) {
                Err(message) => Err(message),
                Ok(()) => required(
                    status,
                    config,
                    "Barnen mouse"@,
                    inputs.mouse,
                    routing.mouse,
                    false,
                ),
            },
        ),
    }
}

/// Looks at a device that was attached.
pub open spec fn observe_p(
    w: Run,
    id: Text,
    kind: InputKind,
    fallback: Seq<PhysicalInputDeviceView>,
    after_attach: bool,
) -> (Run, Result<UsbObservationView, Text>) {
    match service::current_devices_p(w, fallback) {
        (w1, Err(message)) => (w1, Err(message)),
        (w1, Ok(devices)) => match service::usb_status_p(w1) {
            (w2, Err(message)) => (w2, Err(message)),
            (w2, Ok(status)) => (
                w2,
                Ok(seat_rules::observed(id, kind, devices, status, after_attach)),
            ),
        },
    }
}

/// An attachment with what was seen of its device taken in.
pub open spec fn with_observation(
    item: ManagedAttachmentView,
    seen: UsbObservationView,
    immediate: bool,
) -> ManagedAttachmentView {
    ManagedAttachmentView {
        runtime_uuid: match seen.runtime_uuid {
            Some(uuid) => uuid,
            None => item.runtime_uuid,
        },
        mapping: match seen.mapping {
            Some(mapping) => mapping,
            None => item.mapping,
        },
        diagnostic: RuntimeUsbDiagnosticView {
            windows_physical_device: seen.windows_physical_device,
            usb_parent: seen.usb_parent,
            virtual_box_host_device: seen.virtual_box_host_device,
            resolved_usb_parent: seen.resolved_usb_parent,
            runtime_uuid: seen.runtime_uuid,
            runtime_address: seen.runtime_address,
            current_virtual_box_state: seen.current_state,
            state_immediately_after_attach: if immediate {
                seen.current_state
            } else {
                item.diagnostic.state_immediately_after_attach
            },
            state_after_retry: if immediate {
                item.diagnostic.state_after_retry
            } else {
                seen.current_state
            },
            health: seen.health,
            ..item.diagnostic
        },
        ..item
    }
}

/// An attachment with the outcome of its command taken in.
pub open spec fn with_outcome(item: ManagedAttachmentView, accepted: bool) ->
    ManagedAttachmentView {
    ManagedAttachmentView {
        diagnostic: RuntimeUsbDiagnosticView {
            attach_command: if accepted {
                UsbAttachCommandStatus::Success
            } else {
                UsbAttachCommandStatus::Failure
            },
            health: if accepted {
                item.diagnostic.health
            } else {
                UsbRuntimeHealth::Failed
            },
            ..item.diagnostic
        },
        ..item
    }
}

/// The record of a seat with the attachment of a kind changed, where it has one.
pub open spec fn with_attachment(
    record: RuntimeRecordView,
    kind: InputKind,
    change: spec_fn(ManagedAttachmentView) -> ManagedAttachmentView,
) -> RuntimeRecordView {
    match seat_rules::attachment_index(record.attached, kind) {
        Some(i) => RuntimeRecordView {
            attached: record.attached.update(i, change(record.attached[i])),
            ..record
        },
        None => record,
    }
}

/// The attachment that is about to be made.
pub open spec fn fresh_attachment(
    kind: InputKind,
    device: PhysicalInputDeviceView,
    found: ResolvedUsbView,
) -> ManagedAttachmentView {
    ManagedAttachmentView {
        physical_device_id: device.id,
        runtime_uuid: found.uuid,
        kind,
        mapping: found.mapping,
        diagnostic: RuntimeUsbDiagnosticView {
            windows_physical_device: EvidencePresence::Present,
            usb_parent: seat_rules::parent_presence(device),
            virtual_box_host_device: EvidencePresence::Present,
            resolved_usb_parent: device.usb_parent_instance_id,
            runtime_uuid: Some(found.uuid),
            runtime_address: found.address,
            state_before_attach: found.state,
            attach_command: UsbAttachCommandStatus::NotRequested,
            health: UsbRuntimeHealth::AttachRequested,
            ..runtime::no_diagnostic()
        },
    }
}

/// Remembers an attachment that is about to be made.
pub open spec fn note_attachment(
    w: Run,
    seat: Text,
    kind: InputKind,
    device: PhysicalInputDeviceView,
    found: ResolvedUsbView,
) -> Run {
    let record = service::record_of(w, seat);
    service::remember(
        w,
        seat,
        RuntimeRecordView {
            attached: record.attached.push(fresh_attachment(kind, device, found)),
            ..record
        },
    )
}

/// Remembers what came of the command that makes an attachment.
pub open spec fn note_outcome(w: Run, seat: Text, kind: InputKind, accepted: bool) -> Run {
    service::remember(
        w,
        seat,
        with_attachment(
            service::record_of(w, seat),
            kind,
            |item: ManagedAttachmentView| with_outcome(item, accepted),
        ),
    )
}

/// Remembers what was seen of an attached device.
pub open spec fn note_observation(
    w: Run,
    seat: Text,
    kind: InputKind,
    seen: UsbObservationView,
    immediate: bool,
) -> Run {
    service::remember(
        w,
        seat,
        with_attachment(
            service::record_of(w, seat),
            kind,
            |item: ManagedAttachmentView| with_observation(item, seen, immediate),
        ),
    )
}

/// Hands a device to the guest, and looks twice whether it got there.
pub open spec fn attach_p(
    w: Run,
    seat: Text,
    vm_id: Text,
    kind: InputKind,
    device: PhysicalInputDeviceView,
    found: ResolvedUsbView,
    devices: Seq<PhysicalInputDeviceView>,
) -> (Run, Result<(), Text>) {
    let w1 = service::log_p(
        w,
        seat,
        "usb-resolve"@,
        "success"@,
        Some(device.id),
        Some(found.uuid),
        "current VirtualBox runtime identity resolved"@,
    );
    let w2 = note_attachment(w1, seat, kind, device, found);
    let (w3, answer) = service::checked_p(
        w2,
        seq!["controlvm"@, vm_id, "usbattach"@, found.uuid],
    );
    let w4 = note_outcome(w3, seat, kind, answer is Ok);
    match answer {
        Err(message) => (w4, Err(message)),
        Ok(_) => {
            let w5 = service::log_p(
                w4,
                seat,
                "usb-attach"@,
                "success"@,
                Some(device.id),
                Some(found.uuid),
                "VBoxManage accepted dynamic attachment"@,
            );
            match observe_p(w5, device.id, kind, devices, true) {
                (w6, Err(message)) => (w6, Err(message)),
                (w6, Ok(first)) => {
                    let w7 = note_observation(w6, seat, kind, first, true);
                    let (w8, _) = journal::ask(w7, Request::Wait(500));
                    match observe_p(w8, device.id, kind, devices, true) {
                        (w9, Err(message)) => (w9, Err(message)),
                        (w9, Ok(second)) => (
                            verified_p(
                                note_observation(w9, seat, kind, second, false),
                                seat,
                                device.id,
                                second,
                            ),
                            Ok(()),
                        ),
                    }
                },
            }
        },
    }
}

/// Notes whether an attached device got to the guest.
pub open spec fn verified_p(w: Run, seat: Text, id: Text, seen: UsbObservationView) -> Run {
    let captured = seen.health == UsbRuntimeHealth::Captured;
    service::log_p(
        w,
        seat,
        "usb-verify"@,
        if captured {
            "success"@
        } else {
            "unhealthy"@
        },
        Some(id),
        seen.runtime_uuid,
        if captured {
            "VirtualBox positively reports the device as captured/held"@
        } else {
            "attach command succeeded without positive captured evidence"@
        },
    )
}

/// The words that tell one way of taking devices back from another.
#[verifier::ext_equal]
pub struct Wording {
    pub action: Text,
    pub gone: Text,
    pub missing: Text,
    pub done: Text,
}

/// The words of taking devices back at the end.
pub open spec fn detach_wording() -> Wording {
    Wording {
        action: "usb-detach"@,
        gone:
            "device is no longer resolvable; VM shutdown will release any remaining ownership"@,
        missing: "managed device '"@,
        done: "detached MultiSeat Lite managed device"@,
    }
}

/// The words of taking devices back after a failure.
pub open spec fn rollback_wording() -> Wording {
    Wording {
        action: "rollback-detach"@,
        gone: "device disappeared after attach and has no current safe runtime identity"@,
        missing: "rollback device '"@,
        done: "rolled back attachment"@,
    }
}

/// Takes one device back, where handing it over was accepted and it is still there. Its
/// identifier is looked up afresh.
pub open spec fn detach_one_p(
    w: Run,
    seat: Text,
    vm_id: Text,
    devices: Seq<PhysicalInputDeviceView>,
    item: ManagedAttachmentView,
    words: Wording,
) -> (Run, Option<Text>) {
    if item.diagnostic.attach_command != UsbAttachCommandStatus::Success {
        (w, None)
    } else if item.diagnostic.health == UsbRuntimeHealth::DisappearedAfterAttach
        || item.diagnostic.health == UsbRuntimeHealth::PhysicalDeviceDisconnected {
        (
            service::log_p(
                w,
                seat,
                words.action,
                "skipped"@,
                Some(item.physical_device_id),
                item.diagnostic.runtime_uuid,
                words.gone,
            ),
            None,
        )
    } else {
        match seat_rules::physical(devices, item.physical_device_id, item.kind) {
            None => (
                w,
                Some(words.missing + item.physical_device_id + "' is no longer present"@),
            ),
            Some(device) => match resolve_single_p(w, device) {
                (w1, Err(message)) => (w1, Some(message)),
                (w1, Ok(found)) => match service::checked_p(
                    w1,
                    seq!["controlvm"@, vm_id, "usbdetach"@, found.uuid],
                ) {
                    (w2, Err(message)) => (w2, Some(message)),
                    (w2, Ok(_)) => (
                        service::log_p(
                            w2,
                            seat,
                            words.action,
                            "success"@,
                            Some(item.physical_device_id),
                            Some(found.uuid),
                            words.done,
                        ),
                        None,
                    ),
                },
            },
        }
    }
}

/// Takes the last `count` of some devices back, the last first, and gives what went wrong.
pub open spec fn detach_items_p(
    w: Run,
    seat: Text,
    vm_id: Text,
    devices: Seq<PhysicalInputDeviceView>,
    items: Seq<ManagedAttachmentView>,
    count: int,
    words: Wording,
) -> (Run, Seq<Text>)
    decreases count,
{
    if count <= 0 {
        (w, seq![])
    } else {
        let (w1, errors) = detach_items_p(w, seat, vm_id, devices, items, count - 1, words);
        let (w2, error) = detach_one_p(
            w1,
            seat,
            vm_id,
            devices,
            items[items.len() - count],
            words,
        );
        (
            w2,
            match error {
                Some(message) => errors.push(message),
                None => errors,
            },
        )
    }
}

/// Forgets the devices of a seat.
pub open spec fn forget_attachments(w: Run, seat: Text) -> Run {
    service::remember(
        w,
        seat,
        RuntimeRecordView { attached: seq![], ..service::record_of(w, seat) },
    )
}

/// Takes the devices of a seat back.
pub open spec fn detach_managed_p(
    w: Run,
    seat: Text,
    vm_id: Text,
    devices: Seq<PhysicalInputDeviceView>,
) -> (Run, Result<(), Text>) {
    let items = service::record_of(w, seat).attached;
    let (w1, errors) = detach_items_p(
        w,
        seat,
        vm_id,
        devices,
        items,
        items.len() as int,
        detach_wording(),
    );
    if errors.len() == 0 {
        (forget_attachments(w1, seat), Ok(()))
    } else {
        (w1, Err(model::joined(errors, "; "@)))
    }
}

/// Takes the devices of a seat back after a failure.
pub open spec fn rollback_p(
    w: Run,
    seat: Text,
    vm_id: Text,
    devices: Seq<PhysicalInputDeviceView>,
) -> (Run, Seq<Text>) {
    let items = service::record_of(w, seat).attached;
    let (w1, errors) = detach_items_p(
        w,
        seat,
        vm_id,
        devices,
        items,
        items.len() as int,
        rollback_wording(),
    );
    (forget_attachments(w1, seat), errors)
}

// ---- The service -----------------------------------------------------------------------

/// The view of a device that was found, or of why it was not.
pub open spec fn resolved_result(r: Result<ResolvedUsb, String>) -> Result<ResolvedUsbView, Text> {
    match r {
        Ok(found) => Ok(found@),
        Err(message) => Err(message@),
    }
}

/// The view of an observation, or of why there is none.
pub open spec fn observation_result(r: Result<UsbObservation, String>) -> Result<
    UsbObservationView,
    Text,
> {
    match r {
        Ok(seen) => Ok(seen@),
        Err(message) => Err(message@),
    }
}

/// The words that tell one way of taking devices back from another.
struct Words<'a> {
    action: &'a str,
    gone: &'a str,
    missing: &'a str,
    done: &'a str,
}

impl<'a> Words<'a> {
    spec fn wording(self) -> Wording {
        Wording {
            action: self.action@,
            gone: self.gone@,
            missing: self.missing@,
            done: self.done@,
        }
    }
}

fn require_usb(
    status: &usb::VirtualBoxStatus,
    configuration: &ApplicationConfig,
    label: &str,
    physical: &PhysicalInputDevice,
    strategy: InputRoutingStrategy,
    keyboard_capable: bool,
) -> (r: Result<(), String>)
    ensures
        model::with_message(r) == required(
            status@,
            configuration@,
            label@,
            physical@,
            strategy,
            keyboard_capable,
        ),
{
    if strategy != InputRoutingStrategy::VirtualBoxUsbPassthrough {
        return Ok(());
    }
    if let Err(message) = ensure_usb_passthrough_allowed(
        configuration,
        physical,
        keyboard_capable,
    ) {
        return Err(message);
    }
    let mapping = correlate_usb_device(physical, status);
    match acceptable_uuid(&mapping, label) {
        Err(message) => Err(message),
        Ok(_) => Ok(()),
    }
}

impl VirtualBoxRuntimeService {
    pub(crate) fn resolve_required_usb(
        &mut self,
        inputs: &ActivationInputs<'_>,
        routing: SeatInputRouting,
        configuration: &ApplicationConfig,
    ) -> (r: Result<(), String>)
        ensures
            journal::runs(
                *old(self),
                *final(self),
                |w: Run| resolve_required_p(w, inputs@, routing, configuration@),
                model::with_message(r),
            ),
    {
        let status = match self.usb_status() {
            Ok(status) => status,
            Err(message) => {
                return Err(message);
            },
        };
        if let Err(message) = require_usb(
            &status,
            configuration,
            "Barnen keyboard",
            inputs.keyboard,
            routing.keyboard,
            true,
        ) {
            return Err(message);
        }
        require_usb(&status, configuration, "Barnen mouse", inputs.mouse, routing.mouse, false)
    }

    pub(crate) fn resolve_single_usb(&mut self, physical: &PhysicalInputDevice) -> (r: Result<
        ResolvedUsb,
        String,
    >)
        ensures
            journal::runs(
                *old(self),
                *final(self),
                |w: Run| resolve_single_p(w, physical@),
                resolved_result(r),
            ),
    {
        let status = match self.usb_status() {
            Ok(status) => status,
            Err(message) => {
                return Err(message);
            },
        };
        let mapping = correlate_usb_device(physical, &status);
        let uuid = match acceptable_uuid(&mapping, physical.id.as_str()) {
            Ok(uuid) => uuid,
            Err(message) => {
                return Err(message);
            },
        };
        let (address, state) = match find_usb(&status.usb_devices, uuid.as_str()) {
            Some(device) => (copy_opt(&device.address), copy_opt(&device.current_state)),
            None => (None, None),
        };
        Ok(ResolvedUsb { uuid, address, state, mapping: mapping.state })
    }

    pub(crate) fn observe_usb(
        &mut self,
        physical_id: &str,
        kind: InputKind,
        fallback_devices: &[PhysicalInputDevice],
        after_attach: bool,
    ) -> (r: Result<UsbObservation, String>)
        ensures
            journal::runs(
                *old(self),
                *final(self),
                |w: Run|
                    observe_p(
                        w,
                        physical_id@,
                        kind,
                        duplicate::views(fallback_devices@),
                        after_attach,
                    ),
                observation_result(r),
            ),
    {
        let devices = match self.current_devices(fallback_devices) {
            Ok(devices) => devices,
            Err(message) => {
                return Err(message);
            },
        };
        let status = match self.usb_status() {
            Ok(status) => status,
            Err(message) => {
                return Err(message);
            },
        };
        Ok(
            observe_usb_in_snapshot(
                physical_id,
                kind,
                devices.as_slice(),
                &status,
                after_attach,
            ),
        )
    }

    fn update_attachment_observation(
        &mut self,
        seat_id: &SeatId,
        kind: InputKind,
        observation: &UsbObservation,
        immediate: bool,
    )
        ensures
            journal::runs(
                *old(self),
                *final(self),
                |w: Run| (note_observation(w, seat_id@, kind, observation@, immediate), ()),
                (),
            ),
    {
        let mut record = self.record(seat_id);
        let ghost before = record@;
        let ghost change = |item: ManagedAttachmentView|
            with_observation(item, observation@, immediate);
        if let Some(i) = find_attachment(&record.attached, kind) {
            let mut item = record.attached[i].duplicate();
            let ghost earlier = item@;
            assert(before.attached[i as int] == earlier);
            if let Some(uuid) = &observation.runtime_uuid {
                item.runtime_uuid = uuid.clone();
            }
            if let Some(mapping) = observation.mapping {
                item.mapping = mapping;
            }
            item.diagnostic.windows_physical_device = observation.windows_physical_device;
            item.diagnostic.usb_parent = observation.usb_parent;
            item.diagnostic.virtual_box_host_device = observation.virtual_box_host_device;
            item.diagnostic.resolved_usb_parent = copy_opt(&observation.resolved_usb_parent);
            item.diagnostic.runtime_uuid = copy_opt(&observation.runtime_uuid);
            item.diagnostic.runtime_address = copy_opt(&observation.runtime_address);
            item.diagnostic.current_virtual_box_state = copy_opt(&observation.current_state);
            if immediate {
                item.diagnostic.state_immediately_after_attach =
                copy_opt(&observation.current_state);
            } else {
                item.diagnostic.state_after_retry = copy_opt(&observation.current_state);
            }
            item.diagnostic.health = observation.health;
            assert(item@ == with_observation(earlier, observation@, immediate));
            let ghost changed = item@;
            record.attached.set(i, item);
            assert(record@.attached =~= before.attached.update(i as int, changed));
        }
        assert(record@ == with_attachment(before, kind, change));
        self.replace_record(seat_id, record);
    }

    fn record_outcome(&mut self, seat_id: &SeatId, kind: InputKind, accepted: bool)
        ensures
            journal::runs(
                *old(self),
                *final(self),
                |w: Run| (note_outcome(w, seat_id@, kind, accepted), ()),
                (),
            ),
    {
        let mut record = self.record(seat_id);
        let ghost before = record@;
        let ghost change = |item: ManagedAttachmentView| with_outcome(item, accepted);
        if let Some(i) = find_attachment(&record.attached, kind) {
            let mut item = record.attached[i].duplicate();
            let ghost earlier = item@;
            assert(before.attached[i as int] == earlier);
            if accepted {
                item.diagnostic.attach_command = UsbAttachCommandStatus::Success;
            } else {
                item.diagnostic.attach_command = UsbAttachCommandStatus::Failure;
                item.diagnostic.health = UsbRuntimeHealth::Failed;
            }
            assert(item@ == with_outcome(earlier, accepted));
            let ghost changed = item@;
            record.attached.set(i, item);
            assert(record@.attached =~= before.attached.update(i as int, changed));
        }
        assert(record@ == with_attachment(before, kind, change));
        self.replace_record(seat_id, record);
    }

    fn record_attachment(
        &mut self,
        seat_id: &SeatId,
        kind: InputKind,
        physical: &PhysicalInputDevice,
        resolved: &ResolvedUsb,
    )
        ensures
            journal::runs(
                *old(self),
                *final(self),
                |w: Run| (note_attachment(w, seat_id@, kind, physical@, resolved@), ()),
                (),
            ),
    {
        let mut record = self.record(seat_id);
        let ghost before = record@;
        let attachment = ManagedAttachment {
            physical_device_id: physical.id.clone(),
            runtime_uuid: resolved.uuid.clone(),
            kind,
            mapping: resolved.mapping,
            diagnostic: RuntimeUsbDiagnostic {
                windows_physical_device: EvidencePresence::Present,
                usb_parent: if physical.usb_parent_instance_id.is_some() {
                    EvidencePresence::Present
                } else {
                    EvidencePresence::Unknown
                },
                virtual_box_host_device: EvidencePresence::Present,
                resolved_usb_parent: copy_opt(&physical.usb_parent_instance_id),
                runtime_uuid: Some(resolved.uuid.clone()),
                runtime_address: copy_opt(&resolved.address),
                state_before_attach: copy_opt(&resolved.state),
                attach_command: UsbAttachCommandStatus::NotRequested,
                health: UsbRuntimeHealth::AttachRequested,
                ..RuntimeUsbDiagnostic::default()
            },
        };
        record.attached.push(attachment);
        assert(record@.attached =~= before.attached.push(attachment@));
        self.replace_record(seat_id, record);
    }

    /// Hands a device to the guest, and looks twice whether it got there.
    pub(crate) fn attach(
        &mut self,
        seat_id: &SeatId,
        vm_id: &str,
        kind: InputKind,
        physical: &PhysicalInputDevice,
        resolved: &ResolvedUsb,
        physical_devices: &[PhysicalInputDevice],
    ) -> (r: Result<(), String>)
        ensures
            journal::runs(
                *old(self),
                *final(self),
                |w: Run|
                    attach_p(
                        w,
                        seat_id@,
                        vm_id@,
                        kind,
                        physical@,
                        resolved@,
                        duplicate::views(physical_devices@),
                    ),
                model::with_message(r),
            ),
    {
        let id = physical.id.as_str();
        let uuid = resolved.uuid.as_str();
        self.log(
            seat_id,
            "usb-resolve",
            "success",
            Some(id),
            Some(uuid),
            "current VirtualBox runtime identity resolved",
        );
        self.record_attachment(seat_id, kind, physical, resolved);
        let answer = self.checked(args4("controlvm", vm_id, "usbattach", uuid));
        self.record_outcome(seat_id, kind, answer.is_ok());
        if let Err(message) = answer {
            return Err(message);
        }
        self.log(
            seat_id,
            "usb-attach",
            "success",
            Some(id),
            Some(uuid),
            "VBoxManage accepted dynamic attachment",
        );
        let immediate = match self.observe_usb(id, kind, physical_devices, true) {
            Ok(seen) => seen,
            Err(message) => {
                return Err(message);
            },
        };
        self.update_attachment_observation(seat_id, kind, &immediate, true);
        self.wait(500);
        let retry = match self.observe_usb(id, kind, physical_devices, true) {
            Ok(seen) => seen,
            Err(message) => {
                return Err(message);
            },
        };
        self.update_attachment_observation(seat_id, kind, &retry, false);
        let verified = retry.health == UsbRuntimeHealth::Captured;
        self.log(
            seat_id,
            "usb-verify",
            if verified {
                "success"
            } else {
                "unhealthy"
            },
            Some(id),
            as_opt_str(&retry.runtime_uuid),
            if verified {
                "VirtualBox positively reports the device as captured/held"
            } else {
                "attach command succeeded without positive captured evidence"
            },
        );
        Ok(())
    }

    fn detach_one(
        &mut self,
        seat_id: &SeatId,
        vm_id: &str,
        physical_devices: &[PhysicalInputDevice],
        item: &ManagedAttachment,
        words: &Words<'_>,
    ) -> (r: Option<String>)
        ensures
            journal::runs(
                *old(self),
                *final(self),
                |w: Run|
                    detach_one_p(
                        w,
                        seat_id@,
                        vm_id@,
                        duplicate::views(physical_devices@),
                        item@,
                        words.wording(),
                    ),
                model::opt_text(r),
            ),
    {
        if item.diagnostic.attach_command != UsbAttachCommandStatus::Success {
            return None;
        }
        let id = item.physical_device_id.as_str();
        if item.diagnostic.health == UsbRuntimeHealth::DisappearedAfterAttach
            || item.diagnostic.health == UsbRuntimeHealth::PhysicalDeviceDisconnected {
            self.log(
                seat_id,
                words.action,
                "skipped",
                Some(id),
                as_opt_str(&item.diagnostic.runtime_uuid),
                words.gone,
            );
            return None;
        }
        let physical = match find_physical(physical_devices, id, item.kind) {
            Some(physical) => physical,
            None => {
                return Some(concat3(words.missing, id, "' is no longer present"));
            },
        };
        let current = match self.resolve_single_usb(physical) {
            Ok(resolved) => resolved.uuid,
            Err(message) => {
                return Some(message);
            },
        };
        match self.checked(args4("controlvm", vm_id, "usbdetach", current.as_str())) {
            Err(message) => Some(message),
            Ok(_) => {
                self.log(
                    seat_id,
                    words.action,
                    "success",
                    Some(id),
                    Some(current.as_str()),
                    words.done,
                );
                None
            },
        }
    }

    fn detach_items(
        &mut self,
        seat_id: &SeatId,
        vm_id: &str,
        physical_devices: &[PhysicalInputDevice],
        items: &Vec<ManagedAttachment>,
        words: &Words<'_>,
    ) -> (r: Vec<String>)
        ensures
            journal::runs(
                *old(self),
                *final(self),
                |w: Run|
                    detach_items_p(
                        w,
                        seat_id@,
                        vm_id@,
                        duplicate::views(physical_devices@),
                        duplicate::views(items@),
                        items@.len() as int,
                        words.wording(),
                    ),
                model::texts(r@),
            ),
    {
        let ghost all = duplicate::views(items@);
        let ghost start = *self;
        let mut errors: Vec<String> = Vec::new();
        let mut count: usize = 0;
        assert(model::texts(errors@) =~= Seq::<Text>::empty());
        while count < items.len()
            invariant
                count <= items@.len(),
                all == duplicate::views(items@),
                journal::runs(
                    start,
                    *self,
                    |w: Run|
                        detach_items_p(
                            w,
                            seat_id@,
                            vm_id@,
                            duplicate::views(physical_devices@),
                            all,
                            count as int,
                            words.wording(),
                        ),
                    model::texts(errors@),
                ),
            decreases items.len() - count,
        {
            let item = &items[items.len() - 1 - count];
            assert(all[all.len() - (count + 1)] == item@);
            let ghost earlier = model::texts(errors@);
            match self.detach_one(seat_id, vm_id, physical_devices, item, words) {
                Some(message) => {
                    errors.push(message);
                    assert(model::texts(errors@) =~= earlier.push(message@));
                },
                None => {},
            }
            count += 1;
        }
        errors
    }

    fn clear_attachments(&mut self, seat_id: &SeatId)
        ensures
            journal::runs(
                *old(self),
                *final(self),
                |w: Run| (forget_attachments(w, seat_id@), ()),
                (),
            ),
    {
        let mut record = self.record(seat_id);
        record.attached = Vec::new();
        assert(record@.attached =~= Seq::<ManagedAttachmentView>::empty());
        self.replace_record(seat_id, record);
    }

    /// Takes the devices of a seat back.
    pub(crate) fn detach_managed(
        &mut self,
        seat_id: &SeatId,
        vm_id: &str,
        physical_devices: &[PhysicalInputDevice],
    ) -> (r: Result<(), String>)
        ensures
            journal::runs(
                *old(self),
                *final(self),
                |w: Run|
                    detach_managed_p(w, seat_id@, vm_id@, duplicate::views(physical_devices@)),
                model::with_message(r),
            ),
    {
        let attachments = self.record(seat_id).attached;
        let words = Words {
            action: "usb-detach",
            gone:
                "device is no longer resolvable; VM shutdown will release any remaining ownership",
            missing: "managed device '",
            done: "detached MultiSeat Lite managed device",
        };
        let errors = self.detach_items(seat_id, vm_id, physical_devices, &attachments, &words);
        if errors.len() == 0 {
            self.clear_attachments(seat_id);
            Ok(())
        } else {
            Err(join(&errors, "; "))
        }
    }

    /// Takes the devices of a seat back after a failure.
    pub(crate) fn rollback(
        &mut self,
        seat_id: &SeatId,
        vm_id: &str,
        physical_devices: &[PhysicalInputDevice],
    ) -> (r: Vec<String>)
        ensures
            journal::runs(
                *old(self),
                *final(self),
                |w: Run| rollback_p(w, seat_id@, vm_id@, duplicate::views(physical_devices@)),
                model::texts(r@),
            ),
    {
        let attachments = self.record(seat_id).attached;
        let words = Words {
            action: "rollback-detach",
            gone: "device disappeared after attach and has no current safe runtime identity",
            missing: "rollback device '",
            done: "rolled back attachment",
        };
        let errors = self.detach_items(seat_id, vm_id, physical_devices, &attachments, &words);
        self.clear_attachments(seat_id);
        errors
    }
}

} // verus!
