//! What a seat may be given, and how what it was given is doing.
use super::machine_info;
use super::runtime;
use super::runtime::{
    EvidencePresence, InputKind, ManagedAttachment, ManagedAttachmentView, RuntimeComponentStatus,
    RuntimeComponentStatusView, RuntimeRecord, RuntimeRecordView, RuntimeUsbDiagnostic,
    RuntimeUsbDiagnosticView, UsbObservation, UsbObservationView, UsbRuntimeHealth, VirtualMachine,
    VirtualMachineView,
};
use crate::devices::{PhysicalInputDevice, PhysicalInputDeviceView};
use crate::duplicate;
use crate::duplicate::Duplicate;
use crate::seats;
use crate::seats::{
    ApplicationConfig, ApplicationConfigView, DeviceBackendSafetyRecord,
    DeviceBackendSafetyRecordView, DeviceRoutingBackend, InputRoutingRuntimeStatus,
    InputRoutingStrategy, SeatConfigView, SeatId, UsbPassthroughSafety,
};
use crate::text::compose::{as_opt_str, concat2, concat3, concat5, copy_opt, to_lower};
use crate::text::model;
use crate::text::model::Text;
use crate::text::scan::{same, same_any_case};
use crate::virtualization::usb;
use crate::virtualization::usb::{
    correlate_usb_device, UsbCorrelation, UsbCorrelationState, UsbCorrelationView,
    VirtualBoxStatus, VirtualBoxStatusView, VirtualBoxUsbDevice, VirtualBoxUsbDeviceView,
};
use vstd::prelude::*;

verus! {

// ---- What is configured ----------------------------------------------------------------

pub open spec fn no_machine_message(seat: Text) -> Text {
    "seat '"@ + seat + "' has no VirtualBox VM selected"@
}

/// The machine of a seat.
pub open spec fn vm_of(config: ApplicationConfigView, seat: Text) -> Result<Text, Text> {
    match config.machine(seat) {
        Some(machine) => Ok(machine.vm_id),
        None => Err(no_machine_message(seat)),
    }
}

/// The machine of a seat.
pub fn configured_vm_id(seat_id: &SeatId, configuration: &ApplicationConfig) -> (r: Result<
    String,
    String,
>)
    ensures
        model::text_result(r) == vm_of(configuration@, seat_id@),
{
    match configuration.machine_of(seat_id) {
        Some(machine) => Ok(machine.vm_id.clone()),
        None => Err(
            concat3("seat '", seat_id.0.as_str(), "' has no VirtualBox VM selected"),
        ),
    }
}

/// The display of a seat.
pub open spec fn display_of(config: ApplicationConfigView, seat: Text) -> Option<Text> {
    match config.seat(seat) {
        Some(found) => found.devices.display,
        None => None,
    }
}

/// Whether a display, or none, is the one that is set for the first seat in a list with an
/// identifier.
pub open spec fn is_display_of(
    list: Seq<SeatConfigView>,
    seat: Text,
    display: Option<Text>,
) -> bool {
    match display {
        Some(_) => exists|i: int|
            #[trigger] seats::is_first(list, seat, i) && list[i].devices.display == display,
        None => forall|i: int|
            #[trigger] seats::is_first(list, seat, i) ==> list[i].devices.display is None,
    }
}

/// The display, the keyboard and the mouse of a seat are those that are set for it: for the
/// first seat in the list that has its identifier, and for no other.
pub proof fn law_a_seats_devices_are_its_own(config: ApplicationConfigView, seat: Text)
    ensures
        is_display_of(config.seats, seat, display_of(config, seat)),
        forall|i: int|
            #[trigger] seats::is_first(config.seats, seat, i) ==> {
                let devices = config.seats[i].devices;
                &&& display_of(config, seat) == devices.display
                &&& device_of(config, seat, InputKind::Keyboard) == devices.keyboard
                &&& device_of(config, seat, InputKind::Mouse) == devices.mouse
            },
        (forall|i: int| 0 <= i < config.seats.len() ==> (#[trigger] config.seats[i]).id != seat)
            ==> {
            &&& display_of(config, seat) is None
            &&& device_of(config, seat, InputKind::Keyboard) is None
            &&& device_of(config, seat, InputKind::Mouse) is None
        },
{
    seats::law_a_seat_is_the_first_with_its_identifier(config, seat);
}

/// The display of a seat.
pub fn configured_display_id(seat_id: &SeatId, configuration: &ApplicationConfig) -> (r: Option<
    String,
>)
    ensures
        model::opt_text(r) == display_of(configuration@, seat_id@),
        is_display_of(configuration@.seats, seat_id@, model::opt_text(r)),
{
    proof {
        law_a_seats_devices_are_its_own(configuration@, seat_id@);
    }
    match configuration.find_seat(seat_id) {
        Some(seat) => match &seat.devices.display {
            Some(display) => Some(display.0.clone()),
            None => None,
        },
        None => None,
    }
}

/// The machine of a seat, where it is a managed one.
pub open spec fn managed_machine(config: ApplicationConfigView, seat: Text) -> Result<Text, Text> {
    match config.machine(seat) {
        None => Err(no_machine_message(seat)),
        Some(machine) => if machine.managed_by_multiseat {
            Ok(machine.vm_id)
        } else {
            Err("input isolation is available only for a MultiSeat Lite managed VM"@)
        },
    }
}

/// The machine of a seat, where it is a managed one.
pub fn managed_backend(seat_id: &SeatId, configuration: &ApplicationConfig) -> (r: Result<
    String,
    String,
>)
    ensures
        model::text_result(r) == managed_machine(configuration@, seat_id@),
{
    match configuration.machine_of(seat_id) {
        None => Err(
            concat3("seat '", seat_id.0.as_str(), "' has no VirtualBox VM selected"),
        ),
        Some(machine) => if machine.managed_by_multiseat {
            Ok(machine.vm_id.clone())
        } else {
            Err("input isolation is available only for a MultiSeat Lite managed VM".to_owned())
        },
    }
}

/// Whether the machine of a seat is a managed one.
pub fn is_managed(seat_id: &SeatId, configuration: &ApplicationConfig) -> (r: bool)
    ensures
        r == configuration@.is_managed(seat_id@),
{
    match configuration.machine_of(seat_id) {
        Some(machine) => machine.managed_by_multiseat,
        None => false,
    }
}

/// That a machine is running.
pub open spec fn running_or_error(vm: VirtualMachineView) -> Result<(), Text> {
    if machine_info::is_running(vm) {
        Ok(())
    } else {
        Err("managed VM '"@ + vm.name + "' is not running (state: "@ + vm.state + ")"@)
    }
}

/// That a machine is running.
pub fn require_running(vm: &VirtualMachine) -> (r: Result<(), String>)
    ensures
        model::with_message(r) == running_or_error(vm@),
{
    if same_any_case(vm.state.as_str(), "running") {
        Ok(())
    } else {
        Err(
            concat5(
                "managed VM '",
                vm.name.as_str(),
                "' is not running (state: ",
                vm.state.as_str(),
                ")",
            ),
        )
    }
}

/// The device of a kind that a seat is to have.
pub open spec fn device_of(config: ApplicationConfigView, seat: Text, kind: InputKind) -> Option<
    Text,
> {
    match config.seat(seat) {
        Some(found) => match kind {
            InputKind::Keyboard => found.devices.keyboard,
            InputKind::Mouse => found.devices.mouse,
        },
        None => None,
    }
}

/// The device of a kind that a seat is to have.
pub fn target_device_id(seat_id: &SeatId, configuration: &ApplicationConfig, kind: InputKind) -> (r:
    Option<String>)
    ensures
        model::opt_text(r) == device_of(configuration@, seat_id@, kind),
{
    match configuration.find_seat(seat_id) {
        Some(seat) => {
            let device = match kind {
                InputKind::Keyboard => &seat.devices.keyboard,
                InputKind::Mouse => &seat.devices.mouse,
            };
            match device {
                Some(id) => Some(id.0.clone()),
                None => None,
            }
        },
        None => None,
    }
}

// ---- Finding devices -------------------------------------------------------------------

/// Whether a device gives input of a kind.
pub open spec fn gives(device: PhysicalInputDeviceView, kind: InputKind) -> bool {
    match kind {
        InputKind::Keyboard => device.capabilities.keyboard,
        InputKind::Mouse => device.capabilities.mouse,
    }
}

/// The first device at or after `from` that an identifier names and that gives input of a kind.
pub open spec fn physical_from(
    devices: Seq<PhysicalInputDeviceView>,
    id: Text,
    kind: InputKind,
    from: int,
) -> Option<PhysicalInputDeviceView>
    decreases devices.len() - from,
{
    if from < 0 || from >= devices.len() {
        None
    } else if devices[from].is_named(id) && gives(devices[from], kind) {
        Some(devices[from])
    } else {
        physical_from(devices, id, kind, from + 1)
    }
}

/// The device that an identifier names and that gives input of a kind.
pub open spec fn physical(devices: Seq<PhysicalInputDeviceView>, id: Text, kind: InputKind) ->
    Option<PhysicalInputDeviceView> {
    physical_from(devices, id, kind, 0)
}

/// The device that an identifier names and that gives input of a kind.
pub fn find_physical<'a>(devices: &'a [PhysicalInputDevice], id: &str, kind: InputKind) -> (r:
    Option<&'a PhysicalInputDevice>)
    ensures
        match r {
            Some(device) => physical(duplicate::views(devices@), id@, kind) == Some(device@),
            None => physical(duplicate::views(devices@), id@, kind) is None,
        },
{
    let ghost all = duplicate::views(devices@);
    let mut i: usize = 0;
    while i < devices.len()
        invariant
            i <= devices@.len(),
            all == duplicate::views(devices@),
            physical(all, id@, kind) == physical_from(all, id@, kind, i as int),
        decreases devices.len() - i,
    {
        let device = &devices[i];
        assert(all[i as int] == device@);
        let capable = match kind {
            InputKind::Keyboard => device.capabilities.keyboard,
            InputKind::Mouse => device.capabilities.mouse,
        };
        if device.is_named(id) && capable {
            return Some(device);
        }
        i += 1;
    }
    None
}

/// The keyboard and the mouse of a seat.
pub struct ActivationInputs<'a> {
    pub keyboard: &'a PhysicalInputDevice,
    pub mouse: &'a PhysicalInputDevice,
}

/// The model of [`ActivationInputs`].
#[verifier::ext_equal]
pub struct ActivationInputsView {
    pub keyboard: PhysicalInputDeviceView,
    pub mouse: PhysicalInputDeviceView,
}

impl<'a> View for ActivationInputs<'a> {
    type V = ActivationInputsView;

    open spec fn view(&self) -> ActivationInputsView {
        ActivationInputsView { keyboard: self.keyboard@, mouse: self.mouse@ }
    }
}

/// The view of inputs, or of why there are none.
pub open spec fn inputs_view(r: Result<ActivationInputs, String>) -> Result<
    ActivationInputsView,
    Text,
> {
    match r {
        Ok(inputs) => Ok(inputs@),
        Err(message) => Err(message@),
    }
}

/// The keyboard and the mouse of a seat, or why it has none.
pub open spec fn target_inputs(
    seat: Text,
    config: ApplicationConfigView,
    devices: Seq<PhysicalInputDeviceView>,
) -> Result<ActivationInputsView, Text> {
    match config.seat(seat) {
        None => Err("unknown seat '"@ + seat + "'"@),
        Some(found) => match found.devices.keyboard {
            None => Err("Barnen has no configured keyboard"@),
            Some(keyboard_id) => match found.devices.mouse {
                None => Err("Barnen has no configured mouse"@),
                Some(mouse_id) => match physical(devices, keyboard_id, InputKind::Keyboard) {
                    None => Err("Barnen keyboard '"@ + keyboard_id + "' is not present"@),
                    Some(keyboard) => match physical(devices, mouse_id, InputKind::Mouse) {
                        None => Err("Barnen mouse '"@ + mouse_id + "' is not present"@),
                        Some(mouse) => Ok(ActivationInputsView { keyboard, mouse }),
                    },
                },
            },
        },
    }
}

/// The keyboard and the mouse of a seat, or why it has none.
pub fn validate_target_inputs_only<'a>(
    seat_id: &SeatId,
    configuration: &ApplicationConfig,
    devices: &'a [PhysicalInputDevice],
) -> (r: Result<ActivationInputs<'a>, String>)
    ensures
        inputs_view(r) == target_inputs(seat_id@, configuration@, duplicate::views(devices@)),
{
    let seat = match configuration.find_seat(seat_id) {
        Some(seat) => seat,
        None => {
            return Err(concat3("unknown seat '", seat_id.0.as_str(), "'"));
        },
    };
    let keyboard_id = match &seat.devices.keyboard {
        Some(id) => id,
        None => {
            return Err("Barnen has no configured keyboard".to_owned());
        },
    };
    let mouse_id = match &seat.devices.mouse {
        Some(id) => id,
        None => {
            return Err("Barnen has no configured mouse".to_owned());
        },
    };
    let keyboard = match find_physical(devices, keyboard_id.0.as_str(), InputKind::Keyboard) {
        Some(device) => device,
        None => {
            return Err(
                concat3("Barnen keyboard '", keyboard_id.0.as_str(), "' is not present"),
            );
        },
    };
    let mouse = match find_physical(devices, mouse_id.0.as_str(), InputKind::Mouse) {
        Some(device) => device,
        None => {
            return Err(concat3("Barnen mouse '", mouse_id.0.as_str(), "' is not present"));
        },
    };
    Ok(ActivationInputs { keyboard, mouse })
}

/// Whether the host's devices and a seat's are different ones.
pub open spec fn inputs_apart(
    host_keyboard: Text,
    host_mouse: Text,
    inputs: ActivationInputsView,
) -> bool {
    !model::same_ignoring_case(host_keyboard, inputs.keyboard.id) && !model::same_ignoring_case(
        host_mouse,
        inputs.mouse.id,
    ) && !model::same_ignoring_case(host_keyboard, inputs.mouse.id) && !model::same_ignoring_case(
        host_mouse,
        inputs.keyboard.id,
    )
}

/// The inputs with which a seat may be started, or why it may not: it must not be the host's
/// own, must have a machine, a keyboard and a mouse, and the host must keep others.
pub open spec fn activation_inputs(
    seat: Text,
    config: ApplicationConfigView,
    devices: Seq<PhysicalInputDeviceView>,
) -> Result<ActivationInputsView, Text> {
    match config.seat_index(seat) {
        None => Err("unknown seat '"@ + seat + "'"@),
        Some(index) => if index == 0 {
            Err("the primary host seat cannot be started as the VirtualBox second seat"@)
        } else {
            match vm_of(config, seat) {
                Err(message) => Err(message),
                Ok(_) => match target_inputs(seat, config, devices) {
                    Err(message) => Err(message),
                    Ok(inputs) => match config.seats[0].devices.keyboard {
                        None => Err("Dennis must retain a configured keyboard"@),
                        Some(host_keyboard) => match config.seats[0].devices.mouse {
                            None => Err("Dennis must retain a configured mouse"@),
                            Some(host_mouse) => if inputs_apart(
                                host_keyboard,
                                host_mouse,
                                inputs,
                            ) {
                                Ok(inputs)
                            } else {
                                Err("a Barnen input device is also assigned to Dennis"@)
                            },
                        },
                    },
                },
            }
        },
    }
}

/// The inputs with which a seat may be started, or why it may not.
pub fn validate_activation<'a>(
    seat_id: &SeatId,
    configuration: &ApplicationConfig,
    devices: &'a [PhysicalInputDevice],
) -> (r: Result<ActivationInputs<'a>, String>)
    ensures
        inputs_view(r) == activation_inputs(seat_id@, configuration@, duplicate::views(devices@)),
{
    let index = match configuration.position_of(seat_id) {
        Some(index) => index,
        None => {
            return Err(concat3("unknown seat '", seat_id.0.as_str(), "'"));
        },
    };
    if index == 0 {
        return Err(
            "the primary host seat cannot be started as the VirtualBox second seat".to_owned(),
        );
    }
    if let Err(message) = configured_vm_id(seat_id, configuration) {
        return Err(message);
    }
    let inputs = match validate_target_inputs_only(seat_id, configuration, devices) {
        Ok(inputs) => inputs,
        Err(message) => {
            return Err(message);
        },
    };
    let host = &configuration.seats[0];
    assert(configuration@.seats[0] == host@);
    let host_keyboard = match &host.devices.keyboard {
        Some(id) => id,
        None => {
            return Err("Dennis must retain a configured keyboard".to_owned());
        },
    };
    let host_mouse = match &host.devices.mouse {
        Some(id) => id,
        None => {
            return Err("Dennis must retain a configured mouse".to_owned());
        },
    };
    if same_any_case(host_keyboard.0.as_str(), inputs.keyboard.id.as_str()) || same_any_case(
        host_mouse.0.as_str(),
        inputs.mouse.id.as_str(),
    ) || same_any_case(host_keyboard.0.as_str(), inputs.mouse.id.as_str()) || same_any_case(
        host_mouse.0.as_str(),
        inputs.keyboard.id.as_str(),
    ) {
        return Err("a Barnen input device is also assigned to Dennis".to_owned());
    }
    Ok(inputs)
}

/// That a device may be handed to a guest. A keyboard needs a record that says so.
pub open spec fn passthrough_allowed(
    config: ApplicationConfigView,
    device: PhysicalInputDeviceView,
    keyboard_capable: bool,
) -> Result<(), Text> {
    let safety = config.safety_of(device.id, DeviceRoutingBackend::VirtualBoxUsbPassthrough);
    if safety matches Some(record) && (record.safety == UsbPassthroughSafety::KnownProblematic
        || record.safety == UsbPassthroughSafety::Disabled) {
        Err(
            "VirtualBox USB passthrough is disabled for '"@ + device.id + "': "@
                + safety->Some_0.reason + ". Automatic retry is disabled"@,
        )
    } else if keyboard_capable && !(safety matches Some(record) && record.safety
        == UsbPassthroughSafety::Supported) {
        Err(
            "keyboard '"@ + device.id
                + "' is not explicitly cleared for VirtualBox USB passthrough; use native keyboard routing"@,
        )
    } else {
        Ok(())
    }
}

/// That a device may be handed to a guest.
pub fn ensure_usb_passthrough_allowed(
    configuration: &ApplicationConfig,
    physical: &PhysicalInputDevice,
    keyboard_capable: bool,
) -> (r: Result<(), String>)
    ensures
        model::with_message(r) == passthrough_allowed(
            configuration@,
            physical@,
            keyboard_capable,
        ),
{
    let safety = configuration.device_safety(
        physical.id.as_str(),
        DeviceRoutingBackend::VirtualBoxUsbPassthrough,
    );
    let mut cleared = false;
    if let Some(record) = safety {
        if record.safety == UsbPassthroughSafety::KnownProblematic || record.safety
            == UsbPassthroughSafety::Disabled {
            return Err(
                concat5(
                    "VirtualBox USB passthrough is disabled for '",
                    physical.id.as_str(),
                    "': ",
                    record.reason.as_str(),
                    ". Automatic retry is disabled",
                ),
            );
        }
        cleared = record.safety == UsbPassthroughSafety::Supported;
    }
    if keyboard_capable && !cleared {
        return Err(
            concat3(
                "keyboard '",
                physical.id.as_str(),
                "' is not explicitly cleared for VirtualBox USB passthrough; use native keyboard routing",
            ),
        );
    }
    Ok(())
}

// ---- Observing devices -----------------------------------------------------------------

/// What a state that VirtualBox reports means.
pub open spec fn health_of_state(state: Option<Text>) -> UsbRuntimeHealth {
    match state {
        None => UsbRuntimeHealth::Failed,
        Some(text) => {
            let lower = model::lower(text);
            if lower == "captured"@ || lower == "held"@ {
                UsbRuntimeHealth::Captured
            } else if lower == "busy"@ {
                UsbRuntimeHealth::HostBusy
            } else if lower == "available"@ || lower == "unavailable"@ {
                UsbRuntimeHealth::Released
            } else {
                UsbRuntimeHealth::Failed
            }
        },
    }
}

/// What a state that VirtualBox reports means.
pub fn usb_health_from_vbox_state(state: Option<&str>) -> (r: UsbRuntimeHealth)
    ensures
        r == health_of_state(model::opt_str(state)),
{
    match state {
        None => UsbRuntimeHealth::Failed,
        Some(text) => {
            let lower = to_lower(text);
            if same(lower.as_str(), "captured") || same(lower.as_str(), "held") {
                UsbRuntimeHealth::Captured
            } else if same(lower.as_str(), "busy") {
                UsbRuntimeHealth::HostBusy
            } else if same(lower.as_str(), "available") || same(lower.as_str(), "unavailable") {
                UsbRuntimeHealth::Released
            } else {
                UsbRuntimeHealth::Failed
            }
        },
    }
}

/// The first USB device at or after `from` with an identifier.
pub open spec fn usb_from(devices: Seq<VirtualBoxUsbDeviceView>, uuid: Text, from: int) -> Option<
    VirtualBoxUsbDeviceView,
>
    decreases devices.len() - from,
{
    if from < 0 || from >= devices.len() {
        None
    } else if devices[from].uuid == uuid {
        Some(devices[from])
    } else {
        usb_from(devices, uuid, from + 1)
    }
}

/// The USB device with an identifier.
pub open spec fn usb_device(devices: Seq<VirtualBoxUsbDeviceView>, uuid: Text) -> Option<
    VirtualBoxUsbDeviceView,
> {
    usb_from(devices, uuid, 0)
}

/// The USB device with an identifier.
pub fn find_usb<'a>(devices: &'a Vec<VirtualBoxUsbDevice>, uuid: &str) -> (r: Option<
    &'a VirtualBoxUsbDevice,
>)
    ensures
        match r {
            Some(device) => usb_device(duplicate::views(devices@), uuid@) == Some(device@),
            None => usb_device(duplicate::views(devices@), uuid@) is None,
        },
{
    let ghost all = duplicate::views(devices@);
    let mut i: usize = 0;
    while i < devices.len()
        invariant
            i <= devices@.len(),
            all == duplicate::views(devices@),
            usb_device(all, uuid@) == usb_from(all, uuid@, i as int),
        decreases devices.len() - i,
    {
        assert(all[i as int] == devices@[i as int]@);
        if same(devices[i].uuid.as_str(), uuid) {
            return Some(&devices[i]);
        }
        i += 1;
    }
    None
}

/// Whether the device that a device hangs on is known.
pub open spec fn parent_presence(device: PhysicalInputDeviceView) -> EvidencePresence {
    if device.usb_parent_instance_id is Some {
        EvidencePresence::Present
    } else {
        EvidencePresence::Unknown
    }
}

/// What is seen of a device that is there.
pub open spec fn observed_device(
    device: PhysicalInputDeviceView,
    status: VirtualBoxStatusView,
    after_attach: bool,
) -> UsbObservationView {
    let mapping = usb::correlated(device, status);
    let found = match mapping.matched_uuid {
        Some(uuid) => usb_device(status.usb_devices, uuid),
        None => None,
    };
    let current_state = match found {
        Some(usb) => usb.current_state,
        None => None,
    };
    UsbObservationView {
        windows_physical_device: EvidencePresence::Present,
        usb_parent: parent_presence(device),
        virtual_box_host_device: if found is Some {
            EvidencePresence::Present
        } else {
            EvidencePresence::Missing
        },
        resolved_usb_parent: device.usb_parent_instance_id,
        runtime_uuid: match found {
            Some(usb) => Some(usb.uuid),
            None => None,
        },
        runtime_address: match found {
            Some(usb) => usb.address,
            None => None,
        },
        current_state,
        mapping: Some(mapping.state),
        health: match mapping.state {
            UsbCorrelationState::Ambiguous => UsbRuntimeHealth::Ambiguous,
            UsbCorrelationState::Unavailable => if after_attach {
                UsbRuntimeHealth::DisappearedAfterAttach
            } else {
                UsbRuntimeHealth::NotResolved
            },
            _ => health_of_state(current_state),
        },
    }
}

/// What is seen of a device that is not there.
pub open spec fn disconnected() -> UsbObservationView {
    UsbObservationView {
        windows_physical_device: EvidencePresence::Missing,
        usb_parent: EvidencePresence::Unknown,
        virtual_box_host_device: EvidencePresence::Unknown,
        resolved_usb_parent: None,
        runtime_uuid: None,
        runtime_address: None,
        current_state: None,
        mapping: None,
        health: UsbRuntimeHealth::PhysicalDeviceDisconnected,
    }
}

/// What is seen of the device that an identifier names.
pub open spec fn observed(
    id: Text,
    kind: InputKind,
    devices: Seq<PhysicalInputDeviceView>,
    status: VirtualBoxStatusView,
    after_attach: bool,
) -> UsbObservationView {
    match physical(devices, id, kind) {
        None => disconnected(),
        Some(device) => observed_device(device, status, after_attach),
    }
}

/// What is seen of the device that an identifier names.
pub fn observe_usb_in_snapshot(
    physical_id: &str,
    kind: InputKind,
    devices: &[PhysicalInputDevice],
    status: &VirtualBoxStatus,
    after_attach: bool,
) -> (r: UsbObservation)
    ensures
        r@ == observed(physical_id@, kind, duplicate::views(devices@), status@, after_attach),
{
    let physical = match find_physical(devices, physical_id, kind) {
        Some(device) => device,
        None => {
            return UsbObservation {
                windows_physical_device: EvidencePresence::Missing,
                usb_parent: EvidencePresence::Unknown,
                virtual_box_host_device: EvidencePresence::Unknown,
                resolved_usb_parent: None,
                runtime_uuid: None,
                runtime_address: None,
                current_state: None,
                mapping: None,
                health: UsbRuntimeHealth::PhysicalDeviceDisconnected,
            };
        },
    };
    let mapping = correlate_usb_device(physical, status);
    let matched: Option<&VirtualBoxUsbDevice> = match &mapping.matched_uuid {
        Some(uuid) => find_usb(&status.usb_devices, uuid.as_str()),
        None => None,
    };
    let (runtime_uuid, runtime_address, current_state) = match matched {
        Some(device) => (
            Some(device.uuid.clone()),
            copy_opt(&device.address),
            copy_opt(&device.current_state),
        ),
        None => (None, None, None),
    };
    let health = match mapping.state {
        UsbCorrelationState::Ambiguous => UsbRuntimeHealth::Ambiguous,
        UsbCorrelationState::Unavailable => if after_attach {
            UsbRuntimeHealth::DisappearedAfterAttach
        } else {
            UsbRuntimeHealth::NotResolved
        },
        UsbCorrelationState::Exact => usb_health_from_vbox_state(
            as_opt_str(&current_state),
        ),
        UsbCorrelationState::Unambiguous => usb_health_from_vbox_state(
            as_opt_str(&current_state),
        ),
    };
    UsbObservation {
        windows_physical_device: EvidencePresence::Present,
        usb_parent: if physical.usb_parent_instance_id.is_some() {
            EvidencePresence::Present
        } else {
            EvidencePresence::Unknown
        },
        virtual_box_host_device: if matched.is_some() {
            EvidencePresence::Present
        } else {
            EvidencePresence::Missing
        },
        resolved_usb_parent: copy_opt(&physical.usb_parent_instance_id),
        runtime_uuid,
        runtime_address,
        current_state,
        mapping: Some(mapping.state),
        health,
    }
}

/// A correlation's state in a message.
pub open spec fn state_name(state: UsbCorrelationState) -> Text {
    match state {
        UsbCorrelationState::Exact => "Exact"@,
        UsbCorrelationState::Unambiguous => "Unambiguous"@,
        UsbCorrelationState::Ambiguous => "Ambiguous"@,
        UsbCorrelationState::Unavailable => "Unavailable"@,
    }
}

/// The identifier of a device that was found for sure.
pub open spec fn safe_uuid(mapping: UsbCorrelationView, label: Text) -> Result<Text, Text> {
    if mapping.state == UsbCorrelationState::Exact || mapping.state
        == UsbCorrelationState::Unambiguous {
        match mapping.matched_uuid {
            Some(uuid) => Ok(uuid),
            None => Err(label + " mapping has no runtime UUID"@),
        }
    } else {
        Err(
            label + " could not be resolved safely: "@ + state_name(mapping.state) + ": "@
                + mapping.reason,
        )
    }
}

/// The identifier of a device that was found for sure.
pub fn acceptable_uuid(mapping: &UsbCorrelation, label: &str) -> (r: Result<String, String>)
    ensures
        model::text_result(r) == safe_uuid(mapping@, label@),
{
    let name = match mapping.state {
        UsbCorrelationState::Exact => "Exact",
        UsbCorrelationState::Unambiguous => "Unambiguous",
        UsbCorrelationState::Ambiguous => "Ambiguous",
        UsbCorrelationState::Unavailable => "Unavailable",
    };
    if mapping.state != UsbCorrelationState::Exact && mapping.state
        != UsbCorrelationState::Unambiguous {
        return Err(
            concat5(label, " could not be resolved safely: ", name, ": ", mapping.reason.as_str()),
        );
    }
    match &mapping.matched_uuid {
        Some(uuid) => Ok(uuid.clone()),
        None => Err(concat2(label, " mapping has no runtime UUID")),
    }
}

// ---- Reporting on keyboard and mouse ---------------------------------------------------

/// What is known of the safety of a device without a record.
pub open spec fn default_safety(strategy: InputRoutingStrategy) -> UsbPassthroughSafety {
    if strategy == InputRoutingStrategy::VirtualBoxUsbPassthrough {
        UsbPassthroughSafety::Unverified
    } else {
        UsbPassthroughSafety::Disabled
    }
}

fn safety_default(strategy: InputRoutingStrategy) -> (r: UsbPassthroughSafety)
    ensures
        r == default_safety(strategy),
{
    if strategy == InputRoutingStrategy::VirtualBoxUsbPassthrough {
        UsbPassthroughSafety::Unverified
    } else {
        UsbPassthroughSafety::Disabled
    }
}

/// What is reported of a device while its seat is being started.
pub open spec fn pending(
    id: Option<Text>,
    strategy: InputRoutingStrategy,
    record: RuntimeRecordView,
) -> RuntimeComponentStatusView {
    RuntimeComponentStatusView {
        configured: id is Some,
        attached: false,
        physical_device_id: id,
        runtime_uuid: None,
        mapping: None,
        usb: runtime::no_diagnostic(),
        routing_strategy: strategy,
        routing_status: match strategy {
            InputRoutingStrategy::NativeKeyboardRouting => record.keyboard_routing_status,
            InputRoutingStrategy::VirtualBoxUsbPassthrough =>
                InputRoutingRuntimeStatus::NotImplemented,
            InputRoutingStrategy::Disabled => InputRoutingRuntimeStatus::Disabled,
        },
        successful_guest_sends: None,
        usb_passthrough_safety: default_safety(strategy),
        safety_reason: None,
    }
}

/// What is reported of a device while its seat is being started.
pub fn pending_component(
    id: Option<String>,
    routing_strategy: InputRoutingStrategy,
    record: &RuntimeRecord,
) -> (r: RuntimeComponentStatus)
    ensures
        r@ == pending(model::opt_text(id), routing_strategy, record@),
{
    RuntimeComponentStatus {
        configured: id.is_some(),
        attached: false,
        physical_device_id: id,
        runtime_uuid: None,
        mapping: None,
        usb: RuntimeUsbDiagnostic::default(),
        routing_strategy,
        routing_status: match routing_strategy {
            InputRoutingStrategy::NativeKeyboardRouting => record.keyboard_routing_status,
            InputRoutingStrategy::VirtualBoxUsbPassthrough =>
                InputRoutingRuntimeStatus::NotImplemented,
            InputRoutingStrategy::Disabled => InputRoutingRuntimeStatus::Disabled,
        },
        successful_guest_sends: None,
        usb_passthrough_safety: safety_default(routing_strategy),
        safety_reason: None,
    }
}

/// The place of the first attachment of a kind at or after `from`.
pub open spec fn attachment_index_from(
    attached: Seq<ManagedAttachmentView>,
    kind: InputKind,
    from: int,
) -> Option<int>
    decreases attached.len() - from,
{
    if from < 0 || from >= attached.len() {
        None
    } else if attached[from].kind == kind {
        Some(from)
    } else {
        attachment_index_from(attached, kind, from + 1)
    }
}

/// The place of the attachment of a kind.
pub open spec fn attachment_index(attached: Seq<ManagedAttachmentView>, kind: InputKind) -> Option<
    int,
> {
    attachment_index_from(attached, kind, 0)
}

/// The attachment of a kind.
pub open spec fn attachment(attached: Seq<ManagedAttachmentView>, kind: InputKind) -> Option<
    ManagedAttachmentView,
> {
    match attachment_index(attached, kind) {
        Some(i) => Some(attached[i]),
        None => None,
    }
}

/// The place of the attachment of a kind.
pub fn find_attachment(attached: &Vec<ManagedAttachment>, kind: InputKind) -> (r: Option<usize>)
    ensures
        match r {
            Some(i) => i < attached@.len() && attachment_index(duplicate::views(attached@), kind)
                == Some(i as int),
            None => attachment_index(duplicate::views(attached@), kind) is None,
        },
{
    let ghost all = duplicate::views(attached@);
    let mut i: usize = 0;
    while i < attached.len()
        invariant
            i <= attached@.len(),
            all == duplicate::views(attached@),
            attachment_index(all, kind) == attachment_index_from(all, kind, i as int),
        decreases attached.len() - i,
    {
        assert(all[i as int] == attached@[i as int]@);
        if attached[i].kind == kind {
            return Some(i);
        }
        i += 1;
    }
    None
}

/// What was looked up about a device: an observation, nothing, or why there is none.
pub type Looked = Result<Option<UsbObservationView>, Text>;

/// The view of what was looked up about a device.
pub open spec fn looked_view(r: Result<Option<UsbObservation>, String>) -> Looked {
    match r {
        Ok(observation) => Ok(duplicate::opt_view(observation)),
        Err(message) => Err(message@),
    }
}

/// What is known of a device with what was looked up taken in.
pub open spec fn refreshed(
    usb: RuntimeUsbDiagnosticView,
    observation: Looked,
) -> RuntimeUsbDiagnosticView {
    match observation {
        Ok(Some(seen)) => RuntimeUsbDiagnosticView {
            windows_physical_device: seen.windows_physical_device,
            usb_parent: seen.usb_parent,
            virtual_box_host_device: seen.virtual_box_host_device,
            resolved_usb_parent: seen.resolved_usb_parent,
            runtime_uuid: seen.runtime_uuid,
            runtime_address: seen.runtime_address,
            current_virtual_box_state: seen.current_state,
            health: seen.health,
            probe_error: None,
            ..usb
        },
        Ok(None) => usb,
        Err(error) => RuntimeUsbDiagnosticView {
            health: UsbRuntimeHealth::Failed,
            probe_error: Some(error),
            ..usb
        },
    }
}

/// What is known of a device from what is remembered of its seat.
pub open spec fn remembered(
    id: Option<Text>,
    kind: InputKind,
    record: RuntimeRecordView,
    devices: Seq<PhysicalInputDeviceView>,
) -> RuntimeUsbDiagnosticView {
    match attachment(record.attached, kind) {
        Some(item) => item.diagnostic,
        None => RuntimeUsbDiagnosticView {
            windows_physical_device: match id {
                Some(text) => if physical(devices, text, kind) is Some {
                    EvidencePresence::Present
                } else {
                    EvidencePresence::Missing
                },
                None => EvidencePresence::Unknown,
            },
            ..runtime::no_diagnostic()
        },
    }
}

/// What is reported of the keyboard or the mouse of a seat.
pub open spec fn component(
    id: Option<Text>,
    kind: InputKind,
    record: RuntimeRecordView,
    devices: Seq<PhysicalInputDeviceView>,
    observation: Looked,
    strategy: InputRoutingStrategy,
    safety: Option<DeviceBackendSafetyRecordView>,
) -> RuntimeComponentStatusView {
    let item = attachment(record.attached, kind);
    let usb = refreshed(remembered(id, kind, record, devices), observation);
    let attached = usb.health == UsbRuntimeHealth::Captured;
    let remembered_mapping = match item {
        Some(found) => Some(found.mapping),
        None => None,
    };
    RuntimeComponentStatusView {
        configured: id matches Some(text) && physical(devices, text, kind) is Some,
        attached,
        physical_device_id: id,
        runtime_uuid: match usb.runtime_uuid {
            Some(uuid) => Some(uuid),
            None => match item {
                Some(found) => Some(found.runtime_uuid),
                None => None,
            },
        },
        mapping: match observation {
            Ok(Some(seen)) => if seen.mapping is Some {
                seen.mapping
            } else {
                remembered_mapping
            },
            _ => remembered_mapping,
        },
        usb,
        routing_strategy: strategy,
        routing_status: match strategy {
            InputRoutingStrategy::VirtualBoxUsbPassthrough => if attached {
                InputRoutingRuntimeStatus::Active
            } else {
                InputRoutingRuntimeStatus::Error
            },
            InputRoutingStrategy::NativeKeyboardRouting =>
                InputRoutingRuntimeStatus::PrototypeInactive,
            InputRoutingStrategy::Disabled => InputRoutingRuntimeStatus::Disabled,
        },
        successful_guest_sends: None,
        usb_passthrough_safety: match safety {
            Some(found) => found.safety,
            None => default_safety(strategy),
        },
        safety_reason: match safety {
            Some(found) => Some(found.reason),
            None => None,
        },
    }
}

/// What is reported of the keyboard or the mouse of a seat.
pub fn component_status(
    id: Option<String>,
    kind: InputKind,
    record: &RuntimeRecord,
    devices: &[PhysicalInputDevice],
    observation: Result<Option<UsbObservation>, String>,
    routing_strategy: InputRoutingStrategy,
    safety_record: Option<&DeviceBackendSafetyRecord>,
) -> (r: RuntimeComponentStatus)
    ensures
        r@ == component(
            model::opt_text(id),
            kind,
            record@,
            duplicate::views(devices@),
            looked_view(observation),
            routing_strategy,
            match safety_record {
                Some(found) => Some(found@),
                None => None,
            },
        ),
{
    let present = match &id {
        Some(text) => find_physical(devices, text.as_str(), kind).is_some(),
        None => false,
    };
    let mut mapping: Option<UsbCorrelationState> = None;
    let mut remembered_uuid: Option<String> = None;
    let mut usb = match find_attachment(&record.attached, kind) {
        Some(i) => {
            let item = &record.attached[i];
            assert(record@.attached[i as int] == item@);
            mapping = Some(item.mapping);
            remembered_uuid = Some(item.runtime_uuid.clone());
            item.diagnostic.duplicate()
        },
        None => {
            let mut blank = RuntimeUsbDiagnostic::default();
            blank.windows_physical_device =
            if present {
                EvidencePresence::Present
            } else if id.is_some() {
                EvidencePresence::Missing
            } else {
                EvidencePresence::Unknown
            };
            blank
        },
    };
    match observation {
        Ok(Some(seen)) => {
            usb.windows_physical_device = seen.windows_physical_device;
            usb.usb_parent = seen.usb_parent;
            usb.virtual_box_host_device = seen.virtual_box_host_device;
            usb.resolved_usb_parent = seen.resolved_usb_parent;
            usb.runtime_uuid = seen.runtime_uuid;
            usb.runtime_address = seen.runtime_address;
            usb.current_virtual_box_state = seen.current_state;
            usb.health = seen.health;
            usb.probe_error = None;
            if seen.mapping.is_some() {
                mapping = seen.mapping;
            }
        },
        Ok(None) => {},
        Err(error) => {
            usb.health = UsbRuntimeHealth::Failed;
            usb.probe_error = Some(error);
        },
    }
    let attached = usb.health == UsbRuntimeHealth::Captured;
    let routing_status = match routing_strategy {
        InputRoutingStrategy::VirtualBoxUsbPassthrough => if attached {
            InputRoutingRuntimeStatus::Active
        } else {
            InputRoutingRuntimeStatus::Error
        },
        InputRoutingStrategy::NativeKeyboardRouting => InputRoutingRuntimeStatus::PrototypeInactive,
        InputRoutingStrategy::Disabled => InputRoutingRuntimeStatus::Disabled,
    };
    let (usb_passthrough_safety, safety_reason) = match safety_record {
        Some(found) => (found.safety, Some(found.reason.clone())),
        None => (safety_default(routing_strategy), None),
    };
    let runtime_uuid = match &usb.runtime_uuid {
        Some(uuid) => Some(uuid.clone()),
        None => remembered_uuid,
    };
    RuntimeComponentStatus {
        configured: present,
        attached,
        physical_device_id: id,
        runtime_uuid,
        mapping,
        usb,
        routing_strategy,
        routing_status,
        successful_guest_sends: None,
        usb_passthrough_safety,
        safety_reason,
    }
}

} // verus!
