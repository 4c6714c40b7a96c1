//! What a report of a seat never claims.
use super::presentation::PresentationState;
use super::runtime::{
    InputKind, ManagedSeatDisplayMode, MouseIsolationStatus, RuntimeRecordView, UsbRuntimeHealth,
};
use super::seat_rules;
use super::status;
use super::status::Findings;
use crate::devices::PhysicalInputDeviceView;
use crate::seats::{ApplicationConfigView, InputRoutingRuntimeStatus, InputRoutingStrategy};
use crate::text::model;
use crate::text::model::Text;
use crate::virtualization::SeatRuntimeStatus;
use crate::virtualization::usb;
use crate::virtualization::usb::VirtualBoxStatusView;
use vstd::prelude::*;

verus! {

/// A seat whose start is not under way is reported as running only where everything is in
/// place: its machine runs, nothing went wrong, keyboard and mouse are active, the host's own
/// keyboard and mouse have not been taken, and, for a managed machine, the mouse is isolated and
/// the machine's window stands on its display.
pub proof fn law_running_means_everything_is_in_place(
    seat: Text,
    config: ApplicationConfigView,
    devices: Seq<PhysicalInputDeviceView>,
    record: RuntimeRecordView,
    found: Findings,
)
    requires
        record.transitional is None,
        status::snapshot_of(seat, config, devices, record, found).status
            == SeatRuntimeStatus::Running,
    ensures
        ({
            let snapshot = status::snapshot_of(seat, config, devices, record, found);
            &&& config.machine(seat) is Some
            &&& record.last_error is None
            &&& model::is_ignoring_case(found.vm_state, "running"@)
            &&& snapshot.keyboard.routing_status == InputRoutingRuntimeStatus::Active
            &&& snapshot.mouse.routing_status == InputRoutingRuntimeStatus::Active
            &&& !snapshot.input_isolation.dennis_keyboard_attached
            &&& !snapshot.input_isolation.dennis_mouse_attached
            &&& config.is_managed(seat) ==> {
                &&& snapshot.input_isolation.mouse_isolation == MouseIsolationStatus::Active
                &&& snapshot.display_presentation.state == PresentationState::Presented
            }
        }),
{
}

/// The mouse of a seat is reported as isolated only while the seat is locked, its mouse is
/// attached, the machine's window does not capture the host's mouse, focus is protected, and the
/// host's own mouse has not been taken.
pub proof fn law_isolation_is_never_claimed_too_early(
    seat: Text,
    config: ApplicationConfigView,
    devices: Seq<PhysicalInputDeviceView>,
    record: RuntimeRecordView,
    found: Findings,
)
    requires
        status::snapshot_of(seat, config, devices, record, found).input_isolation.mouse_isolation
            == MouseIsolationStatus::Active,
    ensures
        ({
            let snapshot = status::snapshot_of(seat, config, devices, record, found);
            &&& config.is_managed(seat)
            &&& record.display_mode == ManagedSeatDisplayMode::SeatDisplayLocked
            &&& snapshot.mouse.attached
            &&& snapshot.input_isolation.mouse_capture_disabled
            &&& snapshot.input_isolation.mouse_capture_policy_error is None
            &&& found.focus.active && found.focus.locked
            &&& !snapshot.input_isolation.dennis_mouse_attached
        }),
{
}

/// A device that is handed to the guest is reported as attached only where VirtualBox lists it
/// as captured, whatever was accepted before: a device that was attached and has vanished since
/// is not.
pub proof fn law_an_attached_device_is_captured(
    seat: Text,
    config: ApplicationConfigView,
    kind: InputKind,
    devices: Seq<PhysicalInputDeviceView>,
    listed: VirtualBoxStatusView,
    record: RuntimeRecordView,
    id: Text,
)
    requires
        seat_rules::device_of(config, seat, kind) == Some(id),
        status::component_of(
            seat,
            config,
            kind,
            InputRoutingStrategy::VirtualBoxUsbPassthrough,
            devices,
            Ok(listed),
            record,
        ).attached,
    ensures
        seat_rules::physical(devices, id, kind) matches Some(device) && {
            let mapping = usb::correlated(device, listed);
            &&& mapping.matched_uuid matches Some(uuid) && seat_rules::usb_device(
                listed.usb_devices,
                uuid,
            ) matches Some(entry) && seat_rules::health_of_state(entry.current_state)
                == UsbRuntimeHealth::Captured
        },
{
}

} // verus!
