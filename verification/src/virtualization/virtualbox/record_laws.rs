//! What is remembered and reported of a seat, said of what was done and of what was seen.
use super::activation;
use super::creation;
use super::creation::{Build, ManagedWindowsVmProfileView};
use super::install_config::WindowsInstallConfigView;
use super::focus_protection::FocusProtectionStatusView;
use super::installation;
use super::isolation;
use super::mouse_integration::MouseIntegrationState;
use super::presentation::PresentationState;
use super::runtime::{
    InputKind, ManagedAttachmentView, ManagedSeatDisplayMode, MouseIsolationStatus,
    RuntimeRecordView,
    UsbObservationView, UsbRuntimeHealth,
};
use super::seat_rules;
use super::seat_rules::Looked;
use super::service;
use super::service::{Request, Run};
use super::status;
use super::usb_attachment;
use crate::devices::PhysicalInputDeviceView;
use crate::paths;
use crate::seats::{
    ApplicationConfigView, DeviceBackendSafetyRecordView, GuestAdditionsInstallState,
    InputRoutingRuntimeStatus, InputRoutingStrategy, ManagedInstallState, ManagedVmStatus,
    UsbPassthroughSafety, WindowsInstallationStatus,
};
use crate::text::model;
use crate::text::model::Text;
use crate::virtualization::SeatRuntimeStatus;
use vstd::prelude::*;

verus! {

// ---- Records ---------------------------------------------------------------------------

/// Whether a step changed what is remembered of one seat at most, and asked nothing.
pub open spec fn changes_only(before: Run, after: Run, seat: Text) -> bool {
    &&& after.requests == before.requests
    &&& after.oracle == before.oracle
    &&& forall|other: Text|
        other != seat ==> #[trigger] service::record_of(after, other) == service::record_of(
            before,
            other,
        )
}

/// What was done for a seat is noted last in its log, as it was told, after all that was noted
/// before.
pub proof fn law_what_was_done_is_noted(
    w: Run,
    seat: Text,
    action: Text,
    outcome: Text,
    physical: Option<Text>,
    uuid: Option<Text>,
    detail: Text,
)
    ensures
        ({
            let after = service::log_p(w, seat, action, outcome, physical, uuid, detail);
            let before = service::record_of(w, seat);
            let record = service::record_of(after, seat);
            let entry = record.logs.last();
            &&& changes_only(w, after, seat)
            &&& record.logs.len() == before.logs.len() + 1
            &&& record.logs.drop_last() == before.logs
            &&& entry.action == action
            &&& entry.outcome == outcome
            &&& entry.physical_device_id == physical
            &&& entry.runtime_uuid == uuid
            &&& entry.detail == detail
            &&& record == (RuntimeRecordView { logs: record.logs, ..before })
        }),
{
    let after = service::log_p(w, seat, action, outcome, physical, uuid, detail);
    assert(service::record_of(after, seat).logs.drop_last() =~= service::record_of(w, seat).logs);
}

/// A stage of a start is noted last in the trace of its seat, with what was told of it and the
/// moment of the clock. The trace keeps its newest 128 stages.
pub proof fn law_a_stage_is_noted(
    w: Run,
    seat: Text,
    stage: Text,
    detail: Option<Text>,
    error: Option<Text>,
    duration_ms: Option<u64>,
    exit_status: Option<i32>,
)
    ensures
        ({
            let after = service::trace_p(w, seat, stage, detail, error, duration_ms, exit_status);
            let before = service::record_of(w, seat);
            let record = service::record_of(after, seat);
            let entry = record.startup_trace.last();
            let clock = (after.oracle)(after.requests.len() - 1)->Clock_0;
            &&& after.requests.last() matches Request::Clock(started) && record.startup_started
                == Some(started)
            &&& before.startup_started is Some ==> record.startup_started == before.startup_started
                && after.requests.len() == w.requests.len() + 1
            &&& entry.stage == stage
            &&& entry.detail == detail
            &&& entry.error == error
            &&& entry.duration_ms == duration_ms
            &&& entry.exit_status == exit_status
            &&& entry.timestamp_ms == clock.timestamp_ms
            &&& entry.elapsed_ms == clock.elapsed_ms
            &&& before.startup_trace.len() < 128 ==> record.startup_trace.drop_last()
                == before.startup_trace
            &&& before.startup_trace.len() >= 128 ==> record.startup_trace.drop_last()
                == before.startup_trace.skip(1)
            &&& record == (RuntimeRecordView {
                startup_started: record.startup_started,
                startup_trace: record.startup_trace,
                ..before
            })
        }),
{
    let after = service::trace_p(w, seat, stage, detail, error, duration_ms, exit_status);
    let before = service::record_of(w, seat);
    let record = service::record_of(after, seat);
    if before.startup_trace.len() < 128 {
        assert(record.startup_trace.drop_last() =~= before.startup_trace);
    } else {
        assert(record.startup_trace.drop_last() =~= before.startup_trace.skip(1));
    }
}

/// An error of a seat is remembered as its last one, and the seat is in error.
pub proof fn law_an_error_is_remembered(w: Run, seat: Text, error: Text)
    ensures
        ({
            let after = isolation::record_error_p(w, seat, error);
            let before = service::record_of(w, seat);
            let record = service::record_of(after, seat);
            &&& changes_only(w, after, seat)
            &&& record.last_error == Some(error)
            &&& record.transitional == Some(SeatRuntimeStatus::Error)
            &&& record == (RuntimeRecordView {
                last_error: record.last_error,
                transitional: record.transitional,
                ..before
            })
        }),
{
}

/// How a keyboard is routed is remembered as it was told, and noted as active exactly where the
/// routing is at work.
pub proof fn law_routing_is_remembered(
    w: Run,
    seat: Text,
    status: InputRoutingRuntimeStatus,
    detail: Text,
)
    ensures
        ({
            let after = isolation::keyboard_routing_p(w, seat, status, detail);
            let record = service::record_of(after, seat);
            let works = status == InputRoutingRuntimeStatus::Active || status
                == InputRoutingRuntimeStatus::PrototypeActive;
            &&& changes_only(w, after, seat)
            &&& record.keyboard_routing_status == status
            &&& record.logs.len() == service::record_of(w, seat).logs.len() + 1
            &&& record.logs.last().action == "keyboard-routing"@
            &&& works ==> record.logs.last().outcome == "active"@
            &&& !works ==> record.logs.last().outcome == "error"@
            &&& record.logs.last().detail == detail
        }),
{
}

/// Which mode a seat's display is in is remembered as it was told, and nothing else changes.
pub proof fn law_the_mode_is_remembered(w: Run, seat: Text, mode: ManagedSeatDisplayMode)
    ensures
        ({
            let after = activation::note_display_mode(w, seat, mode);
            let record = service::record_of(after, seat);
            &&& changes_only(w, after, seat)
            &&& record.display_mode == mode
            &&& record == (RuntimeRecordView { display_mode: mode, ..service::record_of(w, seat) })
        }),
{
}

/// An attached device is noted as having got to the guest exactly where VirtualBox holds it.
pub proof fn law_an_attachment_is_verified_by_what_was_seen(
    w: Run,
    seat: Text,
    id: Text,
    seen: UsbObservationView,
)
    ensures
        ({
            let after = usb_attachment::verified_p(w, seat, id, seen);
            let entry = service::record_of(after, seat).logs.last();
            &&& changes_only(w, after, seat)
            &&& entry.action == "usb-verify"@
            &&& entry.physical_device_id == Some(id)
            &&& entry.runtime_uuid == seen.runtime_uuid
            &&& seen.health == UsbRuntimeHealth::Captured ==> entry.outcome == "success"@
            &&& seen.health != UsbRuntimeHealth::Captured ==> entry.outcome == "unhealthy"@
        }),
{
}

// ---- Reports ---------------------------------------------------------------------------

/// What is reported of a device is what was seen of it now, each thing as it was seen, and that it
/// could not be seen where it could not.
pub proof fn law_a_device_is_reported_as_it_was_seen(
    id: Option<Text>,
    kind: InputKind,
    record: RuntimeRecordView,
    devices: Seq<PhysicalInputDeviceView>,
    observation: Looked,
    strategy: InputRoutingStrategy,
    safety: Option<DeviceBackendSafetyRecordView>,
)
    ensures
        ({
            let told = seat_rules::component(
                id,
                kind,
                record,
                devices,
                observation,
                strategy,
                safety,
            );
            &&& observation matches Ok(Some(seen)) ==> {
                &&& told.usb.windows_physical_device == seen.windows_physical_device
                &&& told.usb.usb_parent == seen.usb_parent
                &&& told.usb.virtual_box_host_device == seen.virtual_box_host_device
                &&& told.usb.resolved_usb_parent == seen.resolved_usb_parent
                &&& told.usb.runtime_uuid == seen.runtime_uuid
                &&& told.usb.runtime_address == seen.runtime_address
                &&& told.usb.current_virtual_box_state == seen.current_state
                &&& told.usb.health == seen.health
                &&& told.usb.probe_error is None
                &&& seen.runtime_uuid is Some ==> told.runtime_uuid == seen.runtime_uuid
                &&& seen.mapping is Some ==> told.mapping == seen.mapping
            }
            &&& observation matches Err(error) ==> told.usb.health == UsbRuntimeHealth::Failed
                && told.usb.probe_error == Some(error) && !told.attached
            &&& told.physical_device_id == id
            &&& told.routing_strategy == strategy
            &&& told.attached <==> told.usb.health == UsbRuntimeHealth::Captured
        }),
{
}

/// Of a device of which nothing was seen now, what is remembered of its attachment is reported:
/// the first attachment of its kind.
pub proof fn law_an_attachment_is_reported_as_remembered(
    id: Option<Text>,
    kind: InputKind,
    record: RuntimeRecordView,
    devices: Seq<PhysicalInputDeviceView>,
    strategy: InputRoutingStrategy,
    safety: Option<DeviceBackendSafetyRecordView>,
    i: int,
)
    requires
        0 <= i < record.attached.len(),
        record.attached[i].kind == kind,
        forall|j: int| 0 <= j < i ==> (#[trigger] record.attached[j]).kind != kind,
    ensures
        ({
            let told = seat_rules::component(
                id,
                kind,
                record,
                devices,
                Ok(None),
                strategy,
                safety,
            );
            let item = record.attached[i];
            &&& told.usb == item.diagnostic
            &&& told.mapping == Some(item.mapping)
            &&& told.runtime_uuid == (if item.diagnostic.runtime_uuid is Some {
                item.diagnostic.runtime_uuid
            } else {
                Some(item.runtime_uuid)
            })
        }),
{
    lemma_attachment(record.attached, kind, 0, i);
}

proof fn lemma_attachment(
    attached: Seq<ManagedAttachmentView>,
    kind: InputKind,
    from: int,
    i: int,
)
    requires
        0 <= from <= i < attached.len(),
        attached[i].kind == kind,
        forall|j: int| 0 <= j < i ==> (#[trigger] attached[j]).kind != kind,
    ensures
        seat_rules::attachment_index_from(attached, kind, from) == Some(i),
    decreases i - from,
{
    if from < i {
        assert(attached[from].kind != kind);
        lemma_attachment(attached, kind, from + 1, i);
    }
}

/// Whether a device is safe to hand to a guest is what its record says, with the record's reason.
/// Without a record a device that would be handed over is not verified, and for others it does not
/// matter.
pub proof fn law_safety_is_reported_from_its_record(
    id: Option<Text>,
    kind: InputKind,
    record: RuntimeRecordView,
    devices: Seq<PhysicalInputDeviceView>,
    observation: Looked,
    strategy: InputRoutingStrategy,
    safety: Option<DeviceBackendSafetyRecordView>,
)
    ensures
        ({
            let told = seat_rules::component(
                id,
                kind,
                record,
                devices,
                observation,
                strategy,
                safety,
            );
            let bare = if strategy == InputRoutingStrategy::VirtualBoxUsbPassthrough {
                UsbPassthroughSafety::Unverified
            } else {
                UsbPassthroughSafety::Disabled
            };
            &&& safety matches Some(found) ==> told.usb_passthrough_safety == found.safety
                && told.safety_reason == Some(found.reason)
            &&& safety is None ==> told.usb_passthrough_safety == bare && told.safety_reason is None
            &&& seat_rules::pending(id, strategy, record).usb_passthrough_safety == bare
            &&& !seat_rules::pending(id, strategy, record).attached
            &&& seat_rules::pending(id, strategy, record).physical_device_id == id
            &&& seat_rules::pending(id, strategy, record).configured == (id is Some)
        }),
{
}

/// A seat whose start was accepted is reported as starting, with its own machine, its own display
/// and its own devices, and nothing of it as attached yet.
pub proof fn law_an_accepted_start_is_reported(
    seat: Text,
    config: ApplicationConfigView,
    record: RuntimeRecordView,
)
    ensures
        ({
            let told = isolation::accepted_snapshot(seat, config, record);
            &&& told.seat_id == seat
            &&& told.status == SeatRuntimeStatus::Starting
            &&& told.vm_id is Some <==> config.machines.contains_key(seat)
            &&& told.vm_id is Some ==> told.vm_id->0 == config.machines[seat].vm_id
            &&& !told.vm_started_by_multiseat
            &&& !told.keyboard.attached && !told.mouse.attached
            &&& told.keyboard.physical_device_id == seat_rules::device_of(
                config,
                seat,
                InputKind::Keyboard,
            )
            &&& told.mouse.physical_device_id == seat_rules::device_of(
                config,
                seat,
                InputKind::Mouse,
            )
            &&& told.keyboard.routing_strategy == config.routing_of(seat).keyboard
            &&& told.mouse.routing_strategy == config.routing_of(seat).mouse
            &&& told.display_presentation.assigned_display_id == seat_rules::display_of(
                config,
                seat,
            )
            &&& told.display_presentation.state == PresentationState::WaitingForVmWindow
            &&& told.startup_trace == record.startup_trace
            &&& told.logs == record.logs
        }),
{
}

/// The mouse of a seat whose window is not closed to the host, or that is not managed, is not
/// isolated. Where it is closed, an error of the policy is one of the isolation, and a mouse that
/// is not isolated counts as unverified exactly where it is not known how it is integrated.
pub proof fn law_isolation_is_unverified_where_nothing_is_known(
    managed: bool,
    record: RuntimeRecordView,
    policy: status::Policy,
    mouse_attached: bool,
    focus: FocusProtectionStatusView,
    host_mouse_captured: bool,
)
    ensures
        ({
            let told = status::mouse_isolation_of(
                managed,
                record,
                policy,
                mouse_attached,
                focus,
                host_mouse_captured,
            );
            let closed = managed && record.display_mode
                == ManagedSeatDisplayMode::SeatDisplayLocked;
            let observed = record.mouse_integration.observed;
            &&& !closed ==> told == MouseIsolationStatus::Inactive
            &&& closed ==> (told == MouseIsolationStatus::Error <==> status::policy_error(
                policy,
            ) is Some)
            &&& closed && status::policy_error(policy) is None && observed
                == MouseIntegrationState::Unknown ==> told == MouseIsolationStatus::Unverified
            &&& closed && status::policy_error(policy) is None && observed
                == MouseIntegrationState::Enabled ==> told == MouseIsolationStatus::Inactive
            &&& told == MouseIsolationStatus::Active ==> mouse_attached && focus.active
                && focus.locked && !host_mouse_captured && observed
                == MouseIntegrationState::Disabled
        }),
{
}

// ---- Installations ---------------------------------------------------------------------

/// An installation that was started is recorded as being done, on the version and the guest system
/// of its profile, with the names that it was given and the Guest Additions exactly where they are
/// wanted. Nothing is known of it yet.
pub proof fn law_a_started_installation_is_recorded(
    config: WindowsInstallConfigView,
    profile: ManagedWindowsVmProfileView,
)
    ensures
        ({
            let made = installation::started_installation(config, profile);
            &&& made.windows_version == profile.windows_version
            &&& made.virtual_box_os_type_id == profile.virtual_box_os_type_id
            &&& made.computer_name == model::trimmed(config.computer_name)
            &&& made.domain_name == model::lower(model::trimmed(config.domain_name))
            &&& made.state == ManagedInstallState::InstallingWindows
            &&& config.install_guest_additions ==> made.guest_additions
                == GuestAdditionsInstallState::Installing
            &&& !config.install_guest_additions ==> made.guest_additions
                == GuestAdditionsInstallState::NotInstalled
            &&& made.guest_additions_version is None
            &&& made.last_error is None
            &&& made.observed.windows == WindowsInstallationStatus::Installing
            &&& made.observed.managed == ManagedVmStatus::Installing
            &&& made.observed.evidence.guest_os_product is None
            &&& made.observed.evidence.runlevel_probes.len() == 0
        }),
{
}

/// The image of the Guest Additions is looked for in the directory of the program, under its name,
/// and is used exactly where it is there.
pub proof fn law_guest_additions_stand_next_to_the_program(w: Run, program: Text)
    ensures
        ({
            let (after, found) = creation::additions_iso_p(w, program);
            &&& paths::parent(program) is None ==> found is None && after == w
            &&& paths::parent(program) matches Some(directory) ==> {
                let path = paths::joined(directory, "VBoxGuestAdditions.iso"@);
                &&& after.requests == w.requests.push(Request::IsFile(path))
                &&& (w.oracle)(w.requests.len() as int)->Flag_0 ==> found == Some(path)
                &&& !(w.oracle)(w.requests.len() as int)->Flag_0 ==> found is None
            }
        }),
{
}

/// A creation goes on only where every machine that there is could be listed.
pub proof fn law_an_incomplete_list_stops_a_creation(build: Build, name: Text)
    ensures
        ({
            let listed = service::list_vms_p(build.w).1;
            let (after, checked) = creation::check_existing_p(build, name);
            &&& after.w == service::list_vms_p(build.w).0
            &&& checked matches Ok(existing) ==> listed is Ok && listed->Ok_0.warnings.len() == 0
                && existing == listed->Ok_0.machines
            &&& listed is Err ==> checked is Err
        }),
{
}

/// Every profile that is offered has the devices that every machine gets, and the two versions are
/// offered in their order.
pub proof fn law_profiles_have_the_same_devices(w: Run, additions_iso: Option<Text>)
    ensures
        creation::profiles_p(w, additions_iso).1 matches Ok(profiles) ==> {
            &&& profiles.len() == 2
            &&& profiles[0].display_name == "Windows 10 x64"@
            &&& profiles[1].display_name == "Windows 11 x64"@
            &&& forall|i: int|
                0 <= i < profiles.len() ==> {
                    &&& (#[trigger] profiles[i]).vram_mb == 128
                    &&& profiles[i].architecture == "x86_64"@
                    &&& profiles[i].usb_controller == "xHCI"@
                    &&& profiles[i].graphics_controller == "VBoxSVGA"@
                    &&& profiles[i].network == "NAT"@
                    &&& profiles[i].storage_controller == "SATA (Intel AHCI)"@
                    &&& profiles[i].io_apic_enabled
                    &&& profiles[i].audio_output_enabled
                    &&& profiles[i].guest_additions.bundled_iso_path == additions_iso
                }
        },
{
}

/// On a small host a machine is proposed what leaves the host its own share: 4 gigabytes of
/// memory, or what the host has above its own 4, and all processors but one.
pub proof fn law_a_small_host_keeps_its_share(host_memory_mb: u64, host_cpus: u32)
    requires
        6144 <= host_memory_mb <= 10240,
        1 <= host_cpus <= 4,
    ensures
        ({
            let proposed = creation::proposal(host_memory_mb, host_cpus, seq![], None);
            &&& proposed.memory_mb == (if host_memory_mb >= 8192 {
                4096
            } else {
                host_memory_mb - 4096
            })
            &&& proposed.cpus == (if host_cpus <= 2 {
                1int
            } else {
                2
            })
        }),
{
}

} // verus!
