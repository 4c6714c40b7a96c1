use multiseat_virtualization::devices::{InputCapabilities, PhysicalInputDevice};
use multiseat_virtualization::seats::{
    ApplicationConfig, DeviceBackendSafetyRecord, DeviceRoutingBackend, DisplayId,
    InputRoutingRuntimeStatus, InputRoutingStrategy, PhysicalDeviceId, SeatId, SeatInputRouting,
    UsbPassthroughSafety, VirtualBoxSeatConfig,
};
use multiseat_virtualization::virtualization::virtualbox::machine_info::parse_vm_list_line;
use multiseat_virtualization::virtualization::virtualbox::mouse_integration::simulated_backend;
use multiseat_virtualization::virtualization::virtualbox::runtime::InputKind;
use multiseat_virtualization::virtualization::virtualbox::seat_rules::observe_usb_in_snapshot;
use multiseat_virtualization::virtualization::virtualbox::unavailable::Unavailable;
use multiseat_virtualization::virtualization::virtualbox::{
    focus_protection, parse_machine_readable, DisplayPresentationStatus, EvidencePresence, GuestUsbVisibility,
    FocusProtectionBackend, FocusProtectionStatus, HardwareInventory,
    ManagedSeatDisplayMode, ManagedVmWindowIdentity, MouseIntegrationState, MouseIsolationStatus,
    PresentationBackend, PresentationMode, PresentationState, SimulatedFocusProtection,
    UsbAttachCommandStatus, UsbRuntimeHealth, VBoxManageExecutor, VBoxOutput,
    VirtualBoxRuntimeService,
};
use multiseat_virtualization::virtualization::{SeatRuntimeStatus, VirtualBoxStatus};
use std::sync::atomic::{AtomicBool, AtomicUsize, Ordering};
use std::sync::{Arc, Mutex};
use std::time::{Duration, Instant};

#[test]
fn asynchronous_start_is_accepted_immediately_and_duplicate_is_refused() {
    let fake = FakeExecutor::default();
    let mut service = service(&fake);
    let seat_id = SeatId("seat-2".into());
    let started = Instant::now();
    let (cancellation, snapshot) = service
        .begin_asynchronous_start(&seat_id, &configuration())
        .unwrap();
    assert!(started.elapsed() < Duration::from_millis(100));
    assert_eq!(snapshot.status, SeatRuntimeStatus::Starting);
    assert_eq!(snapshot.vm_state.as_deref(), Some("start-requested"));
    assert!(snapshot
        .startup_trace
        .iter()
        .any(|entry| entry.stage == "StartCommandReturned"));
    assert!(service
        .begin_asynchronous_start(&seat_id, &configuration())
        .unwrap_err()
        .contains("already starting"));
    service.cancel_asynchronous_start(&seat_id);
    assert!(cancellation.load(Ordering::Acquire));
    service.finish_asynchronous_start(&seat_id);
}

#[test]
fn startup_trace_is_bounded() {
    let fake = FakeExecutor::default();
    let mut service = service(&fake);
    let seat_id = SeatId("seat-2".into());
    for index in 0..140 {
        service
            .record_startup_stage(
                &seat_id,
                "WindowDiscoveryAttempt",
                Some(&index.to_string()),
                None,
            )
            .unwrap();
    }
    let record = service.record(&seat_id);
    assert_eq!(record.startup_trace.len(), 128);
    assert_eq!(
        record.startup_trace.first().unwrap().detail.as_deref(),
        Some("12")
    );
}

#[test]
fn keyboard_and_mouse_can_be_active_while_presentation_is_still_waiting() {
    let fake = FakeExecutor::default();
    let mut service = VirtualBoxRuntimeService::with_components(
        Box::new(fake.clone()),
        Box::new(SimulatedFocusProtection::default()),
        simulated_backend(),
        Box::new(WaitingPresentation::default()),
    );
    let config = configuration();
    service
        .start(&SeatId("seat-2".into()), &config, &devices(), None)
        .unwrap();
    service
        .set_keyboard_routing_runtime(
            &SeatId("seat-2".into()),
            InputRoutingRuntimeStatus::Active,
            "test router active",
        )
        .unwrap();
    let status = service
        .status(&SeatId("seat-2".into()), &config, &devices())
        .unwrap();
    assert_eq!(
        status.display_presentation.state,
        PresentationState::WaitingForVmWindow
    );
    assert_eq!(
        status.keyboard.routing_status,
        InputRoutingRuntimeStatus::Active
    );
    assert_eq!(
        status.mouse.routing_status,
        InputRoutingRuntimeStatus::Active
    );
    assert_eq!(status.status, SeatRuntimeStatus::PartiallyRunning);
}

#[derive(Default)]
struct FakeState {
    calls: Mutex<Vec<Vec<String>>>,
    usb_calls: AtomicUsize,
    attach_calls: AtomicUsize,
    running: AtomicBool,
    fail_mouse_attach: AtomicBool,
    ambiguous_keyboard: AtomicBool,
    keyboard_disappears_after_attach: AtomicBool,
    all_captured: AtomicBool,
    mouse_capture_policy: Mutex<String>,
}

#[derive(Clone, Default)]
struct FakeExecutor(Arc<FakeState>);

#[derive(Default)]
struct WaitingPresentation(DisplayPresentationStatus);

impl PresentationBackend for WaitingPresentation {
    fn start(
        &mut self,
        _target: ManagedVmWindowIdentity,
        assigned_display_id: String,
    ) -> Result<(), String> {
        self.0 = DisplayPresentationStatus {
            state: PresentationState::WaitingForVmWindow,
            assigned_display_id: Some(assigned_display_id),
            ..DisplayPresentationStatus::default()
        };
        Ok(())
    }

    fn set_locked(&mut self, locked: bool) -> Result<(), String> {
        self.0.state = if locked {
            PresentationState::WaitingForVmWindow
        } else {
            PresentationState::NotPresented
        };
        Ok(())
    }

    fn mark_unavailable(
        &mut self,
        assigned_display_id: Option<String>,
        message: String,
    ) -> Result<(), String> {
        self.0 = DisplayPresentationStatus {
            state: PresentationState::PresentationUnavailable,
            assigned_display_id,
            last_error: Some(message),
            ..DisplayPresentationStatus::default()
        };
        Ok(())
    }

    fn stop(&mut self) -> Result<(), String> {
        self.0 = DisplayPresentationStatus::default();
        Ok(())
    }

    fn status(&self) -> DisplayPresentationStatus {
        self.0.clone()
    }
}

impl VBoxManageExecutor for FakeExecutor {
    fn execute(&self, arguments: &[String]) -> Result<VBoxOutput, String> {
        self.0.calls.lock().unwrap().push(arguments.to_vec());
        let args: Vec<&str> = arguments.iter().map(String::as_str).collect();
        let output = match args.as_slice() {
            ["showvminfo", _, "--machinereadable"] => format!(
                "name=\"Windows - Barnen\"\nUUID=\"vm-1\"\nostype=\"Windows11_64\"\nVMState=\"{}\"\n",
                if self.0.running.load(Ordering::SeqCst) { "running" } else { "poweroff" }
            ),
            ["list", "usbhost"] => {
                let generation = self.0.usb_calls.fetch_add(1, Ordering::SeqCst) + 1;
                usb_output(
                    generation,
                    self.0.attach_calls.load(Ordering::SeqCst),
                    self.0.ambiguous_keyboard.load(Ordering::SeqCst),
                    self.0.all_captured.load(Ordering::SeqCst),
                    self.0.keyboard_disappears_after_attach.load(Ordering::SeqCst),
                )
            }
            ["startvm", ..] => {
                self.0.running.store(true, Ordering::SeqCst);
                String::new()
            }
            ["controlvm", _, "usbattach", uuid] => {
                if uuid.starts_with("mouse-") && self.0.fail_mouse_attach.load(Ordering::SeqCst) {
                    return Ok(VBoxOutput { success: false, exit_code: Some(1), stdout: String::new(), stderr: "mouse attach failed".into() });
                }
                self.0.attach_calls.fetch_add(1, Ordering::SeqCst);
                String::new()
            }
            ["controlvm", _, "acpipowerbutton"] => {
                self.0.running.store(false, Ordering::SeqCst);
                String::new()
            }
            ["controlvm", _, "shutdown"] => {
                self.0.running.store(false, Ordering::SeqCst);
                String::new()
            }
            ["controlvm", _, "usbdetach", _] => String::new(),
            ["setextradata", _, "GUI/MouseCapturePolicy", policy] => {
                *self.0.mouse_capture_policy.lock().unwrap() = (*policy).to_owned();
                String::new()
            }
            ["getextradata", _, "GUI/MouseCapturePolicy"] => format!(
                "Value: {}\n",
                self.0.mouse_capture_policy.lock().unwrap()
            ),
            _ => String::new(),
        };
        Ok(VBoxOutput {
            success: true,
            exit_code: Some(0),
            stdout: output,
            stderr: String::new(),
        })
    }

    fn wait(&self, _milliseconds: u64) {}
}

fn usb_output(
    generation: usize,
    attached: usize,
    ambiguous: bool,
    all_captured: bool,
    keyboard_disappears_after_attach: bool,
) -> String {
    let keyboard_state = if all_captured || attached >= 1 {
        "Captured"
    } else {
        "Busy"
    };
    let mouse_state = if all_captured || attached >= 1 {
        "Captured"
    } else {
        "Busy"
    };
    let duplicate = if ambiguous {
        format!("\nUUID: keyboard-duplicate-{generation}\nVendorId: 0x1a2c (1A2C)\nProductId: 0x4c5e (4C5E)\nCurrent State: Busy\n")
    } else {
        String::new()
    };
    let keyboard = if keyboard_disappears_after_attach && attached >= 1 {
        String::new()
    } else {
        format!("UUID: keyboard-{generation}\nVendorId: 0x1a2c (1A2C)\nProductId: 0x4c5e (4C5E)\nCurrent State: {keyboard_state}\n{duplicate}\n")
    };
    format!(
        "Host USB Devices:\n\n{keyboard}\nUUID: mouse-{generation}\nVendorId: 0x30fa (30FA)\nProductId: 0x1440 (1440)\nCurrent State: {mouse_state}\n\nUUID: dennis-{generation}\nVendorId: 0x1b1c (1B1C)\nProductId: 0x1b31 (1B31)\nCurrent State: Busy\n"
    )
}

fn device(
    id: &str,
    vendor: &str,
    product: &str,
    keyboard: bool,
    mouse: bool,
) -> PhysicalInputDevice {
    PhysicalInputDevice {
        id: id.into(),
        container_id: Some(id.into()),
        friendly_name: Some(id.into()),
        manufacturer: None,
        vendor_id: Some(vendor.into()),
        product_id: Some(product.into()),
        usb_parent_instance_id: None,
        serial_number: None,
        capabilities: InputCapabilities { keyboard, mouse },
        logical_nodes: Vec::new(),
        raw_input_paths: Vec::new(),
        present: true,
    }
}

fn devices() -> Vec<PhysicalInputDevice> {
    vec![
        device("dennis-keyboard", "1532", "021F", true, false),
        device("dennis-mouse", "1B1C", "1B31", false, true),
        device("barnen-keyboard", "1A2C", "4C5E", true, false),
        device("barnen-mouse", "30FA", "1440", false, true),
    ]
}

fn configuration() -> ApplicationConfig {
    let mut config = ApplicationConfig::default();
    config.seats[0].devices.keyboard = Some(PhysicalDeviceId("dennis-keyboard".into()));
    config.seats[0].devices.mouse = Some(PhysicalDeviceId("dennis-mouse".into()));
    config.seats[1].devices.keyboard = Some(PhysicalDeviceId("barnen-keyboard".into()));
    config.seats[1].devices.mouse = Some(PhysicalDeviceId("barnen-mouse".into()));
    config.seats[1].devices.display = Some(DisplayId("barnen-display".into()));
    config.backends.virtual_box.seats.insert(
        "seat-2",
        VirtualBoxSeatConfig {
            vm_id: "vm-1".into(),
            managed_by_multiseat: true,
            ..Default::default()
        },
    );
    config
}

fn configuration_with_cleared_keyboard_usb() -> ApplicationConfig {
    let mut config = configuration();
    config
        .set_input_routing(
            &SeatId("seat-2".into()),
            SeatInputRouting {
                keyboard: InputRoutingStrategy::VirtualBoxUsbPassthrough,
                mouse: InputRoutingStrategy::VirtualBoxUsbPassthrough,
            },
        )
        .unwrap();
    config
        .record_device_safety(DeviceBackendSafetyRecord {
            physical_device_id: PhysicalDeviceId("barnen-keyboard".into()),
            vendor_id: Some("1A2C".into()),
            product_id: Some("4C5E".into()),
            backend: DeviceRoutingBackend::VirtualBoxUsbPassthrough,
            safety: UsbPassthroughSafety::Supported,
            reason: "test fixture explicitly cleared".into(),
            observed: None,
        })
        .unwrap();
    config
}

fn service(fake: &FakeExecutor) -> VirtualBoxRuntimeService {
    VirtualBoxRuntimeService::new(Box::new(fake.clone()))
}

fn calls(fake: &FakeExecutor, operation: &str) -> Vec<Vec<String>> {
    fake.0
        .calls
        .lock()
        .unwrap()
        .iter()
        .filter(|args| args.iter().any(|arg| arg == operation))
        .cloned()
        .collect()
}

#[test]
fn current_mouse_usb_uuid_is_resolved_each_activation_and_stale_uuid_is_not_reused() {
    let fake = FakeExecutor::default();
    let mut service = service(&fake);
    let config = configuration();
    service
        .start(&SeatId("seat-2".into()), &config, &devices(), None)
        .unwrap();
    service
        .start(&SeatId("seat-2".into()), &config, &devices(), None)
        .unwrap();
    let attaches = calls(&fake, "usbattach");
    let mouse_uuids: Vec<_> = attaches
        .iter()
        .filter_map(|args| args.last())
        .filter(|uuid| uuid.starts_with("mouse-"))
        .collect();
    assert_eq!(mouse_uuids.len(), 2);
    assert_ne!(mouse_uuids[0], mouse_uuids[1]);
    assert!(!attaches
        .iter()
        .any(|args| args.last().unwrap() == "mouse-1"));
}

#[test]
fn missing_barnen_keyboard_or_mouse_blocks_start() {
    for clear_keyboard in [true, false] {
        let fake = FakeExecutor::default();
        let mut service = service(&fake);
        let mut config = configuration();
        if clear_keyboard {
            config.seats[1].devices.keyboard = None;
        } else {
            config.seats[1].devices.mouse = None;
        }
        assert!(service
            .start(&SeatId("seat-2".into()), &config, &devices(), None)
            .is_err());
        assert!(calls(&fake, "startvm").is_empty());
    }
}

#[test]
fn ambiguous_usb_mapping_blocks_start() {
    let fake = FakeExecutor::default();
    fake.0.ambiguous_keyboard.store(true, Ordering::SeqCst);
    let mut service = service(&fake);
    let config = configuration_with_cleared_keyboard_usb();
    assert!(service
        .start(&SeatId("seat-2".into()), &config, &devices(), None)
        .unwrap_err()
        .contains("safely"));
    assert!(calls(&fake, "startvm").is_empty());
}

#[test]
fn dennis_input_cannot_be_attached() {
    let fake = FakeExecutor::default();
    let mut service = service(&fake);
    let mut config = configuration();
    config.seats[1].devices.keyboard = Some(PhysicalDeviceId("dennis-keyboard".into()));
    assert!(service
        .start(&SeatId("seat-2".into()), &config, &devices(), None)
        .unwrap_err()
        .contains("Dennis"));
    assert!(calls(&fake, "usbattach").is_empty());
}

#[test]
fn native_keyboard_prototype_and_captured_mouse_are_partially_running() {
    let fake = FakeExecutor::default();
    let mut service = service(&fake);
    let status = service
        .start(&SeatId("seat-2".into()), &configuration(), &devices(), None)
        .unwrap();
    assert_eq!(status.status, SeatRuntimeStatus::PartiallyRunning);
    assert!(!status.keyboard.attached && status.mouse.attached);
    assert_eq!(
        status.keyboard.routing_strategy,
        InputRoutingStrategy::NativeKeyboardRouting
    );
    assert_eq!(
        status.keyboard.routing_status,
        InputRoutingRuntimeStatus::PrototypeInactive
    );
    assert!(calls(&fake, "usbattach").iter().all(|args| !args
        .last()
        .is_some_and(|uuid| uuid.starts_with("keyboard-"))));
    assert!(status.input_isolation.mouse_capture_disabled);
    assert_eq!(
        status.input_isolation.mouse_integration.observed,
        MouseIntegrationState::Disabled
    );
    assert_eq!(
        status.input_isolation.mouse_isolation,
        MouseIsolationStatus::Active
    );
    assert!(status.input_isolation.focus_protection_active);
    assert_eq!(
        status.input_isolation.display_mode,
        ManagedSeatDisplayMode::SeatDisplayLocked
    );
    assert!(!status.input_isolation.dennis_keyboard_attached);
    assert!(!status.input_isolation.dennis_mouse_attached);
}

#[test]
fn successful_attach_without_vbox_device_is_disappeared_not_attached() {
    let fake = FakeExecutor::default();
    fake.0
        .keyboard_disappears_after_attach
        .store(true, Ordering::SeqCst);
    let mut service = service(&fake);
    let status = service
        .start(
            &SeatId("seat-2".into()),
            &configuration_with_cleared_keyboard_usb(),
            &devices(),
            None,
        )
        .unwrap();
    assert_eq!(status.status, SeatRuntimeStatus::PartiallyRunning);
    assert!(!status.keyboard.attached);
    assert_eq!(
        status.keyboard.usb.health,
        UsbRuntimeHealth::DisappearedAfterAttach
    );
    assert_eq!(
        status.keyboard.usb.windows_physical_device,
        EvidencePresence::Present
    );
    assert_eq!(
        status.keyboard.usb.virtual_box_host_device,
        EvidencePresence::Missing
    );
    assert_eq!(
        status.keyboard.usb.attach_command,
        UsbAttachCommandStatus::Success
    );
    assert_eq!(
        status.keyboard.usb.guest_visibility,
        GuestUsbVisibility::Unknown
    );
    assert!(status.mouse.attached);
    assert_eq!(status.mouse.usb.health, UsbRuntimeHealth::Captured);
}

#[test]
fn known_problematic_keyboard_usb_is_blocked_before_vm_start_or_attach() {
    let fake = FakeExecutor::default();
    let mut service = service(&fake);
    let mut config = configuration();
    config
        .set_input_routing(
            &SeatId("seat-2".into()),
            SeatInputRouting {
                keyboard: InputRoutingStrategy::VirtualBoxUsbPassthrough,
                mouse: InputRoutingStrategy::VirtualBoxUsbPassthrough,
            },
        )
        .unwrap();
    config
        .record_device_safety(DeviceBackendSafetyRecord {
            physical_device_id: PhysicalDeviceId("barnen-keyboard".into()),
            vendor_id: Some("1A2C".into()),
            product_id: Some("4C5E".into()),
            backend: DeviceRoutingBackend::VirtualBoxUsbPassthrough,
            safety: UsbPassthroughSafety::KnownProblematic,
            reason: "host PNP_DETECTED_FATAL_ERROR during VirtualBox USB capture".into(),
            observed: Some("0xCA / Arg1 0x2 / VBoxUSBMon.sys".into()),
        })
        .unwrap();

    let error = service
        .start(&SeatId("seat-2".into()), &config, &devices(), None)
        .unwrap_err();
    assert!(error.contains("disabled"));
    assert!(error.contains("Automatic retry is disabled"));
    assert!(calls(&fake, "startvm").is_empty());
    assert!(calls(&fake, "usbattach").is_empty());
}

#[test]
fn keyboard_usb_requires_explicit_supported_clearance() {
    let fake = FakeExecutor::default();
    let mut service = service(&fake);
    let mut config = configuration();
    config
        .set_input_routing(
            &SeatId("seat-2".into()),
            SeatInputRouting {
                keyboard: InputRoutingStrategy::VirtualBoxUsbPassthrough,
                mouse: InputRoutingStrategy::VirtualBoxUsbPassthrough,
            },
        )
        .unwrap();

    let error = service
        .start(&SeatId("seat-2".into()), &config, &devices(), None)
        .unwrap_err();
    assert!(error.contains("not explicitly cleared"));
    assert!(calls(&fake, "startvm").is_empty());
    assert!(calls(&fake, "usbattach").is_empty());
}

#[test]
fn missing_windows_device_is_distinct_from_vbox_enumeration_loss() {
    let status = VirtualBoxStatus {
        installed: true,
        vbox_manage_path: None,
        version: None,
        operational: true,
        probe_error: None,
        parser_warnings: Vec::new(),
        usb_devices: Vec::new(),
    };
    let observation =
        observe_usb_in_snapshot("barnen-keyboard", InputKind::Keyboard, &[], &status, true);
    assert_eq!(
        observation.health,
        UsbRuntimeHealth::PhysicalDeviceDisconnected
    );
    assert_eq!(
        observation.windows_physical_device,
        EvidencePresence::Missing
    );
}

#[test]
fn managed_start_sets_and_verifies_mouse_capture_policy_only_on_managed_vm() {
    let fake = FakeExecutor::default();
    let mut service = service(&fake);
    service
        .start(&SeatId("seat-2".into()), &configuration(), &devices(), None)
        .unwrap();
    let settings = calls(&fake, "setextradata");
    assert_eq!(settings.len(), 1);
    assert_eq!(settings[0][1], "vm-1");
    assert_eq!(settings[0].last().map(String::as_str), Some("Disabled"));

    let mut unmanaged = configuration();
    unmanaged
        .backends
        .virtual_box
        .seats
        .get_mut("seat-2")
        .unwrap()
        .managed_by_multiseat = false;
    assert!(!service
        .ensure_managed_mouse_capture_disabled(&SeatId("seat-2".into()), &unmanaged)
        .unwrap());
    assert_eq!(calls(&fake, "setextradata").len(), 1);
}

#[test]
fn admin_unlock_is_temporary_and_does_not_change_usb_health() {
    let fake = FakeExecutor::default();
    let mut service = service(&fake);
    let config = configuration_with_cleared_keyboard_usb();
    service
        .start(&SeatId("seat-2".into()), &config, &devices(), None)
        .unwrap();
    let unlocked = service
        .allow_host_input_temporarily(&SeatId("seat-2".into()), &config, &devices())
        .unwrap();
    assert_eq!(
        unlocked.input_isolation.display_mode,
        ManagedSeatDisplayMode::NormalVirtualBox
    );
    assert_eq!(
        unlocked.input_isolation.mouse_integration.observed,
        MouseIntegrationState::Enabled
    );
    assert_eq!(
        unlocked.input_isolation.mouse_isolation,
        MouseIsolationStatus::Inactive
    );
    assert!(!unlocked.input_isolation.focus_protection_locked);
    assert_eq!(
        unlocked.display_presentation.mode,
        PresentationMode::ConventionalWindow
    );
    assert_eq!(
        unlocked.display_presentation.state,
        PresentationState::NotPresented
    );
    assert!(unlocked.keyboard.attached && unlocked.mouse.attached);

    let locked = service
        .lock_seat_input(&SeatId("seat-2".into()), &config, &devices(), None)
        .unwrap();
    assert!(locked.input_isolation.mouse_capture_disabled);
    assert!(locked.input_isolation.focus_protection_locked);
    assert_eq!(
        locked.input_isolation.mouse_integration.observed,
        MouseIntegrationState::Disabled
    );
    assert_eq!(
        locked.input_isolation.mouse_isolation,
        MouseIsolationStatus::Active
    );
    assert_eq!(
        locked.display_presentation.mode,
        PresentationMode::Borderless
    );
    assert_eq!(
        locked.display_presentation.state,
        PresentationState::Presented
    );

    service
        .allow_host_input_temporarily(&SeatId("seat-2".into()), &config, &devices())
        .unwrap();
    let restarted = service
        .start(&SeatId("seat-2".into()), &config, &devices(), None)
        .unwrap();
    assert!(restarted.input_isolation.mouse_capture_disabled);
    assert!(restarted.input_isolation.focus_protection_locked);
    assert_eq!(
        restarted.display_presentation.state,
        PresentationState::Presented
    );
}

#[test]
fn second_attachment_failure_rolls_back_first() {
    let fake = FakeExecutor::default();
    fake.0.fail_mouse_attach.store(true, Ordering::SeqCst);
    let mut service = service(&fake);
    assert!(service
        .start(
            &SeatId("seat-2".into()),
            &configuration_with_cleared_keyboard_usb(),
            &devices(),
            None,
        )
        .is_err());
    let detaches = calls(&fake, "usbdetach");
    assert_eq!(detaches.len(), 1);
    assert!(detaches[0].last().unwrap().starts_with("keyboard-"));
}

#[test]
fn already_running_vm_is_not_claimed_by_activation() {
    let fake = FakeExecutor::default();
    fake.0.running.store(true, Ordering::SeqCst);
    let mut service = service(&fake);
    let status = service
        .start(&SeatId("seat-2".into()), &configuration(), &devices(), None)
        .unwrap();
    assert!(!status.vm_started_by_multiseat);
    assert!(calls(&fake, "startvm").is_empty());
}

#[test]
fn stop_detaches_only_multiseat_managed_devices() {
    let fake = FakeExecutor::default();
    let mut service = service(&fake);
    let config = configuration_with_cleared_keyboard_usb();
    service
        .start(&SeatId("seat-2".into()), &config, &devices(), None)
        .unwrap();
    service
        .stop(&SeatId("seat-2".into()), &config, &devices())
        .unwrap();
    let detached: Vec<_> = calls(&fake, "usbdetach")
        .into_iter()
        .map(|args| args.last().unwrap().clone())
        .collect();
    assert_eq!(detached.len(), 2);
    assert!(detached.iter().any(|uuid| uuid.starts_with("keyboard-")));
    assert!(detached.iter().any(|uuid| uuid.starts_with("mouse-")));
    assert!(!detached.iter().any(|uuid| uuid.starts_with("dennis-")));
}

#[test]
fn stop_remains_possible_when_keyboard_disappeared_after_attach() {
    let fake = FakeExecutor::default();
    fake.0
        .keyboard_disappears_after_attach
        .store(true, Ordering::SeqCst);
    let mut service = service(&fake);
    let config = configuration();
    service
        .start(&SeatId("seat-2".into()), &config, &devices(), None)
        .unwrap();
    let stopped = service
        .stop(&SeatId("seat-2".into()), &config, &devices())
        .unwrap();
    assert_eq!(stopped.status, SeatRuntimeStatus::Stopped);
    let detached = calls(&fake, "usbdetach");
    assert_eq!(detached.len(), 1);
    assert!(detached[0].last().unwrap().starts_with("mouse-"));
}

#[test]
fn release_reenumerates_and_targets_only_configured_barnen_devices() {
    let fake = FakeExecutor::default();
    fake.0.running.store(true, Ordering::SeqCst);
    fake.0.all_captured.store(true, Ordering::SeqCst);
    let mut service = service(&fake);
    service
        .release(&SeatId("seat-2".into()), &configuration(), &devices())
        .unwrap();
    let detached: Vec<_> = calls(&fake, "usbdetach")
        .into_iter()
        .map(|args| args.last().unwrap().clone())
        .collect();
    assert_eq!(detached, vec!["mouse-1"]);
    assert!(!detached.iter().any(|uuid| uuid.starts_with("dennis-")));
    assert!(!detached.iter().any(|uuid| uuid.starts_with("keyboard-")));
}

#[test]
fn parses_vm_identity_state_and_guest_type() {
    assert_eq!(
        parse_vm_list_line("\"Windows - Barnen\" {vm-1}"),
        Some(("Windows - Barnen".into(), "vm-1".into()))
    );
    let fields = parse_machine_readable("name=\"Windows - Barnen\"\nUUID=\"vm-1\"\nVMState=\"poweroff\"\nostype=\"Windows11_64\"\n");
    assert_eq!(fields.get("UUID").map(String::as_str), Some("vm-1"));
    assert_eq!(fields.get("VMState").map(String::as_str), Some("poweroff"));
}

#[test]
fn a_cancelled_start_runs_no_machine() {
    let fake = FakeExecutor::default();
    let mut service = service(&fake);
    let error = service
        .start_with_cancellation(
            &SeatId("seat-2".into()),
            &configuration(),
            &devices(),
            None,
            &Arc::new(AtomicBool::new(true)),
        )
        .unwrap_err();
    assert!(error.contains("cancelled"));
    assert!(calls(&fake, "startvm").is_empty());
    assert!(fake
        .0
        .calls
        .lock()
        .unwrap()
        .iter()
        .all(|call| !call.contains(&"usbattach".to_owned())));
}

#[test]
fn reporting_changes_nothing() {
    let fake = FakeExecutor::default();
    let mut service = service(&fake);
    service
        .status(&SeatId("seat-2".into()), &configuration(), &devices())
        .unwrap();
    service.list_vms().unwrap();
    assert!(fake
        .0
        .calls
        .lock()
        .unwrap()
        .iter()
        .all(|call| call[0] == "list" || call[0] == "showvminfo" || call[0] == "getextradata"));
}

struct Plugged(Arc<AtomicUsize>);

impl HardwareInventory for Plugged {
    fn input_devices(&mut self) -> Result<Vec<PhysicalInputDevice>, String> {
        self.0.fetch_add(1, Ordering::SeqCst);
        Ok(devices())
    }
}

#[test]
fn attachments_look_at_the_hardware_again() {
    let fake = FakeExecutor::default();
    let looks = Arc::new(AtomicUsize::new(0));
    let mut service = service(&fake).refreshing_hardware(Box::new(Plugged(looks.clone())));
    service
        .start(&SeatId("seat-2".into()), &configuration(), &devices(), None)
        .unwrap();
    assert!(looks.load(Ordering::SeqCst) > 0);
}

#[test]
fn durations_are_recorded_with_their_stage() {
    let fake = FakeExecutor::default();
    let mut service = service(&fake);
    let seat_id = SeatId("seat-2".into());
    service
        .record_startup_duration(&seat_id, "RouterStarted", Instant::now(), Some("x"), None)
        .unwrap();
    let record = service.record(&seat_id);
    assert_eq!(record.startup_trace[0].stage, "RouterStarted");
    assert_eq!(record.startup_trace[0].detail.as_deref(), Some("x"));
    assert!(record.startup_trace[0].duration_ms.is_some());
    assert!(record.startup_trace[0].timestamp_ms > 1_600_000_000_000);
}

#[test]
fn the_flag_of_a_start_is_the_one_that_cancelling_raises() {
    let fake = FakeExecutor::default();
    let mut service = service(&fake);
    let seat_id = SeatId("seat-2".into());
    let other = SeatId("seat-3".into());
    let (first, _) = service
        .begin_asynchronous_start(&seat_id, &configuration())
        .unwrap();
    let (foreign, _) = service
        .begin_asynchronous_start(&other, &configuration())
        .unwrap();
    assert!(!first.load(Ordering::Acquire));
    service.cancel_asynchronous_start(&seat_id);
    assert!(first.load(Ordering::Acquire));
    assert!(!foreign.load(Ordering::Acquire));
    let error = service
        .start_with_cancellation(&seat_id, &configuration(), &devices(), None, &first)
        .unwrap_err();
    assert_eq!(error, "managed seat startup was cancelled");
    assert!(fake.0.calls.lock().unwrap().is_empty());

    service.finish_asynchronous_start(&seat_id);
    let (second, _) = service
        .begin_asynchronous_start(&seat_id, &configuration())
        .unwrap();
    assert!(!second.load(Ordering::Acquire));
    assert!(first.load(Ordering::Acquire));
    let status = service
        .start_with_cancellation(&seat_id, &configuration(), &devices(), None, &second)
        .unwrap();
    assert!(status.mouse.attached);
    assert!(service
        .begin_asynchronous_start(&other, &configuration())
        .unwrap_err()
        .contains("already starting"));
}

#[test]
fn a_report_that_is_answered_alike_says_the_same() {
    let fake = FakeExecutor::default();
    let mut service = service(&fake);
    let seat_id = SeatId("seat-2".into());
    let first = service.status(&seat_id, &configuration(), &devices()).unwrap();
    let asked = fake.0.calls.lock().unwrap().clone();
    fake.0.usb_calls.store(0, Ordering::SeqCst);
    let second = service.status(&seat_id, &configuration(), &devices()).unwrap();
    assert_eq!(second, first);
    let all = fake.0.calls.lock().unwrap().clone();
    assert_eq!(all.len(), 2 * asked.len());
    assert_eq!(all[asked.len()..], asked[..]);
    assert_eq!(
        asked,
        vec![
            vec!["showvminfo", "vm-1", "--machinereadable"],
            vec!["list", "usbhost"],
            vec!["getextradata", "vm-1", "GUI/MouseCapturePolicy"],
        ]
    );
}

#[test]
fn devices_that_are_routed_otherwise_are_never_attached() {
    let fake = FakeExecutor::default();
    let mut service = service(&fake);
    let seat_id = SeatId("seat-2".into());
    let mut config = configuration();
    config
        .set_input_routing(
            &seat_id,
            SeatInputRouting {
                keyboard: InputRoutingStrategy::NativeKeyboardRouting,
                mouse: InputRoutingStrategy::Disabled,
            },
        )
        .unwrap();
    let _ = service.start(&seat_id, &config, &devices(), None);
    assert_eq!(calls(&fake, "startvm").len(), 1);
    assert!(calls(&fake, "usbattach").is_empty());
}

struct Refusing;

impl VBoxManageExecutor for Refusing {
    fn execute(&self, arguments: &[String]) -> Result<VBoxOutput, String> {
        Ok(VBoxOutput {
            success: false,
            exit_code: Some(-1),
            stdout: String::new(),
            stderr: format!("  bad values {}  ", arguments.join(" and ")),
        })
    }

    fn wait(&self, _milliseconds: u64) {}
}

#[test]
fn a_failure_tells_no_secret() {
    let mut service = VirtualBoxRuntimeService::new(Box::new(Refusing));
    let secrets = vec!["--key=K-1".to_owned(), "--pin=77".to_owned()];
    let error = service
        .checked_redacted(
            vec![
                "install".to_owned(),
                r#"C:\a "b".iso"#.to_owned(),
                secrets[0].clone(),
                secrets[1].clone(),
            ],
            &secrets,
        )
        .unwrap_err();
    assert_eq!(
        error,
        [
            r#"VBoxManage ["install", "C:\\a \"b\".iso", "<redacted>", "<redacted>"]"#,
            r#" failed with exit code Some(-1): bad values install and C:\a "b".iso"#,
            " and <redacted> and <redacted>",
        ]
        .concat()
    );
    assert!(secrets.iter().all(|secret| !error.contains(secret.as_str())));
}

#[test]
fn a_host_without_anything_says_why() {
    let mut service = service(&FakeExecutor::default())
        .refreshing_hardware(Box::new(Unavailable("no devices".to_owned())));
    let error = service
        .start(&SeatId("seat-2".into()), &configuration(), &devices(), None)
        .unwrap_err();
    assert!(error.contains("no devices"));
}

#[test]
fn the_backend_of_the_host_is_preferred() {
    let mut own = focus_protection::native_backend(Some(Box::new(Own))).0;
    assert_eq!(own.stop().unwrap_err(), "mine");
    let mut simulated = focus_protection::native_backend(None).0;
    assert!(simulated.stop().is_ok());
}

struct Own;

impl FocusProtectionBackend for Own {
    fn start(
        &mut self,
        _target: ManagedVmWindowIdentity,
        _anchor: Option<isize>,
    ) -> Result<(), String> {
        Ok(())
    }

    fn set_locked(&mut self, _locked: bool) -> Result<(), String> {
        Ok(())
    }

    fn stop(&mut self) -> Result<(), String> {
        Err("mine".to_owned())
    }

    fn status(&self) -> FocusProtectionStatus {
        FocusProtectionStatus::default()
    }
}
