use multiseat_virtualization::displays::{DisplayBounds, DisplayDevice};
use multiseat_virtualization::virtualization::virtualbox::presentation::{
    borderless_placement, borderless_postconditions_match, classify_operation_result,
    native_backend, select_managed_window, WindowDescriptor,
};
use multiseat_virtualization::virtualization::virtualbox::{
    resolve_assigned_display, DisplayPresentationStatus, ManagedVmWindowIdentity,
    PresentationBackend, PresentationFailureReason, PresentationMode, PresentationState,
    SimulatedPresentation,
};
use std::time::{Duration, Instant};

fn display(id: &str, bounds: DisplayBounds) -> DisplayDevice {
    DisplayDevice {
        id: id.into(),
        pnp_instance_id: Some(id.into()),
        device_name: format!("{id}\\Monitor0"),
        desktop_device_name: format!("\\\\.\\{id}"),
        friendly_name: Some(id.into()),
        device_path: None,
        adapter_name: "Adapter".into(),
        adapter_device_id: None,
        primary: id == "Dennis",
        bounds: Some(bounds),
    }
}

fn target(pid: Option<u32>) -> ManagedVmWindowIdentity {
    ManagedVmWindowIdentity {
        vm_uuid: "managed-uuid".into(),
        vm_name: "Windows - Barnen".into(),
        session_pid: pid,
    }
}

fn window(pid: u32, executable_name: &str, title: &str) -> WindowDescriptor {
    WindowDescriptor {
        handle: pid as isize,
        process_id: pid,
        executable_name: executable_name.into(),
        title: title.into(),
        class_name: "Qt663QWindowIcon".into(),
        visible: true,
        owner_handle: None,
        bounds: None,
    }
}

#[test]
fn stable_identity_resolves_negative_coordinates_and_distinct_resolutions() {
    let mut barnet = display(
        "Barnen",
        DisplayBounds {
            x: -2560,
            y: -1440,
            width: 2560,
            height: 1440,
        },
    );
    barnet.id = r"MONITOR\BNQ7840\CLASS\0001".into();
    barnet.pnp_instance_id = Some(r"DISPLAY\BNQ7840\INSTANCE&UID41217".into());
    let displays = vec![
        display(
            "Dennis",
            DisplayBounds {
                x: 0,
                y: 0,
                width: 1920,
                height: 1080,
            },
        ),
        barnet,
    ];
    let resolved =
        resolve_assigned_display(&displays, r"display\bnq7840\instance&uid41217").unwrap();
    assert_eq!(resolved.bounds.unwrap().x, -2560);
    assert_eq!(resolved.bounds.unwrap().y, -1440);
    assert_eq!(resolved.bounds.unwrap().width, 2560);
    assert_eq!(resolved.bounds.unwrap().height, 1440);
}

#[test]
fn pid_and_executable_select_only_the_managed_vm_window() {
    let windows = vec![
        window(41, "VirtualBox.exe", "VirtualBox Manager"),
        window(42, "VirtualBoxVM.exe", "Windows - Barnen [Running]"),
        window(43, "VirtualBoxVM.exe", "Unrelated VM [Running]"),
    ];
    assert_eq!(
        select_managed_window(&target(Some(42)), &windows)
            .unwrap()
            .process_id,
        42
    );
    assert_eq!(
        select_managed_window(&target(Some(99)), &windows)
            .unwrap()
            .process_id,
        42,
        "a stale SessionPID may fall back only to the uniquely named managed VirtualBoxVM process"
    );
    let unrelated = ManagedVmWindowIdentity {
        vm_uuid: "other".into(),
        vm_name: "Missing managed VM".into(),
        session_pid: Some(99),
    };
    assert!(select_managed_window(&unrelated, &windows).is_none());
}

#[test]
fn title_fallback_is_bounded_to_virtualboxvm_when_pid_is_unavailable() {
    let windows = vec![
        window(41, "notepad.exe", "Windows - Barnen"),
        window(42, "VirtualBoxVM.exe", "Windows - Barnen [Running]"),
    ];
    assert_eq!(
        select_managed_window(&target(None), &windows)
            .unwrap()
            .process_id,
        42
    );
    assert_eq!(
        select_managed_window(&target(Some(42)), &windows)
            .unwrap()
            .process_id,
        42,
        "the same candidate remains selected when SessionPID becomes available"
    );
}

#[test]
fn owned_virtualbox_window_is_allowed_only_with_strong_managed_identity() {
    let mut managed = window(42, "VirtualBoxVM.exe", "Windows - Barnen [Running]");
    managed.owner_handle = Some(900);
    let unrelated = window(43, "VirtualBoxVM.exe", "Other VM [Running]");
    assert_eq!(
        select_managed_window(&target(Some(42)), &[managed.clone(), unrelated.clone()])
            .unwrap()
            .handle,
        managed.handle
    );
    assert!(select_managed_window(
        &ManagedVmWindowIdentity {
            vm_uuid: "missing".into(),
            vm_name: "Missing VM".into(),
            session_pid: None,
        },
        &[managed, unrelated],
    )
    .is_none());
}

#[test]
fn simulated_admin_unlock_and_relock_restore_presentation_state() {
    let mut backend = SimulatedPresentation::default();
    backend.start(target(Some(42)), "Barnen".into()).unwrap();
    assert_eq!(backend.status().state, PresentationState::Presented);
    backend.set_locked(false).unwrap();
    assert_eq!(backend.status().mode, PresentationMode::ConventionalWindow);
    backend.set_locked(true).unwrap();
    assert_eq!(backend.status().state, PresentationState::Presented);
    assert_eq!(backend.status().mode, PresentationMode::Borderless);
    backend.stop().unwrap();
    assert_eq!(backend.status().state, PresentationState::NotPresented);
}

#[test]
fn missing_assigned_display_never_falls_back_to_dennis() {
    let displays = vec![display(
        "Dennis",
        DisplayBounds {
            x: 0,
            y: 0,
            width: 1920,
            height: 1080,
        },
    )];
    assert!(resolve_assigned_display(&displays, "Barnen").is_none());
}

#[test]
fn disconnect_becomes_unavailable_and_same_display_can_recover() {
    let mut backend = SimulatedPresentation::default();
    backend.start(target(Some(42)), "Barnen".into()).unwrap();
    backend.simulate_display_topology(None);
    assert_eq!(
        backend.status().state,
        PresentationState::PresentationUnavailable
    );
    let returned = DisplayBounds {
        x: 1920,
        y: 0,
        width: 1600,
        height: 900,
    };
    backend.simulate_display_topology(Some(returned));
    assert_eq!(backend.status().state, PresentationState::Presented);
    assert_eq!(backend.status().bounds, Some(returned));
}

#[test]
fn stop_cancels_pending_window_discovery_state() {
    let mut backend = SimulatedPresentation::with_status(DisplayPresentationStatus {
        state: PresentationState::WaitingForVmWindow,
        assigned_display_id: Some("Barnen".into()),
        ..DisplayPresentationStatus::default()
    });
    backend.stop().unwrap();
    assert_eq!(backend.status(), DisplayPresentationStatus::default());
}

#[test]
fn borderless_plan_uses_exact_bounds_and_preserves_original_style() {
    let bounds = DisplayBounds {
        x: -1920,
        y: 120,
        width: 1920,
        height: 1080,
    };
    let plan = borderless_placement(42, bounds, 0b1111, 0b0110);
    assert_eq!(plan.handle, 42);
    assert_eq!(plan.bounds, bounds);
    assert_eq!(plan.original_style, 0b1111);
    assert_eq!(plan.borderless_style, 0b1001);
}

#[test]
fn window_operation_failures_remain_typed() {
    assert_eq!(
        classify_operation_result(
            Err("access denied".into()),
            PresentationFailureReason::SetWindowStyleFailed,
        )
        .unwrap_err(),
        (
            PresentationFailureReason::SetWindowStyleFailed,
            "access denied".into()
        )
    );
    assert_eq!(
        classify_operation_result(
            Err("invalid HWND".into()),
            PresentationFailureReason::SetWindowPosFailed,
        )
        .unwrap_err()
        .0,
        PresentationFailureReason::SetWindowPosFailed
    );
}

#[test]
fn postcondition_requires_style_bounds_and_target_monitor() {
    let expected = DisplayBounds {
        x: 1920,
        y: 9,
        width: 1920,
        height: 1080,
    };
    assert!(borderless_postconditions_match(
        0b1001, 0b1001, 0b0110, expected, expected, true
    ));
    assert!(!borderless_postconditions_match(
        0b1111, 0b1001, 0b0110, expected, expected, true
    ));
    assert!(!borderless_postconditions_match(
        0b1001,
        0b1001,
        0b0110,
        DisplayBounds { x: 0, ..expected },
        expected,
        true,
    ));
    assert!(!borderless_postconditions_match(
        0b1001, 0b1001, 0b0110, expected, expected, false
    ));
}

#[test]
fn native_worker_start_and_status_are_non_blocking_and_cancellable() {
    let mut backend = native_backend(None).0;
    let started = Instant::now();
    backend
        .start(target(Some(u32::MAX)), "missing-display".into())
        .unwrap();
    assert!(started.elapsed() < Duration::from_secs(1));
    let status_started = Instant::now();
    let _ = backend.status();
    assert!(status_started.elapsed() < Duration::from_secs(1));
    backend.stop().unwrap();
    assert_eq!(backend.status().state, PresentationState::NotPresented);
}
