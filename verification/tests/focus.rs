use multiseat_virtualization::virtualization::virtualbox::focus_protection::{
    should_restore_focus, ForegroundWindow,
};
use multiseat_virtualization::virtualization::virtualbox::ManagedVmWindowIdentity;

fn target() -> ManagedVmWindowIdentity {
    ManagedVmWindowIdentity {
        vm_uuid: "managed-uuid".into(),
        vm_name: "Windows - Barnen".into(),
        session_pid: Some(42),
    }
}

fn managed_window() -> ForegroundWindow {
    ForegroundWindow {
        process_id: 42,
        executable_name: "VirtualBoxVM.exe".into(),
        title: "Windows - Barnen [Running] - Oracle VirtualBox".into(),
    }
}

#[test]
fn managed_focus_triggers_restoration_but_unrelated_focus_does_not() {
    assert!(should_restore_focus(
        &target(),
        Some(&managed_window()),
        true
    ));
    assert!(!should_restore_focus(
        &target(),
        Some(&ForegroundWindow {
            process_id: 43,
            ..managed_window()
        }),
        true
    ));
    assert!(!should_restore_focus(
        &target(),
        Some(&ForegroundWindow {
            executable_name: "notepad.exe".into(),
            ..managed_window()
        }),
        true
    ));
}

#[test]
fn admin_unlock_suppresses_focus_restoration() {
    assert!(!should_restore_focus(
        &target(),
        Some(&managed_window()),
        false
    ));
}

#[test]
fn title_fallback_is_limited_to_named_virtualboxvm_window() {
    let mut target = target();
    target.session_pid = None;
    assert!(should_restore_focus(&target, Some(&managed_window()), true));
}
