use multiseat_virtualization::keyboard_routing::{
    normalize_raw_keyboard_event, GuestKeyboardSink, ModifierKey,
};
use multiseat_virtualization::virtualization::virtualbox::{
    VBoxManageExecutor, VBoxOutput, VirtualBoxGuestKeyboardSink,
};
use std::sync::{Arc, Mutex};

#[derive(Clone, Default)]
struct FakeExecutor(Arc<Mutex<Vec<Vec<String>>>>);

impl VBoxManageExecutor for FakeExecutor {
    fn execute(&self, arguments: &[String]) -> Result<VBoxOutput, String> {
        self.0.lock().unwrap().push(arguments.to_vec());
        Ok(VBoxOutput {
            success: true,
            exit_code: Some(0),
            stdout: String::new(),
            stderr: String::new(),
        })
    }

    fn wait(&self, _milliseconds: u64) {}
}

#[test]
fn forwards_make_break_e0_and_modifier_in_order() {
    let fake = FakeExecutor::default();
    let mut sink =
        VirtualBoxGuestKeyboardSink::new("managed-vm".into(), Box::new(fake.clone()));
    let down = normalize_raw_keyboard_event("barnen".into(), "raw".into(), 0x1d, 0x02, 0x11);
    assert_eq!(down.modifier, Some(ModifierKey::RightControl));
    let up = normalize_raw_keyboard_event("barnen".into(), "raw".into(), 0x1d, 0x03, 0x11);
    sink.key_down(&down).unwrap();
    sink.key_up(&up).unwrap();

    let calls = fake.0.lock().unwrap();
    assert_eq!(
        calls[0],
        ["controlvm", "managed-vm", "keyboardputscancode", "e0", "1d"]
    );
    assert_eq!(
        calls[1],
        ["controlvm", "managed-vm", "keyboardputscancode", "e0", "9d"]
    );
}

#[test]
fn release_all_emits_break_for_every_held_key() {
    let fake = FakeExecutor::default();
    let mut sink =
        VirtualBoxGuestKeyboardSink::new("managed-vm".into(), Box::new(fake.clone()));
    sink.key_down(&normalize_raw_keyboard_event(
        "barnen".into(),
        "raw".into(),
        0x1e,
        0,
        0x41,
    ))
    .unwrap();
    sink.key_down(&normalize_raw_keyboard_event(
        "barnen".into(),
        "raw".into(),
        0x30,
        0,
        0x42,
    ))
    .unwrap();
    sink.release_all().unwrap();
    let calls = fake.0.lock().unwrap();
    let injected: Vec<_> = calls
        .iter()
        .map(|call| call.last().unwrap().as_str())
        .collect();
    assert_eq!(injected, ["1e", "30", "9e", "b0"]);
}
