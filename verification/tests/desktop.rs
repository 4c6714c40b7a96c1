use multiseat_virtualization::displays::{DisplayBounds, DisplayDevice};
use multiseat_virtualization::virtualization::virtualbox::focus_protection::{
    FocusGuard, FocusRestoration, ForegroundAction, ForegroundWindow,
};
use multiseat_virtualization::virtualization::virtualbox::mouse_integration::{
    documented_backend, simulated_backend,
};
use multiseat_virtualization::virtualization::virtualbox::presentation::WindowDescriptor;
use multiseat_virtualization::virtualization::virtualbox::presentation_session::{
    presentation_pause, Desktop, PresentationSession, StyleWord, TraceClock, WindowLong,
    WindowPlacement, WindowRect, CHROME_MASK,
};
use multiseat_virtualization::virtualization::virtualbox::service::{fitting_millis, trace_clock};
use multiseat_virtualization::virtualization::virtualbox::{
    ManagedVmWindowIdentity, MouseIntegrationController, MouseIntegrationState,
    PresentationFailureReason, PresentationMode, PresentationState,
};
use std::sync::{Arc, Mutex};

const STYLE: isize = 0x16CF_0000;

#[derive(Clone, Debug, Eq, PartialEq)]
enum Act {
    Style(isize, StyleWord, isize),
    Move(isize, DisplayBounds, bool),
    Placement(isize, WindowPlacement),
}

struct Desk {
    windows: Vec<WindowDescriptor>,
    displays: Result<Vec<DisplayDevice>, String>,
    late: bool,
    alive: bool,
    stuck: bool,
    style_error: u32,
    style: isize,
    rect: WindowRect,
    acts: Vec<Act>,
}

#[derive(Clone)]
struct FakeDesktop(Arc<Mutex<Desk>>);

impl Desktop for FakeDesktop {
    fn windows(&mut self) -> Vec<WindowDescriptor> {
        self.0.lock().unwrap().windows.clone()
    }

    fn displays(&mut self) -> Result<Vec<DisplayDevice>, String> {
        self.0.lock().unwrap().displays.clone()
    }

    fn past_deadline(&mut self) -> bool {
        self.0.lock().unwrap().late
    }

    fn clock(&mut self) -> TraceClock {
        TraceClock {
            timestamp_ms: 1,
            elapsed_ms: 2,
        }
    }

    fn is_window(&mut self, _handle: isize) -> bool {
        self.0.lock().unwrap().alive
    }

    fn window_rect(&mut self, _handle: isize) -> Result<WindowRect, String> {
        Ok(self.0.lock().unwrap().rect)
    }

    fn window_placement(&mut self, _handle: isize) -> Result<WindowPlacement, String> {
        Ok(placement())
    }

    fn style(&mut self, _handle: isize, word: StyleWord) -> WindowLong {
        let desk = self.0.lock().unwrap();
        WindowLong {
            value: match word {
                StyleWord::Style => desk.style,
                StyleWord::ExtendedStyle => 0,
            },
            error: 0,
        }
    }

    fn set_style(&mut self, handle: isize, word: StyleWord, value: isize) -> WindowLong {
        let mut desk = self.0.lock().unwrap();
        desk.acts.push(Act::Style(handle, word, value));
        if desk.style_error != 0 {
            return WindowLong {
                value: 0,
                error: desk.style_error,
            };
        }
        if word == StyleWord::Style {
            desk.style = value;
        }
        WindowLong { value: 1, error: 0 }
    }

    fn move_window(
        &mut self,
        handle: isize,
        bounds: DisplayBounds,
        on_top: bool,
    ) -> Result<(), String> {
        let mut desk = self.0.lock().unwrap();
        desk.acts.push(Act::Move(handle, bounds, on_top));
        if !desk.stuck {
            desk.rect = WindowRect {
                left: bounds.x,
                top: bounds.y,
                right: bounds.x + bounds.width,
                bottom: bounds.y + bounds.height,
            };
        }
        Ok(())
    }

    fn monitor_of_window(&mut self, _handle: isize) -> isize {
        7
    }

    fn monitor_of_rect(&mut self, _rect: WindowRect) -> isize {
        7
    }

    fn set_placement(&mut self, handle: isize, placement: WindowPlacement) {
        self.0
            .lock()
            .unwrap()
            .acts
            .push(Act::Placement(handle, placement));
    }
}

fn placement() -> WindowPlacement {
    WindowPlacement {
        flags: 0,
        show_command: 1,
        minimized_x: -1,
        minimized_y: -1,
        maximized_x: -1,
        maximized_y: -1,
        normal: before(),
    }
}

fn before() -> WindowRect {
    WindowRect {
        left: 10,
        top: 20,
        right: 810,
        bottom: 620,
    }
}

fn bounds() -> DisplayBounds {
    DisplayBounds {
        x: 1920,
        y: 0,
        width: 1280,
        height: 1024,
    }
}

fn display(id: &str, bounds: Option<DisplayBounds>) -> DisplayDevice {
    DisplayDevice {
        id: id.into(),
        pnp_instance_id: None,
        device_name: "monitor".into(),
        desktop_device_name: "desktop".into(),
        friendly_name: None,
        device_path: None,
        adapter_name: "adapter".into(),
        adapter_device_id: None,
        primary: false,
        bounds,
    }
}

fn machine_window(handle: isize, process_id: u32) -> WindowDescriptor {
    WindowDescriptor {
        handle,
        process_id,
        executable_name: "VirtualBoxVM.exe".into(),
        title: "Windows - Barnen [Running]".into(),
        class_name: "Qt".into(),
        visible: true,
        owner_handle: None,
        bounds: None,
    }
}

fn target() -> ManagedVmWindowIdentity {
    ManagedVmWindowIdentity {
        vm_uuid: "vm-1".into(),
        vm_name: "Windows - Barnen".into(),
        session_pid: Some(42),
    }
}

fn desktop() -> FakeDesktop {
    FakeDesktop(Arc::new(Mutex::new(Desk {
        windows: vec![machine_window(5, 41), machine_window(6, 42)],
        displays: Ok(vec![
            display("other", Some(DisplayBounds { x: 0, ..bounds() })),
            display("mine", Some(bounds())),
        ]),
        late: false,
        alive: true,
        stuck: false,
        style_error: 0,
        style: STYLE,
        rect: before(),
        acts: Vec::new(),
    })))
}

fn session(desktop: &FakeDesktop) -> PresentationSession {
    PresentationSession::new(target(), "mine".into(), Box::new(desktop.clone()))
}

#[test]
fn a_round_places_only_the_machines_window_on_its_display() {
    let desktop = desktop();
    let mut session = session(&desktop);
    session.update_presentation();
    let status = session.status();
    assert_eq!(status.state, PresentationState::Presented);
    assert_eq!(status.mode, PresentationMode::Borderless);
    assert_eq!(status.bounds, Some(bounds()));
    assert_eq!(status.display_name.as_deref(), Some("desktop"));
    assert_eq!(status.managed_window_process_id, Some(42));
    let stages: Vec<_> = status.trace.iter().map(|step| step.stage.clone()).collect();
    assert_eq!(
        stages,
        [
            "WindowDiscoveryAttempt",
            "VmWindowResolved",
            "DisplayResolved",
            "StyleRead",
            "BorderlessApplied",
            "WindowMoved",
            "Presented"
        ]
    );
    assert_eq!(
        status.trace[1].detail.as_deref(),
        Some("class='Qt', title='Windows - Barnen [Running]', owner=None")
    );
    assert_eq!(
        desktop.0.lock().unwrap().acts,
        [
            Act::Style(6, StyleWord::Style, STYLE & !CHROME_MASK),
            Act::Move(6, bounds(), true)
        ]
    );
    session.update_presentation();
    assert_eq!(desktop.0.lock().unwrap().acts.len(), 2);
}

#[test]
fn unlocking_puts_the_window_back_as_it_was() {
    let desktop = desktop();
    let mut session = session(&desktop);
    session.update_presentation();
    desktop.0.lock().unwrap().acts.clear();
    session.set_locked(false);
    let status = session.status();
    assert_eq!(status.state, PresentationState::NotPresented);
    assert_eq!(status.mode, PresentationMode::ConventionalWindow);
    let restored = DisplayBounds {
        x: 10,
        y: 20,
        width: 800,
        height: 600,
    };
    assert_eq!(
        desktop.0.lock().unwrap().acts,
        [
            Act::Style(6, StyleWord::Style, STYLE),
            Act::Style(6, StyleWord::ExtendedStyle, 0),
            Act::Move(6, restored, false),
            Act::Placement(6, placement())
        ]
    );
    desktop.0.lock().unwrap().acts.clear();
    session.update_presentation();
    session.restore_original();
    assert!(desktop.0.lock().unwrap().acts.is_empty());
    assert_eq!(session.status().state, PresentationState::NotPresented);
}

#[test]
fn another_display_is_never_used() {
    let desktop = desktop();
    desktop.0.lock().unwrap().displays = Ok(vec![display("other", Some(bounds()))]);
    let mut session = session(&desktop);
    session.update_presentation();
    let status = session.status();
    assert_eq!(status.state, PresentationState::PresentationUnavailable);
    assert_eq!(
        status.failure_reason,
        Some(PresentationFailureReason::DisplayNotResolved)
    );
    assert!(desktop.0.lock().unwrap().acts.is_empty());
    desktop.0.lock().unwrap().displays = Ok(vec![display("mine", None)]);
    session.update_presentation();
    assert_eq!(
        session.status().last_error.as_deref(),
        Some("assigned display has no current HMONITOR bounds")
    );
    desktop.0.lock().unwrap().displays = Err("no session".to_owned());
    session.update_presentation();
    assert_eq!(session.status().state, PresentationState::Error);
    assert_eq!(session.status().last_error.as_deref(), Some("no session"));
    assert!(desktop.0.lock().unwrap().acts.is_empty());
}

#[test]
fn a_window_that_is_not_there_is_waited_for_until_the_deadline() {
    let desktop = desktop();
    desktop.0.lock().unwrap().windows.clear();
    let mut session = session(&desktop);
    session.update_presentation();
    assert_eq!(
        session.status().state,
        PresentationState::WaitingForVmWindow
    );
    assert_eq!(session.status().last_error, None);
    desktop.0.lock().unwrap().late = true;
    session.update_presentation();
    let status = session.status();
    assert_eq!(status.state, PresentationState::PresentationUnavailable);
    assert_eq!(
        status.failure_reason,
        Some(PresentationFailureReason::NoMatchingVmWindow)
    );
    assert_eq!(
        status.last_error.as_deref(),
        Some("managed VirtualBoxVM window was not found within 20 seconds; VM remains running")
    );
    assert_eq!(
        status.trace.last().unwrap().error.as_deref(),
        status.last_error.as_deref()
    );
}

#[test]
fn a_window_that_does_not_obey_is_reported() {
    let desktop = desktop();
    desktop.0.lock().unwrap().stuck = true;
    let mut session = session(&desktop);
    session.update_presentation();
    let status = session.status();
    assert_eq!(status.state, PresentationState::Error);
    assert_eq!(
        status.failure_reason,
        Some(PresentationFailureReason::PostconditionVerificationFailed)
    );
    assert_eq!(
        status.last_error.as_deref(),
        Some("borderless postcondition failed: style=0x16000000 expected=0x16000000, rect=RECT { left: 10, top: 20, right: 810, bottom: 620 } expected=RECT { left: 1920, top: 0, right: 3200, bottom: 1024 }, target_monitor_match=true")
    );
}

#[test]
fn a_style_that_cannot_be_set_is_reported_with_its_error() {
    let desktop = desktop();
    desktop.0.lock().unwrap().style_error = 5;
    let mut session = session(&desktop);
    session.update_presentation();
    let status = session.status();
    assert_eq!(
        status.failure_reason,
        Some(PresentationFailureReason::SetWindowStyleFailed)
    );
    assert_eq!(
        status.last_error.as_deref(),
        Some("SetWindowLongPtrW(GWL_STYLE) failed with Windows error 5")
    );
    desktop.0.lock().unwrap().alive = false;
    session.update_presentation();
    assert_eq!(
        session.status().last_error.as_deref(),
        Some("managed VirtualBoxVM window is no longer valid")
    );
}

#[test]
fn a_presentation_that_is_unavailable_touches_nothing() {
    let desktop = desktop();
    let mut session =
        PresentationSession::unavailable(None, "no display".into(), Box::new(desktop.clone()));
    session.update_presentation();
    assert_eq!(
        session.status().state,
        PresentationState::PresentationUnavailable
    );
    assert_eq!(session.status().last_error.as_deref(), Some("no display"));
    assert!(desktop.0.lock().unwrap().acts.is_empty());
}

#[test]
fn rounds_follow_quickly_until_the_deadline_and_slowly_after_it() {
    assert_eq!(presentation_pause(false, false), Some(250));
    assert_eq!(presentation_pause(true, false), Some(250));
    assert_eq!(presentation_pause(true, true), Some(2000));
    assert_eq!(presentation_pause(false, true), None);
}

#[test]
fn times_that_do_not_fit_are_told() {
    assert_eq!(fitting_millis(1_700_000_000_123), Some(1_700_000_000_123));
    assert_eq!(fitting_millis(u128::from(u64::MAX)), Some(u64::MAX));
    assert_eq!(fitting_millis(u128::from(u64::MAX) + 1), None);
    let clock = trace_clock(None, None);
    assert_eq!(clock.timestamp_ms, 0);
    assert_eq!(clock.elapsed_ms, u64::MAX);
    assert_eq!(trace_clock(Some(9), Some(4)).timestamp_ms, 9);
    assert_eq!(trace_clock(Some(9), Some(4)).elapsed_ms, 4);
}

fn foreground(executable_name: &str) -> ForegroundWindow {
    ForegroundWindow {
        process_id: 42,
        executable_name: executable_name.into(),
        title: "Windows - Barnen".into(),
    }
}

#[test]
fn focus_goes_back_to_the_last_safe_window() {
    let mut guard = FocusGuard::new(target(), Some(1), Some(2));
    assert_eq!(guard.last_safe_window, Some(1));
    assert_eq!(
        guard.handle_foreground_window(3, Some(&foreground("notepad.exe"))),
        ForegroundAction::Leave
    );
    assert_eq!(guard.last_safe_window, Some(3));
    assert_eq!(
        guard.handle_foreground_window(4, Some(&foreground("virtualboxvm.EXE"))),
        ForegroundAction::Restore(Some(3))
    );
    guard.record_restoration(FocusRestoration::Restored);
    assert_eq!(guard.status.restoration_count, 1);
    assert_eq!(guard.status.last_error, None);
    guard.record_restoration(FocusRestoration::Refused);
    assert_eq!(
        guard.status.last_error.as_deref(),
        Some("SetForegroundWindow could not restore host focus")
    );
    guard.record_restoration(FocusRestoration::NoAnchor);
    assert_eq!(
        guard.status.last_error.as_deref(),
        Some("no valid MultiSeat Lite focus anchor is available")
    );
    guard.set_locked(false);
    assert_eq!(
        guard.handle_foreground_window(4, Some(&foreground("VirtualBoxVM.exe"))),
        ForegroundAction::Leave
    );
    assert!(guard.status.managed_window_found);
    assert_eq!(guard.last_safe_window, Some(3));
}

#[test]
fn mouse_integration_is_given_back_only_where_it_was_taken() {
    let mut mice = simulated_backend();
    assert_eq!(
        mice.restore_if_owned("vm-1").unwrap().observed,
        MouseIntegrationState::Unknown
    );
    let switched = mice
        .request("vm-1", MouseIntegrationState::Disabled)
        .unwrap();
    assert_eq!(switched.observed, MouseIntegrationState::Disabled);
    assert!(switched.owned_by_multiseat);
    let restored = mice.restore_if_owned("vm-1").unwrap();
    assert_eq!(restored.observed, MouseIntegrationState::Enabled);
    assert!(!restored.owned_by_multiseat);
    let told = documented_backend()
        .request("vm-1", MouseIntegrationState::Disabled)
        .unwrap();
    assert_eq!(told.requested, MouseIntegrationState::Disabled);
    assert_eq!(told.observed, MouseIntegrationState::Unknown);
    assert!(!told.owned_by_multiseat);
}
