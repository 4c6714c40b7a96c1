//! A presentation at work: finding the window and the display, and fitting one to the other.
use super::focus_protection::{ManagedVmWindowIdentity, ManagedVmWindowIdentityView};
use super::presentation;
use super::presentation::{
    borderless_placement, borderless_postconditions_match, classify_operation_result,
    resolve_assigned_display, select_managed_window, window_candidates, DisplayPresentationStatus,
    DisplayPresentationStatusView, PresentationFailureReason, PresentationMode, PresentationState,
    PresentationTraceEntry, PresentationTraceEntryView, WindowDescriptor, WindowDescriptorView,
};
use crate::displays::{DisplayBounds, DisplayDevice, DisplayDeviceView};
use crate::duplicate;
use crate::duplicate::Duplicate;
use crate::journal;
use crate::journal::{Exchange, Journaled, Kept, Relation, World};
use crate::text::compose::{concat2, concat3, concat5, concat7, copy_opt};
use crate::text::model;
use crate::text::model::Text;
use crate::text::number::{hex_text, number_text, signed_text, word_text};
use vstd::prelude::*;

verus! {

/// The parts of a window's style that make up its frame: caption, sizing border, minimize and
/// maximize boxes, and system menu.
pub const CHROME_MASK: isize = 0x00CF_0000;

/// The most steps that a trace holds.
pub const TRACE_LIMIT: usize = 128;

/// The edges of a window.
#[derive(Clone, Copy, Debug, Eq, PartialEq, Structural)]
pub struct WindowRect {
    pub left: i32,
    pub top: i32,
    pub right: i32,
    pub bottom: i32,
}

/// How a window is shown, and where it goes when it is not.
#[derive(Clone, Copy, Debug, Eq, PartialEq, Structural)]
pub struct WindowPlacement {
    pub flags: u32,
    pub show_command: u32,
    pub minimized_x: i32,
    pub minimized_y: i32,
    pub maximized_x: i32,
    pub maximized_y: i32,
    pub normal: WindowRect,
}

/// What a window was like before it was changed.
#[derive(Clone, Copy, Debug, Eq, PartialEq, Structural)]
pub struct OriginalWindow {
    pub handle: isize,
    pub style: isize,
    pub extended_style: isize,
    pub bounds: WindowRect,
    pub placement: WindowPlacement,
}

/// What reading or writing a style gave: a value that is zero also when it failed, and the
/// error that tells the two apart.
#[derive(Clone, Copy, Debug, Eq, PartialEq, Structural)]
pub struct WindowLong {
    pub value: isize,
    pub error: u32,
}

/// The time of a step, by the clock and since the presentation began.
#[derive(Clone, Copy, Debug, Eq, PartialEq, Structural)]
pub struct TraceClock {
    pub timestamp_ms: u64,
    pub elapsed_ms: u64,
}

/// The two words of style that a window has.
#[derive(Clone, Copy, Debug, Eq, PartialEq, Structural)]
pub enum StyleWord {
    Style,
    ExtendedStyle,
}

/// The windows, displays and clock of the desktop. Nothing is promised of what it answers but
/// what an implementation chooses to promise.
pub trait Desktop: Send + Sync {
    /// Which answers it may give to which requests, whatever it has been asked before.
    open spec fn answers(&self) -> Relation<DesktopRequest, DesktopReply> {
        |request: DesktopRequest, reply: DesktopReply| true
    }

    fn windows(&mut self) -> (r: Vec<WindowDescriptor>)
        ensures
            old(self).answers()(DesktopRequest::Windows, DesktopReply::Windows(duplicate::views(r@))),
            final(self).answers() == old(self).answers(),
    ;

    fn displays(&mut self) -> (r: Result<Vec<DisplayDevice>, String>)
        ensures
            old(self).answers()(DesktopRequest::Displays, DesktopReply::Displays(displays_view(r))),
            final(self).answers() == old(self).answers(),
    ;

    fn past_deadline(&mut self) -> (r: bool)
        ensures
            old(self).answers()(DesktopRequest::PastDeadline, DesktopReply::Flag(r)),
            final(self).answers() == old(self).answers(),
    ;

    fn clock(&mut self) -> (r: TraceClock)
        ensures
            old(self).answers()(DesktopRequest::Clock, DesktopReply::Clock(r)),
            final(self).answers() == old(self).answers(),
    ;

    fn is_window(&mut self, handle: isize) -> (r: bool)
        ensures
            old(self).answers()(DesktopRequest::IsWindow(handle), DesktopReply::Flag(r)),
            final(self).answers() == old(self).answers(),
    ;

    fn window_rect(&mut self, handle: isize) -> (r: Result<WindowRect, String>)
        ensures
            old(self).answers()(DesktopRequest::WindowRect(handle), DesktopReply::Rect(model::with_message(r))),
            final(self).answers() == old(self).answers(),
    ;

    fn window_placement(&mut self, handle: isize) -> (r: Result<WindowPlacement, String>)
        ensures
            old(self).answers()(DesktopRequest::WindowPlacement(handle), DesktopReply::Placement(model::with_message(r))),
            final(self).answers() == old(self).answers(),
    ;

    fn style(&mut self, handle: isize, word: StyleWord) -> (r: WindowLong)
        ensures
            old(self).answers()(DesktopRequest::Style(handle, word), DesktopReply::Long(r)),
            final(self).answers() == old(self).answers(),
    ;

    fn set_style(&mut self, handle: isize, word: StyleWord, value: isize) -> (r: WindowLong)
        ensures
            old(self).answers()(DesktopRequest::SetStyle(handle, word, value), DesktopReply::Long(r)),
            final(self).answers() == old(self).answers(),
    ;

    /// Moves a window, above all others where `on_top` is set.
    fn move_window(&mut self, handle: isize, bounds: DisplayBounds, on_top: bool) -> (r: Result<(), String>)
        ensures
            old(self).answers()(DesktopRequest::MoveWindow(handle, bounds, on_top), DesktopReply::Done(model::with_message(r))),
            final(self).answers() == old(self).answers(),
    ;

    /// The monitor that a window is on, or zero.
    fn monitor_of_window(&mut self, handle: isize) -> (r: isize)
        ensures
            old(self).answers()(DesktopRequest::MonitorOfWindow(handle), DesktopReply::Monitor(r)),
            final(self).answers() == old(self).answers(),
    ;

    /// The monitor that a rectangle is on, or zero.
    fn monitor_of_rect(&mut self, rect: WindowRect) -> (r: isize)
        ensures
            old(self).answers()(DesktopRequest::MonitorOfRect(rect), DesktopReply::Monitor(r)),
            final(self).answers() == old(self).answers(),
    ;

    fn set_placement(&mut self, handle: isize, placement: WindowPlacement)
        ensures
            old(self).answers()(DesktopRequest::SetPlacement(handle, placement), DesktopReply::Nothing),
            final(self).answers() == old(self).answers(),
    ;
}

/// What a session asks of the desktop.
pub enum DesktopRequest {
    Windows,
    Displays,
    PastDeadline,
    Clock,
    IsWindow(isize),
    WindowRect(isize),
    WindowPlacement(isize),
    Style(isize, StyleWord),
    SetStyle(isize, StyleWord, isize),
    MoveWindow(isize, DisplayBounds, bool),
    MonitorOfWindow(isize),
    MonitorOfRect(WindowRect),
    SetPlacement(isize, WindowPlacement),
}

/// What the desktop answers.
pub enum DesktopReply {
    Windows(Seq<WindowDescriptorView>),
    Displays(Result<Seq<DisplayDeviceView>, Text>),
    Flag(bool),
    Clock(TraceClock),
    Rect(Result<WindowRect, Text>),
    Placement(Result<WindowPlacement, Text>),
    Long(WindowLong),
    Done(Result<(), Text>),
    Monitor(isize),
    Nothing,
}

/// A presentation at work.
pub struct PresentationSession {
    target: ManagedVmWindowIdentity,
    assigned_display_id: String,
    locked: bool,
    status: DisplayPresentationStatus,
    original: Option<OriginalWindow>,
    desktop: Kept<Box<dyn Desktop>>,
    journal: Ghost<Seq<Exchange<DesktopRequest, DesktopReply>>>,
}

/// The state of a presentation at work.
#[verifier::ext_equal]
pub struct SessionView {
    pub target: ManagedVmWindowIdentityView,
    pub assigned_display_id: Text,
    pub locked: bool,
    pub status: DisplayPresentationStatusView,
    pub original: Option<OriginalWindow>,
}

impl Journaled for PresentationSession {
    type Request = DesktopRequest;

    type Reply = DesktopReply;

    type State = SessionView;

    closed spec fn journal(self) -> Seq<Exchange<DesktopRequest, DesktopReply>> {
        self.journal@
    }

    closed spec fn state(self) -> SessionView {
        SessionView {
            target: self.target@,
            assigned_display_id: self.assigned_display_id@,
            locked: self.locked,
            status: self.status@,
            original: self.original,
        }
    }

    closed spec fn answers(self) -> Relation<DesktopRequest, DesktopReply> {
        self.desktop.0.answers()
    }
}

/// What a presentation was like before a round.
#[derive(Clone, Copy, Debug, Eq, PartialEq, Structural)]
pub struct PriorRound {
    pub state: PresentationState,
    pub window_found: bool,
    pub bounds: Option<DisplayBounds>,
}

/// The world of a session.
pub type Desk = World<DesktopRequest, DesktopReply, SessionView>;

/// What can go wrong in placing a window.
pub type Failure = (PresentationFailureReason, Text);

// ---- Programs --------------------------------------------------------------------------

/// A trace with one more step. The oldest steps make room.
pub open spec fn traced<A>(trace: Seq<A>, entry: A) -> Seq<A> {
    if trace.len() >= TRACE_LIMIT {
        trace.skip(1).push(entry)
    } else {
        trace.push(entry)
    }
}

pub open spec fn with_status(w: Desk, status: DisplayPresentationStatusView) -> Desk {
    journal::in_state(w, SessionView { status, ..w.state })
}

/// Records a step.
pub open spec fn push_trace_p(
    w: Desk,
    stage: Text,
    detail: Option<Text>,
    process_id: Option<u32>,
    window_handle: Option<isize>,
    target_bounds: Option<DisplayBounds>,
    error: Option<Text>,
) -> Desk {
    let (w1, reply) = journal::ask(w, DesktopRequest::Clock);
    let clock = reply->Clock_0;
    with_status(
        w1,
        DisplayPresentationStatusView {
            trace: traced(
                w1.state.status.trace,
                PresentationTraceEntryView {
                    stage,
                    timestamp_ms: clock.timestamp_ms,
                    elapsed_ms: clock.elapsed_ms,
                    duration_ms: None,
                    detail,
                    process_id,
                    window_handle,
                    target_display_id: Some(w1.state.assigned_display_id),
                    target_bounds,
                    error,
                },
            ),
            ..w1.state.status
        },
    )
}

/// The meaning of what reading a style gave.
pub open spec fn read_style(long: WindowLong, label: Text) -> Result<isize, Text> {
    if long.value == 0 && long.error != 0 {
        Err(
            "GetWindowLongPtrW("@ + label + ") failed with Windows error "@ + model::decimal(
                long.error as nat,
            ),
        )
    } else {
        Ok(long.value)
    }
}

/// The meaning of what writing a style gave.
pub open spec fn wrote_style(long: WindowLong, label: Text) -> Result<(), Text> {
    if long.value == 0 && long.error != 0 {
        Err(
            "SetWindowLongPtrW("@ + label + ") failed with Windows error "@ + model::decimal(
                long.error as nat,
            ),
        )
    } else {
        Ok(())
    }
}

pub open spec fn style_p(w: Desk, handle: isize, word: StyleWord, label: Text) -> (
    Desk,
    Result<isize, Text>,
) {
    let (w1, reply) = journal::ask(w, DesktopRequest::Style(handle, word));
    (w1, read_style(reply->Long_0, label))
}

pub open spec fn set_style_p(
    w: Desk,
    handle: isize,
    word: StyleWord,
    value: isize,
    label: Text,
) -> (Desk, Result<(), Text>) {
    let (w1, reply) = journal::ask(w, DesktopRequest::SetStyle(handle, word, value));
    (w1, wrote_style(reply->Long_0, label))
}

/// Bounds as edges.
pub open spec fn edges(bounds: DisplayBounds) -> WindowRect {
    WindowRect {
        left: bounds.x,
        top: bounds.y,
        right: bounds.x.wrapping_add(bounds.width),
        bottom: bounds.y.wrapping_add(bounds.height),
    }
}

/// Edges as bounds.
pub open spec fn extent(rect: WindowRect) -> DisplayBounds {
    DisplayBounds {
        x: rect.left,
        y: rect.top,
        width: rect.right.wrapping_sub(rect.left),
        height: rect.bottom.wrapping_sub(rect.top),
    }
}

/// Edges in a message.
pub open spec fn rect_text(rect: WindowRect) -> Text {
    "RECT { left: "@ + model::signed_decimal(rect.left as int) + ", top: "@ + model::signed_decimal(
        rect.top as int,
    ) + ", right: "@ + model::signed_decimal(rect.right as int) + ", bottom: "@
        + model::signed_decimal(rect.bottom as int) + " }"@
}

/// What is said of a window that is not as a placement wants it.
pub open spec fn misplaced_text(
    actual_style: isize,
    expected_style: isize,
    actual: WindowRect,
    expected: WindowRect,
    monitor: bool,
) -> Text {
    "borderless postcondition failed: style="@ + model::hex_word(actual_style) + " expected="@
        + model::hex_word(expected_style) + ", rect="@ + rect_text(actual) + " expected="@
        + rect_text(expected) + ", target_monitor_match="@ + (if monitor {
        "true"@
    } else {
        "false"@
    })
}

/// Reads a window back and compares it with what was wanted.
pub open spec fn verify_p(
    w: Desk,
    handle: isize,
    expected_style: isize,
    expected_bounds: DisplayBounds,
    chrome_mask: isize,
) -> (Desk, Result<(), Failure>) {
    let failed = PresentationFailureReason::PostconditionVerificationFailed;
    match style_p(w, handle, StyleWord::Style, "GWL_STYLE postcondition"@) {
        (w1, Err(error)) => (w1, Err((failed, error))),
        (w1, Ok(actual_style)) => {
            let (w2, reply) = journal::ask(w1, DesktopRequest::WindowRect(handle));
            match reply->Rect_0 {
                Err(error) => (
                    w2,
                    Err((failed, "postcondition GetWindowRect failed: "@ + error)),
                ),
                Ok(actual) => {
                    let expected = edges(expected_bounds);
                    let (w3, on) = journal::ask(w2, DesktopRequest::MonitorOfWindow(handle));
                    let (w4, wanted) = journal::ask(w3, DesktopRequest::MonitorOfRect(expected));
                    let monitor = wanted->Monitor_0 != 0 && on->Monitor_0 == wanted->Monitor_0;
                    if presentation::placed(
                        actual_style,
                        expected_style,
                        chrome_mask,
                        extent(actual),
                        expected_bounds,
                        monitor,
                    ) {
                        (w4, Ok(()))
                    } else {
                        (
                            w4,
                            Err(
                                (
                                    failed,
                                    misplaced_text(
                                        actual_style,
                                        expected_style,
                                        actual,
                                        expected,
                                        monitor,
                                    ),
                                ),
                            ),
                        )
                    }
                },
            }
        },
    }
}

/// Keeps what a window is like, unless that has been done.
pub open spec fn preserve_p(w: Desk, handle: isize) -> (Desk, Result<OriginalWindow, Failure>) {
    let failed = PresentationFailureReason::WindowStateReadFailed;
    match w.state.original {
        Some(original) => if original.handle == handle {
            (w, Ok(original))
        } else {
            read_original_p(w, handle)
        },
        None => read_original_p(w, handle),
    }
}

pub open spec fn read_original_p(w: Desk, handle: isize) -> (Desk, Result<OriginalWindow, Failure>) {
    let failed = PresentationFailureReason::WindowStateReadFailed;
    let (w1, rect) = journal::ask(w, DesktopRequest::WindowRect(handle));
    match rect->Rect_0 {
        Err(error) => (w1, Err((failed, "GetWindowRect failed: "@ + error))),
        Ok(bounds) => {
            let (w2, shown) = journal::ask(w1, DesktopRequest::WindowPlacement(handle));
            match shown->Placement_0 {
                Err(error) => (w2, Err((failed, "GetWindowPlacement failed: "@ + error))),
                Ok(placement) => match style_p(w2, handle, StyleWord::Style, "GWL_STYLE"@) {
                    (w3, Err(error)) => (w3, Err((failed, error))),
                    (w3, Ok(style)) => match style_p(
                        w3,
                        handle,
                        StyleWord::ExtendedStyle,
                        "GWL_EXSTYLE"@,
                    ) {
                        (w4, Err(error)) => (w4, Err((failed, error))),
                        (w4, Ok(extended_style)) => {
                            let original = OriginalWindow {
                                handle,
                                style,
                                extended_style,
                                bounds,
                                placement,
                            };
                            (
                                journal::in_state(
                                    w4,
                                    SessionView { original: Some(original), ..w4.state },
                                ),
                                Ok(original),
                            )
                        },
                    },
                },
            }
        },
    }
}

/// Takes the frame off a window, moves it onto the display, and makes sure of both.
pub open spec fn apply_p(w: Desk, handle: isize, bounds: DisplayBounds) -> (
    Desk,
    Result<(), Failure>,
) {
    let (w1, alive) = journal::ask(w, DesktopRequest::IsWindow(handle));
    if !alive->Flag_0 {
        (
            w1,
            Err(
                (
                    PresentationFailureReason::WindowStateReadFailed,
                    "managed VirtualBoxVM window is no longer valid"@,
                ),
            ),
        )
    } else {
        match preserve_p(w1, handle) {
            (w2, Err(failure)) => (w2, Err(failure)),
            (w2, Ok(original)) => place_p(w2, handle, bounds, original),
        }
    }
}

pub open spec fn place_p(
    w: Desk,
    handle: isize,
    bounds: DisplayBounds,
    original: OriginalWindow,
) -> (Desk, Result<(), Failure>) {
    let style = original.style & !CHROME_MASK;
    let w1 = push_trace_p(w, "StyleRead"@, None, None, Some(handle), Some(bounds), None);
    match set_style_p(w1, handle, StyleWord::Style, style, "GWL_STYLE"@) {
        (w2, Err(error)) => (
            w2,
            Err((PresentationFailureReason::SetWindowStyleFailed, error)),
        ),
        (w2, Ok(())) => {
            let w3 = push_trace_p(
                w2,
                "BorderlessApplied"@,
                None,
                None,
                Some(handle),
                Some(bounds),
                None,
            );
            let (w4, moved) = journal::ask(w3, DesktopRequest::MoveWindow(handle, bounds, true));
            match moved->Done_0 {
                Err(error) => (
                    w4,
                    Err(
                        (
                            PresentationFailureReason::SetWindowPosFailed,
                            "SetWindowPos(borderless presentation) failed: "@ + error,
                        ),
                    ),
                ),
                Ok(()) => verify_p(
                    push_trace_p(w4, "WindowMoved"@, None, None, Some(handle), Some(bounds), None),
                    handle,
                    style,
                    bounds,
                    CHROME_MASK,
                ),
            }
        },
    }
}

/// Puts a window back as it was, where it was changed and still is one.
pub open spec fn restore_p(w: Desk) -> Desk {
    match w.state.original {
        None => w,
        Some(original) => {
            let w0 = journal::in_state(w, SessionView { original: None, ..w.state });
            let (w1, alive) = journal::ask(w0, DesktopRequest::IsWindow(original.handle));
            if alive->Flag_0 {
                let (w2, _) = journal::ask(
                    w1,
                    DesktopRequest::SetStyle(original.handle, StyleWord::Style, original.style),
                );
                let (w3, _) = journal::ask(
                    w2,
                    DesktopRequest::SetStyle(
                        original.handle,
                        StyleWord::ExtendedStyle,
                        original.extended_style,
                    ),
                );
                let (w4, _) = journal::ask(
                    w3,
                    DesktopRequest::MoveWindow(original.handle, extent(original.bounds), false),
                );
                let (w5, _) = journal::ask(
                    w4,
                    DesktopRequest::SetPlacement(original.handle, original.placement),
                );
                w5
            } else {
                w1
            }
        },
    }
}

/// Locks or unlocks. Unlocking puts the window back.
pub open spec fn set_locked_p(w: Desk, locked: bool) -> Desk {
    let w0 = journal::in_state(w, SessionView { locked, ..w.state });
    let w1 = if locked {
        w0
    } else {
        restore_p(w0)
    };
    with_status(
        w1,
        DisplayPresentationStatusView {
            state: if locked {
                PresentationState::ResolvingDisplay
            } else {
                PresentationState::NotPresented
            },
            mode: if locked {
                PresentationMode::Borderless
            } else {
                PresentationMode::ConventionalWindow
            },
            ..w1.state.status
        },
    )
}

/// One round of a presentation: look for the window, then for the display, then fit them.
pub open spec fn update_p(w: Desk) -> Desk {
    if !w.state.locked {
        w
    } else {
        let prior = PriorRound {
            state: w.state.status.state,
            window_found: w.state.status.managed_window_found,
            bounds: w.state.status.bounds,
        };
        let (w1, reply) = journal::ask(w, DesktopRequest::Windows);
        let windows = reply->Windows_0;
        let w2 = with_status(
            w1,
            DisplayPresentationStatusView {
                window_candidates: presentation::candidate_list(windows),
                ..w1.state.status
            },
        );
        let w3 = if prior.state != PresentationState::Presented && prior.state
            != PresentationState::PresentationUnavailable {
            push_trace_p(
                w2,
                "WindowDiscoveryAttempt"@,
                Some(
                    model::decimal(presentation::candidate_list(windows).len())
                        + " VirtualBoxVM.exe top-level candidate(s)"@,
                ),
                None,
                None,
                None,
                None,
            )
        } else {
            w2
        };
        match presentation::managed_window(w3.state.target, windows) {
            None => no_window_p(w3, prior.state),
            Some(window) => window_p(w3, prior, window),
        }
    }
}

pub open spec fn late_p(w: Desk) -> (Desk, bool) {
    let (w1, reply) = journal::ask(w, DesktopRequest::PastDeadline);
    (w1, reply->Flag_0)
}

pub open spec fn no_window_notice() -> Text {
    "managed VirtualBoxVM window was not found within 20 seconds; VM remains running"@
}

/// What follows where the window is not there.
pub open spec fn no_window_p(w: Desk, prior: PresentationState) -> Desk {
    let (w1, late_state) = late_p(w);
    let (w2, late_reason) = late_p(w1);
    let (w3, late_error) = late_p(w2);
    let w4 = with_status(
        w3,
        DisplayPresentationStatusView {
            managed_window_found: false,
            managed_window_process_id: None,
            state: if late_state {
                PresentationState::PresentationUnavailable
            } else {
                PresentationState::WaitingForVmWindow
            },
            failure_reason: if late_reason {
                Some(
                    if w3.state.target.session_pid is None {
                        PresentationFailureReason::ManagedVmPidUnknown
                    } else {
                        PresentationFailureReason::NoMatchingVmWindow
                    },
                )
            } else {
                None
            },
            last_error: if late_error {
                Some(no_window_notice())
            } else {
                None
            },
            ..w3.state.status
        },
    );
    if prior != PresentationState::PresentationUnavailable && late_error {
        push_trace_p(
            w4,
            "PresentationUnavailable"@,
            None,
            None,
            None,
            None,
            Some(no_window_notice()),
        )
    } else {
        w4
    }
}

/// A handle in a message.
pub open spec fn opt_handle_text(handle: Option<isize>) -> Text {
    match handle {
        Some(value) => "Some("@ + model::signed_decimal(value as int) + ")"@,
        None => "None"@,
    }
}

/// What a trace says about a window.
pub open spec fn window_text(window: WindowDescriptorView) -> Text {
    "class='"@ + window.class_name + "', title='"@ + window.title + "', owner="@ + opt_handle_text(
        window.owner_handle,
    )
}

/// What follows where the window is there.
pub open spec fn window_p(
    w: Desk,
    prior: PriorRound,
    window: WindowDescriptorView,
) -> Desk {
    let w1 = with_status(
        w,
        DisplayPresentationStatusView {
            managed_window_found: true,
            managed_window_process_id: Some(window.process_id),
            failure_reason: None,
            ..w.state.status
        },
    );
    let w2 = if !prior.window_found {
        push_trace_p(
            w1,
            "VmWindowResolved"@,
            Some(window_text(window)),
            Some(window.process_id),
            Some(window.handle),
            None,
            None,
        )
    } else {
        w1
    };
    let w3 = with_status(
        w2,
        DisplayPresentationStatusView {
            state: PresentationState::ResolvingDisplay,
            ..w2.state.status
        },
    );
    let (w4, reply) = journal::ask(w3, DesktopRequest::Displays);
    match reply->Displays_0 {
        Err(error) => with_status(
            w4,
            DisplayPresentationStatusView {
                state: PresentationState::Error,
                failure_reason: Some(PresentationFailureReason::DisplayNotResolved),
                last_error: Some(error),
                ..w4.state.status
            },
        ),
        Ok(displays) => match presentation::assigned_display(
            displays,
            w4.state.assigned_display_id,
        ) {
            None => no_display_p(w4, prior.state, window),
            Some(display) => match display.bounds {
                None => with_status(
                    w4,
                    DisplayPresentationStatusView {
                        state: PresentationState::PresentationUnavailable,
                        failure_reason: Some(PresentationFailureReason::DisplayNotResolved),
                        display_name: display.friendly_name,
                        bounds: None,
                        last_error: Some("assigned display has no current HMONITOR bounds"@),
                        ..w4.state.status
                    },
                ),
                Some(bounds) => display_p(w4, prior, window, display, bounds),
            },
        },
    }
}

pub open spec fn no_display_notice() -> Text {
    "assigned physical display is not visible to the current Windows session; VM remains running"@
}

/// What follows where the display is not there. No other display is used.
pub open spec fn no_display_p(
    w: Desk,
    prior: PresentationState,
    window: WindowDescriptorView,
) -> Desk {
    let w1 = with_status(
        w,
        DisplayPresentationStatusView {
            state: PresentationState::PresentationUnavailable,
            failure_reason: Some(PresentationFailureReason::DisplayNotResolved),
            display_name: None,
            bounds: None,
            last_error: Some(no_display_notice()),
            ..w.state.status
        },
    );
    if prior != PresentationState::PresentationUnavailable {
        push_trace_p(
            w1,
            "DisplayNotResolved"@,
            None,
            Some(window.process_id),
            Some(window.handle),
            None,
            Some(no_display_notice()),
        )
    } else {
        w1
    }
}

/// What follows where window and display are there.
pub open spec fn display_p(
    w: Desk,
    prior: PriorRound,
    window: WindowDescriptorView,
    display: DisplayDeviceView,
    bounds: DisplayBounds,
) -> Desk {
    let w1 = with_status(
        w,
        DisplayPresentationStatusView {
            display_name: Some(
                match display.friendly_name {
                    Some(name) => name,
                    None => display.desktop_device_name,
                },
            ),
            bounds: Some(bounds),
            ..w.state.status
        },
    );
    let same_window = w1.state.original matches Some(original) && original.handle == window.handle;
    if prior.state == PresentationState::Presented && prior.bounds == Some(bounds) && same_window {
        with_status(w1, presented(w1.state.status))
    } else {
        let w2 = push_trace_p(
            w1,
            "DisplayResolved"@,
            display.friendly_name,
            Some(window.process_id),
            Some(window.handle),
            Some(bounds),
            None,
        );
        let w3 = with_status(
            w2,
            DisplayPresentationStatusView {
                state: PresentationState::Presenting,
                ..w2.state.status
            },
        );
        match apply_p(w3, window.handle, bounds) {
            (w4, Ok(())) => push_trace_p(
                with_status(w4, presented(w4.state.status)),
                "Presented"@,
                None,
                Some(window.process_id),
                Some(window.handle),
                Some(bounds),
                None,
            ),
            (w4, Err((reason, error))) => push_trace_p(
                with_status(
                    w4,
                    DisplayPresentationStatusView {
                        state: PresentationState::Error,
                        failure_reason: Some(reason),
                        last_error: Some(error),
                        ..w4.state.status
                    },
                ),
                "PresentationFailed"@,
                None,
                Some(window.process_id),
                Some(window.handle),
                Some(bounds),
                Some(error),
            ),
        }
    }
}

/// The status of a presentation that has succeeded.
pub open spec fn presented(status: DisplayPresentationStatusView) -> DisplayPresentationStatusView {
    DisplayPresentationStatusView {
        state: PresentationState::Presented,
        mode: PresentationMode::Borderless,
        last_error: None,
        failure_reason: None,
        ..status
    }
}

// ---- The session -----------------------------------------------------------------------

spec fn failure_result<T>(r: Result<T, (PresentationFailureReason, String)>) -> Result<
    T,
    Failure,
> {
    match r {
        Ok(value) => Ok(value),
        Err((reason, error)) => Err((reason, error@)),
    }
}

/// A failure with its message taken by its view.
pub open spec fn failure_view(failure: (PresentationFailureReason, String)) -> Failure {
    (failure.0, failure.1@)
}

fn rect_message(rect: WindowRect) -> (r: String)
    ensures
        r@ == rect_text(rect),
{
    let mut text = concat5(
        "RECT { left: ",
        signed_text(rect.left).as_str(),
        ", top: ",
        signed_text(rect.top).as_str(),
        ", right: ",
    );
    text.append(signed_text(rect.right).as_str());
    text.append(", bottom: ");
    text.append(signed_text(rect.bottom).as_str());
    text.append(" }");
    text
}

fn misplaced_message(
    actual_style: isize,
    expected_style: isize,
    actual: WindowRect,
    expected: WindowRect,
    monitor: bool,
) -> (r: String)
    ensures
        r@ == misplaced_text(actual_style, expected_style, actual, expected, monitor),
{
    let mut text = concat7(
        "borderless postcondition failed: style=",
        hex_text(actual_style).as_str(),
        " expected=",
        hex_text(expected_style).as_str(),
        ", rect=",
        rect_message(actual).as_str(),
        " expected=",
    );
    text.append(rect_message(expected).as_str());
    text.append(", target_monitor_match=");
    text.append(
        if monitor {
            "true"
        } else {
            "false"
        },
    );
    text
}

fn edges_of(bounds: DisplayBounds) -> (r: WindowRect)
    ensures
        r == edges(bounds),
{
    WindowRect {
        left: bounds.x,
        top: bounds.y,
        right: bounds.x.wrapping_add(bounds.width),
        bottom: bounds.y.wrapping_add(bounds.height),
    }
}

fn extent_of(rect: WindowRect) -> (r: DisplayBounds)
    ensures
        r == extent(rect),
{
    DisplayBounds {
        x: rect.left,
        y: rect.top,
        width: rect.right.wrapping_sub(rect.left),
        height: rect.bottom.wrapping_sub(rect.top),
    }
}

fn opt_handle_message(handle: Option<isize>) -> (r: String)
    ensures
        r@ == opt_handle_text(handle),
{
    match handle {
        Some(value) => concat3("Some(", word_text(value).as_str(), ")"),
        None => "None".to_owned(),
    }
}

/// How long to wait between two updates of a presentation, in milliseconds: a quarter of a
/// second until the deadline for finding the window, and two seconds after it. A presentation
/// that never found its window ends at the deadline.
pub open spec fn pause_ms(window_seen: bool, past_deadline: bool) -> Option<u64> {
    if !past_deadline {
        Some(250)
    } else if window_seen {
        Some(2000)
    } else {
        None
    }
}

/// How long to wait before the next update of a presentation, in milliseconds, or none where
/// there is to be no other.
pub fn presentation_pause(window_seen: bool, past_deadline: bool) -> (r: Option<u64>)
    ensures
        r == pause_ms(window_seen, past_deadline),
{
    if !past_deadline {
        Some(250)
    } else if window_seen {
        Some(2000)
    } else {
        None
    }
}

impl PresentationSession {
    /// Whether this is the desktop that the presentation works on.
    pub closed spec fn works_on(self, desktop: &Box<dyn Desktop>) -> bool {
        &self.desktop.0 == desktop
    }

    /// A presentation that begins to look for the window of a machine.
    pub fn new(
        target: ManagedVmWindowIdentity,
        assigned_display_id: String,
        desktop: Box<dyn Desktop>,
    ) -> (r: Self)
        ensures
            r.works_on(&desktop),
            r.answers() == desktop.answers(),
            r.journal() == Seq::<Exchange<DesktopRequest, DesktopReply>>::empty(),
            r.state() == (SessionView {
                target: target@,
                assigned_display_id: assigned_display_id@,
                locked: true,
                status: DisplayPresentationStatusView {
                    state: PresentationState::WaitingForVmWindow,
                    assigned_display_id: Some(assigned_display_id@),
                    ..presentation::no_presentation()
                },
                original: None,
            }),
    {
        let kept = Kept(desktop);
        PresentationSession {
            target,
            assigned_display_id: assigned_display_id.clone(),
            locked: true,
            status: DisplayPresentationStatus {
                state: PresentationState::WaitingForVmWindow,
                mode: PresentationMode::Borderless,
                assigned_display_id: Some(assigned_display_id),
                ..DisplayPresentationStatus::default()
            },
            original: None,
            desktop: kept,
            journal: Ghost(Seq::empty()),
        }
    }

    /// A presentation that cannot be had.
    pub fn unavailable(
        assigned_display_id: Option<String>,
        message: String,
        desktop: Box<dyn Desktop>,
    ) -> (r: Self)
        ensures
            r.works_on(&desktop),
            r.answers() == desktop.answers(),
            r.journal() == Seq::<Exchange<DesktopRequest, DesktopReply>>::empty(),
            r.state() == (SessionView {
                target: ManagedVmWindowIdentityView {
                    vm_uuid: seq![],
                    vm_name: seq![],
                    session_pid: None,
                },
                assigned_display_id: match assigned_display_id {
                    Some(id) => id@,
                    None => seq![],
                },
                locked: false,
                status: presentation::unavailable(model::opt_text(assigned_display_id), message@),
                original: None,
            }),
    {
        let id = match &assigned_display_id {
            Some(id) => id.clone(),
            None => String::new(),
        };
        let kept = Kept(desktop);
        PresentationSession {
            target: ManagedVmWindowIdentity {
                vm_uuid: String::new(),
                vm_name: String::new(),
                session_pid: None,
            },
            assigned_display_id: id,
            locked: false,
            status: DisplayPresentationStatus {
                state: PresentationState::PresentationUnavailable,
                assigned_display_id,
                last_error: Some(message),
                ..DisplayPresentationStatus::default()
            },
            original: None,
            desktop: kept,
            journal: Ghost(Seq::empty()),
        }
    }

    /// What the presentation is doing.
    pub fn status(&self) -> (r: DisplayPresentationStatus)
        ensures
            r@ == self.state().status,
    {
        self.status.duplicate()
    }

    fn past_deadline(&mut self) -> (r: bool)
        ensures
            journal::runs(
                *old(self),
                *final(self),
                |w: Desk|
                    {
                        let (after, reply) = journal::ask(w, DesktopRequest::PastDeadline);
                        (after, reply->Flag_0)
                    },
                r,
            ),
    {
        let ghost before = *self;
        let r = self.desktop.0.past_deadline();
        let ghost request = DesktopRequest::PastDeadline;
        let ghost reply = DesktopReply::Flag(r);
        self.journal = Ghost(self.journal@.push(Exchange { request, reply }));
        proof {
            journal::lemma_asked(before, *self, request, reply, before.answers());
        }
        r
    }

    fn clock(&mut self) -> (r: TraceClock)
        ensures
            journal::runs(
                *old(self),
                *final(self),
                |w: Desk|
                    {
                        let (after, reply) = journal::ask(w, DesktopRequest::Clock);
                        (after, reply->Clock_0)
                    },
                r,
            ),
    {
        let ghost before = *self;
        let r = self.desktop.0.clock();
        let ghost request = DesktopRequest::Clock;
        let ghost reply = DesktopReply::Clock(r);
        self.journal = Ghost(self.journal@.push(Exchange { request, reply }));
        proof {
            journal::lemma_asked(before, *self, request, reply, before.answers());
        }
        r
    }

    fn is_window(&mut self, handle: isize) -> (r: bool)
        ensures
            journal::runs(
                *old(self),
                *final(self),
                |w: Desk|
                    {
                        let (after, reply) = journal::ask(w, DesktopRequest::IsWindow(handle));
                        (after, reply->Flag_0)
                    },
                r,
            ),
    {
        let ghost before = *self;
        let r = self.desktop.0.is_window(handle);
        let ghost request = DesktopRequest::IsWindow(handle);
        let ghost reply = DesktopReply::Flag(r);
        self.journal = Ghost(self.journal@.push(Exchange { request, reply }));
        proof {
            journal::lemma_asked(before, *self, request, reply, before.answers());
        }
        r
    }

    fn monitor_of_window(&mut self, handle: isize) -> (r: isize)
        ensures
            journal::runs(
                *old(self),
                *final(self),
                |w: Desk|
                    {
                        let (after, reply) = journal::ask(w, DesktopRequest::MonitorOfWindow(handle));
                        (after, reply->Monitor_0)
                    },
                r,
            ),
    {
        let ghost before = *self;
        let r = self.desktop.0.monitor_of_window(handle);
        let ghost request = DesktopRequest::MonitorOfWindow(handle);
        let ghost reply = DesktopReply::Monitor(r);
        self.journal = Ghost(self.journal@.push(Exchange { request, reply }));
        proof {
            journal::lemma_asked(before, *self, request, reply, before.answers());
        }
        r
    }

    fn monitor_of_rect(&mut self, rect: WindowRect) -> (r: isize)
        ensures
            journal::runs(
                *old(self),
                *final(self),
                |w: Desk|
                    {
                        let (after, reply) = journal::ask(w, DesktopRequest::MonitorOfRect(rect));
                        (after, reply->Monitor_0)
                    },
                r,
            ),
    {
        let ghost before = *self;
        let r = self.desktop.0.monitor_of_rect(rect);
        let ghost request = DesktopRequest::MonitorOfRect(rect);
        let ghost reply = DesktopReply::Monitor(r);
        self.journal = Ghost(self.journal@.push(Exchange { request, reply }));
        proof {
            journal::lemma_asked(before, *self, request, reply, before.answers());
        }
        r
    }

    fn window_rect(&mut self, handle: isize) -> (r: Result<WindowRect, String>)
        ensures
            journal::runs(
                *old(self),
                *final(self),
                |w: Desk|
                    {
                        let (after, reply) = journal::ask(w, DesktopRequest::WindowRect(handle));
                        (after, reply->Rect_0)
                    },
                model::with_message(r),
            ),
    {
        let ghost before = *self;
        let r = self.desktop.0.window_rect(handle);
        let ghost request = DesktopRequest::WindowRect(handle);
        let ghost reply = DesktopReply::Rect(model::with_message(r));
        self.journal = Ghost(self.journal@.push(Exchange { request, reply }));
        proof {
            journal::lemma_asked(before, *self, request, reply, before.answers());
        }
        r
    }

    fn window_placement(&mut self, handle: isize) -> (r: Result<WindowPlacement, String>)
        ensures
            journal::runs(
                *old(self),
                *final(self),
                |w: Desk|
                    {
                        let (after, reply) = journal::ask(w, DesktopRequest::WindowPlacement(handle));
                        (after, reply->Placement_0)
                    },
                model::with_message(r),
            ),
    {
        let ghost before = *self;
        let r = self.desktop.0.window_placement(handle);
        let ghost request = DesktopRequest::WindowPlacement(handle);
        let ghost reply = DesktopReply::Placement(model::with_message(r));
        self.journal = Ghost(self.journal@.push(Exchange { request, reply }));
        proof {
            journal::lemma_asked(before, *self, request, reply, before.answers());
        }
        r
    }

    fn raw_style(&mut self, handle: isize, word: StyleWord) -> (r: WindowLong)
        ensures
            journal::runs(
                *old(self),
                *final(self),
                |w: Desk|
                    {
                        let (after, reply) = journal::ask(w, DesktopRequest::Style(handle, word));
                        (after, reply->Long_0)
                    },
                r,
            ),
    {
        let ghost before = *self;
        let r = self.desktop.0.style(handle, word);
        let ghost request = DesktopRequest::Style(handle, word);
        let ghost reply = DesktopReply::Long(r);
        self.journal = Ghost(self.journal@.push(Exchange { request, reply }));
        proof {
            journal::lemma_asked(before, *self, request, reply, before.answers());
        }
        r
    }

    fn raw_set_style(&mut self, handle: isize, word: StyleWord, value: isize) -> (r: WindowLong)
        ensures
            journal::runs(
                *old(self),
                *final(self),
                |w: Desk|
                    {
                        let (after, reply) = journal::ask(w, DesktopRequest::SetStyle(handle, word, value));
                        (after, reply->Long_0)
                    },
                r,
            ),
    {
        let ghost before = *self;
        let r = self.desktop.0.set_style(handle, word, value);
        let ghost request = DesktopRequest::SetStyle(handle, word, value);
        let ghost reply = DesktopReply::Long(r);
        self.journal = Ghost(self.journal@.push(Exchange { request, reply }));
        proof {
            journal::lemma_asked(before, *self, request, reply, before.answers());
        }
        r
    }

    fn move_window(&mut self, handle: isize, bounds: DisplayBounds, on_top: bool) -> (r: Result<(), String>)
        ensures
            journal::runs(
                *old(self),
                *final(self),
                |w: Desk|
                    {
                        let (after, reply) = journal::ask(w, DesktopRequest::MoveWindow(handle, bounds, on_top));
                        (after, reply->Done_0)
                    },
                model::with_message(r),
            ),
    {
        let ghost before = *self;
        let r = self.desktop.0.move_window(handle, bounds, on_top);
        let ghost request = DesktopRequest::MoveWindow(handle, bounds, on_top);
        let ghost reply = DesktopReply::Done(model::with_message(r));
        self.journal = Ghost(self.journal@.push(Exchange { request, reply }));
        proof {
            journal::lemma_asked(before, *self, request, reply, before.answers());
        }
        r
    }

    fn set_placement(&mut self, handle: isize, placement: WindowPlacement)
        ensures
            journal::runs(
                *old(self),
                *final(self),
                |w: Desk| (journal::ask(w, DesktopRequest::SetPlacement(handle, placement)).0, ()),
                (),
            ),
    {
        let ghost before = *self;
        self.desktop.0.set_placement(handle, placement);
        let ghost request = DesktopRequest::SetPlacement(handle, placement);
        let ghost reply = DesktopReply::Nothing;
        self.journal = Ghost(self.journal@.push(Exchange { request, reply }));
        proof {
            journal::lemma_asked(before, *self, request, reply, before.answers());
        }
    }

    fn windows(&mut self) -> (r: Vec<WindowDescriptor>)
        ensures
            journal::runs(
                *old(self),
                *final(self),
                |w: Desk|
                    {
                        let (after, reply) = journal::ask(w, DesktopRequest::Windows);
                        (after, reply->Windows_0)
                    },
                duplicate::views(r@),
            ),
    {
        let ghost before = *self;
        let r = self.desktop.0.windows();
        let ghost request = DesktopRequest::Windows;
        let ghost reply = DesktopReply::Windows(duplicate::views(r@));
        self.journal = Ghost(self.journal@.push(Exchange { request, reply }));
        proof {
            journal::lemma_asked(before, *self, request, reply, before.answers());
        }
        r
    }

    fn displays(&mut self) -> (r: Result<Vec<DisplayDevice>, String>)
        ensures
            journal::runs(
                *old(self),
                *final(self),
                |w: Desk|
                    {
                        let (after, reply) = journal::ask(w, DesktopRequest::Displays);
                        (after, reply->Displays_0)
                    },
                displays_view(r),
            ),
    {
        let ghost before = *self;
        let r = self.desktop.0.displays();
        let ghost request = DesktopRequest::Displays;
        let ghost reply = DesktopReply::Displays(displays_view(r));
        self.journal = Ghost(self.journal@.push(Exchange { request, reply }));
        proof {
            journal::lemma_asked(before, *self, request, reply, before.answers());
        }
        r
    }


    fn push_trace(
        &mut self,
        stage: &str,
        detail: Option<String>,
        process_id: Option<u32>,
        window_handle: Option<isize>,
        target_bounds: Option<DisplayBounds>,
        error: Option<String>,
    )
        ensures
            journal::runs(
                *old(self),
                *final(self),
                |w: Desk|
                    (
                        push_trace_p(
                            w,
                            stage@,
                            model::opt_text(detail),
                            process_id,
                            window_handle,
                            target_bounds,
                            model::opt_text(error),
                        ),
                        (),
                    ),
                (),
            ),
    {
        let clock = self.clock();
        let ghost asked = *self;
        if self.status.trace.len() >= TRACE_LIMIT {
            self.status.trace.remove(0);
        }
        let entry = PresentationTraceEntry {
            stage: stage.to_owned(),
            timestamp_ms: clock.timestamp_ms,
            elapsed_ms: clock.elapsed_ms,
            duration_ms: None,
            detail,
            process_id,
            window_handle,
            target_display_id: Some(self.assigned_display_id.clone()),
            target_bounds,
            error,
        };
        self.status.trace.push(entry);
        assert(self.state().status.trace =~= traced(asked.state().status.trace, entry@));
    }

    /// `get_window_long_ptr`: a style, or the error that reading it gave.
    fn get_window_long_ptr(&mut self, handle: isize, word: StyleWord, label: &str) -> (r: Result<
        isize,
        String,
    >)
        ensures
            journal::runs(
                *old(self),
                *final(self),
                |w: Desk| style_p(w, handle, word, label@),
                model::with_message(r),
            ),
    {
        let long = self.raw_style(handle, word);
        if long.value == 0 && long.error != 0 {
            Err(
                concat2(
                    concat3("GetWindowLongPtrW(", label, ") failed with Windows error ").as_str(),
                    number_text(long.error as u64).as_str(),
                ),
            )
        } else {
            Ok(long.value)
        }
    }

    fn set_window_long_ptr(&mut self, handle: isize, word: StyleWord, value: isize, label: &str)
        -> (r: Result<(), String>)
        ensures
            journal::runs(
                *old(self),
                *final(self),
                |w: Desk| set_style_p(w, handle, word, value, label@),
                model::with_message(r),
            ),
    {
        let long = self.raw_set_style(handle, word, value);
        if long.value == 0 && long.error != 0 {
            Err(
                concat2(
                    concat3("SetWindowLongPtrW(", label, ") failed with Windows error ").as_str(),
                    number_text(long.error as u64).as_str(),
                ),
            )
        } else {
            Ok(())
        }
    }

    fn verify_borderless_postconditions(
        &mut self,
        handle: isize,
        expected_style: isize,
        expected_bounds: DisplayBounds,
        chrome_mask: isize,
    ) -> (r: Result<(), (PresentationFailureReason, String)>)
        ensures
            journal::runs(
                *old(self),
                *final(self),
                |w: Desk| verify_p(w, handle, expected_style, expected_bounds, chrome_mask),
                failure_result(r),
            ),
    {
        let failed = PresentationFailureReason::PostconditionVerificationFailed;
        let actual_style = match self.get_window_long_ptr(
            handle,
            StyleWord::Style,
            "GWL_STYLE postcondition",
        ) {
            Ok(style) => style,
            Err(error) => {
                return Err((failed, error));
            },
        };
        let actual = match self.window_rect(handle) {
            Ok(rect) => rect,
            Err(error) => {
                return Err(
                    (failed, concat2("postcondition GetWindowRect failed: ", error.as_str())),
                );
            },
        };
        let expected = edges_of(expected_bounds);
        let on = self.monitor_of_window(handle);
        let wanted = self.monitor_of_rect(expected);
        let monitor = wanted != 0 && on == wanted;
        if borderless_postconditions_match(
            actual_style,
            expected_style,
            chrome_mask,
            extent_of(actual),
            expected_bounds,
            monitor,
        ) {
            Ok(())
        } else {
            Err(
                (
                    failed,
                    misplaced_message(actual_style, expected_style, actual, expected, monitor),
                ),
            )
        }
    }

    fn read_original(&mut self, handle: isize) -> (r: Result<
        OriginalWindow,
        (PresentationFailureReason, String),
    >)
        ensures
            journal::runs(
                *old(self),
                *final(self),
                |w: Desk| read_original_p(w, handle),
                failure_result(r),
            ),
    {
        let failed = PresentationFailureReason::WindowStateReadFailed;
        let bounds = match self.window_rect(handle) {
            Ok(rect) => rect,
            Err(error) => {
                return Err((failed, concat2("GetWindowRect failed: ", error.as_str())));
            },
        };
        let placement = match self.window_placement(handle) {
            Ok(placement) => placement,
            Err(error) => {
                return Err((failed, concat2("GetWindowPlacement failed: ", error.as_str())));
            },
        };
        let style = match self.get_window_long_ptr(handle, StyleWord::Style, "GWL_STYLE") {
            Ok(style) => style,
            Err(error) => {
                return Err((failed, error));
            },
        };
        let extended_style = match self.get_window_long_ptr(
            handle,
            StyleWord::ExtendedStyle,
            "GWL_EXSTYLE",
        ) {
            Ok(style) => style,
            Err(error) => {
                return Err((failed, error));
            },
        };
        let original = OriginalWindow { handle, style, extended_style, bounds, placement };
        self.original = Some(original);
        Ok(original)
    }

    fn preserve(&mut self, handle: isize) -> (r: Result<
        OriginalWindow,
        (PresentationFailureReason, String),
    >)
        ensures
            journal::runs(
                *old(self),
                *final(self),
                |w: Desk| preserve_p(w, handle),
                failure_result(r),
            ),
    {
        match self.original {
            Some(original) => if original.handle == handle {
                Ok(original)
            } else {
                self.read_original(handle)
            },
            None => self.read_original(handle),
        }
    }

    fn place(&mut self, handle: isize, bounds: DisplayBounds, original: OriginalWindow) -> (r:
        Result<(), (PresentationFailureReason, String)>)
        ensures
            journal::runs(
                *old(self),
                *final(self),
                |w: Desk| place_p(w, handle, bounds, original),
                failure_result(r),
            ),
    {
        let placement = borderless_placement(handle, bounds, original.style, CHROME_MASK);
        self.push_trace("StyleRead", None, None, Some(handle), Some(bounds), None);
        let written = self.set_window_long_ptr(
            handle,
            StyleWord::Style,
            placement.borderless_style,
            "GWL_STYLE",
        );
        match classify_operation_result(written, PresentationFailureReason::SetWindowStyleFailed) {
            Ok(()) => {},
            Err(failure) => {
                return Err(failure);
            },
        }
        self.push_trace("BorderlessApplied", None, None, Some(handle), Some(bounds), None);
        match self.move_window(handle, placement.bounds, true) {
            Ok(()) => {},
            Err(error) => {
                return Err(
                    (
                        PresentationFailureReason::SetWindowPosFailed,
                        concat2("SetWindowPos(borderless presentation) failed: ", error.as_str()),
                    ),
                );
            },
        }
        self.push_trace("WindowMoved", None, None, Some(handle), Some(bounds), None);
        self.verify_borderless_postconditions(
            handle,
            placement.borderless_style,
            bounds,
            CHROME_MASK,
        )
    }

    /// Takes the frame off a window, moves it onto the display, and makes sure of both.
    pub fn apply_borderless(&mut self, handle: isize, bounds: DisplayBounds) -> (r: Result<
        (),
        (PresentationFailureReason, String),
    >)
        ensures
            journal::runs(
                *old(self),
                *final(self),
                |w: Desk| apply_p(w, handle, bounds),
                match r {
                    Ok(value) => Ok(value),
                    Err(failure) => Err(failure_view(failure)),
                },
            ),
    {
        if !self.is_window(handle) {
            return Err(
                (
                    PresentationFailureReason::WindowStateReadFailed,
                    "managed VirtualBoxVM window is no longer valid".to_owned(),
                ),
            );
        }
        match self.preserve(handle) {
            Ok(original) => self.place(handle, bounds, original),
            Err(failure) => Err(failure),
        }
    }

    /// Puts the window back as it was.
    pub fn restore_original(&mut self)
        ensures
            journal::runs(*old(self), *final(self), |w: Desk| (restore_p(w), ()), ()),
    {
        let original = match self.original {
            Some(original) => original,
            None => {
                return ;
            },
        };
        self.original = None;
        if !self.is_window(original.handle) {
            return ;
        }
        self.raw_set_style(original.handle, StyleWord::Style, original.style);
        self.raw_set_style(original.handle, StyleWord::ExtendedStyle, original.extended_style);
        let _ = self.move_window(original.handle, extent_of(original.bounds), false);
        self.set_placement(original.handle, original.placement);
    }

    /// Locks or unlocks the presentation. Unlocking puts the window back.
    pub fn set_locked(&mut self, locked: bool)
        ensures
            journal::runs(*old(self), *final(self), |w: Desk| (set_locked_p(w, locked), ()), ()),
    {
        self.locked = locked;
        if !locked {
            self.restore_original();
            self.status.state = PresentationState::NotPresented;
            self.status.mode = PresentationMode::ConventionalWindow;
        } else {
            self.status.state = PresentationState::ResolvingDisplay;
            self.status.mode = PresentationMode::Borderless;
        }
    }

    fn without_window(&mut self, prior: PresentationState)
        ensures
            journal::runs(*old(self), *final(self), |w: Desk| (no_window_p(w, prior), ()), ()),
    {
        let late_state = self.past_deadline();
        let late_reason = self.past_deadline();
        let late_error = self.past_deadline();
        self.status.managed_window_found = false;
        self.status.managed_window_process_id = None;
        self.status.state =
        if late_state {
            PresentationState::PresentationUnavailable
        } else {
            PresentationState::WaitingForVmWindow
        };
        self.status.failure_reason =
        if late_reason {
            Some(
                if self.target.session_pid.is_none() {
                    PresentationFailureReason::ManagedVmPidUnknown
                } else {
                    PresentationFailureReason::NoMatchingVmWindow
                },
            )
        } else {
            None
        };
        self.status.last_error =
        if late_error {
            Some(
                "managed VirtualBoxVM window was not found within 20 seconds; VM remains running".to_owned(),
            )
        } else {
            None
        };
        if prior != PresentationState::PresentationUnavailable && late_error {
            self.push_trace(
                "PresentationUnavailable",
                None,
                None,
                None,
                None,
                Some(
                    "managed VirtualBoxVM window was not found within 20 seconds; VM remains running".to_owned(),
                ),
            );
        }
    }

    fn without_display(&mut self, prior: PresentationState, window: &WindowDescriptor)
        ensures
            journal::runs(
                *old(self),
                *final(self),
                |w: Desk| (no_display_p(w, prior, window@), ()),
                (),
            ),
    {
        let notice = "assigned physical display is not visible to the current Windows session; VM remains running";
        self.status.state = PresentationState::PresentationUnavailable;
        self.status.failure_reason = Some(PresentationFailureReason::DisplayNotResolved);
        self.status.display_name = None;
        self.status.bounds = None;
        self.status.last_error = Some(notice.to_owned());
        if prior != PresentationState::PresentationUnavailable {
            self.push_trace(
                "DisplayNotResolved",
                None,
                Some(window.process_id),
                Some(window.handle),
                None,
                Some(notice.to_owned()),
            );
        }
    }

    fn mark_presented(&mut self)
        ensures
            final(self).journal() == old(self).journal(),
            final(self).answers() == old(self).answers(),
            final(self).state() == (SessionView {
                status: presented(old(self).state().status),
                ..old(self).state()
            }),
    {
        self.status.state = PresentationState::Presented;
        self.status.mode = PresentationMode::Borderless;
        self.status.last_error = None;
        self.status.failure_reason = None;
    }

    fn on_display(
        &mut self,
        prior: PriorRound,
        window: &WindowDescriptor,
        display: &DisplayDevice,
        bounds: DisplayBounds,
    )
        ensures
            journal::runs(
                *old(self),
                *final(self),
                |w: Desk| (display_p(w, prior, window@, display@, bounds), ()),
                (),
            ),
    {
        self.status.display_name =
        match &display.friendly_name {
            Some(name) => Some(name.clone()),
            None => Some(display.desktop_device_name.clone()),
        };
        self.status.bounds = Some(bounds);
        let same_window = match self.original {
            Some(original) => original.handle == window.handle,
            None => false,
        };
        let unchanged = match prior.bounds {
            Some(before) => before == bounds,
            None => false,
        };
        if prior.state == PresentationState::Presented && unchanged && same_window {
            self.mark_presented();
            return ;
        }
        self.push_trace(
            "DisplayResolved",
            copy_opt(&display.friendly_name),
            Some(window.process_id),
            Some(window.handle),
            Some(bounds),
            None,
        );
        self.status.state = PresentationState::Presenting;
        match self.apply_borderless(window.handle, bounds) {
            Ok(()) => {
                self.mark_presented();
                self.push_trace(
                    "Presented",
                    None,
                    Some(window.process_id),
                    Some(window.handle),
                    Some(bounds),
                    None,
                );
            },
            Err((reason, error)) => {
                self.status.state = PresentationState::Error;
                self.status.failure_reason = Some(reason);
                self.status.last_error = Some(error.clone());
                self.push_trace(
                    "PresentationFailed",
                    None,
                    Some(window.process_id),
                    Some(window.handle),
                    Some(bounds),
                    Some(error),
                );
            },
        }
    }

    fn with_window(&mut self, prior: PriorRound, window: &WindowDescriptor)
        ensures
            journal::runs(
                *old(self),
                *final(self),
                |w: Desk| (window_p(w, prior, window@), ()),
                (),
            ),
    {
        self.status.managed_window_found = true;
        self.status.managed_window_process_id = Some(window.process_id);
        self.status.failure_reason = None;
        if !prior.window_found {
            let mut detail = concat5(
                "class='",
                window.class_name.as_str(),
                "', title='",
                window.title.as_str(),
                "', owner=",
            );
            detail.append(opt_handle_message(window.owner_handle).as_str());
            self.push_trace(
                "VmWindowResolved",
                Some(detail),
                Some(window.process_id),
                Some(window.handle),
                None,
                None,
            );
        }
        self.status.state = PresentationState::ResolvingDisplay;
        let displays = match self.displays() {
            Ok(displays) => displays,
            Err(error) => {
                self.status.state = PresentationState::Error;
                self.status.failure_reason = Some(PresentationFailureReason::DisplayNotResolved);
                self.status.last_error = Some(error);
                return ;
            },
        };
        match resolve_assigned_display(displays.as_slice(), self.assigned_display_id.as_str()) {
            None => {
                self.without_display(prior.state, window);
            },
            Some(display) => match display.bounds {
                None => {
                    self.status.state = PresentationState::PresentationUnavailable;
                    self.status.failure_reason =
                    Some(PresentationFailureReason::DisplayNotResolved);
                    self.status.display_name = copy_opt(&display.friendly_name);
                    self.status.bounds = None;
                    self.status.last_error =
                    Some("assigned display has no current HMONITOR bounds".to_owned());
                },
                Some(bounds) => {
                    self.on_display(prior, window, display, bounds);
                },
            },
        }
    }

    /// One round: looks for the window, then for the display, then fits them.
    pub fn update_presentation(&mut self)
        ensures
            journal::runs(*old(self), *final(self), |w: Desk| (update_p(w), ()), ()),
    {
        if !self.locked {
            return ;
        }
        let prior = PriorRound {
            state: self.status.state,
            window_found: self.status.managed_window_found,
            bounds: self.status.bounds,
        };
        let windows = self.windows();
        self.status.window_candidates = window_candidates(windows.as_slice());
        if prior.state != PresentationState::Presented && prior.state
            != PresentationState::PresentationUnavailable {
            let count: usize = self.status.window_candidates.len();
            let detail = concat2(
                number_text(count as u64).as_str(),
                " VirtualBoxVM.exe top-level candidate(s)",
            );
            self.push_trace("WindowDiscoveryAttempt", Some(detail), None, None, None, None);
        }
        match select_managed_window(&self.target, windows.as_slice()) {
            None => {
                self.without_window(prior.state);
            },
            Some(window) => {
                self.with_window(prior, window);
            },
        }
    }
}

pub open spec fn displays_view(r: Result<Vec<DisplayDevice>, String>) -> Result<Seq<DisplayDeviceView>, Text> {
    match r {
        Ok(displays) => Ok(duplicate::views(displays@)),
        Err(error) => Err(error@),
    }
}

} // verus!
