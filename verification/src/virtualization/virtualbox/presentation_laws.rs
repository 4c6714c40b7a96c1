//! What holds of every presentation, whatever the desktop answers.
use super::focus_protection::ManagedVmWindowIdentityView;
use super::presentation;
use super::presentation::{
    DisplayPresentationStatusView, PresentationFailureReason, PresentationMode, PresentationState,
    WindowDescriptorView,
};
use super::presentation_session;
use super::presentation_session::{
    Desk, DesktopReply, DesktopRequest, OriginalWindow, PriorRound, StyleWord, CHROME_MASK,
};
use crate::displays::{DisplayBounds, DisplayDeviceView};
use crate::journal;
use crate::journal::Oracle;
use crate::sequences;
use crate::text::model;
use crate::text::model::Text;
use vstd::prelude::*;

verus! {

// ---- Which window ----------------------------------------------------------------------

proof fn lemma_best(windows: Seq<WindowDescriptorView>, vm_name: Text)
    ensures
        presentation::best(windows, vm_name) matches Some(window) ==> windows.contains(window),
        presentation::best(windows, vm_name) is Some <==> windows.len() > 0,
    decreases windows.len(),
{
    if windows.len() > 0 {
        let shorter = windows.drop_last();
        lemma_best(shorter, vm_name);
        if let Some(earlier) = presentation::best(shorter, vm_name) {
            let k = choose|k: int| 0 <= k < shorter.len() && shorter[k] == earlier;
            assert(windows[k] == earlier);
        }
        assert(windows[windows.len() - 1] == windows.last());
    }
}

proof fn lemma_candidate(windows: Seq<WindowDescriptorView>, window: WindowDescriptorView)
    requires
        presentation::visible_machine_windows(windows).contains(window),
    ensures
        window.visible,
        window.is_machine_window(),
        windows.contains(window),
{
    let candidates = presentation::visible_machine_windows(windows);
    let i = choose|i: int| 0 <= i < candidates.len() && candidates[i] == window;
    sequences::lemma_kept(
        windows,
        |found: WindowDescriptorView| found.visible && found.is_machine_window(),
        i,
    );
}

/// The window that is taken for a machine's is one of the desktop's, is visible, and belongs to
/// `VirtualBoxVM`. It is a window of the machine's process, or its title holds the machine's
/// name.
pub proof fn law_only_the_machines_window_is_chosen(
    target: ManagedVmWindowIdentityView,
    windows: Seq<WindowDescriptorView>,
)
    ensures
        presentation::managed_window(target, windows) matches Some(window) ==> {
            &&& windows.contains(window)
            &&& window.visible
            &&& window.is_machine_window()
            &&& target.session_pid == Some(window.process_id) || (model::trimmed(
                target.vm_name,
            ).len() > 0 && presentation::title_holds(window.title, model::trimmed(target.vm_name)))
        },
{
    let candidates = presentation::visible_machine_windows(windows);
    if let Some(process_id) = target.session_pid {
        let own = presentation::of_process(candidates, process_id);
        lemma_best(own, target.vm_name);
        if let Some(window) = presentation::best(own, target.vm_name) {
            let i = choose|i: int| 0 <= i < own.len() && own[i] == window;
            sequences::lemma_kept(
                candidates,
                |found: WindowDescriptorView| found.process_id == process_id,
                i,
            );
            lemma_candidate(windows, window);
        }
    }
    let name = model::trimmed(target.vm_name);
    let named = presentation::of_title(candidates, name);
    lemma_best(named, name);
    if let Some(window) = presentation::best(named, name) {
        let i = choose|i: int| 0 <= i < named.len() && named[i] == window;
        sequences::lemma_kept(
            candidates,
            |found: WindowDescriptorView| presentation::title_holds(found.title, name),
            i,
        );
        lemma_candidate(windows, window);
    }
}

// ---- What is touched -------------------------------------------------------------------

/// What requests are allowed, after the requests before them.
pub type DeskRule = spec_fn(Seq<DesktopRequest>, DesktopRequest) -> bool;

/// Whether a request only looks.
pub open spec fn looks(request: DesktopRequest) -> bool {
    !(request is SetStyle) && !(request is MoveWindow) && !(request is SetPlacement)
}

pub open spec fn looks_only() -> DeskRule {
    |earlier: Seq<DesktopRequest>, put: DesktopRequest| looks(put)
}

/// The rule of a program that changes one window, and moves it to one place only.
pub open spec fn places_at(handle: isize, bounds: DisplayBounds) -> DeskRule {
    |earlier: Seq<DesktopRequest>, put: DesktopRequest|
        match put {
            DesktopRequest::SetStyle(changed, _, _) => changed == handle,
            DesktopRequest::MoveWindow(changed, place, _) => changed == handle && place == bounds,
            _ => looks(put),
        }
}

/// Whether the desktop has said, before, that the assigned display has some bounds.
pub open spec fn is_assigned_place(
    oracle: Oracle<DesktopReply>,
    earlier: Seq<DesktopRequest>,
    display_id: Text,
    place: DisplayBounds,
) -> bool {
    exists|k: int|
        0 <= k < earlier.len() && #[trigger] earlier[k] == DesktopRequest::Displays && (oracle(
            k,
        )->Displays_0 matches Ok(displays) && presentation::assigned_display(
            displays,
            display_id,
        ) matches Some(display) && display.bounds == Some(place))
}

/// The rule of a round: one window is changed, and is moved only to where the assigned display
/// was found to be.
pub open spec fn presents_only(
    oracle: Oracle<DesktopReply>,
    handle: isize,
    display_id: Text,
) -> DeskRule {
    |earlier: Seq<DesktopRequest>, put: DesktopRequest|
        match put {
            DesktopRequest::SetStyle(changed, _, _) => changed == handle,
            DesktopRequest::MoveWindow(changed, place, _) => changed == handle
                && is_assigned_place(oracle, earlier, display_id, place),
            _ => looks(put),
        }
}

pub open spec fn admits_looking(rule: DeskRule) -> bool {
    forall|earlier: Seq<DesktopRequest>, request: DesktopRequest|
        looks(request) ==> #[trigger] rule(earlier, request)
}

/// Whether a program has kept to a rule and works for the same machine and display.
pub open spec fn keeps(before: Desk, after: Desk, rule: DeskRule) -> bool {
    &&& journal::within(before, after, rule)
    &&& after.state.target == before.state.target
    &&& after.state.assigned_display_id == before.state.assigned_display_id
    &&& after.state.locked == before.state.locked
}

proof fn lemma_keeps_both(a: Desk, b: Desk, c: Desk, rule: DeskRule)
    requires
        keeps(a, b, rule),
        keeps(b, c, rule),
    ensures
        keeps(a, c, rule),
{
    journal::lemma_within_both(a, b, c, rule);
}

proof fn lemma_keeps_none(a: Desk, b: Desk, rule: DeskRule)
    requires
        b.oracle == a.oracle,
        b.requests == a.requests,
        b.state.target == a.state.target,
        b.state.assigned_display_id == a.state.assigned_display_id,
        b.state.locked == a.state.locked,
    ensures
        keeps(a, b, rule),
{
    journal::lemma_within_none(a, b, rule);
}

proof fn lemma_desk_ask(w: Desk, request: DesktopRequest, rule: DeskRule)
    requires
        rule(w.requests, request),
    ensures
        keeps(w, journal::ask(w, request).0, rule),
{
    journal::lemma_within_ask(w, request, rule);
}

proof fn lemma_push_trace(
    w: Desk,
    stage: Text,
    detail: Option<Text>,
    process_id: Option<u32>,
    window_handle: Option<isize>,
    target_bounds: Option<DisplayBounds>,
    error: Option<Text>,
    rule: DeskRule,
)
    requires
        admits_looking(rule),
    ensures
        ({
            let after = presentation_session::push_trace_p(
                w,
                stage,
                detail,
                process_id,
                window_handle,
                target_bounds,
                error,
            );
            keeps(w, after, rule) && after.state.original == w.state.original
        }),
{
    let after = presentation_session::push_trace_p(
        w,
        stage,
        detail,
        process_id,
        window_handle,
        target_bounds,
        error,
    );
    lemma_desk_ask(w, DesktopRequest::Clock, rule);
    let (w1, _) = journal::ask(w, DesktopRequest::Clock);
    lemma_keeps_none(w1, after, rule);
    lemma_keeps_both(w, w1, after, rule);
}

proof fn lemma_verify(
    w: Desk,
    handle: isize,
    style: isize,
    bounds: DisplayBounds,
    mask: isize,
    rule: DeskRule,
)
    requires
        admits_looking(rule),
    ensures
        ({
            let (after, _) = presentation_session::verify_p(w, handle, style, bounds, mask);
            keeps(w, after, rule) && after.state == w.state
        }),
{
    let (after, _) = presentation_session::verify_p(w, handle, style, bounds, mask);
    let read = DesktopRequest::Style(handle, StyleWord::Style);
    let expected = presentation_session::edges(bounds);
    lemma_desk_ask(w, read, rule);
    let (w1, _) = journal::ask(w, read);
    lemma_desk_ask(w1, DesktopRequest::WindowRect(handle), rule);
    let (w2, _) = journal::ask(w1, DesktopRequest::WindowRect(handle));
    lemma_keeps_both(w, w1, w2, rule);
    lemma_desk_ask(w2, DesktopRequest::MonitorOfWindow(handle), rule);
    let (w3, _) = journal::ask(w2, DesktopRequest::MonitorOfWindow(handle));
    lemma_keeps_both(w, w2, w3, rule);
    lemma_desk_ask(w3, DesktopRequest::MonitorOfRect(expected), rule);
    let (w4, _) = journal::ask(w3, DesktopRequest::MonitorOfRect(expected));
    lemma_keeps_both(w, w3, w4, rule);
}

proof fn lemma_read_original(w: Desk, handle: isize, rule: DeskRule)
    requires
        admits_looking(rule),
    ensures
        keeps(w, presentation_session::read_original_p(w, handle).0, rule),
{
    let (after, _) = presentation_session::read_original_p(w, handle);
    let first = DesktopRequest::WindowRect(handle);
    let second = DesktopRequest::WindowPlacement(handle);
    let third = DesktopRequest::Style(handle, StyleWord::Style);
    let fourth = DesktopRequest::Style(handle, StyleWord::ExtendedStyle);
    lemma_desk_ask(w, first, rule);
    let (w1, _) = journal::ask(w, first);
    lemma_desk_ask(w1, second, rule);
    let (w2, _) = journal::ask(w1, second);
    lemma_keeps_both(w, w1, w2, rule);
    lemma_desk_ask(w2, third, rule);
    let (w3, _) = journal::ask(w2, third);
    lemma_keeps_both(w, w2, w3, rule);
    lemma_desk_ask(w3, fourth, rule);
    let (w4, _) = journal::ask(w3, fourth);
    lemma_keeps_both(w, w3, w4, rule);
    if after.requests == w4.requests {
        lemma_keeps_none(w4, after, rule);
        lemma_keeps_both(w, w4, after, rule);
    }
}

proof fn lemma_preserve(w: Desk, handle: isize, rule: DeskRule)
    requires
        admits_looking(rule),
    ensures
        keeps(w, presentation_session::preserve_p(w, handle).0, rule),
        w.state.original matches Some(original) && original.handle == handle ==> (
        presentation_session::preserve_p(w, handle).0 == w),
{
    lemma_keeps_none(w, w, rule);
    lemma_read_original(w, handle, rule);
}

proof fn lemma_place(w: Desk, handle: isize, bounds: DisplayBounds, original: OriginalWindow)
    ensures
        ({
            let (after, _) = presentation_session::place_p(w, handle, bounds, original);
            keeps(w, after, places_at(handle, bounds)) && after.state.original
                == w.state.original
        }),
{
    let rule = places_at(handle, bounds);
    let style = original.style & !CHROME_MASK;
    lemma_push_trace(w, "StyleRead"@, None, None, Some(handle), Some(bounds), None, rule);
    let w1 = presentation_session::push_trace_p(
        w,
        "StyleRead"@,
        None,
        None,
        Some(handle),
        Some(bounds),
        None,
    );
    let (w2, written) = presentation_session::set_style_p(
        w1,
        handle,
        StyleWord::Style,
        style,
        "GWL_STYLE"@,
    );
    lemma_desk_ask(w1, DesktopRequest::SetStyle(handle, StyleWord::Style, style), rule);
    lemma_keeps_both(w, w1, w2, rule);
    if written is Ok {
        lemma_push_trace(
            w2,
            "BorderlessApplied"@,
            None,
            None,
            Some(handle),
            Some(bounds),
            None,
            rule,
        );
        let w3 = presentation_session::push_trace_p(
            w2,
            "BorderlessApplied"@,
            None,
            None,
            Some(handle),
            Some(bounds),
            None,
        );
        lemma_keeps_both(w, w2, w3, rule);
        let shift = DesktopRequest::MoveWindow(handle, bounds, true);
        lemma_desk_ask(w3, shift, rule);
        let (w4, _) = journal::ask(w3, shift);
        lemma_keeps_both(w, w3, w4, rule);
        lemma_push_trace(w4, "WindowMoved"@, None, None, Some(handle), Some(bounds), None, rule);
        let w5 = presentation_session::push_trace_p(
            w4,
            "WindowMoved"@,
            None,
            None,
            Some(handle),
            Some(bounds),
            None,
        );
        lemma_keeps_both(w, w4, w5, rule);
        lemma_verify(w5, handle, style, bounds, CHROME_MASK, rule);
        lemma_keeps_both(
            w,
            w5,
            presentation_session::verify_p(w5, handle, style, bounds, CHROME_MASK).0,
            rule,
        );
    }
}

proof fn lemma_apply(w: Desk, handle: isize, bounds: DisplayBounds)
    ensures
        keeps(
            w,
            presentation_session::apply_p(w, handle, bounds).0,
            places_at(handle, bounds),
        ),
        w.state.original matches Some(original) && original.handle == handle
            ==> presentation_session::apply_p(w, handle, bounds).0.state.original
            == w.state.original,
{
    let rule = places_at(handle, bounds);
    lemma_desk_ask(w, DesktopRequest::IsWindow(handle), rule);
    let (w1, _) = journal::ask(w, DesktopRequest::IsWindow(handle));
    lemma_preserve(w1, handle, rule);
    let (w2, kept) = presentation_session::preserve_p(w1, handle);
    lemma_keeps_both(w, w1, w2, rule);
    if let Ok(original) = kept {
        lemma_place(w2, handle, bounds, original);
        let (w3, _) = presentation_session::place_p(w2, handle, bounds, original);
        lemma_keeps_both(w, w2, w3, rule);
    }
}

/// What a window was like before it was changed is kept once: placing the same window again
/// does not take what the placing made of it for what it was.
pub proof fn law_the_first_look_is_kept(
    w: Desk,
    handle: isize,
    bounds: DisplayBounds,
    original: OriginalWindow,
)
    requires
        w.state.original == Some(original),
        original.handle == handle,
    ensures
        presentation_session::apply_p(w, handle, bounds).0.state.original == Some(original),
{
    lemma_apply(w, handle, bounds);
}

proof fn lemma_display(
    w: Desk,
    prior: PriorRound,
    window: WindowDescriptorView,
    display: DisplayDeviceView,
    bounds: DisplayBounds,
)
    ensures
        keeps(
            w,
            presentation_session::display_p(w, prior, window, display, bounds),
            places_at(window.handle, bounds),
        ),
{
    let rule = places_at(window.handle, bounds);
    let after = presentation_session::display_p(w, prior, window, display, bounds);
    let handle = Some(window.handle);
    let process = Some(window.process_id);
    let w1 = presentation_session::with_status(
        w,
        DisplayPresentationStatusView {
            display_name: Some(
                match display.friendly_name {
                    Some(name) => name,
                    None => display.desktop_device_name,
                },
            ),
            bounds: Some(bounds),
            ..w.state.status
        },
    );
    lemma_keeps_none(w, w1, rule);
    let same_window = w1.state.original matches Some(original) && original.handle
        == window.handle;
    if prior.state == PresentationState::Presented && prior.bounds == Some(bounds)
        && same_window {
        lemma_keeps_none(w, after, rule);
    } else {
        lemma_push_trace(
            w1,
            "DisplayResolved"@,
            display.friendly_name,
            process,
            handle,
            Some(bounds),
            None,
            rule,
        );
        let w2 = presentation_session::push_trace_p(
            w1,
            "DisplayResolved"@,
            display.friendly_name,
            process,
            handle,
            Some(bounds),
            None,
        );
        lemma_keeps_both(w, w1, w2, rule);
        let w3 = presentation_session::with_status(
            w2,
            DisplayPresentationStatusView {
                state: PresentationState::Presenting,
                ..w2.state.status
            },
        );
        lemma_keeps_none(w2, w3, rule);
        lemma_keeps_both(w, w2, w3, rule);
        lemma_apply(w3, window.handle, bounds);
        let (w4, applied) = presentation_session::apply_p(w3, window.handle, bounds);
        lemma_keeps_both(w, w3, w4, rule);
        match applied {
            Ok(()) => {
                let w5 = presentation_session::with_status(
                    w4,
                    presentation_session::presented(w4.state.status),
                );
                lemma_keeps_none(w4, w5, rule);
                lemma_keeps_both(w, w4, w5, rule);
                lemma_push_trace(
                    w5,
                    "Presented"@,
                    None,
                    process,
                    handle,
                    Some(bounds),
                    None,
                    rule,
                );
                lemma_keeps_both(w, w5, after, rule);
            },
            Err((reason, error)) => {
                let w5 = presentation_session::with_status(
                    w4,
                    DisplayPresentationStatusView {
                        state: PresentationState::Error,
                        failure_reason: Some(reason),
                        last_error: Some(error),
                        ..w4.state.status
                    },
                );
                lemma_keeps_none(w4, w5, rule);
                lemma_keeps_both(w, w4, w5, rule);
                lemma_push_trace(
                    w5,
                    "PresentationFailed"@,
                    None,
                    process,
                    handle,
                    Some(bounds),
                    Some(error),
                    rule,
                );
                lemma_keeps_both(w, w5, after, rule);
            },
        }
    }
}

proof fn lemma_no_display(
    w: Desk,
    prior: PresentationState,
    window: WindowDescriptorView,
    rule: DeskRule,
)
    requires
        admits_looking(rule),
    ensures
        keeps(w, presentation_session::no_display_p(w, prior, window), rule),
{
    let after = presentation_session::no_display_p(w, prior, window);
    let notice = presentation_session::no_display_notice();
    let w1 = presentation_session::with_status(
        w,
        DisplayPresentationStatusView {
            state: PresentationState::PresentationUnavailable,
            failure_reason: Some(PresentationFailureReason::DisplayNotResolved),
            display_name: None,
            bounds: None,
            last_error: Some(notice),
            ..w.state.status
        },
    );
    lemma_keeps_none(w, w1, rule);
    lemma_push_trace(
        w1,
        "DisplayNotResolved"@,
        None,
        Some(window.process_id),
        Some(window.handle),
        None,
        Some(notice),
        rule,
    );
    if prior != PresentationState::PresentationUnavailable {
        lemma_keeps_both(w, w1, after, rule);
    }
}

proof fn lemma_no_window(w: Desk, prior: PresentationState, rule: DeskRule)
    requires
        admits_looking(rule),
    ensures
        keeps(w, presentation_session::no_window_p(w, prior), rule),
{
    let after = presentation_session::no_window_p(w, prior);
    let late = DesktopRequest::PastDeadline;
    lemma_desk_ask(w, late, rule);
    let (w1, _) = journal::ask(w, late);
    lemma_desk_ask(w1, late, rule);
    let (w2, _) = journal::ask(w1, late);
    lemma_keeps_both(w, w1, w2, rule);
    lemma_desk_ask(w2, late, rule);
    let (w3, last) = journal::ask(w2, late);
    lemma_keeps_both(w, w2, w3, rule);
    if prior != PresentationState::PresentationUnavailable && last->Flag_0 {
        let told = presentation_session::no_window_p(
            w,
            PresentationState::PresentationUnavailable,
        );
        let w4 = Desk { state: told.state, ..w3 };
        lemma_keeps_none(w3, w4, rule);
        lemma_keeps_both(w, w3, w4, rule);
        lemma_push_trace(
            w4,
            "PresentationUnavailable"@,
            None,
            None,
            None,
            None,
            Some(presentation_session::no_window_notice()),
            rule,
        );
        lemma_keeps_both(w, w4, after, rule);
    } else {
        lemma_keeps_none(w3, after, rule);
        lemma_keeps_both(w, w3, after, rule);
    }
}

/// What follows where the window is there keeps to it and to the assigned display.
proof fn lemma_window(w: Desk, prior: PriorRound, window: WindowDescriptorView)
    ensures
        keeps(
            w,
            presentation_session::window_p(w, prior, window),
            presents_only(w.oracle, window.handle, w.state.assigned_display_id),
        ),
{
    let id = w.state.assigned_display_id;
    let rule = presents_only(w.oracle, window.handle, id);
    let after = presentation_session::window_p(w, prior, window);
    let w1 = presentation_session::with_status(
        w,
        DisplayPresentationStatusView {
            managed_window_found: true,
            managed_window_process_id: Some(window.process_id),
            failure_reason: None,
            ..w.state.status
        },
    );
    lemma_keeps_none(w, w1, rule);
    let detail = Some(presentation_session::window_text(window));
    let process = Some(window.process_id);
    let handle = Some(window.handle);
    lemma_push_trace(w1, "VmWindowResolved"@, detail, process, handle, None, None, rule);
    let w2 = if !prior.window_found {
        presentation_session::push_trace_p(
            w1,
            "VmWindowResolved"@,
            detail,
            process,
            handle,
            None,
            None,
        )
    } else {
        w1
    };
    lemma_keeps_none(w1, w1, rule);
    lemma_keeps_both(w, w1, w2, rule);
    let w3 = presentation_session::with_status(
        w2,
        DisplayPresentationStatusView {
            state: PresentationState::ResolvingDisplay,
            ..w2.state.status
        },
    );
    lemma_keeps_none(w2, w3, rule);
    lemma_keeps_both(w, w2, w3, rule);
    lemma_desk_ask(w3, DesktopRequest::Displays, rule);
    let (w4, reply) = journal::ask(w3, DesktopRequest::Displays);
    lemma_keeps_both(w, w3, w4, rule);
    if let Ok(displays) = reply->Displays_0 {
        match presentation::assigned_display(displays, id) {
            None => {
                lemma_no_display(w4, prior.state, window, rule);
                lemma_keeps_both(w, w4, after, rule);
            },
            Some(display) => match display.bounds {
                None => {
                    lemma_keeps_none(w4, after, rule);
                    lemma_keeps_both(w, w4, after, rule);
                },
                Some(bounds) => {
                    lemma_display(w4, prior, window, display, bounds);
                    lemma_assigned(w3, w4, after, window.handle, id, display, bounds);
                    lemma_keeps_both(w, w4, after, rule);
                },
            },
        }
    } else {
        lemma_keeps_none(w4, after, rule);
        lemma_keeps_both(w, w4, after, rule);
    }
}

proof fn lemma_assigned(
    asked: Desk,
    w: Desk,
    after: Desk,
    handle: isize,
    display_id: Text,
    display: DisplayDeviceView,
    bounds: DisplayBounds,
)
    requires
        w == journal::ask(asked, DesktopRequest::Displays).0,
        (asked.oracle)(asked.requests.len() as int)->Displays_0 matches Ok(displays)
            && presentation::assigned_display(displays, display_id) == Some(display),
        display.bounds == Some(bounds),
        keeps(w, after, places_at(handle, bounds)),
    ensures
        keeps(w, after, presents_only(w.oracle, handle, display_id)),
{
    let narrow = places_at(handle, bounds);
    let rule = presents_only(w.oracle, handle, display_id);
    let n = asked.requests.len() as int;
    assert forall|k: int| w.requests.len() <= k < after.requests.len() implies rule(
        after.requests.take(k),
        #[trigger] after.requests[k],
    ) by {
        let earlier = after.requests.take(k);
        assert(narrow(earlier, after.requests[k]));
        assert(after.requests.take(w.requests.len() as int)[n] == earlier[n]);
        assert(earlier[n] == DesktopRequest::Displays);
        assert(is_assigned_place(w.oracle, earlier, display_id, bounds));
    }
}

/// A round of a presentation touches no window but the one that was chosen for the machine, and
/// moves it only to where the assigned display was found to be in this session: another display
/// is never used in its place, and where the window is not there nothing is touched.
pub proof fn law_a_window_is_moved_only_to_its_display(w: Desk)
    ensures
        match presentation::managed_window(
            w.state.target,
            (w.oracle)(w.requests.len() as int)->Windows_0,
        ) {
            None => journal::within(w, presentation_session::update_p(w), looks_only()),
            Some(window) => journal::within(
                w,
                presentation_session::update_p(w),
                presents_only(w.oracle, window.handle, w.state.assigned_display_id),
            ),
        },
{
    let windows = (w.oracle)(w.requests.len() as int)->Windows_0;
    let chosen = presentation::managed_window(w.state.target, windows);
    let rule = match chosen {
        None => looks_only(),
        Some(window) => presents_only(w.oracle, window.handle, w.state.assigned_display_id),
    };
    let after = presentation_session::update_p(w);
    lemma_keeps_none(w, w, rule);
    if w.state.locked {
        let prior = PriorRound {
            state: w.state.status.state,
            window_found: w.state.status.managed_window_found,
            bounds: w.state.status.bounds,
        };
        lemma_desk_ask(w, DesktopRequest::Windows, rule);
        let (w1, _) = journal::ask(w, DesktopRequest::Windows);
        let w2 = presentation_session::with_status(
            w1,
            DisplayPresentationStatusView {
                window_candidates: presentation::candidate_list(windows),
                ..w1.state.status
            },
        );
        lemma_keeps_none(w1, w2, rule);
        lemma_keeps_both(w, w1, w2, rule);
        let detail = Some(
            model::decimal(presentation::candidate_list(windows).len())
                + " VirtualBoxVM.exe top-level candidate(s)"@,
        );
        lemma_push_trace(w2, "WindowDiscoveryAttempt"@, detail, None, None, None, None, rule);
        lemma_keeps_none(w2, w2, rule);
        let w3 = if prior.state != PresentationState::Presented && prior.state
            != PresentationState::PresentationUnavailable {
            presentation_session::push_trace_p(
                w2,
                "WindowDiscoveryAttempt"@,
                detail,
                None,
                None,
                None,
                None,
            )
        } else {
            w2
        };
        lemma_keeps_both(w, w2, w3, rule);
        match chosen {
            None => {
                lemma_no_window(w3, prior.state, rule);
            },
            Some(window) => {
                lemma_window(w3, prior, window);
            },
        }
        lemma_keeps_both(w, w3, after, rule);
    }
}

/// While a presentation is unlocked, a round does nothing.
pub proof fn law_an_unlocked_window_is_left_alone(w: Desk)
    requires
        !w.state.locked,
    ensures
        presentation_session::update_p(w) == w,
{
}

/// Unlocking puts the window back as it was: its styles, its place, and how it was shown. A
/// window that is gone, or that was not changed, is left alone. Nothing is kept after that.
pub proof fn law_unlocking_puts_the_window_back(w: Desk)
    ensures
        ({
            let after = presentation_session::set_locked_p(w, false);
            &&& after.state.original is None
            &&& after.state.status.state == PresentationState::NotPresented
            &&& after.state.status.mode == PresentationMode::ConventionalWindow
            &&& match w.state.original {
                None => after.requests == w.requests,
                Some(original) => {
                    let alive = DesktopRequest::IsWindow(original.handle);
                    after.requests == (if (w.oracle)(w.requests.len() as int)->Flag_0 {
                        w.requests + seq![
                            alive,
                            DesktopRequest::SetStyle(
                                original.handle,
                                StyleWord::Style,
                                original.style,
                            ),
                            DesktopRequest::SetStyle(
                                original.handle,
                                StyleWord::ExtendedStyle,
                                original.extended_style,
                            ),
                            DesktopRequest::MoveWindow(
                                original.handle,
                                presentation_session::extent(original.bounds),
                                false,
                            ),
                            DesktopRequest::SetPlacement(original.handle, original.placement),
                        ]
                    } else {
                        w.requests.push(alive)
                    })
                },
            }
        }),
{
}

} // verus!
