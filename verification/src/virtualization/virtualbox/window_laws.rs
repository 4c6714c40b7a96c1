//! Which window goes where, said of the fields of windows and displays and of what the desktop
//! answered.
use super::focus_protection::ManagedVmWindowIdentityView;
use super::presentation;
use super::presentation::{
    DisplayPresentationStatusView, PresentationFailureReason, PresentationMode, PresentationState,
    WindowDescriptorView,
};
use super::presentation_session;
use super::presentation_session::{Desk, DesktopRequest, OriginalWindow, StyleWord, WindowRect};
use crate::displays::{DisplayBounds, DisplayDeviceView};
use crate::journal;
use crate::sequences;
use crate::text::model;
use crate::text::model::Text;
use vstd::prelude::*;

verus! {

// ---- Displays --------------------------------------------------------------------------

/// Whether a display carries an identifier, as its own or as that of its device, whatever the
/// case of the letters.
pub open spec fn carries(display: DisplayDeviceView, id: Text) -> bool {
    ||| model::lower(display.id) == model::lower(id)
    ||| display.pnp_instance_id matches Some(instance) && model::lower(instance) == model::lower(id)
}

proof fn lemma_display_from(displays: Seq<DisplayDeviceView>, id: Text, from: int)
    requires
        0 <= from,
    ensures
        match presentation::display_from(displays, id, from) {
            Some(display) => exists|i: int|
                from <= i < displays.len() && #[trigger] displays[i] == display && carries(
                    display,
                    id,
                ) && forall|j: int| from <= j < i ==> !carries(#[trigger] displays[j], id),
            None => forall|j: int|
                from <= j < displays.len() ==> !carries(#[trigger] displays[j], id),
        },
    decreases displays.len() - from,
{
    if from < displays.len() {
        lemma_display_from(displays, id, from + 1);
    }
}

/// The display that an identifier is assigned to is the first that carries it. Where none does,
/// there is none, whatever other displays there are.
pub proof fn law_a_display_is_the_first_that_carries_its_identifier(
    displays: Seq<DisplayDeviceView>,
    id: Text,
)
    ensures
        match presentation::assigned_display(displays, id) {
            Some(display) => exists|i: int|
                0 <= i < displays.len() && #[trigger] displays[i] == display && carries(display, id)
                    && forall|j: int| 0 <= j < i ==> !carries(#[trigger] displays[j], id),
            None => forall|j: int| 0 <= j < displays.len() ==> !carries(#[trigger] displays[j], id),
        },
{
    lemma_display_from(displays, id, 0);
}

// ---- Windows ---------------------------------------------------------------------------

/// Whether a window is a visible one of a VirtualBox machine.
pub open spec fn is_shown_machine(window: WindowDescriptorView) -> bool {
    window.visible && model::lower(window.executable_name) == model::lower("VirtualBoxVM.exe"@)
}

/// Whether the title of a window holds a name, whatever the case of the letters.
pub open spec fn bears(window: WindowDescriptorView, name: Text) -> bool {
    model::contains(model::lower(window.title), model::lower(name))
}

/// Whether one window fits a machine better than another: a window without an owner fits better
/// than one with, then one that bears the machine's name, then one that has a class.
pub open spec fn fits_better(
    a: WindowDescriptorView,
    b: WindowDescriptorView,
    name: Text,
) -> bool {
    ||| a.owner_handle is None && b.owner_handle is Some
    ||| a.owner_handle is None == b.owner_handle is None && bears(a, name) && !bears(b, name)
    ||| a.owner_handle is None == b.owner_handle is None && bears(a, name) == bears(b, name)
        && a.class_name.len() > 0 && b.class_name.len() == 0
}

proof fn lemma_score(a: WindowDescriptorView, b: WindowDescriptorView, name: Text)
    ensures
        fits_better(a, b, name) <==> a.score(name) > b.score(name),
{
}

/// Whether a place in a list of windows is that of the best one among those that are wanted, the
/// last of equally good ones.
pub open spec fn is_best_of(
    windows: Seq<WindowDescriptorView>,
    wanted: spec_fn(WindowDescriptorView) -> bool,
    name: Text,
    i: int,
) -> bool {
    &&& 0 <= i < windows.len()
    &&& wanted(windows[i])
    &&& forall|j: int|
        0 <= j < windows.len() && wanted(#[trigger] windows[j]) ==> !fits_better(
            windows[j],
            windows[i],
            name,
        ) && (j > i ==> fits_better(windows[i], windows[j], name))
}

proof fn lemma_best_of(
    windows: Seq<WindowDescriptorView>,
    wanted: spec_fn(WindowDescriptorView) -> bool,
    name: Text,
)
    ensures
        match presentation::best(windows.filter(wanted), name) {
            Some(window) => exists|i: int|
                #[trigger] is_best_of(windows, wanted, name, i) && windows[i] == window,
            None => forall|j: int| 0 <= j < windows.len() ==> !wanted(#[trigger] windows[j]),
        },
    decreases windows.len(),
{
    reveal(Seq::filter);
    if windows.len() > 0 {
        let shorter = windows.drop_last();
        let last = windows.len() - 1;
        lemma_best_of(shorter, wanted, name);
        assert forall|j: int| 0 <= j < last implies shorter[j] == #[trigger] windows[j] by {}
        assert(windows[last] == windows.last());
        let earlier = presentation::best(shorter.filter(wanted), name);
        if wanted(windows.last()) {
            let all = windows.filter(wanted);
            assert(all.drop_last() =~= shorter.filter(wanted));
            assert(all.last() == windows.last());
            match earlier {
                None => {
                    assert(is_best_of(windows, wanted, name, last));
                },
                Some(found) => {
                    let i = choose|i: int|
                        #[trigger] is_best_of(shorter, wanted, name, i) && shorter[i] == found;
                    lemma_score(windows[last], found, name);
                    lemma_score(found, windows[last], name);
                    if windows.last().score(name) >= found.score(name) {
                        assert forall|j: int|
                            0 <= j < windows.len() && wanted(#[trigger] windows[j]) implies
                            !fits_better(windows[j], windows[last], name) && (j > last
                            ==> fits_better(windows[last], windows[j], name)) by {
                            if j < last {
                                assert(shorter[j] == windows[j]);
                                lemma_score(windows[j], found, name);
                                lemma_score(windows[j], windows[last], name);
                            } else {
                                lemma_score(windows[last], windows[last], name);
                            }
                        }
                        assert(is_best_of(windows, wanted, name, last));
                    } else {
                        assert forall|j: int|
                            0 <= j < windows.len() && wanted(#[trigger] windows[j]) implies
                            !fits_better(windows[j], windows[i], name) && (j > i ==> fits_better(
                            windows[i],
                            windows[j],
                            name,
                        )) by {
                            if j < last {
                                assert(shorter[j] == windows[j]);
                            }
                        }
                        assert(is_best_of(windows, wanted, name, i));
                    }
                },
            }
        } else {
            assert(windows.filter(wanted) == shorter.filter(wanted));
            match earlier {
                None => {},
                Some(found) => {
                    let i = choose|i: int|
                        #[trigger] is_best_of(shorter, wanted, name, i) && shorter[i] == found;
                    assert forall|j: int|
                        0 <= j < windows.len() && wanted(#[trigger] windows[j]) implies
                        !fits_better(windows[j], windows[i], name) && (j > i ==> fits_better(
                        windows[i],
                        windows[j],
                        name,
                    )) by {
                        if j < last {
                            assert(shorter[j] == windows[j]);
                        }
                    }
                    assert(is_best_of(windows, wanted, name, i));
                },
            }
        }
    }
}

/// Whether two windows that bear a name belong to different processes.
pub open spec fn is_ambiguous(windows: Seq<WindowDescriptorView>, name: Text) -> bool {
    exists|i: int, j: int|
        0 <= i < windows.len() && 0 <= j < windows.len() && is_shown_machine(
            #[trigger] windows[i],
        ) && is_shown_machine(#[trigger] windows[j]) && bears(windows[i], name) && bears(
            windows[j],
            name,
        ) && windows[i].process_id != windows[j].process_id
}

/// The window of a machine is the best of the visible windows of the machine's process. Where the
/// process is not known or has none, it is the best of the visible machine windows that bear the
/// machine's name, provided that they all belong to one process. Otherwise there is none.
pub proof fn law_the_window_is_the_machines_best(
    target: ManagedVmWindowIdentityView,
    windows: Seq<WindowDescriptorView>,
)
    ensures
        ({
            let chosen = presentation::managed_window(target, windows);
            let name = model::trimmed(target.vm_name);
            let own = |window: WindowDescriptorView|
                is_shown_machine(window) && target.session_pid == Some(window.process_id);
            let named = |window: WindowDescriptorView|
                is_shown_machine(window) && bears(window, name);
            let has_own = exists|i: int| 0 <= i < windows.len() && own(#[trigger] windows[i]);
            let has_named = exists|i: int| 0 <= i < windows.len() && named(#[trigger] windows[i]);
            &&& has_own ==> (exists|i: int|
                #[trigger] is_best_of(windows, own, target.vm_name, i) && chosen == Some(
                    windows[i],
                ))
            &&& !has_own && name.len() > 0 && has_named && !is_ambiguous(windows, name) ==> (exists|
                i: int,
            |
                #[trigger] is_best_of(windows, named, name, i) && chosen == Some(windows[i]))
            &&& !has_own && (name.len() == 0 || !has_named || is_ambiguous(windows, name))
                ==> chosen is None
        }),
{
    let name = model::trimmed(target.vm_name);
    let shown = |window: WindowDescriptorView| window.visible && window.is_machine_window();
    let own = |window: WindowDescriptorView|
        is_shown_machine(window) && target.session_pid == Some(window.process_id);
    let named = |window: WindowDescriptorView| is_shown_machine(window) && bears(window, name);
    let candidates = presentation::visible_machine_windows(windows);
    if let Some(process_id) = target.session_pid {
        sequences::lemma_both_pass(
            windows,
            shown,
            |window: WindowDescriptorView| window.process_id == process_id,
            own,
        );
        lemma_best_of(windows, own, target.vm_name);
    }
    sequences::lemma_both_pass(
        windows,
        shown,
        |window: WindowDescriptorView| presentation::title_holds(window.title, name),
        named,
    );
    lemma_best_of(windows, named, name);
    let titled = presentation::of_title(candidates, name);
    assert(titled == windows.filter(named));
    lemma_processes(windows, named, name);
}

proof fn lemma_processes(
    windows: Seq<WindowDescriptorView>,
    named: spec_fn(WindowDescriptorView) -> bool,
    name: Text,
)
    requires
        forall|window: WindowDescriptorView| #[trigger]
            named(window) == (is_shown_machine(window) && bears(window, name)),
    ensures
        presentation::one_process(windows.filter(named)) == !is_ambiguous(windows, name),
{
    let titled = windows.filter(named);
    if is_ambiguous(windows, name) {
        let (i, j) = choose|i: int, j: int|
            0 <= i < windows.len() && 0 <= j < windows.len() && is_shown_machine(
                #[trigger] windows[i],
            ) && is_shown_machine(#[trigger] windows[j]) && bears(windows[i], name) && bears(
                windows[j],
                name,
            ) && windows[i].process_id != windows[j].process_id;
        assert(named(windows[i]) && named(windows[j]));
        sequences::lemma_passes(windows, named, i);
        sequences::lemma_passes(windows, named, j);
        let a = choose|a: int| 0 <= a < titled.len() && titled[a] == windows[i];
        let b = choose|b: int| 0 <= b < titled.len() && titled[b] == windows[j];
        if presentation::one_process(titled) {
            assert(titled[a].process_id == titled[0].process_id);
            assert(titled[b].process_id == titled[0].process_id);
        }
    }
    if !presentation::one_process(titled) {
        let k = choose|k: int|
            0 <= k < titled.len() && (#[trigger] titled[k]).process_id != titled[0].process_id;
        sequences::lemma_kept(windows, named, k);
        sequences::lemma_kept(windows, named, 0);
        let i = choose|i: int| 0 <= i < windows.len() && windows[i] == titled[k];
        let j = choose|j: int| 0 <= j < windows.len() && windows[j] == titled[0];
        assert(named(windows[i]) && named(windows[j]));
        assert(is_shown_machine(windows[i]) && is_shown_machine(windows[j]));
    }
}

/// The windows that a status tells of are machine windows, visible or not, in their order and at
/// most 32 of them, each as it is.
pub proof fn law_candidates_are_machine_windows(windows: Seq<WindowDescriptorView>)
    ensures
        ({
            let told = presentation::candidate_list(windows);
            let machines = windows.filter(
                |window: WindowDescriptorView|
                    model::lower(window.executable_name) == model::lower("VirtualBoxVM.exe"@),
            );
            &&& told.len() == (if machines.len() <= 32 {
                machines.len()
            } else {
                32
            })
            &&& forall|i: int|
                0 <= i < told.len() ==> {
                    let window = machines[i];
                    &&& (#[trigger] told[i]).process_id == window.process_id
                    &&& told[i].window_handle == window.handle
                    &&& told[i].class_name == window.class_name
                    &&& told[i].title == window.title
                    &&& told[i].visible == window.visible
                    &&& told[i].owner_window_handle == window.owner_handle
                    &&& told[i].bounds == window.bounds
                }
        }),
{
    let machine = |window: WindowDescriptorView|
        model::lower(window.executable_name) == model::lower("VirtualBoxVM.exe"@);
    let named = |window: WindowDescriptorView| window.is_machine_window();
    assert(machine =~= named);
}

// ---- Placing ---------------------------------------------------------------------------

/// Bounds and edges say the same: the left and top edges are where the bounds begin, and the
/// right and bottom edges are as far from those as the bounds are wide and high. Turning one into
/// the other and back changes nothing.
pub proof fn law_edges_are_bounds(bounds: DisplayBounds)
    ensures
        ({
            let rect = presentation_session::edges(bounds);
            &&& rect.left == bounds.x
            &&& rect.top == bounds.y
            &&& i32::MIN <= bounds.x + bounds.width <= i32::MAX ==> rect.right == bounds.x
                + bounds.width
            &&& i32::MIN <= bounds.y + bounds.height <= i32::MAX ==> rect.bottom == bounds.y
                + bounds.height
            &&& presentation_session::extent(rect) == bounds
        }),
{
}

/// Whether a window was found as it was wanted: without any part of a frame, in the style that
/// was set, with edges where the bounds are, and on the monitor that the bounds are on.
pub open spec fn was_found_placed(
    style: isize,
    wanted: isize,
    rect: WindowRect,
    bounds: DisplayBounds,
    on: isize,
    of: isize,
) -> bool {
    &&& style == wanted
    &&& style & 0x00CF_0000 == 0
    &&& rect.left == bounds.x
    &&& rect.top == bounds.y
    &&& rect.right == bounds.x.wrapping_add(bounds.width)
    &&& rect.bottom == bounds.y.wrapping_add(bounds.height)
    &&& of != 0
    &&& on == of
}

/// Placing a window that succeeds has taken its frame off and nothing else of its style, has
/// moved it on top of all others to exactly the bounds, and has then found it so.
pub proof fn law_a_placed_window_is_where_it_should_be(
    w: Desk,
    handle: isize,
    bounds: DisplayBounds,
    original: OriginalWindow,
)
    requires
        presentation_session::place_p(w, handle, bounds, original).1 is Ok,
    ensures
        ({
            let after = presentation_session::place_p(w, handle, bounds, original).0;
            let n = w.requests.len() as int;
            let wanted = original.style & !0x00CF_0000isize;
            &&& after.requests.len() == n + 9
            &&& after.requests[n + 1] == DesktopRequest::SetStyle(
                handle,
                StyleWord::Style,
                wanted,
            )
            &&& after.requests[n + 3] == DesktopRequest::MoveWindow(handle, bounds, true)
            &&& after.requests[n + 5] == DesktopRequest::Style(handle, StyleWord::Style)
            &&& after.requests[n + 6] == DesktopRequest::WindowRect(handle)
            &&& after.requests[n + 7] == DesktopRequest::MonitorOfWindow(handle)
            &&& after.requests[n + 8] == DesktopRequest::MonitorOfRect(
                presentation_session::edges(bounds),
            )
            &&& (w.oracle)(n + 3)->Done_0 is Ok
            &&& (w.oracle)(n + 6)->Rect_0 matches Ok(rect) && was_found_placed(
                (w.oracle)(n + 5)->Long_0.value,
                wanted,
                rect,
                bounds,
                (w.oracle)(n + 7)->Monitor_0,
                (w.oracle)(n + 8)->Monitor_0,
            )
        }),
{
    let n = w.requests.len() as int;
    if let Ok(rect) = (w.oracle)(n + 6)->Rect_0 {
        let found = presentation_session::extent(rect);
        assert(found == bounds ==> presentation_session::edges(found) == presentation_session::edges(
            bounds,
        ));
        assert(presentation_session::edges(found) == rect);
    }
}

/// What a window was like before is kept as the desktop told it: its edges, how it was shown, and
/// both words of its style.
pub proof fn law_what_a_window_was_like_is_kept(w: Desk, handle: isize)
    requires
        presentation_session::read_original_p(w, handle).1 is Ok,
    ensures
        ({
            let (after, result) = presentation_session::read_original_p(w, handle);
            let n = w.requests.len() as int;
            let kept = result->Ok_0;
            &&& after.state.original == Some(kept)
            &&& kept.handle == handle
            &&& after.requests == w.requests + seq![
                DesktopRequest::WindowRect(handle),
                DesktopRequest::WindowPlacement(handle),
                DesktopRequest::Style(handle, StyleWord::Style),
                DesktopRequest::Style(handle, StyleWord::ExtendedStyle),
            ]
            &&& (w.oracle)(n)->Rect_0 == Ok::<WindowRect, Text>(kept.bounds)
            &&& (w.oracle)(n + 1)->Placement_0 == Ok::<
                presentation_session::WindowPlacement,
                Text,
            >(kept.placement)
            &&& (w.oracle)(n + 2)->Long_0.value == kept.style
            &&& (w.oracle)(n + 3)->Long_0.value == kept.extended_style
        }),
{
    let (after, _) = presentation_session::read_original_p(w, handle);
    assert(after.requests =~= w.requests + seq![
        DesktopRequest::WindowRect(handle),
        DesktopRequest::WindowPlacement(handle),
        DesktopRequest::Style(handle, StyleWord::Style),
        DesktopRequest::Style(handle, StyleWord::ExtendedStyle),
    ]);
}

/// A style that reads as zero is one unless an error came with it.
pub proof fn law_a_style_of_zero_is_no_error(
    long: presentation_session::WindowLong,
    label: Text,
)
    ensures
        long.error == 0 || long.value != 0 ==> presentation_session::read_style(long, label)
            == Ok::<isize, Text>(long.value) && presentation_session::wrote_style(long, label)
            is Ok,
        long.error != 0 && long.value == 0 ==> presentation_session::read_style(long, label) is Err
            && presentation_session::wrote_style(long, label) is Err,
{
}

// ---- Rounds ----------------------------------------------------------------------------

/// Whether a round of a presentation ends as it should where the window of the machine is not
/// there: it waits until the deadline, and gives up after it.
pub proof fn law_a_missing_window_is_waited_for(w: Desk, prior: PresentationState)
    ensures
        ({
            let after = presentation_session::no_window_p(w, prior);
            let n = w.requests.len() as int;
            let status = after.state.status;
            &&& !status.managed_window_found
            &&& status.managed_window_process_id is None
            &&& status.state == (if (w.oracle)(n)->Flag_0 {
                PresentationState::PresentationUnavailable
            } else {
                PresentationState::WaitingForVmWindow
            })
            &&& status.failure_reason is Some <==> (w.oracle)(n + 1)->Flag_0
            &&& (w.oracle)(n + 1)->Flag_0 ==> status.failure_reason == Some(
                if w.state.target.session_pid is None {
                    PresentationFailureReason::ManagedVmPidUnknown
                } else {
                    PresentationFailureReason::NoMatchingVmWindow
                },
            )
            &&& status.last_error is Some <==> (w.oracle)(n + 2)->Flag_0
        }),
{
}

/// Where the window is there, the round tells of its process, and asks the desktop for its
/// displays. Where the assigned one is not among them, or has no bounds, nothing is presented, and
/// the reason is that the display was not found.
pub proof fn law_a_missing_display_is_told(
    w: Desk,
    prior: presentation_session::PriorRound,
    window: WindowDescriptorView,
)
    requires
        ({
            let k = w.requests.len() as int + (if prior.window_found {
                0int
            } else {
                1
            });
            match (w.oracle)(k)->Displays_0 {
                Err(_) => true,
                Ok(displays) => match presentation::assigned_display(
                    displays,
                    w.state.assigned_display_id,
                ) {
                    None => true,
                    Some(display) => display.bounds is None,
                },
            }
        }),
    ensures
        ({
            let after = presentation_session::window_p(w, prior, window);
            let k = w.requests.len() as int + (if prior.window_found {
                0int
            } else {
                1
            });
            let status = after.state.status;
            &&& after.requests[k] == DesktopRequest::Displays
            &&& status.managed_window_found
            &&& status.managed_window_process_id == Some(window.process_id)
            &&& status.failure_reason == Some(PresentationFailureReason::DisplayNotResolved)
            &&& status.last_error is Some
            &&& status.state == (if (w.oracle)(k)->Displays_0 is Err {
                PresentationState::Error
            } else {
                PresentationState::PresentationUnavailable
            })
            &&& (w.oracle)(k)->Displays_0 is Ok ==> status.bounds is None
        }),
{
}

/// Where window and display are there, the round reports the display's name and bounds, and the
/// window as presented exactly where it is: where it was placed by this round, or was placed there
/// by an earlier one.
pub proof fn law_a_window_counts_as_presented_once_it_is_placed(
    w: Desk,
    prior: presentation_session::PriorRound,
    window: WindowDescriptorView,
    display: DisplayDeviceView,
    bounds: DisplayBounds,
)
    ensures
        ({
            let after = presentation_session::display_p(w, prior, window, display, bounds);
            let status = after.state.status;
            let kept = prior.state == PresentationState::Presented && prior.bounds == Some(bounds)
                && (w.state.original matches Some(original) && original.handle == window.handle);
            let named = DisplayPresentationStatusView {
                display_name: Some(
                    match display.friendly_name {
                        Some(name) => name,
                        None => display.desktop_device_name,
                    },
                ),
                bounds: Some(bounds),
                ..w.state.status
            };
            &&& status.bounds == Some(bounds)
            &&& status.display_name == named.display_name
            &&& kept ==> after.requests == w.requests && status.state
                == PresentationState::Presented
            &&& !kept ==> after.requests.len() > w.requests.len() + 1 && after.requests[
                w.requests.len() as int + 1
            ] == DesktopRequest::IsWindow(window.handle)
            &&& status.state == PresentationState::Presented || status.state
                == PresentationState::Error
            &&& status.state == PresentationState::Presented ==> status.mode
                == PresentationMode::Borderless && status.last_error is None
                && status.failure_reason is None
            &&& status.state == PresentationState::Error ==> status.failure_reason is Some
                && status.last_error is Some
        }),
{
    let after = presentation_session::display_p(w, prior, window, display, bounds);
    let kept = prior.state == PresentationState::Presented && prior.bounds == Some(bounds) && (
    w.state.original matches Some(original) && original.handle == window.handle);
    if !kept {
        let w1 = presentation_session::with_status(
            w,
            DisplayPresentationStatusView {
                display_name: Some(
                    match display.friendly_name {
                        Some(name) => name,
                        None => display.desktop_device_name,
                    },
                ),
                bounds: Some(bounds),
                ..w.state.status
            },
        );
        let w2 = presentation_session::push_trace_p(
            w1,
            "DisplayResolved"@,
            display.friendly_name,
            Some(window.process_id),
            Some(window.handle),
            Some(bounds),
            None,
        );
        let w3 = presentation_session::with_status(
            w2,
            DisplayPresentationStatusView {
                state: PresentationState::Presenting,
                ..w2.state.status
            },
        );
        lemma_apply_keeps(w3, window.handle, bounds);
        let n = w.requests.len() as int;
        assert(w3.requests.len() == n + 1);
    }
}

/// What placing a window leaves as it was of the status, and what it asks first.
proof fn lemma_apply_keeps(w: Desk, handle: isize, bounds: DisplayBounds)
    ensures
        ({
            let after = presentation_session::apply_p(w, handle, bounds).0;
            let n = w.requests.len() as int;
            &&& after.state.status.bounds == w.state.status.bounds
            &&& after.state.status.display_name == w.state.status.display_name
            &&& after.requests.len() > n
            &&& after.requests[n] == DesktopRequest::IsWindow(handle)
        }),
{
    let n = w.requests.len() as int;
    let (w1, alive) = journal::ask(w, DesktopRequest::IsWindow(handle));
    if alive->Flag_0 {
        let (w2, kept) = presentation_session::preserve_p(w1, handle);
        assert(w2.requests.len() >= n + 1 && w2.requests[n] == w1.requests[n]);
        if let Ok(original) = kept {
            let (w3, _) = presentation_session::place_p(w2, handle, bounds, original);
            assert(w3.requests.len() >= w2.requests.len() && w3.requests[n] == w2.requests[n]);
        }
    }
}

/// Where a window could not be placed, the reason tells at which step: the window was gone or
/// could not be read, its style could not be set, it could not be moved, or it was not found as it
/// was wanted.
pub proof fn law_a_failed_placing_tells_its_step(
    w: Desk,
    handle: isize,
    bounds: DisplayBounds,
    original: OriginalWindow,
)
    ensures
        ({
            let n = w.requests.len() as int;
            let style = (w.oracle)(n + 1)->Long_0;
            let style_failed = style.value == 0 && style.error != 0;
            let move_failed = (w.oracle)(n + 3)->Done_0 is Err;
            presentation_session::place_p(w, handle, bounds, original).1 matches Err((reason, _))
                ==> reason == (if style_failed {
                PresentationFailureReason::SetWindowStyleFailed
            } else if move_failed {
                PresentationFailureReason::SetWindowPosFailed
            } else {
                PresentationFailureReason::PostconditionVerificationFailed
            })
        }),
        ({
            let n = w.requests.len() as int;
            let result = presentation_session::apply_p(w, handle, bounds).1;
            !(w.oracle)(n)->Flag_0 ==> {
                &&& result matches Err((reason, _))
                &&& reason == PresentationFailureReason::WindowStateReadFailed
                &&& presentation_session::apply_p(w, handle, bounds).0.requests == w.requests.push(
                    DesktopRequest::IsWindow(handle),
                )
            }
        }),
{
}

/// A window that is not where an earlier round put it counts as presented exactly where placing it
/// now succeeded.
pub proof fn law_presented_means_placed(
    w: Desk,
    prior: presentation_session::PriorRound,
    window: WindowDescriptorView,
    display: DisplayDeviceView,
    bounds: DisplayBounds,
)
    requires
        !(prior.state == PresentationState::Presented && prior.bounds == Some(bounds) && (
        w.state.original matches Some(original) && original.handle == window.handle)),
    ensures
        exists|at: Desk|
            {
                &&& at.oracle == w.oracle
                &&& at.requests.len() == w.requests.len() + 1
                &&& at.state.original == w.state.original
                &&& (presentation_session::display_p(
                    w,
                    prior,
                    window,
                    display,
                    bounds,
                ).state.status.state == PresentationState::Presented <==> (
                #[trigger] presentation_session::apply_p(at, window.handle, bounds)).1 is Ok)
            },
{
    let w1 = presentation_session::with_status(
        w,
        DisplayPresentationStatusView {
            display_name: Some(
                match display.friendly_name {
                    Some(name) => name,
                    None => display.desktop_device_name,
                },
            ),
            bounds: Some(bounds),
            ..w.state.status
        },
    );
    let w2 = presentation_session::push_trace_p(
        w1,
        "DisplayResolved"@,
        display.friendly_name,
        Some(window.process_id),
        Some(window.handle),
        Some(bounds),
        None,
    );
    let at = presentation_session::with_status(
        w2,
        DisplayPresentationStatusView { state: PresentationState::Presenting, ..w2.state.status },
    );
    let placed = presentation_session::apply_p(at, window.handle, bounds);
    assert(at.requests.len() == w.requests.len() + 1);
}

/// A step of a presentation is noted last, as it was told and with the moment of the clock.
pub proof fn law_a_step_is_noted(
    w: Desk,
    stage: Text,
    detail: Option<Text>,
    process_id: Option<u32>,
    window_handle: Option<isize>,
    target_bounds: Option<DisplayBounds>,
    error: Option<Text>,
)
    ensures
        ({
            let after = presentation_session::push_trace_p(
                w,
                stage,
                detail,
                process_id,
                window_handle,
                target_bounds,
                error,
            );
            let entry = after.state.status.trace.last();
            let clock = (w.oracle)(w.requests.len() as int)->Clock_0;
            &&& after.requests == w.requests.push(DesktopRequest::Clock)
            &&& entry.stage == stage
            &&& entry.detail == detail
            &&& entry.process_id == process_id
            &&& entry.window_handle == window_handle
            &&& entry.target_bounds == target_bounds
            &&& entry.error == error
            &&& entry.target_display_id == Some(w.state.assigned_display_id)
            &&& entry.timestamp_ms == clock.timestamp_ms
            &&& entry.elapsed_ms == clock.elapsed_ms
            &&& after.state.status == (DisplayPresentationStatusView {
                trace: after.state.status.trace,
                ..w.state.status
            })
        }),
{
}

/// Locking moves nothing by itself: it says that the window is to be presented from now on, and
/// the next round does it.
pub proof fn law_locking_prepares_a_presentation(w: Desk)
    ensures
        ({
            let after = presentation_session::set_locked_p(w, true);
            &&& after.requests == w.requests
            &&& after.state.locked
            &&& after.state.original == w.state.original
            &&& after.state.target == w.state.target
            &&& after.state.assigned_display_id == w.state.assigned_display_id
            &&& after.state.status.state == PresentationState::ResolvingDisplay
            &&& after.state.status.mode == PresentationMode::Borderless
        }),
        !presentation_session::set_locked_p(w, false).state.locked,
{
}

/// A presentation is looked after four times a second until the deadline, and every two seconds
/// after it where a window was seen. Where none was, it ends at the deadline.
pub proof fn law_a_presentation_is_looked_after(window_seen: bool, past_deadline: bool)
    ensures
        presentation_session::pause_ms(window_seen, past_deadline) is None <==> past_deadline
            && !window_seen,
        !past_deadline ==> presentation_session::pause_ms(window_seen, past_deadline) == Some(
            250u64,
        ),
        past_deadline && window_seen ==> presentation_session::pause_ms(
            window_seen,
            past_deadline,
        ) == Some(2000u64),
{
}

} // verus!
