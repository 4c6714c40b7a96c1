//! Showing the window of a managed machine on the display of its seat.
use super::focus_protection::{ManagedVmWindowIdentity, ManagedVmWindowIdentityView};
use super::service::{Reply, Request};
use crate::displays::{DisplayBounds, DisplayDevice, DisplayDeviceView};
use crate::duplicate;
use crate::duplicate::{duplicate_all, Duplicate};
use crate::journal::{Kept, Relation};
use crate::text::compose::{as_opt_str, copy_opt, to_lower};
use crate::text::model;
use crate::text::model::Text;
use crate::text::scan::{has, opt_is_any_case, same_any_case, trim};
use vstd::prelude::*;

verus! {

/// How far the presentation of a machine has come.
#[derive(Clone, Copy, Debug, Eq, PartialEq, Structural)]
pub enum PresentationState {
    NotPresented,
    WaitingForVmWindow,
    ResolvingDisplay,
    Presenting,
    Presented,
    PresentationUnavailable,
    Error,
}

/// How the window of a machine is shown.
#[derive(Clone, Copy, Debug, Eq, PartialEq, Structural)]
pub enum PresentationMode {
    Borderless,
    ConventionalWindow,
}

/// Why a machine is not presented.
#[derive(Clone, Copy, Debug, Eq, PartialEq, Structural)]
pub enum PresentationFailureReason {
    NoMatchingVmWindow,
    ManagedVmPidUnknown,
    DisplayNotResolved,
    WindowStateReadFailed,
    SetWindowStyleFailed,
    SetWindowPosFailed,
    PostconditionVerificationFailed,
}

/// A window that was looked at.
#[derive(Debug, Eq, PartialEq)]
pub struct WindowCandidateDiagnostic {
    pub process_id: u32,
    pub window_handle: isize,
    pub class_name: String,
    pub title: String,
    pub visible: bool,
    pub owner_window_handle: Option<isize>,
    pub bounds: Option<DisplayBounds>,
}

/// The model of [`WindowCandidateDiagnostic`].
#[verifier::ext_equal]
pub struct WindowCandidateDiagnosticView {
    pub process_id: u32,
    pub window_handle: isize,
    pub class_name: Text,
    pub title: Text,
    pub visible: bool,
    pub owner_window_handle: Option<isize>,
    pub bounds: Option<DisplayBounds>,
}

impl View for WindowCandidateDiagnostic {
    type V = WindowCandidateDiagnosticView;

    open spec fn view(&self) -> WindowCandidateDiagnosticView {
        WindowCandidateDiagnosticView {
            process_id: self.process_id,
            window_handle: self.window_handle,
            class_name: self.class_name@,
            title: self.title@,
            visible: self.visible,
            owner_window_handle: self.owner_window_handle,
            bounds: self.bounds,
        }
    }
}

impl Duplicate for WindowCandidateDiagnostic {
    fn duplicate(&self) -> (r: Self) {
        WindowCandidateDiagnostic {
            process_id: self.process_id,
            window_handle: self.window_handle,
            class_name: self.class_name.clone(),
            title: self.title.clone(),
            visible: self.visible,
            owner_window_handle: self.owner_window_handle,
            bounds: self.bounds,
        }
    }
}

impl Clone for WindowCandidateDiagnostic {
    fn clone(&self) -> (r: Self)
        ensures
            r@ == self@,
    {
        self.duplicate()
    }
}

/// One step of a presentation.
#[derive(Debug, Eq, PartialEq)]
pub struct PresentationTraceEntry {
    pub stage: String,
    pub timestamp_ms: u64,
    pub elapsed_ms: u64,
    pub duration_ms: Option<u64>,
    pub detail: Option<String>,
    pub process_id: Option<u32>,
    pub window_handle: Option<isize>,
    pub target_display_id: Option<String>,
    pub target_bounds: Option<DisplayBounds>,
    pub error: Option<String>,
}

/// The model of [`PresentationTraceEntry`].
#[verifier::ext_equal]
pub struct PresentationTraceEntryView {
    pub stage: Text,
    pub timestamp_ms: u64,
    pub elapsed_ms: u64,
    pub duration_ms: Option<u64>,
    pub detail: Option<Text>,
    pub process_id: Option<u32>,
    pub window_handle: Option<isize>,
    pub target_display_id: Option<Text>,
    pub target_bounds: Option<DisplayBounds>,
    pub error: Option<Text>,
}

impl View for PresentationTraceEntry {
    type V = PresentationTraceEntryView;

    open spec fn view(&self) -> PresentationTraceEntryView {
        PresentationTraceEntryView {
            stage: self.stage@,
            timestamp_ms: self.timestamp_ms,
            elapsed_ms: self.elapsed_ms,
            duration_ms: self.duration_ms,
            detail: model::opt_text(self.detail),
            process_id: self.process_id,
            window_handle: self.window_handle,
            target_display_id: model::opt_text(self.target_display_id),
            target_bounds: self.target_bounds,
            error: model::opt_text(self.error),
        }
    }
}

impl Duplicate for PresentationTraceEntry {
    fn duplicate(&self) -> (r: Self) {
        PresentationTraceEntry {
            stage: self.stage.clone(),
            timestamp_ms: self.timestamp_ms,
            elapsed_ms: self.elapsed_ms,
            duration_ms: self.duration_ms,
            detail: copy_opt(&self.detail),
            process_id: self.process_id,
            window_handle: self.window_handle,
            target_display_id: copy_opt(&self.target_display_id),
            target_bounds: self.target_bounds,
            error: copy_opt(&self.error),
        }
    }
}

impl Clone for PresentationTraceEntry {
    fn clone(&self) -> (r: Self)
        ensures
            r@ == self@,
    {
        self.duplicate()
    }
}

/// What presentation is doing.
#[derive(Debug, Eq, PartialEq)]
pub struct DisplayPresentationStatus {
    pub state: PresentationState,
    pub mode: PresentationMode,
    pub assigned_display_id: Option<String>,
    pub display_name: Option<String>,
    pub bounds: Option<DisplayBounds>,
    pub managed_window_found: bool,
    pub managed_window_process_id: Option<u32>,
    pub failure_reason: Option<PresentationFailureReason>,
    pub window_candidates: Vec<WindowCandidateDiagnostic>,
    pub trace: Vec<PresentationTraceEntry>,
    pub last_error: Option<String>,
}

/// The model of [`DisplayPresentationStatus`].
#[verifier::ext_equal]
pub struct DisplayPresentationStatusView {
    pub state: PresentationState,
    pub mode: PresentationMode,
    pub assigned_display_id: Option<Text>,
    pub display_name: Option<Text>,
    pub bounds: Option<DisplayBounds>,
    pub managed_window_found: bool,
    pub managed_window_process_id: Option<u32>,
    pub failure_reason: Option<PresentationFailureReason>,
    pub window_candidates: Seq<WindowCandidateDiagnosticView>,
    pub trace: Seq<PresentationTraceEntryView>,
    pub last_error: Option<Text>,
}

impl View for DisplayPresentationStatus {
    type V = DisplayPresentationStatusView;

    open spec fn view(&self) -> DisplayPresentationStatusView {
        DisplayPresentationStatusView {
            state: self.state,
            mode: self.mode,
            assigned_display_id: model::opt_text(self.assigned_display_id),
            display_name: model::opt_text(self.display_name),
            bounds: self.bounds,
            managed_window_found: self.managed_window_found,
            managed_window_process_id: self.managed_window_process_id,
            failure_reason: self.failure_reason,
            window_candidates: duplicate::views(self.window_candidates@),
            trace: duplicate::views(self.trace@),
            last_error: model::opt_text(self.last_error),
        }
    }
}

impl Duplicate for DisplayPresentationStatus {
    fn duplicate(&self) -> (r: Self) {
        DisplayPresentationStatus {
            state: self.state,
            mode: self.mode,
            assigned_display_id: copy_opt(&self.assigned_display_id),
            display_name: copy_opt(&self.display_name),
            bounds: self.bounds,
            managed_window_found: self.managed_window_found,
            managed_window_process_id: self.managed_window_process_id,
            failure_reason: self.failure_reason,
            window_candidates: duplicate_all(&self.window_candidates),
            trace: duplicate_all(&self.trace),
            last_error: copy_opt(&self.last_error),
        }
    }
}

impl Clone for DisplayPresentationStatus {
    fn clone(&self) -> (r: Self)
        ensures
            r@ == self@,
    {
        self.duplicate()
    }
}

/// The status of a presentation that is off.
pub open spec fn no_presentation() -> DisplayPresentationStatusView {
    DisplayPresentationStatusView {
        state: PresentationState::NotPresented,
        mode: PresentationMode::Borderless,
        assigned_display_id: None,
        display_name: None,
        bounds: None,
        managed_window_found: false,
        managed_window_process_id: None,
        failure_reason: None,
        window_candidates: seq![],
        trace: seq![],
        last_error: None,
    }
}

impl Default for DisplayPresentationStatus {
    fn default() -> (r: Self)
        ensures
            r@ == no_presentation(),
    {
        DisplayPresentationStatus {
            state: PresentationState::NotPresented,
            mode: PresentationMode::Borderless,
            assigned_display_id: None,
            display_name: None,
            bounds: None,
            managed_window_found: false,
            managed_window_process_id: None,
            failure_reason: None,
            window_candidates: Vec::new(),
            trace: Vec::new(),
            last_error: None,
        }
    }
}

/// The status of a presentation that cannot be had.
pub open spec fn unavailable(assigned_display_id: Option<Text>, message: Text) ->
    DisplayPresentationStatusView {
    DisplayPresentationStatusView {
        state: PresentationState::PresentationUnavailable,
        assigned_display_id,
        last_error: Some(message),
        ..no_presentation()
    }
}

/// What shows the window of a machine. Nothing is promised of what it answers but what an
/// implementation chooses to promise.
pub trait PresentationBackend: Send + Sync {
    /// Which answers it may give to which requests, whatever it has been asked before.
    open spec fn answers(&self) -> Relation<Request, Reply> {
        |request: Request, reply: Reply| true
    }

    /// Which answers it may give to which requests as it is now.
    open spec fn answers_now(&self) -> Relation<Request, Reply> {
        |request: Request, reply: Reply| true
    }

    fn start(&mut self, target: ManagedVmWindowIdentity, assigned_display_id: String) -> (r: Result<
        (),
        String,
    >)
        ensures
            old(self).answers()(
                Request::PresentationStart(target@, assigned_display_id@),
                Reply::Done(model::with_message(r)),
            ),
            old(self).answers_now()(
                Request::PresentationStart(target@, assigned_display_id@),
                Reply::Done(model::with_message(r)),
            ),
            final(self).answers() == old(self).answers(),
    ;

    fn set_locked(&mut self, locked: bool) -> (r: Result<(), String>)
        ensures
            old(self).answers()(
                Request::PresentationLock(locked),
                Reply::Done(model::with_message(r)),
            ),
            old(self).answers_now()(
                Request::PresentationLock(locked),
                Reply::Done(model::with_message(r)),
            ),
            final(self).answers() == old(self).answers(),
    ;

    fn mark_unavailable(&mut self, assigned_display_id: Option<String>, message: String) -> (r:
        Result<(), String>)
        ensures
            old(self).answers()(
                Request::PresentationUnavailable(
                    model::opt_text(assigned_display_id),
                    message@,
                ),
                Reply::Done(model::with_message(r)),
            ),
            old(self).answers_now()(
                Request::PresentationUnavailable(
                    model::opt_text(assigned_display_id),
                    message@,
                ),
                Reply::Done(model::with_message(r)),
            ),
            final(self).answers() == old(self).answers(),
    ;

    fn stop(&mut self) -> (r: Result<(), String>)
        ensures
            old(self).answers()(Request::PresentationStop, Reply::Done(model::with_message(r))),
            old(self).answers_now()(Request::PresentationStop, Reply::Done(model::with_message(r))),
            final(self).answers() == old(self).answers(),
    ;

    fn status(&self) -> (r: DisplayPresentationStatus)
        ensures
            self.answers()(Request::PresentationStatus, Reply::Presentation(r@)),
            self.answers_now()(Request::PresentationStatus, Reply::Presentation(r@)),
    ;
}

// ---- Which display, which window -------------------------------------------------------

/// Whether an identifier is that of a display.
pub open spec fn is_display(display: DisplayDeviceView, id: Text) -> bool {
    model::is_ignoring_case(display.pnp_instance_id, id) || model::same_ignoring_case(
        display.id,
        id,
    )
}

/// The first display at or after `from` with an identifier.
pub open spec fn display_from(displays: Seq<DisplayDeviceView>, id: Text, from: int) -> Option<
    DisplayDeviceView,
>
    decreases displays.len() - from,
{
    if from < 0 || from >= displays.len() {
        None
    } else if is_display(displays[from], id) {
        Some(displays[from])
    } else {
        display_from(displays, id, from + 1)
    }
}

/// The display with an identifier. There is no other to fall back to.
pub open spec fn assigned_display(displays: Seq<DisplayDeviceView>, id: Text) -> Option<
    DisplayDeviceView,
> {
    display_from(displays, id, 0)
}

/// The display with an identifier.
pub fn resolve_assigned_display<'a>(displays: &'a [DisplayDevice], assigned_display_id: &str) -> (r:
    Option<&'a DisplayDevice>)
    ensures
        match r {
            Some(display) => assigned_display(duplicate::views(displays@), assigned_display_id@)
                == Some(display@),
            None => assigned_display(duplicate::views(displays@), assigned_display_id@) is None,
        },
{
    let ghost all = duplicate::views(displays@);
    let mut i: usize = 0;
    while i < displays.len()
        invariant
            i <= displays@.len(),
            all == duplicate::views(displays@),
            assigned_display(all, assigned_display_id@) == display_from(
                all,
                assigned_display_id@,
                i as int,
            ),
        decreases displays.len() - i,
    {
        let display = &displays[i];
        assert(all[i as int] == display@);
        if opt_is_any_case(as_opt_str(&display.pnp_instance_id), assigned_display_id)
            || same_any_case(display.id.as_str(), assigned_display_id) {
            return Some(display);
        }
        i += 1;
    }
    None
}

proof fn lemma_display_found(displays: Seq<DisplayDeviceView>, id: Text, from: int)
    requires
        0 <= from,
    ensures
        match display_from(displays, id, from) {
            Some(display) => is_display(display, id) && displays.contains(display),
            None => forall|i: int|
                from <= i < displays.len() ==> !is_display(#[trigger] displays[i], id),
        },
    decreases displays.len() - from,
{
    if from < displays.len() && !is_display(displays[from], id) {
        lemma_display_found(displays, id, from + 1);
    }
}

/// The display of a seat is one that carries its identifier; where none does, none is chosen,
/// whatever other displays there are.
pub proof fn law_display_is_never_substituted(displays: Seq<DisplayDeviceView>, id: Text)
    ensures
        match assigned_display(displays, id) {
            Some(display) => is_display(display, id) && displays.contains(display),
            None => forall|i: int|
                0 <= i < displays.len() ==> !is_display(#[trigger] displays[i], id),
        },
{
    lemma_display_found(displays, id, 0);
}

/// A top-level window.
#[derive(Debug, Eq, PartialEq)]
pub struct WindowDescriptor {
    pub handle: isize,
    pub process_id: u32,
    pub executable_name: String,
    pub title: String,
    pub class_name: String,
    pub visible: bool,
    pub owner_handle: Option<isize>,
    pub bounds: Option<DisplayBounds>,
}

/// The model of [`WindowDescriptor`].
#[verifier::ext_equal]
pub struct WindowDescriptorView {
    pub handle: isize,
    pub process_id: u32,
    pub executable_name: Text,
    pub title: Text,
    pub class_name: Text,
    pub visible: bool,
    pub owner_handle: Option<isize>,
    pub bounds: Option<DisplayBounds>,
}

impl View for WindowDescriptor {
    type V = WindowDescriptorView;

    open spec fn view(&self) -> WindowDescriptorView {
        WindowDescriptorView {
            handle: self.handle,
            process_id: self.process_id,
            executable_name: self.executable_name@,
            title: self.title@,
            class_name: self.class_name@,
            visible: self.visible,
            owner_handle: self.owner_handle,
            bounds: self.bounds,
        }
    }
}

impl Duplicate for WindowDescriptor {
    fn duplicate(&self) -> (r: Self) {
        WindowDescriptor {
            handle: self.handle,
            process_id: self.process_id,
            executable_name: self.executable_name.clone(),
            title: self.title.clone(),
            class_name: self.class_name.clone(),
            visible: self.visible,
            owner_handle: self.owner_handle,
            bounds: self.bounds,
        }
    }
}

impl Clone for WindowDescriptor {
    fn clone(&self) -> (r: Self)
        ensures
            r@ == self@,
    {
        self.duplicate()
    }
}

/// Whether a title holds a name, up to ASCII case.
pub open spec fn title_holds(title: Text, vm_name: Text) -> bool {
    model::contains(model::lower(title), model::lower(vm_name))
}

impl WindowDescriptorView {
    /// Whether the window belongs to a machine.
    pub open spec fn is_machine_window(self) -> bool {
        model::same_ignoring_case(self.executable_name, "VirtualBoxVM.exe"@)
    }

    /// How well the window fits: no owner counts most, then the title, then a class name.
    pub open spec fn score(self, vm_name: Text) -> int {
        (if self.owner_handle is None {
            4int
        } else {
            0
        }) + (if title_holds(self.title, vm_name) {
            2int
        } else {
            0
        }) + (if self.class_name.len() > 0 {
            1int
        } else {
            0
        })
    }
}

/// The window that fits best, the last of them where several fit equally well.
pub open spec fn best(windows: Seq<WindowDescriptorView>, vm_name: Text) -> Option<
    WindowDescriptorView,
>
    decreases windows.len(),
{
    if windows.len() == 0 {
        None
    } else {
        match best(windows.drop_last(), vm_name) {
            None => Some(windows.last()),
            Some(earlier) => if windows.last().score(vm_name) >= earlier.score(vm_name) {
                Some(windows.last())
            } else {
                Some(earlier)
            },
        }
    }
}

/// The visible windows of machines.
pub open spec fn visible_machine_windows(windows: Seq<WindowDescriptorView>) -> Seq<
    WindowDescriptorView,
> {
    windows.filter(|window: WindowDescriptorView| window.visible && window.is_machine_window())
}

/// Those of a process.
pub open spec fn of_process(windows: Seq<WindowDescriptorView>, process_id: u32) -> Seq<
    WindowDescriptorView,
> {
    windows.filter(|window: WindowDescriptorView| window.process_id == process_id)
}

/// Those whose title holds a name.
pub open spec fn of_title(windows: Seq<WindowDescriptorView>, vm_name: Text) -> Seq<
    WindowDescriptorView,
> {
    windows.filter(|window: WindowDescriptorView| title_holds(window.title, vm_name))
}

/// Whether windows belong to one process.
pub open spec fn one_process(windows: Seq<WindowDescriptorView>) -> bool {
    forall|i: int|
        0 <= i < windows.len() ==> (#[trigger] windows[i]).process_id == windows[0].process_id
}

/// The window of a managed machine: the best one of its process; without one, the best of
/// those with its name, provided that they belong to one process.
pub open spec fn managed_window(
    target: ManagedVmWindowIdentityView,
    windows: Seq<WindowDescriptorView>,
) -> Option<WindowDescriptorView> {
    let candidates = visible_machine_windows(windows);
    let exact = match target.session_pid {
        Some(process_id) => best(of_process(candidates, process_id), target.vm_name),
        None => None,
    };
    let name = model::trimmed(target.vm_name);
    let named = of_title(candidates, name);
    if exact is Some {
        exact
    } else if name.len() == 0 || !one_process(named) {
        None
    } else {
        best(named, name)
    }
}

/// Whether a title holds a name, up to ASCII case.
pub fn title_matches(title: &str, vm_name: &str) -> (r: bool)
    ensures
        r == title_holds(title@, vm_name@),
{
    let title = to_lower(title);
    let name = to_lower(vm_name);
    has(title.as_str(), name.as_str())
}

/// How well a window fits.
pub fn window_selection_score(window: &WindowDescriptor, vm_name: &str) -> (r: u8)
    ensures
        r == window@.score(vm_name@),
{
    let owner: u8 = if window.owner_handle.is_none() {
        4
    } else {
        0
    };
    let title: u8 = if title_matches(window.title.as_str(), vm_name) {
        2
    } else {
        0
    };
    let class: u8 = if window.class_name.as_str().is_empty() {
        0
    } else {
        1
    };
    owner + title + class
}

proof fn lemma_filter_step(
    s: Seq<WindowDescriptorView>,
    keep: spec_fn(WindowDescriptorView) -> bool,
    i: int,
)
    requires
        0 <= i < s.len(),
    ensures
        s.take(i + 1).filter(keep) == (if keep(s[i]) {
            s.take(i).filter(keep).push(s[i])
        } else {
            s.take(i).filter(keep)
        }),
        s.take(0).filter(keep) == Seq::<WindowDescriptorView>::empty(),
{
    reveal(Seq::filter);
    assert(s.take(i + 1).drop_last() == s.take(i));
    assert(s.take(i + 1).last() == s[i]);
}

/// What a window can be asked for.
#[derive(Clone, Copy)]
enum Wanted<'a> {
    VisibleMachine,
    Machine,
    Process(u32),
    Title(&'a str),
}

impl<'a> Wanted<'a> {
    spec fn keeps(self) -> spec_fn(WindowDescriptorView) -> bool {
        match self {
            Wanted::VisibleMachine => |window: WindowDescriptorView|
                window.visible && window.is_machine_window(),
            Wanted::Machine => |window: WindowDescriptorView| window.is_machine_window(),
            Wanted::Process(process_id) => |window: WindowDescriptorView|
                window.process_id == process_id,
            Wanted::Title(name) => |window: WindowDescriptorView|
                title_holds(window.title, name@),
        }
    }

    fn fits(self, window: &WindowDescriptor) -> (r: bool)
        ensures
            r == (self.keeps())(window@),
    {
        match self {
            Wanted::VisibleMachine => window.visible && same_any_case(
                window.executable_name.as_str(),
                "VirtualBoxVM.exe",
            ),
            Wanted::Machine => same_any_case(window.executable_name.as_str(), "VirtualBoxVM.exe"),
            Wanted::Process(process_id) => window.process_id == process_id,
            Wanted::Title(name) => title_matches(window.title.as_str(), name),
        }
    }
}

fn choose_windows<'a>(windows: &Vec<&'a WindowDescriptor>, wanted: Wanted) -> (r: Vec<
    &'a WindowDescriptor,
>)
    ensures
        duplicate::views(r@) == duplicate::views(windows@).filter(wanted.keeps()),
{
    let ghost all = duplicate::views(windows@);
    let mut found: Vec<&'a WindowDescriptor> = Vec::new();
    let mut i: usize = 0;
    proof {
        reveal(Seq::filter);
        assert(duplicate::views(found@) =~= all.take(0).filter(wanted.keeps()));
    }
    while i < windows.len()
        invariant
            i <= windows@.len(),
            all == duplicate::views(windows@),
            duplicate::views(found@) == all.take(i as int).filter(wanted.keeps()),
        decreases windows.len() - i,
    {
        let window: &'a WindowDescriptor = windows[i];
        proof {
            lemma_filter_step(all, wanted.keeps(), i as int);
            assert(all[i as int] == window@);
        }
        if wanted.fits(window) {
            let ghost before = found@;
            found.push(window);
            assert(duplicate::views(found@) =~= duplicate::views(before).push(window@));
        }
        i += 1;
    }
    assert(all.take(i as int) =~= all);
    found
}

fn best_window<'a>(windows: &Vec<&'a WindowDescriptor>, vm_name: &str) -> (r: Option<
    &'a WindowDescriptor,
>)
    ensures
        match r {
            Some(window) => best(duplicate::views(windows@), vm_name@) == Some(window@),
            None => best(duplicate::views(windows@), vm_name@) is None,
        },
{
    let ghost all = duplicate::views(windows@);
    let mut leader: Option<&'a WindowDescriptor> = None;
    let mut i: usize = 0;
    while i < windows.len()
        invariant
            i <= windows@.len(),
            all == duplicate::views(windows@),
            match leader {
                Some(window) => best(all.take(i as int), vm_name@) == Some(window@),
                None => best(all.take(i as int), vm_name@) is None,
            },
        decreases windows.len() - i,
    {
        let window: &'a WindowDescriptor = windows[i];
        proof {
            assert(all.take(i + 1).drop_last() =~= all.take(i as int));
            assert(all.take(i + 1).last() == window@);
        }
        leader =
        match leader {
            None => Some(window),
            Some(earlier) => if window_selection_score(window, vm_name) >= window_selection_score(
                earlier,
                vm_name,
            ) {
                Some(window)
            } else {
                Some(earlier)
            },
        };
        i += 1;
    }
    assert(all.take(i as int) =~= all);
    leader
}

fn references<'a>(windows: &'a [WindowDescriptor]) -> (r: Vec<&'a WindowDescriptor>)
    ensures
        duplicate::views(r@) == duplicate::views(windows@),
{
    let mut found: Vec<&'a WindowDescriptor> = Vec::new();
    let mut i: usize = 0;
    while i < windows.len()
        invariant
            i <= windows@.len(),
            found@.len() == i,
            forall|k: int| 0 <= k < i ==> (#[trigger] found@[k])@ == windows@[k]@,
        decreases windows.len() - i,
    {
        found.push(&windows[i]);
        i += 1;
    }
    assert(duplicate::views(found@) =~= duplicate::views(windows@));
    found
}

fn share_process(windows: &Vec<&WindowDescriptor>) -> (r: bool)
    ensures
        r == one_process(duplicate::views(windows@)),
{
    let ghost all = duplicate::views(windows@);
    let mut i: usize = 0;
    while i < windows.len()
        invariant
            i <= windows@.len(),
            all == duplicate::views(windows@),
            forall|k: int| 0 <= k < i ==> (#[trigger] all[k]).process_id == all[0].process_id,
        decreases windows.len() - i,
    {
        assert(all[i as int] == windows@[i as int]@);
        assert(all[0] == windows@[0]@);
        if windows[i].process_id != windows[0].process_id {
            return false;
        }
        i += 1;
    }
    true
}

/// The window of a managed machine.
pub fn select_managed_window<'a>(
    target: &ManagedVmWindowIdentity,
    windows: &'a [WindowDescriptor],
) -> (r: Option<&'a WindowDescriptor>)
    ensures
        match r {
            Some(window) => managed_window(target@, duplicate::views(windows@)) == Some(window@),
            None => managed_window(target@, duplicate::views(windows@)) is None,
        },
{
    let all = references(windows);
    let candidates = choose_windows(&all, Wanted::VisibleMachine);
    if let Some(process_id) = target.session_pid {
        let own = choose_windows(&candidates, Wanted::Process(process_id));
        let exact = best_window(&own, target.vm_name.as_str());
        if exact.is_some() {
            return exact;
        }
    }
    let name = trim(target.vm_name.as_str());
    if name.as_str().is_empty() {
        return None;
    }
    let named = choose_windows(&candidates, Wanted::Title(name.as_str()));
    if !share_process(&named) {
        return None;
    }
    best_window(&named, name.as_str())
}

/// The first windows of machines, as many as a status holds.
pub open spec fn candidate_list(windows: Seq<WindowDescriptorView>) -> Seq<
    WindowCandidateDiagnosticView,
> {
    let machine_windows = windows.filter(
        |window: WindowDescriptorView| window.is_machine_window(),
    );
    machine_windows.take(
        if machine_windows.len() < 32 {
            machine_windows.len() as int
        } else {
            32
        },
    ).map_values(|window: WindowDescriptorView| diagnostic(window))
}

/// What a status says about a window.
pub open spec fn diagnostic(window: WindowDescriptorView) -> WindowCandidateDiagnosticView {
    WindowCandidateDiagnosticView {
        process_id: window.process_id,
        window_handle: window.handle,
        class_name: window.class_name,
        title: window.title,
        visible: window.visible,
        owner_window_handle: window.owner_handle,
        bounds: window.bounds,
    }
}

/// The first windows of machines, as many as a status holds.
pub fn window_candidates(windows: &[WindowDescriptor]) -> (r: Vec<WindowCandidateDiagnostic>)
    ensures
        duplicate::views(r@) == candidate_list(duplicate::views(windows@)),
{
    let all = references(windows);
    let machine_windows = choose_windows(&all, Wanted::Machine);
    let ghost wanted = candidate_list(duplicate::views(windows@));
    let mut found: Vec<WindowCandidateDiagnostic> = Vec::new();
    let mut i: usize = 0;
    while i < machine_windows.len() && i < 32
        invariant
            i <= machine_windows@.len(),
            i <= 32,
            wanted == candidate_list(duplicate::views(windows@)),
            duplicate::views(machine_windows@) == duplicate::views(windows@).filter(
                Wanted::Machine.keeps(),
            ),
            duplicate::views(found@) == wanted.take(i as int),
            i <= wanted.len(),
        decreases machine_windows.len() - i,
    {
        let window: &WindowDescriptor = machine_windows[i];
        let entry = WindowCandidateDiagnostic {
            process_id: window.process_id,
            window_handle: window.handle,
            class_name: window.class_name.clone(),
            title: window.title.clone(),
            visible: window.visible,
            owner_window_handle: window.owner_handle,
            bounds: window.bounds,
        };
        let ghost before = found@;
        proof {
            assert(duplicate::views(machine_windows@)[i as int] == window@);
            assert(wanted[i as int] == diagnostic(window@));
        }
        found.push(entry);
        assert(duplicate::views(found@) =~= duplicate::views(before).push(entry@));
        assert(wanted.take(i + 1) =~= wanted.take(i as int).push(wanted[i as int]));
        i += 1;
    }
    assert(wanted.take(i as int) =~= wanted);
    found
}

// ---- Borderless placement --------------------------------------------------------------

/// Where a window goes, and with which style.
#[derive(Clone, Copy, Debug, Eq, PartialEq, Structural)]
pub struct BorderlessPlacement {
    pub handle: isize,
    pub bounds: DisplayBounds,
    pub original_style: isize,
    pub borderless_style: isize,
}

/// The placement of a window without the parts of its frame.
pub fn borderless_placement(
    handle: isize,
    bounds: DisplayBounds,
    original_style: isize,
    chrome_mask: isize,
) -> (r: BorderlessPlacement)
    ensures
        r == (BorderlessPlacement {
            handle,
            bounds,
            original_style,
            borderless_style: original_style & !chrome_mask,
        }),
{
    BorderlessPlacement {
        handle,
        bounds,
        original_style,
        borderless_style: original_style & !chrome_mask,
    }
}

/// The outcome of an operation, with the reason under which its failure is reported.
pub fn classify_operation_result(
    result: Result<(), String>,
    reason: PresentationFailureReason,
) -> (r: Result<(), (PresentationFailureReason, String)>)
    ensures
        r == match result {
            Ok(()) => Ok::<(), (PresentationFailureReason, String)>(()),
            Err(error) => Err((reason, error)),
        },
{
    match result {
        Ok(()) => Ok(()),
        Err(error) => Err((reason, error)),
    }
}

/// Whether a window is as a placement wants it.
pub open spec fn placed(
    actual_style: isize,
    expected_style: isize,
    chrome_mask: isize,
    actual_bounds: DisplayBounds,
    expected_bounds: DisplayBounds,
    monitor_matches: bool,
) -> bool {
    actual_style & chrome_mask == 0 && actual_style == expected_style && actual_bounds
        == expected_bounds && monitor_matches
}

/// Whether a window is as a placement wants it.
pub fn borderless_postconditions_match(
    actual_style: isize,
    expected_style: isize,
    chrome_mask: isize,
    actual_bounds: DisplayBounds,
    expected_bounds: DisplayBounds,
    monitor_matches: bool,
) -> (r: bool)
    ensures
        r == placed(
            actual_style,
            expected_style,
            chrome_mask,
            actual_bounds,
            expected_bounds,
            monitor_matches,
        ),
{
    actual_style & chrome_mask == 0 && actual_style == expected_style && actual_bounds
        == expected_bounds && monitor_matches
}

// ---- Simulated presentation ------------------------------------------------------------

/// A presentation that keeps its status and touches no window.
pub struct SimulatedPresentation {
    status: DisplayPresentationStatus,
}

impl View for SimulatedPresentation {
    type V = DisplayPresentationStatusView;

    closed spec fn view(&self) -> DisplayPresentationStatusView {
        self.status@
    }
}

impl Default for SimulatedPresentation {
    fn default() -> (r: Self)
        ensures
            r@ == no_presentation(),
    {
        SimulatedPresentation { status: DisplayPresentationStatus::default() }
    }
}

impl SimulatedPresentation {
    /// A presentation with a given status.
    pub fn with_status(status: DisplayPresentationStatus) -> (r: Self)
        ensures
            r@ == status@,
    {
        SimulatedPresentation { status }
    }

    /// Pretends that the display has come, with some bounds, or has gone.
    pub fn simulate_display_topology(&mut self, bounds: Option<DisplayBounds>)
        ensures
            final(self)@ == (DisplayPresentationStatusView {
                bounds,
                state: if bounds is Some {
                    PresentationState::Presented
                } else {
                    PresentationState::PresentationUnavailable
                },
                ..old(self)@
            }),
    {
        self.status.bounds = bounds;
        self.status.state =
        if bounds.is_some() {
            PresentationState::Presented
        } else {
            PresentationState::PresentationUnavailable
        };
    }
}

/// The status after the administrator has locked or unlocked the presentation.
pub open spec fn relocked(status: DisplayPresentationStatusView, locked: bool) ->
    DisplayPresentationStatusView {
    DisplayPresentationStatusView {
        state: if locked {
            PresentationState::Presented
        } else {
            PresentationState::NotPresented
        },
        mode: if locked {
            PresentationMode::Borderless
        } else {
            PresentationMode::ConventionalWindow
        },
        ..status
    }
}

/// Which answers a simulated presentation gives.
pub open spec fn simulated_answers() -> Relation<Request, Reply> {
    |request: Request, reply: Reply|
        match request {
            Request::PresentationStatus => reply is Presentation,
            _ => reply == Reply::Done(Ok(())),
        }
}

/// Which answers a simulated presentation gives while it has a status.
pub open spec fn simulated_answers_at(status: DisplayPresentationStatusView) -> Relation<
    Request,
    Reply,
> {
    |request: Request, reply: Reply|
        match request {
            Request::PresentationStatus => reply == Reply::Presentation(status),
            _ => reply == Reply::Done(Ok(())),
        }
}

impl PresentationBackend for SimulatedPresentation {
    open spec fn answers(&self) -> Relation<Request, Reply> {
        simulated_answers()
    }

    open spec fn answers_now(&self) -> Relation<Request, Reply> {
        simulated_answers_at(self@)
    }

    fn start(&mut self, target: ManagedVmWindowIdentity, assigned_display_id: String) -> (r: Result<
        (),
        String,
    >)
        ensures
            r is Ok,
            final(self)@ == (DisplayPresentationStatusView {
                state: PresentationState::Presented,
                assigned_display_id: Some(assigned_display_id@),
                managed_window_found: true,
                managed_window_process_id: target@.session_pid,
                ..no_presentation()
            }),
    {
        self.status =
        DisplayPresentationStatus {
            state: PresentationState::Presented,
            mode: PresentationMode::Borderless,
            assigned_display_id: Some(assigned_display_id),
            managed_window_found: true,
            managed_window_process_id: target.session_pid,
            ..DisplayPresentationStatus::default()
        };
        Ok(())
    }

    fn set_locked(&mut self, locked: bool) -> (r: Result<(), String>)
        ensures
            r is Ok,
            final(self)@ == relocked(old(self)@, locked),
    {
        self.status.state =
        if locked {
            PresentationState::Presented
        } else {
            PresentationState::NotPresented
        };
        self.status.mode =
        if locked {
            PresentationMode::Borderless
        } else {
            PresentationMode::ConventionalWindow
        };
        Ok(())
    }

    fn mark_unavailable(&mut self, assigned_display_id: Option<String>, message: String) -> (r:
        Result<(), String>)
        ensures
            r is Ok,
            final(self)@ == unavailable(model::opt_text(assigned_display_id), message@),
    {
        self.status =
        DisplayPresentationStatus {
            state: PresentationState::PresentationUnavailable,
            assigned_display_id,
            last_error: Some(message),
            ..DisplayPresentationStatus::default()
        };
        Ok(())
    }

    fn stop(&mut self) -> (r: Result<(), String>)
        ensures
            r is Ok,
            final(self)@ == no_presentation(),
    {
        self.status = DisplayPresentationStatus::default();
        Ok(())
    }

    fn status(&self) -> (r: DisplayPresentationStatus)
        ensures
            r@ == self@,
    {
        self.status.duplicate()
    }
}

/// The presentation of a host: that of its window system, where it has one, and else a simulated
/// one.
pub fn native_backend(of_host: Option<Box<dyn PresentationBackend>>) -> (r: Kept<
    Box<dyn PresentationBackend>,
>)
    ensures
        match of_host {
            Some(backend) => &r.0 == &backend,
            None => {
                &&& r.0.answers() == simulated_answers()
                &&& r.0.answers_now() == simulated_answers_at(no_presentation())
            },
        },
{
    match of_host {
        Some(backend) => {
            let kept = Kept(backend);
            kept
        },
        None => {
            let simulated = Box::new(SimulatedPresentation::default());
            assert(simulated.answers() == simulated_answers());
            assert(simulated.answers_now() == simulated_answers_at(no_presentation()));
            let backend: Box<dyn PresentationBackend> = simulated;
            let kept = Kept(backend);
            kept
        },
    }
}

/// Unlocking a presentation and locking it again puts it back as it was.
pub proof fn law_relocking_restores_presentation(status: DisplayPresentationStatusView)
    requires
        status.state == PresentationState::Presented,
        status.mode == PresentationMode::Borderless,
    ensures
        relocked(relocked(status, false), true) == status,
{
}

} // verus!
