//! Keeping the focus of the host desktop away from the window of a managed machine.
use super::service::{Reply, Request};
use crate::duplicate::Duplicate;
use crate::journal::{Kept, Relation};
use crate::text::compose::{copy_opt, to_lower};
use crate::text::model;
use crate::text::model::Text;
use crate::text::scan::{has, same_any_case, trim};
use vstd::prelude::*;

verus! {

/// What tells the window of a managed machine from other windows.
#[derive(Debug, Eq, PartialEq)]
pub struct ManagedVmWindowIdentity {
    pub vm_uuid: String,
    pub vm_name: String,
    pub session_pid: Option<u32>,
}

/// The model of [`ManagedVmWindowIdentity`].
#[verifier::ext_equal]
pub struct ManagedVmWindowIdentityView {
    pub vm_uuid: Text,
    pub vm_name: Text,
    pub session_pid: Option<u32>,
}

impl View for ManagedVmWindowIdentity {
    type V = ManagedVmWindowIdentityView;

    open spec fn view(&self) -> ManagedVmWindowIdentityView {
        ManagedVmWindowIdentityView {
            vm_uuid: self.vm_uuid@,
            vm_name: self.vm_name@,
            session_pid: self.session_pid,
        }
    }
}

impl Duplicate for ManagedVmWindowIdentity {
    fn duplicate(&self) -> (r: Self) {
        ManagedVmWindowIdentity {
            vm_uuid: self.vm_uuid.clone(),
            vm_name: self.vm_name.clone(),
            session_pid: self.session_pid,
        }
    }
}

impl Clone for ManagedVmWindowIdentity {
    fn clone(&self) -> (r: Self)
        ensures
            r@ == self@,
    {
        self.duplicate()
    }
}

/// What focus protection is doing.
#[derive(Debug, Eq, PartialEq)]
pub struct FocusProtectionStatus {
    pub active: bool,
    pub locked: bool,
    pub managed_window_found: bool,
    pub restoration_count: u64,
    pub last_error: Option<String>,
}

/// The model of [`FocusProtectionStatus`].
#[verifier::ext_equal]
pub struct FocusProtectionStatusView {
    pub active: bool,
    pub locked: bool,
    pub managed_window_found: bool,
    pub restoration_count: u64,
    pub last_error: Option<Text>,
}

impl View for FocusProtectionStatus {
    type V = FocusProtectionStatusView;

    open spec fn view(&self) -> FocusProtectionStatusView {
        FocusProtectionStatusView {
            active: self.active,
            locked: self.locked,
            managed_window_found: self.managed_window_found,
            restoration_count: self.restoration_count,
            last_error: model::opt_text(self.last_error),
        }
    }
}

impl Duplicate for FocusProtectionStatus {
    fn duplicate(&self) -> (r: Self) {
        FocusProtectionStatus {
            active: self.active,
            locked: self.locked,
            managed_window_found: self.managed_window_found,
            restoration_count: self.restoration_count,
            last_error: copy_opt(&self.last_error),
        }
    }
}

impl Clone for FocusProtectionStatus {
    fn clone(&self) -> (r: Self)
        ensures
            r@ == self@,
    {
        self.duplicate()
    }
}

/// The status of protection that is off.
pub open spec fn no_protection() -> FocusProtectionStatusView {
    FocusProtectionStatusView {
        active: false,
        locked: false,
        managed_window_found: false,
        restoration_count: 0,
        last_error: None,
    }
}

/// The status of protection that has just been turned on.
pub open spec fn fresh_protection() -> FocusProtectionStatusView {
    FocusProtectionStatusView { active: true, locked: true, ..no_protection() }
}

impl Default for FocusProtectionStatus {
    fn default() -> (r: Self)
        ensures
            r@ == no_protection(),
    {
        FocusProtectionStatus {
            active: false,
            locked: false,
            managed_window_found: false,
            restoration_count: 0,
            last_error: None,
        }
    }
}

/// What protects the focus of the host desktop. Nothing is promised of what it answers but what
/// an implementation chooses to promise.
pub trait FocusProtectionBackend: Send + Sync {
    /// Which answers it may give to which requests, whatever it has been asked before.
    open spec fn answers(&self) -> Relation<Request, Reply> {
        |request: Request, reply: Reply| true
    }

    /// Which answers it may give to which requests as it is now.
    open spec fn answers_now(&self) -> Relation<Request, Reply> {
        |request: Request, reply: Reply| true
    }

    fn start(&mut self, target: ManagedVmWindowIdentity, anchor: Option<isize>) -> (r: Result<
        (),
        String,
    >)
        ensures
            old(self).answers()(
                Request::FocusStart(target@, anchor),
                Reply::Done(model::with_message(r)),
            ),
            old(self).answers_now()(
                Request::FocusStart(target@, anchor),
                Reply::Done(model::with_message(r)),
            ),
            final(self).answers() == old(self).answers(),
    ;

    fn set_locked(&mut self, locked: bool) -> (r: Result<(), String>)
        ensures
            old(self).answers()(Request::FocusLock(locked), Reply::Done(model::with_message(r))),
            old(self).answers_now()(Request::FocusLock(locked), Reply::Done(model::with_message(r))),
            final(self).answers() == old(self).answers(),
    ;

    fn stop(&mut self) -> (r: Result<(), String>)
        ensures
            old(self).answers()(Request::FocusStop, Reply::Done(model::with_message(r))),
            old(self).answers_now()(Request::FocusStop, Reply::Done(model::with_message(r))),
            final(self).answers() == old(self).answers(),
    ;

    fn status(&self) -> (r: FocusProtectionStatus)
        ensures
            self.answers()(Request::FocusStatus, Reply::Focus(r@)),
            self.answers_now()(Request::FocusStatus, Reply::Focus(r@)),
    ;
}

/// Protection that keeps its status and touches no window.
pub struct SimulatedFocusProtection {
    status: FocusProtectionStatus,
}

impl View for SimulatedFocusProtection {
    type V = FocusProtectionStatusView;

    closed spec fn view(&self) -> FocusProtectionStatusView {
        self.status@
    }
}

impl Default for SimulatedFocusProtection {
    fn default() -> (r: Self)
        ensures
            r@ == no_protection(),
    {
        SimulatedFocusProtection { status: FocusProtectionStatus::default() }
    }
}

/// Which answers simulated protection gives.
pub open spec fn simulated_answers() -> Relation<Request, Reply> {
    |request: Request, reply: Reply|
        match request {
            Request::FocusStatus => reply is Focus,
            _ => reply == Reply::Done(Ok(())),
        }
}

/// Which answers simulated protection gives while it has a status.
pub open spec fn simulated_answers_at(status: FocusProtectionStatusView) -> Relation<
    Request,
    Reply,
> {
    |request: Request, reply: Reply|
        match request {
            Request::FocusStatus => reply == Reply::Focus(status),
            _ => reply == Reply::Done(Ok(())),
        }
}

impl FocusProtectionBackend for SimulatedFocusProtection {
    open spec fn answers(&self) -> Relation<Request, Reply> {
        simulated_answers()
    }

    open spec fn answers_now(&self) -> Relation<Request, Reply> {
        simulated_answers_at(self@)
    }

    fn start(&mut self, target: ManagedVmWindowIdentity, anchor: Option<isize>) -> (r: Result<
        (),
        String,
    >)
        ensures
            r is Ok,
            final(self)@ == fresh_protection(),
    {
        self.status =
        FocusProtectionStatus { active: true, locked: true, ..FocusProtectionStatus::default() };
        Ok(())
    }

    fn set_locked(&mut self, locked: bool) -> (r: Result<(), String>)
        ensures
            r is Ok,
            final(self)@ == (FocusProtectionStatusView { active: locked, locked, ..old(self)@ }),
    {
        self.status.locked = locked;
        self.status.active = locked;
        Ok(())
    }

    fn stop(&mut self) -> (r: Result<(), String>)
        ensures
            r is Ok,
            final(self)@ == no_protection(),
    {
        self.status = FocusProtectionStatus::default();
        Ok(())
    }

    fn status(&self) -> (r: FocusProtectionStatus)
        ensures
            r@ == self@,
    {
        self.status.duplicate()
    }
}

/// The protection of a host: that of its window system, where it has one, and else a simulated
/// one.
pub fn native_backend(of_host: Option<Box<dyn FocusProtectionBackend>>) -> (r: Kept<
    Box<dyn FocusProtectionBackend>,
>)
    ensures
        match of_host {
            Some(backend) => &r.0 == &backend,
            None => {
                &&& r.0.answers() == simulated_answers()
                &&& r.0.answers_now() == simulated_answers_at(no_protection())
            },
        },
{
    match of_host {
        Some(backend) => {
            let kept = Kept(backend);
            kept
        },
        None => {
            let simulated = Box::new(SimulatedFocusProtection::default());
            assert(simulated.answers() == simulated_answers());
            assert(simulated.answers_now() == simulated_answers_at(no_protection()));
            let backend: Box<dyn FocusProtectionBackend> = simulated;
            let kept = Kept(backend);
            kept
        },
    }
}

/// A window that has come to the foreground.
#[derive(Debug, Eq, PartialEq)]
pub struct ForegroundWindow {
    pub process_id: u32,
    pub executable_name: String,
    pub title: String,
}

/// The model of [`ForegroundWindow`].
#[verifier::ext_equal]
pub struct ForegroundWindowView {
    pub process_id: u32,
    pub executable_name: Text,
    pub title: Text,
}

impl View for ForegroundWindow {
    type V = ForegroundWindowView;

    open spec fn view(&self) -> ForegroundWindowView {
        ForegroundWindowView {
            process_id: self.process_id,
            executable_name: self.executable_name@,
            title: self.title@,
        }
    }
}

impl Duplicate for ForegroundWindow {
    fn duplicate(&self) -> (r: Self) {
        ForegroundWindow {
            process_id: self.process_id,
            executable_name: self.executable_name.clone(),
            title: self.title.clone(),
        }
    }
}

impl Clone for ForegroundWindow {
    fn clone(&self) -> (r: Self)
        ensures
            r@ == self@,
    {
        self.duplicate()
    }
}

/// Whether a window belongs to the machine: it is a machine's window, and its process is the
/// machine's, or, where that process is not known, its title holds the machine's name.
pub open spec fn is_managed_window(
    target: ManagedVmWindowIdentityView,
    window: ForegroundWindowView,
) -> bool {
    model::same_ignoring_case(window.executable_name, "VirtualBoxVM.exe"@) && match target.session_pid {
        Some(pid) => pid == window.process_id,
        None => model::trimmed(target.vm_name).len() > 0 && model::contains(
            model::lower(window.title),
            model::lower(target.vm_name),
        ),
    }
}

/// Whether a window that has come to the foreground has to give it back.
pub open spec fn must_restore_focus(
    target: ManagedVmWindowIdentityView,
    window: Option<ForegroundWindowView>,
    locked: bool,
) -> bool {
    locked && (window matches Some(found) && is_managed_window(target, found))
}

/// Whether a window that has come to the foreground has to give it back.
pub fn should_restore_focus(
    target: &ManagedVmWindowIdentity,
    window: Option<&ForegroundWindow>,
    locked: bool,
) -> (r: bool)
    ensures
        r == must_restore_focus(
            target@,
            match window {
                Some(found) => Some(found@),
                None => None,
            },
            locked,
        ),
{
    if !locked {
        return false;
    }
    let window = match window {
        Some(window) => window,
        None => {
            return false;
        },
    };
    if !same_any_case(window.executable_name.as_str(), "VirtualBoxVM.exe") {
        return false;
    }
    match target.session_pid {
        Some(pid) => pid == window.process_id,
        None => {
            let name = trim(target.vm_name.as_str());
            if name.as_str().is_empty() {
                return false;
            }
            let title = to_lower(window.title.as_str());
            let wanted = to_lower(target.vm_name.as_str());
            has(title.as_str(), wanted.as_str())
        },
    }
}

/// The state of protection that watches the foreground.
#[derive(Debug, Eq, PartialEq)]
pub struct FocusGuard {
    pub target: ManagedVmWindowIdentity,
    pub anchor: Option<isize>,
    pub last_safe_window: Option<isize>,
    pub status: FocusProtectionStatus,
}

/// The model of [`FocusGuard`].
#[verifier::ext_equal]
pub struct FocusGuardView {
    pub target: ManagedVmWindowIdentityView,
    pub anchor: Option<isize>,
    pub last_safe_window: Option<isize>,
    pub status: FocusProtectionStatusView,
}

impl View for FocusGuard {
    type V = FocusGuardView;

    open spec fn view(&self) -> FocusGuardView {
        FocusGuardView {
            target: self.target@,
            anchor: self.anchor,
            last_safe_window: self.last_safe_window,
            status: self.status@,
        }
    }
}

impl Duplicate for FocusGuard {
    fn duplicate(&self) -> (r: Self) {
        FocusGuard {
            target: self.target.duplicate(),
            anchor: self.anchor,
            last_safe_window: self.last_safe_window,
            status: self.status.duplicate(),
        }
    }
}

impl Clone for FocusGuard {
    fn clone(&self) -> (r: Self)
        ensures
            r@ == self@,
    {
        self.duplicate()
    }
}

/// What came of an attempt to give the focus back.
#[derive(Clone, Copy, Debug, Eq, PartialEq, Structural)]
pub enum FocusRestoration {
    NoAnchor,
    Restored,
    Refused,
}

/// What is to be done about a window that has come to the foreground.
#[derive(Clone, Copy, Debug, Eq, PartialEq, Structural)]
pub enum ForegroundAction {
    /// Nothing.
    Leave,
    /// Give the focus to this window, if it is still one; without a window there is no anchor.
    Restore(Option<isize>),
}

impl FocusGuardView {
    /// A guard that has just been set up.
    pub open spec fn watching(
        target: ManagedVmWindowIdentityView,
        anchor: Option<isize>,
        foreground: Option<isize>,
    ) -> FocusGuardView {
        FocusGuardView {
            target,
            anchor,
            last_safe_window: if anchor is Some {
                anchor
            } else {
                foreground
            },
            status: fresh_protection(),
        }
    }

    /// The guard after its protection was turned on or off.
    pub open spec fn with_lock(self, locked: bool) -> FocusGuardView {
        FocusGuardView {
            status: FocusProtectionStatusView { active: locked, locked, ..self.status },
            ..self
        }
    }

    /// The guard after a window has come to the foreground.
    pub open spec fn after_foreground(
        self,
        window: isize,
        descriptor: Option<ForegroundWindowView>,
    ) -> FocusGuardView {
        if must_restore_focus(self.target, descriptor, true) {
            FocusGuardView {
                status: FocusProtectionStatusView { managed_window_found: true, ..self.status },
                ..self
            }
        } else {
            FocusGuardView { last_safe_window: Some(window), ..self }
        }
    }

    /// What the guard does about a window that has come to the foreground.
    pub open spec fn action(self, descriptor: Option<ForegroundWindowView>) -> ForegroundAction {
        if must_restore_focus(self.target, descriptor, self.status.locked) {
            ForegroundAction::Restore(
                match self.last_safe_window {
                    Some(window) => Some(window),
                    None => self.anchor,
                },
            )
        } else {
            ForegroundAction::Leave
        }
    }

    /// The guard after an attempt to give the focus back.
    pub open spec fn after_restoration(self, outcome: FocusRestoration) -> FocusGuardView {
        FocusGuardView {
            status: match outcome {
                FocusRestoration::NoAnchor => FocusProtectionStatusView {
                    last_error: Some("no valid MultiSeat Lite focus anchor is available"@),
                    ..self.status
                },
                FocusRestoration::Restored => FocusProtectionStatusView {
                    restoration_count: self.status.restoration_count.wrapping_add(1),
                    last_error: None,
                    ..self.status
                },
                FocusRestoration::Refused => FocusProtectionStatusView {
                    last_error: Some("SetForegroundWindow could not restore host focus"@),
                    ..self.status
                },
            },
            ..self
        }
    }
}

impl FocusGuard {
    /// A guard for the window of a machine. The focus goes back to the anchor, or without one
    /// to the window that has the foreground now.
    pub fn new(target: ManagedVmWindowIdentity, anchor: Option<isize>, foreground: Option<isize>)
        -> (r: Self)
        ensures
            r@ == (FocusGuardView {
                target: target@,
                anchor,
                last_safe_window: match anchor {
                    Some(window) => Some(window),
                    None => foreground,
                },
                status: fresh_protection(),
            }),
            r@ == FocusGuardView::watching(target@, anchor, foreground),
    {
        FocusGuard {
            target,
            anchor,
            last_safe_window: match anchor {
                Some(window) => Some(window),
                None => foreground,
            },
            status: FocusProtectionStatus {
                active: true,
                locked: true,
                ..FocusProtectionStatus::default()
            },
        }
    }

    /// Turns the protection on or off.
    pub fn set_locked(&mut self, locked: bool)
        ensures
            final(self)@ == (FocusGuardView {
                status: FocusProtectionStatusView { active: locked, locked, ..old(self)@.status },
                ..old(self)@
            }),
            final(self)@ == old(self)@.with_lock(locked),
    {
        self.status.locked = locked;
        self.status.active = locked;
    }

    /// Takes note of a window that has come to the foreground, and says what is to be done.
    pub fn handle_foreground_window(
        &mut self,
        window: isize,
        descriptor: Option<&ForegroundWindow>,
    ) -> (r: ForegroundAction)
        ensures
            ({
                let seen = match descriptor {
                    Some(found) => Some(found@),
                    None => None,
                };
                final(self)@ == old(self)@.after_foreground(window, seen) && r == old(
                    self,
                )@.action(seen)
            }),
    {
        if !should_restore_focus(&self.target, descriptor, true) {
            self.last_safe_window = Some(window);
            return ForegroundAction::Leave;
        }
        self.status.managed_window_found = true;
        if !self.status.locked {
            return ForegroundAction::Leave;
        }
        match self.last_safe_window {
            Some(destination) => ForegroundAction::Restore(Some(destination)),
            None => ForegroundAction::Restore(self.anchor),
        }
    }

    /// Takes note of what came of an attempt to give the focus back.
    pub fn record_restoration(&mut self, outcome: FocusRestoration)
        ensures
            final(self)@ == old(self)@.after_restoration(outcome),
    {
        match outcome {
            FocusRestoration::NoAnchor => {
                self.status.last_error =
                Some("no valid MultiSeat Lite focus anchor is available".to_owned());
            },
            FocusRestoration::Restored => {
                self.status.restoration_count = self.status.restoration_count.wrapping_add(1);
                self.status.last_error = None;
            },
            FocusRestoration::Refused => {
                self.status.last_error =
                Some("SetForegroundWindow could not restore host focus".to_owned());
            },
        }
    }
}

/// A guard protects from the start: the machine's window gives the focus back to the anchor, or
/// without one to the window that had the foreground. It has given nothing back yet, and knows no
/// error. Whether it is locked is what was said last, and nothing else changes with it.
pub proof fn law_a_guard_protects_from_the_start(
    target: ManagedVmWindowIdentityView,
    anchor: Option<isize>,
    foreground: Option<isize>,
    window: ForegroundWindowView,
    guard: FocusGuardView,
    locked: bool,
)
    ensures
        ({
            let fresh = FocusGuardView::watching(target, anchor, foreground);
            &&& fresh.status.active && fresh.status.locked
            &&& fresh.status.restoration_count == 0 && fresh.status.last_error is None
            &&& !fresh.status.managed_window_found
            &&& is_of_machine(target, window) && anchor is Some ==> fresh.action(Some(window))
                == ForegroundAction::Restore(anchor)
            &&& is_of_machine(target, window) && anchor is None ==> fresh.action(Some(window))
                == ForegroundAction::Restore(foreground)
        }),
        guard.with_lock(locked).status.locked == locked,
        guard.with_lock(locked).status.active == locked,
        guard.with_lock(locked).target == guard.target,
        guard.with_lock(locked).last_safe_window == guard.last_safe_window,
        guard.with_lock(locked).status.restoration_count == guard.status.restoration_count,
        guard.with_lock(locked).status.last_error == guard.status.last_error,
        !no_protection().active && !no_protection().locked,
{
}

/// A guard that is not locked leaves the focus alone.
pub proof fn law_unlocked_guard_leaves_focus(
    guard: FocusGuardView,
    descriptor: Option<ForegroundWindowView>,
)
    requires
        !guard.status.locked,
    ensures
        guard.action(descriptor) == ForegroundAction::Leave,
{
}

/// A guard never takes the focus from a window of another program.
pub proof fn law_other_programs_keep_focus(
    guard: FocusGuardView,
    window: ForegroundWindowView,
)
    requires
        !model::same_ignoring_case(window.executable_name, "VirtualBoxVM.exe"@),
    ensures
        guard.action(Some(window)) == ForegroundAction::Leave,
{
}

/// Whether a window is that of a machine: it belongs to `VirtualBoxVM`, and to the machine's
/// process, or, where that is not known, its title holds the machine's name.
pub open spec fn is_of_machine(
    target: ManagedVmWindowIdentityView,
    window: ForegroundWindowView,
) -> bool {
    &&& model::lower(window.executable_name) == model::lower("VirtualBoxVM.exe"@)
    &&& match target.session_pid {
        Some(process_id) => window.process_id == process_id,
        None => model::trimmed(target.vm_name).len() > 0 && model::contains(
            model::lower(window.title),
            model::lower(target.vm_name),
        ),
    }
}

/// The focus is given back if and only if the guard is locked and the machine's window has come
/// to the foreground. It goes to the window that last had it rightly, and else to the anchor.
pub proof fn law_focus_goes_back_where_it_was(
    guard: FocusGuardView,
    window: isize,
    descriptor: Option<ForegroundWindowView>,
)
    ensures
        ({
            let taken = descriptor matches Some(found) && is_of_machine(guard.target, found);
            let after = guard.after_foreground(window, descriptor);
            &&& guard.action(descriptor) != ForegroundAction::Leave <==> guard.status.locked
                && taken
            &&& guard.status.locked && taken ==> guard.action(descriptor)
                == ForegroundAction::Restore(
                if guard.last_safe_window is Some {
                    guard.last_safe_window
                } else {
                    guard.anchor
                },
            )
            &&& taken ==> after.last_safe_window == guard.last_safe_window
                && after.status.managed_window_found
            &&& !taken ==> after.last_safe_window == Some(window) && after.status == guard.status
            &&& after.target == guard.target
            &&& after.anchor == guard.anchor
            &&& after.status.locked == guard.status.locked
            &&& after.status.restoration_count == guard.status.restoration_count
        }),
{
}

/// Only an attempt that gave the focus back counts as one, and clears the error of one that did
/// not. The others leave an error, and count for nothing.
pub proof fn law_only_what_succeeded_counts(guard: FocusGuardView, outcome: FocusRestoration)
    ensures
        ({
            let after = guard.after_restoration(outcome);
            &&& outcome == FocusRestoration::Restored ==> after.status.last_error is None && (
            guard.status.restoration_count < u64::MAX ==> after.status.restoration_count
                == guard.status.restoration_count + 1)
            &&& outcome != FocusRestoration::Restored ==> after.status.last_error is Some
                && after.status.restoration_count == guard.status.restoration_count
            &&& after.status.locked == guard.status.locked
            &&& after.status.active == guard.status.active
            &&& after.target == guard.target
            &&& after.last_safe_window == guard.last_safe_window
        }),
{
}

} // verus!
