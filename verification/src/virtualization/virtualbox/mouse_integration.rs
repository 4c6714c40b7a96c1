//! Control of VirtualBox's mouse integration.
//!
//! VirtualBox documents the toggle in its window, but neither `VBoxManage` nor the Main API
//! offers it. The documented controller therefore reports that the toggle has to be used by
//! hand, and never claims to have changed anything.
use super::service::{Reply, Request};
use crate::duplicate::Duplicate;
use crate::journal::Relation;
use crate::text::compose::copy_opt;
use crate::text::model;
use crate::text::model::Text;
use crate::text_map;
use crate::text_map::TextMap;
use vstd::prelude::*;

verus! {

/// Whether mouse integration is on.
#[derive(Clone, Copy, Debug, Eq, PartialEq, Structural)]
pub enum MouseIntegrationState {
    Enabled,
    Disabled,
    Unknown,
}

/// Whether mouse integration can be switched from here.
#[derive(Clone, Copy, Debug, Eq, PartialEq, Structural)]
pub enum MouseIntegrationControl {
    Supported,
    ManualRequired,
}

/// What was asked of mouse integration, and what is known of it.
#[derive(Debug, Eq, PartialEq)]
pub struct MouseIntegrationStatus {
    pub requested: MouseIntegrationState,
    pub observed: MouseIntegrationState,
    pub control: MouseIntegrationControl,
    pub owned_by_multiseat: bool,
    pub message: Option<String>,
}

/// The model of [`MouseIntegrationStatus`].
#[verifier::ext_equal]
pub struct MouseIntegrationStatusView {
    pub requested: MouseIntegrationState,
    pub observed: MouseIntegrationState,
    pub control: MouseIntegrationControl,
    pub owned_by_multiseat: bool,
    pub message: Option<Text>,
}

impl View for MouseIntegrationStatus {
    type V = MouseIntegrationStatusView;

    open spec fn view(&self) -> MouseIntegrationStatusView {
        MouseIntegrationStatusView {
            requested: self.requested,
            observed: self.observed,
            control: self.control,
            owned_by_multiseat: self.owned_by_multiseat,
            message: model::opt_text(self.message),
        }
    }
}

impl Duplicate for MouseIntegrationStatus {
    fn duplicate(&self) -> (r: Self) {
        MouseIntegrationStatus {
            requested: self.requested,
            observed: self.observed,
            control: self.control,
            owned_by_multiseat: self.owned_by_multiseat,
            message: copy_opt(&self.message),
        }
    }
}

impl Clone for MouseIntegrationStatus {
    fn clone(&self) -> (r: Self)
        ensures
            r@ == self@,
    {
        self.duplicate()
    }
}

/// The status of mouse integration that nobody has touched.
pub open spec fn untouched() -> MouseIntegrationStatusView {
    MouseIntegrationStatusView {
        requested: MouseIntegrationState::Unknown,
        observed: MouseIntegrationState::Unknown,
        control: MouseIntegrationControl::ManualRequired,
        owned_by_multiseat: false,
        message: None,
    }
}

impl Default for MouseIntegrationStatus {
    fn default() -> (r: Self)
        ensures
            r@ == untouched(),
    {
        MouseIntegrationStatus {
            requested: MouseIntegrationState::Unknown,
            observed: MouseIntegrationState::Unknown,
            control: MouseIntegrationControl::ManualRequired,
            owned_by_multiseat: false,
            message: None,
        }
    }
}

/// What switches mouse integration. Nothing is promised of what it answers but what an
/// implementation chooses to promise.
pub trait MouseIntegrationController: Send + Sync {
    /// Which answers it may give to which requests, whatever it has been asked before.
    open spec fn answers(&self) -> Relation<Request, Reply> {
        |request: Request, reply: Reply| true
    }

    /// Which answers it may give to which requests as it is now.
    open spec fn answers_now(&self) -> Relation<Request, Reply> {
        |request: Request, reply: Reply| true
    }

    fn request(&mut self, vm_id: &str, desired: MouseIntegrationState) -> (r: Result<
        MouseIntegrationStatus,
        String,
    >)
        ensures
            old(self).answers()(
                Request::MouseRequest(vm_id@, desired),
                Reply::Mouse(mouse_result(r)),
            ),
            old(self).answers_now()(
                Request::MouseRequest(vm_id@, desired),
                Reply::Mouse(mouse_result(r)),
            ),
            final(self).answers() == old(self).answers(),
    ;

    fn restore_if_owned(&mut self, vm_id: &str) -> (r: Result<MouseIntegrationStatus, String>)
        ensures
            old(self).answers()(Request::MouseRestore(vm_id@), Reply::Mouse(mouse_result(r))),
            old(self).answers_now()(Request::MouseRestore(vm_id@), Reply::Mouse(mouse_result(r))),
            final(self).answers() == old(self).answers(),
    ;
}

/// The view of a status of mouse integration, or of why there is none.
pub open spec fn mouse_result(r: Result<MouseIntegrationStatus, String>) -> Result<
    MouseIntegrationStatusView,
    Text,
> {
    match r {
        Ok(status) => Ok(status@),
        Err(message) => Err(message@),
    }
}

/// The controller for what VirtualBox documents.
pub struct DocumentedVirtualBoxController;

/// What the documented controller says about the toggle.
pub open spec fn manual_notice() -> Text {
    "VirtualBox 7.2 exposes Mouse Integration as a GUI action; no documented VBoxManage or Main API toggle is available. Set it manually in the VM Input menu"@
}

/// What the documented controller says where something is to be restored.
pub open spec fn nothing_restored() -> Text {
    "MultiSeat Lite did not own Mouse Integration; nothing was restored"@
}

impl MouseIntegrationController for DocumentedVirtualBoxController {
    open spec fn answers(&self) -> Relation<Request, Reply> {
        |request: Request, reply: Reply|
            reply == Reply::Mouse(
                Ok(
                    match request {
                        Request::MouseRequest(_, desired) => MouseIntegrationStatusView {
                            requested: desired,
                            message: Some(manual_notice()),
                            ..untouched()
                        },
                        _ => MouseIntegrationStatusView {
                            message: Some(nothing_restored()),
                            ..untouched()
                        },
                    },
                ),
            )
    }

    fn request(&mut self, vm_id: &str, desired: MouseIntegrationState) -> (r: Result<
        MouseIntegrationStatus,
        String,
    >)
        ensures
            r matches Ok(status) && status@ == (MouseIntegrationStatusView {
                requested: desired,
                message: Some(manual_notice()),
                ..untouched()
            }),
    {
        Ok(
            MouseIntegrationStatus {
                requested: desired,
                observed: MouseIntegrationState::Unknown,
                control: MouseIntegrationControl::ManualRequired,
                owned_by_multiseat: false,
                message: Some(
                    "VirtualBox 7.2 exposes Mouse Integration as a GUI action; no documented VBoxManage or Main API toggle is available. Set it manually in the VM Input menu".to_owned(),
                ),
            },
        )
    }

    fn restore_if_owned(&mut self, vm_id: &str) -> (r: Result<MouseIntegrationStatus, String>)
        ensures
            r matches Ok(status) && status@ == (MouseIntegrationStatusView {
                message: Some(nothing_restored()),
                ..untouched()
            }),
    {
        Ok(
            MouseIntegrationStatus {
                message: Some(
                    "MultiSeat Lite did not own Mouse Integration; nothing was restored".to_owned(),
                ),
                ..MouseIntegrationStatus::default()
            },
        )
    }
}

/// The controller for what VirtualBox documents.
pub fn documented_backend() -> (r: Box<DocumentedVirtualBoxController>)
    ensures
        *r == DocumentedVirtualBoxController,
{
    Box::new(DocumentedVirtualBoxController)
}

/// A controller that switches machines of its own imagination.
pub struct SimulatedMouseIntegrationController {
    states: TextMap<MouseIntegrationState>,
    original: TextMap<MouseIntegrationState>,
}

/// The machines of a simulated controller: how they are now, and how those that it has
/// changed were before.
#[verifier::ext_equal]
pub struct SimulatedMice {
    pub states: Map<Text, MouseIntegrationState>,
    pub original: Map<Text, MouseIntegrationState>,
}

/// The machines of a controller that has switched none.
pub open spec fn no_mice() -> SimulatedMice {
    SimulatedMice { states: Map::empty(), original: Map::empty() }
}

impl View for SimulatedMouseIntegrationController {
    type V = SimulatedMice;

    closed spec fn view(&self) -> SimulatedMice {
        SimulatedMice { states: self.states@, original: self.original@ }
    }
}

impl SimulatedMice {
    /// How a machine is. One that was never switched has mouse integration on.
    pub open spec fn state(self, vm_id: Text) -> MouseIntegrationState {
        match text_map::lookup(self.states, vm_id) {
            Some(state) => state,
            None => MouseIntegrationState::Enabled,
        }
    }

    /// The machines after one was switched. What it was before is kept from the first time.
    pub open spec fn switched(self, vm_id: Text, desired: MouseIntegrationState) -> SimulatedMice {
        SimulatedMice {
            states: self.states.insert(vm_id, desired),
            original: if self.original.contains_key(vm_id) {
                self.original
            } else {
                self.original.insert(vm_id, self.state(vm_id))
            },
        }
    }

    /// The status of a machine that is put back, if it had been switched.
    pub open spec fn restored_status(self, vm_id: Text) -> MouseIntegrationStatusView {
        match text_map::lookup(self.original, vm_id) {
            Some(before) => MouseIntegrationStatusView {
                requested: before,
                observed: before,
                control: MouseIntegrationControl::Supported,
                owned_by_multiseat: false,
                message: Some("previous Mouse Integration state restored"@),
            },
            None => untouched(),
        }
    }

    /// The machines after one was put back, if it had been switched.
    pub open spec fn restored(self, vm_id: Text) -> SimulatedMice {
        match text_map::lookup(self.original, vm_id) {
            Some(before) => SimulatedMice {
                states: self.states.insert(vm_id, before),
                original: self.original.remove(vm_id),
            },
            None => self,
        }
    }
}

/// The status of a machine that a simulated controller has switched.
pub open spec fn switched_status(desired: MouseIntegrationState) -> MouseIntegrationStatusView {
    MouseIntegrationStatusView {
        requested: desired,
        observed: desired,
        control: MouseIntegrationControl::Supported,
        owned_by_multiseat: true,
        message: None,
    }
}

impl Default for SimulatedMouseIntegrationController {
    fn default() -> (r: Self)
        ensures
            r@ == no_mice(),
    {
        SimulatedMouseIntegrationController { states: TextMap::new(), original: TextMap::new() }
    }
}

/// Which answers a simulated controller gives.
pub open spec fn simulated_answers() -> Relation<Request, Reply> {
    |request: Request, reply: Reply|
        reply matches Reply::Mouse(Ok(status)) && (request matches Request::MouseRequest(
            _,
            desired,
        ) ==> status == switched_status(desired))
}

/// Which answers a simulated controller gives while its machines are in some states.
pub open spec fn simulated_answers_at(mice: SimulatedMice) -> Relation<Request, Reply> {
    |request: Request, reply: Reply|
        match request {
            Request::MouseRequest(_, desired) => reply == Reply::Mouse(
                Ok(switched_status(desired)),
            ),
            Request::MouseRestore(vm_id) => reply == Reply::Mouse(
                Ok(mice.restored_status(vm_id)),
            ),
            _ => false,
        }
}

impl MouseIntegrationController for SimulatedMouseIntegrationController {
    open spec fn answers(&self) -> Relation<Request, Reply> {
        simulated_answers()
    }

    open spec fn answers_now(&self) -> Relation<Request, Reply> {
        simulated_answers_at(self@)
    }

    fn request(&mut self, vm_id: &str, desired: MouseIntegrationState) -> (r: Result<
        MouseIntegrationStatus,
        String,
    >)
        ensures
            r matches Ok(status) && status@ == switched_status(desired),
            final(self)@ == old(self)@.switched(vm_id@, desired),
    {
        if !self.original.contains_key(vm_id) {
            let previous = match self.states.get(vm_id) {
                Some(state) => *state,
                None => MouseIntegrationState::Enabled,
            };
            self.original.insert(vm_id, previous);
        }
        self.states.insert(vm_id, desired);
        Ok(
            MouseIntegrationStatus {
                requested: desired,
                observed: desired,
                control: MouseIntegrationControl::Supported,
                owned_by_multiseat: true,
                message: None,
            },
        )
    }

    fn restore_if_owned(&mut self, vm_id: &str) -> (r: Result<MouseIntegrationStatus, String>)
        ensures
            final(self)@ == old(self)@.restored(vm_id@),
            r matches Ok(status) && status@ == old(self)@.restored_status(vm_id@),
    {
        let original = match self.original.get(vm_id) {
            Some(state) => *state,
            None => {
                return Ok(MouseIntegrationStatus::default());
            },
        };
        self.original.remove(vm_id);
        self.states.insert(vm_id, original);
        Ok(
            MouseIntegrationStatus {
                requested: original,
                observed: original,
                control: MouseIntegrationControl::Supported,
                owned_by_multiseat: false,
                message: Some("previous Mouse Integration state restored".to_owned()),
            },
        )
    }
}

/// A controller for machines that are not there.
pub fn simulated_backend() -> (r: Box<SimulatedMouseIntegrationController>)
    ensures
        (*r)@ == no_mice(),
{
    Box::new(SimulatedMouseIntegrationController::default())
}

/// Restoring a machine that was switched, however often, puts it back as it was, and leaves
/// every other machine alone.
pub proof fn law_restoring_undoes_switching(
    mice: SimulatedMice,
    vm_id: Text,
    first: MouseIntegrationState,
    second: MouseIntegrationState,
)
    requires
        !mice.original.contains_key(vm_id),
    ensures
        mice.switched(vm_id, first).restored(vm_id).state(vm_id) == mice.state(vm_id),
        mice.switched(vm_id, first).switched(vm_id, second).restored(vm_id).state(vm_id)
            == mice.state(vm_id),
        mice.switched(vm_id, first).restored(vm_id).original == mice.original,
        forall|other: Text|
            other != vm_id ==> #[trigger] mice.switched(vm_id, first).restored(vm_id).state(other)
                == mice.state(other),
{
    assert(mice.switched(vm_id, first).restored(vm_id).original =~= mice.original);
}

/// Restoring a machine that was never switched changes nothing.
pub proof fn law_restoring_touches_only_owned(mice: SimulatedMice, vm_id: Text)
    requires
        !mice.original.contains_key(vm_id),
    ensures
        mice.restored(vm_id) == mice,
{
}

} // verus!
