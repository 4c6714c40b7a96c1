//! Seats, what is assigned to them, and what is recorded about their machines.
use crate::duplicate;
use crate::duplicate::{duplicate_all, duplicate_opt, Duplicate};
use crate::text::compose::{concat3, copy_opt};
use crate::text::model;
use crate::text::model::Text;
use crate::text::scan::{same, same_any_case};
use crate::text_map;
use crate::text_map::TextMap;
use vstd::prelude::*;

verus! {

/// The identifier of a seat.
#[derive(Debug, Eq, PartialEq)]
pub struct SeatId(pub String);

impl View for SeatId {
    type V = Text;

    open spec fn view(&self) -> Text {
        self.0@
    }
}

impl Duplicate for SeatId {
    fn duplicate(&self) -> (r: Self) {
        SeatId(self.0.clone())
    }
}

impl Clone for SeatId {
    fn clone(&self) -> (r: Self)
        ensures
            r@ == self@,
    {
        self.duplicate()
    }
}

/// The identifier of a physical input device.
#[derive(Debug, Eq, PartialEq)]
pub struct PhysicalDeviceId(pub String);

impl View for PhysicalDeviceId {
    type V = Text;

    open spec fn view(&self) -> Text {
        self.0@
    }
}

impl Duplicate for PhysicalDeviceId {
    fn duplicate(&self) -> (r: Self) {
        PhysicalDeviceId(self.0.clone())
    }
}

impl Clone for PhysicalDeviceId {
    fn clone(&self) -> (r: Self)
        ensures
            r@ == self@,
    {
        self.duplicate()
    }
}

/// The identifier of a display.
#[derive(Debug, Eq, PartialEq)]
pub struct DisplayId(pub String);

impl View for DisplayId {
    type V = Text;

    open spec fn view(&self) -> Text {
        self.0@
    }
}

impl Duplicate for DisplayId {
    fn duplicate(&self) -> (r: Self) {
        DisplayId(self.0.clone())
    }
}

impl Clone for DisplayId {
    fn clone(&self) -> (r: Self)
        ensures
            r@ == self@,
    {
        self.duplicate()
    }
}

/// How the input of one kind reaches a seat.
#[derive(Clone, Copy, Debug, Eq, PartialEq, Structural)]
pub enum InputRoutingStrategy {
    VirtualBoxUsbPassthrough,
    NativeKeyboardRouting,
    Disabled,
}

/// How well the input of one kind reaches a seat.
#[derive(Clone, Copy, Debug, Eq, PartialEq, Structural)]
pub enum InputRoutingRuntimeStatus {
    Active,
    PrototypeActive,
    PrototypeInactive,
    NotImplemented,
    Disabled,
    Error,
}

/// What is known about handing a device to a guest.
#[derive(Clone, Copy, Debug, Eq, PartialEq, Structural)]
pub enum UsbPassthroughSafety {
    Supported,
    Unverified,
    KnownProblematic,
    Disabled,
}

/// The ways of routing a device that safety records speak of.
#[derive(Clone, Copy, Debug, Eq, PartialEq, Structural)]
pub enum DeviceRoutingBackend {
    VirtualBoxUsbPassthrough,
    NativeKeyboardRouting,
}

/// The guest systems that can be set up.
#[derive(Clone, Copy, Debug, Eq, PartialEq, Structural)]
pub enum ManagedWindowsVersion {
    Windows10,
    Windows11,
}

/// How far the installation of a guest has come.
#[derive(Clone, Copy, Debug, Eq, PartialEq, Structural)]
pub enum ManagedInstallState {
    NotCreated,
    Creating,
    InstallingWindows,
    Rebooting,
    InstallingGuestAdditions,
    WaitingForGuest,
    Ready,
    Failed,
}

/// How far the installation of the Guest Additions has come.
#[derive(Clone, Copy, Debug, Eq, PartialEq, Structural)]
pub enum GuestAdditionsInstallState {
    NotInstalled,
    Installing,
    Installed,
    Failed,
    Unknown,
}

/// What the evidence says about the Guest Additions.
#[derive(Clone, Copy, Debug, Eq, PartialEq, Structural)]
pub enum GuestAdditionsStatus {
    InstalledVersionKnown,
    Communicating,
    PartialEvidence,
    Unavailable,
    RepairRequired,
    Unknown,
}

/// How far a guest has started, from the least to the most.
#[derive(Clone, Copy, Debug, Eq, PartialEq, Structural)]
pub enum GuestRunLevel {
    Unknown,
    System,
    Userland,
    Desktop,
}

/// What the evidence says about Windows in the guest.
#[derive(Clone, Copy, Debug, Eq, PartialEq, Structural)]
pub enum WindowsInstallationStatus {
    Unknown,
    Installing,
    Installed,
}

/// What the evidence says about a managed machine.
#[derive(Clone, Copy, Debug, Eq, PartialEq, Structural)]
pub enum ManagedVmStatus {
    Installing,
    WindowsInstalled,
    WaitingForGuestAdditions,
    OperationalUnverified,
    Degraded,
    Ready,
    Saved,
    Stopped,
    Failed,
}

impl GuestRunLevel {
    /// The place of a level in the order.
    pub open spec fn rank(self) -> int {
        match self {
            GuestRunLevel::Unknown => 0,
            GuestRunLevel::System => 1,
            GuestRunLevel::Userland => 2,
            GuestRunLevel::Desktop => 3,
        }
    }

    /// Whether a level has been reached at this one.
    pub fn reaches(self, other: GuestRunLevel) -> (r: bool)
        ensures
            r == (self.rank() >= other.rank()),
    {
        self.position() >= other.position()
    }

    fn position(self) -> (r: u8)
        ensures
            r == self.rank(),
    {
        match self {
            GuestRunLevel::Unknown => 0,
            GuestRunLevel::System => 1,
            GuestRunLevel::Userland => 2,
            GuestRunLevel::Desktop => 3,
        }
    }
}

/// What a seat has been given, as far as it was found on this host.
#[derive(Debug, Eq, PartialEq)]
pub struct ResolvedSeatDeviceAssignments {
    pub display: Option<String>,
    pub keyboard: Option<String>,
    pub mouse: Option<String>,
}

/// The model of [`ResolvedSeatDeviceAssignments`].
#[verifier::ext_equal]
pub struct ResolvedSeatDeviceAssignmentsView {
    pub display: Option<Text>,
    pub keyboard: Option<Text>,
    pub mouse: Option<Text>,
}

impl View for ResolvedSeatDeviceAssignments {
    type V = ResolvedSeatDeviceAssignmentsView;

    open spec fn view(&self) -> ResolvedSeatDeviceAssignmentsView {
        ResolvedSeatDeviceAssignmentsView {
            display: model::opt_text(self.display),
            keyboard: model::opt_text(self.keyboard),
            mouse: model::opt_text(self.mouse),
        }
    }
}

impl Duplicate for ResolvedSeatDeviceAssignments {
    fn duplicate(&self) -> (r: Self) {
        ResolvedSeatDeviceAssignments {
            display: copy_opt(&self.display),
            keyboard: copy_opt(&self.keyboard),
            mouse: copy_opt(&self.mouse),
        }
    }
}

impl Clone for ResolvedSeatDeviceAssignments {
    fn clone(&self) -> (r: Self)
        ensures
            r@ == self@,
    {
        self.duplicate()
    }
}

impl Default for ResolvedSeatDeviceAssignments {
    fn default() -> (r: Self)
        ensures
            r@ == (ResolvedSeatDeviceAssignmentsView { display: None, keyboard: None, mouse: None }),
    {
        ResolvedSeatDeviceAssignments { display: None, keyboard: None, mouse: None }
    }
}

/// A seat with the devices that it was given.
#[derive(Debug, Eq, PartialEq)]
pub struct ResolvedSeat {
    pub id: SeatId,
    pub name: String,
    pub devices: ResolvedSeatDeviceAssignments,
}

/// The model of [`ResolvedSeat`].
#[verifier::ext_equal]
pub struct ResolvedSeatView {
    pub id: Text,
    pub name: Text,
    pub devices: ResolvedSeatDeviceAssignmentsView,
}

impl View for ResolvedSeat {
    type V = ResolvedSeatView;

    open spec fn view(&self) -> ResolvedSeatView {
        ResolvedSeatView {
            id: self.id@,
            name: self.name@,
            devices: self.devices@,
        }
    }
}

impl Duplicate for ResolvedSeat {
    fn duplicate(&self) -> (r: Self) {
        ResolvedSeat {
            id: self.id.duplicate(),
            name: self.name.clone(),
            devices: self.devices.duplicate(),
        }
    }
}

impl Clone for ResolvedSeat {
    fn clone(&self) -> (r: Self)
        ensures
            r@ == self@,
    {
        self.duplicate()
    }
}

/// The devices that a seat is to have.
#[derive(Debug, Eq, PartialEq)]
pub struct SeatDeviceAssignments {
    pub display: Option<DisplayId>,
    pub keyboard: Option<PhysicalDeviceId>,
    pub mouse: Option<PhysicalDeviceId>,
}

/// The model of [`SeatDeviceAssignments`].
#[verifier::ext_equal]
pub struct SeatDeviceAssignmentsView {
    pub display: Option<Text>,
    pub keyboard: Option<Text>,
    pub mouse: Option<Text>,
}

impl View for SeatDeviceAssignments {
    type V = SeatDeviceAssignmentsView;

    open spec fn view(&self) -> SeatDeviceAssignmentsView {
        SeatDeviceAssignmentsView {
            display: duplicate::opt_view(self.display),
            keyboard: duplicate::opt_view(self.keyboard),
            mouse: duplicate::opt_view(self.mouse),
        }
    }
}

impl Duplicate for SeatDeviceAssignments {
    fn duplicate(&self) -> (r: Self) {
        SeatDeviceAssignments {
            display: duplicate_opt(&self.display),
            keyboard: duplicate_opt(&self.keyboard),
            mouse: duplicate_opt(&self.mouse),
        }
    }
}

impl Clone for SeatDeviceAssignments {
    fn clone(&self) -> (r: Self)
        ensures
            r@ == self@,
    {
        self.duplicate()
    }
}

/// A seat as it is configured. The first seat of a configuration is the host's own.
#[derive(Debug, Eq, PartialEq)]
pub struct SeatConfig {
    pub id: SeatId,
    pub name: String,
    pub devices: SeatDeviceAssignments,
}

/// The model of [`SeatConfig`].
#[verifier::ext_equal]
pub struct SeatConfigView {
    pub id: Text,
    pub name: Text,
    pub devices: SeatDeviceAssignmentsView,
}

impl View for SeatConfig {
    type V = SeatConfigView;

    open spec fn view(&self) -> SeatConfigView {
        SeatConfigView {
            id: self.id@,
            name: self.name@,
            devices: self.devices@,
        }
    }
}

impl Duplicate for SeatConfig {
    fn duplicate(&self) -> (r: Self) {
        SeatConfig {
            id: self.id.duplicate(),
            name: self.name.clone(),
            devices: self.devices.duplicate(),
        }
    }
}

impl Clone for SeatConfig {
    fn clone(&self) -> (r: Self)
        ensures
            r@ == self@,
    {
        self.duplicate()
    }
}

/// How keyboard and mouse reach a seat.
#[derive(Clone, Copy, Debug, Eq, PartialEq, Structural)]
pub struct SeatInputRouting {
    pub keyboard: InputRoutingStrategy,
    pub mouse: InputRoutingStrategy,
}

/// What has been found out about routing one device one way.
#[derive(Debug, Eq, PartialEq)]
pub struct DeviceBackendSafetyRecord {
    pub physical_device_id: PhysicalDeviceId,
    pub vendor_id: Option<String>,
    pub product_id: Option<String>,
    pub backend: DeviceRoutingBackend,
    pub safety: UsbPassthroughSafety,
    pub reason: String,
    pub observed: Option<String>,
}

/// The model of [`DeviceBackendSafetyRecord`].
#[verifier::ext_equal]
pub struct DeviceBackendSafetyRecordView {
    pub physical_device_id: Text,
    pub vendor_id: Option<Text>,
    pub product_id: Option<Text>,
    pub backend: DeviceRoutingBackend,
    pub safety: UsbPassthroughSafety,
    pub reason: Text,
    pub observed: Option<Text>,
}

impl View for DeviceBackendSafetyRecord {
    type V = DeviceBackendSafetyRecordView;

    open spec fn view(&self) -> DeviceBackendSafetyRecordView {
        DeviceBackendSafetyRecordView {
            physical_device_id: self.physical_device_id@,
            vendor_id: model::opt_text(self.vendor_id),
            product_id: model::opt_text(self.product_id),
            backend: self.backend,
            safety: self.safety,
            reason: self.reason@,
            observed: model::opt_text(self.observed),
        }
    }
}

impl Duplicate for DeviceBackendSafetyRecord {
    fn duplicate(&self) -> (r: Self) {
        DeviceBackendSafetyRecord {
            physical_device_id: self.physical_device_id.duplicate(),
            vendor_id: copy_opt(&self.vendor_id),
            product_id: copy_opt(&self.product_id),
            backend: self.backend,
            safety: self.safety,
            reason: self.reason.clone(),
            observed: copy_opt(&self.observed),
        }
    }
}

impl Clone for DeviceBackendSafetyRecord {
    fn clone(&self) -> (r: Self)
        ensures
            r@ == self@,
    {
        self.duplicate()
    }
}

/// The machine that a seat runs in.
#[derive(Debug, Eq, PartialEq)]
pub struct VirtualBoxSeatConfig {
    pub vm_id: String,
    pub managed_by_multiseat: bool,
    pub mouse_capture_policy_owned: bool,
}

/// The model of [`VirtualBoxSeatConfig`].
#[verifier::ext_equal]
pub struct VirtualBoxSeatConfigView {
    pub vm_id: Text,
    pub managed_by_multiseat: bool,
    pub mouse_capture_policy_owned: bool,
}

impl View for VirtualBoxSeatConfig {
    type V = VirtualBoxSeatConfigView;

    open spec fn view(&self) -> VirtualBoxSeatConfigView {
        VirtualBoxSeatConfigView {
            vm_id: self.vm_id@,
            managed_by_multiseat: self.managed_by_multiseat,
            mouse_capture_policy_owned: self.mouse_capture_policy_owned,
        }
    }
}

impl Duplicate for VirtualBoxSeatConfig {
    fn duplicate(&self) -> (r: Self) {
        VirtualBoxSeatConfig {
            vm_id: self.vm_id.clone(),
            managed_by_multiseat: self.managed_by_multiseat,
            mouse_capture_policy_owned: self.mouse_capture_policy_owned,
        }
    }
}

impl Clone for VirtualBoxSeatConfig {
    fn clone(&self) -> (r: Self)
        ensures
            r@ == self@,
    {
        self.duplicate()
    }
}

impl Default for VirtualBoxSeatConfig {
    fn default() -> (r: Self)
        ensures
            r@ == (VirtualBoxSeatConfigView {
                vm_id: Seq::empty(),
                managed_by_multiseat: false,
                mouse_capture_policy_owned: false,
            }),
    {
        VirtualBoxSeatConfig {
            vm_id: String::new(),
            managed_by_multiseat: false,
            mouse_capture_policy_owned: false,
        }
    }
}

/// The machines of the seats.
pub struct VirtualBoxConfig {
    pub seats: TextMap<VirtualBoxSeatConfig>,
}

/// The configuration of the backends.
pub struct BackendsConfig {
    pub virtual_box: VirtualBoxConfig,
}

/// The configuration of all seats.
pub struct ApplicationConfig {
    pub seats: Vec<SeatConfig>,
    pub backends: BackendsConfig,
    pub routing: TextMap<SeatInputRouting>,
    pub safety: Vec<DeviceBackendSafetyRecord>,
}

/// The model of [`ApplicationConfig`].
#[verifier::ext_equal]
pub struct ApplicationConfigView {
    pub seats: Seq<SeatConfigView>,
    pub machines: Map<Text, VirtualBoxSeatConfigView>,
    pub routing: Map<Text, SeatInputRouting>,
    pub safety: Seq<DeviceBackendSafetyRecordView>,
}

impl View for ApplicationConfig {
    type V = ApplicationConfigView;

    open spec fn view(&self) -> ApplicationConfigView {
        ApplicationConfigView {
            seats: duplicate::views(self.seats@),
            machines: self.backends.virtual_box.seats@.map_values(
                |machine: VirtualBoxSeatConfig| machine@,
            ),
            routing: self.routing@,
            safety: duplicate::views(self.safety@),
        }
    }
}

impl ApplicationConfigView {
    /// The first place at or after `from` of a seat with an identifier.
    pub open spec fn seat_index_from(self, id: Text, from: int) -> Option<int>
        decreases self.seats.len() - from,
    {
        if from < 0 || from >= self.seats.len() {
            None
        } else if self.seats[from].id == id {
            Some(from)
        } else {
            self.seat_index_from(id, from + 1)
        }
    }

    /// The place of a seat.
    pub open spec fn seat_index(self, id: Text) -> Option<int> {
        self.seat_index_from(id, 0)
    }

    /// The seat with an identifier.
    pub open spec fn seat(self, id: Text) -> Option<SeatConfigView> {
        match self.seat_index(id) {
            Some(i) => Some(self.seats[i]),
            None => None,
        }
    }

    /// The machine of a seat.
    pub open spec fn machine(self, id: Text) -> Option<VirtualBoxSeatConfigView> {
        text_map::lookup(self.machines, id)
    }

    /// Whether the machine of a seat is a managed one.
    pub open spec fn is_managed(self, id: Text) -> bool {
        self.machine(id) matches Some(machine) && machine.managed_by_multiseat
    }

    /// How keyboard and mouse reach a seat. A keyboard is routed natively and a mouse handed
    /// to the guest unless something else was set.
    pub open spec fn routing_of(self, id: Text) -> SeatInputRouting {
        match text_map::lookup(self.routing, id) {
            Some(routing) => routing,
            None => default_routing(),
        }
    }

    /// The first safety record at or after `from` for a device and a way of routing it.
    pub open spec fn safety_from(
        self,
        id: Text,
        backend: DeviceRoutingBackend,
        from: int,
    ) -> Option<DeviceBackendSafetyRecordView>
        decreases self.safety.len() - from,
    {
        if from < 0 || from >= self.safety.len() {
            None
        } else if self.safety[from].backend == backend && model::same_ignoring_case(
            self.safety[from].physical_device_id,
            id,
        ) {
            Some(self.safety[from])
        } else {
            self.safety_from(id, backend, from + 1)
        }
    }

    /// The safety record for a device and a way of routing it.
    pub open spec fn safety_of(
        self,
        id: Text,
        backend: DeviceRoutingBackend,
    ) -> Option<DeviceBackendSafetyRecordView> {
        self.safety_from(id, backend, 0)
    }
}

/// Whether a place in a list of seats is the first with an identifier.
pub open spec fn is_first(seats: Seq<SeatConfigView>, id: Text, i: int) -> bool {
    &&& 0 <= i < seats.len()
    &&& seats[i].id == id
    &&& forall|j: int| 0 <= j < i ==> (#[trigger] seats[j]).id != id
}

proof fn lemma_index_from(config: ApplicationConfigView, id: Text, from: int)
    requires
        0 <= from,
    ensures
        match config.seat_index_from(id, from) {
            Some(i) => from <= i < config.seats.len() && config.seats[i].id == id && (forall|
                j: int,
            |
                from <= j < i ==> (#[trigger] config.seats[j]).id != id),
            None => forall|j: int|
                from <= j < config.seats.len() ==> (#[trigger] config.seats[j]).id != id,
        },
    decreases config.seats.len() - from,
{
    if from < config.seats.len() && config.seats[from].id != id {
        lemma_index_from(config, id, from + 1);
    }
}

/// A seat is the first one in the list that has its identifier; where none has it, there is no
/// such seat.
pub proof fn law_a_seat_is_the_first_with_its_identifier(config: ApplicationConfigView, id: Text)
    ensures
        match config.seat_index(id) {
            Some(i) => is_first(config.seats, id, i),
            None => forall|i: int| 0 <= i < config.seats.len() ==> (#[trigger] config.seats[i]).id
                != id,
        },
        forall|i: int|
            #[trigger] is_first(config.seats, id, i) ==> config.seat_index(id) == Some(i)
                && config.seat(id) == Some(config.seats[i]),
{
    lemma_index_from(config, id, 0);
}

/// A configuration in which input reaches a seat in another way.
pub open spec fn rerouted(
    config: ApplicationConfigView,
    seat: Text,
    routing: SeatInputRouting,
) -> ApplicationConfigView {
    ApplicationConfigView { routing: config.routing.insert(seat, routing), ..config }
}

/// A configuration with one more safety record.
pub open spec fn noted(
    config: ApplicationConfigView,
    record: DeviceBackendSafetyRecordView,
) -> ApplicationConfigView {
    ApplicationConfigView { safety: seq![record] + config.safety, ..config }
}

/// How input reaches a seat is what was set last for it. Other seats, and everything else, are
/// left as they were.
pub proof fn law_routing_is_what_was_set_last(
    config: ApplicationConfigView,
    seat: Text,
    other: Text,
    routing: SeatInputRouting,
)
    requires
        other != seat,
    ensures
        ({
            let after = rerouted(config, seat, routing);
            &&& after.routing_of(seat).keyboard == routing.keyboard
            &&& after.routing_of(seat).mouse == routing.mouse
            &&& after.routing_of(other) == config.routing_of(other)
            &&& after.seats == config.seats
            &&& after.machines == config.machines
            &&& after.safety == config.safety
        }),
{
}

/// What was found out last about a device counts, for the way of routing it that it was found out
/// about and however the device's identifier is written. Other devices and other ways, and
/// everything else, are left as they were.
pub proof fn law_the_newest_record_counts(
    config: ApplicationConfigView,
    record: DeviceBackendSafetyRecordView,
    id: Text,
    backend: DeviceRoutingBackend,
)
    ensures
        ({
            let after = noted(config, record);
            let about = record.backend == backend && model::lower(record.physical_device_id)
                == model::lower(id);
            &&& about ==> after.safety_of(id, backend) == Some(record)
            &&& !about ==> after.safety_of(id, backend) == config.safety_of(id, backend)
            &&& after.seats == config.seats
            &&& after.machines == config.machines
            &&& after.routing == config.routing
        }),
{
    lemma_safety_later(config, noted(config, record), id, backend, 0);
}

proof fn lemma_safety_later(
    config: ApplicationConfigView,
    after: ApplicationConfigView,
    id: Text,
    backend: DeviceRoutingBackend,
    from: int,
)
    requires
        0 <= from,
        after.safety.len() == config.safety.len() + 1,
        forall|i: int|
            0 <= i < config.safety.len() ==> after.safety[i + 1] == #[trigger] config.safety[i],
    ensures
        after.safety_from(id, backend, from + 1) == config.safety_from(id, backend, from),
    decreases config.safety.len() - from,
{
    if from < config.safety.len() {
        assert(after.safety[from + 1] == config.safety[from]);
        lemma_safety_later(config, after, id, backend, from + 1);
    }
}

/// The routing of a seat for which nothing was set.
pub open spec fn default_routing() -> SeatInputRouting {
    SeatInputRouting {
        keyboard: InputRoutingStrategy::NativeKeyboardRouting,
        mouse: InputRoutingStrategy::VirtualBoxUsbPassthrough,
    }
}

fn empty_seat(id: &str, name: &str) -> (r: SeatConfig)
    ensures
        r@ == (SeatConfigView {
            id: id@,
            name: name@,
            devices: SeatDeviceAssignmentsView { display: None, keyboard: None, mouse: None },
        }),
{
    SeatConfig {
        id: SeatId(id.to_owned()),
        name: name.to_owned(),
        devices: SeatDeviceAssignments { display: None, keyboard: None, mouse: None },
    }
}

impl Default for ApplicationConfig {
    /// Two seats without devices: the host's own and one more.
    fn default() -> (r: Self)
        ensures
            r@ == (ApplicationConfigView {
                seats: seq![
                    SeatConfigView {
                        id: "seat-1"@,
                        name: "Dennis"@,
                        devices: SeatDeviceAssignmentsView {
                            display: None,
                            keyboard: None,
                            mouse: None,
                        },
                    },
                    SeatConfigView {
                        id: "seat-2"@,
                        name: "Barnen"@,
                        devices: SeatDeviceAssignmentsView {
                            display: None,
                            keyboard: None,
                            mouse: None,
                        },
                    },
                ],
                machines: Map::empty(),
                routing: Map::empty(),
                safety: Seq::empty(),
            }),
    {
        let mut seats: Vec<SeatConfig> = Vec::new();
        seats.push(empty_seat("seat-1", "Dennis"));
        seats.push(empty_seat("seat-2", "Barnen"));
        ApplicationConfig {
            seats,
            backends: BackendsConfig { virtual_box: VirtualBoxConfig { seats: TextMap::new() } },
            routing: TextMap::new(),
            safety: Vec::new(),
        }
    }
}

impl ApplicationConfig {
    /// The place of a seat.
    pub fn position_of(&self, id: &SeatId) -> (r: Option<usize>)
        ensures
            match r {
                Some(i) => i < self.seats@.len() && self@.seat_index(id@) == Some(i as int),
                None => self@.seat_index(id@) is None,
            },
    {
        let mut i: usize = 0;
        while i < self.seats.len()
            invariant
                i <= self.seats@.len(),
                self@.seat_index(id@) == self@.seat_index_from(id@, i as int),
            decreases self.seats.len() - i,
        {
            assert(self@.seats[i as int] == self.seats@[i as int]@);
            if same(self.seats[i].id.0.as_str(), id.0.as_str()) {
                return Some(i);
            }
            i += 1;
        }
        None
    }

    /// The seat with an identifier.
    pub fn find_seat(&self, id: &SeatId) -> (r: Option<&SeatConfig>)
        ensures
            match r {
                Some(seat) => self@.seat(id@) == Some(seat@),
                None => self@.seat(id@) is None,
            },
    {
        match self.position_of(id) {
            Some(i) => {
                assert(self@.seats[i as int] == self.seats@[i as int]@);
                Some(&self.seats[i])
            },
            None => None,
        }
    }

    /// The machine of a seat.
    pub fn machine_of(&self, id: &SeatId) -> (r: Option<&VirtualBoxSeatConfig>)
        ensures
            match r {
                Some(machine) => self@.machine(id@) == Some(machine@),
                None => self@.machine(id@) is None,
            },
    {
        self.backends.virtual_box.seats.get(id.0.as_str())
    }

    /// How keyboard and mouse reach a seat.
    pub fn input_routing(&self, id: &SeatId) -> (r: SeatInputRouting)
        ensures
            r == self@.routing_of(id@),
    {
        match self.routing.get(id.0.as_str()) {
            Some(routing) => *routing,
            None => SeatInputRouting {
                keyboard: InputRoutingStrategy::NativeKeyboardRouting,
                mouse: InputRoutingStrategy::VirtualBoxUsbPassthrough,
            },
        }
    }

    /// Sets how keyboard and mouse reach a seat. A seat that is not in the list is refused.
    pub fn set_input_routing(&mut self, id: &SeatId, routing: SeatInputRouting) -> (r: Result<
        (),
        String,
    >)
        ensures
            match old(self)@.seat_index(id@) {
                Some(_) => r is Ok && final(self)@ == (ApplicationConfigView {
                    routing: old(self)@.routing.insert(id@, routing),
                    ..old(self)@
                }),
                None => model::with_message(r) == Err::<(), Text>(
                    "unknown seat '"@ + id@ + "'"@,
                ) && final(self)@ == old(self)@,
            },
            r is Ok ==> final(self)@ == rerouted(old(self)@, id@, routing),
    {
        if self.position_of(id).is_none() {
            return Err(concat3("unknown seat '", id.0.as_str(), "'"));
        }
        self.routing.insert(id.0.as_str(), routing);
        Ok(())
    }

    /// The safety record for a device and a way of routing it.
    pub fn device_safety(&self, id: &str, backend: DeviceRoutingBackend) -> (r: Option<
        &DeviceBackendSafetyRecord,
    >)
        ensures
            match r {
                Some(record) => self@.safety_of(id@, backend) == Some(record@),
                None => self@.safety_of(id@, backend) is None,
            },
    {
        let mut i: usize = 0;
        while i < self.safety.len()
            invariant
                i <= self.safety@.len(),
                self@.safety_of(id@, backend) == self@.safety_from(id@, backend, i as int),
            decreases self.safety.len() - i,
        {
            assert(self@.safety[i as int] == self.safety@[i as int]@);
            if self.safety[i].backend == backend && same_any_case(
                self.safety[i].physical_device_id.0.as_str(),
                id,
            ) {
                return Some(&self.safety[i]);
            }
            i += 1;
        }
        None
    }

    /// Records what has been found out about a device. The newest record counts.
    pub fn record_device_safety(&mut self, record: DeviceBackendSafetyRecord) -> (r: Result<
        (),
        String,
    >)
        ensures
            r is Ok,
            final(self)@ == (ApplicationConfigView {
                safety: seq![record@] + old(self)@.safety,
                ..old(self)@
            }),
            final(self)@ == noted(old(self)@, record@),
    {
        self.safety.insert(0, record);
        proof {
            assert(self@.safety =~= seq![record@] + old(self)@.safety);
        }
        Ok(())
    }
}

/// What one probe of a guest's run level gave.
#[derive(Debug, Eq, PartialEq)]
pub struct GuestRunLevelProbe {
    pub level: GuestRunLevel,
    pub success: bool,
    pub exit_code: Option<i32>,
    pub stdout: String,
    pub stderr: String,
    pub elapsed_ms: u64,
}

/// The model of [`GuestRunLevelProbe`].
#[verifier::ext_equal]
pub struct GuestRunLevelProbeView {
    pub level: GuestRunLevel,
    pub success: bool,
    pub exit_code: Option<i32>,
    pub stdout: Text,
    pub stderr: Text,
    pub elapsed_ms: u64,
}

impl View for GuestRunLevelProbe {
    type V = GuestRunLevelProbeView;

    open spec fn view(&self) -> GuestRunLevelProbeView {
        GuestRunLevelProbeView {
            level: self.level,
            success: self.success,
            exit_code: self.exit_code,
            stdout: self.stdout@,
            stderr: self.stderr@,
            elapsed_ms: self.elapsed_ms,
        }
    }
}

impl Duplicate for GuestRunLevelProbe {
    fn duplicate(&self) -> (r: Self) {
        GuestRunLevelProbe {
            level: self.level,
            success: self.success,
            exit_code: self.exit_code,
            stdout: self.stdout.clone(),
            stderr: self.stderr.clone(),
            elapsed_ms: self.elapsed_ms,
        }
    }
}

impl Clone for GuestRunLevelProbe {
    fn clone(&self) -> (r: Self)
        ensures
            r@ == self@,
    {
        self.duplicate()
    }
}

impl Default for GuestRunLevelProbe {
    fn default() -> (r: Self)
        ensures
            r@ == (GuestRunLevelProbeView {
                level: GuestRunLevel::Unknown,
                success: false,
                exit_code: None,
                stdout: Seq::empty(),
                stderr: Seq::empty(),
                elapsed_ms: 0,
            }),
    {
        GuestRunLevelProbe {
            level: GuestRunLevel::Unknown,
            success: false,
            exit_code: None,
            stdout: String::new(),
            stderr: String::new(),
            elapsed_ms: 0,
        }
    }
}

/// What an observation of a guest rests on.
#[derive(Debug, Eq, PartialEq)]
pub struct ManagedInstallationEvidence {
    pub last_vm_state: Option<String>,
    pub runlevel_probes: Vec<GuestRunLevelProbe>,
    pub guest_os_product: Option<String>,
    pub guest_additions_version: Option<String>,
    pub guest_add_host_version_last_checked: Option<String>,
    pub reset_counter: Option<u64>,
    pub reconciliation_timestamp_unix_ms: Option<u64>,
    pub reconciliation_event: Option<String>,
}

/// The model of [`ManagedInstallationEvidence`].
#[verifier::ext_equal]
pub struct ManagedInstallationEvidenceView {
    pub last_vm_state: Option<Text>,
    pub runlevel_probes: Seq<GuestRunLevelProbeView>,
    pub guest_os_product: Option<Text>,
    pub guest_additions_version: Option<Text>,
    pub guest_add_host_version_last_checked: Option<Text>,
    pub reset_counter: Option<u64>,
    pub reconciliation_timestamp_unix_ms: Option<u64>,
    pub reconciliation_event: Option<Text>,
}

impl View for ManagedInstallationEvidence {
    type V = ManagedInstallationEvidenceView;

    open spec fn view(&self) -> ManagedInstallationEvidenceView {
        ManagedInstallationEvidenceView {
            last_vm_state: model::opt_text(self.last_vm_state),
            runlevel_probes: duplicate::views(self.runlevel_probes@),
            guest_os_product: model::opt_text(self.guest_os_product),
            guest_additions_version: model::opt_text(self.guest_additions_version),
            guest_add_host_version_last_checked: model::opt_text(self.guest_add_host_version_last_checked),
            reset_counter: self.reset_counter,
            reconciliation_timestamp_unix_ms: self.reconciliation_timestamp_unix_ms,
            reconciliation_event: model::opt_text(self.reconciliation_event),
        }
    }
}

impl Duplicate for ManagedInstallationEvidence {
    fn duplicate(&self) -> (r: Self) {
        ManagedInstallationEvidence {
            last_vm_state: copy_opt(&self.last_vm_state),
            runlevel_probes: duplicate_all(&self.runlevel_probes),
            guest_os_product: copy_opt(&self.guest_os_product),
            guest_additions_version: copy_opt(&self.guest_additions_version),
            guest_add_host_version_last_checked: copy_opt(&self.guest_add_host_version_last_checked),
            reset_counter: self.reset_counter,
            reconciliation_timestamp_unix_ms: self.reconciliation_timestamp_unix_ms,
            reconciliation_event: copy_opt(&self.reconciliation_event),
        }
    }
}

impl Clone for ManagedInstallationEvidence {
    fn clone(&self) -> (r: Self)
        ensures
            r@ == self@,
    {
        self.duplicate()
    }
}

/// What has been observed of a guest.
#[derive(Debug, Eq, PartialEq)]
pub struct ManagedInstallationObservation {
    pub windows: WindowsInstallationStatus,
    pub guest_additions: GuestAdditionsStatus,
    pub run_level: GuestRunLevel,
    pub managed: ManagedVmStatus,
    pub evidence: ManagedInstallationEvidence,
}

/// The model of [`ManagedInstallationObservation`].
#[verifier::ext_equal]
pub struct ManagedInstallationObservationView {
    pub windows: WindowsInstallationStatus,
    pub guest_additions: GuestAdditionsStatus,
    pub run_level: GuestRunLevel,
    pub managed: ManagedVmStatus,
    pub evidence: ManagedInstallationEvidenceView,
}

impl View for ManagedInstallationObservation {
    type V = ManagedInstallationObservationView;

    open spec fn view(&self) -> ManagedInstallationObservationView {
        ManagedInstallationObservationView {
            windows: self.windows,
            guest_additions: self.guest_additions,
            run_level: self.run_level,
            managed: self.managed,
            evidence: self.evidence@,
        }
    }
}

impl Duplicate for ManagedInstallationObservation {
    fn duplicate(&self) -> (r: Self) {
        ManagedInstallationObservation {
            windows: self.windows,
            guest_additions: self.guest_additions,
            run_level: self.run_level,
            managed: self.managed,
            evidence: self.evidence.duplicate(),
        }
    }
}

impl Clone for ManagedInstallationObservation {
    fn clone(&self) -> (r: Self)
        ensures
            r@ == self@,
    {
        self.duplicate()
    }
}

/// An observation of a guest of which nothing is known yet.
pub open spec fn no_observation() -> ManagedInstallationObservationView {
    ManagedInstallationObservationView {
        windows: WindowsInstallationStatus::Unknown,
        guest_additions: GuestAdditionsStatus::Unknown,
        run_level: GuestRunLevel::Unknown,
        managed: ManagedVmStatus::Installing,
        evidence: ManagedInstallationEvidenceView {
            last_vm_state: None,
            runlevel_probes: Seq::empty(),
            guest_os_product: None,
            guest_additions_version: None,
            guest_add_host_version_last_checked: None,
            reset_counter: None,
            reconciliation_timestamp_unix_ms: None,
            reconciliation_event: None,
        },
    }
}

impl Default for ManagedInstallationObservation {
    fn default() -> (r: Self)
        ensures
            r@ == no_observation(),
    {
        ManagedInstallationObservation {
            windows: WindowsInstallationStatus::Unknown,
            guest_additions: GuestAdditionsStatus::Unknown,
            run_level: GuestRunLevel::Unknown,
            managed: ManagedVmStatus::Installing,
            evidence: ManagedInstallationEvidence {
                last_vm_state: None,
                runlevel_probes: Vec::new(),
                guest_os_product: None,
                guest_additions_version: None,
                guest_add_host_version_last_checked: None,
                reset_counter: None,
                reconciliation_timestamp_unix_ms: None,
                reconciliation_event: None,
            },
        }
    }
}

/// The journal of a managed installation.
#[derive(Debug, Eq, PartialEq)]
pub struct ManagedVmInstallation {
    pub windows_version: ManagedWindowsVersion,
    pub virtual_box_os_type_id: String,
    pub computer_name: String,
    pub domain_name: String,
    pub state: ManagedInstallState,
    pub guest_additions: GuestAdditionsInstallState,
    pub guest_additions_version: Option<String>,
    pub last_error: Option<String>,
    pub observed: ManagedInstallationObservation,
}

/// The model of [`ManagedVmInstallation`].
#[verifier::ext_equal]
pub struct ManagedVmInstallationView {
    pub windows_version: ManagedWindowsVersion,
    pub virtual_box_os_type_id: Text,
    pub computer_name: Text,
    pub domain_name: Text,
    pub state: ManagedInstallState,
    pub guest_additions: GuestAdditionsInstallState,
    pub guest_additions_version: Option<Text>,
    pub last_error: Option<Text>,
    pub observed: ManagedInstallationObservationView,
}

impl View for ManagedVmInstallation {
    type V = ManagedVmInstallationView;

    open spec fn view(&self) -> ManagedVmInstallationView {
        ManagedVmInstallationView {
            windows_version: self.windows_version,
            virtual_box_os_type_id: self.virtual_box_os_type_id@,
            computer_name: self.computer_name@,
            domain_name: self.domain_name@,
            state: self.state,
            guest_additions: self.guest_additions,
            guest_additions_version: model::opt_text(self.guest_additions_version),
            last_error: model::opt_text(self.last_error),
            observed: self.observed@,
        }
    }
}

impl Duplicate for ManagedVmInstallation {
    fn duplicate(&self) -> (r: Self) {
        ManagedVmInstallation {
            windows_version: self.windows_version,
            virtual_box_os_type_id: self.virtual_box_os_type_id.clone(),
            computer_name: self.computer_name.clone(),
            domain_name: self.domain_name.clone(),
            state: self.state,
            guest_additions: self.guest_additions,
            guest_additions_version: copy_opt(&self.guest_additions_version),
            last_error: copy_opt(&self.last_error),
            observed: self.observed.duplicate(),
        }
    }
}

impl Clone for ManagedVmInstallation {
    fn clone(&self) -> (r: Self)
        ensures
            r@ == self@,
    {
        self.duplicate()
    }
}

} // verus!
