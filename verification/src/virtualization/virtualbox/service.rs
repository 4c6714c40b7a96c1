//! The runtime service: its components, what it remembers, and how it talks to VirtualBox.
use super::creation::{IsoInspection, IsoInspectionView};
use super::executor;
use super::executor::{Answer, VBoxManageExecutor, VBoxOutput, VBoxOutputView};
use super::focus_protection;
use super::focus_protection::{
    FocusProtectionBackend, FocusProtectionStatus, FocusProtectionStatusView,
    ManagedVmWindowIdentity, ManagedVmWindowIdentityView, SimulatedFocusProtection,
};
use super::installation;
use super::installation::{InstallationHost, PasswordFailure, PasswordFailureView};
use super::machine_info;
use super::machine_info::{describe_machine, parse_machine_readable, parse_vm_list_line};
use super::mouse_integration;
use super::mouse_integration::{
    mouse_result, simulated_backend, MouseIntegrationController, MouseIntegrationState, MouseIntegrationStatus,
    MouseIntegrationStatusView,
};
use super::presentation;
use super::presentation::{
    DisplayPresentationStatus, DisplayPresentationStatusView, PresentationBackend,
    SimulatedPresentation,
};
use super::presentation_session;
use super::presentation_session::TraceClock;
use super::runtime;
use super::secrecy;
use super::runtime::{
    RuntimeLogEntry, RuntimeLogEntryView, RuntimeRecord, RuntimeRecordView, StartupTraceEntry,
    StartupTraceEntryView, VirtualMachine, VirtualMachineList, VirtualMachineListView,
    VirtualMachineView,
};
use crate::devices::{PhysicalInputDevice, PhysicalInputDeviceView};
use crate::duplicate;
use crate::duplicate::Duplicate;
use crate::journal;
use crate::journal::{Exchange, Journaled, Kept, Relation, World};
use crate::seats::SeatId;
use crate::text::compose::{concat2, concat4, concat6, own_opt, replace};
use crate::text::model;
use crate::text::model::Text;
use crate::text::number::exit_text;
use crate::text::quote;
use crate::text::quote::quote_list;
use crate::text::scan::{lines_of, same, same_any_case, strip_start, trim};
use crate::text_map;
use crate::text_map::TextMap;
use crate::virtualization::DetectionState;
use crate::virtualization::usb;
use crate::virtualization::usb::{
    parse_virtualbox_usbhost, VirtualBoxStatus, VirtualBoxStatusView,
};
use std::sync::Arc;
use std::sync::atomic::{AtomicBool, Ordering};
use std::time::{Duration, Instant};
use vstd::prelude::*;

verus! {

// ---- Components ------------------------------------------------------------------------

/// What enumerates the input devices of the host. Nothing is promised of what it answers but what
/// an implementation chooses to promise.
pub trait HardwareInventory: Send + Sync {
    /// Which answers it may give, whatever it has been asked before.
    open spec fn answers(&self) -> Relation<Request, Reply> {
        |request: Request, reply: Reply| true
    }

    fn input_devices(&mut self) -> (r: Result<Vec<PhysicalInputDevice>, String>)
        ensures
            old(self).answers()(Request::Hardware, Reply::Devices(devices_result(r))),
            final(self).answers() == old(self).answers(),
    ;
}

/// What the service asks of its components.
pub enum Request {
    /// Run `VBoxManage` with these arguments.
    Execute(Seq<Text>),
    /// Wait for so many milliseconds.
    Wait(u64),
    /// Make a flag that is raised or not.
    NewFlag(bool),
    /// Is a flag raised, so that a start is cancelled?
    Cancelled(Arc<AtomicBool>),
    /// Raise a flag, to cancel a start.
    Cancel(Arc<AtomicBool>),
    /// Which moment is it?
    Moment,
    /// What time is it, and how long is it since a moment?
    Clock(Instant),
    /// How many milliseconds is it since a moment?
    Elapsed(Instant),
    /// Which input devices are there?
    Hardware,
    FocusStart(ManagedVmWindowIdentityView, Option<isize>),
    FocusLock(bool),
    FocusStop,
    FocusStatus,
    MouseRequest(Text, MouseIntegrationState),
    MouseRestore(Text),
    PresentationStart(ManagedVmWindowIdentityView, Text),
    PresentationLock(bool),
    PresentationUnavailable(Option<Text>, Text),
    PresentationStop,
    PresentationStatus,
    /// Is there a file at a path?
    IsFile(Text),
    /// What does a path hold, as an ISO image?
    InspectIso(Text),
    /// What text does a file hold?
    ReadText(Text),
    /// Does the firmware allow virtualization?
    Firmware,
    /// Put a password into a file that only the user can read.
    KeepPassword(Text),
    /// Take a password's file away.
    ForgetPassword(Text),
    /// How many milliseconds have passed since the Unix epoch?
    UnixTime,
}

/// What the components answer.
pub enum Reply {
    Output(Answer),
    Nothing,
    Flag(bool),
    NewFlag(Arc<AtomicBool>),
    Moment(Instant),
    Clock(TraceClock),
    Millis(Option<u64>),
    Devices(Result<Seq<PhysicalInputDeviceView>, Text>),
    Done(Result<(), Text>),
    Focus(FocusProtectionStatusView),
    Mouse(Result<MouseIntegrationStatusView, Text>),
    Presentation(DisplayPresentationStatusView),
    Iso(IsoInspectionView),
    Content(Result<Text, Text>),
    Detection(DetectionState),
    Password(Result<Text, PasswordFailureView>),
}

/// The runtime of the seats that run in VirtualBox machines.
pub struct VirtualBoxRuntimeService {
    executor: Kept<Box<dyn VBoxManageExecutor>>,
    records: TextMap<RuntimeRecord>,
    focus_protection: Kept<Box<dyn FocusProtectionBackend>>,
    mouse_integration: Kept<Box<dyn MouseIntegrationController>>,
    presentation: Kept<Box<dyn PresentationBackend>>,
    hardware: Option<Kept<Box<dyn HardwareInventory>>>,
    asynchronous_starts: TextMap<bool>,
    start_cancellations: TextMap<Arc<AtomicBool>>,
    journal: Ghost<Seq<Exchange<Request, Reply>>>,
}

/// The state of the service.
#[verifier::ext_equal]
pub struct ServiceView {
    /// What is remembered of the seats.
    pub records: Map<Text, RuntimeRecordView>,
    /// The seats that are being started in the background.
    pub starting: Set<Text>,
    /// The flags that cancel the starts of seats.
    pub cancellations: Map<Text, Arc<AtomicBool>>,
    /// Whether devices are enumerated afresh.
    pub refreshes_hardware: bool,
}

impl Journaled for VirtualBoxRuntimeService {
    type Request = Request;

    type Reply = Reply;

    type State = ServiceView;

    closed spec fn journal(self) -> Seq<Exchange<Request, Reply>> {
        self.journal@
    }

    closed spec fn state(self) -> ServiceView {
        ServiceView {
            records: self.records@.map_values(|record: RuntimeRecord| record@),
            starting: self.asynchronous_starts@.dom(),
            cancellations: self.start_cancellations@,
            refreshes_hardware: self.hardware is Some,
        }
    }

    closed spec fn answers(self) -> Relation<Request, Reply> {
        answers_of(
            self.executor.0.answers(),
            self.executor.0.waits(),
            self.focus_protection.0.answers(),
            self.mouse_integration.0.answers(),
            self.presentation.0.answers(),
            match self.hardware {
                Some(hardware) => Some(hardware.0.answers()),
                None => None,
            },
        )
    }
}

/// Which answers the components of a service may give: each those that it may give itself, and
/// flags and clocks any. Files and firmware are not asked about there.
pub open spec fn answers_of(
    executor: Relation<Seq<Text>, Answer>,
    waits: spec_fn(u64) -> bool,
    focus_protection: Relation<Request, Reply>,
    mouse_integration: Relation<Request, Reply>,
    presentation: Relation<Request, Reply>,
    hardware: Option<Relation<Request, Reply>>,
) -> Relation<Request, Reply> {
    |request: Request, reply: Reply|
        match request {
            Request::Execute(arguments) => reply matches Reply::Output(answer) && executor(
                arguments,
                answer,
            ),
            Request::Wait(milliseconds) => reply is Nothing && waits(milliseconds),
            Request::NewFlag(_) => reply is NewFlag,
            Request::Cancelled(_) => reply is Flag,
            Request::Cancel(_) => reply is Nothing,
            Request::Moment => reply is Moment,
            Request::Clock(_) => reply is Clock,
            Request::Elapsed(_) | Request::UnixTime => reply is Millis,
            Request::Hardware => hardware matches Some(relation) && relation(request, reply),
            Request::FocusStart(..) | Request::FocusLock(_) | Request::FocusStop
            | Request::FocusStatus => focus_protection(request, reply),
            Request::MouseRequest(..) | Request::MouseRestore(_) => mouse_integration(
                request,
                reply,
            ),
            Request::PresentationStart(..) | Request::PresentationLock(_)
            | Request::PresentationUnavailable(..) | Request::PresentationStop
            | Request::PresentationStatus => presentation(request, reply),
            _ => false,
        }
}

/// Which answers may be given where an inventory enumerates the devices.
pub open spec fn enumerating(
    components: Relation<Request, Reply>,
    inventory: Relation<Request, Reply>,
) -> Relation<Request, Reply> {
    |request: Request, reply: Reply|
        if request is Hardware {
            inventory(request, reply)
        } else {
            components(request, reply)
        }
}

/// Whether a request is one about files, or about the firmware.
pub open spec fn of_host(request: Request) -> bool {
    match request {
        Request::IsFile(_) | Request::InspectIso(_) | Request::ReadText(_) | Request::Firmware
        | Request::KeepPassword(_) | Request::ForgetPassword(_) => true,
        _ => false,
    }
}

/// Which answers may be given where a host answers what is asked about files and the firmware.
pub open spec fn answers_with(
    components: Relation<Request, Reply>,
    host: Relation<Request, Reply>,
) -> Relation<Request, Reply> {
    |request: Request, reply: Reply|
        components(request, reply) || (of_host(request) && host(request, reply))
}

/// The world of the service.
pub type Run = World<Request, Reply, ServiceView>;

// ---- What is remembered ----------------------------------------------------------------

/// What is remembered of a seat.
pub open spec fn record_of(w: Run, seat: Text) -> RuntimeRecordView {
    match text_map::lookup(w.state.records, seat) {
        Some(record) => record,
        None => runtime::no_record(),
    }
}

/// Remembers something else of a seat.
pub open spec fn remember(w: Run, seat: Text, record: RuntimeRecordView) -> Run {
    journal::in_state(
        w,
        ServiceView { records: w.state.records.insert(seat, record), ..w.state },
    )
}

/// Notes that something was done for a seat.
pub open spec fn log_p(
    w: Run,
    seat: Text,
    action: Text,
    outcome: Text,
    physical: Option<Text>,
    uuid: Option<Text>,
    detail: Text,
) -> Run {
    let record = record_of(w, seat);
    remember(
        w,
        seat,
        RuntimeRecordView {
            logs: record.logs.push(
                RuntimeLogEntryView {
                    action,
                    outcome,
                    physical_device_id: physical,
                    runtime_uuid: uuid,
                    detail,
                },
            ),
            ..record
        },
    )
}

/// Looks at the clock.
pub open spec fn moment_p(w: Run) -> (Run, Instant) {
    let (w1, reply) = journal::ask(w, Request::Moment);
    (w1, reply->Moment_0)
}

/// The moment at which the start of a seat began. Where none is known, it begins now.
pub open spec fn startup_p(w: Run, seat: Text) -> (Run, Instant) {
    match record_of(w, seat).startup_started {
        Some(started) => (w, started),
        None => moment_p(w),
    }
}

/// Notes a stage of the start of a seat.
pub open spec fn trace_p(
    w: Run,
    seat: Text,
    stage: Text,
    detail: Option<Text>,
    error: Option<Text>,
    duration_ms: Option<u64>,
    exit_status: Option<i32>,
) -> Run {
    let (w0, started) = startup_p(w, seat);
    let (w1, reply) = journal::ask(w0, Request::Clock(started));
    let clock = reply->Clock_0;
    let record = record_of(w1, seat);
    remember(
        w1,
        seat,
        RuntimeRecordView {
            startup_started: Some(started),
            startup_trace: presentation_session::traced(
                record.startup_trace,
                StartupTraceEntryView {
                    stage,
                    timestamp_ms: clock.timestamp_ms,
                    elapsed_ms: clock.elapsed_ms,
                    duration_ms,
                    detail,
                    error,
                    process_id: None,
                    window_handle: None,
                    target_display_id: None,
                    target_bounds: None,
                    exit_status,
                },
            ),
            ..record
        },
    )
}

/// Notes a stage of the start of a seat, and how long it is since a moment.
pub open spec fn timed_trace_p(
    w: Run,
    seat: Text,
    stage: Text,
    started: Instant,
    detail: Option<Text>,
    error: Option<Text>,
    exit_status: Option<i32>,
) -> Run {
    let (w1, reply) = journal::ask(w, Request::Elapsed(started));
    trace_p(w1, seat, stage, detail, error, reply->Millis_0, exit_status)
}

// ---- Talking to VirtualBox -------------------------------------------------------------

/// Text with each of some sensitive values taken out, in turn.
pub open spec fn redacted(text: Text, sensitive: Seq<Text>) -> Text
    decreases sensitive.len(),
{
    if sensitive.len() == 0 {
        text
    } else {
        let earlier = redacted(text, sensitive.drop_last());
        if sensitive.last().len() == 0 {
            earlier
        } else {
            model::replaced(earlier, sensitive.last(), "<redacted>"@)
        }
    }
}

/// Arguments with the sensitive ones taken out.
pub open spec fn redacted_arguments(arguments: Seq<Text>, sensitive: Seq<Text>) -> Seq<Text> {
    arguments.map_values(
        |argument: Text|
            if sensitive.contains(argument) {
                "<redacted>"@
            } else {
                argument
            },
    )
}

/// What is said of a run of `VBoxManage` that failed.
pub open spec fn failure_text(
    arguments: Seq<Text>,
    sensitive: Seq<Text>,
    output: VBoxOutputView,
) -> Text {
    "VBoxManage "@ + quote::quoted_list(redacted_arguments(arguments, sensitive))
        + " failed with exit code "@ + model::exit_code(output.exit_code) + ": "@ + redacted(
        model::trimmed(output.stderr),
        sensitive,
    )
}

/// Runs `VBoxManage`.
pub open spec fn execute_p(w: Run, arguments: Seq<Text>) -> (Run, Answer) {
    let (w1, reply) = journal::ask(w, Request::Execute(arguments));
    (w1, reply->Output_0)
}

/// What an answer means: output where the run succeeded, and else a message without the
/// sensitive values.
pub open spec fn judged(arguments: Seq<Text>, sensitive: Seq<Text>, answer: Answer) -> Answer {
    match answer {
        Err(message) => Err(redacted(message, sensitive)),
        Ok(output) => if output.success {
            Ok(output)
        } else {
            Err(failure_text(arguments, sensitive, output))
        },
    }
}

/// Runs `VBoxManage`, and keeps sensitive arguments out of what is said about a failure.
pub open spec fn checked_redacted_p(w: Run, arguments: Seq<Text>, sensitive: Seq<Text>) -> (
    Run,
    Answer,
) {
    let (w1, answer) = execute_p(w, arguments);
    (w1, judged(arguments, sensitive, answer))
}

/// Runs `VBoxManage`.
pub open spec fn checked_p(w: Run, arguments: Seq<Text>) -> (Run, Answer) {
    checked_redacted_p(w, arguments, seq![])
}

/// Asks VirtualBox to describe a machine.
pub open spec fn inspect_vm_p(w: Run, vm_id: Text) -> (Run, Result<VirtualMachineView, Text>) {
    match checked_p(w, seq!["showvminfo"@, vm_id, "--machinereadable"@]) {
        (w1, Err(message)) => (w1, Err(message)),
        (w1, Ok(output)) => (
            w1,
            Ok(machine_info::described_machine(machine_info::machine_fields(output.stdout), vm_id)),
        ),
    }
}

/// Inspects the machine of one line of a list.
pub open spec fn list_line_p(w: Run, text: Text, list: VirtualMachineListView) -> (
    Run,
    VirtualMachineListView,
) {
    let line = model::trimmed(text);
    if line.len() == 0 {
        (w, list)
    } else {
        match machine_info::vm_list_entry(line) {
            None => (
                w,
                VirtualMachineListView {
                    warnings: list.warnings.push("ignored malformed VM list line: "@ + line),
                    ..list
                },
            ),
            Some((name, uuid)) => match inspect_vm_p(w, uuid) {
                (w1, Ok(vm)) => (
                    w1,
                    VirtualMachineListView {
                        machines: list.machines.push(VirtualMachineView { name, ..vm }),
                        ..list
                    },
                ),
                (w1, Err(error)) => (
                    w1,
                    VirtualMachineListView {
                        warnings: list.warnings.push(
                            "could not inspect VM "@ + uuid + ": "@ + error,
                        ),
                        ..list
                    },
                ),
            },
        }
    }
}

/// Inspects the machines of the first `count` lines of a list.
pub open spec fn list_lines_p(w: Run, lines: Seq<Text>, count: int) -> (
    Run,
    VirtualMachineListView,
)
    decreases count,
{
    if count <= 0 {
        (w, VirtualMachineListView { machines: seq![], warnings: seq![] })
    } else {
        let (w1, list) = list_lines_p(w, lines, count - 1);
        list_line_p(w1, lines[count - 1], list)
    }
}

/// Lists and inspects the machines of the host.
pub open spec fn list_vms_p(w: Run) -> (Run, Result<VirtualMachineListView, Text>) {
    match checked_p(w, seq!["list"@, "vms"@]) {
        (w1, Err(message)) => (w1, Err(message)),
        (w1, Ok(output)) => {
            let lines = model::lines(output.stdout);
            let (w2, list) = list_lines_p(w1, lines, lines.len() as int);
            (w2, Ok(list))
        },
    }
}

/// The status of a VirtualBox that has listed its USB devices.
pub open spec fn listed_usb(output: Text) -> VirtualBoxStatusView {
    let listing = usb::usb_listing(output);
    VirtualBoxStatusView {
        installed: true,
        vbox_manage_path: None,
        version: None,
        operational: true,
        probe_error: None,
        parser_warnings: listing.warnings,
        usb_devices: listing.devices,
    }
}

/// Asks VirtualBox for the USB devices of the host.
pub open spec fn usb_status_p(w: Run) -> (Run, Result<VirtualBoxStatusView, Text>) {
    match checked_p(w, seq!["list"@, "usbhost"@]) {
        (w1, Err(message)) => (w1, Err(message)),
        (w1, Ok(output)) => (w1, Ok(listed_usb(output.stdout))),
    }
}

/// The value in the first line at or after `from` that states one.
pub open spec fn value_from(lines: Seq<Text>, from: int) -> Option<Text>
    decreases lines.len() - from,
{
    if from < 0 || from >= lines.len() {
        None
    } else {
        match model::after_prefix(model::trimmed(lines[from]), "Value:"@) {
            Some(rest) => Some(model::trimmed(rest)),
            None => value_from(lines, from + 1),
        }
    }
}

/// The value that an answer to `getextradata` states.
pub open spec fn extra_data(output: Text) -> Option<Text> {
    match value_from(model::lines(output), 0) {
        Some(value) => if value.len() > 0 {
            Some(value)
        } else {
            None
        },
        None => None,
    }
}

/// Asks for the mouse-capture policy of a machine's window.
pub open spec fn capture_policy_p(w: Run, vm_id: Text) -> (Run, Result<Option<Text>, Text>) {
    match checked_p(w, seq!["getextradata"@, vm_id, "GUI/MouseCapturePolicy"@]) {
        (w1, Err(message)) => (w1, Err(message)),
        (w1, Ok(output)) => (w1, Ok(extra_data(output.stdout))),
    }
}

/// Sets the mouse-capture policy of a machine's window, and makes sure of it.
pub open spec fn set_capture_policy_p(w: Run, vm_id: Text, policy: Text) -> (
    Run,
    Result<(), Text>,
) {
    match checked_p(w, seq!["setextradata"@, vm_id, "GUI/MouseCapturePolicy"@, policy]) {
        (w1, Err(message)) => (w1, Err(message)),
        (w1, Ok(_)) => match capture_policy_p(w1, vm_id) {
            (w2, Err(message)) => (w2, Err(message)),
            (w2, Ok(None)) => (
                w2,
                Err(
                    "VirtualBox did not return GUI/MouseCapturePolicy after setting "@ + policy,
                ),
            ),
            (w2, Ok(Some(observed))) => if model::same_ignoring_case(observed, policy) {
                (w2, Ok(()))
            } else {
                (
                    w2,
                    Err(
                        "VirtualBox GUI/MouseCapturePolicy verification failed: expected "@
                            + policy + ", observed "@ + observed,
                    ),
                )
            },
        },
    }
}

/// Stops where the flag of a start is raised. A start without a flag cannot be cancelled.
pub open spec fn not_cancelled_p(w: Run, flag: Option<Arc<AtomicBool>>) -> (
    Run,
    Result<(), Text>,
) {
    match flag {
        None => (w, Ok(())),
        Some(cancellation) => {
            let (w1, reply) = journal::ask(w, Request::Cancelled(cancellation));
            (
                w1,
                if reply->Flag_0 {
                    Err("managed seat startup was cancelled"@)
                } else {
                    Ok(())
                },
            )
        },
    }
}

/// The flag of a start, where it has one.
pub open spec fn flag_of(cancellation: Option<&Arc<AtomicBool>>) -> Option<Arc<AtomicBool>> {
    match cancellation {
        Some(flag) => Some(*flag),
        None => None,
    }
}

/// Waits until a machine is in a state.
pub open spec fn wait_for_state_p(
    w: Run,
    vm_id: Text,
    desired: Text,
    attempts: nat,
    flag: Option<Arc<AtomicBool>>,
) -> (Run, Result<(), Text>)
    decreases attempts,
{
    if attempts == 0 {
        (w, Err("VM "@ + vm_id + " did not reach state '"@ + desired + "' in time"@))
    } else {
        match not_cancelled_p(w, flag) {
            (w1, Err(message)) => (w1, Err(message)),
            (w1, Ok(())) => match inspect_vm_p(w1, vm_id) {
                (w2, Err(message)) => (w2, Err(message)),
                (w2, Ok(vm)) => if model::same_ignoring_case(vm.state, desired) {
                    (w2, Ok(()))
                } else {
                    let (w3, _) = journal::ask(w2, Request::Wait(500));
                    wait_for_state_p(w3, vm_id, desired, (attempts - 1) as nat, flag)
                },
            },
        }
    }
}

/// The devices that are there now, or those that are given where nothing enumerates them.
pub open spec fn current_devices_p(w: Run, fallback: Seq<PhysicalInputDeviceView>) -> (
    Run,
    Result<Seq<PhysicalInputDeviceView>, Text>,
) {
    if w.state.refreshes_hardware {
        let (w1, reply) = journal::ask(w, Request::Hardware);
        (w1, reply->Devices_0)
    } else {
        (w, Ok(fallback))
    }
}

// ---- Clocks ----------------------------------------------------------------------------

/// `Instant::now`. Nothing is promised of a moment.
pub assume_specification[ Instant::now ]() -> Instant;

/// `Instant::elapsed`. Nothing is promised of the time that has passed.
pub assume_specification[ Instant::elapsed ](moment: &Instant) -> Duration;

/// `Duration::as_millis`. Nothing more is stated than that it gives a number.
pub assume_specification[ Duration::as_millis ](duration: &Duration) -> u128;

/// `SystemTime::elapsed` on the Unix epoch: the time since then, unless the clock stands before
/// it. Nothing is promised of the time.
#[verifier::external_body]
fn since_epoch() -> Option<Duration> {
    std::time::UNIX_EPOCH.elapsed().ok()
}

/// A number of milliseconds, where it is not too large.
pub fn fitting_millis(millis: u128) -> (r: Option<u64>)
    ensures
        r == (if millis <= u64::MAX {
            Some(millis as u64)
        } else {
            None
        }),
{
    if millis <= 0xffff_ffff_ffff_ffff {
        Some(millis as u64)
    } else {
        None
    }
}

/// The time of a step: the clock's, or zero where it is not known, and the time since the start,
/// or the largest there is where it is longer.
pub fn trace_clock(unix_ms: Option<u64>, elapsed_ms: Option<u64>) -> (r: TraceClock)
    ensures
        r.timestamp_ms == (match unix_ms {
            Some(millis) => millis,
            None => 0,
        }),
        r.elapsed_ms == (match elapsed_ms {
            Some(millis) => millis,
            None => u64::MAX,
        }),
{
    TraceClock {
        timestamp_ms: match unix_ms {
            Some(millis) => millis,
            None => 0,
        },
        elapsed_ms: match elapsed_ms {
            Some(millis) => millis,
            None => 0xffff_ffff_ffff_ffff,
        },
    }
}

/// The time since the Unix epoch in milliseconds.
pub(crate) fn unix_millis() -> Option<u64> {
    match since_epoch() {
        Some(duration) => fitting_millis(duration.as_millis()),
        None => None,
    }
}

// ---- Argument lists --------------------------------------------------------------------

pub(crate) fn args2(a: &str, b: &str) -> (r: Vec<String>)
    ensures
        model::texts(r@) == seq![a@, b@],
{
    let v = vec![a.to_owned(), b.to_owned()];
    assert(model::texts(v@) =~= seq![a@, b@]);
    v
}

pub(crate) fn args3(a: &str, b: &str, c: &str) -> (r: Vec<String>)
    ensures
        model::texts(r@) == seq![a@, b@, c@],
{
    let v = vec![a.to_owned(), b.to_owned(), c.to_owned()];
    assert(model::texts(v@) =~= seq![a@, b@, c@]);
    v
}

pub(crate) fn args4(a: &str, b: &str, c: &str, d: &str) -> (r: Vec<String>)
    ensures
        model::texts(r@) == seq![a@, b@, c@, d@],
{
    let v = vec![a.to_owned(), b.to_owned(), c.to_owned(), d.to_owned()];
    assert(model::texts(v@) =~= seq![a@, b@, c@, d@]);
    v
}

fn text_among(text: &str, values: &Vec<String>) -> (r: bool)
    ensures
        r == model::texts(values@).contains(text@),
{
    let ghost all = model::texts(values@);
    let mut i: usize = 0;
    while i < values.len()
        invariant
            i <= values@.len(),
            all == model::texts(values@),
            forall|k: int| 0 <= k < i ==> #[trigger] all[k] != text@,
        decreases values.len() - i,
    {
        assert(all[i as int] == values@[i as int]@);
        if same(values[i].as_str(), text) {
            return true;
        }
        i += 1;
    }
    false
}

fn redact(text: String, sensitive: &Vec<String>) -> (r: String)
    ensures
        r@ == redacted(text@, model::texts(sensitive@)),
{
    let ghost all = model::texts(sensitive@);
    let ghost start = text@;
    let mut clean = text;
    let mut i: usize = 0;
    assert(all.take(0) =~= Seq::<Text>::empty());
    while i < sensitive.len()
        invariant
            i <= sensitive@.len(),
            all == model::texts(sensitive@),
            clean@ == redacted(start, all.take(i as int)),
        decreases sensitive.len() - i,
    {
        proof {
            assert(all.take(i + 1).drop_last() =~= all.take(i as int));
            assert(all.take(i + 1).last() == sensitive@[i as int]@);
        }
        if !sensitive[i].as_str().is_empty() {
            clean = replace(clean.as_str(), sensitive[i].as_str(), "<redacted>");
        }
        i += 1;
    }
    assert(all.take(i as int) =~= all);
    clean
}

fn redact_arguments(arguments: &Vec<String>, sensitive: &Vec<String>) -> (r: Vec<String>)
    ensures
        model::texts(r@) == redacted_arguments(model::texts(arguments@), model::texts(sensitive@)),
{
    let ghost wanted = redacted_arguments(model::texts(arguments@), model::texts(sensitive@));
    let mut shown: Vec<String> = Vec::new();
    let mut i: usize = 0;
    while i < arguments.len()
        invariant
            i <= arguments@.len(),
            wanted == redacted_arguments(model::texts(arguments@), model::texts(sensitive@)),
            model::texts(shown@) == wanted.take(i as int),
        decreases arguments.len() - i,
    {
        let ghost before = shown@;
        let argument = arguments[i].as_str();
        let text = if text_among(argument, sensitive) {
            "<redacted>".to_owned()
        } else {
            argument.to_owned()
        };
        shown.push(text);
        proof {
            assert(wanted[i as int] == text@);
            assert(model::texts(shown@) =~= model::texts(before).push(text@));
            assert(wanted.take(i + 1) =~= wanted.take(i as int).push(wanted[i as int]));
        }
        i += 1;
    }
    assert(wanted.take(i as int) =~= wanted);
    shown
}

fn policy_in(output: &str) -> (r: Option<String>)
    ensures
        model::opt_text(r) == extra_data(output@),
{
    let lines = lines_of(output);
    let ghost all = model::texts(lines@);
    let mut i: usize = 0;
    while i < lines.len()
        invariant
            i <= lines@.len(),
            all == model::texts(lines@),
            value_from(all, 0) == value_from(all, i as int),
            all == model::lines(output@),
        decreases lines.len() - i,
    {
        assert(all[i as int] == lines@[i as int]@);
        let line = trim(lines[i].as_str());
        if let Some(rest) = strip_start(line.as_str(), "Value:") {
            let value = trim(rest.as_str());
            return if value.as_str().is_empty() {
                None
            } else {
                Some(value)
            };
        }
        i += 1;
    }
    None
}

/// The view of a machine, or of why it could not be inspected.
pub open spec fn machine_result(r: Result<VirtualMachine, String>) -> Result<
    VirtualMachineView,
    Text,
> {
    match r {
        Ok(vm) => Ok(vm@),
        Err(message) => Err(message@),
    }
}

/// The view of a list of machines, or of why there is none.
pub open spec fn list_result(r: Result<VirtualMachineList, String>) -> Result<
    VirtualMachineListView,
    Text,
> {
    match r {
        Ok(list) => Ok(list@),
        Err(message) => Err(message@),
    }
}

/// The view of a VirtualBox status, or of why there is none.
pub open spec fn usb_result(r: Result<VirtualBoxStatus, String>) -> Result<
    VirtualBoxStatusView,
    Text,
> {
    match r {
        Ok(status) => Ok(status@),
        Err(message) => Err(message@),
    }
}

/// The view of an optional text, or of why there is none.
pub open spec fn opt_text_result(r: Result<Option<String>, String>) -> Result<Option<Text>, Text> {
    match r {
        Ok(value) => Ok(model::opt_text(value)),
        Err(message) => Err(message@),
    }
}

/// The view of a list of devices, or of why there is none.
pub open spec fn devices_result(r: Result<Vec<PhysicalInputDevice>, String>) -> Result<
    Seq<PhysicalInputDeviceView>,
    Text,
> {
    match r {
        Ok(devices) => Ok(duplicate::views(devices@)),
        Err(message) => Err(message@),
    }
}

impl VirtualBoxRuntimeService {
    /// Whether this is the executor that the service asks.
    pub closed spec fn asks(self, executor: &Box<dyn VBoxManageExecutor>) -> bool {
        &self.executor.0 == executor
    }

    /// Whether this is what protects focus for the service.
    pub closed spec fn guards_with(self, backend: &Box<dyn FocusProtectionBackend>) -> bool {
        &self.focus_protection.0 == backend
    }

    /// Whether this is what switches mouse integration for the service.
    pub closed spec fn points_with(self, backend: &Box<dyn MouseIntegrationController>) -> bool {
        &self.mouse_integration.0 == backend
    }

    /// Whether this is what shows windows for the service.
    pub closed spec fn presents_with(self, backend: &Box<dyn PresentationBackend>) -> bool {
        &self.presentation.0 == backend
    }

    /// Which answers the components that protect focus, switch mouse integration and show windows
    /// may give as they are now.
    pub closed spec fn answers_now(self) -> (
        Relation<Request, Reply>,
        Relation<Request, Reply>,
        Relation<Request, Reply>,
    ) {
        (
            self.focus_protection.0.answers_now(),
            self.mouse_integration.0.answers_now(),
            self.presentation.0.answers_now(),
        )
    }

    /// Whether this is the inventory from which the service enumerates devices.
    pub closed spec fn enumerates_with(self, inventory: &Box<dyn HardwareInventory>) -> bool {
        self.hardware matches Some(hardware) && &hardware.0 == inventory
    }

    /// A service with simulated components around an executor.
    pub fn new(executor: Box<dyn VBoxManageExecutor>) -> (r: Self)
        ensures
            r.asks(&executor),
            r.answers() == answers_of(
                executor.answers(),
                executor.waits(),
                focus_protection::simulated_answers(),
                mouse_integration::simulated_answers(),
                presentation::simulated_answers(),
                None,
            ),
            r.answers_now() == (
                focus_protection::simulated_answers_at(focus_protection::no_protection()),
                mouse_integration::simulated_answers_at(mouse_integration::no_mice()),
                presentation::simulated_answers_at(presentation::no_presentation()),
            ),
            r.journal() == Seq::<Exchange<Request, Reply>>::empty(),
            r.state() == (ServiceView {
                records: Map::empty(),
                starting: Set::empty(),
                cancellations: Map::empty(),
                refreshes_hardware: false,
            }),
    {
        let simulated_focus = Box::new(SimulatedFocusProtection::default());
        let simulated_mice = simulated_backend();
        let simulated_presentation = Box::new(SimulatedPresentation::default());
        assert(simulated_focus.answers() == focus_protection::simulated_answers());
        assert(simulated_mice.answers() == mouse_integration::simulated_answers());
        assert(simulated_presentation.answers() == presentation::simulated_answers());
        assert(simulated_focus.answers_now() == focus_protection::simulated_answers_at(
            focus_protection::no_protection(),
        ));
        assert(simulated_mice.answers_now() == mouse_integration::simulated_answers_at(
            mouse_integration::no_mice(),
        ));
        assert(simulated_presentation.answers_now() == presentation::simulated_answers_at(
            presentation::no_presentation(),
        ));
        let focus: Box<dyn FocusProtectionBackend> = simulated_focus;
        let mice: Box<dyn MouseIntegrationController> = simulated_mice;
        let presenting: Box<dyn PresentationBackend> = simulated_presentation;
        let executor = Kept(executor);
        let focus = Kept(focus);
        let mice = Kept(mice);
        let presenting = Kept(presenting);
        Self::around(executor, focus, mice, presenting)
    }

    /// A service around its components.
    pub fn with_components(
        executor: Box<dyn VBoxManageExecutor>,
        focus_protection: Box<dyn FocusProtectionBackend>,
        mouse_integration: Box<dyn MouseIntegrationController>,
        presentation: Box<dyn PresentationBackend>,
    ) -> (r: Self)
        ensures
            r.asks(&executor),
            r.guards_with(&focus_protection),
            r.points_with(&mouse_integration),
            r.presents_with(&presentation),
            r.answers() == answers_of(
                executor.answers(),
                executor.waits(),
                focus_protection.answers(),
                mouse_integration.answers(),
                presentation.answers(),
                None,
            ),
            r.answers_now() == (
                focus_protection.answers_now(),
                mouse_integration.answers_now(),
                presentation.answers_now(),
            ),
            r.journal() == Seq::<Exchange<Request, Reply>>::empty(),
            r.state() == (ServiceView {
                records: Map::empty(),
                starting: Set::empty(),
                cancellations: Map::empty(),
                refreshes_hardware: false,
            }),
    {
        let executor = Kept(executor);
        let focus_protection = Kept(focus_protection);
        let mouse_integration = Kept(mouse_integration);
        let presentation = Kept(presentation);
        Self::around(executor, focus_protection, mouse_integration, presentation)
    }

    fn around(
        executor: Kept<Box<dyn VBoxManageExecutor>>,
        focus_protection: Kept<Box<dyn FocusProtectionBackend>>,
        mouse_integration: Kept<Box<dyn MouseIntegrationController>>,
        presentation: Kept<Box<dyn PresentationBackend>>,
    ) -> (r: Self)
        ensures
            r.asks(&executor.0),
            r.guards_with(&focus_protection.0),
            r.points_with(&mouse_integration.0),
            r.presents_with(&presentation.0),
            r.answers() == answers_of(
                executor.0.answers(),
                executor.0.waits(),
                focus_protection.0.answers(),
                mouse_integration.0.answers(),
                presentation.0.answers(),
                None,
            ),
            r.answers_now() == (
                focus_protection.0.answers_now(),
                mouse_integration.0.answers_now(),
                presentation.0.answers_now(),
            ),
            r.journal() == Seq::<Exchange<Request, Reply>>::empty(),
            r.state() == (ServiceView {
                records: Map::empty(),
                starting: Set::empty(),
                cancellations: Map::empty(),
                refreshes_hardware: false,
            }),
    {
        let service = VirtualBoxRuntimeService {
            executor,
            records: TextMap::new(),
            focus_protection,
            mouse_integration,
            presentation,
            hardware: None,
            asynchronous_starts: TextMap::new(),
            start_cancellations: TextMap::new(),
            journal: Ghost(Seq::empty()),
        };
        assert(service.state().records =~= Map::<Text, RuntimeRecordView>::empty());
        assert(service.state().starting =~= Set::<Text>::empty());
        assert(service.state().cancellations =~= Map::<Text, Arc<AtomicBool>>::empty());
        service
    }

    /// The service with an inventory from which devices are enumerated afresh.
    pub fn refreshing_hardware(self, hardware: Box<dyn HardwareInventory>) -> (r: Self)
        ensures
            r.enumerates_with(&hardware),
            r.answers() == enumerating(self.answers(), hardware.answers()),
            r.journal() == self.journal(),
            r.state() == (ServiceView { refreshes_hardware: true, ..self.state() }),
    {
        let ghost inventory = hardware.answers();
        let kept = Kept(hardware);
        let mut service = self;
        service.hardware = Some(kept);
        assert(service.answers() =~= enumerating(self.answers(), inventory));
        service
    }

    pub(crate) fn execute(&mut self, arguments: &Vec<String>) -> (r: Result<VBoxOutput, String>)
        ensures
            journal::runs(
                *old(self),
                *final(self),
                |w: Run|
                    {
                        let (after, reply) = journal::ask(w, Request::Execute(model::texts(arguments@)));
                        (after, reply->Output_0)
                    },
                executor::answer_view(r),
            ),
    {
        let ghost before = *self;
        let ghost request = Request::Execute(model::texts(arguments@));
        let r = self.executor.0.execute(arguments.as_slice());
        let ghost reply = Reply::Output(executor::answer_view(r));
        self.journal = Ghost(self.journal@.push(Exchange { request, reply }));
        proof {
            journal::lemma_asked(before, *self, request, reply, before.answers());
        }
        r
    }

    pub(crate) fn wait(&mut self, milliseconds: u64)
        ensures
            journal::runs(
                *old(self),
                *final(self),
                |w: Run| (journal::ask(w, Request::Wait(milliseconds)).0, ()),
                (),
            ),
    {
        let ghost before = *self;
        let ghost request = Request::Wait(milliseconds);
        self.executor.0.wait(milliseconds);
        let ghost reply = Reply::Nothing;
        self.journal = Ghost(self.journal@.push(Exchange { request, reply }));
        proof {
            journal::lemma_asked(before, *self, request, reply, before.answers());
        }
    }

    /// Makes a flag.
    pub(crate) fn new_flag(&mut self, raised: bool) -> (r: Arc<AtomicBool>)
        ensures
            journal::runs(
                *old(self),
                *final(self),
                |w: Run|
                    {
                        let (after, reply) = journal::ask(w, Request::NewFlag(raised));
                        (after, reply->NewFlag_0)
                    },
                r,
            ),
    {
        let ghost before = *self;
        let ghost request = Request::NewFlag(raised);
        let r = Arc::new(AtomicBool::new(raised));
        let ghost reply = Reply::NewFlag(r);
        self.journal = Ghost(self.journal@.push(Exchange { request, reply }));
        proof {
            journal::lemma_asked(before, *self, request, reply, before.answers());
        }
        r
    }

    pub(crate) fn cancelled(&mut self, cancellation: &Arc<AtomicBool>) -> (r: bool)
        ensures
            journal::runs(
                *old(self),
                *final(self),
                |w: Run|
                    {
                        let (after, reply) = journal::ask(w, Request::Cancelled(*cancellation));
                        (after, reply->Flag_0)
                    },
                r,
            ),
    {
        let ghost before = *self;
        let ghost request = Request::Cancelled(*cancellation);
        let r = cancellation.load(Ordering::Acquire);
        let ghost reply = Reply::Flag(r);
        self.journal = Ghost(self.journal@.push(Exchange { request, reply }));
        proof {
            journal::lemma_asked(before, *self, request, reply, before.answers());
        }
        r
    }

    /// The present moment.
    pub(crate) fn moment(&mut self) -> (r: Instant)
        ensures
            journal::runs(*old(self), *final(self), |w: Run| moment_p(w), r),
    {
        let ghost before = *self;
        let ghost request = Request::Moment;
        let r = Instant::now();
        let ghost reply = Reply::Moment(r);
        self.journal = Ghost(self.journal@.push(Exchange { request, reply }));
        proof {
            journal::lemma_asked(before, *self, request, reply, before.answers());
        }
        r
    }

    pub(crate) fn clock(&mut self, started: Instant) -> (r: TraceClock)
        ensures
            journal::runs(
                *old(self),
                *final(self),
                |w: Run|
                    {
                        let (after, reply) = journal::ask(w, Request::Clock(started));
                        (after, reply->Clock_0)
                    },
                r,
            ),
    {
        let ghost before = *self;
        let ghost request = Request::Clock(started);
        let r = trace_clock(unix_millis(), fitting_millis(started.elapsed().as_millis()));
        let ghost reply = Reply::Clock(r);
        self.journal = Ghost(self.journal@.push(Exchange { request, reply }));
        proof {
            journal::lemma_asked(before, *self, request, reply, before.answers());
        }
        r
    }

    pub(crate) fn elapsed(&mut self, started: Instant) -> (r: Option<u64>)
        ensures
            journal::runs(
                *old(self),
                *final(self),
                |w: Run|
                    {
                        let (after, reply) = journal::ask(w, Request::Elapsed(started));
                        (after, reply->Millis_0)
                    },
                r,
            ),
    {
        let ghost before = *self;
        let ghost request = Request::Elapsed(started);
        let r = fitting_millis(started.elapsed().as_millis());
        let ghost reply = Reply::Millis(r);
        self.journal = Ghost(self.journal@.push(Exchange { request, reply }));
        proof {
            journal::lemma_asked(before, *self, request, reply, before.answers());
        }
        r
    }

    pub(crate) fn focus_start(&mut self, target: ManagedVmWindowIdentity, anchor: Option<isize>) -> (r: Result<(), String>)
        ensures
            journal::runs(
                *old(self),
                *final(self),
                |w: Run|
                    {
                        let (after, reply) = journal::ask(w, Request::FocusStart(target@, anchor));
                        (after, reply->Done_0)
                    },
                model::with_message(r),
            ),
    {
        let ghost before = *self;
        let ghost request = Request::FocusStart(target@, anchor);
        let r = self.focus_protection.0.start(target, anchor);
        let ghost reply = Reply::Done(model::with_message(r));
        self.journal = Ghost(self.journal@.push(Exchange { request, reply }));
        proof {
            journal::lemma_asked(before, *self, request, reply, before.answers());
        }
        r
    }

    pub(crate) fn focus_lock(&mut self, locked: bool) -> (r: Result<(), String>)
        ensures
            journal::runs(
                *old(self),
                *final(self),
                |w: Run|
                    {
                        let (after, reply) = journal::ask(w, Request::FocusLock(locked));
                        (after, reply->Done_0)
                    },
                model::with_message(r),
            ),
    {
        let ghost before = *self;
        let ghost request = Request::FocusLock(locked);
        let r = self.focus_protection.0.set_locked(locked);
        let ghost reply = Reply::Done(model::with_message(r));
        self.journal = Ghost(self.journal@.push(Exchange { request, reply }));
        proof {
            journal::lemma_asked(before, *self, request, reply, before.answers());
        }
        r
    }

    pub(crate) fn focus_stop(&mut self) -> (r: Result<(), String>)
        ensures
            journal::runs(
                *old(self),
                *final(self),
                |w: Run|
                    {
                        let (after, reply) = journal::ask(w, Request::FocusStop);
                        (after, reply->Done_0)
                    },
                model::with_message(r),
            ),
    {
        let ghost before = *self;
        let ghost request = Request::FocusStop;
        let r = self.focus_protection.0.stop();
        let ghost reply = Reply::Done(model::with_message(r));
        self.journal = Ghost(self.journal@.push(Exchange { request, reply }));
        proof {
            journal::lemma_asked(before, *self, request, reply, before.answers());
        }
        r
    }

    pub(crate) fn focus_status(&mut self) -> (r: FocusProtectionStatus)
        ensures
            journal::runs(
                *old(self),
                *final(self),
                |w: Run|
                    {
                        let (after, reply) = journal::ask(w, Request::FocusStatus);
                        (after, reply->Focus_0)
                    },
                r@,
            ),
    {
        let ghost before = *self;
        let ghost request = Request::FocusStatus;
        let r = self.focus_protection.0.status();
        let ghost reply = Reply::Focus(r@);
        self.journal = Ghost(self.journal@.push(Exchange { request, reply }));
        proof {
            journal::lemma_asked(before, *self, request, reply, before.answers());
        }
        r
    }

    pub(crate) fn mouse_request(&mut self, vm_id: &str, desired: MouseIntegrationState) -> (r: Result<MouseIntegrationStatus, String>)
        ensures
            journal::runs(
                *old(self),
                *final(self),
                |w: Run|
                    {
                        let (after, reply) = journal::ask(w, Request::MouseRequest(vm_id@, desired));
                        (after, reply->Mouse_0)
                    },
                mouse_result(r),
            ),
    {
        let ghost before = *self;
        let ghost request = Request::MouseRequest(vm_id@, desired);
        let r = self.mouse_integration.0.request(vm_id, desired);
        let ghost reply = Reply::Mouse(mouse_result(r));
        self.journal = Ghost(self.journal@.push(Exchange { request, reply }));
        proof {
            journal::lemma_asked(before, *self, request, reply, before.answers());
        }
        r
    }

    pub(crate) fn mouse_restore(&mut self, vm_id: &str) -> (r: Result<MouseIntegrationStatus, String>)
        ensures
            journal::runs(
                *old(self),
                *final(self),
                |w: Run|
                    {
                        let (after, reply) = journal::ask(w, Request::MouseRestore(vm_id@));
                        (after, reply->Mouse_0)
                    },
                mouse_result(r),
            ),
    {
        let ghost before = *self;
        let ghost request = Request::MouseRestore(vm_id@);
        let r = self.mouse_integration.0.restore_if_owned(vm_id);
        let ghost reply = Reply::Mouse(mouse_result(r));
        self.journal = Ghost(self.journal@.push(Exchange { request, reply }));
        proof {
            journal::lemma_asked(before, *self, request, reply, before.answers());
        }
        r
    }

    pub(crate) fn presentation_start(&mut self, target: ManagedVmWindowIdentity, display: String) -> (r: Result<(), String>)
        ensures
            journal::runs(
                *old(self),
                *final(self),
                |w: Run|
                    {
                        let (after, reply) = journal::ask(w, Request::PresentationStart(target@, display@));
                        (after, reply->Done_0)
                    },
                model::with_message(r),
            ),
    {
        let ghost before = *self;
        let ghost request = Request::PresentationStart(target@, display@);
        let r = self.presentation.0.start(target, display);
        let ghost reply = Reply::Done(model::with_message(r));
        self.journal = Ghost(self.journal@.push(Exchange { request, reply }));
        proof {
            journal::lemma_asked(before, *self, request, reply, before.answers());
        }
        r
    }

    pub(crate) fn presentation_lock(&mut self, locked: bool) -> (r: Result<(), String>)
        ensures
            journal::runs(
                *old(self),
                *final(self),
                |w: Run|
                    {
                        let (after, reply) = journal::ask(w, Request::PresentationLock(locked));
                        (after, reply->Done_0)
                    },
                model::with_message(r),
            ),
    {
        let ghost before = *self;
        let ghost request = Request::PresentationLock(locked);
        let r = self.presentation.0.set_locked(locked);
        let ghost reply = Reply::Done(model::with_message(r));
        self.journal = Ghost(self.journal@.push(Exchange { request, reply }));
        proof {
            journal::lemma_asked(before, *self, request, reply, before.answers());
        }
        r
    }

    pub(crate) fn presentation_unavailable(&mut self, display: Option<String>, message: String) -> (r: Result<(), String>)
        ensures
            journal::runs(
                *old(self),
                *final(self),
                |w: Run|
                    {
                        let (after, reply) = journal::ask(w, Request::PresentationUnavailable(model::opt_text(display), message@));
                        (after, reply->Done_0)
                    },
                model::with_message(r),
            ),
    {
        let ghost before = *self;
        let ghost request = Request::PresentationUnavailable(model::opt_text(display), message@);
        let r = self.presentation.0.mark_unavailable(display, message);
        let ghost reply = Reply::Done(model::with_message(r));
        self.journal = Ghost(self.journal@.push(Exchange { request, reply }));
        proof {
            journal::lemma_asked(before, *self, request, reply, before.answers());
        }
        r
    }

    pub(crate) fn presentation_stop(&mut self) -> (r: Result<(), String>)
        ensures
            journal::runs(
                *old(self),
                *final(self),
                |w: Run|
                    {
                        let (after, reply) = journal::ask(w, Request::PresentationStop);
                        (after, reply->Done_0)
                    },
                model::with_message(r),
            ),
    {
        let ghost before = *self;
        let ghost request = Request::PresentationStop;
        let r = self.presentation.0.stop();
        let ghost reply = Reply::Done(model::with_message(r));
        self.journal = Ghost(self.journal@.push(Exchange { request, reply }));
        proof {
            journal::lemma_asked(before, *self, request, reply, before.answers());
        }
        r
    }

    pub(crate) fn presentation_status(&mut self) -> (r: DisplayPresentationStatus)
        ensures
            journal::runs(
                *old(self),
                *final(self),
                |w: Run|
                    {
                        let (after, reply) = journal::ask(w, Request::PresentationStatus);
                        (after, reply->Presentation_0)
                    },
                r@,
            ),
    {
        let ghost before = *self;
        let ghost request = Request::PresentationStatus;
        let r = self.presentation.0.status();
        let ghost reply = Reply::Presentation(r@);
        self.journal = Ghost(self.journal@.push(Exchange { request, reply }));
        proof {
            journal::lemma_asked(before, *self, request, reply, before.answers());
        }
        r
    }


    pub(crate) fn unix_time(&mut self) -> (r: Option<u64>)
        ensures
            journal::runs(
                *old(self),
                *final(self),
                |w: Run|
                    {
                        let (after, reply) = journal::ask(w, Request::UnixTime);
                        (after, reply->Millis_0)
                    },
                r,
            ),
    {
        let ghost before = *self;
        let ghost request = Request::UnixTime;
        let r = unix_millis();
        let ghost reply = Reply::Millis(r);
        self.journal = Ghost(self.journal@.push(Exchange { request, reply }));
        proof {
            journal::lemma_asked(before, *self, request, reply, before.answers());
        }
        r
    }

    pub(crate) fn is_file<H: InstallationHost>(&mut self, host: &mut H, path: &str) -> (r: bool)
        ensures
            final(host).answers() == old(host).answers(),
            journal::runs_with(
                *old(self),
                *final(self),
                answers_with(old(self).answers(), old(host).answers()),
                |w: Run|
                    {
                        let (after, reply) = journal::ask(w, Request::IsFile(path@));
                        (after, reply->Flag_0)
                    },
                r,
            ),
    {
        let ghost before = *self;
        let ghost answers = answers_with(before.answers(), host.answers());
        let ghost request = Request::IsFile(path@);
        let r = host.is_file(path);
        let ghost reply = Reply::Flag(r);
        self.journal = Ghost(self.journal@.push(Exchange { request, reply }));
        proof {
            journal::lemma_asked(before, *self, request, reply, answers);
        }
        r
    }

    pub(crate) fn inspect_iso<H: InstallationHost>(&mut self, host: &mut H, path: &str) -> (r: IsoInspection)
        ensures
            final(host).answers() == old(host).answers(),
            journal::runs_with(
                *old(self),
                *final(self),
                answers_with(old(self).answers(), old(host).answers()),
                |w: Run|
                    {
                        let (after, reply) = journal::ask(w, Request::InspectIso(path@));
                        (after, reply->Iso_0)
                    },
                r@,
            ),
    {
        let ghost before = *self;
        let ghost answers = answers_with(before.answers(), host.answers());
        let ghost request = Request::InspectIso(path@);
        let r = host.inspect_iso(path);
        let ghost reply = Reply::Iso(r@);
        self.journal = Ghost(self.journal@.push(Exchange { request, reply }));
        proof {
            journal::lemma_asked(before, *self, request, reply, answers);
        }
        r
    }

    pub(crate) fn read_text<H: InstallationHost>(&mut self, host: &mut H, path: &str) -> (r: Result<String, String>)
        ensures
            final(host).answers() == old(host).answers(),
            journal::runs_with(
                *old(self),
                *final(self),
                answers_with(old(self).answers(), old(host).answers()),
                |w: Run|
                    {
                        let (after, reply) = journal::ask(w, Request::ReadText(path@));
                        (after, reply->Content_0)
                    },
                model::text_result(r),
            ),
    {
        let ghost before = *self;
        let ghost answers = answers_with(before.answers(), host.answers());
        let ghost request = Request::ReadText(path@);
        let r = host.read_text(path);
        let ghost reply = Reply::Content(model::text_result(r));
        self.journal = Ghost(self.journal@.push(Exchange { request, reply }));
        proof {
            journal::lemma_asked(before, *self, request, reply, answers);
        }
        r
    }

    pub(crate) fn firmware<H: InstallationHost>(&mut self, host: &mut H) -> (r: DetectionState)
        ensures
            final(host).answers() == old(host).answers(),
            journal::runs_with(
                *old(self),
                *final(self),
                answers_with(old(self).answers(), old(host).answers()),
                |w: Run|
                    {
                        let (after, reply) = journal::ask(w, Request::Firmware);
                        (after, reply->Detection_0)
                    },
                r,
            ),
    {
        let ghost before = *self;
        let ghost answers = answers_with(before.answers(), host.answers());
        let ghost request = Request::Firmware;
        let r = host.firmware_virtualization();
        let ghost reply = Reply::Detection(r);
        self.journal = Ghost(self.journal@.push(Exchange { request, reply }));
        proof {
            journal::lemma_asked(before, *self, request, reply, answers);
        }
        r
    }

    pub(crate) fn keep_password<H: InstallationHost>(&mut self, host: &mut H, password: &str) -> (r: Result<String, PasswordFailure>)
        ensures
            final(host).answers() == old(host).answers(),
            journal::runs_with(
                *old(self),
                *final(self),
                answers_with(old(self).answers(), old(host).answers()),
                |w: Run|
                    {
                        let (after, reply) = journal::ask(w, Request::KeepPassword(password@));
                        (after, reply->Password_0)
                    },
                installation::password_result(r),
            ),
    {
        let ghost before = *self;
        let ghost answers = answers_with(before.answers(), host.answers());
        let ghost request = Request::KeepPassword(password@);
        let r = host.keep_password(password);
        let ghost reply = Reply::Password(installation::password_result(r));
        self.journal = Ghost(self.journal@.push(Exchange { request, reply }));
        proof {
            journal::lemma_asked(before, *self, request, reply, answers);
        }
        r
    }

    pub(crate) fn forget_password<H: InstallationHost>(&mut self, host: &mut H, path: &str)
        ensures
            final(host).answers() == old(host).answers(),
            journal::runs_with(
                *old(self),
                *final(self),
                answers_with(old(self).answers(), old(host).answers()),
                |w: Run| (journal::ask(w, Request::ForgetPassword(path@)).0, ()),
                (),
            ),
    {
        let ghost before = *self;
        let ghost answers = answers_with(before.answers(), host.answers());
        let ghost request = Request::ForgetPassword(path@);
        host.forget_password(path);
        let ghost reply = Reply::Nothing;
        self.journal = Ghost(self.journal@.push(Exchange { request, reply }));
        proof {
            journal::lemma_asked(before, *self, request, reply, answers);
        }
    }


    /// The devices that are there now, or those that are given where nothing enumerates them.
    pub(crate) fn current_devices(&mut self, fallback: &[PhysicalInputDevice]) -> (r: Result<
        Vec<PhysicalInputDevice>,
        String,
    >)
        ensures
            journal::runs(
                *old(self),
                *final(self),
                |w: Run| current_devices_p(w, duplicate::views(fallback@)),
                devices_result(r),
            ),
    {
        let ghost before = *self;
        match &mut self.hardware {
            None => Ok(duplicate::duplicate_slice(fallback)),
            Some(hardware) => {
                let r = hardware.0.input_devices();
                let ghost request = Request::Hardware;
                let ghost reply = Reply::Devices(devices_result(r));
                self.journal = Ghost(self.journal@.push(Exchange { request, reply }));
                proof {
                    journal::lemma_asked(before, *self, request, reply, before.answers());
                }
                r
            },
        }
    }

    pub(crate) fn is_starting(&self, seat_id: &SeatId) -> (r: bool)
        ensures
            r == self.state().starting.contains(seat_id@),
    {
        self.asynchronous_starts.contains_key(seat_id.0.as_str())
    }

    pub(crate) fn note_start(&mut self, seat_id: &SeatId, cancellation: Arc<AtomicBool>)
        ensures
            final(self).journal() == old(self).journal(),
            final(self).answers() == old(self).answers(),
            final(self).state() == (ServiceView {
                starting: old(self).state().starting.insert(seat_id@),
                cancellations: old(self).state().cancellations.insert(seat_id@, cancellation),
                ..old(self).state()
            }),
    {
        self.asynchronous_starts.insert(seat_id.0.as_str(), true);
        self.start_cancellations.insert(seat_id.0.as_str(), cancellation);
        assert(self.state().starting =~= old(self).state().starting.insert(seat_id@));
    }

    pub(crate) fn forget_start(&mut self, seat_id: &SeatId)
        ensures
            final(self).journal() == old(self).journal(),
            final(self).answers() == old(self).answers(),
            final(self).state() == (ServiceView {
                starting: old(self).state().starting.remove(seat_id@),
                cancellations: old(self).state().cancellations.remove(seat_id@),
                ..old(self).state()
            }),
    {
        self.asynchronous_starts.remove(seat_id.0.as_str());
        self.start_cancellations.remove(seat_id.0.as_str());
        assert(self.state().starting =~= old(self).state().starting.remove(seat_id@));
    }

    /// Raises the flag that cancels the start of a seat, where there is one.
    pub(crate) fn raise_cancellation(&mut self, seat_id: &SeatId)
        ensures
            journal::runs(
                *old(self),
                *final(self),
                |w: Run|
                    (
                        match text_map::lookup(w.state.cancellations, seat_id@) {
                            Some(flag) => journal::ask(w, Request::Cancel(flag)).0,
                            None => w,
                        },
                        (),
                    ),
                (),
            ),
    {
        let ghost before = *self;
        if let Some(cancellation) = self.start_cancellations.get(seat_id.0.as_str()) {
            cancellation.store(true, Ordering::Release);
            let ghost request = Request::Cancel(*cancellation);
            let ghost reply = Reply::Nothing;
            self.journal = Ghost(self.journal@.push(Exchange { request, reply }));
            proof {
                journal::lemma_asked(before, *self, request, reply, before.answers());
            }
        }
    }

    /// What is remembered of a seat.
    pub fn record(&self, seat_id: &SeatId) -> (r: RuntimeRecord)
        ensures
            r@ == (match text_map::lookup(self.state().records, seat_id@) {
                Some(record) => record,
                None => runtime::no_record(),
            }),
    {
        match self.records.get(seat_id.0.as_str()) {
            Some(record) => record.duplicate(),
            None => RuntimeRecord::default(),
        }
    }

    pub(crate) fn replace_record(&mut self, seat_id: &SeatId, record: RuntimeRecord)
        ensures
            final(self).journal() == old(self).journal(),
            final(self).answers() == old(self).answers(),
            final(self).state() == (ServiceView {
                records: old(self).state().records.insert(seat_id@, record@),
                ..old(self).state()
            }),
    {
        self.records.insert(seat_id.0.as_str(), record);
        assert(self.state().records =~= old(self).state().records.insert(seat_id@, record@));
    }

    pub(crate) fn log(
        &mut self,
        seat_id: &SeatId,
        action: &str,
        outcome: &str,
        physical: Option<&str>,
        uuid: Option<&str>,
        detail: &str,
    )
        ensures
            journal::runs(
                *old(self),
                *final(self),
                |w: Run|
                    (
                        log_p(
                            w,
                            seat_id@,
                            action@,
                            outcome@,
                            model::opt_str(physical),
                            model::opt_str(uuid),
                            detail@,
                        ),
                        (),
                    ),
                (),
            ),
    {
        let mut record = self.record(seat_id);
        let ghost logs = record@.logs;
        let entry = RuntimeLogEntry {
            action: action.to_owned(),
            outcome: outcome.to_owned(),
            physical_device_id: own_opt(physical),
            runtime_uuid: own_opt(uuid),
            detail: detail.to_owned(),
        };
        record.logs.push(entry);
        assert(record@.logs =~= logs.push(entry@));
        self.replace_record(seat_id, record);
    }

    pub(crate) fn trace_detailed(
        &mut self,
        seat_id: &SeatId,
        stage: &str,
        detail: Option<&str>,
        error: Option<&str>,
        duration_ms: Option<u64>,
        exit_status: Option<i32>,
    )
        ensures
            journal::runs(
                *old(self),
                *final(self),
                |w: Run|
                    (
                        trace_p(
                            w,
                            seat_id@,
                            stage@,
                            model::opt_str(detail),
                            model::opt_str(error),
                            duration_ms,
                            exit_status,
                        ),
                        (),
                    ),
                (),
            ),
    {
        let mut record = self.record(seat_id);
        let started = match record.startup_started {
            Some(started) => started,
            None => self.moment(),
        };
        let clock = self.clock(started);
        record.startup_started = Some(started);
        let ghost earlier = record@.startup_trace;
        if record.startup_trace.len() >= presentation_session::TRACE_LIMIT {
            record.startup_trace.remove(0);
        }
        let entry = StartupTraceEntry {
            stage: stage.to_owned(),
            timestamp_ms: clock.timestamp_ms,
            elapsed_ms: clock.elapsed_ms,
            duration_ms,
            detail: own_opt(detail),
            error: own_opt(error),
            process_id: None,
            window_handle: None,
            target_display_id: None,
            target_bounds: None,
            exit_status,
        };
        record.startup_trace.push(entry);
        assert(record@.startup_trace =~= presentation_session::traced(earlier, entry@));
        self.replace_record(seat_id, record);
    }

    pub(crate) fn trace(
        &mut self,
        seat_id: &SeatId,
        stage: &str,
        detail: Option<&str>,
        error: Option<&str>,
    )
        ensures
            journal::runs(
                *old(self),
                *final(self),
                |w: Run|
                    (
                        trace_p(
                            w,
                            seat_id@,
                            stage@,
                            model::opt_str(detail),
                            model::opt_str(error),
                            None,
                            None,
                        ),
                        (),
                    ),
                (),
            ),
    {
        self.trace_detailed(seat_id, stage, detail, error, None, None);
    }

    /// Notes a stage and the time since a moment.
    pub(crate) fn trace_since(
        &mut self,
        seat_id: &SeatId,
        stage: &str,
        started: Instant,
        detail: Option<&str>,
        error: Option<&str>,
        exit_status: Option<i32>,
    )
        ensures
            journal::runs(
                *old(self),
                *final(self),
                |w: Run|
                    (
                        timed_trace_p(
                            w,
                            seat_id@,
                            stage@,
                            started,
                            model::opt_str(detail),
                            model::opt_str(error),
                            exit_status,
                        ),
                        (),
                    ),
                (),
            ),
    {
        let duration = self.elapsed(started);
        self.trace_detailed(seat_id, stage, detail, error, duration, exit_status);
    }

    /// Runs `VBoxManage`, and keeps sensitive arguments out of what is said about a failure.
    pub fn checked_redacted(&mut self, arguments: Vec<String>, sensitive: &Vec<String>) -> (r:
        Result<VBoxOutput, String>)
        ensures
            journal::runs(
                *old(self),
                *final(self),
                |w: Run|
                    checked_redacted_p(w, model::texts(arguments@), model::texts(sensitive@)),
                executor::answer_view(r),
            ),
            r matches Err(message) ==> secrecy::tells_no_secret(
                message@,
                model::texts(arguments@),
                model::texts(sensitive@),
            ),
    {
        let ghost given = model::texts(arguments@);
        let ghost hidden = model::texts(sensitive@);
        match self.execute(&arguments) {
            Err(message) => {
                proof {
                    secrecy::law_redacted_text_tells_no_secret(message@, given, hidden);
                }
                Err(redact(message, sensitive))
            },
            Ok(output) => if output.success {
                Ok(output)
            } else {
                let shown = redact_arguments(&arguments, sensitive);
                let stderr = redact(trim(output.stderr.as_str()), sensitive);
                let list = quote_list(&shown);
                proof {
                    secrecy::law_a_failure_tells_no_secret(given, hidden, output@);
                }
                Err(
                    concat6(
                        "VBoxManage ",
                        list.as_str(),
                        " failed with exit code ",
                        exit_text(output.exit_code).as_str(),
                        ": ",
                        stderr.as_str(),
                    ),
                )
            },
        }
    }

    /// Runs `VBoxManage`.
    pub(crate) fn checked(&mut self, arguments: Vec<String>) -> (r: Result<VBoxOutput, String>)
        ensures
            journal::runs(
                *old(self),
                *final(self),
                |w: Run| checked_p(w, model::texts(arguments@)),
                executor::answer_view(r),
            ),
    {
        let nothing: Vec<String> = Vec::new();
        assert(model::texts(nothing@) =~= Seq::<Text>::empty());
        self.checked_redacted(arguments, &nothing)
    }

    /// Asks VirtualBox to describe a machine.
    pub fn inspect_vm(&mut self, vm_id: &str) -> (r: Result<VirtualMachine, String>)
        ensures
            journal::runs(
                *old(self),
                *final(self),
                |w: Run| inspect_vm_p(w, vm_id@),
                machine_result(r),
            ),
    {
        match self.checked(args3("showvminfo", vm_id, "--machinereadable")) {
            Err(message) => Err(message),
            Ok(output) => {
                let fields = parse_machine_readable(output.stdout.as_str());
                Ok(describe_machine(&fields, vm_id))
            },
        }
    }

    fn list_line(&mut self, line: &str, list: &mut VirtualMachineList)
        ensures
            journal::runs(
                *old(self),
                *final(self),
                |w: Run| list_line_p(w, line@, old(list)@),
                final(list)@,
            ),
    {
        let line = trim(line);
        if line.as_str().is_empty() {
            return ;
        }
        match parse_vm_list_line(line.as_str()) {
            None => {
                let ghost before = list.warnings@;
                let warning = concat2("ignored malformed VM list line: ", line.as_str());
                list.warnings.push(warning);
                assert(model::texts(list.warnings@) =~= model::texts(before).push(warning@));
            },
            Some((name, uuid)) => match self.inspect_vm(uuid.as_str()) {
                Ok(vm) => {
                    let mut vm = vm;
                    vm.name = name;
                    let ghost before = list.machines@;
                    list.machines.push(vm);
                    assert(duplicate::views(list.machines@) =~= duplicate::views(before).push(
                        vm@,
                    ));
                },
                Err(error) => {
                    let ghost before = list.warnings@;
                    let warning = concat4(
                        "could not inspect VM ",
                        uuid.as_str(),
                        ": ",
                        error.as_str(),
                    );
                    list.warnings.push(warning);
                    assert(model::texts(list.warnings@) =~= model::texts(before).push(warning@));
                },
            },
        }
    }

    /// Lists and inspects the machines of the host.
    pub fn list_vms(&mut self) -> (r: Result<VirtualMachineList, String>)
        ensures
            journal::runs(*old(self), *final(self), |w: Run| list_vms_p(w), list_result(r)),
    {
        let output = match self.checked(args2("list", "vms")) {
            Ok(output) => output,
            Err(message) => {
                return Err(message);
            },
        };
        let mut list = VirtualMachineList { machines: Vec::new(), warnings: Vec::new() };
        let lines = lines_of(output.stdout.as_str());
        let ghost all = model::texts(lines@);
        let ghost start = *self;
        let mut i: usize = 0;
        proof {
            assert(list@ =~= VirtualMachineListView { machines: seq![], warnings: seq![] });
        }
        while i < lines.len()
            invariant
                i <= lines@.len(),
                all == model::texts(lines@),
                journal::runs(start, *self, |w: Run| list_lines_p(w, all, i as int), list@),
            decreases lines.len() - i,
        {
            assert(all[i as int] == lines@[i as int]@);
            self.list_line(lines[i].as_str(), &mut list);
            i += 1;
        }
        Ok(list)
    }

    /// Asks VirtualBox for the USB devices of the host.
    pub(crate) fn usb_status(&mut self) -> (r: Result<VirtualBoxStatus, String>)
        ensures
            journal::runs(*old(self), *final(self), |w: Run| usb_status_p(w), usb_result(r)),
    {
        match self.checked(args2("list", "usbhost")) {
            Err(message) => Err(message),
            Ok(output) => {
                let parsed = parse_virtualbox_usbhost(output.stdout.as_str());
                Ok(
                    VirtualBoxStatus {
                        installed: true,
                        vbox_manage_path: None,
                        version: None,
                        operational: true,
                        probe_error: None,
                        parser_warnings: parsed.warnings,
                        usb_devices: parsed.devices,
                    },
                )
            },
        }
    }

    /// Asks for the mouse-capture policy of a machine's window.
    pub(crate) fn mouse_capture_policy(&mut self, vm_id: &str) -> (r: Result<
        Option<String>,
        String,
    >)
        ensures
            journal::runs(
                *old(self),
                *final(self),
                |w: Run| capture_policy_p(w, vm_id@),
                opt_text_result(r),
            ),
    {
        match self.checked(args3("getextradata", vm_id, "GUI/MouseCapturePolicy")) {
            Err(message) => Err(message),
            Ok(output) => Ok(policy_in(output.stdout.as_str())),
        }
    }

    /// Sets the mouse-capture policy of a machine's window, and makes sure of it.
    pub(crate) fn set_mouse_capture_policy(&mut self, vm_id: &str, policy: &str) -> (r: Result<
        (),
        String,
    >)
        ensures
            journal::runs(
                *old(self),
                *final(self),
                |w: Run| set_capture_policy_p(w, vm_id@, policy@),
                model::with_message(r),
            ),
    {
        if let Err(message) = self.checked(
            args4("setextradata", vm_id, "GUI/MouseCapturePolicy", policy),
        ) {
            return Err(message);
        }
        match self.mouse_capture_policy(vm_id) {
            Err(message) => Err(message),
            Ok(None) => Err(
                concat2(
                    "VirtualBox did not return GUI/MouseCapturePolicy after setting ",
                    policy,
                ),
            ),
            Ok(Some(observed)) => if same_any_case(observed.as_str(), policy) {
                Ok(())
            } else {
                Err(
                    concat4(
                        "VirtualBox GUI/MouseCapturePolicy verification failed: expected ",
                        policy,
                        ", observed ",
                        observed.as_str(),
                    ),
                )
            },
        }
    }

    pub(crate) fn check_start_cancelled(&mut self, cancellation: Option<&Arc<AtomicBool>>) -> (r:
        Result<(), String>)
        ensures
            journal::runs(
                *old(self),
                *final(self),
                |w: Run| not_cancelled_p(w, flag_of(cancellation)),
                model::with_message(r),
            ),
    {
        match cancellation {
            None => Ok(()),
            Some(flag) => if self.cancelled(flag) {
                Err("managed seat startup was cancelled".to_owned())
            } else {
                Ok(())
            },
        }
    }

    /// Waits until a machine is in a state.
    pub(crate) fn wait_for_vm_state(
        &mut self,
        vm_id: &str,
        desired: &str,
        attempts: usize,
        cancellation: Option<&Arc<AtomicBool>>,
    ) -> (r: Result<(), String>)
        ensures
            journal::runs(
                *old(self),
                *final(self),
                |w: Run|
                    wait_for_state_p(
                        w,
                        vm_id@,
                        desired@,
                        attempts as nat,
                        flag_of(cancellation),
                    ),
                model::with_message(r),
            ),
        decreases attempts,
    {
        if attempts == 0 {
            let mut message = concat4("VM ", vm_id, " did not reach state '", desired);
            message.append("' in time");
            return Err(message);
        }
        if let Err(message) = self.check_start_cancelled(cancellation) {
            return Err(message);
        }
        match self.inspect_vm(vm_id) {
            Err(message) => Err(message),
            Ok(vm) => if same_any_case(vm.state.as_str(), desired) {
                Ok(())
            } else {
                self.wait(500);
                self.wait_for_vm_state(vm_id, desired, attempts - 1, cancellation)
            },
        }
    }
}

} // verus!
