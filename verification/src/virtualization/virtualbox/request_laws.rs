//! Which requests the programs of the service put, whatever they are answered.
use super::machine_info;
use super::presentation_session::TRACE_LIMIT;
use super::runtime::{InputKind, RuntimeRecordView};
use super::service;
use super::service::{Reply, Request, Run, ServiceView};
use super::status;
use super::usb_attachment;
use crate::devices::PhysicalInputDeviceView;
use crate::journal;
use crate::seats::ApplicationConfigView;
use crate::text::model;
use crate::text::model::Text;
use std::sync::Arc;
use std::sync::atomic::AtomicBool;
use std::time::Instant;
use vstd::prelude::*;

verus! {

/// What requests are allowed, after the requests before them.
pub type Rule = spec_fn(Seq<Request>, Request) -> bool;

/// The commands that only ask.
pub open spec fn reading_command(arguments: Seq<Text>) -> bool {
    arguments.len() > 0 && (arguments[0] == "list"@ || arguments[0] == "showvminfo"@
        || arguments[0] == "getextradata"@ || arguments[0] == "guestproperty"@ || arguments[0]
        == "guestcontrol"@)
}

/// The requests that only ask, or wait.
pub open spec fn reading(request: Request) -> bool {
    match request {
        Request::Execute(arguments) => reading_command(arguments),
        Request::Wait(_) | Request::Moment | Request::Clock(_) | Request::Elapsed(_)
        | Request::Hardware | Request::FocusStatus | Request::PresentationStatus | Request::IsFile(_)
        | Request::InspectIso(_) | Request::ReadText(_) | Request::Firmware
        | Request::UnixTime => true,
        _ => false,
    }
}

/// Whether a rule allows every request that only asks.
pub open spec fn admits_reading(rule: Rule) -> bool {
    forall|earlier: Seq<Request>, request: Request|
        reading(request) ==> #[trigger] rule(earlier, request)
}

/// Whether a rule allows asking whether the flag of a start is raised, where it has one.
pub open spec fn admits_checks(rule: Rule, flag: Option<Arc<AtomicBool>>) -> bool {
    flag matches Some(cancellation) ==> forall|earlier: Seq<Request>| #[trigger]
        rule(earlier, Request::Cancelled(cancellation))
}

/// Whether no seat's startup trace is longer than it may be.
pub open spec fn bounded(state: ServiceView) -> bool {
    forall|seat: Text| #[trigger]
        state.records.contains_key(seat) ==> state.records[seat].startup_trace.len() <= TRACE_LIMIT
}

/// Whether a program has kept to a rule, and has let no startup trace grow too long.
pub open spec fn goes(before: Run, after: Run, rule: Rule) -> bool {
    journal::within(before, after, rule) && (bounded(before.state) ==> bounded(after.state))
}

pub proof fn lemma_goes_both(a: Run, b: Run, c: Run, rule: Rule)
    requires
        goes(a, b, rule),
        goes(b, c, rule),
    ensures
        goes(a, c, rule),
{
    journal::lemma_within_both(a, b, c, rule);
}

pub proof fn lemma_goes_none(w: Run, rule: Rule)
    ensures
        goes(w, w, rule),
{
    journal::lemma_within_none(w, w, rule);
}

pub proof fn lemma_ask(w: Run, request: Request, rule: Rule)
    requires
        rule(w.requests, request),
    ensures
        goes(w, journal::ask(w, request).0, rule),
{
    journal::lemma_within_ask(w, request, rule);
}

pub proof fn lemma_remember(w: Run, seat: Text, record: RuntimeRecordView, rule: Rule)
    requires
        record.startup_trace.len() <= TRACE_LIMIT || record.startup_trace == service::record_of(
            w,
            seat,
        ).startup_trace,
    ensures
        goes(w, service::remember(w, seat, record), rule),
{
    journal::lemma_within_none(w, service::remember(w, seat, record), rule);
}

pub proof fn lemma_log(
    w: Run,
    seat: Text,
    action: Text,
    outcome: Text,
    physical: Option<Text>,
    uuid: Option<Text>,
    detail: Text,
    rule: Rule,
)
    ensures
        goes(w, service::log_p(w, seat, action, outcome, physical, uuid, detail), rule),
{
    let after = service::log_p(w, seat, action, outcome, physical, uuid, detail);
    journal::lemma_within_none(w, after, rule);
}

pub proof fn lemma_moment(w: Run, rule: Rule)
    requires
        admits_reading(rule),
    ensures
        goes(w, service::moment_p(w).0, rule),
        service::moment_p(w).0.state == w.state,
{
    lemma_ask(w, Request::Moment, rule);
}

pub proof fn lemma_startup(w: Run, seat: Text, rule: Rule)
    requires
        admits_reading(rule),
    ensures
        goes(w, service::startup_p(w, seat).0, rule),
        service::startup_p(w, seat).0.state == w.state,
{
    lemma_goes_none(w, rule);
    lemma_moment(w, rule);
}

pub proof fn lemma_trace(
    w: Run,
    seat: Text,
    stage: Text,
    detail: Option<Text>,
    error: Option<Text>,
    duration_ms: Option<u64>,
    exit_status: Option<i32>,
    rule: Rule,
)
    requires
        admits_reading(rule),
    ensures
        goes(
            w,
            service::trace_p(w, seat, stage, detail, error, duration_ms, exit_status),
            rule,
        ),
{
    let after = service::trace_p(w, seat, stage, detail, error, duration_ms, exit_status);
    lemma_startup(w, seat, rule);
    let (w0, started) = service::startup_p(w, seat);
    lemma_ask(w0, Request::Clock(started), rule);
    let w1 = journal::ask(w0, Request::Clock(started)).0;
    lemma_goes_both(w, w0, w1, rule);
    journal::lemma_within_none(w1, after, rule);
    journal::lemma_within_both(w, w1, after, rule);
}

pub proof fn lemma_timed_trace(
    w: Run,
    seat: Text,
    stage: Text,
    started: Instant,
    detail: Option<Text>,
    error: Option<Text>,
    exit_status: Option<i32>,
    rule: Rule,
)
    requires
        admits_reading(rule),
    ensures
        goes(w, service::timed_trace_p(w, seat, stage, started, detail, error, exit_status), rule),
{
    let (w1, reply) = journal::ask(w, Request::Elapsed(started));
    lemma_ask(w, Request::Elapsed(started), rule);
    lemma_trace(w1, seat, stage, detail, error, reply->Millis_0, exit_status, rule);
    lemma_goes_both(
        w,
        w1,
        service::timed_trace_p(w, seat, stage, started, detail, error, exit_status),
        rule,
    );
}

pub proof fn lemma_checked(w: Run, arguments: Seq<Text>, rule: Rule)
    requires
        rule(w.requests, Request::Execute(arguments)),
    ensures
        goes(w, service::checked_p(w, arguments).0, rule),
        service::checked_p(w, arguments).0.state == w.state,
{
    lemma_ask(w, Request::Execute(arguments), rule);
}

/// A machine is inspected by one command that only asks.
pub proof fn lemma_inspect(w: Run, vm_id: Text, rule: Rule)
    requires
        admits_reading(rule),
    ensures
        goes(w, service::inspect_vm_p(w, vm_id).0, rule),
        service::inspect_vm_p(w, vm_id).0.state == w.state,
{
    lemma_checked(w, seq!["showvminfo"@, vm_id, "--machinereadable"@], rule);
}

/// The machines are listed by commands that only ask.
pub proof fn lemma_list_lines(w: Run, lines: Seq<Text>, count: int, rule: Rule)
    requires
        admits_reading(rule),
        0 <= count <= lines.len(),
    ensures
        goes(w, service::list_lines_p(w, lines, count).0, rule),
        service::list_lines_p(w, lines, count).0.state == w.state,
    decreases count,
{
    if count == 0 {
        lemma_goes_none(w, rule);
    } else {
        lemma_list_lines(w, lines, count - 1, rule);
        let (w1, list) = service::list_lines_p(w, lines, count - 1);
        let (w2, _) = service::list_line_p(w1, lines[count - 1], list);
        let line = model::trimmed(lines[count - 1]);
        match machine_info::vm_list_entry(line) {
            Some((_, uuid)) => {
                lemma_inspect(w1, uuid, rule);
            },
            None => {},
        }
        lemma_goes_none(w1, rule);
        lemma_goes_both(w, w1, w2, rule);
    }
}

pub proof fn lemma_list_vms(w: Run, rule: Rule)
    requires
        admits_reading(rule),
    ensures
        goes(w, service::list_vms_p(w).0, rule),
        service::list_vms_p(w).0.state == w.state,
{
    lemma_checked(w, seq!["list"@, "vms"@], rule);
    let (w1, answer) = service::checked_p(w, seq!["list"@, "vms"@]);
    if let Ok(output) = answer {
        let lines = model::lines(output.stdout);
        lemma_list_lines(w1, lines, lines.len() as int, rule);
        lemma_goes_both(w, w1, service::list_vms_p(w).0, rule);
    }
}

pub proof fn lemma_usb_status(w: Run, rule: Rule)
    requires
        admits_reading(rule),
    ensures
        goes(w, service::usb_status_p(w).0, rule),
        service::usb_status_p(w).0.state == w.state,
{
    lemma_checked(w, seq!["list"@, "usbhost"@], rule);
}

pub proof fn lemma_capture_policy(w: Run, vm_id: Text, rule: Rule)
    requires
        admits_reading(rule),
    ensures
        goes(w, service::capture_policy_p(w, vm_id).0, rule),
        service::capture_policy_p(w, vm_id).0.state == w.state,
{
    lemma_checked(w, seq!["getextradata"@, vm_id, "GUI/MouseCapturePolicy"@], rule);
}

/// The command that sets the mouse-capture policy of a machine.
pub open spec fn policy_command(vm_id: Text, policy: Text) -> Seq<Text> {
    seq!["setextradata"@, vm_id, "GUI/MouseCapturePolicy"@, policy]
}

/// Whether a rule allows a command, whatever was put before it.
pub open spec fn admits(rule: Rule, arguments: Seq<Text>) -> bool {
    forall|earlier: Seq<Request>| #[trigger] rule(earlier, Request::Execute(arguments))
}

pub proof fn lemma_set_policy(w: Run, vm_id: Text, policy: Text, rule: Rule)
    requires
        admits_reading(rule),
        admits(rule, policy_command(vm_id, policy)),
    ensures
        goes(w, service::set_capture_policy_p(w, vm_id, policy).0, rule),
        service::set_capture_policy_p(w, vm_id, policy).0.state == w.state,
{
    let arguments = policy_command(vm_id, policy);
    lemma_checked(w, arguments, rule);
    let (w1, answer) = service::checked_p(w, arguments);
    if answer is Ok {
        lemma_capture_policy(w1, vm_id, rule);
        lemma_goes_both(w, w1, service::capture_policy_p(w1, vm_id).0, rule);
    }
}

pub proof fn lemma_not_cancelled(w: Run, flag: Option<Arc<AtomicBool>>, rule: Rule)
    requires
        admits_checks(rule, flag),
    ensures
        goes(w, service::not_cancelled_p(w, flag).0, rule),
        service::not_cancelled_p(w, flag).0.state == w.state,
{
    match flag {
        Some(cancellation) => lemma_ask(w, Request::Cancelled(cancellation), rule),
        None => lemma_goes_none(w, rule),
    }
}

pub proof fn lemma_wait_for_state(
    w: Run,
    vm_id: Text,
    desired: Text,
    attempts: nat,
    flag: Option<Arc<AtomicBool>>,
    rule: Rule,
)
    requires
        admits_reading(rule),
        admits_checks(rule, flag),
    ensures
        goes(w, service::wait_for_state_p(w, vm_id, desired, attempts, flag).0, rule),
        service::wait_for_state_p(w, vm_id, desired, attempts, flag).0.state == w.state,
    decreases attempts,
{
    let after = service::wait_for_state_p(w, vm_id, desired, attempts, flag).0;
    if attempts == 0 {
        lemma_goes_none(w, rule);
    } else {
        lemma_not_cancelled(w, flag, rule);
        let (w1, go) = service::not_cancelled_p(w, flag);
        if go is Ok {
            lemma_inspect(w1, vm_id, rule);
            let (w2, answer) = service::inspect_vm_p(w1, vm_id);
            lemma_goes_both(w, w1, w2, rule);
            if let Ok(vm) = answer {
                if !model::same_ignoring_case(vm.state, desired) {
                    lemma_ask(w2, Request::Wait(500), rule);
                    let (w3, _) = journal::ask(w2, Request::Wait(500));
                    lemma_wait_for_state(
                        w3,
                        vm_id,
                        desired,
                        (attempts - 1) as nat,
                        flag,
                        rule,
                    );
                    lemma_goes_both(w2, w3, after, rule);
                    lemma_goes_both(w, w2, after, rule);
                }
            }
        }
    }
}

pub proof fn lemma_current_devices(
    w: Run,
    fallback: Seq<PhysicalInputDeviceView>,
    rule: Rule,
)
    requires
        admits_reading(rule),
    ensures
        goes(w, service::current_devices_p(w, fallback).0, rule),
        service::current_devices_p(w, fallback).0.state == w.state,
{
    if w.state.refreshes_hardware {
        lemma_ask(w, Request::Hardware, rule);
    } else {
        lemma_goes_none(w, rule);
    }
}

/// The rule of a report: it describes the seat's machine, lists the USB devices of the host, asks
/// for the mouse-capture policy of the machine's window, and asks how focus and the window fare.
pub open spec fn reports_only(seat: Text, config: ApplicationConfigView) -> Rule {
    |earlier: Seq<Request>, put: Request|
        match put {
            Request::Execute(arguments) => {
                ||| arguments == seq!["list"@, "usbhost"@]
                ||| (config.machine(seat) matches Some(machine) && (arguments == seq![
                    "showvminfo"@,
                    machine.vm_id,
                    "--machinereadable"@,
                ] || arguments == seq![
                    "getextradata"@,
                    machine.vm_id,
                    "GUI/MouseCapturePolicy"@,
                ]))
            },
            Request::FocusStatus | Request::PresentationStatus => true,
            _ => false,
        }
}

proof fn lemma_report(
    w: Run,
    seat: Text,
    config: ApplicationConfigView,
    devices: Seq<PhysicalInputDeviceView>,
    rule: Rule,
)
    requires
        forall|earlier: Seq<Request>, put: Request|
            reports_only(seat, config)(earlier, put) ==> #[trigger] rule(earlier, put),
    ensures
        goes(w, status::status_p(w, seat, config, devices).0, rule),
        status::status_p(w, seat, config, devices).0.state == w.state,
{
    let machine = match config.machine(seat) {
        Some(machine) => Some(machine.vm_id),
        None => None,
    };
    if let Some(vm_id) = machine {
        lemma_checked(w, seq!["showvminfo"@, vm_id, "--machinereadable"@], rule);
    }
    lemma_goes_none(w, rule);
    let (w1, _) = status::vm_state_p(w, machine);
    assert(goes(w, w1, rule) && w1.state == w.state);
    lemma_checked(w1, seq!["list"@, "usbhost"@], rule);
    let (w2, _) = service::usb_status_p(w1);
    lemma_goes_both(w, w1, w2, rule);
    if let Some(vm_id) = machine {
        lemma_checked(w2, seq!["getextradata"@, vm_id, "GUI/MouseCapturePolicy"@], rule);
    }
    lemma_goes_none(w2, rule);
    let (w3, _) = status::policy_p(w2, seat, config);
    assert(goes(w2, w3, rule) && w3.state == w.state);
    lemma_goes_both(w, w2, w3, rule);
    lemma_ask(w3, Request::FocusStatus, rule);
    let (w4, _) = journal::ask(w3, Request::FocusStatus);
    lemma_goes_both(w, w3, w4, rule);
    lemma_ask(w4, Request::PresentationStatus, rule);
    let (w5, _) = journal::ask(w4, Request::PresentationStatus);
    lemma_goes_both(w, w4, w5, rule);
}

/// A report is made by requests that only ask, and leaves the service as it was.
pub proof fn lemma_status(
    w: Run,
    seat: Text,
    config: ApplicationConfigView,
    devices: Seq<PhysicalInputDeviceView>,
    rule: Rule,
)
    requires
        admits_reading(rule),
    ensures
        goes(w, status::status_p(w, seat, config, devices).0, rule),
        status::status_p(w, seat, config, devices).0.state == w.state,
{
    assert forall|earlier: Seq<Request>, put: Request|
        reports_only(seat, config)(earlier, put) implies #[trigger] rule(earlier, put) by {
        assert(reading(put));
    }
    lemma_report(w, seat, config, devices, rule);
}

pub proof fn lemma_resolve_single(w: Run, device: PhysicalInputDeviceView, rule: Rule)
    requires
        admits_reading(rule),
    ensures
        goes(w, usb_attachment::resolve_single_p(w, device).0, rule),
        usb_attachment::resolve_single_p(w, device).0.state == w.state,
{
    lemma_usb_status(w, rule);
}

pub proof fn lemma_observe(
    w: Run,
    id: Text,
    kind: InputKind,
    fallback: Seq<PhysicalInputDeviceView>,
    after_attach: bool,
    rule: Rule,
)
    requires
        admits_reading(rule),
    ensures
        goes(w, usb_attachment::observe_p(w, id, kind, fallback, after_attach).0, rule),
        usb_attachment::observe_p(w, id, kind, fallback, after_attach).0.state == w.state,
{
    lemma_current_devices(w, fallback, rule);
    let (w1, answer) = service::current_devices_p(w, fallback);
    if answer is Ok {
        lemma_usb_status(w1, rule);
        lemma_goes_both(w, w1, service::usb_status_p(w1).0, rule);
    }
}

/// A report on a seat changes nothing: it only asks what is needed for it, and the service
/// remembers afterwards what it remembered before.
pub proof fn law_a_report_changes_nothing(
    w: Run,
    seat: Text,
    config: ApplicationConfigView,
    devices: Seq<PhysicalInputDeviceView>,
)
    ensures
        journal::within(
            w,
            status::status_p(w, seat, config, devices).0,
            reports_only(seat, config),
        ),
        status::status_p(w, seat, config, devices).0.state == w.state,
{
    lemma_report(w, seat, config, devices, reports_only(seat, config));
}

/// The answer to the request that is `k` requests ahead.
pub open spec fn heard(w: Run, k: int) -> Reply {
    (w.oracle)(w.requests.len() + k)
}

/// How many requests a report on a seat puts.
pub open spec fn report_length(seat: Text, config: ApplicationConfigView) -> int {
    match config.machine(seat) {
        Some(machine) => if machine.managed_by_multiseat {
            5
        } else {
            4
        },
        None => 3,
    }
}

/// Whether two programs have put the same `n` requests.
spec fn in_step(w: Run, a: Run, v: Run, b: Run, n: int) -> bool {
    &&& a.oracle == w.oracle
    &&& b.oracle == v.oracle
    &&& a.requests.len() == w.requests.len() + n
    &&& b.requests.len() == v.requests.len() + n
    &&& a.requests.skip(w.requests.len() as int) == b.requests.skip(v.requests.len() as int)
}

proof fn lemma_next_step(w: Run, a: Run, v: Run, b: Run, n: int, request: Request)
    requires
        0 <= n,
        in_step(w, a, v, b, n),
        heard(v, n) == heard(w, n),
    ensures
        journal::ask(a, request).1 == journal::ask(b, request).1,
        in_step(w, journal::ask(a, request).0, v, journal::ask(b, request).0, n + 1),
{
    let early = w.requests.len() as int;
    let late = v.requests.len() as int;
    assert(a.requests.push(request).skip(early) =~= a.requests.skip(early).push(request));
    assert(b.requests.push(request).skip(late) =~= b.requests.skip(late).push(request));
}

proof fn lemma_findings_in_step(w: Run, v: Run, seat: Text, config: ApplicationConfigView)
    requires
        forall|k: int|
            0 <= k < report_length(seat, config) ==> heard(v, k) == #[trigger] heard(w, k),
    ensures
        status::findings_p(v, seat, config).1 == status::findings_p(w, seat, config).1,
        in_step(
            w,
            status::findings_p(w, seat, config).0,
            v,
            status::findings_p(v, seat, config).0,
            report_length(seat, config),
        ),
{
    let machine = match config.machine(seat) {
        Some(machine) => Some(machine.vm_id),
        None => None,
    };
    let managed = config.machine(seat) is Some && (
    config.machine(seat)->0).managed_by_multiseat;
    assert(w.requests.skip(w.requests.len() as int) =~= v.requests.skip(v.requests.len() as int));
    let n1: int = if machine is Some { 1 } else { 0 };
    if let Some(vm_id) = machine {
        let arguments = seq!["showvminfo"@, vm_id, "--machinereadable"@];
        assert(heard(v, 0) == heard(w, 0));
        lemma_next_step(w, w, v, v, 0, Request::Execute(arguments));
    }
    let (a1, _) = status::vm_state_p(w, machine);
    let (b1, _) = status::vm_state_p(v, machine);
    assert(in_step(w, a1, v, b1, n1));
    assert(heard(v, n1) == heard(w, n1));
    lemma_next_step(w, a1, v, b1, n1, Request::Execute(seq!["list"@, "usbhost"@]));
    let (a2, _) = service::usb_status_p(a1);
    let (b2, _) = service::usb_status_p(b1);
    assert(in_step(w, a2, v, b2, n1 + 1));
    let n3: int = if managed { n1 + 2 } else { n1 + 1 };
    if managed {
        let arguments = seq!["getextradata"@, machine->0, "GUI/MouseCapturePolicy"@];
        assert(heard(v, n1 + 1) == heard(w, n1 + 1));
        lemma_next_step(w, a2, v, b2, n1 + 1, Request::Execute(arguments));
    }
    let (a3, _) = status::policy_p(a2, seat, config);
    let (b3, _) = status::policy_p(b2, seat, config);
    assert(in_step(w, a3, v, b3, n3));
    assert(heard(v, n3) == heard(w, n3));
    lemma_next_step(w, a3, v, b3, n3, Request::FocusStatus);
    let (a4, _) = journal::ask(a3, Request::FocusStatus);
    let (b4, _) = journal::ask(b3, Request::FocusStatus);
    assert(heard(v, n3 + 1) == heard(w, n3 + 1));
    lemma_next_step(w, a4, v, b4, n3 + 1, Request::PresentationStatus);
}

/// Two reports on a seat of which the same is remembered, that are answered alike, ask the same
/// and say the same.
pub proof fn law_equal_answers_give_equal_reports(
    w: Run,
    v: Run,
    seat: Text,
    config: ApplicationConfigView,
    devices: Seq<PhysicalInputDeviceView>,
)
    requires
        service::record_of(v, seat) == service::record_of(w, seat),
        forall|k: int|
            0 <= k < report_length(seat, config) ==> heard(v, k) == #[trigger] heard(w, k),
    ensures
        ({
            let (after, snapshot) = status::status_p(w, seat, config, devices);
            let (later, again) = status::status_p(v, seat, config, devices);
            &&& again == snapshot
            &&& after.requests.len() == w.requests.len() + report_length(seat, config)
            &&& later.requests.skip(v.requests.len() as int) == after.requests.skip(
                w.requests.len() as int,
            )
        }),
{
    lemma_findings_in_step(w, v, seat, config);
}

/// A second report right after a first, answered like the first, says the same.
pub proof fn law_a_second_report_says_the_same(
    w: Run,
    seat: Text,
    config: ApplicationConfigView,
    devices: Seq<PhysicalInputDeviceView>,
)
    requires
        ({
            let after = status::status_p(w, seat, config, devices).0;
            forall|k: int|
                0 <= k < report_length(seat, config) ==> heard(after, k) == #[trigger] heard(w, k)
        }),
    ensures
        ({
            let (after, snapshot) = status::status_p(w, seat, config, devices);
            status::status_p(after, seat, config, devices).1 == snapshot
        }),
{
    let after = status::status_p(w, seat, config, devices).0;
    law_a_report_changes_nothing(w, seat, config, devices);
    law_equal_answers_give_equal_reports(w, after, seat, config, devices);
}

/// A startup trace never holds more than its limit, and what it drops is its oldest entry.
pub proof fn law_a_trace_keeps_the_latest(
    w: Run,
    seat: Text,
    stage: Text,
    detail: Option<Text>,
    error: Option<Text>,
)
    requires
        bounded(w.state),
    ensures
        ({
            let before = service::record_of(w, seat).startup_trace;
            let after = service::record_of(
                service::trace_p(w, seat, stage, detail, error, None, None),
                seat,
            ).startup_trace;
            &&& after.len() <= TRACE_LIMIT
            &&& after.last().stage == stage
            &&& after.last().detail == detail
            &&& after.last().error == error
            &&& before.len() < TRACE_LIMIT ==> after.drop_last() == before
            &&& before.len() == TRACE_LIMIT ==> after.drop_last() == before.skip(1)
        }),
{
    let before = service::record_of(w, seat).startup_trace;
    let after = service::record_of(
        service::trace_p(w, seat, stage, detail, error, None, None),
        seat,
    ).startup_trace;
    if before.len() < TRACE_LIMIT {
        assert(after.drop_last() =~= before);
    } else {
        assert(after.drop_last() =~= before.skip(1));
    }
}

} // verus!
