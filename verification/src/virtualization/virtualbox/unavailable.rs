//! A host on which nothing is at hand.
use super::creation::{IsoInspection, IsoInspectionView};
use super::installation::{InstallationHost, PasswordFailure, PasswordFailureView};
use super::presentation::WindowDescriptor;
use super::presentation_session::{
    Desktop, DesktopReply, DesktopRequest, StyleWord, TraceClock, WindowLong, WindowPlacement,
    WindowRect,
};
use super::service;
use super::service::{HardwareInventory, Reply, Request};
use crate::devices::PhysicalInputDevice;
use crate::displays::{DisplayBounds, DisplayDevice};
use crate::duplicate;
use crate::journal::Relation;
use crate::virtualization::DetectionState;
use crate::virtualization::host_probe;
use crate::virtualization::host_probe::{
    CommandOutput, HostServiceState, ProbeHost, ProcessorFeature, ServiceFailure,
    ServiceFailureView,
};
use vstd::prelude::*;

verus! {

/// A host whose devices, files and windows cannot be had, for a reason.
pub struct Unavailable(pub String);

impl HardwareInventory for Unavailable {
    open spec fn answers(&self) -> Relation<Request, Reply> {
        |request: Request, reply: Reply| reply == Reply::Devices(Err(self.0@))
    }

    fn input_devices(&mut self) -> (r: Result<Vec<PhysicalInputDevice>, String>) {
        Err(self.0.clone())
    }
}

impl InstallationHost for Unavailable {
    open spec fn answers(&self) -> Relation<Request, Reply> {
        |request: Request, reply: Reply|
            match request {
                Request::IsFile(_) => reply == Reply::Flag(false),
                Request::InspectIso(_) => reply == Reply::Iso(
                    IsoInspectionView::OpenFailed(self.0@),
                ),
                Request::ReadText(_) => reply == Reply::Content(Err(self.0@)),
                Request::Firmware => reply == Reply::Detection(DetectionState::Unknown),
                Request::KeepPassword(_) => reply == Reply::Password(
                    Err(PasswordFailureView::Create(self.0@)),
                ),
                _ => reply is Nothing,
            }
    }

    fn is_file(&mut self, path: &str) -> (r: bool) {
        false
    }

    fn inspect_iso(&mut self, path: &str) -> (r: IsoInspection) {
        IsoInspection::OpenFailed(self.0.clone())
    }

    fn read_text(&mut self, path: &str) -> (r: Result<String, String>) {
        Err(self.0.clone())
    }

    fn firmware_virtualization(&mut self) -> (r: DetectionState) {
        DetectionState::Unknown
    }

    fn keep_password(&mut self, password: &str) -> (r: Result<String, PasswordFailure>) {
        Err(PasswordFailure::Create(self.0.clone()))
    }

    fn forget_password(&mut self, path: &str) {
    }
}

impl Desktop for Unavailable {
    open spec fn answers(&self) -> Relation<DesktopRequest, DesktopReply> {
        |request: DesktopRequest, reply: DesktopReply|
            match request {
                DesktopRequest::Windows => reply == DesktopReply::Windows(seq![]),
                DesktopRequest::Displays => reply == DesktopReply::Displays(Err(self.0@)),
                DesktopRequest::PastDeadline => reply == DesktopReply::Flag(true),
                DesktopRequest::Clock => reply is Clock,
                DesktopRequest::IsWindow(_) => reply == DesktopReply::Flag(false),
                DesktopRequest::WindowRect(_) => reply == DesktopReply::Rect(Err(self.0@)),
                DesktopRequest::WindowPlacement(_) => reply == DesktopReply::Placement(
                    Err(self.0@),
                ),
                DesktopRequest::Style(..) | DesktopRequest::SetStyle(..) => reply
                    == DesktopReply::Long(WindowLong { value: 0, error: 1 }),
                DesktopRequest::MoveWindow(..) => reply == DesktopReply::Done(Err(self.0@)),
                DesktopRequest::MonitorOfWindow(_) | DesktopRequest::MonitorOfRect(_) => reply
                    == DesktopReply::Monitor(0),
                DesktopRequest::SetPlacement(..) => reply is Nothing,
            }
    }

    fn windows(&mut self) -> (r: Vec<WindowDescriptor>) {
        let none: Vec<WindowDescriptor> = Vec::new();
        assert(duplicate::views(none@) =~= seq![]);
        none
    }

    fn displays(&mut self) -> (r: Result<Vec<DisplayDevice>, String>) {
        Err(self.0.clone())
    }

    fn past_deadline(&mut self) -> (r: bool) {
        true
    }

    fn clock(&mut self) -> (r: TraceClock) {
        service::trace_clock(None, None)
    }

    fn is_window(&mut self, handle: isize) -> (r: bool) {
        false
    }

    fn window_rect(&mut self, handle: isize) -> (r: Result<WindowRect, String>) {
        Err(self.0.clone())
    }

    fn window_placement(&mut self, handle: isize) -> (r: Result<WindowPlacement, String>) {
        Err(self.0.clone())
    }

    fn style(&mut self, handle: isize, word: StyleWord) -> (r: WindowLong) {
        WindowLong { value: 0, error: 1 }
    }

    fn set_style(&mut self, handle: isize, word: StyleWord, value: isize) -> (r: WindowLong) {
        WindowLong { value: 0, error: 1 }
    }

    fn move_window(&mut self, handle: isize, bounds: DisplayBounds, on_top: bool) -> (r: Result<
        (),
        String,
    >) {
        Err(self.0.clone())
    }

    fn monitor_of_window(&mut self, handle: isize) -> (r: isize) {
        0
    }

    fn monitor_of_rect(&mut self, rect: WindowRect) -> (r: isize) {
        0
    }

    fn set_placement(&mut self, handle: isize, placement: WindowPlacement) {
    }
}

impl ProbeHost for Unavailable {
    open spec fn answers(&self) -> Relation<host_probe::Request, host_probe::Reply> {
        |request: host_probe::Request, reply: host_probe::Reply|
            match request {
                host_probe::Request::RegistryText(..) | host_probe::Request::ProgramFiles => reply
                    == host_probe::Reply::MaybeText(None),
                host_probe::Request::RegistryNumber(..) => reply
                    == host_probe::Reply::MaybeNumber(None),
                host_probe::Request::Feature(_) | host_probe::Request::IsFile(_) => reply
                    == host_probe::Reply::Flag(false),
                host_probe::Request::Architecture => reply == host_probe::Reply::Name(seq![]),
                host_probe::Request::Command(..) => reply == host_probe::Reply::Output(
                    Err(self.0@),
                ),
                host_probe::Request::OpenServiceManager => reply == host_probe::Reply::Done(
                    Err(self.0@),
                ),
                host_probe::Request::Service(_) => reply == host_probe::Reply::State(
                    Err(ServiceFailureView::Open(self.0@)),
                ),
            }
    }

    fn registry_text(&mut self, key: &str, value: &str) -> (r: Option<String>) {
        None
    }

    fn registry_number(&mut self, key: &str, value: &str) -> (r: Option<u32>) {
        None
    }

    fn has_feature(&mut self, feature: ProcessorFeature) -> (r: bool) {
        false
    }

    fn architecture(&mut self) -> (r: String) {
        String::new()
    }

    fn program_files(&mut self) -> (r: Option<String>) {
        None
    }

    fn is_file(&mut self, path: &str) -> (r: bool) {
        false
    }

    fn run(&mut self, program: &str, arguments: &[String]) -> (r: Result<CommandOutput, String>) {
        Err(self.0.clone())
    }

    fn open_service_manager(&mut self) -> (r: Result<(), String>) {
        Err(self.0.clone())
    }

    fn service_state(&mut self, name: &str) -> (r: Result<
        Option<HostServiceState>,
        ServiceFailure,
    >) {
        Err(ServiceFailure::Open(self.0.clone()))
    }
}

} // verus!
