//! Finding out what a Windows host offers for virtualization.
use super::usb;
use super::usb::{
    correlate_usb_devices, parse_virtualbox_usbhost, UsbCorrelation, UsbCorrelationView,
    VirtualBoxStatus, VirtualBoxStatusView,
};
use super::{BackendCapabilities, BackendCapabilitiesView, BackendKind, DetectionState};
use crate::devices::{PhysicalInputDevice, PhysicalInputDeviceView};
use crate::duplicate;
use crate::duplicate::{duplicate_all, Duplicate};
use crate::journal;
use crate::journal::{Exchange, Journaled, Relation, World};
use crate::paths;
use crate::paths::join_path;
use crate::text::compose::{concat2, concat3, concat4, copy_opt, to_lower};
use crate::text::decode;
use crate::text::decode::{decode, decode_lossy};
use crate::text::model;
use crate::text::model::Text;
use crate::text::number::{exit_text, number_text};
use crate::text::scan::{has, lines_of, same, trim};
use vstd::prelude::*;
use vstd::utf8;

verus! {

/// What is known of the Windows on a host.
#[derive(Debug, Eq, PartialEq)]
pub struct WindowsSystemInfo {
    pub product_name: Option<String>,
    pub edition: Option<String>,
    pub display_version: Option<String>,
    pub build: Option<String>,
    pub architecture: String,
    pub current_session_id: u32,
    pub hypervisor_present: bool,
    pub firmware_virtualization_enabled: DetectionState,
    pub second_level_address_translation: DetectionState,
}

/// The model of [`WindowsSystemInfo`].
#[verifier::ext_equal]
pub struct WindowsSystemInfoView {
    pub product_name: Option<Text>,
    pub edition: Option<Text>,
    pub display_version: Option<Text>,
    pub build: Option<Text>,
    pub architecture: Text,
    pub current_session_id: u32,
    pub hypervisor_present: bool,
    pub firmware_virtualization_enabled: DetectionState,
    pub second_level_address_translation: DetectionState,
}

impl View for WindowsSystemInfo {
    type V = WindowsSystemInfoView;

    open spec fn view(&self) -> WindowsSystemInfoView {
        WindowsSystemInfoView {
            product_name: model::opt_text(self.product_name),
            edition: model::opt_text(self.edition),
            display_version: model::opt_text(self.display_version),
            build: model::opt_text(self.build),
            architecture: self.architecture@,
            current_session_id: self.current_session_id,
            hypervisor_present: self.hypervisor_present,
            firmware_virtualization_enabled: self.firmware_virtualization_enabled,
            second_level_address_translation: self.second_level_address_translation,
        }
    }
}

impl Duplicate for WindowsSystemInfo {
    fn duplicate(&self) -> (r: Self) {
        WindowsSystemInfo {
            product_name: copy_opt(&self.product_name),
            edition: copy_opt(&self.edition),
            display_version: copy_opt(&self.display_version),
            build: copy_opt(&self.build),
            architecture: self.architecture.clone(),
            current_session_id: self.current_session_id,
            hypervisor_present: self.hypervisor_present,
            firmware_virtualization_enabled: self.firmware_virtualization_enabled,
            second_level_address_translation: self.second_level_address_translation,
        }
    }
}

impl Clone for WindowsSystemInfo {
    fn clone(&self) -> (r: Self)
        ensures
            r@ == self@,
    {
        self.duplicate()
    }
}

/// What is known of a service of the host.
#[derive(Debug, Eq, PartialEq)]
pub struct HostServiceStatus {
    pub name: String,
    pub installed: bool,
    pub running: bool,
    pub state: String,
}

/// The model of [`HostServiceStatus`].
#[verifier::ext_equal]
pub struct HostServiceStatusView {
    pub name: Text,
    pub installed: bool,
    pub running: bool,
    pub state: Text,
}

impl View for HostServiceStatus {
    type V = HostServiceStatusView;

    open spec fn view(&self) -> HostServiceStatusView {
        HostServiceStatusView {
            name: self.name@,
            installed: self.installed,
            running: self.running,
            state: self.state@,
        }
    }
}

impl Duplicate for HostServiceStatus {
    fn duplicate(&self) -> (r: Self) {
        HostServiceStatus {
            name: self.name.clone(),
            installed: self.installed,
            running: self.running,
            state: self.state.clone(),
        }
    }
}

impl Clone for HostServiceStatus {
    fn clone(&self) -> (r: Self)
        ensures
            r@ == self@,
    {
        self.duplicate()
    }
}

/// Whether an optional feature of Windows is on.
#[derive(Clone, Copy, Debug, Eq, PartialEq, Structural)]
pub enum WindowsFeatureState {
    Enabled,
    Disabled,
    Unavailable,
    Unknown,
}

/// What is known of Hyper-V on a host.
#[derive(Debug, Eq, PartialEq)]
pub struct HyperVStatus {
    pub feature_state: WindowsFeatureState,
    pub feature_probe_error: Option<String>,
    pub services: Vec<HostServiceStatus>,
    pub hypervisor_active: bool,
}

/// The model of [`HyperVStatus`].
#[verifier::ext_equal]
pub struct HyperVStatusView {
    pub feature_state: WindowsFeatureState,
    pub feature_probe_error: Option<Text>,
    pub services: Seq<HostServiceStatusView>,
    pub hypervisor_active: bool,
}

impl View for HyperVStatus {
    type V = HyperVStatusView;

    open spec fn view(&self) -> HyperVStatusView {
        HyperVStatusView {
            feature_state: self.feature_state,
            feature_probe_error: model::opt_text(self.feature_probe_error),
            services: duplicate::views(self.services@),
            hypervisor_active: self.hypervisor_active,
        }
    }
}

impl Duplicate for HyperVStatus {
    fn duplicate(&self) -> (r: Self) {
        HyperVStatus {
            feature_state: self.feature_state,
            feature_probe_error: copy_opt(&self.feature_probe_error),
            services: duplicate_all(&self.services),
            hypervisor_active: self.hypervisor_active,
        }
    }
}

impl Clone for HyperVStatus {
    fn clone(&self) -> (r: Self)
        ensures
            r@ == self@,
    {
        self.duplicate()
    }
}

/// What a host offers for virtualization. What is known of the host's ASTER installation is
/// handed through.
#[derive(Debug)]
pub struct BackendProbeSnapshot<A> {
    pub system: WindowsSystemInfo,
    pub virtual_box: VirtualBoxStatus,
    pub hyper_v: HyperVStatus,
    pub aster: A,
    pub selected_backend: Option<BackendKind>,
    pub backend_capabilities: Vec<BackendCapabilities>,
    pub usb_correlations: Vec<UsbCorrelation>,
}

/// The model of [`BackendProbeSnapshot`].
#[verifier::ext_equal]
pub struct BackendProbeSnapshotView<A> {
    pub system: WindowsSystemInfoView,
    pub virtual_box: VirtualBoxStatusView,
    pub hyper_v: HyperVStatusView,
    pub aster: A,
    pub selected_backend: Option<BackendKind>,
    pub backend_capabilities: Seq<BackendCapabilitiesView>,
    pub usb_correlations: Seq<UsbCorrelationView>,
}

impl<A> View for BackendProbeSnapshot<A> {
    type V = BackendProbeSnapshotView<A>;

    open spec fn view(&self) -> BackendProbeSnapshotView<A> {
        BackendProbeSnapshotView {
            system: self.system@,
            virtual_box: self.virtual_box@,
            hyper_v: self.hyper_v@,
            aster: self.aster,
            selected_backend: self.selected_backend,
            backend_capabilities: duplicate::views(self.backend_capabilities@),
            usb_correlations: duplicate::views(self.usb_correlations@),
        }
    }
}

/// What a processor can be asked for.
#[derive(Clone, Copy, Debug, Eq, PartialEq, Structural)]
pub enum ProcessorFeature {
    HypervisorPresent,
    FirmwareVirtualization,
    SecondLevelAddressTranslation,
}

/// The states of a service.
#[derive(Clone, Copy, Debug, Eq, PartialEq, Structural)]
pub enum HostServiceState {
    Stopped,
    StartPending,
    StopPending,
    Running,
    ContinuePending,
    PausePending,
    Paused,
    Unknown,
}

/// What a command gave.
#[derive(Debug, Eq, PartialEq)]
pub struct CommandOutput {
    pub success: bool,
    pub exit_code: Option<i32>,
    pub stdout: Vec<u8>,
    pub stderr: Vec<u8>,
}

/// The model of [`CommandOutput`].
#[verifier::ext_equal]
pub struct CommandOutputView {
    pub success: bool,
    pub exit_code: Option<i32>,
    pub stdout: Seq<u8>,
    pub stderr: Seq<u8>,
}

impl View for CommandOutput {
    type V = CommandOutputView;

    open spec fn view(&self) -> CommandOutputView {
        CommandOutputView {
            success: self.success,
            exit_code: self.exit_code,
            stdout: self.stdout@,
            stderr: self.stderr@,
        }
    }
}

impl Duplicate for CommandOutput {
    fn duplicate(&self) -> (r: Self) {
        CommandOutput {
            success: self.success,
            exit_code: self.exit_code,
            stdout: self.stdout.clone(),
            stderr: self.stderr.clone(),
        }
    }
}

impl Clone for CommandOutput {
    fn clone(&self) -> (r: Self)
        ensures
            r@ == self@,
    {
        self.duplicate()
    }
}

/// Why the state of a service is not known.
#[derive(Debug, Eq, PartialEq)]
pub enum ServiceFailure {
    Open(String),
    Query(String),
}

/// The model of [`ServiceFailure`].
pub enum ServiceFailureView {
    Open(Text),
    Query(Text),
}

impl View for ServiceFailure {
    type V = ServiceFailureView;

    open spec fn view(&self) -> ServiceFailureView {
        match self {
            ServiceFailure::Open(error) => ServiceFailureView::Open(error@),
            ServiceFailure::Query(error) => ServiceFailureView::Query(error@),
        }
    }
}

/// A Windows host. Nothing is promised of what it answers but what an implementation chooses to
/// promise.
pub trait ProbeHost {
    /// Which answers it may give to which requests, whatever it has been asked before.
    open spec fn answers(&self) -> Relation<Request, Reply> {
        |request: Request, reply: Reply| true
    }

    /// A text in the registry of the machine.
    fn registry_text(&mut self, key: &str, value: &str) -> (r: Option<String>)
        ensures
            old(self).answers()(Request::RegistryText(key@, value@), Reply::MaybeText(model::opt_text(r))),
            final(self).answers() == old(self).answers(),
    ;

    /// A number in the registry of the machine.
    fn registry_number(&mut self, key: &str, value: &str) -> (r: Option<u32>)
        ensures
            old(self).answers()(Request::RegistryNumber(key@, value@), Reply::MaybeNumber(r)),
            final(self).answers() == old(self).answers(),
    ;

    /// Whether the processor has a feature.
    fn has_feature(&mut self, feature: ProcessorFeature) -> (r: bool)
        ensures
            old(self).answers()(Request::Feature(feature), Reply::Flag(r)),
            final(self).answers() == old(self).answers(),
    ;

    /// The architecture of the processor.
    fn architecture(&mut self) -> (r: String)
        ensures
            old(self).answers()(Request::Architecture, Reply::Name(r@)),
            final(self).answers() == old(self).answers(),
    ;

    /// The directory of the installed programs.
    fn program_files(&mut self) -> (r: Option<String>)
        ensures
            old(self).answers()(Request::ProgramFiles, Reply::MaybeText(model::opt_text(r))),
            final(self).answers() == old(self).answers(),
    ;

    /// Whether there is a file at a path.
    fn is_file(&mut self, path: &str) -> (r: bool)
        ensures
            old(self).answers()(Request::IsFile(path@), Reply::Flag(r)),
            final(self).answers() == old(self).answers(),
    ;

    /// Runs a program without a window.
    fn run(&mut self, program: &str, arguments: &[String]) -> (r: Result<CommandOutput, String>)
        ensures
            old(self).answers()(Request::Command(program@, model::texts(arguments@)), Reply::Output(output_result(r))),
            final(self).answers() == old(self).answers(),
    ;

    /// Connects to the service manager.
    fn open_service_manager(&mut self) -> (r: Result<(), String>)
        ensures
            old(self).answers()(Request::OpenServiceManager, Reply::Done(model::with_message(r))),
            final(self).answers() == old(self).answers(),
    ;

    /// The state of a service, or none where there is no such service.
    fn service_state(&mut self, name: &str) -> (r: Result<Option<HostServiceState>, ServiceFailure>)
        ensures
            old(self).answers()(Request::Service(name@), Reply::State(state_result(r))),
            final(self).answers() == old(self).answers(),
    ;
}

/// What is asked of a host.
pub enum Request {
    RegistryText(Text, Text),
    RegistryNumber(Text, Text),
    Feature(ProcessorFeature),
    Architecture,
    ProgramFiles,
    IsFile(Text),
    Command(Text, Seq<Text>),
    OpenServiceManager,
    Service(Text),
}

/// What a host answers.
pub enum Reply {
    MaybeText(Option<Text>),
    MaybeNumber(Option<u32>),
    Flag(bool),
    Name(Text),
    Output(Result<CommandOutputView, Text>),
    Done(Result<(), Text>),
    State(Result<Option<HostServiceState>, ServiceFailureView>),
}

/// A probe of a host.
pub struct HostProbe<H: ProbeHost> {
    host: H,
    journal: Ghost<Seq<Exchange<Request, Reply>>>,
}

impl<H: ProbeHost> Journaled for HostProbe<H> {
    type Request = Request;

    type Reply = Reply;

    type State = ();

    closed spec fn journal(self) -> Seq<Exchange<Request, Reply>> {
        self.journal@
    }

    closed spec fn state(self) -> () {
        ()
    }

    closed spec fn answers(self) -> Relation<Request, Reply> {
        self.host.answers()
    }
}

/// The world of a probe.
pub type Run = World<Request, Reply, ()>;

// ---- The system ------------------------------------------------------------------------

/// Where the registry describes the Windows version.
pub open spec fn version_key() -> Text {
    "SOFTWARE\\Microsoft\\Windows NT\\CurrentVersion"@
}

/// Where the registry describes VirtualBox.
pub open spec fn oracle_key() -> Text {
    "SOFTWARE\\Oracle\\VirtualBox"@
}

pub open spec fn text_p(w: Run, key: Text, value: Text) -> (Run, Option<Text>) {
    let (w1, reply) = journal::ask(w, Request::RegistryText(key, value));
    (w1, reply->MaybeText_0)
}

pub open spec fn feature_p(w: Run, feature: ProcessorFeature) -> (Run, bool) {
    let (w1, reply) = journal::ask(w, Request::Feature(feature));
    (w1, reply->Flag_0)
}

/// A build with its revision, where that is known.
pub open spec fn build_text(build: Option<Text>, revision: Option<u32>) -> Option<Text> {
    match (build, revision) {
        (Some(number), Some(part)) => Some(number + "."@ + model::decimal(part as nat)),
        (number, _) => number,
    }
}

pub open spec fn detected(value: bool) -> DetectionState {
    if value {
        DetectionState::Yes
    } else {
        DetectionState::No
    }
}

/// Finds out about the Windows on a host.
pub open spec fn system_p(w: Run, session_id: u32) -> (Run, WindowsSystemInfoView) {
    let (w1, build) = text_p(w, version_key(), "CurrentBuildNumber"@);
    let (w2, reply) = journal::ask(w1, Request::RegistryNumber(version_key(), "UBR"@));
    let (w3, product_name) = text_p(w2, version_key(), "ProductName"@);
    let (w4, edition) = text_p(w3, version_key(), "EditionID"@);
    let (w5, display_version) = text_p(w4, version_key(), "DisplayVersion"@);
    let (w6, architecture) = journal::ask(w5, Request::Architecture);
    let (w7, hypervisor) = feature_p(w6, ProcessorFeature::HypervisorPresent);
    let (w8, firmware) = feature_p(w7, ProcessorFeature::FirmwareVirtualization);
    let (w9, translation) = feature_p(w8, ProcessorFeature::SecondLevelAddressTranslation);
    (
        w9,
        WindowsSystemInfoView {
            product_name,
            edition,
            display_version,
            build: build_text(build, reply->MaybeNumber_0),
            architecture: architecture->Name_0,
            current_session_id: session_id,
            hypervisor_present: hypervisor,
            firmware_virtualization_enabled: detected(firmware),
            second_level_address_translation: detected(translation),
        },
    )
}

// ---- Commands --------------------------------------------------------------------------

pub open spec fn command_p(w: Run, program: Text, arguments: Seq<Text>) -> (
    Run,
    Result<CommandOutputView, Text>,
) {
    let (w1, reply) = journal::ask(w, Request::Command(program, arguments));
    (w1, reply->Output_0)
}

/// What is said of a command that failed.
pub open spec fn command_failure(operation: Text, output: CommandOutputView) -> Text {
    let stderr = model::trimmed(decode::lossy_utf8(output.stderr));
    operation + " failed with exit code "@ + model::exit_code(output.exit_code) + (
    if stderr.len() == 0 {
        seq![]
    } else {
        ": "@ + stderr
    })
}

/// What a command printed, where it printed anything.
pub open spec fn printed(output: CommandOutputView) -> Option<Text> {
    let value = model::trimmed(decode::lossy_utf8(output.stdout));
    if value.len() == 0 {
        None
    } else {
        Some(value)
    }
}

fn describe_failure(operation: &str, output: &CommandOutput) -> (r: String)
    ensures
        r@ == command_failure(operation@, output@),
{
    let text = decode_lossy(&output.stderr);
    let stderr = trim(text.as_str());
    let start = concat3(
        operation,
        " failed with exit code ",
        exit_text(output.exit_code).as_str(),
    );
    if stderr.as_str().is_empty() {
        assert(start@ =~= start@ + Seq::<char>::empty());
        start
    } else {
        let tail = concat2(": ", stderr.as_str());
        concat2(start.as_str(), tail.as_str())
    }
}

fn printed_text(output: &CommandOutput) -> (r: Option<String>)
    ensures
        model::opt_text(r) == printed(output@),
{
    let text = decode_lossy(&output.stdout);
    let value = trim(text.as_str());
    if value.as_str().is_empty() {
        None
    } else {
        Some(value)
    }
}

// ---- VirtualBox ------------------------------------------------------------------------

/// The first line at or after `from` that is not blank, without the blanks around it.
pub open spec fn filled_line_from(lines: Seq<Text>, from: int) -> Option<Text>
    decreases lines.len() - from,
{
    if from < 0 || from >= lines.len() {
        None
    } else if model::trimmed(lines[from]).len() > 0 {
        Some(model::trimmed(lines[from]))
    } else {
        filled_line_from(lines, from + 1)
    }
}

/// The path that the output of `where.exe` names.
pub open spec fn named_path(answer: Result<CommandOutputView, Text>) -> Option<Text> {
    match answer {
        Ok(output) => if output.success && utf8::valid_utf8(output.stdout) {
            filled_line_from(model::lines(utf8::decode_utf8(output.stdout)), 0)
        } else {
            None
        },
        Err(_) => None,
    }
}

pub open spec fn is_file_p(w: Run, path: Text) -> (Run, bool) {
    let (w1, reply) = journal::ask(w, Request::IsFile(path));
    (w1, reply->Flag_0)
}

/// Looks for `VBoxManage` where the search path leads.
pub open spec fn find_by_search_p(w: Run, registered: bool) -> (Run, (bool, Option<Text>)) {
    let (w1, answer) = command_p(w, "where.exe"@, seq!["VBoxManage.exe"@]);
    match named_path(answer) {
        None => (w1, (registered, None)),
        Some(path) => match is_file_p(w1, path) {
            (w2, true) => (w2, (true, Some(path))),
            (w2, false) => (w2, (registered, None)),
        },
    }
}

/// Looks for `VBoxManage` among the installed programs, and then where the search path leads.
pub open spec fn find_installed_p(w: Run, registered: bool) -> (Run, (bool, Option<Text>)) {
    let (w1, reply) = journal::ask(w, Request::ProgramFiles);
    match reply->MaybeText_0 {
        None => find_by_search_p(w1, registered),
        Some(directory) => {
            let path = paths::joined(
                paths::joined(paths::joined(directory, "Oracle"@), "VirtualBox"@),
                "VBoxManage.exe"@,
            );
            match is_file_p(w1, path) {
                (w2, true) => (w2, (true, Some(path))),
                (w2, false) => find_by_search_p(w2, registered),
            }
        },
    }
}

/// Looks for `VBoxManage`: whether VirtualBox is there, and where.
pub open spec fn find_p(w: Run) -> (Run, (bool, Option<Text>)) {
    let (w1, directory) = text_p(w, oracle_key(), "InstallDir"@);
    match directory {
        None => {
            let (w2, version) = text_p(w1, oracle_key(), "Version"@);
            find_installed_p(w2, version is Some)
        },
        Some(place) => {
            let path = paths::joined(place, "VBoxManage.exe"@);
            match is_file_p(w1, path) {
                (w2, true) => (w2, (true, Some(path))),
                (w2, false) => find_installed_p(w2, true),
            }
        },
    }
}

/// The status of a VirtualBox without `VBoxManage`.
pub open spec fn unfound(installed: bool) -> VirtualBoxStatusView {
    VirtualBoxStatusView {
        installed,
        vbox_manage_path: None,
        version: None,
        operational: false,
        probe_error: if installed {
            Some("VirtualBox registration was found but VBoxManage.exe was not"@)
        } else {
            None
        },
        parser_warnings: seq![],
        usb_devices: seq![],
    }
}

/// The status of a VirtualBox whose version was asked for.
pub open spec fn versioned(path: Text, answer: Result<CommandOutputView, Text>) ->
    VirtualBoxStatusView {
    let bare = VirtualBoxStatusView {
        installed: true,
        vbox_manage_path: Some(path),
        version: None,
        operational: false,
        probe_error: None,
        parser_warnings: seq![],
        usb_devices: seq![],
    };
    match answer {
        Ok(output) => if output.success {
            VirtualBoxStatusView { version: printed(output), operational: true, ..bare }
        } else {
            VirtualBoxStatusView {
                probe_error: Some(command_failure("VBoxManage --version"@, output)),
                ..bare
            }
        },
        Err(error) => VirtualBoxStatusView {
            probe_error: Some("could not execute VBoxManage --version: "@ + error),
            ..bare
        },
    }
}

/// The status of a VirtualBox whose USB devices were asked for.
pub open spec fn with_devices(
    status: VirtualBoxStatusView,
    answer: Result<CommandOutputView, Text>,
) -> VirtualBoxStatusView {
    match answer {
        Ok(output) => if !output.success {
            VirtualBoxStatusView {
                probe_error: Some(command_failure("VBoxManage list usbhost"@, output)),
                ..status
            }
        } else if utf8::valid_utf8(output.stdout) {
            let listing = usb::usb_listing(utf8::decode_utf8(output.stdout));
            VirtualBoxStatusView {
                parser_warnings: listing.warnings,
                usb_devices: listing.devices,
                ..status
            }
        } else {
            VirtualBoxStatusView {
                probe_error: Some(
                    "VBoxManage usbhost output was not UTF-8: "@ + decode::utf8_error(
                        output.stdout,
                    ),
                ),
                ..status
            }
        },
        Err(error) => VirtualBoxStatusView {
            probe_error: Some("could not execute VBoxManage list usbhost: "@ + error),
            ..status
        },
    }
}

/// Finds out about VirtualBox.
pub open spec fn virtual_box_p(w: Run) -> (Run, VirtualBoxStatusView) {
    match find_p(w) {
        (w1, (installed, None)) => (w1, unfound(installed)),
        (w1, (_, Some(path))) => {
            let (w2, answer) = command_p(w1, path, seq!["--version"@]);
            let status = versioned(path, answer);
            if status.operational {
                let (w3, listing) = command_p(w2, path, seq!["list"@, "usbhost"@]);
                (w3, with_devices(status, listing))
            } else {
                (w2, status)
            }
        },
    }
}

// ---- Hyper-V ---------------------------------------------------------------------------

/// The script that asks for the state of Hyper-V.
pub open spec fn feature_script() -> Text {
    "(Get-WindowsOptionalFeature -Online -FeatureName Microsoft-Hyper-V-All -ErrorAction Stop).State.ToString()"@
}

/// What the answer to the script means.
pub open spec fn feature_answer(answer: Result<CommandOutputView, Text>) -> (
    WindowsFeatureState,
    Option<Text>,
) {
    match answer {
        Ok(output) => if output.success {
            let state = model::lower(model::trimmed(decode::lossy_utf8(output.stdout)));
            (
                if state == "enabled"@ {
                    WindowsFeatureState::Enabled
                } else if state == "disabled"@ || state == "disablepending"@ {
                    WindowsFeatureState::Disabled
                } else {
                    WindowsFeatureState::Unknown
                },
                None,
            )
        } else {
            (
                WindowsFeatureState::Unknown,
                Some(command_failure("Get-WindowsOptionalFeature"@, output)),
            )
        },
        Err(error) => (
            WindowsFeatureState::Unknown,
            Some("could not query Hyper-V optional feature: "@ + error),
        ),
    }
}

/// Whether an edition of Windows is one of the core ones, which have no Hyper-V.
pub open spec fn is_core(edition: Option<Text>) -> bool {
    edition matches Some(name) && model::contains(model::lower(name), "core"@)
}

/// Asks for the state of Hyper-V.
pub open spec fn feature_state_p(w: Run, edition: Option<Text>) -> (
    Run,
    (WindowsFeatureState, Option<Text>),
) {
    if is_core(edition) {
        (w, (WindowsFeatureState::Unavailable, None))
    } else {
        let (w1, answer) = command_p(
            w,
            "powershell.exe"@,
            seq!["-NoProfile"@, "-NonInteractive"@, "-Command"@, feature_script()],
        );
        (w1, feature_answer(answer))
    }
}

pub open spec fn service_state_name(state: HostServiceState) -> Text {
    match state {
        HostServiceState::Stopped => "stopped"@,
        HostServiceState::StartPending => "startPending"@,
        HostServiceState::StopPending => "stopPending"@,
        HostServiceState::Running => "running"@,
        HostServiceState::ContinuePending => "continuePending"@,
        HostServiceState::PausePending => "pausePending"@,
        HostServiceState::Paused => "paused"@,
        HostServiceState::Unknown => "unknown"@,
    }
}

/// What the answer about a service means.
pub open spec fn service_answer(
    name: Text,
    answer: Result<Option<HostServiceState>, ServiceFailureView>,
) -> Result<HostServiceStatusView, Text> {
    match answer {
        Ok(None) => Ok(
            HostServiceStatusView {
                name,
                installed: false,
                running: false,
                state: "notInstalled"@,
            },
        ),
        Ok(Some(state)) => Ok(
            HostServiceStatusView {
                name,
                installed: true,
                running: state == HostServiceState::Running,
                state: service_state_name(state),
            },
        ),
        Err(ServiceFailureView::Open(error)) => Err(
            "OpenServiceW('"@ + name + "') failed: "@ + error,
        ),
        Err(ServiceFailureView::Query(error)) => Err(
            "QueryServiceStatusEx('"@ + name + "') failed: "@ + error,
        ),
    }
}

/// Asks for a service.
pub open spec fn service_p(w: Run, name: Text) -> (Run, Result<HostServiceStatusView, Text>) {
    let (w1, reply) = journal::ask(w, Request::Service(name));
    (w1, service_answer(name, reply->State_0))
}

/// Asks for the services of Hyper-V.
pub open spec fn services_p(w: Run) -> (Run, Result<Seq<HostServiceStatusView>, Text>) {
    let (w1, reply) = journal::ask(w, Request::OpenServiceManager);
    match reply->Done_0 {
        Err(error) => (w1, Err("OpenSCManagerW for Hyper-V probe failed: "@ + error)),
        Ok(()) => match service_p(w1, "vmms"@) {
            (w2, Err(message)) => (w2, Err(message)),
            (w2, Ok(management)) => match service_p(w2, "vmcompute"@) {
                (w3, Err(message)) => (w3, Err(message)),
                (w3, Ok(compute)) => (w3, Ok(seq![management, compute])),
            },
        },
    }
}

/// Finds out about Hyper-V.
pub open spec fn hyper_v_p(w: Run, hypervisor_active: bool, edition: Option<Text>) -> (
    Run,
    Result<HyperVStatusView, Text>,
) {
    let (w1, (feature_state, feature_probe_error)) = feature_state_p(w, edition);
    match services_p(w1) {
        (w2, Err(message)) => (w2, Err(message)),
        (w2, Ok(services)) => (
            w2,
            Ok(
                HyperVStatusView {
                    feature_state,
                    feature_probe_error,
                    services,
                    hypervisor_active,
                },
            ),
        ),
    }
}

// ---- The probe -------------------------------------------------------------------------

/// What the backends can do on a host. None of them activates a seat.
pub open spec fn offered(virtual_box: VirtualBoxStatusView, hyper_v: HyperVStatusView) -> Seq<
    BackendCapabilitiesView,
> {
    seq![
        BackendCapabilitiesView {
            backend_kind: BackendKind::VirtualBox,
            available: virtual_box.operational,
            status_probe: virtual_box.operational,
            usb_discovery: virtual_box.operational && virtual_box.probe_error is None,
            activation_supported: false,
        },
        BackendCapabilitiesView {
            backend_kind: BackendKind::HyperV,
            available: hyper_v.feature_state == WindowsFeatureState::Enabled
                || hyper_v.hypervisor_active,
            status_probe: true,
            usb_discovery: false,
            activation_supported: false,
        },
        BackendCapabilitiesView {
            backend_kind: BackendKind::Native,
            available: false,
            status_probe: false,
            usb_discovery: false,
            activation_supported: false,
        },
    ]
}

/// Finds out what a host offers.
pub open spec fn probe_p<A>(
    w: Run,
    devices: Seq<PhysicalInputDeviceView>,
    aster: A,
    session_id: u32,
) -> (Run, Result<BackendProbeSnapshotView<A>, Text>) {
    let (w1, system) = system_p(w, session_id);
    let (w2, virtual_box) = virtual_box_p(w1);
    match hyper_v_p(w2, system.hypervisor_present, system.edition) {
        (w3, Err(message)) => (w3, Err(message)),
        (w3, Ok(hyper_v)) => (
            w3,
            Ok(
                BackendProbeSnapshotView {
                    system,
                    virtual_box,
                    hyper_v,
                    aster,
                    selected_backend: None,
                    backend_capabilities: offered(virtual_box, hyper_v),
                    usb_correlations: devices.map_values(
                        |device: PhysicalInputDeviceView| usb::correlated(device, virtual_box),
                    ),
                },
            ),
        ),
    }
}

/// The view of a command's output, or of why there is none.
pub open spec fn output_result(r: Result<CommandOutput, String>) -> Result<
    CommandOutputView,
    Text,
> {
    match r {
        Ok(output) => Ok(output@),
        Err(message) => Err(message@),
    }
}

/// The view of a service's state, or of why it is not known.
pub open spec fn state_result(r: Result<Option<HostServiceState>, ServiceFailure>) -> Result<
    Option<HostServiceState>,
    ServiceFailureView,
> {
    match r {
        Ok(state) => Ok(state),
        Err(failure) => Err(failure@),
    }
}

spec fn found_result(r: (bool, Option<String>)) -> (bool, Option<Text>) {
    (r.0, model::opt_text(r.1))
}

spec fn feature_result(r: (WindowsFeatureState, Option<String>)) -> (
    WindowsFeatureState,
    Option<Text>,
) {
    (r.0, model::opt_text(r.1))
}

spec fn service_result(r: Result<HostServiceStatus, String>) -> Result<HostServiceStatusView, Text> {
    match r {
        Ok(status) => Ok(status@),
        Err(message) => Err(message@),
    }
}

spec fn services_result(r: Result<Vec<HostServiceStatus>, String>) -> Result<
    Seq<HostServiceStatusView>,
    Text,
> {
    match r {
        Ok(services) => Ok(duplicate::views(services@)),
        Err(message) => Err(message@),
    }
}

spec fn hyper_v_result(r: Result<HyperVStatus, String>) -> Result<HyperVStatusView, Text> {
    match r {
        Ok(status) => Ok(status@),
        Err(message) => Err(message@),
    }
}

/// The view of a snapshot, or of why there is none.
pub open spec fn snapshot_result<A>(r: Result<BackendProbeSnapshot<A>, String>) -> Result<
    BackendProbeSnapshotView<A>,
    Text,
> {
    match r {
        Ok(snapshot) => Ok(snapshot@),
        Err(message) => Err(message@),
    }
}

fn detection_state(value: bool) -> (r: DetectionState)
    ensures
        r == detected(value),
{
    if value {
        DetectionState::Yes
    } else {
        DetectionState::No
    }
}

fn build_with_revision(build: Option<String>, revision: Option<u32>) -> (r: Option<String>)
    ensures
        model::opt_text(r) == build_text(model::opt_text(build), revision),
{
    match (build, revision) {
        (Some(number), Some(part)) => {
            let part = number_text(part as u64);
            Some(concat3(number.as_str(), ".", part.as_str()))
        },
        (number, _) => number,
    }
}

fn path_in(answer: Result<CommandOutput, String>) -> (r: Option<String>)
    ensures
        model::opt_text(r) == named_path(output_result(answer)),
{
    let output = match answer {
        Ok(output) => output,
        Err(_) => {
            return None;
        },
    };
    if !output.success {
        return None;
    }
    let text = match decode(output.stdout) {
        Ok(text) => text,
        Err(_) => {
            return None;
        },
    };
    let lines = lines_of(text.as_str());
    let ghost all = model::texts(lines@);
    let mut i: usize = 0;
    while i < lines.len()
        invariant
            i <= lines@.len(),
            all == model::texts(lines@),
            named_path(output_result(answer)) == filled_line_from(all, i as int),
        decreases lines.len() - i,
    {
        assert(all[i as int] == lines@[i as int]@);
        let line = trim(lines[i].as_str());
        if !line.as_str().is_empty() {
            return Some(line);
        }
        i += 1;
    }
    None
}

fn status_without_command(installed: bool) -> (r: VirtualBoxStatus)
    ensures
        r@ == unfound(installed),
{
    let status = VirtualBoxStatus {
        installed,
        vbox_manage_path: None,
        version: None,
        operational: false,
        probe_error: if installed {
            Some("VirtualBox registration was found but VBoxManage.exe was not".to_owned())
        } else {
            None
        },
        parser_warnings: Vec::new(),
        usb_devices: Vec::new(),
    };
    assert(status@ =~= unfound(installed));
    status
}

fn status_with_version(path: &str, answer: Result<CommandOutput, String>) -> (r: VirtualBoxStatus)
    ensures
        r@ == versioned(path@, output_result(answer)),
{
    let mut status = VirtualBoxStatus {
        installed: true,
        vbox_manage_path: Some(path.to_owned()),
        version: None,
        operational: false,
        probe_error: None,
        parser_warnings: Vec::new(),
        usb_devices: Vec::new(),
    };
    match &answer {
        Ok(output) => {
            if output.success {
                status.version = printed_text(output);
                status.operational = true;
            } else {
                status.probe_error = Some(describe_failure("VBoxManage --version", output));
            }
        },
        Err(error) => {
            status.probe_error =
            Some(concat2("could not execute VBoxManage --version: ", error.as_str()));
        },
    }
    assert(status@ =~= versioned(path@, output_result(answer)));
    status
}

fn status_with_devices(status: VirtualBoxStatus, answer: Result<CommandOutput, String>) -> (r:
    VirtualBoxStatus)
    ensures
        r@ == with_devices(status@, output_result(answer)),
{
    let mut status = status;
    match answer {
        Ok(output) => {
            if !output.success {
                status.probe_error = Some(describe_failure("VBoxManage list usbhost", &output));
            } else {
                match decode(output.stdout) {
                    Ok(text) => {
                        let listing = parse_virtualbox_usbhost(text.as_str());
                        status.parser_warnings = listing.warnings;
                        status.usb_devices = listing.devices;
                    },
                    Err(error) => {
                        status.probe_error =
                        Some(
                            concat2("VBoxManage usbhost output was not UTF-8: ", error.as_str()),
                        );
                    },
                }
            }
        },
        Err(error) => {
            status.probe_error =
            Some(concat2("could not execute VBoxManage list usbhost: ", error.as_str()));
        },
    }
    status
}

fn read_feature(answer: Result<CommandOutput, String>) -> (r: (WindowsFeatureState, Option<String>))
    ensures
        feature_result(r) == feature_answer(output_result(answer)),
{
    match &answer {
        Ok(output) => {
            if output.success {
                let text = decode_lossy(&output.stdout);
                let state = to_lower(trim(text.as_str()).as_str());
                let parsed = if same(state.as_str(), "enabled") {
                    WindowsFeatureState::Enabled
                } else if same(state.as_str(), "disabled") || same(
                    state.as_str(),
                    "disablepending",
                ) {
                    WindowsFeatureState::Disabled
                } else {
                    WindowsFeatureState::Unknown
                };
                (parsed, None)
            } else {
                (
                    WindowsFeatureState::Unknown,
                    Some(describe_failure("Get-WindowsOptionalFeature", output)),
                )
            }
        },
        Err(error) => (
            WindowsFeatureState::Unknown,
            Some(concat2("could not query Hyper-V optional feature: ", error.as_str())),
        ),
    }
}

fn name_of_service_state(state: HostServiceState) -> (r: &'static str)
    ensures
        r@ == service_state_name(state),
{
    match state {
        HostServiceState::Stopped => "stopped",
        HostServiceState::StartPending => "startPending",
        HostServiceState::StopPending => "stopPending",
        HostServiceState::Running => "running",
        HostServiceState::ContinuePending => "continuePending",
        HostServiceState::PausePending => "pausePending",
        HostServiceState::Paused => "paused",
        HostServiceState::Unknown => "unknown",
    }
}

fn read_service(name: &str, answer: Result<Option<HostServiceState>, ServiceFailure>) -> (r: Result<
    HostServiceStatus,
    String,
>)
    ensures
        service_result(r) == service_answer(name@, state_result(answer)),
{
    match answer {
        Ok(None) => Ok(
            HostServiceStatus {
                name: name.to_owned(),
                installed: false,
                running: false,
                state: "notInstalled".to_owned(),
            },
        ),
        Ok(Some(state)) => Ok(
            HostServiceStatus {
                name: name.to_owned(),
                installed: true,
                running: state == HostServiceState::Running,
                state: name_of_service_state(state).to_owned(),
            },
        ),
        Err(ServiceFailure::Open(error)) => Err(
            concat4("OpenServiceW('", name, "') failed: ", error.as_str()),
        ),
        Err(ServiceFailure::Query(error)) => Err(
            concat4("QueryServiceStatusEx('", name, "') failed: ", error.as_str()),
        ),
    }
}

fn backend_offers(virtual_box: &VirtualBoxStatus, hyper_v: &HyperVStatus) -> (r: Vec<
    BackendCapabilities,
>)
    ensures
        duplicate::views(r@) == offered(virtual_box@, hyper_v@),
{
    let offers = vec![
        BackendCapabilities {
            backend_kind: BackendKind::VirtualBox,
            available: virtual_box.operational,
            status_probe: virtual_box.operational,
            usb_discovery: virtual_box.operational && virtual_box.probe_error.is_none(),
            activation_supported: false,
        },
        BackendCapabilities {
            backend_kind: BackendKind::HyperV,
            available: hyper_v.feature_state == WindowsFeatureState::Enabled
                || hyper_v.hypervisor_active,
            status_probe: true,
            usb_discovery: false,
            activation_supported: false,
        },
        BackendCapabilities {
            backend_kind: BackendKind::Native,
            available: false,
            status_probe: false,
            usb_discovery: false,
            activation_supported: false,
        },
    ];
    assert(duplicate::views(offers@) =~= offered(virtual_box@, hyper_v@));
    offers
}

fn one(a: &str) -> (r: Vec<String>)
    ensures
        model::texts(r@) == seq![a@],
{
    let list = vec![a.to_owned()];
    assert(model::texts(list@) =~= seq![a@]);
    list
}

fn two(a: &str, b: &str) -> (r: Vec<String>)
    ensures
        model::texts(r@) == seq![a@, b@],
{
    let list = vec![a.to_owned(), b.to_owned()];
    assert(model::texts(list@) =~= seq![a@, b@]);
    list
}

fn four(a: &str, b: &str, c: &str, d: &str) -> (r: Vec<String>)
    ensures
        model::texts(r@) == seq![a@, b@, c@, d@],
{
    let list = vec![a.to_owned(), b.to_owned(), c.to_owned(), d.to_owned()];
    assert(model::texts(list@) =~= seq![a@, b@, c@, d@]);
    list
}

impl<H: ProbeHost> HostProbe<H> {
    /// Whether this is the host that is probed.
    pub closed spec fn probes(self, host: H) -> bool {
        self.host == host
    }

    /// A probe of a host that has been asked nothing yet.
    pub fn new(host: H) -> (r: Self)
        ensures
            r.probes(host),
            r.answers() == host.answers(),
            r.journal() == Seq::<Exchange<Request, Reply>>::empty(),
    {
        HostProbe { host, journal: Ghost(Seq::empty()) }
    }

    fn registry_text(&mut self, key: &str, value: &str) -> (r: Option<String>)
        ensures
            journal::runs(
                *old(self),
                *final(self),
                |w: Run|
                    {
                        let (after, reply) = journal::ask(w, Request::RegistryText(key@, value@));
                        (after, reply->MaybeText_0)
                    },
                model::opt_text(r),
            ),
    {
        let ghost before = *self;
        let ghost request = Request::RegistryText(key@, value@);
        let r = self.host.registry_text(key, value);
        let ghost reply = Reply::MaybeText(model::opt_text(r));
        self.journal = Ghost(self.journal@.push(Exchange { request, reply }));
        proof {
            journal::lemma_asked(before, *self, request, reply, before.answers());
        }
        r
    }

    fn registry_number(&mut self, key: &str, value: &str) -> (r: Option<u32>)
        ensures
            journal::runs(
                *old(self),
                *final(self),
                |w: Run|
                    {
                        let (after, reply) = journal::ask(w, Request::RegistryNumber(key@, value@));
                        (after, reply->MaybeNumber_0)
                    },
                r,
            ),
    {
        let ghost before = *self;
        let ghost request = Request::RegistryNumber(key@, value@);
        let r = self.host.registry_number(key, value);
        let ghost reply = Reply::MaybeNumber(r);
        self.journal = Ghost(self.journal@.push(Exchange { request, reply }));
        proof {
            journal::lemma_asked(before, *self, request, reply, before.answers());
        }
        r
    }

    fn has_feature(&mut self, feature: ProcessorFeature) -> (r: bool)
        ensures
            journal::runs(
                *old(self),
                *final(self),
                |w: Run|
                    {
                        let (after, reply) = journal::ask(w, Request::Feature(feature));
                        (after, reply->Flag_0)
                    },
                r,
            ),
    {
        let ghost before = *self;
        let ghost request = Request::Feature(feature);
        let r = self.host.has_feature(feature);
        let ghost reply = Reply::Flag(r);
        self.journal = Ghost(self.journal@.push(Exchange { request, reply }));
        proof {
            journal::lemma_asked(before, *self, request, reply, before.answers());
        }
        r
    }

    fn architecture(&mut self) -> (r: String)
        ensures
            journal::runs(
                *old(self),
                *final(self),
                |w: Run|
                    {
                        let (after, reply) = journal::ask(w, Request::Architecture);
                        (after, reply->Name_0)
                    },
                r@,
            ),
    {
        let ghost before = *self;
        let ghost request = Request::Architecture;
        let r = self.host.architecture();
        let ghost reply = Reply::Name(r@);
        self.journal = Ghost(self.journal@.push(Exchange { request, reply }));
        proof {
            journal::lemma_asked(before, *self, request, reply, before.answers());
        }
        r
    }

    fn program_files(&mut self) -> (r: Option<String>)
        ensures
            journal::runs(
                *old(self),
                *final(self),
                |w: Run|
                    {
                        let (after, reply) = journal::ask(w, Request::ProgramFiles);
                        (after, reply->MaybeText_0)
                    },
                model::opt_text(r),
            ),
    {
        let ghost before = *self;
        let ghost request = Request::ProgramFiles;
        let r = self.host.program_files();
        let ghost reply = Reply::MaybeText(model::opt_text(r));
        self.journal = Ghost(self.journal@.push(Exchange { request, reply }));
        proof {
            journal::lemma_asked(before, *self, request, reply, before.answers());
        }
        r
    }

    fn is_file(&mut self, path: &str) -> (r: bool)
        ensures
            journal::runs(
                *old(self),
                *final(self),
                |w: Run|
                    {
                        let (after, reply) = journal::ask(w, Request::IsFile(path@));
                        (after, reply->Flag_0)
                    },
                r,
            ),
    {
        let ghost before = *self;
        let ghost request = Request::IsFile(path@);
        let r = self.host.is_file(path);
        let ghost reply = Reply::Flag(r);
        self.journal = Ghost(self.journal@.push(Exchange { request, reply }));
        proof {
            journal::lemma_asked(before, *self, request, reply, before.answers());
        }
        r
    }

    fn run(&mut self, program: &str, arguments: &Vec<String>) -> (r: Result<CommandOutput, String>)
        ensures
            journal::runs(
                *old(self),
                *final(self),
                |w: Run|
                    {
                        let (after, reply) = journal::ask(w, Request::Command(program@, model::texts(arguments@)));
                        (after, reply->Output_0)
                    },
                output_result(r),
            ),
    {
        let ghost before = *self;
        let ghost request = Request::Command(program@, model::texts(arguments@));
        let r = self.host.run(program, arguments.as_slice());
        let ghost reply = Reply::Output(output_result(r));
        self.journal = Ghost(self.journal@.push(Exchange { request, reply }));
        proof {
            journal::lemma_asked(before, *self, request, reply, before.answers());
        }
        r
    }

    fn open_service_manager(&mut self) -> (r: Result<(), String>)
        ensures
            journal::runs(
                *old(self),
                *final(self),
                |w: Run|
                    {
                        let (after, reply) = journal::ask(w, Request::OpenServiceManager);
                        (after, reply->Done_0)
                    },
                model::with_message(r),
            ),
    {
        let ghost before = *self;
        let ghost request = Request::OpenServiceManager;
        let r = self.host.open_service_manager();
        let ghost reply = Reply::Done(model::with_message(r));
        self.journal = Ghost(self.journal@.push(Exchange { request, reply }));
        proof {
            journal::lemma_asked(before, *self, request, reply, before.answers());
        }
        r
    }

    fn service_state(&mut self, name: &str) -> (r: Result<Option<HostServiceState>, ServiceFailure>)
        ensures
            journal::runs(
                *old(self),
                *final(self),
                |w: Run|
                    {
                        let (after, reply) = journal::ask(w, Request::Service(name@));
                        (after, reply->State_0)
                    },
                state_result(r),
            ),
    {
        let ghost before = *self;
        let ghost request = Request::Service(name@);
        let r = self.host.service_state(name);
        let ghost reply = Reply::State(state_result(r));
        self.journal = Ghost(self.journal@.push(Exchange { request, reply }));
        proof {
            journal::lemma_asked(before, *self, request, reply, before.answers());
        }
        r
    }


    fn probe_system(&mut self, current_session_id: u32) -> (r: WindowsSystemInfo)
        ensures
            journal::runs(*old(self), *final(self), |w: Run| system_p(w, current_session_id), r@),
    {
        let key = "SOFTWARE\\Microsoft\\Windows NT\\CurrentVersion";
        let build = self.registry_text(key, "CurrentBuildNumber");
        let revision = self.registry_number(key, "UBR");
        let product_name = self.registry_text(key, "ProductName");
        let edition = self.registry_text(key, "EditionID");
        let display_version = self.registry_text(key, "DisplayVersion");
        let architecture = self.architecture();
        let hypervisor_present = self.has_feature(ProcessorFeature::HypervisorPresent);
        let firmware = self.has_feature(ProcessorFeature::FirmwareVirtualization);
        let translation = self.has_feature(ProcessorFeature::SecondLevelAddressTranslation);
        WindowsSystemInfo {
            product_name,
            edition,
            display_version,
            build: build_with_revision(build, revision),
            architecture,
            current_session_id,
            hypervisor_present,
            firmware_virtualization_enabled: detection_state(firmware),
            second_level_address_translation: detection_state(translation),
        }
    }

    fn find_by_search(&mut self, registered: bool) -> (r: (bool, Option<String>))
        ensures
            journal::runs(
                *old(self),
                *final(self),
                |w: Run| find_by_search_p(w, registered),
                found_result(r),
            ),
    {
        let answer = self.run("where.exe", &one("VBoxManage.exe"));
        match path_in(answer) {
            None => (registered, None),
            Some(path) => if self.is_file(path.as_str()) {
                (true, Some(path))
            } else {
                (registered, None)
            },
        }
    }

    fn find_installed(&mut self, registered: bool) -> (r: (bool, Option<String>))
        ensures
            journal::runs(
                *old(self),
                *final(self),
                |w: Run| find_installed_p(w, registered),
                found_result(r),
            ),
    {
        if let Some(directory) = self.program_files() {
            let oracle = join_path(directory.as_str(), "Oracle");
            let place = join_path(oracle.as_str(), "VirtualBox");
            let path = join_path(place.as_str(), "VBoxManage.exe");
            if self.is_file(path.as_str()) {
                return (true, Some(path));
            }
        }
        self.find_by_search(registered)
    }

    /// Looks for `VBoxManage`: whether VirtualBox is there, and where.
    pub fn find_vbox_manage(&mut self) -> (r: (bool, Option<String>))
        ensures
            journal::runs(
                *old(self),
                *final(self),
                |w: Run| find_p(w),
                (r.0, model::opt_text(r.1)),
            ),
    {
        let key = "SOFTWARE\\Oracle\\VirtualBox";
        match self.registry_text(key, "InstallDir") {
            None => {
                let version = self.registry_text(key, "Version");
                self.find_installed(version.is_some())
            },
            Some(directory) => {
                let path = join_path(directory.as_str(), "VBoxManage.exe");
                if self.is_file(path.as_str()) {
                    return (true, Some(path));
                }
                self.find_installed(true)
            },
        }
    }

    fn probe_virtual_box(&mut self) -> (r: VirtualBoxStatus)
        ensures
            journal::runs(*old(self), *final(self), |w: Run| virtual_box_p(w), r@),
    {
        let (installed, found) = self.find_vbox_manage();
        let path = match found {
            Some(path) => path,
            None => {
                return status_without_command(installed);
            },
        };
        let answer = self.run(path.as_str(), &one("--version"));
        let status = status_with_version(path.as_str(), answer);
        if status.operational {
            let listing = self.run(path.as_str(), &two("list", "usbhost"));
            status_with_devices(status, listing)
        } else {
            status
        }
    }

    fn probe_hyper_v_feature(&mut self, edition: &Option<String>) -> (r: (
        WindowsFeatureState,
        Option<String>,
    ))
        ensures
            journal::runs(
                *old(self),
                *final(self),
                |w: Run| feature_state_p(w, model::opt_text(*edition)),
                feature_result(r),
            ),
    {
        let core = match edition {
            Some(name) => {
                let lower = to_lower(name.as_str());
                has(lower.as_str(), "core")
            },
            None => false,
        };
        if core {
            return (WindowsFeatureState::Unavailable, None);
        }
        let answer = self.run(
            "powershell.exe",
            &four(
                "-NoProfile",
                "-NonInteractive",
                "-Command",
                "(Get-WindowsOptionalFeature -Online -FeatureName Microsoft-Hyper-V-All -ErrorAction Stop).State.ToString()",
            ),
        );
        read_feature(answer)
    }

    fn query_service(&mut self, name: &str) -> (r: Result<HostServiceStatus, String>)
        ensures
            journal::runs(
                *old(self),
                *final(self),
                |w: Run| service_p(w, name@),
                service_result(r),
            ),
    {
        let answer = self.service_state(name);
        read_service(name, answer)
    }

    fn query_services(&mut self) -> (r: Result<Vec<HostServiceStatus>, String>)
        ensures
            journal::runs(
                *old(self),
                *final(self),
                |w: Run| services_p(w),
                services_result(r),
            ),
    {
        if let Err(error) = self.open_service_manager() {
            return Err(concat2("OpenSCManagerW for Hyper-V probe failed: ", error.as_str()));
        }
        let management = match self.query_service("vmms") {
            Ok(status) => status,
            Err(message) => {
                return Err(message);
            },
        };
        let compute = match self.query_service("vmcompute") {
            Ok(status) => status,
            Err(message) => {
                return Err(message);
            },
        };
        let services = vec![management, compute];
        assert(duplicate::views(services@) =~= seq![management@, compute@]);
        Ok(services)
    }

    fn probe_hyper_v(&mut self, hypervisor_active: bool, edition: &Option<String>) -> (r: Result<
        HyperVStatus,
        String,
    >)
        ensures
            journal::runs(
                *old(self),
                *final(self),
                |w: Run| hyper_v_p(w, hypervisor_active, model::opt_text(*edition)),
                hyper_v_result(r),
            ),
    {
        let (feature_state, feature_probe_error) = self.probe_hyper_v_feature(edition);
        match self.query_services() {
            Ok(services) => Ok(
                HyperVStatus { feature_state, feature_probe_error, services, hypervisor_active },
            ),
            Err(message) => Err(message),
        }
    }
}

/// Finds out what a host offers for virtualization.
pub fn probe<H: ProbeHost, A>(
    host: &mut HostProbe<H>,
    physical_devices: &[PhysicalInputDevice],
    aster: A,
    current_session_id: u32,
) -> (r: Result<BackendProbeSnapshot<A>, String>)
    ensures
        journal::runs(
            *old(host),
            *final(host),
            |w: Run| probe_p(w, duplicate::views(physical_devices@), aster, current_session_id),
            snapshot_result(r),
        ),
{
    let system = host.probe_system(current_session_id);
    let virtual_box = host.probe_virtual_box();
    let hyper_v = match host.probe_hyper_v(system.hypervisor_present, &system.edition) {
        Ok(status) => status,
        Err(message) => {
            return Err(message);
        },
    };
    let usb_correlations = correlate_usb_devices(physical_devices, &virtual_box);
    let backend_capabilities = backend_offers(&virtual_box, &hyper_v);
    Ok(
        BackendProbeSnapshot {
            system,
            virtual_box,
            hyper_v,
            aster,
            selected_backend: None,
            backend_capabilities,
            usb_correlations,
        },
    )
}

// ---- Laws ------------------------------------------------------------------------------

/// A probe never selects a backend, and no backend that it reports activates seats.
pub proof fn law_a_probe_selects_nothing<A>(
    w: Run,
    devices: Seq<PhysicalInputDeviceView>,
    aster: A,
    session_id: u32,
)
    ensures
        probe_p(w, devices, aster, session_id).1 matches Ok(snapshot) ==> {
            &&& snapshot.selected_backend is None
            &&& forall|i: int|
                0 <= i < snapshot.backend_capabilities.len() ==> !(
                #[trigger] snapshot.backend_capabilities[i]).activation_supported
        },
{
}

/// Each physical device gets one correlation, its own, in the order of the devices.
pub proof fn law_every_device_is_correlated<A>(
    w: Run,
    devices: Seq<PhysicalInputDeviceView>,
    aster: A,
    session_id: u32,
)
    ensures
        probe_p(w, devices, aster, session_id).1 matches Ok(snapshot) ==> {
            &&& snapshot.usb_correlations.len() == devices.len()
            &&& forall|i: int|
                0 <= i < devices.len() ==> (
                #[trigger] snapshot.usb_correlations[i]).physical_device_id == devices[i].id
        },
{
}

/// The command by which Hyper-V is asked about.
pub open spec fn feature_command() -> Seq<Text> {
    seq!["-NoProfile"@, "-NonInteractive"@, "-Command"@, feature_script()]
}

/// The rule of a probe: of the commands that it runs one looks for a program, one asks for the
/// state of Hyper-V, and VirtualBox is asked for its version and for its USB devices.
pub open spec fn only_reads() -> spec_fn(Seq<Request>, Request) -> bool {
    |earlier: Seq<Request>, put: Request|
        put matches Request::Command(program, arguments) ==> {
            ||| program == "where.exe"@ && arguments == seq!["VBoxManage.exe"@]
            ||| program == "powershell.exe"@ && arguments == feature_command()
            ||| arguments == seq!["--version"@]
            ||| arguments == seq!["list"@, "usbhost"@]
        }
}

proof fn lemma_reads(w: Run, request: Request)
    requires
        only_reads()(w.requests, request),
    ensures
        journal::within(w, journal::ask(w, request).0, only_reads()),
{
    journal::lemma_within_ask(w, request, only_reads());
}

proof fn lemma_system_reads(w: Run, session_id: u32)
    ensures
        journal::within(w, system_p(w, session_id).0, only_reads()),
{
    let rule = only_reads();
    let key = version_key();
    let (w1, _) = text_p(w, key, "CurrentBuildNumber"@);
    let (w2, _) = journal::ask(w1, Request::RegistryNumber(key, "UBR"@));
    let (w3, _) = text_p(w2, key, "ProductName"@);
    let (w4, _) = text_p(w3, key, "EditionID"@);
    let (w5, _) = text_p(w4, key, "DisplayVersion"@);
    let (w6, _) = journal::ask(w5, Request::Architecture);
    let (w7, _) = feature_p(w6, ProcessorFeature::HypervisorPresent);
    let (w8, _) = feature_p(w7, ProcessorFeature::FirmwareVirtualization);
    let (w9, _) = feature_p(w8, ProcessorFeature::SecondLevelAddressTranslation);
    lemma_reads(w, Request::RegistryText(key, "CurrentBuildNumber"@));
    lemma_reads(w1, Request::RegistryNumber(key, "UBR"@));
    lemma_reads(w2, Request::RegistryText(key, "ProductName"@));
    lemma_reads(w3, Request::RegistryText(key, "EditionID"@));
    lemma_reads(w4, Request::RegistryText(key, "DisplayVersion"@));
    lemma_reads(w5, Request::Architecture);
    lemma_reads(w6, Request::Feature(ProcessorFeature::HypervisorPresent));
    lemma_reads(w7, Request::Feature(ProcessorFeature::FirmwareVirtualization));
    lemma_reads(w8, Request::Feature(ProcessorFeature::SecondLevelAddressTranslation));
    journal::lemma_within_both(w, w1, w2, rule);
    journal::lemma_within_both(w, w2, w3, rule);
    journal::lemma_within_both(w, w3, w4, rule);
    journal::lemma_within_both(w, w4, w5, rule);
    journal::lemma_within_both(w, w5, w6, rule);
    journal::lemma_within_both(w, w6, w7, rule);
    journal::lemma_within_both(w, w7, w8, rule);
    journal::lemma_within_both(w, w8, w9, rule);
}

proof fn lemma_find_by_search_reads(w: Run, registered: bool)
    ensures
        journal::within(w, find_by_search_p(w, registered).0, only_reads()),
{
    let search = Request::Command("where.exe"@, seq!["VBoxManage.exe"@]);
    lemma_reads(w, search);
    let (w1, answer) = command_p(w, "where.exe"@, seq!["VBoxManage.exe"@]);
    if let Some(path) = named_path(answer) {
        lemma_reads(w1, Request::IsFile(path));
        journal::lemma_within_both(w, w1, is_file_p(w1, path).0, only_reads());
    }
}

proof fn lemma_find_installed_reads(w: Run, registered: bool)
    ensures
        journal::within(w, find_installed_p(w, registered).0, only_reads()),
{
    let rule = only_reads();
    lemma_reads(w, Request::ProgramFiles);
    let (w1, reply) = journal::ask(w, Request::ProgramFiles);
    match reply->MaybeText_0 {
        None => {
            lemma_find_by_search_reads(w1, registered);
            journal::lemma_within_both(w, w1, find_by_search_p(w1, registered).0, rule);
        },
        Some(directory) => {
            let path = paths::joined(
                paths::joined(paths::joined(directory, "Oracle"@), "VirtualBox"@),
                "VBoxManage.exe"@,
            );
            lemma_reads(w1, Request::IsFile(path));
            let (w2, _) = is_file_p(w1, path);
            journal::lemma_within_both(w, w1, w2, rule);
            lemma_find_by_search_reads(w2, registered);
            journal::lemma_within_both(w, w2, find_by_search_p(w2, registered).0, rule);
        },
    }
}

proof fn lemma_find_reads(w: Run)
    ensures
        journal::within(w, find_p(w).0, only_reads()),
{
    let rule = only_reads();
    lemma_reads(w, Request::RegistryText(oracle_key(), "InstallDir"@));
    let (w1, directory) = text_p(w, oracle_key(), "InstallDir"@);
    match directory {
        None => {
            lemma_reads(w1, Request::RegistryText(oracle_key(), "Version"@));
            let (w2, version) = text_p(w1, oracle_key(), "Version"@);
            journal::lemma_within_both(w, w1, w2, rule);
            lemma_find_installed_reads(w2, version is Some);
            journal::lemma_within_both(w, w2, find_installed_p(w2, version is Some).0, rule);
        },
        Some(place) => {
            let path = paths::joined(place, "VBoxManage.exe"@);
            lemma_reads(w1, Request::IsFile(path));
            let (w2, _) = is_file_p(w1, path);
            journal::lemma_within_both(w, w1, w2, rule);
            lemma_find_installed_reads(w2, true);
            journal::lemma_within_both(w, w2, find_installed_p(w2, true).0, rule);
        },
    }
}

proof fn lemma_virtual_box_reads(w: Run)
    ensures
        journal::within(w, virtual_box_p(w).0, only_reads()),
{
    let rule = only_reads();
    lemma_find_reads(w);
    let (w1, (_, found)) = find_p(w);
    if let Some(path) = found {
        lemma_reads(w1, Request::Command(path, seq!["--version"@]));
        let (w2, _) = command_p(w1, path, seq!["--version"@]);
        journal::lemma_within_both(w, w1, w2, rule);
        lemma_reads(w2, Request::Command(path, seq!["list"@, "usbhost"@]));
        let (w3, _) = command_p(w2, path, seq!["list"@, "usbhost"@]);
        journal::lemma_within_both(w, w2, w3, rule);
    }
}

proof fn lemma_hyper_v_reads(w: Run, hypervisor_active: bool, edition: Option<Text>)
    ensures
        journal::within(w, hyper_v_p(w, hypervisor_active, edition).0, only_reads()),
{
    let rule = only_reads();
    let (w1, _) = feature_state_p(w, edition);
    journal::lemma_within_none(w, w, rule);
    lemma_reads(w, Request::Command("powershell.exe"@, feature_command()));
    lemma_reads(w1, Request::OpenServiceManager);
    let (w2, _) = journal::ask(w1, Request::OpenServiceManager);
    journal::lemma_within_both(w, w1, w2, rule);
    lemma_reads(w2, Request::Service("vmms"@));
    let (w3, _) = service_p(w2, "vmms"@);
    journal::lemma_within_both(w, w2, w3, rule);
    lemma_reads(w3, Request::Service("vmcompute"@));
    let (w4, _) = service_p(w3, "vmcompute"@);
    journal::lemma_within_both(w, w3, w4, rule);
}

/// A probe changes nothing on the host: it reads, and each command that it runs only asks. No
/// USB device is attached or detached.
pub proof fn law_a_probe_changes_nothing<A>(
    w: Run,
    devices: Seq<PhysicalInputDeviceView>,
    aster: A,
    session_id: u32,
)
    ensures
        journal::within(w, probe_p(w, devices, aster, session_id).0, only_reads()),
{
    let rule = only_reads();
    lemma_system_reads(w, session_id);
    let (w1, system) = system_p(w, session_id);
    lemma_virtual_box_reads(w1);
    let (w2, _) = virtual_box_p(w1);
    journal::lemma_within_both(w, w1, w2, rule);
    lemma_hyper_v_reads(w2, system.hypervisor_present, system.edition);
    journal::lemma_within_both(
        w,
        w2,
        hyper_v_p(w2, system.hypervisor_present, system.edition).0,
        rule,
    );
}

} // verus!
