//! What a probe of the host finds out, said of what was asked and what was answered.
use super::host_probe;
use super::host_probe::{
    CommandOutputView, HostServiceState, HyperVStatusView, ProcessorFeature, Request, Run,
    WindowsFeatureState,
};
use super::usb::VirtualBoxStatusView;
use super::{BackendKind, DetectionState};
use crate::devices::PhysicalInputDeviceView;
use crate::journal;
use crate::paths;
use crate::text::decode;
use crate::text::model;
use crate::text::model::Text;
use vstd::prelude::*;

verus! {

/// Whether something was asked between two states of a probe, at a place, and what was answered.
pub open spec fn asked_at(before: Run, after: Run, request: Request, i: int) -> bool {
    before.requests.len() <= i < after.requests.len() && after.requests[i] == request
}

/// Whether a text is what the registry was asked for and gave.
pub open spec fn read_text(before: Run, after: Run, value: Text, found: Option<Text>) -> bool {
    exists|i: int|
        #[trigger] asked_at(
            before,
            after,
            Request::RegistryText("SOFTWARE\\Microsoft\\Windows NT\\CurrentVersion"@, value),
            i,
        ) && (after.oracle)(i)->MaybeText_0 == found
}

/// Whether a flag is what the processor was asked for and gave.
pub open spec fn read_feature(before: Run, after: Run, feature: ProcessorFeature, found: bool) -> bool {
    exists|i: int|
        #[trigger] asked_at(before, after, Request::Feature(feature), i) && (after.oracle)(
            i,
        )->Flag_0 == found
}

/// What is told of the Windows on a host is what the registry and the processor give under the
/// names of these things, each under its own.
pub proof fn law_the_system_is_as_the_host_tells(w: Run, session_id: u32)
    ensures
        ({
            let (after, info) = host_probe::system_p(w, session_id);
            &&& read_text(w, after, "ProductName"@, info.product_name)
            &&& read_text(w, after, "EditionID"@, info.edition)
            &&& read_text(w, after, "DisplayVersion"@, info.display_version)
            &&& read_feature(
                w,
                after,
                ProcessorFeature::HypervisorPresent,
                info.hypervisor_present,
            )
            &&& read_feature(
                w,
                after,
                ProcessorFeature::FirmwareVirtualization,
                info.firmware_virtualization_enabled == DetectionState::Yes,
            )
            &&& read_feature(
                w,
                after,
                ProcessorFeature::SecondLevelAddressTranslation,
                info.second_level_address_translation == DetectionState::Yes,
            )
            &&& info.firmware_virtualization_enabled != DetectionState::Unknown
            &&& info.second_level_address_translation != DetectionState::Unknown
            &&& info.current_session_id == session_id
        }),
{
    let n = w.requests.len() as int;
    let (after, info) = host_probe::system_p(w, session_id);
    let key = "SOFTWARE\\Microsoft\\Windows NT\\CurrentVersion"@;
    assert(after.requests.len() == n + 9);
    assert(asked_at(w, after, Request::RegistryText(key, "ProductName"@), n + 2));
    assert(asked_at(w, after, Request::RegistryText(key, "EditionID"@), n + 3));
    assert(asked_at(w, after, Request::RegistryText(key, "DisplayVersion"@), n + 4));
    assert(asked_at(w, after, Request::Feature(ProcessorFeature::HypervisorPresent), n + 6));
    assert(asked_at(w, after, Request::Feature(ProcessorFeature::FirmwareVirtualization), n + 7));
    assert(asked_at(
        w,
        after,
        Request::Feature(ProcessorFeature::SecondLevelAddressTranslation),
        n + 8,
    ));
}

/// The build is the current one, followed by a dot and the revision where the registry has one.
/// The architecture is the one that the host names.
pub proof fn law_a_build_has_its_revision(w: Run, session_id: u32) -> (r: (int, int, int))
    ensures
        ({
            let (after, info) = host_probe::system_p(w, session_id);
            let key = "SOFTWARE\\Microsoft\\Windows NT\\CurrentVersion"@;
            let build = (after.oracle)(r.0)->MaybeText_0;
            let revision = (after.oracle)(r.1)->MaybeNumber_0;
            &&& asked_at(w, after, Request::RegistryText(key, "CurrentBuildNumber"@), r.0)
            &&& asked_at(w, after, Request::RegistryNumber(key, "UBR"@), r.1)
            &&& asked_at(w, after, Request::Architecture, r.2)
            &&& build is None ==> info.build is None
            &&& build is Some && revision is None ==> info.build == build
            &&& build is Some && revision is Some ==> info.build == Some(
                build->0 + seq!['.'] + model::decimal(revision->0 as nat),
            )
            &&& info.architecture == (after.oracle)(r.2)->Name_0
        }),
{
    reveal_strlit(".");
    assert("."@ =~= seq!['.']);
    let n = w.requests.len() as int;
    (n, n + 1, n + 5)
}

// ---- VirtualBox ------------------------------------------------------------------------

/// Whether a file was looked for and was there.
pub open spec fn saw_file(before: Run, after: Run, path: Text) -> bool {
    exists|i: int|
        #[trigger] asked_at(before, after, Request::IsFile(path), i) && (after.oracle)(i)->Flag_0
}

proof fn lemma_search(w: Run, registered: bool)
    ensures
        ({
            let (after, (installed, found)) = host_probe::find_by_search_p(w, registered);
            &&& after.oracle == w.oracle
            &&& after.requests.len() >= w.requests.len()
            &&& forall|i: int| 0 <= i < w.requests.len() ==> after.requests[i] == w.requests[i]
            &&& found is None ==> installed == registered
            &&& found matches Some(path) ==> installed && saw_file(w, after, path)
        }),
{
    let n = w.requests.len() as int;
    let (after, (installed, found)) = host_probe::find_by_search_p(w, registered);
    if let Some(path) = found {
        assert(asked_at(w, after, Request::IsFile(path), n + 1));
    }
}

proof fn lemma_installed(w: Run, registered: bool)
    ensures
        ({
            let (after, (installed, found)) = host_probe::find_installed_p(w, registered);
            &&& after.oracle == w.oracle
            &&& after.requests.len() >= w.requests.len()
            &&& forall|i: int| 0 <= i < w.requests.len() ==> after.requests[i] == w.requests[i]
            &&& found is None ==> installed == registered
            &&& found matches Some(path) ==> installed && saw_file(w, after, path)
        }),
{
    let n = w.requests.len() as int;
    let (after, (installed, found)) = host_probe::find_installed_p(w, registered);
    let (w1, reply) = journal::ask(w, Request::ProgramFiles);
    match reply->MaybeText_0 {
        None => {
            lemma_search(w1, registered);
            lemma_earlier(w, w1, after, found);
        },
        Some(directory) => {
            let path = paths::joined(
                paths::joined(paths::joined(directory, "Oracle"@), "VirtualBox"@),
                "VBoxManage.exe"@,
            );
            let (w2, there) = host_probe::is_file_p(w1, path);
            if there {
                assert(asked_at(w, after, Request::IsFile(path), n + 1));
            } else {
                lemma_search(w2, registered);
                lemma_earlier(w, w2, after, found);
            }
        },
    }
}

proof fn lemma_earlier(w: Run, w1: Run, after: Run, found: Option<Text>)
    requires
        w.requests.len() <= w1.requests.len(),
    ensures
        found matches Some(path) ==> saw_file(w1, after, path) ==> saw_file(w, after, path),
{
    if let Some(path) = found {
        if saw_file(w1, after, path) {
            let i = choose|i: int|
                #[trigger] asked_at(w1, after, Request::IsFile(path), i) && (after.oracle)(
                    i,
                )->Flag_0;
            assert(asked_at(w, after, Request::IsFile(path), i));
        }
    }
}

/// `VBoxManage` is only where a file was seen, and VirtualBox is installed where it was found.
/// The directory that VirtualBox registered is looked at first, and where the program is there
/// nothing else is asked. Where the program is not found, VirtualBox counts as installed exactly
/// where it registered a directory or a version.
pub proof fn law_the_program_is_found_where_it_is(w: Run)
    ensures
        ({
            let n = w.requests.len() as int;
            let (after, (installed, found)) = host_probe::find_p(w);
            let key = "SOFTWARE\\Oracle\\VirtualBox"@;
            let directory = (after.oracle)(n)->MaybeText_0;
            &&& after.oracle == w.oracle
            &&& found matches Some(path) ==> installed && saw_file(w, after, path)
            &&& asked_at(w, after, Request::RegistryText(key, "InstallDir"@), n)
            &&& directory matches Some(place) ==> {
                let path = paths::joined(place, "VBoxManage.exe"@);
                &&& asked_at(w, after, Request::IsFile(path), n + 1)
                &&& (after.oracle)(n + 1)->Flag_0 ==> found == Some(path) && after.requests.len()
                    == n + 2
                &&& installed
            }
            &&& directory is None ==> {
                &&& asked_at(w, after, Request::RegistryText(key, "Version"@), n + 1)
                &&& found is None ==> installed == ((after.oracle)(n + 1)->MaybeText_0 is Some)
            }
        }),
{
    let n = w.requests.len() as int;
    let (after, (installed, found)) = host_probe::find_p(w);
    let (w1, directory) = host_probe::text_p(w, host_probe::oracle_key(), "InstallDir"@);
    match directory {
        None => {
            let (w2, version) = host_probe::text_p(w1, host_probe::oracle_key(), "Version"@);
            lemma_installed(w2, version is Some);
            lemma_earlier(w, w2, after, found);
            assert(after.requests[n] == w2.requests[n]);
            assert(after.requests[n + 1] == w2.requests[n + 1]);
        },
        Some(place) => {
            let path = paths::joined(place, "VBoxManage.exe"@);
            let (w2, there) = host_probe::is_file_p(w1, path);
            if there {
                assert(asked_at(w, after, Request::IsFile(path), n + 1));
            } else {
                lemma_installed(w2, true);
                lemma_earlier(w, w2, after, found);
                assert(after.requests[n] == w2.requests[n]);
                assert(after.requests[n + 1] == w2.requests[n + 1]);
            }
        },
    }
}

/// The program is searched for in the program files, in the directory of its maker and its own,
/// before the search path is asked, and there under its name.
pub proof fn law_the_program_is_searched_for_in_order(w: Run, registered: bool)
    ensures
        ({
            let n = w.requests.len() as int;
            let (after, (installed, found)) = host_probe::find_installed_p(w, registered);
            let directory = (w.oracle)(n)->MaybeText_0;
            let search = Request::Command("where.exe"@, seq!["VBoxManage.exe"@]);
            &&& asked_at(w, after, Request::ProgramFiles, n)
            &&& directory is None ==> asked_at(w, after, search, n + 1)
            &&& directory matches Some(place) ==> {
                let path = paths::joined(
                    paths::joined(paths::joined(place, "Oracle"@), "VirtualBox"@),
                    "VBoxManage.exe"@,
                );
                &&& asked_at(w, after, Request::IsFile(path), n + 1)
                &&& if (w.oracle)(n + 1)->Flag_0 {
                    found == Some(path) && after.requests.len() == n + 2
                } else {
                    asked_at(w, after, search, n + 2)
                }
            }
        }),
{
    reveal_strlit("VBoxManage.exe");
    let n = w.requests.len() as int;
    let (after, _) = host_probe::find_installed_p(w, registered);
    let (w1, reply) = journal::ask(w, Request::ProgramFiles);
    if let Some(place) = reply->MaybeText_0 {
        let path = paths::joined(
            paths::joined(paths::joined(place, "Oracle"@), "VirtualBox"@),
            "VBoxManage.exe"@,
        );
        let (w2, there) = host_probe::is_file_p(w1, path);
        if !there {
            let (w3, _) = host_probe::command_p(w2, "where.exe"@, seq!["VBoxManage.exe"@]);
            assert(w3.requests[n + 2] == Request::Command(
                "where.exe"@,
                seq!["VBoxManage.exe"@],
            ));
        }
    }
}

/// Whether a line is the first of some that is not blank.
pub open spec fn is_first_filled(lines: Seq<Text>, i: int) -> bool {
    &&& 0 <= i < lines.len()
    &&& model::trimmed(lines[i]).len() > 0
    &&& forall|j: int| 0 <= j < i ==> model::trimmed(#[trigger] lines[j]).len() == 0
}

proof fn lemma_filled(lines: Seq<Text>, from: int, i: int)
    requires
        0 <= from <= i,
        is_first_filled(lines, i),
    ensures
        host_probe::filled_line_from(lines, from) == Some(model::trimmed(lines[i])),
    decreases i - from,
{
    if from < i {
        assert(model::trimmed(lines[from]).len() == 0);
        lemma_filled(lines, from + 1, i);
    }
}

/// The search names the first line of its output that is not blank, without the white space around
/// it, and names nothing where it failed.
pub proof fn law_a_search_names_its_first_line(output: CommandOutputView, error: Text, i: int)
    ensures
        host_probe::named_path(Err(error)) is None,
        !output.success ==> host_probe::named_path(Ok(output)) is None,
        output.success && vstd::utf8::valid_utf8(output.stdout) && is_first_filled(
            model::lines(vstd::utf8::decode_utf8(output.stdout)),
            i,
        ) ==> host_probe::named_path(Ok(output)) == Some(
            model::trimmed(model::lines(vstd::utf8::decode_utf8(output.stdout))[i]),
        ),
{
    let lines = model::lines(vstd::utf8::decode_utf8(output.stdout));
    if is_first_filled(lines, i) {
        lemma_filled(lines, 0, i);
    }
}

/// Without the program nothing is known of VirtualBox but whether it is installed, and where it is
/// that is an error. With the program, VirtualBox works exactly where the program told its version,
/// and only then are the USB devices asked for.
pub proof fn law_virtual_box_works_where_it_tells_its_version(w: Run)
    ensures
        ({
            let (w1, (installed, found)) = host_probe::find_p(w);
            let (after, status) = host_probe::virtual_box_p(w);
            let n = w1.requests.len() as int;
            let told = (w1.oracle)(n)->Output_0;
            let listed = (w1.oracle)(n + 1)->Output_0;
            &&& status.vbox_manage_path == found
            &&& status.installed == installed
            &&& found is None ==> after == w1 && !status.operational && status.version is None
                && status.usb_devices.len() == 0 && (status.probe_error is Some <==> installed)
            &&& found matches Some(path) ==> {
                &&& asked_at(w1, after, Request::Command(path, seq!["--version"@]), n)
                &&& status.operational <==> told is Ok && told->Ok_0.success
                &&& status.operational <==> after.requests.len() == n + 2
                &&& !status.operational ==> status.probe_error is Some
                &&& status.operational ==> {
                    let text = model::trimmed(decode::lossy_utf8(told->Ok_0.stdout));
                    &&& asked_at(w1, after, Request::Command(path, seq!["list"@, "usbhost"@]), n + 1)
                    &&& text.len() > 0 ==> status.version == Some(text)
                    &&& text.len() == 0 ==> status.version is None
                    &&& status.probe_error is None <==> listed is Ok && listed->Ok_0.success
                        && vstd::utf8::valid_utf8(listed->Ok_0.stdout)
                    &&& status.probe_error is Some ==> status.usb_devices.len() == 0
                        && status.parser_warnings.len() == 0
                }
            }
        }),
{
    law_the_program_is_found_where_it_is(w);
    let (w1, (installed, found)) = host_probe::find_p(w);
    if let Some(path) = found {
        let (w2, _) = host_probe::command_p(w1, path, seq!["--version"@]);
        let (w3, _) = host_probe::command_p(w2, path, seq!["list"@, "usbhost"@]);
        let n = w1.requests.len() as int;
        assert(w3.requests[n] == w2.requests[n]);
        assert(w3.requests[n + 1] == Request::Command(path, seq!["list"@, "usbhost"@]));
    }
}

/// A command that failed is told by what was done, its exit code and what it said about the
/// failure, without the white space around it.
pub proof fn law_a_failure_tells_its_exit_code(operation: Text, output: CommandOutputView)
    ensures
        ({
            let said = model::trimmed(decode::lossy_utf8(output.stderr));
            let told = host_probe::command_failure(operation, output);
            let start = operation + " failed with exit code "@ + model::exit_code(output.exit_code);
            &&& said.len() == 0 ==> told == start
            &&& said.len() > 0 ==> told == start + seq![':', ' '] + said
        }),
{
    reveal_strlit(": ");
    assert(": "@ =~= seq![':', ' ']);
    let said = model::trimmed(decode::lossy_utf8(output.stderr));
    let start = operation + " failed with exit code "@ + model::exit_code(output.exit_code);
    assert(start + Seq::<char>::empty() =~= start);
    assert(start + (seq![':', ' '] + said) =~= start + seq![':', ' '] + said);
}

// ---- Hyper-V ---------------------------------------------------------------------------

/// Hyper-V is on where Windows says `Enabled`, off where it says `Disabled` or `DisablePending`,
/// in any case of letters, and not known otherwise. That there is none is never the answer to the
/// question, and an error is told exactly where the question failed.
pub proof fn law_hyper_v_is_as_windows_says(answer: Result<CommandOutputView, Text>)
    ensures
        ({
            let (state, error) = host_probe::feature_answer(answer);
            let worked = answer is Ok && answer->Ok_0.success;
            let said = model::trimmed(decode::lossy_utf8(answer->Ok_0.stdout));
            &&& state == WindowsFeatureState::Enabled <==> worked && model::same_ignoring_case(
                said,
                "Enabled"@,
            )
            &&& state == WindowsFeatureState::Disabled <==> worked && (model::same_ignoring_case(
                said,
                "Disabled"@,
            ) || model::same_ignoring_case(said, "DisablePending"@))
            &&& state != WindowsFeatureState::Unavailable
            &&& error is None <==> worked
        }),
{
    reveal_strlit("Enabled");
    reveal_strlit("enabled");
    reveal_strlit("Disabled");
    reveal_strlit("disabled");
    reveal_strlit("DisablePending");
    reveal_strlit("disablepending");
    assert(model::lower("Enabled"@) =~= "enabled"@);
    assert(model::lower("Disabled"@) =~= "disabled"@);
    assert(model::lower("DisablePending"@) =~= "disablepending"@);
    assert("enabled"@.len() == 7 && "disabled"@.len() == 8 && "disablepending"@.len() == 14);
}

/// Editions of Windows whose name has `Core` in it have no Hyper-V, and are not asked about it.
/// Others are asked.
pub proof fn law_core_editions_have_no_hyper_v(w: Run, edition: Option<Text>)
    ensures
        ({
            let (after, (state, error)) = host_probe::feature_state_p(w, edition);
            let core = edition is Some && model::contains(
                model::lower(edition->0),
                seq!['c', 'o', 'r', 'e'],
            );
            &&& core ==> state == WindowsFeatureState::Unavailable && error is None && after == w
            &&& !core ==> state != WindowsFeatureState::Unavailable && after.requests.len()
                == w.requests.len() + 1
            &&& !core ==> {
                &&& after.requests.last() matches Request::Command(program, arguments)
                &&& program == "powershell.exe"@
                &&& arguments.len() == 4
                &&& arguments[0] == "-NoProfile"@
                &&& arguments[1] == "-NonInteractive"@
                &&& arguments[2] == "-Command"@
            }
        }),
{
    reveal_strlit("core");
    assert("core"@ =~= seq!['c', 'o', 'r', 'e']);
}

/// A service is installed where the host has a state for it, and runs where that state says so.
/// Its state is told by a name of its own. A service that could not be asked about is an error.
pub proof fn law_a_service_runs_where_it_says_so(w: Run, name: Text)
    ensures
        ({
            let n = w.requests.len() as int;
            let (after, found) = host_probe::service_p(w, name);
            let answer = (w.oracle)(n)->State_0;
            &&& after.requests == w.requests.push(Request::Service(name))
            &&& found is Err <==> answer is Err
            &&& found matches Ok(service) ==> {
                &&& service.name == name
                &&& service.installed <==> answer->Ok_0 is Some
                &&& service.running <==> answer->Ok_0 == Some(HostServiceState::Running)
                &&& service.state == "notInstalled"@ <==> answer->Ok_0 is None
                &&& service.state == "stopped"@ <==> answer->Ok_0 == Some(HostServiceState::Stopped)
                &&& service.state == "startPending"@ <==> answer->Ok_0 == Some(
                    HostServiceState::StartPending,
                )
                &&& service.state == "stopPending"@ <==> answer->Ok_0 == Some(
                    HostServiceState::StopPending,
                )
                &&& service.state == "running"@ <==> answer->Ok_0 == Some(HostServiceState::Running)
                &&& service.state == "continuePending"@ <==> answer->Ok_0 == Some(
                    HostServiceState::ContinuePending,
                )
                &&& service.state == "pausePending"@ <==> answer->Ok_0 == Some(
                    HostServiceState::PausePending,
                )
                &&& service.state == "paused"@ <==> answer->Ok_0 == Some(HostServiceState::Paused)
                &&& service.state == "unknown"@ <==> answer->Ok_0 == Some(HostServiceState::Unknown)
            }
        }),
{
    reveal_strlit("notInstalled");
    reveal_strlit("stopped");
    reveal_strlit("startPending");
    reveal_strlit("stopPending");
    reveal_strlit("running");
    reveal_strlit("continuePending");
    reveal_strlit("pausePending");
    reveal_strlit("paused");
    reveal_strlit("unknown");
    assert("notInstalled"@.len() == 12 && "notInstalled"@[0] == 'n');
    assert("startPending"@.len() == 12 && "startPending"@[0] == 's');
    assert("pausePending"@.len() == 12 && "pausePending"@[0] == 'p');
    assert("stopPending"@.len() == 11);
    assert("continuePending"@.len() == 15);
    assert("paused"@.len() == 6);
    assert("stopped"@.len() == 7 && "stopped"@[0] == 's');
    assert("running"@.len() == 7 && "running"@[0] == 'r');
    assert("unknown"@.len() == 7 && "unknown"@[0] == 'u');
}

/// The services of Hyper-V are the management service and the compute service, in this order.
pub proof fn law_hyper_v_has_two_services(w: Run)
    ensures
        host_probe::services_p(w).1 matches Ok(services) ==> services.len() == 2
            && services[0].name == "vmms"@ && services[1].name == "vmcompute"@,
{
    let (w1, _) = journal::ask(w, Request::OpenServiceManager);
    law_a_service_runs_where_it_says_so(w1, "vmms"@);
    let (w2, _) = host_probe::service_p(w1, "vmms"@);
    law_a_service_runs_where_it_says_so(w2, "vmcompute"@);
}

// ---- The probe -------------------------------------------------------------------------

/// What a probe reports hangs together: the session that it was asked for, the state of Hyper-V
/// for the edition that it found, the hypervisor that it found, and the correlations in the order
/// of the devices.
pub proof fn law_a_report_hangs_together<A>(
    w: Run,
    devices: Seq<PhysicalInputDeviceView>,
    aster: A,
    session_id: u32,
)
    ensures
        host_probe::probe_p(w, devices, aster, session_id).1 matches Ok(report) ==> {
            &&& report.system.current_session_id == session_id
            &&& report.aster == aster
            &&& report.hyper_v.hypervisor_active == report.system.hypervisor_present
            &&& report.hyper_v.feature_state == WindowsFeatureState::Unavailable
                <==> report.system.edition is Some && model::contains(
                model::lower(report.system.edition->0),
                seq!['c', 'o', 'r', 'e'],
            )
            &&& report.hyper_v.services.len() == 2
            &&& report.usb_correlations.len() == devices.len()
        },
{
    let (w1, system) = host_probe::system_p(w, session_id);
    let (w2, virtual_box) = host_probe::virtual_box_p(w1);
    law_core_editions_have_no_hyper_v(w2, system.edition);
    let (w3, _) = host_probe::feature_state_p(w2, system.edition);
    law_hyper_v_has_two_services(w3);
}

/// Three backends are reported on. VirtualBox is available where it works, and finds USB devices
/// where no error was told. Hyper-V is available where it is on or a hypervisor runs. The native
/// backend is not available.
pub proof fn law_backends_offer_what_was_found(
    virtual_box: VirtualBoxStatusView,
    hyper_v: HyperVStatusView,
)
    ensures
        ({
            let offered = host_probe::offered(virtual_box, hyper_v);
            &&& offered.len() == 3
            &&& offered[0].backend_kind == BackendKind::VirtualBox
            &&& offered[0].available <==> virtual_box.operational
            &&& offered[0].status_probe <==> virtual_box.operational
            &&& offered[0].usb_discovery <==> virtual_box.operational
                && virtual_box.probe_error is None
            &&& offered[1].backend_kind == BackendKind::HyperV
            &&& offered[1].available <==> hyper_v.feature_state == WindowsFeatureState::Enabled
                || hyper_v.hypervisor_active
            &&& offered[1].status_probe
            &&& !offered[1].usb_discovery
            &&& offered[2].backend_kind == BackendKind::Native
            &&& !offered[2].available && !offered[2].status_probe && !offered[2].usb_discovery
        }),
{
}

/// A seat is warned about where it has no display, and where it has no keyboard or no mouse, and
/// else not.
pub proof fn law_warnings_are_about_what_is_missing(display: bool, keyboard: bool, mouse: bool)
    ensures
        ({
            let warnings = super::assignment_warnings(display, keyboard, mouse);
            &&& warnings.contains("seat has no display assignment"@) <==> !display
            &&& warnings.contains("seat does not have both keyboard and mouse assignments"@)
                <==> !keyboard || !mouse
            &&& warnings.len() == (if display {
                0int
            } else {
                1
            }) + (if keyboard && mouse {
                0int
            } else {
                1
            })
        }),
{
    reveal_strlit("seat has no display assignment");
    reveal_strlit("seat does not have both keyboard and mouse assignments");
    let one = "seat has no display assignment"@;
    let other = "seat does not have both keyboard and mouse assignments"@;
    assert(one.len() == 30 && other.len() == 54);
    let warnings = super::assignment_warnings(display, keyboard, mouse);
    if !display {
        assert(warnings[0] == one);
    }
    if !keyboard || !mouse {
        assert(warnings[warnings.len() - 1] == other);
    }
}

} // verus!
