//! When success is owed: what is enough for an operation to succeed, said of what was answered.
use super::activation;
use super::activation::StartRequest;
use super::creation;
use super::creation::ManagedWindowsVmProfileView;
use super::executor::Answer;
use super::install_config;
use super::install_config::WindowsInstallConfigView;
use super::installation;
use super::isolation;
use super::listing_laws;
use super::machine_info;
use super::recovery;
use super::recovery::RecoveryMediaView;
use super::recovery_laws;
use super::runtime::{InputKind, ResolvedUsbView, VirtualMachineView};
use super::seat_rules;
use super::seat_rules::ActivationInputsView;
use super::service;
use super::service::{Request, Run};
use super::usb_attachment;
use crate::devices::PhysicalInputDeviceView;
use crate::paths;
use crate::seats::{
    ApplicationConfigView, GuestRunLevelProbeView, ManagedInstallState, ManagedVmInstallationView,
    ManagedWindowsVersion,
};
use crate::text::laws;
use crate::text::model;
use crate::text::model::Text;
use vstd::prelude::*;

verus! {

// ---- Recovery --------------------------------------------------------------------------

/// An image that is attached and carries its signature is the medium of an installation.
pub proof fn law_an_attached_image_is_enough(w: Run, vm_id: Text, attached: Text)
    requires
        recovery_laws::ends_in(attached, "iso"@),
        creation::iso_check(attached, (w.oracle)(w.requests.len() as int)->Iso_0) is Ok,
    ensures
        recovery::media_p(w, vm_id, attached).1 == Ok::<RecoveryMediaView, Text>(
            RecoveryMediaView::OriginalIso { iso_path: attached },
        ),
{
}

/// A prepared medium that is named after its machine, names an image that carries its signature,
/// and has its two files beside it is the medium of an installation.
pub proof fn law_a_complete_preparation_is_enough(
    w: Run,
    vm_id: Text,
    attached: Text,
    definition: Text,
    image: Text,
)
    requires
        recovery_laws::ends_in(attached, "viso"@),
        !recovery_laws::ends_in(attached, "iso"@),
        paths::file_name(attached) matches Some(name) && model::same_ignoring_case(
            name,
            "Unattended-"@ + vm_id + "-"@ + "aux-iso.viso"@,
        ),
        paths::parent(attached) is Some,
        ({
            let n = w.requests.len() as int;
            &&& (w.oracle)(n)->Content_0 == Ok::<Text, Text>(definition)
            &&& recovery::imported_iso(definition) == Some(image)
            &&& recovery_laws::ends_in(image, "iso"@)
            &&& creation::iso_check(image, (w.oracle)(n + 1)->Iso_0) is Ok
            &&& (w.oracle)(n + 2)->Flag_0
            &&& (w.oracle)(n + 3)->Flag_0
        }),
    ensures
        recovery::media_p(w, vm_id, attached).1 == Ok::<RecoveryMediaView, Text>(
            RecoveryMediaView::Prepared { iso_path: image, unattended_media_path: attached },
        ),
{
}

/// The image that a prepared medium names is what follows the option that imports it, whether it
/// stands between apostrophes or between quotation marks. A definition without the option names
/// none.
pub proof fn law_an_image_is_read_from_its_option(before: Text, image: Text, rest: Text)
    requires
        !laws::has_char(before, '-'),
        !laws::has_char(image, '\'') && !laws::has_char(image, '"'),
    ensures
        recovery::imported_iso(
            before + "--import-iso-skip-eltorito"@ + (seq![' ', '\''] + image + seq!['\''] + rest),
        ) == Some(image),
        recovery::imported_iso(
            before + "--import-iso-skip-eltorito"@ + (seq![' ', '"'] + image + seq!['"'] + rest),
        ) == Some(image),
        recovery::imported_iso(before) is None,
{
    lemma_option(before, '\'', image, rest);
    lemma_option(before, '"', image, rest);
    reveal_strlit("--import-iso-skip-eltorito");
    let option = "--import-iso-skip-eltorito"@;
    assert(option[0] == '-');
    model::lemma_first_from(before, option, 0);
    if let Some(i) = model::first_from(before, option, 0) {
        assert(before.subrange(i, i + option.len())[0] == before[i]);
    }
}

proof fn lemma_after_space(mark: char, inner: Text, tail: Text)
    requires
        mark == '\'' || mark == '"',
        inner.len() > 0,
        inner[0] == mark,
        tail == seq![' '] + inner,
    ensures
        model::without_leading(tail, model::space_class()) == inner,
{
    let class = model::space_class();
    assert(tail.skip(1) =~= inner);
    assert(tail[0] == ' ');
    assert(model::without_leading(inner, class) == inner);
}

proof fn lemma_after_mark(mark: char, image: Text, rest: Text)
    requires
        !laws::has_char(image, mark),
    ensures
        ({
            let inner = seq![mark] + image + seq![mark] + rest;
            &&& seq![mark].is_prefix_of(inner)
            &&& forall|other: char|
                other != mark ==> !#[trigger] seq![other].is_prefix_of(inner)
            &&& model::split_once(inner.skip(1), seq![mark]) == Some((image, rest))
        }),
{
    let inner = seq![mark] + image + seq![mark] + rest;
    assert(inner[0] == mark);
    assert forall|other: char| other != mark implies !#[trigger] seq![other].is_prefix_of(
        inner,
    ) by {
        assert(seq![other][0] == other);
    }
    assert(inner.skip(1) =~= image + seq![mark] + rest);
    laws::law_splitting_finds_the_first_part(image, mark, rest);
}

proof fn lemma_option(before: Text, mark: char, image: Text, rest: Text)
    requires
        mark == '\'' || mark == '"',
        !laws::has_char(before, '-'),
        !laws::has_char(image, mark),
    ensures
        recovery::imported_iso(
            before + "--import-iso-skip-eltorito"@ + (seq![' ', mark] + image + seq![mark] + rest),
        ) == Some(image),
{
    let option = "--import-iso-skip-eltorito"@;
    let tail = seq![' ', mark] + image + seq![mark] + rest;
    let inner = seq![mark] + image + seq![mark] + rest;
    assert(option.len() > 0 && option[0] == '-') by {
        reveal_strlit("--import-iso-skip-eltorito");
    }
    listing_laws::lemma_split_at(before, option, tail, 0);
    assert(tail =~= seq![' '] + inner);
    assert(inner[0] == mark);
    lemma_after_space(mark, inner, tail);
    lemma_after_mark(mark, image, rest);
    assert("'"@ =~= seq!['\'']) by {
        reveal_strlit("'");
    }
    assert("\""@ =~= seq!['"']) by {
        reveal_strlit("\"");
    }
}

/// A machine whose disk is there and whose medium can be used has what an installation needs.
pub proof fn law_a_disk_and_a_medium_are_enough(
    w: Run,
    vm_id: Text,
    fields: Map<Text, Text>,
    media: RecoveryMediaView,
)
    requires
        fields.contains_key("SATA-0-0"@) && fields["SATA-0-0"@] != "none"@,
        fields.contains_key("SATA-1-0"@) && fields["SATA-1-0"@] != "none"@,
        (w.oracle)(w.requests.len() as int)->Flag_0,
        recovery::media_p(
            Run { requests: w.requests.push(Request::IsFile(fields["SATA-0-0"@])), ..w },
            vm_id,
            fields["SATA-1-0"@],
        ).1 == Ok::<RecoveryMediaView, Text>(media),
    ensures
        recovery::attachments_p(w, vm_id, fields).1 == Ok::<(Text, RecoveryMediaView), Text>(
            (fields["SATA-0-0"@], media),
        ),
{
}

/// What went wrong before is read from the error that is known and from the log of the machine,
/// where VirtualBox names its directory and the log can be read.
pub proof fn law_what_went_wrong_is_read_from_the_log(
    w: Run,
    error: Option<Text>,
    fields: Map<Text, Text>,
)
    ensures
        ({
            let n = w.requests.len() as int;
            let (after, found) = recovery::history_p(w, error, fields);
            let known = if error is Some {
                error->0
            } else {
                seq![]
            };
            &&& !fields.contains_key("LogFldr"@) ==> after == w && found == recovery::failure_codes(
                known,
            )
            &&& fields.contains_key("LogFldr"@) ==> {
                &&& after.requests == w.requests.push(
                    Request::ReadText(paths::joined(fields["LogFldr"@], "VBox.log"@)),
                )
                &&& (w.oracle)(n)->Content_0 is Err ==> found == recovery::failure_codes(known)
                &&& (w.oracle)(n)->Content_0 matches Ok(log) ==> found == recovery::failure_codes(
                    known + seq!['\n'] + log,
                )
            }
        }),
{
    reveal_strlit("\n");
    assert("\n"@ =~= seq!['\n']);
}

/// A managed installation that failed has its profile where VirtualBox knows the guest system, and
/// where that is the one that was recorded, or none was.
pub proof fn law_a_failed_installation_has_its_profile(
    w: Run,
    managed: bool,
    previous: ManagedVmInstallationView,
)
    ensures
        ({
            let (after, result) = recovery::profile_of_p(w, managed, previous);
            let known = creation::profile_p(w, previous.windows_version, None).1;
            let recorded = previous.virtual_box_os_type_id;
            &&& result is Ok <==> {
                &&& managed
                &&& previous.state == ManagedInstallState::Failed
                &&& known is Ok
                &&& recorded.len() == 0 || model::same_ignoring_case(
                    recorded,
                    known->Ok_0.virtual_box_os_type_id,
                )
            }
            &&& result is Ok ==> result->Ok_0 == known->Ok_0
            &&& !managed || previous.state != ManagedInstallState::Failed ==> after == w
        }),
{
}

/// Both profiles are offered where VirtualBox lists its guest systems and both versions are among
/// them, and the profile of a version is then that version's.
pub proof fn law_profiles_are_offered_where_both_are_known(w: Run, additions_iso: Option<Text>)
    ensures
        ({
            let answer: Answer = (w.oracle)(w.requests.len() as int)->Output_0;
            let systems = creation::os_types(answer->Ok_0.stdout);
            let offered = creation::profiles_p(w, additions_iso).1;
            &&& offered is Ok <==> {
                &&& answer is Ok && answer->Ok_0.success
                &&& creation::os_for(systems, ManagedWindowsVersion::Windows10) is Ok
                &&& creation::os_for(systems, ManagedWindowsVersion::Windows11) is Ok
            }
            &&& creation::profile_p(w, ManagedWindowsVersion::Windows10, additions_iso).1 is Ok
                <==> offered is Ok
            &&& creation::profile_p(w, ManagedWindowsVersion::Windows11, additions_iso).1 is Ok
                <==> offered is Ok
        }),
{
}

/// An installation can be taken up where its profile is known, its machine is as it was made, its
/// disk and its medium are there, and the guest shows no sign of Windows; and only there.
pub proof fn law_every_check_is_enough_for_a_plan(
    w: Run,
    vm_id: Text,
    managed: bool,
    previous: ManagedVmInstallationView,
)
    ensures
        ({
            let (w1, profile) = recovery::profile_of_p(w, managed, previous);
            let (w2, told) = service::checked_p(
                w1,
                seq!["showvminfo"@, vm_id, "--machinereadable"@],
            );
            let fields = machine_info::machine_fields(told->Ok_0.stdout);
            let (w3, held) = recovery::attachments_p(w2, vm_id, fields);
            let untouched = recovery::untouched_p(w3, vm_id, previous).1;
            recovery::validate_p(w, vm_id, managed, previous).1 is Ok <==> {
                &&& profile is Ok
                &&& told is Ok
                &&& recovery::machine_check(fields, vm_id, profile->Ok_0) is Ok
                &&& held is Ok
                &&& untouched is Ok
            }
        }),
{
}

/// A guest is untouched where its properties could be asked for and neither they nor the probes
/// show a sign of Windows.
pub proof fn law_a_guest_without_signs_is_untouched(
    w: Run,
    vm_id: Text,
    previous: ManagedVmInstallationView,
)
    ensures
        ({
            let (w1, properties) = installation::guest_properties_p(w, vm_id);
            let probes: Seq<GuestRunLevelProbeView> = installation::probes_p(w1, vm_id, 2000).1;
            recovery::untouched_p(w, vm_id, previous).1 is Ok <==> properties is Ok
                && !recovery::has_progressed(previous, properties->Ok_0, probes)
        }),
{
}

// ---- Installing ------------------------------------------------------------------------

/// An installation starts where its settings are allowed, the Guest Additions that are wanted are
/// there, its machine has the guest system of its profile, the password could be kept and
/// VirtualBox took the command.
pub proof fn law_an_allowed_installation_starts(
    w: Run,
    vm_id: Text,
    iso_path: Text,
    config: WindowsInstallConfigView,
    profile: ManagedWindowsVmProfileView,
    additions_iso: Option<Text>,
)
    requires
        install_config::config_check(config) is Ok,
        config.install_guest_additions ==> additions_iso is Some,
        ({
            let n = w.requests.len() as int;
            &&& recovery_laws::output_at(w, n) matches Some(output) && recovery_laws::reads(
                machine_info::machine_fields(output.stdout),
                "ostype"@,
                profile.guest_os_description,
            )
            &&& (w.oracle)(n + 1)->Password_0 matches Ok(file) && install_config::unattended(
                vm_id,
                iso_path,
                file,
                additions_iso,
                config,
            ) is Ok
            &&& recovery_laws::output_at(w, n + 2) is Some
        }),
    ensures
        installation::install_p(w, vm_id, iso_path, config, profile, additions_iso).1 is Ok,
{
}

// ---- Starting and stopping -------------------------------------------------------------

/// A start succeeds where it is not cancelled, the seat has its devices and its machine, the
/// machine can be a seat's, it comes up, and its devices are handed over; and only there.
pub proof fn law_a_start_succeeds_where_every_step_does(w: Run, request: StartRequest)
    ensures
        ({
            let (w1, go) = service::not_cancelled_p(w, request.flag);
            let inputs = seat_rules::activation_inputs(
                request.seat,
                request.config,
                request.devices,
            );
            let machine = seat_rules::vm_of(request.config, request.seat);
            let (w2, seen) = service::inspect_vm_p(w1, machine->Ok_0);
            let (w3, up) = activation::bring_up_p(
                w2,
                request,
                machine->Ok_0,
                inputs->Ok_0,
                seen->Ok_0.state,
            );
            let over = activation::hand_over_p(w3, request, machine->Ok_0, inputs->Ok_0).1;
            activation::start_p(w, request).1 is Ok <==> {
                &&& go is Ok
                &&& inputs is Ok
                &&& machine is Ok
                &&& seen is Ok
                &&& machine_info::machine_errors(seen->Ok_0).len() == 0
                &&& up is Ok
                &&& over is Ok
            }
        }),
{
}

/// A device is handed over by a command with the identifier under which it was found, and nothing
/// more is asked where VirtualBox refused that.
pub proof fn law_a_refused_device_is_not_looked_for(
    w: Run,
    seat: Text,
    vm_id: Text,
    kind: InputKind,
    device: PhysicalInputDeviceView,
    found: ResolvedUsbView,
    devices: Seq<PhysicalInputDeviceView>,
)
    ensures
        ({
            let n = w.requests.len() as int;
            let answer: Answer = (w.oracle)(n)->Output_0;
            let (after, result) = usb_attachment::attach_p(
                w,
                seat,
                vm_id,
                kind,
                device,
                found,
                devices,
            );
            &&& after.requests.len() > n
            &&& after.requests[n] == Request::Execute(
                seq!["controlvm"@, vm_id, "usbattach"@, found.uuid],
            )
            &&& result is Ok ==> answer is Ok && answer->Ok_0.success
            &&& !(answer is Ok && answer->Ok_0.success) ==> after.requests.len() == n + 1
        }),
{
    let n = w.requests.len() as int;
    let (after, _) = usb_attachment::attach_p(
        w,
        seat,
        vm_id,
        kind,
        device,
        found,
        devices,
    );
    let (w1, _) = service::checked_p(w, seq!["controlvm"@, vm_id, "usbattach"@, found.uuid]);
    assert(w1.requests[n] == Request::Execute(
        seq!["controlvm"@, vm_id, "usbattach"@, found.uuid],
    ));
}

/// A machine comes up where its window could be closed, its devices may be handed over and were
/// found, the start was not cancelled, and the machine runs or could be started and was then seen
/// running; and only there.
pub proof fn law_a_machine_comes_up_where_every_step_succeeds(
    w: Run,
    request: StartRequest,
    vm_id: Text,
    inputs: ActivationInputsView,
    vm_state: Text,
)
    ensures
        ({
            let seat = request.seat;
            let managed = request.config.is_managed(seat);
            let running = model::same_ignoring_case(vm_state, "running"@);
            let w0 = activation::begin_p(w, seat, vm_state);
            let (w1, closed) = activation::restrain_p(w0, seat, vm_id, managed);
            let (w2, found) = usb_attachment::resolve_required_p(
                w1,
                inputs,
                request.config.routing_of(seat),
                request.config,
            );
            let (w3, go) = service::not_cancelled_p(w2, request.flag);
            let (w4, on) = activation::power_on_p(w3, seat, vm_id, running);
            let seen = activation::await_running_p(w4, request, vm_id).1;
            activation::bring_up_p(w, request, vm_id, inputs, vm_state).1 is Ok <==> closed is Ok
                && found is Ok && go is Ok && on is Ok && seen is Ok
        }),
{
}

/// A machine is handed over where it could be shown and both devices went where they are routed to;
/// and only there.
pub proof fn law_a_machine_is_handed_over_where_every_step_succeeds(
    w: Run,
    request: StartRequest,
    vm_id: Text,
    inputs: ActivationInputsView,
)
    ensures
        ({
            let managed = request.config.is_managed(request.seat);
            let routing = request.config.routing_of(request.seat);
            let (w1, shown) = activation::present_p(w, request, vm_id, managed);
            let (w2, keyboard) = activation::attach_input_p(
                w1,
                request,
                vm_id,
                InputKind::Keyboard,
                inputs.keyboard,
                routing.keyboard,
                inputs,
            );
            let mouse = activation::attach_input_p(
                w2,
                request,
                vm_id,
                InputKind::Mouse,
                inputs.mouse,
                routing.mouse,
                inputs,
            ).1;
            activation::hand_over_p(w, request, vm_id, inputs).1 is Ok <==> shown is Ok && keyboard
                is Ok && mouse is Ok
        }),
{
}

/// A window is opened and closed only for a seat whose machine is a managed one and is running, in
/// whatever case the state is written.
pub proof fn law_only_a_running_managed_machine_is_switched(
    config: ApplicationConfigView,
    seat: Text,
    vm: VirtualMachineView,
)
    ensures
        ({
            let machine = seat_rules::managed_machine(config, seat);
            &&& machine is Ok <==> config.machines.contains_key(seat)
                && config.machines[seat].managed_by_multiseat
            &&& machine is Ok ==> machine->Ok_0 == config.machines[seat].vm_id
            &&& config.is_managed(seat) <==> machine is Ok
        }),
        seat_rules::running_or_error(vm) is Ok <==> model::lower(vm.state) == model::lower(
            "Running"@,
        ),
        machine_info::is_running(vm) <==> model::lower(vm.state) == model::lower("Running"@),
{
    reveal_strlit("Running");
    reveal_strlit("running");
    assert(model::lower("Running"@) =~= model::lower("running"@));
}

/// A window is opened where the seat's machine is managed, could be asked about and is running, its
/// policy could be set, its mouse switched, and both the window and the focus let go of; and only
/// there.
pub proof fn law_a_window_is_opened_where_every_step_succeeds(
    w: Run,
    seat: Text,
    config: ApplicationConfigView,
    devices: Seq<PhysicalInputDeviceView>,
)
    ensures
        ({
            let machine = seat_rules::managed_machine(config, seat);
            let (w1, seen) = service::inspect_vm_p(w, machine->Ok_0);
            let (w2, set) = service::set_capture_policy_p(w1, machine->Ok_0, "Default"@);
            let n = w2.requests.len() as int;
            isolation::unlock_p(w, seat, config, devices).1 is Ok <==> {
                &&& machine is Ok
                &&& seen is Ok
                &&& seat_rules::running_or_error(seen->Ok_0) is Ok
                &&& set is Ok
                &&& (w2.oracle)(n)->Mouse_0 is Ok
                &&& (w2.oracle)(n + 1)->Done_0 is Ok
                &&& (w2.oracle)(n + 2)->Done_0 is Ok
            }
        }),
{
}

/// A seat is let go of where it has its devices and its machine, and each of the two could be looked
/// for; and only there.
pub proof fn law_a_seat_is_let_go_of_where_its_devices_are_known(
    w: Run,
    seat: Text,
    config: ApplicationConfigView,
    devices: Seq<PhysicalInputDeviceView>,
)
    ensures
        ({
            let routing = config.routing_of(seat);
            let inputs = seat_rules::target_inputs(seat, config, devices);
            let machine = seat_rules::vm_of(config, seat);
            let (w1, keyboard) = activation::release_one_p(
                w,
                seat,
                machine->Ok_0,
                InputKind::Keyboard,
                inputs->Ok_0.keyboard,
                routing.keyboard,
            );
            let mouse = activation::release_one_p(
                w1,
                seat,
                machine->Ok_0,
                InputKind::Mouse,
                inputs->Ok_0.mouse,
                routing.mouse,
            ).1;
            activation::release_p(w, seat, config, devices).1 is Ok <==> inputs is Ok && machine
                is Ok && keyboard is Ok && mouse is Ok
        }),
{
}

} // verus!
