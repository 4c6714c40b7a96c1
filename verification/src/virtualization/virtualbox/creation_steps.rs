//! What the steps of a creation tell and keep, said of what was asked and answered.
use super::creation;
use super::creation::{
    Build, CreationTransactionView, ManagedWindowsVmProfileView, Order, VmCreationFailureView,
    VmCreationRequestView,
};
use super::executor::Answer;
use super::machine_info;
use super::runtime::VirtualMachineView;
use super::service::{Request, Run};
use crate::paths;
use crate::text::model;
use crate::text::model::Text;
use vstd::prelude::*;

verus! {

/// A step runs its command, and is logged last under its name as a success exactly where the
/// command succeeded, and else as an error with what VirtualBox said. What was made before stays.
pub proof fn law_a_step_is_logged_as_it_went(build: Build, step: Text, arguments: Seq<Text>)
    ensures
        ({
            let answer: Answer = (build.w.oracle)(build.w.requests.len() as int)->Output_0;
            let worked = answer is Ok && answer->Ok_0.success;
            let (after, result) = creation::step_p(build, step, arguments);
            let entry = after.made.logs.last();
            &&& after.w.requests == build.w.requests.push(Request::Execute(arguments))
            &&& after.w.state == build.w.state
            &&& result is Ok <==> worked
            &&& result is Ok ==> result->Ok_0 == answer->Ok_0
            &&& result matches Err(failure) ==> failure.step == step && failure.message
                == entry.detail
            &&& after.made.logs.len() == build.made.logs.len() + 1
            &&& after.made.logs.drop_last() == build.made.logs
            &&& entry.step == step
            &&& worked ==> entry.outcome == "success"@
            &&& !worked ==> entry.outcome == "error"@
            &&& after.made == (CreationTransactionView { logs: after.made.logs, ..build.made })
        }),
{
    let (after, _) = creation::step_p(build, step, arguments);
    assert(after.made.logs.drop_last() =~= build.made.logs);
}

/// What undoes something is told as a success exactly where it succeeded.
pub proof fn law_undoing_is_told_as_it_went(w: Run, step: Text, arguments: Seq<Text>)
    ensures
        ({
            let answer: Answer = (w.oracle)(w.requests.len() as int)->Output_0;
            let worked = answer is Ok && answer->Ok_0.success;
            let (after, entry) = creation::undo_p(w, step, arguments);
            &&& after.requests == w.requests.push(Request::Execute(arguments))
            &&& entry.step == step
            &&& worked ==> entry.outcome == "success"@
            &&& !worked ==> entry.outcome == "error"@
        }),
{
}

/// A machine that was registered is taken note of under its name at once, and under its identifier
/// once that is known to be no other machine's. An identifier that another machine has is refused.
pub proof fn law_a_registered_machine_is_kept_note_of(
    build: Build,
    name: Text,
    profile: ManagedWindowsVmProfileView,
    existing: Seq<VirtualMachineView>,
)
    ensures
        ({
            let answer: Answer = (build.w.oracle)(build.w.requests.len() as int)->Output_0;
            let worked = answer is Ok && answer->Ok_0.success;
            let (after, result) = creation::register_p(build, name, profile, existing);
            &&& after.w.requests == build.w.requests.push(
                Request::Execute(
                    seq![
                        "createvm"@,
                        "--name"@,
                        name,
                        "--ostype"@,
                        profile.virtual_box_os_type_id,
                        "--platform-architecture"@,
                        "x86"@,
                        "--register"@,
                    ],
                ),
            )
            &&& !worked ==> result is Err && after.made.vm_identifier == build.made.vm_identifier
            &&& worked && result is Err ==> after.made.vm_identifier == Some(name)
            &&& result matches Ok(uuid) ==> {
                &&& worked
                &&& creation::created_uuid(answer->Ok_0.stdout) == Some(uuid)
                &&& after.made.vm_identifier == Some(uuid)
                &&& after.made.vm_uuid == Some(uuid)
                &&& forall|i: int|
                    0 <= i < existing.len() ==> !model::same_ignoring_case(
                        (#[trigger] existing[i]).uuid,
                        uuid,
                    )
            }
            &&& after.made.disk_path == build.made.disk_path
            &&& after.made.disk_created == build.made.disk_created
        }),
{
    let (_, result) = creation::register_p(build, name, profile, existing);
    if let Ok(uuid) = result {
        assert forall|i: int| 0 <= i < existing.len() implies !model::same_ignoring_case(
            (#[trigger] existing[i]).uuid,
            uuid,
        ) by {
            let own = existing[i].uuid;
            assert(model::lower(model::lower(own)) =~= model::lower(own));
            assert(!model::same_ignoring_case(model::lower(existing[i].uuid), uuid));
        }
    }
}

/// The system disk of a machine stands in the directory of the machine's configuration, under its
/// own name.
pub proof fn law_a_disk_stands_next_to_the_configuration(output: Text)
    ensures
        ({
            let fields = machine_info::machine_fields(output);
            let place = creation::disk_place(output);
            &&& place is Ok <==> fields.contains_key("CfgFile"@) && paths::parent(
                fields["CfgFile"@],
            ) is Some
            &&& place matches Ok(path) ==> path == paths::joined(
                paths::parent(fields["CfgFile"@])->0,
                "Barnen-system.vdi"@,
            )
        }),
{
}

/// A disk is taken note of before it is made, and as made exactly where VirtualBox made it. Its
/// size is that of the order, in megabytes.
pub proof fn law_a_disk_is_made_as_large_as_ordered(build: Build, vm_id: Text, disk_gb: int)
    requires
        0 <= disk_gb <= 2048,
        !build.made.disk_created,
    ensures
        ({
            let n = build.w.requests.len() as int;
            let (after, result) = creation::create_disk_p(build, vm_id, disk_gb);
            &&& after.w.requests[n] == Request::Execute(
                seq!["showvminfo"@, vm_id, "--machinereadable"@],
            )
            &&& after.made.disk_created <==> result is Ok
            &&& result matches Ok(disk) ==> {
                &&& after.made.disk_path == Some(disk)
                &&& after.w.requests.len() == n + 2
                &&& after.w.requests[n + 1] == Request::Execute(
                    seq![
                        "createmedium"@,
                        "disk"@,
                        "--filename"@,
                        disk,
                        "--size"@,
                        model::decimal((disk_gb * 1024) as nat),
                        "--format"@,
                        "VDI"@,
                    ],
                )
            }
            &&& after.w.requests.len() == n + 2 ==> after.made.disk_path is Some
            &&& !after.made.disk_attached || build.made.disk_attached
        }),
{
}

/// What is told of the settings of a machine is what its profile says, thing by thing.
pub proof fn law_settings_are_those_of_the_profile(profile: ManagedWindowsVmProfileView)
    ensures
        ({
            let told = creation::settings_of(profile);
            &&& told.len() == 13
            &&& told[0] == "Managed guest: "@ + profile.display_name
            &&& told[1] == "VirtualBox OS type ID: "@ + profile.virtual_box_os_type_id
            &&& told[2] == "Guest OS description: "@ + profile.guest_os_description
            &&& told[3] == "Architecture: "@ + profile.architecture
            &&& told[4] == "Firmware: "@ + profile.firmware
            &&& told[5] == "TPM: "@ + profile.tpm
            &&& profile.secure_boot_required ==> told[7]
                == "Secure Boot: Microsoft signatures + Oracle platform key"@
            &&& !profile.secure_boot_required ==> told[7] == "Secure Boot: not required"@
            &&& told[8] == "USB: "@ + profile.usb_controller
            &&& told[10] == "Network: "@ + profile.network
            &&& told[12] == "Storage: "@ + profile.storage_controller
        }),
{
}

/// What a creation gives is the machine as VirtualBox describes it at the end, the profile that it
/// was given, what was set, and the log of the steps.
pub proof fn law_a_creation_gives_what_was_made(
    build: Build,
    ordered: VmCreationRequestView,
    vm_id: Text,
    profile: ManagedWindowsVmProfileView,
)
    ensures
        creation::furnish_p(build, ordered, vm_id, profile).1 matches Ok(result) ==> {
            let after = creation::furnish_p(build, ordered, vm_id, profile).0;
            let answer: Answer = (after.w.oracle)(after.w.requests.len() - 1)->Output_0;
            &&& after.w.requests.last() == Request::Execute(
                seq!["showvminfo"@, vm_id, "--machinereadable"@],
            )
            &&& answer is Ok && answer->Ok_0.success
            &&& result.vm == machine_info::described_machine(
                machine_info::machine_fields(answer->Ok_0.stdout),
                vm_id,
            )
            &&& result.changed_settings == creation::settings_of(result.profile)
            &&& result.logs == after.made.logs
            &&& result.profile.windows_version == profile.windows_version
            &&& result.profile.virtual_box_os_type_id == profile.virtual_box_os_type_id
        },
{
}

/// A creation that failed tells the step that failed, why, what was done before, and what was
/// undone.
pub proof fn law_a_failed_creation_tells_where(w: Run, order: Order)
    ensures
        creation::create_p(w, order).1 matches Err(failure) ==> {
            let (build, steps) = creation::create_steps_p(
                Build { w, made: creation::nothing_made() },
                order,
            );
            &&& steps is Err
            &&& failure.failed_step == steps->Err_0.step
            &&& failure.message == steps->Err_0.message
            &&& failure.logs == build.made.logs
            &&& creation::order_check(order) is Err ==> failure.rollback_actions.len() == 0
                && creation::create_p(w, order).0.requests == w.requests
        },
        creation::nothing_made().logs.len() == 0,
        creation::nothing_made().vm_identifier is None,
        !creation::nothing_made().disk_created,
{
}

/// A failure in words begins with the step that failed and why.
pub proof fn law_a_failure_names_its_step(failure: VmCreationFailureView)
    ensures
        ({
            let first = "VM creation failed at '"@ + failure.failed_step + "': "@ + failure.message;
            let told = creation::failure_text(failure);
            &&& first.is_prefix_of(told)
            &&& failure.logs.len() == 0 && failure.rollback_actions.len() == 0 ==> told == first
        }),
{
    let first = "VM creation failed at '"@ + failure.failed_step + "': "@ + failure.message;
    let told = creation::failure_text(failure);
    if failure.logs.len() == 0 && failure.rollback_actions.len() == 0 {
        assert(told =~= first);
    }
    assert(first =~= told.subrange(0, first.len() as int));
}

/// Where it is not known what the host has, nothing is made and nothing is asked.
pub proof fn law_a_creation_needs_to_know_its_host(
    w: Run,
    host_resources: Result<(u64, u32), Text>,
    ordered: VmCreationRequestView,
    iso: creation::IsoInspectionView,
    additions_iso: Option<Text>,
)
    ensures
        ({
            let (after, result) = creation::create_on_host_p(
                w,
                host_resources,
                ordered,
                iso,
                additions_iso,
            );
            &&& host_resources matches Err(message) ==> {
                &&& after == w
                &&& result is Err
                &&& result->Err_0.message == message
                &&& result->Err_0.rollback_actions.len() == 0
            }
            &&& host_resources matches Ok((memory, cpus)) ==> (after, result) == creation::create_p(
                w,
                Order {
                    request: ordered,
                    host_memory_mb: memory,
                    host_cpus: cpus,
                    iso,
                    additions_iso,
                },
            )
        }),
{
}

} // verus!
