//! What is created where a creation succeeds, said of what was ordered and of the words of the
//! commands that were run.
use super::creation;
use super::creation::{Build, ManagedWindowsVmProfileView, Order, VmCreationRequestView};
use super::creation_laws;
use super::executor::VBoxOutputView;
use super::machine_info;
use super::request_laws;
use super::request_laws::Rule;
use super::runtime::VirtualMachineView;
use super::service;
use super::service::{Request, Run};
use crate::seats::ManagedWindowsVersion;
use crate::text::model;
use crate::text::model::Text;
use vstd::prelude::*;

verus! {

// ---- One machine, as it was ordered ----------------------------------------------------

/// Whether a request gives a machine the hardware that was ordered: the memory after `--memory`,
/// the processors after `--cpus`, the firmware and the TPM that its Windows version needs, and
/// the devices that every machine has.
pub open spec fn gives_hardware(put: Request, vm_id: Text, ordered: VmCreationRequestView) -> bool {
    let eleven = ordered.windows_version == ManagedWindowsVersion::Windows11;
    let rest = if eleven {
        10int
    } else {
        8
    };
    put matches Request::Execute(words) && {
        &&& words.len() == rest + 24
        &&& words[0] == "modifyvm"@
        &&& words[1] == vm_id
        &&& words[2] == "--memory"@
        &&& words[3] == model::decimal(ordered.memory_mb as nat)
        &&& words[4] == "--cpus"@
        &&& words[5] == model::decimal(ordered.cpus as nat)
        &&& words[6] == "--firmware"@
        &&& words[7] == (if eleven {
            "efi"@
        } else {
            "bios"@
        })
        &&& eleven ==> words[8] == "--tpm-type"@ && words[9] == "2.0"@
        &&& words[rest] == "--ioapic"@ && words[rest + 1] == "on"@
        &&& words[rest + 2] == "--usb-xhci"@ && words[rest + 3] == "on"@
        &&& words[rest + 4] == "--graphicscontroller"@ && words[rest + 5] == "vboxsvga"@
        &&& words[rest + 6] == "--vram"@ && words[rest + 7] == "128"@
        &&& words[rest + 8] == "--nic1"@ && words[rest + 9] == "nat"@
        &&& words[rest + 10] == "--audio-enabled"@ && words[rest + 11] == "on"@
        &&& words[rest + 12] == "--audio-in"@ && words[rest + 13] == "off"@
        &&& words[rest + 14] == "--audio-out"@ && words[rest + 15] == "on"@
        &&& words[rest + 16] == "--boot1"@ && words[rest + 17] == "dvd"@
        &&& words[rest + 18] == "--boot2"@ && words[rest + 19] == "disk"@
        &&& words[rest + 20] == "--boot3"@ && words[rest + 21] == "none"@
        &&& words[rest + 22] == "--boot4"@ && words[rest + 23] == "none"@
    }
}

/// Whether a request registers a machine under a name, as a guest system.
pub open spec fn registers(put: Request, name: Text, os_type: Text) -> bool {
    put == Request::Execute(
        seq![
            "createvm"@,
            "--name"@,
            name,
            "--ostype"@,
            os_type,
            "--platform-architecture"@,
            "x86"@,
            "--register"@,
        ],
    )
}

/// Whether a request makes a disk of so many gigabytes.
pub open spec fn makes_disk(put: Request, disk: Text, disk_gb: u64) -> bool {
    put == Request::Execute(
        seq![
            "createmedium"@,
            "disk"@,
            "--filename"@,
            disk,
            "--size"@,
            model::decimal((disk_gb * 1024) as nat),
            "--format"@,
            "VDI"@,
        ],
    )
}

/// Whether a request puts a medium into a machine.
pub open spec fn puts_in(
    put: Request,
    vm_id: Text,
    port: Text,
    kind: Text,
    medium: Text,
) -> bool {
    put == Request::Execute(
        seq![
            "storageattach"@,
            vm_id,
            "--storagectl"@,
            "SATA"@,
            "--port"@,
            port,
            "--device"@,
            "0"@,
            "--type"@,
            kind,
            "--medium"@,
            medium,
        ],
    )
}

pub open spec fn describes(put: Request, vm_id: Text) -> bool {
    put == Request::Execute(seq!["showvminfo"@, vm_id, "--machinereadable"@])
}

/// Whether the requests from a place on have made the machine that was ordered, in order: it is
/// registered under its name, gets its hardware, for Windows 11 its secure boot, a disk of its
/// size, a controller with that disk at the first port and the installation image at the
/// second, and is looked at.
pub open spec fn makes_as_ordered(
    done: Seq<Request>,
    ordered: VmCreationRequestView,
    vm_id: Text,
    os_type: Text,
    disk: Text,
) -> bool {
    let eleven = ordered.windows_version == ManagedWindowsVersion::Windows11;
    let at = if eleven {
        6int
    } else {
        2
    };
    &&& done.len() == at + 6
    &&& registers(done[0], model::trimmed(ordered.name), os_type)
    &&& gives_hardware(done[1], vm_id, ordered)
    &&& eleven ==> {
        &&& done[2] == Request::Execute(seq!["modifynvram"@, vm_id, "inituefivarstore"@])
        &&& done[3] == Request::Execute(seq!["modifynvram"@, vm_id, "enrollmssignatures"@])
        &&& done[4] == Request::Execute(seq!["modifynvram"@, vm_id, "enrollorclpk"@])
        &&& done[5] == Request::Execute(seq!["modifynvram"@, vm_id, "secureboot"@, "--enable"@])
    }
    &&& describes(done[at], vm_id)
    &&& makes_disk(done[at + 1], disk, ordered.disk_gb)
    &&& done[at + 2] == Request::Execute(
        seq![
            "storagectl"@,
            vm_id,
            "--name"@,
            "SATA"@,
            "--add"@,
            "sata"@,
            "--controller"@,
            "IntelAhci"@,
        ],
    )
    &&& puts_in(done[at + 3], vm_id, "0"@, "hdd"@, disk)
    &&& puts_in(done[at + 4], vm_id, "1"@, "dvddrive"@, ordered.iso_path)
    &&& describes(done[at + 5], vm_id)
}

/// The answer to a command, where it succeeded.
pub open spec fn succeeded(w: Run, k: int) -> Option<VBoxOutputView> {
    match (w.oracle)(k)->Output_0 {
        Ok(output) => if output.success {
            Some(output)
        } else {
            None
        },
        Err(_) => None,
    }
}

proof fn lemma_hardware(vm_id: Text, ordered: VmCreationRequestView)
    ensures
        gives_hardware(
            Request::Execute(
                creation::hardware_arguments(
                    vm_id,
                    ordered,
                    ordered.windows_version == ManagedWindowsVersion::Windows11,
                ),
            ),
            vm_id,
            ordered,
        ),
{
}

proof fn lemma_configured(
    build: Build,
    ordered: VmCreationRequestView,
    vm_id: Text,
    profile: ManagedWindowsVmProfileView,
)
    requires
        profile.tpm_required == (ordered.windows_version == ManagedWindowsVersion::Windows11),
        profile.secure_boot_required == profile.tpm_required,
        creation::configure_p(build, ordered, vm_id, profile).1 is Ok,
    ensures
        ({
            let after = creation::configure_p(build, ordered, vm_id, profile).0.w;
            let done = after.requests.skip(build.w.requests.len() as int);
            let eleven = ordered.windows_version == ManagedWindowsVersion::Windows11;
            &&& after.oracle == build.w.oracle
            &&& after.requests == build.w.requests + done
            &&& done.len() == (if eleven {
                5int
            } else {
                1
            })
            &&& gives_hardware(done[0], vm_id, ordered)
            &&& eleven ==> {
                &&& done[1] == Request::Execute(seq!["modifynvram"@, vm_id, "inituefivarstore"@])
                &&& done[2] == Request::Execute(seq!["modifynvram"@, vm_id, "enrollmssignatures"@])
                &&& done[3] == Request::Execute(seq!["modifynvram"@, vm_id, "enrollorclpk"@])
                &&& done[4] == Request::Execute(
                    seq!["modifynvram"@, vm_id, "secureboot"@, "--enable"@],
                )
            }
        }),
{
    let (after, _) = creation::configure_p(build, ordered, vm_id, profile);
    let command = creation::hardware_arguments(vm_id, ordered, profile.tpm_required);
    lemma_hardware(vm_id, ordered);
    let (b1, _) = creation::step_p(build, "configure-managed-windows-hardware"@, command);
    assert(b1.w.requests == build.w.requests.push(Request::Execute(command)));
    if profile.secure_boot_required {
        creation_laws::law_secure_boot_is_enrolled_before_it_is_switched_on(b1, vm_id);
    }
    let done = after.w.requests.skip(build.w.requests.len() as int);
    assert(after.w.requests =~= build.w.requests + done);
}

/// Whether a disk stands in the directory of the configuration that a description of a machine
/// names, under the name of a system disk.
pub open spec fn stands_beside(output: VBoxOutputView, disk: Text) -> bool {
    let fields = machine_info::machine_fields(output.stdout);
    &&& fields.contains_key("CfgFile"@)
    &&& crate::paths::parent(fields["CfgFile"@]) matches Some(directory) && disk
        == crate::paths::joined(directory, "Barnen-system.vdi"@)
}

/// The disk of a machine stands in the directory of the machine's configuration.
proof fn lemma_disk_made(build: Build, vm_id: Text, disk_gb: u64)
    requires
        creation::create_disk_p(build, vm_id, disk_gb as int).1 is Ok,
    ensures
        ({
            let (after, result) = creation::create_disk_p(build, vm_id, disk_gb as int);
            let done = after.w.requests.skip(build.w.requests.len() as int);
            &&& after.w.oracle == build.w.oracle
            &&& after.w.requests == build.w.requests + done
            &&& done.len() == 2
            &&& describes(done[0], vm_id)
            &&& makes_disk(done[1], result->Ok_0, disk_gb)
            &&& succeeded(build.w, build.w.requests.len() as int) matches Some(output)
                && stands_beside(output, result->Ok_0)
        }),
{
    let (after, result) = creation::create_disk_p(build, vm_id, disk_gb as int);
    let done = after.w.requests.skip(build.w.requests.len() as int);
    assert(after.w.requests =~= build.w.requests + done);
}

proof fn lemma_media_attached(build: Build, vm_id: Text, disk: Text, iso_path: Text)
    requires
        creation::attach_media_p(build, vm_id, disk, iso_path).1 is Ok,
    ensures
        ({
            let after = creation::attach_media_p(build, vm_id, disk, iso_path).0;
            let done = after.w.requests.skip(build.w.requests.len() as int);
            &&& after.w.oracle == build.w.oracle
            &&& after.w.requests == build.w.requests + done
            &&& done.len() == 3
            &&& done[0] == Request::Execute(
                seq![
                    "storagectl"@,
                    vm_id,
                    "--name"@,
                    "SATA"@,
                    "--add"@,
                    "sata"@,
                    "--controller"@,
                    "IntelAhci"@,
                ],
            )
            &&& puts_in(done[1], vm_id, "0"@, "hdd"@, disk)
            &&& puts_in(done[2], vm_id, "1"@, "dvddrive"@, iso_path)
        }),
{
    let after = creation::attach_media_p(build, vm_id, disk, iso_path).0;
    let done = after.w.requests.skip(build.w.requests.len() as int);
    assert(after.w.requests =~= build.w.requests + done);
}

/// Whether a disk stands where the machine was found to be, by the look at it that precedes the
/// disk's making.
pub open spec fn found_place(
    w: Run,
    n: int,
    ordered: VmCreationRequestView,
    disk: Text,
) -> bool {
    let at = if ordered.windows_version == ManagedWindowsVersion::Windows11 {
        6int
    } else {
        2
    };
    succeeded(w, n + at) matches Some(output) && stands_beside(output, disk)
}

proof fn lemma_furnished(
    build: Build,
    ordered: VmCreationRequestView,
    vm_id: Text,
    profile: ManagedWindowsVmProfileView,
    os_type: Text,
)
    requires
        profile.tpm_required == (ordered.windows_version == ManagedWindowsVersion::Windows11),
        profile.secure_boot_required == profile.tpm_required,
        build.w.requests.len() > 0,
        registers(build.w.requests.last(), model::trimmed(ordered.name), os_type),
        creation::furnish_p(build, ordered, vm_id, profile).1 is Ok,
    ensures
        ({
            let after = creation::furnish_p(build, ordered, vm_id, profile).0.w;
            let n = build.w.requests.len() - 1;
            &&& after.oracle == build.w.oracle
            &&& after.requests.take(n) == build.w.requests.take(n)
            &&& exists|disk: Text|
                makes_as_ordered(after.requests.skip(n), ordered, vm_id, os_type, disk)
                    && found_place(build.w, n, ordered, disk)
        }),
{
    let after = creation::furnish_p(build, ordered, vm_id, profile).0.w;
    let n = build.w.requests.len() - 1;
    lemma_configured(build, ordered, vm_id, profile);
    let (b1, r1) = creation::configure_p(build, ordered, vm_id, profile);
    lemma_disk_made(b1, vm_id, ordered.disk_gb);
    let (b2, r2) = creation::create_disk_p(b1, vm_id, ordered.disk_gb as int);
    let disk = r2->Ok_0;
    lemma_media_attached(b2, vm_id, disk, ordered.iso_path);
    let (b3, _) = creation::attach_media_p(b2, vm_id, disk, ordered.iso_path);
    let first = b1.w.requests.skip(build.w.requests.len() as int);
    let second = b2.w.requests.skip(b1.w.requests.len() as int);
    let third = b3.w.requests.skip(b2.w.requests.len() as int);
    let look = Request::Execute(seq!["showvminfo"@, vm_id, "--machinereadable"@]);
    assert(after.requests == b3.w.requests.push(look));
    let done = after.requests.skip(n);
    assert(done =~= seq![build.w.requests.last()] + first + second + third + seq![look]);
    assert(after.requests.take(n) =~= build.w.requests.take(n));
    let at = if ordered.windows_version == ManagedWindowsVersion::Windows11 {
        6int
    } else {
        2
    };
    assert(done[0] == build.w.requests.last());
    assert(done[1] == first[0]);
    if at == 6 {
        assert(done[2] == first[1] && done[3] == first[2] && done[4] == first[3] && done[5]
            == first[4]);
    }
    assert(done[at] == second[0] && done[at + 1] == second[1]);
    assert(done[at + 2] == third[0] && done[at + 3] == third[1] && done[at + 4] == third[2]);
    assert(makes_as_ordered(done, ordered, vm_id, os_type, disk));
    assert(found_place(build.w, n, ordered, disk));
}

/// Whether a creation has made the machine that was ordered: after some requests that only ask,
/// it has run the commands that make it, in order, and no other.
pub open spec fn made_as_ordered(
    before: Run,
    after: Run,
    ordered: VmCreationRequestView,
    n: int,
    vm_id: Text,
    os_type: Text,
    disk: Text,
) -> bool {
    &&& before.requests.len() <= n <= after.requests.len()
    &&& forall|k: int|
        before.requests.len() <= k < n ==> request_laws::reading(#[trigger] after.requests[k])
    &&& makes_as_ordered(after.requests.skip(n), ordered, vm_id, os_type, disk)
    &&& found_place(before, n, ordered, disk)
}

/// A creation that succeeds has made the machine that was ordered, whatever VirtualBox answered:
/// with its name, its memory, its processors, its disk, its installation image and what its
/// Windows version needs, each in its own place, and with one identifier throughout. Its disk
/// stands beside its configuration.
pub proof fn law_a_machine_is_made_as_ordered(w: Run, order: Order)
    requires
        creation::create_p(w, order).1 is Ok,
    ensures
        exists|n: int, vm_id: Text, os_type: Text, disk: Text|
            made_as_ordered(
                w,
                creation::create_p(w, order).0,
                order.request,
                n,
                vm_id,
                os_type,
                disk,
            ),
{
    let rule: Rule = |earlier: Seq<Request>, put: Request| request_laws::reading(put);
    let build = Build { w, made: creation::nothing_made() };
    let after = creation::create_p(w, order).0;
    let name = model::trimmed(order.request.name);
    creation_laws::lemma_prepare(build, order, rule);
    let (b1, r1) = creation::prepare_p(build, order);
    let (profile, existing) = r1->Ok_0;
    let (b2, r2) = creation::register_p(b1, name, profile, existing);
    let vm_id = r2->Ok_0;
    let os_type = profile.virtual_box_os_type_id;
    let n = b1.w.requests.len() as int;
    assert(b2.w.requests.len() == n + 1);
    assert(registers(b2.w.requests.last(), name, os_type));
    lemma_furnished(b2, order.request, vm_id, profile, os_type);
    let disk = choose|disk: Text|
        makes_as_ordered(after.requests.skip(n), order.request, vm_id, os_type, disk)
            && found_place(b2.w, n, order.request, disk);
    assert forall|k: int| w.requests.len() <= k < n implies request_laws::reading(
        #[trigger] after.requests[k],
    ) by {
        assert(after.requests.take(n)[k] == after.requests[k]);
        assert(b2.w.requests.take(n)[k] == b1.w.requests[k]);
    }
    assert(made_as_ordered(w, after, order.request, n, vm_id, os_type, disk));
}

/// A creation that succeeds has run exactly one command that sets a machine's hardware. In it,
/// the word after `--memory` is the memory that was ordered, and the word after `--cpus` is the
/// number of processors that was ordered.
pub proof fn law_memory_and_processors_are_those_ordered(w: Run, order: Order)
    requires
        creation::create_p(w, order).1 is Ok,
    ensures
        ({
            let done = creation::create_p(w, order).0.requests;
            exists|k: int|
                w.requests.len() <= k < done.len() && {
                    let words = (#[trigger] done[k])->Execute_0;
                    &&& creation_laws::runs_command(done[k], "modifyvm"@)
                    &&& words.len() > 5
                    &&& words[2] == "--memory"@
                    &&& words[3] == model::decimal(order.request.memory_mb as nat)
                    &&& words[4] == "--cpus"@
                    &&& words[5] == model::decimal(order.request.cpus as nat)
                    &&& forall|j: int|
                        w.requests.len() <= j < done.len() && j != k
                            ==> !creation_laws::runs_command(#[trigger] done[j], "modifyvm"@)
                }
        }),
{
    let after = creation::create_p(w, order).0;
    let done = after.requests;
    law_a_machine_is_made_as_ordered(w, order);
    let (n, vm_id, os_type, disk) = choose|n: int, vm_id: Text, os_type: Text, disk: Text|
        made_as_ordered(w, after, order.request, n, vm_id, os_type, disk);
    let tail = done.skip(n);
    lemma_one_sets_hardware(tail, order.request, vm_id, os_type, disk);
    assert(tail[1] == done[n + 1]);
    assert forall|j: int| w.requests.len() <= j < done.len() && j != n + 1 implies
        !creation_laws::runs_command(#[trigger] done[j], "modifyvm"@) by {
        if j < n {
            creation_laws::lemma_reading_makes_nothing(done[j]);
        } else {
            assert(done[j] == tail[j - n]);
        }
    }
    assert(creation_laws::runs_command(done[n + 1], "modifyvm"@));
}

proof fn lemma_one_sets_hardware(
    done: Seq<Request>,
    ordered: VmCreationRequestView,
    vm_id: Text,
    os_type: Text,
    disk: Text,
)
    requires
        makes_as_ordered(done, ordered, vm_id, os_type, disk),
    ensures
        forall|k: int|
            0 <= k < done.len() && k != 1 ==> !creation_laws::runs_command(
                #[trigger] done[k],
                "modifyvm"@,
            ),
{
    creation_laws::lemma_words();
    reveal_strlit("modifyvm");
    reveal_strlit("showvminfo");
    assert("modifyvm"@.len() == 8 && "showvminfo"@.len() == 10);
    let at = if ordered.windows_version == ManagedWindowsVersion::Windows11 {
        6int
    } else {
        2
    };
    assert(!creation_laws::runs_command(done[0], "modifyvm"@));
    if at == 6 {
        assert(!creation_laws::runs_command(done[2], "modifyvm"@));
        assert(!creation_laws::runs_command(done[3], "modifyvm"@));
        assert(!creation_laws::runs_command(done[4], "modifyvm"@));
        assert(!creation_laws::runs_command(done[5], "modifyvm"@));
    }
    assert(!creation_laws::runs_command(done[at], "modifyvm"@));
    assert(!creation_laws::runs_command(done[at + 1], "modifyvm"@));
    assert(!creation_laws::runs_command(done[at + 2], "modifyvm"@));
    assert(!creation_laws::runs_command(done[at + 3], "modifyvm"@));
    assert(!creation_laws::runs_command(done[at + 4], "modifyvm"@));
    assert(!creation_laws::runs_command(done[at + 5], "modifyvm"@));
}

// ---- The guest system ------------------------------------------------------------------

/// Whether a guest system is a Windows version for 64-bit x86, by what it is called.
pub open spec fn is_called(
    record: creation::VirtualBoxOsTypeView,
    version: ManagedWindowsVersion,
) -> bool {
    &&& version == ManagedWindowsVersion::Windows10 ==> model::contains(
        record.description,
        "Windows 10"@,
    )
    &&& version == ManagedWindowsVersion::Windows11 ==> model::contains(
        record.description,
        "Windows 11"@,
    )
    &&& model::contains(record.description, "64-bit"@)
    &&& model::contains(record.architecture, "x86"@)
    &&& model::contains(record.architecture, "64-bit"@)
}

proof fn lemma_os_from(
    records: Seq<creation::VirtualBoxOsTypeView>,
    version: ManagedWindowsVersion,
    from: int,
)
    requires
        0 <= from,
    ensures
        match creation::os_from(records, version, from) {
            Some(record) => exists|i: int|
                from <= i < records.len() && #[trigger] records[i] == record && is_called(
                    record,
                    version,
                ) && forall|j: int| from <= j < i ==> !is_called(#[trigger] records[j], version),
            None => forall|j: int|
                from <= j < records.len() ==> !is_called(#[trigger] records[j], version),
        },
    decreases records.len() - from,
{
    if from < records.len() && !creation::fits_version(records[from], version) {
        lemma_os_from(records, version, from + 1);
        assert(!is_called(records[from], version));
    }
}

/// The guest system that a machine is registered as is the first one that VirtualBox lists under
/// the name of the Windows version that was ordered, for 64-bit x86. Where it lists none, there
/// is none.
pub proof fn law_the_guest_system_is_the_ordered_version(
    records: Seq<creation::VirtualBoxOsTypeView>,
    version: ManagedWindowsVersion,
)
    ensures
        creation::os_for(records, version) matches Ok(record) ==> exists|i: int|
            0 <= i < records.len() && #[trigger] records[i] == record && is_called(record, version)
                && forall|j: int| 0 <= j < i ==> !is_called(#[trigger] records[j], version),
        creation::os_for(records, version) is Err <==> forall|j: int|
            0 <= j < records.len() ==> !is_called(#[trigger] records[j], version),
{
    lemma_os_from(records, version, 0);
}

/// The profile of a Windows version says which version it is of, and which guest system it was
/// resolved to. Windows 11, and only that, has UEFI, a TPM and secure boot.
pub proof fn law_a_profile_is_of_its_version(
    w: Run,
    version: ManagedWindowsVersion,
    additions_iso: Option<Text>,
)
    ensures
        creation::profile_p(w, version, additions_iso).1 matches Ok(profile) ==> {
            let eleven = version == ManagedWindowsVersion::Windows11;
            &&& profile.windows_version == version
            &&& profile.tpm_required == eleven
            &&& profile.secure_boot_required == eleven
            &&& profile.firmware == (if eleven {
                "UEFI"@
            } else {
                "BIOS"@
            })
            &&& profile.display_name == (if eleven {
                "Windows 11 x64"@
            } else {
                "Windows 10 x64"@
            })
            &&& profile.guest_additions.bundled_iso_path == additions_iso
            &&& model::contains(
                profile.guest_os_description,
                if eleven {
                    "Windows 11"@
                } else {
                    "Windows 10"@
                },
            )
            &&& model::contains(profile.guest_os_description, "64-bit"@)
            &&& creation::profile_p(w, version, additions_iso).0.requests == w.requests.push(
                Request::Execute(seq!["list"@, "ostypes"@]),
            )
        },
{
    if let Ok(output) = service::checked_p(w, seq!["list"@, "ostypes"@]).1 {
        let records = creation::os_types(output.stdout);
        lemma_os_from(records, ManagedWindowsVersion::Windows10, 0);
        lemma_os_from(records, ManagedWindowsVersion::Windows11, 0);
    }
}

// ---- What may be ordered ---------------------------------------------------------------

/// A machine may have between 2048 megabytes and what leaves the host 4096, at least one
/// processor and at most what leaves the host one of several, and a disk of 32 to 2048
/// gigabytes. Nothing else is said of its resources.
pub proof fn law_resources_are_within_bounds(
    memory_mb: int,
    cpus: int,
    disk_gb: int,
    host_memory_mb: int,
    host_cpus: int,
)
    requires
        0 <= memory_mb,
        0 <= cpus,
        0 <= disk_gb,
        0 <= host_memory_mb,
        0 <= host_cpus,
    ensures
        creation::resources_check(memory_mb, cpus, disk_gb, host_memory_mb, host_cpus) is Ok <==> {
            &&& 2048 <= memory_mb
            &&& memory_mb + 4096 <= host_memory_mb
            &&& 1 <= cpus
            &&& cpus < host_cpus || cpus == 1
            &&& 32 <= disk_gb <= 2048
        },
{
}

/// What is proposed for a host can be ordered on it, where the host has the memory and is no
/// smaller than the smallest machine needs: the proposal keeps the bounds.
pub proof fn law_what_is_proposed_can_be_ordered(
    host_memory_mb: u64,
    host_cpus: u32,
    profiles: Seq<ManagedWindowsVmProfileView>,
    locale: Option<Text>,
)
    requires
        6144 <= host_memory_mb,
        1 <= host_cpus,
    ensures
        ({
            let proposed = creation::proposal(host_memory_mb, host_cpus, profiles, locale);
            &&& creation::resources_check(
                proposed.memory_mb as int,
                proposed.cpus as int,
                proposed.disk_gb as int,
                host_memory_mb as int,
                host_cpus as int,
            ) is Ok
            &&& proposed.host_memory_mb == host_memory_mb
            &&& proposed.host_logical_cpus == host_cpus
            &&& proposed.disk_gb == 72
            &&& proposed.default_windows_version == ManagedWindowsVersion::Windows10
            &&& proposed.profiles == profiles
            &&& proposed.memory_mb <= 16384
            &&& proposed.cpus <= 8
            &&& host_memory_mb >= 10240 && host_memory_mb * 2 / 5 <= 16384 ==> proposed.memory_mb
                == host_memory_mb * 2 / 5
            &&& host_memory_mb * 2 / 5 > 16384 ==> proposed.memory_mb == 16384
            &&& 4 <= host_cpus <= 16 ==> proposed.cpus == host_cpus / 2
            &&& host_cpus > 16 ==> proposed.cpus == 8
        }),
{
}

/// An installation image is one whose name ends in `.iso`, that could be opened, is a file of
/// more than 32773 bytes, and carries the signature `CD001` where such images carry it.
pub proof fn law_an_image_carries_its_signature(path: Text, found: creation::IsoInspectionView)
    ensures
        creation::iso_check(path, found) is Ok <==> {
            &&& model::is_ignoring_case(crate::paths::extension(path), "iso"@)
            &&& found matches creation::IsoInspectionView::Opened { is_file, length, signature }
                && is_file && length >= 32774 && (signature matches creation::IsoSignatureView::Read(
                bytes,
            ) && bytes =~= seq![67u8, 68u8, 48u8, 48u8, 49u8])
        },
{
}

/// An order is refused for want of a name, for what is not an installation image, for resources
/// out of bounds, for what an installation cannot be told, and for Guest Additions that were
/// asked for and are not there; and for nothing else.
pub proof fn law_an_order_is_refused_for_a_reason(order: Order)
    ensures
        creation::order_check(order) is Ok <==> {
            let ordered = order.request;
            &&& model::trimmed(ordered.name).len() > 0
            &&& creation::iso_check(ordered.iso_path, order.iso) is Ok
            &&& 2048 <= ordered.memory_mb
            &&& ordered.memory_mb + 4096 <= order.host_memory_mb
            &&& 1 <= ordered.cpus
            &&& ordered.cpus < order.host_cpus || ordered.cpus == 1
            &&& 32 <= ordered.disk_gb <= 2048
            &&& super::install_config::config_check(ordered.installation) is Ok
            &&& ordered.installation.install_guest_additions ==> order.additions_iso is Some
        },
{
    let ordered = order.request;
    law_resources_are_within_bounds(
        ordered.memory_mb as int,
        ordered.cpus as int,
        ordered.disk_gb as int,
        order.host_memory_mb as int,
        order.host_cpus as int,
    );
}

// ---- Names that are taken --------------------------------------------------------------

proof fn lemma_named(machines: Seq<VirtualMachineView>, name: Text, from: int)
    requires
        0 <= from,
    ensures
        creation::named_from(machines, name, from) is None <==> forall|i: int|
            from <= i < machines.len() ==> !model::same_ignoring_case(
                (#[trigger] machines[i]).name,
                name,
            ),
    decreases machines.len() - from,
{
    if from < machines.len() && !model::same_ignoring_case(machines[from].name, name) {
        lemma_named(machines, name, from + 1);
    }
}

/// A creation goes on only where VirtualBox has listed its machines without a doubt and none of
/// them has the name that was ordered, whatever the case of its letters.
pub proof fn law_a_name_is_used_once(w: Run, order: Order)
    ensures
        creation::prepare_p(
            Build { w, made: creation::nothing_made() },
            order,
        ).1 matches Ok((_, existing)) ==> forall|i: int|
            0 <= i < existing.len() ==> !model::same_ignoring_case(
                (#[trigger] existing[i]).name,
                model::trimmed(order.request.name),
            ),
{
    let build = Build { w, made: creation::nothing_made() };
    if let Ok((_, existing)) = creation::prepare_p(build, order).1 {
        lemma_named(existing, model::trimmed(order.request.name), 0);
    }
}

// ---- Undoing ---------------------------------------------------------------------------

/// A creation that fails after its machine was registered deletes that machine, by the
/// identifier under which it is known, and before it a disk that was made and is in no machine.
/// Nothing else is run, and a creation that registered nothing undoes nothing.
pub proof fn law_what_was_made_is_undone(w: Run, made: creation::CreationTransactionView)
    requires
        made.disk_created ==> made.disk_path is Some,
    ensures
        ({
            let (after, actions) = creation::rollback_creation_p(w, made);
            let loose = made.disk_created && !made.disk_attached;
            let disk = Request::Execute(
                seq!["closemedium"@, "disk"@, made.disk_path->0, "--delete"@],
            );
            let machine = Request::Execute(
                seq!["unregistervm"@, made.vm_identifier->0, "--delete"@],
            );
            &&& after.state == w.state
            &&& after.requests == w.requests + (if loose {
                seq![disk]
            } else {
                seq![]
            }) + (if made.vm_identifier is Some {
                seq![machine]
            } else {
                seq![]
            })
            &&& actions.len() == after.requests.len() - w.requests.len()
        }),
{
    let (after, actions) = creation::rollback_creation_p(w, made);
    let loose = made.disk_created && !made.disk_attached;
    let disk = Request::Execute(seq!["closemedium"@, "disk"@, made.disk_path->0, "--delete"@]);
    let machine = Request::Execute(seq!["unregistervm"@, made.vm_identifier->0, "--delete"@]);
    assert(after.requests =~= w.requests + (if loose {
        seq![disk]
    } else {
        seq![]
    }) + (if made.vm_identifier is Some {
        seq![machine]
    } else {
        seq![]
    }));
}

proof fn lemma_registered(
    build: Build,
    name: Text,
    profile: ManagedWindowsVmProfileView,
    existing: Seq<VirtualMachineView>,
)
    requires
        succeeded(build.w, build.w.requests.len() as int) is Some,
    ensures
        ({
            let after = creation::register_p(build, name, profile, existing).0;
            &&& after.made.vm_identifier is Some
            &&& after.w.requests.len() >= build.w.requests.len()
        }),
{
}

proof fn lemma_deleted_last(w: Run, made: creation::CreationTransactionView)
    requires
        made.vm_identifier is Some,
    ensures
        ({
            let after = creation::rollback_creation_p(w, made).0;
            &&& after.requests.len() > w.requests.len()
            &&& after.requests.last() == Request::Execute(
                seq!["unregistervm"@, made.vm_identifier->0, "--delete"@],
            )
        }),
{
}

/// Once VirtualBox has registered a machine, a creation that fails runs the command that deletes
/// it as its last.
#[verifier::rlimit(40)]
pub proof fn law_a_failed_creation_leaves_no_machine(w: Run, order: Order)
    requires
        creation::create_p(w, order).1 is Err,
        ({
            let build = Build { w, made: creation::nothing_made() };
            let (b1, r1) = creation::prepare_p(build, order);
            r1 is Ok && succeeded(w, b1.w.requests.len() as int) is Some
        }),
    ensures
        ({
            let after = creation::create_p(w, order).0;
            let last = after.requests.last();
            &&& after.requests.len() > w.requests.len()
            &&& last matches Request::Execute(words) && words.len() == 3 && words[0]
                == "unregistervm"@ && words[2] == "--delete"@
        }),
{
    let rule: Rule = |earlier: Seq<Request>, put: Request| true;
    let build = Build { w, made: creation::nothing_made() };
    let name = model::trimmed(order.request.name);
    creation_laws::lemma_prepare(build, order, rule);
    let (b1, r1) = creation::prepare_p(build, order);
    let (profile, existing) = r1->Ok_0;
    let (b2, r2) = creation::register_p(b1, name, profile, existing);
    lemma_registered(b1, name, profile, existing);
    if r2 is Ok {
        lemma_identifier_stays(b2, order.request, r2->Ok_0, profile);
    }
    let (b3, _) = creation::create_steps_p(build, order);
    assert(b3.made.vm_identifier is Some);
    assert(b3.w.requests.len() >= w.requests.len());
    lemma_deleted_last(b3.w, b3.made);
}

proof fn lemma_identifier_stays(
    build: Build,
    ordered: VmCreationRequestView,
    vm_id: Text,
    profile: ManagedWindowsVmProfileView,
)
    ensures
        ({
            let after = creation::furnish_p(build, ordered, vm_id, profile).0;
            &&& after.made.vm_identifier == build.made.vm_identifier
            &&& after.w.requests.len() >= build.w.requests.len()
        }),
{
    let (b1, r1) = creation::configure_p(build, ordered, vm_id, profile);
    assert(b1.made.vm_identifier == build.made.vm_identifier);
    assert(b1.w.requests.len() >= build.w.requests.len());
    if r1 is Ok {
        let (b2, r2) = creation::create_disk_p(b1, vm_id, ordered.disk_gb as int);
        assert(b2.made.vm_identifier == b1.made.vm_identifier);
        assert(b2.w.requests.len() >= b1.w.requests.len());
        if r2 is Ok {
            let (b3, r3) = creation::attach_media_p(b2, vm_id, r2->Ok_0, ordered.iso_path);
            assert(b3.made.vm_identifier == b2.made.vm_identifier);
            assert(b3.w.requests.len() >= b2.w.requests.len());
        }
    }
}

} // verus!
