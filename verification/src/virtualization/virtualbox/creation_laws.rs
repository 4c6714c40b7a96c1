//! What holds of every creation of a machine, whatever VirtualBox answers.
use super::creation;
use super::creation::{
    Build, CreationTransactionView, ManagedWindowsVmProfileView, Order, SecureBootStatus,
};
use super::request_laws;
use super::request_laws::Rule;
use super::runtime::VirtualMachineView;
use super::service;
use super::service::{Request, Run};
use crate::journal;
use crate::seats::ManagedWindowsVersion;
use crate::text::model;
use crate::text::model::Text;
use vstd::prelude::*;

verus! {

// ---- Commands --------------------------------------------------------------------------

pub open spec fn runs_command(request: Request, word: Text) -> bool {
    request matches Request::Execute(arguments) && arguments.len() > 0 && arguments[0] == word
}

/// Whether a request changes a machine that is there.
pub open spec fn changes_machine(request: Request) -> bool {
    runs_command(request, "modifyvm"@) || runs_command(request, "modifynvram"@) || runs_command(
        request,
        "storagectl"@,
    ) || runs_command(request, "storageattach"@)
}

/// Whether a request deletes a machine.
pub open spec fn deletes_machine(request: Request) -> bool {
    runs_command(request, "unregistervm"@)
}

/// Whether a request deletes a disk.
pub open spec fn deletes_disk(request: Request) -> bool {
    runs_command(request, "closemedium"@)
}

pub open spec fn register_command(name: Text, os_type: Text) -> Seq<Text> {
    seq![
        "createvm"@,
        "--name"@,
        name,
        "--ostype"@,
        os_type,
        "--platform-architecture"@,
        "x86"@,
        "--register"@,
    ]
}

pub open spec fn disk_command(disk: Text, disk_gb: int) -> Seq<Text> {
    seq![
        "createmedium"@,
        "disk"@,
        "--filename"@,
        disk,
        "--size"@,
        model::decimal((disk_gb * 1024) as nat),
        "--format"@,
        "VDI"@,
    ]
}

pub open spec fn controller_command(vm_id: Text) -> Seq<Text> {
    seq![
        "storagectl"@,
        vm_id,
        "--name"@,
        "SATA"@,
        "--add"@,
        "sata"@,
        "--controller"@,
        "IntelAhci"@,
    ]
}

/// The words of the commands are different ones.
pub proof fn lemma_words()
    ensures
        "createvm"@ != "modifyvm"@,
        "createvm"@ != "modifynvram"@,
        "createvm"@ != "storagectl"@,
        "createvm"@ != "storageattach"@,
        "createvm"@ != "unregistervm"@,
        "createvm"@ != "closemedium"@,
        "modifyvm"@ != "modifynvram"@,
        "modifyvm"@ != "storagectl"@,
        "modifyvm"@ != "storageattach"@,
        "modifyvm"@ != "unregistervm"@,
        "modifyvm"@ != "closemedium"@,
        "modifyvm"@ != "createmedium"@,
        "modifynvram"@ != "storagectl"@,
        "modifynvram"@ != "storageattach"@,
        "modifynvram"@ != "unregistervm"@,
        "modifynvram"@ != "closemedium"@,
        "modifynvram"@ != "createmedium"@,
        "createmedium"@ != "storagectl"@,
        "createmedium"@ != "storageattach"@,
        "createmedium"@ != "unregistervm"@,
        "createmedium"@ != "closemedium"@,
        "storagectl"@ != "unregistervm"@,
        "storagectl"@ != "closemedium"@,
        "storageattach"@ != "unregistervm"@,
        "storageattach"@ != "closemedium"@,
        "unregistervm"@ != "closemedium"@,
{
    reveal_strlit("createvm");
    reveal_strlit("modifyvm");
    reveal_strlit("modifynvram");
    reveal_strlit("createmedium");
    reveal_strlit("storagectl");
    reveal_strlit("storageattach");
    reveal_strlit("unregistervm");
    reveal_strlit("closemedium");
    assert("createvm"@[0] == 'c' && "createvm"@.len() == 8);
    assert("modifyvm"@[0] == 'm' && "modifyvm"@.len() == 8);
    assert("modifynvram"@[0] == 'm' && "modifynvram"@.len() == 11);
    assert("createmedium"@[0] == 'c' && "createmedium"@.len() == 12);
    assert("storagectl"@[0] == 's' && "storagectl"@.len() == 10);
    assert("storageattach"@[0] == 's' && "storageattach"@.len() == 13);
    assert("unregistervm"@[0] == 'u' && "unregistervm"@.len() == 12);
    assert("closemedium"@[0] == 'c' && "closemedium"@.len() == 11);
}

/// A request that only asks makes and changes nothing.
pub proof fn lemma_reading_makes_nothing(request: Request)
    requires
        request_laws::reading(request),
    ensures
        !changes_machine(request),
        !deletes_machine(request),
        !deletes_disk(request),
        !runs_command(request, "createmedium"@),
{
    reveal_strlit("list");
    reveal_strlit("showvminfo");
    reveal_strlit("getextradata");
    reveal_strlit("guestproperty");
    reveal_strlit("guestcontrol");
    reveal_strlit("modifyvm");
    reveal_strlit("modifynvram");
    reveal_strlit("createmedium");
    reveal_strlit("storagectl");
    reveal_strlit("storageattach");
    reveal_strlit("unregistervm");
    reveal_strlit("closemedium");
    if let Request::Execute(arguments) = request {
        let word = arguments[0];
        assert(word.len() == 4 || word[0] == 'g' || word[1] == 'h');
        assert("modifyvm"@[0] == 'm' && "modifyvm"@[1] == 'o');
        assert("modifynvram"@[0] == 'm' && "modifynvram"@[1] == 'o');
        assert("createmedium"@[0] == 'c' && "createmedium"@[1] == 'r');
        assert("storagectl"@[0] == 's' && "storagectl"@[1] == 't');
        assert("storageattach"@[0] == 's' && "storageattach"@[1] == 't');
        assert("unregistervm"@[0] == 'u' && "unregistervm"@[1] == 'n');
        assert("closemedium"@[0] == 'c' && "closemedium"@[1] == 'l');
    }
}

// ---- Before a machine is registered ----------------------------------------------------

/// A creation that its order does not allow asks VirtualBox nothing, and leaves nothing to undo.
pub proof fn law_an_invalid_order_asks_nothing(w: Run, order: Order)
    requires
        creation::order_check(order) is Err,
    ensures
        ({
            let (after, result) = creation::create_p(w, order);
            let reason = creation::order_check(order)->Err_0;
            &&& after == w
            &&& result matches Err(failure) && failure.failed_step == reason.step
                && failure.message == reason.message && failure.logs.len() == 0
                && failure.rollback_actions.len() == 0
        }),
{
}

proof fn lemma_profile(
    w: Run,
    version: ManagedWindowsVersion,
    additions_iso: Option<Text>,
    rule: Rule,
)
    requires
        request_laws::admits_reading(rule),
    ensures
        ({
            let (after, result) = creation::profile_p(w, version, additions_iso);
            &&& request_laws::goes(w, after, rule)
            &&& after.state == w.state
            &&& result matches Ok(profile) ==> {
                &&& profile.windows_version == version
                &&& profile.tpm_required == (version == ManagedWindowsVersion::Windows11)
                &&& profile.secure_boot_required == (version == ManagedWindowsVersion::Windows11)
                &&& version == ManagedWindowsVersion::Windows10 ==> profile.secure_boot
                    == SecureBootStatus::NotRequired
            }
        }),
{
    request_laws::lemma_checked(w, seq!["list"@, "ostypes"@], rule);
}

/// Everything before a machine is registered only asks. Where it succeeds, no machine has the
/// name that was asked for.
pub proof fn lemma_prepare(build: Build, order: Order, rule: Rule)
    requires
        request_laws::admits_reading(rule),
    ensures
        ({
            let (after, result) = creation::prepare_p(build, order);
            let version = order.request.windows_version;
            &&& request_laws::goes(build.w, after.w, rule)
            &&& after.w.state == build.w.state
            &&& after.made == (CreationTransactionView {
                logs: after.made.logs,
                ..build.made
            })
            &&& result matches Ok((profile, existing)) ==> {
                &&& creation::named_from(existing, model::trimmed(order.request.name), 0) is None
                &&& profile.tpm_required == (version == ManagedWindowsVersion::Windows11)
                &&& profile.secure_boot_required == (version == ManagedWindowsVersion::Windows11)
                &&& version == ManagedWindowsVersion::Windows10 ==> profile.secure_boot
                    == SecureBootStatus::NotRequired
            }
        }),
{
    request_laws::lemma_goes_none(build.w, rule);
    if creation::order_check(order) is Ok {
        let version = order.request.windows_version;
        lemma_profile(build.w, version, order.additions_iso, rule);
        let (w1, answer) = creation::profile_p(build.w, version, order.additions_iso);
        if answer is Ok {
            request_laws::lemma_list_vms(w1, rule);
            request_laws::lemma_goes_both(build.w, w1, service::list_vms_p(w1).0, rule);
        }
    }
}

/// A creation that finds its name taken, or cannot tell, changes nothing: it only asks.
pub proof fn law_a_taken_name_changes_nothing(w: Run, order: Order)
    requires
        creation::prepare_p(Build { w, made: creation::nothing_made() }, order).1 is Err,
    ensures
        journal::within(
            w,
            creation::create_p(w, order).0,
            |earlier: Seq<Request>, put: Request| request_laws::reading(put),
        ),
        creation::create_p(w, order).0.state == w.state,
        creation::create_p(w, order).1 is Err,
{
    let rule: Rule = |earlier: Seq<Request>, put: Request| request_laws::reading(put);
    let build = Build { w, made: creation::nothing_made() };
    lemma_prepare(build, order, rule);
}

// ---- Steps -----------------------------------------------------------------------------

proof fn lemma_step(build: Build, step: Text, arguments: Seq<Text>, rule: Rule)
    requires
        rule(build.w.requests, Request::Execute(arguments)),
    ensures
        ({
            let (after, result) = creation::step_p(build, step, arguments);
            &&& request_laws::goes(build.w, after.w, rule)
            &&& after.w.state == build.w.state
            &&& after.w.requests == build.w.requests.push(Request::Execute(arguments))
            &&& after.made == (CreationTransactionView {
                logs: after.made.logs,
                ..build.made
            })
        }),
{
    request_laws::lemma_checked(build.w, arguments, rule);
}

/// Whether an identifier is one that no machine had before.
pub open spec fn is_new(existing: Seq<VirtualMachineView>, uuid: Text) -> bool {
    !creation::uuid_taken(existing, uuid)
}

/// Whether what has been made can be undone safely: a machine is known by its name, which was
/// free, or by an identifier that no machine had before, and a disk was made in this creation.
pub open spec fn safe_to_undo(
    build: Build,
    name: Text,
    existing: Seq<VirtualMachineView>,
) -> bool {
    &&& (build.made.vm_identifier matches Some(identifier) ==> identifier == name || is_new(
        existing,
        identifier,
    ))
    &&& build.made.disk_created ==> (build.made.disk_path matches Some(path) && made_disk(
        build.w.requests,
        path,
    ))
}

/// Whether some request made a disk.
pub open spec fn made_disk(requests: Seq<Request>, path: Text) -> bool {
    exists|i: int|
        0 <= i < requests.len() && runs_command(#[trigger] requests[i], "createmedium"@)
            && requests[i]->Execute_0.len() == 8 && requests[i]->Execute_0[3] == path
}

proof fn lemma_made_disk_stays(before: Run, after: Run, path: Text, rule: Rule)
    requires
        made_disk(before.requests, path),
        journal::within(before, after, rule),
    ensures
        made_disk(after.requests, path),
{
    let i = choose|i: int|
        0 <= i < before.requests.len() && runs_command(
            #[trigger] before.requests[i],
            "createmedium"@,
        ) && before.requests[i]->Execute_0.len() == 8 && before.requests[i]->Execute_0[3] == path;
    assert(after.requests.take(before.requests.len() as int)[i] == after.requests[i]);
}

/// The rule of a creation on a host with some machines: a machine is changed only if no machine
/// had its identifier before, it is set up as its order says, one that is deleted is known by
/// the name of this creation or by an identifier that no machine had before, and a disk that is
/// deleted was made in this creation.
pub open spec fn makes_only(order: Order, existing: Seq<VirtualMachineView>) -> Rule {
    |earlier: Seq<Request>, put: Request|
        {
            let eleven = order.request.windows_version == ManagedWindowsVersion::Windows11;
            &&& changes_machine(put) ==> is_new(existing, put->Execute_0[1])
            &&& runs_command(put, "modifynvram"@) ==> eleven
            &&& runs_command(put, "modifyvm"@) ==> put->Execute_0 == creation::hardware_arguments(
                put->Execute_0[1],
                order.request,
                eleven,
            )
            &&& deletes_machine(put) ==> put->Execute_0[1] == model::trimmed(order.request.name)
                || is_new(existing, put->Execute_0[1])
            &&& deletes_disk(put) ==> made_disk(earlier, put->Execute_0[2])
        }
}

/// The same rule without anything that is undone.
pub open spec fn builds_only(order: Order, existing: Seq<VirtualMachineView>) -> Rule {
    |earlier: Seq<Request>, put: Request|
        {
            &&& makes_only(order, existing)(earlier, put)
            &&& !deletes_machine(put)
            &&& !deletes_disk(put)
        }
}

proof fn lemma_builds_only_reads(order: Order, existing: Seq<VirtualMachineView>)
    ensures
        request_laws::admits_reading(builds_only(order, existing)),
{
    let rule = builds_only(order, existing);
    assert forall|earlier: Seq<Request>, request: Request|
        request_laws::reading(request) implies #[trigger] rule(earlier, request) by {
        lemma_reading_makes_nothing(request);
    }
}

proof fn lemma_register(
    build: Build,
    order: Order,
    profile: ManagedWindowsVmProfileView,
    existing: Seq<VirtualMachineView>,
)
    requires
        build.made.vm_identifier is None,
        !build.made.disk_created,
    ensures
        ({
            let name = model::trimmed(order.request.name);
            let (after, result) = creation::register_p(build, name, profile, existing);
            &&& request_laws::goes(build.w, after.w, builds_only(order, existing))
            &&& after.w.state == build.w.state
            &&& safe_to_undo(after, name, existing)
            &&& !after.made.disk_created
            &&& !after.made.disk_attached == !build.made.disk_attached
            &&& result matches Ok(vm_id) ==> is_new(existing, vm_id)
                && after.made.vm_identifier == Some(vm_id)
        }),
{
    let name = model::trimmed(order.request.name);
    lemma_words();
    lemma_step(
        build,
        "register-vm"@,
        register_command(name, profile.virtual_box_os_type_id),
        builds_only(order, existing),
    );
}

proof fn lemma_secure_boot(build: Build, vm_id: Text, rule: Rule)
    requires
        request_laws::admits(rule, seq!["modifynvram"@, vm_id, "inituefivarstore"@]),
        request_laws::admits(rule, seq!["modifynvram"@, vm_id, "enrollmssignatures"@]),
        request_laws::admits(rule, seq!["modifynvram"@, vm_id, "enrollorclpk"@]),
        request_laws::admits(rule, seq!["modifynvram"@, vm_id, "secureboot"@, "--enable"@]),
    ensures
        ({
            let (after, result) = creation::secure_boot_p(build, vm_id);
            &&& request_laws::goes(build.w, after.w, rule)
            &&& after.w.state == build.w.state
            &&& after.made == (CreationTransactionView {
                logs: after.made.logs,
                ..build.made
            })
            &&& result is Ok ==> after.w.requests == build.w.requests + seq![
                Request::Execute(seq!["modifynvram"@, vm_id, "inituefivarstore"@]),
                Request::Execute(seq!["modifynvram"@, vm_id, "enrollmssignatures"@]),
                Request::Execute(seq!["modifynvram"@, vm_id, "enrollorclpk"@]),
                Request::Execute(seq!["modifynvram"@, vm_id, "secureboot"@, "--enable"@]),
            ]
        }),
{
    let (after, result) = creation::secure_boot_p(build, vm_id);
    let c1 = seq!["modifynvram"@, vm_id, "inituefivarstore"@];
    let c2 = seq!["modifynvram"@, vm_id, "enrollmssignatures"@];
    let c3 = seq!["modifynvram"@, vm_id, "enrollorclpk"@];
    let c4 = seq!["modifynvram"@, vm_id, "secureboot"@, "--enable"@];
    lemma_step(build, "initialize-uefi-variable-store"@, c1, rule);
    let (b1, r1) = creation::step_p(build, "initialize-uefi-variable-store"@, c1);
    if r1 is Ok {
        lemma_step(b1, "enroll-microsoft-secure-boot-signatures"@, c2, rule);
        let (b2, r2) = creation::step_p(b1, "enroll-microsoft-secure-boot-signatures"@, c2);
        request_laws::lemma_goes_both(build.w, b1.w, b2.w, rule);
        if r2 is Ok {
            lemma_step(b2, "enroll-virtualbox-platform-key"@, c3, rule);
            let (b3, r3) = creation::step_p(b2, "enroll-virtualbox-platform-key"@, c3);
            request_laws::lemma_goes_both(build.w, b2.w, b3.w, rule);
            if r3 is Ok {
                lemma_step(b3, "enable-secure-boot"@, c4, rule);
                let (b4, r4) = creation::step_p(b3, "enable-secure-boot"@, c4);
                request_laws::lemma_goes_both(build.w, b3.w, b4.w, rule);
                assert(b4.w.requests =~= build.w.requests + seq![
                    Request::Execute(c1),
                    Request::Execute(c2),
                    Request::Execute(c3),
                    Request::Execute(c4),
                ]);
            }
        }
    }
}

/// Secure boot is set up in one order: the variable store, Microsoft's signatures, the platform
/// key, and only then the switch.
pub proof fn law_secure_boot_is_enrolled_before_it_is_switched_on(build: Build, vm_id: Text)
    requires
        creation::secure_boot_p(build, vm_id).1 is Ok,
    ensures
        creation::secure_boot_p(build, vm_id).0.w.requests == build.w.requests + seq![
            Request::Execute(seq!["modifynvram"@, vm_id, "inituefivarstore"@]),
            Request::Execute(seq!["modifynvram"@, vm_id, "enrollmssignatures"@]),
            Request::Execute(seq!["modifynvram"@, vm_id, "enrollorclpk"@]),
            Request::Execute(seq!["modifynvram"@, vm_id, "secureboot"@, "--enable"@]),
        ],
{
    lemma_secure_boot(build, vm_id, |earlier: Seq<Request>, put: Request| true);
}

proof fn lemma_configure(
    build: Build,
    order: Order,
    vm_id: Text,
    profile: ManagedWindowsVmProfileView,
    existing: Seq<VirtualMachineView>,
)
    requires
        is_new(existing, vm_id),
        ({
            let eleven = order.request.windows_version == ManagedWindowsVersion::Windows11;
            profile.tpm_required == eleven && profile.secure_boot_required == eleven
        }),
    ensures
        ({
            let (after, result) = creation::configure_p(build, order.request, vm_id, profile);
            &&& request_laws::goes(build.w, after.w, builds_only(order, existing))
            &&& after.w.state == build.w.state
            &&& after.made == (CreationTransactionView {
                logs: after.made.logs,
                ..build.made
            })
            &&& result matches Ok(configured) ==> configured == (if profile.secure_boot_required {
                ManagedWindowsVmProfileView {
                    secure_boot: SecureBootStatus::Configured,
                    ..profile
                }
            } else {
                profile
            })
        }),
{
    let rule = builds_only(order, existing);
    let arguments = creation::hardware_arguments(vm_id, order.request, profile.tpm_required);
    lemma_words();
    assert(arguments[0] == "modifyvm"@ && arguments[1] == vm_id);
    lemma_step(build, "configure-managed-windows-hardware"@, arguments, rule);
    let (b1, r1) = creation::step_p(build, "configure-managed-windows-hardware"@, arguments);
    if r1 is Ok && profile.secure_boot_required {
        lemma_secure_boot(b1, vm_id, rule);
        request_laws::lemma_goes_both(
            build.w,
            b1.w,
            creation::secure_boot_p(b1, vm_id).0.w,
            rule,
        );
    }
}

proof fn lemma_create_disk(
    build: Build,
    order: Order,
    vm_id: Text,
    existing: Seq<VirtualMachineView>,
)
    requires
        build.made.vm_identifier == Some(vm_id),
        is_new(existing, vm_id),
        !build.made.disk_created,
    ensures
        ({
            let name = model::trimmed(order.request.name);
            let (after, result) = creation::create_disk_p(
                build,
                vm_id,
                order.request.disk_gb as int,
            );
            &&& request_laws::goes(build.w, after.w, builds_only(order, existing))
            &&& after.w.state == build.w.state
            &&& safe_to_undo(after, name, existing)
            &&& after.made.vm_identifier == Some(vm_id)
            &&& result is Ok ==> after.made.disk_created
        }),
{
    let rule = builds_only(order, existing);
    let disk_gb = order.request.disk_gb as int;
    lemma_words();
    lemma_builds_only_reads(order, existing);
    let inspect = seq!["showvminfo"@, vm_id, "--machinereadable"@];
    lemma_step(build, "inspect-managed-vm-location"@, inspect, rule);
    let (b1, r1) = creation::step_p(build, "inspect-managed-vm-location"@, inspect);
    if let Ok(output) = r1 {
        if let Ok(disk) = creation::disk_place(output.stdout) {
            let b2 = Build {
                made: CreationTransactionView { disk_path: Some(disk), ..b1.made },
                ..b1
            };
            if disk_gb * 1024 <= u64::MAX {
                lemma_step(b2, "create-system-disk"@, disk_command(disk, disk_gb), rule);
                let (b3, r3) = creation::step_p(
                    b2,
                    "create-system-disk"@,
                    disk_command(disk, disk_gb),
                );
                request_laws::lemma_goes_both(build.w, b2.w, b3.w, rule);
                let i = b2.w.requests.len() as int;
                assert(b3.w.requests[i] == Request::Execute(disk_command(disk, disk_gb)));
                assert(runs_command(b3.w.requests[i], "createmedium"@));
                assert(made_disk(b3.w.requests, disk));
            }
        }
    }
}

proof fn lemma_attach_media(
    build: Build,
    order: Order,
    vm_id: Text,
    disk: Text,
    existing: Seq<VirtualMachineView>,
)
    requires
        is_new(existing, vm_id),
        build.made.vm_identifier == Some(vm_id),
        safe_to_undo(build, model::trimmed(order.request.name), existing),
    ensures
        ({
            let name = model::trimmed(order.request.name);
            let (after, result) = creation::attach_media_p(
                build,
                vm_id,
                disk,
                order.request.iso_path,
            );
            &&& request_laws::goes(build.w, after.w, builds_only(order, existing))
            &&& after.w.state == build.w.state
            &&& safe_to_undo(after, name, existing)
        }),
{
    let rule = builds_only(order, existing);
    let name = model::trimmed(order.request.name);
    lemma_words();
    lemma_step(build, "create-sata-controller"@, controller_command(vm_id), rule);
    let (b1, r1) = creation::step_p(
        build,
        "create-sata-controller"@,
        controller_command(vm_id),
    );
    lemma_undo_stays(build, b1, name, existing, rule);
    if r1 is Ok {
        let c2 = creation::storage_arguments(vm_id, "0"@, "hdd"@, disk);
        lemma_step(b1, "attach-system-disk"@, c2, rule);
        let (b2, r2) = creation::step_p(b1, "attach-system-disk"@, c2);
        request_laws::lemma_goes_both(build.w, b1.w, b2.w, rule);
        lemma_undo_stays(b1, b2, name, existing, rule);
        if r2 is Ok {
            let b3 = Build {
                made: CreationTransactionView { disk_attached: true, ..b2.made },
                ..b2
            };
            let c3 = creation::storage_arguments(
                vm_id,
                "1"@,
                "dvddrive"@,
                order.request.iso_path,
            );
            lemma_step(b3, "attach-windows-iso"@, c3, rule);
            let (b4, _) = creation::step_p(b3, "attach-windows-iso"@, c3);
            request_laws::lemma_goes_both(build.w, b3.w, b4.w, rule);
            lemma_undo_stays(b3, b4, name, existing, rule);
        }
    }
}

proof fn lemma_undo_stays(
    before: Build,
    after: Build,
    name: Text,
    existing: Seq<VirtualMachineView>,
    rule: Rule,
)
    requires
        safe_to_undo(before, name, existing),
        request_laws::goes(before.w, after.w, rule),
        after.made.vm_identifier == before.made.vm_identifier,
        after.made.disk_created == before.made.disk_created,
        after.made.disk_path == before.made.disk_path,
    ensures
        safe_to_undo(after, name, existing),
{
    if before.made.disk_created {
        lemma_made_disk_stays(before.w, after.w, before.made.disk_path->Some_0, rule);
    }
}

proof fn lemma_furnish(
    build: Build,
    order: Order,
    vm_id: Text,
    profile: ManagedWindowsVmProfileView,
    existing: Seq<VirtualMachineView>,
)
    requires
        build.made.vm_identifier == Some(vm_id),
        !build.made.disk_created,
        is_new(existing, vm_id),
        ({
            let eleven = order.request.windows_version == ManagedWindowsVersion::Windows11;
            profile.tpm_required == eleven && profile.secure_boot_required == eleven && (!eleven
                ==> profile.secure_boot == SecureBootStatus::NotRequired)
        }),
    ensures
        ({
            let name = model::trimmed(order.request.name);
            let eleven = order.request.windows_version == ManagedWindowsVersion::Windows11;
            let (after, result) = creation::furnish_p(build, order.request, vm_id, profile);
            &&& request_laws::goes(build.w, after.w, builds_only(order, existing))
            &&& after.w.state == build.w.state
            &&& safe_to_undo(after, name, existing)
            &&& result matches Ok(made) ==> made.profile.secure_boot == (if eleven {
                SecureBootStatus::Configured
            } else {
                SecureBootStatus::NotRequired
            })
        }),
{
    let rule = builds_only(order, existing);
    let name = model::trimmed(order.request.name);
    lemma_builds_only_reads(order, existing);
    lemma_configure(build, order, vm_id, profile, existing);
    let (b1, r1) = creation::configure_p(build, order.request, vm_id, profile);
    if let Ok(configured) = r1 {
        lemma_create_disk(b1, order, vm_id, existing);
        let (b2, r2) = creation::create_disk_p(b1, vm_id, order.request.disk_gb as int);
        request_laws::lemma_goes_both(build.w, b1.w, b2.w, rule);
        if let Ok(disk) = r2 {
            lemma_attach_media(b2, order, vm_id, disk, existing);
            let (b3, r3) = creation::attach_media_p(b2, vm_id, disk, order.request.iso_path);
            request_laws::lemma_goes_both(build.w, b2.w, b3.w, rule);
            if r3 is Ok {
                request_laws::lemma_inspect(b3.w, vm_id, rule);
                let (w, _) = service::inspect_vm_p(b3.w, vm_id);
                request_laws::lemma_goes_both(build.w, b3.w, w, rule);
                lemma_undo_stays(b3, Build { w, ..b3 }, name, existing, rule);
            }
        }
    }
}

proof fn lemma_rollback(build: Build, order: Order, existing: Seq<VirtualMachineView>)
    requires
        safe_to_undo(build, model::trimmed(order.request.name), existing),
    ensures
        ({
            let after = creation::rollback_creation_p(build.w, build.made).0;
            &&& request_laws::goes(build.w, after, makes_only(order, existing))
            &&& after.state == build.w.state
        }),
{
    let rule = makes_only(order, existing);
    let w = build.w;
    let made = build.made;
    lemma_words();
    request_laws::lemma_goes_none(w, rule);
    let drops_disk = made.disk_created && !made.disk_attached;
    let close = seq!["closemedium"@, "disk"@, made.disk_path->Some_0, "--delete"@];
    let w1 = if drops_disk {
        service::checked_p(w, close).0
    } else {
        w
    };
    if drops_disk {
        request_laws::lemma_checked(w, close, rule);
    }
    if let Some(identifier) = made.vm_identifier {
        let command = seq!["unregistervm"@, identifier, "--delete"@];
        request_laws::lemma_checked(w1, command, rule);
        request_laws::lemma_goes_both(w, w1, service::checked_p(w1, command).0, rule);
    }
}

/// A creation changes and deletes only what it made itself. Once it was found that the name is
/// free, whatever follows touches no machine that was there before: a machine that is changed
/// has an identifier that no machine had, one that is deleted is known by that identifier or by
/// the free name, never by an identifier that another machine has, and a disk that is deleted
/// was made just now. Only Windows 11 gets a TPM and secure boot. A creation that succeeds
/// deletes nothing.
pub proof fn law_a_creation_touches_only_what_it_made(
    w: Run,
    order: Order,
    profile: ManagedWindowsVmProfileView,
    existing: Seq<VirtualMachineView>,
)
    requires
        creation::prepare_p(Build { w, made: creation::nothing_made() }, order).1 == Ok::<
            (ManagedWindowsVmProfileView, Seq<VirtualMachineView>),
            creation::StepFailureView,
        >((profile, existing)),
    ensures
        journal::within(w, creation::create_p(w, order).0, makes_only(order, existing)),
        creation::named_from(existing, model::trimmed(order.request.name), 0) is None,
        creation::create_p(w, order).0.state == w.state,
        creation::create_p(w, order).1 matches Ok(made) ==> {
            &&& journal::within(w, creation::create_p(w, order).0, builds_only(order, existing))
            &&& made.profile.secure_boot == (if order.request.windows_version
                == ManagedWindowsVersion::Windows11 {
                SecureBootStatus::Configured
            } else {
                SecureBootStatus::NotRequired
            })
        },
{
    let rule = builds_only(order, existing);
    let wide = makes_only(order, existing);
    let name = model::trimmed(order.request.name);
    let build = Build { w, made: creation::nothing_made() };
    lemma_builds_only_reads(order, existing);
    lemma_prepare(build, order, rule);
    let (b1, _) = creation::prepare_p(build, order);
    lemma_register(b1, order, profile, existing);
    let (b2, r2) = creation::register_p(b1, name, profile, existing);
    request_laws::lemma_goes_both(w, b1.w, b2.w, rule);
    journal::lemma_within_wider(w, b2.w, rule, wide);
    match r2 {
        Err(_) => {
            lemma_rollback(b2, order, existing);
            journal::lemma_within_both(w, b2.w, creation::create_p(w, order).0, wide);
        },
        Ok(vm_id) => {
            lemma_furnish(b2, order, vm_id, profile, existing);
            let (b3, r3) = creation::furnish_p(b2, order.request, vm_id, profile);
            request_laws::lemma_goes_both(w, b2.w, b3.w, rule);
            journal::lemma_within_wider(w, b3.w, rule, wide);
            if r3 is Err {
                lemma_rollback(b3, order, existing);
                journal::lemma_within_both(w, b3.w, creation::create_p(w, order).0, wide);
            }
        },
    }
}

} // verus!
