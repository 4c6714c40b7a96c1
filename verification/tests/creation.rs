use multiseat_virtualization::seats::ManagedWindowsVersion;
use multiseat_virtualization::virtualization::virtualbox::creation::{
    creation_proposal, parse_virtual_box_os_types, resolve_windows_os_type, windows_profile,
    ISO_PRIMARY_VOLUME_DESCRIPTOR,
};
use multiseat_virtualization::virtualization::virtualbox::{
    GuestAdditionsState, InstallationHost, IsoInspection, IsoSignature, PasswordFailure,
    SecureBootStatus, UnavailableExecutor, VBoxManageExecutor, VBoxOutput,
    VirtualBoxRuntimeService, VmCreationRequest, WindowsInstallConfig,
};
use multiseat_virtualization::virtualization::DetectionState;
use std::sync::{Arc, Mutex};

const OS_TYPES: &str = "ID / Description: Win10-Test-ID -- Windows 10 (64-bit)\nFamily: Windows (Microsoft Windows)\nArchitecture: x86 (64-bit)\n\nID / Description: Win11-Test-ID -- Windows 11 (64-bit)\nFamily: Windows (Microsoft Windows)\nArchitecture: x86 (64-bit)\n";

#[derive(Clone)]
struct CreationExecutor {
    calls: Arc<Mutex<Vec<Vec<String>>>>,
    existing_vm: bool,
    uuid_collision: bool,
    fail_step_command: Option<String>,
}

impl VBoxManageExecutor for CreationExecutor {
    fn execute(&self, arguments: &[String]) -> Result<VBoxOutput, String> {
        self.calls.lock().unwrap().push(arguments.to_vec());
        if self
            .fail_step_command
            .as_deref()
            .is_some_and(|command| arguments.first().is_some_and(|value| value == command))
        {
            return Ok(VBoxOutput {
                success: false,
                exit_code: Some(1),
                stdout: String::new(),
                stderr: "injected failure".to_owned(),
            });
        }
        let mut stdout = match arguments.iter().map(String::as_str).collect::<Vec<_>>().as_slice() {
            ["list", "ostypes"] => OS_TYPES.to_owned(),
            ["list", "vms"] if self.existing_vm => "\"Windows - Barnen\" {existing-uuid}\n".to_owned(),
            ["list", "vms"] if self.uuid_collision => "\"Unrelated VM\" {managed-vm-uuid}\n".to_owned(),
            ["list", "vms"] => String::new(),
            ["createvm", ..] => "UUID: managed-vm-uuid\n".to_owned(),
            ["showvminfo", "existing-uuid", "--machinereadable"] => "name=\"Windows - Barnen\"\nUUID=\"existing-uuid\"\nVMState=\"poweroff\"\nostype=\"Windows11_64\"\nxhci=\"on\"\n".to_owned(),
            ["showvminfo", "managed-vm-uuid", "--machinereadable"] => String::new(),
            _ => String::new(),
        };
        if arguments.len() == 3
            && arguments[0] == "showvminfo"
            && arguments[1] == "managed-vm-uuid"
            && arguments[2] == "--machinereadable"
        {
            let os_type = self
                .calls
                .lock()
                .unwrap()
                .iter()
                .rev()
                .find_map(|call| {
                    (call.first().is_some_and(|value| value == "createvm"))
                        .then(|| call.iter().position(|value| value == "--ostype"))
                        .flatten()
                        .and_then(|index| call.get(index + 1))
                        .cloned()
                })
                .unwrap_or_else(|| "Win10-Test-ID".to_owned());
            stdout = format!("name=\"Windows - Barnen\"\nUUID=\"managed-vm-uuid\"\nVMState=\"poweroff\"\nostype=\"{os_type}\"\nxhci=\"on\"\nCfgFile=\"C:\\VirtualBox VMs\\Windows - Barnen\\Windows - Barnen.vbox\"\n");
        }
        Ok(VBoxOutput {
            success: true,
            exit_code: Some(0),
            stdout,
            stderr: String::new(),
        })
    }

    fn wait(&self, _milliseconds: u64) {}
}

fn valid_iso(label: &str) -> (String, IsoInspection) {
    (
        format!("C:\\Temp\\multiseat-{label} with spaces\\Windows 11 installer.iso"),
        IsoInspection::Opened {
            is_file: true,
            length: ISO_PRIMARY_VOLUME_DESCRIPTOR + 5,
            signature: IsoSignature::Read(b"CD001".to_vec()),
        },
    )
}

fn request(path: &str) -> VmCreationRequest {
    VmCreationRequest {
        name: "Windows - Barnen".into(),
        iso_path: path.to_owned(),
        memory_mb: 8192,
        cpus: 4,
        disk_gb: 72,
        windows_version: ManagedWindowsVersion::Windows10,
        installation: WindowsInstallConfig {
            username: "Barnen".into(),
            password: "test-password".into(),
            computer_name: "BARNEN-PC".into(),
            domain_name: "multiseat.local".into(),
            locale: "sv_SE".into(),
            language: "sv".into(),
            country: "SE".into(),
            time_zone: String::new(),
            product_key: None,
            install_guest_additions: false,
        },
    }
}

fn service(executor: &CreationExecutor) -> VirtualBoxRuntimeService {
    VirtualBoxRuntimeService::new(Box::new(executor.clone()))
}

#[test]
fn windows_profiles_preserve_distinct_security_requirements() {
    let records = parse_virtual_box_os_types(OS_TYPES);
    let profiles = vec![
        windows_profile(
            ManagedWindowsVersion::Windows10,
            resolve_windows_os_type(&records, ManagedWindowsVersion::Windows10).unwrap(),
            SecureBootStatus::NotRequired,
            None,
        ),
        windows_profile(
            ManagedWindowsVersion::Windows11,
            resolve_windows_os_type(&records, ManagedWindowsVersion::Windows11).unwrap(),
            SecureBootStatus::WillConfigure,
            None,
        ),
    ];
    let proposal = creation_proposal(32_768, 16, profiles, None);
    assert_eq!(
        proposal.default_windows_version,
        ManagedWindowsVersion::Windows10
    );
    let windows_10 = &proposal.profiles[0];
    assert_eq!(windows_10.virtual_box_os_type_id, "Win10-Test-ID");
    assert_eq!(windows_10.guest_os_description, "Windows 10 (64-bit)");
    assert_eq!(windows_10.firmware, "BIOS");
    assert!(!windows_10.tpm_required);
    assert!(!windows_10.secure_boot_required);
    let windows_11 = &proposal.profiles[1];
    assert_eq!(windows_11.firmware, "UEFI");
    assert_eq!(windows_11.guest_os_description, "Windows 11 (64-bit)");
    assert_eq!(windows_11.tpm, "2.0 (VirtualBox virtual TPM)");
    assert!(windows_11.tpm_required);
    assert!(windows_11.secure_boot_required);
    assert_eq!(windows_11.usb_controller, "xHCI");
    assert!(windows_11.io_apic_enabled);
    assert_eq!(
        windows_11.guest_additions.state,
        GuestAdditionsState::NotInstalled
    );
    assert!(windows_11.guest_additions.automatic_installation_supported);
}

struct Files(Vec<String>);

impl InstallationHost for Files {
    fn is_file(&mut self, path: &str) -> bool {
        self.0.iter().any(|known| known == path)
    }

    fn inspect_iso(&mut self, _path: &str) -> IsoInspection {
        IsoInspection::OpenFailed("not found".to_owned())
    }

    fn read_text(&mut self, _path: &str) -> Result<String, String> {
        Err("not found".to_owned())
    }

    fn firmware_virtualization(&mut self) -> DetectionState {
        DetectionState::Unknown
    }

    fn keep_password(&mut self, _password: &str) -> Result<String, PasswordFailure> {
        Err(PasswordFailure::Create("not here".to_owned()))
    }

    fn forget_password(&mut self, _path: &str) {}
}

#[test]
fn discovers_guest_additions_iso_next_to_vboxmanage() {
    let executable = r"C:\Program Files\Oracle\VirtualBox\VBoxManage.exe";
    let additions = r"C:\Program Files\Oracle\VirtualBox\VBoxGuestAdditions.iso".to_owned();
    let mut host = Files(vec![executable.to_owned(), additions.clone()]);
    let mut service = VirtualBoxRuntimeService::new(Box::new(UnavailableExecutor("unused".into())));
    assert_eq!(
        service.guest_additions_iso_next_to(&mut host, executable),
        Some(additions)
    );
    host.0.pop();
    assert_eq!(service.guest_additions_iso_next_to(&mut host, executable), None);
}

#[test]
fn creation_uses_argument_safe_paths_with_spaces_and_complete_profile() {
    let (iso, found) = valid_iso("arguments");
    let executor = CreationExecutor {
        calls: Arc::new(Mutex::new(Vec::new())),
        existing_vm: false,
        uuid_collision: false,
        fail_step_command: None,
    };
    let mut creation_request = request(&iso);
    creation_request.windows_version = ManagedWindowsVersion::Windows11;
    let result = service(&executor)
        .create_vm_with_host_resources(&creation_request, 32_768, 16, &found, None)
        .unwrap();
    let calls = executor.calls.lock().unwrap();
    let iso_argument = iso.clone();
    assert!(calls
        .iter()
        .any(|arguments| arguments.iter().any(|argument| argument == &iso_argument)));
    let modify = calls
        .iter()
        .find(|arguments| arguments.first().is_some_and(|value| value == "modifyvm"))
        .unwrap();
    for pair in [
        ["--firmware", "efi"],
        ["--tpm-type", "2.0"],
        ["--ioapic", "on"],
        ["--usb-xhci", "on"],
        ["--graphicscontroller", "vboxsvga"],
    ] {
        assert!(modify.windows(2).any(|window| window == pair));
    }
    assert_eq!(result.profile.secure_boot, SecureBootStatus::Configured);
}

#[test]
fn secure_boot_enrollment_is_explicit_and_ordered() {
    let (iso, found) = valid_iso("secureboot");
    let executor = CreationExecutor {
        calls: Arc::new(Mutex::new(Vec::new())),
        existing_vm: false,
        uuid_collision: false,
        fail_step_command: None,
    };
    let mut creation_request = request(&iso);
    creation_request.windows_version = ManagedWindowsVersion::Windows11;
    service(&executor)
        .create_vm_with_host_resources(&creation_request, 32_768, 16, &found, None)
        .unwrap();
    let calls = executor.calls.lock().unwrap();
    let operations: Vec<_> = calls
        .iter()
        .filter(|args| args.first().is_some_and(|value| value == "modifynvram"))
        .map(|args| args[2].clone())
        .collect();
    assert_eq!(
        operations,
        vec![
            "inituefivarstore",
            "enrollmssignatures",
            "enrollorclpk",
            "secureboot"
        ]
    );
}

#[test]
fn windows_10_creation_omits_tpm_and_secure_boot_commands() {
    let (iso, found) = valid_iso("windows-10-security");
    let executor = CreationExecutor {
        calls: Arc::new(Mutex::new(Vec::new())),
        existing_vm: false,
        uuid_collision: false,
        fail_step_command: None,
    };
    let result = service(&executor)
        .create_vm_with_host_resources(&request(&iso), 32_768, 16, &found, None)
        .unwrap();
    let calls = executor.calls.lock().unwrap();
    let modify = calls
        .iter()
        .find(|arguments| arguments.first().is_some_and(|value| value == "modifyvm"))
        .unwrap();
    assert!(modify
        .windows(2)
        .any(|window| window == ["--firmware", "bios"]));
    assert!(!modify.iter().any(|argument| argument == "--tpm-type"));
    assert!(!calls.iter().any(|arguments| arguments
        .first()
        .is_some_and(|value| value == "modifynvram")));
    assert_eq!(
        result.profile.windows_version,
        ManagedWindowsVersion::Windows10
    );
    assert_eq!(result.profile.secure_boot, SecureBootStatus::NotRequired);
}

#[test]
fn failed_creation_rolls_back_only_owned_vm_and_disk() {
    let (iso, found) = valid_iso("rollback");
    let executor = CreationExecutor {
        calls: Arc::new(Mutex::new(Vec::new())),
        existing_vm: false,
        uuid_collision: false,
        fail_step_command: Some("storagectl".into()),
    };
    let failure = service(&executor)
        .create_vm_with_host_resources(&request(&iso), 32_768, 16, &found, None)
        .unwrap_err();
    assert_eq!(failure.failed_step, "create-sata-controller");
    let calls = executor.calls.lock().unwrap();
    assert!(calls.iter().any(|args| {
        args.first().is_some_and(|value| value == "closemedium")
            && args
                .iter()
                .any(|value| value == "C:\\VirtualBox VMs\\Windows - Barnen\\Barnen-system.vdi")
    }));
    assert!(calls
        .iter()
        .any(|args| args.as_slice() == ["unregistervm", "managed-vm-uuid", "--delete"]));
    assert!(!calls
        .iter()
        .any(|args| args.iter().any(|value| value == "existing-uuid")));
    assert!(!calls
        .iter()
        .any(|args| args.first().is_some_and(|value| value == "unattended")));
}

#[test]
fn existing_vm_with_same_name_is_never_modified() {
    let (iso, found) = valid_iso("collision");
    let executor = CreationExecutor {
        calls: Arc::new(Mutex::new(Vec::new())),
        existing_vm: true,
        uuid_collision: false,
        fail_step_command: None,
    };
    let failure = service(&executor)
        .create_vm_with_host_resources(&request(&iso), 32_768, 16, &found, None)
        .unwrap_err();
    assert_eq!(failure.failed_step, "check-existing-vms");
    let calls = executor.calls.lock().unwrap();
    assert!(!calls
        .iter()
        .any(|args| args.first().is_some_and(|value| value == "createvm"
            || value == "modifyvm"
            || value == "unregistervm")));
}

#[test]
fn colliding_created_uuid_never_targets_the_existing_uuid_for_rollback() {
    let (iso, found) = valid_iso("uuid-collision");
    let executor = CreationExecutor {
        calls: Arc::new(Mutex::new(Vec::new())),
        existing_vm: false,
        uuid_collision: true,
        fail_step_command: None,
    };
    let failure = service(&executor)
        .create_vm_with_host_resources(&request(&iso), 32_768, 16, &found, None)
        .unwrap_err();
    assert_eq!(failure.failed_step, "validate-created-vm-uuid");
    let calls = executor.calls.lock().unwrap();
    assert!(calls
        .iter()
        .any(|args| { args.as_slice() == ["unregistervm", "Windows - Barnen", "--delete"] }));
    assert!(!calls.iter().any(|args| {
        args.first().is_some_and(|value| value == "unregistervm")
            && args.iter().any(|value| value == "managed-vm-uuid")
    }));
}

#[test]
fn invalid_or_unreadable_iso_is_rejected_before_vboxmanage() {
    let path = r"C:\Temp\not-a-windows-image.txt";
    let found = IsoInspection::OpenFailed("not found".to_owned());
    let executor = CreationExecutor {
        calls: Arc::new(Mutex::new(Vec::new())),
        existing_vm: false,
        uuid_collision: false,
        fail_step_command: None,
    };
    let failure = service(&executor)
        .create_vm_with_host_resources(&request(path), 32_768, 16, &found, None)
        .unwrap_err();
    assert_eq!(failure.failed_step, "validate-windows-iso");
    assert!(executor.calls.lock().unwrap().is_empty());
}

#[test]
fn a_machine_that_could_not_be_kept_is_deleted() {
    let executor = CreationExecutor {
        calls: Arc::new(Mutex::new(Vec::new())),
        existing_vm: false,
        uuid_collision: false,
        fail_step_command: None,
    };
    service(&executor)
        .rollback_created_vm_after_persistence_failure("managed-vm-uuid")
        .unwrap();
    assert_eq!(
        *executor.calls.lock().unwrap(),
        [["unregistervm", "managed-vm-uuid", "--delete"]]
    );
}
