use multiseat_virtualization::seats::{
    GuestAdditionsInstallState, GuestAdditionsStatus, GuestRunLevel, GuestRunLevelProbe,
    ManagedInstallState, ManagedInstallationObservation, ManagedVmInstallation, ManagedVmStatus,
    ManagedWindowsVersion, WindowsInstallationStatus,
};
use multiseat_virtualization::text_map::TextMap;
use multiseat_virtualization::virtualization::virtualbox::guest_observation::reconcile_installation_observation;
use multiseat_virtualization::virtualization::virtualbox::install_config::unattended_arguments;
use multiseat_virtualization::virtualization::virtualbox::recovery::recovery_can_resume;
use multiseat_virtualization::virtualization::virtualbox::{
    apply_legacy_managed_install_defaults, unattended_hostname, validate_windows_install_config,
    GuestAdditionsPreparation, GuestAdditionsState, InstallationHost, IsoInspection, IsoSignature,
    ManagedVmRecoveryClassification, ManagedWindowsVmProfile, PasswordFailure, SecureBootStatus,
    VBoxManageExecutor, VBoxOutput, VirtualBoxRuntimeService, WindowsInstallConfig,
};
use multiseat_virtualization::virtualization::DetectionState;
use std::sync::{Arc, Mutex};

struct PropertyExecutor;

impl VBoxManageExecutor for PropertyExecutor {
    fn execute(&self, arguments: &[String]) -> Result<VBoxOutput, String> {
        let runlevel = arguments.iter().any(|value| value == "waitrunlevel");
        let stdout = if arguments.first().is_some_and(|value| value == "showvminfo") {
            "name=\"Barnen\"\nUUID=\"vm-id\"\nVMState=\"running\"\nostype=\"Windows 11 (64-bit)\"\n"
        } else {
            ""
        };
        Ok(VBoxOutput {
            success: !runlevel,
            exit_code: Some(if runlevel { 1 } else { 0 }),
            stdout: stdout.to_owned(),
            stderr: runlevel
                .then(|| "runlevel unavailable".to_owned())
                .unwrap_or_default(),
        })
    }

    fn wait(&self, _milliseconds: u64) {}
}

struct RunlevelExecutor {
    highest: GuestRunLevel,
    properties: String,
}

struct ExitCodeOnlyExecutor;

impl VBoxManageExecutor for ExitCodeOnlyExecutor {
    fn execute(&self, _arguments: &[String]) -> Result<VBoxOutput, String> {
        Ok(VBoxOutput {
            // Deliberately inconsistent to prove the probe uses exit_code.
            success: false,
            exit_code: Some(0),
            stdout: String::new(),
            stderr: String::new(),
        })
    }

    fn wait(&self, _milliseconds: u64) {}
}

impl VBoxManageExecutor for RunlevelExecutor {
    fn execute(&self, arguments: &[String]) -> Result<VBoxOutput, String> {
        let (success, stdout, stderr) = match arguments.first().map(String::as_str) {
            Some("showvminfo") => (
                true,
                "name=\"Barnen\"\nUUID=\"vm-id\"\nVMState=\"running\"\nostype=\"Windows 10 (64-bit)\"\n".to_owned(),
                String::new(),
            ),
            Some("guestproperty") => (true, self.properties.clone(), String::new()),
            Some("guestcontrol") => {
                let requested = arguments
                    .iter()
                    .position(|value| value == "waitrunlevel")
                    .and_then(|index| arguments.get(index + 1))
                    .map(|value| match value.as_str() {
                        "system" => GuestRunLevel::System,
                        "userland" => GuestRunLevel::Userland,
                        "desktop" => GuestRunLevel::Desktop,
                        _ => GuestRunLevel::Unknown,
                    })
                    .unwrap_or(GuestRunLevel::Unknown);
                let reached = requested != GuestRunLevel::Unknown && self.highest.reaches(requested);
                (
                    reached,
                    String::new(),
                    (!reached).then(|| "runlevel unavailable".to_owned()).unwrap_or_default(),
                )
            }
            _ => (true, String::new(), String::new()),
        };
        Ok(VBoxOutput {
            success,
            exit_code: Some(if success { 0 } else { 1 }),
            stdout,
            stderr,
        })
    }

    fn wait(&self, _milliseconds: u64) {}
}

struct FailingExecutor;

impl VBoxManageExecutor for FailingExecutor {
    fn execute(&self, arguments: &[String]) -> Result<VBoxOutput, String> {
        Ok(VBoxOutput {
            success: false,
            exit_code: Some(1),
            stdout: String::new(),
            stderr: format!("rejected {}", arguments.join(" ")),
        })
    }

    fn wait(&self, _milliseconds: u64) {}
}

struct UnattendedFailingExecutor;

impl VBoxManageExecutor for UnattendedFailingExecutor {
    fn execute(&self, arguments: &[String]) -> Result<VBoxOutput, String> {
        if arguments.first().is_some_and(|value| value == "showvminfo") {
            return Ok(VBoxOutput {
                success: true,
                exit_code: Some(0),
                stdout: "name=\"Barnen\"\nUUID=\"vm-id\"\nVMState=\"poweroff\"\nostype=\"Windows 10 (64-bit)\"\n".to_owned(),
                stderr: String::new(),
            });
        }
        Ok(VBoxOutput {
            success: false,
            exit_code: Some(1),
            stdout: String::new(),
            stderr: format!("rejected {}", arguments.join(" ")),
        })
    }

    fn wait(&self, _milliseconds: u64) {}
}

#[derive(Clone)]
struct RecordingInstallExecutor(Arc<Mutex<Vec<Vec<String>>>>);

impl VBoxManageExecutor for RecordingInstallExecutor {
    fn execute(&self, arguments: &[String]) -> Result<VBoxOutput, String> {
        self.0.lock().unwrap().push(arguments.to_vec());
        let stdout = if arguments.first().is_some_and(|value| value == "showvminfo") {
            "name=\"Barnen\"\nUUID=\"vm-id\"\nVMState=\"poweroff\"\nostype=\"Windows 10 (64-bit)\"\n"
        } else {
            ""
        };
        Ok(VBoxOutput {
            success: true,
            exit_code: Some(0),
            stdout: stdout.to_owned(),
            stderr: String::new(),
        })
    }

    fn wait(&self, _milliseconds: u64) {}
}

#[derive(Clone)]
struct RecoveryExecutor {
    calls: Arc<Mutex<Vec<Vec<String>>>>,
    vm_info: String,
    hostinfo: String,
    guest_os: Option<String>,
}

impl VBoxManageExecutor for RecoveryExecutor {
    fn execute(&self, arguments: &[String]) -> Result<VBoxOutput, String> {
        self.calls.lock().unwrap().push(arguments.to_vec());
        if arguments
            .first()
            .is_some_and(|value| value == "guestcontrol")
        {
            return Ok(VBoxOutput {
                success: false,
                exit_code: Some(1),
                stdout: String::new(),
                stderr: "runlevel unavailable".to_owned(),
            });
        }
        let stdout = match arguments.iter().map(String::as_str).collect::<Vec<_>>().as_slice() {
            ["list", "ostypes"] => "ID / Description: Win10-Recovery-ID -- Windows 10 (64-bit)\nFamily: Windows (Microsoft Windows)\nArchitecture: x86 (64-bit)\n\nID / Description: Win11-Recovery-ID -- Windows 11 (64-bit)\nFamily: Windows (Microsoft Windows)\nArchitecture: x86 (64-bit)\n".to_owned(),
            ["list", "hostinfo"] => self.hostinfo.clone(),
            ["showvminfo", ..] => self.vm_info.clone(),
            ["guestproperty", "get", _, "/VirtualBox/GuestInfo/OS/Product"] => self
                .guest_os
                .as_ref()
                .map(|value| format!("Value: {value}\n"))
                .unwrap_or_else(|| "No value set!\n".to_owned()),
            ["guestproperty", "get", ..] => "No value set!\n".to_owned(),
            ["guestproperty", "enumerate", ..] => self
                .guest_os
                .as_ref()
                .map(|value| format!("/VirtualBox/GuestInfo/OS/Product = '{value}' @ 1\n"))
                .unwrap_or_default(),
            ["unattended", "install", ..] => String::new(),
            _ => String::new(),
        };
        Ok(VBoxOutput {
            success: true,
            exit_code: Some(0),
            stdout,
            stderr: String::new(),
        })
    }

    fn wait(&self, _milliseconds: u64) {}
}

fn config() -> WindowsInstallConfig {
    WindowsInstallConfig {
        username: "Barnen".to_owned(),
        password: "s3cret password".to_owned(),
        computer_name: "BARNEN-PC".to_owned(),
        domain_name: "multiseat.local".to_owned(),
        locale: "sv_SE".to_owned(),
        language: "sv".to_owned(),
        country: "SE".to_owned(),
        time_zone: String::new(),
        product_key: None,
        install_guest_additions: true,
    }
}

fn profile(
    windows_version: ManagedWindowsVersion,
    guest_os_type: &str,
) -> ManagedWindowsVmProfile {
    let windows_11 = windows_version == ManagedWindowsVersion::Windows11;
    ManagedWindowsVmProfile {
        windows_version,
        display_name: if windows_11 {
            "Windows 11 x64"
        } else {
            "Windows 10 x64"
        }
        .into(),
        virtual_box_os_type_id: guest_os_type.into(),
        guest_os_description: if windows_11 {
            "Windows 11 (64-bit)"
        } else {
            "Windows 10 (64-bit)"
        }
        .into(),
        architecture: "x86_64".into(),
        firmware: if windows_11 { "UEFI" } else { "BIOS" }.into(),
        tpm: if windows_11 { "2.0" } else { "Not required" }.into(),
        tpm_required: windows_11,
        io_apic_enabled: true,
        secure_boot: if windows_11 {
            SecureBootStatus::Configured
        } else {
            SecureBootStatus::NotRequired
        },
        secure_boot_required: windows_11,
        usb_controller: "xHCI".into(),
        graphics_controller: "VBoxSVGA".into(),
        vram_mb: 128,
        network: "NAT".into(),
        audio_output_enabled: true,
        storage_controller: "SATA (Intel AHCI)".into(),
        guest_additions: GuestAdditionsPreparation {
            state: GuestAdditionsState::NotInstalled,
            bundled_iso_path: None,
            automatic_installation_supported: true,
        },
    }
}

fn installing_journal() -> ManagedVmInstallation {
    ManagedVmInstallation {
        windows_version: ManagedWindowsVersion::Windows10,
        virtual_box_os_type_id: "Windows10_64".into(),
        computer_name: "BARNEN-PC".into(),
        domain_name: "multiseat.local".into(),
        state: ManagedInstallState::InstallingWindows,
        guest_additions: GuestAdditionsInstallState::Installing,
        guest_additions_version: None,
        last_error: None,
        observed: ManagedInstallationObservation {
            windows: WindowsInstallationStatus::Installing,
            managed: ManagedVmStatus::Installing,
            ..ManagedInstallationObservation::default()
        },
    }
}

/// A host whose files are kept in memory.
#[derive(Clone, Default)]
struct MemoryHost {
    files: Vec<(String, String)>,
    images: Vec<String>,
    passwords: Arc<Mutex<Vec<(String, String)>>>,
    forgotten: Arc<Mutex<Vec<String>>>,
}

impl InstallationHost for MemoryHost {
    fn is_file(&mut self, path: &str) -> bool {
        self.files.iter().any(|(known, _)| known == path)
            || self.images.iter().any(|known| known == path)
    }

    fn inspect_iso(&mut self, path: &str) -> IsoInspection {
        if self.images.iter().any(|known| known == path) {
            IsoInspection::Opened {
                is_file: true,
                length: 32_774,
                signature: IsoSignature::Read(b"CD001".to_vec()),
            }
        } else {
            IsoInspection::OpenFailed("not found".to_owned())
        }
    }

    fn read_text(&mut self, path: &str) -> Result<String, String> {
        self.files
            .iter()
            .find(|(known, _)| known == path)
            .map(|(_, text)| text.clone())
            .ok_or_else(|| "not found".to_owned())
    }

    fn firmware_virtualization(&mut self) -> DetectionState {
        DetectionState::Yes
    }

    fn keep_password(&mut self, password: &str) -> Result<String, PasswordFailure> {
        let path = r"C:\Temp\password.tmp".to_owned();
        self.passwords
            .lock()
            .unwrap()
            .push((path.clone(), password.to_owned()));
        Ok(path)
    }

    fn forget_password(&mut self, path: &str) {
        self.forgotten.lock().unwrap().push(path.to_owned());
    }
}

const DIRECTORY: &str = r"C:\Managed VMs\Windows - Barnen";

fn recovery_fixture(
    reported_uuid: &str,
    description: &str,
) -> (MemoryHost, RecoveryExecutor, ManagedVmInstallation) {
    let disk = format!(r"{DIRECTORY}\Barnen-system.vdi");
    let iso = format!(r"{DIRECTORY}\Windows.iso");
    let host = MemoryHost {
        files: vec![(disk.clone(), "managed disk fixture".to_owned())],
        images: vec![iso.clone()],
        ..MemoryHost::default()
    };
    let vm_info = format!(
        "name=\"Windows - Barnen\"\nUUID=\"{reported_uuid}\"\nVMState=\"poweroff\"\nostype=\"{description}\"\nfirmware=\"BIOS\"\nioapic=\"on\"\nxhci=\"on\"\ngraphicscontroller=\"vboxsvga\"\nstoragecontrollertype0=\"IntelAhci\"\nnic1=\"nat\"\naudio_out=\"on\"\n\"SATA-0-0\"=\"{disk}\"\n\"SATA-1-0\"=\"{iso}\"\n\"SATA-ImageUUID-1-0\"=\"iso-medium-uuid\"\n"
    );
    let executor = RecoveryExecutor {
        calls: Arc::new(Mutex::new(Vec::new())),
        vm_info,
        hostinfo: "Processor supports HW virtualization: yes\n".to_owned(),
        guest_os: None,
    };
    let journal = ManagedVmInstallation {
        windows_version: ManagedWindowsVersion::Windows10,
        virtual_box_os_type_id: "Win10-Recovery-ID".into(),
        computer_name: "MULTISEAT-BARNEN".into(),
        domain_name: String::new(),
        state: ManagedInstallState::Failed,
        guest_additions: GuestAdditionsInstallState::Failed,
        guest_additions_version: None,
        last_error: Some("Windows installation failed at 'verify-managed-guest-profile': representation mismatch".into()),
        observed: ManagedInstallationObservation::default(),
    };
    (host, executor, journal)
}

fn prepared_recovery_fixture(
    vm_state: &str,
) -> (MemoryHost, RecoveryExecutor, ManagedVmInstallation) {
    let (mut host, mut executor, mut journal) =
        recovery_fixture("managed-vm-uuid", "Windows 10 (64-bit)");
    let iso = format!(r"{DIRECTORY}\Windows.iso");
    let viso = format!(r"{DIRECTORY}\Unattended-managed-vm-uuid-aux-iso.viso");
    host.files.push((
        viso.clone(),
        format!("--import-iso-skip-eltorito '{iso}' '/autounattend.xml=managed'"),
    ));
    for name in ["autounattend.xml", "VBOXPOST.CMD"] {
        host.files.push((
            format!(r"{DIRECTORY}\Unattended-managed-vm-uuid-{name}"),
            "managed fixture".to_owned(),
        ));
    }
    executor.vm_info = executor
        .vm_info
        .replace("VMState=\"poweroff\"", &format!("VMState=\"{vm_state}\""))
        .replace(
            &format!("\"SATA-1-0\"=\"{iso}\""),
            &format!("\"SATA-1-0\"=\"{viso}\""),
        );
    journal.last_error =
        Some("VirtualBox start failed: VERR_NEM_NOT_AVAILABLE; VERR_SVM_DISABLED".into());
    (host, executor, journal)
}

#[test]
fn command_preserves_paths_with_spaces_and_uses_password_file() {
    let config = config();
    let (arguments, sensitive) = unattended_arguments(
        "vm-id",
        r"C:\Install media\Windows 11.iso",
        r"C:\Temp files\password.txt",
        Some(r"C:\Program Files\Oracle\VirtualBox\VBoxGuestAdditions.iso"),
        &config,
    )
    .unwrap();
    assert!(arguments.contains(&r"--iso=C:\Install media\Windows 11.iso".to_owned()));
    assert!(arguments.contains(&r"--user-password-file=C:\Temp files\password.txt".to_owned()));
    assert!(arguments
        .iter()
        .all(|argument| !argument.contains(&config.password)));
    assert!(arguments
        .iter()
        .any(|argument| argument == "--install-additions"));
    assert!(arguments
        .iter()
        .any(|argument| argument == "--hostname=barnen-pc.multiseat.local"));
    assert!(sensitive.is_empty());
}

#[test]
fn optional_product_key_is_omitted_or_marked_sensitive() {
    let mut config = config();
    let (arguments, _) =
        unattended_arguments("vm", "w.iso", "p", None, &config).unwrap();
    assert!(arguments
        .iter()
        .all(|argument| !argument.starts_with("--key=")));
    config.product_key = Some("AAAAA-BBBBB-CCCCC-DDDDD-EEEEE".to_owned());
    let (arguments, sensitive) =
        unattended_arguments("vm", "w.iso", "p", None, &config).unwrap();
    let key_argument = "--key=AAAAA-BBBBB-CCCCC-DDDDD-EEEEE".to_owned();
    assert!(arguments.contains(&key_argument));
    assert_eq!(sensitive, vec![key_argument]);
    assert!(!config.redacted_text().contains("AAAAA-BBBBB"));
    assert!(!config.redacted_text().contains("s3cret"));
}

#[test]
fn unattended_install_uses_and_records_selected_windows_profile() {
    let calls = Arc::new(Mutex::new(Vec::new()));
    let mut host = MemoryHost::default();
    let mut service =
        VirtualBoxRuntimeService::new(Box::new(RecordingInstallExecutor(calls.clone())));
    let mut install_config = config();
    install_config.install_guest_additions = false;
    let selected = profile(
        ManagedWindowsVersion::Windows10,
        "Win10-Test-ID",
    );
    let journal = service
        .prepare_unattended_install(
            &mut host,
            "vm-id",
            r"C:\Install media\Windows 10.iso",
            &install_config,
            &selected,
            None,
        )
        .unwrap();
    assert_eq!(
        journal.windows_version,
        ManagedWindowsVersion::Windows10
    );
    assert_eq!(journal.virtual_box_os_type_id, "Win10-Test-ID");
    assert!(calls.lock().unwrap().iter().any(|arguments| {
        arguments.first().is_some_and(|value| value == "unattended")
            && arguments
                .iter()
                .any(|value| value == r"--iso=C:\Install media\Windows 10.iso")
    }));
}

#[test]
fn validates_account_and_locale_fields() {
    assert!(validate_windows_install_config(&config()).is_ok());
    let mut invalid = config();
    invalid.username = "bad/name".to_owned();
    assert!(validate_windows_install_config(&invalid).is_err());
    let mut invalid = config();
    invalid.locale = "Swedish".to_owned();
    assert!(validate_windows_install_config(&invalid).is_err());
}

#[test]
fn builds_and_validates_virtualbox_fqdn_separately_from_computer_name() {
    assert_eq!(
        unattended_hostname("BARNEN-PC", "multiseat.local").unwrap(),
        "barnen-pc.multiseat.local"
    );
    assert!(unattended_hostname("MULTISEAT-BARNEN", "multiseat.local").is_err());
    assert!(unattended_hostname("FIFTEEN-CHAR-PC", "multiseat.local").is_ok());
    assert_eq!("FIFTEEN-CHAR-PC".len(), 15);
    assert!(unattended_hostname("BARNEN-PC", "").is_err());
    assert!(unattended_hostname("BARNEN_PC", "multiseat.local").is_err());
    assert!(unattended_hostname("BARNEN-PC", "bad..local").is_err());
}

#[test]
fn migrates_only_known_legacy_managed_computer_name() {
    let mut legacy = config();
    legacy.computer_name = "MULTISEAT-BARNEN".into();
    legacy.domain_name.clear();
    assert!(apply_legacy_managed_install_defaults(&mut legacy));
    assert_eq!(legacy.computer_name, "BARNEN-PC");
    assert_eq!(legacy.domain_name, "multiseat.local");
    assert_eq!(
        unattended_hostname(&legacy.computer_name, &legacy.domain_name).unwrap(),
        "barnen-pc.multiseat.local"
    );

    let mut arbitrary_invalid = config();
    arbitrary_invalid.computer_name = "USER-ENTERED-NAME-TOO-LONG".into();
    assert!(!apply_legacy_managed_install_defaults(
        &mut arbitrary_invalid
    ));
    assert!(validate_windows_install_config(&arbitrary_invalid).is_err());
}

#[test]
fn missing_guest_properties_never_claim_guest_additions_or_ready() {
    let mut service = VirtualBoxRuntimeService::new(Box::new(PropertyExecutor));
    let previous = ManagedVmInstallation {
        windows_version: ManagedWindowsVersion::Windows11,
        virtual_box_os_type_id: "Windows11_64".into(),
        computer_name: "BARNEN-PC".into(),
        domain_name: "multiseat.local".into(),
        state: ManagedInstallState::InstallingWindows,
        guest_additions: GuestAdditionsInstallState::Installing,
        guest_additions_version: None,
        last_error: None,
        observed: ManagedInstallationObservation {
            windows: WindowsInstallationStatus::Installing,
            managed: ManagedVmStatus::Installing,
            ..ManagedInstallationObservation::default()
        },
    };
    let snapshot = service
        .inspect_managed_installation("vm-id", &previous)
        .unwrap();
    assert_ne!(snapshot.installation.state, ManagedInstallState::Ready);
    assert_ne!(
        snapshot.installation.guest_additions,
        GuestAdditionsInstallState::Installed
    );
}

#[test]
fn waitrunlevel_exit_zero_with_empty_stdout_is_success() {
    let mut service = VirtualBoxRuntimeService::new(Box::new(ExitCodeOnlyExecutor));
    let probes = service.probe_guest_runlevels("vm-id", 5_000);
    assert_eq!(probes.len(), 3);
    assert!(probes.iter().all(|probe| probe.success));
    assert!(probes.iter().all(|probe| probe.exit_code == Some(0)));
    assert!(probes.iter().all(|probe| probe.stdout.is_empty()));
}

#[test]
fn desktop_without_version_means_windows_installed_and_operational() {
    let mut service = VirtualBoxRuntimeService::new(Box::new(RunlevelExecutor {
        highest: GuestRunLevel::Desktop,
        properties: String::new(),
    }));
    let snapshot = service
        .inspect_managed_installation("vm-id", &installing_journal())
        .unwrap();
    assert_eq!(
        snapshot.installation.observed.windows,
        WindowsInstallationStatus::Installed
    );
    assert_eq!(
        snapshot.installation.observed.guest_additions,
        GuestAdditionsStatus::Communicating
    );
    assert_eq!(
        snapshot.installation.observed.managed,
        ManagedVmStatus::Ready
    );
    assert!(snapshot.installation.guest_additions_version.is_none());
    assert_eq!(snapshot.installation.state, ManagedInstallState::Ready);
    assert!(snapshot.monitoring_complete);
}

#[test]
fn userland_advances_stale_windows_installation_without_reinstalling() {
    let mut service = VirtualBoxRuntimeService::new(Box::new(RunlevelExecutor {
        highest: GuestRunLevel::Userland,
        properties: String::new(),
    }));
    let snapshot = service
        .inspect_managed_installation("vm-id", &installing_journal())
        .unwrap();
    assert_ne!(
        snapshot.installation.state,
        ManagedInstallState::InstallingWindows
    );
    assert_eq!(
        snapshot.installation.observed.windows,
        WindowsInstallationStatus::Installed
    );
    assert!(snapshot
        .installation
        .observed
        .evidence
        .reconciliation_event
        .as_deref()
        .is_some_and(|event| event.contains("Userland runlevel reached")));
}

#[test]
fn guest_additions_version_is_optional_but_recorded_when_known() {
    let properties = "/VirtualBox/GuestAdd/HostVerLastChecked = '7.2.14' @ 1\n/VirtualBox/GuestAdd/Version = '7.2.14' @ 1\n";
    let mut service = VirtualBoxRuntimeService::new(Box::new(RunlevelExecutor {
        highest: GuestRunLevel::Unknown,
        properties: properties.to_owned(),
    }));
    let snapshot = service
        .inspect_managed_installation("vm-id", &installing_journal())
        .unwrap();
    assert_eq!(
        snapshot.installation.observed.guest_additions,
        GuestAdditionsStatus::InstalledVersionKnown
    );
    assert_eq!(
        snapshot.installation.guest_additions_version.as_deref(),
        Some("7.2.14")
    );
}

#[test]
fn host_version_only_is_partial_evidence_and_never_ready() {
    let properties = "/VirtualBox/GuestAdd/HostVerLastChecked = '7.2.14' @ 1\n/VirtualBox/VMInfo/ResetCounter = '2' @ 1\n";
    let mut service = VirtualBoxRuntimeService::new(Box::new(RunlevelExecutor {
        highest: GuestRunLevel::Unknown,
        properties: properties.to_owned(),
    }));
    let mut journal = installing_journal();
    journal.state = ManagedInstallState::Rebooting;
    journal.observed.windows = WindowsInstallationStatus::Installed;
    let snapshot = service
        .inspect_managed_installation("vm-id", &journal)
        .unwrap();
    assert_eq!(
        snapshot.installation.observed.managed,
        ManagedVmStatus::Degraded
    );
    assert_eq!(
        snapshot.installation.observed.guest_additions,
        GuestAdditionsStatus::PartialEvidence
    );
    assert_eq!(
        snapshot.installation.state,
        ManagedInstallState::WaitingForGuest
    );
    assert!(!snapshot.monitoring_complete);
    assert_eq!(
        snapshot
            .installation
            .observed
            .evidence
            .guest_add_host_version_last_checked
            .as_deref(),
        Some("7.2.14")
    );
    assert_eq!(
        snapshot.installation.observed.evidence.reset_counter,
        Some(2)
    );
}

#[test]
fn saved_vm_preserves_installed_windows_but_reports_saved_readiness() {
    let mut journal = installing_journal();
    journal.observed.windows = WindowsInstallationStatus::Installed;
    let observation = reconcile_installation_observation(
        &journal,
        "saved",
        vec![GuestRunLevelProbe {
            level: GuestRunLevel::System,
            success: false,
            exit_code: Some(1),
            ..GuestRunLevelProbe::default()
        }],
        &TextMap::new(),
        None,
    );
    assert_eq!(
        observation.observed.windows,
        WindowsInstallationStatus::Installed
    );
    assert_eq!(observation.observed.managed, ManagedVmStatus::Saved);
    assert_eq!(observation.state, ManagedInstallState::WaitingForGuest);
}

#[test]
fn command_errors_redact_product_keys() {
    let mut service = VirtualBoxRuntimeService::new(Box::new(FailingExecutor));
    let key = "--key=AAAAA-BBBBB-CCCCC-DDDDD-EEEEE";
    let error = service
        .checked_redacted(
            vec!["unattended".to_owned(), "install".to_owned(), key.to_owned()],
            &vec![key.to_owned()],
        )
        .unwrap_err();
    assert!(!error.contains("AAAAA-BBBBB"));
    assert!(error.contains("<redacted>"));
}

#[test]
fn unattended_failure_is_structured_and_secret_free() {
    let mut host = MemoryHost::default();
    let mut service = VirtualBoxRuntimeService::new(Box::new(UnattendedFailingExecutor));
    let mut config = config();
    config.install_guest_additions = false;
    config.product_key = Some("AAAAA-BBBBB-CCCCC-DDDDD-EEEEE".to_owned());
    let failure = service
        .prepare_unattended_install(
            &mut host,
            "vm-id",
            "Windows 10.iso",
            &config,
            &profile(
                ManagedWindowsVersion::Windows10,
                "Win10-Test-ID",
            ),
            None,
        )
        .unwrap_err();
    assert_eq!(
        failure.failed_step,
        "prepare-and-start-unattended-installation"
    );
    let report = failure.to_text();
    assert!(report.contains("Computer name: BARNEN-PC"));
    assert!(report.contains("DNS domain: multiseat.local"));
    assert!(report.contains("generated hostname: barnen-pc.multiseat.local"));
    assert!(!report.contains("s3cret"));
    assert!(!report.contains("AAAAA-BBBBB"));
}

#[test]
fn failed_profile_verification_can_recover_existing_managed_vm() {
    let (mut host, executor, journal) =
        recovery_fixture("managed-vm-uuid", "Windows 10 (64-bit)");
    let mut service = VirtualBoxRuntimeService::new(Box::new(executor));
    let status = service.managed_vm_recovery_status(&mut host, "managed-vm-uuid", true, &journal);
    assert!(status.can_resume, "{:?}", status.reason);
    assert_eq!(status.virtual_box_os_type_id, "Win10-Recovery-ID");
    assert_eq!(
        status.virtual_box_os_description.as_deref(),
        Some("Windows 10 (64-bit)")
    );
    assert!(status.credentials_required);
}

#[test]
fn incomplete_hostname_failure_can_recover_existing_managed_vm() {
    let (mut host, executor, mut journal) =
        recovery_fixture("managed-vm-uuid", "Windows 10 (64-bit)");
    journal.last_error = Some(
        "Windows installation failed at 'prepare-and-start-unattended-installation': VBoxManage error: Incomplete hostname 'MULTISEAT-BARNEN'"
            .into(),
    );
    let mut service = VirtualBoxRuntimeService::new(Box::new(executor));
    let status = service.managed_vm_recovery_status(&mut host, "managed-vm-uuid", true, &journal);
    assert!(status.can_resume, "{:?}", status.reason);
    assert_eq!(status.suggested_computer_name, "BARNEN-PC");
    assert_eq!(status.suggested_domain_name, "multiseat.local");
    assert_eq!(status.suggested_hostname, "barnen-pc.multiseat.local");
}

#[test]
fn virtualization_start_failures_are_state_recoverable_without_error_whitelisting() {
    for failure in [
        "VERR_SVM_DISABLED",
        "VERR_NEM_NOT_AVAILABLE",
        "an arbitrary pre-boot failure from a future VirtualBox release",
    ] {
        let (mut host, executor, mut journal) =
            recovery_fixture("managed-vm-uuid", "Windows 10 (64-bit)");
        journal.last_error = Some(failure.to_owned());
        let mut service = VirtualBoxRuntimeService::new(Box::new(executor));
        let status = service.managed_vm_recovery_status(&mut host, "managed-vm-uuid", true, &journal);
        assert_eq!(
            status.classification,
            ManagedVmRecoveryClassification::RecoverablePreBoot
        );
        assert!(status.can_resume, "{failure}: {:?}", status.reason);
    }
}

#[test]
fn recovery_is_recognized_but_blocked_when_virtualbox_execution_is_unavailable() {
    let (mut host, mut executor, journal) =
        recovery_fixture("managed-vm-uuid", "Windows 10 (64-bit)");
    executor.hostinfo = "Processor supports HW virtualization: no\n".to_owned();
    let mut service = VirtualBoxRuntimeService::new(Box::new(executor));
    let status = service.managed_vm_recovery_status(&mut host, "managed-vm-uuid", true, &journal);
    assert_eq!(
        status.classification,
        ManagedVmRecoveryClassification::RecoverablePreBoot
    );
    assert!(!status.can_resume);
    assert_eq!(
        status.virtual_box_execution,
        DetectionState::No
    );
}

#[test]
fn firmware_preflight_blocks_then_allows_the_same_recoverable_state() {
    let classification = ManagedVmRecoveryClassification::RecoverablePreparedInstall;
    assert!(!recovery_can_resume(
        classification,
        DetectionState::No,
        DetectionState::Yes,
    ));
    assert!(recovery_can_resume(
        classification,
        DetectionState::Yes,
        DetectionState::Yes,
    ));
}

#[test]
fn prepared_install_reuses_media_and_system_disk_without_duplicate_preparation() {
    let (mut host, executor, journal) = prepared_recovery_fixture("aborted");
    let calls = executor.calls.clone();
    let mut service = VirtualBoxRuntimeService::new(Box::new(executor));
    let status = service.managed_vm_recovery_status(&mut host, "managed-vm-uuid", true, &journal);
    assert_eq!(
        status.classification,
        ManagedVmRecoveryClassification::RecoverablePreparedInstall
    );
    assert!(status.unattended_preparation_present);
    assert!(!status.credentials_required);
    assert!(status
        .system_disk_path
        .as_deref()
        .is_some_and(|path| path.ends_with("Barnen-system.vdi")));

    let mut install_config = config();
    install_config.password.clear();
    install_config.install_guest_additions = false;
    service
        .resume_managed_unattended_install(
            &mut host,
            "managed-vm-uuid",
            true,
            &journal,
            &install_config,
            None,
        )
        .unwrap();
    let calls = calls.lock().unwrap();
    assert!(calls
        .iter()
        .any(|arguments| arguments == &["startvm", "managed-vm-uuid", "--type", "gui"]));
    assert!(!calls.iter().any(|arguments| arguments
        .first()
        .is_some_and(|value| value == "unattended"
            || value == "createvm"
            || value == "storageattach")));
}

#[test]
fn completed_windows_guest_is_not_treated_as_fresh_retry() {
    let (mut host, mut executor, journal) =
        recovery_fixture("managed-vm-uuid", "Windows 10 (64-bit)");
    executor.guest_os = Some("Microsoft Windows 10".to_owned());
    let mut service = VirtualBoxRuntimeService::new(Box::new(executor));
    let status = service.managed_vm_recovery_status(&mut host, "managed-vm-uuid", true, &journal);
    assert!(!status.can_resume);
    assert_eq!(
        status.classification,
        ManagedVmRecoveryClassification::Unrecoverable
    );
}

#[test]
fn recovery_rejects_wrong_profile_uuid_and_unmanaged_vm() {
    let (mut host, executor, journal) =
        recovery_fixture("managed-vm-uuid", "Windows 11 (64-bit)");
    let mut service = VirtualBoxRuntimeService::new(Box::new(executor));
    assert!(
        !service
            .managed_vm_recovery_status(&mut host, "managed-vm-uuid", true, &journal)
            .can_resume
    );

    let (mut host, executor, journal) =
        recovery_fixture("different-vm-uuid", "Windows 10 (64-bit)");
    let mut service = VirtualBoxRuntimeService::new(Box::new(executor));
    assert!(
        !service
            .managed_vm_recovery_status(&mut host, "managed-vm-uuid", true, &journal)
            .can_resume
    );

    let (mut host, executor, journal) =
        recovery_fixture("managed-vm-uuid", "Windows 10 (64-bit)");
    let mut service = VirtualBoxRuntimeService::new(Box::new(executor));
    assert!(
        !service
            .managed_vm_recovery_status(&mut host, "managed-vm-uuid", false, &journal)
            .can_resume
    );
}

#[test]
fn recovery_reuses_vm_without_creation_and_requires_credentials_again() {
    let (mut host, executor, journal) =
        recovery_fixture("managed-vm-uuid", "Windows 10 (64-bit)");
    let calls = executor.calls.clone();
    let mut service = VirtualBoxRuntimeService::new(Box::new(executor));
    let mut missing_credentials = config();
    missing_credentials.password.clear();
    missing_credentials.install_guest_additions = false;
    let failure = service
        .resume_managed_unattended_install(
            &mut host,
            "managed-vm-uuid",
            true,
            &journal,
            &missing_credentials,
            None,
        )
        .unwrap_err();
    assert_eq!(failure.failed_step, "validate-installation");

    let mut install_config = config();
    install_config.install_guest_additions = false;
    let resumed = service
        .resume_managed_unattended_install(
            &mut host,
            "managed-vm-uuid",
            true,
            &journal,
            &install_config,
            None,
        )
        .unwrap();
    assert_eq!(resumed.state, ManagedInstallState::InstallingWindows);
    let calls = calls.lock().unwrap();
    assert!(calls
        .iter()
        .any(|arguments| arguments.first().is_some_and(|value| value == "unattended")));
    assert!(!calls
        .iter()
        .any(|arguments| arguments.first().is_some_and(|value| value == "createvm")));
}

#[test]
fn a_password_is_forgotten_whatever_came_of_it() {
    let mut config = config();
    config.install_guest_additions = false;
    let profile = profile(ManagedWindowsVersion::Windows10, "Win10-Test-ID");
    let mut host = MemoryHost::default();
    let mut failing = VirtualBoxRuntimeService::new(Box::new(UnattendedFailingExecutor));
    failing
        .prepare_unattended_install(&mut host, "vm-id", "a.iso", &config, &profile, None)
        .unwrap_err();
    assert_eq!(host.passwords.lock().unwrap().len(), 1);
    assert_eq!(host.passwords.lock().unwrap()[0].1, config.password);
    assert_eq!(
        *host.forgotten.lock().unwrap(),
        [r"C:\Temp\password.tmp".to_owned()]
    );
}

#[test]
fn no_password_is_kept_for_a_machine_of_another_profile() {
    let mut config = config();
    config.install_guest_additions = false;
    let mut profile = profile(ManagedWindowsVersion::Windows10, "Win10-Test-ID");
    profile.guest_os_description = "Windows 95".into();
    let mut host = MemoryHost::default();
    let mut service = VirtualBoxRuntimeService::new(Box::new(UnattendedFailingExecutor));
    let failure = service
        .prepare_unattended_install(&mut host, "vm-id", "a.iso", &config, &profile, None)
        .unwrap_err();
    assert_eq!(failure.failed_step, "verify-managed-guest-profile");
    assert!(host.passwords.lock().unwrap().is_empty());
    config.install_guest_additions = true;
    let failure = service
        .prepare_unattended_install(&mut host, "vm-id", "a.iso", &config, &profile, None)
        .unwrap_err();
    assert_eq!(failure.failed_step, "locate-guest-additions");
}

#[test]
fn an_unmanaged_machine_is_not_even_asked_about() {
    let (mut host, executor, journal) =
        recovery_fixture("managed-vm-uuid", "Windows 10 (64-bit)");
    let calls = executor.calls.clone();
    let mut service = VirtualBoxRuntimeService::new(Box::new(executor));
    let failure = service
        .resume_managed_unattended_install(
            &mut host,
            "managed-vm-uuid",
            false,
            &journal,
            &config(),
            None,
        )
        .unwrap_err();
    assert_eq!(failure.failed_step, "validate-managed-vm-recovery");
    assert_eq!(
        failure.message,
        "unrelated VM is not marked as managed by MultiSeat Lite"
    );
    assert!(calls.lock().unwrap().is_empty());
    assert!(host.passwords.lock().unwrap().is_empty());
}

#[test]
fn what_is_known_of_a_guest_is_kept() {
    let mut journal = installing_journal();
    journal.observed.evidence.guest_os_product = Some("Windows 10".into());
    journal.observed.evidence.guest_additions_version = Some("7.2.14".into());
    journal.observed.evidence.guest_add_host_version_last_checked = Some("7.2.12".into());
    journal.observed.evidence.reset_counter = Some(3);
    let observation =
        reconcile_installation_observation(&journal, "running", vec![], &TextMap::new(), None);
    let evidence = &observation.observed.evidence;
    assert_eq!(evidence.guest_os_product.as_deref(), Some("Windows 10"));
    assert_eq!(evidence.guest_additions_version.as_deref(), Some("7.2.14"));
    assert_eq!(
        evidence.guest_add_host_version_last_checked.as_deref(),
        Some("7.2.12")
    );
    assert_eq!(evidence.reset_counter, Some(3));
}
