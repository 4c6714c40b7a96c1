use multiseat_virtualization::devices::{InputCapabilities, PhysicalInputDevice};
use multiseat_virtualization::keyboard_routing::{
    normalize_raw_keyboard_event, GuestKeyboardSink,
};
use multiseat_virtualization::paths::{extension_of, file_name_of, join_path, parent_of};
use multiseat_virtualization::seats::{
    ApplicationConfig, DeviceBackendSafetyRecord, DeviceRoutingBackend, ManagedWindowsVersion,
    PhysicalDeviceId, SeatId, UsbPassthroughSafety, VirtualBoxSeatConfig,
};
use multiseat_virtualization::virtualization::virtualbox::creation::{
    creation_proposal, validate_iso, validate_resources, ISO_PRIMARY_VOLUME_DESCRIPTOR,
};
use multiseat_virtualization::virtualization::virtualbox::install_config::{
    migrate_managed_hostname_parts, unattended_arguments, validate_computer_name,
};
use multiseat_virtualization::virtualization::virtualbox::machine_info::parse_vm_list_line;
use multiseat_virtualization::virtualization::virtualbox::recovery::{
    imported_iso_path, parse_host_virtualization_support, previous_problem, recovery_can_resume,
};
use multiseat_virtualization::virtualization::virtualbox::runtime::InputKind;
use multiseat_virtualization::virtualization::virtualbox::seat_rules::{
    acceptable_uuid, configured_vm_id, ensure_usb_passthrough_allowed, find_physical,
    managed_backend, require_running, usb_health_from_vbox_state, validate_activation,
};
use multiseat_virtualization::virtualization::virtualbox::{
    host_windows_install_defaults, parse_machine_readable, unattended_hostname, validate_vm,
    validate_windows_install_config, InstallationFailure, IsoInspection, IsoSignature,
    ManagedVmRecoveryClassification, UnavailableExecutor, UsbRuntimeHealth, VBoxManageExecutor,
    VBoxOutput, VirtualBoxGuestKeyboardSink, VirtualBoxRuntimeService, VirtualMachine,
    VmCreationFailure, VmCreationLogEntry, VmCreationRequest, WindowsInstallConfig,
};
use multiseat_virtualization::virtualization::{
    DetectionState, UsbCorrelation, UsbCorrelationState,
};
use std::sync::{Arc, Mutex};

#[derive(Clone, Default)]
struct ScriptedExecutor {
    calls: Arc<Mutex<Vec<Vec<String>>>>,
    failing: Arc<Mutex<Vec<String>>>,
}

impl VBoxManageExecutor for ScriptedExecutor {
    fn execute(&self, arguments: &[String]) -> Result<VBoxOutput, String> {
        self.calls.lock().unwrap().push(arguments.to_vec());
        let failing = self
            .failing
            .lock()
            .unwrap()
            .contains(arguments.last().unwrap());
        Ok(VBoxOutput {
            success: !failing,
            exit_code: Some(if failing { 2 } else { 0 }),
            stdout: String::new(),
            stderr: " key --key=AAAAA-BBBBB is not known\n".into(),
        })
    }

    fn wait(&self, _milliseconds: u64) {}
}

fn texts(values: &[&str]) -> Vec<String> {
    values.iter().map(|value| (*value).to_owned()).collect()
}

#[test]
fn a_failed_command_is_quoted_without_its_secrets() {
    let executor = ScriptedExecutor::default();
    executor.failing.lock().unwrap().push("--key=AAAAA-BBBBB".into());
    let mut service = VirtualBoxRuntimeService::new(Box::new(executor.clone()));
    let error = service
        .checked_redacted(
            texts(&["unattended", "a \"b\"\n", "--key=AAAAA-BBBBB"]),
            &texts(&["--key=AAAAA-BBBBB"]),
        )
        .unwrap_err();
    assert_eq!(
        error,
        "VBoxManage [\"unattended\", \"a \\\"b\\\"\\n\", \"<redacted>\"] failed with exit code Some(2): key <redacted> is not known"
    );
    assert_eq!(executor.calls.lock().unwrap()[0][2], "--key=AAAAA-BBBBB");
}

#[test]
fn without_vboxmanage_every_command_fails_with_the_reason() {
    let mut service = VirtualBoxRuntimeService::new(Box::new(UnavailableExecutor(
        "VBoxManage.exe was not found".into(),
    )));
    assert_eq!(
        service.list_vms().unwrap_err(),
        "VBoxManage.exe was not found"
    );
    assert_eq!(
        service.inspect_vm("vm-1").unwrap_err(),
        "VBoxManage.exe was not found"
    );
}

#[test]
fn keys_that_cannot_be_released_stay_down() {
    let executor = ScriptedExecutor::default();
    let mut sink = VirtualBoxGuestKeyboardSink::new("vm".into(), Box::new(executor.clone()));
    let event =
        |code: u16| normalize_raw_keyboard_event("kbd".into(), "raw".into(), code, 0, 0);
    sink.key_down(&event(0x30)).unwrap();
    sink.key_down(&event(0x1e)).unwrap();
    sink.key_down(&event(0x2e)).unwrap();
    executor.failing.lock().unwrap().push("9e".into());
    assert_eq!(
        sink.release_all().unwrap_err(),
        "VBoxManage keyboardputscancode failed (exit Some(2)): key --key=AAAAA-BBBBB is not known"
    );
    executor.failing.lock().unwrap().clear();
    executor.calls.lock().unwrap().clear();
    sink.release_all().unwrap();
    sink.release_all().unwrap();
    let calls = executor.calls.lock().unwrap();
    assert_eq!(calls.len(), 1);
    assert_eq!(calls[0].last().unwrap(), "9e");
}

#[test]
fn a_key_that_does_not_reach_the_guest_is_not_held() {
    let executor = ScriptedExecutor::default();
    let mut sink = VirtualBoxGuestKeyboardSink::new("vm".into(), Box::new(executor.clone()));
    executor.failing.lock().unwrap().push("1e".into());
    let down = normalize_raw_keyboard_event("kbd".into(), "raw".into(), 0x1e, 0, 0);
    assert!(sink.key_down(&down).is_err());
    executor.calls.lock().unwrap().clear();
    sink.release_all().unwrap();
    assert!(executor.calls.lock().unwrap().is_empty());
}

fn device(id: &str, keyboard: bool, mouse: bool) -> PhysicalInputDevice {
    PhysicalInputDevice {
        id: id.into(),
        container_id: None,
        friendly_name: None,
        manufacturer: None,
        vendor_id: None,
        product_id: None,
        usb_parent_instance_id: None,
        serial_number: None,
        capabilities: InputCapabilities { keyboard, mouse },
        logical_nodes: Vec::new(),
        raw_input_paths: Vec::new(),
        present: true,
    }
}

fn devices() -> Vec<PhysicalInputDevice> {
    vec![
        device("host-keyboard", true, false),
        device("host-mouse", false, true),
        device("seat-keyboard", true, false),
        device("seat-mouse", false, true),
    ]
}

fn seat() -> SeatId {
    SeatId("seat-2".into())
}

fn configuration() -> ApplicationConfig {
    let mut config = ApplicationConfig::default();
    config.seats[0].devices.keyboard = Some(PhysicalDeviceId("host-keyboard".into()));
    config.seats[0].devices.mouse = Some(PhysicalDeviceId("host-mouse".into()));
    config.seats[1].devices.keyboard = Some(PhysicalDeviceId("seat-keyboard".into()));
    config.seats[1].devices.mouse = Some(PhysicalDeviceId("seat-mouse".into()));
    config.backends.virtual_box.seats.insert(
        "seat-2",
        VirtualBoxSeatConfig {
            vm_id: "vm-1".into(),
            managed_by_multiseat: true,
            ..Default::default()
        },
    );
    config
}

fn refusal(config: &ApplicationConfig, devices: &[PhysicalInputDevice]) -> String {
    validate_activation(&seat(), config, devices).err().unwrap()
}

#[test]
fn a_seat_starts_only_with_devices_of_its_own() {
    let inputs = devices();
    let config = configuration();
    let found = validate_activation(&seat(), &config, &inputs).ok().unwrap();
    assert_eq!(found.keyboard.id, "seat-keyboard");
    assert_eq!(found.mouse.id, "seat-mouse");
    assert_eq!(
        validate_activation(&SeatId("seat-9".into()), &config, &inputs)
            .err()
            .unwrap(),
        "unknown seat 'seat-9'"
    );
    assert_eq!(
        validate_activation(&config.seats[0].id, &config, &inputs)
            .err()
            .unwrap(),
        "the primary host seat cannot be started as the VirtualBox second seat"
    );
    let mut shared = configuration();
    shared.seats[0].devices.mouse = Some(PhysicalDeviceId("SEAT-KEYBOARD".into()));
    assert_eq!(
        refusal(&shared, &inputs),
        "a Barnen input device is also assigned to Dennis"
    );
    let mut bare = configuration();
    bare.seats[0].devices.mouse = None;
    assert_eq!(
        refusal(&bare, &inputs),
        "Dennis must retain a configured mouse"
    );
    bare.seats[0].devices.keyboard = None;
    assert_eq!(
        refusal(&bare, &inputs),
        "Dennis must retain a configured keyboard"
    );
    bare.seats[1].devices.mouse = None;
    assert_eq!(refusal(&bare, &inputs), "Barnen has no configured mouse");
    bare.seats[1].devices.keyboard = None;
    assert_eq!(refusal(&bare, &inputs), "Barnen has no configured keyboard");
    assert_eq!(
        refusal(&config, &inputs[..3]),
        "Barnen mouse 'seat-mouse' is not present"
    );
    assert_eq!(
        refusal(&config, &inputs[..2]),
        "Barnen keyboard 'seat-keyboard' is not present"
    );
    let mut unset = ApplicationConfig::default();
    unset.seats[1].devices.keyboard = Some(PhysicalDeviceId("seat-keyboard".into()));
    assert_eq!(
        refusal(&unset, &inputs),
        "seat 'seat-2' has no VirtualBox VM selected"
    );
}

#[test]
fn a_device_must_have_the_capability_that_it_is_used_for() {
    let inputs = devices();
    assert!(find_physical(&inputs, "SEAT-MOUSE", InputKind::Mouse).is_some());
    assert!(find_physical(&inputs, "seat-mouse", InputKind::Keyboard).is_none());
}

#[test]
fn only_managed_machines_are_isolated() {
    let mut config = configuration();
    assert_eq!(configured_vm_id(&seat(), &config).unwrap(), "vm-1");
    assert_eq!(managed_backend(&seat(), &config).unwrap(), "vm-1");
    config.backends.virtual_box.seats.insert(
        "seat-2",
        VirtualBoxSeatConfig {
            vm_id: "vm-1".into(),
            managed_by_multiseat: false,
            ..Default::default()
        },
    );
    assert_eq!(
        managed_backend(&seat(), &config).unwrap_err(),
        "input isolation is available only for a MultiSeat Lite managed VM"
    );
}

#[test]
fn a_keyboard_passes_only_where_it_was_cleared() {
    let mut config = configuration();
    let keyboard = device("seat-keyboard", true, false);
    let mouse = device("seat-mouse", false, true);
    assert!(ensure_usb_passthrough_allowed(&config, &mouse, false).is_ok());
    assert_eq!(
        ensure_usb_passthrough_allowed(&config, &keyboard, true).unwrap_err(),
        "keyboard 'seat-keyboard' is not explicitly cleared for VirtualBox USB passthrough; use native keyboard routing"
    );
    let mut record = |id: &str, safety: UsbPassthroughSafety| {
        config
            .record_device_safety(DeviceBackendSafetyRecord {
                physical_device_id: PhysicalDeviceId(id.into()),
                vendor_id: None,
                product_id: None,
                backend: DeviceRoutingBackend::VirtualBoxUsbPassthrough,
                safety,
                reason: "tested".into(),
                observed: None,
            })
            .unwrap();
    };
    record("seat-keyboard", UsbPassthroughSafety::Supported);
    record("seat-mouse", UsbPassthroughSafety::KnownProblematic);
    assert!(ensure_usb_passthrough_allowed(&config, &keyboard, true).is_ok());
    assert_eq!(
        ensure_usb_passthrough_allowed(&config, &mouse, false).unwrap_err(),
        "VirtualBox USB passthrough is disabled for 'seat-mouse': tested. Automatic retry is disabled"
    );
}

#[test]
fn only_a_safe_correlation_has_an_identifier() {
    let mut mapping = UsbCorrelation {
        physical_device_id: "kbd".into(),
        container_id: None,
        state: UsbCorrelationState::Ambiguous,
        matched_uuid: Some("usb-1".into()),
        candidate_uuids: Vec::new(),
        reason: "two of them".into(),
    };
    assert_eq!(
        acceptable_uuid(&mapping, "keyboard").unwrap_err(),
        "keyboard could not be resolved safely: Ambiguous: two of them"
    );
    mapping.state = UsbCorrelationState::Exact;
    assert_eq!(acceptable_uuid(&mapping, "keyboard").unwrap(), "usb-1");
    mapping.matched_uuid = None;
    assert_eq!(
        acceptable_uuid(&mapping, "keyboard").unwrap_err(),
        "keyboard mapping has no runtime UUID"
    );
}

#[test]
fn states_of_usb_devices_are_read_without_regard_to_case() {
    assert_eq!(
        usb_health_from_vbox_state(Some("CAPTURED")),
        UsbRuntimeHealth::Captured
    );
    assert_eq!(
        usb_health_from_vbox_state(Some("Held")),
        UsbRuntimeHealth::Captured
    );
    assert_eq!(
        usb_health_from_vbox_state(Some("busy")),
        UsbRuntimeHealth::HostBusy
    );
    assert_eq!(
        usb_health_from_vbox_state(Some("Unavailable")),
        UsbRuntimeHealth::Released
    );
    assert_eq!(
        usb_health_from_vbox_state(Some("other")),
        UsbRuntimeHealth::Failed
    );
    assert_eq!(usb_health_from_vbox_state(None), UsbRuntimeHealth::Failed);
}

fn machine() -> VirtualMachine {
    VirtualMachine {
        name: "Windows - Barnen".into(),
        uuid: "vm-1".into(),
        state: "RUNNING".into(),
        guest_os_description: Some("Microsoft WINDOWS 11".into()),
        usb_xhci_enabled: Some(true),
        session_pid: None,
    }
}

#[test]
fn a_machine_must_run_windows_with_a_fast_usb_controller() {
    let mut vm = machine();
    assert!(require_running(&vm).is_ok());
    assert!(validate_vm(&vm).is_empty());
    vm.state = "saved".into();
    vm.guest_os_description = None;
    vm.usb_xhci_enabled = Some(false);
    assert_eq!(
        require_running(&vm).unwrap_err(),
        "managed VM 'Windows - Barnen' is not running (state: saved)"
    );
    assert_eq!(
        validate_vm(&vm),
        [
            "selected VM is not configured with a Windows guest OS type",
            "selected VM does not have its xHCI USB controller enabled"
        ]
    );
}

#[test]
fn lists_and_descriptions_of_machines_are_read_as_they_are_written() {
    assert_eq!(
        parse_vm_list_line("\"A \" {b} {c}\" {uuid-1}"),
        Some(("A \" {b} {c}".to_owned(), "uuid-1".to_owned()))
    );
    assert_eq!(parse_vm_list_line("\"\" {uuid-1}"), None);
    assert_eq!(parse_vm_list_line("\"A\" {}"), None);
    assert_eq!(parse_vm_list_line("A {uuid-1}"), None);
    let fields = parse_machine_readable(
        "name=\"A\"\nCfgFile=\"C:\\\\VMs\\\\A.vbox\"\n\"SATA-0-0\"=\"x=y\"\nname=\"B\"\nnonsense\n",
    );
    assert_eq!(fields.get("name").map(String::as_str), Some("B"));
    assert_eq!(
        fields.get("CfgFile").map(String::as_str),
        Some(r"C:\VMs\A.vbox")
    );
    assert_eq!(fields.get("SATA-0-0").map(String::as_str), Some("x=y"));
    assert_eq!(fields.get("nonsense"), None);
}

#[test]
fn proposals_leave_the_host_its_share() {
    let proposed = |memory: u64, cpus: u32| {
        let proposal = creation_proposal(memory, cpus, Vec::new(), None);
        (proposal.memory_mb, proposal.cpus, proposal.disk_gb)
    };
    assert_eq!(proposed(32768, 16), (13107, 8, 72));
    assert_eq!(proposed(65536, 64), (16384, 8, 72));
    assert_eq!(proposed(8192, 4), (4096, 2, 72));
    assert_eq!(proposed(6144, 2), (2048, 1, 72));
    assert_eq!(proposed(0, 0), (2048, 1, 72));
    let proposal = creation_proposal(8192, 4, Vec::new(), Some("sv-SE"));
    assert_eq!(
        proposal.default_windows_version,
        ManagedWindowsVersion::Windows10
    );
    assert_eq!(proposal.installation_defaults.locale, "sv_SE");
}

fn config() -> WindowsInstallConfig {
    WindowsInstallConfig {
        username: "Barnen".into(),
        password: "secret".into(),
        computer_name: "BARNEN-PC".into(),
        domain_name: "multiseat.local".into(),
        locale: "sv_SE".into(),
        language: "sv".into(),
        country: "SE".into(),
        time_zone: String::new(),
        product_key: None,
        install_guest_additions: true,
    }
}

fn request(memory_mb: u64, cpus: u32, disk_gb: u64) -> VmCreationRequest {
    VmCreationRequest {
        name: "Windows - Barnen".into(),
        iso_path: "C:\\a.iso".into(),
        memory_mb,
        cpus,
        disk_gb,
        windows_version: ManagedWindowsVersion::Windows10,
        installation: config(),
    }
}

#[test]
fn resources_stay_between_their_bounds() {
    assert!(validate_resources(&request(4096, 3, 2048), 8192, 4).is_ok());
    let low = "VM resource values are below safe minimums";
    assert_eq!(
        validate_resources(&request(2047, 1, 32), 8192, 4).unwrap_err(),
        low
    );
    assert_eq!(
        validate_resources(&request(2048, 0, 32), 8192, 4).unwrap_err(),
        low
    );
    assert_eq!(
        validate_resources(&request(2048, 1, 31), 8192, 4).unwrap_err(),
        low
    );
    assert_eq!(
        validate_resources(&request(4097, 1, 32), 8192, 4).unwrap_err(),
        "requested resources do not leave the host reserve (maximum 4096 MB and 3 CPUs)"
    );
    assert_eq!(
        validate_resources(&request(2048, 2, 32), 8192, 1).unwrap_err(),
        "requested resources do not leave the host reserve (maximum 4096 MB and 1 CPUs)"
    );
    assert_eq!(
        validate_resources(&request(2048, 1, 2049), 8192, 4).unwrap_err(),
        "virtual disk size exceeds the 2048 GB safety limit"
    );
}

#[test]
fn an_image_is_told_by_its_name_its_size_and_its_signature() {
    let opened = |is_file: bool, length: u64, signature: IsoSignature| IsoInspection::Opened {
        is_file,
        length,
        signature,
    };
    let enough = ISO_PRIMARY_VOLUME_DESCRIPTOR + 5;
    let good = || IsoSignature::Read(b"CD001".to_vec());
    assert!(validate_iso("C:\\a.ISO", &opened(true, enough, good())).is_ok());
    let refused = |path: &str, found: IsoInspection| validate_iso(path, &found).unwrap_err();
    assert_eq!(
        refused("C:\\a.img", opened(true, enough, good())),
        "'C:\\a.img' is not an .iso file"
    );
    assert_eq!(
        refused("a.iso", IsoInspection::OpenFailed("gone".into())),
        "Windows ISO 'a.iso' is not readable: gone"
    );
    assert_eq!(
        refused("a.iso", IsoInspection::MetadataFailed("odd".into())),
        "could not inspect Windows ISO 'a.iso': odd"
    );
    let small = "'a.iso' is too small to be a valid ISO image";
    assert_eq!(refused("a.iso", opened(true, enough - 1, good())), small);
    assert_eq!(refused("a.iso", opened(false, enough, good())), small);
    assert_eq!(
        refused(
            "a.iso",
            opened(true, enough, IsoSignature::SeekFailed("no".into()))
        ),
        "could not seek Windows ISO 'a.iso': no"
    );
    assert_eq!(
        refused(
            "a.iso",
            opened(true, enough, IsoSignature::ReadFailed("no".into()))
        ),
        "could not read Windows ISO 'a.iso': no"
    );
    assert_eq!(
        refused(
            "a.iso",
            opened(true, enough, IsoSignature::Read(b"CD002".to_vec()))
        ),
        "'a.iso' does not contain an ISO-9660 primary volume descriptor"
    );
}

#[test]
fn failures_are_told_with_what_was_done_and_undone() {
    let entry = |step: &str, outcome: &str, detail: &str| VmCreationLogEntry {
        step: step.into(),
        outcome: outcome.into(),
        detail: detail.into(),
    };
    let mut failure = VmCreationFailure {
        failed_step: "register-vm".into(),
        message: "no room".into(),
        logs: Vec::new(),
        rollback_actions: Vec::new(),
    };
    assert_eq!(
        failure.to_text(),
        "VM creation failed at 'register-vm': no room"
    );
    failure.logs = vec![entry("a", "ok", "x"), entry("b", "failed", "y")];
    failure.rollback_actions = vec![entry("c", "ok", "x"), entry("d", "failed", "y")];
    assert_eq!(
        failure.to_text(),
        "VM creation failed at 'register-vm': no room; creation log: a=ok, b=failed; rollback: c=ok (x); d=failed (y)"
    );
    let failure = InstallationFailure {
        failed_step: "create-password-file".into(),
        message: "disk full".into(),
    };
    assert_eq!(
        failure.to_text(),
        "Windows installation failed at 'create-password-file': disk full"
    );
}

#[test]
fn defaults_follow_the_locale_of_the_host() {
    let defaults = host_windows_install_defaults(Some("de_at-x"));
    assert_eq!(defaults.locale, "de_AT");
    assert_eq!(defaults.language, "de");
    assert_eq!(defaults.country, "AT");
    assert_eq!(defaults.hostname, "barnen-pc.multiseat.local");
    assert_eq!(defaults.time_zone, "");
    assert_eq!(host_windows_install_defaults(None).locale, "en_US");
    assert_eq!(host_windows_install_defaults(Some("fr")).locale, "fr_US");
}

#[test]
fn each_part_of_a_configuration_is_checked() {
    let refused = |change: fn(&mut WindowsInstallConfig)| {
        let mut config = config();
        change(&mut config);
        validate_windows_install_config(&config).unwrap_err()
    };
    assert!(validate_windows_install_config(&config()).is_ok());
    let user = "Windows username is empty, too long, or contains invalid characters";
    assert_eq!(refused(|config| config.username = "  ".into()), user);
    assert_eq!(refused(|config| config.username = "..".into()), user);
    assert_eq!(refused(|config| config.username = "a:b".into()), user);
    assert_eq!(
        refused(|config| config.username = "\u{1f600}".repeat(11)),
        user
    );
    let password = "Windows password must contain 1-127 printable characters";
    assert_eq!(refused(|config| config.password = String::new()), password);
    assert_eq!(refused(|config| config.password = "a\tb".into()), password);
    assert_eq!(
        refused(|config| config.password = "x".repeat(128)),
        password
    );
    assert_eq!(
        refused(|config| config.computer_name = "-PC".into()),
        "Windows computer name must be 1-15 ASCII letters, digits, or hyphens; it cannot contain dots or begin/end with a hyphen"
    );
    assert_eq!(
        refused(|config| config.domain_name = " ".into()),
        "DNS domain is required for VirtualBox unattended setup"
    );
    let locale = "locale, language, or country has an invalid format";
    assert_eq!(refused(|config| config.locale = "sv-SE".into()), locale);
    assert_eq!(refused(|config| config.language = "s".into()), locale);
    assert_eq!(refused(|config| config.country = "SWE".into()), locale);
    assert_eq!(
        refused(|config| config.time_zone = "CET\n".into()),
        "time zone contains invalid control characters"
    );
    let key = "Windows product key must contain five groups of five characters";
    assert_eq!(
        refused(|config| config.product_key = Some("AAAAA-BBBBB".into())),
        key
    );
    let mut spaced = config();
    spaced.product_key = Some("   ".into());
    assert!(validate_windows_install_config(&spaced).is_ok());
}

#[test]
fn host_names_are_lower_case_and_qualified() {
    assert_eq!(
        unattended_hostname(" BARNEN-PC ", " Home.LOCAL ").unwrap(),
        "barnen-pc.home.local"
    );
    assert_eq!(
        unattended_hostname("BARNEN-PC", "home..local").unwrap_err(),
        "DNS domain contains an empty or invalid label"
    );
    let long = vec!["x".repeat(60); 4].join(".");
    assert_eq!(
        unattended_hostname("BARNEN-PC-12345", &long).unwrap_err(),
        "generated unattended hostname is not a valid FQDN"
    );
    assert!(validate_computer_name("A2345678901234-").is_err());
    assert!(validate_computer_name("A23456789012345").is_ok());
    assert!(validate_computer_name("A234567890123456").is_err());
}

#[test]
fn names_are_migrated_once() {
    let mut computer = "multiseat-barnen".to_owned();
    let mut domain = String::new();
    assert!(migrate_managed_hostname_parts(&mut computer, &mut domain));
    assert_eq!(computer, "BARNEN-PC");
    assert_eq!(domain, "multiseat.local");
    assert!(!migrate_managed_hostname_parts(&mut computer, &mut domain));
    assert_eq!(computer, "BARNEN-PC");
    assert_eq!(domain, "multiseat.local");
}

#[test]
fn the_password_is_in_no_argument() {
    let mut config = config();
    config.time_zone = " W. Europe Standard Time ".into();
    config.product_key = Some(" AAAAA-BBBBB-CCCCC-DDDDD-EEEEE ".into());
    let (arguments, sensitive) =
        unattended_arguments("vm", "C:\\a b.iso", "C:\\pw", None, &config).unwrap();
    assert_eq!(
        arguments,
        [
            "unattended",
            "install",
            "vm",
            "--iso=C:\\a b.iso",
            "--user=Barnen",
            "--user-password-file=C:\\pw",
            "--full-user-name=Barnen",
            "--hostname=barnen-pc.multiseat.local",
            "--locale=sv_SE",
            "--language=sv",
            "--country=SE",
            "--time-zone=W. Europe Standard Time",
            "--key=AAAAA-BBBBB-CCCCC-DDDDD-EEEEE",
            "--install-additions",
            "--start-vm=gui"
        ]
    );
    assert_eq!(sensitive, ["--key=AAAAA-BBBBB-CCCCC-DDDDD-EEEEE"]);
}

#[test]
fn a_configuration_is_shown_without_its_secrets() {
    let mut shown = config();
    shown.username = "Bar\"nen".into();
    shown.product_key = Some("AAAAA".into());
    assert_eq!(
        shown.redacted_text(),
        "WindowsInstallConfig { username: \"Bar\\\"nen\", password: \"<redacted>\", computer_name: \"BARNEN-PC\", domain_name: \"multiseat.local\", locale: \"sv_SE\", language: \"sv\", country: \"SE\", time_zone: \"\", product_key: Some(\"<redacted>\"), install_guest_additions: true }"
    );
}

#[test]
fn the_image_of_a_preparation_is_found_in_its_definition() {
    let found = |text: &str| imported_iso_path(text);
    assert_eq!(
        found("x --import-iso-skip-eltorito 'C:\\My ISO.iso' y").as_deref(),
        Some("C:\\My ISO.iso")
    );
    assert_eq!(
        found("--import-iso-skip-eltorito\n\"C:\\b.iso\"").as_deref(),
        Some("C:\\b.iso")
    );
    assert_eq!(
        found("--import-iso-skip-eltorito C:\\c.iso rest").as_deref(),
        Some("C:\\c.iso")
    );
    assert_eq!(found("--import-iso-skip-eltorito 'C:\\open"), None);
    assert_eq!(found("--import-iso-skip-eltorito   "), None);
    assert_eq!(found("nothing"), None);
}

#[test]
fn virtualization_must_be_there_for_a_recovery() {
    let supported = |text: &str| parse_host_virtualization_support(text);
    assert_eq!(
        supported("x\n processor supports hw virtualization : YES\n"),
        DetectionState::Yes
    );
    assert_eq!(
        supported("Processor supports HW virtualization: no"),
        DetectionState::No
    );
    assert_eq!(
        supported("Processor supports HW virtualization: maybe"),
        DetectionState::Unknown
    );
    assert_eq!(supported(""), DetectionState::Unknown);
    let prepared = ManagedVmRecoveryClassification::RecoverablePreparedInstall;
    assert!(recovery_can_resume(
        prepared,
        DetectionState::Yes,
        DetectionState::Yes
    ));
    assert!(!recovery_can_resume(
        prepared,
        DetectionState::Unknown,
        DetectionState::Yes
    ));
    assert!(!recovery_can_resume(
        ManagedVmRecoveryClassification::Ready,
        DetectionState::Yes,
        DetectionState::Yes
    ));
}

#[test]
fn earlier_problems_are_named() {
    assert_eq!(
        previous_problem(Some("x VERR_SVM_DISABLED y"), None).as_deref(),
        Some("Hardware virtualization was unavailable")
    );
    assert_eq!(
        previous_problem(Some("other"), None).as_deref(),
        Some("The previous installation attempt was interrupted")
    );
    assert_eq!(
        previous_problem(None, Some("aborted")).as_deref(),
        Some("The previous installation attempt was interrupted")
    );
    assert_eq!(previous_problem(None, Some("Aborted")), None);
    assert_eq!(previous_problem(None, None), None);
}

#[test]
fn paths_are_taken_apart_and_put_together() {
    assert_eq!(file_name_of(r"C:\a\b.iso").as_deref(), Some("b.iso"));
    assert_eq!(extension_of(r"C:\a.b\c").as_deref(), None);
    assert_eq!(extension_of(r"C:\a\b.tar.iso").as_deref(), Some("iso"));
    assert_eq!(parent_of(r"C:\a\b.iso").as_deref(), Some(r"C:\a"));
    assert_eq!(join_path(r"C:\a", "b.iso"), r"C:\a\b.iso");
    assert_eq!(join_path(r"C:\a\", "b.iso"), r"C:\a\b.iso");
}

#[test]
fn drives_and_shares_are_no_files() {
    assert_eq!(join_path("C:", "VBoxManage.exe"), "C:VBoxManage.exe");
    assert_eq!(join_path(r"C:\", "a"), r"C:\a");
    assert_eq!(join_path("", "a"), "a");
    assert_eq!(join_path("C:/a/", "b"), "C:/a/b");
    assert_eq!(join_path(r"\\server\share", "a"), r"\\server\share\a");
    assert_eq!(file_name_of("C:file.vbox").as_deref(), Some("file.vbox"));
    assert_eq!(parent_of("C:file.vbox").as_deref(), Some("C:"));
    assert_eq!(parent_of(r"C:a\b").as_deref(), Some("C:a"));
    assert_eq!(file_name_of("C:"), None);
    assert_eq!(parent_of("C:"), None);
    assert_eq!(parent_of(r"C:\"), None);
    assert_eq!(parent_of(r"C:\a").as_deref(), Some(r"C:\"));
    assert_eq!(parent_of(r"C:\\a").as_deref(), Some(r"C:\"));
    assert_eq!(parent_of(r"\a").as_deref(), Some(r"\"));
    assert_eq!(parent_of(r"\"), None);
    assert_eq!(file_name_of(r"\\server\share"), None);
    assert_eq!(parent_of(r"\\server\share"), None);
    assert_eq!(
        parent_of(r"\\server\share\a").as_deref(),
        Some(r"\\server\share\")
    );
}

#[test]
fn single_dots_are_passed_over() {
    assert_eq!(file_name_of(r"a\.").as_deref(), Some("a"));
    assert_eq!(parent_of(r"a\.").as_deref(), Some(""));
    assert_eq!(file_name_of(r"C:\a\.\b.iso\.\").as_deref(), Some("b.iso"));
    assert_eq!(parent_of(r"C:\a\.\b.iso\.\").as_deref(), Some(r"C:\a"));
    assert_eq!(parent_of(r"C:\.\a").as_deref(), Some(r"C:\"));
    assert_eq!(file_name_of("."), None);
    assert_eq!(parent_of(".").as_deref(), Some(""));
    assert_eq!(parent_of(r".\a").as_deref(), Some("."));
    assert_eq!(file_name_of(r".\a").as_deref(), Some("a"));
    assert_eq!(file_name_of(r"a\.."), None);
    assert_eq!(parent_of(r"a\..").as_deref(), Some("a"));
    assert_eq!(file_name_of(""), None);
    assert_eq!(parent_of(""), None);
    assert_eq!(parent_of("a").as_deref(), Some(""));
    assert_eq!(extension_of(r"C:\a\b.viso\.").as_deref(), Some("viso"));
    assert_eq!(extension_of(".iso"), None);
}

#[test]
fn verbatim_paths_are_taken_as_they_are() {
    assert_eq!(parent_of(r"\\?\C:\a/b.vbox").as_deref(), Some(r"\\?\C:\"));
    assert_eq!(file_name_of(r"\\?\C:\a/b.vbox").as_deref(), Some("a/b.vbox"));
    assert_eq!(parent_of(r"\\?\C:\a\b.vbox").as_deref(), Some(r"\\?\C:\a"));
    assert_eq!(extension_of(r"\\?\C:\a\b.viso").as_deref(), Some("viso"));
    assert_eq!(parent_of(r"\\?\C:\"), None);
    assert_eq!(file_name_of(r"\\?\C:"), None);
    assert_eq!(file_name_of(r"\\?\C:\a\."), None);
    assert_eq!(parent_of(r"\\?\C:\a\.").as_deref(), Some(r"\\?\C:\a"));
    assert_eq!(file_name_of(r"\\?\UNC\server\share"), None);
    assert_eq!(
        parent_of(r"\\?\UNC\server\share\a\b").as_deref(),
        Some(r"\\?\UNC\server\share\a")
    );
    assert_eq!(
        parent_of(r"\\?\UNC\server\share\a").as_deref(),
        Some(r"\\?\UNC\server\share\")
    );
    assert_eq!(file_name_of(r"\\?\name"), None);
    assert_eq!(file_name_of(r"\\?\name\a").as_deref(), Some("a"));
    assert_eq!(join_path(r"\\?\C:", "a"), r"\\?\C:\a");
    assert_eq!(join_path(r"\\?\C:\", "a"), r"\\?\C:\a");
    assert_eq!(join_path(r"\\?\C:\\b\\c\", "a"), r"\\?\C:\b\c\a");
    assert_eq!(join_path(r"\\?\C:/b", "a"), r"\\?\C:\b\a");
    assert_eq!(join_path(r"\\?\C:\b/c", "a"), r"\\?\C:\b/c\a");
    assert_eq!(file_name_of(r"\\.\COM1"), None);
    assert_eq!(parent_of(r"\\.\COM1\a").as_deref(), Some(r"\\.\COM1\"));
    assert_eq!(file_name_of("//?/C:/a").as_deref(), Some("a"));
}
