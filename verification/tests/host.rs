use multiseat_virtualization::devices::{InputCapabilities, PhysicalInputDevice};
use multiseat_virtualization::virtualization::host_probe::{
    CommandOutput, HostProbe, HostServiceState, ProbeHost, ProcessorFeature, ServiceFailure,
};
use multiseat_virtualization::virtualization::usb::parse_hex_id;
use multiseat_virtualization::virtualization::{
    correlate_usb_devices, probe, BackendKind, DetectionState, UsbCorrelationState,
    VirtualBoxStatus, VirtualBoxUsbDevice, WindowsFeatureState,
};
use std::sync::{Arc, Mutex};

const VBOX: &str = r"C:\Program Files\Oracle\VirtualBox\VBoxManage.exe";

#[derive(Clone)]
struct FakeHost {
    commands: Arc<Mutex<Vec<(String, Vec<String>)>>>,
    registered: bool,
    files: Vec<String>,
    version: Vec<u8>,
    listing: Vec<u8>,
    feature: Result<CommandOutput2, String>,
    edition: &'static str,
    manager: Result<(), String>,
    services: Vec<(&'static str, HostServiceState)>,
    broken_service: Option<&'static str>,
}

type CommandOutput2 = (bool, Option<i32>, Vec<u8>, Vec<u8>);

fn output(parts: &CommandOutput2) -> CommandOutput {
    CommandOutput {
        success: parts.0,
        exit_code: parts.1,
        stdout: parts.2.clone(),
        stderr: parts.3.clone(),
    }
}

fn said(text: &[u8]) -> CommandOutput2 {
    (true, Some(0), text.to_vec(), Vec::new())
}

fn host() -> FakeHost {
    FakeHost {
        commands: Arc::default(),
        registered: true,
        files: vec![VBOX.to_owned()],
        version: b" 7.2.0r170228 \r\n".to_vec(),
        listing: b"Host USB Devices:\n\nUUID: usb-1\nVendorId: 0x46d (046D)\nProductId: 0xc31c (C31C)\nCurrent State: Busy\n".to_vec(),
        feature: Ok(said(b"Disabled\r\n")),
        edition: "Professional",
        manager: Ok(()),
        services: vec![("vmms", HostServiceState::Running)],
        broken_service: None,
    }
}

impl ProbeHost for FakeHost {
    fn registry_text(&mut self, key: &str, value: &str) -> Option<String> {
        match (key, value) {
            (r"SOFTWARE\Oracle\VirtualBox", "InstallDir") if self.registered => {
                Some(r"C:\Program Files\Oracle\VirtualBox\".to_owned())
            }
            (r"SOFTWARE\Oracle\VirtualBox", _) => None,
            (_, "CurrentBuildNumber") => Some("26100".to_owned()),
            (_, "ProductName") => Some("Windows 11 Pro".to_owned()),
            (_, "EditionID") => Some(self.edition.to_owned()),
            (_, "DisplayVersion") => Some("24H2".to_owned()),
            _ => None,
        }
    }

    fn registry_number(&mut self, _key: &str, value: &str) -> Option<u32> {
        (value == "UBR").then_some(4061)
    }

    fn has_feature(&mut self, feature: ProcessorFeature) -> bool {
        feature == ProcessorFeature::FirmwareVirtualization
    }

    fn architecture(&mut self) -> String {
        "x86_64".to_owned()
    }

    fn program_files(&mut self) -> Option<String> {
        Some(r"C:\Program Files".to_owned())
    }

    fn is_file(&mut self, path: &str) -> bool {
        self.files.iter().any(|known| known == path)
    }

    fn run(&mut self, program: &str, arguments: &[String]) -> Result<CommandOutput, String> {
        self.commands
            .lock()
            .unwrap()
            .push((program.to_owned(), arguments.to_vec()));
        match (program, arguments.first().map(String::as_str)) {
            ("where.exe", _) => Ok(output(&said(b"\r\n  D:\\Tools\\VBoxManage.exe\r\n"))),
            ("powershell.exe", _) => match &self.feature {
                Ok(parts) => Ok(output(parts)),
                Err(error) => Err(error.clone()),
            },
            (_, Some("--version")) => Ok(output(&said(&self.version))),
            _ => Ok(output(&said(&self.listing))),
        }
    }

    fn open_service_manager(&mut self) -> Result<(), String> {
        self.manager.clone()
    }

    fn service_state(&mut self, name: &str) -> Result<Option<HostServiceState>, ServiceFailure> {
        if self.broken_service == Some(name) {
            return Err(ServiceFailure::Query("access denied".to_owned()));
        }
        Ok(self
            .services
            .iter()
            .find(|(known, _)| *known == name)
            .map(|(_, state)| *state))
    }
}

fn keyboard(id: &str, serial: Option<&str>) -> PhysicalInputDevice {
    PhysicalInputDevice {
        id: id.into(),
        container_id: None,
        friendly_name: None,
        manufacturer: None,
        vendor_id: Some("046d".into()),
        product_id: Some("c31c".into()),
        usb_parent_instance_id: None,
        serial_number: serial.map(str::to_owned),
        capabilities: InputCapabilities {
            keyboard: true,
            mouse: false,
        },
        logical_nodes: Vec::new(),
        raw_input_paths: Vec::new(),
        present: true,
    }
}

#[test]
fn a_probe_reports_the_host_and_only_asks() {
    let fake = host();
    let mut probing = HostProbe::new(fake.clone());
    let snapshot = probe(&mut probing, &[keyboard("kbd", None)], "aster", 3).unwrap();
    assert_eq!(snapshot.system.build.as_deref(), Some("26100.4061"));
    assert_eq!(
        snapshot.system.firmware_virtualization_enabled,
        DetectionState::Yes
    );
    assert_eq!(
        snapshot.system.second_level_address_translation,
        DetectionState::No
    );
    assert_eq!(snapshot.system.current_session_id, 3);
    assert_eq!(snapshot.aster, "aster");
    assert_eq!(snapshot.virtual_box.version.as_deref(), Some("7.2.0r170228"));
    assert_eq!(snapshot.virtual_box.vbox_manage_path.as_deref(), Some(VBOX));
    assert_eq!(snapshot.virtual_box.usb_devices.len(), 1);
    assert_eq!(snapshot.selected_backend, None);
    assert_eq!(snapshot.backend_capabilities.len(), 3);
    assert!(snapshot.backend_capabilities[0].available);
    assert!(snapshot.backend_capabilities.iter().all(|offer| !offer.activation_supported));
    assert_eq!(
        snapshot.backend_capabilities[1].backend_kind,
        BackendKind::HyperV
    );
    assert!(!snapshot.backend_capabilities[1].available);
    assert!(!snapshot.backend_capabilities[2].status_probe);
    assert_eq!(snapshot.usb_correlations.len(), 1);
    assert_eq!(
        snapshot.usb_correlations[0].state,
        UsbCorrelationState::Unambiguous
    );
    assert_eq!(
        snapshot.usb_correlations[0].matched_uuid.as_deref(),
        Some("usb-1")
    );
    assert_eq!(snapshot.hyper_v.feature_state, WindowsFeatureState::Disabled);
    assert_eq!(snapshot.hyper_v.services[0].state, "running");
    assert!(snapshot.hyper_v.services[0].running);
    assert_eq!(snapshot.hyper_v.services[1].name, "vmcompute");
    assert_eq!(snapshot.hyper_v.services[1].state, "notInstalled");
    let commands = fake.commands.lock().unwrap();
    assert_eq!(commands.len(), 3);
    assert_eq!(commands[0], (VBOX.to_owned(), vec!["--version".to_owned()]));
    assert_eq!(
        commands[1],
        (
            VBOX.to_owned(),
            vec!["list".to_owned(), "usbhost".to_owned()]
        )
    );
    assert_eq!(commands[2].0, "powershell.exe");
    assert_eq!(commands[2].1[3], "(Get-WindowsOptionalFeature -Online -FeatureName Microsoft-Hyper-V-All -ErrorAction Stop).State.ToString()");
}

#[test]
fn output_that_is_not_text_is_reported_or_replaced() {
    let mut fake = host();
    fake.version = b"7.2\xff".to_vec();
    fake.listing = b"\xffUUID: usb-1".to_vec();
    let snapshot = probe(&mut HostProbe::new(fake), &[], (), 0).unwrap();
    assert_eq!(
        snapshot.virtual_box.version.as_deref(),
        Some("7.2\u{fffd}")
    );
    assert_eq!(
        snapshot.virtual_box.probe_error.as_deref(),
        Some("VBoxManage usbhost output was not UTF-8: invalid utf-8 sequence of 1 bytes from index 0")
    );
    assert!(snapshot.virtual_box.operational);
    assert!(!snapshot.backend_capabilities[0].usb_discovery);
    assert!(snapshot.virtual_box.usb_devices.is_empty());
}

#[test]
fn failed_commands_say_what_they_printed() {
    let mut fake = host();
    fake.feature = Ok((false, Some(5), Vec::new(), b" needs elevation\n".to_vec()));
    let snapshot = probe(&mut HostProbe::new(fake.clone()), &[], (), 0).unwrap();
    assert_eq!(
        snapshot.hyper_v.feature_probe_error.as_deref(),
        Some("Get-WindowsOptionalFeature failed with exit code Some(5): needs elevation")
    );
    assert_eq!(snapshot.hyper_v.feature_state, WindowsFeatureState::Unknown);
    fake.feature = Ok((false, None, Vec::new(), Vec::new()));
    let snapshot = probe(&mut HostProbe::new(fake.clone()), &[], (), 0).unwrap();
    assert_eq!(
        snapshot.hyper_v.feature_probe_error.as_deref(),
        Some("Get-WindowsOptionalFeature failed with exit code None")
    );
    fake.feature = Err("no such program".to_owned());
    let snapshot = probe(&mut HostProbe::new(fake), &[], (), 0).unwrap();
    assert_eq!(
        snapshot.hyper_v.feature_probe_error.as_deref(),
        Some("could not query Hyper-V optional feature: no such program")
    );
}

#[test]
fn a_core_edition_is_not_asked_for_hyper_v() {
    let mut fake = host();
    fake.edition = "CoreSingleLanguage";
    let snapshot = probe(&mut HostProbe::new(fake.clone()), &[], (), 0).unwrap();
    assert_eq!(
        snapshot.hyper_v.feature_state,
        WindowsFeatureState::Unavailable
    );
    assert!(fake
        .commands
        .lock()
        .unwrap()
        .iter()
        .all(|(program, _)| program != "powershell.exe"));
}

#[test]
fn services_that_cannot_be_asked_fail_the_probe() {
    let mut fake = host();
    fake.manager = Err("denied".to_owned());
    assert_eq!(
        probe(&mut HostProbe::new(fake.clone()), &[], (), 0).unwrap_err(),
        "OpenSCManagerW for Hyper-V probe failed: denied"
    );
    fake.manager = Ok(());
    fake.broken_service = Some("vmcompute");
    assert_eq!(
        probe(&mut HostProbe::new(fake), &[], (), 0).unwrap_err(),
        "QueryServiceStatusEx('vmcompute') failed: access denied"
    );
}

#[test]
fn vbox_manage_is_looked_for_in_the_registry_then_in_programs_then_on_the_path() {
    let mut fake = host();
    assert_eq!(
        HostProbe::new(fake.clone()).find_vbox_manage(),
        (true, Some(VBOX.to_owned()))
    );
    fake.registered = false;
    assert_eq!(
        HostProbe::new(fake.clone()).find_vbox_manage(),
        (true, Some(VBOX.to_owned()))
    );
    fake.files = vec![r"D:\Tools\VBoxManage.exe".to_owned()];
    assert_eq!(
        HostProbe::new(fake.clone()).find_vbox_manage(),
        (true, Some(r"D:\Tools\VBoxManage.exe".to_owned()))
    );
    fake.files.clear();
    assert_eq!(HostProbe::new(fake.clone()).find_vbox_manage(), (false, None));
    fake.registered = true;
    let snapshot = probe(&mut HostProbe::new(fake), &[], (), 0).unwrap();
    assert!(snapshot.virtual_box.installed);
    assert_eq!(
        snapshot.virtual_box.probe_error.as_deref(),
        Some("VirtualBox registration was found but VBoxManage.exe was not")
    );
}

fn usb(uuid: &str, serial: Option<&str>) -> VirtualBoxUsbDevice {
    VirtualBoxUsbDevice {
        uuid: uuid.into(),
        vendor_id: Some("046D".into()),
        product_id: Some("C31C".into()),
        revision: None,
        port: None,
        usb_version_speed: None,
        manufacturer: None,
        product: None,
        serial_number: serial.map(str::to_owned),
        address: None,
        current_state: None,
    }
}

fn status(devices: Vec<VirtualBoxUsbDevice>) -> VirtualBoxStatus {
    VirtualBoxStatus {
        installed: true,
        vbox_manage_path: None,
        version: None,
        operational: true,
        probe_error: None,
        parser_warnings: Vec::new(),
        usb_devices: devices,
    }
}

#[test]
fn a_correlation_is_never_a_guess() {
    let shared = status(vec![usb("a", Some("S1")), usb("b", Some("s1"))]);
    let found = &correlate_usb_devices(&[keyboard("kbd", Some("S1"))], &shared)[0];
    assert_eq!(found.state, UsbCorrelationState::Ambiguous);
    assert_eq!(found.matched_uuid, None);
    assert_eq!(found.candidate_uuids, ["a", "b"]);
    assert_eq!(
        found.reason,
        "multiple VirtualBox devices share VID/PID and serial number"
    );
    let lonely = status(vec![usb("a", Some("other"))]);
    let found = &correlate_usb_devices(&[keyboard("kbd", Some("S1"))], &lonely)[0];
    assert_eq!(found.state, UsbCorrelationState::Unambiguous);
    let mut nameless = keyboard("kbd", None);
    nameless.vendor_id = None;
    let found = &correlate_usb_devices(&[nameless], &lonely)[0];
    assert_eq!(found.state, UsbCorrelationState::Unavailable);
    assert_eq!(found.reason, "Windows device has no VID/PID");
    let found = &correlate_usb_devices(&[keyboard("kbd", None)], &status(Vec::new()))[0];
    assert_eq!(
        found.reason,
        "no VirtualBox USB device has matching VID/PID"
    );
}

#[test]
fn identifiers_are_padded_and_in_upper_case() {
    assert_eq!(parse_hex_id("0x46d (046D)").as_deref(), Some("046D"));
    assert_eq!(parse_hex_id("c31c").as_deref(), Some("C31C"));
    assert_eq!(parse_hex_id("0xc31c5 ").as_deref(), Some("C31C5"));
    assert_eq!(parse_hex_id("zebra"), None);
    assert_eq!(parse_hex_id(""), None);
}
