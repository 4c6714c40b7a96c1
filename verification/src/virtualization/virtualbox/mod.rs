//! The VirtualBox backend of the second seat.
pub mod activation;
pub mod activation_laws;
pub mod configuration_laws;
pub mod creation;
pub mod creation_laws;
pub mod creation_outcomes;
pub mod creation_steps;
pub mod executor;
pub mod focus_protection;
pub mod guest_laws;
pub mod guest_observation;
pub mod install_config;
pub mod install_laws;
pub mod installation;
pub mod installation_laws;
pub mod isolation;
pub mod isolation_laws;
pub mod keyboard_sink;
pub mod listing_laws;
pub mod machine_info;
pub mod machine_laws;
pub mod mouse_integration;
pub mod presentation;
pub mod presentation_laws;
pub mod presentation_session;
pub mod record_laws;
pub mod recovery;
pub mod recovery_laws;
pub mod release_laws;
pub mod request_laws;
pub mod runtime;
pub mod seat_laws;
pub mod seat_rules;
pub mod secrecy;
pub mod service;
pub mod setting_laws;
pub mod start_outcomes;
pub mod status;
pub mod status_laws;
pub mod step_laws;
pub mod stop_outcomes;
pub mod success_laws;
pub mod unavailable;
pub mod usb_attachment;
pub mod window_laws;

pub use creation::{
    GuestAdditionsPreparation, GuestAdditionsState, IsoInspection, IsoSignature,
    ManagedWindowsVmProfile, SecureBootStatus, VmCreationFailure, VmCreationLogEntry,
    VmCreationProposal, VmCreationRequest, VmCreationResult,
};
pub use executor::{UnavailableExecutor, VBoxManageExecutor, VBoxOutput};
pub use focus_protection::{
    FocusProtectionBackend, FocusProtectionStatus, ManagedVmWindowIdentity,
    SimulatedFocusProtection,
};
pub use install_config::{
    apply_legacy_managed_install_defaults, host_windows_install_defaults, unattended_hostname,
    validate_windows_install_config, WindowsInstallConfig, WindowsInstallDefaults,
};
pub use installation::{
    InstallationFailure, InstallationHost, ManagedInstallationSnapshot, ManagedVmSetupResult,
    PasswordFailure,
};
pub use keyboard_sink::VirtualBoxGuestKeyboardSink;
pub use machine_info::{parse_machine_readable, validate_vm};
pub use mouse_integration::{
    documented_backend, MouseIntegrationControl, MouseIntegrationController,
    MouseIntegrationState, MouseIntegrationStatus,
};
pub use presentation::{
    resolve_assigned_display, DisplayPresentationStatus, PresentationBackend,
    PresentationFailureReason, PresentationMode, PresentationState, PresentationTraceEntry,
    SimulatedPresentation, WindowCandidateDiagnostic,
};
pub use recovery::{ManagedVmRecoveryClassification, ManagedVmRecoveryStatus};
pub use runtime::{
    EvidencePresence, GuestUsbVisibility, HostGuiKeyboardIsolation, ManagedInputIsolationStatus,
    ManagedSeatDisplayMode, MouseIsolationStatus, RuntimeComponentStatus, RuntimeLogEntry,
    RuntimeUsbDiagnostic, SeatOperationResult, SeatRuntimeSnapshot, StartupTraceEntry,
    UsbAttachCommandStatus, UsbRuntimeHealth, VirtualMachine, VirtualMachineList,
};
pub use service::{HardwareInventory, VirtualBoxRuntimeService};
