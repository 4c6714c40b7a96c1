//! Virtualization backends: what they can do and what they report.
use crate::duplicate::Duplicate;
use crate::seats::{ResolvedSeat, SeatId};
use crate::text::compose::copy_all;
use crate::text::model;
use crate::text::model::Text;
use vstd::prelude::*;

pub mod host_laws;
pub mod host_probe;
pub mod usb;
pub mod usb_laws;
pub mod virtualbox;

pub use host_probe::{
    probe, BackendProbeSnapshot, HostServiceStatus, HyperVStatus, WindowsFeatureState,
    WindowsSystemInfo,
};
pub use usb::{
    correlate_usb_devices, parse_virtualbox_usbhost, UsbCorrelation, UsbCorrelationState,
    VirtualBoxStatus, VirtualBoxUsbDevice, VirtualBoxUsbParseResult,
};

verus! {

/// The kinds of backend.
#[derive(Clone, Copy, Debug, Eq, PartialEq, Structural)]
pub enum BackendKind {
    VirtualBox,
    HyperV,
    Native,
    Unsupported,
}

/// What a backend can do on this host.
#[derive(Debug, Eq, PartialEq)]
pub struct BackendCapabilities {
    pub backend_kind: BackendKind,
    pub available: bool,
    pub status_probe: bool,
    pub usb_discovery: bool,
    /// Activation is off: no backend activates a seat yet.
    pub activation_supported: bool,
}

/// The model of [`BackendCapabilities`].
#[verifier::ext_equal]
pub struct BackendCapabilitiesView {
    pub backend_kind: BackendKind,
    pub available: bool,
    pub status_probe: bool,
    pub usb_discovery: bool,
    pub activation_supported: bool,
}

impl View for BackendCapabilities {
    type V = BackendCapabilitiesView;

    open spec fn view(&self) -> BackendCapabilitiesView {
        BackendCapabilitiesView {
            backend_kind: self.backend_kind,
            available: self.available,
            status_probe: self.status_probe,
            usb_discovery: self.usb_discovery,
            activation_supported: self.activation_supported,
        }
    }
}

impl Duplicate for BackendCapabilities {
    fn duplicate(&self) -> (r: Self) {
        BackendCapabilities {
            backend_kind: self.backend_kind,
            available: self.available,
            status_probe: self.status_probe,
            usb_discovery: self.usb_discovery,
            activation_supported: self.activation_supported,
        }
    }
}

impl Clone for BackendCapabilities {
    fn clone(&self) -> (r: Self)
        ensures
            r@ == self@,
    {
        self.duplicate()
    }
}

/// Whether a backend could run a seat.
#[derive(Debug, Eq, PartialEq)]
pub struct SeatValidation {
    pub valid: bool,
    pub warnings: Vec<String>,
    pub errors: Vec<String>,
}

/// The model of [`SeatValidation`].
#[verifier::ext_equal]
pub struct SeatValidationView {
    pub valid: bool,
    pub warnings: Seq<Text>,
    pub errors: Seq<Text>,
}

impl View for SeatValidation {
    type V = SeatValidationView;

    open spec fn view(&self) -> SeatValidationView {
        SeatValidationView {
            valid: self.valid,
            warnings: model::texts(self.warnings@),
            errors: model::texts(self.errors@),
        }
    }
}

impl Duplicate for SeatValidation {
    fn duplicate(&self) -> (r: Self) {
        SeatValidation {
            valid: self.valid,
            warnings: copy_all(&self.warnings),
            errors: copy_all(&self.errors),
        }
    }
}

impl Clone for SeatValidation {
    fn clone(&self) -> (r: Self)
        ensures
            r@ == self@,
    {
        self.duplicate()
    }
}

/// What a seat is doing.
#[derive(Clone, Copy, Debug, Eq, PartialEq, Structural)]
pub enum SeatRuntimeStatus {
    Unsupported,
    NotConfigured,
    Stopped,
    Starting,
    Running,
    PartiallyRunning,
    Stopping,
    Error,
}

/// What every backend offers. A backend that does not activate seats keeps the two defaults,
/// which refuse.
pub trait SeatBackend {
    fn backend_kind(&self) -> BackendKind;

    fn capabilities(&self) -> Result<BackendCapabilities, String>;

    fn validate_seat(&self, seat: &ResolvedSeat) -> Result<SeatValidation, String>;

    fn status(&self, seat_id: &SeatId) -> Result<SeatRuntimeStatus, String>;

    fn start(&self, seat: &ResolvedSeat) -> (r: Result<(), String>)
        default_ensures
            model::with_message(r) == refused(),
    {
        Err("seat activation is not supported by this backend".to_owned())
    }

    fn stop(&self, seat_id: &SeatId) -> (r: Result<(), String>)
        default_ensures
            model::with_message(r) == refused(),
    {
        Err("seat activation is not supported by this backend".to_owned())
    }
}

/// The answer of a backend that does not activate seats.
pub open spec fn refused() -> Result<(), Text> {
    Err("seat activation is not supported by this backend"@)
}

/// A backend that only reports.
pub struct ProbeOnlyBackend {
    capabilities: BackendCapabilities,
}

impl ProbeOnlyBackend {
    pub closed spec fn spec_capabilities(self) -> BackendCapabilitiesView {
        self.capabilities@
    }

    pub fn new(capabilities: BackendCapabilities) -> (r: Self)
        ensures
            r.spec_capabilities() == capabilities@,
    {
        ProbeOnlyBackend { capabilities }
    }
}

/// The warnings about the assignments of a seat.
pub open spec fn assignment_warnings(display: bool, keyboard: bool, mouse: bool) -> Seq<Text> {
    (if display {
        seq![]
    } else {
        seq!["seat has no display assignment"@]
    }) + (if keyboard && mouse {
        seq![]
    } else {
        seq!["seat does not have both keyboard and mouse assignments"@]
    })
}

impl SeatBackend for ProbeOnlyBackend {
    fn backend_kind(&self) -> (r: BackendKind)
        ensures
            r == self.spec_capabilities().backend_kind,
    {
        self.capabilities.backend_kind
    }

    fn capabilities(&self) -> (r: Result<BackendCapabilities, String>)
        ensures
            r matches Ok(capabilities) && capabilities@ == self.spec_capabilities(),
    {
        Ok(self.capabilities.duplicate())
    }

    fn validate_seat(&self, seat: &ResolvedSeat) -> (r: Result<SeatValidation, String>)
        ensures
            r matches Ok(validation) && validation@ == (SeatValidationView {
                valid: self.spec_capabilities().available,
                warnings: assignment_warnings(
                    seat.devices.display is Some,
                    seat.devices.keyboard is Some,
                    seat.devices.mouse is Some,
                ),
                errors: if self.spec_capabilities().available {
                    seq![]
                } else {
                    seq!["backend is not available"@]
                },
            }),
    {
        let mut warnings: Vec<String> = Vec::new();
        if seat.devices.display.is_none() {
            warnings.push("seat has no display assignment".to_owned());
        }
        if seat.devices.keyboard.is_none() || seat.devices.mouse.is_none() {
            warnings.push("seat does not have both keyboard and mouse assignments".to_owned());
        }
        let mut errors: Vec<String> = Vec::new();
        if !self.capabilities.available {
            errors.push("backend is not available".to_owned());
        }
        Ok(SeatValidation { valid: self.capabilities.available, warnings, errors })
    }

    fn status(&self, seat_id: &SeatId) -> (r: Result<SeatRuntimeStatus, String>)
        ensures
            r == Ok::<SeatRuntimeStatus, String>(SeatRuntimeStatus::NotConfigured),
    {
        Ok(SeatRuntimeStatus::NotConfigured)
    }
}

/// The outcome of a detection.
#[derive(Clone, Copy, Debug, Eq, PartialEq, Structural)]
pub enum DetectionState {
    Yes,
    No,
    Unknown,
}

} // verus!
