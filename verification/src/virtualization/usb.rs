//! The USB devices that VirtualBox sees, and which of them a physical device is.
use crate::devices::{PhysicalInputDevice, PhysicalInputDeviceView};
use crate::duplicate;
use crate::duplicate::{duplicate_all, Duplicate};
use crate::sequences;
use crate::text::compose::{as_opt_str, concat7, copy_all, copy_opt, pad_left, to_lower, to_upper};
use crate::text::model;
use crate::text::model::Text;
use crate::text::scan::{
    lines_of, opt_is_any_case, same, same_any_case, split_at_first, strip_start, take_class, trim, word,
    Class,
};
use crate::text_map;
use crate::text_map::TextMap;
use vstd::prelude::*;

verus! {

/// A USB device as VirtualBox lists it. The identifier is good for the current session only.
#[derive(Debug, Eq, PartialEq)]
pub struct VirtualBoxUsbDevice {
    pub uuid: String,
    pub vendor_id: Option<String>,
    pub product_id: Option<String>,
    pub revision: Option<String>,
    pub port: Option<String>,
    pub usb_version_speed: Option<String>,
    pub manufacturer: Option<String>,
    pub product: Option<String>,
    pub serial_number: Option<String>,
    pub address: Option<String>,
    pub current_state: Option<String>,
}

/// The model of [`VirtualBoxUsbDevice`].
#[verifier::ext_equal]
pub struct VirtualBoxUsbDeviceView {
    pub uuid: Text,
    pub vendor_id: Option<Text>,
    pub product_id: Option<Text>,
    pub revision: Option<Text>,
    pub port: Option<Text>,
    pub usb_version_speed: Option<Text>,
    pub manufacturer: Option<Text>,
    pub product: Option<Text>,
    pub serial_number: Option<Text>,
    pub address: Option<Text>,
    pub current_state: Option<Text>,
}

impl View for VirtualBoxUsbDevice {
    type V = VirtualBoxUsbDeviceView;

    open spec fn view(&self) -> VirtualBoxUsbDeviceView {
        VirtualBoxUsbDeviceView {
            uuid: self.uuid@,
            vendor_id: model::opt_text(self.vendor_id),
            product_id: model::opt_text(self.product_id),
            revision: model::opt_text(self.revision),
            port: model::opt_text(self.port),
            usb_version_speed: model::opt_text(self.usb_version_speed),
            manufacturer: model::opt_text(self.manufacturer),
            product: model::opt_text(self.product),
            serial_number: model::opt_text(self.serial_number),
            address: model::opt_text(self.address),
            current_state: model::opt_text(self.current_state),
        }
    }
}

impl Duplicate for VirtualBoxUsbDevice {
    fn duplicate(&self) -> (r: Self) {
        VirtualBoxUsbDevice {
            uuid: self.uuid.clone(),
            vendor_id: copy_opt(&self.vendor_id),
            product_id: copy_opt(&self.product_id),
            revision: copy_opt(&self.revision),
            port: copy_opt(&self.port),
            usb_version_speed: copy_opt(&self.usb_version_speed),
            manufacturer: copy_opt(&self.manufacturer),
            product: copy_opt(&self.product),
            serial_number: copy_opt(&self.serial_number),
            address: copy_opt(&self.address),
            current_state: copy_opt(&self.current_state),
        }
    }
}

impl Clone for VirtualBoxUsbDevice {
    fn clone(&self) -> (r: Self)
        ensures
            r@ == self@,
    {
        self.duplicate()
    }
}

/// What was found out about VirtualBox on this host.
#[derive(Debug, Eq, PartialEq)]
pub struct VirtualBoxStatus {
    pub installed: bool,
    pub vbox_manage_path: Option<String>,
    pub version: Option<String>,
    pub operational: bool,
    pub probe_error: Option<String>,
    pub parser_warnings: Vec<String>,
    pub usb_devices: Vec<VirtualBoxUsbDevice>,
}

/// The model of [`VirtualBoxStatus`].
#[verifier::ext_equal]
pub struct VirtualBoxStatusView {
    pub installed: bool,
    pub vbox_manage_path: Option<Text>,
    pub version: Option<Text>,
    pub operational: bool,
    pub probe_error: Option<Text>,
    pub parser_warnings: Seq<Text>,
    pub usb_devices: Seq<VirtualBoxUsbDeviceView>,
}

impl View for VirtualBoxStatus {
    type V = VirtualBoxStatusView;

    open spec fn view(&self) -> VirtualBoxStatusView {
        VirtualBoxStatusView {
            installed: self.installed,
            vbox_manage_path: model::opt_text(self.vbox_manage_path),
            version: model::opt_text(self.version),
            operational: self.operational,
            probe_error: model::opt_text(self.probe_error),
            parser_warnings: model::texts(self.parser_warnings@),
            usb_devices: duplicate::views(self.usb_devices@),
        }
    }
}

impl Duplicate for VirtualBoxStatus {
    fn duplicate(&self) -> (r: Self) {
        VirtualBoxStatus {
            installed: self.installed,
            vbox_manage_path: copy_opt(&self.vbox_manage_path),
            version: copy_opt(&self.version),
            operational: self.operational,
            probe_error: copy_opt(&self.probe_error),
            parser_warnings: copy_all(&self.parser_warnings),
            usb_devices: duplicate_all(&self.usb_devices),
        }
    }
}

impl Clone for VirtualBoxStatus {
    fn clone(&self) -> (r: Self)
        ensures
            r@ == self@,
    {
        self.duplicate()
    }
}

/// The devices of a listing, and what was wrong with it.
#[derive(Debug, Eq, PartialEq)]
pub struct VirtualBoxUsbParseResult {
    pub devices: Vec<VirtualBoxUsbDevice>,
    pub warnings: Vec<String>,
}

/// The model of [`VirtualBoxUsbParseResult`].
#[verifier::ext_equal]
pub struct VirtualBoxUsbParseResultView {
    pub devices: Seq<VirtualBoxUsbDeviceView>,
    pub warnings: Seq<Text>,
}

impl View for VirtualBoxUsbParseResult {
    type V = VirtualBoxUsbParseResultView;

    open spec fn view(&self) -> VirtualBoxUsbParseResultView {
        VirtualBoxUsbParseResultView {
            devices: duplicate::views(self.devices@),
            warnings: model::texts(self.warnings@),
        }
    }
}

impl Duplicate for VirtualBoxUsbParseResult {
    fn duplicate(&self) -> (r: Self) {
        VirtualBoxUsbParseResult {
            devices: duplicate_all(&self.devices),
            warnings: copy_all(&self.warnings),
        }
    }
}

impl Clone for VirtualBoxUsbParseResult {
    fn clone(&self) -> (r: Self)
        ensures
            r@ == self@,
    {
        self.duplicate()
    }
}

/// How surely a physical device was found.
#[derive(Clone, Copy, Debug, Eq, PartialEq, Structural)]
pub enum UsbCorrelationState {
    Exact,
    Unambiguous,
    Ambiguous,
    Unavailable,
}

/// Which USB device a physical device is.
#[derive(Debug, Eq, PartialEq)]
pub struct UsbCorrelation {
    pub physical_device_id: String,
    pub container_id: Option<String>,
    pub state: UsbCorrelationState,
    pub matched_uuid: Option<String>,
    pub candidate_uuids: Vec<String>,
    pub reason: String,
}

/// The model of [`UsbCorrelation`].
#[verifier::ext_equal]
pub struct UsbCorrelationView {
    pub physical_device_id: Text,
    pub container_id: Option<Text>,
    pub state: UsbCorrelationState,
    pub matched_uuid: Option<Text>,
    pub candidate_uuids: Seq<Text>,
    pub reason: Text,
}

impl View for UsbCorrelation {
    type V = UsbCorrelationView;

    open spec fn view(&self) -> UsbCorrelationView {
        UsbCorrelationView {
            physical_device_id: self.physical_device_id@,
            container_id: model::opt_text(self.container_id),
            state: self.state,
            matched_uuid: model::opt_text(self.matched_uuid),
            candidate_uuids: model::texts(self.candidate_uuids@),
            reason: self.reason@,
        }
    }
}

impl Duplicate for UsbCorrelation {
    fn duplicate(&self) -> (r: Self) {
        UsbCorrelation {
            physical_device_id: self.physical_device_id.clone(),
            container_id: copy_opt(&self.container_id),
            state: self.state,
            matched_uuid: copy_opt(&self.matched_uuid),
            candidate_uuids: copy_all(&self.candidate_uuids),
            reason: self.reason.clone(),
        }
    }
}

impl Clone for UsbCorrelation {
    fn clone(&self) -> (r: Self)
        ensures
            r@ == self@,
    {
        self.duplicate()
    }
}

// ---- Correlation -----------------------------------------------------------------------

impl VirtualBoxUsbDeviceView {
    /// Whether the device has a vendor and a product.
    pub open spec fn has_ids(self, vendor: Text, product: Text) -> bool {
        model::is_ignoring_case(self.vendor_id, vendor) && model::is_ignoring_case(
            self.product_id,
            product,
        )
    }

    /// Whether the device has a serial number.
    pub open spec fn has_serial(self, serial: Text) -> bool {
        model::is_ignoring_case(self.serial_number, serial)
    }
}

/// The devices with a vendor and a product, in their order.
pub open spec fn with_ids(
    devices: Seq<VirtualBoxUsbDeviceView>,
    vendor: Text,
    product: Text,
) -> Seq<VirtualBoxUsbDeviceView> {
    devices.filter(|device: VirtualBoxUsbDeviceView| device.has_ids(vendor, product))
}

/// The devices with a serial number, in their order.
pub open spec fn with_serial(
    devices: Seq<VirtualBoxUsbDeviceView>,
    serial: Text,
) -> Seq<VirtualBoxUsbDeviceView> {
    devices.filter(|device: VirtualBoxUsbDeviceView| device.has_serial(serial))
}

/// The identifiers of devices.
pub open spec fn uuids(devices: Seq<VirtualBoxUsbDeviceView>) -> Seq<Text> {
    devices.map_values(|device: VirtualBoxUsbDeviceView| device.uuid)
}

/// A correlation that names no device.
pub open spec fn unmatched(
    physical: PhysicalInputDeviceView,
    state: UsbCorrelationState,
    candidates: Seq<VirtualBoxUsbDeviceView>,
    reason: Text,
) -> UsbCorrelationView {
    UsbCorrelationView {
        physical_device_id: physical.id,
        container_id: physical.container_id,
        state,
        matched_uuid: None,
        candidate_uuids: uuids(candidates),
        reason,
    }
}

/// A correlation that names a device.
pub open spec fn matched(
    physical: PhysicalInputDeviceView,
    state: UsbCorrelationState,
    device: VirtualBoxUsbDeviceView,
    candidates: Seq<VirtualBoxUsbDeviceView>,
    reason: Text,
) -> UsbCorrelationView {
    UsbCorrelationView {
        matched_uuid: Some(device.uuid),
        ..unmatched(physical, state, candidates, reason)
    }
}

/// Which of the candidates a physical device is: the one with its serial number, else the only
/// candidate, else none.
pub open spec fn chosen(
    physical: PhysicalInputDeviceView,
    candidates: Seq<VirtualBoxUsbDeviceView>,
) -> UsbCorrelationView {
    let same_serial = match physical.serial_number {
        Some(serial) => with_serial(candidates, serial),
        None => seq![],
    };
    if candidates.len() == 0 {
        unmatched(
            physical,
            UsbCorrelationState::Unavailable,
            seq![],
            "no VirtualBox USB device has matching VID/PID"@,
        )
    } else if same_serial.len() == 1 {
        matched(
            physical,
            UsbCorrelationState::Exact,
            same_serial[0],
            candidates,
            "unique serial-number match within the VID/PID candidates"@,
        )
    } else if same_serial.len() > 1 {
        unmatched(
            physical,
            UsbCorrelationState::Ambiguous,
            same_serial,
            "multiple VirtualBox devices share VID/PID and serial number"@,
        )
    } else if candidates.len() == 1 {
        matched(
            physical,
            UsbCorrelationState::Unambiguous,
            candidates[0],
            candidates,
            "only one VirtualBox USB candidate has matching VID/PID"@,
        )
    } else {
        unmatched(
            physical,
            UsbCorrelationState::Ambiguous,
            candidates,
            "multiple VirtualBox USB devices share VID/PID without a unique serial match"@,
        )
    }
}

/// Which USB device a physical device is.
pub open spec fn correlated(
    physical: PhysicalInputDeviceView,
    virtual_box: VirtualBoxStatusView,
) -> UsbCorrelationView {
    if !virtual_box.installed || !virtual_box.operational {
        unmatched(
            physical,
            UsbCorrelationState::Unavailable,
            seq![],
            "VirtualBox USB discovery is unavailable"@,
        )
    } else {
        match (physical.vendor_id, physical.product_id) {
            (Some(vendor), Some(product)) => chosen(
                physical,
                with_ids(virtual_box.usb_devices, vendor, product),
            ),
            _ => unmatched(
                physical,
                UsbCorrelationState::Unavailable,
                seq![],
                "Windows device has no VID/PID"@,
            ),
        }
    }
}

proof fn lemma_filter_step<A>(s: Seq<A>, keep: spec_fn(A) -> bool, i: int)
    requires
        0 <= i < s.len(),
    ensures
        s.take(i + 1).filter(keep) == (if keep(s[i]) {
            s.take(i).filter(keep).push(s[i])
        } else {
            s.take(i).filter(keep)
        }),
{
    reveal(Seq::filter);
    assert(s.take(i + 1).drop_last() == s.take(i));
    assert(s.take(i + 1).last() == s[i]);
}

fn select_ids(devices: &Vec<VirtualBoxUsbDevice>, vendor: &str, product: &str) -> (r: Vec<
    VirtualBoxUsbDevice,
>)
    ensures
        duplicate::views(r@) == with_ids(duplicate::views(devices@), vendor@, product@),
{
    let ghost all = duplicate::views(devices@);
    let ghost keep = |device: VirtualBoxUsbDeviceView| device.has_ids(vendor@, product@);
    let mut found: Vec<VirtualBoxUsbDevice> = Vec::new();
    let mut i: usize = 0;
    proof {
        reveal(Seq::filter);
        assert(all.take(0).filter(keep) == Seq::<VirtualBoxUsbDeviceView>::empty());
        assert(duplicate::views(found@) == Seq::<VirtualBoxUsbDeviceView>::empty());
    }
    while i < devices.len()
        invariant
            i <= devices@.len(),
            all == duplicate::views(devices@),
            keep == (|device: VirtualBoxUsbDeviceView| device.has_ids(vendor@, product@)),
            duplicate::views(found@) == all.take(i as int).filter(keep),
        decreases devices.len() - i,
    {
        let device = &devices[i];
        proof {
            lemma_filter_step(all, keep, i as int);
            assert(all[i as int] == device@);
        }
        if opt_is_any_case(opt(&device.vendor_id), vendor) && opt_is_any_case(
            opt(&device.product_id),
            product,
        ) {
            let ghost before = found@;
            found.push(device.duplicate());
            assert(duplicate::views(found@) == duplicate::views(before).push(device@));
        }
        i += 1;
    }
    assert(all.take(i as int) == all);
    found
}

fn select_serial(devices: &Vec<VirtualBoxUsbDevice>, serial: &str) -> (r: Vec<VirtualBoxUsbDevice>)
    ensures
        duplicate::views(r@) == with_serial(duplicate::views(devices@), serial@),
{
    let ghost all = duplicate::views(devices@);
    let ghost keep = |device: VirtualBoxUsbDeviceView| device.has_serial(serial@);
    let mut found: Vec<VirtualBoxUsbDevice> = Vec::new();
    let mut i: usize = 0;
    proof {
        reveal(Seq::filter);
        assert(all.take(0).filter(keep) == Seq::<VirtualBoxUsbDeviceView>::empty());
        assert(duplicate::views(found@) == Seq::<VirtualBoxUsbDeviceView>::empty());
    }
    while i < devices.len()
        invariant
            i <= devices@.len(),
            all == duplicate::views(devices@),
            keep == (|device: VirtualBoxUsbDeviceView| device.has_serial(serial@)),
            duplicate::views(found@) == all.take(i as int).filter(keep),
        decreases devices.len() - i,
    {
        let device = &devices[i];
        proof {
            lemma_filter_step(all, keep, i as int);
            assert(all[i as int] == device@);
        }
        if opt_is_any_case(opt(&device.serial_number), serial) {
            let ghost before = found@;
            found.push(device.duplicate());
            assert(duplicate::views(found@) == duplicate::views(before).push(device@));
        }
        i += 1;
    }
    assert(all.take(i as int) == all);
    found
}

fn opt(text: &Option<String>) -> (r: Option<&str>)
    ensures
        model::opt_str(r) == model::opt_text(*text),
{
    as_opt_str(text)
}

fn uuids_of(devices: &Vec<VirtualBoxUsbDevice>) -> (r: Vec<String>)
    ensures
        model::texts(r@) == uuids(duplicate::views(devices@)),
{
    let mut found: Vec<String> = Vec::new();
    let mut i: usize = 0;
    while i < devices.len()
        invariant
            i <= devices@.len(),
            model::texts(found@) == uuids(duplicate::views(devices@)).take(i as int),
        decreases devices.len() - i,
    {
        let ghost before = found@;
        found.push(devices[i].uuid.clone());
        proof {
            let all = uuids(duplicate::views(devices@));
            assert(all[i as int] == devices@[i as int].uuid@);
            assert(model::texts(found@) =~= model::texts(before).push(all[i as int]));
            assert(all.take(i + 1) =~= all.take(i as int).push(all[i as int]));
        }
        i += 1;
    }
    assert(uuids(duplicate::views(devices@)).take(i as int) =~= uuids(
        duplicate::views(devices@),
    ));
    found
}

fn ambiguous_result(
    physical: &PhysicalInputDevice,
    state: UsbCorrelationState,
    candidates: &Vec<VirtualBoxUsbDevice>,
    reason: &str,
) -> (r: UsbCorrelation)
    ensures
        r@ == unmatched(physical@, state, duplicate::views(candidates@), reason@),
{
    UsbCorrelation {
        physical_device_id: physical.id.clone(),
        container_id: copy_opt(&physical.container_id),
        state,
        matched_uuid: None,
        candidate_uuids: uuids_of(candidates),
        reason: reason.to_owned(),
    }
}

fn correlation_result(
    physical: &PhysicalInputDevice,
    state: UsbCorrelationState,
    device: &VirtualBoxUsbDevice,
    candidates: &Vec<VirtualBoxUsbDevice>,
    reason: &str,
) -> (r: UsbCorrelation)
    ensures
        r@ == matched(physical@, state, device@, duplicate::views(candidates@), reason@),
{
    UsbCorrelation {
        physical_device_id: physical.id.clone(),
        container_id: copy_opt(&physical.container_id),
        state,
        matched_uuid: Some(device.uuid.clone()),
        candidate_uuids: uuids_of(candidates),
        reason: reason.to_owned(),
    }
}

fn unavailable(physical: &PhysicalInputDevice, reason: &str) -> (r: UsbCorrelation)
    ensures
        r@ == unmatched(physical@, UsbCorrelationState::Unavailable, seq![], reason@),
{
    let none: Vec<VirtualBoxUsbDevice> = Vec::new();
    assert(duplicate::views(none@) == Seq::<VirtualBoxUsbDeviceView>::empty());
    ambiguous_result(physical, UsbCorrelationState::Unavailable, &none, reason)
}

/// Which USB device a physical device is.
pub fn correlate_usb_device(physical: &PhysicalInputDevice, virtual_box: &VirtualBoxStatus) -> (r:
    UsbCorrelation)
    ensures
        r@ == correlated(physical@, virtual_box@),
{
    if !virtual_box.installed || !virtual_box.operational {
        return unavailable(physical, "VirtualBox USB discovery is unavailable");
    }
    let (vendor, product) = match (&physical.vendor_id, &physical.product_id) {
        (Some(vendor), Some(product)) => (vendor, product),
        _ => {
            return unavailable(physical, "Windows device has no VID/PID");
        },
    };
    let candidates = select_ids(&virtual_box.usb_devices, vendor.as_str(), product.as_str());
    assert(duplicate::views(candidates@).len() == candidates@.len());
    if candidates.len() == 0 {
        return unavailable(physical, "no VirtualBox USB device has matching VID/PID");
    }
    if let Some(serial) = &physical.serial_number {
        let same_serial = select_serial(&candidates, serial.as_str());
        assert(duplicate::views(same_serial@).len() == same_serial@.len());
        if same_serial.len() == 1 {
            assert(duplicate::views(same_serial@)[0] == same_serial@[0]@);
            return correlation_result(
                physical,
                UsbCorrelationState::Exact,
                &same_serial[0],
                &candidates,
                "unique serial-number match within the VID/PID candidates",
            );
        }
        if same_serial.len() > 1 {
            return ambiguous_result(
                physical,
                UsbCorrelationState::Ambiguous,
                &same_serial,
                "multiple VirtualBox devices share VID/PID and serial number",
            );
        }
    }
    if candidates.len() == 1 {
        assert(duplicate::views(candidates@)[0] == candidates@[0]@);
        return correlation_result(
            physical,
            UsbCorrelationState::Unambiguous,
            &candidates[0],
            &candidates,
            "only one VirtualBox USB candidate has matching VID/PID",
        );
    }
    ambiguous_result(
        physical,
        UsbCorrelationState::Ambiguous,
        &candidates,
        "multiple VirtualBox USB devices share VID/PID without a unique serial match",
    )
}

/// Which USB device each physical device is.
pub fn correlate_usb_devices(
    physical_devices: &[PhysicalInputDevice],
    virtual_box: &VirtualBoxStatus,
) -> (r: Vec<UsbCorrelation>)
    ensures
        duplicate::views(r@) == duplicate::views(physical_devices@).map_values(
            |physical: PhysicalInputDeviceView| correlated(physical, virtual_box@),
        ),
{
    let ghost wanted = duplicate::views(physical_devices@).map_values(
        |physical: PhysicalInputDeviceView| correlated(physical, virtual_box@),
    );
    let mut found: Vec<UsbCorrelation> = Vec::new();
    let mut i: usize = 0;
    while i < physical_devices.len()
        invariant
            i <= physical_devices@.len(),
            wanted == duplicate::views(physical_devices@).map_values(
                |physical: PhysicalInputDeviceView| correlated(physical, virtual_box@),
            ),
            duplicate::views(found@) == wanted.take(i as int),
        decreases physical_devices.len() - i,
    {
        let ghost before = found@;
        found.push(correlate_usb_device(&physical_devices[i], virtual_box));
        proof {
            assert(wanted[i as int] == correlated(physical_devices@[i as int]@, virtual_box@));
            assert(duplicate::views(found@) =~= duplicate::views(before).push(wanted[i as int]));
            assert(wanted.take(i + 1) =~= wanted.take(i as int).push(wanted[i as int]));
        }
        i += 1;
    }
    assert(wanted.take(i as int) =~= wanted);
    found
}

// ---- The listing of `VBoxManage list usbhost` ------------------------------------------

/// Text without the copies of a nonempty prefix in front of it.
pub open spec fn without_prefixes(s: Text, prefix: Text) -> Text
    decreases s.len(),
{
    if prefix.len() > 0 && prefix.is_prefix_of(s) {
        without_prefixes(s.skip(prefix.len() as int), prefix)
    } else {
        s
    }
}

/// The four-digit identifier that a field states: the hexadecimal digits of its first word.
pub open spec fn hex_id(value: Text) -> Option<Text> {
    match model::first_word(value) {
        Some(token) => {
            let digits = model::leading(without_prefixes(token, "0x"@), model::hex_class());
            if digits.len() > 0 {
                Some(model::padded_left(model::upper(digits), '0', 4))
            } else {
                None
            }
        },
        None => None,
    }
}

/// A field that states something.
pub open spec fn stated_field(fields: Map<Text, Text>, key: Text) -> Option<Text> {
    match text_map::lookup(fields, key) {
        Some(value) => if value.len() > 0 && !model::same_ignoring_case(value, "none"@) {
            Some(value)
        } else {
            None
        },
        None => None,
    }
}

/// The identifier in a field.
pub open spec fn id_field(fields: Map<Text, Text>, key: Text) -> Option<Text> {
    match text_map::lookup(fields, key) {
        Some(value) => hex_id(value),
        None => None,
    }
}

/// The warning about a field that should hold an identifier.
pub open spec fn id_warning(fields: Map<Text, Text>, key: Text, uuid: Text) -> Seq<Text> {
    match text_map::lookup(fields, key) {
        Some(value) => if hex_id(value) is None {
            seq!["USB device "@ + uuid + " has an invalid "@ + key + " value '"@ + value + "'"@]
        } else {
            seq![]
        },
        None => seq![],
    }
}

/// What a listing has given so far.
#[verifier::ext_equal]
pub struct UsbListing {
    pub current: Option<Map<Text, Text>>,
    pub devices: Seq<VirtualBoxUsbDeviceView>,
    pub warnings: Seq<Text>,
}

/// The device that the fields of a record describe.
pub open spec fn record_device(fields: Map<Text, Text>, uuid: Text) -> VirtualBoxUsbDeviceView {
    VirtualBoxUsbDeviceView {
        uuid,
        vendor_id: id_field(fields, "vendorid"@),
        product_id: id_field(fields, "productid"@),
        revision: stated_field(fields, "revision"@),
        port: stated_field(fields, "port"@),
        usb_version_speed: stated_field(fields, "usb version/speed"@),
        manufacturer: stated_field(fields, "manufacturer"@),
        product: stated_field(fields, "product"@),
        serial_number: stated_field(fields, "serialnumber"@),
        address: stated_field(fields, "address"@),
        current_state: stated_field(fields, "current state"@),
    }
}

/// The listing with its open record closed. A record without an identifier gives a warning
/// in place of a device.
pub open spec fn closed_record(listing: UsbListing) -> UsbListing {
    match listing.current {
        None => listing,
        Some(fields) => match text_map::lookup(fields, "uuid"@) {
            Some(uuid) => if uuid.len() > 0 {
                UsbListing {
                    current: None,
                    devices: listing.devices.push(record_device(fields, uuid)),
                    warnings: listing.warnings + id_warning(fields, "vendorid"@, uuid) + id_warning(
                        fields,
                        "productid"@,
                        uuid,
                    ),
                }
            } else {
                unnamed_record(listing)
            },
            None => unnamed_record(listing),
        },
    }
}

pub open spec fn unnamed_record(listing: UsbListing) -> UsbListing {
    UsbListing {
        current: None,
        devices: listing.devices,
        warnings: listing.warnings.push("ignored VBoxManage USB record with an empty UUID"@),
    }
}

/// The listing after one more line. A line that starts with `UUID:` opens a record, and any
/// other `key: value` line belongs to the open one.
pub open spec fn after_line(listing: UsbListing, line: Text) -> UsbListing {
    match model::split_once(model::trimmed(line), ":"@) {
        None => listing,
        Some((left, right)) => {
            let key = model::lower(model::trimmed(left));
            let value = model::trimmed(right);
            if key == "uuid"@ {
                UsbListing {
                    current: Some(Map::empty().insert("uuid"@, value)),
                    ..closed_record(listing)
                }
            } else {
                match listing.current {
                    Some(fields) => UsbListing {
                        current: Some(fields.insert(key, value)),
                        ..listing
                    },
                    None => listing,
                }
            }
        },
    }
}

/// The listing after some lines.
pub open spec fn after_lines(lines: Seq<Text>) -> UsbListing
    decreases lines.len(),
{
    if lines.len() == 0 {
        UsbListing { current: None, devices: seq![], warnings: seq![] }
    } else {
        after_line(after_lines(lines.drop_last()), lines.last())
    }
}

/// What a listing holds.
pub open spec fn usb_listing(output: Text) -> VirtualBoxUsbParseResultView {
    let listing = closed_record(after_lines(model::lines(output)));
    VirtualBoxUsbParseResultView { devices: listing.devices, warnings: listing.warnings }
}

fn strip_all(text: &str, prefix: &str) -> (r: String)
    requires
        prefix@.len() > 0,
    ensures
        r@ == without_prefixes(text@, prefix@),
{
    let mut rest = text.to_owned();
    loop
        invariant
            prefix@.len() > 0,
            without_prefixes(rest@, prefix@) == without_prefixes(text@, prefix@),
        decreases rest@.len(),
    {
        match strip_start(rest.as_str(), prefix) {
            Some(shorter) => {
                rest = shorter;
            },
            None => {
                return rest;
            },
        }
    }
}

/// The four-digit identifier that a field states.
pub fn parse_hex_id(value: &str) -> (r: Option<String>)
    ensures
        model::opt_text(r) == hex_id(value@),
{
    let token = match word(value) {
        Some(token) => token,
        None => {
            return None;
        },
    };
    proof {
        reveal_strlit("0x");
    }
    let bare = strip_all(token.as_str(), "0x");
    let digits = take_class(bare.as_str(), Class::Hex);
    if digits.as_str().is_empty() {
        None
    } else {
        let upper = to_upper(digits.as_str());
        Some(pad_left(upper.as_str(), '0', 4))
    }
}

fn parsed_hex_field(
    fields: &TextMap<String>,
    key: &str,
    uuid: &str,
    warnings: &mut Vec<String>,
) -> (r: Option<String>)
    ensures
        model::opt_text(r) == id_field(text_map::text_values(fields@), key@),
        model::texts(final(warnings)@) == model::texts(old(warnings)@) + id_warning(
            text_map::text_values(fields@),
            key@,
            uuid@,
        ),
{
    let value = match fields.get(key) {
        Some(value) => value,
        None => {
            assert(model::texts(warnings@) + seq![] =~= model::texts(warnings@));
            return None;
        },
    };
    let parsed = parse_hex_id(value.as_str());
    if parsed.is_none() {
        let warning = concat7(
            "USB device ",
            uuid,
            " has an invalid ",
            key,
            " value '",
            value.as_str(),
            "'",
        );
        warnings.push(warning);
        assert(model::texts(warnings@) =~= model::texts(old(warnings)@) + seq![warning@]);
    } else {
        assert(model::texts(warnings@) + seq![] =~= model::texts(warnings@));
    }
    parsed
}

fn optional_field(fields: &TextMap<String>, key: &str) -> (r: Option<String>)
    ensures
        model::opt_text(r) == stated_field(text_map::text_values(fields@), key@),
{
    match fields.get(key) {
        Some(value) => if !value.as_str().is_empty() && !same_any_case(value.as_str(), "none") {
            Some(value.clone())
        } else {
            None
        },
        None => None,
    }
}

/// What the parser holds stands for the listing so far.
spec fn holds(
    current: Option<TextMap<String>>,
    result: VirtualBoxUsbParseResult,
    listing: UsbListing,
) -> bool {
    &&& match (current, listing.current) {
        (Some(map), Some(fields)) => text_map::text_values(map@) == fields,
        (None, None) => true,
        _ => false,
    }
    &&& result@.devices == listing.devices
    &&& result@.warnings == listing.warnings
}

fn finish_usb_record(fields: &TextMap<String>, result: &mut VirtualBoxUsbParseResult)
    ensures
        ({
            let listing = closed_record(
                UsbListing {
                    current: Some(text_map::text_values(fields@)),
                    devices: old(result)@.devices,
                    warnings: old(result)@.warnings,
                },
            );
            final(result)@.devices == listing.devices && final(result)@.warnings
                == listing.warnings
        }),
{
    let uuid = match fields.get("uuid") {
        Some(value) => if value.as_str().is_empty() {
            None
        } else {
            Some(value.clone())
        },
        None => None,
    };
    let uuid = match uuid {
        Some(uuid) => uuid,
        None => {
            let ghost before = result.warnings@;
            result.warnings.push("ignored VBoxManage USB record with an empty UUID".to_owned());
            assert(model::texts(result.warnings@) =~= model::texts(before).push(
                "ignored VBoxManage USB record with an empty UUID"@,
            ));
            return ;
        },
    };
    let vendor_id = parsed_hex_field(fields, "vendorid", uuid.as_str(), &mut result.warnings);
    let product_id = parsed_hex_field(fields, "productid", uuid.as_str(), &mut result.warnings);
    let device = VirtualBoxUsbDevice {
        uuid,
        vendor_id,
        product_id,
        revision: optional_field(fields, "revision"),
        port: optional_field(fields, "port"),
        usb_version_speed: optional_field(fields, "usb version/speed"),
        manufacturer: optional_field(fields, "manufacturer"),
        product: optional_field(fields, "product"),
        serial_number: optional_field(fields, "serialnumber"),
        address: optional_field(fields, "address"),
        current_state: optional_field(fields, "current state"),
    };
    let ghost before = result.devices@;
    result.devices.push(device);
    assert(duplicate::views(result.devices@) =~= duplicate::views(before).push(device@));
}

fn read_line(line: &str, current: Option<TextMap<String>>, result: &mut VirtualBoxUsbParseResult)
    -> (r: Option<TextMap<String>>)
    ensures
        forall|listing: UsbListing|
            holds(current, *old(result), listing) ==> holds(
                r,
                *final(result),
                #[trigger] after_line(listing, line@),
            ),
{
    let trimmed = trim(line);
    let (left, right) = match split_at_first(trimmed.as_str(), ":") {
        Some(parts) => parts,
        None => {
            return current;
        },
    };
    let left = trim(left.as_str());
    let key = to_lower(left.as_str());
    let value = trim(right.as_str());
    if same(key.as_str(), "uuid") {
        if let Some(fields) = &current {
            finish_usb_record(fields, result);
        }
        let mut fields: TextMap<String> = TextMap::new();
        fields.insert("uuid", value);
        assert(text_map::text_values(fields@) =~= Map::empty().insert("uuid"@, value@));
        Some(fields)
    } else {
        match current {
            Some(fields) => {
                let mut fields = fields;
                let ghost before = fields@;
                fields.insert(key.as_str(), value);
                assert(text_map::text_values(fields@) =~= text_map::text_values(before).insert(
                    key@,
                    value@,
                ));
                Some(fields)
            },
            None => None,
        }
    }
}

/// Reads the output of `VBoxManage list usbhost`.
pub fn parse_virtualbox_usbhost(output: &str) -> (r: VirtualBoxUsbParseResult)
    ensures
        r@ == usb_listing(output@),
{
    let mut result = VirtualBoxUsbParseResult { devices: Vec::new(), warnings: Vec::new() };
    let mut current: Option<TextMap<String>> = None;
    let lines = lines_of(output);
    let ghost all = model::texts(lines@);
    let mut i: usize = 0;
    proof {
        assert(all.take(0) =~= Seq::<Text>::empty());
        assert(result@.devices =~= Seq::<VirtualBoxUsbDeviceView>::empty());
        assert(result@.warnings =~= Seq::<Text>::empty());
    }
    while i < lines.len()
        invariant
            i <= lines@.len(),
            all == model::texts(lines@),
            holds(current, result, after_lines(all.take(i as int))),
        decreases lines.len() - i,
    {
        proof {
            assert(all.take(i + 1).drop_last() =~= all.take(i as int));
            assert(all.take(i + 1).last() == lines@[i as int]@);
        }
        current = read_line(lines[i].as_str(), current, &mut result);
        i += 1;
    }
    assert(all.take(i as int) =~= all);
    if let Some(fields) = &current {
        finish_usb_record(fields, &mut result);
    }
    result
}

// ---- Laws ------------------------------------------------------------------------------

/// Whether a line is a `key: value` line. A blank line is none.
pub open spec fn is_field(line: Text) -> bool {
    model::split_once(model::trimmed(line), ":"@) is Some
}

/// Whether a line opens a record.
pub open spec fn opens_record(line: Text) -> bool {
    &&& is_field(line)
    &&& model::lower(model::trimmed((model::split_once(model::trimmed(line), ":"@)->0).0))
        == "uuid"@
}

/// Whether some line opens a record.
pub open spec fn has_record(lines: Seq<Text>) -> bool {
    exists|j: int| 0 <= j < lines.len() && opens_record(#[trigger] lines[j])
}

/// Whether the first of the `key: value` lines, where there are any, opens a record.
pub open spec fn begins_with_record(lines: Seq<Text>) -> bool {
    forall|k: int|
        0 <= k < lines.len() && is_field(#[trigger] lines[k]) && !opens_record(lines[k])
            ==> has_record(lines.take(k))
}

proof fn lemma_records_apart(a: Seq<Text>, b: Seq<Text>)
    requires
        begins_with_record(b),
    ensures
        ({
            let before = after_lines(a);
            let alone = after_lines(b);
            let both = after_lines(a + b);
            if has_record(b) {
                &&& alone.current is Some
                &&& both.current == alone.current
                &&& both.devices == closed_record(before).devices + alone.devices
                &&& both.warnings == closed_record(before).warnings + alone.warnings
            } else {
                &&& alone == after_lines(seq![])
                &&& both == before
            }
        }),
    decreases b.len(),
{
    if b.len() == 0 {
        assert(a + b =~= a);
        assert(b =~= seq![]);
    } else {
        let shorter = b.drop_last();
        let line = b.last();
        let last = b.len() - 1;
        assert((a + b).drop_last() =~= a + shorter);
        assert((a + b).last() == line);
        assert forall|k: int|
            0 <= k < shorter.len() && is_field(#[trigger] shorter[k]) && !opens_record(
                shorter[k],
            ) implies has_record(shorter.take(k)) by {
            assert(b[k] == shorter[k]);
            assert(b.take(k) =~= shorter.take(k));
        }
        lemma_records_apart(a, shorter);
        assert(b.take(last) =~= shorter);
        assert(b[last] == line);
        if has_record(shorter) {
            let j = choose|j: int| 0 <= j < shorter.len() && opens_record(#[trigger] shorter[j]);
            assert(opens_record(b[j]));
        }
        if opens_record(line) {
            assert(has_record(b));
        } else if has_record(b) {
            let j = choose|j: int| 0 <= j < b.len() && opens_record(#[trigger] b[j]);
            assert(shorter[j] == b[j]);
            assert(has_record(shorter));
        }
        let before = after_lines(a);
        let alone = after_lines(shorter);
        let both = after_lines(a + shorter);
        assert(after_lines(b) == after_line(alone, line));
        assert(after_lines(a + b) == after_line(both, line));
        if has_record(shorter) && opens_record(line) {
            lemma_closed_apart(closed_record(before), alone, both);
        }
        assert(closed_record(before).devices + seq![] =~= closed_record(before).devices);
        assert(closed_record(before).warnings + seq![] =~= closed_record(before).warnings);
    }
}

proof fn lemma_closed_apart(before: UsbListing, alone: UsbListing, both: UsbListing)
    requires
        both.current == alone.current,
        both.devices == before.devices + alone.devices,
        both.warnings == before.warnings + alone.warnings,
    ensures
        closed_record(both).devices == before.devices + closed_record(alone).devices,
        closed_record(both).warnings == before.warnings + closed_record(alone).warnings,
{
    assert(closed_record(both).devices =~= before.devices + closed_record(alone).devices);
    assert(closed_record(both).warnings =~= before.warnings + closed_record(alone).warnings);
}

/// The records of a listing are read independently of each other. Where one listing ends with a
/// line feed, or is empty, and the next begins with a record, the two of them together give the
/// devices of the one and then those of the other, and so with the warnings.
pub proof fn law_records_are_independent(a: Text, b: Text)
    requires
        a.len() == 0 || a.last() == '\n',
        begins_with_record(model::lines(b)),
    ensures
        usb_listing(a + b).devices == usb_listing(a).devices + usb_listing(b).devices,
        usb_listing(a + b).warnings == usb_listing(a).warnings + usb_listing(b).warnings,
{
    model::lemma_lines_of_both(a, b);
    let first = model::lines(a);
    let second = model::lines(b);
    lemma_records_apart(first, second);
    let before = closed_record(after_lines(first));
    if has_record(second) {
        lemma_closed_apart(before, after_lines(second), after_lines(first + second));
    } else {
        assert(before.devices + seq![] =~= before.devices);
        assert(before.warnings + seq![] =~= before.warnings);
    }
}


/// Whether VirtualBox lists a USB device with an identifier and with the vendor and the product
/// of a physical device.
pub open spec fn is_listed(
    devices: Seq<VirtualBoxUsbDeviceView>,
    physical: PhysicalInputDeviceView,
    uuid: Text,
) -> bool {
    exists|i: int|
        0 <= i < devices.len() && (#[trigger] devices[i]).uuid == uuid && physical.vendor_id is Some
            && physical.product_id is Some && devices[i].has_ids(
            physical.vendor_id->0,
            physical.product_id->0,
        )
}

proof fn lemma_listed(
    devices: Seq<VirtualBoxUsbDeviceView>,
    physical: PhysicalInputDeviceView,
    device: VirtualBoxUsbDeviceView,
)
    requires
        physical.vendor_id is Some,
        physical.product_id is Some,
        with_ids(devices, physical.vendor_id->0, physical.product_id->0).contains(device),
    ensures
        is_listed(devices, physical, device.uuid),
{
    let keep = |found: VirtualBoxUsbDeviceView|
        found.has_ids(physical.vendor_id->0, physical.product_id->0);
    let candidates = with_ids(devices, physical.vendor_id->0, physical.product_id->0);
    let k = choose|k: int| 0 <= k < candidates.len() && candidates[k] == device;
    sequences::lemma_kept(devices, keep, k);
    let i = choose|i: int| 0 <= i < devices.len() && devices[i] == device;
    assert(devices[i].uuid == device.uuid);
}

/// A correlation never guesses. It names a USB device exactly where it is an exact or an
/// unambiguous one. The device that it names is one that VirtualBox lists, with the vendor and
/// the product of the physical device, and so is every candidate. An exact one rests on a
/// serial number that only one candidate has, an unambiguous one on there being one candidate
/// only, and an ambiguous one on there being several. Where VirtualBox is not at hand there is
/// none.
pub proof fn law_a_correlation_never_guesses(
    physical: PhysicalInputDeviceView,
    virtual_box: VirtualBoxStatusView,
)
    ensures
        ({
            let found = correlated(physical, virtual_box);
            let devices = virtual_box.usb_devices;
            let candidates = with_ids(devices, physical.vendor_id->0, physical.product_id->0);
            &&& found.physical_device_id == physical.id
            &&& found.matched_uuid is Some <==> (found.state == UsbCorrelationState::Exact
                || found.state == UsbCorrelationState::Unambiguous)
            &&& found.matched_uuid matches Some(uuid) ==> is_listed(devices, physical, uuid)
            &&& forall|i: int|
                0 <= i < found.candidate_uuids.len() ==> is_listed(
                    devices,
                    physical,
                    #[trigger] found.candidate_uuids[i],
                )
            &&& found.state == UsbCorrelationState::Exact ==> physical.serial_number is Some
                && with_serial(candidates, physical.serial_number->0).len() == 1
            &&& found.state == UsbCorrelationState::Unambiguous ==> candidates.len() == 1
            &&& found.state == UsbCorrelationState::Ambiguous ==> found.candidate_uuids.len() > 1
            &&& !virtual_box.installed || !virtual_box.operational ==> found.state
                == UsbCorrelationState::Unavailable && found.candidate_uuids.len() == 0
        }),
{
    let found = correlated(physical, virtual_box);
    let devices = virtual_box.usb_devices;
    if virtual_box.installed && virtual_box.operational && physical.vendor_id is Some
        && physical.product_id is Some {
        let candidates = with_ids(devices, physical.vendor_id->0, physical.product_id->0);
        if let Some(serial) = physical.serial_number {
            let keep = |device: VirtualBoxUsbDeviceView| device.has_serial(serial);
            let same_serial = with_serial(candidates, serial);
            assert forall|i: int| 0 <= i < same_serial.len() implies is_listed(
                devices,
                physical,
                (#[trigger] same_serial[i]).uuid,
            ) by {
                sequences::lemma_kept(candidates, keep, i);
                lemma_listed(devices, physical, same_serial[i]);
            }
        }
        assert forall|i: int| 0 <= i < candidates.len() implies is_listed(
            devices,
            physical,
            (#[trigger] candidates[i]).uuid,
        ) by {
            lemma_listed(devices, physical, candidates[i]);
        }
    }
}

} // verus!
