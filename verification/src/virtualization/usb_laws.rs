//! Which USB device a physical device is taken for, said of the fields that tell.
use super::usb;
use super::usb::{UsbCorrelationState, VirtualBoxStatusView, VirtualBoxUsbDeviceView};
use crate::devices::PhysicalInputDeviceView;
use crate::sequences;
use crate::text::laws;
use crate::text::model;
use crate::text::model::Text;
use vstd::prelude::*;

verus! {

/// Whether two values are there, and equal up to ASCII case.
pub open spec fn agree(a: Option<Text>, b: Option<Text>) -> bool {
    match (a, b) {
        (Some(x), Some(y)) => model::same_ignoring_case(x, y),
        _ => false,
    }
}

/// Whether a listed device is of the same make as a physical one: both state a vendor and a
/// product, and both agree.
pub open spec fn same_make(
    listed: VirtualBoxUsbDeviceView,
    physical: PhysicalInputDeviceView,
) -> bool {
    agree(listed.vendor_id, physical.vendor_id) && agree(listed.product_id, physical.product_id)
}

/// Whether the serial numbers of two devices agree.
pub open spec fn same_serial(
    listed: VirtualBoxUsbDeviceView,
    physical: PhysicalInputDeviceView,
) -> bool {
    agree(listed.serial_number, physical.serial_number)
}

proof fn lemma_makes(physical: PhysicalInputDeviceView, devices: Seq<VirtualBoxUsbDeviceView>)
    requires
        physical.vendor_id is Some,
        physical.product_id is Some,
    ensures
        usb::with_ids(devices, physical.vendor_id->0, physical.product_id->0) == devices.filter(
            |listed: VirtualBoxUsbDeviceView| same_make(listed, physical),
        ),
        physical.serial_number matches Some(serial) ==> usb::with_serial(
            usb::with_ids(devices, physical.vendor_id->0, physical.product_id->0),
            serial,
        ) == devices.filter(
            |listed: VirtualBoxUsbDeviceView|
                same_make(listed, physical) && same_serial(listed, physical),
        ),
{
    let vendor = physical.vendor_id->0;
    let product = physical.product_id->0;
    let has = |listed: VirtualBoxUsbDeviceView| listed.has_ids(vendor, product);
    let make = |listed: VirtualBoxUsbDeviceView| same_make(listed, physical);
    assert(has =~= make);
    if let Some(serial) = physical.serial_number {
        let numbered = |listed: VirtualBoxUsbDeviceView| listed.has_serial(serial);
        let both = |listed: VirtualBoxUsbDeviceView|
            same_make(listed, physical) && same_serial(listed, physical);
        sequences::lemma_both_pass(devices, make, numbered, both);
    }
}

/// Whether a text is the identifier of a listed device that is of the same make as a physical
/// one.
pub open spec fn is_of_make(
    devices: Seq<VirtualBoxUsbDeviceView>,
    physical: PhysicalInputDeviceView,
    uuid: Text,
) -> bool {
    exists|i: int|
        0 <= i < devices.len() && same_make(#[trigger] devices[i], physical) && devices[i].uuid
            == uuid
}

/// A listed device whose vendor or product is not stated, or differs from the physical device's,
/// is never the one that it is taken for, and never among the candidates: both have to agree.
pub proof fn law_vendor_and_product_both_agree(
    physical: PhysicalInputDeviceView,
    virtual_box: VirtualBoxStatusView,
)
    ensures
        ({
            let found = usb::correlated(physical, virtual_box);
            let devices = virtual_box.usb_devices;
            &&& (found.matched_uuid matches Some(uuid) ==> is_of_make(devices, physical, uuid))
            &&& forall|k: int|
                0 <= k < found.candidate_uuids.len() ==> is_of_make(
                    devices,
                    physical,
                    #[trigger] found.candidate_uuids[k],
                )
        }),
{
    let found = usb::correlated(physical, virtual_box);
    let devices = virtual_box.usb_devices;
    if virtual_box.installed && virtual_box.operational && physical.vendor_id is Some
        && physical.product_id is Some {
        lemma_makes(physical, devices);
        let make = |listed: VirtualBoxUsbDeviceView| same_make(listed, physical);
        let both = |listed: VirtualBoxUsbDeviceView|
            same_make(listed, physical) && same_serial(listed, physical);
        assert forall|k: int| 0 <= k < devices.filter(make).len() implies is_of_make(
            devices,
            physical,
            (#[trigger] devices.filter(make)[k]).uuid,
        ) by {
            sequences::lemma_kept(devices, make, k);
        }
        assert forall|k: int| 0 <= k < devices.filter(both).len() implies is_of_make(
            devices,
            physical,
            (#[trigger] devices.filter(both)[k]).uuid,
        ) by {
            sequences::lemma_kept(devices, both, k);
        }
    }
}

/// Where one listed device alone is of the same make as a physical one, it is the one: for sure
/// where the serial numbers agree too, and else without ambiguity. It is the only candidate.
pub proof fn law_the_only_one_of_its_make_is_found(
    physical: PhysicalInputDeviceView,
    virtual_box: VirtualBoxStatusView,
    i: int,
)
    requires
        virtual_box.installed,
        virtual_box.operational,
        0 <= i < virtual_box.usb_devices.len(),
        same_make(virtual_box.usb_devices[i], physical),
        forall|j: int|
            0 <= j < virtual_box.usb_devices.len() && j != i ==> !same_make(
                #[trigger] virtual_box.usb_devices[j],
                physical,
            ),
    ensures
        ({
            let found = usb::correlated(physical, virtual_box);
            let listed = virtual_box.usb_devices[i];
            &&& found.physical_device_id == physical.id
            &&& found.container_id == physical.container_id
            &&& found.matched_uuid == Some(listed.uuid)
            &&& found.candidate_uuids == seq![listed.uuid]
            &&& found.state == (if same_serial(listed, physical) {
                UsbCorrelationState::Exact
            } else {
                UsbCorrelationState::Unambiguous
            })
        }),
{
    let devices = virtual_box.usb_devices;
    let make = |listed: VirtualBoxUsbDeviceView| same_make(listed, physical);
    let both = |listed: VirtualBoxUsbDeviceView|
        same_make(listed, physical) && same_serial(listed, physical);
    lemma_makes(physical, devices);
    sequences::lemma_one_passes(devices, make, i);
    if same_serial(devices[i], physical) {
        sequences::lemma_one_passes(devices, both, i);
    } else {
        sequences::lemma_none_passes(devices, both);
    }
    assert(usb::correlated(physical, virtual_box).candidate_uuids =~= seq![devices[i].uuid]);
}

/// Where several listed devices are of the same make as a physical one, it is the one among them
/// with its serial number, where one alone has that. Else none is chosen, and every one of them
/// that has the serial number, or every one of them where none has, is a candidate.
pub proof fn law_several_of_a_make_are_told_apart_by_serial(
    physical: PhysicalInputDeviceView,
    virtual_box: VirtualBoxStatusView,
    i: int,
    j: int,
)
    requires
        virtual_box.installed,
        virtual_box.operational,
        0 <= i < j < virtual_box.usb_devices.len(),
        same_make(virtual_box.usb_devices[i], physical),
        same_make(virtual_box.usb_devices[j], physical),
    ensures
        ({
            let found = usb::correlated(physical, virtual_box);
            let devices = virtual_box.usb_devices;
            let numbered = |k: int|
                0 <= k < devices.len() && same_make(devices[k], physical) && same_serial(
                    devices[k],
                    physical,
                );
            &&& (forall|k: int| !#[trigger] numbered(k)) ==> {
                &&& found.state == UsbCorrelationState::Ambiguous
                &&& found.matched_uuid is None
                &&& found.candidate_uuids.contains(devices[i].uuid)
                &&& found.candidate_uuids.contains(devices[j].uuid)
            }
            &&& forall|k: int|
                #[trigger] numbered(k) && (forall|m: int| #[trigger] numbered(m) ==> m == k) ==> {
                    &&& found.state == UsbCorrelationState::Exact
                    &&& found.matched_uuid == Some(devices[k].uuid)
                    &&& found.candidate_uuids.contains(devices[i].uuid)
                    &&& found.candidate_uuids.contains(devices[j].uuid)
                }
            &&& numbered(i) && numbered(j) ==> {
                &&& found.state == UsbCorrelationState::Ambiguous
                &&& found.matched_uuid is None
                &&& found.candidate_uuids.contains(devices[i].uuid)
                &&& found.candidate_uuids.contains(devices[j].uuid)
            }
        }),
{
    let found = usb::correlated(physical, virtual_box);
    let devices = virtual_box.usb_devices;
    let make = |listed: VirtualBoxUsbDeviceView| same_make(listed, physical);
    let both = |listed: VirtualBoxUsbDeviceView|
        same_make(listed, physical) && same_serial(listed, physical);
    let numbered = |k: int|
        0 <= k < devices.len() && same_make(devices[k], physical) && same_serial(
            devices[k],
            physical,
        );
    lemma_makes(physical, devices);
    sequences::lemma_two_pass(devices, make, i, j);
    let candidates = devices.filter(make);
    lemma_listed(devices, make, i);
    lemma_listed(devices, make, j);
    if forall|k: int| !#[trigger] numbered(k) {
        assert forall|k: int| 0 <= k < devices.len() implies !both(#[trigger] devices[k]) by {
            assert(!numbered(k));
        }
        sequences::lemma_none_passes(devices, both);
    }
    assert forall|k: int|
        #[trigger] numbered(k) && (forall|m: int| #[trigger] numbered(m) ==> m == k) implies {
        &&& found.state == UsbCorrelationState::Exact
        &&& found.matched_uuid == Some(devices[k].uuid)
        &&& found.candidate_uuids.contains(devices[i].uuid)
        &&& found.candidate_uuids.contains(devices[j].uuid)
    } by {
        assert forall|m: int| 0 <= m < devices.len() && m != k implies !both(
            #[trigger] devices[m],
        ) by {
            assert(numbered(m) ==> m == k);
        }
        sequences::lemma_one_passes(devices, both, k);
    }
    if numbered(i) && numbered(j) {
        sequences::lemma_two_pass(devices, both, i, j);
        lemma_listed(devices, both, i);
        lemma_listed(devices, both, j);
    }
}

proof fn lemma_listed(
    devices: Seq<VirtualBoxUsbDeviceView>,
    keep: spec_fn(VirtualBoxUsbDeviceView) -> bool,
    i: int,
)
    requires
        0 <= i < devices.len(),
        keep(devices[i]),
    ensures
        usb::uuids(devices.filter(keep)).contains(devices[i].uuid),
{
    sequences::lemma_passes(devices, keep, i);
    let left = devices.filter(keep);
    let k = choose|k: int| 0 <= k < left.len() && left[k] == devices[i];
    assert(usb::uuids(left)[k] == devices[i].uuid);
}

/// A listed device of another make makes no difference: a correlation is the same with it and
/// without it.
pub proof fn law_other_makes_make_no_difference(
    physical: PhysicalInputDeviceView,
    virtual_box: VirtualBoxStatusView,
    i: int,
)
    requires
        0 <= i < virtual_box.usb_devices.len(),
        !same_make(virtual_box.usb_devices[i], physical),
    ensures
        usb::correlated(
            physical,
            VirtualBoxStatusView {
                usb_devices: virtual_box.usb_devices.remove(i),
                ..virtual_box
            },
        ) == usb::correlated(physical, virtual_box),
{
    let devices = virtual_box.usb_devices;
    if physical.vendor_id is Some && physical.product_id is Some {
        let make = |listed: VirtualBoxUsbDeviceView| same_make(listed, physical);
        lemma_makes(physical, devices);
        lemma_makes(physical, devices.remove(i));
        sequences::lemma_left_out(devices, make, i);
    }
}

/// Where no listed device is of the same make as a physical one, where the physical one states
/// no vendor or no product, and where VirtualBox is not there or does not answer, no device is
/// chosen and there is no candidate.
pub proof fn law_nothing_of_its_make_is_nothing(
    physical: PhysicalInputDeviceView,
    virtual_box: VirtualBoxStatusView,
)
    requires
        virtual_box.installed && virtual_box.operational ==> forall|i: int|
            0 <= i < virtual_box.usb_devices.len() ==> !same_make(
                #[trigger] virtual_box.usb_devices[i],
                physical,
            ),
    ensures
        ({
            let found = usb::correlated(physical, virtual_box);
            &&& found.state == UsbCorrelationState::Unavailable
            &&& found.matched_uuid is None
            &&& found.candidate_uuids.len() == 0
            &&& found.physical_device_id == physical.id
        }),
{
    let devices = virtual_box.usb_devices;
    if virtual_box.installed && virtual_box.operational && physical.vendor_id is Some
        && physical.product_id is Some {
        let make = |listed: VirtualBoxUsbDeviceView| same_make(listed, physical);
        lemma_makes(physical, devices);
        sequences::lemma_none_passes(devices, make);
    }
}

// ---- Listings --------------------------------------------------------------------------

/// Whether a line states something under a name: the name, a colon, and what is stated.
pub open spec fn states(line: Text, name: Text, rest: Text) -> bool {
    &&& model::trimmed(line) == name + seq![':'] + rest
    &&& !laws::has_char(name, ':')
    &&& name.len() > 0
    &&& !model::is_space(name[0])
    &&& !model::is_space(name.last())
}

proof fn lemma_states(line: Text, name: Text, rest: Text)
    requires
        states(line, name, rest),
    ensures
        model::split_once(model::trimmed(line), ":"@) == Some((name, rest)),
        model::trimmed(name) == name,
{
    reveal_strlit(":");
    assert(":"@ =~= seq![':']);
    laws::law_splitting_finds_the_first_part(name, ':', rest);
    laws::law_trimming_is_done_once(name);
}

/// A line that states something is noted in the open record, under the name in lower case, and the
/// other things that the record holds stay. No device is listed by it. Where no record is open,
/// nothing is noted.
pub proof fn law_a_line_is_noted_in_its_record(
    lines: Seq<Text>,
    line: Text,
    name: Text,
    rest: Text,
    other: Text,
)
    requires
        states(line, name, rest),
        !model::same_ignoring_case(name, seq!['u', 'u', 'i', 'd']),
        other != model::lower(name),
    ensures
        ({
            let before = usb::after_lines(lines);
            let after = usb::after_lines(lines.push(line));
            &&& after.devices == before.devices
            &&& after.warnings == before.warnings
            &&& before.current is None ==> after.current is None
            &&& before.current matches Some(fields) ==> {
                &&& after.current is Some
                &&& after.current->0.contains_key(model::lower(name))
                &&& after.current->0[model::lower(name)] == model::trimmed(rest)
                &&& after.current->0.contains_key(other) <==> fields.contains_key(other)
                &&& fields.contains_key(other) ==> after.current->0[other] == fields[other]
            }
        }),
{
    reveal_strlit("uuid");
    assert("uuid"@ =~= seq!['u', 'u', 'i', 'd']);
    assert(model::lower("uuid"@) =~= "uuid"@);
    lemma_states(line, name, rest);
    assert(lines.push(line).drop_last() =~= lines);
}

/// A line that states an identifier ends the record before it and opens one that holds the
/// identifier alone. The record that was ended is one device more where it has an identifier, and
/// one warning more where it has none; the devices before it stay.
pub proof fn law_an_identifier_opens_a_record(
    lines: Seq<Text>,
    line: Text,
    name: Text,
    rest: Text,
)
    requires
        states(line, name, rest),
        model::same_ignoring_case(name, seq!['u', 'u', 'i', 'd']),
    ensures
        ({
            let before = usb::after_lines(lines);
            let after = usb::after_lines(lines.push(line));
            let n = before.devices.len() as int;
            &&& after.current == Some(
                Map::<Text, Text>::empty().insert(seq!['u', 'u', 'i', 'd'], model::trimmed(rest)),
            )
            &&& after.devices.len() >= n && after.devices.take(n) == before.devices
            &&& before.current is None ==> after.devices.len() == n
            &&& before.current matches Some(fields) ==> (if names_device(fields) {
                &&& after.devices.len() == n + 1
                &&& after.devices[n].uuid == fields[seq!['u', 'u', 'i', 'd']]
                &&& after.warnings.len() >= before.warnings.len()
            } else {
                &&& after.devices.len() == n
                &&& after.warnings.len() == before.warnings.len() + 1
            })
        }),
{
    reveal_strlit("uuid");
    assert("uuid"@ =~= seq!['u', 'u', 'i', 'd']);
    assert(model::lower("uuid"@) =~= "uuid"@);
    lemma_states(line, name, rest);
    assert(lines.push(line).drop_last() =~= lines);
    let before = usb::after_lines(lines);
    let after = usb::after_lines(lines.push(line));
    assert(after.devices.take(before.devices.len() as int) =~= before.devices);
}

/// Whether a record has an identifier.
pub open spec fn names_device(fields: Map<Text, Text>) -> bool {
    fields.contains_key(seq!['u', 'u', 'i', 'd']) && fields[seq!['u', 'u', 'i', 'd']].len() > 0
}

/// The end of a listing ends its last record as the next record would.
pub proof fn law_the_last_record_counts(output: Text)
    ensures
        ({
            let before = usb::after_lines(model::lines(output));
            let listing = usb::usb_listing(output);
            let n = before.devices.len() as int;
            &&& listing.devices.len() >= n && listing.devices.take(n) == before.devices
            &&& before.current is None ==> listing.devices.len() == n
            &&& before.current matches Some(fields) ==> if names_device(fields) {
                listing.devices.len() == n + 1 && listing.devices[n].uuid
                    == fields[seq!['u', 'u', 'i', 'd']]
            } else {
                listing.devices.len() == n && listing.warnings.len() == before.warnings.len() + 1
            }
        }),
{
    reveal_strlit("uuid");
    assert("uuid"@ =~= seq!['u', 'u', 'i', 'd']);
    let before = usb::after_lines(model::lines(output));
    let listing = usb::usb_listing(output);
    assert(listing.devices.take(before.devices.len() as int) =~= before.devices);
}

/// Whether a device has what a record states under a name, and nothing where it states nothing or
/// `none`.
pub open spec fn has_stated(found: Option<Text>, fields: Map<Text, Text>, name: Text) -> bool {
    &&& found is Some <==> fields.contains_key(name) && fields[name].len() > 0
        && !model::same_ignoring_case(fields[name], seq!['n', 'o', 'n', 'e'])
    &&& found is Some ==> found->0 == fields[name]
}

/// A device is what its record states, each thing under its own name.
pub proof fn law_a_device_is_what_its_record_states(fields: Map<Text, Text>, uuid: Text)
    ensures
        ({
            let device = usb::record_device(fields, uuid);
            &&& device.uuid == uuid
            &&& has_stated(device.revision, fields, "revision"@)
            &&& has_stated(device.port, fields, "port"@)
            &&& has_stated(device.usb_version_speed, fields, "usb version/speed"@)
            &&& has_stated(device.manufacturer, fields, "manufacturer"@)
            &&& has_stated(device.product, fields, "product"@)
            &&& has_stated(device.serial_number, fields, "serialnumber"@)
            &&& has_stated(device.address, fields, "address"@)
            &&& has_stated(device.current_state, fields, "current state"@)
            &&& !fields.contains_key("vendorid"@) ==> device.vendor_id is None
            &&& !fields.contains_key("productid"@) ==> device.product_id is None
        }),
{
    reveal_strlit("none");
    assert("none"@ =~= seq!['n', 'o', 'n', 'e']);
}

/// Whether a character is a hexadecimal digit.
pub open spec fn is_hex(c: char) -> bool {
    '0' <= c <= '9' || 'a' <= c <= 'f' || 'A' <= c <= 'F'
}

/// The vendor of a device is read from the digits that its record states under that name, and the
/// product likewise: what follows `0x` up to the first character that is no hexadecimal digit, in
/// upper case and filled up to four digits.
pub proof fn law_makes_are_read_from_their_digits(
    fields: Map<Text, Text>,
    uuid: Text,
    digits: Text,
    rest: Text,
)
    requires
        digits.len() > 0,
        forall|i: int| 0 <= i < digits.len() ==> is_hex(#[trigger] digits[i]),
        rest.len() == 0 || rest[0] == ' ',
    ensures
        ({
            let value = seq!['0', 'x'] + digits + rest;
            let read = model::padded_left(model::upper(digits), '0', 4);
            let device = usb::record_device(fields, uuid);
            &&& fields.contains_key("vendorid"@) && fields["vendorid"@] == value ==> device.vendor_id
                == Some(read)
            &&& fields.contains_key("productid"@) && fields["productid"@] == value
                ==> device.product_id == Some(read)
        }),
{
    reveal_strlit("0x");
    let head = seq!['0', 'x'];
    assert("0x"@ =~= head);
    let value = head + digits + rest;
    let token = head + digits;
    let hex = model::hex_class();
    let word = model::word_class();
    assert(value[0] == '0');
    assert(model::without_leading(value, model::space_class()) == value);
    assert forall|i: int| 0 <= i < token.len() implies word(#[trigger] token[i]) by {
        if i >= 2 {
            assert(token[i] == digits[i - 2]);
            assert(is_hex(digits[i - 2]));
        }
    }
    laws::lemma_leading(token, rest, word);
    assert(model::first_word(value) == Some(token));
    assert(head.is_prefix_of(token));
    assert(token.skip(2) =~= digits);
    if head.is_prefix_of(digits) {
        assert(digits[1] == 'x');
        assert(is_hex(digits[1]));
    }
    assert(usb::without_prefixes(digits, head) == digits);
    assert(usb::without_prefixes(token, head) == digits);
    assert forall|i: int| 0 <= i < digits.len() implies hex(#[trigger] digits[i]) by {
        assert(is_hex(digits[i]));
    }
    laws::lemma_leading(digits, seq![], hex);
    assert(digits + Seq::<char>::empty() =~= digits);
    assert(usb::hex_id(value) == Some(model::padded_left(model::upper(digits), '0', 4)));
}

} // verus!
