//! Physical input devices and the logical nodes that they present.
use crate::duplicate;
use crate::duplicate::{duplicate_all, Duplicate};
use crate::text::compose::{copy_all, copy_opt};
use crate::text::model;
use crate::text::model::Text;
use crate::text::scan::same_any_case;
use vstd::prelude::*;

verus! {

/// What a logical node reports.
#[derive(Clone, Copy, Debug, Eq, PartialEq, Structural)]
pub enum InputDeviceType {
    Keyboard,
    Mouse,
}

/// Which kinds of input a device can give.
#[derive(Clone, Copy, Debug, Eq, PartialEq, Structural)]
pub struct InputCapabilities {
    pub keyboard: bool,
    pub mouse: bool,
}

/// One logical input node of the operating system.
#[derive(Debug, Eq, PartialEq)]
pub struct InputDevice {
    pub id: String,
    pub device_path: Option<String>,
    pub instance_id: String,
    pub container_id: Option<String>,
    pub friendly_name: Option<String>,
    pub manufacturer: Option<String>,
    pub hardware_ids: Vec<String>,
    pub enumerator: Option<String>,
    pub device_type: InputDeviceType,
    pub vendor_id: Option<String>,
    pub product_id: Option<String>,
    pub usb_parent_instance_id: Option<String>,
    pub serial_number: Option<String>,
}

/// The model of [`InputDevice`].
#[verifier::ext_equal]
pub struct InputDeviceView {
    pub id: Text,
    pub device_path: Option<Text>,
    pub instance_id: Text,
    pub container_id: Option<Text>,
    pub friendly_name: Option<Text>,
    pub manufacturer: Option<Text>,
    pub hardware_ids: Seq<Text>,
    pub enumerator: Option<Text>,
    pub device_type: InputDeviceType,
    pub vendor_id: Option<Text>,
    pub product_id: Option<Text>,
    pub usb_parent_instance_id: Option<Text>,
    pub serial_number: Option<Text>,
}

impl View for InputDevice {
    type V = InputDeviceView;

    open spec fn view(&self) -> InputDeviceView {
        InputDeviceView {
            id: self.id@,
            device_path: model::opt_text(self.device_path),
            instance_id: self.instance_id@,
            container_id: model::opt_text(self.container_id),
            friendly_name: model::opt_text(self.friendly_name),
            manufacturer: model::opt_text(self.manufacturer),
            hardware_ids: model::texts(self.hardware_ids@),
            enumerator: model::opt_text(self.enumerator),
            device_type: self.device_type,
            vendor_id: model::opt_text(self.vendor_id),
            product_id: model::opt_text(self.product_id),
            usb_parent_instance_id: model::opt_text(self.usb_parent_instance_id),
            serial_number: model::opt_text(self.serial_number),
        }
    }
}

impl Duplicate for InputDevice {
    fn duplicate(&self) -> (r: Self) {
        InputDevice {
            id: self.id.clone(),
            device_path: copy_opt(&self.device_path),
            instance_id: self.instance_id.clone(),
            container_id: copy_opt(&self.container_id),
            friendly_name: copy_opt(&self.friendly_name),
            manufacturer: copy_opt(&self.manufacturer),
            hardware_ids: copy_all(&self.hardware_ids),
            enumerator: copy_opt(&self.enumerator),
            device_type: self.device_type,
            vendor_id: copy_opt(&self.vendor_id),
            product_id: copy_opt(&self.product_id),
            usb_parent_instance_id: copy_opt(&self.usb_parent_instance_id),
            serial_number: copy_opt(&self.serial_number),
        }
    }
}

impl Clone for InputDevice {
    fn clone(&self) -> (r: Self)
        ensures
            r@ == self@,
    {
        self.duplicate()
    }
}

/// A device on the desk, with the logical nodes that belong to it.
#[derive(Debug, Eq, PartialEq)]
pub struct PhysicalInputDevice {
    pub id: String,
    pub container_id: Option<String>,
    pub friendly_name: Option<String>,
    pub manufacturer: Option<String>,
    pub vendor_id: Option<String>,
    pub product_id: Option<String>,
    pub usb_parent_instance_id: Option<String>,
    pub serial_number: Option<String>,
    pub capabilities: InputCapabilities,
    pub logical_nodes: Vec<InputDevice>,
    pub raw_input_paths: Vec<String>,
    pub present: bool,
}

/// The model of [`PhysicalInputDevice`].
#[verifier::ext_equal]
pub struct PhysicalInputDeviceView {
    pub id: Text,
    pub container_id: Option<Text>,
    pub friendly_name: Option<Text>,
    pub manufacturer: Option<Text>,
    pub vendor_id: Option<Text>,
    pub product_id: Option<Text>,
    pub usb_parent_instance_id: Option<Text>,
    pub serial_number: Option<Text>,
    pub capabilities: InputCapabilities,
    pub logical_nodes: Seq<InputDeviceView>,
    pub raw_input_paths: Seq<Text>,
    pub present: bool,
}

impl View for PhysicalInputDevice {
    type V = PhysicalInputDeviceView;

    open spec fn view(&self) -> PhysicalInputDeviceView {
        PhysicalInputDeviceView {
            id: self.id@,
            container_id: model::opt_text(self.container_id),
            friendly_name: model::opt_text(self.friendly_name),
            manufacturer: model::opt_text(self.manufacturer),
            vendor_id: model::opt_text(self.vendor_id),
            product_id: model::opt_text(self.product_id),
            usb_parent_instance_id: model::opt_text(self.usb_parent_instance_id),
            serial_number: model::opt_text(self.serial_number),
            capabilities: self.capabilities,
            logical_nodes: duplicate::views(self.logical_nodes@),
            raw_input_paths: model::texts(self.raw_input_paths@),
            present: self.present,
        }
    }
}

impl Duplicate for PhysicalInputDevice {
    fn duplicate(&self) -> (r: Self) {
        PhysicalInputDevice {
            id: self.id.clone(),
            container_id: copy_opt(&self.container_id),
            friendly_name: copy_opt(&self.friendly_name),
            manufacturer: copy_opt(&self.manufacturer),
            vendor_id: copy_opt(&self.vendor_id),
            product_id: copy_opt(&self.product_id),
            usb_parent_instance_id: copy_opt(&self.usb_parent_instance_id),
            serial_number: copy_opt(&self.serial_number),
            capabilities: self.capabilities,
            logical_nodes: duplicate_all(&self.logical_nodes),
            raw_input_paths: copy_all(&self.raw_input_paths),
            present: self.present,
        }
    }
}

impl Clone for PhysicalInputDevice {
    fn clone(&self) -> (r: Self)
        ensures
            r@ == self@,
    {
        self.duplicate()
    }
}

impl PhysicalInputDeviceView {
    /// Whether an identifier names one of the logical nodes.
    pub open spec fn has_logical_id(self, id: Text) -> bool {
        exists|i: int|
            0 <= i < self.logical_nodes.len() && model::same_ignoring_case(
                (#[trigger] self.logical_nodes[i]).id,
                id,
            )
    }

    /// Whether an identifier names the device or one of its logical nodes.
    pub open spec fn is_named(self, id: Text) -> bool {
        model::same_ignoring_case(self.id, id) || self.has_logical_id(id)
    }
}

impl PhysicalInputDevice {
    /// Whether an identifier names one of the logical nodes.
    pub fn contains_logical_id(&self, id: &str) -> (r: bool)
        ensures
            r == self@.has_logical_id(id@),
    {
        let mut i: usize = 0;
        while i < self.logical_nodes.len()
            invariant
                i <= self.logical_nodes@.len(),
                forall|k: int|
                    0 <= k < i ==> !model::same_ignoring_case(
                        (#[trigger] self@.logical_nodes[k]).id,
                        id@,
                    ),
            decreases self.logical_nodes.len() - i,
        {
            if same_any_case(self.logical_nodes[i].id.as_str(), id) {
                assert(self@.logical_nodes[i as int].id == self.logical_nodes@[i as int].id@);
                return true;
            }
            i += 1;
        }
        false
    }

    /// Whether an identifier names the device or one of its logical nodes.
    pub fn is_named(&self, id: &str) -> (r: bool)
        ensures
            r == self@.is_named(id@),
    {
        same_any_case(self.id.as_str(), id) || self.contains_logical_id(id)
    }
}

} // verus!
