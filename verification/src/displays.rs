//! Displays of the host desktop.
use crate::duplicate::Duplicate;
use crate::text::compose::copy_opt;
use crate::text::model;
use crate::text::model::Text;
use vstd::prelude::*;

verus! {

/// A rectangle of the desktop, in desktop coordinates.
#[derive(Clone, Copy, Debug, Eq, PartialEq, Structural)]
pub struct DisplayBounds {
    pub x: i32,
    pub y: i32,
    pub width: i32,
    pub height: i32,
}

/// A display that the operating system reports.
#[derive(Debug, Eq, PartialEq)]
pub struct DisplayDevice {
    pub id: String,
    pub pnp_instance_id: Option<String>,
    pub device_name: String,
    pub desktop_device_name: String,
    pub friendly_name: Option<String>,
    pub device_path: Option<String>,
    pub adapter_name: String,
    pub adapter_device_id: Option<String>,
    pub primary: bool,
    pub bounds: Option<DisplayBounds>,
}

/// The model of [`DisplayDevice`].
#[verifier::ext_equal]
pub struct DisplayDeviceView {
    pub id: Text,
    pub pnp_instance_id: Option<Text>,
    pub device_name: Text,
    pub desktop_device_name: Text,
    pub friendly_name: Option<Text>,
    pub device_path: Option<Text>,
    pub adapter_name: Text,
    pub adapter_device_id: Option<Text>,
    pub primary: bool,
    pub bounds: Option<DisplayBounds>,
}

impl View for DisplayDevice {
    type V = DisplayDeviceView;

    open spec fn view(&self) -> DisplayDeviceView {
        DisplayDeviceView {
            id: self.id@,
            pnp_instance_id: model::opt_text(self.pnp_instance_id),
            device_name: self.device_name@,
            desktop_device_name: self.desktop_device_name@,
            friendly_name: model::opt_text(self.friendly_name),
            device_path: model::opt_text(self.device_path),
            adapter_name: self.adapter_name@,
            adapter_device_id: model::opt_text(self.adapter_device_id),
            primary: self.primary,
            bounds: self.bounds,
        }
    }
}

impl Duplicate for DisplayDevice {
    fn duplicate(&self) -> (r: Self) {
        DisplayDevice {
            id: self.id.clone(),
            pnp_instance_id: copy_opt(&self.pnp_instance_id),
            device_name: self.device_name.clone(),
            desktop_device_name: self.desktop_device_name.clone(),
            friendly_name: copy_opt(&self.friendly_name),
            device_path: copy_opt(&self.device_path),
            adapter_name: self.adapter_name.clone(),
            adapter_device_id: copy_opt(&self.adapter_device_id),
            primary: self.primary,
            bounds: self.bounds,
        }
    }
}

impl Clone for DisplayDevice {
    fn clone(&self) -> (r: Self)
        ensures
            r@ == self@,
    {
        self.duplicate()
    }
}

} // verus!
