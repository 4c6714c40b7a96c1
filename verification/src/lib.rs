//! Verified core of a multi-seat desktop: a second seat that runs in a VirtualBox machine.
pub mod devices;
pub mod displays;
pub mod duplicate;
pub mod journal;
pub mod keyboard_routing;
pub mod paths;
pub mod seats;
pub mod sequences;
pub mod text;
pub mod text_map;
pub mod virtualization;
