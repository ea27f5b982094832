//! A USB HID device that lets a host reboot the microcontroller into its
//! bootloader, so that new firmware can be flashed without a button press.
//!
//! [`hid_descriptor`] holds the report descriptor that the host tool relies
//! on, with a decoder that shows what it declares; [`rebootor`] holds the
//! poll cycle's decisions: when to arm the endpoints, when to read reports,
//! and which report leads to the bootloader.
pub mod hid_descriptor;
pub mod rebootor;

pub use rebootor::Rebootor;
