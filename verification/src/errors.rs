//! Error types used across the high-level RFID API.

use vstd::prelude::*;

use crate::types::UhfError;

verus! {

/// USB-level errors encountered while interacting with the device.
#[derive(Debug)]
pub enum UsbError {
    /// Backend USB error (backend-agnostic string).
    Usb(String),
    /// Device with vendor/product IDs not found.
    DeviceNotFound {
        /// Vendor ID.
        vid: u16,
        /// Product ID.
        pid: u16,
    },
    /// No suitable endpoint found on the device.
    EndpointNotFound,
    /// Operation timed out.
    Timeout,
    /// Access to the USB device was denied by the OS.
    PermissionDenied,
    /// The device is busy or already claimed.
    DeviceBusy,
    /// Failed to claim the interface on the device.
    InterfaceClaimFailed(String),
    /// The required USB transfer type is not supported.
    UnsupportedTransferType,
    /// Outgoing command exceeds supported size.
    CommandTooLarge(usize),
}

/// High-level application errors for RFID operations.
#[derive(Debug)]
pub enum RfidError {
    /// Wrapped I/O error message.
    Io(String),
    /// Wrapped USB error.
    UsbError(UsbError),
    /// Error encountered while enumerating USB devices.
    DeviceEnumerationError(UsbError),
    /// Serial port error with a descriptive message.
    SerialPort(String),
    /// Operation attempted without an active device connection.
    NotConnected,
    /// No compatible devices were detected when scanning.
    NoDevicesFound,
    /// Protocol-level error with a descriptive message.
    Protocol(String),
    /// Device returned an invalid or unexpected response.
    InvalidResponse(String),
    /// Device reported a non-zero status code.
    CommandFailed(u8),
    /// Operation timed out.
    Timeout,
    /// Current platform does not support this operation.
    PlatformNotSupported(String),
    /// Error encountered during packet fragmentation or assembly.
    FragmentationError(String),
    /// Response failed integrity or verification checks.
    ResponseVerificationFailed,
    /// Wrapped low-level protocol error.
    UhfError(UhfError),
}

impl From<UsbError> for RfidError {
    fn from(e: UsbError) -> Self {
        RfidError::UsbError(e)
    }
}

impl vstd::std_specs::convert::FromSpecImpl<UsbError> for RfidError {
    open spec fn obeys_from_spec() -> bool {
        true
    }

    open spec fn from_spec(e: UsbError) -> Self {
        RfidError::UsbError(e)
    }
}

impl From<UhfError> for RfidError {
    fn from(e: UhfError) -> Self {
        RfidError::UhfError(e)
    }
}

impl vstd::std_specs::convert::FromSpecImpl<UhfError> for RfidError {
    open spec fn obeys_from_spec() -> bool {
        true
    }

    open spec fn from_spec(e: UhfError) -> Self {
        RfidError::UhfError(e)
    }
}

/// Basic USB device information and descriptors.
#[derive(Debug)]
pub struct DeviceInfo {
    /// USB vendor identifier.
    pub vendor_id: u16,
    /// USB product identifier.
    pub product_id: u16,
    /// Manufacturer string.
    pub manufacturer: String,
    /// Product string.
    pub product: String,
    /// Serial number string.
    pub serial_number: String,
}

} // verus!
