//! The audio-activity sensor and the link actuator, as the decision loop sees
//! them: their failure kinds and the target device.
use vstd::prelude::*;
use crate::address::{address_names_device, names_device};

verus! {

/// Why the audio-activity sensor could not answer.
#[derive(Debug, Clone, Copy, PartialEq, Eq, Structural)]
pub enum AudioError {
    /// The device enumerator could not be created.
    EnumeratorError,
    /// There is no default audio output endpoint.
    EndpointError,
    /// The endpoint's session manager was unavailable.
    SessionManagerError,
    /// Playback sessions could not be enumerated.
    SessionEnumError,
    /// Another native failure, with its status code.
    WindowsError(i32),
}

impl AudioError {
    /// A short human-readable description.
    pub fn message(&self) -> (r: &'static str) {
        match self {
            AudioError::EnumeratorError => "failed to create device enumerator",
            AudioError::EndpointError => "failed to get default audio endpoint",
            AudioError::SessionManagerError => "failed to get session manager",
            AudioError::SessionEnumError => "failed to get session enumerator",
            AudioError::WindowsError(_) => "native audio API error",
        }
    }
}

/// Why a connect or disconnect command failed.
#[derive(Debug, Clone, Copy, PartialEq, Eq, Structural)]
pub enum BluetoothError {
    /// No visible, remembered or authenticated device has the target address.
    DeviceNotFound,
    /// The device refused authentication.
    AuthenticationError,
    /// The hands-free profile could not be switched.
    ServiceStateError,
    /// Devices could not be enumerated.
    EnumerationError,
    /// Another native failure, with its status code.
    WindowsError(i32),
}

impl BluetoothError {
    /// A short human-readable description.
    pub fn message(&self) -> (r: &'static str) {
        match self {
            BluetoothError::DeviceNotFound => "failed to find device",
            BluetoothError::AuthenticationError => "failed to authenticate device",
            BluetoothError::ServiceStateError => "failed to set service state",
            BluetoothError::EnumerationError => "failed to enumerate devices",
            BluetoothError::WindowsError(_) => "native bluetooth API error",
        }
    }
}

/// The audio-activity sensor: reports whether any playback session is live
/// on the default output device.
pub struct AudioMonitor;

/// The link actuator for one device, named by its canonical address.
pub struct BluetoothController {
    device_address: String,
}

impl BluetoothController {
    /// The address of the device this controller drives.
    pub closed spec fn address(&self) -> Seq<char> {
        self.device_address@
    }

    pub fn new(device_address: String) -> (r: BluetoothController)
        ensures
            r.address() == device_address@,
    {
        BluetoothController { device_address }
    }

    /// The address of the device this controller drives.
    pub fn device_address(&self) -> (r: &str)
        ensures
            r@ == self.address(),
    {
        self.device_address.as_str()
    }

    /// Whether a discovered device, given by the little-endian bytes of its
    /// radio address, is the one this controller drives.
    pub fn is_target_device(&self, address_bytes: &[u8; 6]) -> (r: bool)
        ensures
            r == names_device(self.address(), address_bytes@),
    {
        address_names_device(self.device_address.as_str(), address_bytes)
    }
}

} // verus!
