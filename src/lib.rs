//! A registry of discovered Bluetooth devices.
//!
//! The library decodes class-of-device codes, keeps the map of known devices
//! together with the notification tokens held for each of them, and decides
//! when a "devices changed" event is due. Talking to the operating system is
//! left to the caller: it hands the library plain values and performs the
//! actions that the library returns.

pub mod classifier;
pub mod device;
pub mod id_map;
pub mod laws;
pub mod registry;

pub use classifier::{BluetoothMajor, BluetoothMinor, BluetoothState};
pub use device::{BluetoothDeviceInfo, RawDevice};
pub use id_map::IdMap;
pub use registry::{
    AddOutcome, BluetoothEvent, BluetoothManager, DeviceRegistrations, DeviceRelease,
    PlatformError, RegistryView, RemoveOutcome, SessionRegistrations, Shutdown,
};
