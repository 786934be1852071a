//! The record kept for each known device.

use vstd::prelude::*;

use crate::classifier::{
    BluetoothMajor, BluetoothMinor, BluetoothState, classify, major_of, minor_main_of,
    minor_sub_of, state_of,
};

verus! {

/// What the operating system reports of a device, as plain values, together
/// with the live handle `H` through which the device can be watched.
#[derive(Debug, Clone)]
pub struct RawDevice<H> {
    pub id: String,
    pub name: String,
    pub address: u64,
    pub major_code: i32,
    pub minor_code: i32,
    pub status_code: i32,
    pub handle: H,
}

/// A snapshot of one device: its identity, its classification and its
/// connection state, and the handle that the record owns.
#[derive(Debug, Clone)]
pub struct BluetoothDeviceInfo<H> {
    pub id: String,
    pub name: String,
    pub address: u64,
    pub major_class: BluetoothMajor,
    pub minor_main_class: BluetoothMinor,
    pub minor_sub_class: BluetoothMinor,
    pub status: BluetoothState,
    pub inner: H,
}

/// The record that a report gives: its values carried over and its codes
/// decoded.
pub open spec fn record_of<H>(raw: RawDevice<H>) -> BluetoothDeviceInfo<H> {
    BluetoothDeviceInfo {
        id: raw.id,
        name: raw.name,
        address: raw.address,
        major_class: major_of(raw.major_code),
        minor_main_class: minor_main_of(raw.minor_code, major_of(raw.major_code)),
        minor_sub_class: minor_sub_of(raw.minor_code, major_of(raw.major_code)),
        status: state_of(raw.status_code),
        inner: raw.handle,
    }
}

impl<H> BluetoothDeviceInfo<H> {
    /// Builds the record of a device report.
    pub fn from_raw(raw: RawDevice<H>) -> (r: Self)
        ensures
            r == record_of(raw),
    {
        let (major_class, minor_main_class, minor_sub_class) = classify(
            raw.major_code,
            raw.minor_code,
        );
        let status = BluetoothState::from_code(raw.status_code);
        BluetoothDeviceInfo {
            id: raw.id,
            name: raw.name,
            address: raw.address,
            major_class,
            minor_main_class,
            minor_sub_class,
            status,
            inner: raw.handle,
        }
    }
}

} // verus!
