//! A statically typed handle over the devices of a native hardware library.
//!
//! A [`Device`] carries two tags in its type: the family of the device and the
//! operating system it runs. Fetching a device checks at run time what the
//! native library reported and, where the check passes, fixes the result in the
//! type, so that operations which make no sense for a family or a system are
//! not there to be called.
//!
//! The library makes no native call itself. Its caller asks the native library
//! and hands over what it answered, as the plain values of [`native`]; the
//! library decides what that answer means.

pub mod device;
pub mod error;
pub mod native;

pub use device::{
    AnyDevice, AnyDeviceOS, AnyDeviceType, AnyOS, BareMetal, Device, DeviceOS, DeviceType, Fido,
    Hsm, Linux, UnknownDeviceType, UnknownOS, WinDoof,
};
pub use error::Error;
