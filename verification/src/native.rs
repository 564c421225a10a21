//! What the native library reports about its devices, as plain values.

use vstd::prelude::*;

verus! {

/// The operating system that a device runs.
#[derive(Clone, Copy, Debug, PartialEq, Eq, Structural)]
pub enum DeviceOS {
    BareMetal,
    Linux,
    WinDoof,
}

/// The family that a device belongs to.
#[derive(Clone, Copy, Debug, PartialEq, Eq, Structural)]
pub enum DeviceType {
    HSM,
    FIDO,
}

impl DeviceOS {
    /// The name of the system as text.
    pub open spec fn label(self) -> Seq<char> {
        match self {
            DeviceOS::BareMetal => "BareMetal"@,
            DeviceOS::Linux => "Linux"@,
            DeviceOS::WinDoof => "WinDoof"@,
        }
    }

    /// The name of the system, as it is shown to a user.
    pub fn as_str(&self) -> (text: &'static str)
        ensures
            text@ == self.label(),
    {
        match self {
            DeviceOS::BareMetal => "BareMetal",
            DeviceOS::Linux => "Linux",
            DeviceOS::WinDoof => "WinDoof",
        }
    }
}

impl DeviceType {
    /// The name of the family as text.
    pub open spec fn label(self) -> Seq<char> {
        match self {
            DeviceType::HSM => "HSM"@,
            DeviceType::FIDO => "FIDO"@,
        }
    }

    /// The name of the family, as it is shown to a user.
    pub fn as_str(&self) -> (text: &'static str)
        ensures
            text@ == self.label(),
    {
        match self {
            DeviceType::HSM => "HSM",
            DeviceType::FIDO => "FIDO",
        }
    }
}

/// What the native library reports of a device of any family.
#[derive(Debug)]
pub struct Device {
    /// The system that the device runs.
    pub os: DeviceOS,
    /// The family of the device.
    pub dtype: DeviceType,
    /// The name of the device.
    pub name: String,
}

/// What the native library reports of a hardware security module.
#[derive(Debug)]
pub struct HSM {
    /// The system that the module runs.
    pub os: DeviceOS,
    /// The family of the module.
    pub dtype: DeviceType,
    /// The number of key slots of the module.
    pub max_slots: usize,
    /// The module seen as a device of any family.
    pub device: Device,
}

/// Holds a hardware security module and offers what the module itself does
/// not: the way up to the device that it is.
#[derive(Debug)]
pub struct HSMWrapper {
    intern: HSM,
}

impl HSMWrapper {
    /// The module that the adapter holds.
    pub closed spec fn hsm(&self) -> HSM {
        self.intern
    }

    /// An adapter around `intern`.
    pub fn new(intern: HSM) -> (wrapper: HSMWrapper)
        ensures
            wrapper.hsm() == intern,
    {
        HSMWrapper { intern }
    }

    /// The module seen as a device of any family.
    pub fn device(&self) -> (device: &Device)
        ensures
            *device == self.hsm().device,
    {
        &self.intern.device
    }

    /// The system that the module runs.
    pub fn os(&self) -> (os: DeviceOS)
        ensures
            os == self.hsm().os,
    {
        self.intern.os
    }

    /// The family of the module.
    pub fn dtype(&self) -> (dtype: DeviceType)
        ensures
            dtype == self.hsm().dtype,
    {
        self.intern.dtype
    }

    /// The number of key slots of the module.
    pub fn max_slots(&self) -> (slots: usize)
        ensures
            slots == self.hsm().max_slots,
    {
        self.intern.max_slots
    }
}

} // verus!
