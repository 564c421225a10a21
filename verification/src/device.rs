//! The typed handle, the tags that its type carries, and the ways to get one.

use vstd::prelude::*;
use std::marker::PhantomData;
use crate::error::{surface, surfaces, translate, Error, ErrorView};
use crate::native;

verus! {

/// A tag for the operating system of a device.
pub trait DeviceOS {
    /// The system that every device under this tag runs; `None` for a tag that
    /// fixes no system.
    spec fn expected() -> Option<native::DeviceOS>;
}

/// A tag that fixes the operating system.
pub trait AnyDeviceOS: DeviceOS {
    /// The system that the tag stands for.
    const OS: native::DeviceOS;

    /// The tag fixes the system that it names.
    proof fn fixes_os()
        ensures
            Self::expected() == Some(Self::OS),
    ;
}

/// Nothing is said of the system.
#[derive(Debug)]
pub struct UnknownOS;

/// The device was fetched without asking for a system.
#[derive(Debug)]
pub struct AnyOS;

/// The device runs without an operating system.
#[derive(Debug)]
pub struct BareMetal;

/// The device runs Linux.
#[derive(Debug)]
pub struct Linux;

/// The device runs WinDoof.
#[derive(Debug)]
pub struct WinDoof;

impl DeviceOS for UnknownOS {
    open spec fn expected() -> Option<native::DeviceOS> {
        None
    }
}

impl DeviceOS for AnyOS {
    open spec fn expected() -> Option<native::DeviceOS> {
        None
    }
}

impl DeviceOS for BareMetal {
    open spec fn expected() -> Option<native::DeviceOS> {
        Some(native::DeviceOS::BareMetal)
    }
}

impl AnyDeviceOS for BareMetal {
    const OS: native::DeviceOS = native::DeviceOS::BareMetal;

    proof fn fixes_os() {
    }
}

impl DeviceOS for Linux {
    open spec fn expected() -> Option<native::DeviceOS> {
        Some(native::DeviceOS::Linux)
    }
}

impl AnyDeviceOS for Linux {
    const OS: native::DeviceOS = native::DeviceOS::Linux;

    proof fn fixes_os() {
    }
}

impl DeviceOS for WinDoof {
    open spec fn expected() -> Option<native::DeviceOS> {
        Some(native::DeviceOS::WinDoof)
    }
}

impl AnyDeviceOS for WinDoof {
    const OS: native::DeviceOS = native::DeviceOS::WinDoof;

    proof fn fixes_os() {
    }
}

/// A tag for the family of a device, which holds what was fetched.
pub trait DeviceType {
    /// The system that the held device reports; `None` where nothing is held.
    spec fn runtime_os(&self) -> Option<native::DeviceOS>;
}

/// A tag that fixes the family.
pub trait AnyDeviceType: DeviceType {
    /// The held device seen as a device of any family; `None` where nothing
    /// is held.
    spec fn upcast(&self) -> Option<native::Device>;

    /// The held device seen as a device of any family.
    fn device(&self) -> (device: Option<&native::Device>)
        ensures
            match device {
                Some(d) => self.upcast() == Some(*d),
                None => self.upcast() is None,
            },
    ;
}

/// Nothing is said of the family.
#[derive(Debug)]
pub struct UnknownDeviceType;

/// A device of any family.
#[derive(Debug)]
pub struct AnyDevice(native::Device);

/// A hardware security module.
#[derive(Debug)]
pub struct Hsm(native::HSMWrapper);

/// A FIDO token. Nothing is held, and nothing can be done with one.
#[derive(Debug)]
pub struct Fido;

impl DeviceType for UnknownDeviceType {
    open spec fn runtime_os(&self) -> Option<native::DeviceOS> {
        None
    }
}

impl AnyDevice {
    /// What the native library reported of the held device.
    pub closed spec fn record(&self) -> native::Device {
        self.0
    }
}

impl DeviceType for AnyDevice {
    open spec fn runtime_os(&self) -> Option<native::DeviceOS> {
        Some(self.record().os)
    }
}

impl AnyDeviceType for AnyDevice {
    open spec fn upcast(&self) -> Option<native::Device> {
        Some(self.record())
    }

    fn device(&self) -> (device: Option<&native::Device>) {
        Some(&self.0)
    }
}

impl Hsm {
    /// What the native library reported of the held module.
    pub closed spec fn module(&self) -> native::HSM {
        self.0.hsm()
    }
}

impl DeviceType for Hsm {
    open spec fn runtime_os(&self) -> Option<native::DeviceOS> {
        Some(self.module().os)
    }
}

impl AnyDeviceType for Hsm {
    open spec fn upcast(&self) -> Option<native::Device> {
        Some(self.module().device)
    }

    fn device(&self) -> (device: Option<&native::Device>) {
        Some(self.0.device())
    }
}

impl DeviceType for Fido {
    open spec fn runtime_os(&self) -> Option<native::DeviceOS> {
        None
    }
}

impl AnyDeviceType for Fido {
    open spec fn upcast(&self) -> Option<native::Device> {
        None
    }

    fn device(&self) -> (device: Option<&native::Device>) {
        None
    }
}

/// A handle to a device of the native library. `Type` says of which family
/// the device is and `OS` which system it runs.
#[derive(Debug)]
pub struct Device<Type = UnknownDeviceType, OS = UnknownOS> where Type: DeviceType, OS: DeviceOS {
    _num: usize,
    dtype: Type,
    _os: PhantomData<OS>,
}

impl<Type, OS> Device<Type, OS> where Type: DeviceType, OS: DeviceOS {
    /// The number under which the device was fetched, counted from one.
    pub closed spec fn num(&self) -> usize {
        self._num
    }

    /// What the handle holds.
    pub closed spec fn payload(&self) -> Type {
        self.dtype
    }

    /// The handle was fetched under a number from one on, and where its type
    /// fixes a system, the held device reports that system.
    #[verifier::type_invariant]
    pub closed spec fn well_formed(&self) -> bool {
        &&& self._num >= 1
        &&& OS::expected() is Some ==> self.dtype.runtime_os() == OS::expected()
    }
}

/// Why a fetch under `num` does not give a device, if it does not: the number
/// is below one, the native library raised an exception, or it has no device
/// there. `fetched` is what the native library answered: the device, `None`
/// for an empty handle, or the text of its exception.
pub open spec fn fetch_refusal<T>(
    device_type: Seq<char>,
    num: usize,
    fetched: Result<Option<T>, String>,
) -> Option<ErrorView> {
    if num < 1 {
        Some(ErrorView::InvalidDeviceNum { num })
    } else {
        match fetched {
            Err(what) => Some(translate(what@)),
            Ok(None) => Some(ErrorView::DeviceNotFound { device_type, num }),
            Ok(Some(_)) => None,
        }
    }
}

/// Why a fetch of a hardware security module does not give one, if it does
/// not: for the reasons of [`fetch_refusal`], or because the module that was
/// found runs another system than `expected`, where a system is expected.
pub open spec fn narrowing_refusal(
    num: usize,
    fetched: Result<Option<native::HSM>, String>,
    expected: Option<native::DeviceOS>,
) -> Option<ErrorView> {
    match fetch_refusal("HSM"@, num, fetched) {
        Some(refusal) => Some(refusal),
        None => {
            let actual = fetched->Ok_0->Some_0.os;
            if expected is Some && expected != Some(actual) {
                Some(
                    ErrorView::DeviceHasWrongOS {
                        device_type: "HSM"@,
                        num,
                        actual_os: actual,
                        expected_os: expected->Some_0,
                    },
                )
            } else {
                None
            }
        },
    }
}

impl Device {
    /// The place in the native library's count, which starts at zero, of the
    /// device that users call `num`. There is none for a number below one, and
    /// the native library is then not to be asked.
    pub fn native_index(num: usize) -> (index: Result<usize, Error>)
        ensures
            match index {
                Ok(i) => num >= 1 && i == num - 1,
                Err(e) => num < 1 && e@ == (ErrorView::InvalidDeviceNum { num }),
            },
    {
        if num < 1 {
            Err(Error::InvalidDeviceNum { num })
        } else {
            Ok(num - 1)
        }
    }

    /// A handle to the device of any family that the native library gave
    /// under `num`.
    pub fn fetch_device(num: usize, fetched: Result<Option<native::Device>, String>) -> (handle:
        Result<Device<AnyDevice, AnyOS>, Error>)
        ensures
            match handle {
                Ok(device) => {
                    &&& fetch_refusal("any"@, num, fetched) is None
                    &&& device.well_formed()
                    &&& device.num() == num
                    &&& fetched == Ok::<_, String>(Some(device.record()))
                },
                Err(e) => fetch_refusal("any"@, num, fetched) == Some(e@),
            },
    {
        if num < 1 {
            Err(Error::InvalidDeviceNum { num })
        } else {
            match fetched {
                Err(what) => Err(Error::from_what(what.as_str())),
                Ok(None) => Err(Error::DeviceNotFound { device_type: "any", num }),
                Ok(Some(device)) => Ok(
                    Device { _num: num, dtype: AnyDevice(device), _os: PhantomData },
                ),
            }
        }
    }

    /// A handle to the hardware security module that the native library gave
    /// under `num`.
    pub fn fetch_hsm(num: usize, fetched: Result<Option<native::HSM>, String>) -> (handle: Result<
        Device<Hsm, AnyOS>,
        Error,
    >)
        ensures
            match handle {
                Ok(device) => {
                    &&& fetch_refusal("HSM"@, num, fetched) is None
                    &&& device.well_formed()
                    &&& device.num() == num
                    &&& fetched == Ok::<_, String>(Some(device.hsm()))
                },
                Err(e) => fetch_refusal("HSM"@, num, fetched) == Some(e@),
            },
    {
        if num < 1 {
            Err(Error::InvalidDeviceNum { num })
        } else {
            match fetched {
                Err(what) => Err(Error::from_what(what.as_str())),
                Ok(None) => Err(Error::DeviceNotFound { device_type: "HSM", num }),
                Ok(Some(device)) => {
                    let device = native::HSMWrapper::new(device);
                    Ok(Device { _num: num, dtype: Hsm(device), _os: PhantomData })
                },
            }
        }
    }

    /// A handle to the hardware security module that the native library gave
    /// under `num`, if the module runs the system that `OS` stands for. The
    /// handle's type then says so.
    pub fn fetch_hsm_with<OS: AnyDeviceOS>(
        num: usize,
        fetched: Result<Option<native::HSM>, String>,
    ) -> (handle: Result<Device<Hsm, OS>, Error>)
        ensures
            match handle {
                Ok(device) => {
                    &&& narrowing_refusal(num, fetched, OS::expected()) is None
                    &&& device.well_formed()
                    &&& device.num() == num
                    &&& fetched == Ok::<_, String>(Some(device.hsm()))
                    &&& device.hsm().os == OS::OS
                },
                Err(e) => narrowing_refusal(num, fetched, OS::expected()) == Some(e@),
            },
    {
        if num < 1 {
            Err(Error::InvalidDeviceNum { num })
        } else {
            proof {
                OS::fixes_os();
            }
            match fetched {
                Err(what) => Err(Error::from_what(what.as_str())),
                Ok(None) => Err(Error::DeviceNotFound { device_type: "HSM", num }),
                Ok(Some(device)) => {
                    if device.os != OS::OS {
                        Err(
                            Error::DeviceHasWrongOS {
                                device_type: "HSM",
                                num,
                                actual_os: device.os,
                                expected_os: OS::OS,
                            },
                        )
                    } else {
                        let device = native::HSMWrapper::new(device);
                        Ok(Device { _num: num, dtype: Hsm(device), _os: PhantomData })
                    }
                },
            }
        }
    }
}

impl<OS> Device<AnyDevice, OS> where OS: DeviceOS {
    /// What the native library reported of the device.
    pub open spec fn record(&self) -> native::Device {
        self.payload().record()
    }

    /// The system that the device runs.
    pub fn os(&self) -> (os: native::DeviceOS)
        ensures
            os == self.record().os,
            OS::expected() is Some ==> OS::expected() == Some(os),
    {
        proof {
            use_type_invariant(self);
        }
        self.dtype.0.os
    }

    /// The family of the device.
    pub fn dtype(&self) -> (dtype: native::DeviceType)
        ensures
            dtype == self.record().dtype,
    {
        self.dtype.0.dtype
    }
}

impl<OS> Device<Hsm, OS> where OS: DeviceOS {
    /// What the native library reported of the module.
    pub open spec fn hsm(&self) -> native::HSM {
        self.payload().module()
    }

    /// The system that the module runs.
    pub fn os(&self) -> (os: native::DeviceOS)
        ensures
            os == self.hsm().os,
            OS::expected() is Some ==> OS::expected() == Some(os),
    {
        proof {
            use_type_invariant(self);
        }
        self.dtype.0.os()
    }

    /// The family of the module.
    pub fn dtype(&self) -> (dtype: native::DeviceType)
        ensures
            dtype == self.hsm().dtype,
    {
        self.dtype.0.dtype()
    }

    /// The number of key slots of the module.
    pub fn max_slots(&self) -> (slots: usize)
        ensures
            slots == self.hsm().max_slots,
    {
        self.dtype.0.max_slots()
    }

    /// The signature that the module made with the key in `slot`, or why it
    /// made none. `signed` is what the native library answered when it was
    /// asked to sign: the signature, or the text of its exception.
    #[allow(unused_variables)]
    pub fn sign(&self, slot: usize, signed: Result<Vec<u8>, String>) -> (signature: Result<
        Vec<u8>,
        Error,
    >)
        ensures
            surfaces(signature, signed),
    {
        surface(signed)
    }

    /// As [`Device::sign`]: a second way to the same signature, kept apart so
    /// that a caller can tell which of the two it used.
    #[allow(unused_variables)]
    pub fn sign_slot(&self, slot: usize, signed: Result<Vec<u8>, String>) -> (signature: Result<
        Vec<u8>,
        Error,
    >)
        ensures
            surfaces(signature, signed),
    {
        let sig = self.sign(slot, signed)?;
        Ok(sig)
    }

    /// Whether the module made a key in `slot`, or why it made none. `created`
    /// is what the native library answered when it was asked to make the key:
    /// nothing, or the text of its exception. Making a key changes the module,
    /// so the handle must be the caller's alone; what the handle itself holds
    /// stays as it was.
    #[allow(unused_variables)]
    pub fn create_key(&mut self, slot: usize, created: Result<(), String>) -> (done: Result<
        (),
        Error,
    >)
        ensures
            surfaces(done, created),
            *final(self) == *old(self),
    {
        surface(created)
    }
}

impl<Type> Device<Type, Linux> where Type: AnyDeviceType {
    /// The name of the held device seen as a device of any family; the empty
    /// text where the handle holds nothing.
    pub open spec fn name_text(&self) -> Seq<char> {
        match self.payload().upcast() {
            Some(device) => device.name@,
            None => Seq::empty(),
        }
    }

    /// The name of the device.
    pub fn name(&self) -> (name: String)
        ensures
            name@ == self.name_text(),
    {
        match self.dtype.device() {
            Some(device) => device.name.clone(),
            None => String::new(),
        }
    }
}

/// The name of a Linux module is the name that the native library reported
/// of the device behind that module.
pub proof fn lemma_name_of_module(device: Device<Hsm, Linux>)
    ensures
        device.payload().upcast() == Some(device.hsm().device),
        device.name_text() == device.hsm().device.name@,
{
}

/// The name of a Linux device of any family is the name that the native
/// library reported of that device.
pub proof fn lemma_name_of_device(device: Device<AnyDevice, Linux>)
    ensures
        device.payload().upcast() == Some(device.record()),
        device.name_text() == device.record().name@,
{
}

/// A handle whose type fixes a system holds a module that reports that
/// system.
pub proof fn lemma_narrowed_os<OS: AnyDeviceOS>(device: Device<Hsm, OS>)
    requires
        device.well_formed(),
    ensures
        device.hsm().os == OS::OS,
{
    OS::fixes_os();
}

/// Under a number below one no fetch gives a device, whatever the native
/// library would have answered: each is refused for the number.
pub proof fn lemma_below_one_refused<T>(
    device_type: Seq<char>,
    num: usize,
    fetched: Result<Option<T>, String>,
    narrowed: Result<Option<native::HSM>, String>,
    expected: Option<native::DeviceOS>,
)
    requires
        num < 1,
    ensures
        fetch_refusal(device_type, num, fetched) == Some(ErrorView::InvalidDeviceNum { num }),
        narrowing_refusal(num, narrowed, expected) == Some(ErrorView::InvalidDeviceNum { num }),
{
}

/// Under a number from one on, an empty handle from the native library is
/// refused as a device that was not found, under that number.
pub proof fn lemma_empty_refused<T>(
    device_type: Seq<char>,
    num: usize,
    expected: Option<native::DeviceOS>,
)
    requires
        num >= 1,
    ensures
        fetch_refusal::<T>(device_type, num, Ok(None)) == Some(
            ErrorView::DeviceNotFound { device_type, num },
        ),
        narrowing_refusal(num, Ok(None), expected) == Some(
            ErrorView::DeviceNotFound { device_type: "HSM"@, num },
        ),
{
}

} // verus!
