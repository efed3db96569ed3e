use vstd::prelude::*;
use core::str::FromStr;

verus! {

/// The closed set of device types the rig can test. `NoDevice` is the
/// placeholder before the operator has made a choice; it is never a valid
/// device to submit for testing.
#[derive(Clone, Copy, Debug, PartialEq, Eq, Structural)]
pub enum Device {
    BST,
    CWS,
    PrS,
    ESCM,
    NoDevice,
}

/// Relies on `<str as PartialEq>::eq` from core: string slices compare equal
/// exactly when their character sequences are equal.
pub assume_specification[ <str as PartialEq>::eq ](s: &str, other: &str) -> (r: bool)
    ensures
        r == (s@ == other@),
;

impl Device {
    /// The abbreviated device identifier used to build result-file paths.
    pub open spec fn spec_abbrev(self) -> Seq<char> {
        match self {
            Device::BST => "BST"@,
            Device::CWS => "CWS"@,
            Device::PrS => "PrS"@,
            Device::ESCM => "ESCM"@,
            Device::NoDevice => "N/A"@,
        }
    }

    /// Short code of this device, used for file lookups.
    pub fn abbrev(&self) -> (r: &str)
        ensures
            r@ == self.spec_abbrev(),
    {
        match self {
            Device::BST => "BST",
            Device::CWS => "CWS",
            Device::PrS => "PrS",
            Device::ESCM => "ESCM",
            Device::NoDevice => "N/A",
        }
    }

    /// The canonical long display string of each device.
    pub open spec fn spec_name(self) -> Seq<char> {
        match self {
            Device::BST => "Brake Signal Transmitter"@,
            Device::CWS => "Continuous Wear Sensor"@,
            Device::PrS => "Pressure Sensor"@,
            Device::ESCM => "Electronic Stability Control Module"@,
            Device::NoDevice => "No Device Selected"@,
        }
    }

    /// Canonical display name of this device, shown to the operator and sent
    /// in test requests.
    pub fn name(&self) -> (r: &str)
        ensures
            r@ == self.spec_name(),
    {
        match self {
            Device::BST => "Brake Signal Transmitter",
            Device::CWS => "Continuous Wear Sensor",
            Device::PrS => "Pressure Sensor",
            Device::ESCM => "Electronic Stability Control Module",
            Device::NoDevice => "No Device Selected",
        }
    }

    /// The device a selection string stands for: the canonical display names,
    /// plus `"None"` for no selection; anything else is rejected.
    pub open spec fn spec_from_name(s: Seq<char>) -> Result<Device, ()> {
        if s == "Brake Signal Transmitter"@ {
            Ok(Device::BST)
        } else if s == "Continuous Wear Sensor"@ {
            Ok(Device::CWS)
        } else if s == "Pressure Sensor"@ {
            Ok(Device::PrS)
        } else if s == "Electronic Stability Control Module"@ {
            Ok(Device::ESCM)
        } else if s == "None"@ {
            Ok(Device::NoDevice)
        } else {
            Err(())
        }
    }

    /// Parse a device from its canonical display name (or `"None"`).
    pub fn from_name(s: &str) -> (r: Result<Device, ()>)
        ensures
            r == Device::spec_from_name(s@),
    {
        if s.eq("Brake Signal Transmitter") {
            Ok(Device::BST)
        } else if s.eq("Continuous Wear Sensor") {
            Ok(Device::CWS)
        } else if s.eq("Pressure Sensor") {
            Ok(Device::PrS)
        } else if s.eq("Electronic Stability Control Module") {
            Ok(Device::ESCM)
        } else if s.eq("None") {
            Ok(Device::NoDevice)
        } else {
            Err(())
        }
    }
}

impl FromStr for Device {
    type Err = ();

    fn from_str(s: &str) -> Result<Self, Self::Err> {
        Device::from_name(s)
    }
}

/// The pending test configuration: which device to test, and whether the
/// string-potentiometer option is enabled. The option is only meaningful for
/// the brake signal transmitter; for every other device it is held `false`.
#[derive(Clone, Copy, Debug, PartialEq, Eq, Structural)]
pub struct TestData {
    pub device: Device,
    pub check: bool,
}

impl Default for TestData {
    /// The configuration at session start: no device chosen, option off.
    fn default() -> (r: Self)
        ensures
            r.device == Device::NoDevice,
            r.check == false,
    {
        TestData { device: Device::NoDevice, check: false }
    }
}

} // verus!
