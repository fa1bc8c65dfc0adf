//! The registry of devices and groups that a configuration declares.

use crate::command::{family_of, DeviceType};
use vstd::prelude::*;
use vstd::string::StringExecFns;

verus! {

/// One device: how it is called, how it is reached, and what product it is.
#[derive(Clone, Debug, Default, PartialEq, Eq)]
pub struct Device {
    pub name: String,
    pub id: String,
    pub key: String,
    pub sname: Option<String>,
    pub ip: String,
    pub product_name: String,
}

/// A named list of device names, in the order in which they are to be
/// driven, with the pacing that the group asks for.
#[derive(Clone, Debug, Default, PartialEq, Eq)]
pub struct Group {
    pub group_name: String,
    pub devices: Vec<String>,
    /// Milliseconds to wait after each batch; none means no wait.
    pub delay: Option<u64>,
    /// Devices per batch; none means one.
    pub batch: Option<u64>,
}

/// Everything a configuration declares.
#[derive(Clone, Debug, Default, PartialEq, Eq)]
pub struct Tuya {
    pub api_secret: String,
    pub devices: Vec<Device>,
    pub groups: Vec<Group>,
}

impl Device {
    /// The family of the device, if its product type names one.
    pub open spec fn family(&self) -> Option<DeviceType> {
        family_of(self.product_name@)
    }
}

impl Group {
    /// The wait after a batch, in milliseconds.
    pub open spec fn delay_spec(&self) -> u64 {
        match self.delay {
            Some(d) => d,
            None => 0,
        }
    }

    /// The number of devices in a batch.
    pub open spec fn batch_spec(&self) -> u64 {
        match self.batch {
            Some(b) => b,
            None => 1,
        }
    }
}

impl DeviceType {
    /// The family of a device, read from its product type. A product type
    /// that names no family is refused with a message that repeats it.
    pub fn from_device(s: &Device) -> (r: Result<DeviceType, String>)
        ensures
            match s.family() {
                Some(t) => r == Ok::<DeviceType, String>(t),
                None => r matches Err(m) && m@ == "Invalid device type: "@ + s.product_name@,
            },
    {
        match DeviceType::from_product(s.product_name.as_str()) {
            Some(t) => Ok(t),
            None => {
                let mut message = String::from_str("Invalid device type: ");
                message.append(s.product_name.as_str());
                Err(message)
            },
        }
    }
}

} // verus!
