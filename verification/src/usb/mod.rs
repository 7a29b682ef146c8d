//! Recognition of probes among the devices on the USB.

use vstd::prelude::*;

verus! {

pub const STLINK_USB_VID_ST: u32 = 0x0483;

pub const STLINK_USB_PID_STLINK: u32 = 0x3744;

pub const STLINK_USB_PID_STLINK_32L: u32 = 0x3748;

pub const STLINK_USB_PID_STLINK_32L_AUDIO: u32 = 0x374a;

pub const STLINK_USB_PID_STLINK_NUCLEO: u32 = 0x374b;

pub const STLINK_SG_SIZE: usize = 31;

pub const STLINK_CMD_SIZE: usize = 16;

/// Place of one endpoint in a device's configuration.
#[derive(Debug, Copy, Clone, PartialEq, Eq, Structural)]
pub struct Endpoint {
    pub config: u8,
    pub iface: u8,
    pub setting: u8,
    pub address: u8,
}

/// Whether a device with these identifiers is an on-board probe: the
/// vendor is 0x0483 and the product one of 0x3744, 0x3748, 0x374A and
/// 0x374B.
pub open spec fn spec_is_stlink(vendor: u16, product: u16) -> bool {
    vendor == STLINK_USB_VID_ST && (product == STLINK_USB_PID_STLINK || product
        == STLINK_USB_PID_STLINK_32L || product == STLINK_USB_PID_STLINK_32L_AUDIO || product
        == STLINK_USB_PID_STLINK_NUCLEO)
}

/// Whether a device with these identifiers is an on-board probe.
pub fn is_stlink(vendor: u16, product: u16) -> (yes: bool)
    ensures
        yes == spec_is_stlink(vendor, product),
{
    vendor == 0x0483 && (product == 0x3744 || product == 0x3748 || product == 0x374a || product
        == 0x374b)
}

/// Looks for a probe among `devices`, the vendor and product identifiers
/// of the devices on the bus, from place `from` on. The result is the
/// place of the first probe, if there is one.
pub fn search(devices: &[(u16, u16)], from: usize) -> (found: Option<usize>)
    ensures
        match found {
            Some(i) => {
                &&& from <= i < devices@.len()
                &&& spec_is_stlink(devices@[i as int].0, devices@[i as int].1)
                &&& forall|j: int| from <= j < i ==> !spec_is_stlink(devices@[j].0, devices@[j].1)
            },
            None => forall|j: int|
                from <= j < devices@.len() ==> !spec_is_stlink(devices@[j].0, devices@[j].1),
        },
{
    let mut i: usize = from;
    while i < devices.len()
        invariant
            from <= i,
            forall|j: int|
                from <= j < i && j < devices@.len() ==> !spec_is_stlink(
                    devices@[j].0,
                    devices@[j].1,
                ),
        decreases devices@.len() - i,
    {
        let device = devices[i];
        if is_stlink(device.0, device.1) {
            return Some(i);
        }
        i += 1;
    }
    None
}

} // verus!
