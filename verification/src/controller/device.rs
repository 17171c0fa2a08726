//! Which of the HID devices around is the controller.

use vstd::prelude::*;
use crate::text::{contains_ignoring_case, occurs_ignoring_case};

verus! {

pub const SONY_VENDOR_ID: u16 = 0x054c;

/// Why no controller can be opened when Sony made none of the devices.
pub const NO_DEVICE: &'static str =
    "no Sony HID device found; connect the DualSense over USB or Bluetooth";

/// A HID device, as far as the choice needs it.
#[derive(Debug)]
pub struct DeviceInfo {
    pub vendor_id: u16,
    /// The product name, if the device tells one.
    pub product: Option<String>,
}

/// Whether a device is one of Sony's.
pub open spec fn is_sony(device: DeviceInfo) -> bool {
    device.vendor_id == SONY_VENDOR_ID
}

/// Whether a device is one of Sony's and calls itself a DualSense, in whatever
/// ASCII case.
pub open spec fn is_dualsense(device: DeviceInfo) -> bool {
    &&& is_sony(device)
    &&& device.product matches Some(name) && exists|i: int|
        occurs_ignoring_case(name@, "dualsense"@, i)
}

/// Whether `i` is the first index at which `wanted` holds.
pub open spec fn first_where(
    devices: Seq<DeviceInfo>,
    wanted: spec_fn(DeviceInfo) -> bool,
    i: int,
) -> bool {
    &&& 0 <= i < devices.len()
    &&& wanted(devices[i])
    &&& forall|j: int| 0 <= j < i ==> !wanted(#[trigger] devices[j])
}

/// Whether Sony made none of the devices.
pub open spec fn without_sony(devices: Seq<DeviceInfo>) -> bool {
    forall|j: int| 0 <= j < devices.len() ==> !is_sony(#[trigger] devices[j])
}

fn names_dualsense(device: &DeviceInfo) -> (r: bool)
    ensures
        is_sony(*device) ==> r == is_dualsense(*device),
{
    match &device.product {
        Some(name) => contains_ignoring_case(name.as_str(), "dualsense"),
        None => false,
    }
}

/// Picks the controller among the devices found: the first Sony device that
/// calls itself a DualSense, else the first Sony device. `None` if Sony made
/// none of them.
pub fn choose_dualsense(devices: &Vec<DeviceInfo>) -> (r: Option<usize>)
    ensures
        match r {
            Some(i) => {
                ||| first_where(devices@, |d: DeviceInfo| is_dualsense(d), i as int)
                ||| {
                    &&& forall|j: int|
                        0 <= j < devices@.len() ==> !is_dualsense(#[trigger] devices@[j])
                    &&& first_where(devices@, |d: DeviceInfo| is_sony(d), i as int)
                }
            },
            None => forall|j: int| 0 <= j < devices@.len() ==> !is_sony(#[trigger] devices@[j]),
        },
        r is None <==> without_sony(devices@),
{
    let mut first_sony: Option<usize> = None;
    let mut i: usize = 0;
    while i < devices.len()
        invariant
            i <= devices@.len(),
            forall|j: int| 0 <= j < i ==> !is_dualsense(#[trigger] devices@[j]),
            match first_sony {
                Some(k) => k < i && first_where(devices@, |d: DeviceInfo| is_sony(d), k as int),
                None => forall|j: int| 0 <= j < i ==> !is_sony(#[trigger] devices@[j]),
            },
        decreases devices@.len() - i,
    {
        if devices[i].vendor_id == SONY_VENDOR_ID {
            if names_dualsense(&devices[i]) {
                return Some(i);
            }
            if first_sony.is_none() {
                first_sony = Some(i);
            }
        }
        i += 1;
    }
    first_sony
}

} // verus!
