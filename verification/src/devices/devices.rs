//! The catalog of supported dongles, and the scan of the attached devices
//! for the first that is in it.

use vstd::prelude::*;

verus! {

/// A supported dongle.
#[derive(Debug, Clone, Copy)]
pub struct UsbDeviceInfo {
    /// Where the device stands in the enumeration that found it; `None` in a
    /// catalog entry.
    pub device: Option<usize>,
    pub product_name: &'static str,
    pub manufacturer: &'static str,
    pub product_id: u16,
    pub vendor_id: u16,
}

/// Number of entries in the catalog.
pub const SUPPORTED_DEVICE_COUNT: usize = 1;

/// The catalog of supported dongles, in the order in which it is searched.
pub open spec fn catalog() -> Seq<UsbDeviceInfo> {
    seq![
        UsbDeviceInfo {
            device: None,
            product_name: "CC2531 Dongle",
            manufacturer: "Texas Instruments",
            product_id: 0x16ae,
            vendor_id: 0x0451,
        },
    ]
}

/// Whether entry `i` of the catalog has these ids.
pub open spec fn entry_matches(i: int, vendor_id: u16, product_id: u16) -> bool {
    0 <= i < catalog().len() && catalog()[i].vendor_id == vendor_id && catalog()[i].product_id
        == product_id
}

/// Whether any entry of the catalog has these ids.
pub open spec fn is_supported(vendor_id: u16, product_id: u16) -> bool {
    exists|i: int| entry_matches(i, vendor_id, product_id)
}

/// Entry `i` of the catalog.
pub fn supported_device(i: usize) -> (d: UsbDeviceInfo)
    requires
        i < catalog().len(),
    ensures
        d == catalog()[i as int],
{
    UsbDeviceInfo {
        device: None,
        product_name: "CC2531 Dongle",
        manufacturer: "Texas Instruments",
        product_id: 0x16ae,
        vendor_id: 0x0451,
    }
}

/// The first entry of the catalog with the ids of a device's descriptor.
pub fn supported_device_match(vendor_id: u16, product_id: u16) -> (r: Option<UsbDeviceInfo>)
    ensures
        r.is_none() <==> !is_supported(vendor_id, product_id),
        r.is_some() ==> exists|i: int|
            {
                &&& #[trigger] entry_matches(i, vendor_id, product_id)
                &&& r == Some(catalog()[i])
                &&& forall|j: int| 0 <= j < i ==> !entry_matches(j, vendor_id, product_id)
            },
{
    let mut i: usize = 0;
    while i < SUPPORTED_DEVICE_COUNT
        invariant
            i <= catalog().len(),
            catalog().len() == SUPPORTED_DEVICE_COUNT,
            forall|j: int| 0 <= j < i ==> !entry_matches(j, vendor_id, product_id),
        decreases SUPPORTED_DEVICE_COUNT - i,
    {
        let d = supported_device(i);
        if d.vendor_id == vendor_id && d.product_id == product_id {
            assert(entry_matches(i as int, vendor_id, product_id));
            return Some(d);
        }
        i += 1;
    }
    None
}

/// Where a scan of `descriptors` stops, counted from `from`: at the first
/// device whose descriptor could not be read or whose ids are in the
/// catalog, or at the end.
pub open spec fn scan_stop(descriptors: Seq<Result<(u16, u16), rusb::Error>>, from: int) -> int
    decreases descriptors.len() - from,
{
    if from < 0 || from >= descriptors.len() {
        descriptors.len() as int
    } else {
        match descriptors[from] {
            Err(_) => from,
            Ok((vendor_id, product_id)) => if is_supported(vendor_id, product_id) {
                from
            } else {
                scan_stop(descriptors, from + 1)
            },
        }
    }
}

/// Scans the attached devices in the order of their enumeration. Each is
/// given by the vendor and product id of its descriptor, or by the error
/// that reading the descriptor gave. The first device that is in the catalog
/// is returned with its place in the enumeration; an unreadable descriptor
/// before it ends the scan with its error.
pub fn find_supported_device(descriptors: &[Result<(u16, u16), rusb::Error>]) -> (r: Result<
    Option<UsbDeviceInfo>,
    rusb::Error,
>)
    ensures
        0 <= scan_stop(descriptors@, 0) <= descriptors@.len(),
        scan_stop(descriptors@, 0) == descriptors@.len() ==> r == Ok::<
            Option<UsbDeviceInfo>,
            rusb::Error,
        >(None),
        scan_stop(descriptors@, 0) < descriptors@.len() ==> match descriptors@[scan_stop(
            descriptors@,
            0,
        )] {
            Err(e) => r == Err::<Option<UsbDeviceInfo>, rusb::Error>(e),
            Ok((vendor_id, product_id)) => exists|i: int|
                {
                    &&& #[trigger] entry_matches(i, vendor_id, product_id)
                    &&& forall|j: int| 0 <= j < i ==> !entry_matches(j, vendor_id, product_id)
                    &&& r == Ok::<Option<UsbDeviceInfo>, rusb::Error>(
                        Some(
                            UsbDeviceInfo {
                                device: Some(scan_stop(descriptors@, 0) as usize),
                                ..catalog()[i]
                            },
                        ),
                    )
                },
        },
{
    let mut k: usize = 0;
    while k < descriptors.len()
        invariant
            k <= descriptors@.len(),
            scan_stop(descriptors@, 0) == scan_stop(descriptors@, k as int),
        decreases descriptors@.len() - k,
    {
        match &descriptors[k] {
            Err(e) => {
                return Err(*e);
            },
            Ok((vendor_id, product_id)) => {
                if let Some(d) = supported_device_match(*vendor_id, *product_id) {
                    return Ok(
                        Some(
                            UsbDeviceInfo {
                                device: Some(k),
                                product_name: d.product_name,
                                manufacturer: d.manufacturer,
                                product_id: d.product_id,
                                vendor_id: d.vendor_id,
                            },
                        ),
                    );
                }
            },
        }
        k += 1;
    }
    Ok(None)
}

} // verus!
