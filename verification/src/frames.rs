//! The headers that the dongle puts in front of every USB frame.

use crate::endian::le_u32;
use vstd::prelude::*;
use vstd::slice::slice_subrange;

verus! {

/// Frame type of a captured 802.15.4 frame.
pub const FRAME_TYPE_DATA: u8 = 0;

/// Frame type of a tick report.
pub const FRAME_TYPE_TICK: u8 = 1;

/// Bytes of the header that every frame starts with.
pub const USB_HEADER_LEN: usize = 3;

/// Bytes of a data frame's header.
pub const DATA_HEADER_LEN: usize = 8;

/// What every USB frame starts with.
#[derive(Debug, Clone, Copy, PartialEq, Eq, Structural)]
pub struct UsbHeader {
    /// 0 for data, 1 for a tick, anything else is unknown.
    pub header_type: u8,
    /// Low byte of the frame's two-byte length field; the high byte is not kept.
    pub header_len: u8,
}

/// The header of a data frame.
#[derive(Debug, Clone, Copy, PartialEq, Eq, Structural)]
pub struct UsbDataHeader {
    pub header: UsbHeader,
    /// The device's tick count when the frame arrived.
    pub timestamp: u32,
    /// Length that the device reports for the 802.15.4 frame.
    pub wpan_length: u8,
}

/// The header of a tick frame.
#[derive(Debug, Clone, Copy, PartialEq, Eq, Structural)]
pub struct UsbTickHeader {
    pub header: UsbHeader,
    /// The device's 8-bit tick counter.
    pub tick: u8,
}

impl UsbHeader {
    /// The header that the first three bytes of a frame spell.
    pub open spec fn parse(data: Seq<u8>) -> UsbHeader
        recommends
            data.len() >= 3,
    {
        UsbHeader { header_type: data[0], header_len: data[1] }
    }
}

impl UsbDataHeader {
    /// The header that the first eight bytes of a data frame spell.
    pub open spec fn parse(data: Seq<u8>) -> UsbDataHeader
        recommends
            data.len() >= 8,
    {
        UsbDataHeader {
            header: UsbHeader::parse(data),
            timestamp: le_u32(data[3], data[4], data[5], data[6]),
            wpan_length: data[7],
        }
    }
}

impl UsbTickHeader {
    /// The header that the first four bytes of a tick frame spell.
    pub open spec fn parse(data: Seq<u8>) -> UsbTickHeader
        recommends
            data.len() >= 4,
    {
        UsbTickHeader { header: UsbHeader::parse(data), tick: data[3] }
    }
}

impl From<&[u8; 3]> for UsbHeader {
    fn from(data: &[u8; 3]) -> (r: Self) {
        UsbHeader { header_type: data[0], header_len: data[1] }
    }
}

impl vstd::std_specs::convert::FromSpecImpl<&[u8; 3]> for UsbHeader {
    open spec fn obeys_from_spec() -> bool {
        true
    }

    open spec fn from_spec(data: &[u8; 3]) -> Self {
        UsbHeader::parse(data@)
    }
}

impl From<&[u8; 8]> for UsbDataHeader {
    fn from(data: &[u8; 8]) -> (r: Self) {
        let timestamp: u32 = data[3] as u32 + data[4] as u32 * 0x100 + data[5] as u32 * 0x1_0000
            + data[6] as u32 * 0x100_0000;
        UsbDataHeader {
            header: UsbHeader { header_type: data[0], header_len: data[1] },
            timestamp,
            wpan_length: data[7],
        }
    }
}

impl vstd::std_specs::convert::FromSpecImpl<&[u8; 8]> for UsbDataHeader {
    open spec fn obeys_from_spec() -> bool {
        true
    }

    open spec fn from_spec(data: &[u8; 8]) -> Self {
        UsbDataHeader::parse(data@)
    }
}

impl From<&[u8; 4]> for UsbTickHeader {
    fn from(data: &[u8; 4]) -> (r: Self) {
        UsbTickHeader {
            header: UsbHeader { header_type: data[0], header_len: data[1] },
            tick: data[3],
        }
    }
}

impl vstd::std_specs::convert::FromSpecImpl<&[u8; 4]> for UsbTickHeader {
    open spec fn obeys_from_spec() -> bool {
        true
    }

    open spec fn from_spec(data: &[u8; 4]) -> Self {
        UsbTickHeader::parse(data@)
    }
}

/// What one USB frame holds, once its header is taken off.
#[derive(Debug, Clone, Copy)]
pub enum UsbFrame<'a> {
    /// An 802.15.4 frame, without the signal-strength byte that followed it.
    Data(&'a [u8]),
    /// A report of the device's tick counter.
    Tick(u8),
    /// A frame of a type that the driver does not know, whole.
    Unknown(&'a [u8]),
}

/// Whether a buffer is too short to hold a header of every kind.
pub open spec fn is_short(buffer: Seq<u8>) -> bool {
    buffer.len() < DATA_HEADER_LEN
}

/// Where the 802.15.4 frame of a data frame ends in the buffer: at the length
/// that the header reports, or at the end of the buffer if that comes first.
pub open spec fn payload_bound(buffer: Seq<u8>) -> int
    recommends
        !is_short(buffer),
{
    if (UsbDataHeader::parse(buffer).wpan_length as int) < buffer.len() {
        UsbDataHeader::parse(buffer).wpan_length as int
    } else {
        buffer.len() as int
    }
}

/// Whether a buffer is a data frame that carries an 802.15.4 frame.
pub open spec fn carries_payload(buffer: Seq<u8>) -> bool {
    &&& !is_short(buffer)
    &&& UsbHeader::parse(buffer).header_type == FRAME_TYPE_DATA
    &&& UsbDataHeader::parse(buffer).wpan_length > 5
    &&& payload_bound(buffer) > DATA_HEADER_LEN
}

/// The 802.15.4 frame that a data frame carries: what stands between the
/// header and the bound, less the last byte, which is the signal strength.
pub open spec fn payload(buffer: Seq<u8>) -> Seq<u8>
    recommends
        carries_payload(buffer),
{
    buffer.subrange(DATA_HEADER_LEN as int, payload_bound(buffer) - 1)
}

/// Whether a buffer is a tick frame.
pub open spec fn is_tick(buffer: Seq<u8>) -> bool {
    !is_short(buffer) && UsbHeader::parse(buffer).header_type == FRAME_TYPE_TICK
}

/// Whether a buffer is a frame of a type that the driver does not know.
pub open spec fn is_unknown(buffer: Seq<u8>) -> bool {
    &&& !is_short(buffer)
    &&& UsbHeader::parse(buffer).header_type != FRAME_TYPE_DATA
    &&& UsbHeader::parse(buffer).header_type != FRAME_TYPE_TICK
}

/// Sorts one buffer of a bulk transfer by the type in its header. `None` is a
/// buffer that is dropped: one shorter than a data header, or a data frame
/// that carries no 802.15.4 frame.
pub fn demultiplex<'a>(usb_frame: &'a [u8]) -> (r: Option<UsbFrame<'a>>)
    ensures
        carries_payload(usb_frame@) ==> (r matches Some(UsbFrame::Data(p)) && p@ == payload(
            usb_frame@,
        )),
        is_tick(usb_frame@) ==> (r matches Some(UsbFrame::Tick(t)) && t == UsbTickHeader::parse(
            usb_frame@,
        ).tick),
        is_unknown(usb_frame@) ==> (r matches Some(UsbFrame::Unknown(b)) && b@ == usb_frame@),
        !carries_payload(usb_frame@) && !is_tick(usb_frame@) && !is_unknown(usb_frame@)
            ==> r.is_none(),
        usb_frame@.len() < 8 ==> r.is_none(),
        usb_frame@.len() >= 8 && usb_frame@[0] == 0 && usb_frame@[7] <= 5 ==> r.is_none(),
{
    if usb_frame.len() < USB_HEADER_LEN || usb_frame.len() < DATA_HEADER_LEN {
        return None;
    }
    let header_type = usb_frame[0];
    if header_type == FRAME_TYPE_DATA {
        let wpan_length = usb_frame[7];
        if wpan_length <= 5 {
            return None;
        }
        let bound: usize = if (wpan_length as usize) < usb_frame.len() {
            wpan_length as usize
        } else {
            usb_frame.len()
        };
        if bound > DATA_HEADER_LEN {
            Some(UsbFrame::Data(slice_subrange(usb_frame, DATA_HEADER_LEN, bound - 1)))
        } else {
            None
        }
    } else if header_type == FRAME_TYPE_TICK {
        Some(UsbFrame::Tick(usb_frame[3]))
    } else {
        Some(UsbFrame::Unknown(usb_frame))
    }
}

} // verus!
