//! Driver logic for the CC253x USB radio dongle: the vendor's USB framing is
//! demultiplexed into IEEE 802.15.4 frames, and those are laid out as a
//! standard packet-capture file.
//!
//! The library never touches the bus or the disk. The session tells its
//! caller which transfer to make next and takes the outcome back; the capture
//! writer fills a buffer that the caller drains into a file.

pub mod devices;
pub mod endian;
pub mod error;
pub mod frames;
pub mod pcap;

pub use error::SniffError;
pub use frames::{UsbDataHeader, UsbHeader, UsbTickHeader};
pub use pcap::{Pcap, PcapHeader, PcapRecordHeader};
