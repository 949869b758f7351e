use vstd::prelude::*;

verus! {

/// The transport's error, `rusb::Error`. The library only carries such a value
/// from the caller's transfer into the error it reports.
#[verifier::external_type_specification]
#[verifier::external_body]
pub struct ExTransportError(rusb::Error);

/// Why an operation of the driver failed.
#[derive(Debug)]
pub enum SniffError {
    /// No attached device is in the catalog.
    NoSupportedDevices,
    /// The device could not be opened.
    Open,
    /// A control, bulk, claim or configuration transfer failed.
    Rusb(rusb::Error),
    /// A buffer was too short for a header field it must hold.
    Parse,
    /// The matched descriptor names no device that could be opened.
    MissingUsbDevice,
    /// A fixed-size piece could not be cut from a buffer.
    TryFromSlice,
    /// The radio did not report ready within the allowed number of polls.
    DeviceNotReady,
}

impl From<rusb::Error> for SniffError {
    fn from(err: rusb::Error) -> (r: Self) {
        SniffError::Rusb(err)
    }
}

impl vstd::std_specs::convert::FromSpecImpl<rusb::Error> for SniffError {
    open spec fn obeys_from_spec() -> bool {
        true
    }

    open spec fn from_spec(err: rusb::Error) -> Self {
        SniffError::Rusb(err)
    }
}

} // verus!
