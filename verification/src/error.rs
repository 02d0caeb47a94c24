//! The two ways an operation of the driver can fail.

use vstd::prelude::*;

verus! {

/// Why an operation failed. The two kinds call for different remedies: the
/// first is a misuse of the driver, the second a problem on the bus.
#[derive(Clone, Copy, Debug, PartialEq, Eq)]
pub enum Ads1115Error {
    /// No gain has been set on the handle.
    NotConfigured,
    /// A bus transfer failed, most often because no device answers at the
    /// selected address.
    TransportError,
}

impl Ads1115Error {
    /// The text that describes the error to a person.
    pub open spec fn spec_message(self) -> Seq<char> {
        match self {
            Ads1115Error::NotConfigured => "gain is not set: set the gain before converting"@,
            Ads1115Error::TransportError =>
                "bus transfer failed: check that the device address is correct"@,
        }
    }

    /// The text that describes the error to a person. For a failed transfer it
    /// points at the device address as the likely cause.
    pub fn message(self) -> (text: &'static str)
        ensures
            text@ == self.spec_message(),
    {
        match self {
            Ads1115Error::NotConfigured => "gain is not set: set the gain before converting",
            Ads1115Error::TransportError =>
                "bus transfer failed: check that the device address is correct",
        }
    }
}

} // verus!
