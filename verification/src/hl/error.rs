//! Errors of the high-level interface

use vstd::prelude::*;
use crate::ll;
use crate::ll::{ChipSelect, Spi};
use byte::Error as ByteError;
use ssmarshal::Error as SsmarshalError;

verus! {

/// An error that occured while serializing or deserializing data (the
/// `ssmarshal` crate's error type)
#[verifier::external_type_specification]
#[verifier::external_body]
pub struct ExSsmarshalError(SsmarshalError);

/// An error that can occur when sending or receiving data
pub enum Error<SPI: Spi, CS: ChipSelect> {
    /// Error occured while using SPI bus
    Spi(ll::Error<SPI, CS>),
    /// Receiver FCS error
    Fcs,
    /// PHY header error
    Phy,
    /// Buffer too small
    BufferTooSmall {
        /// Indicates how large a buffer would have been required
        required_len: usize,
    },
    /// Receiver Reed Solomon Frame Sync Loss
    ReedSolomon,
    /// Receiver Frame Wait Timeout
    FrameWaitTimeout,
    /// Receiver Overrun
    Overrun,
    /// Preamble Detection Timeout
    PreambleDetectionTimeout,
    /// Receiver SFD Timeout
    SfdTimeout,
    /// Frame was rejected because due to automatic frame filtering
    ///
    /// It seems that frame filtering is typically handled transparently by the
    /// hardware, and filtered frames aren't usually visible to the driver.
    /// However, sometimes a filtered frame bubbles up and disrupts an ongoing
    /// receive operation, which then causes this error.
    FrameFilteringRejection,
    /// Frame could not be decoded
    Frame(ByteError),
    /// A delayed frame could not be sent in time
    ///
    /// Please note that the frame was still sent. Replies could still arrive,
    /// and if it was a ranging frame, the resulting range measurement will be
    /// wrong.
    DelayedSendTooLate,
    /// Transmitter could not power up in time for delayed send
    ///
    /// The frame was still transmitted, but the first bytes of the preamble
    /// were likely corrupted.
    DelayedSendPowerUpWarning,
    /// An error occured while serializing or deserializing data
    Ssmarshal(SsmarshalError),
    /// The configuration was not valid. Some combinations of settings are not
    /// allowed.
    InvalidConfiguration,
    /// The receive operation hasn't finished yet
    RxNotFinished,
    /// It was expected that the radio would have woken up, but it hasn't.
    StillAsleep,
    /// The RSSI was not calculable.
    BadRssiCalculation,
    /// A status bit that the driver waits on kept its value for more than
    /// `u32::MAX` polls
    PollTimeout,
}

impl<SPI: Spi, CS: ChipSelect> From<ll::Error<SPI, CS>> for Error<SPI, CS> {
    fn from(error: ll::Error<SPI, CS>) -> (r: Self) {
        Error::Spi(error)
    }
}

impl<SPI: Spi, CS: ChipSelect> vstd::std_specs::convert::FromSpecImpl<ll::Error<SPI, CS>> for Error<SPI, CS> {
    open spec fn obeys_from_spec() -> bool {
        true
    }

    open spec fn from_spec(v: ll::Error<SPI, CS>) -> Self {
        Error::Spi(v)
    }
}

} // verus!
