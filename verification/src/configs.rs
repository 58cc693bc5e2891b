//! Configuration structs for sending and receiving
//!
//! This module houses the datastructures that control how frames are
//! transmitted and received. The configs are passed to the send and receive
//! functions.

use vstd::prelude::*;
use crate::hl::Error;
use crate::ll::{ChipSelect, Spi};

verus! {

/// Transmit configuration
#[derive(Copy, Clone, Debug)]
pub struct TxConfig {
    /// Sets the bitrate of the transmission
    pub bitrate: BitRate,
    /// Sets the ranging bit in the transmitted frame.
    /// This has no effect on the capabilities of the DW1000
    pub ranging_enable: bool,
    /// Sets the PRF value of the transmission
    pub pulse_repetition_frequency: PulseRepetitionFrequency,
    /// The length of the preamble
    pub preamble_length: PreambleLength,
    /// The channel that the DW1000 will transmit at.
    pub channel: UwbChannel,
    /// The SFD sequence that is used to transmit a frame.
    pub sfd_sequence: SfdSequence,
}

impl Default for TxConfig {
    fn default() -> (r: Self)
        ensures
            r.bitrate == BitRate::Kbps6800,
            r.ranging_enable == false,
            r.pulse_repetition_frequency == PulseRepetitionFrequency::Mhz16,
            r.preamble_length == PreambleLength::Bits128,
            r.channel == UwbChannel::Channel5,
            r.sfd_sequence == SfdSequence::IEEE,
    {
        TxConfig {
            bitrate: BitRate::default(),
            ranging_enable: false,
            pulse_repetition_frequency: PulseRepetitionFrequency::default(),
            preamble_length: PreambleLength::default(),
            channel: UwbChannel::default(),
            sfd_sequence: SfdSequence::default(),
        }
    }
}

/// The bitrate at which a message is transmitted
#[derive(Copy, Clone, Debug, PartialEq, Eq, Structural)]
pub enum BitRate {
    /// 110 kilobits per second.
    /// This is an unofficial extension from decawave.
    Kbps110,
    /// 850 kilobits per second.
    Kbps850,
    /// 6.8 megabits per second.
    Kbps6800,
}

impl Default for BitRate {
    fn default() -> (r: Self)
        ensures
            r == BitRate::Kbps6800,
    {
        BitRate::Kbps6800
    }
}

impl BitRate {
    /// The value of the bitrate in the TXBR and RXBR register fields
    pub open spec fn spec_bits(self) -> u8 {
        match self {
            BitRate::Kbps110 => 0b00,
            BitRate::Kbps850 => 0b01,
            BitRate::Kbps6800 => 0b10,
        }
    }

    /// Returns the value of the bitrate in the TXBR register field
    pub fn bits(&self) -> (r: u8)
        ensures
            r == self.spec_bits(),
    {
        match self {
            BitRate::Kbps110 => 0b00,
            BitRate::Kbps850 => 0b01,
            BitRate::Kbps6800 => 0b10,
        }
    }

    /// The recommended drx_tune0b value (Table 30 of the DW1000 User Manual)
    pub open spec fn spec_drx_tune0b(self, sfd_sequence: SfdSequence) -> u16 {
        match (self, sfd_sequence) {
            (BitRate::Kbps110, SfdSequence::IEEE) => 0x000A,
            (BitRate::Kbps110, _) => 0x0016,
            (BitRate::Kbps850, SfdSequence::IEEE) => 0x0001,
            (BitRate::Kbps850, _) => 0x0006,
            (BitRate::Kbps6800, SfdSequence::IEEE) => 0x0001,
            (BitRate::Kbps6800, _) => 0x0002,
        }
    }

    /// Gets the recommended drx_tune0b value for the bitrate and sfd.
    pub fn get_recommended_drx_tune0b(&self, sfd_sequence: SfdSequence) -> (r: u16)
        ensures
            r == self.spec_drx_tune0b(sfd_sequence),
    {
        // Values are taken from Table 30 of the DW1000 User Manual.
        match (self, sfd_sequence) {
            (BitRate::Kbps110, SfdSequence::IEEE) => 0x000A,
            (BitRate::Kbps110, _) => 0x0016,
            (BitRate::Kbps850, SfdSequence::IEEE) => 0x0001,
            (BitRate::Kbps850, _) => 0x0006,
            (BitRate::Kbps6800, SfdSequence::IEEE) => 0x0001,
            (BitRate::Kbps6800, _) => 0x0002,
        }
    }
}

/// The PRF value
#[derive(Copy, Clone, Debug, PartialEq, Eq, Structural)]
pub enum PulseRepetitionFrequency {
    /// 16 megahertz
    Mhz16,
    /// 64 megahertz
    Mhz64,
}

impl Default for PulseRepetitionFrequency {
    fn default() -> (r: Self)
        ensures
            r == PulseRepetitionFrequency::Mhz16,
    {
        PulseRepetitionFrequency::Mhz16
    }
}

impl PulseRepetitionFrequency {
    /// The value of the PRF in the TXPRF and RXPRF register fields
    pub open spec fn spec_bits(self) -> u8 {
        match self {
            PulseRepetitionFrequency::Mhz16 => 0b01,
            PulseRepetitionFrequency::Mhz64 => 0b10,
        }
    }

    /// Returns the value of the PRF in the TXPRF and RXPRF register fields
    pub fn bits(&self) -> (r: u8)
        ensures
            r == self.spec_bits(),
    {
        match self {
            PulseRepetitionFrequency::Mhz16 => 0b01,
            PulseRepetitionFrequency::Mhz64 => 0b10,
        }
    }

    /// The recommended drx_tune1a value (Table 31 of the DW1000 User Manual)
    pub open spec fn spec_drx_tune1a(self) -> u16 {
        match self {
            PulseRepetitionFrequency::Mhz16 => 0x0087,
            PulseRepetitionFrequency::Mhz64 => 0x008D,
        }
    }

    /// Gets the recommended value for the drx_tune1a register based on the PRF
    pub fn get_recommended_drx_tune1a(&self) -> (r: u16)
        ensures
            r == self.spec_drx_tune1a(),
    {
        // Values taken from Table 31 of the DW1000 User Manual.
        match self {
            PulseRepetitionFrequency::Mhz16 => 0x0087,
            PulseRepetitionFrequency::Mhz64 => 0x008D,
        }
    }

    /// The recommended drx_tune2 value (Table 33 of the DW1000 User Manual),
    /// if the PAC size is one that the table covers
    pub open spec fn spec_drx_tune2(self, pac_size: u8) -> Option<u32> {
        match (self, pac_size) {
            (PulseRepetitionFrequency::Mhz16, 8) => Some(0x311A002D),
            (PulseRepetitionFrequency::Mhz64, 8) => Some(0x313B006B),
            (PulseRepetitionFrequency::Mhz16, 16) => Some(0x331A0052),
            (PulseRepetitionFrequency::Mhz64, 16) => Some(0x333B00BE),
            (PulseRepetitionFrequency::Mhz16, 32) => Some(0x351A009A),
            (PulseRepetitionFrequency::Mhz64, 32) => Some(0x353B015E),
            (PulseRepetitionFrequency::Mhz16, 64) => Some(0x371A011D),
            (PulseRepetitionFrequency::Mhz64, 64) => Some(0x373B0296),
            _ => None,
        }
    }

    /// Gets the recommended value for the drx_tune2 register based on the PRF
    /// and PAC size
    pub fn get_recommended_drx_tune2<SPI: Spi, CS: ChipSelect>(&self, pac_size: u8) -> (r: Result<
        u32,
        Error<SPI, CS>,
    >)
        ensures
            r matches Ok(v) ==> self.spec_drx_tune2(pac_size) == Some(v),
            r is Err ==> self.spec_drx_tune2(pac_size) is None && r matches Err(
                Error::InvalidConfiguration,
            ),
    {
        // Values taken from Table 33 of the DW1000 User Manual.
        match (self, pac_size) {
            (PulseRepetitionFrequency::Mhz16, 8) => Ok(0x311A002D),
            (PulseRepetitionFrequency::Mhz64, 8) => Ok(0x313B006B),
            (PulseRepetitionFrequency::Mhz16, 16) => Ok(0x331A0052),
            (PulseRepetitionFrequency::Mhz64, 16) => Ok(0x333B00BE),
            (PulseRepetitionFrequency::Mhz16, 32) => Ok(0x351A009A),
            (PulseRepetitionFrequency::Mhz64, 32) => Ok(0x353B015E),
            (PulseRepetitionFrequency::Mhz16, 64) => Ok(0x371A011D),
            (PulseRepetitionFrequency::Mhz64, 64) => Ok(0x373B0296),
            // The PAC size is something we didn't expect
            _ => Err(Error::InvalidConfiguration),
        }
    }
}

/// An enum that specifies the length of the preamble.
///
/// Longer preambles improve the reception quality and thus range. This comes
/// at the cost of longer transmission times and thus power consumption and
/// bandwidth use.
///
/// For the bit pattern, see table 16 in the user manual. Two bits TXPSR, then
/// two bits PE.
#[derive(Copy, Clone, Debug, PartialEq, Eq, Structural)]
pub enum PreambleLength {
    /// 64 bits of preamble.
    /// Only supported at Bitrate::Kbps6800.
    Bits64,
    /// 128 bits of preamble.
    /// Only supported at Bitrate::Kbps850 & Bitrate::Kbps6800.
    /// Unofficial extension from decawave.
    Bits128,
    /// 256 bits of preamble.
    /// Only supported at Bitrate::Kbps850 & Bitrate::Kbps6800.
    /// Unofficial extension from decawave.
    Bits256,
    /// 512 bits of preamble.
    /// Only supported at Bitrate::Kbps850 & Bitrate::Kbps6800.
    /// Unofficial extension from decawave.
    Bits512,
    /// 1024 bits of preamble.
    /// Only supported at Bitrate::Kbps850 & Bitrate::Kbps6800.
    Bits1024,
    /// 1536 bits of preamble.
    /// Only supported at Bitrate::Kbps110.
    /// Unofficial extension from decawave.
    Bits1536,
    /// 2048 bits of preamble.
    /// Only supported at Bitrate::Kbps110.
    /// Unofficial extension from decawave.
    Bits2048,
    /// 4096 bits of preamble.
    /// Only supported at Bitrate::Kbps110.
    Bits4096,
}

impl Default for PreambleLength {
    fn default() -> (r: Self)
        ensures
            r == PreambleLength::Bits128,
    {
        PreambleLength::Bits128
    }
}

impl PreambleLength {
    /// The bit pattern of the preamble length: two bits TXPSR, then two bits
    /// PE (table 16 of the user manual)
    pub open spec fn spec_bits(self) -> u8 {
        match self {
            PreambleLength::Bits64 => 0b0100,
            PreambleLength::Bits128 => 0b0101,
            PreambleLength::Bits256 => 0b0110,
            PreambleLength::Bits512 => 0b0111,
            PreambleLength::Bits1024 => 0b1000,
            PreambleLength::Bits1536 => 0b1001,
            PreambleLength::Bits2048 => 0b1010,
            PreambleLength::Bits4096 => 0b1100,
        }
    }

    /// Returns the bit pattern of the preamble length
    pub fn bits(&self) -> (r: u8)
        ensures
            r == self.spec_bits(),
    {
        match self {
            PreambleLength::Bits64 => 0b0100,
            PreambleLength::Bits128 => 0b0101,
            PreambleLength::Bits256 => 0b0110,
            PreambleLength::Bits512 => 0b0111,
            PreambleLength::Bits1024 => 0b1000,
            PreambleLength::Bits1536 => 0b1001,
            PreambleLength::Bits2048 => 0b1010,
            PreambleLength::Bits4096 => 0b1100,
        }
    }

    /// The recommended PAC size (Table 6 of the DW1000 User manual)
    pub open spec fn spec_pac_size(self) -> u8 {
        match self {
            PreambleLength::Bits64 => 8,
            PreambleLength::Bits128 => 8,
            PreambleLength::Bits256 => 16,
            PreambleLength::Bits512 => 16,
            PreambleLength::Bits1024 => 32,
            PreambleLength::Bits1536 => 64,
            PreambleLength::Bits2048 => 64,
            PreambleLength::Bits4096 => 64,
        }
    }

    /// Gets the recommended PAC size based on the preamble length.
    pub fn get_recommended_pac_size(&self) -> (r: u8)
        ensures
            r == self.spec_pac_size(),
    {
        // Values are taken from Table 6 of the DW1000 User manual
        match self {
            PreambleLength::Bits64 => 8,
            PreambleLength::Bits128 => 8,
            PreambleLength::Bits256 => 16,
            PreambleLength::Bits512 => 16,
            PreambleLength::Bits1024 => 32,
            PreambleLength::Bits1536 => 64,
            PreambleLength::Bits2048 => 64,
            PreambleLength::Bits4096 => 64,
        }
    }

    /// The recommended drx_tune1b value (Table 32 of the DW1000 User manual),
    /// if the combination of preamble length and bitrate is supported
    pub open spec fn spec_drx_tune1b(self, bitrate: BitRate) -> Option<u16> {
        match (self, bitrate) {
            (PreambleLength::Bits64, BitRate::Kbps6800) => Some(0x0010),
            (PreambleLength::Bits128, BitRate::Kbps6800) => Some(0x0020),
            (PreambleLength::Bits256, BitRate::Kbps6800) => Some(0x0020),
            (PreambleLength::Bits512, BitRate::Kbps6800) => Some(0x0020),
            (PreambleLength::Bits1024, BitRate::Kbps6800) => Some(0x0020),
            (PreambleLength::Bits128, BitRate::Kbps850) => Some(0x0020),
            (PreambleLength::Bits256, BitRate::Kbps850) => Some(0x0020),
            (PreambleLength::Bits512, BitRate::Kbps850) => Some(0x0020),
            (PreambleLength::Bits1024, BitRate::Kbps850) => Some(0x0020),
            (PreambleLength::Bits1536, BitRate::Kbps110) => Some(0x0064),
            (PreambleLength::Bits2048, BitRate::Kbps110) => Some(0x0064),
            (PreambleLength::Bits4096, BitRate::Kbps110) => Some(0x0064),
            _ => None,
        }
    }

    /// Gets the recommended drx_tune1b register value based on the preamble
    /// length and the bitrate.
    pub fn get_recommended_drx_tune1b<SPI: Spi, CS: ChipSelect>(&self, bitrate: BitRate) -> (r:
        Result<u16, Error<SPI, CS>>)
        ensures
            r matches Ok(v) ==> self.spec_drx_tune1b(bitrate) == Some(v),
            r is Err ==> self.spec_drx_tune1b(bitrate) is None && r matches Err(
                Error::InvalidConfiguration,
            ),
    {
        // Values are taken from Table 32 of the DW1000 User manual
        match (self, bitrate) {
            (PreambleLength::Bits64, BitRate::Kbps6800) => Ok(0x0010),
            (PreambleLength::Bits128, BitRate::Kbps6800) => Ok(0x0020),
            (PreambleLength::Bits256, BitRate::Kbps6800) => Ok(0x0020),
            (PreambleLength::Bits512, BitRate::Kbps6800) => Ok(0x0020),
            (PreambleLength::Bits1024, BitRate::Kbps6800) => Ok(0x0020),
            (PreambleLength::Bits128, BitRate::Kbps850) => Ok(0x0020),
            (PreambleLength::Bits256, BitRate::Kbps850) => Ok(0x0020),
            (PreambleLength::Bits512, BitRate::Kbps850) => Ok(0x0020),
            (PreambleLength::Bits1024, BitRate::Kbps850) => Ok(0x0020),
            (PreambleLength::Bits1536, BitRate::Kbps110) => Ok(0x0064),
            (PreambleLength::Bits2048, BitRate::Kbps110) => Ok(0x0064),
            (PreambleLength::Bits4096, BitRate::Kbps110) => Ok(0x0064),
            _ => Err(Error::InvalidConfiguration),
        }
    }

    /// The recommended dxr_tune4h value (Table 34 of the DW1000 User manual)
    pub open spec fn spec_dxr_tune4h(self) -> u16 {
        match self {
            PreambleLength::Bits64 => 0x0010,
            _ => 0x0028,
        }
    }

    /// Gets the recommended dxr_tune4h register value based on the preamble
    /// length.
    pub fn get_recommended_dxr_tune4h(&self) -> (r: u16)
        ensures
            r == self.spec_dxr_tune4h(),
    {
        // Values are taken from Table 34 of the DW1000 User manual
        match self {
            PreambleLength::Bits64 => 0x0010,
            _ => 0x0028,
        }
    }
}

/// An enum that allows the selection between different SFD sequences
#[derive(Copy, Clone, Debug, PartialEq, Eq, Structural)]
pub enum SfdSequence {
    /// The standard sequence defined by the IEEE standard.
    IEEE,
    /// A sequence defined by Decawave that is supposed to be more robust.
    /// This is an unofficial addition.
    Decawave,
    /// Uses the sequence that is programmed in by the user.
    /// This is an unofficial addition.
    User,
}

impl Default for SfdSequence {
    fn default() -> (r: Self)
        ensures
            r == SfdSequence::IEEE,
    {
        SfdSequence::IEEE
    }
}

/// Receive configuration
#[derive(Copy, Clone, Debug, PartialEq, Eq, Structural)]
pub struct RxConfig {
    /// Enable frame filtering
    ///
    /// If true, only frames directly addressed to this node and broadcasts
    /// will be received.
    ///
    /// Defaults to `true`.
    pub frame_filtering: bool,
    /// The expected preamble length.
    /// This affects the chosen PAC size.
    pub expected_preamble_length: PreambleLength,
    /// The bitrate that will be used for reception
    pub bitrate: BitRate,
    /// The type of SFD sequence that will be scanned for
    pub sfd_sequence: SfdSequence,
    /// The channel that the DW1000 will listen at.
    pub channel: UwbChannel,
    /// Sets the PRF value of the reception
    pub pulse_repetition_frequency: PulseRepetitionFrequency,
}

impl Default for RxConfig {
    fn default() -> (r: Self)
        ensures
            r.frame_filtering == true,
            r.expected_preamble_length == PreambleLength::Bits128,
            r.bitrate == BitRate::Kbps6800,
            r.sfd_sequence == SfdSequence::IEEE,
            r.channel == UwbChannel::Channel5,
            r.pulse_repetition_frequency == PulseRepetitionFrequency::Mhz16,
    {
        RxConfig {
            frame_filtering: true,
            expected_preamble_length: PreambleLength::default(),
            bitrate: BitRate::default(),
            sfd_sequence: SfdSequence::default(),
            channel: UwbChannel::default(),
            pulse_repetition_frequency: PulseRepetitionFrequency::default(),
        }
    }
}

/// All the available UWB channels.
///
/// Note that while a channel may have more bandwidth than ~900 Mhz, the DW1000
/// can only send up to ~900 Mhz
#[derive(Copy, Clone, Debug, PartialEq, Eq, Structural)]
pub enum UwbChannel {
    /// Channel 1
    /// - Center frequency: 3494.4 Mhz
    /// - Bandwidth: 499.2 Mhz
    Channel1,
    /// Channel 2
    /// - Center frequency: 3993.6 Mhz
    /// - Bandwidth: 499.2 Mhz
    Channel2,
    /// Channel 3
    /// - Center frequency: 4492.8 Mhz
    /// - Bandwidth: 499.2 Mhz
    Channel3,
    /// Channel 4
    /// - Center frequency: 3993.6 Mhz
    /// - Bandwidth: 1331.2 Mhz
    Channel4,
    /// Channel 5
    /// - Center frequency: 6489.6 Mhz
    /// - Bandwidth: 499.2 Mhz
    Channel5,
    /// Channel 7
    /// - Center frequency: 6489.6 Mhz
    /// - Bandwidth: 1081.6 Mhz
    Channel7,
}

impl Default for UwbChannel {
    fn default() -> (r: Self)
        ensures
            r == UwbChannel::Channel5,
    {
        UwbChannel::Channel5
    }
}

impl UwbChannel {
    /// The channel number, as written to the TX_CHAN and RX_CHAN register
    /// fields
    pub open spec fn spec_bits(self) -> u8 {
        match self {
            UwbChannel::Channel1 => 1,
            UwbChannel::Channel2 => 2,
            UwbChannel::Channel3 => 3,
            UwbChannel::Channel4 => 4,
            UwbChannel::Channel5 => 5,
            UwbChannel::Channel7 => 7,
        }
    }

    /// Returns the channel number
    pub fn bits(&self) -> (r: u8)
        ensures
            r == self.spec_bits(),
    {
        match self {
            UwbChannel::Channel1 => 1,
            UwbChannel::Channel2 => 2,
            UwbChannel::Channel3 => 3,
            UwbChannel::Channel4 => 4,
            UwbChannel::Channel5 => 5,
            UwbChannel::Channel7 => 7,
        }
    }

    /// Whether the channel has the narrow (~500 MHz) bandwidth
    pub open spec fn spec_is_narrow(self) -> bool {
        !(self == UwbChannel::Channel4 || self == UwbChannel::Channel7)
    }

    /// Returns whether the channel has the narrow (~500 MHz) bandwidth, as
    /// opposed to the wide (~900 MHz) bandwidth of channels 4 and 7.
    pub fn is_narrow(&self) -> (r: bool)
        ensures
            r == self.spec_is_narrow(),
    {
        match self {
            UwbChannel::Channel4 | UwbChannel::Channel7 => false,
            _ => true,
        }
    }

    /// The recommended preamble code for the channel and PRF
    pub open spec fn spec_preamble_code(self, prf_value: PulseRepetitionFrequency) -> u8 {
        match (self, prf_value) {
            (UwbChannel::Channel1, PulseRepetitionFrequency::Mhz16) => 1,
            (UwbChannel::Channel2, PulseRepetitionFrequency::Mhz16) => 3,
            (UwbChannel::Channel3, PulseRepetitionFrequency::Mhz16) => 5,
            (UwbChannel::Channel4, PulseRepetitionFrequency::Mhz16) => 7,
            (UwbChannel::Channel5, PulseRepetitionFrequency::Mhz16) => 4,
            (UwbChannel::Channel7, PulseRepetitionFrequency::Mhz16) => 8,
            (UwbChannel::Channel1, PulseRepetitionFrequency::Mhz64) => 9,
            (UwbChannel::Channel2, PulseRepetitionFrequency::Mhz64) => 10,
            (UwbChannel::Channel3, PulseRepetitionFrequency::Mhz64) => 11,
            (UwbChannel::Channel4, PulseRepetitionFrequency::Mhz64) => 17,
            (UwbChannel::Channel5, PulseRepetitionFrequency::Mhz64) => 12,
            (UwbChannel::Channel7, PulseRepetitionFrequency::Mhz64) => 18,
        }
    }

    /// Gets the recommended preamble code
    pub fn get_recommended_preamble_code(&self, prf_value: PulseRepetitionFrequency) -> (r: u8)
        ensures
            r == self.spec_preamble_code(prf_value),
    {
        // Many have overlapping possibilities, so the numbers have been chosen
        // so that there's no overlap here
        match (self, prf_value) {
            (UwbChannel::Channel1, PulseRepetitionFrequency::Mhz16) => 1,
            (UwbChannel::Channel2, PulseRepetitionFrequency::Mhz16) => 3,
            (UwbChannel::Channel3, PulseRepetitionFrequency::Mhz16) => 5,
            (UwbChannel::Channel4, PulseRepetitionFrequency::Mhz16) => 7,
            (UwbChannel::Channel5, PulseRepetitionFrequency::Mhz16) => 4,
            (UwbChannel::Channel7, PulseRepetitionFrequency::Mhz16) => 8,
            (UwbChannel::Channel1, PulseRepetitionFrequency::Mhz64) => 9,
            (UwbChannel::Channel2, PulseRepetitionFrequency::Mhz64) => 10,
            (UwbChannel::Channel3, PulseRepetitionFrequency::Mhz64) => 11,
            (UwbChannel::Channel4, PulseRepetitionFrequency::Mhz64) => 17,
            (UwbChannel::Channel5, PulseRepetitionFrequency::Mhz64) => 12,
            (UwbChannel::Channel7, PulseRepetitionFrequency::Mhz64) => 18,
        }
    }

    /// The recommended rf_txctrl value (Table 38 of the DW1000 User Manual)
    pub open spec fn spec_rf_txctrl(self) -> u32 {
        match self {
            UwbChannel::Channel1 => 0x00005C40,
            UwbChannel::Channel2 => 0x00045CA0,
            UwbChannel::Channel3 => 0x00086CC0,
            UwbChannel::Channel4 => 0x00045C80,
            UwbChannel::Channel5 => 0x001E3FE0,
            UwbChannel::Channel7 => 0x001E7DE0,
        }
    }

    /// Gets the recommended value for the rf_txctrl register
    pub fn get_recommended_rf_txctrl(&self) -> (r: u32)
        ensures
            r == self.spec_rf_txctrl(),
    {
        // Values based on Table 38 of the DW1000 User Manual
        match self {
            UwbChannel::Channel1 => 0x00005C40,
            UwbChannel::Channel2 => 0x00045CA0,
            UwbChannel::Channel3 => 0x00086CC0,
            UwbChannel::Channel4 => 0x00045C80,
            UwbChannel::Channel5 => 0x001E3FE0,
            UwbChannel::Channel7 => 0x001E7DE0,
        }
    }

    /// The recommended tc_pgdelay value (Table 40 of the DW1000 User Manual)
    pub open spec fn spec_tc_pgdelay(self) -> u8 {
        match self {
            UwbChannel::Channel1 => 0xC9,
            UwbChannel::Channel2 => 0xC2,
            UwbChannel::Channel3 => 0xC5,
            UwbChannel::Channel4 => 0x95,
            UwbChannel::Channel5 => 0xC0,
            UwbChannel::Channel7 => 0x93,
        }
    }

    /// Gets the recommended value for the tc_pgdelay register
    pub fn get_recommended_tc_pgdelay(&self) -> (r: u8)
        ensures
            r == self.spec_tc_pgdelay(),
    {
        // Values based on Table 40 of the DW1000 User Manual
        match self {
            UwbChannel::Channel1 => 0xC9,
            UwbChannel::Channel2 => 0xC2,
            UwbChannel::Channel3 => 0xC5,
            UwbChannel::Channel4 => 0x95,
            UwbChannel::Channel5 => 0xC0,
            UwbChannel::Channel7 => 0x93,
        }
    }

    /// The recommended fs_pllcfg value (Table 43 of the DW1000 User Manual)
    pub open spec fn spec_fs_pllcfg(self) -> u32 {
        match self {
            UwbChannel::Channel1 => 0x09000407,
            UwbChannel::Channel2 | UwbChannel::Channel4 => 0x08400508,
            UwbChannel::Channel3 => 0x08401009,
            UwbChannel::Channel5 | UwbChannel::Channel7 => 0x0800041D,
        }
    }

    /// Gets the recommended value for the fs_pllcfg register
    pub fn get_recommended_fs_pllcfg(&self) -> (r: u32)
        ensures
            r == self.spec_fs_pllcfg(),
    {
        // Values based on Table 43 of the DW1000 User Manual
        match self {
            UwbChannel::Channel1 => 0x09000407,
            UwbChannel::Channel2 | UwbChannel::Channel4 => 0x08400508,
            UwbChannel::Channel3 => 0x08401009,
            UwbChannel::Channel5 | UwbChannel::Channel7 => 0x0800041D,
        }
    }

    /// The recommended fs_plltune value (Table 44 of the DW1000 User Manual)
    pub open spec fn spec_fs_plltune(self) -> u8 {
        match self {
            UwbChannel::Channel1 => 0x1E,
            UwbChannel::Channel2 | UwbChannel::Channel4 => 0x26,
            UwbChannel::Channel3 => 0x56,
            UwbChannel::Channel5 | UwbChannel::Channel7 => 0xBE,
        }
    }

    /// Gets the recommended value for the fs_plltune register
    pub fn get_recommended_fs_plltune(&self) -> (r: u8)
        ensures
            r == self.spec_fs_plltune(),
    {
        // Values based on Table 44 of the DW1000 User Manual
        match self {
            UwbChannel::Channel1 => 0x1E,
            UwbChannel::Channel2 | UwbChannel::Channel4 => 0x26,
            UwbChannel::Channel3 => 0x56,
            UwbChannel::Channel5 | UwbChannel::Channel7 => 0xBE,
        }
    }

    /// The recommended rf_rxctrlh value (Table 37 of the DW1000 User Manual)
    pub open spec fn spec_rf_rxctrlh(self) -> u8 {
        match self {
            UwbChannel::Channel1 | UwbChannel::Channel2 | UwbChannel::Channel3
            | UwbChannel::Channel5 => 0xD8,
            UwbChannel::Channel4 | UwbChannel::Channel7 => 0xBC,
        }
    }

    /// Gets the recommended value for the rf_rxctrlh register
    pub fn get_recommended_rf_rxctrlh(&self) -> (r: u8)
        ensures
            r == self.spec_rf_rxctrlh(),
    {
        // Values based on Table 37 of the DW1000 User Manual
        match self {
            UwbChannel::Channel1 | UwbChannel::Channel2 | UwbChannel::Channel3
            | UwbChannel::Channel5 => 0xD8,
            UwbChannel::Channel4 | UwbChannel::Channel7 => 0xBC,
        }
    }
}

/// The length of a preamble, in bits
pub open spec fn preamble_bits(pl: PreambleLength) -> nat {
    match pl {
        PreambleLength::Bits64 => 64,
        PreambleLength::Bits128 => 128,
        PreambleLength::Bits256 => 256,
        PreambleLength::Bits512 => 512,
        PreambleLength::Bits1024 => 1024,
        PreambleLength::Bits1536 => 1536,
        PreambleLength::Bits2048 => 2048,
        PreambleLength::Bits4096 => 4096,
    }
}

/// A preamble of `pl` can be received at `bitrate`, as the documentation of
/// `PreambleLength` says: up to 1024 bits at 6.8 Mbps, from 128 up to 1024
/// bits at 850 kbps, and from 1536 bits on at 110 kbps.
pub open spec fn preamble_supported(pl: PreambleLength, bitrate: BitRate) -> bool {
    let bits = preamble_bits(pl);
    match bitrate {
        BitRate::Kbps6800 => bits <= 1024,
        BitRate::Kbps850 => 128 <= bits <= 1024,
        BitRate::Kbps110 => bits >= 1536,
    }
}

/// There is a recommended DRX_TUNE1B value exactly for the preamble lengths
/// that a bitrate supports. It depends on the preamble length alone: 0x0010
/// for 64 bits, 0x0020 from 128 up to 1024 bits, and 0x0064 for longer
/// preambles (user manual, table 32).
pub proof fn lemma_drx_tune1b_for_supported_preambles(pl: PreambleLength, bitrate: BitRate)
    ensures
        pl.spec_drx_tune1b(bitrate) is Some <==> preamble_supported(pl, bitrate),
        preamble_supported(pl, bitrate) ==> pl.spec_drx_tune1b(bitrate) == Some(
            if preamble_bits(pl) == 64 {
                0x0010u16
            } else if preamble_bits(pl) <= 1024 {
                0x0020u16
            } else {
                0x0064u16
            },
        ),
{
}

/// The centre frequency of a channel, in kHz
pub open spec fn centre_frequency_khz(channel: UwbChannel) -> nat {
    match channel {
        UwbChannel::Channel1 => 3_494_400,
        UwbChannel::Channel2 => 3_993_600,
        UwbChannel::Channel3 => 4_492_800,
        UwbChannel::Channel4 => 3_993_600,
        UwbChannel::Channel5 => 6_489_600,
        UwbChannel::Channel7 => 6_489_600,
    }
}

/// The synthesiser settings follow the centre frequency: two channels get
/// the same FS_PLLCFG value, and the same FS_PLLTUNE value, exactly when
/// they have the same centre frequency (user manual, tables 43 and 44).
pub proof fn lemma_pll_settings_follow_centre_frequency(a: UwbChannel, b: UwbChannel)
    ensures
        (a.spec_fs_pllcfg() == b.spec_fs_pllcfg()) <==> (centre_frequency_khz(a) == centre_frequency_khz(b)),
        (a.spec_fs_plltune() == b.spec_fs_plltune()) <==> (centre_frequency_khz(a) == centre_frequency_khz(b)),
{
}

} // verus!
