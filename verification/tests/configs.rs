use dw1000::configs::{BitRate, PreambleLength, PulseRepetitionFrequency, SfdSequence, UwbChannel};
use dw1000::hl::Error;
use dw1000::ll::{ChipSelect, Spi};
use dw1000::{RxConfig, TxConfig};

struct NoSpi;
struct NoCs;

impl Spi for NoSpi {
    type TransferError = ();
    type WriteError = ();
    fn transfer(&mut self, _: &mut [u8; 128], _: usize) -> Result<(), ()> {
        Ok(())
    }
    fn write(&mut self, _: &[u8; 128], _: usize) -> Result<(), ()> {
        Ok(())
    }
}

impl ChipSelect for NoCs {
    type Error = ();
    fn set_low(&mut self) -> Result<(), ()> {
        Ok(())
    }
    fn set_high(&mut self) -> Result<(), ()> {
        Ok(())
    }
}

#[test]
fn defaults() {
    let tx = TxConfig::default();
    assert_eq!(tx.bitrate, BitRate::Kbps6800);
    assert!(!tx.ranging_enable);
    assert_eq!(tx.channel, UwbChannel::Channel5);
    let rx = RxConfig::default();
    assert!(rx.frame_filtering);
    assert_eq!(rx.expected_preamble_length, PreambleLength::Bits128);
    assert_eq!(rx.sfd_sequence, SfdSequence::IEEE);
    assert_eq!(rx.pulse_repetition_frequency, PulseRepetitionFrequency::Mhz16);
}

#[test]
fn recommended_values() {
    assert_eq!(BitRate::Kbps110.get_recommended_drx_tune0b(SfdSequence::IEEE), 0x000A);
    assert_eq!(BitRate::Kbps850.get_recommended_drx_tune0b(SfdSequence::Decawave), 0x0006);
    assert_eq!(PulseRepetitionFrequency::Mhz64.get_recommended_drx_tune1a(), 0x008D);
    assert_eq!(PreambleLength::Bits1536.get_recommended_pac_size(), 64);
    assert_eq!(PreambleLength::Bits64.get_recommended_dxr_tune4h(), 0x0010);
    assert_eq!(PreambleLength::Bits4096.get_recommended_dxr_tune4h(), 0x0028);
    assert_eq!(UwbChannel::Channel7.get_recommended_preamble_code(PulseRepetitionFrequency::Mhz64), 18);
    assert_eq!(UwbChannel::Channel5.get_recommended_rf_txctrl(), 0x001E3FE0);
    assert_eq!(UwbChannel::Channel5.get_recommended_tc_pgdelay(), 0xC0);
    assert_eq!(UwbChannel::Channel5.get_recommended_fs_pllcfg(), 0x0800041D);
    assert_eq!(UwbChannel::Channel5.get_recommended_fs_plltune(), 0xBE);
    assert!(UwbChannel::Channel5.is_narrow());
    assert!(!UwbChannel::Channel4.is_narrow());
}

#[test]
fn tuning_values_that_do_not_exist() {
    let r = PulseRepetitionFrequency::Mhz16.get_recommended_drx_tune2::<NoSpi, NoCs>(12);
    assert!(matches!(r, Err(Error::InvalidConfiguration)));
    let r = PulseRepetitionFrequency::Mhz64.get_recommended_drx_tune2::<NoSpi, NoCs>(16);
    assert!(matches!(r, Ok(0x333B00BE)));
    let r = PreambleLength::Bits64.get_recommended_drx_tune1b::<NoSpi, NoCs>(BitRate::Kbps850);
    assert!(matches!(r, Err(Error::InvalidConfiguration)));
    let r = PreambleLength::Bits2048.get_recommended_drx_tune1b::<NoSpi, NoCs>(BitRate::Kbps110);
    assert!(matches!(r, Ok(0x0064)));
}
