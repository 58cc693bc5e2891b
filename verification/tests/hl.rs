use std::cell::RefCell;
use std::collections::HashMap;
use std::rc::Rc;

use dw1000::configs::{BitRate, PreambleLength, PulseRepetitionFrequency, SfdSequence, UwbChannel};
use dw1000::hl::{rx_status_check, Delay, Error, SendTime, SyncBehaviour, WaitError};
use dw1000::ll::registers::{LDE_RXANTD, PANADR, TX_FCTRL};
use dw1000::ll::{ChipSelect, Spi, W};
use dw1000::mac::{Address, PanId, ShortAddress};
use dw1000::time::{Duration, Instant};
use dw1000::{Ready, RxConfig, TxConfig, DW1000};

/// Register memory of a simulated DW1000, by (register file, byte offset)
type Memory = Rc<RefCell<HashMap<(u8, u16), u8>>>;

struct MockSpi {
    mem: Memory,
    fail: Rc<RefCell<bool>>,
    /// The header of the block read in progress and how far it has read
    block: Rc<RefCell<Option<(Vec<u8>, u16)>>>,
}

struct MockCs;

struct NoDelay;

impl Delay for NoDelay {
    fn delay_us(&mut self, _us: u32) {}
}

impl ChipSelect for MockCs {
    type Error = ();

    fn set_low(&mut self) -> Result<(), ()> {
        Ok(())
    }

    fn set_high(&mut self) -> Result<(), ()> {
        Ok(())
    }
}

/// Splits an SPI header into (write, register file, sub-index, header length).
fn header(words: &[u8]) -> (bool, u8, u16, usize) {
    let write = words[0] & 0x80 != 0;
    let id = words[0] & 0x3f;
    if words[0] & 0x40 == 0 {
        return (write, id, 0, 1);
    }
    let low = (words[1] & 0x7f) as u16;
    if words[1] & 0x80 == 0 {
        return (write, id, low, 2);
    }
    (write, id, low | ((words[2] as u16) << 7), 3)
}

impl Spi for MockSpi {
    type TransferError = ();
    type WriteError = ();

    fn transfer(&mut self, words: &mut [u8; 128], len: usize) -> Result<(), ()> {
        if *self.fail.borrow() {
            return Err(());
        }
        if let Some((hdr, done)) = self.block.borrow_mut().as_mut() {
            let (_, id, sub, _) = header(&hdr[..]);
            let mem = self.mem.borrow();
            for i in 0..len {
                words[i] = *mem.get(&(id, sub + *done + i as u16)).unwrap_or(&0);
            }
            *done += len as u16;
            return Ok(());
        }
        let (_, id, sub, n) = header(&words[..]);
        let mem = self.mem.borrow();
        for i in n..len {
            words[i] = *mem.get(&(id, sub + (i - n) as u16)).unwrap_or(&0);
        }
        Ok(())
    }

    fn write(&mut self, words: &[u8; 128], len: usize) -> Result<(), ()> {
        if *self.fail.borrow() {
            return Err(());
        }
        let (write, id, sub, n) = header(&words[..]);
        if !write {
            // The header of a block read; the transfers that follow read on
            *self.block.borrow_mut() = Some((words[..len].to_vec(), 0));
            return Ok(());
        }
        let mut mem = self.mem.borrow_mut();
        for i in n..len {
            mem.insert((id, sub + (i - n) as u16), words[i]);
        }
        // Bits that the DW1000 clears by itself once the operation is done
        let mut clear = |id: u8, off: u16, mask: u8| {
            if let Some(b) = mem.get_mut(&(id, off)) {
                *b &= !mask;
            }
        };
        clear(0x0D, 0, 0x40); // SYS_CTRL: TRXOFF
        clear(0x2F, 0, 0x03); // EVC_CTRL: EVC_EN, EVC_CLR
        clear(0x2D, 6, 0x02); // OTP_CTRL: OTPREAD
        clear(0x2D, 7, 0x80); // OTP_CTRL: LDELOAD
        Ok(())
    }
}

fn get(mem: &Memory, id: u8, sub: u16, len: usize) -> Vec<u8> {
    let m = mem.borrow();
    (0..len).map(|i| *m.get(&(id, sub + i as u16)).unwrap_or(&0)).collect()
}

fn set(mem: &Memory, id: u8, sub: u16, bytes: &[u8]) {
    let mut m = mem.borrow_mut();
    for (i, b) in bytes.iter().enumerate() {
        m.insert((id, sub + i as u16), *b);
    }
}

fn ok<T, E>(r: Result<T, E>) -> T {
    match r {
        Ok(v) => v,
        Err(_) => panic!("operation failed"),
    }
}

fn setup() -> (Memory, Rc<RefCell<bool>>, DW1000<MockSpi, MockCs, Ready>) {
    let mem: Memory = Rc::new(RefCell::new(HashMap::new()));
    let fail = Rc::new(RefCell::new(false));
    let spi = MockSpi { mem: mem.clone(), fail: fail.clone(), block: Default::default() };
    let dw = DW1000::new(spi, MockCs);
    let dw = ok(dw.init());
    (mem, fail, dw)
}

#[test]
fn init_writes_recommended_values() {
    let (mem, _, _dw) = setup();
    assert_eq!(get(&mem, 0x23, 0x04, 2), vec![0x70, 0x88]); // AGC_TUNE1
    assert_eq!(get(&mem, 0x23, 0x0C, 4), vec![0x07, 0xA9, 0x02, 0x25]); // AGC_TUNE2
    assert_eq!(get(&mem, 0x27, 0x08, 4), vec![0x2D, 0x00, 0x1A, 0x31]); // DRX_TUNE2
    assert_eq!(get(&mem, 0x2E, 0x0806, 1)[0] & 0x1f, 0xD); // NTM
    assert_eq!(get(&mem, 0x2E, 0x1806, 2), vec![0x07, 0x16]); // LDE_CFG2
    assert_eq!(get(&mem, 0x1E, 0x00, 4), vec![0x48, 0x28, 0x08, 0x0E]); // TX_POWER
    assert_eq!(get(&mem, 0x2A, 0x0B, 1), vec![0xC0]); // TC_PGDELAY
    assert_eq!(get(&mem, 0x2B, 0x0B, 1), vec![0xBE]); // FS_PLLTUNE
    // The OTP memory reads back 0, so LDOTUNE is left alone
    assert_eq!(get(&mem, 0x28, 0x30, 5), vec![0; 5]);
    // The last OTP address read is the low word of the LDOTUNE value
    assert_eq!(get(&mem, 0x2D, 0x04, 2), vec![0x04, 0x00]);
}

#[test]
fn init_reports_spi_errors() {
    let mem: Memory = Rc::new(RefCell::new(HashMap::new()));
    let fail = Rc::new(RefCell::new(true));
    let dw = DW1000::new(MockSpi { mem, fail, block: Default::default() }, MockCs);
    assert!(matches!(dw.init(), Err(Error::Spi(_))));
}

#[test]
fn antenna_delay_round_trip() {
    let (mem, _, mut dw) = setup();
    ok(dw.set_antenna_delay(0x1234, 0x4567));
    assert_eq!(get(&mem, 0x2E, 0x1804, 2), vec![0x34, 0x12]);
    assert_eq!(ok(dw.get_tx_antenna_delay()).value(), 0x4567);
    assert_eq!(ok(dw.get_rx_antenna_delay()).value(), 0x1234);
}

#[test]
fn address_round_trip() {
    let (mem, _, mut dw) = setup();
    ok(dw.set_address(PanId(0x0d57), ShortAddress(0x0102)));
    assert_eq!(get(&mem, 0x03, 0, 4), vec![0x02, 0x01, 0x57, 0x0d]);
    assert_eq!(ok(dw.get_address()), Address::Short(0x0d57, 0x0102));
}

#[test]
fn sys_time_reads_40_bits() {
    let (mem, _, mut dw) = setup();
    set(&mem, 0x06, 0, &[0x01, 0x02, 0x03, 0x04, 0x05]);
    assert_eq!(ok(dw.sys_time()).value(), 0x05_0403_0201);
}

#[test]
fn time_from_delay_adds_64_units_per_ns() {
    let (mem, _, mut dw) = setup();
    set(&mem, 0x06, 0, &[0x00, 0x10, 0x00, 0x00, 0x00]);
    assert_eq!(ok(dw.time_from_delay(100)).value(), 0x1000 + 6400);
}

#[test]
fn delayed_time_wraps_by_time_max() {
    let near_end = Instant::new(dw1000::time::TIME_MAX - 10).unwrap();
    // One nanosecond is 64 units; passing TIME_MAX takes TIME_MAX off.
    assert_eq!(dw1000::hl::delayed_time(near_end, 1).value(), 54);
    let start = Instant::new(5).unwrap();
    assert_eq!(dw1000::hl::delayed_time(start, 2).value(), 133);
}

#[test]
fn sync_behaviour_sets_ec_ctrl() {
    let (mem, _, mut dw) = setup();
    ok(dw.set_sync_behaviour(SyncBehaviour::ExternalSyncWithReset));
    let ec_ctrl = get(&mem, 0x24, 0, 4);
    let v = u32::from_le_bytes([ec_ctrl[0], ec_ctrl[1], ec_ctrl[2], ec_ctrl[3]]);
    assert_eq!(v & 0b10, 0b10); // OSRSM
    assert_eq!(v & (1 << 11), 1 << 11); // OSTRM
    assert_eq!(v & 0b100, 0b100); // PLLLDT
    assert_eq!((v >> 3) & 0xff, 33); // WAIT
    assert_eq!(get(&mem, 0x36, 0x04, 4)[1] & 0x80, 0x80); // PLLSYN
    ok(dw.set_sync_behaviour(SyncBehaviour::Disabled));
    let ec_ctrl = get(&mem, 0x24, 0, 4);
    assert_eq!(ec_ctrl[0] & 0b10, 0);
    assert_eq!(ec_ctrl[1] & 0b1000, 0);
    assert_eq!(get(&mem, 0x36, 0x04, 4)[1] & 0x80, 0);
}

#[test]
fn interrupt_masks() {
    let (mem, _, mut dw) = setup();
    ok(dw.enable_tx_interrupts());
    assert_eq!(get(&mem, 0x0E, 0, 4)[0] & 0x80, 0x80);
    ok(dw.enable_rx_interrupts());
    let m = get(&mem, 0x0E, 0, 4);
    let v = u32::from_le_bytes([m[0], m[1], m[2], m[3]]);
    for bit in [10, 12, 13, 15, 16, 17, 20, 21, 26, 29] {
        assert_eq!(v >> bit & 1, 1, "bit {}", bit);
    }
    ok(dw.disable_interrupts());
    assert_eq!(get(&mem, 0x0E, 0, 4), vec![0; 4]);
    ok(dw.enable_tx_interrupts());
    ok(dw.clear_interrupts());
    assert_eq!(get(&mem, 0x0E, 0, 4), vec![0; 4]);
}

#[test]
fn leds_are_configured() {
    let (mem, _, mut dw) = setup();
    ok(dw.configure_leds(true, false, true, false, 3));
    let gpio = get(&mem, 0x26, 0, 4);
    let v = u32::from_le_bytes([gpio[0], gpio[1], gpio[2], gpio[3]]);
    assert_eq!((v >> 6) & 3, 1);
    assert_eq!((v >> 8) & 3, 0);
    assert_eq!((v >> 10) & 3, 1);
    assert_eq!((v >> 12) & 3, 0);
    let ledc = get(&mem, 0x36, 0x28, 4);
    assert_eq!(ledc[0], 3);
    assert_eq!(ledc[1] & 1, 1);
}

#[test]
fn send_writes_frame_and_counts_sequence_numbers() {
    let (mem, _, mut dw) = setup();
    ok(dw.set_address(PanId(0x0d57), ShortAddress(0x0001)));
    let config = TxConfig::default();
    let sending = ok(dw.send(b"ping", Some(Address::broadcast_short()), SendTime::Now, config));
    let buffer = get(&mem, 0x09, 0, 127);
    // Frame control: data frame, both addresses short, frame version 2006
    assert_eq!(&buffer[..2], &[0x01, 0x98]);
    assert_eq!(buffer[2], 0); // sequence number
    assert_eq!(&buffer[3..7], &[0xff, 0xff, 0xff, 0xff]);
    assert_eq!(&buffer[7..11], &[0x57, 0x0d, 0x01, 0x00]);
    assert_eq!(&buffer[11..15], b"ping");
    // TFLEN is the frame length plus two bytes of CRC
    assert_eq!(get(&mem, 0x08, 0, 5)[0] & 0x7f, 15 + 2);
    // TXSTRT, without TXDLYS
    assert_eq!(get(&mem, 0x0D, 0, 4)[0] & 0b110, 0b010);
    let mut ready = match sending.finish_sending() {
        Ok(r) => r,
        Err(_) => panic!("finish_sending failed"),
    };
    let _ = ok(ready.send(b"x", None, SendTime::Delayed(Instant::new(0x1234).unwrap()), config));
    assert_eq!(get(&mem, 0x09, 0, 127)[2], 1); // the next sequence number
    assert_eq!(get(&mem, 0x0A, 0, 5), vec![0x34, 0x12, 0, 0, 0]); // DX_TIME
    assert_eq!(get(&mem, 0x0D, 0, 4)[0] & 0b110, 0b110); // TXDLYS and TXSTRT
}

#[test]
fn send_sets_channel_and_sfd() {
    let (mem, _, dw) = setup();
    let config = TxConfig {
        channel: UwbChannel::Channel2,
        sfd_sequence: SfdSequence::Decawave,
        pulse_repetition_frequency: PulseRepetitionFrequency::Mhz64,
        ..TxConfig::default()
    };
    let _ = ok(dw.send(b"", None, SendTime::Now, config));
    let c = get(&mem, 0x1F, 0, 4);
    let v = u32::from_le_bytes([c[0], c[1], c[2], c[3]]);
    assert_eq!(v & 0xf, 2);
    assert_eq!((v >> 4) & 0xf, 2);
    assert_eq!((v >> 17) & 1, 1);
    assert_eq!((v >> 18) & 3, 2);
    assert_eq!((v >> 22) & 0x1f, 10);
    assert_eq!(get(&mem, 0x21, 0, 1), vec![8]); // SFD_LENGTH
    assert_eq!(get(&mem, 0x2B, 0x07, 4), vec![0x08, 0x05, 0x40, 0x08]); // FS_PLLCFG
}

#[test]
fn receive_rejects_invalid_configuration() {
    let (_, _, dw) = setup();
    let config = RxConfig {
        expected_preamble_length: PreambleLength::Bits64,
        bitrate: BitRate::Kbps110,
        ..RxConfig::default()
    };
    assert!(matches!(dw.receive(config), Err(Error::InvalidConfiguration)));
}

#[test]
fn receive_sets_tuning() {
    let (mem, _, dw) = setup();
    let _ = ok(dw.receive(RxConfig::default()));
    assert_eq!(get(&mem, 0x27, 0x02, 2), vec![0x01, 0x00]); // DRX_TUNE0B
    assert_eq!(get(&mem, 0x27, 0x04, 2), vec![0x87, 0x00]); // DRX_TUNE1A
    assert_eq!(get(&mem, 0x27, 0x06, 2), vec![0x20, 0x00]); // DRX_TUNE1B
    assert_eq!(get(&mem, 0x27, 0x08, 4), vec![0x2D, 0x00, 0x1A, 0x31]); // DRX_TUNE2
    assert_eq!(get(&mem, 0x0D, 0, 4)[1] & 1, 1); // RXENAB
    assert_eq!(get(&mem, 0x04, 0, 4)[0] & 0b111101, 0b111101); // frame filtering
}

fn receiving_with_frame(mem: &Memory, dw: DW1000<MockSpi, MockCs, Ready>, frame: &[u8]) -> DW1000<MockSpi, MockCs, dw1000::SingleBufferReceiving> {
    let receiving = ok(dw.receive(RxConfig::default()));
    // RXDFR and LDEDONE
    set(mem, 0x0F, 0, &[0x00, 0x24, 0x00, 0x00, 0x00]);
    set(mem, 0x10, 0, &[frame.len() as u8, 0, 0, 0]);
    set(mem, 0x11, 0, frame);
    set(mem, 0x15, 0, &[0x10, 0x20, 0x30, 0x40, 0x50]);
    receiving
}

#[test]
fn wait_receives_a_frame() {
    let (mem, _, dw) = setup();
    let frame = [0x01, 0x98, 7, 0xff, 0xff, 0xff, 0xff, 0x57, 0x0d, 0x01, 0x00, b'h', b'i'];
    let mut receiving = receiving_with_frame(&mem, dw, &frame);
    let mut buffer = [0u8; 32];
    let message = match receiving.wait(&mut buffer) {
        Ok(m) => m,
        Err(_) => panic!("no message"),
    };
    assert_eq!(message.rx_time.value(), 0x50_4030_2010);
    assert_eq!(message.frame.header.seq, 7);
    assert_eq!(message.frame.header.destination, Some(Address::Short(0xffff, 0xffff)));
    assert_eq!(message.frame.header.source, Some(Address::Short(0x0d57, 0x0001)));
    assert_eq!(message.frame.payload, b"hi".to_vec());
    assert_eq!(&buffer[..13], &frame);
    // The reception status bits are cleared by writing ones
    assert_eq!(get(&mem, 0x0F, 0, 5), vec![0x00, 0xFF, 0x37, 0x04, 0x03]);
}

#[test]
fn wait_reports_buffer_too_small() {
    let (mem, _, dw) = setup();
    let frame = [0x01, 0x98, 7, 0xff, 0xff, 0xff, 0xff, 0x57, 0x0d, 0x01, 0x00, b'h', b'i'];
    let mut receiving = receiving_with_frame(&mem, dw, &frame);
    let mut buffer = [0u8; 4];
    assert!(matches!(
        receiving.wait(&mut buffer),
        Err(WaitError::Other(Error::BufferTooSmall { required_len: 13 }))
    ));
}

#[test]
fn wait_reports_undecodable_frame() {
    let (mem, _, dw) = setup();
    let mut receiving = receiving_with_frame(&mem, dw, &[0x41]);
    let mut buffer = [0u8; 4];
    assert!(matches!(receiving.wait(&mut buffer), Err(WaitError::Other(Error::Frame(_)))));
}

#[test]
fn wait_blocks_while_nothing_happened() {
    let (_, _, dw) = setup();
    let mut receiving = ok(dw.receive(RxConfig::default()));
    let mut buffer = [0u8; 4];
    assert!(matches!(receiving.wait(&mut buffer), Err(WaitError::WouldBlock)));
    let ready = match receiving.finish_receiving() {
        Ok(r) => r,
        Err(_) => panic!("finish_receiving failed"),
    };
    drop(ready);
}

struct T;

impl Spi for T {
    type TransferError = ();
    type WriteError = ();
    fn transfer(&mut self, _: &mut [u8; 128], _: usize) -> Result<(), ()> {
        Ok(())
    }
    fn write(&mut self, _: &[u8; 128], _: usize) -> Result<(), ()> {
        Ok(())
    }
}

fn check(status: u64) -> Result<(), WaitError<Error<T, MockCs>>> {
    rx_status_check::<T, MockCs>(status)
}

#[test]
fn rx_status_check_decodes_every_error() {
    let rxdfr = 1 << 13;
    let ldedone = 1 << 10;
    assert!(matches!(check(rxdfr | ldedone), Ok(())));
    assert!(matches!(check(rxdfr), Err(WaitError::WouldBlock)));
    assert!(matches!(check(0), Err(WaitError::WouldBlock)));
    assert!(matches!(check(1 << 15), Err(WaitError::Other(Error::Fcs))));
    assert!(matches!(check(1 << 12), Err(WaitError::Other(Error::Phy))));
    assert!(matches!(check(1 << 16), Err(WaitError::Other(Error::ReedSolomon))));
    assert!(matches!(check(1 << 17), Err(WaitError::Other(Error::FrameWaitTimeout))));
    assert!(matches!(check(1 << 20), Err(WaitError::Other(Error::Overrun))));
    assert!(matches!(check(1 << 21), Err(WaitError::Other(Error::PreambleDetectionTimeout))));
    assert!(matches!(check(1 << 26), Err(WaitError::Other(Error::SfdTimeout))));
    assert!(matches!(check(1 << 29), Err(WaitError::Other(Error::FrameFilteringRejection))));
    // FCS errors are reported before PHY header errors
    assert!(matches!(check(1 << 15 | 1 << 12), Err(WaitError::Other(Error::Fcs))));
    // A ready frame hides the error bits
    assert!(matches!(check(rxdfr | ldedone | 1 << 15), Ok(())));
    // LDEERR and RXPREJ are ignored
    assert!(matches!(check(1 << 18 | 1 << 33), Err(WaitError::WouldBlock)));
}

#[test]
fn rx_status_check_only_reads_enabled_bits() {
    // Bits outside the ones that the receive interrupts enable change nothing
    let others: u64 = !((1 << 10) | (1 << 12) | (1 << 13) | (1 << 15) | (1 << 16) | (1 << 17)
        | (1 << 20) | (1 << 21) | (1 << 26) | (1 << 29));
    for s in [0u64, 1 << 13, (1 << 13) | (1 << 10), 1 << 15, 1 << 29] {
        let a = format!("{:?}", check(s).map_err(|e| matches!(e, WaitError::WouldBlock)));
        let b = format!("{:?}", check(s | others).map_err(|e| matches!(e, WaitError::WouldBlock)));
        assert_eq!(a, b);
    }
}

#[test]
fn sending_wait_reports_late_transmission() {
    let (mem, _, dw) = setup();
    let mut sending = ok(dw.send(b"x", None, SendTime::Now, TxConfig::default()));
    assert!(matches!(sending.wait(), Err(WaitError::WouldBlock)));
    set(&mem, 0x2F, 0x18, &[1, 0]); // EVC_HPW
    assert!(matches!(sending.wait(), Err(WaitError::Other(Error::DelayedSendTooLate))));
    set(&mem, 0x2F, 0x18, &[0, 0]);
    set(&mem, 0x2F, 0x1A, &[1, 0]); // EVC_TPW
    assert!(matches!(sending.wait(), Err(WaitError::Other(Error::DelayedSendPowerUpWarning))));
    set(&mem, 0x2F, 0x1A, &[0, 0]);
    set(&mem, 0x0F, 0, &[0x80, 0, 0, 0, 0]); // TXFRS
    set(&mem, 0x17, 0, &[1, 2, 3, 4, 5]); // TX_TIME
    assert_eq!(ok(sending.wait().map_err(|_| ())).value(), 0x05_0403_0201);
    // The transmission status bits are cleared by writing ones
    assert_eq!(get(&mem, 0x0F, 0, 5), vec![0xF0, 0, 0, 0, 0]);
}

#[test]
fn sleep_and_wake_up_restore_antenna_delay() {
    let (mem, _, mut dw) = setup();
    ok(dw.set_antenna_delay(10, 0x0101));
    let sleeping = ok(dw.enter_sleep(true, Some(7)));
    assert_eq!(get(&mem, 0x2C, 0x06, 4)[2], 7); // SLEEP_TIM
    assert_eq!(get(&mem, 0x2C, 0x02, 1), vec![0x02]); // AON_CTRL: SAVE
    set(&mem, 0x18, 0, &[0, 0]);
    // The device identifier reads back 0, so the radio has not woken up
    assert!(matches!(sleeping.wake_up(&mut NoDelay), Err(Error::StillAsleep)));
    let (mem, _, mut dw) = setup();
    ok(dw.set_antenna_delay(10, 0x0101));
    let sleeping = ok(dw.enter_sleep(false, None));
    set(&mem, 0x00, 0, &[0x30, 0x01, 0xCA, 0xDE]); // DEV_ID
    set(&mem, 0x18, 0, &[0, 0]);
    let mut ready = ok(sleeping.wake_up(&mut NoDelay));
    assert_eq!(ok(ready.get_tx_antenna_delay()).value(), 0x0101);
}

#[test]
fn external_sync_time() {
    let (mem, _, dw) = setup();
    let mut receiving = ok(dw.receive(RxConfig::default()));
    set(&mem, 0x24, 0x04, &[1, 0, 0, 0]);
    set(&mem, 0x24, 0x08, &[0xff, 0, 0, 0]);
    let (cycles, nanos, raw) = ok(receiving.read_external_sync_time());
    assert_eq!(cycles, 1);
    assert_eq!(nanos, 0x3f); // a six-bit field
    assert_eq!(raw, 0);
}

#[test]
fn duration_values() {
    assert_eq!(Duration::from_nanos(1).value(), 64);
    assert!(Duration::new(1 << 40).is_none());
}

#[test]
fn register_fields_read_back_what_was_written() {
    let mem: Memory = Rc::new(RefCell::new(HashMap::new()));
    let fail = Rc::new(RefCell::new(false));
    let mut ll = dw1000::ll::DW1000::new(MockSpi { mem: mem.clone(), fail, block: Default::default() }, MockCs);
    let mut w = W::<PANADR>::zeroed();
    w.pan_id(0xBEEF);
    w.short_addr(0x1234);
    assert_eq!(w.data(), &[0x34, 0x12, 0xEF, 0xBE]);
    ok(ll.write(&w));
    let r = ok(ll.read::<PANADR>());
    assert_eq!(r.pan_id(), 0xBEEF);
    assert_eq!(r.short_addr(), 0x1234);
    // A value too large for its field is truncated, and the other fields
    // keep their values
    let mut w = W::<TX_FCTRL>::zeroed();
    w.txbr(0b10);
    w.tflen(200);
    assert_eq!(w.data()[0], 200 % 128);
    assert_eq!(w.data()[1] >> 5, 0b10);
    ok(ll.write(&w));
    let r = ok(ll.read::<TX_FCTRL>());
    assert_eq!(r.tflen(), 72);
    assert_eq!(r.txbr(), 0b10);
    assert_eq!(r.data().len(), 5);
}

#[test]
fn chip_select_delay_and_long_sub_indices() {
    let mem: Memory = Rc::new(RefCell::new(HashMap::new()));
    let fail = Rc::new(RefCell::new(false));
    let mut ll = dw1000::ll::DW1000::new(MockSpi { mem: mem.clone(), fail, block: Default::default() }, MockCs);
    ll.set_chip_select_delay(3);
    let mut w = W::<LDE_RXANTD>::zeroed();
    w.value(0xABCD);
    ok(ll.write(&w));
    // Sub-index 0x1804 takes a three-byte header
    assert_eq!(get(&mem, 0x2E, 0x1804, 2), vec![0xCD, 0xAB]);
    assert_eq!(ok(ll.read::<LDE_RXANTD>()).value(), 0xABCD);
}

#[test]
fn finishing_a_received_frame_makes_no_writes() {
    let (mem, _, dw) = setup();
    let frame = [0x01, 0x98, 7, 0xff, 0xff, 0xff, 0xff, 0x57, 0x0d, 0x01, 0x00, b'h', b'i'];
    let mut receiving = receiving_with_frame(&mem, dw, &frame);
    let mut buffer = [0u8; 32];
    assert!(receiving.wait(&mut buffer).is_ok());
    // A marker in SYS_CTRL that forcing the radio into IDLE mode would clear
    set(&mem, 0x0D, 3, &[0xAA]);
    let _ready = match receiving.finish_receiving() {
        Ok(r) => r,
        Err(_) => panic!("finish_receiving failed"),
    };
    assert_eq!(get(&mem, 0x0D, 3, 1), vec![0xAA]);
}

#[test]
fn finishing_an_unfinished_reception_forces_idle() {
    let (mem, _, dw) = setup();
    let receiving = ok(dw.receive(RxConfig::default()));
    set(&mem, 0x0D, 3, &[0xAA]);
    let _ready = match receiving.finish_receiving() {
        Ok(r) => r,
        Err(_) => panic!("finish_receiving failed"),
    };
    assert_eq!(get(&mem, 0x0D, 3, 1), vec![0x00]);
}

#[test]
fn cir_reads_from_the_start_index() {
    let mem: Memory = Rc::new(RefCell::new(HashMap::new()));
    let fail = Rc::new(RefCell::new(false));
    let block: Rc<RefCell<Option<(Vec<u8>, u16)>>> = Default::default();
    let spi = MockSpi { mem: mem.clone(), fail, block: block.clone() };
    let mut ll = dw1000::ll::DW1000::new(spi, MockCs);
    set(&mem, 0x25, 0, &[9, 8, 7, 6]);
    set(&mem, 0x25, 200, &[1, 2, 3]);
    let mut buffer = vec![0u8; 4];
    ok(ll.cir(0, &mut buffer));
    // A read with the sub-index flag set, sub-index 0 in the extended form
    assert_eq!(block.borrow().as_ref().unwrap().0, vec![0x65, 0x80, 0x00]);
    assert_eq!(buffer, vec![9, 8, 7, 6]);
    let mut buffer = vec![0u8; 3];
    ok(ll.cir(200, &mut buffer));
    assert_eq!(block.borrow().as_ref().unwrap().0, vec![0x65, 0xC8, 0x01]);
    assert_eq!(buffer, vec![1, 2, 3]);
}

#[test]
fn enabling_interrupts_overwrites_the_mask() {
    let (mem, _, mut dw) = setup();
    set(&mem, 0x0E, 0, &[0xFF, 0xFF, 0xFF, 0xFF]);
    ok(dw.enable_tx_interrupts());
    assert_eq!(get(&mem, 0x0E, 0, 4), vec![0x80, 0, 0, 0]);
    set(&mem, 0x0E, 0, &[0xFF, 0xFF, 0xFF, 0xFF]);
    ok(dw.enable_rx_interrupts());
    assert_eq!(get(&mem, 0x0E, 0, 4), 0x2433_B400u32.to_le_bytes().to_vec());
}

#[test]
fn finishing_a_sent_frame_makes_no_writes() {
    let (mem, _, dw) = setup();
    let mut sending = ok(dw.send(b"x", None, SendTime::Now, TxConfig::default()));
    set(&mem, 0x24, 0, &[0x01, 0, 0, 0]); // EC_CTRL: OSTSM
    set(&mem, 0x0F, 0, &[0x80, 0, 0, 0, 0]); // TXFRS
    assert!(sending.wait().is_ok());
    // Waiting turns the external transmit synchronization off
    assert_eq!(get(&mem, 0x24, 0, 1)[0] & 1, 0);
    // A marker in SYS_CTRL that forcing the radio into IDLE mode would clear
    set(&mem, 0x0D, 3, &[0xAA]);
    set(&mem, 0x24, 0, &[0x01, 0, 0, 0]);
    let _ready = match sending.finish_sending() {
        Ok(r) => r,
        Err(_) => panic!("finish_sending failed"),
    };
    assert_eq!(get(&mem, 0x0D, 3, 1), vec![0xAA]);
    assert_eq!(get(&mem, 0x24, 0, 1), vec![0x01]);
}

#[test]
fn finishing_an_unfinished_transmission_aborts_it() {
    let (mem, _, dw) = setup();
    let sending = ok(dw.send(b"x", None, SendTime::Now, TxConfig::default()));
    set(&mem, 0x24, 0, &[0x01, 0, 0, 0]);
    let _ready = match sending.finish_sending() {
        Ok(r) => r,
        Err(_) => panic!("finish_sending failed"),
    };
    assert_eq!(get(&mem, 0x24, 0, 1)[0] & 1, 0);
    assert_eq!(get(&mem, 0x0F, 0, 1)[0], 0xF0);
}

#[test]
fn sent_frame_comes_from_the_address_read() {
    let (mem, _, mut dw) = setup();
    ok(dw.set_address(PanId(0x1234), ShortAddress(0x5678)));
    let _sending = ok(dw.send(b"hi", None, SendTime::Now, TxConfig::default()));
    let frame = get(&mem, 0x09, 0, 9);
    // Source PAN ID and short address follow the sequence number
    assert_eq!(&frame[3..7], &[0x34, 0x12, 0x78, 0x56]);
}

#[test]
fn sent_frame_encodes_an_extended_destination() {
    let (mem, _, mut dw) = setup();
    ok(dw.set_address(PanId(0x0d57), ShortAddress(0x0001)));
    let destination = Address::Extended(0x1234, 0x0102_0304_0506_0708);
    let _sending = ok(dw.send(b"z", Some(destination), SendTime::Now, TxConfig::default()));
    let frame = get(&mem, 0x09, 0, 18);
    assert_eq!(&frame[..3], &[0x01, 0x9C, 0]);
    assert_eq!(&frame[3..13], &[0x34, 0x12, 8, 7, 6, 5, 4, 3, 2, 1]);
    assert_eq!(&frame[13..17], &[0x57, 0x0d, 0x01, 0x00]);
    assert_eq!(frame[17], b'z');
}
