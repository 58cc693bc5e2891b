//! Operations that are available while the radio is idle

use vstd::prelude::*;
use crate::hl::{
    added, extends, field_of, flag, is_read, is_write, keeps, kept_bits, lemma_log_append, lemma_log_push,
    modifies_read, reads_kept, DW1000, Error, Ready,
};
use crate::hl::awake::{force_idle_reads, force_idle_writes, read_once, read_otp_writes};
use crate::hl::{rx_checked_bit, Sending, SingleBufferReceiving, Sleeping};
use crate::configs::{
    lemma_drx_tune1b_for_supported_preambles, preamble_supported, BitRate, PulseRepetitionFrequency, RxConfig,
    SfdSequence, TxConfig, UwbChannel,
};
use crate::ll::{all_ok, calls_after, lemma_all_ok_split, reg_read, reg_write, ChipSelect, RegRead, RegWrite, Spi, W};
use crate::ll::bits::field_value;
use crate::ll::registers::{
    AON_CFG0, AON_CFG1, AON_CTRL, AON_WCFG, OTP_RDAT, CHAN_CTRL, DRX_TUNE0B, DRX_TUNE1A, DRX_TUNE1B, DRX_TUNE2, DRX_TUNE4H, DX_TIME, EC_CTRL,
    EVC_CTRL, FS_PLLCFG, FS_PLLTUNE, GPIO_MODE, LDE_RXANTD, PANADR, PMSC_CTRL0, PMSC_CTRL1,
    PMSC_LEDC, RF_RXCTRLH, RF_TXCTRL, SFD_LENGTH, SYS_CFG, SYS_CTRL, SYS_MASK, SYS_STATUS,
    SYS_TIME, TC_PGDELAY, TX_ANTD, TX_BUFFER, TX_FCTRL,
};
use crate::mac::{
    data_frame_bytes, data_frame_header, data_frame_len, decoded_frame, encode_data_frame, Address,
    PanId, ShortAddress,
};
use crate::time::{Instant, TIME_MAX};

verus! {

/// The behaviour of the sync pin
pub enum SyncBehaviour {
    /// The sync pin does nothing
    Disabled,
    /// The radio time will reset to 0 when the sync pin is high and the clock gives a rising edge
    TimeBaseReset,
    /// When receiving, instead of reading the internal timestamp, the time since the last sync
    /// is given back.
    ExternalSync,
    /// When receiving, instead of reading the internal timestamp, the time since the last sync
    /// is given back. Also resets the internal timebase back to 0.
    ExternalSyncWithReset,
}

/// The time at which the transmission will start
pub enum SendTime {
    /// As fast as possible
    Now,
    /// After some time
    Delayed(Instant),
    /// After the sync pin is engaged. (Only works when sync setup is in ExternalSync mode)
    OnSync,
}

/// The writes that setting the antenna delays makes
pub open spec fn antenna_delay_writes(ops: Seq<RegWrite>, rx_delay: u16, tx_delay: u16) -> bool {
    &&& ops.len() == 2
    &&& is_write::<LDE_RXANTD>(ops[0])
    &&& field_of(ops[0], 0, 16) == rx_delay
    &&& is_write::<TX_ANTD>(ops[1])
    &&& field_of(ops[1], 0, 16) == tx_delay
}

/// The writes that setting the PAN ID and short address makes
pub open spec fn address_writes(ops: Seq<RegWrite>, pan_id: u16, addr: u16) -> bool {
    &&& ops.len() == 1
    &&& is_write::<PANADR>(ops[0])
    &&& field_of(ops[0], 0, 16) == addr
    &&& field_of(ops[0], 16, 16) == pan_id
}

/// The writes that setting up the sync pin makes. Each is a modification of
/// the register's current value: the fields named here are set, the others
/// are written back as they were read.
pub open spec fn sync_behaviour_writes(ops: Seq<RegWrite>, behaviour: SyncBehaviour) -> bool {
    &&& ops.len() == 2
    &&& match behaviour {
        SyncBehaviour::Disabled => {
            // Disable all
            &&& is_write::<EC_CTRL>(ops[0])
            &&& field_of(ops[0], 1, 1) == 0  // OSRSM
            &&& field_of(ops[0], 11, 1) == 0  // OSTRM
            // Disable the rx pll
            &&& is_write::<PMSC_CTRL1>(ops[1])
            &&& field_of(ops[1], 15, 1) == 0  // PLLSYN
        },
        _ => {
            // Enable the rx pll
            &&& is_write::<PMSC_CTRL1>(ops[0])
            &&& field_of(ops[0], 15, 1) == 1  // PLLSYN
            &&& is_write::<EC_CTRL>(ops[1])
            &&& field_of(ops[1], 2, 1) == 1  // PLLLDT
            &&& field_of(ops[1], 1, 1) == flag(
                behaviour is ExternalSync || behaviour is ExternalSyncWithReset,
            )  // OSRSM
            &&& field_of(ops[1], 11, 1) == flag(
                behaviour is TimeBaseReset || behaviour is ExternalSyncWithReset,
            )  // OSTRM
            &&& field_of(ops[1], 3, 8) == 33  // WAIT
        },
    }
}

/// The interrupt mask bits for the events that waiting for a reception
/// checks: MLDEDONE, MRXPHE, MRXDFR, MRXFCE, MRXRFSL, MRXRFTO, MRXOVRR,
/// MRXPTO, MRXSFDTO and MAFFREJ
pub open spec fn rx_interrupts_enabled(w: RegWrite) -> bool {
    &&& is_write::<SYS_MASK>(w)
    &&& field_of(w, 10, 1) == 1
    &&& field_of(w, 12, 1) == 1
    &&& field_of(w, 13, 1) == 1
    &&& field_of(w, 15, 1) == 1
    &&& field_of(w, 16, 1) == 1
    &&& field_of(w, 17, 1) == 1
    &&& field_of(w, 20, 1) == 1
    &&& field_of(w, 21, 1) == 1
    &&& field_of(w, 26, 1) == 1
    &&& field_of(w, 29, 1) == 1
}

/// The writes that configuring the LEDs makes, each a modification of the
/// register's current value
pub open spec fn led_writes(
    ops: Seq<RegWrite>,
    enable_rx_ok: bool,
    enable_sfd: bool,
    enable_rx: bool,
    enable_tx: bool,
    blink_time: u8,
) -> bool {
    let any = flag(enable_rx_ok || enable_sfd || enable_rx || enable_tx);
    &&& ops.len() == 3
    // The debounce clock and the kilohertz clock
    &&& is_write::<PMSC_CTRL0>(ops[0])
    &&& field_of(ops[0], 18, 1) == any  // GPDCE
    &&& field_of(ops[0], 23, 1) == any  // KHZCLKEN
    // LED blinking
    &&& is_write::<PMSC_LEDC>(ops[1])
    &&& field_of(ops[1], 8, 1) == any  // BLNKEN
    &&& field_of(ops[1], 0, 8) == blink_time  // BLINK_TIM
    // GPIO modes
    &&& is_write::<GPIO_MODE>(ops[2])
    &&& field_of(ops[2], 6, 2) == flag(enable_rx_ok)  // MSGP0
    &&& field_of(ops[2], 8, 2) == flag(enable_sfd)  // MSGP1
    &&& field_of(ops[2], 10, 2) == flag(enable_rx)  // MSGP2
    &&& field_of(ops[2], 12, 2) == flag(enable_tx)  // MSGP3
}

/// The time stamp `delay_ns` nanoseconds (64 time units each) after
/// `sys_time`: one that passes `TIME_MAX` is brought back by `TIME_MAX`.
pub open spec fn spec_delayed_time(sys_time: int, delay_ns: u32) -> int {
    let t = sys_time + delay_ns * 64;
    if t > TIME_MAX {
        t - TIME_MAX
    } else {
        t
    }
}

/// A delayed time lies the delay (64 time units per ns) after the system
/// time, wherever that does not pass `TIME_MAX`; and it grows with the
/// delay there.
pub proof fn lemma_delayed_time_adds_delay(sys_time: int, delay_ns: u32, later_ns: u32)
    requires
        0 <= sys_time,
        delay_ns <= later_ns,
        sys_time + 64 * later_ns <= TIME_MAX,
    ensures
        spec_delayed_time(sys_time, delay_ns) == sys_time + 64 * delay_ns,
        spec_delayed_time(sys_time, later_ns) == sys_time + 64 * later_ns,
        spec_delayed_time(sys_time, delay_ns) <= spec_delayed_time(sys_time, later_ns),
        spec_delayed_time(sys_time, later_ns) - spec_delayed_time(sys_time, delay_ns) == 64 * (later_ns
            - delay_ns),
{
}

/// Converts a delay in nanoseconds into a time stamp after `sys_time`
///
/// The result will fit within 40 bits, which means it will always be a valid
/// timer value.
pub fn delayed_time(sys_time: Instant, delay_ns: u32) -> (r: Instant)
    ensures
        r@ == spec_delayed_time(sys_time@, delay_ns),
{
    let sys = sys_time.value();
    // `delay_ns` fills 32 bits, so the delay fills at most 38 bits, and the
    // sum at most 41 bits.
    let delay = delay_ns as u64 * 64;
    let tx_time = sys + delay;
    let tx_time = if tx_time > TIME_MAX {
        tx_time - TIME_MAX
    } else {
        tx_time
    };
    match Instant::new(tx_time) {
        Some(i) => i,
        None => sys_time,
    }
}


/// `w` sets CHAN_CTRL for transmitting and receiving on `channel` with the
/// pulse repetition frequency `prf` and the SFD sequence `sfd`
pub open spec fn chan_ctrl_set(
    w: RegWrite,
    channel: UwbChannel,
    prf: PulseRepetitionFrequency,
    sfd: SfdSequence,
) -> bool {
    let code = channel.spec_preamble_code(prf);
    &&& is_write::<CHAN_CTRL>(w)
    &&& field_of(w, 0, 4) == channel.spec_bits() % 16  // TX_CHAN
    &&& field_of(w, 4, 4) == channel.spec_bits() % 16  // RX_CHAN
    &&& field_of(w, 17, 1) == flag(sfd == SfdSequence::Decawave)  // DWSFD
    &&& field_of(w, 18, 2) == prf.spec_bits() % 4  // RXPRF
    &&& field_of(w, 20, 1) == flag(sfd == SfdSequence::User)  // TNSSFD
    &&& field_of(w, 21, 1) == flag(sfd == SfdSequence::User)  // RNSSFD
    &&& field_of(w, 22, 5) == code % 32  // TX_PCODE
    &&& field_of(w, 27, 5) == code % 32  // RX_PCODE
}

/// `w` sets TX_FCTRL for a frame of `len` bytes (without CRC) sent with
/// `config`
pub open spec fn tx_fctrl_set(w: RegWrite, len: nat, config: TxConfig) -> bool {
    let pl = config.preamble_length.spec_bits();
    &&& is_write::<TX_FCTRL>(w)
    &&& field_of(w, 0, 7) == (len + 2) % 128  // TFLEN: data length and two-octet CRC
    &&& field_of(w, 7, 3) == 0  // TFLE: no non-standard length extension
    &&& field_of(w, 22, 10) == 0  // TXBOFFS: no offset in TX_BUFFER
    &&& field_of(w, 13, 2) == config.bitrate.spec_bits() % 4  // TXBR
    &&& field_of(w, 15, 1) == flag(config.ranging_enable)  // TR
    &&& field_of(w, 16, 2) == config.pulse_repetition_frequency.spec_bits() % 4  // TXPRF
    &&& field_of(w, 18, 2) == (pl & 0b1100u8) >> 2u8  // TXPSR: first two bits of the preamble length
    &&& field_of(w, 20, 2) == pl & 0b0011u8  // PE: last two bits of the preamble length
}

/// The channel tuning writes for transmitting on `channel`, from `ops[i]` on
pub open spec fn tx_tuning_set(ops: Seq<RegWrite>, i: int, channel: UwbChannel) -> bool {
    &&& is_write::<RF_TXCTRL>(ops[i])
    &&& field_of(ops[i], 0, 24) == channel.spec_rf_txctrl() % 0x100_0000
    &&& is_write::<TC_PGDELAY>(ops[i + 1])
    &&& field_of(ops[i + 1], 0, 8) == channel.spec_tc_pgdelay()
    &&& is_write::<FS_PLLCFG>(ops[i + 2])
    &&& field_of(ops[i + 2], 0, 32) == channel.spec_fs_pllcfg()
    &&& is_write::<FS_PLLTUNE>(ops[i + 3])
    &&& field_of(ops[i + 3], 0, 8) == channel.spec_fs_plltune()
}

/// The length of the data frame that carries `payload_len` bytes to
/// `destination` from a short address
pub open spec fn frame_len(destination: Option<Address>, payload_len: nat) -> nat {
    data_frame_len(destination, Some(Address::Short(0, 0)), payload_len)
}

/// `frame` is the data frame that carries `data` from the short address
/// `short_addr` in PAN `pan_id` to `destination` as frame number `seq`, and
/// decodes to that data frame.
pub open spec fn frame_from(
    frame: Seq<u8>,
    destination: Option<Address>,
    pan_id: u16,
    short_addr: u16,
    seq: u8,
    data: Seq<u8>,
) -> bool {
    let source = Some(Address::Short(pan_id, short_addr));
    &&& frame == data_frame_bytes(destination, source, seq, data)
    &&& decoded_frame(frame) == Some((data_frame_header(destination, source, seq), data))
}

/// The write `w` to the transmit buffer starts with the data frame that
/// carries `data` from some short address to `destination` as frame number
/// `seq`.
pub open spec fn carries_frame(w: RegWrite, destination: Option<Address>, seq: u8, data: Seq<u8>) -> bool {
    exists|pan_id: u16, short_addr: u16|
        #[trigger] frame_from(
            w.data.take(frame_len(destination, data.len()) as int),
            destination,
            pan_id,
            short_addr,
            seq,
            data,
        )
}

/// The frame that `w` writes to the transmit buffer carries `data` to
/// `destination` as frame number `seq`, from the address that a read of
/// PANADR among `reads`, from index `k` on, gave.
pub open spec fn sent_from_read(
    reads: Seq<RegRead>,
    k: int,
    w: RegWrite,
    destination: Option<Address>,
    seq: u8,
    data: Seq<u8>,
) -> bool {
    exists|j: int|
        k <= j < reads.len() && is_read::<PANADR>(#[trigger] reads[j]) && frame_from(
            w.data.take(frame_len(destination, data.len()) as int),
            destination,
            field_value(reads[j].data, 16, 16) as u16,
            field_value(reads[j].data, 0, 16) as u16,
            seq,
            data,
        )
}

/// What sending read, from index `from` of `reads` on, and what its writes
/// `ops` did with it: TRXOFF was read back as 0 when the radio was forced into
/// IDLE mode, and each write that modifies a register's current value sets
/// the fields that `send_writes` names and writes back the others as they
/// were read.
pub open spec fn send_reads(
    reads: Seq<RegRead>,
    from: int,
    ops: Seq<RegWrite>,
    send_time: SendTime,
    config: TxConfig,
) -> bool {
    let d: int = if send_time is Now {
        0
    } else {
        1
    };
    let s: int = if config.sfd_sequence == SfdSequence::Decawave {
        1
    } else {
        0
    };
    &&& force_idle_reads(reads, from, ops, 2, false)
    &&& (send_time is OnSync ==> modifies_read::<EC_CTRL>(reads, from, ops[3], |b: int| b == 0 || 3 <= b < 11))
    &&& modifies_read::<TX_FCTRL>(reads, from, ops[4 + d], |b: int| b < 10 || 13 <= b < 32)
    &&& modifies_read::<CHAN_CTRL>(reads, from, ops[5 + d], |b: int| b < 8 || 17 <= b < 32)
    &&& (!(send_time is OnSync) ==> modifies_read::<SYS_CTRL>(
        reads,
        from,
        ops[10 + d + s],
        |b: int| b == 1 || (send_time is Delayed && b == 2),
    ))
}

/// The writes that sending `data` to `destination` as frame number `seq`
/// makes. The frame's source is the address that was read from PANADR; the
/// frame in the transmit buffer decodes to that data frame. The
/// writes to TX_FCTRL, CHAN_CTRL, EC_CTRL and SYS_CTRL modify the register's
/// current value: the fields named here are set, the others are written back
/// as they were read (`send_reads` states this).
pub open spec fn send_writes(
    ops: Seq<RegWrite>,
    data: Seq<u8>,
    destination: Option<Address>,
    send_time: SendTime,
    config: TxConfig,
    seq: u8,
) -> bool {
    let d: int = if send_time is Now {
        0
    } else {
        1
    };
    let s: int = if config.sfd_sequence == SfdSequence::Decawave {
        1
    } else {
        0
    };
    let len = frame_len(destination, data.len());
    &&& ops.len() == 10 + d + s + if send_time is OnSync {
        0int
    } else {
        1
    }
    // Clear and (re-)enable the event counters
    &&& is_write::<EVC_CTRL>(ops[0])
    &&& field_of(ops[0], 1, 1) == 1  // EVC_CLR
    &&& field_of(ops[0], 0, 1) == 0  // EVC_EN
    &&& is_write::<EVC_CTRL>(ops[1])
    &&& field_of(ops[1], 0, 1) == 1  // EVC_EN
    &&& field_of(ops[1], 1, 1) == 0  // EVC_CLR
    // Force the radio into IDLE mode
    &&& force_idle_writes(ops.take(2), ops.take(3), false)
    // Delay the transmission
    &&& match send_time {
        SendTime::Delayed(t) => is_write::<DX_TIME>(ops[3]) && field_of(ops[3], 0, 40) == t@,
        SendTime::OnSync => {
            &&& is_write::<EC_CTRL>(ops[3])
            &&& field_of(ops[3], 3, 8) == 33  // WAIT
            &&& field_of(ops[3], 0, 1) == 1  // OSTSM
        },
        SendTime::Now => true,
    }
    // The frame
    &&& is_write::<TX_BUFFER>(ops[3 + d])
    &&& carries_frame(ops[3 + d], destination, seq, data)
    &&& tx_fctrl_set(ops[4 + d], len, config)
    &&& chan_ctrl_set(ops[5 + d], config.channel, config.pulse_repetition_frequency, config.sfd_sequence)
    &&& (s == 1 ==> is_write::<SFD_LENGTH>(ops[6 + d]) && field_of(ops[6 + d], 0, 8) == 8)
    &&& tx_tuning_set(ops, 6 + d + s, config.channel)
    // Start the transmission
    &&& (!(send_time is OnSync) ==> {
        &&& is_write::<SYS_CTRL>(ops[10 + d + s])
        &&& field_of(ops[10 + d + s], 1, 1) == 1  // TXSTRT
        &&& (send_time is Delayed ==> field_of(ops[10 + d + s], 2, 1) == 1)  // TXDLYS
    })
}

/// The receive configuration is one that the DW1000 can be tuned for.
pub open spec fn rx_config_valid(config: RxConfig) -> bool {
    let pl = config.expected_preamble_length;
    &&& pl.spec_drx_tune1b(config.bitrate) is Some
    &&& config.pulse_repetition_frequency.spec_drx_tune2(pl.spec_pac_size()) is Some
}

/// Every receive configuration whose preamble length its bitrate supports can
/// be tuned for, whatever its pulse repetition frequency: `receive` does not
/// reject it with `Error::InvalidConfiguration`.
pub proof fn lemma_supported_configs_are_valid(config: RxConfig)
    requires
        preamble_supported(config.expected_preamble_length, config.bitrate),
    ensures
        rx_config_valid(config),
{
    lemma_drx_tune1b_for_supported_preambles(config.expected_preamble_length, config.bitrate);
}

/// The writes that starting a reception with `config` makes. The writes to
/// PMSC_CTRL0, SYS_CFG, EC_CTRL, CHAN_CTRL and SYS_CTRL modify the register's
/// current value: the fields named here are set, the others are written back
/// as they were read.
pub open spec fn receive_writes(ops: Seq<RegWrite>, config: RxConfig) -> bool {
    let s: int = if config.sfd_sequence == SfdSequence::Decawave {
        1
    } else {
        0
    };
    let pl = config.expected_preamble_length;
    let prf = config.pulse_repetition_frequency;
    &&& ops.len() == 17 + s
    // Reset the receiver, then clear the reset
    &&& is_write::<PMSC_CTRL0>(ops[0])
    &&& field_of(ops[0], 28, 4) == 0b1110  // SOFTRESET
    &&& is_write::<PMSC_CTRL0>(ops[1])
    &&& field_of(ops[1], 28, 4) == 0b1111  // SOFTRESET
    // Force the radio into IDLE mode
    &&& force_idle_writes(ops.take(2), ops.take(3), false)
    // Frame filtering
    &&& is_write::<SYS_CFG>(ops[3])
    &&& field_of(ops[3], 0, 1) == flag(config.frame_filtering)  // FFEN
    &&& (config.frame_filtering ==> {
        &&& field_of(ops[3], 2, 1) == 1  // FFAB: beacon frames
        &&& field_of(ops[3], 3, 1) == 1  // FFAD: data frames
        &&& field_of(ops[3], 4, 1) == 1  // FFAA: acknowledgement frames
        &&& field_of(ops[3], 5, 1) == 1  // FFAM: MAC command frames
    })
    // PLLLDT, then clear the status bits that depend on it
    &&& is_write::<EC_CTRL>(ops[4])
    &&& field_of(ops[4], 2, 1) == 1  // PLLLDT
    &&& is_write::<SYS_STATUS>(ops[5])
    &&& field_of(ops[5], 0, 1) == 0
    &&& field_of(ops[5], 1, 1) == 1  // CPLOCK
    &&& field_of(ops[5], 2, 23) == 0
    &&& field_of(ops[5], 25, 1) == 1  // CLKPLL_LL
    &&& field_of(ops[5], 26, 14) == 0
    // The channel and SFD settings
    &&& chan_ctrl_set(ops[6], config.channel, prf, config.sfd_sequence)
    &&& (s == 1 ==> is_write::<SFD_LENGTH>(ops[7]) && field_of(ops[7], 0, 8) == 8)
    // General tuning
    &&& is_write::<DRX_TUNE0B>(ops[7 + s])
    &&& field_of(ops[7 + s], 0, 16) == config.bitrate.spec_drx_tune0b(config.sfd_sequence)
    &&& is_write::<DRX_TUNE1A>(ops[8 + s])
    &&& field_of(ops[8 + s], 0, 16) == prf.spec_drx_tune1a()
    &&& is_write::<DRX_TUNE1B>(ops[9 + s])
    &&& Some(field_of(ops[9 + s], 0, 16) as u16) == pl.spec_drx_tune1b(config.bitrate)
    &&& is_write::<DRX_TUNE2>(ops[10 + s])
    &&& Some(field_of(ops[10 + s], 0, 32) as u32) == prf.spec_drx_tune2(pl.spec_pac_size())
    &&& is_write::<DRX_TUNE4H>(ops[11 + s])
    &&& field_of(ops[11 + s], 0, 16) == pl.spec_dxr_tune4h()
    // Channel tuning
    &&& is_write::<RF_RXCTRLH>(ops[12 + s])
    &&& field_of(ops[12 + s], 0, 8) == config.channel.spec_rf_rxctrlh()
    &&& is_write::<FS_PLLCFG>(ops[13 + s])
    &&& field_of(ops[13 + s], 0, 32) == config.channel.spec_fs_pllcfg()
    &&& is_write::<FS_PLLTUNE>(ops[14 + s])
    &&& field_of(ops[14 + s], 0, 8) == config.channel.spec_fs_plltune()
    // The rx bitrate
    &&& is_write::<SYS_CFG>(ops[15 + s])
    &&& field_of(ops[15 + s], 22, 1) == flag(config.bitrate == BitRate::Kbps110)  // RXM110K
    // Enable the receiver
    &&& is_write::<SYS_CTRL>(ops[16 + s])
    &&& field_of(ops[16 + s], 8, 1) == 1  // RXENAB
}

/// What starting a reception read, from index `from` of `reads` on, and what
/// its writes `ops` did with it: TRXOFF was read back as 0 when the radio
/// was forced into IDLE mode, and each write that modifies a register's
/// current value sets the fields that `receive_writes` names and writes back
/// the others as they were read.
pub open spec fn receive_reads(reads: Seq<RegRead>, from: int, ops: Seq<RegWrite>, config: RxConfig) -> bool {
    let s: int = if config.sfd_sequence == SfdSequence::Decawave {
        1
    } else {
        0
    };
    &&& modifies_read::<PMSC_CTRL0>(reads, from, ops[0], |b: int| 28 <= b < 32)
    &&& modifies_read::<PMSC_CTRL0>(reads, from, ops[1], |b: int| 28 <= b < 32)
    &&& force_idle_reads(reads, from, ops, 2, false)
    &&& modifies_read::<SYS_CFG>(
        reads,
        from,
        ops[3],
        |b: int| b == 0 || (config.frame_filtering && 2 <= b <= 5),
    )
    &&& modifies_read::<EC_CTRL>(reads, from, ops[4], |b: int| b == 2)
    &&& modifies_read::<CHAN_CTRL>(reads, from, ops[6], |b: int| b < 8 || 17 <= b < 32)
    &&& modifies_read::<SYS_CFG>(reads, from, ops[15 + s], |b: int| b == 22)
    &&& modifies_read::<SYS_CTRL>(reads, from, ops[16 + s], |b: int| b == 8)
}

/// The writes that setting the sleep timer to `sleep_duration` ticks makes
pub open spec fn sleep_timer_writes(ops: Seq<RegWrite>, sleep_duration: u16) -> bool {
    &&& ops.len() == 7
    // Force the 19.2 MHz clock
    &&& is_write::<PMSC_CTRL0>(ops[0])
    &&& field_of(ops[0], 0, 2) == 0b01  // SYSCLKS
    // Disable the sleep counter
    &&& is_write::<AON_CFG1>(ops[1])
    &&& field_of(ops[1], 0, 1) == 0  // SLEEP_CEN
    &&& field_of(ops[1], 1, 1) == 0  // SMXX
    &&& field_of(ops[1], 2, 1) == 0  // LPOSC_CAL
    &&& field_of(ops[1], 3, 13) == 0
    // Set the counter
    &&& is_write::<AON_CFG0>(ops[2])
    &&& field_of(ops[2], 0, 16) == 0
    &&& field_of(ops[2], 16, 16) == sleep_duration  // SLEEP_TIM
    // Enable the sleep counter
    &&& is_write::<AON_CFG1>(ops[3])
    &&& field_of(ops[3], 0, 1) == 1  // SLEEP_CEN
    &&& field_of(ops[3], 1, 1) == 0  // SMXX
    &&& field_of(ops[3], 2, 1) == 1  // LPOSC_CAL
    &&& field_of(ops[3], 3, 13) == 0
    // Upload the array
    &&& is_write::<AON_CTRL>(ops[4])
    &&& field_of(ops[4], 0, 2) == 0
    &&& field_of(ops[4], 2, 1) == 1  // UPL_CFG
    &&& field_of(ops[4], 3, 5) == 0
    &&& is_write::<AON_CTRL>(ops[5])
    &&& field_of(ops[5], 0, 2) == 0
    &&& field_of(ops[5], 2, 1) == 0  // UPL_CFG
    &&& field_of(ops[5], 3, 5) == 0
    // Automatic clock
    &&& is_write::<PMSC_CTRL0>(ops[6])
    &&& field_of(ops[6], 0, 2) == 0  // SYSCLKS
}

/// What putting the radio to sleep read, from index `from` of `reads` on, and
/// what its writes `ops` did with it: the TX antenna delay saved is the one
/// read; ONW_LLDO is set where the LDO tune word read from OTP is not zero;
/// and each write that modifies a register's current value sets the fields
/// that `sleep_writes` names and writes back the others as they were read.
pub open spec fn sleep_reads(
    reads: Seq<RegRead>,
    from: int,
    ops: Seq<RegWrite>,
    irq_on_wakeup: bool,
    sleep_duration: Option<u16>,
    tx_antenna_delay: int,
) -> bool {
    let t: int = if sleep_duration is Some {
        7
    } else {
        0
    };
    let k = t + if irq_on_wakeup {
        1int
    } else {
        0
    };
    &&& exists|j: int|
        from <= j < reads.len() && is_read::<TX_ANTD>(#[trigger] reads[j]) && tx_antenna_delay == field_value(
            reads[j].data,
            0,
            16,
        )
    &&& exists|j: int|
        from <= j < reads.len() && is_read::<OTP_RDAT>(#[trigger] reads[j]) && field_of(ops[k + 4], 12, 1)
            == flag(field_value(reads[j].data, 0, 32) != 0)  // ONW_LLDO
    &&& (sleep_duration is Some ==> {
        &&& modifies_read::<PMSC_CTRL0>(reads, from, ops[0], |b: int| b < 2)
        &&& modifies_read::<PMSC_CTRL0>(reads, from, ops[6], |b: int| b < 2)
    })
    &&& (irq_on_wakeup ==> modifies_read::<SYS_MASK>(reads, from, ops[t], |b: int| b == 1 || b == 23))
    &&& modifies_read::<AON_WCFG>(reads, from, ops[k + 4], |b: int| b == 6 || b == 7 || b == 11 || b == 12)
    // SLEEP_TIM among the fields written back
    &&& modifies_read::<AON_CFG0>(reads, from, ops[k + 5], |b: int| b == 0 || b == 2 || b == 3)
}

/// The writes that putting the radio to sleep makes. The writes to
/// PMSC_CTRL0, SYS_MASK, AON_WCFG and the second one to AON_CFG0 modify the
/// register's current value: the fields named here are set, the others are
/// written back as they were read.
pub open spec fn sleep_writes(ops: Seq<RegWrite>, irq_on_wakeup: bool, sleep_duration: Option<u16>) -> bool {
    let t: int = if sleep_duration is Some {
        7
    } else {
        0
    };
    let i: int = if irq_on_wakeup {
        1
    } else {
        0
    };
    let k = t + i;
    &&& ops.len() == k + 8
    &&& (sleep_duration matches Some(sd) ==> sleep_timer_writes(ops.take(7), sd))
    // The interrupt on wake-up
    &&& (irq_on_wakeup ==> {
        &&& is_write::<SYS_MASK>(ops[t])
        &&& field_of(ops[t], 23, 1) == 1  // MSLP2INIT
        &&& field_of(ops[t], 1, 1) == 1  // MCPLOCK
    })
    // Whether the LDO tune value was calibrated
    &&& read_otp_writes(ops.take(k), ops.take(k + 4), 0x004)
    // What needs to be stored in the always-on memory
    &&& is_write::<AON_WCFG>(ops[k + 4])
    &&& field_of(ops[k + 4], 6, 1) == 1  // ONW_LDC
    &&& field_of(ops[k + 4], 11, 1) == 1  // ONW_LLDE
    &&& field_of(ops[k + 4], 7, 1) == 1  // ONW_L64P
    // The wake-up sources
    &&& is_write::<AON_CFG0>(ops[k + 5])
    &&& field_of(ops[k + 5], 2, 1) == 1  // WAKE_SPI
    &&& field_of(ops[k + 5], 3, 1) == flag(sleep_duration is Some)  // WAKE_CNT
    &&& field_of(ops[k + 5], 0, 1) == 1  // SLEEP_EN
    // Upload the always-on configuration and enter sleep
    &&& is_write::<AON_CTRL>(ops[k + 6])
    &&& field_of(ops[k + 6], 0, 8) == 0
    &&& is_write::<AON_CTRL>(ops[k + 7])
    &&& field_of(ops[k + 7], 0, 1) == 0
    &&& field_of(ops[k + 7], 1, 1) == 1  // SAVE
    &&& field_of(ops[k + 7], 2, 6) == 0
}

impl<SPI: Spi, CS: ChipSelect> DW1000<SPI, CS, Ready> {
    /// Sets the RX and TX antenna delays
    pub fn set_antenna_delay(&mut self, rx_delay: u16, tx_delay: u16) -> (r: Result<(), Error<SPI, CS>>)
        ensures
            final(self).seq() == old(self).seq(),
            keeps(old(self).writes(), final(self).writes()),
            r is Ok ==> antenna_delay_writes(added(old(self).writes(), final(self).writes()), rx_delay, tx_delay),
            r is Ok <==> all_ok(calls_after(old(self).bus(), final(self).bus())),
            r matches Err(e) ==> e is Spi,
    {
        let ghost start = self.writes();
        let ghost b0 = self.bus();
        let mut w = W::<LDE_RXANTD>::zeroed();
        w.value(rx_delay);
        self.write_reg(&w)?;
        let ghost b1 = self.bus();
        let ghost first = reg_write::<LDE_RXANTD>(w@);
        let mut w = W::<TX_ANTD>::zeroed();
        w.value(tx_delay);
        let res = self.write_reg(&w);
        proof {
            lemma_all_ok_split(b0, b1, self.bus());
        }
        res?;
        proof {
            assert(added(start, self.writes()) =~= seq![first, reg_write::<TX_ANTD>(w@)]);
        }
        Ok(())
    }

    /// Sets the network id and address used for sending and receiving
    pub fn set_address(&mut self, pan_id: PanId, addr: ShortAddress) -> (r: Result<(), Error<SPI, CS>>)
        ensures
            final(self).seq() == old(self).seq(),
            keeps(old(self).writes(), final(self).writes()),
            r is Ok ==> address_writes(added(old(self).writes(), final(self).writes()), pan_id.0, addr.0),
            r is Ok <==> all_ok(calls_after(old(self).bus(), final(self).bus())),
            r matches Err(e) ==> e is Spi,
    {
        let ghost start = self.writes();
        let mut w = W::<PANADR>::zeroed();
        w.pan_id(pan_id.0);
        w.short_addr(addr.0);
        self.write_reg(&w)?;
        proof {
            assert(added(start, self.writes()) =~= seq![reg_write::<PANADR>(w@)]);
        }
        Ok(())
    }

    /// Sets up the sync pin functionality
    ///
    /// After init, it is set to None
    pub fn set_sync_behaviour(&mut self, behaviour: SyncBehaviour) -> (r: Result<(), Error<SPI, CS>>)
        ensures
            final(self).seq() == old(self).seq(),
            keeps(old(self).writes(), final(self).writes()),
            r is Ok ==> sync_behaviour_writes(added(old(self).writes(), final(self).writes()), behaviour),
            reads_kept(old(self).reads(), final(self).reads()),
            r is Ok ==> ({
                let ops = added(old(self).writes(), final(self).writes());
                let k = old(self).reads().len() as int;
                match behaviour {
                    SyncBehaviour::Disabled => {
                        &&& modifies_read::<EC_CTRL>(final(self).reads(), k, ops[0], |b: int| b == 1 || b == 11)
                        &&& modifies_read::<PMSC_CTRL1>(final(self).reads(), k, ops[1], |b: int| b == 15)
                    },
                    _ => {
                        &&& modifies_read::<PMSC_CTRL1>(final(self).reads(), k, ops[0], |b: int| b == 15)
                        &&& modifies_read::<EC_CTRL>(final(self).reads(), k, ops[1], |b: int| 1 <= b <= 11)
                    },
                }
            }),
            r is Ok <==> all_ok(calls_after(old(self).bus(), final(self).bus())),
            r matches Err(e) ==> e is Spi,
    {
        let ghost start = self.writes();
        let ghost b0 = self.bus();
        let ghost j0 = self.reads().len() as int;
        match behaviour {
            SyncBehaviour::Disabled => {
                // Disable all
                let r0 = self.read_reg::<EC_CTRL>()?;
                let ghost b1 = self.bus();
                let mut w = W::from_read(&r0);
                w.osrsm(0);
                w.ostrm(0);
                let res = self.write_reg(&w);
                let ghost b2 = self.bus();
                proof {
                    lemma_all_ok_split(b0, b1, b2);
                }
                res?;
                let ghost w0 = reg_write::<EC_CTRL>(w@);
                proof {
                    assert(kept_bits(r0@, w0, |b: int| b == 1 || b == 11));
                }
                // Disable the rx pll
                let res = self.read_reg::<PMSC_CTRL1>();
                let ghost b3 = self.bus();
                proof {
                    lemma_all_ok_split(b0, b2, b3);
                }
                let r1 = res?;
                let mut w = W::from_read(&r1);
                w.pllsyn(0);
                let res = self.write_reg(&w);
                proof {
                    lemma_all_ok_split(b0, b3, self.bus());
                }
                res?;
                proof {
                    assert(added(start, self.writes()) =~= seq![w0, reg_write::<PMSC_CTRL1>(w@)]);
                    assert(kept_bits(r1@, reg_write::<PMSC_CTRL1>(w@), |b: int| b == 15));
                    assert(self.reads()[j0] == reg_read::<EC_CTRL>(r0@));
                    assert(self.reads()[j0 + 1] == reg_read::<PMSC_CTRL1>(r1@));
                }
            },
            _ => {
                // Enable the rx pll
                let r0 = self.read_reg::<PMSC_CTRL1>()?;
                let ghost b1 = self.bus();
                let mut w = W::from_read(&r0);
                w.pllsyn(1);
                let res = self.write_reg(&w);
                let ghost b2 = self.bus();
                proof {
                    lemma_all_ok_split(b0, b1, b2);
                }
                res?;
                let ghost w0 = reg_write::<PMSC_CTRL1>(w@);
                proof {
                    assert(kept_bits(r0@, w0, |b: int| b == 15));
                }
                // Enable the time base reset or the external receive
                // synchronisation mode
                let osrsm: u8 = match behaviour {
                    SyncBehaviour::ExternalSync | SyncBehaviour::ExternalSyncWithReset => 1,
                    _ => 0,
                };
                let ostrm: u8 = match behaviour {
                    SyncBehaviour::TimeBaseReset | SyncBehaviour::ExternalSyncWithReset => 1,
                    _ => 0,
                };
                let res = self.read_reg::<EC_CTRL>();
                let ghost b3 = self.bus();
                proof {
                    lemma_all_ok_split(b0, b2, b3);
                }
                let r1 = res?;
                let mut w = W::from_read(&r1);
                w.pllldt(1);
                w.osrsm(osrsm);
                w.ostrm(ostrm);
                w.wait(33);
                let res = self.write_reg(&w);
                proof {
                    lemma_all_ok_split(b0, b3, self.bus());
                }
                res?;
                proof {
                    assert(added(start, self.writes()) =~= seq![w0, reg_write::<EC_CTRL>(w@)]);
                    assert(kept_bits(r1@, reg_write::<EC_CTRL>(w@), |b: int| 1 <= b <= 11));
                    assert(self.reads()[j0] == reg_read::<PMSC_CTRL1>(r0@));
                    assert(self.reads()[j0 + 1] == reg_read::<EC_CTRL>(r1@));
                }
            },
        }
        Ok(())
    }

    /// Send an IEEE 802.15.4 MAC frame
    ///
    /// The `data` argument is wrapped into an IEEE 802.15.4 MAC frame and sent
    /// to `destination`.
    ///
    /// This operation can be delayed to aid in distance measurement, by setting
    /// `send_time` to `SendTime::Delayed(instant)`. If you want to send the
    /// frame as soon as possible, just pass `SendTime::Now` instead.
    ///
    /// The config parameter struct allows for setting the channel, bitrate, and
    /// more. This configuration needs to be the same as the configuration used
    /// by the receiver, or the message may not be received.
    /// The defaults are a sane starting point.
    ///
    /// This method starts the transmission and returns immediately thereafter.
    /// It consumes this instance of `DW1000` and returns another instance which
    /// is in the `Sending` state, and can be used to wait for the transmission
    /// to finish and check its result.
    ///
    /// The frame must fit into the transmit buffer of 127 bytes.
    #[verifier::rlimit(100)]
    #[verifier::spinoff_prover]
    pub fn send(
        self,
        data: &[u8],
        destination: Option<Address>,
        send_time: SendTime,
        config: TxConfig,
    ) -> (r: Result<DW1000<SPI, CS, Sending>, Error<SPI, CS>>)
        requires
            frame_len(destination, data@.len()) <= 127,
        ensures
            r matches Ok(sending) ==> {
                &&& keeps(self.writes(), sending.writes())
                &&& send_writes(
                    added(self.writes(), sending.writes()),
                    data@,
                    destination,
                    send_time,
                    config,
                    self.seq(),
                )
                &&& sending.seq() == (self.seq() + 1) % 256
                &&& sending.state() == (Sending { finished: false })
                &&& reads_kept(self.reads(), sending.reads())
                &&& send_reads(
                    sending.reads(),
                    self.reads().len() as int,
                    added(self.writes(), sending.writes()),
                    send_time,
                    config,
                )
                &&& sent_from_read(
                    sending.reads(),
                    self.reads().len() as int,
                    added(self.writes(), sending.writes())[if send_time is Now {
                        3
                    } else {
                        4
                    }],
                    destination,
                    self.seq(),
                    data@,
                )
            },
            r matches Err(e) ==> e is Spi || e is PollTimeout,
    {
        let mut this = self;
        let ghost start = this.writes();
        let ghost r0 = this.reads().len() as int;
        let ghost mut ec: (RegRead, RegWrite, int) = arbitrary();
        let ghost mut ctrl: (RegRead, RegWrite, int) = arbitrary();
        let ghost mut log: Seq<RegWrite> = Seq::empty();
        proof {
            assert(start + log =~= start);
        }
        // Clear event counters
        let mut w = W::<EVC_CTRL>::zeroed();
        w.evc_clr(1);
        this.write_reg(&w)?;
        proof {
            lemma_log_push(start, log, reg_write::<EVC_CTRL>(w@));
            log = log.push(reg_write::<EVC_CTRL>(w@));
        }
        this.wait_until_clear::<EVC_CTRL>(1)?;
        // (Re-)Enable event counters
        let mut w = W::<EVC_CTRL>::zeroed();
        w.evc_en(1);
        this.write_reg(&w)?;
        proof {
            lemma_log_push(start, log, reg_write::<EVC_CTRL>(w@));
            log = log.push(reg_write::<EVC_CTRL>(w@));
        }
        this.wait_until_clear::<EVC_CTRL>(0)?;
        // Sometimes, for unknown reasons, the DW1000 gets stuck in RX mode.
        // Starting the transmitter won't get it to enter TX mode, which means
        // all subsequent send operations will fail. Let's disable the
        // transceiver and force the chip into IDLE mode to make sure that
        // doesn't happen.
        let ghost before = this.writes();
        let ghost before_reads = this.reads();
        this.force_idle(false)?;
        let ghost idle_reads = this.reads();
        proof {
            lemma_log_append(start, log, this.writes());
            log = log + added(before, this.writes());
            assert(log.take(2) == before.subrange(start.len() as int, before.len() as int));
            assert(log.take(3)[2] == this.writes()[before.len() as int]);
        }
        let seq = this.seq;
        this.seq = this.seq.wrapping_add(1);
        let ghost jp = this.reads().len() as int;
        let source = this.get_address()?;
        let ghost panadr = this.reads()[jp];
        let bytes = encode_data_frame(destination, Some(source), seq, data).unwrap();
        match &send_time {
            SendTime::Delayed(time) => {
                // Put the time into the delay register
                // By setting this register, the chip knows to delay before transmitting
                let mut w = W::<DX_TIME>::zeroed();
                w.value(time.value());
                this.write_reg(&w)?;
                proof {
                    lemma_log_push(start, log, reg_write::<DX_TIME>(w@));
                    log = log.push(reg_write::<DX_TIME>(w@));
                }
            },
            SendTime::OnSync => {
                let ghost j = this.reads().len() as int;
                let rd = this.read_reg::<EC_CTRL>()?;
                let mut w = W::from_read(&rd);
                w.wait(33);
                w.ostsm(1);
                this.write_reg(&w)?;
                proof {
                    assert(kept_bits(rd@, reg_write::<EC_CTRL>(w@), |b: int| b == 0 || 3 <= b < 11));
                    ec = (reg_read::<EC_CTRL>(rd@), reg_write::<EC_CTRL>(w@), j);
                    assert(this.reads()[j] == ec.0);
                    lemma_log_push(start, log, reg_write::<EC_CTRL>(w@));
                    log = log.push(reg_write::<EC_CTRL>(w@));
                }
            },
            SendTime::Now => {},
        }
        // Prepare transmitter
        let len = bytes.len();
        let mut w = W::<TX_BUFFER>::zeroed();
        w.copy_from(0, bytes.as_slice());
        this.write_reg(&w)?;
        let ghost frame_at = log.len() as int;
        proof {
            lemma_log_push(start, log, reg_write::<TX_BUFFER>(w@));
            log = log.push(reg_write::<TX_BUFFER>(w@));
            assert(w@.take(len as int) =~= bytes@);
        }
        let pl = config.preamble_length.bits();
        let ghost j_fc = this.reads().len() as int;
        let rd = this.read_reg::<TX_FCTRL>()?;
        let ghost fc_read = reg_read::<TX_FCTRL>(rd@);
        let mut w = W::from_read(&rd);
        w.tflen(len as u8 + 2);  // data length + two-octet CRC
        w.tfle(0);  // no non-standard length extension
        w.txboffs(0);  // no offset in TX_BUFFER
        w.txbr(config.bitrate.bits());  // configured bitrate
        w.tr(config.ranging_enable as u8);  // configured ranging bit
        w.txprf(config.pulse_repetition_frequency.bits());  // configured PRF
        w.txpsr((pl & 0b1100) >> 2);  // first two bits of configured preamble length
        w.pe(pl & 0b0011);  // last two bits of configured preamble length
        this.write_reg(&w)?;
        proof {
            assert(((pl & 0b1100u8) >> 2u8) % 4 == (pl & 0b1100u8) >> 2u8) by (bit_vector);
            assert((pl & 0b0011u8) % 4 == pl & 0b0011u8) by (bit_vector);
            assert(kept_bits(rd@, reg_write::<TX_FCTRL>(w@), |b: int| b < 10 || 13 <= b < 32));
            assert(this.reads()[j_fc] == fc_read);
            lemma_log_push(start, log, reg_write::<TX_FCTRL>(w@));
            log = log.push(reg_write::<TX_FCTRL>(w@));
        }
        // Set the channel and sfd settings
        let ghost fc_write = this.writes().last();
        let ghost reads_cc0 = this.reads();
        this.write_chan_ctrl(config.channel, config.pulse_repetition_frequency, config.sfd_sequence)?;
        let ghost reads_cc = this.reads();
        let ghost chan_w = this.writes().last();
        proof {
            log = log.push(this.writes().last());
            assert(this.writes() =~= start + log);
        }
        if config.sfd_sequence == SfdSequence::Decawave {
            // This isn't entirely necessary as the Decawave8 settings in
            // chan_ctrl already force it to 8
            let mut w = W::<SFD_LENGTH>::zeroed();
            w.value(8);
            this.write_reg(&w)?;
            proof {
                lemma_log_push(start, log, reg_write::<SFD_LENGTH>(w@));
                log = log.push(reg_write::<SFD_LENGTH>(w@));
            }
        }
        // Tune for the correct channel
        let mut w = W::<RF_TXCTRL>::zeroed();
        w.value(config.channel.get_recommended_rf_txctrl());
        this.write_reg(&w)?;
        proof {
            lemma_log_push(start, log, reg_write::<RF_TXCTRL>(w@));
            log = log.push(reg_write::<RF_TXCTRL>(w@));
        }
        let mut w = W::<TC_PGDELAY>::zeroed();
        w.value(config.channel.get_recommended_tc_pgdelay());
        this.write_reg(&w)?;
        proof {
            lemma_log_push(start, log, reg_write::<TC_PGDELAY>(w@));
            log = log.push(reg_write::<TC_PGDELAY>(w@));
        }
        let mut w = W::<FS_PLLCFG>::zeroed();
        w.value(config.channel.get_recommended_fs_pllcfg());
        this.write_reg(&w)?;
        proof {
            lemma_log_push(start, log, reg_write::<FS_PLLCFG>(w@));
            log = log.push(reg_write::<FS_PLLCFG>(w@));
        }
        let mut w = W::<FS_PLLTUNE>::zeroed();
        w.value(config.channel.get_recommended_fs_plltune());
        this.write_reg(&w)?;
        proof {
            lemma_log_push(start, log, reg_write::<FS_PLLTUNE>(w@));
            log = log.push(reg_write::<FS_PLLTUNE>(w@));
        }
        if !matches!(send_time, SendTime::OnSync) {
            // Start transmission
            let ghost j = this.reads().len() as int;
            let rd = this.read_reg::<SYS_CTRL>()?;
            let mut w = W::from_read(&rd);
            if matches!(send_time, SendTime::Delayed(_)) {
                w.txdlys(1);
            }
            w.txstrt(1);
            this.write_reg(&w)?;
            proof {
                assert(kept_bits(rd@, reg_write::<SYS_CTRL>(w@), |b: int| b == 1 || (send_time is Delayed && b == 2)));
                ctrl = (reg_read::<SYS_CTRL>(rd@), reg_write::<SYS_CTRL>(w@), j);
                assert(this.reads()[j] == ctrl.0);
                lemma_log_push(start, log, reg_write::<SYS_CTRL>(w@));
                log = log.push(reg_write::<SYS_CTRL>(w@));
            }
        }
        proof {
            assert(added(start, this.writes()) =~= log);
            assert(force_idle_writes(log.take(2), log.take(3), false));
            let (pan_id, short_addr) = match source {
                Address::Short(p, a) => (p, a),
                Address::Extended(p, _) => (p, 0),
            };
            assert(frame_from(log[frame_at].data.take(len as int), destination, pan_id, short_addr, seq, data@));
            assert(carries_frame(log[frame_at], destination, seq, data@));
            assert(this.reads()[jp] == panadr);
            assert(is_read::<PANADR>(this.reads()[jp]));
            let rs = this.reads();
            let ops = log;
            let d: int = if send_time is Now {
                0
            } else {
                1
            };
            let s: int = if config.sfd_sequence == SfdSequence::Decawave {
                1
            } else {
                0
            };
            let jo = choose|j: int|
                before_reads.len() <= j < idle_reads.len() && is_read::<SYS_CTRL>(#[trigger] idle_reads[j])
                    && field_value(idle_reads[j].data, 6, 1) == 0;
            assert(rs[jo] == idle_reads[jo]);
            assert(force_idle_reads(rs, r0, ops, 2, false));
            assert(rs[j_fc] == fc_read && ops[4 + d] == fc_write && j_fc >= r0);
            let jc = choose|jc: int|
                reads_cc0.len() <= jc < reads_cc.len() && is_read::<CHAN_CTRL>(#[trigger] reads_cc[jc])
                    && kept_bits(reads_cc[jc].data, chan_w, |b: int| b < 8 || 17 <= b < 32);
            assert(rs[jc] == reads_cc[jc]);
            assert(ops[5 + d] == chan_w);
            if send_time is OnSync {
                assert(rs[ec.2] == ec.0 && ops[3] == ec.1 && ec.2 >= r0);
            } else {
                assert(rs[ctrl.2] == ctrl.0 && ops[10 + d + s] == ctrl.1 && ctrl.2 >= r0);
            }
            assert(send_reads(rs, r0, ops, send_time, config));
        }
        Ok(DW1000 { ll: this.ll, seq: this.seq, state: Sending { finished: false } })
    }

    /// Attempt to receive an IEEE 802.15.4 MAC frame
    ///
    /// Initializes the receiver. The method consumes this instance of `DW1000`
    /// and returns another instance which is in the `SingleBufferReceiving`
    /// state, and can be used to wait for a message.
    ///
    /// The config parameter allows for the configuration of bitrate, channel
    /// and more. Make sure that the values used are the same as of the frames
    /// that are transmitted. The default works with the TxConfig's default and
    /// is a sane starting point.
    ///
    /// Fails with `Error::InvalidConfiguration` where no tuning exists for the
    /// combination of expected preamble length, bitrate and PRF.
    #[verifier::rlimit(50)]
    #[verifier::spinoff_prover]
    pub fn receive(self, config: RxConfig) -> (r: Result<DW1000<SPI, CS, SingleBufferReceiving>, Error<SPI, CS>>)
        ensures
            r is Ok ==> rx_config_valid(config),
            r matches Err(Error::InvalidConfiguration) ==> !rx_config_valid(config),
            r matches Ok(receiving) ==> {
                &&& keeps(self.writes(), receiving.writes())
                &&& receive_writes(added(self.writes(), receiving.writes()), config)
                &&& reads_kept(self.reads(), receiving.reads())
                &&& receive_reads(
                    receiving.reads(),
                    self.reads().len() as int,
                    added(self.writes(), receiving.writes()),
                    config,
                )
                &&& receiving.seq() == self.seq()
                &&& receiving.state() == (SingleBufferReceiving { finished: false, config })
            },
            r matches Err(e) ==> e is Spi || e is PollTimeout || e is InvalidConfiguration,
    {
        let mut this = self;
        let ghost start = this.writes();
        let ghost r0 = this.reads().len() as int;
        let ghost mut log: Seq<RegWrite> = Seq::empty();
        proof {
            assert(start + log =~= start);
        }
        // For unknown reasons, the DW1000 gets stuck in RX mode without ever
        // receiving anything, after receiving one good frame. Reset the
        // receiver to make sure its in a valid state before attempting to
        // receive anything.
        let ghost j_rst0 = this.reads().len() as int;
        let rd = this.read_reg::<PMSC_CTRL0>()?;
        let ghost read_rst0 = reg_read::<PMSC_CTRL0>(rd@);
        let mut w = W::from_read(&rd);
        w.softreset(0b1110);  // reset receiver
        this.write_reg(&w)?;
        let ghost write_rst0 = reg_write::<PMSC_CTRL0>(w@);
        proof {
            assert(kept_bits(rd@, write_rst0, |b: int| 28 <= b < 32));
            assert(this.reads()[j_rst0] == read_rst0);
            lemma_log_push(start, log, reg_write::<PMSC_CTRL0>(w@));
            log = log.push(reg_write::<PMSC_CTRL0>(w@));
        }
        let ghost j_rst1 = this.reads().len() as int;
        let rd = this.read_reg::<PMSC_CTRL0>()?;
        let ghost read_rst1 = reg_read::<PMSC_CTRL0>(rd@);
        let mut w = W::from_read(&rd);
        w.softreset(0b1111);  // clear reset
        this.write_reg(&w)?;
        let ghost write_rst1 = reg_write::<PMSC_CTRL0>(w@);
        proof {
            assert(kept_bits(rd@, write_rst1, |b: int| 28 <= b < 32));
            assert(this.reads()[j_rst1] == read_rst1);
            lemma_log_push(start, log, reg_write::<PMSC_CTRL0>(w@));
            log = log.push(reg_write::<PMSC_CTRL0>(w@));
        }
        // Resetting the receiver alone has been seen not to be enough to get
        // it out of a state where it couldn't receive anymore.
        let ghost before = this.writes();
        let ghost before_reads = this.reads();
        this.force_idle(false)?;
        let ghost idle_reads = this.reads();
        proof {
            lemma_log_append(start, log, this.writes());
            log = log + added(before, this.writes());
            assert(log.take(2) == before.subrange(start.len() as int, before.len() as int));
            assert(log.take(3)[2] == this.writes()[before.len() as int]);
        }
        let ghost j_cfg = this.reads().len() as int;
        let rd = this.read_reg::<SYS_CFG>()?;
        let ghost read_cfg = reg_read::<SYS_CFG>(rd@);
        let mut w = W::from_read(&rd);
        if config.frame_filtering {
            w.ffen(1);  // enable frame filtering
            w.ffab(1);  // receive beacon frames
            w.ffad(1);  // receive data frames
            w.ffaa(1);  // receive acknowledgement frames
            w.ffam(1);  // receive MAC command frames
        } else {
            w.ffen(0);  // disable frame filtering
        }
        this.write_reg(&w)?;
        let ghost write_cfg = reg_write::<SYS_CFG>(w@);
        proof {
            assert(kept_bits(rd@, write_cfg, |b: int| b == 0 || (config.frame_filtering && 2 <= b <= 5)));
            assert(this.reads()[j_cfg] == read_cfg);
            lemma_log_push(start, log, reg_write::<SYS_CFG>(w@));
            log = log.push(reg_write::<SYS_CFG>(w@));
        }
        // Set PLLLDT bit in EC_CTRL. According to the documentation of the
        // CLKPLL_LL bit in SYS_STATUS, this bit needs to be set to ensure the
        // reliable operation of the CLKPLL_LL bit.
        let ghost j_ec = this.reads().len() as int;
        let rd = this.read_reg::<EC_CTRL>()?;
        let ghost read_ec = reg_read::<EC_CTRL>(rd@);
        let mut w = W::from_read(&rd);
        w.pllldt(1);
        this.write_reg(&w)?;
        let ghost write_ec = reg_write::<EC_CTRL>(w@);
        proof {
            assert(kept_bits(rd@, write_ec, |b: int| b == 2));
            assert(this.reads()[j_ec] == read_ec);
            lemma_log_push(start, log, reg_write::<EC_CTRL>(w@));
            log = log.push(reg_write::<EC_CTRL>(w@));
        }
        // Now that PLLLDT is set, clear all bits in SYS_STATUS that depend on
        // it for reliable operation.
        let mut w = W::<SYS_STATUS>::zeroed();
        w.cplock(1);
        w.clkpll_ll(1);
        this.write_reg(&w)?;
        proof {
            lemma_log_push(start, log, reg_write::<SYS_STATUS>(w@));
            log = log.push(reg_write::<SYS_STATUS>(w@));
        }
        // Apply the config
        let ghost reads_cc0 = this.reads();
        this.write_chan_ctrl(config.channel, config.pulse_repetition_frequency, config.sfd_sequence)?;
        let ghost reads_cc = this.reads();
        let ghost chan_w = this.writes().last();
        proof {
            log = log.push(this.writes().last());
            assert(this.writes() =~= start + log);
        }
        if config.sfd_sequence == SfdSequence::Decawave {
            let mut w = W::<SFD_LENGTH>::zeroed();
            w.value(8);
            this.write_reg(&w)?;
            proof {
                lemma_log_push(start, log, reg_write::<SFD_LENGTH>(w@));
                log = log.push(reg_write::<SFD_LENGTH>(w@));
            }
        }
        // Set general tuning
        let mut w = W::<DRX_TUNE0B>::zeroed();
        w.value(config.bitrate.get_recommended_drx_tune0b(config.sfd_sequence));
        this.write_reg(&w)?;
        proof {
            lemma_log_push(start, log, reg_write::<DRX_TUNE0B>(w@));
            log = log.push(reg_write::<DRX_TUNE0B>(w@));
        }
        let mut w = W::<DRX_TUNE1A>::zeroed();
        w.value(config.pulse_repetition_frequency.get_recommended_drx_tune1a());
        this.write_reg(&w)?;
        proof {
            lemma_log_push(start, log, reg_write::<DRX_TUNE1A>(w@));
            log = log.push(reg_write::<DRX_TUNE1A>(w@));
        }
        let drx_tune1b = config.expected_preamble_length.get_recommended_drx_tune1b::<SPI, CS>(config.bitrate)?;
        let mut w = W::<DRX_TUNE1B>::zeroed();
        w.value(drx_tune1b);
        this.write_reg(&w)?;
        proof {
            lemma_log_push(start, log, reg_write::<DRX_TUNE1B>(w@));
            log = log.push(reg_write::<DRX_TUNE1B>(w@));
        }
        let drx_tune2 = config.pulse_repetition_frequency.get_recommended_drx_tune2::<SPI, CS>(
            config.expected_preamble_length.get_recommended_pac_size(),
        )?;
        let mut w = W::<DRX_TUNE2>::zeroed();
        w.value(drx_tune2);
        this.write_reg(&w)?;
        proof {
            lemma_log_push(start, log, reg_write::<DRX_TUNE2>(w@));
            log = log.push(reg_write::<DRX_TUNE2>(w@));
        }
        let mut w = W::<DRX_TUNE4H>::zeroed();
        w.value(config.expected_preamble_length.get_recommended_dxr_tune4h());
        this.write_reg(&w)?;
        proof {
            lemma_log_push(start, log, reg_write::<DRX_TUNE4H>(w@));
            log = log.push(reg_write::<DRX_TUNE4H>(w@));
        }
        // Set channel tuning
        let mut w = W::<RF_RXCTRLH>::zeroed();
        w.value(config.channel.get_recommended_rf_rxctrlh());
        this.write_reg(&w)?;
        proof {
            lemma_log_push(start, log, reg_write::<RF_RXCTRLH>(w@));
            log = log.push(reg_write::<RF_RXCTRLH>(w@));
        }
        let mut w = W::<FS_PLLCFG>::zeroed();
        w.value(config.channel.get_recommended_fs_pllcfg());
        this.write_reg(&w)?;
        proof {
            lemma_log_push(start, log, reg_write::<FS_PLLCFG>(w@));
            log = log.push(reg_write::<FS_PLLCFG>(w@));
        }
        let mut w = W::<FS_PLLTUNE>::zeroed();
        w.value(config.channel.get_recommended_fs_plltune());
        this.write_reg(&w)?;
        proof {
            lemma_log_push(start, log, reg_write::<FS_PLLTUNE>(w@));
            log = log.push(reg_write::<FS_PLLTUNE>(w@));
        }
        // Set the rx bitrate
        let ghost j_rate = this.reads().len() as int;
        let rd = this.read_reg::<SYS_CFG>()?;
        let ghost read_rate = reg_read::<SYS_CFG>(rd@);
        let mut w = W::from_read(&rd);
        w.rxm110k((config.bitrate == BitRate::Kbps110) as u8);
        this.write_reg(&w)?;
        let ghost write_rate = reg_write::<SYS_CFG>(w@);
        proof {
            assert(kept_bits(rd@, write_rate, |b: int| b == 22));
            assert(this.reads()[j_rate] == read_rate);
            lemma_log_push(start, log, reg_write::<SYS_CFG>(w@));
            log = log.push(reg_write::<SYS_CFG>(w@));
        }
        let ghost j_enab = this.reads().len() as int;
        let rd = this.read_reg::<SYS_CTRL>()?;
        let ghost read_enab = reg_read::<SYS_CTRL>(rd@);
        let mut w = W::from_read(&rd);
        w.rxenab(1);
        this.write_reg(&w)?;
        let ghost write_enab = reg_write::<SYS_CTRL>(w@);
        proof {
            assert(kept_bits(rd@, write_enab, |b: int| b == 8));
            assert(this.reads()[j_enab] == read_enab);
            lemma_log_push(start, log, reg_write::<SYS_CTRL>(w@));
            log = log.push(reg_write::<SYS_CTRL>(w@));
            assert(added(start, this.writes()) =~= log);
            assert(force_idle_writes(log.take(2), log.take(3), false));
            let rs = this.reads();
            let ops = log;
            let s: int = if config.sfd_sequence == SfdSequence::Decawave {
                1
            } else {
                0
            };
            assert(rs[j_rst0] == read_rst0 && ops[0] == write_rst0);
            assert(rs[j_rst1] == read_rst1 && ops[1] == write_rst1);
            assert(rs[j_cfg] == read_cfg && ops[3] == write_cfg);
            assert(rs[j_ec] == read_ec && ops[4] == write_ec);
            assert(rs[j_rate] == read_rate && ops[15 + s] == write_rate);
            assert(rs[j_enab] == read_enab && ops[16 + s] == write_enab);
            assert(j_rst0 >= r0 && j_rst1 >= r0 && j_cfg >= r0 && j_ec >= r0 && j_rate >= r0 && j_enab >= r0);
            let jo = choose|j: int|
                before_reads.len() <= j < idle_reads.len() && is_read::<SYS_CTRL>(#[trigger] idle_reads[j])
                    && field_value(idle_reads[j].data, 6, 1) == 0;
            assert(rs[jo] == idle_reads[jo]);
            assert(force_idle_reads(rs, r0, ops, 2, false));
            let jc = choose|jc: int|
                reads_cc0.len() <= jc < reads_cc.len() && is_read::<CHAN_CTRL>(#[trigger] reads_cc[jc])
                    && kept_bits(reads_cc[jc].data, chan_w, |b: int| b < 8 || 17 <= b < 32);
            assert(rs[jc] == reads_cc[jc]);
            assert(ops[6] == chan_w);
            assert(modifies_read::<CHAN_CTRL>(rs, r0, ops[6], |b: int| b < 8 || 17 <= b < 32));
        }
        Ok(DW1000 { ll: this.ll, seq: this.seq, state: SingleBufferReceiving { finished: false, config } })
    }

    /// Puts the dw1000 into sleep mode.
    ///
    /// - `irq_on_wakeup`: When set to true, the IRQ pin will be asserted when the radio wakes up
    /// - `sleep_duration`: When `None`, the radio will not wake up by itself and go into the deep sleep mode.
    /// When `Some`, then the radio will wake itself up after the given time. Every tick is ~431ms, but there may
    /// be a significant deviation from this due to the chip's manufacturing process.
    ///
    /// *Note: The SPI speed may be at most 3 Mhz when calling this function.*
    #[verifier::rlimit(50)]
    #[verifier::spinoff_prover]
    pub fn enter_sleep(self, irq_on_wakeup: bool, sleep_duration: Option<u16>) -> (r: Result<
        DW1000<SPI, CS, Sleeping>,
        Error<SPI, CS>,
    >)
        ensures
            r matches Ok(sleeping) ==> {
                &&& keeps(self.writes(), sleeping.writes())
                &&& sleep_writes(added(self.writes(), sleeping.writes()), irq_on_wakeup, sleep_duration)
                &&& sleeping.seq() == self.seq()
                &&& sleeping.state().tx_antenna_delay@ < 0x1_0000
                &&& reads_kept(self.reads(), sleeping.reads())
                &&& sleep_reads(
                    sleeping.reads(),
                    self.reads().len() as int,
                    added(self.writes(), sleeping.writes()),
                    irq_on_wakeup,
                    sleep_duration,
                    sleeping.state().tx_antenna_delay@,
                )
            },
            r matches Err(e) ==> e is Spi,
    {
        let mut this = self;
        let ghost start = this.writes();
        let ghost r0 = this.reads().len() as int;
        let ghost mut j_clk0: int = 0;
        let ghost mut j_clk1: int = 0;
        let ghost mut j_mask: int = 0;
        let ghost mut clk0: (RegRead, RegWrite) = arbitrary();
        let ghost mut clk1: (RegRead, RegWrite) = arbitrary();
        let ghost mut mask: (RegRead, RegWrite) = arbitrary();
        let ghost mut log: Seq<RegWrite> = Seq::empty();
        proof {
            assert(start + log =~= start);
        }
        // Set the sleep timer
        if let Some(sd) = sleep_duration {
            proof {
                j_clk0 = this.reads().len() as int;
            }
            let rd = this.read_reg::<PMSC_CTRL0>()?;
            let mut w = W::from_read(&rd);
            w.sysclks(0b01);  // Force the 19.2Mhz clock
            this.write_reg(&w)?;
            proof {
                assert(kept_bits(rd@, reg_write::<PMSC_CTRL0>(w@), |b: int| b < 2));
                assert(this.reads()[j_clk0] == reg_read::<PMSC_CTRL0>(rd@));
                clk0 = (reg_read::<PMSC_CTRL0>(rd@), reg_write::<PMSC_CTRL0>(w@));
                lemma_log_push(start, log, reg_write::<PMSC_CTRL0>(w@));
                log = log.push(reg_write::<PMSC_CTRL0>(w@));
            }
            // Disable the sleep counter
            let mut w = W::<AON_CFG1>::zeroed();
            w.sleep_cen(0);
            w.smxx(0);
            w.lposc_cal(0);
            this.write_reg(&w)?;
            proof {
                lemma_log_push(start, log, reg_write::<AON_CFG1>(w@));
                log = log.push(reg_write::<AON_CFG1>(w@));
            }
            // Set the counter
            let mut w = W::<AON_CFG0>::zeroed();
            w.sleep_tim(sd);
            this.write_reg(&w)?;
            proof {
                lemma_log_push(start, log, reg_write::<AON_CFG0>(w@));
                log = log.push(reg_write::<AON_CFG0>(w@));
            }
            // Enable the sleep counter
            let mut w = W::<AON_CFG1>::zeroed();
            w.sleep_cen(1);
            w.lposc_cal(1);
            this.write_reg(&w)?;
            proof {
                lemma_log_push(start, log, reg_write::<AON_CFG1>(w@));
                log = log.push(reg_write::<AON_CFG1>(w@));
            }
            // Upload array
            let mut w = W::<AON_CTRL>::zeroed();
            w.upl_cfg(1);
            this.write_reg(&w)?;
            proof {
                lemma_log_push(start, log, reg_write::<AON_CTRL>(w@));
                log = log.push(reg_write::<AON_CTRL>(w@));
            }
            let mut w = W::<AON_CTRL>::zeroed();
            w.upl_cfg(0);
            this.write_reg(&w)?;
            proof {
                lemma_log_push(start, log, reg_write::<AON_CTRL>(w@));
                log = log.push(reg_write::<AON_CTRL>(w@));
            }
            proof {
                j_clk1 = this.reads().len() as int;
            }
            let rd = this.read_reg::<PMSC_CTRL0>()?;
            let mut w = W::from_read(&rd);
            w.sysclks(0b00);  // Auto clock
            this.write_reg(&w)?;
            proof {
                assert(kept_bits(rd@, reg_write::<PMSC_CTRL0>(w@), |b: int| b < 2));
                assert(this.reads()[j_clk1] == reg_read::<PMSC_CTRL0>(rd@));
                clk1 = (reg_read::<PMSC_CTRL0>(rd@), reg_write::<PMSC_CTRL0>(w@));
                lemma_log_push(start, log, reg_write::<PMSC_CTRL0>(w@));
                log = log.push(reg_write::<PMSC_CTRL0>(w@));
                assert(sleep_timer_writes(log.take(7), sd));
            }
        }
        // Save the settings that the always-on memory doesn't keep
        let ghost j_antd = this.reads().len() as int;
        let tx_antenna_delay = this.get_tx_antenna_delay()?;
        let ghost antd_read = this.reads()[j_antd];
        // Setup the interrupt.
        if irq_on_wakeup {
            proof {
                j_mask = this.reads().len() as int;
            }
            let rd = this.read_reg::<SYS_MASK>()?;
            let mut w = W::from_read(&rd);
            w.mslp2init(1);
            w.mcplock(1);
            this.write_reg(&w)?;
            proof {
                assert(kept_bits(rd@, reg_write::<SYS_MASK>(w@), |b: int| b == 1 || b == 23));
                assert(this.reads()[j_mask] == reg_read::<SYS_MASK>(rd@));
                mask = (reg_read::<SYS_MASK>(rd@), reg_write::<SYS_MASK>(w@));
                lemma_log_push(start, log, reg_write::<SYS_MASK>(w@));
                log = log.push(reg_write::<SYS_MASK>(w@));
            }
        }
        let ghost before = this.writes();
        let ghost j_otp = this.reads().len() as int;
        let lldo = this.is_ldo_tune_calibrated()? as u8;
        let ghost otp_read = this.reads()[j_otp];
        proof {
            lemma_log_append(start, log, this.writes());
            log = log + added(before, this.writes());
            assert(log.take(log.len() - 4) == before.subrange(start.len() as int, before.len() as int));
            assert(log.take(log.len() as int) =~= log);
            assert(forall|j: int|
                0 <= j < 4 ==> #[trigger] log[log.len() - 4 + j] == this.writes()[before.len() + j]);
        }
        // Setup everything that needs to be stored in AON
        let ghost j_wcfg = this.reads().len() as int;
        let rd = this.read_reg::<AON_WCFG>()?;
        let mut w = W::from_read(&rd);
        w.onw_ldc(1);
        w.onw_llde(1);
        w.onw_lldo(lldo);
        w.onw_l64p(1);
        this.write_reg(&w)?;
        let ghost wcfg = reg_write::<AON_WCFG>(w@);
        let ghost wcfg_read = reg_read::<AON_WCFG>(rd@);
        proof {
            assert(kept_bits(rd@, wcfg, |b: int| b == 6 || b == 7 || b == 11 || b == 12));
            lemma_log_push(start, log, reg_write::<AON_WCFG>(w@));
            log = log.push(reg_write::<AON_WCFG>(w@));
        }
        // Setup the wakeup sources.
        let ghost j_cfg0 = this.reads().len() as int;
        let rd = this.read_reg::<AON_CFG0>()?;
        let mut w = W::from_read(&rd);
        w.wake_spi(1);
        w.wake_cnt(sleep_duration.is_some() as u8);
        w.sleep_en(1);
        this.write_reg(&w)?;
        let ghost cfg0 = reg_write::<AON_CFG0>(w@);
        let ghost cfg0_read = reg_read::<AON_CFG0>(rd@);
        proof {
            assert(kept_bits(rd@, cfg0, |b: int| b == 0 || b == 2 || b == 3));
            lemma_log_push(start, log, reg_write::<AON_CFG0>(w@));
            log = log.push(reg_write::<AON_CFG0>(w@));
        }
        // Upload always on array configuration and enter sleep
        let w = W::<AON_CTRL>::zeroed();
        this.write_reg(&w)?;
        proof {
            lemma_log_push(start, log, reg_write::<AON_CTRL>(w@));
            log = log.push(reg_write::<AON_CTRL>(w@));
        }
        let mut w = W::<AON_CTRL>::zeroed();
        w.save(1);
        this.write_reg(&w)?;
        proof {
            lemma_log_push(start, log, reg_write::<AON_CTRL>(w@));
            log = log.push(reg_write::<AON_CTRL>(w@));
            assert(added(start, this.writes()) =~= log);
            let rs = this.reads();
            assert(rs[j_antd] == antd_read);
            assert(rs[j_otp] == otp_read);
            assert(rs[j_wcfg] == wcfg_read);
            assert(rs[j_cfg0] == cfg0_read);
            assert(j_antd >= r0 && j_otp >= r0 && j_wcfg >= r0 && j_cfg0 >= r0);
            let ops = added(start, this.writes());
            let t: int = if sleep_duration is Some {
                7
            } else {
                0
            };
            let k = t + if irq_on_wakeup {
                1int
            } else {
                0
            };
            assert(ops[k + 4] == wcfg);
            assert(ops[k + 5] == cfg0);
            assert(modifies_read::<AON_WCFG>(rs, r0, ops[k + 4], |b: int| b == 6 || b == 7 || b == 11 || b == 12));
            assert(modifies_read::<AON_CFG0>(rs, r0, ops[k + 5], |b: int| b == 0 || b == 2 || b == 3));
            assert(is_read::<OTP_RDAT>(rs[j_otp]));
            assert(field_of(ops[k + 4], 12, 1) == flag(field_value(rs[j_otp].data, 0, 32) != 0));
            assert(is_read::<TX_ANTD>(rs[j_antd]));
            if sleep_duration is Some {
                assert(ops[0] == clk0.1);
                assert(ops[6] == clk1.1);
                assert(rs[j_clk0] == clk0.0);
                assert(rs[j_clk1] == clk1.0);
                assert(j_clk0 >= r0 && j_clk1 >= r0);
            }
            if irq_on_wakeup {
                assert(ops[t] == mask.1);
                assert(rs[j_mask] == mask.0);
                assert(j_mask >= r0);
            }
        }
        Ok(DW1000 { ll: this.ll, seq: this.seq, state: Sleeping { tx_antenna_delay } })
    }

    /// Writes CHAN_CTRL for `channel`, `prf` and `sfd`, modifying its current
    /// value.
    fn write_chan_ctrl(
        &mut self,
        channel: UwbChannel,
        prf: PulseRepetitionFrequency,
        sfd: SfdSequence,
    ) -> (r: Result<(), Error<SPI, CS>>)
        ensures
            reads_kept(old(self).reads(), final(self).reads()),
            final(self).seq() == old(self).seq(),
            r is Err ==> final(self).writes() == old(self).writes(),
            r is Ok ==> extends(old(self).writes(), final(self).writes(), 1) && chan_ctrl_set(
                final(self).writes().last(),
                channel,
                prf,
                sfd,
            ),
            r matches Err(e) ==> e is Spi,
            r is Ok ==> modifies_read::<CHAN_CTRL>(
                final(self).reads(),
                old(self).reads().len() as int,
                final(self).writes().last(),
                |b: int| b < 8 || 17 <= b < 32,
            ),
    {
        let code = channel.get_recommended_preamble_code(prf);
        let ghost j = self.reads().len() as int;
        let rd = self.read_reg::<CHAN_CTRL>()?;
        let ghost rr = reg_read::<CHAN_CTRL>(rd@);
        let mut w = W::from_read(&rd);
        w.tx_chan(channel.bits());
        w.rx_chan(channel.bits());
        w.dwsfd((sfd == SfdSequence::Decawave) as u8);
        w.rxprf(prf.bits());
        w.tnssfd((sfd == SfdSequence::User) as u8);
        w.rnssfd((sfd == SfdSequence::User) as u8);
        w.tx_pcode(code);
        w.rx_pcode(code);
        self.write_reg(&w)?;
        proof {
            assert(kept_bits(rd@, reg_write::<CHAN_CTRL>(w@), |b: int| b < 8 || 17 <= b < 32));
            assert(self.reads()[j] == rr);
        }
        Ok(())
    }

    /// Enables transmit interrupts for the events that `wait` checks
    ///
    /// Overwrites any interrupt flags that were previously set.
    pub fn enable_tx_interrupts(&mut self) -> (r: Result<(), Error<SPI, CS>>)
        ensures
            final(self).seq() == old(self).seq(),
            keeps(old(self).writes(), final(self).writes()),
            r is Ok ==> ({
                let ops = added(old(self).writes(), final(self).writes());
                &&& ops.len() == 1
                &&& is_write::<SYS_MASK>(ops[0])
                // MTXFRS alone
                &&& forall|k: int| 0 <= k < 32 ==> #[trigger] field_of(ops[0], k, 1) == flag(k == 7)
            }),
            r is Ok <==> all_ok(calls_after(old(self).bus(), final(self).bus())),
            r matches Err(e) ==> e is Spi,
    {
        let ghost start = self.writes();
        let mut w = W::<SYS_MASK>::zeroed();
        w.mtxfrs(1);
        self.write_reg(&w)?;
        proof {
            assert(added(start, self.writes()) =~= seq![reg_write::<SYS_MASK>(w@)]);
        }
        Ok(())
    }

    /// Enables receive interrupts for the events that `wait` checks
    ///
    /// Overwrites any interrupt flags that were previously set.
    pub fn enable_rx_interrupts(&mut self) -> (r: Result<(), Error<SPI, CS>>)
        ensures
            final(self).seq() == old(self).seq(),
            keeps(old(self).writes(), final(self).writes()),
            r is Ok ==> ({
                let ops = added(old(self).writes(), final(self).writes());
                &&& ops.len() == 1
                &&& rx_interrupts_enabled(ops[0])
                // The bits that `rx_interrupts_enabled` names, and no others
                &&& forall|k: int|
                    0 <= k < 32 ==> #[trigger] field_of(ops[0], k, 1) == flag(rx_checked_bit(k as u64))
            }),
            r is Ok <==> all_ok(calls_after(old(self).bus(), final(self).bus())),
            r matches Err(e) ==> e is Spi,
    {
        let ghost start = self.writes();
        let mut w = W::<SYS_MASK>::zeroed();
        w.mrxdfr(1);
        w.mrxfce(1);
        w.mrxphe(1);
        w.mrxrfsl(1);
        w.mrxrfto(1);
        w.mrxovrr(1);
        w.mrxpto(1);
        w.mrxsfdto(1);
        w.maffrej(1);
        w.mldedone(1);
        self.write_reg(&w)?;
        proof {
            assert(added(start, self.writes()) =~= seq![reg_write::<SYS_MASK>(w@)]);
        }
        Ok(())
    }

    /// Disables all interrupts
    pub fn disable_interrupts(&mut self) -> (r: Result<(), Error<SPI, CS>>)
        ensures
            final(self).seq() == old(self).seq(),
            keeps(old(self).writes(), final(self).writes()),
            r is Ok ==> ({
                let ops = added(old(self).writes(), final(self).writes());
                &&& ops.len() == 1
                &&& is_write::<SYS_MASK>(ops[0])
                &&& field_of(ops[0], 0, 32) == 0
            }),
            r is Ok <==> all_ok(calls_after(old(self).bus(), final(self).bus())),
            r matches Err(e) ==> e is Spi,
    {
        let ghost start = self.writes();
        let w = W::<SYS_MASK>::zeroed();
        self.write_reg(&w)?;
        proof {
            assert(added(start, self.writes()) =~= seq![reg_write::<SYS_MASK>(w@)]);
        }
        Ok(())
    }

    /// Clear all interrupt flags
    ///
    /// The same as [`DW1000::disable_interrupts`]: every bit of the interrupt
    /// mask is cleared.
    pub fn clear_interrupts(&mut self) -> (r: Result<(), Error<SPI, CS>>)
        ensures
            final(self).seq() == old(self).seq(),
            keeps(old(self).writes(), final(self).writes()),
            r is Ok ==> ({
                let ops = added(old(self).writes(), final(self).writes());
                &&& ops.len() == 1
                &&& is_write::<SYS_MASK>(ops[0])
                &&& field_of(ops[0], 0, 32) == 0
            }),
            r is Ok <==> all_ok(calls_after(old(self).bus(), final(self).bus())),
            r matches Err(e) ==> e is Spi,
    {
        self.disable_interrupts()
    }

    /// Configures the gpio pins to operate as LED output.
    ///
    /// - Note: This means that the function of the gpio pins change
    /// - Note: Both the kilohertz and debounce clock will be turned on or off
    /// ---
    /// - RXOKLED will change GPIO0
    /// - SFDLED will change GPIO1
    /// - RXLED will change GPIO2
    /// - TXLED will change GPIO3
    ///
    /// blink_time is in units of 14 ms
    pub fn configure_leds(
        &mut self,
        enable_rx_ok: bool,
        enable_sfd: bool,
        enable_rx: bool,
        enable_tx: bool,
        blink_time: u8,
    ) -> (r: Result<(), Error<SPI, CS>>)
        ensures
            final(self).seq() == old(self).seq(),
            keeps(old(self).writes(), final(self).writes()),
            r is Ok ==> led_writes(
                added(old(self).writes(), final(self).writes()),
                enable_rx_ok,
                enable_sfd,
                enable_rx,
                enable_tx,
                blink_time,
            ),
            reads_kept(old(self).reads(), final(self).reads()),
            r is Ok ==> ({
                let ops = added(old(self).writes(), final(self).writes());
                let k = old(self).reads().len() as int;
                &&& modifies_read::<PMSC_CTRL0>(final(self).reads(), k, ops[0], |b: int| b == 18 || b == 23)
                &&& modifies_read::<PMSC_LEDC>(final(self).reads(), k, ops[1], |b: int| 0 <= b <= 8)
                &&& modifies_read::<GPIO_MODE>(final(self).reads(), k, ops[2], |b: int| 6 <= b < 14)
            }),
            r is Ok <==> all_ok(calls_after(old(self).bus(), final(self).bus())),
            r matches Err(e) ==> e is Spi,
    {
        let ghost start = self.writes();
        let ghost b0 = self.bus();
        let any = (enable_rx_ok || enable_sfd || enable_rx || enable_tx) as u8;
        // Turn on the timer that will control the blinking (The debounce clock)
        let ghost j0 = self.reads().len() as int;
        let r0 = match self.read_reg::<PMSC_CTRL0>() {
            Ok(r) => r,
            Err(e) => return Err(e),
        };
        let ghost b1 = self.bus();
        let mut w = W::from_read(&r0);
        w.gpdce(any);
        w.khzclken(any);
        let res = self.write_reg(&w);
        let ghost b2 = self.bus();
        proof {
            lemma_all_ok_split(b0, b1, b2);
        }
        match res {
            Ok(()) => {},
            Err(e) => return Err(e),
        }
        let ghost w0 = reg_write::<PMSC_CTRL0>(w@);
        proof {
            assert(kept_bits(r0@, w0, |b: int| b == 18 || b == 23));
        }
        // Turn on the led blinking
        let ghost j1 = self.reads().len() as int;
        let res = self.read_reg::<PMSC_LEDC>();
        let ghost b3 = self.bus();
        proof {
            lemma_all_ok_split(b0, b2, b3);
        }
        let r1 = match res {
            Ok(r) => r,
            Err(e) => return Err(e),
        };
        let mut w = W::from_read(&r1);
        w.blnken(any);
        w.blink_tim(blink_time);
        let res = self.write_reg(&w);
        let ghost b4 = self.bus();
        proof {
            lemma_all_ok_split(b0, b3, b4);
        }
        match res {
            Ok(()) => {},
            Err(e) => return Err(e),
        }
        let ghost w1 = reg_write::<PMSC_LEDC>(w@);
        proof {
            assert(kept_bits(r1@, w1, |b: int| 0 <= b <= 8));
        }
        // Set the proper gpio mode
        let ghost j2 = self.reads().len() as int;
        let res = self.read_reg::<GPIO_MODE>();
        let ghost b5 = self.bus();
        proof {
            lemma_all_ok_split(b0, b4, b5);
        }
        let r2 = match res {
            Ok(r) => r,
            Err(e) => return Err(e),
        };
        let mut w = W::from_read(&r2);
        w.msgp0(enable_rx_ok as u8);
        w.msgp1(enable_sfd as u8);
        w.msgp2(enable_rx as u8);
        w.msgp3(enable_tx as u8);
        let res = self.write_reg(&w);
        proof {
            lemma_all_ok_split(b0, b5, self.bus());
        }
        match res {
            Ok(()) => {},
            Err(e) => return Err(e),
        }
        proof {
            assert(added(start, self.writes()) =~= seq![w0, w1, reg_write::<GPIO_MODE>(w@)]);
            assert(kept_bits(r2@, reg_write::<GPIO_MODE>(w@), |b: int| 6 <= b < 14));
            assert(self.reads()[j0] == reg_read::<PMSC_CTRL0>(r0@));
            assert(self.reads()[j1] == reg_read::<PMSC_LEDC>(r1@));
            assert(self.reads()[j2] == reg_read::<GPIO_MODE>(r2@));
        }
        Ok(())
    }

    /// Converts a delay in nanoseconds into a future timestamp
    ///
    /// Takes a delay in nanoseconds and returns a timestamp in the future,
    /// based on the delay and the current system time. This time stamp can be
    /// used for a delayed transmission.
    ///
    /// The result will fit within 40 bits, which means it will always be a
    /// valid timer value.
    pub fn time_from_delay(&mut self, delay_ns: u32) -> (r: Result<Instant, Error<SPI, CS>>)
        ensures
            final(self).seq() == old(self).seq(),
            final(self).writes() == old(self).writes(),
            r matches Ok(i) ==> exists|now: int|
                0 <= now <= TIME_MAX && i@ == #[trigger] spec_delayed_time(now, delay_ns),
            r is Ok <==> all_ok(calls_after(old(self).bus(), final(self).bus())),
            r is Ok ==> read_once::<SYS_TIME>(old(self).reads(), final(self).reads()),
            r matches Ok(i) ==> i@ == spec_delayed_time(
                field_value(final(self).reads().last().data, 0, 40) as int,
                delay_ns,
            ),
            r is Err ==> final(self).reads() == old(self).reads(),
            r matches Err(e) ==> e is Spi,
    {
        let now = self.sys_time()?;
        let r = delayed_time(now, delay_ns);
        proof {
            use_type_invariant(now);
            crate::time::lemma_instant_fits(now);
            assert(r@ == spec_delayed_time(now@, delay_ns));
        }
        Ok(r)
    }
}

} // verus!
