//! High-level interface to the DW1000
//!
//! The entry point to this API is the [`DW1000`] struct. Please refer to the
//! documentation there for more details.
//!
//! This module implements a high-level interface to the DW1000. This is the
//! recommended way to access the DW1000 using this crate, unless you need the
//! greater flexibility provided by the [register-level interface](crate::ll).
//!
//! Every operation's contract states the register writes it makes, over the
//! record of writes that [`DW1000::writes`] gives.

mod awake;
mod error;
mod ready;
mod receiving;
mod sending;
mod sleeping;
mod uninitialized;

pub use awake::{bus_kept, clears_rx_status, force_idle_polls, force_idle_reads, force_idle_writes, polled, read_once, read_otp_writes};
pub use error::Error;
pub use receiving::{lemma_rx_wait_reads_enabled_bits, rx_checked_bit, rx_status_error, rx_wait_reads, rx_status_check, spec_rx_status_check, status_bit};
pub use sending::{clears_tx_status, finish_sending_writes, tx_wait_reads};
pub use sleeping::{lemma_wake_up_restores_antenna_delay, shows_awake, wake_up_writes, AWAKE_RIDTAG};
pub use uninitialized::{init_reads, init_writes, otp_read_started};
pub use ready::{
    address_writes, antenna_delay_writes, carries_frame, chan_ctrl_set, delayed_time, frame_from, frame_len,
    lemma_delayed_time_adds_delay, lemma_supported_configs_are_valid,
    led_writes,
    receive_reads, receive_writes, rx_config_valid, rx_interrupts_enabled, send_reads, send_writes, sent_from_read, sleep_reads, spec_delayed_time, sync_behaviour_writes, tx_fctrl_set,
    tx_tuning_set, SendTime, SyncBehaviour,
};

use vstd::prelude::*;
use crate::configs::RxConfig;
use crate::ll;
use crate::ll::{BusEvent, Register, RegRead, RegWrite};
use crate::ll::bits::field_value;
use crate::mac::Frame;
use crate::time::{Duration, Instant};

verus! {

/// Entry point to the DW1000 driver API
///
/// The `State` parameter tracks the state of the radio: [`Uninitialized`],
/// [`Ready`], [`Sending`], [`SingleBufferReceiving`] or [`Sleeping`].
pub struct DW1000<SPI, CS, State> {
    ll: ll::DW1000<SPI, CS>,
    seq: u8,
    state: State,
}

impl<SPI, CS, State> DW1000<SPI, CS, State> {
    /// Every register write made through this driver, oldest first
    pub closed spec fn writes(&self) -> Seq<RegWrite> {
        self.ll.writes()
    }

    /// The sequence number that the next frame sent will carry
    pub closed spec fn seq(&self) -> u8 {
        self.seq
    }

    /// The state of the radio
    pub closed spec fn state(&self) -> State {
        self.state
    }

    /// The register-level driver
    pub closed spec fn low(&self) -> ll::DW1000<SPI, CS> {
        self.ll
    }

    /// Every register read made through this driver that succeeded, oldest
    /// first
    pub closed spec fn reads(&self) -> Seq<RegRead> {
        self.ll.reads()
    }

    /// Every call into the SPI bus and the chip select pin made through this
    /// driver, oldest first
    pub closed spec fn bus(&self) -> Seq<BusEvent> {
        self.ll.bus()
    }
}

/// `r` is a read of register `Reg`.
pub open spec fn is_read<Reg: Register>(r: RegRead) -> bool {
    &&& r.id == Reg::spec_id()
    &&& r.sub_id == Reg::spec_sub_id()
    &&& r.data.len() == Reg::spec_len()
}

/// `w` is a write to register `Reg`.
pub open spec fn is_write<Reg: Register>(w: RegWrite) -> bool {
    &&& w.id == Reg::spec_id()
    &&& w.sub_id == Reg::spec_sub_id()
    &&& w.data.len() == Reg::spec_len()
}

/// The value that `w` writes into the field of `width` bits that starts at
/// bit `first`.
pub open spec fn field_of(w: RegWrite, first: int, width: nat) -> nat {
    field_value(w.data, first, width)
}

/// `new` is `old` followed by `n` more writes.
pub open spec fn extends(old: Seq<RegWrite>, new: Seq<RegWrite>, n: nat) -> bool {
    &&& new.len() == old.len() + n
    &&& keeps(old, new)
}

/// `new` starts with `old`: whatever was written before stays recorded.
pub open spec fn keeps(old: Seq<RegWrite>, new: Seq<RegWrite>) -> bool {
    &&& old.len() <= new.len()
    &&& forall|i: int| 0 <= i < old.len() ==> #[trigger] new[i] == old[i]
}

/// The record of writes only grows: an operation that keeps what an earlier
/// one kept keeps everything before that too.
pub proof fn lemma_keeps_transitive(a: Seq<RegWrite>, b: Seq<RegWrite>, c: Seq<RegWrite>)
    requires
        keeps(a, b),
        keeps(b, c),
    ensures
        keeps(a, c),
{
    assert forall|i: int| 0 <= i < a.len() implies #[trigger] c[i] == a[i] by {
        assert(c[i] == b[i]);
    }
}

/// `new` starts with `old`: whatever was read before stays recorded.
pub open spec fn reads_kept(old: Seq<RegRead>, new: Seq<RegRead>) -> bool {
    &&& old.len() <= new.len()
    &&& forall|i: int| 0 <= i < old.len() ==> #[trigger] new[i] == old[i]
}

/// The write `w` holds the bit of `read` at every position that `changed`
/// does not name: it writes back what was read there.
pub open spec fn kept_bits(read: Seq<u8>, w: RegWrite, changed: spec_fn(int) -> bool) -> bool {
    forall|k: int|
        0 <= k < 8 * w.data.len() && !changed(k) ==> #[trigger] field_of(w, k, 1) == field_value(read, k, 1)
}

/// The write `w` modifies a read of register `Reg` among the reads from
/// index `from` on: it sets the bits that `changed` names and writes back
/// the others as they were read.
pub open spec fn modifies_read<Reg: Register>(
    reads: Seq<RegRead>,
    from: int,
    w: RegWrite,
    changed: spec_fn(int) -> bool,
) -> bool {
    exists|j: int| from <= j < reads.len() && is_read::<Reg>(#[trigger] reads[j]) && kept_bits(reads[j].data, w, changed)
}

/// The writes that `new` holds beyond the first `old.len()`.
pub open spec fn added(old: Seq<RegWrite>, new: Seq<RegWrite>) -> Seq<RegWrite> {
    new.subrange(old.len() as int, new.len() as int)
}

/// 1 for `true`, 0 for `false`
pub open spec fn flag(b: bool) -> nat {
    if b {
        1
    } else {
        0
    }
}

/// Recording one more write after `base + log` gives `base` followed by the
/// longer log.
pub proof fn lemma_log_push(base: Seq<RegWrite>, log: Seq<RegWrite>, w: RegWrite)
    ensures
        (base + log).push(w) == base + log.push(w),
{
    assert((base + log).push(w) =~= base + log.push(w));
}

/// Writes recorded after `base + log` extend the log.
pub proof fn lemma_log_append(base: Seq<RegWrite>, log: Seq<RegWrite>, new: Seq<RegWrite>)
    requires
        keeps(base + log, new),
    ensures
        new == base + (log + added(base + log, new)),
{
    assert(new =~= base + (log + added(base + log, new)));
}

/// The outcome of polling a non-blocking operation
///
/// `WouldBlock` signals that the operation has not finished yet; `Other`
/// carries the error it ended with.
pub enum WaitError<E> {
    /// The operation has not finished yet
    WouldBlock,
    /// The operation failed
    Other(E),
}

/// A source of delays, used while the DW1000 wakes up
pub trait Delay {
    /// Waits for at least `us` microseconds.
    fn delay_us(&mut self, us: u32);
}

/// Indicates that the `DW1000` instance is not initialized yet
#[derive(Debug)]
pub struct Uninitialized;

/// Indicates that the `DW1000` instance is ready to be used
#[derive(Debug)]
pub struct Ready;

/// Indicates that the `DW1000` instance is currently sending
#[derive(Debug)]
pub struct Sending {
    /// Whether the transmission has been seen to finish
    pub finished: bool,
}

/// Indicates that the `DW1000` instance is currently receiving in single
/// buffer mode (default)
#[derive(Debug)]
pub struct SingleBufferReceiving {
    /// Whether the reception has been seen to finish
    pub finished: bool,
    /// The configuration the receiver was started with
    pub config: RxConfig,
}

/// Indicates that the `DW1000` instance is currently receiving in double
/// buffer mode
#[derive(Debug)]
pub struct AutoDoubleBufferReceiving {
    /// Whether the reception has been seen to finish
    pub finished: bool,
    /// The configuration the receiver was started with
    pub config: RxConfig,
}

/// Indicates that the `DW1000` instance is currently sleeping
#[derive(Debug)]
pub struct Sleeping {
    /// Tx antenna delay isn't stored in AON, so we'll do it ourselves.
    pub tx_antenna_delay: Duration,
}

/// Any state struct that implements this trait signals that the radio is
/// **not** sleeping.
pub trait Awake {}

impl Awake for Uninitialized {}

impl Awake for Ready {}

impl Awake for Sending {}

impl Awake for SingleBufferReceiving {}

impl Awake for AutoDoubleBufferReceiving {}

/// Any state struct that implements this trait signals that the radio is
/// sleeping.
pub trait Asleep {}

impl Asleep for Sleeping {}

/// An incoming message
#[derive(Debug)]
pub struct Message {
    /// The time the message was received
    ///
    /// This time is based on the local system time, as defined in the
    /// SYS_TIME register.
    pub rx_time: Instant,
    /// The MAC frame
    pub frame: Frame,
}

} // verus!
