//! Operations that are available while the radio sleeps

use vstd::prelude::*;
use crate::hl::{added, field_of, is_read, is_write, keeps, reads_kept, Delay, DW1000, Error, Ready, Sleeping};
use crate::ll::{all_ok, calls_after, lemma_all_ok_split, reg_write, ChipSelect, RegRead, RegWrite, Spi, W};
use crate::hl::ready::sleep_reads;
use crate::ll::bits::field_value;
use crate::ll::registers::{DEV_ID, SYS_STATUS, TX_ANTD};

verus! {

/// The writes that waking up makes: the wake-up status is reset, and the TX
/// antenna delay that was saved before sleep is restored.
pub open spec fn wake_up_writes(ops: Seq<RegWrite>, tx_antenna_delay: int) -> bool {
    &&& ops.len() == 2
    &&& is_write::<SYS_STATUS>(ops[0])
    &&& field_of(ops[0], 0, 1) == 0
    &&& field_of(ops[0], 1, 1) == 1  // CPLOCK
    &&& field_of(ops[0], 2, 21) == 0
    &&& field_of(ops[0], 23, 1) == 1  // SLP2INIT
    &&& field_of(ops[0], 24, 16) == 0
    &&& is_write::<TX_ANTD>(ops[1])
    &&& field_of(ops[1], 0, 16) == tx_antenna_delay % 0x1_0000
}

/// Waking up restores the TX antenna delay that going to sleep read: where
/// `enter_sleep` read it (as `sleep_reads` states) and saved it, the TX_ANTD
/// write of `wake_up` writes back the value that was read.
pub proof fn lemma_wake_up_restores_antenna_delay(
    reads: Seq<RegRead>,
    from: int,
    sleep_ops: Seq<RegWrite>,
    irq_on_wakeup: bool,
    sleep_duration: Option<u16>,
    tx_antenna_delay: int,
    wake_ops: Seq<RegWrite>,
)
    requires
        sleep_reads(reads, from, sleep_ops, irq_on_wakeup, sleep_duration, tx_antenna_delay),
        wake_up_writes(wake_ops, tx_antenna_delay),
    ensures
        exists|j: int|
            from <= j < reads.len() && is_read::<TX_ANTD>(#[trigger] reads[j]) && field_of(wake_ops[1], 0, 16)
                == field_value(reads[j].data, 0, 16),
{
    let j = choose|j: int|
        from <= j < reads.len() && is_read::<TX_ANTD>(#[trigger] reads[j]) && tx_antenna_delay == field_value(
            reads[j].data,
            0,
            16,
        );
    crate::ll::bits::lemma_field_value_bound(reads[j].data, 0, 16);
    assert(vstd::arithmetic::power2::pow2(16) == 0x1_0000) by {
        vstd::arithmetic::power2::lemma2_to64();
    }
    assert(reads[j] == reads[j]);
}

/// The register identification tag that the DEV_ID register of an awake
/// DW1000 holds
pub const AWAKE_RIDTAG: u16 = 0xDECA;

/// Whether a DEV_ID read with register identification tag `ridtag` shows
/// the radio awake: it does where the tag is `AWAKE_RIDTAG`, and waking up
/// fails with `Error::StillAsleep` where it is anything else.
pub fn shows_awake(ridtag: u16) -> (r: bool)
    ensures
        r == (ridtag == AWAKE_RIDTAG),
{
    ridtag == AWAKE_RIDTAG
}

impl<SPI: Spi, CS: ChipSelect> DW1000<SPI, CS, Sleeping> {
    /// Wakes the radio up.
    ///
    /// Fails with `Error::StillAsleep` where the device identifier cannot be
    /// read back after waiting for the clocks to start.
    pub fn wake_up<D: Delay>(self, delay: &mut D) -> (r: Result<DW1000<SPI, CS, Ready>, Error<SPI, CS>>)
        ensures
            r matches Ok(ready) ==> {
                &&& keeps(self.writes(), ready.writes())
                &&& wake_up_writes(added(self.writes(), ready.writes()), self.state().tx_antenna_delay@)
                &&& ready.seq() == self.seq()
            },
            r matches Ok(ready) ==> {
                let k = self.reads().len() as int;
                &&& reads_kept(self.reads(), ready.reads())
                &&& ready.reads().len() == k + 1
                &&& is_read::<DEV_ID>(ready.reads()[k])
                &&& field_value(ready.reads()[k].data, 16, 16) == AWAKE_RIDTAG
            },
            r is Ok ==> all_ok(calls_after(self.bus(), r->Ok_0.bus())),
            r matches Err(e) ==> e is Spi || e is StillAsleep,
    {
        let mut this = self;
        let ghost start = this.writes();
        let ghost bs = this.bus();
        // Wake up using the spi
        match this.ll.wake_up(850 * 2) {
            Ok(()) => {},
            Err(e) => return Err(Error::Spi(e)),
        }
        // Now we must wait 4 ms so all the clocks start running.
        delay.delay_us(4000 * 2);
        // Let's check that we're actually awake now
        let ghost r0 = this.reads();
        let ghost b0 = this.bus();
        let dev_id = this.read_reg::<DEV_ID>()?;
        if !shows_awake(dev_id.ridtag()) {
            // Oh dear... We have not woken up!
            return Err(Error::StillAsleep);
        }
        let ghost b1 = this.bus();
        // Reset the wakeup status
        let mut w = W::<SYS_STATUS>::zeroed();
        w.slp2init(1);
        w.cplock(1);
        this.write_reg(&w)?;
        let ghost b2 = this.bus();
        let ghost first = reg_write::<SYS_STATUS>(w@);
        // Restore the tx antenna delay
        let value = this.state.tx_antenna_delay.value();
        let mut w = W::<TX_ANTD>::zeroed();
        w.value(#[verifier::truncate] (value as u16));
        proof {
            assert(#[verifier::truncate] (value as u16) == value % 0x1_0000) by (bit_vector);
        }
        this.write_reg(&w)?;
        proof {
            assert(added(start, this.writes()) =~= seq![first, reg_write::<TX_ANTD>(w@)]);
            lemma_all_ok_split(b1, b2, this.bus());
            lemma_all_ok_split(b0, b1, this.bus());
            lemma_all_ok_split(bs, b0, this.bus());
        }
        // All other values should be restored, so return the ready radio.
        Ok(DW1000 { ll: this.ll, seq: this.seq, state: Ready })
    }
}

} // verus!
