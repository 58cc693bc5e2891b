//! Operations that are available while a frame is being sent

use vstd::prelude::*;
use crate::hl::awake::force_idle_writes;
use crate::hl::{
    added, extends, field_of, is_read, is_write, keeps, kept_bits, modifies_read, reads_kept, DW1000, Error,
    Ready, Sending, WaitError,
};
use crate::ll::{reg_read, reg_write, ChipSelect, RegRead, RegWrite, Spi, W};
use crate::ll::bits::field_value;
use crate::ll::registers::{EC_CTRL, EVC_HPW, EVC_TPW, SYS_STATUS, TX_TIME};
use crate::time::Instant;

verus! {

/// `w` writes 1 to the transmission status bits of SYS_STATUS (TXFRB,
/// TXPRS, TXPHS, TXFRS), which clears them, and 0 to every other bit, which
/// leaves them alone.
pub open spec fn clears_tx_status(w: RegWrite) -> bool {
    &&& is_write::<SYS_STATUS>(w)
    &&& field_of(w, 0, 4) == 0
    &&& field_of(w, 4, 1) == 1  // TXFRB: Transmit Frame Begins
    &&& field_of(w, 5, 1) == 1  // TXPRS: Transmit Preamble Sent
    &&& field_of(w, 6, 1) == 1  // TXPHS: Transmit PHY Header Sent
    &&& field_of(w, 7, 1) == 1  // TXFRS: Transmit Frame Sent
    &&& field_of(w, 8, 32) == 0
}

/// The writes that finishing a transmission makes: none where it was seen to
/// finish; otherwise the radio is forced into IDLE mode, the transmission
/// status is cleared, and OSTSM of EC_CTRL is cleared.
pub open spec fn finish_sending_writes(ops: Seq<RegWrite>, finished: bool) -> bool {
    if finished {
        ops.len() == 0
    } else {
        &&& ops.len() == 3
        &&& force_idle_writes(ops.take(0), ops.take(1), false)
        &&& clears_tx_status(ops[1])
        &&& is_write::<EC_CTRL>(ops[2])
        &&& field_of(ops[2], 0, 1) == 0  // OSTSM
    }
}

/// The reads that waiting for a transmission makes before it decides,
/// from index `k` of `reads` on: EVC_HPW, then, where that counter is zero,
/// EVC_TPW, then, where that one is zero too, SYS_STATUS.
pub open spec fn tx_wait_reads(reads: Seq<RegRead>, k: int) -> bool {
    &&& reads.len() > k ==> is_read::<EVC_HPW>(reads[k])
    &&& reads.len() > k + 1 ==> is_read::<EVC_TPW>(reads[k + 1]) && field_value(reads[k].data, 0, 12) == 0
    &&& reads.len() > k + 2 ==> is_read::<SYS_STATUS>(reads[k + 2]) && field_value(reads[k + 1].data, 0, 12)
        == 0
}

impl<SPI: Spi, CS: ChipSelect> DW1000<SPI, CS, Sending> {
    /// Wait for the transmission to finish
    ///
    /// This method returns `WaitError::WouldBlock` to indicate that the
    /// transmission is still ongoing. You can use this to busily wait for the
    /// transmission to finish, or you can use it in tandem with
    /// [`DW1000::enable_tx_interrupts`] and the DW1000 IRQ output to wait in a
    /// more energy-efficient manner.
    ///
    /// Handling the DW1000's IRQ output line is out of the scope of this
    /// driver, but please note that if you're using the DWM1001 module or
    /// DWM1001-Dev board, that the `dwm1001` crate has explicit support for
    /// this.
    ///
    /// Once the transmission has finished, this clears the transmission status
    /// bits, turns the external transmit synchronization off (OSTSM of
    /// EC_CTRL), marks the transmission finished and returns the time at which
    /// the frame was sent.
    pub fn wait(&mut self) -> (r: Result<Instant, WaitError<Error<SPI, CS>>>)
        ensures
            final(self).seq() == old(self).seq(),
            ({
                ||| final(self).writes() == old(self).writes() && final(self).state() == old(self).state()
                ||| {
                    &&& extends(old(self).writes(), final(self).writes(), 1)
                    &&& clears_tx_status(final(self).writes().last())
                    &&& final(self).state() == old(self).state()
                }
                ||| {
                    &&& extends(old(self).writes(), final(self).writes(), 2)
                    &&& clears_tx_status(final(self).writes()[old(self).writes().len() as int])
                    &&& is_write::<EC_CTRL>(final(self).writes().last())
                    &&& field_of(final(self).writes().last(), 0, 1) == 0  // OSTSM
                    &&& modifies_read::<EC_CTRL>(
                        final(self).reads(),
                        old(self).reads().len() as int,
                        final(self).writes().last(),
                        |b: int| b == 0,
                    )
                    &&& final(self).state() == (Sending { finished: true })
                }
            }),
            r is Ok ==> final(self).writes().len() == old(self).writes().len() + 2,
            reads_kept(old(self).reads(), final(self).reads()),
            tx_wait_reads(final(self).reads(), old(self).reads().len() as int),
            r matches Err(WaitError::WouldBlock) ==> {
                let k = old(self).reads().len() as int;
                &&& final(self).writes() == old(self).writes()
                &&& final(self).reads().len() == k + 3
                &&& field_value(final(self).reads()[k + 2].data, 7, 1) == 0  // TXFRS
            },
            r matches Err(WaitError::Other(e)) ==> e is Spi || e is DelayedSendTooLate
                || e is DelayedSendPowerUpWarning,
            (r matches Err(WaitError::Other(Error::DelayedSendTooLate))) <==> {
                let k = old(self).reads().len() as int;
                final(self).reads().len() > k && field_value(final(self).reads()[k].data, 0, 12) != 0
            },
            (r matches Err(WaitError::Other(Error::DelayedSendPowerUpWarning))) <==> {
                let k = old(self).reads().len() as int;
                final(self).reads().len() > k + 1 && field_value(final(self).reads()[k + 1].data, 0, 12) != 0
            },
            r matches Err(WaitError::Other(Error::DelayedSendTooLate)) ==> final(self).writes() == old(
                self,
            ).writes(),
            r matches Err(WaitError::Other(Error::DelayedSendPowerUpWarning)) ==> final(self).writes()
                == old(self).writes(),
            r matches Ok(t) ==> {
                let k = old(self).reads().len() as int;
                let reads = final(self).reads();
                &&& reads.len() == k + 5
                &&& field_value(reads[k + 2].data, 7, 1) != 0  // TXFRS
                &&& is_read::<EC_CTRL>(reads[k + 3])
                &&& kept_bits(reads[k + 3].data, final(self).writes().last(), |b: int| b == 0)
                &&& is_read::<TX_TIME>(reads[k + 4])
                &&& t@ == field_value(reads[k + 4].data, 0, 40)
            },
    {
        let ghost r0 = self.reads();
        let ghost k = r0.len() as int;
        let evc_hpw = match self.read_reg::<EVC_HPW>() {
            Ok(r) => r.value(),
            Err(e) => return Err(WaitError::Other(e)),
        };
        let ghost r1 = self.reads();
        if evc_hpw != 0 {
            return Err(WaitError::Other(Error::DelayedSendTooLate));
        }
        let evc_tpw = match self.read_reg::<EVC_TPW>() {
            Ok(r) => r.value(),
            Err(e) => return Err(WaitError::Other(e)),
        };
        let ghost r2 = self.reads();
        proof {
            assert(r2[k] == r1[k]);
        }
        if evc_tpw != 0 {
            return Err(WaitError::Other(Error::DelayedSendPowerUpWarning));
        }
        let sys_status = match self.read_reg::<SYS_STATUS>() {
            Ok(r) => r,
            Err(e) => return Err(WaitError::Other(e)),
        };
        let ghost r3 = self.reads();
        proof {
            assert(r3[k] == r1[k]);
            assert(r3[k + 1] == r2[k + 1]);
        }
        if sys_status.txfrs() == 0 {
            return Err(WaitError::WouldBlock);
        }
        let ghost w0 = self.writes();
        match self.reset_flags() {
            Ok(()) => {},
            Err(e) => return Err(WaitError::Other(e)),
        }
        let ghost w1 = self.writes();
        // Turn off the external transmit synchronization
        let ec_ctrl = match self.read_reg::<EC_CTRL>() {
            Ok(r) => r,
            Err(e) => return Err(WaitError::Other(e)),
        };
        let mut w = W::from_read(&ec_ctrl);
        w.ostsm(0);
        match self.write_reg(&w) {
            Ok(()) => {},
            Err(e) => return Err(WaitError::Other(e)),
        }
        let ghost r4 = self.reads();
        proof {
            assert(kept_bits(ec_ctrl@, reg_write::<EC_CTRL>(w@), |b: int| b == 0));
            assert(self.writes()[w0.len() as int] == w1.last());
            assert(r4[k + 3] == reg_read::<EC_CTRL>(ec_ctrl@));
        }
        self.state.finished = true;
        let tx_time = match self.read_reg::<TX_TIME>() {
            Ok(r) => r.tx_stamp(),
            Err(e) => return Err(WaitError::Other(e)),
        };
        proof {
            let rs = self.reads();
            assert(rs[k] == r1[k]);
            assert(rs[k + 1] == r2[k + 1]);
            assert(rs[k + 2] == r3[k + 2]);
            assert(rs[k + 3] == r4[k + 3]);
        }
        // The time stamp has 40 bits, so this is always `Some`.
        match Instant::new(tx_time) {
            Some(i) => Ok(i),
            None => Err(WaitError::Other(Error::DelayedSendTooLate)),
        }
    }

    /// Finishes sending and returns to the `Ready` state
    ///
    /// If the send operation has finished, as indicated by `wait`, this is a
    /// no-op. If the send operation is still ongoing, it will be aborted.
    pub fn finish_sending(self) -> (r: Result<DW1000<SPI, CS, Ready>, (Self, Error<SPI, CS>)>)
        ensures
            self.state().finished ==> r is Ok,
            r matches Ok(ready) ==> {
                &&& keeps(self.writes(), ready.writes())
                &&& finish_sending_writes(added(self.writes(), ready.writes()), self.state().finished)
                &&& self.state().finished ==> ready.reads() == self.reads() && ready.bus() == self.bus()
                &&& !self.state().finished ==> modifies_read::<EC_CTRL>(
                    ready.reads(),
                    self.reads().len() as int,
                    ready.writes().last(),
                    |b: int| b == 0,
                )
                &&& ready.seq() == self.seq()
            },
            r matches Err((sending, e)) ==> {
                &&& keeps(self.writes(), sending.writes())
                &&& sending.seq() == self.seq()
                &&& sending.state() == self.state()
                &&& (e is Spi || e is PollTimeout)
            },
    {
        let mut this = self;
        if this.state.finished {
            return Ok(DW1000 { ll: this.ll, seq: this.seq, state: Ready });
        }
        let ghost start = this.writes();
        let ghost r0 = this.reads();
        match this.force_idle(false) {
            Ok(()) => {},
            Err(error) => return Err((this, error)),
        }
        match this.reset_flags() {
            Ok(()) => {},
            Err(error) => return Err((this, error)),
        }
        // Turn off the external transmit synchronization
        let ghost before = this.writes();
        let ghost j = this.reads().len() as int;
        let ec_ctrl = match this.read_reg::<EC_CTRL>() {
            Ok(r) => r,
            Err(e) => return Err((this, e)),
        };
        let mut w = W::from_read(&ec_ctrl);
        w.ostsm(0);
        match this.write_reg(&w) {
            Ok(()) => {},
            Err(e) => return Err((this, e)),
        }
        proof {
            let ops = added(start, this.writes());
            assert(ops.take(0) =~= Seq::<RegWrite>::empty());
            assert(ops.take(1) =~= seq![this.writes()[start.len() as int]]);
            assert(ops[1] == this.writes()[start.len() as int + 1]);
            assert(ops.last() == this.writes().last());
            assert(kept_bits(ec_ctrl@, reg_write::<EC_CTRL>(w@), |b: int| b == 0));
            assert(this.reads()[j] == reg_read::<EC_CTRL>(ec_ctrl@));
            assert(j >= r0.len());
        }
        Ok(DW1000 { ll: this.ll, seq: this.seq, state: Ready })
    }

    /// Writes the transmission status bits of SYS_STATUS, clearing them.
    fn reset_flags(&mut self) -> (r: Result<(), Error<SPI, CS>>)
        ensures
            final(self).seq() == old(self).seq(),
            final(self).state() == old(self).state(),
            r is Ok ==> extends(old(self).writes(), final(self).writes(), 1) && clears_tx_status(
                final(self).writes().last(),
            ),
            r is Err ==> final(self).writes() == old(self).writes(),
            r matches Err(e) ==> e is Spi,
            final(self).reads() == old(self).reads(),
    {
        let mut w = W::<SYS_STATUS>::zeroed();
        w.txfrb(1);  // Transmit Frame Begins
        w.txprs(1);  // Transmit Preamble Sent
        w.txphs(1);  // Transmit PHY Header Sent
        w.txfrs(1);  // Transmit Frame Sent
        self.write_reg(&w)
    }
}

} // verus!
