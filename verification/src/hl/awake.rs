//! Operations that are available whenever the radio is awake

use vstd::prelude::*;
use crate::hl::{extends, field_of, flag, is_read, is_write, keeps, kept_bits, reads_kept, Awake, DW1000, Error};
use crate::ll;
use crate::ll::{all_ok, calls_after, lemma_all_ok_split, header_bytes, ran_after, transaction, zeros, BusEvent, BusOp, Register, reg_read, reg_write, register_fits, ChipSelect, Readable, RegRead, RegWrite, Spi, Writable, R, W};
use crate::ll::bits::field_value;
use crate::ll::registers::{
    LDE_RXANTD, OTP_ADDR, OTP_CTRL, OTP_RDAT, PANADR, SYS_CTRL, SYS_MASK, SYS_STATUS, SYS_TIME,
    TX_ANTD,
};
use crate::mac::Address;
use crate::time::{Duration, Instant};

verus! {

/// `w` writes 1 to every bit of SYS_STATUS that reports the progress or an
/// error of a reception, which clears these bits, and 0 to every other bit,
/// which leaves them alone.
pub open spec fn clears_rx_status(w: RegWrite) -> bool {
    &&& is_write::<SYS_STATUS>(w)
    &&& field_of(w, 0, 8) == 0
    &&& field_of(w, 8, 1) == 1  // RXPRD
    &&& field_of(w, 9, 1) == 1  // RXSFDD
    &&& field_of(w, 10, 1) == 1  // LDEDONE
    &&& field_of(w, 11, 1) == 1  // RXPHD
    &&& field_of(w, 12, 1) == 1  // RXPHE
    &&& field_of(w, 13, 1) == 1  // RXDFR
    &&& field_of(w, 14, 1) == 1  // RXFCG
    &&& field_of(w, 15, 1) == 1  // RXFCE
    &&& field_of(w, 16, 1) == 1  // RXRFSL
    &&& field_of(w, 17, 1) == 1  // RXRFTO
    &&& field_of(w, 18, 1) == 1  // LDEERR
    &&& field_of(w, 19, 1) == 0
    &&& field_of(w, 20, 1) == 1  // RXOVRR
    &&& field_of(w, 21, 1) == 1  // RXPTO
    &&& field_of(w, 22, 4) == 0
    &&& field_of(w, 26, 1) == 1  // RXSFDTO
    &&& field_of(w, 27, 5) == 0
    &&& field_of(w, 32, 1) == 1  // RXRSCS
    &&& field_of(w, 33, 1) == 1  // RXPREJ
    &&& field_of(w, 34, 6) == 0
}

/// The writes that forcing the radio into IDLE mode makes, from `old` to `new`
pub open spec fn force_idle_writes(old: Seq<RegWrite>, new: Seq<RegWrite>, double_buffered: bool) -> bool {
    let n = old.len() as int;
    if double_buffered {
        &&& extends(old, new, 4)
        // Mask the double buffered status bits
        &&& is_write::<SYS_MASK>(new[n])
        &&& field_of(new[n], 15, 1) == 0
        &&& field_of(new[n], 14, 1) == 0
        &&& field_of(new[n], 13, 1) == 0
        &&& field_of(new[n], 10, 1) == 0
        // Turn the transceiver off: TRXOFF alone
        &&& is_write::<SYS_CTRL>(new[n + 1])
        &&& forall|k: int| 0 <= k < 32 ==> #[trigger] field_of(new[n + 1], k, 1) == flag(k == 6)
        // Clear the reception status
        &&& clears_rx_status(new[n + 2])
        // Restore the mask
        &&& is_write::<SYS_MASK>(new[n + 3])
        &&& forall|k: int|
            0 <= k < 32 && k != 10 && k != 13 && k != 14 && k != 15 ==> #[trigger] field_of(new[n + 3], k, 1)
                == field_of(new[n], k, 1)
    } else {
        &&& extends(old, new, 1)
        &&& is_write::<SYS_CTRL>(new[n])
        &&& forall|k: int| 0 <= k < 32 ==> #[trigger] field_of(new[n], k, 1) == flag(k == 6)
    }
}

/// The reads that forcing the radio into IDLE mode makes, from index `from`
/// of `reads` on: SYS_MASK first where the mask is saved, and then only
/// SYS_CTRL, polled while TRXOFF reads as set.
pub open spec fn force_idle_polls(reads: Seq<RegRead>, from: int, double_buffered: bool) -> bool {
    let m: int = if double_buffered {
        1
    } else {
        0
    };
    &&& reads.len() >= from
    &&& (double_buffered && reads.len() > from ==> is_read::<SYS_MASK>(reads[from]))
    &&& forall|i: int| from + m <= i < reads.len() ==> is_read::<SYS_CTRL>(#[trigger] reads[i])
    &&& forall|i: int| from + m <= i < reads.len() - 1 ==> field_value(#[trigger] reads[i].data, 6, 1) != 0
}

/// What forcing the radio into IDLE mode read, from index `from` of `reads`
/// on, and what its writes from index `n` of `writes` on did with it: TRXOFF
/// was read back as 0; where the mask was saved, its first write clears the
/// double buffered status bits of the mask that was read and keeps the
/// others, and its last write restores that mask exactly.
pub open spec fn force_idle_reads(
    reads: Seq<RegRead>,
    from: int,
    writes: Seq<RegWrite>,
    n: int,
    double_buffered: bool,
) -> bool {
    &&& exists|j: int|
        from <= j < reads.len() && is_read::<SYS_CTRL>(#[trigger] reads[j]) && field_value(reads[j].data, 6, 1)
            == 0
    &&& double_buffered ==> exists|j: int|
        from <= j < reads.len() && is_read::<SYS_MASK>(#[trigger] reads[j]) && kept_bits(
            reads[j].data,
            writes[n],
            |b: int| b == 10 || b == 13 || b == 14 || b == 15,
        ) && writes[n + 3].data == reads[j].data
}

/// The writes that reading a word from OTP memory at `address` makes
pub open spec fn read_otp_writes(old: Seq<RegWrite>, new: Seq<RegWrite>, address: u16) -> bool {
    let n = old.len() as int;
    &&& extends(old, new, 4)
    &&& is_write::<OTP_ADDR>(new[n])
    &&& field_of(new[n], 0, 11) == address % 0x800
    &&& is_write::<OTP_CTRL>(new[n + 1])
    &&& field_of(new[n + 1], 0, 1) == 1
    &&& field_of(new[n + 1], 1, 1) == 1
    &&& is_write::<OTP_CTRL>(new[n + 2])
    &&& field_of(new[n + 2], 0, 1) == 1
    &&& is_write::<OTP_CTRL>(new[n + 3])
}

/// `new` starts with the calls of `old`.
pub open spec fn bus_kept(old: Seq<BusEvent>, new: Seq<BusEvent>) -> bool {
    &&& old.len() <= new.len()
    &&& new.take(old.len() as int) == old
}

/// `new` is `old` followed by one read of register `Reg`.
pub open spec fn read_once<Reg: Register>(old: Seq<RegRead>, new: Seq<RegRead>) -> bool {
    &&& new.len() == old.len() + 1
    &&& new.drop_last() == old
    &&& is_read::<Reg>(new.last())
}

/// `new` is `old` followed by reads of register `Reg` that found the bit at
/// index `bit` set, except perhaps the last one.
pub open spec fn polled<Reg: Register>(old: Seq<RegRead>, new: Seq<RegRead>, bit: int) -> bool {
    &&& old.len() <= new.len()
    &&& new.take(old.len() as int) == old
    &&& forall|i: int| old.len() <= i < new.len() ==> is_read::<Reg>(#[trigger] new[i])
    &&& forall|i: int| old.len() <= i < new.len() - 1 ==> field_value(#[trigger] new[i].data, bit, 1) != 0
}

/// The SYS_STATUS contents that clear the reception status bits
#[verifier::rlimit(80)]
fn rx_status_clear_word() -> (w: W<SYS_STATUS>)
    ensures
        clears_rx_status(reg_write::<SYS_STATUS>(w@)),
{
    let mut w = W::<SYS_STATUS>::zeroed();
    w.rxprd(1);  // Receiver Preamble Detected
    w.rxsfdd(1);  // Receiver SFD Detected
    w.ldedone(1);  // LDE Processing Done
    w.rxphd(1);  // Receiver PHY Header Detected
    w.rxphe(1);  // Receiver PHY Header Error
    w.rxdfr(1);  // Receiver Data Frame Ready
    w.rxfcg(1);  // Receiver FCS Good
    w.rxfce(1);  // Receiver FCS Error
    w.rxrfsl(1);  // Receiver Reed Solomon Frame Sync Loss
    w.rxrfto(1);  // Receiver Frame Wait Timeout
    w.ldeerr(1);  // Leading Edge Detection Processing Error
    w.rxovrr(1);  // Receiver Overrun
    w.rxpto(1);  // Preamble Detection Timeout
    w.rxsfdto(1);  // Receiver SFD Timeout
    w.rxrscs(1);  // Receiver Reed-Solomon Correction Status
    w.rxprej(1);  // Receiver Preamble Rejection
    w
}

impl<SPI: Spi, CS: ChipSelect, State> DW1000<SPI, CS, State> {
    /// Reads register `Reg`.
    pub(crate) fn read_reg<Reg: Readable>(&mut self) -> (r: Result<R<Reg>, Error<SPI, CS>>)
        requires
            register_fits::<Reg>(),
        ensures
            bus_kept(old(self).bus(), final(self).bus()),
            reads_kept(old(self).reads(), final(self).reads()),
            final(self).writes() == old(self).writes(),
            final(self).seq() == old(self).seq(),
            final(self).state() == old(self).state(),
            r matches Ok(v) ==> v@.len() == Reg::spec_len(),
            r matches Ok(v) ==> final(self).reads() == old(self).reads().push(reg_read::<Reg>(v@)),
            r is Err ==> final(self).reads() == old(self).reads(),
            ran_after(
                old(self).bus(),
                final(self).bus(),
                transaction(
                    old(self).low().cs_delay(),
                    BusOp::Transfer(
                        header_bytes(false, Reg::spec_id(), Reg::spec_sub_id()) + zeros(Reg::spec_len() as nat),
                    ),
                ),
            ),
            final(self).low().cs_delay() == old(self).low().cs_delay(),
            r is Ok <==> all_ok(calls_after(old(self).bus(), final(self).bus())),
            r matches Err(e) ==> e is Spi,
    {
        match self.ll.read::<Reg>() {
            Ok(v) => Ok(v),
            Err(e) => Err(Error::Spi(e)),
        }
    }

    /// Writes `w` to register `Reg`.
    pub(crate) fn write_reg<Reg: Writable>(&mut self, w: &W<Reg>) -> (r: Result<(), Error<SPI, CS>>)
        requires
            register_fits::<Reg>(),
        ensures
            bus_kept(old(self).bus(), final(self).bus()),
            r is Ok <==> all_ok(calls_after(old(self).bus(), final(self).bus())),
            reads_kept(old(self).reads(), final(self).reads()),
            final(self).seq() == old(self).seq(),
            final(self).state() == old(self).state(),
            r is Ok ==> final(self).writes() == old(self).writes().push(reg_write::<Reg>(w@)),
            r is Err ==> final(self).writes() == old(self).writes(),
            r matches Err(e) ==> e is Spi,
            w@.len() == Reg::spec_len(),
            final(self).reads() == old(self).reads(),
    {
        match self.ll.write(w) {
            Ok(()) => Ok(()),
            Err(e) => Err(Error::Spi(e)),
        }
    }
}

impl<SPI: Spi, CS: ChipSelect, State: Awake> DW1000<SPI, CS, State> {
    /// Returns the TX antenna delay
    pub fn get_tx_antenna_delay(&mut self) -> (r: Result<Duration, Error<SPI, CS>>)
        ensures
            reads_kept(old(self).reads(), final(self).reads()),
            final(self).writes() == old(self).writes(),
            final(self).seq() == old(self).seq(),
            final(self).state() == old(self).state(),
            r matches Ok(d) ==> d@ < 0x1_0000,
            r matches Err(e) ==> e is Spi,
            r is Ok <==> all_ok(calls_after(old(self).bus(), final(self).bus())),
            bus_kept(old(self).bus(), final(self).bus()),
            r is Ok ==> read_once::<TX_ANTD>(old(self).reads(), final(self).reads()),
            r is Err ==> final(self).reads() == old(self).reads(),
            r matches Ok(d) ==> d@ == field_value(final(self).reads().last().data, 0, 16),
    {
        let v = self.read_reg::<TX_ANTD>()?;
        proof {
            assert(self.reads().drop_last() =~= old(self).reads());
        }
        let tx_antenna_delay = v.value();
        match Duration::new(tx_antenna_delay as u64) {
            Some(d) => Ok(d),
            None => Err(Error::InvalidConfiguration),
        }
    }

    /// Returns the RX antenna delay
    pub fn get_rx_antenna_delay(&mut self) -> (r: Result<Duration, Error<SPI, CS>>)
        ensures
            reads_kept(old(self).reads(), final(self).reads()),
            final(self).writes() == old(self).writes(),
            final(self).seq() == old(self).seq(),
            final(self).state() == old(self).state(),
            r matches Ok(d) ==> d@ < 0x1_0000,
            r matches Err(e) ==> e is Spi,
            r is Ok <==> all_ok(calls_after(old(self).bus(), final(self).bus())),
            bus_kept(old(self).bus(), final(self).bus()),
            r is Ok ==> read_once::<LDE_RXANTD>(old(self).reads(), final(self).reads()),
            r is Err ==> final(self).reads() == old(self).reads(),
            r matches Ok(d) ==> d@ == field_value(final(self).reads().last().data, 0, 16),
    {
        let v = self.read_reg::<LDE_RXANTD>()?;
        proof {
            assert(self.reads().drop_last() =~= old(self).reads());
        }
        let rx_antenna_delay = v.value();
        match Duration::new(rx_antenna_delay as u64) {
            Some(d) => Ok(d),
            None => Err(Error::InvalidConfiguration),
        }
    }

    /// Returns the network id and address used for sending and receiving
    pub fn get_address(&mut self) -> (r: Result<Address, Error<SPI, CS>>)
        ensures
            reads_kept(old(self).reads(), final(self).reads()),
            final(self).writes() == old(self).writes(),
            final(self).seq() == old(self).seq(),
            final(self).state() == old(self).state(),
            r matches Ok(a) ==> a is Short,
            r matches Err(e) ==> e is Spi,
            r is Ok <==> all_ok(calls_after(old(self).bus(), final(self).bus())),
            bus_kept(old(self).bus(), final(self).bus()),
            r is Ok ==> read_once::<PANADR>(old(self).reads(), final(self).reads()),
            r is Err ==> final(self).reads() == old(self).reads(),
            r matches Ok(a) ==> a == Address::Short(
                field_value(final(self).reads().last().data, 16, 16) as u16,
                field_value(final(self).reads().last().data, 0, 16) as u16,
            ),
    {
        let panadr = self.read_reg::<PANADR>()?;
        proof {
            assert(self.reads().drop_last() =~= old(self).reads());
        }
        Ok(Address::Short(panadr.pan_id(), panadr.short_addr()))
    }

    /// Returns the current system time
    pub fn sys_time(&mut self) -> (r: Result<Instant, Error<SPI, CS>>)
        ensures
            reads_kept(old(self).reads(), final(self).reads()),
            final(self).writes() == old(self).writes(),
            final(self).seq() == old(self).seq(),
            final(self).state() == old(self).state(),
            r matches Err(e) ==> e is Spi,
            r is Ok <==> all_ok(calls_after(old(self).bus(), final(self).bus())),
            bus_kept(old(self).bus(), final(self).bus()),
            r is Ok ==> read_once::<SYS_TIME>(old(self).reads(), final(self).reads()),
            r is Err ==> final(self).reads() == old(self).reads(),
            r matches Ok(t) ==> t@ == field_value(final(self).reads().last().data, 0, 40),
    {
        let r = self.read_reg::<SYS_TIME>()?;
        let sys_time = r.value();
        proof {
            assert(self.reads().drop_last() =~= old(self).reads());
            crate::ll::bits::lemma_field_value_bound(r@, 0, 40);
            assert(vstd::arithmetic::power2::pow2(40) == 0x100_0000_0000) by {
                vstd::arithmetic::power2::lemma2_to64_rest();
            }
        }
        // The register holds a 40-bit value, so this is always `Some`.
        match Instant::new(sys_time) {
            Some(i) => Ok(i),
            None => Err(Error::InvalidConfiguration),
        }
    }

    /// Provides direct access to the register-level API
    ///
    /// Be aware that by using the register-level API, you can invalidate
    /// various assumptions that the high-level API makes about the operation
    /// of the DW1000. Don't use the register-level and high-level APIs in
    /// tandem, unless you know what you're doing.
    pub fn ll(&mut self) -> (r: &mut ll::DW1000<SPI, CS>)
        ensures
            *r == old(self).low(),
            final(self).low() == *final(r),
            final(self).seq() == old(self).seq(),
            final(self).state() == old(self).state(),
    {
        &mut self.ll
    }

    /// Reads register `Reg` until the bit at index `bit` is clear.
    ///
    /// Gives up with `Error::PollTimeout` after `u32::MAX` polls.
    pub(crate) fn wait_until_clear<Reg: Readable>(&mut self, bit: usize) -> (r: Result<(), Error<SPI, CS>>)
        requires
            register_fits::<Reg>(),
            Reg::spec_len() <= 0x1000,
            bit < 8 * Reg::spec_len(),
        ensures
            reads_kept(old(self).reads(), final(self).reads()),
            final(self).writes() == old(self).writes(),
            final(self).seq() == old(self).seq(),
            final(self).state() == old(self).state(),
            polled::<Reg>(old(self).reads(), final(self).reads(), bit as int),
            r is Ok <==> final(self).reads().len() > old(self).reads().len() && field_value(
                final(self).reads().last().data,
                bit as int,
                1,
            ) == 0,
            r matches Err(Error::PollTimeout) ==> final(self).reads().len() == old(self).reads().len()
                + u32::MAX + 1,
            r matches Err(e) ==> e is Spi || e is PollTimeout,
            r matches Err(Error::Spi(_)) <==> !all_ok(calls_after(old(self).bus(), final(self).bus())),
            final(self).bus().len() >= old(self).bus().len(),
            final(self).bus().take(old(self).bus().len() as int) == old(self).bus(),
    {
        let mut polls: u32 = 0;
        let ghost start = self.reads();
        let ghost b0 = self.bus();
        proof {
            assert(b0.take(b0.len() as int) =~= b0);
            assert(calls_after(b0, b0).len() == 0);
        }
        loop
            invariant
                register_fits::<Reg>(),
                Reg::spec_len() <= 0x1000,
                bit < 8 * Reg::spec_len(),
                self.writes() == old(self).writes(),
                self.seq() == old(self).seq(),
                self.state() == old(self).state(),
                start == old(self).reads(),
                b0 == old(self).bus(),
                self.bus().len() >= b0.len(),
                self.bus().take(b0.len() as int) == b0,
                all_ok(calls_after(b0, self.bus())),
                self.reads().len() == start.len() + polls,
                self.reads().take(start.len() as int) == start,
                forall|i: int|
                    start.len() <= i < self.reads().len() ==> is_read::<Reg>(#[trigger] self.reads()[i])
                        && field_value(self.reads()[i].data, bit as int, 1) != 0,
            decreases u32::MAX - polls,
        {
            let ghost before = self.reads();
            let ghost bb = self.bus();
            let res = self.read_reg::<Reg>();
            proof {
                crate::ll::lemma_all_ok_split(b0, bb, self.bus());
            }
            let r: R<Reg> = match res {
                Ok(r) => r,
                Err(e) => {
                    proof {
                        assert(polled::<Reg>(start, self.reads(), bit as int));
                    }
                    return Err(e);
                },
            };
            proof {
                assert(self.reads().take(start.len() as int) =~= start) by {
                    assert(self.reads().take(start.len() as int) =~= before.take(start.len() as int));
                }
                assert(self.reads()[before.len() as int] == reg_read::<Reg>(r@));
                assert forall|i: int| start.len() <= i < before.len() implies #[trigger] self.reads()[i] == before[i] by {}
            }
            if r.field(bit, 1) == 0 {
                proof {
                    assert(polled::<Reg>(start, self.reads(), bit as int));
                }
                return Ok(());
            }
            if polls == u32::MAX {
                proof {
                    assert(polled::<Reg>(start, self.reads(), bit as int));
                    assert(self.reads().last() == self.reads()[self.reads().len() - 1]);
                }
                return Err(Error::PollTimeout);
            }
            polls = polls + 1;
        }
    }

    /// Writes the reception status bits of SYS_STATUS, clearing them.
    pub(crate) fn clear_rx_status(&mut self) -> (r: Result<(), Error<SPI, CS>>)
        ensures
            bus_kept(old(self).bus(), final(self).bus()),
            r is Ok <==> all_ok(calls_after(old(self).bus(), final(self).bus())),
            reads_kept(old(self).reads(), final(self).reads()),
            final(self).seq() == old(self).seq(),
            final(self).state() == old(self).state(),
            r is Ok ==> extends(old(self).writes(), final(self).writes(), 1) && clears_rx_status(
                final(self).writes().last(),
            ),
            r is Err ==> final(self).writes() == old(self).writes(),
            r matches Err(e) ==> e is Spi,
            final(self).reads() == old(self).reads(),
    {
        let w = rx_status_clear_word();
        self.write_reg(&w)
    }

    /// Force the DW1000 into IDLE mode
    ///
    /// Any ongoing RX/TX operations will be aborted.
    pub fn force_idle(&mut self, double_buffered: bool) -> (r: Result<(), Error<SPI, CS>>)
        ensures
            (r matches Err(Error::Spi(_))) <==> !all_ok(calls_after(old(self).bus(), final(self).bus())),
            bus_kept(old(self).bus(), final(self).bus()),
            reads_kept(old(self).reads(), final(self).reads()),
            final(self).seq() == old(self).seq(),
            final(self).state() == old(self).state(),
            r is Ok ==> force_idle_writes(old(self).writes(), final(self).writes(), double_buffered),
            r is Ok ==> force_idle_reads(
                final(self).reads(),
                old(self).reads().len() as int,
                final(self).writes(),
                old(self).writes().len() as int,
                double_buffered,
            ),
            r matches Err(e) ==> e is Spi || e is PollTimeout,
            keeps(old(self).writes(), final(self).writes()),
            force_idle_polls(final(self).reads(), old(self).reads().len() as int, double_buffered),
            // It succeeds exactly where the bus works and a poll found TRXOFF clear
            r is Ok <==> ({
                let m: int = if double_buffered {
                    1
                } else {
                    0
                };
                &&& all_ok(calls_after(old(self).bus(), final(self).bus()))
                &&& final(self).reads().len() > old(self).reads().len() + m
                &&& field_value(final(self).reads().last().data, 6, 1) == 0
            }),
            // It times out only after the TRXOFF write and every poll found
            // TRXOFF still set
            r matches Err(Error::PollTimeout) ==> ({
                let m: int = if double_buffered {
                    1
                } else {
                    0
                };
                let n = old(self).writes().len() + m;
                &&& all_ok(calls_after(old(self).bus(), final(self).bus()))
                &&& final(self).reads().len() == old(self).reads().len() + m + u32::MAX + 1
                &&& field_value(final(self).reads().last().data, 6, 1) != 0
                &&& final(self).writes().len() == n + 1
                &&& is_write::<SYS_CTRL>(final(self).writes()[n])
                &&& forall|k: int| 0 <= k < 32 ==> #[trigger] field_of(final(self).writes()[n], k, 1) == flag(k == 6)
            }),
    {
        let ghost b0 = self.bus();
        let ghost reads0 = self.reads();
        proof {
            assert(b0.take(b0.len() as int) =~= b0);
        }
        let mut saved_sys_mask: Option<R<SYS_MASK>> = None;
        let ghost mut masked: Seq<u8> = Seq::empty();
        let ghost j_mask = self.reads().len() as int;
        let ghost mut mask_read: Seq<u8> = Seq::empty();
        if double_buffered {
            // Mask the double buffered status bits
            let res = self.read_reg::<SYS_MASK>();
            proof {
                lemma_all_ok_split(b0, b0, self.bus());
            }
            let r = res?;
            let mut w = W::from_read(&r);
            w.mrxfce(0);
            w.mrxfcg(0);
            w.mrxdfr(0);
            w.mldedone(0);
            proof {
                masked = w@;
                mask_read = r@;
                assert(self.reads()[j_mask] == reg_read::<SYS_MASK>(r@));
                assert forall|k: int|
                    0 <= k < 32 && k != 10 && k != 13 && k != 14 && k != 15 implies #[trigger] field_value(
                        masked,
                        k,
                        1,
                    ) == field_value(r@, k, 1) by {}
            }
            let ghost b1 = self.bus();
            let res = self.write_reg(&w);
            proof {
                lemma_all_ok_split(b0, b1, self.bus());
            }
            res?;
            saved_sys_mask = Some(r);
        }
        let ghost after_mask = self.writes();
        let mut w = W::<SYS_CTRL>::zeroed();
        w.trxoff(1);
        let ghost b2 = self.bus();
        let res = self.write_reg(&w);
        proof {
            lemma_all_ok_split(b0, b2, self.bus());
        }
        res?;
        let ghost b3 = self.bus();
        let ghost reads_a = self.reads();
        let ghost writes_a = self.writes();
        proof {
            if double_buffered {
                assert(reads_a[reads0.len() as int] == reads_a[j_mask]);
            }
        }
        let res = self.wait_until_clear::<SYS_CTRL>(6);
        proof {
            lemma_all_ok_split(b0, b3, self.bus());
            let rs = self.reads();
            let k = reads0.len() as int;
            assert forall|i: int| k <= i < reads_a.len() implies #[trigger] rs[i] == reads_a[i] by {}
            assert(writes_a.len() == old(self).writes().len() + 1 + if double_buffered { 1int } else { 0 });
        }
        res?;
        let ghost after_off = self.writes();
        let ghost j_off = self.reads().len() - 1;
        let ghost off_read = self.reads()[j_off];
        proof {
            let n = old(self).writes().len() as int;
            assert(self.writes().subrange(0, n) =~= old(self).writes());
            if double_buffered {
                assert(after_off[n] == after_mask[n]);
                assert(after_off.len() == n + 2);
            } else {
                assert(after_off.len() == n + 1);
            }
            assert(is_write::<SYS_CTRL>(after_off.last()));
            assert(field_of(after_off.last(), 6, 1) == 1);
        }
        if let Some(saved) = saved_sys_mask {
            // Clear the bits
            let ghost b4 = self.bus();
            let res = self.clear_rx_status();
            proof {
                lemma_all_ok_split(b0, b4, self.bus());
            }
            res?;
            // Restore the mask
            let w = W::from_read(&saved);
            let ghost b5 = self.bus();
            let res = self.write_reg(&w);
            proof {
                lemma_all_ok_split(b0, b5, self.bus());
            }
            res?;
        }
        proof {
            let n = old(self).writes().len() as int;
            assert(self.writes().subrange(0, n) =~= old(self).writes());
            if double_buffered {
                assert(self.writes().subrange(0, after_off.len() as int) == after_off);
                assert(self.writes()[n] == after_off[n]);
                assert(self.writes()[n + 1] == after_off[n + 1]);
            }
            assert(self.reads()[j_off] == off_read);
            assert(is_read::<SYS_CTRL>(self.reads()[j_off]));
            if double_buffered {
                assert(is_read::<SYS_MASK>(self.reads()[j_mask]));
                assert(self.reads()[j_mask].data == mask_read);
                assert(self.writes()[n].data == masked);
                assert(self.writes()[n + 3].data == mask_read);
                assert(kept_bits(mask_read, self.writes()[n], |b: int| b == 10 || b == 13 || b == 14 || b == 15));
            }
        }
        Ok(())
    }

    /// Reads the 32-bit word at `address` from the DW1000's OTP memory.
    pub(crate) fn read_otp(&mut self, address: u16) -> (r: Result<u32, Error<SPI, CS>>)
        ensures
            reads_kept(old(self).reads(), final(self).reads()),
            final(self).seq() == old(self).seq(),
            final(self).state() == old(self).state(),
            r is Ok ==> read_otp_writes(old(self).writes(), final(self).writes(), address),
            r matches Ok(v) ==> read_once::<OTP_RDAT>(old(self).reads(), final(self).reads()) && v
                == field_value(final(self).reads().last().data, 0, 32),
            r matches Err(e) ==> e is Spi,
            keeps(old(self).writes(), final(self).writes()),
    {
        // Set address
        let mut w = W::<OTP_ADDR>::zeroed();
        w.value(address);
        self.write_reg(&w)?;
        // Switch into read mode
        let mut w = W::<OTP_CTRL>::zeroed();
        w.otprden(1);
        w.otpread(1);
        self.write_reg(&w)?;
        let mut w = W::<OTP_CTRL>::zeroed();
        w.otprden(1);
        self.write_reg(&w)?;
        // Read back value
        let value = self.read_reg::<OTP_RDAT>()?.value();
        proof {
            assert(self.reads().drop_last() =~= old(self).reads());
        }
        // End read mode
        let w = W::<OTP_CTRL>::zeroed();
        self.write_reg(&w)?;
        proof {
            let n = old(self).writes().len() as int;
            assert(self.writes().subrange(0, n) =~= old(self).writes());
        }
        Ok(value)
    }
    /// Whether the LDO tune value was calibrated at the factory: the OTP
    /// word at address 0x004, the low word of the LDOTUNE calibration, is not
    /// zero.
    pub(crate) fn is_ldo_tune_calibrated(&mut self) -> (r: Result<bool, Error<SPI, CS>>)
        ensures
            reads_kept(old(self).reads(), final(self).reads()),
            final(self).seq() == old(self).seq(),
            final(self).state() == old(self).state(),
            r is Ok ==> read_otp_writes(old(self).writes(), final(self).writes(), 0x004),
            r matches Ok(b) ==> read_once::<OTP_RDAT>(old(self).reads(), final(self).reads()) && b == (
            field_value(final(self).reads().last().data, 0, 32) != 0),
            r matches Err(e) ==> e is Spi,
            keeps(old(self).writes(), final(self).writes()),
    {
        let ldotune_low = self.read_otp(0x004)?;
        Ok(ldotune_low != 0)
    }
}

} // verus!
