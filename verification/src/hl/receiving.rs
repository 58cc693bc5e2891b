//! Operations that are available while the receiver is on

use vstd::prelude::*;
use crate::hl::awake::{clears_rx_status, force_idle_reads, force_idle_writes};
use crate::hl::{
    extends, field_of, is_read, keeps, reads_kept, rx_interrupts_enabled, DW1000, Error, Message, Ready,
    SingleBufferReceiving, WaitError,
};
use crate::ll::{RegRead, RegWrite};
use crate::ll::bits::field_value;
use crate::ll::{all_ok, calls_after, lemma_all_ok_split};
use crate::ll::{ChipSelect, Spi};
use crate::ll::registers::{EC_GOLP, EC_RXTC, RX_BUFFER, RX_FINFO, RX_TIME, SYS_STATUS};
use crate::mac::{decode_frame, decoded_frame};
use crate::time::Instant;

verus! {

/// Bit `k` of the register value `status`
pub open spec fn status_bit(status: u64, k: u64) -> bool {
    (status >> k) & 1 == 1
}

/// What the value of SYS_STATUS says of a reception: `Ok` where a frame is
/// ready and its time stamp is available, `WouldBlock` where the reception
/// goes on, or the error that it ended with.
///
/// Some error flags that sound like valid errors aren't checked here, because
/// experience has shown that they seem to occur spuriously without preventing
/// a good frame from being received. Those are LDEERR (Leading Edge Detection
/// Processing Error) and RXPREJ (Receiver Preamble Rejection).
pub open spec fn spec_rx_status_check<SPI: Spi, CS: ChipSelect>(status: u64) -> Result<
    (),
    WaitError<Error<SPI, CS>>,
> {
    if !status_bit(status, 13) {
        // RXDFR: no frame is ready
        if status_bit(status, 15) {
            Err(WaitError::Other(Error::Fcs))  // RXFCE
        } else if status_bit(status, 12) {
            Err(WaitError::Other(Error::Phy))  // RXPHE
        } else if status_bit(status, 16) {
            Err(WaitError::Other(Error::ReedSolomon))  // RXRFSL
        } else if status_bit(status, 17) {
            Err(WaitError::Other(Error::FrameWaitTimeout))  // RXRFTO
        } else if status_bit(status, 20) {
            Err(WaitError::Other(Error::Overrun))  // RXOVRR
        } else if status_bit(status, 21) {
            Err(WaitError::Other(Error::PreambleDetectionTimeout))  // RXPTO
        } else if status_bit(status, 26) {
            Err(WaitError::Other(Error::SfdTimeout))  // RXSFDTO
        } else if status_bit(status, 29) {
            Err(WaitError::Other(Error::FrameFilteringRejection))  // AFFREJ
        } else {
            Err(WaitError::WouldBlock)
        }
    } else if !status_bit(status, 10) {
        // LDEDONE: the time stamp is not available before LDE processing is
        // done
        Err(WaitError::WouldBlock)
    } else {
        Ok(())
    }
}

/// The bits of SYS_STATUS that waiting for a reception reads: LDEDONE,
/// RXPHE, RXDFR, RXFCE, RXRFSL, RXRFTO, RXOVRR, RXPTO, RXSFDTO and AFFREJ
pub open spec fn rx_checked_bit(k: u64) -> bool {
    k == 10 || k == 12 || k == 13 || k == 15 || k == 16 || k == 17 || k == 20 || k == 21 || k == 26 || k == 29
}

/// What waiting for a reception makes of SYS_STATUS only depends on the bits
/// it checks, and enabling the reception interrupts unmasks each of these
/// bits (the bits of SYS_MASK sit where those of SYS_STATUS do), so the
/// interrupt fires on every event that can end the wait.
pub proof fn lemma_rx_wait_reads_enabled_bits<SPI: Spi, CS: ChipSelect>(s1: u64, s2: u64, mask: RegWrite, k: u64)
    requires
        forall|j: u64| rx_checked_bit(j) ==> (status_bit(s1, j) == status_bit(s2, j)),
    ensures
        spec_rx_status_check::<SPI, CS>(s1) == spec_rx_status_check::<SPI, CS>(s2),
        rx_interrupts_enabled(mask) && rx_checked_bit(k) ==> field_of(mask, k as int, 1) == 1,
{
    assert(rx_checked_bit(10) && rx_checked_bit(12) && rx_checked_bit(13) && rx_checked_bit(15));
    assert(rx_checked_bit(16) && rx_checked_bit(17) && rx_checked_bit(20) && rx_checked_bit(21));
    assert(rx_checked_bit(26) && rx_checked_bit(29));
}

/// Checks the value of SYS_STATUS for the progress of a reception
///
/// Returns `Ok` where a frame is ready and its time stamp is available,
/// `WouldBlock` where the reception goes on, or the error that it ended with.
pub fn rx_status_check<SPI: Spi, CS: ChipSelect>(status: u64) -> (r: Result<(), WaitError<Error<SPI, CS>>>)
    ensures
        r == spec_rx_status_check::<SPI, CS>(status),
{
    // Is a frame ready?
    if (status >> 13u64) & 1 != 1 {
        // No frame ready. Check for errors.
        if (status >> 15u64) & 1 == 1 {
            return Err(WaitError::Other(Error::Fcs));
        }
        if (status >> 12u64) & 1 == 1 {
            return Err(WaitError::Other(Error::Phy));
        }
        if (status >> 16u64) & 1 == 1 {
            return Err(WaitError::Other(Error::ReedSolomon));
        }
        if (status >> 17u64) & 1 == 1 {
            return Err(WaitError::Other(Error::FrameWaitTimeout));
        }
        if (status >> 20u64) & 1 == 1 {
            return Err(WaitError::Other(Error::Overrun));
        }
        if (status >> 21u64) & 1 == 1 {
            return Err(WaitError::Other(Error::PreambleDetectionTimeout));
        }
        if (status >> 26u64) & 1 == 1 {
            return Err(WaitError::Other(Error::SfdTimeout));
        }
        if (status >> 29u64) & 1 == 1 {
            return Err(WaitError::Other(Error::FrameFilteringRejection));
        }
        // No errors detected. That must mean the frame is just not ready yet.
        return Err(WaitError::WouldBlock);
    }
    // Frame is ready. Wait until LDE processing is done. Before this is
    // finished, the RX time stamp is not available.
    if (status >> 10u64) & 1 != 1 {
        return Err(WaitError::WouldBlock);
    }
    Ok(())
}

/// `e` is what a status read that ends or delays a reception gives.
pub open spec fn rx_status_error<SPI: Spi, CS: ChipSelect>(e: WaitError<Error<SPI, CS>>) -> bool {
    match e {
        WaitError::WouldBlock => true,
        WaitError::Other(e) => {
            ||| e is Fcs
            ||| e is Phy
            ||| e is ReedSolomon
            ||| e is FrameWaitTimeout
            ||| e is Overrun
            ||| e is PreambleDetectionTimeout
            ||| e is SfdTimeout
            ||| e is FrameFilteringRejection
        },
    }
}

/// The reads that waiting for a reception makes, from index `k` of `reads`
/// on: SYS_STATUS, then, where that status shows a frame ready, RX_TIME,
/// RX_FINFO and RX_BUFFER.
pub open spec fn rx_wait_reads<SPI: Spi, CS: ChipSelect>(reads: Seq<RegRead>, k: int) -> bool {
    &&& reads.len() <= k + 4
    &&& reads.len() > k ==> is_read::<SYS_STATUS>(reads[k])
    &&& reads.len() > k + 1 ==> is_read::<RX_TIME>(reads[k + 1]) && spec_rx_status_check::<SPI, CS>(
        field_value(reads[k].data, 0, 40) as u64,
    ) is Ok
    &&& reads.len() > k + 2 ==> is_read::<RX_FINFO>(reads[k + 2])
    &&& reads.len() > k + 3 ==> is_read::<RX_BUFFER>(reads[k + 3])
}

impl<SPI: Spi, CS: ChipSelect> DW1000<SPI, CS, SingleBufferReceiving> {
    /// Wait for receive operation to finish
    ///
    /// This method returns `WaitError::WouldBlock` to indicate that the
    /// reception is still ongoing. You can use this to busily wait for it to
    /// finish, or you can use it in tandem with
    /// [`DW1000::enable_rx_interrupts`] and the DW1000 IRQ output to wait in a
    /// more energy-efficient manner.
    ///
    /// Once a frame has been received, the reception status bits are cleared,
    /// the reception is marked as finished, and the frame is copied into the
    /// start of `buffer` and decoded from there.
    pub fn wait(&mut self, buffer: &mut [u8]) -> (r: Result<Message, WaitError<Error<SPI, CS>>>)
        ensures
            final(self).seq() == old(self).seq(),
            final(buffer)@.len() == old(buffer)@.len(),
            ({
                ||| final(self).writes() == old(self).writes() && final(self).state() == old(self).state()
                ||| {
                    &&& extends(old(self).writes(), final(self).writes(), 1)
                    &&& clears_rx_status(final(self).writes().last())
                    &&& final(self).state() == (SingleBufferReceiving {
                        finished: true,
                        config: old(self).state().config,
                    })
                }
            }),
            r is Ok ==> final(self).writes() != old(self).writes(),
            r matches Err(WaitError::WouldBlock) ==> final(self).writes() == old(self).writes(),
            r matches Err(WaitError::Other(e)) ==> {
                ||| e is Spi
                ||| e is BufferTooSmall
                ||| e is Frame
                ||| final(self).writes() == old(self).writes() && exists|status: u64|
                    spec_rx_status_check::<SPI, CS>(status) == Err::<(), _>(WaitError::Other(e))
            },
            r matches Err(WaitError::Other(Error::BufferTooSmall { required_len })) ==> old(buffer)@.len()
                < required_len <= 127,
            r matches Ok(m) ==> exists|len: int|
                0 <= len <= old(buffer)@.len() && len <= 127 && #[trigger] decoded_frame(
                    final(buffer)@.take(len),
                ) == Some((m.frame.header, m.frame.payload@)),
            r matches Err(WaitError::Other(Error::Frame(_))) ==> exists|len: int|
                0 <= len <= old(buffer)@.len() && len <= 127 && #[trigger] decoded_frame(
                    final(buffer)@.take(len),
                ) is None,
            final(self).reads().len() >= old(self).reads().len(),
            final(self).reads().take(old(self).reads().len() as int) == old(self).reads(),
            reads_kept(old(self).reads(), final(self).reads()),
            rx_wait_reads::<SPI, CS>(final(self).reads(), old(self).reads().len() as int),
            // What the status read decides is what comes back
            final(self).reads().len() > old(self).reads().len() ==> (spec_rx_status_check::<SPI, CS>(
                field_value(final(self).reads()[old(self).reads().len() as int].data, 0, 40) as u64,
            ) matches Err(e) ==> r == Err::<Message, _>(e)),
            r matches Err(e) ==> rx_status_error(e) ==> {
                let k = old(self).reads().len() as int;
                &&& final(self).reads().len() == k + 1
                &&& spec_rx_status_check::<SPI, CS>(field_value(final(self).reads()[k].data, 0, 40) as u64)
                    == Err::<(), _>(e)
            },
            r matches Err(WaitError::Other(Error::BufferTooSmall { required_len })) ==> {
                let k = old(self).reads().len() as int;
                &&& final(self).reads().len() == k + 4
                &&& required_len == field_value(final(self).reads()[k + 2].data, 0, 7)
            },
            ({
                let k = old(self).reads().len() as int;
                final(self).reads().len() == k + 4 && field_value(final(self).reads()[k + 2].data, 0, 7)
                    > old(buffer)@.len()
            }) ==> r matches Err(WaitError::Other(Error::BufferTooSmall { .. })),
            // The bus decides whether an SPI error comes back; where it works,
            // the status is read
            (r matches Err(WaitError::Other(Error::Spi(_)))) <==> !all_ok(
                calls_after(old(self).bus(), final(self).bus()),
            ),
            all_ok(calls_after(old(self).bus(), final(self).bus())) ==> final(self).reads().len()
                > old(self).reads().len(),
            r matches Err(WaitError::Other(Error::Frame(_))) ==> {
                let k = old(self).reads().len() as int;
                let reads = final(self).reads();
                let len = field_value(reads[k + 2].data, 0, 7) as int;
                &&& reads.len() == k + 4
                &&& len <= old(buffer)@.len()
                &&& final(buffer)@.take(len) == reads[k + 3].data.take(len)
                &&& decoded_frame(reads[k + 3].data.take(len)) is None
            },
            r matches Err(WaitError::WouldBlock) ==> {
                let k = old(self).reads().len() as int;
                let reads = final(self).reads();
                &&& reads.len() == k + 1
                &&& is_read::<SYS_STATUS>(reads[k])
                &&& spec_rx_status_check::<SPI, CS>(field_value(reads[k].data, 0, 40) as u64) == Err::<
                    (),
                    WaitError<Error<SPI, CS>>,
                >(WaitError::WouldBlock)
            },
            r matches Ok(m) ==> {
                let k = old(self).reads().len() as int;
                let reads = final(self).reads();
                let len = field_value(reads[k + 2].data, 0, 7) as int;
                &&& reads.len() == k + 4
                &&& is_read::<SYS_STATUS>(reads[k])
                &&& spec_rx_status_check::<SPI, CS>(field_value(reads[k].data, 0, 40) as u64) is Ok
                &&& is_read::<RX_TIME>(reads[k + 1])
                &&& m.rx_time@ == field_value(reads[k + 1].data, 0, 40)
                &&& is_read::<RX_FINFO>(reads[k + 2])
                &&& is_read::<RX_BUFFER>(reads[k + 3])
                &&& len <= old(buffer)@.len()
                &&& final(buffer)@.take(len) == reads[k + 3].data.take(len)
                &&& decoded_frame(reads[k + 3].data.take(len)) == Some((m.frame.header, m.frame.payload@))
            },
    {
        let ghost r0 = self.reads();
        let ghost b0 = self.bus();
        // ATTENTION:
        // If you're changing anything about which SYS_STATUS flags are being
        // checked in this method, also make sure to update
        // `enable_rx_interrupts`.
        let status = match self.read_reg::<SYS_STATUS>() {
            Ok(r) => r.field(0, 40),
            Err(e) => {
                proof {
                    assert(self.reads().take(r0.len() as int) =~= r0);
                }
                return Err(WaitError::Other(e));
            },
        };
        let ghost r1 = self.reads();
        let ghost b1 = self.bus();
        proof {
            assert(b1.take(b1.len() as int) =~= b1);
            lemma_all_ok_split(b0, b1, b1);
            assert(r1.take(r0.len() as int) =~= r0);
            assert(r1[r0.len() as int] == r1.last());
        }
        match rx_status_check::<SPI, CS>(status) {
            Ok(()) => {},
            Err(e) => return Err(e),
        }
        let res = self.read_reg::<RX_TIME>();
        let ghost b2 = self.bus();
        proof {
            lemma_all_ok_split(b0, b1, b2);
        }
        let rx_time = match res {
            Ok(r) => r.rx_stamp(),
            Err(e) => return Err(WaitError::Other(e)),
        };
        let ghost r2 = self.reads();
        proof {
            assert(r2.take(r0.len() as int) =~= r0) by {
                assert(r2.take(r0.len() as int) =~= r1.take(r0.len() as int));
            }
            assert(r2[r0.len() as int] == r1.last());
        }
        // `rx_time` comes from a field of 40 bits, so this is always `Some`.
        let rx_time = match Instant::new(rx_time) {
            Some(i) => i,
            None => return Err(WaitError::WouldBlock),
        };
        // Reset status bits. This is not strictly necessary, but it helps, if
        // you have to inspect SYS_STATUS manually during debugging.
        let res = self.clear_rx_status();
        let ghost b3 = self.bus();
        proof {
            lemma_all_ok_split(b0, b2, b3);
        }
        match res {
            Ok(()) => {},
            Err(e) => return Err(WaitError::Other(e)),
        }
        self.state.finished = true;
        // Read received frame
        let ghost r2b = self.reads();
        let res = self.read_reg::<RX_FINFO>();
        let ghost b4 = self.bus();
        proof {
            lemma_all_ok_split(b0, b3, b4);
        }
        let len = match res {
            Ok(r) => r.rxflen() as usize,
            Err(e) => {
                proof {
                    assert(self.reads().take(r0.len() as int) =~= r0) by {
                        assert(self.reads().take(r0.len() as int) =~= r2.take(r0.len() as int));
                    }
                }
                return Err(WaitError::Other(e));
            },
        };
        let ghost r3 = self.reads();
        let res = self.read_reg::<RX_BUFFER>();
        proof {
            lemma_all_ok_split(b0, b4, self.bus());
        }
        let rx_buffer = match res {
            Ok(r) => r,
            Err(e) => {
                proof {
                    assert(self.reads().take(r0.len() as int) =~= r0) by {
                        assert(self.reads().take(r0.len() as int) =~= r3.take(r0.len() as int));
                        assert(r3.take(r0.len() as int) =~= r2.take(r0.len() as int));
                    }
                }
                return Err(WaitError::Other(e));
            },
        };
        proof {
            let rs = self.reads();
            let k = r0.len() as int;
            assert(r2b == r2);
            assert(rs.take(k) =~= r0) by {
                assert(rs.take(k) =~= r3.take(k));
                assert(r3.take(k) =~= r2.take(k));
            }
            assert(rs[k] == r1.last());
            assert(rs[k + 1] == r2.last());
            assert(rs[k + 2] == r3.last());
            assert(rs[k + 3] == rs.last());
            assert(rx_buffer@ == rs.last().data);
        }
        if buffer.len() < len {
            return Err(WaitError::Other(Error::BufferTooSmall { required_len: len }));
        }
        let data = rx_buffer.data();
        let mut frame_bytes: Vec<u8> = Vec::new();
        let mut i: usize = 0;
        while i < len
            invariant
                len <= 127,
                len <= buffer@.len(),
                data@.len() == 127,
                i <= len,
                buffer@.len() == old(buffer)@.len(),
                frame_bytes@ == buffer@.take(i as int),
                frame_bytes@ == data@.take(i as int),
            decreases len - i,
        {
            buffer[i] = data[i];
            frame_bytes.push(data[i]);
            proof {
                assert(frame_bytes@ =~= buffer@.take(i + 1));
                assert(frame_bytes@ =~= data@.take(i + 1));
            }
            i = i + 1;
        }
        let frame = match decode_frame(frame_bytes.as_slice()) {
            Ok(f) => f,
            Err(e) => return Err(WaitError::Other(Error::Frame(e))),
        };
        Ok(Message { rx_time, frame })
    }

    /// Gets the external sync values from the registers.
    ///
    /// The tuple contains (cycles_since_sync, nanos_until_tick, raw_timestamp).
    /// See the user manual at 6.1.3 to see how to calculate the actual time value.
    /// In the manual, the return values are named (N, T1, RX_RAWST)
    /// This is left to the user so the precision of the calculations are left to the user to decide.
    pub fn read_external_sync_time(&mut self) -> (r: Result<(u32, u8, u64), Error<SPI, CS>>)
        ensures
            final(self).writes() == old(self).writes(),
            final(self).seq() == old(self).seq(),
            final(self).state() == old(self).state(),
            r matches Ok((_, nanos_until_tick, raw_timestamp)) ==> nanos_until_tick < 64
                && raw_timestamp < 0x100_0000_0000,
            r matches Ok((cycles_since_sync, nanos_until_tick, raw_timestamp)) ==> {
                let k = old(self).reads().len() as int;
                let reads = final(self).reads();
                &&& reads.len() == k + 3
                &&& reads.take(k) == old(self).reads()
                &&& is_read::<EC_RXTC>(reads[k])
                &&& cycles_since_sync == field_value(reads[k].data, 0, 32)
                &&& is_read::<EC_GOLP>(reads[k + 1])
                &&& nanos_until_tick == field_value(reads[k + 1].data, 0, 6)
                &&& is_read::<RX_TIME>(reads[k + 2])
                &&& raw_timestamp == field_value(reads[k + 2].data, 72, 40)
            },
            r is Err ==> final(self).reads().len() < old(self).reads().len() + 3
                && final(self).reads().take(old(self).reads().len() as int) == old(self).reads(),
            r is Ok <==> all_ok(calls_after(old(self).bus(), final(self).bus())),
            r matches Err(e) ==> e is Spi,
    {
        let ghost start = self.reads();
        let ghost b0 = self.bus();
        let ec_rxtc = match self.read_reg::<EC_RXTC>() {
            Ok(r) => r,
            Err(e) => {
                proof {
                    assert(self.reads().take(start.len() as int) =~= start);
                }
                return Err(e);
            },
        };
        let cycles_since_sync = ec_rxtc.rx_ts_est();
        let ghost after1 = self.reads();
        let ghost b1 = self.bus();
        let ec_golp = match self.read_reg::<EC_GOLP>() {
            Ok(r) => r,
            Err(e) => {
                proof {
                    assert(self.reads().take(start.len() as int) =~= start);
                    lemma_all_ok_split(b0, b1, self.bus());
                }
                return Err(e);
            },
        };
        let nanos_until_tick = ec_golp.offset_ext();
        let ghost after2 = self.reads();
        let ghost b2 = self.bus();
        proof {
            lemma_all_ok_split(b0, b1, b2);
        }
        let rx_time = match self.read_reg::<RX_TIME>() {
            Ok(r) => r,
            Err(e) => {
                proof {
                    assert(self.reads().take(start.len() as int) =~= start);
                    lemma_all_ok_split(b0, b2, self.bus());
                }
                return Err(e);
            },
        };
        let raw_timestamp = rx_time.rx_rawst();
        proof {
            lemma_all_ok_split(b0, b2, self.bus());
            assert(self.reads().take(start.len() as int) =~= start);
            assert(self.reads()[start.len() as int] == after1[start.len() as int]);
            assert(self.reads()[start.len() + 1 as int] == after2[start.len() + 1 as int]);
        }
        Ok((cycles_since_sync, nanos_until_tick, raw_timestamp))
    }

    /// Finishes receiving and returns to the `Ready` state
    ///
    /// If the receive operation has finished, as indicated by `wait`, this is a
    /// no-op. If the receive operation is still ongoing, it will be aborted.
    pub fn finish_receiving(self) -> (r: Result<DW1000<SPI, CS, Ready>, (Self, Error<SPI, CS>)>)
        ensures
            self.state().finished ==> r is Ok,
            r matches Ok(ready) ==> {
                &&& keeps(self.writes(), ready.writes())
                &&& if self.state().finished {
                    // No register access at all
                    &&& ready.writes() == self.writes()
                    &&& ready.reads() == self.reads()
                    &&& ready.bus() == self.bus()
                } else {
                    &&& force_idle_writes(self.writes(), ready.writes(), false)
                    &&& reads_kept(self.reads(), ready.reads())
                    &&& force_idle_reads(
                        ready.reads(),
                        self.reads().len() as int,
                        ready.writes(),
                        self.writes().len() as int,
                        false,
                    )
                }
                &&& ready.seq() == self.seq()
            },
            r matches Err((receiving, e)) ==> {
                &&& keeps(self.writes(), receiving.writes())
                &&& receiving.seq() == self.seq()
                &&& receiving.state() == self.state()
                &&& (e is Spi || e is PollTimeout)
            },
    {
        let mut this = self;
        if !this.state.finished {
            match this.force_idle(false) {
                Ok(()) => {},
                Err(error) => return Err((this, error)),
            }
        }
        Ok(DW1000 { ll: this.ll, seq: this.seq, state: Ready })
    }
}

} // verus!
