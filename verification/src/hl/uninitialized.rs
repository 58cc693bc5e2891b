//! Creating and initializing the driver

use vstd::prelude::*;
use crate::hl::{
    added, field_of, is_read, is_write, keeps, kept_bits, lemma_log_append, lemma_log_push, modifies_read,
    reads_kept, DW1000, Error, Ready, Uninitialized,
};
use crate::ll;
use crate::ll::{reg_read, reg_write, ChipSelect, RegRead, RegWrite, Spi, W};
use crate::ll::registers::{
    AGC_TUNE1, AGC_TUNE2, DRX_TUNE2, FS_PLLTUNE, LDE_CFG1, LDE_CFG2, LDOTUNE, OTP_CTRL, PMSC_CTRL0,
    OTP_ADDR, OTP_RDAT, RF_TXCTRL, TC_PGDELAY, TX_POWER,
};
use crate::ll::bits::field_value;
use crate::hl::extends;
use vstd::arithmetic::power2::pow2;

verus! {

/// The writes that initializing the DW1000 makes (user manual, section
/// 2.5.5). The writes to LDE_CFG1, RF_TXCTRL, PMSC_CTRL0 and OTP_CTRL modify
/// the register's current value: the fields named here are set, the others
/// are written back as they were read. Where the OTP memory holds an LDOTUNE
/// calibration value (its low word at address 0x004 is not zero), the last
/// writes read it and load it into LDOTUNE.
pub open spec fn init_writes(ops: Seq<RegWrite>) -> bool {
    &&& ops.len() == 14 || ops.len() == 17
    &&& is_write::<AGC_TUNE1>(ops[0])
    &&& field_of(ops[0], 0, 16) == 0x8870
    &&& is_write::<AGC_TUNE2>(ops[1])
    &&& field_of(ops[1], 0, 32) == 0x2502A907
    &&& is_write::<DRX_TUNE2>(ops[2])
    &&& field_of(ops[2], 0, 32) == 0x311A002D
    &&& is_write::<LDE_CFG1>(ops[3])
    &&& field_of(ops[3], 0, 5) == 0xD  // NTM
    &&& is_write::<LDE_CFG2>(ops[4])
    &&& field_of(ops[4], 0, 16) == 0x1607
    &&& is_write::<TX_POWER>(ops[5])
    &&& field_of(ops[5], 0, 32) == 0x0E082848
    &&& is_write::<RF_TXCTRL>(ops[6])
    &&& field_of(ops[6], 5, 4) == 0b1111  // TXMTUNE
    &&& field_of(ops[6], 9, 3) == 0b111  // TXMQ
    &&& is_write::<TC_PGDELAY>(ops[7])
    &&& field_of(ops[7], 0, 8) == 0xC0
    &&& is_write::<FS_PLLTUNE>(ops[8])
    &&& field_of(ops[8], 0, 8) == 0xBE
    // Load the LDE microcode
    &&& is_write::<PMSC_CTRL0>(ops[9])
    &&& field_of(ops[9], 0, 2) == 0b01  // SYSCLKS
    &&& is_write::<OTP_CTRL>(ops[10])
    &&& field_of(ops[10], 15, 1) == 1  // LDELOAD
    &&& is_write::<PMSC_CTRL0>(ops[11])
    &&& field_of(ops[11], 0, 2) == 0b00  // SYSCLKS
    // Read the low word of the LDOTUNE calibration value from OTP memory
    &&& otp_read_started(ops, 12, 0x004)
    &&& (ops.len() == 17 ==> {
        // Read the high word, and load the value into LDOTUNE
        &&& otp_read_started(ops, 14, 0x005)
        &&& is_write::<LDOTUNE>(ops[16])
        &&& field_of(ops[16], 0, 32) != 0
    })
}

/// What initializing the DW1000 read, from index `from` of `reads` on, and
/// what its writes `ops` did with it: LDOTUNE is written exactly where the
/// OTP word read at 0x004 is not zero, with that word as its low 32 bits and
/// the word read at 0x005 in its high 8 bits; and each write that modifies a
/// register's current value sets the fields that `init_writes` names and
/// writes back the others as they were read.
pub open spec fn init_reads(reads: Seq<RegRead>, from: int, ops: Seq<RegWrite>) -> bool {
    &&& exists|j: int|
        from <= j < reads.len() && is_read::<OTP_RDAT>(#[trigger] reads[j]) && {
            let lo = field_value(reads[j].data, 0, 32);
            &&& (ops.len() == 17) == (lo != 0)
            &&& ops.len() == 17 ==> exists|j2: int|
                j < j2 < reads.len() && is_read::<OTP_RDAT>(#[trigger] reads[j2]) && field_of(ops[16], 0, 32)
                    == lo && field_of(ops[16], 32, 8) == field_value(reads[j2].data, 0, 32) % 256
        }
    &&& modifies_read::<LDE_CFG1>(reads, from, ops[3], |b: int| b < 5)
    &&& modifies_read::<RF_TXCTRL>(reads, from, ops[6], |b: int| 5 <= b < 12)
    &&& modifies_read::<PMSC_CTRL0>(reads, from, ops[9], |b: int| b < 2)
    &&& modifies_read::<OTP_CTRL>(reads, from, ops[10], |b: int| b == 15)
    &&& modifies_read::<PMSC_CTRL0>(reads, from, ops[11], |b: int| b < 2)
    &&& modifies_read::<OTP_CTRL>(reads, from, ops[13], |b: int| b < 2)
    &&& ops.len() == 17 ==> modifies_read::<OTP_CTRL>(reads, from, ops[15], |b: int| b < 2)
}

/// `ops[i]` and `ops[i + 1]` start reading the OTP word at `address`: the
/// address is set, and OTPRDEN and OTPREAD of OTP_CTRL are set, modifying its
/// current value.
pub open spec fn otp_read_started(ops: Seq<RegWrite>, i: int, address: nat) -> bool {
    &&& is_write::<OTP_ADDR>(ops[i])
    &&& field_of(ops[i], 0, 11) == address
    &&& is_write::<OTP_CTRL>(ops[i + 1])
    &&& field_of(ops[i + 1], 0, 1) == 1  // OTPRDEN
    &&& field_of(ops[i + 1], 1, 1) == 1  // OTPREAD
}

impl<SPI: Spi, CS: ChipSelect> DW1000<SPI, CS, Uninitialized> {
    /// Create a new instance of `DW1000`
    ///
    /// Requires the SPI peripheral and the chip select pin that are connected
    /// to the DW1000.
    pub fn new(spi: SPI, chip_select: CS) -> (r: Self)
        ensures
            r.writes() == Seq::<RegWrite>::empty(),
            r.seq() == 0,
    {
        DW1000 { ll: ll::DW1000::new(spi, chip_select), seq: 0, state: Uninitialized }
    }

    /// Initialize the DW1000
    ///
    /// The DW1000's default configuration is somewhat inconsistent, and the
    /// user manual (section 2.5.5) has a long list of default configuration
    /// values that should be changed to guarantee everything works correctly.
    /// This method does just that.
    ///
    /// Please note that this method assumes that you kept the default
    /// configuration. It is generally recommended not to change configuration
    /// before calling this method.
    #[verifier::rlimit(50)]
    #[verifier::spinoff_prover]
    pub fn init(self) -> (r: Result<DW1000<SPI, CS, Ready>, Error<SPI, CS>>)
        ensures
            r matches Ok(ready) ==> {
                &&& keeps(self.writes(), ready.writes())
                &&& init_writes(added(self.writes(), ready.writes()))
                &&& reads_kept(self.reads(), ready.reads())
                &&& init_reads(ready.reads(), self.reads().len() as int, added(self.writes(), ready.writes()))
                &&& ready.seq() == self.seq()
            },
            r matches Err(e) ==> e is Spi || e is PollTimeout,
    {
        let mut this = self;
        let ghost start = this.writes();
        let ghost r0 = this.reads().len() as int;
        let ghost mut log: Seq<RegWrite> = Seq::empty();
        proof {
            assert(start + log =~= start);
        }
        // Set AGC_TUNE1. See user manual, section 2.5.5.1.
        let mut w = W::<AGC_TUNE1>::zeroed();
        w.value(0x8870);
        this.write_reg(&w)?;
        proof {
            lemma_log_push(start, log, reg_write::<AGC_TUNE1>(w@));
            log = log.push(reg_write::<AGC_TUNE1>(w@));
        }
        // Set AGC_TUNE2. See user manual, section 2.5.5.2.
        let mut w = W::<AGC_TUNE2>::zeroed();
        w.value(0x2502A907);
        this.write_reg(&w)?;
        proof {
            lemma_log_push(start, log, reg_write::<AGC_TUNE2>(w@));
            log = log.push(reg_write::<AGC_TUNE2>(w@));
        }
        // Set DRX_TUNE2. See user manual, section 2.5.5.3.
        let mut w = W::<DRX_TUNE2>::zeroed();
        w.value(0x311A002D);
        this.write_reg(&w)?;
        proof {
            lemma_log_push(start, log, reg_write::<DRX_TUNE2>(w@));
            log = log.push(reg_write::<DRX_TUNE2>(w@));
        }
        // Set NTM. See user manual, section 2.5.5.4. This improves performance
        // in line-of-sight conditions, but might not be the best choice if non-
        // line-of-sight performance is important.
        let ghost j_ntm = this.reads().len() as int;
        let rd = this.read_reg::<LDE_CFG1>()?;
        let ghost read_ntm = reg_read::<LDE_CFG1>(rd@);
        let mut w = W::from_read(&rd);
        w.ntm(0xD);
        this.write_reg(&w)?;
        let ghost write_ntm = reg_write::<LDE_CFG1>(w@);
        proof {
            assert(kept_bits(rd@, write_ntm, |b: int| b < 5));
            assert(this.reads()[j_ntm] == read_ntm);
            lemma_log_push(start, log, reg_write::<LDE_CFG1>(w@));
            log = log.push(reg_write::<LDE_CFG1>(w@));
        }
        // Set LDE_CFG2. See user manual, section 2.5.5.5.
        let mut w = W::<LDE_CFG2>::zeroed();
        w.value(0x1607);
        this.write_reg(&w)?;
        proof {
            lemma_log_push(start, log, reg_write::<LDE_CFG2>(w@));
            log = log.push(reg_write::<LDE_CFG2>(w@));
        }
        // Set TX_POWER. See user manual, section 2.5.5.6.
        let mut w = W::<TX_POWER>::zeroed();
        w.value(0x0E082848);
        this.write_reg(&w)?;
        proof {
            lemma_log_push(start, log, reg_write::<TX_POWER>(w@));
            log = log.push(reg_write::<TX_POWER>(w@));
        }
        // Set RF_TXCTRL. See user manual, section 2.5.5.7.
        let ghost j_txctrl = this.reads().len() as int;
        let rd = this.read_reg::<RF_TXCTRL>()?;
        let ghost read_txctrl = reg_read::<RF_TXCTRL>(rd@);
        let mut w = W::from_read(&rd);
        w.txmtune(0b1111);
        w.txmq(0b111);
        this.write_reg(&w)?;
        let ghost write_txctrl = reg_write::<RF_TXCTRL>(w@);
        proof {
            assert(kept_bits(rd@, write_txctrl, |b: int| 5 <= b < 12));
            assert(this.reads()[j_txctrl] == read_txctrl);
            lemma_log_push(start, log, reg_write::<RF_TXCTRL>(w@));
            log = log.push(reg_write::<RF_TXCTRL>(w@));
        }
        // Set TC_PGDELAY. See user manual, section 2.5.5.8.
        let mut w = W::<TC_PGDELAY>::zeroed();
        w.value(0xC0);
        this.write_reg(&w)?;
        proof {
            lemma_log_push(start, log, reg_write::<TC_PGDELAY>(w@));
            log = log.push(reg_write::<TC_PGDELAY>(w@));
        }
        // Set FS_PLLTUNE. See user manual, section 2.5.5.9.
        let mut w = W::<FS_PLLTUNE>::zeroed();
        w.value(0xBE);
        this.write_reg(&w)?;
        proof {
            lemma_log_push(start, log, reg_write::<FS_PLLTUNE>(w@));
            log = log.push(reg_write::<FS_PLLTUNE>(w@));
        }
        // Set LDELOAD. See user manual, section 2.5.5.10.
        let ghost j_clk0 = this.reads().len() as int;
        let rd = this.read_reg::<PMSC_CTRL0>()?;
        let ghost read_clk0 = reg_read::<PMSC_CTRL0>(rd@);
        let mut w = W::from_read(&rd);
        w.sysclks(0b01);
        this.write_reg(&w)?;
        let ghost write_clk0 = reg_write::<PMSC_CTRL0>(w@);
        proof {
            assert(kept_bits(rd@, write_clk0, |b: int| b < 2));
            assert(this.reads()[j_clk0] == read_clk0);
            lemma_log_push(start, log, reg_write::<PMSC_CTRL0>(w@));
            log = log.push(reg_write::<PMSC_CTRL0>(w@));
        }
        let ghost j_lde = this.reads().len() as int;
        let rd = this.read_reg::<OTP_CTRL>()?;
        let ghost read_lde = reg_read::<OTP_CTRL>(rd@);
        let mut w = W::from_read(&rd);
        w.ldeload(1);
        this.write_reg(&w)?;
        let ghost write_lde = reg_write::<OTP_CTRL>(w@);
        proof {
            assert(kept_bits(rd@, write_lde, |b: int| b == 15));
            assert(this.reads()[j_lde] == read_lde);
            lemma_log_push(start, log, reg_write::<OTP_CTRL>(w@));
            log = log.push(reg_write::<OTP_CTRL>(w@));
        }
        this.wait_until_clear::<OTP_CTRL>(15)?;
        let ghost j_clk1 = this.reads().len() as int;
        let rd = this.read_reg::<PMSC_CTRL0>()?;
        let ghost read_clk1 = reg_read::<PMSC_CTRL0>(rd@);
        let mut w = W::from_read(&rd);
        w.sysclks(0b00);
        this.write_reg(&w)?;
        let ghost write_clk1 = reg_write::<PMSC_CTRL0>(w@);
        proof {
            assert(kept_bits(rd@, write_clk1, |b: int| b < 2));
            assert(this.reads()[j_clk1] == read_clk1);
            lemma_log_push(start, log, reg_write::<PMSC_CTRL0>(w@));
            log = log.push(reg_write::<PMSC_CTRL0>(w@));
        }
        // Set LDOTUNE. See user manual, section 2.5.5.11.
        let ghost before = this.writes();
        let ghost reads_lo0 = this.reads();
        let ldotune_low = this.start_read_otp(0x004)?;
        let ghost reads_lo = this.reads();
        let ghost j_lo = reads_lo.len() - 1;
        proof {
            lemma_log_append(start, log, this.writes());
            log = log + added(before, this.writes());
        }
        let ghost mut j_hi: int = 0;
        let ghost mut reads_hi0: Seq<RegRead> = Seq::empty();
        let ghost mut reads_hi: Seq<RegRead> = Seq::empty();
        let ghost mut ctrl_hi: RegWrite = arbitrary();
        if ldotune_low != 0 {
            let ghost before = this.writes();
            proof {
                reads_hi0 = this.reads();
            }
            let ldotune_high = this.start_read_otp(0x005)?;
            proof {
                reads_hi = this.reads();
                j_hi = reads_hi.len() - 1;
                ctrl_hi = this.writes().last();
                lemma_log_append(start, log, this.writes());
                log = log + added(before, this.writes());
            }
            let ldotune = ldotune_low as u64 | (ldotune_high as u64) << 32u64;
            let mut w = W::<LDOTUNE>::zeroed();
            w.value(ldotune);
            this.write_reg(&w)?;
            proof {
                assert((ldotune_low as u64 | (ldotune_high as u64) << 32u64) % 0x100_0000_0000 % 0x1_0000_0000
                    == ldotune_low as u64) by (bit_vector);
                crate::ll::bits::lemma_field_value_split(w@, 0, 32, 8);
                crate::ll::bits::lemma_field_value_bound(w@, 0, 32);
                assert(pow2(32) == 0x1_0000_0000) by {
                    vstd::arithmetic::power2::lemma2_to64();
                }
                let lo = field_value(w@, 0, 32);
                let hi = field_value(w@, 32, 8);
                assert((lo + 0x1_0000_0000 * hi) % 0x1_0000_0000 == lo) by (nonlinear_arith)
                    requires
                        lo < 0x1_0000_0000,
                ;
                assert(((ldotune_low as u64 | (ldotune_high as u64) << 32u64) % 0x100_0000_0000) / 0x1_0000_0000
                    == (ldotune_high as u64) % 256) by (bit_vector);
                let x = field_value(w@, 0, 40);
                assert(hi == x / 0x1_0000_0000) by (nonlinear_arith)
                    requires
                        lo < 0x1_0000_0000,
                        x == lo + 0x1_0000_0000 * hi,
                ;
                lemma_log_push(start, log, reg_write::<LDOTUNE>(w@));
                log = log.push(reg_write::<LDOTUNE>(w@));
            }
        }
        proof {
            assert(added(start, this.writes()) =~= log);
            let rs = this.reads();
            let ops = log;
            assert(rs[j_ntm] == read_ntm && ops[3] == write_ntm);
            assert(rs[j_txctrl] == read_txctrl && ops[6] == write_txctrl);
            assert(rs[j_clk0] == read_clk0 && ops[9] == write_clk0);
            assert(rs[j_lde] == read_lde && ops[10] == write_lde);
            assert(rs[j_clk1] == read_clk1 && ops[11] == write_clk1);
            assert(j_ntm >= r0 && j_txctrl >= r0 && j_clk0 >= r0 && j_lde >= r0 && j_clk1 >= r0);
            assert(rs[j_lo] == reads_lo[j_lo]);
            assert(ops[13] == log[13]);
            let jc = choose|jc: int|
                reads_lo0.len() <= jc < reads_lo.len() && is_read::<OTP_CTRL>(#[trigger] reads_lo[jc])
                    && kept_bits(reads_lo[jc].data, ops[13], |b: int| b < 2);
            assert(rs[jc] == reads_lo[jc]);
            assert(modifies_read::<OTP_CTRL>(rs, r0, ops[13], |b: int| b < 2));
            if ldotune_low != 0 {
                assert(rs[j_hi] == reads_hi[j_hi]);
                assert(ops[15] == ctrl_hi);
                let jc2 = choose|jc: int|
                    reads_hi0.len() <= jc < reads_hi.len() && is_read::<OTP_CTRL>(#[trigger] reads_hi[jc])
                        && kept_bits(reads_hi[jc].data, ctrl_hi, |b: int| b < 2);
                assert(rs[jc2] == reads_hi[jc2]);
                assert(modifies_read::<OTP_CTRL>(rs, r0, ops[15], |b: int| b < 2));
            }
        }
        Ok(DW1000 { ll: this.ll, seq: this.seq, state: Ready })
    }
    /// Reads the OTP word at `address`, by setting the address and starting
    /// the read, then waiting for it to finish.
    fn start_read_otp(&mut self, address: u16) -> (r: Result<u32, Error<SPI, CS>>)
        requires
            address < 0x800,
        ensures
            final(self).seq() == old(self).seq(),
            final(self).state() == old(self).state(),
            keeps(old(self).writes(), final(self).writes()),
            r is Ok ==> extends(old(self).writes(), final(self).writes(), 2) && otp_read_started(
                added(old(self).writes(), final(self).writes()),
                0,
                address as nat,
            ),
            r matches Err(e) ==> e is Spi || e is PollTimeout,
            reads_kept(old(self).reads(), final(self).reads()),
            r is Ok ==> modifies_read::<OTP_CTRL>(
                final(self).reads(),
                old(self).reads().len() as int,
                final(self).writes().last(),
                |b: int| b < 2,
            ),
            r matches Ok(v) ==> {
                &&& final(self).reads().len() > old(self).reads().len()
                &&& is_read::<OTP_RDAT>(final(self).reads().last())
                &&& v == field_value(final(self).reads().last().data, 0, 32)
            },
    {
        let ghost start = self.writes();
        let mut w = W::<OTP_ADDR>::zeroed();
        w.value(address);
        self.write_reg(&w)?;
        let ghost first = reg_write::<OTP_ADDR>(w@);
        let ghost j = self.reads().len() as int;
        let rd = self.read_reg::<OTP_CTRL>()?;
        let mut w = W::from_read(&rd);
        w.otprden(1);
        w.otpread(1);
        self.write_reg(&w)?;
        let ghost ctrl_read = reg_read::<OTP_CTRL>(rd@);
        proof {
            assert(added(start, self.writes()) =~= seq![first, reg_write::<OTP_CTRL>(w@)]);
            assert(kept_bits(rd@, reg_write::<OTP_CTRL>(w@), |b: int| b < 2));
            assert(self.reads()[j] == ctrl_read);
        }
        self.wait_until_clear::<OTP_CTRL>(1)?;
        let value = self.read_reg::<OTP_RDAT>()?.value();
        proof {
            assert(self.reads()[j] == ctrl_read);
        }
        Ok(value)
    }
}

} // verus!
