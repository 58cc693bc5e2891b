//! The DW1000's registers
//!
//! Each register is a marker type that implements [`Register`], and
//! [`Readable`] or [`Writable`] as the register allows. The field accessors of
//! a register are methods of [`R`] (for reading) and [`W`] (for writing),
//! instantiated with the register's marker type. The DW1000 user manual,
//! section 7, documents the registers and their fields.

use vstd::prelude::*;
use crate::ll::{R, W, Register, Readable, Writable, fields_kept};
use crate::ll::bits::{field_value, field_written};

verus! {

/// Device identifier
#[allow(non_camel_case_types)]
pub struct DEV_ID;

impl Register for DEV_ID {
    open spec fn spec_id() -> u8 {
        0x00
    }

    open spec fn spec_sub_id() -> u16 {
        0x00
    }

    open spec fn spec_len() -> usize {
        4
    }

    fn id() -> (r: u8) {
        0x00
    }

    fn sub_id() -> (r: u16) {
        0x00
    }

    fn len() -> (r: usize) {
        4
    }
}

impl Readable for DEV_ID {}

impl R<DEV_ID> {
    /// Revision
    pub fn rev(&self) -> (r: u8)
        ensures
            r == field_value(self@, 0, 4),
            r < 16,
    {
        proof {
            crate::ll::bits::lemma_field_value_bound(self@, 0, 4);
            vstd::arithmetic::power2::lemma2_to64();
        }
        self.field(0, 4) as u8
    }

    /// Version
    pub fn ver(&self) -> (r: u8)
        ensures
            r == field_value(self@, 4, 4),
            r < 16,
    {
        proof {
            crate::ll::bits::lemma_field_value_bound(self@, 4, 4);
            vstd::arithmetic::power2::lemma2_to64();
        }
        self.field(4, 4) as u8
    }

    /// Model
    pub fn model(&self) -> (r: u8)
        ensures
            r == field_value(self@, 8, 8),
            r < 0x100,
    {
        proof {
            crate::ll::bits::lemma_field_value_bound(self@, 8, 8);
            vstd::arithmetic::power2::lemma2_to64();
        }
        self.field(8, 8) as u8
    }

    /// Register Identification Tag
    pub fn ridtag(&self) -> (r: u16)
        ensures
            r == field_value(self@, 16, 16),
            r < 0x10000,
    {
        proof {
            crate::ll::bits::lemma_field_value_bound(self@, 16, 16);
            vstd::arithmetic::power2::lemma2_to64();
        }
        self.field(16, 16) as u16
    }

}

/// Extended Unique Identifier
#[allow(non_camel_case_types)]
pub struct EUI;

impl Register for EUI {
    open spec fn spec_id() -> u8 {
        0x01
    }

    open spec fn spec_sub_id() -> u16 {
        0x00
    }

    open spec fn spec_len() -> usize {
        8
    }

    fn id() -> (r: u8) {
        0x01
    }

    fn sub_id() -> (r: u16) {
        0x00
    }

    fn len() -> (r: usize) {
        8
    }
}

impl Readable for EUI {}

impl Writable for EUI {}

impl R<EUI> {
    /// Extended Unique Identifier
    pub fn value(&self) -> (r: u64)
        ensures
            r == field_value(self@, 0, 64),
    {
        self.field(0, 64)
    }

}

impl W<EUI> {
    /// Extended Unique Identifier
    pub fn value(&mut self, value: u64)
        ensures
            field_written(old(self)@, final(self)@, 0, 64, value as u64),
            field_value(final(self)@, 0, 64) == value as nat,
            fields_kept(old(self)@, final(self)@, 0, 64),
    {
        self.set_field(0, 64, value as u64);
        proof {
            vstd::arithmetic::power2::lemma2_to64();
            vstd::arithmetic::power2::lemma2_to64_rest();
        }
    }

}

/// PAN Identifier and Short Address
#[allow(non_camel_case_types)]
pub struct PANADR;

impl Register for PANADR {
    open spec fn spec_id() -> u8 {
        0x03
    }

    open spec fn spec_sub_id() -> u16 {
        0x00
    }

    open spec fn spec_len() -> usize {
        4
    }

    fn id() -> (r: u8) {
        0x03
    }

    fn sub_id() -> (r: u16) {
        0x00
    }

    fn len() -> (r: usize) {
        4
    }
}

impl Readable for PANADR {}

impl Writable for PANADR {}

impl R<PANADR> {
    /// Short Address
    pub fn short_addr(&self) -> (r: u16)
        ensures
            r == field_value(self@, 0, 16),
            r < 0x10000,
    {
        proof {
            crate::ll::bits::lemma_field_value_bound(self@, 0, 16);
            vstd::arithmetic::power2::lemma2_to64();
        }
        self.field(0, 16) as u16
    }

    /// PAN Identifier
    pub fn pan_id(&self) -> (r: u16)
        ensures
            r == field_value(self@, 16, 16),
            r < 0x10000,
    {
        proof {
            crate::ll::bits::lemma_field_value_bound(self@, 16, 16);
            vstd::arithmetic::power2::lemma2_to64();
        }
        self.field(16, 16) as u16
    }

}

impl W<PANADR> {
    /// Short Address
    pub fn short_addr(&mut self, value: u16)
        ensures
            field_written(old(self)@, final(self)@, 0, 16, value as u64),
            field_value(final(self)@, 0, 16) == value as nat,
            fields_kept(old(self)@, final(self)@, 0, 16),
    {
        self.set_field(0, 16, value as u64);
        proof {
            vstd::arithmetic::power2::lemma2_to64();
            vstd::arithmetic::power2::lemma2_to64_rest();
        }
    }

    /// PAN Identifier
    pub fn pan_id(&mut self, value: u16)
        ensures
            field_written(old(self)@, final(self)@, 16, 16, value as u64),
            field_value(final(self)@, 16, 16) == value as nat,
            fields_kept(old(self)@, final(self)@, 16, 16),
    {
        self.set_field(16, 16, value as u64);
        proof {
            vstd::arithmetic::power2::lemma2_to64();
            vstd::arithmetic::power2::lemma2_to64_rest();
        }
    }

}

/// System Configuration
#[allow(non_camel_case_types)]
pub struct SYS_CFG;

impl Register for SYS_CFG {
    open spec fn spec_id() -> u8 {
        0x04
    }

    open spec fn spec_sub_id() -> u16 {
        0x00
    }

    open spec fn spec_len() -> usize {
        4
    }

    fn id() -> (r: u8) {
        0x04
    }

    fn sub_id() -> (r: u16) {
        0x00
    }

    fn len() -> (r: usize) {
        4
    }
}

impl Readable for SYS_CFG {}

impl Writable for SYS_CFG {}

impl R<SYS_CFG> {
    /// Frame Filtering Enable
    pub fn ffen(&self) -> (r: u8)
        ensures
            r == field_value(self@, 0, 1),
            r < 2,
    {
        proof {
            crate::ll::bits::lemma_field_value_bound(self@, 0, 1);
            vstd::arithmetic::power2::lemma2_to64();
        }
        self.field(0, 1) as u8
    }

    /// Frame Filtering Behave As Coordinator
    pub fn ffbc(&self) -> (r: u8)
        ensures
            r == field_value(self@, 1, 1),
            r < 2,
    {
        proof {
            crate::ll::bits::lemma_field_value_bound(self@, 1, 1);
            vstd::arithmetic::power2::lemma2_to64();
        }
        self.field(1, 1) as u8
    }

    /// Frame Filtering Allow Beacon
    pub fn ffab(&self) -> (r: u8)
        ensures
            r == field_value(self@, 2, 1),
            r < 2,
    {
        proof {
            crate::ll::bits::lemma_field_value_bound(self@, 2, 1);
            vstd::arithmetic::power2::lemma2_to64();
        }
        self.field(2, 1) as u8
    }

    /// Frame Filtering Allow Data
    pub fn ffad(&self) -> (r: u8)
        ensures
            r == field_value(self@, 3, 1),
            r < 2,
    {
        proof {
            crate::ll::bits::lemma_field_value_bound(self@, 3, 1);
            vstd::arithmetic::power2::lemma2_to64();
        }
        self.field(3, 1) as u8
    }

    /// Frame Filtering Allow Acknowledgement
    pub fn ffaa(&self) -> (r: u8)
        ensures
            r == field_value(self@, 4, 1),
            r < 2,
    {
        proof {
            crate::ll::bits::lemma_field_value_bound(self@, 4, 1);
            vstd::arithmetic::power2::lemma2_to64();
        }
        self.field(4, 1) as u8
    }

    /// Frame Filtering Allow MAC Command Frame
    pub fn ffam(&self) -> (r: u8)
        ensures
            r == field_value(self@, 5, 1),
            r < 2,
    {
        proof {
            crate::ll::bits::lemma_field_value_bound(self@, 5, 1);
            vstd::arithmetic::power2::lemma2_to64();
        }
        self.field(5, 1) as u8
    }

    /// Frame Filtering Allow Reserved
    pub fn ffar(&self) -> (r: u8)
        ensures
            r == field_value(self@, 6, 1),
            r < 2,
    {
        proof {
            crate::ll::bits::lemma_field_value_bound(self@, 6, 1);
            vstd::arithmetic::power2::lemma2_to64();
        }
        self.field(6, 1) as u8
    }

    /// Frame Filtering Allow Frame Type 4
    pub fn ffa4(&self) -> (r: u8)
        ensures
            r == field_value(self@, 7, 1),
            r < 2,
    {
        proof {
            crate::ll::bits::lemma_field_value_bound(self@, 7, 1);
            vstd::arithmetic::power2::lemma2_to64();
        }
        self.field(7, 1) as u8
    }

    /// Frame Filtering Allow Frame Type 5
    pub fn ffa5(&self) -> (r: u8)
        ensures
            r == field_value(self@, 8, 1),
            r < 2,
    {
        proof {
            crate::ll::bits::lemma_field_value_bound(self@, 8, 1);
            vstd::arithmetic::power2::lemma2_to64();
        }
        self.field(8, 1) as u8
    }

    /// Host Interrupt Polarity
    pub fn hirq_pol(&self) -> (r: u8)
        ensures
            r == field_value(self@, 9, 1),
            r < 2,
    {
        proof {
            crate::ll::bits::lemma_field_value_bound(self@, 9, 1);
            vstd::arithmetic::power2::lemma2_to64();
        }
        self.field(9, 1) as u8
    }

    /// SPI Data Launch Edge
    pub fn spi_edge(&self) -> (r: u8)
        ensures
            r == field_value(self@, 10, 1),
            r < 2,
    {
        proof {
            crate::ll::bits::lemma_field_value_bound(self@, 10, 1);
            vstd::arithmetic::power2::lemma2_to64();
        }
        self.field(10, 1) as u8
    }

    /// Disable Frame Check Error Handling
    pub fn dis_fce(&self) -> (r: u8)
        ensures
            r == field_value(self@, 11, 1),
            r < 2,
    {
        proof {
            crate::ll::bits::lemma_field_value_bound(self@, 11, 1);
            vstd::arithmetic::power2::lemma2_to64();
        }
        self.field(11, 1) as u8
    }

    /// Disable Double RX Buffer
    pub fn dis_drxb(&self) -> (r: u8)
        ensures
            r == field_value(self@, 12, 1),
            r < 2,
    {
        proof {
            crate::ll::bits::lemma_field_value_bound(self@, 12, 1);
            vstd::arithmetic::power2::lemma2_to64();
        }
        self.field(12, 1) as u8
    }

    /// Disable Receiver Abort on PHR Error
    pub fn dis_phe(&self) -> (r: u8)
        ensures
            r == field_value(self@, 13, 1),
            r < 2,
    {
        proof {
            crate::ll::bits::lemma_field_value_bound(self@, 13, 1);
            vstd::arithmetic::power2::lemma2_to64();
        }
        self.field(13, 1) as u8
    }

    /// Disable Receiver Abort on RSD Error
    pub fn dis_rsde(&self) -> (r: u8)
        ensures
            r == field_value(self@, 14, 1),
            r < 2,
    {
        proof {
            crate::ll::bits::lemma_field_value_bound(self@, 14, 1);
            vstd::arithmetic::power2::lemma2_to64();
        }
        self.field(14, 1) as u8
    }

    /// FCS Seed Selection
    pub fn fcs_init2f(&self) -> (r: u8)
        ensures
            r == field_value(self@, 15, 1),
            r < 2,
    {
        proof {
            crate::ll::bits::lemma_field_value_bound(self@, 15, 1);
            vstd::arithmetic::power2::lemma2_to64();
        }
        self.field(15, 1) as u8
    }

    /// PHR Mode
    pub fn phr_mode(&self) -> (r: u8)
        ensures
            r == field_value(self@, 16, 2),
            r < 4,
    {
        proof {
            crate::ll::bits::lemma_field_value_bound(self@, 16, 2);
            vstd::arithmetic::power2::lemma2_to64();
        }
        self.field(16, 2) as u8
    }

    /// Disable Smart TX Power Control
    pub fn dis_stxp(&self) -> (r: u8)
        ensures
            r == field_value(self@, 18, 1),
            r < 2,
    {
        proof {
            crate::ll::bits::lemma_field_value_bound(self@, 18, 1);
            vstd::arithmetic::power2::lemma2_to64();
        }
        self.field(18, 1) as u8
    }

    /// Receiver Mode 110kpbs Data Rate
    pub fn rxm110k(&self) -> (r: u8)
        ensures
            r == field_value(self@, 22, 1),
            r < 2,
    {
        proof {
            crate::ll::bits::lemma_field_value_bound(self@, 22, 1);
            vstd::arithmetic::power2::lemma2_to64();
        }
        self.field(22, 1) as u8
    }

    /// Receiver Wait Timeout Enable
    pub fn rxwtoe(&self) -> (r: u8)
        ensures
            r == field_value(self@, 28, 1),
            r < 2,
    {
        proof {
            crate::ll::bits::lemma_field_value_bound(self@, 28, 1);
            vstd::arithmetic::power2::lemma2_to64();
        }
        self.field(28, 1) as u8
    }

    /// Receiver Auto-Re-Enable
    pub fn rxautr(&self) -> (r: u8)
        ensures
            r == field_value(self@, 29, 1),
            r < 2,
    {
        proof {
            crate::ll::bits::lemma_field_value_bound(self@, 29, 1);
            vstd::arithmetic::power2::lemma2_to64();
        }
        self.field(29, 1) as u8
    }

    /// Automatic Acknowledgement Enable
    pub fn autoack(&self) -> (r: u8)
        ensures
            r == field_value(self@, 30, 1),
            r < 2,
    {
        proof {
            crate::ll::bits::lemma_field_value_bound(self@, 30, 1);
            vstd::arithmetic::power2::lemma2_to64();
        }
        self.field(30, 1) as u8
    }

    /// Automatic Acknowledgement Pending
    pub fn aackpend(&self) -> (r: u8)
        ensures
            r == field_value(self@, 31, 1),
            r < 2,
    {
        proof {
            crate::ll::bits::lemma_field_value_bound(self@, 31, 1);
            vstd::arithmetic::power2::lemma2_to64();
        }
        self.field(31, 1) as u8
    }

}

impl W<SYS_CFG> {
    /// Frame Filtering Enable
    pub fn ffen(&mut self, value: u8)
        ensures
            field_written(old(self)@, final(self)@, 0, 1, value as u64),
            field_value(final(self)@, 0, 1) == (value as nat) % 2,
            fields_kept(old(self)@, final(self)@, 0, 1),
    {
        self.set_field(0, 1, value as u64);
        proof {
            vstd::arithmetic::power2::lemma2_to64();
            vstd::arithmetic::power2::lemma2_to64_rest();
        }
    }

    /// Frame Filtering Behave As Coordinator
    pub fn ffbc(&mut self, value: u8)
        ensures
            field_written(old(self)@, final(self)@, 1, 1, value as u64),
            field_value(final(self)@, 1, 1) == (value as nat) % 2,
            fields_kept(old(self)@, final(self)@, 1, 1),
    {
        self.set_field(1, 1, value as u64);
        proof {
            vstd::arithmetic::power2::lemma2_to64();
            vstd::arithmetic::power2::lemma2_to64_rest();
        }
    }

    /// Frame Filtering Allow Beacon
    pub fn ffab(&mut self, value: u8)
        ensures
            field_written(old(self)@, final(self)@, 2, 1, value as u64),
            field_value(final(self)@, 2, 1) == (value as nat) % 2,
            fields_kept(old(self)@, final(self)@, 2, 1),
    {
        self.set_field(2, 1, value as u64);
        proof {
            vstd::arithmetic::power2::lemma2_to64();
            vstd::arithmetic::power2::lemma2_to64_rest();
        }
    }

    /// Frame Filtering Allow Data
    pub fn ffad(&mut self, value: u8)
        ensures
            field_written(old(self)@, final(self)@, 3, 1, value as u64),
            field_value(final(self)@, 3, 1) == (value as nat) % 2,
            fields_kept(old(self)@, final(self)@, 3, 1),
    {
        self.set_field(3, 1, value as u64);
        proof {
            vstd::arithmetic::power2::lemma2_to64();
            vstd::arithmetic::power2::lemma2_to64_rest();
        }
    }

    /// Frame Filtering Allow Acknowledgement
    pub fn ffaa(&mut self, value: u8)
        ensures
            field_written(old(self)@, final(self)@, 4, 1, value as u64),
            field_value(final(self)@, 4, 1) == (value as nat) % 2,
            fields_kept(old(self)@, final(self)@, 4, 1),
    {
        self.set_field(4, 1, value as u64);
        proof {
            vstd::arithmetic::power2::lemma2_to64();
            vstd::arithmetic::power2::lemma2_to64_rest();
        }
    }

    /// Frame Filtering Allow MAC Command Frame
    pub fn ffam(&mut self, value: u8)
        ensures
            field_written(old(self)@, final(self)@, 5, 1, value as u64),
            field_value(final(self)@, 5, 1) == (value as nat) % 2,
            fields_kept(old(self)@, final(self)@, 5, 1),
    {
        self.set_field(5, 1, value as u64);
        proof {
            vstd::arithmetic::power2::lemma2_to64();
            vstd::arithmetic::power2::lemma2_to64_rest();
        }
    }

    /// Frame Filtering Allow Reserved
    pub fn ffar(&mut self, value: u8)
        ensures
            field_written(old(self)@, final(self)@, 6, 1, value as u64),
            field_value(final(self)@, 6, 1) == (value as nat) % 2,
            fields_kept(old(self)@, final(self)@, 6, 1),
    {
        self.set_field(6, 1, value as u64);
        proof {
            vstd::arithmetic::power2::lemma2_to64();
            vstd::arithmetic::power2::lemma2_to64_rest();
        }
    }

    /// Frame Filtering Allow Frame Type 4
    pub fn ffa4(&mut self, value: u8)
        ensures
            field_written(old(self)@, final(self)@, 7, 1, value as u64),
            field_value(final(self)@, 7, 1) == (value as nat) % 2,
            fields_kept(old(self)@, final(self)@, 7, 1),
    {
        self.set_field(7, 1, value as u64);
        proof {
            vstd::arithmetic::power2::lemma2_to64();
            vstd::arithmetic::power2::lemma2_to64_rest();
        }
    }

    /// Frame Filtering Allow Frame Type 5
    pub fn ffa5(&mut self, value: u8)
        ensures
            field_written(old(self)@, final(self)@, 8, 1, value as u64),
            field_value(final(self)@, 8, 1) == (value as nat) % 2,
            fields_kept(old(self)@, final(self)@, 8, 1),
    {
        self.set_field(8, 1, value as u64);
        proof {
            vstd::arithmetic::power2::lemma2_to64();
            vstd::arithmetic::power2::lemma2_to64_rest();
        }
    }

    /// Host Interrupt Polarity
    pub fn hirq_pol(&mut self, value: u8)
        ensures
            field_written(old(self)@, final(self)@, 9, 1, value as u64),
            field_value(final(self)@, 9, 1) == (value as nat) % 2,
            fields_kept(old(self)@, final(self)@, 9, 1),
    {
        self.set_field(9, 1, value as u64);
        proof {
            vstd::arithmetic::power2::lemma2_to64();
            vstd::arithmetic::power2::lemma2_to64_rest();
        }
    }

    /// SPI Data Launch Edge
    pub fn spi_edge(&mut self, value: u8)
        ensures
            field_written(old(self)@, final(self)@, 10, 1, value as u64),
            field_value(final(self)@, 10, 1) == (value as nat) % 2,
            fields_kept(old(self)@, final(self)@, 10, 1),
    {
        self.set_field(10, 1, value as u64);
        proof {
            vstd::arithmetic::power2::lemma2_to64();
            vstd::arithmetic::power2::lemma2_to64_rest();
        }
    }

    /// Disable Frame Check Error Handling
    pub fn dis_fce(&mut self, value: u8)
        ensures
            field_written(old(self)@, final(self)@, 11, 1, value as u64),
            field_value(final(self)@, 11, 1) == (value as nat) % 2,
            fields_kept(old(self)@, final(self)@, 11, 1),
    {
        self.set_field(11, 1, value as u64);
        proof {
            vstd::arithmetic::power2::lemma2_to64();
            vstd::arithmetic::power2::lemma2_to64_rest();
        }
    }

    /// Disable Double RX Buffer
    pub fn dis_drxb(&mut self, value: u8)
        ensures
            field_written(old(self)@, final(self)@, 12, 1, value as u64),
            field_value(final(self)@, 12, 1) == (value as nat) % 2,
            fields_kept(old(self)@, final(self)@, 12, 1),
    {
        self.set_field(12, 1, value as u64);
        proof {
            vstd::arithmetic::power2::lemma2_to64();
            vstd::arithmetic::power2::lemma2_to64_rest();
        }
    }

    /// Disable Receiver Abort on PHR Error
    pub fn dis_phe(&mut self, value: u8)
        ensures
            field_written(old(self)@, final(self)@, 13, 1, value as u64),
            field_value(final(self)@, 13, 1) == (value as nat) % 2,
            fields_kept(old(self)@, final(self)@, 13, 1),
    {
        self.set_field(13, 1, value as u64);
        proof {
            vstd::arithmetic::power2::lemma2_to64();
            vstd::arithmetic::power2::lemma2_to64_rest();
        }
    }

    /// Disable Receiver Abort on RSD Error
    pub fn dis_rsde(&mut self, value: u8)
        ensures
            field_written(old(self)@, final(self)@, 14, 1, value as u64),
            field_value(final(self)@, 14, 1) == (value as nat) % 2,
            fields_kept(old(self)@, final(self)@, 14, 1),
    {
        self.set_field(14, 1, value as u64);
        proof {
            vstd::arithmetic::power2::lemma2_to64();
            vstd::arithmetic::power2::lemma2_to64_rest();
        }
    }

    /// FCS Seed Selection
    pub fn fcs_init2f(&mut self, value: u8)
        ensures
            field_written(old(self)@, final(self)@, 15, 1, value as u64),
            field_value(final(self)@, 15, 1) == (value as nat) % 2,
            fields_kept(old(self)@, final(self)@, 15, 1),
    {
        self.set_field(15, 1, value as u64);
        proof {
            vstd::arithmetic::power2::lemma2_to64();
            vstd::arithmetic::power2::lemma2_to64_rest();
        }
    }

    /// PHR Mode
    pub fn phr_mode(&mut self, value: u8)
        ensures
            field_written(old(self)@, final(self)@, 16, 2, value as u64),
            field_value(final(self)@, 16, 2) == (value as nat) % 4,
            fields_kept(old(self)@, final(self)@, 16, 2),
    {
        self.set_field(16, 2, value as u64);
        proof {
            vstd::arithmetic::power2::lemma2_to64();
            vstd::arithmetic::power2::lemma2_to64_rest();
        }
    }

    /// Disable Smart TX Power Control
    pub fn dis_stxp(&mut self, value: u8)
        ensures
            field_written(old(self)@, final(self)@, 18, 1, value as u64),
            field_value(final(self)@, 18, 1) == (value as nat) % 2,
            fields_kept(old(self)@, final(self)@, 18, 1),
    {
        self.set_field(18, 1, value as u64);
        proof {
            vstd::arithmetic::power2::lemma2_to64();
            vstd::arithmetic::power2::lemma2_to64_rest();
        }
    }

    /// Receiver Mode 110kpbs Data Rate
    pub fn rxm110k(&mut self, value: u8)
        ensures
            field_written(old(self)@, final(self)@, 22, 1, value as u64),
            field_value(final(self)@, 22, 1) == (value as nat) % 2,
            fields_kept(old(self)@, final(self)@, 22, 1),
    {
        self.set_field(22, 1, value as u64);
        proof {
            vstd::arithmetic::power2::lemma2_to64();
            vstd::arithmetic::power2::lemma2_to64_rest();
        }
    }

    /// Receiver Wait Timeout Enable
    pub fn rxwtoe(&mut self, value: u8)
        ensures
            field_written(old(self)@, final(self)@, 28, 1, value as u64),
            field_value(final(self)@, 28, 1) == (value as nat) % 2,
            fields_kept(old(self)@, final(self)@, 28, 1),
    {
        self.set_field(28, 1, value as u64);
        proof {
            vstd::arithmetic::power2::lemma2_to64();
            vstd::arithmetic::power2::lemma2_to64_rest();
        }
    }

    /// Receiver Auto-Re-Enable
    pub fn rxautr(&mut self, value: u8)
        ensures
            field_written(old(self)@, final(self)@, 29, 1, value as u64),
            field_value(final(self)@, 29, 1) == (value as nat) % 2,
            fields_kept(old(self)@, final(self)@, 29, 1),
    {
        self.set_field(29, 1, value as u64);
        proof {
            vstd::arithmetic::power2::lemma2_to64();
            vstd::arithmetic::power2::lemma2_to64_rest();
        }
    }

    /// Automatic Acknowledgement Enable
    pub fn autoack(&mut self, value: u8)
        ensures
            field_written(old(self)@, final(self)@, 30, 1, value as u64),
            field_value(final(self)@, 30, 1) == (value as nat) % 2,
            fields_kept(old(self)@, final(self)@, 30, 1),
    {
        self.set_field(30, 1, value as u64);
        proof {
            vstd::arithmetic::power2::lemma2_to64();
            vstd::arithmetic::power2::lemma2_to64_rest();
        }
    }

    /// Automatic Acknowledgement Pending
    pub fn aackpend(&mut self, value: u8)
        ensures
            field_written(old(self)@, final(self)@, 31, 1, value as u64),
            field_value(final(self)@, 31, 1) == (value as nat) % 2,
            fields_kept(old(self)@, final(self)@, 31, 1),
    {
        self.set_field(31, 1, value as u64);
        proof {
            vstd::arithmetic::power2::lemma2_to64();
            vstd::arithmetic::power2::lemma2_to64_rest();
        }
    }

}

/// System Time Counter
#[allow(non_camel_case_types)]
pub struct SYS_TIME;

impl Register for SYS_TIME {
    open spec fn spec_id() -> u8 {
        0x06
    }

    open spec fn spec_sub_id() -> u16 {
        0x00
    }

    open spec fn spec_len() -> usize {
        5
    }

    fn id() -> (r: u8) {
        0x06
    }

    fn sub_id() -> (r: u16) {
        0x00
    }

    fn len() -> (r: usize) {
        5
    }
}

impl Readable for SYS_TIME {}

impl R<SYS_TIME> {
    /// System Time Counter
    pub fn value(&self) -> (r: u64)
        ensures
            r == field_value(self@, 0, 40),
            r < 0x10000000000,
    {
        proof {
            crate::ll::bits::lemma_field_value_bound(self@, 0, 40);
            vstd::arithmetic::power2::lemma2_to64_rest();
        }
        self.field(0, 40)
    }

}

/// TX Frame Control
#[allow(non_camel_case_types)]
pub struct TX_FCTRL;

impl Register for TX_FCTRL {
    open spec fn spec_id() -> u8 {
        0x08
    }

    open spec fn spec_sub_id() -> u16 {
        0x00
    }

    open spec fn spec_len() -> usize {
        5
    }

    fn id() -> (r: u8) {
        0x08
    }

    fn sub_id() -> (r: u16) {
        0x00
    }

    fn len() -> (r: usize) {
        5
    }
}

impl Readable for TX_FCTRL {}

impl Writable for TX_FCTRL {}

impl R<TX_FCTRL> {
    /// TX Frame Length
    pub fn tflen(&self) -> (r: u8)
        ensures
            r == field_value(self@, 0, 7),
            r < 128,
    {
        proof {
            crate::ll::bits::lemma_field_value_bound(self@, 0, 7);
            vstd::arithmetic::power2::lemma2_to64();
        }
        self.field(0, 7) as u8
    }

    /// TX Frame Length Extension
    pub fn tfle(&self) -> (r: u8)
        ensures
            r == field_value(self@, 7, 3),
            r < 8,
    {
        proof {
            crate::ll::bits::lemma_field_value_bound(self@, 7, 3);
            vstd::arithmetic::power2::lemma2_to64();
        }
        self.field(7, 3) as u8
    }

    /// TX Bit Rate
    pub fn txbr(&self) -> (r: u8)
        ensures
            r == field_value(self@, 13, 2),
            r < 4,
    {
        proof {
            crate::ll::bits::lemma_field_value_bound(self@, 13, 2);
            vstd::arithmetic::power2::lemma2_to64();
        }
        self.field(13, 2) as u8
    }

    /// TX Ranging Enable
    pub fn tr(&self) -> (r: u8)
        ensures
            r == field_value(self@, 15, 1),
            r < 2,
    {
        proof {
            crate::ll::bits::lemma_field_value_bound(self@, 15, 1);
            vstd::arithmetic::power2::lemma2_to64();
        }
        self.field(15, 1) as u8
    }

    /// TX Pulse Repetition Frequency
    pub fn txprf(&self) -> (r: u8)
        ensures
            r == field_value(self@, 16, 2),
            r < 4,
    {
        proof {
            crate::ll::bits::lemma_field_value_bound(self@, 16, 2);
            vstd::arithmetic::power2::lemma2_to64();
        }
        self.field(16, 2) as u8
    }

    /// TX Preamble Symbol Repetitions
    pub fn txpsr(&self) -> (r: u8)
        ensures
            r == field_value(self@, 18, 2),
            r < 4,
    {
        proof {
            crate::ll::bits::lemma_field_value_bound(self@, 18, 2);
            vstd::arithmetic::power2::lemma2_to64();
        }
        self.field(18, 2) as u8
    }

    /// Preamble Extension
    pub fn pe(&self) -> (r: u8)
        ensures
            r == field_value(self@, 20, 2),
            r < 4,
    {
        proof {
            crate::ll::bits::lemma_field_value_bound(self@, 20, 2);
            vstd::arithmetic::power2::lemma2_to64();
        }
        self.field(20, 2) as u8
    }

    /// TX Buffer Index Offset
    pub fn txboffs(&self) -> (r: u16)
        ensures
            r == field_value(self@, 22, 10),
            r < 0x400,
    {
        proof {
            crate::ll::bits::lemma_field_value_bound(self@, 22, 10);
            vstd::arithmetic::power2::lemma2_to64();
        }
        self.field(22, 10) as u16
    }

    /// Inter-Frame Spacing
    pub fn ifsdelay(&self) -> (r: u8)
        ensures
            r == field_value(self@, 32, 8),
            r < 0x100,
    {
        proof {
            crate::ll::bits::lemma_field_value_bound(self@, 32, 8);
            vstd::arithmetic::power2::lemma2_to64();
        }
        self.field(32, 8) as u8
    }

}

impl W<TX_FCTRL> {
    /// TX Frame Length
    pub fn tflen(&mut self, value: u8)
        ensures
            field_written(old(self)@, final(self)@, 0, 7, value as u64),
            field_value(final(self)@, 0, 7) == (value as nat) % 128,
            fields_kept(old(self)@, final(self)@, 0, 7),
    {
        self.set_field(0, 7, value as u64);
        proof {
            vstd::arithmetic::power2::lemma2_to64();
            vstd::arithmetic::power2::lemma2_to64_rest();
        }
    }

    /// TX Frame Length Extension
    pub fn tfle(&mut self, value: u8)
        ensures
            field_written(old(self)@, final(self)@, 7, 3, value as u64),
            field_value(final(self)@, 7, 3) == (value as nat) % 8,
            fields_kept(old(self)@, final(self)@, 7, 3),
    {
        self.set_field(7, 3, value as u64);
        proof {
            vstd::arithmetic::power2::lemma2_to64();
            vstd::arithmetic::power2::lemma2_to64_rest();
        }
    }

    /// TX Bit Rate
    pub fn txbr(&mut self, value: u8)
        ensures
            field_written(old(self)@, final(self)@, 13, 2, value as u64),
            field_value(final(self)@, 13, 2) == (value as nat) % 4,
            fields_kept(old(self)@, final(self)@, 13, 2),
    {
        self.set_field(13, 2, value as u64);
        proof {
            vstd::arithmetic::power2::lemma2_to64();
            vstd::arithmetic::power2::lemma2_to64_rest();
        }
    }

    /// TX Ranging Enable
    pub fn tr(&mut self, value: u8)
        ensures
            field_written(old(self)@, final(self)@, 15, 1, value as u64),
            field_value(final(self)@, 15, 1) == (value as nat) % 2,
            fields_kept(old(self)@, final(self)@, 15, 1),
    {
        self.set_field(15, 1, value as u64);
        proof {
            vstd::arithmetic::power2::lemma2_to64();
            vstd::arithmetic::power2::lemma2_to64_rest();
        }
    }

    /// TX Pulse Repetition Frequency
    pub fn txprf(&mut self, value: u8)
        ensures
            field_written(old(self)@, final(self)@, 16, 2, value as u64),
            field_value(final(self)@, 16, 2) == (value as nat) % 4,
            fields_kept(old(self)@, final(self)@, 16, 2),
    {
        self.set_field(16, 2, value as u64);
        proof {
            vstd::arithmetic::power2::lemma2_to64();
            vstd::arithmetic::power2::lemma2_to64_rest();
        }
    }

    /// TX Preamble Symbol Repetitions
    pub fn txpsr(&mut self, value: u8)
        ensures
            field_written(old(self)@, final(self)@, 18, 2, value as u64),
            field_value(final(self)@, 18, 2) == (value as nat) % 4,
            fields_kept(old(self)@, final(self)@, 18, 2),
    {
        self.set_field(18, 2, value as u64);
        proof {
            vstd::arithmetic::power2::lemma2_to64();
            vstd::arithmetic::power2::lemma2_to64_rest();
        }
    }

    /// Preamble Extension
    pub fn pe(&mut self, value: u8)
        ensures
            field_written(old(self)@, final(self)@, 20, 2, value as u64),
            field_value(final(self)@, 20, 2) == (value as nat) % 4,
            fields_kept(old(self)@, final(self)@, 20, 2),
    {
        self.set_field(20, 2, value as u64);
        proof {
            vstd::arithmetic::power2::lemma2_to64();
            vstd::arithmetic::power2::lemma2_to64_rest();
        }
    }

    /// TX Buffer Index Offset
    pub fn txboffs(&mut self, value: u16)
        ensures
            field_written(old(self)@, final(self)@, 22, 10, value as u64),
            field_value(final(self)@, 22, 10) == (value as nat) % 0x400,
            fields_kept(old(self)@, final(self)@, 22, 10),
    {
        self.set_field(22, 10, value as u64);
        proof {
            vstd::arithmetic::power2::lemma2_to64();
            vstd::arithmetic::power2::lemma2_to64_rest();
        }
    }

    /// Inter-Frame Spacing
    pub fn ifsdelay(&mut self, value: u8)
        ensures
            field_written(old(self)@, final(self)@, 32, 8, value as u64),
            field_value(final(self)@, 32, 8) == value as nat,
            fields_kept(old(self)@, final(self)@, 32, 8),
    {
        self.set_field(32, 8, value as u64);
        proof {
            vstd::arithmetic::power2::lemma2_to64();
            vstd::arithmetic::power2::lemma2_to64_rest();
        }
    }

}

/// Delayed Send or Receive Time
#[allow(non_camel_case_types)]
pub struct DX_TIME;

impl Register for DX_TIME {
    open spec fn spec_id() -> u8 {
        0x0A
    }

    open spec fn spec_sub_id() -> u16 {
        0x00
    }

    open spec fn spec_len() -> usize {
        5
    }

    fn id() -> (r: u8) {
        0x0A
    }

    fn sub_id() -> (r: u16) {
        0x00
    }

    fn len() -> (r: usize) {
        5
    }
}

impl Readable for DX_TIME {}

impl Writable for DX_TIME {}

impl R<DX_TIME> {
    /// Delayed Send or Receive Time
    pub fn value(&self) -> (r: u64)
        ensures
            r == field_value(self@, 0, 40),
            r < 0x10000000000,
    {
        proof {
            crate::ll::bits::lemma_field_value_bound(self@, 0, 40);
            vstd::arithmetic::power2::lemma2_to64_rest();
        }
        self.field(0, 40)
    }

}

impl W<DX_TIME> {
    /// Delayed Send or Receive Time
    pub fn value(&mut self, value: u64)
        ensures
            field_written(old(self)@, final(self)@, 0, 40, value as u64),
            field_value(final(self)@, 0, 40) == (value as nat) % 0x10000000000,
            fields_kept(old(self)@, final(self)@, 0, 40),
    {
        self.set_field(0, 40, value as u64);
        proof {
            vstd::arithmetic::power2::lemma2_to64();
            vstd::arithmetic::power2::lemma2_to64_rest();
        }
    }

}

/// System Control Register
#[allow(non_camel_case_types)]
pub struct SYS_CTRL;

impl Register for SYS_CTRL {
    open spec fn spec_id() -> u8 {
        0x0D
    }

    open spec fn spec_sub_id() -> u16 {
        0x00
    }

    open spec fn spec_len() -> usize {
        4
    }

    fn id() -> (r: u8) {
        0x0D
    }

    fn sub_id() -> (r: u16) {
        0x00
    }

    fn len() -> (r: usize) {
        4
    }
}

impl Readable for SYS_CTRL {}

impl Writable for SYS_CTRL {}

impl R<SYS_CTRL> {
    /// Suppress Auto-FCS Transmission
    pub fn sfcst(&self) -> (r: u8)
        ensures
            r == field_value(self@, 0, 1),
            r < 2,
    {
        proof {
            crate::ll::bits::lemma_field_value_bound(self@, 0, 1);
            vstd::arithmetic::power2::lemma2_to64();
        }
        self.field(0, 1) as u8
    }

    /// Transmit Start
    pub fn txstrt(&self) -> (r: u8)
        ensures
            r == field_value(self@, 1, 1),
            r < 2,
    {
        proof {
            crate::ll::bits::lemma_field_value_bound(self@, 1, 1);
            vstd::arithmetic::power2::lemma2_to64();
        }
        self.field(1, 1) as u8
    }

    /// Transmitter Delayed Sending
    pub fn txdlys(&self) -> (r: u8)
        ensures
            r == field_value(self@, 2, 1),
            r < 2,
    {
        proof {
            crate::ll::bits::lemma_field_value_bound(self@, 2, 1);
            vstd::arithmetic::power2::lemma2_to64();
        }
        self.field(2, 1) as u8
    }

    /// Cancel Auto-FCS Suppression
    pub fn cansfcs(&self) -> (r: u8)
        ensures
            r == field_value(self@, 3, 1),
            r < 2,
    {
        proof {
            crate::ll::bits::lemma_field_value_bound(self@, 3, 1);
            vstd::arithmetic::power2::lemma2_to64();
        }
        self.field(3, 1) as u8
    }

    /// Transceiver Off
    pub fn trxoff(&self) -> (r: u8)
        ensures
            r == field_value(self@, 6, 1),
            r < 2,
    {
        proof {
            crate::ll::bits::lemma_field_value_bound(self@, 6, 1);
            vstd::arithmetic::power2::lemma2_to64();
        }
        self.field(6, 1) as u8
    }

    /// Wait for Response
    pub fn wait4resp(&self) -> (r: u8)
        ensures
            r == field_value(self@, 7, 1),
            r < 2,
    {
        proof {
            crate::ll::bits::lemma_field_value_bound(self@, 7, 1);
            vstd::arithmetic::power2::lemma2_to64();
        }
        self.field(7, 1) as u8
    }

    /// Enable Receiver
    pub fn rxenab(&self) -> (r: u8)
        ensures
            r == field_value(self@, 8, 1),
            r < 2,
    {
        proof {
            crate::ll::bits::lemma_field_value_bound(self@, 8, 1);
            vstd::arithmetic::power2::lemma2_to64();
        }
        self.field(8, 1) as u8
    }

    /// Receiver Delayed Enable
    pub fn rxdlye(&self) -> (r: u8)
        ensures
            r == field_value(self@, 9, 1),
            r < 2,
    {
        proof {
            crate::ll::bits::lemma_field_value_bound(self@, 9, 1);
            vstd::arithmetic::power2::lemma2_to64();
        }
        self.field(9, 1) as u8
    }

    /// Host Side RX Buffer Pointer Toggle
    pub fn hrbpt(&self) -> (r: u8)
        ensures
            r == field_value(self@, 24, 1),
            r < 2,
    {
        proof {
            crate::ll::bits::lemma_field_value_bound(self@, 24, 1);
            vstd::arithmetic::power2::lemma2_to64();
        }
        self.field(24, 1) as u8
    }

}

impl W<SYS_CTRL> {
    /// Suppress Auto-FCS Transmission
    pub fn sfcst(&mut self, value: u8)
        ensures
            field_written(old(self)@, final(self)@, 0, 1, value as u64),
            field_value(final(self)@, 0, 1) == (value as nat) % 2,
            fields_kept(old(self)@, final(self)@, 0, 1),
    {
        self.set_field(0, 1, value as u64);
        proof {
            vstd::arithmetic::power2::lemma2_to64();
            vstd::arithmetic::power2::lemma2_to64_rest();
        }
    }

    /// Transmit Start
    pub fn txstrt(&mut self, value: u8)
        ensures
            field_written(old(self)@, final(self)@, 1, 1, value as u64),
            field_value(final(self)@, 1, 1) == (value as nat) % 2,
            fields_kept(old(self)@, final(self)@, 1, 1),
    {
        self.set_field(1, 1, value as u64);
        proof {
            vstd::arithmetic::power2::lemma2_to64();
            vstd::arithmetic::power2::lemma2_to64_rest();
        }
    }

    /// Transmitter Delayed Sending
    pub fn txdlys(&mut self, value: u8)
        ensures
            field_written(old(self)@, final(self)@, 2, 1, value as u64),
            field_value(final(self)@, 2, 1) == (value as nat) % 2,
            fields_kept(old(self)@, final(self)@, 2, 1),
    {
        self.set_field(2, 1, value as u64);
        proof {
            vstd::arithmetic::power2::lemma2_to64();
            vstd::arithmetic::power2::lemma2_to64_rest();
        }
    }

    /// Cancel Auto-FCS Suppression
    pub fn cansfcs(&mut self, value: u8)
        ensures
            field_written(old(self)@, final(self)@, 3, 1, value as u64),
            field_value(final(self)@, 3, 1) == (value as nat) % 2,
            fields_kept(old(self)@, final(self)@, 3, 1),
    {
        self.set_field(3, 1, value as u64);
        proof {
            vstd::arithmetic::power2::lemma2_to64();
            vstd::arithmetic::power2::lemma2_to64_rest();
        }
    }

    /// Transceiver Off
    pub fn trxoff(&mut self, value: u8)
        ensures
            field_written(old(self)@, final(self)@, 6, 1, value as u64),
            field_value(final(self)@, 6, 1) == (value as nat) % 2,
            fields_kept(old(self)@, final(self)@, 6, 1),
    {
        self.set_field(6, 1, value as u64);
        proof {
            vstd::arithmetic::power2::lemma2_to64();
            vstd::arithmetic::power2::lemma2_to64_rest();
        }
    }

    /// Wait for Response
    pub fn wait4resp(&mut self, value: u8)
        ensures
            field_written(old(self)@, final(self)@, 7, 1, value as u64),
            field_value(final(self)@, 7, 1) == (value as nat) % 2,
            fields_kept(old(self)@, final(self)@, 7, 1),
    {
        self.set_field(7, 1, value as u64);
        proof {
            vstd::arithmetic::power2::lemma2_to64();
            vstd::arithmetic::power2::lemma2_to64_rest();
        }
    }

    /// Enable Receiver
    pub fn rxenab(&mut self, value: u8)
        ensures
            field_written(old(self)@, final(self)@, 8, 1, value as u64),
            field_value(final(self)@, 8, 1) == (value as nat) % 2,
            fields_kept(old(self)@, final(self)@, 8, 1),
    {
        self.set_field(8, 1, value as u64);
        proof {
            vstd::arithmetic::power2::lemma2_to64();
            vstd::arithmetic::power2::lemma2_to64_rest();
        }
    }

    /// Receiver Delayed Enable
    pub fn rxdlye(&mut self, value: u8)
        ensures
            field_written(old(self)@, final(self)@, 9, 1, value as u64),
            field_value(final(self)@, 9, 1) == (value as nat) % 2,
            fields_kept(old(self)@, final(self)@, 9, 1),
    {
        self.set_field(9, 1, value as u64);
        proof {
            vstd::arithmetic::power2::lemma2_to64();
            vstd::arithmetic::power2::lemma2_to64_rest();
        }
    }

    /// Host Side RX Buffer Pointer Toggle
    pub fn hrbpt(&mut self, value: u8)
        ensures
            field_written(old(self)@, final(self)@, 24, 1, value as u64),
            field_value(final(self)@, 24, 1) == (value as nat) % 2,
            fields_kept(old(self)@, final(self)@, 24, 1),
    {
        self.set_field(24, 1, value as u64);
        proof {
            vstd::arithmetic::power2::lemma2_to64();
            vstd::arithmetic::power2::lemma2_to64_rest();
        }
    }

}

/// System Event Mask Register
#[allow(non_camel_case_types)]
pub struct SYS_MASK;

impl Register for SYS_MASK {
    open spec fn spec_id() -> u8 {
        0x0E
    }

    open spec fn spec_sub_id() -> u16 {
        0x00
    }

    open spec fn spec_len() -> usize {
        4
    }

    fn id() -> (r: u8) {
        0x0E
    }

    fn sub_id() -> (r: u16) {
        0x00
    }

    fn len() -> (r: usize) {
        4
    }
}

impl Readable for SYS_MASK {}

impl Writable for SYS_MASK {}

impl R<SYS_MASK> {
    /// Mask clock PLL lock
    pub fn mcplock(&self) -> (r: u8)
        ensures
            r == field_value(self@, 1, 1),
            r < 2,
    {
        proof {
            crate::ll::bits::lemma_field_value_bound(self@, 1, 1);
            vstd::arithmetic::power2::lemma2_to64();
        }
        self.field(1, 1) as u8
    }

    /// Mask external sync clock reset
    pub fn mesyncr(&self) -> (r: u8)
        ensures
            r == field_value(self@, 2, 1),
            r < 2,
    {
        proof {
            crate::ll::bits::lemma_field_value_bound(self@, 2, 1);
            vstd::arithmetic::power2::lemma2_to64();
        }
        self.field(2, 1) as u8
    }

    /// Mask automatic acknowledge trigger
    pub fn maat(&self) -> (r: u8)
        ensures
            r == field_value(self@, 3, 1),
            r < 2,
    {
        proof {
            crate::ll::bits::lemma_field_value_bound(self@, 3, 1);
            vstd::arithmetic::power2::lemma2_to64();
        }
        self.field(3, 1) as u8
    }

    /// Mask transmit frame begins
    pub fn mtxfrbm(&self) -> (r: u8)
        ensures
            r == field_value(self@, 4, 1),
            r < 2,
    {
        proof {
            crate::ll::bits::lemma_field_value_bound(self@, 4, 1);
            vstd::arithmetic::power2::lemma2_to64();
        }
        self.field(4, 1) as u8
    }

    /// Mask transmit preamble sent
    pub fn mtxprs(&self) -> (r: u8)
        ensures
            r == field_value(self@, 5, 1),
            r < 2,
    {
        proof {
            crate::ll::bits::lemma_field_value_bound(self@, 5, 1);
            vstd::arithmetic::power2::lemma2_to64();
        }
        self.field(5, 1) as u8
    }

    /// Mask transmit PHY Header Sent
    pub fn mtxphs(&self) -> (r: u8)
        ensures
            r == field_value(self@, 6, 1),
            r < 2,
    {
        proof {
            crate::ll::bits::lemma_field_value_bound(self@, 6, 1);
            vstd::arithmetic::power2::lemma2_to64();
        }
        self.field(6, 1) as u8
    }

    /// Mask transmit frame sent
    pub fn mtxfrs(&self) -> (r: u8)
        ensures
            r == field_value(self@, 7, 1),
            r < 2,
    {
        proof {
            crate::ll::bits::lemma_field_value_bound(self@, 7, 1);
            vstd::arithmetic::power2::lemma2_to64();
        }
        self.field(7, 1) as u8
    }

    /// Mask receiver preamble detected
    pub fn mrxprd(&self) -> (r: u8)
        ensures
            r == field_value(self@, 8, 1),
            r < 2,
    {
        proof {
            crate::ll::bits::lemma_field_value_bound(self@, 8, 1);
            vstd::arithmetic::power2::lemma2_to64();
        }
        self.field(8, 1) as u8
    }

    /// Mask receiver SFD detected
    pub fn mrxsfdd(&self) -> (r: u8)
        ensures
            r == field_value(self@, 9, 1),
            r < 2,
    {
        proof {
            crate::ll::bits::lemma_field_value_bound(self@, 9, 1);
            vstd::arithmetic::power2::lemma2_to64();
        }
        self.field(9, 1) as u8
    }

    /// Mask LDE processing done
    pub fn mldedone(&self) -> (r: u8)
        ensures
            r == field_value(self@, 10, 1),
            r < 2,
    {
        proof {
            crate::ll::bits::lemma_field_value_bound(self@, 10, 1);
            vstd::arithmetic::power2::lemma2_to64();
        }
        self.field(10, 1) as u8
    }

    /// Mask receiver PHY header detect
    pub fn mrxphd(&self) -> (r: u8)
        ensures
            r == field_value(self@, 11, 1),
            r < 2,
    {
        proof {
            crate::ll::bits::lemma_field_value_bound(self@, 11, 1);
            vstd::arithmetic::power2::lemma2_to64();
        }
        self.field(11, 1) as u8
    }

    /// Mask receiver PHY header error
    pub fn mrxphe(&self) -> (r: u8)
        ensures
            r == field_value(self@, 12, 1),
            r < 2,
    {
        proof {
            crate::ll::bits::lemma_field_value_bound(self@, 12, 1);
            vstd::arithmetic::power2::lemma2_to64();
        }
        self.field(12, 1) as u8
    }

    /// Mask receiver data frame ready
    pub fn mrxdfr(&self) -> (r: u8)
        ensures
            r == field_value(self@, 13, 1),
            r < 2,
    {
        proof {
            crate::ll::bits::lemma_field_value_bound(self@, 13, 1);
            vstd::arithmetic::power2::lemma2_to64();
        }
        self.field(13, 1) as u8
    }

    /// Mask receiver FCS good
    pub fn mrxfcg(&self) -> (r: u8)
        ensures
            r == field_value(self@, 14, 1),
            r < 2,
    {
        proof {
            crate::ll::bits::lemma_field_value_bound(self@, 14, 1);
            vstd::arithmetic::power2::lemma2_to64();
        }
        self.field(14, 1) as u8
    }

    /// Mask receiver FCS error
    pub fn mrxfce(&self) -> (r: u8)
        ensures
            r == field_value(self@, 15, 1),
            r < 2,
    {
        proof {
            crate::ll::bits::lemma_field_value_bound(self@, 15, 1);
            vstd::arithmetic::power2::lemma2_to64();
        }
        self.field(15, 1) as u8
    }

    /// Mask receiver Reed Solomon Frame Sync loss
    pub fn mrxrfsl(&self) -> (r: u8)
        ensures
            r == field_value(self@, 16, 1),
            r < 2,
    {
        proof {
            crate::ll::bits::lemma_field_value_bound(self@, 16, 1);
            vstd::arithmetic::power2::lemma2_to64();
        }
        self.field(16, 1) as u8
    }

    /// Mask Receive Frame Wait Timeout
    pub fn mrxrfto(&self) -> (r: u8)
        ensures
            r == field_value(self@, 17, 1),
            r < 2,
    {
        proof {
            crate::ll::bits::lemma_field_value_bound(self@, 17, 1);
            vstd::arithmetic::power2::lemma2_to64();
        }
        self.field(17, 1) as u8
    }

    /// Mask leading edge detection processing error
    pub fn mldeerr(&self) -> (r: u8)
        ensures
            r == field_value(self@, 18, 1),
            r < 2,
    {
        proof {
            crate::ll::bits::lemma_field_value_bound(self@, 18, 1);
            vstd::arithmetic::power2::lemma2_to64();
        }
        self.field(18, 1) as u8
    }

    /// Mask Receiver Overrun
    pub fn mrxovrr(&self) -> (r: u8)
        ensures
            r == field_value(self@, 20, 1),
            r < 2,
    {
        proof {
            crate::ll::bits::lemma_field_value_bound(self@, 20, 1);
            vstd::arithmetic::power2::lemma2_to64();
        }
        self.field(20, 1) as u8
    }

    /// Mask Preamble detection timeout
    pub fn mrxpto(&self) -> (r: u8)
        ensures
            r == field_value(self@, 21, 1),
            r < 2,
    {
        proof {
            crate::ll::bits::lemma_field_value_bound(self@, 21, 1);
            vstd::arithmetic::power2::lemma2_to64();
        }
        self.field(21, 1) as u8
    }

    /// Mask GPIO interrupt
    pub fn mgpioirq(&self) -> (r: u8)
        ensures
            r == field_value(self@, 22, 1),
            r < 2,
    {
        proof {
            crate::ll::bits::lemma_field_value_bound(self@, 22, 1);
            vstd::arithmetic::power2::lemma2_to64();
        }
        self.field(22, 1) as u8
    }

    /// Mask SLEEP to INIT event
    pub fn mslp2init(&self) -> (r: u8)
        ensures
            r == field_value(self@, 23, 1),
            r < 2,
    {
        proof {
            crate::ll::bits::lemma_field_value_bound(self@, 23, 1);
            vstd::arithmetic::power2::lemma2_to64();
        }
        self.field(23, 1) as u8
    }

    /// Mask RF PLL Losing Lock warning
    pub fn mrfpllll(&self) -> (r: u8)
        ensures
            r == field_value(self@, 24, 1),
            r < 2,
    {
        proof {
            crate::ll::bits::lemma_field_value_bound(self@, 24, 1);
            vstd::arithmetic::power2::lemma2_to64();
        }
        self.field(24, 1) as u8
    }

    /// Mask Clock PLL Losing Lock warning
    pub fn mcpllll(&self) -> (r: u8)
        ensures
            r == field_value(self@, 25, 1),
            r < 2,
    {
        proof {
            crate::ll::bits::lemma_field_value_bound(self@, 25, 1);
            vstd::arithmetic::power2::lemma2_to64();
        }
        self.field(25, 1) as u8
    }

    /// Mask Receive SFD timeout
    pub fn mrxsfdto(&self) -> (r: u8)
        ensures
            r == field_value(self@, 26, 1),
            r < 2,
    {
        proof {
            crate::ll::bits::lemma_field_value_bound(self@, 26, 1);
            vstd::arithmetic::power2::lemma2_to64();
        }
        self.field(26, 1) as u8
    }

    /// Mask Half Period Delay Warning
    pub fn mhpdwarn(&self) -> (r: u8)
        ensures
            r == field_value(self@, 27, 1),
            r < 2,
    {
        proof {
            crate::ll::bits::lemma_field_value_bound(self@, 27, 1);
            vstd::arithmetic::power2::lemma2_to64();
        }
        self.field(27, 1) as u8
    }

    /// Mask Transmit Buffer Error
    pub fn mtxberr(&self) -> (r: u8)
        ensures
            r == field_value(self@, 28, 1),
            r < 2,
    {
        proof {
            crate::ll::bits::lemma_field_value_bound(self@, 28, 1);
            vstd::arithmetic::power2::lemma2_to64();
        }
        self.field(28, 1) as u8
    }

    /// Mask Automatic Frame Filtering rejection
    pub fn maffrej(&self) -> (r: u8)
        ensures
            r == field_value(self@, 29, 1),
            r < 2,
    {
        proof {
            crate::ll::bits::lemma_field_value_bound(self@, 29, 1);
            vstd::arithmetic::power2::lemma2_to64();
        }
        self.field(29, 1) as u8
    }

}

impl W<SYS_MASK> {
    /// Mask clock PLL lock
    pub fn mcplock(&mut self, value: u8)
        ensures
            field_written(old(self)@, final(self)@, 1, 1, value as u64),
            field_value(final(self)@, 1, 1) == (value as nat) % 2,
            fields_kept(old(self)@, final(self)@, 1, 1),
    {
        self.set_field(1, 1, value as u64);
        proof {
            vstd::arithmetic::power2::lemma2_to64();
            vstd::arithmetic::power2::lemma2_to64_rest();
        }
    }

    /// Mask external sync clock reset
    pub fn mesyncr(&mut self, value: u8)
        ensures
            field_written(old(self)@, final(self)@, 2, 1, value as u64),
            field_value(final(self)@, 2, 1) == (value as nat) % 2,
            fields_kept(old(self)@, final(self)@, 2, 1),
    {
        self.set_field(2, 1, value as u64);
        proof {
            vstd::arithmetic::power2::lemma2_to64();
            vstd::arithmetic::power2::lemma2_to64_rest();
        }
    }

    /// Mask automatic acknowledge trigger
    pub fn maat(&mut self, value: u8)
        ensures
            field_written(old(self)@, final(self)@, 3, 1, value as u64),
            field_value(final(self)@, 3, 1) == (value as nat) % 2,
            fields_kept(old(self)@, final(self)@, 3, 1),
    {
        self.set_field(3, 1, value as u64);
        proof {
            vstd::arithmetic::power2::lemma2_to64();
            vstd::arithmetic::power2::lemma2_to64_rest();
        }
    }

    /// Mask transmit frame begins
    pub fn mtxfrbm(&mut self, value: u8)
        ensures
            field_written(old(self)@, final(self)@, 4, 1, value as u64),
            field_value(final(self)@, 4, 1) == (value as nat) % 2,
            fields_kept(old(self)@, final(self)@, 4, 1),
    {
        self.set_field(4, 1, value as u64);
        proof {
            vstd::arithmetic::power2::lemma2_to64();
            vstd::arithmetic::power2::lemma2_to64_rest();
        }
    }

    /// Mask transmit preamble sent
    pub fn mtxprs(&mut self, value: u8)
        ensures
            field_written(old(self)@, final(self)@, 5, 1, value as u64),
            field_value(final(self)@, 5, 1) == (value as nat) % 2,
            fields_kept(old(self)@, final(self)@, 5, 1),
    {
        self.set_field(5, 1, value as u64);
        proof {
            vstd::arithmetic::power2::lemma2_to64();
            vstd::arithmetic::power2::lemma2_to64_rest();
        }
    }

    /// Mask transmit PHY Header Sent
    pub fn mtxphs(&mut self, value: u8)
        ensures
            field_written(old(self)@, final(self)@, 6, 1, value as u64),
            field_value(final(self)@, 6, 1) == (value as nat) % 2,
            fields_kept(old(self)@, final(self)@, 6, 1),
    {
        self.set_field(6, 1, value as u64);
        proof {
            vstd::arithmetic::power2::lemma2_to64();
            vstd::arithmetic::power2::lemma2_to64_rest();
        }
    }

    /// Mask transmit frame sent
    pub fn mtxfrs(&mut self, value: u8)
        ensures
            field_written(old(self)@, final(self)@, 7, 1, value as u64),
            field_value(final(self)@, 7, 1) == (value as nat) % 2,
            fields_kept(old(self)@, final(self)@, 7, 1),
    {
        self.set_field(7, 1, value as u64);
        proof {
            vstd::arithmetic::power2::lemma2_to64();
            vstd::arithmetic::power2::lemma2_to64_rest();
        }
    }

    /// Mask receiver preamble detected
    pub fn mrxprd(&mut self, value: u8)
        ensures
            field_written(old(self)@, final(self)@, 8, 1, value as u64),
            field_value(final(self)@, 8, 1) == (value as nat) % 2,
            fields_kept(old(self)@, final(self)@, 8, 1),
    {
        self.set_field(8, 1, value as u64);
        proof {
            vstd::arithmetic::power2::lemma2_to64();
            vstd::arithmetic::power2::lemma2_to64_rest();
        }
    }

    /// Mask receiver SFD detected
    pub fn mrxsfdd(&mut self, value: u8)
        ensures
            field_written(old(self)@, final(self)@, 9, 1, value as u64),
            field_value(final(self)@, 9, 1) == (value as nat) % 2,
            fields_kept(old(self)@, final(self)@, 9, 1),
    {
        self.set_field(9, 1, value as u64);
        proof {
            vstd::arithmetic::power2::lemma2_to64();
            vstd::arithmetic::power2::lemma2_to64_rest();
        }
    }

    /// Mask LDE processing done
    pub fn mldedone(&mut self, value: u8)
        ensures
            field_written(old(self)@, final(self)@, 10, 1, value as u64),
            field_value(final(self)@, 10, 1) == (value as nat) % 2,
            fields_kept(old(self)@, final(self)@, 10, 1),
    {
        self.set_field(10, 1, value as u64);
        proof {
            vstd::arithmetic::power2::lemma2_to64();
            vstd::arithmetic::power2::lemma2_to64_rest();
        }
    }

    /// Mask receiver PHY header detect
    pub fn mrxphd(&mut self, value: u8)
        ensures
            field_written(old(self)@, final(self)@, 11, 1, value as u64),
            field_value(final(self)@, 11, 1) == (value as nat) % 2,
            fields_kept(old(self)@, final(self)@, 11, 1),
    {
        self.set_field(11, 1, value as u64);
        proof {
            vstd::arithmetic::power2::lemma2_to64();
            vstd::arithmetic::power2::lemma2_to64_rest();
        }
    }

    /// Mask receiver PHY header error
    pub fn mrxphe(&mut self, value: u8)
        ensures
            field_written(old(self)@, final(self)@, 12, 1, value as u64),
            field_value(final(self)@, 12, 1) == (value as nat) % 2,
            fields_kept(old(self)@, final(self)@, 12, 1),
    {
        self.set_field(12, 1, value as u64);
        proof {
            vstd::arithmetic::power2::lemma2_to64();
            vstd::arithmetic::power2::lemma2_to64_rest();
        }
    }

    /// Mask receiver data frame ready
    pub fn mrxdfr(&mut self, value: u8)
        ensures
            field_written(old(self)@, final(self)@, 13, 1, value as u64),
            field_value(final(self)@, 13, 1) == (value as nat) % 2,
            fields_kept(old(self)@, final(self)@, 13, 1),
    {
        self.set_field(13, 1, value as u64);
        proof {
            vstd::arithmetic::power2::lemma2_to64();
            vstd::arithmetic::power2::lemma2_to64_rest();
        }
    }

    /// Mask receiver FCS good
    pub fn mrxfcg(&mut self, value: u8)
        ensures
            field_written(old(self)@, final(self)@, 14, 1, value as u64),
            field_value(final(self)@, 14, 1) == (value as nat) % 2,
            fields_kept(old(self)@, final(self)@, 14, 1),
    {
        self.set_field(14, 1, value as u64);
        proof {
            vstd::arithmetic::power2::lemma2_to64();
            vstd::arithmetic::power2::lemma2_to64_rest();
        }
    }

    /// Mask receiver FCS error
    pub fn mrxfce(&mut self, value: u8)
        ensures
            field_written(old(self)@, final(self)@, 15, 1, value as u64),
            field_value(final(self)@, 15, 1) == (value as nat) % 2,
            fields_kept(old(self)@, final(self)@, 15, 1),
    {
        self.set_field(15, 1, value as u64);
        proof {
            vstd::arithmetic::power2::lemma2_to64();
            vstd::arithmetic::power2::lemma2_to64_rest();
        }
    }

    /// Mask receiver Reed Solomon Frame Sync loss
    pub fn mrxrfsl(&mut self, value: u8)
        ensures
            field_written(old(self)@, final(self)@, 16, 1, value as u64),
            field_value(final(self)@, 16, 1) == (value as nat) % 2,
            fields_kept(old(self)@, final(self)@, 16, 1),
    {
        self.set_field(16, 1, value as u64);
        proof {
            vstd::arithmetic::power2::lemma2_to64();
            vstd::arithmetic::power2::lemma2_to64_rest();
        }
    }

    /// Mask Receive Frame Wait Timeout
    pub fn mrxrfto(&mut self, value: u8)
        ensures
            field_written(old(self)@, final(self)@, 17, 1, value as u64),
            field_value(final(self)@, 17, 1) == (value as nat) % 2,
            fields_kept(old(self)@, final(self)@, 17, 1),
    {
        self.set_field(17, 1, value as u64);
        proof {
            vstd::arithmetic::power2::lemma2_to64();
            vstd::arithmetic::power2::lemma2_to64_rest();
        }
    }

    /// Mask leading edge detection processing error
    pub fn mldeerr(&mut self, value: u8)
        ensures
            field_written(old(self)@, final(self)@, 18, 1, value as u64),
            field_value(final(self)@, 18, 1) == (value as nat) % 2,
            fields_kept(old(self)@, final(self)@, 18, 1),
    {
        self.set_field(18, 1, value as u64);
        proof {
            vstd::arithmetic::power2::lemma2_to64();
            vstd::arithmetic::power2::lemma2_to64_rest();
        }
    }

    /// Mask Receiver Overrun
    pub fn mrxovrr(&mut self, value: u8)
        ensures
            field_written(old(self)@, final(self)@, 20, 1, value as u64),
            field_value(final(self)@, 20, 1) == (value as nat) % 2,
            fields_kept(old(self)@, final(self)@, 20, 1),
    {
        self.set_field(20, 1, value as u64);
        proof {
            vstd::arithmetic::power2::lemma2_to64();
            vstd::arithmetic::power2::lemma2_to64_rest();
        }
    }

    /// Mask Preamble detection timeout
    pub fn mrxpto(&mut self, value: u8)
        ensures
            field_written(old(self)@, final(self)@, 21, 1, value as u64),
            field_value(final(self)@, 21, 1) == (value as nat) % 2,
            fields_kept(old(self)@, final(self)@, 21, 1),
    {
        self.set_field(21, 1, value as u64);
        proof {
            vstd::arithmetic::power2::lemma2_to64();
            vstd::arithmetic::power2::lemma2_to64_rest();
        }
    }

    /// Mask GPIO interrupt
    pub fn mgpioirq(&mut self, value: u8)
        ensures
            field_written(old(self)@, final(self)@, 22, 1, value as u64),
            field_value(final(self)@, 22, 1) == (value as nat) % 2,
            fields_kept(old(self)@, final(self)@, 22, 1),
    {
        self.set_field(22, 1, value as u64);
        proof {
            vstd::arithmetic::power2::lemma2_to64();
            vstd::arithmetic::power2::lemma2_to64_rest();
        }
    }

    /// Mask SLEEP to INIT event
    pub fn mslp2init(&mut self, value: u8)
        ensures
            field_written(old(self)@, final(self)@, 23, 1, value as u64),
            field_value(final(self)@, 23, 1) == (value as nat) % 2,
            fields_kept(old(self)@, final(self)@, 23, 1),
    {
        self.set_field(23, 1, value as u64);
        proof {
            vstd::arithmetic::power2::lemma2_to64();
            vstd::arithmetic::power2::lemma2_to64_rest();
        }
    }

    /// Mask RF PLL Losing Lock warning
    pub fn mrfpllll(&mut self, value: u8)
        ensures
            field_written(old(self)@, final(self)@, 24, 1, value as u64),
            field_value(final(self)@, 24, 1) == (value as nat) % 2,
            fields_kept(old(self)@, final(self)@, 24, 1),
    {
        self.set_field(24, 1, value as u64);
        proof {
            vstd::arithmetic::power2::lemma2_to64();
            vstd::arithmetic::power2::lemma2_to64_rest();
        }
    }

    /// Mask Clock PLL Losing Lock warning
    pub fn mcpllll(&mut self, value: u8)
        ensures
            field_written(old(self)@, final(self)@, 25, 1, value as u64),
            field_value(final(self)@, 25, 1) == (value as nat) % 2,
            fields_kept(old(self)@, final(self)@, 25, 1),
    {
        self.set_field(25, 1, value as u64);
        proof {
            vstd::arithmetic::power2::lemma2_to64();
            vstd::arithmetic::power2::lemma2_to64_rest();
        }
    }

    /// Mask Receive SFD timeout
    pub fn mrxsfdto(&mut self, value: u8)
        ensures
            field_written(old(self)@, final(self)@, 26, 1, value as u64),
            field_value(final(self)@, 26, 1) == (value as nat) % 2,
            fields_kept(old(self)@, final(self)@, 26, 1),
    {
        self.set_field(26, 1, value as u64);
        proof {
            vstd::arithmetic::power2::lemma2_to64();
            vstd::arithmetic::power2::lemma2_to64_rest();
        }
    }

    /// Mask Half Period Delay Warning
    pub fn mhpdwarn(&mut self, value: u8)
        ensures
            field_written(old(self)@, final(self)@, 27, 1, value as u64),
            field_value(final(self)@, 27, 1) == (value as nat) % 2,
            fields_kept(old(self)@, final(self)@, 27, 1),
    {
        self.set_field(27, 1, value as u64);
        proof {
            vstd::arithmetic::power2::lemma2_to64();
            vstd::arithmetic::power2::lemma2_to64_rest();
        }
    }

    /// Mask Transmit Buffer Error
    pub fn mtxberr(&mut self, value: u8)
        ensures
            field_written(old(self)@, final(self)@, 28, 1, value as u64),
            field_value(final(self)@, 28, 1) == (value as nat) % 2,
            fields_kept(old(self)@, final(self)@, 28, 1),
    {
        self.set_field(28, 1, value as u64);
        proof {
            vstd::arithmetic::power2::lemma2_to64();
            vstd::arithmetic::power2::lemma2_to64_rest();
        }
    }

    /// Mask Automatic Frame Filtering rejection
    pub fn maffrej(&mut self, value: u8)
        ensures
            field_written(old(self)@, final(self)@, 29, 1, value as u64),
            field_value(final(self)@, 29, 1) == (value as nat) % 2,
            fields_kept(old(self)@, final(self)@, 29, 1),
    {
        self.set_field(29, 1, value as u64);
        proof {
            vstd::arithmetic::power2::lemma2_to64();
            vstd::arithmetic::power2::lemma2_to64_rest();
        }
    }

}

/// System Event Status Register
#[allow(non_camel_case_types)]
pub struct SYS_STATUS;

impl Register for SYS_STATUS {
    open spec fn spec_id() -> u8 {
        0x0F
    }

    open spec fn spec_sub_id() -> u16 {
        0x00
    }

    open spec fn spec_len() -> usize {
        5
    }

    fn id() -> (r: u8) {
        0x0F
    }

    fn sub_id() -> (r: u16) {
        0x00
    }

    fn len() -> (r: usize) {
        5
    }
}

impl Readable for SYS_STATUS {}

impl Writable for SYS_STATUS {}

impl R<SYS_STATUS> {
    /// Interrupt Request Status
    pub fn irqs(&self) -> (r: u8)
        ensures
            r == field_value(self@, 0, 1),
            r < 2,
    {
        proof {
            crate::ll::bits::lemma_field_value_bound(self@, 0, 1);
            vstd::arithmetic::power2::lemma2_to64();
        }
        self.field(0, 1) as u8
    }

    /// Clock PLL Lock
    pub fn cplock(&self) -> (r: u8)
        ensures
            r == field_value(self@, 1, 1),
            r < 2,
    {
        proof {
            crate::ll::bits::lemma_field_value_bound(self@, 1, 1);
            vstd::arithmetic::power2::lemma2_to64();
        }
        self.field(1, 1) as u8
    }

    /// External Sync Clock Reset
    pub fn esyncr(&self) -> (r: u8)
        ensures
            r == field_value(self@, 2, 1),
            r < 2,
    {
        proof {
            crate::ll::bits::lemma_field_value_bound(self@, 2, 1);
            vstd::arithmetic::power2::lemma2_to64();
        }
        self.field(2, 1) as u8
    }

    /// Automatic Acknowledge Trigger
    pub fn aat(&self) -> (r: u8)
        ensures
            r == field_value(self@, 3, 1),
            r < 2,
    {
        proof {
            crate::ll::bits::lemma_field_value_bound(self@, 3, 1);
            vstd::arithmetic::power2::lemma2_to64();
        }
        self.field(3, 1) as u8
    }

    /// TX Frame Begins
    pub fn txfrb(&self) -> (r: u8)
        ensures
            r == field_value(self@, 4, 1),
            r < 2,
    {
        proof {
            crate::ll::bits::lemma_field_value_bound(self@, 4, 1);
            vstd::arithmetic::power2::lemma2_to64();
        }
        self.field(4, 1) as u8
    }

    /// TX Preamble Sent
    pub fn txprs(&self) -> (r: u8)
        ensures
            r == field_value(self@, 5, 1),
            r < 2,
    {
        proof {
            crate::ll::bits::lemma_field_value_bound(self@, 5, 1);
            vstd::arithmetic::power2::lemma2_to64();
        }
        self.field(5, 1) as u8
    }

    /// TX PHY Header Sent
    pub fn txphs(&self) -> (r: u8)
        ensures
            r == field_value(self@, 6, 1),
            r < 2,
    {
        proof {
            crate::ll::bits::lemma_field_value_bound(self@, 6, 1);
            vstd::arithmetic::power2::lemma2_to64();
        }
        self.field(6, 1) as u8
    }

    /// TX Frame Sent
    pub fn txfrs(&self) -> (r: u8)
        ensures
            r == field_value(self@, 7, 1),
            r < 2,
    {
        proof {
            crate::ll::bits::lemma_field_value_bound(self@, 7, 1);
            vstd::arithmetic::power2::lemma2_to64();
        }
        self.field(7, 1) as u8
    }

    /// RX Preamble Detected
    pub fn rxprd(&self) -> (r: u8)
        ensures
            r == field_value(self@, 8, 1),
            r < 2,
    {
        proof {
            crate::ll::bits::lemma_field_value_bound(self@, 8, 1);
            vstd::arithmetic::power2::lemma2_to64();
        }
        self.field(8, 1) as u8
    }

    /// RX SFD Detected
    pub fn rxsfdd(&self) -> (r: u8)
        ensures
            r == field_value(self@, 9, 1),
            r < 2,
    {
        proof {
            crate::ll::bits::lemma_field_value_bound(self@, 9, 1);
            vstd::arithmetic::power2::lemma2_to64();
        }
        self.field(9, 1) as u8
    }

    /// LDE Processing Done
    pub fn ldedone(&self) -> (r: u8)
        ensures
            r == field_value(self@, 10, 1),
            r < 2,
    {
        proof {
            crate::ll::bits::lemma_field_value_bound(self@, 10, 1);
            vstd::arithmetic::power2::lemma2_to64();
        }
        self.field(10, 1) as u8
    }

    /// RX PHY Header Detect
    pub fn rxphd(&self) -> (r: u8)
        ensures
            r == field_value(self@, 11, 1),
            r < 2,
    {
        proof {
            crate::ll::bits::lemma_field_value_bound(self@, 11, 1);
            vstd::arithmetic::power2::lemma2_to64();
        }
        self.field(11, 1) as u8
    }

    /// RX PHY Header Error
    pub fn rxphe(&self) -> (r: u8)
        ensures
            r == field_value(self@, 12, 1),
            r < 2,
    {
        proof {
            crate::ll::bits::lemma_field_value_bound(self@, 12, 1);
            vstd::arithmetic::power2::lemma2_to64();
        }
        self.field(12, 1) as u8
    }

    /// RX Data Frame Ready
    pub fn rxdfr(&self) -> (r: u8)
        ensures
            r == field_value(self@, 13, 1),
            r < 2,
    {
        proof {
            crate::ll::bits::lemma_field_value_bound(self@, 13, 1);
            vstd::arithmetic::power2::lemma2_to64();
        }
        self.field(13, 1) as u8
    }

    /// RX FCS Good
    pub fn rxfcg(&self) -> (r: u8)
        ensures
            r == field_value(self@, 14, 1),
            r < 2,
    {
        proof {
            crate::ll::bits::lemma_field_value_bound(self@, 14, 1);
            vstd::arithmetic::power2::lemma2_to64();
        }
        self.field(14, 1) as u8
    }

    /// RX FCS Error
    pub fn rxfce(&self) -> (r: u8)
        ensures
            r == field_value(self@, 15, 1),
            r < 2,
    {
        proof {
            crate::ll::bits::lemma_field_value_bound(self@, 15, 1);
            vstd::arithmetic::power2::lemma2_to64();
        }
        self.field(15, 1) as u8
    }

    /// RX Reed-Solomon Frame Sync Loss
    pub fn rxrfsl(&self) -> (r: u8)
        ensures
            r == field_value(self@, 16, 1),
            r < 2,
    {
        proof {
            crate::ll::bits::lemma_field_value_bound(self@, 16, 1);
            vstd::arithmetic::power2::lemma2_to64();
        }
        self.field(16, 1) as u8
    }

    /// RX Frame Wait Timeout
    pub fn rxrfto(&self) -> (r: u8)
        ensures
            r == field_value(self@, 17, 1),
            r < 2,
    {
        proof {
            crate::ll::bits::lemma_field_value_bound(self@, 17, 1);
            vstd::arithmetic::power2::lemma2_to64();
        }
        self.field(17, 1) as u8
    }

    /// Leading Edge Detection Error
    pub fn ldeerr(&self) -> (r: u8)
        ensures
            r == field_value(self@, 18, 1),
            r < 2,
    {
        proof {
            crate::ll::bits::lemma_field_value_bound(self@, 18, 1);
            vstd::arithmetic::power2::lemma2_to64();
        }
        self.field(18, 1) as u8
    }

    /// RX Overrun
    pub fn rxovrr(&self) -> (r: u8)
        ensures
            r == field_value(self@, 20, 1),
            r < 2,
    {
        proof {
            crate::ll::bits::lemma_field_value_bound(self@, 20, 1);
            vstd::arithmetic::power2::lemma2_to64();
        }
        self.field(20, 1) as u8
    }

    /// Preamble Detection Timeout
    pub fn rxpto(&self) -> (r: u8)
        ensures
            r == field_value(self@, 21, 1),
            r < 2,
    {
        proof {
            crate::ll::bits::lemma_field_value_bound(self@, 21, 1);
            vstd::arithmetic::power2::lemma2_to64();
        }
        self.field(21, 1) as u8
    }

    /// GPIO Interrupt
    pub fn gpioirq(&self) -> (r: u8)
        ensures
            r == field_value(self@, 22, 1),
            r < 2,
    {
        proof {
            crate::ll::bits::lemma_field_value_bound(self@, 22, 1);
            vstd::arithmetic::power2::lemma2_to64();
        }
        self.field(22, 1) as u8
    }

    /// SLEEP to INIT
    pub fn slp2init(&self) -> (r: u8)
        ensures
            r == field_value(self@, 23, 1),
            r < 2,
    {
        proof {
            crate::ll::bits::lemma_field_value_bound(self@, 23, 1);
            vstd::arithmetic::power2::lemma2_to64();
        }
        self.field(23, 1) as u8
    }

    /// RF PLL Losing Lock
    pub fn rfpll_ll(&self) -> (r: u8)
        ensures
            r == field_value(self@, 24, 1),
            r < 2,
    {
        proof {
            crate::ll::bits::lemma_field_value_bound(self@, 24, 1);
            vstd::arithmetic::power2::lemma2_to64();
        }
        self.field(24, 1) as u8
    }

    /// Clock PLL Losing Lock
    pub fn clkpll_ll(&self) -> (r: u8)
        ensures
            r == field_value(self@, 25, 1),
            r < 2,
    {
        proof {
            crate::ll::bits::lemma_field_value_bound(self@, 25, 1);
            vstd::arithmetic::power2::lemma2_to64();
        }
        self.field(25, 1) as u8
    }

    /// Receive SFD Timeout
    pub fn rxsfdto(&self) -> (r: u8)
        ensures
            r == field_value(self@, 26, 1),
            r < 2,
    {
        proof {
            crate::ll::bits::lemma_field_value_bound(self@, 26, 1);
            vstd::arithmetic::power2::lemma2_to64();
        }
        self.field(26, 1) as u8
    }

    /// Half Period Delay Warning
    pub fn hpdwarn(&self) -> (r: u8)
        ensures
            r == field_value(self@, 27, 1),
            r < 2,
    {
        proof {
            crate::ll::bits::lemma_field_value_bound(self@, 27, 1);
            vstd::arithmetic::power2::lemma2_to64();
        }
        self.field(27, 1) as u8
    }

    /// TX Buffer Error
    pub fn txberr(&self) -> (r: u8)
        ensures
            r == field_value(self@, 28, 1),
            r < 2,
    {
        proof {
            crate::ll::bits::lemma_field_value_bound(self@, 28, 1);
            vstd::arithmetic::power2::lemma2_to64();
        }
        self.field(28, 1) as u8
    }

    /// Auto Frame Filtering Rejection
    pub fn affrej(&self) -> (r: u8)
        ensures
            r == field_value(self@, 29, 1),
            r < 2,
    {
        proof {
            crate::ll::bits::lemma_field_value_bound(self@, 29, 1);
            vstd::arithmetic::power2::lemma2_to64();
        }
        self.field(29, 1) as u8
    }

    /// Host Side RX Buffer Pointer
    pub fn hsrbp(&self) -> (r: u8)
        ensures
            r == field_value(self@, 30, 1),
            r < 2,
    {
        proof {
            crate::ll::bits::lemma_field_value_bound(self@, 30, 1);
            vstd::arithmetic::power2::lemma2_to64();
        }
        self.field(30, 1) as u8
    }

    /// IC Side RX Buffer Pointer
    pub fn icrbp(&self) -> (r: u8)
        ensures
            r == field_value(self@, 31, 1),
            r < 2,
    {
        proof {
            crate::ll::bits::lemma_field_value_bound(self@, 31, 1);
            vstd::arithmetic::power2::lemma2_to64();
        }
        self.field(31, 1) as u8
    }

    /// RX Reed-Solomon Correction Status
    pub fn rxrscs(&self) -> (r: u8)
        ensures
            r == field_value(self@, 32, 1),
            r < 2,
    {
        proof {
            crate::ll::bits::lemma_field_value_bound(self@, 32, 1);
            vstd::arithmetic::power2::lemma2_to64();
        }
        self.field(32, 1) as u8
    }

    /// RX Preamble Rejection
    pub fn rxprej(&self) -> (r: u8)
        ensures
            r == field_value(self@, 33, 1),
            r < 2,
    {
        proof {
            crate::ll::bits::lemma_field_value_bound(self@, 33, 1);
            vstd::arithmetic::power2::lemma2_to64();
        }
        self.field(33, 1) as u8
    }

    /// TX Power Up Time Error
    pub fn txpute(&self) -> (r: u8)
        ensures
            r == field_value(self@, 34, 1),
            r < 2,
    {
        proof {
            crate::ll::bits::lemma_field_value_bound(self@, 34, 1);
            vstd::arithmetic::power2::lemma2_to64();
        }
        self.field(34, 1) as u8
    }

}

impl W<SYS_STATUS> {
    /// Interrupt Request Status
    pub fn irqs(&mut self, value: u8)
        ensures
            field_written(old(self)@, final(self)@, 0, 1, value as u64),
            field_value(final(self)@, 0, 1) == (value as nat) % 2,
            fields_kept(old(self)@, final(self)@, 0, 1),
    {
        self.set_field(0, 1, value as u64);
        proof {
            vstd::arithmetic::power2::lemma2_to64();
            vstd::arithmetic::power2::lemma2_to64_rest();
        }
    }

    /// Clock PLL Lock
    pub fn cplock(&mut self, value: u8)
        ensures
            field_written(old(self)@, final(self)@, 1, 1, value as u64),
            field_value(final(self)@, 1, 1) == (value as nat) % 2,
            fields_kept(old(self)@, final(self)@, 1, 1),
    {
        self.set_field(1, 1, value as u64);
        proof {
            vstd::arithmetic::power2::lemma2_to64();
            vstd::arithmetic::power2::lemma2_to64_rest();
        }
    }

    /// External Sync Clock Reset
    pub fn esyncr(&mut self, value: u8)
        ensures
            field_written(old(self)@, final(self)@, 2, 1, value as u64),
            field_value(final(self)@, 2, 1) == (value as nat) % 2,
            fields_kept(old(self)@, final(self)@, 2, 1),
    {
        self.set_field(2, 1, value as u64);
        proof {
            vstd::arithmetic::power2::lemma2_to64();
            vstd::arithmetic::power2::lemma2_to64_rest();
        }
    }

    /// Automatic Acknowledge Trigger
    pub fn aat(&mut self, value: u8)
        ensures
            field_written(old(self)@, final(self)@, 3, 1, value as u64),
            field_value(final(self)@, 3, 1) == (value as nat) % 2,
            fields_kept(old(self)@, final(self)@, 3, 1),
    {
        self.set_field(3, 1, value as u64);
        proof {
            vstd::arithmetic::power2::lemma2_to64();
            vstd::arithmetic::power2::lemma2_to64_rest();
        }
    }

    /// TX Frame Begins
    pub fn txfrb(&mut self, value: u8)
        ensures
            field_written(old(self)@, final(self)@, 4, 1, value as u64),
            field_value(final(self)@, 4, 1) == (value as nat) % 2,
            fields_kept(old(self)@, final(self)@, 4, 1),
    {
        self.set_field(4, 1, value as u64);
        proof {
            vstd::arithmetic::power2::lemma2_to64();
            vstd::arithmetic::power2::lemma2_to64_rest();
        }
    }

    /// TX Preamble Sent
    pub fn txprs(&mut self, value: u8)
        ensures
            field_written(old(self)@, final(self)@, 5, 1, value as u64),
            field_value(final(self)@, 5, 1) == (value as nat) % 2,
            fields_kept(old(self)@, final(self)@, 5, 1),
    {
        self.set_field(5, 1, value as u64);
        proof {
            vstd::arithmetic::power2::lemma2_to64();
            vstd::arithmetic::power2::lemma2_to64_rest();
        }
    }

    /// TX PHY Header Sent
    pub fn txphs(&mut self, value: u8)
        ensures
            field_written(old(self)@, final(self)@, 6, 1, value as u64),
            field_value(final(self)@, 6, 1) == (value as nat) % 2,
            fields_kept(old(self)@, final(self)@, 6, 1),
    {
        self.set_field(6, 1, value as u64);
        proof {
            vstd::arithmetic::power2::lemma2_to64();
            vstd::arithmetic::power2::lemma2_to64_rest();
        }
    }

    /// TX Frame Sent
    pub fn txfrs(&mut self, value: u8)
        ensures
            field_written(old(self)@, final(self)@, 7, 1, value as u64),
            field_value(final(self)@, 7, 1) == (value as nat) % 2,
            fields_kept(old(self)@, final(self)@, 7, 1),
    {
        self.set_field(7, 1, value as u64);
        proof {
            vstd::arithmetic::power2::lemma2_to64();
            vstd::arithmetic::power2::lemma2_to64_rest();
        }
    }

    /// RX Preamble Detected
    pub fn rxprd(&mut self, value: u8)
        ensures
            field_written(old(self)@, final(self)@, 8, 1, value as u64),
            field_value(final(self)@, 8, 1) == (value as nat) % 2,
            fields_kept(old(self)@, final(self)@, 8, 1),
    {
        self.set_field(8, 1, value as u64);
        proof {
            vstd::arithmetic::power2::lemma2_to64();
            vstd::arithmetic::power2::lemma2_to64_rest();
        }
    }

    /// RX SFD Detected
    pub fn rxsfdd(&mut self, value: u8)
        ensures
            field_written(old(self)@, final(self)@, 9, 1, value as u64),
            field_value(final(self)@, 9, 1) == (value as nat) % 2,
            fields_kept(old(self)@, final(self)@, 9, 1),
    {
        self.set_field(9, 1, value as u64);
        proof {
            vstd::arithmetic::power2::lemma2_to64();
            vstd::arithmetic::power2::lemma2_to64_rest();
        }
    }

    /// LDE Processing Done
    pub fn ldedone(&mut self, value: u8)
        ensures
            field_written(old(self)@, final(self)@, 10, 1, value as u64),
            field_value(final(self)@, 10, 1) == (value as nat) % 2,
            fields_kept(old(self)@, final(self)@, 10, 1),
    {
        self.set_field(10, 1, value as u64);
        proof {
            vstd::arithmetic::power2::lemma2_to64();
            vstd::arithmetic::power2::lemma2_to64_rest();
        }
    }

    /// RX PHY Header Detect
    pub fn rxphd(&mut self, value: u8)
        ensures
            field_written(old(self)@, final(self)@, 11, 1, value as u64),
            field_value(final(self)@, 11, 1) == (value as nat) % 2,
            fields_kept(old(self)@, final(self)@, 11, 1),
    {
        self.set_field(11, 1, value as u64);
        proof {
            vstd::arithmetic::power2::lemma2_to64();
            vstd::arithmetic::power2::lemma2_to64_rest();
        }
    }

    /// RX PHY Header Error
    pub fn rxphe(&mut self, value: u8)
        ensures
            field_written(old(self)@, final(self)@, 12, 1, value as u64),
            field_value(final(self)@, 12, 1) == (value as nat) % 2,
            fields_kept(old(self)@, final(self)@, 12, 1),
    {
        self.set_field(12, 1, value as u64);
        proof {
            vstd::arithmetic::power2::lemma2_to64();
            vstd::arithmetic::power2::lemma2_to64_rest();
        }
    }

    /// RX Data Frame Ready
    pub fn rxdfr(&mut self, value: u8)
        ensures
            field_written(old(self)@, final(self)@, 13, 1, value as u64),
            field_value(final(self)@, 13, 1) == (value as nat) % 2,
            fields_kept(old(self)@, final(self)@, 13, 1),
    {
        self.set_field(13, 1, value as u64);
        proof {
            vstd::arithmetic::power2::lemma2_to64();
            vstd::arithmetic::power2::lemma2_to64_rest();
        }
    }

    /// RX FCS Good
    pub fn rxfcg(&mut self, value: u8)
        ensures
            field_written(old(self)@, final(self)@, 14, 1, value as u64),
            field_value(final(self)@, 14, 1) == (value as nat) % 2,
            fields_kept(old(self)@, final(self)@, 14, 1),
    {
        self.set_field(14, 1, value as u64);
        proof {
            vstd::arithmetic::power2::lemma2_to64();
            vstd::arithmetic::power2::lemma2_to64_rest();
        }
    }

    /// RX FCS Error
    pub fn rxfce(&mut self, value: u8)
        ensures
            field_written(old(self)@, final(self)@, 15, 1, value as u64),
            field_value(final(self)@, 15, 1) == (value as nat) % 2,
            fields_kept(old(self)@, final(self)@, 15, 1),
    {
        self.set_field(15, 1, value as u64);
        proof {
            vstd::arithmetic::power2::lemma2_to64();
            vstd::arithmetic::power2::lemma2_to64_rest();
        }
    }

    /// RX Reed-Solomon Frame Sync Loss
    pub fn rxrfsl(&mut self, value: u8)
        ensures
            field_written(old(self)@, final(self)@, 16, 1, value as u64),
            field_value(final(self)@, 16, 1) == (value as nat) % 2,
            fields_kept(old(self)@, final(self)@, 16, 1),
    {
        self.set_field(16, 1, value as u64);
        proof {
            vstd::arithmetic::power2::lemma2_to64();
            vstd::arithmetic::power2::lemma2_to64_rest();
        }
    }

    /// RX Frame Wait Timeout
    pub fn rxrfto(&mut self, value: u8)
        ensures
            field_written(old(self)@, final(self)@, 17, 1, value as u64),
            field_value(final(self)@, 17, 1) == (value as nat) % 2,
            fields_kept(old(self)@, final(self)@, 17, 1),
    {
        self.set_field(17, 1, value as u64);
        proof {
            vstd::arithmetic::power2::lemma2_to64();
            vstd::arithmetic::power2::lemma2_to64_rest();
        }
    }

    /// Leading Edge Detection Error
    pub fn ldeerr(&mut self, value: u8)
        ensures
            field_written(old(self)@, final(self)@, 18, 1, value as u64),
            field_value(final(self)@, 18, 1) == (value as nat) % 2,
            fields_kept(old(self)@, final(self)@, 18, 1),
    {
        self.set_field(18, 1, value as u64);
        proof {
            vstd::arithmetic::power2::lemma2_to64();
            vstd::arithmetic::power2::lemma2_to64_rest();
        }
    }

    /// RX Overrun
    pub fn rxovrr(&mut self, value: u8)
        ensures
            field_written(old(self)@, final(self)@, 20, 1, value as u64),
            field_value(final(self)@, 20, 1) == (value as nat) % 2,
            fields_kept(old(self)@, final(self)@, 20, 1),
    {
        self.set_field(20, 1, value as u64);
        proof {
            vstd::arithmetic::power2::lemma2_to64();
            vstd::arithmetic::power2::lemma2_to64_rest();
        }
    }

    /// Preamble Detection Timeout
    pub fn rxpto(&mut self, value: u8)
        ensures
            field_written(old(self)@, final(self)@, 21, 1, value as u64),
            field_value(final(self)@, 21, 1) == (value as nat) % 2,
            fields_kept(old(self)@, final(self)@, 21, 1),
    {
        self.set_field(21, 1, value as u64);
        proof {
            vstd::arithmetic::power2::lemma2_to64();
            vstd::arithmetic::power2::lemma2_to64_rest();
        }
    }

    /// GPIO Interrupt
    pub fn gpioirq(&mut self, value: u8)
        ensures
            field_written(old(self)@, final(self)@, 22, 1, value as u64),
            field_value(final(self)@, 22, 1) == (value as nat) % 2,
            fields_kept(old(self)@, final(self)@, 22, 1),
    {
        self.set_field(22, 1, value as u64);
        proof {
            vstd::arithmetic::power2::lemma2_to64();
            vstd::arithmetic::power2::lemma2_to64_rest();
        }
    }

    /// SLEEP to INIT
    pub fn slp2init(&mut self, value: u8)
        ensures
            field_written(old(self)@, final(self)@, 23, 1, value as u64),
            field_value(final(self)@, 23, 1) == (value as nat) % 2,
            fields_kept(old(self)@, final(self)@, 23, 1),
    {
        self.set_field(23, 1, value as u64);
        proof {
            vstd::arithmetic::power2::lemma2_to64();
            vstd::arithmetic::power2::lemma2_to64_rest();
        }
    }

    /// RF PLL Losing Lock
    pub fn rfpll_ll(&mut self, value: u8)
        ensures
            field_written(old(self)@, final(self)@, 24, 1, value as u64),
            field_value(final(self)@, 24, 1) == (value as nat) % 2,
            fields_kept(old(self)@, final(self)@, 24, 1),
    {
        self.set_field(24, 1, value as u64);
        proof {
            vstd::arithmetic::power2::lemma2_to64();
            vstd::arithmetic::power2::lemma2_to64_rest();
        }
    }

    /// Clock PLL Losing Lock
    pub fn clkpll_ll(&mut self, value: u8)
        ensures
            field_written(old(self)@, final(self)@, 25, 1, value as u64),
            field_value(final(self)@, 25, 1) == (value as nat) % 2,
            fields_kept(old(self)@, final(self)@, 25, 1),
    {
        self.set_field(25, 1, value as u64);
        proof {
            vstd::arithmetic::power2::lemma2_to64();
            vstd::arithmetic::power2::lemma2_to64_rest();
        }
    }

    /// Receive SFD Timeout
    pub fn rxsfdto(&mut self, value: u8)
        ensures
            field_written(old(self)@, final(self)@, 26, 1, value as u64),
            field_value(final(self)@, 26, 1) == (value as nat) % 2,
            fields_kept(old(self)@, final(self)@, 26, 1),
    {
        self.set_field(26, 1, value as u64);
        proof {
            vstd::arithmetic::power2::lemma2_to64();
            vstd::arithmetic::power2::lemma2_to64_rest();
        }
    }

    /// Half Period Delay Warning
    pub fn hpdwarn(&mut self, value: u8)
        ensures
            field_written(old(self)@, final(self)@, 27, 1, value as u64),
            field_value(final(self)@, 27, 1) == (value as nat) % 2,
            fields_kept(old(self)@, final(self)@, 27, 1),
    {
        self.set_field(27, 1, value as u64);
        proof {
            vstd::arithmetic::power2::lemma2_to64();
            vstd::arithmetic::power2::lemma2_to64_rest();
        }
    }

    /// TX Buffer Error
    pub fn txberr(&mut self, value: u8)
        ensures
            field_written(old(self)@, final(self)@, 28, 1, value as u64),
            field_value(final(self)@, 28, 1) == (value as nat) % 2,
            fields_kept(old(self)@, final(self)@, 28, 1),
    {
        self.set_field(28, 1, value as u64);
        proof {
            vstd::arithmetic::power2::lemma2_to64();
            vstd::arithmetic::power2::lemma2_to64_rest();
        }
    }

    /// Auto Frame Filtering Rejection
    pub fn affrej(&mut self, value: u8)
        ensures
            field_written(old(self)@, final(self)@, 29, 1, value as u64),
            field_value(final(self)@, 29, 1) == (value as nat) % 2,
            fields_kept(old(self)@, final(self)@, 29, 1),
    {
        self.set_field(29, 1, value as u64);
        proof {
            vstd::arithmetic::power2::lemma2_to64();
            vstd::arithmetic::power2::lemma2_to64_rest();
        }
    }

    /// Host Side RX Buffer Pointer
    pub fn hsrbp(&mut self, value: u8)
        ensures
            field_written(old(self)@, final(self)@, 30, 1, value as u64),
            field_value(final(self)@, 30, 1) == (value as nat) % 2,
            fields_kept(old(self)@, final(self)@, 30, 1),
    {
        self.set_field(30, 1, value as u64);
        proof {
            vstd::arithmetic::power2::lemma2_to64();
            vstd::arithmetic::power2::lemma2_to64_rest();
        }
    }

    /// IC Side RX Buffer Pointer
    pub fn icrbp(&mut self, value: u8)
        ensures
            field_written(old(self)@, final(self)@, 31, 1, value as u64),
            field_value(final(self)@, 31, 1) == (value as nat) % 2,
            fields_kept(old(self)@, final(self)@, 31, 1),
    {
        self.set_field(31, 1, value as u64);
        proof {
            vstd::arithmetic::power2::lemma2_to64();
            vstd::arithmetic::power2::lemma2_to64_rest();
        }
    }

    /// RX Reed-Solomon Correction Status
    pub fn rxrscs(&mut self, value: u8)
        ensures
            field_written(old(self)@, final(self)@, 32, 1, value as u64),
            field_value(final(self)@, 32, 1) == (value as nat) % 2,
            fields_kept(old(self)@, final(self)@, 32, 1),
    {
        self.set_field(32, 1, value as u64);
        proof {
            vstd::arithmetic::power2::lemma2_to64();
            vstd::arithmetic::power2::lemma2_to64_rest();
        }
    }

    /// RX Preamble Rejection
    pub fn rxprej(&mut self, value: u8)
        ensures
            field_written(old(self)@, final(self)@, 33, 1, value as u64),
            field_value(final(self)@, 33, 1) == (value as nat) % 2,
            fields_kept(old(self)@, final(self)@, 33, 1),
    {
        self.set_field(33, 1, value as u64);
        proof {
            vstd::arithmetic::power2::lemma2_to64();
            vstd::arithmetic::power2::lemma2_to64_rest();
        }
    }

    /// TX Power Up Time Error
    pub fn txpute(&mut self, value: u8)
        ensures
            field_written(old(self)@, final(self)@, 34, 1, value as u64),
            field_value(final(self)@, 34, 1) == (value as nat) % 2,
            fields_kept(old(self)@, final(self)@, 34, 1),
    {
        self.set_field(34, 1, value as u64);
        proof {
            vstd::arithmetic::power2::lemma2_to64();
            vstd::arithmetic::power2::lemma2_to64_rest();
        }
    }

}

/// RX Frame Information
#[allow(non_camel_case_types)]
pub struct RX_FINFO;

impl Register for RX_FINFO {
    open spec fn spec_id() -> u8 {
        0x10
    }

    open spec fn spec_sub_id() -> u16 {
        0x00
    }

    open spec fn spec_len() -> usize {
        4
    }

    fn id() -> (r: u8) {
        0x10
    }

    fn sub_id() -> (r: u16) {
        0x00
    }

    fn len() -> (r: usize) {
        4
    }
}

impl Readable for RX_FINFO {}

impl R<RX_FINFO> {
    /// Receive Frame Length
    pub fn rxflen(&self) -> (r: u8)
        ensures
            r == field_value(self@, 0, 7),
            r < 128,
    {
        proof {
            crate::ll::bits::lemma_field_value_bound(self@, 0, 7);
            vstd::arithmetic::power2::lemma2_to64();
        }
        self.field(0, 7) as u8
    }

    /// Receive Frame Length Extension
    pub fn rxfle(&self) -> (r: u8)
        ensures
            r == field_value(self@, 7, 3),
            r < 8,
    {
        proof {
            crate::ll::bits::lemma_field_value_bound(self@, 7, 3);
            vstd::arithmetic::power2::lemma2_to64();
        }
        self.field(7, 3) as u8
    }

    /// Receive Non-Standard Preamble Length
    pub fn rxnspl(&self) -> (r: u8)
        ensures
            r == field_value(self@, 11, 2),
            r < 4,
    {
        proof {
            crate::ll::bits::lemma_field_value_bound(self@, 11, 2);
            vstd::arithmetic::power2::lemma2_to64();
        }
        self.field(11, 2) as u8
    }

    /// Receive Bit Rate Report
    pub fn rxbr(&self) -> (r: u8)
        ensures
            r == field_value(self@, 13, 2),
            r < 4,
    {
        proof {
            crate::ll::bits::lemma_field_value_bound(self@, 13, 2);
            vstd::arithmetic::power2::lemma2_to64();
        }
        self.field(13, 2) as u8
    }

    /// Receiver Ranging
    pub fn rng(&self) -> (r: u8)
        ensures
            r == field_value(self@, 15, 1),
            r < 2,
    {
        proof {
            crate::ll::bits::lemma_field_value_bound(self@, 15, 1);
            vstd::arithmetic::power2::lemma2_to64();
        }
        self.field(15, 1) as u8
    }

    /// RX Pulse Repetition Rate Report
    pub fn rxprfr(&self) -> (r: u8)
        ensures
            r == field_value(self@, 16, 2),
            r < 4,
    {
        proof {
            crate::ll::bits::lemma_field_value_bound(self@, 16, 2);
            vstd::arithmetic::power2::lemma2_to64();
        }
        self.field(16, 2) as u8
    }

    /// RX Preamble Repetition
    pub fn rxpsr(&self) -> (r: u8)
        ensures
            r == field_value(self@, 18, 2),
            r < 4,
    {
        proof {
            crate::ll::bits::lemma_field_value_bound(self@, 18, 2);
            vstd::arithmetic::power2::lemma2_to64();
        }
        self.field(18, 2) as u8
    }

    /// Preamble Accumulation Count
    pub fn rxpacc(&self) -> (r: u16)
        ensures
            r == field_value(self@, 20, 12),
            r < 0x1000,
    {
        proof {
            crate::ll::bits::lemma_field_value_bound(self@, 20, 12);
            vstd::arithmetic::power2::lemma2_to64();
        }
        self.field(20, 12) as u16
    }

}

/// Rx Frame Quality Information
#[allow(non_camel_case_types)]
pub struct RX_FQUAL;

impl Register for RX_FQUAL {
    open spec fn spec_id() -> u8 {
        0x12
    }

    open spec fn spec_sub_id() -> u16 {
        0x00
    }

    open spec fn spec_len() -> usize {
        8
    }

    fn id() -> (r: u8) {
        0x12
    }

    fn sub_id() -> (r: u16) {
        0x00
    }

    fn len() -> (r: usize) {
        8
    }
}

impl Readable for RX_FQUAL {}

impl R<RX_FQUAL> {
    /// Standard Deviation of Noise
    pub fn std_noise(&self) -> (r: u16)
        ensures
            r == field_value(self@, 0, 16),
            r < 0x10000,
    {
        proof {
            crate::ll::bits::lemma_field_value_bound(self@, 0, 16);
            vstd::arithmetic::power2::lemma2_to64();
        }
        self.field(0, 16) as u16
    }

    /// First Path Amplitude point 2
    pub fn fp_ampl2(&self) -> (r: u16)
        ensures
            r == field_value(self@, 16, 16),
            r < 0x10000,
    {
        proof {
            crate::ll::bits::lemma_field_value_bound(self@, 16, 16);
            vstd::arithmetic::power2::lemma2_to64();
        }
        self.field(16, 16) as u16
    }

    /// First Path Amplitude point 3
    pub fn fp_ampl3(&self) -> (r: u16)
        ensures
            r == field_value(self@, 32, 16),
            r < 0x10000,
    {
        proof {
            crate::ll::bits::lemma_field_value_bound(self@, 32, 16);
            vstd::arithmetic::power2::lemma2_to64();
        }
        self.field(32, 16) as u16
    }

    /// Channel Impulse Response Power
    pub fn cir_pwr(&self) -> (r: u16)
        ensures
            r == field_value(self@, 48, 16),
            r < 0x10000,
    {
        proof {
            crate::ll::bits::lemma_field_value_bound(self@, 48, 16);
            vstd::arithmetic::power2::lemma2_to64();
        }
        self.field(48, 16) as u16
    }

}

/// Receiver Time Tracking Interval
#[allow(non_camel_case_types)]
pub struct RX_TTCKI;

impl Register for RX_TTCKI {
    open spec fn spec_id() -> u8 {
        0x13
    }

    open spec fn spec_sub_id() -> u16 {
        0x00
    }

    open spec fn spec_len() -> usize {
        4
    }

    fn id() -> (r: u8) {
        0x13
    }

    fn sub_id() -> (r: u16) {
        0x00
    }

    fn len() -> (r: usize) {
        4
    }
}

impl Readable for RX_TTCKI {}

impl R<RX_TTCKI> {
    /// Value of the register
    pub fn value(&self) -> (r: u32)
        ensures
            r == field_value(self@, 0, 32),
            r < 0x100000000,
    {
        proof {
            crate::ll::bits::lemma_field_value_bound(self@, 0, 32);
            vstd::arithmetic::power2::lemma2_to64();
        }
        self.field(0, 32) as u32
    }

}

/// Receiver Time Tracking Offset
#[allow(non_camel_case_types)]
pub struct RX_TTCKO;

impl Register for RX_TTCKO {
    open spec fn spec_id() -> u8 {
        0x14
    }

    open spec fn spec_sub_id() -> u16 {
        0x00
    }

    open spec fn spec_len() -> usize {
        5
    }

    fn id() -> (r: u8) {
        0x14
    }

    fn sub_id() -> (r: u16) {
        0x00
    }

    fn len() -> (r: usize) {
        5
    }
}

impl Readable for RX_TTCKO {}

impl R<RX_TTCKO> {
    /// RX time tracking offset (19-bit signed int)
    pub fn rxtofs(&self) -> (r: u32)
        ensures
            r == field_value(self@, 0, 19),
            r < 0x80000,
    {
        proof {
            crate::ll::bits::lemma_field_value_bound(self@, 0, 19);
            vstd::arithmetic::power2::lemma2_to64();
        }
        self.field(0, 19) as u32
    }

    /// Internal re-sampler delay value
    pub fn rsmpdel(&self) -> (r: u8)
        ensures
            r == field_value(self@, 24, 8),
            r < 0x100,
    {
        proof {
            crate::ll::bits::lemma_field_value_bound(self@, 24, 8);
            vstd::arithmetic::power2::lemma2_to64();
        }
        self.field(24, 8) as u8
    }

    /// Receive carrier phase adjustment
    pub fn rcphase(&self) -> (r: u8)
        ensures
            r == field_value(self@, 32, 8),
            r < 0x100,
    {
        proof {
            crate::ll::bits::lemma_field_value_bound(self@, 32, 8);
            vstd::arithmetic::power2::lemma2_to64();
        }
        self.field(32, 8) as u8
    }

}

/// Receive Time Stamp
#[allow(non_camel_case_types)]
pub struct RX_TIME;

impl Register for RX_TIME {
    open spec fn spec_id() -> u8 {
        0x15
    }

    open spec fn spec_sub_id() -> u16 {
        0x00
    }

    open spec fn spec_len() -> usize {
        14
    }

    fn id() -> (r: u8) {
        0x15
    }

    fn sub_id() -> (r: u16) {
        0x00
    }

    fn len() -> (r: usize) {
        14
    }
}

impl Readable for RX_TIME {}

impl R<RX_TIME> {
    /// Fully adjusted time stamp
    pub fn rx_stamp(&self) -> (r: u64)
        ensures
            r == field_value(self@, 0, 40),
            r < 0x10000000000,
    {
        proof {
            crate::ll::bits::lemma_field_value_bound(self@, 0, 40);
            vstd::arithmetic::power2::lemma2_to64_rest();
        }
        self.field(0, 40)
    }

    /// First Path Index
    pub fn fp_index(&self) -> (r: u16)
        ensures
            r == field_value(self@, 40, 16),
            r < 0x10000,
    {
        proof {
            crate::ll::bits::lemma_field_value_bound(self@, 40, 16);
            vstd::arithmetic::power2::lemma2_to64();
        }
        self.field(40, 16) as u16
    }

    /// First Path Amplitude Point 1
    pub fn fp_ampl1(&self) -> (r: u16)
        ensures
            r == field_value(self@, 56, 16),
            r < 0x10000,
    {
        proof {
            crate::ll::bits::lemma_field_value_bound(self@, 56, 16);
            vstd::arithmetic::power2::lemma2_to64();
        }
        self.field(56, 16) as u16
    }

    /// Raw time stamp
    pub fn rx_rawst(&self) -> (r: u64)
        ensures
            r == field_value(self@, 72, 40),
            r < 0x10000000000,
    {
        proof {
            crate::ll::bits::lemma_field_value_bound(self@, 72, 40);
            vstd::arithmetic::power2::lemma2_to64_rest();
        }
        self.field(72, 40)
    }

}

/// Transmit Time Stamp
#[allow(non_camel_case_types)]
pub struct TX_TIME;

impl Register for TX_TIME {
    open spec fn spec_id() -> u8 {
        0x17
    }

    open spec fn spec_sub_id() -> u16 {
        0x00
    }

    open spec fn spec_len() -> usize {
        10
    }

    fn id() -> (r: u8) {
        0x17
    }

    fn sub_id() -> (r: u16) {
        0x00
    }

    fn len() -> (r: usize) {
        10
    }
}

impl Readable for TX_TIME {}

impl R<TX_TIME> {
    /// Fully adjusted time stamp
    pub fn tx_stamp(&self) -> (r: u64)
        ensures
            r == field_value(self@, 0, 40),
            r < 0x10000000000,
    {
        proof {
            crate::ll::bits::lemma_field_value_bound(self@, 0, 40);
            vstd::arithmetic::power2::lemma2_to64_rest();
        }
        self.field(0, 40)
    }

    /// Raw time stamp
    pub fn tx_rawst(&self) -> (r: u64)
        ensures
            r == field_value(self@, 40, 40),
            r < 0x10000000000,
    {
        proof {
            crate::ll::bits::lemma_field_value_bound(self@, 40, 40);
            vstd::arithmetic::power2::lemma2_to64_rest();
        }
        self.field(40, 40)
    }

}

/// TX Antenna Delay
#[allow(non_camel_case_types)]
pub struct TX_ANTD;

impl Register for TX_ANTD {
    open spec fn spec_id() -> u8 {
        0x18
    }

    open spec fn spec_sub_id() -> u16 {
        0x00
    }

    open spec fn spec_len() -> usize {
        2
    }

    fn id() -> (r: u8) {
        0x18
    }

    fn sub_id() -> (r: u16) {
        0x00
    }

    fn len() -> (r: usize) {
        2
    }
}

impl Readable for TX_ANTD {}

impl Writable for TX_ANTD {}

impl R<TX_ANTD> {
    /// TX Antenna Delay
    pub fn value(&self) -> (r: u16)
        ensures
            r == field_value(self@, 0, 16),
            r < 0x10000,
    {
        proof {
            crate::ll::bits::lemma_field_value_bound(self@, 0, 16);
            vstd::arithmetic::power2::lemma2_to64();
        }
        self.field(0, 16) as u16
    }

}

impl W<TX_ANTD> {
    /// TX Antenna Delay
    pub fn value(&mut self, value: u16)
        ensures
            field_written(old(self)@, final(self)@, 0, 16, value as u64),
            field_value(final(self)@, 0, 16) == value as nat,
            fields_kept(old(self)@, final(self)@, 0, 16),
    {
        self.set_field(0, 16, value as u64);
        proof {
            vstd::arithmetic::power2::lemma2_to64();
            vstd::arithmetic::power2::lemma2_to64_rest();
        }
    }

}

/// System State information
#[allow(non_camel_case_types)]
pub struct SYS_STATE;

impl Register for SYS_STATE {
    open spec fn spec_id() -> u8 {
        0x19
    }

    open spec fn spec_sub_id() -> u16 {
        0x00
    }

    open spec fn spec_len() -> usize {
        5
    }

    fn id() -> (r: u8) {
        0x19
    }

    fn sub_id() -> (r: u16) {
        0x00
    }

    fn len() -> (r: usize) {
        5
    }
}

impl Readable for SYS_STATE {}

impl R<SYS_STATE> {
    /// Current Transmit State Machine value
    pub fn tx_state(&self) -> (r: u8)
        ensures
            r == field_value(self@, 0, 4),
            r < 16,
    {
        proof {
            crate::ll::bits::lemma_field_value_bound(self@, 0, 4);
            vstd::arithmetic::power2::lemma2_to64();
        }
        self.field(0, 4) as u8
    }

    /// Current Receive State Machine value
    pub fn rx_state(&self) -> (r: u8)
        ensures
            r == field_value(self@, 8, 5),
            r < 32,
    {
        proof {
            crate::ll::bits::lemma_field_value_bound(self@, 8, 5);
            vstd::arithmetic::power2::lemma2_to64();
        }
        self.field(8, 5) as u8
    }

    /// Current PMSC State Machine value
    pub fn pmsc_state(&self) -> (r: u8)
        ensures
            r == field_value(self@, 16, 8),
            r < 0x100,
    {
        proof {
            crate::ll::bits::lemma_field_value_bound(self@, 16, 8);
            vstd::arithmetic::power2::lemma2_to64();
        }
        self.field(16, 8) as u8
    }

}

/// TX Power Control
#[allow(non_camel_case_types)]
pub struct TX_POWER;

impl Register for TX_POWER {
    open spec fn spec_id() -> u8 {
        0x1E
    }

    open spec fn spec_sub_id() -> u16 {
        0x00
    }

    open spec fn spec_len() -> usize {
        4
    }

    fn id() -> (r: u8) {
        0x1E
    }

    fn sub_id() -> (r: u16) {
        0x00
    }

    fn len() -> (r: usize) {
        4
    }
}

impl Readable for TX_POWER {}

impl Writable for TX_POWER {}

impl R<TX_POWER> {
    /// TX Power Control value
    pub fn value(&self) -> (r: u32)
        ensures
            r == field_value(self@, 0, 32),
            r < 0x100000000,
    {
        proof {
            crate::ll::bits::lemma_field_value_bound(self@, 0, 32);
            vstd::arithmetic::power2::lemma2_to64();
        }
        self.field(0, 32) as u32
    }

}

impl W<TX_POWER> {
    /// TX Power Control value
    pub fn value(&mut self, value: u32)
        ensures
            field_written(old(self)@, final(self)@, 0, 32, value as u64),
            field_value(final(self)@, 0, 32) == value as nat,
            fields_kept(old(self)@, final(self)@, 0, 32),
    {
        self.set_field(0, 32, value as u64);
        proof {
            vstd::arithmetic::power2::lemma2_to64();
            vstd::arithmetic::power2::lemma2_to64_rest();
        }
    }

}

/// Channel Control Register
#[allow(non_camel_case_types)]
pub struct CHAN_CTRL;

impl Register for CHAN_CTRL {
    open spec fn spec_id() -> u8 {
        0x1F
    }

    open spec fn spec_sub_id() -> u16 {
        0x00
    }

    open spec fn spec_len() -> usize {
        4
    }

    fn id() -> (r: u8) {
        0x1F
    }

    fn sub_id() -> (r: u16) {
        0x00
    }

    fn len() -> (r: usize) {
        4
    }
}

impl Readable for CHAN_CTRL {}

impl Writable for CHAN_CTRL {}

impl R<CHAN_CTRL> {
    /// Selects the transmit channel.
    pub fn tx_chan(&self) -> (r: u8)
        ensures
            r == field_value(self@, 0, 4),
            r < 16,
    {
        proof {
            crate::ll::bits::lemma_field_value_bound(self@, 0, 4);
            vstd::arithmetic::power2::lemma2_to64();
        }
        self.field(0, 4) as u8
    }

    /// Selects the receive channel.
    pub fn rx_chan(&self) -> (r: u8)
        ensures
            r == field_value(self@, 4, 4),
            r < 16,
    {
        proof {
            crate::ll::bits::lemma_field_value_bound(self@, 4, 4);
            vstd::arithmetic::power2::lemma2_to64();
        }
        self.field(4, 4) as u8
    }

    /// Enables the non-standard Decawave proprietary SFD sequence.
    pub fn dwsfd(&self) -> (r: u8)
        ensures
            r == field_value(self@, 17, 1),
            r < 2,
    {
        proof {
            crate::ll::bits::lemma_field_value_bound(self@, 17, 1);
            vstd::arithmetic::power2::lemma2_to64();
        }
        self.field(17, 1) as u8
    }

    /// Selects the PRF used in the receiver.
    pub fn rxprf(&self) -> (r: u8)
        ensures
            r == field_value(self@, 18, 2),
            r < 4,
    {
        proof {
            crate::ll::bits::lemma_field_value_bound(self@, 18, 2);
            vstd::arithmetic::power2::lemma2_to64();
        }
        self.field(18, 2) as u8
    }

    /// This bit enables the use of a user specified (non-standard) SFDin the transmitter.
    pub fn tnssfd(&self) -> (r: u8)
        ensures
            r == field_value(self@, 20, 1),
            r < 2,
    {
        proof {
            crate::ll::bits::lemma_field_value_bound(self@, 20, 1);
            vstd::arithmetic::power2::lemma2_to64();
        }
        self.field(20, 1) as u8
    }

    /// This bit enables the use of a user specified (non-standard) SFDin the receiver.
    pub fn rnssfd(&self) -> (r: u8)
        ensures
            r == field_value(self@, 21, 1),
            r < 2,
    {
        proof {
            crate::ll::bits::lemma_field_value_bound(self@, 21, 1);
            vstd::arithmetic::power2::lemma2_to64();
        }
        self.field(21, 1) as u8
    }

    /// This field selects the preamble code used in the transmitter.
    pub fn tx_pcode(&self) -> (r: u8)
        ensures
            r == field_value(self@, 22, 5),
            r < 32,
    {
        proof {
            crate::ll::bits::lemma_field_value_bound(self@, 22, 5);
            vstd::arithmetic::power2::lemma2_to64();
        }
        self.field(22, 5) as u8
    }

    /// This field selects the preamble code used in the receiver.
    pub fn rx_pcode(&self) -> (r: u8)
        ensures
            r == field_value(self@, 27, 5),
            r < 32,
    {
        proof {
            crate::ll::bits::lemma_field_value_bound(self@, 27, 5);
            vstd::arithmetic::power2::lemma2_to64();
        }
        self.field(27, 5) as u8
    }

}

impl W<CHAN_CTRL> {
    /// Selects the transmit channel.
    pub fn tx_chan(&mut self, value: u8)
        ensures
            field_written(old(self)@, final(self)@, 0, 4, value as u64),
            field_value(final(self)@, 0, 4) == (value as nat) % 16,
            fields_kept(old(self)@, final(self)@, 0, 4),
    {
        self.set_field(0, 4, value as u64);
        proof {
            vstd::arithmetic::power2::lemma2_to64();
            vstd::arithmetic::power2::lemma2_to64_rest();
        }
    }

    /// Selects the receive channel.
    pub fn rx_chan(&mut self, value: u8)
        ensures
            field_written(old(self)@, final(self)@, 4, 4, value as u64),
            field_value(final(self)@, 4, 4) == (value as nat) % 16,
            fields_kept(old(self)@, final(self)@, 4, 4),
    {
        self.set_field(4, 4, value as u64);
        proof {
            vstd::arithmetic::power2::lemma2_to64();
            vstd::arithmetic::power2::lemma2_to64_rest();
        }
    }

    /// Enables the non-standard Decawave proprietary SFD sequence.
    pub fn dwsfd(&mut self, value: u8)
        ensures
            field_written(old(self)@, final(self)@, 17, 1, value as u64),
            field_value(final(self)@, 17, 1) == (value as nat) % 2,
            fields_kept(old(self)@, final(self)@, 17, 1),
    {
        self.set_field(17, 1, value as u64);
        proof {
            vstd::arithmetic::power2::lemma2_to64();
            vstd::arithmetic::power2::lemma2_to64_rest();
        }
    }

    /// Selects the PRF used in the receiver.
    pub fn rxprf(&mut self, value: u8)
        ensures
            field_written(old(self)@, final(self)@, 18, 2, value as u64),
            field_value(final(self)@, 18, 2) == (value as nat) % 4,
            fields_kept(old(self)@, final(self)@, 18, 2),
    {
        self.set_field(18, 2, value as u64);
        proof {
            vstd::arithmetic::power2::lemma2_to64();
            vstd::arithmetic::power2::lemma2_to64_rest();
        }
    }

    /// This bit enables the use of a user specified (non-standard) SFDin the transmitter.
    pub fn tnssfd(&mut self, value: u8)
        ensures
            field_written(old(self)@, final(self)@, 20, 1, value as u64),
            field_value(final(self)@, 20, 1) == (value as nat) % 2,
            fields_kept(old(self)@, final(self)@, 20, 1),
    {
        self.set_field(20, 1, value as u64);
        proof {
            vstd::arithmetic::power2::lemma2_to64();
            vstd::arithmetic::power2::lemma2_to64_rest();
        }
    }

    /// This bit enables the use of a user specified (non-standard) SFDin the receiver.
    pub fn rnssfd(&mut self, value: u8)
        ensures
            field_written(old(self)@, final(self)@, 21, 1, value as u64),
            field_value(final(self)@, 21, 1) == (value as nat) % 2,
            fields_kept(old(self)@, final(self)@, 21, 1),
    {
        self.set_field(21, 1, value as u64);
        proof {
            vstd::arithmetic::power2::lemma2_to64();
            vstd::arithmetic::power2::lemma2_to64_rest();
        }
    }

    /// This field selects the preamble code used in the transmitter.
    pub fn tx_pcode(&mut self, value: u8)
        ensures
            field_written(old(self)@, final(self)@, 22, 5, value as u64),
            field_value(final(self)@, 22, 5) == (value as nat) % 32,
            fields_kept(old(self)@, final(self)@, 22, 5),
    {
        self.set_field(22, 5, value as u64);
        proof {
            vstd::arithmetic::power2::lemma2_to64();
            vstd::arithmetic::power2::lemma2_to64_rest();
        }
    }

    /// This field selects the preamble code used in the receiver.
    pub fn rx_pcode(&mut self, value: u8)
        ensures
            field_written(old(self)@, final(self)@, 27, 5, value as u64),
            field_value(final(self)@, 27, 5) == (value as nat) % 32,
            fields_kept(old(self)@, final(self)@, 27, 5),
    {
        self.set_field(27, 5, value as u64);
        proof {
            vstd::arithmetic::power2::lemma2_to64();
            vstd::arithmetic::power2::lemma2_to64_rest();
        }
    }

}

/// This is the length of the SFD sequence used when the data rate is 850kbps and higher.
#[allow(non_camel_case_types)]
pub struct SFD_LENGTH;

impl Register for SFD_LENGTH {
    open spec fn spec_id() -> u8 {
        0x21
    }

    open spec fn spec_sub_id() -> u16 {
        0x00
    }

    open spec fn spec_len() -> usize {
        1
    }

    fn id() -> (r: u8) {
        0x21
    }

    fn sub_id() -> (r: u16) {
        0x00
    }

    fn len() -> (r: usize) {
        1
    }
}

impl Readable for SFD_LENGTH {}

impl Writable for SFD_LENGTH {}

impl R<SFD_LENGTH> {
    /// This is the length of the SFD sequence used when the data rate is 850kbps and higher.
    pub fn value(&self) -> (r: u8)
        ensures
            r == field_value(self@, 0, 8),
            r < 0x100,
    {
        proof {
            crate::ll::bits::lemma_field_value_bound(self@, 0, 8);
            vstd::arithmetic::power2::lemma2_to64();
        }
        self.field(0, 8) as u8
    }

}

impl W<SFD_LENGTH> {
    /// This is the length of the SFD sequence used when the data rate is 850kbps and higher.
    pub fn value(&mut self, value: u8)
        ensures
            field_written(old(self)@, final(self)@, 0, 8, value as u64),
            field_value(final(self)@, 0, 8) == value as nat,
            fields_kept(old(self)@, final(self)@, 0, 8),
    {
        self.set_field(0, 8, value as u64);
        proof {
            vstd::arithmetic::power2::lemma2_to64();
            vstd::arithmetic::power2::lemma2_to64_rest();
        }
    }

}

/// AGC Tuning register 1
#[allow(non_camel_case_types)]
pub struct AGC_TUNE1;

impl Register for AGC_TUNE1 {
    open spec fn spec_id() -> u8 {
        0x23
    }

    open spec fn spec_sub_id() -> u16 {
        0x04
    }

    open spec fn spec_len() -> usize {
        2
    }

    fn id() -> (r: u8) {
        0x23
    }

    fn sub_id() -> (r: u16) {
        0x04
    }

    fn len() -> (r: usize) {
        2
    }
}

impl Readable for AGC_TUNE1 {}

impl Writable for AGC_TUNE1 {}

impl R<AGC_TUNE1> {
    /// AGC Tuning register 1 value
    pub fn value(&self) -> (r: u16)
        ensures
            r == field_value(self@, 0, 16),
            r < 0x10000,
    {
        proof {
            crate::ll::bits::lemma_field_value_bound(self@, 0, 16);
            vstd::arithmetic::power2::lemma2_to64();
        }
        self.field(0, 16) as u16
    }

}

impl W<AGC_TUNE1> {
    /// AGC Tuning register 1 value
    pub fn value(&mut self, value: u16)
        ensures
            field_written(old(self)@, final(self)@, 0, 16, value as u64),
            field_value(final(self)@, 0, 16) == value as nat,
            fields_kept(old(self)@, final(self)@, 0, 16),
    {
        self.set_field(0, 16, value as u64);
        proof {
            vstd::arithmetic::power2::lemma2_to64();
            vstd::arithmetic::power2::lemma2_to64_rest();
        }
    }

}

/// AGC Tuning register 2
#[allow(non_camel_case_types)]
pub struct AGC_TUNE2;

impl Register for AGC_TUNE2 {
    open spec fn spec_id() -> u8 {
        0x23
    }

    open spec fn spec_sub_id() -> u16 {
        0x0C
    }

    open spec fn spec_len() -> usize {
        4
    }

    fn id() -> (r: u8) {
        0x23
    }

    fn sub_id() -> (r: u16) {
        0x0C
    }

    fn len() -> (r: usize) {
        4
    }
}

impl Readable for AGC_TUNE2 {}

impl Writable for AGC_TUNE2 {}

impl R<AGC_TUNE2> {
    /// AGC Tuning register 2 value
    pub fn value(&self) -> (r: u32)
        ensures
            r == field_value(self@, 0, 32),
            r < 0x100000000,
    {
        proof {
            crate::ll::bits::lemma_field_value_bound(self@, 0, 32);
            vstd::arithmetic::power2::lemma2_to64();
        }
        self.field(0, 32) as u32
    }

}

impl W<AGC_TUNE2> {
    /// AGC Tuning register 2 value
    pub fn value(&mut self, value: u32)
        ensures
            field_written(old(self)@, final(self)@, 0, 32, value as u64),
            field_value(final(self)@, 0, 32) == value as nat,
            fields_kept(old(self)@, final(self)@, 0, 32),
    {
        self.set_field(0, 32, value as u64);
        proof {
            vstd::arithmetic::power2::lemma2_to64();
            vstd::arithmetic::power2::lemma2_to64_rest();
        }
    }

}

/// External Clock Sync Counter Config
#[allow(non_camel_case_types)]
pub struct EC_CTRL;

impl Register for EC_CTRL {
    open spec fn spec_id() -> u8 {
        0x24
    }

    open spec fn spec_sub_id() -> u16 {
        0x00
    }

    open spec fn spec_len() -> usize {
        4
    }

    fn id() -> (r: u8) {
        0x24
    }

    fn sub_id() -> (r: u16) {
        0x00
    }

    fn len() -> (r: usize) {
        4
    }
}

impl Readable for EC_CTRL {}

impl Writable for EC_CTRL {}

impl R<EC_CTRL> {
    /// External Transmit Synchronization Mode Enable
    pub fn ostsm(&self) -> (r: u8)
        ensures
            r == field_value(self@, 0, 1),
            r < 2,
    {
        proof {
            crate::ll::bits::lemma_field_value_bound(self@, 0, 1);
            vstd::arithmetic::power2::lemma2_to64();
        }
        self.field(0, 1) as u8
    }

    /// External Receive Synchronization Mode Enable
    pub fn osrsm(&self) -> (r: u8)
        ensures
            r == field_value(self@, 1, 1),
            r < 2,
    {
        proof {
            crate::ll::bits::lemma_field_value_bound(self@, 1, 1);
            vstd::arithmetic::power2::lemma2_to64();
        }
        self.field(1, 1) as u8
    }

    /// Clock PLL Lock Detect Tune
    pub fn pllldt(&self) -> (r: u8)
        ensures
            r == field_value(self@, 2, 1),
            r < 2,
    {
        proof {
            crate::ll::bits::lemma_field_value_bound(self@, 2, 1);
            vstd::arithmetic::power2::lemma2_to64();
        }
        self.field(2, 1) as u8
    }

    /// Wait Counter
    pub fn wait(&self) -> (r: u8)
        ensures
            r == field_value(self@, 3, 8),
            r < 0x100,
    {
        proof {
            crate::ll::bits::lemma_field_value_bound(self@, 3, 8);
            vstd::arithmetic::power2::lemma2_to64();
        }
        self.field(3, 8) as u8
    }

    /// External Timebase Reset Mode Enable
    pub fn ostrm(&self) -> (r: u8)
        ensures
            r == field_value(self@, 11, 1),
            r < 2,
    {
        proof {
            crate::ll::bits::lemma_field_value_bound(self@, 11, 1);
            vstd::arithmetic::power2::lemma2_to64();
        }
        self.field(11, 1) as u8
    }

}

impl W<EC_CTRL> {
    /// External Transmit Synchronization Mode Enable
    pub fn ostsm(&mut self, value: u8)
        ensures
            field_written(old(self)@, final(self)@, 0, 1, value as u64),
            field_value(final(self)@, 0, 1) == (value as nat) % 2,
            fields_kept(old(self)@, final(self)@, 0, 1),
    {
        self.set_field(0, 1, value as u64);
        proof {
            vstd::arithmetic::power2::lemma2_to64();
            vstd::arithmetic::power2::lemma2_to64_rest();
        }
    }

    /// External Receive Synchronization Mode Enable
    pub fn osrsm(&mut self, value: u8)
        ensures
            field_written(old(self)@, final(self)@, 1, 1, value as u64),
            field_value(final(self)@, 1, 1) == (value as nat) % 2,
            fields_kept(old(self)@, final(self)@, 1, 1),
    {
        self.set_field(1, 1, value as u64);
        proof {
            vstd::arithmetic::power2::lemma2_to64();
            vstd::arithmetic::power2::lemma2_to64_rest();
        }
    }

    /// Clock PLL Lock Detect Tune
    pub fn pllldt(&mut self, value: u8)
        ensures
            field_written(old(self)@, final(self)@, 2, 1, value as u64),
            field_value(final(self)@, 2, 1) == (value as nat) % 2,
            fields_kept(old(self)@, final(self)@, 2, 1),
    {
        self.set_field(2, 1, value as u64);
        proof {
            vstd::arithmetic::power2::lemma2_to64();
            vstd::arithmetic::power2::lemma2_to64_rest();
        }
    }

    /// Wait Counter
    pub fn wait(&mut self, value: u8)
        ensures
            field_written(old(self)@, final(self)@, 3, 8, value as u64),
            field_value(final(self)@, 3, 8) == value as nat,
            fields_kept(old(self)@, final(self)@, 3, 8),
    {
        self.set_field(3, 8, value as u64);
        proof {
            vstd::arithmetic::power2::lemma2_to64();
            vstd::arithmetic::power2::lemma2_to64_rest();
        }
    }

    /// External Timebase Reset Mode Enable
    pub fn ostrm(&mut self, value: u8)
        ensures
            field_written(old(self)@, final(self)@, 11, 1, value as u64),
            field_value(final(self)@, 11, 1) == (value as nat) % 2,
            fields_kept(old(self)@, final(self)@, 11, 1),
    {
        self.set_field(11, 1, value as u64);
        proof {
            vstd::arithmetic::power2::lemma2_to64();
            vstd::arithmetic::power2::lemma2_to64_rest();
        }
    }

}

/// External clock synchronisation counter captured on RMARKER
#[allow(non_camel_case_types)]
pub struct EC_RXTC;

impl Register for EC_RXTC {
    open spec fn spec_id() -> u8 {
        0x24
    }

    open spec fn spec_sub_id() -> u16 {
        0x04
    }

    open spec fn spec_len() -> usize {
        4
    }

    fn id() -> (r: u8) {
        0x24
    }

    fn sub_id() -> (r: u16) {
        0x04
    }

    fn len() -> (r: usize) {
        4
    }
}

impl Readable for EC_RXTC {}

impl R<EC_RXTC> {
    /// External clock synchronisation counter captured on RMARKER
    pub fn rx_ts_est(&self) -> (r: u32)
        ensures
            r == field_value(self@, 0, 32),
            r < 0x100000000,
    {
        proof {
            crate::ll::bits::lemma_field_value_bound(self@, 0, 32);
            vstd::arithmetic::power2::lemma2_to64();
        }
        self.field(0, 32) as u32
    }

}

/// External clock offset to first path 1 GHz counter
#[allow(non_camel_case_types)]
pub struct EC_GOLP;

impl Register for EC_GOLP {
    open spec fn spec_id() -> u8 {
        0x24
    }

    open spec fn spec_sub_id() -> u16 {
        0x08
    }

    open spec fn spec_len() -> usize {
        4
    }

    fn id() -> (r: u8) {
        0x24
    }

    fn sub_id() -> (r: u16) {
        0x08
    }

    fn len() -> (r: usize) {
        4
    }
}

impl Readable for EC_GOLP {}

impl R<EC_GOLP> {
    /// This register contains the 1 GHz count from the arrival of the RMARKER and the next edge of the external clock.
    pub fn offset_ext(&self) -> (r: u8)
        ensures
            r == field_value(self@, 0, 6),
            r < 64,
    {
        proof {
            crate::ll::bits::lemma_field_value_bound(self@, 0, 6);
            vstd::arithmetic::power2::lemma2_to64();
        }
        self.field(0, 6) as u8
    }

}

/// GPIO Mode Control Register
#[allow(non_camel_case_types)]
pub struct GPIO_MODE;

impl Register for GPIO_MODE {
    open spec fn spec_id() -> u8 {
        0x26
    }

    open spec fn spec_sub_id() -> u16 {
        0x00
    }

    open spec fn spec_len() -> usize {
        4
    }

    fn id() -> (r: u8) {
        0x26
    }

    fn sub_id() -> (r: u16) {
        0x00
    }

    fn len() -> (r: usize) {
        4
    }
}

impl Readable for GPIO_MODE {}

impl Writable for GPIO_MODE {}

impl R<GPIO_MODE> {
    /// Mode Selection for GPIO0/RXOKLED
    pub fn msgp0(&self) -> (r: u8)
        ensures
            r == field_value(self@, 6, 2),
            r < 4,
    {
        proof {
            crate::ll::bits::lemma_field_value_bound(self@, 6, 2);
            vstd::arithmetic::power2::lemma2_to64();
        }
        self.field(6, 2) as u8
    }

    /// Mode Selection for GPIO1/SFDLED
    pub fn msgp1(&self) -> (r: u8)
        ensures
            r == field_value(self@, 8, 2),
            r < 4,
    {
        proof {
            crate::ll::bits::lemma_field_value_bound(self@, 8, 2);
            vstd::arithmetic::power2::lemma2_to64();
        }
        self.field(8, 2) as u8
    }

    /// Mode Selection for GPIO2/RXLED
    pub fn msgp2(&self) -> (r: u8)
        ensures
            r == field_value(self@, 10, 2),
            r < 4,
    {
        proof {
            crate::ll::bits::lemma_field_value_bound(self@, 10, 2);
            vstd::arithmetic::power2::lemma2_to64();
        }
        self.field(10, 2) as u8
    }

    /// Mode Selection for GPIO3/TXLED
    pub fn msgp3(&self) -> (r: u8)
        ensures
            r == field_value(self@, 12, 2),
            r < 4,
    {
        proof {
            crate::ll::bits::lemma_field_value_bound(self@, 12, 2);
            vstd::arithmetic::power2::lemma2_to64();
        }
        self.field(12, 2) as u8
    }

    /// Mode Selection for GPIO4/EXTPA
    pub fn msgp4(&self) -> (r: u8)
        ensures
            r == field_value(self@, 14, 2),
            r < 4,
    {
        proof {
            crate::ll::bits::lemma_field_value_bound(self@, 14, 2);
            vstd::arithmetic::power2::lemma2_to64();
        }
        self.field(14, 2) as u8
    }

    /// Mode Selection for GPIO5/EXTTXE
    pub fn msgp5(&self) -> (r: u8)
        ensures
            r == field_value(self@, 16, 2),
            r < 4,
    {
        proof {
            crate::ll::bits::lemma_field_value_bound(self@, 16, 2);
            vstd::arithmetic::power2::lemma2_to64();
        }
        self.field(16, 2) as u8
    }

    /// Mode Selection for GPIO6/EXTRXE
    pub fn msgp6(&self) -> (r: u8)
        ensures
            r == field_value(self@, 18, 2),
            r < 4,
    {
        proof {
            crate::ll::bits::lemma_field_value_bound(self@, 18, 2);
            vstd::arithmetic::power2::lemma2_to64();
        }
        self.field(18, 2) as u8
    }

    /// Mode Selection for SYNC/GPIO7
    pub fn msgp7(&self) -> (r: u8)
        ensures
            r == field_value(self@, 20, 2),
            r < 4,
    {
        proof {
            crate::ll::bits::lemma_field_value_bound(self@, 20, 2);
            vstd::arithmetic::power2::lemma2_to64();
        }
        self.field(20, 2) as u8
    }

    /// Mode Selection for IRQ/GPIO8
    pub fn msgp8(&self) -> (r: u8)
        ensures
            r == field_value(self@, 22, 2),
            r < 4,
    {
        proof {
            crate::ll::bits::lemma_field_value_bound(self@, 22, 2);
            vstd::arithmetic::power2::lemma2_to64();
        }
        self.field(22, 2) as u8
    }

}

impl W<GPIO_MODE> {
    /// Mode Selection for GPIO0/RXOKLED
    pub fn msgp0(&mut self, value: u8)
        ensures
            field_written(old(self)@, final(self)@, 6, 2, value as u64),
            field_value(final(self)@, 6, 2) == (value as nat) % 4,
            fields_kept(old(self)@, final(self)@, 6, 2),
    {
        self.set_field(6, 2, value as u64);
        proof {
            vstd::arithmetic::power2::lemma2_to64();
            vstd::arithmetic::power2::lemma2_to64_rest();
        }
    }

    /// Mode Selection for GPIO1/SFDLED
    pub fn msgp1(&mut self, value: u8)
        ensures
            field_written(old(self)@, final(self)@, 8, 2, value as u64),
            field_value(final(self)@, 8, 2) == (value as nat) % 4,
            fields_kept(old(self)@, final(self)@, 8, 2),
    {
        self.set_field(8, 2, value as u64);
        proof {
            vstd::arithmetic::power2::lemma2_to64();
            vstd::arithmetic::power2::lemma2_to64_rest();
        }
    }

    /// Mode Selection for GPIO2/RXLED
    pub fn msgp2(&mut self, value: u8)
        ensures
            field_written(old(self)@, final(self)@, 10, 2, value as u64),
            field_value(final(self)@, 10, 2) == (value as nat) % 4,
            fields_kept(old(self)@, final(self)@, 10, 2),
    {
        self.set_field(10, 2, value as u64);
        proof {
            vstd::arithmetic::power2::lemma2_to64();
            vstd::arithmetic::power2::lemma2_to64_rest();
        }
    }

    /// Mode Selection for GPIO3/TXLED
    pub fn msgp3(&mut self, value: u8)
        ensures
            field_written(old(self)@, final(self)@, 12, 2, value as u64),
            field_value(final(self)@, 12, 2) == (value as nat) % 4,
            fields_kept(old(self)@, final(self)@, 12, 2),
    {
        self.set_field(12, 2, value as u64);
        proof {
            vstd::arithmetic::power2::lemma2_to64();
            vstd::arithmetic::power2::lemma2_to64_rest();
        }
    }

    /// Mode Selection for GPIO4/EXTPA
    pub fn msgp4(&mut self, value: u8)
        ensures
            field_written(old(self)@, final(self)@, 14, 2, value as u64),
            field_value(final(self)@, 14, 2) == (value as nat) % 4,
            fields_kept(old(self)@, final(self)@, 14, 2),
    {
        self.set_field(14, 2, value as u64);
        proof {
            vstd::arithmetic::power2::lemma2_to64();
            vstd::arithmetic::power2::lemma2_to64_rest();
        }
    }

    /// Mode Selection for GPIO5/EXTTXE
    pub fn msgp5(&mut self, value: u8)
        ensures
            field_written(old(self)@, final(self)@, 16, 2, value as u64),
            field_value(final(self)@, 16, 2) == (value as nat) % 4,
            fields_kept(old(self)@, final(self)@, 16, 2),
    {
        self.set_field(16, 2, value as u64);
        proof {
            vstd::arithmetic::power2::lemma2_to64();
            vstd::arithmetic::power2::lemma2_to64_rest();
        }
    }

    /// Mode Selection for GPIO6/EXTRXE
    pub fn msgp6(&mut self, value: u8)
        ensures
            field_written(old(self)@, final(self)@, 18, 2, value as u64),
            field_value(final(self)@, 18, 2) == (value as nat) % 4,
            fields_kept(old(self)@, final(self)@, 18, 2),
    {
        self.set_field(18, 2, value as u64);
        proof {
            vstd::arithmetic::power2::lemma2_to64();
            vstd::arithmetic::power2::lemma2_to64_rest();
        }
    }

    /// Mode Selection for SYNC/GPIO7
    pub fn msgp7(&mut self, value: u8)
        ensures
            field_written(old(self)@, final(self)@, 20, 2, value as u64),
            field_value(final(self)@, 20, 2) == (value as nat) % 4,
            fields_kept(old(self)@, final(self)@, 20, 2),
    {
        self.set_field(20, 2, value as u64);
        proof {
            vstd::arithmetic::power2::lemma2_to64();
            vstd::arithmetic::power2::lemma2_to64_rest();
        }
    }

    /// Mode Selection for IRQ/GPIO8
    pub fn msgp8(&mut self, value: u8)
        ensures
            field_written(old(self)@, final(self)@, 22, 2, value as u64),
            field_value(final(self)@, 22, 2) == (value as nat) % 4,
            fields_kept(old(self)@, final(self)@, 22, 2),
    {
        self.set_field(22, 2, value as u64);
        proof {
            vstd::arithmetic::power2::lemma2_to64();
            vstd::arithmetic::power2::lemma2_to64_rest();
        }
    }

}

/// GPIO Direction Control Register
#[allow(non_camel_case_types)]
pub struct GPIO_DIR;

impl Register for GPIO_DIR {
    open spec fn spec_id() -> u8 {
        0x26
    }

    open spec fn spec_sub_id() -> u16 {
        0x08
    }

    open spec fn spec_len() -> usize {
        4
    }

    fn id() -> (r: u8) {
        0x26
    }

    fn sub_id() -> (r: u16) {
        0x08
    }

    fn len() -> (r: usize) {
        4
    }
}

impl Readable for GPIO_DIR {}

impl Writable for GPIO_DIR {}

impl R<GPIO_DIR> {
    /// Direction Selection for GPIO0
    pub fn gdp0(&self) -> (r: u8)
        ensures
            r == field_value(self@, 0, 1),
            r < 2,
    {
        proof {
            crate::ll::bits::lemma_field_value_bound(self@, 0, 1);
            vstd::arithmetic::power2::lemma2_to64();
        }
        self.field(0, 1) as u8
    }

    /// Direction Selection for GPIO1
    pub fn gdp1(&self) -> (r: u8)
        ensures
            r == field_value(self@, 1, 1),
            r < 2,
    {
        proof {
            crate::ll::bits::lemma_field_value_bound(self@, 1, 1);
            vstd::arithmetic::power2::lemma2_to64();
        }
        self.field(1, 1) as u8
    }

    /// Direction Selection for GPIO2
    pub fn gdp2(&self) -> (r: u8)
        ensures
            r == field_value(self@, 2, 1),
            r < 2,
    {
        proof {
            crate::ll::bits::lemma_field_value_bound(self@, 2, 1);
            vstd::arithmetic::power2::lemma2_to64();
        }
        self.field(2, 1) as u8
    }

    /// Direction Selection for GPIO3
    pub fn gdp3(&self) -> (r: u8)
        ensures
            r == field_value(self@, 3, 1),
            r < 2,
    {
        proof {
            crate::ll::bits::lemma_field_value_bound(self@, 3, 1);
            vstd::arithmetic::power2::lemma2_to64();
        }
        self.field(3, 1) as u8
    }

    /// Mask for setting the direction of GPIO0
    pub fn gdm0(&self) -> (r: u8)
        ensures
            r == field_value(self@, 4, 1),
            r < 2,
    {
        proof {
            crate::ll::bits::lemma_field_value_bound(self@, 4, 1);
            vstd::arithmetic::power2::lemma2_to64();
        }
        self.field(4, 1) as u8
    }

    /// Mask for setting the direction of GPIO1
    pub fn gdm1(&self) -> (r: u8)
        ensures
            r == field_value(self@, 5, 1),
            r < 2,
    {
        proof {
            crate::ll::bits::lemma_field_value_bound(self@, 5, 1);
            vstd::arithmetic::power2::lemma2_to64();
        }
        self.field(5, 1) as u8
    }

    /// Mask for setting the direction of GPIO2
    pub fn gdm2(&self) -> (r: u8)
        ensures
            r == field_value(self@, 6, 1),
            r < 2,
    {
        proof {
            crate::ll::bits::lemma_field_value_bound(self@, 6, 1);
            vstd::arithmetic::power2::lemma2_to64();
        }
        self.field(6, 1) as u8
    }

    /// Mask for setting the direction of GPIO3
    pub fn gdm3(&self) -> (r: u8)
        ensures
            r == field_value(self@, 7, 1),
            r < 2,
    {
        proof {
            crate::ll::bits::lemma_field_value_bound(self@, 7, 1);
            vstd::arithmetic::power2::lemma2_to64();
        }
        self.field(7, 1) as u8
    }

    /// Direction Selection for GPIO4
    pub fn gdp4(&self) -> (r: u8)
        ensures
            r == field_value(self@, 8, 1),
            r < 2,
    {
        proof {
            crate::ll::bits::lemma_field_value_bound(self@, 8, 1);
            vstd::arithmetic::power2::lemma2_to64();
        }
        self.field(8, 1) as u8
    }

    /// Direction Selection for GPIO5
    pub fn gdp5(&self) -> (r: u8)
        ensures
            r == field_value(self@, 9, 1),
            r < 2,
    {
        proof {
            crate::ll::bits::lemma_field_value_bound(self@, 9, 1);
            vstd::arithmetic::power2::lemma2_to64();
        }
        self.field(9, 1) as u8
    }

    /// Direction Selection for GPIO6
    pub fn gdp6(&self) -> (r: u8)
        ensures
            r == field_value(self@, 10, 1),
            r < 2,
    {
        proof {
            crate::ll::bits::lemma_field_value_bound(self@, 10, 1);
            vstd::arithmetic::power2::lemma2_to64();
        }
        self.field(10, 1) as u8
    }

    /// Direction Selection for GPIO7
    pub fn gdp7(&self) -> (r: u8)
        ensures
            r == field_value(self@, 11, 1),
            r < 2,
    {
        proof {
            crate::ll::bits::lemma_field_value_bound(self@, 11, 1);
            vstd::arithmetic::power2::lemma2_to64();
        }
        self.field(11, 1) as u8
    }

    /// Mask for setting the direction of GPIO4
    pub fn gdm4(&self) -> (r: u8)
        ensures
            r == field_value(self@, 12, 1),
            r < 2,
    {
        proof {
            crate::ll::bits::lemma_field_value_bound(self@, 12, 1);
            vstd::arithmetic::power2::lemma2_to64();
        }
        self.field(12, 1) as u8
    }

    /// Mask for setting the direction of GPIO5
    pub fn gdm5(&self) -> (r: u8)
        ensures
            r == field_value(self@, 13, 1),
            r < 2,
    {
        proof {
            crate::ll::bits::lemma_field_value_bound(self@, 13, 1);
            vstd::arithmetic::power2::lemma2_to64();
        }
        self.field(13, 1) as u8
    }

    /// Mask for setting the direction of GPIO6
    pub fn gdm6(&self) -> (r: u8)
        ensures
            r == field_value(self@, 14, 1),
            r < 2,
    {
        proof {
            crate::ll::bits::lemma_field_value_bound(self@, 14, 1);
            vstd::arithmetic::power2::lemma2_to64();
        }
        self.field(14, 1) as u8
    }

    /// Mask for setting the direction of GPIO7
    pub fn gdm7(&self) -> (r: u8)
        ensures
            r == field_value(self@, 15, 1),
            r < 2,
    {
        proof {
            crate::ll::bits::lemma_field_value_bound(self@, 15, 1);
            vstd::arithmetic::power2::lemma2_to64();
        }
        self.field(15, 1) as u8
    }

    /// Direction Selection for GPIO8
    pub fn gdp8(&self) -> (r: u8)
        ensures
            r == field_value(self@, 16, 1),
            r < 2,
    {
        proof {
            crate::ll::bits::lemma_field_value_bound(self@, 16, 1);
            vstd::arithmetic::power2::lemma2_to64();
        }
        self.field(16, 1) as u8
    }

    /// Mask for setting the direction of GPIO8
    pub fn gdm8(&self) -> (r: u8)
        ensures
            r == field_value(self@, 20, 1),
            r < 2,
    {
        proof {
            crate::ll::bits::lemma_field_value_bound(self@, 20, 1);
            vstd::arithmetic::power2::lemma2_to64();
        }
        self.field(20, 1) as u8
    }

}

impl W<GPIO_DIR> {
    /// Direction Selection for GPIO0
    pub fn gdp0(&mut self, value: u8)
        ensures
            field_written(old(self)@, final(self)@, 0, 1, value as u64),
            field_value(final(self)@, 0, 1) == (value as nat) % 2,
            fields_kept(old(self)@, final(self)@, 0, 1),
    {
        self.set_field(0, 1, value as u64);
        proof {
            vstd::arithmetic::power2::lemma2_to64();
            vstd::arithmetic::power2::lemma2_to64_rest();
        }
    }

    /// Direction Selection for GPIO1
    pub fn gdp1(&mut self, value: u8)
        ensures
            field_written(old(self)@, final(self)@, 1, 1, value as u64),
            field_value(final(self)@, 1, 1) == (value as nat) % 2,
            fields_kept(old(self)@, final(self)@, 1, 1),
    {
        self.set_field(1, 1, value as u64);
        proof {
            vstd::arithmetic::power2::lemma2_to64();
            vstd::arithmetic::power2::lemma2_to64_rest();
        }
    }

    /// Direction Selection for GPIO2
    pub fn gdp2(&mut self, value: u8)
        ensures
            field_written(old(self)@, final(self)@, 2, 1, value as u64),
            field_value(final(self)@, 2, 1) == (value as nat) % 2,
            fields_kept(old(self)@, final(self)@, 2, 1),
    {
        self.set_field(2, 1, value as u64);
        proof {
            vstd::arithmetic::power2::lemma2_to64();
            vstd::arithmetic::power2::lemma2_to64_rest();
        }
    }

    /// Direction Selection for GPIO3
    pub fn gdp3(&mut self, value: u8)
        ensures
            field_written(old(self)@, final(self)@, 3, 1, value as u64),
            field_value(final(self)@, 3, 1) == (value as nat) % 2,
            fields_kept(old(self)@, final(self)@, 3, 1),
    {
        self.set_field(3, 1, value as u64);
        proof {
            vstd::arithmetic::power2::lemma2_to64();
            vstd::arithmetic::power2::lemma2_to64_rest();
        }
    }

    /// Mask for setting the direction of GPIO0
    pub fn gdm0(&mut self, value: u8)
        ensures
            field_written(old(self)@, final(self)@, 4, 1, value as u64),
            field_value(final(self)@, 4, 1) == (value as nat) % 2,
            fields_kept(old(self)@, final(self)@, 4, 1),
    {
        self.set_field(4, 1, value as u64);
        proof {
            vstd::arithmetic::power2::lemma2_to64();
            vstd::arithmetic::power2::lemma2_to64_rest();
        }
    }

    /// Mask for setting the direction of GPIO1
    pub fn gdm1(&mut self, value: u8)
        ensures
            field_written(old(self)@, final(self)@, 5, 1, value as u64),
            field_value(final(self)@, 5, 1) == (value as nat) % 2,
            fields_kept(old(self)@, final(self)@, 5, 1),
    {
        self.set_field(5, 1, value as u64);
        proof {
            vstd::arithmetic::power2::lemma2_to64();
            vstd::arithmetic::power2::lemma2_to64_rest();
        }
    }

    /// Mask for setting the direction of GPIO2
    pub fn gdm2(&mut self, value: u8)
        ensures
            field_written(old(self)@, final(self)@, 6, 1, value as u64),
            field_value(final(self)@, 6, 1) == (value as nat) % 2,
            fields_kept(old(self)@, final(self)@, 6, 1),
    {
        self.set_field(6, 1, value as u64);
        proof {
            vstd::arithmetic::power2::lemma2_to64();
            vstd::arithmetic::power2::lemma2_to64_rest();
        }
    }

    /// Mask for setting the direction of GPIO3
    pub fn gdm3(&mut self, value: u8)
        ensures
            field_written(old(self)@, final(self)@, 7, 1, value as u64),
            field_value(final(self)@, 7, 1) == (value as nat) % 2,
            fields_kept(old(self)@, final(self)@, 7, 1),
    {
        self.set_field(7, 1, value as u64);
        proof {
            vstd::arithmetic::power2::lemma2_to64();
            vstd::arithmetic::power2::lemma2_to64_rest();
        }
    }

    /// Direction Selection for GPIO4
    pub fn gdp4(&mut self, value: u8)
        ensures
            field_written(old(self)@, final(self)@, 8, 1, value as u64),
            field_value(final(self)@, 8, 1) == (value as nat) % 2,
            fields_kept(old(self)@, final(self)@, 8, 1),
    {
        self.set_field(8, 1, value as u64);
        proof {
            vstd::arithmetic::power2::lemma2_to64();
            vstd::arithmetic::power2::lemma2_to64_rest();
        }
    }

    /// Direction Selection for GPIO5
    pub fn gdp5(&mut self, value: u8)
        ensures
            field_written(old(self)@, final(self)@, 9, 1, value as u64),
            field_value(final(self)@, 9, 1) == (value as nat) % 2,
            fields_kept(old(self)@, final(self)@, 9, 1),
    {
        self.set_field(9, 1, value as u64);
        proof {
            vstd::arithmetic::power2::lemma2_to64();
            vstd::arithmetic::power2::lemma2_to64_rest();
        }
    }

    /// Direction Selection for GPIO6
    pub fn gdp6(&mut self, value: u8)
        ensures
            field_written(old(self)@, final(self)@, 10, 1, value as u64),
            field_value(final(self)@, 10, 1) == (value as nat) % 2,
            fields_kept(old(self)@, final(self)@, 10, 1),
    {
        self.set_field(10, 1, value as u64);
        proof {
            vstd::arithmetic::power2::lemma2_to64();
            vstd::arithmetic::power2::lemma2_to64_rest();
        }
    }

    /// Direction Selection for GPIO7
    pub fn gdp7(&mut self, value: u8)
        ensures
            field_written(old(self)@, final(self)@, 11, 1, value as u64),
            field_value(final(self)@, 11, 1) == (value as nat) % 2,
            fields_kept(old(self)@, final(self)@, 11, 1),
    {
        self.set_field(11, 1, value as u64);
        proof {
            vstd::arithmetic::power2::lemma2_to64();
            vstd::arithmetic::power2::lemma2_to64_rest();
        }
    }

    /// Mask for setting the direction of GPIO4
    pub fn gdm4(&mut self, value: u8)
        ensures
            field_written(old(self)@, final(self)@, 12, 1, value as u64),
            field_value(final(self)@, 12, 1) == (value as nat) % 2,
            fields_kept(old(self)@, final(self)@, 12, 1),
    {
        self.set_field(12, 1, value as u64);
        proof {
            vstd::arithmetic::power2::lemma2_to64();
            vstd::arithmetic::power2::lemma2_to64_rest();
        }
    }

    /// Mask for setting the direction of GPIO5
    pub fn gdm5(&mut self, value: u8)
        ensures
            field_written(old(self)@, final(self)@, 13, 1, value as u64),
            field_value(final(self)@, 13, 1) == (value as nat) % 2,
            fields_kept(old(self)@, final(self)@, 13, 1),
    {
        self.set_field(13, 1, value as u64);
        proof {
            vstd::arithmetic::power2::lemma2_to64();
            vstd::arithmetic::power2::lemma2_to64_rest();
        }
    }

    /// Mask for setting the direction of GPIO6
    pub fn gdm6(&mut self, value: u8)
        ensures
            field_written(old(self)@, final(self)@, 14, 1, value as u64),
            field_value(final(self)@, 14, 1) == (value as nat) % 2,
            fields_kept(old(self)@, final(self)@, 14, 1),
    {
        self.set_field(14, 1, value as u64);
        proof {
            vstd::arithmetic::power2::lemma2_to64();
            vstd::arithmetic::power2::lemma2_to64_rest();
        }
    }

    /// Mask for setting the direction of GPIO7
    pub fn gdm7(&mut self, value: u8)
        ensures
            field_written(old(self)@, final(self)@, 15, 1, value as u64),
            field_value(final(self)@, 15, 1) == (value as nat) % 2,
            fields_kept(old(self)@, final(self)@, 15, 1),
    {
        self.set_field(15, 1, value as u64);
        proof {
            vstd::arithmetic::power2::lemma2_to64();
            vstd::arithmetic::power2::lemma2_to64_rest();
        }
    }

    /// Direction Selection for GPIO8
    pub fn gdp8(&mut self, value: u8)
        ensures
            field_written(old(self)@, final(self)@, 16, 1, value as u64),
            field_value(final(self)@, 16, 1) == (value as nat) % 2,
            fields_kept(old(self)@, final(self)@, 16, 1),
    {
        self.set_field(16, 1, value as u64);
        proof {
            vstd::arithmetic::power2::lemma2_to64();
            vstd::arithmetic::power2::lemma2_to64_rest();
        }
    }

    /// Mask for setting the direction of GPIO8
    pub fn gdm8(&mut self, value: u8)
        ensures
            field_written(old(self)@, final(self)@, 20, 1, value as u64),
            field_value(final(self)@, 20, 1) == (value as nat) % 2,
            fields_kept(old(self)@, final(self)@, 20, 1),
    {
        self.set_field(20, 1, value as u64);
        proof {
            vstd::arithmetic::power2::lemma2_to64();
            vstd::arithmetic::power2::lemma2_to64_rest();
        }
    }

}

/// GPIO Data Output register
#[allow(non_camel_case_types)]
pub struct GPIO_DOUT;

impl Register for GPIO_DOUT {
    open spec fn spec_id() -> u8 {
        0x26
    }

    open spec fn spec_sub_id() -> u16 {
        0x0C
    }

    open spec fn spec_len() -> usize {
        4
    }

    fn id() -> (r: u8) {
        0x26
    }

    fn sub_id() -> (r: u16) {
        0x0C
    }

    fn len() -> (r: usize) {
        4
    }
}

impl Readable for GPIO_DOUT {}

impl Writable for GPIO_DOUT {}

impl R<GPIO_DOUT> {
    /// Output state setting for GPIO0
    pub fn gop0(&self) -> (r: u8)
        ensures
            r == field_value(self@, 0, 1),
            r < 2,
    {
        proof {
            crate::ll::bits::lemma_field_value_bound(self@, 0, 1);
            vstd::arithmetic::power2::lemma2_to64();
        }
        self.field(0, 1) as u8
    }

    /// Output state setting for GPIO1
    pub fn gop1(&self) -> (r: u8)
        ensures
            r == field_value(self@, 1, 1),
            r < 2,
    {
        proof {
            crate::ll::bits::lemma_field_value_bound(self@, 1, 1);
            vstd::arithmetic::power2::lemma2_to64();
        }
        self.field(1, 1) as u8
    }

    /// Output state setting for GPIO2
    pub fn gop2(&self) -> (r: u8)
        ensures
            r == field_value(self@, 2, 1),
            r < 2,
    {
        proof {
            crate::ll::bits::lemma_field_value_bound(self@, 2, 1);
            vstd::arithmetic::power2::lemma2_to64();
        }
        self.field(2, 1) as u8
    }

    /// Output state setting for GPIO3
    pub fn gop3(&self) -> (r: u8)
        ensures
            r == field_value(self@, 3, 1),
            r < 2,
    {
        proof {
            crate::ll::bits::lemma_field_value_bound(self@, 3, 1);
            vstd::arithmetic::power2::lemma2_to64();
        }
        self.field(3, 1) as u8
    }

    /// Mask for setting the output state of GPIO0
    pub fn gom0(&self) -> (r: u8)
        ensures
            r == field_value(self@, 4, 1),
            r < 2,
    {
        proof {
            crate::ll::bits::lemma_field_value_bound(self@, 4, 1);
            vstd::arithmetic::power2::lemma2_to64();
        }
        self.field(4, 1) as u8
    }

    /// Mask for setting the output state of GPIO1
    pub fn gom1(&self) -> (r: u8)
        ensures
            r == field_value(self@, 5, 1),
            r < 2,
    {
        proof {
            crate::ll::bits::lemma_field_value_bound(self@, 5, 1);
            vstd::arithmetic::power2::lemma2_to64();
        }
        self.field(5, 1) as u8
    }

    /// Mask for setting the output state of GPIO2
    pub fn gom2(&self) -> (r: u8)
        ensures
            r == field_value(self@, 6, 1),
            r < 2,
    {
        proof {
            crate::ll::bits::lemma_field_value_bound(self@, 6, 1);
            vstd::arithmetic::power2::lemma2_to64();
        }
        self.field(6, 1) as u8
    }

    /// Mask for setting the output state of GPIO3
    pub fn gom3(&self) -> (r: u8)
        ensures
            r == field_value(self@, 7, 1),
            r < 2,
    {
        proof {
            crate::ll::bits::lemma_field_value_bound(self@, 7, 1);
            vstd::arithmetic::power2::lemma2_to64();
        }
        self.field(7, 1) as u8
    }

    /// Output state setting for GPIO4
    pub fn gop4(&self) -> (r: u8)
        ensures
            r == field_value(self@, 8, 1),
            r < 2,
    {
        proof {
            crate::ll::bits::lemma_field_value_bound(self@, 8, 1);
            vstd::arithmetic::power2::lemma2_to64();
        }
        self.field(8, 1) as u8
    }

    /// Output state setting for GPIO5
    pub fn gop5(&self) -> (r: u8)
        ensures
            r == field_value(self@, 9, 1),
            r < 2,
    {
        proof {
            crate::ll::bits::lemma_field_value_bound(self@, 9, 1);
            vstd::arithmetic::power2::lemma2_to64();
        }
        self.field(9, 1) as u8
    }

    /// Output state setting for GPIO6
    pub fn gop6(&self) -> (r: u8)
        ensures
            r == field_value(self@, 10, 1),
            r < 2,
    {
        proof {
            crate::ll::bits::lemma_field_value_bound(self@, 10, 1);
            vstd::arithmetic::power2::lemma2_to64();
        }
        self.field(10, 1) as u8
    }

    /// Output state setting for GPIO7
    pub fn gop7(&self) -> (r: u8)
        ensures
            r == field_value(self@, 11, 1),
            r < 2,
    {
        proof {
            crate::ll::bits::lemma_field_value_bound(self@, 11, 1);
            vstd::arithmetic::power2::lemma2_to64();
        }
        self.field(11, 1) as u8
    }

    /// Mask for setting the output state of GPIO4
    pub fn gom4(&self) -> (r: u8)
        ensures
            r == field_value(self@, 12, 1),
            r < 2,
    {
        proof {
            crate::ll::bits::lemma_field_value_bound(self@, 12, 1);
            vstd::arithmetic::power2::lemma2_to64();
        }
        self.field(12, 1) as u8
    }

    /// Mask for setting the output state of GPIO5
    pub fn gom5(&self) -> (r: u8)
        ensures
            r == field_value(self@, 13, 1),
            r < 2,
    {
        proof {
            crate::ll::bits::lemma_field_value_bound(self@, 13, 1);
            vstd::arithmetic::power2::lemma2_to64();
        }
        self.field(13, 1) as u8
    }

    /// Mask for setting the output state of GPIO6
    pub fn gom6(&self) -> (r: u8)
        ensures
            r == field_value(self@, 14, 1),
            r < 2,
    {
        proof {
            crate::ll::bits::lemma_field_value_bound(self@, 14, 1);
            vstd::arithmetic::power2::lemma2_to64();
        }
        self.field(14, 1) as u8
    }

    /// Mask for setting the output state of GPIO7
    pub fn gom7(&self) -> (r: u8)
        ensures
            r == field_value(self@, 15, 1),
            r < 2,
    {
        proof {
            crate::ll::bits::lemma_field_value_bound(self@, 15, 1);
            vstd::arithmetic::power2::lemma2_to64();
        }
        self.field(15, 1) as u8
    }

    /// Output state setting for GPIO8
    pub fn gop8(&self) -> (r: u8)
        ensures
            r == field_value(self@, 16, 1),
            r < 2,
    {
        proof {
            crate::ll::bits::lemma_field_value_bound(self@, 16, 1);
            vstd::arithmetic::power2::lemma2_to64();
        }
        self.field(16, 1) as u8
    }

    /// Mask for setting the output state of GPIO8
    pub fn gom8(&self) -> (r: u8)
        ensures
            r == field_value(self@, 20, 1),
            r < 2,
    {
        proof {
            crate::ll::bits::lemma_field_value_bound(self@, 20, 1);
            vstd::arithmetic::power2::lemma2_to64();
        }
        self.field(20, 1) as u8
    }

}

impl W<GPIO_DOUT> {
    /// Output state setting for GPIO0
    pub fn gop0(&mut self, value: u8)
        ensures
            field_written(old(self)@, final(self)@, 0, 1, value as u64),
            field_value(final(self)@, 0, 1) == (value as nat) % 2,
            fields_kept(old(self)@, final(self)@, 0, 1),
    {
        self.set_field(0, 1, value as u64);
        proof {
            vstd::arithmetic::power2::lemma2_to64();
            vstd::arithmetic::power2::lemma2_to64_rest();
        }
    }

    /// Output state setting for GPIO1
    pub fn gop1(&mut self, value: u8)
        ensures
            field_written(old(self)@, final(self)@, 1, 1, value as u64),
            field_value(final(self)@, 1, 1) == (value as nat) % 2,
            fields_kept(old(self)@, final(self)@, 1, 1),
    {
        self.set_field(1, 1, value as u64);
        proof {
            vstd::arithmetic::power2::lemma2_to64();
            vstd::arithmetic::power2::lemma2_to64_rest();
        }
    }

    /// Output state setting for GPIO2
    pub fn gop2(&mut self, value: u8)
        ensures
            field_written(old(self)@, final(self)@, 2, 1, value as u64),
            field_value(final(self)@, 2, 1) == (value as nat) % 2,
            fields_kept(old(self)@, final(self)@, 2, 1),
    {
        self.set_field(2, 1, value as u64);
        proof {
            vstd::arithmetic::power2::lemma2_to64();
            vstd::arithmetic::power2::lemma2_to64_rest();
        }
    }

    /// Output state setting for GPIO3
    pub fn gop3(&mut self, value: u8)
        ensures
            field_written(old(self)@, final(self)@, 3, 1, value as u64),
            field_value(final(self)@, 3, 1) == (value as nat) % 2,
            fields_kept(old(self)@, final(self)@, 3, 1),
    {
        self.set_field(3, 1, value as u64);
        proof {
            vstd::arithmetic::power2::lemma2_to64();
            vstd::arithmetic::power2::lemma2_to64_rest();
        }
    }

    /// Mask for setting the output state of GPIO0
    pub fn gom0(&mut self, value: u8)
        ensures
            field_written(old(self)@, final(self)@, 4, 1, value as u64),
            field_value(final(self)@, 4, 1) == (value as nat) % 2,
            fields_kept(old(self)@, final(self)@, 4, 1),
    {
        self.set_field(4, 1, value as u64);
        proof {
            vstd::arithmetic::power2::lemma2_to64();
            vstd::arithmetic::power2::lemma2_to64_rest();
        }
    }

    /// Mask for setting the output state of GPIO1
    pub fn gom1(&mut self, value: u8)
        ensures
            field_written(old(self)@, final(self)@, 5, 1, value as u64),
            field_value(final(self)@, 5, 1) == (value as nat) % 2,
            fields_kept(old(self)@, final(self)@, 5, 1),
    {
        self.set_field(5, 1, value as u64);
        proof {
            vstd::arithmetic::power2::lemma2_to64();
            vstd::arithmetic::power2::lemma2_to64_rest();
        }
    }

    /// Mask for setting the output state of GPIO2
    pub fn gom2(&mut self, value: u8)
        ensures
            field_written(old(self)@, final(self)@, 6, 1, value as u64),
            field_value(final(self)@, 6, 1) == (value as nat) % 2,
            fields_kept(old(self)@, final(self)@, 6, 1),
    {
        self.set_field(6, 1, value as u64);
        proof {
            vstd::arithmetic::power2::lemma2_to64();
            vstd::arithmetic::power2::lemma2_to64_rest();
        }
    }

    /// Mask for setting the output state of GPIO3
    pub fn gom3(&mut self, value: u8)
        ensures
            field_written(old(self)@, final(self)@, 7, 1, value as u64),
            field_value(final(self)@, 7, 1) == (value as nat) % 2,
            fields_kept(old(self)@, final(self)@, 7, 1),
    {
        self.set_field(7, 1, value as u64);
        proof {
            vstd::arithmetic::power2::lemma2_to64();
            vstd::arithmetic::power2::lemma2_to64_rest();
        }
    }

    /// Output state setting for GPIO4
    pub fn gop4(&mut self, value: u8)
        ensures
            field_written(old(self)@, final(self)@, 8, 1, value as u64),
            field_value(final(self)@, 8, 1) == (value as nat) % 2,
            fields_kept(old(self)@, final(self)@, 8, 1),
    {
        self.set_field(8, 1, value as u64);
        proof {
            vstd::arithmetic::power2::lemma2_to64();
            vstd::arithmetic::power2::lemma2_to64_rest();
        }
    }

    /// Output state setting for GPIO5
    pub fn gop5(&mut self, value: u8)
        ensures
            field_written(old(self)@, final(self)@, 9, 1, value as u64),
            field_value(final(self)@, 9, 1) == (value as nat) % 2,
            fields_kept(old(self)@, final(self)@, 9, 1),
    {
        self.set_field(9, 1, value as u64);
        proof {
            vstd::arithmetic::power2::lemma2_to64();
            vstd::arithmetic::power2::lemma2_to64_rest();
        }
    }

    /// Output state setting for GPIO6
    pub fn gop6(&mut self, value: u8)
        ensures
            field_written(old(self)@, final(self)@, 10, 1, value as u64),
            field_value(final(self)@, 10, 1) == (value as nat) % 2,
            fields_kept(old(self)@, final(self)@, 10, 1),
    {
        self.set_field(10, 1, value as u64);
        proof {
            vstd::arithmetic::power2::lemma2_to64();
            vstd::arithmetic::power2::lemma2_to64_rest();
        }
    }

    /// Output state setting for GPIO7
    pub fn gop7(&mut self, value: u8)
        ensures
            field_written(old(self)@, final(self)@, 11, 1, value as u64),
            field_value(final(self)@, 11, 1) == (value as nat) % 2,
            fields_kept(old(self)@, final(self)@, 11, 1),
    {
        self.set_field(11, 1, value as u64);
        proof {
            vstd::arithmetic::power2::lemma2_to64();
            vstd::arithmetic::power2::lemma2_to64_rest();
        }
    }

    /// Mask for setting the output state of GPIO4
    pub fn gom4(&mut self, value: u8)
        ensures
            field_written(old(self)@, final(self)@, 12, 1, value as u64),
            field_value(final(self)@, 12, 1) == (value as nat) % 2,
            fields_kept(old(self)@, final(self)@, 12, 1),
    {
        self.set_field(12, 1, value as u64);
        proof {
            vstd::arithmetic::power2::lemma2_to64();
            vstd::arithmetic::power2::lemma2_to64_rest();
        }
    }

    /// Mask for setting the output state of GPIO5
    pub fn gom5(&mut self, value: u8)
        ensures
            field_written(old(self)@, final(self)@, 13, 1, value as u64),
            field_value(final(self)@, 13, 1) == (value as nat) % 2,
            fields_kept(old(self)@, final(self)@, 13, 1),
    {
        self.set_field(13, 1, value as u64);
        proof {
            vstd::arithmetic::power2::lemma2_to64();
            vstd::arithmetic::power2::lemma2_to64_rest();
        }
    }

    /// Mask for setting the output state of GPIO6
    pub fn gom6(&mut self, value: u8)
        ensures
            field_written(old(self)@, final(self)@, 14, 1, value as u64),
            field_value(final(self)@, 14, 1) == (value as nat) % 2,
            fields_kept(old(self)@, final(self)@, 14, 1),
    {
        self.set_field(14, 1, value as u64);
        proof {
            vstd::arithmetic::power2::lemma2_to64();
            vstd::arithmetic::power2::lemma2_to64_rest();
        }
    }

    /// Mask for setting the output state of GPIO7
    pub fn gom7(&mut self, value: u8)
        ensures
            field_written(old(self)@, final(self)@, 15, 1, value as u64),
            field_value(final(self)@, 15, 1) == (value as nat) % 2,
            fields_kept(old(self)@, final(self)@, 15, 1),
    {
        self.set_field(15, 1, value as u64);
        proof {
            vstd::arithmetic::power2::lemma2_to64();
            vstd::arithmetic::power2::lemma2_to64_rest();
        }
    }

    /// Output state setting for GPIO8
    pub fn gop8(&mut self, value: u8)
        ensures
            field_written(old(self)@, final(self)@, 16, 1, value as u64),
            field_value(final(self)@, 16, 1) == (value as nat) % 2,
            fields_kept(old(self)@, final(self)@, 16, 1),
    {
        self.set_field(16, 1, value as u64);
        proof {
            vstd::arithmetic::power2::lemma2_to64();
            vstd::arithmetic::power2::lemma2_to64_rest();
        }
    }

    /// Mask for setting the output state of GPIO8
    pub fn gom8(&mut self, value: u8)
        ensures
            field_written(old(self)@, final(self)@, 20, 1, value as u64),
            field_value(final(self)@, 20, 1) == (value as nat) % 2,
            fields_kept(old(self)@, final(self)@, 20, 1),
    {
        self.set_field(20, 1, value as u64);
        proof {
            vstd::arithmetic::power2::lemma2_to64();
            vstd::arithmetic::power2::lemma2_to64_rest();
        }
    }

}

/// GPIO Interrupt Enable
#[allow(non_camel_case_types)]
pub struct GPIO_IRQE;

impl Register for GPIO_IRQE {
    open spec fn spec_id() -> u8 {
        0x26
    }

    open spec fn spec_sub_id() -> u16 {
        0x10
    }

    open spec fn spec_len() -> usize {
        4
    }

    fn id() -> (r: u8) {
        0x26
    }

    fn sub_id() -> (r: u16) {
        0x10
    }

    fn len() -> (r: usize) {
        4
    }
}

impl Readable for GPIO_IRQE {}

impl Writable for GPIO_IRQE {}

impl R<GPIO_IRQE> {
    /// GPIO IRQ Enable for GPIO0 input
    pub fn girqe0(&self) -> (r: u8)
        ensures
            r == field_value(self@, 0, 1),
            r < 2,
    {
        proof {
            crate::ll::bits::lemma_field_value_bound(self@, 0, 1);
            vstd::arithmetic::power2::lemma2_to64();
        }
        self.field(0, 1) as u8
    }

    /// GPIO IRQ Enable for GPIO1 input
    pub fn girqe1(&self) -> (r: u8)
        ensures
            r == field_value(self@, 1, 1),
            r < 2,
    {
        proof {
            crate::ll::bits::lemma_field_value_bound(self@, 1, 1);
            vstd::arithmetic::power2::lemma2_to64();
        }
        self.field(1, 1) as u8
    }

    /// GPIO IRQ Enable for GPIO2 input
    pub fn girqe2(&self) -> (r: u8)
        ensures
            r == field_value(self@, 2, 1),
            r < 2,
    {
        proof {
            crate::ll::bits::lemma_field_value_bound(self@, 2, 1);
            vstd::arithmetic::power2::lemma2_to64();
        }
        self.field(2, 1) as u8
    }

    /// GPIO IRQ Enable for GPIO3 input
    pub fn girqe3(&self) -> (r: u8)
        ensures
            r == field_value(self@, 3, 1),
            r < 2,
    {
        proof {
            crate::ll::bits::lemma_field_value_bound(self@, 3, 1);
            vstd::arithmetic::power2::lemma2_to64();
        }
        self.field(3, 1) as u8
    }

    /// GPIO IRQ Enable for GPIO4 input
    pub fn girqe4(&self) -> (r: u8)
        ensures
            r == field_value(self@, 4, 1),
            r < 2,
    {
        proof {
            crate::ll::bits::lemma_field_value_bound(self@, 4, 1);
            vstd::arithmetic::power2::lemma2_to64();
        }
        self.field(4, 1) as u8
    }

    /// GPIO IRQ Enable for GPIO5 input
    pub fn girqe5(&self) -> (r: u8)
        ensures
            r == field_value(self@, 5, 1),
            r < 2,
    {
        proof {
            crate::ll::bits::lemma_field_value_bound(self@, 5, 1);
            vstd::arithmetic::power2::lemma2_to64();
        }
        self.field(5, 1) as u8
    }

    /// GPIO IRQ Enable for GPIO6 input
    pub fn girqe6(&self) -> (r: u8)
        ensures
            r == field_value(self@, 6, 1),
            r < 2,
    {
        proof {
            crate::ll::bits::lemma_field_value_bound(self@, 6, 1);
            vstd::arithmetic::power2::lemma2_to64();
        }
        self.field(6, 1) as u8
    }

    /// GPIO IRQ Enable for GPIO7 input
    pub fn girqe7(&self) -> (r: u8)
        ensures
            r == field_value(self@, 7, 1),
            r < 2,
    {
        proof {
            crate::ll::bits::lemma_field_value_bound(self@, 7, 1);
            vstd::arithmetic::power2::lemma2_to64();
        }
        self.field(7, 1) as u8
    }

    /// GPIO IRQ Enable for GPIO8 input
    pub fn girqe8(&self) -> (r: u8)
        ensures
            r == field_value(self@, 8, 1),
            r < 2,
    {
        proof {
            crate::ll::bits::lemma_field_value_bound(self@, 8, 1);
            vstd::arithmetic::power2::lemma2_to64();
        }
        self.field(8, 1) as u8
    }

}

impl W<GPIO_IRQE> {
    /// GPIO IRQ Enable for GPIO0 input
    pub fn girqe0(&mut self, value: u8)
        ensures
            field_written(old(self)@, final(self)@, 0, 1, value as u64),
            field_value(final(self)@, 0, 1) == (value as nat) % 2,
            fields_kept(old(self)@, final(self)@, 0, 1),
    {
        self.set_field(0, 1, value as u64);
        proof {
            vstd::arithmetic::power2::lemma2_to64();
            vstd::arithmetic::power2::lemma2_to64_rest();
        }
    }

    /// GPIO IRQ Enable for GPIO1 input
    pub fn girqe1(&mut self, value: u8)
        ensures
            field_written(old(self)@, final(self)@, 1, 1, value as u64),
            field_value(final(self)@, 1, 1) == (value as nat) % 2,
            fields_kept(old(self)@, final(self)@, 1, 1),
    {
        self.set_field(1, 1, value as u64);
        proof {
            vstd::arithmetic::power2::lemma2_to64();
            vstd::arithmetic::power2::lemma2_to64_rest();
        }
    }

    /// GPIO IRQ Enable for GPIO2 input
    pub fn girqe2(&mut self, value: u8)
        ensures
            field_written(old(self)@, final(self)@, 2, 1, value as u64),
            field_value(final(self)@, 2, 1) == (value as nat) % 2,
            fields_kept(old(self)@, final(self)@, 2, 1),
    {
        self.set_field(2, 1, value as u64);
        proof {
            vstd::arithmetic::power2::lemma2_to64();
            vstd::arithmetic::power2::lemma2_to64_rest();
        }
    }

    /// GPIO IRQ Enable for GPIO3 input
    pub fn girqe3(&mut self, value: u8)
        ensures
            field_written(old(self)@, final(self)@, 3, 1, value as u64),
            field_value(final(self)@, 3, 1) == (value as nat) % 2,
            fields_kept(old(self)@, final(self)@, 3, 1),
    {
        self.set_field(3, 1, value as u64);
        proof {
            vstd::arithmetic::power2::lemma2_to64();
            vstd::arithmetic::power2::lemma2_to64_rest();
        }
    }

    /// GPIO IRQ Enable for GPIO4 input
    pub fn girqe4(&mut self, value: u8)
        ensures
            field_written(old(self)@, final(self)@, 4, 1, value as u64),
            field_value(final(self)@, 4, 1) == (value as nat) % 2,
            fields_kept(old(self)@, final(self)@, 4, 1),
    {
        self.set_field(4, 1, value as u64);
        proof {
            vstd::arithmetic::power2::lemma2_to64();
            vstd::arithmetic::power2::lemma2_to64_rest();
        }
    }

    /// GPIO IRQ Enable for GPIO5 input
    pub fn girqe5(&mut self, value: u8)
        ensures
            field_written(old(self)@, final(self)@, 5, 1, value as u64),
            field_value(final(self)@, 5, 1) == (value as nat) % 2,
            fields_kept(old(self)@, final(self)@, 5, 1),
    {
        self.set_field(5, 1, value as u64);
        proof {
            vstd::arithmetic::power2::lemma2_to64();
            vstd::arithmetic::power2::lemma2_to64_rest();
        }
    }

    /// GPIO IRQ Enable for GPIO6 input
    pub fn girqe6(&mut self, value: u8)
        ensures
            field_written(old(self)@, final(self)@, 6, 1, value as u64),
            field_value(final(self)@, 6, 1) == (value as nat) % 2,
            fields_kept(old(self)@, final(self)@, 6, 1),
    {
        self.set_field(6, 1, value as u64);
        proof {
            vstd::arithmetic::power2::lemma2_to64();
            vstd::arithmetic::power2::lemma2_to64_rest();
        }
    }

    /// GPIO IRQ Enable for GPIO7 input
    pub fn girqe7(&mut self, value: u8)
        ensures
            field_written(old(self)@, final(self)@, 7, 1, value as u64),
            field_value(final(self)@, 7, 1) == (value as nat) % 2,
            fields_kept(old(self)@, final(self)@, 7, 1),
    {
        self.set_field(7, 1, value as u64);
        proof {
            vstd::arithmetic::power2::lemma2_to64();
            vstd::arithmetic::power2::lemma2_to64_rest();
        }
    }

    /// GPIO IRQ Enable for GPIO8 input
    pub fn girqe8(&mut self, value: u8)
        ensures
            field_written(old(self)@, final(self)@, 8, 1, value as u64),
            field_value(final(self)@, 8, 1) == (value as nat) % 2,
            fields_kept(old(self)@, final(self)@, 8, 1),
    {
        self.set_field(8, 1, value as u64);
        proof {
            vstd::arithmetic::power2::lemma2_to64();
            vstd::arithmetic::power2::lemma2_to64_rest();
        }
    }

}

/// GPIO Interrupt Sense Selection
#[allow(non_camel_case_types)]
pub struct GPIO_ISEN;

impl Register for GPIO_ISEN {
    open spec fn spec_id() -> u8 {
        0x26
    }

    open spec fn spec_sub_id() -> u16 {
        0x14
    }

    open spec fn spec_len() -> usize {
        4
    }

    fn id() -> (r: u8) {
        0x26
    }

    fn sub_id() -> (r: u16) {
        0x14
    }

    fn len() -> (r: usize) {
        4
    }
}

impl Readable for GPIO_ISEN {}

impl Writable for GPIO_ISEN {}

impl R<GPIO_ISEN> {
    /// GPIO IRQ sense for GPIO0 input
    pub fn gisen0(&self) -> (r: u8)
        ensures
            r == field_value(self@, 0, 1),
            r < 2,
    {
        proof {
            crate::ll::bits::lemma_field_value_bound(self@, 0, 1);
            vstd::arithmetic::power2::lemma2_to64();
        }
        self.field(0, 1) as u8
    }

    /// GPIO IRQ sense for GPIO1 input
    pub fn gisen1(&self) -> (r: u8)
        ensures
            r == field_value(self@, 1, 1),
            r < 2,
    {
        proof {
            crate::ll::bits::lemma_field_value_bound(self@, 1, 1);
            vstd::arithmetic::power2::lemma2_to64();
        }
        self.field(1, 1) as u8
    }

    /// GPIO IRQ sense for GPIO2 input
    pub fn gisen2(&self) -> (r: u8)
        ensures
            r == field_value(self@, 2, 1),
            r < 2,
    {
        proof {
            crate::ll::bits::lemma_field_value_bound(self@, 2, 1);
            vstd::arithmetic::power2::lemma2_to64();
        }
        self.field(2, 1) as u8
    }

    /// GPIO IRQ sense for GPIO3 input
    pub fn gisen3(&self) -> (r: u8)
        ensures
            r == field_value(self@, 3, 1),
            r < 2,
    {
        proof {
            crate::ll::bits::lemma_field_value_bound(self@, 3, 1);
            vstd::arithmetic::power2::lemma2_to64();
        }
        self.field(3, 1) as u8
    }

    /// GPIO IRQ sense for GPIO4 input
    pub fn gisen4(&self) -> (r: u8)
        ensures
            r == field_value(self@, 4, 1),
            r < 2,
    {
        proof {
            crate::ll::bits::lemma_field_value_bound(self@, 4, 1);
            vstd::arithmetic::power2::lemma2_to64();
        }
        self.field(4, 1) as u8
    }

    /// GPIO IRQ sense for GPIO5 input
    pub fn gisen5(&self) -> (r: u8)
        ensures
            r == field_value(self@, 5, 1),
            r < 2,
    {
        proof {
            crate::ll::bits::lemma_field_value_bound(self@, 5, 1);
            vstd::arithmetic::power2::lemma2_to64();
        }
        self.field(5, 1) as u8
    }

    /// GPIO IRQ sense for GPIO6 input
    pub fn gisen6(&self) -> (r: u8)
        ensures
            r == field_value(self@, 6, 1),
            r < 2,
    {
        proof {
            crate::ll::bits::lemma_field_value_bound(self@, 6, 1);
            vstd::arithmetic::power2::lemma2_to64();
        }
        self.field(6, 1) as u8
    }

    /// GPIO IRQ sense for GPIO7 input
    pub fn gisen7(&self) -> (r: u8)
        ensures
            r == field_value(self@, 7, 1),
            r < 2,
    {
        proof {
            crate::ll::bits::lemma_field_value_bound(self@, 7, 1);
            vstd::arithmetic::power2::lemma2_to64();
        }
        self.field(7, 1) as u8
    }

    /// GPIO IRQ sense for GPIO8 input
    pub fn gisen8(&self) -> (r: u8)
        ensures
            r == field_value(self@, 8, 1),
            r < 2,
    {
        proof {
            crate::ll::bits::lemma_field_value_bound(self@, 8, 1);
            vstd::arithmetic::power2::lemma2_to64();
        }
        self.field(8, 1) as u8
    }

}

impl W<GPIO_ISEN> {
    /// GPIO IRQ sense for GPIO0 input
    pub fn gisen0(&mut self, value: u8)
        ensures
            field_written(old(self)@, final(self)@, 0, 1, value as u64),
            field_value(final(self)@, 0, 1) == (value as nat) % 2,
            fields_kept(old(self)@, final(self)@, 0, 1),
    {
        self.set_field(0, 1, value as u64);
        proof {
            vstd::arithmetic::power2::lemma2_to64();
            vstd::arithmetic::power2::lemma2_to64_rest();
        }
    }

    /// GPIO IRQ sense for GPIO1 input
    pub fn gisen1(&mut self, value: u8)
        ensures
            field_written(old(self)@, final(self)@, 1, 1, value as u64),
            field_value(final(self)@, 1, 1) == (value as nat) % 2,
            fields_kept(old(self)@, final(self)@, 1, 1),
    {
        self.set_field(1, 1, value as u64);
        proof {
            vstd::arithmetic::power2::lemma2_to64();
            vstd::arithmetic::power2::lemma2_to64_rest();
        }
    }

    /// GPIO IRQ sense for GPIO2 input
    pub fn gisen2(&mut self, value: u8)
        ensures
            field_written(old(self)@, final(self)@, 2, 1, value as u64),
            field_value(final(self)@, 2, 1) == (value as nat) % 2,
            fields_kept(old(self)@, final(self)@, 2, 1),
    {
        self.set_field(2, 1, value as u64);
        proof {
            vstd::arithmetic::power2::lemma2_to64();
            vstd::arithmetic::power2::lemma2_to64_rest();
        }
    }

    /// GPIO IRQ sense for GPIO3 input
    pub fn gisen3(&mut self, value: u8)
        ensures
            field_written(old(self)@, final(self)@, 3, 1, value as u64),
            field_value(final(self)@, 3, 1) == (value as nat) % 2,
            fields_kept(old(self)@, final(self)@, 3, 1),
    {
        self.set_field(3, 1, value as u64);
        proof {
            vstd::arithmetic::power2::lemma2_to64();
            vstd::arithmetic::power2::lemma2_to64_rest();
        }
    }

    /// GPIO IRQ sense for GPIO4 input
    pub fn gisen4(&mut self, value: u8)
        ensures
            field_written(old(self)@, final(self)@, 4, 1, value as u64),
            field_value(final(self)@, 4, 1) == (value as nat) % 2,
            fields_kept(old(self)@, final(self)@, 4, 1),
    {
        self.set_field(4, 1, value as u64);
        proof {
            vstd::arithmetic::power2::lemma2_to64();
            vstd::arithmetic::power2::lemma2_to64_rest();
        }
    }

    /// GPIO IRQ sense for GPIO5 input
    pub fn gisen5(&mut self, value: u8)
        ensures
            field_written(old(self)@, final(self)@, 5, 1, value as u64),
            field_value(final(self)@, 5, 1) == (value as nat) % 2,
            fields_kept(old(self)@, final(self)@, 5, 1),
    {
        self.set_field(5, 1, value as u64);
        proof {
            vstd::arithmetic::power2::lemma2_to64();
            vstd::arithmetic::power2::lemma2_to64_rest();
        }
    }

    /// GPIO IRQ sense for GPIO6 input
    pub fn gisen6(&mut self, value: u8)
        ensures
            field_written(old(self)@, final(self)@, 6, 1, value as u64),
            field_value(final(self)@, 6, 1) == (value as nat) % 2,
            fields_kept(old(self)@, final(self)@, 6, 1),
    {
        self.set_field(6, 1, value as u64);
        proof {
            vstd::arithmetic::power2::lemma2_to64();
            vstd::arithmetic::power2::lemma2_to64_rest();
        }
    }

    /// GPIO IRQ sense for GPIO7 input
    pub fn gisen7(&mut self, value: u8)
        ensures
            field_written(old(self)@, final(self)@, 7, 1, value as u64),
            field_value(final(self)@, 7, 1) == (value as nat) % 2,
            fields_kept(old(self)@, final(self)@, 7, 1),
    {
        self.set_field(7, 1, value as u64);
        proof {
            vstd::arithmetic::power2::lemma2_to64();
            vstd::arithmetic::power2::lemma2_to64_rest();
        }
    }

    /// GPIO IRQ sense for GPIO8 input
    pub fn gisen8(&mut self, value: u8)
        ensures
            field_written(old(self)@, final(self)@, 8, 1, value as u64),
            field_value(final(self)@, 8, 1) == (value as nat) % 2,
            fields_kept(old(self)@, final(self)@, 8, 1),
    {
        self.set_field(8, 1, value as u64);
        proof {
            vstd::arithmetic::power2::lemma2_to64();
            vstd::arithmetic::power2::lemma2_to64_rest();
        }
    }

}

/// GPIO Interrupt Mode (Level / Edge)
#[allow(non_camel_case_types)]
pub struct GPIO_IMODE;

impl Register for GPIO_IMODE {
    open spec fn spec_id() -> u8 {
        0x26
    }

    open spec fn spec_sub_id() -> u16 {
        0x18
    }

    open spec fn spec_len() -> usize {
        4
    }

    fn id() -> (r: u8) {
        0x26
    }

    fn sub_id() -> (r: u16) {
        0x18
    }

    fn len() -> (r: usize) {
        4
    }
}

impl Readable for GPIO_IMODE {}

impl Writable for GPIO_IMODE {}

impl R<GPIO_IMODE> {
    /// GPIO IRQ mode selection for GPIO0 input
    pub fn gimod0(&self) -> (r: u8)
        ensures
            r == field_value(self@, 0, 1),
            r < 2,
    {
        proof {
            crate::ll::bits::lemma_field_value_bound(self@, 0, 1);
            vstd::arithmetic::power2::lemma2_to64();
        }
        self.field(0, 1) as u8
    }

    /// GPIO IRQ mode selection for GPIO1 input
    pub fn gimod1(&self) -> (r: u8)
        ensures
            r == field_value(self@, 1, 1),
            r < 2,
    {
        proof {
            crate::ll::bits::lemma_field_value_bound(self@, 1, 1);
            vstd::arithmetic::power2::lemma2_to64();
        }
        self.field(1, 1) as u8
    }

    /// GPIO IRQ mode selection for GPIO2 input
    pub fn gimod2(&self) -> (r: u8)
        ensures
            r == field_value(self@, 2, 1),
            r < 2,
    {
        proof {
            crate::ll::bits::lemma_field_value_bound(self@, 2, 1);
            vstd::arithmetic::power2::lemma2_to64();
        }
        self.field(2, 1) as u8
    }

    /// GPIO IRQ mode selection for GPIO3 input
    pub fn gimod3(&self) -> (r: u8)
        ensures
            r == field_value(self@, 3, 1),
            r < 2,
    {
        proof {
            crate::ll::bits::lemma_field_value_bound(self@, 3, 1);
            vstd::arithmetic::power2::lemma2_to64();
        }
        self.field(3, 1) as u8
    }

    /// GPIO IRQ mode selection for GPIO4 input
    pub fn gimod4(&self) -> (r: u8)
        ensures
            r == field_value(self@, 4, 1),
            r < 2,
    {
        proof {
            crate::ll::bits::lemma_field_value_bound(self@, 4, 1);
            vstd::arithmetic::power2::lemma2_to64();
        }
        self.field(4, 1) as u8
    }

    /// GPIO IRQ mode selection for GPIO5 input
    pub fn gimod5(&self) -> (r: u8)
        ensures
            r == field_value(self@, 5, 1),
            r < 2,
    {
        proof {
            crate::ll::bits::lemma_field_value_bound(self@, 5, 1);
            vstd::arithmetic::power2::lemma2_to64();
        }
        self.field(5, 1) as u8
    }

    /// GPIO IRQ mode selection for GPIO6 input
    pub fn gimod6(&self) -> (r: u8)
        ensures
            r == field_value(self@, 6, 1),
            r < 2,
    {
        proof {
            crate::ll::bits::lemma_field_value_bound(self@, 6, 1);
            vstd::arithmetic::power2::lemma2_to64();
        }
        self.field(6, 1) as u8
    }

    /// GPIO IRQ mode selection for GPIO7 input
    pub fn gimod7(&self) -> (r: u8)
        ensures
            r == field_value(self@, 7, 1),
            r < 2,
    {
        proof {
            crate::ll::bits::lemma_field_value_bound(self@, 7, 1);
            vstd::arithmetic::power2::lemma2_to64();
        }
        self.field(7, 1) as u8
    }

    /// GPIO IRQ mode selection for GPIO8 input
    pub fn gimod8(&self) -> (r: u8)
        ensures
            r == field_value(self@, 8, 1),
            r < 2,
    {
        proof {
            crate::ll::bits::lemma_field_value_bound(self@, 8, 1);
            vstd::arithmetic::power2::lemma2_to64();
        }
        self.field(8, 1) as u8
    }

}

impl W<GPIO_IMODE> {
    /// GPIO IRQ mode selection for GPIO0 input
    pub fn gimod0(&mut self, value: u8)
        ensures
            field_written(old(self)@, final(self)@, 0, 1, value as u64),
            field_value(final(self)@, 0, 1) == (value as nat) % 2,
            fields_kept(old(self)@, final(self)@, 0, 1),
    {
        self.set_field(0, 1, value as u64);
        proof {
            vstd::arithmetic::power2::lemma2_to64();
            vstd::arithmetic::power2::lemma2_to64_rest();
        }
    }

    /// GPIO IRQ mode selection for GPIO1 input
    pub fn gimod1(&mut self, value: u8)
        ensures
            field_written(old(self)@, final(self)@, 1, 1, value as u64),
            field_value(final(self)@, 1, 1) == (value as nat) % 2,
            fields_kept(old(self)@, final(self)@, 1, 1),
    {
        self.set_field(1, 1, value as u64);
        proof {
            vstd::arithmetic::power2::lemma2_to64();
            vstd::arithmetic::power2::lemma2_to64_rest();
        }
    }

    /// GPIO IRQ mode selection for GPIO2 input
    pub fn gimod2(&mut self, value: u8)
        ensures
            field_written(old(self)@, final(self)@, 2, 1, value as u64),
            field_value(final(self)@, 2, 1) == (value as nat) % 2,
            fields_kept(old(self)@, final(self)@, 2, 1),
    {
        self.set_field(2, 1, value as u64);
        proof {
            vstd::arithmetic::power2::lemma2_to64();
            vstd::arithmetic::power2::lemma2_to64_rest();
        }
    }

    /// GPIO IRQ mode selection for GPIO3 input
    pub fn gimod3(&mut self, value: u8)
        ensures
            field_written(old(self)@, final(self)@, 3, 1, value as u64),
            field_value(final(self)@, 3, 1) == (value as nat) % 2,
            fields_kept(old(self)@, final(self)@, 3, 1),
    {
        self.set_field(3, 1, value as u64);
        proof {
            vstd::arithmetic::power2::lemma2_to64();
            vstd::arithmetic::power2::lemma2_to64_rest();
        }
    }

    /// GPIO IRQ mode selection for GPIO4 input
    pub fn gimod4(&mut self, value: u8)
        ensures
            field_written(old(self)@, final(self)@, 4, 1, value as u64),
            field_value(final(self)@, 4, 1) == (value as nat) % 2,
            fields_kept(old(self)@, final(self)@, 4, 1),
    {
        self.set_field(4, 1, value as u64);
        proof {
            vstd::arithmetic::power2::lemma2_to64();
            vstd::arithmetic::power2::lemma2_to64_rest();
        }
    }

    /// GPIO IRQ mode selection for GPIO5 input
    pub fn gimod5(&mut self, value: u8)
        ensures
            field_written(old(self)@, final(self)@, 5, 1, value as u64),
            field_value(final(self)@, 5, 1) == (value as nat) % 2,
            fields_kept(old(self)@, final(self)@, 5, 1),
    {
        self.set_field(5, 1, value as u64);
        proof {
            vstd::arithmetic::power2::lemma2_to64();
            vstd::arithmetic::power2::lemma2_to64_rest();
        }
    }

    /// GPIO IRQ mode selection for GPIO6 input
    pub fn gimod6(&mut self, value: u8)
        ensures
            field_written(old(self)@, final(self)@, 6, 1, value as u64),
            field_value(final(self)@, 6, 1) == (value as nat) % 2,
            fields_kept(old(self)@, final(self)@, 6, 1),
    {
        self.set_field(6, 1, value as u64);
        proof {
            vstd::arithmetic::power2::lemma2_to64();
            vstd::arithmetic::power2::lemma2_to64_rest();
        }
    }

    /// GPIO IRQ mode selection for GPIO7 input
    pub fn gimod7(&mut self, value: u8)
        ensures
            field_written(old(self)@, final(self)@, 7, 1, value as u64),
            field_value(final(self)@, 7, 1) == (value as nat) % 2,
            fields_kept(old(self)@, final(self)@, 7, 1),
    {
        self.set_field(7, 1, value as u64);
        proof {
            vstd::arithmetic::power2::lemma2_to64();
            vstd::arithmetic::power2::lemma2_to64_rest();
        }
    }

    /// GPIO IRQ mode selection for GPIO8 input
    pub fn gimod8(&mut self, value: u8)
        ensures
            field_written(old(self)@, final(self)@, 8, 1, value as u64),
            field_value(final(self)@, 8, 1) == (value as nat) % 2,
            fields_kept(old(self)@, final(self)@, 8, 1),
    {
        self.set_field(8, 1, value as u64);
        proof {
            vstd::arithmetic::power2::lemma2_to64();
            vstd::arithmetic::power2::lemma2_to64_rest();
        }
    }

}

/// GPIO Interrupt “Both Edge” Select
#[allow(non_camel_case_types)]
pub struct GPIO_IBES;

impl Register for GPIO_IBES {
    open spec fn spec_id() -> u8 {
        0x26
    }

    open spec fn spec_sub_id() -> u16 {
        0x1C
    }

    open spec fn spec_len() -> usize {
        4
    }

    fn id() -> (r: u8) {
        0x26
    }

    fn sub_id() -> (r: u16) {
        0x1C
    }

    fn len() -> (r: usize) {
        4
    }
}

impl Readable for GPIO_IBES {}

impl Writable for GPIO_IBES {}

impl R<GPIO_IBES> {
    /// GPIO IRQ "Both Edges" selection for GPIO0 input
    pub fn gibes0(&self) -> (r: u8)
        ensures
            r == field_value(self@, 0, 1),
            r < 2,
    {
        proof {
            crate::ll::bits::lemma_field_value_bound(self@, 0, 1);
            vstd::arithmetic::power2::lemma2_to64();
        }
        self.field(0, 1) as u8
    }

    /// GPIO IRQ "Both Edges" selection for GPIO1 input
    pub fn gibes1(&self) -> (r: u8)
        ensures
            r == field_value(self@, 1, 1),
            r < 2,
    {
        proof {
            crate::ll::bits::lemma_field_value_bound(self@, 1, 1);
            vstd::arithmetic::power2::lemma2_to64();
        }
        self.field(1, 1) as u8
    }

    /// GPIO IRQ "Both Edges" selection for GPIO2 input
    pub fn gibes2(&self) -> (r: u8)
        ensures
            r == field_value(self@, 2, 1),
            r < 2,
    {
        proof {
            crate::ll::bits::lemma_field_value_bound(self@, 2, 1);
            vstd::arithmetic::power2::lemma2_to64();
        }
        self.field(2, 1) as u8
    }

    /// GPIO IRQ "Both Edges" selection for GPIO3 input
    pub fn gibes3(&self) -> (r: u8)
        ensures
            r == field_value(self@, 3, 1),
            r < 2,
    {
        proof {
            crate::ll::bits::lemma_field_value_bound(self@, 3, 1);
            vstd::arithmetic::power2::lemma2_to64();
        }
        self.field(3, 1) as u8
    }

    /// GPIO IRQ "Both Edges" selection for GPIO4 input
    pub fn gibes4(&self) -> (r: u8)
        ensures
            r == field_value(self@, 4, 1),
            r < 2,
    {
        proof {
            crate::ll::bits::lemma_field_value_bound(self@, 4, 1);
            vstd::arithmetic::power2::lemma2_to64();
        }
        self.field(4, 1) as u8
    }

    /// GPIO IRQ "Both Edges" selection for GPIO5 input
    pub fn gibes5(&self) -> (r: u8)
        ensures
            r == field_value(self@, 5, 1),
            r < 2,
    {
        proof {
            crate::ll::bits::lemma_field_value_bound(self@, 5, 1);
            vstd::arithmetic::power2::lemma2_to64();
        }
        self.field(5, 1) as u8
    }

    /// GPIO IRQ "Both Edges" selection for GPIO6 input
    pub fn gibes6(&self) -> (r: u8)
        ensures
            r == field_value(self@, 6, 1),
            r < 2,
    {
        proof {
            crate::ll::bits::lemma_field_value_bound(self@, 6, 1);
            vstd::arithmetic::power2::lemma2_to64();
        }
        self.field(6, 1) as u8
    }

    /// GPIO IRQ "Both Edges" selection for GPIO7 input
    pub fn gibes7(&self) -> (r: u8)
        ensures
            r == field_value(self@, 7, 1),
            r < 2,
    {
        proof {
            crate::ll::bits::lemma_field_value_bound(self@, 7, 1);
            vstd::arithmetic::power2::lemma2_to64();
        }
        self.field(7, 1) as u8
    }

    /// GPIO IRQ "Both Edges" selection for GPIO8 input
    pub fn gibes8(&self) -> (r: u8)
        ensures
            r == field_value(self@, 8, 1),
            r < 2,
    {
        proof {
            crate::ll::bits::lemma_field_value_bound(self@, 8, 1);
            vstd::arithmetic::power2::lemma2_to64();
        }
        self.field(8, 1) as u8
    }

}

impl W<GPIO_IBES> {
    /// GPIO IRQ "Both Edges" selection for GPIO0 input
    pub fn gibes0(&mut self, value: u8)
        ensures
            field_written(old(self)@, final(self)@, 0, 1, value as u64),
            field_value(final(self)@, 0, 1) == (value as nat) % 2,
            fields_kept(old(self)@, final(self)@, 0, 1),
    {
        self.set_field(0, 1, value as u64);
        proof {
            vstd::arithmetic::power2::lemma2_to64();
            vstd::arithmetic::power2::lemma2_to64_rest();
        }
    }

    /// GPIO IRQ "Both Edges" selection for GPIO1 input
    pub fn gibes1(&mut self, value: u8)
        ensures
            field_written(old(self)@, final(self)@, 1, 1, value as u64),
            field_value(final(self)@, 1, 1) == (value as nat) % 2,
            fields_kept(old(self)@, final(self)@, 1, 1),
    {
        self.set_field(1, 1, value as u64);
        proof {
            vstd::arithmetic::power2::lemma2_to64();
            vstd::arithmetic::power2::lemma2_to64_rest();
        }
    }

    /// GPIO IRQ "Both Edges" selection for GPIO2 input
    pub fn gibes2(&mut self, value: u8)
        ensures
            field_written(old(self)@, final(self)@, 2, 1, value as u64),
            field_value(final(self)@, 2, 1) == (value as nat) % 2,
            fields_kept(old(self)@, final(self)@, 2, 1),
    {
        self.set_field(2, 1, value as u64);
        proof {
            vstd::arithmetic::power2::lemma2_to64();
            vstd::arithmetic::power2::lemma2_to64_rest();
        }
    }

    /// GPIO IRQ "Both Edges" selection for GPIO3 input
    pub fn gibes3(&mut self, value: u8)
        ensures
            field_written(old(self)@, final(self)@, 3, 1, value as u64),
            field_value(final(self)@, 3, 1) == (value as nat) % 2,
            fields_kept(old(self)@, final(self)@, 3, 1),
    {
        self.set_field(3, 1, value as u64);
        proof {
            vstd::arithmetic::power2::lemma2_to64();
            vstd::arithmetic::power2::lemma2_to64_rest();
        }
    }

    /// GPIO IRQ "Both Edges" selection for GPIO4 input
    pub fn gibes4(&mut self, value: u8)
        ensures
            field_written(old(self)@, final(self)@, 4, 1, value as u64),
            field_value(final(self)@, 4, 1) == (value as nat) % 2,
            fields_kept(old(self)@, final(self)@, 4, 1),
    {
        self.set_field(4, 1, value as u64);
        proof {
            vstd::arithmetic::power2::lemma2_to64();
            vstd::arithmetic::power2::lemma2_to64_rest();
        }
    }

    /// GPIO IRQ "Both Edges" selection for GPIO5 input
    pub fn gibes5(&mut self, value: u8)
        ensures
            field_written(old(self)@, final(self)@, 5, 1, value as u64),
            field_value(final(self)@, 5, 1) == (value as nat) % 2,
            fields_kept(old(self)@, final(self)@, 5, 1),
    {
        self.set_field(5, 1, value as u64);
        proof {
            vstd::arithmetic::power2::lemma2_to64();
            vstd::arithmetic::power2::lemma2_to64_rest();
        }
    }

    /// GPIO IRQ "Both Edges" selection for GPIO6 input
    pub fn gibes6(&mut self, value: u8)
        ensures
            field_written(old(self)@, final(self)@, 6, 1, value as u64),
            field_value(final(self)@, 6, 1) == (value as nat) % 2,
            fields_kept(old(self)@, final(self)@, 6, 1),
    {
        self.set_field(6, 1, value as u64);
        proof {
            vstd::arithmetic::power2::lemma2_to64();
            vstd::arithmetic::power2::lemma2_to64_rest();
        }
    }

    /// GPIO IRQ "Both Edges" selection for GPIO7 input
    pub fn gibes7(&mut self, value: u8)
        ensures
            field_written(old(self)@, final(self)@, 7, 1, value as u64),
            field_value(final(self)@, 7, 1) == (value as nat) % 2,
            fields_kept(old(self)@, final(self)@, 7, 1),
    {
        self.set_field(7, 1, value as u64);
        proof {
            vstd::arithmetic::power2::lemma2_to64();
            vstd::arithmetic::power2::lemma2_to64_rest();
        }
    }

    /// GPIO IRQ "Both Edges" selection for GPIO8 input
    pub fn gibes8(&mut self, value: u8)
        ensures
            field_written(old(self)@, final(self)@, 8, 1, value as u64),
            field_value(final(self)@, 8, 1) == (value as nat) % 2,
            fields_kept(old(self)@, final(self)@, 8, 1),
    {
        self.set_field(8, 1, value as u64);
        proof {
            vstd::arithmetic::power2::lemma2_to64();
            vstd::arithmetic::power2::lemma2_to64_rest();
        }
    }

}

/// GPIO Interrupt Latch Clear
#[allow(non_camel_case_types)]
pub struct GPIO_ICLR;

impl Register for GPIO_ICLR {
    open spec fn spec_id() -> u8 {
        0x26
    }

    open spec fn spec_sub_id() -> u16 {
        0x20
    }

    open spec fn spec_len() -> usize {
        4
    }

    fn id() -> (r: u8) {
        0x26
    }

    fn sub_id() -> (r: u16) {
        0x20
    }

    fn len() -> (r: usize) {
        4
    }
}

impl Readable for GPIO_ICLR {}

impl Writable for GPIO_ICLR {}

impl R<GPIO_ICLR> {
    /// GPIO IRQ latch clear for GPIO0 input
    pub fn giclr0(&self) -> (r: u8)
        ensures
            r == field_value(self@, 0, 1),
            r < 2,
    {
        proof {
            crate::ll::bits::lemma_field_value_bound(self@, 0, 1);
            vstd::arithmetic::power2::lemma2_to64();
        }
        self.field(0, 1) as u8
    }

    /// GPIO IRQ latch clear for GPIO1 input
    pub fn giclr1(&self) -> (r: u8)
        ensures
            r == field_value(self@, 1, 1),
            r < 2,
    {
        proof {
            crate::ll::bits::lemma_field_value_bound(self@, 1, 1);
            vstd::arithmetic::power2::lemma2_to64();
        }
        self.field(1, 1) as u8
    }

    /// GPIO IRQ latch clear for GPIO2 input
    pub fn giclr2(&self) -> (r: u8)
        ensures
            r == field_value(self@, 2, 1),
            r < 2,
    {
        proof {
            crate::ll::bits::lemma_field_value_bound(self@, 2, 1);
            vstd::arithmetic::power2::lemma2_to64();
        }
        self.field(2, 1) as u8
    }

    /// GPIO IRQ latch clear for GPIO3 input
    pub fn giclr3(&self) -> (r: u8)
        ensures
            r == field_value(self@, 3, 1),
            r < 2,
    {
        proof {
            crate::ll::bits::lemma_field_value_bound(self@, 3, 1);
            vstd::arithmetic::power2::lemma2_to64();
        }
        self.field(3, 1) as u8
    }

    /// GPIO IRQ latch clear for GPIO4 input
    pub fn giclr4(&self) -> (r: u8)
        ensures
            r == field_value(self@, 4, 1),
            r < 2,
    {
        proof {
            crate::ll::bits::lemma_field_value_bound(self@, 4, 1);
            vstd::arithmetic::power2::lemma2_to64();
        }
        self.field(4, 1) as u8
    }

    /// GPIO IRQ latch clear for GPIO5 input
    pub fn giclr5(&self) -> (r: u8)
        ensures
            r == field_value(self@, 5, 1),
            r < 2,
    {
        proof {
            crate::ll::bits::lemma_field_value_bound(self@, 5, 1);
            vstd::arithmetic::power2::lemma2_to64();
        }
        self.field(5, 1) as u8
    }

    /// GPIO IRQ latch clear for GPIO6 input
    pub fn giclr6(&self) -> (r: u8)
        ensures
            r == field_value(self@, 6, 1),
            r < 2,
    {
        proof {
            crate::ll::bits::lemma_field_value_bound(self@, 6, 1);
            vstd::arithmetic::power2::lemma2_to64();
        }
        self.field(6, 1) as u8
    }

    /// GPIO IRQ latch clear for GPIO7 input
    pub fn giclr7(&self) -> (r: u8)
        ensures
            r == field_value(self@, 7, 1),
            r < 2,
    {
        proof {
            crate::ll::bits::lemma_field_value_bound(self@, 7, 1);
            vstd::arithmetic::power2::lemma2_to64();
        }
        self.field(7, 1) as u8
    }

    /// GPIO IRQ latch clear for GPIO8 input
    pub fn giclr8(&self) -> (r: u8)
        ensures
            r == field_value(self@, 8, 1),
            r < 2,
    {
        proof {
            crate::ll::bits::lemma_field_value_bound(self@, 8, 1);
            vstd::arithmetic::power2::lemma2_to64();
        }
        self.field(8, 1) as u8
    }

}

impl W<GPIO_ICLR> {
    /// GPIO IRQ latch clear for GPIO0 input
    pub fn giclr0(&mut self, value: u8)
        ensures
            field_written(old(self)@, final(self)@, 0, 1, value as u64),
            field_value(final(self)@, 0, 1) == (value as nat) % 2,
            fields_kept(old(self)@, final(self)@, 0, 1),
    {
        self.set_field(0, 1, value as u64);
        proof {
            vstd::arithmetic::power2::lemma2_to64();
            vstd::arithmetic::power2::lemma2_to64_rest();
        }
    }

    /// GPIO IRQ latch clear for GPIO1 input
    pub fn giclr1(&mut self, value: u8)
        ensures
            field_written(old(self)@, final(self)@, 1, 1, value as u64),
            field_value(final(self)@, 1, 1) == (value as nat) % 2,
            fields_kept(old(self)@, final(self)@, 1, 1),
    {
        self.set_field(1, 1, value as u64);
        proof {
            vstd::arithmetic::power2::lemma2_to64();
            vstd::arithmetic::power2::lemma2_to64_rest();
        }
    }

    /// GPIO IRQ latch clear for GPIO2 input
    pub fn giclr2(&mut self, value: u8)
        ensures
            field_written(old(self)@, final(self)@, 2, 1, value as u64),
            field_value(final(self)@, 2, 1) == (value as nat) % 2,
            fields_kept(old(self)@, final(self)@, 2, 1),
    {
        self.set_field(2, 1, value as u64);
        proof {
            vstd::arithmetic::power2::lemma2_to64();
            vstd::arithmetic::power2::lemma2_to64_rest();
        }
    }

    /// GPIO IRQ latch clear for GPIO3 input
    pub fn giclr3(&mut self, value: u8)
        ensures
            field_written(old(self)@, final(self)@, 3, 1, value as u64),
            field_value(final(self)@, 3, 1) == (value as nat) % 2,
            fields_kept(old(self)@, final(self)@, 3, 1),
    {
        self.set_field(3, 1, value as u64);
        proof {
            vstd::arithmetic::power2::lemma2_to64();
            vstd::arithmetic::power2::lemma2_to64_rest();
        }
    }

    /// GPIO IRQ latch clear for GPIO4 input
    pub fn giclr4(&mut self, value: u8)
        ensures
            field_written(old(self)@, final(self)@, 4, 1, value as u64),
            field_value(final(self)@, 4, 1) == (value as nat) % 2,
            fields_kept(old(self)@, final(self)@, 4, 1),
    {
        self.set_field(4, 1, value as u64);
        proof {
            vstd::arithmetic::power2::lemma2_to64();
            vstd::arithmetic::power2::lemma2_to64_rest();
        }
    }

    /// GPIO IRQ latch clear for GPIO5 input
    pub fn giclr5(&mut self, value: u8)
        ensures
            field_written(old(self)@, final(self)@, 5, 1, value as u64),
            field_value(final(self)@, 5, 1) == (value as nat) % 2,
            fields_kept(old(self)@, final(self)@, 5, 1),
    {
        self.set_field(5, 1, value as u64);
        proof {
            vstd::arithmetic::power2::lemma2_to64();
            vstd::arithmetic::power2::lemma2_to64_rest();
        }
    }

    /// GPIO IRQ latch clear for GPIO6 input
    pub fn giclr6(&mut self, value: u8)
        ensures
            field_written(old(self)@, final(self)@, 6, 1, value as u64),
            field_value(final(self)@, 6, 1) == (value as nat) % 2,
            fields_kept(old(self)@, final(self)@, 6, 1),
    {
        self.set_field(6, 1, value as u64);
        proof {
            vstd::arithmetic::power2::lemma2_to64();
            vstd::arithmetic::power2::lemma2_to64_rest();
        }
    }

    /// GPIO IRQ latch clear for GPIO7 input
    pub fn giclr7(&mut self, value: u8)
        ensures
            field_written(old(self)@, final(self)@, 7, 1, value as u64),
            field_value(final(self)@, 7, 1) == (value as nat) % 2,
            fields_kept(old(self)@, final(self)@, 7, 1),
    {
        self.set_field(7, 1, value as u64);
        proof {
            vstd::arithmetic::power2::lemma2_to64();
            vstd::arithmetic::power2::lemma2_to64_rest();
        }
    }

    /// GPIO IRQ latch clear for GPIO8 input
    pub fn giclr8(&mut self, value: u8)
        ensures
            field_written(old(self)@, final(self)@, 8, 1, value as u64),
            field_value(final(self)@, 8, 1) == (value as nat) % 2,
            fields_kept(old(self)@, final(self)@, 8, 1),
    {
        self.set_field(8, 1, value as u64);
        proof {
            vstd::arithmetic::power2::lemma2_to64();
            vstd::arithmetic::power2::lemma2_to64_rest();
        }
    }

}

/// GPIO Interrupt De-bounce Enable
#[allow(non_camel_case_types)]
pub struct GPIO_IDBE;

impl Register for GPIO_IDBE {
    open spec fn spec_id() -> u8 {
        0x26
    }

    open spec fn spec_sub_id() -> u16 {
        0x24
    }

    open spec fn spec_len() -> usize {
        4
    }

    fn id() -> (r: u8) {
        0x26
    }

    fn sub_id() -> (r: u16) {
        0x24
    }

    fn len() -> (r: usize) {
        4
    }
}

impl Readable for GPIO_IDBE {}

impl Writable for GPIO_IDBE {}

impl R<GPIO_IDBE> {
    /// GPIO IRQ de-bounce enable for GPIO0
    pub fn gidbe0(&self) -> (r: u8)
        ensures
            r == field_value(self@, 0, 1),
            r < 2,
    {
        proof {
            crate::ll::bits::lemma_field_value_bound(self@, 0, 1);
            vstd::arithmetic::power2::lemma2_to64();
        }
        self.field(0, 1) as u8
    }

    /// GPIO IRQ de-bounce enable for GPIO1
    pub fn gidbe1(&self) -> (r: u8)
        ensures
            r == field_value(self@, 1, 1),
            r < 2,
    {
        proof {
            crate::ll::bits::lemma_field_value_bound(self@, 1, 1);
            vstd::arithmetic::power2::lemma2_to64();
        }
        self.field(1, 1) as u8
    }

    /// GPIO IRQ de-bounce enable for GPIO2
    pub fn gidbe2(&self) -> (r: u8)
        ensures
            r == field_value(self@, 2, 1),
            r < 2,
    {
        proof {
            crate::ll::bits::lemma_field_value_bound(self@, 2, 1);
            vstd::arithmetic::power2::lemma2_to64();
        }
        self.field(2, 1) as u8
    }

    /// GPIO IRQ de-bounce enable for GPIO3
    pub fn gidbe3(&self) -> (r: u8)
        ensures
            r == field_value(self@, 3, 1),
            r < 2,
    {
        proof {
            crate::ll::bits::lemma_field_value_bound(self@, 3, 1);
            vstd::arithmetic::power2::lemma2_to64();
        }
        self.field(3, 1) as u8
    }

    /// GPIO IRQ de-bounce enable for GPIO4
    pub fn gidbe4(&self) -> (r: u8)
        ensures
            r == field_value(self@, 4, 1),
            r < 2,
    {
        proof {
            crate::ll::bits::lemma_field_value_bound(self@, 4, 1);
            vstd::arithmetic::power2::lemma2_to64();
        }
        self.field(4, 1) as u8
    }

    /// GPIO IRQ de-bounce enable for GPIO5
    pub fn gidbe5(&self) -> (r: u8)
        ensures
            r == field_value(self@, 5, 1),
            r < 2,
    {
        proof {
            crate::ll::bits::lemma_field_value_bound(self@, 5, 1);
            vstd::arithmetic::power2::lemma2_to64();
        }
        self.field(5, 1) as u8
    }

    /// GPIO IRQ de-bounce enable for GPIO6
    pub fn gidbe6(&self) -> (r: u8)
        ensures
            r == field_value(self@, 6, 1),
            r < 2,
    {
        proof {
            crate::ll::bits::lemma_field_value_bound(self@, 6, 1);
            vstd::arithmetic::power2::lemma2_to64();
        }
        self.field(6, 1) as u8
    }

    /// GPIO IRQ de-bounce enable for GPIO7
    pub fn gidbe7(&self) -> (r: u8)
        ensures
            r == field_value(self@, 7, 1),
            r < 2,
    {
        proof {
            crate::ll::bits::lemma_field_value_bound(self@, 7, 1);
            vstd::arithmetic::power2::lemma2_to64();
        }
        self.field(7, 1) as u8
    }

    /// GPIO IRQ de-bounce enable for GPIO8
    pub fn gidbe8(&self) -> (r: u8)
        ensures
            r == field_value(self@, 8, 1),
            r < 2,
    {
        proof {
            crate::ll::bits::lemma_field_value_bound(self@, 8, 1);
            vstd::arithmetic::power2::lemma2_to64();
        }
        self.field(8, 1) as u8
    }

}

impl W<GPIO_IDBE> {
    /// GPIO IRQ de-bounce enable for GPIO0
    pub fn gidbe0(&mut self, value: u8)
        ensures
            field_written(old(self)@, final(self)@, 0, 1, value as u64),
            field_value(final(self)@, 0, 1) == (value as nat) % 2,
            fields_kept(old(self)@, final(self)@, 0, 1),
    {
        self.set_field(0, 1, value as u64);
        proof {
            vstd::arithmetic::power2::lemma2_to64();
            vstd::arithmetic::power2::lemma2_to64_rest();
        }
    }

    /// GPIO IRQ de-bounce enable for GPIO1
    pub fn gidbe1(&mut self, value: u8)
        ensures
            field_written(old(self)@, final(self)@, 1, 1, value as u64),
            field_value(final(self)@, 1, 1) == (value as nat) % 2,
            fields_kept(old(self)@, final(self)@, 1, 1),
    {
        self.set_field(1, 1, value as u64);
        proof {
            vstd::arithmetic::power2::lemma2_to64();
            vstd::arithmetic::power2::lemma2_to64_rest();
        }
    }

    /// GPIO IRQ de-bounce enable for GPIO2
    pub fn gidbe2(&mut self, value: u8)
        ensures
            field_written(old(self)@, final(self)@, 2, 1, value as u64),
            field_value(final(self)@, 2, 1) == (value as nat) % 2,
            fields_kept(old(self)@, final(self)@, 2, 1),
    {
        self.set_field(2, 1, value as u64);
        proof {
            vstd::arithmetic::power2::lemma2_to64();
            vstd::arithmetic::power2::lemma2_to64_rest();
        }
    }

    /// GPIO IRQ de-bounce enable for GPIO3
    pub fn gidbe3(&mut self, value: u8)
        ensures
            field_written(old(self)@, final(self)@, 3, 1, value as u64),
            field_value(final(self)@, 3, 1) == (value as nat) % 2,
            fields_kept(old(self)@, final(self)@, 3, 1),
    {
        self.set_field(3, 1, value as u64);
        proof {
            vstd::arithmetic::power2::lemma2_to64();
            vstd::arithmetic::power2::lemma2_to64_rest();
        }
    }

    /// GPIO IRQ de-bounce enable for GPIO4
    pub fn gidbe4(&mut self, value: u8)
        ensures
            field_written(old(self)@, final(self)@, 4, 1, value as u64),
            field_value(final(self)@, 4, 1) == (value as nat) % 2,
            fields_kept(old(self)@, final(self)@, 4, 1),
    {
        self.set_field(4, 1, value as u64);
        proof {
            vstd::arithmetic::power2::lemma2_to64();
            vstd::arithmetic::power2::lemma2_to64_rest();
        }
    }

    /// GPIO IRQ de-bounce enable for GPIO5
    pub fn gidbe5(&mut self, value: u8)
        ensures
            field_written(old(self)@, final(self)@, 5, 1, value as u64),
            field_value(final(self)@, 5, 1) == (value as nat) % 2,
            fields_kept(old(self)@, final(self)@, 5, 1),
    {
        self.set_field(5, 1, value as u64);
        proof {
            vstd::arithmetic::power2::lemma2_to64();
            vstd::arithmetic::power2::lemma2_to64_rest();
        }
    }

    /// GPIO IRQ de-bounce enable for GPIO6
    pub fn gidbe6(&mut self, value: u8)
        ensures
            field_written(old(self)@, final(self)@, 6, 1, value as u64),
            field_value(final(self)@, 6, 1) == (value as nat) % 2,
            fields_kept(old(self)@, final(self)@, 6, 1),
    {
        self.set_field(6, 1, value as u64);
        proof {
            vstd::arithmetic::power2::lemma2_to64();
            vstd::arithmetic::power2::lemma2_to64_rest();
        }
    }

    /// GPIO IRQ de-bounce enable for GPIO7
    pub fn gidbe7(&mut self, value: u8)
        ensures
            field_written(old(self)@, final(self)@, 7, 1, value as u64),
            field_value(final(self)@, 7, 1) == (value as nat) % 2,
            fields_kept(old(self)@, final(self)@, 7, 1),
    {
        self.set_field(7, 1, value as u64);
        proof {
            vstd::arithmetic::power2::lemma2_to64();
            vstd::arithmetic::power2::lemma2_to64_rest();
        }
    }

    /// GPIO IRQ de-bounce enable for GPIO8
    pub fn gidbe8(&mut self, value: u8)
        ensures
            field_written(old(self)@, final(self)@, 8, 1, value as u64),
            field_value(final(self)@, 8, 1) == (value as nat) % 2,
            fields_kept(old(self)@, final(self)@, 8, 1),
    {
        self.set_field(8, 1, value as u64);
        proof {
            vstd::arithmetic::power2::lemma2_to64();
            vstd::arithmetic::power2::lemma2_to64_rest();
        }
    }

}

/// GPIO raw state
#[allow(non_camel_case_types)]
pub struct GPIO_RAW;

impl Register for GPIO_RAW {
    open spec fn spec_id() -> u8 {
        0x26
    }

    open spec fn spec_sub_id() -> u16 {
        0x28
    }

    open spec fn spec_len() -> usize {
        4
    }

    fn id() -> (r: u8) {
        0x26
    }

    fn sub_id() -> (r: u16) {
        0x28
    }

    fn len() -> (r: usize) {
        4
    }
}

impl Readable for GPIO_RAW {}

impl Writable for GPIO_RAW {}

impl R<GPIO_RAW> {
    /// GPIO0 port raw state
    pub fn grawp0(&self) -> (r: u8)
        ensures
            r == field_value(self@, 0, 1),
            r < 2,
    {
        proof {
            crate::ll::bits::lemma_field_value_bound(self@, 0, 1);
            vstd::arithmetic::power2::lemma2_to64();
        }
        self.field(0, 1) as u8
    }

    /// GPIO1 port raw state
    pub fn grawp1(&self) -> (r: u8)
        ensures
            r == field_value(self@, 1, 1),
            r < 2,
    {
        proof {
            crate::ll::bits::lemma_field_value_bound(self@, 1, 1);
            vstd::arithmetic::power2::lemma2_to64();
        }
        self.field(1, 1) as u8
    }

    /// GPIO2 port raw state
    pub fn grawp2(&self) -> (r: u8)
        ensures
            r == field_value(self@, 2, 1),
            r < 2,
    {
        proof {
            crate::ll::bits::lemma_field_value_bound(self@, 2, 1);
            vstd::arithmetic::power2::lemma2_to64();
        }
        self.field(2, 1) as u8
    }

    /// GPIO3 port raw state
    pub fn grawp3(&self) -> (r: u8)
        ensures
            r == field_value(self@, 3, 1),
            r < 2,
    {
        proof {
            crate::ll::bits::lemma_field_value_bound(self@, 3, 1);
            vstd::arithmetic::power2::lemma2_to64();
        }
        self.field(3, 1) as u8
    }

    /// GPIO4 port raw state
    pub fn grawp4(&self) -> (r: u8)
        ensures
            r == field_value(self@, 4, 1),
            r < 2,
    {
        proof {
            crate::ll::bits::lemma_field_value_bound(self@, 4, 1);
            vstd::arithmetic::power2::lemma2_to64();
        }
        self.field(4, 1) as u8
    }

    /// GPIO5 port raw state
    pub fn grawp5(&self) -> (r: u8)
        ensures
            r == field_value(self@, 5, 1),
            r < 2,
    {
        proof {
            crate::ll::bits::lemma_field_value_bound(self@, 5, 1);
            vstd::arithmetic::power2::lemma2_to64();
        }
        self.field(5, 1) as u8
    }

    /// GPIO6 port raw state
    pub fn grawp6(&self) -> (r: u8)
        ensures
            r == field_value(self@, 6, 1),
            r < 2,
    {
        proof {
            crate::ll::bits::lemma_field_value_bound(self@, 6, 1);
            vstd::arithmetic::power2::lemma2_to64();
        }
        self.field(6, 1) as u8
    }

    /// GPIO7 port raw state
    pub fn grawp7(&self) -> (r: u8)
        ensures
            r == field_value(self@, 7, 1),
            r < 2,
    {
        proof {
            crate::ll::bits::lemma_field_value_bound(self@, 7, 1);
            vstd::arithmetic::power2::lemma2_to64();
        }
        self.field(7, 1) as u8
    }

    /// GPIO8 port raw state
    pub fn grawp8(&self) -> (r: u8)
        ensures
            r == field_value(self@, 8, 1),
            r < 2,
    {
        proof {
            crate::ll::bits::lemma_field_value_bound(self@, 8, 1);
            vstd::arithmetic::power2::lemma2_to64();
        }
        self.field(8, 1) as u8
    }

}

impl W<GPIO_RAW> {
    /// GPIO0 port raw state
    pub fn grawp0(&mut self, value: u8)
        ensures
            field_written(old(self)@, final(self)@, 0, 1, value as u64),
            field_value(final(self)@, 0, 1) == (value as nat) % 2,
            fields_kept(old(self)@, final(self)@, 0, 1),
    {
        self.set_field(0, 1, value as u64);
        proof {
            vstd::arithmetic::power2::lemma2_to64();
            vstd::arithmetic::power2::lemma2_to64_rest();
        }
    }

    /// GPIO1 port raw state
    pub fn grawp1(&mut self, value: u8)
        ensures
            field_written(old(self)@, final(self)@, 1, 1, value as u64),
            field_value(final(self)@, 1, 1) == (value as nat) % 2,
            fields_kept(old(self)@, final(self)@, 1, 1),
    {
        self.set_field(1, 1, value as u64);
        proof {
            vstd::arithmetic::power2::lemma2_to64();
            vstd::arithmetic::power2::lemma2_to64_rest();
        }
    }

    /// GPIO2 port raw state
    pub fn grawp2(&mut self, value: u8)
        ensures
            field_written(old(self)@, final(self)@, 2, 1, value as u64),
            field_value(final(self)@, 2, 1) == (value as nat) % 2,
            fields_kept(old(self)@, final(self)@, 2, 1),
    {
        self.set_field(2, 1, value as u64);
        proof {
            vstd::arithmetic::power2::lemma2_to64();
            vstd::arithmetic::power2::lemma2_to64_rest();
        }
    }

    /// GPIO3 port raw state
    pub fn grawp3(&mut self, value: u8)
        ensures
            field_written(old(self)@, final(self)@, 3, 1, value as u64),
            field_value(final(self)@, 3, 1) == (value as nat) % 2,
            fields_kept(old(self)@, final(self)@, 3, 1),
    {
        self.set_field(3, 1, value as u64);
        proof {
            vstd::arithmetic::power2::lemma2_to64();
            vstd::arithmetic::power2::lemma2_to64_rest();
        }
    }

    /// GPIO4 port raw state
    pub fn grawp4(&mut self, value: u8)
        ensures
            field_written(old(self)@, final(self)@, 4, 1, value as u64),
            field_value(final(self)@, 4, 1) == (value as nat) % 2,
            fields_kept(old(self)@, final(self)@, 4, 1),
    {
        self.set_field(4, 1, value as u64);
        proof {
            vstd::arithmetic::power2::lemma2_to64();
            vstd::arithmetic::power2::lemma2_to64_rest();
        }
    }

    /// GPIO5 port raw state
    pub fn grawp5(&mut self, value: u8)
        ensures
            field_written(old(self)@, final(self)@, 5, 1, value as u64),
            field_value(final(self)@, 5, 1) == (value as nat) % 2,
            fields_kept(old(self)@, final(self)@, 5, 1),
    {
        self.set_field(5, 1, value as u64);
        proof {
            vstd::arithmetic::power2::lemma2_to64();
            vstd::arithmetic::power2::lemma2_to64_rest();
        }
    }

    /// GPIO6 port raw state
    pub fn grawp6(&mut self, value: u8)
        ensures
            field_written(old(self)@, final(self)@, 6, 1, value as u64),
            field_value(final(self)@, 6, 1) == (value as nat) % 2,
            fields_kept(old(self)@, final(self)@, 6, 1),
    {
        self.set_field(6, 1, value as u64);
        proof {
            vstd::arithmetic::power2::lemma2_to64();
            vstd::arithmetic::power2::lemma2_to64_rest();
        }
    }

    /// GPIO7 port raw state
    pub fn grawp7(&mut self, value: u8)
        ensures
            field_written(old(self)@, final(self)@, 7, 1, value as u64),
            field_value(final(self)@, 7, 1) == (value as nat) % 2,
            fields_kept(old(self)@, final(self)@, 7, 1),
    {
        self.set_field(7, 1, value as u64);
        proof {
            vstd::arithmetic::power2::lemma2_to64();
            vstd::arithmetic::power2::lemma2_to64_rest();
        }
    }

    /// GPIO8 port raw state
    pub fn grawp8(&mut self, value: u8)
        ensures
            field_written(old(self)@, final(self)@, 8, 1, value as u64),
            field_value(final(self)@, 8, 1) == (value as nat) % 2,
            fields_kept(old(self)@, final(self)@, 8, 1),
    {
        self.set_field(8, 1, value as u64);
        proof {
            vstd::arithmetic::power2::lemma2_to64();
            vstd::arithmetic::power2::lemma2_to64_rest();
        }
    }

}

/// Digital Tuning Register 0b
#[allow(non_camel_case_types)]
pub struct DRX_TUNE0B;

impl Register for DRX_TUNE0B {
    open spec fn spec_id() -> u8 {
        0x27
    }

    open spec fn spec_sub_id() -> u16 {
        0x02
    }

    open spec fn spec_len() -> usize {
        2
    }

    fn id() -> (r: u8) {
        0x27
    }

    fn sub_id() -> (r: u16) {
        0x02
    }

    fn len() -> (r: usize) {
        2
    }
}

impl Readable for DRX_TUNE0B {}

impl Writable for DRX_TUNE0B {}

impl R<DRX_TUNE0B> {
    /// DRX_TUNE0B tuning value
    pub fn value(&self) -> (r: u16)
        ensures
            r == field_value(self@, 0, 16),
            r < 0x10000,
    {
        proof {
            crate::ll::bits::lemma_field_value_bound(self@, 0, 16);
            vstd::arithmetic::power2::lemma2_to64();
        }
        self.field(0, 16) as u16
    }

}

impl W<DRX_TUNE0B> {
    /// DRX_TUNE0B tuning value
    pub fn value(&mut self, value: u16)
        ensures
            field_written(old(self)@, final(self)@, 0, 16, value as u64),
            field_value(final(self)@, 0, 16) == value as nat,
            fields_kept(old(self)@, final(self)@, 0, 16),
    {
        self.set_field(0, 16, value as u64);
        proof {
            vstd::arithmetic::power2::lemma2_to64();
            vstd::arithmetic::power2::lemma2_to64_rest();
        }
    }

}

/// Digital Tuning Register 1a
#[allow(non_camel_case_types)]
pub struct DRX_TUNE1A;

impl Register for DRX_TUNE1A {
    open spec fn spec_id() -> u8 {
        0x27
    }

    open spec fn spec_sub_id() -> u16 {
        0x04
    }

    open spec fn spec_len() -> usize {
        2
    }

    fn id() -> (r: u8) {
        0x27
    }

    fn sub_id() -> (r: u16) {
        0x04
    }

    fn len() -> (r: usize) {
        2
    }
}

impl Readable for DRX_TUNE1A {}

impl Writable for DRX_TUNE1A {}

impl R<DRX_TUNE1A> {
    /// DRX_TUNE1A tuning value
    pub fn value(&self) -> (r: u16)
        ensures
            r == field_value(self@, 0, 16),
            r < 0x10000,
    {
        proof {
            crate::ll::bits::lemma_field_value_bound(self@, 0, 16);
            vstd::arithmetic::power2::lemma2_to64();
        }
        self.field(0, 16) as u16
    }

}

impl W<DRX_TUNE1A> {
    /// DRX_TUNE1A tuning value
    pub fn value(&mut self, value: u16)
        ensures
            field_written(old(self)@, final(self)@, 0, 16, value as u64),
            field_value(final(self)@, 0, 16) == value as nat,
            fields_kept(old(self)@, final(self)@, 0, 16),
    {
        self.set_field(0, 16, value as u64);
        proof {
            vstd::arithmetic::power2::lemma2_to64();
            vstd::arithmetic::power2::lemma2_to64_rest();
        }
    }

}

/// Digital Tuning Register 1b
#[allow(non_camel_case_types)]
pub struct DRX_TUNE1B;

impl Register for DRX_TUNE1B {
    open spec fn spec_id() -> u8 {
        0x27
    }

    open spec fn spec_sub_id() -> u16 {
        0x06
    }

    open spec fn spec_len() -> usize {
        2
    }

    fn id() -> (r: u8) {
        0x27
    }

    fn sub_id() -> (r: u16) {
        0x06
    }

    fn len() -> (r: usize) {
        2
    }
}

impl Readable for DRX_TUNE1B {}

impl Writable for DRX_TUNE1B {}

impl R<DRX_TUNE1B> {
    /// DRX_TUNE1B tuning value
    pub fn value(&self) -> (r: u16)
        ensures
            r == field_value(self@, 0, 16),
            r < 0x10000,
    {
        proof {
            crate::ll::bits::lemma_field_value_bound(self@, 0, 16);
            vstd::arithmetic::power2::lemma2_to64();
        }
        self.field(0, 16) as u16
    }

}

impl W<DRX_TUNE1B> {
    /// DRX_TUNE1B tuning value
    pub fn value(&mut self, value: u16)
        ensures
            field_written(old(self)@, final(self)@, 0, 16, value as u64),
            field_value(final(self)@, 0, 16) == value as nat,
            fields_kept(old(self)@, final(self)@, 0, 16),
    {
        self.set_field(0, 16, value as u64);
        proof {
            vstd::arithmetic::power2::lemma2_to64();
            vstd::arithmetic::power2::lemma2_to64_rest();
        }
    }

}

/// Digital Tuning Register 2
#[allow(non_camel_case_types)]
pub struct DRX_TUNE2;

impl Register for DRX_TUNE2 {
    open spec fn spec_id() -> u8 {
        0x27
    }

    open spec fn spec_sub_id() -> u16 {
        0x08
    }

    open spec fn spec_len() -> usize {
        4
    }

    fn id() -> (r: u8) {
        0x27
    }

    fn sub_id() -> (r: u16) {
        0x08
    }

    fn len() -> (r: usize) {
        4
    }
}

impl Readable for DRX_TUNE2 {}

impl Writable for DRX_TUNE2 {}

impl R<DRX_TUNE2> {
    /// DRX_TUNE2 tuning value
    pub fn value(&self) -> (r: u32)
        ensures
            r == field_value(self@, 0, 32),
            r < 0x100000000,
    {
        proof {
            crate::ll::bits::lemma_field_value_bound(self@, 0, 32);
            vstd::arithmetic::power2::lemma2_to64();
        }
        self.field(0, 32) as u32
    }

}

impl W<DRX_TUNE2> {
    /// DRX_TUNE2 tuning value
    pub fn value(&mut self, value: u32)
        ensures
            field_written(old(self)@, final(self)@, 0, 32, value as u64),
            field_value(final(self)@, 0, 32) == value as nat,
            fields_kept(old(self)@, final(self)@, 0, 32),
    {
        self.set_field(0, 32, value as u64);
        proof {
            vstd::arithmetic::power2::lemma2_to64();
            vstd::arithmetic::power2::lemma2_to64_rest();
        }
    }

}

/// SFD timeout
#[allow(non_camel_case_types)]
pub struct DRX_SFDTOC;

impl Register for DRX_SFDTOC {
    open spec fn spec_id() -> u8 {
        0x27
    }

    open spec fn spec_sub_id() -> u16 {
        0x20
    }

    open spec fn spec_len() -> usize {
        2
    }

    fn id() -> (r: u8) {
        0x27
    }

    fn sub_id() -> (r: u16) {
        0x20
    }

    fn len() -> (r: usize) {
        2
    }
}

impl Readable for DRX_SFDTOC {}

impl Writable for DRX_SFDTOC {}

impl R<DRX_SFDTOC> {
    /// SFD detection timeout count
    pub fn count(&self) -> (r: u16)
        ensures
            r == field_value(self@, 0, 16),
            r < 0x10000,
    {
        proof {
            crate::ll::bits::lemma_field_value_bound(self@, 0, 16);
            vstd::arithmetic::power2::lemma2_to64();
        }
        self.field(0, 16) as u16
    }

}

impl W<DRX_SFDTOC> {
    /// SFD detection timeout count
    pub fn count(&mut self, value: u16)
        ensures
            field_written(old(self)@, final(self)@, 0, 16, value as u64),
            field_value(final(self)@, 0, 16) == value as nat,
            fields_kept(old(self)@, final(self)@, 0, 16),
    {
        self.set_field(0, 16, value as u64);
        proof {
            vstd::arithmetic::power2::lemma2_to64();
            vstd::arithmetic::power2::lemma2_to64_rest();
        }
    }

}

/// Preamble detection timeou
#[allow(non_camel_case_types)]
pub struct DRX_PRETOC;

impl Register for DRX_PRETOC {
    open spec fn spec_id() -> u8 {
        0x27
    }

    open spec fn spec_sub_id() -> u16 {
        0x24
    }

    open spec fn spec_len() -> usize {
        2
    }

    fn id() -> (r: u8) {
        0x27
    }

    fn sub_id() -> (r: u16) {
        0x24
    }

    fn len() -> (r: usize) {
        2
    }
}

impl Readable for DRX_PRETOC {}

impl Writable for DRX_PRETOC {}

impl R<DRX_PRETOC> {
    /// Preamble detection timeout count
    pub fn count(&self) -> (r: u16)
        ensures
            r == field_value(self@, 0, 16),
            r < 0x10000,
    {
        proof {
            crate::ll::bits::lemma_field_value_bound(self@, 0, 16);
            vstd::arithmetic::power2::lemma2_to64();
        }
        self.field(0, 16) as u16
    }

}

impl W<DRX_PRETOC> {
    /// Preamble detection timeout count
    pub fn count(&mut self, value: u16)
        ensures
            field_written(old(self)@, final(self)@, 0, 16, value as u64),
            field_value(final(self)@, 0, 16) == value as nat,
            fields_kept(old(self)@, final(self)@, 0, 16),
    {
        self.set_field(0, 16, value as u64);
        proof {
            vstd::arithmetic::power2::lemma2_to64();
            vstd::arithmetic::power2::lemma2_to64_rest();
        }
    }

}

/// Digital Tuning Register 4h
#[allow(non_camel_case_types)]
pub struct DRX_TUNE4H;

impl Register for DRX_TUNE4H {
    open spec fn spec_id() -> u8 {
        0x27
    }

    open spec fn spec_sub_id() -> u16 {
        0x26
    }

    open spec fn spec_len() -> usize {
        2
    }

    fn id() -> (r: u8) {
        0x27
    }

    fn sub_id() -> (r: u16) {
        0x26
    }

    fn len() -> (r: usize) {
        2
    }
}

impl Readable for DRX_TUNE4H {}

impl Writable for DRX_TUNE4H {}

impl R<DRX_TUNE4H> {
    /// DRX_TUNE4H tuning value
    pub fn value(&self) -> (r: u16)
        ensures
            r == field_value(self@, 0, 16),
            r < 0x10000,
    {
        proof {
            crate::ll::bits::lemma_field_value_bound(self@, 0, 16);
            vstd::arithmetic::power2::lemma2_to64();
        }
        self.field(0, 16) as u16
    }

}

impl W<DRX_TUNE4H> {
    /// DRX_TUNE4H tuning value
    pub fn value(&mut self, value: u16)
        ensures
            field_written(old(self)@, final(self)@, 0, 16, value as u64),
            field_value(final(self)@, 0, 16) == value as nat,
            fields_kept(old(self)@, final(self)@, 0, 16),
    {
        self.set_field(0, 16, value as u64);
        proof {
            vstd::arithmetic::power2::lemma2_to64();
            vstd::arithmetic::power2::lemma2_to64_rest();
        }
    }

}

/// Carrier Recovery Integrator Register
#[allow(non_camel_case_types)]
pub struct DRX_CAR_INT;

impl Register for DRX_CAR_INT {
    open spec fn spec_id() -> u8 {
        0x27
    }

    open spec fn spec_sub_id() -> u16 {
        0x28
    }

    open spec fn spec_len() -> usize {
        2
    }

    fn id() -> (r: u8) {
        0x27
    }

    fn sub_id() -> (r: u16) {
        0x28
    }

    fn len() -> (r: usize) {
        2
    }
}

impl Readable for DRX_CAR_INT {}

impl R<DRX_CAR_INT> {
    /// value
    pub fn value(&self) -> (r: u16)
        ensures
            r == field_value(self@, 0, 16),
            r < 0x10000,
    {
        proof {
            crate::ll::bits::lemma_field_value_bound(self@, 0, 16);
            vstd::arithmetic::power2::lemma2_to64();
        }
        self.field(0, 16) as u16
    }

}

/// Digital debug register. Unsaturated accumulated preamble symbols.
#[allow(non_camel_case_types)]
pub struct RXPACC_NOSAT;

impl Register for RXPACC_NOSAT {
    open spec fn spec_id() -> u8 {
        0x27
    }

    open spec fn spec_sub_id() -> u16 {
        0x2C
    }

    open spec fn spec_len() -> usize {
        2
    }

    fn id() -> (r: u8) {
        0x27
    }

    fn sub_id() -> (r: u16) {
        0x2C
    }

    fn len() -> (r: usize) {
        2
    }
}

impl Readable for RXPACC_NOSAT {}

impl R<RXPACC_NOSAT> {
    /// value
    pub fn value(&self) -> (r: u16)
        ensures
            r == field_value(self@, 0, 16),
            r < 0x10000,
    {
        proof {
            crate::ll::bits::lemma_field_value_bound(self@, 0, 16);
            vstd::arithmetic::power2::lemma2_to64();
        }
        self.field(0, 16) as u16
    }

}

/// Analog RX Control Register
#[allow(non_camel_case_types)]
pub struct RF_RXCTRLH;

impl Register for RF_RXCTRLH {
    open spec fn spec_id() -> u8 {
        0x28
    }

    open spec fn spec_sub_id() -> u16 {
        0x0B
    }

    open spec fn spec_len() -> usize {
        1
    }

    fn id() -> (r: u8) {
        0x28
    }

    fn sub_id() -> (r: u16) {
        0x0B
    }

    fn len() -> (r: usize) {
        1
    }
}

impl Readable for RF_RXCTRLH {}

impl Writable for RF_RXCTRLH {}

impl R<RF_RXCTRLH> {
    /// Analog RX Control Register
    pub fn value(&self) -> (r: u8)
        ensures
            r == field_value(self@, 0, 8),
            r < 0x100,
    {
        proof {
            crate::ll::bits::lemma_field_value_bound(self@, 0, 8);
            vstd::arithmetic::power2::lemma2_to64();
        }
        self.field(0, 8) as u8
    }

}

impl W<RF_RXCTRLH> {
    /// Analog RX Control Register
    pub fn value(&mut self, value: u8)
        ensures
            field_written(old(self)@, final(self)@, 0, 8, value as u64),
            field_value(final(self)@, 0, 8) == value as nat,
            fields_kept(old(self)@, final(self)@, 0, 8),
    {
        self.set_field(0, 8, value as u64);
        proof {
            vstd::arithmetic::power2::lemma2_to64();
            vstd::arithmetic::power2::lemma2_to64_rest();
        }
    }

}

/// Analog TX Control Register
#[allow(non_camel_case_types)]
pub struct RF_TXCTRL;

impl Register for RF_TXCTRL {
    open spec fn spec_id() -> u8 {
        0x28
    }

    open spec fn spec_sub_id() -> u16 {
        0x0C
    }

    open spec fn spec_len() -> usize {
        3
    }

    fn id() -> (r: u8) {
        0x28
    }

    fn sub_id() -> (r: u16) {
        0x0C
    }

    fn len() -> (r: usize) {
        3
    }
}

impl Readable for RF_TXCTRL {}

impl Writable for RF_TXCTRL {}

impl R<RF_TXCTRL> {
    /// Transmit mixer tuning register
    pub fn txmtune(&self) -> (r: u8)
        ensures
            r == field_value(self@, 5, 4),
            r < 16,
    {
        proof {
            crate::ll::bits::lemma_field_value_bound(self@, 5, 4);
            vstd::arithmetic::power2::lemma2_to64();
        }
        self.field(5, 4) as u8
    }

    /// Transmit mixer Q-factor tuning register
    pub fn txmq(&self) -> (r: u8)
        ensures
            r == field_value(self@, 9, 3),
            r < 8,
    {
        proof {
            crate::ll::bits::lemma_field_value_bound(self@, 9, 3);
            vstd::arithmetic::power2::lemma2_to64();
        }
        self.field(9, 3) as u8
    }

    /// The entire register
    pub fn value(&self) -> (r: u32)
        ensures
            r == field_value(self@, 0, 24),
            r < 0x1000000,
    {
        proof {
            crate::ll::bits::lemma_field_value_bound(self@, 0, 24);
            vstd::arithmetic::power2::lemma2_to64();
        }
        self.field(0, 24) as u32
    }

}

impl W<RF_TXCTRL> {
    /// Transmit mixer tuning register
    pub fn txmtune(&mut self, value: u8)
        ensures
            field_written(old(self)@, final(self)@, 5, 4, value as u64),
            field_value(final(self)@, 5, 4) == (value as nat) % 16,
            fields_kept(old(self)@, final(self)@, 5, 4),
    {
        self.set_field(5, 4, value as u64);
        proof {
            vstd::arithmetic::power2::lemma2_to64();
            vstd::arithmetic::power2::lemma2_to64_rest();
        }
    }

    /// Transmit mixer Q-factor tuning register
    pub fn txmq(&mut self, value: u8)
        ensures
            field_written(old(self)@, final(self)@, 9, 3, value as u64),
            field_value(final(self)@, 9, 3) == (value as nat) % 8,
            fields_kept(old(self)@, final(self)@, 9, 3),
    {
        self.set_field(9, 3, value as u64);
        proof {
            vstd::arithmetic::power2::lemma2_to64();
            vstd::arithmetic::power2::lemma2_to64_rest();
        }
    }

    /// The entire register
    pub fn value(&mut self, value: u32)
        ensures
            field_written(old(self)@, final(self)@, 0, 24, value as u64),
            field_value(final(self)@, 0, 24) == (value as nat) % 0x1000000,
            fields_kept(old(self)@, final(self)@, 0, 24),
    {
        self.set_field(0, 24, value as u64);
        proof {
            vstd::arithmetic::power2::lemma2_to64();
            vstd::arithmetic::power2::lemma2_to64_rest();
        }
    }

}

/// RF Status Register
#[allow(non_camel_case_types)]
pub struct RF_STATUS;

impl Register for RF_STATUS {
    open spec fn spec_id() -> u8 {
        0x28
    }

    open spec fn spec_sub_id() -> u16 {
        0x2C
    }

    open spec fn spec_len() -> usize {
        4
    }

    fn id() -> (r: u8) {
        0x28
    }

    fn sub_id() -> (r: u16) {
        0x2C
    }

    fn len() -> (r: usize) {
        4
    }
}

impl Readable for RF_STATUS {}

impl R<RF_STATUS> {
    /// Clock PLL lock status
    pub fn cplllock(&self) -> (r: u8)
        ensures
            r == field_value(self@, 0, 1),
            r < 2,
    {
        proof {
            crate::ll::bits::lemma_field_value_bound(self@, 0, 1);
            vstd::arithmetic::power2::lemma2_to64();
        }
        self.field(0, 1) as u8
    }

    /// Clock PLL low flag
    pub fn cplllow(&self) -> (r: u8)
        ensures
            r == field_value(self@, 1, 1),
            r < 2,
    {
        proof {
            crate::ll::bits::lemma_field_value_bound(self@, 1, 1);
            vstd::arithmetic::power2::lemma2_to64();
        }
        self.field(1, 1) as u8
    }

    /// Clock PLL high flag
    pub fn cpllhigh(&self) -> (r: u8)
        ensures
            r == field_value(self@, 2, 1),
            r < 2,
    {
        proof {
            crate::ll::bits::lemma_field_value_bound(self@, 2, 1);
            vstd::arithmetic::power2::lemma2_to64();
        }
        self.field(2, 1) as u8
    }

    /// RF PLL lock status
    pub fn rfplllock(&self) -> (r: u8)
        ensures
            r == field_value(self@, 3, 1),
            r < 2,
    {
        proof {
            crate::ll::bits::lemma_field_value_bound(self@, 3, 1);
            vstd::arithmetic::power2::lemma2_to64();
        }
        self.field(3, 1) as u8
    }

}

/// LDO voltage tuning parameter
#[allow(non_camel_case_types)]
pub struct LDOTUNE;

impl Register for LDOTUNE {
    open spec fn spec_id() -> u8 {
        0x28
    }

    open spec fn spec_sub_id() -> u16 {
        0x30
    }

    open spec fn spec_len() -> usize {
        5
    }

    fn id() -> (r: u8) {
        0x28
    }

    fn sub_id() -> (r: u16) {
        0x30
    }

    fn len() -> (r: usize) {
        5
    }
}

impl Readable for LDOTUNE {}

impl Writable for LDOTUNE {}

impl R<LDOTUNE> {
    /// Internal LDO voltage tuning parameter
    pub fn value(&self) -> (r: u64)
        ensures
            r == field_value(self@, 0, 40),
            r < 0x10000000000,
    {
        proof {
            crate::ll::bits::lemma_field_value_bound(self@, 0, 40);
            vstd::arithmetic::power2::lemma2_to64_rest();
        }
        self.field(0, 40)
    }

}

impl W<LDOTUNE> {
    /// Internal LDO voltage tuning parameter
    pub fn value(&mut self, value: u64)
        ensures
            field_written(old(self)@, final(self)@, 0, 40, value as u64),
            field_value(final(self)@, 0, 40) == (value as nat) % 0x10000000000,
            fields_kept(old(self)@, final(self)@, 0, 40),
    {
        self.set_field(0, 40, value as u64);
        proof {
            vstd::arithmetic::power2::lemma2_to64();
            vstd::arithmetic::power2::lemma2_to64_rest();
        }
    }

}

/// Pulse Generator Delay
#[allow(non_camel_case_types)]
pub struct TC_PGDELAY;

impl Register for TC_PGDELAY {
    open spec fn spec_id() -> u8 {
        0x2A
    }

    open spec fn spec_sub_id() -> u16 {
        0x0B
    }

    open spec fn spec_len() -> usize {
        1
    }

    fn id() -> (r: u8) {
        0x2A
    }

    fn sub_id() -> (r: u16) {
        0x0B
    }

    fn len() -> (r: usize) {
        1
    }
}

impl Readable for TC_PGDELAY {}

impl Writable for TC_PGDELAY {}

impl R<TC_PGDELAY> {
    /// Transmitter Calibration - Pulse Generator Delay
    pub fn value(&self) -> (r: u8)
        ensures
            r == field_value(self@, 0, 8),
            r < 0x100,
    {
        proof {
            crate::ll::bits::lemma_field_value_bound(self@, 0, 8);
            vstd::arithmetic::power2::lemma2_to64();
        }
        self.field(0, 8) as u8
    }

}

impl W<TC_PGDELAY> {
    /// Transmitter Calibration - Pulse Generator Delay
    pub fn value(&mut self, value: u8)
        ensures
            field_written(old(self)@, final(self)@, 0, 8, value as u64),
            field_value(final(self)@, 0, 8) == value as nat,
            fields_kept(old(self)@, final(self)@, 0, 8),
    {
        self.set_field(0, 8, value as u64);
        proof {
            vstd::arithmetic::power2::lemma2_to64();
            vstd::arithmetic::power2::lemma2_to64_rest();
        }
    }

}

/// Frequency synth - PLL configuration
#[allow(non_camel_case_types)]
pub struct FS_PLLCFG;

impl Register for FS_PLLCFG {
    open spec fn spec_id() -> u8 {
        0x2B
    }

    open spec fn spec_sub_id() -> u16 {
        0x07
    }

    open spec fn spec_len() -> usize {
        4
    }

    fn id() -> (r: u8) {
        0x2B
    }

    fn sub_id() -> (r: u16) {
        0x07
    }

    fn len() -> (r: usize) {
        4
    }
}

impl Readable for FS_PLLCFG {}

impl Writable for FS_PLLCFG {}

impl R<FS_PLLCFG> {
    /// Frequency synth - PLL configuration
    pub fn value(&self) -> (r: u32)
        ensures
            r == field_value(self@, 0, 32),
            r < 0x100000000,
    {
        proof {
            crate::ll::bits::lemma_field_value_bound(self@, 0, 32);
            vstd::arithmetic::power2::lemma2_to64();
        }
        self.field(0, 32) as u32
    }

}

impl W<FS_PLLCFG> {
    /// Frequency synth - PLL configuration
    pub fn value(&mut self, value: u32)
        ensures
            field_written(old(self)@, final(self)@, 0, 32, value as u64),
            field_value(final(self)@, 0, 32) == value as nat,
            fields_kept(old(self)@, final(self)@, 0, 32),
    {
        self.set_field(0, 32, value as u64);
        proof {
            vstd::arithmetic::power2::lemma2_to64();
            vstd::arithmetic::power2::lemma2_to64_rest();
        }
    }

}

/// Frequency synth - PLL Tuning
#[allow(non_camel_case_types)]
pub struct FS_PLLTUNE;

impl Register for FS_PLLTUNE {
    open spec fn spec_id() -> u8 {
        0x2B
    }

    open spec fn spec_sub_id() -> u16 {
        0x0B
    }

    open spec fn spec_len() -> usize {
        1
    }

    fn id() -> (r: u8) {
        0x2B
    }

    fn sub_id() -> (r: u16) {
        0x0B
    }

    fn len() -> (r: usize) {
        1
    }
}

impl Readable for FS_PLLTUNE {}

impl Writable for FS_PLLTUNE {}

impl R<FS_PLLTUNE> {
    /// Frequency synthesiser - PLL Tuning
    pub fn value(&self) -> (r: u8)
        ensures
            r == field_value(self@, 0, 8),
            r < 0x100,
    {
        proof {
            crate::ll::bits::lemma_field_value_bound(self@, 0, 8);
            vstd::arithmetic::power2::lemma2_to64();
        }
        self.field(0, 8) as u8
    }

}

impl W<FS_PLLTUNE> {
    /// Frequency synthesiser - PLL Tuning
    pub fn value(&mut self, value: u8)
        ensures
            field_written(old(self)@, final(self)@, 0, 8, value as u64),
            field_value(final(self)@, 0, 8) == value as nat,
            fields_kept(old(self)@, final(self)@, 0, 8),
    {
        self.set_field(0, 8, value as u64);
        proof {
            vstd::arithmetic::power2::lemma2_to64();
            vstd::arithmetic::power2::lemma2_to64_rest();
        }
    }

}

/// AON Wakeup Configuration Register
#[allow(non_camel_case_types)]
pub struct AON_WCFG;

impl Register for AON_WCFG {
    open spec fn spec_id() -> u8 {
        0x2C
    }

    open spec fn spec_sub_id() -> u16 {
        0x00
    }

    open spec fn spec_len() -> usize {
        2
    }

    fn id() -> (r: u8) {
        0x2C
    }

    fn sub_id() -> (r: u16) {
        0x00
    }

    fn len() -> (r: usize) {
        2
    }
}

impl Readable for AON_WCFG {}

impl Writable for AON_WCFG {}

impl R<AON_WCFG> {
    /// On Wake-up Run the (temperature and voltage) Analog-to-Digital Convertors.
    pub fn onw_radc(&self) -> (r: u8)
        ensures
            r == field_value(self@, 0, 1),
            r < 2,
    {
        proof {
            crate::ll::bits::lemma_field_value_bound(self@, 0, 1);
            vstd::arithmetic::power2::lemma2_to64();
        }
        self.field(0, 1) as u8
    }

    /// On Wake-up turn on the Receiver.
    pub fn onw_rx(&self) -> (r: u8)
        ensures
            r == field_value(self@, 1, 1),
            r < 2,
    {
        proof {
            crate::ll::bits::lemma_field_value_bound(self@, 1, 1);
            vstd::arithmetic::power2::lemma2_to64();
        }
        self.field(1, 1) as u8
    }

    /// On Wake-up load the EUI from OTP memory into Register file: 0x01 – Extended Unique Identifier.
    pub fn onw_leui(&self) -> (r: u8)
        ensures
            r == field_value(self@, 3, 1),
            r < 2,
    {
        proof {
            crate::ll::bits::lemma_field_value_bound(self@, 3, 1);
            vstd::arithmetic::power2::lemma2_to64();
        }
        self.field(3, 1) as u8
    }

    /// On Wake-upload configurations from the AON memory into the host interface register set.
    pub fn onw_ldc(&self) -> (r: u8)
        ensures
            r == field_value(self@, 6, 1),
            r < 2,
    {
        proof {
            crate::ll::bits::lemma_field_value_bound(self@, 6, 1);
            vstd::arithmetic::power2::lemma2_to64();
        }
        self.field(6, 1) as u8
    }

    /// On Wake-up load the Length64 receiver operating parameter set.
    pub fn onw_l64p(&self) -> (r: u8)
        ensures
            r == field_value(self@, 7, 1),
            r < 2,
    {
        proof {
            crate::ll::bits::lemma_field_value_bound(self@, 7, 1);
            vstd::arithmetic::power2::lemma2_to64();
        }
        self.field(7, 1) as u8
    }

    /// Preserve  Sleep. This bit determines what the DW1000 does with respect to the ARXSLP and ATXSLPsleep controls in Sub-Register 0x36:04 –PMSC_CTRL1after a wake-up event.
    pub fn pres_sleep(&self) -> (r: u8)
        ensures
            r == field_value(self@, 8, 1),
            r < 2,
    {
        proof {
            crate::ll::bits::lemma_field_value_bound(self@, 8, 1);
            vstd::arithmetic::power2::lemma2_to64();
        }
        self.field(8, 1) as u8
    }

    /// On Wake-up load the LDE microcode
    pub fn onw_llde(&self) -> (r: u8)
        ensures
            r == field_value(self@, 11, 1),
            r < 2,
    {
        proof {
            crate::ll::bits::lemma_field_value_bound(self@, 11, 1);
            vstd::arithmetic::power2::lemma2_to64();
        }
        self.field(11, 1) as u8
    }

    /// On Wake-up load the LDOTUNE value from OTP
    pub fn onw_lldo(&self) -> (r: u8)
        ensures
            r == field_value(self@, 12, 1),
            r < 2,
    {
        proof {
            crate::ll::bits::lemma_field_value_bound(self@, 12, 1);
            vstd::arithmetic::power2::lemma2_to64();
        }
        self.field(12, 1) as u8
    }

}

impl W<AON_WCFG> {
    /// On Wake-up Run the (temperature and voltage) Analog-to-Digital Convertors.
    pub fn onw_radc(&mut self, value: u8)
        ensures
            field_written(old(self)@, final(self)@, 0, 1, value as u64),
            field_value(final(self)@, 0, 1) == (value as nat) % 2,
            fields_kept(old(self)@, final(self)@, 0, 1),
    {
        self.set_field(0, 1, value as u64);
        proof {
            vstd::arithmetic::power2::lemma2_to64();
            vstd::arithmetic::power2::lemma2_to64_rest();
        }
    }

    /// On Wake-up turn on the Receiver.
    pub fn onw_rx(&mut self, value: u8)
        ensures
            field_written(old(self)@, final(self)@, 1, 1, value as u64),
            field_value(final(self)@, 1, 1) == (value as nat) % 2,
            fields_kept(old(self)@, final(self)@, 1, 1),
    {
        self.set_field(1, 1, value as u64);
        proof {
            vstd::arithmetic::power2::lemma2_to64();
            vstd::arithmetic::power2::lemma2_to64_rest();
        }
    }

    /// On Wake-up load the EUI from OTP memory into Register file: 0x01 – Extended Unique Identifier.
    pub fn onw_leui(&mut self, value: u8)
        ensures
            field_written(old(self)@, final(self)@, 3, 1, value as u64),
            field_value(final(self)@, 3, 1) == (value as nat) % 2,
            fields_kept(old(self)@, final(self)@, 3, 1),
    {
        self.set_field(3, 1, value as u64);
        proof {
            vstd::arithmetic::power2::lemma2_to64();
            vstd::arithmetic::power2::lemma2_to64_rest();
        }
    }

    /// On Wake-upload configurations from the AON memory into the host interface register set.
    pub fn onw_ldc(&mut self, value: u8)
        ensures
            field_written(old(self)@, final(self)@, 6, 1, value as u64),
            field_value(final(self)@, 6, 1) == (value as nat) % 2,
            fields_kept(old(self)@, final(self)@, 6, 1),
    {
        self.set_field(6, 1, value as u64);
        proof {
            vstd::arithmetic::power2::lemma2_to64();
            vstd::arithmetic::power2::lemma2_to64_rest();
        }
    }

    /// On Wake-up load the Length64 receiver operating parameter set.
    pub fn onw_l64p(&mut self, value: u8)
        ensures
            field_written(old(self)@, final(self)@, 7, 1, value as u64),
            field_value(final(self)@, 7, 1) == (value as nat) % 2,
            fields_kept(old(self)@, final(self)@, 7, 1),
    {
        self.set_field(7, 1, value as u64);
        proof {
            vstd::arithmetic::power2::lemma2_to64();
            vstd::arithmetic::power2::lemma2_to64_rest();
        }
    }

    /// Preserve  Sleep. This bit determines what the DW1000 does with respect to the ARXSLP and ATXSLPsleep controls in Sub-Register 0x36:04 –PMSC_CTRL1after a wake-up event.
    pub fn pres_sleep(&mut self, value: u8)
        ensures
            field_written(old(self)@, final(self)@, 8, 1, value as u64),
            field_value(final(self)@, 8, 1) == (value as nat) % 2,
            fields_kept(old(self)@, final(self)@, 8, 1),
    {
        self.set_field(8, 1, value as u64);
        proof {
            vstd::arithmetic::power2::lemma2_to64();
            vstd::arithmetic::power2::lemma2_to64_rest();
        }
    }

    /// On Wake-up load the LDE microcode
    pub fn onw_llde(&mut self, value: u8)
        ensures
            field_written(old(self)@, final(self)@, 11, 1, value as u64),
            field_value(final(self)@, 11, 1) == (value as nat) % 2,
            fields_kept(old(self)@, final(self)@, 11, 1),
    {
        self.set_field(11, 1, value as u64);
        proof {
            vstd::arithmetic::power2::lemma2_to64();
            vstd::arithmetic::power2::lemma2_to64_rest();
        }
    }

    /// On Wake-up load the LDOTUNE value from OTP
    pub fn onw_lldo(&mut self, value: u8)
        ensures
            field_written(old(self)@, final(self)@, 12, 1, value as u64),
            field_value(final(self)@, 12, 1) == (value as nat) % 2,
            fields_kept(old(self)@, final(self)@, 12, 1),
    {
        self.set_field(12, 1, value as u64);
        proof {
            vstd::arithmetic::power2::lemma2_to64();
            vstd::arithmetic::power2::lemma2_to64_rest();
        }
    }

}

/// AON Control Register
#[allow(non_camel_case_types)]
pub struct AON_CTRL;

impl Register for AON_CTRL {
    open spec fn spec_id() -> u8 {
        0x2C
    }

    open spec fn spec_sub_id() -> u16 {
        0x02
    }

    open spec fn spec_len() -> usize {
        1
    }

    fn id() -> (r: u8) {
        0x2C
    }

    fn sub_id() -> (r: u16) {
        0x02
    }

    fn len() -> (r: usize) {
        1
    }
}

impl Readable for AON_CTRL {}

impl Writable for AON_CTRL {}

impl R<AON_CTRL> {
    /// When this bit is set the DW1000 will copy the user configurations from the AON memory to the host interface register set.
    pub fn restore(&self) -> (r: u8)
        ensures
            r == field_value(self@, 0, 1),
            r < 2,
    {
        proof {
            crate::ll::bits::lemma_field_value_bound(self@, 0, 1);
            vstd::arithmetic::power2::lemma2_to64();
        }
        self.field(0, 1) as u8
    }

    /// When this bit is set the DW1000 will copy the user configurations from the host interface register  set  into  the AON  memory.
    pub fn save(&self) -> (r: u8)
        ensures
            r == field_value(self@, 1, 1),
            r < 2,
    {
        proof {
            crate::ll::bits::lemma_field_value_bound(self@, 1, 1);
            vstd::arithmetic::power2::lemma2_to64();
        }
        self.field(1, 1) as u8
    }

    /// Upload the AON block configurations to the AON.
    pub fn upl_cfg(&self) -> (r: u8)
        ensures
            r == field_value(self@, 2, 1),
            r < 2,
    {
        proof {
            crate::ll::bits::lemma_field_value_bound(self@, 2, 1);
            vstd::arithmetic::power2::lemma2_to64();
        }
        self.field(2, 1) as u8
    }

    /// Direct AON memory access read.
    pub fn dca_read(&self) -> (r: u8)
        ensures
            r == field_value(self@, 3, 1),
            r < 2,
    {
        proof {
            crate::ll::bits::lemma_field_value_bound(self@, 3, 1);
            vstd::arithmetic::power2::lemma2_to64();
        }
        self.field(3, 1) as u8
    }

    /// Direct AON memory access enable bit.
    pub fn dca_enab(&self) -> (r: u8)
        ensures
            r == field_value(self@, 7, 1),
            r < 2,
    {
        proof {
            crate::ll::bits::lemma_field_value_bound(self@, 7, 1);
            vstd::arithmetic::power2::lemma2_to64();
        }
        self.field(7, 1) as u8
    }

}

impl W<AON_CTRL> {
    /// When this bit is set the DW1000 will copy the user configurations from the AON memory to the host interface register set.
    pub fn restore(&mut self, value: u8)
        ensures
            field_written(old(self)@, final(self)@, 0, 1, value as u64),
            field_value(final(self)@, 0, 1) == (value as nat) % 2,
            fields_kept(old(self)@, final(self)@, 0, 1),
    {
        self.set_field(0, 1, value as u64);
        proof {
            vstd::arithmetic::power2::lemma2_to64();
            vstd::arithmetic::power2::lemma2_to64_rest();
        }
    }

    /// When this bit is set the DW1000 will copy the user configurations from the host interface register  set  into  the AON  memory.
    pub fn save(&mut self, value: u8)
        ensures
            field_written(old(self)@, final(self)@, 1, 1, value as u64),
            field_value(final(self)@, 1, 1) == (value as nat) % 2,
            fields_kept(old(self)@, final(self)@, 1, 1),
    {
        self.set_field(1, 1, value as u64);
        proof {
            vstd::arithmetic::power2::lemma2_to64();
            vstd::arithmetic::power2::lemma2_to64_rest();
        }
    }

    /// Upload the AON block configurations to the AON.
    pub fn upl_cfg(&mut self, value: u8)
        ensures
            field_written(old(self)@, final(self)@, 2, 1, value as u64),
            field_value(final(self)@, 2, 1) == (value as nat) % 2,
            fields_kept(old(self)@, final(self)@, 2, 1),
    {
        self.set_field(2, 1, value as u64);
        proof {
            vstd::arithmetic::power2::lemma2_to64();
            vstd::arithmetic::power2::lemma2_to64_rest();
        }
    }

    /// Direct AON memory access read.
    pub fn dca_read(&mut self, value: u8)
        ensures
            field_written(old(self)@, final(self)@, 3, 1, value as u64),
            field_value(final(self)@, 3, 1) == (value as nat) % 2,
            fields_kept(old(self)@, final(self)@, 3, 1),
    {
        self.set_field(3, 1, value as u64);
        proof {
            vstd::arithmetic::power2::lemma2_to64();
            vstd::arithmetic::power2::lemma2_to64_rest();
        }
    }

    /// Direct AON memory access enable bit.
    pub fn dca_enab(&mut self, value: u8)
        ensures
            field_written(old(self)@, final(self)@, 7, 1, value as u64),
            field_value(final(self)@, 7, 1) == (value as nat) % 2,
            fields_kept(old(self)@, final(self)@, 7, 1),
    {
        self.set_field(7, 1, value as u64);
        proof {
            vstd::arithmetic::power2::lemma2_to64();
            vstd::arithmetic::power2::lemma2_to64_rest();
        }
    }

}

/// AON Configuration Register 0
#[allow(non_camel_case_types)]
pub struct AON_CFG0;

impl Register for AON_CFG0 {
    open spec fn spec_id() -> u8 {
        0x2C
    }

    open spec fn spec_sub_id() -> u16 {
        0x06
    }

    open spec fn spec_len() -> usize {
        4
    }

    fn id() -> (r: u8) {
        0x2C
    }

    fn sub_id() -> (r: u16) {
        0x06
    }

    fn len() -> (r: usize) {
        4
    }
}

impl Readable for AON_CFG0 {}

impl Writable for AON_CFG0 {}

impl R<AON_CFG0> {
    /// Sleep enable configuration bit
    pub fn sleep_en(&self) -> (r: u8)
        ensures
            r == field_value(self@, 0, 1),
            r < 2,
    {
        proof {
            crate::ll::bits::lemma_field_value_bound(self@, 0, 1);
            vstd::arithmetic::power2::lemma2_to64();
        }
        self.field(0, 1) as u8
    }

    /// Wake using WAKEUP pin
    pub fn wake_pin(&self) -> (r: u8)
        ensures
            r == field_value(self@, 1, 1),
            r < 2,
    {
        proof {
            crate::ll::bits::lemma_field_value_bound(self@, 1, 1);
            vstd::arithmetic::power2::lemma2_to64();
        }
        self.field(1, 1) as u8
    }

    /// Wake using SPI access
    pub fn wake_spi(&self) -> (r: u8)
        ensures
            r == field_value(self@, 2, 1),
            r < 2,
    {
        proof {
            crate::ll::bits::lemma_field_value_bound(self@, 2, 1);
            vstd::arithmetic::power2::lemma2_to64();
        }
        self.field(2, 1) as u8
    }

    /// Wake when sleep counter elapses
    pub fn wake_cnt(&self) -> (r: u8)
        ensures
            r == field_value(self@, 3, 1),
            r < 2,
    {
        proof {
            crate::ll::bits::lemma_field_value_bound(self@, 3, 1);
            vstd::arithmetic::power2::lemma2_to64();
        }
        self.field(3, 1) as u8
    }

    /// Low power divider enable configuration.
    pub fn lpdiv_en(&self) -> (r: u8)
        ensures
            r == field_value(self@, 4, 1),
            r < 2,
    {
        proof {
            crate::ll::bits::lemma_field_value_bound(self@, 4, 1);
            vstd::arithmetic::power2::lemma2_to64();
        }
        self.field(4, 1) as u8
    }

    /// This field specifies a divider count for dividing the raw DW1000 XTAL oscillator frequency to set an LP clock frequency.
    pub fn lpclkdiva(&self) -> (r: u16)
        ensures
            r == field_value(self@, 5, 11),
            r < 0x800,
    {
        proof {
            crate::ll::bits::lemma_field_value_bound(self@, 5, 11);
            vstd::arithmetic::power2::lemma2_to64();
        }
        self.field(5, 11) as u16
    }

    /// Sleep time.  This field configures the sleep time count elapse value.
    pub fn sleep_tim(&self) -> (r: u16)
        ensures
            r == field_value(self@, 16, 16),
            r < 0x10000,
    {
        proof {
            crate::ll::bits::lemma_field_value_bound(self@, 16, 16);
            vstd::arithmetic::power2::lemma2_to64();
        }
        self.field(16, 16) as u16
    }

}

impl W<AON_CFG0> {
    /// Sleep enable configuration bit
    pub fn sleep_en(&mut self, value: u8)
        ensures
            field_written(old(self)@, final(self)@, 0, 1, value as u64),
            field_value(final(self)@, 0, 1) == (value as nat) % 2,
            fields_kept(old(self)@, final(self)@, 0, 1),
    {
        self.set_field(0, 1, value as u64);
        proof {
            vstd::arithmetic::power2::lemma2_to64();
            vstd::arithmetic::power2::lemma2_to64_rest();
        }
    }

    /// Wake using WAKEUP pin
    pub fn wake_pin(&mut self, value: u8)
        ensures
            field_written(old(self)@, final(self)@, 1, 1, value as u64),
            field_value(final(self)@, 1, 1) == (value as nat) % 2,
            fields_kept(old(self)@, final(self)@, 1, 1),
    {
        self.set_field(1, 1, value as u64);
        proof {
            vstd::arithmetic::power2::lemma2_to64();
            vstd::arithmetic::power2::lemma2_to64_rest();
        }
    }

    /// Wake using SPI access
    pub fn wake_spi(&mut self, value: u8)
        ensures
            field_written(old(self)@, final(self)@, 2, 1, value as u64),
            field_value(final(self)@, 2, 1) == (value as nat) % 2,
            fields_kept(old(self)@, final(self)@, 2, 1),
    {
        self.set_field(2, 1, value as u64);
        proof {
            vstd::arithmetic::power2::lemma2_to64();
            vstd::arithmetic::power2::lemma2_to64_rest();
        }
    }

    /// Wake when sleep counter elapses
    pub fn wake_cnt(&mut self, value: u8)
        ensures
            field_written(old(self)@, final(self)@, 3, 1, value as u64),
            field_value(final(self)@, 3, 1) == (value as nat) % 2,
            fields_kept(old(self)@, final(self)@, 3, 1),
    {
        self.set_field(3, 1, value as u64);
        proof {
            vstd::arithmetic::power2::lemma2_to64();
            vstd::arithmetic::power2::lemma2_to64_rest();
        }
    }

    /// Low power divider enable configuration.
    pub fn lpdiv_en(&mut self, value: u8)
        ensures
            field_written(old(self)@, final(self)@, 4, 1, value as u64),
            field_value(final(self)@, 4, 1) == (value as nat) % 2,
            fields_kept(old(self)@, final(self)@, 4, 1),
    {
        self.set_field(4, 1, value as u64);
        proof {
            vstd::arithmetic::power2::lemma2_to64();
            vstd::arithmetic::power2::lemma2_to64_rest();
        }
    }

    /// This field specifies a divider count for dividing the raw DW1000 XTAL oscillator frequency to set an LP clock frequency.
    pub fn lpclkdiva(&mut self, value: u16)
        ensures
            field_written(old(self)@, final(self)@, 5, 11, value as u64),
            field_value(final(self)@, 5, 11) == (value as nat) % 0x800,
            fields_kept(old(self)@, final(self)@, 5, 11),
    {
        self.set_field(5, 11, value as u64);
        proof {
            vstd::arithmetic::power2::lemma2_to64();
            vstd::arithmetic::power2::lemma2_to64_rest();
        }
    }

    /// Sleep time.  This field configures the sleep time count elapse value.
    pub fn sleep_tim(&mut self, value: u16)
        ensures
            field_written(old(self)@, final(self)@, 16, 16, value as u64),
            field_value(final(self)@, 16, 16) == value as nat,
            fields_kept(old(self)@, final(self)@, 16, 16),
    {
        self.set_field(16, 16, value as u64);
        proof {
            vstd::arithmetic::power2::lemma2_to64();
            vstd::arithmetic::power2::lemma2_to64_rest();
        }
    }

}

/// AON Configuration Register 1
#[allow(non_camel_case_types)]
pub struct AON_CFG1;

impl Register for AON_CFG1 {
    open spec fn spec_id() -> u8 {
        0x2C
    }

    open spec fn spec_sub_id() -> u16 {
        0x0A
    }

    open spec fn spec_len() -> usize {
        2
    }

    fn id() -> (r: u8) {
        0x2C
    }

    fn sub_id() -> (r: u16) {
        0x0A
    }

    fn len() -> (r: usize) {
        2
    }
}

impl Readable for AON_CFG1 {}

impl Writable for AON_CFG1 {}

impl R<AON_CFG1> {
    /// This bit enables the sleep counter.
    pub fn sleep_cen(&self) -> (r: u8)
        ensures
            r == field_value(self@, 0, 1),
            r < 2,
    {
        proof {
            crate::ll::bits::lemma_field_value_bound(self@, 0, 1);
            vstd::arithmetic::power2::lemma2_to64();
        }
        self.field(0, 1) as u8
    }

    /// Thisbit needs to be set to 0 for correct operation in the SLEEP state within the DW1000.
    pub fn smxx(&self) -> (r: u8)
        ensures
            r == field_value(self@, 1, 1),
            r < 2,
    {
        proof {
            crate::ll::bits::lemma_field_value_bound(self@, 1, 1);
            vstd::arithmetic::power2::lemma2_to64();
        }
        self.field(1, 1) as u8
    }

    /// This bit enables the calibration function that measures the period of the IC’s internal low powered oscillator.
    pub fn lposc_cal(&self) -> (r: u8)
        ensures
            r == field_value(self@, 2, 1),
            r < 2,
    {
        proof {
            crate::ll::bits::lemma_field_value_bound(self@, 2, 1);
            vstd::arithmetic::power2::lemma2_to64();
        }
        self.field(2, 1) as u8
    }

}

impl W<AON_CFG1> {
    /// This bit enables the sleep counter.
    pub fn sleep_cen(&mut self, value: u8)
        ensures
            field_written(old(self)@, final(self)@, 0, 1, value as u64),
            field_value(final(self)@, 0, 1) == (value as nat) % 2,
            fields_kept(old(self)@, final(self)@, 0, 1),
    {
        self.set_field(0, 1, value as u64);
        proof {
            vstd::arithmetic::power2::lemma2_to64();
            vstd::arithmetic::power2::lemma2_to64_rest();
        }
    }

    /// Thisbit needs to be set to 0 for correct operation in the SLEEP state within the DW1000.
    pub fn smxx(&mut self, value: u8)
        ensures
            field_written(old(self)@, final(self)@, 1, 1, value as u64),
            field_value(final(self)@, 1, 1) == (value as nat) % 2,
            fields_kept(old(self)@, final(self)@, 1, 1),
    {
        self.set_field(1, 1, value as u64);
        proof {
            vstd::arithmetic::power2::lemma2_to64();
            vstd::arithmetic::power2::lemma2_to64_rest();
        }
    }

    /// This bit enables the calibration function that measures the period of the IC’s internal low powered oscillator.
    pub fn lposc_cal(&mut self, value: u8)
        ensures
            field_written(old(self)@, final(self)@, 2, 1, value as u64),
            field_value(final(self)@, 2, 1) == (value as nat) % 2,
            fields_kept(old(self)@, final(self)@, 2, 1),
    {
        self.set_field(2, 1, value as u64);
        proof {
            vstd::arithmetic::power2::lemma2_to64();
            vstd::arithmetic::power2::lemma2_to64_rest();
        }
    }

}

/// OTP Address
#[allow(non_camel_case_types)]
pub struct OTP_ADDR;

impl Register for OTP_ADDR {
    open spec fn spec_id() -> u8 {
        0x2D
    }

    open spec fn spec_sub_id() -> u16 {
        0x04
    }

    open spec fn spec_len() -> usize {
        2
    }

    fn id() -> (r: u8) {
        0x2D
    }

    fn sub_id() -> (r: u16) {
        0x04
    }

    fn len() -> (r: usize) {
        2
    }
}

impl Readable for OTP_ADDR {}

impl Writable for OTP_ADDR {}

impl R<OTP_ADDR> {
    /// OTP Address
    pub fn value(&self) -> (r: u16)
        ensures
            r == field_value(self@, 0, 11),
            r < 0x800,
    {
        proof {
            crate::ll::bits::lemma_field_value_bound(self@, 0, 11);
            vstd::arithmetic::power2::lemma2_to64();
        }
        self.field(0, 11) as u16
    }

}

impl W<OTP_ADDR> {
    /// OTP Address
    pub fn value(&mut self, value: u16)
        ensures
            field_written(old(self)@, final(self)@, 0, 11, value as u64),
            field_value(final(self)@, 0, 11) == (value as nat) % 0x800,
            fields_kept(old(self)@, final(self)@, 0, 11),
    {
        self.set_field(0, 11, value as u64);
        proof {
            vstd::arithmetic::power2::lemma2_to64();
            vstd::arithmetic::power2::lemma2_to64_rest();
        }
    }

}

/// OTP Control
#[allow(non_camel_case_types)]
pub struct OTP_CTRL;

impl Register for OTP_CTRL {
    open spec fn spec_id() -> u8 {
        0x2D
    }

    open spec fn spec_sub_id() -> u16 {
        0x06
    }

    open spec fn spec_len() -> usize {
        2
    }

    fn id() -> (r: u8) {
        0x2D
    }

    fn sub_id() -> (r: u16) {
        0x06
    }

    fn len() -> (r: usize) {
        2
    }
}

impl Readable for OTP_CTRL {}

impl Writable for OTP_CTRL {}

impl R<OTP_CTRL> {
    /// Forces OTP into manual read mode
    pub fn otprden(&self) -> (r: u8)
        ensures
            r == field_value(self@, 0, 1),
            r < 2,
    {
        proof {
            crate::ll::bits::lemma_field_value_bound(self@, 0, 1);
            vstd::arithmetic::power2::lemma2_to64();
        }
        self.field(0, 1) as u8
    }

    /// Commands a read operation
    pub fn otpread(&self) -> (r: u8)
        ensures
            r == field_value(self@, 1, 1),
            r < 2,
    {
        proof {
            crate::ll::bits::lemma_field_value_bound(self@, 1, 1);
            vstd::arithmetic::power2::lemma2_to64();
        }
        self.field(1, 1) as u8
    }

    /// OTP mode register write
    pub fn otpmrwr(&self) -> (r: u8)
        ensures
            r == field_value(self@, 3, 1),
            r < 2,
    {
        proof {
            crate::ll::bits::lemma_field_value_bound(self@, 3, 1);
            vstd::arithmetic::power2::lemma2_to64();
        }
        self.field(3, 1) as u8
    }

    /// Write OTP_WDAT to OTP_ADDR
    pub fn otpprog(&self) -> (r: u8)
        ensures
            r == field_value(self@, 6, 1),
            r < 2,
    {
        proof {
            crate::ll::bits::lemma_field_value_bound(self@, 6, 1);
            vstd::arithmetic::power2::lemma2_to64();
        }
        self.field(6, 1) as u8
    }

    /// OTP mode register
    pub fn otpmr(&self) -> (r: u8)
        ensures
            r == field_value(self@, 7, 4),
            r < 16,
    {
        proof {
            crate::ll::bits::lemma_field_value_bound(self@, 7, 4);
            vstd::arithmetic::power2::lemma2_to64();
        }
        self.field(7, 4) as u8
    }

    /// Force load of LDE microcode
    pub fn ldeload(&self) -> (r: u8)
        ensures
            r == field_value(self@, 15, 1),
            r < 2,
    {
        proof {
            crate::ll::bits::lemma_field_value_bound(self@, 15, 1);
            vstd::arithmetic::power2::lemma2_to64();
        }
        self.field(15, 1) as u8
    }

}

impl W<OTP_CTRL> {
    /// Forces OTP into manual read mode
    pub fn otprden(&mut self, value: u8)
        ensures
            field_written(old(self)@, final(self)@, 0, 1, value as u64),
            field_value(final(self)@, 0, 1) == (value as nat) % 2,
            fields_kept(old(self)@, final(self)@, 0, 1),
    {
        self.set_field(0, 1, value as u64);
        proof {
            vstd::arithmetic::power2::lemma2_to64();
            vstd::arithmetic::power2::lemma2_to64_rest();
        }
    }

    /// Commands a read operation
    pub fn otpread(&mut self, value: u8)
        ensures
            field_written(old(self)@, final(self)@, 1, 1, value as u64),
            field_value(final(self)@, 1, 1) == (value as nat) % 2,
            fields_kept(old(self)@, final(self)@, 1, 1),
    {
        self.set_field(1, 1, value as u64);
        proof {
            vstd::arithmetic::power2::lemma2_to64();
            vstd::arithmetic::power2::lemma2_to64_rest();
        }
    }

    /// OTP mode register write
    pub fn otpmrwr(&mut self, value: u8)
        ensures
            field_written(old(self)@, final(self)@, 3, 1, value as u64),
            field_value(final(self)@, 3, 1) == (value as nat) % 2,
            fields_kept(old(self)@, final(self)@, 3, 1),
    {
        self.set_field(3, 1, value as u64);
        proof {
            vstd::arithmetic::power2::lemma2_to64();
            vstd::arithmetic::power2::lemma2_to64_rest();
        }
    }

    /// Write OTP_WDAT to OTP_ADDR
    pub fn otpprog(&mut self, value: u8)
        ensures
            field_written(old(self)@, final(self)@, 6, 1, value as u64),
            field_value(final(self)@, 6, 1) == (value as nat) % 2,
            fields_kept(old(self)@, final(self)@, 6, 1),
    {
        self.set_field(6, 1, value as u64);
        proof {
            vstd::arithmetic::power2::lemma2_to64();
            vstd::arithmetic::power2::lemma2_to64_rest();
        }
    }

    /// OTP mode register
    pub fn otpmr(&mut self, value: u8)
        ensures
            field_written(old(self)@, final(self)@, 7, 4, value as u64),
            field_value(final(self)@, 7, 4) == (value as nat) % 16,
            fields_kept(old(self)@, final(self)@, 7, 4),
    {
        self.set_field(7, 4, value as u64);
        proof {
            vstd::arithmetic::power2::lemma2_to64();
            vstd::arithmetic::power2::lemma2_to64_rest();
        }
    }

    /// Force load of LDE microcode
    pub fn ldeload(&mut self, value: u8)
        ensures
            field_written(old(self)@, final(self)@, 15, 1, value as u64),
            field_value(final(self)@, 15, 1) == (value as nat) % 2,
            fields_kept(old(self)@, final(self)@, 15, 1),
    {
        self.set_field(15, 1, value as u64);
        proof {
            vstd::arithmetic::power2::lemma2_to64();
            vstd::arithmetic::power2::lemma2_to64_rest();
        }
    }

}

/// OTP Read Data
#[allow(non_camel_case_types)]
pub struct OTP_RDAT;

impl Register for OTP_RDAT {
    open spec fn spec_id() -> u8 {
        0x2D
    }

    open spec fn spec_sub_id() -> u16 {
        0x0A
    }

    open spec fn spec_len() -> usize {
        4
    }

    fn id() -> (r: u8) {
        0x2D
    }

    fn sub_id() -> (r: u16) {
        0x0A
    }

    fn len() -> (r: usize) {
        4
    }
}

impl Readable for OTP_RDAT {}

impl R<OTP_RDAT> {
    /// OTP Read Data
    pub fn value(&self) -> (r: u32)
        ensures
            r == field_value(self@, 0, 32),
            r < 0x100000000,
    {
        proof {
            crate::ll::bits::lemma_field_value_bound(self@, 0, 32);
            vstd::arithmetic::power2::lemma2_to64();
        }
        self.field(0, 32) as u32
    }

}

/// LDE Configuration Register 1
#[allow(non_camel_case_types)]
pub struct LDE_CFG1;

impl Register for LDE_CFG1 {
    open spec fn spec_id() -> u8 {
        0x2E
    }

    open spec fn spec_sub_id() -> u16 {
        0x0806
    }

    open spec fn spec_len() -> usize {
        1
    }

    fn id() -> (r: u8) {
        0x2E
    }

    fn sub_id() -> (r: u16) {
        0x0806
    }

    fn len() -> (r: usize) {
        1
    }
}

impl Readable for LDE_CFG1 {}

impl Writable for LDE_CFG1 {}

impl R<LDE_CFG1> {
    /// Noise Threshold Multiplier
    pub fn ntm(&self) -> (r: u8)
        ensures
            r == field_value(self@, 0, 5),
            r < 32,
    {
        proof {
            crate::ll::bits::lemma_field_value_bound(self@, 0, 5);
            vstd::arithmetic::power2::lemma2_to64();
        }
        self.field(0, 5) as u8
    }

    /// Peak Multiplier
    pub fn pmult(&self) -> (r: u8)
        ensures
            r == field_value(self@, 5, 3),
            r < 8,
    {
        proof {
            crate::ll::bits::lemma_field_value_bound(self@, 5, 3);
            vstd::arithmetic::power2::lemma2_to64();
        }
        self.field(5, 3) as u8
    }

}

impl W<LDE_CFG1> {
    /// Noise Threshold Multiplier
    pub fn ntm(&mut self, value: u8)
        ensures
            field_written(old(self)@, final(self)@, 0, 5, value as u64),
            field_value(final(self)@, 0, 5) == (value as nat) % 32,
            fields_kept(old(self)@, final(self)@, 0, 5),
    {
        self.set_field(0, 5, value as u64);
        proof {
            vstd::arithmetic::power2::lemma2_to64();
            vstd::arithmetic::power2::lemma2_to64_rest();
        }
    }

    /// Peak Multiplier
    pub fn pmult(&mut self, value: u8)
        ensures
            field_written(old(self)@, final(self)@, 5, 3, value as u64),
            field_value(final(self)@, 5, 3) == (value as nat) % 8,
            fields_kept(old(self)@, final(self)@, 5, 3),
    {
        self.set_field(5, 3, value as u64);
        proof {
            vstd::arithmetic::power2::lemma2_to64();
            vstd::arithmetic::power2::lemma2_to64_rest();
        }
    }

}

/// LDE Peak Path Index
#[allow(non_camel_case_types)]
pub struct LDE_PPINDX;

impl Register for LDE_PPINDX {
    open spec fn spec_id() -> u8 {
        0x2E
    }

    open spec fn spec_sub_id() -> u16 {
        0x1000
    }

    open spec fn spec_len() -> usize {
        2
    }

    fn id() -> (r: u8) {
        0x2E
    }

    fn sub_id() -> (r: u16) {
        0x1000
    }

    fn len() -> (r: usize) {
        2
    }
}

impl Readable for LDE_PPINDX {}

impl R<LDE_PPINDX> {
    /// LDE Peak Path Index
    pub fn value(&self) -> (r: u16)
        ensures
            r == field_value(self@, 0, 16),
            r < 0x10000,
    {
        proof {
            crate::ll::bits::lemma_field_value_bound(self@, 0, 16);
            vstd::arithmetic::power2::lemma2_to64();
        }
        self.field(0, 16) as u16
    }

}

/// LDE Peak Path Amplitude
#[allow(non_camel_case_types)]
pub struct LDE_PPAMPL;

impl Register for LDE_PPAMPL {
    open spec fn spec_id() -> u8 {
        0x2E
    }

    open spec fn spec_sub_id() -> u16 {
        0x1002
    }

    open spec fn spec_len() -> usize {
        2
    }

    fn id() -> (r: u8) {
        0x2E
    }

    fn sub_id() -> (r: u16) {
        0x1002
    }

    fn len() -> (r: usize) {
        2
    }
}

impl Readable for LDE_PPAMPL {}

impl R<LDE_PPAMPL> {
    /// LDE Peak Path Amplitude
    pub fn value(&self) -> (r: u16)
        ensures
            r == field_value(self@, 0, 16),
            r < 0x10000,
    {
        proof {
            crate::ll::bits::lemma_field_value_bound(self@, 0, 16);
            vstd::arithmetic::power2::lemma2_to64();
        }
        self.field(0, 16) as u16
    }

}

/// RX Antenna Delay
#[allow(non_camel_case_types)]
pub struct LDE_RXANTD;

impl Register for LDE_RXANTD {
    open spec fn spec_id() -> u8 {
        0x2E
    }

    open spec fn spec_sub_id() -> u16 {
        0x1804
    }

    open spec fn spec_len() -> usize {
        2
    }

    fn id() -> (r: u8) {
        0x2E
    }

    fn sub_id() -> (r: u16) {
        0x1804
    }

    fn len() -> (r: usize) {
        2
    }
}

impl Readable for LDE_RXANTD {}

impl Writable for LDE_RXANTD {}

impl R<LDE_RXANTD> {
    /// RX Antenna Delay
    pub fn value(&self) -> (r: u16)
        ensures
            r == field_value(self@, 0, 16),
            r < 0x10000,
    {
        proof {
            crate::ll::bits::lemma_field_value_bound(self@, 0, 16);
            vstd::arithmetic::power2::lemma2_to64();
        }
        self.field(0, 16) as u16
    }

}

impl W<LDE_RXANTD> {
    /// RX Antenna Delay
    pub fn value(&mut self, value: u16)
        ensures
            field_written(old(self)@, final(self)@, 0, 16, value as u64),
            field_value(final(self)@, 0, 16) == value as nat,
            fields_kept(old(self)@, final(self)@, 0, 16),
    {
        self.set_field(0, 16, value as u64);
        proof {
            vstd::arithmetic::power2::lemma2_to64();
            vstd::arithmetic::power2::lemma2_to64_rest();
        }
    }

}

/// LDE Configuration Register 2
#[allow(non_camel_case_types)]
pub struct LDE_CFG2;

impl Register for LDE_CFG2 {
    open spec fn spec_id() -> u8 {
        0x2E
    }

    open spec fn spec_sub_id() -> u16 {
        0x1806
    }

    open spec fn spec_len() -> usize {
        2
    }

    fn id() -> (r: u8) {
        0x2E
    }

    fn sub_id() -> (r: u16) {
        0x1806
    }

    fn len() -> (r: usize) {
        2
    }
}

impl Readable for LDE_CFG2 {}

impl Writable for LDE_CFG2 {}

impl R<LDE_CFG2> {
    /// The LDE_CFG2 configuration value
    pub fn value(&self) -> (r: u16)
        ensures
            r == field_value(self@, 0, 16),
            r < 0x10000,
    {
        proof {
            crate::ll::bits::lemma_field_value_bound(self@, 0, 16);
            vstd::arithmetic::power2::lemma2_to64();
        }
        self.field(0, 16) as u16
    }

}

impl W<LDE_CFG2> {
    /// The LDE_CFG2 configuration value
    pub fn value(&mut self, value: u16)
        ensures
            field_written(old(self)@, final(self)@, 0, 16, value as u64),
            field_value(final(self)@, 0, 16) == value as nat,
            fields_kept(old(self)@, final(self)@, 0, 16),
    {
        self.set_field(0, 16, value as u64);
        proof {
            vstd::arithmetic::power2::lemma2_to64();
            vstd::arithmetic::power2::lemma2_to64_rest();
        }
    }

}

/// LDE Replica Coefficient configuration
#[allow(non_camel_case_types)]
pub struct LDE_REPC;

impl Register for LDE_REPC {
    open spec fn spec_id() -> u8 {
        0x2E
    }

    open spec fn spec_sub_id() -> u16 {
        0x2804
    }

    open spec fn spec_len() -> usize {
        2
    }

    fn id() -> (r: u8) {
        0x2E
    }

    fn sub_id() -> (r: u16) {
        0x2804
    }

    fn len() -> (r: usize) {
        2
    }
}

impl Readable for LDE_REPC {}

impl Writable for LDE_REPC {}

impl R<LDE_REPC> {
    /// The LDE_REPC configuration value
    pub fn value(&self) -> (r: u16)
        ensures
            r == field_value(self@, 0, 16),
            r < 0x10000,
    {
        proof {
            crate::ll::bits::lemma_field_value_bound(self@, 0, 16);
            vstd::arithmetic::power2::lemma2_to64();
        }
        self.field(0, 16) as u16
    }

}

impl W<LDE_REPC> {
    /// The LDE_REPC configuration value
    pub fn value(&mut self, value: u16)
        ensures
            field_written(old(self)@, final(self)@, 0, 16, value as u64),
            field_value(final(self)@, 0, 16) == value as nat,
            fields_kept(old(self)@, final(self)@, 0, 16),
    {
        self.set_field(0, 16, value as u64);
        proof {
            vstd::arithmetic::power2::lemma2_to64();
            vstd::arithmetic::power2::lemma2_to64_rest();
        }
    }

}

/// Event Counter Control
#[allow(non_camel_case_types)]
pub struct EVC_CTRL;

impl Register for EVC_CTRL {
    open spec fn spec_id() -> u8 {
        0x2F
    }

    open spec fn spec_sub_id() -> u16 {
        0x00
    }

    open spec fn spec_len() -> usize {
        4
    }

    fn id() -> (r: u8) {
        0x2F
    }

    fn sub_id() -> (r: u16) {
        0x00
    }

    fn len() -> (r: usize) {
        4
    }
}

impl Readable for EVC_CTRL {}

impl Writable for EVC_CTRL {}

impl R<EVC_CTRL> {
    /// Event Counters Enable
    pub fn evc_en(&self) -> (r: u8)
        ensures
            r == field_value(self@, 0, 1),
            r < 2,
    {
        proof {
            crate::ll::bits::lemma_field_value_bound(self@, 0, 1);
            vstd::arithmetic::power2::lemma2_to64();
        }
        self.field(0, 1) as u8
    }

    /// Event Counters Clear
    pub fn evc_clr(&self) -> (r: u8)
        ensures
            r == field_value(self@, 1, 1),
            r < 2,
    {
        proof {
            crate::ll::bits::lemma_field_value_bound(self@, 1, 1);
            vstd::arithmetic::power2::lemma2_to64();
        }
        self.field(1, 1) as u8
    }

}

impl W<EVC_CTRL> {
    /// Event Counters Enable
    pub fn evc_en(&mut self, value: u8)
        ensures
            field_written(old(self)@, final(self)@, 0, 1, value as u64),
            field_value(final(self)@, 0, 1) == (value as nat) % 2,
            fields_kept(old(self)@, final(self)@, 0, 1),
    {
        self.set_field(0, 1, value as u64);
        proof {
            vstd::arithmetic::power2::lemma2_to64();
            vstd::arithmetic::power2::lemma2_to64_rest();
        }
    }

    /// Event Counters Clear
    pub fn evc_clr(&mut self, value: u8)
        ensures
            field_written(old(self)@, final(self)@, 1, 1, value as u64),
            field_value(final(self)@, 1, 1) == (value as nat) % 2,
            fields_kept(old(self)@, final(self)@, 1, 1),
    {
        self.set_field(1, 1, value as u64);
        proof {
            vstd::arithmetic::power2::lemma2_to64();
            vstd::arithmetic::power2::lemma2_to64_rest();
        }
    }

}

/// Half Period Warning Counter
#[allow(non_camel_case_types)]
pub struct EVC_HPW;

impl Register for EVC_HPW {
    open spec fn spec_id() -> u8 {
        0x2F
    }

    open spec fn spec_sub_id() -> u16 {
        0x18
    }

    open spec fn spec_len() -> usize {
        2
    }

    fn id() -> (r: u8) {
        0x2F
    }

    fn sub_id() -> (r: u16) {
        0x18
    }

    fn len() -> (r: usize) {
        2
    }
}

impl Readable for EVC_HPW {}

impl R<EVC_HPW> {
    /// Half Period Warning Event Counter
    pub fn value(&self) -> (r: u16)
        ensures
            r == field_value(self@, 0, 12),
            r < 0x1000,
    {
        proof {
            crate::ll::bits::lemma_field_value_bound(self@, 0, 12);
            vstd::arithmetic::power2::lemma2_to64();
        }
        self.field(0, 12) as u16
    }

}

/// TX Power-Up Warning Counter
#[allow(non_camel_case_types)]
pub struct EVC_TPW;

impl Register for EVC_TPW {
    open spec fn spec_id() -> u8 {
        0x2F
    }

    open spec fn spec_sub_id() -> u16 {
        0x1A
    }

    open spec fn spec_len() -> usize {
        2
    }

    fn id() -> (r: u8) {
        0x2F
    }

    fn sub_id() -> (r: u16) {
        0x1A
    }

    fn len() -> (r: usize) {
        2
    }
}

impl Readable for EVC_TPW {}

impl R<EVC_TPW> {
    /// TX Power-Up Warning Event Counter
    pub fn value(&self) -> (r: u16)
        ensures
            r == field_value(self@, 0, 12),
            r < 0x1000,
    {
        proof {
            crate::ll::bits::lemma_field_value_bound(self@, 0, 12);
            vstd::arithmetic::power2::lemma2_to64();
        }
        self.field(0, 12) as u16
    }

}

/// PMSC Control Register 0
#[allow(non_camel_case_types)]
pub struct PMSC_CTRL0;

impl Register for PMSC_CTRL0 {
    open spec fn spec_id() -> u8 {
        0x36
    }

    open spec fn spec_sub_id() -> u16 {
        0x00
    }

    open spec fn spec_len() -> usize {
        4
    }

    fn id() -> (r: u8) {
        0x36
    }

    fn sub_id() -> (r: u16) {
        0x00
    }

    fn len() -> (r: usize) {
        4
    }
}

impl Readable for PMSC_CTRL0 {}

impl Writable for PMSC_CTRL0 {}

impl R<PMSC_CTRL0> {
    /// System Clock Selection
    pub fn sysclks(&self) -> (r: u8)
        ensures
            r == field_value(self@, 0, 2),
            r < 4,
    {
        proof {
            crate::ll::bits::lemma_field_value_bound(self@, 0, 2);
            vstd::arithmetic::power2::lemma2_to64();
        }
        self.field(0, 2) as u8
    }

    /// Receiver Clock Selection
    pub fn rxclks(&self) -> (r: u8)
        ensures
            r == field_value(self@, 2, 2),
            r < 4,
    {
        proof {
            crate::ll::bits::lemma_field_value_bound(self@, 2, 2);
            vstd::arithmetic::power2::lemma2_to64();
        }
        self.field(2, 2) as u8
    }

    /// Transmitter Clock Selection
    pub fn txclks(&self) -> (r: u8)
        ensures
            r == field_value(self@, 4, 2),
            r < 4,
    {
        proof {
            crate::ll::bits::lemma_field_value_bound(self@, 4, 2);
            vstd::arithmetic::power2::lemma2_to64();
        }
        self.field(4, 2) as u8
    }

    /// Force Accumulator Clock Enable
    pub fn face(&self) -> (r: u8)
        ensures
            r == field_value(self@, 6, 1),
            r < 2,
    {
        proof {
            crate::ll::bits::lemma_field_value_bound(self@, 6, 1);
            vstd::arithmetic::power2::lemma2_to64();
        }
        self.field(6, 1) as u8
    }

    /// ADC Clock Enable
    pub fn adcce(&self) -> (r: u8)
        ensures
            r == field_value(self@, 10, 1),
            r < 2,
    {
        proof {
            crate::ll::bits::lemma_field_value_bound(self@, 10, 1);
            vstd::arithmetic::power2::lemma2_to64();
        }
        self.field(10, 1) as u8
    }

    /// Accumulator Memory Clock Enable
    pub fn amce(&self) -> (r: u8)
        ensures
            r == field_value(self@, 15, 1),
            r < 2,
    {
        proof {
            crate::ll::bits::lemma_field_value_bound(self@, 15, 1);
            vstd::arithmetic::power2::lemma2_to64();
        }
        self.field(15, 1) as u8
    }

    /// GPIO Clock Enable
    pub fn gpce(&self) -> (r: u8)
        ensures
            r == field_value(self@, 16, 1),
            r < 2,
    {
        proof {
            crate::ll::bits::lemma_field_value_bound(self@, 16, 1);
            vstd::arithmetic::power2::lemma2_to64();
        }
        self.field(16, 1) as u8
    }

    /// GPIO Reset (Not), active low
    pub fn gprn(&self) -> (r: u8)
        ensures
            r == field_value(self@, 17, 1),
            r < 2,
    {
        proof {
            crate::ll::bits::lemma_field_value_bound(self@, 17, 1);
            vstd::arithmetic::power2::lemma2_to64();
        }
        self.field(17, 1) as u8
    }

    /// GPIO De-bounce Clock Enable
    pub fn gpdce(&self) -> (r: u8)
        ensures
            r == field_value(self@, 18, 1),
            r < 2,
    {
        proof {
            crate::ll::bits::lemma_field_value_bound(self@, 18, 1);
            vstd::arithmetic::power2::lemma2_to64();
        }
        self.field(18, 1) as u8
    }

    /// GPIO De-bounce Reset (Not), active low
    pub fn gpdrn(&self) -> (r: u8)
        ensures
            r == field_value(self@, 19, 1),
            r < 2,
    {
        proof {
            crate::ll::bits::lemma_field_value_bound(self@, 19, 1);
            vstd::arithmetic::power2::lemma2_to64();
        }
        self.field(19, 1) as u8
    }

    /// Kilohertz Clock Enable
    pub fn khzclken(&self) -> (r: u8)
        ensures
            r == field_value(self@, 23, 1),
            r < 2,
    {
        proof {
            crate::ll::bits::lemma_field_value_bound(self@, 23, 1);
            vstd::arithmetic::power2::lemma2_to64();
        }
        self.field(23, 1) as u8
    }

    /// Soft Reset
    pub fn softreset(&self) -> (r: u8)
        ensures
            r == field_value(self@, 28, 4),
            r < 16,
    {
        proof {
            crate::ll::bits::lemma_field_value_bound(self@, 28, 4);
            vstd::arithmetic::power2::lemma2_to64();
        }
        self.field(28, 4) as u8
    }

    /// The raw register value
    pub fn raw_value(&self) -> (r: u32)
        ensures
            r == field_value(self@, 0, 32),
            r < 0x100000000,
    {
        proof {
            crate::ll::bits::lemma_field_value_bound(self@, 0, 32);
            vstd::arithmetic::power2::lemma2_to64();
        }
        self.field(0, 32) as u32
    }

}

impl W<PMSC_CTRL0> {
    /// System Clock Selection
    pub fn sysclks(&mut self, value: u8)
        ensures
            field_written(old(self)@, final(self)@, 0, 2, value as u64),
            field_value(final(self)@, 0, 2) == (value as nat) % 4,
            fields_kept(old(self)@, final(self)@, 0, 2),
    {
        self.set_field(0, 2, value as u64);
        proof {
            vstd::arithmetic::power2::lemma2_to64();
            vstd::arithmetic::power2::lemma2_to64_rest();
        }
    }

    /// Receiver Clock Selection
    pub fn rxclks(&mut self, value: u8)
        ensures
            field_written(old(self)@, final(self)@, 2, 2, value as u64),
            field_value(final(self)@, 2, 2) == (value as nat) % 4,
            fields_kept(old(self)@, final(self)@, 2, 2),
    {
        self.set_field(2, 2, value as u64);
        proof {
            vstd::arithmetic::power2::lemma2_to64();
            vstd::arithmetic::power2::lemma2_to64_rest();
        }
    }

    /// Transmitter Clock Selection
    pub fn txclks(&mut self, value: u8)
        ensures
            field_written(old(self)@, final(self)@, 4, 2, value as u64),
            field_value(final(self)@, 4, 2) == (value as nat) % 4,
            fields_kept(old(self)@, final(self)@, 4, 2),
    {
        self.set_field(4, 2, value as u64);
        proof {
            vstd::arithmetic::power2::lemma2_to64();
            vstd::arithmetic::power2::lemma2_to64_rest();
        }
    }

    /// Force Accumulator Clock Enable
    pub fn face(&mut self, value: u8)
        ensures
            field_written(old(self)@, final(self)@, 6, 1, value as u64),
            field_value(final(self)@, 6, 1) == (value as nat) % 2,
            fields_kept(old(self)@, final(self)@, 6, 1),
    {
        self.set_field(6, 1, value as u64);
        proof {
            vstd::arithmetic::power2::lemma2_to64();
            vstd::arithmetic::power2::lemma2_to64_rest();
        }
    }

    /// ADC Clock Enable
    pub fn adcce(&mut self, value: u8)
        ensures
            field_written(old(self)@, final(self)@, 10, 1, value as u64),
            field_value(final(self)@, 10, 1) == (value as nat) % 2,
            fields_kept(old(self)@, final(self)@, 10, 1),
    {
        self.set_field(10, 1, value as u64);
        proof {
            vstd::arithmetic::power2::lemma2_to64();
            vstd::arithmetic::power2::lemma2_to64_rest();
        }
    }

    /// Accumulator Memory Clock Enable
    pub fn amce(&mut self, value: u8)
        ensures
            field_written(old(self)@, final(self)@, 15, 1, value as u64),
            field_value(final(self)@, 15, 1) == (value as nat) % 2,
            fields_kept(old(self)@, final(self)@, 15, 1),
    {
        self.set_field(15, 1, value as u64);
        proof {
            vstd::arithmetic::power2::lemma2_to64();
            vstd::arithmetic::power2::lemma2_to64_rest();
        }
    }

    /// GPIO Clock Enable
    pub fn gpce(&mut self, value: u8)
        ensures
            field_written(old(self)@, final(self)@, 16, 1, value as u64),
            field_value(final(self)@, 16, 1) == (value as nat) % 2,
            fields_kept(old(self)@, final(self)@, 16, 1),
    {
        self.set_field(16, 1, value as u64);
        proof {
            vstd::arithmetic::power2::lemma2_to64();
            vstd::arithmetic::power2::lemma2_to64_rest();
        }
    }

    /// GPIO Reset (Not), active low
    pub fn gprn(&mut self, value: u8)
        ensures
            field_written(old(self)@, final(self)@, 17, 1, value as u64),
            field_value(final(self)@, 17, 1) == (value as nat) % 2,
            fields_kept(old(self)@, final(self)@, 17, 1),
    {
        self.set_field(17, 1, value as u64);
        proof {
            vstd::arithmetic::power2::lemma2_to64();
            vstd::arithmetic::power2::lemma2_to64_rest();
        }
    }

    /// GPIO De-bounce Clock Enable
    pub fn gpdce(&mut self, value: u8)
        ensures
            field_written(old(self)@, final(self)@, 18, 1, value as u64),
            field_value(final(self)@, 18, 1) == (value as nat) % 2,
            fields_kept(old(self)@, final(self)@, 18, 1),
    {
        self.set_field(18, 1, value as u64);
        proof {
            vstd::arithmetic::power2::lemma2_to64();
            vstd::arithmetic::power2::lemma2_to64_rest();
        }
    }

    /// GPIO De-bounce Reset (Not), active low
    pub fn gpdrn(&mut self, value: u8)
        ensures
            field_written(old(self)@, final(self)@, 19, 1, value as u64),
            field_value(final(self)@, 19, 1) == (value as nat) % 2,
            fields_kept(old(self)@, final(self)@, 19, 1),
    {
        self.set_field(19, 1, value as u64);
        proof {
            vstd::arithmetic::power2::lemma2_to64();
            vstd::arithmetic::power2::lemma2_to64_rest();
        }
    }

    /// Kilohertz Clock Enable
    pub fn khzclken(&mut self, value: u8)
        ensures
            field_written(old(self)@, final(self)@, 23, 1, value as u64),
            field_value(final(self)@, 23, 1) == (value as nat) % 2,
            fields_kept(old(self)@, final(self)@, 23, 1),
    {
        self.set_field(23, 1, value as u64);
        proof {
            vstd::arithmetic::power2::lemma2_to64();
            vstd::arithmetic::power2::lemma2_to64_rest();
        }
    }

    /// Soft Reset
    pub fn softreset(&mut self, value: u8)
        ensures
            field_written(old(self)@, final(self)@, 28, 4, value as u64),
            field_value(final(self)@, 28, 4) == (value as nat) % 16,
            fields_kept(old(self)@, final(self)@, 28, 4),
    {
        self.set_field(28, 4, value as u64);
        proof {
            vstd::arithmetic::power2::lemma2_to64();
            vstd::arithmetic::power2::lemma2_to64_rest();
        }
    }

    /// The raw register value
    pub fn raw_value(&mut self, value: u32)
        ensures
            field_written(old(self)@, final(self)@, 0, 32, value as u64),
            field_value(final(self)@, 0, 32) == value as nat,
            fields_kept(old(self)@, final(self)@, 0, 32),
    {
        self.set_field(0, 32, value as u64);
        proof {
            vstd::arithmetic::power2::lemma2_to64();
            vstd::arithmetic::power2::lemma2_to64_rest();
        }
    }

}

/// PMSC Control Register 1
#[allow(non_camel_case_types)]
pub struct PMSC_CTRL1;

impl Register for PMSC_CTRL1 {
    open spec fn spec_id() -> u8 {
        0x36
    }

    open spec fn spec_sub_id() -> u16 {
        0x04
    }

    open spec fn spec_len() -> usize {
        4
    }

    fn id() -> (r: u8) {
        0x36
    }

    fn sub_id() -> (r: u16) {
        0x04
    }

    fn len() -> (r: usize) {
        4
    }
}

impl Readable for PMSC_CTRL1 {}

impl Writable for PMSC_CTRL1 {}

impl R<PMSC_CTRL1> {
    /// Automatic transition from receive to init
    pub fn arx2init(&self) -> (r: u8)
        ensures
            r == field_value(self@, 1, 1),
            r < 2,
    {
        proof {
            crate::ll::bits::lemma_field_value_bound(self@, 1, 1);
            vstd::arithmetic::power2::lemma2_to64();
        }
        self.field(1, 1) as u8
    }

    /// Control PMSC control of analog RF subsystem
    pub fn pktseq(&self) -> (r: u8)
        ensures
            r == field_value(self@, 3, 8),
            r < 0x100,
    {
        proof {
            crate::ll::bits::lemma_field_value_bound(self@, 3, 8);
            vstd::arithmetic::power2::lemma2_to64();
        }
        self.field(3, 8) as u8
    }

    /// After TX automatically sleep
    pub fn atxslp(&self) -> (r: u8)
        ensures
            r == field_value(self@, 11, 1),
            r < 2,
    {
        proof {
            crate::ll::bits::lemma_field_value_bound(self@, 11, 1);
            vstd::arithmetic::power2::lemma2_to64();
        }
        self.field(11, 1) as u8
    }

    /// After RX automatically sleep
    pub fn arxslp(&self) -> (r: u8)
        ensures
            r == field_value(self@, 12, 1),
            r < 2,
    {
        proof {
            crate::ll::bits::lemma_field_value_bound(self@, 12, 1);
            vstd::arithmetic::power2::lemma2_to64();
        }
        self.field(12, 1) as u8
    }

    /// Snooze Enable
    pub fn snoze(&self) -> (r: u8)
        ensures
            r == field_value(self@, 13, 1),
            r < 2,
    {
        proof {
            crate::ll::bits::lemma_field_value_bound(self@, 13, 1);
            vstd::arithmetic::power2::lemma2_to64();
        }
        self.field(13, 1) as u8
    }

    /// Snooze Repeat
    pub fn snozr(&self) -> (r: u8)
        ensures
            r == field_value(self@, 14, 1),
            r < 2,
    {
        proof {
            crate::ll::bits::lemma_field_value_bound(self@, 14, 1);
            vstd::arithmetic::power2::lemma2_to64();
        }
        self.field(14, 1) as u8
    }

    /// Enable clock used for external sync modes
    pub fn pllsyn(&self) -> (r: u8)
        ensures
            r == field_value(self@, 15, 1),
            r < 2,
    {
        proof {
            crate::ll::bits::lemma_field_value_bound(self@, 15, 1);
            vstd::arithmetic::power2::lemma2_to64();
        }
        self.field(15, 1) as u8
    }

    /// LDE Run Enable
    pub fn lderune(&self) -> (r: u8)
        ensures
            r == field_value(self@, 17, 1),
            r < 2,
    {
        proof {
            crate::ll::bits::lemma_field_value_bound(self@, 17, 1);
            vstd::arithmetic::power2::lemma2_to64();
        }
        self.field(17, 1) as u8
    }

    /// Kilohertz Clock Divisor
    pub fn khzclkdiv(&self) -> (r: u8)
        ensures
            r == field_value(self@, 26, 6),
            r < 64,
    {
        proof {
            crate::ll::bits::lemma_field_value_bound(self@, 26, 6);
            vstd::arithmetic::power2::lemma2_to64();
        }
        self.field(26, 6) as u8
    }

}

impl W<PMSC_CTRL1> {
    /// Automatic transition from receive to init
    pub fn arx2init(&mut self, value: u8)
        ensures
            field_written(old(self)@, final(self)@, 1, 1, value as u64),
            field_value(final(self)@, 1, 1) == (value as nat) % 2,
            fields_kept(old(self)@, final(self)@, 1, 1),
    {
        self.set_field(1, 1, value as u64);
        proof {
            vstd::arithmetic::power2::lemma2_to64();
            vstd::arithmetic::power2::lemma2_to64_rest();
        }
    }

    /// Control PMSC control of analog RF subsystem
    pub fn pktseq(&mut self, value: u8)
        ensures
            field_written(old(self)@, final(self)@, 3, 8, value as u64),
            field_value(final(self)@, 3, 8) == value as nat,
            fields_kept(old(self)@, final(self)@, 3, 8),
    {
        self.set_field(3, 8, value as u64);
        proof {
            vstd::arithmetic::power2::lemma2_to64();
            vstd::arithmetic::power2::lemma2_to64_rest();
        }
    }

    /// After TX automatically sleep
    pub fn atxslp(&mut self, value: u8)
        ensures
            field_written(old(self)@, final(self)@, 11, 1, value as u64),
            field_value(final(self)@, 11, 1) == (value as nat) % 2,
            fields_kept(old(self)@, final(self)@, 11, 1),
    {
        self.set_field(11, 1, value as u64);
        proof {
            vstd::arithmetic::power2::lemma2_to64();
            vstd::arithmetic::power2::lemma2_to64_rest();
        }
    }

    /// After RX automatically sleep
    pub fn arxslp(&mut self, value: u8)
        ensures
            field_written(old(self)@, final(self)@, 12, 1, value as u64),
            field_value(final(self)@, 12, 1) == (value as nat) % 2,
            fields_kept(old(self)@, final(self)@, 12, 1),
    {
        self.set_field(12, 1, value as u64);
        proof {
            vstd::arithmetic::power2::lemma2_to64();
            vstd::arithmetic::power2::lemma2_to64_rest();
        }
    }

    /// Snooze Enable
    pub fn snoze(&mut self, value: u8)
        ensures
            field_written(old(self)@, final(self)@, 13, 1, value as u64),
            field_value(final(self)@, 13, 1) == (value as nat) % 2,
            fields_kept(old(self)@, final(self)@, 13, 1),
    {
        self.set_field(13, 1, value as u64);
        proof {
            vstd::arithmetic::power2::lemma2_to64();
            vstd::arithmetic::power2::lemma2_to64_rest();
        }
    }

    /// Snooze Repeat
    pub fn snozr(&mut self, value: u8)
        ensures
            field_written(old(self)@, final(self)@, 14, 1, value as u64),
            field_value(final(self)@, 14, 1) == (value as nat) % 2,
            fields_kept(old(self)@, final(self)@, 14, 1),
    {
        self.set_field(14, 1, value as u64);
        proof {
            vstd::arithmetic::power2::lemma2_to64();
            vstd::arithmetic::power2::lemma2_to64_rest();
        }
    }

    /// Enable clock used for external sync modes
    pub fn pllsyn(&mut self, value: u8)
        ensures
            field_written(old(self)@, final(self)@, 15, 1, value as u64),
            field_value(final(self)@, 15, 1) == (value as nat) % 2,
            fields_kept(old(self)@, final(self)@, 15, 1),
    {
        self.set_field(15, 1, value as u64);
        proof {
            vstd::arithmetic::power2::lemma2_to64();
            vstd::arithmetic::power2::lemma2_to64_rest();
        }
    }

    /// LDE Run Enable
    pub fn lderune(&mut self, value: u8)
        ensures
            field_written(old(self)@, final(self)@, 17, 1, value as u64),
            field_value(final(self)@, 17, 1) == (value as nat) % 2,
            fields_kept(old(self)@, final(self)@, 17, 1),
    {
        self.set_field(17, 1, value as u64);
        proof {
            vstd::arithmetic::power2::lemma2_to64();
            vstd::arithmetic::power2::lemma2_to64_rest();
        }
    }

    /// Kilohertz Clock Divisor
    pub fn khzclkdiv(&mut self, value: u8)
        ensures
            field_written(old(self)@, final(self)@, 26, 6, value as u64),
            field_value(final(self)@, 26, 6) == (value as nat) % 64,
            fields_kept(old(self)@, final(self)@, 26, 6),
    {
        self.set_field(26, 6, value as u64);
        proof {
            vstd::arithmetic::power2::lemma2_to64();
            vstd::arithmetic::power2::lemma2_to64_rest();
        }
    }

}

/// PMSC LED Control Register
#[allow(non_camel_case_types)]
pub struct PMSC_LEDC;

impl Register for PMSC_LEDC {
    open spec fn spec_id() -> u8 {
        0x36
    }

    open spec fn spec_sub_id() -> u16 {
        0x28
    }

    open spec fn spec_len() -> usize {
        4
    }

    fn id() -> (r: u8) {
        0x36
    }

    fn sub_id() -> (r: u16) {
        0x28
    }

    fn len() -> (r: usize) {
        4
    }
}

impl Readable for PMSC_LEDC {}

impl Writable for PMSC_LEDC {}

impl R<PMSC_LEDC> {
    /// Blink time count value
    pub fn blink_tim(&self) -> (r: u8)
        ensures
            r == field_value(self@, 0, 8),
            r < 0x100,
    {
        proof {
            crate::ll::bits::lemma_field_value_bound(self@, 0, 8);
            vstd::arithmetic::power2::lemma2_to64();
        }
        self.field(0, 8) as u8
    }

    /// Blink Enable
    pub fn blnken(&self) -> (r: u8)
        ensures
            r == field_value(self@, 8, 1),
            r < 2,
    {
        proof {
            crate::ll::bits::lemma_field_value_bound(self@, 8, 1);
            vstd::arithmetic::power2::lemma2_to64();
        }
        self.field(8, 1) as u8
    }

    /// Manually triggers an LED blink. There is one trigger bit per LED IO
    pub fn blnknow(&self) -> (r: u8)
        ensures
            r == field_value(self@, 16, 4),
            r < 16,
    {
        proof {
            crate::ll::bits::lemma_field_value_bound(self@, 16, 4);
            vstd::arithmetic::power2::lemma2_to64();
        }
        self.field(16, 4) as u8
    }

}

impl W<PMSC_LEDC> {
    /// Blink time count value
    pub fn blink_tim(&mut self, value: u8)
        ensures
            field_written(old(self)@, final(self)@, 0, 8, value as u64),
            field_value(final(self)@, 0, 8) == value as nat,
            fields_kept(old(self)@, final(self)@, 0, 8),
    {
        self.set_field(0, 8, value as u64);
        proof {
            vstd::arithmetic::power2::lemma2_to64();
            vstd::arithmetic::power2::lemma2_to64_rest();
        }
    }

    /// Blink Enable
    pub fn blnken(&mut self, value: u8)
        ensures
            field_written(old(self)@, final(self)@, 8, 1, value as u64),
            field_value(final(self)@, 8, 1) == (value as nat) % 2,
            fields_kept(old(self)@, final(self)@, 8, 1),
    {
        self.set_field(8, 1, value as u64);
        proof {
            vstd::arithmetic::power2::lemma2_to64();
            vstd::arithmetic::power2::lemma2_to64_rest();
        }
    }

    /// Manually triggers an LED blink. There is one trigger bit per LED IO
    pub fn blnknow(&mut self, value: u8)
        ensures
            field_written(old(self)@, final(self)@, 16, 4, value as u64),
            field_value(final(self)@, 16, 4) == (value as nat) % 16,
            fields_kept(old(self)@, final(self)@, 16, 4),
    {
        self.set_field(16, 4, value as u64);
        proof {
            vstd::arithmetic::power2::lemma2_to64();
            vstd::arithmetic::power2::lemma2_to64_rest();
        }
    }

}

/// Transmit Data Buffer
///
/// Currently only the first 127 bytes of the buffer are supported, which is
/// enough to support standard Standard IEEE 802.15.4 UWB frames.
#[allow(non_camel_case_types)]
pub struct TX_BUFFER;

impl Register for TX_BUFFER {
    open spec fn spec_id() -> u8 {
        0x09
    }

    open spec fn spec_sub_id() -> u16 {
        0x00
    }

    open spec fn spec_len() -> usize {
        127
    }

    fn id() -> (r: u8) {
        0x09
    }

    fn sub_id() -> (r: u16) {
        0x00
    }

    fn len() -> (r: usize) {
        127
    }
}

impl Writable for TX_BUFFER {}

/// Receive Data Buffer
///
/// Currently only the first 127 bytes of the buffer are supported, which is
/// enough to support standard Standard IEEE 802.15.4 UWB frames.
#[allow(non_camel_case_types)]
pub struct RX_BUFFER;

impl Register for RX_BUFFER {
    open spec fn spec_id() -> u8 {
        0x11
    }

    open spec fn spec_sub_id() -> u16 {
        0x00
    }

    open spec fn spec_len() -> usize {
        127
    }

    fn id() -> (r: u8) {
        0x11
    }

    fn sub_id() -> (r: u16) {
        0x00
    }

    fn len() -> (r: usize) {
        127
    }
}

impl Readable for RX_BUFFER {}

} // verus!
