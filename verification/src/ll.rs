//! Low-level interface to the DW1000
//!
//! This module implements a register-level interface to the DW1000. Users of
//! this library should typically not need to use this. Please consider using
//! the [high-level interface](crate::hl) instead.
//!
//! Registers are identified by the marker types in [`registers`]. Reading a
//! register gives an [`R`] value, whose field accessors decode the register's
//! fields; writing a register takes a [`W`] value, whose field setters encode
//! them. Field setters silently truncate values that are too large for the
//! field.
//!
//! The driver talks to the DW1000 through the [`Spi`] and [`ChipSelect`]
//! traits, which the user implements for the SPI peripheral and chip select
//! pin of the platform at hand.

pub mod bits;
pub mod registers;

use core::marker::PhantomData;
use vstd::prelude::*;
use crate::ll::bits::{field_value, field_written, get_field, set_field};

verus! {

/// The size of the buffer that holds one SPI transaction.
pub const SPI_BUFFER_LEN: usize = 128;

/// Full-duplex SPI bus that the DW1000 is connected to
///
/// Both methods operate on the first `len` bytes of `words`.
pub trait Spi {
    /// Error reported by `transfer`
    type TransferError;

    /// Error reported by `write`
    type WriteError;

    /// Sends the first `len` bytes of `words`, replacing them with the bytes
    /// received at the same time.
    fn transfer(&mut self, words: &mut [u8; 128], len: usize) -> Result<(), Self::TransferError>
        requires
            len <= 128,
    ;

    /// Sends the first `len` bytes of `words`, ignoring what is received.
    fn write(&mut self, words: &[u8; 128], len: usize) -> Result<(), Self::WriteError>
        requires
            len <= 128,
    ;
}

/// The chip select pin of the DW1000 (active low)
pub trait ChipSelect {
    /// Error reported when the pin cannot be driven
    type Error;

    /// Drives the pin low, selecting the DW1000.
    fn set_low(&mut self) -> Result<(), Self::Error>;

    /// Drives the pin high, deselecting the DW1000.
    fn set_high(&mut self) -> Result<(), Self::Error>;
}

/// An SPI error that can occur when communicating with the DW1000
pub enum Error<SPI: Spi, CS: ChipSelect> {
    /// SPI error occured during a transfer transaction
    Transfer(SPI::TransferError),
    /// SPI error occured during a write transaction
    Write(SPI::WriteError),
    /// Error occured while changing chip select signal
    ChipSelect(CS::Error),
}

/// Implemented for all registers
///
/// The DW1000 user manual, section 7.1, specifies what the values of the
/// constants should be for each register.
pub trait Register {
    /// The register index
    spec fn spec_id() -> u8;

    /// The registers's sub-index
    spec fn spec_sub_id() -> u16;

    /// The length of the register, in bytes
    spec fn spec_len() -> usize;

    /// The register index
    fn id() -> (r: u8)
        ensures
            r == Self::spec_id(),
    ;

    /// The registers's sub-index
    fn sub_id() -> (r: u16)
        ensures
            r == Self::spec_sub_id(),
    ;

    /// The length of the register, in bytes
    fn len() -> (r: usize)
        ensures
            r == Self::spec_len(),
    ;
}

/// Marker trait for registers that can be read from
pub trait Readable: Register {}

/// Marker trait for registers that can be written to
pub trait Writable: Register {}

/// The length of the header that addresses a register with this sub-index.
pub open spec fn header_len(sub_id: u16) -> nat {
    if sub_id == 0 {
        1
    } else if sub_id <= 127 {
        2
    } else {
        3
    }
}

/// The SPI header that addresses register `id`, sub-index `sub_id`, for a
/// read or a write (user manual, section 2.2.1.2).
pub open spec fn header_bytes(write: bool, id: u8, sub_id: u16) -> Seq<u8> {
    let b0 = (((if write { 1u8 } else { 0u8 }) << 7u8) & 0x80u8) | (((if sub_id > 0 { 1u8 } else { 0u8 }) << 6u8)
        & 0x40u8) | (id & 0x3fu8);
    let b1 = (((if sub_id > 127 { 1u8 } else { 0u8 }) << 7u8) & 0x80u8) | ((sub_id as u8) & 0x7fu8);
    let b2 = ((sub_id & 0x7f80u16) >> 7u16) as u8;
    if sub_id == 0 {
        seq![b0]
    } else if sub_id <= 127 {
        seq![b0, b1]
    } else {
        seq![b0, b1, b2]
    }
}

/// Every field of `new` that does not overlap the `width` bits starting at
/// bit `first` holds the same value as in `old`.
pub open spec fn fields_kept(old: Seq<u8>, new: Seq<u8>, first: int, width: nat) -> bool {
    forall|f: int, wd: nat|
        #![trigger field_value(new, f, wd)]
        0 <= f && f + wd <= 8 * new.len() && (f + wd <= first || first + width <= f) ==> field_value(new, f, wd)
            == field_value(old, f, wd)
}

/// The register's header and contents fit into one SPI transaction.
pub open spec fn register_fits<Reg: Register>() -> bool {
    &&& 1 <= Reg::spec_len()
    &&& header_len(Reg::spec_sub_id()) + Reg::spec_len() <= SPI_BUFFER_LEN
    &&& Reg::spec_sub_id() < 0x8000
}

/// A write of `data` to register `id`, sub-index `sub_id`: one SPI write
/// transaction of `header_bytes(true, id, sub_id)` followed by `data`
pub struct RegWrite {
    /// The register index
    pub id: u8,
    /// The register's sub-index
    pub sub_id: u16,
    /// The bytes written to the register, without the header
    pub data: Seq<u8>,
}

/// The record of a write of `data` to register `Reg`.
pub open spec fn reg_write<Reg: Register>(data: Seq<u8>) -> RegWrite {
    RegWrite { id: Reg::spec_id(), sub_id: Reg::spec_sub_id(), data }
}

/// A read that gave `data` as the contents of register `id`, sub-index
/// `sub_id`
pub struct RegRead {
    /// The register index
    pub id: u8,
    /// The register's sub-index
    pub sub_id: u16,
    /// The bytes read from the register, without the header
    pub data: Seq<u8>,
}

/// The record of a read of register `Reg` that gave `data`.
pub open spec fn reg_read<Reg: Register>(data: Seq<u8>) -> RegRead {
    RegRead { id: Reg::spec_id(), sub_id: Reg::spec_sub_id(), data }
}

/// One call into the SPI bus or the chip select pin
pub enum BusOp {
    /// `ChipSelect::set_low`
    Select,
    /// `ChipSelect::set_high`
    Deselect,
    /// `Spi::write`, sending these bytes
    Write(Seq<u8>),
    /// `Spi::transfer`, sending these bytes
    Transfer(Seq<u8>),
}

/// A call into the bus and what it gave back
pub struct BusEvent {
    /// The call that was made
    pub op: BusOp,
    /// The bytes that `Spi::transfer` received in place of those it sent;
    /// empty for the other calls
    pub received: Seq<u8>,
    /// The call returned `Ok`
    pub ok: bool,
}

/// Every call in `events` returned `Ok`.
pub open spec fn all_ok(events: Seq<BusEvent>) -> bool {
    forall|i: int| 0 <= i < events.len() ==> (#[trigger] events[i]).ok
}

/// `events` are the calls of `plan`, made in order until one of them failed.
pub open spec fn ran(events: Seq<BusEvent>, plan: Seq<BusOp>) -> bool {
    &&& events.len() <= plan.len()
    &&& forall|i: int| 0 <= i < events.len() ==> (#[trigger] events[i]).op == plan[i]
    &&& forall|i: int| 0 <= i < events.len() - 1 ==> (#[trigger] events[i]).ok
    &&& events.len() < plan.len() ==> events.len() > 0 && !events.last().ok
}

/// `new` is `old` followed by the calls of `plan`, made in order until one of
/// them failed.
pub open spec fn ran_after(old: Seq<BusEvent>, new: Seq<BusEvent>, plan: Seq<BusOp>) -> bool {
    &&& old.len() <= new.len()
    &&& new.take(old.len() as int) == old
    &&& ran(new.skip(old.len() as int), plan)
}

/// The calls that `new` holds beyond `old`.
pub open spec fn calls_after(old: Seq<BusEvent>, new: Seq<BusEvent>) -> Seq<BusEvent> {
    new.skip(old.len() as int)
}

/// `n` calls of `ChipSelect::set_low`
pub open spec fn selects(n: nat) -> Seq<BusOp> {
    Seq::new(n, |i: int| BusOp::Select)
}

/// One SPI transaction: the chip select pin driven low `delay + 1` times, the
/// call `op`, the pin driven low `delay + 1` times again, then high.
pub open spec fn transaction(delay: u8, op: BusOp) -> Seq<BusOp> {
    selects(delay as nat + 1) + seq![op] + selects(delay as nat + 1) + seq![BusOp::Deselect]
}

/// `n` zero bytes
pub open spec fn zeros(n: nat) -> Seq<u8> {
    Seq::new(n, |i: int| 0u8)
}

/// `e` is the error that a failing call `op` gives.
pub open spec fn error_of<SPI: Spi, CS: ChipSelect>(e: Error<SPI, CS>, op: BusOp) -> bool {
    match op {
        BusOp::Select => e is ChipSelect,
        BusOp::Deselect => e is ChipSelect,
        BusOp::Write(_) => e is Write,
        BusOp::Transfer(_) => e is Transfer,
    }
}

/// Running `p1` to the end and then `p2` runs `p1 + p2`; a run of `p1` that
/// stopped at a failure is a run of `p1 + p2` too.
pub proof fn lemma_ran_then(
    a: Seq<BusEvent>,
    b: Seq<BusEvent>,
    c: Seq<BusEvent>,
    p1: Seq<BusOp>,
    p2: Seq<BusOp>,
)
    requires
        ran_after(a, b, p1),
        all_ok(calls_after(a, b)),
        ran_after(b, c, p2),
    ensures
        ran_after(a, c, p1 + p2),
        all_ok(calls_after(a, c)) == all_ok(calls_after(b, c)),
        calls_after(a, b).len() == p1.len(),
{
    let e1 = calls_after(a, b);
    let e2 = calls_after(b, c);
    let e = calls_after(a, c);
    if e1.len() < p1.len() {
        assert(!e1.last().ok);
        assert(e1[e1.len() - 1].ok);
    }
    assert(c.take(b.len() as int).take(a.len() as int) =~= c.take(a.len() as int));
    assert(c.take(a.len() as int) =~= a);
    assert(e =~= e1 + e2) by {
        assert(b =~= c.take(b.len() as int));
    }
    assert forall|i: int| 0 <= i < e.len() implies (#[trigger] e[i]).op == (p1 + p2)[i] by {
        if i < e1.len() {
            assert(e[i] == e1[i]);
        } else {
            assert(e[i] == e2[i - e1.len()]);
        }
    }
    assert forall|i: int| 0 <= i < e.len() - 1 implies (#[trigger] e[i]).ok by {
        if i < e1.len() {
            assert(e[i] == e1[i]);
        } else {
            assert(e[i] == e2[i - e1.len()]);
        }
    }
    if e2.len() > 0 {
        assert(e.last() == e2.last());
    }
    if all_ok(e2) {
        assert forall|i: int| 0 <= i < e.len() implies (#[trigger] e[i]).ok by {
            if i < e1.len() {
                assert(e[i] == e1[i]);
            } else {
                assert(e[i] == e2[i - e1.len()]);
            }
        }
    } else {
        let j = choose|j: int| 0 <= j < e2.len() && !(#[trigger] e2[j]).ok;
        assert(e[j + e1.len()] == e2[j]);
    }
}

/// A run that stopped at a failure is a run of any plan that starts with
/// the calls of its own.
pub proof fn lemma_ran_stopped(a: Seq<BusEvent>, b: Seq<BusEvent>, p: Seq<BusOp>, q: Seq<BusOp>)
    requires
        ran_after(a, b, p),
        !all_ok(calls_after(a, b)),
        p.len() <= q.len(),
        q.take(p.len() as int) == p,
    ensures
        ran_after(a, b, q),
        calls_after(a, b).len() > 0,
{
    let e = calls_after(a, b);
    if e.len() == p.len() && e.len() > 0 {
        let j = choose|j: int| 0 <= j < e.len() && !(#[trigger] e[j]).ok;
        assert(j == e.len() - 1);
    }
    assert forall|i: int| 0 <= i < e.len() implies (#[trigger] e[i]).op == q[i] by {
        assert(q.take(p.len() as int)[i] == q[i]);
    }
}

/// One call is a run of the plan that holds just that call.
pub proof fn lemma_ran_one(a: Seq<BusEvent>, ev: BusEvent)
    ensures
        ran_after(a, a.push(ev), seq![ev.op]),
        calls_after(a, a.push(ev)) == seq![ev],
        all_ok(calls_after(a, a.push(ev))) == ev.ok,
{
    assert(a.push(ev).take(a.len() as int) =~= a);
    assert(calls_after(a, a.push(ev)) =~= seq![ev]);
    if !ev.ok {
        assert(!calls_after(a, a.push(ev))[0].ok);
    }
}

/// Over three records, each extending the one before, every call after the
/// first succeeded exactly when every call of both stretches did.
pub proof fn lemma_all_ok_split(a: Seq<BusEvent>, b: Seq<BusEvent>, c: Seq<BusEvent>)
    requires
        a.len() <= b.len() <= c.len(),
        b.take(a.len() as int) == a,
        c.take(b.len() as int) == b,
    ensures
        all_ok(calls_after(a, c)) == (all_ok(calls_after(a, b)) && all_ok(calls_after(b, c))),
        c.take(a.len() as int) == a,
{
    assert(c.take(a.len() as int) =~= a) by {
        assert(c.take(a.len() as int) =~= b.take(a.len() as int));
    }
    let e = calls_after(a, c);
    let e1 = calls_after(a, b);
    let e2 = calls_after(b, c);
    assert(e =~= e1 + e2) by {
        assert(b =~= c.take(b.len() as int));
    }
    if all_ok(e) {
        assert forall|i: int| 0 <= i < e1.len() implies (#[trigger] e1[i]).ok by {
            assert(e[i] == e1[i]);
        }
        assert forall|i: int| 0 <= i < e2.len() implies (#[trigger] e2[i]).ok by {
            assert(e[i + e1.len()] == e2[i]);
        }
    }
    if all_ok(e1) && all_ok(e2) {
        assert forall|i: int| 0 <= i < e.len() implies (#[trigger] e[i]).ok by {
            if i < e1.len() {
                assert(e[i] == e1[i]);
            } else {
                assert(e[i] == e2[i - e1.len()]);
            }
        }
    }
}

/// The bytes that the transfers among `events` received, in order
pub open spec fn received_bytes(events: Seq<BusEvent>) -> Seq<u8>
    decreases events.len(),
{
    if events.len() == 0 {
        Seq::empty()
    } else {
        received_bytes(events.drop_last()) + events.last().received
    }
}

/// Contents read from register `Reg`
pub struct R<Reg: Register> {
    data: Vec<u8>,
    _reg: PhantomData<Reg>,
}

/// Contents to be written to register `Reg`
pub struct W<Reg: Register> {
    data: Vec<u8>,
    _reg: PhantomData<Reg>,
}

impl<Reg: Register> View for R<Reg> {
    type V = Seq<u8>;

    closed spec fn view(&self) -> Seq<u8> {
        self.data@
    }
}

impl<Reg: Register> View for W<Reg> {
    type V = Seq<u8>;

    closed spec fn view(&self) -> Seq<u8> {
        self.data@
    }
}

impl<Reg: Register> R<Reg> {
    /// The contents always have the register's length.
    #[verifier::type_invariant]
    closed spec fn has_register_len(self) -> bool {
        &&& self.data@.len() == Reg::spec_len()
        &&& Reg::spec_len() <= 0x1000
    }

    /// Provides read access to the register contents
    pub fn data(&self) -> (r: &[u8])
        ensures
            r@ == self@,
            r@.len() == Reg::spec_len(),
    {
        proof {
            use_type_invariant(self);
        }
        self.data.as_slice()
    }

    /// Reads the field of `width` bits that starts at bit `first`.
    pub fn field(&self, first: usize, width: usize) -> (r: u64)
        requires
            1 <= width <= 64,
            first + width <= 8 * Reg::spec_len(),
        ensures
            r == field_value(self@, first as int, width as nat),
            width <= 8 ==> r < 0x100,
            width <= 16 ==> r < 0x1_0000,
            width <= 32 ==> r < 0x1_0000_0000,
            width <= 40 ==> r < 0x100_0000_0000,
    {
        proof {
            use_type_invariant(self);
        }
        get_field(&self.data, first, width)
    }
}

impl<Reg: Register> W<Reg> {
    /// The contents always have the register's length.
    #[verifier::type_invariant]
    closed spec fn has_register_len(self) -> bool {
        &&& self.data@.len() == Reg::spec_len()
        &&& Reg::spec_len() <= 0x1000
    }

    /// Contents with every bit cleared
    pub fn zeroed() -> (w: Self)
        requires
            Reg::spec_len() <= 0x1000,
        ensures
            w@ == Seq::new(Reg::spec_len() as nat, |i: int| 0u8),
            forall|f: int, wd: nat|
                #![trigger field_value(w@, f, wd)]
                0 <= f && f + wd <= 8 * Reg::spec_len() ==> field_value(w@, f, wd) == 0,
    {
        let mut data: Vec<u8> = Vec::new();
        let mut i: usize = 0;
        while i < Reg::len()
            invariant
                i <= Reg::spec_len(),
                data@ == Seq::new(i as nat, |k: int| 0u8),
            decreases Reg::spec_len() - i,
        {
            data.push(0);
            i = i + 1;
        }
        proof {
            assert forall|f: int, wd: nat|
                #![trigger field_value(data@, f, wd)]
                0 <= f && f + wd <= 8 * Reg::spec_len() implies field_value(data@, f, wd) == 0 by {
                crate::ll::bits::lemma_field_value_zero(data@, f, wd);
            }
        }
        W { data, _reg: PhantomData }
    }

    /// Contents equal to what was read from the register, to be modified and
    /// written back
    pub fn from_read(r: &R<Reg>) -> (w: Self)
        ensures
            w@ == r@,
    {
        proof {
            use_type_invariant(r);
        }
        W { data: r.data.clone(), _reg: PhantomData }
    }

    /// Provides read access to the contents
    pub fn data(&self) -> (r: &[u8])
        ensures
            r@ == self@,
            r@.len() == Reg::spec_len(),
    {
        proof {
            use_type_invariant(self);
        }
        self.data.as_slice()
    }

    /// Overwrites the contents starting at byte `offset` with `bytes`.
    pub fn copy_from(&mut self, offset: usize, bytes: &[u8])
        requires
            offset + bytes@.len() <= Reg::spec_len(),
        ensures
            final(self)@ == old(self)@.take(offset as int) + bytes@ + old(self)@.skip(
                offset + bytes@.len(),
            ),
    {
        proof {
            use_type_invariant(&*self);
        }
        let ghost before = self.data@;
        let mut data = self.data.clone();
        let mut i: usize = 0;
        while i < bytes.len()
            invariant
                offset + bytes@.len() <= Reg::spec_len(),
                data@.len() == Reg::spec_len(),
                Reg::spec_len() <= 0x1000,
                before.len() == Reg::spec_len(),
                i <= bytes@.len(),
                data@ == before.take(offset as int) + bytes@.take(i as int) + before.skip(
                    offset + i,
                ),
            decreases bytes@.len() - i,
        {
            data.set(offset + i, bytes[i]);
            proof {
                assert(data@ =~= before.take(offset as int) + bytes@.take(i + 1) + before.skip(
                    offset + i + 1,
                ));
            }
            i = i + 1;
        }
        proof {
            assert(bytes@.take(bytes@.len() as int) =~= bytes@);
        }
        *self = W { data, _reg: PhantomData };
    }

    /// Writes the low `width` bits of `value` into the field of `width` bits
    /// that starts at bit `first`.
    pub fn set_field(&mut self, first: usize, width: usize, value: u64)
        requires
            1 <= width <= 64,
            first + width <= 8 * Reg::spec_len(),
        ensures
            field_written(old(self)@, final(self)@, first as int, width as nat, value),
            field_value(final(self)@, first as int, width as nat) == (value as nat)
                % vstd::arithmetic::power2::pow2(width as nat),
            fields_kept(old(self)@, final(self)@, first as int, width as nat),
    {
        proof {
            use_type_invariant(&*self);
        }
        let mut data = self.data.clone();
        set_field(&mut data, first, width, value);
        proof {
            assert forall|f: int, wd: nat|
                #![trigger field_value(data@, f, wd)]
                0 <= f && f + wd <= 8 * data@.len() && (f + wd <= first || first + width <= f) implies field_value(data@, f, wd)
                == field_value(self.data@, f, wd) by {
                if wd >= 1 && wd <= 64 {
                    crate::ll::bits::lemma_field_write_keeps_others(
                        self.data@,
                        data@,
                        first as int,
                        width as nat,
                        value,
                        f,
                        wd,
                    );
                } else {
                    assert forall|k: int| f <= k < f + wd implies #[trigger] crate::ll::bits::bit_of(data@, k)
                        == crate::ll::bits::bit_of(self.data@, k) by {
                        assert(0 <= k < 8 * self.data@.len());
                    }
                    crate::ll::bits::lemma_field_value_ext(data@, self.data@, f, wd);
                }
            }
        }
        *self = W { data, _reg: PhantomData };
    }
}

/// Writes the header that addresses register `id`, sub-index `sub_id` into
/// the start of `buffer` and returns its length.
fn init_header(write: bool, id: u8, sub_id: u16, buffer: &mut [u8; 128]) -> (n: usize)
    requires
        sub_id < 0x8000,
    ensures
        n == header_len(sub_id),
        final(buffer)@.take(n as int) == header_bytes(write, id, sub_id),
        final(buffer)@.skip(n as int) == old(buffer)@.skip(n as int),
{
    let sub = sub_id > 0;
    buffer[0] = (((write as u8) << 7u8) & 0x80u8) | (((sub as u8) << 6u8) & 0x40u8) | (id & 0x3fu8);
    if !sub {
        proof {
            assert(final(buffer)@.take(1) =~= header_bytes(write, id, sub_id));
        }
        return 1;
    }
    let ext_addr = sub_id > 127;
    buffer[1] = (((ext_addr as u8) << 7u8) & 0x80u8) | ((sub_id as u8) & 0x7fu8);
    if !ext_addr {
        proof {
            assert(final(buffer)@.take(2) =~= header_bytes(write, id, sub_id));
        }
        return 2;
    }
    buffer[2] = ((sub_id & 0x7f80u16) >> 7u16) as u8;
    proof {
        assert(final(buffer)@.take(3) =~= header_bytes(write, id, sub_id));
    }
    3
}

/// Entry point to the DW1000 driver's low-level API
///
/// Please consider using [hl::DW1000](crate::hl::DW1000) instead.
pub struct DW1000<SPI, CS> {
    spi: SPI,
    chip_select: CS,
    chip_select_delay: u8,
    written: Ghost<Seq<RegWrite>>,
    read_log: Ghost<Seq<RegRead>>,
    calls: Ghost<Seq<BusEvent>>,
}

impl<SPI, CS> DW1000<SPI, CS> {
    /// Every register write made through this instance, oldest first
    pub closed spec fn writes(&self) -> Seq<RegWrite> {
        self.written@
    }

    /// Every register read made through this instance that succeeded, oldest
    /// first
    pub closed spec fn reads(&self) -> Seq<RegRead> {
        self.read_log@
    }

    /// Every call into the SPI bus and the chip select pin made through this
    /// instance, oldest first
    pub closed spec fn bus(&self) -> Seq<BusEvent> {
        self.calls@
    }

    /// The number of extra times the chip select pin is driven low before a
    /// transaction
    pub closed spec fn cs_delay(&self) -> u8 {
        self.chip_select_delay
    }

    /// Create a new instance of `DW1000`
    ///
    /// Requires the SPI peripheral and the chip select pin that are connected
    /// to the DW1000.
    pub fn new(spi: SPI, chip_select: CS) -> (r: Self)
        ensures
            r.writes() == Seq::<RegWrite>::empty(),
            r.reads() == Seq::<RegRead>::empty(),
            r.bus() == Seq::<BusEvent>::empty(),
            r.cs_delay() == 0,
    {
        DW1000 {
            spi,
            chip_select,
            chip_select_delay: 0,
            written: Ghost(Seq::empty()),
            read_log: Ghost(Seq::empty()),
            calls: Ghost(Seq::empty()),
        }
    }

    /// Set the chip select delay.
    ///
    /// This is the amount of times the cs pin will be set low before any data
    /// is transfered. This way, the chip can be used on fast mcu's just fine.
    pub fn set_chip_select_delay(&mut self, delay: u8)
        ensures
            final(self).cs_delay() == delay,
            final(self).writes() == old(self).writes(),
            final(self).reads() == old(self).reads(),
            final(self).bus() == old(self).bus(),
    {
        self.chip_select_delay = delay;
    }

    /// Gives back the SPI peripheral and the chip select pin.
    pub fn free(self) -> (SPI, CS) {
        (self.spi, self.chip_select)
    }
}

/// A call of `op` that received nothing
pub open spec fn call(op: BusOp, ok: bool) -> BusEvent {
    BusEvent { op, received: Seq::empty(), ok }
}

/// The three bytes of the header that starts a block read of register file
/// `id` at sub-index `sub_id`: a read with the sub-index flag set, and the
/// sub-index in its extended two-byte form
pub open spec fn block_header(id: u8, sub_id: u16) -> Seq<u8> {
    let low = sub_id as u8;
    seq![0x40u8 | (id & 0x3fu8), 0x80u8 | (low & 0x7fu8), ((sub_id & 0x7f80u16) >> 7u16) as u8]
}

/// The number of transfers that reading `len` bytes takes, at most
/// `SPI_BUFFER_LEN` bytes each
pub open spec fn chunk_count(len: nat) -> nat {
    ((len + 127) / 128) as nat
}

/// The length of transfer `i` when reading `len` bytes
pub open spec fn chunk_len(len: nat, i: int) -> nat {
    if len - 128 * i > 128 {
        128
    } else {
        (len - 128 * i) as nat
    }
}

/// The transfers that read `len` bytes, at most `SPI_BUFFER_LEN` bytes each
pub open spec fn chunk_reads(len: nat) -> Seq<BusOp> {
    Seq::new(chunk_count(len), |i: int| BusOp::Transfer(zeros(chunk_len(len, i))))
}

/// The calls that a block read of `len` bytes from register file `id`,
/// starting at sub-index `sub_id`, makes.
pub open spec fn block_read_plan(delay: u8, id: u8, sub_id: u16, len: nat) -> Seq<BusOp> {
    selects(delay as nat + 1) + seq![BusOp::Write(block_header(id, sub_id))] + chunk_reads(len) + selects(
        delay as nat + 1,
    ) + seq![BusOp::Deselect]
}

impl<SPI: Spi, CS: ChipSelect> DW1000<SPI, CS> {
    /// Calls `ChipSelect::set_low` once.
    fn cs_set_low(&mut self) -> (r: Result<(), Error<SPI, CS>>)
        ensures
            final(self).writes() == old(self).writes(),
            final(self).reads() == old(self).reads(),
            final(self).cs_delay() == old(self).cs_delay(),
            final(self).bus() == old(self).bus().push(call(BusOp::Select, r is Ok)),
            r matches Err(e) ==> e is ChipSelect,
    {
        let res = self.chip_select.set_low();
        proof {
            self.calls@ = self.calls@.push(call(BusOp::Select, res is Ok));
        }
        match res {
            Ok(()) => Ok(()),
            Err(e) => Err(Error::ChipSelect(e)),
        }
    }

    /// Calls `Spi::write` once, with the first `len` bytes of `words`.
    fn spi_write(&mut self, words: &[u8; 128], len: usize) -> (r: Result<(), Error<SPI, CS>>)
        requires
            len <= 128,
        ensures
            final(self).writes() == old(self).writes(),
            final(self).reads() == old(self).reads(),
            final(self).cs_delay() == old(self).cs_delay(),
            final(self).bus() == old(self).bus().push(call(BusOp::Write(words@.take(len as int)), r is Ok)),
            r matches Err(e) ==> e is Write,
    {
        let res = self.spi.write(words, len);
        proof {
            self.calls@ = self.calls@.push(call(BusOp::Write(words@.take(len as int)), res is Ok));
        }
        match res {
            Ok(()) => Ok(()),
            Err(e) => Err(Error::Write(e)),
        }
    }

    /// Calls `Spi::transfer` once, with the first `len` bytes of `words`.
    fn spi_transfer(&mut self, words: &mut [u8; 128], len: usize) -> (r: Result<(), Error<SPI, CS>>)
        requires
            len <= 128,
        ensures
            final(self).writes() == old(self).writes(),
            final(self).reads() == old(self).reads(),
            final(self).cs_delay() == old(self).cs_delay(),
            final(self).bus() == old(self).bus().push(
                BusEvent {
                    op: BusOp::Transfer(old(words)@.take(len as int)),
                    received: final(words)@.take(len as int),
                    ok: r is Ok,
                },
            ),
            r matches Err(e) ==> e is Transfer,
    {
        let ghost sent = words@.take(len as int);
        let res = self.spi.transfer(words, len);
        proof {
            self.calls@ = self.calls@.push(
                BusEvent { op: BusOp::Transfer(sent), received: words@.take(len as int), ok: res is Ok },
            );
        }
        match res {
            Ok(()) => Ok(()),
            Err(e) => Err(Error::Transfer(e)),
        }
    }

    /// Drives the chip select pin low `n` times, stopping at the first
    /// failure.
    fn select_times(&mut self, n: u16) -> (r: Result<(), Error<SPI, CS>>)
        ensures
            final(self).writes() == old(self).writes(),
            final(self).reads() == old(self).reads(),
            final(self).cs_delay() == old(self).cs_delay(),
            ran_after(old(self).bus(), final(self).bus(), selects(n as nat)),
            r is Ok <==> all_ok(calls_after(old(self).bus(), final(self).bus())),
            r matches Err(e) ==> e is ChipSelect && final(self).bus().last().op == BusOp::Select,
    {
        let ghost b0 = self.calls@;
        let mut i: u16 = 0;
        while i < n
            invariant
                i <= n,
                self.written == old(self).written,
                self.read_log == old(self).read_log,
                self.chip_select_delay == old(self).chip_select_delay,
                b0 == old(self).calls@,
                self.calls@ == b0 + Seq::new(i as nat, |k: int| call(BusOp::Select, true)),
            decreases n - i,
        {
            let ghost before = self.calls@;
            match self.cs_set_low() {
                Ok(()) => {},
                Err(e) => {
                    proof {
                        let ev = calls_after(b0, self.calls@);
                        assert(self.calls@.take(b0.len() as int) =~= b0);
                        assert(ev =~= Seq::new(i as nat, |k: int| call(BusOp::Select, true)).push(
                            call(BusOp::Select, false),
                        ));
                        assert(!ev[ev.len() - 1].ok);
                    }
                    return Err(e);
                },
            }
            proof {
                assert(self.calls@ =~= b0 + Seq::new((i + 1) as nat, |k: int| call(BusOp::Select, true)));
            }
            i = i + 1;
        }
        proof {
            let ev = calls_after(b0, self.calls@);
            assert(self.calls@.take(b0.len() as int) =~= b0);
            assert(ev =~= Seq::new(n as nat, |k: int| call(BusOp::Select, true)));
        }
        Ok(())
    }

    /// Drives the chip select pin low, `chip_select_delay + 1` times.
    pub(crate) fn assert_cs_low(&mut self) -> (r: Result<(), Error<SPI, CS>>)
        ensures
            final(self).writes() == old(self).writes(),
            final(self).reads() == old(self).reads(),
            final(self).cs_delay() == old(self).cs_delay(),
            ran_after(old(self).bus(), final(self).bus(), selects(old(self).cs_delay() as nat + 1)),
            r is Ok <==> all_ok(calls_after(old(self).bus(), final(self).bus())),
            r matches Err(e) ==> e is ChipSelect && final(self).bus().last().op == BusOp::Select,
    {
        let n: u16 = self.chip_select_delay as u16 + 1;
        self.select_times(n)
    }

    /// Drives the chip select pin high.
    pub(crate) fn assert_cs_high(&mut self) -> (r: Result<(), Error<SPI, CS>>)
        ensures
            final(self).writes() == old(self).writes(),
            final(self).reads() == old(self).reads(),
            final(self).cs_delay() == old(self).cs_delay(),
            final(self).bus() == old(self).bus().push(call(BusOp::Deselect, r is Ok)),
            r matches Err(e) ==> e is ChipSelect,
    {
        let res = self.chip_select.set_high();
        proof {
            self.calls@ = self.calls@.push(call(BusOp::Deselect, res is Ok));
        }
        match res {
            Ok(()) => Ok(()),
            Err(e) => Err(Error::ChipSelect(e)),
        }
    }

    /// Read from the register
    ///
    /// Makes one SPI transaction that sends the header addressing the
    /// register, followed by as many zero bytes as the register is long, and
    /// gives back what was received in place of those zero bytes.
    pub fn read<Reg: Readable>(&mut self) -> (r: Result<R<Reg>, Error<SPI, CS>>)
        requires
            register_fits::<Reg>(),
        ensures
            final(self).writes() == old(self).writes(),
            final(self).cs_delay() == old(self).cs_delay(),
            ran_after(
                old(self).bus(),
                final(self).bus(),
                transaction(
                    old(self).cs_delay(),
                    BusOp::Transfer(
                        header_bytes(false, Reg::spec_id(), Reg::spec_sub_id()) + zeros(Reg::spec_len() as nat),
                    ),
                ),
            ),
            r is Ok <==> all_ok(calls_after(old(self).bus(), final(self).bus())),
            r matches Ok(v) ==> {
                &&& v@ == final(self).bus()[old(self).bus().len() + old(self).cs_delay() + 1].received.skip(
                    header_len(Reg::spec_sub_id()) as int,
                )
                &&& final(self).reads() == old(self).reads().push(reg_read::<Reg>(v@))
                &&& v@.len() == Reg::spec_len()
            },
            r is Err ==> final(self).reads() == old(self).reads(),
            r matches Err(e) ==> error_of(e, final(self).bus().last().op),
    {
        let ghost b0 = self.calls@;
        let ghost d = self.chip_select_delay;
        let ghost hdr = header_bytes(false, Reg::spec_id(), Reg::spec_sub_id());
        let ghost op = BusOp::Transfer(hdr + zeros(Reg::spec_len() as nat));
        let ghost plan = transaction(d, op);
        let ghost p1 = selects(d as nat + 1);
        let ghost p2 = p1 + seq![op];
        let ghost p3 = p2 + p1;
        let mut buffer = [0u8; 128];
        let ghost empty = buffer@;
        proof {
            assert(empty =~= zeros(128));
        }
        let n = init_header(false, Reg::id(), Reg::sub_id(), &mut buffer);
        let len = n + Reg::len();
        proof {
            assert(buffer@.take(len as int) =~= hdr + zeros(Reg::spec_len() as nat)) by {
                assert(buffer@.take(len as int) =~= buffer@.take(n as int) + buffer@.skip(n as int).take(
                    Reg::spec_len() as int,
                ));
                assert(buffer@.skip(n as int) == empty.skip(n as int));
            }
        }
        match self.assert_cs_low() {
            Ok(()) => {},
            Err(e) => {
                proof {
                    assert(plan.take(p1.len() as int) =~= p1);
                    lemma_ran_stopped(b0, self.calls@, p1, plan);
                }
                return Err(e);
            },
        }
        let ghost b1 = self.calls@;
        let res = self.spi_transfer(&mut buffer, len);
        proof {
            lemma_ran_one(b1, self.calls@.last());
            assert(self.calls@ == b1.push(self.calls@.last()));
            lemma_ran_then(b0, b1, self.calls@, p1, seq![op]);
        }
        match res {
            Ok(()) => {},
            Err(e) => {
                proof {
                    assert(plan.take(p2.len() as int) =~= p2);
                    lemma_ran_stopped(b0, self.calls@, p2, plan);
                }
                return Err(e);
            },
        }
        let ghost b2 = self.calls@;
        let ghost received = buffer@.take(len as int);
        proof {
            assert(b2[b1.len() as int].received == received);
        }
        match self.assert_cs_low() {
            Ok(()) => {},
            Err(e) => {
                proof {
                    lemma_ran_then(b0, b2, self.calls@, p2, p1);
                    assert(plan.take(p3.len() as int) =~= p3);
                    lemma_ran_stopped(b0, self.calls@, p3, plan);
                }
                return Err(e);
            },
        }
        let ghost b3 = self.calls@;
        proof {
            lemma_ran_then(b0, b2, b3, p2, p1);
        }
        match self.assert_cs_high() {
            Ok(()) => {},
            Err(e) => {
                proof {
                    lemma_ran_one(b3, self.calls@.last());
                    assert(self.calls@ == b3.push(self.calls@.last()));
                    lemma_ran_then(b0, b3, self.calls@, p3, seq![BusOp::Deselect]);
                }
                return Err(e);
            },
        }
        proof {
            lemma_ran_one(b3, self.calls@.last());
            assert(self.calls@ == b3.push(self.calls@.last()));
            lemma_ran_then(b0, b3, self.calls@, p3, seq![BusOp::Deselect]);
            assert(self.calls@[b1.len() as int] == b3[b1.len() as int]);
            assert(b3[b1.len() as int] == b2[b1.len() as int]) by {
                assert(b3.take(b2.len() as int)[b1.len() as int] == b3[b1.len() as int]);
            }
        }
        let mut data: Vec<u8> = Vec::new();
        let mut i: usize = 0;
        while i < Reg::len()
            invariant
                register_fits::<Reg>(),
                n == header_len(Reg::spec_sub_id()),
                len == n + Reg::spec_len(),
                i <= Reg::spec_len(),
                data@ == buffer@.subrange(n as int, n + i),
            decreases Reg::spec_len() - i,
        {
            data.push(buffer[n + i]);
            proof {
                assert(data@ =~= buffer@.subrange(n as int, n + i + 1));
            }
            i = i + 1;
        }
        proof {
            assert(data@ =~= received.skip(n as int));
            self.read_log@ = self.read_log@.push(reg_read::<Reg>(data@));
        }
        Ok(R { data, _reg: PhantomData })
    }

    /// Write to the register
    ///
    /// Makes one SPI transaction that sends the header addressing the
    /// register, followed by the contents.
    pub fn write<Reg: Writable>(&mut self, w: &W<Reg>) -> (r: Result<(), Error<SPI, CS>>)
        requires
            register_fits::<Reg>(),
        ensures
            final(self).cs_delay() == old(self).cs_delay(),
            final(self).reads() == old(self).reads(),
            ran_after(
                old(self).bus(),
                final(self).bus(),
                transaction(
                    old(self).cs_delay(),
                    BusOp::Write(header_bytes(true, Reg::spec_id(), Reg::spec_sub_id()) + w@),
                ),
            ),
            r is Ok <==> all_ok(calls_after(old(self).bus(), final(self).bus())),
            r is Ok ==> final(self).writes() == old(self).writes().push(reg_write::<Reg>(w@)),
            r is Err ==> final(self).writes() == old(self).writes(),
            r matches Err(e) ==> error_of(e, final(self).bus().last().op),
            w@.len() == Reg::spec_len(),
    {
        proof {
            use_type_invariant(w);
        }
        let ghost b0 = self.calls@;
        let ghost d = self.chip_select_delay;
        let ghost op = BusOp::Write(header_bytes(true, Reg::spec_id(), Reg::spec_sub_id()) + w@);
        let ghost plan = transaction(d, op);
        let ghost p1 = selects(d as nat + 1);
        let ghost p2 = p1 + seq![op];
        let ghost p3 = p2 + p1;
        let mut buffer = [0u8; 128];
        let n = init_header(true, Reg::id(), Reg::sub_id(), &mut buffer);
        let mut i: usize = 0;
        while i < Reg::len()
            invariant
                register_fits::<Reg>(),
                n == header_len(Reg::spec_sub_id()),
                i <= Reg::spec_len(),
                w.data@.len() == Reg::spec_len(),
                buffer@.take(n as int) == header_bytes(true, Reg::spec_id(), Reg::spec_sub_id()),
                buffer@.subrange(n as int, n + i) == w.data@.take(i as int),
            decreases Reg::spec_len() - i,
        {
            buffer[n + i] = w.data[i];
            proof {
                assert(buffer@.take(n as int) =~= header_bytes(true, Reg::spec_id(), Reg::spec_sub_id()));
                assert(buffer@.subrange(n as int, n + i + 1) =~= w.data@.take(i + 1));
            }
            i = i + 1;
        }
        // The transaction is the header that addresses the register, followed
        // by the contents.
        assert(buffer@.take(n + Reg::spec_len()) =~= header_bytes(true, Reg::spec_id(), Reg::spec_sub_id())
            + w@) by {
            assert(w.data@.take(Reg::spec_len() as int) =~= w.data@);
            assert(buffer@.take(n + Reg::spec_len()) =~= buffer@.take(n as int) + buffer@.subrange(
                n as int,
                n + Reg::spec_len(),
            ));
        }
        match self.assert_cs_low() {
            Ok(()) => {},
            Err(e) => {
                proof {
                    assert(plan.take(p1.len() as int) =~= p1);
                    lemma_ran_stopped(b0, self.calls@, p1, plan);
                }
                return Err(e);
            },
        }
        let ghost b1 = self.calls@;
        let res = self.spi_write(&buffer, n + Reg::len());
        proof {
            lemma_ran_one(b1, self.calls@.last());
            assert(self.calls@ == b1.push(self.calls@.last()));
            lemma_ran_then(b0, b1, self.calls@, p1, seq![op]);
        }
        match res {
            Ok(()) => {},
            Err(e) => {
                proof {
                    assert(plan.take(p2.len() as int) =~= p2);
                    lemma_ran_stopped(b0, self.calls@, p2, plan);
                }
                return Err(e);
            },
        }
        let ghost b2 = self.calls@;
        match self.assert_cs_low() {
            Ok(()) => {},
            Err(e) => {
                proof {
                    lemma_ran_then(b0, b2, self.calls@, p2, p1);
                    assert(plan.take(p3.len() as int) =~= p3);
                    lemma_ran_stopped(b0, self.calls@, p3, plan);
                }
                return Err(e);
            },
        }
        let ghost b3 = self.calls@;
        proof {
            lemma_ran_then(b0, b2, b3, p2, p1);
        }
        let res = self.assert_cs_high();
        proof {
            lemma_ran_one(b3, self.calls@.last());
            assert(self.calls@ == b3.push(self.calls@.last()));
            lemma_ran_then(b0, b3, self.calls@, p3, seq![BusOp::Deselect]);
        }
        match res {
            Ok(()) => {},
            Err(e) => return Err(e),
        }
        proof {
            self.written@ = self.written@.push(reg_write::<Reg>(w@));
        }
        Ok(())
    }

    /// Reads the CIR accumulator.
    ///
    /// Starts reading from the start_index and puts all results in the buffer.
    ///
    /// *NOTE: The first byte in the buffer will be a dummy byte that shouldn't
    /// be used.*
    pub fn cir(&mut self, start_index: u16, buffer: &mut Vec<u8>) -> (r: Result<(), Error<SPI, CS>>)
        ensures
            final(self).writes() == old(self).writes(),
            final(self).reads() == old(self).reads(),
            final(self).cs_delay() == old(self).cs_delay(),
            final(buffer)@.len() == old(buffer)@.len(),
            ran_after(
                old(self).bus(),
                final(self).bus(),
                block_read_plan(old(self).cs_delay(), 0x25, start_index, old(buffer)@.len()),
            ),
            r is Ok <==> all_ok(calls_after(old(self).bus(), final(self).bus())),
            r is Ok ==> final(buffer)@ == received_bytes(
                final(self).bus().subrange(
                    old(self).bus().len() + old(self).cs_delay() + 2,
                    old(self).bus().len() + old(self).cs_delay() + 2 + chunk_count(old(buffer)@.len()),
                ),
            ),
            r matches Err(e) ==> error_of(e, final(self).bus().last().op),
    {
        self.block_read(0x25, start_index, buffer)
    }

    /// Reads `buffer.len()` bytes from register file `id`, starting at
    /// sub-index `start_sub_id`, in one transaction.
    ///
    /// The transaction sends a three-byte header, then receives the bytes in
    /// transfers of at most `SPI_BUFFER_LEN` bytes each; the buffer receives
    /// them in order.
    fn block_read(&mut self, id: u8, start_sub_id: u16, buffer: &mut Vec<u8>) -> (r: Result<(), Error<SPI, CS>>)
        ensures
            final(self).writes() == old(self).writes(),
            final(self).reads() == old(self).reads(),
            final(self).cs_delay() == old(self).cs_delay(),
            final(buffer)@.len() == old(buffer)@.len(),
            ran_after(
                old(self).bus(),
                final(self).bus(),
                block_read_plan(old(self).cs_delay(), id, start_sub_id, old(buffer)@.len()),
            ),
            r is Ok <==> all_ok(calls_after(old(self).bus(), final(self).bus())),
            r is Ok ==> final(buffer)@ == received_bytes(
                final(self).bus().subrange(
                    old(self).bus().len() + old(self).cs_delay() + 2,
                    old(self).bus().len() + old(self).cs_delay() + 2 + chunk_count(old(buffer)@.len()),
                ),
            ),
            r matches Err(e) ==> error_of(e, final(self).bus().last().op),
    {
        let ghost b0 = self.calls@;
        let ghost d = self.chip_select_delay;
        let ghost len0 = buffer@.len();
        let ghost chunks = chunk_reads(len0);
        let ghost plan = block_read_plan(d, id, start_sub_id, len0);
        let ghost p1 = selects(d as nat + 1);
        let ghost pre = p1 + seq![BusOp::Write(block_header(id, start_sub_id))];
        let ghost p3 = pre + chunks;
        let ghost p4 = p3 + p1;
        // Make it simple and use the 3 byte header
        let mut header = [0u8; 128];
        let sub_low: u8 = #[verifier::truncate] (start_sub_id as u8);
        let sub_mid: u8 = #[verifier::truncate] (((start_sub_id & 0x7F80u16) >> 7u16) as u8);
        // A read with a sub-index, in its extended three-byte form
        header[0] = 0x40u8 | (id & 0x3fu8);
        header[1] = 0x80u8 | (sub_low & 0x7Fu8);
        header[2] = sub_mid;
        proof {
            assert(header@.take(3) =~= block_header(id, start_sub_id));
        }
        match self.assert_cs_low() {
            Ok(()) => {},
            Err(e) => {
                proof {
                    assert(plan.take(p1.len() as int) =~= p1);
                    lemma_ran_stopped(b0, self.calls@, p1, plan);
                }
                return Err(e);
            },
        }
        let ghost b1 = self.calls@;
        let res = self.spi_write(&header, 3);
        proof {
            lemma_ran_one(b1, self.calls@.last());
            assert(self.calls@ == b1.push(self.calls@.last()));
            lemma_ran_then(b0, b1, self.calls@, p1, seq![BusOp::Write(block_header(id, start_sub_id))]);
        }
        match res {
            Ok(()) => {},
            Err(e) => {
                proof {
                    assert(plan.take(pre.len() as int) =~= pre);
                    lemma_ran_stopped(b0, self.calls@, pre, plan);
                }
                return Err(e);
            },
        }
        let ghost b2 = self.calls@;
        let ghost start = b0.len() + d + 2;
        proof {
            assert(pre + chunks.take(0) =~= pre);
            assert(b2.subrange(start, b2.len() as int) =~= Seq::<BusEvent>::empty());
            assert(buffer@.take(0) =~= Seq::<u8>::empty());
        }
        // Read the data, in pieces that fit the transfer buffer. The chip
        // select stays low, so the pieces form one transaction.
        let len = buffer.len();
        let mut done: usize = 0;
        let ghost mut k: nat = 0;
        while done < len
            invariant
                done <= len,
                buffer@.len() == len,
                len == len0,
                len0 == old(buffer)@.len(),
                d == old(self).chip_select_delay,
                b0 == old(self).calls@,
                chunks == chunk_reads(len0),
                plan == pre + chunks + p1 + seq![BusOp::Deselect],
                plan == block_read_plan(d, id, start_sub_id, len0),
                start == b0.len() + pre.len(),
                self.written == old(self).written,
                self.read_log == old(self).read_log,
                self.chip_select_delay == d,
                done < len ==> done == 128 * k,
                done == len ==> k == chunk_count(len as nat),
                k <= chunk_count(len as nat),
                ran_after(b0, self.calls@, pre + chunks.take(k as int)),
                all_ok(calls_after(b0, self.calls@)),
                self.calls@.len() == start + k,
                buffer@.take(done as int) == received_bytes(self.calls@.subrange(start, self.calls@.len() as int)),
            decreases len - done,
        {
            let chunk = if len - done > 128 {
                128
            } else {
                len - done
            };
            proof {
                assert(k < chunk_count(len as nat));
                assert(chunk == chunk_len(len as nat, k as int));
            }
            let ghost cur = self.calls@;
            let mut words = [0u8; 128];
            let ghost empty = words@;
            proof {
                assert(empty.take(chunk as int) =~= zeros(chunk as nat));
            }
            let res = self.spi_transfer(&mut words, chunk);
            let ghost op = BusOp::Transfer(zeros(chunk as nat));
            proof {
                lemma_ran_one(cur, self.calls@.last());
                assert(self.calls@ == cur.push(self.calls@.last()));
                lemma_ran_then(b0, cur, self.calls@, pre + chunks.take(k as int), seq![op]);
                assert(chunks[k as int] == op);
                assert(pre + chunks.take(k as int) + seq![op] =~= pre + chunks.take(k + 1 as int));
            }
            match res {
                Ok(()) => {},
                Err(e) => {
                    proof {
                        assert(plan.take(pre.len() + k + 1 as int) =~= pre + chunks.take(k + 1 as int));
                        lemma_ran_stopped(b0, self.calls@, pre + chunks.take(k + 1 as int), plan);
                    }
                    return Err(e);
                },
            }
            let ghost before = buffer@;
            let mut i: usize = 0;
            while i < chunk
                invariant
                    i <= chunk,
                    chunk <= 128,
                    done + chunk <= len,
                    buffer@.len() == len,
                    buffer@.take(done as int) == before.take(done as int),
                    buffer@.subrange(done as int, done + i) == words@.take(i as int),
                decreases chunk - i,
            {
                buffer.set(done + i, words[i]);
                proof {
                    assert(buffer@.take(done as int) =~= before.take(done as int));
                    assert(buffer@.subrange(done as int, done + i + 1) =~= words@.take(i + 1));
                }
                i = i + 1;
            }
            proof {
                let evs = self.calls@.subrange(start, self.calls@.len() as int);
                assert(evs.drop_last() =~= cur.subrange(start, cur.len() as int));
                assert(buffer@.take(done + chunk) =~= buffer@.take(done as int) + buffer@.subrange(
                    done as int,
                    done + chunk,
                ));
                assert(received_bytes(evs) == received_bytes(evs.drop_last()) + evs.last().received);
                assert(buffer@.take(done + chunk) =~= received_bytes(evs));
                if done + chunk < len {
                    assert(chunk == 128);
                }
                k = k + 1;
            }
            done = done + chunk;
        }
        let ghost b3 = self.calls@;
        proof {
            assert(chunks.take(k as int) =~= chunks);
            assert(buffer@.take(done as int) =~= buffer@);
        }
        match self.assert_cs_low() {
            Ok(()) => {},
            Err(e) => {
                proof {
                    lemma_ran_then(b0, b3, self.calls@, p3, p1);
                    assert(plan.take(p4.len() as int) =~= p4);
                    lemma_ran_stopped(b0, self.calls@, p4, plan);
                }
                return Err(e);
            },
        }
        let ghost b4 = self.calls@;
        proof {
            lemma_ran_then(b0, b3, b4, p3, p1);
        }
        let res = self.assert_cs_high();
        proof {
            lemma_ran_one(b4, self.calls@.last());
            assert(self.calls@ == b4.push(self.calls@.last()));
            lemma_ran_then(b0, b4, self.calls@, p4, seq![BusOp::Deselect]);
            assert(self.calls@.subrange(start, start + k) =~= b3.subrange(start, b3.len() as int)) by {
                assert forall|j: int| start <= j < start + k implies self.calls@[j] == b3[j] by {
                    assert(b4.take(b3.len() as int)[j] == b4[j]);
                    assert(self.calls@.take(b4.len() as int)[j] == self.calls@[j]);
                }
            }
        }
        res
    }

    /// Wakes the DW1000 up from sleep, by holding the chip select pin low
    /// while driving it low `cs_low_repeats` times, then releasing it.
    pub(crate) fn wake_up(&mut self, cs_low_repeats: u16) -> (r: Result<(), Error<SPI, CS>>)
        ensures
            final(self).writes() == old(self).writes(),
            final(self).reads() == old(self).reads(),
            final(self).cs_delay() == old(self).cs_delay(),
            ran_after(
                old(self).bus(),
                final(self).bus(),
                selects(cs_low_repeats as nat) + seq![BusOp::Deselect],
            ),
            r is Ok <==> all_ok(calls_after(old(self).bus(), final(self).bus())),
            r matches Err(e) ==> e is ChipSelect,
    {
        let ghost b0 = self.calls@;
        let ghost p1 = selects(cs_low_repeats as nat);
        let ghost plan = p1 + seq![BusOp::Deselect];
        match self.select_times(cs_low_repeats) {
            Ok(()) => {},
            Err(e) => {
                proof {
                    assert(plan.take(p1.len() as int) =~= p1);
                    lemma_ran_stopped(b0, self.calls@, p1, plan);
                }
                return Err(e);
            },
        }
        let ghost b1 = self.calls@;
        let res = self.assert_cs_high();
        proof {
            lemma_ran_one(b1, self.calls@.last());
            assert(self.calls@ == b1.push(self.calls@.last()));
            lemma_ran_then(b0, b1, self.calls@, p1, seq![BusOp::Deselect]);
        }
        res
    }
}

} // verus!
