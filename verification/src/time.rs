//! Time-related types based on the DW1000's system time
//!
//! The DW1000 counts time in units of 1/64 ns (a 63.8976 GHz clock, rounded),
//! using 40-bit counters that wrap around.

use vstd::prelude::*;

verus! {

/// The maximum value of 40-bit system time stamps.
pub const TIME_MAX: u64 = 0xffffffffff;

/// The number of distinct 40-bit time stamps (`TIME_MAX + 1`).
pub open spec fn time_modulus() -> int {
    TIME_MAX as int + 1
}

/// Represents an instant in time
///
/// You can get the current DW1000 system time by calling
/// [`DW1000::sys_time`](crate::hl::DW1000::sys_time).
///
/// Internally uses the same 40-bit timestamps that the DW1000 uses.
#[derive(Clone, Copy, Debug)]
pub struct Instant(u64);

/// A duration between two instants in DW1000 system time
///
/// Internally uses the same 40-bit timestamps that the DW1000 uses.
#[derive(Clone, Copy, Debug)]
pub struct Duration(u64);

impl View for Instant {
    type V = int;

    closed spec fn view(&self) -> int {
        self.0 as int
    }
}

impl View for Duration {
    type V = int;

    closed spec fn view(&self) -> int {
        self.0 as int
    }
}

impl Instant {
    /// Every `Instant` holds a 40-bit time stamp.
    #[verifier::type_invariant]
    pub closed spec fn fits_40_bits(self) -> bool {
        self.0 <= TIME_MAX
    }

    /// The `Instant` that a verified value of at most `TIME_MAX` stands for.
    pub closed spec fn spec_from(value: int) -> Instant
        recommends 0 <= value <= TIME_MAX,
    {
        Instant(value as u64)
    }

    /// Creates a new instance of `Instant`
    ///
    /// The given value must fit in a 40-bit timestamp, so:
    /// 0 <= `value` <= 2^40 - 1
    ///
    /// Returns `Some(...)`, if `value` is within the valid range, `None` if it
    /// isn't.
    pub fn new(value: u64) -> (r: Option<Self>)
        ensures
            r is Some <==> value <= TIME_MAX,
            r matches Some(i) ==> i@ == value,
    {
        if value <= TIME_MAX {
            Some(Instant(value))
        } else {
            None
        }
    }

    /// Returns the raw 40-bit timestamp
    ///
    /// The returned value is guaranteed to be in the following range:
    /// 0 <= `value` <= 2^40 - 1
    pub fn value(&self) -> (r: u64)
        ensures
            r == self@,
            r <= TIME_MAX,
    {
        proof {
            use_type_invariant(self);
        }
        self.0
    }

    /// Returns the amount of time passed between the two `Instant`s
    ///
    /// Assumes that `&self` represents a later time than the argument
    /// `earlier`. Please make sure that this is the case, as this method has no
    /// way of knowing (DW1000 timestamps can overflow, so comparing the
    /// numerical value of the timestamp doesn't tell anything about order).
    pub fn duration_since(&self, earlier: Instant) -> (r: Duration)
        ensures
            r@ == spec_duration_since(*self, earlier),
    {
        proof {
            use_type_invariant(self);
            use_type_invariant(earlier);
        }
        if self.value() >= earlier.value() {
            Duration(self.value() - earlier.value())
        } else {
            Duration(TIME_MAX - earlier.value() + self.value() + 1)
        }
    }
}

/// The time that passes from `earlier` to `later` on the wrapping 40-bit clock.
pub open spec fn spec_duration_since(later: Instant, earlier: Instant) -> int {
    (later@ - earlier@) % time_modulus()
}

/// The instant that lies `d` after `i` on the wrapping 40-bit clock.
pub open spec fn spec_add(i: Instant, d: Duration) -> int {
    (i@ + d@) % time_modulus()
}

impl core::ops::Add<Duration> for Instant {
    type Output = Instant;

    fn add(self, rhs: Duration) -> (r: Instant)
        ensures
            r@ == spec_add(self, rhs),
    {
        proof {
            use_type_invariant(self);
            use_type_invariant(rhs);
        }
        // Both `Instant` and `Duration` are guaranteed to contain 40-bit
        // numbers, so this addition will never overflow.
        let value = (self.0 + rhs.0) % (TIME_MAX + 1);
        Instant(value)
    }
}

impl vstd::std_specs::ops::AddSpecImpl<Duration> for Instant {
    open spec fn obeys_add_spec() -> bool {
        true
    }

    open spec fn add_req(self, rhs: Duration) -> bool {
        true
    }

    open spec fn add_spec(self, rhs: Duration) -> Instant {
        Instant::spec_from(spec_add(self, rhs))
    }
}

impl Duration {
    /// Every `Duration` holds a 40-bit value.
    #[verifier::type_invariant]
    pub closed spec fn fits_40_bits(self) -> bool {
        self.0 <= TIME_MAX
    }

    /// Creates a new instance of `Duration`
    ///
    /// The given value must fit in a 40-bit timestamp, so:
    /// 0 <= `value` <= 2^40 - 1
    ///
    /// Returns `Some(...)`, if `value` is within the valid range, `None` if it
    /// isn't.
    pub fn new(value: u64) -> (r: Option<Self>)
        ensures
            r is Some <==> value <= TIME_MAX,
            r matches Some(d) ==> d@ == value,
    {
        if value <= TIME_MAX {
            Some(Duration(value))
        } else {
            None
        }
    }

    /// Creates an instance of `Duration` from a number of nanoseconds
    pub fn from_nanos(nanos: u32) -> (r: Self)
        ensures
            r@ == nanos * 64,
    {
        // `nanos` takes up at most 32 bits before it is multiplied. That means
        // the result of the multiplication fits within 38 bits.
        Duration(nanos as u64 * 64)
    }

    /// Returns the raw 40-bit value
    ///
    /// The returned value is guaranteed to be in the following range:
    /// 0 <= `value` <= 2^40 - 1
    pub fn value(&self) -> (r: u64)
        ensures
            r == self@,
            r <= TIME_MAX,
    {
        proof {
            use_type_invariant(self);
        }
        self.0
    }
}

/// An `Instant` that meets its type invariant holds a 40-bit time stamp.
pub proof fn lemma_instant_fits(i: Instant)
    requires
        i.fits_40_bits(),
    ensures
        0 <= i@ <= TIME_MAX,
{
}

/// A `Duration` that meets its type invariant holds a 40-bit value.
pub proof fn lemma_duration_fits(d: Duration)
    requires
        d.fits_40_bits(),
    ensures
        0 <= d@ <= TIME_MAX,
{
}

/// Adding the time that passed between two instants to the earlier one gives
/// back the later one.
pub proof fn lemma_add_duration_since(earlier: Instant, later: Instant)
    requires
        0 <= earlier@ <= TIME_MAX,
        0 <= later@ <= TIME_MAX,
    ensures
        (earlier@ + spec_duration_since(later, earlier)) % time_modulus() == later@,
{
    lemma_wrap(later@ - earlier@);
    lemma_wrap(later@);
    lemma_wrap(later@ + time_modulus());
}

/// The time that passes from an instant to that instant plus a duration is
/// that duration.
pub proof fn lemma_duration_since_add(i: Instant, d: Duration)
    requires
        0 <= i@ <= TIME_MAX,
        0 <= d@ <= TIME_MAX,
    ensures
        (spec_add(i, d) - i@) % time_modulus() == d@,
{
    lemma_wrap(i@ + d@);
    lemma_wrap(d@);
    lemma_wrap(d@ - time_modulus());
}

/// A duration between two instants is always a valid 40-bit value.
pub proof fn lemma_duration_since_bounded(later: Instant, earlier: Instant)
    requires
        0 <= earlier@ <= TIME_MAX,
        0 <= later@ <= TIME_MAX,
    ensures
        0 <= spec_duration_since(later, earlier) <= TIME_MAX,
        earlier@ <= later@ ==> spec_duration_since(later, earlier) == later@ - earlier@,
{
    lemma_wrap(later@ - earlier@);
}

/// Reduction modulo the clock period of a value that is at most one period
/// away from the valid range.
proof fn lemma_wrap(x: int)
    requires
        -time_modulus() <= x < 2 * time_modulus(),
    ensures
        0 <= x < time_modulus() ==> x % time_modulus() == x,
        time_modulus() <= x ==> x % time_modulus() == x - time_modulus(),
        x < 0 ==> x % time_modulus() == x + time_modulus(),
{
    let m = time_modulus();
    if 0 <= x < m {
        vstd::arithmetic::div_mod::lemma_small_mod(x as nat, m as nat);
    } else if m <= x {
        vstd::arithmetic::div_mod::lemma_mod_multiples_vanish(1, x - m, m);
        vstd::arithmetic::div_mod::lemma_small_mod((x - m) as nat, m as nat);
    } else {
        vstd::arithmetic::div_mod::lemma_mod_multiples_vanish(-1, x + m, m);
        vstd::arithmetic::div_mod::lemma_small_mod((x + m) as nat, m as nat);
    }
}

} // verus!
