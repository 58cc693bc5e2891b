//! Bit-level access to register contents
//!
//! Register contents are little-endian byte sequences. A register field
//! occupies a contiguous range of bits; bit `k` of the contents is bit `k % 8`
//! of byte `k / 8`.

use vstd::prelude::*;
use vstd::arithmetic::power2::pow2;

verus! {

/// Bit `k` of the little-endian byte sequence `s`.
pub open spec fn bit_of(s: Seq<u8>, k: int) -> u8 {
    (s[k / 8] >> ((k % 8) as u8)) & 1u8
}

/// The unsigned number held in the `width` bits of `s` that start at bit
/// `first`, least significant bit first.
pub open spec fn field_value(s: Seq<u8>, first: int, width: nat) -> nat
    decreases width,
{
    if width == 0 {
        0
    } else {
        bit_of(s, first) as nat + 2 * field_value(s, first + 1, (width - 1) as nat)
    }
}

/// Bit `j` of `v`.
pub open spec fn value_bit(v: u64, j: int) -> u8 {
    ((v >> (j as u64)) & 1u64) as u8
}

/// The number held in bits `j .. j + width` of `v`.
pub open spec fn low_bits(v: u64, j: int, width: nat) -> nat
    decreases width,
{
    if width == 0 {
        0
    } else {
        value_bit(v, j) as nat + 2 * low_bits(v, j + 1, (width - 1) as nat)
    }
}

/// `new` is `old` with the `width` bits starting at bit `first` replaced by
/// the low `width` bits of `value`, and all other bits kept.
pub open spec fn field_written(old: Seq<u8>, new: Seq<u8>, first: int, width: nat, value: u64) -> bool {
    &&& new.len() == old.len()
    &&& forall|k: int|
        0 <= k < 8 * old.len() ==> #[trigger] bit_of(new, k) == if first <= k < first + width {
            value_bit(value, k - first)
        } else {
            bit_of(old, k)
        }
}

/// A field lies within `s` and is at most 64 bits wide.
pub open spec fn field_fits(s: Seq<u8>, first: int, width: nat) -> bool {
    &&& 0 <= first
    &&& 1 <= width <= 64
    &&& first + width <= 8 * s.len()
    &&& s.len() <= 0x1000
}

/// The value of a field only depends on the bits within the field.
pub proof fn lemma_field_value_ext(s1: Seq<u8>, s2: Seq<u8>, first: int, width: nat)
    requires
        forall|k: int| first <= k < first + width ==> #[trigger] bit_of(s1, k) == bit_of(s2, k),
    ensures
        field_value(s1, first, width) == field_value(s2, first, width),
    decreases width,
{
    if width > 0 {
        assert(bit_of(s1, first) == bit_of(s2, first));
        lemma_field_value_ext(s1, s2, first + 1, (width - 1) as nat);
    }
}

/// A field of `width` bits holds a number below `2^width`.
pub proof fn lemma_field_value_bound(s: Seq<u8>, first: int, width: nat)
    ensures
        field_value(s, first, width) < pow2(width),
    decreases width,
{
    vstd::arithmetic::power2::lemma_pow2_pos(width);
    if width > 0 {
        lemma_bit_is_bit(s[first / 8], (first % 8) as u8);
        lemma_field_value_bound(s, first + 1, (width - 1) as nat);
        vstd::arithmetic::power2::lemma_pow2_unfold(width);
    }
}

proof fn lemma_bit_is_bit(b: u8, sh: u8)
    ensures
        (b >> sh) & 1u8 <= 1,
{
    assert((b >> sh) & 1u8 <= 1) by (bit_vector);
}

/// A field of `a + b` bits is its low `a` bits followed by its high `b`
/// bits.
pub proof fn lemma_field_value_split(s: Seq<u8>, first: int, a: nat, b: nat)
    ensures
        field_value(s, first, a + b) == field_value(s, first, a) + pow2(a) * field_value(
            s,
            first + a,
            b,
        ),
    decreases a,
{
    if a == 0 {
        vstd::arithmetic::power2::lemma2_to64();
    } else {
        lemma_field_value_split(s, first + 1, (a - 1) as nat, b);
        vstd::arithmetic::power2::lemma_pow2_unfold(a);
        assert(first + 1 + (a - 1) == first + a);
        assert(((a + b) - 1) as nat == (a - 1) as nat + b);
        let lo = field_value(s, first + 1, (a - 1) as nat);
        let hi = field_value(s, first + a, b);
        let p = pow2((a - 1) as nat);
        assert(2 * (lo + p * hi) == 2 * lo + (2 * p) * hi) by (nonlinear_arith);
    }
}

/// Every field of an all-zero byte sequence holds 0.
pub proof fn lemma_field_value_zero(s: Seq<u8>, first: int, width: nat)
    requires
        forall|i: int| 0 <= i < s.len() ==> s[i] == 0u8,
        0 <= first,
        first + width <= 8 * s.len(),
    ensures
        field_value(s, first, width) == 0,
    decreases width,
{
    if width > 0 {
        let b = s[first / 8];
        let sh = (first % 8) as u8;
        assert(b == 0u8);
        assert((0u8 >> sh) & 1u8 == 0u8) by (bit_vector);
        lemma_field_value_zero(s, first + 1, (width - 1) as nat);
    }
}

/// The bits `j .. j + width` of `v`, read as a number, are `v >> j` modulo
/// `2^width`.
proof fn lemma_low_bits_shift(v: u64, j: int, width: nat)
    requires
        0 <= j,
        j + width <= 64,
    ensures
        low_bits(v, j, width) == ((v >> (j as u64)) as nat) % pow2(width),
    decreases width,
{
    vstd::arithmetic::power2::lemma_pow2_pos(width);
    if width == 0 {
        assert(pow2(0) == 1) by {
            vstd::arithmetic::power2::lemma2_to64();
        }
    } else {
        let x: u64 = v >> (j as u64);
        let ju: u64 = j as u64;
        assert((x & 1u64) as nat == (x as nat) % 2) by {
            assert(x & 1u64 == x % 2) by (bit_vector);
        }
        vstd::arithmetic::power2::lemma_pow2_unfold(width);
        vstd::arithmetic::power2::lemma_pow2_pos((width - 1) as nat);
        vstd::arithmetic::div_mod::lemma_mod_breakdown(x as int, 2, pow2((width - 1) as nat) as int);
        if width == 1 {
            assert(pow2(0) == 1) by {
                vstd::arithmetic::power2::lemma2_to64();
            }
            assert(low_bits(v, j + 1, 0) == 0);
            assert(((x as int) / 2) % 1 == 0);
        } else {
            assert(ju < 63);
            assert((v >> (ju + 1)) == (v >> ju) / 2) by (bit_vector)
                requires ju < 63;
            lemma_low_bits_shift(v, j + 1, (width - 1) as nat);
        }
    }
}

/// The low `width` bits of `v` are `v` modulo `2^width`.
pub proof fn lemma_low_bits_is_mod(v: u64, width: nat)
    requires
        width <= 64,
    ensures
        low_bits(v, 0, width) == (v as nat) % pow2(width),
{
    lemma_low_bits_shift(v, 0, width);
    assert((v >> 0u64) == v) by (bit_vector);
}

proof fn lemma_written_field_is_low_bits(old: Seq<u8>, new: Seq<u8>, first: int, width: nat, value: u64, i: nat)
    requires
        field_fits(old, first, width),
        field_written(old, new, first, width, value),
        i <= width,
    ensures
        field_value(new, first + i, (width - i) as nat) == low_bits(value, i as int, (width - i) as nat),
    decreases width - i,
{
    if i < width {
        assert(bit_of(new, first + i) == value_bit(value, i as int));
        lemma_written_field_is_low_bits(old, new, first, width, value, i + 1);
        assert(first + i + 1 == first + (i + 1));
    }
}

/// Reading a field after writing `value` into it gives back `value`,
/// truncated to the width of the field.
pub proof fn lemma_field_write_read(old: Seq<u8>, new: Seq<u8>, first: int, width: nat, value: u64)
    requires
        field_fits(old, first, width),
        field_written(old, new, first, width, value),
    ensures
        field_value(new, first, width) == (value as nat) % pow2(width),
{
    lemma_written_field_is_low_bits(old, new, first, width, value, 0);
    lemma_low_bits_is_mod(value, width);
}

/// Writing a field leaves every field that does not overlap it unchanged.
pub proof fn lemma_field_write_keeps_others(
    old: Seq<u8>,
    new: Seq<u8>,
    first: int,
    width: nat,
    value: u64,
    other_first: int,
    other_width: nat,
)
    requires
        field_fits(old, first, width),
        field_written(old, new, first, width, value),
        field_fits(old, other_first, other_width),
        other_first + other_width <= first || first + width <= other_first,
    ensures
        field_value(new, other_first, other_width) == field_value(old, other_first, other_width),
{
    assert forall|k: int| other_first <= k < other_first + other_width implies #[trigger] bit_of(new, k) == bit_of(old, k) by {
        assert(0 <= k < 8 * old.len());
    }
    lemma_field_value_ext(new, old, other_first, other_width);
}

/// Reads bit `k` of `data`.
fn get_bit(data: &Vec<u8>, k: usize) -> (r: u8)
    requires
        k < 8 * data@.len(),
    ensures
        r == bit_of(data@, k as int),
        r <= 1,
{
    let sh: u8 = (k % 8) as u8;
    let b = data[k / 8];
    proof {
        lemma_bit_is_bit(b, sh);
    }
    (b >> sh) & 1u8
}

/// Reads the field of `width` bits that starts at bit `first`.
pub fn get_field(data: &Vec<u8>, first: usize, width: usize) -> (r: u64)
    requires
        field_fits(data@, first as int, width as nat),
    ensures
        r == field_value(data@, first as int, width as nat),
        r < pow2(width as nat),
        width <= 8 ==> r < 0x100,
        width <= 16 ==> r < 0x1_0000,
        width <= 32 ==> r < 0x1_0000_0000,
        width <= 40 ==> r < 0x100_0000_0000,
{
    let mut val: u64 = 0;
    let mut j: usize = width;
    proof {
        vstd::arithmetic::power2::lemma2_to64();
        vstd::arithmetic::power2::lemma2_to64_rest();
    }
    while j > 0
        invariant
            field_fits(data@, first as int, width as nat),
            j <= width,
            val == field_value(data@, (first + j) as int, (width - j) as nat),
            val < pow2((width - j) as nat),
            pow2(64) == 0x1_0000_0000_0000_0000,
        decreases j,
    {
        let k = first + j - 1;
        let b = get_bit(data, k);
        proof {
            vstd::arithmetic::power2::lemma_pow2_unfold((width - j + 1) as nat);
            if width - j + 1 < 64 {
                vstd::arithmetic::power2::lemma_pow2_strictly_increases((width - j + 1) as nat, 64);
            }
            assert(first + j - 1 + 1 == first + j);
        }
        val = val * 2 + b as u64;
        j = j - 1;
    }
    proof {
        lemma_field_value_bound(data@, first as int, width as nat);
        if width <= 8 && width < 64 {
            if width < 8 {
                vstd::arithmetic::power2::lemma_pow2_strictly_increases(width as nat, 8);
            }
        }
        if width <= 16 && width < 16 {
            vstd::arithmetic::power2::lemma_pow2_strictly_increases(width as nat, 16);
        }
        if width <= 32 && width < 32 {
            vstd::arithmetic::power2::lemma_pow2_strictly_increases(width as nat, 32);
        }
        if width <= 40 && width < 40 {
            vstd::arithmetic::power2::lemma_pow2_strictly_increases(width as nat, 40);
        }
    }
    val
}

proof fn lemma_set_bit_in_byte(x: u8, sh: u8, b: u8)
    requires
        sh < 8,
        b <= 1,
    ensures
        forall|t: u8|
            t < 8 ==> #[trigger] ((((x & !(1u8 << sh)) | (b << sh)) >> t) & 1u8) == if t == sh {
                b
            } else {
                (x >> t) & 1u8
            },
{
    assert(forall|t: u8|
        t < 8 ==> #[trigger] ((((x & !(1u8 << sh)) | (b << sh)) >> t) & 1u8) == if t == sh {
            b
        } else {
            (x >> t) & 1u8
        }) by (bit_vector)
        requires
            sh < 8,
            b <= 1,
    ;
}

/// Writes the low `width` bits of `value` into the field of `width` bits that
/// starts at bit `first`, keeping all other bits.
pub fn set_field(data: &mut Vec<u8>, first: usize, width: usize, value: u64)
    requires
        field_fits(old(data)@, first as int, width as nat),
    ensures
        field_written(old(data)@, final(data)@, first as int, width as nat, value),
        field_value(final(data)@, first as int, width as nat) == (value as nat) % pow2(width as nat),
{
    let ghost orig = data@;
    let mut j: usize = 0;
    while j < width
        invariant
            field_fits(orig, first as int, width as nat),
            j <= width,
            data@.len() == orig.len(),
            forall|k: int|
                0 <= k < 8 * orig.len() ==> #[trigger] bit_of(data@, k) == if first <= k < first + j {
                    value_bit(value, k - first)
                } else {
                    bit_of(orig, k)
                },
        decreases width - j,
    {
        let k = first + j;
        let idx = k / 8;
        let sh: u8 = (k % 8) as u8;
        assert(((value >> (j as u64)) & 1u64) <= 1) by (bit_vector);
        let b: u8 = ((value >> (j as u64)) & 1u64) as u8;
        let x = data[idx];
        let y = (x & !(1u8 << sh)) | (b << sh);
        let ghost before = data@;
        data.set(idx, y);
        proof {
            lemma_set_bit_in_byte(x, sh, b);
            assert forall|kk: int| 0 <= kk < 8 * orig.len() implies #[trigger] bit_of(data@, kk) == if first <= kk < first + j + 1 {
                value_bit(value, kk - first)
            } else {
                bit_of(orig, kk)
            } by {
                let t = (kk % 8) as u8;
                let old_bit = bit_of(before, kk);
                assert(old_bit == if first <= kk < first + j {
                    value_bit(value, kk - first)
                } else {
                    bit_of(orig, kk)
                });
                if kk / 8 == idx as int {
                    assert(data@[kk / 8] == y);
                    assert(before[kk / 8] == x);
                    assert(t < 8);
                    assert(((((x & !(1u8 << sh)) | (b << sh)) >> t) & 1u8) == if t == sh {
                        b
                    } else {
                        (x >> t) & 1u8
                    });
                    if kk == k {
                        assert(t == sh);
                    } else {
                        assert(t != sh);
                    }
                } else {
                    assert(data@[kk / 8] == before[kk / 8]);
                }
            }
        }
        j = j + 1;
    }
    proof {
        lemma_field_write_read(orig, data@, first as int, width as nat, value);
    }
}

} // verus!
