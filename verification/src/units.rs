//! Units of measure (`pmUnits`): six 4-bit fields and an 8-bit pad packed
//! into one 32-bit word.
//!
//! Read as a 32-bit integer, the word holds, from the most significant
//! nibble down: `dimSpace`, `dimTime`, `dimCount`, `scaleSpace`,
//! `scaleTime`, `scaleCount`, and the pad in the low byte. The three
//! dimensions and `scaleCount` are signed fields (two's complement in four
//! bits, -8 ..= 7); `scaleSpace`, `scaleTime` and the pad are unsigned.
//! As with C bit-fields, a setter keeps the low four bits of its argument.

use vstd::prelude::*;

verus! {

/// Space scale: bytes.
pub const PM_SPACE_BYTE: u32 = 0;
/// Space scale: kilobytes.
pub const PM_SPACE_KBYTE: u32 = 1;
/// Space scale: megabytes.
pub const PM_SPACE_MBYTE: u32 = 2;
/// Space scale: gigabytes.
pub const PM_SPACE_GBYTE: u32 = 3;
/// Space scale: terabytes.
pub const PM_SPACE_TBYTE: u32 = 4;
/// Time scale: nanoseconds.
pub const PM_TIME_NSEC: u32 = 0;
/// Time scale: microseconds.
pub const PM_TIME_USEC: u32 = 1;
/// Time scale: milliseconds.
pub const PM_TIME_MSEC: u32 = 2;
/// Time scale: seconds.
pub const PM_TIME_SEC: u32 = 3;
/// Time scale: minutes.
pub const PM_TIME_MIN: u32 = 4;
/// Time scale: hours.
pub const PM_TIME_HOUR: u32 = 5;
/// Count scale: units (10 to the power 0).
pub const PM_COUNT_ONE: u32 = 0;

/// The value of each field of a `pmUnits` word.
pub struct UnitsView {
    pub dim_space: int,
    pub dim_time: int,
    pub dim_count: int,
    pub scale_space: int,
    pub scale_time: int,
    pub scale_count: int,
    pub pad: int,
}

/// The four bits of `w` that start at bit `shift`.
pub open spec fn nibble(w: u32, shift: u32) -> u32 {
    (w >> shift) & 0xfu32
}

/// A four-bit pattern read as a two's complement number.
pub open spec fn signed_nibble(n: u32) -> int {
    if n >= 8 {
        n - 16
    } else {
        n as int
    }
}

/// What a signed four-bit field holds after it is assigned `v`.
pub open spec fn signed_field_of(v: i32) -> int {
    signed_nibble((v as u32) & 0xfu32)
}

/// What an unsigned four-bit field holds after it is assigned `v`.
pub open spec fn unsigned_field_of(v: u32) -> int {
    (v & 0xfu32) as int
}

/// A value that fits its four-bit field is read back unchanged: -8 ..= 7
/// for a signed field, 0 ..= 15 for an unsigned one.
pub proof fn lemma_field_roundtrip(s: i32, u: u32)
    ensures
        -8 <= s <= 7 ==> signed_field_of(s) == s,
        u <= 15 ==> unsigned_field_of(u) == u,
{
    assert(-8 <= s <= 7 ==> signed_nibble((s as u32) & 0xfu32) == s) by (bit_vector);
    assert(u <= 15 ==> u & 0xfu32 == u) by (bit_vector);
}

/// Each field of a word is the plain bit slice at its offset: bits 28..31
/// hold `dimSpace`, 24..27 `dimTime`, 20..23 `dimCount`, 16..19
/// `scaleSpace`, 12..15 `scaleTime`, 8..11 `scaleCount` and 0..7 the pad;
/// a signed field reads its four bits as two's complement.
pub proof fn lemma_fields_are_bit_slices(w: u32)
    ensures
        units_of_word(w).dim_space == (if (w >> 28u32) & 0xfu32 >= 8 { ((w >> 28u32) & 0xfu32) - 16 } else { ((w >> 28u32) & 0xfu32) as int }),
        units_of_word(w).dim_time == (if (w >> 24u32) & 0xfu32 >= 8 { ((w >> 24u32) & 0xfu32) - 16 } else { ((w >> 24u32) & 0xfu32) as int }),
        units_of_word(w).dim_count == (if (w >> 20u32) & 0xfu32 >= 8 { ((w >> 20u32) & 0xfu32) - 16 } else { ((w >> 20u32) & 0xfu32) as int }),
        units_of_word(w).scale_space == ((w >> 16u32) & 0xfu32) as int,
        units_of_word(w).scale_time == ((w >> 12u32) & 0xfu32) as int,
        units_of_word(w).scale_count == (if (w >> 8u32) & 0xfu32 >= 8 { ((w >> 8u32) & 0xfu32) - 16 } else { ((w >> 8u32) & 0xfu32) as int }),
        units_of_word(w).pad == (w & 0xffu32) as int,
{
}

/// Assigning `v` to the field at offset `shift` puts `v & 0xf` in bits
/// `shift .. shift + 4` of the word and leaves every other bit as it was.
pub proof fn lemma_assignment_sets_bit_slice(w: u32, v: u32, shift: u32)
    requires
        shift == 8 || shift == 12 || shift == 16 || shift == 20 || shift == 24 || shift == 28,
    ensures
        (((w & !(0xfu32 << shift)) | ((v & 0xfu32) << shift)) >> shift) & 0xfu32 == v & 0xfu32,
        ((w & !(0xfu32 << shift)) | ((v & 0xfu32) << shift)) & !(0xfu32 << shift) == w & !(0xfu32 << shift),
{
    assert((((w & !(0xfu32 << shift)) | ((v & 0xfu32) << shift)) >> shift) & 0xfu32 == v & 0xfu32
        && ((w & !(0xfu32 << shift)) | ((v & 0xfu32) << shift)) & !(0xfu32 << shift) == w & !(0xfu32 << shift)) by (bit_vector)
        requires
            shift <= 28u32,
    ;
}

/// The fields of the word `w`.
pub open spec fn units_of_word(w: u32) -> UnitsView {
    UnitsView {
        dim_space: signed_nibble(nibble(w, 28)),
        dim_time: signed_nibble(nibble(w, 24)),
        dim_count: signed_nibble(nibble(w, 20)),
        scale_space: nibble(w, 16) as int,
        scale_time: nibble(w, 12) as int,
        scale_count: signed_nibble(nibble(w, 8)),
        pad: (w & 0xffu32) as int,
    }
}

/// Units of measure of a metric.
#[derive(Clone, Copy)]
pub struct PMUnits {
    bits: u32,
}

impl View for PMUnits {
    type V = UnitsView;

    open spec fn view(&self) -> UnitsView {
        units_of_word(self.raw_word())
    }
}

impl PMUnits {
    /// The packed word.
    pub closed spec fn raw_word(&self) -> u32 {
        self.bits
    }

    /// Units with every field zero: dimensionless, scale 0 everywhere.
    pub fn new() -> (units: PMUnits)
        ensures
            units.raw_word() == 0,
            units@ == (UnitsView {
                dim_space: 0,
                dim_time: 0,
                dim_count: 0,
                scale_space: 0,
                scale_time: 0,
                scale_count: 0,
                pad: 0,
            }),
    {
        let units = PMUnits { bits: 0 };
        assert(nibble(0u32, 28) == 0 && nibble(0u32, 24) == 0 && nibble(0u32, 20) == 0 && nibble(
            0u32,
            16,
        ) == 0 && nibble(0u32, 12) == 0 && nibble(0u32, 8) == 0 && 0u32 & 0xffu32 == 0)
            by (bit_vector);
        units
    }

    /// The packed 32-bit word, as the C structure stores it.
    pub fn word(&self) -> (w: u32)
        ensures
            w == self.raw_word(),
            units_of_word(w) == self@,
    {
        self.bits
    }

    fn signed_at(w: u32, shift: u32) -> (v: i32)
        requires
            shift <= 28,
        ensures
            v == signed_nibble(nibble(w, shift)),
    {
        let n = (w >> shift) & 0xf;
        assert(n <= 15) by (bit_vector)
            requires
                n == (w >> shift) & 0xfu32,
        ;
        if n >= 8 {
            (n as i32) - 16
        } else {
            n as i32
        }
    }

    fn unsigned_at(w: u32, shift: u32) -> (v: u32)
        requires
            shift <= 28,
        ensures
            v == nibble(w, shift),
    {
        (w >> shift) & 0xf
    }

    /// The space dimension.
    #[allow(non_snake_case)]
    pub fn dimSpace(&self) -> (v: i32)
        ensures
            v == self@.dim_space,
    {
        Self::signed_at(self.bits, 28)
    }

    /// The time dimension.
    #[allow(non_snake_case)]
    pub fn dimTime(&self) -> (v: i32)
        ensures
            v == self@.dim_time,
    {
        Self::signed_at(self.bits, 24)
    }

    /// The count dimension.
    #[allow(non_snake_case)]
    pub fn dimCount(&self) -> (v: i32)
        ensures
            v == self@.dim_count,
    {
        Self::signed_at(self.bits, 20)
    }

    /// The space scale (one of the `PM_SPACE_*` values).
    #[allow(non_snake_case)]
    pub fn scaleSpace(&self) -> (v: u32)
        ensures
            v == self@.scale_space,
    {
        Self::unsigned_at(self.bits, 16)
    }

    /// The time scale (one of the `PM_TIME_*` values).
    #[allow(non_snake_case)]
    pub fn scaleTime(&self) -> (v: u32)
        ensures
            v == self@.scale_time,
    {
        Self::unsigned_at(self.bits, 12)
    }

    /// The count scale (a power of ten, `PM_COUNT_*`).
    #[allow(non_snake_case)]
    pub fn scaleCount(&self) -> (v: i32)
        ensures
            v == self@.scale_count,
    {
        Self::signed_at(self.bits, 8)
    }

    /// Assigns the space dimension; the field keeps the low four bits of `val` and
    /// every other field is unchanged.
    #[allow(non_snake_case)]
    pub fn set_dimSpace(&mut self, val: i32)
        ensures
            final(self).raw_word() == (old(self).raw_word() & 0x0fffffffu32) | (((val as u32) & 0xfu32) << 28u32),
            final(self)@ == (UnitsView { dim_space: signed_field_of(val), ..old(self)@ }),
    {
        let ob = self.bits;
        let v: u32 = (#[verifier::truncate] (val as u32)) & 0xf;
        let nb = (ob & 0x0fffffffu32) | (v << 28u32);
        assert(nibble(nb, 28) == v && nibble(nb, 24) == nibble(ob, 24) && nibble(nb, 20) == nibble(ob, 20) && nibble(nb, 16) == nibble(ob, 16) && nibble(nb, 12) == nibble(ob, 12) && nibble(nb, 8) == nibble(ob, 8) && nb & 0xffu32 == ob & 0xffu32) by (bit_vector)
            requires
                v == (val as u32) & 0xfu32,
                nb == (ob & 0x0fffffffu32) | (v << 28u32),
        ;
        self.bits = nb;
    }

    /// Assigns the time dimension; the field keeps the low four bits of `val` and
    /// every other field is unchanged.
    #[allow(non_snake_case)]
    pub fn set_dimTime(&mut self, val: i32)
        ensures
            final(self).raw_word() == (old(self).raw_word() & 0xf0ffffffu32) | (((val as u32) & 0xfu32) << 24u32),
            final(self)@ == (UnitsView { dim_time: signed_field_of(val), ..old(self)@ }),
    {
        let ob = self.bits;
        let v: u32 = (#[verifier::truncate] (val as u32)) & 0xf;
        let nb = (ob & 0xf0ffffffu32) | (v << 24u32);
        assert(nibble(nb, 24) == v && nibble(nb, 28) == nibble(ob, 28) && nibble(nb, 20) == nibble(ob, 20) && nibble(nb, 16) == nibble(ob, 16) && nibble(nb, 12) == nibble(ob, 12) && nibble(nb, 8) == nibble(ob, 8) && nb & 0xffu32 == ob & 0xffu32) by (bit_vector)
            requires
                v == (val as u32) & 0xfu32,
                nb == (ob & 0xf0ffffffu32) | (v << 24u32),
        ;
        self.bits = nb;
    }

    /// Assigns the count dimension; the field keeps the low four bits of `val` and
    /// every other field is unchanged.
    #[allow(non_snake_case)]
    pub fn set_dimCount(&mut self, val: i32)
        ensures
            final(self).raw_word() == (old(self).raw_word() & 0xff0fffffu32) | (((val as u32) & 0xfu32) << 20u32),
            final(self)@ == (UnitsView { dim_count: signed_field_of(val), ..old(self)@ }),
    {
        let ob = self.bits;
        let v: u32 = (#[verifier::truncate] (val as u32)) & 0xf;
        let nb = (ob & 0xff0fffffu32) | (v << 20u32);
        assert(nibble(nb, 20) == v && nibble(nb, 28) == nibble(ob, 28) && nibble(nb, 24) == nibble(ob, 24) && nibble(nb, 16) == nibble(ob, 16) && nibble(nb, 12) == nibble(ob, 12) && nibble(nb, 8) == nibble(ob, 8) && nb & 0xffu32 == ob & 0xffu32) by (bit_vector)
            requires
                v == (val as u32) & 0xfu32,
                nb == (ob & 0xff0fffffu32) | (v << 20u32),
        ;
        self.bits = nb;
    }

    /// Assigns the space scale; the field keeps the low four bits of `val` and
    /// every other field is unchanged.
    #[allow(non_snake_case)]
    pub fn set_scaleSpace(&mut self, val: u32)
        ensures
            final(self).raw_word() == (old(self).raw_word() & 0xfff0ffffu32) | ((val & 0xfu32) << 16u32),
            final(self)@ == (UnitsView { scale_space: unsigned_field_of(val), ..old(self)@ }),
    {
        let ob = self.bits;
        let v: u32 = val & 0xf;
        let nb = (ob & 0xfff0ffffu32) | (v << 16u32);
        assert(nibble(nb, 16) == v && nibble(nb, 28) == nibble(ob, 28) && nibble(nb, 24) == nibble(ob, 24) && nibble(nb, 20) == nibble(ob, 20) && nibble(nb, 12) == nibble(ob, 12) && nibble(nb, 8) == nibble(ob, 8) && nb & 0xffu32 == ob & 0xffu32) by (bit_vector)
            requires
                v == val & 0xfu32,
                nb == (ob & 0xfff0ffffu32) | (v << 16u32),
        ;
        self.bits = nb;
    }

    /// Assigns the time scale; the field keeps the low four bits of `val` and
    /// every other field is unchanged.
    #[allow(non_snake_case)]
    pub fn set_scaleTime(&mut self, val: u32)
        ensures
            final(self).raw_word() == (old(self).raw_word() & 0xffff0fffu32) | ((val & 0xfu32) << 12u32),
            final(self)@ == (UnitsView { scale_time: unsigned_field_of(val), ..old(self)@ }),
    {
        let ob = self.bits;
        let v: u32 = val & 0xf;
        let nb = (ob & 0xffff0fffu32) | (v << 12u32);
        assert(nibble(nb, 12) == v && nibble(nb, 28) == nibble(ob, 28) && nibble(nb, 24) == nibble(ob, 24) && nibble(nb, 20) == nibble(ob, 20) && nibble(nb, 16) == nibble(ob, 16) && nibble(nb, 8) == nibble(ob, 8) && nb & 0xffu32 == ob & 0xffu32) by (bit_vector)
            requires
                v == val & 0xfu32,
                nb == (ob & 0xffff0fffu32) | (v << 12u32),
        ;
        self.bits = nb;
    }

    /// Assigns the count scale; the field keeps the low four bits of `val` and
    /// every other field is unchanged.
    #[allow(non_snake_case)]
    pub fn set_scaleCount(&mut self, val: i32)
        ensures
            final(self).raw_word() == (old(self).raw_word() & 0xfffff0ffu32) | (((val as u32) & 0xfu32) << 8u32),
            final(self)@ == (UnitsView { scale_count: signed_field_of(val), ..old(self)@ }),
    {
        let ob = self.bits;
        let v: u32 = (#[verifier::truncate] (val as u32)) & 0xf;
        let nb = (ob & 0xfffff0ffu32) | (v << 8u32);
        assert(nibble(nb, 8) == v && nibble(nb, 28) == nibble(ob, 28) && nibble(nb, 24) == nibble(ob, 24) && nibble(nb, 20) == nibble(ob, 20) && nibble(nb, 16) == nibble(ob, 16) && nibble(nb, 12) == nibble(ob, 12) && nb & 0xffu32 == ob & 0xffu32) by (bit_vector)
            requires
                v == (val as u32) & 0xfu32,
                nb == (ob & 0xfffff0ffu32) | (v << 8u32),
        ;
        self.bits = nb;
    }
}

} // verus!
