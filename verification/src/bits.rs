//! Bit fields of a register word.
//!
//! A register is modelled as a `u32`; narrower registers are widened first.
//! A field is a run of `width` bits that starts at bit `lsb`, a flag is a
//! single bit. The laws at the end of the file say that writing a field is
//! seen by a later read of that field and by no read of another one.
use vstd::arithmetic::power2::lemma2_to64;
use vstd::arithmetic::power2::pow2;
use vstd::prelude::*;

verus! {

/// The word whose `width` lowest bits are set.
pub open spec fn low_mask(width: u32) -> u32 {
    if width >= 32 {
        0xffff_ffffu32
    } else {
        ((1u32 << width) - 1) as u32
    }
}

/// The value held in the `width` bits of `raw` that start at bit `lsb`.
pub open spec fn field(raw: u32, lsb: u32, width: u32) -> u32 {
    (raw >> lsb) & low_mask(width)
}

/// `raw` with the `width` bits that start at bit `lsb` replaced by the low
/// bits of `value`.
pub open spec fn with_field(raw: u32, lsb: u32, width: u32, value: u32) -> u32 {
    (raw & !(low_mask(width) << lsb)) | ((value & low_mask(width)) << lsb)
}

/// Whether bit `index` of `raw` is set.
pub open spec fn flag(raw: u32, index: u32) -> bool {
    (raw >> index) & 1 == 1
}

/// `raw` with bit `index` set or cleared.
pub open spec fn with_flag(raw: u32, index: u32, on: bool) -> u32 {
    if on {
        raw | (1u32 << index)
    } else {
        raw & !(1u32 << index)
    }
}

/// Whether the field at `lsb` of `width` bits lies inside a register of `size` bits.
pub open spec fn in_register(lsb: u32, width: u32, size: u32) -> bool {
    1 <= width && lsb + width <= size
}

/// Whether two fields share no bit.
pub open spec fn apart(lsb_a: u32, width_a: u32, lsb_b: u32, width_b: u32) -> bool {
    lsb_a + width_a <= lsb_b || lsb_b + width_b <= lsb_a
}

proof fn mask_matches(width: u32, mask: u32)
    by (bit_vector)
    requires
        1 <= width < 32,
        mask == (1u32 << width) - 1,
    ensures
        mask == low_mask(width),
{
}

/// Reads a flag.
pub fn get_flag(raw: u32, index: u32) -> (on: bool)
    requires
        index < 32,
    ensures
        on == flag(raw, index),
{
    (raw >> index) & 1 == 1
}

/// Writes a flag.
pub fn set_flag(raw: u32, index: u32, on: bool) -> (word: u32)
    requires
        index < 32,
    ensures
        word == with_flag(raw, index, on),
{
    if on {
        raw | (1u32 << index)
    } else {
        raw & !(1u32 << index)
    }
}

/// Builds the mask of a field's width.
fn mask_of(width: u32) -> (mask: u32)
    requires
        1 <= width <= 32,
    ensures
        mask == low_mask(width),
{
    if width >= 32 {
        0xffff_ffffu32
    } else {
        assert(1u32 << width >= 1) by (bit_vector)
            requires
                width < 32,
        ;
        let mask: u32 = (1u32 << width) - 1;
        proof {
            mask_matches(width, mask);
        }
        mask
    }
}

/// Reads a field.
pub fn get_field(raw: u32, lsb: u32, width: u32) -> (value: u32)
    requires
        in_register(lsb, width, 32),
    ensures
        value == field(raw, lsb, width),
{
    (raw >> lsb) & mask_of(width)
}

/// Writes a field; bits of `value` beyond the field's width are dropped.
pub fn set_field(raw: u32, lsb: u32, width: u32, value: u32) -> (word: u32)
    requires
        in_register(lsb, width, 32),
    ensures
        word == with_field(raw, lsb, width, value),
{
    let mask = mask_of(width);
    (raw & !(mask << lsb)) | ((value & mask) << lsb)
}

proof fn field_is_narrow(raw: u32, lsb: u32, width: u32)
    by (bit_vector)
    requires
        in_register(lsb, width, 32),
    ensures
        width <= 8 ==> field(raw, lsb, width) <= 0xff,
        width <= 16 ==> field(raw, lsb, width) <= 0xffff,
{
}

proof fn writes_stay_narrow(raw: u32, lsb: u32, width: u32, value: u32, on: bool, size: u32)
    by (bit_vector)
    requires
        size == 8 || size == 16,
        in_register(lsb, width, size),
        raw >> size == 0,
    ensures
        with_field(raw, lsb, width, value) >> size == 0,
        with_flag(raw, lsb, on) >> size == 0,
{
}

proof fn narrow_means_small(word: u32)
    by (bit_vector)
    ensures
        word >> 8u32 == 0 <==> word <= 0xff,
        word >> 16u32 == 0 <==> word <= 0xffff,
{
}

/// Reads a field of at most eight bits.
pub fn get_field_u8(raw: u32, lsb: u32, width: u32) -> (value: u8)
    requires
        in_register(lsb, width, 32),
        width <= 8,
    ensures
        value == field(raw, lsb, width),
{
    proof {
        field_is_narrow(raw, lsb, width);
    }
    get_field(raw, lsb, width) as u8
}

/// Reads a field of at most sixteen bits.
pub fn get_field_u16(raw: u32, lsb: u32, width: u32) -> (value: u16)
    requires
        in_register(lsb, width, 32),
        width <= 16,
    ensures
        value == field(raw, lsb, width),
{
    proof {
        field_is_narrow(raw, lsb, width);
    }
    get_field(raw, lsb, width) as u16
}

/// Writes a flag of an eight-bit register.
pub fn set_flag_u8(raw: u8, index: u32, on: bool) -> (word: u8)
    requires
        index < 8,
    ensures
        word == with_flag(raw as u32, index, on),
{
    proof {
        narrow_means_small(raw as u32);
        writes_stay_narrow(raw as u32, index, 1, 0, on, 8);
        narrow_means_small(with_flag(raw as u32, index, on));
    }
    set_flag(raw as u32, index, on) as u8
}

/// Writes a flag of a sixteen-bit register.
pub fn set_flag_u16(raw: u16, index: u32, on: bool) -> (word: u16)
    requires
        index < 16,
    ensures
        word == with_flag(raw as u32, index, on),
{
    proof {
        narrow_means_small(raw as u32);
        writes_stay_narrow(raw as u32, index, 1, 0, on, 16);
        narrow_means_small(with_flag(raw as u32, index, on));
    }
    set_flag(raw as u32, index, on) as u16
}

/// Writes a field of an eight-bit register.
pub fn set_field_u8(raw: u8, lsb: u32, width: u32, value: u32) -> (word: u8)
    requires
        in_register(lsb, width, 8),
    ensures
        word == with_field(raw as u32, lsb, width, value),
{
    proof {
        narrow_means_small(raw as u32);
        writes_stay_narrow(raw as u32, lsb, width, value, false, 8);
        narrow_means_small(with_field(raw as u32, lsb, width, value));
    }
    set_field(raw as u32, lsb, width, value) as u8
}

/// Writes a field of a sixteen-bit register.
pub fn set_field_u16(raw: u16, lsb: u32, width: u32, value: u32) -> (word: u16)
    requires
        in_register(lsb, width, 16),
    ensures
        word == with_field(raw as u32, lsb, width, value),
{
    proof {
        narrow_means_small(raw as u32);
        writes_stay_narrow(raw as u32, lsb, width, value, false, 16);
        narrow_means_small(with_field(raw as u32, lsb, width, value));
    }
    set_field(raw as u32, lsb, width, value) as u16
}

/// In arithmetic, a field is a remainder of a quotient: the register over
/// two to the field's lowest bit, modulo two to the field's width.
pub proof fn field_in_arithmetic(raw: u32, lsb: u32, width: u32)
    requires
        in_register(lsb, width, 32),
    ensures
        field(raw, lsb, width) == (raw as nat / pow2(lsb as nat)) % pow2(width as nat),
{
    let shifted = raw >> lsb;
    vstd::bits::lemma_u32_shr_is_div(raw, lsb);
    assert(shifted == raw as nat / pow2(lsb as nat));
    if width < 32 {
        vstd::bits::lemma_u32_pow2_no_overflow(width as nat);
        vstd::arithmetic::power2::lemma_pow2_pos(width as nat);
        vstd::bits::lemma_u32_shl_is_mul(1, width);
        assert(1u32 << width == pow2(width as nat));
        assert(low_mask(width) == vstd::bits::low_bits_mask(width as nat) as u32);
        vstd::bits::lemma_u32_low_bits_mask_is_mod(shifted, width as nat);
        assert(shifted & low_mask(width) == shifted % (pow2(width as nat) as u32));
    } else {
        lemma2_to64();
        assert(shifted & 0xffff_ffffu32 == shifted) by (bit_vector);
        assert(shifted as nat % pow2(32) == shifted as nat);
    }
}

/// A flag is the field of width one at its index.
pub proof fn flag_is_field(raw: u32, index: u32, on: bool)
    by (bit_vector)
    requires
        index < 32,
    ensures
        flag(raw, index) == (field(raw, index, 1) == 1),
        with_flag(raw, index, on) == with_field(raw, index, 1, if on { 1u32 } else { 0u32 }),
{
}

/// A field never exceeds the mask of its width.
pub proof fn field_is_bounded(raw: u32, lsb: u32, width: u32)
    by (bit_vector)
    requires
        in_register(lsb, width, 32),
    ensures
        field(raw, lsb, width) <= low_mask(width),
{
}

/// A write into a byte leaves the bits above it clear.
pub proof fn byte_writes_stay_in_byte(raw: u32, lsb: u32, width: u32, value: u32, on: bool)
    requires
        raw <= 0xff,
        in_register(lsb, width, 8),
    ensures
        with_field(raw, lsb, width, value) <= 0xff,
        with_flag(raw, lsb, on) <= 0xff,
{
    narrow_means_small(raw);
    writes_stay_narrow(raw, lsb, width, value, on, 8);
    narrow_means_small(with_field(raw, lsb, width, value));
    narrow_means_small(with_flag(raw, lsb, on));
}

/// Every field of the zero word is zero.
pub proof fn field_of_zero(lsb: u32, width: u32)
    by (bit_vector)
    requires
        in_register(lsb, width, 32),
    ensures
        field(0, lsb, width) == 0,
{
}

/// A write into a half word leaves the bits above it clear.
pub proof fn half_word_writes_stay_in_half_word(
    raw: u32,
    lsb: u32,
    width: u32,
    value: u32,
    on: bool,
)
    requires
        raw <= 0xffff,
        in_register(lsb, width, 16),
    ensures
        with_field(raw, lsb, width, value) <= 0xffff,
        with_flag(raw, lsb, on) <= 0xffff,
{
    narrow_means_small(raw);
    writes_stay_narrow(raw, lsb, width, value, on, 16);
    narrow_means_small(with_field(raw, lsb, width, value));
    narrow_means_small(with_flag(raw, lsb, on));
}

/// The masks of the widths that fields of the registers have.
pub proof fn mask_values()
    by (bit_vector)
    ensures
        low_mask(1) == 0x1,
        low_mask(2) == 0x3,
        low_mask(3) == 0x7,
        low_mask(4) == 0xf,
        low_mask(7) == 0x7f,
        low_mask(8) == 0xff,
        low_mask(9) == 0x1ff,
        low_mask(10) == 0x3ff,
        low_mask(12) == 0xfff,
        low_mask(14) == 0x3fff,
        low_mask(16) == 0xffff,
        low_mask(32) == 0xffff_ffff,
{
}

/// A value that fits a field's width is not changed by the field's mask.
pub proof fn small_value_is_kept(value: u32, width: u32)
    by (bit_vector)
    requires
        1 <= width <= 32,
        value <= low_mask(width),
    ensures
        value & low_mask(width) == value,
{
}

/// A value that fits a width is the lowest field of that width of itself.
pub proof fn low_field_of_small(value: u32, width: u32)
    by (bit_vector)
    requires
        1 <= width <= 32,
        value <= low_mask(width),
    ensures
        field(value, 0, width) == value,
{
}

/// A flag that was written reads back as written; every other flag is untouched.
pub proof fn flag_after_with_flag(raw: u32, written: u32, on: bool, read: u32)
    by (bit_vector)
    requires
        written < 32,
        read < 32,
    ensures
        flag(with_flag(raw, written, on), read) == if read == written {
            on
        } else {
            flag(raw, read)
        },
{
}

/// A field that was written reads back as the value's low `width` bits.
pub proof fn field_after_with_field(raw: u32, lsb: u32, width: u32, value: u32)
    by (bit_vector)
    requires
        in_register(lsb, width, 32),
    ensures
        field(with_field(raw, lsb, width, value), lsb, width) == value & low_mask(width),
{
}

/// Writing one field leaves every field apart from it as it was.
pub proof fn field_apart_from_with_field(
    raw: u32,
    lsb: u32,
    width: u32,
    value: u32,
    other_lsb: u32,
    other_width: u32,
)
    by (bit_vector)
    requires
        in_register(lsb, width, 32),
        in_register(other_lsb, other_width, 32),
        apart(lsb, width, other_lsb, other_width),
    ensures
        field(with_field(raw, lsb, width, value), other_lsb, other_width) == field(
            raw,
            other_lsb,
            other_width,
        ),
{
}

} // verus!
