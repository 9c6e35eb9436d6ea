//! Bit fields of a byte string.
//!
//! The bits of a byte string are numbered from the least significant bit of
//! its first byte: bit `i` is bit `i % 8` of byte `i / 8`. A field is the
//! number whose binary digits are a run of those bits, lowest first, so a
//! field may straddle bytes.
use crate::bits;
use vstd::arithmetic::power2::lemma2_to64;
use vstd::arithmetic::power2::lemma_pow2_unfold;
use vstd::arithmetic::power2::pow2;
use vstd::prelude::*;

verus! {

/// Whether bit `index` of the string is set.
pub open spec fn bit(bytes: Seq<u8>, index: int) -> bool {
    bits::flag(bytes[index / 8] as u32, (index % 8) as u32)
}

/// The string with bit `index` set or cleared.
pub open spec fn with_bit(bytes: Seq<u8>, index: int, on: bool) -> Seq<u8> {
    bytes.update(index / 8, bits::with_flag(bytes[index / 8] as u32, (index % 8) as u32, on) as u8)
}

/// The number written in the `width` bits that start at bit `lsb`.
pub open spec fn field(bytes: Seq<u8>, lsb: int, width: nat) -> nat
    decreases width,
{
    if width == 0 {
        0
    } else {
        (if bit(bytes, lsb) {
            1nat
        } else {
            0nat
        }) + 2 * field(bytes, lsb + 1, (width - 1) as nat)
    }
}

/// The string with the `width` bits that start at bit `lsb` replaced by the
/// `width` low binary digits of `value`.
pub open spec fn with_field(bytes: Seq<u8>, lsb: int, width: nat, value: nat) -> Seq<u8>
    decreases width,
{
    if width == 0 {
        bytes
    } else {
        with_field(
            with_bit(bytes, lsb, value % 2 == 1),
            lsb + 1,
            (width - 1) as nat,
            value / 2,
        )
    }
}

/// Whether the field at `lsb` of `width` bits lies inside the string.
pub open spec fn in_string(bytes: Seq<u8>, lsb: int, width: nat) -> bool {
    0 <= lsb && lsb + width <= 8 * bytes.len()
}

/// Whether two fields share no bit.
pub open spec fn apart(lsb_a: int, width_a: nat, lsb_b: int, width_b: nat) -> bool {
    lsb_a + width_a <= lsb_b || lsb_b + width_b <= lsb_a
}

/// The number that stands for a truth value in a field of one bit.
pub open spec fn bit_of(on: bool) -> u32 {
    if on {
        1
    } else {
        0
    }
}

/// One write of a layout: the field at `lsb` of `width` bits takes `value`.
#[derive(Copy, Clone, Debug, PartialEq, Eq)]
pub struct Write {
    /// Lowest bit of the field
    pub lsb: usize,
    /// Width of the field in bits
    pub width: usize,
    /// Value that the field takes
    pub value: u32,
}

/// The string after the first `count` of `writes`, one after the other.
pub open spec fn written(bytes: Seq<u8>, writes: Seq<Write>, count: nat) -> Seq<u8>
    decreases count,
{
    if count == 0 {
        bytes
    } else {
        let write = writes[count - 1];
        with_field(
            written(bytes, writes, (count - 1) as nat),
            write.lsb as int,
            write.width as nat,
            write.value as nat,
        )
    }
}

/// Whether the writes lie inside a string of `len` bytes, each field
/// beginning where the one before it ends or later.
pub open spec fn laid_out(writes: Seq<Write>, len: nat) -> bool {
    &&& forall|i: int| 0 <= i < writes.len() ==> (#[trigger] writes[i]).lsb + writes[i].width <= 8 * len
    &&& forall|i: int|
        0 <= i < writes.len() - 1 ==> (#[trigger] writes[i]).lsb + writes[i].width <= writes[i
            + 1].lsb
}

/// Writing a bit keeps the string's length.
pub proof fn with_bit_keeps_len(bytes: Seq<u8>, index: int, on: bool)
    requires
        in_string(bytes, index, 1),
    ensures
        with_bit(bytes, index, on).len() == bytes.len(),
{
}

/// A bit that was written reads back as written; every other bit is untouched.
pub proof fn bit_after_with_bit(bytes: Seq<u8>, written: int, on: bool, read: int)
    requires
        in_string(bytes, written, 1),
        in_string(bytes, read, 1),
    ensures
        bit(with_bit(bytes, written, on), read) == if read == written {
            on
        } else {
            bit(bytes, read)
        },
{
    let byte = bytes[written / 8] as u32;
    let at = (written % 8) as u32;
    let word = bits::with_flag(byte, at, on);
    assert(word <= 0xff) by (bit_vector)
        requires
            byte <= 0xff,
            at < 8,
            word == bits::with_flag(byte, at, on),
    ;
    if read / 8 == written / 8 {
        bits::flag_after_with_flag(byte, at, on, (read % 8) as u32);
    }
}

/// Writing a field keeps the string's length.
pub proof fn with_field_keeps_len(bytes: Seq<u8>, lsb: int, width: nat, value: nat)
    requires
        in_string(bytes, lsb, width),
    ensures
        with_field(bytes, lsb, width, value).len() == bytes.len(),
    decreases width,
{
    if width > 0 {
        with_field_keeps_len(
            with_bit(bytes, lsb, value % 2 == 1),
            lsb + 1,
            (width - 1) as nat,
            value / 2,
        );
    }
}

/// Writing a field changes no bit outside it.
pub proof fn bit_apart_from_with_field(
    bytes: Seq<u8>,
    lsb: int,
    width: nat,
    value: nat,
    read: int,
)
    requires
        in_string(bytes, lsb, width),
        in_string(bytes, read, 1),
        read < lsb || lsb + width <= read,
    ensures
        bit(with_field(bytes, lsb, width, value), read) == bit(bytes, read),
    decreases width,
{
    if width > 0 {
        let next = with_bit(bytes, lsb, value % 2 == 1);
        bit_after_with_bit(bytes, lsb, value % 2 == 1, read);
        bit_apart_from_with_field(next, lsb + 1, (width - 1) as nat, value / 2, read);
    }
}

/// Two strings that agree on the bits of a field agree on the field.
pub proof fn field_of_equal_bits(a: Seq<u8>, b: Seq<u8>, lsb: int, width: nat)
    requires
        forall|index: int| lsb <= index < lsb + width ==> bit(a, index) == bit(b, index),
    ensures
        field(a, lsb, width) == field(b, lsb, width),
    decreases width,
{
    if width > 0 {
        field_of_equal_bits(a, b, lsb + 1, (width - 1) as nat);
    }
}

/// A field of `width` bits is below two to the `width`.
pub proof fn field_is_bounded(bytes: Seq<u8>, lsb: int, width: nat)
    ensures
        field(bytes, lsb, width) < pow2(width),
    decreases width,
{
    if width == 0 {
        lemma2_to64();
    } else {
        field_is_bounded(bytes, lsb + 1, (width - 1) as nat);
        lemma_pow2_unfold(width);
    }
}

proof fn low_digits_split(value: nat, half: nat)
    requires
        half > 0,
    ensures
        value % (2 * half) == value % 2 + 2 * ((value / 2) % half),
{
    let q = value / 2;
    let r = value % 2;
    assert(value == 2 * q + r);
    let qq = q / half;
    let qr = q % half;
    assert(q == half * qq + qr) by {
        vstd::arithmetic::div_mod::lemma_fundamental_div_mod(q as int, half as int);
    }
    assert(value == qq * (2 * half) + (2 * qr + r)) by (nonlinear_arith)
        requires
            value == 2 * q + r,
            q == half * qq + qr,
    ;
    assert(0 <= 2 * qr + r < 2 * half);
    vstd::arithmetic::div_mod::lemma_fundamental_div_mod_converse(
        value as int,
        (2 * half) as int,
        qq as int,
        (2 * qr + r) as int,
    );
}

/// A field that was written reads back as the value's `width` low binary digits.
pub proof fn field_after_with_field(bytes: Seq<u8>, lsb: int, width: nat, value: nat)
    requires
        in_string(bytes, lsb, width),
    ensures
        field(with_field(bytes, lsb, width, value), lsb, width) == value % pow2(width),
    decreases width,
{
    if width == 0 {
        lemma2_to64();
    } else {
        let rest = (width - 1) as nat;
        let next = with_bit(bytes, lsb, value % 2 == 1);
        let written = with_field(next, lsb + 1, rest, value / 2);
        bit_after_with_bit(bytes, lsb, value % 2 == 1, lsb);
        bit_apart_from_with_field(next, lsb + 1, rest, value / 2, lsb);
        field_after_with_field(next, lsb + 1, rest, value / 2);
        lemma_pow2_unfold(width);
        vstd::arithmetic::power2::lemma_pow2_pos(rest);
        low_digits_split(value, pow2(rest));
    }
}

/// Writing one field leaves every field apart from it as it was.
pub proof fn field_apart_from_with_field(
    bytes: Seq<u8>,
    lsb: int,
    width: nat,
    value: nat,
    other_lsb: int,
    other_width: nat,
)
    requires
        in_string(bytes, lsb, width),
        in_string(bytes, other_lsb, other_width),
        apart(lsb, width, other_lsb, other_width),
    ensures
        field(with_field(bytes, lsb, width, value), other_lsb, other_width) == field(
            bytes,
            other_lsb,
            other_width,
        ),
{
    let written = with_field(bytes, lsb, width, value);
    assert forall|index: int| other_lsb <= index < other_lsb + other_width implies bit(
        written,
        index,
    ) == bit(bytes, index) by {
        bit_apart_from_with_field(bytes, lsb, width, value, index);
    }
    field_of_equal_bits(written, bytes, other_lsb, other_width);
}

/// The laws of reading after writing, for all strings and fields at once: a
/// write keeps the length, is read back from its own field, and is seen by
/// no field apart from it.
pub proof fn reads_after_writes()
    ensures
        forall|bytes: Seq<u8>, lsb: int, width: nat, value: nat|
            in_string(bytes, lsb, width) ==> (#[trigger] with_field(
                bytes,
                lsb,
                width,
                value,
            )).len() == bytes.len(),
        forall|bytes: Seq<u8>, lsb: int, width: nat, value: nat, read_lsb: int, read_width: nat|
            in_string(bytes, lsb, width) && in_string(bytes, read_lsb, read_width) ==> (
            #[trigger] field(with_field(bytes, lsb, width, value), read_lsb, read_width)) == if lsb
                == read_lsb && width == read_width {
                value % pow2(width)
            } else if apart(lsb, width, read_lsb, read_width) {
                field(bytes, read_lsb, read_width)
            } else {
                field(with_field(bytes, lsb, width, value), read_lsb, read_width)
            },
{
    assert forall|bytes: Seq<u8>, lsb: int, width: nat, value: nat|
        in_string(bytes, lsb, width) implies (#[trigger] with_field(
        bytes,
        lsb,
        width,
        value,
    )).len() == bytes.len() by {
        with_field_keeps_len(bytes, lsb, width, value);
    }
    assert forall|
        bytes: Seq<u8>,
        lsb: int,
        width: nat,
        value: nat,
        read_lsb: int,
        read_width: nat,
    |
        in_string(bytes, lsb, width) && in_string(bytes, read_lsb, read_width) implies (
    #[trigger] field(with_field(bytes, lsb, width, value), read_lsb, read_width)) == if lsb
        == read_lsb && width == read_width {
        value % pow2(width)
    } else if apart(lsb, width, read_lsb, read_width) {
        field(bytes, read_lsb, read_width)
    } else {
        field(with_field(bytes, lsb, width, value), read_lsb, read_width)
    } by {
        if lsb == read_lsb && width == read_width {
            field_after_with_field(bytes, lsb, width, value);
        } else if apart(lsb, width, read_lsb, read_width) {
            field_apart_from_with_field(bytes, lsb, width, value, read_lsb, read_width);
        }
    }
}

proof fn laid_out_in_order(writes: Seq<Write>, len: nat, first: int, second: int)
    requires
        laid_out(writes, len),
        0 <= first < second < writes.len(),
    ensures
        writes[first].lsb + writes[first].width <= writes[second].lsb,
    decreases second - first,
{
    if first + 1 < second {
        laid_out_in_order(writes, len, first, second - 1);
        assert(writes[second - 1].lsb + writes[second - 1].width <= writes[second - 1 + 1].lsb);
    } else {
        assert(writes[first].lsb + writes[first].width <= writes[first + 1].lsb);
    }
}

/// The writes of a layout keep the string's length.
pub proof fn written_keeps_len(bytes: Seq<u8>, writes: Seq<Write>, count: nat)
    requires
        laid_out(writes, bytes.len()),
        count <= writes.len(),
    ensures
        written(bytes, writes, count).len() == bytes.len(),
    decreases count,
{
    if count > 0 {
        written_keeps_len(bytes, writes, (count - 1) as nat);
        let write = writes[count - 1];
        with_field_keeps_len(
            written(bytes, writes, (count - 1) as nat),
            write.lsb as int,
            write.width as nat,
            write.value as nat,
        );
    }
}

/// Each write of a layout is read back from its field as the value's low
/// digits, whatever the other writes are.
pub proof fn read_of_written(bytes: Seq<u8>, writes: Seq<Write>, count: nat, which: int)
    requires
        laid_out(writes, bytes.len()),
        0 <= which < count <= writes.len(),
    ensures
        field(
            written(bytes, writes, count),
            writes[which].lsb as int,
            writes[which].width as nat,
        ) == writes[which].value as nat % pow2(writes[which].width as nat),
    decreases count,
{
    let before = written(bytes, writes, (count - 1) as nat);
    let last = writes[count - 1];
    let read = writes[which];
    written_keeps_len(bytes, writes, (count - 1) as nat);
    if which == count - 1 {
        field_after_with_field(before, last.lsb as int, last.width as nat, last.value as nat);
    } else {
        read_of_written(bytes, writes, (count - 1) as nat, which);
        laid_out_in_order(writes, bytes.len(), which, count - 1);
        field_apart_from_with_field(
            before,
            last.lsb as int,
            last.width as nat,
            last.value as nat,
            read.lsb as int,
            read.width as nat,
        );
    }
}

/// Every field of a string of zero bytes is zero.
pub proof fn field_of_zeros(bytes: Seq<u8>, lsb: int, width: nat)
    requires
        in_string(bytes, lsb, width),
        forall|index: int| 0 <= index < bytes.len() ==> bytes[index] == 0,
    ensures
        field(bytes, lsb, width) == 0,
    decreases width,
{
    if width > 0 {
        field_of_zeros(bytes, lsb + 1, (width - 1) as nat);
        bits::flag_is_field(0, (lsb % 8) as u32, false);
        bits::field_of_zero((lsb % 8) as u32, 1);
    }
}

/// Reads one bit.
pub fn get_bit(bytes: &[u8], index: usize) -> (on: bool)
    requires
        in_string(bytes@, index as int, 1),
    ensures
        on == bit(bytes@, index as int),
{
    bits::get_flag(bytes[index / 8] as u32, (index % 8) as u32)
}

/// Writes one bit.
pub fn set_bit(bytes: &mut [u8], index: usize, on: bool)
    requires
        in_string(old(bytes)@, index as int, 1),
    ensures
        final(bytes)@ == with_bit(old(bytes)@, index as int, on),
{
    let byte = bytes[index / 8];
    bytes[index / 8] = bits::set_flag_u8(byte, (index % 8) as u32, on);
}

/// Reads a field of at most 32 bits.
pub fn get_field(bytes: &[u8], lsb: usize, width: usize) -> (value: u32)
    requires
        in_string(bytes@, lsb as int, width as nat),
        lsb + width <= usize::MAX,
        width <= 32,
    ensures
        value == field(bytes@, lsb as int, width as nat),
{
    let mut value: u64 = 0;
    let mut index: usize = lsb + width;
    proof {
        lemma2_to64();
    }
    while index > lsb
        invariant
            lsb <= index <= lsb + width,
            width <= 32,
            in_string(bytes@, lsb as int, width as nat),
            value == field(bytes@, index as int, (lsb + width - index) as nat),
            value < pow2((lsb + width - index) as nat),
        decreases index - lsb,
    {
        index = index - 1;
        proof {
            let count = (lsb + width - index) as nat;
            lemma_pow2_unfold(count);
            vstd::arithmetic::power2::lemma_pow2_strictly_increases((count - 1) as nat, 33);
            lemma2_to64();
            assert(pow2(33) == 0x2_0000_0000) by {
                lemma_pow2_unfold(33);
            }
        }
        value = 2 * value + if get_bit(bytes, index) {
            1
        } else {
            0
        };
    }
    proof {
        if width < 32 {
            vstd::arithmetic::power2::lemma_pow2_strictly_increases(width as nat, 32);
        }
    }
    value as u32
}

/// Reads a field of at most eight bits.
pub fn get_field_u8(bytes: &[u8], lsb: usize, width: usize) -> (value: u8)
    requires
        in_string(bytes@, lsb as int, width as nat),
        lsb + width <= usize::MAX,
        width <= 8,
    ensures
        value == field(bytes@, lsb as int, width as nat),
{
    proof {
        field_is_bounded(bytes@, lsb as int, width as nat);
        lemma2_to64();
        if width < 8 {
            vstd::arithmetic::power2::lemma_pow2_strictly_increases(width as nat, 8);
        }
    }
    get_field(bytes, lsb, width) as u8
}

/// Reads a field of at most sixteen bits.
pub fn get_field_u16(bytes: &[u8], lsb: usize, width: usize) -> (value: u16)
    requires
        in_string(bytes@, lsb as int, width as nat),
        lsb + width <= usize::MAX,
        width <= 16,
    ensures
        value == field(bytes@, lsb as int, width as nat),
{
    proof {
        field_is_bounded(bytes@, lsb as int, width as nat);
        lemma2_to64();
        if width < 16 {
            vstd::arithmetic::power2::lemma_pow2_strictly_increases(width as nat, 16);
        }
    }
    get_field(bytes, lsb, width) as u16
}

/// Reads a flag: a field of one bit.
pub fn get_flag(bytes: &[u8], index: usize) -> (on: bool)
    requires
        in_string(bytes@, index as int, 1),
    ensures
        on == (field(bytes@, index as int, 1) == 1),
{
    assert(field(bytes@, index + 1, 0) == 0);
    get_bit(bytes, index)
}

/// Writes a flag: a field of one bit.
pub fn set_flag(bytes: &mut [u8], index: usize, on: bool)
    requires
        in_string(old(bytes)@, index as int, 1),
    ensures
        final(bytes)@ == with_field(old(bytes)@, index as int, 1, bit_of(on) as nat),
{
    assert(with_field(with_bit(bytes@, index as int, on), index + 1, 0, 0) == with_bit(
        bytes@,
        index as int,
        on,
    ));
    set_bit(bytes, index, on);
}

/// Gives the number that stands for a truth value in a field of one bit.
pub fn bit_value(on: bool) -> (bit: u32)
    ensures
        bit == bit_of(on),
{
    if on {
        1
    } else {
        0
    }
}

/// Performs the writes of a layout, one after the other.
pub fn write_all(bytes: &mut [u8], writes: &[Write])
    requires
        laid_out(writes@, old(bytes)@.len()),
        8 * old(bytes)@.len() <= usize::MAX,
    ensures
        final(bytes)@ == written(old(bytes)@, writes@, writes@.len()),
{
    let mut index: usize = 0;
    while index < writes.len()
        invariant
            index <= writes@.len(),
            laid_out(writes@, old(bytes)@.len()),
            8 * old(bytes)@.len() <= usize::MAX,
            bytes@.len() == old(bytes)@.len(),
            bytes@ == written(old(bytes)@, writes@, index as nat),
        decreases writes@.len() - index,
    {
        let write = writes[index];
        proof {
            assert(writes@[index as int].lsb + writes@[index as int].width <= 8 * bytes@.len());
            with_field_keeps_len(
                bytes@,
                write.lsb as int,
                write.width as nat,
                write.value as nat,
            );
        }
        set_field(bytes, write.lsb, write.width, write.value);
        index = index + 1;
    }
}

/// Writes a field; binary digits of `value` beyond the field's width are dropped.
pub fn set_field(bytes: &mut [u8], lsb: usize, width: usize, value: u32)
    requires
        in_string(old(bytes)@, lsb as int, width as nat),
        lsb + width <= usize::MAX,
    ensures
        final(bytes)@ == with_field(old(bytes)@, lsb as int, width as nat, value as nat),
{
    let mut rest: u32 = value;
    let mut index: usize = lsb;
    while index < lsb + width
        invariant
            lsb <= index <= lsb + width <= usize::MAX,
            bytes@.len() == old(bytes)@.len(),
            in_string(bytes@, lsb as int, width as nat),
            with_field(bytes@, index as int, (lsb + width - index) as nat, rest as nat)
                == with_field(old(bytes)@, lsb as int, width as nat, value as nat),
        decreases lsb + width - index,
    {
        proof {
            with_bit_keeps_len(bytes@, index as int, rest % 2 == 1);
        }
        set_bit(bytes, index, rest % 2 == 1);
        rest = rest / 2;
        index = index + 1;
    }
}

} // verus!
