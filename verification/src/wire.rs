//! Little-endian integers and raw bytes at the head of a byte string.
//!
//! Every reader takes the input that is left and returns the value together
//! with the number of bytes it took. All integers have a fixed width; nothing
//! carries a length prefix. A read that finds too few bytes fails with the
//! number of bytes that were missing.
use vstd::prelude::*;
use vstd::slice::slice_subrange;

verus! {

/// The types whose values are checked while decoding, each with the set of
/// values it admits.
#[derive(Copy, Clone, Debug, PartialEq, Eq)]
pub enum Allowed {
    /// An opcode of the command table.
    CommandType,
    /// An opcode of a command that the PPM itself handles.
    PpmCommand,
    /// An opcode of a command that is sent to an LPM.
    LpmCommand,
    /// An opcode of a PPM command that has response data.
    PpmResponse,
    /// An opcode of an LPM command that has response data.
    LpmResponse,
    /// A recipient of a command.
    Recipient,
    /// A Type-C current of SET_POWER_LEVEL.
    Current,
    /// A power operation mode.
    PowerOperationMode,
    /// A connector partner type.
    ConnectorPartnerType,
    /// A battery charging capability status.
    BatteryChargingCapabilityStatus,
    /// A source capability type of GET_PDOS.
    SourceCapabilityType,
}

impl Allowed {
    /// Whether the type admits `value`.
    pub open spec fn admits(self, value: u32) -> bool {
        match self {
            Allowed::CommandType => 0x01 <= value <= 0x16 || 0x18 <= value <= 0x1f || 0x21 <= value
                <= 0x22,
            Allowed::PpmCommand => value == 0x01 || value == 0x02 || 0x04 <= value <= 0x06,
            Allowed::LpmCommand => value == 0x03 || 0x07 <= value <= 0x09 || 0x0b <= value <= 0x14,
            Allowed::PpmResponse => value == 0x06,
            Allowed::LpmResponse => value == 0x03 || value == 0x07 || 0x0c <= value <= 0x0e || 0x10
                <= value <= 0x13,
            Allowed::Recipient => value <= 3,
            Allowed::Current => value <= 3,
            Allowed::PowerOperationMode => 1 <= value <= 6,
            Allowed::ConnectorPartnerType => 1 <= value <= 6,
            Allowed::BatteryChargingCapabilityStatus => value <= 3,
            Allowed::SourceCapabilityType => value <= 2,
        }
    }

    /// Tells whether the type admits `value`.
    pub fn allows(&self, value: u32) -> (admitted: bool)
        ensures
            admitted == self.admits(value),
    {
        match self {
            Allowed::CommandType => (0x01 <= value && value <= 0x16) || (0x18 <= value && value
                <= 0x1f) || (0x21 <= value && value <= 0x22),
            Allowed::PpmCommand => value == 0x01 || value == 0x02 || (0x04 <= value && value
                <= 0x06),
            Allowed::LpmCommand => value == 0x03 || (0x07 <= value && value <= 0x09) || (0x0b
                <= value && value <= 0x14),
            Allowed::PpmResponse => value == 0x06,
            Allowed::LpmResponse => value == 0x03 || value == 0x07 || (0x0c <= value && value
                <= 0x0e) || (0x10 <= value && value <= 0x13),
            Allowed::Recipient => value <= 3,
            Allowed::Current => value <= 3,
            Allowed::PowerOperationMode => 1 <= value && value <= 6,
            Allowed::ConnectorPartnerType => 1 <= value && value <= 6,
            Allowed::BatteryChargingCapabilityStatus => value <= 3,
            Allowed::SourceCapabilityType => value <= 2,
        }
    }
}

/// Why a byte string could not be decoded.
#[derive(Copy, Clone, Debug, PartialEq, Eq)]
pub enum DecodeError {
    /// The input ended `additional` bytes before the end of the value being read.
    UnexpectedEnd { additional: usize },
    /// A field held `found`, which its type does not admit.
    UnexpectedVariant { allowed: Allowed, found: u32 },
}

/// Why a value could not be encoded.
#[derive(Copy, Clone, Debug, PartialEq, Eq)]
pub enum EncodeError {
    /// The output buffer is shorter than the encoding.
    UnexpectedEnd,
}

/// The error of a read of `needed` bytes from an input that is shorter.
pub open spec fn short_by(bytes: Seq<u8>, needed: usize) -> DecodeError {
    DecodeError::UnexpectedEnd { additional: (needed - bytes.len()) as usize }
}

/// The 16-bit number whose little-endian bytes lead `bytes`.
pub open spec fn u16_of(bytes: Seq<u8>) -> u16 {
    (bytes[0] as u16) | ((bytes[1] as u16) << 8)
}

/// The 32-bit number whose little-endian bytes lead `bytes`.
pub open spec fn u32_of(bytes: Seq<u8>) -> u32 {
    (bytes[0] as u32) | ((bytes[1] as u32) << 8) | ((bytes[2] as u32) << 16) | ((bytes[3] as u32)
        << 24)
}

/// The two little-endian bytes of `value`.
pub open spec fn bytes_of_u16(value: u16) -> Seq<u8> {
    seq![(value & 0xff) as u8, (value >> 8) as u8]
}

/// The four little-endian bytes of `value`.
pub open spec fn bytes_of_u32(value: u32) -> Seq<u8> {
    seq![
        (value & 0xff) as u8,
        ((value >> 8) & 0xff) as u8,
        ((value >> 16) & 0xff) as u8,
        (value >> 24) as u8,
    ]
}

/// The little-endian bytes of each of `words`, one word after the other.
pub open spec fn bytes_of_u32s(words: Seq<u32>) -> Seq<u8>
    decreases words.len(),
{
    if words.len() == 0 {
        Seq::<u8>::empty()
    } else {
        bytes_of_u32s(words.drop_last()) + bytes_of_u32(words.last())
    }
}

/// `count` zero bytes.
pub open spec fn zeros(count: nat) -> Seq<u8> {
    Seq::new(count, |i: int| 0u8)
}

/// What reading one byte yields.
pub open spec fn reading_u8(bytes: Seq<u8>) -> Result<(u8, usize), DecodeError> {
    if bytes.len() < 1 {
        Err(short_by(bytes, 1))
    } else {
        Ok((bytes[0], 1usize))
    }
}

/// What reading a 16-bit integer yields.
pub open spec fn reading_u16(bytes: Seq<u8>) -> Result<(u16, usize), DecodeError> {
    if bytes.len() < 2 {
        Err(short_by(bytes, 2))
    } else {
        Ok((u16_of(bytes), 2usize))
    }
}

/// What reading a 32-bit integer yields.
pub open spec fn reading_u32(bytes: Seq<u8>) -> Result<(u32, usize), DecodeError> {
    if bytes.len() < 4 {
        Err(short_by(bytes, 4))
    } else {
        Ok((u32_of(bytes), 4usize))
    }
}

/// What reading `count` raw bytes yields.
pub open spec fn reading_bytes(bytes: Seq<u8>, count: usize) -> Result<
    (Seq<u8>, usize),
    DecodeError,
> {
    if bytes.len() < count {
        Err(short_by(bytes, count))
    } else {
        Ok((bytes.take(count as int), count))
    }
}

/// The array whose first `filled` elements are the first of `bytes` and whose
/// other elements are zero.
pub open spec fn array_filled<const N: usize>(bytes: Seq<u8>, filled: nat) -> [u8; N]
    decreases filled,
{
    if filled == 0 {
        vstd::array::spec_array_fill_for_copy_type::<u8, N>(0u8)
    } else {
        vstd::array::spec_array_update(
            array_filled::<N>(bytes, (filled - 1) as nat),
            filled - 1,
            bytes[filled - 1],
        )
    }
}

/// The array of the `N` bytes that lead `bytes`.
pub open spec fn array_of<const N: usize>(bytes: Seq<u8>) -> [u8; N] {
    array_filled::<N>(bytes, N as nat)
}

/// What reading `N` raw bytes into an array yields.
pub open spec fn reading_array<const N: usize>(bytes: Seq<u8>) -> Result<
    ([u8; N], usize),
    DecodeError,
> {
    if bytes.len() < N {
        Err(short_by(bytes, N))
    } else {
        Ok((array_of::<N>(bytes), N))
    }
}

/// The input that is left after `taken` bytes.
pub fn rest(bytes: &[u8], taken: usize) -> (left: &[u8])
    requires
        taken <= bytes@.len(),
    ensures
        left@ == bytes@.skip(taken as int),
{
    slice_subrange(bytes, taken, bytes.len())
}

/// Reads one byte.
pub fn read_u8(bytes: &[u8]) -> (read: Result<(u8, usize), DecodeError>)
    ensures
        read == reading_u8(bytes@),
{
    if bytes.len() < 1 {
        Err(DecodeError::UnexpectedEnd { additional: 1 - bytes.len() })
    } else {
        Ok((bytes[0], 1))
    }
}

/// Reads a 16-bit little-endian integer.
pub fn read_u16(bytes: &[u8]) -> (read: Result<(u16, usize), DecodeError>)
    ensures
        read == reading_u16(bytes@),
{
    if bytes.len() < 2 {
        Err(DecodeError::UnexpectedEnd { additional: 2 - bytes.len() })
    } else {
        Ok(((bytes[0] as u16) | ((bytes[1] as u16) << 8), 2))
    }
}

/// Reads a 32-bit little-endian integer.
pub fn read_u32(bytes: &[u8]) -> (read: Result<(u32, usize), DecodeError>)
    ensures
        read == reading_u32(bytes@),
{
    if bytes.len() < 4 {
        Err(DecodeError::UnexpectedEnd { additional: 4 - bytes.len() })
    } else {
        Ok(
            (
                (bytes[0] as u32) | ((bytes[1] as u32) << 8) | ((bytes[2] as u32) << 16) | ((
                bytes[3] as u32) << 24),
                4,
            ),
        )
    }
}

/// Reads `N` raw bytes.
pub fn read_array<const N: usize>(bytes: &[u8]) -> (read: Result<([u8; N], usize), DecodeError>)
    ensures
        read == reading_array::<N>(bytes@),
{
    if bytes.len() < N {
        return Err(DecodeError::UnexpectedEnd { additional: N - bytes.len() });
    }
    let mut array = [0u8; N];
    let mut index: usize = 0;
    while index < N
        invariant
            index <= N <= bytes@.len(),
            forall|i: int| 0 <= i < index ==> array@[i] == bytes@[i],
        decreases N - index,
    {
        array[index] = bytes[index];
        index = index + 1;
    }
    proof {
        array_of_holds::<N>(bytes@, array);
        assert(array@ =~= bytes@.take(N as int));
        assert(array =~= array_of::<N>(bytes@));
    }
    Ok((array, N))
}

/// Reads over `count` bytes of padding, whatever they hold.
pub fn read_padding(bytes: &[u8], count: usize) -> (read: Result<usize, DecodeError>)
    ensures
        match reading_bytes(bytes@, count) {
            Ok((_, taken)) => read == Ok::<usize, DecodeError>(taken),
            Err(error) => read == Err::<usize, DecodeError>(error),
        },
{
    if bytes.len() < count {
        Err(DecodeError::UnexpectedEnd { additional: count - bytes.len() })
    } else {
        Ok(count)
    }
}

/// Appends one byte.
pub fn write_u8(out: &mut Vec<u8>, value: u8)
    ensures
        final(out)@ == old(out)@.push(value),
{
    out.push(value);
}

/// Appends a 16-bit integer, low byte first.
pub fn write_u16(out: &mut Vec<u8>, value: u16)
    ensures
        final(out)@ == old(out)@ + bytes_of_u16(value),
{
    out.push((value & 0xff) as u8);
    out.push((value >> 8) as u8);
    assert(out@ =~= old(out)@ + bytes_of_u16(value));
}

/// Appends a 32-bit integer, low byte first.
pub fn write_u32(out: &mut Vec<u8>, value: u32)
    ensures
        final(out)@ == old(out)@ + bytes_of_u32(value),
{
    out.push((value & 0xff) as u8);
    out.push(((value >> 8) & 0xff) as u8);
    out.push(((value >> 16) & 0xff) as u8);
    out.push((value >> 24) as u8);
    assert(out@ =~= old(out)@ + bytes_of_u32(value));
}

/// Appends raw bytes.
pub fn write_bytes(out: &mut Vec<u8>, bytes: &[u8])
    ensures
        final(out)@ == old(out)@ + bytes@,
{
    let mut index: usize = 0;
    while index < bytes.len()
        invariant
            index <= bytes@.len(),
            out@ == old(out)@ + bytes@.take(index as int),
        decreases bytes@.len() - index,
    {
        out.push(bytes[index]);
        index = index + 1;
        assert(out@ =~= old(out)@ + bytes@.take(index as int));
    }
    assert(bytes@.take(bytes@.len() as int) =~= bytes@);
}

/// Appends `count` zero bytes of padding.
pub fn write_padding(out: &mut Vec<u8>, count: usize)
    ensures
        final(out)@ == old(out)@ + zeros(count as nat),
{
    let mut index: usize = 0;
    while index < count
        invariant
            index <= count,
            out@ == old(out)@ + zeros(index as nat),
        decreases count - index,
    {
        out.push(0);
        index = index + 1;
        assert(out@ =~= old(out)@ + zeros(index as nat));
    }
}

/// Copies `bytes` to the head of `out` if they fit there; leaves `out` as it
/// is if they do not.
pub fn copy_to_head(out: &mut [u8], bytes: &[u8]) -> (written: Result<usize, EncodeError>)
    ensures
        final(out)@.len() == old(out)@.len(),
        bytes@.len() <= old(out)@.len() ==> written == Ok::<usize, EncodeError>(
            bytes@.len() as usize,
        ) && final(out)@ == bytes@ + old(out)@.skip(bytes@.len() as int),
        bytes@.len() > old(out)@.len() ==> written == Err::<usize, EncodeError>(
            EncodeError::UnexpectedEnd,
        ) && final(out)@ == old(out)@,
{
    if bytes.len() > out.len() {
        return Err(EncodeError::UnexpectedEnd);
    }
    let mut index: usize = 0;
    while index < bytes.len()
        invariant
            index <= bytes@.len() <= out@.len(),
            out@.len() == old(out)@.len(),
            out@ == bytes@.take(index as int) + old(out)@.skip(index as int),
        decreases bytes@.len() - index,
    {
        out[index] = bytes[index];
        index = index + 1;
        assert(out@ =~= bytes@.take(index as int) + old(out)@.skip(index as int));
    }
    assert(bytes@.take(bytes@.len() as int) =~= bytes@);
    Ok(bytes.len())
}

/// The bytes of words are four for each word.
pub proof fn len_of_bytes_of_u32s(words: Seq<u32>)
    ensures
        bytes_of_u32s(words).len() == 4 * words.len(),
    decreases words.len(),
{
    if words.len() > 0 {
        len_of_bytes_of_u32s(words.drop_last());
    }
}

/// Each of several words is read back from its place in their bytes,
/// whatever follows them.
pub proof fn u32s_of_their_bytes(words: Seq<u32>, tail: Seq<u8>, index: int)
    requires
        0 <= index < words.len(),
    ensures
        u32_of((bytes_of_u32s(words) + tail).skip(4 * index)) == words[index],
    decreases words.len(),
{
    let first = words.drop_last();
    let last = words.last();
    let bytes = bytes_of_u32s(words) + tail;
    len_of_bytes_of_u32s(first);
    if index == words.len() - 1 {
        assert(bytes.skip(4 * index) =~= bytes_of_u32(last) + tail);
        u32_of_its_bytes(last, tail);
    } else {
        assert(bytes =~= bytes_of_u32s(first) + (bytes_of_u32(last) + tail));
        u32s_of_their_bytes(first, bytes_of_u32(last) + tail, index);
    }
}

/// Zero words are zero bytes: after the words that lead them, zero words
/// add the same bytes as padding.
pub proof fn bytes_of_zero_words(words: Seq<u32>, count: int)
    requires
        0 <= count <= words.len(),
        forall|index: int| count <= index < words.len() ==> words[index] == 0,
    ensures
        bytes_of_u32s(words) == bytes_of_u32s(words.take(count)) + zeros(
            (4 * (words.len() - count)) as nat,
        ),
    decreases words.len() - count,
{
    if count == words.len() {
        assert(words.take(count) =~= words);
        assert(bytes_of_u32s(words) =~= bytes_of_u32s(words) + zeros(0));
    } else {
        let first = words.drop_last();
        bytes_of_zero_words(first, count);
        assert(first.take(count) =~= words.take(count));
        assert(0u32 & 0xff == 0 && (0u32 >> 8) & 0xff == 0 && (0u32 >> 16) & 0xff == 0 && 0u32
            >> 24 == 0) by (bit_vector);
        assert(bytes_of_u32(0) =~= zeros(4));
        assert(zeros((4 * (first.len() - count)) as nat) + zeros(4) =~= zeros(
            (4 * (words.len() - count)) as nat,
        ));
        assert(bytes_of_u32s(words) =~= bytes_of_u32s(words.take(count)) + zeros(
            (4 * (words.len() - count)) as nat,
        ));
    }
}

/// A 16-bit integer is read back from its bytes, whatever follows them.
pub proof fn u16_of_its_bytes(value: u16, tail: Seq<u8>)
    ensures
        u16_of(bytes_of_u16(value) + tail) == value,
        reading_u16(bytes_of_u16(value) + tail) == Ok::<(u16, usize), DecodeError>((value, 2usize)),
        (bytes_of_u16(value) + tail).skip(2) == tail,
{
    let low = (value & 0xff) as u8;
    let high = (value >> 8) as u8;
    assert((low as u16) | ((high as u16) << 8) == value) by (bit_vector)
        requires
            low == (value & 0xff) as u8,
            high == (value >> 8) as u8,
    ;
    assert((bytes_of_u16(value) + tail).skip(2) =~= tail);
}

/// A 32-bit integer is read back from its bytes, whatever follows them.
pub proof fn u32_of_its_bytes(value: u32, tail: Seq<u8>)
    ensures
        u32_of(bytes_of_u32(value) + tail) == value,
        reading_u32(bytes_of_u32(value) + tail) == Ok::<(u32, usize), DecodeError>((value, 4usize)),
        (bytes_of_u32(value) + tail).skip(4) == tail,
{
    let b0 = (value & 0xff) as u8;
    let b1 = ((value >> 8) & 0xff) as u8;
    let b2 = ((value >> 16) & 0xff) as u8;
    let b3 = (value >> 24) as u8;
    assert((b0 as u32) | ((b1 as u32) << 8) | ((b2 as u32) << 16) | ((b3 as u32) << 24) == value)
        by (bit_vector)
        requires
            b0 == (value & 0xff) as u8,
            b1 == ((value >> 8) & 0xff) as u8,
            b2 == ((value >> 16) & 0xff) as u8,
            b3 == (value >> 24) as u8,
    ;
    assert((bytes_of_u32(value) + tail).skip(4) =~= tail);
}


proof fn array_filled_holds<const N: usize>(bytes: Seq<u8>, filled: nat)
    requires
        filled <= N,
    ensures
        array_filled::<N>(bytes, filled)@.len() == N,
        forall|i: int| 0 <= i < filled ==> array_filled::<N>(bytes, filled)@[i] == bytes[i],
    decreases filled,
{
    broadcast use vstd::array::group_array_axioms;

    if filled > 0 {
        array_filled_holds::<N>(bytes, (filled - 1) as nat);
    }
}

/// The array of the bytes that lead a string holds those bytes, and an array
/// is the array of its own bytes.
pub proof fn array_of_holds<const N: usize>(bytes: Seq<u8>, array: [u8; N])
    ensures
        bytes.len() >= N ==> array_of::<N>(bytes)@ == bytes.take(N as int),
        array_of::<N>(array@) == array,
        forall|tail: Seq<u8>| array_of::<N>(#[trigger] (array@ + tail)) == array,
{
    broadcast use vstd::array::group_array_axioms;

    array_filled_holds::<N>(bytes, N as nat);
    if bytes.len() >= N {
        assert(array_of::<N>(bytes)@ =~= bytes.take(N as int));
    }
    array_filled_holds::<N>(array@, N as nat);
    assert(array_of::<N>(array@) =~= array);
    assert forall|tail: Seq<u8>| array_of::<N>(#[trigger] (array@ + tail)) == array by {
        array_filled_holds::<N>(array@ + tail, N as nat);
        assert forall|i: int| 0 <= i < N implies array_of::<N>(array@ + tail)@[i] == array@[i] by {
            assert((array@ + tail)[i] == array@[i]);
        }
        assert(array_of::<N>(array@ + tail) =~= array);
    }
}

} // verus!
