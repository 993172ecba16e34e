use vstd::prelude::*;

verus! {

pub type Byte = u8;

pub type Half = u16;

pub type Word = u32;

/// `contents` cut or zero-filled to exactly `n` bytes.
pub open spec fn padded(contents: Seq<u8>, n: nat) -> Seq<u8> {
    Seq::new(
        n,
        |i: int|
            if i < contents.len() {
                contents[i]
            } else {
                0u8
            },
    )
}

/// The number that the first four bytes of `b` spell, most significant byte first.
pub open spec fn word_value(b: Seq<u8>) -> int {
    b[0] * 0x100_0000 + b[1] * 0x1_0000 + b[2] * 0x100 + b[3]
}

/// The number that the first two bytes of `b` spell, most significant byte first.
pub open spec fn half_value(b: Seq<u8>) -> int {
    b[0] * 0x100 + b[1]
}

/// The four bytes of `w`, most significant first.
pub open spec fn word_bytes(w: u32) -> Seq<u8> {
    seq![
        (w / 0x100_0000) as u8,
        (w / 0x1_0000 % 0x100) as u8,
        (w / 0x100 % 0x100) as u8,
        (w % 0x100) as u8,
    ]
}

/// The two low bytes of `w`, most significant first.
pub open spec fn half_bytes(w: u32) -> Seq<u8> {
    seq![(w / 0x100 % 0x100) as u8, (w % 0x100) as u8]
}

/// The low byte of `w`.
pub open spec fn byte_bytes(w: u32) -> Seq<u8> {
    seq![(w % 0x100) as u8]
}

/// Two to the power `bits`, for the three widths of the machine.
pub open spec fn width_modulus(bits: u32) -> int {
    if bits == 8 {
        0x100
    } else if bits == 16 {
        0x1_0000
    } else {
        0x1_0000_0000
    }
}

/// The two's complement negation of `n`, kept to its low `bits` bits.
pub open spec fn negated(n: u32, bits: u32) -> int {
    (0x1_0000_0000 - n) % width_modulus(bits)
}

/// Converts a slice of bytes into an array of exactly `N` bytes: unused
/// positions are filled with 0, and a longer slice is truncated.
pub fn from_sizeN<const N: usize>(contents: &[u8]) -> (res: [u8; N])
    ensures
        res@ == padded(contents@, N as nat),
{
    let mut res: [u8; N] = [0u8; N];
    let mut i: usize = 0;
    while i < N && i < contents.len()
        invariant
            i <= N,
            i <= contents@.len(),
            forall|j: int| 0 <= j < i ==> res@[j] == contents@[j],
            forall|j: int| i <= j < N ==> res@[j] == 0u8,
        decreases N - i,
    {
        res[i] = contents[i];
        i += 1;
    }
    assert(res@ =~= padded(contents@, N as nat));
    res
}

/// Reads a big-endian word: `[x, y, z, t]` becomes `0xxxyyzztt`.
pub fn from_word(contents: &[u8]) -> (word: u32)
    requires
        contents@.len() >= 4,
    ensures
        word == word_value(contents@),
{
    let b0: u32 = contents[0] as u32;
    let b1: u32 = contents[1] as u32;
    let b2: u32 = contents[2] as u32;
    let b3: u32 = contents[3] as u32;
    assert((b3 | (b2 << 8) | (b1 << 16) | (b0 << 24)) == b0 * 0x100_0000 + b1 * 0x1_0000 + b2
        * 0x100 + b3) by (bit_vector)
        requires
            b0 < 256,
            b1 < 256,
            b2 < 256,
            b3 < 256,
    ;
    b3 | (b2 << 8) | (b1 << 16) | (b0 << 24)
}

/// Reads a big-endian halfword: `[x, y]` becomes `0x0000xxyy`.
pub fn from_half(contents: &[u8]) -> (word: u32)
    requires
        contents@.len() >= 2,
    ensures
        word == half_value(contents@),
{
    let b0: u32 = contents[0] as u32;
    let b1: u32 = contents[1] as u32;
    assert((b1 | (b0 << 8)) == b0 * 0x100 + b1) by (bit_vector)
        requires
            b0 < 256,
            b1 < 256,
    ;
    b1 | (b0 << 8)
}

/// Widens a single byte: `[x]` becomes `0x000000xx`.
pub fn from_byte(contents: &[u8]) -> (word: u32)
    requires
        contents@.len() >= 1,
    ensures
        word == contents@[0],
{
    contents[0] as u32
}

/// The four bytes of `w` in memory order.
pub fn to_word_bytes(w: u32) -> (b: [u8; 4])
    ensures
        b@ == word_bytes(w),
{
    assert((w >> 24) == w / 0x100_0000 && ((w >> 16) & 0xff) == w / 0x1_0000 % 0x100 && ((w >> 8)
        & 0xff) == w / 0x100 % 0x100 && (w & 0xff) == w % 0x100 && (w >> 24) < 0x100) by (bit_vector);
    let b: [u8; 4] = [
        (w >> 24) as u8,
        ((w >> 16) & 0xff) as u8,
        ((w >> 8) & 0xff) as u8,
        (w & 0xff) as u8,
    ];
    assert(b@ =~= word_bytes(w));
    b
}

/// The two low bytes of `w` in memory order.
pub fn to_half_bytes(w: u32) -> (b: [u8; 2])
    ensures
        b@ == half_bytes(w),
{
    assert(((w >> 8) & 0xff) == w / 0x100 % 0x100 && (w & 0xff) == w % 0x100) by (bit_vector);
    let b: [u8; 2] = [((w >> 8) & 0xff) as u8, (w & 0xff) as u8];
    assert(b@ =~= half_bytes(w));
    b
}

/// The low byte of `w`.
pub fn to_byte_bytes(w: u32) -> (b: [u8; 1])
    ensures
        b@ == byte_bytes(w),
{
    assert((w & 0xff) == w % 0x100) by (bit_vector);
    let b: [u8; 1] = [(w & 0xff) as u8];
    assert(b@ =~= byte_bytes(w));
    b
}

/// The magnitude of the negative number that `n` encodes in two's complement:
/// `n` is negated as a 32-bit value and the result is cut to `bits` bits.
pub fn to_signed(n: u32, bits: u32) -> (res: u32)
    requires
        bits == 8 || bits == 16 || bits == 32,
    ensures
        res == negated(n, bits),
{
    let neg: u32 = (!n).wrapping_add(1);
    assert(neg == (0x1_0000_0000 - n) % 0x1_0000_0000 && (neg & 0xff) == (0x1_0000_0000 - n)
        % 0x100 && (neg & 0xffff) == (0x1_0000_0000 - n) % 0x1_0000) by (bit_vector)
        requires
            neg == (!n).wrapping_add(1u32),
    ;
    if bits == 8 {
        neg & 0xff
    } else if bits == 16 {
        neg & 0xffff
    } else {
        neg
    }
}

/// `n` itself where `is_unsigned` holds, its negation in `bits` bits where it does not.
pub fn to_signed_cond(n: u32, is_unsigned: bool, bits: u32) -> (res: u32)
    requires
        bits == 8 || bits == 16 || bits == 32,
    ensures
        res == if is_unsigned {
            n as int
        } else {
            negated(n, bits)
        },
{
    if is_unsigned {
        n
    } else {
        to_signed(n, bits)
    }
}

/// Four bytes read as a word and written out again are the same four bytes.
pub proof fn lemma_word_round_trip(b: Seq<u8>)
    requires
        b.len() == 4,
    ensures
        0 <= word_value(b) <= u32::MAX,
        word_bytes(word_value(b) as u32) == b,
{
    let (b0, b1, b2, b3) = (b[0], b[1], b[2], b[3]);
    let w: u32 = (b0 * 0x100_0000 + b1 * 0x1_0000 + b2 * 0x100 + b3) as u32;
    assert(w / 0x100_0000 == b0 && w / 0x1_0000 % 0x100 == b1 && w / 0x100 % 0x100 == b2 && w
        % 0x100 == b3) by (bit_vector)
        requires
            w == b0 * 0x100_0000 + b1 * 0x1_0000 + b2 * 0x100 + b3,
    ;
    assert(word_bytes(w) =~= b);
}

/// The same for a halfword: two bytes read and written back are unchanged.
pub proof fn lemma_half_round_trip(b: Seq<u8>)
    requires
        b.len() == 2,
    ensures
        0 <= half_value(b) <= 0xffff,
        half_bytes(half_value(b) as u32) == b,
{
    assert(half_bytes(half_value(b) as u32) =~= b);
}

/// The same for a single byte.
pub proof fn lemma_byte_round_trip(b: Seq<u8>)
    requires
        b.len() == 1,
    ensures
        byte_bytes(b[0] as u32) == b,
{
    assert(byte_bytes(b[0] as u32) =~= b);
}

/// A word written out as bytes and read back is the same word.
pub proof fn lemma_bytes_round_trip(w: u32)
    ensures
        word_value(word_bytes(w)) == w,
{
}

/// For a 16-bit value with its sign bit set, `to_signed` gives the magnitude
/// of the negative number that the value encodes.
pub proof fn lemma_to_signed_magnitude(x: u32)
    requires
        0x8000 <= x <= 0xffff,
    ensures
        negated(x, 16) == 0x1_0000 - x,
        negated(x, 16) == -(x as i16) as int,
{
    assert(x as i16 == x - 0x1_0000) by (bit_vector)
        requires
            0x8000 <= x <= 0xffff,
    ;
}

} // verus!
