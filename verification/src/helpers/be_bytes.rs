//! Big-endian integer fields, as every ISO base media box stores them.
//!
//! The `be*` functions say which bytes a field of a given width holds for a
//! number; numbers that do not fit are reduced modulo the field's range, so
//! the functions are total. The `put_*` functions append such fields to a
//! buffer.

use vstd::prelude::*;

verus! {

/// The least significant byte of `n`, in two's complement where `n` is
/// negative.
#[verifier::opaque]
pub open spec fn low_byte(n: int) -> u8 {
    (n % 0x100) as u8
}

/// The two bytes of a 16-bit big-endian field holding `n` (modulo 2^16).
pub open spec fn be16(n: int) -> Seq<u8> {
    seq![low_byte(n / 0x100), low_byte(n)]
}

/// The four bytes of a 32-bit big-endian field holding `n` (modulo 2^32).
pub open spec fn be32(n: int) -> Seq<u8> {
    seq![low_byte(n / 0x100_0000), low_byte(n / 0x1_0000), low_byte(n / 0x100), low_byte(n)]
}

/// The eight bytes of a 64-bit big-endian field holding `n` (modulo 2^64).
pub open spec fn be64(n: int) -> Seq<u8> {
    be32(n / 0x1_0000_0000) + be32(n % 0x1_0000_0000)
}

/// `n` reduced to the range of a 16-bit field. A negative number comes out
/// as its two's complement.
pub open spec fn low16(n: int) -> int {
    n % 0x1_0000
}

/// `n` reduced to the range of a 32-bit field. A negative number comes out
/// as its two's complement.
pub open spec fn low32(n: int) -> int {
    n % 0x1_0000_0000
}

/// `n` reduced to the range of a 64-bit field. A negative number comes out
/// as its two's complement.
pub open spec fn low64(n: int) -> int {
    n % 0x1_0000_0000_0000_0000
}

/// The signed 32-bit number with the same low 32 bits as `n`.
pub open spec fn wrap_i32(n: int) -> int {
    let low = low32(n);
    if low >= 0x8000_0000 {
        low - 0x1_0000_0000
    } else {
        low
    }
}

/// The number that a big-endian field of any width holds.
pub open spec fn be_value(bytes: Seq<u8>) -> nat
    decreases bytes.len(),
{
    if bytes.len() == 0 {
        0
    } else {
        be_value(bytes.drop_last()) * 256 + bytes.last() as nat
    }
}

/// `count` zero bytes.
pub open spec fn zeros(count: nat) -> Seq<u8> {
    Seq::new(count, |i: int| 0u8)
}

/// Reading a 16-bit field gives back the number that was written.
pub proof fn lemma_be16_value(n: int)
    requires
        0 <= n < 0x1_0000,
    ensures
        be16(n).len() == 2,
        be_value(be16(n)) == n,
{
    let b = be16(n);
    reveal(low_byte);
    reveal_with_fuel(be_value, 3);
    assert(b.drop_last() =~= seq![b[0]]);
    assert(b.drop_last().drop_last() =~= Seq::<u8>::empty());
    let x = n as u16;
    assert(((x / 0x100) % 0x100) * 0x100 + x % 0x100 == x) by (bit_vector);
}

/// Reading a 32-bit field gives back the number that was written.
pub proof fn lemma_be32_value(n: int)
    requires
        0 <= n < 0x1_0000_0000,
    ensures
        be32(n).len() == 4,
        be_value(be32(n)) == n,
{
    let b = be32(n);
    reveal(low_byte);
    reveal_with_fuel(be_value, 5);
    assert(b.drop_last() =~= seq![b[0], b[1], b[2]]);
    assert(b.drop_last().drop_last() =~= seq![b[0], b[1]]);
    assert(b.drop_last().drop_last().drop_last() =~= seq![b[0]]);
    assert(b.drop_last().drop_last().drop_last().drop_last() =~= Seq::<u8>::empty());
    let x = n as u32;
    assert(((((x / 0x100_0000) % 0x100) * 0x100 + (x / 0x1_0000) % 0x100) * 0x100 + (x / 0x100)
        % 0x100) * 0x100 + x % 0x100 == x) by (bit_vector);
}

/// Reading a 64-bit field gives back the number that was written.
pub proof fn lemma_be64_value(n: int)
    requires
        0 <= n < 0x1_0000_0000_0000_0000,
    ensures
        be64(n).len() == 8,
        be_value(be64(n)) == n,
{
    let hi = be32(n / 0x1_0000_0000);
    let lo = be32(n % 0x1_0000_0000);
    let b = be64(n);
    lemma_be32_value(n / 0x1_0000_0000);
    lemma_be32_value(n % 0x1_0000_0000);
    assert(b =~= seq![hi[0], hi[1], hi[2], hi[3], lo[0], lo[1], lo[2], lo[3]]);
    let b7 = b.drop_last();
    let b6 = b7.drop_last();
    let b5 = b6.drop_last();
    let b4 = b5.drop_last();
    assert(b7 =~= seq![hi[0], hi[1], hi[2], hi[3], lo[0], lo[1], lo[2]]);
    assert(b6 =~= seq![hi[0], hi[1], hi[2], hi[3], lo[0], lo[1]]);
    assert(b5 =~= seq![hi[0], hi[1], hi[2], hi[3], lo[0]]);
    assert(b4 =~= hi);
    assert(lo.drop_last() =~= seq![lo[0], lo[1], lo[2]]);
    assert(lo.drop_last().drop_last() =~= seq![lo[0], lo[1]]);
    assert(lo.drop_last().drop_last().drop_last() =~= seq![lo[0]]);
    assert(lo.drop_last().drop_last().drop_last().drop_last() =~= Seq::<u8>::empty());
    reveal_with_fuel(be_value, 5);
    assert(be_value(lo) == ((lo[0] as nat * 256 + lo[1] as nat) * 256 + lo[2] as nat) * 256
        + lo[3] as nat);
    assert(be_value(b) == (((be_value(b4) * 256 + lo[0] as nat) * 256 + lo[1] as nat) * 256
        + lo[2] as nat) * 256 + lo[3] as nat);
}

/// Appends `n` as a 16-bit big-endian field.
pub fn put_be16(buf: &mut Vec<u8>, n: u16)
    ensures
        final(buf)@ == old(buf)@ + be16(n as int),
{
    let hi: u8 = #[verifier::truncate] ((n >> 8) as u8);
    let lo: u8 = #[verifier::truncate] (n as u8);
    assert(hi == (n / 0x100) % 0x100 && lo == n % 0x100) by (bit_vector)
        requires
            hi == (n >> 8) as u8,
            lo == n as u8,
    ;
    proof {
        reveal(low_byte);
    }
    buf.push(hi);
    buf.push(lo);
}

/// Appends `n` as a 32-bit big-endian field.
pub fn put_be32(buf: &mut Vec<u8>, n: u32)
    ensures
        final(buf)@ == old(buf)@ + be32(n as int),
{
    let b0: u8 = #[verifier::truncate] ((n >> 24) as u8);
    let b1: u8 = #[verifier::truncate] ((n >> 16) as u8);
    let b2: u8 = #[verifier::truncate] ((n >> 8) as u8);
    let b3: u8 = #[verifier::truncate] (n as u8);
    assert(b0 == (n / 0x100_0000) % 0x100 && b1 == (n / 0x1_0000) % 0x100 && b2 == (n / 0x100)
        % 0x100 && b3 == n % 0x100) by (bit_vector)
        requires
            b0 == (n >> 24) as u8,
            b1 == (n >> 16) as u8,
            b2 == (n >> 8) as u8,
            b3 == n as u8,
    ;
    proof {
        reveal(low_byte);
    }
    buf.push(b0);
    buf.push(b1);
    buf.push(b2);
    buf.push(b3);
}

/// Appends `n` as a 64-bit big-endian field.
pub fn put_be64(buf: &mut Vec<u8>, n: u64)
    ensures
        final(buf)@ == old(buf)@ + be64(n as int),
{
    let hi: u32 = #[verifier::truncate] ((n >> 32) as u32);
    let lo: u32 = #[verifier::truncate] (n as u32);
    assert(hi == n / 0x1_0000_0000 && lo == n % 0x1_0000_0000) by (bit_vector)
        requires
            hi == (n >> 32) as u32,
            lo == n as u32,
    ;
    put_be32(buf, hi);
    put_be32(buf, lo);
    assert(buf@ =~= old(buf)@ + be64(n as int));
}

/// Appends `count` zero bytes.
pub fn put_zeros(buf: &mut Vec<u8>, count: usize)
    ensures
        final(buf)@ == old(buf)@ + zeros(count as nat),
{
    let mut i: usize = 0;
    while i < count
        invariant
            i <= count,
            buf@ == old(buf)@ + zeros(i as nat),
        decreases count - i,
    {
        buf.push(0);
        i += 1;
    }
}

/// The low 16 bits of a length.
pub fn low16_of_len(len: usize) -> (r: u16)
    ensures
        r as int == low16(len as int),
{
    (len as u64 % 0x1_0000) as u16
}

/// The low 32 bits of a length.
pub fn low32_of_len(len: usize) -> (r: u32)
    ensures
        r as int == low32(len as int),
{
    (len as u64 % 0x1_0000_0000) as u32
}

/// The 32 bits of a signed number, in two's complement.
pub fn low32_of_i32(n: i32) -> (r: u32)
    ensures
        r as int == low32(n as int),
{
    if n >= 0 {
        n as u32
    } else {
        (n as i64 + 0x1_0000_0000) as u32
    }
}

/// The signed 32-bit number with the same low 32 bits as `n`.
pub fn wrap_i32_of_u64(n: u64) -> (r: i32)
    ensures
        r as int == wrap_i32(n as int),
{
    let low: u64 = n % 0x1_0000_0000;
    if low >= 0x8000_0000 {
        (low as i64 - 0x1_0000_0000) as i32
    } else {
        low as i32
    }
}

/// The 64 bits of a signed number, in two's complement.
pub fn low64_of_i64(n: i64) -> (r: u64)
    ensures
        r as int == low64(n as int),
{
    if n >= 0 {
        n as u64
    } else {
        (n as i128 + 0x1_0000_0000_0000_0000) as u64
    }
}

} // verus!
