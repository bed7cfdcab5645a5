use vstd::prelude::*;

verus! {

/// The value of two bytes read in network (big-endian) order.
pub open spec fn be16(hi: u8, lo: u8) -> u16 {
    (hi * 256 + lo) as u16
}

/// The value of four bytes read in network (big-endian) order.
pub open spec fn be32(b0: u8, b1: u8, b2: u8, b3: u8) -> u32 {
    (b0 * 0x100_0000 + b1 * 0x1_0000 + b2 * 0x100 + b3) as u32
}

/// The number of bytes in `s`, as an integer.
pub open spec fn byte_count(s: Seq<u8>) -> int {
    s.len() as int
}

/// The two bytes of `x` in network (big-endian) order.
pub open spec fn be16_bytes(x: u16) -> Seq<u8> {
    seq![(x / 256) as u8, (x % 256) as u8]
}

/// The four bytes of `x` in network (big-endian) order.
pub open spec fn be32_bytes(x: u32) -> Seq<u8> {
    seq![
        (x / 0x100_0000) as u8,
        (x / 0x1_0000 % 256) as u8,
        (x / 0x100 % 256) as u8,
        (x % 256) as u8,
    ]
}

/// Reading the bytes of a 16-bit value gives it back.
pub proof fn lemma_be16_roundtrip(x: u16)
    ensures
        be16((x / 256) as u8, (x % 256) as u8) == x,
{
}

/// Reading the two bytes of a 16-bit value gives it back.
pub proof fn lemma_be16_bytes_roundtrip(x: u16)
    ensures
        be16_bytes(x).len() == 2,
        be16(be16_bytes(x)[0], be16_bytes(x)[1]) == x,
{
}

/// Reading the four bytes of a 32-bit value gives it back.
pub proof fn lemma_be32_bytes_roundtrip(x: u32)
    ensures
        be32_bytes(x).len() == 4,
        be32(be32_bytes(x)[0], be32_bytes(x)[1], be32_bytes(x)[2], be32_bytes(x)[3]) == x,
{
    lemma_be32_roundtrip(x);
}

/// Reading the bytes of a 32-bit value gives it back.
pub proof fn lemma_be32_roundtrip(x: u32)
    ensures
        be32(
            (x / 0x100_0000) as u8,
            (x / 0x1_0000 % 256) as u8,
            (x / 0x100 % 256) as u8,
            (x % 256) as u8,
        ) == x,
{
    assert(x == (x / 0x100_0000) * 0x100_0000 + (x / 0x1_0000 % 256) * 0x1_0000 + (x / 0x100
        % 256) * 0x100 + x % 256) by (bit_vector);
}

/// The bytes of a 16-bit value read back from two bytes are those bytes.
pub proof fn lemma_be16_bytes_of(hi: u8, lo: u8)
    ensures
        be16_bytes(be16(hi, lo)) == seq![hi, lo],
{
    let x = be16(hi, lo);
    assert(x / 256 == hi && x % 256 == lo);
    assert(be16_bytes(x) =~= seq![hi, lo]);
}

/// The bytes of a 32-bit value read back from four bytes are those bytes.
pub proof fn lemma_be32_bytes_of(b0: u8, b1: u8, b2: u8, b3: u8)
    ensures
        be32_bytes(be32(b0, b1, b2, b3)) == seq![b0, b1, b2, b3],
{
    let x = be32(b0, b1, b2, b3);
    assert(x == b0 * 0x100_0000 + b1 * 0x1_0000 + b2 * 0x100 + b3);
    assert(x / 0x100_0000 == b0 && x / 0x1_0000 % 256 == b1 && x / 0x100 % 256 == b2 && x % 256 == b3) by (bit_vector)
        requires x == b0 * 0x100_0000 + b1 * 0x1_0000 + b2 * 0x100 + b3;
    assert(be32_bytes(x) =~= seq![b0, b1, b2, b3]);
}

/// Splits a value into its high and low halves.
pub trait DivideBytes<T> {
    fn divide_bytes(&self) -> (T, T);
}

impl DivideBytes<u16> for u32 {
    fn divide_bytes(&self) -> (r: (u16, u16))
        ensures
            r.0 == *self / 0x1_0000,
            r.1 == *self % 0x1_0000,
    {
        let x: u32 = *self;
        let high = (x >> 16) as u16;
        let low = (x & 0xffff) as u16;
        assert((x >> 16) as u16 == x / 0x1_0000 && (x & 0xffff) as u16 == x % 0x1_0000)
            by (bit_vector);
        (high, low)
    }
}

/// A 16-bit value as a 64-bit one.
pub fn widen16(x: u16) -> (r: u64)
    ensures
        r == x,
{
    x as u64
}

/// Reads two bytes in network order.
pub fn u16_from_be(hi: u8, lo: u8) -> (r: u16)
    ensures
        r == be16(hi, lo),
{
    (hi as u16) * 256 + (lo as u16)
}

/// Reads four bytes in network order.
pub fn u32_from_be(b0: u8, b1: u8, b2: u8, b3: u8) -> (r: u32)
    ensures
        r == be32(b0, b1, b2, b3),
{
    (b0 as u32) * 0x100_0000 + (b1 as u32) * 0x1_0000 + (b2 as u32) * 0x100 + (b3 as u32)
}

/// Appends the two bytes of `x` in network order.
pub fn push_be16(buf: &mut Vec<u8>, x: u16)
    ensures
        final(buf)@ == old(buf)@ + be16_bytes(x),
{
    buf.push((x / 256) as u8);
    buf.push((x % 256) as u8);
    assert(final(buf)@ =~= old(buf)@ + be16_bytes(x));
}

/// Appends the four bytes of `x` in network order.
pub fn push_be32(buf: &mut Vec<u8>, x: u32)
    ensures
        final(buf)@ == old(buf)@ + be32_bytes(x),
{
    buf.push((x / 0x100_0000) as u8);
    buf.push((x / 0x1_0000 % 256) as u8);
    buf.push((x / 0x100 % 256) as u8);
    buf.push((x % 256) as u8);
    assert(final(buf)@ =~= old(buf)@ + be32_bytes(x));
}

/// Appends all of `data`.
pub fn push_bytes(buf: &mut Vec<u8>, data: &[u8])
    ensures
        final(buf)@ == old(buf)@ + data@,
{
    let ghost start = buf@;
    let n = data.len();
    let mut i: usize = 0;
    while i < n
        invariant
            n == data@.len(),
            i <= n,
            buf@ == start + data@.take(i as int),
        decreases n - i,
    {
        buf.push(data[i]);
        i = i + 1;
        assert(buf@ =~= start + data@.take(i as int));
    }
    assert(data@.take(n as int) =~= data@);
}

/// Copies all of `data` into a new vector.
pub fn copy_all(data: &[u8]) -> (r: Vec<u8>)
    ensures
        r@ == data@,
{
    let r = copy_range(data, 0, data.len());
    assert(data@.subrange(0, data@.len() as int) =~= data@);
    r
}

/// Copies `data[from..]` into a new vector.
pub fn copy_from(data: &[u8], from: usize) -> (r: Vec<u8>)
    requires
        from <= data@.len(),
    ensures
        r@ == data@.skip(from as int),
{
    copy_range(data, from, data.len())
}

/// Copies `data[from..to]` into a new vector.
pub fn copy_range(data: &[u8], from: usize, to: usize) -> (r: Vec<u8>)
    requires
        from <= to <= data@.len(),
    ensures
        r@ == data@.subrange(from as int, to as int),
{
    let mut r: Vec<u8> = Vec::new();
    let mut i: usize = from;
    while i < to
        invariant
            from <= i <= to,
            to <= data@.len(),
            r@ == data@.subrange(from as int, i as int),
        decreases to - i,
    {
        r.push(data[i]);
        i = i + 1;
        assert(r@ =~= data@.subrange(from as int, i as int));
    }
    r
}

} // verus!
