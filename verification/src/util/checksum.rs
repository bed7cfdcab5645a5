use vstd::prelude::*;

use super::byte_extension::{be16, be16_bytes, be32_bytes, DivideBytes};

verus! {

/// Sum of the big-endian 16-bit words of `s`; a last odd byte counts as the
/// high byte of a word whose low byte is zero.
pub open spec fn word_sum(s: Seq<u8>) -> int
    decreases s.len(),
{
    if s.len() == 0 {
        0
    } else if s.len() == 1 {
        s[0] * 256
    } else {
        (s[0] * 256 + s[1]) + word_sum(s.skip(2))
    }
}

/// A word sum is never negative.
pub proof fn lemma_word_sum_nonneg(s: Seq<u8>)
    ensures
        word_sum(s) >= 0,
    decreases s.len(),
{
    if s.len() >= 2 {
        lemma_word_sum_nonneg(s.skip(2));
    }
}

/// End-around carry: adds the bits above the low 16 back into the low 16
/// bits until nothing is left above them.
pub open spec fn fold_carries(sum: int) -> int
    decreases sum,
{
    if sum < 0x1_0000 {
        sum
    } else {
        fold_carries(sum / 0x1_0000 + sum % 0x1_0000)
    }
}

/// The Internet checksum (RFC 1071) of a running sum of 16-bit words: the
/// ones' complement of the folded sum.
pub open spec fn internet_checksum(sum: int) -> u16 {
    (0xFFFF - fold_carries(sum)) as u16
}

/// Folding keeps the value modulo 0xFFFF, fits in 16 bits, and is zero only
/// for a zero sum.
pub proof fn lemma_fold_carries(sum: int)
    requires
        sum >= 0,
    ensures
        fold_carries(sum) >= 0,
        fold_carries(sum) < 0x1_0000,
        fold_carries(sum) % 0xFFFF == sum % 0xFFFF,
        sum > 0 ==> fold_carries(sum) > 0,
    decreases sum,
{
    if sum >= 0x1_0000 {
        let q = sum / 0x1_0000;
        let r = sum % 0x1_0000;
        assert(sum == q * 0x1_0000 + r);
        assert(q >= 1);
        let y = q + r;
        assert(sum == q * 0xFFFF + y);
        vstd::arithmetic::div_mod::lemma_mod_multiples_vanish(q as int, y as int, 0xFFFF);
        lemma_fold_carries(y);
    }
}

/// A sum that has its own checksum added to it checks to zero: this is how a
/// receiver verifies a header or segment whose checksum field was filled in.
pub proof fn lemma_checksum_verifies(sum: int)
    requires
        sum >= 0,
    ensures
        internet_checksum(sum + internet_checksum(sum)) == 0,
{
    lemma_fold_carries(sum);
    let c = internet_checksum(sum);
    assert(c == 0xFFFF - fold_carries(sum));
    let total = sum + c;
    assert(total > 0);
    lemma_fold_carries(total);
    // total ≡ fold(sum) + c = 0xFFFF ≡ 0 (mod 0xFFFF)
    let f = fold_carries(sum);
    let s1 = sum;
    assert(s1 % 0xFFFF == f % 0xFFFF);
    assert(total % 0xFFFF == 0) by {
        vstd::arithmetic::div_mod::lemma_add_mod_noop(s1, c as int, 0xFFFF);
        vstd::arithmetic::div_mod::lemma_add_mod_noop(f, c as int, 0xFFFF);
        assert(f + c == 0xFFFF);
    }
    let ft = fold_carries(total);
    assert(ft % 0xFFFF == 0);
    assert(0 < ft < 0x1_0000);
    assert(ft == 0xFFFF);
}

/// The word sum of a concatenation is the sum of the parts when the first
/// part holds whole words.
pub proof fn lemma_word_sum_append(a: Seq<u8>, b: Seq<u8>)
    requires
        a.len() % 2 == 0,
    ensures
        word_sum(a + b) == word_sum(a) + word_sum(b),
    decreases a.len(),
{
    if a.len() == 0 {
        assert(a + b =~= b);
    } else {
        assert((a + b).skip(2) =~= a.skip(2) + b);
        lemma_word_sum_append(a.skip(2), b);
    }
}

/// Each word of a byte string adds at most 0xFFFF to its word sum.
pub proof fn lemma_word_sum_bound(s: Seq<u8>)
    ensures
        word_sum(s) <= 0xFFFF * ((s.len() + 1) / 2),
    decreases s.len(),
{
    if s.len() >= 2 {
        lemma_word_sum_bound(s.skip(2));
        assert((s.len() + 1) / 2 == (s.skip(2).len() + 1) / 2 + 1);
    }
}

/// Padding an odd-length byte string with a zero byte leaves its word sum
/// as it is.
pub proof fn lemma_word_sum_pad(s: Seq<u8>)
    requires
        s.len() % 2 == 1,
    ensures
        word_sum(s.push(0)) == word_sum(s),
    decreases s.len(),
{
    if s.len() == 1 {
        assert(s.push(0).skip(2).len() == 0);
        assert(word_sum(s.push(0).skip(2)) == 0);
        assert(s.push(0)[0] == s[0] && s.push(0)[1] == 0);
    } else {
        assert(s.push(0).skip(2) =~= s.skip(2).push(0));
        lemma_word_sum_pad(s.skip(2));
    }
}

/// Two bytes in network order sum to the value they encode.
pub proof fn lemma_word_sum_be16(x: u16)
    ensures
        word_sum(be16_bytes(x)) == x,
{
    let s = be16_bytes(x);
    assert(s.skip(2).len() == 0);
    assert(word_sum(s.skip(2)) == 0);
}

/// Four bytes in network order sum to the two halves of the value.
pub proof fn lemma_word_sum_be32(x: u32)
    ensures
        word_sum(be32_bytes(x)) == x / 0x1_0000 + x % 0x1_0000,
{
    let s = be32_bytes(x);
    assert(s.skip(2).skip(2).len() == 0);
    assert(word_sum(s.skip(2).skip(2)) == 0);
    assert(s.skip(2)[0] == s[2] && s.skip(2)[1] == s[3]);
    assert(word_sum(s.skip(2)) == s[2] as nat * 256 + s[3] as nat);
    assert(s[0] as nat * 256 + s[1] as nat == x / 0x1_0000);
    assert(s[2] as nat * 256 + s[3] as nat == x % 0x1_0000);
}

/// Whether adding the words of `data` to `fixed` stays within 32 bits.
pub fn sum_fits(fixed: u64, data: &[u8]) -> (r: bool)
    ensures
        r == (fixed + word_sum(data@) <= u32::MAX),
{
    proof {
        lemma_word_sum_nonneg(data@);
    }
    if fixed > 0xFFFF_FFFF {
        return false;
    }
    let limit: u64 = 0xFFFF_FFFF - fixed;
    let mut acc: u64 = 0;
    let n = data.len();
    let mut i: usize = 0;
    assert(data@.skip(0) =~= data@);
    while i + 1 < n
        invariant
            n == data@.len(),
            i <= n,
            i % 2 == 0,
            acc <= limit,
            fixed <= u32::MAX,
            limit == 0xFFFF_FFFF - fixed,
            acc + word_sum(data@.skip(i as int)) == word_sum(data@),
        decreases n - i,
    {
        let ghost rest = data@.skip(i as int);
        assert(rest.skip(2) =~= data@.skip(i + 2));
        proof {
            lemma_word_sum_nonneg(rest.skip(2));
        }
        acc = acc + (data[i] as u64) * 256 + (data[i + 1] as u64);
        i = i + 2;
        if acc > limit {
            return false;
        }
    }
    if i < n {
        let ghost rest = data@.skip(i as int);
        assert(rest.len() == 1);
        acc = acc + (data[i] as u64) * 256;
    } else {
        assert(data@.skip(i as int).len() == 0);
    }
    acc <= limit
}

/// An accumulator for the Internet checksum.
pub struct Checksum {
    sum: u32,
}

impl View for Checksum {
    type V = int;

    closed spec fn view(&self) -> int {
        self.sum as int
    }
}

impl Checksum {
    /// The running sum is a 32-bit number.
    pub proof fn lemma_range(&self)
        ensures
            0 <= self@ <= u32::MAX,
    {
    }

    /// Adding what `export` gives to the same sum makes it check to zero.
    pub proof fn lemma_export_verifies(&self)
        ensures
            internet_checksum(self@ + internet_checksum(self@)) == 0,
    {
        lemma_checksum_verifies(self@);
    }

    /// An empty sum.
    pub fn new() -> (r: Self)
        ensures
            r@ == 0,
    {
        Self { sum: 0 }
    }

    /// Adds the word made of two bytes, the first as the high byte.
    pub fn u8(self, nums: (u8, u8)) -> (r: Self)
        requires
            self@ + be16(nums.0, nums.1) <= u32::MAX,
        ensures
            r@ == self@ + be16(nums.0, nums.1),
    {
        self.u16((nums.0 as u16) * 256 + (nums.1 as u16))
    }

    /// Adds one 16-bit word.
    pub fn u16(self, num: u16) -> (r: Self)
        requires
            self@ + num <= u32::MAX,
        ensures
            r@ == self@ + num,
    {
        let mut s = self;
        s.sum = s.sum + num as u32;
        s
    }

    /// Adds the two 16-bit halves of a 32-bit value.
    pub fn u32(self, num: u32) -> (r: Self)
        requires
            self@ + num / 0x1_0000 + num % 0x1_0000 <= u32::MAX,
        ensures
            r@ == self@ + num / 0x1_0000 + num % 0x1_0000,
    {
        let (high, low) = num.divide_bytes();
        self.u16(high).u16(low)
    }

    /// Adds the words of a byte string, padding an odd last byte with zero.
    pub fn vec(self, vec: &[u8]) -> (r: Self)
        requires
            self@ + word_sum(vec@) <= u32::MAX,
        ensures
            r@ == self@ + word_sum(vec@),
    {
        let mut cs = self;
        let n = vec.len();
        let mut i: usize = 0;
        assert(vec@.skip(0) =~= vec@);
        while i + 1 < n
            invariant
                n == vec@.len(),
                i <= n,
                i % 2 == 0,
                cs@ + word_sum(vec@.skip(i as int)) == self@ + word_sum(vec@),
                self@ + word_sum(vec@) <= u32::MAX,
            decreases n - i,
        {
            let ghost rest = vec@.skip(i as int);
            assert(rest.skip(2) =~= vec@.skip(i + 2));
            proof {
                lemma_word_sum_nonneg(rest.skip(2));
            }
            cs = cs.u8((vec[i], vec[i + 1]));
            i = i + 2;
        }
        if i < n {
            let ghost rest = vec@.skip(i as int);
            assert(rest.len() == 1);
            cs = cs.u8((vec[i], 0));
        } else {
            assert(vec@.skip(i as int).len() == 0);
        }
        cs
    }

    fn handle_overflow(&mut self)
        ensures
            final(self)@ == fold_carries(old(self)@),
            final(self)@ < 0x1_0000,
    {
        proof {
            lemma_fold_carries(self.sum as int);
        }
        while (self.sum >> 16) != 0
            invariant
                fold_carries(self.sum as int) == fold_carries(old(self)@),
            decreases self.sum,
        {
            let s: u32 = self.sum;
            assert((s >> 16) != 0 ==> s >= 0x1_0000) by (bit_vector);
            let (high, low) = self.sum.divide_bytes();
            self.sum = high as u32 + low as u32;
        }
        let s: u32 = self.sum;
        assert((s >> 16) == 0 ==> s < 0x1_0000) by (bit_vector);
    }

    /// The checksum of everything added so far.
    pub fn export(self) -> (r: u16)
        ensures
            r == internet_checksum(self@),
    {
        let mut s = self;
        s.handle_overflow();
        let v: u32 = s.sum;
        assert(v < 0x1_0000 ==> (!v) as u16 == 0xFFFF - v) by (bit_vector);
        !s.sum as u16
    }
}

} // verus!
