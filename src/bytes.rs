//! Fixed-size byte values of the chain (addresses, 32-byte words, 256-bit
//! unsigned integers) and the keccak-256 hash that the signing scheme is
//! built on.
use vstd::prelude::*;

verus! {

/// What keccak-256 yields for the given input.
pub uninterp spec fn keccak_of(data: Seq<u8>) -> Seq<u8>;

/// Relies on `alloy_primitives::keccak256`: the 32-byte keccak-256 digest of `data`.
#[verifier::external_body]
pub(crate) fn keccak(data: &[u8]) -> (r: [u8; 32])
    ensures
        r@ == keccak_of(data@),
{
    alloy_primitives::keccak256(data).0
}

/// `256^n`.
pub open spec fn pow256(n: nat) -> nat
    decreases n,
{
    if n == 0 {
        1
    } else {
        256 * pow256((n - 1) as nat)
    }
}

/// `2^256`, one more than the largest 256-bit unsigned integer.
pub open spec fn word_modulus() -> nat {
    pow256(32)
}

/// The number that `s` spells in big-endian order.
pub open spec fn be_value(s: Seq<u8>) -> nat
    decreases s.len(),
{
    if s.len() == 0 {
        0
    } else {
        s[0] as nat * pow256((s.len() - 1) as nat) + be_value(s.subrange(1, s.len() as int))
    }
}

/// Every byte of `s` is zero.
pub open spec fn all_zero(s: Seq<u8>) -> bool {
    forall|i: int| 0 <= i < s.len() ==> s[i] == 0
}

/// A 20-byte account address.
#[derive(Clone, Copy, Debug, PartialEq, Eq)]
pub struct Address {
    pub bytes: [u8; 20],
}

impl View for Address {
    type V = Seq<u8>;

    open spec fn view(&self) -> Seq<u8> {
        self.bytes@
    }
}

/// A 32-byte value: a hash, a platform id, a content type tag.
#[derive(Clone, Copy, Debug, PartialEq, Eq)]
pub struct B256 {
    pub bytes: [u8; 32],
}

impl View for B256 {
    type V = Seq<u8>;

    open spec fn view(&self) -> Seq<u8> {
        self.bytes@
    }
}

/// A 256-bit unsigned integer, stored as 32 big-endian bytes.
#[derive(Clone, Copy, Debug, PartialEq, Eq)]
pub struct U256 {
    pub bytes: [u8; 32],
}

impl View for U256 {
    type V = Seq<u8>;

    open spec fn view(&self) -> Seq<u8> {
        self.bytes@
    }
}

/// Whether two byte strings are equal.
pub fn bytes_eq(a: &[u8], b: &[u8]) -> (r: bool)
    ensures
        r == (a@ == b@),
{
    if a.len() != b.len() {
        return false;
    }
    let mut i: usize = 0;
    while i < a.len()
        invariant
            a@.len() == b@.len(),
            0 <= i <= a@.len(),
            forall|j: int| 0 <= j < i ==> a@[j] == b@[j],
        decreases a@.len() - i,
    {
        if a[i] != b[i] {
            return false;
        }
        i = i + 1;
    }
    assert(a@ =~= b@);
    true
}

/// Whether every byte of `a` is zero.
pub fn bytes_all_zero(a: &[u8]) -> (r: bool)
    ensures
        r == all_zero(a@),
{
    let mut i: usize = 0;
    while i < a.len()
        invariant
            0 <= i <= a@.len(),
            forall|j: int| 0 <= j < i ==> a@[j] == 0,
        decreases a@.len() - i,
    {
        if a[i] != 0 {
            return false;
        }
        i = i + 1;
    }
    true
}

/// Appends `src` to `out`.
pub fn append_bytes(out: &mut Vec<u8>, src: &[u8])
    ensures
        final(out)@ == old(out)@ + src@,
{
    let mut i: usize = 0;
    while i < src.len()
        invariant
            0 <= i <= src@.len(),
            out@ == old(out)@ + src@.subrange(0, i as int),
        decreases src@.len() - i,
    {
        out.push(src[i]);
        i = i + 1;
        assert(src@.subrange(0, i as int) == src@.subrange(0, (i - 1) as int).push(src@[i - 1]));
    }
    assert(src@.subrange(0, src@.len() as int) == src@);
}

impl Address {
    /// The zero address, which never stands for an account.
    pub fn zero() -> (r: Address)
        ensures
            all_zero(r@),
    {
        Address { bytes: [0u8; 20] }
    }

    pub fn is_zero(&self) -> (r: bool)
        ensures
            r == all_zero(self@),
    {
        bytes_all_zero(&self.bytes)
    }

    pub fn same_as(&self, other: &Address) -> (r: bool)
        ensures
            r == (self@ == other@),
    {
        bytes_eq(&self.bytes, &other.bytes)
    }
}

impl B256 {
    pub fn zero() -> (r: B256)
        ensures
            all_zero(r@),
    {
        B256 { bytes: [0u8; 32] }
    }

    pub fn same_as(&self, other: &B256) -> (r: bool)
        ensures
            r == (self@ == other@),
    {
        bytes_eq(&self.bytes, &other.bytes)
    }
}

proof fn lemma_pow256_positive(n: nat)
    ensures
        pow256(n) >= 1,
    decreases n,
{
    if n > 0 {
        lemma_pow256_positive((n - 1) as nat);
    }
}

/// A big-endian value is below `256^len`.
pub proof fn lemma_be_value_bound(s: Seq<u8>)
    ensures
        be_value(s) < pow256(s.len()),
    decreases s.len(),
{
    if s.len() > 0 {
        let rest = s.subrange(1, s.len() as int);
        lemma_be_value_bound(rest);
        let p = pow256((s.len() - 1) as nat);
        let d = s[0] as nat;
        assert(d <= 255);
        assert(d * p <= 255 * p) by (nonlinear_arith)
            requires
                d <= 255,
        ;
    }
}

/// Taking one more leading byte adds that byte at its place value.
proof fn lemma_be_value_suffix(s: Seq<u8>, i: int)
    requires
        1 <= i <= s.len(),
    ensures
        be_value(s.subrange(i - 1, s.len() as int)) == s[i - 1] as nat * pow256(
            (s.len() - i) as nat,
        ) + be_value(s.subrange(i, s.len() as int)),
{
    let t = s.subrange(i - 1, s.len() as int);
    assert(t.subrange(1, t.len() as int) =~= s.subrange(i, s.len() as int));
}

/// A value whose leading bytes are zero equals the value of the rest.
proof fn lemma_be_value_leading_zeros(s: Seq<u8>, k: int)
    requires
        0 <= k <= s.len(),
        forall|j: int| 0 <= j < k ==> s[j] == 0,
    ensures
        be_value(s) == be_value(s.subrange(k, s.len() as int)),
    decreases k,
{
    if k > 0 {
        lemma_be_value_leading_zeros(s, k - 1);
        lemma_be_value_suffix(s, k);
        assert(s.subrange(0, s.len() as int) =~= s);
    } else {
        assert(s.subrange(0, s.len() as int) =~= s);
    }
}

/// A string of zero bytes stands for zero.
pub proof fn lemma_be_value_all_zero(s: Seq<u8>)
    requires
        all_zero(s),
    ensures
        be_value(s) == 0,
{
    lemma_be_value_leading_zeros(s, s.len() as int);
    assert(s.subrange(s.len() as int, s.len() as int) =~= Seq::<u8>::empty());
}

impl U256 {
    /// The number these bytes stand for.
    pub open spec fn value(&self) -> nat {
        be_value(self@)
    }

    pub fn zero() -> (r: U256)
        ensures
            r.value() == 0,
            all_zero(r@),
    {
        let r = U256 { bytes: [0u8; 32] };
        proof {
            lemma_be_value_leading_zeros(r@, 32);
            assert(r@.subrange(32, 32) =~= Seq::<u8>::empty());
        }
        r
    }

    pub fn one() -> (r: U256)
        ensures
            r.value() == 1,
    {
        let mut bytes = [0u8; 32];
        bytes[31] = 1;
        let r = U256 { bytes };
        proof {
            lemma_be_value_leading_zeros(r@, 31);
            let t = r@.subrange(31, 32);
            assert(t.len() == 1 && t[0] == 1);
            assert(t.subrange(1, 1) =~= Seq::<u8>::empty());
            assert(be_value(t.subrange(1, 1)) == 0);
            assert(pow256(0) == 1);
            assert(be_value(t) == 1);
        }
        r
    }

    /// The largest 256-bit value, `2^256 - 1`.
    pub fn max_value() -> (r: U256)
        ensures
            r.value() == word_modulus() - 1,
    {
        let r = U256 { bytes: [255u8; 32] };
        proof {
            lemma_be_value_all_ones(r@, 32);
        }
        r
    }

    /// The low 256 bits of `self + other`, and whether a carry left the top.
    pub fn overflowing_add(&self, other: &U256) -> (r: (U256, bool))
        ensures
            r.0.value() + (if r.1 {
                word_modulus()
            } else {
                0
            }) == self.value() + other.value(),
            r.0.value() < word_modulus(),
    {
        let mut out = [0u8; 32];
        let mut carry: u16 = 0;
        let mut idx: usize = 32;
        while idx > 0
            invariant
                0 <= idx <= 32,
                carry <= 1,
                be_value(out@.subrange(idx as int, 32)) + carry as nat * pow256(
                    (32 - idx) as nat,
                ) == be_value(self@.subrange(idx as int, 32)) + be_value(
                    other@.subrange(idx as int, 32),
                ),
            decreases idx,
        {
            let i = idx - 1;
            let sum: u16 = self.bytes[i] as u16 + other.bytes[i] as u16 + carry;
            let ghost old_out = out@;
            let ghost old_carry = carry as nat;
            out[i] = (sum % 256) as u8;
            carry = sum / 256;
            proof {
                assert(out@.subrange(idx as int, 32) =~= old_out.subrange(idx as int, 32));
                lemma_be_value_suffix(out@, idx as int);
                lemma_be_value_suffix(self@, idx as int);
                lemma_be_value_suffix(other@, idx as int);
                let p = pow256((32 - idx) as nat);
                assert(pow256((32 - i) as nat) == 256 * p);
                let a = self@[i as int] as nat;
                let b = other@[i as int] as nat;
                let d = out@[i as int] as nat;
                let c = carry as nat;
                assert(d + 256 * c == a + b + old_carry);
                assert(d * p + c * (256 * p) == a * p + b * p + old_carry * p) by (nonlinear_arith)
                    requires
                        d + 256 * c == a + b + old_carry,
                ;
            }
            idx = i;
        }
        proof {
            assert(out@.subrange(0, 32) =~= out@);
            assert(self@.subrange(0, 32) =~= self@);
            assert(other@.subrange(0, 32) =~= other@);
            lemma_be_value_bound(out@);
        }
        (U256 { bytes: out }, carry != 0)
    }

    /// `self + other`, or `None` where the sum does not fit in 256 bits.
    pub fn checked_add(&self, other: &U256) -> (r: Option<U256>)
        ensures
            r.is_some() <==> self.value() + other.value() < word_modulus(),
            r.is_some() ==> r.unwrap().value() == self.value() + other.value(),
    {
        let (sum, carried) = self.overflowing_add(other);
        if carried {
            None
        } else {
            Some(sum)
        }
    }

    /// `self + other` modulo `2^256`.
    pub fn wrapping_add(&self, other: &U256) -> (r: U256)
        ensures
            r.value() as int == (self.value() + other.value()) as int % (word_modulus() as int),
    {
        let (sum, carried) = self.overflowing_add(other);
        proof {
            let m = word_modulus() as int;
            let v = sum.value() as int;
            if carried {
                vstd::arithmetic::div_mod::lemma_mod_add_multiples_vanish(v, m);
            }
            vstd::arithmetic::div_mod::lemma_small_mod(sum.value(), word_modulus());
        }
        sum
    }
}

proof fn lemma_be_value_all_ones(s: Seq<u8>, n: nat)
    requires
        s.len() == n,
        forall|j: int| 0 <= j < s.len() ==> s[j] == 255,
    ensures
        be_value(s) == pow256(n) - 1,
    decreases n,
{
    if n > 0 {
        let rest = s.subrange(1, s.len() as int);
        lemma_be_value_all_ones(rest, (n - 1) as nat);
        lemma_pow256_positive((n - 1) as nat);
    }
}

/// The 32-byte ABI word of an address: twelve zero bytes, then the address.
pub open spec fn address_word(a: Seq<u8>) -> Seq<u8> {
    Seq::new(12, |i: int| 0u8) + a
}

/// Byte `k` (from the most significant) of the big-endian form of `n`.
pub open spec fn u64_byte(n: u64, k: int) -> u8 {
    ((n >> ((7 - k) * 8) as u64) & 0xff) as u8
}

/// The 32-byte ABI word of a 64-bit unsigned integer: 24 zero bytes, then its
/// eight big-endian bytes.
pub open spec fn u64_word(n: u64) -> Seq<u8> {
    Seq::new(32, |i: int| if i < 24 { 0u8 } else { u64_byte(n, i - 24) })
}

/// Appends the ABI word of an address.
pub fn append_address_word(out: &mut Vec<u8>, a: &Address)
    ensures
        final(out)@ == old(out)@ + address_word(a@),
{
    let zeros = [0u8; 12];
    append_bytes(out, &zeros);
    append_bytes(out, &a.bytes);
    assert(zeros@ =~= Seq::new(12, |i: int| 0u8));
    assert(old(out)@ + zeros@ + a@ =~= old(out)@ + address_word(a@));
}

/// Appends the ABI word of a 64-bit unsigned integer.
pub fn append_u64_word(out: &mut Vec<u8>, n: u64)
    ensures
        final(out)@ == old(out)@ + u64_word(n),
{
    let mut w = [0u8; 32];
    let mut k: usize = 0;
    while k < 8
        invariant
            0 <= k <= 8,
            forall|j: int| 0 <= j < 24 ==> w@[j] == 0,
            forall|j: int| 0 <= j < k ==> w@[24 + j] == u64_byte(n, j),
        decreases 8 - k,
    {
        let shift: u64 = ((7 - k) * 8) as u64;
        w[24 + k] = ((n >> shift) & 0xff) as u8;
        k = k + 1;
    }
    assert(w@ =~= u64_word(n));
    append_bytes(out, &w);
}

/// Equal words of 64-bit integers come from equal integers.
pub proof fn lemma_u64_word_injective(a: u64, b: u64)
    requires
        u64_word(a) == u64_word(b),
    ensures
        a == b,
{
    assert forall|k: int| 0 <= k < 8 implies u64_byte(a, k) == u64_byte(b, k) by {
        assert(u64_word(a)[24 + k] == u64_byte(a, k));
        assert(u64_word(b)[24 + k] == u64_byte(b, k));
        assert(u64_word(a)[24 + k] == u64_word(b)[24 + k]);
    }
    let a0 = u64_byte(a, 0);
    let a1 = u64_byte(a, 1);
    let a2 = u64_byte(a, 2);
    let a3 = u64_byte(a, 3);
    let a4 = u64_byte(a, 4);
    let a5 = u64_byte(a, 5);
    let a6 = u64_byte(a, 6);
    let a7 = u64_byte(a, 7);
    assert(a0 == u64_byte(b, 0) && a1 == u64_byte(b, 1) && a2 == u64_byte(b, 2) && a3
        == u64_byte(b, 3) && a4 == u64_byte(b, 4) && a5 == u64_byte(b, 5) && a6 == u64_byte(b, 6)
        && a7 == u64_byte(b, 7));
    assert(a == b) by (bit_vector)
        requires
            ((a >> 56u64) & 0xff) as u8 == ((b >> 56u64) & 0xff) as u8,
            ((a >> 48u64) & 0xff) as u8 == ((b >> 48u64) & 0xff) as u8,
            ((a >> 40u64) & 0xff) as u8 == ((b >> 40u64) & 0xff) as u8,
            ((a >> 32u64) & 0xff) as u8 == ((b >> 32u64) & 0xff) as u8,
            ((a >> 24u64) & 0xff) as u8 == ((b >> 24u64) & 0xff) as u8,
            ((a >> 16u64) & 0xff) as u8 == ((b >> 16u64) & 0xff) as u8,
            ((a >> 8u64) & 0xff) as u8 == ((b >> 8u64) & 0xff) as u8,
            ((a >> 0u64) & 0xff) as u8 == ((b >> 0u64) & 0xff) as u8,
    ;
}

} // verus!
