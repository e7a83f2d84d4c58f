//! 256-bit unsigned machine words: the value type of the virtual machine's
//! stack and of contract storage. A word is four 64-bit limbs, least
//! significant first; its mathematical value is a natural number below 2^256.
use vstd::prelude::*;
use vstd::arithmetic::div_mod::{
    lemma_small_mod, lemma_mod_multiples_vanish, lemma_fundamental_div_mod_converse,
    lemma_div_denominator,
};

verus! {

/// A 256-bit unsigned integer, four little-endian 64-bit limbs.
#[derive(Clone, Copy, Debug, PartialEq, Eq, Structural)]
pub struct U256 {
    pub w0: u64,
    pub w1: u64,
    pub w2: u64,
    pub w3: u64,
}

/// 2^64, the limb radix.
pub open spec fn p64() -> nat {
    0x1_0000_0000_0000_0000nat
}

/// 2^128.
pub open spec fn p128() -> nat {
    0x1_0000_0000_0000_0000_0000_0000_0000_0000nat
}

/// 2^192.
pub open spec fn p192() -> nat {
    0x1_0000_0000_0000_0000_0000_0000_0000_0000_0000_0000_0000_0000nat
}

/// 2^256, the modulus of all word arithmetic.
pub open spec fn u256_mod() -> nat {
    0x1_0000_0000_0000_0000_0000_0000_0000_0000_0000_0000_0000_0000_0000_0000_0000_0000nat
}

/// The value of a word as a natural number.
pub open spec fn u256_val(x: U256) -> nat {
    (x.w0 + x.w1 * p64() + x.w2 * p128() + x.w3 * p192()) as nat
}

impl View for U256 {
    type V = nat;

    open spec fn view(&self) -> nat {
        u256_val(*self)
    }
}

/// The word whose value is `v % 2^256`, by its base-2^64 digits.
pub open spec fn u256_of_nat(v: nat) -> U256 {
    U256 {
        w0: (v % p64()) as u64,
        w1: (v / p64() % p64()) as u64,
        w2: (v / p128() % p64()) as u64,
        w3: (v / p192() % p64()) as u64,
    }
}

/// 256^n.
pub open spec fn pow256(n: nat) -> nat
    decreases n,
{
    if n == 0 {
        1
    } else {
        256 * pow256((n - 1) as nat)
    }
}

/// The value of a byte sequence read as a big-endian unsigned integer.
pub open spec fn be_val(s: Seq<u8>) -> nat
    decreases s.len(),
{
    if s.len() == 0 {
        0
    } else {
        (be_val(s.drop_last()) * 256 + s.last()) as nat
    }
}

/// The eight bytes of a 64-bit word, most significant first.
pub open spec fn u64_be_bytes(w: u64) -> Seq<u8> {
    seq![
        (w / 0x100_0000_0000_0000 % 0x100) as u8,
        (w / 0x1_0000_0000_0000 % 0x100) as u8,
        (w / 0x100_0000_0000 % 0x100) as u8,
        (w / 0x1_0000_0000 % 0x100) as u8,
        (w / 0x100_0000 % 0x100) as u8,
        (w / 0x1_0000 % 0x100) as u8,
        (w / 0x100 % 0x100) as u8,
        (w % 0x100) as u8,
    ]
}

/// The 32 bytes of a 256-bit word, most significant first.
pub open spec fn u256_be_bytes(x: U256) -> Seq<u8> {
    u64_be_bytes(x.w3) + u64_be_bytes(x.w2) + u64_be_bytes(x.w1) + u64_be_bytes(x.w0)
}

pub proof fn lemma_pow256_values()
    ensures
        pow256(8) == p64(),
        pow256(16) == p128(),
        pow256(24) == p192(),
        pow256(32) == u256_mod(),
{
    assert(pow256(0) == 1);
    assert(pow256(1) == 0x100);
    assert(pow256(2) == 0x1_0000);
    assert(pow256(3) == 0x100_0000);
    assert(pow256(4) == 0x1_0000_0000);
    assert(pow256(5) == 0x100_0000_0000);
    assert(pow256(6) == 0x1_0000_0000_0000);
    assert(pow256(7) == 0x100_0000_0000_0000);
    assert(pow256(8) == p64());
    assert(pow256(9) == 0x100_0000_0000_0000_0000);
    assert(pow256(10) == 0x1_0000_0000_0000_0000_0000);
    assert(pow256(11) == 0x100_0000_0000_0000_0000_0000);
    assert(pow256(12) == 0x1_0000_0000_0000_0000_0000_0000);
    assert(pow256(13) == 0x100_0000_0000_0000_0000_0000_0000);
    assert(pow256(14) == 0x1_0000_0000_0000_0000_0000_0000_0000);
    assert(pow256(15) == 0x100_0000_0000_0000_0000_0000_0000_0000);
    assert(pow256(16) == p128());
    assert(pow256(17) == 0x100_0000_0000_0000_0000_0000_0000_0000_0000);
    assert(pow256(18) == 0x1_0000_0000_0000_0000_0000_0000_0000_0000_0000);
    assert(pow256(19) == 0x100_0000_0000_0000_0000_0000_0000_0000_0000_0000);
    assert(pow256(20) == 0x1_0000_0000_0000_0000_0000_0000_0000_0000_0000_0000);
    assert(pow256(21) == 0x100_0000_0000_0000_0000_0000_0000_0000_0000_0000_0000);
    assert(pow256(22) == 0x1_0000_0000_0000_0000_0000_0000_0000_0000_0000_0000_0000);
    assert(pow256(23) == 0x100_0000_0000_0000_0000_0000_0000_0000_0000_0000_0000_0000);
    assert(pow256(24) == p192());
    assert(pow256(25) == 0x100_0000_0000_0000_0000_0000_0000_0000_0000_0000_0000_0000_0000);
    assert(pow256(26) == 0x1_0000_0000_0000_0000_0000_0000_0000_0000_0000_0000_0000_0000_0000);
    assert(pow256(27) == 0x100_0000_0000_0000_0000_0000_0000_0000_0000_0000_0000_0000_0000_0000);
    assert(pow256(28) == 0x1_0000_0000_0000_0000_0000_0000_0000_0000_0000_0000_0000_0000_0000_0000);
    assert(pow256(29) == 0x100_0000_0000_0000_0000_0000_0000_0000_0000_0000_0000_0000_0000_0000_0000);
    assert(pow256(30) == 0x1_0000_0000_0000_0000_0000_0000_0000_0000_0000_0000_0000_0000_0000_0000_0000);
    assert(pow256(31) == 0x100_0000_0000_0000_0000_0000_0000_0000_0000_0000_0000_0000_0000_0000_0000_0000);
    assert(pow256(32) == u256_mod());
}

/// Concatenation splits a big-endian value: the left part is scaled by
/// 256 to the length of the right part.
pub proof fn lemma_be_val_concat(a: Seq<u8>, b: Seq<u8>)
    ensures
        be_val(a + b) == be_val(a) * pow256(b.len()) + be_val(b),
    decreases b.len(),
{
    if b.len() == 0 {
        assert(a + b =~= a);
        assert(pow256(0) == 1);
    } else {
        lemma_be_val_concat(a, b.drop_last());
        assert((a + b).drop_last() =~= a + b.drop_last());
        assert((a + b).last() == b.last());
        assert(be_val(a + b) == be_val(a + b.drop_last()) * 256 + b.last());
        assert(be_val(a + b.drop_last()) * 256 == (be_val(a) * pow256((b.len() - 1) as nat)
            + be_val(b.drop_last())) * 256);
        assert((be_val(a) * pow256((b.len() - 1) as nat) + be_val(b.drop_last())) * 256 == be_val(
            a,
        ) * pow256((b.len() - 1) as nat) * 256 + be_val(b.drop_last()) * 256)
            by (nonlinear_arith);
        assert(be_val(a) * pow256((b.len() - 1) as nat) * 256 == be_val(a) * (pow256(
            (b.len() - 1) as nat,
        ) * 256)) by (nonlinear_arith);
        assert(pow256((b.len() - 1) as nat) * 256 == pow256(b.len()));
    }
}

/// A run of zero bytes has value zero.
pub proof fn lemma_be_val_zeros(s: Seq<u8>)
    requires
        forall|i: int| 0 <= i < s.len() ==> s[i] == 0,
    ensures
        be_val(s) == 0,
    decreases s.len(),
{
    if s.len() > 0 {
        lemma_be_val_zeros(s.drop_last());
    }
}

proof fn lemma_split_digit(x0: nat, x1: nat, y0: nat, y1: nat, m: nat)
    requires
        x0 < m,
        y0 < m,
        x0 + m * x1 == y0 + m * y1,
    ensures
        x0 == y0,
        x1 == y1,
{
    assert(x0 == y0 && x1 == y1) by (nonlinear_arith)
        requires
            x0 < m,
            y0 < m,
            x0 + m * x1 == y0 + m * y1,
    ;
}

/// 256^a divides 256^b when a <= b, and the powers are monotone.
pub proof fn lemma_pow256_le(a: nat, b: nat)
    requires
        a <= b,
    ensures
        pow256(a) <= pow256(b),
    decreases b,
{
    if a < b {
        lemma_pow256_le(a, (b - 1) as nat);
        assert(pow256(b) == 256 * pow256((b - 1) as nat));
        assert(pow256((b - 1) as nat) <= 256 * pow256((b - 1) as nat)) by (nonlinear_arith)
            requires pow256((b - 1) as nat) >= 0;
    }
}

/// A word is exactly the base-2^64 digits of its value.
pub proof fn lemma_u256_of_val(x: U256)
    ensures
        u256_of_nat(u256_val(x)) == x,
{
    let m: int = 0x1_0000_0000_0000_0000;
    let v = u256_val(x) as int;
    let k1: int = x.w1 + m * (x.w2 + m * x.w3);
    let k2: int = x.w2 + m * x.w3;
    assert(v == m * k1 + x.w0) by (nonlinear_arith)
        requires
            v == x.w0 + x.w1 * p64() + x.w2 * p128() + x.w3 * p192(),
            k1 == x.w1 + m * (x.w2 + m * x.w3),
            p64() == m,
            p128() == m * m,
            p192() == m * m * m,
            m == 0x1_0000_0000_0000_0000,
    ;
    lemma_fundamental_div_mod_converse(v, m, k1, x.w0 as int);
    assert(v % m == x.w0);
    assert(v / m == k1);
    lemma_fundamental_div_mod_converse(k1, m, k2, x.w1 as int);
    assert(k1 % m == x.w1);
    assert(k1 / m == k2);
    lemma_fundamental_div_mod_converse(k2, m, x.w3 as int, x.w2 as int);
    assert(k2 % m == x.w2);
    assert(k2 / m == x.w3);
    lemma_div_denominator(v, m, m);
    assert(v / (m * m) == k2);
    lemma_div_denominator(v, m * m, m);
    assert((m * m) * m == m * m * m) by (nonlinear_arith);
    assert(v / (m * m * m) == x.w3);
    assert(p128() == m * m) by (nonlinear_arith)
        requires m == 0x1_0000_0000_0000_0000;
    assert(p192() == m * m * m) by (nonlinear_arith)
        requires m == 0x1_0000_0000_0000_0000;
    lemma_small_mod(x.w3 as nat, p64());
    assert(u256_of_nat(u256_val(x)).w0 == x.w0);
    assert(u256_of_nat(u256_val(x)).w1 == x.w1);
    assert(u256_of_nat(u256_val(x)).w2 == x.w2);
    assert(u256_of_nat(u256_val(x)).w3 == x.w3);
}

/// Append the eight big-endian bytes of a 64-bit word to a buffer.
pub fn push_be_u64(out: &mut Vec<u8>, w: u64)
    ensures
        final(out)@ == old(out)@ + u64_be_bytes(w),
{
    out.push((w / 0x100_0000_0000_0000 % 0x100) as u8);
    out.push((w / 0x1_0000_0000_0000 % 0x100) as u8);
    out.push((w / 0x100_0000_0000 % 0x100) as u8);
    out.push((w / 0x1_0000_0000 % 0x100) as u8);
    out.push((w / 0x100_0000 % 0x100) as u8);
    out.push((w / 0x1_0000 % 0x100) as u8);
    out.push((w / 0x100 % 0x100) as u8);
    out.push((w % 0x100) as u8);
    proof {
        assert(out@ =~= old(out)@ + u64_be_bytes(w));
    }
}

/// One 64-bit limb read big-endian from eight bytes of a buffer.
fn be_limb(bytes: &Vec<u8>, off: usize) -> (r: u64)
    requires
        off + 8 <= bytes@.len(),
    ensures
        r == be_val(bytes@.subrange(off as int, off as int + 8)),
{
    let mut acc: u64 = 0;
    let mut i: usize = 0;
    let len = bytes.len();
    proof {
        lemma_pow256_values();
        assert(bytes@.subrange(off as int, off as int) =~= Seq::<u8>::empty());
    }
    while i < 8
        invariant
            off + 8 <= bytes@.len(),
            bytes@.len() == len,
            i <= 8,
            acc == be_val(bytes@.subrange(off as int, off as int + i)),
            acc < pow256(i as nat),
            pow256(8) == p64(),
        decreases 8 - i,
    {
        let b = bytes[off + i];
        proof {
            let s1 = bytes@.subrange(off as int, off as int + i + 1);
            assert(s1.drop_last() =~= bytes@.subrange(off as int, off as int + i));
            assert(s1.last() == bytes@[off + i]);
            assert(acc * 256 + b < pow256((i + 1) as nat)) by (nonlinear_arith)
                requires
                    acc < pow256(i as nat),
                    b < 256,
                    pow256((i + 1) as nat) == 256 * pow256(i as nat),
            ;
            lemma_pow256_le((i + 1) as nat, 8);
        }
        acc = acc * 256 + b as u64;
        i = i + 1;
    }
    acc
}

/// Two words with the same value are the same word.
pub proof fn lemma_u256_val_injective(a: U256, b: U256)
    requires
        u256_val(a) == u256_val(b),
    ensures
        a == b,
{
    let m: nat = p64();
    assert(a.w0 + a.w1 * p64() + a.w2 * p128() + a.w3 * p192() == a.w0 + m * (a.w1 + m * (a.w2 + m
        * a.w3))) by (nonlinear_arith)
        requires
            m == 0x1_0000_0000_0000_0000nat,
            p64() == m,
            p128() == m * m,
            p192() == m * m * m,
    ;
    assert(b.w0 + b.w1 * p64() + b.w2 * p128() + b.w3 * p192() == b.w0 + m * (b.w1 + m * (b.w2 + m
        * b.w3))) by (nonlinear_arith)
        requires
            m == 0x1_0000_0000_0000_0000nat,
            p64() == m,
            p128() == m * m,
            p192() == m * m * m,
    ;
    assert(u256_val(a) == a.w0 + m * (a.w1 + m * (a.w2 + m * a.w3)));
    assert(u256_val(b) == b.w0 + m * (b.w1 + m * (b.w2 + m * b.w3)));
    lemma_split_digit(
        a.w0 as nat,
        (a.w1 + m * (a.w2 + m * a.w3)) as nat,
        b.w0 as nat,
        (b.w1 + m * (b.w2 + m * b.w3)) as nat,
        m,
    );
    lemma_split_digit(
        a.w1 as nat,
        (a.w2 + m * a.w3) as nat,
        b.w1 as nat,
        (b.w2 + m * b.w3) as nat,
        m,
    );
    lemma_split_digit(a.w2 as nat, a.w3 as nat, b.w2 as nat, b.w3 as nat, m);
}

/// A word's value is below 2^256.
pub proof fn lemma_u256_val_bound(a: U256)
    ensures
        u256_val(a) < u256_mod(),
{
}

impl U256 {
    /// The zero word.
    pub fn zero() -> (r: U256)
        ensures
            r@ == 0,
    {
        U256 { w0: 0, w1: 0, w2: 0, w3: 0 }
    }

    /// The word with the value of a 64-bit integer.
    pub fn from_u64(x: u64) -> (r: U256)
        ensures
            r@ == x,
    {
        U256 { w0: x, w1: 0, w2: 0, w3: 0 }
    }

    /// Whether the word is zero.
    pub fn is_zero(&self) -> (r: bool)
        ensures
            r == (self@ == 0),
    {
        self.w0 == 0 && self.w1 == 0 && self.w2 == 0 && self.w3 == 0
    }

    /// Whether two words have the same value.
    pub fn eq_val(&self, other: &U256) -> (r: bool)
        ensures
            r == (self@ == other@),
    {
        let r = self.w0 == other.w0 && self.w1 == other.w1 && self.w2 == other.w2 && self.w3
            == other.w3;
        proof {
            if !r && self@ == other@ {
                lemma_u256_val_injective(*self, *other);
            }
        }
        r
    }

    /// The value as a 64-bit integer, where it fits.
    pub fn try_to_u64(&self) -> (r: Option<u64>)
        ensures
            match r {
                Some(x) => self@ == x,
                None => self@ > u64::MAX,
            },
    {
        if self.w1 == 0 && self.w2 == 0 && self.w3 == 0 {
            Some(self.w0)
        } else {
            proof {
                assert(self@ > u64::MAX) by (nonlinear_arith)
                    requires
                        self.w1 != 0 || self.w2 != 0 || self.w3 != 0,
                        self@ == u256_val(*self),
                ;
            }
            None
        }
    }

    /// The word read big-endian from `n` bytes of a buffer, zero-extended
    /// on the left to 256 bits.
    pub fn from_be_range(bytes: &Vec<u8>, start: usize, n: usize) -> (r: U256)
        requires
            start + n <= bytes@.len(),
            n <= 32,
        ensures
            r@ == be_val(bytes@.subrange(start as int, start as int + n)),
    {
        let mut padded: Vec<u8> = Vec::new();
        let mut i: usize = 0;
        while i < 32 - n
            invariant
                n <= 32,
                i <= 32 - n,
                padded@.len() == i,
                forall|j: int| 0 <= j < i ==> padded@[j] == 0,
            decreases 32 - n - i,
        {
            padded.push(0);
            i = i + 1;
        }
        let mut j: usize = 0;
        let len = bytes.len();
        while j < n
            invariant
                start + n <= bytes@.len(),
                bytes@.len() == len,
                n <= 32,
                j <= n,
                padded@.len() == 32 - n + j,
                forall|k: int| 0 <= k < 32 - n ==> padded@[k] == 0,
                forall|k: int| 32 - n <= k < padded@.len() ==> padded@[k] == bytes@[start + k - (32
                    - n)],
            decreases n - j,
        {
            padded.push(bytes[start + j]);
            j = j + 1;
        }
        let w3 = be_limb(&padded, 0);
        let w2 = be_limb(&padded, 8);
        let w1 = be_limb(&padded, 16);
        let w0 = be_limb(&padded, 24);
        let r = U256 { w0, w1, w2, w3 };
        proof {
            lemma_pow256_values();
            let p = padded@;
            let zs = p.subrange(0, 32 - n);
            let tail = p.subrange(32 - n, 32);
            assert(p =~= zs + tail);
            assert(tail =~= bytes@.subrange(start as int, start as int + n));
            lemma_be_val_zeros(zs);
            lemma_be_val_concat(zs, tail);
            assert(be_val(zs) * pow256(tail.len()) == 0) by (nonlinear_arith)
                requires be_val(zs) == 0;
            assert(be_val(p) == be_val(tail));
            let a = p.subrange(0, 8);
            let b = p.subrange(8, 16);
            let c = p.subrange(16, 24);
            let d = p.subrange(24, 32);
            assert(p =~= p.subrange(0, 24) + d);
            lemma_be_val_concat(p.subrange(0, 24), d);
            assert(p.subrange(0, 24) =~= p.subrange(0, 16) + c);
            lemma_be_val_concat(p.subrange(0, 16), c);
            assert(p.subrange(0, 16) =~= a + b);
            lemma_be_val_concat(a, b);
            assert(w3 == be_val(a));
            assert(w2 == be_val(b));
            assert(w1 == be_val(c));
            assert(w0 == be_val(d));
            assert(be_val(p) == ((w3 * p64() + w2) * p64() + w1) * p64() + w0);
            let m: int = 0x1_0000_0000_0000_0000;
            assert(((w3 * m + w2) * m + w1) * m + w0 == w0 + w1 * m + w2 * (m * m) + w3 * (m * m
                * m)) by (nonlinear_arith);
            assert(p128() == m * m) by (nonlinear_arith)
                requires m == 0x1_0000_0000_0000_0000;
            assert(p192() == m * (m * m)) by (nonlinear_arith)
                requires m == 0x1_0000_0000_0000_0000;
            assert(m * m * m == m * (m * m)) by (nonlinear_arith);
            assert(r@ == be_val(p));
        }
        r
    }

    /// The 32 bytes of the word, most significant first.
    #[verifier::rlimit(60)]
    pub fn to_be_bytes(&self) -> (r: Vec<u8>)
        ensures
            r@ == u256_be_bytes(*self),
            r@.len() == 32,
    {
        let mut out: Vec<u8> = Vec::new();
        push_be_u64(&mut out, self.w3);
        push_be_u64(&mut out, self.w2);
        push_be_u64(&mut out, self.w1);
        push_be_u64(&mut out, self.w0);
        proof {
            assert(out@ =~= u256_be_bytes(*self));
        }
        out
    }

    /// The sum of two words, modulo 2^256.
    pub fn wrapping_add(&self, other: &U256) -> (r: U256)
        ensures
            r@ == (self@ + other@) % u256_mod(),
    {
        let m: u128 = 0x1_0000_0000_0000_0000;
        let s0: u128 = self.w0 as u128 + other.w0 as u128;
        let r0: u64 = (s0 % m) as u64;
        let c0: u128 = s0 / m;
        let s1: u128 = self.w1 as u128 + other.w1 as u128 + c0;
        let r1: u64 = (s1 % m) as u64;
        let c1: u128 = s1 / m;
        let s2: u128 = self.w2 as u128 + other.w2 as u128 + c1;
        let r2: u64 = (s2 % m) as u64;
        let c2: u128 = s2 / m;
        let s3: u128 = self.w3 as u128 + other.w3 as u128 + c2;
        let r3: u64 = (s3 % m) as u64;
        let c3: u128 = s3 / m;
        let r = U256 { w0: r0, w1: r1, w2: r2, w3: r3 };
        proof {
            let mm: int = 0x1_0000_0000_0000_0000;
            let a0 = self.w0 as int;
            let a1 = self.w1 as int;
            let a2 = self.w2 as int;
            let a3 = self.w3 as int;
            let b0 = other.w0 as int;
            let b1 = other.w1 as int;
            let b2 = other.w2 as int;
            let b3 = other.w3 as int;
            let v0 = r0 as int;
            let v1 = r1 as int;
            let v2 = r2 as int;
            let v3 = r3 as int;
            let k0 = c0 as int;
            let k1 = c1 as int;
            let k2 = c2 as int;
            let k3 = c3 as int;
            assert(a0 + b0 == v0 + mm * k0);
            assert(a1 + b1 + k0 == v1 + mm * k1);
            assert(a2 + b2 + k1 == v2 + mm * k2);
            assert(a3 + b3 + k2 == v3 + mm * k3);
            assert(v0 + v1 * mm + v2 * (mm * mm) + v3 * (mm * mm * mm) + k3 * (mm * mm * mm * mm)
                == a0 + a1 * mm + a2 * (mm * mm) + a3 * (mm * mm * mm) + b0 + b1 * mm + b2 * (mm
                * mm) + b3 * (mm * mm * mm)) by (nonlinear_arith)
                requires
                    a0 + b0 == v0 + mm * k0,
                    a1 + b1 + k0 == v1 + mm * k1,
                    a2 + b2 + k1 == v2 + mm * k2,
                    a3 + b3 + k2 == v3 + mm * k3,
            ;
            assert(p128() == mm * mm) by (nonlinear_arith)
                requires mm == 0x1_0000_0000_0000_0000;
            assert(p192() == mm * (mm * mm)) by (nonlinear_arith)
                requires mm == 0x1_0000_0000_0000_0000;
            assert(u256_mod() == (mm * mm) * (mm * mm)) by (nonlinear_arith)
                requires mm == 0x1_0000_0000_0000_0000;
            assert(mm * mm * mm == mm * (mm * mm)) by (nonlinear_arith);
            assert(mm * mm * mm * mm == (mm * mm) * (mm * mm)) by (nonlinear_arith);
            assert(u256_val(r) + k3 * (u256_mod() as int) == self@ + other@);
            lemma_u256_val_bound(r);
            lemma_mod_multiples_vanish(k3, u256_val(r) as int, u256_mod() as int);
            lemma_small_mod(u256_val(r), u256_mod());
            assert(k3 * (u256_mod() as int) == (u256_mod() as int) * k3) by (nonlinear_arith);
            assert((u256_mod() as int) * k3 + (u256_val(r) as int) == (self@ + other@) as int);
            assert(((self@ + other@) as int) % (u256_mod() as int) == (u256_val(r) as int) % (
            u256_mod() as int));
            assert(u256_val(r) % u256_mod() == u256_val(r));
        }
        r
    }
}

} // verus!
