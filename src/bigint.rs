//! Arbitrary-precision signed integers, held as two's-complement big-endian
//! bytes. The arithmetic itself is done by `num_bigint`.

use crate::opcodes::{min_push_width, pow256};
use num_bigint::BigInt;
use vstd::prelude::*;

verus! {

/// The value of big-endian bytes, read as an unsigned number.
pub open spec fn be_value(s: Seq<u8>) -> nat
    decreases s.len(),
{
    if s.len() == 0 {
        0
    } else {
        (be_value(s.drop_last()) * 256 + s.last()) as nat
    }
}

/// The value of big-endian bytes, read in two's complement; no bytes read as 0.
pub open spec fn twos_value(s: Seq<u8>) -> int {
    if s.len() > 0 && s[0] >= 0x80 {
        be_value(s) - pow256(s.len())
    } else {
        be_value(s) as int
    }
}

/// Division that rounds toward zero, as Rust's integer division does.
pub open spec fn trunc_div(a: int, b: int) -> int
    recommends
        b != 0,
{
    let q = abs(a) / abs(b);
    if (a < 0) != (b < 0) {
        -q
    } else {
        q as int
    }
}

/// The absolute value.
pub open spec fn abs(a: int) -> nat {
    if a < 0 {
        (-a) as nat
    } else {
        a as nat
    }
}

/// An integer of any size.
#[derive(Debug, Clone)]
pub struct Int {
    /// Two's-complement big-endian bytes; any sequence is valid.
    pub bytes: Vec<u8>,
}

impl View for Int {
    type V = int;

    open spec fn view(&self) -> int {
        twos_value(self.bytes@)
    }
}

/// Relies on `BigInt::from_signed_bytes_be`, `BigInt + BigInt` and
/// `BigInt::to_signed_bytes_be`: exact addition.
#[verifier::external_body]
fn big_add(a: &Int, b: &Int) -> (r: Int)
    ensures
        r@ == a@ + b@,
{
    let sum = BigInt::from_signed_bytes_be(&a.bytes) + BigInt::from_signed_bytes_be(&b.bytes);
    Int { bytes: sum.to_signed_bytes_be() }
}

/// Relies on `BigInt::from_signed_bytes_be`, `BigInt - BigInt` and
/// `BigInt::to_signed_bytes_be`: exact subtraction.
#[verifier::external_body]
fn big_sub(a: &Int, b: &Int) -> (r: Int)
    ensures
        r@ == a@ - b@,
{
    let diff = BigInt::from_signed_bytes_be(&a.bytes) - BigInt::from_signed_bytes_be(&b.bytes);
    Int { bytes: diff.to_signed_bytes_be() }
}

/// Relies on `BigInt::from_signed_bytes_be`, `BigInt * BigInt` and
/// `BigInt::to_signed_bytes_be`: exact multiplication.
#[verifier::external_body]
fn big_mul(a: &Int, b: &Int) -> (r: Int)
    ensures
        r@ == a@ * b@,
{
    let prod = BigInt::from_signed_bytes_be(&a.bytes) * BigInt::from_signed_bytes_be(&b.bytes);
    Int { bytes: prod.to_signed_bytes_be() }
}

/// Relies on `BigInt::from_signed_bytes_be`, `BigInt / BigInt` (which rounds
/// toward zero and panics on a zero divisor) and `BigInt::to_signed_bytes_be`.
#[verifier::external_body]
fn big_div(a: &Int, b: &Int) -> (r: Int)
    requires
        b@ != 0,
    ensures
        r@ == trunc_div(a@, b@),
{
    let quot = BigInt::from_signed_bytes_be(&a.bytes) / BigInt::from_signed_bytes_be(&b.bytes);
    Int { bytes: quot.to_signed_bytes_be() }
}

/// Relies on `BigInt::from(i128)` and `BigInt::to_signed_bytes_be`: the bytes
/// of the same value.
#[verifier::external_body]
fn big_from_i128(v: i128) -> (r: Int)
    ensures
        r@ == v,
{
    Int { bytes: BigInt::from(v).to_signed_bytes_be() }
}

/// Leading zero bytes do not change the unsigned value.
pub proof fn lemma_be_zero_prefix(s: Seq<u8>)
    ensures
        be_value(seq![0u8] + s) == be_value(s),
    decreases s.len(),
{
    let t = seq![0u8] + s;
    if s.len() == 0 {
        assert(t.drop_last() =~= Seq::<u8>::empty());
        assert(be_value(t) == be_value(t.drop_last()) * 256 + t.last());
    } else {
        assert(t.drop_last() =~= seq![0u8] + s.drop_last());
        assert(t.last() == s.last());
        lemma_be_zero_prefix(s.drop_last());
    }
}

/// The bytes from `i` on have the value of the whole when those before `i`
/// are zero.
pub proof fn lemma_be_skip_zeros(s: Seq<u8>, i: int)
    requires
        0 <= i <= s.len(),
        forall|j: int| 0 <= j < i ==> s[j] == 0,
    ensures
        be_value(s.subrange(i, s.len() as int)) == be_value(s),
    decreases i,
{
    if i > 0 {
        lemma_be_skip_zeros(s, i - 1);
        assert(s.subrange(i - 1, s.len() as int) =~= seq![0u8] + s.subrange(i, s.len() as int));
        lemma_be_zero_prefix(s.subrange(i, s.len() as int));
    } else {
        assert(s.subrange(0, s.len() as int) =~= s);
    }
}

/// `n` bytes hold the values below `256^n`.
pub proof fn lemma_be_upper(s: Seq<u8>)
    ensures
        be_value(s) < pow256(s.len()),
    decreases s.len(),
{
    if s.len() > 0 {
        let d = s.drop_last();
        lemma_be_upper(d);
        let p = pow256(d.len());
        let v = be_value(d);
        let l = s.last() as int;
        assert(v * 256 + l < p * 256) by (nonlinear_arith)
            requires
                v < p,
                0 <= l < 256,
        ;
    }
}

/// Bytes that start with a non-zero byte have a value of at least `256^(n-1)`.
pub proof fn lemma_be_lower(s: Seq<u8>)
    requires
        s.len() > 0,
        s[0] != 0,
    ensures
        be_value(s) >= pow256((s.len() - 1) as nat),
    decreases s.len(),
{
    if s.len() > 1 {
        let d = s.drop_last();
        lemma_be_lower(d);
        let p = pow256((d.len() - 1) as nat);
        let v = be_value(d);
        assert(v * 256 >= p * 256) by (nonlinear_arith)
            requires
                v >= p,
        ;
    } else {
        assert(s.drop_last().len() == 0);
    }
}

/// A value of `k` significant bytes needs a push of width `k`.
pub proof fn lemma_min_push_width(v: nat, k: nat)
    requires
        k >= 1,
        v < pow256(k),
        k == 1 || v >= pow256((k - 1) as nat),
    ensures
        min_push_width(v) == k,
    decreases k,
{
    if k > 1 {
        let p = pow256((k - 2) as nat);
        assert(pow256((k - 1) as nat) == 256 * p);
        assert(pow256(k) == 256 * (256 * p));
        assert(v / 256 < 256 * p && (k - 1 == 1 || v / 256 >= p)) by (nonlinear_arith)
            requires
                v < 256 * (256 * p),
                v >= 256 * p,
                p >= 1,
        ;
        lemma_pow256_positive((k - 2) as nat);
        lemma_min_push_width(v / 256, (k - 1) as nat);
        assert(v >= 256);
    } else {
        reveal_with_fuel(pow256, 2);
    }
}

/// Powers of 256 are positive.
pub proof fn lemma_pow256_positive(n: nat)
    ensures
        pow256(n) >= 1,
    decreases n,
{
    if n > 0 {
        lemma_pow256_positive((n - 1) as nat);
    }
}

/// Zero bytes put in front keep the unsigned value.
pub proof fn lemma_be_zero_pad(z: Seq<u8>, s: Seq<u8>)
    requires
        forall|j: int| 0 <= j < z.len() ==> z[j] == 0,
    ensures
        be_value(z + s) == be_value(s),
{
    let t = z + s;
    assert forall|j: int| 0 <= j < z.len() implies t[j] == 0 by {}
    lemma_be_skip_zeros(t, z.len() as int);
    assert(t.subrange(z.len() as int, t.len() as int) =~= s);
}

/// The value of two's-complement bytes is negative exactly when the first
/// byte has its top bit set.
pub proof fn lemma_twos_sign(s: Seq<u8>)
    ensures
        (twos_value(s) < 0) == (s.len() > 0 && s[0] >= 0x80),
        twos_value(s) >= 0 ==> twos_value(s) == be_value(s),
{
    lemma_be_upper(s);
}

impl Int {
    /// Zero.
    pub fn zero() -> (r: Int)
        ensures
            r@ == 0,
    {
        Int { bytes: Vec::new() }
    }

    /// The integer `v`.
    pub fn from_i128(v: i128) -> (r: Int)
        ensures
            r@ == v,
    {
        big_from_i128(v)
    }

    /// The non-negative integer whose big-endian bytes are `magnitude`.
    pub fn from_be_bytes(magnitude: &[u8]) -> (r: Int)
        ensures
            r@ == be_value(magnitude@),
    {
        let mut bytes: Vec<u8> = Vec::new();
        bytes.push(0);
        let mut i: usize = 0;
        while i < magnitude.len()
            invariant
                i <= magnitude@.len(),
                bytes@ == seq![0u8] + magnitude@.subrange(0, i as int),
            decreases magnitude@.len() - i,
        {
            bytes.push(magnitude[i]);
            i += 1;
            assert(bytes@ =~= seq![0u8] + magnitude@.subrange(0, i as int));
        }
        proof {
            assert(magnitude@.subrange(0, i as int) =~= magnitude@);
            lemma_be_zero_prefix(magnitude@);
        }
        Int { bytes }
    }

    /// A copy of the integer.
    pub fn copy(&self) -> (r: Int)
        ensures
            r@ == self@,
            r.bytes@ == self.bytes@,
    {
        Int { bytes: self.bytes.clone() }
    }

    /// The sum.
    pub fn add(&self, other: &Int) -> (r: Int)
        ensures
            r@ == self@ + other@,
    {
        big_add(self, other)
    }

    /// The difference.
    pub fn sub(&self, other: &Int) -> (r: Int)
        ensures
            r@ == self@ - other@,
    {
        big_sub(self, other)
    }

    /// The product.
    pub fn mul(&self, other: &Int) -> (r: Int)
        ensures
            r@ == self@ * other@,
    {
        big_mul(self, other)
    }

    /// The quotient rounded toward zero, or `None` for a zero divisor.
    pub fn div(&self, other: &Int) -> (r: Option<Int>)
        ensures
            other@ == 0 ==> r is None,
            other@ != 0 ==> (r matches Some(q) && q@ == trunc_div(self@, other@)),
    {
        if other.is_zero() {
            None
        } else {
            Some(big_div(self, other))
        }
    }

    /// The negation.
    pub fn neg(&self) -> (r: Int)
        ensures
            r@ == -self@,
    {
        big_sub(&Int::zero(), self)
    }

    /// Whether the two integers are equal.
    pub fn equals(&self, other: &Int) -> (r: bool)
        ensures
            r == (self@ == other@),
    {
        self.sub(other).is_zero()
    }

    /// Whether the integer is below zero.
    pub fn is_negative(&self) -> (r: bool)
        ensures
            r == (self@ < 0),
    {
        proof {
            lemma_twos_sign(self.bytes@);
        }
        self.bytes.len() > 0 && self.bytes[0] >= 0x80
    }

    /// Whether the integer is zero.
    pub fn is_zero(&self) -> (r: bool)
        ensures
            r == (self@ == 0),
    {
        let mut i: usize = 0;
        while i < self.bytes.len()
            invariant
                i <= self.bytes@.len(),
                forall|j: int| 0 <= j < i ==> self.bytes@[j] == 0,
            decreases self.bytes@.len() - i,
        {
            if self.bytes[i] != 0 {
                proof {
                    self.lemma_nonzero_byte(i as int);
                }
                return false;
            }
            i += 1;
        }
        proof {
            lemma_be_skip_zeros(self.bytes@, i as int);
            assert(self.bytes@.subrange(i as int, i as int).len() == 0);
        }
        true
    }

    /// Bytes with a non-zero byte hold a non-zero value.
    proof fn lemma_nonzero_byte(&self, i: int)
        requires
            0 <= i < self.bytes@.len(),
            self.bytes@[i] != 0,
            forall|j: int| 0 <= j < i ==> self.bytes@[j] == 0,
        ensures
            self@ != 0,
    {
        let s = self.bytes@;
        lemma_twos_sign(s);
        if twos_value(s) >= 0 {
            lemma_be_skip_zeros(s, i);
            lemma_be_lower(s.subrange(i, s.len() as int));
            lemma_pow256_positive((s.len() - i - 1) as nat);
        }
    }

    /// The index of the first byte that is not zero, or the length.
    fn first_significant(&self) -> (r: usize)
        ensures
            r <= self.bytes@.len(),
            forall|j: int| 0 <= j < r ==> self.bytes@[j] == 0,
            r < self.bytes@.len() ==> self.bytes@[r as int] != 0,
    {
        let mut i: usize = 0;
        while i < self.bytes.len() && self.bytes[i] == 0
            invariant
                i <= self.bytes@.len(),
                forall|j: int| 0 <= j < i ==> self.bytes@[j] == 0,
            decreases self.bytes@.len() - i,
        {
            i += 1;
        }
        i
    }

    /// The width of the smallest push whose immediate holds this
    /// non-negative value.
    pub fn push_width(&self) -> (r: usize)
        requires
            self@ >= 0,
        ensures
            r as nat == min_push_width(self@ as nat),
    {
        let s = Ghost(self.bytes@);
        proof {
            lemma_twos_sign(s@);
        }
        let start = self.first_significant();
        let k = self.bytes.len() - start;
        proof {
            let m = s@.subrange(start as int, s@.len() as int);
            lemma_be_skip_zeros(s@, start as int);
            lemma_be_upper(m);
            if k > 0 {
                lemma_be_lower(m);
                lemma_min_push_width(self@ as nat, k as nat);
            } else {
                reveal_with_fuel(pow256, 2);
                lemma_min_push_width(self@ as nat, 1);
            }
        }
        if k == 0 {
            1
        } else {
            k
        }
    }

    /// The value as exactly `width` big-endian bytes, if it is non-negative
    /// and fits.
    pub fn to_be_bytes(&self, width: usize) -> (r: Option<Vec<u8>>)
        requires
            self@ >= 0,
        ensures
            r is Some == (self@ < pow256(width as nat)),
            r matches Some(b) ==> b@.len() == width && be_value(b@) == self@,
    {
        let s = Ghost(self.bytes@);
        proof {
            lemma_twos_sign(s@);
        }
        let start = self.first_significant();
        let k = self.bytes.len() - start;
        let ghost m = s@.subrange(start as int, s@.len() as int);
        proof {
            lemma_be_skip_zeros(s@, start as int);
            lemma_be_upper(m);
        }
        if k > width {
            proof {
                lemma_be_lower(m);
                lemma_pow256_monotone(width as nat, (k - 1) as nat);
            }
            return None;
        }
        let mut out: Vec<u8> = Vec::new();
        while out.len() < width - k
            invariant
                out@.len() <= width - k,
                forall|j: int| 0 <= j < out@.len() ==> out@[j] == 0,
            decreases width - k - out@.len(),
        {
            out.push(0);
        }
        let ghost z = out@;
        let mut i: usize = start;
        while i < self.bytes.len()
            invariant
                start <= i <= self.bytes@.len(),
                self.bytes@ == s@,
                out@ == z + s@.subrange(start as int, i as int),
            decreases self.bytes@.len() - i,
        {
            out.push(self.bytes[i]);
            i += 1;
            assert(out@ =~= z + s@.subrange(start as int, i as int));
        }
        proof {
            lemma_be_zero_pad(z, m);
            lemma_pow256_monotone(k as nat, width as nat);
        }
        Some(out)
    }
}

/// Powers of 256 grow with the exponent.
pub proof fn lemma_pow256_monotone(a: nat, b: nat)
    requires
        a <= b,
    ensures
        pow256(a) <= pow256(b),
    decreases b,
{
    if a < b {
        lemma_pow256_monotone(a, (b - 1) as nat);
    }
}

} // verus!
