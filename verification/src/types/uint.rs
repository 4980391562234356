//! Fixed-width unsigned integers wider than the machine's, held as 64-bit limbs.
//!
//! A `Wide<N>` stands for a natural number below `2^(64 * N)`, least significant limb first.
//! All arithmetic is stated over that number.

use vstd::arithmetic::div_mod::lemma_fundamental_div_mod_converse;
use vstd::prelude::*;

verus! {

/// `2^(64 * n)`: the weight of limb `n`.
pub open spec fn radix_pow(n: nat) -> nat
    decreases n,
{
    if n == 0 {
        1
    } else {
        0x1_0000_0000_0000_0000 * radix_pow((n - 1) as nat)
    }
}

/// The number that the first `n` limbs of `limbs` stand for.
pub open spec fn limbs_value(limbs: Seq<u64>, n: nat) -> nat
    decreases n,
{
    if n == 0 {
        0
    } else {
        limbs_value(limbs, (n - 1) as nat) + (limbs[n - 1] as nat) * radix_pow((n - 1) as nat)
    }
}

/// Every limb has a weight above zero.
pub proof fn lemma_radix_pow_positive(n: nat)
    ensures
        radix_pow(n) > 0,
    decreases n,
{
    if n > 0 {
        lemma_radix_pow_positive((n - 1) as nat);
        assert(0x1_0000_0000_0000_0000 * radix_pow((n - 1) as nat) > 0) by (nonlinear_arith)
            requires
                radix_pow((n - 1) as nat) > 0,
        ;
    }
}

/// `n` limbs stand for a number below `2^(64 * n)`.
pub proof fn lemma_limbs_value_bound(limbs: Seq<u64>, n: nat)
    ensures
        limbs_value(limbs, n) < radix_pow(n),
    decreases n,
{
    if n > 0 {
        let m = (n - 1) as nat;
        lemma_limbs_value_bound(limbs, m);
        let l = limbs[n - 1] as nat;
        let p = radix_pow(m);
        assert(l * p + p <= 0x1_0000_0000_0000_0000 * p) by (nonlinear_arith)
            requires
                l < 0x1_0000_0000_0000_0000,
        ;
    }
}

/// The value of the first `n` limbs depends on those limbs only.
pub proof fn lemma_limbs_value_prefix(a: Seq<u64>, b: Seq<u64>, n: nat)
    requires
        forall|j: int| 0 <= j < n ==> a[j] == b[j],
    ensures
        limbs_value(a, n) == limbs_value(b, n),
    decreases n,
{
    if n > 0 {
        lemma_limbs_value_prefix(a, b, (n - 1) as nat);
    }
}

/// Limbs that are all zero stand for zero.
pub proof fn lemma_limbs_value_zero(a: Seq<u64>, n: nat)
    requires
        forall|j: int| 0 <= j < n ==> a[j] == 0,
    ensures
        limbs_value(a, n) == 0,
    decreases n,
{
    if n > 0 {
        lemma_limbs_value_zero(a, (n - 1) as nat);
        assert(0 * radix_pow((n - 1) as nat) == 0) by (nonlinear_arith);
    }
}

/// Replacing limb `k` changes the value by the difference times the limb's weight.
pub proof fn lemma_limbs_value_update(a: Seq<u64>, k: int, v: u64, n: nat)
    requires
        0 <= k < n,
        n <= a.len(),
    ensures
        limbs_value(a.update(k, v), n) + (a[k] as nat) * radix_pow(k as nat) == limbs_value(a, n)
            + (v as nat) * radix_pow(k as nat),
    decreases n,
{
    let b = a.update(k, v);
    if k == n - 1 {
        lemma_limbs_value_prefix(a, b, (n - 1) as nat);
    } else {
        lemma_limbs_value_update(a, k, v, (n - 1) as nat);
    }
}

/// Where two limb strings agree above limb `k` and differ at `k`, limb `k` decides the order.
pub proof fn lemma_limbs_value_order(a: Seq<u64>, b: Seq<u64>, k: int, n: nat)
    requires
        0 <= k < n,
        a[k] < b[k],
        forall|j: int| k < j < n ==> a[j] == b[j],
    ensures
        limbs_value(a, n) < limbs_value(b, n),
    decreases n,
{
    if k == n - 1 {
        lemma_limbs_value_bound(a, k as nat);
        let p = radix_pow(k as nat);
        let x = a[k] as nat;
        let y = b[k] as nat;
        assert(x * p + p <= y * p) by (nonlinear_arith)
            requires
                x < y,
        ;
    } else {
        lemma_limbs_value_order(a, b, k, (n - 1) as nat);
    }
}

/// Limb strings that stand for the same number are the same.
pub proof fn lemma_limbs_value_decides(a: Seq<u64>, b: Seq<u64>, n: nat)
    requires
        limbs_value(a, n) == limbs_value(b, n),
    ensures
        forall|j: int| 0 <= j < n ==> a[j] == b[j],
    decreases n,
{
    if n > 0 {
        let k = (n - 1) as int;
        if a[k] < b[k] {
            lemma_limbs_value_order(a, b, k, n);
        } else if b[k] < a[k] {
            lemma_limbs_value_order(b, a, k, n);
        }
        lemma_limbs_value_decides(a, b, (n - 1) as nat);
    }
}

/// An unsigned integer of `N` limbs of 64 bits.
#[derive(Clone, Copy, Debug)]
pub struct Wide<const N: usize> {
    limbs: [u64; N],
}

/// A 256-bit unsigned integer.
pub type U256 = Wide<4>;

/// A 512-bit unsigned integer.
pub type U512 = Wide<8>;

impl<const N: usize> View for Wide<N> {
    type V = nat;

    open spec fn view(&self) -> nat {
        limbs_value(self.spec_limbs(), N as nat)
    }
}

impl<const N: usize> Wide<N> {
    /// The limbs, least significant first.
    pub closed spec fn spec_limbs(&self) -> Seq<u64> {
        self.limbs@
    }

    /// One more than the largest value of the type.
    pub open spec fn modulus() -> nat {
        radix_pow(N as nat)
    }

    /// Every value lies below the modulus of its type.
    pub proof fn lemma_bound(&self)
        ensures
            self@ < Self::modulus(),
            self.spec_limbs().len() == N,
    {
        lemma_limbs_value_bound(self.spec_limbs(), N as nat);
    }

    /// The value of the type that stands for `n`, where `n` is below the modulus.
    pub open spec fn spec_from_nat(n: nat) -> Self {
        choose|w: Self| w@ == n
    }

    /// Two values that stand for the same number are the same value.
    pub proof fn lemma_view_decides(&self, other: &Self)
        requires
            self@ == other@,
        ensures
            *self == *other,
            Self::spec_from_nat(self@) == *self,
    {
        lemma_limbs_value_decides(self.spec_limbs(), other.spec_limbs(), N as nat);
        assert(self.limbs@ =~= other.limbs@);
        assert(self.limbs =~= other.limbs);
        let w = Self::spec_from_nat(self@);
        lemma_limbs_value_decides(self.spec_limbs(), w.spec_limbs(), N as nat);
        assert(self.limbs@ =~= w.limbs@);
        assert(self.limbs =~= w.limbs);
    }

    pub fn from_limbs(limbs: [u64; N]) -> (r: Self)
        ensures
            r.spec_limbs() == limbs@,
    {
        Wide { limbs }
    }

    pub fn limbs(&self) -> (r: [u64; N])
        ensures
            r@ == self.spec_limbs(),
    {
        self.limbs
    }

    pub fn zero() -> (r: Self)
        ensures
            r@ == 0,
    {
        let r = Wide { limbs: [0u64; N] };
        proof {
            lemma_limbs_value_zero(r.limbs@, N as nat);
        }
        r
    }

    /// The value `v`, or `0` where the type has no limb to hold it.
    pub fn from_u64(v: u64) -> (r: Self)
        ensures
            N >= 1 ==> r@ == v,
            N == 0 ==> r@ == 0,
    {
        let mut limbs = [0u64; N];
        if N > 0 {
            let ghost zeros = limbs@;
            limbs[0] = v;
            proof {
                lemma_limbs_value_zero(zeros, N as nat);
                lemma_limbs_value_update(zeros, 0, v, N as nat);
                assert(limbs@ =~= zeros.update(0, v));
                assert((v as nat) * radix_pow(0) == v) by (nonlinear_arith)
                    requires
                        radix_pow(0) == 1,
                ;
                assert(0 * radix_pow(0) == 0) by (nonlinear_arith);
            }
        } else {
            proof {
                lemma_limbs_value_zero(limbs@, N as nat);
            }
        }
        Wide { limbs }
    }

    /// The value `v` where the type has the two limbs to hold it: with one limb, `v`
    /// modulo `2^64`, and with none, `0`.
    pub fn from_u128(v: u128) -> (r: Self)
        ensures
            N >= 2 ==> r@ == v,
            N == 1 ==> r@ == v % 0x1_0000_0000_0000_0000,
            N == 0 ==> r@ == 0,
    {
        let lo: u64 = (v % 0x1_0000_0000_0000_0000u128) as u64;
        let hi: u64 = (v / 0x1_0000_0000_0000_0000u128) as u64;
        if N < 2 {
            return Self::from_u64(lo);
        }
        let mut limbs = [0u64; N];
        let ghost zeros = limbs@;
        limbs[0] = lo;
        let ghost mid = limbs@;
        limbs[1] = hi;
        proof {
            lemma_limbs_value_zero(zeros, N as nat);
            lemma_limbs_value_update(zeros, 0, lo, N as nat);
            assert(mid =~= zeros.update(0, lo));
            lemma_limbs_value_update(mid, 1, hi, N as nat);
            assert(limbs@ =~= mid.update(1, hi));
            reveal_with_fuel(radix_pow, 3);
            assert(radix_pow(0) == 1);
            assert(radix_pow(1) == 0x1_0000_0000_0000_0000) by (nonlinear_arith)
                requires
                    radix_pow(1) == 0x1_0000_0000_0000_0000 * radix_pow(0),
                    radix_pow(0) == 1,
            ;
            assert(0 * radix_pow(0) == 0) by (nonlinear_arith);
            assert(0 * radix_pow(1) == 0) by (nonlinear_arith);
            assert((lo as nat) * radix_pow(0) == lo) by (nonlinear_arith)
                requires
                    radix_pow(0) == 1,
            ;
            assert((hi as nat) * radix_pow(1) == (hi as nat) * 0x1_0000_0000_0000_0000)
                by (nonlinear_arith)
                requires
                    radix_pow(1) == 0x1_0000_0000_0000_0000,
            ;
        }
        Wide { limbs }
    }

    pub fn is_zero(&self) -> (r: bool)
        ensures
            r == (self@ == 0),
    {
        let z = Self::zero();
        !z.lt(self)
    }

    /// The sum modulo `2^(64 * N)`, and whether the true sum was too large for the type.
    pub fn overflowing_add(&self, other: &Self) -> (r: (Self, bool))
        ensures
            r.0@ == (self@ + other@) % Self::modulus(),
            r.1 == (self@ + other@ >= Self::modulus()),
    {
        let mut out = [0u64; N];
        let mut carry: u64 = 0;
        let mut i: usize = 0;
        while i < N
            invariant
                i <= N,
                carry <= 1,
                limbs_value(out@, i as nat) + (carry as nat) * radix_pow(i as nat) == limbs_value(
                    self.limbs@,
                    i as nat,
                ) + limbs_value(other.limbs@, i as nat),
            decreases N - i,
        {
            let s: u128 = self.limbs[i] as u128 + other.limbs[i] as u128 + carry as u128;
            let lo: u64 = (s % 0x1_0000_0000_0000_0000u128) as u64;
            let hi: u64 = (s / 0x1_0000_0000_0000_0000u128) as u64;
            let ghost before = out@;
            let ghost old_carry = carry as nat;
            out[i] = lo;
            carry = hi;
            proof {
                let p = radix_pow(i as nat);
                lemma_limbs_value_prefix(before, out@, i as nat);
                let a = self.limbs@[i as int] as nat;
                let b = other.limbs@[i as int] as nat;
                assert((lo as nat) * p + (hi as nat) * (0x1_0000_0000_0000_0000 * p) == a * p + b
                    * p + old_carry * p) by (nonlinear_arith)
                    requires
                        lo as nat + (hi as nat) * 0x1_0000_0000_0000_0000 == a + b + old_carry,
                ;
            }
            i += 1;
        }
        proof {
            lemma_limbs_value_bound(out@, N as nat);
            lemma_radix_pow_positive(N as nat);
            let m = radix_pow(N as nat) as int;
            let total = (self@ + other@) as int;
            let v = limbs_value(out@, N as nat) as int;
            assert((carry as int) * m == (carry as nat) * radix_pow(N as nat)) by (nonlinear_arith)
                requires
                    m == radix_pow(N as nat),
            ;
            lemma_fundamental_div_mod_converse(total, m, carry as int, v);
            if carry == 1 {
                assert(1 * m == m) by (nonlinear_arith);
            } else {
                assert(0 * m == 0) by (nonlinear_arith);
            }
        }
        (Wide { limbs: out }, carry == 1)
    }

    /// The sum modulo `2^(64 * N)`.
    pub fn wrapping_add(&self, other: &Self) -> (r: Self)
        ensures
            r@ == (self@ + other@) % Self::modulus(),
    {
        self.overflowing_add(other).0
    }

    /// The sum, where the type can hold it.
    pub fn checked_add(&self, other: &Self) -> (r: Option<Self>)
        ensures
            self@ + other@ < Self::modulus() ==> r == Some(r.unwrap()) && r.unwrap()@ == self@
                + other@,
            self@ + other@ >= Self::modulus() ==> r.is_none(),
    {
        let (sum, over) = self.overflowing_add(other);
        if over {
            None
        } else {
            proof {
                lemma_radix_pow_positive(N as nat);
                lemma_fundamental_div_mod_converse(
                    (self@ + other@) as int,
                    Self::modulus() as int,
                    0,
                    (self@ + other@) as int,
                );
            }
            Some(sum)
        }
    }

    /// The difference modulo `2^(64 * N)`, and whether `other` was the larger.
    pub fn overflowing_sub(&self, other: &Self) -> (r: (Self, bool))
        ensures
            r.0@ == (self@ - other@) % (Self::modulus() as int),
            r.1 == (self@ < other@),
    {
        let mut out = [0u64; N];
        let mut borrow: u64 = 0;
        let mut i: usize = 0;
        while i < N
            invariant
                i <= N,
                borrow <= 1,
                limbs_value(out@, i as nat) + limbs_value(other.limbs@, i as nat) == limbs_value(
                    self.limbs@,
                    i as nat,
                ) + (borrow as nat) * radix_pow(i as nat),
            decreases N - i,
        {
            let t: u128 = self.limbs[i] as u128 + 0x1_0000_0000_0000_0000u128
                - other.limbs[i] as u128 - borrow as u128;
            let lo: u64 = (t % 0x1_0000_0000_0000_0000u128) as u64;
            let kept: u64 = (t / 0x1_0000_0000_0000_0000u128) as u64;
            let ghost before = out@;
            let ghost old_borrow = borrow as nat;
            out[i] = lo;
            borrow = 1 - kept;
            proof {
                let p = radix_pow(i as nat);
                lemma_limbs_value_prefix(before, out@, i as nat);
                let a = self.limbs@[i as int] as nat;
                let b = other.limbs@[i as int] as nat;
                assert((lo as nat) * p + b * p + old_borrow * p == a * p + (borrow as nat) * (
                0x1_0000_0000_0000_0000 * p)) by (nonlinear_arith)
                    requires
                        lo as nat + b + old_borrow == a + (borrow as nat) * 0x1_0000_0000_0000_0000,
                ;
            }
            i += 1;
        }
        proof {
            lemma_limbs_value_bound(out@, N as nat);
            lemma_limbs_value_bound(self.limbs@, N as nat);
            lemma_limbs_value_bound(other.limbs@, N as nat);
            lemma_radix_pow_positive(N as nat);
            let m = radix_pow(N as nat) as int;
            let v = limbs_value(out@, N as nat) as int;
            let q = -(borrow as int);
            assert(q * m + (borrow as nat) * radix_pow(N as nat) == 0) by (nonlinear_arith)
                requires
                    m == radix_pow(N as nat),
                    q == -(borrow as int),
            ;
            lemma_fundamental_div_mod_converse(self@ - other@, m, q, v);
            if borrow == 1 {
                assert(1 * radix_pow(N as nat) == radix_pow(N as nat)) by (nonlinear_arith);
            } else {
                assert(0 * radix_pow(N as nat) == 0) by (nonlinear_arith);
            }
        }
        (Wide { limbs: out }, borrow == 1)
    }

    /// The difference modulo `2^(64 * N)`.
    pub fn wrapping_sub(&self, other: &Self) -> (r: Self)
        ensures
            r@ == (self@ - other@) % (Self::modulus() as int),
    {
        self.overflowing_sub(other).0
    }

    /// The difference, where it is not negative.
    pub fn checked_sub(&self, other: &Self) -> (r: Option<Self>)
        ensures
            self@ >= other@ ==> r == Some(r.unwrap()) && r.unwrap()@ == self@ - other@,
            self@ < other@ ==> r.is_none(),
    {
        let (diff, under) = self.overflowing_sub(other);
        if under {
            None
        } else {
            proof {
                self.lemma_bound();
                lemma_radix_pow_positive(N as nat);
                lemma_fundamental_div_mod_converse(
                    self@ - other@,
                    Self::modulus() as int,
                    0,
                    self@ - other@,
                );
            }
            Some(diff)
        }
    }

    /// Whether `self` is the smaller number.
    pub fn lt(&self, other: &Self) -> (r: bool)
        ensures
            r == (self@ < other@),
    {
        let mut i: usize = N;
        while i > 0
            invariant
                i <= N,
                forall|j: int| i <= j < N ==> self.limbs@[j] == other.limbs@[j],
            decreases i,
        {
            i -= 1;
            if self.limbs[i] < other.limbs[i] {
                proof {
                    lemma_limbs_value_order(self.limbs@, other.limbs@, i as int, N as nat);
                }
                return true;
            }
            if self.limbs[i] > other.limbs[i] {
                proof {
                    lemma_limbs_value_order(other.limbs@, self.limbs@, i as int, N as nat);
                }
                return false;
            }
        }
        proof {
            lemma_limbs_value_prefix(self.limbs@, other.limbs@, N as nat);
        }
        false
    }

    /// Whether `self` is not the larger number.
    pub fn le(&self, other: &Self) -> (r: bool)
        ensures
            r == (self@ <= other@),
    {
        !other.lt(self)
    }

    /// Whether both stand for the same number.
    pub fn same(&self, other: &Self) -> (r: bool)
        ensures
            r == (self@ == other@),
    {
        !self.lt(other) && !other.lt(self)
    }

    /// The product with `m` modulo `2^(64 * N)`, and what of the true product lies above.
    pub fn overflowing_mul_u64(&self, m: u64) -> (r: (Self, u64))
        ensures
            r.0@ + (r.1 as nat) * Self::modulus() == self@ * (m as nat),
    {
        let mut out = [0u64; N];
        let mut carry: u64 = 0;
        let mut i: usize = 0;
        proof {
            assert(0 * radix_pow(0) == 0) by (nonlinear_arith);
            assert(0 * (m as nat) == 0) by (nonlinear_arith);
        }
        while i < N
            invariant
                i <= N,
                limbs_value(out@, i as nat) + (carry as nat) * radix_pow(i as nat) == limbs_value(
                    self.limbs@,
                    i as nat,
                ) * (m as nat),
            decreases N - i,
        {
            let limb: u64 = self.limbs[i];
            assert((limb as u128) * (m as u128) + (carry as u128) <= u128::MAX) by (nonlinear_arith)
                requires
                    limb <= 0xffff_ffff_ffff_ffff,
                    m <= 0xffff_ffff_ffff_ffff,
                    carry <= 0xffff_ffff_ffff_ffff,
            ;
            let cur: u128 = (limb as u128) * (m as u128) + carry as u128;
            let lo: u64 = (cur % 0x1_0000_0000_0000_0000u128) as u64;
            let hi: u64 = (cur / 0x1_0000_0000_0000_0000u128) as u64;
            let ghost before = out@;
            let ghost old_carry = carry as nat;
            out[i] = lo;
            carry = hi;
            proof {
                let p = radix_pow(i as nat);
                let a = limbs_value(self.limbs@, i as nat);
                lemma_limbs_value_prefix(before, out@, i as nat);
                assert((lo as nat) * p + (hi as nat) * (0x1_0000_0000_0000_0000 * p) + a * (
                m as nat) == (a + (limb as nat) * p) * (m as nat) + old_carry * p)
                    by (nonlinear_arith)
                    requires
                        lo as nat + (hi as nat) * 0x1_0000_0000_0000_0000 == (limb as nat) * (
                        m as nat) + old_carry,
                ;
            }
            i += 1;
        }
        (Wide { limbs: out }, carry)
    }

    /// The product with `m`, where the type can hold it.
    pub fn checked_mul_u64(&self, m: u64) -> (r: Option<Self>)
        ensures
            self@ * (m as nat) < Self::modulus() ==> r == Some(r.unwrap()) && r.unwrap()@ == self@
                * (m as nat),
            self@ * (m as nat) >= Self::modulus() ==> r.is_none(),
    {
        let (product, carry) = self.overflowing_mul_u64(m);
        proof {
            product.lemma_bound();
            let p = Self::modulus();
            if carry == 0 {
                assert(0 * p == 0) by (nonlinear_arith);
            } else {
                assert((carry as nat) * p >= p) by (nonlinear_arith)
                    requires
                        carry >= 1,
                ;
            }
        }
        if carry == 0 {
            Some(product)
        } else {
            None
        }
    }

    /// The quotient of the division by `d`, rounded down.
    pub fn div_u64(&self, d: u64) -> (r: Self)
        requires
            d > 0,
        ensures
            r@ == self@ / (d as nat),
    {
        let mut out = [0u64; N];
        let mut rem: u64 = 0;
        let mut i: usize = N;
        proof {
            lemma_limbs_value_zero(out@, N as nat);
            assert(0 * radix_pow(N as nat) == 0) by (nonlinear_arith);
            assert((d as nat) * 0 == 0) by (nonlinear_arith);
        }
        while i > 0
            invariant
                i <= N,
                d > 0,
                rem < d,
                forall|j: int| 0 <= j < i ==> out@[j] == 0,
                limbs_value(self.limbs@, N as nat) == (d as nat) * limbs_value(out@, N as nat) + (
                rem as nat) * radix_pow(i as nat) + limbs_value(self.limbs@, i as nat),
            decreases i,
        {
            let ghost old_i = i as nat;
            let ghost old_rem = rem as nat;
            let ghost before = out@;
            i -= 1;
            let cur: u128 = (rem as u128) * 0x1_0000_0000_0000_0000u128 + self.limbs[i] as u128;
            let q128: u128 = cur / (d as u128);
            let r128: u128 = cur % (d as u128);
            assert(q128 < 0x1_0000_0000_0000_0000u128 && cur == q128 * (d as u128) + r128) by (nonlinear_arith)
                requires
                    cur < (d as u128) * 0x1_0000_0000_0000_0000u128,
                    q128 == cur / (d as u128),
                    r128 == cur % (d as u128),
                    d > 0,
            ;
            let q: u64 = q128 as u64;
            out[i] = q;
            rem = r128 as u64;
            proof {
                let p = radix_pow(i as nat);
                let a = self.limbs@[i as int] as nat;
                lemma_limbs_value_update(before, i as int, q, N as nat);
                assert(out@ =~= before.update(i as int, q));
                assert(0 * p == 0) by (nonlinear_arith);
                assert((d as nat) * (limbs_value(before, N as nat) + (q as nat) * p) + (rem as nat)
                    * p == (d as nat) * limbs_value(before, N as nat) + old_rem * (
                0x1_0000_0000_0000_0000 * p) + a * p) by (nonlinear_arith)
                    requires
                        old_rem * 0x1_0000_0000_0000_0000 + a == (q as nat) * (d as nat) + (
                        rem as nat),
                ;
            }
        }
        proof {
            let qv = limbs_value(out@, N as nat) as int;
            assert((rem as nat) * radix_pow(0) == rem) by (nonlinear_arith)
                requires
                    radix_pow(0) == 1,
            ;
            assert(qv * (d as int) == (d as nat) * limbs_value(out@, N as nat)) by (nonlinear_arith)
                requires
                    qv == limbs_value(out@, N as nat),
            ;
            lemma_fundamental_div_mod_converse(self@ as int, d as int, qv, rem as int);
        }
        Wide { limbs: out }
    }
}

impl<const N: usize> PartialEq for Wide<N> {
    fn eq(&self, other: &Self) -> (r: bool) {
        self.same(other)
    }
}

impl<const N: usize> Eq for Wide<N> {

}

impl<const N: usize> vstd::std_specs::cmp::PartialEqSpecImpl for Wide<N> {
    open spec fn obeys_eq_spec() -> bool {
        true
    }

    open spec fn eq_spec(&self, other: &Self) -> bool {
        self@ == other@
    }
}

} // verus!
