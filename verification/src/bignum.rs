//! Arbitrary-precision naturals as little-endian base-2^32 limb vectors.
//!
//! The value of a limb vector is given by `limbs_val`; the arithmetic on
//! such vectors is done by `num_bigint` behind trusted wrappers whose
//! contracts speak only of `limbs_val`.

use vstd::arithmetic::div_mod::{
    lemma_div_denominator, lemma_div_multiples_vanish_fancy, lemma_mod_multiples_vanish,
    lemma_small_mod,
};
use vstd::prelude::*;

verus! {

/// 2^(32 k)
pub open spec fn pow32(k: nat) -> nat
    decreases k,
{
    if k == 0 {
        1
    } else {
        0x1_0000_0000 * pow32((k - 1) as nat)
    }
}

/// Value of the limbs `s[i..]`, least significant limb first.
pub open spec fn limbs_val_from(s: Seq<u32>, i: int) -> nat
    decreases s.len() - i,
{
    if i < 0 || i >= s.len() {
        0
    } else {
        s[i] as nat + 0x1_0000_0000 * limbs_val_from(s, i + 1)
    }
}

/// Value of a whole limb vector, least significant limb first.
pub open spec fn limbs_val(s: Seq<u32>) -> nat {
    limbs_val_from(s, 0)
}

/// Limb `i` of the canonical base-2^32 encoding of `v`, as a trace cell.
pub open spec fn nat_limb(v: nat, i: nat) -> u64 {
    ((v / pow32(i)) % 0x1_0000_0000) as u64
}

/// b^e over the naturals.
pub open spec fn pow_nat(b: nat, e: nat) -> nat
    decreases e,
{
    if e == 0 {
        1
    } else {
        b * pow_nat(b, (e - 1) as nat)
    }
}

pub proof fn lemma_pow32_pos(k: nat)
    ensures
        pow32(k) >= 1,
    decreases k,
{
    if k > 0 {
        lemma_pow32_pos((k - 1) as nat);
    }
}

pub proof fn lemma_val_from_upper(s: Seq<u32>, i: int)
    requires
        0 <= i <= s.len(),
    ensures
        limbs_val_from(s, i) < pow32((s.len() - i) as nat),
    decreases s.len() - i,
{
    if i < s.len() {
        lemma_val_from_upper(s, i + 1);
        assert(s[i] as nat <= 0xffff_ffff);
    } else {
        assert(pow32(0) == 1);
    }
}

pub proof fn lemma_val_from_lower(s: Seq<u32>, i: int)
    requires
        0 <= i < s.len(),
        s[s.len() - 1] != 0,
    ensures
        limbs_val_from(s, i) >= pow32((s.len() - 1 - i) as nat),
    decreases s.len() - i,
{
    if i == s.len() - 1 {
        assert(pow32(0) == 1);
    } else {
        lemma_val_from_lower(s, i + 1);
    }
}

pub proof fn lemma_val_from_nonzero(s: Seq<u32>, i: int, j: int)
    requires
        0 <= i <= j < s.len(),
        s[j] != 0,
    ensures
        limbs_val_from(s, i) > 0,
    decreases j - i,
{
    if i < j {
        lemma_val_from_nonzero(s, i + 1, j);
    }
}

pub proof fn lemma_val_from_zero(s: Seq<u32>, i: int)
    requires
        0 <= i,
    ensures
        limbs_val_from(s, i) == 0 <==> (forall|j: int| i <= j < s.len() ==> s[j] == 0),
    decreases s.len() - i,
{
    if i < s.len() {
        lemma_val_from_zero(s, i + 1);
    }
}

pub proof fn lemma_val_push(s: Seq<u32>, x: u32, i: int)
    requires
        0 <= i <= s.len(),
    ensures
        limbs_val_from(s.push(x), i) == limbs_val_from(s, i) + x * pow32((s.len() - i) as nat),
    decreases s.len() - i,
{
    let t = s.push(x);
    if i == s.len() {
        assert(limbs_val_from(t, i) == x as nat + 0x1_0000_0000 * limbs_val_from(t, i + 1));
        assert(limbs_val_from(t, i + 1) == 0);
        assert(limbs_val_from(s, i) == 0);
        assert(pow32(0) == 1);
        assert(x * pow32((s.len() - i) as nat) == x) by {
            assert((s.len() - i) as nat == 0);
            vstd::arithmetic::mul::lemma_mul_basics(x as int);
        }
        assert(limbs_val_from(t, i) == limbs_val_from(s, i) + x * pow32((s.len() - i) as nat));
    } else {
        lemma_val_push(s, x, i + 1);
        assert(t[i] == s[i]);
        let a = limbs_val_from(s, i + 1);
        let k1 = (s.len() - i - 1) as nat;
        assert(limbs_val_from(t, i) == t[i] as nat + 0x1_0000_0000 * limbs_val_from(t, i + 1));
        assert(limbs_val_from(s, i) == s[i] as nat + 0x1_0000_0000 * a);
        assert(pow32((s.len() - i) as nat) == 0x1_0000_0000 * pow32(k1));
        assert(0x1_0000_0000 * (a + x * pow32(k1)) == 0x1_0000_0000 * a + x * (0x1_0000_0000
            * pow32(k1))) by (nonlinear_arith);
        assert(limbs_val_from(t, i) == limbs_val_from(s, i) + x * pow32((s.len() - i) as nat));
    }
    assert(limbs_val_from(s.push(x), i) == limbs_val_from(s, i) + x * pow32((s.len() - i) as nat));
}

/// Limb `j - i` of the value of `s[i..]` is `s[j]`.
pub proof fn lemma_limb_extract(s: Seq<u32>, i: int, j: int)
    requires
        0 <= i <= j < s.len(),
    ensures
        nat_limb(limbs_val_from(s, i), (j - i) as nat) == s[j] as u64,
    decreases j - i,
{
    let v = limbs_val_from(s, i) as int;
    let t = limbs_val_from(s, i + 1) as int;
    let b = 0x1_0000_0000int;
    assert(v == s[i] + b * t);
    if j == i {
        assert(pow32(0) == 1);
        assert(v / pow32(0) as int == v);
        lemma_mod_multiples_vanish(t, s[i] as int, b);
        lemma_small_mod(s[i] as nat, b as nat);
    } else {
        let k = (j - i) as nat;
        lemma_pow32_pos((k - 1) as nat);
        let pk1 = pow32((k - 1) as nat) as int;
        lemma_div_denominator(v, b, pk1);
        assert(v / (b * pk1) == (v / b) / pk1);
        lemma_div_multiples_vanish_fancy(t, s[i] as int, b);
        assert(v / b == t);
        lemma_limb_extract(s, i + 1, j);
        assert(pow32(k) == b * pow32((k - 1) as nat));
    }
}

/// Relies on num_bigint::BigUint addition; from_slice and to_u32_digits
/// convert little-endian base-2^32 limbs, the result has no leading zero.
#[verifier::external_body]
pub fn big_add(a: &Vec<u32>, b: &Vec<u32>) -> (r: Vec<u32>)
    ensures
        limbs_val(r@) == limbs_val(a@) + limbs_val(b@),
        r@.len() == 0 || r@[r@.len() - 1] != 0,
{
    (num_bigint::BigUint::from_slice(a) + num_bigint::BigUint::from_slice(b)).to_u32_digits()
}

/// Relies on num_bigint::BigUint subtraction, which panics on underflow.
#[verifier::external_body]
pub fn big_sub(a: &Vec<u32>, b: &Vec<u32>) -> (r: Vec<u32>)
    requires
        limbs_val(b@) <= limbs_val(a@),
    ensures
        limbs_val(r@) == limbs_val(a@) - limbs_val(b@),
        r@.len() == 0 || r@[r@.len() - 1] != 0,
{
    (num_bigint::BigUint::from_slice(a) - num_bigint::BigUint::from_slice(b)).to_u32_digits()
}

/// Relies on num_bigint::BigUint multiplication.
#[verifier::external_body]
pub fn big_mul(a: &Vec<u32>, b: &Vec<u32>) -> (r: Vec<u32>)
    ensures
        limbs_val(r@) == limbs_val(a@) * limbs_val(b@),
        r@.len() == 0 || r@[r@.len() - 1] != 0,
{
    (num_bigint::BigUint::from_slice(a) * num_bigint::BigUint::from_slice(b)).to_u32_digits()
}

/// Relies on num_bigint::BigUint euclidean division, which panics on a zero divisor.
#[verifier::external_body]
pub fn big_div(a: &Vec<u32>, b: &Vec<u32>) -> (r: Vec<u32>)
    requires
        limbs_val(b@) > 0,
    ensures
        limbs_val(r@) == limbs_val(a@) / limbs_val(b@),
        r@.len() == 0 || r@[r@.len() - 1] != 0,
{
    (num_bigint::BigUint::from_slice(a) / num_bigint::BigUint::from_slice(b)).to_u32_digits()
}

/// Relies on num_bigint::BigUint remainder, which panics on a zero divisor.
#[verifier::external_body]
pub fn big_rem(a: &Vec<u32>, b: &Vec<u32>) -> (r: Vec<u32>)
    requires
        limbs_val(b@) > 0,
    ensures
        limbs_val(r@) == limbs_val(a@) % limbs_val(b@),
        r@.len() == 0 || r@[r@.len() - 1] != 0,
{
    (num_bigint::BigUint::from_slice(a) % num_bigint::BigUint::from_slice(b)).to_u32_digits()
}

/// Relies on num_bigint::BigUint::modpow: (self ^ exponent) % modulus,
/// panicking on a zero modulus.
#[verifier::external_body]
pub fn big_modpow(b: &Vec<u32>, e: &Vec<u32>, m: &Vec<u32>) -> (r: Vec<u32>)
    requires
        limbs_val(m@) > 0,
    ensures
        limbs_val(r@) == pow_nat(limbs_val(b@), limbs_val(e@)) % limbs_val(m@),
        r@.len() == 0 || r@[r@.len() - 1] != 0,
{
    num_bigint::BigUint::from_slice(b)
        .modpow(&num_bigint::BigUint::from_slice(e), &num_bigint::BigUint::from_slice(m))
        .to_u32_digits()
}

/// Pad a leading-zero-free limb vector of value below 2^384 to exactly 12 limbs.
pub fn pad12(v: Vec<u32>) -> (r: Vec<u32>)
    requires
        limbs_val(v@) < pow32(12),
        v@.len() == 0 || v@[v@.len() - 1] != 0,
    ensures
        r@.len() == 12,
        limbs_val(r@) == limbs_val(v@),
{
    proof {
        if v@.len() > 12 {
            lemma_val_from_lower(v@, 0);
            lemma_val_from_upper(v@, v@.len() - 12);
            assert(pow32((v@.len() - 1) as nat) >= pow32(12)) by {
                lemma_pow32_mono(12, (v@.len() - 1) as nat);
            }
        }
    }
    let mut r = v;
    while r.len() < 12
        invariant
            limbs_val(r@) == limbs_val(v@),
            r@.len() <= 12,
        decreases 12 - r.len(),
    {
        proof {
            lemma_val_push(r@, 0, 0);
        }
        r.push(0);
    }
    r
}

pub proof fn lemma_pow32_mono(a: nat, b: nat)
    requires
        a <= b,
    ensures
        pow32(a) <= pow32(b),
    decreases b,
{
    if a < b {
        lemma_pow32_mono(a, (b - 1) as nat);
        lemma_pow32_pos((b - 1) as nat);
    }
}

/// Whether the limb vector has value zero.
pub fn limbs_is_zero(v: &Vec<u32>) -> (r: bool)
    ensures
        r == (limbs_val(v@) == 0),
{
    proof {
        lemma_val_from_zero(v@, 0);
    }
    let mut i: usize = 0;
    while i < v.len()
        invariant
            i <= v@.len(),
            forall|j: int| 0 <= j < i ==> v@[j] == 0,
        decreases v@.len() - i,
    {
        if v[i] != 0 {
            proof {
                lemma_val_from_nonzero(v@, 0, i as int);
            }
            return false;
        }
        i += 1;
    }
    true
}

/// Least-significant-first bit decomposition value of `bits[i..]`.
pub open spec fn bits_val_from(bits: Seq<bool>, i: int) -> nat
    decreases bits.len() - i,
{
    if i < 0 || i >= bits.len() {
        0
    } else {
        (if bits[i] {
            1nat
        } else {
            0nat
        }) + 2 * bits_val_from(bits, i + 1)
    }
}

/// 2^k
pub open spec fn pow2n(k: nat) -> nat
    decreases k,
{
    if k == 0 {
        1
    } else {
        2 * pow2n((k - 1) as nat)
    }
}

pub proof fn lemma_bits_push(bits: Seq<bool>, b: bool, i: int)
    requires
        0 <= i <= bits.len(),
    ensures
        bits_val_from(bits.push(b), i) == bits_val_from(bits, i) + (if b {
            1nat
        } else {
            0nat
        }) * pow2n((bits.len() - i) as nat),
    decreases bits.len() - i,
{
    let t = bits.push(b);
    if i == bits.len() {
        assert(limbs_val_from(Seq::<u32>::empty(), 0) == 0);
        assert(bits_val_from(t, i + 1) == 0);
        assert(pow2n(0) == 1);
    } else {
        lemma_bits_push(bits, b, i + 1);
        assert(t[i] == bits[i]);
        assert(pow2n((bits.len() - i) as nat) == 2 * pow2n((bits.len() - i - 1) as nat));
    }
}

/// Decompose a limb vector into its bits, least significant first.
pub fn to_bits(e: Vec<u32>) -> (r: Vec<bool>)
    ensures
        bits_val_from(r@, 0) == limbs_val(e@),
{
    let ghost e0 = e@;
    let mut cur: Vec<u32> = e;
    let mut bits: Vec<bool> = Vec::new();
    let two: Vec<u32> = vec_two();
    proof {
        assert(pow2n(0) == 1);
        assert(bits_val_from(bits@, 0) == 0);
    }
    while !limbs_is_zero(&cur)
        invariant
            limbs_val(e0) == bits_val_from(bits@, 0) + limbs_val(cur@) * pow2n(bits@.len()),
            limbs_val(two@) == 2,
        decreases limbs_val(cur@),
    {
        let b = cur[0] % 2 == 1;
        proof {
            let v = limbs_val(cur@) as int;
            let q = v / 2;
            let r = v % 2;
            let p0 = pow2n(bits@.len()) as int;
            lemma_limb_low_bit(cur@);
            lemma_bits_push(bits@, b, 0);
            vstd::arithmetic::div_mod::lemma_fundamental_div_mod(v, 2);
            lemma_pow2n_step(bits@.len());
            assert(v >= 1);
            assert(q < v);
            assert((2 * q + r) * p0 == q * (2 * p0) + r * p0) by (nonlinear_arith);
        }
        bits.push(b);
        cur = big_div(&cur, &two);
    }
    bits
}

proof fn lemma_pow2n_step(k: nat)
    ensures
        pow2n(k + 1) == 2 * pow2n(k),
{
}

/// The low bit of a nonempty limb vector's value is the low bit of limb 0.
proof fn lemma_limb_low_bit(s: Seq<u32>)
    requires
        s.len() > 0,
    ensures
        limbs_val(s) % 2 == s[0] as nat % 2,
{
    let t = limbs_val_from(s, 1) as int;
    assert(limbs_val(s) == s[0] as nat + 0x1_0000_0000 * t);
    lemma_mod_multiples_vanish(0x8000_0000 * t, s[0] as int, 2);
    assert(0x1_0000_0000 * t == 2 * (0x8000_0000 * t)) by (nonlinear_arith);
    assert((2 * (0x8000_0000 * t) + s[0] as int) % 2 == s[0] as int % 2) by {
        lemma_mod_multiples_vanish(0x8000_0000 * t, s[0] as int, 2);
    }
}

/// The one-limb vector holding the constant two.
pub fn vec_two() -> (r: Vec<u32>)
    ensures
        limbs_val(r@) == 2,
        r@.len() == 1,
{
    let mut r: Vec<u32> = Vec::new();
    r.push(2);
    assert(limbs_val_from(r@, 1) == 0);
    r
}

} // verus!
