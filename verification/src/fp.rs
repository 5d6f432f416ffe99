//! The BLS12-381 base field: naturals below the 381-bit prime `p`,
//! carried as canonical 12-limb little-endian vectors.

use crate::bignum::{
    big_add, big_mul, big_rem, big_modpow, big_sub, lemma_limb_extract, lemma_val_from_zero,
    limbs_val, nat_limb, pad12, pow32, pow_nat,
};
use vstd::prelude::*;

verus! {

/// The limbs of the BLS12-381 base-field prime, least significant first.
pub open spec fn p_limbs_seq() -> Seq<u32> {
    seq![
        0xffffaaabu32,
        0xb9feffffu32,
        0xb153ffffu32,
        0x1eabfffeu32,
        0xf6b0f624u32,
        0x6730d2a0u32,
        0xf38512bfu32,
        0x64774b84u32,
        0x434bacd7u32,
        0x4b1ba7b6u32,
        0x397fe69au32,
        0x1a0111eau32,
    ]
}

/// The BLS12-381 base-field prime.
pub open spec fn p_nat() -> nat {
    limbs_val(p_limbs_seq())
}

pub proof fn lemma_p_bounds()
    ensures
        0xffff_ffff < p_nat(),
        p_nat() < pow32(12),
{
    reveal_with_fuel(crate::bignum::limbs_val_from, 14);
    reveal_with_fuel(crate::bignum::pow32, 14);
}

/// The prime as an exec limb vector.
pub fn p_vec() -> (r: Vec<u32>)
    ensures
        r@ =~= p_limbs_seq(),
{
    let mut r: Vec<u32> = Vec::new();
    r.push(0xffffaaab);
    r.push(0xb9feffff);
    r.push(0xb153ffff);
    r.push(0x1eabfffe);
    r.push(0xf6b0f624);
    r.push(0x6730d2a0);
    r.push(0xf38512bf);
    r.push(0x64774b84);
    r.push(0x434bacd7);
    r.push(0x4b1ba7b6);
    r.push(0x397fe69a);
    r.push(0x1a0111ea);
    r
}

/// The limbs of `p - 2`, the exponent of a base-field inverse.
pub open spec fn p_minus_2_limbs_seq() -> Seq<u32> {
    seq![
        0xffffaaa9u32,
        0xb9feffffu32,
        0xb153ffffu32,
        0x1eabfffeu32,
        0xf6b0f624u32,
        0x6730d2a0u32,
        0xf38512bfu32,
        0x64774b84u32,
        0x434bacd7u32,
        0x4b1ba7b6u32,
        0x397fe69au32,
        0x1a0111eau32,
    ]
}

pub proof fn lemma_p_minus_2()
    ensures
        limbs_val(p_minus_2_limbs_seq()) == p_nat() - 2,
{
    reveal_with_fuel(crate::bignum::limbs_val_from, 14);
}

/// The exponent `p - 2` as an exec limb vector.
pub fn p_minus_2_vec() -> (r: Vec<u32>)
    ensures
        r@ =~= p_minus_2_limbs_seq(),
{
    let mut r: Vec<u32> = Vec::new();
    r.push(0xffffaaa9);
    r.push(0xb9feffff);
    r.push(0xb153ffff);
    r.push(0x1eabfffe);
    r.push(0xf6b0f624);
    r.push(0x6730d2a0);
    r.push(0xf38512bf);
    r.push(0x64774b84);
    r.push(0x434bacd7);
    r.push(0x4b1ba7b6);
    r.push(0x397fe69a);
    r.push(0x1a0111ea);
    r
}

/// A base-field element: 12 canonical limbs of a natural below `p`.
pub struct Fp {
    pub limbs: Vec<u32>,
}

impl View for Fp {
    type V = nat;

    open spec fn view(&self) -> nat {
        limbs_val(self.limbs@)
    }
}

impl Fp {
    pub open spec fn wf(&self) -> bool {
        self.limbs@.len() == 12 && self@ < p_nat()
    }

    /// Limb `i` of the canonical encoding of the value.
    pub fn limb(&self, i: usize) -> (r: u32)
        requires
            self.wf(),
            i < 12,
        ensures
            r as u64 == nat_limb(self@, i as nat),
    {
        proof {
            lemma_limb_extract(self.limbs@, 0, i as int);
        }
        self.limbs[i]
    }
}

pub open spec fn fp_add_spec(a: nat, b: nat) -> nat {
    (a + b) % p_nat()
}

pub open spec fn fp_sub_spec(a: nat, b: nat) -> nat {
    (((a + p_nat() - b) as int) % (p_nat() as int)) as nat
}

pub open spec fn fp_neg_spec(a: nat) -> nat {
    fp_sub_spec(0, a)
}

pub open spec fn fp_mul_spec(a: nat, b: nat) -> nat {
    (a * b) % p_nat()
}

pub open spec fn fp_inv_spec(a: nat) -> nat {
    pow_nat(a, (p_nat() - 2) as nat) % p_nat()
}

/// Reduce a leading-zero-free limb vector modulo `p` into a field element.
fn reduce(v: Vec<u32>) -> (r: Fp)
    requires
        v@.len() == 0 || v@[v@.len() - 1] != 0,
    ensures
        r.wf(),
        r@ == limbs_val(v@) % p_nat(),
{
    proof {
        lemma_p_bounds();
    }
    let p = p_vec();
    let m = big_rem(&v, &p);
    proof {
        vstd::arithmetic::div_mod::lemma_mod_bound(limbs_val(v@) as int, p_nat() as int);
    }
    Fp { limbs: pad12(m) }
}

pub fn fp_zero() -> (r: Fp)
    ensures
        r.wf(),
        r@ == 0,
{
    proof {
        lemma_p_bounds();
    }
    let mut limbs: Vec<u32> = Vec::new();
    let mut i: usize = 0;
    while i < 12
        invariant
            limbs@.len() == i,
            i <= 12,
            forall|j: int| 0 <= j < i ==> limbs@[j] == 0,
        decreases 12 - i,
    {
        limbs.push(0);
        i += 1;
    }
    proof {
        lemma_val_from_zero(limbs@, 0);
    }
    Fp { limbs }
}

pub fn fp_one() -> (r: Fp)
    ensures
        r.wf(),
        r@ == 1,
{
    fp_from_u32(1)
}

/// Embed a single 32-bit value into the field.
pub fn fp_from_u32(x: u32) -> (r: Fp)
    ensures
        r.wf(),
        r@ == x as nat,
{
    proof {
        lemma_p_bounds();
    }
    let mut limbs: Vec<u32> = Vec::new();
    limbs.push(x);
    let mut i: usize = 1;
    while i < 12
        invariant
            limbs@.len() == i,
            1 <= i <= 12,
            limbs@[0] == x,
            forall|j: int| 1 <= j < i ==> limbs@[j] == 0,
        decreases 12 - i,
    {
        limbs.push(0);
        i += 1;
    }
    proof {
        lemma_val_from_zero(limbs@, 1);
        assert(limbs_val(limbs@) == x as nat + 0x1_0000_0000 * 0);
    }
    Fp { limbs }
}

pub fn fp_add(a: &Fp, b: &Fp) -> (r: Fp)
    requires
        a.wf(),
        b.wf(),
    ensures
        r.wf(),
        r@ == fp_add_spec(a@, b@),
{
    let s = big_add(&a.limbs, &b.limbs);
    reduce(s)
}

pub fn fp_sub(a: &Fp, b: &Fp) -> (r: Fp)
    requires
        a.wf(),
        b.wf(),
    ensures
        r.wf(),
        r@ == fp_sub_spec(a@, b@),
{
    let p = p_vec();
    let s = big_add(&a.limbs, &p);
    let d = big_sub(&s, &b.limbs);
    reduce(d)
}

pub fn fp_neg(a: &Fp) -> (r: Fp)
    requires
        a.wf(),
    ensures
        r.wf(),
        r@ == fp_neg_spec(a@),
{
    let z = fp_zero();
    fp_sub(&z, a)
}

pub fn fp_mul(a: &Fp, b: &Fp) -> (r: Fp)
    requires
        a.wf(),
        b.wf(),
    ensures
        r.wf(),
        r@ == fp_mul_spec(a@, b@),
{
    let m = big_mul(&a.limbs, &b.limbs);
    reduce(m)
}

pub fn fp_inv(a: &Fp) -> (r: Fp)
    requires
        a.wf(),
    ensures
        r.wf(),
        r@ == fp_inv_spec(a@),
{
    proof {
        lemma_p_bounds();
        lemma_p_minus_2();
    }
    let p = p_vec();
    let e = p_minus_2_vec();
    let m = big_modpow(&a.limbs, &e, &p);
    proof {
        vstd::arithmetic::div_mod::lemma_mod_bound(
            pow_nat(a@, (p_nat() - 2) as nat) as int,
            p_nat() as int,
        );
    }
    Fp { limbs: pad12(m) }
}

} // verus!
