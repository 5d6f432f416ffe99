//! The extension-field tower over the BLS12-381 base field:
//! `Fp2 = Fp[u]/(u^2+1)`, `Fp6 = Fp2[v]/(v^3-(u+1))`, `Fp12 = Fp6[w]/(w^2-v)`,
//! with multiplication, conjugation, inversion, powering, the Frobenius
//! map, and the fixed 32-step final-exponentiation schedule.

use crate::bignum::{
    big_div, big_mul, big_sub, bits_val_from, limbs_val, limbs_val_from, nat_limb, pow_nat,
    to_bits,
};
use crate::fp::{
    fp_add, fp_add_spec, fp_inv, fp_inv_spec, fp_mul, fp_mul_spec, fp_neg, fp_neg_spec, fp_one,
    fp_sub, fp_sub_spec, fp_zero, lemma_p_bounds, p_nat, p_vec, Fp,
};
use vstd::arithmetic::div_mod::{lemma_mod_bound, lemma_small_mod};
use vstd::prelude::*;

verus! {

// ---------------------------------------------------------------------------
// Spec-level values
// ---------------------------------------------------------------------------

pub ghost struct Fp2Val {
    pub c0: nat,
    pub c1: nat,
}

pub ghost struct Fp6Val {
    pub c0: Fp2Val,
    pub c1: Fp2Val,
    pub c2: Fp2Val,
}

pub ghost struct Fp12Val {
    pub c0: Fp6Val,
    pub c1: Fp6Val,
}

pub open spec fn fp2_zero_val() -> Fp2Val {
    Fp2Val { c0: 0, c1: 0 }
}

pub open spec fn fp2_one_val() -> Fp2Val {
    Fp2Val { c0: 1, c1: 0 }
}

/// The sextic non-residue `u + 1` used by the tower.
pub open spec fn xi_val() -> Fp2Val {
    Fp2Val { c0: 1, c1: 1 }
}

pub open spec fn fp2_add_spec(a: Fp2Val, b: Fp2Val) -> Fp2Val {
    Fp2Val { c0: fp_add_spec(a.c0, b.c0), c1: fp_add_spec(a.c1, b.c1) }
}

pub open spec fn fp2_sub_spec(a: Fp2Val, b: Fp2Val) -> Fp2Val {
    Fp2Val { c0: fp_sub_spec(a.c0, b.c0), c1: fp_sub_spec(a.c1, b.c1) }
}

pub open spec fn fp2_neg_spec(a: Fp2Val) -> Fp2Val {
    Fp2Val { c0: fp_neg_spec(a.c0), c1: fp_neg_spec(a.c1) }
}

pub open spec fn fp2_conj_spec(a: Fp2Val) -> Fp2Val {
    Fp2Val { c0: a.c0, c1: fp_neg_spec(a.c1) }
}

#[verifier::opaque]
pub open spec fn fp2_mul_spec(a: Fp2Val, b: Fp2Val) -> Fp2Val {
    Fp2Val {
        c0: fp_sub_spec(fp_mul_spec(a.c0, b.c0), fp_mul_spec(a.c1, b.c1)),
        c1: fp_add_spec(fp_mul_spec(a.c0, b.c1), fp_mul_spec(a.c1, b.c0)),
    }
}

/// Multiplication by `u + 1`.
pub open spec fn fp2_xi_spec(a: Fp2Val) -> Fp2Val {
    Fp2Val { c0: fp_sub_spec(a.c0, a.c1), c1: fp_add_spec(a.c0, a.c1) }
}

#[verifier::opaque]
pub open spec fn fp2_inv_spec(a: Fp2Val) -> Fp2Val {
    let d = fp_inv_spec(fp_add_spec(fp_mul_spec(a.c0, a.c0), fp_mul_spec(a.c1, a.c1)));
    Fp2Val { c0: fp_mul_spec(a.c0, d), c1: fp_neg_spec(fp_mul_spec(a.c1, d)) }
}

#[verifier::opaque]
pub open spec fn fp2_pow_spec(x: Fp2Val, e: nat) -> Fp2Val
    decreases e,
{
    if e == 0 {
        fp2_one_val()
    } else {
        let h = fp2_pow_spec(x, e / 2);
        let s = fp2_mul_spec(h, h);
        if e % 2 == 0 {
            s
        } else {
            fp2_mul_spec(s, x)
        }
    }
}

pub open spec fn fp6_zero_val() -> Fp6Val {
    Fp6Val { c0: fp2_zero_val(), c1: fp2_zero_val(), c2: fp2_zero_val() }
}

pub open spec fn fp6_one_val() -> Fp6Val {
    Fp6Val { c0: fp2_one_val(), c1: fp2_zero_val(), c2: fp2_zero_val() }
}

pub open spec fn fp6_add_spec(a: Fp6Val, b: Fp6Val) -> Fp6Val {
    Fp6Val {
        c0: fp2_add_spec(a.c0, b.c0),
        c1: fp2_add_spec(a.c1, b.c1),
        c2: fp2_add_spec(a.c2, b.c2),
    }
}

pub open spec fn fp6_neg_spec(a: Fp6Val) -> Fp6Val {
    Fp6Val { c0: fp2_neg_spec(a.c0), c1: fp2_neg_spec(a.c1), c2: fp2_neg_spec(a.c2) }
}

#[verifier::opaque]
pub open spec fn fp6_mul_spec(a: Fp6Val, b: Fp6Val) -> Fp6Val {
    Fp6Val {
        c0: fp2_add_spec(
            fp2_mul_spec(a.c0, b.c0),
            fp2_xi_spec(fp2_add_spec(fp2_mul_spec(a.c1, b.c2), fp2_mul_spec(a.c2, b.c1))),
        ),
        c1: fp2_add_spec(
            fp2_add_spec(fp2_mul_spec(a.c0, b.c1), fp2_mul_spec(a.c1, b.c0)),
            fp2_xi_spec(fp2_mul_spec(a.c2, b.c2)),
        ),
        c2: fp2_add_spec(
            fp2_add_spec(fp2_mul_spec(a.c0, b.c2), fp2_mul_spec(a.c1, b.c1)),
            fp2_mul_spec(a.c2, b.c0),
        ),
    }
}

/// Multiplication by `v`.
pub open spec fn fp6_v_spec(a: Fp6Val) -> Fp6Val {
    Fp6Val { c0: fp2_xi_spec(a.c2), c1: a.c0, c2: a.c1 }
}

#[verifier::opaque]
pub open spec fn fp6_inv_spec(a: Fp6Val) -> Fp6Val {
    let c0 = fp2_sub_spec(fp2_mul_spec(a.c0, a.c0), fp2_xi_spec(fp2_mul_spec(a.c1, a.c2)));
    let c1 = fp2_sub_spec(fp2_xi_spec(fp2_mul_spec(a.c2, a.c2)), fp2_mul_spec(a.c0, a.c1));
    let c2 = fp2_sub_spec(fp2_mul_spec(a.c1, a.c1), fp2_mul_spec(a.c0, a.c2));
    let t = fp2_inv_spec(
        fp2_add_spec(
            fp2_mul_spec(a.c0, c0),
            fp2_xi_spec(fp2_add_spec(fp2_mul_spec(a.c1, c2), fp2_mul_spec(a.c2, c1))),
        ),
    );
    Fp6Val { c0: fp2_mul_spec(c0, t), c1: fp2_mul_spec(c1, t), c2: fp2_mul_spec(c2, t) }
}

pub open spec fn fp12_one_val() -> Fp12Val {
    Fp12Val { c0: fp6_one_val(), c1: fp6_zero_val() }
}

#[verifier::opaque]
pub open spec fn fp12_mul_spec(a: Fp12Val, b: Fp12Val) -> Fp12Val {
    Fp12Val {
        c0: fp6_add_spec(fp6_mul_spec(a.c0, b.c0), fp6_v_spec(fp6_mul_spec(a.c1, b.c1))),
        c1: fp6_add_spec(fp6_mul_spec(a.c0, b.c1), fp6_mul_spec(a.c1, b.c0)),
    }
}

/// Conjugation negates the `w`-coefficient half.
pub open spec fn fp12_conj_spec(a: Fp12Val) -> Fp12Val {
    Fp12Val { c0: a.c0, c1: fp6_neg_spec(a.c1) }
}

#[verifier::opaque]
pub open spec fn fp12_inv_spec(a: Fp12Val) -> Fp12Val {
    let t = fp6_inv_spec(
        fp6_add_spec(fp6_mul_spec(a.c0, a.c0), fp6_neg_spec(fp6_v_spec(fp6_mul_spec(a.c1, a.c1)))),
    );
    Fp12Val { c0: fp6_mul_spec(a.c0, t), c1: fp6_neg_spec(fp6_mul_spec(a.c1, t)) }
}

#[verifier::opaque]
pub open spec fn fp12_pow_spec(x: Fp12Val, e: nat) -> Fp12Val
    decreases e,
{
    if e == 0 {
        fp12_one_val()
    } else {
        let h = fp12_pow_spec(x, e / 2);
        let s = fp12_mul_spec(h, h);
        if e % 2 == 0 {
            s
        } else {
            fp12_mul_spec(s, x)
        }
    }
}

pub open spec fn fp12_div_spec(x: Fp12Val, y: Fp12Val) -> Fp12Val {
    fp12_mul_spec(x, fp12_inv_spec(y))
}

/// Coefficient `j` of the `w`-basis view `x = sum e_j w^j` of an `Fp12`.
pub open spec fn fp12_e_spec(x: Fp12Val, j: int) -> Fp2Val {
    if j == 0 {
        x.c0.c0
    } else if j == 1 {
        x.c1.c0
    } else if j == 2 {
        x.c0.c1
    } else if j == 3 {
        x.c1.c1
    } else if j == 4 {
        x.c0.c2
    } else {
        x.c1.c2
    }
}

pub open spec fn fp12_from_e_spec(e: Seq<Fp2Val>) -> Fp12Val {
    Fp12Val {
        c0: Fp6Val { c0: e[0], c1: e[2], c2: e[4] },
        c1: Fp6Val { c0: e[1], c1: e[3], c2: e[5] },
    }
}

/// The Frobenius coefficient `xi^(j (p^n - 1) / 6)`.
#[verifier::opaque]
pub open spec fn gamma_spec(n: nat, j: nat) -> Fp2Val {
    fp2_pow_spec(xi_val(), j * (((pow_nat(p_nat(), n) - 1) as nat) / 6))
}

/// The `n`-th power of the Frobenius endomorphism on `Fp12`.
#[verifier::opaque]
pub open spec fn frobenius_spec(x: Fp12Val, n: nat) -> Fp12Val {
    fp12_from_e_spec(
        Seq::new(
            6,
            |j: int|
                fp2_mul_spec(
                    if n % 2 == 1 {
                        fp2_conj_spec(fp12_e_spec(x, j))
                    } else {
                        fp12_e_spec(x, j)
                    },
                    gamma_spec(n, j as nat),
                ),
        ),
    )
}

/// The absolute value of the BLS parameter.
pub open spec fn bls_u_nat() -> nat {
    0xd201000000010000
}

/// Cyclotomic exponentiation by the BLS parameter.
pub open spec fn cyc_exp_spec(x: Fp12Val) -> Fp12Val {
    fp12_pow_spec(x, bls_u_nat())
}

/// Cyclotomic squaring agrees with plain squaring on the cyclotomic subgroup.
pub open spec fn cyc_sq_spec(x: Fp12Val) -> Fp12Val {
    fp12_mul_spec(x, x)
}

// ---------------------------------------------------------------------------
// Exec-level types
// ---------------------------------------------------------------------------

pub struct Fp2 {
    pub c0: Fp,
    pub c1: Fp,
}

pub struct Fp6 {
    pub c0: Fp2,
    pub c1: Fp2,
    pub c2: Fp2,
}

pub struct Fp12 {
    pub c0: Fp6,
    pub c1: Fp6,
}

impl View for Fp2 {
    type V = Fp2Val;

    open spec fn view(&self) -> Fp2Val {
        Fp2Val { c0: self.c0@, c1: self.c1@ }
    }
}

impl View for Fp6 {
    type V = Fp6Val;

    open spec fn view(&self) -> Fp6Val {
        Fp6Val { c0: self.c0@, c1: self.c1@, c2: self.c2@ }
    }
}

impl View for Fp12 {
    type V = Fp12Val;

    open spec fn view(&self) -> Fp12Val {
        Fp12Val { c0: self.c0@, c1: self.c1@ }
    }
}

impl Fp2 {
    pub open spec fn wf(&self) -> bool {
        self.c0.wf() && self.c1.wf()
    }
}

impl Fp6 {
    pub open spec fn wf(&self) -> bool {
        self.c0.wf() && self.c1.wf() && self.c2.wf()
    }
}

impl Fp12 {
    pub open spec fn wf(&self) -> bool {
        self.c0.wf() && self.c1.wf()
    }
}

// ---------------------------------------------------------------------------
// Exec-level arithmetic
// ---------------------------------------------------------------------------

pub fn fp2_zero() -> (r: Fp2)
    ensures
        r.wf(),
        r@ == fp2_zero_val(),
{
    Fp2 { c0: fp_zero(), c1: fp_zero() }
}

pub fn fp2_one() -> (r: Fp2)
    ensures
        r.wf(),
        r@ == fp2_one_val(),
{
    Fp2 { c0: fp_one(), c1: fp_zero() }
}

pub fn fp2_xi() -> (r: Fp2)
    ensures
        r.wf(),
        r@ == xi_val(),
{
    Fp2 { c0: fp_one(), c1: fp_one() }
}

pub fn fp2_add(a: &Fp2, b: &Fp2) -> (r: Fp2)
    requires
        a.wf(),
        b.wf(),
    ensures
        r.wf(),
        r@ == fp2_add_spec(a@, b@),
{
    Fp2 { c0: fp_add(&a.c0, &b.c0), c1: fp_add(&a.c1, &b.c1) }
}

pub fn fp2_sub(a: &Fp2, b: &Fp2) -> (r: Fp2)
    requires
        a.wf(),
        b.wf(),
    ensures
        r.wf(),
        r@ == fp2_sub_spec(a@, b@),
{
    Fp2 { c0: fp_sub(&a.c0, &b.c0), c1: fp_sub(&a.c1, &b.c1) }
}

pub fn fp2_neg(a: &Fp2) -> (r: Fp2)
    requires
        a.wf(),
    ensures
        r.wf(),
        r@ == fp2_neg_spec(a@),
{
    Fp2 { c0: fp_neg(&a.c0), c1: fp_neg(&a.c1) }
}

pub fn fp2_conj(a: &Fp2) -> (r: Fp2)
    requires
        a.wf(),
    ensures
        r.wf(),
        r@ == fp2_conj_spec(a@),
{
    Fp2 { c0: Fp { limbs: a.c0.limbs.clone() }, c1: fp_neg(&a.c1) }
}

pub fn fp2_mul(a: &Fp2, b: &Fp2) -> (r: Fp2)
    requires
        a.wf(),
        b.wf(),
    ensures
        r.wf(),
        r@ == fp2_mul_spec(a@, b@),
{
    proof {
        reveal(fp2_mul_spec);
    }
    let t0 = fp_mul(&a.c0, &b.c0);
    let t1 = fp_mul(&a.c1, &b.c1);
    let t2 = fp_mul(&a.c0, &b.c1);
    let t3 = fp_mul(&a.c1, &b.c0);
    Fp2 { c0: fp_sub(&t0, &t1), c1: fp_add(&t2, &t3) }
}

pub fn fp2_mul_xi(a: &Fp2) -> (r: Fp2)
    requires
        a.wf(),
    ensures
        r.wf(),
        r@ == fp2_xi_spec(a@),
{
    Fp2 { c0: fp_sub(&a.c0, &a.c1), c1: fp_add(&a.c0, &a.c1) }
}

pub fn fp2_inv(a: &Fp2) -> (r: Fp2)
    requires
        a.wf(),
    ensures
        r.wf(),
        r@ == fp2_inv_spec(a@),
{
    proof {
        reveal(fp2_inv_spec);
    }
    let n0 = fp_mul(&a.c0, &a.c0);
    let n1 = fp_mul(&a.c1, &a.c1);
    let n = fp_add(&n0, &n1);
    let d = fp_inv(&n);
    let m1 = fp_mul(&a.c1, &d);
    Fp2 { c0: fp_mul(&a.c0, &d), c1: fp_neg(&m1) }
}

pub fn fp6_zero() -> (r: Fp6)
    ensures
        r.wf(),
        r@ == fp6_zero_val(),
{
    Fp6 { c0: fp2_zero(), c1: fp2_zero(), c2: fp2_zero() }
}

pub fn fp6_add(a: &Fp6, b: &Fp6) -> (r: Fp6)
    requires
        a.wf(),
        b.wf(),
    ensures
        r.wf(),
        r@ == fp6_add_spec(a@, b@),
{
    Fp6 { c0: fp2_add(&a.c0, &b.c0), c1: fp2_add(&a.c1, &b.c1), c2: fp2_add(&a.c2, &b.c2) }
}

pub fn fp6_neg(a: &Fp6) -> (r: Fp6)
    requires
        a.wf(),
    ensures
        r.wf(),
        r@ == fp6_neg_spec(a@),
{
    Fp6 { c0: fp2_neg(&a.c0), c1: fp2_neg(&a.c1), c2: fp2_neg(&a.c2) }
}

pub fn fp6_mul(a: &Fp6, b: &Fp6) -> (r: Fp6)
    requires
        a.wf(),
        b.wf(),
    ensures
        r.wf(),
        r@ == fp6_mul_spec(a@, b@),
{
    proof {
        reveal(fp6_mul_spec);
    }
    let m00 = fp2_mul(&a.c0, &b.c0);
    let m01 = fp2_mul(&a.c0, &b.c1);
    let m02 = fp2_mul(&a.c0, &b.c2);
    let m10 = fp2_mul(&a.c1, &b.c0);
    let m11 = fp2_mul(&a.c1, &b.c1);
    let m12 = fp2_mul(&a.c1, &b.c2);
    let m20 = fp2_mul(&a.c2, &b.c0);
    let m21 = fp2_mul(&a.c2, &b.c1);
    let m22 = fp2_mul(&a.c2, &b.c2);
    let s0 = fp2_add(&m12, &m21);
    let c0 = fp2_add(&m00, &fp2_mul_xi(&s0));
    let c1 = fp2_add(&fp2_add(&m01, &m10), &fp2_mul_xi(&m22));
    let c2 = fp2_add(&fp2_add(&m02, &m11), &m20);
    Fp6 { c0, c1, c2 }
}

pub fn fp6_mul_v(a: &Fp6) -> (r: Fp6)
    requires
        a.wf(),
    ensures
        r.wf(),
        r@ == fp6_v_spec(a@),
{
    let c0 = fp2_mul_xi(&a.c2);
    let c1 = Fp2 { c0: Fp { limbs: a.c0.c0.limbs.clone() }, c1: Fp { limbs: a.c0.c1.limbs.clone() } };
    let c2 = Fp2 { c0: Fp { limbs: a.c1.c0.limbs.clone() }, c1: Fp { limbs: a.c1.c1.limbs.clone() } };
    Fp6 { c0, c1, c2 }
}

pub fn fp6_inv(a: &Fp6) -> (r: Fp6)
    requires
        a.wf(),
    ensures
        r.wf(),
        r@ == fp6_inv_spec(a@),
{
    proof {
        reveal(fp6_inv_spec);
    }
    let c0 = fp2_sub(&fp2_mul(&a.c0, &a.c0), &fp2_mul_xi(&fp2_mul(&a.c1, &a.c2)));
    let c1 = fp2_sub(&fp2_mul_xi(&fp2_mul(&a.c2, &a.c2)), &fp2_mul(&a.c0, &a.c1));
    let c2 = fp2_sub(&fp2_mul(&a.c1, &a.c1), &fp2_mul(&a.c0, &a.c2));
    let s = fp2_add(&fp2_mul(&a.c1, &c2), &fp2_mul(&a.c2, &c1));
    let t = fp2_inv(&fp2_add(&fp2_mul(&a.c0, &c0), &fp2_mul_xi(&s)));
    Fp6 { c0: fp2_mul(&c0, &t), c1: fp2_mul(&c1, &t), c2: fp2_mul(&c2, &t) }
}

pub fn fp12_one() -> (r: Fp12)
    ensures
        r.wf(),
        r@ == fp12_one_val(),
{
    Fp12 { c0: Fp6 { c0: fp2_one(), c1: fp2_zero(), c2: fp2_zero() }, c1: fp6_zero() }
}

pub fn fp12_mul(a: &Fp12, b: &Fp12) -> (r: Fp12)
    requires
        a.wf(),
        b.wf(),
    ensures
        r.wf(),
        r@ == fp12_mul_spec(a@, b@),
{
    proof {
        reveal(fp12_mul_spec);
    }
    let m00 = fp6_mul(&a.c0, &b.c0);
    let m11 = fp6_mul(&a.c1, &b.c1);
    let m01 = fp6_mul(&a.c0, &b.c1);
    let m10 = fp6_mul(&a.c1, &b.c0);
    Fp12 { c0: fp6_add(&m00, &fp6_mul_v(&m11)), c1: fp6_add(&m01, &m10) }
}

pub fn fp12_conjugate(a: &Fp12) -> (r: Fp12)
    requires
        a.wf(),
    ensures
        r.wf(),
        r@ == fp12_conj_spec(a@),
{
    let c0 = Fp6 {
        c0: Fp2 {
            c0: Fp { limbs: a.c0.c0.c0.limbs.clone() },
            c1: Fp { limbs: a.c0.c0.c1.limbs.clone() },
        },
        c1: Fp2 {
            c0: Fp { limbs: a.c0.c1.c0.limbs.clone() },
            c1: Fp { limbs: a.c0.c1.c1.limbs.clone() },
        },
        c2: Fp2 {
            c0: Fp { limbs: a.c0.c2.c0.limbs.clone() },
            c1: Fp { limbs: a.c0.c2.c1.limbs.clone() },
        },
    };
    Fp12 { c0, c1: fp6_neg(&a.c1) }
}

pub fn fp12_inv(a: &Fp12) -> (r: Fp12)
    requires
        a.wf(),
    ensures
        r.wf(),
        r@ == fp12_inv_spec(a@),
{
    proof {
        reveal(fp12_inv_spec);
    }
    let m00 = fp6_mul(&a.c0, &a.c0);
    let m11 = fp6_mul(&a.c1, &a.c1);
    let t = fp6_inv(&fp6_add(&m00, &fp6_neg(&fp6_mul_v(&m11))));
    let n1 = fp6_mul(&a.c1, &t);
    Fp12 { c0: fp6_mul(&a.c0, &t), c1: fp6_neg(&n1) }
}

pub fn fp12_div(a: &Fp12, b: &Fp12) -> (r: Fp12)
    requires
        a.wf(),
        b.wf(),
    ensures
        r.wf(),
        r@ == fp12_div_spec(a@, b@),
{
    let i = fp12_inv(b);
    fp12_mul(a, &i)
}

// ---------------------------------------------------------------------------
// Powering
// ---------------------------------------------------------------------------

proof fn lemma_fp_units()
    ensures
        fp_mul_spec(1, 1) == 1nat,
        fp_mul_spec(0, 0) == 0nat,
        fp_mul_spec(0, 1) == 0nat,
        fp_mul_spec(1, 0) == 0nat,
        fp_add_spec(0, 0) == 0nat,
        fp_add_spec(1, 0) == 1nat,
        fp_add_spec(0, 1) == 1nat,
        fp_sub_spec(0, 0) == 0nat,
        fp_sub_spec(1, 0) == 1nat,
        fp_neg_spec(0) == 0nat,
{
    lemma_p_bounds();
    let p = p_nat() as int;
    lemma_small_mod(1, p_nat());
    lemma_small_mod(0, p_nat());
    assert(p % p == 0) by {
        vstd::arithmetic::div_mod::lemma_mod_self_0(p);
    }
    assert((1 + p_nat() - 0) as int % p == 1) by {
        vstd::arithmetic::div_mod::lemma_mod_adds(1, p, p);
        lemma_small_mod(1, p_nat());
    }
}

proof fn lemma_fp2_one_sq()
    ensures
        fp2_mul_spec(fp2_one_val(), fp2_one_val()) == fp2_one_val(),
{
    reveal(fp2_mul_spec);
    lemma_fp_units();
}

proof fn lemma_fp6_one_sq()
    ensures
        fp6_mul_spec(fp6_one_val(), fp6_one_val()) == fp6_one_val(),
        fp6_mul_spec(fp6_one_val(), fp6_zero_val()) == fp6_zero_val(),
        fp6_mul_spec(fp6_zero_val(), fp6_one_val()) == fp6_zero_val(),
        fp6_mul_spec(fp6_zero_val(), fp6_zero_val()) == fp6_zero_val(),
        fp6_add_spec(fp6_zero_val(), fp6_zero_val()) == fp6_zero_val(),
        fp6_add_spec(fp6_one_val(), fp6_zero_val()) == fp6_one_val(),
        fp6_v_spec(fp6_zero_val()) == fp6_zero_val(),
{
    reveal(fp6_mul_spec);
    reveal(fp2_mul_spec);
    lemma_fp_units();
}

proof fn lemma_fp12_one_sq()
    ensures
        fp12_mul_spec(fp12_one_val(), fp12_one_val()) == fp12_one_val(),
{
    reveal(fp12_mul_spec);
    lemma_fp6_one_sq();
}

proof fn lemma_fp12_pow_step(x: Fp12Val, v: nat, b: bool)
    ensures
        fp12_pow_spec(x, 2 * v + (if b {
            1nat
        } else {
            0nat
        })) == (if b {
            fp12_mul_spec(fp12_mul_spec(fp12_pow_spec(x, v), fp12_pow_spec(x, v)), x)
        } else {
            fp12_mul_spec(fp12_pow_spec(x, v), fp12_pow_spec(x, v))
        }),
{
    let bit: nat = if b {
        1nat
    } else {
        0nat
    };
    let e = 2 * v + bit;
    reveal_with_fuel(fp12_pow_spec, 2);
    if e == 0 {
        lemma_fp12_one_sq();
        assert(fp12_pow_spec(x, 0) == fp12_one_val());
    } else {
        assert(e / 2 == v && e % 2 == bit) by {
            vstd::arithmetic::div_mod::lemma_div_multiples_vanish_fancy(v as int, bit as int, 2);
            vstd::arithmetic::div_mod::lemma_mod_multiples_vanish(v as int, bit as int, 2);
            lemma_small_mod(bit, 2);
        }
    }
}

proof fn lemma_fp2_pow_step(x: Fp2Val, v: nat, b: bool)
    ensures
        fp2_pow_spec(x, 2 * v + (if b {
            1nat
        } else {
            0nat
        })) == (if b {
            fp2_mul_spec(fp2_mul_spec(fp2_pow_spec(x, v), fp2_pow_spec(x, v)), x)
        } else {
            fp2_mul_spec(fp2_pow_spec(x, v), fp2_pow_spec(x, v))
        }),
{
    let bit: nat = if b {
        1nat
    } else {
        0nat
    };
    let e = 2 * v + bit;
    reveal_with_fuel(fp2_pow_spec, 2);
    if e == 0 {
        lemma_fp2_one_sq();
        assert(fp2_pow_spec(x, 0) == fp2_one_val());
    } else {
        assert(e / 2 == v && e % 2 == bit) by {
            vstd::arithmetic::div_mod::lemma_div_multiples_vanish_fancy(v as int, bit as int, 2);
            vstd::arithmetic::div_mod::lemma_mod_multiples_vanish(v as int, bit as int, 2);
            lemma_small_mod(bit, 2);
        }
    }
}

/// Square-and-multiply power of an `Fp12` by a limb-vector exponent.
#[verifier::rlimit(100)]
pub fn fp12_pow(x: &Fp12, e: Vec<u32>) -> (r: Fp12)
    requires
        x.wf(),
    ensures
        r.wf(),
        r@ == fp12_pow_spec(x@, limbs_val(e@)),
{
    let ghost ev = limbs_val(e@);
    let bits = to_bits(e);
    let mut acc = fp12_one();
    let mut i: usize = bits.len();
    proof {
        reveal_with_fuel(fp12_pow_spec, 1);
        assert(bits_val_from(bits@, bits@.len() as int) == 0);
    }
    while i > 0
        invariant
            x.wf(),
            acc.wf(),
            i <= bits@.len(),
            acc@ == fp12_pow_spec(x@, bits_val_from(bits@, i as int)),
            bits_val_from(bits@, 0) == ev,
        decreases i,
    {
        i -= 1;
        let b = bits[i];
        proof {
            lemma_fp12_pow_step(x@, bits_val_from(bits@, i + 1), b);
            assert(bits_val_from(bits@, i as int) == (if b {
                1nat
            } else {
                0nat
            }) + 2 * bits_val_from(bits@, i + 1));
        }
        let sq = fp12_mul(&acc, &acc);
        if b {
            acc = fp12_mul(&sq, x);
        } else {
            acc = sq;
        }
    }
    acc
}

/// Square-and-multiply power of an `Fp2` by a limb-vector exponent.
#[verifier::rlimit(100)]
pub fn fp2_pow(x: &Fp2, e: Vec<u32>) -> (r: Fp2)
    requires
        x.wf(),
    ensures
        r.wf(),
        r@ == fp2_pow_spec(x@, limbs_val(e@)),
{
    let ghost ev = limbs_val(e@);
    let bits = to_bits(e);
    let mut acc = fp2_one();
    let mut i: usize = bits.len();
    proof {
        reveal_with_fuel(fp2_pow_spec, 1);
        assert(bits_val_from(bits@, bits@.len() as int) == 0);
    }
    while i > 0
        invariant
            x.wf(),
            acc.wf(),
            i <= bits@.len(),
            acc@ == fp2_pow_spec(x@, bits_val_from(bits@, i as int)),
            bits_val_from(bits@, 0) == ev,
        decreases i,
    {
        i -= 1;
        let b = bits[i];
        proof {
            lemma_fp2_pow_step(x@, bits_val_from(bits@, i + 1), b);
            assert(bits_val_from(bits@, i as int) == (if b {
                1nat
            } else {
                0nat
            }) + 2 * bits_val_from(bits@, i + 1));
        }
        let sq = fp2_mul(&acc, &acc);
        if b {
            acc = fp2_mul(&sq, x);
        } else {
            acc = sq;
        }
    }
    acc
}

// ---------------------------------------------------------------------------
// Frobenius map
// ---------------------------------------------------------------------------

/// A one-limb vector.
pub fn small_vec(x: u32) -> (r: Vec<u32>)
    ensures
        r@.len() == 1,
        limbs_val(r@) == x as nat,
{
    let mut r: Vec<u32> = Vec::new();
    r.push(x);
    assert(crate::bignum::limbs_val_from(r@, 1) == 0);
    r
}

proof fn lemma_pow_nat_pos(b: nat, e: nat)
    requires
        b >= 1,
    ensures
        pow_nat(b, e) >= 1,
    decreases e,
{
    if e > 0 {
        lemma_pow_nat_pos(b, (e - 1) as nat);
        assert(b * pow_nat(b, (e - 1) as nat) >= 1 * 1) by (nonlinear_arith)
            requires
                b >= 1,
                pow_nat(b, (e - 1) as nat) >= 1,
        ;
    }
}

/// The `n`-th power of the Frobenius endomorphism, with its coefficients
/// `xi^(j (p^n - 1) / 6)` computed on the fly.
pub fn frobenius(x: &Fp12, n: usize) -> (r: Fp12)
    requires
        x.wf(),
        1 <= n <= 12,
    ensures
        r.wf(),
        r@ == frobenius_spec(x@, n as nat),
{
    // p^n as a limb vector
    let p = p_vec();
    let mut pn = small_vec(1);
    let mut i: usize = 0;
    while i < n
        invariant
            i <= n,
            limbs_val(pn@) == pow_nat(p_nat(), i as nat),
            p@ =~= crate::fp::p_limbs_seq(),
        decreases n - i,
    {
        pn = big_mul(&pn, &p);
        proof {
            assert(pow_nat(p_nat(), (i + 1) as nat) == p_nat() * pow_nat(p_nat(), i as nat));
            vstd::arithmetic::mul::lemma_mul_is_commutative(
                p_nat() as int,
                pow_nat(p_nat(), i as nat) as int,
            );
        }
        i += 1;
    }
    proof {
        lemma_p_bounds();
        lemma_pow_nat_pos(p_nat(), n as nat);
    }
    let one = small_vec(1);
    let six = small_vec(6);
    let pn1 = big_sub(&pn, &one);
    let e6 = big_div(&pn1, &six);
    let odd = n % 2 == 1;
    let e0 = frob_coeff(x, 0, odd, &e6, Ghost(n as nat));
    let e1 = frob_coeff(x, 1, odd, &e6, Ghost(n as nat));
    let e2 = frob_coeff(x, 2, odd, &e6, Ghost(n as nat));
    let e3 = frob_coeff(x, 3, odd, &e6, Ghost(n as nat));
    let e4 = frob_coeff(x, 4, odd, &e6, Ghost(n as nat));
    let e5 = frob_coeff(x, 5, odd, &e6, Ghost(n as nat));
    let r = Fp12 {
        c0: Fp6 { c0: e0, c1: e2, c2: e4 },
        c1: Fp6 { c0: e1, c1: e3, c2: e5 },
    };
    proof {
        reveal(frobenius_spec);
        let ghost es = Seq::new(
            6,
            |j: int|
                fp2_mul_spec(
                    if (n as nat) % 2 == 1 {
                        fp2_conj_spec(fp12_e_spec(x@, j))
                    } else {
                        fp12_e_spec(x@, j)
                    },
                    gamma_spec(n as nat, j as nat),
                ),
        );
        assert(r@ == fp12_from_e_spec(es));
    }
    r
}

/// One `w`-basis coefficient of the Frobenius image: the (possibly
/// conjugated) coefficient times `xi^(j e6)`.
fn frob_coeff(x: &Fp12, j: usize, odd: bool, e6: &Vec<u32>, Ghost(n): Ghost<nat>) -> (r: Fp2)
    requires
        x.wf(),
        j < 6,
        odd <==> n % 2 == 1,
        limbs_val(e6@) == ((pow_nat(p_nat(), n) - 1) as nat) / 6,
    ensures
        r.wf(),
        r@ == fp2_mul_spec(
            if n % 2 == 1 {
                fp2_conj_spec(fp12_e_spec(x@, j as int))
            } else {
                fp12_e_spec(x@, j as int)
            },
            gamma_spec(n, j as nat),
        ),
{
    proof {
        reveal(gamma_spec);
    }
    let jv = small_vec(j as u32);
    let ej = big_mul(&jv, e6);
    let xi = fp2_xi();
    let g = fp2_pow(&xi, ej);
    let c = if j == 0 {
        fp2_dup(&x.c0.c0)
    } else if j == 1 {
        fp2_dup(&x.c1.c0)
    } else if j == 2 {
        fp2_dup(&x.c0.c1)
    } else if j == 3 {
        fp2_dup(&x.c1.c1)
    } else if j == 4 {
        fp2_dup(&x.c0.c2)
    } else {
        fp2_dup(&x.c1.c2)
    };
    let cc = if odd {
        fp2_conj(&c)
    } else {
        c
    };
    fp2_mul(&cc, &g)
}

// ---------------------------------------------------------------------------
// Copy helpers
// ---------------------------------------------------------------------------

pub fn limbs_dup(v: &Vec<u32>) -> (r: Vec<u32>)
    ensures
        r@ =~= v@,
{
    let mut r: Vec<u32> = Vec::new();
    let mut i: usize = 0;
    while i < v.len()
        invariant
            i <= v@.len(),
            r@ =~= v@.subrange(0, i as int),
        decreases v@.len() - i,
    {
        r.push(v[i]);
        proof {
            assert(r@ =~= v@.subrange(0, i + 1));
        }
        i += 1;
    }
    proof {
        assert(v@.subrange(0, v@.len() as int) =~= v@);
    }
    r
}

pub fn fp_dup(a: &Fp) -> (r: Fp)
    ensures
        r@ == a@,
        r.limbs@ =~= a.limbs@,
{
    Fp { limbs: limbs_dup(&a.limbs) }
}

pub fn fp2_dup(a: &Fp2) -> (r: Fp2)
    ensures
        r@ == a@,
        a.wf() ==> r.wf(),
{
    Fp2 { c0: fp_dup(&a.c0), c1: fp_dup(&a.c1) }
}

pub fn fp6_dup(a: &Fp6) -> (r: Fp6)
    ensures
        r@ == a@,
        a.wf() ==> r.wf(),
{
    Fp6 { c0: fp2_dup(&a.c0), c1: fp2_dup(&a.c1), c2: fp2_dup(&a.c2) }
}

pub fn fp12_dup(a: &Fp12) -> (r: Fp12)
    ensures
        r@ == a@,
        a.wf() ==> r.wf(),
{
    Fp12 { c0: fp6_dup(&a.c0), c1: fp6_dup(&a.c1) }
}

// ---------------------------------------------------------------------------
// Schedule
// ---------------------------------------------------------------------------

/// The value of intermediate `T_k` of the final-exponentiation schedule.
#[verifier::opaque]
pub open spec fn sched_val(x: Fp12Val, k: int) -> Fp12Val
    decreases k,
{
    if k <= 0 {
        frobenius_spec(x, 6)
    } else if k == 1 {
        fp12_div_spec(sched_val(x, 0), x)
    } else if k == 2 {
        frobenius_spec(sched_val(x, 1), 2)
    } else if k == 3 {
        fp12_mul_spec(sched_val(x, 2), sched_val(x, 1))
    } else if k == 4 {
        cyc_exp_spec(sched_val(x, 3))
    } else if k == 5 {
        fp12_conj_spec(sched_val(x, 4))
    } else if k == 6 {
        cyc_sq_spec(sched_val(x, 3))
    } else if k == 7 {
        fp12_conj_spec(sched_val(x, 6))
    } else if k == 8 {
        fp12_mul_spec(sched_val(x, 7), sched_val(x, 5))
    } else if k == 9 {
        cyc_exp_spec(sched_val(x, 8))
    } else if k == 10 {
        fp12_conj_spec(sched_val(x, 9))
    } else if k == 11 {
        cyc_exp_spec(sched_val(x, 10))
    } else if k == 12 {
        fp12_conj_spec(sched_val(x, 11))
    } else if k == 13 {
        cyc_exp_spec(sched_val(x, 12))
    } else if k == 14 {
        fp12_conj_spec(sched_val(x, 13))
    } else if k == 15 {
        cyc_sq_spec(sched_val(x, 5))
    } else if k == 16 {
        fp12_mul_spec(sched_val(x, 14), sched_val(x, 15))
    } else if k == 17 {
        cyc_exp_spec(sched_val(x, 16))
    } else if k == 18 {
        fp12_conj_spec(sched_val(x, 17))
    } else if k == 19 {
        fp12_mul_spec(sched_val(x, 5), sched_val(x, 12))
    } else if k == 20 {
        frobenius_spec(sched_val(x, 19), 2)
    } else if k == 21 {
        fp12_mul_spec(sched_val(x, 10), sched_val(x, 3))
    } else if k == 22 {
        frobenius_spec(sched_val(x, 21), 3)
    } else if k == 23 {
        fp12_conj_spec(sched_val(x, 3))
    } else if k == 24 {
        fp12_mul_spec(sched_val(x, 16), sched_val(x, 23))
    } else if k == 25 {
        frobenius_spec(sched_val(x, 24), 1)
    } else if k == 26 {
        fp12_conj_spec(sched_val(x, 8))
    } else if k == 27 {
        fp12_mul_spec(sched_val(x, 18), sched_val(x, 26))
    } else if k == 28 {
        fp12_mul_spec(sched_val(x, 27), sched_val(x, 3))
    } else if k == 29 {
        fp12_mul_spec(sched_val(x, 20), sched_val(x, 22))
    } else if k == 30 {
        fp12_mul_spec(sched_val(x, 29), sched_val(x, 25))
    } else {
        fp12_mul_spec(sched_val(x, 30), sched_val(x, 28))
    }
}

/// The final exponentiation: the last intermediate of the schedule.
pub open spec fn final_exp_spec(x: Fp12Val) -> Fp12Val {
    sched_val(x, 31)
}

/// The BLS parameter as an exec limb vector.
pub fn bls_u_vec() -> (r: Vec<u32>)
    ensures
        limbs_val(r@) == bls_u_nat(),
{
    let mut r: Vec<u32> = Vec::new();
    r.push(0x00010000);
    r.push(0xd2010000);
    proof {
        assert(crate::bignum::limbs_val_from(r@, 2) == 0);
        assert(crate::bignum::limbs_val_from(r@, 1) == 0xd2010000);
    }
    r
}

/// Cyclotomic exponentiation by the BLS parameter.
pub fn cyclotomic_exp(x: &Fp12) -> (r: Fp12)
    requires
        x.wf(),
    ensures
        r.wf(),
        r@ == cyc_exp_spec(x@),
{
    let u = bls_u_vec();
    fp12_pow(x, u)
}

/// Cyclotomic squaring: plain squaring, which agrees on the cyclotomic
/// subgroup where the schedule applies it.
pub fn cyclotomic_sq(x: &Fp12) -> (r: Fp12)
    requires
        x.wf(),
    ensures
        r.wf(),
        r@ == cyc_sq_spec(x@),
{
    fp12_mul(x, x)
}

/// All 32 intermediates `T_0 .. T_31` of the schedule, in order.
#[verifier::rlimit(100)]
pub fn compute_schedule(x: &Fp12) -> (r: Vec<Fp12>)
    requires
        x.wf(),
    ensures
        r@.len() == 32,
        forall|k: int| 0 <= k < 32 ==> (#[trigger] r@[k])@ == sched_val(x@, k) && r@[k].wf(),
{
    let t0 = frobenius(x, 6);
    let t1 = fp12_div(&t0, x);
    let t2 = frobenius(&t1, 2);
    let t3 = fp12_mul(&t2, &t1);
    let t4 = cyclotomic_exp(&t3);
    let t5 = fp12_conjugate(&t4);
    let t6 = cyclotomic_sq(&t3);
    let t7 = fp12_conjugate(&t6);
    let t8 = fp12_mul(&t7, &t5);
    let t9 = cyclotomic_exp(&t8);
    let t10 = fp12_conjugate(&t9);
    let t11 = cyclotomic_exp(&t10);
    let t12 = fp12_conjugate(&t11);
    let t13 = cyclotomic_exp(&t12);
    let t14 = fp12_conjugate(&t13);
    let t15 = cyclotomic_sq(&t5);
    let t16 = fp12_mul(&t14, &t15);
    let t17 = cyclotomic_exp(&t16);
    let t18 = fp12_conjugate(&t17);
    let t19 = fp12_mul(&t5, &t12);
    let t20 = frobenius(&t19, 2);
    let t21 = fp12_mul(&t10, &t3);
    let t22 = frobenius(&t21, 3);
    let t23 = fp12_conjugate(&t3);
    let t24 = fp12_mul(&t16, &t23);
    let t25 = frobenius(&t24, 1);
    let t26 = fp12_conjugate(&t8);
    let t27 = fp12_mul(&t18, &t26);
    let t28 = fp12_mul(&t27, &t3);
    let t29 = fp12_mul(&t20, &t22);
    let t30 = fp12_mul(&t29, &t25);
    let t31 = fp12_mul(&t30, &t28);
    proof {
        reveal_with_fuel(sched_val, 1);
        assert(t0@ == sched_val(x@, 0));
        assert(t1@ == sched_val(x@, 1));
        assert(t2@ == sched_val(x@, 2));
        assert(t3@ == sched_val(x@, 3));
        assert(t4@ == sched_val(x@, 4));
        assert(t5@ == sched_val(x@, 5));
        assert(t6@ == sched_val(x@, 6));
        assert(t7@ == sched_val(x@, 7));
        assert(t8@ == sched_val(x@, 8));
        assert(t9@ == sched_val(x@, 9));
        assert(t10@ == sched_val(x@, 10));
        assert(t11@ == sched_val(x@, 11));
        assert(t12@ == sched_val(x@, 12));
        assert(t13@ == sched_val(x@, 13));
        assert(t14@ == sched_val(x@, 14));
        assert(t15@ == sched_val(x@, 15));
        assert(t16@ == sched_val(x@, 16));
        assert(t17@ == sched_val(x@, 17));
        assert(t18@ == sched_val(x@, 18));
        assert(t19@ == sched_val(x@, 19));
        assert(t20@ == sched_val(x@, 20));
        assert(t21@ == sched_val(x@, 21));
        assert(t22@ == sched_val(x@, 22));
        assert(t23@ == sched_val(x@, 23));
        assert(t24@ == sched_val(x@, 24));
        assert(t25@ == sched_val(x@, 25));
        assert(t26@ == sched_val(x@, 26));
        assert(t27@ == sched_val(x@, 27));
        assert(t28@ == sched_val(x@, 28));
        assert(t29@ == sched_val(x@, 29));
        assert(t30@ == sched_val(x@, 30));
        assert(t31@ == sched_val(x@, 31));
    }
    let mut r: Vec<Fp12> = Vec::new();
    r.push(t0);
    r.push(t1);
    r.push(t2);
    r.push(t3);
    r.push(t4);
    r.push(t5);
    r.push(t6);
    r.push(t7);
    r.push(t8);
    r.push(t9);
    r.push(t10);
    r.push(t11);
    r.push(t12);
    r.push(t13);
    r.push(t14);
    r.push(t15);
    r.push(t16);
    r.push(t17);
    r.push(t18);
    r.push(t19);
    r.push(t20);
    r.push(t21);
    r.push(t22);
    r.push(t23);
    r.push(t24);
    r.push(t25);
    r.push(t26);
    r.push(t27);
    r.push(t28);
    r.push(t29);
    r.push(t30);
    r.push(t31);
    r
}

/// The native final exponentiation on `Fp12`.
pub fn final_exponentiation(x: &Fp12) -> (r: Fp12)
    requires
        x.wf(),
    ensures
        r.wf(),
        r@ == final_exp_spec(x@),
{
    let ts = compute_schedule(x);
    fp12_dup(&ts[31])
}

// ---------------------------------------------------------------------------
// Flattened coefficients and limbs
// ---------------------------------------------------------------------------

/// Coefficient `j` of the flattened 12-coefficient view of an `Fp12`.
pub open spec fn fp12_coeff(v: Fp12Val, j: int) -> nat {
    if j == 0 {
        v.c0.c0.c0
    } else if j == 1 {
        v.c0.c0.c1
    } else if j == 2 {
        v.c0.c1.c0
    } else if j == 3 {
        v.c0.c1.c1
    } else if j == 4 {
        v.c0.c2.c0
    } else if j == 5 {
        v.c0.c2.c1
    } else if j == 6 {
        v.c1.c0.c0
    } else if j == 7 {
        v.c1.c0.c1
    } else if j == 8 {
        v.c1.c1.c0
    } else if j == 9 {
        v.c1.c1.c1
    } else if j == 10 {
        v.c1.c2.c0
    } else {
        v.c1.c2.c1
    }
}

/// Cell `i` of the 144-limb encoding of an `Fp12`: limb `i % 12` of
/// coefficient `i / 12`.
pub open spec fn fp12_limb(v: Fp12Val, i: int) -> u64 {
    nat_limb(fp12_coeff(v, i / 12), (i % 12) as nat)
}

impl Fp12 {
    /// Borrow coefficient `j` of the flattened view.
    pub fn coeff(&self, j: usize) -> (r: &Fp)
        requires
            j < 12,
        ensures
            r@ == fp12_coeff(self@, j as int),
            self.wf() ==> r.wf(),
    {
        if j == 0 {
            &self.c0.c0.c0
        } else if j == 1 {
            &self.c0.c0.c1
        } else if j == 2 {
            &self.c0.c1.c0
        } else if j == 3 {
            &self.c0.c1.c1
        } else if j == 4 {
            &self.c0.c2.c0
        } else if j == 5 {
            &self.c0.c2.c1
        } else if j == 6 {
            &self.c1.c0.c0
        } else if j == 7 {
            &self.c1.c0.c1
        } else if j == 8 {
            &self.c1.c1.c0
        } else if j == 9 {
            &self.c1.c1.c1
        } else if j == 10 {
            &self.c1.c2.c0
        } else {
            &self.c1.c2.c1
        }
    }

    /// The 144-limb little-endian encoding, coefficient by coefficient.
    pub fn to_limbs(&self) -> (r: Vec<u32>)
        requires
            self.wf(),
        ensures
            r@.len() == 144,
            forall|i: int| 0 <= i < 144 ==> #[trigger] r@[i] as u64 == fp12_limb(self@, i),
    {
        let mut r: Vec<u32> = Vec::new();
        let mut j: usize = 0;
        while j < 12
            invariant
                self.wf(),
                j <= 12,
                r@.len() == 12 * j,
                forall|i: int| 0 <= i < 12 * j ==> #[trigger] r@[i] as u64 == fp12_limb(self@, i),
            decreases 12 - j,
        {
            let c = self.coeff(j);
            let mut i: usize = 0;
            while i < 12
                invariant
                    self.wf(),
                    j < 12,
                    c.wf(),
                    c@ == fp12_coeff(self@, j as int),
                    i <= 12,
                    r@.len() == 12 * j + i,
                    forall|k: int|
                        0 <= k < 12 * j + i ==> #[trigger] r@[k] as u64 == fp12_limb(self@, k),
                decreases 12 - i,
            {
                let l = c.limb(i);
                proof {
                    let k = 12 * (j as int) + i;
                    assert(k / 12 == j && k % 12 == i) by {
                        vstd::arithmetic::div_mod::lemma_div_multiples_vanish_fancy(
                            j as int,
                            i as int,
                            12,
                        );
                        vstd::arithmetic::div_mod::lemma_mod_multiples_vanish(
                            j as int,
                            i as int,
                            12,
                        );
                        lemma_small_mod(i as nat, 12);
                    }
                }
                r.push(l);
                i += 1;
            }
            j += 1;
        }
        r
    }
}

/// Limb vectors of equal length agree above `i` and differ at `i`:
/// the order of their values is the order of the limbs at `i`.
proof fn lemma_val_from_eq(a: Seq<u32>, b: Seq<u32>, i: int)
    requires
        a.len() == b.len(),
        0 <= i,
        forall|j: int| i <= j < a.len() ==> a[j] == b[j],
    ensures
        limbs_val_from(a, i) == limbs_val_from(b, i),
    decreases a.len() - i,
{
    if i < a.len() {
        lemma_val_from_eq(a, b, i + 1);
    }
}

proof fn lemma_val_from_lt(a: Seq<u32>, b: Seq<u32>, i: int, k: int)
    requires
        a.len() == b.len(),
        0 <= k <= i < a.len(),
        forall|j: int| i < j < a.len() ==> a[j] == b[j],
        a[i] < b[i],
    ensures
        limbs_val_from(a, k) < limbs_val_from(b, k),
    decreases i - k,
{
    if k == i {
        lemma_val_from_eq(a, b, i + 1);
    } else {
        lemma_val_from_lt(a, b, i, k + 1);
    }
}

/// Strict value comparison of equal-length limb vectors.
pub fn limbs_lt(a: &Vec<u32>, b: &Vec<u32>) -> (r: bool)
    requires
        a@.len() == b@.len(),
    ensures
        r == (limbs_val(a@) < limbs_val(b@)),
{
    let mut i: usize = a.len();
    while i > 0
        invariant
            a@.len() == b@.len(),
            i <= a@.len(),
            forall|j: int| i <= j < a@.len() ==> a@[j] == b@[j],
        decreases i,
    {
        i -= 1;
        if a[i] < b[i] {
            proof {
                lemma_val_from_lt(a@, b@, i as int, 0);
            }
            return true;
        }
        if a[i] > b[i] {
            proof {
                lemma_val_from_lt(b@, a@, i as int, 0);
            }
            return false;
        }
    }
    proof {
        lemma_val_from_eq(a@, b@, 0);
    }
    false
}

/// Build an `Fp12` from a 144-limb little-endian encoding whose
/// coefficients are canonical (below `p`).
/// Whether all 12 coefficient blocks of a 144-limb encoding are below `p`.
pub open spec fn fp12_limbs_canonical(s: Seq<u32>) -> bool {
    forall|j: int| 0 <= j < 12 ==> limbs_val(#[trigger] s.subrange(12 * j, 12 * j + 12)) < p_nat()
}

pub fn fp12_from_limbs(limbs: &Vec<u32>) -> (r: Option<Fp12>)
    requires
        limbs@.len() == 144,
    ensures
        r.is_some() <==> fp12_limbs_canonical(limbs@),
        match r {
            Some(v) => v.wf() && forall|i: int|
                0 <= i < 144 ==> #[trigger] limbs@[i] as u64 == fp12_limb(v@, i),
            None => true,
        },
{
    let mut cs: Vec<Fp> = Vec::new();
    let mut j: usize = 0;
    while j < 12
        invariant
            limbs@.len() == 144,
            j <= 12,
            cs@.len() == j,
            forall|t: int| 0 <= t < j ==> (#[trigger] cs@[t]).wf(),
            forall|t: int, i: int|
                0 <= t < j && 0 <= i < 12 ==> #[trigger] cs@[t].limbs@[i] == limbs@[12 * t + i],
            forall|t: int|
                0 <= t < j ==> limbs_val(#[trigger] limbs@.subrange(12 * t, 12 * t + 12))
                    < p_nat(),
        decreases 12 - j,
    {
        let mut l: Vec<u32> = Vec::new();
        let mut i: usize = 0;
        while i < 12
            invariant
                limbs@.len() == 144,
                j < 12,
                i <= 12,
                l@.len() == i,
                forall|k: int| 0 <= k < i ==> l@[k] == limbs@[12 * (j as int) + k],
            decreases 12 - i,
        {
            l.push(limbs[12 * j + i]);
            i += 1;
        }
        proof {
            assert(l@ =~= limbs@.subrange(12 * (j as int), 12 * (j as int) + 12));
        }
        let f = Fp { limbs: l };
        let p = p_vec();
        if !limbs_lt(&f.limbs, &p) {
            proof {
                assert(limbs_val(limbs@.subrange(12 * (j as int), 12 * (j as int) + 12))
                    >= p_nat());
            }
            return None;
        }
        cs.push(f);
        j += 1;
    }
    let r = Fp12 {
        c0: Fp6 {
            c0: Fp2 { c0: fp_dup(&cs[0]), c1: fp_dup(&cs[1]) },
            c1: Fp2 { c0: fp_dup(&cs[2]), c1: fp_dup(&cs[3]) },
            c2: Fp2 { c0: fp_dup(&cs[4]), c1: fp_dup(&cs[5]) },
        },
        c1: Fp6 {
            c0: Fp2 { c0: fp_dup(&cs[6]), c1: fp_dup(&cs[7]) },
            c1: Fp2 { c0: fp_dup(&cs[8]), c1: fp_dup(&cs[9]) },
            c2: Fp2 { c0: fp_dup(&cs[10]), c1: fp_dup(&cs[11]) },
        },
    };
    proof {
        assert forall|i: int| 0 <= i < 144 implies #[trigger] limbs@[i] as u64 == fp12_limb(
            r@,
            i,
        ) by {
            let t = i / 12;
            let k = i % 12;
            vstd::arithmetic::div_mod::lemma_fundamental_div_mod(i, 12);
            lemma_mod_bound(i, 12);
            vstd::arithmetic::div_mod::lemma_div_pos_is_pos(i, 12);
            vstd::arithmetic::div_mod::lemma_div_is_ordered(i, 143, 12);
            crate::bignum::lemma_limb_extract(cs@[t].limbs@, 0, k);
        }
    }
    Some(r)
}


/// Well-formedness of a spec-level `Fp12` value: every coefficient is a
/// canonical field element.
pub open spec fn fp12_val_wf(v: Fp12Val) -> bool {
    fp6_val_wf(v.c0) && fp6_val_wf(v.c1)
}

pub open spec fn fp6_val_wf(v: Fp6Val) -> bool {
    fp2_val_wf(v.c0) && fp2_val_wf(v.c1) && fp2_val_wf(v.c2)
}

pub open spec fn fp2_val_wf(v: Fp2Val) -> bool {
    v.c0 < p_nat() && v.c1 < p_nat()
}

proof fn lemma_fp_neg_involution(a: nat)
    requires
        a < p_nat(),
    ensures
        fp_neg_spec(fp_neg_spec(a)) == a,
        fp_neg_spec(a) < p_nat(),
{
    lemma_p_bounds();
    let p = p_nat() as int;
    vstd::arithmetic::div_mod::lemma_mod_self_0(p);
    if a == 0 {
        lemma_small_mod(0, p_nat());
    } else {
        lemma_small_mod((p_nat() - a) as nat, p_nat());
        assert(fp_neg_spec(a) == p_nat() - a);
        lemma_small_mod(a, p_nat());
    }
}

/// Conjugation is an involution: applied twice it returns its argument.
pub proof fn lemma_conjugate_involution(v: Fp12Val)
    requires
        fp12_val_wf(v),
    ensures
        fp12_conj_spec(fp12_conj_spec(v)) == v,
{
    lemma_fp_neg_involution(v.c1.c0.c0);
    lemma_fp_neg_involution(v.c1.c0.c1);
    lemma_fp_neg_involution(v.c1.c1.c0);
    lemma_fp_neg_involution(v.c1.c1.c1);
    lemma_fp_neg_involution(v.c1.c2.c0);
    lemma_fp_neg_involution(v.c1.c2.c1);
}

/// The exec form of the involution: conjugating twice hands back the value.
pub fn conjugate_twice(x: &Fp12) -> (r: Fp12)
    requires
        x.wf(),
    ensures
        r@ == x@,
{
    proof {
        lemma_conjugate_involution(x@);
    }
    let c = fp12_conjugate(x);
    fp12_conjugate(&c)
}
} // verus!
