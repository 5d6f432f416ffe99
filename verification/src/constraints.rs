//! The constraint set of the final-exponentiation STARK as data, its
//! evaluation over the Goldilocks field, and the proof that every emitted
//! constraint vanishes on every generated trace.

use crate::tower::{fp12_limb, sched_val, Fp12Val};
use crate::trace::{
    frob_pow, is_cyc_exp_last, is_op_start, lemma_registers_row_invariant,
    lemma_t31_is_final_exponentiation, op_in1, op_in2, op_kind, op_out, op_rows, op_start,
    pis_spec, row_op, sel_cell, trace_cell, FinalExponentiateStark, OpKind,
    CYCLOTOMIC_EXP_ROWS, CYCLOTOMIC_SQ_ROWS, CONJUGATE_ROWS, FINAL_EXP_CONJUGATE_SELECTOR,
    FINAL_EXP_CYCLOTOMIC_EXP_SELECTOR, FINAL_EXP_CYCLOTOMIC_SQ_SELECTOR,
    FINAL_EXP_FORBENIUS_MAP_SELECTOR, FINAL_EXP_INPUT_OFFSET, FINAL_EXP_MUL_SELECTOR,
    FINAL_EXP_OP_OFFSET, FINAL_EXP_ROW_SELECTORS, FINAL_EXP_T0_OFFSET,
    FINAL_EXP_T1_OFFSET, FINAL_EXP_T2_OFFSET, FINAL_EXP_T3_OFFSET, FINAL_EXP_T4_OFFSET, FINAL_EXP_T5_OFFSET, FINAL_EXP_T6_OFFSET, FINAL_EXP_T7_OFFSET, FINAL_EXP_T8_OFFSET, FINAL_EXP_T9_OFFSET, FINAL_EXP_T10_OFFSET, FINAL_EXP_T11_OFFSET, FINAL_EXP_T12_OFFSET, FINAL_EXP_T13_OFFSET, FINAL_EXP_T14_OFFSET, FINAL_EXP_T15_OFFSET,
    FINAL_EXP_T16_OFFSET, FINAL_EXP_T17_OFFSET, FINAL_EXP_T18_OFFSET, FINAL_EXP_T19_OFFSET, FINAL_EXP_T20_OFFSET, FINAL_EXP_T21_OFFSET, FINAL_EXP_T22_OFFSET, FINAL_EXP_T23_OFFSET, FINAL_EXP_T24_OFFSET, FINAL_EXP_T25_OFFSET, FINAL_EXP_T26_OFFSET, FINAL_EXP_T27_OFFSET, FINAL_EXP_T28_OFFSET, FINAL_EXP_T29_OFFSET, FINAL_EXP_T30_OFFSET, FINAL_EXP_T31_OFFSET,
    FP12_FORBENIUS_MAP_ROWS, FP12_MUL_ROWS, OP_CONJUGATE_INPUT, OP_CONJUGATE_OUTPUT,
    OP_CYCLOTOMIC_EXP_INPUT, OP_CYCLOTOMIC_EXP_RES_ROW_SELECTOR, OP_CYCLOTOMIC_EXP_Z,
    OP_CYCLOTOMIC_SQ_INPUT, OP_CYCLOTOMIC_SQ_OUTPUT, OP_FROBENIUS_INPUT, OP_FROBENIUS_OUTPUT,
    OP_FROBENIUS_POW, OP_MUL_OUTPUT, OP_MUL_X_INPUT, OP_MUL_Y_INPUT, PIS_INPUT_OFFSET,
    PIS_OUTPUT_OFFSET, PUBLIC_INPUTS, TOTAL_COLUMNS, TOTAL_ROW, T0_ROW, T1_ROW, T2_ROW, T3_ROW,
    T4_ROW, T5_ROW, T6_ROW, T7_ROW, T8_ROW, T9_ROW, T10_ROW, T11_ROW, T12_ROW, T13_ROW, T14_ROW,
    T15_ROW, T16_ROW, T17_ROW, T18_ROW, T19_ROW, T20_ROW, T21_ROW, T22_ROW, T23_ROW, T24_ROW,
    T25_ROW, T26_ROW, T27_ROW, T28_ROW, T29_ROW, T30_ROW, T31_ROW,
};
use vstd::arithmetic::div_mod::{
    lemma_div_multiples_vanish_fancy, lemma_mod_bound, lemma_mod_multiples_vanish,
    lemma_mod_self_0, lemma_small_mod,
};
use vstd::prelude::*;

verus! {

/// The Goldilocks prime, the field the trace cells live in.
pub const GOLDILOCKS: u64 = 0xffff_ffff_0000_0001;

pub open spec fn gl_sub_spec(a: int, b: int) -> int {
    (a + GOLDILOCKS - (b % (GOLDILOCKS as int))) % (GOLDILOCKS as int)
}

pub open spec fn gl_mul_spec(a: int, b: int) -> int {
    (a * b) % (GOLDILOCKS as int)
}

/// One degree-at-most-5 polynomial identity of the STARK, as data. Columns
/// index `local` (the current row) and, for transitions, `next`.
pub enum Constraint {
    /// `local[col] - pis[pi]`, at every row.
    Bind { col: usize, pi: usize },
    /// `local[col] - val`, at the first row.
    FirstRow { col: usize, val: u64 },
    /// `local[col] - val`, at the last row.
    LastRow { col: usize, val: u64 },
    /// `local[a] - next[b]`, at every transition.
    Transition { a: usize, b: usize },
    /// `local[gate] * (local[a] - val)`, at every row.
    Gated { gate: usize, a: usize, val: u64 },
    /// `local[gate] * (local[a] - local[b])`, at every row.
    GatedCopy { gate: usize, a: usize, b: usize },
    /// `local[g1] * local[g2] * (local[a] - local[b])`, at every row.
    GatedCopy2 { g1: usize, g2: usize, a: usize, b: usize },
}

pub open spec fn constraint_wf(c: Constraint) -> bool {
    match c {
        Constraint::Bind { col, pi } => col < TOTAL_COLUMNS && pi < PUBLIC_INPUTS,
        Constraint::FirstRow { col, val } => col < TOTAL_COLUMNS,
        Constraint::LastRow { col, val } => col < TOTAL_COLUMNS,
        Constraint::Transition { a, b } => a < TOTAL_COLUMNS && b < TOTAL_COLUMNS,
        Constraint::Gated { gate, a, val } => gate < TOTAL_COLUMNS && a < TOTAL_COLUMNS,
        Constraint::GatedCopy { gate, a, b } => gate < TOTAL_COLUMNS && a < TOTAL_COLUMNS && b
            < TOTAL_COLUMNS,
        Constraint::GatedCopy2 { g1, g2, a, b } => g1 < TOTAL_COLUMNS && g2 < TOTAL_COLUMNS && a
            < TOTAL_COLUMNS && b < TOTAL_COLUMNS,
    }
}

/// The value of a constraint on a row pair, in the Goldilocks field.
pub open spec fn eval_spec(c: Constraint, local: Seq<u64>, next: Seq<u64>, pis: Seq<u64>) -> int {
    match c {
        Constraint::Bind { col, pi } => gl_sub_spec(local[col as int] as int, pis[pi as int] as int),
        Constraint::FirstRow { col, val } => gl_sub_spec(local[col as int] as int, val as int),
        Constraint::LastRow { col, val } => gl_sub_spec(local[col as int] as int, val as int),
        Constraint::Transition { a, b } => gl_sub_spec(
            local[a as int] as int,
            next[b as int] as int,
        ),
        Constraint::Gated { gate, a, val } => gl_mul_spec(
            local[gate as int] as int,
            gl_sub_spec(local[a as int] as int, val as int),
        ),
        Constraint::GatedCopy { gate, a, b } => gl_mul_spec(
            local[gate as int] as int,
            gl_sub_spec(local[a as int] as int, local[b as int] as int),
        ),
        Constraint::GatedCopy2 { g1, g2, a, b } => gl_mul_spec(
            local[g1 as int] as int,
            gl_mul_spec(local[g2 as int] as int, gl_sub_spec(local[a as int] as int, local[b as int] as int)),
        ),
    }
}

/// Row `r` of the trace generated on input `x`.
pub open spec fn trace_row(x: Fp12Val, r: int) -> Seq<u64> {
    Seq::new(TOTAL_COLUMNS as nat, |c: int| trace_cell(x, r, c))
}

/// Whether a constraint vanishes where its class applies, on the trace
/// generated from any input, for a trace of `num_rows` rows.
pub open spec fn c_ok(c: Constraint, num_rows: int) -> bool {
    constraint_wf(c) && forall|x: Fp12Val, r: int|
        0 <= r ==> #[trigger] c_zero_at(c, x, r, num_rows)
}

pub open spec fn c_zero_at(c: Constraint, x: Fp12Val, r: int, num_rows: int) -> bool {
    let l = trace_row(x, r);
    let n = trace_row(x, r + 1);
    let p = pis_spec(x);
    match c {
        Constraint::FirstRow { col, val } => r == 0 ==> eval_spec(c, l, n, p) == 0,
        Constraint::LastRow { col, val } => r == num_rows - 1 ==> eval_spec(c, l, n, p) == 0,
        Constraint::Transition { a, b } => eval_spec(c, l, n, p) == 0,
        _ => eval_spec(c, l, n, p) == 0,
    }
}

/// Evaluate one constraint on concrete rows.
pub fn eval_constraint(c: &Constraint, local: &Vec<u64>, next: &Vec<u64>, pis: &Vec<u64>) -> (r:
    u64)
    requires
        constraint_wf(*c),
        local@.len() == TOTAL_COLUMNS,
        next@.len() == TOTAL_COLUMNS,
        pis@.len() == PUBLIC_INPUTS,
    ensures
        r as int == eval_spec(*c, local@, next@, pis@),
{
    match c {
        Constraint::Bind { col, pi } => gl_sub(local[*col], pis[*pi]),
        Constraint::FirstRow { col, val } => gl_sub(local[*col], *val),
        Constraint::LastRow { col, val } => gl_sub(local[*col], *val),
        Constraint::Transition { a, b } => gl_sub(local[*a], next[*b]),
        Constraint::Gated { gate, a, val } => gl_mul(local[*gate], gl_sub(local[*a], *val)),
        Constraint::GatedCopy { gate, a, b } => gl_mul(local[*gate], gl_sub(local[*a], local[*b])),
        Constraint::GatedCopy2 { g1, g2, a, b } => gl_mul(
            local[*g1],
            gl_mul(local[*g2], gl_sub(local[*a], local[*b])),
        ),
    }
}

/// Subtraction in the Goldilocks field (the subtrahend reduced first).
pub fn gl_sub(a: u64, b: u64) -> (r: u64)
    ensures
        r as int == gl_sub_spec(a as int, b as int),
        r < GOLDILOCKS,
{
    let bm = b % GOLDILOCKS;
    let s = (a as u128) + (GOLDILOCKS as u128) - (bm as u128);
    let m = s % (GOLDILOCKS as u128);
    proof {
        lemma_mod_bound(s as int, GOLDILOCKS as int);
    }
    m as u64
}

/// Multiplication in the Goldilocks field.
pub fn gl_mul(a: u64, b: u64) -> (r: u64)
    ensures
        r as int == gl_mul_spec(a as int, b as int),
        r < GOLDILOCKS,
{
    proof {
        assert((a as int) * (b as int) <= 0xffff_ffff_ffff_ffff * 0xffff_ffff_ffff_ffff)
            by (nonlinear_arith)
            requires
                a <= 0xffff_ffff_ffff_ffffu64,
                b <= 0xffff_ffff_ffff_ffffu64,
        ;
    }
    let p = (a as u128) * (b as u128);
    let m = p % (GOLDILOCKS as u128);
    proof {
        lemma_mod_bound(p as int, GOLDILOCKS as int);
    }
    m as u64
}

/// Check all applicable constraints on one row pair: `first`/`last` say
/// whether `local` is the first or last row, `transitions` whether the
/// transition constraints apply (false on the last row).
pub fn check_row(
    cs: &Vec<Constraint>,
    local: &Vec<u64>,
    next: &Vec<u64>,
    pis: &Vec<u64>,
    first: bool,
    last: bool,
    transitions: bool,
) -> (ok: bool)
    requires
        forall|j: int| 0 <= j < cs@.len() ==> constraint_wf(#[trigger] cs@[j]),
        local@.len() == TOTAL_COLUMNS,
        next@.len() == TOTAL_COLUMNS,
        pis@.len() == PUBLIC_INPUTS,
    ensures
        ok == forall|j: int|
            0 <= j < cs@.len() ==> (applies(#[trigger] cs@[j], first, last, transitions)
                ==> eval_spec(cs@[j], local@, next@, pis@) == 0),
{
    let mut j: usize = 0;
    while j < cs.len()
        invariant
            forall|t: int| 0 <= t < cs@.len() ==> constraint_wf(#[trigger] cs@[t]),
            local@.len() == TOTAL_COLUMNS,
            next@.len() == TOTAL_COLUMNS,
            pis@.len() == PUBLIC_INPUTS,
            j <= cs@.len(),
            forall|t: int|
                0 <= t < j ==> (applies(#[trigger] cs@[t], first, last, transitions) ==> eval_spec(
                    cs@[t],
                    local@,
                    next@,
                    pis@,
                ) == 0),
        decreases cs@.len() - j,
    {
        let c = &cs[j];
        let applicable = match c {
            Constraint::FirstRow { .. } => first,
            Constraint::LastRow { .. } => last,
            Constraint::Transition { .. } => transitions,
            _ => true,
        };
        if applicable {
            if eval_constraint(c, local, next, pis) != 0 {
                return false;
            }
        }
        j += 1;
    }
    true
}

/// Every applicable constraint vanishes on every row pair of the trace.
pub open spec fn trace_ok(cs: Seq<Constraint>, tr: Seq<Seq<u64>>, pis: Seq<u64>) -> bool {
    forall|rr: int, j: int| #![trigger cs[j], tr[rr]]
        0 <= rr < tr.len() && 0 <= j < cs.len() ==> (applies(
            cs[j],
            rr == 0,
            rr == tr.len() - 1,
            rr + 1 < tr.len(),
        ) ==> eval_spec(
            cs[j],
            tr[rr],
            tr[if rr + 1 < tr.len() {
                rr + 1
            } else {
                rr
            }],
            pis,
        ) == 0)
}

/// The honest verifier: evaluate every constraint on every row of a trace.
pub fn check_trace(cs: &Vec<Constraint>, trace: &Vec<Vec<u64>>, pis: &Vec<u64>) -> (ok: bool)
    requires
        forall|j: int| 0 <= j < cs@.len() ==> constraint_wf(#[trigger] cs@[j]),
        trace@.len() >= 1,
        forall|r: int| 0 <= r < trace@.len() ==> (#[trigger] trace@[r])@.len() == TOTAL_COLUMNS,
        pis@.len() == PUBLIC_INPUTS,
    ensures
        ok == trace_ok(cs@, trace@.map_values(|v: Vec<u64>| v@), pis@),
{
    let ghost tr = trace@.map_values(|v: Vec<u64>| v@);
    let n = trace.len();
    let mut rr: usize = 0;
    while rr < n
        invariant
            forall|j: int| 0 <= j < cs@.len() ==> constraint_wf(#[trigger] cs@[j]),
            n == trace@.len(),
            n >= 1,
            forall|r: int|
                0 <= r < trace@.len() ==> (#[trigger] trace@[r])@.len() == TOTAL_COLUMNS,
            pis@.len() == PUBLIC_INPUTS,
            tr == trace@.map_values(|v: Vec<u64>| v@),
            rr <= n,
            forall|r: int, j: int| #![trigger cs@[j], tr[r]]
                0 <= r < rr && 0 <= j < cs@.len() ==> (applies(
                    cs@[j],
                    r == 0,
                    r == n - 1,
                    r + 1 < n,
                ) ==> eval_spec(
                    cs@[j],
                    tr[r],
                    tr[if r + 1 < n {
                        r + 1
                    } else {
                        r
                    }],
                    pis@,
                ) == 0),
        decreases n - rr,
    {
        let next = if rr + 1 < n {
            &trace[rr + 1]
        } else {
            &trace[rr]
        };
        let row_ok = check_row(cs, &trace[rr], next, pis, rr == 0, rr == n - 1, rr + 1 < n);
        if !row_ok {
            proof {
                assert(tr[rr as int] == trace@[rr as int]@);
            }
            return false;
        }
        rr += 1;
    }
    true
}

/// Whether a constraint's class applies on a row so described.
pub open spec fn applies(c: Constraint, first: bool, last: bool, transitions: bool) -> bool {
    match c {
        Constraint::FirstRow { .. } => first,
        Constraint::LastRow { .. } => last,
        Constraint::Transition { .. } => transitions,
        _ => true,
    }
}

// ---------------------------------------------------------------------------
// Facts used by the vanishing proofs
// ---------------------------------------------------------------------------

/// Every trace cell is a canonical small value.
proof fn lemma_cell_small(x: Fp12Val, r: int, c: int)
    ensures
        trace_cell(x, r, c) < 0x1_0000_0000,
{
}

proof fn lemma_gl_sub_self(v: int)
    requires
        0 <= v < GOLDILOCKS,
    ensures
        gl_sub_spec(v, v) == 0,
{
    let g = GOLDILOCKS as int;
    lemma_small_mod(v as nat, GOLDILOCKS as nat);
    lemma_mod_self_0(g);
    assert((v + g - v) % g == g % g);
}

proof fn lemma_gl_gate(gate: int, d: int)
    requires
        0 <= d < GOLDILOCKS,
    ensures
        gate == 0 ==> gl_mul_spec(gate, d) == 0,
        d == 0 ==> gl_mul_spec(gate, d) == 0,
        gate == 1 ==> gl_mul_spec(gate, d) == d,
{
    let g = GOLDILOCKS as int;
    if gate == 0 {
        assert(0int * d == 0);
        lemma_small_mod(0, GOLDILOCKS as nat);
    }
    if d == 0 {
        assert(gate * 0int == 0) by (nonlinear_arith);
        lemma_small_mod(0, GOLDILOCKS as nat);
    }
    if gate == 1 {
        assert(1int * d == d);
        lemma_small_mod(d as nat, GOLDILOCKS as nat);
    }
}

/// Cell `i` of register `T_j` holds limb `i` of schedule value `j`.
proof fn lemma_t_reg_cell(x: Fp12Val, r: int, j: int, i: int)
    requires
        0 <= j < 32,
        0 <= i < 144,
    ensures
        trace_cell(x, r, FINAL_EXP_T0_OFFSET + 144 * j + i) == fp12_limb(
            sched_val(x, j),
            i,
        ),
{
    lemma_div_multiples_vanish_fancy(j, i, 144);
    lemma_mod_multiples_vanish(j, i, 144);
    lemma_small_mod(i as nat, 144);
}


/// The row-selector gate forces the cell at one row to a fixed value.
proof fn lemma_gated_const_ok(rr: int, a: int, val: u64, num_rows: int)
    requires
        0 <= rr < 8192,
        0 <= a < TOTAL_COLUMNS,
        val < GOLDILOCKS,
        forall|x: Fp12Val| #[trigger] trace_cell(x, rr, a) == val,
    ensures
        c_ok(
            Constraint::Gated { gate: (FINAL_EXP_ROW_SELECTORS + rr) as usize, a: a as usize, val },
            num_rows,
        ),
{
    let c = Constraint::Gated { gate: (FINAL_EXP_ROW_SELECTORS + rr) as usize, a: a as usize, val };
    assert forall|x: Fp12Val, r: int| 0 <= r implies #[trigger] c_zero_at(c, x, r, num_rows) by {
        let l = trace_row(x, r);
        let d = gl_sub_spec(l[a] as int, val as int);
        lemma_mod_bound(
            l[a] as int + GOLDILOCKS - (val as int % (GOLDILOCKS as int)),
            GOLDILOCKS as int,
        );
        lemma_cell_small(x, r, a);
        if r == rr {
            lemma_gl_sub_self(val as int);
            lemma_gl_gate(1, d);
        } else {
            lemma_gl_gate(0, d);
        }
    }
}

/// The row-selector gate forces two cells at one row to agree.
proof fn lemma_copy_ok(rr: int, a: int, b: int, num_rows: int)
    requires
        0 <= rr < 8192,
        0 <= a < TOTAL_COLUMNS,
        0 <= b < TOTAL_COLUMNS,
        forall|x: Fp12Val| #[trigger] trace_cell(x, rr, a) == trace_cell(x, rr, b),
    ensures
        c_ok(
            Constraint::GatedCopy {
                gate: (FINAL_EXP_ROW_SELECTORS + rr) as usize,
                a: a as usize,
                b: b as usize,
            },
            num_rows,
        ),
{
    let c = Constraint::GatedCopy {
        gate: (FINAL_EXP_ROW_SELECTORS + rr) as usize,
        a: a as usize,
        b: b as usize,
    };
    assert forall|x: Fp12Val, r: int| 0 <= r implies #[trigger] c_zero_at(c, x, r, num_rows) by {
        let l = trace_row(x, r);
        let d = gl_sub_spec(l[a] as int, l[b] as int);
        lemma_mod_bound(
            l[a] as int + GOLDILOCKS - (l[b] as int % (GOLDILOCKS as int)),
            GOLDILOCKS as int,
        );
        lemma_cell_small(x, r, a);
        lemma_cell_small(x, r, b);
        if r == rr {
            lemma_gl_sub_self(l[a] as int);
            lemma_gl_gate(1, d);
        } else {
            lemma_gl_gate(0, d);
        }
    }
}

/// A doubly gated copy vanishes: at the selected row the inner gate is 0
/// or the two cells agree, and elsewhere the outer gate is 0.
proof fn lemma_copy2_ok(rr: int, g2: int, a: int, b: int, num_rows: int)
    requires
        0 <= rr < 8192,
        0 <= g2 < TOTAL_COLUMNS,
        0 <= a < TOTAL_COLUMNS,
        0 <= b < TOTAL_COLUMNS,
        forall|x: Fp12Val| #[trigger] trace_cell(x, rr, g2) == 0 || trace_cell(x, rr, a)
            == trace_cell(x, rr, b),
    ensures
        c_ok(
            Constraint::GatedCopy2 {
                g1: (FINAL_EXP_ROW_SELECTORS + rr) as usize,
                g2: g2 as usize,
                a: a as usize,
                b: b as usize,
            },
            num_rows,
        ),
{
    let c = Constraint::GatedCopy2 {
        g1: (FINAL_EXP_ROW_SELECTORS + rr) as usize,
        g2: g2 as usize,
        a: a as usize,
        b: b as usize,
    };
    assert forall|x: Fp12Val, r: int| 0 <= r implies #[trigger] c_zero_at(c, x, r, num_rows) by {
        let l = trace_row(x, r);
        let d = gl_sub_spec(l[a] as int, l[b] as int);
        lemma_mod_bound(
            l[a] as int + GOLDILOCKS - (l[b] as int % (GOLDILOCKS as int)),
            GOLDILOCKS as int,
        );
        let inner = gl_mul_spec(l[g2] as int, d);
        lemma_mod_bound(l[g2] as int * d, GOLDILOCKS as int);
        lemma_cell_small(x, r, a);
        lemma_cell_small(x, r, b);
        lemma_cell_small(x, r, g2);
        if r == rr {
            if trace_cell(x, rr, g2) == 0 {
                lemma_gl_gate(0, d);
            } else {
                lemma_gl_sub_self(l[a] as int);
                lemma_gl_gate(l[g2] as int, d);
            }
            lemma_gl_gate(1, inner);
        } else {
            lemma_gl_gate(0, inner);
        }
    }
}

// ---------------------------------------------------------------------------
// The emitted constraint list, as spec-level data
// ---------------------------------------------------------------------------

/// The five kind-exclusivity constraints of one schedule row.
pub open spec fn exclusivity_row_cs(rr: int) -> Seq<Constraint> {
    seq![
        Constraint::Gated {
            gate: (FINAL_EXP_ROW_SELECTORS + rr) as usize,
            a: FINAL_EXP_FORBENIUS_MAP_SELECTOR,
            val: sel_cell(rr, OpKind::Frobenius),
        },
        Constraint::Gated {
            gate: (FINAL_EXP_ROW_SELECTORS + rr) as usize,
            a: FINAL_EXP_CYCLOTOMIC_EXP_SELECTOR,
            val: sel_cell(rr, OpKind::CycExp),
        },
        Constraint::Gated {
            gate: (FINAL_EXP_ROW_SELECTORS + rr) as usize,
            a: FINAL_EXP_MUL_SELECTOR,
            val: sel_cell(rr, OpKind::Mul),
        },
        Constraint::Gated {
            gate: (FINAL_EXP_ROW_SELECTORS + rr) as usize,
            a: FINAL_EXP_CYCLOTOMIC_SQ_SELECTOR,
            val: sel_cell(rr, OpKind::CycSq),
        },
        Constraint::Gated {
            gate: (FINAL_EXP_ROW_SELECTORS + rr) as usize,
            a: FINAL_EXP_CONJUGATE_SELECTOR,
            val: sel_cell(rr, OpKind::Conj),
        },
    ]
}

/// The kind-exclusivity constraints over `nrows` rows starting at `row`.
pub open spec fn exclusivity_cs(row: int, nrows: int) -> Seq<Constraint>
    decreases nrows,
{
    if nrows <= 0 {
        Seq::empty()
    } else {
        exclusivity_cs(row, nrows - 1) + exclusivity_row_cs(row + nrows - 1)
    }
}

/// `n` gated limb copies between two column blocks, gated at row `rr`.
pub open spec fn copy_block_cs(rr: int, a_col: int, b_col: int, n: int) -> Seq<Constraint>
    decreases n,
{
    if n <= 0 {
        Seq::empty()
    } else {
        copy_block_cs(rr, a_col, b_col, n - 1).push(
            Constraint::GatedCopy {
                gate: (FINAL_EXP_ROW_SELECTORS + rr) as usize,
                a: (a_col + n - 1) as usize,
                b: (b_col + n - 1) as usize,
            },
        )
    }
}

/// `n` doubly gated output copies of a cyclotomic-exponentiation step.
pub open spec fn cyc_exp_out_cs(last: int, output_col: int, n: int) -> Seq<Constraint>
    decreases n,
{
    if n <= 0 {
        Seq::empty()
    } else {
        cyc_exp_out_cs(last, output_col, n - 1).push(
            Constraint::GatedCopy2 {
                g1: (FINAL_EXP_ROW_SELECTORS + last) as usize,
                g2: (FINAL_EXP_OP_OFFSET + OP_CYCLOTOMIC_EXP_RES_ROW_SELECTOR) as usize,
                a: (output_col + n - 1) as usize,
                b: (FINAL_EXP_OP_OFFSET + OP_CYCLOTOMIC_EXP_Z + n - 1) as usize,
            },
        )
    }
}

/// The glue constraints of a frobenius step.
pub open spec fn forbenius_cs(row: int, input_col: int, output_col: int, pow: int) -> Seq<
    Constraint,
> {
    exclusivity_cs(row, 12) + copy_block_cs(
        row,
        input_col,
        (FINAL_EXP_OP_OFFSET + OP_FROBENIUS_INPUT) as int,
        144,
    ) + seq![
        Constraint::Gated {
            gate: (FINAL_EXP_ROW_SELECTORS + row) as usize,
            a: (FINAL_EXP_OP_OFFSET + OP_FROBENIUS_POW) as usize,
            val: pow as u64,
        },
    ] + copy_block_cs(row, output_col, (FINAL_EXP_OP_OFFSET + OP_FROBENIUS_OUTPUT) as int, 144)
}

/// The glue constraints of a multiplication step.
pub open spec fn mul_cs(row: int, x_col: int, y_col: int, res_col: int) -> Seq<Constraint> {
    exclusivity_cs(row, 12) + copy_block_cs(
        row,
        x_col,
        (FINAL_EXP_OP_OFFSET + OP_MUL_X_INPUT) as int,
        144,
    ) + copy_block_cs(row, y_col, (FINAL_EXP_OP_OFFSET + OP_MUL_Y_INPUT) as int, 144)
        + copy_block_cs(row, res_col, (FINAL_EXP_OP_OFFSET + OP_MUL_OUTPUT) as int, 144)
}

/// The glue constraints of a cyclotomic-exponentiation step.
pub open spec fn cyc_exp_cs(row: int, input_col: int, output_col: int) -> Seq<Constraint> {
    exclusivity_cs(row, 841) + copy_block_cs(
        row,
        input_col,
        (FINAL_EXP_OP_OFFSET + OP_CYCLOTOMIC_EXP_INPUT) as int,
        144,
    ) + cyc_exp_out_cs(row + 840, output_col, 144)
}

/// The glue constraints of a conjugation step.
pub open spec fn conjugate_cs(row: int, input_col: int, output_col: int) -> Seq<Constraint> {
    exclusivity_cs(row, 1) + copy_block_cs(
        row,
        input_col,
        (FINAL_EXP_OP_OFFSET + OP_CONJUGATE_INPUT) as int,
        144,
    ) + copy_block_cs(row, output_col, (FINAL_EXP_OP_OFFSET + OP_CONJUGATE_OUTPUT) as int, 144)
}

/// The glue constraints of a cyclotomic-squaring step.
pub open spec fn cyc_sq_cs(row: int, input_col: int, output_col: int) -> Seq<Constraint> {
    exclusivity_cs(row, 12) + copy_block_cs(
        row,
        input_col,
        (FINAL_EXP_OP_OFFSET + OP_CYCLOTOMIC_SQ_INPUT) as int,
        144,
    ) + copy_block_cs(row, output_col, (FINAL_EXP_OP_OFFSET + OP_CYCLOTOMIC_SQ_OUTPUT) as int, 144)
}

/// The public-input binding constraints of the first `n` limbs.
pub open spec fn binds_cs(n: int) -> Seq<Constraint>
    decreases n,
{
    if n <= 0 {
        Seq::empty()
    } else {
        binds_cs(n - 1) + seq![
            Constraint::Bind {
                col: (FINAL_EXP_INPUT_OFFSET + n - 1) as usize,
                pi: (PIS_INPUT_OFFSET + n - 1) as usize,
            },
            Constraint::Bind {
                col: (FINAL_EXP_T31_OFFSET + n - 1) as usize,
                pi: (PIS_OUTPUT_OFFSET + n - 1) as usize,
            },
        ]
    }
}

/// The first-row row-selector constraints for the first `n` selector cells.
pub open spec fn first_row_cs(n: int) -> Seq<Constraint>
    decreases n,
{
    if n <= 0 {
        Seq::empty()
    } else {
        first_row_cs(n - 1).push(
            Constraint::FirstRow {
                col: (FINAL_EXP_ROW_SELECTORS + n - 1) as usize,
                val: if n - 1 == 0 {
                    1u64
                } else {
                    0u64
                },
            },
        )
    }
}

/// The row-selector shift transitions for the first `n` selector cells.
pub open spec fn shift_cs(n: int) -> Seq<Constraint>
    decreases n,
{
    if n <= 0 {
        Seq::empty()
    } else {
        shift_cs(n - 1).push(
            Constraint::Transition {
                a: (FINAL_EXP_ROW_SELECTORS + n - 1) as usize,
                b: (FINAL_EXP_ROW_SELECTORS + n) as usize,
            },
        )
    }
}

/// The last-row row-selector constraints for the first `n` selector cells.
pub open spec fn last_row_cs(n: int, num_rows: int) -> Seq<Constraint>
    decreases n,
{
    if n <= 0 {
        Seq::empty()
    } else {
        last_row_cs(n - 1, num_rows).push(
            Constraint::LastRow {
                col: (FINAL_EXP_ROW_SELECTORS + n - 1) as usize,
                val: if n - 1 == num_rows - 1 {
                    1u64
                } else {
                    0u64
                },
            },
        )
    }
}

/// The row-invariance transitions of limb `i` of the first `t` result
/// registers.
pub open spec fn inv_reg_cs(i: int, t: int) -> Seq<Constraint>
    decreases t,
{
    if t <= 0 {
        Seq::empty()
    } else {
        inv_reg_cs(i, t - 1).push(
            Constraint::Transition {
                a: (FINAL_EXP_T0_OFFSET + 144 * (t - 1) + i) as usize,
                b: (FINAL_EXP_T0_OFFSET + 144 * (t - 1) + i) as usize,
            },
        )
    }
}

/// The row-invariance transitions of the input register and all 32 result
/// registers, for the first `n` limbs.
pub open spec fn invariance_cs(n: int) -> Seq<Constraint>
    decreases n,
{
    if n <= 0 {
        Seq::empty()
    } else {
        invariance_cs(n - 1) + seq![
            Constraint::Transition {
                a: (FINAL_EXP_INPUT_OFFSET + n - 1) as usize,
                b: (FINAL_EXP_INPUT_OFFSET + n - 1) as usize,
            },
        ] + inv_reg_cs(n - 1, 32)
    }
}

/// The complete emitted constraint list, in emission order: the
/// public-input binding, the row-selector discipline, the register
/// row-invariance, and the glue constraints of the 32 schedule steps.
pub open spec fn stark_constraints_spec(num_rows: int) -> Seq<Constraint> {
    binds_cs(144) + first_row_cs(num_rows) + shift_cs(num_rows - 1) + last_row_cs(
        num_rows,
        num_rows,
    ) + invariance_cs(144) + forbenius_cs(T0_ROW as int, FINAL_EXP_INPUT_OFFSET as int, FINAL_EXP_T0_OFFSET as int, 6) + mul_cs(T1_ROW as int, FINAL_EXP_T1_OFFSET as int, FINAL_EXP_INPUT_OFFSET as int, FINAL_EXP_T0_OFFSET as int) + forbenius_cs(T2_ROW as int, FINAL_EXP_T1_OFFSET as int, FINAL_EXP_T2_OFFSET as int, 2) + mul_cs(T3_ROW as int, FINAL_EXP_T2_OFFSET as int, FINAL_EXP_T1_OFFSET as int, FINAL_EXP_T3_OFFSET as int) + cyc_exp_cs(T4_ROW as int, FINAL_EXP_T3_OFFSET as int, FINAL_EXP_T4_OFFSET as int) + conjugate_cs(T5_ROW as int, FINAL_EXP_T4_OFFSET as int, FINAL_EXP_T5_OFFSET as int) + cyc_sq_cs(T6_ROW as int, FINAL_EXP_T3_OFFSET as int, FINAL_EXP_T6_OFFSET as int) + conjugate_cs(T7_ROW as int, FINAL_EXP_T6_OFFSET as int, FINAL_EXP_T7_OFFSET as int) + mul_cs(T8_ROW as int, FINAL_EXP_T7_OFFSET as int, FINAL_EXP_T5_OFFSET as int, FINAL_EXP_T8_OFFSET as int) + cyc_exp_cs(T9_ROW as int, FINAL_EXP_T8_OFFSET as int, FINAL_EXP_T9_OFFSET as int) + conjugate_cs(T10_ROW as int, FINAL_EXP_T9_OFFSET as int, FINAL_EXP_T10_OFFSET as int) + cyc_exp_cs(T11_ROW as int, FINAL_EXP_T10_OFFSET as int, FINAL_EXP_T11_OFFSET as int) + conjugate_cs(T12_ROW as int, FINAL_EXP_T11_OFFSET as int, FINAL_EXP_T12_OFFSET as int) + cyc_exp_cs(T13_ROW as int, FINAL_EXP_T12_OFFSET as int, FINAL_EXP_T13_OFFSET as int) + conjugate_cs(T14_ROW as int, FINAL_EXP_T13_OFFSET as int, FINAL_EXP_T14_OFFSET as int) + cyc_sq_cs(T15_ROW as int, FINAL_EXP_T5_OFFSET as int, FINAL_EXP_T15_OFFSET as int) + mul_cs(T16_ROW as int, FINAL_EXP_T14_OFFSET as int, FINAL_EXP_T15_OFFSET as int, FINAL_EXP_T16_OFFSET as int) + cyc_exp_cs(T17_ROW as int, FINAL_EXP_T16_OFFSET as int, FINAL_EXP_T17_OFFSET as int) + conjugate_cs(T18_ROW as int, FINAL_EXP_T17_OFFSET as int, FINAL_EXP_T18_OFFSET as int) + mul_cs(T19_ROW as int, FINAL_EXP_T5_OFFSET as int, FINAL_EXP_T12_OFFSET as int, FINAL_EXP_T19_OFFSET as int) + forbenius_cs(T20_ROW as int, FINAL_EXP_T19_OFFSET as int, FINAL_EXP_T20_OFFSET as int, 2) + mul_cs(T21_ROW as int, FINAL_EXP_T10_OFFSET as int, FINAL_EXP_T3_OFFSET as int, FINAL_EXP_T21_OFFSET as int) + forbenius_cs(T22_ROW as int, FINAL_EXP_T21_OFFSET as int, FINAL_EXP_T22_OFFSET as int, 3) + conjugate_cs(T23_ROW as int, FINAL_EXP_T3_OFFSET as int, FINAL_EXP_T23_OFFSET as int) + mul_cs(T24_ROW as int, FINAL_EXP_T16_OFFSET as int, FINAL_EXP_T23_OFFSET as int, FINAL_EXP_T24_OFFSET as int) + forbenius_cs(T25_ROW as int, FINAL_EXP_T24_OFFSET as int, FINAL_EXP_T25_OFFSET as int, 1) + conjugate_cs(T26_ROW as int, FINAL_EXP_T8_OFFSET as int, FINAL_EXP_T26_OFFSET as int) + mul_cs(T27_ROW as int, FINAL_EXP_T18_OFFSET as int, FINAL_EXP_T26_OFFSET as int, FINAL_EXP_T27_OFFSET as int) + mul_cs(T28_ROW as int, FINAL_EXP_T27_OFFSET as int, FINAL_EXP_T3_OFFSET as int, FINAL_EXP_T28_OFFSET as int) + mul_cs(T29_ROW as int, FINAL_EXP_T20_OFFSET as int, FINAL_EXP_T22_OFFSET as int, FINAL_EXP_T29_OFFSET as int) + mul_cs(T30_ROW as int, FINAL_EXP_T29_OFFSET as int, FINAL_EXP_T25_OFFSET as int, FINAL_EXP_T30_OFFSET as int) + mul_cs(T31_ROW as int, FINAL_EXP_T30_OFFSET as int, FINAL_EXP_T28_OFFSET as int, FINAL_EXP_T31_OFFSET as int)
}

/// Emit the five kind-exclusivity constraints for one schedule row: the
/// step's own selector equals 1 and the four others equal 0.
fn add_exclusivity_row(cs: &mut Vec<Constraint>, rr: usize, Ghost(num_rows): Ghost<int>)
    requires
        rr < TOTAL_ROW,
    ensures
        final(cs)@ == old(cs)@ + exclusivity_row_cs(rr as int),
        final(cs)@.len() == old(cs)@.len() + 5,
        forall|j: int| 0 <= j < old(cs)@.len() ==> #[trigger] final(cs)@[j] == old(cs)@[j],
        forall|j: int|
            old(cs)@.len() <= j < final(cs)@.len() ==> c_ok(#[trigger] final(cs)@[j], num_rows),
{
    let gate = FINAL_EXP_ROW_SELECTORS + rr;
    let kind = crate::trace::kind_of_row(rr);
    let frob: u64 = if matches!(kind, OpKind::Frobenius) {
        1
    } else {
        0
    };
    let cyce: u64 = if matches!(kind, OpKind::CycExp) {
        1
    } else {
        0
    };
    let mul: u64 = if matches!(kind, OpKind::Mul) {
        1
    } else {
        0
    };
    let cycs: u64 = if matches!(kind, OpKind::CycSq) {
        1
    } else {
        0
    };
    let conj: u64 = if matches!(kind, OpKind::Conj) {
        1
    } else {
        0
    };
    proof {
        lemma_gated_const_ok(rr as int, FINAL_EXP_FORBENIUS_MAP_SELECTOR as int, frob, num_rows);
        lemma_gated_const_ok(rr as int, FINAL_EXP_CYCLOTOMIC_EXP_SELECTOR as int, cyce, num_rows);
        lemma_gated_const_ok(rr as int, FINAL_EXP_MUL_SELECTOR as int, mul, num_rows);
        lemma_gated_const_ok(rr as int, FINAL_EXP_CYCLOTOMIC_SQ_SELECTOR as int, cycs, num_rows);
        lemma_gated_const_ok(rr as int, FINAL_EXP_CONJUGATE_SELECTOR as int, conj, num_rows);
    }
    cs.push(Constraint::Gated { gate, a: FINAL_EXP_FORBENIUS_MAP_SELECTOR, val: frob });
    cs.push(Constraint::Gated { gate, a: FINAL_EXP_CYCLOTOMIC_EXP_SELECTOR, val: cyce });
    cs.push(Constraint::Gated { gate, a: FINAL_EXP_MUL_SELECTOR, val: mul });
    cs.push(Constraint::Gated { gate, a: FINAL_EXP_CYCLOTOMIC_SQ_SELECTOR, val: cycs });
    cs.push(Constraint::Gated { gate, a: FINAL_EXP_CONJUGATE_SELECTOR, val: conj });
    proof {
        assert(frob == sel_cell(rr as int, OpKind::Frobenius));
        assert(cyce == sel_cell(rr as int, OpKind::CycExp));
        assert(mul == sel_cell(rr as int, OpKind::Mul));
        assert(cycs == sel_cell(rr as int, OpKind::CycSq));
        assert(conj == sel_cell(rr as int, OpKind::Conj));
        assert(cs@ =~= old(cs)@ + exclusivity_row_cs(rr as int));
    }
}

/// Emit a block of 144 gated limb copies between two column blocks, gated
/// at row `rr`.
fn add_copy_block(cs: &mut Vec<Constraint>, rr: usize, a_col: usize, b_col: usize, Ghost(num_rows): Ghost<int>)
    requires
        rr < 8192,
        a_col + 144 <= TOTAL_COLUMNS,
        b_col + 144 <= TOTAL_COLUMNS,
        forall|x: Fp12Val, i: int|
            0 <= i < 144 ==> #[trigger] trace_cell(x, rr as int, a_col + i) == trace_cell(
                x,
                rr as int,
                b_col + i,
            ),
    ensures
        final(cs)@ == old(cs)@ + copy_block_cs(rr as int, a_col as int, b_col as int, 144),
        final(cs)@.len() == old(cs)@.len() + 144,
        forall|j: int| 0 <= j < old(cs)@.len() ==> #[trigger] final(cs)@[j] == old(cs)@[j],
        forall|j: int|
            old(cs)@.len() <= j < final(cs)@.len() ==> c_ok(#[trigger] final(cs)@[j], num_rows),
{
    let gate = FINAL_EXP_ROW_SELECTORS + rr;
    proof {
        assert(cs@ =~= old(cs)@ + copy_block_cs(rr as int, a_col as int, b_col as int, 0));
    }
    let mut i: usize = 0;
    while i < 144
        invariant
            rr < 8192,
            gate == FINAL_EXP_ROW_SELECTORS + rr,
            cs@ == old(cs)@ + copy_block_cs(rr as int, a_col as int, b_col as int, i as int),
            a_col + 144 <= TOTAL_COLUMNS,
            b_col + 144 <= TOTAL_COLUMNS,
            forall|x: Fp12Val, t: int|
                0 <= t < 144 ==> #[trigger] trace_cell(x, rr as int, a_col + t) == trace_cell(
                    x,
                    rr as int,
                    b_col + t,
                ),
            i <= 144,
            cs@.len() == old(cs)@.len() + i,
            forall|j: int| 0 <= j < old(cs)@.len() ==> #[trigger] cs@[j] == old(cs)@[j],
            forall|j: int|
                old(cs)@.len() <= j < cs@.len() ==> c_ok(#[trigger] cs@[j], num_rows),
        decreases 144 - i,
    {
        proof {
            lemma_copy_ok(rr as int, a_col + i, b_col + i, num_rows);
        }
        cs.push(Constraint::GatedCopy { gate, a: a_col + i, b: b_col + i });
        proof {
            assert(cs@ =~= old(cs)@ + copy_block_cs(rr as int, a_col as int, b_col as int, i + 1));
        }
        i += 1;
    }
}

/// Emit the glue constraints of a frobenius step: kind exclusivity over its
/// 12 rows, the input copy, the power pinning, and the output copy at its
/// first row.
fn add_constraints_forbenius(
    cs: &mut Vec<Constraint>,
    row: usize,
    input_col: usize,
    output_col: usize,
    pow: usize,
    Ghost(k): Ghost<int>,
    Ghost(num_rows): Ghost<int>,
)
    requires
        0 <= k < 32,
        op_kind(k) == OpKind::Frobenius,
        row as int == op_start(k),
        row_op(row as int) == k,
        row + FP12_FORBENIUS_MAP_ROWS <= TOTAL_ROW,
        pow as int == frob_pow(k),
        pow <= 6,
        input_col + 144 <= TOTAL_COLUMNS,
        output_col + 144 <= TOTAL_COLUMNS,
        forall|x: Fp12Val, i: int|
            0 <= i < 144 ==> #[trigger] trace_cell(x, row as int, input_col + i)
                == fp12_limb(op_in1(x, k), i),
        forall|x: Fp12Val, i: int|
            0 <= i < 144 ==> #[trigger] trace_cell(x, row as int, output_col + i)
                == fp12_limb(op_out(x, k), i),
    ensures
        final(cs)@ == old(cs)@ + forbenius_cs(row as int, input_col as int, output_col as int, pow as int),
        final(cs)@.len() == old(cs)@.len() + 349,
        forall|j: int| 0 <= j < old(cs)@.len() ==> #[trigger] final(cs)@[j] == old(cs)@[j],
        forall|j: int|
            old(cs)@.len() <= j < final(cs)@.len() ==> c_ok(#[trigger] final(cs)@[j], num_rows),
{
    proof {
        assert(cs@ =~= old(cs)@ + exclusivity_cs(row as int, 0));
    }
    let mut i: usize = 0;
    while i < FP12_FORBENIUS_MAP_ROWS
        invariant
            row + FP12_FORBENIUS_MAP_ROWS <= TOTAL_ROW,
            i <= FP12_FORBENIUS_MAP_ROWS,
            cs@ == old(cs)@ + exclusivity_cs(row as int, i as int),
            cs@.len() == old(cs)@.len() + 5 * i,
            forall|j: int| 0 <= j < old(cs)@.len() ==> #[trigger] cs@[j] == old(cs)@[j],
            forall|j: int|
                old(cs)@.len() <= j < cs@.len() ==> c_ok(#[trigger] cs@[j], num_rows),
        decreases FP12_FORBENIUS_MAP_ROWS - i,
    {
        add_exclusivity_row(cs, row + i, Ghost(num_rows));
        proof {
            assert(cs@ =~= old(cs)@ + exclusivity_cs(row as int, i + 1));
        }
        i += 1;
    }
    add_copy_block(cs, row, input_col, FINAL_EXP_OP_OFFSET + OP_FROBENIUS_INPUT, Ghost(num_rows));
    proof {
        assert(is_op_start(row as int));
        lemma_gated_const_ok(
            row as int,
            (FINAL_EXP_OP_OFFSET + OP_FROBENIUS_POW) as int,
            pow as u64,
            num_rows,
        );
    }
    cs.push(
        Constraint::Gated {
            gate: FINAL_EXP_ROW_SELECTORS + row,
            a: FINAL_EXP_OP_OFFSET + OP_FROBENIUS_POW,
            val: pow as u64,
        },
    );
    add_copy_block(cs, row, output_col, FINAL_EXP_OP_OFFSET + OP_FROBENIUS_OUTPUT, Ghost(num_rows));
    proof {
        assert(cs@ =~= old(cs)@ + forbenius_cs(
            row as int,
            input_col as int,
            output_col as int,
            pow as int,
        ));
    }
}

/// Emit the glue constraints of a multiplication step: kind exclusivity
/// over its 12 rows, both input copies, and the output copy.
fn add_constraints_mul(
    cs: &mut Vec<Constraint>,
    row: usize,
    x_col: usize,
    y_col: usize,
    res_col: usize,
    Ghost(k): Ghost<int>,
    Ghost(num_rows): Ghost<int>,
)
    requires
        0 <= k < 32,
        op_kind(k) == OpKind::Mul,
        row as int == op_start(k),
        row_op(row as int) == k,
        row + FP12_MUL_ROWS <= TOTAL_ROW,
        x_col + 144 <= TOTAL_COLUMNS,
        y_col + 144 <= TOTAL_COLUMNS,
        res_col + 144 <= TOTAL_COLUMNS,
        forall|x: Fp12Val, i: int|
            0 <= i < 144 ==> #[trigger] trace_cell(x, row as int, x_col + i)
                == fp12_limb(op_in1(x, k), i),
        forall|x: Fp12Val, i: int|
            0 <= i < 144 ==> #[trigger] trace_cell(x, row as int, y_col + i)
                == fp12_limb(op_in2(x, k), i),
        forall|x: Fp12Val, i: int|
            0 <= i < 144 ==> #[trigger] trace_cell(x, row as int, res_col + i)
                == fp12_limb(op_out(x, k), i),
    ensures
        final(cs)@ == old(cs)@ + mul_cs(row as int, x_col as int, y_col as int, res_col as int),
        final(cs)@.len() == old(cs)@.len() + 492,
        forall|j: int| 0 <= j < old(cs)@.len() ==> #[trigger] final(cs)@[j] == old(cs)@[j],
        forall|j: int|
            old(cs)@.len() <= j < final(cs)@.len() ==> c_ok(#[trigger] final(cs)@[j], num_rows),
{
    proof {
        assert(cs@ =~= old(cs)@ + exclusivity_cs(row as int, 0));
    }
    let mut i: usize = 0;
    while i < FP12_MUL_ROWS
        invariant
            row + FP12_MUL_ROWS <= TOTAL_ROW,
            i <= FP12_MUL_ROWS,
            cs@ == old(cs)@ + exclusivity_cs(row as int, i as int),
            cs@.len() == old(cs)@.len() + 5 * i,
            forall|j: int| 0 <= j < old(cs)@.len() ==> #[trigger] cs@[j] == old(cs)@[j],
            forall|j: int|
                old(cs)@.len() <= j < cs@.len() ==> c_ok(#[trigger] cs@[j], num_rows),
        decreases FP12_MUL_ROWS - i,
    {
        add_exclusivity_row(cs, row + i, Ghost(num_rows));
        proof {
            assert(cs@ =~= old(cs)@ + exclusivity_cs(row as int, i + 1));
        }
        i += 1;
    }
    add_copy_block(cs, row, x_col, FINAL_EXP_OP_OFFSET + OP_MUL_X_INPUT, Ghost(num_rows));
    add_copy_block(cs, row, y_col, FINAL_EXP_OP_OFFSET + OP_MUL_Y_INPUT, Ghost(num_rows));
    add_copy_block(cs, row, res_col, FINAL_EXP_OP_OFFSET + OP_MUL_OUTPUT, Ghost(num_rows));
    proof {
        assert(cs@ =~= old(cs)@ + mul_cs(row as int, x_col as int, y_col as int, res_col as int));
    }
}

/// Emit the glue constraints of a cyclotomic-exponentiation step: kind
/// exclusivity over its 841 rows, the input copy at its first row, and the
/// output copy at its last row gated by the sub-operation's own result-row
/// selector.
fn add_constraints_cyc_exp(
    cs: &mut Vec<Constraint>,
    row: usize,
    input_col: usize,
    output_col: usize,
    Ghost(k): Ghost<int>,
    Ghost(num_rows): Ghost<int>,
)
    requires
        0 <= k < 32,
        op_kind(k) == OpKind::CycExp,
        row as int == op_start(k),
        row_op(row as int) == k,
        row_op(row as int + CYCLOTOMIC_EXP_ROWS - 1) == k,
        row + CYCLOTOMIC_EXP_ROWS <= TOTAL_ROW,
        input_col + 144 <= TOTAL_COLUMNS,
        output_col + 144 <= TOTAL_COLUMNS,
        forall|x: Fp12Val, i: int|
            0 <= i < 144 ==> #[trigger] trace_cell(x, row as int, input_col + i)
                == fp12_limb(op_in1(x, k), i),
        forall|x: Fp12Val, i: int|
            0 <= i < 144 ==> #[trigger] trace_cell(x, row as int + CYCLOTOMIC_EXP_ROWS - 1, output_col + i)
                == fp12_limb(op_out(x, k), i),
    ensures
        final(cs)@ == old(cs)@ + cyc_exp_cs(row as int, input_col as int, output_col as int),
        final(cs)@.len() == old(cs)@.len() + 4493,
        forall|j: int| 0 <= j < old(cs)@.len() ==> #[trigger] final(cs)@[j] == old(cs)@[j],
        forall|j: int|
            old(cs)@.len() <= j < final(cs)@.len() ==> c_ok(#[trigger] final(cs)@[j], num_rows),
{
    proof {
        assert(cs@ =~= old(cs)@ + exclusivity_cs(row as int, 0));
    }
    let mut i: usize = 0;
    while i < CYCLOTOMIC_EXP_ROWS
        invariant
            row + CYCLOTOMIC_EXP_ROWS <= TOTAL_ROW,
            i <= CYCLOTOMIC_EXP_ROWS,
            cs@ == old(cs)@ + exclusivity_cs(row as int, i as int),
            cs@.len() == old(cs)@.len() + 5 * i,
            forall|j: int| 0 <= j < old(cs)@.len() ==> #[trigger] cs@[j] == old(cs)@[j],
            forall|j: int|
                old(cs)@.len() <= j < cs@.len() ==> c_ok(#[trigger] cs@[j], num_rows),
        decreases CYCLOTOMIC_EXP_ROWS - i,
    {
        add_exclusivity_row(cs, row + i, Ghost(num_rows));
        proof {
            assert(cs@ =~= old(cs)@ + exclusivity_cs(row as int, i + 1));
        }
        i += 1;
    }
    add_copy_block(cs, row, input_col, FINAL_EXP_OP_OFFSET + OP_CYCLOTOMIC_EXP_INPUT, Ghost(num_rows));
    let last = row + CYCLOTOMIC_EXP_ROWS - 1;
    let g1 = FINAL_EXP_ROW_SELECTORS + last;
    let g2 = FINAL_EXP_OP_OFFSET + OP_CYCLOTOMIC_EXP_RES_ROW_SELECTOR;
    let ghost mid = cs@;
    proof {
        assert(cs@ =~= mid + cyc_exp_out_cs(last as int, output_col as int, 0));
    }
    let mut t: usize = 0;
    while t < 144
        invariant
            row as int == op_start(k),
            0 <= k < 32,
            op_kind(k) == OpKind::CycExp,
            row + CYCLOTOMIC_EXP_ROWS <= TOTAL_ROW,
            last == row + CYCLOTOMIC_EXP_ROWS - 1,
            g1 == FINAL_EXP_ROW_SELECTORS + last,
            g2 == FINAL_EXP_OP_OFFSET + OP_CYCLOTOMIC_EXP_RES_ROW_SELECTOR,
            output_col + 144 <= TOTAL_COLUMNS,
            forall|x: Fp12Val, i2: int|
                0 <= i2 < 144 ==> #[trigger] trace_cell(x, last as int, output_col + i2)
                    == fp12_limb(op_out(x, k), i2),
            t <= 144,
            cs@ == mid + cyc_exp_out_cs(last as int, output_col as int, t as int),
            cs@.len() == old(cs)@.len() + 4205 + 144 + t,
            forall|j: int| 0 <= j < old(cs)@.len() ==> #[trigger] cs@[j] == old(cs)@[j],
            forall|j: int|
                old(cs)@.len() <= j < cs@.len() ==> c_ok(#[trigger] cs@[j], num_rows),
        decreases 144 - t,
    {
        proof {
            assert(is_cyc_exp_last(last as int));
            assert(trace_cell(
                Fp12Val { c0: crate::tower::fp6_zero_val(), c1: crate::tower::fp6_zero_val() },
                last as int,
                g2 as int,
            ) == 1);
            assert forall|x: Fp12Val| #[trigger] trace_cell(x, last as int, g2 as int) == 0
                || trace_cell(x, last as int, output_col + t) == trace_cell(
                x,
                last as int,
                (FINAL_EXP_OP_OFFSET + OP_CYCLOTOMIC_EXP_Z + t) as int,
            ) by {
                assert(trace_cell(x, last as int, (FINAL_EXP_OP_OFFSET + OP_CYCLOTOMIC_EXP_Z + t) as int)
                    == fp12_limb(op_out(x, k), t as int));
            }
            lemma_copy2_ok(
                last as int,
                g2 as int,
                output_col + t,
                (FINAL_EXP_OP_OFFSET + OP_CYCLOTOMIC_EXP_Z + t) as int,
                num_rows,
            );
        }
        cs.push(
            Constraint::GatedCopy2 {
                g1,
                g2,
                a: output_col + t,
                b: FINAL_EXP_OP_OFFSET + OP_CYCLOTOMIC_EXP_Z + t,
            },
        );
        proof {
            assert(cs@ =~= mid + cyc_exp_out_cs(last as int, output_col as int, t + 1));
        }
        t += 1;
    }
    proof {
        assert(cs@ =~= old(cs)@ + cyc_exp_cs(row as int, input_col as int, output_col as int));
    }
}

/// Emit the glue constraints of a conjugation step: kind exclusivity on its
/// single row, the input copy, and the output copy.
pub fn add_constraints_conjugate(
    cs: &mut Vec<Constraint>,
    row: usize,
    input_col: usize,
    output_col: usize,
    Ghost(k): Ghost<int>,
    Ghost(num_rows): Ghost<int>,
)
    requires
        0 <= k < 32,
        op_kind(k) == OpKind::Conj,
        row as int == op_start(k),
        row_op(row as int) == k,
        row + CONJUGATE_ROWS <= TOTAL_ROW,
        input_col + 144 <= TOTAL_COLUMNS,
        output_col + 144 <= TOTAL_COLUMNS,
        forall|x: Fp12Val, i: int|
            0 <= i < 144 ==> #[trigger] trace_cell(x, row as int, input_col + i)
                == fp12_limb(op_in1(x, k), i),
        forall|x: Fp12Val, i: int|
            0 <= i < 144 ==> #[trigger] trace_cell(x, row as int, output_col + i)
                == fp12_limb(op_out(x, k), i),
    ensures
        final(cs)@ == old(cs)@ + conjugate_cs(row as int, input_col as int, output_col as int),
        final(cs)@.len() == old(cs)@.len() + 293,
        forall|j: int| 0 <= j < old(cs)@.len() ==> #[trigger] final(cs)@[j] == old(cs)@[j],
        forall|j: int|
            old(cs)@.len() <= j < final(cs)@.len() ==> c_ok(#[trigger] final(cs)@[j], num_rows),
{
    add_exclusivity_row(cs, row, Ghost(num_rows));
    add_copy_block(cs, row, input_col, FINAL_EXP_OP_OFFSET + OP_CONJUGATE_INPUT, Ghost(num_rows));
    add_copy_block(cs, row, output_col, FINAL_EXP_OP_OFFSET + OP_CONJUGATE_OUTPUT, Ghost(num_rows));
    proof {
        assert(exclusivity_cs(row as int, 0) =~= Seq::<Constraint>::empty());
        assert(exclusivity_cs(row as int, 1) =~= exclusivity_row_cs(row as int));
        assert(cs@ =~= old(cs)@ + conjugate_cs(row as int, input_col as int, output_col as int));
    }
}

/// Emit the glue constraints of a cyclotomic-squaring step: kind
/// exclusivity over its 12 rows, the input copy, and the output copy.
pub fn add_constraints_cyc_sq(
    cs: &mut Vec<Constraint>,
    row: usize,
    input_col: usize,
    output_col: usize,
    Ghost(k): Ghost<int>,
    Ghost(num_rows): Ghost<int>,
)
    requires
        0 <= k < 32,
        op_kind(k) == OpKind::CycSq,
        row as int == op_start(k),
        row_op(row as int) == k,
        row + CYCLOTOMIC_SQ_ROWS <= TOTAL_ROW,
        input_col + 144 <= TOTAL_COLUMNS,
        output_col + 144 <= TOTAL_COLUMNS,
        forall|x: Fp12Val, i: int|
            0 <= i < 144 ==> #[trigger] trace_cell(x, row as int, input_col + i)
                == fp12_limb(op_in1(x, k), i),
        forall|x: Fp12Val, i: int|
            0 <= i < 144 ==> #[trigger] trace_cell(x, row as int, output_col + i)
                == fp12_limb(op_out(x, k), i),
    ensures
        final(cs)@ == old(cs)@ + cyc_sq_cs(row as int, input_col as int, output_col as int),
        final(cs)@.len() == old(cs)@.len() + 348,
        forall|j: int| 0 <= j < old(cs)@.len() ==> #[trigger] final(cs)@[j] == old(cs)@[j],
        forall|j: int|
            old(cs)@.len() <= j < final(cs)@.len() ==> c_ok(#[trigger] final(cs)@[j], num_rows),
{
    proof {
        assert(cs@ =~= old(cs)@ + exclusivity_cs(row as int, 0));
    }
    let mut i: usize = 0;
    while i < CYCLOTOMIC_SQ_ROWS
        invariant
            row + CYCLOTOMIC_SQ_ROWS <= TOTAL_ROW,
            i <= CYCLOTOMIC_SQ_ROWS,
            cs@ == old(cs)@ + exclusivity_cs(row as int, i as int),
            cs@.len() == old(cs)@.len() + 5 * i,
            forall|j: int| 0 <= j < old(cs)@.len() ==> #[trigger] cs@[j] == old(cs)@[j],
            forall|j: int|
                old(cs)@.len() <= j < cs@.len() ==> c_ok(#[trigger] cs@[j], num_rows),
        decreases CYCLOTOMIC_SQ_ROWS - i,
    {
        add_exclusivity_row(cs, row + i, Ghost(num_rows));
        proof {
            assert(cs@ =~= old(cs)@ + exclusivity_cs(row as int, i + 1));
        }
        i += 1;
    }
    add_copy_block(cs, row, input_col, FINAL_EXP_OP_OFFSET + OP_CYCLOTOMIC_SQ_INPUT, Ghost(num_rows));
    add_copy_block(cs, row, output_col, FINAL_EXP_OP_OFFSET + OP_CYCLOTOMIC_SQ_OUTPUT, Ghost(num_rows));
    proof {
        assert(cs@ =~= old(cs)@ + cyc_sq_cs(row as int, input_col as int, output_col as int));
    }
}

/// The input register holds the input's limbs at every row.
proof fn lemma_input_block(rr: int)
    ensures
        forall|x: Fp12Val, i: int|
            0 <= i < 144 ==> #[trigger] trace_cell(x, rr, FINAL_EXP_INPUT_OFFSET + i)
                == fp12_limb(x, i),
{
}

/// Register block `T_j` holds the limbs of schedule value `j` at every row.
proof fn lemma_t_block(rr: int, j: int, col: int)
    requires
        0 <= j < 32,
        col == FINAL_EXP_T0_OFFSET + 144 * j,
    ensures
        forall|x: Fp12Val, i: int|
            0 <= i < 144 ==> #[trigger] trace_cell(x, rr, col + i) == fp12_limb(sched_val(x, j), i),
{
    assert forall|x: Fp12Val, i: int| 0 <= i < 144 implies #[trigger] trace_cell(x, rr, col + i)
        == fp12_limb(sched_val(x, j), i) by {
        lemma_t_reg_cell(x, rr, j, i);
    }
}

proof fn lemma_bind_input_ok(i: int, num_rows: int)
    requires
        0 <= i < 144,
    ensures
        c_ok(
            Constraint::Bind { col: (FINAL_EXP_INPUT_OFFSET + i) as usize, pi: i as usize },
            num_rows,
        ),
{
    let c = Constraint::Bind { col: (FINAL_EXP_INPUT_OFFSET + i) as usize, pi: i as usize };
    assert forall|x: Fp12Val, r: int| 0 <= r implies #[trigger] c_zero_at(c, x, r, num_rows) by {
        lemma_cell_small(x, r, FINAL_EXP_INPUT_OFFSET + i);
        lemma_gl_sub_self(trace_cell(x, r, FINAL_EXP_INPUT_OFFSET + i) as int);
    }
}

proof fn lemma_bind_output_ok(i: int, num_rows: int)
    requires
        0 <= i < 144,
    ensures
        c_ok(
            Constraint::Bind { col: (FINAL_EXP_T31_OFFSET + i) as usize, pi: (144 + i) as usize },
            num_rows,
        ),
{
    let c = Constraint::Bind { col: (FINAL_EXP_T31_OFFSET + i) as usize, pi: (144 + i) as usize };
    assert forall|x: Fp12Val, r: int| 0 <= r implies #[trigger] c_zero_at(c, x, r, num_rows) by {
        lemma_t31_is_final_exponentiation(x, r, i);
        lemma_cell_small(x, r, FINAL_EXP_T31_OFFSET + i);
        lemma_gl_sub_self(trace_cell(x, r, FINAL_EXP_T31_OFFSET + i) as int);
    }
}

proof fn lemma_first_ok(i: int, v: u64, num_rows: int)
    requires
        0 <= i < 8192,
        v == (if i == 0 {
            1u64
        } else {
            0u64
        }),
    ensures
        c_ok(Constraint::FirstRow { col: (FINAL_EXP_ROW_SELECTORS + i) as usize, val: v }, num_rows),
{
    let c = Constraint::FirstRow { col: (FINAL_EXP_ROW_SELECTORS + i) as usize, val: v };
    assert forall|x: Fp12Val, r: int| 0 <= r implies #[trigger] c_zero_at(c, x, r, num_rows) by {
        if r == 0 {
            lemma_gl_sub_self(v as int);
        }
    }
}

proof fn lemma_last_ok(i: int, v: u64, num_rows: int)
    requires
        0 <= i < 8192,
        v == (if i == num_rows - 1 {
            1u64
        } else {
            0u64
        }),
    ensures
        c_ok(Constraint::LastRow { col: (FINAL_EXP_ROW_SELECTORS + i) as usize, val: v }, num_rows),
{
    let c = Constraint::LastRow { col: (FINAL_EXP_ROW_SELECTORS + i) as usize, val: v };
    assert forall|x: Fp12Val, r: int| 0 <= r implies #[trigger] c_zero_at(c, x, r, num_rows) by {
        if r == num_rows - 1 {
            lemma_gl_sub_self(v as int);
        }
    }
}

proof fn lemma_shift_ok(i: int, num_rows: int)
    requires
        0 <= i,
        i + 1 < 8192,
    ensures
        c_ok(
            Constraint::Transition {
                a: (FINAL_EXP_ROW_SELECTORS + i) as usize,
                b: (FINAL_EXP_ROW_SELECTORS + i + 1) as usize,
            },
            num_rows,
        ),
{
    let c = Constraint::Transition {
        a: (FINAL_EXP_ROW_SELECTORS + i) as usize,
        b: (FINAL_EXP_ROW_SELECTORS + i + 1) as usize,
    };
    assert forall|x: Fp12Val, r: int| 0 <= r implies #[trigger] c_zero_at(c, x, r, num_rows) by {
        let v = trace_cell(x, r, FINAL_EXP_ROW_SELECTORS + i);
        assert(trace_cell(x, r + 1, FINAL_EXP_ROW_SELECTORS + i + 1) == v);
        lemma_gl_sub_self(v as int);
    }
}

proof fn lemma_inv_ok(col: int, num_rows: int)
    requires
        FINAL_EXP_INPUT_OFFSET <= col < FINAL_EXP_OP_OFFSET,
    ensures
        c_ok(Constraint::Transition { a: col as usize, b: col as usize }, num_rows),
{
    let c = Constraint::Transition { a: col as usize, b: col as usize };
    assert forall|x: Fp12Val, r: int| 0 <= r implies #[trigger] c_zero_at(c, x, r, num_rows) by {
        lemma_registers_row_invariant(x, r, r + 1, col);
        lemma_cell_small(x, r, col);
        lemma_gl_sub_self(trace_cell(x, r, col) as int);
    }
}

impl FinalExponentiateStark {
    /// The complete constraint set of the STARK: the public-input binding,
    /// the row-selector discipline (first row, shift, last row), the
    /// row-invariance of the input and result registers, and the glue
    /// constraints of all 32 schedule steps. Every constraint vanishes,
    /// where its class applies, on the trace generated from any input.
    #[verifier::rlimit(100)]
    pub fn constraints(&self) -> (cs: Vec<Constraint>)
        requires
            TOTAL_ROW <= self.num_rows <= 8192,
        ensures
            cs@ == stark_constraints_spec(self.num_rows as int),
            cs@.len() == 38193 + 3 * self.num_rows,
            forall|j: int|
                0 <= j < cs@.len() ==> c_ok(#[trigger] cs@[j], self.num_rows as int),
    {
        let num_rows = self.num_rows;
        let mut cs: Vec<Constraint> = Vec::new();
        // public-input binding
        proof {
            assert(cs@ =~= binds_cs(0));
        }
        let mut i: usize = 0;
        while i < 144
            invariant
                i <= 144,
                cs@ == binds_cs(i as int),
                cs@.len() == 2 * i,
                forall|j: int| 0 <= j < cs@.len() ==> c_ok(#[trigger] cs@[j], num_rows as int),
            decreases 144 - i,
        {
            proof {
                lemma_bind_input_ok(i as int, num_rows as int);
                lemma_bind_output_ok(i as int, num_rows as int);
            }
            cs.push(Constraint::Bind { col: FINAL_EXP_INPUT_OFFSET + i, pi: PIS_INPUT_OFFSET + i });
            cs.push(Constraint::Bind { col: FINAL_EXP_T31_OFFSET + i, pi: PIS_OUTPUT_OFFSET + i });
            proof {
                assert(cs@ =~= binds_cs(i + 1));
            }
            i += 1;
        }
        // row-selector discipline
        proof {
            assert(cs@ =~= binds_cs(144) + first_row_cs(0));
        }
        let mut i: usize = 0;
        while i < num_rows
            invariant
                num_rows <= 8192,
                i <= num_rows,
                cs@ == binds_cs(144) + first_row_cs(i as int),
                cs@.len() == 288 + i,
                forall|j: int| 0 <= j < cs@.len() ==> c_ok(#[trigger] cs@[j], num_rows as int),
            decreases num_rows - i,
        {
            let v: u64 = if i == 0 {
                1
            } else {
                0
            };
            proof {
                lemma_first_ok(i as int, v, num_rows as int);
            }
            cs.push(Constraint::FirstRow { col: FINAL_EXP_ROW_SELECTORS + i, val: v });
            proof {
                assert(cs@ =~= binds_cs(144) + first_row_cs(i + 1));
            }
            i += 1;
        }
        let ghost p1 = binds_cs(144) + first_row_cs(num_rows as int);
        proof {
            assert(cs@ =~= p1 + shift_cs(0));
        }
        let mut i: usize = 0;
        while i + 1 < num_rows
            invariant
                num_rows <= 8192,
                num_rows >= 1,
                i <= num_rows - 1,
                cs@ == p1 + shift_cs(i as int),
                cs@.len() == 288 + num_rows + i,
                forall|j: int| 0 <= j < cs@.len() ==> c_ok(#[trigger] cs@[j], num_rows as int),
            decreases num_rows - i,
        {
            proof {
                lemma_shift_ok(i as int, num_rows as int);
            }
            cs.push(
                Constraint::Transition {
                    a: FINAL_EXP_ROW_SELECTORS + i,
                    b: FINAL_EXP_ROW_SELECTORS + i + 1,
                },
            );
            proof {
                assert(cs@ =~= p1 + shift_cs(i + 1));
            }
            i += 1;
        }
        let ghost p2 = p1 + shift_cs(num_rows as int - 1);
        proof {
            assert(cs@ =~= p2 + last_row_cs(0, num_rows as int));
        }
        let mut i: usize = 0;
        while i < num_rows
            invariant
                num_rows <= 8192,
                num_rows >= 1,
                i <= num_rows,
                cs@ == p2 + last_row_cs(i as int, num_rows as int),
                cs@.len() == 288 + num_rows + (num_rows - 1) + i,
                forall|j: int| 0 <= j < cs@.len() ==> c_ok(#[trigger] cs@[j], num_rows as int),
            decreases num_rows - i,
        {
            let v: u64 = if i == num_rows - 1 {
                1
            } else {
                0
            };
            proof {
                lemma_last_ok(i as int, v, num_rows as int);
            }
            cs.push(Constraint::LastRow { col: FINAL_EXP_ROW_SELECTORS + i, val: v });
            proof {
                assert(cs@ =~= p2 + last_row_cs(i + 1, num_rows as int));
            }
            i += 1;
        }
        // row-invariance of the input and result registers
        let ghost p3 = p2 + last_row_cs(num_rows as int, num_rows as int);
        proof {
            assert(cs@ =~= p3 + invariance_cs(0));
        }
        let mut i: usize = 0;
        while i < 144
            invariant
                num_rows >= 1,
                i <= 144,
                cs@ == p3 + invariance_cs(i as int),
                cs@.len() == 288 + 3 * num_rows - 1 + 33 * i,
                forall|j: int| 0 <= j < cs@.len() ==> c_ok(#[trigger] cs@[j], num_rows as int),
            decreases 144 - i,
        {
            proof {
                lemma_inv_ok((FINAL_EXP_INPUT_OFFSET + i) as int, num_rows as int);
            }
            cs.push(
                Constraint::Transition {
                    a: FINAL_EXP_INPUT_OFFSET + i,
                    b: FINAL_EXP_INPUT_OFFSET + i,
                },
            );
            let ghost q = p3 + invariance_cs(i as int) + seq![
                Constraint::Transition {
                    a: (FINAL_EXP_INPUT_OFFSET + i) as usize,
                    b: (FINAL_EXP_INPUT_OFFSET + i) as usize,
                },
            ];
            proof {
                assert(cs@ =~= q + inv_reg_cs(i as int, 0));
            }
            let mut t: usize = 0;
            while t < 32
                invariant
                    num_rows >= 1,
                    i < 144,
                    t <= 32,
                    cs@ == q + inv_reg_cs(i as int, t as int),
                    cs@.len() == 288 + 3 * num_rows - 1 + 33 * i + 1 + t,
                    forall|j: int| 0 <= j < cs@.len() ==> c_ok(#[trigger] cs@[j], num_rows as int),
                decreases 32 - t,
            {
                proof {
                    lemma_inv_ok((FINAL_EXP_T0_OFFSET + 144 * t + i) as int, num_rows as int);
                }
                cs.push(
                    Constraint::Transition {
                        a: FINAL_EXP_T0_OFFSET + 144 * t + i,
                        b: FINAL_EXP_T0_OFFSET + 144 * t + i,
                    },
                );
                proof {
                    assert(cs@ =~= q + inv_reg_cs(i as int, t + 1));
                }
                t += 1;
            }
            proof {
                assert(cs@ =~= p3 + invariance_cs(i + 1));
            }
            i += 1;
        }
        // glue constraints of the 32 schedule steps
        proof {
            lemma_input_block(T0_ROW as int);
            lemma_t_block(T0_ROW as int, 0, FINAL_EXP_T0_OFFSET as int);
        }
        add_constraints_forbenius(&mut cs, T0_ROW, FINAL_EXP_INPUT_OFFSET, FINAL_EXP_T0_OFFSET, 6, Ghost(0), Ghost(num_rows as int));
        proof {
            lemma_t_block(T1_ROW as int, 1, FINAL_EXP_T1_OFFSET as int);
            lemma_input_block(T1_ROW as int);
            lemma_t_block(T1_ROW as int, 0, FINAL_EXP_T0_OFFSET as int);
        }
        add_constraints_mul(&mut cs, T1_ROW, FINAL_EXP_T1_OFFSET, FINAL_EXP_INPUT_OFFSET, FINAL_EXP_T0_OFFSET, Ghost(1), Ghost(num_rows as int));
        proof {
            lemma_t_block(T2_ROW as int, 1, FINAL_EXP_T1_OFFSET as int);
            lemma_t_block(T2_ROW as int, 2, FINAL_EXP_T2_OFFSET as int);
        }
        add_constraints_forbenius(&mut cs, T2_ROW, FINAL_EXP_T1_OFFSET, FINAL_EXP_T2_OFFSET, 2, Ghost(2), Ghost(num_rows as int));
        proof {
            lemma_t_block(T3_ROW as int, 2, FINAL_EXP_T2_OFFSET as int);
            lemma_t_block(T3_ROW as int, 1, FINAL_EXP_T1_OFFSET as int);
            lemma_t_block(T3_ROW as int, 3, FINAL_EXP_T3_OFFSET as int);
        }
        add_constraints_mul(&mut cs, T3_ROW, FINAL_EXP_T2_OFFSET, FINAL_EXP_T1_OFFSET, FINAL_EXP_T3_OFFSET, Ghost(3), Ghost(num_rows as int));
        proof {
            lemma_t_block(T4_ROW as int, 3, FINAL_EXP_T3_OFFSET as int);
            lemma_t_block(T4_ROW as int + CYCLOTOMIC_EXP_ROWS - 1, 4, FINAL_EXP_T4_OFFSET as int);
        }
        add_constraints_cyc_exp(&mut cs, T4_ROW, FINAL_EXP_T3_OFFSET, FINAL_EXP_T4_OFFSET, Ghost(4), Ghost(num_rows as int));
        proof {
            lemma_t_block(T5_ROW as int, 4, FINAL_EXP_T4_OFFSET as int);
            lemma_t_block(T5_ROW as int, 5, FINAL_EXP_T5_OFFSET as int);
        }
        add_constraints_conjugate(&mut cs, T5_ROW, FINAL_EXP_T4_OFFSET, FINAL_EXP_T5_OFFSET, Ghost(5), Ghost(num_rows as int));
        proof {
            lemma_t_block(T6_ROW as int, 3, FINAL_EXP_T3_OFFSET as int);
            lemma_t_block(T6_ROW as int, 6, FINAL_EXP_T6_OFFSET as int);
        }
        add_constraints_cyc_sq(&mut cs, T6_ROW, FINAL_EXP_T3_OFFSET, FINAL_EXP_T6_OFFSET, Ghost(6), Ghost(num_rows as int));
        proof {
            lemma_t_block(T7_ROW as int, 6, FINAL_EXP_T6_OFFSET as int);
            lemma_t_block(T7_ROW as int, 7, FINAL_EXP_T7_OFFSET as int);
        }
        add_constraints_conjugate(&mut cs, T7_ROW, FINAL_EXP_T6_OFFSET, FINAL_EXP_T7_OFFSET, Ghost(7), Ghost(num_rows as int));
        proof {
            lemma_t_block(T8_ROW as int, 7, FINAL_EXP_T7_OFFSET as int);
            lemma_t_block(T8_ROW as int, 5, FINAL_EXP_T5_OFFSET as int);
            lemma_t_block(T8_ROW as int, 8, FINAL_EXP_T8_OFFSET as int);
        }
        add_constraints_mul(&mut cs, T8_ROW, FINAL_EXP_T7_OFFSET, FINAL_EXP_T5_OFFSET, FINAL_EXP_T8_OFFSET, Ghost(8), Ghost(num_rows as int));
        proof {
            lemma_t_block(T9_ROW as int, 8, FINAL_EXP_T8_OFFSET as int);
            lemma_t_block(T9_ROW as int + CYCLOTOMIC_EXP_ROWS - 1, 9, FINAL_EXP_T9_OFFSET as int);
        }
        add_constraints_cyc_exp(&mut cs, T9_ROW, FINAL_EXP_T8_OFFSET, FINAL_EXP_T9_OFFSET, Ghost(9), Ghost(num_rows as int));
        proof {
            lemma_t_block(T10_ROW as int, 9, FINAL_EXP_T9_OFFSET as int);
            lemma_t_block(T10_ROW as int, 10, FINAL_EXP_T10_OFFSET as int);
        }
        add_constraints_conjugate(&mut cs, T10_ROW, FINAL_EXP_T9_OFFSET, FINAL_EXP_T10_OFFSET, Ghost(10), Ghost(num_rows as int));
        proof {
            lemma_t_block(T11_ROW as int, 10, FINAL_EXP_T10_OFFSET as int);
            lemma_t_block(T11_ROW as int + CYCLOTOMIC_EXP_ROWS - 1, 11, FINAL_EXP_T11_OFFSET as int);
        }
        add_constraints_cyc_exp(&mut cs, T11_ROW, FINAL_EXP_T10_OFFSET, FINAL_EXP_T11_OFFSET, Ghost(11), Ghost(num_rows as int));
        proof {
            lemma_t_block(T12_ROW as int, 11, FINAL_EXP_T11_OFFSET as int);
            lemma_t_block(T12_ROW as int, 12, FINAL_EXP_T12_OFFSET as int);
        }
        add_constraints_conjugate(&mut cs, T12_ROW, FINAL_EXP_T11_OFFSET, FINAL_EXP_T12_OFFSET, Ghost(12), Ghost(num_rows as int));
        proof {
            lemma_t_block(T13_ROW as int, 12, FINAL_EXP_T12_OFFSET as int);
            lemma_t_block(T13_ROW as int + CYCLOTOMIC_EXP_ROWS - 1, 13, FINAL_EXP_T13_OFFSET as int);
        }
        add_constraints_cyc_exp(&mut cs, T13_ROW, FINAL_EXP_T12_OFFSET, FINAL_EXP_T13_OFFSET, Ghost(13), Ghost(num_rows as int));
        proof {
            lemma_t_block(T14_ROW as int, 13, FINAL_EXP_T13_OFFSET as int);
            lemma_t_block(T14_ROW as int, 14, FINAL_EXP_T14_OFFSET as int);
        }
        add_constraints_conjugate(&mut cs, T14_ROW, FINAL_EXP_T13_OFFSET, FINAL_EXP_T14_OFFSET, Ghost(14), Ghost(num_rows as int));
        proof {
            lemma_t_block(T15_ROW as int, 5, FINAL_EXP_T5_OFFSET as int);
            lemma_t_block(T15_ROW as int, 15, FINAL_EXP_T15_OFFSET as int);
        }
        add_constraints_cyc_sq(&mut cs, T15_ROW, FINAL_EXP_T5_OFFSET, FINAL_EXP_T15_OFFSET, Ghost(15), Ghost(num_rows as int));
        proof {
            lemma_t_block(T16_ROW as int, 14, FINAL_EXP_T14_OFFSET as int);
            lemma_t_block(T16_ROW as int, 15, FINAL_EXP_T15_OFFSET as int);
            lemma_t_block(T16_ROW as int, 16, FINAL_EXP_T16_OFFSET as int);
        }
        add_constraints_mul(&mut cs, T16_ROW, FINAL_EXP_T14_OFFSET, FINAL_EXP_T15_OFFSET, FINAL_EXP_T16_OFFSET, Ghost(16), Ghost(num_rows as int));
        proof {
            lemma_t_block(T17_ROW as int, 16, FINAL_EXP_T16_OFFSET as int);
            lemma_t_block(T17_ROW as int + CYCLOTOMIC_EXP_ROWS - 1, 17, FINAL_EXP_T17_OFFSET as int);
        }
        add_constraints_cyc_exp(&mut cs, T17_ROW, FINAL_EXP_T16_OFFSET, FINAL_EXP_T17_OFFSET, Ghost(17), Ghost(num_rows as int));
        proof {
            lemma_t_block(T18_ROW as int, 17, FINAL_EXP_T17_OFFSET as int);
            lemma_t_block(T18_ROW as int, 18, FINAL_EXP_T18_OFFSET as int);
        }
        add_constraints_conjugate(&mut cs, T18_ROW, FINAL_EXP_T17_OFFSET, FINAL_EXP_T18_OFFSET, Ghost(18), Ghost(num_rows as int));
        proof {
            lemma_t_block(T19_ROW as int, 5, FINAL_EXP_T5_OFFSET as int);
            lemma_t_block(T19_ROW as int, 12, FINAL_EXP_T12_OFFSET as int);
            lemma_t_block(T19_ROW as int, 19, FINAL_EXP_T19_OFFSET as int);
        }
        add_constraints_mul(&mut cs, T19_ROW, FINAL_EXP_T5_OFFSET, FINAL_EXP_T12_OFFSET, FINAL_EXP_T19_OFFSET, Ghost(19), Ghost(num_rows as int));
        proof {
            lemma_t_block(T20_ROW as int, 19, FINAL_EXP_T19_OFFSET as int);
            lemma_t_block(T20_ROW as int, 20, FINAL_EXP_T20_OFFSET as int);
        }
        add_constraints_forbenius(&mut cs, T20_ROW, FINAL_EXP_T19_OFFSET, FINAL_EXP_T20_OFFSET, 2, Ghost(20), Ghost(num_rows as int));
        proof {
            lemma_t_block(T21_ROW as int, 10, FINAL_EXP_T10_OFFSET as int);
            lemma_t_block(T21_ROW as int, 3, FINAL_EXP_T3_OFFSET as int);
            lemma_t_block(T21_ROW as int, 21, FINAL_EXP_T21_OFFSET as int);
        }
        add_constraints_mul(&mut cs, T21_ROW, FINAL_EXP_T10_OFFSET, FINAL_EXP_T3_OFFSET, FINAL_EXP_T21_OFFSET, Ghost(21), Ghost(num_rows as int));
        proof {
            lemma_t_block(T22_ROW as int, 21, FINAL_EXP_T21_OFFSET as int);
            lemma_t_block(T22_ROW as int, 22, FINAL_EXP_T22_OFFSET as int);
        }
        add_constraints_forbenius(&mut cs, T22_ROW, FINAL_EXP_T21_OFFSET, FINAL_EXP_T22_OFFSET, 3, Ghost(22), Ghost(num_rows as int));
        proof {
            lemma_t_block(T23_ROW as int, 3, FINAL_EXP_T3_OFFSET as int);
            lemma_t_block(T23_ROW as int, 23, FINAL_EXP_T23_OFFSET as int);
        }
        add_constraints_conjugate(&mut cs, T23_ROW, FINAL_EXP_T3_OFFSET, FINAL_EXP_T23_OFFSET, Ghost(23), Ghost(num_rows as int));
        proof {
            lemma_t_block(T24_ROW as int, 16, FINAL_EXP_T16_OFFSET as int);
            lemma_t_block(T24_ROW as int, 23, FINAL_EXP_T23_OFFSET as int);
            lemma_t_block(T24_ROW as int, 24, FINAL_EXP_T24_OFFSET as int);
        }
        add_constraints_mul(&mut cs, T24_ROW, FINAL_EXP_T16_OFFSET, FINAL_EXP_T23_OFFSET, FINAL_EXP_T24_OFFSET, Ghost(24), Ghost(num_rows as int));
        proof {
            lemma_t_block(T25_ROW as int, 24, FINAL_EXP_T24_OFFSET as int);
            lemma_t_block(T25_ROW as int, 25, FINAL_EXP_T25_OFFSET as int);
        }
        add_constraints_forbenius(&mut cs, T25_ROW, FINAL_EXP_T24_OFFSET, FINAL_EXP_T25_OFFSET, 1, Ghost(25), Ghost(num_rows as int));
        proof {
            lemma_t_block(T26_ROW as int, 8, FINAL_EXP_T8_OFFSET as int);
            lemma_t_block(T26_ROW as int, 26, FINAL_EXP_T26_OFFSET as int);
        }
        add_constraints_conjugate(&mut cs, T26_ROW, FINAL_EXP_T8_OFFSET, FINAL_EXP_T26_OFFSET, Ghost(26), Ghost(num_rows as int));
        proof {
            lemma_t_block(T27_ROW as int, 18, FINAL_EXP_T18_OFFSET as int);
            lemma_t_block(T27_ROW as int, 26, FINAL_EXP_T26_OFFSET as int);
            lemma_t_block(T27_ROW as int, 27, FINAL_EXP_T27_OFFSET as int);
        }
        add_constraints_mul(&mut cs, T27_ROW, FINAL_EXP_T18_OFFSET, FINAL_EXP_T26_OFFSET, FINAL_EXP_T27_OFFSET, Ghost(27), Ghost(num_rows as int));
        proof {
            lemma_t_block(T28_ROW as int, 27, FINAL_EXP_T27_OFFSET as int);
            lemma_t_block(T28_ROW as int, 3, FINAL_EXP_T3_OFFSET as int);
            lemma_t_block(T28_ROW as int, 28, FINAL_EXP_T28_OFFSET as int);
        }
        add_constraints_mul(&mut cs, T28_ROW, FINAL_EXP_T27_OFFSET, FINAL_EXP_T3_OFFSET, FINAL_EXP_T28_OFFSET, Ghost(28), Ghost(num_rows as int));
        proof {
            lemma_t_block(T29_ROW as int, 20, FINAL_EXP_T20_OFFSET as int);
            lemma_t_block(T29_ROW as int, 22, FINAL_EXP_T22_OFFSET as int);
            lemma_t_block(T29_ROW as int, 29, FINAL_EXP_T29_OFFSET as int);
        }
        add_constraints_mul(&mut cs, T29_ROW, FINAL_EXP_T20_OFFSET, FINAL_EXP_T22_OFFSET, FINAL_EXP_T29_OFFSET, Ghost(29), Ghost(num_rows as int));
        proof {
            lemma_t_block(T30_ROW as int, 29, FINAL_EXP_T29_OFFSET as int);
            lemma_t_block(T30_ROW as int, 25, FINAL_EXP_T25_OFFSET as int);
            lemma_t_block(T30_ROW as int, 30, FINAL_EXP_T30_OFFSET as int);
        }
        add_constraints_mul(&mut cs, T30_ROW, FINAL_EXP_T29_OFFSET, FINAL_EXP_T25_OFFSET, FINAL_EXP_T30_OFFSET, Ghost(30), Ghost(num_rows as int));
        proof {
            lemma_t_block(T31_ROW as int, 30, FINAL_EXP_T30_OFFSET as int);
            lemma_t_block(T31_ROW as int, 28, FINAL_EXP_T28_OFFSET as int);
            lemma_t_block(T31_ROW as int, 31, FINAL_EXP_T31_OFFSET as int);
        }
        add_constraints_mul(&mut cs, T31_ROW, FINAL_EXP_T30_OFFSET, FINAL_EXP_T28_OFFSET, FINAL_EXP_T31_OFFSET, Ghost(31), Ghost(num_rows as int));
        proof {
            assert(cs@ == stark_constraints_spec(num_rows as int));
        }
        cs
    }
}

/// Every trace the builder generates satisfies every constraint the STARK
/// emits: rows that match `trace_cell`, public inputs that match
/// `pis_spec`, and a constraint list in which each entry vanishes where its
/// class applies, together verify.
pub proof fn lemma_generated_trace_satisfies_constraints(
    x: Fp12Val,
    cs: Seq<Constraint>,
    tr: Seq<Seq<u64>>,
    pis: Seq<u64>,
    num_rows: int,
)
    requires
        1 <= num_rows,
        tr.len() == num_rows,
        forall|r: int| 0 <= r < num_rows ==> #[trigger] tr[r] == trace_row(x, r),
        pis == pis_spec(x),
        forall|j: int| 0 <= j < cs.len() ==> c_ok(#[trigger] cs[j], num_rows),
    ensures
        trace_ok(cs, tr, pis),
{
    assert forall|rr: int, j: int| #![trigger cs[j], tr[rr]]
        0 <= rr < tr.len() && 0 <= j < cs.len() implies (applies(
        cs[j],
        rr == 0,
        rr == tr.len() - 1,
        rr + 1 < tr.len(),
    ) ==> eval_spec(
        cs[j],
        tr[rr],
        tr[if rr + 1 < tr.len() {
            rr + 1
        } else {
            rr
        }],
        pis,
    ) == 0) by {
        let c = cs[j];
        assert(c_zero_at(c, x, rr, num_rows));
        let l = trace_row(x, rr);
        let n1 = trace_row(x, rr + 1);
        if rr + 1 < tr.len() {
            assert(tr[rr + 1] == n1);
        } else {
            match c {
                Constraint::Transition { a, b } => {},
                _ => {
                    assert(eval_spec(c, l, tr[rr], pis) == eval_spec(c, l, n1, pis));
                },
            }
        }
    }
}

/// Containment is preserved by concatenation.
proof fn lemma_seq_add_contains(a: Seq<Constraint>, b: Seq<Constraint>, c: Constraint)
    requires
        a.contains(c) || b.contains(c),
    ensures
        (a + b).contains(c),
{
    if a.contains(c) {
        let k = choose|k: int| 0 <= k < a.len() && a[k] == c;
        assert((a + b)[k] == c);
    } else {
        let k = choose|k: int| 0 <= k < b.len() && b[k] == c;
        assert((a + b)[a.len() + k] == c);
    }
}

proof fn lemma_binds_cs_contains(n: int, i: int)
    requires
        0 <= i < n,
    ensures
        binds_cs(n).contains(
            Constraint::Bind {
                col: (FINAL_EXP_INPUT_OFFSET + i) as usize,
                pi: (PIS_INPUT_OFFSET + i) as usize,
            },
        ),
        binds_cs(n).contains(
            Constraint::Bind {
                col: (FINAL_EXP_T31_OFFSET + i) as usize,
                pi: (PIS_OUTPUT_OFFSET + i) as usize,
            },
        ),
    decreases n,
{
    let b1 = Constraint::Bind {
        col: (FINAL_EXP_INPUT_OFFSET + i) as usize,
        pi: (PIS_INPUT_OFFSET + i) as usize,
    };
    let b2 = Constraint::Bind {
        col: (FINAL_EXP_T31_OFFSET + i) as usize,
        pi: (PIS_OUTPUT_OFFSET + i) as usize,
    };
    if i == n - 1 {
        assert(binds_cs(n)[binds_cs(n).len() - 2] == b1);
        assert(binds_cs(n)[binds_cs(n).len() - 1] == b2);
    } else {
        lemma_binds_cs_contains(n - 1, i);
        lemma_seq_add_contains(
            binds_cs(n - 1),
            seq![
                Constraint::Bind {
                    col: (FINAL_EXP_INPUT_OFFSET + n - 1) as usize,
                    pi: (PIS_INPUT_OFFSET + n - 1) as usize,
                },
                Constraint::Bind {
                    col: (FINAL_EXP_T31_OFFSET + n - 1) as usize,
                    pi: (PIS_OUTPUT_OFFSET + n - 1) as usize,
                },
            ],
            b1,
        );
        lemma_seq_add_contains(
            binds_cs(n - 1),
            seq![
                Constraint::Bind {
                    col: (FINAL_EXP_INPUT_OFFSET + n - 1) as usize,
                    pi: (PIS_INPUT_OFFSET + n - 1) as usize,
                },
                Constraint::Bind {
                    col: (FINAL_EXP_T31_OFFSET + n - 1) as usize,
                    pi: (PIS_OUTPUT_OFFSET + n - 1) as usize,
                },
            ],
            b2,
        );
    }
}

proof fn lemma_inv_reg_cs_contains(i: int, t: int, k: int)
    requires
        0 <= k < t,
    ensures
        inv_reg_cs(i, t).contains(
            Constraint::Transition {
                a: (FINAL_EXP_T0_OFFSET + 144 * k + i) as usize,
                b: (FINAL_EXP_T0_OFFSET + 144 * k + i) as usize,
            },
        ),
    decreases t,
{
    let c = Constraint::Transition {
        a: (FINAL_EXP_T0_OFFSET + 144 * k + i) as usize,
        b: (FINAL_EXP_T0_OFFSET + 144 * k + i) as usize,
    };
    if k == t - 1 {
        assert(inv_reg_cs(i, t)[inv_reg_cs(i, t).len() - 1] == c);
    } else {
        lemma_inv_reg_cs_contains(i, t - 1, k);
        let w = choose|w: int|
            0 <= w < inv_reg_cs(i, t - 1).len() && #[trigger] inv_reg_cs(i, t - 1)[w] == c;
        assert(inv_reg_cs(i, t)[w] == c);
    }
}

proof fn lemma_invariance_cs_contains(n: int, i: int, reg: int)
    requires
        0 <= i < n,
        0 <= reg < 32,
    ensures
        invariance_cs(n).contains(
            Constraint::Transition {
                a: (FINAL_EXP_INPUT_OFFSET + i) as usize,
                b: (FINAL_EXP_INPUT_OFFSET + i) as usize,
            },
        ),
        invariance_cs(n).contains(
            Constraint::Transition {
                a: (FINAL_EXP_T0_OFFSET + 144 * reg + i) as usize,
                b: (FINAL_EXP_T0_OFFSET + 144 * reg + i) as usize,
            },
        ),
    decreases n,
{
    let c1 = Constraint::Transition {
        a: (FINAL_EXP_INPUT_OFFSET + i) as usize,
        b: (FINAL_EXP_INPUT_OFFSET + i) as usize,
    };
    let c2 = Constraint::Transition {
        a: (FINAL_EXP_T0_OFFSET + 144 * reg + i) as usize,
        b: (FINAL_EXP_T0_OFFSET + 144 * reg + i) as usize,
    };
    let step = seq![
        Constraint::Transition {
            a: (FINAL_EXP_INPUT_OFFSET + n - 1) as usize,
            b: (FINAL_EXP_INPUT_OFFSET + n - 1) as usize,
        },
    ];
    if i == n - 1 {
        assert(step.contains(c1)) by {
            assert(step[0] == c1);
        }
        lemma_seq_add_contains(invariance_cs(n - 1), step, c1);
        lemma_seq_add_contains(invariance_cs(n - 1) + step, inv_reg_cs(n - 1, 32), c1);
        lemma_inv_reg_cs_contains(n - 1, 32, reg);
        lemma_seq_add_contains(invariance_cs(n - 1) + step, inv_reg_cs(n - 1, 32), c2);
    } else {
        lemma_invariance_cs_contains(n - 1, i, reg);
        lemma_seq_add_contains(invariance_cs(n - 1), step, c1);
        lemma_seq_add_contains(invariance_cs(n - 1) + step, inv_reg_cs(n - 1, 32), c1);
        lemma_seq_add_contains(invariance_cs(n - 1), step, c2);
        lemma_seq_add_contains(invariance_cs(n - 1) + step, inv_reg_cs(n - 1, 32), c2);
    }
}

proof fn lemma_exclusivity_cs_contains(row: int, nrows: int, rr: int, c: Constraint)
    requires
        row <= rr < row + nrows,
        exclusivity_row_cs(rr).contains(c),
    ensures
        exclusivity_cs(row, nrows).contains(c),
    decreases nrows,
{
    if rr == row + nrows - 1 {
        lemma_seq_add_contains(exclusivity_cs(row, nrows - 1), exclusivity_row_cs(rr), c);
    } else {
        lemma_exclusivity_cs_contains(row, nrows - 1, rr, c);
        lemma_seq_add_contains(
            exclusivity_cs(row, nrows - 1),
            exclusivity_row_cs(row + nrows - 1),
            c,
        );
    }
}

/// The public-input binding constraints of limb `i` are among the emitted
/// constraints: `INPUT[i] - PIS_INPUT[i]` and `T31[i] - PIS_OUTPUT[i]`.
#[verifier::rlimit(100)]
pub proof fn lemma_binding_constraints_emitted(num_rows: int, i: int)
    requires
        0 <= i < 144,
    ensures
        stark_constraints_spec(num_rows).contains(
            Constraint::Bind {
                col: (FINAL_EXP_INPUT_OFFSET + i) as usize,
                pi: (PIS_INPUT_OFFSET + i) as usize,
            },
        ),
        stark_constraints_spec(num_rows).contains(
            Constraint::Bind {
                col: (FINAL_EXP_T31_OFFSET + i) as usize,
                pi: (PIS_OUTPUT_OFFSET + i) as usize,
            },
        ),
{
    let c1 = Constraint::Bind {
        col: (FINAL_EXP_INPUT_OFFSET + i) as usize,
        pi: (PIS_INPUT_OFFSET + i) as usize,
    };
    let c2 = Constraint::Bind {
        col: (FINAL_EXP_T31_OFFSET + i) as usize,
        pi: (PIS_OUTPUT_OFFSET + i) as usize,
    };
    lemma_binds_cs_contains(144, i);
    assert forall|c: Constraint| c == c1 || c == c2 implies #[trigger] stark_constraints_spec(
        num_rows,
    ).contains(c) by {
        lemma_seq_add_contains(binds_cs(144), first_row_cs(num_rows), c);
        lemma_seq_add_contains(binds_cs(144) + first_row_cs(num_rows), shift_cs(num_rows - 1), c);
        lemma_seq_add_contains(binds_cs(144) + first_row_cs(num_rows) + shift_cs(num_rows - 1), last_row_cs( num_rows, num_rows, ), c);
        lemma_seq_add_contains(binds_cs(144) + first_row_cs(num_rows) + shift_cs(num_rows - 1) + last_row_cs( num_rows, num_rows, ), invariance_cs(144), c);
        lemma_seq_add_contains(binds_cs(144) + first_row_cs(num_rows) + shift_cs(num_rows - 1) + last_row_cs( num_rows, num_rows, ) + invariance_cs(144), forbenius_cs(T0_ROW as int, FINAL_EXP_INPUT_OFFSET as int, FINAL_EXP_T0_OFFSET as int, 6), c);
        lemma_seq_add_contains(binds_cs(144) + first_row_cs(num_rows) + shift_cs(num_rows - 1) + last_row_cs( num_rows, num_rows, ) + invariance_cs(144) + forbenius_cs(T0_ROW as int, FINAL_EXP_INPUT_OFFSET as int, FINAL_EXP_T0_OFFSET as int, 6), mul_cs(T1_ROW as int, FINAL_EXP_T1_OFFSET as int, FINAL_EXP_INPUT_OFFSET as int, FINAL_EXP_T0_OFFSET as int), c);
        lemma_seq_add_contains(binds_cs(144) + first_row_cs(num_rows) + shift_cs(num_rows - 1) + last_row_cs( num_rows, num_rows, ) + invariance_cs(144) + forbenius_cs(T0_ROW as int, FINAL_EXP_INPUT_OFFSET as int, FINAL_EXP_T0_OFFSET as int, 6) + mul_cs(T1_ROW as int, FINAL_EXP_T1_OFFSET as int, FINAL_EXP_INPUT_OFFSET as int, FINAL_EXP_T0_OFFSET as int), forbenius_cs(T2_ROW as int, FINAL_EXP_T1_OFFSET as int, FINAL_EXP_T2_OFFSET as int, 2), c);
        lemma_seq_add_contains(binds_cs(144) + first_row_cs(num_rows) + shift_cs(num_rows - 1) + last_row_cs( num_rows, num_rows, ) + invariance_cs(144) + forbenius_cs(T0_ROW as int, FINAL_EXP_INPUT_OFFSET as int, FINAL_EXP_T0_OFFSET as int, 6) + mul_cs(T1_ROW as int, FINAL_EXP_T1_OFFSET as int, FINAL_EXP_INPUT_OFFSET as int, FINAL_EXP_T0_OFFSET as int) + forbenius_cs(T2_ROW as int, FINAL_EXP_T1_OFFSET as int, FINAL_EXP_T2_OFFSET as int, 2), mul_cs(T3_ROW as int, FINAL_EXP_T2_OFFSET as int, FINAL_EXP_T1_OFFSET as int, FINAL_EXP_T3_OFFSET as int), c);
        lemma_seq_add_contains(binds_cs(144) + first_row_cs(num_rows) + shift_cs(num_rows - 1) + last_row_cs( num_rows, num_rows, ) + invariance_cs(144) + forbenius_cs(T0_ROW as int, FINAL_EXP_INPUT_OFFSET as int, FINAL_EXP_T0_OFFSET as int, 6) + mul_cs(T1_ROW as int, FINAL_EXP_T1_OFFSET as int, FINAL_EXP_INPUT_OFFSET as int, FINAL_EXP_T0_OFFSET as int) + forbenius_cs(T2_ROW as int, FINAL_EXP_T1_OFFSET as int, FINAL_EXP_T2_OFFSET as int, 2) + mul_cs(T3_ROW as int, FINAL_EXP_T2_OFFSET as int, FINAL_EXP_T1_OFFSET as int, FINAL_EXP_T3_OFFSET as int), cyc_exp_cs(T4_ROW as int, FINAL_EXP_T3_OFFSET as int, FINAL_EXP_T4_OFFSET as int), c);
        lemma_seq_add_contains(binds_cs(144) + first_row_cs(num_rows) + shift_cs(num_rows - 1) + last_row_cs( num_rows, num_rows, ) + invariance_cs(144) + forbenius_cs(T0_ROW as int, FINAL_EXP_INPUT_OFFSET as int, FINAL_EXP_T0_OFFSET as int, 6) + mul_cs(T1_ROW as int, FINAL_EXP_T1_OFFSET as int, FINAL_EXP_INPUT_OFFSET as int, FINAL_EXP_T0_OFFSET as int) + forbenius_cs(T2_ROW as int, FINAL_EXP_T1_OFFSET as int, FINAL_EXP_T2_OFFSET as int, 2) + mul_cs(T3_ROW as int, FINAL_EXP_T2_OFFSET as int, FINAL_EXP_T1_OFFSET as int, FINAL_EXP_T3_OFFSET as int) + cyc_exp_cs(T4_ROW as int, FINAL_EXP_T3_OFFSET as int, FINAL_EXP_T4_OFFSET as int), conjugate_cs(T5_ROW as int, FINAL_EXP_T4_OFFSET as int, FINAL_EXP_T5_OFFSET as int), c);
        lemma_seq_add_contains(binds_cs(144) + first_row_cs(num_rows) + shift_cs(num_rows - 1) + last_row_cs( num_rows, num_rows, ) + invariance_cs(144) + forbenius_cs(T0_ROW as int, FINAL_EXP_INPUT_OFFSET as int, FINAL_EXP_T0_OFFSET as int, 6) + mul_cs(T1_ROW as int, FINAL_EXP_T1_OFFSET as int, FINAL_EXP_INPUT_OFFSET as int, FINAL_EXP_T0_OFFSET as int) + forbenius_cs(T2_ROW as int, FINAL_EXP_T1_OFFSET as int, FINAL_EXP_T2_OFFSET as int, 2) + mul_cs(T3_ROW as int, FINAL_EXP_T2_OFFSET as int, FINAL_EXP_T1_OFFSET as int, FINAL_EXP_T3_OFFSET as int) + cyc_exp_cs(T4_ROW as int, FINAL_EXP_T3_OFFSET as int, FINAL_EXP_T4_OFFSET as int) + conjugate_cs(T5_ROW as int, FINAL_EXP_T4_OFFSET as int, FINAL_EXP_T5_OFFSET as int), cyc_sq_cs(T6_ROW as int, FINAL_EXP_T3_OFFSET as int, FINAL_EXP_T6_OFFSET as int), c);
        lemma_seq_add_contains(binds_cs(144) + first_row_cs(num_rows) + shift_cs(num_rows - 1) + last_row_cs( num_rows, num_rows, ) + invariance_cs(144) + forbenius_cs(T0_ROW as int, FINAL_EXP_INPUT_OFFSET as int, FINAL_EXP_T0_OFFSET as int, 6) + mul_cs(T1_ROW as int, FINAL_EXP_T1_OFFSET as int, FINAL_EXP_INPUT_OFFSET as int, FINAL_EXP_T0_OFFSET as int) + forbenius_cs(T2_ROW as int, FINAL_EXP_T1_OFFSET as int, FINAL_EXP_T2_OFFSET as int, 2) + mul_cs(T3_ROW as int, FINAL_EXP_T2_OFFSET as int, FINAL_EXP_T1_OFFSET as int, FINAL_EXP_T3_OFFSET as int) + cyc_exp_cs(T4_ROW as int, FINAL_EXP_T3_OFFSET as int, FINAL_EXP_T4_OFFSET as int) + conjugate_cs(T5_ROW as int, FINAL_EXP_T4_OFFSET as int, FINAL_EXP_T5_OFFSET as int) + cyc_sq_cs(T6_ROW as int, FINAL_EXP_T3_OFFSET as int, FINAL_EXP_T6_OFFSET as int), conjugate_cs(T7_ROW as int, FINAL_EXP_T6_OFFSET as int, FINAL_EXP_T7_OFFSET as int), c);
        lemma_seq_add_contains(binds_cs(144) + first_row_cs(num_rows) + shift_cs(num_rows - 1) + last_row_cs( num_rows, num_rows, ) + invariance_cs(144) + forbenius_cs(T0_ROW as int, FINAL_EXP_INPUT_OFFSET as int, FINAL_EXP_T0_OFFSET as int, 6) + mul_cs(T1_ROW as int, FINAL_EXP_T1_OFFSET as int, FINAL_EXP_INPUT_OFFSET as int, FINAL_EXP_T0_OFFSET as int) + forbenius_cs(T2_ROW as int, FINAL_EXP_T1_OFFSET as int, FINAL_EXP_T2_OFFSET as int, 2) + mul_cs(T3_ROW as int, FINAL_EXP_T2_OFFSET as int, FINAL_EXP_T1_OFFSET as int, FINAL_EXP_T3_OFFSET as int) + cyc_exp_cs(T4_ROW as int, FINAL_EXP_T3_OFFSET as int, FINAL_EXP_T4_OFFSET as int) + conjugate_cs(T5_ROW as int, FINAL_EXP_T4_OFFSET as int, FINAL_EXP_T5_OFFSET as int) + cyc_sq_cs(T6_ROW as int, FINAL_EXP_T3_OFFSET as int, FINAL_EXP_T6_OFFSET as int) + conjugate_cs(T7_ROW as int, FINAL_EXP_T6_OFFSET as int, FINAL_EXP_T7_OFFSET as int), mul_cs(T8_ROW as int, FINAL_EXP_T7_OFFSET as int, FINAL_EXP_T5_OFFSET as int, FINAL_EXP_T8_OFFSET as int), c);
        lemma_seq_add_contains(binds_cs(144) + first_row_cs(num_rows) + shift_cs(num_rows - 1) + last_row_cs( num_rows, num_rows, ) + invariance_cs(144) + forbenius_cs(T0_ROW as int, FINAL_EXP_INPUT_OFFSET as int, FINAL_EXP_T0_OFFSET as int, 6) + mul_cs(T1_ROW as int, FINAL_EXP_T1_OFFSET as int, FINAL_EXP_INPUT_OFFSET as int, FINAL_EXP_T0_OFFSET as int) + forbenius_cs(T2_ROW as int, FINAL_EXP_T1_OFFSET as int, FINAL_EXP_T2_OFFSET as int, 2) + mul_cs(T3_ROW as int, FINAL_EXP_T2_OFFSET as int, FINAL_EXP_T1_OFFSET as int, FINAL_EXP_T3_OFFSET as int) + cyc_exp_cs(T4_ROW as int, FINAL_EXP_T3_OFFSET as int, FINAL_EXP_T4_OFFSET as int) + conjugate_cs(T5_ROW as int, FINAL_EXP_T4_OFFSET as int, FINAL_EXP_T5_OFFSET as int) + cyc_sq_cs(T6_ROW as int, FINAL_EXP_T3_OFFSET as int, FINAL_EXP_T6_OFFSET as int) + conjugate_cs(T7_ROW as int, FINAL_EXP_T6_OFFSET as int, FINAL_EXP_T7_OFFSET as int) + mul_cs(T8_ROW as int, FINAL_EXP_T7_OFFSET as int, FINAL_EXP_T5_OFFSET as int, FINAL_EXP_T8_OFFSET as int), cyc_exp_cs(T9_ROW as int, FINAL_EXP_T8_OFFSET as int, FINAL_EXP_T9_OFFSET as int), c);
        lemma_seq_add_contains(binds_cs(144) + first_row_cs(num_rows) + shift_cs(num_rows - 1) + last_row_cs( num_rows, num_rows, ) + invariance_cs(144) + forbenius_cs(T0_ROW as int, FINAL_EXP_INPUT_OFFSET as int, FINAL_EXP_T0_OFFSET as int, 6) + mul_cs(T1_ROW as int, FINAL_EXP_T1_OFFSET as int, FINAL_EXP_INPUT_OFFSET as int, FINAL_EXP_T0_OFFSET as int) + forbenius_cs(T2_ROW as int, FINAL_EXP_T1_OFFSET as int, FINAL_EXP_T2_OFFSET as int, 2) + mul_cs(T3_ROW as int, FINAL_EXP_T2_OFFSET as int, FINAL_EXP_T1_OFFSET as int, FINAL_EXP_T3_OFFSET as int) + cyc_exp_cs(T4_ROW as int, FINAL_EXP_T3_OFFSET as int, FINAL_EXP_T4_OFFSET as int) + conjugate_cs(T5_ROW as int, FINAL_EXP_T4_OFFSET as int, FINAL_EXP_T5_OFFSET as int) + cyc_sq_cs(T6_ROW as int, FINAL_EXP_T3_OFFSET as int, FINAL_EXP_T6_OFFSET as int) + conjugate_cs(T7_ROW as int, FINAL_EXP_T6_OFFSET as int, FINAL_EXP_T7_OFFSET as int) + mul_cs(T8_ROW as int, FINAL_EXP_T7_OFFSET as int, FINAL_EXP_T5_OFFSET as int, FINAL_EXP_T8_OFFSET as int) + cyc_exp_cs(T9_ROW as int, FINAL_EXP_T8_OFFSET as int, FINAL_EXP_T9_OFFSET as int), conjugate_cs(T10_ROW as int, FINAL_EXP_T9_OFFSET as int, FINAL_EXP_T10_OFFSET as int), c);
        lemma_seq_add_contains(binds_cs(144) + first_row_cs(num_rows) + shift_cs(num_rows - 1) + last_row_cs( num_rows, num_rows, ) + invariance_cs(144) + forbenius_cs(T0_ROW as int, FINAL_EXP_INPUT_OFFSET as int, FINAL_EXP_T0_OFFSET as int, 6) + mul_cs(T1_ROW as int, FINAL_EXP_T1_OFFSET as int, FINAL_EXP_INPUT_OFFSET as int, FINAL_EXP_T0_OFFSET as int) + forbenius_cs(T2_ROW as int, FINAL_EXP_T1_OFFSET as int, FINAL_EXP_T2_OFFSET as int, 2) + mul_cs(T3_ROW as int, FINAL_EXP_T2_OFFSET as int, FINAL_EXP_T1_OFFSET as int, FINAL_EXP_T3_OFFSET as int) + cyc_exp_cs(T4_ROW as int, FINAL_EXP_T3_OFFSET as int, FINAL_EXP_T4_OFFSET as int) + conjugate_cs(T5_ROW as int, FINAL_EXP_T4_OFFSET as int, FINAL_EXP_T5_OFFSET as int) + cyc_sq_cs(T6_ROW as int, FINAL_EXP_T3_OFFSET as int, FINAL_EXP_T6_OFFSET as int) + conjugate_cs(T7_ROW as int, FINAL_EXP_T6_OFFSET as int, FINAL_EXP_T7_OFFSET as int) + mul_cs(T8_ROW as int, FINAL_EXP_T7_OFFSET as int, FINAL_EXP_T5_OFFSET as int, FINAL_EXP_T8_OFFSET as int) + cyc_exp_cs(T9_ROW as int, FINAL_EXP_T8_OFFSET as int, FINAL_EXP_T9_OFFSET as int) + conjugate_cs(T10_ROW as int, FINAL_EXP_T9_OFFSET as int, FINAL_EXP_T10_OFFSET as int), cyc_exp_cs(T11_ROW as int, FINAL_EXP_T10_OFFSET as int, FINAL_EXP_T11_OFFSET as int), c);
        lemma_seq_add_contains(binds_cs(144) + first_row_cs(num_rows) + shift_cs(num_rows - 1) + last_row_cs( num_rows, num_rows, ) + invariance_cs(144) + forbenius_cs(T0_ROW as int, FINAL_EXP_INPUT_OFFSET as int, FINAL_EXP_T0_OFFSET as int, 6) + mul_cs(T1_ROW as int, FINAL_EXP_T1_OFFSET as int, FINAL_EXP_INPUT_OFFSET as int, FINAL_EXP_T0_OFFSET as int) + forbenius_cs(T2_ROW as int, FINAL_EXP_T1_OFFSET as int, FINAL_EXP_T2_OFFSET as int, 2) + mul_cs(T3_ROW as int, FINAL_EXP_T2_OFFSET as int, FINAL_EXP_T1_OFFSET as int, FINAL_EXP_T3_OFFSET as int) + cyc_exp_cs(T4_ROW as int, FINAL_EXP_T3_OFFSET as int, FINAL_EXP_T4_OFFSET as int) + conjugate_cs(T5_ROW as int, FINAL_EXP_T4_OFFSET as int, FINAL_EXP_T5_OFFSET as int) + cyc_sq_cs(T6_ROW as int, FINAL_EXP_T3_OFFSET as int, FINAL_EXP_T6_OFFSET as int) + conjugate_cs(T7_ROW as int, FINAL_EXP_T6_OFFSET as int, FINAL_EXP_T7_OFFSET as int) + mul_cs(T8_ROW as int, FINAL_EXP_T7_OFFSET as int, FINAL_EXP_T5_OFFSET as int, FINAL_EXP_T8_OFFSET as int) + cyc_exp_cs(T9_ROW as int, FINAL_EXP_T8_OFFSET as int, FINAL_EXP_T9_OFFSET as int) + conjugate_cs(T10_ROW as int, FINAL_EXP_T9_OFFSET as int, FINAL_EXP_T10_OFFSET as int) + cyc_exp_cs(T11_ROW as int, FINAL_EXP_T10_OFFSET as int, FINAL_EXP_T11_OFFSET as int), conjugate_cs(T12_ROW as int, FINAL_EXP_T11_OFFSET as int, FINAL_EXP_T12_OFFSET as int), c);
        lemma_seq_add_contains(binds_cs(144) + first_row_cs(num_rows) + shift_cs(num_rows - 1) + last_row_cs( num_rows, num_rows, ) + invariance_cs(144) + forbenius_cs(T0_ROW as int, FINAL_EXP_INPUT_OFFSET as int, FINAL_EXP_T0_OFFSET as int, 6) + mul_cs(T1_ROW as int, FINAL_EXP_T1_OFFSET as int, FINAL_EXP_INPUT_OFFSET as int, FINAL_EXP_T0_OFFSET as int) + forbenius_cs(T2_ROW as int, FINAL_EXP_T1_OFFSET as int, FINAL_EXP_T2_OFFSET as int, 2) + mul_cs(T3_ROW as int, FINAL_EXP_T2_OFFSET as int, FINAL_EXP_T1_OFFSET as int, FINAL_EXP_T3_OFFSET as int) + cyc_exp_cs(T4_ROW as int, FINAL_EXP_T3_OFFSET as int, FINAL_EXP_T4_OFFSET as int) + conjugate_cs(T5_ROW as int, FINAL_EXP_T4_OFFSET as int, FINAL_EXP_T5_OFFSET as int) + cyc_sq_cs(T6_ROW as int, FINAL_EXP_T3_OFFSET as int, FINAL_EXP_T6_OFFSET as int) + conjugate_cs(T7_ROW as int, FINAL_EXP_T6_OFFSET as int, FINAL_EXP_T7_OFFSET as int) + mul_cs(T8_ROW as int, FINAL_EXP_T7_OFFSET as int, FINAL_EXP_T5_OFFSET as int, FINAL_EXP_T8_OFFSET as int) + cyc_exp_cs(T9_ROW as int, FINAL_EXP_T8_OFFSET as int, FINAL_EXP_T9_OFFSET as int) + conjugate_cs(T10_ROW as int, FINAL_EXP_T9_OFFSET as int, FINAL_EXP_T10_OFFSET as int) + cyc_exp_cs(T11_ROW as int, FINAL_EXP_T10_OFFSET as int, FINAL_EXP_T11_OFFSET as int) + conjugate_cs(T12_ROW as int, FINAL_EXP_T11_OFFSET as int, FINAL_EXP_T12_OFFSET as int), cyc_exp_cs(T13_ROW as int, FINAL_EXP_T12_OFFSET as int, FINAL_EXP_T13_OFFSET as int), c);
        lemma_seq_add_contains(binds_cs(144) + first_row_cs(num_rows) + shift_cs(num_rows - 1) + last_row_cs( num_rows, num_rows, ) + invariance_cs(144) + forbenius_cs(T0_ROW as int, FINAL_EXP_INPUT_OFFSET as int, FINAL_EXP_T0_OFFSET as int, 6) + mul_cs(T1_ROW as int, FINAL_EXP_T1_OFFSET as int, FINAL_EXP_INPUT_OFFSET as int, FINAL_EXP_T0_OFFSET as int) + forbenius_cs(T2_ROW as int, FINAL_EXP_T1_OFFSET as int, FINAL_EXP_T2_OFFSET as int, 2) + mul_cs(T3_ROW as int, FINAL_EXP_T2_OFFSET as int, FINAL_EXP_T1_OFFSET as int, FINAL_EXP_T3_OFFSET as int) + cyc_exp_cs(T4_ROW as int, FINAL_EXP_T3_OFFSET as int, FINAL_EXP_T4_OFFSET as int) + conjugate_cs(T5_ROW as int, FINAL_EXP_T4_OFFSET as int, FINAL_EXP_T5_OFFSET as int) + cyc_sq_cs(T6_ROW as int, FINAL_EXP_T3_OFFSET as int, FINAL_EXP_T6_OFFSET as int) + conjugate_cs(T7_ROW as int, FINAL_EXP_T6_OFFSET as int, FINAL_EXP_T7_OFFSET as int) + mul_cs(T8_ROW as int, FINAL_EXP_T7_OFFSET as int, FINAL_EXP_T5_OFFSET as int, FINAL_EXP_T8_OFFSET as int) + cyc_exp_cs(T9_ROW as int, FINAL_EXP_T8_OFFSET as int, FINAL_EXP_T9_OFFSET as int) + conjugate_cs(T10_ROW as int, FINAL_EXP_T9_OFFSET as int, FINAL_EXP_T10_OFFSET as int) + cyc_exp_cs(T11_ROW as int, FINAL_EXP_T10_OFFSET as int, FINAL_EXP_T11_OFFSET as int) + conjugate_cs(T12_ROW as int, FINAL_EXP_T11_OFFSET as int, FINAL_EXP_T12_OFFSET as int) + cyc_exp_cs(T13_ROW as int, FINAL_EXP_T12_OFFSET as int, FINAL_EXP_T13_OFFSET as int), conjugate_cs(T14_ROW as int, FINAL_EXP_T13_OFFSET as int, FINAL_EXP_T14_OFFSET as int), c);
        lemma_seq_add_contains(binds_cs(144) + first_row_cs(num_rows) + shift_cs(num_rows - 1) + last_row_cs( num_rows, num_rows, ) + invariance_cs(144) + forbenius_cs(T0_ROW as int, FINAL_EXP_INPUT_OFFSET as int, FINAL_EXP_T0_OFFSET as int, 6) + mul_cs(T1_ROW as int, FINAL_EXP_T1_OFFSET as int, FINAL_EXP_INPUT_OFFSET as int, FINAL_EXP_T0_OFFSET as int) + forbenius_cs(T2_ROW as int, FINAL_EXP_T1_OFFSET as int, FINAL_EXP_T2_OFFSET as int, 2) + mul_cs(T3_ROW as int, FINAL_EXP_T2_OFFSET as int, FINAL_EXP_T1_OFFSET as int, FINAL_EXP_T3_OFFSET as int) + cyc_exp_cs(T4_ROW as int, FINAL_EXP_T3_OFFSET as int, FINAL_EXP_T4_OFFSET as int) + conjugate_cs(T5_ROW as int, FINAL_EXP_T4_OFFSET as int, FINAL_EXP_T5_OFFSET as int) + cyc_sq_cs(T6_ROW as int, FINAL_EXP_T3_OFFSET as int, FINAL_EXP_T6_OFFSET as int) + conjugate_cs(T7_ROW as int, FINAL_EXP_T6_OFFSET as int, FINAL_EXP_T7_OFFSET as int) + mul_cs(T8_ROW as int, FINAL_EXP_T7_OFFSET as int, FINAL_EXP_T5_OFFSET as int, FINAL_EXP_T8_OFFSET as int) + cyc_exp_cs(T9_ROW as int, FINAL_EXP_T8_OFFSET as int, FINAL_EXP_T9_OFFSET as int) + conjugate_cs(T10_ROW as int, FINAL_EXP_T9_OFFSET as int, FINAL_EXP_T10_OFFSET as int) + cyc_exp_cs(T11_ROW as int, FINAL_EXP_T10_OFFSET as int, FINAL_EXP_T11_OFFSET as int) + conjugate_cs(T12_ROW as int, FINAL_EXP_T11_OFFSET as int, FINAL_EXP_T12_OFFSET as int) + cyc_exp_cs(T13_ROW as int, FINAL_EXP_T12_OFFSET as int, FINAL_EXP_T13_OFFSET as int) + conjugate_cs(T14_ROW as int, FINAL_EXP_T13_OFFSET as int, FINAL_EXP_T14_OFFSET as int), cyc_sq_cs(T15_ROW as int, FINAL_EXP_T5_OFFSET as int, FINAL_EXP_T15_OFFSET as int), c);
        lemma_seq_add_contains(binds_cs(144) + first_row_cs(num_rows) + shift_cs(num_rows - 1) + last_row_cs( num_rows, num_rows, ) + invariance_cs(144) + forbenius_cs(T0_ROW as int, FINAL_EXP_INPUT_OFFSET as int, FINAL_EXP_T0_OFFSET as int, 6) + mul_cs(T1_ROW as int, FINAL_EXP_T1_OFFSET as int, FINAL_EXP_INPUT_OFFSET as int, FINAL_EXP_T0_OFFSET as int) + forbenius_cs(T2_ROW as int, FINAL_EXP_T1_OFFSET as int, FINAL_EXP_T2_OFFSET as int, 2) + mul_cs(T3_ROW as int, FINAL_EXP_T2_OFFSET as int, FINAL_EXP_T1_OFFSET as int, FINAL_EXP_T3_OFFSET as int) + cyc_exp_cs(T4_ROW as int, FINAL_EXP_T3_OFFSET as int, FINAL_EXP_T4_OFFSET as int) + conjugate_cs(T5_ROW as int, FINAL_EXP_T4_OFFSET as int, FINAL_EXP_T5_OFFSET as int) + cyc_sq_cs(T6_ROW as int, FINAL_EXP_T3_OFFSET as int, FINAL_EXP_T6_OFFSET as int) + conjugate_cs(T7_ROW as int, FINAL_EXP_T6_OFFSET as int, FINAL_EXP_T7_OFFSET as int) + mul_cs(T8_ROW as int, FINAL_EXP_T7_OFFSET as int, FINAL_EXP_T5_OFFSET as int, FINAL_EXP_T8_OFFSET as int) + cyc_exp_cs(T9_ROW as int, FINAL_EXP_T8_OFFSET as int, FINAL_EXP_T9_OFFSET as int) + conjugate_cs(T10_ROW as int, FINAL_EXP_T9_OFFSET as int, FINAL_EXP_T10_OFFSET as int) + cyc_exp_cs(T11_ROW as int, FINAL_EXP_T10_OFFSET as int, FINAL_EXP_T11_OFFSET as int) + conjugate_cs(T12_ROW as int, FINAL_EXP_T11_OFFSET as int, FINAL_EXP_T12_OFFSET as int) + cyc_exp_cs(T13_ROW as int, FINAL_EXP_T12_OFFSET as int, FINAL_EXP_T13_OFFSET as int) + conjugate_cs(T14_ROW as int, FINAL_EXP_T13_OFFSET as int, FINAL_EXP_T14_OFFSET as int) + cyc_sq_cs(T15_ROW as int, FINAL_EXP_T5_OFFSET as int, FINAL_EXP_T15_OFFSET as int), mul_cs(T16_ROW as int, FINAL_EXP_T14_OFFSET as int, FINAL_EXP_T15_OFFSET as int, FINAL_EXP_T16_OFFSET as int), c);
        lemma_seq_add_contains(binds_cs(144) + first_row_cs(num_rows) + shift_cs(num_rows - 1) + last_row_cs( num_rows, num_rows, ) + invariance_cs(144) + forbenius_cs(T0_ROW as int, FINAL_EXP_INPUT_OFFSET as int, FINAL_EXP_T0_OFFSET as int, 6) + mul_cs(T1_ROW as int, FINAL_EXP_T1_OFFSET as int, FINAL_EXP_INPUT_OFFSET as int, FINAL_EXP_T0_OFFSET as int) + forbenius_cs(T2_ROW as int, FINAL_EXP_T1_OFFSET as int, FINAL_EXP_T2_OFFSET as int, 2) + mul_cs(T3_ROW as int, FINAL_EXP_T2_OFFSET as int, FINAL_EXP_T1_OFFSET as int, FINAL_EXP_T3_OFFSET as int) + cyc_exp_cs(T4_ROW as int, FINAL_EXP_T3_OFFSET as int, FINAL_EXP_T4_OFFSET as int) + conjugate_cs(T5_ROW as int, FINAL_EXP_T4_OFFSET as int, FINAL_EXP_T5_OFFSET as int) + cyc_sq_cs(T6_ROW as int, FINAL_EXP_T3_OFFSET as int, FINAL_EXP_T6_OFFSET as int) + conjugate_cs(T7_ROW as int, FINAL_EXP_T6_OFFSET as int, FINAL_EXP_T7_OFFSET as int) + mul_cs(T8_ROW as int, FINAL_EXP_T7_OFFSET as int, FINAL_EXP_T5_OFFSET as int, FINAL_EXP_T8_OFFSET as int) + cyc_exp_cs(T9_ROW as int, FINAL_EXP_T8_OFFSET as int, FINAL_EXP_T9_OFFSET as int) + conjugate_cs(T10_ROW as int, FINAL_EXP_T9_OFFSET as int, FINAL_EXP_T10_OFFSET as int) + cyc_exp_cs(T11_ROW as int, FINAL_EXP_T10_OFFSET as int, FINAL_EXP_T11_OFFSET as int) + conjugate_cs(T12_ROW as int, FINAL_EXP_T11_OFFSET as int, FINAL_EXP_T12_OFFSET as int) + cyc_exp_cs(T13_ROW as int, FINAL_EXP_T12_OFFSET as int, FINAL_EXP_T13_OFFSET as int) + conjugate_cs(T14_ROW as int, FINAL_EXP_T13_OFFSET as int, FINAL_EXP_T14_OFFSET as int) + cyc_sq_cs(T15_ROW as int, FINAL_EXP_T5_OFFSET as int, FINAL_EXP_T15_OFFSET as int) + mul_cs(T16_ROW as int, FINAL_EXP_T14_OFFSET as int, FINAL_EXP_T15_OFFSET as int, FINAL_EXP_T16_OFFSET as int), cyc_exp_cs(T17_ROW as int, FINAL_EXP_T16_OFFSET as int, FINAL_EXP_T17_OFFSET as int), c);
        lemma_seq_add_contains(binds_cs(144) + first_row_cs(num_rows) + shift_cs(num_rows - 1) + last_row_cs( num_rows, num_rows, ) + invariance_cs(144) + forbenius_cs(T0_ROW as int, FINAL_EXP_INPUT_OFFSET as int, FINAL_EXP_T0_OFFSET as int, 6) + mul_cs(T1_ROW as int, FINAL_EXP_T1_OFFSET as int, FINAL_EXP_INPUT_OFFSET as int, FINAL_EXP_T0_OFFSET as int) + forbenius_cs(T2_ROW as int, FINAL_EXP_T1_OFFSET as int, FINAL_EXP_T2_OFFSET as int, 2) + mul_cs(T3_ROW as int, FINAL_EXP_T2_OFFSET as int, FINAL_EXP_T1_OFFSET as int, FINAL_EXP_T3_OFFSET as int) + cyc_exp_cs(T4_ROW as int, FINAL_EXP_T3_OFFSET as int, FINAL_EXP_T4_OFFSET as int) + conjugate_cs(T5_ROW as int, FINAL_EXP_T4_OFFSET as int, FINAL_EXP_T5_OFFSET as int) + cyc_sq_cs(T6_ROW as int, FINAL_EXP_T3_OFFSET as int, FINAL_EXP_T6_OFFSET as int) + conjugate_cs(T7_ROW as int, FINAL_EXP_T6_OFFSET as int, FINAL_EXP_T7_OFFSET as int) + mul_cs(T8_ROW as int, FINAL_EXP_T7_OFFSET as int, FINAL_EXP_T5_OFFSET as int, FINAL_EXP_T8_OFFSET as int) + cyc_exp_cs(T9_ROW as int, FINAL_EXP_T8_OFFSET as int, FINAL_EXP_T9_OFFSET as int) + conjugate_cs(T10_ROW as int, FINAL_EXP_T9_OFFSET as int, FINAL_EXP_T10_OFFSET as int) + cyc_exp_cs(T11_ROW as int, FINAL_EXP_T10_OFFSET as int, FINAL_EXP_T11_OFFSET as int) + conjugate_cs(T12_ROW as int, FINAL_EXP_T11_OFFSET as int, FINAL_EXP_T12_OFFSET as int) + cyc_exp_cs(T13_ROW as int, FINAL_EXP_T12_OFFSET as int, FINAL_EXP_T13_OFFSET as int) + conjugate_cs(T14_ROW as int, FINAL_EXP_T13_OFFSET as int, FINAL_EXP_T14_OFFSET as int) + cyc_sq_cs(T15_ROW as int, FINAL_EXP_T5_OFFSET as int, FINAL_EXP_T15_OFFSET as int) + mul_cs(T16_ROW as int, FINAL_EXP_T14_OFFSET as int, FINAL_EXP_T15_OFFSET as int, FINAL_EXP_T16_OFFSET as int) + cyc_exp_cs(T17_ROW as int, FINAL_EXP_T16_OFFSET as int, FINAL_EXP_T17_OFFSET as int), conjugate_cs(T18_ROW as int, FINAL_EXP_T17_OFFSET as int, FINAL_EXP_T18_OFFSET as int), c);
        lemma_seq_add_contains(binds_cs(144) + first_row_cs(num_rows) + shift_cs(num_rows - 1) + last_row_cs( num_rows, num_rows, ) + invariance_cs(144) + forbenius_cs(T0_ROW as int, FINAL_EXP_INPUT_OFFSET as int, FINAL_EXP_T0_OFFSET as int, 6) + mul_cs(T1_ROW as int, FINAL_EXP_T1_OFFSET as int, FINAL_EXP_INPUT_OFFSET as int, FINAL_EXP_T0_OFFSET as int) + forbenius_cs(T2_ROW as int, FINAL_EXP_T1_OFFSET as int, FINAL_EXP_T2_OFFSET as int, 2) + mul_cs(T3_ROW as int, FINAL_EXP_T2_OFFSET as int, FINAL_EXP_T1_OFFSET as int, FINAL_EXP_T3_OFFSET as int) + cyc_exp_cs(T4_ROW as int, FINAL_EXP_T3_OFFSET as int, FINAL_EXP_T4_OFFSET as int) + conjugate_cs(T5_ROW as int, FINAL_EXP_T4_OFFSET as int, FINAL_EXP_T5_OFFSET as int) + cyc_sq_cs(T6_ROW as int, FINAL_EXP_T3_OFFSET as int, FINAL_EXP_T6_OFFSET as int) + conjugate_cs(T7_ROW as int, FINAL_EXP_T6_OFFSET as int, FINAL_EXP_T7_OFFSET as int) + mul_cs(T8_ROW as int, FINAL_EXP_T7_OFFSET as int, FINAL_EXP_T5_OFFSET as int, FINAL_EXP_T8_OFFSET as int) + cyc_exp_cs(T9_ROW as int, FINAL_EXP_T8_OFFSET as int, FINAL_EXP_T9_OFFSET as int) + conjugate_cs(T10_ROW as int, FINAL_EXP_T9_OFFSET as int, FINAL_EXP_T10_OFFSET as int) + cyc_exp_cs(T11_ROW as int, FINAL_EXP_T10_OFFSET as int, FINAL_EXP_T11_OFFSET as int) + conjugate_cs(T12_ROW as int, FINAL_EXP_T11_OFFSET as int, FINAL_EXP_T12_OFFSET as int) + cyc_exp_cs(T13_ROW as int, FINAL_EXP_T12_OFFSET as int, FINAL_EXP_T13_OFFSET as int) + conjugate_cs(T14_ROW as int, FINAL_EXP_T13_OFFSET as int, FINAL_EXP_T14_OFFSET as int) + cyc_sq_cs(T15_ROW as int, FINAL_EXP_T5_OFFSET as int, FINAL_EXP_T15_OFFSET as int) + mul_cs(T16_ROW as int, FINAL_EXP_T14_OFFSET as int, FINAL_EXP_T15_OFFSET as int, FINAL_EXP_T16_OFFSET as int) + cyc_exp_cs(T17_ROW as int, FINAL_EXP_T16_OFFSET as int, FINAL_EXP_T17_OFFSET as int) + conjugate_cs(T18_ROW as int, FINAL_EXP_T17_OFFSET as int, FINAL_EXP_T18_OFFSET as int), mul_cs(T19_ROW as int, FINAL_EXP_T5_OFFSET as int, FINAL_EXP_T12_OFFSET as int, FINAL_EXP_T19_OFFSET as int), c);
        lemma_seq_add_contains(binds_cs(144) + first_row_cs(num_rows) + shift_cs(num_rows - 1) + last_row_cs( num_rows, num_rows, ) + invariance_cs(144) + forbenius_cs(T0_ROW as int, FINAL_EXP_INPUT_OFFSET as int, FINAL_EXP_T0_OFFSET as int, 6) + mul_cs(T1_ROW as int, FINAL_EXP_T1_OFFSET as int, FINAL_EXP_INPUT_OFFSET as int, FINAL_EXP_T0_OFFSET as int) + forbenius_cs(T2_ROW as int, FINAL_EXP_T1_OFFSET as int, FINAL_EXP_T2_OFFSET as int, 2) + mul_cs(T3_ROW as int, FINAL_EXP_T2_OFFSET as int, FINAL_EXP_T1_OFFSET as int, FINAL_EXP_T3_OFFSET as int) + cyc_exp_cs(T4_ROW as int, FINAL_EXP_T3_OFFSET as int, FINAL_EXP_T4_OFFSET as int) + conjugate_cs(T5_ROW as int, FINAL_EXP_T4_OFFSET as int, FINAL_EXP_T5_OFFSET as int) + cyc_sq_cs(T6_ROW as int, FINAL_EXP_T3_OFFSET as int, FINAL_EXP_T6_OFFSET as int) + conjugate_cs(T7_ROW as int, FINAL_EXP_T6_OFFSET as int, FINAL_EXP_T7_OFFSET as int) + mul_cs(T8_ROW as int, FINAL_EXP_T7_OFFSET as int, FINAL_EXP_T5_OFFSET as int, FINAL_EXP_T8_OFFSET as int) + cyc_exp_cs(T9_ROW as int, FINAL_EXP_T8_OFFSET as int, FINAL_EXP_T9_OFFSET as int) + conjugate_cs(T10_ROW as int, FINAL_EXP_T9_OFFSET as int, FINAL_EXP_T10_OFFSET as int) + cyc_exp_cs(T11_ROW as int, FINAL_EXP_T10_OFFSET as int, FINAL_EXP_T11_OFFSET as int) + conjugate_cs(T12_ROW as int, FINAL_EXP_T11_OFFSET as int, FINAL_EXP_T12_OFFSET as int) + cyc_exp_cs(T13_ROW as int, FINAL_EXP_T12_OFFSET as int, FINAL_EXP_T13_OFFSET as int) + conjugate_cs(T14_ROW as int, FINAL_EXP_T13_OFFSET as int, FINAL_EXP_T14_OFFSET as int) + cyc_sq_cs(T15_ROW as int, FINAL_EXP_T5_OFFSET as int, FINAL_EXP_T15_OFFSET as int) + mul_cs(T16_ROW as int, FINAL_EXP_T14_OFFSET as int, FINAL_EXP_T15_OFFSET as int, FINAL_EXP_T16_OFFSET as int) + cyc_exp_cs(T17_ROW as int, FINAL_EXP_T16_OFFSET as int, FINAL_EXP_T17_OFFSET as int) + conjugate_cs(T18_ROW as int, FINAL_EXP_T17_OFFSET as int, FINAL_EXP_T18_OFFSET as int) + mul_cs(T19_ROW as int, FINAL_EXP_T5_OFFSET as int, FINAL_EXP_T12_OFFSET as int, FINAL_EXP_T19_OFFSET as int), forbenius_cs(T20_ROW as int, FINAL_EXP_T19_OFFSET as int, FINAL_EXP_T20_OFFSET as int, 2), c);
        lemma_seq_add_contains(binds_cs(144) + first_row_cs(num_rows) + shift_cs(num_rows - 1) + last_row_cs( num_rows, num_rows, ) + invariance_cs(144) + forbenius_cs(T0_ROW as int, FINAL_EXP_INPUT_OFFSET as int, FINAL_EXP_T0_OFFSET as int, 6) + mul_cs(T1_ROW as int, FINAL_EXP_T1_OFFSET as int, FINAL_EXP_INPUT_OFFSET as int, FINAL_EXP_T0_OFFSET as int) + forbenius_cs(T2_ROW as int, FINAL_EXP_T1_OFFSET as int, FINAL_EXP_T2_OFFSET as int, 2) + mul_cs(T3_ROW as int, FINAL_EXP_T2_OFFSET as int, FINAL_EXP_T1_OFFSET as int, FINAL_EXP_T3_OFFSET as int) + cyc_exp_cs(T4_ROW as int, FINAL_EXP_T3_OFFSET as int, FINAL_EXP_T4_OFFSET as int) + conjugate_cs(T5_ROW as int, FINAL_EXP_T4_OFFSET as int, FINAL_EXP_T5_OFFSET as int) + cyc_sq_cs(T6_ROW as int, FINAL_EXP_T3_OFFSET as int, FINAL_EXP_T6_OFFSET as int) + conjugate_cs(T7_ROW as int, FINAL_EXP_T6_OFFSET as int, FINAL_EXP_T7_OFFSET as int) + mul_cs(T8_ROW as int, FINAL_EXP_T7_OFFSET as int, FINAL_EXP_T5_OFFSET as int, FINAL_EXP_T8_OFFSET as int) + cyc_exp_cs(T9_ROW as int, FINAL_EXP_T8_OFFSET as int, FINAL_EXP_T9_OFFSET as int) + conjugate_cs(T10_ROW as int, FINAL_EXP_T9_OFFSET as int, FINAL_EXP_T10_OFFSET as int) + cyc_exp_cs(T11_ROW as int, FINAL_EXP_T10_OFFSET as int, FINAL_EXP_T11_OFFSET as int) + conjugate_cs(T12_ROW as int, FINAL_EXP_T11_OFFSET as int, FINAL_EXP_T12_OFFSET as int) + cyc_exp_cs(T13_ROW as int, FINAL_EXP_T12_OFFSET as int, FINAL_EXP_T13_OFFSET as int) + conjugate_cs(T14_ROW as int, FINAL_EXP_T13_OFFSET as int, FINAL_EXP_T14_OFFSET as int) + cyc_sq_cs(T15_ROW as int, FINAL_EXP_T5_OFFSET as int, FINAL_EXP_T15_OFFSET as int) + mul_cs(T16_ROW as int, FINAL_EXP_T14_OFFSET as int, FINAL_EXP_T15_OFFSET as int, FINAL_EXP_T16_OFFSET as int) + cyc_exp_cs(T17_ROW as int, FINAL_EXP_T16_OFFSET as int, FINAL_EXP_T17_OFFSET as int) + conjugate_cs(T18_ROW as int, FINAL_EXP_T17_OFFSET as int, FINAL_EXP_T18_OFFSET as int) + mul_cs(T19_ROW as int, FINAL_EXP_T5_OFFSET as int, FINAL_EXP_T12_OFFSET as int, FINAL_EXP_T19_OFFSET as int) + forbenius_cs(T20_ROW as int, FINAL_EXP_T19_OFFSET as int, FINAL_EXP_T20_OFFSET as int, 2), mul_cs(T21_ROW as int, FINAL_EXP_T10_OFFSET as int, FINAL_EXP_T3_OFFSET as int, FINAL_EXP_T21_OFFSET as int), c);
        lemma_seq_add_contains(binds_cs(144) + first_row_cs(num_rows) + shift_cs(num_rows - 1) + last_row_cs( num_rows, num_rows, ) + invariance_cs(144) + forbenius_cs(T0_ROW as int, FINAL_EXP_INPUT_OFFSET as int, FINAL_EXP_T0_OFFSET as int, 6) + mul_cs(T1_ROW as int, FINAL_EXP_T1_OFFSET as int, FINAL_EXP_INPUT_OFFSET as int, FINAL_EXP_T0_OFFSET as int) + forbenius_cs(T2_ROW as int, FINAL_EXP_T1_OFFSET as int, FINAL_EXP_T2_OFFSET as int, 2) + mul_cs(T3_ROW as int, FINAL_EXP_T2_OFFSET as int, FINAL_EXP_T1_OFFSET as int, FINAL_EXP_T3_OFFSET as int) + cyc_exp_cs(T4_ROW as int, FINAL_EXP_T3_OFFSET as int, FINAL_EXP_T4_OFFSET as int) + conjugate_cs(T5_ROW as int, FINAL_EXP_T4_OFFSET as int, FINAL_EXP_T5_OFFSET as int) + cyc_sq_cs(T6_ROW as int, FINAL_EXP_T3_OFFSET as int, FINAL_EXP_T6_OFFSET as int) + conjugate_cs(T7_ROW as int, FINAL_EXP_T6_OFFSET as int, FINAL_EXP_T7_OFFSET as int) + mul_cs(T8_ROW as int, FINAL_EXP_T7_OFFSET as int, FINAL_EXP_T5_OFFSET as int, FINAL_EXP_T8_OFFSET as int) + cyc_exp_cs(T9_ROW as int, FINAL_EXP_T8_OFFSET as int, FINAL_EXP_T9_OFFSET as int) + conjugate_cs(T10_ROW as int, FINAL_EXP_T9_OFFSET as int, FINAL_EXP_T10_OFFSET as int) + cyc_exp_cs(T11_ROW as int, FINAL_EXP_T10_OFFSET as int, FINAL_EXP_T11_OFFSET as int) + conjugate_cs(T12_ROW as int, FINAL_EXP_T11_OFFSET as int, FINAL_EXP_T12_OFFSET as int) + cyc_exp_cs(T13_ROW as int, FINAL_EXP_T12_OFFSET as int, FINAL_EXP_T13_OFFSET as int) + conjugate_cs(T14_ROW as int, FINAL_EXP_T13_OFFSET as int, FINAL_EXP_T14_OFFSET as int) + cyc_sq_cs(T15_ROW as int, FINAL_EXP_T5_OFFSET as int, FINAL_EXP_T15_OFFSET as int) + mul_cs(T16_ROW as int, FINAL_EXP_T14_OFFSET as int, FINAL_EXP_T15_OFFSET as int, FINAL_EXP_T16_OFFSET as int) + cyc_exp_cs(T17_ROW as int, FINAL_EXP_T16_OFFSET as int, FINAL_EXP_T17_OFFSET as int) + conjugate_cs(T18_ROW as int, FINAL_EXP_T17_OFFSET as int, FINAL_EXP_T18_OFFSET as int) + mul_cs(T19_ROW as int, FINAL_EXP_T5_OFFSET as int, FINAL_EXP_T12_OFFSET as int, FINAL_EXP_T19_OFFSET as int) + forbenius_cs(T20_ROW as int, FINAL_EXP_T19_OFFSET as int, FINAL_EXP_T20_OFFSET as int, 2) + mul_cs(T21_ROW as int, FINAL_EXP_T10_OFFSET as int, FINAL_EXP_T3_OFFSET as int, FINAL_EXP_T21_OFFSET as int), forbenius_cs(T22_ROW as int, FINAL_EXP_T21_OFFSET as int, FINAL_EXP_T22_OFFSET as int, 3), c);
        lemma_seq_add_contains(binds_cs(144) + first_row_cs(num_rows) + shift_cs(num_rows - 1) + last_row_cs( num_rows, num_rows, ) + invariance_cs(144) + forbenius_cs(T0_ROW as int, FINAL_EXP_INPUT_OFFSET as int, FINAL_EXP_T0_OFFSET as int, 6) + mul_cs(T1_ROW as int, FINAL_EXP_T1_OFFSET as int, FINAL_EXP_INPUT_OFFSET as int, FINAL_EXP_T0_OFFSET as int) + forbenius_cs(T2_ROW as int, FINAL_EXP_T1_OFFSET as int, FINAL_EXP_T2_OFFSET as int, 2) + mul_cs(T3_ROW as int, FINAL_EXP_T2_OFFSET as int, FINAL_EXP_T1_OFFSET as int, FINAL_EXP_T3_OFFSET as int) + cyc_exp_cs(T4_ROW as int, FINAL_EXP_T3_OFFSET as int, FINAL_EXP_T4_OFFSET as int) + conjugate_cs(T5_ROW as int, FINAL_EXP_T4_OFFSET as int, FINAL_EXP_T5_OFFSET as int) + cyc_sq_cs(T6_ROW as int, FINAL_EXP_T3_OFFSET as int, FINAL_EXP_T6_OFFSET as int) + conjugate_cs(T7_ROW as int, FINAL_EXP_T6_OFFSET as int, FINAL_EXP_T7_OFFSET as int) + mul_cs(T8_ROW as int, FINAL_EXP_T7_OFFSET as int, FINAL_EXP_T5_OFFSET as int, FINAL_EXP_T8_OFFSET as int) + cyc_exp_cs(T9_ROW as int, FINAL_EXP_T8_OFFSET as int, FINAL_EXP_T9_OFFSET as int) + conjugate_cs(T10_ROW as int, FINAL_EXP_T9_OFFSET as int, FINAL_EXP_T10_OFFSET as int) + cyc_exp_cs(T11_ROW as int, FINAL_EXP_T10_OFFSET as int, FINAL_EXP_T11_OFFSET as int) + conjugate_cs(T12_ROW as int, FINAL_EXP_T11_OFFSET as int, FINAL_EXP_T12_OFFSET as int) + cyc_exp_cs(T13_ROW as int, FINAL_EXP_T12_OFFSET as int, FINAL_EXP_T13_OFFSET as int) + conjugate_cs(T14_ROW as int, FINAL_EXP_T13_OFFSET as int, FINAL_EXP_T14_OFFSET as int) + cyc_sq_cs(T15_ROW as int, FINAL_EXP_T5_OFFSET as int, FINAL_EXP_T15_OFFSET as int) + mul_cs(T16_ROW as int, FINAL_EXP_T14_OFFSET as int, FINAL_EXP_T15_OFFSET as int, FINAL_EXP_T16_OFFSET as int) + cyc_exp_cs(T17_ROW as int, FINAL_EXP_T16_OFFSET as int, FINAL_EXP_T17_OFFSET as int) + conjugate_cs(T18_ROW as int, FINAL_EXP_T17_OFFSET as int, FINAL_EXP_T18_OFFSET as int) + mul_cs(T19_ROW as int, FINAL_EXP_T5_OFFSET as int, FINAL_EXP_T12_OFFSET as int, FINAL_EXP_T19_OFFSET as int) + forbenius_cs(T20_ROW as int, FINAL_EXP_T19_OFFSET as int, FINAL_EXP_T20_OFFSET as int, 2) + mul_cs(T21_ROW as int, FINAL_EXP_T10_OFFSET as int, FINAL_EXP_T3_OFFSET as int, FINAL_EXP_T21_OFFSET as int) + forbenius_cs(T22_ROW as int, FINAL_EXP_T21_OFFSET as int, FINAL_EXP_T22_OFFSET as int, 3), conjugate_cs(T23_ROW as int, FINAL_EXP_T3_OFFSET as int, FINAL_EXP_T23_OFFSET as int), c);
        lemma_seq_add_contains(binds_cs(144) + first_row_cs(num_rows) + shift_cs(num_rows - 1) + last_row_cs( num_rows, num_rows, ) + invariance_cs(144) + forbenius_cs(T0_ROW as int, FINAL_EXP_INPUT_OFFSET as int, FINAL_EXP_T0_OFFSET as int, 6) + mul_cs(T1_ROW as int, FINAL_EXP_T1_OFFSET as int, FINAL_EXP_INPUT_OFFSET as int, FINAL_EXP_T0_OFFSET as int) + forbenius_cs(T2_ROW as int, FINAL_EXP_T1_OFFSET as int, FINAL_EXP_T2_OFFSET as int, 2) + mul_cs(T3_ROW as int, FINAL_EXP_T2_OFFSET as int, FINAL_EXP_T1_OFFSET as int, FINAL_EXP_T3_OFFSET as int) + cyc_exp_cs(T4_ROW as int, FINAL_EXP_T3_OFFSET as int, FINAL_EXP_T4_OFFSET as int) + conjugate_cs(T5_ROW as int, FINAL_EXP_T4_OFFSET as int, FINAL_EXP_T5_OFFSET as int) + cyc_sq_cs(T6_ROW as int, FINAL_EXP_T3_OFFSET as int, FINAL_EXP_T6_OFFSET as int) + conjugate_cs(T7_ROW as int, FINAL_EXP_T6_OFFSET as int, FINAL_EXP_T7_OFFSET as int) + mul_cs(T8_ROW as int, FINAL_EXP_T7_OFFSET as int, FINAL_EXP_T5_OFFSET as int, FINAL_EXP_T8_OFFSET as int) + cyc_exp_cs(T9_ROW as int, FINAL_EXP_T8_OFFSET as int, FINAL_EXP_T9_OFFSET as int) + conjugate_cs(T10_ROW as int, FINAL_EXP_T9_OFFSET as int, FINAL_EXP_T10_OFFSET as int) + cyc_exp_cs(T11_ROW as int, FINAL_EXP_T10_OFFSET as int, FINAL_EXP_T11_OFFSET as int) + conjugate_cs(T12_ROW as int, FINAL_EXP_T11_OFFSET as int, FINAL_EXP_T12_OFFSET as int) + cyc_exp_cs(T13_ROW as int, FINAL_EXP_T12_OFFSET as int, FINAL_EXP_T13_OFFSET as int) + conjugate_cs(T14_ROW as int, FINAL_EXP_T13_OFFSET as int, FINAL_EXP_T14_OFFSET as int) + cyc_sq_cs(T15_ROW as int, FINAL_EXP_T5_OFFSET as int, FINAL_EXP_T15_OFFSET as int) + mul_cs(T16_ROW as int, FINAL_EXP_T14_OFFSET as int, FINAL_EXP_T15_OFFSET as int, FINAL_EXP_T16_OFFSET as int) + cyc_exp_cs(T17_ROW as int, FINAL_EXP_T16_OFFSET as int, FINAL_EXP_T17_OFFSET as int) + conjugate_cs(T18_ROW as int, FINAL_EXP_T17_OFFSET as int, FINAL_EXP_T18_OFFSET as int) + mul_cs(T19_ROW as int, FINAL_EXP_T5_OFFSET as int, FINAL_EXP_T12_OFFSET as int, FINAL_EXP_T19_OFFSET as int) + forbenius_cs(T20_ROW as int, FINAL_EXP_T19_OFFSET as int, FINAL_EXP_T20_OFFSET as int, 2) + mul_cs(T21_ROW as int, FINAL_EXP_T10_OFFSET as int, FINAL_EXP_T3_OFFSET as int, FINAL_EXP_T21_OFFSET as int) + forbenius_cs(T22_ROW as int, FINAL_EXP_T21_OFFSET as int, FINAL_EXP_T22_OFFSET as int, 3) + conjugate_cs(T23_ROW as int, FINAL_EXP_T3_OFFSET as int, FINAL_EXP_T23_OFFSET as int), mul_cs(T24_ROW as int, FINAL_EXP_T16_OFFSET as int, FINAL_EXP_T23_OFFSET as int, FINAL_EXP_T24_OFFSET as int), c);
        lemma_seq_add_contains(binds_cs(144) + first_row_cs(num_rows) + shift_cs(num_rows - 1) + last_row_cs( num_rows, num_rows, ) + invariance_cs(144) + forbenius_cs(T0_ROW as int, FINAL_EXP_INPUT_OFFSET as int, FINAL_EXP_T0_OFFSET as int, 6) + mul_cs(T1_ROW as int, FINAL_EXP_T1_OFFSET as int, FINAL_EXP_INPUT_OFFSET as int, FINAL_EXP_T0_OFFSET as int) + forbenius_cs(T2_ROW as int, FINAL_EXP_T1_OFFSET as int, FINAL_EXP_T2_OFFSET as int, 2) + mul_cs(T3_ROW as int, FINAL_EXP_T2_OFFSET as int, FINAL_EXP_T1_OFFSET as int, FINAL_EXP_T3_OFFSET as int) + cyc_exp_cs(T4_ROW as int, FINAL_EXP_T3_OFFSET as int, FINAL_EXP_T4_OFFSET as int) + conjugate_cs(T5_ROW as int, FINAL_EXP_T4_OFFSET as int, FINAL_EXP_T5_OFFSET as int) + cyc_sq_cs(T6_ROW as int, FINAL_EXP_T3_OFFSET as int, FINAL_EXP_T6_OFFSET as int) + conjugate_cs(T7_ROW as int, FINAL_EXP_T6_OFFSET as int, FINAL_EXP_T7_OFFSET as int) + mul_cs(T8_ROW as int, FINAL_EXP_T7_OFFSET as int, FINAL_EXP_T5_OFFSET as int, FINAL_EXP_T8_OFFSET as int) + cyc_exp_cs(T9_ROW as int, FINAL_EXP_T8_OFFSET as int, FINAL_EXP_T9_OFFSET as int) + conjugate_cs(T10_ROW as int, FINAL_EXP_T9_OFFSET as int, FINAL_EXP_T10_OFFSET as int) + cyc_exp_cs(T11_ROW as int, FINAL_EXP_T10_OFFSET as int, FINAL_EXP_T11_OFFSET as int) + conjugate_cs(T12_ROW as int, FINAL_EXP_T11_OFFSET as int, FINAL_EXP_T12_OFFSET as int) + cyc_exp_cs(T13_ROW as int, FINAL_EXP_T12_OFFSET as int, FINAL_EXP_T13_OFFSET as int) + conjugate_cs(T14_ROW as int, FINAL_EXP_T13_OFFSET as int, FINAL_EXP_T14_OFFSET as int) + cyc_sq_cs(T15_ROW as int, FINAL_EXP_T5_OFFSET as int, FINAL_EXP_T15_OFFSET as int) + mul_cs(T16_ROW as int, FINAL_EXP_T14_OFFSET as int, FINAL_EXP_T15_OFFSET as int, FINAL_EXP_T16_OFFSET as int) + cyc_exp_cs(T17_ROW as int, FINAL_EXP_T16_OFFSET as int, FINAL_EXP_T17_OFFSET as int) + conjugate_cs(T18_ROW as int, FINAL_EXP_T17_OFFSET as int, FINAL_EXP_T18_OFFSET as int) + mul_cs(T19_ROW as int, FINAL_EXP_T5_OFFSET as int, FINAL_EXP_T12_OFFSET as int, FINAL_EXP_T19_OFFSET as int) + forbenius_cs(T20_ROW as int, FINAL_EXP_T19_OFFSET as int, FINAL_EXP_T20_OFFSET as int, 2) + mul_cs(T21_ROW as int, FINAL_EXP_T10_OFFSET as int, FINAL_EXP_T3_OFFSET as int, FINAL_EXP_T21_OFFSET as int) + forbenius_cs(T22_ROW as int, FINAL_EXP_T21_OFFSET as int, FINAL_EXP_T22_OFFSET as int, 3) + conjugate_cs(T23_ROW as int, FINAL_EXP_T3_OFFSET as int, FINAL_EXP_T23_OFFSET as int) + mul_cs(T24_ROW as int, FINAL_EXP_T16_OFFSET as int, FINAL_EXP_T23_OFFSET as int, FINAL_EXP_T24_OFFSET as int), forbenius_cs(T25_ROW as int, FINAL_EXP_T24_OFFSET as int, FINAL_EXP_T25_OFFSET as int, 1), c);
        lemma_seq_add_contains(binds_cs(144) + first_row_cs(num_rows) + shift_cs(num_rows - 1) + last_row_cs( num_rows, num_rows, ) + invariance_cs(144) + forbenius_cs(T0_ROW as int, FINAL_EXP_INPUT_OFFSET as int, FINAL_EXP_T0_OFFSET as int, 6) + mul_cs(T1_ROW as int, FINAL_EXP_T1_OFFSET as int, FINAL_EXP_INPUT_OFFSET as int, FINAL_EXP_T0_OFFSET as int) + forbenius_cs(T2_ROW as int, FINAL_EXP_T1_OFFSET as int, FINAL_EXP_T2_OFFSET as int, 2) + mul_cs(T3_ROW as int, FINAL_EXP_T2_OFFSET as int, FINAL_EXP_T1_OFFSET as int, FINAL_EXP_T3_OFFSET as int) + cyc_exp_cs(T4_ROW as int, FINAL_EXP_T3_OFFSET as int, FINAL_EXP_T4_OFFSET as int) + conjugate_cs(T5_ROW as int, FINAL_EXP_T4_OFFSET as int, FINAL_EXP_T5_OFFSET as int) + cyc_sq_cs(T6_ROW as int, FINAL_EXP_T3_OFFSET as int, FINAL_EXP_T6_OFFSET as int) + conjugate_cs(T7_ROW as int, FINAL_EXP_T6_OFFSET as int, FINAL_EXP_T7_OFFSET as int) + mul_cs(T8_ROW as int, FINAL_EXP_T7_OFFSET as int, FINAL_EXP_T5_OFFSET as int, FINAL_EXP_T8_OFFSET as int) + cyc_exp_cs(T9_ROW as int, FINAL_EXP_T8_OFFSET as int, FINAL_EXP_T9_OFFSET as int) + conjugate_cs(T10_ROW as int, FINAL_EXP_T9_OFFSET as int, FINAL_EXP_T10_OFFSET as int) + cyc_exp_cs(T11_ROW as int, FINAL_EXP_T10_OFFSET as int, FINAL_EXP_T11_OFFSET as int) + conjugate_cs(T12_ROW as int, FINAL_EXP_T11_OFFSET as int, FINAL_EXP_T12_OFFSET as int) + cyc_exp_cs(T13_ROW as int, FINAL_EXP_T12_OFFSET as int, FINAL_EXP_T13_OFFSET as int) + conjugate_cs(T14_ROW as int, FINAL_EXP_T13_OFFSET as int, FINAL_EXP_T14_OFFSET as int) + cyc_sq_cs(T15_ROW as int, FINAL_EXP_T5_OFFSET as int, FINAL_EXP_T15_OFFSET as int) + mul_cs(T16_ROW as int, FINAL_EXP_T14_OFFSET as int, FINAL_EXP_T15_OFFSET as int, FINAL_EXP_T16_OFFSET as int) + cyc_exp_cs(T17_ROW as int, FINAL_EXP_T16_OFFSET as int, FINAL_EXP_T17_OFFSET as int) + conjugate_cs(T18_ROW as int, FINAL_EXP_T17_OFFSET as int, FINAL_EXP_T18_OFFSET as int) + mul_cs(T19_ROW as int, FINAL_EXP_T5_OFFSET as int, FINAL_EXP_T12_OFFSET as int, FINAL_EXP_T19_OFFSET as int) + forbenius_cs(T20_ROW as int, FINAL_EXP_T19_OFFSET as int, FINAL_EXP_T20_OFFSET as int, 2) + mul_cs(T21_ROW as int, FINAL_EXP_T10_OFFSET as int, FINAL_EXP_T3_OFFSET as int, FINAL_EXP_T21_OFFSET as int) + forbenius_cs(T22_ROW as int, FINAL_EXP_T21_OFFSET as int, FINAL_EXP_T22_OFFSET as int, 3) + conjugate_cs(T23_ROW as int, FINAL_EXP_T3_OFFSET as int, FINAL_EXP_T23_OFFSET as int) + mul_cs(T24_ROW as int, FINAL_EXP_T16_OFFSET as int, FINAL_EXP_T23_OFFSET as int, FINAL_EXP_T24_OFFSET as int) + forbenius_cs(T25_ROW as int, FINAL_EXP_T24_OFFSET as int, FINAL_EXP_T25_OFFSET as int, 1), conjugate_cs(T26_ROW as int, FINAL_EXP_T8_OFFSET as int, FINAL_EXP_T26_OFFSET as int), c);
        lemma_seq_add_contains(binds_cs(144) + first_row_cs(num_rows) + shift_cs(num_rows - 1) + last_row_cs( num_rows, num_rows, ) + invariance_cs(144) + forbenius_cs(T0_ROW as int, FINAL_EXP_INPUT_OFFSET as int, FINAL_EXP_T0_OFFSET as int, 6) + mul_cs(T1_ROW as int, FINAL_EXP_T1_OFFSET as int, FINAL_EXP_INPUT_OFFSET as int, FINAL_EXP_T0_OFFSET as int) + forbenius_cs(T2_ROW as int, FINAL_EXP_T1_OFFSET as int, FINAL_EXP_T2_OFFSET as int, 2) + mul_cs(T3_ROW as int, FINAL_EXP_T2_OFFSET as int, FINAL_EXP_T1_OFFSET as int, FINAL_EXP_T3_OFFSET as int) + cyc_exp_cs(T4_ROW as int, FINAL_EXP_T3_OFFSET as int, FINAL_EXP_T4_OFFSET as int) + conjugate_cs(T5_ROW as int, FINAL_EXP_T4_OFFSET as int, FINAL_EXP_T5_OFFSET as int) + cyc_sq_cs(T6_ROW as int, FINAL_EXP_T3_OFFSET as int, FINAL_EXP_T6_OFFSET as int) + conjugate_cs(T7_ROW as int, FINAL_EXP_T6_OFFSET as int, FINAL_EXP_T7_OFFSET as int) + mul_cs(T8_ROW as int, FINAL_EXP_T7_OFFSET as int, FINAL_EXP_T5_OFFSET as int, FINAL_EXP_T8_OFFSET as int) + cyc_exp_cs(T9_ROW as int, FINAL_EXP_T8_OFFSET as int, FINAL_EXP_T9_OFFSET as int) + conjugate_cs(T10_ROW as int, FINAL_EXP_T9_OFFSET as int, FINAL_EXP_T10_OFFSET as int) + cyc_exp_cs(T11_ROW as int, FINAL_EXP_T10_OFFSET as int, FINAL_EXP_T11_OFFSET as int) + conjugate_cs(T12_ROW as int, FINAL_EXP_T11_OFFSET as int, FINAL_EXP_T12_OFFSET as int) + cyc_exp_cs(T13_ROW as int, FINAL_EXP_T12_OFFSET as int, FINAL_EXP_T13_OFFSET as int) + conjugate_cs(T14_ROW as int, FINAL_EXP_T13_OFFSET as int, FINAL_EXP_T14_OFFSET as int) + cyc_sq_cs(T15_ROW as int, FINAL_EXP_T5_OFFSET as int, FINAL_EXP_T15_OFFSET as int) + mul_cs(T16_ROW as int, FINAL_EXP_T14_OFFSET as int, FINAL_EXP_T15_OFFSET as int, FINAL_EXP_T16_OFFSET as int) + cyc_exp_cs(T17_ROW as int, FINAL_EXP_T16_OFFSET as int, FINAL_EXP_T17_OFFSET as int) + conjugate_cs(T18_ROW as int, FINAL_EXP_T17_OFFSET as int, FINAL_EXP_T18_OFFSET as int) + mul_cs(T19_ROW as int, FINAL_EXP_T5_OFFSET as int, FINAL_EXP_T12_OFFSET as int, FINAL_EXP_T19_OFFSET as int) + forbenius_cs(T20_ROW as int, FINAL_EXP_T19_OFFSET as int, FINAL_EXP_T20_OFFSET as int, 2) + mul_cs(T21_ROW as int, FINAL_EXP_T10_OFFSET as int, FINAL_EXP_T3_OFFSET as int, FINAL_EXP_T21_OFFSET as int) + forbenius_cs(T22_ROW as int, FINAL_EXP_T21_OFFSET as int, FINAL_EXP_T22_OFFSET as int, 3) + conjugate_cs(T23_ROW as int, FINAL_EXP_T3_OFFSET as int, FINAL_EXP_T23_OFFSET as int) + mul_cs(T24_ROW as int, FINAL_EXP_T16_OFFSET as int, FINAL_EXP_T23_OFFSET as int, FINAL_EXP_T24_OFFSET as int) + forbenius_cs(T25_ROW as int, FINAL_EXP_T24_OFFSET as int, FINAL_EXP_T25_OFFSET as int, 1) + conjugate_cs(T26_ROW as int, FINAL_EXP_T8_OFFSET as int, FINAL_EXP_T26_OFFSET as int), mul_cs(T27_ROW as int, FINAL_EXP_T18_OFFSET as int, FINAL_EXP_T26_OFFSET as int, FINAL_EXP_T27_OFFSET as int), c);
        lemma_seq_add_contains(binds_cs(144) + first_row_cs(num_rows) + shift_cs(num_rows - 1) + last_row_cs( num_rows, num_rows, ) + invariance_cs(144) + forbenius_cs(T0_ROW as int, FINAL_EXP_INPUT_OFFSET as int, FINAL_EXP_T0_OFFSET as int, 6) + mul_cs(T1_ROW as int, FINAL_EXP_T1_OFFSET as int, FINAL_EXP_INPUT_OFFSET as int, FINAL_EXP_T0_OFFSET as int) + forbenius_cs(T2_ROW as int, FINAL_EXP_T1_OFFSET as int, FINAL_EXP_T2_OFFSET as int, 2) + mul_cs(T3_ROW as int, FINAL_EXP_T2_OFFSET as int, FINAL_EXP_T1_OFFSET as int, FINAL_EXP_T3_OFFSET as int) + cyc_exp_cs(T4_ROW as int, FINAL_EXP_T3_OFFSET as int, FINAL_EXP_T4_OFFSET as int) + conjugate_cs(T5_ROW as int, FINAL_EXP_T4_OFFSET as int, FINAL_EXP_T5_OFFSET as int) + cyc_sq_cs(T6_ROW as int, FINAL_EXP_T3_OFFSET as int, FINAL_EXP_T6_OFFSET as int) + conjugate_cs(T7_ROW as int, FINAL_EXP_T6_OFFSET as int, FINAL_EXP_T7_OFFSET as int) + mul_cs(T8_ROW as int, FINAL_EXP_T7_OFFSET as int, FINAL_EXP_T5_OFFSET as int, FINAL_EXP_T8_OFFSET as int) + cyc_exp_cs(T9_ROW as int, FINAL_EXP_T8_OFFSET as int, FINAL_EXP_T9_OFFSET as int) + conjugate_cs(T10_ROW as int, FINAL_EXP_T9_OFFSET as int, FINAL_EXP_T10_OFFSET as int) + cyc_exp_cs(T11_ROW as int, FINAL_EXP_T10_OFFSET as int, FINAL_EXP_T11_OFFSET as int) + conjugate_cs(T12_ROW as int, FINAL_EXP_T11_OFFSET as int, FINAL_EXP_T12_OFFSET as int) + cyc_exp_cs(T13_ROW as int, FINAL_EXP_T12_OFFSET as int, FINAL_EXP_T13_OFFSET as int) + conjugate_cs(T14_ROW as int, FINAL_EXP_T13_OFFSET as int, FINAL_EXP_T14_OFFSET as int) + cyc_sq_cs(T15_ROW as int, FINAL_EXP_T5_OFFSET as int, FINAL_EXP_T15_OFFSET as int) + mul_cs(T16_ROW as int, FINAL_EXP_T14_OFFSET as int, FINAL_EXP_T15_OFFSET as int, FINAL_EXP_T16_OFFSET as int) + cyc_exp_cs(T17_ROW as int, FINAL_EXP_T16_OFFSET as int, FINAL_EXP_T17_OFFSET as int) + conjugate_cs(T18_ROW as int, FINAL_EXP_T17_OFFSET as int, FINAL_EXP_T18_OFFSET as int) + mul_cs(T19_ROW as int, FINAL_EXP_T5_OFFSET as int, FINAL_EXP_T12_OFFSET as int, FINAL_EXP_T19_OFFSET as int) + forbenius_cs(T20_ROW as int, FINAL_EXP_T19_OFFSET as int, FINAL_EXP_T20_OFFSET as int, 2) + mul_cs(T21_ROW as int, FINAL_EXP_T10_OFFSET as int, FINAL_EXP_T3_OFFSET as int, FINAL_EXP_T21_OFFSET as int) + forbenius_cs(T22_ROW as int, FINAL_EXP_T21_OFFSET as int, FINAL_EXP_T22_OFFSET as int, 3) + conjugate_cs(T23_ROW as int, FINAL_EXP_T3_OFFSET as int, FINAL_EXP_T23_OFFSET as int) + mul_cs(T24_ROW as int, FINAL_EXP_T16_OFFSET as int, FINAL_EXP_T23_OFFSET as int, FINAL_EXP_T24_OFFSET as int) + forbenius_cs(T25_ROW as int, FINAL_EXP_T24_OFFSET as int, FINAL_EXP_T25_OFFSET as int, 1) + conjugate_cs(T26_ROW as int, FINAL_EXP_T8_OFFSET as int, FINAL_EXP_T26_OFFSET as int) + mul_cs(T27_ROW as int, FINAL_EXP_T18_OFFSET as int, FINAL_EXP_T26_OFFSET as int, FINAL_EXP_T27_OFFSET as int), mul_cs(T28_ROW as int, FINAL_EXP_T27_OFFSET as int, FINAL_EXP_T3_OFFSET as int, FINAL_EXP_T28_OFFSET as int), c);
        lemma_seq_add_contains(binds_cs(144) + first_row_cs(num_rows) + shift_cs(num_rows - 1) + last_row_cs( num_rows, num_rows, ) + invariance_cs(144) + forbenius_cs(T0_ROW as int, FINAL_EXP_INPUT_OFFSET as int, FINAL_EXP_T0_OFFSET as int, 6) + mul_cs(T1_ROW as int, FINAL_EXP_T1_OFFSET as int, FINAL_EXP_INPUT_OFFSET as int, FINAL_EXP_T0_OFFSET as int) + forbenius_cs(T2_ROW as int, FINAL_EXP_T1_OFFSET as int, FINAL_EXP_T2_OFFSET as int, 2) + mul_cs(T3_ROW as int, FINAL_EXP_T2_OFFSET as int, FINAL_EXP_T1_OFFSET as int, FINAL_EXP_T3_OFFSET as int) + cyc_exp_cs(T4_ROW as int, FINAL_EXP_T3_OFFSET as int, FINAL_EXP_T4_OFFSET as int) + conjugate_cs(T5_ROW as int, FINAL_EXP_T4_OFFSET as int, FINAL_EXP_T5_OFFSET as int) + cyc_sq_cs(T6_ROW as int, FINAL_EXP_T3_OFFSET as int, FINAL_EXP_T6_OFFSET as int) + conjugate_cs(T7_ROW as int, FINAL_EXP_T6_OFFSET as int, FINAL_EXP_T7_OFFSET as int) + mul_cs(T8_ROW as int, FINAL_EXP_T7_OFFSET as int, FINAL_EXP_T5_OFFSET as int, FINAL_EXP_T8_OFFSET as int) + cyc_exp_cs(T9_ROW as int, FINAL_EXP_T8_OFFSET as int, FINAL_EXP_T9_OFFSET as int) + conjugate_cs(T10_ROW as int, FINAL_EXP_T9_OFFSET as int, FINAL_EXP_T10_OFFSET as int) + cyc_exp_cs(T11_ROW as int, FINAL_EXP_T10_OFFSET as int, FINAL_EXP_T11_OFFSET as int) + conjugate_cs(T12_ROW as int, FINAL_EXP_T11_OFFSET as int, FINAL_EXP_T12_OFFSET as int) + cyc_exp_cs(T13_ROW as int, FINAL_EXP_T12_OFFSET as int, FINAL_EXP_T13_OFFSET as int) + conjugate_cs(T14_ROW as int, FINAL_EXP_T13_OFFSET as int, FINAL_EXP_T14_OFFSET as int) + cyc_sq_cs(T15_ROW as int, FINAL_EXP_T5_OFFSET as int, FINAL_EXP_T15_OFFSET as int) + mul_cs(T16_ROW as int, FINAL_EXP_T14_OFFSET as int, FINAL_EXP_T15_OFFSET as int, FINAL_EXP_T16_OFFSET as int) + cyc_exp_cs(T17_ROW as int, FINAL_EXP_T16_OFFSET as int, FINAL_EXP_T17_OFFSET as int) + conjugate_cs(T18_ROW as int, FINAL_EXP_T17_OFFSET as int, FINAL_EXP_T18_OFFSET as int) + mul_cs(T19_ROW as int, FINAL_EXP_T5_OFFSET as int, FINAL_EXP_T12_OFFSET as int, FINAL_EXP_T19_OFFSET as int) + forbenius_cs(T20_ROW as int, FINAL_EXP_T19_OFFSET as int, FINAL_EXP_T20_OFFSET as int, 2) + mul_cs(T21_ROW as int, FINAL_EXP_T10_OFFSET as int, FINAL_EXP_T3_OFFSET as int, FINAL_EXP_T21_OFFSET as int) + forbenius_cs(T22_ROW as int, FINAL_EXP_T21_OFFSET as int, FINAL_EXP_T22_OFFSET as int, 3) + conjugate_cs(T23_ROW as int, FINAL_EXP_T3_OFFSET as int, FINAL_EXP_T23_OFFSET as int) + mul_cs(T24_ROW as int, FINAL_EXP_T16_OFFSET as int, FINAL_EXP_T23_OFFSET as int, FINAL_EXP_T24_OFFSET as int) + forbenius_cs(T25_ROW as int, FINAL_EXP_T24_OFFSET as int, FINAL_EXP_T25_OFFSET as int, 1) + conjugate_cs(T26_ROW as int, FINAL_EXP_T8_OFFSET as int, FINAL_EXP_T26_OFFSET as int) + mul_cs(T27_ROW as int, FINAL_EXP_T18_OFFSET as int, FINAL_EXP_T26_OFFSET as int, FINAL_EXP_T27_OFFSET as int) + mul_cs(T28_ROW as int, FINAL_EXP_T27_OFFSET as int, FINAL_EXP_T3_OFFSET as int, FINAL_EXP_T28_OFFSET as int), mul_cs(T29_ROW as int, FINAL_EXP_T20_OFFSET as int, FINAL_EXP_T22_OFFSET as int, FINAL_EXP_T29_OFFSET as int), c);
        lemma_seq_add_contains(binds_cs(144) + first_row_cs(num_rows) + shift_cs(num_rows - 1) + last_row_cs( num_rows, num_rows, ) + invariance_cs(144) + forbenius_cs(T0_ROW as int, FINAL_EXP_INPUT_OFFSET as int, FINAL_EXP_T0_OFFSET as int, 6) + mul_cs(T1_ROW as int, FINAL_EXP_T1_OFFSET as int, FINAL_EXP_INPUT_OFFSET as int, FINAL_EXP_T0_OFFSET as int) + forbenius_cs(T2_ROW as int, FINAL_EXP_T1_OFFSET as int, FINAL_EXP_T2_OFFSET as int, 2) + mul_cs(T3_ROW as int, FINAL_EXP_T2_OFFSET as int, FINAL_EXP_T1_OFFSET as int, FINAL_EXP_T3_OFFSET as int) + cyc_exp_cs(T4_ROW as int, FINAL_EXP_T3_OFFSET as int, FINAL_EXP_T4_OFFSET as int) + conjugate_cs(T5_ROW as int, FINAL_EXP_T4_OFFSET as int, FINAL_EXP_T5_OFFSET as int) + cyc_sq_cs(T6_ROW as int, FINAL_EXP_T3_OFFSET as int, FINAL_EXP_T6_OFFSET as int) + conjugate_cs(T7_ROW as int, FINAL_EXP_T6_OFFSET as int, FINAL_EXP_T7_OFFSET as int) + mul_cs(T8_ROW as int, FINAL_EXP_T7_OFFSET as int, FINAL_EXP_T5_OFFSET as int, FINAL_EXP_T8_OFFSET as int) + cyc_exp_cs(T9_ROW as int, FINAL_EXP_T8_OFFSET as int, FINAL_EXP_T9_OFFSET as int) + conjugate_cs(T10_ROW as int, FINAL_EXP_T9_OFFSET as int, FINAL_EXP_T10_OFFSET as int) + cyc_exp_cs(T11_ROW as int, FINAL_EXP_T10_OFFSET as int, FINAL_EXP_T11_OFFSET as int) + conjugate_cs(T12_ROW as int, FINAL_EXP_T11_OFFSET as int, FINAL_EXP_T12_OFFSET as int) + cyc_exp_cs(T13_ROW as int, FINAL_EXP_T12_OFFSET as int, FINAL_EXP_T13_OFFSET as int) + conjugate_cs(T14_ROW as int, FINAL_EXP_T13_OFFSET as int, FINAL_EXP_T14_OFFSET as int) + cyc_sq_cs(T15_ROW as int, FINAL_EXP_T5_OFFSET as int, FINAL_EXP_T15_OFFSET as int) + mul_cs(T16_ROW as int, FINAL_EXP_T14_OFFSET as int, FINAL_EXP_T15_OFFSET as int, FINAL_EXP_T16_OFFSET as int) + cyc_exp_cs(T17_ROW as int, FINAL_EXP_T16_OFFSET as int, FINAL_EXP_T17_OFFSET as int) + conjugate_cs(T18_ROW as int, FINAL_EXP_T17_OFFSET as int, FINAL_EXP_T18_OFFSET as int) + mul_cs(T19_ROW as int, FINAL_EXP_T5_OFFSET as int, FINAL_EXP_T12_OFFSET as int, FINAL_EXP_T19_OFFSET as int) + forbenius_cs(T20_ROW as int, FINAL_EXP_T19_OFFSET as int, FINAL_EXP_T20_OFFSET as int, 2) + mul_cs(T21_ROW as int, FINAL_EXP_T10_OFFSET as int, FINAL_EXP_T3_OFFSET as int, FINAL_EXP_T21_OFFSET as int) + forbenius_cs(T22_ROW as int, FINAL_EXP_T21_OFFSET as int, FINAL_EXP_T22_OFFSET as int, 3) + conjugate_cs(T23_ROW as int, FINAL_EXP_T3_OFFSET as int, FINAL_EXP_T23_OFFSET as int) + mul_cs(T24_ROW as int, FINAL_EXP_T16_OFFSET as int, FINAL_EXP_T23_OFFSET as int, FINAL_EXP_T24_OFFSET as int) + forbenius_cs(T25_ROW as int, FINAL_EXP_T24_OFFSET as int, FINAL_EXP_T25_OFFSET as int, 1) + conjugate_cs(T26_ROW as int, FINAL_EXP_T8_OFFSET as int, FINAL_EXP_T26_OFFSET as int) + mul_cs(T27_ROW as int, FINAL_EXP_T18_OFFSET as int, FINAL_EXP_T26_OFFSET as int, FINAL_EXP_T27_OFFSET as int) + mul_cs(T28_ROW as int, FINAL_EXP_T27_OFFSET as int, FINAL_EXP_T3_OFFSET as int, FINAL_EXP_T28_OFFSET as int) + mul_cs(T29_ROW as int, FINAL_EXP_T20_OFFSET as int, FINAL_EXP_T22_OFFSET as int, FINAL_EXP_T29_OFFSET as int), mul_cs(T30_ROW as int, FINAL_EXP_T29_OFFSET as int, FINAL_EXP_T25_OFFSET as int, FINAL_EXP_T30_OFFSET as int), c);
        lemma_seq_add_contains(binds_cs(144) + first_row_cs(num_rows) + shift_cs(num_rows - 1) + last_row_cs( num_rows, num_rows, ) + invariance_cs(144) + forbenius_cs(T0_ROW as int, FINAL_EXP_INPUT_OFFSET as int, FINAL_EXP_T0_OFFSET as int, 6) + mul_cs(T1_ROW as int, FINAL_EXP_T1_OFFSET as int, FINAL_EXP_INPUT_OFFSET as int, FINAL_EXP_T0_OFFSET as int) + forbenius_cs(T2_ROW as int, FINAL_EXP_T1_OFFSET as int, FINAL_EXP_T2_OFFSET as int, 2) + mul_cs(T3_ROW as int, FINAL_EXP_T2_OFFSET as int, FINAL_EXP_T1_OFFSET as int, FINAL_EXP_T3_OFFSET as int) + cyc_exp_cs(T4_ROW as int, FINAL_EXP_T3_OFFSET as int, FINAL_EXP_T4_OFFSET as int) + conjugate_cs(T5_ROW as int, FINAL_EXP_T4_OFFSET as int, FINAL_EXP_T5_OFFSET as int) + cyc_sq_cs(T6_ROW as int, FINAL_EXP_T3_OFFSET as int, FINAL_EXP_T6_OFFSET as int) + conjugate_cs(T7_ROW as int, FINAL_EXP_T6_OFFSET as int, FINAL_EXP_T7_OFFSET as int) + mul_cs(T8_ROW as int, FINAL_EXP_T7_OFFSET as int, FINAL_EXP_T5_OFFSET as int, FINAL_EXP_T8_OFFSET as int) + cyc_exp_cs(T9_ROW as int, FINAL_EXP_T8_OFFSET as int, FINAL_EXP_T9_OFFSET as int) + conjugate_cs(T10_ROW as int, FINAL_EXP_T9_OFFSET as int, FINAL_EXP_T10_OFFSET as int) + cyc_exp_cs(T11_ROW as int, FINAL_EXP_T10_OFFSET as int, FINAL_EXP_T11_OFFSET as int) + conjugate_cs(T12_ROW as int, FINAL_EXP_T11_OFFSET as int, FINAL_EXP_T12_OFFSET as int) + cyc_exp_cs(T13_ROW as int, FINAL_EXP_T12_OFFSET as int, FINAL_EXP_T13_OFFSET as int) + conjugate_cs(T14_ROW as int, FINAL_EXP_T13_OFFSET as int, FINAL_EXP_T14_OFFSET as int) + cyc_sq_cs(T15_ROW as int, FINAL_EXP_T5_OFFSET as int, FINAL_EXP_T15_OFFSET as int) + mul_cs(T16_ROW as int, FINAL_EXP_T14_OFFSET as int, FINAL_EXP_T15_OFFSET as int, FINAL_EXP_T16_OFFSET as int) + cyc_exp_cs(T17_ROW as int, FINAL_EXP_T16_OFFSET as int, FINAL_EXP_T17_OFFSET as int) + conjugate_cs(T18_ROW as int, FINAL_EXP_T17_OFFSET as int, FINAL_EXP_T18_OFFSET as int) + mul_cs(T19_ROW as int, FINAL_EXP_T5_OFFSET as int, FINAL_EXP_T12_OFFSET as int, FINAL_EXP_T19_OFFSET as int) + forbenius_cs(T20_ROW as int, FINAL_EXP_T19_OFFSET as int, FINAL_EXP_T20_OFFSET as int, 2) + mul_cs(T21_ROW as int, FINAL_EXP_T10_OFFSET as int, FINAL_EXP_T3_OFFSET as int, FINAL_EXP_T21_OFFSET as int) + forbenius_cs(T22_ROW as int, FINAL_EXP_T21_OFFSET as int, FINAL_EXP_T22_OFFSET as int, 3) + conjugate_cs(T23_ROW as int, FINAL_EXP_T3_OFFSET as int, FINAL_EXP_T23_OFFSET as int) + mul_cs(T24_ROW as int, FINAL_EXP_T16_OFFSET as int, FINAL_EXP_T23_OFFSET as int, FINAL_EXP_T24_OFFSET as int) + forbenius_cs(T25_ROW as int, FINAL_EXP_T24_OFFSET as int, FINAL_EXP_T25_OFFSET as int, 1) + conjugate_cs(T26_ROW as int, FINAL_EXP_T8_OFFSET as int, FINAL_EXP_T26_OFFSET as int) + mul_cs(T27_ROW as int, FINAL_EXP_T18_OFFSET as int, FINAL_EXP_T26_OFFSET as int, FINAL_EXP_T27_OFFSET as int) + mul_cs(T28_ROW as int, FINAL_EXP_T27_OFFSET as int, FINAL_EXP_T3_OFFSET as int, FINAL_EXP_T28_OFFSET as int) + mul_cs(T29_ROW as int, FINAL_EXP_T20_OFFSET as int, FINAL_EXP_T22_OFFSET as int, FINAL_EXP_T29_OFFSET as int) + mul_cs(T30_ROW as int, FINAL_EXP_T29_OFFSET as int, FINAL_EXP_T25_OFFSET as int, FINAL_EXP_T30_OFFSET as int), mul_cs(T31_ROW as int, FINAL_EXP_T30_OFFSET as int, FINAL_EXP_T28_OFFSET as int, FINAL_EXP_T31_OFFSET as int), c);
    }
}

/// The row-invariance transition of limb `i` of the input register and of
/// result register `reg` are among the emitted constraints.
#[verifier::rlimit(100)]
pub proof fn lemma_invariance_constraints_emitted(num_rows: int, reg: int, i: int)
    requires
        0 <= reg < 32,
        0 <= i < 144,
    ensures
        stark_constraints_spec(num_rows).contains(
            Constraint::Transition {
                a: (FINAL_EXP_INPUT_OFFSET + i) as usize,
                b: (FINAL_EXP_INPUT_OFFSET + i) as usize,
            },
        ),
        stark_constraints_spec(num_rows).contains(
            Constraint::Transition {
                a: (FINAL_EXP_T0_OFFSET + 144 * reg + i) as usize,
                b: (FINAL_EXP_T0_OFFSET + 144 * reg + i) as usize,
            },
        ),
{
    let c1 = Constraint::Transition {
        a: (FINAL_EXP_INPUT_OFFSET + i) as usize,
        b: (FINAL_EXP_INPUT_OFFSET + i) as usize,
    };
    let c2 = Constraint::Transition {
        a: (FINAL_EXP_T0_OFFSET + 144 * reg + i) as usize,
        b: (FINAL_EXP_T0_OFFSET + 144 * reg + i) as usize,
    };
    lemma_invariance_cs_contains(144, i, reg);
    assert forall|c: Constraint| c == c1 || c == c2 implies #[trigger] stark_constraints_spec(
        num_rows,
    ).contains(c) by {
        lemma_seq_add_contains(binds_cs(144) + first_row_cs(num_rows) + shift_cs(num_rows - 1) + last_row_cs( num_rows, num_rows, ), invariance_cs(144), c);
        lemma_seq_add_contains(binds_cs(144) + first_row_cs(num_rows) + shift_cs(num_rows - 1) + last_row_cs( num_rows, num_rows, ) + invariance_cs(144), forbenius_cs(T0_ROW as int, FINAL_EXP_INPUT_OFFSET as int, FINAL_EXP_T0_OFFSET as int, 6), c);
        lemma_seq_add_contains(binds_cs(144) + first_row_cs(num_rows) + shift_cs(num_rows - 1) + last_row_cs( num_rows, num_rows, ) + invariance_cs(144) + forbenius_cs(T0_ROW as int, FINAL_EXP_INPUT_OFFSET as int, FINAL_EXP_T0_OFFSET as int, 6), mul_cs(T1_ROW as int, FINAL_EXP_T1_OFFSET as int, FINAL_EXP_INPUT_OFFSET as int, FINAL_EXP_T0_OFFSET as int), c);
        lemma_seq_add_contains(binds_cs(144) + first_row_cs(num_rows) + shift_cs(num_rows - 1) + last_row_cs( num_rows, num_rows, ) + invariance_cs(144) + forbenius_cs(T0_ROW as int, FINAL_EXP_INPUT_OFFSET as int, FINAL_EXP_T0_OFFSET as int, 6) + mul_cs(T1_ROW as int, FINAL_EXP_T1_OFFSET as int, FINAL_EXP_INPUT_OFFSET as int, FINAL_EXP_T0_OFFSET as int), forbenius_cs(T2_ROW as int, FINAL_EXP_T1_OFFSET as int, FINAL_EXP_T2_OFFSET as int, 2), c);
        lemma_seq_add_contains(binds_cs(144) + first_row_cs(num_rows) + shift_cs(num_rows - 1) + last_row_cs( num_rows, num_rows, ) + invariance_cs(144) + forbenius_cs(T0_ROW as int, FINAL_EXP_INPUT_OFFSET as int, FINAL_EXP_T0_OFFSET as int, 6) + mul_cs(T1_ROW as int, FINAL_EXP_T1_OFFSET as int, FINAL_EXP_INPUT_OFFSET as int, FINAL_EXP_T0_OFFSET as int) + forbenius_cs(T2_ROW as int, FINAL_EXP_T1_OFFSET as int, FINAL_EXP_T2_OFFSET as int, 2), mul_cs(T3_ROW as int, FINAL_EXP_T2_OFFSET as int, FINAL_EXP_T1_OFFSET as int, FINAL_EXP_T3_OFFSET as int), c);
        lemma_seq_add_contains(binds_cs(144) + first_row_cs(num_rows) + shift_cs(num_rows - 1) + last_row_cs( num_rows, num_rows, ) + invariance_cs(144) + forbenius_cs(T0_ROW as int, FINAL_EXP_INPUT_OFFSET as int, FINAL_EXP_T0_OFFSET as int, 6) + mul_cs(T1_ROW as int, FINAL_EXP_T1_OFFSET as int, FINAL_EXP_INPUT_OFFSET as int, FINAL_EXP_T0_OFFSET as int) + forbenius_cs(T2_ROW as int, FINAL_EXP_T1_OFFSET as int, FINAL_EXP_T2_OFFSET as int, 2) + mul_cs(T3_ROW as int, FINAL_EXP_T2_OFFSET as int, FINAL_EXP_T1_OFFSET as int, FINAL_EXP_T3_OFFSET as int), cyc_exp_cs(T4_ROW as int, FINAL_EXP_T3_OFFSET as int, FINAL_EXP_T4_OFFSET as int), c);
        lemma_seq_add_contains(binds_cs(144) + first_row_cs(num_rows) + shift_cs(num_rows - 1) + last_row_cs( num_rows, num_rows, ) + invariance_cs(144) + forbenius_cs(T0_ROW as int, FINAL_EXP_INPUT_OFFSET as int, FINAL_EXP_T0_OFFSET as int, 6) + mul_cs(T1_ROW as int, FINAL_EXP_T1_OFFSET as int, FINAL_EXP_INPUT_OFFSET as int, FINAL_EXP_T0_OFFSET as int) + forbenius_cs(T2_ROW as int, FINAL_EXP_T1_OFFSET as int, FINAL_EXP_T2_OFFSET as int, 2) + mul_cs(T3_ROW as int, FINAL_EXP_T2_OFFSET as int, FINAL_EXP_T1_OFFSET as int, FINAL_EXP_T3_OFFSET as int) + cyc_exp_cs(T4_ROW as int, FINAL_EXP_T3_OFFSET as int, FINAL_EXP_T4_OFFSET as int), conjugate_cs(T5_ROW as int, FINAL_EXP_T4_OFFSET as int, FINAL_EXP_T5_OFFSET as int), c);
        lemma_seq_add_contains(binds_cs(144) + first_row_cs(num_rows) + shift_cs(num_rows - 1) + last_row_cs( num_rows, num_rows, ) + invariance_cs(144) + forbenius_cs(T0_ROW as int, FINAL_EXP_INPUT_OFFSET as int, FINAL_EXP_T0_OFFSET as int, 6) + mul_cs(T1_ROW as int, FINAL_EXP_T1_OFFSET as int, FINAL_EXP_INPUT_OFFSET as int, FINAL_EXP_T0_OFFSET as int) + forbenius_cs(T2_ROW as int, FINAL_EXP_T1_OFFSET as int, FINAL_EXP_T2_OFFSET as int, 2) + mul_cs(T3_ROW as int, FINAL_EXP_T2_OFFSET as int, FINAL_EXP_T1_OFFSET as int, FINAL_EXP_T3_OFFSET as int) + cyc_exp_cs(T4_ROW as int, FINAL_EXP_T3_OFFSET as int, FINAL_EXP_T4_OFFSET as int) + conjugate_cs(T5_ROW as int, FINAL_EXP_T4_OFFSET as int, FINAL_EXP_T5_OFFSET as int), cyc_sq_cs(T6_ROW as int, FINAL_EXP_T3_OFFSET as int, FINAL_EXP_T6_OFFSET as int), c);
        lemma_seq_add_contains(binds_cs(144) + first_row_cs(num_rows) + shift_cs(num_rows - 1) + last_row_cs( num_rows, num_rows, ) + invariance_cs(144) + forbenius_cs(T0_ROW as int, FINAL_EXP_INPUT_OFFSET as int, FINAL_EXP_T0_OFFSET as int, 6) + mul_cs(T1_ROW as int, FINAL_EXP_T1_OFFSET as int, FINAL_EXP_INPUT_OFFSET as int, FINAL_EXP_T0_OFFSET as int) + forbenius_cs(T2_ROW as int, FINAL_EXP_T1_OFFSET as int, FINAL_EXP_T2_OFFSET as int, 2) + mul_cs(T3_ROW as int, FINAL_EXP_T2_OFFSET as int, FINAL_EXP_T1_OFFSET as int, FINAL_EXP_T3_OFFSET as int) + cyc_exp_cs(T4_ROW as int, FINAL_EXP_T3_OFFSET as int, FINAL_EXP_T4_OFFSET as int) + conjugate_cs(T5_ROW as int, FINAL_EXP_T4_OFFSET as int, FINAL_EXP_T5_OFFSET as int) + cyc_sq_cs(T6_ROW as int, FINAL_EXP_T3_OFFSET as int, FINAL_EXP_T6_OFFSET as int), conjugate_cs(T7_ROW as int, FINAL_EXP_T6_OFFSET as int, FINAL_EXP_T7_OFFSET as int), c);
        lemma_seq_add_contains(binds_cs(144) + first_row_cs(num_rows) + shift_cs(num_rows - 1) + last_row_cs( num_rows, num_rows, ) + invariance_cs(144) + forbenius_cs(T0_ROW as int, FINAL_EXP_INPUT_OFFSET as int, FINAL_EXP_T0_OFFSET as int, 6) + mul_cs(T1_ROW as int, FINAL_EXP_T1_OFFSET as int, FINAL_EXP_INPUT_OFFSET as int, FINAL_EXP_T0_OFFSET as int) + forbenius_cs(T2_ROW as int, FINAL_EXP_T1_OFFSET as int, FINAL_EXP_T2_OFFSET as int, 2) + mul_cs(T3_ROW as int, FINAL_EXP_T2_OFFSET as int, FINAL_EXP_T1_OFFSET as int, FINAL_EXP_T3_OFFSET as int) + cyc_exp_cs(T4_ROW as int, FINAL_EXP_T3_OFFSET as int, FINAL_EXP_T4_OFFSET as int) + conjugate_cs(T5_ROW as int, FINAL_EXP_T4_OFFSET as int, FINAL_EXP_T5_OFFSET as int) + cyc_sq_cs(T6_ROW as int, FINAL_EXP_T3_OFFSET as int, FINAL_EXP_T6_OFFSET as int) + conjugate_cs(T7_ROW as int, FINAL_EXP_T6_OFFSET as int, FINAL_EXP_T7_OFFSET as int), mul_cs(T8_ROW as int, FINAL_EXP_T7_OFFSET as int, FINAL_EXP_T5_OFFSET as int, FINAL_EXP_T8_OFFSET as int), c);
        lemma_seq_add_contains(binds_cs(144) + first_row_cs(num_rows) + shift_cs(num_rows - 1) + last_row_cs( num_rows, num_rows, ) + invariance_cs(144) + forbenius_cs(T0_ROW as int, FINAL_EXP_INPUT_OFFSET as int, FINAL_EXP_T0_OFFSET as int, 6) + mul_cs(T1_ROW as int, FINAL_EXP_T1_OFFSET as int, FINAL_EXP_INPUT_OFFSET as int, FINAL_EXP_T0_OFFSET as int) + forbenius_cs(T2_ROW as int, FINAL_EXP_T1_OFFSET as int, FINAL_EXP_T2_OFFSET as int, 2) + mul_cs(T3_ROW as int, FINAL_EXP_T2_OFFSET as int, FINAL_EXP_T1_OFFSET as int, FINAL_EXP_T3_OFFSET as int) + cyc_exp_cs(T4_ROW as int, FINAL_EXP_T3_OFFSET as int, FINAL_EXP_T4_OFFSET as int) + conjugate_cs(T5_ROW as int, FINAL_EXP_T4_OFFSET as int, FINAL_EXP_T5_OFFSET as int) + cyc_sq_cs(T6_ROW as int, FINAL_EXP_T3_OFFSET as int, FINAL_EXP_T6_OFFSET as int) + conjugate_cs(T7_ROW as int, FINAL_EXP_T6_OFFSET as int, FINAL_EXP_T7_OFFSET as int) + mul_cs(T8_ROW as int, FINAL_EXP_T7_OFFSET as int, FINAL_EXP_T5_OFFSET as int, FINAL_EXP_T8_OFFSET as int), cyc_exp_cs(T9_ROW as int, FINAL_EXP_T8_OFFSET as int, FINAL_EXP_T9_OFFSET as int), c);
        lemma_seq_add_contains(binds_cs(144) + first_row_cs(num_rows) + shift_cs(num_rows - 1) + last_row_cs( num_rows, num_rows, ) + invariance_cs(144) + forbenius_cs(T0_ROW as int, FINAL_EXP_INPUT_OFFSET as int, FINAL_EXP_T0_OFFSET as int, 6) + mul_cs(T1_ROW as int, FINAL_EXP_T1_OFFSET as int, FINAL_EXP_INPUT_OFFSET as int, FINAL_EXP_T0_OFFSET as int) + forbenius_cs(T2_ROW as int, FINAL_EXP_T1_OFFSET as int, FINAL_EXP_T2_OFFSET as int, 2) + mul_cs(T3_ROW as int, FINAL_EXP_T2_OFFSET as int, FINAL_EXP_T1_OFFSET as int, FINAL_EXP_T3_OFFSET as int) + cyc_exp_cs(T4_ROW as int, FINAL_EXP_T3_OFFSET as int, FINAL_EXP_T4_OFFSET as int) + conjugate_cs(T5_ROW as int, FINAL_EXP_T4_OFFSET as int, FINAL_EXP_T5_OFFSET as int) + cyc_sq_cs(T6_ROW as int, FINAL_EXP_T3_OFFSET as int, FINAL_EXP_T6_OFFSET as int) + conjugate_cs(T7_ROW as int, FINAL_EXP_T6_OFFSET as int, FINAL_EXP_T7_OFFSET as int) + mul_cs(T8_ROW as int, FINAL_EXP_T7_OFFSET as int, FINAL_EXP_T5_OFFSET as int, FINAL_EXP_T8_OFFSET as int) + cyc_exp_cs(T9_ROW as int, FINAL_EXP_T8_OFFSET as int, FINAL_EXP_T9_OFFSET as int), conjugate_cs(T10_ROW as int, FINAL_EXP_T9_OFFSET as int, FINAL_EXP_T10_OFFSET as int), c);
        lemma_seq_add_contains(binds_cs(144) + first_row_cs(num_rows) + shift_cs(num_rows - 1) + last_row_cs( num_rows, num_rows, ) + invariance_cs(144) + forbenius_cs(T0_ROW as int, FINAL_EXP_INPUT_OFFSET as int, FINAL_EXP_T0_OFFSET as int, 6) + mul_cs(T1_ROW as int, FINAL_EXP_T1_OFFSET as int, FINAL_EXP_INPUT_OFFSET as int, FINAL_EXP_T0_OFFSET as int) + forbenius_cs(T2_ROW as int, FINAL_EXP_T1_OFFSET as int, FINAL_EXP_T2_OFFSET as int, 2) + mul_cs(T3_ROW as int, FINAL_EXP_T2_OFFSET as int, FINAL_EXP_T1_OFFSET as int, FINAL_EXP_T3_OFFSET as int) + cyc_exp_cs(T4_ROW as int, FINAL_EXP_T3_OFFSET as int, FINAL_EXP_T4_OFFSET as int) + conjugate_cs(T5_ROW as int, FINAL_EXP_T4_OFFSET as int, FINAL_EXP_T5_OFFSET as int) + cyc_sq_cs(T6_ROW as int, FINAL_EXP_T3_OFFSET as int, FINAL_EXP_T6_OFFSET as int) + conjugate_cs(T7_ROW as int, FINAL_EXP_T6_OFFSET as int, FINAL_EXP_T7_OFFSET as int) + mul_cs(T8_ROW as int, FINAL_EXP_T7_OFFSET as int, FINAL_EXP_T5_OFFSET as int, FINAL_EXP_T8_OFFSET as int) + cyc_exp_cs(T9_ROW as int, FINAL_EXP_T8_OFFSET as int, FINAL_EXP_T9_OFFSET as int) + conjugate_cs(T10_ROW as int, FINAL_EXP_T9_OFFSET as int, FINAL_EXP_T10_OFFSET as int), cyc_exp_cs(T11_ROW as int, FINAL_EXP_T10_OFFSET as int, FINAL_EXP_T11_OFFSET as int), c);
        lemma_seq_add_contains(binds_cs(144) + first_row_cs(num_rows) + shift_cs(num_rows - 1) + last_row_cs( num_rows, num_rows, ) + invariance_cs(144) + forbenius_cs(T0_ROW as int, FINAL_EXP_INPUT_OFFSET as int, FINAL_EXP_T0_OFFSET as int, 6) + mul_cs(T1_ROW as int, FINAL_EXP_T1_OFFSET as int, FINAL_EXP_INPUT_OFFSET as int, FINAL_EXP_T0_OFFSET as int) + forbenius_cs(T2_ROW as int, FINAL_EXP_T1_OFFSET as int, FINAL_EXP_T2_OFFSET as int, 2) + mul_cs(T3_ROW as int, FINAL_EXP_T2_OFFSET as int, FINAL_EXP_T1_OFFSET as int, FINAL_EXP_T3_OFFSET as int) + cyc_exp_cs(T4_ROW as int, FINAL_EXP_T3_OFFSET as int, FINAL_EXP_T4_OFFSET as int) + conjugate_cs(T5_ROW as int, FINAL_EXP_T4_OFFSET as int, FINAL_EXP_T5_OFFSET as int) + cyc_sq_cs(T6_ROW as int, FINAL_EXP_T3_OFFSET as int, FINAL_EXP_T6_OFFSET as int) + conjugate_cs(T7_ROW as int, FINAL_EXP_T6_OFFSET as int, FINAL_EXP_T7_OFFSET as int) + mul_cs(T8_ROW as int, FINAL_EXP_T7_OFFSET as int, FINAL_EXP_T5_OFFSET as int, FINAL_EXP_T8_OFFSET as int) + cyc_exp_cs(T9_ROW as int, FINAL_EXP_T8_OFFSET as int, FINAL_EXP_T9_OFFSET as int) + conjugate_cs(T10_ROW as int, FINAL_EXP_T9_OFFSET as int, FINAL_EXP_T10_OFFSET as int) + cyc_exp_cs(T11_ROW as int, FINAL_EXP_T10_OFFSET as int, FINAL_EXP_T11_OFFSET as int), conjugate_cs(T12_ROW as int, FINAL_EXP_T11_OFFSET as int, FINAL_EXP_T12_OFFSET as int), c);
        lemma_seq_add_contains(binds_cs(144) + first_row_cs(num_rows) + shift_cs(num_rows - 1) + last_row_cs( num_rows, num_rows, ) + invariance_cs(144) + forbenius_cs(T0_ROW as int, FINAL_EXP_INPUT_OFFSET as int, FINAL_EXP_T0_OFFSET as int, 6) + mul_cs(T1_ROW as int, FINAL_EXP_T1_OFFSET as int, FINAL_EXP_INPUT_OFFSET as int, FINAL_EXP_T0_OFFSET as int) + forbenius_cs(T2_ROW as int, FINAL_EXP_T1_OFFSET as int, FINAL_EXP_T2_OFFSET as int, 2) + mul_cs(T3_ROW as int, FINAL_EXP_T2_OFFSET as int, FINAL_EXP_T1_OFFSET as int, FINAL_EXP_T3_OFFSET as int) + cyc_exp_cs(T4_ROW as int, FINAL_EXP_T3_OFFSET as int, FINAL_EXP_T4_OFFSET as int) + conjugate_cs(T5_ROW as int, FINAL_EXP_T4_OFFSET as int, FINAL_EXP_T5_OFFSET as int) + cyc_sq_cs(T6_ROW as int, FINAL_EXP_T3_OFFSET as int, FINAL_EXP_T6_OFFSET as int) + conjugate_cs(T7_ROW as int, FINAL_EXP_T6_OFFSET as int, FINAL_EXP_T7_OFFSET as int) + mul_cs(T8_ROW as int, FINAL_EXP_T7_OFFSET as int, FINAL_EXP_T5_OFFSET as int, FINAL_EXP_T8_OFFSET as int) + cyc_exp_cs(T9_ROW as int, FINAL_EXP_T8_OFFSET as int, FINAL_EXP_T9_OFFSET as int) + conjugate_cs(T10_ROW as int, FINAL_EXP_T9_OFFSET as int, FINAL_EXP_T10_OFFSET as int) + cyc_exp_cs(T11_ROW as int, FINAL_EXP_T10_OFFSET as int, FINAL_EXP_T11_OFFSET as int) + conjugate_cs(T12_ROW as int, FINAL_EXP_T11_OFFSET as int, FINAL_EXP_T12_OFFSET as int), cyc_exp_cs(T13_ROW as int, FINAL_EXP_T12_OFFSET as int, FINAL_EXP_T13_OFFSET as int), c);
        lemma_seq_add_contains(binds_cs(144) + first_row_cs(num_rows) + shift_cs(num_rows - 1) + last_row_cs( num_rows, num_rows, ) + invariance_cs(144) + forbenius_cs(T0_ROW as int, FINAL_EXP_INPUT_OFFSET as int, FINAL_EXP_T0_OFFSET as int, 6) + mul_cs(T1_ROW as int, FINAL_EXP_T1_OFFSET as int, FINAL_EXP_INPUT_OFFSET as int, FINAL_EXP_T0_OFFSET as int) + forbenius_cs(T2_ROW as int, FINAL_EXP_T1_OFFSET as int, FINAL_EXP_T2_OFFSET as int, 2) + mul_cs(T3_ROW as int, FINAL_EXP_T2_OFFSET as int, FINAL_EXP_T1_OFFSET as int, FINAL_EXP_T3_OFFSET as int) + cyc_exp_cs(T4_ROW as int, FINAL_EXP_T3_OFFSET as int, FINAL_EXP_T4_OFFSET as int) + conjugate_cs(T5_ROW as int, FINAL_EXP_T4_OFFSET as int, FINAL_EXP_T5_OFFSET as int) + cyc_sq_cs(T6_ROW as int, FINAL_EXP_T3_OFFSET as int, FINAL_EXP_T6_OFFSET as int) + conjugate_cs(T7_ROW as int, FINAL_EXP_T6_OFFSET as int, FINAL_EXP_T7_OFFSET as int) + mul_cs(T8_ROW as int, FINAL_EXP_T7_OFFSET as int, FINAL_EXP_T5_OFFSET as int, FINAL_EXP_T8_OFFSET as int) + cyc_exp_cs(T9_ROW as int, FINAL_EXP_T8_OFFSET as int, FINAL_EXP_T9_OFFSET as int) + conjugate_cs(T10_ROW as int, FINAL_EXP_T9_OFFSET as int, FINAL_EXP_T10_OFFSET as int) + cyc_exp_cs(T11_ROW as int, FINAL_EXP_T10_OFFSET as int, FINAL_EXP_T11_OFFSET as int) + conjugate_cs(T12_ROW as int, FINAL_EXP_T11_OFFSET as int, FINAL_EXP_T12_OFFSET as int) + cyc_exp_cs(T13_ROW as int, FINAL_EXP_T12_OFFSET as int, FINAL_EXP_T13_OFFSET as int), conjugate_cs(T14_ROW as int, FINAL_EXP_T13_OFFSET as int, FINAL_EXP_T14_OFFSET as int), c);
        lemma_seq_add_contains(binds_cs(144) + first_row_cs(num_rows) + shift_cs(num_rows - 1) + last_row_cs( num_rows, num_rows, ) + invariance_cs(144) + forbenius_cs(T0_ROW as int, FINAL_EXP_INPUT_OFFSET as int, FINAL_EXP_T0_OFFSET as int, 6) + mul_cs(T1_ROW as int, FINAL_EXP_T1_OFFSET as int, FINAL_EXP_INPUT_OFFSET as int, FINAL_EXP_T0_OFFSET as int) + forbenius_cs(T2_ROW as int, FINAL_EXP_T1_OFFSET as int, FINAL_EXP_T2_OFFSET as int, 2) + mul_cs(T3_ROW as int, FINAL_EXP_T2_OFFSET as int, FINAL_EXP_T1_OFFSET as int, FINAL_EXP_T3_OFFSET as int) + cyc_exp_cs(T4_ROW as int, FINAL_EXP_T3_OFFSET as int, FINAL_EXP_T4_OFFSET as int) + conjugate_cs(T5_ROW as int, FINAL_EXP_T4_OFFSET as int, FINAL_EXP_T5_OFFSET as int) + cyc_sq_cs(T6_ROW as int, FINAL_EXP_T3_OFFSET as int, FINAL_EXP_T6_OFFSET as int) + conjugate_cs(T7_ROW as int, FINAL_EXP_T6_OFFSET as int, FINAL_EXP_T7_OFFSET as int) + mul_cs(T8_ROW as int, FINAL_EXP_T7_OFFSET as int, FINAL_EXP_T5_OFFSET as int, FINAL_EXP_T8_OFFSET as int) + cyc_exp_cs(T9_ROW as int, FINAL_EXP_T8_OFFSET as int, FINAL_EXP_T9_OFFSET as int) + conjugate_cs(T10_ROW as int, FINAL_EXP_T9_OFFSET as int, FINAL_EXP_T10_OFFSET as int) + cyc_exp_cs(T11_ROW as int, FINAL_EXP_T10_OFFSET as int, FINAL_EXP_T11_OFFSET as int) + conjugate_cs(T12_ROW as int, FINAL_EXP_T11_OFFSET as int, FINAL_EXP_T12_OFFSET as int) + cyc_exp_cs(T13_ROW as int, FINAL_EXP_T12_OFFSET as int, FINAL_EXP_T13_OFFSET as int) + conjugate_cs(T14_ROW as int, FINAL_EXP_T13_OFFSET as int, FINAL_EXP_T14_OFFSET as int), cyc_sq_cs(T15_ROW as int, FINAL_EXP_T5_OFFSET as int, FINAL_EXP_T15_OFFSET as int), c);
        lemma_seq_add_contains(binds_cs(144) + first_row_cs(num_rows) + shift_cs(num_rows - 1) + last_row_cs( num_rows, num_rows, ) + invariance_cs(144) + forbenius_cs(T0_ROW as int, FINAL_EXP_INPUT_OFFSET as int, FINAL_EXP_T0_OFFSET as int, 6) + mul_cs(T1_ROW as int, FINAL_EXP_T1_OFFSET as int, FINAL_EXP_INPUT_OFFSET as int, FINAL_EXP_T0_OFFSET as int) + forbenius_cs(T2_ROW as int, FINAL_EXP_T1_OFFSET as int, FINAL_EXP_T2_OFFSET as int, 2) + mul_cs(T3_ROW as int, FINAL_EXP_T2_OFFSET as int, FINAL_EXP_T1_OFFSET as int, FINAL_EXP_T3_OFFSET as int) + cyc_exp_cs(T4_ROW as int, FINAL_EXP_T3_OFFSET as int, FINAL_EXP_T4_OFFSET as int) + conjugate_cs(T5_ROW as int, FINAL_EXP_T4_OFFSET as int, FINAL_EXP_T5_OFFSET as int) + cyc_sq_cs(T6_ROW as int, FINAL_EXP_T3_OFFSET as int, FINAL_EXP_T6_OFFSET as int) + conjugate_cs(T7_ROW as int, FINAL_EXP_T6_OFFSET as int, FINAL_EXP_T7_OFFSET as int) + mul_cs(T8_ROW as int, FINAL_EXP_T7_OFFSET as int, FINAL_EXP_T5_OFFSET as int, FINAL_EXP_T8_OFFSET as int) + cyc_exp_cs(T9_ROW as int, FINAL_EXP_T8_OFFSET as int, FINAL_EXP_T9_OFFSET as int) + conjugate_cs(T10_ROW as int, FINAL_EXP_T9_OFFSET as int, FINAL_EXP_T10_OFFSET as int) + cyc_exp_cs(T11_ROW as int, FINAL_EXP_T10_OFFSET as int, FINAL_EXP_T11_OFFSET as int) + conjugate_cs(T12_ROW as int, FINAL_EXP_T11_OFFSET as int, FINAL_EXP_T12_OFFSET as int) + cyc_exp_cs(T13_ROW as int, FINAL_EXP_T12_OFFSET as int, FINAL_EXP_T13_OFFSET as int) + conjugate_cs(T14_ROW as int, FINAL_EXP_T13_OFFSET as int, FINAL_EXP_T14_OFFSET as int) + cyc_sq_cs(T15_ROW as int, FINAL_EXP_T5_OFFSET as int, FINAL_EXP_T15_OFFSET as int), mul_cs(T16_ROW as int, FINAL_EXP_T14_OFFSET as int, FINAL_EXP_T15_OFFSET as int, FINAL_EXP_T16_OFFSET as int), c);
        lemma_seq_add_contains(binds_cs(144) + first_row_cs(num_rows) + shift_cs(num_rows - 1) + last_row_cs( num_rows, num_rows, ) + invariance_cs(144) + forbenius_cs(T0_ROW as int, FINAL_EXP_INPUT_OFFSET as int, FINAL_EXP_T0_OFFSET as int, 6) + mul_cs(T1_ROW as int, FINAL_EXP_T1_OFFSET as int, FINAL_EXP_INPUT_OFFSET as int, FINAL_EXP_T0_OFFSET as int) + forbenius_cs(T2_ROW as int, FINAL_EXP_T1_OFFSET as int, FINAL_EXP_T2_OFFSET as int, 2) + mul_cs(T3_ROW as int, FINAL_EXP_T2_OFFSET as int, FINAL_EXP_T1_OFFSET as int, FINAL_EXP_T3_OFFSET as int) + cyc_exp_cs(T4_ROW as int, FINAL_EXP_T3_OFFSET as int, FINAL_EXP_T4_OFFSET as int) + conjugate_cs(T5_ROW as int, FINAL_EXP_T4_OFFSET as int, FINAL_EXP_T5_OFFSET as int) + cyc_sq_cs(T6_ROW as int, FINAL_EXP_T3_OFFSET as int, FINAL_EXP_T6_OFFSET as int) + conjugate_cs(T7_ROW as int, FINAL_EXP_T6_OFFSET as int, FINAL_EXP_T7_OFFSET as int) + mul_cs(T8_ROW as int, FINAL_EXP_T7_OFFSET as int, FINAL_EXP_T5_OFFSET as int, FINAL_EXP_T8_OFFSET as int) + cyc_exp_cs(T9_ROW as int, FINAL_EXP_T8_OFFSET as int, FINAL_EXP_T9_OFFSET as int) + conjugate_cs(T10_ROW as int, FINAL_EXP_T9_OFFSET as int, FINAL_EXP_T10_OFFSET as int) + cyc_exp_cs(T11_ROW as int, FINAL_EXP_T10_OFFSET as int, FINAL_EXP_T11_OFFSET as int) + conjugate_cs(T12_ROW as int, FINAL_EXP_T11_OFFSET as int, FINAL_EXP_T12_OFFSET as int) + cyc_exp_cs(T13_ROW as int, FINAL_EXP_T12_OFFSET as int, FINAL_EXP_T13_OFFSET as int) + conjugate_cs(T14_ROW as int, FINAL_EXP_T13_OFFSET as int, FINAL_EXP_T14_OFFSET as int) + cyc_sq_cs(T15_ROW as int, FINAL_EXP_T5_OFFSET as int, FINAL_EXP_T15_OFFSET as int) + mul_cs(T16_ROW as int, FINAL_EXP_T14_OFFSET as int, FINAL_EXP_T15_OFFSET as int, FINAL_EXP_T16_OFFSET as int), cyc_exp_cs(T17_ROW as int, FINAL_EXP_T16_OFFSET as int, FINAL_EXP_T17_OFFSET as int), c);
        lemma_seq_add_contains(binds_cs(144) + first_row_cs(num_rows) + shift_cs(num_rows - 1) + last_row_cs( num_rows, num_rows, ) + invariance_cs(144) + forbenius_cs(T0_ROW as int, FINAL_EXP_INPUT_OFFSET as int, FINAL_EXP_T0_OFFSET as int, 6) + mul_cs(T1_ROW as int, FINAL_EXP_T1_OFFSET as int, FINAL_EXP_INPUT_OFFSET as int, FINAL_EXP_T0_OFFSET as int) + forbenius_cs(T2_ROW as int, FINAL_EXP_T1_OFFSET as int, FINAL_EXP_T2_OFFSET as int, 2) + mul_cs(T3_ROW as int, FINAL_EXP_T2_OFFSET as int, FINAL_EXP_T1_OFFSET as int, FINAL_EXP_T3_OFFSET as int) + cyc_exp_cs(T4_ROW as int, FINAL_EXP_T3_OFFSET as int, FINAL_EXP_T4_OFFSET as int) + conjugate_cs(T5_ROW as int, FINAL_EXP_T4_OFFSET as int, FINAL_EXP_T5_OFFSET as int) + cyc_sq_cs(T6_ROW as int, FINAL_EXP_T3_OFFSET as int, FINAL_EXP_T6_OFFSET as int) + conjugate_cs(T7_ROW as int, FINAL_EXP_T6_OFFSET as int, FINAL_EXP_T7_OFFSET as int) + mul_cs(T8_ROW as int, FINAL_EXP_T7_OFFSET as int, FINAL_EXP_T5_OFFSET as int, FINAL_EXP_T8_OFFSET as int) + cyc_exp_cs(T9_ROW as int, FINAL_EXP_T8_OFFSET as int, FINAL_EXP_T9_OFFSET as int) + conjugate_cs(T10_ROW as int, FINAL_EXP_T9_OFFSET as int, FINAL_EXP_T10_OFFSET as int) + cyc_exp_cs(T11_ROW as int, FINAL_EXP_T10_OFFSET as int, FINAL_EXP_T11_OFFSET as int) + conjugate_cs(T12_ROW as int, FINAL_EXP_T11_OFFSET as int, FINAL_EXP_T12_OFFSET as int) + cyc_exp_cs(T13_ROW as int, FINAL_EXP_T12_OFFSET as int, FINAL_EXP_T13_OFFSET as int) + conjugate_cs(T14_ROW as int, FINAL_EXP_T13_OFFSET as int, FINAL_EXP_T14_OFFSET as int) + cyc_sq_cs(T15_ROW as int, FINAL_EXP_T5_OFFSET as int, FINAL_EXP_T15_OFFSET as int) + mul_cs(T16_ROW as int, FINAL_EXP_T14_OFFSET as int, FINAL_EXP_T15_OFFSET as int, FINAL_EXP_T16_OFFSET as int) + cyc_exp_cs(T17_ROW as int, FINAL_EXP_T16_OFFSET as int, FINAL_EXP_T17_OFFSET as int), conjugate_cs(T18_ROW as int, FINAL_EXP_T17_OFFSET as int, FINAL_EXP_T18_OFFSET as int), c);
        lemma_seq_add_contains(binds_cs(144) + first_row_cs(num_rows) + shift_cs(num_rows - 1) + last_row_cs( num_rows, num_rows, ) + invariance_cs(144) + forbenius_cs(T0_ROW as int, FINAL_EXP_INPUT_OFFSET as int, FINAL_EXP_T0_OFFSET as int, 6) + mul_cs(T1_ROW as int, FINAL_EXP_T1_OFFSET as int, FINAL_EXP_INPUT_OFFSET as int, FINAL_EXP_T0_OFFSET as int) + forbenius_cs(T2_ROW as int, FINAL_EXP_T1_OFFSET as int, FINAL_EXP_T2_OFFSET as int, 2) + mul_cs(T3_ROW as int, FINAL_EXP_T2_OFFSET as int, FINAL_EXP_T1_OFFSET as int, FINAL_EXP_T3_OFFSET as int) + cyc_exp_cs(T4_ROW as int, FINAL_EXP_T3_OFFSET as int, FINAL_EXP_T4_OFFSET as int) + conjugate_cs(T5_ROW as int, FINAL_EXP_T4_OFFSET as int, FINAL_EXP_T5_OFFSET as int) + cyc_sq_cs(T6_ROW as int, FINAL_EXP_T3_OFFSET as int, FINAL_EXP_T6_OFFSET as int) + conjugate_cs(T7_ROW as int, FINAL_EXP_T6_OFFSET as int, FINAL_EXP_T7_OFFSET as int) + mul_cs(T8_ROW as int, FINAL_EXP_T7_OFFSET as int, FINAL_EXP_T5_OFFSET as int, FINAL_EXP_T8_OFFSET as int) + cyc_exp_cs(T9_ROW as int, FINAL_EXP_T8_OFFSET as int, FINAL_EXP_T9_OFFSET as int) + conjugate_cs(T10_ROW as int, FINAL_EXP_T9_OFFSET as int, FINAL_EXP_T10_OFFSET as int) + cyc_exp_cs(T11_ROW as int, FINAL_EXP_T10_OFFSET as int, FINAL_EXP_T11_OFFSET as int) + conjugate_cs(T12_ROW as int, FINAL_EXP_T11_OFFSET as int, FINAL_EXP_T12_OFFSET as int) + cyc_exp_cs(T13_ROW as int, FINAL_EXP_T12_OFFSET as int, FINAL_EXP_T13_OFFSET as int) + conjugate_cs(T14_ROW as int, FINAL_EXP_T13_OFFSET as int, FINAL_EXP_T14_OFFSET as int) + cyc_sq_cs(T15_ROW as int, FINAL_EXP_T5_OFFSET as int, FINAL_EXP_T15_OFFSET as int) + mul_cs(T16_ROW as int, FINAL_EXP_T14_OFFSET as int, FINAL_EXP_T15_OFFSET as int, FINAL_EXP_T16_OFFSET as int) + cyc_exp_cs(T17_ROW as int, FINAL_EXP_T16_OFFSET as int, FINAL_EXP_T17_OFFSET as int) + conjugate_cs(T18_ROW as int, FINAL_EXP_T17_OFFSET as int, FINAL_EXP_T18_OFFSET as int), mul_cs(T19_ROW as int, FINAL_EXP_T5_OFFSET as int, FINAL_EXP_T12_OFFSET as int, FINAL_EXP_T19_OFFSET as int), c);
        lemma_seq_add_contains(binds_cs(144) + first_row_cs(num_rows) + shift_cs(num_rows - 1) + last_row_cs( num_rows, num_rows, ) + invariance_cs(144) + forbenius_cs(T0_ROW as int, FINAL_EXP_INPUT_OFFSET as int, FINAL_EXP_T0_OFFSET as int, 6) + mul_cs(T1_ROW as int, FINAL_EXP_T1_OFFSET as int, FINAL_EXP_INPUT_OFFSET as int, FINAL_EXP_T0_OFFSET as int) + forbenius_cs(T2_ROW as int, FINAL_EXP_T1_OFFSET as int, FINAL_EXP_T2_OFFSET as int, 2) + mul_cs(T3_ROW as int, FINAL_EXP_T2_OFFSET as int, FINAL_EXP_T1_OFFSET as int, FINAL_EXP_T3_OFFSET as int) + cyc_exp_cs(T4_ROW as int, FINAL_EXP_T3_OFFSET as int, FINAL_EXP_T4_OFFSET as int) + conjugate_cs(T5_ROW as int, FINAL_EXP_T4_OFFSET as int, FINAL_EXP_T5_OFFSET as int) + cyc_sq_cs(T6_ROW as int, FINAL_EXP_T3_OFFSET as int, FINAL_EXP_T6_OFFSET as int) + conjugate_cs(T7_ROW as int, FINAL_EXP_T6_OFFSET as int, FINAL_EXP_T7_OFFSET as int) + mul_cs(T8_ROW as int, FINAL_EXP_T7_OFFSET as int, FINAL_EXP_T5_OFFSET as int, FINAL_EXP_T8_OFFSET as int) + cyc_exp_cs(T9_ROW as int, FINAL_EXP_T8_OFFSET as int, FINAL_EXP_T9_OFFSET as int) + conjugate_cs(T10_ROW as int, FINAL_EXP_T9_OFFSET as int, FINAL_EXP_T10_OFFSET as int) + cyc_exp_cs(T11_ROW as int, FINAL_EXP_T10_OFFSET as int, FINAL_EXP_T11_OFFSET as int) + conjugate_cs(T12_ROW as int, FINAL_EXP_T11_OFFSET as int, FINAL_EXP_T12_OFFSET as int) + cyc_exp_cs(T13_ROW as int, FINAL_EXP_T12_OFFSET as int, FINAL_EXP_T13_OFFSET as int) + conjugate_cs(T14_ROW as int, FINAL_EXP_T13_OFFSET as int, FINAL_EXP_T14_OFFSET as int) + cyc_sq_cs(T15_ROW as int, FINAL_EXP_T5_OFFSET as int, FINAL_EXP_T15_OFFSET as int) + mul_cs(T16_ROW as int, FINAL_EXP_T14_OFFSET as int, FINAL_EXP_T15_OFFSET as int, FINAL_EXP_T16_OFFSET as int) + cyc_exp_cs(T17_ROW as int, FINAL_EXP_T16_OFFSET as int, FINAL_EXP_T17_OFFSET as int) + conjugate_cs(T18_ROW as int, FINAL_EXP_T17_OFFSET as int, FINAL_EXP_T18_OFFSET as int) + mul_cs(T19_ROW as int, FINAL_EXP_T5_OFFSET as int, FINAL_EXP_T12_OFFSET as int, FINAL_EXP_T19_OFFSET as int), forbenius_cs(T20_ROW as int, FINAL_EXP_T19_OFFSET as int, FINAL_EXP_T20_OFFSET as int, 2), c);
        lemma_seq_add_contains(binds_cs(144) + first_row_cs(num_rows) + shift_cs(num_rows - 1) + last_row_cs( num_rows, num_rows, ) + invariance_cs(144) + forbenius_cs(T0_ROW as int, FINAL_EXP_INPUT_OFFSET as int, FINAL_EXP_T0_OFFSET as int, 6) + mul_cs(T1_ROW as int, FINAL_EXP_T1_OFFSET as int, FINAL_EXP_INPUT_OFFSET as int, FINAL_EXP_T0_OFFSET as int) + forbenius_cs(T2_ROW as int, FINAL_EXP_T1_OFFSET as int, FINAL_EXP_T2_OFFSET as int, 2) + mul_cs(T3_ROW as int, FINAL_EXP_T2_OFFSET as int, FINAL_EXP_T1_OFFSET as int, FINAL_EXP_T3_OFFSET as int) + cyc_exp_cs(T4_ROW as int, FINAL_EXP_T3_OFFSET as int, FINAL_EXP_T4_OFFSET as int) + conjugate_cs(T5_ROW as int, FINAL_EXP_T4_OFFSET as int, FINAL_EXP_T5_OFFSET as int) + cyc_sq_cs(T6_ROW as int, FINAL_EXP_T3_OFFSET as int, FINAL_EXP_T6_OFFSET as int) + conjugate_cs(T7_ROW as int, FINAL_EXP_T6_OFFSET as int, FINAL_EXP_T7_OFFSET as int) + mul_cs(T8_ROW as int, FINAL_EXP_T7_OFFSET as int, FINAL_EXP_T5_OFFSET as int, FINAL_EXP_T8_OFFSET as int) + cyc_exp_cs(T9_ROW as int, FINAL_EXP_T8_OFFSET as int, FINAL_EXP_T9_OFFSET as int) + conjugate_cs(T10_ROW as int, FINAL_EXP_T9_OFFSET as int, FINAL_EXP_T10_OFFSET as int) + cyc_exp_cs(T11_ROW as int, FINAL_EXP_T10_OFFSET as int, FINAL_EXP_T11_OFFSET as int) + conjugate_cs(T12_ROW as int, FINAL_EXP_T11_OFFSET as int, FINAL_EXP_T12_OFFSET as int) + cyc_exp_cs(T13_ROW as int, FINAL_EXP_T12_OFFSET as int, FINAL_EXP_T13_OFFSET as int) + conjugate_cs(T14_ROW as int, FINAL_EXP_T13_OFFSET as int, FINAL_EXP_T14_OFFSET as int) + cyc_sq_cs(T15_ROW as int, FINAL_EXP_T5_OFFSET as int, FINAL_EXP_T15_OFFSET as int) + mul_cs(T16_ROW as int, FINAL_EXP_T14_OFFSET as int, FINAL_EXP_T15_OFFSET as int, FINAL_EXP_T16_OFFSET as int) + cyc_exp_cs(T17_ROW as int, FINAL_EXP_T16_OFFSET as int, FINAL_EXP_T17_OFFSET as int) + conjugate_cs(T18_ROW as int, FINAL_EXP_T17_OFFSET as int, FINAL_EXP_T18_OFFSET as int) + mul_cs(T19_ROW as int, FINAL_EXP_T5_OFFSET as int, FINAL_EXP_T12_OFFSET as int, FINAL_EXP_T19_OFFSET as int) + forbenius_cs(T20_ROW as int, FINAL_EXP_T19_OFFSET as int, FINAL_EXP_T20_OFFSET as int, 2), mul_cs(T21_ROW as int, FINAL_EXP_T10_OFFSET as int, FINAL_EXP_T3_OFFSET as int, FINAL_EXP_T21_OFFSET as int), c);
        lemma_seq_add_contains(binds_cs(144) + first_row_cs(num_rows) + shift_cs(num_rows - 1) + last_row_cs( num_rows, num_rows, ) + invariance_cs(144) + forbenius_cs(T0_ROW as int, FINAL_EXP_INPUT_OFFSET as int, FINAL_EXP_T0_OFFSET as int, 6) + mul_cs(T1_ROW as int, FINAL_EXP_T1_OFFSET as int, FINAL_EXP_INPUT_OFFSET as int, FINAL_EXP_T0_OFFSET as int) + forbenius_cs(T2_ROW as int, FINAL_EXP_T1_OFFSET as int, FINAL_EXP_T2_OFFSET as int, 2) + mul_cs(T3_ROW as int, FINAL_EXP_T2_OFFSET as int, FINAL_EXP_T1_OFFSET as int, FINAL_EXP_T3_OFFSET as int) + cyc_exp_cs(T4_ROW as int, FINAL_EXP_T3_OFFSET as int, FINAL_EXP_T4_OFFSET as int) + conjugate_cs(T5_ROW as int, FINAL_EXP_T4_OFFSET as int, FINAL_EXP_T5_OFFSET as int) + cyc_sq_cs(T6_ROW as int, FINAL_EXP_T3_OFFSET as int, FINAL_EXP_T6_OFFSET as int) + conjugate_cs(T7_ROW as int, FINAL_EXP_T6_OFFSET as int, FINAL_EXP_T7_OFFSET as int) + mul_cs(T8_ROW as int, FINAL_EXP_T7_OFFSET as int, FINAL_EXP_T5_OFFSET as int, FINAL_EXP_T8_OFFSET as int) + cyc_exp_cs(T9_ROW as int, FINAL_EXP_T8_OFFSET as int, FINAL_EXP_T9_OFFSET as int) + conjugate_cs(T10_ROW as int, FINAL_EXP_T9_OFFSET as int, FINAL_EXP_T10_OFFSET as int) + cyc_exp_cs(T11_ROW as int, FINAL_EXP_T10_OFFSET as int, FINAL_EXP_T11_OFFSET as int) + conjugate_cs(T12_ROW as int, FINAL_EXP_T11_OFFSET as int, FINAL_EXP_T12_OFFSET as int) + cyc_exp_cs(T13_ROW as int, FINAL_EXP_T12_OFFSET as int, FINAL_EXP_T13_OFFSET as int) + conjugate_cs(T14_ROW as int, FINAL_EXP_T13_OFFSET as int, FINAL_EXP_T14_OFFSET as int) + cyc_sq_cs(T15_ROW as int, FINAL_EXP_T5_OFFSET as int, FINAL_EXP_T15_OFFSET as int) + mul_cs(T16_ROW as int, FINAL_EXP_T14_OFFSET as int, FINAL_EXP_T15_OFFSET as int, FINAL_EXP_T16_OFFSET as int) + cyc_exp_cs(T17_ROW as int, FINAL_EXP_T16_OFFSET as int, FINAL_EXP_T17_OFFSET as int) + conjugate_cs(T18_ROW as int, FINAL_EXP_T17_OFFSET as int, FINAL_EXP_T18_OFFSET as int) + mul_cs(T19_ROW as int, FINAL_EXP_T5_OFFSET as int, FINAL_EXP_T12_OFFSET as int, FINAL_EXP_T19_OFFSET as int) + forbenius_cs(T20_ROW as int, FINAL_EXP_T19_OFFSET as int, FINAL_EXP_T20_OFFSET as int, 2) + mul_cs(T21_ROW as int, FINAL_EXP_T10_OFFSET as int, FINAL_EXP_T3_OFFSET as int, FINAL_EXP_T21_OFFSET as int), forbenius_cs(T22_ROW as int, FINAL_EXP_T21_OFFSET as int, FINAL_EXP_T22_OFFSET as int, 3), c);
        lemma_seq_add_contains(binds_cs(144) + first_row_cs(num_rows) + shift_cs(num_rows - 1) + last_row_cs( num_rows, num_rows, ) + invariance_cs(144) + forbenius_cs(T0_ROW as int, FINAL_EXP_INPUT_OFFSET as int, FINAL_EXP_T0_OFFSET as int, 6) + mul_cs(T1_ROW as int, FINAL_EXP_T1_OFFSET as int, FINAL_EXP_INPUT_OFFSET as int, FINAL_EXP_T0_OFFSET as int) + forbenius_cs(T2_ROW as int, FINAL_EXP_T1_OFFSET as int, FINAL_EXP_T2_OFFSET as int, 2) + mul_cs(T3_ROW as int, FINAL_EXP_T2_OFFSET as int, FINAL_EXP_T1_OFFSET as int, FINAL_EXP_T3_OFFSET as int) + cyc_exp_cs(T4_ROW as int, FINAL_EXP_T3_OFFSET as int, FINAL_EXP_T4_OFFSET as int) + conjugate_cs(T5_ROW as int, FINAL_EXP_T4_OFFSET as int, FINAL_EXP_T5_OFFSET as int) + cyc_sq_cs(T6_ROW as int, FINAL_EXP_T3_OFFSET as int, FINAL_EXP_T6_OFFSET as int) + conjugate_cs(T7_ROW as int, FINAL_EXP_T6_OFFSET as int, FINAL_EXP_T7_OFFSET as int) + mul_cs(T8_ROW as int, FINAL_EXP_T7_OFFSET as int, FINAL_EXP_T5_OFFSET as int, FINAL_EXP_T8_OFFSET as int) + cyc_exp_cs(T9_ROW as int, FINAL_EXP_T8_OFFSET as int, FINAL_EXP_T9_OFFSET as int) + conjugate_cs(T10_ROW as int, FINAL_EXP_T9_OFFSET as int, FINAL_EXP_T10_OFFSET as int) + cyc_exp_cs(T11_ROW as int, FINAL_EXP_T10_OFFSET as int, FINAL_EXP_T11_OFFSET as int) + conjugate_cs(T12_ROW as int, FINAL_EXP_T11_OFFSET as int, FINAL_EXP_T12_OFFSET as int) + cyc_exp_cs(T13_ROW as int, FINAL_EXP_T12_OFFSET as int, FINAL_EXP_T13_OFFSET as int) + conjugate_cs(T14_ROW as int, FINAL_EXP_T13_OFFSET as int, FINAL_EXP_T14_OFFSET as int) + cyc_sq_cs(T15_ROW as int, FINAL_EXP_T5_OFFSET as int, FINAL_EXP_T15_OFFSET as int) + mul_cs(T16_ROW as int, FINAL_EXP_T14_OFFSET as int, FINAL_EXP_T15_OFFSET as int, FINAL_EXP_T16_OFFSET as int) + cyc_exp_cs(T17_ROW as int, FINAL_EXP_T16_OFFSET as int, FINAL_EXP_T17_OFFSET as int) + conjugate_cs(T18_ROW as int, FINAL_EXP_T17_OFFSET as int, FINAL_EXP_T18_OFFSET as int) + mul_cs(T19_ROW as int, FINAL_EXP_T5_OFFSET as int, FINAL_EXP_T12_OFFSET as int, FINAL_EXP_T19_OFFSET as int) + forbenius_cs(T20_ROW as int, FINAL_EXP_T19_OFFSET as int, FINAL_EXP_T20_OFFSET as int, 2) + mul_cs(T21_ROW as int, FINAL_EXP_T10_OFFSET as int, FINAL_EXP_T3_OFFSET as int, FINAL_EXP_T21_OFFSET as int) + forbenius_cs(T22_ROW as int, FINAL_EXP_T21_OFFSET as int, FINAL_EXP_T22_OFFSET as int, 3), conjugate_cs(T23_ROW as int, FINAL_EXP_T3_OFFSET as int, FINAL_EXP_T23_OFFSET as int), c);
        lemma_seq_add_contains(binds_cs(144) + first_row_cs(num_rows) + shift_cs(num_rows - 1) + last_row_cs( num_rows, num_rows, ) + invariance_cs(144) + forbenius_cs(T0_ROW as int, FINAL_EXP_INPUT_OFFSET as int, FINAL_EXP_T0_OFFSET as int, 6) + mul_cs(T1_ROW as int, FINAL_EXP_T1_OFFSET as int, FINAL_EXP_INPUT_OFFSET as int, FINAL_EXP_T0_OFFSET as int) + forbenius_cs(T2_ROW as int, FINAL_EXP_T1_OFFSET as int, FINAL_EXP_T2_OFFSET as int, 2) + mul_cs(T3_ROW as int, FINAL_EXP_T2_OFFSET as int, FINAL_EXP_T1_OFFSET as int, FINAL_EXP_T3_OFFSET as int) + cyc_exp_cs(T4_ROW as int, FINAL_EXP_T3_OFFSET as int, FINAL_EXP_T4_OFFSET as int) + conjugate_cs(T5_ROW as int, FINAL_EXP_T4_OFFSET as int, FINAL_EXP_T5_OFFSET as int) + cyc_sq_cs(T6_ROW as int, FINAL_EXP_T3_OFFSET as int, FINAL_EXP_T6_OFFSET as int) + conjugate_cs(T7_ROW as int, FINAL_EXP_T6_OFFSET as int, FINAL_EXP_T7_OFFSET as int) + mul_cs(T8_ROW as int, FINAL_EXP_T7_OFFSET as int, FINAL_EXP_T5_OFFSET as int, FINAL_EXP_T8_OFFSET as int) + cyc_exp_cs(T9_ROW as int, FINAL_EXP_T8_OFFSET as int, FINAL_EXP_T9_OFFSET as int) + conjugate_cs(T10_ROW as int, FINAL_EXP_T9_OFFSET as int, FINAL_EXP_T10_OFFSET as int) + cyc_exp_cs(T11_ROW as int, FINAL_EXP_T10_OFFSET as int, FINAL_EXP_T11_OFFSET as int) + conjugate_cs(T12_ROW as int, FINAL_EXP_T11_OFFSET as int, FINAL_EXP_T12_OFFSET as int) + cyc_exp_cs(T13_ROW as int, FINAL_EXP_T12_OFFSET as int, FINAL_EXP_T13_OFFSET as int) + conjugate_cs(T14_ROW as int, FINAL_EXP_T13_OFFSET as int, FINAL_EXP_T14_OFFSET as int) + cyc_sq_cs(T15_ROW as int, FINAL_EXP_T5_OFFSET as int, FINAL_EXP_T15_OFFSET as int) + mul_cs(T16_ROW as int, FINAL_EXP_T14_OFFSET as int, FINAL_EXP_T15_OFFSET as int, FINAL_EXP_T16_OFFSET as int) + cyc_exp_cs(T17_ROW as int, FINAL_EXP_T16_OFFSET as int, FINAL_EXP_T17_OFFSET as int) + conjugate_cs(T18_ROW as int, FINAL_EXP_T17_OFFSET as int, FINAL_EXP_T18_OFFSET as int) + mul_cs(T19_ROW as int, FINAL_EXP_T5_OFFSET as int, FINAL_EXP_T12_OFFSET as int, FINAL_EXP_T19_OFFSET as int) + forbenius_cs(T20_ROW as int, FINAL_EXP_T19_OFFSET as int, FINAL_EXP_T20_OFFSET as int, 2) + mul_cs(T21_ROW as int, FINAL_EXP_T10_OFFSET as int, FINAL_EXP_T3_OFFSET as int, FINAL_EXP_T21_OFFSET as int) + forbenius_cs(T22_ROW as int, FINAL_EXP_T21_OFFSET as int, FINAL_EXP_T22_OFFSET as int, 3) + conjugate_cs(T23_ROW as int, FINAL_EXP_T3_OFFSET as int, FINAL_EXP_T23_OFFSET as int), mul_cs(T24_ROW as int, FINAL_EXP_T16_OFFSET as int, FINAL_EXP_T23_OFFSET as int, FINAL_EXP_T24_OFFSET as int), c);
        lemma_seq_add_contains(binds_cs(144) + first_row_cs(num_rows) + shift_cs(num_rows - 1) + last_row_cs( num_rows, num_rows, ) + invariance_cs(144) + forbenius_cs(T0_ROW as int, FINAL_EXP_INPUT_OFFSET as int, FINAL_EXP_T0_OFFSET as int, 6) + mul_cs(T1_ROW as int, FINAL_EXP_T1_OFFSET as int, FINAL_EXP_INPUT_OFFSET as int, FINAL_EXP_T0_OFFSET as int) + forbenius_cs(T2_ROW as int, FINAL_EXP_T1_OFFSET as int, FINAL_EXP_T2_OFFSET as int, 2) + mul_cs(T3_ROW as int, FINAL_EXP_T2_OFFSET as int, FINAL_EXP_T1_OFFSET as int, FINAL_EXP_T3_OFFSET as int) + cyc_exp_cs(T4_ROW as int, FINAL_EXP_T3_OFFSET as int, FINAL_EXP_T4_OFFSET as int) + conjugate_cs(T5_ROW as int, FINAL_EXP_T4_OFFSET as int, FINAL_EXP_T5_OFFSET as int) + cyc_sq_cs(T6_ROW as int, FINAL_EXP_T3_OFFSET as int, FINAL_EXP_T6_OFFSET as int) + conjugate_cs(T7_ROW as int, FINAL_EXP_T6_OFFSET as int, FINAL_EXP_T7_OFFSET as int) + mul_cs(T8_ROW as int, FINAL_EXP_T7_OFFSET as int, FINAL_EXP_T5_OFFSET as int, FINAL_EXP_T8_OFFSET as int) + cyc_exp_cs(T9_ROW as int, FINAL_EXP_T8_OFFSET as int, FINAL_EXP_T9_OFFSET as int) + conjugate_cs(T10_ROW as int, FINAL_EXP_T9_OFFSET as int, FINAL_EXP_T10_OFFSET as int) + cyc_exp_cs(T11_ROW as int, FINAL_EXP_T10_OFFSET as int, FINAL_EXP_T11_OFFSET as int) + conjugate_cs(T12_ROW as int, FINAL_EXP_T11_OFFSET as int, FINAL_EXP_T12_OFFSET as int) + cyc_exp_cs(T13_ROW as int, FINAL_EXP_T12_OFFSET as int, FINAL_EXP_T13_OFFSET as int) + conjugate_cs(T14_ROW as int, FINAL_EXP_T13_OFFSET as int, FINAL_EXP_T14_OFFSET as int) + cyc_sq_cs(T15_ROW as int, FINAL_EXP_T5_OFFSET as int, FINAL_EXP_T15_OFFSET as int) + mul_cs(T16_ROW as int, FINAL_EXP_T14_OFFSET as int, FINAL_EXP_T15_OFFSET as int, FINAL_EXP_T16_OFFSET as int) + cyc_exp_cs(T17_ROW as int, FINAL_EXP_T16_OFFSET as int, FINAL_EXP_T17_OFFSET as int) + conjugate_cs(T18_ROW as int, FINAL_EXP_T17_OFFSET as int, FINAL_EXP_T18_OFFSET as int) + mul_cs(T19_ROW as int, FINAL_EXP_T5_OFFSET as int, FINAL_EXP_T12_OFFSET as int, FINAL_EXP_T19_OFFSET as int) + forbenius_cs(T20_ROW as int, FINAL_EXP_T19_OFFSET as int, FINAL_EXP_T20_OFFSET as int, 2) + mul_cs(T21_ROW as int, FINAL_EXP_T10_OFFSET as int, FINAL_EXP_T3_OFFSET as int, FINAL_EXP_T21_OFFSET as int) + forbenius_cs(T22_ROW as int, FINAL_EXP_T21_OFFSET as int, FINAL_EXP_T22_OFFSET as int, 3) + conjugate_cs(T23_ROW as int, FINAL_EXP_T3_OFFSET as int, FINAL_EXP_T23_OFFSET as int) + mul_cs(T24_ROW as int, FINAL_EXP_T16_OFFSET as int, FINAL_EXP_T23_OFFSET as int, FINAL_EXP_T24_OFFSET as int), forbenius_cs(T25_ROW as int, FINAL_EXP_T24_OFFSET as int, FINAL_EXP_T25_OFFSET as int, 1), c);
        lemma_seq_add_contains(binds_cs(144) + first_row_cs(num_rows) + shift_cs(num_rows - 1) + last_row_cs( num_rows, num_rows, ) + invariance_cs(144) + forbenius_cs(T0_ROW as int, FINAL_EXP_INPUT_OFFSET as int, FINAL_EXP_T0_OFFSET as int, 6) + mul_cs(T1_ROW as int, FINAL_EXP_T1_OFFSET as int, FINAL_EXP_INPUT_OFFSET as int, FINAL_EXP_T0_OFFSET as int) + forbenius_cs(T2_ROW as int, FINAL_EXP_T1_OFFSET as int, FINAL_EXP_T2_OFFSET as int, 2) + mul_cs(T3_ROW as int, FINAL_EXP_T2_OFFSET as int, FINAL_EXP_T1_OFFSET as int, FINAL_EXP_T3_OFFSET as int) + cyc_exp_cs(T4_ROW as int, FINAL_EXP_T3_OFFSET as int, FINAL_EXP_T4_OFFSET as int) + conjugate_cs(T5_ROW as int, FINAL_EXP_T4_OFFSET as int, FINAL_EXP_T5_OFFSET as int) + cyc_sq_cs(T6_ROW as int, FINAL_EXP_T3_OFFSET as int, FINAL_EXP_T6_OFFSET as int) + conjugate_cs(T7_ROW as int, FINAL_EXP_T6_OFFSET as int, FINAL_EXP_T7_OFFSET as int) + mul_cs(T8_ROW as int, FINAL_EXP_T7_OFFSET as int, FINAL_EXP_T5_OFFSET as int, FINAL_EXP_T8_OFFSET as int) + cyc_exp_cs(T9_ROW as int, FINAL_EXP_T8_OFFSET as int, FINAL_EXP_T9_OFFSET as int) + conjugate_cs(T10_ROW as int, FINAL_EXP_T9_OFFSET as int, FINAL_EXP_T10_OFFSET as int) + cyc_exp_cs(T11_ROW as int, FINAL_EXP_T10_OFFSET as int, FINAL_EXP_T11_OFFSET as int) + conjugate_cs(T12_ROW as int, FINAL_EXP_T11_OFFSET as int, FINAL_EXP_T12_OFFSET as int) + cyc_exp_cs(T13_ROW as int, FINAL_EXP_T12_OFFSET as int, FINAL_EXP_T13_OFFSET as int) + conjugate_cs(T14_ROW as int, FINAL_EXP_T13_OFFSET as int, FINAL_EXP_T14_OFFSET as int) + cyc_sq_cs(T15_ROW as int, FINAL_EXP_T5_OFFSET as int, FINAL_EXP_T15_OFFSET as int) + mul_cs(T16_ROW as int, FINAL_EXP_T14_OFFSET as int, FINAL_EXP_T15_OFFSET as int, FINAL_EXP_T16_OFFSET as int) + cyc_exp_cs(T17_ROW as int, FINAL_EXP_T16_OFFSET as int, FINAL_EXP_T17_OFFSET as int) + conjugate_cs(T18_ROW as int, FINAL_EXP_T17_OFFSET as int, FINAL_EXP_T18_OFFSET as int) + mul_cs(T19_ROW as int, FINAL_EXP_T5_OFFSET as int, FINAL_EXP_T12_OFFSET as int, FINAL_EXP_T19_OFFSET as int) + forbenius_cs(T20_ROW as int, FINAL_EXP_T19_OFFSET as int, FINAL_EXP_T20_OFFSET as int, 2) + mul_cs(T21_ROW as int, FINAL_EXP_T10_OFFSET as int, FINAL_EXP_T3_OFFSET as int, FINAL_EXP_T21_OFFSET as int) + forbenius_cs(T22_ROW as int, FINAL_EXP_T21_OFFSET as int, FINAL_EXP_T22_OFFSET as int, 3) + conjugate_cs(T23_ROW as int, FINAL_EXP_T3_OFFSET as int, FINAL_EXP_T23_OFFSET as int) + mul_cs(T24_ROW as int, FINAL_EXP_T16_OFFSET as int, FINAL_EXP_T23_OFFSET as int, FINAL_EXP_T24_OFFSET as int) + forbenius_cs(T25_ROW as int, FINAL_EXP_T24_OFFSET as int, FINAL_EXP_T25_OFFSET as int, 1), conjugate_cs(T26_ROW as int, FINAL_EXP_T8_OFFSET as int, FINAL_EXP_T26_OFFSET as int), c);
        lemma_seq_add_contains(binds_cs(144) + first_row_cs(num_rows) + shift_cs(num_rows - 1) + last_row_cs( num_rows, num_rows, ) + invariance_cs(144) + forbenius_cs(T0_ROW as int, FINAL_EXP_INPUT_OFFSET as int, FINAL_EXP_T0_OFFSET as int, 6) + mul_cs(T1_ROW as int, FINAL_EXP_T1_OFFSET as int, FINAL_EXP_INPUT_OFFSET as int, FINAL_EXP_T0_OFFSET as int) + forbenius_cs(T2_ROW as int, FINAL_EXP_T1_OFFSET as int, FINAL_EXP_T2_OFFSET as int, 2) + mul_cs(T3_ROW as int, FINAL_EXP_T2_OFFSET as int, FINAL_EXP_T1_OFFSET as int, FINAL_EXP_T3_OFFSET as int) + cyc_exp_cs(T4_ROW as int, FINAL_EXP_T3_OFFSET as int, FINAL_EXP_T4_OFFSET as int) + conjugate_cs(T5_ROW as int, FINAL_EXP_T4_OFFSET as int, FINAL_EXP_T5_OFFSET as int) + cyc_sq_cs(T6_ROW as int, FINAL_EXP_T3_OFFSET as int, FINAL_EXP_T6_OFFSET as int) + conjugate_cs(T7_ROW as int, FINAL_EXP_T6_OFFSET as int, FINAL_EXP_T7_OFFSET as int) + mul_cs(T8_ROW as int, FINAL_EXP_T7_OFFSET as int, FINAL_EXP_T5_OFFSET as int, FINAL_EXP_T8_OFFSET as int) + cyc_exp_cs(T9_ROW as int, FINAL_EXP_T8_OFFSET as int, FINAL_EXP_T9_OFFSET as int) + conjugate_cs(T10_ROW as int, FINAL_EXP_T9_OFFSET as int, FINAL_EXP_T10_OFFSET as int) + cyc_exp_cs(T11_ROW as int, FINAL_EXP_T10_OFFSET as int, FINAL_EXP_T11_OFFSET as int) + conjugate_cs(T12_ROW as int, FINAL_EXP_T11_OFFSET as int, FINAL_EXP_T12_OFFSET as int) + cyc_exp_cs(T13_ROW as int, FINAL_EXP_T12_OFFSET as int, FINAL_EXP_T13_OFFSET as int) + conjugate_cs(T14_ROW as int, FINAL_EXP_T13_OFFSET as int, FINAL_EXP_T14_OFFSET as int) + cyc_sq_cs(T15_ROW as int, FINAL_EXP_T5_OFFSET as int, FINAL_EXP_T15_OFFSET as int) + mul_cs(T16_ROW as int, FINAL_EXP_T14_OFFSET as int, FINAL_EXP_T15_OFFSET as int, FINAL_EXP_T16_OFFSET as int) + cyc_exp_cs(T17_ROW as int, FINAL_EXP_T16_OFFSET as int, FINAL_EXP_T17_OFFSET as int) + conjugate_cs(T18_ROW as int, FINAL_EXP_T17_OFFSET as int, FINAL_EXP_T18_OFFSET as int) + mul_cs(T19_ROW as int, FINAL_EXP_T5_OFFSET as int, FINAL_EXP_T12_OFFSET as int, FINAL_EXP_T19_OFFSET as int) + forbenius_cs(T20_ROW as int, FINAL_EXP_T19_OFFSET as int, FINAL_EXP_T20_OFFSET as int, 2) + mul_cs(T21_ROW as int, FINAL_EXP_T10_OFFSET as int, FINAL_EXP_T3_OFFSET as int, FINAL_EXP_T21_OFFSET as int) + forbenius_cs(T22_ROW as int, FINAL_EXP_T21_OFFSET as int, FINAL_EXP_T22_OFFSET as int, 3) + conjugate_cs(T23_ROW as int, FINAL_EXP_T3_OFFSET as int, FINAL_EXP_T23_OFFSET as int) + mul_cs(T24_ROW as int, FINAL_EXP_T16_OFFSET as int, FINAL_EXP_T23_OFFSET as int, FINAL_EXP_T24_OFFSET as int) + forbenius_cs(T25_ROW as int, FINAL_EXP_T24_OFFSET as int, FINAL_EXP_T25_OFFSET as int, 1) + conjugate_cs(T26_ROW as int, FINAL_EXP_T8_OFFSET as int, FINAL_EXP_T26_OFFSET as int), mul_cs(T27_ROW as int, FINAL_EXP_T18_OFFSET as int, FINAL_EXP_T26_OFFSET as int, FINAL_EXP_T27_OFFSET as int), c);
        lemma_seq_add_contains(binds_cs(144) + first_row_cs(num_rows) + shift_cs(num_rows - 1) + last_row_cs( num_rows, num_rows, ) + invariance_cs(144) + forbenius_cs(T0_ROW as int, FINAL_EXP_INPUT_OFFSET as int, FINAL_EXP_T0_OFFSET as int, 6) + mul_cs(T1_ROW as int, FINAL_EXP_T1_OFFSET as int, FINAL_EXP_INPUT_OFFSET as int, FINAL_EXP_T0_OFFSET as int) + forbenius_cs(T2_ROW as int, FINAL_EXP_T1_OFFSET as int, FINAL_EXP_T2_OFFSET as int, 2) + mul_cs(T3_ROW as int, FINAL_EXP_T2_OFFSET as int, FINAL_EXP_T1_OFFSET as int, FINAL_EXP_T3_OFFSET as int) + cyc_exp_cs(T4_ROW as int, FINAL_EXP_T3_OFFSET as int, FINAL_EXP_T4_OFFSET as int) + conjugate_cs(T5_ROW as int, FINAL_EXP_T4_OFFSET as int, FINAL_EXP_T5_OFFSET as int) + cyc_sq_cs(T6_ROW as int, FINAL_EXP_T3_OFFSET as int, FINAL_EXP_T6_OFFSET as int) + conjugate_cs(T7_ROW as int, FINAL_EXP_T6_OFFSET as int, FINAL_EXP_T7_OFFSET as int) + mul_cs(T8_ROW as int, FINAL_EXP_T7_OFFSET as int, FINAL_EXP_T5_OFFSET as int, FINAL_EXP_T8_OFFSET as int) + cyc_exp_cs(T9_ROW as int, FINAL_EXP_T8_OFFSET as int, FINAL_EXP_T9_OFFSET as int) + conjugate_cs(T10_ROW as int, FINAL_EXP_T9_OFFSET as int, FINAL_EXP_T10_OFFSET as int) + cyc_exp_cs(T11_ROW as int, FINAL_EXP_T10_OFFSET as int, FINAL_EXP_T11_OFFSET as int) + conjugate_cs(T12_ROW as int, FINAL_EXP_T11_OFFSET as int, FINAL_EXP_T12_OFFSET as int) + cyc_exp_cs(T13_ROW as int, FINAL_EXP_T12_OFFSET as int, FINAL_EXP_T13_OFFSET as int) + conjugate_cs(T14_ROW as int, FINAL_EXP_T13_OFFSET as int, FINAL_EXP_T14_OFFSET as int) + cyc_sq_cs(T15_ROW as int, FINAL_EXP_T5_OFFSET as int, FINAL_EXP_T15_OFFSET as int) + mul_cs(T16_ROW as int, FINAL_EXP_T14_OFFSET as int, FINAL_EXP_T15_OFFSET as int, FINAL_EXP_T16_OFFSET as int) + cyc_exp_cs(T17_ROW as int, FINAL_EXP_T16_OFFSET as int, FINAL_EXP_T17_OFFSET as int) + conjugate_cs(T18_ROW as int, FINAL_EXP_T17_OFFSET as int, FINAL_EXP_T18_OFFSET as int) + mul_cs(T19_ROW as int, FINAL_EXP_T5_OFFSET as int, FINAL_EXP_T12_OFFSET as int, FINAL_EXP_T19_OFFSET as int) + forbenius_cs(T20_ROW as int, FINAL_EXP_T19_OFFSET as int, FINAL_EXP_T20_OFFSET as int, 2) + mul_cs(T21_ROW as int, FINAL_EXP_T10_OFFSET as int, FINAL_EXP_T3_OFFSET as int, FINAL_EXP_T21_OFFSET as int) + forbenius_cs(T22_ROW as int, FINAL_EXP_T21_OFFSET as int, FINAL_EXP_T22_OFFSET as int, 3) + conjugate_cs(T23_ROW as int, FINAL_EXP_T3_OFFSET as int, FINAL_EXP_T23_OFFSET as int) + mul_cs(T24_ROW as int, FINAL_EXP_T16_OFFSET as int, FINAL_EXP_T23_OFFSET as int, FINAL_EXP_T24_OFFSET as int) + forbenius_cs(T25_ROW as int, FINAL_EXP_T24_OFFSET as int, FINAL_EXP_T25_OFFSET as int, 1) + conjugate_cs(T26_ROW as int, FINAL_EXP_T8_OFFSET as int, FINAL_EXP_T26_OFFSET as int) + mul_cs(T27_ROW as int, FINAL_EXP_T18_OFFSET as int, FINAL_EXP_T26_OFFSET as int, FINAL_EXP_T27_OFFSET as int), mul_cs(T28_ROW as int, FINAL_EXP_T27_OFFSET as int, FINAL_EXP_T3_OFFSET as int, FINAL_EXP_T28_OFFSET as int), c);
        lemma_seq_add_contains(binds_cs(144) + first_row_cs(num_rows) + shift_cs(num_rows - 1) + last_row_cs( num_rows, num_rows, ) + invariance_cs(144) + forbenius_cs(T0_ROW as int, FINAL_EXP_INPUT_OFFSET as int, FINAL_EXP_T0_OFFSET as int, 6) + mul_cs(T1_ROW as int, FINAL_EXP_T1_OFFSET as int, FINAL_EXP_INPUT_OFFSET as int, FINAL_EXP_T0_OFFSET as int) + forbenius_cs(T2_ROW as int, FINAL_EXP_T1_OFFSET as int, FINAL_EXP_T2_OFFSET as int, 2) + mul_cs(T3_ROW as int, FINAL_EXP_T2_OFFSET as int, FINAL_EXP_T1_OFFSET as int, FINAL_EXP_T3_OFFSET as int) + cyc_exp_cs(T4_ROW as int, FINAL_EXP_T3_OFFSET as int, FINAL_EXP_T4_OFFSET as int) + conjugate_cs(T5_ROW as int, FINAL_EXP_T4_OFFSET as int, FINAL_EXP_T5_OFFSET as int) + cyc_sq_cs(T6_ROW as int, FINAL_EXP_T3_OFFSET as int, FINAL_EXP_T6_OFFSET as int) + conjugate_cs(T7_ROW as int, FINAL_EXP_T6_OFFSET as int, FINAL_EXP_T7_OFFSET as int) + mul_cs(T8_ROW as int, FINAL_EXP_T7_OFFSET as int, FINAL_EXP_T5_OFFSET as int, FINAL_EXP_T8_OFFSET as int) + cyc_exp_cs(T9_ROW as int, FINAL_EXP_T8_OFFSET as int, FINAL_EXP_T9_OFFSET as int) + conjugate_cs(T10_ROW as int, FINAL_EXP_T9_OFFSET as int, FINAL_EXP_T10_OFFSET as int) + cyc_exp_cs(T11_ROW as int, FINAL_EXP_T10_OFFSET as int, FINAL_EXP_T11_OFFSET as int) + conjugate_cs(T12_ROW as int, FINAL_EXP_T11_OFFSET as int, FINAL_EXP_T12_OFFSET as int) + cyc_exp_cs(T13_ROW as int, FINAL_EXP_T12_OFFSET as int, FINAL_EXP_T13_OFFSET as int) + conjugate_cs(T14_ROW as int, FINAL_EXP_T13_OFFSET as int, FINAL_EXP_T14_OFFSET as int) + cyc_sq_cs(T15_ROW as int, FINAL_EXP_T5_OFFSET as int, FINAL_EXP_T15_OFFSET as int) + mul_cs(T16_ROW as int, FINAL_EXP_T14_OFFSET as int, FINAL_EXP_T15_OFFSET as int, FINAL_EXP_T16_OFFSET as int) + cyc_exp_cs(T17_ROW as int, FINAL_EXP_T16_OFFSET as int, FINAL_EXP_T17_OFFSET as int) + conjugate_cs(T18_ROW as int, FINAL_EXP_T17_OFFSET as int, FINAL_EXP_T18_OFFSET as int) + mul_cs(T19_ROW as int, FINAL_EXP_T5_OFFSET as int, FINAL_EXP_T12_OFFSET as int, FINAL_EXP_T19_OFFSET as int) + forbenius_cs(T20_ROW as int, FINAL_EXP_T19_OFFSET as int, FINAL_EXP_T20_OFFSET as int, 2) + mul_cs(T21_ROW as int, FINAL_EXP_T10_OFFSET as int, FINAL_EXP_T3_OFFSET as int, FINAL_EXP_T21_OFFSET as int) + forbenius_cs(T22_ROW as int, FINAL_EXP_T21_OFFSET as int, FINAL_EXP_T22_OFFSET as int, 3) + conjugate_cs(T23_ROW as int, FINAL_EXP_T3_OFFSET as int, FINAL_EXP_T23_OFFSET as int) + mul_cs(T24_ROW as int, FINAL_EXP_T16_OFFSET as int, FINAL_EXP_T23_OFFSET as int, FINAL_EXP_T24_OFFSET as int) + forbenius_cs(T25_ROW as int, FINAL_EXP_T24_OFFSET as int, FINAL_EXP_T25_OFFSET as int, 1) + conjugate_cs(T26_ROW as int, FINAL_EXP_T8_OFFSET as int, FINAL_EXP_T26_OFFSET as int) + mul_cs(T27_ROW as int, FINAL_EXP_T18_OFFSET as int, FINAL_EXP_T26_OFFSET as int, FINAL_EXP_T27_OFFSET as int) + mul_cs(T28_ROW as int, FINAL_EXP_T27_OFFSET as int, FINAL_EXP_T3_OFFSET as int, FINAL_EXP_T28_OFFSET as int), mul_cs(T29_ROW as int, FINAL_EXP_T20_OFFSET as int, FINAL_EXP_T22_OFFSET as int, FINAL_EXP_T29_OFFSET as int), c);
        lemma_seq_add_contains(binds_cs(144) + first_row_cs(num_rows) + shift_cs(num_rows - 1) + last_row_cs( num_rows, num_rows, ) + invariance_cs(144) + forbenius_cs(T0_ROW as int, FINAL_EXP_INPUT_OFFSET as int, FINAL_EXP_T0_OFFSET as int, 6) + mul_cs(T1_ROW as int, FINAL_EXP_T1_OFFSET as int, FINAL_EXP_INPUT_OFFSET as int, FINAL_EXP_T0_OFFSET as int) + forbenius_cs(T2_ROW as int, FINAL_EXP_T1_OFFSET as int, FINAL_EXP_T2_OFFSET as int, 2) + mul_cs(T3_ROW as int, FINAL_EXP_T2_OFFSET as int, FINAL_EXP_T1_OFFSET as int, FINAL_EXP_T3_OFFSET as int) + cyc_exp_cs(T4_ROW as int, FINAL_EXP_T3_OFFSET as int, FINAL_EXP_T4_OFFSET as int) + conjugate_cs(T5_ROW as int, FINAL_EXP_T4_OFFSET as int, FINAL_EXP_T5_OFFSET as int) + cyc_sq_cs(T6_ROW as int, FINAL_EXP_T3_OFFSET as int, FINAL_EXP_T6_OFFSET as int) + conjugate_cs(T7_ROW as int, FINAL_EXP_T6_OFFSET as int, FINAL_EXP_T7_OFFSET as int) + mul_cs(T8_ROW as int, FINAL_EXP_T7_OFFSET as int, FINAL_EXP_T5_OFFSET as int, FINAL_EXP_T8_OFFSET as int) + cyc_exp_cs(T9_ROW as int, FINAL_EXP_T8_OFFSET as int, FINAL_EXP_T9_OFFSET as int) + conjugate_cs(T10_ROW as int, FINAL_EXP_T9_OFFSET as int, FINAL_EXP_T10_OFFSET as int) + cyc_exp_cs(T11_ROW as int, FINAL_EXP_T10_OFFSET as int, FINAL_EXP_T11_OFFSET as int) + conjugate_cs(T12_ROW as int, FINAL_EXP_T11_OFFSET as int, FINAL_EXP_T12_OFFSET as int) + cyc_exp_cs(T13_ROW as int, FINAL_EXP_T12_OFFSET as int, FINAL_EXP_T13_OFFSET as int) + conjugate_cs(T14_ROW as int, FINAL_EXP_T13_OFFSET as int, FINAL_EXP_T14_OFFSET as int) + cyc_sq_cs(T15_ROW as int, FINAL_EXP_T5_OFFSET as int, FINAL_EXP_T15_OFFSET as int) + mul_cs(T16_ROW as int, FINAL_EXP_T14_OFFSET as int, FINAL_EXP_T15_OFFSET as int, FINAL_EXP_T16_OFFSET as int) + cyc_exp_cs(T17_ROW as int, FINAL_EXP_T16_OFFSET as int, FINAL_EXP_T17_OFFSET as int) + conjugate_cs(T18_ROW as int, FINAL_EXP_T17_OFFSET as int, FINAL_EXP_T18_OFFSET as int) + mul_cs(T19_ROW as int, FINAL_EXP_T5_OFFSET as int, FINAL_EXP_T12_OFFSET as int, FINAL_EXP_T19_OFFSET as int) + forbenius_cs(T20_ROW as int, FINAL_EXP_T19_OFFSET as int, FINAL_EXP_T20_OFFSET as int, 2) + mul_cs(T21_ROW as int, FINAL_EXP_T10_OFFSET as int, FINAL_EXP_T3_OFFSET as int, FINAL_EXP_T21_OFFSET as int) + forbenius_cs(T22_ROW as int, FINAL_EXP_T21_OFFSET as int, FINAL_EXP_T22_OFFSET as int, 3) + conjugate_cs(T23_ROW as int, FINAL_EXP_T3_OFFSET as int, FINAL_EXP_T23_OFFSET as int) + mul_cs(T24_ROW as int, FINAL_EXP_T16_OFFSET as int, FINAL_EXP_T23_OFFSET as int, FINAL_EXP_T24_OFFSET as int) + forbenius_cs(T25_ROW as int, FINAL_EXP_T24_OFFSET as int, FINAL_EXP_T25_OFFSET as int, 1) + conjugate_cs(T26_ROW as int, FINAL_EXP_T8_OFFSET as int, FINAL_EXP_T26_OFFSET as int) + mul_cs(T27_ROW as int, FINAL_EXP_T18_OFFSET as int, FINAL_EXP_T26_OFFSET as int, FINAL_EXP_T27_OFFSET as int) + mul_cs(T28_ROW as int, FINAL_EXP_T27_OFFSET as int, FINAL_EXP_T3_OFFSET as int, FINAL_EXP_T28_OFFSET as int) + mul_cs(T29_ROW as int, FINAL_EXP_T20_OFFSET as int, FINAL_EXP_T22_OFFSET as int, FINAL_EXP_T29_OFFSET as int), mul_cs(T30_ROW as int, FINAL_EXP_T29_OFFSET as int, FINAL_EXP_T25_OFFSET as int, FINAL_EXP_T30_OFFSET as int), c);
        lemma_seq_add_contains(binds_cs(144) + first_row_cs(num_rows) + shift_cs(num_rows - 1) + last_row_cs( num_rows, num_rows, ) + invariance_cs(144) + forbenius_cs(T0_ROW as int, FINAL_EXP_INPUT_OFFSET as int, FINAL_EXP_T0_OFFSET as int, 6) + mul_cs(T1_ROW as int, FINAL_EXP_T1_OFFSET as int, FINAL_EXP_INPUT_OFFSET as int, FINAL_EXP_T0_OFFSET as int) + forbenius_cs(T2_ROW as int, FINAL_EXP_T1_OFFSET as int, FINAL_EXP_T2_OFFSET as int, 2) + mul_cs(T3_ROW as int, FINAL_EXP_T2_OFFSET as int, FINAL_EXP_T1_OFFSET as int, FINAL_EXP_T3_OFFSET as int) + cyc_exp_cs(T4_ROW as int, FINAL_EXP_T3_OFFSET as int, FINAL_EXP_T4_OFFSET as int) + conjugate_cs(T5_ROW as int, FINAL_EXP_T4_OFFSET as int, FINAL_EXP_T5_OFFSET as int) + cyc_sq_cs(T6_ROW as int, FINAL_EXP_T3_OFFSET as int, FINAL_EXP_T6_OFFSET as int) + conjugate_cs(T7_ROW as int, FINAL_EXP_T6_OFFSET as int, FINAL_EXP_T7_OFFSET as int) + mul_cs(T8_ROW as int, FINAL_EXP_T7_OFFSET as int, FINAL_EXP_T5_OFFSET as int, FINAL_EXP_T8_OFFSET as int) + cyc_exp_cs(T9_ROW as int, FINAL_EXP_T8_OFFSET as int, FINAL_EXP_T9_OFFSET as int) + conjugate_cs(T10_ROW as int, FINAL_EXP_T9_OFFSET as int, FINAL_EXP_T10_OFFSET as int) + cyc_exp_cs(T11_ROW as int, FINAL_EXP_T10_OFFSET as int, FINAL_EXP_T11_OFFSET as int) + conjugate_cs(T12_ROW as int, FINAL_EXP_T11_OFFSET as int, FINAL_EXP_T12_OFFSET as int) + cyc_exp_cs(T13_ROW as int, FINAL_EXP_T12_OFFSET as int, FINAL_EXP_T13_OFFSET as int) + conjugate_cs(T14_ROW as int, FINAL_EXP_T13_OFFSET as int, FINAL_EXP_T14_OFFSET as int) + cyc_sq_cs(T15_ROW as int, FINAL_EXP_T5_OFFSET as int, FINAL_EXP_T15_OFFSET as int) + mul_cs(T16_ROW as int, FINAL_EXP_T14_OFFSET as int, FINAL_EXP_T15_OFFSET as int, FINAL_EXP_T16_OFFSET as int) + cyc_exp_cs(T17_ROW as int, FINAL_EXP_T16_OFFSET as int, FINAL_EXP_T17_OFFSET as int) + conjugate_cs(T18_ROW as int, FINAL_EXP_T17_OFFSET as int, FINAL_EXP_T18_OFFSET as int) + mul_cs(T19_ROW as int, FINAL_EXP_T5_OFFSET as int, FINAL_EXP_T12_OFFSET as int, FINAL_EXP_T19_OFFSET as int) + forbenius_cs(T20_ROW as int, FINAL_EXP_T19_OFFSET as int, FINAL_EXP_T20_OFFSET as int, 2) + mul_cs(T21_ROW as int, FINAL_EXP_T10_OFFSET as int, FINAL_EXP_T3_OFFSET as int, FINAL_EXP_T21_OFFSET as int) + forbenius_cs(T22_ROW as int, FINAL_EXP_T21_OFFSET as int, FINAL_EXP_T22_OFFSET as int, 3) + conjugate_cs(T23_ROW as int, FINAL_EXP_T3_OFFSET as int, FINAL_EXP_T23_OFFSET as int) + mul_cs(T24_ROW as int, FINAL_EXP_T16_OFFSET as int, FINAL_EXP_T23_OFFSET as int, FINAL_EXP_T24_OFFSET as int) + forbenius_cs(T25_ROW as int, FINAL_EXP_T24_OFFSET as int, FINAL_EXP_T25_OFFSET as int, 1) + conjugate_cs(T26_ROW as int, FINAL_EXP_T8_OFFSET as int, FINAL_EXP_T26_OFFSET as int) + mul_cs(T27_ROW as int, FINAL_EXP_T18_OFFSET as int, FINAL_EXP_T26_OFFSET as int, FINAL_EXP_T27_OFFSET as int) + mul_cs(T28_ROW as int, FINAL_EXP_T27_OFFSET as int, FINAL_EXP_T3_OFFSET as int, FINAL_EXP_T28_OFFSET as int) + mul_cs(T29_ROW as int, FINAL_EXP_T20_OFFSET as int, FINAL_EXP_T22_OFFSET as int, FINAL_EXP_T29_OFFSET as int) + mul_cs(T30_ROW as int, FINAL_EXP_T29_OFFSET as int, FINAL_EXP_T25_OFFSET as int, FINAL_EXP_T30_OFFSET as int), mul_cs(T31_ROW as int, FINAL_EXP_T30_OFFSET as int, FINAL_EXP_T28_OFFSET as int, FINAL_EXP_T31_OFFSET as int), c);
    }
}

/// The five kind-exclusivity constraints of any row of the first frobenius
/// range are among the emitted constraints.
#[verifier::rlimit(100)]
pub proof fn lemma_exclusivity_constraints_emitted(num_rows: int, rr: int, c: Constraint)
    requires
        T0_ROW <= rr < T1_ROW,
        exclusivity_row_cs(rr).contains(c),
    ensures
        stark_constraints_spec(num_rows).contains(c),
{
    lemma_exclusivity_cs_contains(T0_ROW as int, 12, rr, c);
    lemma_seq_add_contains(
        exclusivity_cs(T0_ROW as int, 12),
        copy_block_cs(
            T0_ROW as int,
            FINAL_EXP_INPUT_OFFSET as int,
            (FINAL_EXP_OP_OFFSET + OP_FROBENIUS_INPUT) as int,
            144,
        ),
        c,
    );
    lemma_seq_add_contains(
        exclusivity_cs(T0_ROW as int, 12) + copy_block_cs(
            T0_ROW as int,
            FINAL_EXP_INPUT_OFFSET as int,
            (FINAL_EXP_OP_OFFSET + OP_FROBENIUS_INPUT) as int,
            144,
        ),
        seq![
            Constraint::Gated {
                gate: (FINAL_EXP_ROW_SELECTORS + T0_ROW as int) as usize,
                a: (FINAL_EXP_OP_OFFSET + OP_FROBENIUS_POW) as usize,
                val: 6 as u64,
            },
        ],
        c,
    );
    lemma_seq_add_contains(
        exclusivity_cs(T0_ROW as int, 12) + copy_block_cs(
            T0_ROW as int,
            FINAL_EXP_INPUT_OFFSET as int,
            (FINAL_EXP_OP_OFFSET + OP_FROBENIUS_INPUT) as int,
            144,
        ) + seq![
            Constraint::Gated {
                gate: (FINAL_EXP_ROW_SELECTORS + T0_ROW as int) as usize,
                a: (FINAL_EXP_OP_OFFSET + OP_FROBENIUS_POW) as usize,
                val: 6 as u64,
            },
        ],
        copy_block_cs(
            T0_ROW as int,
            FINAL_EXP_T0_OFFSET as int,
            (FINAL_EXP_OP_OFFSET + OP_FROBENIUS_OUTPUT) as int,
            144,
        ),
        c,
    );
    assert(forbenius_cs(
        T0_ROW as int,
        FINAL_EXP_INPUT_OFFSET as int,
        FINAL_EXP_T0_OFFSET as int,
        6,
    ).contains(c));
        lemma_seq_add_contains(binds_cs(144) + first_row_cs(num_rows) + shift_cs(num_rows - 1) + last_row_cs( num_rows, num_rows, ) + invariance_cs(144), forbenius_cs(T0_ROW as int, FINAL_EXP_INPUT_OFFSET as int, FINAL_EXP_T0_OFFSET as int, 6), c);
    lemma_seq_add_contains(binds_cs(144) + first_row_cs(num_rows) + shift_cs(num_rows - 1) + last_row_cs( num_rows, num_rows, ) + invariance_cs(144) + forbenius_cs(T0_ROW as int, FINAL_EXP_INPUT_OFFSET as int, FINAL_EXP_T0_OFFSET as int, 6), mul_cs(T1_ROW as int, FINAL_EXP_T1_OFFSET as int, FINAL_EXP_INPUT_OFFSET as int, FINAL_EXP_T0_OFFSET as int), c);
    lemma_seq_add_contains(binds_cs(144) + first_row_cs(num_rows) + shift_cs(num_rows - 1) + last_row_cs( num_rows, num_rows, ) + invariance_cs(144) + forbenius_cs(T0_ROW as int, FINAL_EXP_INPUT_OFFSET as int, FINAL_EXP_T0_OFFSET as int, 6) + mul_cs(T1_ROW as int, FINAL_EXP_T1_OFFSET as int, FINAL_EXP_INPUT_OFFSET as int, FINAL_EXP_T0_OFFSET as int), forbenius_cs(T2_ROW as int, FINAL_EXP_T1_OFFSET as int, FINAL_EXP_T2_OFFSET as int, 2), c);
    lemma_seq_add_contains(binds_cs(144) + first_row_cs(num_rows) + shift_cs(num_rows - 1) + last_row_cs( num_rows, num_rows, ) + invariance_cs(144) + forbenius_cs(T0_ROW as int, FINAL_EXP_INPUT_OFFSET as int, FINAL_EXP_T0_OFFSET as int, 6) + mul_cs(T1_ROW as int, FINAL_EXP_T1_OFFSET as int, FINAL_EXP_INPUT_OFFSET as int, FINAL_EXP_T0_OFFSET as int) + forbenius_cs(T2_ROW as int, FINAL_EXP_T1_OFFSET as int, FINAL_EXP_T2_OFFSET as int, 2), mul_cs(T3_ROW as int, FINAL_EXP_T2_OFFSET as int, FINAL_EXP_T1_OFFSET as int, FINAL_EXP_T3_OFFSET as int), c);
    lemma_seq_add_contains(binds_cs(144) + first_row_cs(num_rows) + shift_cs(num_rows - 1) + last_row_cs( num_rows, num_rows, ) + invariance_cs(144) + forbenius_cs(T0_ROW as int, FINAL_EXP_INPUT_OFFSET as int, FINAL_EXP_T0_OFFSET as int, 6) + mul_cs(T1_ROW as int, FINAL_EXP_T1_OFFSET as int, FINAL_EXP_INPUT_OFFSET as int, FINAL_EXP_T0_OFFSET as int) + forbenius_cs(T2_ROW as int, FINAL_EXP_T1_OFFSET as int, FINAL_EXP_T2_OFFSET as int, 2) + mul_cs(T3_ROW as int, FINAL_EXP_T2_OFFSET as int, FINAL_EXP_T1_OFFSET as int, FINAL_EXP_T3_OFFSET as int), cyc_exp_cs(T4_ROW as int, FINAL_EXP_T3_OFFSET as int, FINAL_EXP_T4_OFFSET as int), c);
    lemma_seq_add_contains(binds_cs(144) + first_row_cs(num_rows) + shift_cs(num_rows - 1) + last_row_cs( num_rows, num_rows, ) + invariance_cs(144) + forbenius_cs(T0_ROW as int, FINAL_EXP_INPUT_OFFSET as int, FINAL_EXP_T0_OFFSET as int, 6) + mul_cs(T1_ROW as int, FINAL_EXP_T1_OFFSET as int, FINAL_EXP_INPUT_OFFSET as int, FINAL_EXP_T0_OFFSET as int) + forbenius_cs(T2_ROW as int, FINAL_EXP_T1_OFFSET as int, FINAL_EXP_T2_OFFSET as int, 2) + mul_cs(T3_ROW as int, FINAL_EXP_T2_OFFSET as int, FINAL_EXP_T1_OFFSET as int, FINAL_EXP_T3_OFFSET as int) + cyc_exp_cs(T4_ROW as int, FINAL_EXP_T3_OFFSET as int, FINAL_EXP_T4_OFFSET as int), conjugate_cs(T5_ROW as int, FINAL_EXP_T4_OFFSET as int, FINAL_EXP_T5_OFFSET as int), c);
    lemma_seq_add_contains(binds_cs(144) + first_row_cs(num_rows) + shift_cs(num_rows - 1) + last_row_cs( num_rows, num_rows, ) + invariance_cs(144) + forbenius_cs(T0_ROW as int, FINAL_EXP_INPUT_OFFSET as int, FINAL_EXP_T0_OFFSET as int, 6) + mul_cs(T1_ROW as int, FINAL_EXP_T1_OFFSET as int, FINAL_EXP_INPUT_OFFSET as int, FINAL_EXP_T0_OFFSET as int) + forbenius_cs(T2_ROW as int, FINAL_EXP_T1_OFFSET as int, FINAL_EXP_T2_OFFSET as int, 2) + mul_cs(T3_ROW as int, FINAL_EXP_T2_OFFSET as int, FINAL_EXP_T1_OFFSET as int, FINAL_EXP_T3_OFFSET as int) + cyc_exp_cs(T4_ROW as int, FINAL_EXP_T3_OFFSET as int, FINAL_EXP_T4_OFFSET as int) + conjugate_cs(T5_ROW as int, FINAL_EXP_T4_OFFSET as int, FINAL_EXP_T5_OFFSET as int), cyc_sq_cs(T6_ROW as int, FINAL_EXP_T3_OFFSET as int, FINAL_EXP_T6_OFFSET as int), c);
    lemma_seq_add_contains(binds_cs(144) + first_row_cs(num_rows) + shift_cs(num_rows - 1) + last_row_cs( num_rows, num_rows, ) + invariance_cs(144) + forbenius_cs(T0_ROW as int, FINAL_EXP_INPUT_OFFSET as int, FINAL_EXP_T0_OFFSET as int, 6) + mul_cs(T1_ROW as int, FINAL_EXP_T1_OFFSET as int, FINAL_EXP_INPUT_OFFSET as int, FINAL_EXP_T0_OFFSET as int) + forbenius_cs(T2_ROW as int, FINAL_EXP_T1_OFFSET as int, FINAL_EXP_T2_OFFSET as int, 2) + mul_cs(T3_ROW as int, FINAL_EXP_T2_OFFSET as int, FINAL_EXP_T1_OFFSET as int, FINAL_EXP_T3_OFFSET as int) + cyc_exp_cs(T4_ROW as int, FINAL_EXP_T3_OFFSET as int, FINAL_EXP_T4_OFFSET as int) + conjugate_cs(T5_ROW as int, FINAL_EXP_T4_OFFSET as int, FINAL_EXP_T5_OFFSET as int) + cyc_sq_cs(T6_ROW as int, FINAL_EXP_T3_OFFSET as int, FINAL_EXP_T6_OFFSET as int), conjugate_cs(T7_ROW as int, FINAL_EXP_T6_OFFSET as int, FINAL_EXP_T7_OFFSET as int), c);
    lemma_seq_add_contains(binds_cs(144) + first_row_cs(num_rows) + shift_cs(num_rows - 1) + last_row_cs( num_rows, num_rows, ) + invariance_cs(144) + forbenius_cs(T0_ROW as int, FINAL_EXP_INPUT_OFFSET as int, FINAL_EXP_T0_OFFSET as int, 6) + mul_cs(T1_ROW as int, FINAL_EXP_T1_OFFSET as int, FINAL_EXP_INPUT_OFFSET as int, FINAL_EXP_T0_OFFSET as int) + forbenius_cs(T2_ROW as int, FINAL_EXP_T1_OFFSET as int, FINAL_EXP_T2_OFFSET as int, 2) + mul_cs(T3_ROW as int, FINAL_EXP_T2_OFFSET as int, FINAL_EXP_T1_OFFSET as int, FINAL_EXP_T3_OFFSET as int) + cyc_exp_cs(T4_ROW as int, FINAL_EXP_T3_OFFSET as int, FINAL_EXP_T4_OFFSET as int) + conjugate_cs(T5_ROW as int, FINAL_EXP_T4_OFFSET as int, FINAL_EXP_T5_OFFSET as int) + cyc_sq_cs(T6_ROW as int, FINAL_EXP_T3_OFFSET as int, FINAL_EXP_T6_OFFSET as int) + conjugate_cs(T7_ROW as int, FINAL_EXP_T6_OFFSET as int, FINAL_EXP_T7_OFFSET as int), mul_cs(T8_ROW as int, FINAL_EXP_T7_OFFSET as int, FINAL_EXP_T5_OFFSET as int, FINAL_EXP_T8_OFFSET as int), c);
    lemma_seq_add_contains(binds_cs(144) + first_row_cs(num_rows) + shift_cs(num_rows - 1) + last_row_cs( num_rows, num_rows, ) + invariance_cs(144) + forbenius_cs(T0_ROW as int, FINAL_EXP_INPUT_OFFSET as int, FINAL_EXP_T0_OFFSET as int, 6) + mul_cs(T1_ROW as int, FINAL_EXP_T1_OFFSET as int, FINAL_EXP_INPUT_OFFSET as int, FINAL_EXP_T0_OFFSET as int) + forbenius_cs(T2_ROW as int, FINAL_EXP_T1_OFFSET as int, FINAL_EXP_T2_OFFSET as int, 2) + mul_cs(T3_ROW as int, FINAL_EXP_T2_OFFSET as int, FINAL_EXP_T1_OFFSET as int, FINAL_EXP_T3_OFFSET as int) + cyc_exp_cs(T4_ROW as int, FINAL_EXP_T3_OFFSET as int, FINAL_EXP_T4_OFFSET as int) + conjugate_cs(T5_ROW as int, FINAL_EXP_T4_OFFSET as int, FINAL_EXP_T5_OFFSET as int) + cyc_sq_cs(T6_ROW as int, FINAL_EXP_T3_OFFSET as int, FINAL_EXP_T6_OFFSET as int) + conjugate_cs(T7_ROW as int, FINAL_EXP_T6_OFFSET as int, FINAL_EXP_T7_OFFSET as int) + mul_cs(T8_ROW as int, FINAL_EXP_T7_OFFSET as int, FINAL_EXP_T5_OFFSET as int, FINAL_EXP_T8_OFFSET as int), cyc_exp_cs(T9_ROW as int, FINAL_EXP_T8_OFFSET as int, FINAL_EXP_T9_OFFSET as int), c);
    lemma_seq_add_contains(binds_cs(144) + first_row_cs(num_rows) + shift_cs(num_rows - 1) + last_row_cs( num_rows, num_rows, ) + invariance_cs(144) + forbenius_cs(T0_ROW as int, FINAL_EXP_INPUT_OFFSET as int, FINAL_EXP_T0_OFFSET as int, 6) + mul_cs(T1_ROW as int, FINAL_EXP_T1_OFFSET as int, FINAL_EXP_INPUT_OFFSET as int, FINAL_EXP_T0_OFFSET as int) + forbenius_cs(T2_ROW as int, FINAL_EXP_T1_OFFSET as int, FINAL_EXP_T2_OFFSET as int, 2) + mul_cs(T3_ROW as int, FINAL_EXP_T2_OFFSET as int, FINAL_EXP_T1_OFFSET as int, FINAL_EXP_T3_OFFSET as int) + cyc_exp_cs(T4_ROW as int, FINAL_EXP_T3_OFFSET as int, FINAL_EXP_T4_OFFSET as int) + conjugate_cs(T5_ROW as int, FINAL_EXP_T4_OFFSET as int, FINAL_EXP_T5_OFFSET as int) + cyc_sq_cs(T6_ROW as int, FINAL_EXP_T3_OFFSET as int, FINAL_EXP_T6_OFFSET as int) + conjugate_cs(T7_ROW as int, FINAL_EXP_T6_OFFSET as int, FINAL_EXP_T7_OFFSET as int) + mul_cs(T8_ROW as int, FINAL_EXP_T7_OFFSET as int, FINAL_EXP_T5_OFFSET as int, FINAL_EXP_T8_OFFSET as int) + cyc_exp_cs(T9_ROW as int, FINAL_EXP_T8_OFFSET as int, FINAL_EXP_T9_OFFSET as int), conjugate_cs(T10_ROW as int, FINAL_EXP_T9_OFFSET as int, FINAL_EXP_T10_OFFSET as int), c);
    lemma_seq_add_contains(binds_cs(144) + first_row_cs(num_rows) + shift_cs(num_rows - 1) + last_row_cs( num_rows, num_rows, ) + invariance_cs(144) + forbenius_cs(T0_ROW as int, FINAL_EXP_INPUT_OFFSET as int, FINAL_EXP_T0_OFFSET as int, 6) + mul_cs(T1_ROW as int, FINAL_EXP_T1_OFFSET as int, FINAL_EXP_INPUT_OFFSET as int, FINAL_EXP_T0_OFFSET as int) + forbenius_cs(T2_ROW as int, FINAL_EXP_T1_OFFSET as int, FINAL_EXP_T2_OFFSET as int, 2) + mul_cs(T3_ROW as int, FINAL_EXP_T2_OFFSET as int, FINAL_EXP_T1_OFFSET as int, FINAL_EXP_T3_OFFSET as int) + cyc_exp_cs(T4_ROW as int, FINAL_EXP_T3_OFFSET as int, FINAL_EXP_T4_OFFSET as int) + conjugate_cs(T5_ROW as int, FINAL_EXP_T4_OFFSET as int, FINAL_EXP_T5_OFFSET as int) + cyc_sq_cs(T6_ROW as int, FINAL_EXP_T3_OFFSET as int, FINAL_EXP_T6_OFFSET as int) + conjugate_cs(T7_ROW as int, FINAL_EXP_T6_OFFSET as int, FINAL_EXP_T7_OFFSET as int) + mul_cs(T8_ROW as int, FINAL_EXP_T7_OFFSET as int, FINAL_EXP_T5_OFFSET as int, FINAL_EXP_T8_OFFSET as int) + cyc_exp_cs(T9_ROW as int, FINAL_EXP_T8_OFFSET as int, FINAL_EXP_T9_OFFSET as int) + conjugate_cs(T10_ROW as int, FINAL_EXP_T9_OFFSET as int, FINAL_EXP_T10_OFFSET as int), cyc_exp_cs(T11_ROW as int, FINAL_EXP_T10_OFFSET as int, FINAL_EXP_T11_OFFSET as int), c);
    lemma_seq_add_contains(binds_cs(144) + first_row_cs(num_rows) + shift_cs(num_rows - 1) + last_row_cs( num_rows, num_rows, ) + invariance_cs(144) + forbenius_cs(T0_ROW as int, FINAL_EXP_INPUT_OFFSET as int, FINAL_EXP_T0_OFFSET as int, 6) + mul_cs(T1_ROW as int, FINAL_EXP_T1_OFFSET as int, FINAL_EXP_INPUT_OFFSET as int, FINAL_EXP_T0_OFFSET as int) + forbenius_cs(T2_ROW as int, FINAL_EXP_T1_OFFSET as int, FINAL_EXP_T2_OFFSET as int, 2) + mul_cs(T3_ROW as int, FINAL_EXP_T2_OFFSET as int, FINAL_EXP_T1_OFFSET as int, FINAL_EXP_T3_OFFSET as int) + cyc_exp_cs(T4_ROW as int, FINAL_EXP_T3_OFFSET as int, FINAL_EXP_T4_OFFSET as int) + conjugate_cs(T5_ROW as int, FINAL_EXP_T4_OFFSET as int, FINAL_EXP_T5_OFFSET as int) + cyc_sq_cs(T6_ROW as int, FINAL_EXP_T3_OFFSET as int, FINAL_EXP_T6_OFFSET as int) + conjugate_cs(T7_ROW as int, FINAL_EXP_T6_OFFSET as int, FINAL_EXP_T7_OFFSET as int) + mul_cs(T8_ROW as int, FINAL_EXP_T7_OFFSET as int, FINAL_EXP_T5_OFFSET as int, FINAL_EXP_T8_OFFSET as int) + cyc_exp_cs(T9_ROW as int, FINAL_EXP_T8_OFFSET as int, FINAL_EXP_T9_OFFSET as int) + conjugate_cs(T10_ROW as int, FINAL_EXP_T9_OFFSET as int, FINAL_EXP_T10_OFFSET as int) + cyc_exp_cs(T11_ROW as int, FINAL_EXP_T10_OFFSET as int, FINAL_EXP_T11_OFFSET as int), conjugate_cs(T12_ROW as int, FINAL_EXP_T11_OFFSET as int, FINAL_EXP_T12_OFFSET as int), c);
    lemma_seq_add_contains(binds_cs(144) + first_row_cs(num_rows) + shift_cs(num_rows - 1) + last_row_cs( num_rows, num_rows, ) + invariance_cs(144) + forbenius_cs(T0_ROW as int, FINAL_EXP_INPUT_OFFSET as int, FINAL_EXP_T0_OFFSET as int, 6) + mul_cs(T1_ROW as int, FINAL_EXP_T1_OFFSET as int, FINAL_EXP_INPUT_OFFSET as int, FINAL_EXP_T0_OFFSET as int) + forbenius_cs(T2_ROW as int, FINAL_EXP_T1_OFFSET as int, FINAL_EXP_T2_OFFSET as int, 2) + mul_cs(T3_ROW as int, FINAL_EXP_T2_OFFSET as int, FINAL_EXP_T1_OFFSET as int, FINAL_EXP_T3_OFFSET as int) + cyc_exp_cs(T4_ROW as int, FINAL_EXP_T3_OFFSET as int, FINAL_EXP_T4_OFFSET as int) + conjugate_cs(T5_ROW as int, FINAL_EXP_T4_OFFSET as int, FINAL_EXP_T5_OFFSET as int) + cyc_sq_cs(T6_ROW as int, FINAL_EXP_T3_OFFSET as int, FINAL_EXP_T6_OFFSET as int) + conjugate_cs(T7_ROW as int, FINAL_EXP_T6_OFFSET as int, FINAL_EXP_T7_OFFSET as int) + mul_cs(T8_ROW as int, FINAL_EXP_T7_OFFSET as int, FINAL_EXP_T5_OFFSET as int, FINAL_EXP_T8_OFFSET as int) + cyc_exp_cs(T9_ROW as int, FINAL_EXP_T8_OFFSET as int, FINAL_EXP_T9_OFFSET as int) + conjugate_cs(T10_ROW as int, FINAL_EXP_T9_OFFSET as int, FINAL_EXP_T10_OFFSET as int) + cyc_exp_cs(T11_ROW as int, FINAL_EXP_T10_OFFSET as int, FINAL_EXP_T11_OFFSET as int) + conjugate_cs(T12_ROW as int, FINAL_EXP_T11_OFFSET as int, FINAL_EXP_T12_OFFSET as int), cyc_exp_cs(T13_ROW as int, FINAL_EXP_T12_OFFSET as int, FINAL_EXP_T13_OFFSET as int), c);
    lemma_seq_add_contains(binds_cs(144) + first_row_cs(num_rows) + shift_cs(num_rows - 1) + last_row_cs( num_rows, num_rows, ) + invariance_cs(144) + forbenius_cs(T0_ROW as int, FINAL_EXP_INPUT_OFFSET as int, FINAL_EXP_T0_OFFSET as int, 6) + mul_cs(T1_ROW as int, FINAL_EXP_T1_OFFSET as int, FINAL_EXP_INPUT_OFFSET as int, FINAL_EXP_T0_OFFSET as int) + forbenius_cs(T2_ROW as int, FINAL_EXP_T1_OFFSET as int, FINAL_EXP_T2_OFFSET as int, 2) + mul_cs(T3_ROW as int, FINAL_EXP_T2_OFFSET as int, FINAL_EXP_T1_OFFSET as int, FINAL_EXP_T3_OFFSET as int) + cyc_exp_cs(T4_ROW as int, FINAL_EXP_T3_OFFSET as int, FINAL_EXP_T4_OFFSET as int) + conjugate_cs(T5_ROW as int, FINAL_EXP_T4_OFFSET as int, FINAL_EXP_T5_OFFSET as int) + cyc_sq_cs(T6_ROW as int, FINAL_EXP_T3_OFFSET as int, FINAL_EXP_T6_OFFSET as int) + conjugate_cs(T7_ROW as int, FINAL_EXP_T6_OFFSET as int, FINAL_EXP_T7_OFFSET as int) + mul_cs(T8_ROW as int, FINAL_EXP_T7_OFFSET as int, FINAL_EXP_T5_OFFSET as int, FINAL_EXP_T8_OFFSET as int) + cyc_exp_cs(T9_ROW as int, FINAL_EXP_T8_OFFSET as int, FINAL_EXP_T9_OFFSET as int) + conjugate_cs(T10_ROW as int, FINAL_EXP_T9_OFFSET as int, FINAL_EXP_T10_OFFSET as int) + cyc_exp_cs(T11_ROW as int, FINAL_EXP_T10_OFFSET as int, FINAL_EXP_T11_OFFSET as int) + conjugate_cs(T12_ROW as int, FINAL_EXP_T11_OFFSET as int, FINAL_EXP_T12_OFFSET as int) + cyc_exp_cs(T13_ROW as int, FINAL_EXP_T12_OFFSET as int, FINAL_EXP_T13_OFFSET as int), conjugate_cs(T14_ROW as int, FINAL_EXP_T13_OFFSET as int, FINAL_EXP_T14_OFFSET as int), c);
    lemma_seq_add_contains(binds_cs(144) + first_row_cs(num_rows) + shift_cs(num_rows - 1) + last_row_cs( num_rows, num_rows, ) + invariance_cs(144) + forbenius_cs(T0_ROW as int, FINAL_EXP_INPUT_OFFSET as int, FINAL_EXP_T0_OFFSET as int, 6) + mul_cs(T1_ROW as int, FINAL_EXP_T1_OFFSET as int, FINAL_EXP_INPUT_OFFSET as int, FINAL_EXP_T0_OFFSET as int) + forbenius_cs(T2_ROW as int, FINAL_EXP_T1_OFFSET as int, FINAL_EXP_T2_OFFSET as int, 2) + mul_cs(T3_ROW as int, FINAL_EXP_T2_OFFSET as int, FINAL_EXP_T1_OFFSET as int, FINAL_EXP_T3_OFFSET as int) + cyc_exp_cs(T4_ROW as int, FINAL_EXP_T3_OFFSET as int, FINAL_EXP_T4_OFFSET as int) + conjugate_cs(T5_ROW as int, FINAL_EXP_T4_OFFSET as int, FINAL_EXP_T5_OFFSET as int) + cyc_sq_cs(T6_ROW as int, FINAL_EXP_T3_OFFSET as int, FINAL_EXP_T6_OFFSET as int) + conjugate_cs(T7_ROW as int, FINAL_EXP_T6_OFFSET as int, FINAL_EXP_T7_OFFSET as int) + mul_cs(T8_ROW as int, FINAL_EXP_T7_OFFSET as int, FINAL_EXP_T5_OFFSET as int, FINAL_EXP_T8_OFFSET as int) + cyc_exp_cs(T9_ROW as int, FINAL_EXP_T8_OFFSET as int, FINAL_EXP_T9_OFFSET as int) + conjugate_cs(T10_ROW as int, FINAL_EXP_T9_OFFSET as int, FINAL_EXP_T10_OFFSET as int) + cyc_exp_cs(T11_ROW as int, FINAL_EXP_T10_OFFSET as int, FINAL_EXP_T11_OFFSET as int) + conjugate_cs(T12_ROW as int, FINAL_EXP_T11_OFFSET as int, FINAL_EXP_T12_OFFSET as int) + cyc_exp_cs(T13_ROW as int, FINAL_EXP_T12_OFFSET as int, FINAL_EXP_T13_OFFSET as int) + conjugate_cs(T14_ROW as int, FINAL_EXP_T13_OFFSET as int, FINAL_EXP_T14_OFFSET as int), cyc_sq_cs(T15_ROW as int, FINAL_EXP_T5_OFFSET as int, FINAL_EXP_T15_OFFSET as int), c);
    lemma_seq_add_contains(binds_cs(144) + first_row_cs(num_rows) + shift_cs(num_rows - 1) + last_row_cs( num_rows, num_rows, ) + invariance_cs(144) + forbenius_cs(T0_ROW as int, FINAL_EXP_INPUT_OFFSET as int, FINAL_EXP_T0_OFFSET as int, 6) + mul_cs(T1_ROW as int, FINAL_EXP_T1_OFFSET as int, FINAL_EXP_INPUT_OFFSET as int, FINAL_EXP_T0_OFFSET as int) + forbenius_cs(T2_ROW as int, FINAL_EXP_T1_OFFSET as int, FINAL_EXP_T2_OFFSET as int, 2) + mul_cs(T3_ROW as int, FINAL_EXP_T2_OFFSET as int, FINAL_EXP_T1_OFFSET as int, FINAL_EXP_T3_OFFSET as int) + cyc_exp_cs(T4_ROW as int, FINAL_EXP_T3_OFFSET as int, FINAL_EXP_T4_OFFSET as int) + conjugate_cs(T5_ROW as int, FINAL_EXP_T4_OFFSET as int, FINAL_EXP_T5_OFFSET as int) + cyc_sq_cs(T6_ROW as int, FINAL_EXP_T3_OFFSET as int, FINAL_EXP_T6_OFFSET as int) + conjugate_cs(T7_ROW as int, FINAL_EXP_T6_OFFSET as int, FINAL_EXP_T7_OFFSET as int) + mul_cs(T8_ROW as int, FINAL_EXP_T7_OFFSET as int, FINAL_EXP_T5_OFFSET as int, FINAL_EXP_T8_OFFSET as int) + cyc_exp_cs(T9_ROW as int, FINAL_EXP_T8_OFFSET as int, FINAL_EXP_T9_OFFSET as int) + conjugate_cs(T10_ROW as int, FINAL_EXP_T9_OFFSET as int, FINAL_EXP_T10_OFFSET as int) + cyc_exp_cs(T11_ROW as int, FINAL_EXP_T10_OFFSET as int, FINAL_EXP_T11_OFFSET as int) + conjugate_cs(T12_ROW as int, FINAL_EXP_T11_OFFSET as int, FINAL_EXP_T12_OFFSET as int) + cyc_exp_cs(T13_ROW as int, FINAL_EXP_T12_OFFSET as int, FINAL_EXP_T13_OFFSET as int) + conjugate_cs(T14_ROW as int, FINAL_EXP_T13_OFFSET as int, FINAL_EXP_T14_OFFSET as int) + cyc_sq_cs(T15_ROW as int, FINAL_EXP_T5_OFFSET as int, FINAL_EXP_T15_OFFSET as int), mul_cs(T16_ROW as int, FINAL_EXP_T14_OFFSET as int, FINAL_EXP_T15_OFFSET as int, FINAL_EXP_T16_OFFSET as int), c);
    lemma_seq_add_contains(binds_cs(144) + first_row_cs(num_rows) + shift_cs(num_rows - 1) + last_row_cs( num_rows, num_rows, ) + invariance_cs(144) + forbenius_cs(T0_ROW as int, FINAL_EXP_INPUT_OFFSET as int, FINAL_EXP_T0_OFFSET as int, 6) + mul_cs(T1_ROW as int, FINAL_EXP_T1_OFFSET as int, FINAL_EXP_INPUT_OFFSET as int, FINAL_EXP_T0_OFFSET as int) + forbenius_cs(T2_ROW as int, FINAL_EXP_T1_OFFSET as int, FINAL_EXP_T2_OFFSET as int, 2) + mul_cs(T3_ROW as int, FINAL_EXP_T2_OFFSET as int, FINAL_EXP_T1_OFFSET as int, FINAL_EXP_T3_OFFSET as int) + cyc_exp_cs(T4_ROW as int, FINAL_EXP_T3_OFFSET as int, FINAL_EXP_T4_OFFSET as int) + conjugate_cs(T5_ROW as int, FINAL_EXP_T4_OFFSET as int, FINAL_EXP_T5_OFFSET as int) + cyc_sq_cs(T6_ROW as int, FINAL_EXP_T3_OFFSET as int, FINAL_EXP_T6_OFFSET as int) + conjugate_cs(T7_ROW as int, FINAL_EXP_T6_OFFSET as int, FINAL_EXP_T7_OFFSET as int) + mul_cs(T8_ROW as int, FINAL_EXP_T7_OFFSET as int, FINAL_EXP_T5_OFFSET as int, FINAL_EXP_T8_OFFSET as int) + cyc_exp_cs(T9_ROW as int, FINAL_EXP_T8_OFFSET as int, FINAL_EXP_T9_OFFSET as int) + conjugate_cs(T10_ROW as int, FINAL_EXP_T9_OFFSET as int, FINAL_EXP_T10_OFFSET as int) + cyc_exp_cs(T11_ROW as int, FINAL_EXP_T10_OFFSET as int, FINAL_EXP_T11_OFFSET as int) + conjugate_cs(T12_ROW as int, FINAL_EXP_T11_OFFSET as int, FINAL_EXP_T12_OFFSET as int) + cyc_exp_cs(T13_ROW as int, FINAL_EXP_T12_OFFSET as int, FINAL_EXP_T13_OFFSET as int) + conjugate_cs(T14_ROW as int, FINAL_EXP_T13_OFFSET as int, FINAL_EXP_T14_OFFSET as int) + cyc_sq_cs(T15_ROW as int, FINAL_EXP_T5_OFFSET as int, FINAL_EXP_T15_OFFSET as int) + mul_cs(T16_ROW as int, FINAL_EXP_T14_OFFSET as int, FINAL_EXP_T15_OFFSET as int, FINAL_EXP_T16_OFFSET as int), cyc_exp_cs(T17_ROW as int, FINAL_EXP_T16_OFFSET as int, FINAL_EXP_T17_OFFSET as int), c);
    lemma_seq_add_contains(binds_cs(144) + first_row_cs(num_rows) + shift_cs(num_rows - 1) + last_row_cs( num_rows, num_rows, ) + invariance_cs(144) + forbenius_cs(T0_ROW as int, FINAL_EXP_INPUT_OFFSET as int, FINAL_EXP_T0_OFFSET as int, 6) + mul_cs(T1_ROW as int, FINAL_EXP_T1_OFFSET as int, FINAL_EXP_INPUT_OFFSET as int, FINAL_EXP_T0_OFFSET as int) + forbenius_cs(T2_ROW as int, FINAL_EXP_T1_OFFSET as int, FINAL_EXP_T2_OFFSET as int, 2) + mul_cs(T3_ROW as int, FINAL_EXP_T2_OFFSET as int, FINAL_EXP_T1_OFFSET as int, FINAL_EXP_T3_OFFSET as int) + cyc_exp_cs(T4_ROW as int, FINAL_EXP_T3_OFFSET as int, FINAL_EXP_T4_OFFSET as int) + conjugate_cs(T5_ROW as int, FINAL_EXP_T4_OFFSET as int, FINAL_EXP_T5_OFFSET as int) + cyc_sq_cs(T6_ROW as int, FINAL_EXP_T3_OFFSET as int, FINAL_EXP_T6_OFFSET as int) + conjugate_cs(T7_ROW as int, FINAL_EXP_T6_OFFSET as int, FINAL_EXP_T7_OFFSET as int) + mul_cs(T8_ROW as int, FINAL_EXP_T7_OFFSET as int, FINAL_EXP_T5_OFFSET as int, FINAL_EXP_T8_OFFSET as int) + cyc_exp_cs(T9_ROW as int, FINAL_EXP_T8_OFFSET as int, FINAL_EXP_T9_OFFSET as int) + conjugate_cs(T10_ROW as int, FINAL_EXP_T9_OFFSET as int, FINAL_EXP_T10_OFFSET as int) + cyc_exp_cs(T11_ROW as int, FINAL_EXP_T10_OFFSET as int, FINAL_EXP_T11_OFFSET as int) + conjugate_cs(T12_ROW as int, FINAL_EXP_T11_OFFSET as int, FINAL_EXP_T12_OFFSET as int) + cyc_exp_cs(T13_ROW as int, FINAL_EXP_T12_OFFSET as int, FINAL_EXP_T13_OFFSET as int) + conjugate_cs(T14_ROW as int, FINAL_EXP_T13_OFFSET as int, FINAL_EXP_T14_OFFSET as int) + cyc_sq_cs(T15_ROW as int, FINAL_EXP_T5_OFFSET as int, FINAL_EXP_T15_OFFSET as int) + mul_cs(T16_ROW as int, FINAL_EXP_T14_OFFSET as int, FINAL_EXP_T15_OFFSET as int, FINAL_EXP_T16_OFFSET as int) + cyc_exp_cs(T17_ROW as int, FINAL_EXP_T16_OFFSET as int, FINAL_EXP_T17_OFFSET as int), conjugate_cs(T18_ROW as int, FINAL_EXP_T17_OFFSET as int, FINAL_EXP_T18_OFFSET as int), c);
    lemma_seq_add_contains(binds_cs(144) + first_row_cs(num_rows) + shift_cs(num_rows - 1) + last_row_cs( num_rows, num_rows, ) + invariance_cs(144) + forbenius_cs(T0_ROW as int, FINAL_EXP_INPUT_OFFSET as int, FINAL_EXP_T0_OFFSET as int, 6) + mul_cs(T1_ROW as int, FINAL_EXP_T1_OFFSET as int, FINAL_EXP_INPUT_OFFSET as int, FINAL_EXP_T0_OFFSET as int) + forbenius_cs(T2_ROW as int, FINAL_EXP_T1_OFFSET as int, FINAL_EXP_T2_OFFSET as int, 2) + mul_cs(T3_ROW as int, FINAL_EXP_T2_OFFSET as int, FINAL_EXP_T1_OFFSET as int, FINAL_EXP_T3_OFFSET as int) + cyc_exp_cs(T4_ROW as int, FINAL_EXP_T3_OFFSET as int, FINAL_EXP_T4_OFFSET as int) + conjugate_cs(T5_ROW as int, FINAL_EXP_T4_OFFSET as int, FINAL_EXP_T5_OFFSET as int) + cyc_sq_cs(T6_ROW as int, FINAL_EXP_T3_OFFSET as int, FINAL_EXP_T6_OFFSET as int) + conjugate_cs(T7_ROW as int, FINAL_EXP_T6_OFFSET as int, FINAL_EXP_T7_OFFSET as int) + mul_cs(T8_ROW as int, FINAL_EXP_T7_OFFSET as int, FINAL_EXP_T5_OFFSET as int, FINAL_EXP_T8_OFFSET as int) + cyc_exp_cs(T9_ROW as int, FINAL_EXP_T8_OFFSET as int, FINAL_EXP_T9_OFFSET as int) + conjugate_cs(T10_ROW as int, FINAL_EXP_T9_OFFSET as int, FINAL_EXP_T10_OFFSET as int) + cyc_exp_cs(T11_ROW as int, FINAL_EXP_T10_OFFSET as int, FINAL_EXP_T11_OFFSET as int) + conjugate_cs(T12_ROW as int, FINAL_EXP_T11_OFFSET as int, FINAL_EXP_T12_OFFSET as int) + cyc_exp_cs(T13_ROW as int, FINAL_EXP_T12_OFFSET as int, FINAL_EXP_T13_OFFSET as int) + conjugate_cs(T14_ROW as int, FINAL_EXP_T13_OFFSET as int, FINAL_EXP_T14_OFFSET as int) + cyc_sq_cs(T15_ROW as int, FINAL_EXP_T5_OFFSET as int, FINAL_EXP_T15_OFFSET as int) + mul_cs(T16_ROW as int, FINAL_EXP_T14_OFFSET as int, FINAL_EXP_T15_OFFSET as int, FINAL_EXP_T16_OFFSET as int) + cyc_exp_cs(T17_ROW as int, FINAL_EXP_T16_OFFSET as int, FINAL_EXP_T17_OFFSET as int) + conjugate_cs(T18_ROW as int, FINAL_EXP_T17_OFFSET as int, FINAL_EXP_T18_OFFSET as int), mul_cs(T19_ROW as int, FINAL_EXP_T5_OFFSET as int, FINAL_EXP_T12_OFFSET as int, FINAL_EXP_T19_OFFSET as int), c);
    lemma_seq_add_contains(binds_cs(144) + first_row_cs(num_rows) + shift_cs(num_rows - 1) + last_row_cs( num_rows, num_rows, ) + invariance_cs(144) + forbenius_cs(T0_ROW as int, FINAL_EXP_INPUT_OFFSET as int, FINAL_EXP_T0_OFFSET as int, 6) + mul_cs(T1_ROW as int, FINAL_EXP_T1_OFFSET as int, FINAL_EXP_INPUT_OFFSET as int, FINAL_EXP_T0_OFFSET as int) + forbenius_cs(T2_ROW as int, FINAL_EXP_T1_OFFSET as int, FINAL_EXP_T2_OFFSET as int, 2) + mul_cs(T3_ROW as int, FINAL_EXP_T2_OFFSET as int, FINAL_EXP_T1_OFFSET as int, FINAL_EXP_T3_OFFSET as int) + cyc_exp_cs(T4_ROW as int, FINAL_EXP_T3_OFFSET as int, FINAL_EXP_T4_OFFSET as int) + conjugate_cs(T5_ROW as int, FINAL_EXP_T4_OFFSET as int, FINAL_EXP_T5_OFFSET as int) + cyc_sq_cs(T6_ROW as int, FINAL_EXP_T3_OFFSET as int, FINAL_EXP_T6_OFFSET as int) + conjugate_cs(T7_ROW as int, FINAL_EXP_T6_OFFSET as int, FINAL_EXP_T7_OFFSET as int) + mul_cs(T8_ROW as int, FINAL_EXP_T7_OFFSET as int, FINAL_EXP_T5_OFFSET as int, FINAL_EXP_T8_OFFSET as int) + cyc_exp_cs(T9_ROW as int, FINAL_EXP_T8_OFFSET as int, FINAL_EXP_T9_OFFSET as int) + conjugate_cs(T10_ROW as int, FINAL_EXP_T9_OFFSET as int, FINAL_EXP_T10_OFFSET as int) + cyc_exp_cs(T11_ROW as int, FINAL_EXP_T10_OFFSET as int, FINAL_EXP_T11_OFFSET as int) + conjugate_cs(T12_ROW as int, FINAL_EXP_T11_OFFSET as int, FINAL_EXP_T12_OFFSET as int) + cyc_exp_cs(T13_ROW as int, FINAL_EXP_T12_OFFSET as int, FINAL_EXP_T13_OFFSET as int) + conjugate_cs(T14_ROW as int, FINAL_EXP_T13_OFFSET as int, FINAL_EXP_T14_OFFSET as int) + cyc_sq_cs(T15_ROW as int, FINAL_EXP_T5_OFFSET as int, FINAL_EXP_T15_OFFSET as int) + mul_cs(T16_ROW as int, FINAL_EXP_T14_OFFSET as int, FINAL_EXP_T15_OFFSET as int, FINAL_EXP_T16_OFFSET as int) + cyc_exp_cs(T17_ROW as int, FINAL_EXP_T16_OFFSET as int, FINAL_EXP_T17_OFFSET as int) + conjugate_cs(T18_ROW as int, FINAL_EXP_T17_OFFSET as int, FINAL_EXP_T18_OFFSET as int) + mul_cs(T19_ROW as int, FINAL_EXP_T5_OFFSET as int, FINAL_EXP_T12_OFFSET as int, FINAL_EXP_T19_OFFSET as int), forbenius_cs(T20_ROW as int, FINAL_EXP_T19_OFFSET as int, FINAL_EXP_T20_OFFSET as int, 2), c);
    lemma_seq_add_contains(binds_cs(144) + first_row_cs(num_rows) + shift_cs(num_rows - 1) + last_row_cs( num_rows, num_rows, ) + invariance_cs(144) + forbenius_cs(T0_ROW as int, FINAL_EXP_INPUT_OFFSET as int, FINAL_EXP_T0_OFFSET as int, 6) + mul_cs(T1_ROW as int, FINAL_EXP_T1_OFFSET as int, FINAL_EXP_INPUT_OFFSET as int, FINAL_EXP_T0_OFFSET as int) + forbenius_cs(T2_ROW as int, FINAL_EXP_T1_OFFSET as int, FINAL_EXP_T2_OFFSET as int, 2) + mul_cs(T3_ROW as int, FINAL_EXP_T2_OFFSET as int, FINAL_EXP_T1_OFFSET as int, FINAL_EXP_T3_OFFSET as int) + cyc_exp_cs(T4_ROW as int, FINAL_EXP_T3_OFFSET as int, FINAL_EXP_T4_OFFSET as int) + conjugate_cs(T5_ROW as int, FINAL_EXP_T4_OFFSET as int, FINAL_EXP_T5_OFFSET as int) + cyc_sq_cs(T6_ROW as int, FINAL_EXP_T3_OFFSET as int, FINAL_EXP_T6_OFFSET as int) + conjugate_cs(T7_ROW as int, FINAL_EXP_T6_OFFSET as int, FINAL_EXP_T7_OFFSET as int) + mul_cs(T8_ROW as int, FINAL_EXP_T7_OFFSET as int, FINAL_EXP_T5_OFFSET as int, FINAL_EXP_T8_OFFSET as int) + cyc_exp_cs(T9_ROW as int, FINAL_EXP_T8_OFFSET as int, FINAL_EXP_T9_OFFSET as int) + conjugate_cs(T10_ROW as int, FINAL_EXP_T9_OFFSET as int, FINAL_EXP_T10_OFFSET as int) + cyc_exp_cs(T11_ROW as int, FINAL_EXP_T10_OFFSET as int, FINAL_EXP_T11_OFFSET as int) + conjugate_cs(T12_ROW as int, FINAL_EXP_T11_OFFSET as int, FINAL_EXP_T12_OFFSET as int) + cyc_exp_cs(T13_ROW as int, FINAL_EXP_T12_OFFSET as int, FINAL_EXP_T13_OFFSET as int) + conjugate_cs(T14_ROW as int, FINAL_EXP_T13_OFFSET as int, FINAL_EXP_T14_OFFSET as int) + cyc_sq_cs(T15_ROW as int, FINAL_EXP_T5_OFFSET as int, FINAL_EXP_T15_OFFSET as int) + mul_cs(T16_ROW as int, FINAL_EXP_T14_OFFSET as int, FINAL_EXP_T15_OFFSET as int, FINAL_EXP_T16_OFFSET as int) + cyc_exp_cs(T17_ROW as int, FINAL_EXP_T16_OFFSET as int, FINAL_EXP_T17_OFFSET as int) + conjugate_cs(T18_ROW as int, FINAL_EXP_T17_OFFSET as int, FINAL_EXP_T18_OFFSET as int) + mul_cs(T19_ROW as int, FINAL_EXP_T5_OFFSET as int, FINAL_EXP_T12_OFFSET as int, FINAL_EXP_T19_OFFSET as int) + forbenius_cs(T20_ROW as int, FINAL_EXP_T19_OFFSET as int, FINAL_EXP_T20_OFFSET as int, 2), mul_cs(T21_ROW as int, FINAL_EXP_T10_OFFSET as int, FINAL_EXP_T3_OFFSET as int, FINAL_EXP_T21_OFFSET as int), c);
    lemma_seq_add_contains(binds_cs(144) + first_row_cs(num_rows) + shift_cs(num_rows - 1) + last_row_cs( num_rows, num_rows, ) + invariance_cs(144) + forbenius_cs(T0_ROW as int, FINAL_EXP_INPUT_OFFSET as int, FINAL_EXP_T0_OFFSET as int, 6) + mul_cs(T1_ROW as int, FINAL_EXP_T1_OFFSET as int, FINAL_EXP_INPUT_OFFSET as int, FINAL_EXP_T0_OFFSET as int) + forbenius_cs(T2_ROW as int, FINAL_EXP_T1_OFFSET as int, FINAL_EXP_T2_OFFSET as int, 2) + mul_cs(T3_ROW as int, FINAL_EXP_T2_OFFSET as int, FINAL_EXP_T1_OFFSET as int, FINAL_EXP_T3_OFFSET as int) + cyc_exp_cs(T4_ROW as int, FINAL_EXP_T3_OFFSET as int, FINAL_EXP_T4_OFFSET as int) + conjugate_cs(T5_ROW as int, FINAL_EXP_T4_OFFSET as int, FINAL_EXP_T5_OFFSET as int) + cyc_sq_cs(T6_ROW as int, FINAL_EXP_T3_OFFSET as int, FINAL_EXP_T6_OFFSET as int) + conjugate_cs(T7_ROW as int, FINAL_EXP_T6_OFFSET as int, FINAL_EXP_T7_OFFSET as int) + mul_cs(T8_ROW as int, FINAL_EXP_T7_OFFSET as int, FINAL_EXP_T5_OFFSET as int, FINAL_EXP_T8_OFFSET as int) + cyc_exp_cs(T9_ROW as int, FINAL_EXP_T8_OFFSET as int, FINAL_EXP_T9_OFFSET as int) + conjugate_cs(T10_ROW as int, FINAL_EXP_T9_OFFSET as int, FINAL_EXP_T10_OFFSET as int) + cyc_exp_cs(T11_ROW as int, FINAL_EXP_T10_OFFSET as int, FINAL_EXP_T11_OFFSET as int) + conjugate_cs(T12_ROW as int, FINAL_EXP_T11_OFFSET as int, FINAL_EXP_T12_OFFSET as int) + cyc_exp_cs(T13_ROW as int, FINAL_EXP_T12_OFFSET as int, FINAL_EXP_T13_OFFSET as int) + conjugate_cs(T14_ROW as int, FINAL_EXP_T13_OFFSET as int, FINAL_EXP_T14_OFFSET as int) + cyc_sq_cs(T15_ROW as int, FINAL_EXP_T5_OFFSET as int, FINAL_EXP_T15_OFFSET as int) + mul_cs(T16_ROW as int, FINAL_EXP_T14_OFFSET as int, FINAL_EXP_T15_OFFSET as int, FINAL_EXP_T16_OFFSET as int) + cyc_exp_cs(T17_ROW as int, FINAL_EXP_T16_OFFSET as int, FINAL_EXP_T17_OFFSET as int) + conjugate_cs(T18_ROW as int, FINAL_EXP_T17_OFFSET as int, FINAL_EXP_T18_OFFSET as int) + mul_cs(T19_ROW as int, FINAL_EXP_T5_OFFSET as int, FINAL_EXP_T12_OFFSET as int, FINAL_EXP_T19_OFFSET as int) + forbenius_cs(T20_ROW as int, FINAL_EXP_T19_OFFSET as int, FINAL_EXP_T20_OFFSET as int, 2) + mul_cs(T21_ROW as int, FINAL_EXP_T10_OFFSET as int, FINAL_EXP_T3_OFFSET as int, FINAL_EXP_T21_OFFSET as int), forbenius_cs(T22_ROW as int, FINAL_EXP_T21_OFFSET as int, FINAL_EXP_T22_OFFSET as int, 3), c);
    lemma_seq_add_contains(binds_cs(144) + first_row_cs(num_rows) + shift_cs(num_rows - 1) + last_row_cs( num_rows, num_rows, ) + invariance_cs(144) + forbenius_cs(T0_ROW as int, FINAL_EXP_INPUT_OFFSET as int, FINAL_EXP_T0_OFFSET as int, 6) + mul_cs(T1_ROW as int, FINAL_EXP_T1_OFFSET as int, FINAL_EXP_INPUT_OFFSET as int, FINAL_EXP_T0_OFFSET as int) + forbenius_cs(T2_ROW as int, FINAL_EXP_T1_OFFSET as int, FINAL_EXP_T2_OFFSET as int, 2) + mul_cs(T3_ROW as int, FINAL_EXP_T2_OFFSET as int, FINAL_EXP_T1_OFFSET as int, FINAL_EXP_T3_OFFSET as int) + cyc_exp_cs(T4_ROW as int, FINAL_EXP_T3_OFFSET as int, FINAL_EXP_T4_OFFSET as int) + conjugate_cs(T5_ROW as int, FINAL_EXP_T4_OFFSET as int, FINAL_EXP_T5_OFFSET as int) + cyc_sq_cs(T6_ROW as int, FINAL_EXP_T3_OFFSET as int, FINAL_EXP_T6_OFFSET as int) + conjugate_cs(T7_ROW as int, FINAL_EXP_T6_OFFSET as int, FINAL_EXP_T7_OFFSET as int) + mul_cs(T8_ROW as int, FINAL_EXP_T7_OFFSET as int, FINAL_EXP_T5_OFFSET as int, FINAL_EXP_T8_OFFSET as int) + cyc_exp_cs(T9_ROW as int, FINAL_EXP_T8_OFFSET as int, FINAL_EXP_T9_OFFSET as int) + conjugate_cs(T10_ROW as int, FINAL_EXP_T9_OFFSET as int, FINAL_EXP_T10_OFFSET as int) + cyc_exp_cs(T11_ROW as int, FINAL_EXP_T10_OFFSET as int, FINAL_EXP_T11_OFFSET as int) + conjugate_cs(T12_ROW as int, FINAL_EXP_T11_OFFSET as int, FINAL_EXP_T12_OFFSET as int) + cyc_exp_cs(T13_ROW as int, FINAL_EXP_T12_OFFSET as int, FINAL_EXP_T13_OFFSET as int) + conjugate_cs(T14_ROW as int, FINAL_EXP_T13_OFFSET as int, FINAL_EXP_T14_OFFSET as int) + cyc_sq_cs(T15_ROW as int, FINAL_EXP_T5_OFFSET as int, FINAL_EXP_T15_OFFSET as int) + mul_cs(T16_ROW as int, FINAL_EXP_T14_OFFSET as int, FINAL_EXP_T15_OFFSET as int, FINAL_EXP_T16_OFFSET as int) + cyc_exp_cs(T17_ROW as int, FINAL_EXP_T16_OFFSET as int, FINAL_EXP_T17_OFFSET as int) + conjugate_cs(T18_ROW as int, FINAL_EXP_T17_OFFSET as int, FINAL_EXP_T18_OFFSET as int) + mul_cs(T19_ROW as int, FINAL_EXP_T5_OFFSET as int, FINAL_EXP_T12_OFFSET as int, FINAL_EXP_T19_OFFSET as int) + forbenius_cs(T20_ROW as int, FINAL_EXP_T19_OFFSET as int, FINAL_EXP_T20_OFFSET as int, 2) + mul_cs(T21_ROW as int, FINAL_EXP_T10_OFFSET as int, FINAL_EXP_T3_OFFSET as int, FINAL_EXP_T21_OFFSET as int) + forbenius_cs(T22_ROW as int, FINAL_EXP_T21_OFFSET as int, FINAL_EXP_T22_OFFSET as int, 3), conjugate_cs(T23_ROW as int, FINAL_EXP_T3_OFFSET as int, FINAL_EXP_T23_OFFSET as int), c);
    lemma_seq_add_contains(binds_cs(144) + first_row_cs(num_rows) + shift_cs(num_rows - 1) + last_row_cs( num_rows, num_rows, ) + invariance_cs(144) + forbenius_cs(T0_ROW as int, FINAL_EXP_INPUT_OFFSET as int, FINAL_EXP_T0_OFFSET as int, 6) + mul_cs(T1_ROW as int, FINAL_EXP_T1_OFFSET as int, FINAL_EXP_INPUT_OFFSET as int, FINAL_EXP_T0_OFFSET as int) + forbenius_cs(T2_ROW as int, FINAL_EXP_T1_OFFSET as int, FINAL_EXP_T2_OFFSET as int, 2) + mul_cs(T3_ROW as int, FINAL_EXP_T2_OFFSET as int, FINAL_EXP_T1_OFFSET as int, FINAL_EXP_T3_OFFSET as int) + cyc_exp_cs(T4_ROW as int, FINAL_EXP_T3_OFFSET as int, FINAL_EXP_T4_OFFSET as int) + conjugate_cs(T5_ROW as int, FINAL_EXP_T4_OFFSET as int, FINAL_EXP_T5_OFFSET as int) + cyc_sq_cs(T6_ROW as int, FINAL_EXP_T3_OFFSET as int, FINAL_EXP_T6_OFFSET as int) + conjugate_cs(T7_ROW as int, FINAL_EXP_T6_OFFSET as int, FINAL_EXP_T7_OFFSET as int) + mul_cs(T8_ROW as int, FINAL_EXP_T7_OFFSET as int, FINAL_EXP_T5_OFFSET as int, FINAL_EXP_T8_OFFSET as int) + cyc_exp_cs(T9_ROW as int, FINAL_EXP_T8_OFFSET as int, FINAL_EXP_T9_OFFSET as int) + conjugate_cs(T10_ROW as int, FINAL_EXP_T9_OFFSET as int, FINAL_EXP_T10_OFFSET as int) + cyc_exp_cs(T11_ROW as int, FINAL_EXP_T10_OFFSET as int, FINAL_EXP_T11_OFFSET as int) + conjugate_cs(T12_ROW as int, FINAL_EXP_T11_OFFSET as int, FINAL_EXP_T12_OFFSET as int) + cyc_exp_cs(T13_ROW as int, FINAL_EXP_T12_OFFSET as int, FINAL_EXP_T13_OFFSET as int) + conjugate_cs(T14_ROW as int, FINAL_EXP_T13_OFFSET as int, FINAL_EXP_T14_OFFSET as int) + cyc_sq_cs(T15_ROW as int, FINAL_EXP_T5_OFFSET as int, FINAL_EXP_T15_OFFSET as int) + mul_cs(T16_ROW as int, FINAL_EXP_T14_OFFSET as int, FINAL_EXP_T15_OFFSET as int, FINAL_EXP_T16_OFFSET as int) + cyc_exp_cs(T17_ROW as int, FINAL_EXP_T16_OFFSET as int, FINAL_EXP_T17_OFFSET as int) + conjugate_cs(T18_ROW as int, FINAL_EXP_T17_OFFSET as int, FINAL_EXP_T18_OFFSET as int) + mul_cs(T19_ROW as int, FINAL_EXP_T5_OFFSET as int, FINAL_EXP_T12_OFFSET as int, FINAL_EXP_T19_OFFSET as int) + forbenius_cs(T20_ROW as int, FINAL_EXP_T19_OFFSET as int, FINAL_EXP_T20_OFFSET as int, 2) + mul_cs(T21_ROW as int, FINAL_EXP_T10_OFFSET as int, FINAL_EXP_T3_OFFSET as int, FINAL_EXP_T21_OFFSET as int) + forbenius_cs(T22_ROW as int, FINAL_EXP_T21_OFFSET as int, FINAL_EXP_T22_OFFSET as int, 3) + conjugate_cs(T23_ROW as int, FINAL_EXP_T3_OFFSET as int, FINAL_EXP_T23_OFFSET as int), mul_cs(T24_ROW as int, FINAL_EXP_T16_OFFSET as int, FINAL_EXP_T23_OFFSET as int, FINAL_EXP_T24_OFFSET as int), c);
    lemma_seq_add_contains(binds_cs(144) + first_row_cs(num_rows) + shift_cs(num_rows - 1) + last_row_cs( num_rows, num_rows, ) + invariance_cs(144) + forbenius_cs(T0_ROW as int, FINAL_EXP_INPUT_OFFSET as int, FINAL_EXP_T0_OFFSET as int, 6) + mul_cs(T1_ROW as int, FINAL_EXP_T1_OFFSET as int, FINAL_EXP_INPUT_OFFSET as int, FINAL_EXP_T0_OFFSET as int) + forbenius_cs(T2_ROW as int, FINAL_EXP_T1_OFFSET as int, FINAL_EXP_T2_OFFSET as int, 2) + mul_cs(T3_ROW as int, FINAL_EXP_T2_OFFSET as int, FINAL_EXP_T1_OFFSET as int, FINAL_EXP_T3_OFFSET as int) + cyc_exp_cs(T4_ROW as int, FINAL_EXP_T3_OFFSET as int, FINAL_EXP_T4_OFFSET as int) + conjugate_cs(T5_ROW as int, FINAL_EXP_T4_OFFSET as int, FINAL_EXP_T5_OFFSET as int) + cyc_sq_cs(T6_ROW as int, FINAL_EXP_T3_OFFSET as int, FINAL_EXP_T6_OFFSET as int) + conjugate_cs(T7_ROW as int, FINAL_EXP_T6_OFFSET as int, FINAL_EXP_T7_OFFSET as int) + mul_cs(T8_ROW as int, FINAL_EXP_T7_OFFSET as int, FINAL_EXP_T5_OFFSET as int, FINAL_EXP_T8_OFFSET as int) + cyc_exp_cs(T9_ROW as int, FINAL_EXP_T8_OFFSET as int, FINAL_EXP_T9_OFFSET as int) + conjugate_cs(T10_ROW as int, FINAL_EXP_T9_OFFSET as int, FINAL_EXP_T10_OFFSET as int) + cyc_exp_cs(T11_ROW as int, FINAL_EXP_T10_OFFSET as int, FINAL_EXP_T11_OFFSET as int) + conjugate_cs(T12_ROW as int, FINAL_EXP_T11_OFFSET as int, FINAL_EXP_T12_OFFSET as int) + cyc_exp_cs(T13_ROW as int, FINAL_EXP_T12_OFFSET as int, FINAL_EXP_T13_OFFSET as int) + conjugate_cs(T14_ROW as int, FINAL_EXP_T13_OFFSET as int, FINAL_EXP_T14_OFFSET as int) + cyc_sq_cs(T15_ROW as int, FINAL_EXP_T5_OFFSET as int, FINAL_EXP_T15_OFFSET as int) + mul_cs(T16_ROW as int, FINAL_EXP_T14_OFFSET as int, FINAL_EXP_T15_OFFSET as int, FINAL_EXP_T16_OFFSET as int) + cyc_exp_cs(T17_ROW as int, FINAL_EXP_T16_OFFSET as int, FINAL_EXP_T17_OFFSET as int) + conjugate_cs(T18_ROW as int, FINAL_EXP_T17_OFFSET as int, FINAL_EXP_T18_OFFSET as int) + mul_cs(T19_ROW as int, FINAL_EXP_T5_OFFSET as int, FINAL_EXP_T12_OFFSET as int, FINAL_EXP_T19_OFFSET as int) + forbenius_cs(T20_ROW as int, FINAL_EXP_T19_OFFSET as int, FINAL_EXP_T20_OFFSET as int, 2) + mul_cs(T21_ROW as int, FINAL_EXP_T10_OFFSET as int, FINAL_EXP_T3_OFFSET as int, FINAL_EXP_T21_OFFSET as int) + forbenius_cs(T22_ROW as int, FINAL_EXP_T21_OFFSET as int, FINAL_EXP_T22_OFFSET as int, 3) + conjugate_cs(T23_ROW as int, FINAL_EXP_T3_OFFSET as int, FINAL_EXP_T23_OFFSET as int) + mul_cs(T24_ROW as int, FINAL_EXP_T16_OFFSET as int, FINAL_EXP_T23_OFFSET as int, FINAL_EXP_T24_OFFSET as int), forbenius_cs(T25_ROW as int, FINAL_EXP_T24_OFFSET as int, FINAL_EXP_T25_OFFSET as int, 1), c);
    lemma_seq_add_contains(binds_cs(144) + first_row_cs(num_rows) + shift_cs(num_rows - 1) + last_row_cs( num_rows, num_rows, ) + invariance_cs(144) + forbenius_cs(T0_ROW as int, FINAL_EXP_INPUT_OFFSET as int, FINAL_EXP_T0_OFFSET as int, 6) + mul_cs(T1_ROW as int, FINAL_EXP_T1_OFFSET as int, FINAL_EXP_INPUT_OFFSET as int, FINAL_EXP_T0_OFFSET as int) + forbenius_cs(T2_ROW as int, FINAL_EXP_T1_OFFSET as int, FINAL_EXP_T2_OFFSET as int, 2) + mul_cs(T3_ROW as int, FINAL_EXP_T2_OFFSET as int, FINAL_EXP_T1_OFFSET as int, FINAL_EXP_T3_OFFSET as int) + cyc_exp_cs(T4_ROW as int, FINAL_EXP_T3_OFFSET as int, FINAL_EXP_T4_OFFSET as int) + conjugate_cs(T5_ROW as int, FINAL_EXP_T4_OFFSET as int, FINAL_EXP_T5_OFFSET as int) + cyc_sq_cs(T6_ROW as int, FINAL_EXP_T3_OFFSET as int, FINAL_EXP_T6_OFFSET as int) + conjugate_cs(T7_ROW as int, FINAL_EXP_T6_OFFSET as int, FINAL_EXP_T7_OFFSET as int) + mul_cs(T8_ROW as int, FINAL_EXP_T7_OFFSET as int, FINAL_EXP_T5_OFFSET as int, FINAL_EXP_T8_OFFSET as int) + cyc_exp_cs(T9_ROW as int, FINAL_EXP_T8_OFFSET as int, FINAL_EXP_T9_OFFSET as int) + conjugate_cs(T10_ROW as int, FINAL_EXP_T9_OFFSET as int, FINAL_EXP_T10_OFFSET as int) + cyc_exp_cs(T11_ROW as int, FINAL_EXP_T10_OFFSET as int, FINAL_EXP_T11_OFFSET as int) + conjugate_cs(T12_ROW as int, FINAL_EXP_T11_OFFSET as int, FINAL_EXP_T12_OFFSET as int) + cyc_exp_cs(T13_ROW as int, FINAL_EXP_T12_OFFSET as int, FINAL_EXP_T13_OFFSET as int) + conjugate_cs(T14_ROW as int, FINAL_EXP_T13_OFFSET as int, FINAL_EXP_T14_OFFSET as int) + cyc_sq_cs(T15_ROW as int, FINAL_EXP_T5_OFFSET as int, FINAL_EXP_T15_OFFSET as int) + mul_cs(T16_ROW as int, FINAL_EXP_T14_OFFSET as int, FINAL_EXP_T15_OFFSET as int, FINAL_EXP_T16_OFFSET as int) + cyc_exp_cs(T17_ROW as int, FINAL_EXP_T16_OFFSET as int, FINAL_EXP_T17_OFFSET as int) + conjugate_cs(T18_ROW as int, FINAL_EXP_T17_OFFSET as int, FINAL_EXP_T18_OFFSET as int) + mul_cs(T19_ROW as int, FINAL_EXP_T5_OFFSET as int, FINAL_EXP_T12_OFFSET as int, FINAL_EXP_T19_OFFSET as int) + forbenius_cs(T20_ROW as int, FINAL_EXP_T19_OFFSET as int, FINAL_EXP_T20_OFFSET as int, 2) + mul_cs(T21_ROW as int, FINAL_EXP_T10_OFFSET as int, FINAL_EXP_T3_OFFSET as int, FINAL_EXP_T21_OFFSET as int) + forbenius_cs(T22_ROW as int, FINAL_EXP_T21_OFFSET as int, FINAL_EXP_T22_OFFSET as int, 3) + conjugate_cs(T23_ROW as int, FINAL_EXP_T3_OFFSET as int, FINAL_EXP_T23_OFFSET as int) + mul_cs(T24_ROW as int, FINAL_EXP_T16_OFFSET as int, FINAL_EXP_T23_OFFSET as int, FINAL_EXP_T24_OFFSET as int) + forbenius_cs(T25_ROW as int, FINAL_EXP_T24_OFFSET as int, FINAL_EXP_T25_OFFSET as int, 1), conjugate_cs(T26_ROW as int, FINAL_EXP_T8_OFFSET as int, FINAL_EXP_T26_OFFSET as int), c);
    lemma_seq_add_contains(binds_cs(144) + first_row_cs(num_rows) + shift_cs(num_rows - 1) + last_row_cs( num_rows, num_rows, ) + invariance_cs(144) + forbenius_cs(T0_ROW as int, FINAL_EXP_INPUT_OFFSET as int, FINAL_EXP_T0_OFFSET as int, 6) + mul_cs(T1_ROW as int, FINAL_EXP_T1_OFFSET as int, FINAL_EXP_INPUT_OFFSET as int, FINAL_EXP_T0_OFFSET as int) + forbenius_cs(T2_ROW as int, FINAL_EXP_T1_OFFSET as int, FINAL_EXP_T2_OFFSET as int, 2) + mul_cs(T3_ROW as int, FINAL_EXP_T2_OFFSET as int, FINAL_EXP_T1_OFFSET as int, FINAL_EXP_T3_OFFSET as int) + cyc_exp_cs(T4_ROW as int, FINAL_EXP_T3_OFFSET as int, FINAL_EXP_T4_OFFSET as int) + conjugate_cs(T5_ROW as int, FINAL_EXP_T4_OFFSET as int, FINAL_EXP_T5_OFFSET as int) + cyc_sq_cs(T6_ROW as int, FINAL_EXP_T3_OFFSET as int, FINAL_EXP_T6_OFFSET as int) + conjugate_cs(T7_ROW as int, FINAL_EXP_T6_OFFSET as int, FINAL_EXP_T7_OFFSET as int) + mul_cs(T8_ROW as int, FINAL_EXP_T7_OFFSET as int, FINAL_EXP_T5_OFFSET as int, FINAL_EXP_T8_OFFSET as int) + cyc_exp_cs(T9_ROW as int, FINAL_EXP_T8_OFFSET as int, FINAL_EXP_T9_OFFSET as int) + conjugate_cs(T10_ROW as int, FINAL_EXP_T9_OFFSET as int, FINAL_EXP_T10_OFFSET as int) + cyc_exp_cs(T11_ROW as int, FINAL_EXP_T10_OFFSET as int, FINAL_EXP_T11_OFFSET as int) + conjugate_cs(T12_ROW as int, FINAL_EXP_T11_OFFSET as int, FINAL_EXP_T12_OFFSET as int) + cyc_exp_cs(T13_ROW as int, FINAL_EXP_T12_OFFSET as int, FINAL_EXP_T13_OFFSET as int) + conjugate_cs(T14_ROW as int, FINAL_EXP_T13_OFFSET as int, FINAL_EXP_T14_OFFSET as int) + cyc_sq_cs(T15_ROW as int, FINAL_EXP_T5_OFFSET as int, FINAL_EXP_T15_OFFSET as int) + mul_cs(T16_ROW as int, FINAL_EXP_T14_OFFSET as int, FINAL_EXP_T15_OFFSET as int, FINAL_EXP_T16_OFFSET as int) + cyc_exp_cs(T17_ROW as int, FINAL_EXP_T16_OFFSET as int, FINAL_EXP_T17_OFFSET as int) + conjugate_cs(T18_ROW as int, FINAL_EXP_T17_OFFSET as int, FINAL_EXP_T18_OFFSET as int) + mul_cs(T19_ROW as int, FINAL_EXP_T5_OFFSET as int, FINAL_EXP_T12_OFFSET as int, FINAL_EXP_T19_OFFSET as int) + forbenius_cs(T20_ROW as int, FINAL_EXP_T19_OFFSET as int, FINAL_EXP_T20_OFFSET as int, 2) + mul_cs(T21_ROW as int, FINAL_EXP_T10_OFFSET as int, FINAL_EXP_T3_OFFSET as int, FINAL_EXP_T21_OFFSET as int) + forbenius_cs(T22_ROW as int, FINAL_EXP_T21_OFFSET as int, FINAL_EXP_T22_OFFSET as int, 3) + conjugate_cs(T23_ROW as int, FINAL_EXP_T3_OFFSET as int, FINAL_EXP_T23_OFFSET as int) + mul_cs(T24_ROW as int, FINAL_EXP_T16_OFFSET as int, FINAL_EXP_T23_OFFSET as int, FINAL_EXP_T24_OFFSET as int) + forbenius_cs(T25_ROW as int, FINAL_EXP_T24_OFFSET as int, FINAL_EXP_T25_OFFSET as int, 1) + conjugate_cs(T26_ROW as int, FINAL_EXP_T8_OFFSET as int, FINAL_EXP_T26_OFFSET as int), mul_cs(T27_ROW as int, FINAL_EXP_T18_OFFSET as int, FINAL_EXP_T26_OFFSET as int, FINAL_EXP_T27_OFFSET as int), c);
    lemma_seq_add_contains(binds_cs(144) + first_row_cs(num_rows) + shift_cs(num_rows - 1) + last_row_cs( num_rows, num_rows, ) + invariance_cs(144) + forbenius_cs(T0_ROW as int, FINAL_EXP_INPUT_OFFSET as int, FINAL_EXP_T0_OFFSET as int, 6) + mul_cs(T1_ROW as int, FINAL_EXP_T1_OFFSET as int, FINAL_EXP_INPUT_OFFSET as int, FINAL_EXP_T0_OFFSET as int) + forbenius_cs(T2_ROW as int, FINAL_EXP_T1_OFFSET as int, FINAL_EXP_T2_OFFSET as int, 2) + mul_cs(T3_ROW as int, FINAL_EXP_T2_OFFSET as int, FINAL_EXP_T1_OFFSET as int, FINAL_EXP_T3_OFFSET as int) + cyc_exp_cs(T4_ROW as int, FINAL_EXP_T3_OFFSET as int, FINAL_EXP_T4_OFFSET as int) + conjugate_cs(T5_ROW as int, FINAL_EXP_T4_OFFSET as int, FINAL_EXP_T5_OFFSET as int) + cyc_sq_cs(T6_ROW as int, FINAL_EXP_T3_OFFSET as int, FINAL_EXP_T6_OFFSET as int) + conjugate_cs(T7_ROW as int, FINAL_EXP_T6_OFFSET as int, FINAL_EXP_T7_OFFSET as int) + mul_cs(T8_ROW as int, FINAL_EXP_T7_OFFSET as int, FINAL_EXP_T5_OFFSET as int, FINAL_EXP_T8_OFFSET as int) + cyc_exp_cs(T9_ROW as int, FINAL_EXP_T8_OFFSET as int, FINAL_EXP_T9_OFFSET as int) + conjugate_cs(T10_ROW as int, FINAL_EXP_T9_OFFSET as int, FINAL_EXP_T10_OFFSET as int) + cyc_exp_cs(T11_ROW as int, FINAL_EXP_T10_OFFSET as int, FINAL_EXP_T11_OFFSET as int) + conjugate_cs(T12_ROW as int, FINAL_EXP_T11_OFFSET as int, FINAL_EXP_T12_OFFSET as int) + cyc_exp_cs(T13_ROW as int, FINAL_EXP_T12_OFFSET as int, FINAL_EXP_T13_OFFSET as int) + conjugate_cs(T14_ROW as int, FINAL_EXP_T13_OFFSET as int, FINAL_EXP_T14_OFFSET as int) + cyc_sq_cs(T15_ROW as int, FINAL_EXP_T5_OFFSET as int, FINAL_EXP_T15_OFFSET as int) + mul_cs(T16_ROW as int, FINAL_EXP_T14_OFFSET as int, FINAL_EXP_T15_OFFSET as int, FINAL_EXP_T16_OFFSET as int) + cyc_exp_cs(T17_ROW as int, FINAL_EXP_T16_OFFSET as int, FINAL_EXP_T17_OFFSET as int) + conjugate_cs(T18_ROW as int, FINAL_EXP_T17_OFFSET as int, FINAL_EXP_T18_OFFSET as int) + mul_cs(T19_ROW as int, FINAL_EXP_T5_OFFSET as int, FINAL_EXP_T12_OFFSET as int, FINAL_EXP_T19_OFFSET as int) + forbenius_cs(T20_ROW as int, FINAL_EXP_T19_OFFSET as int, FINAL_EXP_T20_OFFSET as int, 2) + mul_cs(T21_ROW as int, FINAL_EXP_T10_OFFSET as int, FINAL_EXP_T3_OFFSET as int, FINAL_EXP_T21_OFFSET as int) + forbenius_cs(T22_ROW as int, FINAL_EXP_T21_OFFSET as int, FINAL_EXP_T22_OFFSET as int, 3) + conjugate_cs(T23_ROW as int, FINAL_EXP_T3_OFFSET as int, FINAL_EXP_T23_OFFSET as int) + mul_cs(T24_ROW as int, FINAL_EXP_T16_OFFSET as int, FINAL_EXP_T23_OFFSET as int, FINAL_EXP_T24_OFFSET as int) + forbenius_cs(T25_ROW as int, FINAL_EXP_T24_OFFSET as int, FINAL_EXP_T25_OFFSET as int, 1) + conjugate_cs(T26_ROW as int, FINAL_EXP_T8_OFFSET as int, FINAL_EXP_T26_OFFSET as int) + mul_cs(T27_ROW as int, FINAL_EXP_T18_OFFSET as int, FINAL_EXP_T26_OFFSET as int, FINAL_EXP_T27_OFFSET as int), mul_cs(T28_ROW as int, FINAL_EXP_T27_OFFSET as int, FINAL_EXP_T3_OFFSET as int, FINAL_EXP_T28_OFFSET as int), c);
    lemma_seq_add_contains(binds_cs(144) + first_row_cs(num_rows) + shift_cs(num_rows - 1) + last_row_cs( num_rows, num_rows, ) + invariance_cs(144) + forbenius_cs(T0_ROW as int, FINAL_EXP_INPUT_OFFSET as int, FINAL_EXP_T0_OFFSET as int, 6) + mul_cs(T1_ROW as int, FINAL_EXP_T1_OFFSET as int, FINAL_EXP_INPUT_OFFSET as int, FINAL_EXP_T0_OFFSET as int) + forbenius_cs(T2_ROW as int, FINAL_EXP_T1_OFFSET as int, FINAL_EXP_T2_OFFSET as int, 2) + mul_cs(T3_ROW as int, FINAL_EXP_T2_OFFSET as int, FINAL_EXP_T1_OFFSET as int, FINAL_EXP_T3_OFFSET as int) + cyc_exp_cs(T4_ROW as int, FINAL_EXP_T3_OFFSET as int, FINAL_EXP_T4_OFFSET as int) + conjugate_cs(T5_ROW as int, FINAL_EXP_T4_OFFSET as int, FINAL_EXP_T5_OFFSET as int) + cyc_sq_cs(T6_ROW as int, FINAL_EXP_T3_OFFSET as int, FINAL_EXP_T6_OFFSET as int) + conjugate_cs(T7_ROW as int, FINAL_EXP_T6_OFFSET as int, FINAL_EXP_T7_OFFSET as int) + mul_cs(T8_ROW as int, FINAL_EXP_T7_OFFSET as int, FINAL_EXP_T5_OFFSET as int, FINAL_EXP_T8_OFFSET as int) + cyc_exp_cs(T9_ROW as int, FINAL_EXP_T8_OFFSET as int, FINAL_EXP_T9_OFFSET as int) + conjugate_cs(T10_ROW as int, FINAL_EXP_T9_OFFSET as int, FINAL_EXP_T10_OFFSET as int) + cyc_exp_cs(T11_ROW as int, FINAL_EXP_T10_OFFSET as int, FINAL_EXP_T11_OFFSET as int) + conjugate_cs(T12_ROW as int, FINAL_EXP_T11_OFFSET as int, FINAL_EXP_T12_OFFSET as int) + cyc_exp_cs(T13_ROW as int, FINAL_EXP_T12_OFFSET as int, FINAL_EXP_T13_OFFSET as int) + conjugate_cs(T14_ROW as int, FINAL_EXP_T13_OFFSET as int, FINAL_EXP_T14_OFFSET as int) + cyc_sq_cs(T15_ROW as int, FINAL_EXP_T5_OFFSET as int, FINAL_EXP_T15_OFFSET as int) + mul_cs(T16_ROW as int, FINAL_EXP_T14_OFFSET as int, FINAL_EXP_T15_OFFSET as int, FINAL_EXP_T16_OFFSET as int) + cyc_exp_cs(T17_ROW as int, FINAL_EXP_T16_OFFSET as int, FINAL_EXP_T17_OFFSET as int) + conjugate_cs(T18_ROW as int, FINAL_EXP_T17_OFFSET as int, FINAL_EXP_T18_OFFSET as int) + mul_cs(T19_ROW as int, FINAL_EXP_T5_OFFSET as int, FINAL_EXP_T12_OFFSET as int, FINAL_EXP_T19_OFFSET as int) + forbenius_cs(T20_ROW as int, FINAL_EXP_T19_OFFSET as int, FINAL_EXP_T20_OFFSET as int, 2) + mul_cs(T21_ROW as int, FINAL_EXP_T10_OFFSET as int, FINAL_EXP_T3_OFFSET as int, FINAL_EXP_T21_OFFSET as int) + forbenius_cs(T22_ROW as int, FINAL_EXP_T21_OFFSET as int, FINAL_EXP_T22_OFFSET as int, 3) + conjugate_cs(T23_ROW as int, FINAL_EXP_T3_OFFSET as int, FINAL_EXP_T23_OFFSET as int) + mul_cs(T24_ROW as int, FINAL_EXP_T16_OFFSET as int, FINAL_EXP_T23_OFFSET as int, FINAL_EXP_T24_OFFSET as int) + forbenius_cs(T25_ROW as int, FINAL_EXP_T24_OFFSET as int, FINAL_EXP_T25_OFFSET as int, 1) + conjugate_cs(T26_ROW as int, FINAL_EXP_T8_OFFSET as int, FINAL_EXP_T26_OFFSET as int) + mul_cs(T27_ROW as int, FINAL_EXP_T18_OFFSET as int, FINAL_EXP_T26_OFFSET as int, FINAL_EXP_T27_OFFSET as int) + mul_cs(T28_ROW as int, FINAL_EXP_T27_OFFSET as int, FINAL_EXP_T3_OFFSET as int, FINAL_EXP_T28_OFFSET as int), mul_cs(T29_ROW as int, FINAL_EXP_T20_OFFSET as int, FINAL_EXP_T22_OFFSET as int, FINAL_EXP_T29_OFFSET as int), c);
    lemma_seq_add_contains(binds_cs(144) + first_row_cs(num_rows) + shift_cs(num_rows - 1) + last_row_cs( num_rows, num_rows, ) + invariance_cs(144) + forbenius_cs(T0_ROW as int, FINAL_EXP_INPUT_OFFSET as int, FINAL_EXP_T0_OFFSET as int, 6) + mul_cs(T1_ROW as int, FINAL_EXP_T1_OFFSET as int, FINAL_EXP_INPUT_OFFSET as int, FINAL_EXP_T0_OFFSET as int) + forbenius_cs(T2_ROW as int, FINAL_EXP_T1_OFFSET as int, FINAL_EXP_T2_OFFSET as int, 2) + mul_cs(T3_ROW as int, FINAL_EXP_T2_OFFSET as int, FINAL_EXP_T1_OFFSET as int, FINAL_EXP_T3_OFFSET as int) + cyc_exp_cs(T4_ROW as int, FINAL_EXP_T3_OFFSET as int, FINAL_EXP_T4_OFFSET as int) + conjugate_cs(T5_ROW as int, FINAL_EXP_T4_OFFSET as int, FINAL_EXP_T5_OFFSET as int) + cyc_sq_cs(T6_ROW as int, FINAL_EXP_T3_OFFSET as int, FINAL_EXP_T6_OFFSET as int) + conjugate_cs(T7_ROW as int, FINAL_EXP_T6_OFFSET as int, FINAL_EXP_T7_OFFSET as int) + mul_cs(T8_ROW as int, FINAL_EXP_T7_OFFSET as int, FINAL_EXP_T5_OFFSET as int, FINAL_EXP_T8_OFFSET as int) + cyc_exp_cs(T9_ROW as int, FINAL_EXP_T8_OFFSET as int, FINAL_EXP_T9_OFFSET as int) + conjugate_cs(T10_ROW as int, FINAL_EXP_T9_OFFSET as int, FINAL_EXP_T10_OFFSET as int) + cyc_exp_cs(T11_ROW as int, FINAL_EXP_T10_OFFSET as int, FINAL_EXP_T11_OFFSET as int) + conjugate_cs(T12_ROW as int, FINAL_EXP_T11_OFFSET as int, FINAL_EXP_T12_OFFSET as int) + cyc_exp_cs(T13_ROW as int, FINAL_EXP_T12_OFFSET as int, FINAL_EXP_T13_OFFSET as int) + conjugate_cs(T14_ROW as int, FINAL_EXP_T13_OFFSET as int, FINAL_EXP_T14_OFFSET as int) + cyc_sq_cs(T15_ROW as int, FINAL_EXP_T5_OFFSET as int, FINAL_EXP_T15_OFFSET as int) + mul_cs(T16_ROW as int, FINAL_EXP_T14_OFFSET as int, FINAL_EXP_T15_OFFSET as int, FINAL_EXP_T16_OFFSET as int) + cyc_exp_cs(T17_ROW as int, FINAL_EXP_T16_OFFSET as int, FINAL_EXP_T17_OFFSET as int) + conjugate_cs(T18_ROW as int, FINAL_EXP_T17_OFFSET as int, FINAL_EXP_T18_OFFSET as int) + mul_cs(T19_ROW as int, FINAL_EXP_T5_OFFSET as int, FINAL_EXP_T12_OFFSET as int, FINAL_EXP_T19_OFFSET as int) + forbenius_cs(T20_ROW as int, FINAL_EXP_T19_OFFSET as int, FINAL_EXP_T20_OFFSET as int, 2) + mul_cs(T21_ROW as int, FINAL_EXP_T10_OFFSET as int, FINAL_EXP_T3_OFFSET as int, FINAL_EXP_T21_OFFSET as int) + forbenius_cs(T22_ROW as int, FINAL_EXP_T21_OFFSET as int, FINAL_EXP_T22_OFFSET as int, 3) + conjugate_cs(T23_ROW as int, FINAL_EXP_T3_OFFSET as int, FINAL_EXP_T23_OFFSET as int) + mul_cs(T24_ROW as int, FINAL_EXP_T16_OFFSET as int, FINAL_EXP_T23_OFFSET as int, FINAL_EXP_T24_OFFSET as int) + forbenius_cs(T25_ROW as int, FINAL_EXP_T24_OFFSET as int, FINAL_EXP_T25_OFFSET as int, 1) + conjugate_cs(T26_ROW as int, FINAL_EXP_T8_OFFSET as int, FINAL_EXP_T26_OFFSET as int) + mul_cs(T27_ROW as int, FINAL_EXP_T18_OFFSET as int, FINAL_EXP_T26_OFFSET as int, FINAL_EXP_T27_OFFSET as int) + mul_cs(T28_ROW as int, FINAL_EXP_T27_OFFSET as int, FINAL_EXP_T3_OFFSET as int, FINAL_EXP_T28_OFFSET as int) + mul_cs(T29_ROW as int, FINAL_EXP_T20_OFFSET as int, FINAL_EXP_T22_OFFSET as int, FINAL_EXP_T29_OFFSET as int), mul_cs(T30_ROW as int, FINAL_EXP_T29_OFFSET as int, FINAL_EXP_T25_OFFSET as int, FINAL_EXP_T30_OFFSET as int), c);
    lemma_seq_add_contains(binds_cs(144) + first_row_cs(num_rows) + shift_cs(num_rows - 1) + last_row_cs( num_rows, num_rows, ) + invariance_cs(144) + forbenius_cs(T0_ROW as int, FINAL_EXP_INPUT_OFFSET as int, FINAL_EXP_T0_OFFSET as int, 6) + mul_cs(T1_ROW as int, FINAL_EXP_T1_OFFSET as int, FINAL_EXP_INPUT_OFFSET as int, FINAL_EXP_T0_OFFSET as int) + forbenius_cs(T2_ROW as int, FINAL_EXP_T1_OFFSET as int, FINAL_EXP_T2_OFFSET as int, 2) + mul_cs(T3_ROW as int, FINAL_EXP_T2_OFFSET as int, FINAL_EXP_T1_OFFSET as int, FINAL_EXP_T3_OFFSET as int) + cyc_exp_cs(T4_ROW as int, FINAL_EXP_T3_OFFSET as int, FINAL_EXP_T4_OFFSET as int) + conjugate_cs(T5_ROW as int, FINAL_EXP_T4_OFFSET as int, FINAL_EXP_T5_OFFSET as int) + cyc_sq_cs(T6_ROW as int, FINAL_EXP_T3_OFFSET as int, FINAL_EXP_T6_OFFSET as int) + conjugate_cs(T7_ROW as int, FINAL_EXP_T6_OFFSET as int, FINAL_EXP_T7_OFFSET as int) + mul_cs(T8_ROW as int, FINAL_EXP_T7_OFFSET as int, FINAL_EXP_T5_OFFSET as int, FINAL_EXP_T8_OFFSET as int) + cyc_exp_cs(T9_ROW as int, FINAL_EXP_T8_OFFSET as int, FINAL_EXP_T9_OFFSET as int) + conjugate_cs(T10_ROW as int, FINAL_EXP_T9_OFFSET as int, FINAL_EXP_T10_OFFSET as int) + cyc_exp_cs(T11_ROW as int, FINAL_EXP_T10_OFFSET as int, FINAL_EXP_T11_OFFSET as int) + conjugate_cs(T12_ROW as int, FINAL_EXP_T11_OFFSET as int, FINAL_EXP_T12_OFFSET as int) + cyc_exp_cs(T13_ROW as int, FINAL_EXP_T12_OFFSET as int, FINAL_EXP_T13_OFFSET as int) + conjugate_cs(T14_ROW as int, FINAL_EXP_T13_OFFSET as int, FINAL_EXP_T14_OFFSET as int) + cyc_sq_cs(T15_ROW as int, FINAL_EXP_T5_OFFSET as int, FINAL_EXP_T15_OFFSET as int) + mul_cs(T16_ROW as int, FINAL_EXP_T14_OFFSET as int, FINAL_EXP_T15_OFFSET as int, FINAL_EXP_T16_OFFSET as int) + cyc_exp_cs(T17_ROW as int, FINAL_EXP_T16_OFFSET as int, FINAL_EXP_T17_OFFSET as int) + conjugate_cs(T18_ROW as int, FINAL_EXP_T17_OFFSET as int, FINAL_EXP_T18_OFFSET as int) + mul_cs(T19_ROW as int, FINAL_EXP_T5_OFFSET as int, FINAL_EXP_T12_OFFSET as int, FINAL_EXP_T19_OFFSET as int) + forbenius_cs(T20_ROW as int, FINAL_EXP_T19_OFFSET as int, FINAL_EXP_T20_OFFSET as int, 2) + mul_cs(T21_ROW as int, FINAL_EXP_T10_OFFSET as int, FINAL_EXP_T3_OFFSET as int, FINAL_EXP_T21_OFFSET as int) + forbenius_cs(T22_ROW as int, FINAL_EXP_T21_OFFSET as int, FINAL_EXP_T22_OFFSET as int, 3) + conjugate_cs(T23_ROW as int, FINAL_EXP_T3_OFFSET as int, FINAL_EXP_T23_OFFSET as int) + mul_cs(T24_ROW as int, FINAL_EXP_T16_OFFSET as int, FINAL_EXP_T23_OFFSET as int, FINAL_EXP_T24_OFFSET as int) + forbenius_cs(T25_ROW as int, FINAL_EXP_T24_OFFSET as int, FINAL_EXP_T25_OFFSET as int, 1) + conjugate_cs(T26_ROW as int, FINAL_EXP_T8_OFFSET as int, FINAL_EXP_T26_OFFSET as int) + mul_cs(T27_ROW as int, FINAL_EXP_T18_OFFSET as int, FINAL_EXP_T26_OFFSET as int, FINAL_EXP_T27_OFFSET as int) + mul_cs(T28_ROW as int, FINAL_EXP_T27_OFFSET as int, FINAL_EXP_T3_OFFSET as int, FINAL_EXP_T28_OFFSET as int) + mul_cs(T29_ROW as int, FINAL_EXP_T20_OFFSET as int, FINAL_EXP_T22_OFFSET as int, FINAL_EXP_T29_OFFSET as int) + mul_cs(T30_ROW as int, FINAL_EXP_T29_OFFSET as int, FINAL_EXP_T25_OFFSET as int, FINAL_EXP_T30_OFFSET as int), mul_cs(T31_ROW as int, FINAL_EXP_T30_OFFSET as int, FINAL_EXP_T28_OFFSET as int, FINAL_EXP_T31_OFFSET as int), c);

}

/// Goldilocks subtraction of canonical values is zero only on equal values.
proof fn lemma_gl_sub_nonzero(a: int, b: int)
    requires
        0 <= a < GOLDILOCKS,
        0 <= b < GOLDILOCKS,
        a != b,
    ensures
        gl_sub_spec(a, b) != 0,
{
    let g = GOLDILOCKS as int;
    lemma_small_mod(b as nat, GOLDILOCKS as nat);
    if a > b {
        lemma_mod_multiples_vanish(1, a - b, g);
        lemma_small_mod((a - b) as nat, GOLDILOCKS as nat);
    } else {
        lemma_small_mod((a + g - b) as nat, GOLDILOCKS as nat);
    }
}

/// Tamper rejection for the output register: if limb `i` of `T31` differs
/// between a row and the row after it, the emitted row-invariance
/// transition of that limb evaluates nonzero on that row pair.
#[verifier::rlimit(100)]
#[verifier::spinoff_prover]
pub proof fn lemma_tampered_output_register_rejected(
    num_rows: int,
    i: int,
    l: Seq<u64>,
    n: Seq<u64>,
    pis: Seq<u64>,
)
    requires
        0 <= i < 144,
        FINAL_EXP_T31_OFFSET + i < l.len(),
        FINAL_EXP_T31_OFFSET + i < n.len(),
        l[FINAL_EXP_T31_OFFSET + i] < GOLDILOCKS,
        n[FINAL_EXP_T31_OFFSET + i] < GOLDILOCKS,
        l[FINAL_EXP_T31_OFFSET + i] != n[FINAL_EXP_T31_OFFSET + i],
    ensures
        stark_constraints_spec(num_rows).contains(
            Constraint::Transition {
                a: (FINAL_EXP_T31_OFFSET + i) as usize,
                b: (FINAL_EXP_T31_OFFSET + i) as usize,
            },
        ),
        eval_spec(
            Constraint::Transition {
                a: (FINAL_EXP_T31_OFFSET + i) as usize,
                b: (FINAL_EXP_T31_OFFSET + i) as usize,
            },
            l,
            n,
            pis,
        ) != 0,
{
    assert(FINAL_EXP_T31_OFFSET == FINAL_EXP_T0_OFFSET + 144 * 31);
    lemma_invariance_constraints_emitted(num_rows, 31, i);
    lemma_gl_sub_nonzero(l[FINAL_EXP_T31_OFFSET + i] as int, n[FINAL_EXP_T31_OFFSET + i] as int);
}

/// Tamper rejection for the input register: if limb `i` of `INPUT` differs
/// between a row and the row after it, the emitted row-invariance
/// transition of that limb evaluates nonzero on that row pair.
#[verifier::rlimit(100)]
#[verifier::spinoff_prover]
pub proof fn lemma_tampered_input_register_rejected(
    num_rows: int,
    i: int,
    l: Seq<u64>,
    n: Seq<u64>,
    pis: Seq<u64>,
)
    requires
        0 <= i < 144,
        FINAL_EXP_INPUT_OFFSET + i < l.len(),
        FINAL_EXP_INPUT_OFFSET + i < n.len(),
        l[FINAL_EXP_INPUT_OFFSET + i] < GOLDILOCKS,
        n[FINAL_EXP_INPUT_OFFSET + i] < GOLDILOCKS,
        l[FINAL_EXP_INPUT_OFFSET + i] != n[FINAL_EXP_INPUT_OFFSET + i],
    ensures
        stark_constraints_spec(num_rows).contains(
            Constraint::Transition {
                a: (FINAL_EXP_INPUT_OFFSET + i) as usize,
                b: (FINAL_EXP_INPUT_OFFSET + i) as usize,
            },
        ),
        eval_spec(
            Constraint::Transition {
                a: (FINAL_EXP_INPUT_OFFSET + i) as usize,
                b: (FINAL_EXP_INPUT_OFFSET + i) as usize,
            },
            l,
            n,
            pis,
        ) != 0,
{
    lemma_invariance_constraints_emitted(num_rows, 0, i);
    lemma_gl_sub_nonzero(
        l[FINAL_EXP_INPUT_OFFSET + i] as int,
        n[FINAL_EXP_INPUT_OFFSET + i] as int,
    );
}

/// Tamper rejection for a forged kind selector: on an honest trace row of
/// the first frobenius range whose `MUL` selector was set to 1, the emitted
/// kind-exclusivity constraint of that row evaluates to 1.
#[verifier::rlimit(100)]
#[verifier::spinoff_prover]
pub proof fn lemma_forged_mul_selector_rejected(
    num_rows: int,
    x: Fp12Val,
    rr: int,
    n: Seq<u64>,
    pis: Seq<u64>,
)
    requires
        T0_ROW <= rr < T1_ROW,
    ensures
        stark_constraints_spec(num_rows).contains(
            Constraint::Gated {
                gate: (FINAL_EXP_ROW_SELECTORS + rr) as usize,
                a: FINAL_EXP_MUL_SELECTOR,
                val: 0,
            },
        ),
        eval_spec(
            Constraint::Gated {
                gate: (FINAL_EXP_ROW_SELECTORS + rr) as usize,
                a: FINAL_EXP_MUL_SELECTOR,
                val: 0,
            },
            trace_row(x, rr).update(FINAL_EXP_MUL_SELECTOR as int, 1u64),
            n,
            pis,
        ) == 1,
{
    let g = GOLDILOCKS as int;
    let c = Constraint::Gated {
        gate: (FINAL_EXP_ROW_SELECTORS + rr) as usize,
        a: FINAL_EXP_MUL_SELECTOR,
        val: 0,
    };
    assert(sel_cell(rr, OpKind::Mul) == 0);
    assert(exclusivity_row_cs(rr)[2] == c);
    assert(exclusivity_row_cs(rr).contains(c));
    lemma_exclusivity_constraints_emitted(num_rows, rr, c);
    let l = trace_row(x, rr).update(FINAL_EXP_MUL_SELECTOR as int, 1u64);
    assert(l[FINAL_EXP_ROW_SELECTORS + rr] == trace_cell(x, rr, FINAL_EXP_ROW_SELECTORS + rr));
    assert(l[FINAL_EXP_ROW_SELECTORS + rr] == 1);
    assert(l[FINAL_EXP_MUL_SELECTOR as int] == 1);
    assert(gl_sub_spec(1, 0) == 1) by {
        lemma_small_mod(0, GOLDILOCKS as nat);
        lemma_mod_multiples_vanish(1, 1, g);
        lemma_small_mod(1, GOLDILOCKS as nat);
    }
    lemma_gl_gate(1, 1);
}
} // verus!
