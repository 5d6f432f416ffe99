//! Column layout, row schedule, and the trace builder of the
//! final-exponentiation STARK.
//!
//! The trace is a matrix of field cells (canonical `u64` values, all below
//! 2^32): a one-hot row-selector block, five kind selectors, the public
//! input, 32 row-invariant result registers, and the shared operand bus on
//! which the active sub-operation exposes its interface cells.

use crate::tower::{
    compute_schedule, final_exp_spec, fp12_limb, sched_val, Fp12, Fp12Val,
};
use vstd::arithmetic::div_mod::{
    lemma_div_multiples_vanish_fancy, lemma_mod_bound, lemma_mod_multiples_vanish,
    lemma_small_mod,
};
use vstd::prelude::*;

verus! {

pub const FINAL_EXP_ROW_SELECTORS: usize = 0;

pub const FINAL_EXP_FORBENIUS_MAP_SELECTOR: usize = FINAL_EXP_ROW_SELECTORS + 8192;

pub const FINAL_EXP_CYCLOTOMIC_EXP_SELECTOR: usize = FINAL_EXP_FORBENIUS_MAP_SELECTOR + 1;

pub const FINAL_EXP_MUL_SELECTOR: usize = FINAL_EXP_CYCLOTOMIC_EXP_SELECTOR + 1;

pub const FINAL_EXP_CYCLOTOMIC_SQ_SELECTOR: usize = FINAL_EXP_MUL_SELECTOR + 1;

pub const FINAL_EXP_CONJUGATE_SELECTOR: usize = FINAL_EXP_CYCLOTOMIC_SQ_SELECTOR + 1;

pub const FINAL_EXP_INPUT_OFFSET: usize = FINAL_EXP_CONJUGATE_SELECTOR + 1;

pub const FINAL_EXP_T0_OFFSET: usize = FINAL_EXP_INPUT_OFFSET + 144;

pub const FINAL_EXP_T1_OFFSET: usize = FINAL_EXP_T0_OFFSET + 1 * 144;

pub const FINAL_EXP_T2_OFFSET: usize = FINAL_EXP_T0_OFFSET + 2 * 144;

pub const FINAL_EXP_T3_OFFSET: usize = FINAL_EXP_T0_OFFSET + 3 * 144;

pub const FINAL_EXP_T4_OFFSET: usize = FINAL_EXP_T0_OFFSET + 4 * 144;

pub const FINAL_EXP_T5_OFFSET: usize = FINAL_EXP_T0_OFFSET + 5 * 144;

pub const FINAL_EXP_T6_OFFSET: usize = FINAL_EXP_T0_OFFSET + 6 * 144;

pub const FINAL_EXP_T7_OFFSET: usize = FINAL_EXP_T0_OFFSET + 7 * 144;

pub const FINAL_EXP_T8_OFFSET: usize = FINAL_EXP_T0_OFFSET + 8 * 144;

pub const FINAL_EXP_T9_OFFSET: usize = FINAL_EXP_T0_OFFSET + 9 * 144;

pub const FINAL_EXP_T10_OFFSET: usize = FINAL_EXP_T0_OFFSET + 10 * 144;

pub const FINAL_EXP_T11_OFFSET: usize = FINAL_EXP_T0_OFFSET + 11 * 144;

pub const FINAL_EXP_T12_OFFSET: usize = FINAL_EXP_T0_OFFSET + 12 * 144;

pub const FINAL_EXP_T13_OFFSET: usize = FINAL_EXP_T0_OFFSET + 13 * 144;

pub const FINAL_EXP_T14_OFFSET: usize = FINAL_EXP_T0_OFFSET + 14 * 144;

pub const FINAL_EXP_T15_OFFSET: usize = FINAL_EXP_T0_OFFSET + 15 * 144;

pub const FINAL_EXP_T16_OFFSET: usize = FINAL_EXP_T0_OFFSET + 16 * 144;

pub const FINAL_EXP_T17_OFFSET: usize = FINAL_EXP_T0_OFFSET + 17 * 144;

pub const FINAL_EXP_T18_OFFSET: usize = FINAL_EXP_T0_OFFSET + 18 * 144;

pub const FINAL_EXP_T19_OFFSET: usize = FINAL_EXP_T0_OFFSET + 19 * 144;

pub const FINAL_EXP_T20_OFFSET: usize = FINAL_EXP_T0_OFFSET + 20 * 144;

pub const FINAL_EXP_T21_OFFSET: usize = FINAL_EXP_T0_OFFSET + 21 * 144;

pub const FINAL_EXP_T22_OFFSET: usize = FINAL_EXP_T0_OFFSET + 22 * 144;

pub const FINAL_EXP_T23_OFFSET: usize = FINAL_EXP_T0_OFFSET + 23 * 144;

pub const FINAL_EXP_T24_OFFSET: usize = FINAL_EXP_T0_OFFSET + 24 * 144;

pub const FINAL_EXP_T25_OFFSET: usize = FINAL_EXP_T0_OFFSET + 25 * 144;

pub const FINAL_EXP_T26_OFFSET: usize = FINAL_EXP_T0_OFFSET + 26 * 144;

pub const FINAL_EXP_T27_OFFSET: usize = FINAL_EXP_T0_OFFSET + 27 * 144;

pub const FINAL_EXP_T28_OFFSET: usize = FINAL_EXP_T0_OFFSET + 28 * 144;

pub const FINAL_EXP_T29_OFFSET: usize = FINAL_EXP_T0_OFFSET + 29 * 144;

pub const FINAL_EXP_T30_OFFSET: usize = FINAL_EXP_T0_OFFSET + 30 * 144;

pub const FINAL_EXP_T31_OFFSET: usize = FINAL_EXP_T0_OFFSET + 31 * 144;

pub const FINAL_EXP_OP_OFFSET: usize = FINAL_EXP_T0_OFFSET + 32 * 144;

// Interface cells of the sub-operations inside the shared operand bus.
pub const OP_FROBENIUS_INPUT: usize = 0;

pub const OP_FROBENIUS_POW: usize = OP_FROBENIUS_INPUT + 144;

pub const OP_FROBENIUS_OUTPUT: usize = OP_FROBENIUS_POW + 1;

pub const OP_MUL_X_INPUT: usize = OP_FROBENIUS_OUTPUT + 144;

pub const OP_MUL_Y_INPUT: usize = OP_MUL_X_INPUT + 144;

pub const OP_MUL_OUTPUT: usize = OP_MUL_Y_INPUT + 144;

pub const OP_CYCLOTOMIC_EXP_INPUT: usize = OP_MUL_OUTPUT + 144;

pub const OP_CYCLOTOMIC_EXP_RES_ROW_SELECTOR: usize = OP_CYCLOTOMIC_EXP_INPUT + 144;

pub const OP_CYCLOTOMIC_EXP_Z: usize = OP_CYCLOTOMIC_EXP_RES_ROW_SELECTOR + 1;

pub const OP_CYCLOTOMIC_SQ_INPUT: usize = OP_CYCLOTOMIC_EXP_Z + 144;

pub const OP_CYCLOTOMIC_SQ_OUTPUT: usize = OP_CYCLOTOMIC_SQ_INPUT + 144;

pub const OP_CONJUGATE_INPUT: usize = OP_CYCLOTOMIC_SQ_OUTPUT + 144;

pub const OP_CONJUGATE_OUTPUT: usize = OP_CONJUGATE_INPUT + 144;

pub const OP_TOTAL_COLUMNS: usize = OP_CONJUGATE_OUTPUT + 144;

pub const FINAL_EXP_TOTAL_COLUMNS: usize = FINAL_EXP_OP_OFFSET + OP_TOTAL_COLUMNS;

pub const TOTAL_COLUMNS: usize = FINAL_EXP_TOTAL_COLUMNS;

pub const COLUMNS: usize = TOTAL_COLUMNS;

pub const PIS_INPUT_OFFSET: usize = 0;

pub const PIS_OUTPUT_OFFSET: usize = PIS_INPUT_OFFSET + 144;

pub const PUBLIC_INPUTS: usize = PIS_OUTPUT_OFFSET + 144;

pub const FP12_MUL_ROWS: usize = 12;

pub const FP12_FORBENIUS_MAP_ROWS: usize = 12;

pub const CYCLOTOMIC_SQ_ROWS: usize = 12;

pub const CONJUGATE_ROWS: usize = 1;

pub const CYCLOTOMIC_EXP_ROWS: usize = 70 * 12 + 1;

pub const T0_ROW: usize = 0;

pub const T1_ROW: usize = T0_ROW + FP12_FORBENIUS_MAP_ROWS;

pub const T2_ROW: usize = T1_ROW + FP12_MUL_ROWS;

pub const T3_ROW: usize = T2_ROW + FP12_FORBENIUS_MAP_ROWS;

pub const T4_ROW: usize = T3_ROW + FP12_MUL_ROWS;

pub const T5_ROW: usize = T4_ROW + CYCLOTOMIC_EXP_ROWS;

pub const T6_ROW: usize = T5_ROW + CONJUGATE_ROWS;

pub const T7_ROW: usize = T6_ROW + CYCLOTOMIC_SQ_ROWS;

pub const T8_ROW: usize = T7_ROW + CONJUGATE_ROWS;

pub const T9_ROW: usize = T8_ROW + FP12_MUL_ROWS;

pub const T10_ROW: usize = T9_ROW + CYCLOTOMIC_EXP_ROWS;

pub const T11_ROW: usize = T10_ROW + CONJUGATE_ROWS;

pub const T12_ROW: usize = T11_ROW + CYCLOTOMIC_EXP_ROWS;

pub const T13_ROW: usize = T12_ROW + CONJUGATE_ROWS;

pub const T14_ROW: usize = T13_ROW + CYCLOTOMIC_EXP_ROWS;

pub const T15_ROW: usize = T14_ROW + CONJUGATE_ROWS;

pub const T16_ROW: usize = T15_ROW + CYCLOTOMIC_SQ_ROWS;

pub const T17_ROW: usize = T16_ROW + FP12_MUL_ROWS;

pub const T18_ROW: usize = T17_ROW + CYCLOTOMIC_EXP_ROWS;

pub const T19_ROW: usize = T18_ROW + CONJUGATE_ROWS;

pub const T20_ROW: usize = T19_ROW + FP12_MUL_ROWS;

pub const T21_ROW: usize = T20_ROW + FP12_FORBENIUS_MAP_ROWS;

pub const T22_ROW: usize = T21_ROW + FP12_MUL_ROWS;

pub const T23_ROW: usize = T22_ROW + FP12_FORBENIUS_MAP_ROWS;

pub const T24_ROW: usize = T23_ROW + CONJUGATE_ROWS;

pub const T25_ROW: usize = T24_ROW + FP12_MUL_ROWS;

pub const T26_ROW: usize = T25_ROW + FP12_FORBENIUS_MAP_ROWS;

pub const T27_ROW: usize = T26_ROW + CONJUGATE_ROWS;

pub const T28_ROW: usize = T27_ROW + FP12_MUL_ROWS;

pub const T29_ROW: usize = T28_ROW + FP12_MUL_ROWS;

pub const T30_ROW: usize = T29_ROW + FP12_MUL_ROWS;

pub const T31_ROW: usize = T30_ROW + FP12_MUL_ROWS;

pub const TOTAL_ROW: usize = T31_ROW + FP12_MUL_ROWS;

/// The five kinds of sub-operation.
#[derive(Clone, Copy, PartialEq, Eq, Structural)]
pub enum OpKind {
    Frobenius,
    CycExp,
    Mul,
    CycSq,
    Conj,
}

/// Kind of schedule step `k`.
pub open spec fn op_kind(k: int) -> OpKind {
    if k == 0 || k == 2 || k == 20 || k == 22 || k == 25 {
        OpKind::Frobenius
    } else if k == 4 || k == 9 || k == 11 || k == 13 || k == 17 {
        OpKind::CycExp
    } else if k == 6 || k == 15 {
        OpKind::CycSq
    } else if k == 5 || k == 7 || k == 10 || k == 12 || k == 14 || k == 18 || k == 23 || k == 26 {
        OpKind::Conj
    } else {
        OpKind::Mul
    }
}

/// First row of schedule step `k`.
pub open spec fn op_start(k: int) -> int {
    if k <= 0 {
        T0_ROW as int
    } else if k == 1 {
        T1_ROW as int
    } else if k == 2 {
        T2_ROW as int
    } else if k == 3 {
        T3_ROW as int
    } else if k == 4 {
        T4_ROW as int
    } else if k == 5 {
        T5_ROW as int
    } else if k == 6 {
        T6_ROW as int
    } else if k == 7 {
        T7_ROW as int
    } else if k == 8 {
        T8_ROW as int
    } else if k == 9 {
        T9_ROW as int
    } else if k == 10 {
        T10_ROW as int
    } else if k == 11 {
        T11_ROW as int
    } else if k == 12 {
        T12_ROW as int
    } else if k == 13 {
        T13_ROW as int
    } else if k == 14 {
        T14_ROW as int
    } else if k == 15 {
        T15_ROW as int
    } else if k == 16 {
        T16_ROW as int
    } else if k == 17 {
        T17_ROW as int
    } else if k == 18 {
        T18_ROW as int
    } else if k == 19 {
        T19_ROW as int
    } else if k == 20 {
        T20_ROW as int
    } else if k == 21 {
        T21_ROW as int
    } else if k == 22 {
        T22_ROW as int
    } else if k == 23 {
        T23_ROW as int
    } else if k == 24 {
        T24_ROW as int
    } else if k == 25 {
        T25_ROW as int
    } else if k == 26 {
        T26_ROW as int
    } else if k == 27 {
        T27_ROW as int
    } else if k == 28 {
        T28_ROW as int
    } else if k == 29 {
        T29_ROW as int
    } else if k == 30 {
        T30_ROW as int
    } else {
        T31_ROW as int
    }
}

/// Number of rows of schedule step `k`.
pub open spec fn op_rows(k: int) -> int {
    match op_kind(k) {
        OpKind::Frobenius => 12,
        OpKind::CycExp => 841,
        OpKind::Mul => 12,
        OpKind::CycSq => 12,
        OpKind::Conj => 1,
    }
}

/// Frobenius power of the frobenius steps.
pub open spec fn frob_pow(k: int) -> int {
    if k == 0 {
        6
    } else if k == 2 {
        2
    } else if k == 20 {
        2
    } else if k == 22 {
        3
    } else {
        1
    }
}

/// The schedule step that owns row `r` (meaningful for `0 <= r < TOTAL_ROW`).
pub open spec fn row_op(r: int) -> int {
    if r < T1_ROW {
        0
    } else if r < T2_ROW {
        1
    } else if r < T3_ROW {
        2
    } else if r < T4_ROW {
        3
    } else if r < T5_ROW {
        4
    } else if r < T6_ROW {
        5
    } else if r < T7_ROW {
        6
    } else if r < T8_ROW {
        7
    } else if r < T9_ROW {
        8
    } else if r < T10_ROW {
        9
    } else if r < T11_ROW {
        10
    } else if r < T12_ROW {
        11
    } else if r < T13_ROW {
        12
    } else if r < T14_ROW {
        13
    } else if r < T15_ROW {
        14
    } else if r < T16_ROW {
        15
    } else if r < T17_ROW {
        16
    } else if r < T18_ROW {
        17
    } else if r < T19_ROW {
        18
    } else if r < T20_ROW {
        19
    } else if r < T21_ROW {
        20
    } else if r < T22_ROW {
        21
    } else if r < T23_ROW {
        22
    } else if r < T24_ROW {
        23
    } else if r < T25_ROW {
        24
    } else if r < T26_ROW {
        25
    } else if r < T27_ROW {
        26
    } else if r < T28_ROW {
        27
    } else if r < T29_ROW {
        28
    } else if r < T30_ROW {
        29
    } else if r < T31_ROW {
        30
    } else {
        31
    }
}

/// First operand of schedule step `k`.
pub open spec fn op_in1(x: Fp12Val, k: int) -> Fp12Val {
    if k == 0 {
        x
    } else if k == 1 {
        sched_val(x, 1)
    } else if k == 2 {
        sched_val(x, 1)
    } else if k == 3 {
        sched_val(x, 2)
    } else if k == 4 {
        sched_val(x, 3)
    } else if k == 5 {
        sched_val(x, 4)
    } else if k == 6 {
        sched_val(x, 3)
    } else if k == 7 {
        sched_val(x, 6)
    } else if k == 8 {
        sched_val(x, 7)
    } else if k == 9 {
        sched_val(x, 8)
    } else if k == 10 {
        sched_val(x, 9)
    } else if k == 11 {
        sched_val(x, 10)
    } else if k == 12 {
        sched_val(x, 11)
    } else if k == 13 {
        sched_val(x, 12)
    } else if k == 14 {
        sched_val(x, 13)
    } else if k == 15 {
        sched_val(x, 5)
    } else if k == 16 {
        sched_val(x, 14)
    } else if k == 17 {
        sched_val(x, 16)
    } else if k == 18 {
        sched_val(x, 17)
    } else if k == 19 {
        sched_val(x, 5)
    } else if k == 20 {
        sched_val(x, 19)
    } else if k == 21 {
        sched_val(x, 10)
    } else if k == 22 {
        sched_val(x, 21)
    } else if k == 23 {
        sched_val(x, 3)
    } else if k == 24 {
        sched_val(x, 16)
    } else if k == 25 {
        sched_val(x, 24)
    } else if k == 26 {
        sched_val(x, 8)
    } else if k == 27 {
        sched_val(x, 18)
    } else if k == 28 {
        sched_val(x, 27)
    } else if k == 29 {
        sched_val(x, 20)
    } else if k == 30 {
        sched_val(x, 29)
    } else {
        sched_val(x, 30)
    }
}

/// Second operand of the multiplication steps. The division step (`k = 1`)
/// is witnessed asymmetrically: its bus operands are `T1` and `INPUT`, and
/// its bus output is `T0`.
pub open spec fn op_in2(x: Fp12Val, k: int) -> Fp12Val {
    if k == 1 {
        x
    } else if k == 3 {
        sched_val(x, 1)
    } else if k == 8 {
        sched_val(x, 5)
    } else if k == 16 {
        sched_val(x, 15)
    } else if k == 19 {
        sched_val(x, 12)
    } else if k == 21 {
        sched_val(x, 3)
    } else if k == 24 {
        sched_val(x, 23)
    } else if k == 27 {
        sched_val(x, 26)
    } else if k == 28 {
        sched_val(x, 3)
    } else if k == 29 {
        sched_val(x, 22)
    } else if k == 30 {
        sched_val(x, 25)
    } else {
        sched_val(x, 28)
    }
}

/// Bus output of schedule step `k`.
pub open spec fn op_out(x: Fp12Val, k: int) -> Fp12Val {
    if k == 1 {
        sched_val(x, 0)
    } else {
        sched_val(x, k)
    }
}

/// Whether row `r` is the first row of the step that owns it.
pub open spec fn is_op_start(r: int) -> bool {
    0 <= r < TOTAL_ROW && r == op_start(row_op(r))
}

/// Whether row `r` is the result row of a cyclotomic-exponentiation step.
pub open spec fn is_cyc_exp_last(r: int) -> bool {
    0 <= r < TOTAL_ROW && op_kind(row_op(r)) == OpKind::CycExp && r == op_start(row_op(r))
        + op_rows(row_op(r)) - 1
}

/// Kind-selector cell value at row `r`.
pub open spec fn sel_cell(r: int, kind: OpKind) -> u64 {
    if 0 <= r < TOTAL_ROW && op_kind(row_op(r)) == kind {
        1
    } else {
        0
    }
}

/// The value of trace cell `(r, c)` of the trace generated on input `x`.
pub open spec fn trace_cell(x: Fp12Val, r: int, c: int) -> u64 {
    let k = row_op(r);
    if c < FINAL_EXP_FORBENIUS_MAP_SELECTOR {
        if c == r {
            1
        } else {
            0
        }
    } else if c == FINAL_EXP_FORBENIUS_MAP_SELECTOR {
        sel_cell(r, OpKind::Frobenius)
    } else if c == FINAL_EXP_CYCLOTOMIC_EXP_SELECTOR {
        sel_cell(r, OpKind::CycExp)
    } else if c == FINAL_EXP_MUL_SELECTOR {
        sel_cell(r, OpKind::Mul)
    } else if c == FINAL_EXP_CYCLOTOMIC_SQ_SELECTOR {
        sel_cell(r, OpKind::CycSq)
    } else if c == FINAL_EXP_CONJUGATE_SELECTOR {
        sel_cell(r, OpKind::Conj)
    } else if c < FINAL_EXP_T0_OFFSET {
        fp12_limb(x, c - FINAL_EXP_INPUT_OFFSET)
    } else if c < FINAL_EXP_OP_OFFSET {
        fp12_limb(
            sched_val(x, (c - FINAL_EXP_T0_OFFSET) / 144),
            (c - FINAL_EXP_T0_OFFSET) % 144,
        )
    } else {
        let o = c - FINAL_EXP_OP_OFFSET;
        if o < OP_FROBENIUS_POW {
            if is_op_start(r) && op_kind(k) == OpKind::Frobenius {
                fp12_limb(op_in1(x, k), o - OP_FROBENIUS_INPUT)
            } else {
                0
            }
        } else if o == OP_FROBENIUS_POW {
            if is_op_start(r) && op_kind(k) == OpKind::Frobenius {
                frob_pow(k) as u64
            } else {
                0
            }
        } else if o < OP_MUL_X_INPUT {
            if is_op_start(r) && op_kind(k) == OpKind::Frobenius {
                fp12_limb(op_out(x, k), o - OP_FROBENIUS_OUTPUT)
            } else {
                0
            }
        } else if o < OP_MUL_Y_INPUT {
            if is_op_start(r) && op_kind(k) == OpKind::Mul {
                fp12_limb(op_in1(x, k), o - OP_MUL_X_INPUT)
            } else {
                0
            }
        } else if o < OP_MUL_OUTPUT {
            if is_op_start(r) && op_kind(k) == OpKind::Mul {
                fp12_limb(op_in2(x, k), o - OP_MUL_Y_INPUT)
            } else {
                0
            }
        } else if o < OP_CYCLOTOMIC_EXP_INPUT {
            if is_op_start(r) && op_kind(k) == OpKind::Mul {
                fp12_limb(op_out(x, k), o - OP_MUL_OUTPUT)
            } else {
                0
            }
        } else if o < OP_CYCLOTOMIC_EXP_RES_ROW_SELECTOR {
            if is_op_start(r) && op_kind(k) == OpKind::CycExp {
                fp12_limb(op_in1(x, k), o - OP_CYCLOTOMIC_EXP_INPUT)
            } else {
                0
            }
        } else if o == OP_CYCLOTOMIC_EXP_RES_ROW_SELECTOR {
            if is_cyc_exp_last(r) {
                1
            } else {
                0
            }
        } else if o < OP_CYCLOTOMIC_SQ_INPUT {
            if is_cyc_exp_last(r) {
                fp12_limb(op_out(x, k), o - OP_CYCLOTOMIC_EXP_Z)
            } else {
                0
            }
        } else if o < OP_CYCLOTOMIC_SQ_OUTPUT {
            if is_op_start(r) && op_kind(k) == OpKind::CycSq {
                fp12_limb(op_in1(x, k), o - OP_CYCLOTOMIC_SQ_INPUT)
            } else {
                0
            }
        } else if o < OP_CONJUGATE_INPUT {
            if is_op_start(r) && op_kind(k) == OpKind::CycSq {
                fp12_limb(op_out(x, k), o - OP_CYCLOTOMIC_SQ_OUTPUT)
            } else {
                0
            }
        } else if o < OP_CONJUGATE_OUTPUT {
            if is_op_start(r) && op_kind(k) == OpKind::Conj {
                fp12_limb(op_in1(x, k), o - OP_CONJUGATE_INPUT)
            } else {
                0
            }
        } else {
            if is_op_start(r) && op_kind(k) == OpKind::Conj {
                fp12_limb(op_out(x, k), o - OP_CONJUGATE_OUTPUT)
            } else {
                0
            }
        }
    }
}

/// The packed public inputs: the input limbs then the output limbs.
pub open spec fn pis_spec(x: Fp12Val) -> Seq<u64> {
    Seq::new(
        PUBLIC_INPUTS as nat,
        |i: int|
            if i < 144 {
                fp12_limb(x, i)
            } else {
                fp12_limb(sched_val(x, 31), i - 144)
            },
    )
}

/// Write the 144-limb encoding of an `Fp12` into a row at `col`.
fn write_fp12(row: &mut Vec<u64>, col: usize, v: &Fp12)
    requires
        v.wf(),
        col + 144 <= old(row)@.len(),
    ensures
        final(row)@.len() == old(row)@.len(),
        forall|c: int|
            col <= c < col + 144 ==> #[trigger] final(row)@[c] == fp12_limb(v@, c - col),
        forall|c: int|
            0 <= c < final(row)@.len() && !(col <= c < col + 144) ==> #[trigger] final(row)@[c]
                == old(row)@[c],
{
    let limbs = v.to_limbs();
    let n = row.len();
    let mut i: usize = 0;
    while i < 144
        invariant
            v.wf(),
            limbs@.len() == 144,
            forall|t: int| 0 <= t < 144 ==> #[trigger] limbs@[t] as u64 == fp12_limb(v@, t),
            col + 144 <= n,
            n == row@.len(),
            row@.len() == old(row)@.len(),
            i <= 144,
            forall|c: int|
                col <= c < col + i ==> #[trigger] row@[c] == fp12_limb(v@, c - col),
            forall|c: int|
                0 <= c < row@.len() && !(col <= c < col + i) ==> #[trigger] row@[c] == old(
                    row,
                )@[c],
        decreases 144 - i,
    {
        row[col + i] = limbs[i] as u64;
        i += 1;
    }
}

/// Exec lookup of the step that owns a row.
fn op_of_row(r: usize) -> (k: usize)
    requires
        r < TOTAL_ROW,
    ensures
        k == row_op(r as int),
        k < 32,
        op_start(k as int) <= r < op_start(k as int) + op_rows(k as int),
{
    if r < T1_ROW {
        0
    } else if r < T2_ROW {
        1
    } else if r < T3_ROW {
        2
    } else if r < T4_ROW {
        3
    } else if r < T5_ROW {
        4
    } else if r < T6_ROW {
        5
    } else if r < T7_ROW {
        6
    } else if r < T8_ROW {
        7
    } else if r < T9_ROW {
        8
    } else if r < T10_ROW {
        9
    } else if r < T11_ROW {
        10
    } else if r < T12_ROW {
        11
    } else if r < T13_ROW {
        12
    } else if r < T14_ROW {
        13
    } else if r < T15_ROW {
        14
    } else if r < T16_ROW {
        15
    } else if r < T17_ROW {
        16
    } else if r < T18_ROW {
        17
    } else if r < T19_ROW {
        18
    } else if r < T20_ROW {
        19
    } else if r < T21_ROW {
        20
    } else if r < T22_ROW {
        21
    } else if r < T23_ROW {
        22
    } else if r < T24_ROW {
        23
    } else if r < T25_ROW {
        24
    } else if r < T26_ROW {
        25
    } else if r < T27_ROW {
        26
    } else if r < T28_ROW {
        27
    } else if r < T29_ROW {
        28
    } else if r < T30_ROW {
        29
    } else if r < T31_ROW {
        30
    } else {
        31
    }
}

/// Exec lookup of a step's kind.
fn kind_of_op(k: usize) -> (kind: OpKind)
    ensures
        kind == op_kind(k as int),
{
    if k == 0 || k == 2 || k == 20 || k == 22 || k == 25 {
        OpKind::Frobenius
    } else if k == 4 || k == 9 || k == 11 || k == 13 || k == 17 {
        OpKind::CycExp
    } else if k == 6 || k == 15 {
        OpKind::CycSq
    } else if k == 5 || k == 7 || k == 10 || k == 12 || k == 14 || k == 18 || k == 23 || k == 26 {
        OpKind::Conj
    } else {
        OpKind::Mul
    }
}

/// Exec lookup of a step's first operand.
fn op_in1_ref<'a>(x: &'a Fp12, ts: &'a Vec<Fp12>, k: usize) -> (r: &'a Fp12)
    requires
        k < 32,
        ts@.len() == 32,
        forall|t: int| 0 <= t < 32 ==> (#[trigger] ts@[t])@ == sched_val(x@, t) && ts@[t].wf(),
        x.wf(),
    ensures
        r@ == op_in1(x@, k as int),
        r.wf(),
{
    if k == 0 {
        x
    } else if k == 1 || k == 2 {
        &ts[1]
    } else if k == 3 {
        &ts[2]
    } else if k == 4 || k == 6 {
        &ts[3]
    } else if k == 5 {
        &ts[4]
    } else if k == 7 {
        &ts[6]
    } else if k == 8 {
        &ts[7]
    } else if k == 9 {
        &ts[8]
    } else if k == 10 {
        &ts[9]
    } else if k == 11 {
        &ts[10]
    } else if k == 12 {
        &ts[11]
    } else if k == 13 {
        &ts[12]
    } else if k == 14 {
        &ts[13]
    } else if k == 15 || k == 19 {
        &ts[5]
    } else if k == 16 {
        &ts[14]
    } else if k == 17 {
        &ts[16]
    } else if k == 18 {
        &ts[17]
    } else if k == 20 {
        &ts[19]
    } else if k == 21 {
        &ts[10]
    } else if k == 22 {
        &ts[21]
    } else if k == 23 {
        &ts[3]
    } else if k == 24 {
        &ts[16]
    } else if k == 25 {
        &ts[24]
    } else if k == 26 {
        &ts[8]
    } else if k == 27 {
        &ts[18]
    } else if k == 28 {
        &ts[27]
    } else if k == 29 {
        &ts[20]
    } else if k == 30 {
        &ts[29]
    } else {
        &ts[30]
    }
}

/// Exec lookup of a multiplication step's second operand.
fn op_in2_ref<'a>(x: &'a Fp12, ts: &'a Vec<Fp12>, k: usize) -> (r: &'a Fp12)
    requires
        k < 32,
        ts@.len() == 32,
        forall|t: int| 0 <= t < 32 ==> (#[trigger] ts@[t])@ == sched_val(x@, t) && ts@[t].wf(),
        x.wf(),
    ensures
        r@ == op_in2(x@, k as int),
        r.wf(),
{
    if k == 1 {
        x
    } else if k == 3 {
        &ts[1]
    } else if k == 8 {
        &ts[5]
    } else if k == 16 {
        &ts[15]
    } else if k == 19 {
        &ts[12]
    } else if k == 21 {
        &ts[3]
    } else if k == 24 {
        &ts[23]
    } else if k == 27 {
        &ts[26]
    } else if k == 28 {
        &ts[3]
    } else if k == 29 {
        &ts[22]
    } else if k == 30 {
        &ts[25]
    } else {
        &ts[28]
    }
}

/// Exec lookup of a step's bus output.
fn op_out_ref<'a>(x: &'a Fp12, ts: &'a Vec<Fp12>, k: usize) -> (r: &'a Fp12)
    requires
        k < 32,
        ts@.len() == 32,
        forall|t: int| 0 <= t < 32 ==> (#[trigger] ts@[t])@ == sched_val(x@, t) && ts@[t].wf(),
        x.wf(),
    ensures
        r@ == op_out(x@, k as int),
        r.wf(),
{
    if k == 1 {
        &ts[0]
    } else {
        &ts[k]
    }
}

/// Build one trace row.
#[verifier::rlimit(100)]
fn build_row(x: &Fp12, ts: &Vec<Fp12>, r: usize) -> (row: Vec<u64>)
    requires
        x.wf(),
        ts@.len() == 32,
        forall|t: int| 0 <= t < 32 ==> (#[trigger] ts@[t])@ == sched_val(x@, t) && ts@[t].wf(),
        r < 8192,
    ensures
        row@.len() == TOTAL_COLUMNS,
        forall|c: int| 0 <= c < TOTAL_COLUMNS ==> #[trigger] row@[c] == trace_cell(x@, r as int, c),
{
    let mut row: Vec<u64> = Vec::new();
    let mut z: usize = 0;
    while z < TOTAL_COLUMNS
        invariant
            z <= TOTAL_COLUMNS,
            row@.len() == z,
            forall|c: int| 0 <= c < z ==> #[trigger] row@[c] == 0,
        decreases TOTAL_COLUMNS - z,
    {
        row.push(0);
        z += 1;
    }
    // one-hot row selector
    row[FINAL_EXP_ROW_SELECTORS + r] = 1;
    // public input register, in every row
    write_fp12(&mut row, FINAL_EXP_INPUT_OFFSET, x);
    // result registers, in every row
    let mut k: usize = 0;
    while k < 32
        invariant
            x.wf(),
            ts@.len() == 32,
            forall|t: int| 0 <= t < 32 ==> (#[trigger] ts@[t])@ == sched_val(x@, t) && ts@[t].wf(),
            r < 8192,
            k <= 32,
            row@.len() == TOTAL_COLUMNS,
            forall|c: int|
                FINAL_EXP_T0_OFFSET <= c < FINAL_EXP_T0_OFFSET + 144 * k ==> #[trigger] row@[c]
                    == fp12_limb(
                    sched_val(x@, (c - FINAL_EXP_T0_OFFSET) / 144),
                    (c - FINAL_EXP_T0_OFFSET) % 144,
                ),
            forall|c: int|
                0 <= c < TOTAL_COLUMNS && !(FINAL_EXP_T0_OFFSET <= c < FINAL_EXP_T0_OFFSET + 144
                    * k) ==> #[trigger] row@[c] == (if c == FINAL_EXP_ROW_SELECTORS + r {
                    1u64
                } else if FINAL_EXP_INPUT_OFFSET <= c < FINAL_EXP_T0_OFFSET {
                    fp12_limb(x@, c - FINAL_EXP_INPUT_OFFSET)
                } else {
                    0u64
                }),
        decreases 32 - k,
    {
        let ghost pre = row@;
        write_fp12(&mut row, FINAL_EXP_T0_OFFSET + 144 * k, &ts[k]);
        proof {
            assert forall|c: int|
                FINAL_EXP_T0_OFFSET <= c < FINAL_EXP_T0_OFFSET + 144 * (k + 1) implies #[trigger] row@[c]
                == fp12_limb(
                sched_val(x@, (c - FINAL_EXP_T0_OFFSET) / 144),
                (c - FINAL_EXP_T0_OFFSET) % 144,
            ) by {
                let d = c - FINAL_EXP_T0_OFFSET;
                if d >= 144 * k {
                    let i = d - 144 * k;
                    assert(d == 144 * (k as int) + i);
                    lemma_div_multiples_vanish_fancy(k as int, i, 144);
                    lemma_mod_multiples_vanish(k as int, i, 144);
                    lemma_small_mod(i as nat, 144);
                }
            }
        }
        k += 1;
    }
    // kind selector and operand-bus interface cells
    if r < TOTAL_ROW {
        let kop = op_of_row(r);
        let kind = kind_of_op(kop);
        let sel_col = match kind {
            OpKind::Frobenius => FINAL_EXP_FORBENIUS_MAP_SELECTOR,
            OpKind::CycExp => FINAL_EXP_CYCLOTOMIC_EXP_SELECTOR,
            OpKind::Mul => FINAL_EXP_MUL_SELECTOR,
            OpKind::CycSq => FINAL_EXP_CYCLOTOMIC_SQ_SELECTOR,
            OpKind::Conj => FINAL_EXP_CONJUGATE_SELECTOR,
        };
        row[sel_col] = 1;
        let start = start_of_op(kop);
        let rows = rows_of_op(kop);
        if r == start {
            match kind {
                OpKind::Frobenius => {
                    write_fp12(
                        &mut row,
                        FINAL_EXP_OP_OFFSET + OP_FROBENIUS_INPUT,
                        op_in1_ref(x, ts, kop),
                    );
                    row[FINAL_EXP_OP_OFFSET + OP_FROBENIUS_POW] = pow_of_op(kop) as u64;
                    write_fp12(
                        &mut row,
                        FINAL_EXP_OP_OFFSET + OP_FROBENIUS_OUTPUT,
                        op_out_ref(x, ts, kop),
                    );
                },
                OpKind::Mul => {
                    write_fp12(
                        &mut row,
                        FINAL_EXP_OP_OFFSET + OP_MUL_X_INPUT,
                        op_in1_ref(x, ts, kop),
                    );
                    write_fp12(
                        &mut row,
                        FINAL_EXP_OP_OFFSET + OP_MUL_Y_INPUT,
                        op_in2_ref(x, ts, kop),
                    );
                    write_fp12(
                        &mut row,
                        FINAL_EXP_OP_OFFSET + OP_MUL_OUTPUT,
                        op_out_ref(x, ts, kop),
                    );
                },
                OpKind::CycExp => {
                    write_fp12(
                        &mut row,
                        FINAL_EXP_OP_OFFSET + OP_CYCLOTOMIC_EXP_INPUT,
                        op_in1_ref(x, ts, kop),
                    );
                },
                OpKind::CycSq => {
                    write_fp12(
                        &mut row,
                        FINAL_EXP_OP_OFFSET + OP_CYCLOTOMIC_SQ_INPUT,
                        op_in1_ref(x, ts, kop),
                    );
                    write_fp12(
                        &mut row,
                        FINAL_EXP_OP_OFFSET + OP_CYCLOTOMIC_SQ_OUTPUT,
                        op_out_ref(x, ts, kop),
                    );
                },
                OpKind::Conj => {
                    write_fp12(
                        &mut row,
                        FINAL_EXP_OP_OFFSET + OP_CONJUGATE_INPUT,
                        op_in1_ref(x, ts, kop),
                    );
                    write_fp12(
                        &mut row,
                        FINAL_EXP_OP_OFFSET + OP_CONJUGATE_OUTPUT,
                        op_out_ref(x, ts, kop),
                    );
                },
            }
        }
        if r == start + rows - 1 {
            match kind {
                OpKind::CycExp => {
                    row[FINAL_EXP_OP_OFFSET + OP_CYCLOTOMIC_EXP_RES_ROW_SELECTOR] = 1;
                    write_fp12(
                        &mut row,
                        FINAL_EXP_OP_OFFSET + OP_CYCLOTOMIC_EXP_Z,
                        op_out_ref(x, ts, kop),
                    );
                },
                _ => {},
            }
        }
    }
    proof {
        assert forall|c: int| 0 <= c < TOTAL_COLUMNS implies #[trigger] row@[c] == trace_cell(
            x@,
            r as int,
            c,
        ) by {
            if FINAL_EXP_T0_OFFSET <= c < FINAL_EXP_OP_OFFSET {
                let d = c - FINAL_EXP_T0_OFFSET;
                lemma_mod_bound(d, 144);
                vstd::arithmetic::div_mod::lemma_div_pos_is_pos(d, 144);
                vstd::arithmetic::div_mod::lemma_div_is_ordered(d, 4607, 144);
                assert(4607int / 144int == 31int);
            }
        }
    }
    row
}

/// Exec lookup of a step's first row.
fn start_of_op(k: usize) -> (r: usize)
    requires
        k < 32,
    ensures
        r == op_start(k as int),
{
    if k == 0 {
        T0_ROW
    } else if k == 1 {
        T1_ROW
    } else if k == 2 {
        T2_ROW
    } else if k == 3 {
        T3_ROW
    } else if k == 4 {
        T4_ROW
    } else if k == 5 {
        T5_ROW
    } else if k == 6 {
        T6_ROW
    } else if k == 7 {
        T7_ROW
    } else if k == 8 {
        T8_ROW
    } else if k == 9 {
        T9_ROW
    } else if k == 10 {
        T10_ROW
    } else if k == 11 {
        T11_ROW
    } else if k == 12 {
        T12_ROW
    } else if k == 13 {
        T13_ROW
    } else if k == 14 {
        T14_ROW
    } else if k == 15 {
        T15_ROW
    } else if k == 16 {
        T16_ROW
    } else if k == 17 {
        T17_ROW
    } else if k == 18 {
        T18_ROW
    } else if k == 19 {
        T19_ROW
    } else if k == 20 {
        T20_ROW
    } else if k == 21 {
        T21_ROW
    } else if k == 22 {
        T22_ROW
    } else if k == 23 {
        T23_ROW
    } else if k == 24 {
        T24_ROW
    } else if k == 25 {
        T25_ROW
    } else if k == 26 {
        T26_ROW
    } else if k == 27 {
        T27_ROW
    } else if k == 28 {
        T28_ROW
    } else if k == 29 {
        T29_ROW
    } else if k == 30 {
        T30_ROW
    } else {
        T31_ROW
    }
}

/// Exec lookup of a step's row count.
fn rows_of_op(k: usize) -> (r: usize)
    requires
        k < 32,
    ensures
        r == op_rows(k as int),
{
    match kind_of_op(k) {
        OpKind::Frobenius => FP12_FORBENIUS_MAP_ROWS,
        OpKind::CycExp => CYCLOTOMIC_EXP_ROWS,
        OpKind::Mul => FP12_MUL_ROWS,
        OpKind::CycSq => CYCLOTOMIC_SQ_ROWS,
        OpKind::Conj => CONJUGATE_ROWS,
    }
}

/// Exec lookup of a frobenius step's power.
fn pow_of_op(k: usize) -> (r: usize)
    ensures
        r == frob_pow(k as int),
{
    if k == 0 {
        6
    } else if k == 2 {
        2
    } else if k == 20 {
        2
    } else if k == 22 {
        3
    } else {
        1
    }
}

/// Exec lookup of the kind of the step that owns a row.
pub(crate) fn kind_of_row(rr: usize) -> (kind: OpKind)
    requires
        rr < TOTAL_ROW,
    ensures
        kind == op_kind(row_op(rr as int)),
{
    kind_of_op(op_of_row(rr))
}

/// The final-exponentiation STARK over a trace of `num_rows` rows.
pub struct FinalExponentiateStark {
    pub num_rows: usize,
}

impl FinalExponentiateStark {
    pub fn new(num_rows: usize) -> (r: Self)
        ensures
            r.num_rows == num_rows,
    {
        FinalExponentiateStark { num_rows }
    }

    /// Build the whole execution trace for input `x`: every cell of every
    /// row carries the value `trace_cell` gives it, so the result registers
    /// are row-invariant copies of the schedule intermediates, `T31` holds
    /// the final exponentiation of `x`, and the operand bus exposes each
    /// step's interface at its boundary rows.
    pub fn generate_trace(&self, x: &Fp12) -> (trace: Vec<Vec<u64>>)
        requires
            x.wf(),
            TOTAL_ROW <= self.num_rows <= 8192,
        ensures
            trace@.len() == self.num_rows,
            forall|r: int|
                0 <= r < self.num_rows ==> (#[trigger] trace@[r])@.len() == TOTAL_COLUMNS,
            forall|r: int, c: int|
                0 <= r < self.num_rows && 0 <= c < TOTAL_COLUMNS ==> #[trigger] trace@[r]@[c]
                    == trace_cell(x@, r, c),
    {
        let ts = compute_schedule(x);
        let mut trace: Vec<Vec<u64>> = Vec::new();
        let mut r: usize = 0;
        while r < self.num_rows
            invariant
                x.wf(),
                ts@.len() == 32,
                forall|t: int|
                    0 <= t < 32 ==> (#[trigger] ts@[t])@ == sched_val(x@, t) && ts@[t].wf(),
                self.num_rows <= 8192,
                r <= self.num_rows,
                trace@.len() == r,
                forall|t: int| 0 <= t < r ==> (#[trigger] trace@[t])@.len() == TOTAL_COLUMNS,
                forall|t: int, c: int|
                    0 <= t < r && 0 <= c < TOTAL_COLUMNS ==> #[trigger] trace@[t]@[c] == trace_cell(
                        x@,
                        t,
                        c,
                    ),
            decreases self.num_rows - r,
        {
            let row = build_row(x, &ts, r);
            trace.push(row);
            r += 1;
        }
        trace
    }
}

/// Copy the public inputs out of a trace row: `PIS_INPUT` from the input
/// register, `PIS_OUTPUT` from `T31`.
pub fn extract_public_inputs(row: &Vec<u64>) -> (r: Vec<u64>)
    requires
        row@.len() == TOTAL_COLUMNS,
    ensures
        r@.len() == PUBLIC_INPUTS,
        forall|i: int|
            0 <= i < 144 ==> #[trigger] r@[i] == row@[FINAL_EXP_INPUT_OFFSET + i],
        forall|i: int|
            144 <= i < 288 ==> #[trigger] r@[i] == row@[FINAL_EXP_T31_OFFSET + (i - 144)],
{
    let mut r: Vec<u64> = Vec::new();
    let mut i: usize = 0;
    while i < 144
        invariant
            row@.len() == TOTAL_COLUMNS,
            i <= 144,
            r@.len() == i,
            forall|t: int| 0 <= t < i ==> #[trigger] r@[t] == row@[FINAL_EXP_INPUT_OFFSET + t],
        decreases 144 - i,
    {
        r.push(row[FINAL_EXP_INPUT_OFFSET + i]);
        i += 1;
    }
    let mut j: usize = 0;
    while j < 144
        invariant
            row@.len() == TOTAL_COLUMNS,
            j <= 144,
            r@.len() == 144 + j,
            forall|t: int| 0 <= t < 144 ==> #[trigger] r@[t] == row@[FINAL_EXP_INPUT_OFFSET + t],
            forall|t: int|
                144 <= t < 144 + j ==> #[trigger] r@[t] == row@[FINAL_EXP_T31_OFFSET + (t - 144)],
        decreases 144 - j,
    {
        r.push(row[FINAL_EXP_T31_OFFSET + j]);
        j += 1;
    }
    r
}

// ---------------------------------------------------------------------------
// Invariants of every generated trace
// ---------------------------------------------------------------------------

/// Every result register and the input register are row-invariant: the cell
/// value does not depend on the row.
pub proof fn lemma_registers_row_invariant(x: Fp12Val, r1: int, r2: int, c: int)
    requires
        FINAL_EXP_INPUT_OFFSET <= c < FINAL_EXP_OP_OFFSET,
    ensures
        trace_cell(x, r1, c) == trace_cell(x, r2, c),
{
}

/// `T31` carries the final exponentiation of the input, in every row.
pub proof fn lemma_t31_is_final_exponentiation(x: Fp12Val, r: int, i: int)
    requires
        0 <= i < 144,
    ensures
        trace_cell(x, r, FINAL_EXP_T31_OFFSET + i) == fp12_limb(final_exp_spec(x), i),
{
    let d = FINAL_EXP_T31_OFFSET - FINAL_EXP_T0_OFFSET + i;
    assert(d == 144 * 31 + i);
    lemma_div_multiples_vanish_fancy(31, i, 144);
    lemma_mod_multiples_vanish(31, i, 144);
    lemma_small_mod(i as nat, 144);
}

/// The public inputs pin `INPUT` and `T31` in every row.
pub proof fn lemma_public_input_binding(x: Fp12Val, r: int, i: int)
    requires
        0 <= i < 144,
    ensures
        trace_cell(x, r, FINAL_EXP_INPUT_OFFSET + i) == pis_spec(x)[PIS_INPUT_OFFSET + i],
        trace_cell(x, r, FINAL_EXP_T31_OFFSET + i) == pis_spec(x)[PIS_OUTPUT_OFFSET + i],
{
    lemma_t31_is_final_exponentiation(x, r, i);
}

/// In every row of the schedule exactly one kind selector is 1; beyond the
/// schedule all five are 0.
pub proof fn lemma_kind_selectors_one_hot(x: Fp12Val, r: int)
    ensures
        trace_cell(x, r, FINAL_EXP_FORBENIUS_MAP_SELECTOR as int) + trace_cell(
            x,
            r,
            FINAL_EXP_CYCLOTOMIC_EXP_SELECTOR as int,
        ) + trace_cell(x, r, FINAL_EXP_MUL_SELECTOR as int) + trace_cell(
            x,
            r,
            FINAL_EXP_CYCLOTOMIC_SQ_SELECTOR as int,
        ) + trace_cell(x, r, FINAL_EXP_CONJUGATE_SELECTOR as int) == if 0 <= r < TOTAL_ROW {
            1int
        } else {
            0int
        },
{
}

/// The row-selector block is the identity indicator: cell `i` of row `r`
/// is 1 exactly when `i == r`, so each row sums to 1.
pub proof fn lemma_row_selectors_identity(x: Fp12Val, r: int, i: int)
    requires
        0 <= i < 8192,
    ensures
        trace_cell(x, r, FINAL_EXP_ROW_SELECTORS + i) == (if i == r {
            1u64
        } else {
            0u64
        }),
{
}


/// Set one selector column to 1 on a row range.
fn set_selector(trace: &mut Vec<Vec<u64>>, sel_col: usize, start: usize, end: usize)
    requires
        forall|r: int|
            0 <= r < old(trace)@.len() ==> (#[trigger] old(trace)@[r])@.len() == TOTAL_COLUMNS,
        start <= end < old(trace)@.len(),
        sel_col < TOTAL_COLUMNS,
    ensures
        final(trace)@.len() == old(trace)@.len(),
        forall|r: int|
            0 <= r < final(trace)@.len() ==> (#[trigger] final(trace)@[r])@.len()
                == TOTAL_COLUMNS,
        forall|r: int, c: int|
            0 <= r < final(trace)@.len() && 0 <= c < TOTAL_COLUMNS ==> #[trigger] final(trace)@[r]@[c] == (if start <= r <= end && c == sel_col {
                1u64
            } else {
                old(trace)@[r]@[c]
            }),
{
    let n = trace.len();
    let mut r: usize = start;
    while r <= end
        invariant
            n == trace@.len(),
            start <= r <= end + 1,
            end < n,
            sel_col < TOTAL_COLUMNS,
            trace@.len() == old(trace)@.len(),
            forall|t: int| 0 <= t < trace@.len() ==> (#[trigger] trace@[t])@.len() == TOTAL_COLUMNS,
            forall|t: int, c: int|
                0 <= t < trace@.len() && 0 <= c < TOTAL_COLUMNS ==> #[trigger] trace@[t]@[c] == (
                if start <= t < r && c == sel_col {
                    1u64
                } else {
                    old(trace)@[t]@[c]
                }),
        decreases end + 1 - r,
    {
        trace[r][sel_col] = 1;
        r += 1;
    }
}

/// Write the limbs of a value at `col` in one row.
fn write_fp12_row(trace: &mut Vec<Vec<u64>>, row: usize, col: usize, v: &Fp12)
    requires
        v.wf(),
        row < old(trace)@.len(),
        forall|r: int|
            0 <= r < old(trace)@.len() ==> (#[trigger] old(trace)@[r])@.len() == TOTAL_COLUMNS,
        col + 144 <= TOTAL_COLUMNS,
    ensures
        final(trace)@.len() == old(trace)@.len(),
        forall|r: int|
            0 <= r < final(trace)@.len() ==> (#[trigger] final(trace)@[r])@.len()
                == TOTAL_COLUMNS,
        forall|r: int, c: int|
            0 <= r < final(trace)@.len() && 0 <= c < TOTAL_COLUMNS ==> #[trigger] final(trace)@[r]@[c] == (if r == row && col <= c < col + 144 {
                fp12_limb(v@, c - col)
            } else {
                old(trace)@[r]@[c]
            }),
{
    let limbs = v.to_limbs();
    let mut i: usize = 0;
    while i < 144
        invariant
            v.wf(),
            limbs@.len() == 144,
            forall|t: int| 0 <= t < 144 ==> #[trigger] limbs@[t] as u64 == fp12_limb(v@, t),
            row < trace@.len(),
            col + 144 <= TOTAL_COLUMNS,
            i <= 144,
            trace@.len() == old(trace)@.len(),
            forall|r: int|
                0 <= r < trace@.len() ==> (#[trigger] trace@[r])@.len() == TOTAL_COLUMNS,
            forall|r: int, c: int|
                0 <= r < trace@.len() && 0 <= c < TOTAL_COLUMNS ==> #[trigger] trace@[r]@[c] == (
                if r == row && col <= c < col + i {
                    fp12_limb(v@, c - col)
                } else {
                    old(trace)@[r]@[c]
                }),
        decreases 144 - i,
    {
        trace[row][col + i] = limbs[i] as u64;
        i += 1;
    }
}

/// Write the limbs of a value at `col` in every row.
fn write_fp12_every_row(trace: &mut Vec<Vec<u64>>, col: usize, v: &Fp12)
    requires
        v.wf(),
        forall|r: int|
            0 <= r < old(trace)@.len() ==> (#[trigger] old(trace)@[r])@.len() == TOTAL_COLUMNS,
        col + 144 <= TOTAL_COLUMNS,
    ensures
        final(trace)@.len() == old(trace)@.len(),
        forall|r: int|
            0 <= r < final(trace)@.len() ==> (#[trigger] final(trace)@[r])@.len()
                == TOTAL_COLUMNS,
        forall|r: int, c: int|
            0 <= r < final(trace)@.len() && 0 <= c < TOTAL_COLUMNS ==> #[trigger] final(trace)@[r]@[c] == (if col <= c < col + 144 {
                fp12_limb(v@, c - col)
            } else {
                old(trace)@[r]@[c]
            }),
{
    let n = trace.len();
    let mut r: usize = 0;
    while r < n
        invariant
            v.wf(),
            n == trace@.len(),
            col + 144 <= TOTAL_COLUMNS,
            r <= n,
            trace@.len() == old(trace)@.len(),
            forall|t: int|
                0 <= t < trace@.len() ==> (#[trigger] trace@[t])@.len() == TOTAL_COLUMNS,
            forall|t: int, c: int|
                0 <= t < trace@.len() && 0 <= c < TOTAL_COLUMNS ==> #[trigger] trace@[t]@[c] == (
                if t < r && col <= c < col + 144 {
                    fp12_limb(v@, c - col)
                } else {
                    old(trace)@[t]@[c]
                }),
        decreases n - r,
    {
        write_fp12_row(trace, r, col, v);
        r += 1;
    }
}

/// Fill one frobenius step into the trace: the kind selector on its rows,
/// the result into `output_col` in every row, and the sub-operation's
/// interface cells at its first row.
pub fn fill_trace_forbenius(
    trace: &mut Vec<Vec<u64>>,
    x: &Fp12,
    pow: usize,
    start_row: usize,
    end_row: usize,
    output_col: usize,
) -> (res: Fp12)
    requires
        x.wf(),
        1 <= pow <= 12,
        start_row <= end_row < old(trace)@.len(),
        forall|r: int|
            0 <= r < old(trace)@.len() ==> (#[trigger] old(trace)@[r])@.len() == TOTAL_COLUMNS,
        FINAL_EXP_INPUT_OFFSET <= output_col,
        output_col + 144 <= FINAL_EXP_OP_OFFSET,
    ensures
        res.wf(),
        res@ == crate::tower::frobenius_spec(x@, pow as nat),
        final(trace)@.len() == old(trace)@.len(),
        forall|r: int|
            0 <= r < final(trace)@.len() ==> (#[trigger] final(trace)@[r])@.len()
                == TOTAL_COLUMNS,
        forall|r: int, c: int|
            0 <= r < final(trace)@.len() && 0 <= c < TOTAL_COLUMNS ==> #[trigger] final(trace)@[r]@[c] == (if start_row <= r <= end_row && c == FINAL_EXP_FORBENIUS_MAP_SELECTOR {
                1u64
            } else if output_col <= c < output_col + 144 {
                fp12_limb(res@, c - output_col)
            } else if r == start_row && FINAL_EXP_OP_OFFSET + OP_FROBENIUS_INPUT <= c
                < FINAL_EXP_OP_OFFSET + OP_FROBENIUS_INPUT + 144 {
                fp12_limb(x@, c - (FINAL_EXP_OP_OFFSET + OP_FROBENIUS_INPUT))
            } else if r == start_row && c == FINAL_EXP_OP_OFFSET + OP_FROBENIUS_POW {
                pow as u64
            } else if r == start_row && FINAL_EXP_OP_OFFSET + OP_FROBENIUS_OUTPUT <= c
                < FINAL_EXP_OP_OFFSET + OP_FROBENIUS_OUTPUT + 144 {
                fp12_limb(res@, c - (FINAL_EXP_OP_OFFSET + OP_FROBENIUS_OUTPUT))
            } else {
                old(trace)@[r]@[c]
            }),
{
    let res = crate::tower::frobenius(x, pow);
    set_selector(trace, FINAL_EXP_FORBENIUS_MAP_SELECTOR, start_row, end_row);
    write_fp12_every_row(trace, output_col, &res);
    write_fp12_row(trace, start_row, FINAL_EXP_OP_OFFSET + OP_FROBENIUS_INPUT, x);
    trace[start_row][FINAL_EXP_OP_OFFSET + OP_FROBENIUS_POW] = pow as u64;
    write_fp12_row(trace, start_row, FINAL_EXP_OP_OFFSET + OP_FROBENIUS_OUTPUT, &res);
    res
}

/// Fill one multiplication step into the trace.
pub fn fill_trace_mul(
    trace: &mut Vec<Vec<u64>>,
    x: &Fp12,
    y: &Fp12,
    start_row: usize,
    end_row: usize,
    output_col: usize,
) -> (res: Fp12)
    requires
        x.wf(),
        y.wf(),
        start_row <= end_row < old(trace)@.len(),
        forall|r: int|
            0 <= r < old(trace)@.len() ==> (#[trigger] old(trace)@[r])@.len() == TOTAL_COLUMNS,
        FINAL_EXP_INPUT_OFFSET <= output_col,
        output_col + 144 <= FINAL_EXP_OP_OFFSET,
    ensures
        res.wf(),
        res@ == crate::tower::fp12_mul_spec(x@, y@),
        final(trace)@.len() == old(trace)@.len(),
        forall|r: int|
            0 <= r < final(trace)@.len() ==> (#[trigger] final(trace)@[r])@.len()
                == TOTAL_COLUMNS,
        forall|r: int, c: int|
            0 <= r < final(trace)@.len() && 0 <= c < TOTAL_COLUMNS ==> #[trigger] final(trace)@[r]@[c] == (if start_row <= r <= end_row && c == FINAL_EXP_MUL_SELECTOR {
                1u64
            } else if output_col <= c < output_col + 144 {
                fp12_limb(res@, c - output_col)
            } else if r == start_row && FINAL_EXP_OP_OFFSET + OP_MUL_X_INPUT <= c
                < FINAL_EXP_OP_OFFSET + OP_MUL_X_INPUT + 144 {
                fp12_limb(x@, c - (FINAL_EXP_OP_OFFSET + OP_MUL_X_INPUT))
            } else if r == start_row && FINAL_EXP_OP_OFFSET + OP_MUL_Y_INPUT <= c
                < FINAL_EXP_OP_OFFSET + OP_MUL_Y_INPUT + 144 {
                fp12_limb(y@, c - (FINAL_EXP_OP_OFFSET + OP_MUL_Y_INPUT))
            } else if r == start_row && FINAL_EXP_OP_OFFSET + OP_MUL_OUTPUT <= c
                < FINAL_EXP_OP_OFFSET + OP_MUL_OUTPUT + 144 {
                fp12_limb(res@, c - (FINAL_EXP_OP_OFFSET + OP_MUL_OUTPUT))
            } else {
                old(trace)@[r]@[c]
            }),
{
    let res = crate::tower::fp12_mul(x, y);
    set_selector(trace, FINAL_EXP_MUL_SELECTOR, start_row, end_row);
    write_fp12_every_row(trace, output_col, &res);
    write_fp12_row(trace, start_row, FINAL_EXP_OP_OFFSET + OP_MUL_X_INPUT, x);
    write_fp12_row(trace, start_row, FINAL_EXP_OP_OFFSET + OP_MUL_Y_INPUT, y);
    write_fp12_row(trace, start_row, FINAL_EXP_OP_OFFSET + OP_MUL_OUTPUT, &res);
    res
}

/// Fill one division step into the trace. The quotient is witnessed
/// through the multiplication bus: the operands exposed are the quotient
/// and the divisor, and the bus output is the dividend.
pub fn fill_trace_div(
    trace: &mut Vec<Vec<u64>>,
    x: &Fp12,
    y: &Fp12,
    start_row: usize,
    end_row: usize,
    output_col: usize,
) -> (res: Fp12)
    requires
        x.wf(),
        y.wf(),
        start_row <= end_row < old(trace)@.len(),
        forall|r: int|
            0 <= r < old(trace)@.len() ==> (#[trigger] old(trace)@[r])@.len() == TOTAL_COLUMNS,
        FINAL_EXP_INPUT_OFFSET <= output_col,
        output_col + 144 <= FINAL_EXP_OP_OFFSET,
    ensures
        res.wf(),
        res@ == crate::tower::fp12_div_spec(x@, y@),
        final(trace)@.len() == old(trace)@.len(),
        forall|r: int|
            0 <= r < final(trace)@.len() ==> (#[trigger] final(trace)@[r])@.len()
                == TOTAL_COLUMNS,
        forall|r: int, c: int|
            0 <= r < final(trace)@.len() && 0 <= c < TOTAL_COLUMNS ==> #[trigger] final(trace)@[r]@[c] == (if start_row <= r <= end_row && c == FINAL_EXP_MUL_SELECTOR {
                1u64
            } else if output_col <= c < output_col + 144 {
                fp12_limb(res@, c - output_col)
            } else if r == start_row && FINAL_EXP_OP_OFFSET + OP_MUL_X_INPUT <= c
                < FINAL_EXP_OP_OFFSET + OP_MUL_X_INPUT + 144 {
                fp12_limb(res@, c - (FINAL_EXP_OP_OFFSET + OP_MUL_X_INPUT))
            } else if r == start_row && FINAL_EXP_OP_OFFSET + OP_MUL_Y_INPUT <= c
                < FINAL_EXP_OP_OFFSET + OP_MUL_Y_INPUT + 144 {
                fp12_limb(y@, c - (FINAL_EXP_OP_OFFSET + OP_MUL_Y_INPUT))
            } else if r == start_row && FINAL_EXP_OP_OFFSET + OP_MUL_OUTPUT <= c
                < FINAL_EXP_OP_OFFSET + OP_MUL_OUTPUT + 144 {
                fp12_limb(x@, c - (FINAL_EXP_OP_OFFSET + OP_MUL_OUTPUT))
            } else {
                old(trace)@[r]@[c]
            }),
{
    let res = crate::tower::fp12_div(x, y);
    set_selector(trace, FINAL_EXP_MUL_SELECTOR, start_row, end_row);
    write_fp12_every_row(trace, output_col, &res);
    write_fp12_row(trace, start_row, FINAL_EXP_OP_OFFSET + OP_MUL_X_INPUT, &res);
    write_fp12_row(trace, start_row, FINAL_EXP_OP_OFFSET + OP_MUL_Y_INPUT, y);
    write_fp12_row(trace, start_row, FINAL_EXP_OP_OFFSET + OP_MUL_OUTPUT, x);
    res
}

/// Fill one cyclotomic-exponentiation step into the trace: the input at
/// its first row, the result-row selector and result at its last row.
pub fn fill_trace_cyc_exp(
    trace: &mut Vec<Vec<u64>>,
    x: &Fp12,
    start_row: usize,
    end_row: usize,
    output_col: usize,
) -> (res: Fp12)
    requires
        x.wf(),
        start_row < end_row < old(trace)@.len(),
        forall|r: int|
            0 <= r < old(trace)@.len() ==> (#[trigger] old(trace)@[r])@.len() == TOTAL_COLUMNS,
        FINAL_EXP_INPUT_OFFSET <= output_col,
        output_col + 144 <= FINAL_EXP_OP_OFFSET,
    ensures
        res.wf(),
        res@ == crate::tower::cyc_exp_spec(x@),
        final(trace)@.len() == old(trace)@.len(),
        forall|r: int|
            0 <= r < final(trace)@.len() ==> (#[trigger] final(trace)@[r])@.len()
                == TOTAL_COLUMNS,
        forall|r: int, c: int|
            0 <= r < final(trace)@.len() && 0 <= c < TOTAL_COLUMNS ==> #[trigger] final(trace)@[r]@[c] == (if start_row <= r <= end_row && c == FINAL_EXP_CYCLOTOMIC_EXP_SELECTOR {
                1u64
            } else if output_col <= c < output_col + 144 {
                fp12_limb(res@, c - output_col)
            } else if r == start_row && FINAL_EXP_OP_OFFSET + OP_CYCLOTOMIC_EXP_INPUT <= c
                < FINAL_EXP_OP_OFFSET + OP_CYCLOTOMIC_EXP_INPUT + 144 {
                fp12_limb(x@, c - (FINAL_EXP_OP_OFFSET + OP_CYCLOTOMIC_EXP_INPUT))
            } else if r == end_row && c == FINAL_EXP_OP_OFFSET
                + OP_CYCLOTOMIC_EXP_RES_ROW_SELECTOR {
                1u64
            } else if r == end_row && FINAL_EXP_OP_OFFSET + OP_CYCLOTOMIC_EXP_Z <= c
                < FINAL_EXP_OP_OFFSET + OP_CYCLOTOMIC_EXP_Z + 144 {
                fp12_limb(res@, c - (FINAL_EXP_OP_OFFSET + OP_CYCLOTOMIC_EXP_Z))
            } else {
                old(trace)@[r]@[c]
            }),
{
    let res = crate::tower::cyclotomic_exp(x);
    set_selector(trace, FINAL_EXP_CYCLOTOMIC_EXP_SELECTOR, start_row, end_row);
    write_fp12_every_row(trace, output_col, &res);
    write_fp12_row(trace, start_row, FINAL_EXP_OP_OFFSET + OP_CYCLOTOMIC_EXP_INPUT, x);
    trace[end_row][FINAL_EXP_OP_OFFSET + OP_CYCLOTOMIC_EXP_RES_ROW_SELECTOR] = 1;
    write_fp12_row(trace, end_row, FINAL_EXP_OP_OFFSET + OP_CYCLOTOMIC_EXP_Z, &res);
    res
}

/// Fill one conjugation step into the trace: a single row.
pub fn fill_trace_conjugate(
    trace: &mut Vec<Vec<u64>>,
    x: &Fp12,
    row: usize,
    output_col: usize,
) -> (res: Fp12)
    requires
        x.wf(),
        row < old(trace)@.len(),
        forall|r: int|
            0 <= r < old(trace)@.len() ==> (#[trigger] old(trace)@[r])@.len() == TOTAL_COLUMNS,
        FINAL_EXP_INPUT_OFFSET <= output_col,
        output_col + 144 <= FINAL_EXP_OP_OFFSET,
    ensures
        res.wf(),
        res@ == crate::tower::fp12_conj_spec(x@),
        final(trace)@.len() == old(trace)@.len(),
        forall|r: int|
            0 <= r < final(trace)@.len() ==> (#[trigger] final(trace)@[r])@.len()
                == TOTAL_COLUMNS,
        forall|r: int, c: int|
            0 <= r < final(trace)@.len() && 0 <= c < TOTAL_COLUMNS ==> #[trigger] final(trace)@[r]@[c] == (if r == row && c == FINAL_EXP_CONJUGATE_SELECTOR {
                1u64
            } else if output_col <= c < output_col + 144 {
                fp12_limb(res@, c - output_col)
            } else if r == row && FINAL_EXP_OP_OFFSET + OP_CONJUGATE_INPUT <= c
                < FINAL_EXP_OP_OFFSET + OP_CONJUGATE_INPUT + 144 {
                fp12_limb(x@, c - (FINAL_EXP_OP_OFFSET + OP_CONJUGATE_INPUT))
            } else if r == row && FINAL_EXP_OP_OFFSET + OP_CONJUGATE_OUTPUT <= c
                < FINAL_EXP_OP_OFFSET + OP_CONJUGATE_OUTPUT + 144 {
                fp12_limb(res@, c - (FINAL_EXP_OP_OFFSET + OP_CONJUGATE_OUTPUT))
            } else {
                old(trace)@[r]@[c]
            }),
{
    let res = crate::tower::fp12_conjugate(x);
    set_selector(trace, FINAL_EXP_CONJUGATE_SELECTOR, row, row);
    write_fp12_every_row(trace, output_col, &res);
    write_fp12_row(trace, row, FINAL_EXP_OP_OFFSET + OP_CONJUGATE_INPUT, x);
    write_fp12_row(trace, row, FINAL_EXP_OP_OFFSET + OP_CONJUGATE_OUTPUT, &res);
    res
}

/// Fill one cyclotomic-squaring step into the trace.
pub fn fill_trace_cyc_sq(
    trace: &mut Vec<Vec<u64>>,
    x: &Fp12,
    start_row: usize,
    end_row: usize,
    output_col: usize,
) -> (res: Fp12)
    requires
        x.wf(),
        start_row <= end_row < old(trace)@.len(),
        forall|r: int|
            0 <= r < old(trace)@.len() ==> (#[trigger] old(trace)@[r])@.len() == TOTAL_COLUMNS,
        FINAL_EXP_INPUT_OFFSET <= output_col,
        output_col + 144 <= FINAL_EXP_OP_OFFSET,
    ensures
        res.wf(),
        res@ == crate::tower::cyc_sq_spec(x@),
        final(trace)@.len() == old(trace)@.len(),
        forall|r: int|
            0 <= r < final(trace)@.len() ==> (#[trigger] final(trace)@[r])@.len()
                == TOTAL_COLUMNS,
        forall|r: int, c: int|
            0 <= r < final(trace)@.len() && 0 <= c < TOTAL_COLUMNS ==> #[trigger] final(trace)@[r]@[c] == (if start_row <= r <= end_row && c == FINAL_EXP_CYCLOTOMIC_SQ_SELECTOR {
                1u64
            } else if output_col <= c < output_col + 144 {
                fp12_limb(res@, c - output_col)
            } else if r == start_row && FINAL_EXP_OP_OFFSET + OP_CYCLOTOMIC_SQ_INPUT <= c
                < FINAL_EXP_OP_OFFSET + OP_CYCLOTOMIC_SQ_INPUT + 144 {
                fp12_limb(x@, c - (FINAL_EXP_OP_OFFSET + OP_CYCLOTOMIC_SQ_INPUT))
            } else if r == start_row && FINAL_EXP_OP_OFFSET + OP_CYCLOTOMIC_SQ_OUTPUT <= c
                < FINAL_EXP_OP_OFFSET + OP_CYCLOTOMIC_SQ_OUTPUT + 144 {
                fp12_limb(res@, c - (FINAL_EXP_OP_OFFSET + OP_CYCLOTOMIC_SQ_OUTPUT))
            } else {
                old(trace)@[r]@[c]
            }),
{
    let res = crate::tower::cyclotomic_sq(x);
    set_selector(trace, FINAL_EXP_CYCLOTOMIC_SQ_SELECTOR, start_row, end_row);
    write_fp12_every_row(trace, output_col, &res);
    write_fp12_row(trace, start_row, FINAL_EXP_OP_OFFSET + OP_CYCLOTOMIC_SQ_INPUT, x);
    write_fp12_row(trace, start_row, FINAL_EXP_OP_OFFSET + OP_CYCLOTOMIC_SQ_OUTPUT, &res);
    res
}

/// Sum of the first `i` row-selector cells of row `r`.
pub open spec fn row_sel_sum(x: Fp12Val, r: int, i: int) -> int
    decreases i,
{
    if i <= 0 {
        0
    } else {
        row_sel_sum(x, r, i - 1) + trace_cell(x, r, FINAL_EXP_ROW_SELECTORS + i - 1)
    }
}

proof fn lemma_row_sel_sum_partial(x: Fp12Val, r: int, i: int)
    requires
        0 <= r < 8192,
        0 <= i <= 8192,
    ensures
        row_sel_sum(x, r, i) == (if r < i {
            1int
        } else {
            0int
        }),
    decreases i,
{
    if i > 0 {
        lemma_row_sel_sum_partial(x, r, i - 1);
    }
}

/// The whole row-selector block of any row sums to exactly 1.
pub proof fn lemma_row_selectors_sum_to_one(x: Fp12Val, r: int)
    requires
        0 <= r < 8192,
    ensures
        row_sel_sum(x, r, 8192) == 1,
{
    lemma_row_sel_sum_partial(x, r, 8192);
}
} // verus!
