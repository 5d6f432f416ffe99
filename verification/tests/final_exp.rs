use final_exp_stark::constraints::{check_row, Constraint};
use final_exp_stark::tower::{
    compute_schedule, conjugate_twice, final_exponentiation, fp12_conjugate, fp12_from_limbs,
    fp12_inv, fp12_mul, fp12_one, fp12_pow, frobenius, Fp12,
};
use final_exp_stark::trace::{
    extract_public_inputs, fill_trace_conjugate, FinalExponentiateStark,
    FINAL_EXP_CONJUGATE_SELECTOR, FINAL_EXP_INPUT_OFFSET, FINAL_EXP_MUL_SELECTOR,
    FINAL_EXP_T0_OFFSET, FINAL_EXP_T1_OFFSET, FINAL_EXP_T31_OFFSET, T4_ROW, T5_ROW, TOTAL_COLUMNS,
    TOTAL_ROW,
};

fn sample_x() -> Fp12 {
    let mut limbs: Vec<u32> = vec![0; 144];
    for j in 0..12 {
        limbs[12 * j] = (j + 1) as u32;
        limbs[12 * j + 3] = 0x1234_5678 ^ (j as u32);
    }
    fp12_from_limbs(&limbs).expect("sample limbs are canonical")
}

fn subgroup_order() -> Vec<u32> {
    vec![
        0x00000001, 0xffffffff, 0xfffe5bfe, 0x53bda402, 0x09a1d805, 0x3339d808, 0x299d7d48,
        0x73eda753,
    ]
}

#[test]
fn final_exp_of_one_is_one() {
    let one = fp12_one();
    let y = final_exponentiation(&one);
    assert_eq!(y.to_limbs(), one.to_limbs());
    let ts = compute_schedule(&one);
    for t in ts.iter() {
        assert_eq!(t.to_limbs(), one.to_limbs());
    }
}

#[test]
fn final_exp_lands_in_subgroup() {
    let x = sample_x();
    let y = final_exponentiation(&x);
    assert_ne!(y.to_limbs(), x.to_limbs());
    let z = fp12_pow(&y, subgroup_order());
    assert_eq!(z.to_limbs(), fp12_one().to_limbs());
}

#[test]
fn frobenius_twelve_is_identity() {
    let x = sample_x();
    let a = frobenius(&x, 6);
    let b = frobenius(&a, 6);
    assert_eq!(b.to_limbs(), x.to_limbs());
}

#[test]
fn conjugation_involution() {
    let x = sample_x();
    let c = fp12_conjugate(&x);
    assert_ne!(c.to_limbs(), x.to_limbs());
    let cc = fp12_conjugate(&c);
    assert_eq!(cc.to_limbs(), x.to_limbs());
    assert_eq!(conjugate_twice(&x).to_limbs(), x.to_limbs());
}

#[test]
fn inverse_cancels() {
    let x = sample_x();
    let i = fp12_inv(&x);
    let p = fp12_mul(&x, &i);
    assert_eq!(p.to_limbs(), fp12_one().to_limbs());
}

#[test]
fn trace_carries_native_final_exponentiation() {
    let x = sample_x();
    let stark = FinalExponentiateStark::new(TOTAL_ROW);
    let trace = stark.generate_trace(&x);
    assert_eq!(trace.len(), TOTAL_ROW);
    let y = final_exponentiation(&x);
    let y_limbs = y.to_limbs();
    let x_limbs = x.to_limbs();
    for &r in &[0usize, 1, 1000, TOTAL_ROW - 1] {
        assert_eq!(trace[r].len(), TOTAL_COLUMNS);
        for i in 0..144 {
            assert_eq!(trace[r][FINAL_EXP_T31_OFFSET + i], y_limbs[i] as u64);
            assert_eq!(trace[r][FINAL_EXP_INPUT_OFFSET + i], x_limbs[i] as u64);
        }
        // every result register is byte-identical across rows
        for c in FINAL_EXP_T0_OFFSET..FINAL_EXP_T0_OFFSET + 32 * 144 {
            assert_eq!(trace[r][c], trace[0][c]);
        }
    }
    let pis = extract_public_inputs(&trace[0]);
    for i in 0..144 {
        assert_eq!(pis[i], x_limbs[i] as u64);
        assert_eq!(pis[144 + i], y_limbs[i] as u64);
    }
}

fn check_rows(
    cs: &Vec<Constraint>,
    trace: &Vec<Vec<u64>>,
    pis: &Vec<u64>,
    rows: &[usize],
) -> bool {
    let n = trace.len();
    let mut ok = true;
    for &r in rows {
        let next = if r + 1 < n { &trace[r + 1] } else { &trace[r] };
        ok = ok
            && check_row(cs, &trace[r], next, pis, r == 0, r == n - 1, r + 1 < n);
    }
    ok
}

#[test]
fn constraints_vanish_on_honest_trace() {
    let one = fp12_one();
    let stark = FinalExponentiateStark::new(TOTAL_ROW);
    let trace = stark.generate_trace(&one);
    let pis = extract_public_inputs(&trace[0]);
    let cs = stark.constraints();
    assert_eq!(cs.len(), 38193 + 3 * TOTAL_ROW);
    let rows = [
        0usize,
        1,
        11,
        12,
        T4_ROW,
        T5_ROW - 1,
        T5_ROW,
        TOTAL_ROW / 2,
        TOTAL_ROW - 2,
        TOTAL_ROW - 1,
    ];
    assert!(check_rows(&cs, &trace, &pis, &rows));
}

#[test]
fn tampered_output_register_is_rejected() {
    let one = fp12_one();
    let stark = FinalExponentiateStark::new(TOTAL_ROW);
    let mut trace = stark.generate_trace(&one);
    let pis = extract_public_inputs(&trace[0]);
    let cs = stark.constraints();
    // flip one bit of T31 in one row
    trace[5][FINAL_EXP_T31_OFFSET] ^= 1;
    assert!(!check_rows(&cs, &trace, &pis, &[5]));
}

#[test]
fn tampered_kind_selector_is_rejected() {
    let one = fp12_one();
    let stark = FinalExponentiateStark::new(TOTAL_ROW);
    let mut trace = stark.generate_trace(&one);
    let pis = extract_public_inputs(&trace[0]);
    let cs = stark.constraints();
    // row 3 lies inside the frobenius range of T0
    trace[3][FINAL_EXP_MUL_SELECTOR] = 1;
    assert!(!check_rows(&cs, &trace, &pis, &[3]));
}

#[test]
fn tampered_input_row_is_rejected() {
    let one = fp12_one();
    let stark = FinalExponentiateStark::new(TOTAL_ROW);
    let mut trace = stark.generate_trace(&one);
    let pis = extract_public_inputs(&trace[0]);
    let cs = stark.constraints();
    // replace INPUT[0] in one row only: the row-invariance transition from
    // the previous row must fail
    trace[7][FINAL_EXP_INPUT_OFFSET] += 1;
    assert!(!check_rows(&cs, &trace, &pis, &[6, 7]));
}

#[test]
fn conjugation_micro_schedule_round_trips() {
    // a two-step schedule of conjugations: the second result register must
    // carry the original input again
    let x = sample_x();
    let mut trace: Vec<Vec<u64>> = vec![vec![0u64; TOTAL_COLUMNS]; 2];
    let t0 = fill_trace_conjugate(&mut trace, &x, 0, FINAL_EXP_T0_OFFSET);
    let t1 = fill_trace_conjugate(&mut trace, &t0, 1, FINAL_EXP_T1_OFFSET);
    assert_eq!(t1.to_limbs(), x.to_limbs());
    let x_limbs = x.to_limbs();
    for r in 0..2 {
        assert_eq!(trace[r][FINAL_EXP_CONJUGATE_SELECTOR], 1);
        for i in 0..144 {
            assert_eq!(trace[r][FINAL_EXP_T1_OFFSET + i], x_limbs[i] as u64);
        }
    }
}
