use halo2_proofs::pasta::Fp;
use halo2_proofs::plonk::ConstraintSystem;

use range_gadgets::backend::{AdviceColumn, CsBuilder, CsHandle};
use range_gadgets::expr::{build_gate_poly, build_lookup_input, build_range_poly, eval_expr, Expr};
use range_gadgets::range_check::RangeCheckCircuitConfig;
use range_gadgets::range_lookup::{canonical_table_rows, RangeCheckLookupConfig};

#[test]
fn gate_poly_accepts_range_and_rejects_outside() {
    let gate = build_gate_poly(8);
    // active row: every canonical value of [0, 8) satisfies the constraint
    for v in 0..8i64 {
        assert_eq!(eval_expr(&gate, 1, v), Some(0));
    }
    // active row, out-of-range witness: the exact residual of the fold at
    // v = 8 is 8 * (1-8)(2-8)...(7-8) = -40320
    assert_eq!(eval_expr(&gate, 1, 8), Some(-40320));
    // inactive row: everything is accepted
    assert_eq!(eval_expr(&gate, 0, 8), Some(0));
}

#[test]
fn range_poly_is_selector_free() {
    let poly = build_range_poly(4);
    // v * (1-v)(2-v)(3-v) at v = 5: 5 * (-4)(-3)(-2) = -120
    assert_eq!(eval_expr(&poly, 1, 5), Some(-120));
    assert_eq!(eval_expr(&poly, 0, 5), Some(-120));
}

#[test]
fn lookup_input_degenerates_on_inactive_rows() {
    let input = build_lookup_input();
    assert_eq!(eval_expr(&input, 1, 42), Some(42));
    assert_eq!(eval_expr(&input, 0, 42), Some(0));
}

#[test]
fn table_rows_are_canonical() {
    let rows = canonical_table_rows(9);
    assert_eq!(rows, vec![0, 1, 2, 3, 4, 5, 6, 7, 8]);
    assert!(rows.contains(&2) && rows.contains(&5));
    assert!(!rows.contains(&24) && !rows.contains(&25));
}

#[test]
fn eval_reports_overflow() {
    assert_eq!(eval_expr(&Expr::Const(u64::MAX), 0, 0), None);
    let big = Expr::Mul(
        Box::new(Expr::Const(u64::MAX / 2)),
        Box::new(Expr::Const(u64::MAX / 2)),
    );
    assert_eq!(eval_expr(&big, 0, 0), None);
}

#[test]
fn configure_is_deterministic() {
    let mut cs1 = ConstraintSystem::<Fp>::default();
    let col1 = cs1.advice_column();
    let cfg1 =
        RangeCheckCircuitConfig::<8>::configure(&mut CsBuilder::new(CsHandle { raw: &mut cs1 }), AdviceColumn {
            raw: col1,
        });
    let mut cs2 = ConstraintSystem::<Fp>::default();
    let col2 = cs2.advice_column();
    let cfg2 =
        RangeCheckCircuitConfig::<8>::configure(&mut CsBuilder::new(CsHandle { raw: &mut cs2 }), AdviceColumn {
            raw: col2,
        });
    assert_eq!(cfg1.gate, cfg2.gate);

    let mut cs3 = ConstraintSystem::<Fp>::default();
    let col3 = cs3.advice_column();
    let lk1 =
        RangeCheckLookupConfig::<9>::configure(&mut CsBuilder::new(CsHandle { raw: &mut cs3 }), AdviceColumn {
            raw: col3,
        });
    let mut cs4 = ConstraintSystem::<Fp>::default();
    let col4 = cs4.advice_column();
    let lk2 =
        RangeCheckLookupConfig::<9>::configure(&mut CsBuilder::new(CsHandle { raw: &mut cs4 }), AdviceColumn {
            raw: col4,
        });
    assert_eq!(lk1.input, lk2.input);
}
