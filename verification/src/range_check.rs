//! The polynomial range-check gadget: a single gate whose polynomial
//! vanishes exactly on the canonical values `0 .. RANGE_SIZE`, gated by a
//! selector.  Its degree grows linearly with the range, which bounds its
//! practicality to small ranges.

use vstd::prelude::*;

use crate::backend::{
    assign_single_row, cs_create_range_gate, cs_selector, AdviceColumn, CsBuilder, GateModel,
    SimpleSelector,
};
use crate::expr::{
    build_range_poly, eval, gate_poly, lemma_range_poly_nonzero, lemma_range_poly_selector_free,
    lemma_range_poly_vanishes, range_poly, Expr,
};
use crate::range_lookup::RangeConstrained;
use crate::GadgetError;
use halo2_proofs::circuit::{Layouter, Value};
use halo2_proofs::pasta::Fp;
use halo2_proofs::plonk::Assigned;

verus! {

/// Configuration of the polynomial range-check gadget: the advice column
/// under check, the selector of its one gate, and the model of the
/// registered gate polynomial.
#[derive(Clone, Debug)]
pub struct RangeCheckCircuitConfig<const RANGE_SIZE: usize> {
    /// The advice column holding the values being checked.
    pub value: AdviceColumn,
    /// The selector turning the range constraint on at the rows to be checked.
    pub q_enable: SimpleSelector,
    /// The registered gate polynomial: the selector times the fold
    /// `value · Π (i - value)` over `i` in `1 .. RANGE_SIZE`.
    pub gate: Expr,
}

impl<const RANGE_SIZE: usize> RangeCheckCircuitConfig<RANGE_SIZE> {
    /// The configuration holds exactly the constraint polynomial that `configure`
    /// registers for `RANGE_SIZE`.
    pub open spec fn wf(self) -> bool {
        self.gate == gate_poly(RANGE_SIZE as nat)
    }

    /// Allocates a selector and registers a gate named "range", whose one
    /// constraint, named "range check", is the selector-gated range-check
    /// polynomial for `RANGE_SIZE`.  The builder gains exactly that
    /// selector and that gate; its other registries stand unchanged.
    pub fn configure(cs: &mut CsBuilder<'_>, value: AdviceColumn) -> (cfg: Self)
        requires
            1 <= RANGE_SIZE,
        ensures
            cfg.wf(),
            cfg.value == value,
            final(cs).simple_selectors@ == old(cs).simple_selectors@.push(cfg.q_enable),
            final(cs).gates@ == old(cs).gates@.push(
                (GateModel {
                    name: "range"@,
                    constraint_name: "range check"@,
                    poly: gate_poly(RANGE_SIZE as nat),
                }),
            ),
            final(cs).complex_selectors@ == old(cs).complex_selectors@,
            final(cs).table_columns@ == old(cs).table_columns@,
            final(cs).lookups@ == old(cs).lookups@,
    {
        let q_select = cs_selector(cs);
        let body = build_range_poly(RANGE_SIZE);
        proof {
            lemma_range_poly_selector_free(RANGE_SIZE as nat);
        }
        cs_create_range_gate(cs, q_select, value, &body);
        let gate = Expr::Mul(Box::new(Expr::Selector), Box::new(body));
        assert(gate == gate_poly(RANGE_SIZE as nat));
        Self { value, q_enable: q_select, gate }
    }

    /// Opens a single-row region, enables the gadget's selector at offset 0
    /// and assigns `value` there, returning the marker wrapper.  A failure
    /// of the underlying assignment is propagated unchanged.
    pub fn assign<L: Layouter<Fp>>(
        &self,
        layouter: &mut L,
        value: Value<Assigned<Fp>>,
    ) -> (r: Result<RangeConstrained, GadgetError>)
        ensures
            r matches Err(e) ==> e is Assignment,
    {
        match assign_single_row(layouter, self.q_enable.raw, self.value, value) {
            Ok(cell) => Ok(cell),
            Err(e) => Err(GadgetError::Assignment(e)),
        }
    }
}

/// The polynomial gate accepts selector value `q` and advice value `v` for
/// `range` exactly when its registered polynomial vanishes there.
pub open spec fn gate_accepts(range: nat, q: int, v: int) -> bool {
    eval(gate_poly(range), q, v) == 0
}

/// Completeness of the polynomial gadget: its gate accepts every canonical
/// value of `[0, range)` at an active row, and accepts everything at an
/// inactive row.
pub proof fn lemma_gate_completeness(range: nat, q: int, v: int)
    requires
        1 <= range <= u64::MAX,
        0 <= v < range || q == 0,
    ensures
        gate_accepts(range, q, v),
{
    assert(eval(Expr::Selector, q, v) == q);
    assert(eval(gate_poly(range), q, v) == q * eval(range_poly(range), q, v));
    if q == 0 {
        assert(eval(gate_poly(range), q, v) == 0 * eval(range_poly(range), q, v));
    } else {
        lemma_range_poly_vanishes(range, q, v);
        assert(eval(gate_poly(range), q, v) == q * 0);
    }
}

/// Soundness of the polynomial gadget: at an active row, its registered
/// polynomial leaves a nonzero residual on every integer outside
/// `[0, range)`.
pub proof fn lemma_gate_soundness(range: nat, v: int)
    requires
        1 <= range <= u64::MAX,
        !(0 <= v < range),
    ensures
        !gate_accepts(range, 1, v),
{
    lemma_range_poly_nonzero(range, 1, v);
    assert(eval(Expr::Selector, 1, v) == 1);
    assert(eval(gate_poly(range), 1, v) == 1 * eval(range_poly(range), 1, v));
}

/// Configuring twice, on independent constraint systems but with the same
/// `RANGE_SIZE`, registers structurally identical gates: the registered
/// polynomial is a function of the range alone.
pub proof fn lemma_configure_deterministic<const RANGE_SIZE: usize>(
    a: RangeCheckCircuitConfig<RANGE_SIZE>,
    b: RangeCheckCircuitConfig<RANGE_SIZE>,
)
    requires
        a.wf(),
        b.wf(),
    ensures
        a.gate == b.gate,
{
}

} // verus!
