//! The lookup range-check gadget: membership of the checked value in a
//! precomputed table of the canonical values `0 .. RANGE`, enforced through
//! a lookup relation, together with the range-table component that
//! materializes that table once.

use vstd::prelude::*;

use crate::backend::{
    assign_single_row, assign_table_rows, cs_complex_selector, cs_lookup_table_column,
    cs_register_lookup, AdviceColumn, ComplexSelector, CsBuilder, LookupModel,
};
use crate::expr::{eval, lookup_input, selector_free, Expr};
use crate::GadgetError;
use halo2_proofs::circuit::{AssignedCell, Layouter, Value};
use halo2_proofs::pasta::Fp;
use halo2_proofs::plonk::{Assigned, TableColumn};

verus! {

/// An assigned, range-checked witness cell: a marker that the wrapped value
/// has been placed under one of the gadgets' constraints.  It exposes no
/// accessor — the value now belongs to the circuit's witness storage, and a
/// holder of this token can only pass it on.
#[verifier::external_body]
pub struct RangeConstrained {
    pub(crate) cell: AssignedCell<Assigned<Fp>, Fp>,
}

/// The canonical contents of the range table for `range`: the integers
/// `0, 1, …, range-1`, one per row, in order.
pub open spec fn table_contents(range: nat) -> Seq<int> {
    Seq::new(range, |i: int| i)
}

/// The rows the range table is loaded with: the canonical values
/// `0 .. range`, in order.
pub fn canonical_table_rows(range: usize) -> (rows: Vec<u64>)
    ensures
        rows@.len() == range,
        forall|i: int| 0 <= i < range ==> rows@[i] as int == table_contents(range as nat)[i],
{
    let mut rows: Vec<u64> = Vec::new();
    let mut i: usize = 0;
    while i < range
        invariant
            i <= range,
            rows@.len() == i,
            forall|j: int| 0 <= j < i ==> rows@[j] as int == j,
        decreases range - i,
    {
        rows.push(i as u64);
        i = i + 1;
    }
    rows
}

/// Configuration of the range table: one dedicated table column, loaded
/// once with the canonical values `0 .. RANGE`.
#[derive(Clone, Debug)]
pub struct RangeTableConfig<const RANGE: usize> {
    /// The table column holding the canonical values.
    pub value: TableColumn,
}

impl<const RANGE: usize> RangeTableConfig<RANGE> {
    /// Allocates the dedicated table column.  The builder gains exactly
    /// that column, which the returned configuration holds; its other
    /// registries stand unchanged.
    pub fn configure(cs: &mut CsBuilder<'_>) -> (cfg: Self)
        requires
            1 <= RANGE,
        ensures
            final(cs).table_columns@ == old(cs).table_columns@.push(cfg.value),
            final(cs).simple_selectors@ == old(cs).simple_selectors@,
            final(cs).complex_selectors@ == old(cs).complex_selectors@,
            final(cs).gates@ == old(cs).gates@,
            final(cs).lookups@ == old(cs).lookups@,
    {
        Self { value: cs_lookup_table_column(cs) }
    }

    /// Writes the canonical values `0, 1, …, RANGE-1` into consecutive rows
    /// of the table column, within one table region.  Must be called exactly
    /// once, before any lookup row is assigned.  A failure of the underlying
    /// table assignment is propagated unchanged.
    pub fn load<L: Layouter<Fp>>(&self, layouter: &mut L) -> (r: Result<(), GadgetError>)
        requires
            1 <= RANGE,
        ensures
            r matches Err(e) ==> e is Assignment,
    {
        let rows = canonical_table_rows(RANGE);
        match assign_table_rows(layouter, self.value, &rows) {
            Ok(()) => Ok(()),
            Err(e) => Err(GadgetError::Assignment(e)),
        }
    }
}

/// Configuration of the lookup range-check gadget: an advice column for the
/// checked values, a complex selector, an owned range table, and the model
/// of the registered lookup input expression.
#[derive(Clone, Debug)]
pub struct RangeCheckLookupConfig<const RANGE: usize> {
    /// The advice column holding the values being checked.
    pub values: AdviceColumn,
    /// The complex selector gating the lookup at the rows to be checked.
    pub q_enable: ComplexSelector,
    /// The gadget's owned range table.
    pub table: RangeTableConfig<RANGE>,
    /// The registered lookup input expression: `q · value`, so that rows
    /// with the selector off degenerate to `0`, which the table holds.
    pub input: Expr,
}

impl<const RANGE: usize> RangeCheckLookupConfig<RANGE> {
    /// The configuration holds exactly the lookup input expression that
    /// `configure` registers.
    pub open spec fn wf(self) -> bool {
        self.input == lookup_input()
    }

    /// Allocates the complex selector and the owned table, and registers
    /// the lookup relation `(q · value, table)` with the builder.  The
    /// builder gains exactly that selector, that table column and that
    /// relation; its other registries stand unchanged.
    pub fn configure(cs: &mut CsBuilder<'_>, values: AdviceColumn) -> (cfg: Self)
        requires
            1 <= RANGE,
        ensures
            cfg.wf(),
            cfg.values == values,
            final(cs).complex_selectors@ == old(cs).complex_selectors@.push(cfg.q_enable),
            final(cs).table_columns@ == old(cs).table_columns@.push(cfg.table.value),
            final(cs).lookups@ == old(cs).lookups@.push(
                (LookupModel { input: lookup_input(), table: cfg.table.value }),
            ),
            final(cs).simple_selectors@ == old(cs).simple_selectors@,
            final(cs).gates@ == old(cs).gates@,
    {
        let q_enable = cs_complex_selector(cs);
        let table = RangeTableConfig::<RANGE>::configure(cs);
        let body = Expr::Value;
        assert(selector_free(Expr::Value));
        cs_register_lookup(cs, q_enable, values, table.value, &body);
        let input = Expr::Mul(Box::new(Expr::Selector), Box::new(body));
        assert(input == lookup_input());
        Self { values, q_enable, table, input }
    }

    /// Opens a single-row region, enables the selector at offset 0 and
    /// assigns `val` there, returning the marker wrapper.  Each call places
    /// its value in a region of its own; a failure of the underlying
    /// assignment is propagated unchanged.
    pub fn assign_lookup<L: Layouter<Fp>>(
        &self,
        layouter: &mut L,
        val: Value<Assigned<Fp>>,
    ) -> (r: Result<RangeConstrained, GadgetError>)
        ensures
            r matches Err(e) ==> e is Assignment,
    {
        match assign_single_row(layouter, self.q_enable.raw, self.values, val) {
            Ok(cell) => Ok(cell),
            Err(e) => Err(GadgetError::Assignment(e)),
        }
    }
}

/// The lookup relation accepts selector value `q` and advice value `v` for
/// `range` exactly when the registered input expression evaluates into the
/// table's contents.
pub open spec fn lookup_accepts(range: nat, q: int, v: int) -> bool {
    table_contents(range).contains(eval(lookup_input(), q, v))
}

/// Table integrity: after `load`, the table holds exactly `range` rows,
/// the canonical values `0 .. range` in order, all distinct.
pub proof fn lemma_table_integrity(range: nat)
    ensures
        table_contents(range).len() == range,
        forall|i: int| 0 <= i < range ==> table_contents(range)[i] == i,
        forall|i: int, j: int|
            0 <= i < range && 0 <= j < range && i != j ==> table_contents(range)[i]
                != table_contents(range)[j],
{
}

/// Completeness of the lookup gadget: every canonical value of `[0, range)`
/// is found in the table at an active row, and an inactive row's input
/// degenerates to `0` — trivially present in the table — whatever the
/// advice value there.
pub proof fn lemma_lookup_completeness(range: nat, q: int, v: int)
    requires
        1 <= range,
        (q == 1 && 0 <= v < range) || q == 0,
    ensures
        lookup_accepts(range, q, v),
{
    assert(eval(Expr::Selector, q, v) == q);
    assert(eval(Expr::Value, q, v) == v);
    assert(eval(lookup_input(), q, v) == q * v);
    if q == 0 {
        assert(eval(lookup_input(), q, v) == 0 * v);
        assert(table_contents(range)[0] == 0);
        assert(table_contents(range).contains(0));
    } else {
        assert(eval(lookup_input(), q, v) == 1 * v);
        assert(table_contents(range)[v] == v);
        assert(table_contents(range).contains(v));
    }
}

/// Soundness of the lookup gadget: a value outside `[0, range)` matches no
/// table row, so the relation rejects it at an active row.
pub proof fn lemma_lookup_soundness(range: nat, v: int)
    requires
        1 <= range,
        !(0 <= v < range),
    ensures
        !lookup_accepts(range, 1, v),
{
    assert(eval(Expr::Selector, 1, v) == 1);
    assert(eval(Expr::Value, 1, v) == v);
    assert(eval(lookup_input(), 1, v) == v);
    assert forall|i: int| 0 <= i < range implies table_contents(range)[i] != v by {
        assert(table_contents(range)[i] == i);
    }
    assert(!table_contents(range).contains(v));
}

/// Configuring twice, on independent constraint systems but with the same
/// `RANGE`, registers structurally identical lookup inputs: the registered
/// expression is a function of the range alone.
pub proof fn lemma_lookup_configure_deterministic<const RANGE: usize>(
    a: RangeCheckLookupConfig<RANGE>,
    b: RangeCheckLookupConfig<RANGE>,
)
    requires
        a.wf(),
        b.wf(),
    ensures
        a.input == b.input,
{
}

} // verus!
