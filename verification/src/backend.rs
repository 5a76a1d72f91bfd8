//! The boundary to the proof system, and the registry model of its
//! constraint-system builder.
//!
//! The gadgets' algebra — which polynomial a gate holds, which rows a table
//! holds — is built and proved in the rest of the crate over plain values.
//! This module declares the proof system's opaque types and holds the small
//! set of trusted wrappers that register a finished expression with the
//! constraint-system builder or write finished values into the witness
//! layout.  Each wrapper's body makes the outside calls and mirrors the
//! values it is handed, nothing more.
//!
//! The builder itself is modeled as an append-only registry: [`CsBuilder`]
//! carries, beside the opaque handle, ghost lists of the selectors, table
//! columns, gates and lookup relations registered through it since it was
//! made.  Each registration wrapper's contract states exactly which list
//! gains which entry and that the others stand unchanged, so a gadget's
//! `configure` can say in full what the builder gained from it.

use vstd::prelude::*;

use crate::expr::{selector_free, Expr};
use crate::range_lookup::RangeConstrained;
use halo2_proofs::circuit::{Layouter, Value};
use halo2_proofs::pasta::Fp;
use halo2_proofs::plonk::{
    Advice, Assigned, Column, ConstraintSystem, Error, Expression, Selector, TableColumn,
};
use halo2_proofs::poly::Rotation;

verus! {

#[verifier::external_type_specification]
#[verifier::external_body]
pub struct ExFp(Fp);

#[verifier::external_type_specification]
#[verifier::external_body]
pub struct ExSelector(Selector);

#[verifier::external_type_specification]
#[verifier::external_body]
pub struct ExTableColumn(TableColumn);

#[verifier::external_type_specification]
#[verifier::external_body]
pub struct ExError(Error);

#[verifier::external_type_specification]
#[verifier::external_body]
#[verifier::reject_recursive_types(V)]
pub struct ExValue<V>(Value<V>);

#[verifier::external_type_specification]
#[verifier::external_body]
#[verifier::reject_recursive_types(F)]
pub struct ExAssigned<F>(Assigned<F>);

#[verifier::external_type_specification]
#[verifier::external_body]
#[verifier::reject_recursive_types(F)]
pub struct ExExpression<F>(Expression<F>);

/// Relies on the derived `Clone` of `Selector`, a plain copy of its
/// indices; nothing is assumed of the result.
pub assume_specification[ <halo2_proofs::plonk::Selector as std::clone::Clone>::clone ](
    s: &halo2_proofs::plonk::Selector,
) -> halo2_proofs::plonk::Selector;

/// Relies on the derived `Clone` of `TableColumn`, a plain copy of its
/// inner column; nothing is assumed of the result.
pub assume_specification[ <halo2_proofs::plonk::TableColumn as std::clone::Clone>::clone ](
    c: &halo2_proofs::plonk::TableColumn,
) -> halo2_proofs::plonk::TableColumn;

/// A simple selector.  Queries of it may stand in a gate but not in a
/// lookup argument; the registration wrappers keep the two kinds apart by
/// type, so that no lookup can be registered over one of these.
#[derive(Clone, Copy, Debug)]
pub struct SimpleSelector {
    pub(crate) raw: Selector,
}

/// A complex selector, fit for lookup arguments: the builder never
/// compresses it into other columns, so its queries may stand in a lookup
/// input.
#[derive(Clone, Copy, Debug)]
pub struct ComplexSelector {
    pub(crate) raw: Selector,
}

/// The opaque holder of a mutable borrow of the proof system's
/// constraint-system builder.  The builder's own type carries a field-trait
/// bound that cannot be named here, so the borrow is held behind this
/// wrapper; a consuming circuit wraps the builder it is given and hands the
/// wrapper to [`CsBuilder::new`].
#[verifier::external_body]
pub struct CsHandle<'a> {
    /// The wrapped builder.
    pub raw: &'a mut ConstraintSystem<Fp>,
}

/// The model of one registered gate: its name, the name of its one
/// constraint, and the constraint polynomial over the gadget's selector
/// and advice queries.
pub struct GateModel {
    /// Its name.
    pub name: Seq<char>,
    /// The name of its single constraint.
    pub constraint_name: Seq<char>,
    /// The registered polynomial, selector query included.
    pub poly: Expr,
}

/// The model of one registered lookup relation: its input expression over
/// the gadget's selector and advice queries, and the table column it
/// references.
pub struct LookupModel {
    /// The registered input expression, selector query included.
    pub input: Expr,
    /// The table column the input must be found in.
    pub table: TableColumn,
}

/// The constraint-system builder as the gadgets see it: the opaque handle,
/// plus an append-only registry of everything registered through this
/// wrapper since it was made.  The registry is ghost — the proof system
/// keeps the real state — but every registration wrapper's contract keeps
/// it in step, entry for entry.
pub struct CsBuilder<'a> {
    /// The opaque handle to the real builder.
    pub inner: CsHandle<'a>,
    /// The simple selectors allocated through this builder, in order.
    pub simple_selectors: Ghost<Seq<SimpleSelector>>,
    /// The complex selectors allocated through this builder, in order.
    pub complex_selectors: Ghost<Seq<ComplexSelector>>,
    /// The lookup table columns allocated through this builder, in order.
    pub table_columns: Ghost<Seq<TableColumn>>,
    /// The gates registered through this builder, in order.
    pub gates: Ghost<Seq<GateModel>>,
    /// The lookup relations registered through this builder, in order.
    pub lookups: Ghost<Seq<LookupModel>>,
}

impl<'a> CsBuilder<'a> {
    /// Wraps a builder handle with an empty registry: the registry records
    /// what is registered through this wrapper from here on.
    pub fn new(inner: CsHandle<'a>) -> (cs: CsBuilder<'a>)
        ensures
            cs.simple_selectors@ == Seq::<SimpleSelector>::empty(),
            cs.complex_selectors@ == Seq::<ComplexSelector>::empty(),
            cs.table_columns@ == Seq::<TableColumn>::empty(),
            cs.gates@ == Seq::<GateModel>::empty(),
            cs.lookups@ == Seq::<LookupModel>::empty(),
    {
        CsBuilder {
            inner,
            simple_selectors: Ghost(Seq::empty()),
            complex_selectors: Ghost(Seq::empty()),
            table_columns: Ghost(Seq::empty()),
            gates: Ghost(Seq::empty()),
            lookups: Ghost(Seq::empty()),
        }
    }
}

/// An advice column of the proof system, held behind an opaque wrapper for
/// the same reason as [`CsHandle`].  A consuming circuit wraps the column
/// it allocated and hands the wrapper to `configure`.
#[verifier::external_body]
#[derive(Copy, Debug)]
pub struct AdviceColumn {
    /// The wrapped column.
    pub raw: Column<Advice>,
}

impl Clone for AdviceColumn {
    /// A clone of a column handle refers to the same column.
    #[verifier::external_body]
    fn clone(&self) -> (r: Self)
        ensures
            r == *self,
    {
        AdviceColumn { raw: self.raw }
    }
}

/// Relies on `ConstraintSystem::selector`: allocates a fresh simple
/// selector column.  The registry gains exactly the returned selector.
#[verifier::external_body]
pub(crate) fn cs_selector(cs: &mut CsBuilder<'_>) -> (r: SimpleSelector)
    ensures
        final(cs).simple_selectors@ == old(cs).simple_selectors@.push(r),
        final(cs).complex_selectors@ == old(cs).complex_selectors@,
        final(cs).table_columns@ == old(cs).table_columns@,
        final(cs).gates@ == old(cs).gates@,
        final(cs).lookups@ == old(cs).lookups@,
{
    SimpleSelector { raw: cs.inner.raw.selector() }
}

/// Relies on `ConstraintSystem::complex_selector`: allocates a fresh
/// selector that may appear in lookup arguments.  The registry gains
/// exactly the returned selector.
#[verifier::external_body]
pub(crate) fn cs_complex_selector(cs: &mut CsBuilder<'_>) -> (r: ComplexSelector)
    ensures
        final(cs).complex_selectors@ == old(cs).complex_selectors@.push(r),
        final(cs).simple_selectors@ == old(cs).simple_selectors@,
        final(cs).table_columns@ == old(cs).table_columns@,
        final(cs).gates@ == old(cs).gates@,
        final(cs).lookups@ == old(cs).lookups@,
{
    ComplexSelector { raw: cs.inner.raw.complex_selector() }
}

/// Relies on `ConstraintSystem::lookup_table_column`: allocates a fresh
/// table column.  The registry gains exactly the returned column.
#[verifier::external_body]
pub(crate) fn cs_lookup_table_column(cs: &mut CsBuilder<'_>) -> (r: TableColumn)
    ensures
        final(cs).table_columns@ == old(cs).table_columns@.push(r),
        final(cs).simple_selectors@ == old(cs).simple_selectors@,
        final(cs).complex_selectors@ == old(cs).complex_selectors@,
        final(cs).gates@ == old(cs).gates@,
        final(cs).lookups@ == old(cs).lookups@,
{
    cs.inner.raw.lookup_table_column()
}

/// Relies on `Expression`'s `Sub` and `Mul` operators and
/// `Expression::Constant` with the canonical injection `Fp::from`: mirrors
/// a selector-free model expression term for term onto the queried advice
/// expression `v`.  The callers gate the result by their selector query
/// themselves; keeping the selector out of `e` keeps the operators away
/// from the simple-selector inputs on which they panic.
#[verifier::external_body]
fn to_expression(e: &Expr, v: &Expression<Fp>) -> Expression<Fp>
    requires
        selector_free(*e),
{
    match e {
        Expr::Const(c) => Expression::Constant(Fp::from(*c)),
        Expr::Value => v.clone(),
        // excluded by the requires: the callers gate by the selector themselves
        Expr::Selector => Expression::Constant(Fp::from(0)),
        Expr::Sub(a, b) => to_expression(a, v) - to_expression(b, v),
        Expr::Mul(a, b) => to_expression(a, v) * to_expression(b, v),
    }
}

/// Relies on `ConstraintSystem::create_gate`, `VirtualCells::query_selector`
/// / `query_advice`, and `Expression`'s `Mul`: registers one gate named
/// "range" whose single constraint, named "range check", is the selector
/// query times the mirror of `body` over the advice column queried at its
/// own row.  `body` is selector-free, so the one product of a
/// selector-bearing operand pairs it with a selector-free one, which the
/// operator accepts.  The registry gains exactly that gate.
#[verifier::external_body]
pub(crate) fn cs_create_range_gate(
    cs: &mut CsBuilder<'_>,
    sel: SimpleSelector,
    col: AdviceColumn,
    body: &Expr,
)
    requires
        selector_free(*body),
    ensures
        final(cs).gates@ == old(cs).gates@.push(
            (GateModel {
                name: "range"@,
                constraint_name: "range check"@,
                poly: Expr::Mul(Box::new(Expr::Selector), Box::new(*body)),
            }),
        ),
        final(cs).simple_selectors@ == old(cs).simple_selectors@,
        final(cs).complex_selectors@ == old(cs).complex_selectors@,
        final(cs).table_columns@ == old(cs).table_columns@,
        final(cs).lookups@ == old(cs).lookups@,
{
    cs.inner.raw.create_gate("range", |meta| {
        let q = meta.query_selector(sel.raw);
        let v = meta.query_advice(col.raw, Rotation::cur());
        vec![("range check", q * to_expression(body, &v))]
    });
}

/// Relies on `ConstraintSystem::lookup`, `VirtualCells::query_selector` /
/// `query_advice`, and `Expression`'s `Mul`: registers one lookup relation
/// whose input is the selector query times the mirror of `body`, against
/// the given table column.  The selector is complex by type and `body` is
/// selector-free, so the input holds no simple selector, which `lookup`
/// refuses with a panic.  The registry gains exactly that relation.
#[verifier::external_body]
pub(crate) fn cs_register_lookup(
    cs: &mut CsBuilder<'_>,
    sel: ComplexSelector,
    col: AdviceColumn,
    table: TableColumn,
    body: &Expr,
)
    requires
        selector_free(*body),
    ensures
        final(cs).lookups@ == old(cs).lookups@.push(
            (LookupModel {
                input: Expr::Mul(Box::new(Expr::Selector), Box::new(*body)),
                table: table,
            }),
        ),
        final(cs).simple_selectors@ == old(cs).simple_selectors@,
        final(cs).complex_selectors@ == old(cs).complex_selectors@,
        final(cs).table_columns@ == old(cs).table_columns@,
        final(cs).gates@ == old(cs).gates@,
{
    cs.inner.raw.lookup(|meta| {
        let q = meta.query_selector(sel.raw);
        let v = meta.query_advice(col.raw, Rotation::cur());
        vec![(q * to_expression(body, &v), table)]
    });
}

/// Relies on `Layouter::assign_region`, `Selector::enable` and
/// `Region::assign_advice`: opens one fresh region, turns the selector on at
/// row 0 of that region, writes `val` into the advice column at row 0, and
/// hands back the assigned cell behind its marker wrapper.  Any error of the
/// layouter is returned unchanged.
#[verifier::external_body]
pub(crate) fn assign_single_row<L: Layouter<Fp>>(
    layouter: &mut L,
    sel: Selector,
    col: AdviceColumn,
    val: Value<Assigned<Fp>>,
) -> Result<RangeConstrained, Error> {
    layouter.assign_region(
        || "assign range val",
        |mut region| {
            sel.enable(&mut region, 0)?;
            region.assign_advice(|| "value", col.raw, 0, || val).map(|cell| RangeConstrained {
                cell,
            })
        },
    )
}

/// Relies on `Layouter::assign_table` and `Table::assign_cell`: within one
/// table region, writes the canonical injection `Fp::from(rows[i])` into row
/// `i` of the table column, for every index of `rows`.  Any error of the
/// layouter is returned unchanged.
#[verifier::external_body]
pub(crate) fn assign_table_rows<L: Layouter<Fp>>(
    layouter: &mut L,
    col: TableColumn,
    rows: &Vec<u64>,
) -> Result<(), Error> {
    layouter.assign_table(
        || "assign table",
        |mut table| {
            for (i, r) in rows.iter().enumerate() {
                table.assign_cell(|| "assign lookup table value", col, i, || {
                    Value::known(Fp::from(*r))
                })?;
            }
            Ok(())
        },
    )
}

} // verus!
