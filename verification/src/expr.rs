//! The model of a gate polynomial: an expression tree over one advice query
//! and one selector query, evaluated over the canonical integer
//! representatives of field elements.

use vstd::prelude::*;

verus! {

/// A polynomial constraint expression, as a gadget registers it with the
/// constraint system: an algebraic term over the advice value queried at the
/// gate's row, the selector queried at the same row, and small integer
/// constants taken into the field by the canonical injection.
#[derive(Debug, PartialEq, Eq)]
pub enum Expr {
    /// The canonical injection of a small integer constant.
    Const(u64),
    /// The advice (witness) value at the constrained row.
    Value,
    /// The selector at the constrained row: `1` where the row is checked, else `0`.
    Selector,
    /// The difference of two expressions.
    Sub(Box<Expr>, Box<Expr>),
    /// The product of two expressions.
    Mul(Box<Expr>, Box<Expr>),
}

impl Clone for Expr {
    /// A clone of an expression is the same expression.
    fn clone(&self) -> (r: Self)
        ensures
            r == *self,
        decreases *self,
    {
        match self {
            Expr::Const(c) => Expr::Const(*c),
            Expr::Value => Expr::Value,
            Expr::Selector => Expr::Selector,
            Expr::Sub(a, b) => Expr::Sub(Box::new((&**a).clone()), Box::new((&**b).clone())),
            Expr::Mul(a, b) => Expr::Mul(Box::new((&**a).clone()), Box::new((&**b).clone())),
        }
    }
}

/// The value of `e` at selector value `q` and advice value `v`, over the
/// canonical integer representatives.
pub open spec fn eval(e: Expr, q: int, v: int) -> int
    decreases e,
{
    match e {
        Expr::Const(c) => c as int,
        Expr::Value => v,
        Expr::Selector => q,
        Expr::Sub(a, b) => eval(*a, q, v) - eval(*b, q, v),
        Expr::Mul(a, b) => eval(*a, q, v) * eval(*b, q, v),
    }
}

/// The degree of `e` in the advice value alone.
pub open spec fn value_degree(e: Expr) -> nat
    decreases e,
{
    match e {
        Expr::Const(_) => 0,
        Expr::Value => 1,
        Expr::Selector => 0,
        Expr::Sub(a, b) => if value_degree(*a) >= value_degree(*b) {
            value_degree(*a)
        } else {
            value_degree(*b)
        },
        Expr::Mul(a, b) => value_degree(*a) + value_degree(*b),
    }
}

/// The total degree of `e`, counting the selector as a variable as the
/// constraint system does when it bounds a gate's degree.
pub open spec fn total_degree(e: Expr) -> nat
    decreases e,
{
    match e {
        Expr::Const(_) => 0,
        Expr::Value => 1,
        Expr::Selector => 1,
        Expr::Sub(a, b) => if total_degree(*a) >= total_degree(*b) {
            total_degree(*a)
        } else {
            total_degree(*b)
        },
        Expr::Mul(a, b) => total_degree(*a) + total_degree(*b),
    }
}

/// The range-check polynomial for `range`: the fold that starts from the
/// advice value itself and multiplies one factor `(i - value)` for each
/// `i` in `1 .. range`.  Its zero set over the integers is exactly
/// `{0, …, range-1}`.
pub open spec fn range_poly(range: nat) -> Expr
    decreases range,
{
    if range <= 1 {
        Expr::Value
    } else {
        Expr::Mul(
            Box::new(range_poly((range - 1) as nat)),
            Box::new(Expr::Sub(Box::new(Expr::Const((range - 1) as u64)), Box::new(Expr::Value))),
        )
    }
}

/// The polynomial gadget's registered gate: the range-check polynomial
/// gated by the selector, so that rows with the selector off are
/// unconstrained.
pub open spec fn gate_poly(range: nat) -> Expr {
    Expr::Mul(Box::new(Expr::Selector), Box::new(range_poly(range)))
}

/// The lookup gadget's registered input expression `q · value`: rows with
/// the selector off degenerate to `0`, which the table always holds.
pub open spec fn lookup_input() -> Expr {
    Expr::Mul(Box::new(Expr::Selector), Box::new(Expr::Value))
}

/// Builds the range-check polynomial for `range` by folding one factor
/// `(i - value)` onto the advice value for each `i` in `1 .. range`.
pub fn build_range_poly(range: usize) -> (e: Expr)
    requires
        1 <= range,
    ensures
        e == range_poly(range as nat),
{
    let mut e = Expr::Value;
    let mut i: usize = 1;
    while i < range
        invariant
            1 <= i <= range,
            e == range_poly(i as nat),
        decreases range - i,
    {
        e = Expr::Mul(
            Box::new(e),
            Box::new(Expr::Sub(Box::new(Expr::Const(i as u64)), Box::new(Expr::Value))),
        );
        i = i + 1;
    }
    e
}

/// Builds the selector-gated gate polynomial that the polynomial gadget
/// registers for `range`.
pub fn build_gate_poly(range: usize) -> (e: Expr)
    requires
        1 <= range,
    ensures
        e == gate_poly(range as nat),
{
    let poly = build_range_poly(range);
    Expr::Mul(Box::new(Expr::Selector), Box::new(poly))
}

/// Builds the lookup gadget's input expression `q · value`.
pub fn build_lookup_input() -> (e: Expr)
    ensures
        e == lookup_input(),
{
    Expr::Mul(Box::new(Expr::Selector), Box::new(Expr::Value))
}

/// The intermediate values of `e` at `(q, v)` all fit in `i64`, so an
/// `i64` evaluator can compute `eval` without overflow.
pub open spec fn fits_i64(e: Expr, q: int, v: int) -> bool
    decreases e,
{
    match e {
        Expr::Const(c) => c <= i64::MAX,
        Expr::Value => i64::MIN <= v <= i64::MAX,
        Expr::Selector => i64::MIN <= q <= i64::MAX,
        Expr::Sub(a, b) => fits_i64(*a, q, v) && fits_i64(*b, q, v) && i64::MIN <= eval(*a, q, v)
            - eval(*b, q, v) <= i64::MAX,
        Expr::Mul(a, b) => fits_i64(*a, q, v) && fits_i64(*b, q, v) && i64::MIN <= eval(*a, q, v)
            * eval(*b, q, v) <= i64::MAX,
    }
}

/// Evaluates `e` at selector value `q` and advice value `v` in `i64`
/// arithmetic: the exact value of `eval` where every intermediate result
/// fits in `i64`, and `None` where one does not.
pub fn eval_expr(e: &Expr, q: i64, v: i64) -> (r: Option<i64>)
    ensures
        r matches Some(x) ==> fits_i64(*e, q as int, v as int) && x == eval(
            *e,
            q as int,
            v as int,
        ),
        r is None ==> !fits_i64(*e, q as int, v as int),
    decreases *e,
{
    match e {
        Expr::Const(c) => if *c <= i64::MAX as u64 {
            Some(*c as i64)
        } else {
            None
        },
        Expr::Value => Some(v),
        Expr::Selector => Some(q),
        Expr::Sub(a, b) => match (eval_expr(&**a, q, v), eval_expr(&**b, q, v)) {
            (Some(x), Some(y)) => x.checked_sub(y),
            _ => None,
        },
        Expr::Mul(a, b) => match (eval_expr(&**a, q, v), eval_expr(&**b, q, v)) {
            (Some(x), Some(y)) => x.checked_mul(y),
            _ => None,
        },
    }
}

/// `e` never queries the selector.  The registration wrappers take such an
/// expression and gate it by the selector query themselves; keeping the
/// selector out of `e` keeps the proof system's expression operators away
/// from the inputs they refuse beside a simple selector.
pub open spec fn selector_free(e: Expr) -> bool
    decreases e,
{
    match e {
        Expr::Const(_) => true,
        Expr::Value => true,
        Expr::Selector => false,
        Expr::Sub(a, b) => selector_free(*a) && selector_free(*b),
        Expr::Mul(a, b) => selector_free(*a) && selector_free(*b),
    }
}

/// The range-check polynomial never queries the selector: gating is added
/// on top of it at registration.
pub proof fn lemma_range_poly_selector_free(range: nat)
    ensures
        selector_free(range_poly(range)),
    decreases range,
{
    if range <= 1 {
        assert(range_poly(range) == Expr::Value);
        assert(selector_free(Expr::Value));
    } else {
        lemma_range_poly_selector_free((range - 1) as nat);
        let prev = range_poly((range - 1) as nat);
        let sub = Expr::Sub(Box::new(Expr::Const((range - 1) as u64)), Box::new(Expr::Value));
        assert(range_poly(range) == Expr::Mul(Box::new(prev), Box::new(sub)));
        assert(selector_free(Expr::Const((range - 1) as u64)));
        assert(selector_free(Expr::Value));
        assert(selector_free(sub));
    }
}

/// The product of the offset factors alone: `Π (i - v)` over `i` in
/// `1 .. range`, the degree-`(range - 1)` part of the range-check
/// polynomial that stands beside its initial value factor.
pub open spec fn offsets_value(range: nat, v: int) -> int
    decreases range,
{
    if range <= 1 {
        1
    } else {
        offsets_value((range - 1) as nat, v) * ((range - 1) - v)
    }
}

/// Factored form of the range-check polynomial: its value is the advice
/// value times the product of the `range - 1` offset factors, so the fold
/// has degree `range` in the value — one more than the offset product's
/// `range - 1`.
pub proof fn lemma_range_poly_factors(range: nat, q: int, v: int)
    requires
        1 <= range <= u64::MAX,
    ensures
        eval(range_poly(range), q, v) == v * offsets_value(range, v),
    decreases range,
{
    if range == 1 {
        assert(range_poly(range) == Expr::Value);
        assert(eval(Expr::Value, q, v) == v);
        assert(offsets_value(range, v) == 1);
    } else {
        lemma_range_poly_factors((range - 1) as nat, q, v);
        let prev = range_poly((range - 1) as nat);
        let sub = Expr::Sub(Box::new(Expr::Const((range - 1) as u64)), Box::new(Expr::Value));
        assert(range_poly(range) == Expr::Mul(Box::new(prev), Box::new(sub)));
        assert(eval(Expr::Const((range - 1) as u64), q, v) == range - 1);
        assert(eval(Expr::Value, q, v) == v);
        assert(eval(sub, q, v) == (range - 1) - v);
        let p = offsets_value((range - 1) as nat, v);
        let f = (range - 1) - v;
        assert(eval(range_poly(range), q, v) == (v * p) * f);
        assert(offsets_value(range, v) == p * f);
        assert((v * p) * f == v * (p * f)) by (nonlinear_arith);
    }
}

/// The range-check polynomial vanishes on every canonical representative
/// of the interval `[0, range)`, whatever the selector value.
pub proof fn lemma_range_poly_vanishes(range: nat, q: int, v: int)
    requires
        1 <= range <= u64::MAX,
        0 <= v < range,
    ensures
        eval(range_poly(range), q, v) == 0,
    decreases range,
{
    if range == 1 {
        assert(range_poly(range) == Expr::Value);
        assert(eval(Expr::Value, q, v) == v);
    } else {
        let prev = range_poly((range - 1) as nat);
        let sub = Expr::Sub(Box::new(Expr::Const((range - 1) as u64)), Box::new(Expr::Value));
        assert(range_poly(range) == Expr::Mul(Box::new(prev), Box::new(sub)));
        assert(eval(Expr::Const((range - 1) as u64), q, v) == range - 1);
        assert(eval(Expr::Value, q, v) == v);
        assert(eval(sub, q, v) == (range - 1) - v);
        assert(eval(range_poly(range), q, v) == eval(prev, q, v) * ((range - 1) - v));
        if v == range - 1 {
            assert(eval(range_poly(range), q, v) == eval(prev, q, v) * 0);
        } else {
            lemma_range_poly_vanishes((range - 1) as nat, q, v);
            assert(eval(range_poly(range), q, v) == 0 * ((range - 1) - v));
        }
    }
}

/// The range-check polynomial is nonzero at every integer outside
/// `[0, range)`: over the canonical representatives it is a product of
/// nonzero factors.
pub proof fn lemma_range_poly_nonzero(range: nat, q: int, v: int)
    requires
        1 <= range <= u64::MAX,
        v < 0 || v >= range,
    ensures
        eval(range_poly(range), q, v) != 0,
    decreases range,
{
    if range == 1 {
        assert(range_poly(range) == Expr::Value);
        assert(eval(Expr::Value, q, v) == v);
    } else {
        lemma_range_poly_nonzero((range - 1) as nat, q, v);
        let prev = range_poly((range - 1) as nat);
        let sub = Expr::Sub(Box::new(Expr::Const((range - 1) as u64)), Box::new(Expr::Value));
        assert(range_poly(range) == Expr::Mul(Box::new(prev), Box::new(sub)));
        assert(eval(Expr::Const((range - 1) as u64), q, v) == range - 1);
        assert(eval(Expr::Value, q, v) == v);
        assert(eval(sub, q, v) == (range - 1) - v);
        let a = eval(prev, q, v);
        let b = (range - 1) - v;
        assert(eval(range_poly(range), q, v) == a * b);
        assert(a * b != 0) by (nonlinear_arith)
            requires
                a != 0,
                b != 0,
        ;
    }
}

/// The degree of the range-check polynomial in the advice value is
/// `range`: one from the initial value factor, and `range - 1` from the
/// linear offset factors folded onto it.
pub proof fn lemma_range_poly_degree(range: nat)
    requires
        1 <= range,
    ensures
        value_degree(range_poly(range)) == range,
        total_degree(range_poly(range)) == range,
    decreases range,
{
    if range == 1 {
        assert(range_poly(range) == Expr::Value);
    } else {
        lemma_range_poly_degree((range - 1) as nat);
        let prev = range_poly((range - 1) as nat);
        let sub = Expr::Sub(Box::new(Expr::Const((range - 1) as u64)), Box::new(Expr::Value));
        assert(range_poly(range) == Expr::Mul(Box::new(prev), Box::new(sub)));
        assert(value_degree(Expr::Const((range - 1) as u64)) == 0);
        assert(value_degree(Expr::Value) == 1);
        assert(value_degree(sub) == 1);
        assert(total_degree(Expr::Const((range - 1) as u64)) == 0);
        assert(total_degree(Expr::Value) == 1);
        assert(total_degree(sub) == 1);
    }
}

/// Degree bounds of both gadgets' registered expressions: the polynomial
/// gate's degree grows linearly with `range`, while the lookup input stays
/// at total degree `2` whatever the range.
pub proof fn lemma_gate_degree(range: nat)
    requires
        1 <= range,
    ensures
        value_degree(gate_poly(range)) == range,
        total_degree(gate_poly(range)) == range + 1,
        value_degree(lookup_input()) == 1,
        total_degree(lookup_input()) == 2,
{
    lemma_range_poly_degree(range);
    assert(value_degree(Expr::Selector) == 0);
    assert(total_degree(Expr::Selector) == 1);
    assert(value_degree(Expr::Value) == 1);
    assert(total_degree(Expr::Value) == 1);
    assert(value_degree(gate_poly(range)) == 0 + value_degree(range_poly(range)));
    assert(total_degree(gate_poly(range)) == 1 + total_degree(range_poly(range)));
    assert(value_degree(lookup_input()) == 0 + 1);
    assert(total_degree(lookup_input()) == 1 + 1);
}

} // verus!
