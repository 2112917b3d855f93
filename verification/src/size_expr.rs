use vstd::prelude::*;
use crate::model::SpanId;

verus! {

/// A compile-time `usize` expression of the expansion.
///
/// `FieldBits(i)` stands for `<T as ::modular_bitfield::Specifier>::BITS`,
/// where `T` is the type of the field at index `i` of the struct.
#[derive(Debug, PartialEq, Eq)]
pub enum SizeExpr {
    /// A `usize` literal.
    Lit(usize),
    /// A `usize` literal given in the attribute, placed at the span where it
    /// was written (the value of `bits = N`).
    SpannedLit(usize, SpanId),
    /// The bit width of the type of the field at this index.
    FieldBits(usize),
    /// `lhs + rhs`
    Add(Box<SizeExpr>, Box<SizeExpr>),
    /// `lhs - rhs`
    Sub(Box<SizeExpr>, Box<SizeExpr>),
    /// `lhs / rhs`
    Div(Box<SizeExpr>, Box<SizeExpr>),
    /// `lhs * rhs`
    Mul(Box<SizeExpr>, Box<SizeExpr>),
}

impl SizeExpr {
    /// The value of the expression when the field at index `i` has a type of
    /// `widths(i)` bits, computed over the integers. It is what the compiler
    /// computes where `evaluates` holds; elsewhere const evaluation fails and
    /// this value means nothing.
    pub open spec fn eval(self, widths: spec_fn(int) -> nat) -> int
        decreases self,
    {
        match self {
            SizeExpr::Lit(n) => n as int,
            SizeExpr::SpannedLit(n, _) => n as int,
            SizeExpr::FieldBits(i) => widths(i as int) as int,
            SizeExpr::Add(a, b) => (*a).eval(widths) + (*b).eval(widths),
            SizeExpr::Sub(a, b) => (*a).eval(widths) - (*b).eval(widths),
            SizeExpr::Div(a, b) => (*a).eval(widths) / (*b).eval(widths),
            SizeExpr::Mul(a, b) => (*a).eval(widths) * (*b).eval(widths),
        }
    }

    /// Whether the compiler can evaluate the expression: every intermediate
    /// value lies in the range of `usize` and no division is by zero.
    pub open spec fn evaluates(self, widths: spec_fn(int) -> nat) -> bool
        decreases self,
    {
        match self {
            SizeExpr::Lit(n) => true,
            SizeExpr::SpannedLit(n, _) => true,
            SizeExpr::FieldBits(i) => widths(i as int) <= usize::MAX,
            SizeExpr::Add(a, b) => (*a).evaluates(widths) && (*b).evaluates(widths)
                && (*a).eval(widths) + (*b).eval(widths) <= usize::MAX,
            SizeExpr::Sub(a, b) => (*a).evaluates(widths) && (*b).evaluates(widths)
                && (*a).eval(widths) - (*b).eval(widths) >= 0,
            SizeExpr::Div(a, b) => (*a).evaluates(widths) && (*b).evaluates(widths)
                && (*b).eval(widths) != 0,
            SizeExpr::Mul(a, b) => (*a).evaluates(widths) && (*b).evaluates(widths)
                && (*a).eval(widths) * (*b).eval(widths) <= usize::MAX,
        }
    }

    /// Returns a structurally equal copy of the expression.
    pub fn deep_copy(&self) -> (r: SizeExpr)
        ensures
            r == *self,
        decreases self,
    {
        match self {
            SizeExpr::Lit(n) => SizeExpr::Lit(*n),
            SizeExpr::SpannedLit(n, span) => SizeExpr::SpannedLit(*n, *span),
            SizeExpr::FieldBits(i) => SizeExpr::FieldBits(*i),
            SizeExpr::Add(a, b) => SizeExpr::Add(Box::new(a.deep_copy()), Box::new(b.deep_copy())),
            SizeExpr::Sub(a, b) => SizeExpr::Sub(Box::new(a.deep_copy()), Box::new(b.deep_copy())),
            SizeExpr::Div(a, b) => SizeExpr::Div(Box::new(a.deep_copy()), Box::new(b.deep_copy())),
            SizeExpr::Mul(a, b) => SizeExpr::Mul(Box::new(a.deep_copy()), Box::new(b.deep_copy())),
        }
    }
}

/// `0usize + BITS(0) + BITS(1) + ... + BITS(n - 1)`, associated to the left.
pub open spec fn sum_of_field_bits(n: nat) -> SizeExpr
    decreases n,
{
    if n == 0 {
        SizeExpr::Lit(0)
    } else {
        SizeExpr::Add(
            Box::new(sum_of_field_bits((n - 1) as nat)),
            Box::new(SizeExpr::FieldBits((n - 1) as usize)),
        )
    }
}

/// The sum of the widths of the fields at indices `0 .. n`.
pub open spec fn width_sum(widths: spec_fn(int) -> nat, n: nat) -> int
    decreases n,
{
    if n == 0 {
        0
    } else {
        width_sum(widths, (n - 1) as nat) + widths(n - 1) as int
    }
}

/// The widths of the first `n` fields are `usize` values, as the `BITS`
/// constants of their types are.
pub open spec fn valid_widths(widths: spec_fn(int) -> nat, n: nat) -> bool {
    forall|i: int| 0 <= i < n ==> #[trigger] widths(i) <= usize::MAX
}

/// `(((value - 1) / 8) + 1) * 8`
pub open spec fn round_up_to_8(value: SizeExpr) -> SizeExpr {
    SizeExpr::Mul(
        Box::new(
            SizeExpr::Add(
                Box::new(
                    SizeExpr::Div(
                        Box::new(SizeExpr::Sub(Box::new(value), Box::new(SizeExpr::Lit(1)))),
                        Box::new(SizeExpr::Lit(8)),
                    ),
                ),
                Box::new(SizeExpr::Lit(1)),
            ),
        ),
        Box::new(SizeExpr::Lit(8)),
    )
}

/// `value / 8usize`
pub open spec fn bytes_of_bits(value: SizeExpr) -> SizeExpr {
    SizeExpr::Div(Box::new(value), Box::new(SizeExpr::Lit(8)))
}

/// The sum expression of the first `n` fields evaluates to the sum of their widths.
pub proof fn lemma_sum_of_field_bits_eval(widths: spec_fn(int) -> nat, n: nat)
    requires
        n <= usize::MAX + 1,
    ensures
        sum_of_field_bits(n).eval(widths) == width_sum(widths, n),
    decreases n,
{
    if n > 0 {
        lemma_sum_of_field_bits_eval(widths, (n - 1) as nat);
        let last = (n - 1) as usize;
        assert(last as int == n - 1);
        assert(SizeExpr::FieldBits(last).eval(widths) == widths(n - 1));
    }
}

/// An expression that evaluates has a value in the range of `usize`.
pub proof fn lemma_evaluates_in_range(e: SizeExpr, widths: spec_fn(int) -> nat)
    requires
        e.evaluates(widths),
    ensures
        0 <= e.eval(widths) <= usize::MAX,
    decreases e,
{
    match e {
        SizeExpr::Lit(n) => {},
        SizeExpr::SpannedLit(n, _) => {},
        SizeExpr::FieldBits(i) => {},
        SizeExpr::Add(a, b) => {
            lemma_evaluates_in_range(*a, widths);
            lemma_evaluates_in_range(*b, widths);
        },
        SizeExpr::Sub(a, b) => {
            lemma_evaluates_in_range(*a, widths);
            lemma_evaluates_in_range(*b, widths);
        },
        SizeExpr::Div(a, b) => {
            lemma_evaluates_in_range(*a, widths);
            lemma_evaluates_in_range(*b, widths);
            let x = (*a).eval(widths);
            let y = (*b).eval(widths);
            assert(0 <= x / y <= x) by (nonlinear_arith)
                requires
                    0 <= x,
                    0 < y,
            ;
        },
        SizeExpr::Mul(a, b) => {
            lemma_evaluates_in_range(*a, widths);
            lemma_evaluates_in_range(*b, widths);
            let x = (*a).eval(widths);
            let y = (*b).eval(widths);
            assert(0 <= x * y) by (nonlinear_arith)
                requires
                    0 <= x,
                    0 <= y,
            ;
        },
    }
}

/// The sum expression of the first `n` fields evaluates exactly when the
/// widths are `usize` values whose sum stays in the range of `usize`.
pub proof fn lemma_sum_of_field_bits_evaluates(widths: spec_fn(int) -> nat, n: nat)
    requires
        n <= usize::MAX + 1,
        forall|i: int| 0 <= i < n ==> #[trigger] widths(i) <= usize::MAX,
    ensures
        sum_of_field_bits(n).evaluates(widths) <==> width_sum(widths, n) <= usize::MAX,
    decreases n,
{
    if n > 0 {
        let m = (n - 1) as nat;
        lemma_sum_of_field_bits_evaluates(widths, m);
        lemma_sum_of_field_bits_eval(widths, m);
        let last = (n - 1) as usize;
        assert(last as int == n - 1);
        assert(SizeExpr::FieldBits(last).evaluates(widths));
        assert(SizeExpr::FieldBits(last).eval(widths) == widths(n - 1));
        assert(widths(n - 1) <= usize::MAX);
    }
}

/// Widths are never negative, so neither is their sum.
pub proof fn lemma_width_sum_nonneg(widths: spec_fn(int) -> nat, n: nat)
    ensures
        width_sum(widths, n) >= 0,
    decreases n,
{
    if n > 0 {
        lemma_width_sum_nonneg(widths, (n - 1) as nat);
    }
}

} // verus!
