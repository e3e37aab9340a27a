//! The conversion table: which scalings, in which order, take an amount from
//! one unit to another.
//!
//! The library names the scalings and proves what they amount to over the
//! real numbers. Carrying them out on doubles is left to the caller, who
//! applies the steps in the order given.

use vstd::prelude::*;
use crate::unit::Unit;

verus! {

/// Lamports in one sol.
pub const LAMPORTS_PER_SOL: u64 = 1_000_000_000;

/// Micro-lamports in one lamport.
pub const MICRO_LAMPORTS_PER_LAMPORT: u64 = 1_000_000;

/// One scaling of an amount by a whole ratio.
#[derive(Clone, Copy, Debug, PartialEq, Eq, Structural)]
pub enum Step {
    /// Multiply the amount by the ratio.
    Multiply(u64),
    /// Divide the amount by the ratio.
    Divide(u64),
}

impl Step {
    /// The ratio that the step scales by.
    pub open spec fn ratio(self) -> int {
        match self {
            Step::Multiply(k) => k as int,
            Step::Divide(k) => k as int,
        }
    }

    /// What the step makes of `x`, in exact arithmetic.
    pub open spec fn exact(self, x: real) -> real {
        match self {
            Step::Multiply(k) => x * (k as real),
            Step::Divide(k) => x / (k as real),
        }
    }
}

/// What the steps, applied first to last, make of `x` in exact arithmetic.
pub open spec fn exact_result(steps: Seq<Step>, x: real) -> real
    decreases steps.len(),
{
    if steps.len() == 0 {
        x
    } else {
        exact_result(steps.drop_first(), steps[0].exact(x))
    }
}

/// The conversion table. A unit converts to itself by no step at all; the two
/// conversions between sol and micro-lamport go through the lamport, one
/// ratio after the other.
pub open spec fn route(from: Unit, to: Unit) -> Seq<Step> {
    match (from, to) {
        (Unit::Sol, Unit::Lamport) => seq![Step::Multiply(LAMPORTS_PER_SOL)],
        (Unit::Sol, Unit::MicroLamport) => seq![
            Step::Multiply(LAMPORTS_PER_SOL),
            Step::Multiply(MICRO_LAMPORTS_PER_LAMPORT),
        ],
        (Unit::Lamport, Unit::Sol) => seq![Step::Divide(LAMPORTS_PER_SOL)],
        (Unit::Lamport, Unit::MicroLamport) => seq![Step::Multiply(MICRO_LAMPORTS_PER_LAMPORT)],
        (Unit::MicroLamport, Unit::Lamport) => seq![Step::Divide(MICRO_LAMPORTS_PER_LAMPORT)],
        (Unit::MicroLamport, Unit::Sol) => seq![
            Step::Divide(MICRO_LAMPORTS_PER_LAMPORT),
            Step::Divide(LAMPORTS_PER_SOL),
        ],
        (Unit::Sol, Unit::Sol) => Seq::empty(),
        (Unit::Lamport, Unit::Lamport) => Seq::empty(),
        (Unit::MicroLamport, Unit::MicroLamport) => Seq::empty(),
    }
}

/// How many of the unit make one sol.
pub open spec fn units_per_sol(unit: Unit) -> int {
    match unit {
        Unit::Sol => 1,
        Unit::Lamport => 1_000_000_000,
        Unit::MicroLamport => 1_000_000_000_000_000,
    }
}

/// What an amount `x` of `from` is worth in `to`, in exact arithmetic.
pub open spec fn exact_conversion(from: Unit, to: Unit, x: real) -> real {
    x * (units_per_sol(to) as real) / (units_per_sol(from) as real)
}

/// Every ratio on a route is positive, so no step divides by zero.
pub proof fn lemma_ratios_positive(from: Unit, to: Unit, i: int)
    requires
        0 <= i < route(from, to).len(),
    ensures
        route(from, to)[i].ratio() > 0,
{
}

/// A unit converts to itself by no step, and so to exactly the amount given.
pub proof fn lemma_same_unit_is_identity(unit: Unit, x: real)
    ensures
        route(unit, unit) == Seq::<Step>::empty(),
        exact_result(route(unit, unit), x) == x,
{
}

/// Applying one run of steps and then another is applying the two joined.
pub proof fn lemma_exact_result_of_joined(first: Seq<Step>, second: Seq<Step>, x: real)
    ensures
        exact_result(first + second, x) == exact_result(second, exact_result(first, x)),
    decreases first.len(),
{
    if first.len() == 0 {
        assert(first + second =~= second);
    } else {
        assert((first + second).drop_first() =~= first.drop_first() + second);
        lemma_exact_result_of_joined(first.drop_first(), second, first[0].exact(x));
    }
}

/// The conversions between sol and micro-lamport are the conversion to the
/// lamport followed by the conversion from it.
pub proof fn lemma_route_through_lamport(x: real)
    ensures
        route(Unit::Sol, Unit::MicroLamport) == route(Unit::Sol, Unit::Lamport) + route(
            Unit::Lamport,
            Unit::MicroLamport,
        ),
        route(Unit::MicroLamport, Unit::Sol) == route(Unit::MicroLamport, Unit::Lamport) + route(
            Unit::Lamport,
            Unit::Sol,
        ),
        exact_result(route(Unit::Sol, Unit::MicroLamport), x) == exact_result(
            route(Unit::Lamport, Unit::MicroLamport),
            exact_result(route(Unit::Sol, Unit::Lamport), x),
        ),
        exact_result(route(Unit::MicroLamport, Unit::Sol), x) == exact_result(
            route(Unit::Lamport, Unit::Sol),
            exact_result(route(Unit::MicroLamport, Unit::Lamport), x),
        ),
{
    assert(route(Unit::Sol, Unit::MicroLamport) =~= route(Unit::Sol, Unit::Lamport) + route(
        Unit::Lamport,
        Unit::MicroLamport,
    ));
    assert(route(Unit::MicroLamport, Unit::Sol) =~= route(Unit::MicroLamport, Unit::Lamport)
        + route(Unit::Lamport, Unit::Sol));
    lemma_exact_result_of_joined(
        route(Unit::Sol, Unit::Lamport),
        route(Unit::Lamport, Unit::MicroLamport),
        x,
    );
    lemma_exact_result_of_joined(
        route(Unit::MicroLamport, Unit::Lamport),
        route(Unit::Lamport, Unit::Sol),
        x,
    );
}

/// A single step's result is what the step makes of the amount.
proof fn lemma_exact_result_of_one(step: Step, x: real)
    ensures
        exact_result(seq![step], x) == step.exact(x),
{
    reveal_with_fuel(exact_result, 2);
    assert(seq![step].drop_first().len() == 0);
}

/// In exact arithmetic the steps of a route scale an amount by the ratio of
/// the two units: by how many of the target make a sol, over how many of the
/// source do.
pub proof fn lemma_route_is_exact(from: Unit, to: Unit, x: real)
    ensures
        exact_result(route(from, to), x) == exact_conversion(from, to, x),
{
    let giga = LAMPORTS_PER_SOL as real;
    let mega = MICRO_LAMPORTS_PER_LAMPORT as real;
    assert(giga == 1_000_000_000real && mega == 1_000_000real);
    assert((units_per_sol(Unit::Sol) as real) == 1real);
    assert((units_per_sol(Unit::Lamport) as real) == 1_000_000_000real);
    assert((units_per_sol(Unit::MicroLamport) as real) == 1_000_000_000_000_000real);
    lemma_exact_result_of_one(Step::Multiply(LAMPORTS_PER_SOL), x);
    lemma_exact_result_of_one(Step::Divide(LAMPORTS_PER_SOL), x);
    lemma_exact_result_of_one(Step::Multiply(MICRO_LAMPORTS_PER_LAMPORT), x);
    lemma_exact_result_of_one(Step::Divide(MICRO_LAMPORTS_PER_LAMPORT), x);
    match (from, to) {
        (Unit::Sol, Unit::Lamport) => {
            assert(exact_result(route(from, to), x) == x * giga);
        },
        (Unit::Lamport, Unit::Sol) => {
            assert(exact_result(route(from, to), x) == x / giga);
        },
        (Unit::Lamport, Unit::MicroLamport) => {
            assert(exact_result(route(from, to), x) == x * mega);
        },
        (Unit::MicroLamport, Unit::Lamport) => {
            assert(exact_result(route(from, to), x) == x / mega);
        },
        (Unit::Sol, Unit::MicroLamport) => {
            lemma_route_through_lamport(x);
            lemma_exact_result_of_one(Step::Multiply(MICRO_LAMPORTS_PER_LAMPORT), x * giga);
            assert(exact_result(route(from, to), x) == x * giga * mega);
            assert(x * 1_000_000_000real * 1_000_000real == x * 1_000_000_000_000_000real)
                by (nonlinear_arith);
        },
        (Unit::MicroLamport, Unit::Sol) => {
            lemma_route_through_lamport(x);
            lemma_exact_result_of_one(Step::Divide(LAMPORTS_PER_SOL), x / mega);
            assert(exact_result(route(from, to), x) == x / mega / giga);
            assert(x / 1_000_000real / 1_000_000_000real == x / 1_000_000_000_000_000real)
                by (nonlinear_arith);
        },
        _ => {
            assert(exact_result(route(from, to), x) == x);
        },
    }
}

/// Converting an amount and converting the result back gives, in exact
/// arithmetic, the amount itself.
pub proof fn lemma_round_trip(from: Unit, to: Unit, x: real)
    ensures
        exact_result(route(to, from), exact_result(route(from, to), x)) == x,
{
    let there = exact_result(route(from, to), x);
    lemma_route_is_exact(from, to, x);
    lemma_route_is_exact(to, from, there);
    let p = units_per_sol(from) as real;
    let q = units_per_sol(to) as real;
    assert(p > 0real && q > 0real);
    assert((x * q / p) * p / q == x) by (nonlinear_arith)
        requires
            p > 0real,
            q > 0real,
    ;
}

} // verus!
