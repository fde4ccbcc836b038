//! Root finding. The arithmetic on floats happens outside this crate; what
//! stands here is each method's control: when an iterate is accepted, when
//! the method gives up, which endpoint moves, and the iteration budget.
use vstd::prelude::*;

use crate::response::MethodError;

verus! {

/// Most iterations any method runs before it reports divergence.
pub const MAX_ITERATIONS: usize = 1000;

/// Number of derivative samples after the one at the interval's start.
pub const SAMPLES_AMOUNT: usize = 100;

/// Absolute value.
pub trait Abs {
    fn abs(self) -> Self;
}

/// Power with a real exponent.
pub trait Pow {
    fn pow(self, power: Self) -> Self;
}

pub trait Trigonometry {
    fn sin(self) -> Self;
    fn cos(self) -> Self;
}

/// Natural logarithm.
pub trait Logarithm {
    fn ln(self) -> Self;
}

/// Whether the float with bit pattern `bits` has its sign bit set.
pub open spec fn sign_negative(bits: u64) -> bool {
    bits >> 63u64 == 1
}

pub fn is_sign_negative(bits: u64) -> (r: bool)
    ensures
        r == sign_negative(bits),
{
    bits >> 63u64 == 1
}

/// Whether some sample's sign differs from the first sample's.
pub open spec fn changes_sign(samples: Seq<u64>) -> bool {
    exists|i: int|
        0 <= i < samples.len() && sign_negative(#[trigger] samples[i]) != sign_negative(samples[0])
}

/// The heuristic verdict on an interval: a sign change of the function
/// means a usable bracket; otherwise a sign change of the derivative means
/// more than one root, and none means no root.
pub open spec fn bracket_verdict(different_signs: bool, derivative_changes_sign: bool) -> Result<
    (),
    MethodError,
> {
    if different_signs {
        Ok(())
    } else if derivative_changes_sign {
        Err(MethodError::MoreThanOneRootInRange)
    } else {
        Err(MethodError::NoRootInRange)
    }
}

/// Decides whether exactly one root is plausible in `[start, end]`, from
/// `f(start)`, `f(end)` and the derivative sampled at evenly spaced points
/// from `start` on (all as bit patterns). Signs are read from the sign bit.
pub fn check_roots_in_range(
    function_at_start: u64,
    function_at_end: u64,
    derivative_samples: &[u64],
) -> (r: Result<(), MethodError>)
    ensures
        r == bracket_verdict(
            sign_negative(function_at_start) != sign_negative(function_at_end),
            changes_sign(derivative_samples@),
        ),
{
    let different_signs = is_sign_negative(function_at_start) != is_sign_negative(function_at_end);
    let n = derivative_samples.len();
    let mut derivative_different_signs = false;
    if n > 0 {
        let is_first_negative = is_sign_negative(derivative_samples[0]);
        let mut i: usize = 1;
        while i < n && !derivative_different_signs
            invariant
                1 <= i <= n,
                n == derivative_samples@.len(),
                is_first_negative == sign_negative(derivative_samples@[0]),
                derivative_different_signs ==> sign_negative(derivative_samples@[i - 1])
                    != is_first_negative,
                !derivative_different_signs ==> forall|j: int|
                    0 <= j < i ==> sign_negative(#[trigger] derivative_samples@[j])
                        == is_first_negative,
            decreases n - i,
        {
            if is_sign_negative(derivative_samples[i]) != is_first_negative {
                derivative_different_signs = true;
            }
            i = i + 1;
        }
        assert(derivative_different_signs == changes_sign(derivative_samples@));
    }
    match (different_signs, derivative_different_signs) {
        (true, _) => Ok(()),
        (false, true) => Err(MethodError::MoreThanOneRootInRange),
        (false, false) => Err(MethodError::NoRootInRange),
    }
}

/// What a bracketing iteration does after judging an iterate.
#[derive(Clone, Copy, PartialEq, Eq, Debug, Structural)]
pub enum ChordStep {
    /// The iterate is the root.
    Root,
    /// The iterate left the bracket, or the budget is spent.
    Diverges,
    /// The iterate replaces the end of the bracket.
    ReplaceEnd,
    /// The iterate replaces the start of the bracket.
    ReplaceStart,
}

/// Chord (false position) method on `[start, end]`: each iterate is
/// `x = start - f(start) / (f(end) - f(start)) * (end - start)`.
pub struct ChordSolver {
    iterations: usize,
}

impl ChordSolver {
    /// Iterates judged so far.
    pub closed spec fn count(&self) -> nat {
        self.iterations as nat
    }

    pub fn new() -> (r: ChordSolver)
        ensures
            r.count() == 0,
    {
        ChordSolver { iterations: 0 }
    }

    /// Judges the iterate `x`: `within_epsilon` is `|f(x)| <= epsilon`,
    /// `inside_bracket` is `start <= x <= end`, and `same_sign_as_end` is
    /// `f(x) * f(end) > 0`. An iterate within epsilon is the root; one
    /// outside the bracket means divergence; otherwise it replaces the
    /// endpoint whose value has its sign, unless this was the last iterate
    /// the budget allows.
    pub fn judge(&mut self, within_epsilon: bool, inside_bracket: bool, same_sign_as_end: bool) -> (r: ChordStep)
        requires
            old(self).count() < MAX_ITERATIONS,
        ensures
            within_epsilon ==> r == ChordStep::Root,
            !within_epsilon && !inside_bracket ==> r == ChordStep::Diverges,
            !within_epsilon && inside_bracket ==> final(self).count() == old(self).count() + 1 && (
            if final(self).count() >= MAX_ITERATIONS {
                r == ChordStep::Diverges
            } else if same_sign_as_end {
                r == ChordStep::ReplaceEnd
            } else {
                r == ChordStep::ReplaceStart
            }),
            r == ChordStep::ReplaceEnd || r == ChordStep::ReplaceStart ==> final(self).count()
                < MAX_ITERATIONS,
    {
        if within_epsilon {
            return ChordStep::Root;
        }
        if !inside_bracket {
            return ChordStep::Diverges;
        }
        self.iterations = self.iterations + 1;
        if self.iterations >= MAX_ITERATIONS {
            ChordStep::Diverges
        } else if same_sign_as_end {
            ChordStep::ReplaceEnd
        } else {
            ChordStep::ReplaceStart
        }
    }
}

/// What an open iteration does after judging an iterate.
#[derive(Clone, Copy, PartialEq, Eq, Debug, Structural)]
pub enum IterationStep {
    /// The iterate is accepted.
    Converged,
    /// Compute the next iterate.
    Continue,
    /// The budget is spent.
    Diverges,
}

/// Counts iterations of an open method and accepts an iterate once its
/// convergence test passes, within [`MAX_ITERATIONS`] iterates.
pub open spec fn iteration_verdict(count: nat, converged: bool) -> IterationStep {
    if converged {
        IterationStep::Converged
    } else if count >= MAX_ITERATIONS {
        IterationStep::Diverges
    } else {
        IterationStep::Continue
    }
}

/// Secant method: seeds at the quarter points of the interval, then
/// `x_next = x - (x - x_prev) / (f(x) - f(x_prev)) * f(x)`.
pub struct SecantSolver {
    iterations: usize,
}

impl SecantSolver {
    pub closed spec fn count(&self) -> nat {
        self.iterations as nat
    }

    pub fn new() -> (r: SecantSolver)
        ensures
            r.count() == 0,
    {
        SecantSolver { iterations: 0 }
    }

    /// Judges a new iterate; `converged` is `|x - x_prev| <= epsilon` or
    /// `|f(x)| <= epsilon`.
    pub fn judge(&mut self, converged: bool) -> (r: IterationStep)
        requires
            old(self).count() < MAX_ITERATIONS,
        ensures
            final(self).count() == old(self).count() + 1,
            r == iteration_verdict(final(self).count(), converged),
    {
        self.iterations = self.iterations + 1;
        if converged {
            IterationStep::Converged
        } else if self.iterations >= MAX_ITERATIONS {
            IterationStep::Diverges
        } else {
            IterationStep::Continue
        }
    }
}

/// Fixed-point iteration `x_next = phi(x) = x + lambda * f(x)` from the
/// interval's midpoint, with contraction factor `q`.
pub struct SimpleIterationSolver {
    iterations: usize,
    q_at_most_half: bool,
}

impl SimpleIterationSolver {
    pub closed spec fn count(&self) -> nat {
        self.iterations as nat
    }

    /// Whether the stopping test compares the step with epsilon itself.
    pub closed spec fn plain_tolerance(&self) -> bool {
        self.q_at_most_half
    }

    /// Starts the iteration, or rejects it with `Diverges` when the
    /// contraction factor is not below one. `q_below_one` is `q < 1`;
    /// `q_at_most_half` is `q <= 0.5`.
    pub fn start(q_below_one: bool, q_at_most_half: bool) -> (r: Result<
        SimpleIterationSolver,
        MethodError,
    >)
        ensures
            !q_below_one ==> r == Err::<SimpleIterationSolver, MethodError>(MethodError::Diverges),
            q_below_one ==> (r matches Ok(s) && s.count() == 0 && s.plain_tolerance()
                == q_at_most_half),
    {
        if !q_below_one {
            return Err(MethodError::Diverges);
        }
        Ok(SimpleIterationSolver { iterations: 0, q_at_most_half })
    }

    /// Judges a step from `x` to `phi(x)`; `below_epsilon` is
    /// `|phi(x) - x| < epsilon` and `below_scaled_epsilon` is
    /// `|phi(x) - x| < (1 - q) / q * epsilon`.
    pub fn judge(&mut self, below_epsilon: bool, below_scaled_epsilon: bool) -> (r: IterationStep)
        requires
            old(self).count() < MAX_ITERATIONS,
        ensures
            final(self).count() == old(self).count() + 1,
            final(self).plain_tolerance() == old(self).plain_tolerance(),
            r == iteration_verdict(
                final(self).count(),
                is_precise_verdict(old(self).plain_tolerance(), below_epsilon, below_scaled_epsilon),
            ),
    {
        self.iterations = self.iterations + 1;
        if is_precise(self.q_at_most_half, below_epsilon, below_scaled_epsilon) {
            IterationStep::Converged
        } else if self.iterations >= MAX_ITERATIONS {
            IterationStep::Diverges
        } else {
            IterationStep::Continue
        }
    }
}

/// The stopping test of fixed-point iteration: the plain test while
/// `q <= 0.5`, the tightened one above.
pub open spec fn is_precise_verdict(
    q_at_most_half: bool,
    below_epsilon: bool,
    below_scaled_epsilon: bool,
) -> bool {
    if q_at_most_half {
        below_epsilon
    } else {
        below_scaled_epsilon
    }
}

pub fn is_precise(q_at_most_half: bool, below_epsilon: bool, below_scaled_epsilon: bool) -> (r: bool)
    ensures
        r == is_precise_verdict(q_at_most_half, below_epsilon, below_scaled_epsilon),
{
    if q_at_most_half {
        return below_epsilon;
    }
    below_scaled_epsilon
}

/// Fixed-point iteration for two equations, `(x, y) <- (phi1(x, y),
/// phi2(x, y))` from `(start, end)`.
pub struct SimpleIteratorSolverForSystems {
    iterations: usize,
}

impl SimpleIteratorSolverForSystems {
    pub closed spec fn count(&self) -> nat {
        self.iterations as nat
    }

    pub fn new() -> (r: SimpleIteratorSolverForSystems)
        ensures
            r.count() == 0,
    {
        SimpleIteratorSolverForSystems { iterations: 0 }
    }

    /// Judges a step; `converged` is `max(|dx|, |dy|) < epsilon`.
    pub fn judge(&mut self, converged: bool) -> (r: IterationStep)
        requires
            old(self).count() < MAX_ITERATIONS,
        ensures
            final(self).count() == old(self).count() + 1,
            r == iteration_verdict(final(self).count(), converged),
    {
        self.iterations = self.iterations + 1;
        if converged {
            IterationStep::Converged
        } else if self.iterations >= MAX_ITERATIONS {
            IterationStep::Diverges
        } else {
            IterationStep::Continue
        }
    }
}

} // verus!
