use calculus_link::equations::{
    check_roots_in_range, is_precise, ChordSolver, ChordStep, IterationStep, SecantSolver,
    SimpleIterationSolver, SimpleIteratorSolverForSystems, SAMPLES_AMOUNT,
};
use calculus_link::response::MethodError;

fn square_minus_two(x: f64) -> f64 {
    x * x - 2.0
}

fn square_minus_two_derivative(x: f64) -> f64 {
    2.0 * x
}

fn chord(f: fn(f64) -> f64, mut start: f64, mut end: f64, epsilon: f64) -> (Result<f64, MethodError>, usize) {
    let mut solver = ChordSolver::new();
    let mut iterates = 0;
    loop {
        let x = start - (f(start) / (f(end) - f(start))) * (end - start);
        let y = f(x);
        iterates += 1;
        match solver.judge(y.abs() <= epsilon, start <= x && x <= end, y * f(end) > 0.0) {
            ChordStep::Root => return (Ok(x), iterates),
            ChordStep::Diverges => return (Err(MethodError::Diverges), iterates),
            ChordStep::ReplaceEnd => end = x,
            ChordStep::ReplaceStart => start = x,
        }
    }
}

fn secant(f: fn(f64) -> f64, start: f64, end: f64, epsilon: f64) -> (Result<f64, MethodError>, usize) {
    let length = end - start;
    let mut x_previous = start + length / 4.0;
    let mut x = end - length / 4.0;
    let mut solver = SecantSolver::new();
    let mut iterates = 0;
    loop {
        let x_next = x - ((x - x_previous) / (f(x) - f(x_previous))) * f(x);
        x_previous = x;
        x = x_next;
        iterates += 1;
        let converged = (x - x_previous).abs() <= epsilon || f(x).abs() <= epsilon;
        match solver.judge(converged) {
            IterationStep::Converged => return (Ok(x), iterates),
            IterationStep::Diverges => return (Err(MethodError::Diverges), iterates),
            IterationStep::Continue => {}
        }
    }
}

fn derivative_samples(derivative: fn(f64) -> f64, start: f64, end: f64) -> Vec<u64> {
    let step = (end - start) / SAMPLES_AMOUNT as f64;
    let mut x = start;
    let mut samples = vec![derivative(x).to_bits()];
    for _ in 0..SAMPLES_AMOUNT {
        x += step;
        samples.push(derivative(x).to_bits());
    }
    samples
}

fn validate(start: f64, end: f64) -> Result<(), MethodError> {
    check_roots_in_range(
        square_minus_two(start).to_bits(),
        square_minus_two(end).to_bits(),
        &derivative_samples(square_minus_two_derivative, start, end),
    )
}

#[test]
fn chord_converges_to_square_root_of_two() {
    let (root, iterates) = chord(square_minus_two, 0.0, 2.0, 1e-4);
    let root = root.expect("converges");
    assert!((root - 1.4142).abs() < 1e-3);
    assert!(square_minus_two(root).abs() <= 1e-4);
    assert!(iterates <= 1000);
}

#[test]
fn secant_converges_faster_than_chord() {
    let (chord_root, chord_iterates) = chord(square_minus_two, 0.0, 2.0, 1e-4);
    let (secant_root, secant_iterates) = secant(square_minus_two, 0.0, 2.0, 1e-4);
    let secant_root = secant_root.expect("converges");
    assert!((secant_root - chord_root.unwrap()).abs() < 1e-3);
    assert!((secant_root - 1.4142).abs() < 1e-3);
    assert!(secant_iterates < chord_iterates);
}

#[test]
fn chord_gives_up_when_iterate_leaves_bracket() {
    let mut solver = ChordSolver::new();
    assert_eq!(solver.judge(false, false, true), ChordStep::Diverges);
    assert_eq!(solver.judge(true, false, true), ChordStep::Root);
}

#[test]
fn chord_replaces_endpoint_with_same_sign() {
    let mut solver = ChordSolver::new();
    assert_eq!(solver.judge(false, true, true), ChordStep::ReplaceEnd);
    assert_eq!(solver.judge(false, true, false), ChordStep::ReplaceStart);
}

#[test]
fn budget_is_one_thousand_iterates() {
    let mut chord = ChordSolver::new();
    for _ in 0..999 {
        assert_ne!(chord.judge(false, true, true), ChordStep::Diverges);
    }
    assert_eq!(chord.judge(false, true, true), ChordStep::Diverges);
    let mut system = SimpleIteratorSolverForSystems::new();
    for _ in 0..999 {
        assert_eq!(system.judge(false), IterationStep::Continue);
    }
    assert_eq!(system.judge(false), IterationStep::Diverges);
}

fn simple_iteration_function(x: f64) -> f64 {
    x * x + x + x.sin()
}

fn simple_iteration_derivative(x: f64) -> f64 {
    2.0 * x + 1.0 + x.cos()
}

#[test]
fn simple_iteration_rejects_contraction_factor_above_one() {
    let (start, end) = (-1.0f64, 1.0f64);
    let sign = if simple_iteration_derivative(start).is_sign_negative() { 1.0 } else { -1.0 };
    let lambda = sign / simple_iteration_derivative(start).abs().max(simple_iteration_derivative(end).abs());
    let phi_derivative = |x: f64| 1.0 + lambda * simple_iteration_derivative(x);
    let q = phi_derivative(start).max(phi_derivative(end));
    assert!(q >= 1.0);
    let _ = simple_iteration_function(0.0);
    let result = SimpleIterationSolver::start(q < 1.0, q <= 0.5);
    assert!(matches!(result, Err(MethodError::Diverges)));
}

#[test]
fn stopping_test_switches_at_one_half() {
    let epsilon = 1e-3f64;
    let difference = 5e-4f64;
    for (q, expected) in [(0.5f64, true), (0.75f64, false), (0.25f64, true)] {
        let scaled = (1.0 - q) / q * epsilon;
        assert_eq!(is_precise(q <= 0.5, difference < epsilon, difference < scaled), expected);
    }
    let mut solver = match SimpleIterationSolver::start(true, false) {
        Ok(solver) => solver,
        Err(_) => panic!("q below one"),
    };
    assert_eq!(solver.judge(true, false), IterationStep::Continue);
    assert_eq!(solver.judge(false, true), IterationStep::Converged);
}

#[test]
fn range_with_two_roots_is_rejected() {
    assert!(matches!(validate(-2.0, 2.0), Err(MethodError::MoreThanOneRootInRange)));
}

#[test]
fn range_with_one_root_is_accepted() {
    assert_eq!(validate(0.0, 2.0), Ok(()));
}

#[test]
fn range_without_root_is_rejected() {
    assert!(matches!(validate(2.0, 3.0), Err(MethodError::NoRootInRange)));
}
