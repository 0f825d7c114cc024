use musande::error::MusandeError;
use musande::iteration::{IterationAction, IterationControl};
use musande::pathway::{fusion_plan, FusionGroup};
use musande::policy::{
    admit_entropy_change, admit_inversion, admit_normalization, admit_impossibility, equivalence_verdict, validate_components,
    zero_computation_route, zero_computation_viability, AlignmentOutline, ZeroComputationRoute,
};
use musande::strategy::{select_strategy, AlignmentStrategy};

const STELLA: f64 = 13.562_079_484_986_743;
const CONVERGENCE: f64 = 1e-12 * STELLA;
const MAX_IMPOSSIBILITY: f64 = 1e6;
const WINDOW: f64 = 100.0 * STELLA;

fn strategy_of(source: [f64; 3], target: [f64; 3]) -> AlignmentStrategy {
    let d = ((target[0] - source[0]).powi(2)
        + (target[1] - source[1]).powi(2)
        + (target[2] - source[2]).powi(2))
    .sqrt();
    select_strategy(d <= CONVERGENCE, d / STELLA > MAX_IMPOSSIBILITY, d <= WINDOW)
}

#[test]
fn decision_table_order() {
    assert_eq!(select_strategy(true, true, true), AlignmentStrategy::Direct);
    assert_eq!(select_strategy(true, false, false), AlignmentStrategy::Direct);
    assert_eq!(select_strategy(false, true, true), AlignmentStrategy::Ridiculous);
    assert_eq!(select_strategy(false, false, true), AlignmentStrategy::ZeroComputation);
    assert_eq!(select_strategy(false, false, false), AlignmentStrategy::Iterative);
}

#[test]
fn unit_cube_corner_is_not_direct() {
    let s = strategy_of([1.0, 1.0, 1.0], [0.0, 0.0, 0.0]);
    assert_ne!(s, AlignmentStrategy::Direct);
    assert_eq!(s, AlignmentStrategy::ZeroComputation);
}

#[test]
fn coincident_pair_is_direct_with_zero_steps() {
    let s = strategy_of([0.25, -3.0, 7.5], [0.25, -3.0, 7.5]);
    assert_eq!(s, AlignmentStrategy::Direct);
    let outline = AlignmentOutline::already_aligned();
    assert_eq!(outline.strategy, AlignmentStrategy::Direct);
    assert_eq!(outline.steps, 0);
    assert!(outline.globally_viable);
}

#[test]
fn far_pairs_route_by_distance() {
    assert_eq!(strategy_of([0.0; 3], [2000.0, 0.0, 0.0]), AlignmentStrategy::Iterative);
    assert_eq!(strategy_of([0.0; 3], [1e8, 0.0, 0.0]), AlignmentStrategy::Ridiculous);
}

#[test]
fn outlines_per_strategy() {
    assert_eq!(AlignmentOutline::direct(false).steps, 1);
    assert_eq!(AlignmentOutline::iterative(17, true).steps, 17);
    assert_eq!(AlignmentOutline::zero_computation(true).steps, 0);
    let r = AlignmentOutline::ridiculous(true);
    assert_eq!(r.steps, 1);
    assert!(r.required_ridiculous_approach());
    assert!(!AlignmentOutline::zero_computation(true).required_ridiculous_approach());
}

#[test]
fn equivalence_by_strategy() {
    let zero = AlignmentOutline::zero_computation(false);
    assert!(equivalence_verdict(&zero, true));
    assert!(!equivalence_verdict(&zero, false));
    assert!(equivalence_verdict(&AlignmentOutline::ridiculous(true), false));
    assert!(!equivalence_verdict(&AlignmentOutline::ridiculous(false), true));
    assert!(equivalence_verdict(&AlignmentOutline::direct(false), false));
    assert!(equivalence_verdict(&AlignmentOutline::iterative(3, false), false));
}

#[test]
fn zero_computation_routes() {
    assert_eq!(zero_computation_route(false, false), ZeroComputationRoute::Transform);
    assert_eq!(zero_computation_route(false, true), ZeroComputationRoute::Transform);
    assert_eq!(zero_computation_route(true, true), ZeroComputationRoute::DelegateRidiculous);
    assert_eq!(zero_computation_route(true, false), ZeroComputationRoute::Refuse);
}

#[test]
fn impossibility_admission() {
    assert_eq!(admit_impossibility(1000.0 > MAX_IMPOSSIBILITY), Ok(()));
    assert_eq!(
        admit_impossibility(2e6 > MAX_IMPOSSIBILITY),
        Err(MusandeError::RidiculousSolutionError(
            "Impossibility level exceeds theoretical maximum".to_string()
        ))
    );
}

#[test]
fn entropy_change_admission() {
    assert_eq!(admit_entropy_change(false), Ok(()));
    assert_eq!(
        admit_entropy_change(true),
        Err(MusandeError::GlobalViabilityViolation(
            "Entropy transformation violates thermodynamic constraints".to_string()
        ))
    );
}

#[test]
fn zero_computation_viability_rule() {
    assert!(!zero_computation_viability(true, true, true));
    assert!(zero_computation_viability(false, true, false));
    assert!(zero_computation_viability(false, false, true));
    assert!(!zero_computation_viability(false, false, false));
}

#[test]
fn component_validation() {
    assert_eq!(validate_components(true, true, true), Ok(()));
    assert_eq!(
        validate_components(f64::NAN.is_finite(), true, true),
        Err(MusandeError::InvalidCoordinate("Knowledge deficit must be finite".to_string()))
    );
    assert_eq!(
        validate_components(true, false, false),
        Err(MusandeError::InvalidCoordinate("Temporal distance must be finite".to_string()))
    );
    assert_eq!(
        validate_components(true, true, f64::INFINITY.is_finite()),
        Err(MusandeError::InvalidCoordinate("Entropy accessibility must be finite".to_string()))
    );
}

#[test]
fn iteration_stops_at_budget() {
    let mut control = IterationControl::new(3);
    for _ in 0..3 {
        assert_eq!(control.observe(false), IterationAction::Step);
    }
    assert_eq!(control.observe(false), IterationAction::Stop);
    assert_eq!(control.steps(), 3);
    assert!(control.is_stopped());
    assert_eq!(control.observe(false), IterationAction::Stop);
    assert_eq!(control.steps(), 3);
}

#[test]
fn iteration_converged_at_start_takes_no_step() {
    let mut control = IterationControl::new(1000);
    assert_eq!(control.observe(true), IterationAction::Stop);
    assert_eq!(control.steps(), 0);
    assert_eq!(control.max_iterations(), 1000);
}

#[test]
fn iteration_with_zero_budget() {
    let mut control = IterationControl::new(0);
    assert_eq!(control.observe(false), IterationAction::Stop);
    assert_eq!(control.steps(), 0);
}

#[test]
fn fusion_of_empty_pathway() {
    assert!(fusion_plan(&vec![]).is_empty());
}

#[test]
fn fusion_joins_preserving_neighbours_only() {
    let plan = fusion_plan(&vec![true, true, false, true, false, false, true, true, true]);
    let g = |start, end, preserves_accessibility| FusionGroup { start, end, preserves_accessibility };
    assert_eq!(
        plan,
        vec![
            g(0, 2, true),
            g(2, 3, false),
            g(3, 4, true),
            g(4, 5, false),
            g(5, 6, false),
            g(6, 9, true),
        ]
    );
}

#[test]
fn fusion_of_single_step() {
    let g = FusionGroup { start: 0, end: 1, preserves_accessibility: false };
    assert_eq!(fusion_plan(&vec![false]), vec![g]);
}

#[test]
fn normalization_and_inversion_admission() {
    assert_eq!(admit_normalization(false), Ok(()));
    assert_eq!(
        admit_normalization(true),
        Err(MusandeError::MathematicalError(
            "Cannot normalize S-entropy coordinate with near-zero magnitude".to_string()
        ))
    );
    assert_eq!(admit_inversion(false), Ok(()));
    assert_eq!(
        admit_inversion(true),
        Err(MusandeError::MathematicalError(
            "Cannot compute inverse of singular transformation matrix".to_string()
        ))
    );
}

#[test]
fn default_iteration_budget() {
    use_budget(musande::iteration::DEFAULT_MAX_ITERATIONS);
}

fn use_budget(budget: usize) {
    assert_eq!(budget, 1000);
    let control = IterationControl::new(budget);
    assert_eq!(control.max_iterations(), 1000);
    assert_eq!(control.steps(), 0);
    assert!(!control.is_stopped());
}
