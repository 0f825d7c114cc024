use vstd::prelude::*;

use crate::error::MusandeError;
use crate::strategy::AlignmentStrategy;

verus! {

/// What every solver reports besides coordinates and real-valued measures: the
/// strategy used, the number of steps taken, and whether global viability held.
#[derive(Clone, Copy, Debug, PartialEq, Eq, Structural)]
pub struct AlignmentOutline {
    /// The strategy that produced the result.
    pub strategy: AlignmentStrategy,
    /// The number of transformation steps executed.
    pub steps: usize,
    /// Whether the aligned coordinate lies within the viability bounds.
    pub globally_viable: bool,
}

impl AlignmentOutline {
    /// The outline of a source that already lies within the convergence threshold of
    /// its target: a direct alignment of zero steps, viable by construction.
    pub fn already_aligned() -> (r: AlignmentOutline)
        ensures
            r == (AlignmentOutline {
                strategy: AlignmentStrategy::Direct,
                steps: 0,
                globally_viable: true,
            }),
    {
        AlignmentOutline { strategy: AlignmentStrategy::Direct, steps: 0, globally_viable: true }
    }

    /// The outline of a single-shot direct alignment.
    pub fn direct(globally_viable: bool) -> (r: AlignmentOutline)
        ensures
            r == (AlignmentOutline { strategy: AlignmentStrategy::Direct, steps: 1, globally_viable }),
    {
        AlignmentOutline { strategy: AlignmentStrategy::Direct, steps: 1, globally_viable }
    }

    /// The outline of an iterative alignment that executed `steps` iterations.
    pub fn iterative(steps: usize, globally_viable: bool) -> (r: AlignmentOutline)
        ensures
            r == (AlignmentOutline { strategy: AlignmentStrategy::Iterative, steps, globally_viable }),
    {
        AlignmentOutline { strategy: AlignmentStrategy::Iterative, steps, globally_viable }
    }

    /// The outline of a zero-computation alignment: zero steps by definition.
    pub fn zero_computation(globally_viable: bool) -> (r: AlignmentOutline)
        ensures
            r == (AlignmentOutline {
                strategy: AlignmentStrategy::ZeroComputation,
                steps: 0,
                globally_viable,
            }),
    {
        AlignmentOutline { strategy: AlignmentStrategy::ZeroComputation, steps: 0, globally_viable }
    }

    /// The outline of an extreme-case alignment: one step.
    pub fn ridiculous(globally_viable: bool) -> (r: AlignmentOutline)
        ensures
            r == (AlignmentOutline {
                strategy: AlignmentStrategy::Ridiculous,
                steps: 1,
                globally_viable,
            }),
    {
        AlignmentOutline { strategy: AlignmentStrategy::Ridiculous, steps: 1, globally_viable }
    }

    /// Whether the result needed the extreme-case strategy.
    pub fn required_ridiculous_approach(&self) -> (r: bool)
        ensures
            r == (self.strategy == AlignmentStrategy::Ridiculous),
    {
        self.strategy == AlignmentStrategy::Ridiculous
    }
}

/// The acceptance rule of the equivalence validator.
pub open spec fn equivalence_accepts(
    strategy: AlignmentStrategy,
    error_within_tolerance: bool,
    globally_viable: bool,
) -> bool {
    match strategy {
        AlignmentStrategy::ZeroComputation => error_within_tolerance,
        AlignmentStrategy::Ridiculous => globally_viable,
        _ => true,
    }
}

/// Decides whether a result is acceptable: a zero-computation result only when its
/// alignment error is within the equivalence tolerance, an extreme-case result only
/// when it is globally viable, any other result always.
pub fn equivalence_verdict(
    outline: &AlignmentOutline,
    error_within_tolerance: bool,
) -> (r: bool)
    ensures
        r == equivalence_accepts(outline.strategy, error_within_tolerance, outline.globally_viable),
{
    match outline.strategy {
        AlignmentStrategy::ZeroComputation => error_within_tolerance,
        AlignmentStrategy::Ridiculous => outline.globally_viable,
        _ => true,
    }
}

/// Where the zero-computation solver goes once it knows the impossibility level.
#[derive(Clone, Copy, Debug, PartialEq, Eq, Structural)]
pub enum ZeroComputationRoute {
    /// Run the zero-computation transformation.
    Transform,
    /// Hand the problem to the extreme-case solver.
    DelegateRidiculous,
    /// Refuse the problem: its impossibility exceeds the configured maximum.
    Refuse,
}

/// Routes a zero-computation request: within the configured maximum impossibility it
/// is transformed; beyond it, it goes to the extreme-case solver when that is
/// enabled, and is refused otherwise.
pub fn zero_computation_route(beyond_max_impossibility: bool, enable_ridiculous: bool) -> (r:
    ZeroComputationRoute)
    ensures
        !beyond_max_impossibility ==> r == ZeroComputationRoute::Transform,
        beyond_max_impossibility && enable_ridiculous ==> r == ZeroComputationRoute::DelegateRidiculous,
        beyond_max_impossibility && !enable_ridiculous ==> r == ZeroComputationRoute::Refuse,
{
    if !beyond_max_impossibility {
        ZeroComputationRoute::Transform
    } else if enable_ridiculous {
        ZeroComputationRoute::DelegateRidiculous
    } else {
        ZeroComputationRoute::Refuse
    }
}

/// Admits an impossibility level to the extreme-case solver: a level beyond the
/// maximum impossibility factor is refused outright.
pub fn admit_impossibility(beyond_max_impossibility: bool) -> (r: Result<(), MusandeError>)
    ensures
        r is Ok <==> !beyond_max_impossibility,
        r is Err ==> (r matches Err(MusandeError::RidiculousSolutionError(m))
            && m@ == "Impossibility level exceeds theoretical maximum"@),
{
    if beyond_max_impossibility {
        return Err(
            MusandeError::RidiculousSolutionError(
                "Impossibility level exceeds theoretical maximum".to_owned(),
            ),
        );
    }
    Ok(())
}

/// Admits an entropy change to the zero-computation transformation: a change below
/// the thermodynamic floor is a viability violation.
pub fn admit_entropy_change(below_thermodynamic_floor: bool) -> (r: Result<(), MusandeError>)
    ensures
        r is Ok <==> !below_thermodynamic_floor,
        r is Err ==> (r matches Err(MusandeError::GlobalViabilityViolation(m))
            && m@ == "Entropy transformation violates thermodynamic constraints"@),
{
    if below_thermodynamic_floor {
        return Err(
            MusandeError::GlobalViabilityViolation(
                "Entropy transformation violates thermodynamic constraints".to_owned(),
            ),
        );
    }
    Ok(())
}

/// The global viability rule of the zero-computation solver.
pub open spec fn zero_computation_viable(
    magnitude_beyond_max: bool,
    magnitude_below_threshold: bool,
    coherence_meets_threshold: bool,
) -> bool {
    if magnitude_beyond_max {
        false
    } else if magnitude_below_threshold {
        true
    } else {
        coherence_meets_threshold
    }
}

/// Decides global viability of a zero-computation result: never beyond the maximum
/// impossibility magnitude, always below the viability threshold, and otherwise as
/// the coherence score meets that threshold.
pub fn zero_computation_viability(
    magnitude_beyond_max: bool,
    magnitude_below_threshold: bool,
    coherence_meets_threshold: bool,
) -> (r: bool)
    ensures
        r == zero_computation_viable(
            magnitude_beyond_max,
            magnitude_below_threshold,
            coherence_meets_threshold,
        ),
{
    if magnitude_beyond_max {
        false
    } else if magnitude_below_threshold {
        true
    } else {
        coherence_meets_threshold
    }
}

/// Validates a coordinate from the finiteness of its three components, reporting the
/// first component, in order, that is not finite.
pub fn validate_components(
    knowledge_finite: bool,
    temporal_finite: bool,
    entropy_finite: bool,
) -> (r: Result<(), MusandeError>)
    ensures
        r is Ok <==> (knowledge_finite && temporal_finite && entropy_finite),
        !knowledge_finite ==> (r matches Err(MusandeError::InvalidCoordinate(m))
            && m@ == "Knowledge deficit must be finite"@),
        knowledge_finite && !temporal_finite ==> (r matches Err(MusandeError::InvalidCoordinate(m))
            && m@ == "Temporal distance must be finite"@),
        knowledge_finite && temporal_finite && !entropy_finite ==> (r matches Err(
            MusandeError::InvalidCoordinate(m),
        ) && m@ == "Entropy accessibility must be finite"@),
{
    if !knowledge_finite {
        return Err(MusandeError::InvalidCoordinate("Knowledge deficit must be finite".to_owned()));
    }
    if !temporal_finite {
        return Err(MusandeError::InvalidCoordinate("Temporal distance must be finite".to_owned()));
    }
    if !entropy_finite {
        return Err(
            MusandeError::InvalidCoordinate("Entropy accessibility must be finite".to_owned()),
        );
    }
    Ok(())
}

/// Admits a coordinate to unit normalization: one whose magnitude is below the
/// precision floor has no direction.
pub fn admit_normalization(magnitude_below_precision: bool) -> (r: Result<(), MusandeError>)
    ensures
        r is Ok <==> !magnitude_below_precision,
        r is Err ==> (r matches Err(MusandeError::MathematicalError(m))
            && m@ == "Cannot normalize S-entropy coordinate with near-zero magnitude"@),
{
    if magnitude_below_precision {
        return Err(
            MusandeError::MathematicalError(
                "Cannot normalize S-entropy coordinate with near-zero magnitude".to_owned(),
            ),
        );
    }
    Ok(())
}

/// Admits a transformation to inversion: a singular matrix has no inverse, and a
/// step without one cannot stand in a reversible pathway.
pub fn admit_inversion(singular: bool) -> (r: Result<(), MusandeError>)
    ensures
        r is Ok <==> !singular,
        r is Err ==> (r matches Err(MusandeError::MathematicalError(m))
            && m@ == "Cannot compute inverse of singular transformation matrix"@),
{
    if singular {
        return Err(
            MusandeError::MathematicalError(
                "Cannot compute inverse of singular transformation matrix".to_owned(),
            ),
        );
    }
    Ok(())
}

} // verus!
