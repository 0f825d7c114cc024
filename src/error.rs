use vstd::prelude::*;

verus! {

/// Failures of entropy navigation, alignment and extreme-case solution generation.
///
/// Each variant carries a human-readable detail message.
#[derive(Clone, Debug, PartialEq, Eq)]
pub enum MusandeError {
    /// A coordinate component is not a finite number.
    InvalidCoordinate(String),
    /// An S-entropy calculation failed.
    SEntropyCalculation(String),
    /// A tri-dimensional alignment process failed.
    AlignmentFailure(String),
    /// The observer-process separation constraint was violated.
    ObserverSeparationViolation(String),
    /// An oscillation endpoint could not be detected.
    OscillationEndpointError(String),
    /// An extreme-case solution could not be generated; this is also the failure
    /// reported when the impossibility level exceeds the absolute maximum.
    RidiculousSolutionError(String),
    /// A proposed transformation would break global viability.
    GlobalViabilityViolation(String),
    /// A mathematical computation failed, such as inverting a singular matrix.
    MathematicalError(String),
    /// Matrix associative memory failed.
    AssociativeMemoryError(String),
    /// Context-dependent processing failed.
    ContextProcessingError(String),
    /// Configuration or initialization is invalid.
    InvalidConfiguration(String),
    /// Input or output failed.
    IoError(String),
    /// Serialization or deserialization failed.
    SerializationError(String),
    /// Network or service communication failed.
    NetworkError(String),
    /// An entropy navigation operation timed out.
    Timeout(String),
    /// A resource was exhausted.
    ResourceExhausted(String),
    /// Impossibility factor scaling failed.
    ImpossibilityScalingError(String),
    /// Temporal navigation failed.
    TemporalNavigationError(String),
    /// Knowledge extraction failed.
    KnowledgeExtractionError(String),
    /// Entropy space mapping failed.
    EntropySpaceMappingError(String),
}

/// Shorthand for results whose failure is a [`MusandeError`].
pub type Result<T> = core::result::Result<T, MusandeError>;

/// The kinds of failure from which an extreme-case solution may still recover.
pub open spec fn recoverable_kind(e: MusandeError) -> bool {
    match e {
        MusandeError::AlignmentFailure(_) => true,
        MusandeError::ObserverSeparationViolation(_) => true,
        MusandeError::OscillationEndpointError(_) => true,
        MusandeError::ContextProcessingError(_) => true,
        MusandeError::TemporalNavigationError(_) => true,
        _ => false,
    }
}

/// The kinds of failure that signal a fundamental mathematical impossibility.
pub open spec fn fundamental_kind(e: MusandeError) -> bool {
    match e {
        MusandeError::GlobalViabilityViolation(_) => true,
        MusandeError::MathematicalError(_) => true,
        _ => false,
    }
}

/// The diagnostic category name of each kind of failure.
pub open spec fn category_name(e: MusandeError) -> Seq<char> {
    match e {
        MusandeError::InvalidCoordinate(_) => "coordinate"@,
        MusandeError::SEntropyCalculation(_) => "entropy"@,
        MusandeError::AlignmentFailure(_) => "alignment"@,
        MusandeError::ObserverSeparationViolation(_) => "observer"@,
        MusandeError::OscillationEndpointError(_) => "oscillation"@,
        MusandeError::RidiculousSolutionError(_) => "ridiculous"@,
        MusandeError::GlobalViabilityViolation(_) => "viability"@,
        MusandeError::MathematicalError(_) => "mathematics"@,
        MusandeError::AssociativeMemoryError(_) => "memory"@,
        MusandeError::ContextProcessingError(_) => "context"@,
        MusandeError::InvalidConfiguration(_) => "configuration"@,
        MusandeError::IoError(_) => "io"@,
        MusandeError::SerializationError(_) => "serialization"@,
        MusandeError::NetworkError(_) => "network"@,
        MusandeError::Timeout(_) => "timeout"@,
        MusandeError::ResourceExhausted(_) => "resources"@,
        MusandeError::ImpossibilityScalingError(_) => "impossibility"@,
        MusandeError::TemporalNavigationError(_) => "temporal"@,
        MusandeError::KnowledgeExtractionError(_) => "knowledge"@,
        MusandeError::EntropySpaceMappingError(_) => "mapping"@,
    }
}

impl MusandeError {
    /// Whether this failure may be recovered from by generating an extreme-case solution.
    pub fn is_recoverable_through_ridiculous_solutions(&self) -> (r: bool)
        ensures
            r == recoverable_kind(*self),
    {
        match self {
            MusandeError::AlignmentFailure(_) => true,
            MusandeError::ObserverSeparationViolation(_) => true,
            MusandeError::OscillationEndpointError(_) => true,
            MusandeError::ContextProcessingError(_) => true,
            MusandeError::TemporalNavigationError(_) => true,
            _ => false,
        }
    }

    /// Whether this failure signals a fundamental mathematical impossibility.
    pub fn is_fundamental_impossibility(&self) -> (r: bool)
        ensures
            r == fundamental_kind(*self),
    {
        match self {
            MusandeError::GlobalViabilityViolation(_) => true,
            MusandeError::MathematicalError(_) => true,
            _ => false,
        }
    }

    /// The category name of this failure, for diagnostics.
    pub fn category(&self) -> (r: &'static str)
        ensures
            r@ == category_name(*self),
    {
        match self {
            MusandeError::InvalidCoordinate(_) => "coordinate",
            MusandeError::SEntropyCalculation(_) => "entropy",
            MusandeError::AlignmentFailure(_) => "alignment",
            MusandeError::ObserverSeparationViolation(_) => "observer",
            MusandeError::OscillationEndpointError(_) => "oscillation",
            MusandeError::RidiculousSolutionError(_) => "ridiculous",
            MusandeError::GlobalViabilityViolation(_) => "viability",
            MusandeError::MathematicalError(_) => "mathematics",
            MusandeError::AssociativeMemoryError(_) => "memory",
            MusandeError::ContextProcessingError(_) => "context",
            MusandeError::InvalidConfiguration(_) => "configuration",
            MusandeError::IoError(_) => "io",
            MusandeError::SerializationError(_) => "serialization",
            MusandeError::NetworkError(_) => "network",
            MusandeError::Timeout(_) => "timeout",
            MusandeError::ResourceExhausted(_) => "resources",
            MusandeError::ImpossibilityScalingError(_) => "impossibility",
            MusandeError::TemporalNavigationError(_) => "temporal",
            MusandeError::KnowledgeExtractionError(_) => "knowledge",
            MusandeError::EntropySpaceMappingError(_) => "mapping",
        }
    }
}

/// Failures at the level of the whole framework, one per subsystem.
#[derive(Clone, Debug, PartialEq, Eq)]
pub enum SError {
    /// An alignment operation failed.
    AlignmentError(String),
    /// An entropy navigation operation failed.
    NavigationError(String),
    /// Extreme-case solution generation failed.
    RidiculousError(String),
    /// The entropy solver service failed.
    ServiceError(String),
    /// A mathematical operation failed.
    MathError(String),
    /// The configuration is invalid.
    ConfigError(String),
}

/// Shorthand for results whose failure is an [`SError`].
pub type SResult<T> = core::result::Result<T, SError>;

} // verus!
