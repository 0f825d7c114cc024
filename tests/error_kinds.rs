use musande::error::{MusandeError, SError};

#[test]
fn test_error_categories() {
    let entropy_error = MusandeError::SEntropyCalculation("test".to_string());
    assert_eq!(entropy_error.category(), "entropy");

    let alignment_error = MusandeError::AlignmentFailure("test".to_string());
    assert_eq!(alignment_error.category(), "alignment");
}

#[test]
fn test_recoverable_errors() {
    let alignment_error = MusandeError::AlignmentFailure("test".to_string());
    assert!(alignment_error.is_recoverable_through_ridiculous_solutions());

    let math_error = MusandeError::MathematicalError("test".to_string());
    assert!(!math_error.is_recoverable_through_ridiculous_solutions());
}

#[test]
fn test_fundamental_impossibilities() {
    let viability_error = MusandeError::GlobalViabilityViolation("test".to_string());
    assert!(viability_error.is_fundamental_impossibility());

    let alignment_error = MusandeError::AlignmentFailure("test".to_string());
    assert!(!alignment_error.is_fundamental_impossibility());
}

#[test]
fn every_category_name() {
    let m = || "m".to_string();
    let cases = vec![
        (MusandeError::InvalidCoordinate(m()), "coordinate"),
        (MusandeError::SEntropyCalculation(m()), "entropy"),
        (MusandeError::AlignmentFailure(m()), "alignment"),
        (MusandeError::ObserverSeparationViolation(m()), "observer"),
        (MusandeError::OscillationEndpointError(m()), "oscillation"),
        (MusandeError::RidiculousSolutionError(m()), "ridiculous"),
        (MusandeError::GlobalViabilityViolation(m()), "viability"),
        (MusandeError::MathematicalError(m()), "mathematics"),
        (MusandeError::AssociativeMemoryError(m()), "memory"),
        (MusandeError::ContextProcessingError(m()), "context"),
        (MusandeError::InvalidConfiguration(m()), "configuration"),
        (MusandeError::IoError(m()), "io"),
        (MusandeError::SerializationError(m()), "serialization"),
        (MusandeError::NetworkError(m()), "network"),
        (MusandeError::Timeout(m()), "timeout"),
        (MusandeError::ResourceExhausted(m()), "resources"),
        (MusandeError::ImpossibilityScalingError(m()), "impossibility"),
        (MusandeError::TemporalNavigationError(m()), "temporal"),
        (MusandeError::KnowledgeExtractionError(m()), "knowledge"),
        (MusandeError::EntropySpaceMappingError(m()), "mapping"),
    ];
    for (e, name) in cases {
        assert_eq!(e.category(), name);
    }
}

#[test]
fn recoverable_kinds_are_exactly_five() {
    let m = || "m".to_string();
    let recoverable = vec![
        MusandeError::AlignmentFailure(m()),
        MusandeError::ObserverSeparationViolation(m()),
        MusandeError::OscillationEndpointError(m()),
        MusandeError::ContextProcessingError(m()),
        MusandeError::TemporalNavigationError(m()),
    ];
    for e in recoverable {
        assert!(e.is_recoverable_through_ridiculous_solutions());
        assert!(!e.is_fundamental_impossibility());
    }
    let other = vec![
        MusandeError::InvalidCoordinate(m()),
        MusandeError::RidiculousSolutionError(m()),
        MusandeError::Timeout(m()),
        MusandeError::GlobalViabilityViolation(m()),
    ];
    for e in other {
        assert!(!e.is_recoverable_through_ridiculous_solutions());
    }
    assert!(MusandeError::MathematicalError(m()).is_fundamental_impossibility());
    assert!(!MusandeError::Timeout(m()).is_fundamental_impossibility());
}

#[test]
fn framework_errors_compare_by_kind_and_message() {
    assert_eq!(SError::MathError("x".to_string()), SError::MathError("x".to_string()));
    assert_ne!(SError::MathError("x".to_string()), SError::ConfigError("x".to_string()));
}
