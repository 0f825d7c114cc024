use vstd::prelude::*;

use crate::error::MusandeError;

verus! {

/// Constants below are fixed-point numbers: the real value times `FIXED_SCALE`.
pub const FIXED_SCALE: u64 = 1_000_000_000_000_000;

/// The Saint Stella-Lorraine constant, the global scaling factor of entropy navigation.
pub const STELLA_CONSTANT_FIXED: u64 = 13_562_079_484_986_743;

/// The golden ratio (1 + sqrt 5) / 2.
pub const GOLDEN_RATIO_FIXED: u64 = 1_618_033_988_749_895;

/// The circle constant.
pub const PI_FIXED: u64 = 3_141_592_653_589_793;

/// Euler's number.
pub const EULERS_NUMBER_FIXED: u64 = 2_718_281_828_459_045;

/// The cube root of two, the tri-dimensional navigation scaling.
pub const CUBE_ROOT_TWO_FIXED: u64 = 1_259_921_049_894_873;

/// The largest absolute deviation accepted between the Stella constant and the
/// relation it is derived from: 1e-10.
pub const STELLA_TOLERANCE_FIXED: u64 = 100_000;

/// Minimum activation level for a frame to be selected from memory: 0.001.
pub const BMD_FRAME_SELECTION_THRESHOLD_FIXED: u64 = 1_000_000_000_000;

/// Decay rate of associative connections, 1 / 1.1 per second.
pub const ASSOCIATIVE_MEMORY_DECAY_FIXED: u64 = 909_090_909_090_909;

/// Memory intensity amplification for near misses: 3.7.
pub const COUNTERFACTUAL_AMPLIFICATION_FIXED: u64 = 3_700_000_000_000_000;

/// Longest time between frame selections, in seconds: 0.1.
pub const FRAME_COHERENCE_WINDOW_FIXED: u64 = 100_000_000_000_000;

/// Vector dimensionality of associative memory representations.
pub const MATRIX_MEMORY_DIMENSION: usize = 1024;

/// golden ratio * pi * e / cube root of two, in fixed point, each product and
/// quotient truncated to the fixed-point grid.
pub open spec fn stella_relation_fixed() -> int {
    let phi_pi = (GOLDEN_RATIO_FIXED as int * PI_FIXED as int) / FIXED_SCALE as int;
    let phi_pi_e = (phi_pi * EULERS_NUMBER_FIXED as int) / FIXED_SCALE as int;
    (phi_pi_e * FIXED_SCALE as int) / CUBE_ROOT_TWO_FIXED as int
}

/// The Stella constant is positive and lies within the tolerance of its derivation.
pub open spec fn stella_constant_consistent() -> bool {
    let diff = STELLA_CONSTANT_FIXED as int - stella_relation_fixed();
    &&& STELLA_CONSTANT_FIXED > 0
    &&& -(STELLA_TOLERANCE_FIXED as int) < diff < STELLA_TOLERANCE_FIXED as int
}

/// The frame-selection parameters lie in their physically reasonable ranges.
pub open spec fn bmd_parameters_reasonable() -> bool {
    &&& 0 < BMD_FRAME_SELECTION_THRESHOLD_FIXED < FIXED_SCALE
    &&& 0 < ASSOCIATIVE_MEMORY_DECAY_FIXED
    &&& COUNTERFACTUAL_AMPLIFICATION_FIXED > FIXED_SCALE
    &&& 0 < FRAME_COHERENCE_WINDOW_FIXED < FIXED_SCALE
}

/// Checks that the frame-selection parameters are physically reasonable: the
/// selection threshold and the coherence window lie strictly between 0 and 1, the
/// memory decay is positive and near misses are amplified.
pub fn verify_bmd_parameters() -> (r: bool)
    ensures
        r == bmd_parameters_reasonable(),
        r,
{
    BMD_FRAME_SELECTION_THRESHOLD_FIXED > 0
        && BMD_FRAME_SELECTION_THRESHOLD_FIXED < FIXED_SCALE
        && ASSOCIATIVE_MEMORY_DECAY_FIXED > 0
        && COUNTERFACTUAL_AMPLIFICATION_FIXED > FIXED_SCALE
        && FRAME_COHERENCE_WINDOW_FIXED > 0
        && FRAME_COHERENCE_WINDOW_FIXED < FIXED_SCALE
}

/// Checks that the Stella constant is positive and agrees, within 1e-10, with
/// golden ratio * pi * e / cube root of two.
pub fn verify_stella_constant() -> (r: bool)
    ensures
        r == stella_constant_consistent(),
{
    let scale = FIXED_SCALE as u128;
    let golden = GOLDEN_RATIO_FIXED as u128;
    let pi = PI_FIXED as u128;
    let e = EULERS_NUMBER_FIXED as u128;
    assert(golden * pi == 5_083_203_692_315_259_906_848_201_821_735) by (nonlinear_arith)
        requires
            golden == 1_618_033_988_749_895,
            pi == 3_141_592_653_589_793,
    ;
    let phi_pi: u128 = (golden * pi) / scale;
    assert(phi_pi * e < 14_000_000_000_000_000_000_000_000_000_000) by (nonlinear_arith)
        requires
            phi_pi <= 5_083_203_692_315_259,
            e == 2_718_281_828_459_045,
    ;
    let phi_pi_e: u128 = (phi_pi * e) / scale;
    let relation: u128 = (phi_pi_e * scale) / CUBE_ROOT_TWO_FIXED as u128;
    let stella = STELLA_CONSTANT_FIXED as u128;
    let tolerance = STELLA_TOLERANCE_FIXED as u128;
    STELLA_CONSTANT_FIXED > 0 && if stella >= relation {
        stella - relation < tolerance
    } else {
        relation - stella < tolerance
    }
}

/// Checks that the framework is configured for navigation: the Stella constant
/// must be positive.
pub fn verify_s_entropy_system() -> (r: Result<(), MusandeError>)
    ensures
        r is Ok <==> STELLA_CONSTANT_FIXED > 0,
        r is Err ==> (r matches Err(MusandeError::InvalidConfiguration(m))
            && m@ == "Stella constant must be positive for eternal optimization"@),
{
    if STELLA_CONSTANT_FIXED == 0 {
        return Err(
            MusandeError::InvalidConfiguration(
                "Stella constant must be positive for eternal optimization".to_owned(),
            ),
        );
    }
    Ok(())
}

} // verus!
