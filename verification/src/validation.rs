//! Parameter validation for the wave model.
//!
//! Each public function here decides one of the model's validation rules and
//! pins which error message a rejected input carries. The callers evaluate
//! the floating-point comparisons and pass their outcomes in as booleans; the
//! choice of outcome and message is made, and proved, here.

use vstd::prelude::*;
use crate::error::ValueError;

verus! {

/// Decides the construction check of a regular wave: rejects the parameters
/// when the amplitude or the frequency (or both) is non-positive, with a
/// message that names exactly the constraints that failed.
pub fn check_regular_wave_parameters(
    amplitude_nonpositive: bool,
    frequency_nonpositive: bool,
) -> (r: Result<(), ValueError>)
    ensures
        r is Ok <==> (!amplitude_nonpositive && !frequency_nonpositive),
        (amplitude_nonpositive && frequency_nonpositive) ==> (r matches Err(e)
            && e@ == "Amplitude and frequency should not be <= 0.0."@),
        (amplitude_nonpositive && !frequency_nonpositive) ==> (r matches Err(e)
            && e@ == "Amplitude should not be <= 0.0."@),
        (!amplitude_nonpositive && frequency_nonpositive) ==> (r matches Err(e)
            && e@ == "Frequency should not be <= 0.0."@),
{
    match (amplitude_nonpositive, frequency_nonpositive) {
        (true, true) => Err(ValueError::new("Amplitude and frequency should not be <= 0.0.")),
        (true, false) => Err(ValueError::new("Amplitude should not be <= 0.0.")),
        (false, true) => Err(ValueError::new("Frequency should not be <= 0.0.")),
        (false, false) => Ok(()),
    }
}

/// Decides the time check shared by every phase and elevation query:
/// a negative query time is rejected, always with the same message,
/// whatever the other parameters are.
pub fn check_query_time(time_negative: bool) -> (r: Result<(), ValueError>)
    ensures
        r is Ok <==> !time_negative,
        time_negative ==> (r matches Err(e) && e@ == "Time should not be < 0.0."@),
{
    if time_negative {
        Err(ValueError::new("Time should not be < 0.0."))
    } else {
        Ok(())
    }
}

/// Decides the construction check of the wave spectrum: a non-positive
/// significant wave height is rejected, always with the same message,
/// whatever the other parameters are.
pub fn check_significant_wave_height(height_nonpositive: bool) -> (r: Result<(), ValueError>)
    ensures
        r is Ok <==> !height_nonpositive,
        height_nonpositive ==> (r matches Err(e)
            && e@ == "Significant wave height should not be <= 0.0."@),
{
    if height_nonpositive {
        Err(ValueError::new("Significant wave height should not be <= 0.0."))
    } else {
        Ok(())
    }
}

/// Decides the grid-size check of the wave spectrum. The discretization
/// divides by `count - 1` along each axis, so fewer than two direction bins
/// or fewer than two frequency bins leave the step sizes undefined and are
/// rejected; the message names the first axis that is too small.
pub fn check_spectrum_counts(
    count_spectral_directions: usize,
    count_spectral_frequencies: usize,
) -> (r: Result<(), ValueError>)
    ensures
        r is Ok <==> (count_spectral_directions >= 2 && count_spectral_frequencies >= 2),
        count_spectral_directions < 2 ==> (r matches Err(e)
            && e@ == "Count of spectral directions should not be < 2."@),
        (count_spectral_directions >= 2 && count_spectral_frequencies < 2) ==> (r matches Err(e)
            && e@ == "Count of spectral frequencies should not be < 2."@),
{
    if count_spectral_directions < 2 {
        Err(ValueError::new("Count of spectral directions should not be < 2."))
    } else if count_spectral_frequencies < 2 {
        Err(ValueError::new("Count of spectral frequencies should not be < 2."))
    } else {
        Ok(())
    }
}

} // verus!
