use vstd::prelude::*;

verus! {

/// Above this many wavelengths the transfer matrices are computed in parallel.
pub const PARALLEL_THRESHOLD: usize = 100;

/// Whether a run over `wavelength_count` wavelengths is spread over worker
/// threads: exactly when there are more than `PARALLEL_THRESHOLD` of them.
pub fn uses_parallel(wavelength_count: usize) -> (parallel: bool)
    ensures
        parallel == (wavelength_count > PARALLEL_THRESHOLD),
{
    wavelength_count > PARALLEL_THRESHOLD
}

} // verus!
