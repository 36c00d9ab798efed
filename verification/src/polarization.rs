use vstd::prelude::*;

verus! {

/// The two linear polarizations that the transfer matrices are computed for.
#[derive(Clone, Copy, Debug, PartialEq, Eq, Structural)]
pub enum Polarization {
    /// Transverse electric.
    TE,
    /// Transverse magnetic.
    TM,
}

} // verus!
