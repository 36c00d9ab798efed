use vstd::prelude::*;

verus! {

/// Why a stack description was refused.
#[derive(Clone, Copy, Debug, PartialEq, Eq, Structural)]
pub enum InputError {
    /// The refractive-index array does not have exactly two axes
    /// (layers × wavelengths).
    NotTwoDimensional,
    /// The number of layer thicknesses is not the number of layers less the
    /// two semi-infinite media at either end.
    ThicknessCountMismatch { thickness_count: usize, num_layers: usize },
    /// The number of wavelengths does not match the wavelength axis of the
    /// refractive-index array.
    WavelengthCountMismatch { wavelength_count: usize, num_wavelengths: usize },
    /// The incident angle lies outside `[0, π/2]`.
    IncidentAngleOutOfRange,
    /// Some layer thickness is not positive.
    NonPositiveThickness,
    /// Some wavelength is not positive.
    NonPositiveWavelength,
}

/// The dimensions of an accepted stack: the number of media (the two
/// semi-infinite ones included) and the number of wavelengths.
#[derive(Clone, Copy, Debug, PartialEq, Eq, Structural)]
pub struct StackShape {
    pub num_layers: usize,
    pub num_wavelengths: usize,
}

/// `thickness_count` thicknesses fit a stack of `num_layers` media: there is
/// one thickness for each medium but the first and the last.
pub open spec fn thickness_count_fits(num_layers: int, thickness_count: int) -> bool {
    num_layers >= 2 && thickness_count == num_layers - 2
}

/// What checking a stack description gives, check by check in this order:
/// the shape of the refractive-index array, the number of thicknesses, the
/// number of wavelengths, the incident angle, the signs of the thicknesses,
/// the signs of the wavelengths. The first check that fails names the error.
pub open spec fn validation_outcome(
    n_shape: Seq<usize>,
    thickness_nonpositive: Seq<bool>,
    wavelength_nonpositive: Seq<bool>,
    angle_out_of_range: bool,
) -> Result<StackShape, InputError> {
    if n_shape.len() != 2 {
        Err(InputError::NotTwoDimensional)
    } else if !thickness_count_fits(n_shape[0] as int, thickness_nonpositive.len() as int) {
        Err(
            InputError::ThicknessCountMismatch {
                thickness_count: thickness_nonpositive.len() as usize,
                num_layers: n_shape[0],
            },
        )
    } else if wavelength_nonpositive.len() != n_shape[1] {
        Err(
            InputError::WavelengthCountMismatch {
                wavelength_count: wavelength_nonpositive.len() as usize,
                num_wavelengths: n_shape[1],
            },
        )
    } else if angle_out_of_range {
        Err(InputError::IncidentAngleOutOfRange)
    } else if thickness_nonpositive.contains(true) {
        Err(InputError::NonPositiveThickness)
    } else if wavelength_nonpositive.contains(true) {
        Err(InputError::NonPositiveWavelength)
    } else {
        Ok(StackShape { num_layers: n_shape[0], num_wavelengths: n_shape[1] })
    }
}

/// Whether any flag is set.
fn any_set(flags: &[bool]) -> (found: bool)
    ensures
        found == flags@.contains(true),
{
    let mut i: usize = 0;
    while i < flags.len()
        invariant
            i <= flags@.len(),
            forall|j: int| 0 <= j < i ==> !flags@[j],
        decreases flags@.len() - i,
    {
        if flags[i] {
            assert(flags@[i as int] == true);
            return true;
        }
        i = i + 1;
    }
    false
}

/// Checks a stack description before a simulation.
///
/// `n_shape` is the shape of the refractive-index array (one entry per axis);
/// `thickness_nonpositive[i]` tells whether thickness `i` is at most zero and
/// `wavelength_nonpositive[j]` whether wavelength `j` is at most zero, so the
/// two slices are as long as the thickness and wavelength lists;
/// `angle_out_of_range` tells whether the incident angle lies outside
/// `[0, π/2]`. The stack is accepted, with its shape, exactly when every check
/// passes; otherwise the first failing check, in the order of
/// `validation_outcome`, is reported.
pub fn validate_stack(
    n_shape: &[usize],
    thickness_nonpositive: &[bool],
    wavelength_nonpositive: &[bool],
    angle_out_of_range: bool,
) -> (outcome: Result<StackShape, InputError>)
    ensures
        outcome == validation_outcome(
            n_shape@,
            thickness_nonpositive@,
            wavelength_nonpositive@,
            angle_out_of_range,
        ),
        outcome is Ok <==> {
            &&& n_shape@.len() == 2
            &&& thickness_count_fits(n_shape@[0] as int, thickness_nonpositive@.len() as int)
            &&& wavelength_nonpositive@.len() == n_shape@[1]
            &&& !angle_out_of_range
            &&& !thickness_nonpositive@.contains(true)
            &&& !wavelength_nonpositive@.contains(true)
        },
{
    if n_shape.len() != 2 {
        return Err(InputError::NotTwoDimensional);
    }
    let num_layers: usize = n_shape[0];
    let num_wavelengths: usize = n_shape[1];
    if num_layers < 2 || thickness_nonpositive.len() != num_layers - 2 {
        return Err(
            InputError::ThicknessCountMismatch {
                thickness_count: thickness_nonpositive.len(),
                num_layers,
            },
        );
    }
    if wavelength_nonpositive.len() != num_wavelengths {
        return Err(
            InputError::WavelengthCountMismatch {
                wavelength_count: wavelength_nonpositive.len(),
                num_wavelengths,
            },
        );
    }
    if angle_out_of_range {
        return Err(InputError::IncidentAngleOutOfRange);
    }
    if any_set(thickness_nonpositive) {
        return Err(InputError::NonPositiveThickness);
    }
    if any_set(wavelength_nonpositive) {
        return Err(InputError::NonPositiveWavelength);
    }
    Ok(StackShape { num_layers, num_wavelengths })
}

} // verus!
