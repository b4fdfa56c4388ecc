//! Admissibility of a lattice geometry and the construction gate.
//!
//! A lattice is built once, from a span, a chord and per-station angle
//! distributions, and the expensive inversion of the circulation tensor
//! happens at that single point. Construction either fully succeeds or
//! yields an error; no partially built lattice is ever observable. The
//! decisions of that gate are exact and live here: the span and chord must
//! be positive, at least two stations are needed for the spacing formulas
//! to be meaningful, and an inversion whose result is not finite leaves the
//! geometry unusable.

use vstd::prelude::*;

use crate::LatticeError;

verus! {

/// An admissible geometry: at least two stations, and a positive span and
/// chord.
pub open spec fn geometry_ok(count: int, span_positive: bool, chord_positive: bool) -> bool {
    count >= 2 && span_positive && chord_positive
}

/// The geometry gate of construction: accepts exactly the admissible
/// geometries and rejects every other one as invalid.
pub fn geometry_check(count: usize, span_positive: bool, chord_positive: bool) -> (r: Result<
    (),
    LatticeError,
>)
    ensures
        geometry_ok(count as int, span_positive, chord_positive) ==> r == Ok::<
            (),
            LatticeError,
        >(()),
        !geometry_ok(count as int, span_positive, chord_positive) ==> r == Err::<
            (),
            LatticeError,
        >(LatticeError::InvalidGeometry),
{
    if count >= 2 && span_positive && chord_positive {
        Ok(())
    } else {
        Err(LatticeError::InvalidGeometry)
    }
}

/// The whole construction gate: an inadmissible geometry is invalid, an
/// admissible one whose inverted circulation tensor came back non-finite is
/// singular, and only an admissible geometry with a finite inverse yields a
/// usable lattice.
pub fn construction_check(
    count: usize,
    span_positive: bool,
    chord_positive: bool,
    inverse_finite: bool,
) -> (r: Result<(), LatticeError>)
    ensures
        !geometry_ok(count as int, span_positive, chord_positive) ==> r == Err::<
            (),
            LatticeError,
        >(LatticeError::InvalidGeometry),
        geometry_ok(count as int, span_positive, chord_positive) && !inverse_finite ==> r == Err::<
            (),
            LatticeError,
        >(LatticeError::SingularMatrix),
        geometry_ok(count as int, span_positive, chord_positive) && inverse_finite ==> r == Ok::<
            (),
            LatticeError,
        >(()),
{
    let gate = geometry_check(count, span_positive, chord_positive);
    match gate {
        Ok(()) => {
            if inverse_finite {
                Ok(())
            } else {
                Err(LatticeError::SingularMatrix)
            }
        },
        Err(e) => Err(e),
    }
}

} // verus!
