//! Spanwise vortex-lattice kernel: the exact, discrete part of a
//! horseshoe-vortex line model of a finite wing.
//!
//! The spanwise discretization couples station `m` to station `n` through
//! unit fractions of the half-integer offset `n - m +/- 1/2`. Everything
//! about that coupling that is exact integer arithmetic lives here and is
//! verified; the surrounding real-valued scaling (chord, dihedral cosines,
//! the matrix inversion) is left to the caller. Alongside the kernel stand
//! the gates that decide whether a lattice can be built at all, and the
//! helpers that extend half-span distributions to the full span by mirror
//! symmetry.

pub mod geometry;
pub mod kernel;
pub mod spanwise;

use vstd::prelude::*;

verus! {

/// A construction-time failure of a lattice.
///
/// Construction either fully succeeds or yields one of these; a lattice is
/// never observable in a partially built state.
#[derive(Clone, Copy, Debug, PartialEq, Eq, Structural)]
pub enum LatticeError {
    /// Fewer than two stations, or a non-positive span or chord.
    InvalidGeometry,
    /// The circulation tensor could not be inverted.
    SingularMatrix,
}

} // verus!
