//! Exact checks of the kernel fractions, the construction gates, and the
//! spanwise mirror helpers.

use vortex_lattice::geometry::{construction_check, geometry_check};
use vortex_lattice::kernel::{
    circulation_bracket, circulation_brackets, downwash_bracket, downwash_brackets, kronecker,
    kronecker_matrix,
};
use vortex_lattice::spanwise::{concat_with_reversed, mirrored_from_half};
use vortex_lattice::LatticeError;

#[test]
fn kronecker_entries() {
    assert_eq!(kronecker(3, 3), 1);
    assert_eq!(kronecker(2, 5), 0);
    assert_eq!(kronecker(0, 0), 1);
}

#[test]
fn kronecker_matrix_is_identity_pattern() {
    let m = kronecker_matrix(4);
    assert_eq!(m.len(), 4);
    for i in 0..4 {
        assert_eq!(m[i].len(), 4);
        for j in 0..4 {
            assert_eq!(m[i][j], if i == j { 1 } else { 0 });
        }
    }
}

#[test]
fn circulation_bracket_values() {
    // d = 0: 1/(1/2) - 1/(-1/2) = 4, as a fraction -4/-1
    assert_eq!(circulation_bracket(0, 0), (-4, -1));
    // d = 1: 1/(3/2) - 1/(1/2) = -4/3
    assert_eq!(circulation_bracket(0, 1), (-4, 3));
    // d = -1: 1/(-1/2) - 1/(-3/2) = -4/3
    assert_eq!(circulation_bracket(1, 0), (-4, 3));
    // d = 2: 1/(5/2) - 1/(3/2) = -4/15
    assert_eq!(circulation_bracket(0, 2), (-4, 15));
}

#[test]
fn downwash_bracket_negates_circulation() {
    for m in 0..7usize {
        for n in 0..7usize {
            let c = circulation_bracket(m, n);
            let w = downwash_bracket(m, n);
            assert_eq!(w.0, -c.0);
            assert_eq!(w.1, c.1);
        }
    }
}

#[test]
fn brackets_match_half_integer_differences() {
    for m in 0..13usize {
        for n in 0..13usize {
            let (num, den) = circulation_bracket(m, n);
            let d = n as f64 - m as f64;
            let direct = 1.0 / (d + 0.5) - 1.0 / (d - 0.5);
            let exact = num as f64 / den as f64;
            assert!((direct - exact).abs() <= 1e-12 * exact.abs());
        }
    }
}

#[test]
fn bracket_tables_cover_the_lattice() {
    let q = circulation_brackets(5);
    let k = downwash_brackets(5);
    assert_eq!(q.len(), 5);
    assert_eq!(k.len(), 5);
    for m in 0..5 {
        for n in 0..5 {
            assert_eq!(q[m][n], circulation_bracket(m, n));
            assert_eq!(k[m][n], downwash_bracket(m, n));
        }
    }
}

#[test]
fn bracket_tables_mirror_about_the_centreline() {
    let q = circulation_brackets(6);
    for m in 0..6 {
        for n in 0..6 {
            assert_eq!(q[m][n], q[5 - m][5 - n]);
        }
    }
}

#[test]
fn too_few_stations_are_invalid() {
    assert_eq!(geometry_check(0, true, true), Err(LatticeError::InvalidGeometry));
    assert_eq!(geometry_check(1, true, true), Err(LatticeError::InvalidGeometry));
    assert_eq!(geometry_check(2, true, true), Ok(()));
}

#[test]
fn non_positive_span_or_chord_is_invalid() {
    assert_eq!(geometry_check(8, false, true), Err(LatticeError::InvalidGeometry));
    assert_eq!(geometry_check(8, true, false), Err(LatticeError::InvalidGeometry));
    assert_eq!(geometry_check(8, false, false), Err(LatticeError::InvalidGeometry));
}

#[test]
fn construction_gate_orders_its_failures() {
    assert_eq!(construction_check(1, true, true, true), Err(LatticeError::InvalidGeometry));
    assert_eq!(construction_check(1, false, true, false), Err(LatticeError::InvalidGeometry));
    assert_eq!(construction_check(8, true, true, false), Err(LatticeError::SingularMatrix));
    assert_eq!(construction_check(8, true, true, true), Ok(()));
}

#[test]
fn concat_with_reversed_places_the_mirror_half() {
    let low = vec![1.0f64, 2.0];
    let high = vec![3.0f64, 4.0];
    let r = concat_with_reversed(&low, &high);
    assert_eq!(r, vec![1.0, 2.0, 4.0, 3.0]);
}

#[test]
fn mirrored_from_half_is_symmetric() {
    let half = vec![-2.0f64, -1.0, 0.0];
    let r = mirrored_from_half(&half);
    assert_eq!(r, vec![-2.0, -1.0, 0.0, 0.0, -1.0, -2.0]);
    for i in 0..r.len() {
        assert_eq!(r[i], r[r.len() - 1 - i]);
    }
}
