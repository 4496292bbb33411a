use stardome::matrix::{Vec3, RotAngle, FP_ONE, identity, rz, transpose};
use stardome::frames::{TEME, mat_apply, orthonormality_defect, determinant_fp, pom_matrix, gcrs_to_itrs};
use stardome::gfx::{Mesh, Graphics, Program, Texture, Cubemap};
use stardome::get_mjd;

const DAYSEC: f64 = 86400.0;
const DAS2R: f64 = 4.848136811095359935899141e-6;

fn angle(rad: f64) -> RotAngle {
    RotAngle {
        sin: (rad.sin() * FP_ONE as f64).round() as i64,
        cos: (rad.cos() * FP_ONE as f64).round() as i64,
    }
}

/// Greenwich Mean Sidereal Time 1982, radians, from a two-part UT1 Julian
/// Date.
fn gmst82(jd1: f64, jd2: f64) -> f64 {
    const DS2R: f64 = 7.272205216643039903195175e-5;
    const DJ00: f64 = 2451545.0;
    const DJC: f64 = 36525.0;
    let a = 24110.54841 - DAYSEC / 2.0;
    let b = 8640184.812866;
    let c = 0.093104;
    let d = -6.2e-6;
    let (d1, d2) = if jd1 < jd2 { (jd1, jd2) } else { (jd2, jd1) };
    let t = (d1 + (d2 - DJ00)) / DJC;
    let f = DAYSEC * (d1.rem_euclid(1.0) + d2.rem_euclid(1.0));
    (DS2R * ((a + (b + (c + d * t) * t) * t) + f)).rem_euclid(std::f64::consts::TAU)
}

#[test]
fn vallado_teme_to_itrs_scenario() {
    let (_tt, ut1) = get_mjd(2004, 4, 6, 7, 51, 28, 386_000_000_000, -439_961_000_000).unwrap();
    let jd1 = 2400000.5;
    let jd2 = ut1.0.day as f64 + ut1.0.ps as f64 / 86_400_000_000_000_000.0;
    let gmst = gmst82(jd1, jd2);
    let xp = -0.140682 * DAS2R;
    let yp = 0.333309 * DAS2R;
    let m = TEME::teme_to_itrs_mat(angle(gmst), angle(xp), angle(yp));
    // Positions in tenth-millimetre units (1e-7 km).
    let p = Vec3 { x: 50_941_801_621, y: 61_276_446_595, z: 63_803_445_327 };
    let r = mat_apply(&m, &p);
    // The published terrestrial position of the propagator test case.
    let expected = [-10_334_793_830f64, 79_012_952_754f64, 63_803_565_958f64];
    let metre = 10_000.0;
    let got = [r.x as f64, r.y as f64, r.z as f64];
    for i in 0..3 {
        let off = (got[i] - expected[i]).abs() / metre;
        assert!(off < 1.0, "axis {} off by {} m", i, off);
    }
    // The position-wise legacy transform applies the same matrix.
    let direct = TEME(p).into_itrs_r(angle(gmst), angle(xp), angle(yp));
    assert_eq!(direct.0, r);
}

#[test]
fn teme_matrix_is_orthonormal_within_tolerance() {
    let m = TEME::teme_to_itrs_mat(angle(4.5), angle(-6.8e-7), angle(1.6e-6));
    let one2 = (FP_ONE as i128) * (FP_ONE as i128);
    // Frobenius-style orthonormality: the largest Gram deviation is far
    // below 1e-10 at squared scale.
    let tol = one2 / 10_000_000_000;
    assert!(orthonormality_defect(&m) < tol);
    let id = identity();
    assert_eq!(orthonormality_defect(&id), 0);
    let mut broken = id;
    broken.m00 = 2 * FP_ONE;
    assert!(orthonormality_defect(&broken) > tol);
}

#[test]
fn composed_matrices_are_proper_rotations() {
    let one = FP_ONE as i128;
    assert_eq!(determinant_fp(&identity()), one);
    let m = TEME::teme_to_itrs_mat(angle(4.5), angle(-6.8e-7), angle(1.6e-6));
    // Determinant within 1e-10 of one: a rotation, not a reflection.
    assert!((determinant_fp(&m) - one).abs() < one / 10_000_000_000);
    let mut mirrored = identity();
    mirrored.m00 = -FP_ONE;
    assert!((determinant_fp(&mirrored) - one).abs() > one);
}

#[test]
fn gcrs_pipeline_reduces_to_earth_rotation() {
    let id = identity();
    let era = angle(1.234);
    let zero = angle(0.0);
    let m = gcrs_to_itrs(&id, era, zero, zero, zero);
    let expect = rz(era);
    assert_eq!(m, expect);
    assert!(orthonormality_defect(&m) < (FP_ONE as i128) * (FP_ONE as i128) / 10_000_000_000);
}

#[test]
fn pom_matrix_identity_at_zero_angles() {
    let zero = angle(0.0);
    assert_eq!(pom_matrix(zero, zero, zero), identity());
}

#[test]
fn into_itrs_r_at_zero_angles_is_identity() {
    let zero = angle(0.0);
    let p = TEME(Vec3 { x: 50_941_801_621, y: 61_276_446_595, z: 63_803_445_327 });
    let r = p.into_itrs_r(zero, zero, zero);
    assert_eq!(r.0, p.0);
}

#[test]
fn transforms_are_deterministic() {
    let a = TEME::teme_to_itrs_mat(angle(4.5), angle(-6.8e-7), angle(1.6e-6));
    let b = TEME::teme_to_itrs_mat(angle(4.5), angle(-6.8e-7), angle(1.6e-6));
    assert_eq!(a, b);
    let p = Vec3 { x: 1_000_000, y: -2_000_000, z: 3_000_000 };
    assert_eq!(mat_apply(&a, &p), mat_apply(&b, &p));
}

#[test]
fn transpose_inverts_a_rotation() {
    let a = angle(0.9);
    let t = transpose(&rz(a));
    let n = RotAngle { sin: -a.sin, cos: a.cos };
    assert_eq!(t, rz(n));
}

#[test]
fn sphere_indices_stay_in_the_grid() {
    let idx = Mesh::uv_sphere_indices(36, 18);
    assert_eq!(idx.len(), 6 * 36 * 18);
    let vertices = (18 + 2) * (36 + 1);
    for &k in idx.iter() {
        assert!(k < vertices);
    }
    // The first emitted triangle sits in the polar cap row.
    assert_eq!(&idx[0..3], &[1, 37, 38]);
}

#[test]
fn sphere_counts_for_smallest_grid() {
    let idx = Mesh::uv_sphere_indices(3, 1);
    assert_eq!(idx.len(), 18);
    for &k in idx.iter() {
        assert!(k < 3 * 4);
    }
}

#[test]
fn cube_indices_reference_eight_corners() {
    let idx = Mesh::cube_indices();
    assert_eq!(idx.len(), 36);
    for &k in idx.iter() {
        assert!(k < 8);
    }
}

#[test]
fn graphics_registry_validates_handles() {
    let progs = vec![Program(1), Program(2)];
    let meshes = vec![Mesh::new(1, 2, 3, 8, 36).unwrap()];
    let textures = vec![Texture(7)];
    let g = Graphics::new(progs, meshes, textures, Cubemap(9)).unwrap();
    assert_eq!(g.progs.len(), 2);
    assert_eq!(g.meshes[0].indices, 36);
    let bad = Graphics::new(vec![Program(0)], vec![], vec![], Cubemap(9));
    assert!(bad.is_none());
    let bad = Graphics::new(vec![], vec![], vec![], Cubemap(0));
    assert!(bad.is_none());
    assert!(Mesh::new(0, 2, 3, 8, 36).is_none());
    assert!(Mesh::new(1, 2, 3, -1, 36).is_none());
}
