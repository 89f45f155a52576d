//! Geometry decided by the library: the rotation-order table of coordinate
//! breaks and the slot data feeding the spherical intersection, checked
//! against hand-computed matrices and the analytic quadratic root.

use glam::{Mat4, Vec3};
use optics::field::{CURVATURE, ROTATION_ORDER, ROTATION_X, ROTATION_Y, ROTATION_Z, THICKNESS,
    TRANSLATION_X, TRANSLATION_Y, TRANSLATION_Z};
use optics::surface::{Surface, TransformContribution};
use optics::surface_data::SurfaceData;
use optics::surface_kind::{rotation_axes, RotationAxis, SurfaceKind};

/// Caller-side coordinate-break transform: translation first, then the
/// three axis rotations in the order the library's table selects.
fn coordinate_break_matrix(data: &SurfaceData) -> Mat4 {
    let translation = Vec3::new(
        f32::from_bits(data.get(TRANSLATION_X)),
        f32::from_bits(data.get(TRANSLATION_Y)),
        f32::from_bits(data.get(TRANSLATION_Z)),
    );
    let angles = [
        f32::from_bits(data.get(ROTATION_X)).to_radians(),
        f32::from_bits(data.get(ROTATION_Y)).to_radians(),
        f32::from_bits(data.get(ROTATION_Z)).to_radians(),
    ];
    let rotation = |axis: RotationAxis| match axis {
        RotationAxis::X => Mat4::from_rotation_x(angles[0]),
        RotationAxis::Y => Mat4::from_rotation_y(angles[1]),
        RotationAxis::Z => Mat4::from_rotation_z(angles[2]),
    };
    let (first, second, third) =
        rotation_axes(data.get(ROTATION_ORDER)).expect("invalid rotation order");
    rotation(third) * rotation(second) * rotation(first) * Mat4::from_translation(translation)
}

fn assert_mat4_eq(a: Mat4, b: Mat4) {
    let a = a.to_cols_array();
    let b = b.to_cols_array();
    for i in 0..16 {
        assert!((a[i] - b[i]).abs() < 1e-6, "entry {i}: {} != {}", a[i], b[i]);
    }
}

#[test]
fn rotation_order_table() {
    let (x, y, z) = (RotationAxis::X, RotationAxis::Y, RotationAxis::Z);
    assert_eq!(rotation_axes(0), Some((x, y, z)));
    assert_eq!(rotation_axes(1), Some((x, z, y)));
    assert_eq!(rotation_axes(2), Some((y, x, z)));
    assert_eq!(rotation_axes(3), Some((y, z, x)));
    assert_eq!(rotation_axes(4), Some((z, x, y)));
    assert_eq!(rotation_axes(5), Some((z, y, x)));
    assert!(rotation_axes(6).is_none());
    assert!(rotation_axes(u32::MAX).is_none());
}

#[test]
fn order_zero_with_only_x_rotation_is_a_pure_x_rotation() {
    let data = SurfaceData::default()
        .with(ROTATION_ORDER, 0u32)
        .with(ROTATION_X, 90.0f32.to_bits());
    let m = coordinate_break_matrix(&data);
    assert_mat4_eq(m, Mat4::from_rotation_x(90.0f32.to_radians()));
    // The +y axis lands on +z under a 90 degree turn about x.
    let v = m.transform_point3(Vec3::Y);
    assert!((v - Vec3::Z).length() < 1e-6);
}

#[test]
fn each_order_spot_checked_against_hand_ordered_product() {
    let (rx, ry, rz) = (30.0f32, 45.0f32, 60.0f32);
    let mx = Mat4::from_rotation_x(rx.to_radians());
    let my = Mat4::from_rotation_y(ry.to_radians());
    let mz = Mat4::from_rotation_z(rz.to_radians());
    // Expected products written by hand from the order names: "XYZ" applies
    // x first, so the x matrix stands rightmost in the product.
    let expected = [
        mz * my * mx, // 0: XYZ
        my * mz * mx, // 1: XZY
        mz * mx * my, // 2: YXZ
        mx * mz * my, // 3: YZX
        my * mx * mz, // 4: ZXY
        mx * my * mz, // 5: ZYX
    ];
    for order in 0u32..6 {
        let data = SurfaceData::default()
            .with(ROTATION_ORDER, order)
            .with(ROTATION_X, rx.to_bits())
            .with(ROTATION_Y, ry.to_bits())
            .with(ROTATION_Z, rz.to_bits());
        assert_mat4_eq(coordinate_break_matrix(&data), expected[order as usize]);
    }
}

#[test]
fn translation_applies_before_the_rotations() {
    let data = SurfaceData::default()
        .with(ROTATION_ORDER, 0u32)
        .with(ROTATION_X, 90.0f32.to_bits())
        .with(TRANSLATION_X, 1.0f32.to_bits())
        .with(TRANSLATION_Y, 2.0f32.to_bits())
        .with(TRANSLATION_Z, 3.0f32.to_bits());
    let m = coordinate_break_matrix(&data);
    let v = m.transform_point3(Vec3::ZERO);
    // (1, 2, 3) rotated 90 degrees about x becomes (1, -3, 2).
    assert!((v - Vec3::new(1.0, -3.0, 2.0)).length() < 1e-5);
}

#[test]
fn transform_contributions_by_kind() {
    let blank = SurfaceData::default;
    assert_eq!(
        Surface::new(SurfaceKind::Object, blank()).transform_contribution(),
        TransformContribution::Identity,
    );
    assert_eq!(
        Surface::new(SurfaceKind::Image, blank()).transform_contribution(),
        TransformContribution::Identity,
    );

    let spherical = Surface::new(SurfaceKind::Spherical, blank().with(THICKNESS, 10.0f32.to_bits()));
    assert_eq!(
        spherical.transform_contribution(),
        TransformContribution::TranslationZ { thickness: 10.0f32.to_bits() },
    );

    let cb = Surface::new(
        SurfaceKind::CoordinateBreak,
        blank()
            .with(TRANSLATION_X, 1.0f32.to_bits())
            .with(TRANSLATION_Y, 2.0f32.to_bits())
            .with(TRANSLATION_Z, 3.0f32.to_bits())
            .with(ROTATION_ORDER, 5u32)
            .with(ROTATION_X, 30.0f32.to_bits())
            .with(ROTATION_Y, 45.0f32.to_bits())
            .with(ROTATION_Z, 60.0f32.to_bits()),
    );
    assert_eq!(
        cb.transform_contribution(),
        TransformContribution::Break {
            tx: 1.0f32.to_bits(),
            ty: 2.0f32.to_bits(),
            tz: 3.0f32.to_bits(),
            order: 5,
            rx: 30.0f32.to_bits(),
            ry: 45.0f32.to_bits(),
            rz: 60.0f32.to_bits(),
        },
    );
}

/// Caller-side spherical intersection: the quadratic with the near/far root
/// chosen by the curvature's sign, over the library's stored curvature.
fn intersect_sphere(
    data: &SurfaceData,
    origin: Vec3,
    direction: Vec3,
    transform: &Mat4,
) -> (Vec3, f32) {
    let curvature = f32::from_bits(data.get(CURVATURE));
    let radius = curvature.recip();
    let center = transform.project_point3(radius * Vec3::Z);
    let b = 2.0 * direction.dot(origin - center);
    let c = (origin - center).dot(origin - center) - radius * radius;
    let delta = (b * b - 4.0 * c).sqrt();
    let t1 = (-b - delta) / 2.0;
    let t2 = (-b + delta) / 2.0;
    let t = if radius < 0.0 { t2 } else { t1 };
    let normal = (direction * t + origin - center).normalize() * radius.signum();
    (normal, t)
}

#[test]
fn axial_ray_hits_the_apex_at_the_analytic_root() {
    // Sphere of radius 100 whose apex sits at the local origin; the ray
    // starts 50 ahead of the apex and travels along +z, so it meets the
    // apex after exactly t = 50.
    let data = SurfaceData::default().with(CURVATURE, 0.01f32.to_bits());
    let (normal, t) = intersect_sphere(&data, Vec3::new(0.0, 0.0, -50.0), Vec3::Z, &Mat4::IDENTITY);
    assert!((t - 50.0).abs() < 1e-4, "t = {t}");
    // The normal is unit length and lies on the z axis, pointing back
    // toward the incoming ray under the sign convention.
    assert!((normal.length() - 1.0).abs() < 1e-6);
    assert!(normal.x.abs() < 1e-6 && normal.y.abs() < 1e-6);
    assert!((normal.z - -1.0).abs() < 1e-6, "normal = {normal}");
}

#[test]
fn concave_surface_takes_the_far_root() {
    // Negative curvature: radius -100, center behind the apex; the far
    // root is the physical one.
    let data = SurfaceData::default().with(CURVATURE, (-0.01f32).to_bits());
    let (normal, t) =
        intersect_sphere(&data, Vec3::new(0.0, 0.0, -50.0), Vec3::Z, &Mat4::IDENTITY);
    assert!((t - 50.0).abs() < 1e-4, "t = {t}");
    assert!((normal.length() - 1.0).abs() < 1e-6);
    assert!((normal.z - -1.0).abs() < 1e-6, "normal = {normal}");
}

#[test]
fn missing_ray_propagates_nan() {
    // A ray far off axis misses the sphere: the discriminant is negative
    // and t is NaN by propagation, not an explicit branch.
    let data = SurfaceData::default().with(CURVATURE, 0.01f32.to_bits());
    let (_, t) =
        intersect_sphere(&data, Vec3::new(500.0, 0.0, -50.0), Vec3::Z, &Mat4::IDENTITY);
    assert!(t.is_nan());
}
