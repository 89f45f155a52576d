//! System queries: the thickness aggregate and the paraxial power plan of
//! the example system, and the cases where power is unavailable.

use optics::field::{CURVATURE, MATERIAL_INDEX, THICKNESS, TRANSLATION_Z};
use optics::material::Formula;
use optics::surface::Surface;
use optics::surface_data::SurfaceData;
use optics::surface_kind::SurfaceKind;
use optics::system::{PowerStep, System};

/// Caller-side refractive index for the variants the example system uses.
fn refractive_index(sys: &System, row: usize, wavelength: f32) -> f32 {
    let l2 = wavelength * wavelength;
    match sys.materials[row].formula() {
        Formula::Constant { cte } => f32::from_bits(*cte),
        Formula::Sellmeier1 { k, l } => {
            let mut sum = 0.0f32;
            for i in 0..3 {
                sum += f32::from_bits(k[i]) * l2 / (l2 - f32::from_bits(l[i]));
            }
            (sum + 1.0).sqrt()
        }
        other => panic!("example system does not use {other:?}"),
    }
}

/// Caller-side fold of the thin-element recurrence over a power plan.
fn fold_power(sys: &System, steps: &[PowerStep], wavelength: f32) -> f32 {
    assert!(sys.materials_resolvable(), "dangling material reference");
    let mut power = 0.0f32;
    for step in steps {
        let prev_n = refractive_index(sys, step.prev_material, wavelength);
        let n = refractive_index(sys, step.material, wavelength);
        let curvature = f32::from_bits(step.curvature);
        let distance = f32::from_bits(step.prev_thickness);
        let curr = (n - prev_n) * curvature;
        power = power + curr - power * curr * distance / prev_n;
    }
    power
}

#[test]
fn default_thickness_sums_the_spherical_surfaces() {
    let sys = System::default();
    let total: f32 = sys.thickness_terms().iter().map(|w| f32::from_bits(*w)).sum();
    // The two spherical surfaces contribute 10 each; the object and image
    // reference planes contribute zero, so the object distance of 100 is
    // not part of the aggregate.
    assert_eq!(total, 20.0);
}

#[test]
fn thickness_counts_coordinate_break_z_translation() {
    let mut sys = System::default();
    let data = SurfaceData::default().with(TRANSLATION_Z, 5.0f32.to_bits());
    sys.surfaces.insert(3, Surface::new(SurfaceKind::CoordinateBreak, data));
    let total: f32 = sys.thickness_terms().iter().map(|w| f32::from_bits(*w)).sum();
    assert_eq!(total, 25.0);
}

#[test]
fn default_power_is_present_and_finite() {
    let sys = System::default();
    let steps = sys.power_plan().expect("object-spherical-spherical-image has a power");
    assert_eq!(steps.len(), 2);
    let wavelength = f32::from_bits(sys.wavelengths[0]);
    assert_eq!(wavelength, 0.5875618);
    let power = fold_power(&sys, &steps, wavelength);
    assert!(power.is_finite(), "power = {power}");
    // Two thin surfaces of curvature +-0.01 around N-BK7.
    assert!((power - 0.0101599).abs() < 1e-4, "power = {power}");
}

#[test]
fn default_plan_records_the_lens_operands() {
    let sys = System::default();
    let steps = sys.power_plan().unwrap();
    // First surface: vacuum (row 0) to N-BK7 (row 2), no gap yet.
    assert_eq!(steps[0].prev_material, 0);
    assert_eq!(steps[0].material, 2);
    assert_eq!(f32::from_bits(steps[0].prev_thickness), 0.0);
    assert_eq!(f32::from_bits(steps[0].curvature), 0.01);
    // Second surface: back to vacuum (row 0), 10 units after the first.
    assert_eq!(steps[1].prev_material, 2);
    assert_eq!(steps[1].material, 0);
    assert_eq!(f32::from_bits(steps[1].prev_thickness), 10.0);
    assert_eq!(f32::from_bits(steps[1].curvature), -0.01);
}

#[test]
fn power_unavailable_when_no_image_ends_the_chain() {
    let mut sys = System::default();
    sys.surfaces.pop();
    assert!(sys.power_plan().is_none());
}

#[test]
fn power_unavailable_for_unsupported_interior_kind() {
    let mut sys = System::default();
    let data = SurfaceData::default();
    sys.surfaces.insert(2, Surface::new(SurfaceKind::CoordinateBreak, data));
    assert!(sys.power_plan().is_none());
}

#[test]
fn power_unavailable_for_empty_or_object_only_chain() {
    let mut sys = System::default();
    sys.surfaces.truncate(1);
    assert!(sys.power_plan().is_none());
    sys.surfaces.clear();
    assert!(sys.power_plan().is_none());
}

#[test]
fn object_material_slot_overrides_the_medium() {
    let mut sys = System::default();
    // Start the system in N-BK7 instead of vacuum: the object surface's
    // material slot overrides the ambient medium for the first step.
    let data = sys.surfaces[0].data().clone().with(MATERIAL_INDEX, 3u32);
    *sys.surfaces[0].data_mut() = data;
    let steps = sys.power_plan().unwrap();
    assert_eq!(steps[0].prev_material, 2);
}

#[test]
fn materials_resolvable_flags_dangling_references() {
    let mut sys = System::default();
    assert!(sys.materials_resolvable());
    let data = sys.surfaces[1].data().clone().with(MATERIAL_INDEX, 99u32);
    *sys.surfaces[1].data_mut() = data;
    assert!(!sys.materials_resolvable());
}

#[test]
fn material_lookup_is_one_based() {
    let sys = System::default();
    let lookup = |v: u32| sys.material(optics::material::MaterialIndex::new(v).unwrap());
    assert_eq!(lookup(1).unwrap().name(), "Vacuum");
    assert_eq!(lookup(2).unwrap().name(), "Air");
    assert_eq!(lookup(3).unwrap().name(), "N-BK7");
    assert_eq!(lookup(4).unwrap().name(), "SF2");
    assert!(lookup(5).is_none());
}

#[test]
fn default_system_shape() {
    let sys = System::default();
    assert_eq!(sys.surfaces.len(), 4);
    assert_eq!(sys.surfaces[0].kind(), SurfaceKind::Object);
    assert_eq!(sys.surfaces[1].kind(), SurfaceKind::Spherical);
    assert_eq!(sys.surfaces[2].kind(), SurfaceKind::Spherical);
    assert_eq!(sys.surfaces[3].kind(), SurfaceKind::Image);
    assert_eq!(sys.materials.len(), 4);
    assert_eq!(sys.medium.get(), 1);
    assert_eq!(sys.stop_index, 0);
    assert_eq!(sys.wavelengths.len(), 1);
    assert_eq!(f32::from_bits(sys.surfaces[0].data().get(THICKNESS)), 100.0);
    assert_eq!(f32::from_bits(sys.surfaces[1].data().get(CURVATURE)), 0.01);
    assert_eq!(f32::from_bits(sys.surfaces[2].data().get(CURVATURE)), -0.01);
}
