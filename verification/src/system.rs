//! The optical system: ordered surfaces, a material table, and the
//! traversal queries.
//!
//! Every query re-derives its result from the current surface and material
//! arrays; the system keeps no other state. The queries here decide which
//! slots and which material rows matter: [`System::thickness_terms`] lists
//! the per-surface thickness contributions and [`System::power_plan`] lists,
//! surface by surface, the operands of the thin-element power recurrence
//! D = P0 + P1 + P0 P1 d / n. Both hand out IEEE-754 single-precision bit
//! patterns as plain words; summing or folding them is floating-point work
//! left to the caller.

use crate::field::{CURVATURE, MATERIAL_INDEX, SEMI_DIAMETER, THICKNESS, TRANSLATION_Z};
use crate::material::{Formula, Material, MaterialIndex};
use crate::surface::Surface;
use crate::surface_data::{zeroed_words, SurfaceData};
use crate::surface_kind::SurfaceKind;
use vstd::prelude::*;
use vstd::string::StringExecFns;

verus! {

/// Bit pattern of single-precision 100.0, the fixture's object distance.
pub const W_100_0: u32 = 0x42C8_0000;

/// Bit pattern of single-precision 10.0.
pub const W_10_0: u32 = 0x4120_0000;

/// Bit pattern of single-precision 1.0.
pub const W_1_0: u32 = 0x3F80_0000;

/// Bit pattern of single-precision 0.01, the fixture's front curvature.
pub const W_0_01: u32 = 0x3C23_D70A;

/// Bit pattern of single-precision -0.01, the fixture's back curvature.
pub const W_NEG_0_01: u32 = 0xBC23_D70A;

/// Bit pattern of single-precision 0.5875618, the helium d-line wavelength
/// in micrometers, the fixture's reference wavelength.
pub const W_D_LINE: u32 = 0x3F16_6A73;

/// An ordered chain of surfaces with its material table.
///
/// `materials` is addressed by 1-based [`MaterialIndex`] values; `medium` is
/// the material the system starts in; `wavelengths` is the non-empty list of
/// traced wavelengths (bit patterns of single-precision micrometer values),
/// whose first entry is the reference wavelength; `stop_index` declares the
/// aperture stop and is not consumed by any query here.
#[derive(Debug)]
pub struct System {
    /// The surfaces, in traversal order.
    pub surfaces: Vec<Surface>,
    /// The material table, addressed 1-based.
    pub materials: Vec<Material>,
    /// The declared aperture-stop surface index.
    pub stop_index: u32,
    /// The ambient medium's material index.
    pub medium: MaterialIndex,
    /// Traced wavelengths; the first entry is the reference wavelength.
    pub wavelengths: Vec<u32>,
}

/// The word a surface stores in its optional-material slot.
pub open spec fn spec_mi_slot(s: Surface) -> u32 {
    s.spec_data()@[MATERIAL_INDEX as int]
}

/// The 0-based material row after one surface: an explicit index overrides,
/// the zero word inherits the current row.
pub open spec fn spec_resolve_row(slot: u32, current: usize) -> usize {
    if slot == 0 {
        current
    } else {
        (slot - 1) as usize
    }
}

/// What one surface adds to the additive thickness aggregate: a spherical
/// surface its thickness slot, a coordinate break its z translation; the
/// object and image planes contribute the zero word, so the object
/// distance is not part of the total.
pub open spec fn spec_thickness_term(s: Surface) -> u32 {
    match s.spec_kind() {
        SurfaceKind::Spherical => s.spec_data()@[THICKNESS as int],
        SurfaceKind::CoordinateBreak => s.spec_data()@[TRANSLATION_Z as int],
        _ => 0u32,
    }
}

/// One application of the thin-element recurrence
/// `P := P + P1 - P P1 d / n`, where `P1 = (n_new - n_prev) * curvature`:
/// the words and material rows it reads, captured before and after the
/// surface's own updates.
#[derive(Debug, Clone, Copy, PartialEq, Eq, Structural)]
pub struct PowerStep {
    /// The surface's curvature word.
    pub curvature: u32,
    /// The thickness word of the previous surface (`d`).
    pub prev_thickness: u32,
    /// The 0-based material row before this surface (`n_prev`, also `n`).
    pub prev_material: usize,
    /// The 0-based material row after this surface (`n_new`).
    pub material: usize,
}

/// Steps already collected, followed by the rest of a traversal; no plan
/// where the rest of the traversal has none.
pub open spec fn plan_append(acc: Seq<PowerStep>, rest: Option<Seq<PowerStep>>) -> Option<
    Seq<PowerStep>,
> {
    match rest {
        Some(r) => Some(acc + r),
        None => None,
    }
}

/// The power traversal from surface `i` onwards, carrying the current
/// material row and the previous surface's thickness word: the remaining
/// recurrence steps up to the image surface, or `None` where the traversal
/// meets a kind the power query is undefined for, or runs out of surfaces
/// without meeting an image surface.
pub open spec fn spec_plan_from(
    surfaces: Seq<Surface>,
    i: int,
    row: usize,
    thickness: u32,
) -> Option<Seq<PowerStep>>
    decreases surfaces.len() - i,
{
    if i < 0 || i >= surfaces.len() {
        None
    } else {
        let s = surfaces[i];
        let new_row = spec_resolve_row(spec_mi_slot(s), row);
        let new_thickness = s.spec_data()@[THICKNESS as int];
        match s.spec_kind() {
            SurfaceKind::Image => Some(Seq::empty()),
            SurfaceKind::Spherical => {
                let step = PowerStep {
                    curvature: s.spec_data()@[CURVATURE as int],
                    prev_thickness: thickness,
                    prev_material: row,
                    material: new_row,
                };
                match spec_plan_from(surfaces, i + 1, new_row, new_thickness) {
                    Some(rest) => Some(seq![step] + rest),
                    None => None,
                }
            },
            _ => None,
        }
    }
}

impl System {
    /// The whole power traversal: the ambient medium's row, possibly
    /// overridden by the object surface's material slot, then the
    /// recurrence steps from the second surface onwards.
    pub open spec fn spec_power_plan(self) -> Option<Seq<PowerStep>> {
        if self.surfaces@.len() == 0 {
            None
        } else {
            let row0 = (self.medium.value - 1) as usize;
            let row1 = spec_resolve_row(spec_mi_slot(self.surfaces@[0]), row0);
            spec_plan_from(self.surfaces@, 1, row1, 0u32)
        }
    }

    /// Every material reference of the system resolves to a table row: the
    /// medium's, and every surface's non-zero material slot.
    pub open spec fn materials_wf(self) -> bool {
        &&& self.medium.wf()
        &&& self.medium.value as int <= self.materials@.len()
        &&& forall|j: int|
            0 <= j < self.surfaces@.len() ==> (#[trigger] spec_mi_slot(
                self.surfaces@[j],
            )) as int <= self.materials@.len()
    }

    /// Looks a material up by its 1-based index; `None` where the index
    /// does not resolve to a table row.
    pub fn material(&self, index: MaterialIndex) -> (r: Option<&Material>)
        ensures
            1 <= index.value && index.value as int <= self.materials@.len() ==> (r matches Some(m)
                && *m == self.materials@[index.value - 1]),
            !(1 <= index.value && index.value as int <= self.materials@.len()) ==> r is None,
    {
        let v = index.get();
        if v >= 1 && (v as usize) <= self.materials.len() {
            Some(&self.materials[(v - 1) as usize])
        } else {
            None
        }
    }

    /// Checks [`System::materials_wf`]: callers that are about to resolve
    /// material rows test this and treat `false` as a fatal configuration
    /// error, as dangling references indicate an editor bug.
    pub fn materials_resolvable(&self) -> (r: bool)
        ensures
            r == self.materials_wf(),
    {
        if self.medium.get() == 0 || (self.medium.get() as usize) > self.materials.len() {
            return false;
        }
        let mut j: usize = 0;
        while j < self.surfaces.len()
            invariant
                j <= self.surfaces@.len(),
                self.medium.wf(),
                self.medium.value as int <= self.materials@.len(),
                forall|k: int|
                    0 <= k < j ==> (#[trigger] spec_mi_slot(self.surfaces@[k])) as int
                        <= self.materials@.len(),
            decreases self.surfaces@.len() - j,
        {
            let slot: u32 = self.surfaces[j].data().get(MATERIAL_INDEX);
            if (slot as usize) > self.materials.len() {
                proof {
                    assert(spec_mi_slot(self.surfaces@[j as int]) as int > self.materials@.len());
                }
                return false;
            }
            j = j + 1;
        }
        true
    }

    /// The per-surface contributions to the total thickness, in surface
    /// order: thickness words for spherical surfaces, z-translation words
    /// for coordinate breaks, the zero word for the reference planes. The
    /// aggregate is their (floating-point) sum, not a geometric path
    /// length.
    pub fn thickness_terms(&self) -> (r: Vec<u32>)
        ensures
            r@.len() == self.surfaces@.len(),
            forall|j: int|
                0 <= j < r@.len() ==> r@[j] == spec_thickness_term(#[trigger] self.surfaces@[j]),
    {
        let mut terms: Vec<u32> = Vec::new();
        let mut i: usize = 0;
        while i < self.surfaces.len()
            invariant
                i <= self.surfaces@.len(),
                terms@.len() == i,
                forall|j: int|
                    0 <= j < i ==> terms@[j] == spec_thickness_term(#[trigger] self.surfaces@[j]),
            decreases self.surfaces@.len() - i,
        {
            let s = &self.surfaces[i];
            let term: u32 = match s.kind() {
                SurfaceKind::Spherical => s.data().get(THICKNESS),
                SurfaceKind::CoordinateBreak => s.data().get(TRANSLATION_Z),
                _ => 0u32,
            };
            terms.push(term);
            i = i + 1;
        }
        terms
    }

    /// Walks the surfaces and collects the operands of the thin-element
    /// power recurrence: `None` exactly where the query is unavailable —
    /// the chain is empty, a surface other than spherical or image stands
    /// after the object position, or no image surface is met. The steps
    /// carry material rows, not indices: the caller resolves each row,
    /// treating a missing row as a fatal configuration error (see
    /// [`System::materials_resolvable`]).
    pub fn power_plan(&self) -> (r: Option<Vec<PowerStep>>)
        requires
            self.medium.wf(),
        ensures
            r is Some <==> self.spec_power_plan() is Some,
            r matches Some(steps) ==> self.spec_power_plan() == Some(steps@),
    {
        if self.surfaces.len() == 0 {
            return None;
        }
        let row0: usize = (self.medium.get() - 1) as usize;
        let first_mi: Option<MaterialIndex> = self.surfaces[0].data().get(MATERIAL_INDEX);
        let mut row: usize = match first_mi {
            Some(m) => (m.get() - 1) as usize,
            None => row0,
        };
        let mut thickness: u32 = 0;
        let mut steps: Vec<PowerStep> = Vec::new();
        let mut i: usize = 1;
        proof {
            let p = spec_plan_from(self.surfaces@, 1, row, 0u32);
            if p is Some {
                assert(Seq::<PowerStep>::empty() + p->Some_0 =~= p->Some_0);
            }
        }
        while i < self.surfaces.len()
            invariant
                1 <= i <= self.surfaces@.len(),
                self.surfaces@.len() > 0,
                self.spec_power_plan() == plan_append(
                    steps@,
                    spec_plan_from(self.surfaces@, i as int, row, thickness),
                ),
            decreases self.surfaces@.len() - i,
        {
            let s = &self.surfaces[i];
            let prev_row = row;
            let prev_thickness = thickness;
            let mi: Option<MaterialIndex> = s.data().get(MATERIAL_INDEX);
            if let Some(m) = mi {
                row = (m.get() - 1) as usize;
            }
            thickness = s.data().get(THICKNESS);
            match s.kind() {
                SurfaceKind::Spherical => {
                    let step = PowerStep {
                        curvature: s.data().get(CURVATURE),
                        prev_thickness,
                        prev_material: prev_row,
                        material: row,
                    };
                    let ghost steps_before = steps@;
                    steps.push(step);
                    proof {
                        let rest = spec_plan_from(self.surfaces@, i + 1, row, thickness);
                        if rest is Some {
                            assert(steps_before + (seq![step] + rest->Some_0) =~= steps@
                                + rest->Some_0);
                        }
                    }
                },
                SurfaceKind::Image => {
                    proof {
                        assert(steps@ + Seq::<PowerStep>::empty() =~= steps@);
                    }
                    return Some(steps);
                },
                _ => {
                    return None;
                },
            }
            i = i + 1;
        }
        None
    }
}

/// A traversal that meets no image surface yields no plan.
proof fn lemma_plan_from_no_image(surfaces: Seq<Surface>, i: int, row: usize, thickness: u32)
    requires
        forall|j: int|
            i <= j < surfaces.len() ==> (#[trigger] surfaces[j].spec_kind()) != SurfaceKind::Image,
    ensures
        spec_plan_from(surfaces, i, row, thickness) is None,
    decreases surfaces.len() - i,
{
    if 0 <= i < surfaces.len() {
        let s = surfaces[i];
        if s.spec_kind() == SurfaceKind::Spherical {
            let new_row = spec_resolve_row(spec_mi_slot(s), row);
            let new_thickness = s.spec_data()@[THICKNESS as int];
            lemma_plan_from_no_image(surfaces, i + 1, new_row, new_thickness);
        }
    }
}

/// A system with no image surface after the object position has no power:
/// the power query is unavailable at every wavelength, since the plan
/// already fails before any refractive index is evaluated.
pub proof fn lemma_power_unavailable_without_image(sys: System)
    requires
        forall|j: int|
            1 <= j < sys.surfaces@.len() ==> (#[trigger] sys.surfaces@[j].spec_kind())
                != SurfaceKind::Image,
    ensures
        sys.spec_power_plan() is None,
{
    if sys.surfaces@.len() > 0 {
        let row0 = (sys.medium.value - 1) as usize;
        let row1 = spec_resolve_row(spec_mi_slot(sys.surfaces@[0]), row0);
        lemma_plan_from_no_image(sys.surfaces@, 1, row1, 0u32);
    }
}

/// Rows stay inside the material table along a traversal that starts
/// inside it, provided every surface's material slot resolves.
proof fn lemma_plan_from_rows(
    surfaces: Seq<Surface>,
    i: int,
    row: usize,
    thickness: u32,
    table_len: int,
)
    requires
        row < table_len,
        forall|j: int|
            0 <= j < surfaces.len() ==> (#[trigger] spec_mi_slot(surfaces[j])) as int <= table_len,
    ensures
        spec_plan_from(surfaces, i, row, thickness) matches Some(steps) ==> forall|s: int|
            0 <= s < steps.len() ==> (#[trigger] steps[s]).prev_material < table_len
                && steps[s].material < table_len,
    decreases surfaces.len() - i,
{
    if 0 <= i < surfaces.len() {
        let s = surfaces[i];
        let new_row = spec_resolve_row(spec_mi_slot(s), row);
        let new_thickness = s.spec_data()@[THICKNESS as int];
        if s.spec_kind() == SurfaceKind::Spherical {
            lemma_plan_from_rows(surfaces, i + 1, new_row, new_thickness, table_len);
        }
    }
}

/// In a system whose material references all resolve, every step of the
/// power plan names material rows inside the table: folding the recurrence
/// never reads past the material table.
pub proof fn lemma_plan_rows_resolve(sys: System)
    requires
        sys.materials_wf(),
    ensures
        sys.spec_power_plan() matches Some(steps) ==> forall|s: int|
            0 <= s < steps.len() ==> (#[trigger] steps[s]).prev_material
                < sys.materials@.len() && steps[s].material < sys.materials@.len(),
{
    if sys.surfaces@.len() > 0 {
        let row0 = (sys.medium.value - 1) as usize;
        let row1 = spec_resolve_row(spec_mi_slot(sys.surfaces@[0]), row0);
        lemma_plan_from_rows(sys.surfaces@, 1, row1, 0u32, sys.materials@.len() as int);
    }
}

/// A traversal over spherical surfaces only, up to an image surface, yields
/// a plan with one step per spherical surface.
proof fn lemma_plan_from_spherical_run(
    surfaces: Seq<Surface>,
    i: int,
    row: usize,
    thickness: u32,
    j: int,
)
    requires
        0 <= i <= j < surfaces.len(),
        surfaces[j].spec_kind() == SurfaceKind::Image,
        forall|k: int| i <= k < j ==> (#[trigger] surfaces[k].spec_kind()) == SurfaceKind::Spherical,
    ensures
        spec_plan_from(surfaces, i, row, thickness) matches Some(steps) && steps.len() == j - i,
    decreases j - i,
{
    let s = surfaces[i];
    if i == j {
    } else {
        let new_row = spec_resolve_row(spec_mi_slot(s), row);
        let new_thickness = s.spec_data()@[THICKNESS as int];
        lemma_plan_from_spherical_run(surfaces, i + 1, new_row, new_thickness, j);
    }
}

/// A system shaped object-then-sphericals-then-image always has a power
/// plan, with one recurrence step per spherical surface; whether the folded
/// value is finite is then a property of the floating-point data alone.
pub proof fn lemma_power_available_spherical_chain(sys: System, j: int)
    requires
        1 <= j < sys.surfaces@.len(),
        sys.surfaces@[j].spec_kind() == SurfaceKind::Image,
        forall|k: int|
            1 <= k < j ==> (#[trigger] sys.surfaces@[k].spec_kind()) == SurfaceKind::Spherical,
    ensures
        sys.spec_power_plan() matches Some(steps) && steps.len() == j - 1,
{
    let row0 = (sys.medium.value - 1) as usize;
    let row1 = spec_resolve_row(spec_mi_slot(sys.surfaces@[0]), row0);
    lemma_plan_from_spherical_run(sys.surfaces@, 1, row1, 0u32, j);
}

impl Default for System {
    /// The example system: an object plane 100 units out in vacuum, a
    /// biconvex N-BK7 element cemented to SF2 (two spherical surfaces of
    /// radius ±100 and thickness 10 each), and the image plane, traced at
    /// the helium d line.
    fn default() -> (r: System)
        ensures
            r.surfaces@.len() == 4,
            r.surfaces@[0].spec_kind() == SurfaceKind::Object,
            r.surfaces@[0].spec_data()@ == zeroed_words().update(THICKNESS as int, W_100_0).update(
                SEMI_DIAMETER as int,
                W_10_0,
            ),
            r.surfaces@[1].spec_kind() == SurfaceKind::Spherical,
            r.surfaces@[1].spec_data()@ == zeroed_words().update(MATERIAL_INDEX as int, 3u32).update(
                THICKNESS as int,
                W_10_0,
            ).update(CURVATURE as int, W_0_01).update(SEMI_DIAMETER as int, W_10_0),
            r.surfaces@[2].spec_kind() == SurfaceKind::Spherical,
            r.surfaces@[2].spec_data()@ == zeroed_words().update(MATERIAL_INDEX as int, 1u32).update(
                THICKNESS as int,
                W_10_0,
            ).update(CURVATURE as int, W_NEG_0_01).update(SEMI_DIAMETER as int, W_10_0),
            r.surfaces@[3].spec_kind() == SurfaceKind::Image,
            r.surfaces@[3].spec_data()@ == zeroed_words(),
            r.materials@.len() == 4,
            r.materials@[0].spec_name() == "Vacuum"@,
            r.materials@[0].spec_formula() == (Formula::Constant { cte: W_1_0 }),
            r.materials@[1].spec_name() == "Air"@,
            r.materials@[1].spec_formula() matches Formula::Sellmeier4 { a, k, l } && a == W_1_0
                && k@ == seq![0x391C_83DBu32, 0x39DB_312Cu32]
                && l@ == seq![0x37A2_6749u32, 0x3BF3_98E9u32],
            r.materials@[2].spec_name() == "N-BK7"@,
            r.materials@[2].spec_formula() matches Formula::Sellmeier1 { k, l }
                && k@ == seq![0x3F85_1203u32, 0x3E6D_5AF9u32, 0x3F81_5710u32]
                && l@ == seq![0x3BC4_A182u32, 0x3CA3_FC9Cu32, 0x42CF_1F0Eu32],
            r.materials@[3].spec_name() == "SF2"@,
            r.materials@[3].spec_formula() matches Formula::Sellmeier1 { k, l }
                && k@ == seq![0x3FB3_961Au32, 0x3E6D_5476u32, 0x3F70_6603u32]
                && l@ == seq![0x3C2D_55D6u32, 0x3D4A_0699u32, 0x42E0_CFD9u32],
            r.stop_index == 0,
            r.medium.value == 1,
            r.wavelengths@ == seq![W_D_LINE],
    {
        let object = Surface::new(
            SurfaceKind::Object,
            SurfaceData::default().with(THICKNESS, W_100_0).with(SEMI_DIAMETER, W_10_0),
        );
        let front = Surface::new(
            SurfaceKind::Spherical,
            SurfaceData::default().with(MATERIAL_INDEX, 3u32).with(THICKNESS, W_10_0).with(
                CURVATURE,
                W_0_01,
            ).with(SEMI_DIAMETER, W_10_0),
        );
        let back = Surface::new(
            SurfaceKind::Spherical,
            SurfaceData::default().with(MATERIAL_INDEX, 1u32).with(THICKNESS, W_10_0).with(
                CURVATURE,
                W_NEG_0_01,
            ).with(SEMI_DIAMETER, W_10_0),
        );
        let image = Surface::new(SurfaceKind::Image, SurfaceData::default());

        let vacuum = Material::new(
            String::from_str("Vacuum"),
            Formula::Constant { cte: W_1_0 },
        );
        let air = Material::new(
            String::from_str("Air"),
            Formula::Sellmeier4 {
                a: W_1_0,
                k: [0x391C_83DB, 0x39DB_312C],
                l: [0x37A2_6749, 0x3BF3_98E9],
            },
        );
        let n_bk7 = Material::new(
            String::from_str("N-BK7"),
            Formula::Sellmeier1 {
                k: [0x3F85_1203, 0x3E6D_5AF9, 0x3F81_5710],
                l: [0x3BC4_A182, 0x3CA3_FC9C, 0x42CF_1F0E],
            },
        );
        let sf2 = Material::new(
            String::from_str("SF2"),
            Formula::Sellmeier1 {
                k: [0x3FB3_961A, 0x3E6D_5476, 0x3F70_6603],
                l: [0x3C2D_55D6, 0x3D4A_0699, 0x42E0_CFD9],
            },
        );

        let medium = MaterialIndex { value: 1 };
        let surfaces = vec![object, front, back, image];
        let materials = vec![vacuum, air, n_bk7, sf2];
        let wavelengths = vec![W_D_LINE];
        System { surfaces, materials, stop_index: 0, medium, wavelengths }
    }
}

} // verus!
