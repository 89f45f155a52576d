//! Surface kinds, their field schemas, and the coordinate-break rotation
//! order.
//!
//! The kind set is closed and shader-portable: every kind-dependent
//! operation is an exhaustive match, never dynamic dispatch. A kind's schema
//! names the slots its geometry reads; the editor builds its grid from the
//! schema and the traversal queries read only scheduled slots.

use crate::field::{
    CURVATURE, MATERIAL_INDEX, ROTATION_ORDER, ROTATION_X, ROTATION_Y, ROTATION_Z, SEMI_DIAMETER,
    THICKNESS, TRANSLATION_X, TRANSLATION_Y, TRANSLATION_Z,
};
use vstd::prelude::*;

verus! {

/// The closed set of surface kinds.
#[derive(Debug, Clone, Copy, PartialEq, Eq, Structural)]
pub enum SurfaceKind {
    /// The object reference plane the system starts from.
    Object,
    /// The image reference plane the system ends on.
    Image,
    /// A refracting spherical cap, curvature stored as reciprocal radius.
    Spherical,
    /// A repositioning of the local frame: translation then ordered
    /// rotations. Contributes no optical interface.
    CoordinateBreak,
}

impl SurfaceKind {
    /// The display name, as a sequence of characters.
    pub open spec fn spec_name(self) -> Seq<char> {
        match self {
            SurfaceKind::Object => "Object"@,
            SurfaceKind::Image => "Image"@,
            SurfaceKind::Spherical => "Spherical"@,
            SurfaceKind::CoordinateBreak => "CoordinateBreak"@,
        }
    }

    /// The display name of the kind.
    pub fn name(&self) -> (r: &'static str)
        ensures
            r@ == self.spec_name(),
    {
        match self {
            SurfaceKind::Object => "Object",
            SurfaceKind::Image => "Image",
            SurfaceKind::Spherical => "Spherical",
            SurfaceKind::CoordinateBreak => "CoordinateBreak",
        }
    }

    /// The name scheduled for slot `index` under this kind, or `None` where
    /// the kind leaves the slot unused.
    pub open spec fn spec_field_name(self, index: int) -> Option<Seq<char>> {
        match self {
            SurfaceKind::Object => {
                if index == THICKNESS {
                    Some("thickness"@)
                } else if index == MATERIAL_INDEX {
                    Some("material_index"@)
                } else if index == SEMI_DIAMETER {
                    Some("semi_diameter"@)
                } else {
                    None
                }
            },
            SurfaceKind::Image => {
                if index == SEMI_DIAMETER {
                    Some("semi_diameter"@)
                } else {
                    None
                }
            },
            SurfaceKind::Spherical => {
                if index == CURVATURE {
                    Some("curvature"@)
                } else if index == THICKNESS {
                    Some("thickness"@)
                } else if index == MATERIAL_INDEX {
                    Some("material_index"@)
                } else if index == SEMI_DIAMETER {
                    Some("semi_diameter"@)
                } else {
                    None
                }
            },
            SurfaceKind::CoordinateBreak => {
                if index == TRANSLATION_X {
                    Some("translation_x"@)
                } else if index == TRANSLATION_Y {
                    Some("translation_y"@)
                } else if index == TRANSLATION_Z {
                    Some("translation_z"@)
                } else if index == ROTATION_ORDER {
                    Some("rotation_order"@)
                } else if index == ROTATION_X {
                    Some("rotation_x"@)
                } else if index == ROTATION_Y {
                    Some("rotation_y"@)
                } else if index == ROTATION_Z {
                    Some("rotation_z"@)
                } else {
                    None
                }
            },
        }
    }

    /// The kind's schema: one entry per slot, the scheduled field name or
    /// `None` for an unused slot.
    pub fn fields(&self) -> (r: Vec<Option<&'static str>>)
        ensures
            r@.len() == 32,
            forall|i: int| 0 <= i < 32 ==> #[trigger] name_view(r@[i]) == self.spec_field_name(i),
    {
        let mut fields: Vec<Option<&'static str>> = Vec::new();
        let mut i: usize = 0;
        while i < 32
            invariant
                i <= 32,
                fields@.len() == i,
                forall|j: int| 0 <= j < i ==> fields@[j] is None,
            decreases 32 - i,
        {
            fields.push(None);
            i = i + 1;
        }
        match self {
            SurfaceKind::Object => {
                fields[THICKNESS] = Some("thickness");
                fields[MATERIAL_INDEX] = Some("material_index");
                fields[SEMI_DIAMETER] = Some("semi_diameter");
            },
            SurfaceKind::Image => {
                fields[SEMI_DIAMETER] = Some("semi_diameter");
            },
            SurfaceKind::Spherical => {
                fields[CURVATURE] = Some("curvature");
                fields[THICKNESS] = Some("thickness");
                fields[MATERIAL_INDEX] = Some("material_index");
                fields[SEMI_DIAMETER] = Some("semi_diameter");
            },
            SurfaceKind::CoordinateBreak => {
                fields[TRANSLATION_X] = Some("translation_x");
                fields[TRANSLATION_Y] = Some("translation_y");
                fields[TRANSLATION_Z] = Some("translation_z");
                fields[ROTATION_ORDER] = Some("rotation_order");
                fields[ROTATION_X] = Some("rotation_x");
                fields[ROTATION_Y] = Some("rotation_y");
                fields[ROTATION_Z] = Some("rotation_z");
            },
        }
        fields
    }
}

/// The character view of a schema entry, for stating schema contracts.
pub open spec fn name_view(entry: Option<&str>) -> Option<Seq<char>> {
    match entry {
        None => None,
        Some(s) => Some(s@),
    }
}

/// One of the three coordinate axes a coordinate-break rotation turns about.
#[derive(Debug, Clone, Copy, PartialEq, Eq, Structural)]
pub enum RotationAxis {
    /// The local x axis.
    X,
    /// The local y axis.
    Y,
    /// The local z axis.
    Z,
}

/// The axis triple `(first, second, third)` that a rotation-order value in
/// 0..=5 selects, in the order the rotations are applied; `None` for an
/// out-of-range order, which is an invalid configuration.
pub open spec fn spec_rotation_axes(order: u32) -> Option<(RotationAxis, RotationAxis, RotationAxis)> {
    if order == 0 {
        Some((RotationAxis::X, RotationAxis::Y, RotationAxis::Z))
    } else if order == 1 {
        Some((RotationAxis::X, RotationAxis::Z, RotationAxis::Y))
    } else if order == 2 {
        Some((RotationAxis::Y, RotationAxis::X, RotationAxis::Z))
    } else if order == 3 {
        Some((RotationAxis::Y, RotationAxis::Z, RotationAxis::X))
    } else if order == 4 {
        Some((RotationAxis::Z, RotationAxis::X, RotationAxis::Y))
    } else if order == 5 {
        Some((RotationAxis::Z, RotationAxis::Y, RotationAxis::X))
    } else {
        None
    }
}

/// Decodes a rotation-order slot value into the axis triple
/// `(first, second, third)`, in application order: the coordinate-break
/// transform applies the first-axis rotation to the translated frame, then
/// the second, then the third. An order outside 0..=5 yields `None` and must
/// be treated as a fatal configuration error by the caller.
pub fn rotation_axes(order: u32) -> (r: Option<(RotationAxis, RotationAxis, RotationAxis)>)
    ensures
        r == spec_rotation_axes(order),
{
    if order == 0 {
        Some((RotationAxis::X, RotationAxis::Y, RotationAxis::Z))
    } else if order == 1 {
        Some((RotationAxis::X, RotationAxis::Z, RotationAxis::Y))
    } else if order == 2 {
        Some((RotationAxis::Y, RotationAxis::X, RotationAxis::Z))
    } else if order == 3 {
        Some((RotationAxis::Y, RotationAxis::Z, RotationAxis::X))
    } else if order == 4 {
        Some((RotationAxis::Z, RotationAxis::X, RotationAxis::Y))
    } else if order == 5 {
        Some((RotationAxis::Z, RotationAxis::Y, RotationAxis::X))
    } else {
        None
    }
}

} // verus!
