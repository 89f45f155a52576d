//! One surface: an immutable kind tag paired with its slot record.
//!
//! The kind is fixed at construction and never changes afterwards; the slot
//! record stays freely editable through [`Surface::data_mut`]. Replacing the
//! kind means constructing a new surface.

use crate::field::{
    ROTATION_ORDER, ROTATION_X, ROTATION_Y, ROTATION_Z, THICKNESS, TRANSLATION_X, TRANSLATION_Y,
    TRANSLATION_Z,
};
use crate::surface_data::{zeroed_words, SurfaceData};
use crate::surface_kind::SurfaceKind;
use vstd::prelude::*;

verus! {

/// What one surface contributes to the accumulated rigid transform as the
/// traversal passes it. All words are IEEE-754 single-precision bit
/// patterns; composing the actual matrices is floating-point work left to
/// the caller.
#[derive(Debug, Clone, Copy, PartialEq, Eq, Structural)]
pub enum TransformContribution {
    /// The object and image planes leave the frame where it is.
    Identity,
    /// A spherical surface advances the frame by its thickness along the
    /// local z axis.
    TranslationZ {
        /// The thickness word.
        thickness: u32,
    },
    /// A coordinate break translates the frame, then rotates it about the
    /// three axes in the order the `order` slot selects (see
    /// [`crate::surface_kind::rotation_axes`]); an order outside 0..=5 is
    /// an invalid configuration.
    Break {
        /// The x-translation word.
        tx: u32,
        /// The y-translation word.
        ty: u32,
        /// The z-translation word.
        tz: u32,
        /// The raw rotation-order slot value.
        order: u32,
        /// The x-rotation word, in degrees.
        rx: u32,
        /// The y-rotation word, in degrees.
        ry: u32,
        /// The z-rotation word, in degrees.
        rz: u32,
    },
}

/// A surface of the sequential system: a kind tag plus 32 parameter slots.
#[derive(Debug, Clone)]
pub struct Surface {
    pub(crate) kind: SurfaceKind,
    pub(crate) data: SurfaceData,
}

impl Surface {
    /// The kind tag.
    pub closed spec fn spec_kind(self) -> SurfaceKind {
        self.kind
    }

    /// The slot record.
    pub closed spec fn spec_data(self) -> SurfaceData {
        self.data
    }

    /// Pairs a kind with a slot record.
    pub fn new(kind: SurfaceKind, data: SurfaceData) -> (r: Surface)
        ensures
            r.spec_kind() == kind,
            r.spec_data() == data,
    {
        Surface { kind, data }
    }

    /// The kind tag; immutable for the surface's lifetime.
    pub fn kind(&self) -> (r: SurfaceKind)
        ensures
            r == self.spec_kind(),
    {
        self.kind
    }

    /// A borrow of the slot record.
    pub fn data(&self) -> (r: &SurfaceData)
        ensures
            *r == self.spec_data(),
    {
        &self.data
    }

    /// A mutable borrow of the slot record; the kind stays as it was.
    pub fn data_mut(&mut self) -> (r: &mut SurfaceData)
        ensures
            *r == old(self).spec_data(),
            final(self).spec_data() == *final(r),
            final(self).spec_kind() == old(self).spec_kind(),
    {
        &mut self.data
    }

    /// The transform contribution the surface's slots describe.
    pub open spec fn spec_transform_contribution(self) -> TransformContribution {
        match self.spec_kind() {
            SurfaceKind::Spherical => TransformContribution::TranslationZ {
                thickness: self.spec_data()@[THICKNESS as int],
            },
            SurfaceKind::CoordinateBreak => TransformContribution::Break {
                tx: self.spec_data()@[TRANSLATION_X as int],
                ty: self.spec_data()@[TRANSLATION_Y as int],
                tz: self.spec_data()@[TRANSLATION_Z as int],
                order: self.spec_data()@[ROTATION_ORDER as int],
                rx: self.spec_data()@[ROTATION_X as int],
                ry: self.spec_data()@[ROTATION_Y as int],
                rz: self.spec_data()@[ROTATION_Z as int],
            },
            _ => TransformContribution::Identity,
        }
    }

    /// How the surface advances the local frame: the identity for the
    /// reference planes, a z translation for a spherical surface, and the
    /// translation-then-ordered-rotations of a coordinate break.
    pub fn transform_contribution(&self) -> (r: TransformContribution)
        ensures
            r == self.spec_transform_contribution(),
    {
        match self.kind {
            SurfaceKind::Spherical => TransformContribution::TranslationZ {
                thickness: self.data.get(THICKNESS),
            },
            SurfaceKind::CoordinateBreak => TransformContribution::Break {
                tx: self.data.get(TRANSLATION_X),
                ty: self.data.get(TRANSLATION_Y),
                tz: self.data.get(TRANSLATION_Z),
                order: self.data.get(ROTATION_ORDER),
                rx: self.data.get(ROTATION_X),
                ry: self.data.get(ROTATION_Y),
                rz: self.data.get(ROTATION_Z),
            },
            _ => TransformContribution::Identity,
        }
    }

    /// Whether the kind has a ray-intersection routine. Only spherical
    /// surfaces intersect rays; asking any other kind is an unsupported
    /// operation, not a zero result.
    pub fn supports_intersect(&self) -> (r: bool)
        ensures
            r <==> self.spec_kind() == SurfaceKind::Spherical,
    {
        match self.kind {
            SurfaceKind::Spherical => true,
            _ => false,
        }
    }
}

impl Default for Surface {
    /// A fresh spherical surface with an all-zero slot record.
    fn default() -> (r: Surface)
        ensures
            r.spec_kind() == SurfaceKind::Spherical,
            r.spec_data()@ == zeroed_words(),
    {
        Surface::new(SurfaceKind::Spherical, SurfaceData::default())
    }
}

} // verus!
