//! Storage slots and the typed values they can hold.
//!
//! A surface stores its parameters in a fixed array of uniform 32-bit slots
//! (see [`crate::surface_data::SurfaceData`]). Which slot means what is fixed
//! by the surface kind and the named indices below; the value in a slot is
//! reinterpreted as one of a small set of types, each exactly one word wide.
//! The encodings here are total and bit-exact, so a record round-trips
//! through the flat word array unchanged.

use crate::material::MaterialIndex;
use vstd::prelude::*;

verus! {

/// Slot of a surface's thickness: distance to the next surface along the
/// local z axis, an IEEE-754 single-precision bit pattern.
pub const THICKNESS: usize = 0;

/// Slot of the optional material index (zero word means "inherit").
pub const MATERIAL_INDEX: usize = 1;

/// Slot of a spherical surface's curvature (reciprocal radius), an IEEE-754
/// single-precision bit pattern.
pub const CURVATURE: usize = 2;

/// Slot of the clear-aperture half-width, an IEEE-754 single-precision bit
/// pattern.
pub const SEMI_DIAMETER: usize = 3;

/// Slot of a coordinate break's rotation order, an enumeration in 0..=5.
pub const ROTATION_ORDER: usize = 4;

/// Slot of a coordinate break's x translation, an IEEE-754 single-precision
/// bit pattern.
pub const TRANSLATION_X: usize = 5;

/// Slot of a coordinate break's y translation.
pub const TRANSLATION_Y: usize = 6;

/// Slot of a coordinate break's z translation.
pub const TRANSLATION_Z: usize = 7;

/// Slot of a coordinate break's rotation about x, in degrees, an IEEE-754
/// single-precision bit pattern.
pub const ROTATION_X: usize = 8;

/// Slot of a coordinate break's rotation about y, in degrees.
pub const ROTATION_Y: usize = 9;

/// Slot of a coordinate break's rotation about z, in degrees.
pub const ROTATION_Z: usize = 10;

/// One uniform 32-bit storage slot.
///
/// The wrapped word is the slot's raw bit pattern; a typed reading of it is
/// made through [`FieldValue`].
#[derive(Debug, Clone, Copy, PartialEq, Eq, Structural)]
pub struct Field(pub u32);

impl Field {
    /// A borrow of the raw word.
    pub fn as_ref(&self) -> (r: &u32)
        ensures
            *r == self.0,
    {
        &self.0
    }

    /// A mutable borrow of the raw word.
    pub fn as_mut(&mut self) -> (r: &mut u32)
        ensures
            *r == old(self).0,
            final(self).0 == *final(r),
    {
        &mut self.0
    }
}

/// A typed value that one storage slot can hold.
///
/// `to_bits` and `from_bits` fix the slot encoding of the type; encoding a
/// well-formed value and decoding the word again yields the value back
/// ([`FieldValue::lemma_bits_roundtrip`]), and decoding always yields a
/// well-formed value, so the zero-word sentinel of the optional material
/// index survives the reinterpretation exactly.
pub trait FieldValue: Sized {
    /// The word a value is stored as.
    spec fn to_bits(self) -> u32;

    /// The value a word is read as.
    spec fn from_bits(bits: u32) -> Self;

    /// The values the encoding is faithful on (everything, for plain words).
    spec fn wf(self) -> bool;

    /// Reading back the word a well-formed value was stored as yields the
    /// value itself.
    proof fn lemma_bits_roundtrip(self)
        requires
            self.wf(),
        ensures
            Self::from_bits(self.to_bits()) == self,
    ;

    /// Stores the value as a word.
    fn encode(self) -> (bits: u32)
        requires
            self.wf(),
        ensures
            bits == self.to_bits(),
    ;

    /// Reads a word as a value.
    fn decode(bits: u32) -> (v: Self)
        ensures
            v == Self::from_bits(bits),
            v.wf(),
    ;
}

impl FieldValue for u32 {
    open spec fn to_bits(self) -> u32 {
        self
    }

    open spec fn from_bits(bits: u32) -> u32 {
        bits
    }

    open spec fn wf(self) -> bool {
        true
    }

    proof fn lemma_bits_roundtrip(self) {
    }

    fn encode(self) -> u32 {
        self
    }

    fn decode(bits: u32) -> u32 {
        bits
    }
}

impl FieldValue for i32 {
    open spec fn to_bits(self) -> u32 {
        self as u32
    }

    open spec fn from_bits(bits: u32) -> i32 {
        bits as i32
    }

    open spec fn wf(self) -> bool {
        true
    }

    proof fn lemma_bits_roundtrip(self) {
        assert((self as u32) as i32 == self) by (bit_vector);
    }

    fn encode(self) -> u32 {
        self as u32
    }

    fn decode(bits: u32) -> i32 {
        bits as i32
    }
}

impl FieldValue for Option<MaterialIndex> {
    open spec fn to_bits(self) -> u32 {
        match self {
            None => 0,
            Some(m) => m.value,
        }
    }

    open spec fn from_bits(bits: u32) -> Option<MaterialIndex> {
        if bits == 0 {
            None
        } else {
            Some(MaterialIndex { value: bits })
        }
    }

    open spec fn wf(self) -> bool {
        match self {
            None => true,
            Some(m) => m.wf(),
        }
    }

    proof fn lemma_bits_roundtrip(self) {
    }

    fn encode(self) -> u32 {
        match self {
            None => 0,
            Some(m) => m.get(),
        }
    }

    fn decode(bits: u32) -> Option<MaterialIndex> {
        if bits == 0 {
            None
        } else {
            Some(MaterialIndex { value: bits })
        }
    }
}

} // verus!
