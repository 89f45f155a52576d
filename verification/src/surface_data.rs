//! The per-surface parameter record: a fixed array of 32-bit slots.
//!
//! The record is deliberately flat — 32 uniform words, no padding, no tags —
//! so that it serializes to and from a plain word array for shader
//! consumption. Which slot holds which parameter is decided by the surface
//! kind's schema ([`crate::surface_kind::SurfaceKind::fields`]); a slot is
//! read and written only through the typed encodings of
//! [`crate::field::FieldValue`].

use crate::field::{Field, FieldValue};
use vstd::prelude::*;

verus! {

/// A surface's slot array. Its view is the sequence of the 32 raw words.
#[derive(Debug, Clone)]
pub struct SurfaceData(pub [Field; 32]);

impl View for SurfaceData {
    type V = Seq<u32>;

    open spec fn view(&self) -> Seq<u32> {
        self.0@.map_values(|f: Field| f.0)
    }
}

/// The words of an all-zero record.
pub open spec fn zeroed_words() -> Seq<u32> {
    Seq::new(32 as nat, |i: int| 0u32)
}

impl Default for SurfaceData {
    /// An all-zero record: every slot holds the reserved zero word.
    fn default() -> (r: SurfaceData)
        ensures
            r@ == zeroed_words(),
    {
        let r = SurfaceData([Field(0); 32]);
        proof {
            assert(r@ =~= zeroed_words());
        }
        r
    }
}

impl SurfaceData {
    /// Number of slots in a record.
    pub const LEN: usize = 32;

    /// Writes a typed value into one slot, returning the updated record
    /// (value semantics; the original record is consumed).
    pub fn with<T: FieldValue>(self, index: usize, value: T) -> (r: SurfaceData)
        requires
            index < 32,
            value.wf(),
        ensures
            r@ == self@.update(index as int, value.to_bits()),
    {
        let mut data = self;
        data.0[index] = Field(value.encode());
        proof {
            assert(data@ =~= self@.update(index as int, value.to_bits()));
        }
        data
    }

    /// Reads one slot as a typed value.
    pub fn get<T: FieldValue>(&self, index: usize) -> (v: T)
        requires
            index < 32,
        ensures
            v == T::from_bits(self@[index as int]),
            v.wf(),
    {
        T::decode(self.0[index].0)
    }

    /// The record as a flat word array, the shader-facing layout.
    pub fn to_words(&self) -> (r: [u32; 32])
        ensures
            r@ == self@,
    {
        let mut words = [0u32; 32];
        let mut i: usize = 0;
        while i < 32
            invariant
                i <= 32,
                words@.len() == 32,
                forall|j: int| 0 <= j < i ==> words@[j] == self@[j],
            decreases 32 - i,
        {
            words[i] = self.0[i].0;
            i = i + 1;
        }
        proof {
            assert(words@ =~= self@);
        }
        words
    }

    /// Rebuilds a record from its flat word array.
    pub fn from_words(words: [u32; 32]) -> (r: SurfaceData)
        ensures
            r@ == words@,
    {
        let mut fields = [Field(0); 32];
        let mut i: usize = 0;
        while i < 32
            invariant
                i <= 32,
                fields@.len() == 32,
                forall|j: int| 0 <= j < i ==> fields@[j].0 == words@[j],
            decreases 32 - i,
        {
            fields[i] = Field(words[i]);
            i = i + 1;
        }
        let r = SurfaceData(fields);
        proof {
            assert(r@ =~= words@);
        }
        r
    }
}

/// Writing a well-formed typed value and reading the same slot back under
/// the same type yields exactly the written value, for every slot index:
/// the slot encodings are bit-exact.
pub proof fn lemma_with_get_roundtrip<T: FieldValue>(data: SurfaceData, index: usize, value: T)
    requires
        index < 32,
        value.wf(),
    ensures
        T::from_bits(data@.update(index as int, value.to_bits())[index as int]) == value,
{
    value.lemma_bits_roundtrip();
}

/// The optional-material sentinel is exactly the zero word: an absent
/// material is stored as zero, the zero word reads back as absent, and a
/// well-formed material index `m` reads back as exactly `m`
/// ([`lemma_with_get_roundtrip`] instantiated at the optional material
/// encoding).
pub proof fn lemma_optional_material_sentinel(m: crate::material::MaterialIndex)
    requires
        m.wf(),
    ensures
        <Option<crate::material::MaterialIndex> as FieldValue>::to_bits(None) == 0,
        <Option<crate::material::MaterialIndex> as FieldValue>::from_bits(0) is None,
        <Option<crate::material::MaterialIndex> as FieldValue>::from_bits(
            <Option<crate::material::MaterialIndex> as FieldValue>::to_bits(Some(m)),
        ) == Some(m),
{
}

/// Writing one slot leaves every other slot's word unchanged.
pub proof fn lemma_with_frames_others<T: FieldValue>(
    data: SurfaceData,
    index: usize,
    value: T,
    other: int,
)
    requires
        index < 32,
        0 <= other < 32,
        other != index,
    ensures
        data@.update(index as int, value.to_bits())[other] == data@[other],
{
}

} // verus!
