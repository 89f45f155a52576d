//! Materials and their dispersion formulas.
//!
//! A material pairs a display name with exactly one closed-form dispersion
//! formula. Formula coefficients are stored as the bit patterns of IEEE-754
//! single-precision values, so the record is a plain bag of 32-bit words;
//! evaluating a formula at a wavelength is floating-point work that the
//! front end performs from these coefficients.

use vstd::prelude::*;

verus! {

/// A 1-based row number into a system's material table.
///
/// The value is never zero: the all-zero bit pattern is reserved at the
/// storage level to mean "no explicit material" (see
/// [`crate::field::MATERIAL_INDEX`]). Well-formedness is the contract-level
/// predicate [`MaterialIndex::wf`]; every constructor and decoder of this
/// crate establishes it.
#[derive(Debug, Clone, Copy, PartialEq, Eq, Structural)]
pub struct MaterialIndex {
    pub value: u32,
}

impl MaterialIndex {
    /// A material index is well formed when it avoids the reserved zero word.
    pub open spec fn wf(self) -> bool {
        self.value != 0
    }

    /// Builds an index from a raw word; zero is not a valid index.
    pub fn new(value: u32) -> (r: Option<MaterialIndex>)
        ensures
            value == 0 ==> r is None,
            value != 0 ==> (r matches Some(m) && m.value == value),
    {
        if value == 0 {
            None
        } else {
            Some(MaterialIndex { value })
        }
    }

    /// The raw 1-based row number.
    pub fn get(&self) -> (r: u32)
        ensures
            r == self.value,
    {
        self.value
    }
}

/// A closed-form refractive-index formula.
///
/// Each variant carries its own coefficients, stored as the bit patterns of
/// IEEE-754 single-precision values. The variants and their closed forms are
/// fixed; a formula is immutable once constructed.
#[derive(Debug, Clone)]
pub enum Formula {
    /// A fixed refractive index, independent of wavelength.
    Constant { cte: u32 },
    /// n = sqrt(a0 + a1 L^2 + a2 L^-2 + a3 L^-4 + a4 L^-6 + a5 L^-8).
    Schott { a: [u32; 6] },
    /// n = sqrt(1 + sum of k_i L^2 / (L^2 - l_i)) over three terms.
    Sellmeier1 { k: [u32; 3], l: [u32; 3] },
    /// n = sqrt(a + b0 L^2 / (L^2 - r0^2) + b1 / (L^2 - r1^2)).
    Sellmeier2 { a: u32, b: [u32; 2], ref_lambda: [u32; 2] },
    /// As Sellmeier1, summed over four terms.
    Sellmeier3 { k: [u32; 4], l: [u32; 4] },
    /// n = sqrt(a + k0 L^2 / (L^2 - l0) + k1 L^2 / (L^2 - l1)).
    Sellmeier4 { a: u32, k: [u32; 2], l: [u32; 2] },
    /// Five terms of coefficient storage; the summation covers the first
    /// four terms only, which matches the historical behaviour of the
    /// formula table this crate reproduces.
    Sellmeier5 { k: [u32; 5], l: [u32; 5] },
    /// With H = 1 / (L^2 - 0.028):
    /// n = c0 + c1 H + c2 H^2 + c3 L^2 + c4 L^4 + c5 L^6.
    Herzberger { c: [u32; 6] },
    /// n = n0 + a / L + b / L^3.5.
    Conrady { n0: u32, a: u32, b: u32 },
    /// n = sqrt(a + b / (L^2 - c) - d L^2).
    Handbook1 { a: u32, b: u32, c: u32, d: u32 },
    /// n = sqrt(a + b L^2 / (L^2 - c) - d L^2).
    Handbook2 { a: u32, b: u32, c: u32, d: u32 },
    /// n = sqrt(a0 + a1 L^2 + sum of a_i L^(-2(i-1)) for i >= 2).
    Extended { a: [u32; 8] },
}

/// A named material with one dispersion formula.
#[derive(Debug, Clone)]
pub struct Material {
    name: String,
    formula: Formula,
}

impl Material {
    /// The display name, as a sequence of characters.
    pub closed spec fn spec_name(self) -> Seq<char> {
        self.name@
    }

    /// The formula the material disperses by.
    pub closed spec fn spec_formula(self) -> Formula {
        self.formula
    }

    /// Pairs a display name with a dispersion formula.
    pub fn new(name: String, formula: Formula) -> (r: Material)
        ensures
            r.spec_name() == name@,
            r.spec_formula() == formula,
    {
        Material { name, formula }
    }

    /// The display name.
    pub fn name(&self) -> (r: &str)
        ensures
            r@ == self.spec_name(),
    {
        self.name.as_str()
    }

    /// The dispersion formula.
    pub fn formula(&self) -> (r: &Formula)
        ensures
            *r == self.spec_formula(),
    {
        &self.formula
    }
}

} // verus!
