//! Display preferences for lengths and the SI prefixes they use.
//!
//! Rendering a value with these preferences is string and floating-point
//! work done by the front end; this module fixes the discrete choices — how
//! many decimal places, which prefix — and each prefix's decimal exponent
//! and symbol.

use vstd::prelude::*;

verus! {

/// An SI decimal prefix for length display.
#[derive(Debug, Clone, Copy, PartialEq, Eq, Structural)]
pub enum Prefix {
    /// 10^-9.
    Nano,
    /// 10^-6.
    Micro,
    /// 10^-3.
    Milli,
    /// 10^0, no prefix.
    Unit,
    /// 10^3.
    Kilo,
}

impl Prefix {
    /// The prefix's decimal exponent.
    pub open spec fn spec_exponent(self) -> i32 {
        match self {
            Prefix::Nano => -9i32,
            Prefix::Micro => -6i32,
            Prefix::Milli => -3i32,
            Prefix::Unit => 0i32,
            Prefix::Kilo => 3i32,
        }
    }

    /// The prefix's decimal exponent: the factor it scales by is ten to
    /// this power.
    pub fn exponent(&self) -> (r: i32)
        ensures
            r == self.spec_exponent(),
    {
        match self {
            Prefix::Nano => -9,
            Prefix::Micro => -6,
            Prefix::Milli => -3,
            Prefix::Unit => 0,
            Prefix::Kilo => 3,
        }
    }

    /// The symbol written before the unit.
    pub open spec fn spec_symbol(self) -> Seq<char> {
        match self {
            Prefix::Nano => "n"@,
            Prefix::Micro => "u"@,
            Prefix::Milli => "m"@,
            Prefix::Unit => ""@,
            Prefix::Kilo => "k"@,
        }
    }

    /// The symbol written before the unit.
    pub fn symbol(&self) -> (r: &'static str)
        ensures
            r@ == self.spec_symbol(),
    {
        match self {
            Prefix::Nano => "n",
            Prefix::Micro => "u",
            Prefix::Milli => "m",
            Prefix::Unit => "",
            Prefix::Kilo => "k",
        }
    }
}

/// How the front end renders length values.
#[derive(Debug, Clone, Copy, PartialEq, Eq, Structural)]
pub struct Formatting {
    /// Decimal places printed after the point.
    pub decimal_places: usize,
    /// The prefix length values are scaled to.
    pub length_prefix: Prefix,
}

impl Default for Formatting {
    /// Three decimal places, millimetre lengths.
    fn default() -> (r: Formatting)
        ensures
            r.decimal_places == 3,
            r.length_prefix == Prefix::Milli,
    {
        Formatting { decimal_places: 3, length_prefix: Prefix::Milli }
    }
}

} // verus!
