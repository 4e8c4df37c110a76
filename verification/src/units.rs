//! Unit-typed integers. Each wraps one integer, so that values of different
//! units cannot be mixed by accident.

use core::ops::Sub;
use vstd::prelude::*;
use vstd::std_specs::ops::SubSpecImpl;
use vstd::string::{to_string_from_display_ensures, StringExecFns};

verus! {

/// A current in amperes.
#[derive(Debug, PartialEq, Eq, PartialOrd, Ord, Clone, Copy, Structural)]
pub struct Amperes(pub u32);

/// A signed current in milliamperes.
#[derive(Debug, PartialEq, Eq, PartialOrd, Ord, Clone, Copy, Structural)]
pub struct MilliAmperes(pub i32);

/// A resistance in microohms.
#[derive(Debug, PartialEq, Eq, PartialOrd, Ord, Clone, Copy, Structural)]
pub struct MicroOhms(pub u32);

/// A voltage in millivolts.
#[derive(Debug, PartialEq, Eq, PartialOrd, Ord, Clone, Copy, Structural)]
pub struct MilliVolts(pub u32);

/// A temperature reading.
#[derive(Debug, PartialEq, Eq, PartialOrd, Ord, Clone, Copy, Structural)]
pub struct DegreesCentigrade(pub i32);

impl Sub for MilliVolts {
    type Output = MilliVolts;

    /// The difference of two voltages. The right-hand side must not be
    /// the greater one.
    fn sub(self, rhs: Self) -> (difference: MilliVolts) {
        MilliVolts(self.0 - rhs.0)
    }
}

impl SubSpecImpl for MilliVolts {
    open spec fn obeys_sub_spec() -> bool {
        true
    }

    open spec fn sub_req(self, rhs: MilliVolts) -> bool {
        self.0 >= rhs.0
    }

    open spec fn sub_spec(self, rhs: MilliVolts) -> MilliVolts {
        MilliVolts((self.0 - rhs.0) as u32)
    }
}

/// `text` is `number`, as the standard library prints it, followed by
/// `unit`.
pub open spec fn is_quantity_text<T: core::fmt::Display>(
    number: &T,
    unit: Seq<char>,
    text: Seq<char>,
) -> bool {
    exists|digits: String| #[trigger]
        to_string_from_display_ensures::<T>(number, digits) && text == digits@ + unit
}

impl Amperes {
    /// The current as text: the number, then `A`.
    pub fn to_text(&self) -> (text: String)
        ensures
            is_quantity_text(&self.0, "A"@, text@),
    {
        let digits = self.0.to_string();
        let ghost shown = digits;
        let text = digits.concat("A");
        assert(to_string_from_display_ensures::<u32>(&self.0, shown) && text@ == shown@ + "A"@);
        text
    }
}

impl MilliAmperes {
    /// The current as text: the number, then `mA`.
    pub fn to_text(&self) -> (text: String)
        ensures
            is_quantity_text(&self.0, "mA"@, text@),
    {
        let digits = self.0.to_string();
        let ghost shown = digits;
        let text = digits.concat("mA");
        assert(to_string_from_display_ensures::<i32>(&self.0, shown) && text@ == shown@ + "mA"@);
        text
    }
}

impl MilliVolts {
    /// The voltage as text: the number, then `mV`.
    pub fn to_text(&self) -> (text: String)
        ensures
            is_quantity_text(&self.0, "mV"@, text@),
    {
        let digits = self.0.to_string();
        let ghost shown = digits;
        let text = digits.concat("mV");
        assert(to_string_from_display_ensures::<u32>(&self.0, shown) && text@ == shown@ + "mV"@);
        text
    }
}

impl DegreesCentigrade {
    /// The temperature as text: the number, then `degC`.
    pub fn to_text(&self) -> (text: String)
        ensures
            is_quantity_text(&self.0, "degC"@, text@),
    {
        let digits = self.0.to_string();
        let ghost shown = digits;
        let text = digits.concat("degC");
        assert(to_string_from_display_ensures::<i32>(&self.0, shown) && text@ == shown@
            + "degC"@);
        text
    }
}

} // verus!
