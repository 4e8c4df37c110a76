//! The system status register: a snapshot of its bits with named
//! accessors, and the set of bits to clear.

use vstd::prelude::*;
use vstd::string::StringExecFns;

verus! {

/// Bit 7: a fresh coulomb-counter reading is available.
pub const CC_READY: u8 = 0b1000_0000;

/// Bit 5: the device reports an internal fault.
pub const DEVICE_XREADY: u8 = 0b0010_0000;

/// Bit 4: the alert pin is driven from outside.
pub const OVRD_ALERT: u8 = 0b0001_0000;

/// Bit 3: under-voltage.
pub const UNDERVOLTAGE: u8 = 0b0000_1000;

/// Bit 2: over-voltage.
pub const OVERVOLTAGE: u8 = 0b0000_0100;

/// Bit 1: short circuit in discharge.
pub const SHORTCIRCUIT: u8 = 0b0000_0010;

/// Bit 0: over-current in discharge.
pub const OVERCURRENT: u8 = 0b0000_0001;

/// Every bit that the status register defines.
pub const ALL: u8 = 0b1011_1111;

/// The bits that report a fault: all but bit 7.
pub const FAULTS: u8 = 0b0011_1111;

/// A snapshot of the status register.
pub struct Stat {
    bits: u8,
}

/// `text` when `on`, nothing otherwise.
pub open spec fn text_if(on: bool, text: Seq<char>) -> Seq<char> {
    if on {
        text
    } else {
        Seq::empty()
    }
}

impl Stat {
    /// The register byte that the snapshot holds.
    pub closed spec fn raw(&self) -> u8 {
        self.bits
    }

    /// The text of a snapshot: the names of the bits that are set, from
    /// bit 7 down, each followed by a comma and a space, in parentheses.
    pub open spec fn spec_text(&self) -> Seq<char> {
        "("@ + text_if(self.raw() & CC_READY != 0, "CC_READY, "@) + text_if(
            self.raw() & DEVICE_XREADY != 0,
            "XREADY, "@,
        ) + text_if(self.raw() & OVRD_ALERT != 0, "ALERT, "@) + text_if(
            self.raw() & UNDERVOLTAGE != 0,
            "UV, "@,
        ) + text_if(self.raw() & OVERVOLTAGE != 0, "OV, "@) + text_if(
            self.raw() & SHORTCIRCUIT != 0,
            "SCD, "@,
        ) + text_if(self.raw() & OVERCURRENT != 0, "OCD, "@) + ")"@
    }

    /// A snapshot that holds the given register byte.
    pub fn from_bits(bits: u8) -> (stat: Stat)
        ensures
            stat.raw() == bits,
    {
        Stat { bits }
    }

    /// A coulomb-counter reading is available.
    pub fn cc_ready_is_set(&self) -> (r: bool)
        ensures
            r == (self.raw() & CC_READY != 0),
    {
        self.bits & CC_READY != 0
    }

    /// The device reports an internal fault.
    pub fn device_xready_is_set(&self) -> (r: bool)
        ensures
            r == (self.raw() & DEVICE_XREADY != 0),
    {
        self.bits & DEVICE_XREADY != 0
    }

    /// The alert pin is driven from outside.
    pub fn ovrd_alert_is_set(&self) -> (r: bool)
        ensures
            r == (self.raw() & OVRD_ALERT != 0),
    {
        self.bits & OVRD_ALERT != 0
    }

    /// A cell is below the under-voltage threshold.
    pub fn undervoltage_is_set(&self) -> (r: bool)
        ensures
            r == (self.raw() & UNDERVOLTAGE != 0),
    {
        self.bits & UNDERVOLTAGE != 0
    }

    /// A cell is above the over-voltage threshold.
    pub fn overvoltage_is_set(&self) -> (r: bool)
        ensures
            r == (self.raw() & OVERVOLTAGE != 0),
    {
        self.bits & OVERVOLTAGE != 0
    }

    /// The short-circuit comparator has tripped.
    pub fn scd_is_set(&self) -> (r: bool)
        ensures
            r == (self.raw() & SHORTCIRCUIT != 0),
    {
        self.bits & SHORTCIRCUIT != 0
    }

    /// The over-current comparator has tripped.
    pub fn ocd_is_set(&self) -> (r: bool)
        ensures
            r == (self.raw() & OVERCURRENT != 0),
    {
        self.bits & OVERCURRENT != 0
    }

    /// No fault bit is set. Bit 7, which only announces a reading, does
    /// not count.
    pub fn is_ok(&self) -> (r: bool)
        ensures
            r == (self.raw() & FAULTS == 0),
    {
        self.bits & FAULTS == 0
    }

    /// The snapshot as text: the names of the bits that are set.
    pub fn to_text(&self) -> (text: String)
        ensures
            text@ == self.spec_text(),
    {
        let mut text = String::from_str("(");
        if self.cc_ready_is_set() {
            text.append("CC_READY, ");
        }
        if self.device_xready_is_set() {
            text.append("XREADY, ");
        }
        if self.ovrd_alert_is_set() {
            text.append("ALERT, ");
        }
        if self.undervoltage_is_set() {
            text.append("UV, ");
        }
        if self.overvoltage_is_set() {
            text.append("OV, ");
        }
        if self.scd_is_set() {
            text.append("SCD, ");
        }
        if self.ocd_is_set() {
            text.append("OCD, ");
        }
        text.append(")");
        assert(text@ =~= self.spec_text());
        text
    }
}

/// A set of status bits, as written to the status register to clear them.
#[derive(Debug, PartialEq, Eq, Clone, Copy, Structural)]
pub struct SysStat {
    bits: u8,
}

impl SysStat {
    /// The bits of the set.
    pub closed spec fn raw(&self) -> u8 {
        self.bits
    }

    /// The set of the bits of `bits` that the status register defines.
    pub fn from_bits_truncate(bits: u8) -> (flags: SysStat)
        ensures
            flags.raw() == bits & ALL,
    {
        SysStat { bits: bits & ALL }
    }

    /// The set with every defined bit.
    pub fn all() -> (flags: SysStat)
        ensures
            flags.raw() == ALL,
    {
        SysStat { bits: ALL }
    }

    /// The set with no bit.
    pub fn empty() -> (flags: SysStat)
        ensures
            flags.raw() == 0,
    {
        SysStat { bits: 0 }
    }

    /// The bits of the set.
    pub fn bits(&self) -> (r: u8)
        ensures
            r == self.raw(),
    {
        self.bits
    }

    /// The set of the bits that are in either set.
    pub fn union(self, other: SysStat) -> (flags: SysStat)
        ensures
            flags.raw() == self.raw() | other.raw(),
    {
        SysStat { bits: self.bits | other.bits }
    }

    /// Every bit of `other` is in this set.
    pub fn contains(&self, other: SysStat) -> (r: bool)
        ensures
            r == (self.raw() & other.raw() == other.raw()),
    {
        self.bits & other.bits == other.bits
    }
}

} // verus!
