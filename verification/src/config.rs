//! The generation request and the error reported for an unusable one.

use vstd::prelude::*;

verus! {

/// What the caller asks of the generator: how long the password must be and
/// which character classes may appear in it.
///
/// A configuration is usable only when [`Self::valid`] holds: the length is
/// positive and at least one letter case is permitted.
#[derive(Clone, Copy, Debug, PartialEq, Eq, Structural)]
pub struct GenerationConfig {
    /// The exact number of characters the password must have.
    pub length: u32,
    /// Whether uppercase letters (`A`-`Z`) may appear.
    pub allow_upper: bool,
    /// Whether lowercase letters (`a`-`z`) may appear.
    pub allow_lower: bool,
    /// Whether digits (`0`-`9`) may appear.
    pub allow_number: bool,
    /// Whether the periodic separator character may appear.
    pub allow_special: bool,
}

impl GenerationConfig {
    /// The one invariant a configuration must meet before generation runs:
    /// a positive length, and at least one letter case enabled.
    pub open spec fn valid(self) -> bool {
        self.length > 0 && (self.allow_upper || self.allow_lower)
    }
}

/// Why a configuration was rejected. Generation either fully succeeds or
/// does not run at all; these are the only failures the generator reports.
#[derive(Clone, Copy, Debug, PartialEq, Eq, Structural)]
pub enum ConfigurationError {
    /// Neither letter case was enabled, so no letter could ever be produced.
    NoLetterCase,
    /// The requested length was zero.
    ZeroLength,
}

} // verus!
