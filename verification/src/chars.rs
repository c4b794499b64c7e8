//! Character classes a password is drawn from, and uniformly random picks
//! from each class.

use vstd::prelude::*;

use crate::rng::random_below;

verus! {

/// The fixed separator placed periodically when special characters are on.
pub const SEPARATOR: char = '-';

/// `c` is a lowercase ASCII letter.
pub open spec fn is_lowercase(c: char) -> bool {
    'a' <= c && c <= 'z'
}

/// `c` is an uppercase ASCII letter.
pub open spec fn is_uppercase(c: char) -> bool {
    'A' <= c && c <= 'Z'
}

/// `c` is an ASCII digit.
pub open spec fn is_digit(c: char) -> bool {
    '0' <= c && c <= '9'
}

/// A uniformly random lowercase letter.
pub fn random_lowercase() -> (c: char)
    ensures
        is_lowercase(c),
{
    let offset = random_below(26) as u8;
    (('a' as u8) + offset) as char
}

/// A uniformly random uppercase letter.
pub fn random_uppercase() -> (c: char)
    ensures
        is_uppercase(c),
{
    let offset = random_below(26) as u8;
    (('A' as u8) + offset) as char
}

/// A uniformly random digit.
pub fn random_digit() -> (c: char)
    ensures
        is_digit(c),
{
    let offset = random_below(10) as u8;
    (('0' as u8) + offset) as char
}

} // verus!
