//! Version triples and their packed 32-bit form.

use vstd::prelude::*;

verus! {

/// A `major.minor.patch` version as supplied by the application's configuration.
#[derive(Clone, Copy, Debug, PartialEq, Eq, Structural)]
pub struct Version {
    pub major: u32,
    pub minor: u32,
    pub patch: u32,
}

/// The packed form of a version: major in the bits from 22 up, minor in the
/// ten bits from 12 up, patch in the low twelve bits. Bits that do not fit
/// the 32-bit word are lost.
pub open spec fn packed_version(major: u32, minor: u32, patch: u32) -> u32 {
    (major << 22) | (minor << 12) | patch
}

/// Calls `ash::vk::make_version`, which shifts `major` left by 22 and `minor`
/// by 12 and ors both with `patch`; it has no failing input.
#[verifier::external_body]
fn make_version(major: u32, minor: u32, patch: u32) -> (packed: u32)
    ensures
        packed == packed_version(major, minor, patch),
{
    ash::vk::make_version(major, minor, patch)
}

impl Version {
    pub fn new(major: u32, minor: u32, patch: u32) -> (v: Version)
        ensures
            v == (Version { major, minor, patch }),
    {
        Version { major, minor, patch }
    }

    /// The packed word handed to the driver.
    pub fn packed(&self) -> (word: u32)
        ensures
            word == packed_version(self.major, self.minor, self.patch),
    {
        make_version(self.major, self.minor, self.patch)
    }
}

} // verus!
