//! A three-part version number.

use vstd::prelude::*;

verus! {

#[derive(Debug, PartialEq, Clone, Copy)]
pub struct Version {
    major: u32,
    minor: u32,
    patch: u32,
}

impl Version {
    pub closed spec fn spec_major(&self) -> u32 {
        self.major
    }

    pub closed spec fn spec_minor(&self) -> u32 {
        self.minor
    }

    pub closed spec fn spec_patch(&self) -> u32 {
        self.patch
    }

    pub fn new(major: u32, minor: u32, patch: u32) -> (r: Self)
        ensures
            r.spec_major() == major,
            r.spec_minor() == minor,
            r.spec_patch() == patch,
    {
        Version { major, minor, patch }
    }
}

} // verus!
