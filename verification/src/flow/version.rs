use vstd::prelude::*;

verus! {

/// A semantic version tag carried by a [`Flow`](crate::flow::flow::Flow).
#[derive(Debug, Clone, Copy, PartialEq, Eq, Structural)]
pub struct Version {
    pub major: u32,
    pub minor: u32,
    pub patch: u32,
}

impl Version {
    pub fn new(major: u32, minor: u32, patch: u32) -> (r: Self)
        ensures
            r.major == major,
            r.minor == minor,
            r.patch == patch,
    {
        Self { major, minor, patch }
    }
}

} // verus!
