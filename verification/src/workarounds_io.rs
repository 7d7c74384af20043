//! The workarounds file as it is written on disk.
use vstd::prelude::*;

verus! {

/// Version of the workarounds file format that this library reads.
pub const CURRENT_WORKARROUND_VERSION: u64 = 1;

#[derive(Debug)]
pub struct Workarrounds {
    pub version: u64,
    pub class_to_icon: Vec<ClassToIcon>,
}

/// An icon override for the windows of one class.
#[derive(Debug, Clone)]
pub struct ClassToIcon {
    pub enabled: bool,
    pub class: String,
    /// Icon name or path.
    pub icon: String,
}

impl Default for Workarrounds {
    fn default() -> (r: Self)
        ensures
            r.version == CURRENT_WORKARROUND_VERSION,
            r.class_to_icon@.len() == 0,
    {
        Workarrounds { version: CURRENT_WORKARROUND_VERSION, class_to_icon: Vec::new() }
    }
}

} // verus!
