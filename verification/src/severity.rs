//! Impact levels of an advisory.

use vstd::prelude::*;

verus! {

/// How severe an advisory is, from least to most.
///
/// Which text stands for which level is decided by whoever reads the feed;
/// this crate only stores the level. `Unknown` is what an advisory carries
/// until a severity has been decoded for it.
#[derive(Debug, Clone, Copy, PartialEq, Eq, PartialOrd, Ord, Hash, Structural)]
pub enum Severity {
    Unknown,
    Low,
    Moderate,
    Important,
    Critical,
}

impl Severity {
    /// The level of an advisory whose severity has not been decoded.
    pub fn new() -> (level: Severity)
        ensures
            level == Severity::Unknown,
    {
        Severity::Unknown
    }
}

} // verus!
