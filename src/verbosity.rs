//! How much a console lets through.
use vstd::prelude::*;

verus! {

/// Message levels, from silent to everything.
#[derive(Debug, Clone, Copy, PartialEq, Eq, Structural)]
pub enum Verbosity {
    Quiet,
    Error,
    Warning,
    Info,
    Debug,
}

impl Verbosity {
    /// The rank of the level: `Quiet` is 0, `Debug` is 4.
    pub open spec fn rank(self) -> u8 {
        match self {
            Verbosity::Quiet => 0,
            Verbosity::Error => 1,
            Verbosity::Warning => 2,
            Verbosity::Info => 3,
            Verbosity::Debug => 4,
        }
    }

    /// The rank of the level: `Quiet` is 0, `Debug` is 4.
    pub fn level(&self) -> (r: u8)
        ensures
            r == self.rank(),
    {
        match self {
            Verbosity::Quiet => 0,
            Verbosity::Error => 1,
            Verbosity::Warning => 2,
            Verbosity::Info => 3,
            Verbosity::Debug => 4,
        }
    }
}

} // verus!
