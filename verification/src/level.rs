//! Severity levels and their total order.

use vstd::prelude::*;
use vstd::std_specs::cmp::PartialOrdSpecImpl;
use core::cmp::Ordering;

verus! {

/// Log level flag. The levels are ordered by severity:
/// `Debug < Info < Warn < Error`.
#[derive(Debug, Clone, Copy, PartialEq, Eq, Structural, Ord, Hash)]
pub enum Level {
    Debug,
    Info,
    Warn,
    Error,
}

impl Level {
    /// Position of the level in the order of severity.
    pub open spec fn rank(self) -> nat {
        match self {
            Level::Debug => 0,
            Level::Info => 1,
            Level::Warn => 2,
            Level::Error => 3,
        }
    }

    /// The order of two levels, which is the order of their ranks.
    pub open spec fn order(self, other: Level) -> Ordering {
        if self.rank() < other.rank() {
            Ordering::Less
        } else if self.rank() == other.rank() {
            Ordering::Equal
        } else {
            Ordering::Greater
        }
    }

    /// The tag that marks a line of this level.
    pub open spec fn tag_text(self) -> Seq<char> {
        match self {
            Level::Debug => "[DEBUG]"@,
            Level::Info => "[INFO]"@,
            Level::Warn => "[WARN]"@,
            Level::Error => "[ERROR]"@,
        }
    }

    /// The tag that marks a line of this level.
    pub fn tag(self) -> (t: &'static str)
        ensures
            t@ == self.tag_text(),
    {
        match self {
            Level::Debug => "[DEBUG]",
            Level::Info => "[INFO]",
            Level::Warn => "[WARN]",
            Level::Error => "[ERROR]",
        }
    }

    /// Position of the level in the order of severity.
    pub fn severity(self) -> (r: u8)
        ensures
            r == self.rank(),
    {
        match self {
            Level::Debug => 0,
            Level::Info => 1,
            Level::Warn => 2,
            Level::Error => 3,
        }
    }
}

impl PartialOrd for Level {
    fn partial_cmp(&self, other: &Level) -> (r: Option<Ordering>) {
        let a: u8 = self.severity();
        let b: u8 = other.severity();
        if a < b {
            Some(Ordering::Less)
        } else if a == b {
            Some(Ordering::Equal)
        } else {
            Some(Ordering::Greater)
        }
    }
}

impl PartialOrdSpecImpl for Level {
    open spec fn obeys_partial_cmp_spec() -> bool {
        true
    }

    open spec fn partial_cmp_spec(&self, other: &Level) -> Option<Ordering> {
        Some(self.order(*other))
    }
}

} // verus!
