//! The ordered enumeration of severity levels and its numeric ranks.
//!
//! Ranks are 1-based: rank 0 is reserved in the source domain as a "no
//! level" sentinel that real records never carry, so the counter table is
//! indexed by `rank - 1`.

use vstd::prelude::*;

verus! {

/// The number of real (non-sentinel) severity levels; the per-level counter
/// table has exactly this many entries.
pub const LEVEL_COUNT: usize = 6;

/// Severity of a log record, from most to least important.
#[derive(Clone, Copy, Debug, PartialEq, Eq, Structural)]
pub enum Level {
    /// The system is unusable.
    Critical,
    /// An operation failed.
    Error,
    /// Something unexpected, but the system goes on.
    Warning,
    /// Ordinary operational chatter.
    Info,
    /// Diagnostic detail.
    Debug,
    /// The finest-grained detail.
    Trace,
}

impl Level {
    /// The 1-based numeric rank: 1 for the most severe level, 6 for the
    /// least severe.
    pub open spec fn rank(self) -> int {
        match self {
            Level::Critical => 1,
            Level::Error => 2,
            Level::Warning => 3,
            Level::Info => 4,
            Level::Debug => 5,
            Level::Trace => 6,
        }
    }

    /// The 0-based position of this level in the counter table.
    pub open spec fn index(self) -> int {
        self.rank() - 1
    }

    /// The stable display name of this level.
    pub open spec fn name(self) -> Seq<char> {
        match self {
            Level::Critical => "critical"@,
            Level::Error => "error"@,
            Level::Warning => "warning"@,
            Level::Info => "info"@,
            Level::Debug => "debug"@,
            Level::Trace => "trace"@,
        }
    }

    /// The decimal spelling of this level's rank.
    pub open spec fn rank_name(self) -> Seq<char> {
        match self {
            Level::Critical => "1"@,
            Level::Error => "2"@,
            Level::Warning => "3"@,
            Level::Info => "4"@,
            Level::Debug => "5"@,
            Level::Trace => "6"@,
        }
    }

    /// The numeric rank as a machine integer.
    pub fn as_usize(&self) -> (n: usize)
        ensures
            n == self.rank(),
            1 <= n <= LEVEL_COUNT,
    {
        match self {
            Level::Critical => 1,
            Level::Error => 2,
            Level::Warning => 3,
            Level::Info => 4,
            Level::Debug => 5,
            Level::Trace => 6,
        }
    }

    /// The position of this level's counter in the counter table.
    pub fn as_index(&self) -> (i: usize)
        ensures
            i == self.index(),
            i < LEVEL_COUNT,
    {
        let n = self.as_usize();
        n - 1
    }

    /// The display name used as the level label value.
    pub fn as_str(&self) -> (s: &'static str)
        ensures
            s@ == self.name(),
    {
        match self {
            Level::Critical => "critical",
            Level::Error => "error",
            Level::Warning => "warning",
            Level::Info => "info",
            Level::Debug => "debug",
            Level::Trace => "trace",
        }
    }

    /// The rank as a string, used as the level-number label value.
    pub fn rank_str(&self) -> (s: &'static str)
        ensures
            s@ == self.rank_name(),
    {
        match self {
            Level::Critical => "1",
            Level::Error => "2",
            Level::Warning => "3",
            Level::Info => "4",
            Level::Debug => "5",
            Level::Trace => "6",
        }
    }

    /// The level whose counter sits at position `i` of the counter table:
    /// the level of rank `i + 1`.
    pub open spec fn level_at(i: int) -> Level {
        if i == 0 {
            Level::Critical
        } else if i == 1 {
            Level::Error
        } else if i == 2 {
            Level::Warning
        } else if i == 3 {
            Level::Info
        } else if i == 4 {
            Level::Debug
        } else {
            Level::Trace
        }
    }

    /// The level whose counter sits at position `i` of the counter table.
    pub fn from_index(i: usize) -> (l: Level)
        requires
            i < LEVEL_COUNT,
        ensures
            l == Level::level_at(i as int),
            l.index() == i,
    {
        if i == 0 {
            Level::Critical
        } else if i == 1 {
            Level::Error
        } else if i == 2 {
            Level::Warning
        } else if i == 3 {
            Level::Info
        } else if i == 4 {
            Level::Debug
        } else {
            Level::Trace
        }
    }

    /// The level of a given rank, if the rank belongs to a real level.
    /// Rank 0, the sentinel, and anything past the last level yield `None`.
    pub fn from_usize(u: usize) -> (r: Option<Level>)
        ensures
            1 <= u <= LEVEL_COUNT <==> (r is Some && r->0.rank() == u),
            !(1 <= u <= LEVEL_COUNT) <==> r is None,
    {
        if u == 0 || u > LEVEL_COUNT {
            None
        } else {
            Some(Level::from_index(u - 1))
        }
    }
}

/// Holds when some severity level owns position `i` of the counter table.
pub open spec fn some_level_at(i: int) -> bool {
    exists|l: Level| (#[trigger] l.index()) == i
}

/// Law: the counter-table positions and the severity levels correspond one
/// to one — every level owns a position below `LEVEL_COUNT`, and every such
/// position is owned by some level, so a table of `LEVEL_COUNT` entries has
/// exactly one entry per real severity level.
pub proof fn lemma_levels_fill_table()
    ensures
        forall|l: Level| 0 <= #[trigger] l.index() < LEVEL_COUNT,
        forall|i: int| 0 <= i < LEVEL_COUNT ==> #[trigger] some_level_at(i),
{
    assert forall|i: int| 0 <= i < LEVEL_COUNT implies #[trigger] some_level_at(i) by {
        if i == 0 {
            assert(Level::Critical.index() == i);
        } else if i == 1 {
            assert(Level::Error.index() == i);
        } else if i == 2 {
            assert(Level::Warning.index() == i);
        } else if i == 3 {
            assert(Level::Info.index() == i);
        } else if i == 4 {
            assert(Level::Debug.index() == i);
        } else {
            assert(Level::Trace.index() == i);
        }
    }
}

} // verus!
