//! Severity ranks of the logging facade and of the diagnostic daemon, and the
//! total translation between them.

use vstd::prelude::*;

verus! {

/// The five severity ranks of the logging facade, most severe first.
#[derive(Clone, Copy, PartialEq, Eq, Structural, Debug)]
pub enum Level {
    Error,
    Warn,
    Info,
    Debug,
    Trace,
}

/// The five severity ranks of the diagnostic daemon, most severe first.
#[derive(Clone, Copy, PartialEq, Eq, Structural, Debug)]
pub enum DltLogLevel {
    Error,
    Warn,
    Info,
    Debug,
    Verbose,
}

/// Strict rank correspondence between the two scales: most severe to most
/// severe, down to the facade's most verbose rank on the daemon's.
pub open spec fn map_level_spec(l: Level) -> DltLogLevel {
    match l {
        Level::Error => DltLogLevel::Error,
        Level::Warn => DltLogLevel::Warn,
        Level::Info => DltLogLevel::Info,
        Level::Debug => DltLogLevel::Debug,
        Level::Trace => DltLogLevel::Verbose,
    }
}

/// Translates a facade severity into the daemon's scale. The match covers all
/// five ranks with no default branch.
pub fn map_level(l: Level) -> (r: DltLogLevel)
    ensures
        r == map_level_spec(l),
{
    match l {
        Level::Error => DltLogLevel::Error,
        Level::Warn => DltLogLevel::Warn,
        Level::Info => DltLogLevel::Info,
        Level::Debug => DltLogLevel::Debug,
        Level::Trace => DltLogLevel::Verbose,
    }
}

/// The severity translation is injective: distinct facade ranks reach
/// distinct daemon ranks.
pub proof fn lemma_map_level_injective(a: Level, b: Level)
    ensures
        map_level_spec(a) == map_level_spec(b) ==> a == b,
{
}

/// The severity translation is surjective: every daemon rank is reached by
/// some facade rank, so together with injectivity the mapping is a bijection
/// between the two five-rank scales.
pub proof fn lemma_map_level_surjective(d: DltLogLevel)
    ensures
        exists|l: Level| map_level_spec(l) == d,
{
    match d {
        DltLogLevel::Error => {
            assert(map_level_spec(Level::Error) == d);
        },
        DltLogLevel::Warn => {
            assert(map_level_spec(Level::Warn) == d);
        },
        DltLogLevel::Info => {
            assert(map_level_spec(Level::Info) == d);
        },
        DltLogLevel::Debug => {
            assert(map_level_spec(Level::Debug) == d);
        },
        DltLogLevel::Verbose => {
            assert(map_level_spec(Level::Trace) == d);
        },
    }
}

} // verus!
