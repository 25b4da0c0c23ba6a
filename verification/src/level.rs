//! Severity levels of the producer (`slog`) and the consumer (`tracing`),
//! and the total, order-preserving map between them.

use vstd::prelude::*;

verus! {

/// The producer's severity levels. `Critical` is the producer's sixth level;
/// it has no counterpart on the consumer side and maps onto `Error`.
#[derive(Clone, Copy, Debug, PartialEq, Eq, Structural)]
pub enum SlogLevel {
    Critical,
    Error,
    Warning,
    Info,
    Debug,
    Trace,
}

/// The consumer's severity levels.
#[derive(Clone, Copy, Debug, PartialEq, Eq, Structural)]
pub enum TraceLevel {
    Error,
    Warn,
    Info,
    Debug,
    Trace,
}

/// Position of a producer level in the severity order
/// Trace < Debug < Info < Warning < Error, with Critical above Error.
pub open spec fn slog_rank(l: SlogLevel) -> int {
    match l {
        SlogLevel::Trace => 0,
        SlogLevel::Debug => 1,
        SlogLevel::Info => 2,
        SlogLevel::Warning => 3,
        SlogLevel::Error => 4,
        SlogLevel::Critical => 5,
    }
}

/// Position of a consumer level in the severity order
/// Trace < Debug < Info < Warn < Error.
pub open spec fn trace_rank(l: TraceLevel) -> int {
    match l {
        TraceLevel::Trace => 0,
        TraceLevel::Debug => 1,
        TraceLevel::Info => 2,
        TraceLevel::Warn => 3,
        TraceLevel::Error => 4,
    }
}

/// The level map: Trace, Debug, Info and Warning keep their names;
/// Error and Critical both map to Error.
pub open spec fn map_level_spec(l: SlogLevel) -> TraceLevel {
    match l {
        SlogLevel::Trace => TraceLevel::Trace,
        SlogLevel::Debug => TraceLevel::Debug,
        SlogLevel::Info => TraceLevel::Info,
        SlogLevel::Warning => TraceLevel::Warn,
        SlogLevel::Error => TraceLevel::Error,
        SlogLevel::Critical => TraceLevel::Error,
    }
}

/// Maps a producer level to the consumer level it is reported as.
pub fn sloglevel_to_trace(level: SlogLevel) -> (r: TraceLevel)
    ensures
        r == map_level_spec(level),
{
    match level {
        SlogLevel::Trace => TraceLevel::Trace,
        SlogLevel::Debug => TraceLevel::Debug,
        SlogLevel::Info => TraceLevel::Info,
        SlogLevel::Warning => TraceLevel::Warn,
        SlogLevel::Error => TraceLevel::Error,
        SlogLevel::Critical => TraceLevel::Error,
    }
}

/// The level map is total and monotone: two producer levels in severity
/// order map to consumer levels in the same order.
pub proof fn lemma_level_map_monotone(l1: SlogLevel, l2: SlogLevel)
    requires
        slog_rank(l1) <= slog_rank(l2),
    ensures
        trace_rank(map_level_spec(l1)) <= trace_rank(map_level_spec(l2)),
{
}

} // verus!
