//! Retention policy: how many records one actor's log may hold.
//!
//! A configured value of 0 (or an absent / non-positive override at
//! initialization) always means "use the default", never "unbounded".

use vstd::prelude::*;

verus! {

/// Log length bound used when no positive retention value is configured.
pub const DEFAULT_RETENTION: u32 = 300;

/// The number of records a log may hold under the configured `retention`.
pub open spec fn spec_effective_limit(retention: u32) -> int {
    if retention == 0 {
        DEFAULT_RETENTION as int
    } else {
        retention as int
    }
}

/// Resolves the configured retention to the bound enforced on a log:
/// the configured value if positive, else the default.
pub fn effective_limit(retention: u32) -> (limit: usize)
    ensures
        limit == spec_effective_limit(retention),
        limit >= 1,
{
    if retention == 0 {
        DEFAULT_RETENTION as usize
    } else {
        retention as usize
    }
}

/// The retention value stored at initialization for an optional override:
/// the override if supplied and positive, else the default.
pub open spec fn spec_resolve_retention(argument: Option<u32>) -> u32 {
    match argument {
        Some(value) => if value > 0 {
            value
        } else {
            DEFAULT_RETENTION
        },
        None => DEFAULT_RETENTION,
    }
}

/// Resolves the optional initialization override to the stored retention.
pub fn resolve_retention(argument: Option<u32>) -> (retention: u32)
    ensures
        retention == spec_resolve_retention(argument),
        retention > 0,
{
    match argument {
        Some(value) if value > 0 => value,
        _ => DEFAULT_RETENTION,
    }
}

} // verus!
