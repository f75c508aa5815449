//! Join and end styles for offsetting, and the derivation of the engine's
//! miter-limit and round-precision parameters from them.
//!
//! The numeric payloads carried by `Round`, `Miter` and `OpenRound` are the
//! raw bit patterns of the host's binary64 values.  This layer never
//! interprets them: it only selects which payload reaches the engine, so the
//! selection rule is stated and proved exactly over the opaque bits.  The
//! all-zero payload is the engine's zero.

use vstd::prelude::*;

verus! {

/// How the joints between offset segments are filled.
#[derive(Clone, Copy, PartialEq, Eq, Structural, Debug)]
pub enum JoinType {
    Square,
    Round(u64),
    Miter(u64),
}

/// How the ends of an offset path are treated.
#[derive(Clone, Copy, PartialEq, Eq, Structural, Debug)]
pub enum EndType {
    ClosedPolygon,
    ClosedLine,
    OpenButt,
    OpenSquare,
    OpenRound(u64),
}

/// The miter limit handed to the engine: the `Miter` payload, else zero.
pub open spec fn spec_miter_limit(join_type: JoinType) -> u64 {
    match join_type {
        JoinType::Miter(limit) => limit,
        _ => 0,
    }
}

/// The round precision handed to the engine: a `Round` join's payload wins
/// over an `OpenRound` end's payload when both are supplied; with neither,
/// zero.
pub open spec fn spec_round_precision(join_type: JoinType, end_type: EndType) -> u64 {
    match join_type {
        JoinType::Round(precision) => precision,
        _ => match end_type {
            EndType::OpenRound(precision) => precision,
            _ => 0,
        },
    }
}

/// Derives the engine's offset parameters from the join and end styles.
pub fn offset_parameters(join_type: JoinType, end_type: EndType) -> (r: (u64, u64))
    ensures
        r.0 == spec_miter_limit(join_type),
        r.1 == spec_round_precision(join_type, end_type),
{
    let miter_limit = match join_type {
        JoinType::Miter(limit) => limit,
        _ => 0,
    };
    let round_precision = match join_type {
        JoinType::Round(precision) => precision,
        _ => match end_type {
            EndType::OpenRound(precision) => precision,
            _ => 0,
        },
    };
    (miter_limit, round_precision)
}

} // verus!
