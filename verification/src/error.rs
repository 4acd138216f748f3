//! What the validations of the field CRDTs and of the one-field controller
//! report.

use crate::clock::CausalityError;
use crate::dot::Dot;
use vstd::prelude::*;

verus! {

/// The dots of one actor that are missing before an operation may be applied:
/// those with a counter from `start` up to, and without, `end`.
#[derive(Clone, Copy, Debug, PartialEq, Eq, Structural)]
pub struct DotRange {
    pub actor: u64,
    pub start: u64,
    pub end: u64,
}

/// Why a nested map refuses an operation.
#[derive(Clone, Copy, Debug, PartialEq, Eq, Structural)]
pub enum MapOpError {
    /// The map, or the entry under the operation's key, misses dots of the
    /// operation's actor.
    SourceOrder(DotRange),
    /// The set under the operation's key refuses the nested operation.
    Value(DotRange),
}

/// Two different items that were added under one and the same dot, one in each
/// of two replicas.
#[derive(Clone, Debug, PartialEq, Eq)]
pub struct DoubleSpentDot<T> {
    pub dot: Dot,
    pub ours: T,
    pub theirs: T,
}

/// Why two nested maps cannot be merged.
#[derive(Clone, Debug, PartialEq, Eq)]
pub enum MapMergeError {
    /// Two different keys were updated under one dot.
    DoubleSpentDot(DoubleSpentDot<u64>),
    /// The sets under one key cannot be merged.
    Value(DoubleSpentDot<Vec<u8>>),
}

/// Why the one-field controller refuses an operation: the causal gate, or the
/// field that the operation is for.
#[derive(Clone, Copy, Debug, PartialEq, Eq, Structural)]
pub enum CrdtError {
    /// The operation's dot is not newer than what the clock has recorded.
    VClock(CausalityError),
    /// The transaction set refuses the operation.
    Txns(DotRange),
    /// The map of history hashes refuses the operation.
    HistoryHashes(MapOpError),
    /// The candidate set refuses the operation.
    Candidates(DotRange),
}

} // verus!
