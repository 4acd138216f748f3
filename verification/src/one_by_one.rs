//! The composite controller whose operations touch one field at a time.
//!
//! It holds what [`crate::one::Controller`] holds, and an operation of it is
//! an envelope of that controller with exactly one slot filled: the same gate,
//! the same dispatch, the same advance of the clock.

use crate::clock::{advanced, gate, is_new, CausalClock};
use crate::dot::Dot;
use crate::error::CrdtError;
use crate::one;
use crate::one::{initial, merge_validation, merges, ControllerCvRDTError, ControllerState};
use crate::ormap::{map_applied, map_op_check, NestedMap};
use crate::orset::{byte_set_applied, set_op_check, text_set_applied, ByteSet, TextSet};
use crate::{OpOneByOne, OpOneByOneView};
use vstd::prelude::*;

verus! {

/// The replicated aggregate.
#[derive(Debug, PartialEq, Eq)]
pub struct ControllerOneByOne {
    clock: CausalClock,
    txns: TextSet,
    history_hashes: NestedMap,
    candidates: ByteSet,
}

/// An operation envelope: the dot of the event and the operation of one field.
#[derive(Clone, Debug, PartialEq, Eq)]
pub struct Op {
    pub dot: Dot,
    pub op: OpOneByOne,
}

/// The view of an [`Op`].
pub struct OpView {
    pub dot: Dot,
    pub op: OpOneByOneView,
}

impl View for ControllerOneByOne {
    type V = ControllerState;

    closed spec fn view(&self) -> ControllerState {
        ControllerState {
            clock: self.clock@,
            txns: self.txns@,
            history_hashes: self.history_hashes@,
            candidates: self.candidates@,
        }
    }
}

impl View for Op {
    type V = OpView;

    open spec fn view(&self) -> OpView {
        OpView { dot: self.dot, op: self.op@ }
    }
}

/// What applying `op` makes of `state`. Behind the causal gate the field that
/// the operation is for takes it and the clock takes the dot; otherwise
/// nothing changes. A map of history hashes that took the operation is given
/// settled.
pub open spec fn applied(state: ControllerState, op: OpView) -> ControllerState {
    if !is_new(state.clock, op.dot) {
        state
    } else {
        let clock = advanced(state.clock, op.dot);
        match op.op {
            OpOneByOneView::T(o) => ControllerState {
                clock,
                txns: text_set_applied(state.txns, o),
                ..state
            },
            OpOneByOneView::H(o) => ControllerState {
                clock,
                history_hashes: map_applied(state.history_hashes, o),
                ..state
            },
            OpOneByOneView::C(o) => ControllerState {
                clock,
                candidates: byte_set_applied(state.candidates, o),
                ..state
            },
        }
    }
}

/// What validation answers to `op` in `state`: the causal gate first, then
/// the field that the operation is for.
pub open spec fn validation(state: ControllerState, op: OpView) -> Result<(), CrdtError> {
    if let Err(stale) = gate(state.clock, op.dot) {
        Err(CrdtError::VClock(stale))
    } else {
        match op.op {
            OpOneByOneView::T(o) => match set_op_check(state.txns.clock, o) {
                Err(missing) => Err(CrdtError::Txns(missing)),
                Ok(_) => Ok(()),
            },
            OpOneByOneView::H(o) => match map_op_check(state.history_hashes, o) {
                Err(refused) => Err(CrdtError::HistoryHashes(refused)),
                Ok(_) => Ok(()),
            },
            OpOneByOneView::C(o) => match set_op_check(state.candidates.clock, o) {
                Err(missing) => Err(CrdtError::Candidates(missing)),
                Ok(_) => Ok(()),
            },
        }
    }
}

/// Whether `after` is what applying `op` to `before` may leave: what applying
/// the envelope that stands for `op` may leave.
pub open spec fn applies(before: ControllerState, op: OpView, after: ControllerState) -> bool {
    one::applies(before, as_envelope(op), after)
}

/// The envelope with one slot for each field that stands for `op`: the slot
/// of its field filled, the others empty.
pub open spec fn as_envelope(op: OpView) -> one::OpView {
    match op.op {
        OpOneByOneView::T(o) => one::OpView {
            dot: op.dot,
            txns_op: Some(o),
            history_hashes_op: None,
            candidates_op: None,
        },
        OpOneByOneView::H(o) => one::OpView {
            dot: op.dot,
            txns_op: None,
            history_hashes_op: Some(o),
            candidates_op: None,
        },
        OpOneByOneView::C(o) => one::OpView {
            dot: op.dot,
            txns_op: None,
            history_hashes_op: None,
            candidates_op: Some(o),
        },
    }
}

/// The refusal of the one-field controller that stands for a refusal of the
/// controller with one slot for each field.
pub open spec fn as_crdt_error(error: one::ControllerCmRDTError) -> CrdtError
    recommends
        error != one::ControllerCmRDTError::NoneOp,
{
    match error {
        one::ControllerCmRDTError::VClock(stale) => CrdtError::VClock(stale),
        one::ControllerCmRDTError::Txns(missing) => CrdtError::Txns(missing),
        one::ControllerCmRDTError::HistoryHashes(refused) => CrdtError::HistoryHashes(refused),
        one::ControllerCmRDTError::Candidates(missing) => CrdtError::Candidates(missing),
        one::ControllerCmRDTError::NoneOp => arbitrary(),
    }
}

impl Op {
    /// The envelope with one slot for each field that stands for this
    /// operation.
    pub fn into_envelope(self) -> (envelope: one::Op)
        ensures
            envelope@ == as_envelope(self@),
    {
        let dot = self.dot;
        match self.op {
            OpOneByOne::T(o) => one::Op {
                dot,
                txns_op: Some(o),
                history_hashes_op: None,
                candidates_op: None,
            },
            OpOneByOne::H(o) => one::Op {
                dot,
                txns_op: None,
                history_hashes_op: Some(o),
                candidates_op: None,
            },
            OpOneByOne::C(o) => one::Op {
                dot,
                txns_op: None,
                history_hashes_op: None,
                candidates_op: Some(o),
            },
        }
    }
}

impl Clone for ControllerOneByOne {
    fn clone(&self) -> (copy: ControllerOneByOne)
        ensures
            copy@ == self@,
    {
        ControllerOneByOne {
            clock: self.clock.clone(),
            txns: self.txns.clone(),
            history_hashes: self.history_hashes.clone(),
            candidates: self.candidates.clone(),
        }
    }
}

impl Default for ControllerOneByOne {
    fn default() -> (controller: ControllerOneByOne)
        ensures
            controller@ == initial(),
            controller.wf(),
    {
        ControllerOneByOne::new()
    }
}

impl ControllerOneByOne {
    /// Whether no entry of the clock is 0. It holds of a new controller, and
    /// `apply` and `merge` keep it.
    pub open spec fn wf(&self) -> bool {
        self@.wf()
    }

    /// A controller with an empty clock and every field empty.
    pub fn new() -> (controller: ControllerOneByOne)
        ensures
            controller@ == initial(),
            controller.wf(),
    {
        ControllerOneByOne {
            clock: CausalClock::new(),
            txns: TextSet::new(),
            history_hashes: NestedMap::new(),
            candidates: ByteSet::new(),
        }
    }

    /// The controller that holds the given clock and fields.
    pub fn from_parts(
        clock: CausalClock,
        txns: TextSet,
        history_hashes: NestedMap,
        candidates: ByteSet,
    ) -> (controller: ControllerOneByOne)
        ensures
            controller@ == (ControllerState {
                clock: clock@,
                txns: txns@,
                history_hashes: history_hashes@,
                candidates: candidates@,
            }),
    {
        ControllerOneByOne { clock, txns, history_hashes, candidates }
    }

    /// The clock and the fields of the controller: the transactions, the
    /// history hashes and the candidates.
    pub fn into_parts(self) -> (parts: (CausalClock, TextSet, NestedMap, ByteSet))
        ensures
            self@ == (ControllerState {
                clock: parts.0@,
                txns: parts.1@,
                history_hashes: parts.2@,
                candidates: parts.3@,
            }),
    {
        (self.clock, self.txns, self.history_hashes, self.candidates)
    }

    /// The clock.
    pub fn clock(&self) -> (clock: &CausalClock)
        ensures
            clock@ == self@.clock,
    {
        &self.clock
    }

    /// The set of transactions.
    pub fn txns(&self) -> (set: &TextSet)
        ensures
            set@ == self@.txns,
    {
        &self.txns
    }

    /// The map of history hashes.
    pub fn history_hashes(&self) -> (map: &NestedMap)
        ensures
            map@ == self@.history_hashes,
    {
        &self.history_hashes
    }

    /// The set of candidates.
    pub fn candidates(&self) -> (set: &ByteSet)
        ensures
            set@ == self@.candidates,
    {
        &self.candidates
    }

    /// Applies an operation envelope. A dot that the clock has acknowledged
    /// makes it a no-op; otherwise the operation is applied to its field and
    /// the clock then acknowledges the dot.
    pub fn apply(&mut self, op: Op)
        ensures
            applies(old(self)@, op@, final(self)@),
            old(self).wf() ==> final(self).wf(),
    {
        if self.clock.get(op.dot.actor) >= op.dot.counter {
            return ;
        }
        match op.op {
            OpOneByOne::T(o) => self.txns.apply(o),
            OpOneByOne::H(o) => self.history_hashes.apply(o),
            OpOneByOne::C(o) => self.candidates.apply(o),
        }
        self.clock.advance(op.dot);
    }

    /// Validates an operation envelope against this controller, which is not
    /// changed: the causal gate first, then the operation against its field.
    pub fn validate_op(&self, op: &Op) -> (checked: Result<(), CrdtError>)
        ensures
            checked == validation(self@, op@),
    {
        if let Err(stale) = self.clock.validate(op.dot) {
            return Err(CrdtError::VClock(stale));
        }
        match &op.op {
            OpOneByOne::T(o) => match self.txns.validate_op(o) {
                Err(missing) => Err(CrdtError::Txns(missing)),
                Ok(_) => Ok(()),
            },
            OpOneByOne::H(o) => match self.history_hashes.validate_op(o) {
                Err(refused) => Err(CrdtError::HistoryHashes(refused)),
                Ok(_) => Ok(()),
            },
            OpOneByOne::C(o) => match self.candidates.validate_op(o) {
                Err(missing) => Err(CrdtError::Candidates(missing)),
                Ok(_) => Ok(()),
            },
        }
    }

    /// Validates the merge of `other` into this controller, field by field,
    /// stopping at the first field in conflict. Nothing is changed.
    pub fn validate_merge(&self, other: &ControllerOneByOne) -> (checked: Result<
        (),
        ControllerCvRDTError,
    >)
        ensures
            merge_validation(self@, other@, checked),
    {
        if let Err(e) = self.txns.validate_merge(&other.txns) {
            return Err(ControllerCvRDTError::Txns(e));
        }
        if let Err(e) = self.history_hashes.validate_merge(&other.history_hashes) {
            return Err(ControllerCvRDTError::HistoryHashes(e));
        }
        if let Err(e) = self.candidates.validate_merge(&other.candidates) {
            return Err(ControllerCvRDTError::Candidates(e));
        }
        Ok(())
    }

    /// Merges `other` into this controller: the clock first, then each field
    /// with its counterpart.
    pub fn merge(&mut self, other: ControllerOneByOne)
        ensures
            merges(old(self)@, other@, final(self)@),
            old(self).wf() ==> final(self).wf(),
    {
        let ControllerOneByOne { clock, txns, history_hashes, candidates } = other;
        self.clock.join(clock);
        self.txns.merge(txns);
        self.history_hashes.merge(history_hashes);
        self.candidates.merge(candidates);
    }
}

/// An operation on one field is the envelope with that one slot filled: both
/// are applied alike and validated alike.
pub proof fn same_as_envelope(state: ControllerState, op: OpView)
    ensures
        !as_envelope(op).is_empty(),
        applied(state, op) == one::applied(state, as_envelope(op)),
        validation(state, op) is Ok <==> one::validation(state, as_envelope(op)) is Ok,
        validation(state, op) matches Err(e) ==> one::validation(state, as_envelope(op))
            matches Err(f) && e == as_crdt_error(f),
{
}

/// Applying an operation twice leaves what applying it once leaves.
pub proof fn apply_idempotent(
    before: ControllerState,
    op: OpView,
    once: ControllerState,
    twice: ControllerState,
)
    requires
        applies(before, op, once),
        applies(once, op, twice),
    ensures
        twice == once,
{
    one::apply_idempotent(before, as_envelope(op), once, twice);
}

/// Two operations of different actors may be applied in either order, where
/// they are for different fields or commute on the field that both are for:
/// the two states are the same, but for what the sets of the map have
/// deferred where an operation was applied to the map.
pub proof fn apply_commutes(
    state: ControllerState,
    first: OpView,
    second: OpView,
    after_first: ControllerState,
    after_both: ControllerState,
    after_second: ControllerState,
    after_both_reversed: ControllerState,
)
    requires
        first.dot.actor != second.dot.actor,
        one::fields_commute(state, as_envelope(first), as_envelope(second)),
        applies(state, first, after_first),
        applies(after_first, second, after_both),
        applies(state, second, after_second),
        applies(after_second, first, after_both_reversed),
    ensures
        after_both.settled() == after_both_reversed.settled(),
        !(first.op is H) && !(second.op is H) ==> after_both == after_both_reversed,
{
    one::apply_commutes(
        state,
        as_envelope(first),
        as_envelope(second),
        after_first,
        after_both,
        after_second,
        after_both_reversed,
    );
}

/// Once an operation was applied, an operation of the same actor with a
/// counter that is not higher is refused by validation and changes nothing
/// when applied.
pub proof fn gate_monotonic(
    state: ControllerState,
    op: OpView,
    after: ControllerState,
    later: OpView,
    last: ControllerState,
)
    requires
        applies(state, op, after),
        later.dot.actor == op.dot.actor,
        later.dot.counter <= op.dot.counter,
        applies(after, later, last),
    ensures
        !is_new(after.clock, later.dot),
        validation(after, later) is Err,
        last == after,
{
    one::gate_monotonic(state, as_envelope(op), after, as_envelope(later), last);
}

} // verus!
