//! The composite controller whose operations may touch several fields at a
//! time: a causal clock, a set of transactions, a map of history hashes and a
//! set of candidates under one replicated identity.
//!
//! An operation is applied behind the causal gate: a dot that the clock has
//! acknowledged changes nothing, and so does an envelope without any field
//! operation; otherwise every field operation is applied and then the clock
//! is advanced. Two controllers are merged field by field.
//!
//! [`applied`] and [`merged`] give the state that results, and [`applies`]
//! and [`merges`] hold a state against them. The two differ for the map of
//! history hashes alone: of what it holds after an operation or a join, the
//! removals that its sets have deferred are not fixed by what went in.

use crate::clock::{advanced, counter_of, gate, is_new, joined, no_dots, positive};
use crate::clock::{join_associative, join_commutative, join_idempotent};
use crate::clock::{CausalClock, CausalityError};
use crate::dot::Dot;
use crate::error::{DotRange, DoubleSpentDot, MapMergeError, MapOpError};
use crate::ormap::{empty_map, map_applied, map_clock_after, map_conflict, map_merged};
use crate::ormap::{map_op_check, names_conflict, settled};
use crate::ormap::{MapOp, MapOpView, MapState, NestedMap};
use crate::orset::{byte_set_applied, byte_set_merged, text_set_applied, text_set_merged};
use crate::orset::{double_spent, empty_set, set_clock_after, set_op_check, spent_twice};
use crate::orset::{ByteSet, SetOp, SetOpView, SetState, TextSet};
use crate::OpAllInOne;
use vstd::prelude::*;

verus! {

/// The replicated aggregate.
#[derive(Debug, PartialEq, Eq)]
pub struct Controller {
    v_clock: CausalClock,
    txns: TextSet,
    history_hashes: NestedMap,
    candidates: ByteSet,
}

/// What a controller holds: the view of a [`Controller`].
pub struct ControllerState {
    pub clock: Map<u64, u64>,
    pub txns: SetState<Seq<char>>,
    pub history_hashes: MapState,
    pub candidates: SetState<Seq<u8>>,
}

/// An operation envelope: the dot of the event and one optional operation for
/// each field.
#[derive(Clone, Debug, PartialEq, Eq)]
pub struct Op {
    pub dot: Dot,
    pub txns_op: Option<SetOp<String>>,
    pub history_hashes_op: Option<MapOp>,
    pub candidates_op: Option<SetOp<Vec<u8>>>,
}

/// The view of an [`Op`].
pub struct OpView {
    pub dot: Dot,
    pub txns_op: Option<SetOpView<Seq<char>>>,
    pub history_hashes_op: Option<MapOpView>,
    pub candidates_op: Option<SetOpView<Seq<u8>>>,
}

/// Why an operation is refused.
#[derive(Clone, Copy, Debug, PartialEq, Eq, Structural)]
pub enum ControllerCmRDTError {
    /// The envelope holds no field operation.
    NoneOp,
    /// The envelope's dot is not newer than what the clock has recorded.
    VClock(CausalityError),
    /// The transaction set refuses its operation.
    Txns(DotRange),
    /// The map of history hashes refuses its operation.
    HistoryHashes(MapOpError),
    /// The candidate set refuses its operation.
    Candidates(DotRange),
}

/// Why two controllers cannot be merged: the first field, in the order of the
/// variants, whose two states are in conflict.
#[derive(Clone, Debug, PartialEq, Eq)]
pub enum ControllerCvRDTError {
    Txns(DoubleSpentDot<String>),
    HistoryHashes(MapMergeError),
    Candidates(DoubleSpentDot<Vec<u8>>),
}

impl View for Controller {
    type V = ControllerState;

    closed spec fn view(&self) -> ControllerState {
        ControllerState {
            clock: self.v_clock@,
            txns: self.txns@,
            history_hashes: self.history_hashes@,
            candidates: self.candidates@,
        }
    }
}

impl View for Op {
    type V = OpView;

    open spec fn view(&self) -> OpView {
        OpView {
            dot: self.dot,
            txns_op: match self.txns_op {
                Some(op) => Some(op@),
                None => None,
            },
            history_hashes_op: match self.history_hashes_op {
                Some(op) => Some(op@),
                None => None,
            },
            candidates_op: match self.candidates_op {
                Some(op) => Some(op@),
                None => None,
            },
        }
    }
}

impl ControllerState {
    /// Whether no entry of the clock is 0.
    pub open spec fn wf(self) -> bool {
        positive(self.clock)
    }

    /// This state with the map of history hashes settled: without the
    /// removals that the sets under its keys have deferred.
    pub open spec fn settled(self) -> ControllerState {
        ControllerState { history_hashes: settled(self.history_hashes), ..self }
    }
}

impl OpView {
    /// Whether the envelope holds no field operation.
    pub open spec fn is_empty(self) -> bool {
        self.txns_op is None && self.history_hashes_op is None && self.candidates_op is None
    }
}

/// The controller at its creation: an empty clock and every field empty.
pub open spec fn initial() -> ControllerState {
    ControllerState {
        clock: no_dots(),
        txns: empty_set(),
        history_hashes: empty_map(),
        candidates: empty_set(),
    }
}

/// Whether `op` takes effect on `state`: its dot is new and it holds a field
/// operation.
pub open spec fn takes_effect(state: ControllerState, op: OpView) -> bool {
    is_new(state.clock, op.dot) && !op.is_empty()
}

/// Whether applying `op` to `state` applies an operation to the map of
/// history hashes.
pub open spec fn reaches_map(state: ControllerState, op: OpView) -> bool {
    is_new(state.clock, op.dot) && op.history_hashes_op is Some
}

/// What applying `op` makes of `state`. Behind the causal gate and for an
/// envelope that is not empty, each field takes its operation and the clock
/// takes the dot; otherwise nothing changes. A map of history hashes that
/// took an operation is given settled.
pub open spec fn applied(state: ControllerState, op: OpView) -> ControllerState {
    if !takes_effect(state, op) {
        state
    } else {
        ControllerState {
            clock: advanced(state.clock, op.dot),
            txns: match op.txns_op {
                Some(t_op) => text_set_applied(state.txns, t_op),
                None => state.txns,
            },
            history_hashes: match op.history_hashes_op {
                Some(h_op) => map_applied(state.history_hashes, h_op),
                None => state.history_hashes,
            },
            candidates: match op.candidates_op {
                Some(c_op) => byte_set_applied(state.candidates, c_op),
                None => state.candidates,
            },
        }
    }
}

/// The clock of the transaction set after `op` was applied to `state`.
pub open spec fn txns_clock_after(state: ControllerState, op: OpView) -> Map<u64, u64> {
    match op.txns_op {
        Some(t_op) if takes_effect(state, op) => set_clock_after(state.txns.clock, t_op),
        _ => state.txns.clock,
    }
}

/// The clock of the map of history hashes after `op` was applied to `state`.
pub open spec fn history_hashes_clock_after(state: ControllerState, op: OpView) -> Map<
    u64,
    u64,
> {
    match op.history_hashes_op {
        Some(h_op) if takes_effect(state, op) => map_clock_after(
            state.history_hashes.clock,
            h_op,
        ),
        _ => state.history_hashes.clock,
    }
}

/// The clock of the candidate set after `op` was applied to `state`.
pub open spec fn candidates_clock_after(state: ControllerState, op: OpView) -> Map<u64, u64> {
    match op.candidates_op {
        Some(c_op) if takes_effect(state, op) => set_clock_after(state.candidates.clock, c_op),
        _ => state.candidates.clock,
    }
}

/// Whether `after` is what applying `op` to `before` may leave: the state
/// that [`applied`] gives, where the map of history hashes took an operation
/// but for the removals that its sets have deferred, with the clocks of the
/// fields as their operations require.
pub open spec fn applies(before: ControllerState, op: OpView, after: ControllerState) -> bool {
    &&& if reaches_map(before, op) {
        after.settled() == applied(before, op)
    } else {
        after == applied(before, op)
    }
    &&& after.txns.clock == txns_clock_after(before, op)
    &&& after.history_hashes.clock == history_hashes_clock_after(before, op)
    &&& after.candidates.clock == candidates_clock_after(before, op)
}

/// What the transaction set answers to its slot of an envelope.
pub open spec fn txns_check(state: ControllerState, op: OpView) -> Result<(), DotRange> {
    match op.txns_op {
        Some(t_op) => set_op_check(state.txns.clock, t_op),
        None => Ok(()),
    }
}

/// What the map of history hashes answers to its slot of an envelope.
pub open spec fn history_hashes_check(state: ControllerState, op: OpView) -> Result<
    (),
    MapOpError,
> {
    match op.history_hashes_op {
        Some(h_op) => map_op_check(state.history_hashes, h_op),
        None => Ok(()),
    }
}

/// What the candidate set answers to its slot of an envelope.
pub open spec fn candidates_check(state: ControllerState, op: OpView) -> Result<(), DotRange> {
    match op.candidates_op {
        Some(c_op) => set_op_check(state.candidates.clock, c_op),
        None => Ok(()),
    }
}

/// What validation answers to `op` in `state`: the causal gate first, then the
/// empty envelope, then the fields in the order of their slots, the first
/// refusal under the name of its field.
pub open spec fn validation(state: ControllerState, op: OpView) -> Result<
    (),
    ControllerCmRDTError,
> {
    if let Err(stale) = gate(state.clock, op.dot) {
        Err(ControllerCmRDTError::VClock(stale))
    } else if op.is_empty() {
        Err(ControllerCmRDTError::NoneOp)
    } else if let Err(missing) = txns_check(state, op) {
        Err(ControllerCmRDTError::Txns(missing))
    } else if let Err(refused) = history_hashes_check(state, op) {
        Err(ControllerCmRDTError::HistoryHashes(refused))
    } else if let Err(missing) = candidates_check(state, op) {
        Err(ControllerCmRDTError::Candidates(missing))
    } else {
        Ok(())
    }
}

/// The join of two controller states: the clocks joined, and each field the
/// join of the two fields, the map of history hashes settled.
pub open spec fn merged(ours: ControllerState, theirs: ControllerState) -> ControllerState {
    ControllerState {
        clock: joined(ours.clock, theirs.clock),
        txns: text_set_merged(ours.txns, theirs.txns),
        history_hashes: map_merged(ours.history_hashes, theirs.history_hashes),
        candidates: byte_set_merged(ours.candidates, theirs.candidates),
    }
}

/// Whether `after` is what merging `theirs` into `ours` may leave: the state
/// that [`merged`] gives but for the removals that the sets of the map have
/// deferred, with the clock of each field the join of the two clocks.
pub open spec fn merges(
    ours: ControllerState,
    theirs: ControllerState,
    after: ControllerState,
) -> bool {
    &&& after.settled() == merged(ours, theirs)
    &&& after.txns.clock == joined(ours.txns.clock, theirs.txns.clock)
    &&& after.history_hashes.clock == joined(
        ours.history_hashes.clock,
        theirs.history_hashes.clock,
    )
    &&& after.candidates.clock == joined(ours.candidates.clock, theirs.candidates.clock)
}

/// Whether `checked` is what the validation of a merge of `theirs` into `ours`
/// may answer: `Ok` where no field is in conflict; otherwise the first field
/// in conflict, with an error that names a conflict of that field.
pub open spec fn merge_validation(
    ours: ControllerState,
    theirs: ControllerState,
    checked: Result<(), ControllerCvRDTError>,
) -> bool {
    let txns = double_spent(ours.txns.entries, theirs.txns.entries);
    let hashes = map_conflict(ours.history_hashes.entries, theirs.history_hashes.entries);
    let candidates = double_spent(ours.candidates.entries, theirs.candidates.entries);
    match checked {
        Ok(_) => !txns && !hashes && !candidates,
        Err(ControllerCvRDTError::Txns(e)) => spent_twice(
            ours.txns.entries,
            theirs.txns.entries,
            e.dot,
            e.ours@,
            e.theirs@,
        ),
        Err(ControllerCvRDTError::HistoryHashes(e)) => !txns && names_conflict(
            ours.history_hashes.entries,
            theirs.history_hashes.entries,
            e,
        ),
        Err(ControllerCvRDTError::Candidates(e)) => !txns && !hashes && spent_twice(
            ours.candidates.entries,
            theirs.candidates.entries,
            e.dot,
            e.ours@,
            e.theirs@,
        ),
    }
}

impl Op {
    /// The envelope that holds `dot` and the three optional operations.
    pub fn all_in_one(dot: Dot, ops: OpAllInOne) -> (op: Op)
        ensures
            op.dot == dot,
            ops == OpAllInOne::All(op.txns_op, op.history_hashes_op, op.candidates_op),
    {
        match ops {
            OpAllInOne::All(txns_op, history_hashes_op, candidates_op) => Op {
                dot,
                txns_op,
                history_hashes_op,
                candidates_op,
            },
        }
    }
}

impl Clone for Controller {
    fn clone(&self) -> (copy: Controller)
        ensures
            copy@ == self@,
    {
        Controller {
            v_clock: self.v_clock.clone(),
            txns: self.txns.clone(),
            history_hashes: self.history_hashes.clone(),
            candidates: self.candidates.clone(),
        }
    }
}

impl Default for Controller {
    fn default() -> (controller: Controller)
        ensures
            controller@ == initial(),
            controller.wf(),
    {
        Controller::new()
    }
}

impl Controller {
    /// Whether no entry of the clock is 0. It holds of a new controller, and
    /// `apply` and `merge` keep it.
    pub open spec fn wf(&self) -> bool {
        self@.wf()
    }

    /// A controller with an empty clock and every field empty.
    pub fn new() -> (controller: Controller)
        ensures
            controller@ == initial(),
            controller.wf(),
    {
        Controller {
            v_clock: CausalClock::new(),
            txns: TextSet::new(),
            history_hashes: NestedMap::new(),
            candidates: ByteSet::new(),
        }
    }

    /// The controller that holds the given clock and fields.
    pub fn from_parts(
        clock: CausalClock,
        txns: TextSet,
        history_hashes: NestedMap,
        candidates: ByteSet,
    ) -> (controller: Controller)
        ensures
            controller@ == (ControllerState {
                clock: clock@,
                txns: txns@,
                history_hashes: history_hashes@,
                candidates: candidates@,
            }),
    {
        Controller { v_clock: clock, txns, history_hashes, candidates }
    }

    /// The clock and the fields of the controller: the transactions, the
    /// history hashes and the candidates.
    pub fn into_parts(self) -> (parts: (CausalClock, TextSet, NestedMap, ByteSet))
        ensures
            self@ == (ControllerState {
                clock: parts.0@,
                txns: parts.1@,
                history_hashes: parts.2@,
                candidates: parts.3@,
            }),
    {
        (self.v_clock, self.txns, self.history_hashes, self.candidates)
    }

    /// The clock.
    pub fn clock(&self) -> (clock: &CausalClock)
        ensures
            clock@ == self@.clock,
    {
        &self.v_clock
    }

    /// The set of transactions.
    pub fn txns(&self) -> (set: &TextSet)
        ensures
            set@ == self@.txns,
    {
        &self.txns
    }

    /// The map of history hashes.
    pub fn history_hashes(&self) -> (map: &NestedMap)
        ensures
            map@ == self@.history_hashes,
    {
        &self.history_hashes
    }

    /// The set of candidates.
    pub fn candidates(&self) -> (set: &ByteSet)
        ensures
            set@ == self@.candidates,
    {
        &self.candidates
    }

    /// Applies an operation envelope. A dot that the clock has acknowledged
    /// makes it a no-op, and so does an envelope without field operations;
    /// otherwise every field operation is applied and the clock then
    /// acknowledges the dot.
    pub fn apply(&mut self, op: Op)
        ensures
            applies(old(self)@, op@, final(self)@),
            old(self).wf() ==> final(self).wf(),
    {
        let Op { dot, txns_op, history_hashes_op, candidates_op } = op;
        if self.v_clock.get(dot.actor) >= dot.counter {
            return ;
        }
        if txns_op.is_none() && history_hashes_op.is_none() && candidates_op.is_none() {
            return ;
        }
        if let Some(t_op) = txns_op {
            self.txns.apply(t_op);
        }
        if let Some(h_op) = history_hashes_op {
            self.history_hashes.apply(h_op);
        }
        if let Some(c_op) = candidates_op {
            self.candidates.apply(c_op);
        }
        self.v_clock.advance(dot);
    }

    /// Validates an operation envelope against this controller, which is not
    /// changed: the causal gate first, then the empty envelope, then each
    /// field operation against its field, stopping at the first refusal.
    pub fn validate_op(&self, op: &Op) -> (checked: Result<(), ControllerCmRDTError>)
        ensures
            checked == validation(self@, op@),
    {
        if let Err(stale) = self.v_clock.validate(op.dot) {
            return Err(ControllerCmRDTError::VClock(stale));
        }
        if op.txns_op.is_none() && op.history_hashes_op.is_none() && op.candidates_op.is_none() {
            return Err(ControllerCmRDTError::NoneOp);
        }
        if let Some(t_op) = &op.txns_op {
            if let Err(missing) = self.txns.validate_op(t_op) {
                return Err(ControllerCmRDTError::Txns(missing));
            }
        }
        if let Some(h_op) = &op.history_hashes_op {
            if let Err(refused) = self.history_hashes.validate_op(h_op) {
                return Err(ControllerCmRDTError::HistoryHashes(refused));
            }
        }
        if let Some(c_op) = &op.candidates_op {
            if let Err(missing) = self.candidates.validate_op(c_op) {
                return Err(ControllerCmRDTError::Candidates(missing));
            }
        }
        Ok(())
    }

    /// Validates the merge of `other` into this controller, field by field,
    /// stopping at the first field in conflict. Nothing is changed. Clocks can
    /// always be joined.
    pub fn validate_merge(&self, other: &Controller) -> (checked: Result<
        (),
        ControllerCvRDTError,
    >)
        ensures
            merge_validation(self@, other@, checked),
    {
        if let Err(e) = self.txns.validate_merge(&other.txns) {
            return Err(ControllerCvRDTError::Txns(e));
        }
        if let Err(e) = self.history_hashes.validate_merge(&other.history_hashes) {
            return Err(ControllerCvRDTError::HistoryHashes(e));
        }
        if let Err(e) = self.candidates.validate_merge(&other.candidates) {
            return Err(ControllerCvRDTError::Candidates(e));
        }
        Ok(())
    }

    /// Merges `other` into this controller: the clock first, then each field
    /// with its counterpart.
    pub fn merge(&mut self, other: Controller)
        ensures
            merges(old(self)@, other@, final(self)@),
            old(self).wf() ==> final(self).wf(),
    {
        let Controller { v_clock, txns, history_hashes, candidates } = other;
        self.v_clock.join(v_clock);
        self.txns.merge(txns);
        self.history_hashes.merge(history_hashes);
        self.candidates.merge(candidates);
    }
}

/// Whether two operations on the map of history hashes may be applied to
/// `state` in either order: whatever the sets have deferred after the one,
/// the other then gives the same.
pub open spec fn map_ops_commute(state: MapState, first: MapOpView, second: MapOpView) -> bool {
    forall|after_first: MapState, after_second: MapState|
        settled(after_first) == map_applied(state, first)
            && settled(after_second) == map_applied(state, second)
            ==> #[trigger] map_applied(after_first, second)
            == #[trigger] map_applied(after_second, first)
}

/// Whether the field operations of `first` and `second` may be applied to
/// `state` in either order: for each field, at most one of the two envelopes
/// holds an operation, or the two operations commute on the field.
pub open spec fn fields_commute(state: ControllerState, first: OpView, second: OpView) -> bool {
    &&& match (first.txns_op, second.txns_op) {
        (Some(a), Some(b)) => text_set_applied(text_set_applied(state.txns, a), b)
            == text_set_applied(text_set_applied(state.txns, b), a),
        _ => true,
    }
    &&& match (first.history_hashes_op, second.history_hashes_op) {
        (Some(a), Some(b)) => map_ops_commute(state.history_hashes, a, b),
        _ => true,
    }
    &&& match (first.candidates_op, second.candidates_op) {
        (Some(a), Some(b)) => byte_set_applied(byte_set_applied(state.candidates, a), b)
            == byte_set_applied(byte_set_applied(state.candidates, b), a),
        _ => true,
    }
}

/// Whether the joins of the fields of `ours` and `theirs` give the same in
/// either order.
pub open spec fn field_joins_commute(ours: ControllerState, theirs: ControllerState) -> bool {
    &&& text_set_merged(ours.txns, theirs.txns) == text_set_merged(theirs.txns, ours.txns)
    &&& map_merged(ours.history_hashes, theirs.history_hashes) == map_merged(
        theirs.history_hashes,
        ours.history_hashes,
    )
    &&& byte_set_merged(ours.candidates, theirs.candidates) == byte_set_merged(
        theirs.candidates,
        ours.candidates,
    )
}

/// Whether the joins of three maps give the same however they are grouped,
/// whatever the sets have deferred after the first join of each grouping.
pub open spec fn map_joins_associate(a: MapState, b: MapState, c: MapState) -> bool {
    forall|ab: MapState, bc: MapState|
        settled(ab) == map_merged(a, b) && settled(bc) == map_merged(b, c)
            ==> #[trigger] map_merged(ab, c) == #[trigger] map_merged(a, bc)
}

/// Whether the joins of the fields of `a`, `b` and `c` give the same however
/// they are grouped.
pub open spec fn field_joins_associate(
    a: ControllerState,
    b: ControllerState,
    c: ControllerState,
) -> bool {
    &&& text_set_merged(text_set_merged(a.txns, b.txns), c.txns) == text_set_merged(
        a.txns,
        text_set_merged(b.txns, c.txns),
    )
    &&& map_joins_associate(a.history_hashes, b.history_hashes, c.history_hashes)
    &&& byte_set_merged(byte_set_merged(a.candidates, b.candidates), c.candidates)
        == byte_set_merged(a.candidates, byte_set_merged(b.candidates, c.candidates))
}

/// Whether joining each field of `state` with itself changes nothing, the map
/// but for what its sets have deferred.
pub open spec fn field_joins_idempotent(state: ControllerState) -> bool {
    &&& text_set_merged(state.txns, state.txns) == state.txns
    &&& map_merged(state.history_hashes, state.history_hashes) == settled(state.history_hashes)
    &&& byte_set_merged(state.candidates, state.candidates) == state.candidates
}

/// Applying an envelope twice leaves what applying it once leaves.
pub proof fn apply_idempotent(
    before: ControllerState,
    op: OpView,
    once: ControllerState,
    twice: ControllerState,
)
    requires
        applies(before, op, once),
        applies(once, op, twice),
    ensures
        twice == once,
{
}

/// Two envelopes of different actors may be applied in either order, where
/// their field operations touch different fields or commute on the fields
/// that both touch: the two states are the same, but for what the sets of the
/// map have deferred where an operation was applied to the map.
pub proof fn apply_commutes(
    state: ControllerState,
    first: OpView,
    second: OpView,
    after_first: ControllerState,
    after_both: ControllerState,
    after_second: ControllerState,
    after_both_reversed: ControllerState,
)
    requires
        first.dot.actor != second.dot.actor,
        fields_commute(state, first, second),
        applies(state, first, after_first),
        applies(after_first, second, after_both),
        applies(state, second, after_second),
        applies(after_second, first, after_both_reversed),
    ensures
        after_both.settled() == after_both_reversed.settled(),
        !reaches_map(state, first) && !reaches_map(state, second) ==> after_both
            == after_both_reversed,
{
    assert(advanced(advanced(state.clock, first.dot), second.dot) =~= advanced(
        advanced(state.clock, second.dot),
        first.dot,
    ));
    assert(is_new(after_first.clock, second.dot) == is_new(state.clock, second.dot));
    assert(is_new(after_second.clock, first.dot) == is_new(state.clock, first.dot));
}

/// Once an envelope that is not empty was applied, an envelope of the same
/// actor with a counter that is not higher is refused by validation and
/// changes nothing when applied.
pub proof fn gate_monotonic(
    state: ControllerState,
    op: OpView,
    after: ControllerState,
    later: OpView,
    last: ControllerState,
)
    requires
        !op.is_empty(),
        applies(state, op, after),
        later.dot.actor == op.dot.actor,
        later.dot.counter <= op.dot.counter,
        applies(after, later, last),
    ensures
        !is_new(after.clock, later.dot),
        validation(after, later) is Err,
        last == after,
{
}

/// Neither applying an envelope nor merging a state lowers a counter of the
/// clock.
pub proof fn clock_never_decreases(
    state: ControllerState,
    op: OpView,
    theirs: ControllerState,
    after: ControllerState,
    actor: u64,
)
    requires
        applies(state, op, after) || merges(state, theirs, after),
    ensures
        counter_of(after.clock, actor) >= counter_of(state.clock, actor),
        merges(state, theirs, after) ==> counter_of(after.clock, actor) >= counter_of(
            theirs.clock,
            actor,
        ),
{
}

/// A dot that the clock has acknowledged stays acknowledged: whatever was
/// applied or merged in between, an envelope under it changes nothing.
pub proof fn acknowledged_stays(
    state: ControllerState,
    between: OpView,
    theirs: ControllerState,
    then: ControllerState,
    late: OpView,
    last: ControllerState,
)
    requires
        !is_new(state.clock, late.dot),
        then == state || applies(state, between, then) || merges(state, theirs, then),
        applies(then, late, last),
    ensures
        last == then,
{
    if then != state {
        clock_never_decreases(state, between, theirs, then, late.dot.actor);
    }
}

/// An envelope that validation accepts takes effect: applying it leaves its
/// dot acknowledged, with the counter of its actor at the dot's counter.
pub proof fn accepted_is_applied(state: ControllerState, op: OpView, after: ControllerState)
    requires
        validation(state, op) is Ok,
        applies(state, op, after),
    ensures
        counter_of(after.clock, op.dot.actor) == op.dot.counter,
        after != state,
{
    assert(counter_of(state.clock, op.dot.actor) < op.dot.counter);
}

/// An envelope without field operations never passes validation, is refused
/// as empty where its dot is new, and changes nothing when applied: the clock
/// does not advance.
pub proof fn empty_op_refused(state: ControllerState, op: OpView, after: ControllerState)
    requires
        op.is_empty(),
        applies(state, op, after),
    ensures
        validation(state, op) is Err,
        is_new(state.clock, op.dot) ==> validation(state, op) == Err::<
            (),
            ControllerCmRDTError,
        >(ControllerCmRDTError::NoneOp),
        after == state,
{
}

/// Merging gives the same in either order, but for what the sets of the map
/// have deferred, where the joins of the fields do. Of the clocks it is
/// proved; of the fields it is taken from the sets and the map.
pub proof fn merge_commutative(
    ours: ControllerState,
    theirs: ControllerState,
    one: ControllerState,
    other: ControllerState,
)
    requires
        ours.wf(),
        theirs.wf(),
        field_joins_commute(ours, theirs),
        merges(ours, theirs, one),
        merges(theirs, ours, other),
    ensures
        one.settled() == other.settled(),
{
    join_commutative(ours.clock, theirs.clock);
}

/// Merging three states gives the same however the merges are grouped, but
/// for what the sets of the map have deferred, where the joins of the fields
/// do.
pub proof fn merge_associative(
    a: ControllerState,
    b: ControllerState,
    c: ControllerState,
    ab: ControllerState,
    bc: ControllerState,
    left: ControllerState,
    right: ControllerState,
)
    requires
        field_joins_associate(a, b, c),
        merges(a, b, ab),
        merges(ab, c, left),
        merges(b, c, bc),
        merges(a, bc, right),
    ensures
        left.settled() == right.settled(),
{
    join_associative(a.clock, b.clock, c.clock);
}

/// Merging a state with itself changes nothing, but for what the sets of the
/// map have deferred, where joining each field with itself changes nothing.
pub proof fn merge_idempotent(state: ControllerState, after: ControllerState)
    requires
        field_joins_idempotent(state),
        merges(state, state, after),
    ensures
        after.settled() == state.settled(),
{
    join_idempotent(state.clock);
}

} // verus!
