//! A composite among the fields of a composite: a controller with a set of
//! candidates, a counter for the block height and a pool, which is itself a
//! clock with a set of transactions.
//!
//! Both levels follow the same protocol. An envelope for the controller may
//! hold an envelope for the pool, with a dot of its own that the pool's clock
//! gates.

use crate::clock::{advanced, counter_of, gate, is_new, joined, no_dots, positive};
use crate::clock::{join_associative, join_commutative, join_idempotent};
use crate::clock::{CausalClock, CausalityError};
use crate::counter::GrowCounter;
use crate::dot::Dot;
use crate::error::{DotRange, DoubleSpentDot};
use crate::orset::{byte_set_applied, byte_set_merged, text_set_applied, text_set_merged};
use crate::orset::{double_spent, empty_set, set_clock_after, set_op_check, spent_twice};
use crate::orset::{ByteSet, SetOp, SetOpView, SetState, TextSet};
use vstd::prelude::*;

verus! {

/// The pool: a set of transactions under a clock of its own.
#[derive(Debug, PartialEq, Eq)]
pub struct Pool {
    txns: TextSet,
    v_clock: CausalClock,
}

/// What a pool holds: the view of a [`Pool`].
pub struct PoolState {
    pub txns: SetState<Seq<char>>,
    pub clock: Map<u64, u64>,
}

/// An operation envelope for a pool.
#[derive(Clone, Debug, PartialEq, Eq)]
pub struct PoolCrdtOp {
    pub dot: Dot,
    pub txns_op: Option<SetOp<String>>,
}

/// The view of a [`PoolCrdtOp`].
pub struct PoolOpView {
    pub dot: Dot,
    pub txns_op: Option<SetOpView<Seq<char>>>,
}

/// Why a pool refuses an operation.
#[derive(Clone, Copy, Debug, PartialEq, Eq, Structural)]
pub enum PoolCmRDTError {
    /// The envelope holds no field operation.
    NoneOp,
    /// The envelope's dot is not newer than what the pool's clock has recorded.
    VClock(CausalityError),
    /// The transaction set refuses its operation.
    Txns(DotRange),
}

/// Why two pools cannot be merged.
#[derive(Clone, Debug, PartialEq, Eq)]
pub enum PoolCvRDTError {
    Txns(DoubleSpentDot<String>),
}

/// The replicated aggregate.
#[derive(Debug, PartialEq, Eq)]
pub struct ControllerOne {
    candidates: ByteSet,
    block_height: GrowCounter,
    pool: Pool,
    v_clock: CausalClock,
}

/// What a controller holds: the view of a [`ControllerOne`].
pub struct ControllerOneState {
    pub candidates: SetState<Seq<u8>>,
    pub block_height: Map<u64, u64>,
    pub pool: PoolState,
    pub clock: Map<u64, u64>,
}

/// An operation envelope for a controller: the dot of the event and one
/// optional operation for each field.
#[derive(Clone, Debug, PartialEq, Eq)]
pub struct ControllerOneCrdtOp {
    pub dot: Dot,
    pub candidates_op: Option<SetOp<Vec<u8>>>,
    pub block_height_op: Option<Dot>,
    pub pool_op: Option<PoolCrdtOp>,
}

/// The view of a [`ControllerOneCrdtOp`].
pub struct ControllerOneOpView {
    pub dot: Dot,
    pub candidates_op: Option<SetOpView<Seq<u8>>>,
    pub block_height_op: Option<Dot>,
    pub pool_op: Option<PoolOpView>,
}

/// Why a controller refuses an operation. The counter refuses none.
#[derive(Clone, Copy, Debug, PartialEq, Eq, Structural)]
pub enum ControllerOneCmRDTError {
    /// The envelope holds no field operation.
    NoneOp,
    /// The envelope's dot is not newer than what the clock has recorded.
    VClock(CausalityError),
    /// The candidate set refuses its operation.
    Candidates(DotRange),
    /// The pool refuses its envelope.
    Pool(PoolCmRDTError),
}

/// Why two controllers cannot be merged: the first field, in the order of the
/// variants, whose two states are in conflict. Counters and clocks can always
/// be joined.
#[derive(Clone, Debug, PartialEq, Eq)]
pub enum ControllerOneCvRDTError {
    Candidates(DoubleSpentDot<Vec<u8>>),
    Pool(PoolCvRDTError),
}

impl View for Pool {
    type V = PoolState;

    closed spec fn view(&self) -> PoolState {
        PoolState { txns: self.txns@, clock: self.v_clock@ }
    }
}

impl View for PoolCrdtOp {
    type V = PoolOpView;

    open spec fn view(&self) -> PoolOpView {
        PoolOpView {
            dot: self.dot,
            txns_op: match self.txns_op {
                Some(op) => Some(op@),
                None => None,
            },
        }
    }
}

impl View for ControllerOne {
    type V = ControllerOneState;

    closed spec fn view(&self) -> ControllerOneState {
        ControllerOneState {
            candidates: self.candidates@,
            block_height: self.block_height@,
            pool: self.pool@,
            clock: self.v_clock@,
        }
    }
}

impl View for ControllerOneCrdtOp {
    type V = ControllerOneOpView;

    open spec fn view(&self) -> ControllerOneOpView {
        ControllerOneOpView {
            dot: self.dot,
            candidates_op: match self.candidates_op {
                Some(op) => Some(op@),
                None => None,
            },
            block_height_op: self.block_height_op,
            pool_op: match self.pool_op {
                Some(op) => Some(op@),
                None => None,
            },
        }
    }
}

impl PoolOpView {
    /// Whether the envelope holds no field operation.
    pub open spec fn is_empty(self) -> bool {
        self.txns_op is None
    }
}

impl ControllerOneOpView {
    /// Whether the envelope holds no field operation.
    pub open spec fn is_empty(self) -> bool {
        self.candidates_op is None && self.block_height_op is None && self.pool_op is None
    }
}

impl PoolState {
    /// Whether no entry of the clock is 0.
    pub open spec fn wf(self) -> bool {
        positive(self.clock)
    }
}

impl ControllerOneState {
    /// Whether the clocks and the counter have no entry that is 0, and the
    /// counter has finitely many entries.
    pub open spec fn wf(self) -> bool {
        &&& positive(self.clock)
        &&& positive(self.block_height)
        &&& self.block_height.dom().finite()
        &&& self.pool.wf()
    }
}

/// The pool at its creation.
pub open spec fn empty_pool() -> PoolState {
    PoolState { txns: empty_set(), clock: no_dots() }
}

/// The controller at its creation: empty clocks and every field empty.
pub open spec fn initial() -> ControllerOneState {
    ControllerOneState {
        candidates: empty_set(),
        block_height: no_dots(),
        pool: empty_pool(),
        clock: no_dots(),
    }
}

/// What applying `op` makes of the pool `state`.
pub open spec fn pool_applied(state: PoolState, op: PoolOpView) -> PoolState {
    if !is_new(state.clock, op.dot) {
        state
    } else {
        match op.txns_op {
            Some(t_op) => PoolState {
                txns: text_set_applied(state.txns, t_op),
                clock: advanced(state.clock, op.dot),
            },
            None => state,
        }
    }
}

/// The clock of the pool's transaction set after `op` was applied to `state`.
pub open spec fn pool_txns_clock_after(state: PoolState, op: PoolOpView) -> Map<u64, u64> {
    match op.txns_op {
        Some(t_op) if is_new(state.clock, op.dot) => set_clock_after(state.txns.clock, t_op),
        _ => state.txns.clock,
    }
}

/// What the validation of a pool answers to `op` in `state`.
pub open spec fn pool_validation(state: PoolState, op: PoolOpView) -> Result<
    (),
    PoolCmRDTError,
> {
    if let Err(stale) = gate(state.clock, op.dot) {
        Err(PoolCmRDTError::VClock(stale))
    } else {
        match op.txns_op {
            None => Err(PoolCmRDTError::NoneOp),
            Some(t_op) => match set_op_check(state.txns.clock, t_op) {
                Err(missing) => Err(PoolCmRDTError::Txns(missing)),
                Ok(_) => Ok(()),
            },
        }
    }
}

/// The join of two pools.
pub open spec fn pool_merged(ours: PoolState, theirs: PoolState) -> PoolState {
    PoolState {
        txns: text_set_merged(ours.txns, theirs.txns),
        clock: joined(ours.clock, theirs.clock),
    }
}

/// Whether `checked` is what the validation of a merge of the pool `theirs`
/// into `ours` may answer.
pub open spec fn pool_merge_validation(
    ours: PoolState,
    theirs: PoolState,
    checked: Result<(), PoolCvRDTError>,
) -> bool {
    match checked {
        Ok(_) => !double_spent(ours.txns.entries, theirs.txns.entries),
        Err(PoolCvRDTError::Txns(e)) => spent_twice(
            ours.txns.entries,
            theirs.txns.entries,
            e.dot,
            e.ours@,
            e.theirs@,
        ),
    }
}

/// What applying `op` makes of `state`. Behind the causal gate and for an
/// envelope that is not empty, each field takes its operation and the clock
/// takes the dot; otherwise nothing changes.
pub open spec fn applied(state: ControllerOneState, op: ControllerOneOpView) -> ControllerOneState {
    if !is_new(state.clock, op.dot) || op.is_empty() {
        state
    } else {
        ControllerOneState {
            candidates: match op.candidates_op {
                Some(c_op) => byte_set_applied(state.candidates, c_op),
                None => state.candidates,
            },
            block_height: match op.block_height_op {
                Some(b_op) => advanced(state.block_height, b_op),
                None => state.block_height,
            },
            pool: match op.pool_op {
                Some(p_op) => pool_applied(state.pool, p_op),
                None => state.pool,
            },
            clock: advanced(state.clock, op.dot),
        }
    }
}

/// The clock of the candidate set after `op` was applied to `state`.
pub open spec fn candidates_clock_after(
    state: ControllerOneState,
    op: ControllerOneOpView,
) -> Map<u64, u64> {
    match op.candidates_op {
        Some(c_op) if is_new(state.clock, op.dot) => set_clock_after(state.candidates.clock, c_op),
        _ => state.candidates.clock,
    }
}

/// The clock of the pool's transaction set after `op` was applied to `state`.
pub open spec fn txns_clock_after(state: ControllerOneState, op: ControllerOneOpView) -> Map<
    u64,
    u64,
> {
    match op.pool_op {
        Some(p_op) if is_new(state.clock, op.dot) => pool_txns_clock_after(state.pool, p_op),
        _ => state.pool.txns.clock,
    }
}

/// What the candidate set answers to its slot of an envelope.
pub open spec fn candidates_check(state: ControllerOneState, op: ControllerOneOpView) -> Result<
    (),
    DotRange,
> {
    match op.candidates_op {
        Some(c_op) => set_op_check(state.candidates.clock, c_op),
        None => Ok(()),
    }
}

/// What the pool answers to its slot of an envelope.
pub open spec fn pool_check(state: ControllerOneState, op: ControllerOneOpView) -> Result<
    (),
    PoolCmRDTError,
> {
    match op.pool_op {
        Some(p_op) => pool_validation(state.pool, p_op),
        None => Ok(()),
    }
}

/// What validation answers to `op` in `state`: the causal gate first, then the
/// empty envelope, then the candidates, then the pool.
pub open spec fn validation(state: ControllerOneState, op: ControllerOneOpView) -> Result<
    (),
    ControllerOneCmRDTError,
> {
    if let Err(stale) = gate(state.clock, op.dot) {
        Err(ControllerOneCmRDTError::VClock(stale))
    } else if op.is_empty() {
        Err(ControllerOneCmRDTError::NoneOp)
    } else if let Err(missing) = candidates_check(state, op) {
        Err(ControllerOneCmRDTError::Candidates(missing))
    } else if let Err(refused) = pool_check(state, op) {
        Err(ControllerOneCmRDTError::Pool(refused))
    } else {
        Ok(())
    }
}

/// The join of two controller states: the clocks joined, and each field the
/// join of the two fields.
pub open spec fn merged(
    ours: ControllerOneState,
    theirs: ControllerOneState,
) -> ControllerOneState {
    ControllerOneState {
        candidates: byte_set_merged(ours.candidates, theirs.candidates),
        block_height: joined(ours.block_height, theirs.block_height),
        pool: pool_merged(ours.pool, theirs.pool),
        clock: joined(ours.clock, theirs.clock),
    }
}

/// Whether `checked` is what the validation of a merge of `theirs` into `ours`
/// may answer: `Ok` where no field is in conflict; otherwise the first field
/// in conflict, with an error that names a conflict of that field.
pub open spec fn merge_validation(
    ours: ControllerOneState,
    theirs: ControllerOneState,
    checked: Result<(), ControllerOneCvRDTError>,
) -> bool {
    let candidates = double_spent(ours.candidates.entries, theirs.candidates.entries);
    match checked {
        Ok(_) => !candidates && pool_merge_validation(ours.pool, theirs.pool, Ok(())),
        Err(ControllerOneCvRDTError::Candidates(e)) => spent_twice(
            ours.candidates.entries,
            theirs.candidates.entries,
            e.dot,
            e.ours@,
            e.theirs@,
        ),
        Err(ControllerOneCvRDTError::Pool(e)) => !candidates && pool_merge_validation(
            ours.pool,
            theirs.pool,
            Err(e),
        ),
    }
}

impl Clone for Pool {
    fn clone(&self) -> (copy: Pool)
        ensures
            copy@ == self@,
    {
        Pool { txns: self.txns.clone(), v_clock: self.v_clock.clone() }
    }
}

impl Clone for ControllerOne {
    fn clone(&self) -> (copy: ControllerOne)
        ensures
            copy@ == self@,
    {
        ControllerOne {
            candidates: self.candidates.clone(),
            block_height: self.block_height.clone(),
            pool: self.pool.clone(),
            v_clock: self.v_clock.clone(),
        }
    }
}

impl Default for Pool {
    fn default() -> (pool: Pool)
        ensures
            pool@ == empty_pool(),
            pool.wf(),
    {
        Pool::new()
    }
}

impl Default for ControllerOne {
    fn default() -> (controller: ControllerOne)
        ensures
            controller@ == initial(),
            controller.wf(),
    {
        ControllerOne::new()
    }
}

impl Pool {
    /// Whether no entry of the clock is 0. It holds of a new pool, and `apply`
    /// and `merge` keep it.
    pub open spec fn wf(&self) -> bool {
        self@.wf()
    }

    /// The pool that holds the given transactions and clock.
    pub fn from_parts(txns: TextSet, clock: CausalClock) -> (pool: Pool)
        ensures
            pool@ == (PoolState { txns: txns@, clock: clock@ }),
    {
        Pool { txns, v_clock: clock }
    }

    /// The transactions and the clock of the pool.
    pub fn into_parts(self) -> (parts: (TextSet, CausalClock))
        ensures
            self@ == (PoolState { txns: parts.0@, clock: parts.1@ }),
    {
        (self.txns, self.v_clock)
    }

    /// A pool with an empty clock and no transactions.
    pub fn new() -> (pool: Pool)
        ensures
            pool@ == empty_pool(),
            pool.wf(),
    {
        Pool { txns: TextSet::new(), v_clock: CausalClock::new() }
    }

    /// The clock.
    pub fn clock(&self) -> (clock: &CausalClock)
        ensures
            clock@ == self@.clock,
    {
        &self.v_clock
    }

    /// The set of transactions.
    pub fn txns(&self) -> (set: &TextSet)
        ensures
            set@ == self@.txns,
    {
        &self.txns
    }

    /// Applies an operation envelope: a no-op where the clock has acknowledged
    /// the dot or the envelope is empty.
    pub fn apply(&mut self, op: PoolCrdtOp)
        ensures
            final(self)@ == pool_applied(old(self)@, op@),
            final(self)@.txns.clock == pool_txns_clock_after(old(self)@, op@),
            old(self).wf() ==> final(self).wf(),
    {
        let PoolCrdtOp { dot, txns_op } = op;
        if self.v_clock.get(dot.actor) >= dot.counter {
            return ;
        }
        match txns_op {
            None => {
                return ;
            },
            Some(t_op) => {
                self.txns.apply(t_op);
            },
        }
        self.v_clock.advance(dot);
    }

    /// Validates an operation envelope against this pool, which is not changed.
    pub fn validate_op(&self, op: &PoolCrdtOp) -> (checked: Result<(), PoolCmRDTError>)
        ensures
            checked == pool_validation(self@, op@),
    {
        if let Err(stale) = self.v_clock.validate(op.dot) {
            return Err(PoolCmRDTError::VClock(stale));
        }
        match &op.txns_op {
            None => Err(PoolCmRDTError::NoneOp),
            Some(t_op) => match self.txns.validate_op(t_op) {
                Err(missing) => Err(PoolCmRDTError::Txns(missing)),
                Ok(_) => Ok(()),
            },
        }
    }

    /// Validates the merge of `other` into this pool. Nothing is changed.
    pub fn validate_merge(&self, other: &Pool) -> (checked: Result<(), PoolCvRDTError>)
        ensures
            pool_merge_validation(self@, other@, checked),
    {
        match self.txns.validate_merge(&other.txns) {
            Err(e) => Err(PoolCvRDTError::Txns(e)),
            Ok(_) => Ok(()),
        }
    }

    /// Merges `other` into this pool.
    pub fn merge(&mut self, other: Pool)
        ensures
            final(self)@ == pool_merged(old(self)@, other@),
            final(self)@.txns.clock == joined(old(self)@.txns.clock, other@.txns.clock),
            old(self).wf() ==> final(self).wf(),
    {
        let Pool { txns, v_clock } = other;
        self.txns.merge(txns);
        self.v_clock.join(v_clock);
    }
}

impl ControllerOne {
    /// Whether the clocks and the counter have no entry that is 0, and the
    /// counter has finitely many entries. It holds of a new controller, and
    /// `apply` and `merge` keep it.
    pub open spec fn wf(&self) -> bool {
        self@.wf()
    }

    /// The controller that holds the given fields and clock.
    pub fn from_parts(
        candidates: ByteSet,
        block_height: GrowCounter,
        pool: Pool,
        clock: CausalClock,
    ) -> (controller: ControllerOne)
        ensures
            controller@ == (ControllerOneState {
                candidates: candidates@,
                block_height: block_height@,
                pool: pool@,
                clock: clock@,
            }),
    {
        ControllerOne { candidates, block_height, pool, v_clock: clock }
    }

    /// The fields and the clock of the controller: the candidates, the block
    /// height, the pool and the clock.
    pub fn into_parts(self) -> (parts: (ByteSet, GrowCounter, Pool, CausalClock))
        ensures
            self@ == (ControllerOneState {
                candidates: parts.0@,
                block_height: parts.1@,
                pool: parts.2@,
                clock: parts.3@,
            }),
    {
        (self.candidates, self.block_height, self.pool, self.v_clock)
    }

    /// A controller with empty clocks and every field empty.
    pub fn new() -> (controller: ControllerOne)
        ensures
            controller@ == initial(),
            controller.wf(),
    {
        ControllerOne {
            candidates: ByteSet::new(),
            block_height: GrowCounter::new(),
            pool: Pool::new(),
            v_clock: CausalClock::new(),
        }
    }

    /// The clock.
    pub fn clock(&self) -> (clock: &CausalClock)
        ensures
            clock@ == self@.clock,
    {
        &self.v_clock
    }

    /// The set of candidates.
    pub fn candidates(&self) -> (set: &ByteSet)
        ensures
            set@ == self@.candidates,
    {
        &self.candidates
    }

    /// The counter of the block height.
    pub fn block_height(&self) -> (counter: &GrowCounter)
        ensures
            counter@ == self@.block_height,
    {
        &self.block_height
    }

    /// The pool.
    pub fn pool(&self) -> (pool: &Pool)
        ensures
            pool@ == self@.pool,
    {
        &self.pool
    }

    /// Applies an operation envelope. A dot that the clock has acknowledged
    /// makes it a no-op, and so does an envelope without field operations;
    /// otherwise every field operation is applied and the clock then
    /// acknowledges the dot.
    pub fn apply(&mut self, op: ControllerOneCrdtOp)
        ensures
            final(self)@ == applied(old(self)@, op@),
            final(self)@.candidates.clock == candidates_clock_after(old(self)@, op@),
            final(self)@.pool.txns.clock == txns_clock_after(old(self)@, op@),
            old(self).wf() ==> final(self).wf(),
    {
        let ControllerOneCrdtOp { dot, candidates_op, block_height_op, pool_op } = op;
        if self.v_clock.get(dot.actor) >= dot.counter {
            return ;
        }
        if candidates_op.is_none() && block_height_op.is_none() && pool_op.is_none() {
            return ;
        }
        if let Some(c_op) = candidates_op {
            self.candidates.apply(c_op);
        }
        if let Some(b_op) = block_height_op {
            self.block_height.apply(b_op);
        }
        if let Some(p_op) = pool_op {
            self.pool.apply(p_op);
        }
        self.v_clock.advance(dot);
    }

    /// Validates an operation envelope against this controller, which is not
    /// changed: the causal gate first, then the empty envelope, then each
    /// field operation against its field, stopping at the first refusal.
    pub fn validate_op(&self, op: &ControllerOneCrdtOp) -> (checked: Result<
        (),
        ControllerOneCmRDTError,
    >)
        ensures
            checked == validation(self@, op@),
    {
        if let Err(stale) = self.v_clock.validate(op.dot) {
            return Err(ControllerOneCmRDTError::VClock(stale));
        }
        if op.candidates_op.is_none() && op.block_height_op.is_none() && op.pool_op.is_none() {
            return Err(ControllerOneCmRDTError::NoneOp);
        }
        if let Some(c_op) = &op.candidates_op {
            if let Err(missing) = self.candidates.validate_op(c_op) {
                return Err(ControllerOneCmRDTError::Candidates(missing));
            }
        }
        if let Some(p_op) = &op.pool_op {
            if let Err(refused) = self.pool.validate_op(p_op) {
                return Err(ControllerOneCmRDTError::Pool(refused));
            }
        }
        Ok(())
    }

    /// Validates the merge of `other` into this controller, field by field,
    /// stopping at the first field in conflict. Nothing is changed.
    pub fn validate_merge(&self, other: &ControllerOne) -> (checked: Result<
        (),
        ControllerOneCvRDTError,
    >)
        ensures
            merge_validation(self@, other@, checked),
    {
        if let Err(e) = self.candidates.validate_merge(&other.candidates) {
            return Err(ControllerOneCvRDTError::Candidates(e));
        }
        if let Err(e) = self.pool.validate_merge(&other.pool) {
            return Err(ControllerOneCvRDTError::Pool(e));
        }
        Ok(())
    }

    /// Merges `other` into this controller: the clock first, then each field
    /// with its counterpart.
    pub fn merge(&mut self, other: ControllerOne)
        ensures
            final(self)@ == merged(old(self)@, other@),
            final(self)@.candidates.clock == joined(
                old(self)@.candidates.clock,
                other@.candidates.clock,
            ),
            final(self)@.pool.txns.clock == joined(
                old(self)@.pool.txns.clock,
                other@.pool.txns.clock,
            ),
            old(self).wf() && other.wf() ==> final(self).wf(),
    {
        let ControllerOne { candidates, block_height, pool, v_clock } = other;
        self.v_clock.join(v_clock);
        self.candidates.merge(candidates);
        self.block_height.merge(block_height);
        self.pool.merge(pool);
    }
}

/// Whether the field operations of `first` and `second` may be applied to
/// `state` in either order: for each field, at most one of the two envelopes
/// holds an operation, or the two operations commute on the field.
pub open spec fn fields_commute(
    state: ControllerOneState,
    first: ControllerOneOpView,
    second: ControllerOneOpView,
) -> bool {
    &&& match (first.candidates_op, second.candidates_op) {
        (Some(a), Some(b)) => byte_set_applied(byte_set_applied(state.candidates, a), b)
            == byte_set_applied(byte_set_applied(state.candidates, b), a),
        _ => true,
    }
    &&& match (first.block_height_op, second.block_height_op) {
        (Some(a), Some(b)) => advanced(advanced(state.block_height, a), b) == advanced(
            advanced(state.block_height, b),
            a,
        ),
        _ => true,
    }
    &&& match (first.pool_op, second.pool_op) {
        (Some(a), Some(b)) => pool_applied(pool_applied(state.pool, a), b) == pool_applied(
            pool_applied(state.pool, b),
            a,
        ),
        _ => true,
    }
}

/// Whether the joins of the sets of `ours` and `theirs` give the same in
/// either order.
pub open spec fn set_joins_commute(ours: ControllerOneState, theirs: ControllerOneState) -> bool {
    &&& byte_set_merged(ours.candidates, theirs.candidates) == byte_set_merged(
        theirs.candidates,
        ours.candidates,
    )
    &&& text_set_merged(ours.pool.txns, theirs.pool.txns) == text_set_merged(
        theirs.pool.txns,
        ours.pool.txns,
    )
}

/// Whether the joins of the sets of `a`, `b` and `c` give the same however
/// they are grouped.
pub open spec fn set_joins_associate(
    a: ControllerOneState,
    b: ControllerOneState,
    c: ControllerOneState,
) -> bool {
    &&& byte_set_merged(byte_set_merged(a.candidates, b.candidates), c.candidates)
        == byte_set_merged(a.candidates, byte_set_merged(b.candidates, c.candidates))
    &&& text_set_merged(text_set_merged(a.pool.txns, b.pool.txns), c.pool.txns)
        == text_set_merged(a.pool.txns, text_set_merged(b.pool.txns, c.pool.txns))
}

/// Whether joining each set of `state` with itself changes nothing.
pub open spec fn set_joins_idempotent(state: ControllerOneState) -> bool {
    &&& byte_set_merged(state.candidates, state.candidates) == state.candidates
    &&& text_set_merged(state.pool.txns, state.pool.txns) == state.pool.txns
}

/// Applying an envelope twice leaves what applying it once leaves, for the
/// pool and for the controller.
pub proof fn apply_idempotent(
    state: ControllerOneState,
    op: ControllerOneOpView,
    pool_op: PoolOpView,
)
    ensures
        pool_applied(pool_applied(state.pool, pool_op), pool_op) == pool_applied(
            state.pool,
            pool_op,
        ),
        applied(applied(state, op), op) == applied(state, op),
{
}

/// Two increments of different actors may be applied to a counter in either
/// order.
pub proof fn increments_commute(counts: Map<u64, u64>, first: Dot, second: Dot)
    requires
        first.actor != second.actor,
    ensures
        advanced(advanced(counts, first), second) == advanced(advanced(counts, second), first),
{
    assert(advanced(advanced(counts, first), second) =~= advanced(
        advanced(counts, second),
        first,
    ));
}

/// Two envelopes of different actors may be applied in either order, where
/// their field operations touch different fields or commute on the fields
/// that both touch.
pub proof fn apply_commutes(
    state: ControllerOneState,
    first: ControllerOneOpView,
    second: ControllerOneOpView,
)
    requires
        first.dot.actor != second.dot.actor,
        fields_commute(state, first, second),
    ensures
        applied(applied(state, first), second) == applied(applied(state, second), first),
{
    let one = applied(applied(state, first), second);
    let other = applied(applied(state, second), first);
    assert(one.clock =~= other.clock);
}

/// Once an envelope that is not empty was applied, an envelope of the same
/// actor with a counter that is not higher is refused by validation and
/// changes nothing when applied.
pub proof fn gate_monotonic(
    state: ControllerOneState,
    op: ControllerOneOpView,
    later: ControllerOneOpView,
)
    requires
        !op.is_empty(),
        later.dot.actor == op.dot.actor,
        later.dot.counter <= op.dot.counter,
    ensures
        !is_new(applied(state, op).clock, later.dot),
        applied(applied(state, op), later) == applied(state, op),
        validation(applied(state, op), later) is Err,
{
}

/// An envelope without field operations never passes validation, is refused
/// as empty where its dot is new, and changes nothing when applied: the clock
/// does not advance.
pub proof fn empty_op_refused(state: ControllerOneState, op: ControllerOneOpView)
    requires
        op.is_empty(),
    ensures
        validation(state, op) is Err,
        is_new(state.clock, op.dot) ==> validation(state, op) == Err::<
            (),
            ControllerOneCmRDTError,
        >(ControllerOneCmRDTError::NoneOp),
        applied(state, op) == state,
{
}

/// Merging gives the same in either order, where the joins of the sets do.
/// Of the clocks and the counter it is proved; of the sets it is taken from
/// them.
pub proof fn merge_commutative(ours: ControllerOneState, theirs: ControllerOneState)
    requires
        ours.wf(),
        theirs.wf(),
        set_joins_commute(ours, theirs),
    ensures
        merged(ours, theirs) == merged(theirs, ours),
{
    join_commutative(ours.clock, theirs.clock);
    join_commutative(ours.block_height, theirs.block_height);
    join_commutative(ours.pool.clock, theirs.pool.clock);
}

/// Merging three states gives the same however the merges are grouped, where
/// the joins of the sets do.
pub proof fn merge_associative(a: ControllerOneState, b: ControllerOneState, c: ControllerOneState)
    requires
        set_joins_associate(a, b, c),
    ensures
        merged(merged(a, b), c) == merged(a, merged(b, c)),
{
    join_associative(a.clock, b.clock, c.clock);
    join_associative(a.block_height, b.block_height, c.block_height);
    join_associative(a.pool.clock, b.pool.clock, c.pool.clock);
}

/// Merging a state with itself changes nothing, where joining each set with
/// itself changes nothing.
pub proof fn merge_idempotent(state: ControllerOneState)
    requires
        set_joins_idempotent(state),
    ensures
        merged(state, state) == state,
{
    join_idempotent(state.clock);
    join_idempotent(state.block_height);
    join_idempotent(state.pool.clock);
}

} // verus!
