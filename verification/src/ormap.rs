//! The nested map: byte-string sets under integer keys, the map-valued field
//! of a composite.
//!
//! The map is a `crdts::Map` whose values are `crdts::Orswot` sets. What it
//! holds is modelled by [`MapState`]. What an operation or a join makes of a
//! state is for `crdts` to compute: the contracts name those results and say
//! of them only what the clock becomes. They name them [`settled`]: `crdts`
//! gathers the removals that the sets under the keys have deferred in an order
//! that changes from run to run, so that part of a result is left open. What
//! validation answers, and what is read, is stated in full.

use crate::clock::{advanced, clock_dots, concurrent, counter_of, joined, no_dots, vclock_get};
use crate::clock::CausalClock;
use crate::dot::Dot;
use crate::error::{DoubleSpentDot, MapMergeError, MapOpError};
use crate::orset::{
    byte_set_state, check_gap, double_spent, empty_set, gap, set_op_check, spent_twice, ByteSet,
    SetOp, SetOpView, SetState,
};
use crdts::map::{CvRDTValidation, Op};
use crdts::orswot;
use crdts::{CmRDT, CvRDT, Orswot, VClock};
use vstd::prelude::*;

verus! {

/// A map from integer keys to observed-remove sets of byte strings: a
/// `crdts::Map`, of which the verifier sees what [`map_state`] says it holds.
#[verifier::external_body]
#[derive(Debug, PartialEq, Eq)]
pub struct NestedMap {
    inner: crdts::Map<u64, Orswot<Vec<u8>, u64>, u64>,
}

/// What the map holds under one key.
pub struct MapEntry {
    /// The dots of the updates under this key that no removal has covered.
    pub clock: Map<u64, u64>,
    /// The set under this key.
    pub val: SetState<Seq<u8>>,
}

/// What a nested map holds.
pub struct MapState {
    /// The map's own clock: the dots of all updates it has seen.
    pub clock: Map<u64, u64>,
    /// The entries present, by key.
    pub entries: Map<u64, MapEntry>,
    /// The removals that wait for updates the map has not seen yet: the keys
    /// to remove, by the clock of the removal.
    pub deferred: Map<Map<u64, u64>, Set<u64>>,
}

/// The map that holds nothing and has seen nothing.
pub open spec fn empty_map() -> MapState {
    MapState { clock: Map::empty(), entries: Map::empty(), deferred: Map::empty() }
}

/// The entry under `key`: where there is none, the entry that has seen nothing
/// and holds the empty set.
pub open spec fn entry_of(entries: Map<u64, MapEntry>, key: u64) -> MapEntry {
    if entries.contains_key(key) {
        entries[key]
    } else {
        MapEntry { clock: no_dots(), val: empty_set() }
    }
}

/// `state` settled: without the removals that the sets under its keys have
/// deferred.
pub open spec fn settled(state: MapState) -> MapState {
    MapState {
        entries: state.entries.map_values(
            |entry: MapEntry|
                MapEntry { val: SetState { deferred: Map::empty(), ..entry.val }, ..entry },
        ),
        ..state
    }
}

/// The clock of a map after `op` was applied to it: an update is
/// acknowledged, a removal leaves the clock as it is.
pub open spec fn map_clock_after(clock: Map<u64, u64>, op: MapOpView) -> Map<u64, u64> {
    match op {
        MapOpView::Up { dot, .. } => advanced(clock, dot),
        MapOpView::Rm { .. } => clock,
    }
}

/// The clocks of the entries, by key.
pub open spec fn entry_clocks(entries: Map<u64, MapEntry>) -> Map<u64, Map<u64, u64>> {
    entries.map_values(|entry: MapEntry| entry.clock)
}

/// An operation on a nested map.
#[derive(Clone, Debug, PartialEq, Eq)]
pub enum MapOp {
    /// Removes, under the keys, what was updated under dots that the clock has seen.
    Rm { clock: CausalClock, keys: Vec<u64> },
    /// Applies `op` to the set under `key`, under the dot.
    Up { dot: Dot, key: u64, op: SetOp<Vec<u8>> },
}

/// The view of a [`MapOp`].
pub enum MapOpView {
    Rm { clock: Map<u64, u64>, keys: Set<u64> },
    Up { dot: Dot, key: u64, op: SetOpView<Seq<u8>> },
}

impl View for MapOp {
    type V = MapOpView;

    open spec fn view(&self) -> MapOpView {
        match self {
            MapOp::Rm { clock, keys } => MapOpView::Rm { clock: clock@, keys: keys@.to_set() },
            MapOp::Up { dot, key, op } => MapOpView::Up { dot: *dot, key: *key, op: op@ },
        }
    }
}

/// Whether each key of `keys` is below the next.
pub open spec fn ascending(keys: Seq<u64>) -> bool {
    forall|i: int, j: int| 0 <= i < j < keys.len() ==> keys[i] < keys[j]
}

/// What a map with the state `state` answers to the validation of `op`. An
/// update must not skip a dot of its actor, neither for the map nor for the
/// entry under its key, and the set under that key must accept the nested
/// operation; a removal is always accepted.
pub open spec fn map_op_check(state: MapState, op: MapOpView) -> Result<(), MapOpError> {
    match op {
        MapOpView::Rm { .. } => Ok(()),
        MapOpView::Up { dot, key, op } => update_check(state, dot, key, op),
    }
}

/// What a map with the state `state` answers to the validation of the update
/// of `key` under `dot` by `nested`.
pub open spec fn update_check(
    state: MapState,
    dot: Dot,
    key: u64,
    nested: SetOpView<Seq<u8>>,
) -> Result<(), MapOpError> {
    let entry = entry_of(state.entries, key);
    match gap(counter_of(state.clock, dot.actor), dot) {
        Err(missing) => Err(MapOpError::SourceOrder(missing)),
        Ok(_) => match gap(counter_of(entry.clock, dot.actor), dot) {
            Err(missing) => Err(MapOpError::SourceOrder(missing)),
            Ok(_) => match set_op_check(entry.val.clock, nested) {
                Err(missing) => Err(MapOpError::Value(missing)),
                Ok(_) => Ok(()),
            },
        },
    }
}

/// Whether the sets under `key` in `ours` and `theirs`, whose entries neither
/// has seen all of the other, hold `mine` and `yours` under one and the same dot.
pub open spec fn value_spent_twice(
    ours: Map<u64, MapEntry>,
    theirs: Map<u64, MapEntry>,
    key: u64,
    dot: Dot,
    mine: Seq<u8>,
    yours: Seq<u8>,
) -> bool {
    &&& ours.contains_key(key)
    &&& theirs.contains_key(key)
    &&& concurrent(ours[key].clock, theirs[key].clock)
    &&& spent_twice(ours[key].val.entries, theirs[key].val.entries, dot, mine, yours)
}

/// Whether two maps cannot be merged: a dot stands for two different keys, or
/// for two different members of the sets under one key whose entries are
/// concurrent.
pub open spec fn map_conflict(ours: Map<u64, MapEntry>, theirs: Map<u64, MapEntry>) -> bool {
    ||| double_spent(entry_clocks(ours), entry_clocks(theirs))
    ||| exists|key: u64, dot: Dot, mine: Seq<u8>, yours: Seq<u8>|
        value_spent_twice(ours, theirs, key, dot, mine, yours)
}

/// Whether `error` names a conflict between `ours` and `theirs`.
pub open spec fn names_conflict(
    ours: Map<u64, MapEntry>,
    theirs: Map<u64, MapEntry>,
    error: MapMergeError,
) -> bool {
    match error {
        MapMergeError::DoubleSpentDot(e) => spent_twice(
            entry_clocks(ours),
            entry_clocks(theirs),
            e.dot,
            e.ours,
            e.theirs,
        ),
        MapMergeError::Value(e) => exists|key: u64|
            value_spent_twice(ours, theirs, key, e.dot, e.ours@, e.theirs@),
    }
}

/// What a nested map holds.
pub uninterp spec fn map_state(map: NestedMap) -> MapState;

/// What `CmRDT::apply` makes of a nested map and an operation, settled: the
/// removals that the sets under the keys have deferred are left out, since
/// `crdts` gathers them again in an order that changes from run to run.
pub uninterp spec fn map_applied(state: MapState, op: MapOpView) -> MapState;

/// What `CvRDT::merge` makes of two nested maps, settled.
pub uninterp spec fn map_merged(ours: MapState, theirs: MapState) -> MapState;

/// `Map::new`: a map without clock entries, entries or deferred removals.
#[verifier::external_body]
fn map_new() -> (fresh: NestedMap)
    ensures
        map_state(fresh) == empty_map(),
{
    NestedMap { inner: crdts::Map::new() }
}

/// `Clone::clone` of `Map`: a map that holds the same.
#[verifier::external_body]
fn map_clone(map: &NestedMap) -> (copy: NestedMap)
    ensures
        map_state(copy) == map_state(*map),
{
    NestedMap { inner: map.inner.clone() }
}

/// `Map::read_ctx`: a copy of the map's clock.
#[verifier::external_body]
fn map_clock(map: &NestedMap) -> (clock: VClock<u64>)
    ensures
        clock_dots(clock) == map_state(*map).clock,
{
    map.inner.read_ctx().add_clock
}

/// `Map::keys`: the keys of the entries present, in ascending order.
#[verifier::external_body]
fn map_keys(map: &NestedMap) -> (keys: Vec<u64>)
    ensures
        ascending(keys@),
        keys@.to_set() == map_state(*map).entries.dom(),
{
    map.inner.keys().map(|ctx| *ctx.val).collect()
}

/// `Map::get`: the map's clock, the clock of the entry under the key (empty
/// where there is none), and a copy of the set under the key.
#[verifier::external_body]
fn map_get(map: &NestedMap, key: u64) -> (found: (
    VClock<u64>,
    VClock<u64>,
    Option<Orswot<Vec<u8>, u64>>,
))
    ensures
        clock_dots(found.0) == map_state(*map).clock,
        clock_dots(found.1) == entry_of(map_state(*map).entries, key).clock,
        found.2 is Some == map_state(*map).entries.contains_key(key),
        found.2 matches Some(set) ==> byte_set_state(set) == map_state(*map).entries[key].val,
{
    let ctx = map.inner.get(&key);
    (ctx.add_clock, ctx.rm_clock, ctx.val)
}

/// `CmRDT::apply` of `Map`: but for the removals that the sets under the keys
/// have deferred, the map becomes what `crdts` makes of its state and the
/// operation. Its clock acknowledges the dot of an update and is left as it
/// is by a removal.
#[verifier::external_body]
fn map_apply(map: &mut NestedMap, op: MapOp)
    ensures
        settled(map_state(*final(map))) == map_applied(map_state(*old(map)), op@),
        map_state(*final(map)).clock == map_clock_after(map_state(*old(map)).clock, op@),
{
    let dotted = |dot: Dot| crdts::Dot::new(dot.actor, dot.counter);
    map.inner.apply(match op {
        MapOp::Rm { clock, keys } => {
            Op::Rm { clock: clock.inner, keyset: keys.into_iter().collect() }
        },
        MapOp::Up { dot, key, op: SetOp::Add { dot: inner, members } } => {
            Op::Up { dot: dotted(dot), key, op: orswot::Op::Add { dot: dotted(inner), members } }
        },
        MapOp::Up { dot, key, op: SetOp::Rm { clock, members } } => {
            Op::Up { dot: dotted(dot), key, op: orswot::Op::Rm { clock: clock.inner, members } }
        },
    })
}

/// `CvRDT::merge` of `Map`: but for the removals that the sets under the keys
/// have deferred, the map becomes what `crdts` makes of the two states. Its
/// clock becomes the join of the two clocks.
#[verifier::external_body]
fn map_merge(map: &mut NestedMap, other: NestedMap)
    ensures
        settled(map_state(*final(map))) == map_merged(map_state(*old(map)), map_state(other)),
        map_state(*final(map)).clock == joined(map_state(*old(map)).clock, map_state(other).clock),
{
    map.inner.merge(other.inner)
}

/// `CvRDT::validate_merge` of `Map`: refused exactly where a dot of one of
/// this map's entries is recorded for another key of `other`, or where the
/// sets under one key, in entries that are concurrent, cannot be merged; the
/// error names such a conflict.
#[verifier::external_body]
fn map_validate_merge(map: &NestedMap, other: &NestedMap) -> (checked: Result<(), MapMergeError>)
    ensures
        checked.is_ok() == !map_conflict(map_state(*map).entries, map_state(*other).entries),
        checked matches Err(e) ==> names_conflict(
            map_state(*map).entries,
            map_state(*other).entries,
            e,
        ),
{
    let dotted = |dot: crdts::Dot<u64>| Dot { actor: dot.actor, counter: dot.counter };
    map.inner.validate_merge(&other.inner).map_err(|e| match e {
        CvRDTValidation::DoubleSpentDot { dot, our_key: ours, their_key: theirs } => {
            MapMergeError::DoubleSpentDot(DoubleSpentDot { dot: dotted(dot), ours, theirs })
        },
        CvRDTValidation::Value(orswot::Validation::DoubleSpentDot {
            dot,
            our_member: ours,
            their_member: theirs,
        }) => MapMergeError::Value(DoubleSpentDot { dot: dotted(dot), ours, theirs }),
    })
}

impl View for NestedMap {
    type V = MapState;

    open spec fn view(&self) -> MapState {
        map_state(*self)
    }
}

impl Clone for NestedMap {
    fn clone(&self) -> (copy: NestedMap)
        ensures
            copy@ == self@,
    {
        map_clone(self)
    }
}

impl NestedMap {
    /// The empty map.
    pub fn new() -> (map: NestedMap)
        ensures
            map@ == empty_map(),
    {
        map_new()
    }

    /// The counter that the map's clock has recorded for `actor`.
    pub fn seen(&self, actor: u64) -> (counter: u64)
        ensures
            counter == counter_of(self@.clock, actor),
    {
        let clock = map_clock(self);
        vclock_get(&clock, actor)
    }

    /// The keys of the entries present, in ascending order.
    pub fn keys(&self) -> (keys: Vec<u64>)
        ensures
            ascending(keys@),
            keys@.to_set() == self@.entries.dom(),
    {
        map_keys(self)
    }

    /// The set under `key`, where there is one.
    pub fn get(&self, key: u64) -> (set: Option<ByteSet>)
        ensures
            set is Some == self@.entries.contains_key(key),
            set matches Some(s) ==> s@ == self@.entries[key].val,
    {
        match map_get(self, key).2 {
            Some(set) => Some(ByteSet::from_orswot(set)),
            None => None,
        }
    }

    /// The operation by which `actor` adds `member` to the set under `key`:
    /// its dot, which is also the dot of the nested addition, is the successor
    /// of what the map has seen of `actor`. `None` where that counter has no
    /// successor. The map is not changed.
    pub fn update(&self, key: u64, member: Vec<u8>, actor: u64) -> (op: Option<MapOp>)
        ensures
            op is Some == (counter_of(self@.clock, actor) < u64::MAX),
            op matches Some(o) ==> {
                let dot = Dot { actor, counter: (counter_of(self@.clock, actor) + 1) as u64 };
                o@ == (MapOpView::Up {
                    dot,
                    key,
                    op: SetOpView::Add { dot, members: seq![member@] },
                })
            },
    {
        let seen = self.seen(actor);
        if seen == u64::MAX {
            return None;
        }
        let dot = Dot { actor, counter: seen + 1 };
        assert(member.deep_view() =~= member@);
        let mut members: Vec<Vec<u8>> = Vec::new();
        members.push(member);
        let nested = SetOp::Add { dot, members };
        assert(nested@->Add_members =~= seq![member@]);
        Some(MapOp::Up { dot, key, op: nested })
    }

    /// The operation that removes the entry under `key` as far as this map has
    /// seen it updated: the removal's clock is the clock of that entry. The
    /// map is not changed.
    pub fn rm(&self, key: u64) -> (op: MapOp)
        ensures
            op@ == (MapOpView::Rm {
                clock: entry_of(self@.entries, key).clock,
                keys: set![key],
            }),
    {
        let found = map_get(self, key);
        let mut keys: Vec<u64> = Vec::new();
        keys.push(key);
        assert(keys@ =~= seq![key]);
        assert(keys@.to_set() =~= set![key]) by {
            assert(keys@[0] == key);
            assert forall|k: u64| keys@.to_set().contains(k) <==> set![key].contains(k) by {
                if k == key {
                    assert(keys@.contains(keys@[0]));
                }
            }
        }
        MapOp::Rm { clock: CausalClock::from_vclock(found.1), keys }
    }

    /// What validation answers to `op`: an update must not skip a dot of its
    /// actor, neither for the map nor for the entry under its key, and the set
    /// under that key must accept the nested operation; a removal is always
    /// accepted. The map is not changed.
    pub fn validate_op(&self, op: &MapOp) -> (checked: Result<(), MapOpError>)
        ensures
            checked == map_op_check(self@, op@),
    {
        match op {
            MapOp::Rm { .. } => Ok(()),
            MapOp::Up { dot, key, op: nested } => {
                let found = map_get(self, *key);
                if let Err(missing) = check_gap(vclock_get(&found.0, dot.actor), *dot) {
                    return Err(MapOpError::SourceOrder(missing));
                }
                if let Err(missing) = check_gap(vclock_get(&found.1, dot.actor), *dot) {
                    return Err(MapOpError::SourceOrder(missing));
                }
                let set = match found.2 {
                    Some(set) => ByteSet::from_orswot(set),
                    None => ByteSet::new(),
                };
                match set.validate_op(nested) {
                    Err(missing) => Err(MapOpError::Value(missing)),
                    Ok(_) => Ok(()),
                }
            },
        }
    }

    /// Applies `op` to the map. What the map then holds is fixed by its
    /// state and the operation, but for the removals that the sets under the
    /// keys have deferred; its clock acknowledges the dot of an update and is
    /// left as it is by a removal.
    pub fn apply(&mut self, op: MapOp)
        ensures
            settled(final(self)@) == map_applied(old(self)@, op@),
            final(self)@.clock == map_clock_after(old(self)@.clock, op@),
    {
        map_apply(self, op)
    }

    /// Whether `other` can be merged into this map: refused exactly where the
    /// two are in conflict. The error names such a conflict.
    pub fn validate_merge(&self, other: &NestedMap) -> (checked: Result<(), MapMergeError>)
        ensures
            checked.is_ok() == !map_conflict(self@.entries, other@.entries),
            checked matches Err(e) ==> names_conflict(self@.entries, other@.entries, e),
    {
        map_validate_merge(self, other)
    }

    /// Joins `other` into this map. What the map then holds is fixed by the
    /// two states, but for the removals that the sets under the keys have
    /// deferred; its clock becomes the join of the two clocks.
    pub fn merge(&mut self, other: NestedMap)
        ensures
            settled(final(self)@) == map_merged(old(self)@, other@),
            final(self)@.clock == joined(old(self)@.clock, other@.clock),
    {
        map_merge(self, other)
    }
}

} // verus!
