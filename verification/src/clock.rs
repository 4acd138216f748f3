//! The causal clock: for each actor the highest counter acknowledged.
//!
//! The clock is a `crdts::VClock<u64>`. Its entries are modelled as a map from
//! actor to counter; the functions of this module say what reading, advancing
//! and joining do to that map, and the laws at the end are proved from them.

use crate::dot::Dot;
use crdts::{CmRDT, CvRDT, VClock};
use vstd::prelude::*;

verus! {

/// `crdts::VClock`, of which the verifier sees what [`clock_dots`] says it holds.
#[verifier::external_type_specification]
#[verifier::external_body]
#[verifier::reject_recursive_types(A)]
pub struct ExVClock<A: Ord>(crdts::VClock<A>);

/// The entries that a vector clock holds: each actor it has an entry for,
/// with that actor's counter.
pub uninterp spec fn clock_dots(clock: VClock<u64>) -> Map<u64, u64>;

/// The clock without entries.
pub open spec fn no_dots() -> Map<u64, u64> {
    Map::empty()
}

/// The counter that `dots` records for `actor`: 0 for an actor without an entry.
pub open spec fn counter_of(dots: Map<u64, u64>, actor: u64) -> u64 {
    if dots.contains_key(actor) {
        dots[actor]
    } else {
        0
    }
}

/// Whether `dot` is an event that `dots` has not acknowledged yet.
pub open spec fn is_new(dots: Map<u64, u64>, dot: Dot) -> bool {
    dot.counter > counter_of(dots, dot.actor)
}

/// `dots` after `dot` was acknowledged: the actor's entry is raised to the
/// dot's counter, and never lowered.
pub open spec fn advanced(dots: Map<u64, u64>, dot: Dot) -> Map<u64, u64> {
    if is_new(dots, dot) {
        dots.insert(dot.actor, dot.counter)
    } else {
        dots
    }
}

/// The join of two clocks: for each actor the higher of the two counters. An
/// actor has an entry in the join where `ours` has one, or `theirs` has one
/// with a counter above 0.
pub open spec fn joined(ours: Map<u64, u64>, theirs: Map<u64, u64>) -> Map<u64, u64> {
    Map::new(
        |actor: u64| ours.contains_key(actor) || counter_of(theirs, actor) > 0,
        |actor: u64|
            if counter_of(ours, actor) >= counter_of(theirs, actor) {
                counter_of(ours, actor)
            } else {
                counter_of(theirs, actor)
            },
    )
}

/// Whether every entry of `dots` has a counter above 0. Clocks that start
/// empty and change by `advanced` and `joined` only are of this form.
pub open spec fn positive(dots: Map<u64, u64>) -> bool {
    forall|actor: u64| dots.contains_key(actor) ==> #[trigger] dots[actor] > 0
}

/// Whether `ours` has acknowledged every event that `theirs` has.
pub open spec fn dominates(ours: Map<u64, u64>, theirs: Map<u64, u64>) -> bool {
    forall|actor: u64|
        theirs.contains_key(actor) ==> counter_of(ours, actor) >= #[trigger] theirs[actor]
}

/// Whether neither clock has acknowledged all that the other has.
pub open spec fn concurrent(ours: Map<u64, u64>, theirs: Map<u64, u64>) -> bool {
    ours != theirs && !dominates(ours, theirs) && !dominates(theirs, ours)
}

/// Whether `listed` holds the entries of `dots`, each once, in the ascending
/// order of the actors.
pub open spec fn lists(listed: Seq<Dot>, dots: Map<u64, u64>) -> bool {
    &&& forall|i: int, j: int|
        0 <= i < j < listed.len() ==> (#[trigger] listed[i]).actor < (#[trigger] listed[j]).actor
    &&& forall|i: int|
        0 <= i < listed.len() ==> dots.contains_key((#[trigger] listed[i]).actor)
            && dots[listed[i].actor] == listed[i].counter
    &&& forall|actor: u64|
        dots.contains_key(actor) ==> exists|i: int|
            0 <= i < listed.len() && (#[trigger] listed[i]).actor == actor
}

/// The clock that has acknowledged the dots of `dots`, one after the other.
pub open spec fn acknowledged(dots: Seq<Dot>) -> Map<u64, u64>
    decreases dots.len(),
{
    if dots.len() == 0 {
        no_dots()
    } else {
        advanced(acknowledged(dots.drop_last()), dots.last())
    }
}

/// `VClock::new`: a clock without entries.
#[verifier::external_body]
fn vclock_new() -> (fresh: VClock<u64>)
    ensures
        clock_dots(fresh) == no_dots(),
{
    VClock::new()
}

/// `Clone::clone` of `VClock`: a clock with the same entries.
#[verifier::external_body]
fn vclock_clone(clock: &VClock<u64>) -> (copy: VClock<u64>)
    ensures
        clock_dots(copy) == clock_dots(*clock),
{
    clock.clone()
}

/// `VClock::get`: the actor's counter, 0 where the clock has no entry for it.
#[verifier::external_body]
pub(crate) fn vclock_get(clock: &VClock<u64>, actor: u64) -> (counter: u64)
    ensures
        counter == counter_of(clock_dots(*clock), actor),
{
    clock.get(&actor)
}

/// `CmRDT::apply` of `VClock`: where the dot's counter is above the counter
/// recorded for its actor, the actor's entry is set to it; otherwise nothing
/// changes.
#[verifier::external_body]
fn vclock_apply(clock: &mut VClock<u64>, dot: Dot)
    ensures
        clock_dots(*final(clock)) == advanced(clock_dots(*old(clock)), dot),
{
    clock.apply(crdts::Dot::new(dot.actor, dot.counter))
}

/// `CvRDT::merge` of `VClock`: every entry of `other` is applied as a dot, so
/// each actor ends with the higher of its two counters.
#[verifier::external_body]
fn vclock_merge(clock: &mut VClock<u64>, other: VClock<u64>)
    ensures
        clock_dots(*final(clock)) == joined(clock_dots(*old(clock)), clock_dots(other)),
{
    clock.merge(other)
}

/// `VClock::iter`: the entries as dots, one for each actor, in the ascending
/// order of the actors.
#[verifier::external_body]
fn vclock_dots(clock: &VClock<u64>) -> (dots: Vec<Dot>)
    ensures
        lists(dots@, clock_dots(*clock)),
{
    clock.iter().map(|dot| Dot { actor: *dot.actor, counter: dot.counter }).collect()
}

/// A causal clock. Its view is the map from each actor it has an entry for to
/// the highest counter acknowledged from that actor.
#[derive(Debug, PartialEq, Eq)]
pub struct CausalClock {
    pub(crate) inner: VClock<u64>,
}

/// Why a dot did not pass the causal gate.
#[derive(Clone, Copy, Debug, PartialEq, Eq, Structural)]
pub struct CausalityError {
    /// The dot that was offered.
    pub dot: Dot,
    /// The counter that the clock has recorded for the dot's actor.
    pub seen: u64,
}

impl View for CausalClock {
    type V = Map<u64, u64>;

    closed spec fn view(&self) -> Map<u64, u64> {
        clock_dots(self.inner)
    }
}

impl Clone for CausalClock {
    fn clone(&self) -> (copy: CausalClock)
        ensures
            copy@ == self@,
    {
        CausalClock { inner: vclock_clone(&self.inner) }
    }
}

impl CausalClock {
    /// Whether no entry of the clock is 0.
    pub open spec fn wf(&self) -> bool {
        positive(self@)
    }

    /// The empty clock.
    pub fn new() -> (clock: CausalClock)
        ensures
            clock@ == no_dots(),
            clock.wf(),
    {
        CausalClock { inner: vclock_new() }
    }

    /// The causal clock that holds what the vector clock `inner` holds.
    pub fn from_vclock(inner: VClock<u64>) -> (clock: CausalClock)
        ensures
            clock@ == clock_dots(inner),
    {
        CausalClock { inner }
    }

    /// The vector clock that holds what this clock holds.
    pub fn into_vclock(self) -> (inner: VClock<u64>)
        ensures
            clock_dots(inner) == self@,
    {
        self.inner
    }

    /// The clock that has acknowledged each of `dots`.
    pub fn from_dots(dots: &Vec<Dot>) -> (clock: CausalClock)
        ensures
            clock@ == acknowledged(dots@),
            clock.wf(),
    {
        let mut clock = CausalClock::new();
        let mut done: usize = 0;
        while done < dots.len()
            invariant
                done <= dots.len(),
                clock@ == acknowledged(dots@.take(done as int)),
                clock.wf(),
            decreases dots.len() - done,
        {
            proof {
                let next = dots@.take(done + 1);
                assert(next.drop_last() =~= dots@.take(done as int));
                assert(next.last() == dots@[done as int]);
            }
            clock.advance(dots[done]);
            done = done + 1;
        }
        assert(dots@.take(done as int) =~= dots@);
        clock
    }

    /// The entries of the clock as dots, one for each actor, in the ascending
    /// order of the actors.
    pub fn dots(&self) -> (dots: Vec<Dot>)
        ensures
            lists(dots@, self@),
    {
        vclock_dots(&self.inner)
    }

    /// The counter acknowledged from `actor`, 0 where none was.
    pub fn get(&self, actor: u64) -> (counter: u64)
        ensures
            counter == counter_of(self@, actor),
    {
        vclock_get(&self.inner, actor)
    }

    /// The dot for the next event of `actor`: the successor of the counter
    /// acknowledged. `None` where that counter has no successor.
    pub fn next_dot(&self, actor: u64) -> (dot: Option<Dot>)
        ensures
            dot == if counter_of(self@, actor) < u64::MAX {
                Some(Dot { actor, counter: (counter_of(self@, actor) + 1) as u64 })
            } else {
                None
            },
            dot matches Some(d) ==> is_new(self@, d),
    {
        let seen = self.get(actor);
        if seen < u64::MAX {
            Some(Dot { actor, counter: seen + 1 })
        } else {
            None
        }
    }

    /// The causal gate: `Ok` exactly where `dot` is an event that the clock has
    /// not acknowledged. Nothing is changed.
    pub fn validate(&self, dot: Dot) -> (checked: Result<(), CausalityError>)
        ensures
            checked == gate(self@, dot),
    {
        let seen = self.get(dot.actor);
        if dot.counter > seen {
            Ok(())
        } else {
            Err(CausalityError { dot, seen })
        }
    }

    /// Acknowledges `dot`: raises the entry of its actor to its counter, and
    /// changes nothing where the counter recorded is as high already.
    pub fn advance(&mut self, dot: Dot)
        ensures
            final(self)@ == advanced(old(self)@, dot),
            old(self).wf() ==> final(self).wf(),
    {
        vclock_apply(&mut self.inner, dot)
    }

    /// Joins `other` into this clock: each actor ends with the higher of its
    /// two counters.
    pub fn join(&mut self, other: CausalClock)
        ensures
            final(self)@ == joined(old(self)@, other@),
            old(self).wf() ==> final(self).wf(),
    {
        vclock_merge(&mut self.inner, other.inner)
    }
}

/// What the causal gate answers for `dot` on a clock with the entries `dots`.
pub open spec fn gate(dots: Map<u64, u64>, dot: Dot) -> Result<(), CausalityError> {
    if is_new(dots, dot) {
        Ok(())
    } else {
        Err(CausalityError { dot, seen: counter_of(dots, dot.actor) })
    }
}

/// The counters of a join are the higher of the two counters, actor by actor.
pub proof fn joined_counter(ours: Map<u64, u64>, theirs: Map<u64, u64>, actor: u64)
    ensures
        counter_of(joined(ours, theirs), actor) == if counter_of(ours, actor) >= counter_of(
            theirs,
            actor,
        ) {
            counter_of(ours, actor)
        } else {
            counter_of(theirs, actor)
        },
{
}

/// Joining two clocks gives the same clock in either order.
pub proof fn join_commutative(ours: Map<u64, u64>, theirs: Map<u64, u64>)
    requires
        positive(ours),
        positive(theirs),
    ensures
        joined(ours, theirs) == joined(theirs, ours),
{
    assert(joined(ours, theirs) =~= joined(theirs, ours));
}

/// Joining three clocks gives the same clock however the joins are grouped.
pub proof fn join_associative(a: Map<u64, u64>, b: Map<u64, u64>, c: Map<u64, u64>)
    ensures
        joined(joined(a, b), c) == joined(a, joined(b, c)),
{
    assert(joined(joined(a, b), c) =~= joined(a, joined(b, c)));
}

/// Joining a clock with itself changes nothing.
pub proof fn join_idempotent(dots: Map<u64, u64>)
    ensures
        joined(dots, dots) == dots,
{
    assert(joined(dots, dots) =~= dots);
}

/// Joining the empty clock into a clock changes nothing, and joining a clock
/// without zero entries into the empty clock gives that clock.
pub proof fn join_identity(dots: Map<u64, u64>)
    ensures
        joined(dots, no_dots()) == dots,
        positive(dots) ==> joined(no_dots(), dots) == dots,
{
    assert(joined(dots, no_dots()) =~= dots);
    if positive(dots) {
        assert(joined(no_dots(), dots) =~= dots);
    }
}

/// The join is an upper bound of both clocks, and the least one: a clock that
/// has acknowledged all of `ours` and all of `theirs` has acknowledged all of
/// the join.
pub proof fn join_least_upper_bound(
    ours: Map<u64, u64>,
    theirs: Map<u64, u64>,
    bound: Map<u64, u64>,
)
    ensures
        dominates(joined(ours, theirs), ours),
        dominates(joined(ours, theirs), theirs),
        dominates(bound, ours) && dominates(bound, theirs) ==> dominates(
            bound,
            joined(ours, theirs),
        ),
{
    let join = joined(ours, theirs);
    if dominates(bound, ours) && dominates(bound, theirs) {
        assert forall|actor: u64| join.contains_key(actor) implies counter_of(bound, actor)
            >= #[trigger] join[actor] by {
            if counter_of(ours, actor) >= counter_of(theirs, actor) {
                if ours.contains_key(actor) {
                    assert(counter_of(bound, actor) >= ours[actor]);
                }
            } else {
                assert(theirs.contains_key(actor));
                assert(counter_of(bound, actor) >= theirs[actor]);
            }
        }
    }
}

/// Acknowledging a dot never lowers a counter, and leaves the dot acknowledged.
pub proof fn advance_monotonic(dots: Map<u64, u64>, dot: Dot, actor: u64)
    ensures
        counter_of(advanced(dots, dot), actor) >= counter_of(dots, actor),
        counter_of(advanced(dots, dot), dot.actor) >= dot.counter,
        !is_new(advanced(dots, dot), dot),
{
}

/// Acknowledging the same dot twice is acknowledging it once.
pub proof fn advance_idempotent(dots: Map<u64, u64>, dot: Dot)
    ensures
        advanced(advanced(dots, dot), dot) == advanced(dots, dot),
{
}

/// Clocks without zero entries stay so under `advanced` and `joined`.
pub proof fn positive_preserved(ours: Map<u64, u64>, theirs: Map<u64, u64>, dot: Dot)
    requires
        positive(ours),
    ensures
        positive(advanced(ours, dot)),
        positive(joined(ours, theirs)),
        positive(no_dots()),
{
    assert forall|actor: u64| joined(ours, theirs).contains_key(actor) implies #[trigger] joined(
        ours,
        theirs,
    )[actor] > 0 by {
        if ours.contains_key(actor) {
            assert(ours[actor] > 0);
        }
    }
}

/// The entries that the first `count` dots of `listed` stand for.
spec fn listed_until(listed: Seq<Dot>, dots: Map<u64, u64>, count: int) -> Map<u64, u64> {
    Map::new(
        |actor: u64| exists|i: int| 0 <= i < count && (#[trigger] listed[i]).actor == actor,
        |actor: u64| dots[actor],
    )
}

proof fn acknowledged_until(listed: Seq<Dot>, dots: Map<u64, u64>, count: int)
    requires
        lists(listed, dots),
        positive(dots),
        0 <= count <= listed.len(),
    ensures
        acknowledged(listed.take(count)) == listed_until(listed, dots, count),
    decreases count,
{
    let so_far = listed_until(listed, dots, count);
    if count == 0 {
        assert(acknowledged(listed.take(0)) =~= so_far);
    } else {
        acknowledged_until(listed, dots, count - 1);
        let before = listed_until(listed, dots, count - 1);
        let dot = listed[count - 1];
        assert(listed.take(count).drop_last() =~= listed.take(count - 1));
        assert(listed.take(count).last() == dot);
        assert(!before.contains_key(dot.actor)) by {
            if before.contains_key(dot.actor) {
                let i = choose|i: int|
                    0 <= i < count - 1 && (#[trigger] listed[i]).actor == dot.actor;
                assert(listed[i].actor < listed[count - 1].actor);
            }
        }
        assert(dots[dot.actor] == dot.counter);
        assert forall|actor: u64| so_far.contains_key(actor) <==> before.insert(
            dot.actor,
            dot.counter,
        ).contains_key(actor) by {
            if so_far.contains_key(actor) {
                let i = choose|i: int| 0 <= i < count && (#[trigger] listed[i]).actor == actor;
                if i < count - 1 {
                    assert(before.contains_key(listed[i].actor));
                }
            }
            if before.contains_key(actor) {
                let i = choose|i: int| 0 <= i < count - 1 && (#[trigger] listed[i]).actor == actor;
                assert(so_far.contains_key(listed[i].actor));
            }
            if actor == dot.actor {
                assert(so_far.contains_key(listed[count - 1].actor));
            }
        }
        assert(so_far =~= before.insert(dot.actor, dot.counter));
    }
}

/// A clock without zero entries is the clock that has acknowledged the dots
/// it lists: listing the entries and acknowledging them again loses nothing.
pub proof fn listed_dots_restore(listed: Seq<Dot>, dots: Map<u64, u64>)
    requires
        lists(listed, dots),
        positive(dots),
    ensures
        acknowledged(listed) == dots,
{
    acknowledged_until(listed, dots, listed.len() as int);
    assert(listed.take(listed.len() as int) =~= listed);
    let all = listed_until(listed, dots, listed.len() as int);
    assert forall|actor: u64| all.contains_key(actor) <==> dots.contains_key(actor) by {
        if all.contains_key(actor) {
            let i = choose|i: int| 0 <= i < listed.len() && (#[trigger] listed[i]).actor == actor;
            assert(dots.contains_key(listed[i].actor));
        }
    }
    assert(all =~= dots);
}

} // verus!
