//! The grow-only counter, the counter-valued field of a composite.
//!
//! The counter is a `crdts::GCounter<u64>`: for each actor the number of its
//! increments. Its value is the sum over the actors; two counters join by the
//! higher count of each actor, so that an increment delivered twice counts
//! once.

use crate::clock::{advanced, counter_of, joined, no_dots, positive};
use crate::dot::Dot;
use crdts::{CmRDT, CvRDT, GCounter};
use vstd::prelude::*;

verus! {

/// `crdts::GCounter`, of which the verifier sees what [`counter_dots`] says it
/// holds.
#[verifier::external_type_specification]
#[verifier::external_body]
#[verifier::reject_recursive_types(A)]
pub struct ExGCounter<A: Ord>(crdts::GCounter<A>);

/// The counts that a counter holds: each actor it has an entry for, with the
/// number of that actor's increments.
pub uninterp spec fn counter_dots(counter: GCounter<u64>) -> Map<u64, u64>;

/// The step of a sum over actors: the count of one more actor is added.
pub open spec fn adding(dots: Map<u64, u64>) -> spec_fn(int, u64) -> int {
    |sum: int, actor: u64| sum + dots[actor]
}

/// The sum of the counts of the actors in `actors`.
pub open spec fn sum_over(dots: Map<u64, u64>, actors: Set<u64>) -> int {
    actors.fold(0int, adding(dots))
}

/// The value of a counter with the counts `dots`: the sum of all counts.
pub open spec fn total(dots: Map<u64, u64>) -> int {
    sum_over(dots, dots.dom())
}

/// `GCounter::new`: a counter without entries.
#[verifier::external_body]
fn gcounter_new() -> (fresh: GCounter<u64>)
    ensures
        counter_dots(fresh) == no_dots(),
{
    GCounter::new()
}

/// `Clone::clone` of `GCounter`: a counter with the same counts.
#[verifier::external_body]
fn gcounter_clone(counter: &GCounter<u64>) -> (copy: GCounter<u64>)
    ensures
        counter_dots(copy) == counter_dots(*counter),
{
    counter.clone()
}

/// `GCounter::inc_many`: the dot that raises the actor's count by `steps`. The
/// sum is computed in `u64`.
#[verifier::external_body]
fn gcounter_inc_many(counter: &GCounter<u64>, actor: u64, steps: u64) -> (dot: Dot)
    requires
        counter_of(counter_dots(*counter), actor) + steps <= u64::MAX,
    ensures
        dot.actor == actor,
        dot.counter == counter_of(counter_dots(*counter), actor) + steps,
{
    let dot = counter.inc_many(actor, steps);
    Dot { actor: dot.actor, counter: dot.counter }
}

/// `CmRDT::apply` of `GCounter`: where the dot's counter is above the actor's
/// count, the count is set to it; otherwise nothing changes.
#[verifier::external_body]
fn gcounter_apply(counter: &mut GCounter<u64>, dot: Dot)
    ensures
        counter_dots(*final(counter)) == advanced(counter_dots(*old(counter)), dot),
{
    counter.apply(crdts::Dot::new(dot.actor, dot.counter))
}

/// `CvRDT::merge` of `GCounter`: each actor ends with the higher of its two
/// counts.
#[verifier::external_body]
fn gcounter_merge(counter: &mut GCounter<u64>, other: GCounter<u64>)
    ensures
        counter_dots(*final(counter)) == joined(counter_dots(*old(counter)), counter_dots(other)),
{
    counter.merge(other)
}

/// `GCounter::read`, brought into `u64`: the sum of all counts, or nothing
/// where the sum is beyond `u64`.
#[verifier::external_body]
fn gcounter_read(counter: &GCounter<u64>) -> (value: Option<u64>)
    ensures
        value is Some == (total(counter_dots(*counter)) <= u64::MAX),
        value matches Some(sum) ==> sum == total(counter_dots(*counter)),
{
    u64::try_from(counter.read()).ok()
}

/// A grow-only counter. Its view is the map from each actor it has an entry
/// for to the number of that actor's increments.
#[derive(Debug, PartialEq, Eq)]
pub struct GrowCounter {
    inner: GCounter<u64>,
}

impl View for GrowCounter {
    type V = Map<u64, u64>;

    closed spec fn view(&self) -> Map<u64, u64> {
        counter_dots(self.inner)
    }
}

impl Clone for GrowCounter {
    fn clone(&self) -> (copy: GrowCounter)
        ensures
            copy@ == self@,
    {
        GrowCounter { inner: gcounter_clone(&self.inner) }
    }
}

impl GrowCounter {
    /// Whether the counter has finitely many entries, none of them 0.
    pub open spec fn wf(&self) -> bool {
        positive(self@) && self@.dom().finite()
    }

    /// The counter at 0.
    pub fn new() -> (counter: GrowCounter)
        ensures
            counter@ == no_dots(),
            counter.wf(),
    {
        GrowCounter { inner: gcounter_new() }
    }

    /// The counter that holds what `inner` holds.
    pub fn from_gcounter(inner: GCounter<u64>) -> (counter: GrowCounter)
        ensures
            counter@ == counter_dots(inner),
    {
        GrowCounter { inner }
    }

    /// The `GCounter` that holds what this counter holds.
    pub fn into_gcounter(self) -> (inner: GCounter<u64>)
        ensures
            counter_dots(inner) == self@,
    {
        self.inner
    }

    /// The number of increments of `actor`.
    pub fn count(&self, actor: u64) -> (count: u64)
        ensures
            count == counter_of(self@, actor),
    {
        gcounter_inc_many(&self.inner, actor, 0).counter
    }

    /// The value of the counter: the sum of the counts of all actors, or
    /// `None` where the sum is beyond `u64`.
    pub fn read(&self) -> (value: Option<u64>)
        ensures
            value is Some == (total(self@) <= u64::MAX),
            value matches Some(sum) ==> sum == total(self@),
    {
        gcounter_read(&self.inner)
    }

    /// The operation by which `actor` increments the counter by one: the dot
    /// with the successor of the actor's count. `None` where that count has no
    /// successor. The counter is not changed.
    pub fn inc(&self, actor: u64) -> (op: Option<Dot>)
        ensures
            op == if counter_of(self@, actor) < u64::MAX {
                Some(Dot { actor, counter: (counter_of(self@, actor) + 1) as u64 })
            } else {
                None
            },
    {
        if self.count(actor) == u64::MAX {
            return None;
        }
        Some(gcounter_inc_many(&self.inner, actor, 1))
    }

    /// Applies an increment: raises the count of the dot's actor to the dot's
    /// counter, and changes nothing where the count is as high already.
    pub fn apply(&mut self, op: Dot)
        ensures
            final(self)@ == advanced(old(self)@, op),
            old(self).wf() ==> final(self).wf(),
    {
        gcounter_apply(&mut self.inner, op);
        proof {
            finite_preserved(old(self)@, old(self)@, op);
        }
    }

    /// Joins `other` into this counter: each actor ends with the higher of its
    /// two counts.
    pub fn merge(&mut self, other: GrowCounter)
        ensures
            final(self)@ == joined(old(self)@, other@),
            old(self).wf() && other.wf() ==> final(self).wf(),
    {
        proof {
            finite_preserved(self@, other@, Dot { actor: 0, counter: 0 });
        }
        gcounter_merge(&mut self.inner, other.inner)
    }
}

/// Counts of finitely many actors stay so under `advanced` and `joined`.
pub proof fn finite_preserved(ours: Map<u64, u64>, theirs: Map<u64, u64>, dot: Dot)
    ensures
        ours.dom().finite() ==> advanced(ours, dot).dom().finite(),
        ours.dom().finite() && theirs.dom().finite() ==> joined(ours, theirs).dom().finite(),
{
    if ours.dom().finite() {
        assert(ours.insert(dot.actor, dot.counter).dom() =~= ours.dom().insert(dot.actor));
        if theirs.dom().finite() {
            let both = ours.dom().union(theirs.dom());
            vstd::set_lib::lemma_set_union_finite_iff(ours.dom(), theirs.dom());
            assert(joined(ours, theirs).dom().subset_of(both));
            vstd::set_lib::lemma_len_subset(joined(ours, theirs).dom(), both);
        }
    }
}

/// The counter without entries is at 0.
pub proof fn total_of_none()
    ensures
        total(no_dots()) == 0,
{
    vstd::set::fold::lemma_fold_empty(0int, adding(no_dots()));
    assert(no_dots().dom() =~= Set::<u64>::empty());
}

/// An increment that is applied raises the value by what it adds to the count
/// of its actor.
pub proof fn total_after_increment(dots: Map<u64, u64>, dot: Dot)
    requires
        dots.dom().finite(),
        dot.counter > counter_of(dots, dot.actor),
    ensures
        total(advanced(dots, dot)) == total(dots) - counter_of(dots, dot.actor) + dot.counter,
{
    let after = dots.insert(dot.actor, dot.counter);
    let rest = dots.dom().remove(dot.actor);
    let f = adding(dots);
    let g = adding(after);
    sum_agrees(dots, after, rest);
    assert(after.dom() =~= rest.insert(dot.actor));
    vstd::set::fold::lemma_fold_insert(rest, 0int, g, dot.actor);
    if dots.contains_key(dot.actor) {
        assert(dots.dom() =~= rest.insert(dot.actor));
        vstd::set::fold::lemma_fold_insert(rest, 0int, f, dot.actor);
    } else {
        assert(dots.dom() =~= rest);
    }
}

/// Two maps that agree on the actors of a finite set have the same sum over it.
proof fn sum_agrees(one: Map<u64, u64>, other: Map<u64, u64>, actors: Set<u64>)
    requires
        actors.finite(),
        forall|actor: u64| actors.contains(actor) ==> one[actor] == other[actor],
    ensures
        sum_over(one, actors) == sum_over(other, actors),
    decreases actors.len(),
{
    let f = adding(one);
    let g = adding(other);
    if actors.len() == 0 {
        assert(actors =~= Set::<u64>::empty());
        vstd::set::fold::lemma_fold_empty(0int, f);
        vstd::set::fold::lemma_fold_empty(0int, g);
    } else {
        let actor = actors.choose();
        let rest = actors.remove(actor);
        sum_agrees(one, other, rest);
        assert(actors =~= rest.insert(actor));
        vstd::set::fold::lemma_fold_insert(rest, 0int, f, actor);
        vstd::set::fold::lemma_fold_insert(rest, 0int, g, actor);
    }
}

} // verus!
