//! Observed-remove sets, the set-valued fields of a composite.
//!
//! A set is a `crdts::Orswot` with `u64` actors. What it holds is modelled by
//! [`SetState`]. What an operation or a join makes of a state is for `crdts`
//! to compute: the contracts name those results and say of them only what
//! the clock becomes. What validation answers, and what is read, is stated in
//! full.

use crate::clock::{advanced, clock_dots, counter_of, joined, no_dots, vclock_get};
use crate::clock::CausalClock;
use crate::dot::Dot;
use crate::error::{DotRange, DoubleSpentDot};
use crdts::orswot;
use crdts::{CmRDT, CvRDT, Orswot, VClock};
use vstd::prelude::*;

verus! {

/// `crdts::Orswot`, of which the verifier sees what [`text_set_state`] and
/// [`byte_set_state`] say it holds.
#[verifier::external_type_specification]
#[verifier::external_body]
#[verifier::reject_recursive_types(M)]
#[verifier::reject_recursive_types(A)]
pub struct ExOrswot<M: core::hash::Hash + Eq, A: Ord + core::hash::Hash>(crdts::Orswot<M, A>);

/// What an observed-remove set holds, over the views `T` of its members.
#[verifier::reject_recursive_types(T)]
pub struct SetState<T> {
    /// The set's own clock: the dots of all additions it has seen.
    pub clock: Map<u64, u64>,
    /// The members present, each with the dots under which it was added and
    /// that no removal has covered.
    pub entries: Map<T, Map<u64, u64>>,
    /// The removals that wait for additions the set has not seen yet: the
    /// members to remove, by the clock of the removal.
    pub deferred: Map<Map<u64, u64>, Set<T>>,
}

/// The set that holds nothing and has seen nothing.
pub open spec fn empty_set<T>() -> SetState<T> {
    SetState { clock: Map::empty(), entries: Map::empty(), deferred: Map::empty() }
}

/// The dots under which `member` is present: none where it is absent.
pub open spec fn member_clock<T>(entries: Map<T, Map<u64, u64>>, member: T) -> Map<u64, u64> {
    if entries.contains_key(member) {
        entries[member]
    } else {
        no_dots()
    }
}

/// An operation on a set.
#[derive(Clone, Debug, PartialEq, Eq)]
pub enum SetOp<T> {
    /// Adds the members under the dot.
    Add { dot: Dot, members: Vec<T> },
    /// Removes, of the members, what was added under dots that the clock has seen.
    Rm { clock: CausalClock, members: Vec<T> },
}

/// The view of a [`SetOp`].
pub enum SetOpView<T> {
    Add { dot: Dot, members: Seq<T> },
    Rm { clock: Map<u64, u64>, members: Seq<T> },
}

impl<T: DeepView> View for SetOp<T> {
    type V = SetOpView<T::V>;

    open spec fn view(&self) -> SetOpView<T::V> {
        match self {
            SetOp::Add { dot, members } => SetOpView::Add {
                dot: *dot,
                members: members.deep_view(),
            },
            SetOp::Rm { clock, members } => SetOpView::Rm {
                clock: clock@,
                members: members.deep_view(),
            },
        }
    }
}

/// Whether a clock that has recorded `seen` for the dot's actor misses dots
/// before `dot`: the dots that lie between, where there is a gap.
pub open spec fn gap(seen: u64, dot: Dot) -> Result<(), DotRange> {
    if dot.counter > seen + 1 {
        Err(DotRange { actor: dot.actor, start: (seen + 1) as u64, end: dot.counter })
    } else {
        Ok(())
    }
}

/// What a set with the clock `clock` answers to the validation of `op`: an
/// addition must not skip a dot of its actor; a removal is always accepted.
pub open spec fn set_op_check<T>(clock: Map<u64, u64>, op: SetOpView<T>) -> Result<(), DotRange> {
    match op {
        SetOpView::Add { dot, .. } => gap(counter_of(clock, dot.actor), dot),
        SetOpView::Rm { .. } => Ok(()),
    }
}

/// The clock of a set after `op` was applied to it: an addition is
/// acknowledged, a removal leaves the clock as it is.
pub open spec fn set_clock_after<T>(clock: Map<u64, u64>, op: SetOpView<T>) -> Map<u64, u64> {
    match op {
        SetOpView::Add { dot, .. } => advanced(clock, dot),
        SetOpView::Rm { .. } => clock,
    }
}

/// Whether `ours` holds `mine` under `dot` while `theirs` holds another item,
/// `yours`, under the same dot.
pub open spec fn spent_twice<T>(
    ours: Map<T, Map<u64, u64>>,
    theirs: Map<T, Map<u64, u64>>,
    dot: Dot,
    mine: T,
    yours: T,
) -> bool {
    &&& ours.contains_key(mine)
    &&& theirs.contains_key(yours)
    &&& mine != yours
    &&& ours[mine].contains_key(dot.actor)
    &&& ours[mine][dot.actor] == dot.counter
    &&& counter_of(theirs[yours], dot.actor) == dot.counter
}

/// Whether some dot stands for two different items in `ours` and `theirs`.
pub open spec fn double_spent<T>(
    ours: Map<T, Map<u64, u64>>,
    theirs: Map<T, Map<u64, u64>>,
) -> bool {
    exists|dot: Dot, mine: T, yours: T| spent_twice(ours, theirs, dot, mine, yours)
}

/// The gap between a counter recorded and a dot, computed.
pub fn check_gap(seen: u64, dot: Dot) -> (checked: Result<(), DotRange>)
    ensures
        checked == gap(seen, dot),
{
    if seen < u64::MAX && dot.counter > seen + 1 {
        Err(DotRange { actor: dot.actor, start: seen + 1, end: dot.counter })
    } else {
        Ok(())
    }
}

/// What a set of strings holds.
pub uninterp spec fn text_set_state(set: Orswot<String, u64>) -> SetState<Seq<char>>;

/// What `CmRDT::apply` makes of a set of strings and an operation.
pub uninterp spec fn text_set_applied(
    state: SetState<Seq<char>>,
    op: SetOpView<Seq<char>>,
) -> SetState<Seq<char>>;

/// What `CvRDT::merge` makes of two sets of strings.
pub uninterp spec fn text_set_merged(
    ours: SetState<Seq<char>>,
    theirs: SetState<Seq<char>>,
) -> SetState<Seq<char>>;

/// `Orswot::new`: a set without clock entries, members or deferred removals.
#[verifier::external_body]
fn text_set_new() -> (fresh: Orswot<String, u64>)
    ensures
        text_set_state(fresh) == empty_set::<Seq<char>>(),
{
    Orswot::new()
}

/// `Clone::clone` of `Orswot`: a set that holds the same.
#[verifier::external_body]
fn text_set_clone(set: &Orswot<String, u64>) -> (copy: Orswot<String, u64>)
    ensures
        text_set_state(copy) == text_set_state(*set),
{
    set.clone()
}

/// `Orswot::clock`: a copy of the set's clock.
#[verifier::external_body]
fn text_set_clock(set: &Orswot<String, u64>) -> (clock: VClock<u64>)
    ensures
        clock_dots(clock) == text_set_state(*set).clock,
{
    set.clock()
}

/// `CmRDT::apply` of `Orswot`: the set becomes what `crdts` makes of
/// its state and the operation. Its clock acknowledges the dot of an addition
/// and is left as it is by a removal.
#[verifier::external_body]
fn text_set_apply(set: &mut Orswot<String, u64>, op: SetOp<String>)
    ensures
        text_set_state(*final(set)) == text_set_applied(text_set_state(*old(set)), op@),
        text_set_state(*final(set)).clock == set_clock_after(text_set_state(*old(set)).clock, op@),
{
    set.apply(
        match op {
            SetOp::Add { dot, members } => orswot::Op::Add {
                dot: crdts::Dot::new(dot.actor, dot.counter),
                members,
            },
            SetOp::Rm { clock, members } => orswot::Op::Rm { clock: clock.inner, members },
        },
    )
}

/// `CvRDT::merge` of `Orswot`: the set becomes what `crdts` makes of
/// the two states. Its clock becomes the join of the two clocks.
#[verifier::external_body]
fn text_set_merge(set: &mut Orswot<String, u64>, other: Orswot<String, u64>)
    ensures
        text_set_state(*final(set)) == text_set_merged(
            text_set_state(*old(set)),
            text_set_state(other),
        ),
        text_set_state(*final(set)).clock == joined(
            text_set_state(*old(set)).clock,
            text_set_state(other).clock,
        ),
{
    set.merge(other)
}

/// `CvRDT::validate_merge` of `Orswot`: refused exactly where a dot under
/// which this set holds one member is recorded for another member of
/// `other`; the error names such a dot and two such members.
#[verifier::external_body]
fn text_set_validate_merge(set: &Orswot<String, u64>, other: &Orswot<String, u64>) -> (checked:
    Result<(), DoubleSpentDot<String>>)
    ensures
        checked.is_ok() == !double_spent(
            text_set_state(*set).entries,
            text_set_state(*other).entries,
        ),
        checked matches Err(e) ==> spent_twice(
            text_set_state(*set).entries,
            text_set_state(*other).entries,
            e.dot,
            e.ours@,
            e.theirs@,
        ),
{
    set.validate_merge(other).map_err(
        |e|
            match e {
                orswot::Validation::DoubleSpentDot { dot, our_member, their_member } => {
                    DoubleSpentDot {
                        dot: Dot { actor: dot.actor, counter: dot.counter },
                        ours: our_member,
                        theirs: their_member,
                    }
                },
            },
    )
}

/// `Orswot::contains`: whether the member is present, and the dots under
/// which it is.
#[verifier::external_body]
fn text_set_contains(set: &Orswot<String, u64>, member: &String) -> (found: (bool, VClock<u64>))
    ensures
        found.0 == text_set_state(*set).entries.contains_key(member@),
        clock_dots(found.1) == member_clock(text_set_state(*set).entries, member@),
{
    let ctx = set.contains(member);
    (ctx.val, ctx.rm_clock)
}

/// `Orswot::read`: the members present, each once, in no stated order.
#[verifier::external_body]
fn text_set_read(set: &Orswot<String, u64>) -> (members: Vec<String>)
    ensures
        members.deep_view().no_duplicates(),
        members.deep_view().to_set() == text_set_state(*set).entries.dom(),
{
    set.read().val.into_iter().collect()
}

/// An observed-remove set of strings. Its view is what the set holds.
#[derive(Debug, PartialEq, Eq)]
pub struct TextSet {
    inner: Orswot<String, u64>,
}

impl View for TextSet {
    type V = SetState<Seq<char>>;

    closed spec fn view(&self) -> SetState<Seq<char>> {
        text_set_state(self.inner)
    }
}

impl Clone for TextSet {
    fn clone(&self) -> (copy: TextSet)
        ensures
            copy@ == self@,
    {
        TextSet { inner: text_set_clone(&self.inner) }
    }
}

impl TextSet {
    /// The empty set.
    pub fn new() -> (set: TextSet)
        ensures
            set@ == empty_set::<Seq<char>>(),
    {
        TextSet { inner: text_set_new() }
    }

    /// The set that holds what `inner` holds.
    pub fn from_orswot(inner: Orswot<String, u64>) -> (set: TextSet)
        ensures
            set@ == text_set_state(inner),
    {
        TextSet { inner }
    }

    /// The `Orswot` that holds what this set holds.
    pub fn into_orswot(self) -> (inner: Orswot<String, u64>)
        ensures
            text_set_state(inner) == self@,
    {
        self.inner
    }

    /// The counter that the set's clock has recorded for `actor`.
    pub fn seen(&self, actor: u64) -> (counter: u64)
        ensures
            counter == counter_of(self@.clock, actor),
    {
        let clock = text_set_clock(&self.inner);
        vclock_get(&clock, actor)
    }

    /// Whether `member` is present.
    pub fn contains(&self, member: &String) -> (present: bool)
        ensures
            present == self@.entries.contains_key(member@),
    {
        text_set_contains(&self.inner, member).0
    }

    /// The members present, each once, in no stated order.
    pub fn members(&self) -> (members: Vec<String>)
        ensures
            members.deep_view().no_duplicates(),
            members.deep_view().to_set() == self@.entries.dom(),
    {
        text_set_read(&self.inner)
    }

    /// The operation by which `actor` adds `member`: its dot is the successor
    /// of what the set has seen of `actor`. `None` where that counter has no
    /// successor. The set is not changed.
    pub fn add(&self, member: String, actor: u64) -> (op: Option<SetOp<String>>)
        ensures
            op is Some == (counter_of(self@.clock, actor) < u64::MAX),
            op matches Some(o) ==> o@ == (SetOpView::Add {
                dot: Dot { actor, counter: (counter_of(self@.clock, actor) + 1) as u64 },
                members: seq![member@],
            }),
    {
        let seen = self.seen(actor);
        if seen == u64::MAX {
            return None;
        }
        assert(member.deep_view() =~= member@);
        let mut members: Vec<String> = Vec::new();
        members.push(member);
        let op = SetOp::Add { dot: Dot { actor, counter: seen + 1 }, members };
        assert(op@->Add_members =~= seq![member@]);
        Some(op)
    }

    /// The operation that removes `member` as far as this set has seen it
    /// added: the removal's clock holds the dots under which the member is
    /// present. The set is not changed.
    pub fn rm(&self, member: String) -> (op: SetOp<String>)
        ensures
            op@ == (SetOpView::Rm {
                clock: member_clock(self@.entries, member@),
                members: seq![member@],
            }),
    {
        let found = text_set_contains(&self.inner, &member);
        assert(member.deep_view() =~= member@);
        let mut members: Vec<String> = Vec::new();
        members.push(member);
        let op = SetOp::Rm { clock: CausalClock::from_vclock(found.1), members };
        assert(op@->Rm_members =~= seq![member@]);
        op
    }

    /// What validation answers to `op`: an addition must not skip a dot of its
    /// actor; a removal is always accepted. The set is not changed.
    pub fn validate_op(&self, op: &SetOp<String>) -> (checked: Result<(), DotRange>)
        ensures
            checked == set_op_check(self@.clock, op@),
    {
        match op {
            SetOp::Add { dot, .. } => check_gap(self.seen(dot.actor), *dot),
            SetOp::Rm { .. } => Ok(()),
        }
    }

    /// Applies `op` to the set. Its clock acknowledges the dot of an addition
    /// and is left as it is by a removal.
    pub fn apply(&mut self, op: SetOp<String>)
        ensures
            final(self)@ == text_set_applied(old(self)@, op@),
            final(self)@.clock == set_clock_after(old(self)@.clock, op@),
    {
        text_set_apply(&mut self.inner, op)
    }

    /// Whether `other` can be merged into this set: refused exactly where one
    /// dot stands for two different members. The error names such a dot and
    /// two such members.
    pub fn validate_merge(&self, other: &TextSet) -> (checked: Result<(), DoubleSpentDot<String>>)
        ensures
            checked.is_ok() == !double_spent(self@.entries, other@.entries),
            checked matches Err(e) ==> spent_twice(
                self@.entries,
                other@.entries,
                e.dot,
                e.ours@,
                e.theirs@,
            ),
    {
        text_set_validate_merge(&self.inner, &other.inner)
    }

    /// Joins `other` into this set. Its clock becomes the join of the two
    /// clocks.
    pub fn merge(&mut self, other: TextSet)
        ensures
            final(self)@ == text_set_merged(old(self)@, other@),
            final(self)@.clock == joined(old(self)@.clock, other@.clock),
    {
        text_set_merge(&mut self.inner, other.inner)
    }
}

/// What a set of byte strings holds.
pub uninterp spec fn byte_set_state(set: Orswot<Vec<u8>, u64>) -> SetState<Seq<u8>>;

/// What `CmRDT::apply` makes of a set of byte strings and an operation.
pub uninterp spec fn byte_set_applied(
    state: SetState<Seq<u8>>,
    op: SetOpView<Seq<u8>>,
) -> SetState<Seq<u8>>;

/// What `CvRDT::merge` makes of two sets of byte strings.
pub uninterp spec fn byte_set_merged(
    ours: SetState<Seq<u8>>,
    theirs: SetState<Seq<u8>>,
) -> SetState<Seq<u8>>;

/// `Orswot::new`: a set without clock entries, members or deferred removals.
#[verifier::external_body]
fn byte_set_new() -> (fresh: Orswot<Vec<u8>, u64>)
    ensures
        byte_set_state(fresh) == empty_set::<Seq<u8>>(),
{
    Orswot::new()
}

/// `Clone::clone` of `Orswot`: a set that holds the same.
#[verifier::external_body]
fn byte_set_clone(set: &Orswot<Vec<u8>, u64>) -> (copy: Orswot<Vec<u8>, u64>)
    ensures
        byte_set_state(copy) == byte_set_state(*set),
{
    set.clone()
}

/// `Orswot::clock`: a copy of the set's clock.
#[verifier::external_body]
fn byte_set_clock(set: &Orswot<Vec<u8>, u64>) -> (clock: VClock<u64>)
    ensures
        clock_dots(clock) == byte_set_state(*set).clock,
{
    set.clock()
}

/// `CmRDT::apply` of `Orswot`: the set becomes what `crdts` makes of
/// its state and the operation. Its clock acknowledges the dot of an addition
/// and is left as it is by a removal.
#[verifier::external_body]
fn byte_set_apply(set: &mut Orswot<Vec<u8>, u64>, op: SetOp<Vec<u8>>)
    ensures
        byte_set_state(*final(set)) == byte_set_applied(byte_set_state(*old(set)), op@),
        byte_set_state(*final(set)).clock == set_clock_after(byte_set_state(*old(set)).clock, op@),
{
    set.apply(
        match op {
            SetOp::Add { dot, members } => orswot::Op::Add {
                dot: crdts::Dot::new(dot.actor, dot.counter),
                members,
            },
            SetOp::Rm { clock, members } => orswot::Op::Rm { clock: clock.inner, members },
        },
    )
}

/// `CvRDT::merge` of `Orswot`: the set becomes what `crdts` makes of
/// the two states. Its clock becomes the join of the two clocks.
#[verifier::external_body]
fn byte_set_merge(set: &mut Orswot<Vec<u8>, u64>, other: Orswot<Vec<u8>, u64>)
    ensures
        byte_set_state(*final(set)) == byte_set_merged(
            byte_set_state(*old(set)),
            byte_set_state(other),
        ),
        byte_set_state(*final(set)).clock == joined(
            byte_set_state(*old(set)).clock,
            byte_set_state(other).clock,
        ),
{
    set.merge(other)
}

/// `CvRDT::validate_merge` of `Orswot`: refused exactly where a dot under
/// which this set holds one member is recorded for another member of
/// `other`; the error names such a dot and two such members.
#[verifier::external_body]
fn byte_set_validate_merge(set: &Orswot<Vec<u8>, u64>, other: &Orswot<Vec<u8>, u64>) -> (checked:
    Result<(), DoubleSpentDot<Vec<u8>>>)
    ensures
        checked.is_ok() == !double_spent(
            byte_set_state(*set).entries,
            byte_set_state(*other).entries,
        ),
        checked matches Err(e) ==> spent_twice(
            byte_set_state(*set).entries,
            byte_set_state(*other).entries,
            e.dot,
            e.ours@,
            e.theirs@,
        ),
{
    set.validate_merge(other).map_err(
        |e|
            match e {
                orswot::Validation::DoubleSpentDot { dot, our_member, their_member } => {
                    DoubleSpentDot {
                        dot: Dot { actor: dot.actor, counter: dot.counter },
                        ours: our_member,
                        theirs: their_member,
                    }
                },
            },
    )
}

/// `Orswot::contains`: whether the member is present, and the dots under
/// which it is.
#[verifier::external_body]
fn byte_set_contains(set: &Orswot<Vec<u8>, u64>, member: &Vec<u8>) -> (found: (bool, VClock<u64>))
    ensures
        found.0 == byte_set_state(*set).entries.contains_key(member@),
        clock_dots(found.1) == member_clock(byte_set_state(*set).entries, member@),
{
    let ctx = set.contains(member);
    (ctx.val, ctx.rm_clock)
}

/// `Orswot::read`: the members present, each once, in no stated order.
#[verifier::external_body]
fn byte_set_read(set: &Orswot<Vec<u8>, u64>) -> (members: Vec<Vec<u8>>)
    ensures
        members.deep_view().no_duplicates(),
        members.deep_view().to_set() == byte_set_state(*set).entries.dom(),
{
    set.read().val.into_iter().collect()
}

/// An observed-remove set of byte strings. Its view is what the set holds.
#[derive(Debug, PartialEq, Eq)]
pub struct ByteSet {
    inner: Orswot<Vec<u8>, u64>,
}

impl View for ByteSet {
    type V = SetState<Seq<u8>>;

    closed spec fn view(&self) -> SetState<Seq<u8>> {
        byte_set_state(self.inner)
    }
}

impl Clone for ByteSet {
    fn clone(&self) -> (copy: ByteSet)
        ensures
            copy@ == self@,
    {
        ByteSet { inner: byte_set_clone(&self.inner) }
    }
}

impl ByteSet {
    /// The empty set.
    pub fn new() -> (set: ByteSet)
        ensures
            set@ == empty_set::<Seq<u8>>(),
    {
        ByteSet { inner: byte_set_new() }
    }

    /// The set that holds what `inner` holds.
    pub fn from_orswot(inner: Orswot<Vec<u8>, u64>) -> (set: ByteSet)
        ensures
            set@ == byte_set_state(inner),
    {
        ByteSet { inner }
    }

    /// The `Orswot` that holds what this set holds.
    pub fn into_orswot(self) -> (inner: Orswot<Vec<u8>, u64>)
        ensures
            byte_set_state(inner) == self@,
    {
        self.inner
    }

    /// The counter that the set's clock has recorded for `actor`.
    pub fn seen(&self, actor: u64) -> (counter: u64)
        ensures
            counter == counter_of(self@.clock, actor),
    {
        let clock = byte_set_clock(&self.inner);
        vclock_get(&clock, actor)
    }

    /// Whether `member` is present.
    pub fn contains(&self, member: &Vec<u8>) -> (present: bool)
        ensures
            present == self@.entries.contains_key(member@),
    {
        byte_set_contains(&self.inner, member).0
    }

    /// The members present, each once, in no stated order.
    pub fn members(&self) -> (members: Vec<Vec<u8>>)
        ensures
            members.deep_view().no_duplicates(),
            members.deep_view().to_set() == self@.entries.dom(),
    {
        byte_set_read(&self.inner)
    }

    /// The operation by which `actor` adds `member`: its dot is the successor
    /// of what the set has seen of `actor`. `None` where that counter has no
    /// successor. The set is not changed.
    pub fn add(&self, member: Vec<u8>, actor: u64) -> (op: Option<SetOp<Vec<u8>>>)
        ensures
            op is Some == (counter_of(self@.clock, actor) < u64::MAX),
            op matches Some(o) ==> o@ == (SetOpView::Add {
                dot: Dot { actor, counter: (counter_of(self@.clock, actor) + 1) as u64 },
                members: seq![member@],
            }),
    {
        let seen = self.seen(actor);
        if seen == u64::MAX {
            return None;
        }
        assert(member.deep_view() =~= member@);
        let mut members: Vec<Vec<u8>> = Vec::new();
        members.push(member);
        let op = SetOp::Add { dot: Dot { actor, counter: seen + 1 }, members };
        assert(op@->Add_members =~= seq![member@]);
        Some(op)
    }

    /// The operation that removes `member` as far as this set has seen it
    /// added: the removal's clock holds the dots under which the member is
    /// present. The set is not changed.
    pub fn rm(&self, member: Vec<u8>) -> (op: SetOp<Vec<u8>>)
        ensures
            op@ == (SetOpView::Rm {
                clock: member_clock(self@.entries, member@),
                members: seq![member@],
            }),
    {
        let found = byte_set_contains(&self.inner, &member);
        assert(member.deep_view() =~= member@);
        let mut members: Vec<Vec<u8>> = Vec::new();
        members.push(member);
        let op = SetOp::Rm { clock: CausalClock::from_vclock(found.1), members };
        assert(op@->Rm_members =~= seq![member@]);
        op
    }

    /// What validation answers to `op`: an addition must not skip a dot of its
    /// actor; a removal is always accepted. The set is not changed.
    pub fn validate_op(&self, op: &SetOp<Vec<u8>>) -> (checked: Result<(), DotRange>)
        ensures
            checked == set_op_check(self@.clock, op@),
    {
        match op {
            SetOp::Add { dot, .. } => check_gap(self.seen(dot.actor), *dot),
            SetOp::Rm { .. } => Ok(()),
        }
    }

    /// Applies `op` to the set. Its clock acknowledges the dot of an addition
    /// and is left as it is by a removal.
    pub fn apply(&mut self, op: SetOp<Vec<u8>>)
        ensures
            final(self)@ == byte_set_applied(old(self)@, op@),
            final(self)@.clock == set_clock_after(old(self)@.clock, op@),
    {
        byte_set_apply(&mut self.inner, op)
    }

    /// Whether `other` can be merged into this set: refused exactly where one
    /// dot stands for two different members. The error names such a dot and
    /// two such members.
    pub fn validate_merge(&self, other: &ByteSet) -> (checked: Result<(), DoubleSpentDot<Vec<u8>>>)
        ensures
            checked.is_ok() == !double_spent(self@.entries, other@.entries),
            checked matches Err(e) ==> spent_twice(
                self@.entries,
                other@.entries,
                e.dot,
                e.ours@,
                e.theirs@,
            ),
    {
        byte_set_validate_merge(&self.inner, &other.inner)
    }

    /// Joins `other` into this set. Its clock becomes the join of the two
    /// clocks.
    pub fn merge(&mut self, other: ByteSet)
        ensures
            final(self)@ == byte_set_merged(old(self)@, other@),
            final(self)@.clock == joined(old(self)@.clock, other@.clock),
    {
        byte_set_merge(&mut self.inner, other.inner)
    }
}

} // verus!
