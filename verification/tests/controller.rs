use composite_crdt::clock::CausalityError;
use composite_crdt::dot::Dot;
use composite_crdt::error::{DotRange, DoubleSpentDot, MapMergeError, MapOpError};
use composite_crdt::one::{Controller, ControllerCmRDTError, ControllerCvRDTError, Op};
use composite_crdt::one_by_one;
use composite_crdt::ormap::MapOp;
use composite_crdt::orset::SetOp;
use composite_crdt::{OpAllInOne, OpOneByOne};

const ACTOR: u64 = 9_742_820;

fn sorted<T: Ord>(mut items: Vec<T>) -> Vec<T> {
    items.sort();
    items
}

fn hash() -> Vec<u8> {
    vec![8; 20]
}

/// The candidate operation that the scenarios build from what the transaction
/// set has seen of the actor.
fn candidate_after_txns(controller: &Controller, actor: u64) -> SetOp<Vec<u8>> {
    SetOp::Add { dot: Dot::new(actor, controller.txns().seen(actor) + 1), members: vec![hash()] }
}

fn full_op(controller: &Controller, actor: u64, counter: u64) -> Op {
    Op {
        dot: Dot::new(actor, counter),
        txns_op: Some(controller.txns().add("member".to_owned(), actor).unwrap()),
        history_hashes_op: Some(controller.history_hashes().update(10u64, hash(), actor).unwrap()),
        candidates_op: Some(candidate_after_txns(controller, actor)),
    }
}

fn txn_op(controller: &Controller, member: &str, actor: u64, counter: u64) -> Op {
    Op {
        dot: Dot::new(actor, counter),
        txns_op: Some(controller.txns().add(member.to_owned(), actor).unwrap()),
        history_hashes_op: None,
        candidates_op: None,
    }
}

#[test]
fn main_test() {
    let mut controller = Controller::new();
    let op1 = controller.txns().add("member".to_owned(), ACTOR).unwrap();
    controller.apply(
        one_by_one::Op { dot: Dot::new(ACTOR, 2), op: OpOneByOne::T(op1) }.into_envelope(),
    );
    let op2 = candidate_after_txns(&controller, ACTOR);
    controller.apply(
        one_by_one::Op { dot: Dot::new(ACTOR, 3), op: OpOneByOne::C(op2) }.into_envelope(),
    );
    let op3 = controller.history_hashes().update(10u64, hash(), ACTOR).unwrap();
    controller.apply(
        one_by_one::Op { dot: Dot::new(ACTOR, 4), op: OpOneByOne::H(op3) }.into_envelope(),
    );
    println!("{:#?}", controller);
    assert_eq!(controller.clock().get(ACTOR), 4);
    assert_eq!(controller.txns().members(), vec!["member".to_owned()]);
    assert_eq!(controller.candidates().members(), vec![hash()]);
    assert_eq!(controller.history_hashes().get(10).unwrap().members(), vec![hash()]);
    assert!(controller.history_hashes().get(11).is_none());
}

#[test]
fn one_test_cmrdt() {
    let mut controller = Controller::default();
    let actor = ACTOR;
    let counter = 1;
    let dot = Dot::new(actor, counter);
    let op1 = controller.txns().add("member".to_owned(), actor).unwrap();
    let op2 = controller.history_hashes().update(10u64, hash(), actor).unwrap();
    let op3 = candidate_after_txns(&controller, actor);
    controller.apply(Op {
        dot,
        txns_op: Some(op1),
        history_hashes_op: Some(op2),
        candidates_op: Some(op3),
    });
    println!("{:#?}", controller);
    assert_eq!(controller.clock().get(actor), 1);

    let actor = ACTOR;
    let counter = 2;
    let dot = Dot::new(actor, counter);
    let op1 = controller.txns().add("member".to_owned(), actor).unwrap();
    let op2 = controller.history_hashes().update(10u64, hash(), actor).unwrap();
    let op3 = candidate_after_txns(&controller, actor);
    controller.apply(Op {
        dot,
        txns_op: Some(op1),
        history_hashes_op: Some(op2),
        candidates_op: Some(op3),
    });
    println!("{:#?}", controller);
    assert_eq!(controller.clock().get(actor), 2);
    assert_eq!(controller.txns().seen(actor), 2);
    assert_eq!(controller.history_hashes().seen(actor), 2);
    assert_eq!(controller.candidates().seen(actor), 2);
    assert_eq!(controller.txns().members(), vec!["member".to_owned()]);
    assert_eq!(controller.candidates().members(), vec![hash()]);
    assert_eq!(controller.history_hashes().get(10).unwrap().members(), vec![hash()]);
}

#[test]
fn one_test_cvrdt() {
    let mut controller1 = Controller::default();
    let mut controller2 = controller1.clone();
    let op = full_op(&controller1, ACTOR, 1);
    controller1.apply(op);
    println!("controller1: {:#?}", controller1);

    let op = full_op(&controller2, 9_742_821, 1);
    controller2.apply(op);
    println!("controller2: {:#?}", controller2);

    assert_eq!(controller1.validate_merge(&controller2), Ok(()));
    controller1.merge(controller2);
    println!("controller3: {:#?}", controller1);
    assert_eq!(controller1.clock().get(ACTOR), 1);
    assert_eq!(controller1.clock().get(9_742_821), 1);
    assert_eq!(controller1.txns().members(), vec!["member".to_owned()]);
    assert_eq!(controller1.candidates().members(), vec![hash()]);
    assert_eq!(controller1.history_hashes().get(10).unwrap().members(), vec![hash()]);
}

#[test]
fn a_copy_holds_the_same() {
    let mut controller = Controller::new();
    controller.apply(full_op(&controller, 1, 1));
    let copy = controller.clone();
    assert_eq!(copy, controller);
    controller.apply(full_op(&controller, 1, 2));
    assert_ne!(copy, controller);
    assert_eq!(copy.clock().get(1), 1);
}

#[test]
fn fields_acknowledge_what_was_applied() {
    let mut controller = Controller::new();
    controller.apply(full_op(&controller, 1, 1));
    assert_eq!(
        controller.txns().add("next".to_owned(), 1),
        Some(SetOp::Add { dot: Dot::new(1, 2), members: vec!["next".to_owned()] })
    );
    assert_eq!(controller.history_hashes().seen(1), 1);
    assert_eq!(controller.candidates().seen(1), 1);
    controller.apply(Op {
        dot: Dot::new(2, 1),
        txns_op: Some(controller.txns().rm("member".to_owned())),
        history_hashes_op: Some(controller.history_hashes().rm(10)),
        candidates_op: None,
    });
    assert_eq!(controller.txns().seen(1), 1);
    assert_eq!(controller.txns().seen(2), 0);
    assert_eq!(controller.history_hashes().seen(2), 0);
    let mut other = Controller::new();
    other.apply(full_op(&other, 3, 1));
    controller.merge(other);
    assert_eq!(controller.txns().seen(3), 1);
    assert_eq!(controller.history_hashes().seen(3), 1);
    assert_eq!(controller.candidates().seen(3), 1);
    assert_eq!(controller.candidates().seen(1), 1);
}

#[test]
fn controller_is_rebuilt_from_its_parts() {
    let mut controller = Controller::new();
    controller.apply(full_op(&controller, 1, 1));
    let (clock, txns, history_hashes, candidates) = controller.clone().into_parts();
    assert_eq!(clock.get(1), 1);
    assert_eq!(txns.members(), vec!["member".to_owned()]);
    assert_eq!(history_hashes.keys(), vec![10]);
    assert_eq!(candidates.members(), vec![hash()]);
    assert_eq!(Controller::from_parts(clock, txns, history_hashes, candidates), controller);
    let single = one_by_one::ControllerOneByOne::new();
    let (clock, txns, history_hashes, candidates) = single.clone().into_parts();
    assert_eq!(
        one_by_one::ControllerOneByOne::from_parts(clock, txns, history_hashes, candidates),
        single
    );
}

#[test]
fn new_controller_is_empty() {
    let controller = Controller::new();
    assert_eq!(controller, Controller::default());
    assert_eq!(controller.clock().get(1), 0);
    assert!(controller.txns().members().is_empty());
    assert!(controller.candidates().members().is_empty());
    assert!(controller.history_hashes().get(10).is_none());
    assert_eq!(controller.clock().next_dot(1), Some(Dot::new(1, 1)));
}

#[test]
fn apply_twice_is_apply_once() {
    let mut controller = Controller::new();
    let op = full_op(&controller, 1, 1);
    controller.apply(op.clone());
    let once = controller.clone();
    controller.apply(op);
    assert_eq!(controller, once);
    assert_eq!(controller.clock().get(1), 1);
}

#[test]
fn apply_commutes_for_different_actors() {
    let start = Controller::new();
    let first = txn_op(&start, "a", 1, 1);
    let second = Op {
        dot: Dot::new(2, 1),
        txns_op: None,
        history_hashes_op: Some(start.history_hashes().update(3, hash(), 2).unwrap()),
        candidates_op: Some(start.candidates().add(vec![1, 2, 3], 2).unwrap()),
    };
    let mut one = start.clone();
    one.apply(first.clone());
    one.apply(second.clone());
    let mut other = start.clone();
    other.apply(second);
    other.apply(first);
    assert_eq!(one, other);
    assert_eq!(one.txns().members(), vec!["a".to_owned()]);
    assert_eq!(one.candidates().members(), vec![vec![1u8, 2, 3]]);
    assert_eq!(one.history_hashes().get(3).unwrap().members(), vec![hash()]);
}

#[test]
fn apply_commutes_on_one_field() {
    let start = Controller::new();
    let first = txn_op(&start, "a", 1, 1);
    let second = txn_op(&start, "b", 2, 1);
    let mut one = start.clone();
    one.apply(first.clone());
    one.apply(second.clone());
    let mut other = start.clone();
    other.apply(second);
    other.apply(first);
    assert_eq!(one, other);
    assert_eq!(sorted(one.txns().members()), vec!["a".to_owned(), "b".to_owned()]);
}

#[test]
fn stale_envelope_is_a_no_op() {
    let mut controller = Controller::new();
    let op = txn_op(&controller, "a", 1, 5);
    controller.apply(op);
    let before = controller.clone();
    for counter in [0u64, 1, 4, 5] {
        let late = txn_op(&controller, "late", 1, counter);
        assert_eq!(
            controller.validate_op(&late),
            Err(ControllerCmRDTError::VClock(CausalityError {
                dot: Dot::new(1, counter),
                seen: 5,
            }))
        );
        controller.apply(late);
        assert_eq!(controller, before);
    }
    let next = txn_op(&controller, "next", 1, 6);
    assert_eq!(controller.validate_op(&next), Ok(()));
    controller.apply(next);
    assert_eq!(controller.clock().get(1), 6);
    assert_eq!(sorted(controller.txns().members()), vec!["a".to_owned(), "next".to_owned()]);
}

#[test]
fn empty_envelope_is_refused_and_changes_nothing() {
    let mut controller = Controller::new();
    let empty = Op {
        dot: Dot::new(1, 1),
        txns_op: None,
        history_hashes_op: None,
        candidates_op: None,
    };
    assert_eq!(controller.validate_op(&empty), Err(ControllerCmRDTError::NoneOp));
    controller.apply(empty.clone());
    assert_eq!(controller, Controller::new());
    assert_eq!(controller.clock().get(1), 0);

    // The causal gate comes first: an empty envelope under a stale dot is stale.
    controller.apply(txn_op(&controller, "a", 1, 1));
    assert_eq!(
        controller.validate_op(&empty),
        Err(ControllerCmRDTError::VClock(CausalityError { dot: Dot::new(1, 1), seen: 1 }))
    );
}

#[test]
fn validation_names_the_field_that_refuses() {
    let controller = Controller::new();
    let skipping = SetOp::Add { dot: Dot::new(1, 3), members: vec!["x".to_owned()] };
    let op = Op {
        dot: Dot::new(1, 1),
        txns_op: Some(skipping),
        history_hashes_op: None,
        candidates_op: None,
    };
    assert_eq!(
        controller.validate_op(&op),
        Err(ControllerCmRDTError::Txns(DotRange { actor: 1, start: 1, end: 3 }))
    );

    let op = Op {
        dot: Dot::new(1, 1),
        txns_op: Some(controller.txns().add("x".to_owned(), 1).unwrap()),
        history_hashes_op: Some(MapOp::Up {
            dot: Dot::new(1, 4),
            key: 7,
            op: SetOp::Add { dot: Dot::new(1, 4), members: vec![hash()] },
        }),
        candidates_op: Some(SetOp::Add { dot: Dot::new(2, 9), members: vec![hash()] }),
    };
    assert_eq!(
        controller.validate_op(&op),
        Err(ControllerCmRDTError::HistoryHashes(MapOpError::SourceOrder(DotRange {
            actor: 1,
            start: 1,
            end: 4,
        })))
    );

    let op = Op {
        dot: Dot::new(1, 1),
        txns_op: None,
        history_hashes_op: Some(MapOp::Up {
            dot: Dot::new(1, 1),
            key: 7,
            op: SetOp::Add { dot: Dot::new(5, 2), members: vec![hash()] },
        }),
        candidates_op: None,
    };
    assert_eq!(
        controller.validate_op(&op),
        Err(ControllerCmRDTError::HistoryHashes(MapOpError::Value(DotRange {
            actor: 5,
            start: 1,
            end: 2,
        })))
    );

    let op = Op {
        dot: Dot::new(1, 1),
        txns_op: None,
        history_hashes_op: Some(controller.history_hashes().rm(7)),
        candidates_op: Some(SetOp::Add { dot: Dot::new(2, 9), members: vec![hash()] }),
    };
    assert_eq!(
        controller.validate_op(&op),
        Err(ControllerCmRDTError::Candidates(DotRange { actor: 2, start: 1, end: 9 }))
    );
}

#[test]
fn validation_changes_nothing() {
    let mut controller = Controller::new();
    controller.apply(full_op(&controller, 1, 1));
    let before = controller.clone();
    let op = full_op(&controller, 1, 2);
    assert_eq!(controller.validate_op(&op), Ok(()));
    assert_eq!(controller.validate_op(&op), Ok(()));
    assert_eq!(controller, before);
}

#[test]
fn counters_at_the_limit_are_validated_without_overflow() {
    let mut controller = Controller::new();
    let last = SetOp::Add { dot: Dot::new(1, u64::MAX), members: vec!["x".to_owned()] };
    controller.apply(Op {
        dot: Dot::new(1, u64::MAX),
        txns_op: Some(last.clone()),
        history_hashes_op: Some(MapOp::Up {
            dot: Dot::new(1, u64::MAX),
            key: 7,
            op: SetOp::Add { dot: Dot::new(1, u64::MAX), members: vec![hash()] },
        }),
        candidates_op: None,
    });
    assert_eq!(controller.clock().get(1), u64::MAX);
    assert_eq!(controller.txns().seen(1), u64::MAX);
    assert_eq!(controller.clock().next_dot(1), None);
    assert!(controller.txns().add("y".to_owned(), 1).is_none());
    assert!(controller.history_hashes().update(7, hash(), 1).is_none());
    assert_eq!(controller.txns().validate_op(&last), Ok(()));
    let update = MapOp::Up {
        dot: Dot::new(1, 3),
        key: 7,
        op: SetOp::Add { dot: Dot::new(2, 3), members: vec![hash()] },
    };
    assert_eq!(
        controller.history_hashes().validate_op(&update),
        Err(MapOpError::Value(DotRange { actor: 2, start: 1, end: 3 }))
    );
    let op = Op {
        dot: Dot::new(2, 1),
        txns_op: Some(last),
        history_hashes_op: None,
        candidates_op: None,
    };
    assert_eq!(controller.validate_op(&op), Ok(()));
}

fn forked() -> (Controller, Controller, Controller) {
    let mut a = Controller::new();
    a.apply(full_op(&a, 1, 1));
    let mut b = a.clone();
    let mut c = a.clone();
    a.apply(txn_op(&a, "from a", 1, 2));
    b.apply(Op {
        dot: Dot::new(2, 1),
        txns_op: Some(b.txns().rm("member".to_owned())),
        history_hashes_op: Some(b.history_hashes().update(11, vec![2], 2).unwrap()),
        candidates_op: None,
    });
    c.apply(Op {
        dot: Dot::new(3, 1),
        txns_op: None,
        history_hashes_op: Some(c.history_hashes().rm(10)),
        candidates_op: Some(c.candidates().add(vec![3], 3).unwrap()),
    });
    (a, b, c)
}

#[test]
fn merge_is_commutative() {
    let (a, b, _) = forked();
    let mut ab = a.clone();
    ab.merge(b.clone());
    let mut ba = b.clone();
    ba.merge(a.clone());
    assert_eq!(ab, ba);
    assert_eq!(ab.clock().get(1), 2);
    assert_eq!(ab.clock().get(2), 1);
    assert_eq!(ab.txns().members(), vec!["from a".to_owned()]);
    assert_eq!(ab.history_hashes().get(11).unwrap().members(), vec![vec![2u8]]);
}

#[test]
fn merge_is_associative() {
    let (a, b, c) = forked();
    let mut left = a.clone();
    left.merge(b.clone());
    left.merge(c.clone());
    let mut bc = b.clone();
    bc.merge(c.clone());
    let mut right = a.clone();
    right.merge(bc);
    assert_eq!(left, right);
    assert_eq!(left.clock().get(3), 1);
    assert!(left.history_hashes().get(10).is_none());
    assert_eq!(sorted(left.candidates().members()), vec![vec![3u8], hash()]);
}

#[test]
fn merge_is_idempotent() {
    let (a, b, _) = forked();
    let mut twice = a.clone();
    twice.merge(a.clone());
    assert_eq!(twice, a);
    let mut ab = a.clone();
    ab.merge(b.clone());
    let mut again = ab.clone();
    again.merge(b);
    assert_eq!(again, ab);
}

#[test]
fn merge_keeps_the_clock_an_upper_bound() {
    let (a, b, _) = forked();
    let mut ab = a.clone();
    ab.merge(b.clone());
    for actor in [1u64, 2, 3] {
        assert!(ab.clock().get(actor) >= a.clock().get(actor));
        assert!(ab.clock().get(actor) >= b.clock().get(actor));
    }
    let before = ab.clone();
    ab.apply(txn_op(&ab, "late", 2, 1));
    assert_eq!(ab, before);
}

#[test]
fn add_wins_over_a_concurrent_remove() {
    let mut a = Controller::new();
    a.apply(txn_op(&a, "x", 1, 1));
    let mut b = a.clone();
    a.apply(txn_op(&a, "x", 1, 2));
    b.apply(Op {
        dot: Dot::new(2, 1),
        txns_op: Some(b.txns().rm("x".to_owned())),
        history_hashes_op: None,
        candidates_op: None,
    });
    assert!(!b.txns().contains(&"x".to_owned()));
    let mut merged = a.clone();
    merged.merge(b.clone());
    assert!(merged.txns().contains(&"x".to_owned()));
    let mut other = b;
    other.merge(a);
    assert_eq!(merged, other);
}

#[test]
fn add_wins_over_a_remove_that_has_not_seen_it() {
    let mut a = Controller::new();
    let mut b = a.clone();
    a.apply(txn_op(&a, "x", 1, 1));
    b.apply(Op {
        dot: Dot::new(2, 1),
        txns_op: Some(b.txns().rm("x".to_owned())),
        history_hashes_op: None,
        candidates_op: None,
    });
    b.merge(a);
    assert_eq!(b.txns().members(), vec!["x".to_owned()]);
}

#[test]
fn merge_validation_names_the_first_field_in_conflict() {
    let mut a = Controller::new();
    let mut b = Controller::new();
    a.apply(Op {
        dot: Dot::new(1, 1),
        txns_op: None,
        history_hashes_op: None,
        candidates_op: Some(a.candidates().add(vec![1], 1).unwrap()),
    });
    b.apply(Op {
        dot: Dot::new(1, 1),
        txns_op: None,
        history_hashes_op: None,
        candidates_op: Some(b.candidates().add(vec![2], 1).unwrap()),
    });
    assert_eq!(
        a.validate_merge(&b),
        Err(ControllerCvRDTError::Candidates(DoubleSpentDot {
            dot: Dot::new(1, 1),
            ours: vec![1],
            theirs: vec![2],
        }))
    );

    a.apply(Op {
        dot: Dot::new(1, 2),
        txns_op: None,
        history_hashes_op: Some(a.history_hashes().update(5, vec![1], 1).unwrap()),
        candidates_op: None,
    });
    b.apply(Op {
        dot: Dot::new(1, 2),
        txns_op: None,
        history_hashes_op: Some(b.history_hashes().update(6, vec![1], 1).unwrap()),
        candidates_op: None,
    });
    assert_eq!(
        a.validate_merge(&b),
        Err(ControllerCvRDTError::HistoryHashes(MapMergeError::DoubleSpentDot(
            DoubleSpentDot { dot: Dot::new(1, 1), ours: 5, theirs: 6 }
        )))
    );

    a.apply(txn_op(&a, "mine", 1, 3));
    b.apply(txn_op(&b, "yours", 1, 3));
    assert_eq!(
        a.validate_merge(&b),
        Err(ControllerCvRDTError::Txns(DoubleSpentDot {
            dot: Dot::new(1, 1),
            ours: "mine".to_owned(),
            theirs: "yours".to_owned(),
        }))
    );
    assert_eq!(a.validate_merge(&a.clone()), Ok(()));
}

#[test]
fn merge_validation_finds_a_conflict_under_one_key() {
    let mut a = Controller::new();
    let mut b = Controller::new();
    let update = |key: u64, member: u8, actor: u64, counter: u64| Op {
        dot: Dot::new(actor, counter),
        txns_op: None,
        history_hashes_op: Some(MapOp::Up {
            dot: Dot::new(actor, counter),
            key,
            op: SetOp::Add { dot: Dot::new(actor, counter), members: vec![vec![member]] },
        }),
        candidates_op: None,
    };
    a.apply(update(5, 1, 1, 1));
    a.apply(update(5, 3, 3, 1));
    b.apply(update(5, 2, 2, 1));
    b.apply(update(5, 4, 3, 1));
    assert_eq!(
        a.validate_merge(&b),
        Err(ControllerCvRDTError::HistoryHashes(MapMergeError::Value(DoubleSpentDot {
            dot: Dot::new(3, 1),
            ours: vec![3],
            theirs: vec![4],
        })))
    );
}

#[test]
fn envelopes_are_built_from_either_form() {
    let controller = Controller::new();
    let add = controller.txns().add("a".to_owned(), 1).unwrap();
    let update = controller.history_hashes().update(2, hash(), 1).unwrap();
    let remove = controller.candidates().rm(hash());
    let all = OpAllInOne::All(Some(add.clone()), Some(update.clone()), Some(remove.clone()));
    let op = Op::all_in_one(Dot::new(1, 1), all);
    assert_eq!(
        op,
        Op {
            dot: Dot::new(1, 1),
            txns_op: Some(add.clone()),
            history_hashes_op: Some(update.clone()),
            candidates_op: Some(remove),
        }
    );
    let single = one_by_one::Op { dot: Dot::new(1, 1), op: OpOneByOne::H(update.clone()) };
    assert_eq!(
        single.into_envelope(),
        Op {
            dot: Dot::new(1, 1),
            txns_op: None,
            history_hashes_op: Some(update.clone()),
            candidates_op: None,
        }
    );
}
