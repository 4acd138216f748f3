use composite_crdt::clock::CausalityError;
use composite_crdt::dot::Dot;
use composite_crdt::error::{CrdtError, DotRange, DoubleSpentDot, MapOpError};
use composite_crdt::one::{Controller, ControllerCvRDTError};
use composite_crdt::one_by_one::{ControllerOneByOne, Op};
use composite_crdt::ormap::MapOp;
use composite_crdt::orset::SetOp;
use composite_crdt::OpOneByOne;

const ACTOR: u64 = 9_742_820;

fn hash() -> Vec<u8> {
    vec![8; 20]
}

fn add_txn(controller: &ControllerOneByOne, member: &str, actor: u64, counter: u64) -> Op {
    Op {
        dot: Dot::new(actor, counter),
        op: OpOneByOne::T(controller.txns().add(member.to_owned(), actor).unwrap()),
    }
}

#[test]
fn one_by_one_test() {
    let mut controller = ControllerOneByOne::new();
    let op1 = controller.txns().add("member".to_owned(), ACTOR).unwrap();
    controller.apply(Op { dot: Dot::new(ACTOR, 2), op: OpOneByOne::T(op1) });
    let op2 = SetOp::Add {
        dot: Dot::new(ACTOR, controller.txns().seen(ACTOR) + 1),
        members: vec![hash()],
    };
    controller.apply(Op { dot: Dot::new(ACTOR, 3), op: OpOneByOne::C(op2) });
    let op3 = controller.history_hashes().update(10u64, hash(), ACTOR).unwrap();
    controller.apply(Op { dot: Dot::new(ACTOR, 4), op: OpOneByOne::H(op3) });
    println!("{:#?}", controller);
    assert_eq!(controller.clock().get(ACTOR), 4);
    assert_eq!(controller.txns().members(), vec!["member".to_owned()]);
    assert_eq!(controller.candidates().members(), vec![hash()]);
    assert_eq!(controller.candidates().seen(ACTOR), 2);
    assert_eq!(controller.history_hashes().get(10).unwrap().members(), vec![hash()]);
}

#[test]
fn one_field_apply_is_idempotent_and_gated() {
    let mut controller = ControllerOneByOne::default();
    assert_eq!(controller, ControllerOneByOne::new());
    let op = add_txn(&controller, "a", 1, 3);
    assert_eq!(controller.validate_op(&op), Ok(()));
    controller.apply(op.clone());
    let once = controller.clone();
    controller.apply(op.clone());
    assert_eq!(controller, once);
    assert_eq!(
        controller.validate_op(&op),
        Err(CrdtError::VClock(CausalityError { dot: Dot::new(1, 3), seen: 3 }))
    );
    let late = add_txn(&controller, "late", 1, 2);
    controller.apply(late);
    assert_eq!(controller, once);
    assert_eq!(controller.txns().members(), vec!["a".to_owned()]);
}

#[test]
fn one_field_validation_names_the_field() {
    let controller = ControllerOneByOne::new();
    let skipping = SetOp::Add { dot: Dot::new(1, 3), members: vec!["x".to_owned()] };
    assert_eq!(
        controller.validate_op(&Op { dot: Dot::new(1, 1), op: OpOneByOne::T(skipping) }),
        Err(CrdtError::Txns(DotRange { actor: 1, start: 1, end: 3 }))
    );
    let skipping = SetOp::Add { dot: Dot::new(1, 2), members: vec![hash()] };
    assert_eq!(
        controller.validate_op(&Op { dot: Dot::new(1, 1), op: OpOneByOne::C(skipping.clone()) }),
        Err(CrdtError::Candidates(DotRange { actor: 1, start: 1, end: 2 }))
    );
    let update = MapOp::Up { dot: Dot::new(1, 1), key: 1, op: skipping };
    assert_eq!(
        controller.validate_op(&Op { dot: Dot::new(1, 1), op: OpOneByOne::H(update) }),
        Err(CrdtError::HistoryHashes(MapOpError::Value(DotRange { actor: 1, start: 1, end: 2 })))
    );
    let removal = controller.history_hashes().rm(1);
    assert_eq!(
        controller.validate_op(&Op { dot: Dot::new(1, 1), op: OpOneByOne::H(removal) }),
        Ok(())
    );
}

#[test]
fn one_field_operation_is_an_envelope_with_one_slot() {
    let mut single = ControllerOneByOne::new();
    let mut multi = Controller::new();
    let ops = vec![
        Op {
            dot: Dot::new(1, 1),
            op: OpOneByOne::T(single.txns().add("a".to_owned(), 1).unwrap()),
        },
        Op { dot: Dot::new(2, 1), op: OpOneByOne::C(single.candidates().add(hash(), 2).unwrap()) },
        Op {
            dot: Dot::new(1, 2),
            op: OpOneByOne::H(single.history_hashes().update(4, hash(), 1).unwrap()),
        },
        Op { dot: Dot::new(1, 1), op: OpOneByOne::T(single.txns().rm("a".to_owned())) },
    ];
    for op in ops {
        assert_eq!(
            single.validate_op(&op).is_ok(),
            multi.validate_op(&op.clone().into_envelope()).is_ok()
        );
        single.apply(op.clone());
        multi.apply(op.into_envelope());
        assert_eq!(single.clock(), multi.clock());
        assert_eq!(single.txns(), multi.txns());
        assert_eq!(single.history_hashes(), multi.history_hashes());
        assert_eq!(single.candidates(), multi.candidates());
    }
    assert_eq!(single.clock().get(1), 2);
    assert_eq!(single.txns().members(), vec!["a".to_owned()]);
}

#[test]
fn one_field_apply_commutes_for_different_actors() {
    let start = ControllerOneByOne::new();
    let first = add_txn(&start, "a", 1, 1);
    let second = Op {
        dot: Dot::new(2, 1),
        op: OpOneByOne::H(start.history_hashes().update(4, hash(), 2).unwrap()),
    };
    let mut one = start.clone();
    one.apply(first.clone());
    one.apply(second.clone());
    let mut other = start;
    other.apply(second);
    other.apply(first);
    assert_eq!(one, other);
}

#[test]
fn one_field_controllers_merge() {
    let mut a = ControllerOneByOne::new();
    let mut b = ControllerOneByOne::new();
    a.apply(add_txn(&a, "a", 1, 1));
    b.apply(add_txn(&b, "b", 2, 1));
    assert_eq!(a.validate_merge(&b), Ok(()));
    let mut ab = a.clone();
    ab.merge(b.clone());
    let mut ba = b.clone();
    ba.merge(a.clone());
    assert_eq!(ab, ba);
    let mut members = ab.txns().members();
    members.sort();
    assert_eq!(members, vec!["a".to_owned(), "b".to_owned()]);
    assert_eq!(ab.clock().get(1), 1);
    assert_eq!(ab.clock().get(2), 1);
    let mut again = ab.clone();
    again.merge(ab.clone());
    assert_eq!(again, ab);

    let mut c = ControllerOneByOne::new();
    c.apply(add_txn(&c, "c", 1, 1));
    assert_eq!(
        a.validate_merge(&c),
        Err(ControllerCvRDTError::Txns(DoubleSpentDot {
            dot: Dot::new(1, 1),
            ours: "a".to_owned(),
            theirs: "c".to_owned(),
        }))
    );
}
