//! Composite conflict-free replicated data types: a causal clock and several
//! field CRDTs under one replicated identity, with a causally gated operation
//! pipeline and a pointwise state join.
//!
//! The field CRDTs and the clock are those of the `crdts` crate. This crate
//! is the composition: how an operation is tagged with a dot, validated,
//! applied at most once, and how two replicas are joined.

pub mod clock;
pub mod counter;
pub mod dot;
pub mod error;
pub mod nested;
pub mod one;
pub mod one_by_one;
pub mod ormap;
pub mod orset;

use crate::ormap::{MapOp, MapOpView};
use crate::orset::{SetOp, SetOpView};
use vstd::prelude::*;

verus! {

/// An operation on exactly one field of a controller.
#[derive(Clone, Debug, PartialEq, Eq)]
pub enum OpOneByOne {
    /// For the set of transactions.
    T(SetOp<String>),
    /// For the map of history hashes.
    H(MapOp),
    /// For the set of candidates.
    C(SetOp<Vec<u8>>),
}

/// The view of an [`OpOneByOne`].
pub enum OpOneByOneView {
    T(SetOpView<Seq<char>>),
    H(MapOpView),
    C(SetOpView<Seq<u8>>),
}

impl View for OpOneByOne {
    type V = OpOneByOneView;

    open spec fn view(&self) -> OpOneByOneView {
        match self {
            OpOneByOne::T(op) => OpOneByOneView::T(op@),
            OpOneByOne::H(op) => OpOneByOneView::H(op@),
            OpOneByOne::C(op) => OpOneByOneView::C(op@),
        }
    }
}

/// One optional operation for each field of a controller: for the set of
/// transactions, for the map of history hashes and for the set of candidates.
#[derive(Clone, Debug, PartialEq, Eq)]
pub enum OpAllInOne {
    All(Option<SetOp<String>>, Option<MapOp>, Option<SetOp<Vec<u8>>>),
}

/// The kinds of the three operations of a full [`OpAllInOne`]: what is done to
/// the transactions (`T`), the history hashes (`H`) and the candidates (`C`),
/// where `a` is an addition, `u` an update and `r` a removal.
#[derive(Clone, Copy, Debug, PartialEq, Eq, Structural)]
pub enum OpMix {
    TaHuCa,
    TrHuCa,
    TaHrCa,
    TaHuCr,
}

} // verus!
