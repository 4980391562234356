//! What kind of access a deploy made to a key.

use crate::types::vec_map::Duplicate;
use vstd::prelude::*;

verus! {

/// The kind of access to a key.
#[derive(Clone, Copy, Debug, PartialEq, Eq, Structural)]
pub enum Op {
    Read,
    Write,
    Add,
    NoOp,
}

impl Op {
    /// The kind of access that two accesses in turn amount to: no access changes nothing,
    /// reads stay a read and adds an add, anything else is a write.
    pub open spec fn spec_join(self, later: Op) -> Op {
        match (self, later) {
            (a, Op::NoOp) => a,
            (Op::NoOp, b) => b,
            (Op::Read, Op::Read) => Op::Read,
            (Op::Add, Op::Add) => Op::Add,
            _ => Op::Write,
        }
    }

    #[verifier::when_used_as_spec(spec_join)]
    pub fn join(self, later: Op) -> (r: Op)
        ensures
            r == self.spec_join(later),
    {
        match (self, later) {
            (a, Op::NoOp) => a,
            (Op::NoOp, b) => b,
            (Op::Read, Op::Read) => Op::Read,
            (Op::Add, Op::Add) => Op::Add,
            _ => Op::Write,
        }
    }
}

impl View for Op {
    type V = Op;

    open spec fn view(&self) -> Op {
        *self
    }
}

impl Duplicate for Op {
    fn duplicate(&self) -> (r: Self) {
        *self
    }
}

} // verus!
