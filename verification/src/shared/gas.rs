//! Gas, the unit in which execution is metered.

use crate::shared::motes::Motes;
use crate::types::uint::U512;
use vstd::prelude::*;

verus! {

/// An amount of gas.
#[derive(Clone, Copy, Debug, PartialEq, Eq)]
pub struct Gas(pub U512);

impl View for Gas {
    type V = nat;

    open spec fn view(&self) -> nat {
        self.0@
    }
}

impl Gas {
    pub fn new(value: U512) -> (r: Self)
        ensures
            r == Gas(value),
    {
        Gas(value)
    }

    pub fn from_u64(value: u64) -> (r: Self)
        ensures
            r@ == value,
    {
        Gas(U512::from_u64(value))
    }

    pub fn value(&self) -> (r: U512)
        ensures
            r == self.0,
    {
        self.0
    }

    /// The gas that `motes` buy at `conv_rate` motes for one unit of gas, rounded down;
    /// nothing at a rate of zero.
    pub fn from_motes(motes: Motes, conv_rate: u64) -> (r: Option<Gas>)
        ensures
            conv_rate == 0 ==> r.is_none(),
            conv_rate > 0 ==> r.is_some() && r.unwrap()@ == motes@ / (conv_rate as nat),
    {
        if conv_rate == 0 {
            None
        } else {
            Some(Gas(motes.value().div_u64(conv_rate)))
        }
    }

    /// What is left of this gas after `spent`, where that much is there.
    pub fn checked_sub(&self, spent: &Gas) -> (r: Option<Gas>)
        ensures
            self@ >= spent@ ==> r.is_some() && r.unwrap()@ == self@ - spent@,
            self@ < spent@ ==> r.is_none(),
    {
        match self.0.checked_sub(&spent.0) {
            Some(left) => Some(Gas(left)),
            None => None,
        }
    }
}

} // verus!
