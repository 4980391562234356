//! Motes, the smallest unit of the token.

use crate::shared::gas::Gas;
use crate::types::uint::U512;
use vstd::prelude::*;

verus! {

/// An amount of motes.
#[derive(Clone, Copy, Debug, PartialEq, Eq)]
pub struct Motes(pub U512);

impl View for Motes {
    type V = nat;

    open spec fn view(&self) -> nat {
        self.0@
    }
}

impl Motes {
    pub fn new(value: U512) -> (r: Self)
        ensures
            r == Motes(value),
    {
        Motes(value)
    }

    pub fn from_u64(value: u64) -> (r: Self)
        ensures
            r@ == value,
    {
        Motes(U512::from_u64(value))
    }

    pub fn zero() -> (r: Self)
        ensures
            r@ == 0,
    {
        Motes(U512::zero())
    }

    pub fn value(&self) -> (r: U512)
        ensures
            r == self.0,
    {
        self.0
    }

    /// The motes that `gas` costs at `conv_rate` motes for one unit of gas, where 512 bits
    /// can hold them.
    pub fn from_gas(gas: Gas, conv_rate: u64) -> (r: Option<Motes>)
        ensures
            gas@ * (conv_rate as nat) < U512::modulus() ==> r.is_some() && r.unwrap()@ == gas@ * (
            conv_rate as nat),
            gas@ * (conv_rate as nat) >= U512::modulus() ==> r.is_none(),
    {
        match gas.value().checked_mul_u64(conv_rate) {
            Some(motes) => Some(Motes(motes)),
            None => None,
        }
    }

    /// Whether this is the smaller amount.
    pub fn lt(&self, other: &Motes) -> (r: bool)
        ensures
            r == (self@ < other@),
    {
        self.0.lt(&other.0)
    }
}

} // verus!
