//! What the global state keeps for each protocol version.

use crate::wasm_prep::wasm_costs::WasmCosts;
use vstd::prelude::*;

verus! {

/// The data of a protocol version: its cost table.
#[derive(Clone, Copy, Debug, PartialEq, Eq, Structural)]
pub struct ProtocolData {
    pub wasm_costs: WasmCosts,
}

impl ProtocolData {
    pub fn new(wasm_costs: WasmCosts) -> (r: Self)
        ensures
            r == (ProtocolData { wasm_costs }),
    {
        ProtocolData { wasm_costs }
    }

    pub fn wasm_costs(&self) -> (r: WasmCosts)
        ensures
            r == self.wasm_costs,
    {
        self.wasm_costs
    }
}

} // verus!
