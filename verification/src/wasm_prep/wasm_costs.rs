//! The cost table: what each kind of operation of a module costs in gas.

use crate::types::bytesrepr::{push_u32_le, u32_le};
use vstd::prelude::*;

verus! {

/// The cost table of a protocol version.
#[derive(Clone, Copy, Debug, PartialEq, Eq, Structural)]
pub struct WasmCosts {
    /// Default opcode cost.
    pub regular: u32,
    /// Div operations multiplier.
    pub div: u32,
    /// Mul operations multiplier.
    pub mul: u32,
    /// Memory (load and store) operations multiplier.
    pub mem: u32,
    /// Amount of free memory (in 64 KiB pages) each contract can use for stack.
    pub initial_mem: u32,
    /// Grow memory cost, per page (64 KiB).
    pub grow_mem: u32,
    /// Memory copy cost, per byte.
    pub memcpy: u32,
    /// Max stack height (native WebAssembly stack limiter).
    pub max_stack_height: u32,
    /// Cost of wasm opcode is calculated as `table_cost * opcodes_mul / opcodes_div`.
    pub opcodes_mul: u32,
    pub opcodes_div: u32,
}

impl WasmCosts {
    /// The table under which nothing costs anything.
    pub open spec fn spec_free() -> WasmCosts {
        WasmCosts {
            regular: 0,
            div: 0,
            mul: 0,
            mem: 0,
            initial_mem: 4096,
            grow_mem: 8192,
            memcpy: 0,
            max_stack_height: 65536,
            opcodes_mul: 1,
            opcodes_div: 1,
        }
    }

    /// The table under which nothing costs anything.
    pub fn free() -> (r: Self)
        ensures
            r == Self::spec_free(),
    {
        WasmCosts {
            regular: 0,
            div: 0,
            mul: 0,
            mem: 0,
            initial_mem: 4096,
            grow_mem: 8192,
            memcpy: 0,
            max_stack_height: 65536,
            opcodes_mul: 1,
            opcodes_div: 1,
        }
    }

    /// The table as bytes: its ten numbers in the order of the fields, each as four bytes,
    /// least significant first.
    pub open spec fn spec_to_bytes(self) -> Seq<u8> {
        u32_le(self.regular) + u32_le(self.div) + u32_le(self.mul) + u32_le(self.mem) + u32_le(
            self.initial_mem,
        ) + u32_le(self.grow_mem) + u32_le(self.memcpy) + u32_le(self.max_stack_height) + u32_le(
            self.opcodes_mul,
        ) + u32_le(self.opcodes_div)
    }

    pub fn to_bytes(&self) -> (r: Vec<u8>)
        ensures
            r@ == self.spec_to_bytes(),
    {
        let mut out: Vec<u8> = Vec::new();
        assert(out@ =~= Seq::<u8>::empty());
        push_u32_le(&mut out, self.regular);
        push_u32_le(&mut out, self.div);
        push_u32_le(&mut out, self.mul);
        push_u32_le(&mut out, self.mem);
        push_u32_le(&mut out, self.initial_mem);
        push_u32_le(&mut out, self.grow_mem);
        push_u32_le(&mut out, self.memcpy);
        push_u32_le(&mut out, self.max_stack_height);
        push_u32_le(&mut out, self.opcodes_mul);
        push_u32_le(&mut out, self.opcodes_div);
        assert(out@ =~= self.spec_to_bytes());
        out
    }
}

} // verus!
