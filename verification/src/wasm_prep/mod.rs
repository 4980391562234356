//! What the engine asks of the preprocessor that turns the bytes of a module into a module
//! that can run.

pub mod wasm_costs;

use crate::wasm_prep::wasm_costs::WasmCosts;
use vstd::prelude::*;

verus! {

/// Why the bytes of a module were refused.
#[derive(Clone, Copy, Debug, PartialEq, Eq, Structural)]
pub enum PreprocessingError {
    InvalidImportsError,
    NoExportSection,
    NoImportSection,
    DeserializeError,
    OperationForbiddenByGasRules,
    StackLimiterError,
}

/// The bytes of a module, as a plain value.
pub struct ModuleBytes {
    pub bytes: Seq<u8>,
}

/// Turns bytes into modules of type `A`.
///
/// A preprocessor is made for a table of costs, by which the modules that it returns are
/// metered. What it returns depends on that table and on the bytes alone: `spec_new`,
/// `preprocess_spec` and `deserialize_spec` name it.
pub trait Preprocessor<A>: Sized {
    /// The preprocessor that `new` makes.
    spec fn spec_new(wasm_costs: WasmCosts) -> Self;

    /// The preprocessor that meters by `wasm_costs`.
    fn new(wasm_costs: WasmCosts) -> (r: Self)
        ensures
            r == Self::spec_new(wasm_costs),
    ;

    /// What `preprocess` makes of the bytes.
    spec fn preprocess_spec(&self, module: ModuleBytes) -> Result<A, PreprocessingError>;

    /// What `deserialize` makes of the bytes.
    spec fn deserialize_spec(&self, module: ModuleBytes) -> Result<A, PreprocessingError>;

    /// Checks the bytes of a module, adds gas metering and the stack limit, and returns the
    /// module.
    fn preprocess(&self, module_bytes: &Vec<u8>) -> (r: Result<A, PreprocessingError>)
        ensures
            r == self.preprocess_spec(ModuleBytes { bytes: module_bytes@ }),
    ;

    /// Returns the module that the bytes of a stored contract stand for.
    fn deserialize(&self, module_bytes: &Vec<u8>) -> (r: Result<A, PreprocessingError>)
        ensures
            r == self.deserialize_spec(ModuleBytes { bytes: module_bytes@ }),
    ;
}

} // verus!
