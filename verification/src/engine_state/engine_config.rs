//! How the engine is set up.

use vstd::prelude::*;

verus! {

/// The settings of the engine.
#[derive(Clone, Copy, Debug, PartialEq, Eq, Structural, Default)]
pub struct EngineConfig {
    /// Whether a deploy pays for its execution. Where it does not, the engine runs the
    /// session code alone, with a fixed gas limit.
    use_payment_code: bool,
}

impl EngineConfig {
    /// The settings in which a deploy does not pay for its execution.
    pub fn new() -> (r: EngineConfig)
        ensures
            !r.spec_use_payment_code(),
    {
        EngineConfig { use_payment_code: false }
    }

    pub closed spec fn spec_use_payment_code(self) -> bool {
        self.use_payment_code
    }

    #[verifier::when_used_as_spec(spec_use_payment_code)]
    pub fn use_payment_code(self) -> (r: bool)
        ensures
            r == self.spec_use_payment_code(),
    {
        self.use_payment_code
    }

    /// The same settings, but for whether a deploy pays for its execution.
    pub fn set_use_payment_code(self, use_payment_code: bool) -> (r: EngineConfig)
        ensures
            r.spec_use_payment_code() == use_payment_code,
    {
        EngineConfig { use_payment_code }
    }
}

} // verus!
