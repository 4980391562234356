//! Why the engine did not run a deploy, or gave it up.

use crate::execution;
use crate::shared::newtypes::Blake2bHash;
use crate::wasm_prep::PreprocessingError;
use crate::types::vec_map::Duplicate;
use vstd::prelude::*;

verus! {

/// The global state has no root with this hash.
#[derive(Clone, Copy, Debug, PartialEq, Eq)]
pub struct RootNotFound(pub Blake2bHash);

/// Why the engine did not run a deploy, or gave it up.
#[derive(Clone, Debug, PartialEq, Eq)]
pub enum Error {
    /// The global state has no root with the given hash.
    RootNotFound(Blake2bHash),
    /// The bytes of a module were refused.
    WasmPreprocessingError(PreprocessingError),
    /// A failure that is described among the failures of an execution.
    ExecError(execution::Error),
    /// The deploy names no account, or keys that are not associated with its account.
    AuthorizationError,
    /// The main purse of the account holds less than the largest payment.
    InsufficientPaymentError,
    /// A system contract lacks a purse that it must know.
    DeployError,
    /// The payment could not be finalized.
    FinalizationError,
    SerializationError,
    /// The account does not know the system contract of this name.
    MissingSystemContractError(String),
    /// A hash or an address of a deploy item has the wrong length.
    InvalidHashLength { expected: usize, actual: usize },
}

/// Why the engine did not run a deploy, or gave it up, as a plain value.
pub enum ErrorView {
    RootNotFound(Blake2bHash),
    WasmPreprocessingError(PreprocessingError),
    ExecError(execution::ErrorView),
    AuthorizationError,
    InsufficientPaymentError,
    DeployError,
    FinalizationError,
    SerializationError,
    MissingSystemContractError(Seq<char>),
    InvalidHashLength { expected: usize, actual: usize },
}

impl ErrorView {
    /// Whether the error says that the store of the global state failed.
    pub open spec fn is_store_failure(self) -> bool {
        self == ErrorView::ExecError(execution::ErrorView::Storage)
    }
}

impl View for Error {
    type V = ErrorView;

    open spec fn view(&self) -> ErrorView {
        match self {
            Error::RootNotFound(hash) => ErrorView::RootNotFound(*hash),
            Error::WasmPreprocessingError(e) => ErrorView::WasmPreprocessingError(*e),
            Error::ExecError(e) => ErrorView::ExecError(e@),
            Error::AuthorizationError => ErrorView::AuthorizationError,
            Error::InsufficientPaymentError => ErrorView::InsufficientPaymentError,
            Error::DeployError => ErrorView::DeployError,
            Error::FinalizationError => ErrorView::FinalizationError,
            Error::SerializationError => ErrorView::SerializationError,
            Error::MissingSystemContractError(name) => ErrorView::MissingSystemContractError(name@),
            Error::InvalidHashLength { expected, actual } => ErrorView::InvalidHashLength {
                expected: *expected,
                actual: *actual,
            },
        }
    }
}

impl Duplicate for Error {
    fn duplicate(&self) -> (r: Self) {
        match self {
            Error::RootNotFound(hash) => Error::RootNotFound(*hash),
            Error::WasmPreprocessingError(e) => Error::WasmPreprocessingError(*e),
            Error::ExecError(e) => Error::ExecError(e.duplicate()),
            Error::AuthorizationError => Error::AuthorizationError,
            Error::InsufficientPaymentError => Error::InsufficientPaymentError,
            Error::DeployError => Error::DeployError,
            Error::FinalizationError => Error::FinalizationError,
            Error::SerializationError => Error::SerializationError,
            Error::MissingSystemContractError(name) => Error::MissingSystemContractError(
                name.clone(),
            ),
            Error::InvalidHashLength { expected, actual } => Error::InvalidHashLength {
                expected: *expected,
                actual: *actual,
            },
        }
    }
}

} // verus!
