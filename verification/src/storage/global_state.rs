//! What the engine asks of the store of the global state: an immutable store of states,
//! each known by the hash of its root.

use crate::engine_state::execution_effect::TransformMap;
use crate::shared::newtypes::Blake2bHash;
use crate::shared::transform::TransformView;
use crate::storage::protocol_data::ProtocolData;
use crate::types::key::{Key, PublicKey};
use crate::types::uint::U512;
use crate::types::value::{TypeName, Value, ValueView};
use crate::types::vec_map::{Duplicate, VecMap};
use vstd::prelude::*;

verus! {

/// The validators that have bonded a stake, each with its stake.
pub type BondedValidators = VecMap<PublicKey, U512>;

impl Duplicate for U512 {
    fn duplicate(&self) -> (r: Self) {
        *self
    }
}

/// One state of the global state, as a plain value: the values by key.
pub struct StateView {
    pub values: Map<Key, ValueView>,
}

/// The transforms of a commit, as a plain value.
pub struct CommitView {
    pub transforms: Map<Key, TransformView>,
}

/// How a commit ended.
#[derive(Debug)]
pub enum CommitResult {
    /// The store has no state with the root that the commit starts from.
    RootNotFound,
    /// The new state is stored, and this is its root.
    Success { state_root: Blake2bHash, bonded_validators: BondedValidators },
    /// A transform needs a value under the key, and there is none.
    KeyNotFound(Key),
    /// The transform at the key does not apply to the value under it.
    TypeMismatch { key: Key, expected: TypeName, found: TypeName },
}

/// How a commit ended, as a plain value.
pub enum CommitResultView {
    RootNotFound,
    Success { state_root: Blake2bHash, bonded_validators: Map<PublicKey, nat> },
    KeyNotFound(Key),
    TypeMismatch { key: Key, expected: TypeName, found: TypeName },
}

impl View for CommitResult {
    type V = CommitResultView;

    open spec fn view(&self) -> CommitResultView {
        match self {
            CommitResult::RootNotFound => CommitResultView::RootNotFound,
            CommitResult::Success { state_root, bonded_validators } => CommitResultView::Success {
                state_root: *state_root,
                bonded_validators: bonded_validators@,
            },
            CommitResult::KeyNotFound(key) => CommitResultView::KeyNotFound(*key),
            CommitResult::TypeMismatch { key, expected, found } => CommitResultView::TypeMismatch {
                key: *key,
                expected: *expected,
                found: *found,
            },
        }
    }
}

/// What a commit leaves: how it ended, and the store after it.
pub struct CommitOutcome<S> {
    pub result: CommitResultView,
    pub store: S,
}

/// Reads one state of the global state.
///
/// A read may fail, for reasons that are the store's own. Of a read that fails nothing is
/// said; one that succeeds returns what the state holds.
pub trait StateReader {
    /// Why a read failed.
    type Error;

    /// The state that the reader reads.
    spec fn contents(&self) -> StateView;

    /// The value under `key`, if there is one.
    fn read(&self, key: &Key) -> (r: Result<Option<Value>, Self::Error>)
        ensures
            r matches Ok(found) ==> match found {
                Some(value) => self.contents().values.contains_key(*key)
                    && self.contents().values[*key] == value@,
                None => !self.contents().values.contains_key(*key),
            },
    ;
}

/// The store of the global state.
///
/// A call may fail, for reasons that are the store's own. Of a call that fails nothing is
/// said. What a call that succeeds returns depends on the store and the arguments alone:
/// the spec functions of the trait name it.
pub trait StateProvider: Sized {
    /// Why a call failed.
    type Error;

    type Reader: StateReader<Error = Self::Error>;

    /// The state with root `root`, if the store knows that root.
    spec fn state_at(&self, root: Blake2bHash) -> Option<StateView>;

    /// The root of the state that holds nothing.
    spec fn spec_empty_root(&self) -> Blake2bHash;

    /// What `commit` leaves where it does not fail.
    spec fn commit_spec(self, prestate_hash: Blake2bHash, effects: CommitView) -> CommitOutcome<
        Self,
    >;

    /// The store after `put_protocol_data`, where that does not fail.
    spec fn put_protocol_data_spec(self, protocol_version: u64, protocol_data: ProtocolData) -> Self;

    /// A reader of the state with root `root`, if the store knows that root.
    fn checkout(&self, root: Blake2bHash) -> (r: Result<Option<Self::Reader>, Self::Error>)
        ensures
            r matches Ok(found) ==> match found {
                Some(reader) => self.state_at(root) == Some(reader.contents()),
                None => self.state_at(root).is_none(),
            },
    ;

    /// Applies the transforms to the state with root `prestate_hash` and stores the state
    /// that results.
    fn commit(&mut self, prestate_hash: Blake2bHash, effects: &TransformMap) -> (r: Result<
        CommitResult,
        Self::Error,
    >)
        ensures
            r matches Ok(result) ==> old(self).commit_spec(
                prestate_hash,
                CommitView { transforms: effects@ },
            ) == (CommitOutcome { result: result@, store: *final(self) }),
    ;

    /// The root of the state that holds nothing.
    fn empty_root(&self) -> (r: Blake2bHash)
        ensures
            r == self.spec_empty_root(),
    ;

    /// Stores the data of a protocol version.
    fn put_protocol_data(&mut self, protocol_version: u64, protocol_data: &ProtocolData) -> (r:
        Result<(), Self::Error>)
        ensures
            r is Ok ==> *final(self) == old(self).put_protocol_data_spec(
                protocol_version,
                *protocol_data,
            ),
    ;
}

} // verus!
