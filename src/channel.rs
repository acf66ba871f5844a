use vstd::prelude::*;

use std::sync::Arc;

verus! {

#[verifier::external_type_specification]
#[verifier::external_body]
#[verifier::reject_recursive_types(T)]
pub struct ExTokioMutex<T: ?Sized>(tokio::sync::Mutex<T>);

/// Relies on tokio::sync::Mutex::new: an unlocked mutex around an empty slot.
#[verifier::external_body]
fn empty_guarded_slot<S>() -> (r: tokio::sync::Mutex<Option<S>>) {
    tokio::sync::Mutex::new(None)
}

/// The shared, lock-guarded slot for the eval channel's sender. Every clone
/// of the channel reaches the same slot through the same `Arc`.
#[verifier::reject_recursive_types(S)]
pub struct EvalChannel<S> {
    pub sender: Arc<tokio::sync::Mutex<Option<S>>>,
}

impl<S> EvalChannel<S> {
    /// A channel whose slot holds no sender yet.
    pub fn new() -> (r: EvalChannel<S>) {
        EvalChannel { sender: Arc::new(empty_guarded_slot()) }
    }

    /// Another handle to the same slot.
    pub fn share(&self) -> (r: EvalChannel<S>)
        ensures
            r.sender == self.sender,
    {
        EvalChannel { sender: Arc::clone(&self.sender) }
    }
}

} // verus!
