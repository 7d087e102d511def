//! The state machine of one submitted transfer.
//!
//! A handle is created when a transfer is handed to the platform backend. The
//! backend delivers exactly one completion for it, also after a cancellation
//! request; the completion is then retrieved once.

use vstd::prelude::*;
use super::{Completion, TransferError};

verus! {

/// Where a transfer stands.
#[derive(Debug)]
pub enum TransferState<T> {
    /// Handed to the backend; no completion yet. `cancel_requested` records
    /// that a cancellation was already sent to the backend.
    Pending { cancel_requested: bool },
    /// The backend delivered this completion; it has not been retrieved.
    Completed(Completion<T>),
    /// The completion was handed to its owner.
    Retrieved,
}

/// An exclusively owned handle to one transfer on the platform backend.
#[derive(Debug)]
pub struct TransferHandle<T> {
    state: TransferState<T>,
}

impl<T> View for TransferHandle<T> {
    type V = TransferState<T>;

    closed spec fn view(&self) -> TransferState<T> {
        self.state
    }
}

/// The state after a cancellation request: only a pending transfer without
/// an earlier request changes; everything else is left as it was.
pub open spec fn cancelled_state<T>(s: TransferState<T>) -> TransferState<T> {
    match s {
        TransferState::Pending { .. } => TransferState::Pending { cancel_requested: true },
        _ => s,
    }
}

/// Whether a cancellation request must be forwarded to the backend.
pub open spec fn cancel_forwarded<T>(s: TransferState<T>) -> bool {
    s == TransferState::<T>::Pending { cancel_requested: false }
}

/// Cancelling is idempotent: a second request changes nothing and is not
/// forwarded, and a request on a completed or retrieved transfer neither
/// changes it nor reaches the backend, so no further completion can follow.
pub proof fn lemma_cancel_idempotent<T>(s: TransferState<T>)
    ensures
        cancelled_state(cancelled_state(s)) == cancelled_state(s),
        !cancel_forwarded(cancelled_state(s)),
        !(s is Pending) ==> cancelled_state(s) == s && !cancel_forwarded(s),
{
}

impl<T> TransferHandle<T> {
    /// A handle for a transfer just handed to the backend.
    pub fn submitted() -> (r: TransferHandle<T>)
        ensures
            r@ == (TransferState::<T>::Pending { cancel_requested: false }),
    {
        TransferHandle { state: TransferState::Pending { cancel_requested: false } }
    }

    /// A handle whose transfer never reached the backend and already has its
    /// completion.
    pub fn finished(completion: Completion<T>) -> (r: TransferHandle<T>)
        ensures
            r@ == TransferState::Completed(completion),
    {
        TransferHandle { state: TransferState::Completed(completion) }
    }

    /// Whether the backend has not yet delivered the completion.
    pub fn is_pending(&self) -> (r: bool)
        ensures
            r == (self@ is Pending),
    {
        match self.state {
            TransferState::Pending { .. } => true,
            _ => false,
        }
    }

    /// Whether a completion is waiting to be retrieved.
    pub fn is_complete(&self) -> (r: bool)
        ensures
            r == (self@ is Completed),
    {
        match self.state {
            TransferState::Completed(_) => true,
            _ => false,
        }
    }

    /// Request cancellation. Returns whether the request must be sent to the
    /// backend: only the first request on a pending transfer is. On a
    /// transfer that already completed this does nothing, so no second
    /// completion can come of it.
    pub fn cancel(&mut self) -> (forward: bool)
        ensures
            final(self)@ == cancelled_state(old(self)@),
            forward == cancel_forwarded(old(self)@),
            !(old(self)@ is Pending) ==> final(self)@ == old(self)@ && !forward,
    {
        match self.state {
            TransferState::Pending { cancel_requested } => {
                self.state = TransferState::Pending { cancel_requested: true };
                !cancel_requested
            },
            _ => false,
        }
    }

    /// Record the completion the backend delivered. The backend delivers one
    /// completion per transfer, so the transfer must still be pending.
    pub fn notify(&mut self, completion: Completion<T>)
        requires
            (old(self)@ is Pending),
        ensures
            final(self)@ == TransferState::Completed(completion),
    {
        self.state = TransferState::Completed(completion);
    }

    /// Take the completion if it has been delivered; the transfer is then
    /// finished. A pending or already retrieved transfer is left unchanged.
    pub fn take_completion(&mut self) -> (r: Option<Completion<T>>)
        ensures
            old(self)@ is Completed ==> r == Some(old(self)@->Completed_0) && final(self)@
                == TransferState::<T>::Retrieved,
            !(old(self)@ is Completed) ==> r is None && final(self)@ == old(self)@,
    {
        if self.is_complete() {
            let mut st = TransferState::Retrieved;
            std::mem::swap(&mut st, &mut self.state);
            match st {
                TransferState::Completed(c) => Some(c),
                _ => None,
            }
        } else {
            None
        }
    }
}

} // verus!
