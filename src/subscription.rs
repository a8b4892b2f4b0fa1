//! The cancellation side of a subscription: a one-shot signal that is sent
//! at most once, however often cancellation is asked for.
use vstd::prelude::*;
use crate::signal::{send_signal, SignalSent};

verus! {

/// Holds the sending end of a subscription's cancellation channel until it
/// is used.
pub struct SubscriptionControl {
    cancel_tx: Option<tokio::sync::oneshot::Sender<()>>,
}

impl SubscriptionControl {
    /// No signal has been sent yet: a cancellation would send one.
    pub closed spec fn is_armed(&self) -> bool {
        self.cancel_tx is Some
    }

    /// A control that owns `tx` and has sent nothing.
    pub fn new(tx: tokio::sync::oneshot::Sender<()>) -> (r: Self)
        ensures
            r.is_armed(),
    {
        SubscriptionControl { cancel_tx: Some(tx) }
    }

    /// Sends the cancellation signal if it has not been sent, and returns
    /// the token of that send; a repeated call sends nothing and returns
    /// `None`.
    pub fn cancel(&mut self) -> (sent: Option<SignalSent>)
        ensures
            sent is Some == old(self).is_armed(),
            !final(self).is_armed(),
    {
        match self.cancel_tx.take() {
            Some(tx) => Some(send_signal(tx)),
            None => None,
        }
    }
}

} // verus!
