//! Sending a cancellation signal. A [`SignalSent`] can only be made here,
//! by sending, so holding one shows that the signal went out.
use vstd::prelude::*;

verus! {

#[verifier::external_type_specification]
#[verifier::external_body]
#[verifier::reject_recursive_types(T)]
pub struct ExOneshotSender<T>(tokio::sync::oneshot::Sender<T>);

/// The token of one cancellation signal sent.
pub struct SignalSent {
    listening: bool,
}

impl SignalSent {
    /// Whether the receiving task was still listening when the signal was
    /// sent.
    pub fn was_listening(&self) -> bool {
        self.listening
    }
}

/// Relies on `tokio::sync::oneshot::Sender::send`: consumes the sender and
/// hands the unit signal to the receiving task. Whether that task was still
/// listening depends on the scheduler, so nothing is promised of it.
#[verifier::external_body]
pub(crate) fn send_signal(tx: tokio::sync::oneshot::Sender<()>) -> SignalSent {
    SignalSent { listening: tx.send(()).is_ok() }
}

} // verus!
