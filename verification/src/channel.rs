//! The channel on which a finished transfer hands its result over.
use tokio::sync::oneshot;
use vstd::prelude::*;

use crate::completion::TransferResult;

verus! {

/// The receiving half of a `tokio` one-shot channel, carried through as it is.
#[verifier::external_type_specification]
#[verifier::external_body]
#[verifier::reject_recursive_types(T)]
pub struct ExReceiver<T>(oneshot::Receiver<T>);

/// The sending half of a `tokio` one-shot channel, carried through as it is.
#[verifier::external_type_specification]
#[verifier::external_body]
#[verifier::reject_recursive_types(T)]
pub struct ExSender<T>(oneshot::Sender<T>);

/// What awaiting a receiver fails with; the receiver's own declaration needs it.
#[verifier::external_type_specification]
#[verifier::external_body]
pub struct ExRecvError(oneshot::error::RecvError);

/// The receiving half of the channel that `sender` sends on.
pub uninterp spec fn other_half(sender: oneshot::Sender<TransferResult>) -> oneshot::Receiver<
    TransferResult,
>;

/// `tokio::sync::oneshot::channel` makes the two halves of one new channel: what is sent on
/// the first goes to the second.
#[verifier::external_body]
pub(crate) fn result_channel() -> (halves: (
    oneshot::Sender<TransferResult>,
    oneshot::Receiver<TransferResult>,
))
    ensures
        halves.1 == other_half(halves.0),
{
    oneshot::channel()
}

/// `tokio::sync::oneshot::Sender::send` hands `t` to the receiver, or gives it back as it
/// is where the receiver is gone. Which of the two happens depends on the other side.
pub assume_specification<T>[ oneshot::Sender::<T>::send ](
    sender: oneshot::Sender<T>,
    t: T,
) -> (sent: Result<(), T>)
    ensures
        sent matches Err(back) ==> back == t,
;

} // verus!
