use crate::notifier::MsgType;
use vstd::prelude::*;

verus! {

/// Declares crossbeam_channel's sender half so that it can be held and passed
/// around by verified code.  The value is opaque.
#[verifier::external_type_specification]
#[verifier::external_body]
#[verifier::reject_recursive_types(T)]
pub struct ExSender<T>(crossbeam_channel::Sender<T>);

/// Declares crossbeam_channel's receiver half so that it can be held and
/// passed around by verified code.  The value is opaque.
#[verifier::external_type_specification]
#[verifier::external_body]
#[verifier::reject_recursive_types(T)]
pub struct ExReceiver<T>(crossbeam_channel::Receiver<T>);

/// Declares the error returned by a failed send; it carries the message that
/// could not be delivered.
#[verifier::external_type_specification]
#[verifier::external_body]
#[verifier::reject_recursive_types(T)]
pub struct ExSendError<T>(crossbeam_channel::SendError<T>);

/// Declares the error returned by a receive attempt that found no message.
#[verifier::external_type_specification]
#[verifier::external_body]
pub struct ExTryRecvError(crossbeam_channel::TryRecvError);

/// The channel that a sender half feeds.
pub uninterp spec fn sender_channel(s: crossbeam_channel::Sender<MsgType>) -> int;

/// The channel that a receiver half drains.
pub uninterp spec fn receiver_channel(r: crossbeam_channel::Receiver<MsgType>) -> int;

/// Relies on crossbeam_channel::unbounded to create a connected pair: the two
/// returned halves are the send and receive ends of one and the same channel.
/// Which messages later travel over it depends on other threads, so nothing
/// more is stated.
#[verifier::external_body]
pub(crate) fn new_signal_channel() -> (r: (
    crossbeam_channel::Sender<MsgType>,
    crossbeam_channel::Receiver<MsgType>,
))
    ensures
        sender_channel(r.0) == receiver_channel(r.1),
{
    crossbeam_channel::unbounded()
}

/// Relies on crossbeam_channel::Sender::send: on an unbounded channel it
/// never blocks, and it fails exactly when the receiving side has been
/// dropped, which another thread decides; nothing is delivered then.  On
/// `Ok` exactly the handed message went onto the channel; the ghost result
/// names that delivered message.
#[verifier::external_body]
pub(crate) fn send_outcome(s: &crossbeam_channel::Sender<MsgType>, msg: MsgType) -> (r: Result<
    Ghost<MsgType>,
    crossbeam_channel::SendError<MsgType>,
>)
    ensures
        r matches Ok(m) ==> m@ == msg,
{
    match s.send(msg) {
        Ok(()) => Ok(Ghost(msg)),
        Err(e) => Err(e),
    }
}

/// Relies on crossbeam_channel::Receiver::try_recv to pop a pending message
/// without blocking.  Whether a message is pending depends on another thread,
/// so nothing is stated about the result.
pub assume_specification<T>[ crossbeam_channel::Receiver::<T>::try_recv ](
    r: &crossbeam_channel::Receiver<T>,
) -> Result<T, crossbeam_channel::TryRecvError>;

} // verus!
