use crate::channel::{send_outcome, sender_channel};
use crate::error::TransitionErr;
use vstd::prelude::*;

verus! {

/// Messages interchanged between the caller and the worker that is
/// responsible for blinking the LED.
#[derive(Clone, Copy, Debug, PartialEq, Eq, Structural)]
pub enum MsgType {
    /// Sent when the caller reports success.
    Success,
    /// Sent when the caller reports failure.
    Failure,
}

/// Allows the caller to end the blinking after the transition starts.
///
/// Both notification methods consume the notifier, so at most one outcome can
/// ever be delivered through it.  On success each returns a ghost witness of
/// the one message that was handed to the worker's channel.
#[derive(Debug)]
pub struct Notifier {
    sender: crossbeam_channel::Sender<MsgType>,
}

impl Notifier {
    /// The channel this notifier feeds: the one its engine drains.
    pub closed spec fn channel(self) -> int {
        sender_channel(self.sender)
    }

    pub(crate) fn new(sender: crossbeam_channel::Sender<MsgType>) -> (r: Notifier)
        ensures
            r.channel() == sender_channel(sender),
    {
        Notifier { sender }
    }

    fn notify(self, msg: MsgType) -> (r: Result<Ghost<MsgType>, TransitionErr>)
        ensures
            r matches Ok(m) ==> m@ == msg,
            r is Err ==> r == Err::<Ghost<MsgType>, TransitionErr>(TransitionErr::Notification),
    {
        match send_outcome(&self.sender, msg) {
            Ok(m) => Ok(m),
            Err(_) => Err(TransitionErr::Notification),
        }
    }

    /// Finishes the transition with success: the success outcome — and no
    /// other — is handed to the worker's channel, as the returned ghost
    /// witness states; the worker renders the success color once and stops.
    ///
    /// Fails with a `Notification` error, and with no other, when the worker's
    /// receiving end is already gone; nothing was delivered then.
    pub fn notify_success(self) -> (r: Result<Ghost<MsgType>, TransitionErr>)
        ensures
            r matches Ok(m) ==> m@ == MsgType::Success,
            r is Err ==> r == Err::<Ghost<MsgType>, TransitionErr>(TransitionErr::Notification),
    {
        self.notify(MsgType::Success)
    }

    /// Finishes the transition with failure: the failure outcome — and no
    /// other — is handed to the worker's channel, as the returned ghost
    /// witness states; the worker renders the failure color once and stops.
    ///
    /// Fails with a `Notification` error, and with no other, when the worker's
    /// receiving end is already gone; nothing was delivered then.
    pub fn notify_failure(self) -> (r: Result<Ghost<MsgType>, TransitionErr>)
        ensures
            r matches Ok(m) ==> m@ == MsgType::Failure,
            r is Err ==> r == Err::<Ghost<MsgType>, TransitionErr>(TransitionErr::Notification),
    {
        self.notify(MsgType::Failure)
    }
}

} // verus!
