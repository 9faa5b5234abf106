use vstd::prelude::*;

verus! {

/// Error describing an issue with the transition.
#[derive(Clone, Copy, Debug, PartialEq, Eq, Structural)]
pub enum TransitionErr {
    /// Describes an issue with the connection to the blink(1) device.
    ///
    /// Make sure that your blink is connected and that your user has the
    /// rights needed to access the blink device.
    BlinkConnection,

    /// Describes an issue with sending a message over the channel that informs
    /// the blinking worker to stop.
    Notification,
}

impl TransitionErr {
    /// A short description of the error, suitable for reporting to a user.
    pub fn message(&self) -> (r: &'static str)
        ensures
            *self == TransitionErr::BlinkConnection ==> r@ == "cannot contact blink(1) device"@,
            *self == TransitionErr::Notification ==> r@ == "cannot notify second thread"@,
    {
        match *self {
            TransitionErr::BlinkConnection => "cannot contact blink(1) device",
            TransitionErr::Notification => "cannot notify second thread",
        }
    }
}

} // verus!
