//! The sending end of the channel to the main loop.

use vstd::prelude::*;
use crate::event::AppEvent;
use tokio::sync::mpsc::UnboundedSender;

verus! {

/// The main loop no longer listens: `event`, which it had to receive, could
/// not be handed over.
#[derive(Clone, Copy, Debug, PartialEq, Eq)]
pub struct ChannelClosed {
    /// The signal that had to arrive and was refused.
    pub event: AppEvent,
    /// The signal that was sent before it on a best effort and was refused
    /// too, if there was one. It is there to be logged.
    pub unheard: Option<AppEvent>,
}

/// `tokio::sync::mpsc::UnboundedSender`, a handle for sending into an
/// unbounded channel. Nothing inside it is visible here.
#[verifier::external_type_specification]
#[verifier::external_body]
#[verifier::reject_recursive_types(T)]
pub struct ExUnboundedSender<T>(UnboundedSender<T>);

/// The events that the channel has taken from this sender, oldest first.
/// It is a record of what was handed over, not of what still waits in the
/// channel: the receiver takes events out at its own pace, in this order.
pub uninterp spec fn delivered(sender: UnboundedSender<AppEvent>) -> Seq<AppEvent>;

/// Whether the channel has refused an event from this sender. A channel
/// refuses when its receiving half is closed or dropped, and once that is so
/// it stays so: a sender that was refused once is refused ever after.
pub uninterp spec fn refused(sender: UnboundedSender<AppEvent>) -> bool;

/// Calls `UnboundedSender::send`, which never waits. While the receiving half
/// is open the channel takes the event, behind all that this sender handed
/// over before, and the call returns `Ok`. Once the receiving half is closed
/// or dropped the channel takes nothing and the call hands the event back;
/// tokio marks a channel as closed and never takes the mark off, so every
/// later call is refused too. Whether the receiving half is open is up to
/// the receiver, so the contract covers both answers. (tokio aborts the
/// process should the count of waiting messages pass half of `usize::MAX`;
/// memory runs out long before.)
#[verifier::external_body]
pub(crate) fn send(
    sender: &mut UnboundedSender<AppEvent>,
    event: AppEvent,
) -> (r: Result<(), AppEvent>)
    ensures
        r is Ok ==> delivered(*final(sender)) == delivered(*old(sender)).push(event),
        r matches Err(back) ==> back == event
            && delivered(*final(sender)) == delivered(*old(sender)),
        refused(*old(sender)) ==> r is Err,
        refused(*final(sender)) == (r is Err),
{
    match sender.send(event) {
        Ok(()) => Ok(()),
        Err(refused) => Err(refused.0),
    }
}

} // verus!
