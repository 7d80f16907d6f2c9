//! What a bounded wait on the input devices came back with.
//!
//! The wait itself is the caller's: it polls the devices it registered and
//! hands over the events that the poll filled in. Only their presence is
//! looked at. The events are never read, so nothing here drains a device.

use vstd::prelude::*;

verus! {

/// The collection of readiness events that `mio::Poll::poll` fills.
#[verifier::external_type_specification]
#[verifier::external_body]
pub struct ExEvents(mio::Events);

/// The tokens of the readiness events that `events` holds, in the order in
/// which it yields them.
pub uninterp spec fn ready_tokens(events: mio::Events) -> Seq<usize>;

/// `mio::Events::is_empty`: true exactly when the collection holds no event.
pub assume_specification[ mio::Events::is_empty ](events: &mio::Events) -> (empty: bool)
    ensures
        empty == (ready_tokens(*events).len() == 0),
;

/// The two ways in which a wait for input ends.
#[derive(Clone, Copy, Debug, PartialEq, Eq, Structural)]
pub enum WaitOutcome {
    /// At least one device became readable.
    Activity,
    /// The wait ended with no device readable.
    TimedOut,
}

/// The outcome that goes with a number of readiness events.
pub open spec fn outcome_of(ready: nat) -> WaitOutcome {
    if ready == 0 {
        WaitOutcome::TimedOut
    } else {
        WaitOutcome::Activity
    }
}

/// Classifies the events that a poll came back with: activity if there is
/// any event at all, a timeout if there is none.
pub fn wait_outcome(events: &mio::Events) -> (outcome: WaitOutcome)
    ensures
        outcome == outcome_of(ready_tokens(*events).len()),
{
    if events.is_empty() {
        WaitOutcome::TimedOut
    } else {
        WaitOutcome::Activity
    }
}

} // verus!
