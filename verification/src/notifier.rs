//! The consumer of a watch session, and the calls that the controller's
//! actions make on it.

use crate::controller::{ActionView, WatchAction};
use vstd::prelude::*;

verus! {

/// What a consumer of change notifications provides.
pub trait WatchDirectoryNotifier {
    /// Asked once per tick; `false` ends the loop at that tick.
    fn should_keep_looping(&self) -> bool;

    /// Receives a batch of changed paths. A batch is never empty.
    fn detected_change(&self, paths: Vec<String>)
        requires
            paths@.len() > 0,
    ;

    /// Receives the number of the error for which the watch could not be set
    /// up: one of 1 to 6.
    fn on_error(&self, code: i32)
        requires
            1 <= code <= 6,
    ;
}

/// What is left for the driver to do once the consumer has been told.
#[derive(Clone, Copy, Debug, PartialEq, Eq, Structural)]
pub enum FollowUp {
    /// Go on with the loop.
    Continue,
    /// Wait up to `timeout_ms` for the next event.
    Receive { timeout_ms: u64 },
    /// Remove the watch, then tell the controller so.
    Unwatch,
    /// The session is over.
    Finished,
}

/// What is left to do after each action.
pub open spec fn follow_up_of(action: ActionView) -> FollowUp {
    match action {
        ActionView::Nothing => FollowUp::Continue,
        ActionView::ReportError { .. } => FollowUp::Finished,
        ActionView::Receive { timeout_ms } => FollowUp::Receive { timeout_ms: timeout_ms as u64 },
        ActionView::Deliver { .. } => FollowUp::Continue,
        ActionView::Stop { .. } => FollowUp::Unwatch,
    }
}

/// Makes the call on the consumer that `action` stands for, and returns what
/// is left for the driver: a reported error ends the session, a batch is
/// handed over, and a stop hands over the final batch, if there is one, before
/// the watch is to be removed. The consumer is never handed an empty batch.
pub fn perform<N: WatchDirectoryNotifier + ?Sized>(action: WatchAction, notifier: &N) -> (then:
    FollowUp)
    ensures
        then == follow_up_of(action@),
{
    match action {
        WatchAction::Nothing => FollowUp::Continue,
        WatchAction::ReportError { error } => {
            notifier.on_error(error.code());
            FollowUp::Finished
        },
        WatchAction::Receive { timeout_ms } => FollowUp::Receive { timeout_ms },
        WatchAction::Deliver { paths } => {
            if paths.len() > 0 {
                notifier.detected_change(paths);
            }
            FollowUp::Continue
        },
        WatchAction::Stop { final_batch } => {
            match final_batch {
                Some(paths) => {
                    if paths.len() > 0 {
                        notifier.detected_change(paths);
                    }
                },
                None => {},
            }
            FollowUp::Unwatch
        },
    }
}

} // verus!
