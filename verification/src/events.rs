//! Input events and the per-frame scan for a close request.

use vstd::prelude::*;

verus! {

/// A platform input event, reduced to what the loop decides on: a
/// window-close request, or any other event, which is observed and ignored.
#[derive(Clone, Copy, Debug, PartialEq, Eq, Structural)]
pub enum Event {
    Quit,
    Other,
}

/// The frame loop's state: still running, or told to stop.
#[derive(Clone, Copy, Debug, PartialEq, Eq, Structural)]
pub enum LoopState {
    Running,
    Terminating,
}

/// Whether some event in the batch is a close request.
pub open spec fn has_quit(events: Seq<Event>) -> bool {
    exists|i: int| 0 <= i < events.len() && events[i] is Quit
}

/// Scan one frame's polled events in order, stopping at the first `Quit`.
/// The loop must terminate exactly when the batch holds a `Quit`; every
/// other event leaves the state unchanged.
pub fn handle_events(events: &Vec<Event>) -> (s: LoopState)
    ensures
        s is Terminating <==> has_quit(events@),
{
    let mut k: usize = 0;
    while k < events.len()
        invariant
            k <= events@.len(),
            forall|i: int| 0 <= i < k ==> !(events@[i] is Quit),
        decreases events@.len() - k,
    {
        match events[k] {
            Event::Quit => {
                assert(events@[k as int] is Quit);
                return LoopState::Terminating;
            },
            Event::Other => {},
        }
        k = k + 1;
    }
    LoopState::Running
}

} // verus!
