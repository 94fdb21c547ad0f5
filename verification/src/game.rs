//! The frame loop: one counter increment, one clear color, one event scan
//! per frame, running until a frame's events hold a close request.

use vstd::prelude::*;
use crate::color::{counter_after, lemma_counter_after_front, next_counter, spec_next_counter};
use crate::events::{handle_events, has_quit, Event, LoopState};
use crate::init::{run_init, GameError, InitOutcomes};

verus! {

/// The frame counter's value when the loop starts.
pub const INITIAL_COUNTER: u8 = 155;

/// The event batches of a schedule, one per frame, as sequences.
pub open spec fn views_of(frames: Seq<Vec<Event>>) -> Seq<Seq<Event>> {
    frames.map_values(|v: Vec<Event>| v@)
}

/// What a run of the frame loop amounts to, from counter `c` over a
/// schedule of per-frame event batches: the final counter, how many frames
/// ran, and the state the loop stopped in. Every frame first advances the
/// counter; the first frame whose batch holds a `Quit` finishes and is the
/// last one run; a schedule that runs out leaves the loop still running.
pub open spec fn spec_run(c: u8, frames: Seq<Seq<Event>>) -> (u8, int, LoopState)
    decreases frames.len(),
{
    if frames.len() == 0 {
        (c, 0, LoopState::Running)
    } else {
        let c1 = spec_next_counter(c);
        if has_quit(frames[0]) {
            (c1, 1, LoopState::Terminating)
        } else {
            let rest = spec_run(c1, frames.skip(1));
            (rest.0, rest.1 + 1, rest.2)
        }
    }
}

/// Run the frame loop from counter `c`, frame by frame: advance the
/// counter, scan that frame's events, and stop after the first frame whose
/// batch holds a `Quit`. Returns the final counter, the number of frames
/// run, and the state the loop stopped in.
pub fn game_loop(c: u8, frames: &Vec<Vec<Event>>) -> (r: (u8, usize, LoopState))
    ensures
        r.0 == spec_run(c, views_of(frames@)).0,
        r.1 as int == spec_run(c, views_of(frames@)).1,
        r.2 == spec_run(c, views_of(frames@)).2,
{
    let ghost views = views_of(frames@);
    proof {
        assert(views.skip(0) =~= views);
    }
    let mut cur: u8 = c;
    let mut k: usize = 0;
    while k < frames.len()
        invariant
            k <= frames@.len(),
            views == views_of(frames@),
            views.len() == frames@.len(),
            spec_run(c, views).0 == spec_run(cur, views.skip(k as int)).0,
            spec_run(c, views).1 == spec_run(cur, views.skip(k as int)).1 + k,
            spec_run(c, views).2 == spec_run(cur, views.skip(k as int)).2,
        decreases frames@.len() - k,
    {
        let c1 = next_counter(cur);
        let state = handle_events(&frames[k]);
        proof {
            assert(views.skip(k as int)[0] == views[k as int]);
            assert(views[k as int] == frames@[k as int]@);
            assert(views.skip(k as int).skip(1) =~= views.skip(k as int + 1));
        }
        if state == LoopState::Terminating {
            return (c1, k + 1, LoopState::Terminating);
        }
        cur = c1;
        k = k + 1;
    }
    proof {
        assert(views.skip(k as int) =~= Seq::<Seq<Event>>::empty());
    }
    (cur, k, LoopState::Running)
}

/// A `Quit` in some frame's batch stops the loop: with the first such batch
/// at frame `k`, the run ends Terminating after exactly `k + 1` frames, so
/// no later frame ever runs.
pub proof fn lemma_quit_terminates(c: u8, frames: Seq<Seq<Event>>, k: int)
    requires
        0 <= k < frames.len(),
        has_quit(frames[k]),
        forall|j: int| 0 <= j < k ==> !has_quit(frames[j]),
    ensures
        spec_run(c, frames).2 is Terminating,
        spec_run(c, frames).1 == k + 1,
    decreases k,
{
    if k > 0 {
        assert(!has_quit(frames[0]));
        assert(frames.skip(1)[k - 1] == frames[k]);
        assert(forall|j: int| 0 <= j < k - 1 ==> frames.skip(1)[j] == frames[j + 1]);
        lemma_quit_terminates(spec_next_counter(c), frames.skip(1), k - 1);
    }
}

/// A batch without a `Quit` leaves the loop running: with no `Quit`
/// anywhere in the schedule, every frame runs, the loop never stops, and
/// the counter advances once per frame.
pub proof fn lemma_no_quit_keeps_running(c: u8, frames: Seq<Seq<Event>>)
    requires
        forall|j: int| 0 <= j < frames.len() ==> !has_quit(frames[j]),
    ensures
        spec_run(c, frames).2 is Running,
        spec_run(c, frames).1 == frames.len(),
        spec_run(c, frames).0 == counter_after(c, frames.len()),
    decreases frames.len(),
{
    if frames.len() > 0 {
        assert(forall|j: int| 0 <= j < frames.skip(1).len() ==> frames.skip(1)[j] == frames[j
            + 1]);
        lemma_no_quit_keeps_running(spec_next_counter(c), frames.skip(1));
        lemma_counter_after_front(c, frames.len() as nat);
    }
}

/// The loop stops exactly when some frame's batch holds a `Quit`: no `Quit`
/// anywhere means it runs the whole schedule, and any `Quit` means it stops.
pub proof fn lemma_terminates_iff_quit(c: u8, frames: Seq<Seq<Event>>)
    ensures
        spec_run(c, frames).2 is Terminating <==> exists|k: int|
            0 <= k < frames.len() && has_quit(frames[k]),
    decreases frames.len(),
{
    if frames.len() == 0 {
    } else if has_quit(frames[0]) {
        assert(0 <= 0 < frames.len() && has_quit(frames[0]));
    } else {
        lemma_terminates_iff_quit(spec_next_counter(c), frames.skip(1));
        if spec_run(c, frames).2 is Terminating {
            let k = choose|k: int| 0 <= k < frames.skip(1).len() && has_quit(frames.skip(1)[k]);
            assert(frames.skip(1)[k] == frames[k + 1]);
            assert(0 <= k + 1 < frames.len() && has_quit(frames[k + 1]));
        }
        if exists|k: int| 0 <= k < frames.len() && has_quit(frames[k]) {
            let k = choose|k: int| 0 <= k < frames.len() && has_quit(frames[k]);
            assert(k != 0);
            assert(frames.skip(1)[k - 1] == frames[k]);
            assert(0 <= k - 1 < frames.skip(1).len() && has_quit(frames.skip(1)[k - 1]));
        }
    }
}

/// The whole program's decisions in one call: run the initialization
/// sequence in its fixed order and, only when every step succeeded, run the
/// frame loop from the initial counter over the given schedule. The first
/// failed step's error is the result, and no later step is attempted.
pub fn game_main(outcomes: &InitOutcomes, frames: &Vec<Vec<Event>>) -> (r: Result<
    (u8, usize, LoopState),
    GameError,
>)
    ensures
        r is Ok <==> outcomes.platform_ok && outcomes.window_ok && outcomes.canvas_ok
            && outcomes.event_pump_ok,
        r matches Ok(run) ==> ({
            let m = spec_run(INITIAL_COUNTER, views_of(frames@));
            run.0 == m.0 && run.1 as int == m.1 && run.2 == m.2
        }),
        !outcomes.platform_ok ==> (r matches Err(e) && e == GameError::SdlInitialization),
        outcomes.platform_ok && !outcomes.window_ok ==> (r matches Err(e) && e
            == GameError::WindowCreation),
        outcomes.platform_ok && outcomes.window_ok && !outcomes.canvas_ok ==> (r matches Err(e)
            && e == GameError::CanvasCreation),
        outcomes.platform_ok && outcomes.window_ok && outcomes.canvas_ok
            && !outcomes.event_pump_ok ==> (r matches Err(e) && e
            == GameError::EventPumpInitialization),
{
    proof {
        crate::init::lemma_init_order(*outcomes);
    }
    match run_init(outcomes) {
        Result::Ok(_) => Ok(game_loop(INITIAL_COUNTER, frames)),
        Result::Err(e) => Err(e),
    }
}

} // verus!
