//! The fixed initialization sequence: platform, then window, then canvas,
//! then event queue, each step attempted only after every earlier one
//! succeeded, and the first failure ending the sequence with its own error.

use vstd::prelude::*;

verus! {

/// Why the program stopped during initialization. The four kinds are
/// mutually exclusive: the first step to fail short-circuits the rest.
#[derive(Clone, Copy, Debug, PartialEq, Eq, Structural)]
pub enum GameError {
    SdlInitialization,
    WindowCreation,
    CanvasCreation,
    EventPumpInitialization,
}

/// One external construction step of the startup sequence.
#[derive(Clone, Copy, Debug, PartialEq, Eq, Structural)]
pub enum InitStep {
    Platform,
    Window,
    Canvas,
    EventPump,
}

/// How far initialization has progressed: which step must come next, or
/// `Ready` once every step has succeeded.
#[derive(Clone, Copy, Debug, PartialEq, Eq, Structural)]
pub enum InitState {
    NeedPlatform,
    NeedWindow,
    NeedCanvas,
    NeedEventPump,
    Ready,
}

/// How many steps remain from a given state.
pub open spec fn init_rank(s: InitState) -> nat {
    match s {
        InitState::NeedPlatform => 4,
        InitState::NeedWindow => 3,
        InitState::NeedCanvas => 2,
        InitState::NeedEventPump => 1,
        InitState::Ready => 0,
    }
}

/// The step a state calls for, or `None` once initialization is complete.
pub open spec fn spec_step_of(s: InitState) -> Option<InitStep> {
    match s {
        InitState::NeedPlatform => Some(InitStep::Platform),
        InitState::NeedWindow => Some(InitStep::Window),
        InitState::NeedCanvas => Some(InitStep::Canvas),
        InitState::NeedEventPump => Some(InitStep::EventPump),
        InitState::Ready => None,
    }
}

/// Tell the caller which construction step to attempt next, if any.
pub fn next_init_step(s: InitState) -> (r: Option<InitStep>)
    ensures
        r == spec_step_of(s),
{
    match s {
        InitState::NeedPlatform => Some(InitStep::Platform),
        InitState::NeedWindow => Some(InitStep::Window),
        InitState::NeedCanvas => Some(InitStep::Canvas),
        InitState::NeedEventPump => Some(InitStep::EventPump),
        InitState::Ready => None,
    }
}

/// The error a step signals when it fails.
pub open spec fn spec_step_error(step: InitStep) -> GameError {
    match step {
        InitStep::Platform => GameError::SdlInitialization,
        InitStep::Window => GameError::WindowCreation,
        InitStep::Canvas => GameError::CanvasCreation,
        InitStep::EventPump => GameError::EventPumpInitialization,
    }
}

/// What follows the attempted step of state `s`: the next state when it
/// succeeded, that step's own error when it failed, and `Ready` staying put.
pub open spec fn spec_advance(s: InitState, succeeded: bool) -> Result<InitState, GameError> {
    match spec_step_of(s) {
        Option::None => Ok(InitState::Ready),
        Option::Some(step) => {
            if succeeded {
                Ok(spec_next_state(s))
            } else {
                Err(spec_step_error(step))
            }
        },
    }
}

/// The state that follows a successful step.
pub open spec fn spec_next_state(s: InitState) -> InitState {
    match s {
        InitState::NeedPlatform => InitState::NeedWindow,
        InitState::NeedWindow => InitState::NeedCanvas,
        InitState::NeedCanvas => InitState::NeedEventPump,
        InitState::NeedEventPump => InitState::Ready,
        InitState::Ready => InitState::Ready,
    }
}

/// Record the outcome of the step that state `s` called for: move to the
/// next state on success, or report that step's error on failure.
pub fn init_advance(s: InitState, succeeded: bool) -> (r: Result<InitState, GameError>)
    ensures
        r == spec_advance(s, succeeded),
{
    match s {
        InitState::NeedPlatform => {
            if succeeded {
                Ok(InitState::NeedWindow)
            } else {
                Err(GameError::SdlInitialization)
            }
        },
        InitState::NeedWindow => {
            if succeeded {
                Ok(InitState::NeedCanvas)
            } else {
                Err(GameError::WindowCreation)
            }
        },
        InitState::NeedCanvas => {
            if succeeded {
                Ok(InitState::NeedEventPump)
            } else {
                Err(GameError::CanvasCreation)
            }
        },
        InitState::NeedEventPump => {
            if succeeded {
                Ok(InitState::Ready)
            } else {
                Err(GameError::EventPumpInitialization)
            }
        },
        InitState::Ready => Ok(InitState::Ready),
    }
}

/// The outcome each external construction step would have, were it attempted.
#[derive(Clone, Copy, Debug, PartialEq, Eq, Structural)]
pub struct InitOutcomes {
    pub platform_ok: bool,
    pub window_ok: bool,
    pub canvas_ok: bool,
    pub event_pump_ok: bool,
}

/// The outcome `o` assigns to one step.
pub open spec fn spec_outcome_of(step: InitStep, o: InitOutcomes) -> bool {
    match step {
        InitStep::Platform => o.platform_ok,
        InitStep::Window => o.window_ok,
        InitStep::Canvas => o.canvas_ok,
        InitStep::EventPump => o.event_pump_ok,
    }
}

/// Running initialization from state `s` when each attempted step has the
/// outcome `o` gives it: the steps attempted, in order, and the result.
pub open spec fn spec_init_run(s: InitState, o: InitOutcomes) -> (Seq<InitStep>, Result<
    InitState,
    GameError,
>)
    decreases init_rank(s),
{
    match spec_step_of(s) {
        Option::None => (Seq::empty(), Ok(s)),
        Option::Some(step) => {
            match spec_advance(s, spec_outcome_of(step, o)) {
                Result::Err(e) => (seq![step], Err(e)),
                Result::Ok(s2) => {
                    let rest = spec_init_run(s2, o);
                    (seq![step] + rest.0, rest.1)
                },
            }
        },
    }
}

/// Drive the initialization state machine from the start: attempt each step
/// in order, stop at the first failure with that step's error, and reach
/// `Ready` only when all four steps succeeded.
pub fn run_init(o: &InitOutcomes) -> (r: Result<InitState, GameError>)
    ensures
        r == spec_init_run(InitState::NeedPlatform, *o).1,
{
    let mut s = InitState::NeedPlatform;
    loop
        invariant
            spec_init_run(InitState::NeedPlatform, *o).1 == spec_init_run(s, *o).1,
        decreases init_rank(s),
    {
        let step = match next_init_step(s) {
            Option::None => {
                return Ok(s);
            },
            Option::Some(step) => step,
        };
        let succeeded = match step {
            InitStep::Platform => o.platform_ok,
            InitStep::Window => o.window_ok,
            InitStep::Canvas => o.canvas_ok,
            InitStep::EventPump => o.event_pump_ok,
        };
        match init_advance(s, succeeded) {
            Result::Ok(s2) => {
                s = s2;
            },
            Result::Err(e) => {
                return Err(e);
            },
        }
    }
}

/// Construction order: the platform step always comes first, and a window,
/// canvas or event-queue step is attempted only after every earlier step
/// succeeded. In particular, a platform failure prevents all other steps
/// from being attempted at all and is the result by itself; in general the
/// trace is the exact prefix of the fixed order that ends at the first
/// failing step, whose error is the result.
pub proof fn lemma_init_order(o: InitOutcomes)
    ensures
        spec_init_run(InitState::NeedPlatform, o).0.len() > 0,
        spec_init_run(InitState::NeedPlatform, o).0[0] == InitStep::Platform,
        spec_init_run(InitState::NeedPlatform, o).0.contains(InitStep::Window) ==> o.platform_ok,
        spec_init_run(InitState::NeedPlatform, o).0.contains(InitStep::Canvas) ==> o.platform_ok
            && o.window_ok,
        spec_init_run(InitState::NeedPlatform, o).0.contains(InitStep::EventPump)
            ==> o.platform_ok && o.window_ok && o.canvas_ok,
        !o.platform_ok ==> spec_init_run(InitState::NeedPlatform, o) == (
        seq![InitStep::Platform],
        Err::<InitState, GameError>(GameError::SdlInitialization),
        ),
        o.platform_ok && !o.window_ok ==> spec_init_run(InitState::NeedPlatform, o) == (
        seq![InitStep::Platform, InitStep::Window],
        Err::<InitState, GameError>(GameError::WindowCreation),
        ),
        o.platform_ok && o.window_ok && !o.canvas_ok ==> spec_init_run(
            InitState::NeedPlatform,
            o,
        ) == (
        seq![InitStep::Platform, InitStep::Window, InitStep::Canvas],
        Err::<InitState, GameError>(GameError::CanvasCreation),
        ),
        o.platform_ok && o.window_ok && o.canvas_ok && !o.event_pump_ok ==> spec_init_run(
            InitState::NeedPlatform,
            o,
        ) == (
        seq![InitStep::Platform, InitStep::Window, InitStep::Canvas, InitStep::EventPump],
        Err::<InitState, GameError>(GameError::EventPumpInitialization),
        ),
        o.platform_ok && o.window_ok && o.canvas_ok && o.event_pump_ok ==> spec_init_run(
            InitState::NeedPlatform,
            o,
        ) == (
        seq![InitStep::Platform, InitStep::Window, InitStep::Canvas, InitStep::EventPump],
        Ok::<InitState, GameError>(InitState::Ready),
        ),
{
    reveal_with_fuel(spec_init_run, 5);
    let full = spec_init_run(InitState::NeedPlatform, o);
    if !o.platform_ok {
        assert(full.0 =~= seq![InitStep::Platform]);
    } else if !o.window_ok {
        assert(full.0 =~= seq![InitStep::Platform, InitStep::Window]);
    } else if !o.canvas_ok {
        assert(full.0 =~= seq![InitStep::Platform, InitStep::Window, InitStep::Canvas]);
    } else {
        assert(full.0 =~= seq![
            InitStep::Platform,
            InitStep::Window,
            InitStep::Canvas,
            InitStep::EventPump,
        ]);
    }
}

} // verus!
