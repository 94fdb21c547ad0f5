use color_cycle::color::{clear_color, next_counter, Color};
use color_cycle::events::{handle_events, Event, LoopState};
use color_cycle::game::{game_loop, game_main, INITIAL_COUNTER};
use color_cycle::init::{
    init_advance, next_init_step, run_init, GameError, InitOutcomes, InitState, InitStep,
};

fn all_ok() -> InitOutcomes {
    InitOutcomes {
        platform_ok: true,
        window_ok: true,
        canvas_ok: true,
        event_pump_ok: true,
    }
}

#[test]
fn counter_increments() {
    assert_eq!(next_counter(0), 1);
    assert_eq!(next_counter(155), 156);
    assert_eq!(next_counter(254), 255);
}

#[test]
fn counter_wraps_to_zero() {
    assert_eq!(next_counter(255), 0);
}

#[test]
fn counter_returns_after_256_increments() {
    let starts: [u8; 5] = [0, 1, 155, 254, 255];
    for i in 0..starts.len() {
        let start: u8 = starts[i];
        let mut c: u8 = start;
        for _ in 0..256u32 {
            c = next_counter(c);
        }
        assert_eq!(c, start);
    }
}

#[test]
fn color_examples() {
    assert_eq!(clear_color(155), Color { r: 155, g: 64, b: 100 });
    assert_eq!(clear_color(255), Color { r: 255, g: 64, b: 0 });
    assert_eq!(clear_color(0), Color { r: 0, g: 64, b: 255 });
}

#[test]
fn color_for_every_counter_value() {
    for v in 0..256u32 {
        let c: u8 = v as u8;
        let col = clear_color(c);
        assert_eq!(col.r, c);
        assert_eq!(col.g, 64);
        assert_eq!(col.b, 255 - c);
    }
}

#[test]
fn no_events_keep_running() {
    assert_eq!(handle_events(&vec![]), LoopState::Running);
}

#[test]
fn other_events_keep_running() {
    assert_eq!(handle_events(&vec![Event::Other, Event::Other]), LoopState::Running);
}

#[test]
fn quit_event_terminates() {
    assert_eq!(handle_events(&vec![Event::Quit]), LoopState::Terminating);
    assert_eq!(
        handle_events(&vec![Event::Other, Event::Quit, Event::Other]),
        LoopState::Terminating
    );
}

#[test]
fn empty_schedule_leaves_loop_running() {
    let frames: Vec<Vec<Event>> = vec![];
    assert_eq!(game_loop(42, &frames), (42, 0, LoopState::Running));
}

#[test]
fn quit_on_first_frame_runs_exactly_one_frame() {
    let frames: Vec<Vec<Event>> = vec![vec![Event::Quit]];
    assert_eq!(game_loop(255, &frames), (0, 1, LoopState::Terminating));
}

#[test]
fn loop_runs_all_quiet_frames() {
    let frames: Vec<Vec<Event>> = vec![vec![]; 10];
    assert_eq!(game_loop(155, &frames), (165, 10, LoopState::Running));
}

#[test]
fn loop_counter_wraps_during_run() {
    let frames: Vec<Vec<Event>> = vec![vec![]; 10];
    assert_eq!(game_loop(250, &frames), (4, 10, LoopState::Running));
}

#[test]
fn loop_stops_at_first_quit_frame() {
    let frames: Vec<Vec<Event>> = vec![
        vec![],
        vec![Event::Other],
        vec![Event::Other, Event::Quit],
        vec![],
        vec![Event::Quit],
    ];
    assert_eq!(game_loop(155, &frames), (158, 3, LoopState::Terminating));
}

#[test]
fn end_to_end_scenario() {
    let quiet: Vec<Vec<Event>> = vec![vec![]; 10];
    assert_eq!(game_loop(INITIAL_COUNTER, &quiet), (165, 10, LoopState::Running));

    let mut with_quit: Vec<Vec<Event>> = vec![vec![]; 10];
    with_quit.push(vec![Event::Quit]);
    assert_eq!(game_loop(INITIAL_COUNTER, &with_quit), (166, 11, LoopState::Terminating));
}

#[test]
fn init_steps_come_in_order() {
    assert_eq!(next_init_step(InitState::NeedPlatform), Some(InitStep::Platform));
    assert_eq!(next_init_step(InitState::NeedWindow), Some(InitStep::Window));
    assert_eq!(next_init_step(InitState::NeedCanvas), Some(InitStep::Canvas));
    assert_eq!(next_init_step(InitState::NeedEventPump), Some(InitStep::EventPump));
    assert_eq!(next_init_step(InitState::Ready), None);
}

#[test]
fn init_advances_on_success() {
    assert_eq!(init_advance(InitState::NeedPlatform, true), Ok(InitState::NeedWindow));
    assert_eq!(init_advance(InitState::NeedWindow, true), Ok(InitState::NeedCanvas));
    assert_eq!(init_advance(InitState::NeedCanvas, true), Ok(InitState::NeedEventPump));
    assert_eq!(init_advance(InitState::NeedEventPump, true), Ok(InitState::Ready));
}

#[test]
fn platform_failure_prevents_everything_else() {
    let outcomes = InitOutcomes {
        platform_ok: false,
        window_ok: true,
        canvas_ok: true,
        event_pump_ok: true,
    };
    assert_eq!(run_init(&outcomes), Err(GameError::SdlInitialization));
    let frames: Vec<Vec<Event>> = vec![vec![]];
    assert_eq!(game_main(&outcomes, &frames), Err(GameError::SdlInitialization));
}

#[test]
fn window_failure_reports_window_error() {
    let mut outcomes = all_ok();
    outcomes.window_ok = false;
    let frames: Vec<Vec<Event>> = vec![vec![]];
    assert_eq!(game_main(&outcomes, &frames), Err(GameError::WindowCreation));
}

#[test]
fn canvas_failure_reports_canvas_error() {
    let mut outcomes = all_ok();
    outcomes.canvas_ok = false;
    let frames: Vec<Vec<Event>> = vec![vec![]];
    assert_eq!(game_main(&outcomes, &frames), Err(GameError::CanvasCreation));
}

#[test]
fn event_pump_failure_reports_event_pump_error() {
    let mut outcomes = all_ok();
    outcomes.event_pump_ok = false;
    let frames: Vec<Vec<Event>> = vec![vec![]];
    assert_eq!(game_main(&outcomes, &frames), Err(GameError::EventPumpInitialization));
}

#[test]
fn successful_init_runs_the_loop() {
    let frames: Vec<Vec<Event>> = vec![vec![Event::Other], vec![Event::Quit]];
    assert_eq!(game_main(&all_ok(), &frames), Ok((157, 2, LoopState::Terminating)));
}

#[test]
fn successful_init_with_quiet_frames_keeps_running() {
    let frames: Vec<Vec<Event>> = vec![vec![]; 3];
    assert_eq!(game_main(&all_ok(), &frames), Ok((158, 3, LoopState::Running)));
}
