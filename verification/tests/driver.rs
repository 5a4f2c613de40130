use frame_driver::driver::Game;
use frame_driver::driver::FRAME_BUDGET_MS;
use frame_driver::driver::SAMPLE_WINDOW_MS;
use frame_driver::event::Event;
use frame_driver::event::Key;

fn state(
    running: bool,
    fullscreen: bool,
    frame_count: u32,
    last_frame: u32,
    last_time: u32,
    fps: u32,
) -> Game {
    Game { running, fullscreen, frame_count, last_frame, last_time, fps }
}

#[test]
fn new_starts_running_with_zero_counters() {
    let g = Game::new();
    assert_eq!(g, state(true, false, 0, 0, 0, 0));
}

#[test]
fn constants_hold_their_documented_values() {
    assert_eq!(FRAME_BUDGET_MS, 16);
    assert_eq!(SAMPLE_WINDOW_MS, 1000);
}

#[test]
fn sample_reports_accumulated_frame_count() {
    let mut g = state(true, false, 42, 900, 0, 7);
    g.update(1000);
    assert_eq!(g, state(true, false, 0, 1000, 1000, 42));
}

#[test]
fn sample_not_due_keeps_fps_and_count() {
    let mut g = state(true, false, 3, 900, 0, 7);
    g.update(999);
    assert_eq!(g, state(true, false, 3, 999, 0, 7));
}

#[test]
fn sample_boundary_is_inclusive() {
    let mut g = state(true, false, 5, 1400, 500, 0);
    g.update(1499);
    assert_eq!(g.fps, 0);
    assert_eq!(g.frame_count, 5);
    g.update(1500);
    assert_eq!(g.fps, 5);
    assert_eq!(g.frame_count, 0);
    assert_eq!(g.last_time, 1500);
}

#[test]
fn quit_stops_despite_other_pending_events() {
    let mut g = Game::new();
    let events = vec![
        Event::Other,
        Event::KeyDown(Key::Other),
        Event::Quit,
        Event::KeyDown(Key::Num9),
    ];
    g.process_event(&events);
    assert!(!g.running);
    assert!(g.fullscreen);
}

#[test]
fn escape_stops_the_loop() {
    let mut g = Game::new();
    let events = vec![Event::KeyDown(Key::Escape)];
    g.process_event(&events);
    assert!(!g.running);
}

#[test]
fn toggle_flips_fullscreen_once_per_press() {
    let mut g = Game::new();
    g.process_event(&vec![Event::KeyDown(Key::Num9)]);
    assert!(g.fullscreen);
    g.process_event(&vec![Event::KeyDown(Key::Num9)]);
    assert!(!g.fullscreen);
    g.process_event(&vec![Event::KeyDown(Key::Num9), Event::KeyDown(Key::Num9)]);
    assert!(!g.fullscreen);
}

#[test]
fn empty_queue_changes_nothing() {
    let mut g = state(true, true, 9, 100, 50, 60);
    g.process_event(&Vec::new());
    assert_eq!(g, state(true, true, 9, 100, 50, 60));
}

#[test]
fn ignored_events_change_nothing() {
    let mut g = Game::new();
    g.process_event(&vec![Event::Other, Event::KeyDown(Key::Other)]);
    assert_eq!(g, Game::new());
}

#[test]
fn stopped_driver_stays_stopped() {
    let mut g = state(false, false, 0, 0, 0, 0);
    g.process_event(&vec![Event::KeyDown(Key::Other), Event::Other]);
    assert!(!g.running);
}

#[test]
fn events_leave_frame_counters_alone() {
    let mut g = state(true, false, 8, 700, 650, 61);
    g.process_event(&vec![Event::Quit, Event::KeyDown(Key::Num9)]);
    assert_eq!(g.frame_count, 8);
    assert_eq!(g.last_frame, 700);
    assert_eq!(g.last_time, 650);
    assert_eq!(g.fps, 61);
}

#[test]
fn render_counts_the_frame_and_reports_budget_left() {
    let mut g = Game::new();
    let delay = g.render(5);
    assert_eq!(delay, 11);
    assert_eq!(g.frame_count, 1);
    assert_eq!(g.last_frame, 0);
}

#[test]
fn render_delay_at_the_budget_edges() {
    let mut g = state(true, false, 0, 100, 0, 0);
    assert_eq!(g.render(100), 16);
    assert_eq!(g.render(115), 1);
    assert_eq!(g.render(116), 0);
    assert_eq!(g.render(500), 0);
    assert_eq!(g.frame_count, 4);
}

#[test]
fn sixty_renders_in_one_second_sample_sixty() {
    let mut g = Game::new();
    let mut tick: u32 = 0;
    for _ in 0..60 {
        g.render(tick);
        tick += 16;
    }
    assert_eq!(g.frame_count, 60);
    g.update(1000);
    assert_eq!(g.fps, 60);
    assert_eq!(g.frame_count, 0);
    assert_eq!(g.last_time, 1000);
}

#[test]
fn full_loop_iterations_sample_the_rendered_frames() {
    // Ticks advance 16ms per iteration. The first sample falls on the first
    // tick at or past 1000 (tick 1008, after 63 renders), the second a full
    // window later (tick 2016, again after 63 renders).
    let mut g = Game::new();
    let mut tick: u32 = 0;
    let mut samples: Vec<u32> = Vec::new();
    let mut last_sample_seen: u32 = 0;
    while tick <= 2016 {
        g.update(tick);
        if g.last_time != last_sample_seen {
            samples.push(g.fps);
            last_sample_seen = g.last_time;
        }
        g.process_event(&Vec::new());
        g.render(tick);
        tick += 16;
    }
    assert_eq!(samples, vec![63, 63]);
}
