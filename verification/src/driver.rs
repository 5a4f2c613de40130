//! The frame driver: the single component that owns the run-state and the
//! frame-timing counters.
//!
//! Each loop iteration the surrounding program reads the millisecond tick
//! counter and polls the pending events, then calls `update`, `process_event`
//! and `render` with those plain values. The driver never performs I/O
//! itself; its whole behaviour is the state transition stated in each
//! method's contract.

use vstd::prelude::*;

use crate::event::Event;
use crate::event::Key;

verus! {

/// Milliseconds each frame is budgeted: a fixed 60-frames-per-second pace.
pub const FRAME_BUDGET_MS: u32 = 1000 / 60;

/// Milliseconds between two frames-per-second samples.
pub const SAMPLE_WINDOW_MS: u32 = 1000;

/// The frame driver's state.
///
/// `fps` is recomputed once per sample window of at least
/// `SAMPLE_WINDOW_MS` milliseconds, never more often, and `frame_count`
/// restarts at zero immediately after each sample.
#[derive(Clone, Copy, Debug, PartialEq, Eq, Structural)]
pub struct Game {
    /// The loop continues while this is true.
    pub running: bool,
    /// The desired window mode, toggled by input.
    pub fullscreen: bool,
    /// Frames rendered since the last sample.
    pub frame_count: u32,
    /// Tick value at the last frame boundary.
    pub last_frame: u32,
    /// Tick value at the last sample boundary.
    pub last_time: u32,
    /// Frames per second computed at the last sample.
    pub fps: u32,
}

/// The state the driver starts in: running, windowed, all counters zero.
pub open spec fn initial_game() -> Game {
    Game {
        running: true,
        fullscreen: false,
        frame_count: 0,
        last_frame: 0,
        last_time: 0,
        fps: 0,
    }
}

/// Whether a sample is due at tick `now`: at least a full sample window has
/// passed since the last sample boundary.
pub open spec fn sample_due(g: Game, now: u32) -> bool {
    now >= g.last_time + SAMPLE_WINDOW_MS
}

/// What `update` does at tick `now`: record the frame boundary and, when a
/// sample is due, publish the accumulated frame count as `fps`, restart the
/// count at zero and move the sample boundary to `now`.
pub open spec fn spec_update(g: Game, now: u32) -> Game {
    if sample_due(g, now) {
        Game { last_frame: now, last_time: now, fps: g.frame_count, frame_count: 0, ..g }
    } else {
        Game { last_frame: now, ..g }
    }
}

/// What one event does to the driver: a quit signal or an Escape press ends
/// the loop, a "9" press toggles fullscreen, anything else is ignored. No
/// event touches the frame-timing counters.
pub open spec fn apply_event(g: Game, e: Event) -> Game {
    match e {
        Event::Quit => Game { running: false, ..g },
        Event::KeyDown(Key::Escape) => Game { running: false, ..g },
        Event::KeyDown(Key::Num9) => Game { fullscreen: !g.fullscreen, ..g },
        _ => g,
    }
}

/// What draining a whole queue of pending events does: each event is applied
/// in order.
pub open spec fn apply_events(g: Game, events: Seq<Event>) -> Game
    decreases events.len(),
{
    if events.len() == 0 {
        g
    } else {
        apply_event(apply_events(g, events.drop_last()), events.last())
    }
}

/// The pacing delay `render` asks for at tick `now`: whatever is left of the
/// frame budget since the last frame boundary, or nothing once the budget is
/// spent.
pub open spec fn spec_frame_delay(g: Game, now: u32) -> u32 {
    if now - g.last_frame < FRAME_BUDGET_MS {
        (FRAME_BUDGET_MS - (now - g.last_frame)) as u32
    } else {
        0
    }
}

/// What `render` does to the state: one more frame is counted; nothing else
/// changes.
pub open spec fn spec_render(g: Game) -> Game {
    Game { frame_count: (g.frame_count + 1) as u32, ..g }
}

impl Game {
    /// Creates the driver in its start state.
    pub fn new() -> (g: Game)
        ensures
            g == initial_game(),
    {
        Game {
            running: true,
            fullscreen: false,
            frame_count: 0,
            last_frame: 0,
            last_time: 0,
            fps: 0,
        }
    }

    /// Marks the frame boundary at tick `now` and samples the frame rate
    /// once a full sample window has elapsed.
    pub fn update(&mut self, now: u32)
        ensures
            *final(self) == spec_update(*old(self), now),
    {
        self.last_frame = now;
        if self.last_time <= now && now - self.last_time >= SAMPLE_WINDOW_MS {
            self.last_time = now;
            self.fps = self.frame_count;
            self.frame_count = 0;
        }
    }

    /// Drains the queue of pending events, applying each in order: quit and
    /// Escape end the loop, each "9" press toggles fullscreen.
    pub fn process_event(&mut self, events: &Vec<Event>)
        ensures
            *final(self) == apply_events(*old(self), events@),
    {
        let n: usize = events.len();
        let mut i: usize = 0;
        while i < n
            invariant
                i <= n,
                n == events@.len(),
                *self == apply_events(*old(self), events@.subrange(0, i as int)),
            decreases n - i,
        {
            match events[i] {
                Event::Quit => {
                    self.running = false;
                },
                Event::KeyDown(Key::Escape) => {
                    self.running = false;
                },
                Event::KeyDown(Key::Num9) => {
                    self.fullscreen = !self.fullscreen;
                },
                _ => {},
            }
            i = i + 1;
            proof {
                let pre = events@.subrange(0, (i - 1) as int);
                assert(events@.subrange(0, i as int) =~= pre.push(events@[(i - 1) as int]));
                assert(pre.push(events@[(i - 1) as int]).drop_last() =~= pre);
            }
        }
        proof {
            assert(events@.subrange(0, n as int) =~= events@);
        }
    }

    /// Counts the frame just produced and reports how many milliseconds of
    /// the frame budget are left at tick `now`: the caller sleeps that long
    /// to hold the fixed frame pace.
    pub fn render(&mut self, now: u32) -> (delay_ms: u32)
        requires
            old(self).frame_count < u32::MAX,
            now >= old(self).last_frame,
        ensures
            *final(self) == spec_render(*old(self)),
            delay_ms == spec_frame_delay(*old(self), now),
    {
        self.frame_count = self.frame_count + 1;
        let elapsed: u32 = now - self.last_frame;
        if elapsed < FRAME_BUDGET_MS {
            FRAME_BUDGET_MS - elapsed
        } else {
            0
        }
    }
}

} // verus!
