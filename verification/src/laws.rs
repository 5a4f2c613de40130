//! What holds of the frame driver across whole loop iterations: the
//! frame-rate sample reports exactly the frames counted since the previous
//! sample, stop events end the loop whatever else is queued, and each toggle
//! press flips the window mode exactly once.

use vstd::prelude::*;

use crate::driver::Game;
use crate::driver::SAMPLE_WINDOW_MS;
use crate::driver::apply_event;
use crate::driver::apply_events;
use crate::driver::sample_due;
use crate::driver::spec_render;
use crate::driver::spec_update;
use crate::event::Event;
use crate::event::Key;
use crate::event::has_stop_event;
use crate::event::is_stop_event;
use crate::event::toggle_count;

verus! {

/// The state after `n` frames are rendered in a row.
pub open spec fn apply_renders(g: Game, n: nat) -> Game
    decreases n,
{
    if n == 0 {
        g
    } else {
        spec_render(apply_renders(g, (n - 1) as nat))
    }
}

/// Rendering only counts: `n` frames in a row add exactly `n` to
/// `frame_count` and touch nothing else.
pub proof fn lemma_renders_accumulate(g: Game, n: nat)
    requires
        g.frame_count + n <= u32::MAX,
    ensures
        apply_renders(g, n).frame_count == g.frame_count + n,
        apply_renders(g, n).running == g.running,
        apply_renders(g, n).fullscreen == g.fullscreen,
        apply_renders(g, n).last_frame == g.last_frame,
        apply_renders(g, n).last_time == g.last_time,
        apply_renders(g, n).fps == g.fps,
    decreases n,
{
    if n > 0 {
        lemma_renders_accumulate(g, (n - 1) as nat);
    }
}

/// When a full sample window has passed since the last sample, the update
/// that samples at tick `now` reports as `fps` exactly the frames
/// accumulated since that sample — the count the driver already held plus
/// the `n` frames rendered in between — and restarts the count at zero, with
/// the sample boundary moved to `now`.
pub proof fn lemma_sample_reports_accumulated_frames(g: Game, n: nat, now: u32)
    requires
        g.frame_count + n <= u32::MAX,
        now >= g.last_time + SAMPLE_WINDOW_MS,
    ensures
        spec_update(apply_renders(g, n), now).fps == g.frame_count + n,
        spec_update(apply_renders(g, n), now).frame_count == 0,
        spec_update(apply_renders(g, n), now).last_time == now,
{
    lemma_renders_accumulate(g, n);
}

/// While less than a full sample window has passed since the last sample, an
/// update leaves `fps`, `frame_count` and the sample boundary untouched.
pub proof fn lemma_fps_unchanged_within_window(g: Game, now: u32)
    requires
        now < g.last_time + SAMPLE_WINDOW_MS,
    ensures
        spec_update(g, now).fps == g.fps,
        spec_update(g, now).frame_count == g.frame_count,
        spec_update(g, now).last_time == g.last_time,
{
    assert(!sample_due(g, now));
}

/// The loop keeps running exactly when it was running and no pending event
/// stops it: a stop event anywhere in the queue ends the loop, and without
/// one a running driver keeps running.
pub proof fn lemma_running_exactly_when_no_stop(g: Game, events: Seq<Event>)
    ensures
        apply_events(g, events).running == (g.running && !has_stop_event(events)),
    decreases events.len(),
{
    if events.len() > 0 {
        let prefix = events.drop_last();
        lemma_running_exactly_when_no_stop(g, prefix);
        assert(has_stop_event(events) == (has_stop_event(prefix) || is_stop_event(
            events.last(),
        ))) by {
            if has_stop_event(prefix) {
                let i = choose|i: int| 0 <= i < prefix.len() && is_stop_event(prefix[i]);
                assert(is_stop_event(events[i]));
            }
            if is_stop_event(events.last()) {
                assert(is_stop_event(events[events.len() - 1]));
            }
            if has_stop_event(events) {
                let i = choose|i: int| 0 <= i < events.len() && is_stop_event(events[i]);
                if i < events.len() - 1 {
                    assert(is_stop_event(prefix[i]));
                }
            }
        }
    }
}

/// No event restarts a stopped driver: once `running` is false it stays
/// false through any queue of events.
pub proof fn lemma_stopped_stays_stopped(g: Game, events: Seq<Event>)
    requires
        !g.running,
    ensures
        !apply_events(g, events).running,
{
    lemma_running_exactly_when_no_stop(g, events);
}

/// A quit signal ends the loop regardless of any other pending events.
pub proof fn lemma_quit_stops_regardless(g: Game, events: Seq<Event>, i: int)
    requires
        0 <= i < events.len(),
        events[i] == Event::Quit,
    ensures
        !apply_events(g, events).running,
{
    assert(is_stop_event(events[i]));
    lemma_running_exactly_when_no_stop(g, events);
}

/// An Escape key press ends the loop regardless of any other pending events.
pub proof fn lemma_escape_stops(g: Game, events: Seq<Event>, i: int)
    requires
        0 <= i < events.len(),
        events[i] == Event::KeyDown(Key::Escape),
    ensures
        !apply_events(g, events).running,
{
    assert(is_stop_event(events[i]));
    lemma_running_exactly_when_no_stop(g, events);
}

/// One toggle press flips the window mode exactly once.
pub proof fn lemma_toggle_single_press(g: Game)
    ensures
        apply_event(g, Event::KeyDown(Key::Num9)).fullscreen == !g.fullscreen,
{
}

/// Over a whole queue the window mode flips exactly once per toggle press:
/// it ends flipped exactly when the queue holds an odd number of presses.
pub proof fn lemma_toggle_flips_once_per_press(g: Game, events: Seq<Event>)
    ensures
        apply_events(g, events).fullscreen == (g.fullscreen != (toggle_count(events) % 2 == 1)),
    decreases events.len(),
{
    if events.len() > 0 {
        lemma_toggle_flips_once_per_press(g, events.drop_last());
    }
}

} // verus!
