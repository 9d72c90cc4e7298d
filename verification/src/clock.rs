//! Frame pacing of the render loop, in nanoseconds since the loop started.
use vstd::prelude::*;

verus! {

pub const NANOS_PER_SECOND: u64 = 1_000_000_000;

/// The frame interval for `fps` frames per second.
pub open spec fn frame_interval(fps: u32) -> u64 {
    (NANOS_PER_SECOND / (fps as u64)) as u64
}

/// `a - b`, or 0 when `b` is later (as `Instant::duration_since` gives it).
pub open spec fn since(a: u64, b: u64) -> u64 {
    if a >= b {
        (a - b) as u64
    } else {
        0
    }
}

/// The clock's times as values.
pub struct ClockView {
    pub last_tick: u64,
    pub last_cpu_poll: u64,
    pub log_timer: u64,
}

/// What the render loop does in one pass.
#[derive(Clone, Copy, PartialEq, Eq, Debug, Structural)]
pub struct FrameAction {
    /// Draw a frame.
    pub render: bool,
    /// The time step of the frame drawn, in nanoseconds.
    pub frame_nanos: u64,
    /// Measure the CPU load and check the monitors (once a second).
    pub poll_cpu: bool,
    /// Log frame statistics (every five seconds).
    pub log_stats: bool,
    /// Milliseconds to sleep when no frame is due; 0 means spin.
    pub sleep_ms: u64,
}

/// One pass of the render loop at time `now`: after a stall of more than
/// three frames the clock skips to one frame before `now`; a frame is drawn
/// when one interval has passed since the last, and the clock advances by
/// exactly one interval; otherwise the loop sleeps until two milliseconds
/// before the next frame, or spins when less than four milliseconds remain.
pub open spec fn frame_step(c: ClockView, now: u64, fps: u32) -> (ClockView, FrameAction) {
    let t = frame_interval(fps);
    let last = if since(now, c.last_tick) > 3 * t {
        (now - t) as u64
    } else {
        c.last_tick
    };
    let elapsed = since(now, last);
    if elapsed >= t {
        let poll = since(now, c.last_cpu_poll) >= NANOS_PER_SECOND;
        let log = since(now, c.log_timer) >= 5 * NANOS_PER_SECOND;
        (
            ClockView {
                last_tick: (last + t) as u64,
                last_cpu_poll: if poll { now } else { c.last_cpu_poll },
                log_timer: if log { now } else { c.log_timer },
            },
            FrameAction { render: true, frame_nanos: t, poll_cpu: poll, log_stats: log, sleep_ms: 0 },
        )
    } else {
        let remaining_ms = ((t - elapsed) / 1_000_000) as u64;
        (
            ClockView { last_tick: last, ..c },
            FrameAction {
                render: false,
                frame_nanos: t,
                poll_cpu: false,
                log_stats: false,
                sleep_ms: if remaining_ms > 3 { (remaining_ms - 2) as u64 } else { 0 },
            },
        )
    }
}

/// The render loop's clock.
pub struct FrameClock {
    last_tick: u64,
    last_cpu_poll: u64,
    log_timer: u64,
}

impl View for FrameClock {
    type V = ClockView;

    closed spec fn view(&self) -> ClockView {
        ClockView {
            last_tick: self.last_tick,
            last_cpu_poll: self.last_cpu_poll,
            log_timer: self.log_timer,
        }
    }
}

impl FrameClock {
    /// A clock whose ticks, CPU poll and statistics all start at `now`.
    pub fn new(now: u64) -> (c: Self)
        ensures
            c@ == (ClockView { last_tick: now, last_cpu_poll: now, log_timer: now }),
    {
        FrameClock { last_tick: now, last_cpu_poll: now, log_timer: now }
    }

    /// One pass of the render loop at time `now` with `fps` frames per
    /// second.
    pub fn step(&mut self, now: u64, fps: u32) -> (a: FrameAction)
        requires
            fps > 0,
        ensures
            (final(self)@, a) == frame_step(old(self)@, now, fps),
    {
        let t = NANOS_PER_SECOND / (fps as u64);
        let mut last = self.last_tick;
        let stalled = if now >= last {
            now - last
        } else {
            0
        };
        if stalled > 3 * t {
            last = now - t;
        }
        let elapsed = if now >= last {
            now - last
        } else {
            0
        };
        if elapsed >= t {
            let poll = (if now >= self.last_cpu_poll {
                now - self.last_cpu_poll
            } else {
                0
            }) >= NANOS_PER_SECOND;
            let log = (if now >= self.log_timer {
                now - self.log_timer
            } else {
                0
            }) >= 5 * NANOS_PER_SECOND;
            self.last_tick = last + t;
            if poll {
                self.last_cpu_poll = now;
            }
            if log {
                self.log_timer = now;
            }
            FrameAction { render: true, frame_nanos: t, poll_cpu: poll, log_stats: log, sleep_ms: 0 }
        } else {
            self.last_tick = last;
            let remaining_ms = (t - elapsed) / 1_000_000;
            FrameAction {
                render: false,
                frame_nanos: t,
                poll_cpu: false,
                log_stats: false,
                sleep_ms: if remaining_ms > 3 {
                    remaining_ms - 2
                } else {
                    0
                },
            }
        }
    }
}

/// Law: a frame is drawn only when a full interval has passed since the
/// last one (after a stall, since one interval before now), the clock then
/// advances by exactly one interval and never passes `now`; after a stall of
/// more than three intervals the missed frames are dropped and the clock
/// lands on `now`. The CPU is measured at most once a second, and only on a
/// frame. (With a zero interval, above a billion frames per second,
/// and a `now` before the last tick, the clock stays ahead of `now`.)
pub proof fn law_frame_pacing(c: ClockView, now: u64, fps: u32)
    requires
        fps > 0,
        frame_interval(fps) > 0 || now >= c.last_tick,
    ensures
        ({
            let t = frame_interval(fps);
            let (c2, a) = frame_step(c, now, fps);
            &&& a.render ==> c2.last_tick <= now
            &&& (a.render && since(now, c.last_tick) <= 3 * t) ==> (since(now, c.last_tick) >= t
                && c2.last_tick == c.last_tick + t)
            &&& since(now, c.last_tick) > 3 * t ==> (a.render && c2.last_tick == now)
            &&& !a.render ==> since(now, c2.last_tick) < t
            &&& a.poll_cpu ==> (a.render && since(now, c.last_cpu_poll) >= NANOS_PER_SECOND
                && c2.last_cpu_poll == now)
            &&& !a.poll_cpu ==> c2.last_cpu_poll == c.last_cpu_poll
        }),
{
}

/// Law: every pass of the loop, drawn or not and after a stall or not, has
/// the time step of one frame at the configured rate: a second divided by
/// the frame rate, in whole nanoseconds. A stall never makes one frame
/// advance the animation by more.
pub proof fn law_frame_step_is_one_interval(c: ClockView, now: u64, fps: u32)
    requires
        fps > 0,
    ensures
        frame_step(c, now, fps).1.frame_nanos as int == 1_000_000_000int / (fps as int),
{
}

} // verus!
