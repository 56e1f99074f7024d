//! Fixed-tick frame pacing.
//!
//! Times are counted in nanoseconds from the moment the counter was made.

use std::time::Instant;
use vstd::prelude::*;

verus! {

/// The target time between two frames, in milliseconds.
pub const INTERVAL: u64 = 1_000 / 60;

/// The time that one frame stands for in the game's logic, in milliseconds.
pub const PHYSIC_INTERVAL: u32 = 1_000 / 60;

/// The target time between two frames, in nanoseconds.
pub const INTERVAL_NANOS: u128 = 16_000_000;

/// Nanoseconds in a second.
pub const NANOS_PER_SECOND: u128 = 1_000_000_000;

/// `std::time::Instant`: a moment on the monotonic clock. It is held
/// unopened; `time_since` reads it.
#[verifier::external_type_specification]
#[verifier::external_body]
pub struct ExInstant(Instant);

/// `Instant::now`: the present moment on the monotonic clock.
#[verifier::external_body]
fn clock_now() -> (now: Instant) {
    Instant::now()
}

/// `Instant::elapsed`: the time that has passed since `start`, as whole
/// seconds and the nanoseconds beyond them, which `Duration::subsec_nanos`
/// keeps below one second.
#[verifier::external_body]
fn time_since(start: &Instant) -> (span: (u64, u32))
    ensures
        span.1 < 1_000_000_000,
{
    let elapsed = start.elapsed();
    (elapsed.as_secs(), elapsed.subsec_nanos())
}

/// Milliseconds held by a span of `secs` whole seconds and `nanos` further
/// nanoseconds, as a mathematical integer.
pub open spec fn millis_of(secs: int, nanos: int) -> int {
    secs * 1000 + nanos / 1_000_000
}

/// Whole milliseconds of a span given as seconds and sub-second nanoseconds,
/// held at `u64::MAX` where the count no longer fits.
pub fn span_millis(secs: u64, nanos: u32) -> (ms: u64)
    ensures
        ms == if millis_of(secs as int, nanos as int) <= u64::MAX {
            millis_of(secs as int, nanos as int)
        } else {
            u64::MAX as int
        },
{
    let sub: u64 = (nanos / 1_000_000) as u64;
    match secs.checked_mul(1000) {
        Some(whole) => match whole.checked_add(sub) {
            Some(total) => total,
            None => u64::MAX,
        },
        None => u64::MAX,
    }
}

/// Nanoseconds of a span given as seconds and sub-second nanoseconds.
pub fn span_nanos(secs: u64, nanos: u32) -> (ns: u128)
    ensures
        ns == secs * 1_000_000_000 + nanos,
{
    (secs as u128) * NANOS_PER_SECOND + (nanos as u128)
}

/// What a counter remembers between two ticks.
#[derive(Clone, Copy, Debug, PartialEq, Eq, Structural)]
pub struct Pacing {
    /// When the last frame began.
    pub before: u128,
    /// When frames were last counted up into a sample.
    pub last_second: u128,
    /// The frames begun since then.
    pub fps: u16,
}

/// What a tick tells the loop: whether to skip the frame, the frames counted
/// in the second that just ended, if one ended, and the time that the frame
/// stands for, in milliseconds.
pub type Tick = (bool, Option<u16>, u32);

impl Pacing {
    /// The state at the moment the counter is made.
    pub open spec fn start() -> Pacing {
        Pacing { before: 0, last_second: 0, fps: 0 }
    }

    /// The time since the last frame began; none where the clock reads less
    /// than it did then.
    pub open spec fn since_frame(self, now: u128) -> int {
        if now >= self.before {
            now - self.before
        } else {
            0
        }
    }

    /// Whether a tick at `now` comes too early for a frame.
    pub open spec fn too_early(self, now: u128) -> bool {
        self.since_frame(now) < INTERVAL_NANOS
    }

    /// How long the loop should sleep after a tick at `now`: what is left of
    /// the interval where the tick came too early, else nothing.
    pub open spec fn time_left(self, now: u128) -> int {
        if self.too_early(now) {
            INTERVAL_NANOS - self.since_frame(now)
        } else {
            0
        }
    }

    /// Whether a frame that begins at `now` ends a second of counting: a
    /// second or more has passed since the last sample.
    pub open spec fn second_over(self, now: u128) -> bool {
        now - self.last_second >= NANOS_PER_SECOND
    }

    /// What a tick at `now` reports.
    pub open spec fn report(self, now: u128) -> Tick {
        if self.too_early(now) {
            (true, None, 0)
        } else if self.second_over(now) {
            (false, Some((self.fps + 1) as u16), PHYSIC_INTERVAL)
        } else {
            (false, None, PHYSIC_INTERVAL)
        }
    }

    /// The state after a tick at `now`.
    pub open spec fn after(self, now: u128) -> Pacing {
        if self.too_early(now) {
            self
        } else if self.second_over(now) {
            Pacing { before: now, last_second: now, fps: 0 }
        } else {
            Pacing { before: now, last_second: self.last_second, fps: (self.fps + 1) as u16 }
        }
    }

    /// What holds of every state that ticks lead to: the frames counted are
    /// at least an interval apart and fall within one second, so there are
    /// never more than 62 of them.
    pub open spec fn steady(self) -> bool {
        &&& self.last_second <= self.before
        &&& self.before - self.last_second <= NANOS_PER_SECOND
        &&& self.fps * INTERVAL_NANOS <= self.before - self.last_second
    }

    /// What the ticks at the moments `nows`, one after the other, report.
    pub open spec fn reports(self, nows: Seq<u128>) -> Seq<Tick>
        decreases nows.len(),
    {
        if nows.len() == 0 {
            Seq::empty()
        } else {
            seq![self.report(nows.first())] + self.after(nows.first()).reports(nows.drop_first())
        }
    }
}

/// A tick keeps the state steady, and the count stays small.
pub proof fn lemma_tick_keeps_steady(pacing: Pacing, now: u128)
    requires
        pacing.steady(),
    ensures
        pacing.after(now).steady(),
        pacing.fps <= 62,
{
}

/// Whatever the clock reads from tick to tick, every tick that does not skip
/// reports the same delta, the fixed interval, and every tick that skips
/// reports no delta and no sample.
pub proof fn lemma_fixed_tick_delta(pacing: Pacing, nows: Seq<u128>, index: int)
    requires
        0 <= index < nows.len(),
    ensures
        pacing.reports(nows).len() == nows.len(),
        ({
            let tick = pacing.reports(nows)[index];
            if tick.0 {
                tick.1 is None && tick.2 == 0
            } else {
                tick.2 == PHYSIC_INTERVAL
            }
        }),
    decreases nows.len(),
{
    lemma_reports_len(pacing, nows);
    if index > 0 {
        lemma_fixed_tick_delta(pacing.after(nows.first()), nows.drop_first(), index - 1);
        lemma_reports_len(pacing.after(nows.first()), nows.drop_first());
    }
}

proof fn lemma_reports_len(pacing: Pacing, nows: Seq<u128>)
    ensures
        pacing.reports(nows).len() == nows.len(),
    decreases nows.len(),
{
    if nows.len() > 0 {
        lemma_reports_len(pacing.after(nows.first()), nows.drop_first());
    }
}

/// Paces the frames of the loop at a fixed interval and counts them up
/// second by second.
pub struct FpsCounter {
    pacing: Pacing,
    init_time: Instant,
}

impl FpsCounter {
    /// What the counter remembers.
    pub closed spec fn pacing(&self) -> Pacing {
        self.pacing
    }

    /// The moment at which the counter was made, from which its time is
    /// counted.
    pub closed spec fn started(&self) -> Instant {
        self.init_time
    }

    #[verifier::type_invariant]
    spec fn steady(&self) -> bool {
        self.pacing.steady()
    }

    /// A counter whose time starts now.
    pub fn new() -> (counter: FpsCounter)
        ensures
            counter.pacing() == Pacing::start(),
    {
        FpsCounter { pacing: Pacing { before: 0, last_second: 0, fps: 0 }, init_time: clock_now() }
    }

    /// The nanoseconds that have passed since the counter was made.
    pub fn now(&self) -> (now: u128) {
        let (secs, nanos) = time_since(&self.init_time);
        span_nanos(secs, nanos)
    }

    /// How long the loop should sleep if it ticks at `now`, in nanoseconds.
    pub fn time_left(&self, now: u128) -> (left: u128)
        ensures
            left == self.pacing().time_left(now),
    {
        let since: u128 = if now >= self.pacing.before {
            now - self.pacing.before
        } else {
            0
        };
        if since < INTERVAL_NANOS {
            INTERVAL_NANOS - since
        } else {
            0
        }
    }

    /// A tick of the loop at the moment `now`. Too early for a frame, it
    /// tells the loop to skip and changes nothing. Else a frame begins: it
    /// is counted, the count is handed out and reset where a second or more
    /// has passed since the last sample, and the delta is the fixed
    /// interval. The moment from which the counter's time is counted stays.
    pub fn tick_at(&mut self, now: u128) -> (tick: Tick)
        ensures
            tick == old(self).pacing().report(now),
            final(self).pacing() == old(self).pacing().after(now),
            final(self).started() == old(self).started(),
    {
        proof {
            use_type_invariant(&*self);
        }
        let pacing = self.pacing;
        let since: u128 = if now >= pacing.before {
            now - pacing.before
        } else {
            0
        };
        if since < INTERVAL_NANOS {
            return (true, None, 0);
        }
        let fps: u16 = pacing.fps + 1;
        if now - pacing.last_second >= NANOS_PER_SECOND {
            self.pacing = Pacing { before: now, last_second: now, fps: 0 };
            return (false, Some(fps), PHYSIC_INTERVAL);
        }
        self.pacing = Pacing { before: now, last_second: pacing.last_second, fps };
        (false, None, PHYSIC_INTERVAL)
    }

    /// The milliseconds that have passed since the counter was made.
    pub fn elapsed(&self) -> (ms: u64) {
        let (secs, nanos) = time_since(&self.init_time);
        span_millis(secs, nanos)
    }
}

} // verus!
