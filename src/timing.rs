use vstd::prelude::*;

verus! {

/// Largest number of extra simulation ticks that one frame may run to catch up.
pub const MAX_FRAMESKIP: i32 = 5;

/// Largest number of simulation ticks that one frame runs (`MAX_FRAMESKIP + 1`).
pub const MAX_TICKS_PER_FRAME: u32 = 6;

/// Simulation rate.
pub const TICKS_PER_SECOND: u64 = 60;

/// Clock resolution: times are counted in nanoseconds.
pub const NANOS_PER_SECOND: u64 = 1_000_000_000;

/// Length of one simulation tick in nanoseconds (a sixtieth of a second, rounded).
pub const SKIP_TICKS: u64 = 16_666_667;

/// Number of ticks due in a frame that starts at `time` while the next tick
/// is due at `next_tick`: one for each `k >= 0` with
/// `next_tick + k * interval < time`, at most `MAX_TICKS_PER_FRAME`.
pub open spec fn ticks_due(next_tick: int, time: int, interval: int) -> int {
    if time <= next_tick {
        0
    } else {
        let due = (time - next_tick + interval - 1) / interval;
        if due > MAX_TICKS_PER_FRAME {
            MAX_TICKS_PER_FRAME as int
        } else {
            due
        }
    }
}

/// When the next tick is due once a frame at `time` has run its ticks: each
/// tick advances it by one interval, and a frame that hit the cap drops the
/// backlog and resynchronizes to one interval after `time`.
pub open spec fn next_tick_after(next_tick: int, time: int, interval: int) -> int {
    let n = ticks_due(next_tick, time, interval);
    if n == MAX_TICKS_PER_FRAME {
        time + interval
    } else {
        next_tick + n * interval
    }
}

/// One unit of work in a frame.
#[derive(Clone, Copy, Debug, PartialEq, Eq, Structural)]
pub enum FrameStep {
    /// Poll the pending assets, then advance the simulation by one tick.
    Tick,
    /// Let the engine fill the console buffer and count the frame.
    Render,
    /// Draw the console through the bound font texture and present it.
    Draw,
}

/// The work of one frame: `ticks` ticks, then one render, then a draw when a
/// font texture is bound.
pub open spec fn frame_steps(ticks: nat, texture_bound: bool) -> Seq<FrameStep> {
    Seq::new(ticks, |i: int| FrameStep::Tick) + seq![FrameStep::Render] + if texture_bound {
        seq![FrameStep::Draw]
    } else {
        Seq::empty()
    }
}

/// Fixed-timestep scheduler: decides, frame by frame, how many simulation
/// ticks are due.
pub struct Scheduler {
    /// Absolute time (ns) at which the next tick is due.
    pub next_tick: u64,
    /// Length of one tick (ns).
    pub tick_interval: u64,
}

impl Scheduler {
    pub open spec fn wf(&self) -> bool {
        self.tick_interval > 0
    }

    /// A scheduler whose first tick is due at `now`.
    pub fn new(now: u64, tick_interval: u64) -> (s: Scheduler)
        requires
            tick_interval > 0,
        ensures
            s.wf(),
            s.next_tick == now,
            s.tick_interval == tick_interval,
    {
        Scheduler { next_tick: now, tick_interval }
    }

    /// Number of ticks that a frame at `time` runs, advancing `next_tick` as
    /// those ticks do.
    pub fn advance(&mut self, time: u64) -> (ticks: u32)
        requires
            old(self).wf(),
            time + old(self).tick_interval <= u64::MAX,
        ensures
            final(self).wf(),
            final(self).tick_interval == old(self).tick_interval,
            ticks as int == ticks_due(
                old(self).next_tick as int,
                time as int,
                old(self).tick_interval as int,
            ),
            final(self).next_tick as int == next_tick_after(
                old(self).next_tick as int,
                time as int,
                old(self).tick_interval as int,
            ),
            final(self).next_tick >= old(self).next_tick,
            final(self).next_tick > old(self).next_tick <==> ticks >= 1,
    {
        let ghost start = self.next_tick as int;
        let ghost iv = self.tick_interval as int;
        let mut skipped: i32 = -1;
        while time > self.next_tick && skipped < MAX_FRAMESKIP
            invariant
                -1 <= skipped <= MAX_FRAMESKIP,
                self.tick_interval as int == iv,
                iv > 0,
                time + iv <= u64::MAX,
                self.next_tick as int == start + (skipped + 1) * iv,
                skipped >= 0 ==> start + skipped * iv < time,
            decreases MAX_FRAMESKIP - skipped,
        {
            self.next_tick = self.next_tick + self.tick_interval;
            skipped = skipped + 1;
            assert(start + (skipped + 1) * iv == start + skipped * iv + iv) by (nonlinear_arith);
        }
        let ticks: u32 = (skipped + 1) as u32;
        proof {
            lemma_loop_count(start, time as int, iv, ticks as int);
        }
        if skipped == MAX_FRAMESKIP {
            self.next_tick = time + self.tick_interval;
        }
        proof {
            lemma_next_tick_monotone(start, time as int, iv);
        }
        ticks
    }

    /// Plans the frame at `time`: the ticks due, one render, and a draw when a
    /// font texture is bound.
    pub fn plan_frame(&mut self, time: u64, texture_bound: bool) -> (steps: Vec<FrameStep>)
        requires
            old(self).wf(),
            time + old(self).tick_interval <= u64::MAX,
        ensures
            final(self).wf(),
            final(self).tick_interval == old(self).tick_interval,
            steps@ == frame_steps(
                ticks_due(
                    old(self).next_tick as int,
                    time as int,
                    old(self).tick_interval as int,
                ) as nat,
                texture_bound,
            ),
            final(self).next_tick as int == next_tick_after(
                old(self).next_tick as int,
                time as int,
                old(self).tick_interval as int,
            ),
            final(self).next_tick >= old(self).next_tick,
    {
        let ticks = self.advance(time);
        let mut steps: Vec<FrameStep> = Vec::new();
        let mut i: u32 = 0;
        while i < ticks
            invariant
                i <= ticks,
                steps@ == Seq::new(i as nat, |k: int| FrameStep::Tick),
            decreases ticks - i,
        {
            steps.push(FrameStep::Tick);
            i = i + 1;
            assert(steps@ =~= Seq::new(i as nat, |k: int| FrameStep::Tick));
        }
        steps.push(FrameStep::Render);
        if texture_bound {
            steps.push(FrameStep::Draw);
        }
        assert(steps@ =~= frame_steps(ticks as nat, texture_bound));
        steps
    }
}

/// What the loop in `Scheduler::advance` leaves: `n` ticks ran, each while
/// behind `time`, and it stopped at the cap or once caught up.
proof fn lemma_loop_count(start: int, time: int, iv: int, n: int)
    requires
        iv > 0,
        0 <= n <= MAX_TICKS_PER_FRAME,
        n >= 1 ==> start + (n - 1) * iv < time,
        n < MAX_TICKS_PER_FRAME ==> start + n * iv >= time,
    ensures
        n == ticks_due(start, time, iv),
{
    if time > start {
        let d = time - start;
        if n < MAX_TICKS_PER_FRAME {
            assert(n >= 1) by (nonlinear_arith)
                requires
                    n >= 0,
                    start + n * iv >= time,
                    time > start,
            ;
            assert((d + iv - 1) / iv == n) by (nonlinear_arith)
                requires
                    iv > 0,
                    n >= 1,
                    (n - 1) * iv < d,
                    d <= n * iv,
                    d == time - start,
            ;
        } else {
            assert((d + iv - 1) / iv >= n) by (nonlinear_arith)
                requires
                    iv > 0,
                    n == MAX_TICKS_PER_FRAME,
                    (n - 1) * iv < d,
            ;
        }
    } else {
        if n >= 1 {
            assert(start + (n - 1) * iv >= start) by (nonlinear_arith)
                requires
                    n >= 1,
                    iv > 0,
            ;
        }
    }
}

/// When the time behind schedule is a whole number `q` of ticks, a frame runs
/// `min(q, MAX_TICKS_PER_FRAME)` ticks; a frame that runs the largest number
/// resynchronizes the next tick to one interval after its own time.
pub proof fn lemma_tick_count_bound(next_tick: int, time: int, interval: int)
    requires
        interval > 0,
        time > next_tick,
        (time - next_tick) % interval == 0,
    ensures
        ({
            let q = (time - next_tick) / interval;
            ticks_due(next_tick, time, interval) == if q > MAX_TICKS_PER_FRAME {
                MAX_TICKS_PER_FRAME as int
            } else {
                q
            }
        }),
        ticks_due(next_tick, time, interval) == MAX_TICKS_PER_FRAME ==> next_tick_after(
            next_tick,
            time,
            interval,
        ) == time + interval,
{
    let d = time - next_tick;
    let q = d / interval;
    assert((d + interval - 1) / interval == q) by (nonlinear_arith)
        requires
            interval > 0,
            d % interval == 0,
            q == d / interval,
    {
        vstd::arithmetic::div_mod::lemma_fundamental_div_mod(d, interval);
        vstd::arithmetic::div_mod::lemma_fundamental_div_mod_converse(
            d + interval - 1,
            interval,
            q,
            interval - 1,
        );
    }
}

/// Every frame renders exactly once, whatever number of ticks it runs, and
/// after all of them.
pub proof fn lemma_render_once_per_frame(ticks: nat, texture_bound: bool)
    ensures
        frame_steps(ticks, texture_bound)[ticks as int] == FrameStep::Render,
        forall|i: int|
            0 <= i < frame_steps(ticks, texture_bound).len() && frame_steps(
                ticks,
                texture_bound,
            )[i] == FrameStep::Render ==> i == ticks,
        forall|i: int| 0 <= i < ticks ==> frame_steps(ticks, texture_bound)[i] == FrameStep::Tick,
{
}

/// The time at which the next tick is due never moves backward, and it moves
/// forward exactly in the frames that run a tick.
pub proof fn lemma_next_tick_monotone(next_tick: int, time: int, interval: int)
    requires
        interval > 0,
    ensures
        next_tick_after(next_tick, time, interval) >= next_tick,
        next_tick_after(next_tick, time, interval) > next_tick <==> ticks_due(
            next_tick,
            time,
            interval,
        ) >= 1,
{
    let n = ticks_due(next_tick, time, interval);
    if time > next_tick {
        assert((time - next_tick + interval - 1) / interval >= 1) by (nonlinear_arith)
            requires
                interval > 0,
                time > next_tick,
        ;
    }
    assert(n * interval >= 0) by (nonlinear_arith)
        requires
            n >= 0,
            interval > 0,
    ;
    if n >= 1 {
        assert(n * interval > 0) by (nonlinear_arith)
            requires
                n >= 1,
                interval > 0,
        ;
    }
}

/// Over two successive frames (at any two times) the time at which the next
/// tick is due never moves backward.
pub proof fn lemma_next_tick_monotone_across_frames(
    next_tick: int,
    time1: int,
    time2: int,
    interval: int,
)
    requires
        interval > 0,
    ensures
        next_tick <= next_tick_after(next_tick, time1, interval),
        next_tick_after(next_tick, time1, interval) <= next_tick_after(
            next_tick_after(next_tick, time1, interval),
            time2,
            interval,
        ),
{
    lemma_next_tick_monotone(next_tick, time1, interval);
    lemma_next_tick_monotone(next_tick_after(next_tick, time1, interval), time2, interval);
}

/// Frames-per-second counter over windows of one second.
pub struct FPS {
    /// Frames counted since the last report.
    pub counter: u32,
    /// Time (ns) of the last report.
    pub last: u64,
    /// Frames counted in the last completed window.
    pub fps: u32,
}

impl FPS {
    /// A counter whose first window starts at `now`.
    pub fn new(now: u64) -> (f: FPS)
        ensures
            f.counter == 0,
            f.last == now,
            f.fps == 0,
    {
        FPS { counter: 0, last: now, fps: 0 }
    }

    /// Counts one frame at time `now`. When more than a second has passed
    /// since the last report, the count becomes the reported rate, the count
    /// restarts and the rate is returned. The count saturates at `u32::MAX`.
    pub fn step(&mut self, now: u64) -> (report: Option<u32>)
        ensures
            ({
                let counted = if old(self).counter == u32::MAX {
                    u32::MAX
                } else {
                    (old(self).counter + 1) as u32
                };
                if now > old(self).last && now - old(self).last > NANOS_PER_SECOND {
                    &&& report == Some(counted)
                    &&& final(self).fps == counted
                    &&& final(self).counter == 0
                    &&& final(self).last == now
                } else {
                    &&& report.is_none()
                    &&& final(self).fps == old(self).fps
                    &&& final(self).counter == counted
                    &&& final(self).last == old(self).last
                }
            }),
    {
        self.counter = self.counter.saturating_add(1);
        if now > self.last && now - self.last > NANOS_PER_SECOND {
            self.last = now;
            self.fps = self.counter;
            self.counter = 0;
            Some(self.fps)
        } else {
            None
        }
    }
}

} // verus!
