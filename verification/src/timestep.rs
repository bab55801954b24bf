//! Fixed timestep with a variable render rate.
//!
//! Real time is handed in once per displayed frame and collected in an
//! accumulator. The simulation consumes it in update ticks of one constant
//! length, so that the number of updates depends only on the time that has
//! passed and not on how often a frame is displayed. What is left over after
//! the last update of a frame is the blending factor of its render tick.
//!
//! [`Timestep`] takes no action itself. It tells its driver what to do next
//! with a [`Tick`], and the driver tells it what happened.
//!
//! All times are whole nanoseconds.

use vstd::prelude::*;

use crate::config::GameConfig;
use crate::geometry::Fraction;

verus! {

/// What the driver of the game loop has to do next.
#[derive(Debug, Clone, Copy, PartialEq, Eq, Structural)]
pub enum Tick {
    /// Run the update callback once, then report back with
    /// [`Timestep::after_update`].
    Update,
    /// Run the render callback once and present the frame. The next call is
    /// [`Timestep::begin_frame`] for the following frame.
    Render,
    /// Leave the game loop without another update or render.
    Exit,
}

/// Where a [`Timestep`] stands in the cycle of a frame.
#[derive(Debug, Clone, Copy, PartialEq, Eq, Structural)]
pub enum Phase {
    /// No update is due: less than one update tick of time is accumulated.
    Idle,
    /// An update is due and has not been reported back yet.
    Updating,
    /// Exit was signaled. This phase is never left.
    Exited,
}

/// Mathematical state of a [`Timestep`].
pub struct TimestepView {
    /// Length of one update tick.
    pub delta_time: nat,
    /// Longest time that one displayed frame may add to the accumulator.
    pub max_frame_time: nat,
    /// Time handed in that no update has consumed yet.
    pub accumulator: nat,
    /// Real time the last frame took, not clamped.
    pub frame_time: nat,
    /// Position in the cycle of a frame.
    pub phase: Phase,
}

impl TimestepView {
    /// The state is one that a [`Timestep`] can be in.
    pub open spec fn wf(self) -> bool {
        &&& self.delta_time > 0
        &&& self.accumulator < self.delta_time + self.max_frame_time
        &&& self.phase == Phase::Idle ==> self.accumulator < self.delta_time
        &&& self.phase == Phase::Updating ==> self.accumulator >= self.delta_time
    }

    /// Time that a frame which really took `elapsed` adds to the accumulator.
    pub open spec fn effective_time(self, elapsed: nat) -> nat {
        if elapsed <= self.max_frame_time {
            elapsed
        } else {
            self.max_frame_time
        }
    }

    /// Number of updates that the accumulated time pays for.
    pub open spec fn updates_due(self) -> nat {
        self.accumulator / self.delta_time
    }

    /// What the driver has to do in this state.
    pub open spec fn tick(self) -> Tick {
        match self.phase {
            Phase::Idle => Tick::Render,
            Phase::Updating => Tick::Update,
            Phase::Exited => Tick::Exit,
        }
    }

    /// State after a frame that took `elapsed` has begun.
    ///
    /// Only an idle state takes up time. While an update is outstanding, or
    /// after exit, the state stays as it is.
    pub open spec fn begin_frame(self, elapsed: nat) -> TimestepView {
        if self.phase == Phase::Idle {
            let accumulator = self.accumulator + self.effective_time(elapsed);
            TimestepView {
                accumulator,
                frame_time: elapsed,
                phase: if accumulator >= self.delta_time {
                    Phase::Updating
                } else {
                    Phase::Idle
                },
                ..self
            }
        } else {
            self
        }
    }

    /// State after the update that was due has run. `exit_requested` tells
    /// whether exit was signaled by the time the update returned.
    ///
    /// Without an update outstanding the state stays as it is.
    pub open spec fn after_update(self, exit_requested: bool) -> TimestepView {
        if self.phase != Phase::Updating {
            self
        } else if exit_requested {
            TimestepView { phase: Phase::Exited, ..self }
        } else {
            let accumulator = (self.accumulator - self.delta_time) as nat;
            TimestepView {
                accumulator,
                phase: if accumulator >= self.delta_time {
                    Phase::Updating
                } else {
                    Phase::Idle
                },
                ..self
            }
        }
    }

    /// State after `count` updates in a row, none of which signaled exit.
    pub open spec fn after_updates(self, count: nat) -> TimestepView
        decreases count,
    {
        if count == 0 {
            self
        } else {
            self.after_updates((count - 1) as nat).after_update(false)
        }
    }

    /// Number of updates that a frame runs which takes `elapsed` and during
    /// which no exit is signaled.
    pub open spec fn frame_updates(self, elapsed: nat) -> nat {
        (self.accumulator + self.effective_time(elapsed)) / self.delta_time
    }

    /// State after a whole frame that takes `elapsed` and during which no exit
    /// is signaled: after the frame has begun and all its updates have run.
    pub open spec fn after_frame(self, elapsed: nat) -> TimestepView {
        self.begin_frame(elapsed).after_updates(self.frame_updates(elapsed))
    }

    /// State after whole frames that take the times in `frames`, one after
    /// the other.
    pub open spec fn after_frames(self, frames: Seq<nat>) -> TimestepView
        decreases frames.len(),
    {
        if frames.len() == 0 {
            self
        } else {
            self.after_frames(frames.drop_last()).after_frame(frames.last())
        }
    }

    /// Number of updates that run in all of the frames that take the times in
    /// `frames`.
    pub open spec fn updates_in(self, frames: Seq<nat>) -> nat
        decreases frames.len(),
    {
        if frames.len() == 0 {
            0
        } else {
            self.updates_in(frames.drop_last()) + self.after_frames(
                frames.drop_last(),
            ).frame_updates(frames.last())
        }
    }

    /// Time that the frames which take the times in `frames` add to the
    /// accumulator in all.
    pub open spec fn effective_total(self, frames: Seq<nat>) -> nat
        decreases frames.len(),
    {
        if frames.len() == 0 {
            0
        } else {
            self.effective_total(frames.drop_last()) + self.effective_time(frames.last())
        }
    }

    /// Part of an update tick that is accumulated beyond the last whole one,
    /// as numerator and denominator.
    pub open spec fn blending_factor(self) -> (nat, nat) {
        (self.accumulator % self.delta_time, self.delta_time)
    }
}

/// Accumulator that turns the real time of displayed frames into update ticks
/// of constant length.
pub struct Timestep {
    /// Length of one update tick.
    delta_time: u64,
    /// Longest time that one displayed frame may add to the accumulator.
    max_frame_time: u64,
    /// Time handed in that no update has consumed yet.
    accumulator: u128,
    /// Real time the last frame took.
    frame_time: u64,
    /// Position in the cycle of a frame.
    phase: Phase,
}

impl View for Timestep {
    type V = TimestepView;

    closed spec fn view(&self) -> TimestepView {
        TimestepView {
            delta_time: self.delta_time as nat,
            max_frame_time: self.max_frame_time as nat,
            accumulator: self.accumulator as nat,
            frame_time: self.frame_time as nat,
            phase: self.phase,
        }
    }
}

impl Timestep {
    #[verifier::type_invariant]
    spec fn inv(&self) -> bool {
        self@.wf()
    }

    /// Start with an empty accumulator, before the first frame.
    ///
    /// An update tick has to take time: with ticks of no length no amount of
    /// updates would ever use up the time of a frame.
    pub fn new(config: &GameConfig) -> (timestep: Self)
        requires
            config.update_delta_time > 0,
        ensures
            timestep@ == (TimestepView {
                delta_time: config.update_delta_time as nat,
                max_frame_time: config.max_frame_time as nat,
                accumulator: 0,
                frame_time: 0,
                phase: Phase::Idle,
            }),
            timestep@.wf(),
    {
        Timestep {
            delta_time: config.update_delta_time,
            max_frame_time: config.max_frame_time,
            accumulator: 0,
            frame_time: 0,
            phase: Phase::Idle,
        }
    }

    /// Begin a displayed frame for which `elapsed` of real time has passed
    /// since the previous one began.
    ///
    /// The time is clamped to the configured maximum and added to the
    /// accumulator. The result is [`Tick::Update`] when that pays for at least
    /// one update, and [`Tick::Render`] when it does not.
    pub fn begin_frame(&mut self, elapsed: u64) -> (tick: Tick)
        ensures
            final(self)@ == old(self)@.begin_frame(elapsed as nat),
            tick == final(self)@.tick(),
            final(self)@.wf(),
    {
        proof {
            use_type_invariant(&*self);
        }
        match self.phase {
            Phase::Idle => {
                let effective: u64 = if elapsed <= self.max_frame_time {
                    elapsed
                } else {
                    self.max_frame_time
                };
                let accumulator: u128 = self.accumulator + effective as u128;
                let phase = if accumulator >= self.delta_time as u128 {
                    Phase::Updating
                } else {
                    Phase::Idle
                };
                *self = Timestep {
                    delta_time: self.delta_time,
                    max_frame_time: self.max_frame_time,
                    accumulator,
                    frame_time: elapsed,
                    phase,
                };
                match phase {
                    Phase::Updating => Tick::Update,
                    _ => Tick::Render,
                }
            },
            Phase::Updating => Tick::Update,
            Phase::Exited => Tick::Exit,
        }
    }

    /// Report that the update which was due has run.
    ///
    /// `exit_requested` is whether exit was signaled by the time the update
    /// returned, by the game or by the platform. If so the result is
    /// [`Tick::Exit`], the accumulated time stays as it was, and no update or
    /// render follows. Otherwise one update tick of time is consumed, and the
    /// result is [`Tick::Update`] while the rest pays for another update and
    /// [`Tick::Render`] when it does not.
    pub fn after_update(&mut self, exit_requested: bool) -> (tick: Tick)
        ensures
            final(self)@ == old(self)@.after_update(exit_requested),
            tick == final(self)@.tick(),
            final(self)@.wf(),
    {
        proof {
            use_type_invariant(&*self);
        }
        match self.phase {
            Phase::Idle => Tick::Render,
            Phase::Exited => Tick::Exit,
            Phase::Updating => {
                if exit_requested {
                    *self = Timestep {
                        delta_time: self.delta_time,
                        max_frame_time: self.max_frame_time,
                        accumulator: self.accumulator,
                        frame_time: self.frame_time,
                        phase: Phase::Exited,
                    };
                    Tick::Exit
                } else {
                    let accumulator: u128 = self.accumulator - self.delta_time as u128;
                    let phase = if accumulator >= self.delta_time as u128 {
                        Phase::Updating
                    } else {
                        Phase::Idle
                    };
                    *self = Timestep {
                        delta_time: self.delta_time,
                        max_frame_time: self.max_frame_time,
                        accumulator,
                        frame_time: self.frame_time,
                        phase,
                    };
                    match phase {
                        Phase::Updating => Tick::Update,
                        _ => Tick::Render,
                    }
                }
            },
        }
    }

    /// Position in the cycle of a frame.
    pub fn phase(&self) -> (phase: Phase)
        ensures
            phase == self@.phase,
    {
        self.phase
    }

    /// Length of one update tick.
    pub fn delta_time(&self) -> (delta_time: u64)
        ensures
            delta_time == self@.delta_time,
            delta_time > 0,
    {
        proof {
            use_type_invariant(self);
        }
        self.delta_time
    }

    /// Real time that the frame begun last took, before clamping.
    pub fn frame_time(&self) -> (frame_time: u64)
        ensures
            frame_time == self@.frame_time,
    {
        self.frame_time
    }

    /// Time handed in that no update has consumed yet.
    pub fn accumulator(&self) -> (accumulator: u128)
        ensures
            accumulator == self@.accumulator,
    {
        self.accumulator
    }

    /// Progress towards the next update tick, for interpolating between the
    /// last two simulated states in a render tick.
    ///
    /// For a render tick this is the accumulated time divided by the length of
    /// an update tick.
    pub fn blending_factor(&self) -> (factor: Fraction)
        ensures
            factor.numerator == self@.blending_factor().0,
            factor.denominator == self@.blending_factor().1,
            factor.is_proper(),
            self@.phase == Phase::Idle ==> factor.numerator == self@.accumulator,
    {
        proof {
            use_type_invariant(self);
        }
        let rest: u128 = self.accumulator % (self.delta_time as u128);
        proof {
            if self.accumulator < self.delta_time {
                vstd::arithmetic::div_mod::lemma_small_mod(
                    self.accumulator as nat,
                    self.delta_time as nat,
                );
            }
        }
        Fraction { numerator: rest as u64, denominator: self.delta_time }
    }
}

/// Every transition leads from a well-formed state to a well-formed state.
pub proof fn lemma_transitions_keep_wf(state: TimestepView, elapsed: nat, exit_requested: bool)
    requires
        state.wf(),
    ensures
        state.begin_frame(elapsed).wf(),
        state.after_update(exit_requested).wf(),
{
}

/// Clamping: a frame adds the real time it took to the accumulator, unless
/// that is more than the configured maximum. Then it adds the maximum, and
/// how much more the frame took makes no difference.
pub proof fn lemma_frame_time_is_clamped(state: TimestepView, elapsed: nat)
    requires
        state.wf(),
        state.phase == Phase::Idle,
    ensures
        state.effective_time(elapsed) <= state.max_frame_time,
        elapsed <= state.max_frame_time ==> state.begin_frame(elapsed).accumulator
            == state.accumulator + elapsed,
        elapsed > state.max_frame_time ==> state.begin_frame(elapsed).accumulator
            == state.accumulator + state.max_frame_time,
{
}

/// State of a frame after some of the updates that it pays for.
///
/// `total` is the accumulator right after the frame began. After `done`
/// updates, none of which signaled exit, `done` update ticks of time are
/// consumed, and another update is due exactly if more are paid for.
proof fn lemma_after_some_updates(begun: TimestepView, done: nat)
    requires
        begun.wf(),
        begun.phase != Phase::Exited,
        done <= begun.updates_due(),
    ensures
        begun.after_updates(done) == (TimestepView {
            accumulator: (begun.accumulator - done * begun.delta_time) as nat,
            phase: if done < begun.updates_due() {
                Phase::Updating
            } else {
                Phase::Idle
            },
            ..begun
        }),
        begun.accumulator - done * begun.delta_time >= 0,
    decreases done,
{
    let dt = begun.delta_time as int;
    let acc = begun.accumulator as int;
    let due = begun.updates_due() as int;
    assert(due * dt <= acc < (due + 1) * dt) by (nonlinear_arith)
        requires
            dt > 0,
            acc >= 0,
            due == acc / dt,
    ;
    assert(0 < due <==> acc >= dt) by (nonlinear_arith)
        requires
            dt > 0,
            due * dt <= acc < (due + 1) * dt,
    ;
    if done == 0 {
        assert(done * begun.delta_time == 0) by (nonlinear_arith)
            requires
                done == 0,
        ;
    } else {
        let before = (done - 1) as nat;
        lemma_after_some_updates(begun, before);
        let rest = acc - before * dt;
        assert(rest >= dt && rest - dt == acc - done * dt) by (nonlinear_arith)
            requires
                rest == acc - before * dt,
                before == done - 1,
                done <= due,
                due * dt <= acc,
                dt > 0,
        ;
        assert(done < due <==> rest - dt >= dt) by (nonlinear_arith)
            requires
                rest - dt == acc - done * dt,
                due * dt <= acc < (due + 1) * dt,
                dt > 0,
        ;
        assert(begun.after_updates(before).phase == Phase::Updating);
        assert(begun.after_updates(done) == begun.after_updates(before).after_update(false));
    }
}

/// Updates per displayed frame: a frame that begins idle, and during which no
/// exit is signaled, runs as many updates as the time accumulated before it
/// plus the clamped time of the frame pays for. An update is due after each
/// smaller number of updates, a render after exactly that many. The render
/// tick finds the remainder of the division in the accumulator, which is less
/// than one update tick. The state is then idle and well-formed again, so the
/// same holds of the next frame, and of every frame of a run.
pub proof fn lemma_updates_per_frame(state: TimestepView, elapsed: nat)
    requires
        state.wf(),
        state.phase == Phase::Idle,
    ensures
        ({
            let begun = state.begin_frame(elapsed);
            let total = state.accumulator + state.effective_time(elapsed);
            let count = total / state.delta_time;
            &&& forall|done: nat|
                done < count ==> (#[trigger] begun.after_updates(done)).tick() == Tick::Update
            &&& begun.after_updates(count).tick() == Tick::Render
            &&& begun.after_updates(count).accumulator == total % state.delta_time
            &&& begun.after_updates(count).accumulator < state.delta_time
            &&& begun.after_updates(count) == (TimestepView {
                accumulator: total % state.delta_time,
                frame_time: elapsed,
                ..state
            })
            &&& begun.after_updates(count).wf()
        }),
{
    let begun = state.begin_frame(elapsed);
    let total = state.accumulator + state.effective_time(elapsed);
    let count = total / state.delta_time;
    assert(begun.accumulator == total);
    assert(begun.updates_due() == count);
    assert forall|done: nat| done < count implies (#[trigger] begun.after_updates(done)).tick()
        == Tick::Update by {
        lemma_after_some_updates(begun, done);
    }
    lemma_after_some_updates(begun, count);
    let t = total as int;
    let dt = state.delta_time as int;
    vstd::arithmetic::div_mod::lemma_fundamental_div_mod(t, dt);
    assert(t - (t / dt) * dt == t % dt) by (nonlinear_arith)
        requires
            t == dt * (t / dt) + t % dt,
    ;
    vstd::arithmetic::div_mod::lemma_mod_bound(total as int, state.delta_time as int);
}

/// Fixed cadence: how many updates run in a sequence of frames depends on the
/// time that the frames add up to and not on how that time is spread over
/// them. From an idle state, the updates of all frames together are as many
/// as the time accumulated before them plus the clamped times of the frames
/// pay for, and the remainder of that division is what is left accumulated.
pub proof fn lemma_updates_depend_on_total_time(state: TimestepView, frames: Seq<nat>)
    requires
        state.wf(),
        state.phase == Phase::Idle,
    ensures
        ({
            let total = state.accumulator + state.effective_total(frames);
            let end = state.after_frames(frames);
            &&& state.updates_in(frames) == total / state.delta_time
            &&& end.accumulator == total % state.delta_time
            &&& end.phase == Phase::Idle
            &&& end.wf()
            &&& end.delta_time == state.delta_time
            &&& end.max_frame_time == state.max_frame_time
        }),
    decreases frames.len(),
{
    if frames.len() == 0 {
        vstd::arithmetic::div_mod::lemma_small_mod(state.accumulator, state.delta_time);
        vstd::arithmetic::div_mod::lemma_basic_div(
            state.accumulator as int,
            state.delta_time as int,
        );
    } else {
        let before = frames.drop_last();
        let elapsed = frames.last();
        lemma_updates_depend_on_total_time(state, before);
        let middle = state.after_frames(before);
        lemma_updates_per_frame(middle, elapsed);
        let dt = state.delta_time as int;
        let so_far = (state.accumulator + state.effective_total(before)) as int;
        let added = state.effective_time(elapsed) as int;
        assert(middle.effective_time(elapsed) == added);
        let rest = so_far % dt;
        vstd::arithmetic::div_mod::lemma_fundamental_div_mod(so_far, dt);
        vstd::arithmetic::div_mod::lemma_fundamental_div_mod(rest + added, dt);
        vstd::arithmetic::div_mod::lemma_mod_bound(rest + added, dt);
        assert(so_far + added == (so_far / dt + (rest + added) / dt) * dt + (rest + added) % dt)
            by (nonlinear_arith)
            requires
                so_far == dt * (so_far / dt) + rest,
                rest + added == dt * ((rest + added) / dt) + (rest + added) % dt,
        ;
        vstd::arithmetic::div_mod::lemma_fundamental_div_mod_converse(
            so_far + added,
            dt,
            so_far / dt + (rest + added) / dt,
            (rest + added) % dt,
        );
    }
}

/// The blending factor of every state is at least zero and less than one. In
/// an idle state, which is what a render tick finds, it is the accumulated
/// time divided by the length of an update tick.
pub proof fn lemma_blending_factor_is_proper(state: TimestepView)
    requires
        state.wf(),
    ensures
        0 <= state.blending_factor().0 < state.blending_factor().1,
        state.phase == Phase::Idle ==> state.blending_factor() == (
            state.accumulator,
            state.delta_time,
        ),
{
    vstd::arithmetic::div_mod::lemma_mod_bound(
        state.accumulator as int,
        state.delta_time as int,
    );
    if state.accumulator < state.delta_time {
        vstd::arithmetic::div_mod::lemma_small_mod(state.accumulator, state.delta_time);
    }
}

/// Exit: when exit is signaled by the time an update returns, the next tick
/// is an exit, and so is every tick after it. Neither another frame nor
/// another report of an update changes the state, so no update and no render
/// follows, and no time is consumed.
pub proof fn lemma_exit_is_final(state: TimestepView, elapsed: nat, exit_requested: bool)
    requires
        state.wf(),
        state.phase == Phase::Updating,
    ensures
        ({
            let exited = state.after_update(true);
            &&& exited.tick() == Tick::Exit
            &&& exited.accumulator == state.accumulator
            &&& exited.begin_frame(elapsed) == exited
            &&& exited.after_update(exit_requested) == exited
        }),
{
}

/// Units of a frame rate in one frame per second: rates are counted in
/// thousandths of a frame per second.
pub const FRAME_RATE_SCALE: u64 = 1_000;

/// Rate of a frame that takes one nanosecond, the highest rate that a frame
/// is counted with. A frame that takes no measurable time counts as this fast.
pub const MAX_FRAME_RATE: u64 = 1_000_000_000_000;

/// Weight of the rate so far in the smoothed average. The latest frame has
/// weight one.
pub const SMOOTHING_HISTORY_WEIGHT: u64 = 4;

/// Sum of the two weights in the smoothed average.
pub const SMOOTHING_WEIGHTS: u64 = 5;

/// Frames per second at which frames of `frame_time` nanoseconds follow each
/// other, in thousandths and rounded down.
pub open spec fn frame_rate(frame_time: nat) -> nat {
    if frame_time == 0 {
        MAX_FRAME_RATE as nat
    } else {
        MAX_FRAME_RATE as nat / frame_time
    }
}

/// Smoothed frame rate after a frame of `frame_time` nanoseconds: four fifths
/// of the smoothed rate before it and one fifth of the rate of that frame,
/// rounded down.
pub open spec fn smoothed_frame_rate(previous: nat, frame_time: nat) -> nat {
    ((SMOOTHING_HISTORY_WEIGHT * previous + frame_rate(frame_time)) / (SMOOTHING_WEIGHTS
        as int)) as nat
}

/// Smoothed frame rate after `frames` frames in a row of `frame_time`
/// nanoseconds each.
pub open spec fn smoothed_frame_rate_after(previous: nat, frame_time: nat, frames: nat) -> nat
    decreases frames,
{
    if frames == 0 {
        previous
    } else {
        smoothed_frame_rate(
            smoothed_frame_rate_after(previous, frame_time, (frames - 1) as nat),
            frame_time,
        )
    }
}

/// Distance between a smoothed frame rate and the rate it approaches.
pub open spec fn rate_distance(smoothed: nat, rate: nat) -> nat {
    if smoothed <= rate {
        (rate - smoothed) as nat
    } else {
        (smoothed - rate) as nat
    }
}

/// Update a smoothed frame rate with a frame that took `frame_time`
/// nanoseconds. Rates are in thousandths of a frame per second.
///
/// The history weighs four times as much as the latest frame, so that a
/// readout of the rate is stable rather than jittery.
pub fn smooth_frame_rate(previous: u64, frame_time: u64) -> (smoothed: u64)
    ensures
        smoothed == smoothed_frame_rate(previous as nat, frame_time as nat),
{
    let rate: u64 = if frame_time == 0 {
        MAX_FRAME_RATE
    } else {
        MAX_FRAME_RATE / frame_time
    };
    let weighted: u128 = (SMOOTHING_HISTORY_WEIGHT as u128) * (previous as u128) + (rate as u128);
    (weighted / (SMOOTHING_WEIGHTS as u128)) as u64
}

/// First frame: from a smoothed rate of zero, one frame leads to a fifth of
/// the rate of that frame.
pub proof fn lemma_first_frame_rate(frame_time: nat)
    ensures
        smoothed_frame_rate(0, frame_time) == frame_rate(frame_time) / 5,
{
}

/// One frame moves the smoothed rate towards the rate of that frame and never
/// past it. Of the distance before the frame at most four fifths are left,
/// and at most four thousandths more for rounding.
pub proof fn lemma_frame_rate_approaches(previous: nat, frame_time: nat)
    ensures
        ({
            let rate = frame_rate(frame_time);
            let smoothed = smoothed_frame_rate(previous, frame_time);
            &&& previous <= rate ==> previous <= smoothed <= rate
            &&& previous >= rate ==> rate <= smoothed <= previous
            &&& 5 * rate_distance(smoothed, rate) <= 4 * rate_distance(previous, rate) + 4
        }),
{
}

/// Convergence: while frames take the same time, the smoothed rate converges
/// to their rate up to rounding. After `frames` frames, what is left of the
/// distance beyond four thousandths is at most the part `(4 / 5)^frames` of
/// what it was.
pub proof fn lemma_frame_rate_converges(previous: nat, frame_time: nat, frames: nat)
    ensures
        ({
            let rate = frame_rate(frame_time);
            let smoothed = smoothed_frame_rate_after(previous, frame_time, frames);
            vstd::arithmetic::power::pow(5, frames) * (rate_distance(smoothed, rate) - 4)
                <= vstd::arithmetic::power::pow(4, frames) * (rate_distance(previous, rate) - 4)
        }),
    decreases frames,
{
    let rate = frame_rate(frame_time);
    if frames == 0 {
        assert(vstd::arithmetic::power::pow(5, 0) == 1) by {
            vstd::arithmetic::power::lemma_pow0(5);
        }
        assert(vstd::arithmetic::power::pow(4, 0) == 1) by {
            vstd::arithmetic::power::lemma_pow0(4);
        }
    } else {
        let before = (frames - 1) as nat;
        let middle = smoothed_frame_rate_after(previous, frame_time, before);
        let smoothed = smoothed_frame_rate_after(previous, frame_time, frames);
        lemma_frame_rate_converges(previous, frame_time, before);
        lemma_frame_rate_approaches(middle, frame_time);
        let p5 = vstd::arithmetic::power::pow(5, before);
        let p4 = vstd::arithmetic::power::pow(4, before);
        vstd::arithmetic::power::lemma_pow_positive(5, before);
        vstd::arithmetic::power::lemma_pow_positive(4, before);
        assert(vstd::arithmetic::power::pow(5, frames) == 5 * p5) by {
            reveal(vstd::arithmetic::power::pow);
        }
        assert(vstd::arithmetic::power::pow(4, frames) == 4 * p4) by {
            reveal(vstd::arithmetic::power::pow);
        }
        let d_now = rate_distance(smoothed, rate) as int;
        let d_mid = rate_distance(middle, rate) as int;
        let d_old = rate_distance(previous, rate) as int;
        assert((5 * p5) * (d_now - 4) <= (4 * p4) * (d_old - 4)) by (nonlinear_arith)
            requires
                p5 > 0,
                p4 > 0,
                5 * d_now <= 4 * d_mid + 4,
                p5 * (d_mid - 4) <= p4 * (d_old - 4),
        ;
    }
}

} // verus!
