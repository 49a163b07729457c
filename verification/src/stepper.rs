//! One axis: the ramp generator, the pulse timing and the outputs that
//! drive the motor.

use vstd::prelude::*;
use crate::ramp::StepIterator;
use crate::xyz::XYZId;

verus! {

/// Shortest time, in ticks, that the step output stays at one level.
pub const SIGNAL_LENGTH: u32 = 30;

/// Latest tick at which an axis may be polled: later, a scheduled event
/// could no longer be counted in 64 bits.
pub const LAST_TICK: u64 = 0xFFFF_FFFF_0000_0000;

/// A speed and the acceleration with which it is reached.
#[derive(Clone, Default)]
pub struct Speed<T> {
    pub speed: T,
    pub acceleration: u32,
}

impl<T> Speed<T> {
    /// Converts the speed with `speed_fn` and the acceleration with
    /// `acc_fn`.
    pub fn map<FS, FA, TN>(self, speed_fn: FS, acc_fn: FA) -> (r: Speed<TN>) where
        FS: Fn(T) -> TN,
        FA: Fn(u32) -> u32,

        requires
            speed_fn.requires((self.speed,)),
            acc_fn.requires((self.acceleration,)),
        ensures
            speed_fn.ensures((self.speed,), r.speed),
            acc_fn.ensures((self.acceleration,), r.acceleration),
    {
        Speed::<TN> { speed: speed_fn(self.speed), acceleration: acc_fn(self.acceleration) }
    }
}

/// The tick at which the next edge of the step output is due. Zero means
/// that nothing is scheduled.
#[derive(Clone, Copy, Debug)]
pub struct StepperTiming {
    pub next_update_time: u64,
}

impl Default for StepperTiming {
    fn default() -> (r: Self)
        ensures
            r.next_update_time == 0,
    {
        StepperTiming { next_update_time: 0 }
    }
}

impl StepperTiming {
    /// An edge is scheduled and its time has come.
    pub fn update_needed(&self, now: u64) -> (r: bool)
        ensures
            r == (self.next_update_time != 0 && now >= self.next_update_time),
    {
        self.next_update_time != 0 && now >= self.next_update_time
    }

    /// Nothing is scheduled.
    pub fn is_uninitialized(&self) -> (r: bool)
        ensures
            r == (self.next_update_time == 0),
    {
        self.next_update_time == 0
    }

    /// Clears the schedule.
    pub fn uninit(&mut self)
        ensures
            final(self).next_update_time == 0,
    {
        self.next_update_time = 0;
    }

    /// Moves the scheduled time `delay` ticks on.
    pub fn update(&mut self, delay: u32)
        requires
            old(self).next_update_time + delay <= u64::MAX,
        ensures
            final(self).next_update_time == old(self).next_update_time + delay,
    {
        self.next_update_time = self.next_update_time + delay as u64;
    }
}

/// The outputs of the axes. `stepped` and `directed` say what an
/// implementation's state is after each effect.
pub trait StepDir: Clone {
    /// The outputs after the step line of `axis` has changed its level.
    spec fn stepped(self, axis: XYZId) -> Self;

    /// The outputs after the direction line of `axis` has been set.
    spec fn directed(self, axis: XYZId, direction: bool) -> Self;

    /// Changes the level of the step line of `axis`.
    fn step(&mut self, axis: XYZId)
        ensures
            *final(self) == old(self).stepped(axis),
    ;

    /// Sets the direction line of `axis`; `true` stands for the negative
    /// direction.
    fn dir(&mut self, axis: XYZId, direction: bool)
        ensures
            *final(self) == old(self).directed(axis, direction),
    ;
}

/// Time from a falling edge to the next rising edge, for a step that is to
/// follow the one before it after `delay` ticks: what is left of the delay
/// once the pulse is over, and never less than the pulse itself.
pub open spec fn low_time(delay: u32) -> u32 {
    if delay >= 2 * SIGNAL_LENGTH {
        (delay - SIGNAL_LENGTH) as u32
    } else {
        SIGNAL_LENGTH
    }
}

/// One axis of the machine.
pub struct Stepper<'a, SD: StepDir> {
    pub axis: XYZId,
    pub step_dir_fn: SD,
    pub cycle_high: bool,
    pub timing: StepperTiming,
    pub step_iter: StepIterator<'a>,
}

impl<'a, SD: StepDir> Stepper<'a, SD> {
    /// The ramp generator is well formed.
    pub open spec fn wf(self) -> bool {
        self.step_iter.wf()
    }

    /// The axis is at its target and owes no edge.
    pub open spec fn is_on_target(self) -> bool {
        self.step_iter.target == self.step_iter.position && self.timing.next_update_time == 0
    }

    /// The axis after an edge of its step output: a rising edge starts a
    /// pulse of `SIGNAL_LENGTH` ticks; a falling edge takes the next step of
    /// the ramp and schedules its rising edge, or clears the schedule when
    /// the ramp has arrived.
    pub open spec fn after_edge(self) -> Self {
        let out = self.step_dir_fn.stepped(self.axis);
        if !self.cycle_high {
            Stepper {
                step_dir_fn: out,
                cycle_high: true,
                timing: StepperTiming {
                    next_update_time: (self.timing.next_update_time + SIGNAL_LENGTH) as u64,
                },
                ..self
            }
        } else if !self.step_iter.finished() {
            Stepper {
                step_dir_fn: out,
                cycle_high: false,
                timing: StepperTiming {
                    next_update_time: (self.timing.next_update_time + low_time(
                        self.step_iter.next_delay(),
                    )) as u64,
                },
                step_iter: self.step_iter.after_step(),
                ..self
            }
        } else {
            Stepper {
                step_dir_fn: out,
                cycle_high: false,
                timing: StepperTiming { next_update_time: 0 },
                ..self
            }
        }
    }

    /// The axis after a poll at the tick `now`: an edge when one is due,
    /// with the next event counted from `now`; the first step of the ramp,
    /// counted from `now`, when a move has not been started yet; nothing
    /// otherwise.
    pub open spec fn after_poll(self, now: u64) -> Self {
        if self.timing.next_update_time != 0 && now >= self.timing.next_update_time {
            (Stepper { timing: StepperTiming { next_update_time: now }, ..self }).after_edge()
        } else if self.timing.next_update_time == 0 && !self.step_iter.finished() {
            Stepper {
                cycle_high: false,
                timing: StepperTiming {
                    next_update_time: (now + self.step_iter.next_delay()) as u64,
                },
                step_iter: self.step_iter.after_step(),
                ..self
            }
        } else {
            self
        }
    }

    /// The axis once it has been sent to `target_step` at `speed` steps per
    /// second.
    pub open spec fn with_target(self, target_step: i32, speed: u32) -> Self
        recommends
            speed > 0,
    {
        let ramp = self.step_iter.with_target(target_step, (1_000_000u32 / speed), 0);
        Stepper {
            step_iter: ramp,
            step_dir_fn: self.step_dir_fn.directed(self.axis, ramp.direction < 0),
            ..self
        }
    }

    /// An axis at rest at position zero, with nothing scheduled.
    pub fn new(axis: XYZId, step_dir_fn: SD, acc_table: &'a [u32]) -> (r: Self)
        requires
            acc_table@.len() > 0,
        ensures
            r.axis == axis,
            r.step_dir_fn == step_dir_fn,
            !r.cycle_high,
            r.timing.next_update_time == 0,
            r.step_iter == StepIterator::at_rest(acc_table),
            r.wf(),
            r.is_on_target(),
    {
        Self {
            axis,
            step_dir_fn,
            cycle_high: false,
            timing: StepperTiming { next_update_time: 0 },
            step_iter: StepIterator::new(acc_table),
        }
    }

    /// Whether the axis is at its target and owes no edge.
    pub fn on_target(&self) -> (r: bool)
        ensures
            r == self.is_on_target(),
    {
        self.get_target() == self.get_position() && self.timing.is_uninitialized()
    }

    pub fn get_target(&self) -> (r: i32)
        ensures
            r == self.step_iter.target,
    {
        self.step_iter.target
    }

    pub fn get_position(&self) -> (r: i32)
        ensures
            r == self.step_iter.position,
    {
        self.step_iter.position
    }

    /// Sends the axis to `target_step` at `speed` steps per second and sets
    /// the direction output. A move under way is given up.
    pub fn set_target(&mut self, target_step: i32, speed: u32)
        requires
            old(self).wf(),
            speed > 0,
        ensures
            *final(self) == old(self).with_target(target_step, speed),
            final(self).wf(),
    {
        let slew_delay_us: u32 = 1_000_000 / speed;
        self.step_iter.set_target(target_step, slew_delay_us, 0);
        self.step_dir_fn.dir(self.axis, self.step_iter.direction < 0);
    }

    /// Performs one edge of the step output.
    pub fn step(&mut self)
        requires
            old(self).wf(),
            old(self).timing.next_update_time <= LAST_TICK,
        ensures
            *final(self) == old(self).after_edge(),
            final(self).wf(),
    {
        self.step_dir_fn.step(self.axis);
        if !self.cycle_high {
            self.cycle_high = true;
            self.timing.update(SIGNAL_LENGTH);
        } else {
            match self.step_iter.next() {
                Some(delay) => {
                    let rest: u32 = if delay >= 2 * SIGNAL_LENGTH {
                        delay - SIGNAL_LENGTH
                    } else {
                        SIGNAL_LENGTH
                    };
                    self.timing.update(rest);
                    self.cycle_high = false;
                },
                None => {
                    self.timing.uninit();
                    self.cycle_high = false;
                },
            }
        }
    }

    /// Advances the axis to the tick `now`, by one edge at most. An axis
    /// that is on target is left as it is and no output is touched.
    pub fn poll_task(&mut self, now: u64)
        requires
            old(self).wf(),
            now <= LAST_TICK,
        ensures
            *final(self) == old(self).after_poll(now),
            final(self).wf(),
            old(self).is_on_target() ==> *final(self) == *old(self),
    {
        if self.timing.update_needed(now) {
            self.timing.next_update_time = now;
            self.step();
        } else if self.timing.is_uninitialized() && !self.on_target() {
            self.timing.next_update_time = now;
            let first: u32 = match self.step_iter.next() {
                Some(delay) => delay,
                None => 0,
            };
            self.timing.update(first);
            self.cycle_high = false;
        }
    }
}

/// An axis that is on target stays as it is however often it is polled:
/// its position, its schedule and its outputs do not change.
pub proof fn lemma_on_target_is_stable<'a, SD: StepDir>(axis: Stepper<'a, SD>, first: u64, second: u64)
    requires
        axis.is_on_target(),
    ensures
        axis.after_poll(first) == axis,
        axis.after_poll(first).after_poll(second) == axis,
        axis.after_poll(first).is_on_target(),
{
}

/// Pulse width: whatever delay the ramp asks for, the step output stays
/// high for `SIGNAL_LENGTH` ticks at least. The poll at `now` that makes the
/// rising edge schedules the falling edge `SIGNAL_LENGTH` ticks later, and
/// a poll at any tick `early` before that leaves the axis as it is. In the
/// same way the output stays low for `SIGNAL_LENGTH` ticks at least.
pub proof fn lemma_pulse_width_floor<'a, SD: StepDir>(axis: Stepper<'a, SD>, now: u64, early: u64)
    requires
        axis.timing.next_update_time != 0,
        axis.timing.next_update_time <= now <= LAST_TICK,
        early < now + SIGNAL_LENGTH,
    ensures
        !axis.cycle_high ==>
            axis.after_poll(now).cycle_high
                && axis.after_poll(now).timing.next_update_time == now + SIGNAL_LENGTH,
        axis.cycle_high && !axis.step_iter.finished() ==> !axis.after_poll(now).cycle_high
            && axis.after_poll(now).timing.next_update_time
                == now + low_time(axis.step_iter.next_delay())
                    && axis.after_poll(now).timing.next_update_time >= now + SIGNAL_LENGTH,
        !(axis.cycle_high && axis.step_iter.finished()) ==> axis.after_poll(now).after_poll(early)
            == axis.after_poll(now),
        axis.cycle_high && axis.step_iter.finished() ==> axis.after_poll(now).is_on_target(),
{
}

/// The time between two rising edges is the delay that the ramp asks for,
/// unless that is shorter than two pulse widths.
pub proof fn lemma_low_time(delay: u32)
    ensures
        low_time(delay) >= SIGNAL_LENGTH,
        delay >= 2 * SIGNAL_LENGTH ==> SIGNAL_LENGTH + low_time(delay) == delay,
        delay < 2 * SIGNAL_LENGTH ==> SIGNAL_LENGTH + low_time(delay) == 2 * SIGNAL_LENGTH,
{
}

/// The schedule only moves forward: a poll leaves the scheduled time where
/// it is or moves it on, and clears it only on the falling edge of the last
/// step of a move.
pub proof fn lemma_schedule_moves_forward<'a, SD: StepDir>(axis: Stepper<'a, SD>, now: u64)
    requires
        axis.timing.next_update_time != 0,
        now <= LAST_TICK,
    ensures
        axis.after_poll(now).timing.next_update_time == 0 <==> now
            >= axis.timing.next_update_time && axis.cycle_high && axis.step_iter.finished(),
        axis.after_poll(now).timing.next_update_time != 0 ==>
            axis.after_poll(now).timing.next_update_time >= axis.timing.next_update_time,
{
}

} // verus!
