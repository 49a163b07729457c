//! The per-axis ramp generator: the delay before each step of a move that
//! accelerates from rest, holds the requested speed and decelerates to
//! arrive at its target.

use vstd::prelude::*;

verus! {

/// What the ramp does at one step.
#[derive(Clone, Copy, PartialEq, Eq, Structural, Debug)]
pub enum RampPhase {
    Decelerating,
    AtSpeed,
    Accelerating,
}

/// Trajectory generator of one axis over a shared table of ramp delays.
#[derive(Clone, Copy, Debug)]
pub struct StepIterator<'a> {
    pub target: i32,
    pub position: i32,
    pub direction: i8,
    pub acc_iteration: u8,
    pub acc_iteration_stop: u8,
    pub slew_delay_us: u32,
    pub acc_table: &'a [u32],
}

/// Sign of `d`: -1, 0 or 1.
pub open spec fn signum(d: int) -> int {
    if d < 0 {
        -1
    } else if d == 0 {
        0
    } else {
        1
    }
}

/// `i` is the first index of `table` whose delay is at most `limit`.
pub open spec fn is_first_at_most(table: Seq<u32>, limit: u32, i: int) -> bool {
    &&& 0 <= i < table.len()
    &&& table[i] <= limit
    &&& forall|j: int| 0 <= j < i ==> table[j] > limit
}

/// The ramp index at which a move ends that is to arrive with the delay
/// `stop_slew_us`: the first index whose delay is at most that, as far as it
/// fits in eight bits; zero where no arrival delay is asked for or the table
/// holds none that short.
pub open spec fn stop_index(table: Seq<u32>, stop_slew_us: u32) -> int {
    if stop_slew_us != 0 && exists|i: int| is_first_at_most(table, stop_slew_us, i) {
        (choose|i: int| is_first_at_most(table, stop_slew_us, i)) % 256
    } else {
        0
    }
}

impl<'a> StepIterator<'a> {
    /// The highest ramp index in use: the table's last, as far as it fits
    /// in eight bits.
    pub open spec fn top_index(self) -> int {
        if self.acc_table@.len() > 256 {
            255
        } else {
            self.acc_table@.len() - 1
        }
    }

    /// The table is not empty, the ramp index lies within it, and while the
    /// target is not reached the direction points from the position to it.
    pub open spec fn wf(self) -> bool {
        &&& self.acc_table@.len() > 0
        &&& self.acc_iteration <= self.top_index()
        &&& self.position != self.target ==> self.direction == signum(self.target - self.position)
    }

    /// No step is left to take.
    pub open spec fn finished(self) -> bool {
        self.position == self.target
    }

    /// Steps still to go once the next step is taken.
    pub open spec fn distance_after_step(self) -> int {
        let d = self.target - (self.position + self.direction);
        if d < 0 {
            -d
        } else {
            d
        }
    }

    /// The phase of the next step. Deceleration is decided first, so that a
    /// short move never runs past the point from which it can still stop.
    pub open spec fn phase(self) -> RampPhase {
        let headroom = if self.acc_iteration >= self.acc_iteration_stop {
            self.acc_iteration - self.acc_iteration_stop
        } else {
            0
        };
        if self.distance_after_step() <= headroom - 1 {
            RampPhase::Decelerating
        } else if self.acc_table@[self.acc_iteration as int] <= self.slew_delay_us {
            RampPhase::AtSpeed
        } else {
            RampPhase::Accelerating
        }
    }

    /// The ramp index after the next step.
    pub open spec fn next_index(self) -> int {
        match self.phase() {
            RampPhase::Decelerating => if self.acc_iteration == 0 {
                0
            } else {
                self.acc_iteration - 1
            },
            RampPhase::AtSpeed => self.acc_iteration as int,
            RampPhase::Accelerating => if self.acc_iteration < self.top_index() {
                self.acc_iteration + 1
            } else {
                self.top_index()
            },
        }
    }

    /// The delay before the next step.
    pub open spec fn next_delay(self) -> u32 {
        match self.phase() {
            RampPhase::Decelerating => self.acc_table@[self.next_index()],
            RampPhase::AtSpeed => self.slew_delay_us,
            RampPhase::Accelerating => self.acc_table@[self.acc_iteration as int],
        }
    }

    /// The generator after the next step.
    pub open spec fn after_step(self) -> Self {
        StepIterator {
            position: (self.position + self.direction) as i32,
            acc_iteration: self.next_index() as u8,
            ..self
        }
    }

    /// The generator once it has been given a new target.
    pub open spec fn with_target(self, target_step: i32, slew_delay_us: u32, stop_slew_us: u32) -> Self {
        StepIterator {
            target: target_step,
            direction: signum(target_step - self.position) as i8,
            slew_delay_us,
            acc_iteration_stop: stop_index(self.acc_table@, stop_slew_us) as u8,
            ..self
        }
    }

    /// The generator at rest at position zero.
    pub open spec fn at_rest(acc_table: &'a [u32]) -> Self {
        StepIterator {
            target: 0,
            position: 0,
            direction: 0,
            acc_iteration: 0,
            acc_iteration_stop: 0,
            slew_delay_us: 0,
            acc_table,
        }
    }

    /// A generator at rest at position zero.
    pub fn new(acc_table: &'a [u32]) -> (r: Self)
        requires
            acc_table@.len() > 0,
        ensures
            r == Self::at_rest(acc_table),
            r.wf(),
            r.finished(),
    {
        Self {
            target: 0,
            position: 0,
            direction: 0,
            acc_iteration: 0,
            acc_iteration_stop: 0,
            slew_delay_us: 0,
            acc_table,
        }
    }

    /// Sets a new target and the delay to hold at speed. The position and the
    /// ramp index stay, so a move under way goes on from its present speed.
    pub fn set_target(&mut self, target_step: i32, slew_delay_us: u32, stop_slew_us: u32)
        requires
            old(self).wf(),
        ensures
            *final(self) == old(self).with_target(target_step, slew_delay_us, stop_slew_us),
            final(self).wf(),
    {
        self.target = target_step;
        self.direction = if target_step < self.position {
            -1
        } else if target_step == self.position {
            0
        } else {
            1
        };
        self.slew_delay_us = slew_delay_us;
        self.acc_iteration_stop = 0;
        if stop_slew_us != 0 {
            let mut i: usize = 0;
            while i < self.acc_table.len()
                invariant
                    stop_slew_us != 0,
                    i <= self.acc_table@.len(),
                    forall|j: int| 0 <= j < i ==> self.acc_table@[j] > stop_slew_us,
                    self.acc_table == old(self).acc_table,
                    self.acc_table@.len() > 0,
                    self.acc_iteration <= self.top_index(),
                    self.acc_iteration_stop == 0,
                    self.target == target_step,
                    self.position == old(self).position,
                    self.direction == signum(target_step - old(self).position),
                    self.acc_iteration == old(self).acc_iteration,
                    self.slew_delay_us == slew_delay_us,
                decreases self.acc_table@.len() - i,
            {
                if self.acc_table[i] <= stop_slew_us {
                    assert(is_first_at_most(self.acc_table@, stop_slew_us, i as int));
                    proof {
                        let found = choose|k: int|
                            is_first_at_most(self.acc_table@, stop_slew_us, k);
                        assert(is_first_at_most(self.acc_table@, stop_slew_us, found));
                        assert(found == i);
                    }
                    self.acc_iteration_stop = (i % 256) as u8;
                    return ;
                }
                i += 1;
            }
            assert(!exists|k: int| is_first_at_most(self.acc_table@, stop_slew_us, k));
        }
    }

    /// Takes one step towards the target and returns the delay before it, or
    /// `None` once the target is reached.
    pub fn next(&mut self) -> (r: Option<u32>)
        requires
            old(self).wf(),
        ensures
            final(self).wf(),
            old(self).finished() ==> r is None && *final(self) == *old(self),
            !old(self).finished() ==>
                r == Some(old(self).next_delay()) && *final(self) == old(self).after_step(),
    {
        if self.position == self.target {
            return None;
        }
        let top: u8 = if self.acc_table.len() > 256 {
            255
        } else {
            (self.acc_table.len() - 1) as u8
        };
        self.position = self.position + self.direction as i32;
        let gap: i64 = self.target as i64 - self.position as i64;
        let distance: i64 = if gap < 0 {
            -gap
        } else {
            gap
        };
        let headroom: u8 = if self.acc_iteration >= self.acc_iteration_stop {
            self.acc_iteration - self.acc_iteration_stop
        } else {
            0
        };
        if distance <= headroom as i64 - 1 {
            if self.acc_iteration > 0 {
                self.acc_iteration = self.acc_iteration - 1;
            }
            let delay: u32 = self.acc_table[self.acc_iteration as usize];
            Some(delay)
        } else if self.acc_table[self.acc_iteration as usize] <= self.slew_delay_us {
            Some(self.slew_delay_us)
        } else {
            let delay: u32 = self.acc_table[self.acc_iteration as usize];
            if self.acc_iteration < top {
                self.acc_iteration = self.acc_iteration + 1;
            }
            Some(delay)
        }
    }
}

/// Steps that lie between the generator and its target.
pub open spec fn steps_to_go(it: StepIterator) -> int {
    if it.target >= it.position {
        it.target - it.position
    } else {
        it.position - it.target
    }
}

/// The smaller of two integers.
pub open spec fn lesser(a: int, b: int) -> int {
    if a <= b {
        a
    } else {
        b
    }
}

impl<'a> StepIterator<'a> {
    /// The delays of the next `n` steps, in the order in which they come.
    pub open spec fn delays(self, n: nat) -> Seq<u32>
        decreases n,
    {
        if n == 0 {
            Seq::empty()
        } else {
            seq![self.next_delay()] + self.after_step().delays((n - 1) as nat)
        }
    }

    /// A move of `n` steps that starts at rest, ends at rest, fits the
    /// table and never reaches the delay held at speed. An odd `n` is such a
    /// move only where it uses the whole table.
    pub open spec fn is_pure_ramp(self, n: int) -> bool {
        &&& self.wf()
        &&& self.acc_iteration == 0
        &&& self.acc_iteration_stop == 0
        &&& steps_to_go(self) == n
        &&& n <= 2 * (self.top_index() + 1)
        &&& (n % 2 == 0 || n == 2 * self.top_index() + 1)
        &&& forall|i: int| 0 <= i < (n + 1) / 2 ==> self.acc_table@[i] > self.slew_delay_us
    }
}

/// The generator `it` has taken `k` steps of a pure ramp of `n` steps.
spec fn on_ramp(it: StepIterator, n: int, k: int) -> bool {
    let middle = (n + 1) / 2;
    &&& it.wf()
    &&& it.acc_iteration_stop == 0
    &&& 0 <= k <= n
    &&& steps_to_go(it) == n - k
    &&& n <= 2 * (it.top_index() + 1)
    &&& (n % 2 == 0 || n == 2 * it.top_index() + 1)
    &&& forall|i: int| 0 <= i < middle ==> it.acc_table@[i] > it.slew_delay_us
    &&& k < middle ==> it.acc_iteration == k
    &&& k == middle ==> it.acc_iteration == lesser(k, it.top_index())
    &&& k > middle ==> it.acc_iteration == n - k
}

proof fn lemma_ramp_step(it: StepIterator, n: int, k: int)
    requires
        on_ramp(it, n, k),
        k < n,
    ensures
        it.next_delay() == it.acc_table@[lesser(k, n - 1 - k)],
        on_ramp(it.after_step(), n, k + 1),
{
    let middle = (n + 1) / 2;
    assert(it.distance_after_step() == n - k - 1);
    assert(it.after_step().acc_table == it.acc_table);
    if k < middle {
        assert(it.acc_table@[k] > it.slew_delay_us);
        assert(it.phase() == RampPhase::Accelerating);
    } else if k == middle {
        if n % 2 == 0 && middle == it.top_index() + 1 {
            assert(it.acc_table@[middle - 1] > it.slew_delay_us);
            assert(it.phase() == RampPhase::Accelerating);
        } else {
            assert(it.phase() == RampPhase::Decelerating);
        }
    } else {
        assert(it.phase() == RampPhase::Decelerating);
    }
}

proof fn lemma_ramp_tail(it: StepIterator, n: int, k: int, j: int)
    requires
        on_ramp(it, n, k),
        0 <= j < n - k,
    ensures
        it.delays((n - k) as nat).len() == n - k,
        it.delays((n - k) as nat)[j] == it.acc_table@[lesser(k + j, n - 1 - k - j)],
    decreases n - k,
{
    lemma_ramp_step(it, n, k);
    let rest = it.after_step().delays((n - k - 1) as nat);
    assert(it.delays((n - k) as nat) == seq![it.next_delay()] + rest);
    if n - k - 1 > 0 {
        lemma_ramp_tail(it.after_step(), n, k + 1, if j > 0 { j - 1 } else { 0 });
    } else {
        assert(rest.len() == 0);
    }
}

impl<'a> StepIterator<'a> {
    /// The generator after `n` steps.
    pub open spec fn after_steps(self, n: nat) -> Self
        decreases n,
    {
        if n == 0 {
            self
        } else {
            self.after_step().after_steps((n - 1) as nat)
        }
    }
}

proof fn lemma_ramp_end(it: StepIterator, n: int, k: int)
    requires
        on_ramp(it, n, k),
    ensures
        on_ramp(it.after_steps((n - k) as nat), n, n),
    decreases n - k,
{
    if k < n {
        lemma_ramp_step(it, n, k);
        lemma_ramp_end(it.after_step(), n, k + 1);
    }
}

/// A pure ramp of `n` steps ends at its target and at rest: the ramp index
/// is back at zero, so the next move starts from the slowest delay.
pub proof fn lemma_ramp_arrives_at_rest(it: StepIterator, n: int)
    requires
        it.is_pure_ramp(n),
    ensures
        it.after_steps(n as nat).finished(),
        it.after_steps(n as nat).acc_iteration == 0,
        it.after_steps(n as nat).wf(),
{
    assert(on_ramp(it, n, 0));
    lemma_ramp_end(it, n, 0);
}

/// Ramp symmetry: a pure ramp of `n` steps takes its delays from the table
/// upwards to its middle and then back down, so that the delay of step `k`
/// is the delay of step `n - 1 - k`.
pub proof fn lemma_ramp_symmetry(it: StepIterator, n: int, k: int)
    requires
        it.is_pure_ramp(n),
        0 <= k < n,
    ensures
        it.delays(n as nat)[k] == it.acc_table@[lesser(k, n - 1 - k)],
        it.delays(n as nat)[k] == it.delays(n as nat)[n - 1 - k],
{
    assert(on_ramp(it, n, 0));
    lemma_ramp_tail(it, n, 0, k);
    lemma_ramp_tail(it, n, 0, n - 1 - k);
}

} // verus!
