use stepper_motion::{StepDir, Stepper, StepperTiming, XYZId, SIGNAL_LENGTH};

#[test]
fn timing_init_then_uninit() {
    let mut timing = StepperTiming::default();
    assert_eq!(timing.is_uninitialized(), true);
    timing.update(10);
    assert_eq!(timing.is_uninitialized(), false);
    timing.uninit();
    assert_eq!(timing.is_uninitialized(), true);
}

#[test]
fn timing_updates() {
    let mut timing = StepperTiming::default();
    assert_eq!(timing.update_needed(0), false);
    assert_eq!(timing.update_needed(1000), false);
    timing.update(110);
    assert_eq!(timing.update_needed(99), false);
    assert_eq!(timing.update_needed(100), false);
    assert_eq!(timing.update_needed(109), false);
    assert_eq!(timing.update_needed(110), true);
    assert_eq!(timing.update_needed(111), true);
}

#[test]
fn timing_updates_two_add() {
    let mut timing = StepperTiming::default();
    assert_eq!(timing.update_needed(0), false);
    assert_eq!(timing.update_needed(1000), false);
    timing.update(100);
    timing.update(10);
    assert_eq!(timing.update_needed(99), false);
    assert_eq!(timing.update_needed(100), false);
    assert_eq!(timing.update_needed(109), false);
    assert_eq!(timing.update_needed(110), true);
    assert_eq!(timing.update_needed(111), true);
}

#[derive(Default, Clone, Copy, Debug)]
struct CounterStepper {
    pub current_step: u32,
    pub current_dir: bool,
}

impl StepDir for CounterStepper {
    fn stepped(self, _: XYZId) -> Self {
        CounterStepper { current_step: self.current_step + 1, ..self }
    }
    fn directed(self, _: XYZId, direction: bool) -> Self {
        CounterStepper { current_dir: direction, ..self }
    }
    fn step(&mut self, _: XYZId) {
        self.current_step += 1;
    }
    fn dir(&mut self, _: XYZId, direction: bool) {
        self.current_dir = direction;
    }
}

static ACC_TABLE: &[u32] = &[10, 9, 8, 7, 6, 5, 4, 3, 2, 1];

#[test]
fn stepper_one_step_ever_step() {
    let mut stepper = Stepper::<CounterStepper>::new(XYZId::X, CounterStepper::default(), ACC_TABLE);
    stepper.step();
    assert_eq!(stepper.step_dir_fn.current_step, 1);
    assert_eq!(stepper.step_dir_fn.current_dir, false);
}

#[test]
fn stepper_one_step() {
    let mut stepper = Stepper::<CounterStepper>::new(XYZId::X, CounterStepper::default(), ACC_TABLE);
    assert_eq!(stepper.on_target(), true);
    stepper.set_target(1, 10_000); // 1 step every 100.
    assert_eq!(stepper.on_target(), false);
    // first check should set the first update time, but not increase step counter.
    stepper.poll_task(100); // start at 100 time.
    assert_eq!(stepper.step_dir_fn.current_step, 0);
    assert_eq!(stepper.timing.next_update_time, 200);
    assert_eq!(stepper.cycle_high, false);
    // check early, don't step
    stepper.poll_task(110);
    assert_eq!(stepper.step_dir_fn.current_step, 0);
    assert_eq!(stepper.timing.next_update_time, 200);
    assert_eq!(stepper.cycle_high, false);
    // at time for step, should not be at target because of off signal length pulse time.
    stepper.poll_task(200);
    assert_eq!(stepper.step_dir_fn.current_step, 1);
    assert_eq!(stepper.step_dir_fn.current_dir, false);
    assert_eq!(stepper.cycle_high, true);
    assert_eq!(stepper.timing.next_update_time as u32, 200 + SIGNAL_LENGTH);
    assert_eq!(stepper.on_target(), false);
    // toggle pin off, should clear time.
    stepper.poll_task(200 + SIGNAL_LENGTH as u64);
    assert_eq!(stepper.step_dir_fn.current_step, 2);
    assert_eq!(stepper.step_dir_fn.current_dir, false);
    assert_eq!(stepper.cycle_high, false);
    assert_eq!(stepper.timing.is_uninitialized(), true);
    assert_eq!(stepper.on_target(), true);
    assert_eq!(stepper.step_iter.acc_iteration, 0);
}

#[test]
fn stepper_two_steps() {
    let mut stepper = Stepper::<CounterStepper>::new(XYZId::X, CounterStepper::default(), ACC_TABLE);
    assert_eq!(stepper.on_target(), true);
    stepper.set_target(2, 10_000); // 1 step every 100.
    stepper.poll_task(100); // start at 100 time.
    stepper.poll_task(200); // first rising edge.
    stepper.poll_task(230); // first falling edge.
    stepper.poll_task(300); // second rising edge.
    stepper.poll_task(330); // second falling edge.
    assert_eq!(stepper.step_dir_fn.current_step, 4);
    assert_eq!(stepper.cycle_high, false);
    assert_eq!(stepper.on_target(), true);
    assert_eq!(stepper.timing.is_uninitialized(), true);
}

#[test]
fn stepper_faster_than_signal_length() {
    let mut stepper = Stepper::<CounterStepper>::new(XYZId::X, CounterStepper::default(), ACC_TABLE);
    assert_eq!(stepper.on_target(), true);
    stepper.set_target(2, 100_000); // 1 step every 10.
    stepper.poll_task(100);
    stepper.poll_task(100u64 + (SIGNAL_LENGTH * 1) as u64); // requested 10, bumped to 30 for signal length.
    stepper.poll_task(100u64 + (SIGNAL_LENGTH * 2) as u64); // falling edge
    stepper.poll_task(100u64 + (SIGNAL_LENGTH * 3) as u64); // last rising edge.
    stepper.poll_task(100u64 + (SIGNAL_LENGTH * 4) as u64); // falling edge
    assert_eq!(stepper.step_dir_fn.current_step, 4);
    assert_eq!(stepper.cycle_high, false);
    assert_eq!(stepper.on_target(), true);
}

#[test]
fn stepper_step_loop() {
    let mut stepper = Stepper::<CounterStepper>::new(XYZId::X, CounterStepper::default(), ACC_TABLE);
    let mut total_time = 0;
    for i in 0..10 {
        // move loop
        let target = if i % 2 == 0 { 10 } else { 0 };
        stepper.set_target(target, 100_000); // 1 step every 10.
        for _ in 0..100 {
            // poll loop
            total_time += 100;
            stepper.poll_task(total_time);
            if stepper.on_target() {
                break;
            }
        }
        assert_eq!(stepper.on_target(), true, "Should end on target.");
        assert_eq!(stepper.cycle_high, false, "Cycle should end on low (false).");
        assert_eq!(stepper.step_iter.acc_iteration, 0, "iteration should be 0 for acc dec between moves.");
        assert_eq!(stepper.timing.is_uninitialized(), true, "Time should be 0'ed between moves.");
    }
}

#[test]
fn poll_on_target_changes_nothing() {
    let mut stepper = Stepper::<CounterStepper>::new(XYZId::Y, CounterStepper::default(), ACC_TABLE);
    stepper.set_target(3, 50_000);
    let mut now = 10;
    while !stepper.on_target() {
        stepper.poll_task(now);
        now += 5;
        assert!(now < 1_000_000);
    }
    let steps = stepper.step_dir_fn.current_step;
    assert_eq!(steps, 6);
    for extra in 0..50u64 {
        stepper.poll_task(now + extra * 1000);
        assert_eq!(stepper.get_position(), 3);
        assert_eq!(stepper.step_dir_fn.current_step, steps);
        assert_eq!(stepper.timing.next_update_time, 0);
        assert_eq!(stepper.cycle_high, false);
    }
}

#[test]
fn pulse_is_never_shorter_than_signal_length() {
    // 1_000_000 steps per second asks for a delay of one tick between steps.
    let mut stepper = Stepper::<CounterStepper>::new(XYZId::X, CounterStepper::default(), &[1, 1, 1]);
    stepper.set_target(3, 1_000_000);
    stepper.poll_task(1000);
    assert_eq!(stepper.timing.next_update_time, 1001);
    stepper.poll_task(1001); // rising edge
    assert_eq!(stepper.cycle_high, true);
    assert_eq!(stepper.timing.next_update_time, 1001 + SIGNAL_LENGTH as u64);
    stepper.poll_task(1001 + SIGNAL_LENGTH as u64 - 1); // too early for the falling edge
    assert_eq!(stepper.cycle_high, true);
    stepper.poll_task(1001 + SIGNAL_LENGTH as u64); // falling edge
    assert_eq!(stepper.cycle_high, false);
    assert_eq!(stepper.timing.next_update_time, 1001 + 2 * SIGNAL_LENGTH as u64);
}

#[test]
fn set_target_writes_direction() {
    let mut stepper = Stepper::<CounterStepper>::new(XYZId::Z, CounterStepper::default(), ACC_TABLE);
    stepper.set_target(-5, 1000);
    assert_eq!(stepper.step_dir_fn.current_dir, true);
    assert_eq!(stepper.get_target(), -5);
    assert_eq!(stepper.step_iter.slew_delay_us, 1000);
    stepper.set_target(5, 250);
    assert_eq!(stepper.step_dir_fn.current_dir, false);
    assert_eq!(stepper.step_iter.slew_delay_us, 4000);
}

#[test]
fn long_delay_keeps_step_period() {
    let mut stepper = Stepper::<CounterStepper>::new(XYZId::X, CounterStepper::default(), &[500, 400]);
    stepper.set_target(2, 1); // cruise delay far above the table
    stepper.poll_task(10);
    assert_eq!(stepper.timing.next_update_time, 10 + 1_000_000);
    stepper.poll_task(1_000_010); // rising
    stepper.poll_task(1_000_040); // falling: next step 1_000_000 after the rising edge
    assert_eq!(stepper.timing.next_update_time, 2_000_010);
}

#[test]
fn late_poll_does_not_shorten_the_pulse() {
    let mut stepper = Stepper::<CounterStepper>::new(XYZId::X, CounterStepper::default(), &[1, 1, 1]);
    stepper.set_target(3, 1_000_000);
    stepper.poll_task(1000);
    assert_eq!(stepper.timing.next_update_time, 1001);
    stepper.poll_task(1025); // the rising edge comes late
    assert_eq!(stepper.cycle_high, true);
    assert_eq!(stepper.step_dir_fn.current_step, 1);
    assert_eq!(stepper.timing.next_update_time, 1025 + SIGNAL_LENGTH as u64);
    stepper.poll_task(1054);
    assert_eq!(stepper.cycle_high, true);
    assert_eq!(stepper.step_dir_fn.current_step, 1);
    stepper.poll_task(1070); // the falling edge comes late too
    assert_eq!(stepper.cycle_high, false);
    assert_eq!(stepper.step_dir_fn.current_step, 2);
    assert_eq!(stepper.timing.next_update_time, 1070 + SIGNAL_LENGTH as u64);
    stepper.poll_task(1099);
    assert_eq!(stepper.cycle_high, false);
    assert_eq!(stepper.step_dir_fn.current_step, 2);
}
