use stepper_motion::{
    initialize_acc_curve, AbsMode, ArgumentMnumonic, CanSendMut, Channel, CommandArgument,
    CommandId, CommandMnumonics, GcodeCommand, Machine, MajorMinorNumber, StepDir, XYZData, XYZId,
};

#[derive(Default, Clone, Copy, Debug)]
struct CounterStepper {
    pub current_step: u32,
    pub current_dir: bool,
}

impl StepDir for CounterStepper {
    fn stepped(self, _: XYZId) -> Self {
        CounterStepper { current_step: self.current_step + 1, ..self }
    }
    fn directed(self, _: XYZId, direction: bool) -> Self {
        CounterStepper { current_dir: direction, ..self }
    }
    fn step(&mut self, _: XYZId) {
        self.current_step += 1;
    }
    fn dir(&mut self, _: XYZId, direction: bool) {
        self.current_dir = direction;
    }
}

const RESOLUTION: u32 = 1;
const STEPPER_SPEED: u32 = 1000;
const STEPPER_ACC: u32 = 2000;

fn acc_curve() -> &'static [u32] {
    Vec::leak(initialize_acc_curve::<1_000_000>(STEPPER_ACC * RESOLUTION, 1000))
}

fn new_machine() -> Machine<'static, CounterStepper> {
    Machine::new(
        CounterStepper::default(),
        acc_curve(),
        XYZData { x: RESOLUTION, y: RESOLUTION, z: RESOLUTION },
        STEPPER_SPEED * RESOLUTION,
    )
}

fn number(major: i32, minor: u16, micros: i64) -> MajorMinorNumber {
    MajorMinorNumber { major, minor, micros }
}

fn whole(value: i32) -> MajorMinorNumber {
    number(value, 0, value as i64 * 1_000_000)
}

fn command(mnumonic: CommandMnumonics, major: u16, minor: u16, args: &[(ArgumentMnumonic, MajorMinorNumber)]) -> GcodeCommand {
    let mut gcode: GcodeCommand = Default::default();
    gcode.command_id = CommandId { mnumonic, major, minor };
    for (letter, value) in args {
        gcode.arguments.push(CommandArgument { mnumonic: *letter, value: *value });
    }
    gcode
}

fn axis_letter(axis: XYZId) -> ArgumentMnumonic {
    match axis {
        XYZId::X => ArgumentMnumonic::X,
        XYZId::Y => ArgumentMnumonic::Y,
        XYZId::Z => ArgumentMnumonic::Z,
    }
}

fn move_command(axis: XYZId, f: i32) -> GcodeCommand {
    command(CommandMnumonics::G, 1, 0, &[(axis_letter(axis), whole(f))])
}

fn run_until_idle(machine: &mut Machine<'static, CounterStepper>, channel: &mut Channel<GcodeCommand, 3>) -> u64 {
    let mut now: u64 = 1;
    for _ in 0..10_000_000u64 {
        machine.poll_task(channel);
        if machine.command_buffer.is_empty() {
            machine.poll_task(channel);
            if machine.command_buffer.is_empty() {
                return now;
            }
        }
        machine.step_monitor(now, XYZId::X);
        machine.step_monitor(now, XYZId::Y);
        machine.step_monitor(now, XYZId::Z);
        now += 10;
    }
    panic!("the machine did not come to rest");
}

#[test]
pub fn machine_can_init() {
    let mut gcode_channel = Channel::<GcodeCommand, 3>::default();
    let mut gcode: GcodeCommand = Default::default();
    gcode.command_id = CommandId { mnumonic: CommandMnumonics::G, major: 0, minor: 0 };
    let mut x_arg: CommandArgument = Default::default();
    x_arg.mnumonic = ArgumentMnumonic::X;
    x_arg.value.micros = 1_230_000;
    x_arg.value.major = 1;
    x_arg.value.minor = 23;
    gcode.arguments.push(x_arg);
    let _ = gcode_channel.send_mut(gcode);
    let mut machine = new_machine();
    let curve = acc_curve();
    machine.poll_task(&mut gcode_channel);
    machine.step_monitor(1, XYZId::X);
    let x_first_time = machine.steppers.x.timing.next_update_time.clone() as u32;
    assert_eq!(x_first_time, curve[0] + 1, "Straight move. First delay in acc curve.");
    assert!(!machine.steppers.x.on_target(), "Move requires movement.");
}

#[test]
pub fn machine_forward_and_back() {
    let mut gcode_channel = Channel::<GcodeCommand, 3>::default();
    let gcode_x1: GcodeCommand = move_command(XYZId::X, 1);
    let gcode_x0: GcodeCommand = move_command(XYZId::X, 0);
    let mut machine = new_machine();

    let _ = gcode_channel.send_mut(gcode_x1);
    machine.poll_task(&mut gcode_channel);
    machine.step_monitor(1, XYZId::X);
    assert!(!machine.steppers.x.on_target(), "Move requires movement. 1");
    for i in 2..100000 {
        machine.step_monitor(i * 10, XYZId::X);
        if machine.steppers.x.on_target() {
            break;
        }
    }
    assert!(machine.steppers.x.on_target(), "should be on target 10.");

    let _ = gcode_channel.send_mut(gcode_x0);
    machine.poll_task(&mut gcode_channel);
    machine.step_monitor(1, XYZId::X);
    assert!(!machine.steppers.x.on_target(), "Move requires movement. 0");
    for i in 2..100000 {
        machine.step_monitor(i * 10, XYZId::X);
        if machine.steppers.x.on_target() {
            break;
        }
    }
    assert!(machine.steppers.x.on_target(), "should be on target 0.");
}

#[test]
pub fn machine_xy() {
    let mut gcode_channel = Channel::<GcodeCommand, 3>::default();
    let mut gcode: GcodeCommand = move_command(XYZId::X, 1);
    gcode.arguments.push(move_command(XYZId::Y, 10).arguments.first().unwrap().clone());
    let mut machine = new_machine();
    let _ = gcode_channel.send_mut(gcode);
    machine.poll_task(&mut gcode_channel);
    machine.step_monitor(1, XYZId::X);
    machine.step_monitor(1, XYZId::Y);
    assert!(!machine.steppers.x.on_target(), "Move requires movement. 1");
    let mut i_x = 0;
    let mut i_y = 0;
    for i in 2..100000 {
        machine.step_monitor(i * 10, XYZId::X);
        machine.step_monitor(i * 10, XYZId::Y);
        if machine.steppers.x.on_target() {
            i_x = i;
        }
        if machine.steppers.y.on_target() {
            i_y = i;
        }
        if machine.steppers.x.on_target() && machine.steppers.y.on_target() {
            break;
        }
    }
    assert_eq!(i_x, i_y, "X and Y should end near each other.");
    assert_ne!(i_x, 0, "X should end at a non zero iteration");
    assert_ne!(i_y, 0, "Y should end at a non zero iteration");
    assert_eq!(machine.steppers.x.get_position(), 1 * RESOLUTION as i32, "XPosition");
    assert_eq!(machine.steppers.y.get_position(), 10 * RESOLUTION as i32, "YPosition");
    assert!(machine.steppers.x.on_target(), "should be on target 10.");
}

#[test]
pub fn machine_specify_feedrate() {
    let mut gcode_channel = Channel::<GcodeCommand, 3>::default();
    let mut gcode: GcodeCommand = move_command(XYZId::X, 10);
    gcode.arguments.push(CommandArgument { mnumonic: ArgumentMnumonic::F, value: whole(100) });
    let mut machine = new_machine();
    let default_feed_rate = machine.max_feed_rate.clone();
    let _ = gcode_channel.send_mut(gcode);
    assert_ne!(default_feed_rate, 100 * 60 / RESOLUTION, "Debug test assert, test feed rate should not be default.");
    machine.poll_task(&mut gcode_channel);
    machine.step_monitor(1, XYZId::X);

    assert_ne!(machine.steppers.x.get_target(), 0, "Debug test assert. Target needs to be set for feed rate.");
    assert_ne!(machine.feed_rate, default_feed_rate, "Machine feed rate should be changed.");
    assert_eq!(machine.feed_rate, 6000);
    assert_eq!(machine.steppers.x.step_iter.slew_delay_us, 1_000_000 / 6000);
}

#[test]
fn rapid_move_takes_feed_but_runs_at_highest_rate() {
    let mut machine = new_machine();
    let rapid = command(
        CommandMnumonics::G,
        0,
        0,
        &[(ArgumentMnumonic::X, whole(1)), (ArgumentMnumonic::F, whole(12))],
    );
    assert!(machine.enqueue(rapid).is_ok());
    assert_eq!(machine.feed_rate, 12 * 60);
    assert_eq!(machine.steppers.x.get_target(), 1);
    assert_eq!(machine.steppers.x.step_iter.slew_delay_us, 1_000_000 / STEPPER_SPEED);
    // the next linear move runs at the feed rate that the rapid move set
    let mut channel = Channel::<GcodeCommand, 3>::default();
    run_until_idle(&mut machine, &mut channel);
    assert!(machine.enqueue(move_command(XYZId::X, 5)).is_ok());
    assert_eq!(machine.steppers.x.step_iter.slew_delay_us, 1_000_000 / 720);
}

#[test]
fn third_command_is_rejected_and_order_is_kept() {
    let mut machine = new_machine();
    let first = move_command(XYZId::X, 3);
    let second = move_command(XYZId::Y, 4);
    let third = move_command(XYZId::Z, 5);
    assert!(machine.enqueue(first).is_ok());
    assert!(machine.enqueue(second).is_ok());
    let x_before = machine.steppers.x.step_iter;
    let back = machine.enqueue(third).unwrap_err();
    assert_eq!(back.command_id, CommandId { mnumonic: CommandMnumonics::G, major: 1, minor: 0 });
    assert_eq!(back.arguments[0].mnumonic, ArgumentMnumonic::Z);
    assert_eq!(machine.command_buffer.len(), 2);
    assert_eq!(machine.command_buffer[0].arguments[0].mnumonic, ArgumentMnumonic::X);
    assert_eq!(machine.command_buffer[1].arguments[0].mnumonic, ArgumentMnumonic::Y);
    assert_eq!(machine.steppers.x.step_iter.target, x_before.target);
    assert_eq!(machine.steppers.y.get_target(), 0);
    assert_eq!(machine.steppers.z.get_target(), 0);

    // the first command retires first, then the second is put to work
    let mut channel = Channel::<GcodeCommand, 3>::default();
    let mut now: u64 = 1;
    loop {
        machine.poll_task(&mut channel);
        if machine.command_buffer.len() != 2 {
            break;
        }
        machine.step_monitor(now, XYZId::X);
        machine.step_monitor(now, XYZId::Y);
        now += 10;
        assert_eq!(machine.steppers.y.get_position(), 0);
        assert!(now < 10_000_000);
    }
    assert_eq!(machine.steppers.x.get_position(), 3);
    assert_eq!(machine.command_buffer[0].arguments[0].mnumonic, ArgumentMnumonic::Y);
    assert_eq!(machine.steppers.y.get_target(), 4);
    run_until_idle(&mut machine, &mut channel);
    assert_eq!(machine.steppers.y.get_position(), 4);
    assert_eq!(machine.steppers.z.get_position(), 0);
}

#[test]
fn poll_leaves_the_channel_alone_while_the_queue_is_full() {
    let mut machine = new_machine();
    let mut channel = Channel::<GcodeCommand, 3>::default();
    for target in [3, 4, 5] {
        assert!(channel.send_mut(move_command(XYZId::X, target)).is_ok());
    }
    machine.poll_task(&mut channel);
    machine.poll_task(&mut channel);
    machine.poll_task(&mut channel);
    assert_eq!(machine.command_buffer.len(), 2);
    // one command is still waiting
    assert!(channel.send_mut(move_command(XYZId::X, 6)).is_ok());
    assert!(channel.send_mut(move_command(XYZId::X, 7)).is_ok());
    assert!(channel.send_mut(move_command(XYZId::X, 8)).is_err());
    run_until_idle(&mut machine, &mut channel);
    assert_eq!(machine.steppers.x.get_position(), 7);
}

#[test]
fn relative_and_absolute_modes() {
    let mut machine = new_machine();
    let mut channel = Channel::<GcodeCommand, 3>::default();
    assert!(channel.send_mut(move_command(XYZId::X, 5)).is_ok());
    run_until_idle(&mut machine, &mut channel);
    assert_eq!(machine.steppers.x.get_position(), 5);

    assert!(channel.send_mut(command(CommandMnumonics::G, 91, 0, &[])).is_ok());
    assert!(channel.send_mut(move_command(XYZId::X, -2)).is_ok());
    run_until_idle(&mut machine, &mut channel);
    assert!(machine.abs_mode == AbsMode::Relative);
    assert_eq!(machine.steppers.x.get_position(), 3);
    assert_eq!(machine.steppers.x.step_dir_fn.current_dir, true);

    assert!(channel.send_mut(command(CommandMnumonics::G, 90, 0, &[])).is_ok());
    assert!(channel.send_mut(move_command(XYZId::X, -2)).is_ok());
    run_until_idle(&mut machine, &mut channel);
    assert!(machine.abs_mode == AbsMode::Abs);
    assert_eq!(machine.steppers.x.get_position(), -2);
}

#[test]
fn home_offset_shifts_absolute_targets() {
    let mut machine = new_machine();
    let mut channel = Channel::<GcodeCommand, 3>::default();
    let offset = command(
        CommandMnumonics::G,
        92,
        0,
        &[(ArgumentMnumonic::X, whole(10)), (ArgumentMnumonic::Z, whole(-4))],
    );
    assert!(channel.send_mut(offset).is_ok());
    run_until_idle(&mut machine, &mut channel);
    assert_eq!(machine.home_offset.x, 10);
    assert_eq!(machine.home_offset.y, 0);
    assert_eq!(machine.home_offset.z, -4);
    assert_eq!(machine.steppers.x.get_position(), 0);
    let go = command(
        CommandMnumonics::G,
        1,
        0,
        &[(ArgumentMnumonic::X, whole(1)), (ArgumentMnumonic::Z, whole(1))],
    );
    assert!(channel.send_mut(go).is_ok());
    run_until_idle(&mut machine, &mut channel);
    assert_eq!(machine.steppers.x.get_position(), 11);
    assert_eq!(machine.steppers.z.get_position(), -3);
}

#[test]
fn m30_resets_feed_rate_and_other_words_do_nothing() {
    let mut machine = new_machine();
    let mut channel = Channel::<GcodeCommand, 3>::default();
    let feed_only = command(CommandMnumonics::G, 1, 0, &[(ArgumentMnumonic::F, whole(50))]);
    assert!(channel.send_mut(feed_only).is_ok());
    run_until_idle(&mut machine, &mut channel);
    assert_eq!(machine.feed_rate, 3000);
    assert_eq!(machine.steppers.x.get_target(), 0);
    assert!(channel.send_mut(command(CommandMnumonics::M, 115, 0, &[])).is_ok());
    assert!(channel.send_mut(command(CommandMnumonics::N, 1, 0, &[])).is_ok());
    assert!(channel.send_mut(command(CommandMnumonics::G, 21, 0, &[])).is_ok());
    run_until_idle(&mut machine, &mut channel);
    assert_eq!(machine.feed_rate, 3000);
    assert!(channel.send_mut(command(CommandMnumonics::M, 30, 0, &[])).is_ok());
    run_until_idle(&mut machine, &mut channel);
    assert_eq!(machine.feed_rate, STEPPER_SPEED);
}

#[test]
fn speed_is_shared_in_proportion() {
    let mut machine = new_machine();
    machine.move_command(XYZData { x: Some(3), y: Some(-4), z: None }, 1000);
    assert_eq!(machine.steppers.x.get_target(), 3);
    assert_eq!(machine.steppers.y.get_target(), -4);
    assert_eq!(machine.steppers.z.get_target(), 0);
    // length 5: 600 and 800 steps per second
    assert_eq!(machine.steppers.x.step_iter.slew_delay_us, 1_000_000 / 600);
    assert_eq!(machine.steppers.y.step_iter.slew_delay_us, 1_000_000 / 800);
    assert_eq!(machine.steppers.y.step_iter.direction, -1);
}

#[test]
fn slow_axis_gets_one_step_per_second_at_least() {
    let mut machine = new_machine();
    machine.move_command(XYZData { x: Some(1), y: Some(1000), z: None }, 5);
    assert_eq!(machine.steppers.x.step_iter.slew_delay_us, 1_000_000);
    assert_eq!(machine.steppers.y.step_iter.slew_delay_us, 1_000_000 / 5);
}

#[test]
fn empty_or_still_moves_change_nothing() {
    let mut machine = new_machine();
    machine.move_command(XYZData { x: None, y: None, z: None }, 1000);
    machine.move_command(XYZData { x: Some(7), y: None, z: None }, 0);
    machine.move_command(XYZData { x: Some(0), y: Some(0), z: None }, 1000);
    assert_eq!(machine.steppers.x.get_target(), 0);
    assert_eq!(machine.steppers.x.step_iter.slew_delay_us, 0);
    assert_eq!(machine.steppers.x.step_dir_fn.current_step, 0);
    assert!(machine.steppers.x.on_target());
}

#[test]
fn fractions_scale_with_resolution() {
    let mut machine = Machine::new(
        CounterStepper::default(),
        acc_curve(),
        XYZData { x: 80, y: 100, z: 400 },
        10_000,
    );
    let go = command(
        CommandMnumonics::G,
        1,
        0,
        &[
            (ArgumentMnumonic::X, number(1, 23, 1_230_000)),
            (ArgumentMnumonic::Y, number(0, 5, -500_000)),
            (ArgumentMnumonic::F, number(100, 0, 100_000_000)),
        ],
    );
    assert!(machine.enqueue(go).is_ok());
    assert_eq!(machine.steppers.x.get_target(), 98);
    assert_eq!(machine.steppers.y.get_target(), -50);
    assert_eq!(machine.feed_rate, 75);
}

#[test]
fn step_monitor_is_idle_without_a_command() {
    let mut machine = new_machine();
    machine.steppers.x.set_target(4, 100);
    machine.step_monitor(50, XYZId::X);
    assert_eq!(machine.steppers.x.timing.next_update_time, 0);
    assert_eq!(machine.steppers.x.get_position(), 0);
}

#[test]
fn extreme_targets_are_held_to_range() {
    let mut machine = new_machine();
    let far = command(
        CommandMnumonics::G,
        1,
        0,
        &[(ArgumentMnumonic::X, number(i32::MAX, 0, i64::MAX)), (ArgumentMnumonic::Y, number(i32::MIN, 0, i64::MIN))],
    );
    assert!(machine.enqueue(far).is_ok());
    assert_eq!(machine.steppers.x.get_target(), i32::MAX);
    assert_eq!(machine.steppers.y.get_target(), i32::MIN);
}
