//! The machine: three axes, a queue of two commands, and the decoding of a
//! command into coordinated targets and speeds for the axes.

use vstd::prelude::*;
use vstd::pervasive::cloned;
use arrayvec::ArrayVec;
use crate::ast::{ArgumentMnumonic, CommandArgument, CommandId, CommandMnumonics, GcodeCommand};
use crate::bounded::{
    argument_items, arguments_slice, command_items, queue_new, queue_push, queue_remove_first,
    queue_slice,
};
use crate::channel::CanRecieveMut;
use crate::ramp::StepIterator;
use crate::stepper::{StepDir, Stepper, LAST_TICK};
use crate::stepper_math::{nearest_sqrt, u64sqrt};
use crate::xyz::{XYZData, XYZId};

verus! {

/// Whether coordinates are absolute or relative to the present position.
#[derive(Clone, Copy, PartialEq, Eq, Structural, Debug)]
pub enum AbsMode {
    Abs,
    Relative,
}

/// What a command word asks of the machine.
#[derive(Clone, Copy, PartialEq, Eq, Structural, Debug)]
pub enum CommandKind {
    /// `G0`: a move at the highest feed rate.
    Rapid,
    /// `G1`: a move at the present feed rate.
    Linear,
    /// `G92`: sets the home offset.
    SetOffset,
    /// `G90`: absolute coordinates.
    Absolute,
    /// `G91`: relative coordinates.
    Relative,
    /// `G21`: millimetres, the only unit there is.
    Millimetres,
    /// `G20`: inches, which the machine cannot do.
    Inches,
    /// `M30`: sets the feed rate back to the highest.
    ResetFeed,
    /// Any other `M` word: taken and ignored.
    Ignored,
    /// Not a word the machine knows.
    Unrecognized,
}

/// The kind of the command word `id`.
pub open spec fn kind_of(id: CommandId) -> CommandKind {
    match id.mnumonic {
        CommandMnumonics::G => if id.major == 0 && id.minor == 0 {
            CommandKind::Rapid
        } else if id.major == 1 && id.minor == 0 {
            CommandKind::Linear
        } else if id.major == 92 {
            CommandKind::SetOffset
        } else if id.major == 90 {
            CommandKind::Absolute
        } else if id.major == 91 {
            CommandKind::Relative
        } else if id.major == 21 {
            CommandKind::Millimetres
        } else if id.major == 20 {
            CommandKind::Inches
        } else {
            CommandKind::Unrecognized
        },
        CommandMnumonics::M => if id.major == 30 {
            CommandKind::ResetFeed
        } else {
            CommandKind::Ignored
        },
        _ => CommandKind::Unrecognized,
    }
}

/// The kind of the command word `id`.
pub fn classify(id: CommandId) -> (r: CommandKind)
    ensures
        r == kind_of(id),
{
    match id.mnumonic {
        CommandMnumonics::G => if id.major == 0 && id.minor == 0 {
            CommandKind::Rapid
        } else if id.major == 1 && id.minor == 0 {
            CommandKind::Linear
        } else if id.major == 92 {
            CommandKind::SetOffset
        } else if id.major == 90 {
            CommandKind::Absolute
        } else if id.major == 91 {
            CommandKind::Relative
        } else if id.major == 21 {
            CommandKind::Millimetres
        } else if id.major == 20 {
            CommandKind::Inches
        } else {
            CommandKind::Unrecognized
        },
        CommandMnumonics::M => if id.major == 30 {
            CommandKind::ResetFeed
        } else {
            CommandKind::Ignored
        },
        _ => CommandKind::Unrecognized,
    }
}

/// `a / b`, rounded towards zero.
pub open spec fn trunc_div(a: int, b: int) -> int
    recommends
        b > 0,
{
    if a >= 0 {
        a / b
    } else {
        -((-a) / b)
    }
}

/// `v`, held to the range of `i32`.
pub open spec fn clamp_i32(v: int) -> int {
    if v < i32::MIN {
        i32::MIN as int
    } else if v > i32::MAX {
        i32::MAX as int
    } else {
        v
    }
}

/// `v`, held to the range of `u32`.
pub open spec fn clamp_u32(v: int) -> int {
    if v < 0 {
        0
    } else if v > u32::MAX {
        u32::MAX as int
    } else {
        v
    }
}

/// Steps that a coordinate of `micros` millionths of a unit stands for on
/// an axis of `resolution` steps per unit.
pub open spec fn steps_of(micros: int, resolution: int) -> int {
    clamp_i32(trunc_div(micros * resolution, 1_000_000))
}

/// The feed rate that an `F` argument of `micros` millionths stands for,
/// with `resolution` steps per unit.
pub open spec fn feed_of(micros: int, resolution: int) -> int
    recommends
        resolution > 0,
{
    clamp_u32(trunc_div(micros * 60, resolution * 1_000_000))
}

/// Steps that a coordinate of `micros` millionths of a unit stands for on
/// an axis of `resolution` steps per unit, rounded towards zero and held to
/// the range of `i32`.
pub fn scaled_steps(micros: i64, resolution: u32) -> (r: i32)
    ensures
        r == steps_of(micros as int, resolution as int),
{
    let wide: i128 = micros as i128;
    let negative: bool = wide < 0;
    let magnitude: u128 = if negative {
        (-wide) as u128
    } else {
        wide as u128
    };
    assert(magnitude * (resolution as u128) <= 0x8000_0000_0000_0000 * 0xFFFF_FFFF)
        by (nonlinear_arith)
        requires
            0 <= magnitude <= 0x8000_0000_0000_0000,
            0 <= resolution <= 0xFFFF_FFFF,
    ;
    let product: u128 = magnitude * (resolution as u128);
    let quotient: u128 = product / 1_000_000;
    proof {
        assert(micros * resolution == -(magnitude * resolution) || micros * resolution
            == magnitude * resolution) by (nonlinear_arith)
            requires
                magnitude == micros || magnitude == -micros,
        ;
        assert(negative ==> micros * resolution <= 0) by (nonlinear_arith)
            requires
                negative ==> micros < 0,
                resolution >= 0,
        ;
        assert(!negative ==> micros * resolution == magnitude * resolution) by (nonlinear_arith)
            requires
                !negative ==> micros == magnitude,
        ;
        assert(negative ==> -(micros * resolution) == magnitude * resolution) by (nonlinear_arith)
            requires
                negative ==> -micros == magnitude,
        ;
    }
    if negative {
        if quotient > 0x8000_0000 {
            i32::MIN
        } else {
            (-(quotient as i64)) as i32
        }
    } else {
        if quotient > 0x7FFF_FFFF {
            i32::MAX
        } else {
            quotient as i32
        }
    }
}

/// The feed rate that an `F` argument of `micros` millionths stands for:
/// sixty times the value, divided by the steps per unit, rounded towards
/// zero and held to the range of `u32`.
pub fn scaled_feed(micros: i64, resolution: u32) -> (r: u32)
    requires
        resolution > 0,
    ensures
        r == feed_of(micros as int, resolution as int),
{
    if micros <= 0 {
        proof {
            assert(micros * 60 <= 0);
            assert(resolution * 1_000_000 > 0);
            assert((-(micros * 60)) / (resolution * 1_000_000) >= 0) by (nonlinear_arith)
                requires
                    -(micros * 60) >= 0,
                    resolution * 1_000_000 > 0,
            ;
            if micros == 0 {
                assert(0int / (resolution * 1_000_000) == 0) by (nonlinear_arith)
                    requires
                        resolution * 1_000_000 > 0,
                ;
            }
        }
        return 0;
    }
    let numerator: u128 = (micros as u128) * 60;
    let denominator: u128 = (resolution as u128) * 1_000_000;
    let quotient: u128 = numerator / denominator;
    if quotient > 0xFFFF_FFFF {
        u32::MAX
    } else {
        quotient as u32
    }
}

/// The targets that the arguments name, in steps: for each axis the value
/// of the last argument with its letter, if there is one.
pub open spec fn targets_of(args: Seq<CommandArgument>, resolution: XYZData<u32>) -> XYZData<
    Option<i32>,
>
    decreases args.len(),
{
    if args.len() == 0 {
        XYZData { x: None, y: None, z: None }
    } else {
        let before = targets_of(args.drop_last(), resolution);
        let last = args.last();
        match XYZId::of_arg(last.mnumonic) {
            Some(XYZId::X) => XYZData {
                x: Some(steps_of(last.value.micros as int, resolution.x as int) as i32),
                ..before
            },
            Some(XYZId::Y) => XYZData {
                y: Some(steps_of(last.value.micros as int, resolution.y as int) as i32),
                ..before
            },
            Some(XYZId::Z) => XYZData {
                z: Some(steps_of(last.value.micros as int, resolution.z as int) as i32),
                ..before
            },
            None => before,
        }
    }
}

/// The feed rate that the arguments ask for: that of the first `F` argument,
/// converted with the steps per unit of the X axis.
pub open spec fn feed_argument_of(args: Seq<CommandArgument>, resolution: XYZData<u32>) -> Option<
    u32,
>
    decreases args.len(),
{
    if args.len() == 0 {
        None
    } else if args[0].mnumonic == ArgumentMnumonic::F {
        Some(feed_of(args[0].value.micros as int, resolution.x as int) as u32)
    } else {
        feed_argument_of(args.skip(1), resolution)
    }
}

/// `value` where it is given, else `fallback`.
pub open spec fn or_else<T>(value: Option<T>, fallback: T) -> T {
    match value {
        Some(v) => v,
        None => fallback,
    }
}

/// Where one axis is sent: nowhere if the command does not name it; else,
/// in absolute mode, to the named coordinate plus the home offset, and in
/// relative mode, that far from its present position. The result is held to
/// the range of `i32`.
pub open spec fn destination(mode: AbsMode, named: Option<i32>, home: i32, position: i32) -> Option<
    i32,
> {
    match named {
        None => None,
        Some(t) => match mode {
            AbsMode::Abs => Some(clamp_i32(t + home) as i32),
            AbsMode::Relative => Some(clamp_i32(t + position) as i32),
        },
    }
}

/// How far one axis has to go, with its sign.
pub open spec fn displacement(goal: Option<i32>, position: i32) -> int {
    match goal {
        None => 0,
        Some(g) => g - position,
    }
}

/// The sum of the squares of the three displacements, held to the range of
/// `u64`.
pub open spec fn squared_length(dx: int, dy: int, dz: int) -> int {
    let sum = dx * dx + dy * dy + dz * dz;
    if sum > u64::MAX {
        u64::MAX as int
    } else {
        sum
    }
}

/// The share of the speed `speed` that goes to an axis with the
/// displacement `d` in a move of the length `distance`: in proportion, and
/// one step per second at least.
pub open spec fn axis_speed(speed: u32, d: int, distance: int) -> int
    recommends
        distance > 0,
{
    let magnitude = if d < 0 {
        -d
    } else {
        d
    };
    let share = clamp_u32((speed * magnitude) / distance);
    if share == 0 {
        1
    } else {
        share
    }
}

/// The state of a machine: its axes, its settings and the commands it
/// holds, the one in work first.
pub struct MachineState<'a, SD: StepDir> {
    pub steppers: XYZData<Stepper<'a, SD>>,
    pub resolution: XYZData<u32>,
    pub max_feed_rate: u32,
    pub feed_rate: u32,
    pub home_offset: XYZData<i32>,
    pub queue: Seq<GcodeCommand>,
    pub abs_mode: AbsMode,
}

impl<'a, SD: StepDir> MachineState<'a, SD> {
    /// The axes are well formed, each axis has a resolution, at most two
    /// commands are held and none of them asks for inches.
    pub open spec fn wf(self) -> bool {
        &&& self.steppers.x.wf()
        &&& self.steppers.y.wf()
        &&& self.steppers.z.wf()
        &&& self.resolution.x > 0
        &&& self.resolution.y > 0
        &&& self.resolution.z > 0
        &&& self.queue.len() <= 2
        &&& forall|i: int|
            0 <= i < self.queue.len() ==> kind_of((#[trigger] self.queue[i]).command_id)
                != CommandKind::Inches
    }

    /// All three axes are on target.
    pub open spec fn all_on_target(self) -> bool {
        self.steppers.x.is_on_target() && self.steppers.y.is_on_target()
            && self.steppers.z.is_on_target()
    }

    /// One axis after a coordinated move has been set up: it is sent to its
    /// goal at its share of the speed if it has one and has to move, and is
    /// left alone otherwise.
    pub open spec fn moved_axis(
        axis: Stepper<'a, SD>,
        goal: Option<i32>,
        speed: u32,
        distance: int,
    ) -> Stepper<'a, SD> {
        let d = displacement(goal, axis.step_iter.position);
        if d != 0 {
            axis.with_target(goal->0, axis_speed(speed, d, distance) as u32)
        } else {
            axis
        }
    }

    /// Where each axis is sent by a move to the named targets.
    pub open spec fn goals(self, target: XYZData<Option<i32>>) -> XYZData<Option<i32>> {
        XYZData {
            x: destination(
                self.abs_mode,
                target.x,
                self.home_offset.x,
                self.steppers.x.step_iter.position,
            ),
            y: destination(
                self.abs_mode,
                target.y,
                self.home_offset.y,
                self.steppers.y.step_iter.position,
            ),
            z: destination(
                self.abs_mode,
                target.z,
                self.home_offset.z,
                self.steppers.z.step_iter.position,
            ),
        }
    }

    /// The length of the move to the named targets, in steps: the square
    /// root of the sum of the squares of the displacements, to the nearest
    /// whole number.
    pub open spec fn move_distance(self, target: XYZData<Option<i32>>) -> int {
        let goals = self.goals(target);
        nearest_sqrt(
            squared_length(
                displacement(goals.x, self.steppers.x.step_iter.position),
                displacement(goals.y, self.steppers.y.step_iter.position),
                displacement(goals.z, self.steppers.z.step_iter.position),
            ),
        )
    }

    /// The machine after a coordinated move to the named targets at `speed`
    /// has been set up. A move that names no axis, has no speed or goes
    /// nowhere changes nothing.
    pub open spec fn after_move(self, target: XYZData<Option<i32>>, speed: u32) -> Self {
        let distance = self.move_distance(target);
        let goals = self.goals(target);
        if (target.x is None && target.y is None && target.z is None) || speed == 0 || distance
            == 0 {
            self
        } else {
            MachineState {
                steppers: XYZData {
                    x: Self::moved_axis(self.steppers.x, goals.x, speed, distance),
                    y: Self::moved_axis(self.steppers.y, goals.y, speed, distance),
                    z: Self::moved_axis(self.steppers.z, goals.z, speed, distance),
                },
                ..self
            }
        }
    }

    /// The machine after `command` has been decoded and put to work.
    pub open spec fn after_decode(self, command: GcodeCommand) -> Self {
        let args = command.args();
        let named = targets_of(args, self.resolution);
        let fed = MachineState {
            feed_rate: or_else(feed_argument_of(args, self.resolution), self.feed_rate),
            ..self
        };
        match kind_of(command.command_id) {
            CommandKind::Rapid => fed.after_move(named, self.max_feed_rate),
            CommandKind::Linear => fed.after_move(named, fed.feed_rate),
            CommandKind::SetOffset => MachineState {
                home_offset: XYZData {
                    x: or_else(named.x, self.home_offset.x),
                    y: or_else(named.y, self.home_offset.y),
                    z: or_else(named.z, self.home_offset.z),
                },
                ..self
            },
            CommandKind::Absolute => MachineState { abs_mode: AbsMode::Abs, ..self },
            CommandKind::Relative => MachineState { abs_mode: AbsMode::Relative, ..self },
            CommandKind::ResetFeed => MachineState { feed_rate: self.max_feed_rate, ..self },
            _ => self,
        }
    }

    /// The machine after the command at the head of its queue, if there is
    /// one, has been decoded and put to work.
    pub open spec fn after_setup(self) -> Self {
        if self.queue.len() == 0 {
            self
        } else {
            self.after_decode(self.queue[0])
        }
    }

    /// The machine after `command` has been offered to it: a full queue
    /// leaves it unchanged; else the command joins the queue, and is put to
    /// work at once if it is the only one.
    pub open spec fn after_enqueue(self, command: GcodeCommand) -> Self {
        if self.queue.len() >= 2 {
            self
        } else {
            let queued = MachineState { queue: self.queue.push(command), ..self };
            if self.queue.len() == 0 {
                queued.after_setup()
            } else {
                queued
            }
        }
    }

    /// The machine after it has looked at its axes: when a command is in
    /// work and all axes are on target, the command leaves the queue and
    /// the next one, if any, is put to work.
    pub open spec fn after_retire(self) -> Self {
        if self.queue.len() != 0 && self.all_on_target() {
            (MachineState { queue: self.queue.skip(1), ..self }).after_setup()
        } else {
            self
        }
    }

    /// The machine after one round of its main loop in which `incoming` was
    /// taken from the command source.
    pub open spec fn after_poll(self, incoming: Option<GcodeCommand>) -> Self {
        match incoming {
            Some(command) => self.after_enqueue(command).after_retire(),
            None => self.after_retire(),
        }
    }

    /// The machine after the axis `axis` has been polled at the tick `now`:
    /// with no command in work nothing happens.
    pub open spec fn after_step_monitor(self, now: u64, axis: XYZId) -> Self {
        if self.queue.len() == 0 {
            self
        } else {
            match axis {
                XYZId::X => MachineState {
                    steppers: XYZData { x: self.steppers.x.after_poll(now), ..self.steppers },
                    ..self
                },
                XYZId::Y => MachineState {
                    steppers: XYZData { y: self.steppers.y.after_poll(now), ..self.steppers },
                    ..self
                },
                XYZId::Z => MachineState {
                    steppers: XYZData { z: self.steppers.z.after_poll(now), ..self.steppers },
                    ..self
                },
            }
        }
    }
}

/// Three axes, their settings and a queue of two commands.
pub struct Machine<'a, SD: StepDir> {
    pub steppers: XYZData<Stepper<'a, SD>>,
    pub resolution: XYZData<u32>,
    pub max_feed_rate: u32,
    pub feed_rate: u32,
    pub home_offset: XYZData<i32>,
    pub command_buffer: ArrayVec<GcodeCommand, 2>,
    pub abs_mode: AbsMode,
}

impl<'a, SD: StepDir> View for Machine<'a, SD> {
    type V = MachineState<'a, SD>;

    open spec fn view(&self) -> MachineState<'a, SD> {
        MachineState {
            steppers: self.steppers,
            resolution: self.resolution,
            max_feed_rate: self.max_feed_rate,
            feed_rate: self.feed_rate,
            home_offset: self.home_offset,
            queue: command_items(self.command_buffer),
            abs_mode: self.abs_mode,
        }
    }
}

/// Where one axis is sent; see `destination`.
fn axis_destination(mode: AbsMode, named: Option<i32>, home: i32, position: i32) -> (r: Option<i32>)
    ensures
        r == destination(mode, named, home, position),
{
    match named {
        None => None,
        Some(t) => {
            let base: i64 = match mode {
                AbsMode::Abs => home as i64,
                AbsMode::Relative => position as i64,
            };
            let sum: i64 = t as i64 + base;
            if sum < i32::MIN as i64 {
                Some(i32::MIN)
            } else if sum > i32::MAX as i64 {
                Some(i32::MAX)
            } else {
                Some(sum as i32)
            }
        },
    }
}

/// How far one axis has to go, without its sign.
fn axis_travel(goal: Option<i32>, position: i32) -> (r: u64)
    ensures
        r == displacement(goal, position) || r == -displacement(goal, position),
        r <= 0xFFFF_FFFF,
{
    match goal {
        None => 0,
        Some(g) => {
            let d: i64 = g as i64 - position as i64;
            if d < 0 {
                (-d) as u64
            } else {
                d as u64
            }
        },
    }
}

/// The share of `speed` that goes to an axis that travels `travel` steps in
/// a move of the length `distance`.
fn axis_share(speed: u32, travel: u64, distance: u64) -> (r: u32)
    requires
        distance > 0,
        travel <= 0xFFFF_FFFF,
    ensures
        r == axis_speed(speed, travel as int, distance as int),
        r == axis_speed(speed, -(travel as int), distance as int),
        r > 0,
{
    assert(speed * travel <= 0xFFFF_FFFF * 0xFFFF_FFFF) by (nonlinear_arith)
        requires
            0 <= speed <= 0xFFFF_FFFF,
            0 <= travel <= 0xFFFF_FFFF,
    ;
    let share: u64 = (speed as u64 * travel) / distance;
    if share == 0 {
        1
    } else if share > 0xFFFF_FFFF {
        u32::MAX
    } else {
        share as u32
    }
}

/// The targets that a command names, in steps.
pub fn named_targets(command: &GcodeCommand, resolution: &XYZData<u32>) -> (r: XYZData<Option<i32>>)
    ensures
        r == targets_of(command.args(), *resolution),
{
    let ghost args = command.args();
    let listed: &[CommandArgument] = arguments_slice(&command.arguments);
    let n: usize = listed.len();
    let mut target: XYZData<Option<i32>> = XYZData { x: None, y: None, z: None };
    let mut i: usize = 0;
    while i < n
        invariant
            i <= n,
            n == args.len(),
            args == argument_items(command.arguments),
            listed@ == args,
            target == targets_of(args.take(i as int), *resolution),
        decreases n - i,
    {
        let arg: CommandArgument = listed[i];
        proof {
            assert(args.take(i + 1).drop_last() =~= args.take(i as int));
            assert(args.take(i + 1).last() == arg);
        }
        match XYZId::from_arg(arg.mnumonic) {
            Some(XYZId::X) => {
                target.x = Some(scaled_steps(arg.value.micros, resolution.x));
            },
            Some(XYZId::Y) => {
                target.y = Some(scaled_steps(arg.value.micros, resolution.y));
            },
            Some(XYZId::Z) => {
                target.z = Some(scaled_steps(arg.value.micros, resolution.z));
            },
            None => {},
        }
        i += 1;
    }
    proof {
        assert(args.take(n as int) =~= args);
    }
    target
}

impl<'a, SD: StepDir> Machine<'a, SD> {
    /// A machine at rest at the origin, in absolute mode, with an empty
    /// queue, no home offset and the feed rate at its highest. Each axis
    /// gets a copy of the outputs and shares the ramp table.
    pub fn new(
        step_dir_fn: SD,
        acc_table: &'a [u32],
        resolution: XYZData<u32>,
        max_feed_rate: u32,
    ) -> (r: Self)
        requires
            acc_table@.len() > 0,
            resolution.x > 0,
            resolution.y > 0,
            resolution.z > 0,
        ensures
            r@.wf(),
            r@.queue.len() == 0,
            r.resolution == resolution,
            r.max_feed_rate == max_feed_rate,
            r.feed_rate == max_feed_rate,
            r.home_offset == (XYZData { x: 0i32, y: 0i32, z: 0i32 }),
            r.abs_mode == AbsMode::Abs,
            r@.all_on_target(),
            r.steppers.x.axis == XYZId::X,
            r.steppers.y.axis == XYZId::Y,
            r.steppers.z.axis == XYZId::Z,
            cloned(step_dir_fn, r.steppers.x.step_dir_fn),
            cloned(step_dir_fn, r.steppers.y.step_dir_fn),
            cloned(step_dir_fn, r.steppers.z.step_dir_fn),
            r.steppers.x.step_iter == StepIterator::at_rest(acc_table),
            r.steppers.y.step_iter == StepIterator::at_rest(acc_table),
            r.steppers.z.step_iter == StepIterator::at_rest(acc_table),
            !r.steppers.x.cycle_high && !r.steppers.y.cycle_high && !r.steppers.z.cycle_high,
    {
        let x = Stepper::new(XYZId::X, step_dir_fn.clone(), acc_table);
        let y = Stepper::new(XYZId::Y, step_dir_fn.clone(), acc_table);
        let z = Stepper::new(XYZId::Z, step_dir_fn.clone(), acc_table);
        Self {
            feed_rate: max_feed_rate,
            max_feed_rate,
            resolution,
            steppers: XYZData { x, y, z },
            command_buffer: queue_new(),
            home_offset: XYZData { x: 0, y: 0, z: 0 },
            abs_mode: AbsMode::Abs,
        }
    }

    /// Sets up a coordinated move to the named targets at `speed` steps per
    /// second along the path: each axis that has to move is sent to its
    /// goal at its share of the speed.
    pub fn move_command(&mut self, target: XYZData<Option<i32>>, speed: u32)
        requires
            old(self)@.wf(),
        ensures
            final(self)@ == old(self)@.after_move(target, speed),
            final(self)@.wf(),
    {
        if (target.x.is_none() && target.y.is_none() && target.z.is_none()) || speed == 0 {
            return ;
        }
        let px: i32 = self.steppers.x.get_position();
        let py: i32 = self.steppers.y.get_position();
        let pz: i32 = self.steppers.z.get_position();
        let gx = axis_destination(self.abs_mode, target.x, self.home_offset.x, px);
        let gy = axis_destination(self.abs_mode, target.y, self.home_offset.y, py);
        let gz = axis_destination(self.abs_mode, target.z, self.home_offset.z, pz);
        let tx: u64 = axis_travel(gx, px);
        let ty: u64 = axis_travel(gy, py);
        let tz: u64 = axis_travel(gz, pz);
        assert(tx * tx <= 0xFFFF_FFFF * 0xFFFF_FFFF && ty * ty <= 0xFFFF_FFFF * 0xFFFF_FFFF && tz
            * tz <= 0xFFFF_FFFF * 0xFFFF_FFFF) by (nonlinear_arith)
            requires
                0 <= tx <= 0xFFFF_FFFF,
                0 <= ty <= 0xFFFF_FFFF,
                0 <= tz <= 0xFFFF_FFFF,
        ;
        let sum: u128 = (tx as u128) * (tx as u128) + (ty as u128) * (ty as u128) + (tz as u128) * (
        tz as u128);
        let capped: u64 = if sum > u64::MAX as u128 {
            u64::MAX
        } else {
            sum as u64
        };
        proof {
            let dx = displacement(gx, px);
            let dy = displacement(gy, py);
            let dz = displacement(gz, pz);
            assert(tx * tx == dx * dx) by (nonlinear_arith)
                requires
                    tx == dx || tx == -dx,
            ;
            assert(ty * ty == dy * dy) by (nonlinear_arith)
                requires
                    ty == dy || ty == -dy,
            ;
            assert(tz * tz == dz * dz) by (nonlinear_arith)
                requires
                    tz == dz || tz == -dz,
            ;
            assert(capped == squared_length(dx, dy, dz));
        }
        let distance: u64 = u64sqrt(capped);
        assert(distance == old(self)@.move_distance(target));
        if distance == 0 {
            return ;
        }
        if tx != 0 {
            let goal: i32 = gx.unwrap();
            self.steppers.x.set_target(goal, axis_share(speed, tx, distance));
        }
        if ty != 0 {
            let goal: i32 = gy.unwrap();
            self.steppers.y.set_target(goal, axis_share(speed, ty, distance));
        }
        if tz != 0 {
            let goal: i32 = gz.unwrap();
            self.steppers.z.set_target(goal, axis_share(speed, tz, distance));
        }
    }

    /// The feed rate that a command asks for, if it has an `F` argument.
    pub fn feed_argument(args: &GcodeCommand, resolution: &XYZData<u32>) -> (r: Option<u32>)
        requires
            resolution.x > 0,
        ensures
            r == feed_argument_of(args.args(), *resolution),
    {
        let ghost items = args.args();
        let listed: &[CommandArgument] = arguments_slice(&args.arguments);
        let n: usize = listed.len();
        let mut i: usize = 0;
        proof {
            assert(items.skip(0) =~= items);
        }
        while i < n
            invariant
                i <= n,
                n == items.len(),
                items == argument_items(args.arguments),
                listed@ == items,
                resolution.x > 0,
                feed_argument_of(items, *resolution) == feed_argument_of(
                    items.skip(i as int),
                    *resolution,
                ),
            decreases n - i,
        {
            let arg: CommandArgument = listed[i];
            proof {
                assert(items.skip(i as int)[0] == arg);
                assert(items.skip(i as int).skip(1) =~= items.skip(i + 1));
            }
            if arg.mnumonic == ArgumentMnumonic::F {
                return Some(scaled_feed(arg.value.micros, resolution.x));
            }
            i += 1;
        }
        None
    }

    /// Decodes the command at the head of the queue, if there is one, and
    /// puts it to work.
    pub fn setup_next_target(&mut self)
        requires
            old(self)@.wf(),
        ensures
            final(self)@ == old(self)@.after_setup(),
            final(self)@.wf(),
    {
        let queued: &[GcodeCommand] = queue_slice(&self.command_buffer);
        if queued.len() == 0 {
            return ;
        }
        let command: &GcodeCommand = &queued[0];
        let kind: CommandKind = classify(command.command_id);
        let named: XYZData<Option<i32>> = named_targets(command, &self.resolution);
        let feed: Option<u32> = Self::feed_argument(command, &self.resolution);
        match kind {
            CommandKind::Rapid => {
                if let Some(f) = feed {
                    self.feed_rate = f;
                }
                let speed: u32 = self.max_feed_rate;
                self.move_command(named, speed);
            },
            CommandKind::Linear => {
                if let Some(f) = feed {
                    self.feed_rate = f;
                }
                let speed: u32 = self.feed_rate;
                self.move_command(named, speed);
            },
            CommandKind::SetOffset => {
                if let Some(x) = named.x {
                    self.home_offset.x = x;
                }
                if let Some(y) = named.y {
                    self.home_offset.y = y;
                }
                if let Some(z) = named.z {
                    self.home_offset.z = z;
                }
            },
            CommandKind::Absolute => {
                self.abs_mode = AbsMode::Abs;
            },
            CommandKind::Relative => {
                self.abs_mode = AbsMode::Relative;
            },
            CommandKind::ResetFeed => {
                self.feed_rate = self.max_feed_rate;
            },
            _ => {},
        }
    }

    /// Offers `command` to the queue. A queue that holds two commands gives
    /// it back and nothing changes; else the command is queued, and put to
    /// work at once if it is the only one.
    pub fn enqueue(&mut self, command: GcodeCommand) -> (r: Result<(), GcodeCommand>)
        requires
            old(self)@.wf(),
            kind_of(command.command_id) != CommandKind::Inches,
        ensures
            old(self)@.queue.len() >= 2 ==> r == Err::<(), GcodeCommand>(command) && *final(self)
                == *old(self),
            old(self)@.queue.len() < 2 ==> r is Ok,
            final(self)@ == old(self)@.after_enqueue(command),
            final(self)@.wf(),
    {
        if queue_slice(&self.command_buffer).len() >= 2 {
            return Err(command);
        }
        queue_push(&mut self.command_buffer, command);
        if queue_slice(&self.command_buffer).len() == 1 {
            self.setup_next_target();
        }
        Ok(())
    }

    /// Whether all three axes are on target.
    pub fn all_on_target(&self) -> (r: bool)
        ensures
            r == self@.all_on_target(),
    {
        self.steppers.x.on_target() && self.steppers.y.on_target() && self.steppers.z.on_target()
    }

    /// One round of the main loop: takes a command from `reciever` if the
    /// queue has room for it, then retires the command in work once all axes
    /// are on target and puts the next one to work.
    pub fn poll_task<R: CanRecieveMut<GcodeCommand>>(&mut self, reciever: &mut R)
        requires
            old(self)@.wf(),
            old(reciever).waiting().len() > 0 ==> kind_of(old(reciever).waiting()[0].command_id)
                != CommandKind::Inches,
        ensures
            final(self)@.wf(),
            old(self)@.queue.len() >= 2 ==> *final(reciever) == *old(reciever) && final(self)@
                == old(self)@.after_poll(None),
            old(self)@.queue.len() < 2 && old(reciever).waiting().len() == 0 ==>
                final(reciever).waiting() == old(reciever).waiting()
                    && final(self)@ == old(self)@.after_poll(None),
            old(self)@.queue.len() < 2 && old(reciever).waiting().len() > 0 ==>
                final(reciever).waiting() == old(reciever).waiting().skip(1)
                    && final(self)@ == old(self)@.after_poll(Some(old(reciever).waiting()[0])),
    {
        if queue_slice(&self.command_buffer).len() < 2 {
            match reciever.recieve_mut() {
                Some(next) => {
                    let _ = self.enqueue(next);
                },
                None => {},
            }
        }
        if queue_slice(&self.command_buffer).len() != 0 && self.all_on_target() {
            let _ = queue_remove_first(&mut self.command_buffer);
            self.setup_next_target();
        }
    }

    /// The timer's part: polls the one axis `axis` at the tick `now` while a
    /// command is in work.
    pub fn step_monitor(&mut self, now: u64, axis: XYZId)
        requires
            old(self)@.wf(),
            now <= LAST_TICK,
        ensures
            final(self)@ == old(self)@.after_step_monitor(now, axis),
            final(self)@.wf(),
    {
        if queue_slice(&self.command_buffer).len() != 0 {
            match axis {
                XYZId::X => self.steppers.x.poll_task(now),
                XYZId::Y => self.steppers.y.poll_task(now),
                XYZId::Z => self.steppers.z.poll_task(now),
            }
        }
    }
}

/// Queue capacity: a command that is offered to a machine that holds two
/// commands changes nothing, neither the two commands nor the axes.
pub proof fn lemma_full_queue_rejects<'a, SD: StepDir>(
    state: MachineState<'a, SD>,
    command: GcodeCommand,
)
    requires
        state.queue.len() == 2,
    ensures
        state.after_enqueue(command) == state,
        state.after_enqueue(command).queue[0] == state.queue[0],
        state.after_enqueue(command).queue[1] == state.queue[1],
{
}

/// Commands retire in the order in which they came: when the command in
/// work retires, the one that was queued behind it is the one put to work.
pub proof fn lemma_retire_in_order<'a, SD: StepDir>(state: MachineState<'a, SD>)
    requires
        state.queue.len() == 2,
        state.all_on_target(),
    ensures
        state.after_retire()
            == (MachineState { queue: seq![state.queue[1]], ..state }).after_decode(state.queue[1]),
        state.after_retire().queue == seq![state.queue[1]],
{
    let rest = MachineState { queue: state.queue.skip(1), ..state };
    assert(state.queue.skip(1) =~= seq![state.queue[1]]);
    lemma_decode_keeps_queue(rest, rest.queue[0]);
}

/// Putting a command to work leaves the queue and the settings of the
/// resolution and the highest feed rate as they are.
pub proof fn lemma_decode_keeps_queue<'a, SD: StepDir>(
    state: MachineState<'a, SD>,
    command: GcodeCommand,
)
    ensures
        state.after_decode(command).queue == state.queue,
        state.after_decode(command).resolution == state.resolution,
        state.after_decode(command).max_feed_rate == state.max_feed_rate,
{
}

/// A machine with nothing in work does not move: the timer's polls leave
/// it as it is.
pub proof fn lemma_idle_machine_is_stable<'a, SD: StepDir>(
    state: MachineState<'a, SD>,
    now: u64,
    axis: XYZId,
)
    requires
        state.queue.len() == 0 || state.all_on_target(),
    ensures
        state.after_step_monitor(now, axis) == state,
{
}

} // verus!
