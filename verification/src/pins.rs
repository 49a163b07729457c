//! Which output lines an axis drives. The Y axis runs on two motors, so
//! its step and direction go to two lines each.

use vstd::prelude::*;
use crate::xyz::XYZId;

verus! {

/// An output line of the controller board.
#[derive(Clone, Copy, PartialEq, Eq, Structural, Debug)]
pub enum Pin {
    Led,
    XStep,
    YStep,
    ZStep,
    E0Step,
    E1Step,
    XDir,
    YDir,
    ZDir,
    E0Dir,
    E1Dir,
    XEnable,
    YEnable,
    ZEnable,
    E0Enable,
    E1Enable,
}

/// What is done to an output line.
#[derive(Clone, Copy, PartialEq, Eq, Structural, Debug)]
pub enum PinAction {
    Low,
    High,
    Toggle,
}

impl PinAction {
    /// The level that `value` stands for.
    pub open spec fn of_level(value: bool) -> PinAction {
        if value {
            PinAction::High
        } else {
            PinAction::Low
        }
    }

    /// The level that `value` stands for: high for `true`.
    pub fn from_level(value: bool) -> (r: PinAction)
        ensures
            r == Self::of_level(value),
    {
        if value {
            PinAction::High
        } else {
            PinAction::Low
        }
    }
}

impl From<bool> for PinAction {
    fn from(value: bool) -> (r: Self) {
        PinAction::from_level(value)
    }
}

impl vstd::std_specs::convert::FromSpecImpl<bool> for PinAction {
    open spec fn obeys_from_spec() -> bool {
        true
    }

    open spec fn from_spec(value: bool) -> Self {
        PinAction::of_level(value)
    }
}

/// The lines that a step of `axis` toggles.
pub open spec fn step_lines(axis: XYZId) -> Seq<(Pin, PinAction)> {
    match axis {
        XYZId::X => seq![(Pin::XStep, PinAction::Toggle)],
        XYZId::Y => seq![(Pin::YStep, PinAction::Toggle), (Pin::E0Step, PinAction::Toggle)],
        XYZId::Z => seq![(Pin::ZStep, PinAction::Toggle)],
    }
}

/// The lines that the direction of `axis` is written to, with the level.
pub open spec fn direction_lines(axis: XYZId, state: bool) -> Seq<(Pin, PinAction)> {
    match axis {
        XYZId::X => seq![(Pin::XDir, PinAction::of_level(state))],
        XYZId::Y => seq![
            (Pin::YDir, PinAction::of_level(state)),
            (Pin::E0Dir, PinAction::of_level(state)),
        ],
        XYZId::Z => seq![(Pin::ZDir, PinAction::of_level(state))],
    }
}

/// The writes that make one edge of the step signal of `axis`, in their
/// order.
pub fn step(axis: XYZId) -> (writes: Vec<(Pin, PinAction)>)
    ensures
        writes@ == step_lines(axis),
{
    let writes = match axis {
        XYZId::X => vec![(Pin::XStep, PinAction::Toggle)],
        XYZId::Y => vec![(Pin::YStep, PinAction::Toggle), (Pin::E0Step, PinAction::Toggle)],
        XYZId::Z => vec![(Pin::ZStep, PinAction::Toggle)],
    };
    assert(writes@ =~= step_lines(axis));
    writes
}

/// The writes that set the direction of `axis`, in their order.
pub fn direction(axis: XYZId, state: bool) -> (writes: Vec<(Pin, PinAction)>)
    ensures
        writes@ == direction_lines(axis, state),
{
    let level = PinAction::from_level(state);
    let writes = match axis {
        XYZId::X => vec![(Pin::XDir, level)],
        XYZId::Y => vec![(Pin::YDir, level), (Pin::E0Dir, level)],
        XYZId::Z => vec![(Pin::ZDir, level)],
    };
    assert(writes@ =~= direction_lines(axis, state));
    writes
}

} // verus!
