//! Real-time multi-axis stepper motion engine: integer ramp generation,
//! pulse timing, per-axis control and the coordinating machine.

pub mod xyz;
pub mod ast;
pub mod bounded;
pub mod channel;
pub mod containers;
pub mod util;
pub mod stepper_math;
pub mod ramp;
pub mod stepper;
pub mod machine;
pub mod lexer;
pub mod parser;
pub mod gcode_parser;
pub mod pins;
pub mod schedule;

pub use crate::xyz::{XYZData, XYZId, XYZOne};
pub use crate::stepper_math::{
    first_step_delay, initialize_acc_curve, inter_step_acc_delay, inter_step_dec_delay, u32sqrt,
    u64sqrt,
};
pub use crate::ramp::{RampPhase, StepIterator};
pub use crate::stepper::{Speed, StepDir, Stepper, StepperTiming, LAST_TICK, SIGNAL_LENGTH};
pub use crate::ast::{
    ArgumentMnumonic, CommandArgument, CommandId, CommandMnumonics, GcodeCommand, MajorMinorNumber,
    ParseArgMnumonicError, ParseCommandMnumonicError,
};
pub use crate::bounded::{argument_items, buffered_bytes, command_items};
pub use crate::gcode_parser::{Parser, INPUT_BUFFER_SIZE, RX_SIZE};
pub use crate::channel::{CanRecieveMut, CanSendMut, Channel};
pub use crate::containers::CircularBuffer;
pub use crate::util::{count_iter, search_pattern, starts_with};
pub use crate::machine::{AbsMode, CommandKind, Machine, MachineState};
pub use crate::lexer::{lex, lex_words, LexResult, ParseItem, ParseTypeId};
pub use crate::parser::{parse, parse_bytes, ParseUnion};
pub use crate::pins::{direction, step, Pin, PinAction};
pub use crate::schedule::{AxisSlot, PollCounter};
