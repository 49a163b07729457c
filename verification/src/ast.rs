//! Parsed commands: the command word, its numbered variant and up to three
//! arguments.

use vstd::prelude::*;
use vstd::string::StringSliceAdditionalSpecFns;
use vstd::std_specs::cmp::PartialEqSpecImpl;
use arrayvec::ArrayVec;
use crate::bounded::{argument_items, arguments_clone, arguments_new, arguments_slice};

verus! {

/// The letter of a command word.
#[derive(Clone, Copy, PartialEq, Eq, Structural, Debug)]
pub enum CommandMnumonics {
    Unknown,
    G,
    M,
    N,
}

impl Default for CommandMnumonics {
    fn default() -> (r: Self)
        ensures
            r == CommandMnumonics::G,
    {
        CommandMnumonics::G
    }
}

#[derive(Debug, PartialEq, Eq, Structural)]
pub struct ParseCommandMnumonicError;

impl CommandMnumonics {
    /// The command letter that `byte` stands for.
    pub open spec fn of_byte(byte: u8) -> Option<CommandMnumonics> {
        if byte == 0x47 {
            Some(CommandMnumonics::G)
        } else if byte == 0x4d {
            Some(CommandMnumonics::M)
        } else if byte == 0x4e {
            Some(CommandMnumonics::N)
        } else {
            None
        }
    }

    /// Reads a command letter from the first byte of `text`.
    pub fn from_bytes(text: &[u8]) -> (r: Result<CommandMnumonics, ParseCommandMnumonicError>)
        ensures
            text@.len() == 0 ==> r is Err,
            text@.len() > 0 ==> match Self::of_byte(text@[0]) {
                Some(m) => r == Ok::<CommandMnumonics, ParseCommandMnumonicError>(m),
                None => r is Err,
            },
    {
        if text.len() == 0 {
            return Err(ParseCommandMnumonicError {  });
        }
        let first: u8 = text[0];
        if first == 0x47 {
            Ok(CommandMnumonics::G)
        } else if first == 0x4d {
            Ok(CommandMnumonics::M)
        } else if first == 0x4e {
            Ok(CommandMnumonics::N)
        } else {
            Err(ParseCommandMnumonicError {  })
        }
    }
}

impl core::str::FromStr for CommandMnumonics {
    type Err = ParseCommandMnumonicError;

    fn from_str(s: &str) -> (r: Result<Self, Self::Err>)
        ensures
            s.spec_bytes().len() == 0 ==> r is Err,
            s.spec_bytes().len() > 0 ==> match CommandMnumonics::of_byte(s.spec_bytes()[0]) {
                Some(m) => r == Ok::<CommandMnumonics, ParseCommandMnumonicError>(m),
                None => r is Err,
            },
    {
        CommandMnumonics::from_bytes(s.as_bytes())
    }
}

/// The letter of an argument word.
#[derive(Clone, Copy, PartialEq, Eq, Structural, Debug)]
pub enum ArgumentMnumonic {
    X,
    Y,
    Z,
    F,
    P,
    R,
}

impl Default for ArgumentMnumonic {
    fn default() -> (r: Self)
        ensures
            r == ArgumentMnumonic::X,
    {
        ArgumentMnumonic::X
    }
}

#[derive(Debug, PartialEq, Eq, Structural)]
pub struct ParseArgMnumonicError;

impl ArgumentMnumonic {
    /// The argument letter that `byte` stands for.
    pub open spec fn of_byte(byte: u8) -> Option<ArgumentMnumonic> {
        if byte == 0x58 {
            Some(ArgumentMnumonic::X)
        } else if byte == 0x59 {
            Some(ArgumentMnumonic::Y)
        } else if byte == 0x5a {
            Some(ArgumentMnumonic::Z)
        } else if byte == 0x46 {
            Some(ArgumentMnumonic::F)
        } else if byte == 0x50 {
            Some(ArgumentMnumonic::P)
        } else if byte == 0x52 {
            Some(ArgumentMnumonic::R)
        } else {
            None
        }
    }

    /// Reads an argument letter from the first byte of `text`.
    pub fn from_bytes(text: &[u8]) -> (r: Result<ArgumentMnumonic, ParseArgMnumonicError>)
        ensures
            text@.len() == 0 ==> r is Err,
            text@.len() > 0 ==> match Self::of_byte(text@[0]) {
                Some(m) => r == Ok::<ArgumentMnumonic, ParseArgMnumonicError>(m),
                None => r is Err,
            },
    {
        if text.len() == 0 {
            return Err(ParseArgMnumonicError {  });
        }
        let first: u8 = text[0];
        if first == 0x58 {
            Ok(ArgumentMnumonic::X)
        } else if first == 0x59 {
            Ok(ArgumentMnumonic::Y)
        } else if first == 0x5a {
            Ok(ArgumentMnumonic::Z)
        } else if first == 0x46 {
            Ok(ArgumentMnumonic::F)
        } else if first == 0x50 {
            Ok(ArgumentMnumonic::P)
        } else if first == 0x52 {
            Ok(ArgumentMnumonic::R)
        } else {
            Err(ParseArgMnumonicError {  })
        }
    }
}

impl core::str::FromStr for ArgumentMnumonic {
    type Err = ParseArgMnumonicError;

    fn from_str(s: &str) -> (r: Result<Self, Self::Err>)
        ensures
            s.spec_bytes().len() == 0 ==> r is Err,
            s.spec_bytes().len() > 0 ==> match ArgumentMnumonic::of_byte(s.spec_bytes()[0]) {
                Some(m) => r == Ok::<ArgumentMnumonic, ParseArgMnumonicError>(m),
                None => r is Err,
            },
    {
        ArgumentMnumonic::from_bytes(s.as_bytes())
    }
}

/// A command word: its letter and its number, such as `G92` or `G38.2`.
#[derive(Clone, Copy, PartialEq, Eq, Structural, Debug)]
pub struct CommandId {
    pub mnumonic: CommandMnumonics,
    pub major: u16,
    pub minor: u16,
}

impl Default for CommandId {
    fn default() -> (r: Self)
        ensures
            r == (CommandId { mnumonic: CommandMnumonics::G, major: 0, minor: 0 }),
    {
        CommandId { mnumonic: CommandMnumonics::G, major: 0, minor: 0 }
    }
}

/// A decimal number as it was written: the digits before the point with
/// their sign, the digits after it, and the value in millionths.
#[derive(Clone, Copy, PartialEq, Eq, Structural, Debug)]
pub struct MajorMinorNumber {
    pub major: i32,
    pub minor: u16,
    pub micros: i64,
}

impl Default for MajorMinorNumber {
    fn default() -> (r: Self)
        ensures
            r == (MajorMinorNumber { major: 0, minor: 0, micros: 0 }),
    {
        MajorMinorNumber { major: 0, minor: 0, micros: 0 }
    }
}

/// One argument of a command: its letter and its value.
#[derive(Clone, Copy, PartialEq, Eq, Structural, Debug)]
pub struct CommandArgument {
    pub mnumonic: ArgumentMnumonic,
    pub value: MajorMinorNumber,
}

impl Default for CommandArgument {
    fn default() -> (r: Self)
        ensures
            r == (CommandArgument {
                mnumonic: ArgumentMnumonic::X,
                value: MajorMinorNumber { major: 0, minor: 0, micros: 0 },
            }),
    {
        CommandArgument {
            mnumonic: ArgumentMnumonic::X,
            value: MajorMinorNumber { major: 0, minor: 0, micros: 0 },
        }
    }
}

/// A parsed command with up to three arguments.
#[derive(Debug)]
pub struct GcodeCommand {
    pub command_id: CommandId,
    pub arguments: ArrayVec<CommandArgument, 3>,
}

impl GcodeCommand {
    /// The arguments of the command, first to last.
    pub open spec fn args(self) -> Seq<CommandArgument> {
        argument_items(self.arguments)
    }
}

impl Default for GcodeCommand {
    fn default() -> (r: Self)
        ensures
            r.command_id == (CommandId { mnumonic: CommandMnumonics::G, major: 0, minor: 0 }),
            r.args() == Seq::<CommandArgument>::empty(),
    {
        GcodeCommand { command_id: CommandId::default(), arguments: arguments_new() }
    }
}

impl PartialEq for GcodeCommand {
    /// Two commands are equal if they have the same word and the same
    /// arguments in the same order.
    fn eq(&self, other: &Self) -> (r: bool) {
        let mine: &[CommandArgument] = arguments_slice(&self.arguments);
        let theirs: &[CommandArgument] = arguments_slice(&other.arguments);
        if self.command_id != other.command_id || mine.len() != theirs.len() {
            return false;
        }
        let mut i: usize = 0;
        while i < mine.len()
            invariant
                i <= mine@.len(),
                mine@.len() == theirs@.len(),
                mine@ == self.args(),
                theirs@ == other.args(),
                forall|k: int| 0 <= k < i ==> mine@[k] == theirs@[k],
            decreases mine@.len() - i,
        {
            if mine[i] != theirs[i] {
                return false;
            }
            i += 1;
        }
        assert(self.args() =~= other.args());
        true
    }
}

impl PartialEqSpecImpl for GcodeCommand {
    open spec fn obeys_eq_spec() -> bool {
        true
    }

    open spec fn eq_spec(&self, other: &Self) -> bool {
        self.command_id == other.command_id && self.args() == other.args()
    }
}

impl Clone for GcodeCommand {
    fn clone(&self) -> (r: Self)
        ensures
            r.command_id == self.command_id,
            r.args() == self.args(),
    {
        GcodeCommand { command_id: self.command_id, arguments: arguments_clone(&self.arguments) }
    }
}

} // verus!
