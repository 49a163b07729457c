//! Serial ingest: gathers received bytes to lines, parses each line and
//! hands the command on to the machine's channel.

use vstd::prelude::*;
use arrayvec::ArrayVec;
use crate::ast::GcodeCommand;
use crate::bounded::{buffered_bytes, bytes_drop_front, bytes_new, bytes_push, bytes_slice};
use crate::channel::CanSendMut;
use crate::containers::CircularBuffer;
use crate::parser::{parse_bytes, parsed, ParseUnion, TOO_MANY_WORDS};

verus! {

/// The most bytes of lines under way that are kept.
pub const INPUT_BUFFER_SIZE: usize = 200;

/// The size of the ring that the receive interrupt fills.
pub const RX_SIZE: usize = 100;

/// The state of the serial ingest: the bytes of the lines under way and a
/// parsed command that the channel has not taken yet.
pub struct Parser {
    pub to_send: Option<GcodeCommand>,
    pub input_bufer: ArrayVec<u8, 200>,
}

/// The index of the first line feed in `bytes` from `from` on, or `-1`.
pub open spec fn first_line_feed(bytes: Seq<u8>, from: int) -> int
    decreases bytes.len() - from,
{
    if from < 0 || from >= bytes.len() {
        -1
    } else if bytes[from] == 0x0a {
        from
    } else {
        first_line_feed(bytes, from + 1)
    }
}

/// What of `received` goes into a buffer that holds `held` bytes: all of it
/// as far as there is room.
pub open spec fn taken_in(held: Seq<u8>, received: Seq<u8>) -> Seq<u8> {
    if held.len() + received.len() <= INPUT_BUFFER_SIZE {
        received
    } else {
        received.take(INPUT_BUFFER_SIZE - held.len())
    }
}

impl Parser {
    /// The bytes of the lines under way.
    pub open spec fn input(self) -> Seq<u8> {
        buffered_bytes(self.input_bufer)
    }

    /// An ingest with no bytes and no command.
    pub fn new() -> (r: Self)
        ensures
            r.input() == Seq::<u8>::empty(),
            r.to_send is None,
    {
        Self { input_bufer: bytes_new(), to_send: None }
    }

    /// Moves what the ring has received into the line buffer, and offers a
    /// command that waits to `send`. Where the buffer has room and the ring
    /// holds bytes, the ring is emptied; bytes that find no room are lost.
    /// Returns whether the channel took the command, which the sender of
    /// the line is then to be told.
    pub fn read_serial<S: CanSendMut<GcodeCommand>>(
        &mut self,
        rx: &mut CircularBuffer<u8, RX_SIZE>,
        send: &mut S,
    ) -> (taken: bool)
        requires
            old(rx).wf(),
        ensures
            final(rx).wf(),
            final(rx).data == old(rx).data,
            old(self).input().len() < INPUT_BUFFER_SIZE && old(rx).length > 0 ==>
                final(self).input()
                    == old(self).input() + taken_in(old(self).input(), old(rx).items())
                && final(rx).length == 0 && final(rx).begin == 0,
            !(old(self).input().len() < INPUT_BUFFER_SIZE && old(rx).length > 0) ==>
                final(self).input() == old(self).input() && *final(rx) == *old(rx),
            taken == (old(self).to_send is Some && !old(send).is_full()),
            taken ==> final(self).to_send is None && final(send).sent() == old(send).sent().push(
                old(self).to_send->0,
            ),
            !taken ==>
                final(self).to_send == old(self).to_send && final(send).sent() == old(send).sent(),
    {
        let held: usize = bytes_slice(&self.input_bufer).len();
        if held < INPUT_BUFFER_SIZE && !rx.is_empty() {
            let received: Vec<u8> = rx.consume();
            let mut i: usize = 0;
            while i < received.len() && held + i < INPUT_BUFFER_SIZE
                invariant
                    i <= received@.len(),
                    held + i <= INPUT_BUFFER_SIZE,
                    held == old(self).input().len(),
                    self.input() == old(self).input() + received@.take(i as int),
                    self.to_send == old(self).to_send,
                decreases received@.len() - i,
            {
                bytes_push(&mut self.input_bufer, received[i]);
                proof {
                    assert(received@.take(i + 1) =~= received@.take(i as int).push(received@[i as int]));
                    assert(self.input() =~= old(self).input() + received@.take(i + 1));
                }
                i += 1;
            }
            proof {
                assert(received@.take(i as int) =~= taken_in(old(self).input(), received@));
            }
        } else {
            proof {
                assert(self.input() =~= old(self).input());
            }
        }
        match self.to_send.take() {
            Some(command) => match send.send_mut(command) {
                Ok(()) => true,
                Err(back) => {
                    self.to_send = Some(back);
                    false
                },
            },
            None => false,
        }
    }

    /// Parses the first line of the buffer, if it holds a whole line and no
    /// command waits, and takes the line out of the buffer with its line
    /// feed. A line that parses to a command leaves that command waiting.
    /// An empty line is dropped. Returns the complaint of the parser for a
    /// line that it refuses.
    pub fn parse_buffer(&mut self) -> (r: Result<(), &'static str>)
        ensures
            old(self).to_send is Some || first_line_feed(old(self).input(), 0) < 0 ==> r is Ok
                && final(self).input() == old(self).input()
                    && final(self).to_send == old(self).to_send,
            old(self).to_send is None && first_line_feed(old(self).input(), 0) >= 0 ==> {
                let nl = first_line_feed(old(self).input(), 0);
                let line = old(self).input().take(nl);
                &&& final(self).input() == old(self).input().skip(nl + 1)
                &&& r is Err <==> nl > 0 && parsed(line) is None
                &&& r is Err ==> r->Err_0 == TOO_MANY_WORDS
                &&& final(self).to_send is Some <==> nl > 0 && parsed(line) is Some
                    && parsed(line)->0 is GCodeCommand
                &&& final(self).to_send is Some ==> ParseUnion::GCodeCommand(
                    final(self).to_send->0,
                ).stands_for(parsed(line)->0)
            },
    {
        if self.to_send.is_some() {
            return Ok(());
        }
        let held: &[u8] = bytes_slice(&self.input_bufer);
        let total: usize = held.len();
        let mut nl_index: usize = 0;
        while nl_index < total && held[nl_index] != 0x0a
            invariant
                nl_index <= total,
                total == held@.len(),
                first_line_feed(held@, 0) == first_line_feed(held@, nl_index as int),
            decreases total - nl_index,
        {
            nl_index += 1;
        }
        if nl_index >= total {
            return Ok(());
        }
        let mut outcome: Result<(), &'static str> = Ok(());
        if nl_index > 0 {
            let mut line: Vec<u8> = Vec::new();
            let mut i: usize = 0;
            while i < nl_index
                invariant
                    i <= nl_index < total,
                    total == held@.len(),
                    line@ == held@.take(i as int),
                decreases nl_index - i,
            {
                line.push(held[i]);
                proof {
                    assert(line@ =~= held@.take(i + 1));
                }
                i += 1;
            }
            match parse_bytes(line.as_slice()) {
                Ok(ParseUnion::GCodeCommand(command)) => {
                    self.to_send = Some(command);
                },
                Ok(_) => {},
                Err(complaint) => {
                    outcome = Err(complaint);
                },
            }
        }
        bytes_drop_front(&mut self.input_bufer, nl_index + 1);
        outcome
    }
}

} // verus!
