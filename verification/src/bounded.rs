//! The fixed-capacity vectors of the library: the arguments of a command,
//! the commands queued in the machine, the bytes of a line under way and
//! the items of a line under parsing.
//! Their contents are specified here; the vectors themselves are not
//! verified.

use vstd::prelude::*;
use arrayvec::ArrayVec;
use crate::ast::{CommandArgument, GcodeCommand};
use crate::lexer::ParseItem;

verus! {

/// `arrayvec::ArrayVec`, a vector with a fixed capacity that is stored
/// inline. Nothing is known of a value but what the functions below state.
#[verifier::external_type_specification]
#[verifier::external_body]
#[verifier::reject_recursive_types(T)]
pub struct ExArrayVec<T, const CAP: usize>(ArrayVec<T, CAP>);

/// The arguments that an argument list holds, first to last.
pub uninterp spec fn argument_items(list: ArrayVec<CommandArgument, 3>) -> Seq<CommandArgument>;

/// The commands that a command queue holds, oldest first.
pub uninterp spec fn command_items(queue: ArrayVec<GcodeCommand, 2>) -> Seq<GcodeCommand>;

/// The bytes that a line buffer holds, oldest first.
pub uninterp spec fn buffered_bytes(buffer: ArrayVec<u8, 200>) -> Seq<u8>;

/// The words and groups of a line under parsing, first to last.
pub uninterp spec fn parse_items(state: ArrayVec<ParseItem, 30>) -> Seq<ParseItem>;

/// `ArrayVec::new` for an argument list: an empty list.
#[verifier::external_body]
pub(crate) fn arguments_new() -> (list: ArrayVec<CommandArgument, 3>)
    ensures
        argument_items(list) == Seq::<CommandArgument>::empty(),
{
    ArrayVec::new()
}

/// `ArrayVec::push` on an argument list that is not full: the argument is
/// added behind those already held.
#[verifier::external_body]
pub(crate) fn arguments_push(list: &mut ArrayVec<CommandArgument, 3>, argument: CommandArgument)
    requires
        argument_items(*old(list)).len() < 3,
    ensures
        argument_items(*final(list)) == argument_items(*old(list)).push(argument),
{
    list.push(argument)
}

/// `ArrayVec::clone` on an argument list: a list that holds the same
/// arguments in the same order.
#[verifier::external_body]
pub(crate) fn arguments_clone(list: &ArrayVec<CommandArgument, 3>) -> (copy: ArrayVec<
    CommandArgument,
    3,
>)
    ensures
        argument_items(copy) == argument_items(*list),
{
    list.clone()
}

/// `ArrayVec::as_slice` on an argument list: the arguments held, first to
/// last, which the capacity of three bounds in number.
#[verifier::external_body]
pub(crate) fn arguments_slice(list: &ArrayVec<CommandArgument, 3>) -> (items: &[CommandArgument])
    ensures
        items@ == argument_items(*list),
        items@.len() <= 3,
{
    list.as_slice()
}

/// `ArrayVec::new` for a command queue: an empty queue.
#[verifier::external_body]
pub(crate) fn queue_new() -> (queue: ArrayVec<GcodeCommand, 2>)
    ensures
        command_items(queue) == Seq::<GcodeCommand>::empty(),
{
    ArrayVec::new()
}

/// `ArrayVec::push` on a command queue that is not full: the command is
/// added behind those already held.
#[verifier::external_body]
pub(crate) fn queue_push(queue: &mut ArrayVec<GcodeCommand, 2>, command: GcodeCommand)
    requires
        command_items(*old(queue)).len() < 2,
    ensures
        command_items(*final(queue)) == command_items(*old(queue)).push(command),
{
    queue.push(command)
}

/// `ArrayVec::remove` at index zero of a command queue that is not empty:
/// the oldest command leaves and the others move up.
#[verifier::external_body]
pub(crate) fn queue_remove_first(queue: &mut ArrayVec<GcodeCommand, 2>) -> (r: GcodeCommand)
    requires
        command_items(*old(queue)).len() > 0,
    ensures
        r == command_items(*old(queue))[0],
        command_items(*final(queue)) == command_items(*old(queue)).skip(1),
{
    queue.remove(0)
}

/// `ArrayVec::as_slice` on a command queue: the commands held, oldest
/// first, which the capacity of two bounds in number.
#[verifier::external_body]
pub(crate) fn queue_slice(queue: &ArrayVec<GcodeCommand, 2>) -> (items: &[GcodeCommand])
    ensures
        items@ == command_items(*queue),
        items@.len() <= 2,
{
    queue.as_slice()
}

/// `ArrayVec::new` for a line buffer: an empty buffer.
#[verifier::external_body]
pub(crate) fn bytes_new() -> (buffer: ArrayVec<u8, 200>)
    ensures
        buffered_bytes(buffer) == Seq::<u8>::empty(),
{
    ArrayVec::new()
}

/// `ArrayVec::push` on a line buffer that is not full: the byte is added
/// behind those already held.
#[verifier::external_body]
pub(crate) fn bytes_push(buffer: &mut ArrayVec<u8, 200>, byte: u8)
    requires
        buffered_bytes(*old(buffer)).len() < 200,
    ensures
        buffered_bytes(*final(buffer)) == buffered_bytes(*old(buffer)).push(byte),
{
    buffer.push(byte)
}

/// `ArrayVec::as_slice` on a line buffer: the bytes held, oldest first,
/// which the capacity of 200 bounds in number.
#[verifier::external_body]
pub(crate) fn bytes_slice(buffer: &ArrayVec<u8, 200>) -> (items: &[u8])
    ensures
        items@ == buffered_bytes(*buffer),
        items@.len() <= 200,
{
    buffer.as_slice()
}

/// `ArrayVec::drain` over the first `count` bytes of a line buffer that
/// holds that many, the drained bytes being dropped: those bytes leave and
/// the others move up.
#[verifier::external_body]
pub(crate) fn bytes_drop_front(buffer: &mut ArrayVec<u8, 200>, count: usize)
    requires
        count <= buffered_bytes(*old(buffer)).len(),
    ensures
        buffered_bytes(*final(buffer)) == buffered_bytes(*old(buffer)).skip(count as int),
{
    buffer.drain(0..count);
}

/// `ArrayVec::new` for the items of a line: no items.
#[verifier::external_body]
pub(crate) fn items_new() -> (state: ArrayVec<ParseItem, 30>)
    ensures
        parse_items(state) == Seq::<ParseItem>::empty(),
{
    ArrayVec::new()
}

/// `ArrayVec::push` on the items of a line, fewer than thirty: the item
/// is added behind those already held.
#[verifier::external_body]
pub(crate) fn items_push(state: &mut ArrayVec<ParseItem, 30>, item: ParseItem)
    requires
        parse_items(*old(state)).len() < 30,
    ensures
        parse_items(*final(state)) == parse_items(*old(state)).push(item),
{
    state.push(item)
}

/// `ArrayVec::as_slice` on the items of a line: the items held, first to
/// last, which the capacity of thirty bounds in number.
#[verifier::external_body]
pub(crate) fn items_slice(state: &ArrayVec<ParseItem, 30>) -> (items: &[ParseItem])
    ensures
        items@ == parse_items(*state),
        items@.len() <= 30,
{
    state.as_slice()
}

/// `ArrayVec::drain` over the items from `from` up to `to`, within the
/// length, the drained items being dropped: those items leave and the
/// items behind them move up.
#[verifier::external_body]
pub(crate) fn items_drain(state: &mut ArrayVec<ParseItem, 30>, from: usize, to: usize)
    requires
        from <= to <= parse_items(*old(state)).len(),
    ensures
        parse_items(*final(state)) == parse_items(*old(state)).subrange(0, from as int)
            + parse_items(*old(state)).subrange(to as int, parse_items(*old(state)).len() as int),
{
    state.drain(from..to);
}

/// `ArrayVec::as_mut_slice`, written at `index` within the length: the
/// item at `index` is replaced and the others stay.
#[verifier::external_body]
pub(crate) fn items_set(state: &mut ArrayVec<ParseItem, 30>, index: usize, item: ParseItem)
    requires
        index < parse_items(*old(state)).len(),
    ensures
        parse_items(*final(state)) == parse_items(*old(state)).update(index as int, item),
{
    state.as_mut_slice()[index] = item;
}

} // verus!
