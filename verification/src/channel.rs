//! A bounded first-in first-out channel that hands items from a producer to
//! a consumer without ever blocking.

use vstd::prelude::*;

verus! {

/// The sending end of a bounded channel.
pub trait CanSendMut<T> {
    /// The items that wait in the channel, oldest first.
    spec fn sent(&self) -> Seq<T>;

    /// No further item can be taken in.
    spec fn is_full(&self) -> bool;

    /// Hands `item` to the channel. A full channel gives the item back and
    /// stays as it is.
    fn send_mut(&mut self, item: T) -> (r: Result<(), T>)
        ensures
            old(self).is_full() ==>
                r == Err::<(), T>(item) && final(self).sent() == old(self).sent(),
            !old(self).is_full() ==> r is Ok && final(self).sent() == old(self).sent().push(item),
    ;
}

/// The receiving end of a bounded channel.
pub trait CanRecieveMut<T> {
    /// The items that wait in the channel, oldest first.
    spec fn waiting(&self) -> Seq<T>;

    /// Takes the oldest item out of the channel, if there is one.
    fn recieve_mut(&mut self) -> (r: Option<T>)
        ensures
            old(self).waiting().len() == 0 ==>
                r is None && final(self).waiting() == old(self).waiting(),
            old(self).waiting().len() > 0 ==>
                r == Some(old(self).waiting()[0])
                    && final(self).waiting() == old(self).waiting().skip(1),
    ;
}

/// A channel that holds up to `SIZE` items.
pub struct Channel<T, const SIZE: usize> {
    buffer: Vec<T>,
}

impl<T, const SIZE: usize> View for Channel<T, SIZE> {
    type V = Seq<T>;

    closed spec fn view(&self) -> Seq<T> {
        self.buffer@
    }
}

impl<T, const SIZE: usize> Default for Channel<T, SIZE> {
    fn default() -> (r: Self)
        ensures
            r@ == Seq::<T>::empty(),
    {
        Channel { buffer: Vec::new() }
    }
}

impl<T, const SIZE: usize> CanSendMut<T> for Channel<T, SIZE> {
    open spec fn sent(&self) -> Seq<T> {
        self@
    }

    open spec fn is_full(&self) -> bool {
        self@.len() >= SIZE
    }

    fn send_mut(&mut self, item: T) -> (r: Result<(), T>) {
        if self.buffer.len() < SIZE {
            self.buffer.push(item);
            Ok(())
        } else {
            Err(item)
        }
    }
}

impl<T, const SIZE: usize> CanRecieveMut<T> for Channel<T, SIZE> {
    open spec fn waiting(&self) -> Seq<T> {
        self@
    }

    fn recieve_mut(&mut self) -> (r: Option<T>) {
        if self.buffer.len() == 0 {
            None
        } else {
            let first = self.buffer.remove(0);
            assert(self.buffer@ =~= old(self).buffer@.skip(1));
            Some(first)
        }
    }
}

} // verus!
