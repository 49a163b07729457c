//! A ring of fixed size that keeps the newest bytes of a stream.

use vstd::prelude::*;

verus! {

/// A fixed-size buffer that overwrites once it is full.
#[derive(Clone)]
pub struct CircularBuffer<T, const SIZE: usize> {
    pub data: [T; SIZE],
    pub begin: usize,
    pub length: usize,
}

/// `array_init::array_init` with a function that gives `value` for every
/// index: an array whose entries all equal `value`.
#[verifier::external_body]
fn filled_array<T: Copy, const SIZE: usize>(value: T) -> (r: [T; SIZE])
    ensures
        forall|i: int| 0 <= i < SIZE ==> r@[i] == value,
{
    array_init::array_init(|_| value)
}

impl<T: Copy + Default, const SIZE: usize> Default for CircularBuffer<T, SIZE> {
    fn default() -> (r: Self)
        ensures
            r.begin == 0,
            r.length == 0,
            forall|i: int| 0 <= i < SIZE ==> call_ensures(T::default, (), #[trigger] r.data@[i]),
            forall|i: int, j: int| 0 <= i < SIZE && 0 <= j < SIZE ==> r.data@[i] == r.data@[j],
    {
        let data: [T; SIZE] = filled_array(T::default());
        Self { data, length: 0, begin: 0 }
    }
}

impl<T, const SIZE: usize> CircularBuffer<T, SIZE> {
    /// An index past the last slot falls back to the first slot.
    pub open spec fn wrapped(i: int) -> int {
        if i >= SIZE {
            0
        } else {
            i
        }
    }

    /// The start and the length lie within the buffer.
    pub open spec fn wf(self) -> bool {
        &&& SIZE > 0
        &&& self.begin < SIZE
        &&& self.length <= SIZE
        &&& 2 * SIZE <= usize::MAX
    }

    /// The slot that the next item is written to.
    pub open spec fn write_slot(self) -> int {
        Self::wrapped(self.begin + self.length)
    }

    /// The items held, oldest first.
    pub open spec fn items(self) -> Seq<T> {
        Seq::new(self.length as nat, |j: int| self.data@[(self.begin + j) % (SIZE as int)])
    }

    fn wrap_index(i: usize) -> (r: usize)
        ensures
            r == Self::wrapped(i as int),
    {
        if i >= SIZE {
            0
        } else {
            i
        }
    }

    /// Writes `data` to the write slot. A buffer that is not full grows by
    /// one; a full buffer keeps its length and moves its start on by one
    /// slot.
    pub fn push(&mut self, data: T)
        requires
            old(self).wf(),
        ensures
            final(self).data@ == old(self).data@.update(old(self).write_slot(), data),
            old(self).length == SIZE ==> final(self).length == SIZE && final(self).begin
                == Self::wrapped(old(self).begin + 1),
            old(self).length < SIZE ==>
                final(self).length == old(self).length + 1 && final(self).begin == old(self).begin,
            final(self).wf(),
    {
        let i = Self::wrap_index(self.begin + self.length);
        self.data[i] = data;
        if self.length == SIZE {
            self.begin = Self::wrap_index(self.begin + 1);
        } else {
            self.length += 1;
        }
    }

    /// The number of items held.
    pub fn length(&self) -> (r: usize)
        ensures
            r == self.length,
    {
        self.length
    }

    /// Whether no item is held.
    pub fn is_empty(&self) -> (r: bool)
        ensures
            r == (self.length == 0),
    {
        self.length == 0
    }

    /// Takes all items out, oldest first, and leaves the buffer empty.
    pub fn consume(&mut self) -> (r: Vec<T>) where T: Copy
        requires
            old(self).wf(),
        ensures
            r@ == old(self).items(),
            final(self).begin == 0,
            final(self).length == 0,
            final(self).data == old(self).data,
            final(self).wf(),
    {
        let length = self.length;
        let begin = self.begin;
        self.begin = 0;
        self.length = 0;
        let mut out: Vec<T> = Vec::new();
        let mut j: usize = 0;
        while j < length
            invariant
                j <= length <= SIZE,
                begin < SIZE,
                2 * SIZE <= usize::MAX,
                self.data == old(self).data,
                self.begin == 0,
                self.length == 0,
                begin == old(self).begin,
                length == old(self).length,
                out@.len() == j,
                forall|n: int| 0 <= n < j ==> out@[n] == old(self).items()[n],
            decreases length - j,
        {
            let slot: usize = (begin + j) % SIZE;
            out.push(self.data[slot]);
            j += 1;
        }
        assert(out@ =~= old(self).items());
        out
    }
}

} // verus!
