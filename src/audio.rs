//! The volume monitor's view of the sound server's sinks.
//!
//! When the server reports that a sink changed, the monitor fetches its new
//! state and swaps it into the list with [`Sinks::switch`]; the returned
//! [`Change`] says whether the volume moved, and to what.

use vstd::prelude::*;

verus! {

/// Volume level that stands for 100%.
pub const VOLUME_NORM: u32 = 0x10000;

/// What the monitor keeps of one sink: its index and the raw volume of its
/// first channel, where [`VOLUME_NORM`] is 100%.
#[derive(Clone, Copy, Debug, PartialEq, Eq, Structural)]
pub struct Sink {
    pub index: u32,
    pub volume: u32,
}

/// A sink's state before and after an update.
#[derive(Clone, Copy, Debug, PartialEq, Eq, Structural)]
pub struct Change {
    pub old: Sink,
    pub new: Sink,
}

impl Change {
    /// Whether the update moved the volume.
    pub fn volume_changed(&self) -> (r: bool)
        ensures
            r == (self.old.volume != self.new.volume),
    {
        self.old.volume != self.new.volume
    }

    /// The new raw volume, where [`VOLUME_NORM`] is 100%.
    pub fn volume(&self) -> (r: u32)
        ensures
            r == self.new.volume,
    {
        self.new.volume
    }
}

/// Why an update could not be applied.
#[derive(Clone, Copy, Debug, PartialEq, Eq, Structural)]
pub enum SinkError {
    /// No sink with this index is known.
    NotFound(u32),
}

/// The known sinks, in the order the server listed them.
pub struct Sinks {
    list: Vec<Sink>,
}

/// Whether `i` is the first position of a sink with `index` in `s`.
pub open spec fn first_with(s: Seq<Sink>, index: u32, i: int) -> bool {
    &&& 0 <= i < s.len()
    &&& s[i].index == index
    &&& forall|j: int| 0 <= j < i ==> s[j].index != index
}

impl Sinks {
    /// The sinks, in order.
    pub closed spec fn view(&self) -> Seq<Sink> {
        self.list@
    }

    /// The sinks as the server listed them.
    pub fn new(list: Vec<Sink>) -> (r: Sinks)
        ensures
            r@ == list@,
    {
        Sinks { list }
    }

    /// How many sinks are known.
    pub fn len(&self) -> (r: usize)
        ensures
            r == self@.len(),
    {
        self.list.len()
    }

    /// Replaces the first sink with the same index as `new` by `new`, and
    /// returns its state before and after. Without such a sink, nothing
    /// changes and the index is reported as unknown.
    pub fn switch(&mut self, new: Sink) -> (r: Result<Change, SinkError>)
        ensures
            match r {
                Ok(c) => exists|i: int|
                    first_with(old(self)@, new.index, i) && c == (Change { old: old(self)@[i], new })
                        && final(self)@ == old(self)@.update(i, new),
                Err(e) => e == SinkError::NotFound(new.index) && final(self)@ == old(self)@
                    && forall|i: int| 0 <= i < old(self)@.len() ==> old(self)@[i].index != new.index,
            },
    {
        let mut i: usize = 0;
        while i < self.list.len()
            invariant
                self.list@ == old(self)@,
                0 <= i <= self.list@.len(),
                forall|j: int| 0 <= j < i ==> self.list@[j].index != new.index,
            decreases self.list@.len() - i,
        {
            if self.list[i].index == new.index {
                let before = self.list[i];
                self.list.set(i, new);
                assert(first_with(old(self)@, new.index, i as int));
                return Ok(Change { old: before, new });
            }
            i = i + 1;
        }
        Err(SinkError::NotFound(new.index))
    }
}

} // verus!
