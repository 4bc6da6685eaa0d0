//! Signal driving: the current value of each simulated interface signal
//! the emulator can read or assert.
//!
//! A signal is a fixed-width value identified by the index under which it
//! was declared. Reads always return the last committed value; writes are
//! staged and become visible only when the whole batch is committed at the
//! drive phase, so the emulator can never observe its own not-yet-driven
//! output within the same step.

use vstd::prelude::*;
use vstd::pervasive::VecAdditionalExecFns;

verus! {

/// A value fits a signal of `width` bits when its high bits are clear.
/// A width of 64 admits every `u64` value.
pub open spec fn fits(value: u64, width: u64) -> bool {
    width >= 64 || value < (1u64 << width)
}

/// Owns the committed and staged value of every declared signal.
pub struct SignalDriver {
    /// Declared bit width of each signal, by signal index.
    pub widths: Vec<u64>,
    /// Last committed value of each signal: what `read` returns.
    pub committed: Vec<u64>,
    /// Value staged for the next commit, if any, for each signal.
    pub staged: Vec<Option<u64>>,
}

impl SignalDriver {
    /// Well-formed: one width, one committed value and one staging slot
    /// per signal; every held value fits its signal's declared width.
    pub open spec fn wf(&self) -> bool {
        &&& self.committed@.len() == self.widths@.len()
        &&& self.staged@.len() == self.widths@.len()
        &&& forall|i: int|
            0 <= i < self.widths@.len() ==> fits(self.committed@[i], self.widths@[i])
        &&& forall|i: int|
            0 <= i < self.widths@.len() ==> (#[trigger] self.staged@[i] matches Some(v) ==> fits(
                v,
                self.widths@[i],
            ))
    }

    /// No write is pending: every staging slot is empty.
    pub open spec fn nothing_staged(&self) -> bool {
        forall|i: int| 0 <= i < self.staged@.len() ==> self.staged@[i] is None
    }

    /// How many signals have been declared.
    pub open spec fn spec_len(&self) -> nat {
        self.widths@.len()
    }

    /// An empty driver: no signals declared yet.
    pub fn new() -> (driver: SignalDriver)
        ensures
            driver.wf(),
            driver.spec_len() == 0,
            driver.nothing_staged(),
    {
        SignalDriver { widths: Vec::new(), committed: Vec::new(), staged: Vec::new() }
    }

    /// Declares one more signal of the given width, initialised to zero,
    /// and returns its index.
    pub fn declare_signal(&mut self, width: u64) -> (id: usize)
        requires
            old(self).wf(),
            1 <= width <= 64,
        ensures
            final(self).wf(),
            id == old(self).spec_len(),
            final(self).widths@ == old(self).widths@.push(width),
            final(self).committed@ == old(self).committed@.push(0u64),
            final(self).staged@ == old(self).staged@.push(None::<u64>),
    {
        let id = self.widths.len();
        proof {
            if width < 64 {
                assert(0u64 < (1u64 << width)) by (bit_vector)
                    requires
                        width < 64,
                ;
            }
        }
        self.widths.push(width);
        self.committed.push(0);
        self.staged.push(None);
        id
    }

    /// How many signals have been declared.
    pub fn signal_count(&self) -> (count: usize)
        ensures
            count == self.spec_len(),
    {
        self.widths.len()
    }

    /// Whether a signal with this index has been declared. Every other
    /// operation demands a declared index: an unknown identifier is a
    /// programming error, not a recoverable condition.
    pub fn has_signal(&self, id: usize) -> (known: bool)
        ensures
            known == (id < self.spec_len()),
    {
        id < self.widths.len()
    }

    /// The declared width of a signal.
    pub fn width_of(&self, id: usize) -> (width: u64)
        requires
            self.wf(),
            id < self.spec_len(),
        ensures
            width == self.widths@[id as int],
    {
        self.widths[id]
    }

    /// Whether a value fits the declared width of a signal.
    pub fn value_fits(&self, id: usize, value: u64) -> (ok: bool)
        requires
            self.wf(),
            id < self.spec_len(),
        ensures
            ok == fits(value, self.widths@[id as int]),
    {
        let width = self.widths[id];
        width >= 64 || value < (1u64 << width)
    }

    /// Reads the last committed value of a signal. A staged write is never
    /// visible here: only `commit` makes it so.
    pub fn read(&self, id: usize) -> (value: u64)
        requires
            self.wf(),
            id < self.spec_len(),
        ensures
            value == self.committed@[id as int],
    {
        self.committed[id]
    }

    /// Reads the committed value of every signal, in declaration order.
    pub fn sample_all(&self) -> (values: Vec<u64>)
        requires
            self.wf(),
        ensures
            values@ == self.committed@,
    {
        let mut values: Vec<u64> = Vec::new();
        let count = self.committed.len();
        for i in 0..count
            invariant
                count == self.committed@.len(),
                values@ == self.committed@.take(i as int),
        {
            values.push(self.committed[i]);
            proof {
                assert(values@ =~= self.committed@.take(i as int + 1));
            }
        }
        proof {
            assert(values@ =~= self.committed@);
        }
        values
    }

    /// Stages a value for a signal, to become visible at the next commit.
    /// A later staged write to the same signal overwrites an earlier one:
    /// last write wins, nothing is queued. Committed values are untouched.
    pub fn write(&mut self, id: usize, value: u64)
        requires
            old(self).wf(),
            id < old(self).spec_len(),
            fits(value, old(self).widths@[id as int]),
        ensures
            final(self).wf(),
            final(self).widths@ == old(self).widths@,
            final(self).committed@ == old(self).committed@,
            final(self).staged@ == old(self).staged@.update(id as int, Some(value)),
    {
        self.staged.set(id, Some(value));
    }

    /// Commits every staged write: each staged value replaces the committed
    /// value of its signal, every other committed value is kept, and all
    /// staging slots are cleared.
    pub fn commit(&mut self)
        requires
            old(self).wf(),
        ensures
            final(self).wf(),
            final(self).nothing_staged(),
            final(self).widths@ == old(self).widths@,
            final(self).committed@.len() == old(self).committed@.len(),
            forall|i: int|
                0 <= i < old(self).committed@.len() ==> final(self).committed@[i] == (match old(
                    self,
                ).staged@[i] {
                    Some(v) => v,
                    None => old(self).committed@[i],
                }),
    {
        let ghost orig = *self;
        let count = self.staged.len();
        for i in 0..count
            invariant
                self.wf(),
                count == orig.staged@.len(),
                self.widths@ == orig.widths@,
                self.committed@.len() == orig.committed@.len(),
                self.staged@.len() == orig.staged@.len(),
                forall|k: int| 0 <= k < i ==> self.staged@[k] is None,
                forall|k: int| i <= k < count ==> self.staged@[k] == orig.staged@[k],
                forall|k: int|
                    0 <= k < i ==> self.committed@[k] == (match orig.staged@[k] {
                        Some(v) => v,
                        None => orig.committed@[k],
                    }),
                forall|k: int| i <= k < count ==> self.committed@[k] == orig.committed@[k],
        {
            match self.staged[i] {
                Some(value) => {
                    self.committed.set(i, value);
                    self.staged.set(i, None);
                },
                None => {},
            }
        }
    }
}

} // verus!
