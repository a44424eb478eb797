//! The progress registry: the accounting model of the shared rendering
//! surface. It owns one record per registered display — its expected total
//! and its position — and grows only; a display is never removed or
//! reordered, so a handle stays valid until the process exits. Rendering
//! itself happens outside the library; the renderer mirrors exactly the
//! registrations and advances recorded here.
use vstd::prelude::*;

verus! {

/// A handle to one registered progress display.
#[derive(Clone, Copy, Debug, PartialEq, Eq, Structural)]
pub struct ProgressHandle {
    pub id: usize,
}

/// The registry of progress displays: for each one, the expected total it
/// was registered with and the bytes it has been advanced by.
#[derive(Debug)]
pub struct ProgressRegistry {
    totals: Vec<u64>,
    positions: Vec<u64>,
}

impl ProgressRegistry {
    /// The expected totals, one per registered display, in registration order.
    pub closed spec fn totals(&self) -> Seq<u64> {
        self.totals@
    }

    /// The positions, one per registered display, in registration order.
    pub closed spec fn positions(&self) -> Seq<u64> {
        self.positions@
    }

    /// Every display has both a total and a position.
    pub open spec fn wf(&self) -> bool {
        self.totals().len() == self.positions().len()
    }

    /// How many displays have been registered.
    pub open spec fn spec_count(&self) -> nat {
        self.totals().len()
    }

    /// An empty registry.
    pub fn new() -> (r: Self)
        ensures
            r.wf(),
            r.spec_count() == 0,
    {
        ProgressRegistry { totals: Vec::new(), positions: Vec::new() }
    }

    /// How many displays have been registered.
    pub fn count(&self) -> (r: usize)
        requires
            self.wf(),
        ensures
            r == self.spec_count(),
    {
        self.totals.len()
    }

    /// Register one new display with the given expected total. Registration
    /// is the only operation that grows the registry, and nothing shrinks
    /// it: the handle stays valid for the rest of the run.
    pub fn register(&mut self, total: u64) -> (h: ProgressHandle)
        requires
            old(self).wf(),
            old(self).spec_count() < usize::MAX,
        ensures
            final(self).wf(),
            h.id == old(self).spec_count(),
            final(self).totals() == old(self).totals().push(total),
            final(self).positions() == old(self).positions().push(0u64),
    {
        let h = ProgressHandle { id: self.totals.len() };
        self.totals.push(total);
        self.positions.push(0);
        h
    }

    /// Advance one display by `n` bytes, stopping at the largest
    /// representable count. No other display moves.
    pub fn advance(&mut self, h: &ProgressHandle, n: u64)
        requires
            old(self).wf(),
            h.id < old(self).spec_count(),
        ensures
            final(self).wf(),
            final(self).totals() == old(self).totals(),
            final(self).positions() == old(self).positions().update(
                h.id as int,
                crate::task::spec_saturating_add(old(self).positions()[h.id as int], n),
            ),
    {
        let pos: u64 = self.positions[h.id];
        let grown: u64 = if n > u64::MAX - pos {
            u64::MAX
        } else {
            pos + n
        };
        self.positions.set(h.id, grown);
    }

    /// The expected total a display was registered with.
    pub fn total_of(&self, h: &ProgressHandle) -> (r: u64)
        requires
            self.wf(),
            h.id < self.spec_count(),
        ensures
            r == self.totals()[h.id as int],
    {
        self.totals[h.id]
    }

    /// The bytes a display has been advanced by so far.
    pub fn position_of(&self, h: &ProgressHandle) -> (r: u64)
        requires
            self.wf(),
            h.id < self.spec_count(),
        ensures
            r == self.positions()[h.id as int],
    {
        self.positions[h.id]
    }
}

} // verus!
