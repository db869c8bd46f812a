//! Word-addressed memory-mapped register blocks.
//!
//! A register block is a `'static` array of volatile 32-bit cells. Every access made through a
//! [RegisterBlock] by `&mut self` is recorded in a ghost trace of bus operations, so that the
//! contracts of the drivers can state exactly which registers they read and wrote, and with
//! which values.
use vcell::VolatileCell;
use vstd::prelude::*;

verus! {

#[verifier::external_type_specification]
#[verifier::external_body]
#[verifier::reject_recursive_types(T)]
pub struct ExVolatileCell<T>(VolatileCell<T>);

/// Volatile read of one cell (`VolatileCell::get`). The value comes from the hardware, so
/// nothing is stated about it.
#[verifier::external_body]
fn cell_get(cell: &VolatileCell<u32>) -> (value: u32) {
    cell.get()
}

/// Volatile write of one cell (`VolatileCell::set`). Its effect is on the hardware, which
/// Verus does not see.
#[verifier::external_body]
fn cell_set(cell: &VolatileCell<u32>, value: u32) {
    cell.set(value)
}

/// One access on the register bus: the word index of the register and the value that went
/// over the bus.
#[derive(Clone, Copy, Debug, PartialEq, Eq)]
pub enum BusOp {
    Read { index: usize, value: u32 },
    Write { index: usize, value: u32 },
}

impl BusOp {
    /// Whether this is a read of register `index`.
    pub open spec fn is_read_of(self, index: usize) -> bool {
        self matches BusOp::Read { index: i, .. } && i == index
    }

    /// The value that went over the bus.
    pub open spec fn value(self) -> u32 {
        match self {
            BusOp::Read { value, .. } => value,
            BusOp::Write { value, .. } => value,
        }
    }
}

/// A block of `N` consecutive 32-bit registers.
pub struct RegisterBlock<const N: usize> {
    cells: &'static [VolatileCell<u32>; N],
    ops: Ghost<Seq<BusOp>>,
}

impl<const N: usize> RegisterBlock<N> {
    /// The accesses made through this handle so far, oldest first.
    pub closed spec fn ops(&self) -> Seq<BusOp> {
        self.ops@
    }

    /// Whether two handles access the same hardware registers.
    pub closed spec fn same_block(&self, other: &Self) -> bool {
        self.cells == other.cells
    }

    /// Handle on the given cells, with an empty trace.
    pub fn new(cells: &'static [VolatileCell<u32>; N]) -> (r: Self)
        ensures
            r.ops() == Seq::<BusOp>::empty(),
    {
        RegisterBlock { cells, ops: Ghost(Seq::empty()) }
    }

    /// A second handle on the same registers, with an empty trace.
    pub fn duplicate(&self) -> (r: Self)
        ensures
            r.ops() == Seq::<BusOp>::empty(),
            r.same_block(self),
    {
        RegisterBlock { cells: self.cells, ops: Ghost(Seq::empty()) }
    }

    /// Read register `index` and record the read.
    pub fn read(&mut self, index: usize) -> (value: u32)
        requires
            index < N,
        ensures
            final(self).ops() == old(self).ops().push(BusOp::Read { index, value }),
            final(self).same_block(old(self)),
    {
        let value = cell_get(&self.cells[index]);
        proof {
            self.ops@ = self.ops@.push(BusOp::Read { index, value });
        }
        value
    }

    /// Write `value` to register `index` and record the write.
    pub fn write(&mut self, index: usize, value: u32)
        requires
            index < N,
        ensures
            final(self).ops() == old(self).ops().push(BusOp::Write { index, value }),
            final(self).same_block(old(self)),
    {
        cell_set(&self.cells[index], value);
        proof {
            self.ops@ = self.ops@.push(BusOp::Write { index, value });
        }
    }
}

} // verus!
