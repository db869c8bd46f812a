//! # Transmitter (TX) support module
use crate::bits::bit_is_set;
use crate::mmio::BusOp;
use crate::uartlite::registers::{
    control_value, Control, MmioRegisters, TxFifo, CTRL_REG_INDEX, STATUS_INTR_ENABLED,
    STATUS_TX_FIFO_EMPTY, STATUS_TX_FIFO_FULL, STAT_REG_INDEX, TX_FIFO_INDEX,
};
use crate::uartlite::rx::{errors_after_status, handle_status_reg_errors, RxErrors};
use crate::WouldBlock;
use vstd::prelude::*;

verus! {

/// Entry `i` of `seg` is one accepted write: a status read that shows room in the TX FIFO
/// (entry `2 i`), then the write of `data[i]` to the TX FIFO (entry `2 i + 1`).
pub open spec fn accepted_write(seg: Seq<BusOp>, data: Seq<u8>, i: int) -> bool {
    &&& seg[2 * i].is_read_of(STAT_REG_INDEX)
    &&& !bit_is_set(seg[2 * i].value(), STATUS_TX_FIFO_FULL)
    &&& seg[2 * i + 1] == BusOp::Write { index: TX_FIFO_INDEX, value: data[i] as u32 }
}

/// `seg` is exactly `count` accepted writes of `data[0..count]`.
pub open spec fn accepted_writes(seg: Seq<BusOp>, data: Seq<u8>, count: int) -> bool {
    &&& seg.len() == 2 * count
    &&& forall|i: int| 0 <= i < count ==> #[trigger] accepted_write(seg, data, i)
}

/// The last recorded errors after the first `count` accepted writes of `seg`.
pub open spec fn errors_after_writes(before: Option<RxErrors>, seg: Seq<BusOp>, count: nat) -> Option<
    RxErrors,
>
    decreases count,
{
    if count == 0 {
        before
    } else {
        errors_after_status(
            errors_after_writes(before, seg, (count - 1) as nat),
            seg[2 * (count - 1)].value(),
        )
    }
}

/// What [Tx::write_fifo] does to a TX handle: one status read; if it shows a full TX FIFO,
/// nothing else and [WouldBlock]; otherwise the byte is written to the TX FIFO and the errors
/// that the status reports are recorded.
pub open spec fn write_fifo_post(before: Tx, after: Tx, data: u8, r: Result<(), WouldBlock>) -> bool {
    let st = after.ops()[before.ops().len() as int];
    &&& st.is_read_of(STAT_REG_INDEX)
    &&& if bit_is_set(st.value(), STATUS_TX_FIFO_FULL) {
        &&& after.ops() == before.ops().push(st)
        &&& r == Err::<(), WouldBlock>(WouldBlock)
        &&& after.last_errors() == before.last_errors()
    } else {
        &&& after.ops() == before.ops().push(st).push(
            BusOp::Write { index: TX_FIFO_INDEX, value: data as u32 },
        )
        &&& r == Ok::<(), WouldBlock>(())
        &&& after.last_errors() == errors_after_status(before.last_errors(), st.value())
    }
}

/// AXI UART Lite TX driver.
pub struct Tx {
    pub(crate) regs: MmioRegisters,
    pub(crate) errors: Option<RxErrors>,
}

impl Tx {
    /// The register accesses made by this handle so far.
    pub closed spec fn ops(&self) -> Seq<BusOp> {
        self.regs.ops()
    }

    /// The register handle of this half.
    pub closed spec fn registers(&self) -> MmioRegisters {
        self.regs
    }

    /// The last recorded RX errors.
    pub closed spec fn last_errors(&self) -> Option<RxErrors> {
        self.errors
    }

    /// TX driver on the given register block, with no recorded errors.
    pub fn new(regs: MmioRegisters) -> (r: Self)
        ensures
            r.ops() == regs.ops(),
            r.registers() == regs,
            r.last_errors() == None::<RxErrors>,
    {
        Tx { regs, errors: None }
    }

    /// Write into the UART Lite.
    ///
    /// Returns [WouldBlock] if the TX FIFO is full. Errors that the status register reports
    /// are recorded.
    pub fn write_fifo(&mut self, data: u8) -> (r: Result<(), WouldBlock>)
        ensures
            write_fifo_post(*old(self), *final(self), data, r),
    {
        let status_reg = self.regs.read_stat_reg();
        if status_reg.tx_fifo_full() {
            return Err(WouldBlock);
        }
        self.write_fifo_unchecked(data);
        if let Some(errors) = handle_status_reg_errors(&status_reg) {
            self.errors = Some(errors);
        }
        Ok(())
    }

    /// Reset the TX FIFO, keeping the interrupt enable bit that the status register shows.
    pub fn reset_fifo(&mut self)
        ensures
            ({
                let st = final(self).ops()[old(self).ops().len() as int];
                &&& st.is_read_of(STAT_REG_INDEX)
                &&& final(self).ops() == old(self).ops().push(st).push(
                    BusOp::Write {
                        index: CTRL_REG_INDEX,
                        value: control_value(bit_is_set(st.value(), STATUS_INTR_ENABLED), false, true),
                    },
                )
            }),
            final(self).last_errors() == old(self).last_errors(),
    {
        let status = self.regs.read_stat_reg();
        self.regs.write_ctrl_reg(Control::build(status.intr_enabled(), false, true));
    }

    /// Write into the FIFO without checking the FIFO fill status.
    ///
    /// This can be useful to completely fill the FIFO if it is known to be empty.
    pub fn write_fifo_unchecked(&mut self, data: u8)
        ensures
            final(self).ops() == old(self).ops().push(
                BusOp::Write { index: TX_FIFO_INDEX, value: data as u32 },
            ),
            final(self).last_errors() == old(self).last_errors(),
    {
        self.regs.write_tx_fifo(TxFifo::with_data(data));
    }

    /// Is the TX FIFO empty? Reads the status register once and returns its bit.
    pub fn fifo_empty(&mut self) -> (r: bool)
        ensures
            ({
                let st = final(self).ops()[old(self).ops().len() as int];
                &&& st.is_read_of(STAT_REG_INDEX)
                &&& final(self).ops() == old(self).ops().push(st)
                &&& r == bit_is_set(st.value(), STATUS_TX_FIFO_EMPTY)
            }),
            final(self).last_errors() == old(self).last_errors(),
    {
        self.regs.read_stat_reg().tx_fifo_empty()
    }

    /// Is the TX FIFO full? Reads the status register once and returns its bit.
    pub fn fifo_full(&mut self) -> (r: bool)
        ensures
            ({
                let st = final(self).ops()[old(self).ops().len() as int];
                &&& st.is_read_of(STAT_REG_INDEX)
                &&& final(self).ops() == old(self).ops().push(st)
                &&& r == bit_is_set(st.value(), STATUS_TX_FIFO_FULL)
            }),
            final(self).last_errors() == old(self).last_errors(),
    {
        self.regs.read_stat_reg().tx_fifo_full()
    }

    /// Fills the FIFO with user provided data until the user data
    /// is consumed or the FIFO is full.
    ///
    /// Returns the amount of written data, which might be smaller than the buffer size.
    pub fn fill_fifo(&mut self, buf: &[u8]) -> (written: usize)
        ensures
            written <= buf.len(),
            ({
                let n = old(self).ops().len() as int;
                let seg = final(self).ops().subrange(n, final(self).ops().len() as int);
                &&& final(self).ops().subrange(0, n) == old(self).ops()
                &&& accepted_writes(seg.take(2 * written), buf@, written as int)
                &&& if written < buf.len() {
                    &&& seg.len() == 2 * written + 1
                    &&& seg[2 * written].is_read_of(STAT_REG_INDEX)
                    &&& bit_is_set(seg[2 * written].value(), STATUS_TX_FIFO_FULL)
                } else {
                    seg.len() == 2 * written
                }
                &&& final(self).last_errors() == errors_after_writes(
                    old(self).last_errors(),
                    seg,
                    written as nat,
                )
            }),
    {
        let ghost old_ops = self.ops();
        let ghost old_errors = self.last_errors();
        let ghost n = old_ops.len() as int;
        let mut written: usize = 0;
        while written < buf.len()
            invariant_except_break
                self.ops().len() == n + 2 * written,
                accepted_writes(self.ops().subrange(n, self.ops().len() as int), buf@, written as int),
            invariant
                written <= buf.len(),
                n == old_ops.len(),
                self.ops().len() >= n + 2 * written,
                self.ops().subrange(0, n) == old_ops,
                self.last_errors() == errors_after_writes(
                    old_errors,
                    self.ops().subrange(n, self.ops().len() as int),
                    written as nat,
                ),
            ensures
                written <= buf.len(),
                n == old_ops.len(),
                self.ops().subrange(0, n) == old_ops,
                accepted_writes(self.ops().subrange(n, n + 2 * written), buf@, written as int),
                self.last_errors() == errors_after_writes(
                    old_errors,
                    self.ops().subrange(n, self.ops().len() as int),
                    written as nat,
                ),
                if written < buf.len() {
                    &&& self.ops().len() == n + 2 * written + 1
                    &&& self.ops()[n + 2 * written].is_read_of(STAT_REG_INDEX)
                    &&& bit_is_set(self.ops()[n + 2 * written].value(), STATUS_TX_FIFO_FULL)
                } else {
                    self.ops().len() == n + 2 * written
                },
            decreases buf.len() - written,
        {
            let ghost before = self.ops();
            let ghost errs_before = self.last_errors();
            match self.write_fifo(buf[written]) {
                Ok(_) => {
                    proof {
                        let seg_old = before.subrange(n, before.len() as int);
                        let seg = self.ops().subrange(n, self.ops().len() as int);
                        assert(seg.subrange(0, 2 * written) =~= seg_old);
                        assert forall|i: int| 0 <= i < written + 1 implies #[trigger] accepted_write(
                            seg,
                            buf@,
                            i,
                        ) by {
                            if i < written {
                                assert(accepted_write(seg_old, buf@, i));
                                assert(seg[2 * i] == seg_old[2 * i]);
                                assert(seg[2 * i + 1] == seg_old[2 * i + 1]);
                            }
                        }
                        assert(self.ops().subrange(0, n) == old_ops);
                        lemma_errors_after_writes_prefix(old_errors, seg_old, seg, written as nat);
                    }
                    written += 1;
                },
                Err(_) => {
                    proof {
                        assert(self.ops().subrange(n, n + 2 * written) == before.subrange(
                            n,
                            before.len() as int,
                        ));
                        assert(self.ops().subrange(0, n) == old_ops);
                        let seg_old = before.subrange(n, before.len() as int);
                        let seg = self.ops().subrange(n, self.ops().len() as int);
                        assert(seg.subrange(0, 2 * written) =~= seg_old);
                        assert(seg_old.subrange(0, 2 * written) =~= seg_old);
                        lemma_errors_after_writes_same(old_errors, seg_old, seg, written as nat);
                    }
                    break;
                },
            }
        }
        proof {
            let seg = self.ops().subrange(n, self.ops().len() as int);
            assert(seg.take(2 * written) == self.ops().subrange(n, n + 2 * written));
        }
        written
    }

    /// The last recorded RX errors, left in place.
    pub(crate) fn recorded_errors(&self) -> (r: Option<RxErrors>)
        ensures
            r == self.last_errors(),
    {
        self.errors
    }

    /// Mutable access to the register handle.
    pub(crate) fn regs_mut(&mut self) -> (r: &mut MmioRegisters)
        ensures
            r.ops() == old(self).ops(),
            final(self).ops() == final(r).ops(),
            final(self).last_errors() == old(self).last_errors(),
    {
        &mut self.regs
    }

    /// Read and clear the last recorded RX errors.
    pub fn read_and_clear_last_error(&mut self) -> (r: Option<RxErrors>)
        ensures
            r == old(self).last_errors(),
            final(self).last_errors() == None::<RxErrors>,
            final(self).ops() == old(self).ops(),
    {
        let errors = self.errors;
        self.errors = None;
        errors
    }
}

/// The errors after the first `count` writes only depend on those writes.
proof fn lemma_errors_after_writes_same(
    before: Option<RxErrors>,
    a: Seq<BusOp>,
    b: Seq<BusOp>,
    count: nat,
)
    requires
        a.len() >= 2 * count,
        b.len() >= 2 * count,
        a.subrange(0, 2 * count as int) == b.subrange(0, 2 * count as int),
    ensures
        errors_after_writes(before, a, count) == errors_after_writes(before, b, count),
    decreases count,
{
    if count > 0 {
        let k = (count - 1) as nat;
        assert(a.subrange(0, 2 * k as int) == a.subrange(0, 2 * count as int).subrange(0, 2 * k as int));
        assert(b.subrange(0, 2 * k as int) == b.subrange(0, 2 * count as int).subrange(0, 2 * k as int));
        lemma_errors_after_writes_same(before, a, b, k);
        assert(a[2 * k as int] == a.subrange(0, 2 * count as int)[2 * k as int]);
        assert(b[2 * k as int] == b.subrange(0, 2 * count as int)[2 * k as int]);
    }
}

/// Extending the accepted writes by one folds in the errors of its status read.
proof fn lemma_errors_after_writes_prefix(
    before: Option<RxErrors>,
    a: Seq<BusOp>,
    b: Seq<BusOp>,
    count: nat,
)
    requires
        a.len() == 2 * count,
        b.len() >= 2 * count + 2,
        b.subrange(0, 2 * count as int) == a,
    ensures
        errors_after_writes(before, b, count + 1) == errors_after_status(
            errors_after_writes(before, a, count),
            b[2 * count as int].value(),
        ),
{
    assert(a.subrange(0, 2 * count as int) =~= a);
    lemma_errors_after_writes_same(before, a, b, count);
}

} // verus!
