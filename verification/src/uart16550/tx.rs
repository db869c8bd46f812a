//! # Transmitter (TX) support module
use crate::bits::{bit_is_set, with_bit};
use crate::mmio::BusOp;
use crate::uart16550::registers::{
    fifo_control_value, FifoControl, InterruptEnable, MmioRegisters, RxFifoTrigger,
    FIFO_OR_DLL_INDEX, IER_OR_DLM_INDEX, IER_THR_EMPTY, IIR_OR_FCR_INDEX, LSR_INDEX,
    LSR_THR_EMPTY, LSR_TX_EMPTY,
};
use crate::uart16550::DEFAULT_RX_TRIGGER_LEVEL;
use crate::WouldBlock;
use vstd::prelude::*;

verus! {

/// What [Tx::write_fifo] does to a TX handle: one line status read; if the transmitter
/// holding register is not empty, nothing else and [WouldBlock]; otherwise the byte is written.
pub open spec fn write_fifo_post(before: Tx, after: Tx, data: u8, r: Result<(), WouldBlock>) -> bool {
    let st = after.ops()[before.ops().len() as int];
    &&& st.is_read_of(LSR_INDEX)
    &&& if bit_is_set(st.value(), LSR_THR_EMPTY) {
        &&& after.ops() == before.ops().push(st).push(
            BusOp::Write { index: FIFO_OR_DLL_INDEX, value: data as u32 },
        )
        &&& r == Ok::<(), WouldBlock>(())
    } else {
        &&& after.ops() == before.ops().push(st)
        &&& r == Err::<(), WouldBlock>(WouldBlock)
    }
}

/// Entry `i` of `seg` is one accepted write: a line status read showing the transmitter
/// holding register empty (entry `2 i`), then the write of `data[i]` (entry `2 i + 1`).
pub open spec fn accepted_write(seg: Seq<BusOp>, data: Seq<u8>, i: int) -> bool {
    &&& seg[2 * i].is_read_of(LSR_INDEX)
    &&& bit_is_set(seg[2 * i].value(), LSR_THR_EMPTY)
    &&& seg[2 * i + 1] == BusOp::Write { index: FIFO_OR_DLL_INDEX, value: data[i] as u32 }
}

/// The interrupt enable word `ier` with the transmitter holding register empty interrupt
/// set to `enabled`.
pub open spec fn ier_with_thr_empty(ier: u32, enabled: bool) -> u32 {
    with_bit(ier, IER_THR_EMPTY, enabled)
}

/// AXI UART16550 TX driver.
pub struct Tx {
    pub(crate) regs: MmioRegisters,
}

impl Tx {
    /// The register accesses made by this handle so far.
    pub closed spec fn ops(&self) -> Seq<BusOp> {
        self.regs.ops()
    }

    /// The register handle of this half.
    pub closed spec fn registers(&self) -> MmioRegisters {
        self.regs
    }

    /// TX driver on the given register block.
    pub fn new(regs: MmioRegisters) -> (r: Self)
        ensures
            r.ops() == regs.ops(),
            r.registers() == regs,
    {
        Tx { regs }
    }

    /// Mutable access to the register handle.
    pub(crate) fn regs_mut(&mut self) -> (r: &mut MmioRegisters)
        ensures
            r.ops() == old(self).ops(),
            final(self).ops() == final(r).ops(),
    {
        &mut self.regs
    }

    /// A second handle on the registers of this TX half, with an empty trace.
    pub fn regs_handle(&self) -> (r: MmioRegisters)
        ensures
            r.ops() == Seq::<BusOp>::empty(),
            r.same_registers(&self.registers()),
    {
        self.regs.duplicate()
    }

    /// Write a byte into the FIFO if there is space available.
    pub fn write_fifo(&mut self, data: u8) -> (r: Result<(), WouldBlock>)
        ensures
            write_fifo_post(*old(self), *final(self), data, r),
    {
        let lsr = self.regs.read_lsr();
        if !lsr.thr_empty() {
            return Err(WouldBlock);
        }
        self.write_fifo_unchecked(data);
        Ok(())
    }

    /// Enable TX interrupts: read the interrupt enable register and write it back with the
    /// transmitter holding register empty interrupt enabled.
    pub fn enable_interrupt(&mut self)
        ensures
            ({
                let ier = final(self).ops()[old(self).ops().len() as int];
                &&& ier.is_read_of(IER_OR_DLM_INDEX)
                &&& final(self).ops() == old(self).ops().push(ier).push(
                    BusOp::Write { index: IER_OR_DLM_INDEX, value: ier_with_thr_empty(ier.value(), true) },
                )
            }),
    {
        let val = self.regs.read_ier_or_dlm();
        let mut ier = InterruptEnable::new_with_raw_value(val);
        ier.set_thr_empty(true);
        self.regs.write_ier_or_dlm(ier.raw_value());
    }

    /// Disable TX interrupts: read the interrupt enable register and write it back with the
    /// transmitter holding register empty interrupt disabled.
    pub fn disable_interrupt(&mut self)
        ensures
            ({
                let ier = final(self).ops()[old(self).ops().len() as int];
                &&& ier.is_read_of(IER_OR_DLM_INDEX)
                &&& final(self).ops() == old(self).ops().push(ier).push(
                    BusOp::Write { index: IER_OR_DLM_INDEX, value: ier_with_thr_empty(ier.value(), false) },
                )
            }),
    {
        let val = self.regs.read_ier_or_dlm();
        let mut ier = InterruptEnable::new_with_raw_value(val);
        ier.set_thr_empty(false);
        self.regs.write_ier_or_dlm(ier.raw_value());
    }

    /// Write into the FIFO without checking the FIFO fill status.
    ///
    /// This can be useful to completely fill the FIFO if it is known to be empty.
    pub fn write_fifo_unchecked(&mut self, data: u8)
        ensures
            final(self).ops() == old(self).ops().push(
                BusOp::Write { index: FIFO_OR_DLL_INDEX, value: data as u32 },
            ),
    {
        self.regs.write_fifo_or_dll(data as u32);
    }

    /// Transmitter Holding Register empty status. Reads the line status register once and returns its bit.
    pub fn thr_empty(&mut self) -> (r: bool)
        ensures
            ({
                let st = final(self).ops()[old(self).ops().len() as int];
                &&& st.is_read_of(LSR_INDEX)
                &&& final(self).ops() == old(self).ops().push(st)
                &&& r == bit_is_set(st.value(), LSR_THR_EMPTY)
            }),
    {
        self.regs.read_lsr().thr_empty()
    }

    /// Transmitter empty status. Reads the line status register once and returns its bit.
    pub fn tx_empty(&mut self) -> (r: bool)
        ensures
            ({
                let st = final(self).ops()[old(self).ops().len() as int];
                &&& st.is_read_of(LSR_INDEX)
                &&& final(self).ops() == old(self).ops().push(st)
                &&& r == bit_is_set(st.value(), LSR_TX_EMPTY)
            }),
    {
        self.regs.read_lsr().tx_empty()
    }

    /// Reset the TX FIFO, keeping the FIFOs enabled with the default trigger level.
    pub fn reset_fifo(&mut self)
        ensures
            final(self).ops() == old(self).ops().push(
                BusOp::Write {
                    index: IIR_OR_FCR_INDEX,
                    value: fifo_control_value(RxFifoTrigger::EightBytes, false, true, false, true),
                },
            ),
    {
        self.regs.write_iir_or_fcr(
            FifoControl::build(DEFAULT_RX_TRIGGER_LEVEL, false, true, false, true).raw_value(),
        );
    }

    /// Should be called from the interrupt handler when a THR empty interrupt occurs.
    ///
    /// Writes bytes of `next_write_chunk` while the line status register shows the
    /// transmitter holding register empty; returns the number of bytes written.
    pub fn on_interrupt_thr_empty(&mut self, next_write_chunk: &[u8]) -> (written: usize)
        ensures
            written <= next_write_chunk.len(),
            next_write_chunk.len() == 0 ==> final(self).ops() == old(self).ops(),
            next_write_chunk.len() > 0 ==> ({
                let n = old(self).ops().len() as int;
                let ops = final(self).ops();
                let seg = ops.subrange(n, ops.len() as int);
                &&& ops.len() == n + 2 * written + 1
                &&& ops.subrange(0, n) == old(self).ops()
                &&& forall|i: int| 0 <= i < written ==> #[trigger] accepted_write(seg, next_write_chunk@, i)
                &&& seg[2 * written].is_read_of(LSR_INDEX)
                &&& (!bit_is_set(seg[2 * written].value(), LSR_THR_EMPTY) || written == next_write_chunk.len())
            }),
    {
        if next_write_chunk.len() == 0 {
            return 0;
        }
        let ghost n = self.ops().len() as int;
        let ghost old_ops = self.ops();
        let mut written: usize = 0;
        loop
            invariant_except_break
                self.ops().len() == n + 2 * written,
            invariant
                written <= next_write_chunk.len(),
                n == old_ops.len(),
                self.ops().len() >= n + 2 * written,
                self.ops().subrange(0, n) == old_ops,
                forall|i: int| 0 <= i < written ==> #[trigger] accepted_write(self.ops().subrange(n, self.ops().len() as int), next_write_chunk@, i),
            ensures
                written <= next_write_chunk.len(),
                self.ops().len() == n + 2 * written + 1,
                self.ops().subrange(0, n) == old_ops,
                forall|i: int| 0 <= i < written ==> #[trigger] accepted_write(self.ops().subrange(n, self.ops().len() as int), next_write_chunk@, i),
                self.ops()[n + 2 * written].is_read_of(LSR_INDEX),
                !bit_is_set(self.ops()[n + 2 * written].value(), LSR_THR_EMPTY) || written == next_write_chunk.len(),
            decreases next_write_chunk.len() - written,
        {
            let ghost before = self.ops();
            let lsr = self.regs.read_lsr();
            if !(lsr.thr_empty() && written < next_write_chunk.len()) {
                proof {
                    let seg_b = before.subrange(n, before.len() as int);
                    let seg = self.ops().subrange(n, self.ops().len() as int);
                    assert(self.ops().subrange(0, n) =~= old_ops);
                    assert forall|i: int| 0 <= i < written implies #[trigger] accepted_write(seg, next_write_chunk@, i) by {
                        assert(accepted_write(seg_b, next_write_chunk@, i));
                        assert(seg[2 * i] == seg_b[2 * i]);
                        assert(seg[2 * i + 1] == seg_b[2 * i + 1]);
                    }
                }
                break;
            }
            self.write_fifo_unchecked(next_write_chunk[written]);
            proof {
                let seg_b = before.subrange(n, before.len() as int);
                let seg = self.ops().subrange(n, self.ops().len() as int);
                assert(self.ops().subrange(0, n) =~= old_ops);
                assert forall|i: int| 0 <= i < written + 1 implies #[trigger] accepted_write(seg, next_write_chunk@, i) by {
                    if i < written {
                        assert(accepted_write(seg_b, next_write_chunk@, i));
                        assert(seg[2 * i] == seg_b[2 * i]);
                        assert(seg[2 * i + 1] == seg_b[2 * i + 1]);
                    }
                }
            }
            written += 1;
        }
        proof {
            let seg = self.ops().subrange(n, self.ops().len() as int);
            assert(seg[2 * written as int] == self.ops()[n + 2 * written]);
        }
        written
    }

    /// Write bytes of `buf` while the transmitter holding register is empty; returns the
    /// number of bytes written.
    pub fn fill_fifo(&mut self, buf: &[u8]) -> (written: usize)
        ensures
            written <= buf.len(),
            ({
                let n = old(self).ops().len() as int;
                let ops = final(self).ops();
                let seg = ops.subrange(n, ops.len() as int);
                &&& ops.len() >= n
                &&& ops.subrange(0, n) == old(self).ops()
                &&& forall|i: int| 0 <= i < written ==> #[trigger] accepted_write(seg, buf@, i)
                &&& if written < buf.len() {
                    &&& seg.len() == 2 * written + 1
                    &&& seg[2 * written].is_read_of(LSR_INDEX)
                    &&& !bit_is_set(seg[2 * written].value(), LSR_THR_EMPTY)
                } else {
                    seg.len() == 2 * written
                }
            }),
    {
        let ghost n = self.ops().len() as int;
        let ghost old_ops = self.ops();
        let mut written: usize = 0;
        while written < buf.len()
            invariant_except_break
                self.ops().len() == n + 2 * written,
            invariant
                written <= buf.len(),
                n == old_ops.len(),
                self.ops().len() >= n + 2 * written,
                self.ops().subrange(0, n) == old_ops,
                forall|i: int| 0 <= i < written ==> #[trigger] accepted_write(self.ops().subrange(n, self.ops().len() as int), buf@, i),
            ensures
                written <= buf.len(),
                self.ops().subrange(0, n) == old_ops,
                forall|i: int| 0 <= i < written ==> #[trigger] accepted_write(self.ops().subrange(n, self.ops().len() as int), buf@, i),
                if written < buf.len() {
                    &&& self.ops().len() == n + 2 * written + 1
                    &&& self.ops()[n + 2 * written].is_read_of(LSR_INDEX)
                    &&& !bit_is_set(self.ops()[n + 2 * written].value(), LSR_THR_EMPTY)
                } else {
                    self.ops().len() == n + 2 * written
                },
            decreases buf.len() - written,
        {
            let ghost before = self.ops();
            let r = self.write_fifo(buf[written]);
            proof {
                let seg_b = before.subrange(n, before.len() as int);
                let seg = self.ops().subrange(n, self.ops().len() as int);
                assert(self.ops().subrange(0, n) =~= old_ops);
                assert forall|i: int| 0 <= i < written implies #[trigger] accepted_write(seg, buf@, i) by {
                    assert(accepted_write(seg_b, buf@, i));
                    assert(seg[2 * i] == seg_b[2 * i]);
                    assert(seg[2 * i + 1] == seg_b[2 * i + 1]);
                }
            }
            match r {
                Ok(_) => {
                    written += 1;
                },
                Err(_) => {
                    break;
                },
            }
        }
        written
    }
}

} // verus!
