//! # Receiver (RX) support module
use crate::bits::{bit_is_set, with_bit};
use crate::mmio::BusOp;
use crate::uart16550::registers::{
    fifo_control_value, FifoControl, InterruptEnable, InterruptId2, InterruptIdentification,
    LineStatus, MmioRegisters, RxFifoTrigger, FIFO_OR_DLL_INDEX,
    IER_LINE_STATUS, IER_OR_DLM_INDEX, IER_RX_AVL, IIR_OR_FCR_INDEX, LSR_DATA_READY,
    LSR_ERROR_IN_RX_FIFO, LSR_FRAMING_ERROR, LSR_INDEX, LSR_OVERRUN_ERROR, LSR_PARITY_ERROR,
};
use crate::uart16550::DEFAULT_RX_TRIGGER_LEVEL;
use crate::WouldBlock;
use vstd::prelude::*;

verus! {

/// RX errors structure.
#[derive(Debug, Clone, Copy, PartialEq, Eq)]
pub struct RxErrors {
    parity: bool,
    frame: bool,
    overrun: bool,
}

impl RxErrors {
    /// Parity error flag.
    pub closed spec fn spec_parity(&self) -> bool {
        self.parity
    }

    /// Framing error flag.
    pub closed spec fn spec_frame(&self) -> bool {
        self.frame
    }

    /// Overrun error flag.
    pub closed spec fn spec_overrun(&self) -> bool {
        self.overrun
    }

    /// The error flags that a line status value reports.
    pub closed spec fn from_lsr(lsr: u32) -> RxErrors {
        RxErrors {
            parity: bit_is_set(lsr, LSR_PARITY_ERROR),
            frame: bit_is_set(lsr, LSR_FRAMING_ERROR),
            overrun: bit_is_set(lsr, LSR_OVERRUN_ERROR),
        }
    }

    /// The flags of [Self::from_lsr] are the error bits of the line status value, and the
    /// three flags determine the structure.
    pub proof fn lemma_from_lsr(lsr: u32, e: RxErrors)
        ensures
            Self::from_lsr(lsr).spec_parity() == bit_is_set(lsr, LSR_PARITY_ERROR),
            Self::from_lsr(lsr).spec_frame() == bit_is_set(lsr, LSR_FRAMING_ERROR),
            Self::from_lsr(lsr).spec_overrun() == bit_is_set(lsr, LSR_OVERRUN_ERROR),
            (e.spec_parity() == bit_is_set(lsr, LSR_PARITY_ERROR) && e.spec_frame() == bit_is_set(
                lsr,
                LSR_FRAMING_ERROR,
            ) && e.spec_overrun() == bit_is_set(lsr, LSR_OVERRUN_ERROR)) ==> e == Self::from_lsr(
                lsr,
            ),
    {
    }

    /// Construct a new empty [RxErrors] structure.
    pub fn new() -> (r: Self)
        ensures
            !r.spec_parity(),
            !r.spec_frame(),
            !r.spec_overrun(),
    {
        RxErrors { parity: false, frame: false, overrun: false }
    }

    /// Parity error.
    pub fn parity(&self) -> (r: bool)
        ensures
            r == self.spec_parity(),
    {
        self.parity
    }

    /// Framing error.
    pub fn frame(&self) -> (r: bool)
        ensures
            r == self.spec_frame(),
    {
        self.frame
    }

    /// Overrun error.
    pub fn overrun(&self) -> (r: bool)
        ensures
            r == self.spec_overrun(),
    {
        self.overrun
    }

    /// Error has occurred.
    pub fn has_errors(&self) -> (r: bool)
        ensures
            r == (self.spec_parity() || self.spec_frame() || self.spec_overrun()),
    {
        self.parity || self.frame || self.overrun
    }
}

impl Default for RxErrors {
    fn default() -> (r: Self)
        ensures
            !r.spec_parity(),
            !r.spec_frame(),
            !r.spec_overrun(),
    {
        RxErrors::new()
    }
}

/// The last recorded errors after a line status value was read for a received byte: the
/// errors it reports if it flags an error in the RX FIFO, else those recorded before.
pub open spec fn errors_after_lsr(before: Option<RxErrors>, lsr: u32) -> Option<RxErrors> {
    if bit_is_set(lsr, LSR_ERROR_IN_RX_FIFO) {
        Some(RxErrors::from_lsr(lsr))
    } else {
        before
    }
}

/// What [Rx::read_fifo] does to an RX handle: one line status read; if it shows no data,
/// nothing else and [WouldBlock]; otherwise the errors it reports are recorded and one read of
/// the RX FIFO gives the byte returned.
pub open spec fn read_fifo_post(before: Rx, after: Rx, r: Result<u8, WouldBlock>) -> bool {
    let n = before.ops().len() as int;
    let st = after.ops()[n];
    &&& st.is_read_of(LSR_INDEX)
    &&& if bit_is_set(st.value(), LSR_DATA_READY) {
        let d = after.ops()[n + 1];
        &&& d.is_read_of(FIFO_OR_DLL_INDEX)
        &&& after.ops() == before.ops().push(st).push(d)
        &&& r == Ok::<u8, WouldBlock>(d.value() as u8)
        &&& after.last_errors() == errors_after_lsr(before.last_errors(), st.value())
    } else {
        &&& after.ops() == before.ops().push(st)
        &&& r == Err::<u8, WouldBlock>(WouldBlock)
        &&& after.last_errors() == before.last_errors()
    }
}

/// Entry `i` of `seg` is one received byte: a line status read showing data ready (entry
/// `2 i`), then the FIFO read (entry `2 i + 1`) whose low byte is `data[i]`.
pub open spec fn received_byte(seg: Seq<BusOp>, data: Seq<u8>, i: int) -> bool {
    &&& seg[2 * i].is_read_of(LSR_INDEX)
    &&& bit_is_set(seg[2 * i].value(), LSR_DATA_READY)
    &&& seg[2 * i + 1].is_read_of(FIFO_OR_DLL_INDEX)
    &&& data[i] == seg[2 * i + 1].value() as u8
}

/// The last recorded errors after the first `count` received bytes of `seg`.
pub open spec fn errors_after_reads(before: Option<RxErrors>, seg: Seq<BusOp>, count: nat) -> Option<RxErrors>
    decreases count,
{
    if count == 0 {
        before
    } else {
        errors_after_lsr(errors_after_reads(before, seg, (count - 1) as nat), seg[2 * (count - 1)].value())
    }
}

/// Entry `i` of the trigger-level reads: FIFO read `i` of `seg`, whose low byte is `buf[i]`.
pub open spec fn trigger_read(seg: Seq<BusOp>, buf: Seq<u8>, i: int) -> bool {
    &&& seg[i].is_read_of(FIFO_OR_DLL_INDEX)
    &&& buf[i] == seg[i].value() as u8
}

/// Byte `j` read while polling after `k` trigger-level reads: a line status read showing data
/// ready (entry `k + 2 (j - k)` of `seg`), then the FIFO read whose low byte is `buf[j]`.
pub open spec fn polled_read(seg: Seq<BusOp>, buf: Seq<u8>, k: int, j: int) -> bool {
    &&& seg[k + 2 * (j - k)].is_read_of(LSR_INDEX)
    &&& bit_is_set(seg[k + 2 * (j - k)].value(), LSR_DATA_READY)
    &&& seg[k + 2 * (j - k) + 1].is_read_of(FIFO_OR_DLL_INDEX)
    &&& buf[j] == seg[k + 2 * (j - k) + 1].value() as u8
}

/// AXI UART16550 RX driver.
pub struct Rx {
    pub(crate) regs: MmioRegisters,
    pub(crate) errors: Option<RxErrors>,
}

impl Rx {
    /// The register accesses made by this handle so far.
    pub closed spec fn ops(&self) -> Seq<BusOp> {
        self.regs.ops()
    }

    /// The register handle of this half.
    pub closed spec fn registers(&self) -> MmioRegisters {
        self.regs
    }

    /// The last recorded RX errors.
    pub closed spec fn last_errors(&self) -> Option<RxErrors> {
        self.errors
    }

    /// RX driver on the given register block, with no recorded errors.
    pub fn new(regs: MmioRegisters) -> (r: Self)
        ensures
            r.ops() == regs.ops(),
            r.registers() == regs,
            r.last_errors() == None::<RxErrors>,
    {
        Rx { regs, errors: None }
    }

    /// Mutable access to the register handle.
    pub(crate) fn regs_mut(&mut self) -> (r: &mut MmioRegisters)
        ensures
            r.ops() == old(self).ops(),
            final(self).ops() == final(r).ops(),
            final(self).last_errors() == old(self).last_errors(),
    {
        &mut self.regs
    }

    /// Read the RX FIFO.
    ///
    /// Returns [WouldBlock] if there is nothing to read.
    pub fn read_fifo(&mut self) -> (r: Result<u8, WouldBlock>)
        ensures
            read_fifo_post(*old(self), *final(self), r),
    {
        let status_reg = self.regs.read_lsr();
        if !status_reg.data_ready() {
            return Err(WouldBlock);
        }
        if status_reg.error_in_rx_fifo() {
            self.errors = Some(Self::lsr_to_errors(&status_reg));
        }
        Ok(self.read_fifo_unchecked())
    }

    /// Read from the FIFO without checking the FIFO fill status.
    pub fn read_fifo_unchecked(&mut self) -> (r: u8)
        ensures
            ({
                let d = final(self).ops()[old(self).ops().len() as int];
                &&& d.is_read_of(FIFO_OR_DLL_INDEX)
                &&& final(self).ops() == old(self).ops().push(d)
                &&& r == d.value() as u8
            }),
            final(self).last_errors() == old(self).last_errors(),
    {
        self.regs.read_fifo_or_dll() as u8
    }

    /// Start interrupt driven reception.
    ///
    /// This function resets the FIFO with [Self::reset_fifo] and then enables the interrupts
    /// with [Self::enable_interrupt].
    pub fn start_interrupt_driven_reception(&mut self)
        ensures
            ({
                let n = old(self).ops().len() as int;
                let ier = final(self).ops()[n + 1];
                &&& ier.is_read_of(IER_OR_DLM_INDEX)
                &&& final(self).ops() == old(self).ops().push(
                    BusOp::Write {
                        index: IIR_OR_FCR_INDEX,
                        value: fifo_control_value(RxFifoTrigger::EightBytes, false, false, true, true),
                    },
                ).push(ier).push(
                    BusOp::Write {
                        index: IER_OR_DLM_INDEX,
                        value: with_bit(with_bit(ier.value(), IER_RX_AVL, true), IER_LINE_STATUS, true),
                    },
                )
            }),
            final(self).last_errors() == old(self).last_errors(),
    {
        self.reset_fifo();
        self.enable_interrupt();
    }

    /// Enable RX interrupts: read the interrupt enable register and write it back with the
    /// data available and line status interrupts enabled.
    pub fn enable_interrupt(&mut self)
        ensures
            ({
                let ier = final(self).ops()[old(self).ops().len() as int];
                &&& ier.is_read_of(IER_OR_DLM_INDEX)
                &&& final(self).ops() == old(self).ops().push(ier).push(
                    BusOp::Write {
                        index: IER_OR_DLM_INDEX,
                        value: with_bit(with_bit(ier.value(), IER_RX_AVL, true), IER_LINE_STATUS, true),
                    },
                )
            }),
            final(self).last_errors() == old(self).last_errors(),
    {
        let val = self.regs.read_ier_or_dlm();
        let mut ier = InterruptEnable::new_with_raw_value(val);
        ier.set_rx_avl(true);
        ier.set_line_status(true);
        self.regs.write_ier_or_dlm(ier.raw_value());
    }

    /// Disable RX interrupts: read the interrupt enable register and write it back with the
    /// data available and line status interrupts disabled.
    pub fn disable_interrupt(&mut self)
        ensures
            ({
                let ier = final(self).ops()[old(self).ops().len() as int];
                &&& ier.is_read_of(IER_OR_DLM_INDEX)
                &&& final(self).ops() == old(self).ops().push(ier).push(
                    BusOp::Write {
                        index: IER_OR_DLM_INDEX,
                        value: with_bit(with_bit(ier.value(), IER_RX_AVL, false), IER_LINE_STATUS, false),
                    },
                )
            }),
            final(self).last_errors() == old(self).last_errors(),
    {
        let val = self.regs.read_ier_or_dlm();
        let mut ier = InterruptEnable::new_with_raw_value(val);
        ier.set_rx_avl(false);
        ier.set_line_status(false);
        self.regs.write_ier_or_dlm(ier.raw_value());
    }

    /// Reset the RX FIFO, keeping the FIFOs enabled with the default trigger level.
    pub fn reset_fifo(&mut self)
        ensures
            final(self).ops() == old(self).ops().push(
                BusOp::Write {
                    index: IIR_OR_FCR_INDEX,
                    value: fifo_control_value(RxFifoTrigger::EightBytes, false, false, true, true),
                },
            ),
            final(self).last_errors() == old(self).last_errors(),
    {
        self.regs.write_iir_or_fcr(
            FifoControl::build(DEFAULT_RX_TRIGGER_LEVEL, false, false, true, true).raw_value(),
        );
    }

    /// Data is available. Reads the line status register once and returns its bit.
    pub fn has_data(&mut self) -> (r: bool)
        ensures
            ({
                let st = final(self).ops()[old(self).ops().len() as int];
                &&& st.is_read_of(LSR_INDEX)
                &&& final(self).ops() == old(self).ops().push(st)
                &&& r == bit_is_set(st.value(), LSR_DATA_READY)
            }),
            final(self).last_errors() == old(self).last_errors(),
    {
        self.regs.read_lsr().data_ready()
    }

    /// Read the IIR register.
    pub fn read_iir(&mut self) -> (r: InterruptIdentification)
        ensures
            final(self).ops() == old(self).ops().push(BusOp::Read { index: IIR_OR_FCR_INDEX, value: r@ }),
            final(self).last_errors() == old(self).last_errors(),
    {
        InterruptIdentification::new_with_raw_value(self.regs.read_iir_or_fcr())
    }

    /// Should be called when a Line Status interrupt occurs: reads the line status register
    /// and returns the errors it reports.
    pub fn on_interrupt_receiver_line_status(&mut self, _iir: InterruptIdentification) -> (r: RxErrors)
        ensures
            ({
                let st = final(self).ops()[old(self).ops().len() as int];
                &&& st.is_read_of(LSR_INDEX)
                &&& final(self).ops() == old(self).ops().push(st)
                &&& r == RxErrors::from_lsr(st.value())
            }),
            final(self).last_errors() == old(self).last_errors(),
    {
        let lsr = self.regs.read_lsr();
        Self::lsr_to_errors(&lsr)
    }

    /// Should be called when a Data Available or Character Timeout interrupt occurs.
    ///
    /// Reads all available data into the provided buffer and returns the number of bytes read.
    /// A data available interrupt guarantees that the RX FIFO holds at least the configured
    /// trigger level ([DEFAULT_RX_TRIGGER_LEVEL]), so that many bytes are read without checking
    /// the line status; then bytes are read while the line status register shows data ready
    /// and the buffer has room.
    pub fn on_interrupt_data_available_or_char_timeout(
        &mut self,
        int_id2: InterruptId2,
        buf: &mut [u8; 16],
    ) -> (read: usize)
        ensures
            ({
                let n = old(self).ops().len() as int;
                let ops = final(self).ops();
                let seg = ops.subrange(n, ops.len() as int);
                let k = if int_id2 == InterruptId2::RxDataAvailable {
                    DEFAULT_RX_TRIGGER_LEVEL.spec_num() as int
                } else {
                    0
                };
                &&& ops.len() >= n
                &&& ops.subrange(0, n) == old(self).ops()
                &&& k <= read <= 16
                &&& forall|i: int| 0 <= i < k ==> #[trigger] trigger_read(seg, final(buf)@, i)
                &&& forall|j: int| k <= j < read ==> #[trigger] polled_read(seg, final(buf)@, k, j)
                &&& seg.len() == k + 2 * (read - k) + 1
                &&& seg[seg.len() - 1].is_read_of(LSR_INDEX)
                &&& (!bit_is_set(seg[seg.len() - 1].value(), LSR_DATA_READY) || read == 16)
                &&& forall|j: int| read <= j < 16 ==> final(buf)@[j] == old(buf)@[j]
            }),
            final(self).last_errors() == old(self).last_errors(),
    {
        let ghost n = self.ops().len() as int;
        let ghost old_ops = self.ops();
        let ghost old_buf = buf@;
        let mut read: usize = 0;
        let mut count: usize = 0;
        // It is guaranteed that we can read the FIFO trigger level.
        if int_id2 == InterruptId2::RxDataAvailable {
            count = DEFAULT_RX_TRIGGER_LEVEL.as_num() as usize;
            while read < count
                invariant
                    read <= count,
                    count == DEFAULT_RX_TRIGGER_LEVEL.spec_num(),
                    n == old_ops.len(),
                    self.ops().len() == n + read,
                    self.ops().subrange(0, n) == old_ops,
                    forall|i: int| 0 <= i < read ==> #[trigger] trigger_read(self.ops().subrange(n, self.ops().len() as int), buf@, i),
                    forall|j: int| read <= j < 16 ==> buf@[j] == old_buf[j],
                    self.last_errors() == old(self).last_errors(),
                decreases count - read,
            {
                let ghost before = self.ops();
                let ghost buf_before = buf@;
                let b = self.read_fifo_unchecked();
                buf[read] = b;
                proof {
                    let seg_b = before.subrange(n, before.len() as int);
                    let seg = self.ops().subrange(n, self.ops().len() as int);
                    assert forall|i: int| 0 <= i < read + 1 implies #[trigger] trigger_read(seg, buf@, i) by {
                        if i < read {
                            assert(trigger_read(seg_b, buf_before, i));
                            assert(seg[i] == seg_b[i]);
                        }
                    }
                    assert(self.ops().subrange(0, n) =~= old_ops);
                }
                read += 1;
            }
        }
        let ghost k = count as int;
        assert(self.ops().len() == n + k);
        // Read the rest of the FIFO.
        loop
            invariant_except_break
                self.ops().len() == n + k + 2 * (read - k),
            invariant
                k <= read <= 16,
                k == count,
                k == (if int_id2 == InterruptId2::RxDataAvailable { DEFAULT_RX_TRIGGER_LEVEL.spec_num() as int } else { 0 }),
                n == old_ops.len(),
                self.ops().len() >= n + k + 2 * (read - k),
                self.ops().subrange(0, n) == old_ops,
                forall|i: int| 0 <= i < k ==> #[trigger] trigger_read(self.ops().subrange(n, self.ops().len() as int), buf@, i),
                forall|j: int| k <= j < read ==> #[trigger] polled_read(self.ops().subrange(n, self.ops().len() as int), buf@, k, j),
                forall|j: int| read <= j < 16 ==> buf@[j] == old_buf[j],
                self.last_errors() == old(self).last_errors(),
            ensures
                k <= read <= 16,
                self.ops().len() == n + k + 2 * (read - k) + 1,
                self.ops().subrange(0, n) == old_ops,
                forall|i: int| 0 <= i < k ==> #[trigger] trigger_read(self.ops().subrange(n, self.ops().len() as int), buf@, i),
                forall|j: int| k <= j < read ==> #[trigger] polled_read(self.ops().subrange(n, self.ops().len() as int), buf@, k, j),
                forall|j: int| read <= j < 16 ==> buf@[j] == old_buf[j],
                self.ops()[self.ops().len() - 1].is_read_of(LSR_INDEX),
                !bit_is_set(self.ops()[self.ops().len() - 1].value(), LSR_DATA_READY) || read == 16,
                self.last_errors() == old(self).last_errors(),
            decreases 16 - read,
        {
            let ghost before = self.ops();
            let lsr = self.regs.read_lsr();
            if !(lsr.data_ready() && read < 16) {
                proof {
                    let seg_b = before.subrange(n, before.len() as int);
                    let seg = self.ops().subrange(n, self.ops().len() as int);
                    assert(self.ops().subrange(0, n) =~= old_ops);
                    assert forall|i: int| 0 <= i < k implies #[trigger] trigger_read(seg, buf@, i) by {
                        assert(trigger_read(seg_b, buf@, i));
                        assert(seg[i] == seg_b[i]);
                    }
                    assert forall|j: int| k <= j < read implies #[trigger] polled_read(seg, buf@, k, j) by {
                        assert(polled_read(seg_b, buf@, k, j));
                        assert(seg[k + 2 * (j - k)] == seg_b[k + 2 * (j - k)]);
                        assert(seg[k + 2 * (j - k) + 1] == seg_b[k + 2 * (j - k) + 1]);
                    }
                }
                break;
            }
            let ghost buf_before = buf@;
            let b = self.read_fifo_unchecked();
            buf[read] = b;
            proof {
                let seg_b = before.subrange(n, before.len() as int);
                let seg = self.ops().subrange(n, self.ops().len() as int);
                assert(self.ops().subrange(0, n) =~= old_ops);
                assert forall|i: int| 0 <= i < k implies #[trigger] trigger_read(seg, buf@, i) by {
                    assert(trigger_read(seg_b, buf_before, i));
                    assert(seg[i] == seg_b[i]);
                }
                assert forall|j: int| k <= j < read + 1 implies #[trigger] polled_read(seg, buf@, k, j) by {
                    if j < read {
                        assert(polled_read(seg_b, buf_before, k, j));
                        assert(seg[k + 2 * (j - k)] == seg_b[k + 2 * (j - k)]);
                        assert(seg[k + 2 * (j - k) + 1] == seg_b[k + 2 * (j - k) + 1]);
                    }
                }
            }
            read += 1;
        }
        proof {
            let seg = self.ops().subrange(n, self.ops().len() as int);
            assert(seg[seg.len() - 1] == self.ops()[self.ops().len() - 1]);
        }
        read
    }

    /// Read bytes from the RX FIFO into `buf` until it is full or the FIFO runs empty;
    /// returns the number of bytes read. Errors reported while reading are recorded.
    pub fn read_available(&mut self, buf: &mut [u8]) -> (read: usize)
        ensures
            read <= old(buf)@.len(),
            final(buf)@.len() == old(buf)@.len(),
            ({
                let n = old(self).ops().len() as int;
                let ops = final(self).ops();
                let seg = ops.subrange(n, ops.len() as int);
                &&& ops.len() >= n
                &&& ops.subrange(0, n) == old(self).ops()
                &&& forall|i: int| 0 <= i < read ==> #[trigger] received_byte(seg, final(buf)@, i)
                &&& if read < old(buf)@.len() {
                    &&& seg.len() == 2 * read + 1
                    &&& seg[2 * read].is_read_of(LSR_INDEX)
                    &&& !bit_is_set(seg[2 * read].value(), LSR_DATA_READY)
                } else {
                    seg.len() == 2 * read
                }
                &&& final(self).last_errors() == errors_after_reads(old(self).last_errors(), seg, read as nat)
            }),
            forall|j: int| read <= j < old(buf)@.len() ==> final(buf)@[j] == old(buf)@[j],
    {
        let ghost n = self.ops().len() as int;
        let ghost old_ops = self.ops();
        let ghost old_errors = self.last_errors();
        let ghost old_buf = buf@;
        let mut read: usize = 0;
        while read < buf.len()
            invariant_except_break
                self.ops().len() == n + 2 * read,
            invariant
                read <= buf@.len(),
                buf@.len() == old_buf.len(),
                n == old_ops.len(),
                self.ops().len() >= n + 2 * read,
                self.ops().subrange(0, n) == old_ops,
                forall|i: int| 0 <= i < read ==> #[trigger] received_byte(self.ops().subrange(n, self.ops().len() as int), buf@, i),
                forall|j: int| read <= j < buf@.len() ==> buf@[j] == old_buf[j],
                self.last_errors() == errors_after_reads(old_errors, self.ops().subrange(n, self.ops().len() as int), read as nat),
            ensures
                read <= buf@.len(),
                buf@.len() == old_buf.len(),
                self.ops().subrange(0, n) == old_ops,
                forall|i: int| 0 <= i < read ==> #[trigger] received_byte(self.ops().subrange(n, self.ops().len() as int), buf@, i),
                forall|j: int| read <= j < buf@.len() ==> buf@[j] == old_buf[j],
                self.last_errors() == errors_after_reads(old_errors, self.ops().subrange(n, self.ops().len() as int), read as nat),
                if read < buf@.len() {
                    &&& self.ops().len() == n + 2 * read + 1
                    &&& self.ops()[n + 2 * read].is_read_of(LSR_INDEX)
                    &&& !bit_is_set(self.ops()[n + 2 * read].value(), LSR_DATA_READY)
                } else {
                    self.ops().len() == n + 2 * read
                },
            decreases buf@.len() - read,
        {
            let ghost before = self.ops();
            let ghost buf_before = buf@;
            match self.read_fifo() {
                Ok(data) => {
                    buf[read] = data;
                    proof {
                        let seg_b = before.subrange(n, before.len() as int);
                        let seg = self.ops().subrange(n, self.ops().len() as int);
                        assert(seg.subrange(0, 2 * read) =~= seg_b);
                        assert(self.ops().subrange(0, n) =~= old_ops);
                        assert forall|i: int| 0 <= i < read + 1 implies #[trigger] received_byte(seg, buf@, i) by {
                            if i < read {
                                assert(received_byte(seg_b, buf_before, i));
                                assert(seg[2 * i] == seg_b[2 * i]);
                                assert(seg[2 * i + 1] == seg_b[2 * i + 1]);
                            }
                        }
                        lemma_errors_after_reads_step(old_errors, seg_b, seg, read as nat);
                    }
                    read += 1;
                },
                Err(_) => {
                    proof {
                        let seg_b = before.subrange(n, before.len() as int);
                        let seg = self.ops().subrange(n, self.ops().len() as int);
                        assert(seg.subrange(0, 2 * read) =~= seg_b);
                        assert(seg_b.subrange(0, 2 * read) =~= seg_b);
                        assert(self.ops().subrange(0, n) =~= old_ops);
                        assert forall|i: int| 0 <= i < read implies #[trigger] received_byte(seg, buf@, i) by {
                            assert(received_byte(seg_b, buf@, i));
                            assert(seg[2 * i] == seg_b[2 * i]);
                            assert(seg[2 * i + 1] == seg_b[2 * i + 1]);
                        }
                        lemma_errors_after_reads_same(old_errors, seg_b, seg, read as nat);
                    }
                    break;
                },
            }
        }
        read
    }

    /// Extract RX errors from the LSR register.
    pub fn lsr_to_errors(status_reg: &LineStatus) -> (r: RxErrors)
        ensures
            r == RxErrors::from_lsr(status_reg@),
    {
        let mut errors = RxErrors::new();
        if status_reg.framing_error() {
            errors.frame = true;
        }
        if status_reg.parity_error() {
            errors.parity = true;
        }
        if status_reg.overrun_error() {
            errors.overrun = true;
        }
        errors
    }
}

/// The errors after the first `count` received bytes only depend on those reads.
proof fn lemma_errors_after_reads_same(before: Option<RxErrors>, a: Seq<BusOp>, b: Seq<BusOp>, count: nat)
    requires
        a.len() >= 2 * count,
        b.len() >= 2 * count,
        a.subrange(0, 2 * count as int) == b.subrange(0, 2 * count as int),
    ensures
        errors_after_reads(before, a, count) == errors_after_reads(before, b, count),
    decreases count,
{
    if count > 0 {
        let k = (count - 1) as nat;
        assert(a.subrange(0, 2 * k as int) == a.subrange(0, 2 * count as int).subrange(0, 2 * k as int));
        assert(b.subrange(0, 2 * k as int) == b.subrange(0, 2 * count as int).subrange(0, 2 * k as int));
        lemma_errors_after_reads_same(before, a, b, k);
        assert(a[2 * k as int] == a.subrange(0, 2 * count as int)[2 * k as int]);
        assert(b[2 * k as int] == b.subrange(0, 2 * count as int)[2 * k as int]);
    }
}

/// One more received byte folds in the errors of its line status read.
proof fn lemma_errors_after_reads_step(before: Option<RxErrors>, a: Seq<BusOp>, b: Seq<BusOp>, count: nat)
    requires
        a.len() == 2 * count,
        b.len() >= 2 * count + 2,
        b.subrange(0, 2 * count as int) == a,
    ensures
        errors_after_reads(before, b, count + 1) == errors_after_lsr(errors_after_reads(before, a, count), b[2 * count as int].value()),
{
    assert(a.subrange(0, 2 * count as int) =~= a);
    lemma_errors_after_reads_same(before, a, b, count);
}

} // verus!
