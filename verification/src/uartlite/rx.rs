//! # Receiver (RX) support module
use crate::bits::{bit_is_set, field_value};
use crate::mmio::BusOp;
use crate::uartlite::registers::{
    MmioRegisters, Status, RX_FIFO_INDEX, STATUS_FRAME_ERROR, STATUS_OVERRUN_ERROR,
    STATUS_PARITY_ERROR, STATUS_RX_FIFO_VALID_DATA, STAT_REG_INDEX,
};
use crate::WouldBlock;
use vstd::prelude::*;

verus! {

/// RX errors structure.
#[derive(Debug, Clone, Copy, PartialEq, Eq)]
pub struct RxErrors {
    parity: bool,
    frame: bool,
    overrun: bool,
}

impl RxErrors {
    /// Parity error flag.
    pub closed spec fn spec_parity(&self) -> bool {
        self.parity
    }

    /// Frame error flag.
    pub closed spec fn spec_frame(&self) -> bool {
        self.frame
    }

    /// Overrun error flag.
    pub closed spec fn spec_overrun(&self) -> bool {
        self.overrun
    }

    /// The error flags that a status register value reports.
    pub closed spec fn from_status(status: u32) -> RxErrors {
        RxErrors {
            parity: bit_is_set(status, STATUS_PARITY_ERROR),
            frame: bit_is_set(status, STATUS_FRAME_ERROR),
            overrun: bit_is_set(status, STATUS_OVERRUN_ERROR),
        }
    }

    /// The error flags of [Self::from_status] are the error bits of the status value, and the
    /// flags determine the structure.
    pub proof fn lemma_from_status(status: u32, e: RxErrors)
        ensures
            Self::from_status(status).spec_parity() == bit_is_set(status, STATUS_PARITY_ERROR),
            Self::from_status(status).spec_frame() == bit_is_set(status, STATUS_FRAME_ERROR),
            Self::from_status(status).spec_overrun() == bit_is_set(status, STATUS_OVERRUN_ERROR),
            (e.spec_parity() == bit_is_set(status, STATUS_PARITY_ERROR) && e.spec_frame()
                == bit_is_set(status, STATUS_FRAME_ERROR) && e.spec_overrun() == bit_is_set(
                status,
                STATUS_OVERRUN_ERROR,
            )) ==> e == Self::from_status(status),
    {
    }

    /// Construct a new empty [RxErrors] structure.
    pub fn new() -> (r: Self)
        ensures
            !r.spec_parity(),
            !r.spec_frame(),
            !r.spec_overrun(),
    {
        RxErrors { parity: false, frame: false, overrun: false }
    }

    /// Parity error.
    pub fn parity(&self) -> (r: bool)
        ensures
            r == self.spec_parity(),
    {
        self.parity
    }

    /// Frame error.
    pub fn frame(&self) -> (r: bool)
        ensures
            r == self.spec_frame(),
    {
        self.frame
    }

    /// Overrun error.
    pub fn overrun(&self) -> (r: bool)
        ensures
            r == self.spec_overrun(),
    {
        self.overrun
    }

    /// Some error has occurred.
    pub fn has_errors(&self) -> (r: bool)
        ensures
            r == (self.spec_parity() || self.spec_frame() || self.spec_overrun()),
    {
        self.parity || self.frame || self.overrun
    }
}

impl Default for RxErrors {
    fn default() -> (r: Self)
        ensures
            !r.spec_parity(),
            !r.spec_frame(),
            !r.spec_overrun(),
    {
        RxErrors::new()
    }
}

/// Whether a status register value reports a parity, frame or overrun error.
pub open spec fn status_has_errors(status: u32) -> bool {
    bit_is_set(status, STATUS_PARITY_ERROR) || bit_is_set(status, STATUS_FRAME_ERROR)
        || bit_is_set(status, STATUS_OVERRUN_ERROR)
}

/// The errors that a status register value reports, if it reports any.
pub open spec fn status_errors(status: u32) -> Option<RxErrors> {
    if status_has_errors(status) {
        Some(RxErrors::from_status(status))
    } else {
        None
    }
}

/// The last recorded errors after a status value was read: the errors it reports, if any,
/// else those recorded before.
pub open spec fn errors_after_status(before: Option<RxErrors>, status: u32) -> Option<RxErrors> {
    match status_errors(status) {
        Some(e) => Some(e),
        None => before,
    }
}

/// Extract the RX errors from a status register value; `None` if it reports none.
pub fn handle_status_reg_errors(status: &Status) -> (r: Option<RxErrors>)
    ensures
        r == status_errors(status@),
{
    let parity = status.parity_error();
    let frame = status.frame_error();
    let overrun = status.overrun_error();
    if parity || frame || overrun {
        Some(RxErrors { parity, frame, overrun })
    } else {
        None
    }
}

/// What [Rx::read_fifo] does to an RX handle: one status read; if it shows no valid data,
/// nothing else and [WouldBlock]; otherwise the errors that the status reports are recorded
/// and one read of the RX FIFO gives the byte returned.
pub open spec fn read_fifo_post(before: Rx, after: Rx, r: Result<u8, WouldBlock>) -> bool {
    let n = before.ops().len() as int;
    let st = after.ops()[n];
    &&& st.is_read_of(STAT_REG_INDEX)
    &&& if bit_is_set(st.value(), STATUS_RX_FIFO_VALID_DATA) {
        let d = after.ops()[n + 1];
        &&& d.is_read_of(RX_FIFO_INDEX)
        &&& after.ops() == before.ops().push(st).push(d)
        &&& r == Ok::<u8, WouldBlock>(field_value(d.value(), 0, 8) as u8)
        &&& after.last_errors() == errors_after_status(before.last_errors(), st.value())
    } else {
        &&& after.ops() == before.ops().push(st)
        &&& r == Err::<u8, WouldBlock>(WouldBlock)
        &&& after.last_errors() == before.last_errors()
    }
}

/// Entry `i` of `seg` is one received byte: a status read showing valid data (entry `2 i`),
/// then the RX FIFO read (entry `2 i + 1`) whose low byte is `data[i]`.
pub open spec fn received_byte(seg: Seq<BusOp>, data: Seq<u8>, i: int) -> bool {
    &&& seg[2 * i].is_read_of(STAT_REG_INDEX)
    &&& bit_is_set(seg[2 * i].value(), STATUS_RX_FIFO_VALID_DATA)
    &&& seg[2 * i + 1].is_read_of(RX_FIFO_INDEX)
    &&& data[i] == field_value(seg[2 * i + 1].value(), 0, 8) as u8
}

/// The last recorded errors after the first `count` received bytes of `seg`.
pub open spec fn errors_after_reads(before: Option<RxErrors>, seg: Seq<BusOp>, count: nat) -> Option<RxErrors>
    decreases count,
{
    if count == 0 {
        before
    } else {
        errors_after_status(errors_after_reads(before, seg, (count - 1) as nat), seg[2 * (count - 1)].value())
    }
}

/// AXI UART Lite RX driver.
pub struct Rx {
    pub(crate) regs: MmioRegisters,
    pub(crate) errors: Option<RxErrors>,
}

impl Rx {
    /// The register accesses made by this handle so far.
    pub closed spec fn ops(&self) -> Seq<BusOp> {
        self.regs.ops()
    }

    /// The register handle of this half.
    pub closed spec fn registers(&self) -> MmioRegisters {
        self.regs
    }

    /// The last recorded RX errors.
    pub closed spec fn last_errors(&self) -> Option<RxErrors> {
        self.errors
    }

    /// RX driver on the given register block, with no recorded errors.
    pub fn new(regs: MmioRegisters) -> (r: Self)
        ensures
            r.ops() == regs.ops(),
            r.registers() == regs,
            r.last_errors() == None::<RxErrors>,
    {
        Rx { regs, errors: None }
    }

    /// Read the RX FIFO.
    ///
    /// Returns [WouldBlock] if there is nothing to read. Errors that the status register
    /// reports are recorded.
    pub fn read_fifo(&mut self) -> (r: Result<u8, WouldBlock>)
        ensures
            read_fifo_post(*old(self), *final(self), r),
    {
        let status = self.regs.read_stat_reg();
        if !status.rx_fifo_valid_data() {
            return Err(WouldBlock);
        }
        if let Some(errors) = handle_status_reg_errors(&status) {
            self.errors = Some(errors);
        }
        Ok(self.read_fifo_unchecked())
    }

    /// Read from the FIFO without checking the FIFO fill status.
    pub fn read_fifo_unchecked(&mut self) -> (r: u8)
        ensures
            ({
                let d = final(self).ops()[old(self).ops().len() as int];
                &&& d.is_read_of(RX_FIFO_INDEX)
                &&& final(self).ops() == old(self).ops().push(d)
                &&& r == field_value(d.value(), 0, 8) as u8
            }),
            final(self).last_errors() == old(self).last_errors(),
    {
        self.regs.read_rx_fifo().data()
    }

    /// Read bytes from the RX FIFO into `buf` until it is full or the FIFO runs empty;
    /// returns the number of bytes read. Errors reported while reading are recorded.
    pub fn read_available(&mut self, buf: &mut [u8]) -> (read: usize)
        ensures
            read <= old(buf)@.len(),
            final(buf)@.len() == old(buf)@.len(),
            ({
                let n = old(self).ops().len() as int;
                let ops = final(self).ops();
                let seg = ops.subrange(n, ops.len() as int);
                &&& ops.len() >= n
                &&& ops.subrange(0, n) == old(self).ops()
                &&& forall|i: int| 0 <= i < read ==> #[trigger] received_byte(seg, final(buf)@, i)
                &&& if read < old(buf)@.len() {
                    &&& seg.len() == 2 * read + 1
                    &&& seg[2 * read].is_read_of(STAT_REG_INDEX)
                    &&& !bit_is_set(seg[2 * read].value(), STATUS_RX_FIFO_VALID_DATA)
                } else {
                    seg.len() == 2 * read
                }
                &&& final(self).last_errors() == errors_after_reads(old(self).last_errors(), seg, read as nat)
            }),
            forall|j: int| read <= j < old(buf)@.len() ==> final(buf)@[j] == old(buf)@[j],
    {
        let ghost n = self.ops().len() as int;
        let ghost old_ops = self.ops();
        let ghost old_errors = self.last_errors();
        let ghost old_buf = buf@;
        let mut read: usize = 0;
        while read < buf.len()
            invariant_except_break
                self.ops().len() == n + 2 * read,
            invariant
                read <= buf@.len(),
                buf@.len() == old_buf.len(),
                n == old_ops.len(),
                self.ops().len() >= n + 2 * read,
                self.ops().subrange(0, n) == old_ops,
                forall|i: int| 0 <= i < read ==> #[trigger] received_byte(self.ops().subrange(n, self.ops().len() as int), buf@, i),
                forall|j: int| read <= j < buf@.len() ==> buf@[j] == old_buf[j],
                self.last_errors() == errors_after_reads(old_errors, self.ops().subrange(n, self.ops().len() as int), read as nat),
            ensures
                read <= buf@.len(),
                buf@.len() == old_buf.len(),
                self.ops().subrange(0, n) == old_ops,
                forall|i: int| 0 <= i < read ==> #[trigger] received_byte(self.ops().subrange(n, self.ops().len() as int), buf@, i),
                forall|j: int| read <= j < buf@.len() ==> buf@[j] == old_buf[j],
                self.last_errors() == errors_after_reads(old_errors, self.ops().subrange(n, self.ops().len() as int), read as nat),
                if read < buf@.len() {
                    &&& self.ops().len() == n + 2 * read + 1
                    &&& self.ops()[n + 2 * read].is_read_of(STAT_REG_INDEX)
                    &&& !bit_is_set(self.ops()[n + 2 * read].value(), STATUS_RX_FIFO_VALID_DATA)
                } else {
                    self.ops().len() == n + 2 * read
                },
            decreases buf@.len() - read,
        {
            let ghost before = self.ops();
            let ghost buf_before = buf@;
            match self.read_fifo() {
                Ok(data) => {
                    buf[read] = data;
                    proof {
                        let seg_b = before.subrange(n, before.len() as int);
                        let seg = self.ops().subrange(n, self.ops().len() as int);
                        assert(seg.subrange(0, 2 * read) =~= seg_b);
                        assert(self.ops().subrange(0, n) =~= old_ops);
                        assert forall|i: int| 0 <= i < read + 1 implies #[trigger] received_byte(seg, buf@, i) by {
                            if i < read {
                                assert(received_byte(seg_b, buf_before, i));
                                assert(seg[2 * i] == seg_b[2 * i]);
                                assert(seg[2 * i + 1] == seg_b[2 * i + 1]);
                            }
                        }
                        lemma_errors_after_reads_step(old_errors, seg_b, seg, read as nat);
                    }
                    read += 1;
                },
                Err(_) => {
                    proof {
                        let seg_b = before.subrange(n, before.len() as int);
                        let seg = self.ops().subrange(n, self.ops().len() as int);
                        assert(seg.subrange(0, 2 * read) =~= seg_b);
                        assert(seg_b.subrange(0, 2 * read) =~= seg_b);
                        assert(self.ops().subrange(0, n) =~= old_ops);
                        assert forall|i: int| 0 <= i < read implies #[trigger] received_byte(seg, buf@, i) by {
                            assert(received_byte(seg_b, buf@, i));
                            assert(seg[2 * i] == seg_b[2 * i]);
                            assert(seg[2 * i + 1] == seg_b[2 * i + 1]);
                        }
                        lemma_errors_after_reads_same(old_errors, seg_b, seg, read as nat);
                    }
                    break;
                },
            }
        }
        read
    }

    /// RX FIFO has data. Reads the status register once and returns its bit.
    pub fn has_data(&mut self) -> (r: bool)
        ensures
            ({
                let st = final(self).ops()[old(self).ops().len() as int];
                &&& st.is_read_of(STAT_REG_INDEX)
                &&& final(self).ops() == old(self).ops().push(st)
                &&& r == bit_is_set(st.value(), STATUS_RX_FIFO_VALID_DATA)
            }),
            final(self).last_errors() == old(self).last_errors(),
    {
        self.regs.read_stat_reg().rx_fifo_valid_data()
    }

    /// The last recorded RX errors, left in place.
    pub(crate) fn recorded_errors(&self) -> (r: Option<RxErrors>)
        ensures
            r == self.last_errors(),
    {
        self.errors
    }

    /// Mutable access to the register handle.
    pub(crate) fn regs_mut(&mut self) -> (r: &mut MmioRegisters)
        ensures
            r.ops() == old(self).ops(),
            final(self).ops() == final(r).ops(),
            final(self).last_errors() == old(self).last_errors(),
    {
        &mut self.regs
    }

    /// Read and clear the last recorded RX errors.
    pub fn read_and_clear_last_error(&mut self) -> (r: Option<RxErrors>)
        ensures
            r == old(self).last_errors(),
            final(self).last_errors() == None::<RxErrors>,
            final(self).ops() == old(self).ops(),
    {
        let errors = self.errors;
        self.errors = None;
        errors
    }
}

/// The errors after the first `count` received bytes only depend on those reads.
proof fn lemma_errors_after_reads_same(before: Option<RxErrors>, a: Seq<BusOp>, b: Seq<BusOp>, count: nat)
    requires
        a.len() >= 2 * count,
        b.len() >= 2 * count,
        a.subrange(0, 2 * count as int) == b.subrange(0, 2 * count as int),
    ensures
        errors_after_reads(before, a, count) == errors_after_reads(before, b, count),
    decreases count,
{
    if count > 0 {
        let k = (count - 1) as nat;
        assert(a.subrange(0, 2 * k as int) == a.subrange(0, 2 * count as int).subrange(0, 2 * k as int));
        assert(b.subrange(0, 2 * k as int) == b.subrange(0, 2 * count as int).subrange(0, 2 * k as int));
        lemma_errors_after_reads_same(before, a, b, k);
        assert(a[2 * k as int] == a.subrange(0, 2 * count as int)[2 * k as int]);
        assert(b[2 * k as int] == b.subrange(0, 2 * count as int)[2 * k as int]);
    }
}

/// One more received byte folds in the errors of its status read.
proof fn lemma_errors_after_reads_step(before: Option<RxErrors>, a: Seq<BusOp>, b: Seq<BusOp>, count: nat)
    requires
        a.len() == 2 * count,
        b.len() >= 2 * count + 2,
        b.subrange(0, 2 * count as int) == a,
    ensures
        errors_after_reads(before, b, count + 1) == errors_after_status(errors_after_reads(before, a, count), b[2 * count as int].value()),
{
    assert(a.subrange(0, 2 * count as int) =~= a);
    lemma_errors_after_reads_same(before, a, b, count);
}

} // verus!
