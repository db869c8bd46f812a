//! # AMD AXI DMA driver
//!
//! Simple (direct register mode) MM2S transfers of the AMD AXI DMA core. The driver works on
//! the core's register block, handed to it as 23 volatile 32-bit cells; every access it makes
//! through a mutable handle is recorded in the ghost trace of that handle. Waiting for the
//! hardware (reset done, transfer idle) is left to the caller, which polls
//! [SimpleDma::reset_in_progress] and [SimpleDma::idle].
pub mod regs;

use crate::bits::{
    bit_is_set, field_value, lemma_bit_read_after_write, lemma_bit_write_keeps_others,
    lemma_field_read_after_write, lemma_low_mask_values, with_bit, with_field,
};
use crate::dma::regs::direct_register::fields::Mm2SLength;
use crate::dma::regs::direct_register::{
    MmioRegisters, MM2S_CONTROL_INDEX, MM2S_SOURCE_ADDRESS_LOWER_WORD_INDEX, MM2S_STATUS_INDEX,
    MM2S_TRANSFER_LENGTH_INDEX,
};
use crate::dma::regs::fields::{
    Control, RunStop, Status, CONTROL_RESET, CONTROL_RUN_STOP, STATUS_COMPLETION_INTERRUPT,
    STATUS_IDLE,
};
use crate::mmio::BusOp;
use vcell::VolatileCell;
use vstd::prelude::*;

verus! {

/// Number of waker slots for asynchronous transfers.
pub const NUM_WAKERS: usize = 1;

/// Largest length of one transfer in bytes (2^26 - 1).
pub const MAX_TRANSFER_LENGTH: usize = 0x3ff_ffff;

/// Invalid buffer length for DMA transfer. The length must be less than or equal to
/// 2^26 - 1 bytes.
#[derive(Debug, Clone, Copy, PartialEq, Eq)]
pub struct InvalidBufferLengthError;

/// The register writes that start an MM2S transfer of `length` bytes from `source_address`,
/// after the control register read `control`: set the channel running (keeping all other
/// control bits), write the source address, then the length, which starts the transfer.
pub open spec fn transfer_ops(control: BusOp, source_address: u32, length: usize) -> Seq<BusOp> {
    seq![
        control,
        BusOp::Write { index: MM2S_CONTROL_INDEX, value: with_bit(control.value(), CONTROL_RUN_STOP, true) },
        BusOp::Write { index: MM2S_SOURCE_ADDRESS_LOWER_WORD_INDEX, value: source_address },
        BusOp::Write { index: MM2S_TRANSFER_LENGTH_INDEX, value: with_field(0, 0, 26, length as u32) },
    ]
}

/// What [write] does: reject a length above [MAX_TRANSFER_LENGTH] without any register
/// access, otherwise start the transfer.
pub open spec fn write_post(before: Seq<BusOp>, after: Seq<BusOp>, source_address: u32, length: usize, r: Result<(), InvalidBufferLengthError>) -> bool {
    if length > MAX_TRANSFER_LENGTH {
        &&& r == Err::<(), InvalidBufferLengthError>(InvalidBufferLengthError)
        &&& after == before
    } else {
        let control = after[before.len() as int];
        &&& r == Ok::<(), InvalidBufferLengthError>(())
        &&& control.is_read_of(MM2S_CONTROL_INDEX)
        &&& after == before + transfer_ops(control, source_address, length)
    }
}

/// A started transfer first sets the channel running (keeping every other control bit as it
/// was read), then writes the source address, and writes the transfer length last. The
/// length write, which starts the DMA, is the only write of the length register and comes
/// after the source address write, so the DMA reads `length` bytes from `source_address`.
pub proof fn lemma_transfer_writes_length_last(before: Seq<BusOp>, after: Seq<BusOp>, source_address: u32, length: usize)
    requires
        write_post(before, after, source_address, length, Ok(())),
    ensures
        length <= MAX_TRANSFER_LENGTH,
        after.len() == before.len() + 4,
        after.subrange(0, before.len() as int) == before,
        after[before.len() as int].is_read_of(MM2S_CONTROL_INDEX),
        after[before.len() as int + 1] == (BusOp::Write { index: MM2S_CONTROL_INDEX, value: after[before.len() as int + 1].value() }),
        bit_is_set(after[before.len() as int + 1].value(), CONTROL_RUN_STOP),
        forall|b: u32| b < 32 && b != CONTROL_RUN_STOP ==> #[trigger] bit_is_set(after[before.len() as int + 1].value(), b)
            == bit_is_set(after[before.len() as int].value(), b),
        after[before.len() as int + 2] == (BusOp::Write { index: MM2S_SOURCE_ADDRESS_LOWER_WORD_INDEX, value: source_address }),
        after.last() == (BusOp::Write { index: MM2S_TRANSFER_LENGTH_INDEX, value: after.last().value() }),
        field_value(after.last().value(), 0, 26) == length,
        forall|i: int| before.len() <= i < after.len() - 1 ==> !(#[trigger] after[i] matches BusOp::Write { index: w, .. } && w == MM2S_TRANSFER_LENGTH_INDEX),
{
    let n = before.len() as int;
    let control = after[n];
    assert(after.subrange(0, n) =~= before);
    lemma_bit_read_after_write(control.value(), CONTROL_RUN_STOP, true);
    assert forall|b: u32| b < 32 && b != CONTROL_RUN_STOP implies #[trigger] bit_is_set(after[n + 1].value(), b)
        == bit_is_set(after[n].value(), b) by {
        lemma_bit_write_keeps_others(control.value(), CONTROL_RUN_STOP, b, true);
    }
    lemma_low_mask_values();
    lemma_field_read_after_write(0, 0, 26, length as u32);
}

/// Start an MM2S transfer of `length` bytes from `source_address`.
///
/// Please note that the source address must be aligned to the MM2S memory map data width
/// if the data realignment engine is not included.
pub fn write(regs: &mut MmioRegisters, source_address: u32, length: usize) -> (r: Result<(), InvalidBufferLengthError>)
    ensures
        write_post(old(regs).ops(), final(regs).ops(), source_address, length, r),
{
    if length > MAX_TRANSFER_LENGTH {
        return Err(InvalidBufferLengthError);
    }
    let control = regs.read_mm2s_control();
    regs.write_mm2s_control(control.with_run_stop(RunStop::Run));
    regs.write_mm2s_source_address_lower_word(source_address);
    regs.write_mm2s_transfer_length(Mm2SLength::zero().with_length(length as u32));
    proof {
        assert(regs.ops() =~= old(regs).ops() + transfer_ops(regs.ops()[old(regs).ops().len() as int], source_address, length));
    }
    Ok(())
}

/// Simple AXI DMA controller driver (direct register mode, MM2S channel).
pub struct SimpleDma {
    regs: MmioRegisters,
}

impl SimpleDma {
    /// The register accesses made by this driver so far.
    pub closed spec fn ops(&self) -> Seq<BusOp> {
        self.regs.ops()
    }

    /// Create a new simple AXI DMA controller driver on the given register block and start a
    /// soft reset of the MM2S channel. The reset is done once [Self::reset_in_progress]
    /// returns `false`.
    pub fn new(cells: &'static [VolatileCell<u32>; 23]) -> (r: Self)
        ensures
            r.ops() == seq![BusOp::Write { index: MM2S_CONTROL_INDEX, value: with_bit(0, CONTROL_RESET, true) }],
    {
        let mut regs = MmioRegisters::new(cells);
        regs.write_mm2s_control(Control::zero().with_reset(true));
        proof {
            assert(regs.ops() =~= seq![BusOp::Write { index: MM2S_CONTROL_INDEX, value: with_bit(0, CONTROL_RESET, true) }]);
        }
        SimpleDma { regs }
    }

    /// Whether the soft reset is still in progress: the reset bit of the MM2S control register.
    pub fn reset_in_progress(&mut self) -> (r: bool)
        ensures
            ({
                let c = final(self).ops()[old(self).ops().len() as int];
                &&& c.is_read_of(MM2S_CONTROL_INDEX)
                &&& final(self).ops() == old(self).ops().push(c)
                &&& r == bit_is_set(c.value(), CONTROL_RESET)
            }),
    {
        self.regs.read_mm2s_control().reset()
    }

    /// Start an MM2S transfer of `length` bytes from `source_address`; the transfer is done
    /// once [Self::idle] returns `true`.
    ///
    /// Please note that the source address must be aligned to the MM2S memory map data width
    /// if the data realignment engine is not included.
    pub fn start_write(&mut self, source_address: u32, length: usize) -> (r: Result<(), InvalidBufferLengthError>)
        ensures
            write_post(old(self).ops(), final(self).ops(), source_address, length, r),
    {
        if length > MAX_TRANSFER_LENGTH {
            return Err(InvalidBufferLengthError);
        }
        write(&mut self.regs, source_address, length)
    }

    /// Whether the MM2S channel is idle: the idle bit of the MM2S status register.
    pub fn idle(&mut self) -> (r: bool)
        ensures
            ({
                let s = final(self).ops()[old(self).ops().len() as int];
                &&& s.is_read_of(MM2S_STATUS_INDEX)
                &&& final(self).ops() == old(self).ops().push(s)
                &&& r == bit_is_set(s.value(), STATUS_IDLE)
            }),
    {
        self.regs.read_mm2s_status().idle()
    }
}

/// What [SimpleDmaAsync::on_interrupt] does: read the MM2S status register; if it shows a
/// completion interrupt, clear it by writing only that bit back.
pub open spec fn on_interrupt_post(before: Seq<BusOp>, after: Seq<BusOp>, r: bool) -> bool {
    let s = after[before.len() as int];
    &&& s.is_read_of(MM2S_STATUS_INDEX)
    &&& r == bit_is_set(s.value(), STATUS_COMPLETION_INTERRUPT)
    &&& if r {
        after == before.push(s).push(
            BusOp::Write { index: MM2S_STATUS_INDEX, value: with_bit(0, STATUS_COMPLETION_INTERRUPT, true) },
        )
    } else {
        after == before.push(s)
    }
}

/// AXI DMA controller driver for asynchronous MM2S transfers; the waker slot names the
/// completion flag that [Self::on_interrupt] sets.
pub struct SimpleDmaAsync {
    regs: MmioRegisters,
    waker_index: usize,
}

impl SimpleDmaAsync {
    /// The register accesses made by this driver so far.
    pub closed spec fn ops(&self) -> Seq<BusOp> {
        self.regs.ops()
    }

    /// The waker slot of this driver.
    pub closed spec fn spec_waker_index(&self) -> usize {
        self.waker_index
    }

    /// Driver on the given register block using waker slot `waker_index`.
    pub fn new(cells: &'static [VolatileCell<u32>; 23], waker_index: usize) -> (r: Self)
        requires
            waker_index < NUM_WAKERS,
        ensures
            r.ops() == Seq::<BusOp>::empty(),
            r.spec_waker_index() == waker_index,
    {
        SimpleDmaAsync { regs: MmioRegisters::new(cells), waker_index }
    }

    /// The waker slot of this driver.
    pub fn waker_index(&self) -> (r: usize)
        ensures
            r == self.spec_waker_index(),
    {
        self.waker_index
    }

    /// Start an MM2S transfer of `length` bytes from `source_address`; completion is
    /// signalled by [Self::on_interrupt].
    pub fn start_write(&mut self, source_address: u32, length: usize) -> (r: Result<(), InvalidBufferLengthError>)
        ensures
            write_post(old(self).ops(), final(self).ops(), source_address, length, r),
            final(self).spec_waker_index() == old(self).spec_waker_index(),
    {
        write(&mut self.regs, source_address, length)
    }

    /// Interrupt handler: returns whether the MM2S channel signalled completion, and clears
    /// the completion interrupt if so.
    pub fn on_interrupt(regs: &mut MmioRegisters) -> (r: bool)
        ensures
            on_interrupt_post(old(regs).ops(), final(regs).ops(), r),
    {
        if regs.read_mm2s_status().completion_interrupt() {
            regs.write_mm2s_status(Status::zero().with_completion_interrupt(true));
            true
        } else {
            false
        }
    }
}

} // verus!
