//! # Asynchronous TX support.
//!
//! The decisions of interrupt driven, asynchronous TX transfers. A transfer is tracked by a
//! [TxContext]: how many bytes of the user buffer were handed to the UART so far, and the
//! length of that buffer while a transfer is active. [start_transfer] starts a transfer,
//! and [on_interrupt_tx] advances it from the UART interrupt. Keeping the contexts per waker
//! slot, waking tasks and the futures themselves are left to the caller.
use crate::bits::bit_is_set;
use crate::mmio::BusOp;
use crate::uart16550::registers::{
    fifo_control_value, InterruptEnable, RxFifoTrigger, FIFO_OR_DLL_INDEX, IER_OR_DLM_INDEX,
    IER_THR_EMPTY, IIR_OR_FCR_INDEX, LSR_INDEX, LSR_THR_EMPTY,
};
use crate::uart16550::tx::{accepted_write, ier_with_thr_empty, Tx};
use crate::uart16550::FIFO_DEPTH;
use vstd::prelude::*;

verus! {

/// Number of waker slots for asynchronous TX transfers.
pub const NUM_WAKERS: usize = 1;

/// Invalid waker index error.
#[derive(Debug, Clone, Copy, PartialEq, Eq)]
pub struct InvalidWakerIndex(pub usize);

/// Check a waker slot index: `Ok` with the index if it is below [NUM_WAKERS].
pub fn validate_waker_index(waker_idx: usize) -> (r: Result<usize, InvalidWakerIndex>)
    ensures
        waker_idx < NUM_WAKERS ==> r == Ok::<usize, InvalidWakerIndex>(waker_idx),
        waker_idx >= NUM_WAKERS ==> r == Err::<usize, InvalidWakerIndex>(InvalidWakerIndex(waker_idx)),
{
    if waker_idx >= NUM_WAKERS {
        return Err(InvalidWakerIndex(waker_idx));
    }
    Ok(waker_idx)
}

/// State of the asynchronous transfer of one waker slot.
#[derive(Debug, Clone, Copy, PartialEq, Eq)]
pub struct TxContext {
    /// Number of bytes of the buffer handed to the UART so far.
    pub progress: usize,
    /// Length of the buffer of the active transfer; `None` while no transfer is active.
    pub slice_len: Option<usize>,
}

impl TxContext {
    /// No active transfer.
    pub fn new() -> (r: Self)
        ensures
            r.progress == 0,
            r.slice_len == None::<usize>,
    {
        TxContext { progress: 0, slice_len: None }
    }
}

/// What [on_interrupt_tx] did.
#[derive(Debug, Clone, Copy, PartialEq, Eq)]
pub enum TxInterruptOutcome {
    /// Nothing to do: invalid slot, THR empty interrupt not enabled, or no active transfer.
    Ignored,
    /// The transfer is complete; the THR empty interrupt was disabled. The waiting task must
    /// be told that the transfer is done.
    Completed,
    /// More bytes were handed to the UART; the transfer goes on.
    Continued,
}

/// A transfer context is consistent: while a transfer is active, no more bytes than its
/// buffer holds have been handed to the UART.
pub open spec fn transfer_valid(ctx: TxContext) -> bool {
    ctx.slice_len matches Some(len) ==> ctx.progress <= len
}

/// How [on_interrupt_tx] changes a transfer context, given its outcome `r`: the buffer length
/// never changes; a completion happens only on an active transfer whose progress reached its
/// length (or whose buffer is empty) and leaves the progress as it was; an ignored interrupt
/// leaves the progress as it was; a continued transfer only advances, never past its length
/// once it was below it.
pub open spec fn context_after_interrupt(before: TxContext, after: TxContext, r: TxInterruptOutcome) -> bool {
    &&& after.slice_len == before.slice_len
    &&& match r {
        TxInterruptOutcome::Completed => {
            &&& before.slice_len matches Some(len) && (before.progress >= len || len == 0)
            &&& after.progress == before.progress
        },
        TxInterruptOutcome::Ignored => after.progress == before.progress,
        TxInterruptOutcome::Continued => {
            &&& before.slice_len matches Some(len) && (before.progress < len ==> after.progress <= len)
            &&& before.progress <= after.progress
            &&& before.slice_len matches Some(len) && (before.progress >= len ==> after.progress == before.progress)
        },
    }
}

/// One interrupt keeps a transfer context consistent.
pub proof fn lemma_interrupt_keeps_transfer_valid(before: TxContext, after: TxContext, r: TxInterruptOutcome)
    requires
        transfer_valid(before),
        context_after_interrupt(before, after, r),
    ensures
        transfer_valid(after),
{
}

/// A transfer whose interrupt handler reports completion has handed over its whole buffer:
/// the progress that the completed transfer reports equals the length of its buffer.
pub proof fn lemma_completed_transfer_reports_length(before: TxContext, after: TxContext)
    requires
        transfer_valid(before),
        context_after_interrupt(before, after, TxInterruptOutcome::Completed),
    ensures
        after.slice_len == Some(after.progress),
{
}

/// Over any run of interrupts on a transfer that started consistent (as [start_transfer]
/// leaves it), the interrupt that completes it leaves a progress equal to the buffer length:
/// `contexts[i + 1]` is the context after interrupt `i`, whose outcome is `outcomes[i]`.
pub proof fn lemma_transfer_run_completes_with_length(contexts: Seq<TxContext>, outcomes: Seq<TxInterruptOutcome>)
    requires
        contexts.len() == outcomes.len() + 1,
        outcomes.len() > 0,
        transfer_valid(contexts[0]),
        forall|i: int| 0 <= i < outcomes.len() ==> #[trigger] context_after_interrupt(contexts[i], contexts[i + 1], outcomes[i]),
        outcomes.last() == TxInterruptOutcome::Completed,
    ensures
        contexts.last().slice_len == Some(contexts.last().progress),
{
    let last = outcomes.len() - 1;
    lemma_run_keeps_transfer_valid(contexts, outcomes, last);
    assert(context_after_interrupt(contexts[last], contexts[last + 1], outcomes[last]));
    lemma_completed_transfer_reports_length(contexts[last], contexts[last + 1]);
}

/// Every context of a run of interrupts that started consistent is consistent.
proof fn lemma_run_keeps_transfer_valid(contexts: Seq<TxContext>, outcomes: Seq<TxInterruptOutcome>, k: int)
    requires
        contexts.len() == outcomes.len() + 1,
        0 <= k < contexts.len(),
        transfer_valid(contexts[0]),
        forall|i: int| 0 <= i < outcomes.len() ==> #[trigger] context_after_interrupt(contexts[i], contexts[i + 1], outcomes[i]),
    ensures
        transfer_valid(contexts[k]),
    decreases k,
{
    if k > 0 {
        lemma_run_keeps_transfer_valid(contexts, outcomes, k - 1);
        assert(context_after_interrupt(contexts[k - 1], contexts[k - 1 + 1], outcomes[k - 1]));
        lemma_interrupt_keeps_transfer_valid(contexts[k - 1], contexts[k], outcomes[k - 1]);
    }
}

/// Start an asynchronous transfer of `data` on `tx`: disable the THR empty interrupt, reset
/// the TX FIFO, record the transfer in `context`, fill the FIFO with up to [FIFO_DEPTH]
/// bytes and enable the THR empty interrupt again.
pub fn start_transfer(tx: &mut Tx, context: &mut TxContext, data: &[u8])
    ensures
        ({
            let n = old(tx).ops().len() as int;
            let ops = final(tx).ops();
            let init = if data.len() < FIFO_DEPTH { data.len() as int } else { FIFO_DEPTH as int };
            let a = ops[n];
            let b = ops[n + 3 + init];
            &&& ops.len() == n + 5 + init
            &&& ops.subrange(0, n) == old(tx).ops()
            &&& a.is_read_of(IER_OR_DLM_INDEX)
            &&& ops[n + 1] == (BusOp::Write { index: IER_OR_DLM_INDEX, value: ier_with_thr_empty(a.value(), false) })
            &&& ops[n + 2] == (BusOp::Write {
                index: IIR_OR_FCR_INDEX,
                value: fifo_control_value(RxFifoTrigger::EightBytes, false, true, false, true),
            })
            &&& forall|i: int| 0 <= i < init ==> #[trigger] ops[n + 3 + i] == (BusOp::Write { index: FIFO_OR_DLL_INDEX, value: data@[i] as u32 })
            &&& b.is_read_of(IER_OR_DLM_INDEX)
            &&& ops[n + 4 + init] == (BusOp::Write { index: IER_OR_DLM_INDEX, value: ier_with_thr_empty(b.value(), true) })
            &&& final(context).progress == init
            &&& final(context).slice_len == Some(data.len())
        }),
        transfer_valid(*final(context)),
{
    let ghost n = tx.ops().len() as int;
    let ghost old_ops = tx.ops();
    tx.disable_interrupt();
    tx.reset_fifo();
    let init_fill_count = if data.len() < FIFO_DEPTH { data.len() } else { FIFO_DEPTH };
    context.slice_len = Some(data.len());
    context.progress = init_fill_count;
    let ghost head = tx.ops();
    let mut i: usize = 0;
    while i < init_fill_count
        invariant
            i <= init_fill_count <= data.len(),
            tx.ops().len() == n + 3 + i,
            tx.ops().subrange(0, n + 3) == head,
            head.len() == n + 3,
            forall|j: int| 0 <= j < i ==> #[trigger] tx.ops()[n + 3 + j] == (BusOp::Write { index: FIFO_OR_DLL_INDEX, value: data@[j] as u32 }),
        decreases init_fill_count - i,
    {
        let ghost before = tx.ops();
        tx.write_fifo_unchecked(data[i]);
        proof {
            assert(tx.ops().subrange(0, n + 3) =~= before.subrange(0, n + 3));
        }
        i += 1;
    }
    let ghost filled = tx.ops();
    tx.enable_interrupt();
    proof {
        assert(tx.ops().subrange(0, n + 3) =~= filled.subrange(0, n + 3));
        assert(head.subrange(0, n) =~= old_ops);
        assert(tx.ops().subrange(0, n) =~= head.subrange(0, n));
        assert(head[n] == tx.ops()[n]);
        assert(head[n + 1] == tx.ops()[n + 1]);
        assert(head[n + 2] == tx.ops()[n + 2]);
        assert forall|j: int| 0 <= j < init_fill_count implies #[trigger] tx.ops()[n + 3 + j] == (BusOp::Write { index: FIFO_OR_DLL_INDEX, value: data@[j] as u32 }) by {
            assert(filled[n + 3 + j] == tx.ops()[n + 3 + j]);
        }
    }
}

/// This is the interrupt handler for asynchronous UART TX operations of one waker slot.
///
/// For a valid slot it reads the line status and interrupt enable registers. If the THR
/// empty interrupt is enabled and `context` holds an active transfer of `slice`, then either
/// the transfer is complete (all bytes handed over and the holding register empty, or an
/// empty buffer), in which case the THR empty interrupt is disabled; or bytes from
/// `progress` on are written while the UART accepts them.
pub fn on_interrupt_tx(tx: &mut Tx, waker_slot: usize, context: &mut TxContext, slice: &[u8]) -> (r: TxInterruptOutcome)
    requires
        old(context).slice_len matches Some(len) ==> slice.len() == len,
    ensures
        waker_slot >= NUM_WAKERS ==> r == TxInterruptOutcome::Ignored && final(tx).ops() == old(tx).ops(),
        context_after_interrupt(*old(context), *final(context), r),
        transfer_valid(*old(context)) ==> transfer_valid(*final(context)),
        waker_slot < NUM_WAKERS ==> ({
            let n = old(tx).ops().len() as int;
            let ops = final(tx).ops();
            let st = ops[n];
            let ie = ops[n + 1];
            let p0 = old(context).progress as int;
            &&& ops.len() >= n + 2
            &&& ops.subrange(0, n) == old(tx).ops()
            &&& st.is_read_of(LSR_INDEX)
            &&& ie.is_read_of(IER_OR_DLM_INDEX)
            &&& match old(context).slice_len {
                Some(len) if bit_is_set(ie.value(), IER_THR_EMPTY) => {
                    if (p0 >= len && bit_is_set(st.value(), LSR_THR_EMPTY)) || len == 0 {
                        let x = ops[n + 2];
                        &&& r == TxInterruptOutcome::Completed
                        &&& x.is_read_of(IER_OR_DLM_INDEX)
                        &&& ops == old(tx).ops().push(st).push(ie).push(x).push(
                            BusOp::Write { index: IER_OR_DLM_INDEX, value: ier_with_thr_empty(x.value(), false) },
                        )
                        &&& final(context).progress == p0
                    } else {
                        let p1 = final(context).progress as int;
                        let seg = ops.subrange(n + 2, ops.len() as int);
                        let count = if p1 > p0 { p1 - p0 } else { 0 };
                        &&& r == TxInterruptOutcome::Continued
                        &&& p0 <= p1
                        &&& p0 < len ==> p1 <= len
                        &&& p0 >= len ==> p1 == p0 && ops.len() == n + 2
                        &&& forall|i: int| 0 <= i < p1 - p0 ==> #[trigger] accepted_write(seg, slice@.subrange(p0, len as int), i)
                        &&& p0 < len ==> if p1 < len {
                            &&& seg.len() == 2 * count + 1
                            &&& seg[2 * count].is_read_of(LSR_INDEX)
                            &&& !bit_is_set(seg[2 * count].value(), LSR_THR_EMPTY)
                        } else {
                            seg.len() == 2 * count
                        }
                    }
                },
                _ => {
                    &&& r == TxInterruptOutcome::Ignored
                    &&& ops == old(tx).ops().push(st).push(ie)
                    &&& final(context).progress == old(context).progress
                },
            }
        }),
{
    if waker_slot >= NUM_WAKERS {
        return TxInterruptOutcome::Ignored;
    }
    let ghost n = tx.ops().len() as int;
    let status = tx.regs_mut().read_lsr();
    let ier = InterruptEnable::new_with_raw_value(tx.regs_mut().read_ier_or_dlm());
    // Interrupt are not even enabled.
    if !ier.thr_empty() {
        return TxInterruptOutcome::Ignored;
    }
    let slice_len = match context.slice_len {
        Some(len) => len,
        // No transfer active.
        None => return TxInterruptOutcome::Ignored,
    };
    // We have to use the THRE instead of the TEMT status flag here, because the interrupt
    // is configured to trigger on the THRE flag and the UART might still be busy shifting the
    // last byte out.
    if (context.progress >= slice_len && status.thr_empty()) || slice_len == 0 {
        tx.disable_interrupt();
        return TxInterruptOutcome::Completed;
    }
    let ghost p0 = context.progress as int;
    let ghost m = n + 2;
    let ghost head = tx.ops();
    let ghost data = slice@.subrange(p0, slice_len as int);
    if context.progress >= slice_len {
        return TxInterruptOutcome::Continued;
    }
    while context.progress < slice_len
        invariant_except_break
            tx.ops().len() == m + 2 * (context.progress - p0),
        invariant
            0 <= p0 <= context.progress <= slice_len,
            slice_len == slice@.len(),
            context.slice_len == Some(slice_len),
            data == slice@.subrange(p0, slice_len as int),
            head.len() == m,
            tx.ops().len() >= m + 2 * (context.progress - p0),
            tx.ops().subrange(0, m) == head,
            forall|i: int| 0 <= i < context.progress - p0 ==> #[trigger] accepted_write(tx.ops().subrange(m, tx.ops().len() as int), data, i),
        ensures
            p0 <= context.progress <= slice_len,
            context.slice_len == Some(slice_len),
            tx.ops().subrange(0, m) == head,
            forall|i: int| 0 <= i < context.progress - p0 ==> #[trigger] accepted_write(tx.ops().subrange(m, tx.ops().len() as int), data, i),
            if context.progress < slice_len {
                &&& tx.ops().len() == m + 2 * (context.progress - p0) + 1
                &&& tx.ops()[m + 2 * (context.progress - p0)].is_read_of(LSR_INDEX)
                &&& !bit_is_set(tx.ops()[m + 2 * (context.progress - p0)].value(), LSR_THR_EMPTY)
            } else {
                tx.ops().len() == m + 2 * (context.progress - p0)
            },
        decreases slice_len - context.progress,
    {
        let ghost before = tx.ops();
        assert(data[context.progress - p0] == slice@[context.progress as int]);
        let r = tx.write_fifo(slice[context.progress]);
        proof {
            let seg_b = before.subrange(m, before.len() as int);
            let seg = tx.ops().subrange(m, tx.ops().len() as int);
            assert(tx.ops().subrange(0, m) =~= head);
            assert forall|i: int| 0 <= i < context.progress - p0 implies #[trigger] accepted_write(seg, data, i) by {
                assert(accepted_write(seg_b, data, i));
                assert(seg[2 * i] == seg_b[2 * i]);
                assert(seg[2 * i + 1] == seg_b[2 * i + 1]);
            }
        }
        match r {
            Ok(_) => {
                context.progress = context.progress + 1;
            },
            Err(_) => {
                break;
            },
        }
    }
    proof {
        let seg = tx.ops().subrange(m, tx.ops().len() as int);
        assert(head.subrange(0, n) =~= old(tx).ops());
        assert(head[n] == tx.ops()[n]);
        assert(head[n + 1] == tx.ops()[n + 1]);
        assert(head.subrange(0, n) =~= tx.ops().subrange(0, n));
        if context.progress < slice_len {
            assert(seg[2 * (context.progress - p0)] == tx.ops()[m + 2 * (context.progress - p0)]);
        }
    }
    TxInterruptOutcome::Continued
}

} // verus!
