//! Register map of the AXI DMA core in scatter gather mode (18 words), and its buffer
//! descriptors.
pub mod fields;

pub use crate::dma::regs::fields::{Control, Status};
use crate::dma::regs::scatter_gather::fields::DescriptorStatus;
use crate::mmio::{BusOp, RegisterBlock};
use vcell::VolatileCell;
use vstd::prelude::*;

verus! {

/// Number of 32-bit words of the register block.
pub const REGISTER_WORDS: usize = 18;
/// Word index of the MM2S control register.
pub const MM2S_CONTROL_INDEX: usize = 0;
/// Word index of the MM2S status register.
pub const MM2S_STATUS_INDEX: usize = 1;
/// Word index of the lower word of the MM2S current descriptor pointer. The lower six bits
/// are reserved; descriptors must be aligned to 16 words.
pub const MM2S_CURRENT_DESCRIPTOR_POINTER_LOWER_WORD_INDEX: usize = 2;
/// Word index of the upper word of the MM2S current descriptor pointer.
pub const MM2S_CURRENT_DESCRIPTOR_POINTER_UPPER_WORD_INDEX: usize = 3;
/// Word index of the lower word of the MM2S tail descriptor pointer.
pub const MM2S_TAIL_DESCRIPTOR_LOWER_WORD_INDEX: usize = 4;
/// Word index of the upper word of the MM2S tail descriptor pointer.
pub const MM2S_TAIL_DESCRIPTOR_UPPER_WORD_INDEX: usize = 5;
/// Word index of the scatter gather user and cache control register.
pub const SCATTER_GATHER_CONTROL_INDEX: usize = 11;
/// Word index of the S2MM control register.
pub const S2MM_CONTROL_INDEX: usize = 12;
/// Word index of the S2MM status register.
pub const S2MM_STATUS_INDEX: usize = 13;
/// Word index of the lower word of the S2MM current descriptor pointer.
pub const S2MM_CURRENT_DESCRIPTOR_POINTER_LOWER_WORD_INDEX: usize = 14;
/// Word index of the upper word of the S2MM current descriptor pointer.
pub const S2MM_CURRENT_DESCRIPTOR_POINTER_UPPER_WORD_INDEX: usize = 15;
/// Word index of the lower word of the S2MM tail descriptor pointer.
pub const S2MM_TAIL_DESCRIPTOR_LOWER_WORD_INDEX: usize = 16;
/// Word index of the upper word of the S2MM tail descriptor pointer.
pub const S2MM_TAIL_DESCRIPTOR_UPPER_WORD_INDEX: usize = 17;

/// Register block of the AXI DMA core in scatter gather mode.
pub struct MmioRegisters {
    block: RegisterBlock<18>,
}

impl MmioRegisters {
    /// The accesses made through this handle so far, oldest first.
    pub closed spec fn ops(&self) -> Seq<BusOp> {
        self.block.ops()
    }

    /// Handle on the given register cells, with an empty trace.
    pub fn new(cells: &'static [VolatileCell<u32>; 18]) -> (r: Self)
        ensures
            r.ops() == Seq::<BusOp>::empty(),
    {
        MmioRegisters { block: RegisterBlock::new(cells) }
    }

    /// Read register `index` and record the read.
    pub fn read(&mut self, index: usize) -> (value: u32)
        requires
            index < REGISTER_WORDS,
        ensures
            final(self).ops() == old(self).ops().push(BusOp::Read { index, value }),
    {
        self.block.read(index)
    }

    /// Write register `index` and record the write.
    pub fn write(&mut self, index: usize, value: u32)
        requires
            index < REGISTER_WORDS,
        ensures
            final(self).ops() == old(self).ops().push(BusOp::Write { index, value }),
    {
        self.block.write(index, value)
    }
}

/// Number of 32-bit words of a buffer descriptor.
pub const DESCRIPTOR_WORDS: usize = 16;
/// Word index of the lower word of the next descriptor pointer. The lower six bits are
/// reserved; descriptors must be aligned to 16 words.
pub const NEXT_DESCRIPTOR_POINTER_LOWER_WORD_INDEX: usize = 0;
/// Word index of the upper word of the next descriptor pointer.
pub const NEXT_DESCRIPTOR_POINTER_UPPER_WORD_INDEX: usize = 1;
/// Word index of the lower word of the buffer address.
pub const BUFFER_ADDRESS_LOWER_WORD_INDEX: usize = 2;
/// Word index of the upper word of the buffer address.
pub const BUFFER_ADDRESS_UPPER_WORD_INDEX: usize = 3;
/// Word index of the control word.
pub const CONTROL_WORD_INDEX: usize = 6;
/// Word index of the status word.
pub const STATUS_WORD_INDEX: usize = 7;
/// Word index of the first of the five application words.
pub const APP_WORDS_INDEX: usize = 8;

/// A buffer descriptor in memory shared with the DMA engine: sixteen volatile words, which
/// the memory behind the handle must align to 16 words.
pub struct Descriptor {
    block: RegisterBlock<16>,
}

impl Descriptor {
    /// The accesses made through this handle so far, oldest first.
    pub closed spec fn ops(&self) -> Seq<BusOp> {
        self.block.ops()
    }

    /// Handle on the descriptor held in the given words, with an empty trace.
    pub fn new(cells: &'static [VolatileCell<u32>; 16]) -> (r: Self)
        ensures
            r.ops() == Seq::<BusOp>::empty(),
    {
        Descriptor { block: RegisterBlock::new(cells) }
    }

    /// Clear all sixteen words of the descriptor.
    pub fn clear(&mut self)
        ensures
            final(self).ops().len() == old(self).ops().len() + DESCRIPTOR_WORDS,
            final(self).ops().subrange(0, old(self).ops().len() as int) == old(self).ops(),
            forall|i: int| 0 <= i < DESCRIPTOR_WORDS ==> #[trigger] final(self).ops()[old(self).ops().len() + i] == (BusOp::Write { index: i as usize, value: 0 }),
    {
        let ghost n = self.ops().len() as int;
        let ghost old_ops = self.ops();
        let mut i: usize = 0;
        while i < DESCRIPTOR_WORDS
            invariant
                i <= DESCRIPTOR_WORDS,
                n == old_ops.len(),
                self.ops().len() == n + i,
                self.ops().subrange(0, n) == old_ops,
                forall|j: int| 0 <= j < i ==> #[trigger] self.ops()[n + j] == (BusOp::Write { index: j as usize, value: 0 }),
            decreases DESCRIPTOR_WORDS - i,
        {
            let ghost before = self.ops();
            self.block.write(i, 0);
            proof {
                assert(self.ops().subrange(0, n) =~= before.subrange(0, n));
                assert forall|j: int| 0 <= j < i + 1 implies #[trigger] self.ops()[n + j] == (BusOp::Write { index: j as usize, value: 0 }) by {
                    if j < i {
                        assert(self.ops()[n + j] == before[n + j]);
                    }
                }
            }
            i += 1;
        }
    }

    /// Read the status word.
    pub fn status_word(&mut self) -> (r: DescriptorStatus)
        ensures
            final(self).ops() == old(self).ops().push(BusOp::Read { index: STATUS_WORD_INDEX, value: r@ }),
    {
        DescriptorStatus::new_with_raw_value(self.block.read(STATUS_WORD_INDEX))
    }

    /// Write the lower word of the next descriptor pointer.
    pub fn set_next_descriptor_pointer_lower_word(&mut self, value: u32)
        ensures
            final(self).ops() == old(self).ops().push(BusOp::Write { index: NEXT_DESCRIPTOR_POINTER_LOWER_WORD_INDEX, value }),
    {
        self.block.write(NEXT_DESCRIPTOR_POINTER_LOWER_WORD_INDEX, value)
    }

    /// Write the upper word of the next descriptor pointer.
    pub fn set_next_descriptor_pointer_upper_word(&mut self, value: u32)
        ensures
            final(self).ops() == old(self).ops().push(BusOp::Write { index: NEXT_DESCRIPTOR_POINTER_UPPER_WORD_INDEX, value }),
    {
        self.block.write(NEXT_DESCRIPTOR_POINTER_UPPER_WORD_INDEX, value)
    }
}

/// The writes that point a descriptor at the descriptor at `address`: the lower address word,
/// and on targets with 64-bit pointers also the upper one.
pub open spec fn next_pointer_ops(address: usize) -> Seq<BusOp> {
    if usize::BITS == 64 {
        seq![
            BusOp::Write { index: NEXT_DESCRIPTOR_POINTER_LOWER_WORD_INDEX, value: address as u32 },
            BusOp::Write { index: NEXT_DESCRIPTOR_POINTER_UPPER_WORD_INDEX, value: (address as u64 / 0x1_0000_0000u64) as u32 },
        ]
    } else {
        seq![BusOp::Write { index: NEXT_DESCRIPTOR_POINTER_LOWER_WORD_INDEX, value: address as u32 }]
    }
}

/// The next-descriptor-pointer words written for `address` hold exactly that address: on a
/// target with 64-bit pointers the upper word times 2^32 plus the lower word is `address`; on
/// a target with 32-bit pointers the single lower word is `address`. So the descriptor they
/// are written to points back at the descriptor at `address`.
pub proof fn lemma_next_pointer_words_hold_address(address: usize)
    ensures
        usize::BITS == 64 ==> {
            let ops = next_pointer_ops(address);
            &&& ops.len() == 2
            &&& ops[0] == (BusOp::Write { index: NEXT_DESCRIPTOR_POINTER_LOWER_WORD_INDEX, value: ops[0].value() })
            &&& ops[1] == (BusOp::Write { index: NEXT_DESCRIPTOR_POINTER_UPPER_WORD_INDEX, value: ops[1].value() })
            &&& ops[1].value() * 0x1_0000_0000 + ops[0].value() == address
        },
        usize::BITS == 32 ==> {
            let ops = next_pointer_ops(address);
            &&& ops.len() == 1
            &&& ops[0] == (BusOp::Write { index: NEXT_DESCRIPTOR_POINTER_LOWER_WORD_INDEX, value: ops[0].value() })
            &&& ops[0].value() == address
        },
{
    let a = address;
    assert((a as u32) as int == (a as int) % 0x1_0000_0000) by (bit_vector);
    assert(usize::BITS == 32 ==> (a as u32) as int == a as int) by (bit_vector);
    assert(usize::BITS == 64 ==> ((a as u64) / 0x1_0000_0000u64) as u32 as int == (a as int) / 0x1_0000_0000)
        by (bit_vector);
    assert((a as int) / 0x1_0000_0000 * 0x1_0000_0000 + (a as int) % 0x1_0000_0000 == a as int) by {
        vstd::arithmetic::div_mod::lemma_fundamental_div_mod(a as int, 0x1_0000_0000);
    }
}

/// Configures a descriptor list cyclic by setting the pointer to the next descriptor of the
/// last descriptor to the first descriptor, which lies at `first_address`.
pub fn configure_descriptors_cyclic(descriptors: &mut [Descriptor], first_address: usize)
    ensures
        final(descriptors)@.len() == old(descriptors)@.len(),
        old(descriptors)@.len() == 0 ==> final(descriptors)@ == old(descriptors)@,
        old(descriptors)@.len() > 0 ==> {
            let last = old(descriptors)@.len() - 1;
            &&& final(descriptors)@[last].ops() == old(descriptors)@[last].ops() + next_pointer_ops(first_address)
            &&& forall|i: int| 0 <= i < last ==> #[trigger] final(descriptors)@[i] == old(descriptors)@[i]
        },
{
    if descriptors.len() == 0 {
        return;
    }
    let last = descriptors.len() - 1;
    if usize::BITS == 64 {
        let upper = (first_address as u64 / 0x1_0000_0000u64) as u32;
        descriptors[last].set_next_descriptor_pointer_lower_word(first_address as u32);
        descriptors[last].set_next_descriptor_pointer_upper_word(upper);
    } else {
        descriptors[last].set_next_descriptor_pointer_lower_word(first_address as u32);
    }
}

} // verus!
