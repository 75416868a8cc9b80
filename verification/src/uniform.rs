//! Alignment-padded uniform blocks and the allocator that hands them out.

use crate::error::{RenderError, RenderErrorKind};
use crate::uniform_model::{
    lemma_block_stride_is_least_multiple, lemma_capacity_bytes_fit, lemma_max_blocks,
    lemma_offset_of_index, lemma_offsets_are_aligned, spec_block_stride, spec_max_blocks,
    BlockId, UniformBufferModel,
};
use core::marker::PhantomData;
use vstd::prelude::*;
use vstd::slice::slice_to_vec;

verus! {

/// Computes the stride of a block of `size` bytes under `alignment`: the
/// smallest multiple of `alignment` that is at least `size`. There is none
/// where `alignment` is zero, and none is given where it does not fit.
pub fn block_stride(size: u64, alignment: u64) -> (stride: Option<u64>)
    ensures
        stride.is_some() <==> alignment > 0 && spec_block_stride(size as nat, alignment as nat)
            <= u64::MAX,
        stride.is_some() ==> stride.unwrap() == spec_block_stride(size as nat, alignment as nat),
{
    if alignment == 0 {
        return None;
    }
    let rem: u64 = size % alignment;
    if rem == 0 {
        Some(size)
    } else {
        let pad: u64 = alignment - rem;
        if size > u64::MAX - pad {
            None
        } else {
            Some(size + pad)
        }
    }
}

/// A handle to one block of a [`DynamicUniformBuffer`]. It names the block
/// until the buffer is cleared.
pub struct DynamicUniformBufferBlock<T> {
    offset: u32,
    generation: u64,
    _phantom: PhantomData<T>,
}

impl<T> View for DynamicUniformBufferBlock<T> {
    type V = BlockId;

    closed spec fn view(&self) -> BlockId {
        BlockId { offset: self.offset, generation: self.generation }
    }
}

impl<T> DynamicUniformBufferBlock<T> {
    pub open spec fn spec_offset(&self) -> u32 {
        self@.offset
    }

    /// The generation of the buffer in which the block was allocated.
    pub open spec fn spec_generation(&self) -> u64 {
        self@.generation
    }

    /// The byte offset of the block in its buffer.
    #[verifier::when_used_as_spec(spec_offset)]
    pub fn offset(&self) -> (offset: u32)
        ensures
            offset == self.spec_offset(),
    {
        self.offset
    }
}

/// A growable buffer of uniform blocks, each padded to the binding
/// alignment of the device. Values are staged here and become visible to
/// the device by `flush`.
pub struct DynamicUniformBuffer<T: Copy> {
    alignment: u32,
    stride: u32,
    generation: u64,
    capacity: u64,
    staged: Vec<T>,
    device: Vec<T>,
}

impl<T: Copy> View for DynamicUniformBuffer<T> {
    type V = UniformBufferModel<T>;

    closed spec fn view(&self) -> UniformBufferModel<T> {
        UniformBufferModel {
            alignment: self.alignment as nat,
            stride: self.stride as nat,
            generation: self.generation as nat,
            capacity: self.capacity as nat,
            staged: self.staged@,
            device: self.device@,
        }
    }
}

impl<T: Copy> DynamicUniformBuffer<T> {
    #[verifier::type_invariant]
    pub closed spec fn inv(&self) -> bool {
        &&& self@.wf()
        &&& self@.stride == spec_block_stride(vstd::layout::size_of::<T>(), self@.alignment)
        &&& vstd::layout::size_of::<T>() > 0
    }

    /// A buffer is always well formed, and its stride is the padded size of
    /// its element type.
    pub proof fn lemma_inv(&self)
        requires
            self.inv(),
        ensures
            self@.wf(),
            self@.stride == spec_block_stride(vstd::layout::size_of::<T>(), self@.alignment),
            vstd::layout::size_of::<T>() > 0,
    {
    }

    /// Makes an empty buffer for a device whose uniform bindings must start
    /// at multiples of `alignment`.
    pub fn new(alignment: u32) -> (result: Result<Self, RenderError>)
        ensures
            match result {
                Ok(buffer) => {
                    &&& alignment > 0
                    &&& vstd::layout::size_of::<T>() > 0
                    &&& spec_block_stride(vstd::layout::size_of::<T>(), alignment as nat)
                        <= u32::MAX
                    &&& buffer@ == UniformBufferModel::<T>::fresh(
                        alignment as nat,
                        spec_block_stride(vstd::layout::size_of::<T>(), alignment as nat),
                    )
                },
                Err(error) => error.kind == if alignment == 0 {
                    RenderErrorKind::ZeroAlignment
                } else if vstd::layout::size_of::<T>() == 0 {
                    RenderErrorKind::ZeroSizedBlock
                } else {
                    RenderErrorKind::BlockTooLarge
                } && (alignment == 0 || vstd::layout::size_of::<T>() == 0 || spec_block_stride(
                    vstd::layout::size_of::<T>(),
                    alignment as nat,
                ) > u32::MAX),
            },
    {
        if alignment == 0 {
            return Err(RenderError::new(RenderErrorKind::ZeroAlignment));
        }
        let size: usize = core::mem::size_of::<T>();
        if size == 0 {
            return Err(RenderError::new(RenderErrorKind::ZeroSizedBlock));
        }
        let stride: u64 = match block_stride(size as u64, alignment as u64) {
            Some(stride) => stride,
            None => {
                return Err(RenderError::new(RenderErrorKind::BlockTooLarge));
            },
        };
        if stride > u32::MAX as u64 {
            return Err(RenderError::new(RenderErrorKind::BlockTooLarge));
        }
        proof {
            lemma_block_stride_is_least_multiple(size as nat, alignment as nat);
        }
        Ok(
            DynamicUniformBuffer {
                alignment,
                stride: stride as u32,
                generation: 0,
                capacity: 0,
                staged: Vec::new(),
                device: Vec::new(),
            },
        )
    }

    /// The padded size of one block: the distance from one block to the next.
    pub fn block_size(&self) -> (stride: u32)
        ensures
            stride == self@.stride,
    {
        self.stride
    }

    pub fn alignment(&self) -> (alignment: u32)
        ensures
            alignment == self@.alignment,
    {
        self.alignment
    }

    /// The number of blocks allocated since the buffer was made or cleared.
    pub fn len(&self) -> (len: usize)
        ensures
            len == self@.staged.len(),
    {
        self.staged.len()
    }

    pub fn is_empty(&self) -> (empty: bool)
        ensures
            empty == (self@.staged.len() == 0),
    {
        self.staged.len() == 0
    }

    /// The number of blocks that the backing buffer has room for.
    pub fn capacity(&self) -> (capacity: u64)
        ensures
            capacity == self@.capacity,
    {
        self.capacity
    }

    /// The size in bytes that the backing buffer must have.
    pub fn capacity_bytes(&self) -> (bytes: u64)
        ensures
            bytes == self@.capacity * self@.stride,
    {
        proof {
            use_type_invariant(self);
            lemma_capacity_bytes_fit(self@.capacity, self@.stride);
        }
        self.capacity * (self.stride as u64)
    }

    pub fn generation(&self) -> (generation: u64)
        ensures
            generation == self@.generation,
    {
        self.generation
    }

    /// Whether `block` names a block of this buffer.
    pub fn contains(&self, block: &DynamicUniformBufferBlock<T>) -> (held: bool)
        ensures
            held == self@.holds(block.spec_offset() as nat, block.spec_generation() as nat),
    {
        proof {
            use_type_invariant(self);
        }
        block.generation == self.generation && block.offset % self.stride == 0 && ((block.offset
            / self.stride) as usize) < self.staged.len()
    }

    /// The number of blocks that the buffer can hold at most: as many as
    /// have an offset that fits a dynamic offset.
    pub fn max_blocks(&self) -> (blocks: u64)
        ensures
            blocks == spec_max_blocks(self@.stride),
    {
        proof {
            use_type_invariant(self);
        }
        (u32::MAX / self.stride) as u64 + 1
    }

    /// Whether `count` more blocks can be allocated.
    pub fn has_room_for(&self, count: usize) -> (room: bool)
        ensures
            room == self@.has_room_for(count as nat),
    {
        proof {
            use_type_invariant(self);
            if count > 0 {
                lemma_max_blocks(self@.stride, (self@.staged.len() + count - 1) as nat);
            }
            lemma_max_blocks(self@.stride, self@.staged.len());
            lemma_capacity_bytes_fit(self@.capacity, self@.stride);
        }
        if count == 0 {
            return true;
        }
        let max_blocks: u64 = (u32::MAX / self.stride) as u64 + 1;
        let len: u64 = self.staged.len() as u64;
        let more: u64 = count as u64;
        len < max_blocks && more <= max_blocks - len
    }

    /// The staged values, block by block.
    pub fn staged(&self) -> (values: &[T])
        ensures
            values@ == self@.staged,
    {
        self.staged.as_slice()
    }

    /// The values that the device sees, block by block.
    pub fn flushed(&self) -> (values: &[T])
        ensures
            values@ == self@.device,
    {
        self.device.as_slice()
    }

    /// Appends one block that holds `value` and returns its handle. The
    /// offset of the block is a multiple of the alignment. The backing
    /// buffer grows as needed; blocks allocated before keep their offsets
    /// and their values. Fails, and changes nothing, only where the offset
    /// of the new block would not fit a dynamic offset.
    pub fn allocate(&mut self, value: T) -> (result: Result<DynamicUniformBufferBlock<T>, RenderError>)
        ensures
            match result {
                Ok(block) => {
                    &&& old(self)@.can_allocate()
                    &&& final(self)@ == old(self)@.allocate(value)
                    &&& block.spec_offset() == old(self)@.next_offset()
                    &&& block.spec_offset() as nat % old(self)@.alignment == 0
                    &&& block.spec_generation() == old(self)@.generation
                },
                Err(error) => {
                    &&& !old(self)@.can_allocate()
                    &&& error.kind == RenderErrorKind::BufferFull
                    &&& final(self)@ == old(self)@
                },
            },
    {
        proof {
            use_type_invariant(&*self);
            lemma_max_blocks(self@.stride, self@.staged.len());
            lemma_capacity_bytes_fit(self@.capacity, self@.stride);
            lemma_offset_of_index(self@.stride, self@.staged.len());
            lemma_offsets_are_aligned(self@, self@.next_offset());
        }
        let max_blocks: u64 = (u32::MAX / self.stride) as u64 + 1;
        let len: u64 = self.staged.len() as u64;
        if len >= max_blocks {
            return Err(RenderError::new(RenderErrorKind::BufferFull));
        }
        let offset: u64 = len * (self.stride as u64);
        if len >= self.capacity {
            let grown: u64 = if self.capacity == 0 {
                1
            } else if self.capacity <= max_blocks / 2 {
                2 * self.capacity
            } else {
                max_blocks
            };
            self.capacity = grown;
        }
        // The vector is taken out while it grows: a call that may unwind
        // must not hold a borrow into `self`.
        let mut staged: Vec<T> = Vec::new();
        core::mem::swap(&mut self.staged, &mut staged);
        staged.push(value);
        core::mem::swap(&mut self.staged, &mut staged);
        Ok(
            DynamicUniformBufferBlock {
                offset: offset as u32,
                generation: self.generation,
                _phantom: PhantomData,
            },
        )
    }

    /// Replaces the staged value of `block`. The device sees nothing of it
    /// before the next flush. Fails, and changes nothing, where `block`
    /// does not name a block of this buffer.
    pub fn write_block(&mut self, block: &DynamicUniformBufferBlock<T>, value: T) -> (result: Result<
        (),
        RenderError,
    >)
        ensures
            match result {
                Ok(_) => {
                    &&& old(self)@.holds(block.spec_offset() as nat, block.spec_generation() as nat)
                    &&& final(self)@ == old(self)@.write(block.spec_offset() as nat, value)
                },
                Err(error) => {
                    &&& !old(self)@.holds(
                        block.spec_offset() as nat,
                        block.spec_generation() as nat,
                    )
                    &&& error.kind == RenderErrorKind::StaleBlock
                    &&& final(self)@ == old(self)@
                },
            },
    {
        if !self.contains(block) {
            return Err(RenderError::new(RenderErrorKind::StaleBlock));
        }
        proof {
            use_type_invariant(&*self);
        }
        let slot: usize = (block.offset / self.stride) as usize;
        self.staged[slot] = value;
        Ok(())
    }

    /// The staged value of `block`, if `block` names a block of this buffer.
    pub fn get(&self, block: &DynamicUniformBufferBlock<T>) -> (value: Option<T>)
        ensures
            value == if self@.holds(block.spec_offset() as nat, block.spec_generation() as nat) {
                self@.staged_at(block.spec_offset() as nat)
            } else {
                None
            },
    {
        if !self.contains(block) {
            return None;
        }
        proof {
            use_type_invariant(self);
        }
        let slot: usize = (block.offset / self.stride) as usize;
        Some(self.staged[slot])
    }

    /// Makes every staged value visible to the device, in one transfer.
    pub fn flush(&mut self)
        ensures
            final(self)@ == old(self)@.flush(),
    {
        proof {
            use_type_invariant(&*self);
        }
        self.device = slice_to_vec(self.staged.as_slice());
    }

    /// The value that the device sees at byte offset `offset`, if a block
    /// that has been flushed starts there.
    pub fn read_back(&self, offset: u32) -> (value: Option<T>)
        ensures
            value == self@.read_back(offset as nat),
    {
        proof {
            use_type_invariant(self);
        }
        if offset % self.stride != 0 {
            return None;
        }
        let slot: usize = (offset / self.stride) as usize;
        if slot < self.device.len() {
            Some(self.device[slot])
        } else {
            None
        }
    }

    /// Forgets every block: handles given out so far name nothing any more,
    /// and the next block starts at offset zero again. What the device sees
    /// stays until the next flush. Fails, and changes nothing, only where
    /// the buffer has been cleared as often as can be counted.
    pub fn clear(&mut self) -> (result: Result<(), RenderError>)
        ensures
            match result {
                Ok(_) => old(self)@.generation < u64::MAX && final(self)@ == old(self)@.clear(),
                Err(error) => {
                    &&& old(self)@.generation == u64::MAX
                    &&& error.kind == RenderErrorKind::GenerationExhausted
                    &&& final(self)@ == old(self)@
                },
            },
    {
        if self.generation == u64::MAX {
            return Err(RenderError::new(RenderErrorKind::GenerationExhausted));
        }
        proof {
            use_type_invariant(&*self);
        }
        self.staged = Vec::new();
        self.generation = self.generation + 1;
        Ok(())
    }
}

} // verus!
