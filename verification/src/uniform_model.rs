//! The mathematical model of a uniform buffer, and what holds of it.

use vstd::prelude::*;

verus! {

/// The smallest multiple of `alignment` that is at least `size`.
pub open spec fn spec_block_stride(size: nat, alignment: nat) -> nat
    recommends
        alignment > 0,
{
    if alignment == 0 {
        size
    } else if size % alignment == 0 {
        size
    } else {
        (size + alignment - size % alignment) as nat
    }
}

/// `spec_block_stride` is a multiple of the alignment, is not below the size,
/// and no multiple of the alignment lies between the size and it.
pub proof fn lemma_block_stride_is_least_multiple(size: nat, alignment: nat)
    requires
        alignment > 0,
    ensures
        spec_block_stride(size, alignment) % alignment == 0,
        spec_block_stride(size, alignment) >= size,
        spec_block_stride(size, alignment) < size + alignment,
        forall|m: nat| #[trigger] (m % alignment) == 0 && m >= size ==> m >= spec_block_stride(size, alignment),
{
    let s = spec_block_stride(size, alignment);
    let a = alignment as int;
    let r = (size % alignment) as int;
    let q = (size / alignment) as int;
    assert(size as int == a * q + r) by {
        vstd::arithmetic::div_mod::lemma_fundamental_div_mod(size as int, a);
    }
    if r == 0 {
        assert(s == size);
    } else {
        assert(s as int == a * (q + 1)) by (nonlinear_arith)
            requires
                s as int == size as int + a - r,
                size as int == a * q + r,
        ;
        assert((a * (q + 1)) % a == 0) by {
            vstd::arithmetic::div_mod::lemma_mod_multiples_basic(q + 1, a);
            assert(a * (q + 1) == (q + 1) * a) by (nonlinear_arith);
        }
    }
    assert forall|m: nat| #[trigger] (m % alignment) == 0 && m >= size implies m >= s by {
        if m < s {
            // m and s are both multiples of the alignment less than one
            // alignment apart from size, so they coincide.
            let k = (m / alignment) as int;
            vstd::arithmetic::div_mod::lemma_fundamental_div_mod(m as int, a);
            let ks = (s / alignment) as int;
            vstd::arithmetic::div_mod::lemma_fundamental_div_mod(s as int, a);
            assert(m as int == a * k);
            assert(s as int == a * ks);
            assert(k < ks) by (nonlinear_arith)
                requires
                    a * k < a * ks,
                    a > 0,
            ;
            assert(a * ks - a * k >= a) by (nonlinear_arith)
                requires
                    k < ks,
                    a > 0,
            ;
            assert(false);
        }
    }
}

/// The number of blocks of `stride` bytes whose offsets fit a dynamic offset.
pub open spec fn spec_max_blocks(stride: nat) -> nat
    recommends
        stride > 0,
{
    if stride == 0 {
        0
    } else {
        (u32::MAX as nat) / stride + 1
    }
}

/// A block at index `i` has an offset that fits exactly when `i` is below
/// `spec_max_blocks`.
pub proof fn lemma_max_blocks(stride: nat, i: nat)
    requires
        stride > 0,
    ensures
        i < spec_max_blocks(stride) <==> i * stride <= u32::MAX,
{
    let m = u32::MAX as int;
    let s = stride as int;
    let q = m / s;
    vstd::arithmetic::div_mod::lemma_fundamental_div_mod(m, s);
    assert(m == s * q + m % s);
    assert(0 <= m % s < s);
    if (i as int) <= q {
        assert(i * stride <= q * s) by (nonlinear_arith)
            requires
                i as int <= q,
                s > 0,
                stride as int == s,
        ;
        assert(q * s == s * q) by (nonlinear_arith);
    } else {
        assert(i * stride >= (q + 1) * s) by (nonlinear_arith)
            requires
                i as int >= q + 1,
                s > 0,
                stride as int == s,
        ;
        assert((q + 1) * s == s * q + s) by (nonlinear_arith);
    }
}

/// What a uniform buffer is, apart from how it is stored: equally sized
/// blocks, numbered from zero, each holding one value. Block `i` lies at
/// byte offset `i * stride`.
#[verifier::ext_equal]
pub struct UniformBufferModel<T> {
    /// The alignment that every offset is a multiple of.
    pub alignment: nat,
    /// The distance in bytes from one block to the next.
    pub stride: nat,
    /// How often the buffer has been cleared.
    pub generation: nat,
    /// The number of blocks that the backing buffer has room for.
    pub capacity: nat,
    /// The values written so far, one per allocated block.
    pub staged: Seq<T>,
    /// The values that the device sees: the staged ones as of the last flush.
    pub device: Seq<T>,
}

/// What a block handle says: where the block lies, and in which generation
/// of its buffer it was allocated.
pub struct BlockId {
    pub offset: u32,
    pub generation: u64,
}

/// One step of staging: a new block, or a new value for an existing one.
pub enum UniformOp<T> {
    Allocate(T),
    Write(nat, T),
}

impl<T> UniformBufferModel<T> {
    /// A buffer that has never held a block.
    pub open spec fn fresh(alignment: nat, stride: nat) -> Self {
        UniformBufferModel {
            alignment,
            stride,
            generation: 0,
            capacity: 0,
            staged: Seq::empty(),
            device: Seq::empty(),
        }
    }

    /// What holds of every buffer: the stride is a positive multiple of the
    /// alignment and fits a dynamic offset, and there are no more blocks
    /// than the capacity has room for, nor more capacity than dynamic
    /// offsets can reach.
    pub open spec fn wf(self) -> bool {
        &&& self.alignment > 0
        &&& self.stride > 0
        &&& self.stride % self.alignment == 0
        &&& self.stride <= u32::MAX
        &&& self.generation <= u64::MAX
        &&& self.staged.len() <= self.capacity
        &&& self.capacity <= spec_max_blocks(self.stride)
    }

    /// The offset that the next block will get.
    pub open spec fn next_offset(self) -> nat {
        self.staged.len() * self.stride
    }

    /// Whether the offset of one more block still fits a dynamic offset.
    pub open spec fn can_allocate(self) -> bool {
        self.next_offset() <= u32::MAX
    }

    /// Whether `id` names a block of this buffer.
    pub open spec fn holds_block(self, id: BlockId) -> bool {
        self.holds(id.offset as nat, id.generation as nat)
    }

    /// Whether `count` more blocks can be allocated.
    pub open spec fn has_room_for(self, count: nat) -> bool {
        count == 0 || (self.staged.len() + count - 1) * self.stride <= u32::MAX
    }

    /// The capacity after room has been made for one more block: unchanged
    /// while there is room, else doubled (one, from nothing), and never more
    /// than dynamic offsets can reach.
    pub open spec fn grown_capacity(self) -> nat {
        if self.staged.len() < self.capacity {
            self.capacity
        } else if self.capacity == 0 {
            1
        } else if 2 * self.capacity <= spec_max_blocks(self.stride) {
            2 * self.capacity
        } else {
            spec_max_blocks(self.stride)
        }
    }

    /// The buffer with one more block, which holds `value`.
    pub open spec fn allocate(self, value: T) -> Self {
        UniformBufferModel {
            capacity: self.grown_capacity(),
            staged: self.staged.push(value),
            ..self
        }
    }

    /// Whether `offset` is the offset of an allocated block.
    pub open spec fn has_block_at(self, offset: nat) -> bool {
        &&& self.stride > 0
        &&& offset % self.stride == 0
        &&& offset / self.stride < self.staged.len()
    }

    /// Whether a handle made at `offset` in generation `generation` still
    /// names a block of this buffer.
    pub open spec fn holds(self, offset: nat, generation: nat) -> bool {
        generation == self.generation && self.has_block_at(offset)
    }

    /// The buffer with `value` staged in the block at `offset`.
    pub open spec fn write(self, offset: nat, value: T) -> Self {
        UniformBufferModel {
            staged: self.staged.update((offset / self.stride) as int, value),
            ..self
        }
    }

    /// The buffer after the device has been shown what is staged.
    pub open spec fn flush(self) -> Self {
        UniformBufferModel { device: self.staged, ..self }
    }

    /// The buffer without blocks, in its next generation. The capacity
    /// stays, and so does what the device sees.
    pub open spec fn clear(self) -> Self {
        UniformBufferModel {
            generation: self.generation + 1,
            staged: Seq::empty(),
            ..self
        }
    }

    /// The staged value of the block at `offset`.
    pub open spec fn staged_at(self, offset: nat) -> Option<T> {
        if self.has_block_at(offset) {
            Some(self.staged[(offset / self.stride) as int])
        } else {
            None
        }
    }

    /// The value that the device sees at `offset`.
    pub open spec fn read_back(self, offset: nat) -> Option<T> {
        if self.stride > 0 && offset % self.stride == 0 && offset / self.stride
            < self.device.len() {
            Some(self.device[(offset / self.stride) as int])
        } else {
            None
        }
    }

    /// One staging step, as the buffer carries it out: a step that cannot
    /// be taken leaves the buffer as it is.
    pub open spec fn apply(self, op: UniformOp<T>) -> Self {
        match op {
            UniformOp::Allocate(value) => if self.can_allocate() {
                self.allocate(value)
            } else {
                self
            },
            UniformOp::Write(offset, value) => if self.has_block_at(offset) {
                self.write(offset, value)
            } else {
                self
            },
        }
    }

    /// The staging steps `ops`, carried out in order.
    pub open spec fn apply_all(self, ops: Seq<UniformOp<T>>) -> Self
        decreases ops.len(),
    {
        if ops.len() == 0 {
            self
        } else {
            self.apply_all(ops.drop_last()).apply(ops.last())
        }
    }
}

/// Whether `op` writes to the block at `offset`.
pub open spec fn writes_to<T>(op: UniformOp<T>, offset: nat) -> bool {
    match op {
        UniformOp::Allocate(_) => false,
        UniformOp::Write(o, _) => o == offset,
    }
}

/// The bytes of a buffer at full capacity fit 64 bits with room to spare.
pub proof fn lemma_capacity_bytes_fit(capacity: nat, stride: nat)
    requires
        0 < stride <= u32::MAX,
        capacity <= spec_max_blocks(stride),
    ensures
        capacity * stride <= u32::MAX + stride,
{
    if capacity > 0 {
        lemma_max_blocks(stride, (capacity - 1) as nat);
        assert(capacity * stride == (capacity - 1) * stride + stride) by (nonlinear_arith);
    } else {
        assert(capacity * stride == 0) by (nonlinear_arith)
            requires
                capacity == 0,
        ;
    }
}

/// Two different offsets that are multiples of the stride name different
/// blocks.
pub proof fn lemma_distinct_slots(stride: nat, a: nat, b: nat)
    requires
        stride > 0,
        a % stride == 0,
        b % stride == 0,
        a != b,
    ensures
        a / stride != b / stride,
{
    vstd::arithmetic::div_mod::lemma_fundamental_div_mod(a as int, stride as int);
    vstd::arithmetic::div_mod::lemma_fundamental_div_mod(b as int, stride as int);
}

/// The offset of block `index` is a multiple of the stride and leads back
/// to `index`.
pub proof fn lemma_offset_of_index(stride: nat, index: nat)
    requires
        stride > 0,
    ensures
        (index * stride) % stride == 0,
        (index * stride) / stride == index,
{
    vstd::arithmetic::div_mod::lemma_mod_multiples_basic(index as int, stride as int);
    vstd::arithmetic::div_mod::lemma_div_multiples_vanish(index as int, stride as int);
    assert(index * stride == stride * index) by (nonlinear_arith);
}

/// Allocation keeps a buffer well formed.
pub proof fn lemma_allocate_wf<T>(buffer: UniformBufferModel<T>, value: T)
    requires
        buffer.wf(),
        buffer.can_allocate(),
    ensures
        buffer.allocate(value).wf(),
        buffer.allocate(value).capacity >= buffer.capacity,
{
    lemma_max_blocks(buffer.stride, buffer.staged.len());
}

/// Every offset handed out is a multiple of the alignment of the device.
pub proof fn lemma_offsets_are_aligned<T>(buffer: UniformBufferModel<T>, offset: nat)
    requires
        buffer.wf(),
        offset % buffer.stride == 0,
    ensures
        offset % buffer.alignment == 0,
{
    let s = buffer.stride as int;
    let a = buffer.alignment as int;
    vstd::arithmetic::div_mod::lemma_fundamental_div_mod(offset as int, s);
    vstd::arithmetic::div_mod::lemma_fundamental_div_mod(s, a);
    let k = offset as int / s;
    let j = s / a;
    assert(offset as int == s * k);
    assert(s == a * j);
    assert(offset as int == (j * k) * a) by (nonlinear_arith)
        requires
            offset as int == s * k,
            s == a * j,
    ;
    vstd::arithmetic::div_mod::lemma_mod_multiples_basic(j * k, a);
}

/// A new block leaves every earlier block where it was and as it was, also
/// where the backing buffer had to grow for it; and it holds its value.
pub proof fn lemma_allocate_keeps_blocks<T>(buffer: UniformBufferModel<T>, value: T)
    requires
        buffer.stride > 0,
    ensures
        forall|offset: nat| #[trigger]
            buffer.has_block_at(offset) ==> buffer.allocate(value).staged_at(offset)
                == buffer.staged_at(offset),
        buffer.allocate(value).staged_at(buffer.next_offset()) == Some(value),
        buffer.staged.len() == buffer.capacity && buffer.wf() && buffer.can_allocate()
            ==> buffer.allocate(value).capacity > buffer.capacity,
{
    lemma_offset_of_index(buffer.stride, buffer.staged.len());
    lemma_max_blocks(buffer.stride, buffer.staged.len());
}

/// After any staging steps, a block that existed before still exists, and
/// it holds what it held unless a step wrote to it.
pub proof fn lemma_steps_keep_block<T>(
    buffer: UniformBufferModel<T>,
    ops: Seq<UniformOp<T>>,
    offset: nat,
)
    requires
        buffer.has_block_at(offset),
        forall|i: int| 0 <= i < ops.len() ==> !writes_to(#[trigger] ops[i], offset),
    ensures
        buffer.apply_all(ops).stride == buffer.stride,
        buffer.apply_all(ops).has_block_at(offset),
        buffer.apply_all(ops).staged_at(offset) == buffer.staged_at(offset),
    decreases ops.len(),
{
    if ops.len() > 0 {
        let before = buffer.apply_all(ops.drop_last());
        assert forall|i: int| 0 <= i < ops.drop_last().len() implies !writes_to(
            #[trigger] ops.drop_last()[i],
            offset,
        ) by {
            assert(ops.drop_last()[i] == ops[i]);
        }
        lemma_steps_keep_block(buffer, ops.drop_last(), offset);
        assert(!writes_to(ops.last(), offset));
        match ops.last() {
            UniformOp::Allocate(_) => {},
            UniformOp::Write(other, _) => {
                if before.has_block_at(other) {
                    lemma_distinct_slots(before.stride, other, offset);
                }
            },
        }
    }
}

/// A value written to a block is the value that the device sees at the
/// offset of the block after the next flush, whatever was allocated or
/// written to other blocks in between, and in whatever order.
pub proof fn lemma_write_flush_read_back<T>(
    buffer: UniformBufferModel<T>,
    offset: nat,
    value: T,
    ops: Seq<UniformOp<T>>,
)
    requires
        buffer.has_block_at(offset),
        forall|i: int| 0 <= i < ops.len() ==> !writes_to(#[trigger] ops[i], offset),
    ensures
        buffer.write(offset, value).apply_all(ops).flush().read_back(offset) == Some(value),
{
    lemma_steps_keep_block(buffer.write(offset, value), ops, offset);
}

/// The same holds of the value that a block was allocated with.
pub proof fn lemma_allocate_flush_read_back<T>(
    buffer: UniformBufferModel<T>,
    value: T,
    ops: Seq<UniformOp<T>>,
)
    requires
        buffer.stride > 0,
        forall|i: int|
            0 <= i < ops.len() ==> !writes_to(#[trigger] ops[i], buffer.next_offset()),
    ensures
        buffer.allocate(value).apply_all(ops).flush().read_back(buffer.next_offset()) == Some(
            value,
        ),
{
    lemma_allocate_keeps_blocks(buffer, value);
    lemma_steps_keep_block(buffer.allocate(value), ops, buffer.next_offset());
}

/// Clearing a buffer, empty or not, makes it allocate as a buffer that was
/// just made: the next block lies at offset zero and is the only one.
pub proof fn lemma_clear_restarts_at_zero<T>(buffer: UniformBufferModel<T>, value: T)
    requires
        buffer.wf(),
    ensures
        buffer.generation < u64::MAX ==> buffer.clear().wf(),
        buffer.clear().can_allocate(),
        buffer.clear().next_offset() == 0,
        buffer.clear().next_offset() == UniformBufferModel::<T>::fresh(
            buffer.alignment,
            buffer.stride,
        ).next_offset(),
        buffer.clear().allocate(value).staged == UniformBufferModel::<T>::fresh(
            buffer.alignment,
            buffer.stride,
        ).allocate(value).staged,
        buffer.clear().allocate(value).staged_at(0) == Some(value),
        forall|offset: nat, generation: nat|
            buffer.generation == generation ==> !#[trigger] buffer.clear().holds(
                offset,
                generation,
            ),
{
    assert(buffer.clear().staged.len() == 0);
    assert(buffer.clear().next_offset() == 0) by (nonlinear_arith)
        requires
            buffer.clear().next_offset() == 0 * buffer.stride,
    ;
    lemma_allocate_keeps_blocks(buffer.clear(), value);
}

/// Every block lies before the place of the next one.
pub proof fn lemma_block_below_next<T>(buffer: UniformBufferModel<T>, offset: nat)
    requires
        buffer.has_block_at(offset),
    ensures
        offset < buffer.next_offset(),
{
    let s = buffer.stride as int;
    let q = offset as int / s;
    let n = buffer.staged.len() as int;
    vstd::arithmetic::div_mod::lemma_fundamental_div_mod(offset as int, s);
    assert(s * q + s <= n * s) by (nonlinear_arith)
        requires
            q + 1 <= n,
            s > 0,
    ;
}

/// A write reaches its block and no other, and no block comes or goes.
pub proof fn lemma_write_keeps_others<T>(buffer: UniformBufferModel<T>, offset: nat, value: T)
    requires
        buffer.has_block_at(offset),
    ensures
        buffer.write(offset, value).staged_at(offset) == Some(value),
        forall|other: nat|
            other != offset && #[trigger] buffer.has_block_at(other) ==> buffer.write(
                offset,
                value,
            ).staged_at(other) == buffer.staged_at(other),
        forall|other: nat| #[trigger]
            buffer.write(offset, value).has_block_at(other) == buffer.has_block_at(other),
{
    assert forall|other: nat| other != offset && #[trigger] buffer.has_block_at(other) implies buffer.write(
        offset,
        value,
    ).staged_at(other) == buffer.staged_at(other) by {
        lemma_distinct_slots(buffer.stride, offset, other);
    }
}

/// Room for `count` blocks is room within the number of blocks that
/// dynamic offsets can reach.
pub proof fn lemma_room_is_max_blocks<T>(buffer: UniformBufferModel<T>, count: nat)
    requires
        buffer.stride > 0,
    ensures
        buffer.has_room_for(count) <==> count == 0 || buffer.staged.len() + count
            <= spec_max_blocks(buffer.stride),
{
    if count > 0 {
        lemma_max_blocks(buffer.stride, (buffer.staged.len() + count - 1) as nat);
    }
}

/// Where there is room for some blocks, one can be allocated, and then
/// there is room for the others.
pub proof fn lemma_room_after_allocate<T>(buffer: UniformBufferModel<T>, value: T, count: nat)
    requires
        buffer.stride > 0,
        count > 0,
        buffer.has_room_for(count),
    ensures
        buffer.can_allocate(),
        buffer.allocate(value).has_room_for((count - 1) as nat),
{
    lemma_room_is_max_blocks(buffer, count);
    lemma_room_is_max_blocks(buffer.allocate(value), (count - 1) as nat);
    lemma_max_blocks(buffer.stride, buffer.staged.len());
}

/// Carrying out the first `k + 1` steps is carrying out the first `k` and
/// then the next one.
pub proof fn lemma_apply_all_step<T>(buffer: UniformBufferModel<T>, ops: Seq<UniformOp<T>>, k: int)
    requires
        0 <= k < ops.len(),
    ensures
        buffer.apply_all(ops.take(k + 1)) == buffer.apply_all(ops.take(k)).apply(ops[k]),
        buffer.apply_all(ops.take(0)) == buffer,
        buffer.apply_all(ops.take(ops.len() as int)) == buffer.apply_all(ops),
{
    assert(ops.take(k + 1).drop_last() =~= ops.take(k));
    assert(ops.take(k + 1).last() == ops[k]);
    assert(ops.take(ops.len() as int) =~= ops);
    assert(ops.take(0).len() == 0);
}

/// Every block lies within the backing buffer, whole: the number of blocks
/// never exceeds the capacity.
pub proof fn lemma_block_within_capacity<T>(buffer: UniformBufferModel<T>, offset: nat)
    requires
        buffer.wf(),
        buffer.has_block_at(offset),
    ensures
        offset + buffer.stride <= buffer.capacity * buffer.stride,
        offset % buffer.alignment == 0,
{
    lemma_block_below_next(buffer, offset);
    lemma_offsets_are_aligned(buffer, offset);
    let s = buffer.stride as int;
    let q = offset as int / s;
    let n = buffer.staged.len() as int;
    let c = buffer.capacity as int;
    vstd::arithmetic::div_mod::lemma_fundamental_div_mod(offset as int, s);
    assert(s * q + s <= c * s) by (nonlinear_arith)
        requires
            q + 1 <= n,
            n <= c,
            s > 0,
    ;
}

} // verus!
