use vstd::prelude::*;

use crate::device::Device;
use crate::enums::DescriptorType;
use crate::enums::ShaderStageFlags;
use crate::enums::DESCRIPTOR_TYPE_COMBINED_IMAGE_SAMPLER;
use crate::error::Error;
use crate::sampler::Sampler;
use crate::types::DescriptorPoolSize;

pub mod update;

verus! {

/// One binding slot of a descriptor set layout.  The binding index is the
/// position in the layout's sequence.
#[derive(Debug)]
pub struct DescriptorSetLayoutBinding {
    pub descriptor_type: DescriptorType,
    pub descriptor_count: u32,
    pub stage_flags: ShaderStageFlags,
    /// Samplers fixed into the layout; required for combined image
    /// samplers, and then one per descriptor.
    pub immutable_samplers: Vec<Sampler>,
}

/// True if two binding slots declare the same thing.
pub open spec fn spec_binding_eq(a: DescriptorSetLayoutBinding, b: DescriptorSetLayoutBinding) -> bool {
    &&& a.descriptor_type == b.descriptor_type
    &&& a.descriptor_count == b.descriptor_count
    &&& a.stage_flags == b.stage_flags
    &&& a.immutable_samplers@ == b.immutable_samplers@
}

impl DescriptorSetLayoutBinding {
    /// An equal copy of the slot.
    pub fn duplicate(&self) -> (r: Self)
        ensures
            spec_binding_eq(r, *self),
    {
        DescriptorSetLayoutBinding {
            descriptor_type: self.descriptor_type,
            descriptor_count: self.descriptor_count,
            stage_flags: self.stage_flags,
            immutable_samplers: crate::types::copy_vec(&self.immutable_samplers),
        }
    }
}

/// Compares two binding slots.
pub fn binding_eq(a: &DescriptorSetLayoutBinding, b: &DescriptorSetLayoutBinding) -> (r: bool)
    ensures
        r == spec_binding_eq(*a, *b),
{
    if a.descriptor_type != b.descriptor_type || a.descriptor_count != b.descriptor_count
        || a.stage_flags != b.stage_flags {
        return false;
    }
    if a.immutable_samplers.len() != b.immutable_samplers.len() {
        proof {
            assert(a.immutable_samplers@.len() != b.immutable_samplers@.len());
        }
        return false;
    }
    let mut i: usize = 0;
    while i < a.immutable_samplers.len()
        invariant
            i <= a.immutable_samplers.len(),
            a.immutable_samplers.len() == b.immutable_samplers.len(),
            forall|j: int| 0 <= j < i ==> a.immutable_samplers@[j] == b.immutable_samplers@[j],
        decreases a.immutable_samplers.len() - i,
    {
        if a.immutable_samplers[i] != b.immutable_samplers[i] {
            return false;
        }
        i = i + 1;
    }
    proof {
        assert(a.immutable_samplers@ =~= b.immutable_samplers@);
    }
    true
}

/// An ordered, immutable list of binding slots.  Two layouts are
/// compatible exactly when their slots and owning device match
/// structurally, whatever their handles.
#[derive(Debug)]
pub struct DescriptorSetLayout {
    pub handle: u64,
    /// The identity of the owning device.
    pub device: u64,
    /// The binding slots, in binding-index order.
    pub bindings: Vec<DescriptorSetLayoutBinding>,
}

/// True if two layouts are compatible: same device and structurally equal
/// binding sequences.
pub open spec fn spec_layout_eq(a: DescriptorSetLayout, b: DescriptorSetLayout) -> bool {
    &&& a.device == b.device
    &&& a.bindings.len() == b.bindings.len()
    &&& forall|i: int|
        0 <= i < a.bindings.len() ==> spec_binding_eq(#[trigger] a.bindings[i], b.bindings[i])
}

/// Compares two layouts for compatibility.
pub fn layout_eq(a: &DescriptorSetLayout, b: &DescriptorSetLayout) -> (r: bool)
    ensures
        r == spec_layout_eq(*a, *b),
{
    if a.device != b.device || a.bindings.len() != b.bindings.len() {
        return false;
    }
    let mut i: usize = 0;
    while i < a.bindings.len()
        invariant
            i <= a.bindings.len(),
            a.device == b.device,
            a.bindings.len() == b.bindings.len(),
            forall|j: int| 0 <= j < i ==> spec_binding_eq(#[trigger] a.bindings[j], b.bindings[j]),
        decreases a.bindings.len() - i,
    {
        if !binding_eq(&a.bindings[i], &b.bindings[i]) {
            return false;
        }
        i = i + 1;
    }
    true
}

/// True if every binding slot is well formed: a slot with immutable
/// samplers carries exactly one per descriptor, and a combined
/// image-sampler slot carries them.
pub open spec fn spec_valid_layout_bindings(bindings: Seq<DescriptorSetLayoutBinding>) -> bool {
    forall|i: int|
        0 <= i < bindings.len() ==> {
            let b = #[trigger] bindings[i];
            &&& (b.immutable_samplers@.len() == 0 || b.immutable_samplers@.len()
                == b.descriptor_count)
            &&& (b.descriptor_type.0 == DESCRIPTOR_TYPE_COMBINED_IMAGE_SAMPLER
                ==> b.immutable_samplers@.len() > 0)
        }
}

impl DescriptorSetLayout {
    /// Creates a layout from its binding slots.  Returns
    /// `InvalidArgument`, changing nothing, if a slot has a sampler count
    /// that differs from its descriptor count, or a combined
    /// image-sampler slot has no immutable samplers.
    #[verifier::loop_isolation(false)]
    pub fn new(device: &mut Device, bindings: Vec<DescriptorSetLayoutBinding>) -> (r: Result<
        DescriptorSetLayout,
        Error,
    >)
        ensures
            r is Ok <==> spec_valid_layout_bindings(bindings@),
            r is Err ==> r->Err_0 == Error::InvalidArgument && *final(device) == *old(device),
            r is Ok ==> {
                let l = r->Ok_0;
                &&& l.device == old(device).id
                &&& l.bindings@ == bindings@
            },
            crate::device::spec_device_after_mint(*old(device), *final(device)),
    {
        let mut i: usize = 0;
        while i < bindings.len()
            invariant
                i <= bindings.len(),
                forall|j: int|
                    0 <= j < i ==> {
                        let b = #[trigger] bindings@[j];
                        &&& (b.immutable_samplers@.len() == 0 || b.immutable_samplers@.len()
                            == b.descriptor_count)
                        &&& (b.descriptor_type.0 == DESCRIPTOR_TYPE_COMBINED_IMAGE_SAMPLER
                            ==> b.immutable_samplers@.len() > 0)
                    },
            decreases bindings.len() - i,
        {
            let b = &bindings[i];
            if b.immutable_samplers.len() > 0 && b.immutable_samplers.len() as u64
                != b.descriptor_count as u64 {
                return Err(Error::InvalidArgument);
            }
            if b.descriptor_type.0 == DESCRIPTOR_TYPE_COMBINED_IMAGE_SAMPLER
                && b.immutable_samplers.len() == 0 {
                return Err(Error::InvalidArgument);
            }
            i = i + 1;
        }
        let handle = device.fresh_handle();
        Ok(DescriptorSetLayout { handle, device: device.id, bindings })
    }

    /// The raw handle of the layout.
    pub fn borrow(&self) -> (r: u64)
        ensures
            r == self.handle,
    {
        self.handle
    }

    /// The identity of the owning device.
    pub fn device(&self) -> (r: u64)
        ensures
            r == self.device,
    {
        self.device
    }

    /// The binding slots of the layout.
    pub fn bindings(&self) -> (r: &Vec<DescriptorSetLayoutBinding>)
        ensures
            r == &self.bindings,
    {
        &self.bindings
    }

    /// A compatible copy of the layout.
    pub fn duplicate(&self) -> (r: Self)
        ensures
            spec_layout_eq(r, *self),
            r.handle == self.handle,
            r.bindings.len() == self.bindings.len(),
    {
        let mut bindings: Vec<DescriptorSetLayoutBinding> = Vec::new();
        let mut i: usize = 0;
        while i < self.bindings.len()
            invariant
                i <= self.bindings.len(),
                bindings.len() == i,
                forall|j: int|
                    0 <= j < i ==> spec_binding_eq(#[trigger] bindings@[j], self.bindings@[j]),
            decreases self.bindings.len() - i,
        {
            bindings.push(self.bindings[i].duplicate());
            i = i + 1;
        }
        DescriptorSetLayout { handle: self.handle, device: self.device, bindings }
    }

    /// How many dynamic offsets a set of this layout consumes at bind
    /// time, capped at the largest representable value.
    #[verifier::loop_isolation(false)]
    pub fn num_dynamic_offsets(&self) -> (r: u32)
        ensures
            r == spec_num_dynamic_offsets(self.bindings@),
    {
        let cap: u64 = 0x1_0000_0000;
        let mut total: u64 = 0;
        let mut i: usize = 0;
        while i < self.bindings.len()
            invariant
                i <= self.bindings.len(),
                total == spec_capped(spec_dynamic_sum(self.bindings@.subrange(0, i as int))),
                total <= cap,
            decreases self.bindings.len() - i,
        {
            let b = &self.bindings[i];
            let ghost pre = self.bindings@.subrange(0, i as int);
            let ghost post = self.bindings@.subrange(0, i as int + 1);
            proof {
                assert(post.drop_last() =~= pre);
                lemma_dynamic_sum_nonneg(pre);
            }
            if b.descriptor_type.is_dynamic() {
                let t = total + b.descriptor_count as u64;
                total = if t > cap {
                    cap
                } else {
                    t
                };
            }
            i = i + 1;
        }
        proof {
            assert(self.bindings@.subrange(0, self.bindings@.len() as int) =~= self.bindings@);
            lemma_dynamic_sum_nonneg(self.bindings@);
        }
        if total > 0xffff_ffffu64 {
            0xffff_ffffu32
        } else {
            total as u32
        }
    }
}

/// A nonnegative value capped at one beyond the largest 32-bit value.
pub open spec fn spec_capped(x: int) -> int {
    if x > 0x1_0000_0000 {
        0x1_0000_0000
    } else {
        x
    }
}

impl DescriptorSetLayout {
    /// How many binding slots declare descriptor type `descriptor_type`
    /// and are visible to some stage of `stage_flags`.
    #[verifier::loop_isolation(false)]
    pub fn num_bindings(&self, descriptor_type: DescriptorType, stage_flags: ShaderStageFlags)
        -> (r: u32)
        ensures
            r == if spec_num_bindings(self.bindings@, descriptor_type, stage_flags) > u32::MAX {
                u32::MAX as int
            } else {
                spec_num_bindings(self.bindings@, descriptor_type, stage_flags)
            },
    {
        let mut count: u64 = 0;
        let mut i: usize = 0;
        while i < self.bindings.len()
            invariant
                i <= self.bindings.len(),
                count == spec_num_bindings(
                    self.bindings@.subrange(0, i as int),
                    descriptor_type,
                    stage_flags,
                ),
                count <= i,
            decreases self.bindings.len() - i,
        {
            let b = &self.bindings[i];
            let ghost pre = self.bindings@.subrange(0, i as int);
            let ghost post = self.bindings@.subrange(0, i as int + 1);
            proof {
                assert(post.drop_last() =~= pre);
                lemma_num_bindings_bound(pre, descriptor_type, stage_flags);
            }
            if b.descriptor_type == descriptor_type && b.stage_flags.0 & stage_flags.0 != 0 {
                count = count + 1;
            }
            i = i + 1;
        }
        proof {
            assert(self.bindings@.subrange(0, self.bindings@.len() as int) =~= self.bindings@);
            lemma_num_bindings_bound(self.bindings@, descriptor_type, stage_flags);
        }
        if count > u32::MAX as u64 {
            u32::MAX
        } else {
            count as u32
        }
    }
}

/// How many binding slots declare the given descriptor type and
/// intersect the given stages.
pub open spec fn spec_num_bindings(
    bindings: Seq<DescriptorSetLayoutBinding>,
    descriptor_type: DescriptorType,
    stage_flags: ShaderStageFlags,
) -> int
    decreases bindings.len(),
{
    if bindings.len() == 0 {
        0
    } else {
        spec_num_bindings(bindings.drop_last(), descriptor_type, stage_flags) + if bindings.last().descriptor_type
            == descriptor_type && bindings.last().stage_flags.0 & stage_flags.0 != 0 {
            1int
        } else {
            0int
        }
    }
}

/// The count of matching slots never exceeds the number of slots.
proof fn lemma_num_bindings_bound(
    bindings: Seq<DescriptorSetLayoutBinding>,
    descriptor_type: DescriptorType,
    stage_flags: ShaderStageFlags,
)
    ensures
        0 <= spec_num_bindings(bindings, descriptor_type, stage_flags) <= bindings.len(),
    decreases bindings.len(),
{
    if bindings.len() > 0 {
        lemma_num_bindings_bound(bindings.drop_last(), descriptor_type, stage_flags);
    }
}

/// The sum of the descriptor counts of the dynamic binding slots.
pub open spec fn spec_dynamic_sum(bindings: Seq<DescriptorSetLayoutBinding>) -> int
    decreases bindings.len(),
{
    if bindings.len() == 0 {
        0
    } else {
        spec_dynamic_sum(bindings.drop_last()) + if bindings.last().descriptor_type.0
            == crate::enums::DESCRIPTOR_TYPE_UNIFORM_BUFFER_DYNAMIC
            || bindings.last().descriptor_type.0
            == crate::enums::DESCRIPTOR_TYPE_STORAGE_BUFFER_DYNAMIC {
            bindings.last().descriptor_count as int
        } else {
            0
        }
    }
}

/// The dynamic-offset count a layout reports: the dynamic sum, capped.
pub open spec fn spec_num_dynamic_offsets(bindings: Seq<DescriptorSetLayoutBinding>) -> u32 {
    if spec_dynamic_sum(bindings) > u32::MAX {
        u32::MAX
    } else {
        spec_dynamic_sum(bindings) as u32
    }
}

/// The dynamic sum of a sequence is never negative.
proof fn lemma_dynamic_sum_nonneg(bindings: Seq<DescriptorSetLayoutBinding>)
    ensures
        spec_dynamic_sum(bindings) >= 0,
    decreases bindings.len(),
{
    if bindings.len() > 0 {
        lemma_dynamic_sum_nonneg(bindings.drop_last());
    }
}

/// A fixed-capacity arena of descriptor sets.  It counts the sets that
/// are alive and the references pending submissions hold to them, and
/// refuses to reset while either is nonzero.
#[derive(Debug)]
pub struct DescriptorPool {
    pub handle: u64,
    /// The identity of the owning device.
    pub device: u64,
    /// How many sets the pool may hand out between resets.
    pub max_sets: u32,
    /// Sets handed out since the last reset.
    pub allocated: u32,
    /// Sets currently alive: handed out and not yet freed.
    pub live: u32,
    /// References to this pool's sets held by recordings and pending
    /// submissions.
    pub in_flight: u64,
    /// How many descriptors of each type the pool was declared with.
    pub pool_sizes: Vec<DescriptorPoolSize>,
    /// The next raw handle this pool hands to a set.
    pub next_set_handle: u64,
}

impl DescriptorPool {
    /// Creates a pool that can hand out `max_sets` sets between resets.
    pub fn new(device: &mut Device, max_sets: u32, pool_sizes: &Vec<DescriptorPoolSize>) -> (r:
        Result<DescriptorPool, Error>)
        ensures
            r is Ok,
            r->Ok_0.device == old(device).id,
            r->Ok_0.max_sets == max_sets,
            r->Ok_0.allocated == 0,
            r->Ok_0.live == 0,
            r->Ok_0.in_flight == 0,
            r->Ok_0.pool_sizes@ == pool_sizes@,
            crate::device::spec_device_after_mint(*old(device), *final(device)),
    {
        let handle = device.fresh_handle();
        Ok(
            DescriptorPool {
                handle,
                device: device.id,
                max_sets,
                allocated: 0,
                live: 0,
                in_flight: 0,
                pool_sizes: crate::types::copy_vec(pool_sizes),
                next_set_handle: 1,
            },
        )
    }

    /// True if the pool may be reset: no set of the pool is alive and no
    /// pending submission references one.
    pub open spec fn spec_reset_allowed(self) -> bool {
        self.live == 0 && self.in_flight == 0
    }

    /// Resets the pool, recovering the capacity of every set handed out.
    /// Returns `SynchronizationError`, changing nothing, while a set of
    /// the pool is still alive or referenced by a pending submission.
    pub fn reset(&mut self) -> (r: Result<(), Error>)
        ensures
            r is Ok <==> old(self).spec_reset_allowed(),
            r is Err ==> r->Err_0 == Error::SynchronizationError && *final(self) == *old(self),
            r is Ok ==> *final(self) == (DescriptorPool { allocated: 0, ..*old(self) }),
    {
        if self.live > 0 || self.in_flight > 0 {
            return Err(Error::SynchronizationError);
        }
        self.allocated = 0;
        Ok(())
    }

    /// Consumes a set of this pool, ending its life.  References held by
    /// pending submissions remain counted until their fence is waited on.
    pub fn free(&mut self, set: DescriptorSet) -> (r: Result<(), Error>)
        ensures
            r is Ok <==> set.pool == old(self).handle && old(self).live > 0,
            r is Err ==> r->Err_0 == Error::InvalidArgument && *final(self) == *old(self),
            r is Ok ==> *final(self) == (DescriptorPool {
                live: (old(self).live - 1) as u32,
                ..*old(self)
            }),
    {
        if set.pool != self.handle || self.live == 0 {
            return Err(Error::InvalidArgument);
        }
        self.live = self.live - 1;
        Ok(())
    }
}

/// A table of descriptor slots of a fixed layout.  Every slot must be
/// written before the set may be bound.
#[derive(Debug)]
pub struct DescriptorSet {
    pub handle: u64,
    /// The identity of the owning device.
    pub device: u64,
    /// The handle of the pool the set was allocated from.
    pub pool: u64,
    /// The layout the set was allocated with.
    pub layout: DescriptorSetLayout,
    /// One written-flag per descriptor, grouped by binding slot.
    pub inited: Vec<Vec<bool>>,
}

/// True if the written-flag table has the shape of the layout.
pub open spec fn spec_set_shape(set: DescriptorSet) -> bool {
    &&& set.inited.len() == set.layout.bindings.len()
    &&& forall|i: int|
        0 <= i < set.inited.len() ==> (#[trigger] set.inited[i]).len()
            == set.layout.bindings[i].descriptor_count
}

/// True if every descriptor of the set has been written.
pub open spec fn spec_set_initialized(set: DescriptorSet) -> bool {
    forall|i: int, j: int|
        0 <= i < set.inited.len() && 0 <= j < set.inited[i].len()
            ==> #[trigger] set.inited[i][j]
}

impl DescriptorSet {
    /// Allocates one set of the given layout from `pool`.  Returns
    /// `OutOfPoolMemory`, changing nothing, when the pool's capacity is
    /// exhausted.  A fresh set has no slot written.
    #[verifier::loop_isolation(false)]
    pub fn new(pool: &mut DescriptorPool, layout: &DescriptorSetLayout) -> (r: Result<
        DescriptorSet,
        Error,
    >)
        requires
            old(pool).device == layout.device,
            old(pool).live <= old(pool).allocated,
        ensures
            r is Ok <==> old(pool).allocated < old(pool).max_sets,
            r is Err ==> r->Err_0 == Error::OutOfPoolMemory && *final(pool) == *old(pool),
            r is Ok ==> {
                let s = r->Ok_0;
                &&& s.device == old(pool).device
                &&& s.pool == old(pool).handle
                &&& spec_layout_eq(s.layout, *layout)
                &&& s.layout.bindings.len() == layout.bindings.len()
                &&& spec_set_shape(s)
                &&& !spec_set_initialized(s) || spec_empty_layout(*layout)
                &&& forall|i: int, j: int|
                    0 <= i < s.inited.len() && 0 <= j < s.inited[i].len()
                        ==> !(#[trigger] s.inited[i][j])
                &&& *final(pool) == (DescriptorPool {
                    allocated: (old(pool).allocated + 1) as u32,
                    live: (old(pool).live + 1) as u32,
                    next_set_handle: final(pool).next_set_handle,
                    ..*old(pool)
                })
            },
    {
        if pool.allocated >= pool.max_sets {
            return Err(Error::OutOfPoolMemory);
        }
        let mut inited: Vec<Vec<bool>> = Vec::new();
        let mut i: usize = 0;
        while i < layout.bindings.len()
            invariant
                i <= layout.bindings.len(),
                inited.len() == i,
                forall|j: int|
                    0 <= j < i ==> (#[trigger] inited[j]).len()
                        == layout.bindings[j].descriptor_count,
                forall|j: int, k: int|
                    0 <= j < i && 0 <= k < inited[j].len() ==> !(#[trigger] inited[j][k]),
            decreases layout.bindings.len() - i,
        {
            let count = layout.bindings[i].descriptor_count;
            let mut flags: Vec<bool> = Vec::new();
            let mut k: u32 = 0;
            while k < count
                invariant
                    k <= count,
                    flags.len() == k,
                    forall|m: int| 0 <= m < k ==> !flags[m],
                decreases count - k,
            {
                flags.push(false);
                k = k + 1;
            }
            inited.push(flags);
            i = i + 1;
        }
        let handle = pool.next_set_handle;
        if pool.next_set_handle < u64::MAX {
            pool.next_set_handle = pool.next_set_handle + 1;
        }
        pool.allocated = pool.allocated + 1;
        pool.live = pool.live + 1;
        let set = DescriptorSet {
            handle,
            device: pool.device,
            pool: pool.handle,
            layout: layout.duplicate(),
            inited,
        };
        proof {
            if !spec_empty_layout(*layout) {
                let i = choose|i: int|
                    0 <= i < layout.bindings.len() && layout.bindings[i].descriptor_count > 0;
                assert(set.inited[i].len() > 0);
                assert(!set.inited[i][0]);
            }
        }
        Ok(set)
    }

    /// The raw handle of the set.
    pub fn handle(&self) -> (r: u64)
        ensures
            r == self.handle,
    {
        self.handle
    }

    /// The raw handle of the set, from exclusive access.
    pub fn handle_mut(&mut self) -> (r: u64)
        ensures
            *final(self) == *old(self),
            r == old(self).handle,
    {
        self.handle
    }

    /// The set's layout.
    pub fn layout(&self) -> (r: &DescriptorSetLayout)
        ensures
            r == &self.layout,
    {
        &self.layout
    }

    /// True if every descriptor of the set has had a value written to it.
    pub fn is_initialized(&self) -> (r: bool)
        ensures
            r == spec_set_initialized(*self),
    {
        let mut i: usize = 0;
        while i < self.inited.len()
            invariant
                i <= self.inited.len(),
                forall|a: int, b: int|
                    0 <= a < i && 0 <= b < self.inited[a].len()
                        ==> #[trigger] self.inited[a][b],
            decreases self.inited.len() - i,
        {
            let row = &self.inited[i];
            let mut j: usize = 0;
            while j < row.len()
                invariant
                    j <= row.len(),
                    row == &self.inited[i as int],
                    i < self.inited.len(),
                    forall|b: int| 0 <= b < j ==> self.inited[i as int][b],
                    forall|a: int, b: int|
                        0 <= a < i && 0 <= b < self.inited[a].len()
                            ==> #[trigger] self.inited[a][b],
                decreases row.len() - j,
            {
                if !row[j] {
                    return false;
                }
                j = j + 1;
            }
            i = i + 1;
        }
        true
    }
}

/// True if the layout declares no descriptor at all.
pub open spec fn spec_empty_layout(layout: DescriptorSetLayout) -> bool {
    forall|i: int| 0 <= i < layout.bindings.len() ==> (#[trigger] layout.bindings[i]).descriptor_count == 0
}

/// A freshly allocated set that declares at least one descriptor is
/// not initialized, so binding it is refused until every slot is
/// written.
pub proof fn lemma_fresh_set_not_initialized(set: DescriptorSet)
    requires
        forall|i: int, j: int|
            0 <= i < set.inited.len() && 0 <= j < set.inited[i].len() ==> !(
            #[trigger] set.inited[i][j]),
        exists|i: int| 0 <= i < set.inited.len() && (#[trigger] set.inited[i]).len() > 0,
    ensures
        !spec_set_initialized(set),
{
    let i = choose|i: int| 0 <= i < set.inited.len() && (#[trigger] set.inited[i]).len() > 0;
    assert(!set.inited[i][0]);
}

} // verus!
