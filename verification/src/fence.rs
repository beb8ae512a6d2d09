use vstd::prelude::*;

use crate::command_buffer::CommandBuffer;
use crate::device::Device;
use crate::descriptor_set::DescriptorPool;
use crate::error::Error;

verus! {

/// A fence with no signal pending.  Submitting work with it yields a
/// [`PendingFence`].
#[derive(Clone, Copy, Debug, PartialEq, Eq, Structural)]
pub struct Fence {
    pub handle: u64,
    /// The identity of the owning device.
    pub device: u64,
}

impl Fence {
    /// Creates an unsignalled fence.
    pub fn new(device: &mut Device) -> (r: Result<Fence, Error>)
        ensures
            r is Ok,
            r->Ok_0.device == old(device).id,
            crate::device::spec_device_after_mint(*old(device), *final(device)),
    {
        let handle = device.fresh_handle();
        Ok(Fence { handle, device: device.id })
    }

    /// The raw handle of the fence, from exclusive access.
    pub fn mut_handle(&mut self) -> (r: u64)
        ensures
            *final(self) == *old(self),
            r == old(self).handle,
    {
        self.handle
    }
}

/// Everything a submission keeps alive until its fence is waited on:
/// the command buffers it ran, and one reference per descriptor set
/// bound in them, counted against the owning descriptor pool.
pub struct CleanupBag {
    /// The command buffers of the submission; their pool slots stay
    /// pending until each is freed back to its pool.
    pub command_buffers: Vec<CommandBuffer>,
    /// One entry per bound descriptor set: the handle of the owning
    /// descriptor pool.
    pub descriptor_pool_refs: Vec<u64>,
}

/// How many references the bag holds to the descriptor pool with handle
/// `pool_handle`.
pub open spec fn spec_bag_refs_of(refs: Seq<u64>, pool_handle: u64) -> int
    decreases refs.len(),
{
    if refs.len() == 0 {
        0
    } else {
        spec_bag_refs_of(refs.drop_last(), pool_handle) + if refs.last() == pool_handle {
            1int
        } else {
            0int
        }
    }
}

/// The bag's reference count of any pool never exceeds the number of
/// entries.
proof fn lemma_bag_refs_bounds(refs: Seq<u64>, pool_handle: u64)
    ensures
        0 <= spec_bag_refs_of(refs, pool_handle) <= refs.len(),
    decreases refs.len(),
{
    if refs.len() > 0 {
        lemma_bag_refs_bounds(refs.drop_last(), pool_handle);
    }
}

impl CleanupBag {
    /// An empty bag.
    pub fn new() -> (r: CleanupBag)
        ensures
            r.command_buffers.len() == 0,
            r.descriptor_pool_refs.len() == 0,
    {
        CleanupBag { command_buffers: Vec::new(), descriptor_pool_refs: Vec::new() }
    }

    /// Takes the command buffers out of the bag, so that each can be
    /// freed back to its pool.
    pub fn take_command_buffers(&mut self) -> (r: Vec<CommandBuffer>)
        ensures
            r@ == old(self).command_buffers@,
            final(self).command_buffers.len() == 0,
            final(self).descriptor_pool_refs == old(self).descriptor_pool_refs,
    {
        let mut taken: Vec<CommandBuffer> = Vec::new();
        core::mem::swap(&mut taken, &mut self.command_buffers);
        taken
    }

    /// Releases every reference the bag holds to `pool`, reducing the
    /// pool's in-flight count by exactly one per reference.  A
    /// descriptor pool that was blocked from resetting only by these
    /// references may reset afterwards.
    #[verifier::loop_isolation(false)]
    pub fn release_descriptor_pool(&mut self, pool: &mut DescriptorPool)
        requires
            spec_bag_refs_of(old(self).descriptor_pool_refs@, old(pool).handle) <= old(
                pool,
            ).in_flight,
        ensures
            final(self).command_buffers@ == old(self).command_buffers@,
            spec_bag_refs_of(final(self).descriptor_pool_refs@, old(pool).handle) == 0,
            final(self).descriptor_pool_refs@.len() == old(self).descriptor_pool_refs@.len()
                - spec_bag_refs_of(old(self).descriptor_pool_refs@, old(pool).handle),
            *final(pool) == (DescriptorPool {
                in_flight: (old(pool).in_flight - spec_bag_refs_of(
                    old(self).descriptor_pool_refs@,
                    old(pool).handle,
                )) as u64,
                ..*old(pool)
            }),
    {
        let ghost orig_refs = self.descriptor_pool_refs@;
        proof {
            lemma_bag_refs_bounds(orig_refs, pool.handle);
        }
        let mut kept: Vec<u64> = Vec::new();
        let mut released: u64 = 0;
        let mut i: usize = 0;
        while i < self.descriptor_pool_refs.len()
            invariant
                i <= self.descriptor_pool_refs.len(),
                self.descriptor_pool_refs@ == orig_refs,
                *pool == *old(pool),
                released == spec_bag_refs_of(orig_refs.subrange(0, i as int), pool.handle),
                kept.len() == i - released,
                spec_bag_refs_of(kept@, pool.handle) == 0,
            decreases self.descriptor_pool_refs.len() - i,
        {
            let ghost pre = orig_refs.subrange(0, i as int);
            let ghost post = orig_refs.subrange(0, i as int + 1);
            proof {
                assert(post.drop_last() =~= pre);
                lemma_bag_refs_bounds(pre, pool.handle);
            }
            let h = self.descriptor_pool_refs[i];
            if h == pool.handle {
                released = released + 1;
            } else {
                let ghost kept_pre = kept@;
                kept.push(h);
                proof {
                    assert(kept@.drop_last() =~= kept_pre);
                }
            }
            i = i + 1;
        }
        proof {
            assert(orig_refs.subrange(0, orig_refs.len() as int) =~= orig_refs);
        }
        self.descriptor_pool_refs = kept;
        pool.in_flight = pool.in_flight - released;
    }
}

/// Fence cleanup releases references: releasing a cleanup bag reduces a
/// descriptor pool's in-flight count by exactly one per reference the
/// bag holds to it, so a pool with no live set that was blocked from
/// resetting solely by the bag's references may reset once they are
/// released.
pub proof fn lemma_fence_cleanup_unblocks_pool(pool: DescriptorPool, refs: Seq<u64>)
    requires
        pool.live == 0,
        pool.in_flight == spec_bag_refs_of(refs, pool.handle),
    ensures
        pool.in_flight > 0 ==> !pool.spec_reset_allowed(),
        (DescriptorPool {
            in_flight: (pool.in_flight - spec_bag_refs_of(refs, pool.handle)) as u64,
            ..pool
        }).spec_reset_allowed(),
{
}

/// A fence with a signal operation pending.  It owns the cleanup bag of
/// the submission; waiting hands the bag back so that its references
/// can be released to their pools.
pub struct PendingFence {
    pub fence: Fence,
    pub bag: CleanupBag,
}

impl PendingFence {
    /// The raw handle of the fence.
    pub fn handle(&self) -> (r: u64)
        ensures
            r == self.fence.handle,
    {
        self.fence.handle
    }

    /// Waits for the submission to complete, resets the fence, and
    /// hands back the unsignalled fence together with the cleanup bag
    /// of everything the submission kept alive.
    pub fn wait(self) -> (r: (Fence, CleanupBag))
        ensures
            r.0 == self.fence,
            r.1.command_buffers@ == self.bag.command_buffers@,
            r.1.descriptor_pool_refs@ == self.bag.descriptor_pool_refs@,
    {
        (self.fence, self.bag)
    }
}

} // verus!
