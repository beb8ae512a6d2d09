use vstd::prelude::*;

use crate::command_buffer::CommandBuffer;
use crate::command_buffer::CommandPool;
use crate::command_buffer::Slot;
use crate::command_buffer::SlotState;
use crate::device::Device;
use crate::enums::PipelineStageFlags;
use crate::error::Error;
use crate::fence::CleanupBag;
use crate::fence::Fence;
use crate::fence::PendingFence;
use crate::semaphore::Semaphore;

verus! {

/// A device queue that work is submitted to.  Work submitted without a
/// fence is retained by the queue itself until the queue is waited
/// idle.
pub struct Queue {
    pub handle: u64,
    /// The identity of the owning device.
    pub device: u64,
    /// The family the queue belongs to.
    pub family_index: u32,
    /// The index of the queue inside its family.
    pub queue_index: u32,
    /// Command buffers of fence-less submissions, retained until the
    /// queue is waited idle.
    pub pending_command_buffers: Vec<CommandBuffer>,
    /// Descriptor-pool references of fence-less submissions, one per
    /// bound set, retained until the queue is waited idle.
    pub pending_descriptor_pool_refs: Vec<u64>,
}

impl Device {
    /// Hands out the queues the device was opened with, grouped by
    /// family.  May be called once.
    #[verifier::loop_isolation(false)]
    pub fn take_queues(&mut self) -> (r: Vec<Vec<Queue>>)
        requires
            !old(self).queues_taken,
        ensures
            final(self).queues_taken,
            *final(self) == (Device { queues_taken: true, ..*old(self) }),
            r.len() == old(self).queues.len(),
            forall|f: int|
                0 <= f < r.len() ==> (#[trigger] r[f]).len() == old(self).queues[f],
            forall|f: int, n: int|
                0 <= f < r.len() && 0 <= n < r[f].len() ==> (#[trigger] r[f][n]).device == old(
                    self,
                ).id,
            forall|f: int, n: int|
                0 <= f < r.len() && 0 <= n < r[f].len() ==> (#[trigger] r[f][n]).family_index
                    == f as u32,
            forall|f: int, n: int|
                0 <= f < r.len() && 0 <= n < r[f].len() ==> (#[trigger] r[f][n]).queue_index == n,
            forall|f: int, n: int|
                0 <= f < r.len() && 0 <= n < r[f].len() ==> (
                #[trigger] r[f][n]).pending_command_buffers.len() == 0,
            forall|f: int, n: int|
                0 <= f < r.len() && 0 <= n < r[f].len() ==> (
                #[trigger] r[f][n]).pending_descriptor_pool_refs.len() == 0,
    {
        let mut result: Vec<Vec<Queue>> = Vec::new();
        let mut f: usize = 0;
        while f < self.queues.len()
            invariant
                f <= self.queues.len(),
                result.len() == f,
                *self == *old(self),
                forall|g: int| 0 <= g < f ==> (#[trigger] result[g]).len() == self.queues[g],
                forall|g: int, n: int|
                    0 <= g < f && 0 <= n < result[g].len() ==> (#[trigger] result[g][n]).device
                        == self.id,
                forall|g: int, n: int|
                    0 <= g < f && 0 <= n < result[g].len() ==> (
                    #[trigger] result[g][n]).family_index == g as u32,
                forall|g: int, n: int|
                    0 <= g < f && 0 <= n < result[g].len() ==> (
                    #[trigger] result[g][n]).queue_index == n,
                forall|g: int, n: int|
                    0 <= g < f && 0 <= n < result[g].len() ==> (
                    #[trigger] result[g][n]).pending_command_buffers.len() == 0,
                forall|g: int, n: int|
                    0 <= g < f && 0 <= n < result[g].len() ==> (
                    #[trigger] result[g][n]).pending_descriptor_pool_refs.len() == 0,
            decreases self.queues.len() - f,
        {
            let count = self.queues[f];
            let mut family: Vec<Queue> = Vec::new();
            let mut n: u32 = 0;
            while n < count
                invariant
                    n <= count,
                    family.len() == n,
                    f < self.queues.len(),
                    *self == *old(self),
                    forall|m: int|
                        0 <= m < family.len() ==> (#[trigger] family[m]).device == self.id,
                    forall|m: int|
                        0 <= m < family.len() ==> (#[trigger] family[m]).family_index == f as u32,
                    forall|m: int|
                        0 <= m < family.len() ==> (#[trigger] family[m]).queue_index == m,
                    forall|m: int|
                        0 <= m < family.len() ==> (
                        #[trigger] family[m]).pending_command_buffers.len() == 0,
                    forall|m: int|
                        0 <= m < family.len() ==> (
                        #[trigger] family[m]).pending_descriptor_pool_refs.len() == 0,
                decreases count - n,
            {
                family.push(
                    Queue {
                        handle: 0,
                        device: self.id,
                        family_index: f as u32,
                        queue_index: n,
                        pending_command_buffers: Vec::new(),
                        pending_descriptor_pool_refs: Vec::new(),
                    },
                );
                n = n + 1;
            }
            result.push(family);
            f = f + 1;
        }
        self.queues_taken = true;
        result
    }
}

/// One wait operation of a submission batch: the index of the semaphore
/// in the caller's semaphore list, and the stages that wait.
#[derive(Clone, Copy, Debug, PartialEq, Eq, Structural)]
pub struct WaitOp {
    pub semaphore: usize,
    pub stage_mask: PipelineStageFlags,
}

/// One submission batch: semaphores to wait for, command buffers to
/// run, and semaphores to signal, in that order.  Semaphores are named
/// by their index in the semaphore list handed to the submit call.
pub struct SubmitInfo {
    pub wait: Vec<WaitOp>,
    pub commands: Vec<CommandBuffer>,
    pub signal: Vec<usize>,
}

impl SubmitInfo {
    /// An empty batch.
    pub fn new() -> (r: SubmitInfo)
        ensures
            r.wait.len() == 0,
            r.commands.len() == 0,
            r.signal.len() == 0,
    {
        SubmitInfo { wait: Vec::new(), commands: Vec::new(), signal: Vec::new() }
    }
}

/// Runs the wait operations of one batch from index `k` on: each must
/// name a semaphore with a signal pending, and consumes the signal.
pub open spec fn spec_run_waits(flags: Seq<bool>, waits: Seq<WaitOp>, k: int) -> Option<Seq<bool>>
    decreases waits.len() - k,
{
    if k < 0 || k >= waits.len() {
        Some(flags)
    } else {
        let w = waits[k];
        if w.semaphore < flags.len() && flags[w.semaphore as int] {
            spec_run_waits(flags.update(w.semaphore as int, false), waits, k + 1)
        } else {
            None
        }
    }
}

/// Runs the signal operations of one batch from index `k` on: each must
/// name a semaphore with no signal pending, and leaves a signal
/// pending.
pub open spec fn spec_run_signals(flags: Seq<bool>, signals: Seq<usize>, k: int) -> Option<
    Seq<bool>,
>
    decreases signals.len() - k,
{
    if k < 0 || k >= signals.len() {
        Some(flags)
    } else {
        let s = signals[k];
        if s < flags.len() && !flags[s as int] {
            spec_run_signals(flags.update(s as int, true), signals, k + 1)
        } else {
            None
        }
    }
}

/// Marks the slots of one batch's command buffers pending, from index
/// `k` on: each buffer must belong to the pool and its slot must be
/// lent out to it.
pub open spec fn spec_mark_commands(
    slots: Seq<Slot>,
    pool_handle: u64,
    cmds: Seq<CommandBuffer>,
    k: int,
) -> Option<Seq<Slot>>
    decreases cmds.len() - k,
{
    if k < 0 || k >= cmds.len() {
        Some(slots)
    } else {
        let b = cmds[k];
        if b.pool == pool_handle && b.slot < slots.len() && slots[b.slot as int].state
            is SlotLent {
            spec_mark_commands(
                slots.update(
                    b.slot as int,
                    Slot { state: SlotState::SlotPending, handle: slots[b.slot as int].handle },
                ),
                pool_handle,
                cmds,
                k + 1,
            )
        } else {
            None
        }
    }
}

/// Runs a whole submission from batch `i` on: per batch, waits, then
/// command buffers, then signals.
pub open spec fn spec_run_infos(
    flags: Seq<bool>,
    slots: Seq<Slot>,
    pool_handle: u64,
    infos: Seq<SubmitInfo>,
    i: int,
) -> Option<(Seq<bool>, Seq<Slot>)>
    decreases infos.len() - i,
{
    if i < 0 || i >= infos.len() {
        Some((flags, slots))
    } else {
        match spec_run_waits(flags, infos[i].wait@, 0) {
            None => None,
            Some(f2) => match spec_mark_commands(slots, pool_handle, infos[i].commands@, 0) {
                None => None,
                Some(s2) => match spec_run_signals(f2, infos[i].signal@, 0) {
                    None => None,
                    Some(f3) => spec_run_infos(f3, s2, pool_handle, infos, i + 1),
                },
            },
        }
    }
}

/// The command buffers of a submission, in order.
pub open spec fn spec_all_commands(infos: Seq<SubmitInfo>) -> Seq<CommandBuffer>
    decreases infos.len(),
{
    if infos.len() == 0 {
        Seq::empty()
    } else {
        spec_all_commands(infos.drop_last()) + infos.last().commands@
    }
}

/// The descriptor-pool references of a run of command buffers, in
/// order.
pub open spec fn spec_cmds_refs(cmds: Seq<CommandBuffer>) -> Seq<u64>
    decreases cmds.len(),
{
    if cmds.len() == 0 {
        Seq::empty()
    } else {
        spec_cmds_refs(cmds.drop_last()) + cmds.last().refs@
    }
}

/// The signal-pending flags of a semaphore list.
pub open spec fn spec_sem_flags(sems: Seq<Semaphore>) -> Seq<bool> {
    sems.map_values(|s: Semaphore| s.signal_pending)
}

/// Runs the wait operations of one batch against the local flag table.
#[verifier::loop_isolation(false)]
fn run_waits(flags: &mut Vec<bool>, waits: &Vec<WaitOp>) -> (r: bool)
    ensures
        r <==> spec_run_waits(old(flags)@, waits@, 0) is Some,
        r ==> Some(final(flags)@) == spec_run_waits(old(flags)@, waits@, 0),
        final(flags).len() == old(flags).len(),
{
    let mut k: usize = 0;
    while k < waits.len()
        invariant
            k <= waits.len(),
            flags.len() == old(flags).len(),
            spec_run_waits(old(flags)@, waits@, 0) == spec_run_waits(flags@, waits@, k as int),
        decreases waits.len() - k,
    {
        let w = waits[k];
        if w.semaphore >= flags.len() || !flags[w.semaphore] {
            return false;
        }
        flags.set(w.semaphore, false);
        k = k + 1;
    }
    true
}

/// Runs the signal operations of one batch against the local flag
/// table.
#[verifier::loop_isolation(false)]
fn run_signals(flags: &mut Vec<bool>, signals: &Vec<usize>) -> (r: bool)
    ensures
        r <==> spec_run_signals(old(flags)@, signals@, 0) is Some,
        r ==> Some(final(flags)@) == spec_run_signals(old(flags)@, signals@, 0),
        final(flags).len() == old(flags).len(),
{
    let mut k: usize = 0;
    while k < signals.len()
        invariant
            k <= signals.len(),
            flags.len() == old(flags).len(),
            spec_run_signals(old(flags)@, signals@, 0) == spec_run_signals(
                flags@,
                signals@,
                k as int,
            ),
        decreases signals.len() - k,
    {
        let s = signals[k];
        if s >= flags.len() || flags[s] {
            return false;
        }
        flags.set(s, true);
        k = k + 1;
    }
    true
}

/// Marks the slots of one batch's command buffers pending in the local
/// slot table.
#[verifier::loop_isolation(false)]
fn mark_commands(slots: &mut Vec<Slot>, pool_handle: u64, cmds: &Vec<CommandBuffer>) -> (r: bool)
    ensures
        r <==> spec_mark_commands(old(slots)@, pool_handle, cmds@, 0) is Some,
        r ==> Some(final(slots)@) == spec_mark_commands(old(slots)@, pool_handle, cmds@, 0),
        final(slots).len() == old(slots).len(),
{
    let mut k: usize = 0;
    while k < cmds.len()
        invariant
            k <= cmds.len(),
            slots.len() == old(slots).len(),
            spec_mark_commands(old(slots)@, pool_handle, cmds@, 0) == spec_mark_commands(
                slots@,
                pool_handle,
                cmds@,
                k as int,
            ),
        decreases cmds.len() - k,
    {
        let b = &cmds[k];
        if b.pool != pool_handle || b.slot >= slots.len() || !matches!(
            slots[b.slot].state,
            SlotState::SlotLent,
        ) {
            return false;
        }
        let handle = slots[b.slot].handle;
        slots.set(b.slot, Slot { state: SlotState::SlotPending, handle });
        k = k + 1;
    }
    true
}

/// Validates and commits one submission: the batches are checked in
/// order against local copies of the semaphore states and the pool's
/// slot table, and only if everything passes are the semaphores
/// written, the buffers' slots marked pending, and the buffers with
/// their descriptor-pool references gathered into a cleanup bag.
#[verifier::loop_isolation(false)]
fn run_submission(
    pool: &mut CommandPool,
    infos: Vec<SubmitInfo>,
    sems: &mut Vec<Semaphore>,
) -> (r: Result<CleanupBag, (Error, Vec<SubmitInfo>)>)
    ensures
        r is Ok <==> spec_run_infos(
            spec_sem_flags(old(sems)@),
            old(pool).slots@,
            old(pool).handle,
            infos@,
            0,
        ) is Some,
        r is Err ==> r->Err_0 == (Error::InvalidArgument, infos) && *final(pool) == *old(pool)
            && final(sems)@ == old(sems)@,
        r is Ok ==> {
            let outcome = spec_run_infos(
                spec_sem_flags(old(sems)@),
                old(pool).slots@,
                old(pool).handle,
                infos@,
                0,
            )->0;
            &&& final(sems)@.len() == old(sems)@.len()
            &&& forall|j: int|
                0 <= j < old(sems)@.len() ==> #[trigger] final(sems)@[j] == (Semaphore {
                    signal_pending: outcome.0[j],
                    ..old(sems)@[j]
                })
            &&& *final(pool) == (CommandPool { slots: final(pool).slots, ..*old(pool) })
            &&& final(pool).slots@ == outcome.1
            &&& r->Ok_0.command_buffers@ == spec_all_commands(infos@)
            &&& r->Ok_0.descriptor_pool_refs@ == spec_cmds_refs(spec_all_commands(infos@))
        },
{
    let ghost flags0 = spec_sem_flags(sems@);
    let ghost slots0 = pool.slots@;
    let mut flags: Vec<bool> = Vec::new();
    let mut j: usize = 0;
    while j < sems.len()
        invariant
            j <= sems.len(),
            flags.len() == j,
            sems@ == old(sems)@,
            forall|m: int| 0 <= m < j ==> flags@[m] == flags0[m],
        decreases sems.len() - j,
    {
        flags.push(sems[j].signal_pending);
        j = j + 1;
    }
    proof {
        assert(flags@ =~= flags0);
    }
    let mut new_slots: Vec<Slot> = crate::types::copy_vec(&pool.slots);
    let mut i: usize = 0;
    while i < infos.len()
        invariant
            i <= infos.len(),
            flags.len() == sems.len(),
            new_slots.len() == pool.slots.len(),
            sems@ == old(sems)@,
            *pool == *old(pool),
            spec_run_infos(flags0, slots0, pool.handle, infos@, 0) == spec_run_infos(
                flags@,
                new_slots@,
                pool.handle,
                infos@,
                i as int,
            ),
        decreases infos.len() - i,
    {
        let info = &infos[i];
        if !run_waits(&mut flags, &info.wait) {
            return Err((Error::InvalidArgument, infos));
        }
        if !mark_commands(&mut new_slots, pool.handle, &info.commands) {
            return Err((Error::InvalidArgument, infos));
        }
        if !run_signals(&mut flags, &info.signal) {
            return Err((Error::InvalidArgument, infos));
        }
        i = i + 1;
    }
    let mut j: usize = 0;
    while j < sems.len()
        invariant
            j <= sems.len(),
            sems.len() == old(sems)@.len(),
            flags.len() == sems.len(),
            forall|m: int|
                0 <= m < j ==> #[trigger] sems@[m] == (Semaphore {
                    signal_pending: flags@[m],
                    ..old(sems)@[m]
                }),
            forall|m: int| j <= m < sems.len() ==> #[trigger] sems@[m] == old(sems)@[m],
        decreases sems.len() - j,
    {
        let s = sems[j];
        let pending = flags[j];
        sems.set(j, Semaphore { signal_pending: pending, ..s });
        j = j + 1;
    }
    pool.slots = new_slots;
    let mut bag = CleanupBag::new();
    let ghost orig_infos = infos@;
    let mut rest = infos;
    let mut tt: usize = 0;
    while rest.len() > 0
        invariant
            tt <= orig_infos.len(),
            rest@ == orig_infos.subrange(tt as int, orig_infos.len() as int),
            bag.command_buffers@ == spec_all_commands(orig_infos.subrange(0, tt as int)),
            bag.descriptor_pool_refs@ == spec_cmds_refs(
                spec_all_commands(orig_infos.subrange(0, tt as int)),
            ),
        decreases rest.len(),
    {
        let mut info = rest.remove(0);
        let n_cmds: usize = info.commands.len();
        let ghost orig_cmds = info.commands@;
        proof {
            assert(orig_cmds.len() == n_cmds);
        }
        proof {
            assert(orig_infos.subrange(tt as int, orig_infos.len() as int)[0] == orig_infos[tt as int]);
        }
        let mut c: usize = 0;
        while info.commands.len() > 0
            invariant
                orig_cmds.len() <= usize::MAX,
                c <= orig_cmds.len(),
                info.commands@ == orig_cmds.subrange(c as int, orig_cmds.len() as int),
                bag.command_buffers@ == spec_all_commands(orig_infos.subrange(0, tt as int))
                    + orig_cmds.subrange(0, c as int),
                bag.descriptor_pool_refs@ == spec_cmds_refs(
                    spec_all_commands(orig_infos.subrange(0, tt as int)) + orig_cmds.subrange(
                        0,
                        c as int,
                    ),
                ),
            decreases info.commands.len(),
        {
            let b = info.commands.remove(0);
            proof {
                assert(orig_cmds.subrange(c as int, orig_cmds.len() as int)[0]
                    == orig_cmds[c as int]);
            }
            let ghost refs_target = bag.descriptor_pool_refs@ + b.refs@;
            let mut m: usize = 0;
            while m < b.refs.len()
                invariant
                    m <= b.refs.len(),
                    bag.descriptor_pool_refs@ == refs_target.subrange(
                        0,
                        refs_target.len() - b.refs.len() + m,
                    ),
                    bag.command_buffers@ == spec_all_commands(
                        orig_infos.subrange(0, tt as int),
                    ) + orig_cmds.subrange(0, c as int),
                decreases b.refs.len() - m,
            {
                bag.descriptor_pool_refs.push(b.refs[m]);
                proof {
                    assert(bag.descriptor_pool_refs@ =~= refs_target.subrange(
                        0,
                        refs_target.len() - b.refs.len() + m + 1,
                    ));
                }
                m = m + 1;
            }
            proof {
                assert(bag.descriptor_pool_refs@ =~= refs_target);
            }
            bag.command_buffers.push(b);
            proof {
                let pre = spec_all_commands(orig_infos.subrange(0, tt as int))
                    + orig_cmds.subrange(0, c as int);
                let post = spec_all_commands(orig_infos.subrange(0, tt as int))
                    + orig_cmds.subrange(0, c as int + 1);
                assert(post =~= pre.push(orig_cmds[c as int]));
                lemma_cmds_refs_push(pre, orig_cmds[c as int]);
            }
            c = c + 1;
        }
        proof {
            let pre = orig_infos.subrange(0, tt as int);
            let post = orig_infos.subrange(0, tt as int + 1);
            assert(post.drop_last() =~= pre);
            assert(post.last() == orig_infos[tt as int]);
            assert(orig_cmds.subrange(0, orig_cmds.len() as int) =~= orig_cmds);
            assert(spec_all_commands(post) =~= spec_all_commands(pre) + orig_cmds);
            assert(rest@ =~= orig_infos.subrange(tt as int + 1, orig_infos.len() as int));
        }
        tt = tt + 1;
    }
    proof {
        assert(orig_infos.subrange(0, orig_infos.len() as int) =~= orig_infos);
    }
    Ok(bag)
}

impl Queue {
    /// Submits batches of work, guarded by `fence`.  All command
    /// buffers must be executable buffers of `pool`; every wait must
    /// name a semaphore with a signal pending and every signal one
    /// without, processed in batch order.  On failure nothing is
    /// changed and the fence and the batches come back.  On success the
    /// submission's buffers and descriptor-set references move into the
    /// pending fence's cleanup bag, the buffers' slots become pending,
    /// and the semaphores take their new state.
    pub fn submit_with_fence(
        &mut self,
        pool: &mut CommandPool,
        infos: Vec<SubmitInfo>,
        sems: &mut Vec<Semaphore>,
        fence: Fence,
    ) -> (r: Result<PendingFence, (Error, Fence, Vec<SubmitInfo>)>)
        requires
            old(pool).device == old(self).device,
        ensures
            *final(self) == *old(self),
            r is Ok <==> spec_run_infos(
                spec_sem_flags(old(sems)@),
                old(pool).slots@,
                old(pool).handle,
                infos@,
                0,
            ) is Some,
            r is Err ==> r->Err_0 == (Error::InvalidArgument, fence, infos) && *final(pool)
                == *old(pool) && final(sems)@ == old(sems)@,
            r is Ok ==> {
                let outcome = spec_run_infos(
                    spec_sem_flags(old(sems)@),
                    old(pool).slots@,
                    old(pool).handle,
                    infos@,
                    0,
                )->0;
                &&& final(sems)@.len() == old(sems)@.len()
                &&& forall|j: int|
                    0 <= j < old(sems)@.len() ==> #[trigger] final(sems)@[j] == (Semaphore {
                        signal_pending: outcome.0[j],
                        ..old(sems)@[j]
                    })
                &&& *final(pool) == (CommandPool { slots: final(pool).slots, ..*old(pool) })
                &&& final(pool).slots@ == outcome.1
                &&& r->Ok_0.fence == fence
                &&& r->Ok_0.bag.command_buffers@ == spec_all_commands(infos@)
                &&& r->Ok_0.bag.descriptor_pool_refs@ == spec_cmds_refs(spec_all_commands(infos@))
            },
    {
        match run_submission(pool, infos, sems) {
            Ok(bag) => Ok(PendingFence { fence, bag }),
            Err((e, infos)) => Err((e, fence, infos)),
        }
    }

    /// Submits batches of work without a fence.  The checks and effects
    /// are those of [`Queue::submit_with_fence`], but the submission's
    /// buffers and descriptor-set references are retained by the queue
    /// itself until [`Queue::wait_idle`] hands them back.
    pub fn submit(
        &mut self,
        pool: &mut CommandPool,
        infos: Vec<SubmitInfo>,
        sems: &mut Vec<Semaphore>,
    ) -> (r: Result<(), (Error, Vec<SubmitInfo>)>)
        requires
            old(pool).device == old(self).device,
        ensures
            r is Ok <==> spec_run_infos(
                spec_sem_flags(old(sems)@),
                old(pool).slots@,
                old(pool).handle,
                infos@,
                0,
            ) is Some,
            r is Err ==> r->Err_0 == (Error::InvalidArgument, infos) && *final(pool) == *old(
                pool,
            ) && final(sems)@ == old(sems)@ && *final(self) == *old(self),
            r is Ok ==> {
                let outcome = spec_run_infos(
                    spec_sem_flags(old(sems)@),
                    old(pool).slots@,
                    old(pool).handle,
                    infos@,
                    0,
                )->0;
                &&& final(sems)@.len() == old(sems)@.len()
                &&& forall|j: int|
                    0 <= j < old(sems)@.len() ==> #[trigger] final(sems)@[j] == (Semaphore {
                        signal_pending: outcome.0[j],
                        ..old(sems)@[j]
                    })
                &&& *final(pool) == (CommandPool { slots: final(pool).slots, ..*old(pool) })
                &&& final(pool).slots@ == outcome.1
                &&& final(self).pending_command_buffers@ == old(
                    self,
                ).pending_command_buffers@ + spec_all_commands(infos@)
                &&& final(self).pending_descriptor_pool_refs@ == old(
                    self,
                ).pending_descriptor_pool_refs@ + spec_cmds_refs(spec_all_commands(infos@))
                &&& final(self).handle == old(self).handle
                &&& final(self).device == old(self).device
                &&& final(self).family_index == old(self).family_index
                &&& final(self).queue_index == old(self).queue_index
            },
    {
        match run_submission(pool, infos, sems) {
            Ok(mut bag) => {
                self.pending_command_buffers.append(&mut bag.command_buffers);
                self.pending_descriptor_pool_refs.append(&mut bag.descriptor_pool_refs);
                Ok(())
            },
            Err(pair) => Err(pair),
        }
    }

    /// Waits until the queue is idle and hands back everything the
    /// queue retained for fence-less submissions, so that its
    /// references can be released to their pools.
    pub fn wait_idle(&mut self) -> (r: CleanupBag)
        ensures
            r.command_buffers@ == old(self).pending_command_buffers@,
            r.descriptor_pool_refs@ == old(self).pending_descriptor_pool_refs@,
            final(self).pending_command_buffers.len() == 0,
            final(self).pending_descriptor_pool_refs.len() == 0,
            final(self).handle == old(self).handle,
            final(self).device == old(self).device,
            final(self).family_index == old(self).family_index,
            final(self).queue_index == old(self).queue_index,
    {
        let mut bag = CleanupBag::new();
        core::mem::swap(&mut bag.command_buffers, &mut self.pending_command_buffers);
        core::mem::swap(&mut bag.descriptor_pool_refs, &mut self.pending_descriptor_pool_refs);
        bag
    }
}

/// A builder for queue submissions.  Waits, command buffers and
/// signals may be added in any order; because a batch runs its waits
/// before its commands and its commands before its signals, adding a
/// wait after a command or signal, or a command after a signal, seals
/// the current batch and starts the next one.
pub struct SubmitScope {
    /// The batches sealed so far.
    pub batches: Vec<SubmitInfo>,
    /// Waits of the batch being built.
    pub wait: Vec<WaitOp>,
    /// Command buffers of the batch being built.
    pub commands: Vec<CommandBuffer>,
    /// Signals of the batch being built.
    pub signal: Vec<usize>,
}

/// True if the batch being built is empty.
pub open spec fn spec_scope_current_empty(s: SubmitScope) -> bool {
    s.wait.len() == 0 && s.commands.len() == 0 && s.signal.len() == 0
}

/// True if `after` is `before` with its built batch sealed: the batch
/// moved to the end of the batch list, and the building area empty.
pub open spec fn spec_scope_sealed(before: SubmitScope, after: SubmitScope) -> bool {
    if spec_scope_current_empty(before) {
        after.batches@.len() == before.batches@.len() && (forall|i: int|
            0 <= i < before.batches@.len() ==> spec_submit_info_eq(
                #[trigger] after.batches@[i],
                before.batches@[i],
            )) && spec_scope_current_empty(after)
    } else {
        after.batches@.len() == before.batches@.len() + 1 && (forall|i: int|
            0 <= i < before.batches@.len() ==> spec_submit_info_eq(
                #[trigger] after.batches@[i],
                before.batches@[i],
            )) && after.batches@.last().wait@ == before.wait@
            && after.batches@.last().commands@ == before.commands@
            && after.batches@.last().signal@ == before.signal@ && spec_scope_current_empty(after)
    }
}

/// True if two batches hold the same operations.
pub open spec fn spec_submit_info_eq(a: SubmitInfo, b: SubmitInfo) -> bool {
    a.wait@ == b.wait@ && a.commands@ == b.commands@ && a.signal@ == b.signal@
}

impl SubmitScope {
    /// An empty scope.
    pub fn new() -> (r: SubmitScope)
        ensures
            r.batches.len() == 0,
            spec_scope_current_empty(r),
    {
        SubmitScope {
            batches: Vec::new(),
            wait: Vec::new(),
            commands: Vec::new(),
            signal: Vec::new(),
        }
    }

    /// Seals the batch being built, if it holds anything.
    pub fn advance(&mut self)
        ensures
            spec_scope_sealed(*old(self), *final(self)),
    {
        if self.wait.len() == 0 && self.commands.len() == 0 && self.signal.len() == 0 {
            return ;
        }
        let mut wait: Vec<WaitOp> = Vec::new();
        let mut commands: Vec<CommandBuffer> = Vec::new();
        let mut signal: Vec<usize> = Vec::new();
        core::mem::swap(&mut wait, &mut self.wait);
        core::mem::swap(&mut commands, &mut self.commands);
        core::mem::swap(&mut signal, &mut self.signal);
        self.batches.push(SubmitInfo { wait, commands, signal });
        proof {
            assert forall|i: int| 0 <= i < old(self).batches@.len() implies spec_submit_info_eq(
                #[trigger] self.batches@[i],
                old(self).batches@[i],
            ) by {
                assert(self.batches@[i] == old(self).batches@[i]);
            }
        }
    }

    /// Adds a wait on semaphore index `semaphore` for `stages` to the
    /// batch being built.  A batch that already has commands or signals
    /// is sealed first, because a batch's waits run before them: a wait
    /// written after commands belongs to the next batch.
    pub fn wait(&mut self, semaphore: usize, stages: PipelineStageFlags)
        ensures
            old(self).commands.len() == 0 && old(self).signal.len() == 0 ==> final(self).batches@.len() == old(self).batches@.len() && (forall|i: int|
                0 <= i < old(self).batches@.len() ==> spec_submit_info_eq(
                    #[trigger] final(self).batches@[i],
                    old(self).batches@[i],
                )) && final(self).wait@ == old(self).wait@.push(
                (WaitOp { semaphore, stage_mask: stages }),
            ) && final(self).commands@ == old(self).commands@ && final(self).signal@ == old(
                self,
            ).signal@,
            old(self).commands.len() != 0 || old(self).signal.len() != 0 ==> final(self).batches@.len() == old(self).batches@.len() + 1 && (forall|i: int|
                0 <= i < old(self).batches@.len() ==> spec_submit_info_eq(
                    #[trigger] final(self).batches@[i],
                    old(self).batches@[i],
                )) && final(self).batches@.last().wait@ == old(self).wait@ && final(self).batches@.last().commands@ == old(self).commands@ && final(self).batches@.last().signal@ == old(self).signal@ && final(self).wait@ == Seq::<
                WaitOp,
            >::empty().push((WaitOp { semaphore, stage_mask: stages })) && final(self).commands@.len() == 0 && final(self).signal@.len() == 0,
    {
        if self.commands.len() != 0 || self.signal.len() != 0 {
            self.advance();
        }
        self.wait.push(WaitOp { semaphore, stage_mask: stages });
    }

    /// Adds a command buffer to the batch being built.  A batch that
    /// already has signals is sealed first, because a batch's commands
    /// run before its signals.
    pub fn command(&mut self, command: CommandBuffer)
        ensures
            old(self).signal.len() == 0 ==> final(self).batches@.len() == old(
                self,
            ).batches@.len() && (forall|i: int|
                0 <= i < old(self).batches@.len() ==> spec_submit_info_eq(
                    #[trigger] final(self).batches@[i],
                    old(self).batches@[i],
                )) && final(self).wait@ == old(self).wait@ && final(self).commands@ == old(
                self,
            ).commands@.push(command) && final(self).signal@ == old(self).signal@,
            old(self).signal.len() != 0 ==> final(self).batches@.len() == old(
                self,
            ).batches@.len() + 1 && (forall|i: int|
                0 <= i < old(self).batches@.len() ==> spec_submit_info_eq(
                    #[trigger] final(self).batches@[i],
                    old(self).batches@[i],
                )) && final(self).batches@.last().wait@ == old(self).wait@ && final(self).batches@.last().commands@ == old(self).commands@ && final(self).batches@.last().signal@ == old(self).signal@ && final(self).wait@.len() == 0
                && final(self).commands@ == Seq::<CommandBuffer>::empty().push(command) && final(self).signal@.len() == 0,
    {
        if self.signal.len() != 0 {
            self.advance();
        }
        self.commands.push(command);
    }

    /// Adds a signal of semaphore index `semaphore` to the batch being
    /// built.
    pub fn signal(&mut self, semaphore: usize)
        ensures
            final(self).batches@ == old(self).batches@,
            final(self).wait@ == old(self).wait@,
            final(self).commands@ == old(self).commands@,
            final(self).signal@ == old(self).signal@.push(semaphore),
    {
        self.signal.push(semaphore);
    }

    /// Seals the batch being built and hands out all batches, ready to
    /// submit.
    pub fn finish(self) -> (r: Vec<SubmitInfo>)
        ensures
            spec_scope_current_empty(self) ==> r@.len() == self.batches@.len() && (forall|i: int|
                0 <= i < self.batches@.len() ==> spec_submit_info_eq(
                    #[trigger] r@[i],
                    self.batches@[i],
                )),
            !spec_scope_current_empty(self) ==> r@.len() == self.batches@.len() + 1 && (forall|
                i: int,
            |
                0 <= i < self.batches@.len() ==> spec_submit_info_eq(
                    #[trigger] r@[i],
                    self.batches@[i],
                )) && r@.last().wait@ == self.wait@ && r@.last().commands@ == self.commands@
                && r@.last().signal@ == self.signal@,
    {
        let mut scope = self;
        scope.advance();
        scope.batches
    }
}

/// Marking command buffers pending keeps a pending slot pending and
/// the slot count unchanged.
proof fn lemma_mark_keeps_pending(
    slots: Seq<Slot>,
    pool_handle: u64,
    cmds: Seq<CommandBuffer>,
    k: int,
    p: int,
)
    requires
        0 <= p < slots.len(),
        slots[p].state is SlotPending,
        spec_mark_commands(slots, pool_handle, cmds, k) is Some,
    ensures
        spec_mark_commands(slots, pool_handle, cmds, k)->0.len() == slots.len(),
        spec_mark_commands(slots, pool_handle, cmds, k)->0[p].state is SlotPending,
    decreases cmds.len() - k,
{
    if 0 <= k < cmds.len() {
        let b = cmds[k];
        let next = slots.update(
            b.slot as int,
            Slot { state: SlotState::SlotPending, handle: slots[b.slot as int].handle },
        );
        lemma_mark_keeps_pending(next, pool_handle, cmds, k + 1, p);
    }
}

/// Pool reset exclusivity: a submission that ran at least one command
/// buffer leaves the pool's slot table with a pending slot, so the pool
/// refuses to reset until every pending slot has been handed back by a
/// waited-on fence.
pub proof fn lemma_pool_reset_exclusivity(
    slots: Seq<Slot>,
    pool_handle: u64,
    cmds: Seq<CommandBuffer>,
    marked: Seq<Slot>,
)
    requires
        cmds.len() > 0,
        Some(marked) == spec_mark_commands(slots, pool_handle, cmds, 0),
    ensures
        !crate::command_buffer::spec_slots_reset_allowed(marked),
{
    let b = cmds[0];
    let next = slots.update(
        b.slot as int,
        Slot { state: SlotState::SlotPending, handle: slots[b.slot as int].handle },
    );
    lemma_mark_keeps_pending(next, pool_handle, cmds, 1, b.slot as int);
}

/// Appending one buffer appends its references.
proof fn lemma_cmds_refs_push(cmds: Seq<CommandBuffer>, b: CommandBuffer)
    ensures
        spec_cmds_refs(cmds.push(b)) == spec_cmds_refs(cmds) + b.refs@,
{
    assert(cmds.push(b).drop_last() =~= cmds);
    assert(cmds.push(b).last() == b);
}

} // verus!
