use vstd::prelude::*;

use crate::descriptor_set::spec_layout_eq;
use crate::descriptor_set::DescriptorSetLayout;
use crate::device::Device;
use crate::enums::DependencyFlags;
use crate::enums::Filter;
use crate::enums::ImageLayout;
use crate::enums::IndexType;
use crate::enums::PipelineStageFlags;
use crate::enums::PipelineBindPoint;
use crate::enums::ShaderStageFlags;
use crate::error::Error;
use crate::image::Framebuffer;
use crate::render_pass::attachment_keys_eq;
use crate::render_pass::AttachmentKey;
use crate::render_pass::RenderPass;
use crate::types::BufferCopy;
use crate::types::BufferImageCopy;
use crate::types::ClearColorValue;
use crate::types::ClearValue;
use crate::types::ImageBlit;
use crate::types::ImageSubresourceRange;
use crate::types::Rect2D;
use crate::types::Viewport;

pub mod barrier;
pub mod bind;
pub mod draw;
pub mod transfer;

verus! {

/// One recorded command: the specification-level image of the single
/// native call each recording operation stands for.  The stream exists
/// only in specifications; nothing executes it here.
pub enum Cmd {
    BeginRenderPass {
        render_pass: u64,
        framebuffer: u64,
        render_area: Rect2D,
        clear_values: Seq<ClearValue>,
    },
    NextSubpass,
    EndRenderPass,
    BindPipeline { pipeline: u64, bind_point: PipelineBindPoint },
    BindDescriptorSets {
        layout: u64,
        first_set: u32,
        set_handles: Seq<u64>,
        dynamic_offsets: Seq<u32>,
    },
    BindVertexBuffers { first_binding: u32, buffer_handles: Seq<u64>, offsets: Seq<u64> },
    BindIndexBuffer { buffer: u64, offset: u64, index_type: IndexType },
    PushConstants { layout: u64, stage_flags: ShaderStageFlags, offset: u32, data: Seq<u8> },
    SetViewport { viewport: Viewport },
    SetScissor { scissor: Rect2D },
    Draw { vertex_count: u32, instance_count: u32, first_vertex: u32, first_instance: u32 },
    DrawIndexed {
        index_count: u32,
        instance_count: u32,
        first_index: u32,
        vertex_offset: i32,
        first_instance: u32,
    },
    DrawIndirect { buffer: u64, offset: u64, draw_count: u32, stride: u32 },
    DrawIndexedIndirect { buffer: u64, offset: u64, draw_count: u32, stride: u32 },
    Dispatch { group_count_x: u32, group_count_y: u32, group_count_z: u32 },
    DispatchIndirect { buffer: u64, offset: u64 },
    FillBuffer { dst: u64, offset: u64, size: u64, data: u32 },
    CopyBuffer { src: u64, dst: u64, regions: Seq<BufferCopy> },
    CopyBufferToImage { src: u64, dst: u64, dst_layout: ImageLayout, regions: Seq<BufferImageCopy> },
    BlitImage {
        src: u64,
        src_layout: ImageLayout,
        dst: u64,
        dst_layout: ImageLayout,
        regions: Seq<ImageBlit>,
        filter: Filter,
    },
    ClearColorImage { image: u64, layout: ImageLayout, color: ClearColorValue, ranges: Seq<ImageSubresourceRange> },
    PipelineBarrier {
        src_stage_mask: PipelineStageFlags,
        dst_stage_mask: PipelineStageFlags,
        dependency_flags: DependencyFlags,
        memory_barriers: Seq<crate::command_buffer::barrier::MemoryBarrier>,
        buffer_memory_barriers: Seq<crate::command_buffer::barrier::BufferMemoryBarrier>,
        image_memory_barriers: Seq<crate::command_buffer::barrier::ImageMemoryBarrier>,
    },
    ExecuteCommands { buffers: Seq<(u64, u64)> },
}

/// The lifecycle state of one buffer slot of a command pool.
#[derive(Clone, Copy, Debug, PartialEq, Eq, Structural)]
pub enum SlotState {
    /// On the free list: a recording may take it.
    SlotFree,
    /// Lent out: a recording or an executable buffer holds it.
    SlotLent,
    /// Referenced by an in-flight submission.
    SlotPending,
    /// Handed back by a waited-on fence; reusable after the next pool
    /// reset.
    SlotReturned,
}

/// One buffer slot of a command pool.
#[derive(Clone, Copy, Debug, PartialEq, Eq, Structural)]
pub struct Slot {
    pub state: SlotState,
    pub handle: u64,
}

/// An allocator owning reusable command-buffer slots.  Slots are lent
/// out one at a time to recordings; the pool refuses to reset while any
/// slot is still lent.
#[derive(Debug)]
pub struct CommandPool {
    pub handle: u64,
    /// The identity of the owning device.
    pub device: u64,
    /// The queue family the pool records for.
    pub queue_family: u32,
    /// The buffer slots of the pool.
    pub slots: Vec<Slot>,
    /// The next raw handle this pool hands to a slot.
    pub next_buffer_handle: u64,
}

/// True if no slot of the table is referenced by an in-flight
/// submission.
pub open spec fn spec_slots_reset_allowed(slots: Seq<Slot>) -> bool {
    forall|i: int| 0 <= i < slots.len() ==> !((#[trigger] slots[i]).state is SlotPending)
}

/// True if no slot of the pool is referenced by an in-flight
/// submission, so that the pool may be reset.
pub open spec fn spec_pool_reset_allowed(pool: CommandPool) -> bool {
    spec_slots_reset_allowed(pool.slots@)
}

impl CommandPool {
    /// Creates a command pool recording for queue family
    /// `queue_family_index`.  Returns `OutOfBounds`, changing nothing, if
    /// the device owns no queue of that family.
    pub fn new(device: &mut Device, queue_family_index: u32) -> (r: Result<CommandPool, Error>)
        ensures
            r is Ok <==> queue_family_index < old(device).queues.len() && old(device).queues[
            queue_family_index as int] >= 1,
            r is Err ==> r->Err_0 == Error::OutOfBounds && *final(device) == *old(device),
            r is Ok ==> {
                let p = r->Ok_0;
                &&& p.device == old(device).id
                &&& p.queue_family == queue_family_index
                &&& p.slots.len() == 0
            },
            crate::device::spec_device_after_mint(*old(device), *final(device)),
    {
        if !device.has_queue(queue_family_index, 1) {
            return Err(Error::OutOfBounds);
        }
        let handle = device.fresh_handle();
        Ok(
            CommandPool {
                handle,
                device: device.id,
                queue_family: queue_family_index,
                slots: Vec::new(),
                next_buffer_handle: 1,
            },
        )
    }

    /// How many buffer slots the pool owns.
    pub fn len(&self) -> (r: usize)
        ensures
            r == self.slots.len(),
    {
        self.slots.len()
    }

    /// Resets the pool, returning every slot to the free list.
    /// Buffers recorded before the reset are invalidated: submitting one
    /// afterwards is refused.  Returns `SynchronizationError`, changing
    /// nothing, while a slot is still referenced by an in-flight
    /// submission.
    #[verifier::loop_isolation(false)]
    pub fn reset(&mut self) -> (r: Result<(), Error>)
        ensures
            r is Ok <==> spec_pool_reset_allowed(*old(self)),
            r is Err ==> r->Err_0 == Error::SynchronizationError && *final(self) == *old(self),
            r is Ok ==> {
                &&& final(self).handle == old(self).handle
                &&& final(self).device == old(self).device
                &&& final(self).queue_family == old(self).queue_family
                &&& final(self).slots.len() == old(self).slots.len()
                &&& forall|i: int|
                    0 <= i < old(self).slots.len() ==> #[trigger] final(self).slots[i] == (Slot {
                        state: SlotState::SlotFree,
                        handle: old(self).slots[i].handle,
                    })
            },
    {
        let mut i: usize = 0;
        while i < self.slots.len()
            invariant
                i <= self.slots.len(),
                forall|j: int| 0 <= j < i ==> !((#[trigger] self.slots[j]).state is SlotPending),
                *self == *old(self),
            decreases self.slots.len() - i,
        {
            if matches!(self.slots[i].state, SlotState::SlotPending) {
                return Err(Error::SynchronizationError);
            }
            i = i + 1;
        }
        let ghost orig = *self;
        let mut i: usize = 0;
        while i < self.slots.len()
            invariant
                i <= self.slots.len(),
                self.slots.len() == orig.slots.len(),
                self.handle == orig.handle,
                self.device == orig.device,
                self.queue_family == orig.queue_family,
                self.next_buffer_handle == orig.next_buffer_handle,
                forall|j: int|
                    0 <= j < i ==> #[trigger] self.slots[j] == (Slot {
                        state: SlotState::SlotFree,
                        handle: orig.slots[j].handle,
                    }),
                forall|j: int| i <= j < orig.slots.len() ==> self.slots[j] == orig.slots[j],
            decreases self.slots.len() - i,
        {
            let handle = self.slots[i].handle;
            self.slots.set(i, Slot { state: SlotState::SlotFree, handle });
            i = i + 1;
        }
        Ok(())
    }

    /// Begins a command buffer, taking a free slot, or reserving one new
    /// slot exactly when none is free.  The returned recording owns the
    /// slot until the buffer's submission is waited on and the pool is
    /// reset.  Buffers are recorded for one submission only: a slot
    /// returns to the free list only through a pool reset, which also
    /// invalidates buffers recorded before it.
    #[verifier::loop_isolation(false)]
    pub fn begin(&mut self) -> (r: CommandRecording)
        ensures
            r.pool == old(self).handle,
            r.device == old(self).device,
            r.slot < final(self).slots.len(),
            final(self).slots[r.slot as int].state is SlotLent,
            r.slot < old(self).slots.len() ==> old(self).slots[r.slot as int].state is SlotFree
                && final(self).slots.len() == old(self).slots.len(),
            r.slot >= old(self).slots.len() ==> (forall|i: int|
                0 <= i < old(self).slots.len() ==> !((#[trigger] old(self).slots[i]).state
                    is SlotFree)) && final(self).slots.len() == old(self).slots.len() + 1
                && r.slot == old(self).slots.len(),
            final(self).handle == old(self).handle,
            final(self).device == old(self).device,
            final(self).queue_family == old(self).queue_family,
            final(self).slots.len() >= old(self).slots.len(),
            forall|i: int|
                0 <= i < old(self).slots.len() && i != r.slot ==> #[trigger] final(self).slots[i]
                    == old(self).slots[i],
            r.graphics.layouts.len() == 0,
            r.graphics.inited.len() == 0,
            r.graphics.pipeline is None,
            r.compute.layouts.len() == 0,
            r.compute.inited.len() == 0,
            r.compute.pipeline is None,
            r.commands@ == Seq::<Cmd>::empty(),
            r.refs.len() == 0,
    {
        let mut found: usize = self.slots.len();
        let mut i: usize = 0;
        while i < self.slots.len()
            invariant
                i <= self.slots.len(),
                found == self.slots.len() || (found < i
                    && self.slots[found as int].state is SlotFree),
                found == self.slots.len() ==> forall|j: int|
                    0 <= j < i ==> !((#[trigger] self.slots[j]).state is SlotFree),
            decreases self.slots.len() - i,
        {
            if found == self.slots.len() && matches!(self.slots[i].state, SlotState::SlotFree) {
                found = i;
            }
            i = i + 1;
        }
        let slot: usize = if found < self.slots.len() {
            let handle = self.slots[found].handle;
            self.slots.set(found, Slot { state: SlotState::SlotLent, handle });
            found
        } else {
            let handle = self.next_buffer_handle;
            if self.next_buffer_handle < u64::MAX {
                self.next_buffer_handle = self.next_buffer_handle + 1;
            }
            self.slots.push(Slot { state: SlotState::SlotLent, handle });
            self.slots.len() - 1
        };
        CommandRecording {
            pool: self.handle,
            device: self.device,
            slot,
            graphics: Bindings::new(),
            compute: Bindings::new(),
            commands: Ghost(Seq::empty()),
            refs: Vec::new(),
        }
    }
}

/// The descriptor and pipeline state of one bind point of a recording.
#[derive(Debug)]
pub struct Bindings {
    /// The set layouts currently bound, by set index.
    pub layouts: Vec<DescriptorSetLayout>,
    /// Which bound set indices are currently valid.
    pub inited: Vec<bool>,
    /// The pipeline currently bound at this bind point.
    pub pipeline: Option<PipelineSnapshot>,
}

/// What a recording keeps of a bound pipeline: its handle, the set
/// layouts it expects, and its render-pass association.
#[derive(Debug)]
pub struct PipelineSnapshot {
    pub handle: u64,
    pub layouts: Vec<DescriptorSetLayout>,
    /// The pass compatibility key and subpass, for graphics pipelines.
    pub render_pass: Option<(Vec<AttachmentKey>, u64)>,
}

/// The binding table is well formed: one validity flag per bound set.
pub open spec fn spec_bindings_wf(b: Bindings) -> bool {
    b.layouts.len() == b.inited.len()
}

impl Bindings {
    /// An empty binding state.
    pub fn new() -> (r: Bindings)
        ensures
            r.layouts.len() == 0,
            r.inited.len() == 0,
            r.pipeline is None,
            spec_bindings_wf(r),
    {
        Bindings { layouts: Vec::new(), inited: Vec::new(), pipeline: None }
    }
}

/// The first position at or after `j` where the bound layouts and the
/// pipeline layouts diverge, or the end of the shorter sequence.
pub open spec fn spec_divergence_from(
    cur: Seq<DescriptorSetLayout>,
    newp: Seq<DescriptorSetLayout>,
    j: int,
) -> int
    decreases (if cur.len() <= newp.len() {
        cur.len()
    } else {
        newp.len()
    }) - j,
{
    let min = if cur.len() <= newp.len() {
        cur.len() as int
    } else {
        newp.len() as int
    };
    if j < 0 || j >= min {
        min
    } else if !spec_layout_eq(cur[j], newp[j]) {
        j
    } else {
        spec_divergence_from(cur, newp, j + 1)
    }
}

/// The first point of divergence between the bound layouts and the
/// pipeline layouts, or the end of the shorter sequence.
pub open spec fn spec_divergence(cur: Seq<DescriptorSetLayout>, newp: Seq<DescriptorSetLayout>) -> int {
    spec_divergence_from(cur, newp, 0)
}

/// From any start, the divergence scan ends between its start and the
/// shorter sequence's end.
proof fn lemma_divergence_from_bounds(
    cur: Seq<DescriptorSetLayout>,
    newp: Seq<DescriptorSetLayout>,
    k: int,
)
    requires
        0 <= k,
    ensures
        spec_divergence_from(cur, newp, k) <= (if cur.len() <= newp.len() {
            cur.len() as int
        } else {
            newp.len() as int
        }),
        k <= (if cur.len() <= newp.len() {
            cur.len() as int
        } else {
            newp.len() as int
        }) ==> k <= spec_divergence_from(cur, newp, k),
    decreases (if cur.len() <= newp.len() {
        cur.len()
    } else {
        newp.len()
    }) - k,
{
    let min: int = if cur.len() <= newp.len() {
        cur.len() as int
    } else {
        newp.len() as int
    };
    if k < min && spec_layout_eq(cur[k], newp[k]) {
        lemma_divergence_from_bounds(cur, newp, k + 1);
    }
}

/// The point of divergence never exceeds the shorter of the two
/// sequences.
pub proof fn lemma_divergence_bounds(cur: Seq<DescriptorSetLayout>, newp: Seq<DescriptorSetLayout>)
    ensures
        0 <= spec_divergence(cur, newp),
        spec_divergence(cur, newp) <= cur.len(),
        spec_divergence(cur, newp) <= newp.len(),
{
    lemma_divergence_from_bounds(cur, newp, 0);
}

/// Before the point of divergence, the bound layouts and the new
/// layouts agree.
pub proof fn lemma_divergence_prefix_eq(
    cur: Seq<DescriptorSetLayout>,
    newp: Seq<DescriptorSetLayout>,
    j: int,
)
    requires
        0 <= j < spec_divergence(cur, newp),
    ensures
        spec_layout_eq(cur[j], newp[j]),
{
    lemma_divergence_from_prefix_eq(cur, newp, 0, j);
}

/// From any start, every index before the scan's end agrees.
proof fn lemma_divergence_from_prefix_eq(
    cur: Seq<DescriptorSetLayout>,
    newp: Seq<DescriptorSetLayout>,
    k: int,
    j: int,
)
    requires
        0 <= k <= j,
        j < spec_divergence_from(cur, newp, k),
    ensures
        spec_layout_eq(cur[j], newp[j]),
    decreases j - k,
{
    if k < j {
        lemma_divergence_from_prefix_eq(cur, newp, k + 1, j);
    }
}

/// How a descriptor-set bind at set indices [`begin`, `end`) under the
/// pipeline-layout prefix `newp` (of length `end`) transforms the
/// binding state.  Bindings before the first point of divergence from
/// the new layouts keep their validity; from there through the newly
/// written range the state follows the new sets; a diverging bind drops
/// everything beyond the written range.
pub open spec fn spec_bind_applied(
    old_layouts: Seq<DescriptorSetLayout>,
    old_inited: Seq<bool>,
    newp: Seq<DescriptorSetLayout>,
    begin: int,
    new_layouts: Seq<DescriptorSetLayout>,
    new_inited: Seq<bool>,
) -> bool {
    let end = newp.len() as int;
    let d = spec_divergence(old_layouts, newp);
    if d < end {
        let keep = if d <= begin {
            d
        } else {
            begin
        };
        &&& new_layouts.len() == end
        &&& forall|j: int| 0 <= j < end ==> spec_layout_eq(#[trigger] new_layouts[j], newp[j])
        &&& new_inited.len() == end
        &&& forall|j: int| 0 <= j < keep ==> #[trigger] new_inited[j] == old_inited[j]
        &&& forall|j: int| keep <= j < begin ==> !(#[trigger] new_inited[j])
        &&& forall|j: int| begin <= j < end ==> #[trigger] new_inited[j]
    } else {
        &&& new_layouts == old_layouts
        &&& new_inited.len() == old_inited.len()
        &&& forall|j: int|
            0 <= j < old_inited.len() ==> #[trigger] new_inited[j] == (begin <= j < end
                || old_inited[j])
    }
}

/// An in-progress recording of a command buffer, outside a render pass.
/// It owns one pool slot and tracks the binding state consulted by every
/// draw and dispatch.
pub struct CommandRecording {
    /// The handle of the owning pool.
    pub pool: u64,
    /// The identity of the owning device.
    pub device: u64,
    /// The pool slot this recording writes.
    pub slot: usize,
    /// Binding state of the graphics bind point.
    pub graphics: Bindings,
    /// Binding state of the compute bind point.
    pub compute: Bindings,
    /// The commands recorded so far.
    pub commands: Ghost<Seq<Cmd>>,
    /// The descriptor pools referenced by bound sets, one entry per
    /// bind.
    pub refs: Vec<u64>,
}

/// Both bind points of the recording are well formed.
pub open spec fn spec_recording_wf(rec: CommandRecording) -> bool {
    spec_bindings_wf(rec.graphics) && spec_bindings_wf(rec.compute)
}

/// Everything of the recording except binding state, commands and refs.
pub open spec fn spec_same_recording_identity(a: CommandRecording, b: CommandRecording) -> bool {
    a.pool == b.pool && a.device == b.device && a.slot == b.slot
}

/// An executable command buffer: the finished recording, ready to
/// submit.  It still owns its pool slot; the slot comes home when the
/// submission's fence is waited on and released.
pub struct CommandBuffer {
    /// The handle of the owning pool.
    pub pool: u64,
    /// The identity of the owning device.
    pub device: u64,
    /// The pool slot the buffer occupies.
    pub slot: usize,
    /// The recorded commands.
    pub commands: Ghost<Seq<Cmd>>,
    /// The descriptor pools referenced by bound sets.
    pub refs: Vec<u64>,
}

impl CommandRecording {
    /// Finalizes the recording into an executable buffer.
    pub fn end(self) -> (r: Result<CommandBuffer, Error>)
        ensures
            r is Ok,
            r->Ok_0 == (CommandBuffer {
                pool: self.pool,
                device: self.device,
                slot: self.slot,
                commands: self.commands,
                refs: self.refs,
            }),
    {
        Ok(
            CommandBuffer {
                pool: self.pool,
                device: self.device,
                slot: self.slot,
                commands: self.commands,
                refs: self.refs,
            },
        )
    }

    /// Begins a render pass recorded inline.  Returns
    /// `InvalidArgument`, handing the recording back unchanged, if
    /// `framebuffer` and `render_pass` are not attachment-compatible.
    pub fn begin_render_pass(
        self,
        render_pass: &RenderPass,
        framebuffer: &Framebuffer,
        render_area: &Rect2D,
        clear_values: &Vec<ClearValue>,
    ) -> (r: Result<RenderPassRecording, (Error, CommandRecording)>)
        requires
            render_pass.device == self.device,
            framebuffer.device == self.device,
        ensures
            r is Ok <==> framebuffer.render_pass_compat@ == render_pass.compat@,
            r is Err ==> r->Err_0 == (Error::InvalidArgument, self),
            r is Ok ==> {
                let p = r->Ok_0;
                &&& spec_same_recording_identity(p.rec, self)
                &&& p.rec.graphics == self.graphics
                &&& p.rec.compute == self.compute
                &&& p.rec.refs == self.refs
                &&& p.rec.commands@ == self.commands@.push(
                    (Cmd::BeginRenderPass {
                        render_pass: render_pass.handle,
                        framebuffer: framebuffer.handle,
                        render_area: *render_area,
                        clear_values: clear_values@,
                    }),
                )
                &&& p.pass_compat@ == render_pass.compat@
                &&& p.subpasses == render_pass.subpasses
                &&& p.subpass == 0
            },
    {
        if !framebuffer.is_compatible_with(render_pass) {
            return Err((Error::InvalidArgument, self));
        }
        let mut rec = self;
        proof {
            rec.commands@ = rec.commands@.push(
                (Cmd::BeginRenderPass {
                    render_pass: render_pass.handle,
                    framebuffer: framebuffer.handle,
                    render_area: *render_area,
                    clear_values: clear_values@,
                }),
            );
        }
        Ok(
            RenderPassRecording {
                rec,
                pass_compat: render_pass.compat_key(),
                subpasses: render_pass.num_subpasses(),
                subpass: 0,
            },
        )
    }

    /// Begins a render pass whose contents come from secondary command
    /// buffers.  Returns `InvalidArgument`, handing the recording back
    /// unchanged, if `framebuffer` and `render_pass` are not
    /// attachment-compatible.
    pub fn begin_render_pass_secondary(
        self,
        render_pass: &RenderPass,
        framebuffer: &Framebuffer,
        render_area: &Rect2D,
        clear_values: &Vec<ClearValue>,
    ) -> (r: Result<ExternalRenderPassRecording, (Error, CommandRecording)>)
        requires
            render_pass.device == self.device,
            framebuffer.device == self.device,
        ensures
            r is Ok <==> framebuffer.render_pass_compat@ == render_pass.compat@,
            r is Err ==> r->Err_0 == (Error::InvalidArgument, self),
            r is Ok ==> {
                let p = r->Ok_0;
                &&& spec_same_recording_identity(p.rec, self)
                &&& p.rec.graphics == self.graphics
                &&& p.rec.compute == self.compute
                &&& p.rec.refs == self.refs
                &&& p.rec.commands@ == self.commands@.push(
                    (Cmd::BeginRenderPass {
                        render_pass: render_pass.handle,
                        framebuffer: framebuffer.handle,
                        render_area: *render_area,
                        clear_values: clear_values@,
                    }),
                )
                &&& p.pass_compat@ == render_pass.compat@
                &&& p.subpasses == render_pass.subpasses
                &&& p.subpass == 0
            },
    {
        if !framebuffer.is_compatible_with(render_pass) {
            return Err((Error::InvalidArgument, self));
        }
        let mut rec = self;
        proof {
            rec.commands@ = rec.commands@.push(
                (Cmd::BeginRenderPass {
                    render_pass: render_pass.handle,
                    framebuffer: framebuffer.handle,
                    render_area: *render_area,
                    clear_values: clear_values@,
                }),
            );
        }
        Ok(
            ExternalRenderPassRecording {
                rec,
                pass_compat: render_pass.compat_key(),
                subpasses: render_pass.num_subpasses(),
                subpass: 0,
            },
        )
    }
}

/// An in-progress recording inside a render pass, recorded inline.
pub struct RenderPassRecording {
    pub rec: CommandRecording,
    /// The compatibility key of the pass being recorded.
    pub pass_compat: Vec<AttachmentKey>,
    /// How many subpasses the pass declares.
    pub subpasses: u64,
    /// The subpass currently recorded.
    pub subpass: u64,
}

impl RenderPassRecording {
    /// Advances to the next subpass.  Returns `OutOfBounds`, changing
    /// nothing, if this is the last subpass.
    pub fn next_subpass(&mut self) -> (r: Result<(), Error>)
        ensures
            r is Ok <==> old(self).subpass + 1 < old(self).subpasses,
            r is Err ==> r->Err_0 == Error::OutOfBounds && *final(self) == *old(self),
            r is Ok ==> *final(self) == (RenderPassRecording {
                subpass: (old(self).subpass + 1) as u64,
                rec: final(self).rec,
                ..*old(self)
            }) && final(self).rec == (CommandRecording {
                commands: Ghost(old(self).rec.commands@.push(Cmd::NextSubpass)),
                ..old(self).rec
            }),
    {
        if self.subpasses == 0 || self.subpass >= self.subpasses - 1 {
            return Err(Error::OutOfBounds);
        }
        self.subpass = self.subpass + 1;
        proof {
            self.rec.commands@ = self.rec.commands@.push(Cmd::NextSubpass);
        }
        Ok(())
    }

    /// Advances to the next subpass, recorded in secondary command
    /// buffers.  Returns `OutOfBounds`, handing the recording back
    /// unchanged, if this is the last subpass.
    pub fn next_subpass_secondary(self) -> (r: Result<
        ExternalRenderPassRecording,
        (Error, RenderPassRecording),
    >)
        ensures
            r is Ok <==> self.subpass + 1 < self.subpasses,
            r is Err ==> r->Err_0 == (Error::OutOfBounds, self),
            r is Ok ==> {
                let p = r->Ok_0;
                &&& p.rec == (CommandRecording {
                    commands: Ghost(self.rec.commands@.push(Cmd::NextSubpass)),
                    ..self.rec
                })
                &&& p.pass_compat == self.pass_compat
                &&& p.subpasses == self.subpasses
                &&& p.subpass == self.subpass + 1
            },
    {
        if self.subpasses == 0 || self.subpass >= self.subpasses - 1 {
            return Err((Error::OutOfBounds, self));
        }
        let mut rec = self.rec;
        proof {
            rec.commands@ = rec.commands@.push(Cmd::NextSubpass);
        }
        Ok(
            ExternalRenderPassRecording {
                rec,
                pass_compat: self.pass_compat,
                subpasses: self.subpasses,
                subpass: self.subpass + 1,
            },
        )
    }

    /// Ends the render pass.  Returns `InvalidState`, handing the
    /// recording back unchanged, unless this is the last subpass.
    pub fn end(self) -> (r: Result<CommandRecording, (Error, RenderPassRecording)>)
        ensures
            r is Ok <==> self.subpasses > 0 && self.subpass == self.subpasses - 1,
            r is Err ==> r->Err_0 == (Error::InvalidState, self),
            r is Ok ==> r->Ok_0 == (CommandRecording {
                commands: Ghost(self.rec.commands@.push(Cmd::EndRenderPass)),
                ..self.rec
            }),
    {
        if self.subpasses == 0 || self.subpass != self.subpasses - 1 {
            return Err((Error::InvalidState, self));
        }
        let mut rec = self.rec;
        proof {
            rec.commands@ = rec.commands@.push(Cmd::EndRenderPass);
        }
        Ok(rec)
    }
}

/// An in-progress recording inside a render pass whose contents come
/// from secondary command buffers.
pub struct ExternalRenderPassRecording {
    pub rec: CommandRecording,
    /// The compatibility key of the pass being recorded.
    pub pass_compat: Vec<AttachmentKey>,
    /// How many subpasses the pass declares.
    pub subpasses: u64,
    /// The subpass currently recorded.
    pub subpass: u64,
}

impl ExternalRenderPassRecording {
    /// Advances to the next subpass, still recorded in secondary command
    /// buffers.  Returns `OutOfBounds`, changing nothing, if this is the
    /// last subpass.
    pub fn next_subpass_secondary(&mut self) -> (r: Result<(), Error>)
        ensures
            r is Ok <==> old(self).subpass + 1 < old(self).subpasses,
            r is Err ==> r->Err_0 == Error::OutOfBounds && *final(self) == *old(self),
            r is Ok ==> *final(self) == (ExternalRenderPassRecording {
                subpass: (old(self).subpass + 1) as u64,
                rec: final(self).rec,
                ..*old(self)
            }) && final(self).rec == (CommandRecording {
                commands: Ghost(old(self).rec.commands@.push(Cmd::NextSubpass)),
                ..old(self).rec
            }),
    {
        if self.subpasses == 0 || self.subpass >= self.subpasses - 1 {
            return Err(Error::OutOfBounds);
        }
        self.subpass = self.subpass + 1;
        proof {
            self.rec.commands@ = self.rec.commands@.push(Cmd::NextSubpass);
        }
        Ok(())
    }

    /// Advances to the next subpass, recorded inline from here on.
    /// Returns `OutOfBounds`, handing the recording back unchanged, if
    /// this is the last subpass.
    pub fn next_subpass(self) -> (r: Result<
        RenderPassRecording,
        (Error, ExternalRenderPassRecording),
    >)
        ensures
            r is Ok <==> self.subpass + 1 < self.subpasses,
            r is Err ==> r->Err_0 == (Error::OutOfBounds, self),
            r is Ok ==> {
                let p = r->Ok_0;
                &&& p.rec == (CommandRecording {
                    commands: Ghost(self.rec.commands@.push(Cmd::NextSubpass)),
                    ..self.rec
                })
                &&& p.pass_compat == self.pass_compat
                &&& p.subpasses == self.subpasses
                &&& p.subpass == self.subpass + 1
            },
    {
        if self.subpasses == 0 || self.subpass >= self.subpasses - 1 {
            return Err((Error::OutOfBounds, self));
        }
        let mut rec = self.rec;
        proof {
            rec.commands@ = rec.commands@.push(Cmd::NextSubpass);
        }
        Ok(
            RenderPassRecording {
                rec,
                pass_compat: self.pass_compat,
                subpasses: self.subpasses,
                subpass: self.subpass + 1,
            },
        )
    }

    /// Ends the render pass.  Returns `InvalidState`, handing the
    /// recording back unchanged, unless this is the last subpass.
    pub fn end(self) -> (r: Result<CommandRecording, (Error, ExternalRenderPassRecording)>)
        ensures
            r is Ok <==> self.subpasses > 0 && self.subpass == self.subpasses - 1,
            r is Err ==> r->Err_0 == (Error::InvalidState, self),
            r is Ok ==> r->Ok_0 == (CommandRecording {
                commands: Ghost(self.rec.commands@.push(Cmd::EndRenderPass)),
                ..self.rec
            }),
    {
        if self.subpasses == 0 || self.subpass != self.subpasses - 1 {
            return Err((Error::InvalidState, self));
        }
        let mut rec = self.rec;
        proof {
            rec.commands@ = rec.commands@.push(Cmd::EndRenderPass);
        }
        Ok(rec)
    }
}

/// A finished secondary command buffer, replayable inside a compatible
/// render pass at its subpass.
pub struct SecondaryCommandBuffer {
    /// The handle of the owning pool.
    pub pool: u64,
    /// The identity of the owning device.
    pub device: u64,
    /// The pool slot the buffer occupies.
    pub slot: usize,
    /// The pass compatibility key and subpass the buffer was recorded
    /// for; `None` until it has been recorded.
    pub pass: Option<(Vec<AttachmentKey>, u64)>,
    /// The recorded commands.
    pub commands: Ghost<Seq<Cmd>>,
    /// The descriptor pools referenced by bound sets.
    pub refs: Vec<u64>,
}

impl CommandPool {
    /// Allocates a secondary command buffer from the pool.  It must be
    /// recorded with [`CommandPool::begin_secondary`] before use.
    pub fn allocate_secondary(&mut self) -> (r: SecondaryCommandBuffer)
        ensures
            r.pool == old(self).handle,
            r.device == old(self).device,
            r.slot < final(self).slots.len(),
            final(self).slots[r.slot as int].state is SlotLent,
            r.pass is None,
            final(self).handle == old(self).handle,
            final(self).device == old(self).device,
            final(self).queue_family == old(self).queue_family,
            final(self).slots.len() >= old(self).slots.len(),
            forall|i: int|
                0 <= i < old(self).slots.len() && i != r.slot ==> #[trigger] final(self).slots[i]
                    == old(self).slots[i],
    {
        let rec = self.begin();
        SecondaryCommandBuffer {
            pool: rec.pool,
            device: rec.device,
            slot: rec.slot,
            pass: None,
            commands: Ghost(Seq::empty()),
            refs: Vec::new(),
        }
    }

    /// Begins recording a secondary buffer for subpass `subpass` of
    /// `render_pass`.  Returns `InvalidArgument`, handing the buffer
    /// back unchanged, if the pass has no such subpass.
    pub fn begin_secondary(
        &mut self,
        buffer: SecondaryCommandBuffer,
        render_pass: &RenderPass,
        subpass: u32,
    ) -> (r: Result<SecondaryCommandRecording, (Error, SecondaryCommandBuffer)>)
        requires
            render_pass.device == old(self).device,
            buffer.pool == old(self).handle,
        ensures
            *final(self) == *old(self),
            r is Ok <==> subpass < render_pass.subpasses,
            r is Err ==> r->Err_0 == (Error::InvalidArgument, buffer),
            r is Ok ==> {
                let p = r->Ok_0;
                &&& p.rec.pool == buffer.pool
                &&& p.rec.device == buffer.device
                &&& p.rec.slot == buffer.slot
                &&& p.rec.commands@ == Seq::<Cmd>::empty()
                &&& p.rec.graphics.pipeline is None
                &&& p.rec.graphics.layouts.len() == 0
                &&& p.rec.graphics.inited.len() == 0
                &&& p.rec.compute.pipeline is None
                &&& p.pass_compat@ == render_pass.compat@
                &&& p.subpass == subpass
            },
    {
        if subpass as u64 >= render_pass.subpasses {
            return Err((Error::InvalidArgument, buffer));
        }
        Ok(
            SecondaryCommandRecording {
                rec: CommandRecording {
                    pool: buffer.pool,
                    device: buffer.device,
                    slot: buffer.slot,
                    graphics: Bindings::new(),
                    compute: Bindings::new(),
                    commands: Ghost(Seq::empty()),
                    refs: buffer.refs,
                },
                pass_compat: render_pass.compat_key(),
                subpass: subpass as u64,
            },
        )
    }

    /// Consumes an executable primary buffer of this pool without
    /// submitting it, handing its slot back.  The slot becomes reusable
    /// at the next pool reset.  Returns `InvalidArgument`, handing the
    /// buffer back, if it does not belong to this pool.
    pub fn free(&mut self, buffer: CommandBuffer) -> (r: Result<(), (Error, CommandBuffer)>)
        ensures
            r is Ok <==> buffer.pool == old(self).handle && buffer.slot < old(self).slots.len(),
            r is Err ==> r->Err_0 == (Error::InvalidArgument, buffer) && *final(self) == *old(
                self,
            ),
            r is Ok ==> {
                &&& final(self).slots.len() == old(self).slots.len()
                &&& final(self).slots[buffer.slot as int] == (Slot {
                    state: SlotState::SlotReturned,
                    handle: old(self).slots[buffer.slot as int].handle,
                })
                &&& forall|i: int|
                    0 <= i < old(self).slots.len() && i != buffer.slot ==> #[trigger] final(self).slots[i] == old(self).slots[i]
                &&& final(self).handle == old(self).handle
                &&& final(self).device == old(self).device
                &&& final(self).queue_family == old(self).queue_family
            },
    {
        if buffer.pool != self.handle || buffer.slot >= self.slots.len() {
            return Err((Error::InvalidArgument, buffer));
        }
        let handle = self.slots[buffer.slot].handle;
        self.slots.set(buffer.slot, Slot { state: SlotState::SlotReturned, handle });
        Ok(())
    }
}

/// An in-progress recording of a secondary command buffer, inside a
/// render pass.
pub struct SecondaryCommandRecording {
    pub rec: CommandRecording,
    /// The compatibility key of the pass the buffer is recorded for.
    pub pass_compat: Vec<AttachmentKey>,
    /// The subpass the buffer is recorded for.
    pub subpass: u64,
}

impl SecondaryCommandRecording {
    /// Finalizes the recording into an executable secondary buffer.
    pub fn end(self) -> (r: Result<SecondaryCommandBuffer, Error>)
        ensures
            r is Ok,
            r->Ok_0 == (SecondaryCommandBuffer {
                pool: self.rec.pool,
                device: self.rec.device,
                slot: self.rec.slot,
                pass: Some((self.pass_compat, self.subpass)),
                commands: self.rec.commands,
                refs: self.rec.refs,
            }),
    {
        Ok(
            SecondaryCommandBuffer {
                pool: self.rec.pool,
                device: self.rec.device,
                slot: self.rec.slot,
                pass: Some((self.pass_compat, self.subpass)),
                commands: self.rec.commands,
                refs: self.rec.refs,
            },
        )
    }
}

impl SecondaryCommandBuffer {
    /// The pool-and-slot identity of the buffer, from exclusive access.
    pub fn borrow_mut(&mut self) -> (r: (u64, usize))
        ensures
            *final(self) == *old(self),
            r == (old(self).pool, old(self).slot),
    {
        (self.pool, self.slot)
    }
}

impl CommandBuffer {
    /// The raw handle the buffer's slot carries in its pool; buffers are
    /// identified by pool and slot.
    pub fn handle_mut(&mut self) -> (r: (u64, usize))
        ensures
            *final(self) == *old(self),
            r == (old(self).pool, old(self).slot),
    {
        (self.pool, self.slot)
    }

    /// Consumes the buffer into its pool-and-slot identity.
    pub fn into_handle(self) -> (r: (u64, usize))
        ensures
            r == (self.pool, self.slot),
    {
        (self.pool, self.slot)
    }
}

} // verus!
