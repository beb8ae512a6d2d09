use vstd::prelude::*;

use crate::buffer::Buffer;
use crate::command_buffer::spec_bind_applied;
use crate::command_buffer::spec_bindings_wf;
use crate::command_buffer::spec_divergence;
use crate::command_buffer::spec_divergence_from;
use crate::command_buffer::spec_recording_wf;
use crate::command_buffer::spec_same_recording_identity;
use crate::command_buffer::Bindings;
use crate::command_buffer::Cmd;
use crate::command_buffer::CommandRecording;
use crate::command_buffer::PipelineSnapshot;
use crate::command_buffer::RenderPassRecording;
use crate::command_buffer::SecondaryCommandRecording;
use crate::descriptor_set::layout_eq;
use crate::descriptor_set::spec_binding_eq;
use crate::descriptor_set::spec_layout_eq;
use crate::descriptor_set::spec_num_dynamic_offsets;
use crate::descriptor_set::spec_set_initialized;
use crate::descriptor_set::DescriptorPool;
use crate::descriptor_set::DescriptorSet;
use crate::descriptor_set::DescriptorSetLayout;
use crate::enums::IndexType;
use crate::enums::PipelineBindPoint;
use crate::enums::ShaderStageFlags;
use crate::enums::BUFFER_USAGE_INDEX_BUFFER;
use crate::enums::BUFFER_USAGE_VERTEX_BUFFER;
use crate::enums::PIPELINE_BIND_POINT_GRAPHICS;
use crate::error::Error;
use crate::pipeline::spec_push_ok;
use crate::pipeline::Pipeline;
use crate::pipeline::PipelineLayout;

verus! {

/// True if `snap` is a faithful snapshot of `pipeline`: same handle,
/// layout-for-layout equal signature, and the same render-pass
/// association.
pub open spec fn spec_snapshot_of(snap: PipelineSnapshot, pipeline: Pipeline) -> bool {
    &&& snap.handle == pipeline.handle
    &&& snap.layouts.len() == pipeline.layout.layouts.len()
    &&& forall|i: int|
        0 <= i < snap.layouts.len() ==> spec_layout_eq(
            #[trigger] snap.layouts[i],
            pipeline.layout.layouts[i],
        )
    &&& (snap.render_pass is Some <==> pipeline.render_pass is Some)
    &&& (pipeline.render_pass is Some ==> (snap.render_pass->0).0@
        == pipeline.render_pass->0.compat@ && (snap.render_pass->0).1
        == pipeline.render_pass->0.subpass)
}

/// What binding a pipeline leaves of a recording: the bind point the
/// pipeline belongs to holds a snapshot of it, the other bind point is
/// untouched, and the bind is recorded.
pub open spec fn spec_after_bind_pipeline(
    old_rec: CommandRecording,
    new_rec: CommandRecording,
    pipeline: Pipeline,
) -> bool {
    &&& spec_same_recording_identity(new_rec, old_rec)
    &&& new_rec.refs == old_rec.refs
    &&& new_rec.commands@ == old_rec.commands@.push(
        (Cmd::BindPipeline {
            pipeline: pipeline.handle,
            bind_point: PipelineBindPoint(
                if pipeline.render_pass is Some {
                    PIPELINE_BIND_POINT_GRAPHICS
                } else {
                    crate::enums::PIPELINE_BIND_POINT_COMPUTE
                },
            ),
        }),
    )
    &&& (pipeline.render_pass is Some ==> {
        &&& new_rec.graphics.pipeline is Some
        &&& spec_snapshot_of(new_rec.graphics.pipeline->0, pipeline)
        &&& new_rec.graphics.layouts == old_rec.graphics.layouts
        &&& new_rec.graphics.inited == old_rec.graphics.inited
        &&& new_rec.compute == old_rec.compute
    })
    &&& (pipeline.render_pass is None ==> {
        &&& new_rec.compute.pipeline is Some
        &&& spec_snapshot_of(new_rec.compute.pipeline->0, pipeline)
        &&& new_rec.compute.layouts == old_rec.compute.layouts
        &&& new_rec.compute.inited == old_rec.compute.inited
        &&& new_rec.graphics == old_rec.graphics
    })
}

/// True if each of `sets` is compatible with the pipeline-layout slot it
/// is bound to, starting at set index `first_set`.
pub open spec fn spec_sets_match_layout(
    sets: Seq<&DescriptorSet>,
    layout_layouts: Seq<DescriptorSetLayout>,
    first_set: int,
) -> bool {
    &&& first_set + sets.len() <= layout_layouts.len()
    &&& forall|k: int|
        0 <= k < sets.len() ==> spec_layout_eq(
            (#[trigger] sets[k]).layout,
            layout_layouts[first_set + k],
        )
}

/// True if every one of `sets` was allocated from the pool with handle
/// `pool_handle`.
pub open spec fn spec_sets_of_pool(sets: Seq<&DescriptorSet>, pool_handle: u64) -> bool {
    forall|k: int| 0 <= k < sets.len() ==> (#[trigger] sets[k]).pool == pool_handle
}

/// True if every one of `sets` is fully initialized.
pub open spec fn spec_sets_initialized(sets: Seq<&DescriptorSet>) -> bool {
    forall|k: int| 0 <= k < sets.len() ==> spec_set_initialized(*(#[trigger] sets[k]))
}

/// The dynamic offsets `sets` consume at bind time, summed with
/// saturation.
pub open spec fn spec_dyn_sum_capped(sets: Seq<&DescriptorSet>) -> u64
    decreases sets.len(),
{
    if sets.len() == 0 {
        0
    } else {
        let rest = spec_dyn_sum_capped(sets.drop_last());
        let v = spec_num_dynamic_offsets(sets.last().layout.bindings@);
        if rest + v > u64::MAX {
            u64::MAX
        } else {
            (rest + v) as u64
        }
    }
}

/// What a successful descriptor-set bind leaves of a recording: the
/// named bind point is updated by the longest-common-prefix rule, the
/// other is untouched, the referenced descriptor pools are retained, and
/// the bind is recorded.
pub open spec fn spec_after_bind_sets(
    old_rec: CommandRecording,
    new_rec: CommandRecording,
    layout: PipelineLayout,
    bind_point: PipelineBindPoint,
    first_set: int,
    sets: Seq<&DescriptorSet>,
    dynamic_offsets: Seq<u32>,
) -> bool {
    let newp = layout.layouts@.subrange(0, first_set + sets.len());
    &&& spec_same_recording_identity(new_rec, old_rec)
    &&& new_rec.commands@ == old_rec.commands@.push(
        (Cmd::BindDescriptorSets {
            layout: layout.handle,
            first_set: first_set as u32,
            set_handles: sets.map_values(|s: &DescriptorSet| s.handle),
            dynamic_offsets,
        }),
    )
    &&& new_rec.refs@ == old_rec.refs@ + sets.map_values(|s: &DescriptorSet| s.pool)
    &&& if bind_point.0 == PIPELINE_BIND_POINT_GRAPHICS {
        &&& spec_bind_applied(
            old_rec.graphics.layouts@,
            old_rec.graphics.inited@,
            newp,
            first_set,
            new_rec.graphics.layouts@,
            new_rec.graphics.inited@,
        )
        &&& new_rec.graphics.pipeline == old_rec.graphics.pipeline
        &&& new_rec.compute == old_rec.compute
    } else {
        &&& spec_bind_applied(
            old_rec.compute.layouts@,
            old_rec.compute.inited@,
            newp,
            first_set,
            new_rec.compute.layouts@,
            new_rec.compute.inited@,
        )
        &&& new_rec.compute.pipeline == old_rec.compute.pipeline
        &&& new_rec.graphics == old_rec.graphics
    }
}

impl Bindings {
    /// Applies a bind of sets at [`begin`, `begin + count`) under
    /// `layout` to this bind point, by the longest-common-prefix rule.
    #[verifier::loop_isolation(false)]
    fn apply_bind(&mut self, layout: &PipelineLayout, begin: usize, count: usize)
        requires
            spec_bindings_wf(*old(self)),
            begin + count <= layout.layouts.len(),
        ensures
            spec_bindings_wf(*final(self)),
            spec_bind_applied(
                old(self).layouts@,
                old(self).inited@,
                layout.layouts@.subrange(0, begin + count),
                begin as int,
                final(self).layouts@,
                final(self).inited@,
            ),
            final(self).pipeline == old(self).pipeline,
    {
        let end: usize = begin + count;
        let ghost newp = layout.layouts@.subrange(0, end as int);
        let min: usize = if self.layouts.len() <= end {
            self.layouts.len()
        } else {
            end
        };
        let mut d: usize = 0;
        while d < min && layout_eq(&self.layouts[d], &layout.layouts[d])
            invariant
                d <= min,
                spec_divergence(self.layouts@, newp) == spec_divergence_from(
                    self.layouts@,
                    newp,
                    d as int,
                ),
            decreases min - d,
        {
            proof {
                assert(newp[d as int] == layout.layouts@[d as int]);
            }
            d = d + 1;
        }
        proof {
            if d < min {
                assert(newp[d as int] == layout.layouts@[d as int]);
                assert(spec_divergence_from(self.layouts@, newp, d as int) == d);
            } else {
                assert(spec_divergence_from(self.layouts@, newp, d as int) == min);
            }
        }
        if d < end {
            let keep: usize = if d <= begin {
                d
            } else {
                begin
            };
            self.inited.truncate(keep);
            while self.inited.len() < begin
                invariant
                    keep <= self.inited.len() <= begin,
                    self.pipeline == old(self).pipeline,
                    self.layouts == old(self).layouts,
                    self.inited@.subrange(0, keep as int) == old(self).inited@.subrange(
                        0,
                        keep as int,
                    ),
                    forall|j: int| keep <= j < self.inited.len() ==> !(#[trigger] self.inited[j]),
                decreases begin - self.inited.len(),
            {
                self.inited.push(false);
            }
            while self.inited.len() < end
                invariant
                    begin <= self.inited.len() <= end,
                    self.pipeline == old(self).pipeline,
                    self.layouts == old(self).layouts,
                    self.inited@.subrange(0, keep as int) == old(self).inited@.subrange(
                        0,
                        keep as int,
                    ),
                    forall|j: int| keep <= j < begin ==> !(#[trigger] self.inited[j]),
                    forall|j: int| begin <= j < self.inited.len() ==> #[trigger] self.inited[j],
                decreases end - self.inited.len(),
            {
                self.inited.push(true);
            }
            let mut new_layouts: Vec<DescriptorSetLayout> = Vec::new();
            let mut j: usize = 0;
            while j < end
                invariant
                    j <= end,
                    new_layouts.len() == j,
                    self.pipeline == old(self).pipeline,
                    forall|i: int|
                        0 <= i < j ==> spec_layout_eq(#[trigger] new_layouts[i], newp[i]),
                decreases end - j,
            {
                proof {
                    assert(newp[j as int] == layout.layouts@[j as int]);
                }
                new_layouts.push(layout.layouts[j].duplicate());
                j = j + 1;
            }
            self.layouts = new_layouts;
            proof {
                assert forall|j: int| 0 <= j < keep implies #[trigger] self.inited@[j] == old(
                    self,
                ).inited@[j] by {
                    assert(self.inited@.subrange(0, keep as int)[j] == old(
                        self,
                    ).inited@.subrange(0, keep as int)[j]);
                }
            }
        } else {
            let mut j: usize = begin;
            while j < end
                invariant
                    begin <= j <= end,
                    self.layouts == old(self).layouts,
                    self.pipeline == old(self).pipeline,
                    self.inited.len() == old(self).inited.len(),
                    end <= self.inited.len(),
                    forall|i: int|
                        0 <= i < self.inited.len() ==> #[trigger] self.inited[i] == (begin <= i
                            < j || old(self).inited[i]),
                decreases end - j,
            {
                self.inited.set(j, true);
                j = j + 1;
            }
        }
    }
}

impl CommandRecording {
    /// Binds the pipeline to the bind point it was made for, replacing
    /// what was bound there.
    pub fn bind_pipeline(&mut self, pipeline: &Pipeline)
        requires
            spec_recording_wf(*old(self)),
            pipeline.device == old(self).device,
        ensures
            spec_recording_wf(*final(self)),
            spec_after_bind_pipeline(*old(self), *final(self), *pipeline),
    {
        let snap = PipelineSnapshot {
            handle: pipeline.handle,
            layouts: pipeline.layout.duplicate().layouts,
            render_pass: match &pipeline.render_pass {
                Some(tag) => Some((crate::types::copy_vec(&tag.compat), tag.subpass)),
                None => None,
            },
        };
        let graphics = pipeline.is_graphics();
        if graphics {
            self.graphics.pipeline = Some(snap);
        } else {
            self.compute.pipeline = Some(snap);
        }
        proof {
            self.commands@ = self.commands@.push(
                (Cmd::BindPipeline {
                    pipeline: pipeline.handle,
                    bind_point: PipelineBindPoint(
                        if graphics {
                            PIPELINE_BIND_POINT_GRAPHICS
                        } else {
                            crate::enums::PIPELINE_BIND_POINT_COMPUTE
                        },
                    ),
                }),
            );
        }
    }

    /// Binds descriptor sets at consecutive set indices starting at
    /// `first_set`.  Returns `InvalidArgument`, changing nothing, unless
    /// each set's layout equals the corresponding slot of `layout`, the
    /// sets consume exactly the given dynamic offsets, and every set is
    /// fully initialized.  On success the bind point's state follows the
    /// longest-common-prefix rule.
    #[verifier::loop_isolation(false)]
    pub fn bind_descriptor_sets(
        &mut self,
        pipeline_bind_point: PipelineBindPoint,
        layout: &PipelineLayout,
        first_set: u32,
        pool: &mut DescriptorPool,
        sets: &Vec<&DescriptorSet>,
        dynamic_offsets: &Vec<u32>,
    ) -> (r: Result<(), Error>)
        requires
            spec_recording_wf(*old(self)),
            layout.device == old(self).device,
            old(pool).in_flight + sets.len() <= u64::MAX,
        ensures
            spec_recording_wf(*final(self)),
            r is Ok <==> spec_sets_of_pool(sets@, old(pool).handle) && spec_sets_match_layout(
                sets@,
                layout.layouts@,
                first_set as int,
            ) && spec_dyn_sum_capped(sets@) == dynamic_offsets.len() && spec_sets_initialized(
                sets@,
            ),
            r is Err ==> r->Err_0 == Error::InvalidArgument && *final(self) == *old(self)
                && *final(pool) == *old(pool),
            r is Ok ==> spec_after_bind_sets(
                *old(self),
                *final(self),
                *layout,
                pipeline_bind_point,
                first_set as int,
                sets@,
                dynamic_offsets@,
            ) && *final(pool) == (DescriptorPool {
                in_flight: (old(pool).in_flight + sets.len()) as u64,
                ..*old(pool)
            }),
    {
        let n = sets.len();
        let mut k: usize = 0;
        while k < n
            invariant
                k <= n,
                forall|j: int| 0 <= j < k ==> (#[trigger] sets@[j]).pool == pool.handle,
                *pool == *old(pool),
            decreases n - k,
        {
            if sets[k].pool != pool.handle {
                return Err(Error::InvalidArgument);
            }
            k = k + 1;
        }
        if first_set as u64 > layout.layouts.len() as u64 || n as u64 > layout.layouts.len()
            as u64 - first_set as u64 {
            return Err(Error::InvalidArgument);
        }
        let mut k: usize = 0;
        while k < n
            invariant
                k <= n,
                forall|j: int|
                    0 <= j < k ==> spec_layout_eq(
                        (#[trigger] sets@[j]).layout,
                        layout.layouts@[first_set + j],
                    ),
            decreases n - k,
        {
            if !layout_eq(sets[k].layout(), &layout.layouts[first_set as usize + k]) {
                return Err(Error::InvalidArgument);
            }
            k = k + 1;
        }
        let mut dyn_total: u64 = 0;
        let mut k: usize = 0;
        while k < n
            invariant
                k <= n,
                dyn_total == spec_dyn_sum_capped(sets@.subrange(0, k as int)),
            decreases n - k,
        {
            let v = sets[k].layout().num_dynamic_offsets() as u64;
            let ghost pre = sets@.subrange(0, k as int);
            let ghost post = sets@.subrange(0, k as int + 1);
            proof {
                assert(post.drop_last() =~= pre);
                assert(post.last() == sets@[k as int]);
            }
            dyn_total = if dyn_total > u64::MAX - v {
                u64::MAX
            } else {
                dyn_total + v
            };
            k = k + 1;
        }
        proof {
            assert(sets@.subrange(0, sets@.len() as int) =~= sets@);
        }
        if dyn_total != dynamic_offsets.len() as u64 {
            return Err(Error::InvalidArgument);
        }
        let mut k: usize = 0;
        while k < n
            invariant
                k <= n,
                forall|j: int| 0 <= j < k ==> spec_set_initialized(*(#[trigger] sets@[j])),
            decreases n - k,
        {
            if !sets[k].is_initialized() {
                return Err(Error::InvalidArgument);
            }
            k = k + 1;
        }
        if pipeline_bind_point.0 == PIPELINE_BIND_POINT_GRAPHICS {
            self.graphics.apply_bind(layout, first_set as usize, n);
        } else {
            self.compute.apply_bind(layout, first_set as usize, n);
        }
        let ghost mid_graphics = self.graphics;
        let ghost mid_compute = self.compute;
        let ghost mid_commands = self.commands;
        let mut k: usize = 0;
        while k < n
            invariant
                k <= n,
                self.refs@ == old(self).refs@ + sets@.subrange(0, k as int).map_values(
                    |s: &DescriptorSet| s.pool,
                ),
                self.graphics == mid_graphics,
                self.compute == mid_compute,
                self.commands == mid_commands,
                spec_same_recording_identity(*self, *old(self)),
            decreases n - k,
        {
            let ghost pre = sets@.subrange(0, k as int);
            let ghost post = sets@.subrange(0, k as int + 1);
            self.refs.push(sets[k].pool);
            proof {
                assert(post.drop_last() =~= pre);
                assert(post.map_values(|s: &DescriptorSet| s.pool) =~= pre.map_values(
                    |s: &DescriptorSet| s.pool,
                ).push(sets@[k as int].pool));
            }
            k = k + 1;
        }
        proof {
            assert(sets@.subrange(0, sets@.len() as int) =~= sets@);
            self.commands@ = self.commands@.push(
                (Cmd::BindDescriptorSets {
                    layout: layout.handle,
                    first_set,
                    set_handles: sets@.map_values(|s: &DescriptorSet| s.handle),
                    dynamic_offsets: dynamic_offsets@,
                }),
            );
        }
        pool.in_flight = pool.in_flight + n as u64;
        Ok(())
    }

    /// Binds vertex buffers at consecutive bindings starting at
    /// `first_binding`.  Returns `InvalidArgument`, changing nothing, if
    /// the buffer and offset counts differ or a buffer lacks the
    /// vertex-buffer usage.
    #[verifier::loop_isolation(false)]
    pub fn bind_vertex_buffers(
        &mut self,
        first_binding: u32,
        buffers: &Vec<&Buffer>,
        offsets: &Vec<u64>,
    ) -> (r: Result<(), Error>)
        ensures
            r is Ok <==> buffers.len() == offsets.len() && (forall|k: int|
                0 <= k < buffers.len() ==> (#[trigger] buffers[k]).inner.usage.0
                    & BUFFER_USAGE_VERTEX_BUFFER != 0),
            r is Err ==> r->Err_0 == Error::InvalidArgument && *final(self) == *old(self),
            r is Ok ==> *final(self) == (CommandRecording {
                commands: Ghost(
                    old(self).commands@.push(
                        (Cmd::BindVertexBuffers {
                            first_binding,
                            buffer_handles: buffers@.map_values(|b: &Buffer| b.inner.handle),
                            offsets: offsets@,
                        }),
                    ),
                ),
                ..*old(self)
            }),
    {
        if buffers.len() != offsets.len() {
            return Err(Error::InvalidArgument);
        }
        let mut k: usize = 0;
        while k < buffers.len()
            invariant
                k <= buffers.len(),
                forall|j: int|
                    0 <= j < k ==> (#[trigger] buffers[j]).inner.usage.0
                        & BUFFER_USAGE_VERTEX_BUFFER != 0,
            decreases buffers.len() - k,
        {
            if buffers[k].usage().0 & BUFFER_USAGE_VERTEX_BUFFER == 0 {
                return Err(Error::InvalidArgument);
            }
            k = k + 1;
        }
        proof {
            self.commands@ = self.commands@.push(
                (Cmd::BindVertexBuffers {
                    first_binding,
                    buffer_handles: buffers@.map_values(|b: &Buffer| b.inner.handle),
                    offsets: offsets@,
                }),
            );
        }
        Ok(())
    }

    /// Binds an index buffer.  Returns `InvalidArgument`, changing
    /// nothing, if the buffer lacks the index-buffer usage.
    pub fn bind_index_buffer(&mut self, buffer: &Buffer, offset: u64, index_type: IndexType) -> (r:
        Result<(), Error>)
        ensures
            r is Ok <==> buffer.inner.usage.0 & BUFFER_USAGE_INDEX_BUFFER != 0,
            r is Err ==> r->Err_0 == Error::InvalidArgument && *final(self) == *old(self),
            r is Ok ==> *final(self) == (CommandRecording {
                commands: Ghost(
                    old(self).commands@.push(
                        (Cmd::BindIndexBuffer { buffer: buffer.inner.handle, offset, index_type }),
                    ),
                ),
                ..*old(self)
            }),
    {
        if buffer.usage().0 & BUFFER_USAGE_INDEX_BUFFER == 0 {
            return Err(Error::InvalidArgument);
        }
        proof {
            self.commands@ = self.commands@.push(
                (Cmd::BindIndexBuffer { buffer: buffer.inner.handle, offset, index_type }),
            );
        }
        Ok(())
    }

    /// Sets push constants.  Returns `InvalidArgument`, changing
    /// nothing, if `data` is empty, and `OutOfBounds` unless every byte
    /// of the window is declared by `layout` and `stage_flags` names
    /// exactly the touched stages.
    pub fn push_constants(
        &mut self,
        layout: &PipelineLayout,
        stage_flags: ShaderStageFlags,
        offset: u32,
        data: &Vec<u8>,
    ) -> (r: Result<(), Error>)
        ensures
            r is Ok <==> data.len() <= u32::MAX && spec_push_ok(
                *layout,
                stage_flags,
                offset,
                data.len() as u32,
            ),
            r is Err && r->Err_0 == Error::InvalidArgument <==> data.len() == 0,
            r is Err && r->Err_0 == Error::OutOfBounds <==> data.len() > 0 && !(data.len()
                <= u32::MAX && spec_push_ok(*layout, stage_flags, offset, data.len() as u32)),
            r is Err ==> *final(self) == *old(self),
            r is Ok ==> *final(self) == (CommandRecording {
                commands: Ghost(
                    old(self).commands@.push(
                        (Cmd::PushConstants {
                            layout: layout.handle,
                            stage_flags,
                            offset,
                            data: data@,
                        }),
                    ),
                ),
                ..*old(self)
            }),
    {
        if data.len() == 0 {
            return Err(Error::InvalidArgument);
        }
        if data.len() as u64 > u32::MAX as u64 {
            return Err(Error::OutOfBounds);
        }
        if !layout.bounds_check_push_constants(stage_flags, offset, data.len() as u32) {
            return Err(Error::OutOfBounds);
        }
        proof {
            self.commands@ = self.commands@.push(
                (Cmd::PushConstants { layout: layout.handle, stage_flags, offset, data: data@ }),
            );
        }
        Ok(())
    }
}

impl RenderPassRecording {
    /// Binds the pipeline to the bind point it was made for.
    pub fn bind_pipeline(&mut self, pipeline: &Pipeline)
        requires
            spec_recording_wf(old(self).rec),
            pipeline.device == old(self).rec.device,
        ensures
            spec_recording_wf(final(self).rec),
            spec_after_bind_pipeline(old(self).rec, final(self).rec, *pipeline),
            final(self).pass_compat == old(self).pass_compat,
            final(self).subpasses == old(self).subpasses,
            final(self).subpass == old(self).subpass,
    {
        self.rec.bind_pipeline(pipeline)
    }

    /// Binds descriptor sets; see
    /// [`CommandRecording::bind_descriptor_sets`].
    pub fn bind_descriptor_sets(
        &mut self,
        pipeline_bind_point: PipelineBindPoint,
        layout: &PipelineLayout,
        first_set: u32,
        pool: &mut DescriptorPool,
        sets: &Vec<&DescriptorSet>,
        dynamic_offsets: &Vec<u32>,
    ) -> (r: Result<(), Error>)
        requires
            spec_recording_wf(old(self).rec),
            layout.device == old(self).rec.device,
            old(pool).in_flight + sets.len() <= u64::MAX,
        ensures
            spec_recording_wf(final(self).rec),
            r is Ok <==> spec_sets_of_pool(sets@, old(pool).handle) && spec_sets_match_layout(
                sets@,
                layout.layouts@,
                first_set as int,
            ) && spec_dyn_sum_capped(sets@) == dynamic_offsets.len() && spec_sets_initialized(
                sets@,
            ),
            r is Err ==> r->Err_0 == Error::InvalidArgument && *final(self) == *old(self)
                && *final(pool) == *old(pool),
            r is Ok ==> spec_after_bind_sets(
                old(self).rec,
                final(self).rec,
                *layout,
                pipeline_bind_point,
                first_set as int,
                sets@,
                dynamic_offsets@,
            ) && *final(pool) == (DescriptorPool {
                in_flight: (old(pool).in_flight + sets.len()) as u64,
                ..*old(pool)
            }),
            final(self).pass_compat == old(self).pass_compat,
            final(self).subpasses == old(self).subpasses,
            final(self).subpass == old(self).subpass,
    {
        self.rec.bind_descriptor_sets(
            pipeline_bind_point,
            layout,
            first_set,
            pool,
            sets,
            dynamic_offsets,
        )
    }

    /// Binds vertex buffers; see
    /// [`CommandRecording::bind_vertex_buffers`].
    pub fn bind_vertex_buffers(
        &mut self,
        first_binding: u32,
        buffers: &Vec<&Buffer>,
        offsets: &Vec<u64>,
    ) -> (r: Result<(), Error>)
        ensures
            r is Ok <==> buffers.len() == offsets.len() && (forall|k: int|
                0 <= k < buffers.len() ==> (#[trigger] buffers[k]).inner.usage.0
                    & BUFFER_USAGE_VERTEX_BUFFER != 0),
            r is Err ==> r->Err_0 == Error::InvalidArgument && *final(self) == *old(self),
            r is Ok ==> final(self).rec.commands@ == old(self).rec.commands@.push(
                (Cmd::BindVertexBuffers {
                    first_binding,
                    buffer_handles: buffers@.map_values(|b: &Buffer| b.inner.handle),
                    offsets: offsets@,
                }),
            ) && final(self).rec.graphics == old(self).rec.graphics && final(self).rec.compute
                == old(self).rec.compute && final(self).rec.refs == old(self).rec.refs
                && spec_same_recording_identity(final(self).rec, old(self).rec) && final(self).subpass == old(self).subpass && final(self).subpasses == old(self).subpasses
                && final(self).pass_compat == old(self).pass_compat,
    {
        self.rec.bind_vertex_buffers(first_binding, buffers, offsets)
    }

    /// Binds an index buffer; see
    /// [`CommandRecording::bind_index_buffer`].
    pub fn bind_index_buffer(&mut self, buffer: &Buffer, offset: u64, index_type: IndexType) -> (r:
        Result<(), Error>)
        ensures
            r is Ok <==> buffer.inner.usage.0 & BUFFER_USAGE_INDEX_BUFFER != 0,
            r is Err ==> r->Err_0 == Error::InvalidArgument && *final(self) == *old(self),
            r is Ok ==> final(self).rec.commands@ == old(self).rec.commands@.push(
                (Cmd::BindIndexBuffer { buffer: buffer.inner.handle, offset, index_type }),
            ) && final(self).rec.graphics == old(self).rec.graphics && final(self).rec.compute
                == old(self).rec.compute && final(self).rec.refs == old(self).rec.refs
                && spec_same_recording_identity(final(self).rec, old(self).rec) && final(self).subpass == old(self).subpass && final(self).subpasses == old(self).subpasses
                && final(self).pass_compat == old(self).pass_compat,
    {
        self.rec.bind_index_buffer(buffer, offset, index_type)
    }

    /// Sets push constants; see [`CommandRecording::push_constants`].
    pub fn push_constants(
        &mut self,
        layout: &PipelineLayout,
        stage_flags: ShaderStageFlags,
        offset: u32,
        data: &Vec<u8>,
    ) -> (r: Result<(), Error>)
        ensures
            r is Ok <==> data.len() <= u32::MAX && spec_push_ok(
                *layout,
                stage_flags,
                offset,
                data.len() as u32,
            ),
            r is Err && r->Err_0 == Error::InvalidArgument <==> data.len() == 0,
            r is Err && r->Err_0 == Error::OutOfBounds <==> data.len() > 0 && !(data.len()
                <= u32::MAX && spec_push_ok(*layout, stage_flags, offset, data.len() as u32)),
            r is Err ==> *final(self) == *old(self),
            r is Ok ==> final(self).rec.commands@ == old(self).rec.commands@.push(
                (Cmd::PushConstants { layout: layout.handle, stage_flags, offset, data: data@ }),
            ) && final(self).rec.graphics == old(self).rec.graphics && final(self).rec.compute
                == old(self).rec.compute && final(self).rec.refs == old(self).rec.refs
                && spec_same_recording_identity(final(self).rec, old(self).rec) && final(self).subpass == old(self).subpass && final(self).subpasses == old(self).subpasses
                && final(self).pass_compat == old(self).pass_compat,
    {
        self.rec.push_constants(layout, stage_flags, offset, data)
    }
}

impl SecondaryCommandRecording {
    /// Binds the pipeline to the bind point it was made for.
    pub fn bind_pipeline(&mut self, pipeline: &Pipeline)
        requires
            spec_recording_wf(old(self).rec),
            pipeline.device == old(self).rec.device,
        ensures
            spec_recording_wf(final(self).rec),
            spec_after_bind_pipeline(old(self).rec, final(self).rec, *pipeline),
            final(self).pass_compat == old(self).pass_compat,
            final(self).subpass == old(self).subpass,
    {
        self.rec.bind_pipeline(pipeline)
    }

    /// Binds descriptor sets; see
    /// [`CommandRecording::bind_descriptor_sets`].
    pub fn bind_descriptor_sets(
        &mut self,
        pipeline_bind_point: PipelineBindPoint,
        layout: &PipelineLayout,
        first_set: u32,
        pool: &mut DescriptorPool,
        sets: &Vec<&DescriptorSet>,
        dynamic_offsets: &Vec<u32>,
    ) -> (r: Result<(), Error>)
        requires
            spec_recording_wf(old(self).rec),
            layout.device == old(self).rec.device,
            old(pool).in_flight + sets.len() <= u64::MAX,
        ensures
            spec_recording_wf(final(self).rec),
            r is Ok <==> spec_sets_of_pool(sets@, old(pool).handle) && spec_sets_match_layout(
                sets@,
                layout.layouts@,
                first_set as int,
            ) && spec_dyn_sum_capped(sets@) == dynamic_offsets.len() && spec_sets_initialized(
                sets@,
            ),
            r is Err ==> r->Err_0 == Error::InvalidArgument && *final(self) == *old(self)
                && *final(pool) == *old(pool),
            r is Ok ==> spec_after_bind_sets(
                old(self).rec,
                final(self).rec,
                *layout,
                pipeline_bind_point,
                first_set as int,
                sets@,
                dynamic_offsets@,
            ) && *final(pool) == (DescriptorPool {
                in_flight: (old(pool).in_flight + sets.len()) as u64,
                ..*old(pool)
            }),
            final(self).pass_compat == old(self).pass_compat,
            final(self).subpass == old(self).subpass,
    {
        self.rec.bind_descriptor_sets(
            pipeline_bind_point,
            layout,
            first_set,
            pool,
            sets,
            dynamic_offsets,
        )
    }

    /// Binds vertex buffers; see
    /// [`CommandRecording::bind_vertex_buffers`].
    pub fn bind_vertex_buffers(
        &mut self,
        first_binding: u32,
        buffers: &Vec<&Buffer>,
        offsets: &Vec<u64>,
    ) -> (r: Result<(), Error>)
        ensures
            r is Ok <==> buffers.len() == offsets.len() && (forall|k: int|
                0 <= k < buffers.len() ==> (#[trigger] buffers[k]).inner.usage.0
                    & BUFFER_USAGE_VERTEX_BUFFER != 0),
            r is Err ==> r->Err_0 == Error::InvalidArgument && *final(self) == *old(self),
            r is Ok ==> final(self).rec.commands@ == old(self).rec.commands@.push(
                (Cmd::BindVertexBuffers {
                    first_binding,
                    buffer_handles: buffers@.map_values(|b: &Buffer| b.inner.handle),
                    offsets: offsets@,
                }),
            ) && final(self).rec.graphics == old(self).rec.graphics && final(self).rec.compute
                == old(self).rec.compute && final(self).rec.refs == old(self).rec.refs
                && spec_same_recording_identity(final(self).rec, old(self).rec) && final(self).subpass == old(self).subpass && final(self).pass_compat == old(self).pass_compat,
    {
        self.rec.bind_vertex_buffers(first_binding, buffers, offsets)
    }

    /// Binds an index buffer; see
    /// [`CommandRecording::bind_index_buffer`].
    pub fn bind_index_buffer(&mut self, buffer: &Buffer, offset: u64, index_type: IndexType) -> (r:
        Result<(), Error>)
        ensures
            r is Ok <==> buffer.inner.usage.0 & BUFFER_USAGE_INDEX_BUFFER != 0,
            r is Err ==> r->Err_0 == Error::InvalidArgument && *final(self) == *old(self),
            r is Ok ==> final(self).rec.commands@ == old(self).rec.commands@.push(
                (Cmd::BindIndexBuffer { buffer: buffer.inner.handle, offset, index_type }),
            ) && final(self).rec.graphics == old(self).rec.graphics && final(self).rec.compute
                == old(self).rec.compute && final(self).rec.refs == old(self).rec.refs
                && spec_same_recording_identity(final(self).rec, old(self).rec) && final(self).subpass == old(self).subpass && final(self).pass_compat == old(self).pass_compat,
    {
        self.rec.bind_index_buffer(buffer, offset, index_type)
    }

    /// Sets push constants; see [`CommandRecording::push_constants`].
    pub fn push_constants(
        &mut self,
        layout: &PipelineLayout,
        stage_flags: ShaderStageFlags,
        offset: u32,
        data: &Vec<u8>,
    ) -> (r: Result<(), Error>)
        ensures
            r is Ok <==> data.len() <= u32::MAX && spec_push_ok(
                *layout,
                stage_flags,
                offset,
                data.len() as u32,
            ),
            r is Err && r->Err_0 == Error::InvalidArgument <==> data.len() == 0,
            r is Err && r->Err_0 == Error::OutOfBounds <==> data.len() > 0 && !(data.len()
                <= u32::MAX && spec_push_ok(*layout, stage_flags, offset, data.len() as u32)),
            r is Err ==> *final(self) == *old(self),
            r is Ok ==> final(self).rec.commands@ == old(self).rec.commands@.push(
                (Cmd::PushConstants { layout: layout.handle, stage_flags, offset, data: data@ }),
            ) && final(self).rec.graphics == old(self).rec.graphics && final(self).rec.compute
                == old(self).rec.compute && final(self).rec.refs == old(self).rec.refs
                && spec_same_recording_identity(final(self).rec, old(self).rec) && final(self).subpass == old(self).subpass && final(self).pass_compat == old(self).pass_compat,
    {
        self.rec.push_constants(layout, stage_flags, offset, data)
    }
}

/// A bind whose sets include an uninitialized one is refused, and one
/// whose sets are all fully written is not refused on that account.
pub proof fn lemma_uninitialized_set_blocks_bind(sets: Seq<&DescriptorSet>)
    ensures
        (exists|k: int| 0 <= k < sets.len() && !spec_set_initialized(*(#[trigger] sets[k])))
            ==> !spec_sets_initialized(sets),
        (forall|k: int| 0 <= k < sets.len() ==> spec_set_initialized(*(#[trigger] sets[k])))
            ==> spec_sets_initialized(sets),
{
}

/// Binding invalidation follows the longest-common-prefix rule: with
/// set layouts `A,B` bound and both valid, binding a set of layout `C`
/// at index 1 under the signature `A,C` keeps slot 0 valid and replaces
/// slot 1, so a pipeline expecting `A,B` no longer matches; rebinding
/// `B` at index 1 under `A,B` afterwards restores full validity without
/// rebinding slot 0.
pub proof fn lemma_binding_longest_prefix(
    a: DescriptorSetLayout,
    b: DescriptorSetLayout,
    c: DescriptorSetLayout,
    mid_layouts: Seq<DescriptorSetLayout>,
    mid_inited: Seq<bool>,
    fin_layouts: Seq<DescriptorSetLayout>,
    fin_inited: Seq<bool>,
)
    requires
        !spec_layout_eq(b, c),
        spec_bind_applied(seq![a, b], seq![true, true], seq![a, c], 1, mid_layouts, mid_inited),
        spec_bind_applied(mid_layouts, mid_inited, seq![a, b], 1, fin_layouts, fin_inited),
    ensures
        mid_layouts.len() == 2 && spec_layout_eq(mid_layouts[0], a) && spec_layout_eq(
            mid_layouts[1],
            c,
        ),
        !spec_layout_eq(mid_layouts[1], b),
        mid_inited.len() == 2 && mid_inited[0] && mid_inited[1],
        !crate::command_buffer::draw::spec_prefix_ready(mid_layouts, mid_inited, seq![a, b]),
        fin_layouts.len() == 2 && spec_layout_eq(fin_layouts[0], a) && spec_layout_eq(
            fin_layouts[1],
            b,
        ),
        fin_inited.len() == 2 && fin_inited[0] && fin_inited[1],
        crate::command_buffer::draw::spec_prefix_ready(fin_layouts, fin_inited, seq![a, b]),
{
    let cur0 = seq![a, b];
    let newp0 = seq![a, c];
    assert(spec_layout_eq(a, a));
    assert(!spec_layout_eq(cur0[1], newp0[1]));
    assert(spec_divergence_from(cur0, newp0, 0) == spec_divergence_from(cur0, newp0, 1));
    assert(spec_divergence_from(cur0, newp0, 1) == 1);
    assert(spec_divergence(cur0, newp0) == 1);
    assert(mid_layouts.len() == 2);
    assert(spec_layout_eq(mid_layouts[0], newp0[0]));
    assert(spec_layout_eq(mid_layouts[1], newp0[1]));
    assert(mid_inited[0] == seq![true, true][0]);
    assert(!spec_layout_eq(mid_layouts[1], b)) by {
        if spec_layout_eq(mid_layouts[1], b) {
            assert forall|i: int| 0 <= i < b.bindings.len() implies spec_binding_eq(
                #[trigger] b.bindings[i],
                c.bindings[i],
            ) by {
                assert(spec_binding_eq(mid_layouts[1].bindings[i], b.bindings[i]));
                assert(spec_binding_eq(mid_layouts[1].bindings[i], c.bindings[i]));
            }
            assert(spec_layout_eq(b, c));
        }
    }
    let newp1 = seq![a, b];
    assert(spec_layout_eq(mid_layouts[0], newp1[0])) by {
        assert(spec_layout_eq(mid_layouts[0], a));
        assert forall|i: int| 0 <= i < mid_layouts[0].bindings.len() implies spec_binding_eq(
            #[trigger] mid_layouts[0].bindings[i],
            a.bindings[i],
        ) by {}
    }
    assert(spec_divergence_from(mid_layouts, newp1, 0) == spec_divergence_from(
        mid_layouts,
        newp1,
        1,
    ));
    assert(spec_divergence_from(mid_layouts, newp1, 1) == 1);
    assert(spec_divergence(mid_layouts, newp1) == 1);
    assert(fin_layouts.len() == 2);
    assert(spec_layout_eq(fin_layouts[0], newp1[0]));
    assert(spec_layout_eq(fin_layouts[1], newp1[1]));
    assert(fin_inited[0] == mid_inited[0]);
}


/// Binding a compute pipeline and then successfully binding fully
/// initialized sets that match its whole signature at set index 0
/// leaves the compute bind point ready to dispatch: the guarantee a
/// recording's local state checks give a draw site, derived from the
/// public contracts alone.
pub proof fn lemma_binding_yields_dispatch_readiness(
    rec0: CommandRecording,
    rec1: CommandRecording,
    rec2: CommandRecording,
    pipeline: Pipeline,
    layout: PipelineLayout,
    sets: Seq<&DescriptorSet>,
    dynamic_offsets: Seq<u32>,
)
    requires
        pipeline.render_pass is None,
        spec_after_bind_pipeline(rec0, rec1, pipeline),
        spec_after_bind_sets(
            rec1,
            rec2,
            layout,
            PipelineBindPoint(crate::enums::PIPELINE_BIND_POINT_COMPUTE),
            0,
            sets,
            dynamic_offsets,
        ),
        sets.len() == layout.layouts.len(),
        sets.len() == pipeline.layout.layouts.len(),
        forall|i: int|
            0 <= i < sets.len() ==> spec_layout_eq(
                #[trigger] layout.layouts[i],
                pipeline.layout.layouts[i],
            ),
        spec_bindings_wf(rec1.compute),
    ensures
        crate::command_buffer::draw::spec_draw_ready(rec2.compute),
{
    assert(rec2.compute.pipeline == rec1.compute.pipeline);
    assert(spec_snapshot_of(rec1.compute.pipeline->0, pipeline));
    let newp = layout.layouts@.subrange(0, sets.len() as int);
    assert(newp =~= layout.layouts@);
    let d = spec_divergence(rec1.compute.layouts@, newp);
    crate::command_buffer::lemma_divergence_bounds(rec1.compute.layouts@, newp);
    if d < sets.len() {
        assert(rec2.compute.layouts.len() == sets.len());
        assert forall|j: int| 0 <= j < sets.len() implies spec_layout_eq(
            #[trigger] rec2.compute.layouts[j],
            rec2.compute.pipeline->0.layouts[j],
        ) by {
            assert(spec_layout_eq(rec2.compute.layouts[j], newp[j]));
            assert(spec_layout_eq(layout.layouts[j], pipeline.layout.layouts[j]));
            assert(spec_layout_eq(rec1.compute.pipeline->0.layouts[j], pipeline.layout.layouts[j]));
        }
        assert forall|j: int| 0 <= j < sets.len() implies #[trigger] rec2.compute.inited[j] by {}
    } else {
        assert(d == sets.len());
        assert(rec2.compute.layouts@ == rec1.compute.layouts@);
        assert(rec1.compute.inited.len() == rec1.compute.layouts.len());
        assert forall|j: int| 0 <= j < sets.len() implies spec_layout_eq(
            #[trigger] rec2.compute.layouts[j],
            rec2.compute.pipeline->0.layouts[j],
        ) by {
            assert(spec_layout_eq(rec2.compute.layouts[j], newp[j])) by {
                crate::command_buffer::lemma_divergence_prefix_eq(rec1.compute.layouts@, newp, j);
                assert(rec2.compute.layouts@ == rec1.compute.layouts@);
            }
            assert(spec_layout_eq(rec1.compute.pipeline->0.layouts[j], pipeline.layout.layouts[j]));
        }
        assert forall|j: int| 0 <= j < sets.len() implies #[trigger] rec2.compute.inited[j] by {
            assert(0 <= j < rec1.compute.inited.len());
        }
    }
}

/// The graphics twin of
/// [`lemma_binding_yields_dispatch_readiness`]: binding a graphics
/// pipeline and then successfully binding fully initialized sets that
/// match its whole signature at set index 0 leaves the graphics bind
/// point ready to draw, pass compatibility aside.
pub proof fn lemma_binding_yields_draw_readiness(
    rec0: CommandRecording,
    rec1: CommandRecording,
    rec2: CommandRecording,
    pipeline: Pipeline,
    layout: PipelineLayout,
    sets: Seq<&DescriptorSet>,
    dynamic_offsets: Seq<u32>,
)
    requires
        pipeline.render_pass is Some,
        spec_after_bind_pipeline(rec0, rec1, pipeline),
        spec_after_bind_sets(
            rec1,
            rec2,
            layout,
            PipelineBindPoint(PIPELINE_BIND_POINT_GRAPHICS),
            0,
            sets,
            dynamic_offsets,
        ),
        sets.len() == layout.layouts.len(),
        sets.len() == pipeline.layout.layouts.len(),
        forall|i: int|
            0 <= i < sets.len() ==> spec_layout_eq(
                #[trigger] layout.layouts[i],
                pipeline.layout.layouts[i],
            ),
        spec_bindings_wf(rec1.graphics),
    ensures
        crate::command_buffer::draw::spec_draw_ready(rec2.graphics),
{
    assert(rec2.graphics.pipeline == rec1.graphics.pipeline);
    assert(spec_snapshot_of(rec1.graphics.pipeline->0, pipeline));
    let newp = layout.layouts@.subrange(0, sets.len() as int);
    assert(newp =~= layout.layouts@);
    let d = spec_divergence(rec1.graphics.layouts@, newp);
    crate::command_buffer::lemma_divergence_bounds(rec1.graphics.layouts@, newp);
    if d < sets.len() {
        assert(rec2.graphics.layouts.len() == sets.len());
        assert forall|j: int| 0 <= j < sets.len() implies spec_layout_eq(
            #[trigger] rec2.graphics.layouts[j],
            rec2.graphics.pipeline->0.layouts[j],
        ) by {
            assert(spec_layout_eq(rec2.graphics.layouts[j], newp[j]));
            assert(spec_layout_eq(layout.layouts[j], pipeline.layout.layouts[j]));
            assert(spec_layout_eq(
                rec1.graphics.pipeline->0.layouts[j],
                pipeline.layout.layouts[j],
            ));
        }
        assert forall|j: int| 0 <= j < sets.len() implies #[trigger] rec2.graphics.inited[j] by {}
    } else {
        assert(d == sets.len());
        assert(rec2.graphics.layouts@ == rec1.graphics.layouts@);
        assert(rec1.graphics.inited.len() == rec1.graphics.layouts.len());
        assert forall|j: int| 0 <= j < sets.len() implies spec_layout_eq(
            #[trigger] rec2.graphics.layouts[j],
            rec2.graphics.pipeline->0.layouts[j],
        ) by {
            assert(spec_layout_eq(rec2.graphics.layouts[j], newp[j])) by {
                crate::command_buffer::lemma_divergence_prefix_eq(rec1.graphics.layouts@, newp, j);
                assert(rec2.graphics.layouts@ == rec1.graphics.layouts@);
            }
            assert(spec_layout_eq(
                rec1.graphics.pipeline->0.layouts[j],
                pipeline.layout.layouts[j],
            ));
        }
        assert forall|j: int| 0 <= j < sets.len() implies #[trigger] rec2.graphics.inited[j] by {
            assert(0 <= j < rec1.graphics.inited.len());
        }
    }
}

} // verus!
