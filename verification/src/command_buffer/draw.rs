use vstd::prelude::*;

use crate::buffer::Buffer;
use crate::command_buffer::spec_recording_wf;
use crate::command_buffer::Bindings;
use crate::command_buffer::Cmd;
use crate::command_buffer::CommandRecording;
use crate::command_buffer::ExternalRenderPassRecording;
use crate::command_buffer::RenderPassRecording;
use crate::command_buffer::SecondaryCommandBuffer;
use crate::command_buffer::SecondaryCommandRecording;
use crate::descriptor_set::layout_eq;
use crate::descriptor_set::spec_layout_eq;
use crate::enums::BUFFER_USAGE_INDIRECT_BUFFER;
use crate::error::Error;
use crate::render_pass::attachment_keys_eq;
use crate::render_pass::AttachmentKey;

verus! {

/// True if a binding state satisfies a required set-layout signature:
/// the bound layouts agree with every slot the signature declares, and
/// all those slots are valid.
pub open spec fn spec_prefix_ready(
    layouts: Seq<crate::descriptor_set::DescriptorSetLayout>,
    inited: Seq<bool>,
    required: Seq<crate::descriptor_set::DescriptorSetLayout>,
) -> bool {
    &&& layouts.len() >= required.len()
    &&& forall|j: int|
        0 <= j < required.len() ==> spec_layout_eq(#[trigger] layouts[j], required[j])
    &&& forall|j: int| 0 <= j < required.len() ==> #[trigger] inited[j]
}

/// True if a draw or dispatch may proceed at this bind point: a pipeline
/// is bound and the bound state satisfies its signature.
pub open spec fn spec_draw_ready(b: Bindings) -> bool {
    &&& b.pipeline is Some
    &&& spec_prefix_ready(b.layouts@, b.inited@, b.pipeline->0.layouts@)
}

/// True if the bound pipeline may draw in subpass `subpass` of the pass
/// with compatibility key `pass_compat`.
pub open spec fn spec_pass_ready(b: Bindings, pass_compat: Seq<AttachmentKey>, subpass: u64) -> bool {
    &&& b.pipeline is Some
    &&& b.pipeline->0.render_pass is Some
    &&& (b.pipeline->0.render_pass->0).0@ == pass_compat
    &&& (b.pipeline->0.render_pass->0).1 == subpass
}

impl Bindings {
    /// Checks that a draw or dispatch may proceed at this bind point.
    #[verifier::loop_isolation(false)]
    fn check(&self) -> (r: Result<(), Error>)
        requires
            crate::command_buffer::spec_bindings_wf(*self),
        ensures
            r is Ok <==> spec_draw_ready(*self),
            r is Err ==> r->Err_0 == Error::InvalidState,
    {
        let pipeline = match &self.pipeline {
            Some(p) => p,
            None => {
                return Err(Error::InvalidState);
            },
        };
        proof {
            assert(*pipeline == self.pipeline->0);
        }
        if self.layouts.len() < pipeline.layouts.len() {
            return Err(Error::InvalidState);
        }
        let mut j: usize = 0;
        while j < pipeline.layouts.len()
            invariant
                j <= pipeline.layouts.len(),
                forall|i: int|
                    0 <= i < j ==> spec_layout_eq(
                        #[trigger] self.layouts[i],
                        pipeline.layouts[i],
                    ),
                forall|i: int| 0 <= i < j ==> #[trigger] self.inited[i],
            decreases pipeline.layouts.len() - j,
        {
            if !layout_eq(&self.layouts[j], &pipeline.layouts[j]) {
                return Err(Error::InvalidState);
            }
            if !self.inited[j] {
                return Err(Error::InvalidState);
            }
            j = j + 1;
        }
        Ok(())
    }

    /// Checks that the bound pipeline may draw in the given subpass of
    /// the given pass.
    fn check_render_pass(&self, pass_compat: &Vec<AttachmentKey>, subpass: u64) -> (r: Result<
        (),
        Error,
    >)
        ensures
            r is Ok <==> spec_pass_ready(*self, pass_compat@, subpass),
            r is Err ==> r->Err_0 == Error::InvalidState,
    {
        let pipeline = match &self.pipeline {
            Some(p) => p,
            None => {
                return Err(Error::InvalidState);
            },
        };
        match &pipeline.render_pass {
            Some((compat, pipeline_subpass)) => {
                if attachment_keys_eq(compat, pass_compat) && *pipeline_subpass == subpass {
                    Ok(())
                } else {
                    Err(Error::InvalidState)
                }
            },
            None => Err(Error::InvalidState),
        }
    }
}

/// The effective stride of an indirect-draw command: with fewer than two
/// records, the exact record size; the caller's stride otherwise.
pub open spec fn spec_effective_stride(count: u32, size: u32, stride: u32) -> u32 {
    if count < 2 {
        size
    } else {
        stride
    }
}

/// The failure, if any, of the record-array check of an indirect draw of
/// `count` records of `size` bytes with the given `stride`, read from
/// `buffer_len` bytes at `offset`.  A stride under the record size, a
/// misaligned stride for two or more records, or a misaligned offset is
/// `InvalidArgument`; records past the end of the buffer are
/// `OutOfBounds`.
pub open spec fn spec_indirect_rows_error(
    count: u32,
    size: u32,
    stride: u32,
    buffer_len: u64,
    offset: u64,
) -> Option<Error> {
    let eff = spec_effective_stride(count, size, stride);
    if eff < size || offset as int % 4 != 0 || (count >= 2 && stride as int % 4 != 0) {
        Some(Error::InvalidArgument)
    } else if offset + count * eff > buffer_len {
        Some(Error::OutOfBounds)
    } else {
        None
    }
}

/// Checks the record array of an indirect draw.
fn bounds_check_n(count: u32, size: u32, stride: u32, buf: &Buffer, offset: u64) -> (r: Result<
    (),
    Error,
>)
    ensures
        r is Ok <==> spec_indirect_rows_error(
            count,
            size,
            stride,
            buf.inner.len,
            offset,
        ) is None,
        r is Err ==> Some(r->Err_0) == spec_indirect_rows_error(
            count,
            size,
            stride,
            buf.inner.len,
            offset,
        ),
{
    let eff: u32 = if count < 2 {
        size
    } else {
        stride
    };
    if eff < size || offset % 4 != 0 || (count >= 2 && stride % 4 != 0) {
        return Err(Error::InvalidArgument);
    }
    proof {
        assert(count as int * eff as int <= 0xffff_ffffu64 * 0xffff_ffffu64) by (nonlinear_arith)
            requires
                count <= 0xffff_ffffu64 && eff <= 0xffff_ffffu64,
        ;
    }
    let len: u64 = (count as u64) * (eff as u64);
    if !buf.bounds_check(offset, len) {
        return Err(Error::OutOfBounds);
    }
    Ok(())
}

impl CommandRecording {
    /// Records a viewport change.
    pub fn set_viewport(&mut self, viewport: &crate::types::Viewport)
        ensures
            *final(self) == (CommandRecording {
                commands: Ghost(old(self).commands@.push((Cmd::SetViewport { viewport: *viewport }))),
                ..*old(self)
            }),
    {
        proof {
            self.commands@ = self.commands@.push((Cmd::SetViewport { viewport: *viewport }));
        }
    }

    /// Records a scissor change.
    pub fn set_scissor(&mut self, scissor: &crate::types::Rect2D)
        ensures
            *final(self) == (CommandRecording {
                commands: Ghost(old(self).commands@.push((Cmd::SetScissor { scissor: *scissor }))),
                ..*old(self)
            }),
    {
        proof {
            self.commands@ = self.commands@.push((Cmd::SetScissor { scissor: *scissor }));
        }
    }

    /// Records a draw after checking the graphics binding state.
    pub(crate) fn draw(
        &mut self,
        vertex_count: u32,
        instance_count: u32,
        first_vertex: u32,
        first_instance: u32,
    ) -> (r: Result<(), Error>)
        requires
            spec_recording_wf(*old(self)),
        ensures
            spec_recording_wf(*final(self)),
            r is Ok <==> spec_draw_ready(old(self).graphics),
            r is Err ==> r->Err_0 == Error::InvalidState && *final(self) == *old(self),
            r is Ok ==> *final(self) == (CommandRecording {
                commands: Ghost(
                    old(self).commands@.push(
                        (Cmd::Draw { vertex_count, instance_count, first_vertex, first_instance }),
                    ),
                ),
                ..*old(self)
            }),
    {
        match self.graphics.check() {
            Err(e) => {
                return Err(e);
            },
            Ok(()) => {},
        }
        proof {
            self.commands@ = self.commands@.push(
                (Cmd::Draw { vertex_count, instance_count, first_vertex, first_instance }),
            );
        }
        Ok(())
    }

    /// Records an indexed draw after checking the graphics binding
    /// state.
    pub(crate) fn draw_indexed(
        &mut self,
        index_count: u32,
        instance_count: u32,
        first_index: u32,
        vertex_offset: i32,
        first_instance: u32,
    ) -> (r: Result<(), Error>)
        requires
            spec_recording_wf(*old(self)),
        ensures
            spec_recording_wf(*final(self)),
            r is Ok <==> spec_draw_ready(old(self).graphics),
            r is Err ==> r->Err_0 == Error::InvalidState && *final(self) == *old(self),
            r is Ok ==> *final(self) == (CommandRecording {
                commands: Ghost(
                    old(self).commands@.push(
                        (Cmd::DrawIndexed {
                            index_count,
                            instance_count,
                            first_index,
                            vertex_offset,
                            first_instance,
                        }),
                    ),
                ),
                ..*old(self)
            }),
    {
        match self.graphics.check() {
            Err(e) => {
                return Err(e);
            },
            Ok(()) => {},
        }
        proof {
            self.commands@ = self.commands@.push(
                (Cmd::DrawIndexed {
                    index_count,
                    instance_count,
                    first_index,
                    vertex_offset,
                    first_instance,
                }),
            );
        }
        Ok(())
    }

    /// Records an indirect draw: `draw_count` records of 16 bytes read
    /// from `buffer` at `offset`.  The buffer must carry the
    /// indirect-buffer usage; the record array must lie inside it; the
    /// graphics binding state must be ready.
    pub(crate) fn draw_indirect(
        &mut self,
        buffer: &Buffer,
        offset: u64,
        draw_count: u32,
        stride: u32,
    ) -> (r: Result<(), Error>)
        requires
            spec_recording_wf(*old(self)),
        ensures
            spec_recording_wf(*final(self)),
            r is Err ==> *final(self) == *old(self),
            ({
                let usage_ok = buffer.inner.usage.0 & BUFFER_USAGE_INDIRECT_BUFFER != 0;
                let rows = spec_indirect_rows_error(
                    draw_count,
                    16,
                    stride,
                    buffer.inner.len,
                    offset,
                );
                if !usage_ok {
                    r == Err::<(), Error>(Error::InvalidArgument)
                } else if rows is Some {
                    r == Err::<(), Error>(rows->0)
                } else if !spec_draw_ready(old(self).graphics) {
                    r == Err::<(), Error>(Error::InvalidState)
                } else {
                    r is Ok
                }
            }),
            r is Ok ==> *final(self) == (CommandRecording {
                commands: Ghost(
                    old(self).commands@.push(
                        (Cmd::DrawIndirect {
                            buffer: buffer.inner.handle,
                            offset,
                            draw_count,
                            stride,
                        }),
                    ),
                ),
                ..*old(self)
            }),
    {
        if buffer.usage().0 & BUFFER_USAGE_INDIRECT_BUFFER == 0 {
            return Err(Error::InvalidArgument);
        }
        match bounds_check_n(draw_count, 16, stride, buffer, offset) {
            Err(e) => {
                return Err(e);
            },
            Ok(()) => {},
        }
        match self.graphics.check() {
            Err(e) => {
                return Err(e);
            },
            Ok(()) => {},
        }
        proof {
            self.commands@ = self.commands@.push(
                (Cmd::DrawIndirect { buffer: buffer.inner.handle, offset, draw_count, stride }),
            );
        }
        Ok(())
    }

    /// Records an indexed indirect draw: `draw_count` records of 20
    /// bytes read from `buffer` at `offset`.
    pub(crate) fn draw_indexed_indirect(
        &mut self,
        buffer: &Buffer,
        offset: u64,
        draw_count: u32,
        stride: u32,
    ) -> (r: Result<(), Error>)
        requires
            spec_recording_wf(*old(self)),
        ensures
            spec_recording_wf(*final(self)),
            r is Err ==> *final(self) == *old(self),
            ({
                let usage_ok = buffer.inner.usage.0 & BUFFER_USAGE_INDIRECT_BUFFER != 0;
                let rows = spec_indirect_rows_error(
                    draw_count,
                    20,
                    stride,
                    buffer.inner.len,
                    offset,
                );
                if rows is Some {
                    r == Err::<(), Error>(rows->0)
                } else if !usage_ok {
                    r == Err::<(), Error>(Error::InvalidArgument)
                } else if !spec_draw_ready(old(self).graphics) {
                    r == Err::<(), Error>(Error::InvalidState)
                } else {
                    r is Ok
                }
            }),
            r is Ok ==> *final(self) == (CommandRecording {
                commands: Ghost(
                    old(self).commands@.push(
                        (Cmd::DrawIndexedIndirect {
                            buffer: buffer.inner.handle,
                            offset,
                            draw_count,
                            stride,
                        }),
                    ),
                ),
                ..*old(self)
            }),
    {
        match bounds_check_n(draw_count, 20, stride, buffer, offset) {
            Err(e) => {
                return Err(e);
            },
            Ok(()) => {},
        }
        if buffer.usage().0 & BUFFER_USAGE_INDIRECT_BUFFER == 0 {
            return Err(Error::InvalidArgument);
        }
        match self.graphics.check() {
            Err(e) => {
                return Err(e);
            },
            Ok(()) => {},
        }
        proof {
            self.commands@ = self.commands@.push(
                (Cmd::DrawIndexedIndirect {
                    buffer: buffer.inner.handle,
                    offset,
                    draw_count,
                    stride,
                }),
            );
        }
        Ok(())
    }

    /// Records a compute dispatch after checking the compute binding
    /// state.
    pub fn dispatch(&mut self, group_count_x: u32, group_count_y: u32, group_count_z: u32) -> (r:
        Result<(), Error>)
        requires
            spec_recording_wf(*old(self)),
        ensures
            spec_recording_wf(*final(self)),
            r is Ok <==> spec_draw_ready(old(self).compute),
            r is Err ==> r->Err_0 == Error::InvalidState && *final(self) == *old(self),
            r is Ok ==> *final(self) == (CommandRecording {
                commands: Ghost(
                    old(self).commands@.push(
                        (Cmd::Dispatch { group_count_x, group_count_y, group_count_z }),
                    ),
                ),
                ..*old(self)
            }),
    {
        match self.compute.check() {
            Err(e) => {
                return Err(e);
            },
            Ok(()) => {},
        }
        proof {
            self.commands@ = self.commands@.push(
                (Cmd::Dispatch { group_count_x, group_count_y, group_count_z }),
            );
        }
        Ok(())
    }

    /// Records an indirect compute dispatch after checking the compute
    /// binding state.
    pub fn dispatch_indirect(&mut self, buffer: &Buffer, offset: u64) -> (r: Result<(), Error>)
        requires
            spec_recording_wf(*old(self)),
        ensures
            spec_recording_wf(*final(self)),
            r is Ok <==> spec_draw_ready(old(self).compute),
            r is Err ==> r->Err_0 == Error::InvalidState && *final(self) == *old(self),
            r is Ok ==> *final(self) == (CommandRecording {
                commands: Ghost(
                    old(self).commands@.push(
                        (Cmd::DispatchIndirect { buffer: buffer.inner.handle, offset }),
                    ),
                ),
                ..*old(self)
            }),
    {
        match self.compute.check() {
            Err(e) => {
                return Err(e);
            },
            Ok(()) => {},
        }
        proof {
            self.commands@ = self.commands@.push(
                (Cmd::DispatchIndirect { buffer: buffer.inner.handle, offset }),
            );
        }
        Ok(())
    }
}

impl RenderPassRecording {
    /// Records a viewport change.
    pub fn set_viewport(&mut self, viewport: &crate::types::Viewport)
        ensures
            final(self).rec == (CommandRecording {
                commands: Ghost(
                    old(self).rec.commands@.push((Cmd::SetViewport { viewport: *viewport })),
                ),
                ..old(self).rec
            }),
            final(self).pass_compat == old(self).pass_compat,
            final(self).subpasses == old(self).subpasses,
            final(self).subpass == old(self).subpass,
    {
        self.rec.set_viewport(viewport)
    }

    /// Records a scissor change.
    pub fn set_scissor(&mut self, scissor: &crate::types::Rect2D)
        ensures
            final(self).rec == (CommandRecording {
                commands: Ghost(
                    old(self).rec.commands@.push((Cmd::SetScissor { scissor: *scissor })),
                ),
                ..old(self).rec
            }),
            final(self).pass_compat == old(self).pass_compat,
            final(self).subpasses == old(self).subpasses,
            final(self).subpass == old(self).subpass,
    {
        self.rec.set_scissor(scissor)
    }

    /// Records a draw.  The bound graphics pipeline must be compatible
    /// with the current pass and subpass, and the binding state ready.
    pub fn draw(
        &mut self,
        vertex_count: u32,
        instance_count: u32,
        first_vertex: u32,
        first_instance: u32,
    ) -> (r: Result<(), Error>)
        requires
            spec_recording_wf(old(self).rec),
        ensures
            spec_recording_wf(final(self).rec),
            r is Ok <==> spec_pass_ready(
                old(self).rec.graphics,
                old(self).pass_compat@,
                old(self).subpass,
            ) && spec_draw_ready(old(self).rec.graphics),
            r is Err ==> r->Err_0 == Error::InvalidState && *final(self) == *old(self),
            r is Ok ==> final(self).rec == (CommandRecording {
                commands: Ghost(
                    old(self).rec.commands@.push(
                        (Cmd::Draw { vertex_count, instance_count, first_vertex, first_instance }),
                    ),
                ),
                ..old(self).rec
            }) && final(self).pass_compat == old(self).pass_compat && final(self).subpasses == old(
                self,
            ).subpasses && final(self).subpass == old(self).subpass,
    {
        match self.rec.graphics.check_render_pass(&self.pass_compat, self.subpass) {
            Err(e) => {
                return Err(e);
            },
            Ok(()) => {},
        }
        self.rec.draw(vertex_count, instance_count, first_vertex, first_instance)
    }

    /// Records an indirect draw; see
    /// [`RenderPassRecording::draw`] for the state checks and
    /// [`CommandRecording::draw_indirect`] for the record-array checks.
    pub fn draw_indirect(
        &mut self,
        buffer: &Buffer,
        offset: u64,
        draw_count: u32,
        stride: u32,
    ) -> (r: Result<(), Error>)
        requires
            spec_recording_wf(old(self).rec),
        ensures
            spec_recording_wf(final(self).rec),
            r is Err ==> *final(self) == *old(self),
            ({
                let pass_ok = spec_pass_ready(
                    old(self).rec.graphics,
                    old(self).pass_compat@,
                    old(self).subpass,
                );
                let usage_ok = buffer.inner.usage.0 & BUFFER_USAGE_INDIRECT_BUFFER != 0;
                let rows = spec_indirect_rows_error(
                    draw_count,
                    16,
                    stride,
                    buffer.inner.len,
                    offset,
                );
                if !pass_ok {
                    r == Err::<(), Error>(Error::InvalidState)
                } else if !usage_ok {
                    r == Err::<(), Error>(Error::InvalidArgument)
                } else if rows is Some {
                    r == Err::<(), Error>(rows->0)
                } else if !spec_draw_ready(old(self).rec.graphics) {
                    r == Err::<(), Error>(Error::InvalidState)
                } else {
                    r is Ok
                }
            }),
            r is Ok ==> final(self).rec == (CommandRecording {
                commands: Ghost(
                    old(self).rec.commands@.push(
                        (Cmd::DrawIndirect {
                            buffer: buffer.inner.handle,
                            offset,
                            draw_count,
                            stride,
                        }),
                    ),
                ),
                ..old(self).rec
            }) && final(self).pass_compat == old(self).pass_compat && final(self).subpasses == old(
                self,
            ).subpasses && final(self).subpass == old(self).subpass,
    {
        match self.rec.graphics.check_render_pass(&self.pass_compat, self.subpass) {
            Err(e) => {
                return Err(e);
            },
            Ok(()) => {},
        }
        self.rec.draw_indirect(buffer, offset, draw_count, stride)
    }

    /// Records an indexed draw; see [`RenderPassRecording::draw`].
    pub fn draw_indexed(
        &mut self,
        index_count: u32,
        instance_count: u32,
        first_index: u32,
        vertex_offset: i32,
        first_instance: u32,
    ) -> (r: Result<(), Error>)
        requires
            spec_recording_wf(old(self).rec),
        ensures
            spec_recording_wf(final(self).rec),
            r is Ok <==> spec_pass_ready(
                old(self).rec.graphics,
                old(self).pass_compat@,
                old(self).subpass,
            ) && spec_draw_ready(old(self).rec.graphics),
            r is Err ==> r->Err_0 == Error::InvalidState && *final(self) == *old(self),
            r is Ok ==> final(self).rec == (CommandRecording {
                commands: Ghost(
                    old(self).rec.commands@.push(
                        (Cmd::DrawIndexed {
                            index_count,
                            instance_count,
                            first_index,
                            vertex_offset,
                            first_instance,
                        }),
                    ),
                ),
                ..old(self).rec
            }) && final(self).pass_compat == old(self).pass_compat && final(self).subpasses == old(
                self,
            ).subpasses && final(self).subpass == old(self).subpass,
    {
        match self.rec.graphics.check_render_pass(&self.pass_compat, self.subpass) {
            Err(e) => {
                return Err(e);
            },
            Ok(()) => {},
        }
        self.rec.draw_indexed(index_count, instance_count, first_index, vertex_offset, first_instance)
    }

    /// Records an indexed indirect draw; see
    /// [`RenderPassRecording::draw_indirect`].
    pub fn draw_indexed_indirect(
        &mut self,
        buffer: &Buffer,
        offset: u64,
        draw_count: u32,
        stride: u32,
    ) -> (r: Result<(), Error>)
        requires
            spec_recording_wf(old(self).rec),
        ensures
            spec_recording_wf(final(self).rec),
            r is Err ==> *final(self) == *old(self),
            ({
                let pass_ok = spec_pass_ready(
                    old(self).rec.graphics,
                    old(self).pass_compat@,
                    old(self).subpass,
                );
                let usage_ok = buffer.inner.usage.0 & BUFFER_USAGE_INDIRECT_BUFFER != 0;
                let rows = spec_indirect_rows_error(
                    draw_count,
                    20,
                    stride,
                    buffer.inner.len,
                    offset,
                );
                if !pass_ok {
                    r == Err::<(), Error>(Error::InvalidState)
                } else if rows is Some {
                    r == Err::<(), Error>(rows->0)
                } else if !usage_ok {
                    r == Err::<(), Error>(Error::InvalidArgument)
                } else if !spec_draw_ready(old(self).rec.graphics) {
                    r == Err::<(), Error>(Error::InvalidState)
                } else {
                    r is Ok
                }
            }),
            r is Ok ==> final(self).rec == (CommandRecording {
                commands: Ghost(
                    old(self).rec.commands@.push(
                        (Cmd::DrawIndexedIndirect {
                            buffer: buffer.inner.handle,
                            offset,
                            draw_count,
                            stride,
                        }),
                    ),
                ),
                ..old(self).rec
            }) && final(self).pass_compat == old(self).pass_compat && final(self).subpasses == old(
                self,
            ).subpasses && final(self).subpass == old(self).subpass,
    {
        match self.rec.graphics.check_render_pass(&self.pass_compat, self.subpass) {
            Err(e) => {
                return Err(e);
            },
            Ok(()) => {},
        }
        self.rec.draw_indexed_indirect(buffer, offset, draw_count, stride)
    }
}

impl SecondaryCommandRecording {
    /// Records a viewport change.
    pub fn set_viewport(&mut self, viewport: &crate::types::Viewport)
        ensures
            final(self).rec == (CommandRecording {
                commands: Ghost(
                    old(self).rec.commands@.push((Cmd::SetViewport { viewport: *viewport })),
                ),
                ..old(self).rec
            }),
            final(self).pass_compat == old(self).pass_compat,
            final(self).subpass == old(self).subpass,
    {
        self.rec.set_viewport(viewport)
    }

    /// Records a scissor change.
    pub fn set_scissor(&mut self, scissor: &crate::types::Rect2D)
        ensures
            final(self).rec == (CommandRecording {
                commands: Ghost(
                    old(self).rec.commands@.push((Cmd::SetScissor { scissor: *scissor })),
                ),
                ..old(self).rec
            }),
            final(self).pass_compat == old(self).pass_compat,
            final(self).subpass == old(self).subpass,
    {
        self.rec.set_scissor(scissor)
    }

    /// Records an indexed draw; see [`RenderPassRecording::draw`].
    pub fn draw_indexed(
        &mut self,
        index_count: u32,
        instance_count: u32,
        first_index: u32,
        vertex_offset: i32,
        first_instance: u32,
    ) -> (r: Result<(), Error>)
        requires
            spec_recording_wf(old(self).rec),
        ensures
            spec_recording_wf(final(self).rec),
            r is Ok <==> spec_pass_ready(
                old(self).rec.graphics,
                old(self).pass_compat@,
                old(self).subpass,
            ) && spec_draw_ready(old(self).rec.graphics),
            r is Err ==> r->Err_0 == Error::InvalidState && *final(self) == *old(self),
            r is Ok ==> final(self).rec == (CommandRecording {
                commands: Ghost(
                    old(self).rec.commands@.push(
                        (Cmd::DrawIndexed {
                            index_count,
                            instance_count,
                            first_index,
                            vertex_offset,
                            first_instance,
                        }),
                    ),
                ),
                ..old(self).rec
            }) && final(self).pass_compat == old(self).pass_compat && final(self).subpass == old(
                self,
            ).subpass,
    {
        match self.rec.graphics.check_render_pass(&self.pass_compat, self.subpass) {
            Err(e) => {
                return Err(e);
            },
            Ok(()) => {},
        }
        self.rec.draw_indexed(index_count, instance_count, first_index, vertex_offset, first_instance)
    }

    /// Records an indirect draw; see
    /// [`RenderPassRecording::draw_indirect`].
    pub fn draw_indirect(
        &mut self,
        buffer: &Buffer,
        offset: u64,
        draw_count: u32,
        stride: u32,
    ) -> (r: Result<(), Error>)
        requires
            spec_recording_wf(old(self).rec),
        ensures
            spec_recording_wf(final(self).rec),
            r is Err ==> *final(self) == *old(self),
            ({
                let pass_ok = spec_pass_ready(
                    old(self).rec.graphics,
                    old(self).pass_compat@,
                    old(self).subpass,
                );
                let usage_ok = buffer.inner.usage.0 & BUFFER_USAGE_INDIRECT_BUFFER != 0;
                let rows = spec_indirect_rows_error(
                    draw_count,
                    16,
                    stride,
                    buffer.inner.len,
                    offset,
                );
                if !pass_ok {
                    r == Err::<(), Error>(Error::InvalidState)
                } else if !usage_ok {
                    r == Err::<(), Error>(Error::InvalidArgument)
                } else if rows is Some {
                    r == Err::<(), Error>(rows->0)
                } else if !spec_draw_ready(old(self).rec.graphics) {
                    r == Err::<(), Error>(Error::InvalidState)
                } else {
                    r is Ok
                }
            }),
            r is Ok ==> final(self).rec == (CommandRecording {
                commands: Ghost(
                    old(self).rec.commands@.push(
                        (Cmd::DrawIndirect {
                            buffer: buffer.inner.handle,
                            offset,
                            draw_count,
                            stride,
                        }),
                    ),
                ),
                ..old(self).rec
            }) && final(self).pass_compat == old(self).pass_compat && final(self).subpass == old(
                self,
            ).subpass,
    {
        match self.rec.graphics.check_render_pass(&self.pass_compat, self.subpass) {
            Err(e) => {
                return Err(e);
            },
            Ok(()) => {},
        }
        self.rec.draw_indirect(buffer, offset, draw_count, stride)
    }

    /// Records an indexed indirect draw; see
    /// [`RenderPassRecording::draw_indexed_indirect`].
    pub fn draw_indexed_indirect(
        &mut self,
        buffer: &Buffer,
        offset: u64,
        draw_count: u32,
        stride: u32,
    ) -> (r: Result<(), Error>)
        requires
            spec_recording_wf(old(self).rec),
        ensures
            spec_recording_wf(final(self).rec),
            r is Err ==> *final(self) == *old(self),
            ({
                let pass_ok = spec_pass_ready(
                    old(self).rec.graphics,
                    old(self).pass_compat@,
                    old(self).subpass,
                );
                let usage_ok = buffer.inner.usage.0 & BUFFER_USAGE_INDIRECT_BUFFER != 0;
                let rows = spec_indirect_rows_error(
                    draw_count,
                    20,
                    stride,
                    buffer.inner.len,
                    offset,
                );
                if !pass_ok {
                    r == Err::<(), Error>(Error::InvalidState)
                } else if rows is Some {
                    r == Err::<(), Error>(rows->0)
                } else if !usage_ok {
                    r == Err::<(), Error>(Error::InvalidArgument)
                } else if !spec_draw_ready(old(self).rec.graphics) {
                    r == Err::<(), Error>(Error::InvalidState)
                } else {
                    r is Ok
                }
            }),
            r is Ok ==> final(self).rec == (CommandRecording {
                commands: Ghost(
                    old(self).rec.commands@.push(
                        (Cmd::DrawIndexedIndirect {
                            buffer: buffer.inner.handle,
                            offset,
                            draw_count,
                            stride,
                        }),
                    ),
                ),
                ..old(self).rec
            }) && final(self).pass_compat == old(self).pass_compat && final(self).subpass == old(
                self,
            ).subpass,
    {
        match self.rec.graphics.check_render_pass(&self.pass_compat, self.subpass) {
            Err(e) => {
                return Err(e);
            },
            Ok(()) => {},
        }
        self.rec.draw_indexed_indirect(buffer, offset, draw_count, stride)
    }

    /// Records a draw; see [`RenderPassRecording::draw`].
    pub fn draw(
        &mut self,
        vertex_count: u32,
        instance_count: u32,
        first_vertex: u32,
        first_instance: u32,
    ) -> (r: Result<(), Error>)
        requires
            spec_recording_wf(old(self).rec),
        ensures
            spec_recording_wf(final(self).rec),
            r is Ok <==> spec_pass_ready(
                old(self).rec.graphics,
                old(self).pass_compat@,
                old(self).subpass,
            ) && spec_draw_ready(old(self).rec.graphics),
            r is Err ==> r->Err_0 == Error::InvalidState && *final(self) == *old(self),
            r is Ok ==> final(self).rec == (CommandRecording {
                commands: Ghost(
                    old(self).rec.commands@.push(
                        (Cmd::Draw { vertex_count, instance_count, first_vertex, first_instance }),
                    ),
                ),
                ..old(self).rec
            }) && final(self).pass_compat == old(self).pass_compat && final(self).subpass == old(
                self,
            ).subpass,
    {
        match self.rec.graphics.check_render_pass(&self.pass_compat, self.subpass) {
            Err(e) => {
                return Err(e);
            },
            Ok(()) => {},
        }
        self.rec.draw(vertex_count, instance_count, first_vertex, first_instance)
    }
}

impl ExternalRenderPassRecording {
    /// Replays finished secondary buffers inside this pass.  Returns
    /// `InvalidArgument`, changing nothing, if `commands` is empty or a
    /// buffer was not recorded for a compatible pass at the current
    /// subpass.
    #[verifier::loop_isolation(false)]
    pub fn execute_commands(&mut self, commands: &Vec<&SecondaryCommandBuffer>) -> (r: Result<
        (),
        Error,
    >)
        ensures
            r is Ok <==> commands.len() > 0 && (forall|k: int|
                0 <= k < commands.len() ==> (#[trigger] commands[k]).pass is Some && (
                commands[k].pass->0).0@ == old(self).pass_compat@ && (commands[k].pass->0).1 == old(
                    self,
                ).subpass),
            r is Err ==> r->Err_0 == Error::InvalidArgument && *final(self) == *old(self),
            r is Ok ==> final(self).rec == (CommandRecording {
                commands: Ghost(
                    old(self).rec.commands@.push(
                        (Cmd::ExecuteCommands {
                            buffers: commands@.map_values(
                                |c: &SecondaryCommandBuffer| (c.pool, c.slot as u64),
                            ),
                        }),
                    ),
                ),
                ..old(self).rec
            }) && final(self).pass_compat == old(self).pass_compat && final(self).subpasses == old(
                self,
            ).subpasses && final(self).subpass == old(self).subpass,
    {
        if commands.len() == 0 {
            return Err(Error::InvalidArgument);
        }
        let mut k: usize = 0;
        while k < commands.len()
            invariant
                k <= commands.len(),
                forall|j: int|
                    0 <= j < k ==> (#[trigger] commands[j]).pass is Some && (
                    commands[j].pass->0).0@ == self.pass_compat@ && (commands[j].pass->0).1
                        == self.subpass,
            decreases commands.len() - k,
        {
            match &commands[k].pass {
                Some((compat, subpass)) => {
                    if !attachment_keys_eq(compat, &self.pass_compat) || *subpass != self.subpass {
                        return Err(Error::InvalidArgument);
                    }
                },
                None => {
                    return Err(Error::InvalidArgument);
                },
            }
            k = k + 1;
        }
        proof {
            self.rec.commands@ = self.rec.commands@.push(
                (Cmd::ExecuteCommands {
                    buffers: commands@.map_values(
                        |c: &SecondaryCommandBuffer| (c.pool, c.slot as u64),
                    ),
                }),
            );
        }
        Ok(())
    }
}

/// The indirect-draw stride rule: a single-record draw accepts any
/// stride and reads exactly one record; a multi-record draw refuses a
/// stride under the record size or not a multiple of four; and the
/// records read must lie inside the buffer.
pub proof fn lemma_indirect_stride_rule(
    count: u32,
    size: u32,
    stride: u32,
    buffer_len: u64,
    offset: u64,
)
    ensures
        count < 2 ==> spec_indirect_rows_error(count, size, stride, buffer_len, offset)
            == spec_indirect_rows_error(count, size, size, buffer_len, offset),
        count < 2 ==> (spec_indirect_rows_error(count, size, stride, buffer_len, offset)
            is None <==> offset as int % 4 == 0 && offset + count * size <= buffer_len),
        count >= 2 && stride < size ==> spec_indirect_rows_error(
            count,
            size,
            stride,
            buffer_len,
            offset,
        ) == Some(Error::InvalidArgument),
        offset as int % 4 == 0 && count >= 2 && stride >= size && stride as int % 4 == 0 && offset
            + count * stride <= buffer_len ==> spec_indirect_rows_error(
            count,
            size,
            stride,
            buffer_len,
            offset,
        ) is None,
{
}

} // verus!
