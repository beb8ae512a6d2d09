use vstd::prelude::*;

use crate::command_buffer::Cmd;
use crate::command_buffer::CommandRecording;
use crate::command_buffer::RenderPassRecording;
use crate::command_buffer::SecondaryCommandRecording;
use crate::enums::AccessFlags;
use crate::enums::DependencyFlags;
use crate::enums::ImageAspectFlags;
use crate::enums::ImageLayout;
use crate::enums::PipelineStageFlags;
use crate::image::Image;
use crate::types::ImageSubresourceRange;

verus! {

/// A memory dependency between pipeline stages.
#[derive(Clone, Copy, Debug, PartialEq, Eq, Structural)]
pub struct MemoryBarrier {
    pub src_access_mask: AccessFlags,
    pub dst_access_mask: AccessFlags,
}

/// A memory dependency on a byte range of one buffer.
#[derive(Clone, Copy, Debug, PartialEq, Eq, Structural)]
pub struct BufferMemoryBarrier {
    pub src_access_mask: AccessFlags,
    pub dst_access_mask: AccessFlags,
    /// The handle of the buffer.
    pub buffer: u64,
    pub offset: u64,
    pub size: u64,
}

/// A memory dependency and layout transition on an image subresource
/// range.
#[derive(Clone, Copy, Debug, PartialEq, Eq, Structural)]
pub struct ImageMemoryBarrier {
    pub src_access_mask: AccessFlags,
    pub dst_access_mask: AccessFlags,
    pub old_layout: ImageLayout,
    pub new_layout: ImageLayout,
    /// The handle of the image.
    pub image: u64,
    pub subresource_range: ImageSubresourceRange,
}

/// The barrier one whole-memory shortcut records.
pub open spec fn spec_memory_barrier_cmd(
    src_stage_mask: PipelineStageFlags,
    dst_stage_mask: PipelineStageFlags,
    src_access_mask: AccessFlags,
    dst_access_mask: AccessFlags,
) -> Cmd {
    Cmd::PipelineBarrier {
        src_stage_mask,
        dst_stage_mask,
        dependency_flags: DependencyFlags(0),
        memory_barriers: seq![MemoryBarrier { src_access_mask, dst_access_mask }],
        buffer_memory_barriers: Seq::empty(),
        image_memory_barriers: Seq::empty(),
    }
}

/// The barrier one whole-image shortcut records: the whole image, every
/// aspect left implicit as in the native default.
pub open spec fn spec_image_barrier_cmd(
    image: u64,
    src_stage_mask: PipelineStageFlags,
    dst_stage_mask: PipelineStageFlags,
    src_access_mask: AccessFlags,
    dst_access_mask: AccessFlags,
    old_layout: ImageLayout,
    new_layout: ImageLayout,
) -> Cmd {
    Cmd::PipelineBarrier {
        src_stage_mask,
        dst_stage_mask,
        dependency_flags: DependencyFlags(0),
        memory_barriers: Seq::empty(),
        buffer_memory_barriers: Seq::empty(),
        image_memory_barriers: seq![
            ImageMemoryBarrier {
                src_access_mask,
                dst_access_mask,
                old_layout,
                new_layout,
                image,
                subresource_range: ImageSubresourceRange {
                    aspect_mask: ImageAspectFlags(0),
                    base_mip_level: 0,
                    level_count: 0,
                    base_array_layer: 0,
                    layer_count: 0,
                },
            },
        ],
    }
}

impl CommandRecording {
    /// Records an execution and memory dependency between the given
    /// stages, with the given global, buffer and image barriers.
    pub fn pipeline_barrier(
        &mut self,
        src_stage_mask: PipelineStageFlags,
        dst_stage_mask: PipelineStageFlags,
        dependency_flags: DependencyFlags,
        memory_barriers: &Vec<MemoryBarrier>,
        buffer_memory_barriers: &Vec<BufferMemoryBarrier>,
        image_memory_barriers: &Vec<ImageMemoryBarrier>,
    )
        ensures
            *final(self) == (CommandRecording {
                commands: Ghost(
                    old(self).commands@.push(
                        (Cmd::PipelineBarrier {
                            src_stage_mask,
                            dst_stage_mask,
                            dependency_flags,
                            memory_barriers: memory_barriers@,
                            buffer_memory_barriers: buffer_memory_barriers@,
                            image_memory_barriers: image_memory_barriers@,
                        }),
                    ),
                ),
                ..*old(self)
            }),
    {
        proof {
            self.commands@ = self.commands@.push(
                (Cmd::PipelineBarrier {
                    src_stage_mask,
                    dst_stage_mask,
                    dependency_flags,
                    memory_barriers: memory_barriers@,
                    buffer_memory_barriers: buffer_memory_barriers@,
                    image_memory_barriers: image_memory_barriers@,
                }),
            );
        }
    }

    /// A shortcut for a single whole-memory barrier.
    pub fn memory_barrier(
        &mut self,
        src_stage_mask: PipelineStageFlags,
        dst_stage_mask: PipelineStageFlags,
        src_access_mask: AccessFlags,
        dst_access_mask: AccessFlags,
    )
        ensures
            *final(self) == (CommandRecording {
                commands: Ghost(
                    old(self).commands@.push(
                        spec_memory_barrier_cmd(
                            src_stage_mask,
                            dst_stage_mask,
                            src_access_mask,
                            dst_access_mask,
                        ),
                    ),
                ),
                ..*old(self)
            }),
    {
        proof {
            self.commands@ = self.commands@.push(
                spec_memory_barrier_cmd(
                    src_stage_mask,
                    dst_stage_mask,
                    src_access_mask,
                    dst_access_mask,
                ),
            );
        }
    }

    /// A shortcut for a single whole-image barrier.
    pub fn image_barrier(
        &mut self,
        image: &Image,
        src_stage_mask: PipelineStageFlags,
        dst_stage_mask: PipelineStageFlags,
        src_access_mask: AccessFlags,
        dst_access_mask: AccessFlags,
        old_layout: ImageLayout,
        new_layout: ImageLayout,
    )
        ensures
            *final(self) == (CommandRecording {
                commands: Ghost(
                    old(self).commands@.push(
                        spec_image_barrier_cmd(
                            image.inner.handle,
                            src_stage_mask,
                            dst_stage_mask,
                            src_access_mask,
                            dst_access_mask,
                            old_layout,
                            new_layout,
                        ),
                    ),
                ),
                ..*old(self)
            }),
    {
        proof {
            self.commands@ = self.commands@.push(
                spec_image_barrier_cmd(
                    image.inner.handle,
                    src_stage_mask,
                    dst_stage_mask,
                    src_access_mask,
                    dst_access_mask,
                    old_layout,
                    new_layout,
                ),
            );
        }
    }
}

impl RenderPassRecording {
    /// Records an execution and memory dependency between the given
    /// stages, with the given global, buffer and image barriers.
    pub fn pipeline_barrier(
        &mut self,
        src_stage_mask: PipelineStageFlags,
        dst_stage_mask: PipelineStageFlags,
        dependency_flags: DependencyFlags,
        memory_barriers: &Vec<MemoryBarrier>,
        buffer_memory_barriers: &Vec<BufferMemoryBarrier>,
        image_memory_barriers: &Vec<ImageMemoryBarrier>,
    )
        ensures
            final(self).rec == (CommandRecording {
                commands: Ghost(
                    old(self).rec.commands@.push(
                        (Cmd::PipelineBarrier {
                            src_stage_mask,
                            dst_stage_mask,
                            dependency_flags,
                            memory_barriers: memory_barriers@,
                            buffer_memory_barriers: buffer_memory_barriers@,
                            image_memory_barriers: image_memory_barriers@,
                        }),
                    ),
                ),
                ..old(self).rec
            }),
            final(self).pass_compat == old(self).pass_compat,
            final(self).subpasses == old(self).subpasses,
            final(self).subpass == old(self).subpass,
    {
        self.rec.pipeline_barrier(
            src_stage_mask,
            dst_stage_mask,
            dependency_flags,
            memory_barriers,
            buffer_memory_barriers,
            image_memory_barriers,
        )
    }

    /// A shortcut for a single whole-memory barrier.
    pub fn memory_barrier(
        &mut self,
        src_stage_mask: PipelineStageFlags,
        dst_stage_mask: PipelineStageFlags,
        src_access_mask: AccessFlags,
        dst_access_mask: AccessFlags,
    )
        ensures
            final(self).rec == (CommandRecording {
                commands: Ghost(
                    old(self).rec.commands@.push(
                        spec_memory_barrier_cmd(
                            src_stage_mask,
                            dst_stage_mask,
                            src_access_mask,
                            dst_access_mask,
                        ),
                    ),
                ),
                ..old(self).rec
            }),
            final(self).pass_compat == old(self).pass_compat,
            final(self).subpasses == old(self).subpasses,
            final(self).subpass == old(self).subpass,
    {
        self.rec.memory_barrier(src_stage_mask, dst_stage_mask, src_access_mask, dst_access_mask)
    }

    /// A shortcut for a single whole-image barrier.
    pub fn image_barrier(
        &mut self,
        image: &Image,
        src_stage_mask: PipelineStageFlags,
        dst_stage_mask: PipelineStageFlags,
        src_access_mask: AccessFlags,
        dst_access_mask: AccessFlags,
        old_layout: ImageLayout,
        new_layout: ImageLayout,
    )
        ensures
            final(self).rec == (CommandRecording {
                commands: Ghost(
                    old(self).rec.commands@.push(
                        spec_image_barrier_cmd(
                            image.inner.handle,
                            src_stage_mask,
                            dst_stage_mask,
                            src_access_mask,
                            dst_access_mask,
                            old_layout,
                            new_layout,
                        ),
                    ),
                ),
                ..old(self).rec
            }),
            final(self).pass_compat == old(self).pass_compat,
            final(self).subpasses == old(self).subpasses,
            final(self).subpass == old(self).subpass,
    {
        self.rec.image_barrier(
            image,
            src_stage_mask,
            dst_stage_mask,
            src_access_mask,
            dst_access_mask,
            old_layout,
            new_layout,
        )
    }
}

impl SecondaryCommandRecording {
    /// Records an execution and memory dependency between the given
    /// stages, with the given global, buffer and image barriers.
    pub fn pipeline_barrier(
        &mut self,
        src_stage_mask: PipelineStageFlags,
        dst_stage_mask: PipelineStageFlags,
        dependency_flags: DependencyFlags,
        memory_barriers: &Vec<MemoryBarrier>,
        buffer_memory_barriers: &Vec<BufferMemoryBarrier>,
        image_memory_barriers: &Vec<ImageMemoryBarrier>,
    )
        ensures
            final(self).rec == (CommandRecording {
                commands: Ghost(
                    old(self).rec.commands@.push(
                        (Cmd::PipelineBarrier {
                            src_stage_mask,
                            dst_stage_mask,
                            dependency_flags,
                            memory_barriers: memory_barriers@,
                            buffer_memory_barriers: buffer_memory_barriers@,
                            image_memory_barriers: image_memory_barriers@,
                        }),
                    ),
                ),
                ..old(self).rec
            }),
            final(self).pass_compat == old(self).pass_compat,
            final(self).subpass == old(self).subpass,
    {
        self.rec.pipeline_barrier(
            src_stage_mask,
            dst_stage_mask,
            dependency_flags,
            memory_barriers,
            buffer_memory_barriers,
            image_memory_barriers,
        )
    }

    /// A shortcut for a single whole-memory barrier.
    pub fn memory_barrier(
        &mut self,
        src_stage_mask: PipelineStageFlags,
        dst_stage_mask: PipelineStageFlags,
        src_access_mask: AccessFlags,
        dst_access_mask: AccessFlags,
    )
        ensures
            final(self).rec == (CommandRecording {
                commands: Ghost(
                    old(self).rec.commands@.push(
                        spec_memory_barrier_cmd(
                            src_stage_mask,
                            dst_stage_mask,
                            src_access_mask,
                            dst_access_mask,
                        ),
                    ),
                ),
                ..old(self).rec
            }),
            final(self).pass_compat == old(self).pass_compat,
            final(self).subpass == old(self).subpass,
    {
        self.rec.memory_barrier(src_stage_mask, dst_stage_mask, src_access_mask, dst_access_mask)
    }

    /// A shortcut for a single whole-image barrier.
    pub fn image_barrier(
        &mut self,
        image: &Image,
        src_stage_mask: PipelineStageFlags,
        dst_stage_mask: PipelineStageFlags,
        src_access_mask: AccessFlags,
        dst_access_mask: AccessFlags,
        old_layout: ImageLayout,
        new_layout: ImageLayout,
    )
        ensures
            final(self).rec == (CommandRecording {
                commands: Ghost(
                    old(self).rec.commands@.push(
                        spec_image_barrier_cmd(
                            image.inner.handle,
                            src_stage_mask,
                            dst_stage_mask,
                            src_access_mask,
                            dst_access_mask,
                            old_layout,
                            new_layout,
                        ),
                    ),
                ),
                ..old(self).rec
            }),
            final(self).pass_compat == old(self).pass_compat,
            final(self).subpass == old(self).subpass,
    {
        self.rec.image_barrier(
            image,
            src_stage_mask,
            dst_stage_mask,
            src_access_mask,
            dst_access_mask,
            old_layout,
            new_layout,
        )
    }
}

} // verus!
