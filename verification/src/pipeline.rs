use vstd::prelude::*;

use crate::descriptor_set::spec_layout_eq;
use crate::descriptor_set::DescriptorSetLayout;
use crate::device::Device;
use crate::enums::ShaderStageFlags;
use crate::enums::SHADER_STAGE_COMPUTE;
use crate::error::Error;
use crate::render_pass::AttachmentKey;
use crate::render_pass::RenderPass;
use crate::shader::ShaderModule;
use crate::types::PushConstantRange;

verus! {

/// The shader of one pipeline stage.
#[derive(Clone, Copy, Debug, PartialEq, Eq, Structural)]
pub struct PipelineShaderStageCreateInfo {
    pub stage: ShaderStageFlags,
    /// The handle of the shader module.
    pub module: u64,
}

impl PipelineShaderStageCreateInfo {
    /// A compute stage running `module`.
    pub fn compute(module: &ShaderModule) -> (r: Self)
        ensures
            r.stage.0 == SHADER_STAGE_COMPUTE,
            r.module == module.handle,
    {
        PipelineShaderStageCreateInfo {
            stage: ShaderStageFlags(SHADER_STAGE_COMPUTE),
            module: module.handle,
        }
    }
}

/// The descriptor-set signature a pipeline expects, with the
/// push-constant ranges its stages may read.
#[derive(Debug)]
pub struct PipelineLayout {
    pub handle: u64,
    /// The identity of the owning device.
    pub device: u64,
    /// The set layouts the pipeline expects, by set index.
    pub layouts: Vec<DescriptorSetLayout>,
    /// The declared push-constant ranges.
    pub push_constant_ranges: Vec<PushConstantRange>,
    /// The device's push-constant byte limit, fixed at creation.
    pub max_push_constants_size: u32,
}

/// True if byte `b` lies in some declared range.
pub open spec fn spec_push_covered(ranges: Seq<PushConstantRange>, b: int) -> bool {
    exists|i: int|
        0 <= i < ranges.len() && (#[trigger] ranges[i]).offset <= b < ranges[i].offset
            + ranges[i].size
}

/// The union of the stage masks of the ranges that intersect the byte
/// window [`lo`, `hi`).
pub open spec fn spec_push_stages(ranges: Seq<PushConstantRange>, lo: int, hi: int) -> u32
    decreases ranges.len(),
{
    if ranges.len() == 0 {
        0u32
    } else {
        (if ranges.last().offset < hi && lo < ranges.last().offset + ranges.last().size {
            ranges.last().stage_flags.0
        } else {
            0u32
        }) | spec_push_stages(ranges.drop_last(), lo, hi)
    }
}

/// True if a push of `size` bytes at `offset` for `stage_flags` is
/// accepted against the layout: the window is nonempty, stays under the
/// push-constant limit, every byte of it is declared by some range, and
/// `stage_flags` names exactly the stages of the ranges the window
/// touches.
pub open spec fn spec_push_ok(
    layout: PipelineLayout,
    stage_flags: ShaderStageFlags,
    offset: u32,
    size: u32,
) -> bool {
    &&& size > 0
    &&& offset + size <= layout.max_push_constants_size
    &&& forall|b: int|
        offset <= b < offset + size ==> spec_push_covered(layout.push_constant_ranges@, b)
    &&& stage_flags.0 == spec_push_stages(
        layout.push_constant_ranges@,
        offset as int,
        offset as int + size as int,
    )
}

impl PipelineLayout {
    /// Creates a pipeline layout over the given set layouts and
    /// push-constant ranges.  Returns `LimitExceeded`, changing nothing,
    /// if there are more set layouts than the device allows or a range
    /// reaches past the push-constant limit, and `InvalidArgument` if a
    /// range is empty.
    #[verifier::loop_isolation(false)]
    pub fn new(
        device: &mut Device,
        set_layouts: &Vec<&DescriptorSetLayout>,
        push_constant_ranges: &Vec<PushConstantRange>,
    ) -> (r: Result<PipelineLayout, Error>)
        requires
            forall|i: int|
                0 <= i < set_layouts.len() ==> (#[trigger] set_layouts[i]).device == old(
                    device,
                ).id,
        ensures
            r is Ok <==> set_layouts.len() <= old(device).limits.max_bound_descriptor_sets && (
            forall|i: int|
                0 <= i < push_constant_ranges.len() ==> (
                #[trigger] push_constant_ranges[i]).offset + push_constant_ranges[i].size <= old(
                    device,
                ).limits.max_push_constants_size) && (forall|i: int|
                0 <= i < push_constant_ranges.len() ==> (#[trigger] push_constant_ranges[i]).size
                    != 0),
            r is Err && r->Err_0 == Error::LimitExceeded <==> set_layouts.len() > old(
                device,
            ).limits.max_bound_descriptor_sets || exists|i: int|
                0 <= i < push_constant_ranges.len() && (#[trigger] push_constant_ranges[i]).offset
                    + push_constant_ranges[i].size > old(device).limits.max_push_constants_size,
            r is Err && r->Err_0 == Error::InvalidArgument <==> !(set_layouts.len() > old(
                device,
            ).limits.max_bound_descriptor_sets || exists|i: int|
                0 <= i < push_constant_ranges.len() && (#[trigger] push_constant_ranges[i]).offset
                    + push_constant_ranges[i].size > old(device).limits.max_push_constants_size)
                && exists|i: int|
                0 <= i < push_constant_ranges.len() && (#[trigger] push_constant_ranges[i]).size
                    == 0,
            r is Err ==> *final(device) == *old(device),
            r is Ok ==> {
                let l = r->Ok_0;
                &&& l.device == old(device).id
                &&& l.layouts.len() == set_layouts.len()
                &&& forall|i: int|
                    0 <= i < set_layouts.len() ==> spec_layout_eq(
                        #[trigger] l.layouts[i],
                        *set_layouts[i],
                    )
                &&& l.push_constant_ranges@ == push_constant_ranges@
                &&& l.max_push_constants_size == old(device).limits.max_push_constants_size
            },
            crate::device::spec_device_after_mint(*old(device), *final(device)),
    {
        let lim = device.limits();
        if set_layouts.len() as u64 > lim.max_bound_descriptor_sets as u64 {
            return Err(Error::LimitExceeded);
        }
        let mut i: usize = 0;
        while i < push_constant_ranges.len()
            invariant
                i <= push_constant_ranges.len(),
                forall|j: int|
                    0 <= j < i ==> (#[trigger] push_constant_ranges[j]).offset
                        + push_constant_ranges[j].size <= lim.max_push_constants_size,
            decreases push_constant_ranges.len() - i,
        {
            let rng = push_constant_ranges[i];
            if rng.offset as u64 + rng.size as u64 > lim.max_push_constants_size as u64 {
                return Err(Error::LimitExceeded);
            }
            i = i + 1;
        }
        let mut i: usize = 0;
        while i < push_constant_ranges.len()
            invariant
                i <= push_constant_ranges.len(),
                forall|j: int| 0 <= j < i ==> (#[trigger] push_constant_ranges[j]).size != 0,
            decreases push_constant_ranges.len() - i,
        {
            if push_constant_ranges[i].size == 0 {
                return Err(Error::InvalidArgument);
            }
            i = i + 1;
        }
        let mut layouts: Vec<DescriptorSetLayout> = Vec::new();
        let mut i: usize = 0;
        while i < set_layouts.len()
            invariant
                i <= set_layouts.len(),
                layouts.len() == i,
                forall|j: int|
                    0 <= j < i ==> spec_layout_eq(#[trigger] layouts[j], *set_layouts[j]),
            decreases set_layouts.len() - i,
        {
            layouts.push(set_layouts[i].duplicate());
            i = i + 1;
        }
        let handle = device.fresh_handle();
        Ok(
            PipelineLayout {
                handle,
                device: device.id,
                layouts,
                push_constant_ranges: crate::types::copy_vec(push_constant_ranges),
                max_push_constants_size: lim.max_push_constants_size,
            },
        )
    }

    /// The raw handle of the layout.
    pub fn handle(&self) -> (r: u64)
        ensures
            r == self.handle,
    {
        self.handle
    }

    /// The set layouts the pipeline expects, by set index.
    pub fn layouts(&self) -> (r: &Vec<DescriptorSetLayout>)
        ensures
            r == &self.layouts,
    {
        &self.layouts
    }

    /// An equivalent copy of the layout.
    pub fn duplicate(&self) -> (r: Self)
        ensures
            r.handle == self.handle,
            r.device == self.device,
            r.layouts.len() == self.layouts.len(),
            forall|i: int|
                0 <= i < self.layouts.len() ==> spec_layout_eq(
                    #[trigger] r.layouts[i],
                    self.layouts[i],
                ),
            r.push_constant_ranges@ == self.push_constant_ranges@,
            r.max_push_constants_size == self.max_push_constants_size,
    {
        let mut layouts: Vec<DescriptorSetLayout> = Vec::new();
        let mut i: usize = 0;
        while i < self.layouts.len()
            invariant
                i <= self.layouts.len(),
                layouts.len() == i,
                forall|j: int|
                    0 <= j < i ==> spec_layout_eq(#[trigger] layouts[j], self.layouts[j]),
            decreases self.layouts.len() - i,
        {
            layouts.push(self.layouts[i].duplicate());
            i = i + 1;
        }
        PipelineLayout {
            handle: self.handle,
            device: self.device,
            layouts,
            push_constant_ranges: crate::types::copy_vec(&self.push_constant_ranges),
            max_push_constants_size: self.max_push_constants_size,
        }
    }

    /// Checks a push of `size` bytes at `offset` for `stage_flags`
    /// against the declared ranges.
    #[verifier::loop_isolation(false)]
    pub fn bounds_check_push_constants(
        &self,
        stage_flags: ShaderStageFlags,
        offset: u32,
        size: u32,
    ) -> (r: bool)
        ensures
            r == spec_push_ok(*self, stage_flags, offset, size),
    {
        if size == 0 {
            return false;
        }
        if offset as u64 + size as u64 > self.max_push_constants_size as u64 {
            return false;
        }
        let end: u32 = offset + size;
        let mut b: u32 = offset;
        while b < end
            invariant
                offset <= b <= end,
                forall|c: int|
                    offset <= c < b ==> spec_push_covered(self.push_constant_ranges@, c),
            decreases end - b,
        {
            let mut covered = false;
            let mut i: usize = 0;
            while i < self.push_constant_ranges.len()
                invariant
                    i <= self.push_constant_ranges.len(),
                    covered ==> spec_push_covered(self.push_constant_ranges@, b as int),
                    !covered ==> forall|j: int|
                        0 <= j < i ==> !((#[trigger] self.push_constant_ranges[j]).offset
                            <= (b as int) && (b as int) < self.push_constant_ranges[j].offset
                            + self.push_constant_ranges[j].size),
                decreases self.push_constant_ranges.len() - i,
            {
                let rng = self.push_constant_ranges[i];
                if rng.offset <= b && (b as u64) < rng.offset as u64 + rng.size as u64 {
                    covered = true;
                }
                i = i + 1;
            }
            if !covered {
                proof {
                    assert(!spec_push_covered(self.push_constant_ranges@, b as int)) by {
                        if spec_push_covered(self.push_constant_ranges@, b as int) {
                            let j = choose|j: int|
                                0 <= j < self.push_constant_ranges@.len() && (
                                #[trigger] self.push_constant_ranges@[j]).offset <= (b as int)
                                    && (b as int) < self.push_constant_ranges@[j].offset
                                    + self.push_constant_ranges@[j].size;
                            assert(!((#[trigger] self.push_constant_ranges[j]).offset <= (
                            b as int) && (b as int) < self.push_constant_ranges[j].offset
                                + self.push_constant_ranges[j].size));
                        }
                    }
                }
                return false;
            }
            b = b + 1;
        }
        let mut stages: u32 = 0;
        let mut i: usize = 0;
        while i < self.push_constant_ranges.len()
            invariant
                i <= self.push_constant_ranges.len(),
                stages == spec_push_stages(
                    self.push_constant_ranges@.subrange(0, i as int),
                    offset as int,
                    offset as int + size as int,
                ),
            decreases self.push_constant_ranges.len() - i,
        {
            let rng = self.push_constant_ranges[i];
            let ghost pre = self.push_constant_ranges@.subrange(0, i as int);
            let ghost post = self.push_constant_ranges@.subrange(0, i as int + 1);
            proof {
                assert(post.drop_last() =~= pre);
            }
            let contribution: u32 = if (rng.offset as u64) < offset as u64 + size as u64 && (
            offset as u64) < rng.offset as u64 + rng.size as u64 {
                rng.stage_flags.0
            } else {
                0
            };
            let ghost pre_stages: u32 = stages;
            stages = stages | contribution;
            proof {
                let c = contribution;
                let p = pre_stages;
                assert(p | c == c | p) by (bit_vector);
            }
            i = i + 1;
        }
        proof {
            assert(self.push_constant_ranges@.subrange(
                0,
                self.push_constant_ranges@.len() as int,
            ) =~= self.push_constant_ranges@);
        }
        stages == stage_flags.0
    }
}

/// The render-pass association of a graphics pipeline: the pass
/// compatibility key and the subpass the pipeline draws in.
#[derive(Debug)]
pub struct RenderPassTag {
    pub compat: Vec<AttachmentKey>,
    pub subpass: u64,
}

/// A compiled, immutable program with the descriptor-set signature it
/// expects.  A graphics pipeline carries the render pass it draws in; a
/// compute pipeline carries none.
#[derive(Debug)]
pub struct Pipeline {
    pub handle: u64,
    /// The identity of the owning device.
    pub device: u64,
    /// The signature the pipeline expects bound.
    pub layout: PipelineLayout,
    /// The render-pass association, for graphics pipelines.
    pub render_pass: Option<RenderPassTag>,
}

impl Pipeline {
    /// Creates a compute pipeline.  Returns `InvalidArgument`, changing
    /// nothing, if the stage is not a compute stage.
    pub fn new_compute(
        device: &mut Device,
        stage: PipelineShaderStageCreateInfo,
        layout: &PipelineLayout,
    ) -> (r: Result<Pipeline, Error>)
        requires
            layout.device == old(device).id,
        ensures
            r is Ok <==> stage.stage.0 == SHADER_STAGE_COMPUTE,
            r is Err ==> r->Err_0 == Error::InvalidArgument && *final(device) == *old(device),
            r is Ok ==> {
                let p = r->Ok_0;
                &&& p.device == old(device).id
                &&& p.render_pass is None
                &&& p.layout.layouts.len() == layout.layouts.len()
                &&& forall|i: int|
                    0 <= i < layout.layouts.len() ==> spec_layout_eq(
                        #[trigger] p.layout.layouts[i],
                        layout.layouts[i],
                    )
                &&& p.layout.push_constant_ranges@ == layout.push_constant_ranges@
            },
            crate::device::spec_device_after_mint(*old(device), *final(device)),
    {
        if stage.stage.0 != SHADER_STAGE_COMPUTE {
            return Err(Error::InvalidArgument);
        }
        let handle = device.fresh_handle();
        Ok(Pipeline { handle, device: device.id, layout: layout.duplicate(), render_pass: None })
    }

    /// Creates a graphics pipeline drawing in subpass `subpass` of
    /// `render_pass`.  Returns `OutOfBounds`, changing nothing, if the
    /// pass has no such subpass.
    pub fn new_graphics(
        device: &mut Device,
        stages: &Vec<PipelineShaderStageCreateInfo>,
        layout: &PipelineLayout,
        render_pass: &RenderPass,
        subpass: u32,
    ) -> (r: Result<Pipeline, Error>)
        requires
            layout.device == old(device).id,
            render_pass.device == old(device).id,
        ensures
            r is Ok <==> subpass < render_pass.subpasses,
            r is Err ==> r->Err_0 == Error::OutOfBounds && *final(device) == *old(device),
            r is Ok ==> {
                let p = r->Ok_0;
                &&& p.device == old(device).id
                &&& p.render_pass is Some
                &&& p.render_pass->0.compat@ == render_pass.compat@
                &&& p.render_pass->0.subpass == subpass
                &&& p.layout.layouts.len() == layout.layouts.len()
                &&& forall|i: int|
                    0 <= i < layout.layouts.len() ==> spec_layout_eq(
                        #[trigger] p.layout.layouts[i],
                        layout.layouts[i],
                    )
                &&& p.layout.push_constant_ranges@ == layout.push_constant_ranges@
            },
            crate::device::spec_device_after_mint(*old(device), *final(device)),
    {
        let _ = stages;
        if subpass as u64 >= render_pass.subpasses {
            return Err(Error::OutOfBounds);
        }
        let handle = device.fresh_handle();
        Ok(
            Pipeline {
                handle,
                device: device.id,
                layout: layout.duplicate(),
                render_pass: Some(
                    RenderPassTag { compat: render_pass.compat_key(), subpass: subpass as u64 },
                ),
            },
        )
    }

    /// The raw handle of the pipeline.
    pub fn handle(&self) -> (r: u64)
        ensures
            r == self.handle,
    {
        self.handle
    }

    /// The signature the pipeline expects bound.
    pub fn layout(&self) -> (r: &PipelineLayout)
        ensures
            r == &self.layout,
    {
        &self.layout
    }

    /// True if the pipeline draws inside a render pass.
    pub fn is_graphics(&self) -> (r: bool)
        ensures
            r == (self.render_pass is Some),
    {
        match &self.render_pass {
            Some(_) => true,
            None => false,
        }
    }

    /// True if the pipeline may draw in subpass `subpass` of `pass`: it
    /// was made for a compatible pass and that very subpass.
    pub fn is_compatible_with(&self, pass: &RenderPass, subpass: u64) -> (r: bool)
        ensures
            r == (self.render_pass is Some && self.render_pass->0.compat@ == pass.compat@
                && self.render_pass->0.subpass == subpass),
    {
        match &self.render_pass {
            Some(tag) => crate::render_pass::attachment_keys_eq(&tag.compat, &pass.compat)
                && tag.subpass == subpass,
            None => false,
        }
    }
}

} // verus!
