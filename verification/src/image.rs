use vstd::prelude::*;

use crate::buffer::compute_type_bits;
use crate::buffer::spec_type_allowed;
use crate::device::Device;
use crate::enums::Format;
use crate::enums::ImageUsageFlags;
use crate::enums::IMAGE_CREATE_CUBE_COMPATIBLE;
use crate::enums::IMAGE_TYPE_1D;
use crate::enums::IMAGE_TYPE_2D;
use crate::enums::IMAGE_TYPE_3D;
use crate::enums::IMAGE_USAGE_INDEXABLE;
use crate::error::Error;
use crate::memory::DeviceMemory;
use crate::render_pass::attachment_keys_eq;
use crate::render_pass::AttachmentKey;
use crate::render_pass::RenderPass;
use crate::types::ComponentMapping;
use crate::types::Extent3D;
use crate::types::ImageCreateInfo;
use crate::types::ImageSubresourceRange;
use crate::types::MemoryRequirements;
use crate::types::Offset3D;
use crate::types::PhysicalDeviceLimits;

verus! {

/// The alignment the model requires of every image binding.
pub const IMAGE_ALIGNMENT: u64 = 4096;

/// An image with no memory.  Binding memory turns it into an [`Image`];
/// a failed bind hands it back unchanged.
#[derive(Clone, Copy, Debug, PartialEq, Eq, Structural)]
pub struct ImageWithoutMemory {
    pub handle: u64,
    pub format: Format,
    pub samples: crate::enums::SampleCount,
    pub extent: Extent3D,
    pub mip_levels: u32,
    pub array_layers: u32,
    pub usage: ImageUsageFlags,
    /// The identity of the owning device.
    pub device: u64,
}

/// An image with memory bound to it.
#[derive(Clone, Copy, Debug, PartialEq, Eq, Structural)]
pub struct Image {
    pub inner: ImageWithoutMemory,
    /// The handle of the allocation the image is bound to.
    pub memory: u64,
    /// The byte offset of the binding inside the allocation.
    pub memory_offset: u64,
}

/// True if the dimensions of `info` stay inside the device limits.
pub open spec fn spec_image_within_limits(info: ImageCreateInfo, limits: PhysicalDeviceLimits) -> bool {
    let max_dim = spec_max3(info.extent.width, info.extent.height, info.extent.depth);
    &&& !(info.image_type.0 == IMAGE_TYPE_1D && max_dim > limits.max_image_dimension_1d)
    &&& !(info.image_type.0 == IMAGE_TYPE_2D && info.flags.0 & IMAGE_CREATE_CUBE_COMPATIBLE == 0
        && max_dim > limits.max_image_dimension_2d)
    &&& !(info.image_type.0 == IMAGE_TYPE_2D && info.flags.0 & IMAGE_CREATE_CUBE_COMPATIBLE != 0
        && max_dim > limits.max_image_dimension_cube)
    &&& !(info.image_type.0 == IMAGE_TYPE_3D && max_dim > limits.max_image_dimension_3d)
    &&& info.array_layers <= limits.max_image_array_layers
}

/// The largest of three values.
pub open spec fn spec_max3(a: u32, b: u32, c: u32) -> u32 {
    if a >= b && a >= c {
        a
    } else if b >= c {
        b
    } else {
        c
    }
}

/// One axis of the extent of a mip level: the base axis halved `mip`
/// times, rounding down.
pub open spec fn spec_mip_axis(axis: u32, mip: u32) -> u32 {
    if mip >= 32 {
        0
    } else {
        axis >> mip
    }
}

impl ImageWithoutMemory {
    /// Creates an image of the shape of `info`.  Returns `LimitExceeded`,
    /// changing nothing, if a dimension exceeds the device limits.
    pub fn new(device: &mut Device, info: &ImageCreateInfo) -> (r: Result<
        ImageWithoutMemory,
        Error,
    >)
        ensures
            r is Ok <==> spec_image_within_limits(*info, old(device).limits),
            r is Err ==> r->Err_0 == Error::LimitExceeded && *final(device) == *old(device),
            r is Ok ==> {
                let m = r->Ok_0;
                &&& m.format == info.format
                &&& m.samples == info.samples
                &&& m.extent == info.extent
                &&& m.mip_levels == info.mip_levels
                &&& m.array_layers == info.array_layers
                &&& m.usage == info.usage
                &&& m.device == old(device).id
            },
            crate::device::spec_device_after_mint(*old(device), *final(device)),
    {
        let a = info.extent.width;
        let b = info.extent.height;
        let c = info.extent.depth;
        let max_dim = if a >= b && a >= c {
            a
        } else if b >= c {
            b
        } else {
            c
        };
        let lim = device.limits();
        let cube = info.flags.0 & IMAGE_CREATE_CUBE_COMPATIBLE != 0;
        if (info.image_type.0 == IMAGE_TYPE_1D && max_dim > lim.max_image_dimension_1d) || (
        info.image_type.0 == IMAGE_TYPE_2D && !cube && max_dim > lim.max_image_dimension_2d) || (
        info.image_type.0 == IMAGE_TYPE_2D && cube && max_dim > lim.max_image_dimension_cube) || (
        info.image_type.0 == IMAGE_TYPE_3D && max_dim > lim.max_image_dimension_3d)
            || info.array_layers > lim.max_image_array_layers {
            return Err(Error::LimitExceeded);
        }
        let handle = device.fresh_handle();
        Ok(
            ImageWithoutMemory {
                handle,
                format: info.format,
                samples: info.samples,
                extent: info.extent,
                mip_levels: info.mip_levels,
                array_layers: info.array_layers,
                usage: info.usage,
                device: device.id,
            },
        )
    }

    /// The raw handle of the image.
    pub fn handle(&self) -> (r: u64)
        ensures
            r == self.handle,
    {
        self.handle
    }

    /// The raw handle of the image, from exclusive access.
    pub fn handle_mut(&mut self) -> (r: u64)
        ensures
            *final(self) == *old(self),
            r == old(self).handle,
    {
        self.handle
    }

    /// The identity of the owning device.
    pub fn device(&self) -> (r: u64)
        ensures
            r == self.device,
    {
        self.device
    }

    /// The allowed image usages.
    pub fn usage(&self) -> (r: ImageUsageFlags)
        ensures
            r == self.usage,
    {
        self.usage
    }

    /// The format of the image.
    pub fn format(&self) -> (r: Format)
        ensures
            r == self.format,
    {
        self.format
    }

    /// The extent of the given mip level: each axis of the base extent
    /// halved once per level, rounding down.
    pub fn extent(&self, mip_level: u32) -> (r: Extent3D)
        ensures
            r.width == spec_mip_axis(self.extent.width, mip_level),
            r.height == spec_mip_axis(self.extent.height, mip_level),
            r.depth == spec_mip_axis(self.extent.depth, mip_level),
    {
        if mip_level >= 32 {
            Extent3D { width: 0, height: 0, depth: 0 }
        } else {
            Extent3D {
                width: self.extent.width >> mip_level,
                height: self.extent.height >> mip_level,
                depth: self.extent.depth >> mip_level,
            }
        }
    }

    /// True if `layer_count` layers starting at `base_array_layer` lie
    /// inside the image's array layers.
    pub fn array_bounds_check(&self, base_array_layer: u32, layer_count: u32) -> (r: bool)
        ensures
            r == (base_array_layer + layer_count <= self.array_layers),
    {
        self.array_layers >= base_array_layer && self.array_layers - base_array_layer
            >= layer_count
    }

    /// True if `offset` points into the given mip level of the image.
    pub open spec fn spec_offset_in_bounds(self, mip_level: u32, offset: Offset3D) -> bool {
        &&& mip_level < self.mip_levels
        &&& offset.x >= 0
        &&& offset.y >= 0
        &&& offset.z >= 0
        &&& offset.x <= spec_mip_axis(self.extent.width, mip_level)
        &&& offset.y <= spec_mip_axis(self.extent.height, mip_level)
        &&& offset.z <= spec_mip_axis(self.extent.depth, mip_level)
    }

    /// True if the given point lies within the image at the given mip
    /// level.
    pub fn offset_bounds_check(&self, mip_level: u32, offset: Offset3D) -> (r: bool)
        ensures
            r == self.spec_offset_in_bounds(mip_level, offset),
    {
        let ex = self.extent(mip_level);
        mip_level < self.mip_levels && (offset.x >= 0 && offset.y >= 0 && offset.z >= 0)
            && ex.width >= offset.x as u32 && ex.height >= offset.y as u32 && ex.depth
            >= offset.z as u32
    }

    /// True if the box of `extent` texels at `offset` lies within the
    /// image at the given mip level.
    pub open spec fn spec_box_in_bounds(self, mip_level: u32, offset: Offset3D, extent: Extent3D) -> bool {
        &&& self.spec_offset_in_bounds(mip_level, offset)
        &&& offset.x + extent.width <= spec_mip_axis(self.extent.width, mip_level)
        &&& offset.y + extent.height <= spec_mip_axis(self.extent.height, mip_level)
        &&& offset.z + extent.depth <= spec_mip_axis(self.extent.depth, mip_level)
    }

    /// True if the given box lies within the image at the given mip level.
    pub fn bounds_check(&self, mip_level: u32, offset: Offset3D, extent: Extent3D) -> (r: bool)
        ensures
            r == self.spec_box_in_bounds(mip_level, offset, extent),
    {
        let ex = self.extent(mip_level);
        self.offset_bounds_check(mip_level, offset) && ex.width - offset.x as u32 >= extent.width
            && ex.height - offset.y as u32 >= extent.height && ex.depth - offset.z as u32
            >= extent.depth
    }

    /// What the image needs of memory it is bound to.  Host-visible
    /// memory types are withheld when the image's usage permits arbitrary
    /// indexed access and robust buffer access is not enabled.
    pub fn memory_requirements(&self, device: &Device) -> (r: MemoryRequirements)
        requires
            device.id == self.device,
        ensures
            r.size == spec_image_byte_size(*self),
            r.alignment == IMAGE_ALIGNMENT,
            forall|i: u32|
                i < 32 ==> (MemoryRequirements::spec_bit_set(r.memory_type_bits, i)
                    <==> spec_type_allowed(
                    *device,
                    self.usage.0 & IMAGE_USAGE_INDEXABLE != 0,
                    i,
                )),
    {
        let bits = compute_type_bits(device, self.usage.indexable());
        let size = image_byte_size(self);
        MemoryRequirements { size, alignment: IMAGE_ALIGNMENT, memory_type_bits: bits }
    }

    /// Allocates memory fit for this image from the given memory type and
    /// binds the image to it.  Returns `InvalidArgument`, handing the
    /// image back unchanged, if the type may not back this image, and
    /// `LimitExceeded` if the device's allocation limit is reached.
    pub fn allocate_memory(self, device: &mut Device, memory_type_index: u32) -> (r: Result<
        (Image, DeviceMemory),
        (Error, ImageWithoutMemory),
    >)
        requires
            device.id == self.device,
        ensures
            r is Ok <==> spec_type_allowed(
                *old(device),
                self.usage.0 & IMAGE_USAGE_INDEXABLE != 0,
                memory_type_index,
            ) && old(device).memory_allocation_count < old(
                device,
            ).limits.max_memory_allocation_count,
            r is Err ==> r->Err_0.1 == self && *final(device) == *old(device),
            r is Err && r->Err_0.0 == Error::InvalidArgument <==> !spec_type_allowed(
                *old(device),
                self.usage.0 & IMAGE_USAGE_INDEXABLE != 0,
                memory_type_index,
            ),
            r is Err && r->Err_0.0 == Error::LimitExceeded <==> spec_type_allowed(
                *old(device),
                self.usage.0 & IMAGE_USAGE_INDEXABLE != 0,
                memory_type_index,
            ) && old(device).memory_allocation_count >= old(
                device,
            ).limits.max_memory_allocation_count,
            r is Ok ==> {
                let (m, mem) = r->Ok_0;
                &&& m.inner == self
                &&& m.memory == mem.handle
                &&& m.memory_offset == 0
                &&& mem.device == old(device).id
                &&& mem.memory_type_index == memory_type_index
                &&& mem.bound_resources == 1
                &&& crate::device::spec_device_after_memory_alloc(*old(device), *final(device))
            },
    {
        let reqs = self.memory_requirements(device);
        let allowed = memory_type_index < 32 && reqs.memory_type_bits & (1u32
            << memory_type_index) != 0;
        proof {
            if memory_type_index < 32 {
                assert(MemoryRequirements::spec_bit_set(reqs.memory_type_bits, memory_type_index)
                    <==> spec_type_allowed(
                    *device,
                    self.usage.0 & IMAGE_USAGE_INDEXABLE != 0,
                    memory_type_index,
                ));
            }
            assert(allowed == spec_type_allowed(
                *device,
                self.usage.0 & IMAGE_USAGE_INDEXABLE != 0,
                memory_type_index,
            ));
        }
        if !allowed {
            return Err((Error::InvalidArgument, self));
        }
        let mut memory = match DeviceMemory::new(device, reqs.size, memory_type_index) {
            Ok(m) => m,
            Err(e) => {
                return Err((e, self));
            },
        };
        proof {
            assert(spec_type_allowed(
                *device,
                self.usage.0 & IMAGE_USAGE_INDEXABLE != 0,
                memory.memory_type_index,
            ));
        }
        match Image::new(self, device, &mut memory, 0) {
            Ok(m) => Ok((m, memory)),
            Err((e, inner)) => Err((e, inner)),
        }
    }
}

/// The bytes the whole image occupies: texel size times extent times
/// array layers, capped at the largest representable value.
pub open spec fn spec_image_byte_size(image: ImageWithoutMemory) -> u64 {
    let total = image.format.spec_texel_size() * image.extent.width * image.extent.height
        * image.extent.depth * image.array_layers;
    if total > u64::MAX {
        u64::MAX
    } else {
        total as u64
    }
}

/// Computes the byte size of a whole image, capped at the largest
/// representable value.
fn image_byte_size(image: &ImageWithoutMemory) -> (r: u64)
    ensures
        r == spec_image_byte_size(*image),
{
    let texel = image.format.texel_size();
    let w = image.extent.width as u64;
    let h = image.extent.height as u64;
    let d = image.extent.depth as u64;
    let layers = image.array_layers as u64;
    if w == 0 || h == 0 || d == 0 || layers == 0 {
        proof {
            assert(texel * w * h * d * layers == 0) by (nonlinear_arith)
                requires
                    w == 0 || h == 0 || d == 0 || layers == 0,
            ;
        }
        return 0;
    }
    let a = match texel.checked_mul(w) {
        Some(v) => v,
        None => {
            proof {
                lemma_capped_product(texel as int * w, h as int, d as int, layers as int);
            }
            return u64::MAX;
        },
    };
    let b = match a.checked_mul(h) {
        Some(v) => v,
        None => {
            proof {
                lemma_capped_product(a as int * h, d as int, layers as int, 1);
            }
            return u64::MAX;
        },
    };
    let c = match b.checked_mul(d) {
        Some(v) => v,
        None => {
            proof {
                lemma_capped_product(b as int * d, layers as int, 1, 1);
            }
            return u64::MAX;
        },
    };
    match c.checked_mul(layers) {
        Some(v) => v,
        None => u64::MAX,
    }
}

/// A product already over the cap stays over it under further positive
/// factors.
proof fn lemma_capped_product(base: int, f1: int, f2: int, f3: int)
    requires
        base > u64::MAX,
        f1 >= 1,
        f2 >= 1,
        f3 >= 1,
    ensures
        base * f1 * f2 * f3 > u64::MAX,
{
    assert(base * f1 >= base) by (nonlinear_arith)
        requires
            base > 0 && f1 >= 1,
    ;
    assert(base * f1 * f2 >= base * f1) by (nonlinear_arith)
        requires
            base * f1 > 0 && f2 >= 1,
    ;
    assert(base * f1 * f2 * f3 >= base * f1 * f2) by (nonlinear_arith)
        requires
            base * f1 * f2 > 0 && f3 >= 1,
    ;
}

impl Image {
    /// The full outcome a bind admits: success exactly when the
    /// allocation's type may back the image and the aligned bytes fit;
    /// success yields the bound image and counts one more bound
    /// resource on the allocation; failure is `InvalidArgument` and
    /// hands back the unbound image with the allocation untouched.
    pub open spec fn spec_bind_outcome(
        image: ImageWithoutMemory,
        device: Device,
        memory_before: DeviceMemory,
        memory_after: DeviceMemory,
        offset: u64,
        r: Result<Image, (Error, ImageWithoutMemory)>,
    ) -> bool {
        &&& (r is Ok <==> spec_type_allowed(
            device,
            image.usage.0 & IMAGE_USAGE_INDEXABLE != 0,
            memory_before.memory_type_index,
        ) && offset as int % (IMAGE_ALIGNMENT as int) == 0 && offset + spec_image_byte_size(image)
            <= memory_before.allocation_size)
        &&& (r is Ok ==> r->Ok_0 == (Image {
            inner: image,
            memory: memory_before.handle,
            memory_offset: offset,
        }) && memory_after == (DeviceMemory {
            bound_resources: (memory_before.bound_resources + 1) as u64,
            ..memory_before
        }))
        &&& (r is Err ==> r->Err_0 == (Error::InvalidArgument, image) && memory_after
            == memory_before)
    }

    /// Binds `image` to `memory` at `offset`, counting the binding on
    /// the allocation.  On failure the unbound image is handed back
    /// unchanged and the allocation is untouched, so the caller can
    /// retry with different memory.
    pub fn new(
        image: ImageWithoutMemory,
        device: &Device,
        memory: &mut DeviceMemory,
        offset: u64,
    ) -> (r: Result<Image, (Error, ImageWithoutMemory)>)
        requires
            device.id == image.device,
            old(memory).device == image.device,
            old(memory).bound_resources < u64::MAX,
        ensures
            Image::spec_bind_outcome(image, *device, *old(memory), *final(memory), offset, r),
    {
        let reqs = image.memory_requirements(device);
        proof {
            if memory.memory_type_index < 32 {
                assert(MemoryRequirements::spec_bit_set(
                    reqs.memory_type_bits,
                    memory.memory_type_index,
                ) <==> spec_type_allowed(
                    *device,
                    image.usage.0 & IMAGE_USAGE_INDEXABLE != 0,
                    memory.memory_type_index,
                ));
            }
        }
        if !memory.check(offset, reqs) {
            return Err((Error::InvalidArgument, image));
        }
        let bound = Image { inner: image, memory: memory.handle(), memory_offset: offset };
        memory.bound_resources = memory.bound_resources + 1;
        Ok(bound)
    }

    /// Destroys the image, releasing its binding on the allocation.
    /// Returns `InvalidArgument`, handing the image back, if the
    /// allocation is not the one the image is bound to.
    pub fn destroy(self, memory: &mut DeviceMemory) -> (r: Result<(), (Error, Image)>)
        ensures
            r is Ok <==> self.memory == old(memory).handle && old(memory).bound_resources > 0,
            r is Err ==> r->Err_0 == (Error::InvalidArgument, self) && *final(memory) == *old(
                memory,
            ),
            r is Ok ==> *final(memory) == (DeviceMemory {
                bound_resources: (old(memory).bound_resources - 1) as u64,
                ..*old(memory)
            }),
    {
        if self.memory != memory.handle || memory.bound_resources == 0 {
            return Err((Error::InvalidArgument, self));
        }
        memory.bound_resources = memory.bound_resources - 1;
        Ok(())
    }

    /// The raw handle of the image.
    pub fn handle(&self) -> (r: u64)
        ensures
            r == self.inner.handle,
    {
        self.inner.handle
    }

    /// The identity of the owning device.
    pub fn device(&self) -> (r: u64)
        ensures
            r == self.inner.device,
    {
        self.inner.device
    }

    /// The allowed image usages.
    pub fn usage(&self) -> (r: ImageUsageFlags)
        ensures
            r == self.inner.usage,
    {
        self.inner.usage
    }

    /// The format of the image.
    pub fn format(&self) -> (r: Format)
        ensures
            r == self.inner.format,
    {
        self.inner.format
    }

    /// The extent of the given mip level.
    pub fn extent(&self, mip_level: u32) -> (r: Extent3D)
        ensures
            r.width == spec_mip_axis(self.inner.extent.width, mip_level),
            r.height == spec_mip_axis(self.inner.extent.height, mip_level),
            r.depth == spec_mip_axis(self.inner.extent.depth, mip_level),
    {
        self.inner.extent(mip_level)
    }

    /// True if `layer_count` layers starting at `base_array_layer` lie
    /// inside the image's array layers.
    pub fn array_bounds_check(&self, base_array_layer: u32, layer_count: u32) -> (r: bool)
        ensures
            r == (base_array_layer + layer_count <= self.inner.array_layers),
    {
        self.inner.array_bounds_check(base_array_layer, layer_count)
    }

    /// True if the given point lies within the image at the given mip
    /// level.
    pub fn offset_bounds_check(&self, mip_level: u32, offset: Offset3D) -> (r: bool)
        ensures
            r == self.inner.spec_offset_in_bounds(mip_level, offset),
    {
        self.inner.offset_bounds_check(mip_level, offset)
    }

    /// True if the given box lies within the image at the given mip
    /// level.
    pub fn bounds_check(&self, mip_level: u32, offset: Offset3D, extent: Extent3D) -> (r: bool)
        ensures
            r == self.inner.spec_box_in_bounds(mip_level, offset, extent),
    {
        self.inner.bounds_check(mip_level, offset, extent)
    }
}

/// A failed bind leaves the callee usable: for every outcome the bind
/// relation admits, an error carries `InvalidArgument` and the unbound
/// image unchanged, and leaves the allocation untouched, so the caller
/// can retry with different memory and the image still reports the
/// same extent, usage and memory requirements as before the attempt.
pub proof fn lemma_bind_failure_leaves_image_usable(
    image: ImageWithoutMemory,
    device: Device,
    memory_before: DeviceMemory,
    memory_after: DeviceMemory,
    offset: u64,
    r: Result<Image, (Error, ImageWithoutMemory)>,
)
    requires
        Image::spec_bind_outcome(image, device, memory_before, memory_after, offset, r),
        r is Err,
    ensures
        r->Err_0.1 == image,
        r->Err_0.0 == Error::InvalidArgument,
        memory_after == memory_before,
{
}

/// Parameters of image view creation.
#[derive(Clone, Copy, Debug, PartialEq, Eq, Structural)]
pub struct ImageViewCreateInfo {
    pub flags: crate::enums::ImageViewCreateFlags,
    pub view_type: crate::enums::ImageViewType,
    pub format: Format,
    pub components: ComponentMapping,
    pub subresource_range: ImageSubresourceRange,
}

impl ImageViewCreateInfo {
    /// A plain two-dimensional color view of the base mip level.
    pub fn plain_2d(format: Format) -> (r: Self)
        ensures
            r.format == format,
    {
        ImageViewCreateInfo {
            flags: crate::enums::ImageViewCreateFlags(0),
            view_type: crate::enums::ImageViewType(crate::enums::IMAGE_VIEW_TYPE_2D),
            format,
            components: ComponentMapping {
                r: crate::enums::ComponentSwizzle(0),
                g: crate::enums::ComponentSwizzle(0),
                b: crate::enums::ComponentSwizzle(0),
                a: crate::enums::ComponentSwizzle(0),
            },
            subresource_range: ImageSubresourceRange {
                aspect_mask: crate::enums::ImageAspectFlags(crate::enums::IMAGE_ASPECT_COLOR),
                base_mip_level: 0,
                level_count: 1,
                base_array_layer: 0,
                layer_count: 1,
            },
        }
    }
}

/// A view of an image, as a descriptor or framebuffer attachment sees it.
#[derive(Clone, Copy, Debug, PartialEq, Eq, Structural)]
pub struct ImageView {
    pub handle: u64,
    /// The image the view reads.
    pub image: Image,
}

impl ImageView {
    /// Creates a view of `image`.
    pub fn new(device: &mut Device, image: &Image, info: &ImageViewCreateInfo) -> (r: Result<
        ImageView,
        Error,
    >)
        requires
            old(device).id == image.inner.device,
        ensures
            r is Ok,
            r->Ok_0.image == *image,
            crate::device::spec_device_after_mint(*old(device), *final(device)),
    {
        let _ = info;
        let handle = device.fresh_handle();
        Ok(ImageView { handle, image: *image })
    }

    /// The raw handle of the view.
    pub fn handle(&self) -> (r: u64)
        ensures
            r == self.handle,
    {
        self.handle
    }

    /// The identity of the owning device.
    pub fn device(&self) -> (r: u64)
        ensures
            r == self.image.inner.device,
    {
        self.image.device()
    }

    /// The image the view reads.
    pub fn image(&self) -> (r: &Image)
        ensures
            r == &self.image,
    {
        &self.image
    }
}

/// The concrete attachments a render pass instance draws into.
#[derive(Debug)]
pub struct Framebuffer {
    pub handle: u64,
    /// The identity of the owning device.
    pub device: u64,
    /// The compatibility key of the pass the framebuffer was made for.
    pub render_pass_compat: Vec<AttachmentKey>,
    /// The handles of the attached views.
    pub attachments: Vec<u64>,
    /// The extent of the framebuffer.
    pub size: Extent3D,
}

impl Framebuffer {
    /// Creates a framebuffer over `attachments` for `render_pass`.
    /// Returns `LimitExceeded` if the size exceeds the device limits, and
    /// `InvalidArgument` if the attachments do not match the pass's
    /// attachment count, formats and sample counts.
    #[verifier::loop_isolation(false)]
    pub fn new(
        device: &mut Device,
        render_pass: &RenderPass,
        attachments: &Vec<ImageView>,
        size: Extent3D,
    ) -> (r: Result<Framebuffer, Error>)
        requires
            old(device).id == render_pass.device,
            forall|k: int|
                0 <= k < attachments.len() ==> #[trigger] attachments[k].image.inner.device == old(
                    device,
                ).id,
        ensures
            r is Err && r->Err_0 == Error::LimitExceeded <==> !(size.width <= old(
                device,
            ).limits.max_framebuffer_width && size.height <= old(device).limits.max_framebuffer_height
                && size.depth <= old(device).limits.max_framebuffer_layers),
            r is Err ==> *final(device) == *old(device),
            r is Ok ==> {
                let f = r->Ok_0;
                &&& f.device == old(device).id
                &&& f.render_pass_compat@ == render_pass.compat@
                &&& f.size == size
            },
            r is Ok ==> crate::device::spec_device_after_mint(*old(device), *final(device)),
            r is Ok <==> (size.width <= old(device).limits.max_framebuffer_width && size.height
                <= old(device).limits.max_framebuffer_height && size.depth <= old(
                device,
            ).limits.max_framebuffer_layers) && attachments.len() == render_pass.compat.len() && (
            forall|k: int|
                0 <= k < attachments.len() ==> #[trigger] attachments[k].image.inner.format
                    == render_pass.compat[k].format && attachments[k].image.inner.samples
                    == render_pass.compat[k].samples),
    {
        let lim = device.limits();
        if size.width > lim.max_framebuffer_width || size.height > lim.max_framebuffer_height
            || size.depth > lim.max_framebuffer_layers {
            return Err(Error::LimitExceeded);
        }
        if attachments.len() != render_pass.compat.len() {
            return Err(Error::InvalidArgument);
        }
        let mut handles: Vec<u64> = Vec::new();
        let mut k: usize = 0;
        while k < attachments.len()
            invariant
                k <= attachments.len(),
                attachments.len() == render_pass.compat.len(),
                handles.len() == k,
                forall|j: int|
                    0 <= j < k ==> #[trigger] attachments[j].image.inner.format
                        == render_pass.compat[j].format,
                forall|j: int|
                    0 <= j < k ==> #[trigger] attachments[j].image.inner.samples
                        == render_pass.compat[j].samples,
            decreases attachments.len() - k,
        {
            if attachments[k].image.format() != render_pass.compat[k].format
                || attachments[k].image.inner.samples != render_pass.compat[k].samples {
                return Err(Error::InvalidArgument);
            }
            handles.push(attachments[k].handle);
            k = k + 1;
        }
        let handle = device.fresh_handle();
        Ok(
            Framebuffer {
                handle,
                device: device.id,
                render_pass_compat: render_pass.compat_key(),
                attachments: handles,
                size,
            },
        )
    }

    /// The raw handle of the framebuffer.
    pub fn handle(&self) -> (r: u64)
        ensures
            r == self.handle,
    {
        self.handle
    }

    /// True if this framebuffer may be used with `pass`: it was made for
    /// a pass with the same attachment count, formats and sample counts.
    pub fn is_compatible_with(&self, pass: &RenderPass) -> (r: bool)
        ensures
            r == (self.render_pass_compat@ == pass.compat@),
    {
        attachment_keys_eq(&self.render_pass_compat, &pass.compat)
    }
}

} // verus!
