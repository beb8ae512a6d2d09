use vstd::prelude::*;

use crate::enums::Bool;
use crate::enums::BufferUsageFlags;
use crate::enums::ComponentSwizzle;
use crate::enums::DescriptorType;
use crate::enums::Filter;
use crate::enums::ImageAspectFlags;
use crate::enums::ImageCreateFlags;
use crate::enums::ImageType;
use crate::enums::ImageUsageFlags;
use crate::enums::InstanceCreateFlags;
use crate::enums::MemoryPropertyFlags;
use crate::enums::QueueFlags;
use crate::enums::SampleCount;
use crate::enums::ShaderStageFlags;
use crate::enums::MEMORY_PROPERTY_HOST_VISIBLE;
use crate::enums::PhysicalDeviceType;

verus! {

/// A width, height and depth in texels.
#[derive(Clone, Copy, Debug, PartialEq, Eq, Structural)]
pub struct Extent3D {
    pub width: u32,
    pub height: u32,
    pub depth: u32,
}

/// A signed position in texels.
#[derive(Clone, Copy, Debug, PartialEq, Eq, Structural)]
pub struct Offset3D {
    pub x: i32,
    pub y: i32,
    pub z: i32,
}

/// A width and height in pixels.
#[derive(Clone, Copy, Debug, PartialEq, Eq, Structural)]
pub struct Extent2D {
    pub width: u32,
    pub height: u32,
}

/// A signed position in pixels.
#[derive(Clone, Copy, Debug, PartialEq, Eq, Structural)]
pub struct Offset2D {
    pub x: i32,
    pub y: i32,
}

/// An axis-aligned rectangle.
#[derive(Clone, Copy, Debug, PartialEq, Eq, Structural)]
pub struct Rect2D {
    pub offset: Offset2D,
    pub extent: Extent2D,
}

/// A viewport transform.  Its coordinates are fractional in the native
/// encoding; this crate carries them as the raw words of that encoding.
#[derive(Clone, Copy, Debug, PartialEq, Eq, Structural)]
pub struct Viewport {
    pub x_bits: u32,
    pub y_bits: u32,
    pub width_bits: u32,
    pub height_bits: u32,
    pub min_depth_bits: u32,
    pub max_depth_bits: u32,
}

/// One memory type a physical device offers.
#[derive(Clone, Copy, Debug, PartialEq, Eq, Structural)]
pub struct MemoryType {
    pub property_flags: MemoryPropertyFlags,
    pub heap_index: u32,
}

/// One memory heap a physical device offers.
#[derive(Clone, Copy, Debug, PartialEq, Eq, Structural)]
pub struct MemoryHeap {
    pub size: u64,
    pub flags: u32,
}

/// The memory types and heaps a physical device offers.
#[derive(Debug)]
pub struct PhysicalDeviceMemoryProperties {
    pub memory_types: Vec<MemoryType>,
    pub memory_heaps: Vec<MemoryHeap>,
}

/// What a resource needs of the memory it is bound to.
#[derive(Clone, Copy, Debug, PartialEq, Eq, Structural)]
pub struct MemoryRequirements {
    /// Bytes of memory the resource needs.
    pub size: u64,
    /// Required alignment of the bind offset, a power of two.
    pub alignment: u64,
    /// Bit `i` is set if memory type `i` may back the resource.
    pub memory_type_bits: u32,
}

impl MemoryRequirements {
    /// True if bit `i` of `bits` is set.
    pub open spec fn spec_bit_set(bits: u32, i: u32) -> bool {
        bits & (1u32 << i) != 0
    }

    /// Removes every host-visible memory type of `props` from the
    /// permitted set.
    pub fn clear_host_visible_types(&mut self, props: &PhysicalDeviceMemoryProperties)
        ensures
            final(self).size == old(self).size,
            final(self).alignment == old(self).alignment,
            forall|i: u32|
                i < 32 ==> (Self::spec_bit_set(final(self).memory_type_bits, i) <==> (
                Self::spec_bit_set(old(self).memory_type_bits, i) && !(i < props.memory_types.len()
                    && props.memory_types[i as int].property_flags.0 & MEMORY_PROPERTY_HOST_VISIBLE
                    != 0))),
    {
        let orig: u32 = self.memory_type_bits;
        let mut bits: u32 = orig;
        let mut i: usize = 0;
        while i < props.memory_types.len() && i < 32
            invariant
                i <= 32,
                forall|j: u32| #![trigger Self::spec_bit_set(orig, j)]
                    j < i ==> (Self::spec_bit_set(bits, j) <==> (Self::spec_bit_set(orig, j) && !(j
                        < props.memory_types.len() && props.memory_types[j as int].property_flags.0
                        & MEMORY_PROPERTY_HOST_VISIBLE != 0))),
                forall|j: u32| #![trigger Self::spec_bit_set(orig, j)]
                    i <= j < 32 ==> (Self::spec_bit_set(bits, j) <==> Self::spec_bit_set(orig, j)),
            decreases 32 - i,
        {
            let host_visible = props.memory_types[i].property_flags.0 & MEMORY_PROPERTY_HOST_VISIBLE
                != 0;
            let ghost before: u32 = bits;
            if host_visible {
                let mask: u32 = 1u32 << (i as u32);
                bits = bits & !mask;
            }
            proof {
                let iu = i as u32;
                assert forall|j: u32| j < 32 implies (Self::spec_bit_set(bits, j) <==> (
                Self::spec_bit_set(before, j) && !(j == iu && host_visible))) by {
                    if host_visible {
                        let b = before;
                        assert((b & !(1u32 << iu)) & (1u32 << j) == (if j == iu {
                            0u32
                        } else {
                            b & (1u32 << j)
                        })) by (bit_vector)
                            requires
                                j < 32 && iu < 32,
                        ;
                    }
                }
                assert forall|j: u32| j < iu + 1 implies (Self::spec_bit_set(bits, j) <==> (
                Self::spec_bit_set(orig, j) && !(j < props.memory_types.len()
                    && props.memory_types[j as int].property_flags.0 & MEMORY_PROPERTY_HOST_VISIBLE
                    != 0))) by {
                    assert(Self::spec_bit_set(bits, j) <==> (Self::spec_bit_set(before, j) && !(j
                        == iu && host_visible)));
                    if j < iu {
                        assert(Self::spec_bit_set(before, j) <==> (Self::spec_bit_set(orig, j)
                            && !(j < props.memory_types.len()
                            && props.memory_types[j as int].property_flags.0
                            & MEMORY_PROPERTY_HOST_VISIBLE != 0)));
                    } else {
                        assert(Self::spec_bit_set(before, j) <==> Self::spec_bit_set(orig, j));
                    }
                }
            }
            i = i + 1;
        }
        self.memory_type_bits = bits;
    }
}

/// The numeric limits a device reports.
#[derive(Clone, Copy, Debug, PartialEq, Eq, Structural)]
pub struct PhysicalDeviceLimits {
    pub max_image_dimension_1d: u32,
    pub max_image_dimension_2d: u32,
    pub max_image_dimension_3d: u32,
    pub max_image_dimension_cube: u32,
    pub max_image_array_layers: u32,
    pub max_memory_allocation_count: u32,
    pub max_sampler_allocation_count: u32,
    pub max_uniform_buffer_range: u32,
    pub max_storage_buffer_range: u32,
    pub max_push_constants_size: u32,
    pub max_bound_descriptor_sets: u32,
    pub max_framebuffer_width: u32,
    pub max_framebuffer_height: u32,
    pub max_framebuffer_layers: u32,
}

/// The optional features a device can enable.
#[derive(Clone, Copy, Debug, PartialEq, Eq, Structural)]
pub struct PhysicalDeviceFeatures {
    /// Out-of-bounds shader accesses are defined when enabled.
    pub robust_buffer_access: Bool,
}

impl PhysicalDeviceFeatures {
    /// All features disabled.
    pub fn none() -> (r: Self)
        ensures
            r.robust_buffer_access is False,
    {
        PhysicalDeviceFeatures { robust_buffer_access: Bool::False }
    }
}

/// The fixed description of a physical device.
#[derive(Clone, Copy, Debug, PartialEq, Eq, Structural)]
pub struct PhysicalDeviceProperties {
    pub device_type: PhysicalDeviceType,
    pub limits: PhysicalDeviceLimits,
}

/// One queue family a physical device offers.
#[derive(Clone, Copy, Debug, PartialEq, Eq, Structural)]
pub struct QueueFamilyProperties {
    pub queue_flags: QueueFlags,
    pub queue_count: u32,
}

/// Parameters of instance creation.
#[derive(Clone, Copy, Debug, PartialEq, Eq, Structural)]
pub struct InstanceCreateInfo {
    pub flags: InstanceCreateFlags,
}

impl InstanceCreateInfo {
    /// The default parameters.
    pub fn new() -> (r: Self)
        ensures
            r.flags.0 == 0,
    {
        InstanceCreateInfo { flags: InstanceCreateFlags(0) }
    }
}

/// A request for queues of one family.
#[derive(Clone, Copy, Debug, PartialEq, Eq, Structural)]
pub struct DeviceQueueCreateInfo {
    pub queue_family_index: u32,
    /// How many queues of the family to create.
    pub queue_count: u32,
}

/// Parameters of device creation.
#[derive(Debug)]
pub struct DeviceCreateInfo {
    pub queue_create_infos: Vec<DeviceQueueCreateInfo>,
    pub enabled_features: Option<PhysicalDeviceFeatures>,
}

/// Parameters of buffer creation.
#[derive(Clone, Copy, Debug, PartialEq, Eq, Structural)]
pub struct BufferCreateInfo {
    /// Length of the buffer in bytes.
    pub size: u64,
    /// The usages the buffer must permit.
    pub usage: BufferUsageFlags,
}

/// Parameters of image creation.
#[derive(Clone, Copy, Debug, PartialEq, Eq, Structural)]
pub struct ImageCreateInfo {
    pub flags: ImageCreateFlags,
    pub image_type: ImageType,
    pub format: crate::enums::Format,
    pub extent: Extent3D,
    pub mip_levels: u32,
    pub array_layers: u32,
    pub samples: SampleCount,
    pub usage: ImageUsageFlags,
}

impl ImageCreateInfo {
    /// A one-texel two-dimensional color image; a base to adjust.
    pub fn new() -> (r: Self)
        ensures
            r.image_type.0 == crate::enums::IMAGE_TYPE_2D,
            r.extent == (Extent3D { width: 1, height: 1, depth: 1 }),
            r.mip_levels == 1,
            r.array_layers == 1,
            r.flags.0 == 0,
            r.samples.0 == crate::enums::SAMPLE_COUNT_1,
            r.format.0 == crate::enums::FORMAT_R8G8B8A8_SRGB,
            r.usage.0 == 0,
    {
        ImageCreateInfo {
            flags: ImageCreateFlags(0),
            image_type: ImageType(crate::enums::IMAGE_TYPE_2D),
            format: crate::enums::Format(crate::enums::FORMAT_R8G8B8A8_SRGB),
            extent: Extent3D { width: 1, height: 1, depth: 1 },
            mip_levels: 1,
            array_layers: 1,
            samples: SampleCount(crate::enums::SAMPLE_COUNT_1),
            usage: ImageUsageFlags(0),
        }
    }
}

/// The layers of one mip level a transfer touches.
#[derive(Clone, Copy, Debug, PartialEq, Eq, Structural)]
pub struct ImageSubresourceLayers {
    pub aspect_mask: ImageAspectFlags,
    pub mip_level: u32,
    pub base_array_layer: u32,
    pub layer_count: u32,
}

impl ImageSubresourceLayers {
    /// The color aspect of the first layer of the base mip level.
    pub fn base_color() -> (r: Self)
        ensures
            r.mip_level == 0,
            r.base_array_layer == 0,
            r.layer_count == 1,
            r.aspect_mask.0 == crate::enums::IMAGE_ASPECT_COLOR,
    {
        ImageSubresourceLayers {
            aspect_mask: ImageAspectFlags(crate::enums::IMAGE_ASPECT_COLOR),
            mip_level: 0,
            base_array_layer: 0,
            layer_count: 1,
        }
    }
}

/// The mip levels and layers an operation touches.
#[derive(Clone, Copy, Debug, PartialEq, Eq, Structural)]
pub struct ImageSubresourceRange {
    pub aspect_mask: ImageAspectFlags,
    pub base_mip_level: u32,
    pub level_count: u32,
    pub base_array_layer: u32,
    pub layer_count: u32,
}

/// One region of a buffer-to-buffer copy.
#[derive(Clone, Copy, Debug, PartialEq, Eq, Structural)]
pub struct BufferCopy {
    pub src_offset: u64,
    pub dst_offset: u64,
    pub size: u64,
}

/// One region of a copy between a buffer and an image.
#[derive(Clone, Copy, Debug, PartialEq, Eq, Structural)]
pub struct BufferImageCopy {
    pub buffer_offset: u64,
    pub buffer_row_length: u32,
    pub buffer_image_height: u32,
    pub image_subresource: ImageSubresourceLayers,
    pub image_offset: Offset3D,
    pub image_extent: Extent3D,
}

/// One region of a scaled image-to-image copy.  The two offsets of each
/// image bound the copied box.
#[derive(Clone, Copy, Debug, PartialEq, Eq, Structural)]
pub struct ImageBlit {
    pub src_subresource: ImageSubresourceLayers,
    pub src_offset_min: Offset3D,
    pub src_offset_max: Offset3D,
    pub dst_subresource: ImageSubresourceLayers,
    pub dst_offset_min: Offset3D,
    pub dst_offset_max: Offset3D,
}

/// A clear color, held as the four raw words of the texel encoding.
#[derive(Clone, Copy, Debug, PartialEq, Eq, Structural)]
pub struct ClearColorValue(pub u32, pub u32, pub u32, pub u32);

/// A clear value of an attachment, in raw encoding.
#[derive(Clone, Copy, Debug, PartialEq, Eq, Structural)]
pub enum ClearValue {
    Color(ClearColorValue),
    DepthStencil { depth_bits: u32, stencil: u32 },
}

/// A range of push-constant bytes visible to a set of stages.
#[derive(Clone, Copy, Debug, PartialEq, Eq, Structural)]
pub struct PushConstantRange {
    pub stage_flags: ShaderStageFlags,
    pub offset: u32,
    pub size: u32,
}

/// How many descriptors of one type a pool can hand out.
#[derive(Clone, Copy, Debug, PartialEq, Eq, Structural)]
pub struct DescriptorPoolSize {
    pub descriptor_type: DescriptorType,
    pub descriptor_count: u32,
}

/// A remapping of the color channels of an image view.
#[derive(Clone, Copy, Debug, PartialEq, Eq, Structural)]
pub struct ComponentMapping {
    pub r: ComponentSwizzle,
    pub g: ComponentSwizzle,
    pub b: ComponentSwizzle,
    pub a: ComponentSwizzle,
}

/// Parameters of sampler creation.
#[derive(Clone, Copy, Debug, PartialEq, Eq, Structural)]
pub struct SamplerCreateInfo {
    pub mag_filter: Filter,
    pub min_filter: Filter,
}

impl SamplerCreateInfo {
    /// Nearest-neighbour filtering in both directions.
    pub fn nearest() -> (r: Self)
        ensures
            r.mag_filter.0 == crate::enums::FILTER_NEAREST,
            r.min_filter.0 == crate::enums::FILTER_NEAREST,
    {
        SamplerCreateInfo {
            mag_filter: Filter(crate::enums::FILTER_NEAREST),
            min_filter: Filter(crate::enums::FILTER_NEAREST),
        }
    }
}

/// Copies a vector of copyable values.
pub fn copy_vec<T: Copy>(v: &Vec<T>) -> (r: Vec<T>)
    ensures
        r@ == v@,
{
    let mut r: Vec<T> = Vec::new();
    let mut i: usize = 0;
    while i < v.len()
        invariant
            i <= v.len(),
            r@ == v@.subrange(0, i as int),
        decreases v.len() - i,
    {
        r.push(v[i]);
        i = i + 1;
    }
    proof {
        assert(r@ =~= v@);
    }
    r
}

impl PhysicalDeviceMemoryProperties {
    /// An equal copy of the description.
    pub fn duplicate(&self) -> (r: Self)
        ensures
            r.memory_types@ == self.memory_types@,
            r.memory_heaps@ == self.memory_heaps@,
    {
        PhysicalDeviceMemoryProperties {
            memory_types: copy_vec(&self.memory_types),
            memory_heaps: copy_vec(&self.memory_heaps),
        }
    }
}

} // verus!
