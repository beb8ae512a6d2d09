use vstd::prelude::*;

verus! {

/// A boolean as the driver interface encodes it.
#[derive(Clone, Copy, Debug, PartialEq, Eq, Structural)]
pub enum Bool {
    False,
    True,
}

impl Bool {
    /// The native spelling of a Rust boolean.
    pub fn as_bool(self) -> (r: bool)
        ensures
            r == (self is True),
    {
        match self {
            Bool::True => true,
            Bool::False => false,
        }
    }

    /// The value that encodes `b`.
    pub fn of_bool(b: bool) -> (r: Bool)
        ensures
            (r is True) == b,
    {
        if b {
            Bool::True
        } else {
            Bool::False
        }
    }
}

// Buffer usage bits.
pub const BUFFER_USAGE_TRANSFER_SRC: u32 = 0x1;

pub const BUFFER_USAGE_TRANSFER_DST: u32 = 0x2;

pub const BUFFER_USAGE_UNIFORM_TEXEL_BUFFER: u32 = 0x4;

pub const BUFFER_USAGE_STORAGE_TEXEL_BUFFER: u32 = 0x8;

pub const BUFFER_USAGE_UNIFORM_BUFFER: u32 = 0x10;

pub const BUFFER_USAGE_STORAGE_BUFFER: u32 = 0x20;

pub const BUFFER_USAGE_INDEX_BUFFER: u32 = 0x40;

pub const BUFFER_USAGE_VERTEX_BUFFER: u32 = 0x80;

pub const BUFFER_USAGE_INDIRECT_BUFFER: u32 = 0x100;

/// The buffer usages that permit arbitrary indexed access from a shader:
/// uniform, storage, index and vertex buffers.
pub const BUFFER_USAGE_INDEXABLE: u32 = 0xf0;

/// Allowed usages of a buffer, as a bitmask.
#[derive(Clone, Copy, Debug, PartialEq, Eq, Structural)]
pub struct BufferUsageFlags(pub u32);

impl BufferUsageFlags {
    /// The empty mask.
    pub fn empty() -> (r: Self)
        ensures
            r.0 == 0,
    {
        BufferUsageFlags(0)
    }

    /// True if no bit is set.
    pub fn is_empty(self) -> (r: bool)
        ensures
            r == (self.0 == 0),
    {
        self.0 == 0
    }

    /// True if every bit of `other` is set in `self`.
    pub fn contains(self, other: Self) -> (r: bool)
        ensures
            r == (self.0 & other.0 == other.0),
    {
        self.0 & other.0 == other.0
    }

    /// True if some bit of `other` is set in `self`.
    pub fn intersects(self, other: Self) -> (r: bool)
        ensures
            r == (self.0 & other.0 != 0),
    {
        self.0 & other.0 != 0
    }

    /// The union of the two masks.
    pub fn union(self, other: Self) -> (r: Self)
        ensures
            r.0 == self.0 | other.0,
    {
        BufferUsageFlags(self.0 | other.0)
    }

    /// True if the usage permits arbitrary indexed access from a shader.
    pub fn indexable(self) -> (r: bool)
        ensures
            r == (self.0 & BUFFER_USAGE_INDEXABLE != 0),
    {
        self.0 & BUFFER_USAGE_INDEXABLE != 0
    }
}

// Image usage bits.
pub const IMAGE_USAGE_TRANSFER_SRC: u32 = 0x1;

pub const IMAGE_USAGE_TRANSFER_DST: u32 = 0x2;

pub const IMAGE_USAGE_SAMPLED: u32 = 0x4;

pub const IMAGE_USAGE_STORAGE: u32 = 0x8;

pub const IMAGE_USAGE_COLOR_ATTACHMENT: u32 = 0x10;

pub const IMAGE_USAGE_DEPTH_STENCIL_ATTACHMENT: u32 = 0x20;

pub const IMAGE_USAGE_TRANSIENT_ATTACHMENT: u32 = 0x40;

pub const IMAGE_USAGE_INPUT_ATTACHMENT: u32 = 0x80;

/// The image usages that permit arbitrary indexed access from a shader.
pub const IMAGE_USAGE_INDEXABLE: u32 = 0x8;

/// Allowed usages of an image, as a bitmask.
#[derive(Clone, Copy, Debug, PartialEq, Eq, Structural)]
pub struct ImageUsageFlags(pub u32);

impl ImageUsageFlags {
    /// The empty mask.
    pub fn empty() -> (r: Self)
        ensures
            r.0 == 0,
    {
        ImageUsageFlags(0)
    }

    /// True if no bit is set.
    pub fn is_empty(self) -> (r: bool)
        ensures
            r == (self.0 == 0),
    {
        self.0 == 0
    }

    /// True if every bit of `other` is set in `self`.
    pub fn contains(self, other: Self) -> (r: bool)
        ensures
            r == (self.0 & other.0 == other.0),
    {
        self.0 & other.0 == other.0
    }

    /// True if some bit of `other` is set in `self`.
    pub fn intersects(self, other: Self) -> (r: bool)
        ensures
            r == (self.0 & other.0 != 0),
    {
        self.0 & other.0 != 0
    }

    /// The union of the two masks.
    pub fn union(self, other: Self) -> (r: Self)
        ensures
            r.0 == self.0 | other.0,
    {
        ImageUsageFlags(self.0 | other.0)
    }

    /// True if the usage permits arbitrary indexed access from a shader.
    pub fn indexable(self) -> (r: bool)
        ensures
            r == (self.0 & IMAGE_USAGE_INDEXABLE != 0),
    {
        self.0 & IMAGE_USAGE_INDEXABLE != 0
    }
}

// Descriptor type codes.
pub const DESCRIPTOR_TYPE_SAMPLER: u32 = 0;

pub const DESCRIPTOR_TYPE_COMBINED_IMAGE_SAMPLER: u32 = 1;

pub const DESCRIPTOR_TYPE_SAMPLED_IMAGE: u32 = 2;

pub const DESCRIPTOR_TYPE_STORAGE_IMAGE: u32 = 3;

pub const DESCRIPTOR_TYPE_UNIFORM_TEXEL_BUFFER: u32 = 4;

pub const DESCRIPTOR_TYPE_STORAGE_TEXEL_BUFFER: u32 = 5;

pub const DESCRIPTOR_TYPE_UNIFORM_BUFFER: u32 = 6;

pub const DESCRIPTOR_TYPE_STORAGE_BUFFER: u32 = 7;

pub const DESCRIPTOR_TYPE_UNIFORM_BUFFER_DYNAMIC: u32 = 8;

pub const DESCRIPTOR_TYPE_STORAGE_BUFFER_DYNAMIC: u32 = 9;

pub const DESCRIPTOR_TYPE_INPUT_ATTACHMENT: u32 = 10;

/// The kind of resource a descriptor slot holds.
#[derive(Clone, Copy, Debug, PartialEq, Eq, Structural)]
pub struct DescriptorType(pub u32);

impl DescriptorType {
    /// The buffer usage bit a buffer written under this descriptor type
    /// must carry, or zero when the type does not take a buffer.
    pub open spec fn spec_required_buffer_usage(self) -> u32 {
        if self.0 == DESCRIPTOR_TYPE_UNIFORM_BUFFER
            || self.0 == DESCRIPTOR_TYPE_UNIFORM_BUFFER_DYNAMIC {
            BUFFER_USAGE_UNIFORM_BUFFER
        } else if self.0 == DESCRIPTOR_TYPE_STORAGE_BUFFER
            || self.0 == DESCRIPTOR_TYPE_STORAGE_BUFFER_DYNAMIC {
            BUFFER_USAGE_STORAGE_BUFFER
        } else if self.0 == DESCRIPTOR_TYPE_UNIFORM_TEXEL_BUFFER {
            BUFFER_USAGE_UNIFORM_TEXEL_BUFFER
        } else if self.0 == DESCRIPTOR_TYPE_STORAGE_TEXEL_BUFFER {
            BUFFER_USAGE_STORAGE_TEXEL_BUFFER
        } else {
            0
        }
    }

    /// True if a buffer with usage `usage` may be written under this
    /// descriptor type.
    pub fn supports_buffer_usage(self, usage: BufferUsageFlags) -> (r: bool)
        ensures
            r == (self.spec_required_buffer_usage() != 0 && usage.0
                & self.spec_required_buffer_usage() != 0),
    {
        let required: u32 = if self.0 == DESCRIPTOR_TYPE_UNIFORM_BUFFER || self.0
            == DESCRIPTOR_TYPE_UNIFORM_BUFFER_DYNAMIC {
            BUFFER_USAGE_UNIFORM_BUFFER
        } else if self.0 == DESCRIPTOR_TYPE_STORAGE_BUFFER || self.0
            == DESCRIPTOR_TYPE_STORAGE_BUFFER_DYNAMIC {
            BUFFER_USAGE_STORAGE_BUFFER
        } else if self.0 == DESCRIPTOR_TYPE_UNIFORM_TEXEL_BUFFER {
            BUFFER_USAGE_UNIFORM_TEXEL_BUFFER
        } else if self.0 == DESCRIPTOR_TYPE_STORAGE_TEXEL_BUFFER {
            BUFFER_USAGE_STORAGE_TEXEL_BUFFER
        } else {
            0
        };
        required != 0 && usage.0 & required != 0
    }

    /// The image usage bit an image written under this descriptor type must
    /// carry, or zero when the type does not take an image.
    pub open spec fn spec_required_image_usage(self) -> u32 {
        if self.0 == DESCRIPTOR_TYPE_SAMPLED_IMAGE || self.0
            == DESCRIPTOR_TYPE_COMBINED_IMAGE_SAMPLER {
            IMAGE_USAGE_SAMPLED
        } else if self.0 == DESCRIPTOR_TYPE_STORAGE_IMAGE {
            IMAGE_USAGE_STORAGE
        } else if self.0 == DESCRIPTOR_TYPE_INPUT_ATTACHMENT {
            IMAGE_USAGE_INPUT_ATTACHMENT
        } else {
            0
        }
    }

    /// True if an image with usage `usage` may be written under this
    /// descriptor type.
    pub fn supports_image_usage(self, usage: ImageUsageFlags) -> (r: bool)
        ensures
            r == (self.spec_required_image_usage() != 0 && usage.0
                & self.spec_required_image_usage() != 0),
    {
        let required: u32 = if self.0 == DESCRIPTOR_TYPE_SAMPLED_IMAGE || self.0
            == DESCRIPTOR_TYPE_COMBINED_IMAGE_SAMPLER {
            IMAGE_USAGE_SAMPLED
        } else if self.0 == DESCRIPTOR_TYPE_STORAGE_IMAGE {
            IMAGE_USAGE_STORAGE
        } else if self.0 == DESCRIPTOR_TYPE_INPUT_ATTACHMENT {
            IMAGE_USAGE_INPUT_ATTACHMENT
        } else {
            0
        };
        required != 0 && usage.0 & required != 0
    }

    /// True if descriptors of this type consume a dynamic offset at bind
    /// time.
    pub fn is_dynamic(self) -> (r: bool)
        ensures
            r == (self.0 == DESCRIPTOR_TYPE_UNIFORM_BUFFER_DYNAMIC || self.0
                == DESCRIPTOR_TYPE_STORAGE_BUFFER_DYNAMIC),
    {
        self.0 == DESCRIPTOR_TYPE_UNIFORM_BUFFER_DYNAMIC || self.0
            == DESCRIPTOR_TYPE_STORAGE_BUFFER_DYNAMIC
    }
}

// Shader stage bits.
pub const SHADER_STAGE_VERTEX: u32 = 0x1;

pub const SHADER_STAGE_FRAGMENT: u32 = 0x10;

pub const SHADER_STAGE_COMPUTE: u32 = 0x20;

pub const SHADER_STAGE_ALL_GRAPHICS: u32 = 0x1f;

/// The shader stages a binding or push-constant range is visible to.
#[derive(Clone, Copy, Debug, PartialEq, Eq, Structural)]
pub struct ShaderStageFlags(pub u32);

impl ShaderStageFlags {
    /// The empty mask.
    pub fn empty() -> (r: Self)
        ensures
            r.0 == 0,
    {
        ShaderStageFlags(0)
    }

    /// True if no bit is set.
    pub fn is_empty(self) -> (r: bool)
        ensures
            r == (self.0 == 0),
    {
        self.0 == 0
    }

    /// True if every bit of `other` is set in `self`.
    pub fn contains(self, other: Self) -> (r: bool)
        ensures
            r == (self.0 & other.0 == other.0),
    {
        self.0 & other.0 == other.0
    }

    /// True if some bit of `other` is set in `self`.
    pub fn intersects(self, other: Self) -> (r: bool)
        ensures
            r == (self.0 & other.0 != 0),
    {
        self.0 & other.0 != 0
    }

    /// The union of the two masks.
    pub fn union(self, other: Self) -> (r: Self)
        ensures
            r.0 == self.0 | other.0,
    {
        ShaderStageFlags(self.0 | other.0)
    }
}

// Pipeline bind points.
pub const PIPELINE_BIND_POINT_GRAPHICS: u32 = 0;

pub const PIPELINE_BIND_POINT_COMPUTE: u32 = 1;

/// The bind point a pipeline or descriptor set binds to.
#[derive(Clone, Copy, Debug, PartialEq, Eq, Structural)]
pub struct PipelineBindPoint(pub u32);

// Format codes.
pub const FORMAT_UNDEFINED: u32 = 0;

pub const FORMAT_R8_UNORM: u32 = 9;

pub const FORMAT_R8G8B8A8_UNORM: u32 = 37;

pub const FORMAT_R8G8B8A8_SRGB: u32 = 43;

pub const FORMAT_B8G8R8A8_SRGB: u32 = 50;

pub const FORMAT_R32G32B32A32_UINT: u32 = 107;

pub const FORMAT_D16_UNORM: u32 = 124;

/// The encoding of a texel.
#[derive(Clone, Copy, Debug, PartialEq, Eq, Structural)]
pub struct Format(pub u32);

impl Format {
    /// Bytes one texel of this format occupies.
    pub open spec fn spec_texel_size(self) -> u64 {
        if self.0 == FORMAT_R8_UNORM {
            1
        } else if self.0 == FORMAT_D16_UNORM {
            2
        } else if self.0 == FORMAT_R32G32B32A32_UINT {
            16
        } else {
            4
        }
    }

    /// Bytes one texel of this format occupies.
    #[verifier::when_used_as_spec(spec_texel_size)]
    pub fn texel_size(self) -> (r: u64)
        ensures
            r == self.spec_texel_size(),
    {
        if self.0 == FORMAT_R8_UNORM {
            1
        } else if self.0 == FORMAT_D16_UNORM {
            2
        } else if self.0 == FORMAT_R32G32B32A32_UINT {
            16
        } else {
            4
        }
    }
}

// Image layout codes.
pub const IMAGE_LAYOUT_UNDEFINED: u32 = 0;

pub const IMAGE_LAYOUT_GENERAL: u32 = 1;

pub const IMAGE_LAYOUT_COLOR_ATTACHMENT_OPTIMAL: u32 = 2;

pub const IMAGE_LAYOUT_SHADER_READ_ONLY_OPTIMAL: u32 = 5;

pub const IMAGE_LAYOUT_TRANSFER_SRC_OPTIMAL: u32 = 6;

pub const IMAGE_LAYOUT_TRANSFER_DST_OPTIMAL: u32 = 7;

/// The layout image memory is kept in between operations.
#[derive(Clone, Copy, Debug, PartialEq, Eq, Structural)]
pub struct ImageLayout(pub u32);

// Memory property bits.
pub const MEMORY_PROPERTY_DEVICE_LOCAL: u32 = 0x1;

pub const MEMORY_PROPERTY_HOST_VISIBLE: u32 = 0x2;

pub const MEMORY_PROPERTY_HOST_COHERENT: u32 = 0x4;

/// Properties of a memory type, as a bitmask.
#[derive(Clone, Copy, Debug, PartialEq, Eq, Structural)]
pub struct MemoryPropertyFlags(pub u32);

impl MemoryPropertyFlags {
    /// True if every bit of `other` is set in `self`.
    pub fn contains(self, other: Self) -> (r: bool)
        ensures
            r == (self.0 & other.0 == other.0),
    {
        self.0 & other.0 == other.0
    }
}

// Index element widths.
pub const INDEX_TYPE_UINT16: u32 = 0;

pub const INDEX_TYPE_UINT32: u32 = 1;

/// The width of one element of an index buffer.
#[derive(Clone, Copy, Debug, PartialEq, Eq, Structural)]
pub struct IndexType(pub u32);

// Pipeline stage bits.
pub const PIPELINE_STAGE_TOP_OF_PIPE: u32 = 0x1;

pub const PIPELINE_STAGE_TRANSFER: u32 = 0x1000;

pub const PIPELINE_STAGE_ALL_COMMANDS: u32 = 0x10000;

/// Stages of the device pipeline, as a bitmask.
#[derive(Clone, Copy, Debug, PartialEq, Eq, Structural)]
pub struct PipelineStageFlags(pub u32);

/// Kinds of memory access, as a bitmask.
#[derive(Clone, Copy, Debug, PartialEq, Eq, Structural)]
pub struct AccessFlags(pub u32);

/// Modifiers of an execution dependency, as a bitmask.
#[derive(Clone, Copy, Debug, PartialEq, Eq, Structural)]
pub struct DependencyFlags(pub u32);

/// Aspects of an image a range selects, as a bitmask.
#[derive(Clone, Copy, Debug, PartialEq, Eq, Structural)]
pub struct ImageAspectFlags(pub u32);

pub const IMAGE_ASPECT_COLOR: u32 = 0x1;

// Sample counts.
pub const SAMPLE_COUNT_1: u32 = 0x1;

pub const SAMPLE_COUNT_4: u32 = 0x4;

/// The number of samples of a multisampled image.
#[derive(Clone, Copy, Debug, PartialEq, Eq, Structural)]
pub struct SampleCount(pub u32);

/// Supported sample counts, as a bitmask.
#[derive(Clone, Copy, Debug, PartialEq, Eq, Structural)]
pub struct SampleCountFlags(pub u32);

/// A filter for scaled image copies.
#[derive(Clone, Copy, Debug, PartialEq, Eq, Structural)]
pub struct Filter(pub u32);

pub const FILTER_NEAREST: u32 = 0;

pub const FILTER_LINEAR: u32 = 1;

// Image kinds.
pub const IMAGE_TYPE_1D: u32 = 0;

pub const IMAGE_TYPE_2D: u32 = 1;

pub const IMAGE_TYPE_3D: u32 = 2;

/// The dimensionality of an image.
#[derive(Clone, Copy, Debug, PartialEq, Eq, Structural)]
pub struct ImageType(pub u32);

/// Creation modifiers of an image, as a bitmask.
#[derive(Clone, Copy, Debug, PartialEq, Eq, Structural)]
pub struct ImageCreateFlags(pub u32);

pub const IMAGE_CREATE_CUBE_COMPATIBLE: u32 = 0x10;

impl ImageCreateFlags {
    /// True if some bit of `other` is set in `self`.
    pub fn intersects(self, other: Self) -> (r: bool)
        ensures
            r == (self.0 & other.0 != 0),
    {
        self.0 & other.0 != 0
    }
}

// Queue capability bits.
pub const QUEUE_GRAPHICS: u32 = 0x1;

pub const QUEUE_COMPUTE: u32 = 0x2;

pub const QUEUE_TRANSFER: u32 = 0x4;

/// Capabilities of a queue family, as a bitmask.
#[derive(Clone, Copy, Debug, PartialEq, Eq, Structural)]
pub struct QueueFlags(pub u32);

/// Kinds of physical device.
#[derive(Clone, Copy, Debug, PartialEq, Eq, Structural)]
pub struct PhysicalDeviceType(pub u32);

pub const PHYSICAL_DEVICE_TYPE_OTHER: u32 = 0;

pub const PHYSICAL_DEVICE_TYPE_DISCRETE_GPU: u32 = 2;

// Passive creation-flag masks, kept for interface fidelity.
#[derive(Clone, Copy, Debug, PartialEq, Eq, Structural)]
pub struct InstanceCreateFlags(pub u32);

#[derive(Clone, Copy, Debug, PartialEq, Eq, Structural)]
pub struct DeviceCreateFlags(pub u32);

#[derive(Clone, Copy, Debug, PartialEq, Eq, Structural)]
pub struct DeviceQueueCreateFlags(pub u32);

#[derive(Clone, Copy, Debug, PartialEq, Eq, Structural)]
pub struct FenceCreateFlags(pub u32);

#[derive(Clone, Copy, Debug, PartialEq, Eq, Structural)]
pub struct SemaphoreCreateFlags(pub u32);

#[derive(Clone, Copy, Debug, PartialEq, Eq, Structural)]
pub struct ImageViewCreateFlags(pub u32);

#[derive(Clone, Copy, Debug, PartialEq, Eq, Structural)]
pub struct CommandPoolCreateFlags(pub u32);

#[derive(Clone, Copy, Debug, PartialEq, Eq, Structural)]
pub struct CommandPoolResetFlags(pub u32);

#[derive(Clone, Copy, Debug, PartialEq, Eq, Structural)]
pub struct CommandBufferUsageFlags(pub u32);

pub const COMMAND_BUFFER_USAGE_ONE_TIME_SUBMIT: u32 = 0x1;

pub const COMMAND_BUFFER_USAGE_RENDER_PASS_CONTINUE: u32 = 0x2;

/// The level of a command buffer: primary or secondary.
#[derive(Clone, Copy, Debug, PartialEq, Eq, Structural)]
pub struct CommandBufferLevel(pub u32);

pub const COMMAND_BUFFER_LEVEL_PRIMARY: u32 = 0;

pub const COMMAND_BUFFER_LEVEL_SECONDARY: u32 = 1;

/// What an attachment holds when a render pass begins reading it.
#[derive(Clone, Copy, Debug, PartialEq, Eq, Structural)]
pub struct AttachmentLoadOp(pub u32);

pub const ATTACHMENT_LOAD_OP_LOAD: u32 = 0;

pub const ATTACHMENT_LOAD_OP_CLEAR: u32 = 1;

pub const ATTACHMENT_LOAD_OP_DONT_CARE: u32 = 2;

/// What happens to an attachment when a render pass ends.
#[derive(Clone, Copy, Debug, PartialEq, Eq, Structural)]
pub struct AttachmentStoreOp(pub u32);

pub const ATTACHMENT_STORE_OP_STORE: u32 = 0;

pub const ATTACHMENT_STORE_OP_DONT_CARE: u32 = 1;

#[derive(Clone, Copy, Debug, PartialEq, Eq, Structural)]
pub struct AttachmentDescriptionFlags(pub u32);

#[derive(Clone, Copy, Debug, PartialEq, Eq, Structural)]
pub struct SubpassDescriptionFlags(pub u32);

#[derive(Clone, Copy, Debug, PartialEq, Eq, Structural)]
pub struct FramebufferCreateFlags(pub u32);

#[derive(Clone, Copy, Debug, PartialEq, Eq, Structural)]
pub struct RenderPassCreateFlags(pub u32);

/// How concurrent queue access to a resource is arbitrated.
#[derive(Clone, Copy, Debug, PartialEq, Eq, Structural)]
pub struct SharingMode(pub u32);

/// The shape an image view presents its image as.
#[derive(Clone, Copy, Debug, PartialEq, Eq, Structural)]
pub struct ImageViewType(pub u32);

pub const IMAGE_VIEW_TYPE_2D: u32 = 1;

/// A remapping of one color channel of an image view.
#[derive(Clone, Copy, Debug, PartialEq, Eq, Structural)]
pub struct ComponentSwizzle(pub u32);

} // verus!
