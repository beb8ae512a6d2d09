use vstd::prelude::*;

use crate::enums::PhysicalDeviceType;
use crate::enums::QueueFlags;
use crate::enums::MEMORY_PROPERTY_DEVICE_LOCAL;
use crate::enums::MEMORY_PROPERTY_HOST_COHERENT;
use crate::enums::MEMORY_PROPERTY_HOST_VISIBLE;
use crate::enums::MemoryPropertyFlags;
use crate::enums::PHYSICAL_DEVICE_TYPE_DISCRETE_GPU;
use crate::enums::QUEUE_COMPUTE;
use crate::enums::QUEUE_GRAPHICS;
use crate::enums::QUEUE_TRANSFER;
use crate::error::Error;
use crate::types::InstanceCreateInfo;
use crate::types::MemoryHeap;
use crate::types::MemoryType;
use crate::types::PhysicalDeviceLimits;
use crate::types::PhysicalDeviceMemoryProperties;
use crate::types::PhysicalDeviceProperties;
use crate::types::QueueFamilyProperties;

verus! {

/// The root object of the interface.  It names the adapters that work can
/// be submitted to and mints the identities of the logical devices opened
/// on them.
#[derive(Debug)]
pub struct Instance {
    pub handle: u64,
    pub next_device_id: u64,
}

/// An adapter: the fixed description against which sizes and requests are
/// validated.
#[derive(Debug)]
pub struct PhysicalDevice {
    pub handle: u64,
    pub instance: u64,
    pub properties: PhysicalDeviceProperties,
    pub memory: PhysicalDeviceMemoryProperties,
    pub queue_families: Vec<QueueFamilyProperties>,
}

/// The limits of the adapter this instance describes.
pub open spec fn adapter_limits() -> PhysicalDeviceLimits {
    PhysicalDeviceLimits {
        max_image_dimension_1d: 4096,
        max_image_dimension_2d: 4096,
        max_image_dimension_3d: 2048,
        max_image_dimension_cube: 4096,
        max_image_array_layers: 256,
        max_memory_allocation_count: 4096,
        max_sampler_allocation_count: 4000,
        max_uniform_buffer_range: 65536,
        max_storage_buffer_range: 0x8000000,
        max_push_constants_size: 128,
        max_bound_descriptor_sets: 4,
        max_framebuffer_width: 4096,
        max_framebuffer_height: 4096,
        max_framebuffer_layers: 256,
    }
}

impl Instance {
    /// Opens the interface.
    pub fn new(info: &InstanceCreateInfo) -> (r: Instance)
        ensures
            r.handle == 1,
            r.next_device_id == 1,
    {
        let _ = info;
        Instance { handle: 1, next_device_id: 1 }
    }

    /// The raw handle of the instance.
    pub fn handle(&self) -> (r: u64)
        ensures
            r == self.handle,
    {
        self.handle
    }

    /// Hands out an identity for a logical device opened on this instance.
    /// Identities grow and never repeat while they stay below the largest
    /// representable value.
    pub fn fresh_device_id(&mut self) -> (r: u64)
        ensures
            r == old(self).next_device_id,
            final(self).next_device_id >= old(self).next_device_id,
            old(self).next_device_id < u64::MAX ==> final(self).next_device_id == old(
                self,
            ).next_device_id + 1,
            final(self).handle == old(self).handle,
    {
        let id = self.next_device_id;
        if self.next_device_id < u64::MAX {
            self.next_device_id = self.next_device_id + 1;
        }
        id
    }

    /// Describes the adapters of this machine.  The model offers one
    /// adapter with two memory types, of which the second is host-visible,
    /// and two queue families.
    pub fn enumerate_physical_devices(&self) -> (r: Result<Vec<PhysicalDevice>, Error>)
        ensures
            r is Ok,
            r->Ok_0.len() == 1,
            r->Ok_0[0].properties.limits == adapter_limits(),
            r->Ok_0[0].instance == self.handle,
            r->Ok_0[0].memory.memory_types.len() == 2,
            r->Ok_0[0].memory.memory_types[0].property_flags.0 == MEMORY_PROPERTY_DEVICE_LOCAL,
            r->Ok_0[0].memory.memory_types[1].property_flags.0 == MEMORY_PROPERTY_HOST_VISIBLE
                | MEMORY_PROPERTY_HOST_COHERENT,
            r->Ok_0[0].queue_families.len() == 2,
            r->Ok_0[0].queue_families[0].queue_count == 2,
            r->Ok_0[0].queue_families[1].queue_count == 1,
    {
        let mut memory_types: Vec<MemoryType> = Vec::new();
        memory_types.push(
            MemoryType { property_flags: MemoryPropertyFlags(MEMORY_PROPERTY_DEVICE_LOCAL), heap_index: 0 },
        );
        memory_types.push(
            MemoryType {
                property_flags: MemoryPropertyFlags(
                    MEMORY_PROPERTY_HOST_VISIBLE | MEMORY_PROPERTY_HOST_COHERENT,
                ),
                heap_index: 1,
            },
        );
        let mut memory_heaps: Vec<MemoryHeap> = Vec::new();
        memory_heaps.push(MemoryHeap { size: 0x40000000, flags: 1 });
        memory_heaps.push(MemoryHeap { size: 0x10000000, flags: 0 });
        let mut queue_families: Vec<QueueFamilyProperties> = Vec::new();
        queue_families.push(
            QueueFamilyProperties {
                queue_flags: QueueFlags(QUEUE_GRAPHICS | QUEUE_COMPUTE | QUEUE_TRANSFER),
                queue_count: 2,
            },
        );
        queue_families.push(
            QueueFamilyProperties { queue_flags: QueueFlags(QUEUE_TRANSFER), queue_count: 1 },
        );
        let adapter = PhysicalDevice {
            handle: 1,
            instance: self.handle,
            properties: PhysicalDeviceProperties {
                device_type: PhysicalDeviceType(PHYSICAL_DEVICE_TYPE_DISCRETE_GPU),
                limits: PhysicalDeviceLimits {
                    max_image_dimension_1d: 4096,
                    max_image_dimension_2d: 4096,
                    max_image_dimension_3d: 2048,
                    max_image_dimension_cube: 4096,
                    max_image_array_layers: 256,
                    max_memory_allocation_count: 4096,
                    max_sampler_allocation_count: 4000,
                    max_uniform_buffer_range: 65536,
                    max_storage_buffer_range: 0x8000000,
                    max_push_constants_size: 128,
                    max_bound_descriptor_sets: 4,
                    max_framebuffer_width: 4096,
                    max_framebuffer_height: 4096,
                    max_framebuffer_layers: 256,
                },
            },
            memory: PhysicalDeviceMemoryProperties { memory_types, memory_heaps },
            queue_families,
        };
        let mut result: Vec<PhysicalDevice> = Vec::new();
        result.push(adapter);
        Ok(result)
    }
}

impl PhysicalDevice {
    /// The raw handle of the adapter.
    pub fn handle(&self) -> (r: u64)
        ensures
            r == self.handle,
    {
        self.handle
    }

    /// The handle of the owning instance.
    pub fn instance(&self) -> (r: u64)
        ensures
            r == self.instance,
    {
        self.instance
    }

    /// The fixed description of the adapter.
    pub fn properties(&self) -> (r: PhysicalDeviceProperties)
        ensures
            r == self.properties,
    {
        self.properties
    }

    /// The memory types and heaps of the adapter.
    pub fn memory_properties(&self) -> (r: &PhysicalDeviceMemoryProperties)
        ensures
            r == &self.memory,
    {
        &self.memory
    }

    /// The queue families of the adapter.
    pub fn queue_family_properties(&self) -> (r: &Vec<QueueFamilyProperties>)
        ensures
            r == &self.queue_families,
    {
        &self.queue_families
    }

    /// An equal copy of the description.
    pub fn duplicate(&self) -> (r: Self)
        ensures
            r.handle == self.handle,
            r.instance == self.instance,
            r.properties == self.properties,
            r.memory.memory_types@ == self.memory.memory_types@,
            r.memory.memory_heaps@ == self.memory.memory_heaps@,
            r.queue_families@ == self.queue_families@,
    {
        PhysicalDevice {
            handle: self.handle,
            instance: self.instance,
            properties: self.properties,
            memory: self.memory.duplicate(),
            queue_families: crate::types::copy_vec(&self.queue_families),
        }
    }
}

} // verus!
