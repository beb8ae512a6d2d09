use maia::buffer::BufferWithoutMemory;
use maia::device::Device;
use maia::enums::Bool;
use maia::enums::BufferUsageFlags;
use maia::enums::ImageUsageFlags;
use maia::enums::MemoryPropertyFlags;
use maia::enums::BUFFER_USAGE_STORAGE_BUFFER;
use maia::enums::IMAGE_USAGE_STORAGE;
use maia::enums::MEMORY_PROPERTY_HOST_VISIBLE;
use maia::image::ImageWithoutMemory;
use maia::instance::Instance;
use maia::types::BufferCreateInfo;
use maia::types::DeviceCreateInfo;
use maia::types::DeviceQueueCreateInfo;
use maia::types::ImageCreateInfo;
use maia::types::InstanceCreateInfo;
use maia::types::PhysicalDeviceFeatures;
use maia::error::VkResult;
use maia::error::OUT_OF_DEVICE_MEMORY_CODE;
use maia::error::OUT_OF_POOL_MEMORY_CODE;

fn device_with_features(features: Option<PhysicalDeviceFeatures>) -> Device {
    let mut instance = Instance::new(&InstanceCreateInfo::new());
    let adapters = instance.enumerate_physical_devices().unwrap();
    let info = DeviceCreateInfo {
        queue_create_infos: vec![DeviceQueueCreateInfo { queue_family_index: 0, queue_count: 1 }],
        enabled_features: features,
    };
    Device::new(&mut instance, &adapters[0], &info).unwrap()
}

fn robust_device() -> Device {
    device_with_features(Some(PhysicalDeviceFeatures { robust_buffer_access: Bool::True }))
}

fn host_visible_type_index(device: &Device) -> u32 {
    let props = device.physical_device().memory_properties();
    let mut found = None;
    for (i, ty) in props.memory_types.iter().enumerate() {
        if ty.property_flags.contains(MemoryPropertyFlags(MEMORY_PROPERTY_HOST_VISIBLE)) {
            found = Some(i as u32);
            break;
        }
    }
    found.unwrap()
}

#[test]
fn buffer_wrong_mem() {
    let mut dev = robust_device();
    let buf = BufferWithoutMemory::new(
        &mut dev,
        &BufferCreateInfo { size: 256, usage: BufferUsageFlags(0) },
    )
    .unwrap();
    assert!(buf.allocate_memory(&mut dev, 31).is_err());
}

#[test]
fn buffer_require_robust() {
    let mut dev = device_with_features(None);
    let buf = BufferWithoutMemory::new(
        &mut dev,
        &BufferCreateInfo { size: 256, usage: BufferUsageFlags(BUFFER_USAGE_STORAGE_BUFFER) },
    )
    .unwrap();
    let host_mem = host_visible_type_index(&dev);
    assert!(buf.allocate_memory(&mut dev, host_mem).is_err());
}

#[test]
fn image_wrong_mem() {
    let mut dev = robust_device();
    let mut info = ImageCreateInfo::new();
    info.extent.width = 64;
    info.extent.height = 64;
    let img = ImageWithoutMemory::new(&mut dev, &info).unwrap();
    assert!(img.allocate_memory(&mut dev, 31).is_err());
}

#[test]
fn image_require_robust() {
    let mut dev = device_with_features(None);
    let mut info = ImageCreateInfo::new();
    info.extent.width = 64;
    info.extent.height = 64;
    info.usage = ImageUsageFlags(IMAGE_USAGE_STORAGE);
    let img = ImageWithoutMemory::new(&mut dev, &info).unwrap();
    let host_mem = host_visible_type_index(&dev);
    assert!(img.allocate_memory(&mut dev, host_mem).is_err());
}

#[test]
fn failed_bind_returns_buffer_unchanged() {
    let mut dev = robust_device();
    let buf = BufferWithoutMemory::new(
        &mut dev,
        &BufferCreateInfo { size: 256, usage: BufferUsageFlags(0) },
    )
    .unwrap();
    let reqs_before = buf.memory_requirements(&dev);
    let (err, returned) = buf.allocate_memory(&mut dev, 31).unwrap_err();
    assert_eq!(err, maia::error::Error::InvalidArgument);
    assert_eq!(returned, buf);
    assert_eq!(returned.memory_requirements(&dev), reqs_before);
}

#[test]
fn successful_bind_keeps_metadata() {
    let mut dev = robust_device();
    let buf = BufferWithoutMemory::new(
        &mut dev,
        &BufferCreateInfo { size: 512, usage: BufferUsageFlags(0) },
    )
    .unwrap();
    let (bound, memory) = buf.allocate_memory(&mut dev, 0).unwrap();
    assert_eq!(bound.len(), 512);
    assert_eq!(memory.len(), 512);
    assert_eq!(memory.memory_type_index, 0);
    assert!(bound.bounds_check(0, 512));
    assert!(!bound.bounds_check(1, 512));
}

#[test]
fn memory_map_bounds() {
    let mut dev = robust_device();
    let memory = maia::memory::DeviceMemory::new(&mut dev, 128, 0).unwrap();
    let (err, memory) = memory.map(64, 128).unwrap_err();
    assert_eq!(err, maia::error::Error::OutOfBounds);
    let mut mapped = memory.map(64, 64).ok().unwrap();
    assert_eq!(mapped.as_slice().len(), 64);
    mapped.write_byte(0, 0xa5);
    assert_eq!(mapped.as_slice()[0], 0xa5);
    let memory = mapped.unmap();
    assert_eq!(memory.len(), 128);
}

#[test]
fn memory_type_index_must_exist() {
    let mut dev = robust_device();
    assert_eq!(
        maia::memory::DeviceMemory::new(&mut dev, 128, 9).unwrap_err(),
        maia::error::Error::OutOfBounds
    );
}

#[test]
fn mip_extents_halve() {
    let mut dev = robust_device();
    let mut info = ImageCreateInfo::new();
    info.extent.width = 512;
    info.extent.height = 256;
    info.mip_levels = 4;
    let img = ImageWithoutMemory::new(&mut dev, &info).unwrap();
    let level2 = img.extent(2);
    assert_eq!(level2.width, 128);
    assert_eq!(level2.height, 64);
    assert_eq!(level2.depth, 0);
    assert!(img.array_bounds_check(0, 1));
    assert!(!img.array_bounds_check(1, 1));
}

#[test]
fn image_limits_enforced() {
    let mut dev = robust_device();
    let mut info = ImageCreateInfo::new();
    info.extent.width = 5000;
    assert_eq!(
        ImageWithoutMemory::new(&mut dev, &info).unwrap_err(),
        maia::error::Error::LimitExceeded
    );
}

#[test]
fn result_codes() {
    assert!(VkResult(0).is_success());
    assert!(VkResult(1).is_success());
    assert!(!VkResult(-1).is_success());
    assert!(VkResult(OUT_OF_DEVICE_MEMORY_CODE).unwrap_or_oom().is_err());
    assert!(VkResult(0).unwrap_or_oom().is_ok());
    assert!(VkResult(OUT_OF_POOL_MEMORY_CODE).unwrap_or_oopm().is_err());
    assert!(VkResult(-1).to_result().is_err());
    assert_eq!(VkResult(-1).to_result().unwrap_err(), maia::error::VkError(-1));
}

#[test]
fn memory_lifetime_tokens() {
    let mut dev = robust_device();
    let buf = BufferWithoutMemory::new(
        &mut dev,
        &BufferCreateInfo { size: 512, usage: BufferUsageFlags(0) },
    )
    .unwrap();
    let (bound, memory) = buf.allocate_memory(&mut dev, 0).unwrap();
    assert_eq!(memory.bound_resources, 1);
    // The allocation cannot be freed while the buffer lives on it.
    let (err, memory) = memory.free(&mut dev).unwrap_err();
    assert_eq!(err, maia::error::Error::SynchronizationError);
    let mut memory = memory;
    bound.destroy(&mut memory).ok().unwrap();
    assert_eq!(memory.bound_resources, 0);
    let count_before = dev.memory_allocation_count;
    memory.free(&mut dev).ok().unwrap();
    assert_eq!(dev.memory_allocation_count, count_before - 1);
}
