use maia::buffer::BufferWithoutMemory;
use maia::command_buffer::CommandPool;
use maia::descriptor_set::update::DescriptorBufferInfo;
use maia::descriptor_set::update::DescriptorImageInfo;
use maia::descriptor_set::update::DescriptorSetUpdateBuilder;
use maia::descriptor_set::DescriptorPool;
use maia::descriptor_set::DescriptorSet;
use maia::descriptor_set::DescriptorSetLayout;
use maia::descriptor_set::DescriptorSetLayoutBinding;
use maia::device::Device;
use maia::enums::Bool;
use maia::enums::BufferUsageFlags;
use maia::enums::DescriptorType;
use maia::enums::ImageLayout;
use maia::enums::ImageUsageFlags;
use maia::enums::PipelineBindPoint;
use maia::enums::ShaderStageFlags;
use maia::enums::BUFFER_USAGE_UNIFORM_BUFFER;
use maia::enums::DESCRIPTOR_TYPE_COMBINED_IMAGE_SAMPLER;
use maia::enums::DESCRIPTOR_TYPE_UNIFORM_BUFFER;
use maia::enums::IMAGE_LAYOUT_SHADER_READ_ONLY_OPTIMAL;
use maia::enums::IMAGE_USAGE_SAMPLED;
use maia::enums::PIPELINE_BIND_POINT_COMPUTE;
use maia::enums::SHADER_STAGE_FRAGMENT;
use maia::error::Error;
use maia::image::ImageView;
use maia::image::ImageViewCreateInfo;
use maia::image::ImageWithoutMemory;
use maia::instance::Instance;
use maia::pipeline::Pipeline;
use maia::pipeline::PipelineLayout;
use maia::pipeline::PipelineShaderStageCreateInfo;
use maia::sampler::Sampler;
use maia::shader::ShaderModule;
use maia::types::BufferCreateInfo;
use maia::types::DescriptorPoolSize;
use maia::types::DeviceCreateInfo;
use maia::types::DeviceQueueCreateInfo;
use maia::types::Extent3D;
use maia::types::ImageCreateInfo;
use maia::types::InstanceCreateInfo;
use maia::types::PhysicalDeviceFeatures;
use maia::types::SamplerCreateInfo;

fn test_device() -> Device {
    let mut instance = Instance::new(&InstanceCreateInfo::new());
    let adapters = instance.enumerate_physical_devices().unwrap();
    let info = DeviceCreateInfo {
        queue_create_infos: vec![DeviceQueueCreateInfo { queue_family_index: 0, queue_count: 1 }],
        enabled_features: Some(PhysicalDeviceFeatures { robust_buffer_access: Bool::True }),
    };
    Device::new(&mut instance, &adapters[0], &info).unwrap()
}

fn combined_layout(dev: &mut Device) -> DescriptorSetLayout {
    let sampler = Sampler::new(dev, &SamplerCreateInfo::nearest()).unwrap();
    DescriptorSetLayout::new(
        dev,
        vec![DescriptorSetLayoutBinding {
            descriptor_type: DescriptorType(DESCRIPTOR_TYPE_COMBINED_IMAGE_SAMPLER),
            descriptor_count: 1,
            stage_flags: ShaderStageFlags(SHADER_STAGE_FRAGMENT),
            immutable_samplers: vec![sampler],
        }],
    )
    .unwrap()
}

fn uniform_layout(dev: &mut Device) -> DescriptorSetLayout {
    DescriptorSetLayout::new(
        dev,
        vec![DescriptorSetLayoutBinding {
            descriptor_type: DescriptorType(DESCRIPTOR_TYPE_UNIFORM_BUFFER),
            descriptor_count: 1,
            stage_flags: ShaderStageFlags(SHADER_STAGE_FRAGMENT),
            immutable_samplers: vec![],
        }],
    )
    .unwrap()
}

#[test]
fn descriptor_set_typecheck() {
    let mut dev = test_device();
    let mut cmd_pool = CommandPool::new(&mut dev, 0).unwrap();

    let ds_layout1 = combined_layout(&mut dev);
    let ds_layout2 = uniform_layout(&mut dev);

    let pipe_layout1 = PipelineLayout::new(&mut dev, &vec![&ds_layout1], &vec![]).unwrap();
    let pipe_layout2 =
        PipelineLayout::new(&mut dev, &vec![&ds_layout1, &ds_layout2], &vec![]).unwrap();
    let pipe_layout3 =
        PipelineLayout::new(&mut dev, &vec![&ds_layout2, &ds_layout2], &vec![]).unwrap();
    let shader = ShaderModule::new(&mut dev, &vec![0x0723_0203u32, 0x0001_0000]).unwrap();
    let pipe = Pipeline::new_compute(
        &mut dev,
        PipelineShaderStageCreateInfo::compute(&shader),
        &pipe_layout2,
    )
    .unwrap();
    assert_eq!(pipe.layout().layouts().len(), 2);

    let (buf, _buf_mem) = BufferWithoutMemory::new(
        &mut dev,
        &BufferCreateInfo { size: 1024, usage: BufferUsageFlags(BUFFER_USAGE_UNIFORM_BUFFER) },
    )
    .unwrap()
    .allocate_memory(&mut dev, 0)
    .unwrap();
    let mut img_info = ImageCreateInfo::new();
    img_info.extent = Extent3D { width: 512, height: 512, depth: 1 };
    img_info.mip_levels = 8;
    img_info.usage = ImageUsageFlags(IMAGE_USAGE_SAMPLED);
    let (img, _img_mem) = ImageWithoutMemory::new(&mut dev, &img_info)
        .unwrap()
        .allocate_memory(&mut dev, 0)
        .unwrap();
    let view = ImageView::new(&mut dev, &img, &ImageViewCreateInfo::plain_2d(img.format()))
        .unwrap();
    let mut desc_pool = DescriptorPool::new(
        &mut dev,
        4,
        &vec![
            DescriptorPoolSize {
                descriptor_type: DescriptorType(DESCRIPTOR_TYPE_UNIFORM_BUFFER),
                descriptor_count: 4,
            },
            DescriptorPoolSize {
                descriptor_type: DescriptorType(DESCRIPTOR_TYPE_COMBINED_IMAGE_SAMPLER),
                descriptor_count: 4,
            },
        ],
    )
    .unwrap();

    let uninit_set = DescriptorSet::new(&mut desc_pool, &ds_layout1).unwrap();

    let mut rec = cmd_pool.begin();

    // An uninitialized set cannot be bound.
    assert!(rec
        .bind_descriptor_sets(
            PipelineBindPoint(PIPELINE_BIND_POINT_COMPUTE),
            &pipe_layout1,
            0,
            &mut desc_pool,
            &vec![&uninit_set],
            &vec![],
        )
        .is_err());

    let set1 = DescriptorSet::new(&mut desc_pool, &ds_layout1).unwrap();
    let set2 = DescriptorSet::new(&mut desc_pool, &ds_layout2).unwrap();

    let builder = DescriptorSetUpdateBuilder::new(&dev);
    let mut update = builder.dst_set(set1);
    update
        .combined_image_samplers(
            0,
            0,
            &vec![DescriptorImageInfo {
                image_view: view,
                image_layout: ImageLayout(IMAGE_LAYOUT_SHADER_READ_ONLY_OPTIMAL),
            }],
        )
        .unwrap();
    let set1 = update.end();
    let mut update = builder.dst_set(set2);
    update
        .uniform_buffers(
            &dev,
            0,
            0,
            &vec![DescriptorBufferInfo { buffer: buf, offset: 0, range: Some(1024) }],
        )
        .unwrap();
    let set2 = update.end();
    assert!(set1.is_initialized());
    assert!(set2.is_initialized());

    // Wrong layout at the destination slot.
    assert!(rec
        .bind_descriptor_sets(
            PipelineBindPoint(PIPELINE_BIND_POINT_COMPUTE),
            &pipe_layout2,
            1,
            &mut desc_pool,
            &vec![&set1],
            &vec![],
        )
        .is_err());

    assert!(rec
        .bind_descriptor_sets(
            PipelineBindPoint(PIPELINE_BIND_POINT_COMPUTE),
            &pipe_layout1,
            0,
            &mut desc_pool,
            &vec![&set1],
            &vec![],
        )
        .is_ok());

    rec.bind_pipeline(&pipe);

    // Not everything the pipeline needs is bound.
    assert!(rec.dispatch(1, 1, 1).is_err());

    // Binding a diverging layout at index 1 invalidates the earlier
    // binding.
    assert!(rec
        .bind_descriptor_sets(
            PipelineBindPoint(PIPELINE_BIND_POINT_COMPUTE),
            &pipe_layout3,
            1,
            &mut desc_pool,
            &vec![&set2],
            &vec![],
        )
        .is_ok());
    assert!(rec.dispatch(1, 1, 1).is_err());

    assert!(rec
        .bind_descriptor_sets(
            PipelineBindPoint(PIPELINE_BIND_POINT_COMPUTE),
            &pipe_layout1,
            0,
            &mut desc_pool,
            &vec![&set1],
            &vec![],
        )
        .is_ok());
    // Binding at index 1 under a matching signature keeps the earlier
    // binding.
    assert!(rec
        .bind_descriptor_sets(
            PipelineBindPoint(PIPELINE_BIND_POINT_COMPUTE),
            &pipe_layout2,
            1,
            &mut desc_pool,
            &vec![&set2],
            &vec![],
        )
        .is_ok());
    assert!(rec.dispatch(1, 1, 1).is_ok());

    // Diverge again at index 1.
    assert!(rec
        .bind_descriptor_sets(
            PipelineBindPoint(PIPELINE_BIND_POINT_COMPUTE),
            &pipe_layout3,
            1,
            &mut desc_pool,
            &vec![&set2],
            &vec![],
        )
        .is_ok());
    assert!(rec
        .bind_descriptor_sets(
            PipelineBindPoint(PIPELINE_BIND_POINT_COMPUTE),
            &pipe_layout2,
            1,
            &mut desc_pool,
            &vec![&set2],
            &vec![],
        )
        .is_ok());
    // Rebinding the head keeps the later binding.
    assert!(rec
        .bind_descriptor_sets(
            PipelineBindPoint(PIPELINE_BIND_POINT_COMPUTE),
            &pipe_layout1,
            0,
            &mut desc_pool,
            &vec![&set1],
            &vec![],
        )
        .is_ok());
    assert!(rec.dispatch(1, 1, 1).is_ok());
}

#[test]
fn layout_requires_samplers_per_descriptor() {
    let mut dev = test_device();
    let sampler = Sampler::new(&mut dev, &SamplerCreateInfo::nearest()).unwrap();
    // One immutable sampler for two descriptors is refused.
    assert!(DescriptorSetLayout::new(
        &mut dev,
        vec![DescriptorSetLayoutBinding {
            descriptor_type: DescriptorType(DESCRIPTOR_TYPE_COMBINED_IMAGE_SAMPLER),
            descriptor_count: 2,
            stage_flags: ShaderStageFlags(SHADER_STAGE_FRAGMENT),
            immutable_samplers: vec![sampler],
        }],
    )
    .is_err());
    // A combined image sampler without immutable samplers is refused.
    assert!(DescriptorSetLayout::new(
        &mut dev,
        vec![DescriptorSetLayoutBinding {
            descriptor_type: DescriptorType(DESCRIPTOR_TYPE_COMBINED_IMAGE_SAMPLER),
            descriptor_count: 1,
            stage_flags: ShaderStageFlags(SHADER_STAGE_FRAGMENT),
            immutable_samplers: vec![],
        }],
    )
    .is_err());
}

#[test]
fn pool_capacity_is_enforced() {
    let mut dev = test_device();
    let layout = uniform_layout(&mut dev);
    let mut pool = DescriptorPool::new(
        &mut dev,
        1,
        &vec![DescriptorPoolSize {
            descriptor_type: DescriptorType(DESCRIPTOR_TYPE_UNIFORM_BUFFER),
            descriptor_count: 1,
        }],
    )
    .unwrap();
    let set = DescriptorSet::new(&mut pool, &layout).unwrap();
    match DescriptorSet::new(&mut pool, &layout) {
        Err(e) => assert_eq!(e, Error::OutOfPoolMemory),
        Ok(_) => panic!("the pool should be exhausted"),
    }
    // Resetting with a live set is refused; freeing it first works.
    assert_eq!(pool.reset(), Err(Error::SynchronizationError));
    pool.free(set).unwrap();
    pool.reset().unwrap();
    let _again = DescriptorSet::new(&mut pool, &layout).unwrap();
}

#[test]
fn uniform_range_limit() {
    let mut dev = test_device();
    let layout = uniform_layout(&mut dev);
    let mut pool = DescriptorPool::new(
        &mut dev,
        1,
        &vec![DescriptorPoolSize {
            descriptor_type: DescriptorType(DESCRIPTOR_TYPE_UNIFORM_BUFFER),
            descriptor_count: 1,
        }],
    )
    .unwrap();
    let set = DescriptorSet::new(&mut pool, &layout).unwrap();
    let (buf, _mem) = BufferWithoutMemory::new(
        &mut dev,
        &BufferCreateInfo { size: 1024, usage: BufferUsageFlags(BUFFER_USAGE_UNIFORM_BUFFER) },
    )
    .unwrap()
    .allocate_memory(&mut dev, 0)
    .unwrap();
    let builder = DescriptorSetUpdateBuilder::new(&dev);
    let mut update = builder.dst_set(set);
    // A declared range over the device's uniform-buffer limit is
    // refused.
    assert_eq!(
        update.uniform_buffers(
            &dev,
            0,
            0,
            &vec![DescriptorBufferInfo { buffer: buf, offset: 0, range: Some(70000) }],
        ),
        Err(Error::LimitExceeded)
    );
    // A buffer without the uniform-buffer usage is refused.
    let (plain, _mem2) = BufferWithoutMemory::new(
        &mut dev,
        &BufferCreateInfo { size: 1024, usage: BufferUsageFlags(0) },
    )
    .unwrap()
    .allocate_memory(&mut dev, 0)
    .unwrap();
    assert_eq!(
        update.uniform_buffers(
            &dev,
            0,
            0,
            &vec![DescriptorBufferInfo { buffer: plain, offset: 0, range: Some(64) }],
        ),
        Err(Error::InvalidArgument)
    );
    // Writing past the last binding is out of bounds.
    assert_eq!(
        update.uniform_buffers(
            &dev,
            5,
            0,
            &vec![DescriptorBufferInfo { buffer: buf, offset: 0, range: Some(64) }],
        ),
        Err(Error::OutOfBounds)
    );
    let set = update.end();
    assert!(!set.is_initialized());
}

#[test]
fn dynamic_offsets_are_counted() {
    let mut dev = test_device();
    let layout = DescriptorSetLayout::new(
        &mut dev,
        vec![
            DescriptorSetLayoutBinding {
                descriptor_type: DescriptorType(DESCRIPTOR_TYPE_UNIFORM_BUFFER),
                descriptor_count: 1,
                stage_flags: ShaderStageFlags(SHADER_STAGE_FRAGMENT),
                immutable_samplers: vec![],
            },
            DescriptorSetLayoutBinding {
                descriptor_type: DescriptorType(
                    maia::enums::DESCRIPTOR_TYPE_UNIFORM_BUFFER_DYNAMIC,
                ),
                descriptor_count: 3,
                stage_flags: ShaderStageFlags(SHADER_STAGE_FRAGMENT),
                immutable_samplers: vec![],
            },
        ],
    )
    .unwrap();
    assert_eq!(layout.num_dynamic_offsets(), 3);
    assert_eq!(
        layout.num_bindings(
            DescriptorType(DESCRIPTOR_TYPE_UNIFORM_BUFFER),
            ShaderStageFlags(SHADER_STAGE_FRAGMENT),
        ),
        1
    );
    assert_eq!(
        layout.num_bindings(
            DescriptorType(DESCRIPTOR_TYPE_UNIFORM_BUFFER),
            ShaderStageFlags(maia::enums::SHADER_STAGE_VERTEX),
        ),
        0
    );
}

#[test]
fn binding_cursor_walks_across_bindings() {
    let mut dev = test_device();
    // Two uniform slots of two descriptors each: a write of four
    // descriptors starting at the first slot initializes the whole set.
    let layout = DescriptorSetLayout::new(
        &mut dev,
        vec![
            DescriptorSetLayoutBinding {
                descriptor_type: DescriptorType(DESCRIPTOR_TYPE_UNIFORM_BUFFER),
                descriptor_count: 2,
                stage_flags: ShaderStageFlags(SHADER_STAGE_FRAGMENT),
                immutable_samplers: vec![],
            },
            DescriptorSetLayoutBinding {
                descriptor_type: DescriptorType(DESCRIPTOR_TYPE_UNIFORM_BUFFER),
                descriptor_count: 2,
                stage_flags: ShaderStageFlags(SHADER_STAGE_FRAGMENT),
                immutable_samplers: vec![],
            },
        ],
    )
    .unwrap();
    let mut pool = DescriptorPool::new(&mut dev, 1, &vec![]).unwrap();
    let set = DescriptorSet::new(&mut pool, &layout).unwrap();
    let (buf, _mem) = BufferWithoutMemory::new(
        &mut dev,
        &BufferCreateInfo { size: 1024, usage: BufferUsageFlags(BUFFER_USAGE_UNIFORM_BUFFER) },
    )
    .unwrap()
    .allocate_memory(&mut dev, 0)
    .unwrap();
    let info = DescriptorBufferInfo { buffer: buf, offset: 0, range: Some(64) };
    let builder = DescriptorSetUpdateBuilder::new(&dev);
    let mut update = builder.dst_set(set);
    update.uniform_buffers(&dev, 0, 0, &vec![info, info, info, info]).unwrap();
    let set = update.end();
    assert!(set.is_initialized());
}
