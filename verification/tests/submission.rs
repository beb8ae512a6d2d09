use maia::buffer::BufferWithoutMemory;
use maia::command_buffer::CommandPool;
use maia::descriptor_set::update::DescriptorBufferInfo;
use maia::descriptor_set::update::DescriptorSetUpdateBuilder;
use maia::descriptor_set::DescriptorPool;
use maia::descriptor_set::DescriptorSet;
use maia::descriptor_set::DescriptorSetLayout;
use maia::descriptor_set::DescriptorSetLayoutBinding;
use maia::device::Device;
use maia::enums::Bool;
use maia::enums::BufferUsageFlags;
use maia::enums::DescriptorType;
use maia::enums::PipelineBindPoint;
use maia::enums::PipelineStageFlags;
use maia::enums::ShaderStageFlags;
use maia::enums::BUFFER_USAGE_INDIRECT_BUFFER;
use maia::enums::BUFFER_USAGE_UNIFORM_BUFFER;
use maia::enums::DESCRIPTOR_TYPE_UNIFORM_BUFFER;
use maia::enums::PIPELINE_BIND_POINT_GRAPHICS;
use maia::enums::PIPELINE_STAGE_TOP_OF_PIPE;
use maia::enums::SHADER_STAGE_VERTEX;
use maia::error::Error;
use maia::fence::Fence;
use maia::image::Framebuffer;
use maia::instance::Instance;
use maia::pipeline::Pipeline;
use maia::pipeline::PipelineLayout;
use maia::pipeline::PipelineShaderStageCreateInfo;
use maia::queue::Queue;
use maia::queue::SubmitInfo;
use maia::queue::SubmitScope;
use maia::queue::WaitOp;
use maia::render_pass::RenderPass;
use maia::render_pass::RenderPassCreateInfo;
use maia::render_pass::SubpassDescription;
use maia::semaphore::Semaphore;
use maia::shader::ShaderModule;
use maia::types::BufferCreateInfo;
use maia::types::DeviceCreateInfo;
use maia::types::DeviceQueueCreateInfo;
use maia::types::Extent2D;
use maia::types::Extent3D;
use maia::types::InstanceCreateInfo;
use maia::types::Offset2D;
use maia::types::PhysicalDeviceFeatures;
use maia::types::Rect2D;

fn test_device() -> (Device, Queue) {
    let mut instance = Instance::new(&InstanceCreateInfo::new());
    let adapters = instance.enumerate_physical_devices().unwrap();
    let info = DeviceCreateInfo {
        queue_create_infos: vec![DeviceQueueCreateInfo { queue_family_index: 0, queue_count: 1 }],
        enabled_features: Some(PhysicalDeviceFeatures { robust_buffer_access: Bool::True }),
    };
    let mut dev = Device::new(&mut instance, &adapters[0], &info).unwrap();
    let mut queues = dev.take_queues();
    let queue = queues[0].remove(0);
    (dev, queue)
}

#[test]
fn signaller() {
    let (mut dev, mut q) = test_device();
    let mut pool = CommandPool::new(&mut dev, 0).unwrap();
    let mut sems = vec![Semaphore::new(&mut dev).unwrap()];

    let mut info = SubmitInfo::new();
    info.signal.push(0);
    assert!(q
        .submit_with_fence(&mut pool, vec![info], &mut sems, Fence::new(&mut dev).unwrap())
        .is_ok());

    let mut info = SubmitInfo::new();
    info.signal.push(0);
    assert!(q
        .submit_with_fence(&mut pool, vec![info], &mut sems, Fence::new(&mut dev).unwrap())
        .is_err());

    let mut info = SubmitInfo::new();
    info.wait.push(WaitOp {
        semaphore: 0,
        stage_mask: PipelineStageFlags(PIPELINE_STAGE_TOP_OF_PIPE),
    });
    assert!(q
        .submit_with_fence(&mut pool, vec![info], &mut sems, Fence::new(&mut dev).unwrap())
        .is_ok());

    let mut info = SubmitInfo::new();
    info.wait.push(WaitOp {
        semaphore: 0,
        stage_mask: PipelineStageFlags(PIPELINE_STAGE_TOP_OF_PIPE),
    });
    assert!(q
        .submit_with_fence(&mut pool, vec![info], &mut sems, Fence::new(&mut dev).unwrap())
        .is_err());
}

#[test]
fn pool_reset_exclusivity() {
    let (mut dev, mut q) = test_device();
    let mut pool = CommandPool::new(&mut dev, 0).unwrap();
    let mut sems: Vec<Semaphore> = vec![];

    let buf = pool.begin().end().unwrap();
    let mut info = SubmitInfo::new();
    info.commands.push(buf);
    let pending = q
        .submit_with_fence(&mut pool, vec![info], &mut sems, Fence::new(&mut dev).unwrap())
        .ok()
        .unwrap();

    // While the submission is in flight, the pool refuses to reset.
    assert_eq!(pool.reset(), Err(Error::SynchronizationError));

    let (_fence, mut bag) = pending.wait();
    for buffer in bag.take_command_buffers() {
        pool.free(buffer).ok().unwrap();
    }
    assert!(pool.reset().is_ok());

    // A buffer recorded before a reset is invalidated by it.
    let stale = pool.begin().end().unwrap();
    assert!(pool.reset().is_ok());
    let mut info = SubmitInfo::new();
    info.commands.push(stale);
    assert!(q
        .submit_with_fence(&mut pool, vec![info], &mut sems, Fence::new(&mut dev).unwrap())
        .is_err());
}

#[test]
fn fence_cleanup_releases_references() {
    let (mut dev, mut q) = test_device();
    let mut cmd_pool = CommandPool::new(&mut dev, 0).unwrap();
    let mut sems: Vec<Semaphore> = vec![];

    let layout = DescriptorSetLayout::new(
        &mut dev,
        vec![DescriptorSetLayoutBinding {
            descriptor_type: DescriptorType(DESCRIPTOR_TYPE_UNIFORM_BUFFER),
            descriptor_count: 1,
            stage_flags: ShaderStageFlags(SHADER_STAGE_VERTEX),
            immutable_samplers: vec![],
        }],
    )
    .unwrap();
    let mut desc_pool = DescriptorPool::new(&mut dev, 1, &vec![]).unwrap();
    let set = DescriptorSet::new(&mut desc_pool, &layout).unwrap();
    let (buf, _mem) = BufferWithoutMemory::new(
        &mut dev,
        &BufferCreateInfo { size: 256, usage: BufferUsageFlags(BUFFER_USAGE_UNIFORM_BUFFER) },
    )
    .unwrap()
    .allocate_memory(&mut dev, 0)
    .unwrap();
    let builder = DescriptorSetUpdateBuilder::new(&dev);
    let mut update = builder.dst_set(set);
    update
        .uniform_buffers(
            &dev,
            0,
            0,
            &vec![DescriptorBufferInfo { buffer: buf, offset: 0, range: Some(256) }],
        )
        .unwrap();
    let set = update.end();

    let pipe_layout = PipelineLayout::new(&mut dev, &vec![&layout], &vec![]).unwrap();
    let mut rec = cmd_pool.begin();
    rec.bind_descriptor_sets(
        PipelineBindPoint(maia::enums::PIPELINE_BIND_POINT_COMPUTE),
        &pipe_layout,
        0,
        &mut desc_pool,
        &vec![&set],
        &vec![],
    )
    .unwrap();
    let cmd = rec.end().unwrap();

    let mut info = SubmitInfo::new();
    info.commands.push(cmd);
    let pending = q
        .submit_with_fence(&mut cmd_pool, vec![info], &mut sems, Fence::new(&mut dev).unwrap())
        .ok()
        .unwrap();

    // The caller lets go of its set, but the submission still
    // references the pool: reset is refused.
    desc_pool.free(set).unwrap();
    assert_eq!(desc_pool.reset(), Err(Error::SynchronizationError));
    assert_eq!(desc_pool.in_flight, 1);

    let (_fence, mut bag) = pending.wait();
    assert_eq!(bag.descriptor_pool_refs.len(), 1);
    bag.release_descriptor_pool(&mut desc_pool);
    // Exactly one reference was released.
    assert_eq!(desc_pool.in_flight, 0);
    assert!(desc_pool.reset().is_ok());

    for buffer in bag.take_command_buffers() {
        cmd_pool.free(buffer).ok().unwrap();
    }
    assert!(cmd_pool.reset().is_ok());
}

#[test]
fn indirect_draw_stride_rule() {
    let (mut dev, _q) = test_device();
    let pass = RenderPass::new(
        &mut dev,
        &RenderPassCreateInfo { attachments: vec![], subpasses: vec![SubpassDescription::new()] },
    )
    .unwrap();
    let fb = Framebuffer::new(
        &mut dev,
        &pass,
        &vec![],
        Extent3D { width: 1, height: 1, depth: 1 },
    )
    .unwrap();
    let pipe_layout = PipelineLayout::new(&mut dev, &vec![], &vec![]).unwrap();
    let shader = ShaderModule::new(&mut dev, &vec![0x0723_0203u32]).unwrap();
    let pipe = Pipeline::new_graphics(
        &mut dev,
        &vec![PipelineShaderStageCreateInfo {
            stage: ShaderStageFlags(SHADER_STAGE_VERTEX),
            module: shader.handle(),
        }],
        &pipe_layout,
        &pass,
        0,
    )
    .unwrap();
    let (ibuf, _mem) = BufferWithoutMemory::new(
        &mut dev,
        &BufferCreateInfo { size: 64, usage: BufferUsageFlags(BUFFER_USAGE_INDIRECT_BUFFER) },
    )
    .unwrap()
    .allocate_memory(&mut dev, 0)
    .unwrap();
    let (plain, _mem2) = BufferWithoutMemory::new(
        &mut dev,
        &BufferCreateInfo { size: 64, usage: BufferUsageFlags(0) },
    )
    .unwrap()
    .allocate_memory(&mut dev, 0)
    .unwrap();

    let mut pool = CommandPool::new(&mut dev, 0).unwrap();
    let rec = pool.begin();
    let area = Rect2D {
        offset: Offset2D { x: 0, y: 0 },
        extent: Extent2D { width: 1, height: 1 },
    };
    let mut rec = rec.begin_render_pass(&pass, &fb, &area, &vec![]).ok().unwrap();
    rec.bind_pipeline(&pipe);

    // A single record accepts any stride: only the exact record size is
    // read.
    assert!(rec.draw_indirect(&ibuf, 0, 1, 999).is_ok());
    // With two or more records, a stride under the record size is
    // refused.
    assert_eq!(rec.draw_indirect(&ibuf, 0, 2, 8), Err(Error::InvalidArgument));
    // A misaligned offset is refused.
    assert_eq!(rec.draw_indirect(&ibuf, 2, 2, 16), Err(Error::InvalidArgument));
    // A multi-record stride must be a multiple of four.
    assert_eq!(rec.draw_indirect(&ibuf, 0, 2, 18), Err(Error::InvalidArgument));
    // Records past the end of the buffer are out of bounds.
    assert_eq!(rec.draw_indirect(&ibuf, 40, 2, 16), Err(Error::OutOfBounds));
    assert!(rec.draw_indirect(&ibuf, 0, 4, 16).is_ok());
    // The indirect-buffer usage is required.
    assert_eq!(rec.draw_indirect(&plain, 0, 1, 16), Err(Error::InvalidArgument));
    // Indexed records are twenty bytes long.
    assert_eq!(rec.draw_indexed_indirect(&ibuf, 0, 3, 16), Err(Error::InvalidArgument));
    assert!(rec.draw_indexed_indirect(&ibuf, 0, 3, 20).is_ok());
}

#[test]
fn end_to_end() {
    let (mut dev, mut q) = test_device();
    let mut sems: Vec<Semaphore> = vec![];

    let pass = RenderPass::new(
        &mut dev,
        &RenderPassCreateInfo { attachments: vec![], subpasses: vec![SubpassDescription::new()] },
    )
    .unwrap();
    let fb = Framebuffer::new(
        &mut dev,
        &pass,
        &vec![],
        Extent3D { width: 1, height: 1, depth: 1 },
    )
    .unwrap();

    let layout = DescriptorSetLayout::new(
        &mut dev,
        vec![DescriptorSetLayoutBinding {
            descriptor_type: DescriptorType(DESCRIPTOR_TYPE_UNIFORM_BUFFER),
            descriptor_count: 1,
            stage_flags: ShaderStageFlags(SHADER_STAGE_VERTEX),
            immutable_samplers: vec![],
        }],
    )
    .unwrap();
    let pipe_layout = PipelineLayout::new(&mut dev, &vec![&layout], &vec![]).unwrap();
    let shader = ShaderModule::new(&mut dev, &vec![0x0723_0203u32]).unwrap();
    let pipe = Pipeline::new_graphics(
        &mut dev,
        &vec![PipelineShaderStageCreateInfo {
            stage: ShaderStageFlags(SHADER_STAGE_VERTEX),
            module: shader.handle(),
        }],
        &pipe_layout,
        &pass,
        0,
    )
    .unwrap();

    let mut desc_pool = DescriptorPool::new(&mut dev, 1, &vec![]).unwrap();
    let set = DescriptorSet::new(&mut desc_pool, &layout).unwrap();
    assert!(!set.is_initialized());
    let (buf, _mem) = BufferWithoutMemory::new(
        &mut dev,
        &BufferCreateInfo { size: 256, usage: BufferUsageFlags(BUFFER_USAGE_UNIFORM_BUFFER) },
    )
    .unwrap()
    .allocate_memory(&mut dev, 0)
    .unwrap();
    let builder = DescriptorSetUpdateBuilder::new(&dev);
    let mut update = builder.dst_set(set);
    update
        .uniform_buffers(
            &dev,
            0,
            0,
            &vec![DescriptorBufferInfo { buffer: buf, offset: 0, range: Some(256) }],
        )
        .unwrap();
    let set = update.end();
    assert!(set.is_initialized());

    let mut pool = CommandPool::new(&mut dev, 0).unwrap();
    let rec = pool.begin();
    let area = Rect2D {
        offset: Offset2D { x: 0, y: 0 },
        extent: Extent2D { width: 1, height: 1 },
    };
    let mut rec = rec.begin_render_pass(&pass, &fb, &area, &vec![]).ok().unwrap();
    rec.bind_pipeline(&pipe);
    rec.bind_descriptor_sets(
        PipelineBindPoint(PIPELINE_BIND_POINT_GRAPHICS),
        &pipe_layout,
        0,
        &mut desc_pool,
        &vec![&set],
        &vec![],
    )
    .unwrap();
    rec.draw(3, 1, 0, 0).unwrap();
    let rec = rec.end().ok().unwrap();
    let cmd = rec.end().unwrap();

    let mut scope = SubmitScope::new();
    scope.command(cmd);
    let infos = scope.finish();
    let pending = q
        .submit_with_fence(&mut pool, infos, &mut sems, Fence::new(&mut dev).unwrap())
        .ok()
        .unwrap();

    assert_eq!(pool.reset(), Err(Error::SynchronizationError));
    let (_fence, mut bag) = pending.wait();
    bag.release_descriptor_pool(&mut desc_pool);
    for buffer in bag.take_command_buffers() {
        pool.free(buffer).ok().unwrap();
    }
    assert!(pool.reset().is_ok());
    desc_pool.free(set).unwrap();
    assert!(desc_pool.reset().is_ok());
}

#[test]
fn scope_seals_batches_on_conflict() {
    let (mut dev, _q) = test_device();
    let mut pool = CommandPool::new(&mut dev, 0).unwrap();
    let a = pool.begin().end().unwrap();

    let mut scope = SubmitScope::new();
    scope.command(a);
    scope.signal(0);
    // A wait after commands and signals starts a new batch.
    scope.wait(1, PipelineStageFlags(PIPELINE_STAGE_TOP_OF_PIPE));
    let infos = scope.finish();
    assert_eq!(infos.len(), 2);
    assert_eq!(infos[0].commands.len(), 1);
    assert_eq!(infos[0].signal, vec![0]);
    assert_eq!(infos[1].wait.len(), 1);
    assert_eq!(infos[1].commands.len(), 0);
}

#[test]
fn draw_requires_pipeline_and_sets() {
    let (mut dev, _q) = test_device();
    let pass = RenderPass::new(
        &mut dev,
        &RenderPassCreateInfo { attachments: vec![], subpasses: vec![SubpassDescription::new()] },
    )
    .unwrap();
    let fb = Framebuffer::new(
        &mut dev,
        &pass,
        &vec![],
        Extent3D { width: 1, height: 1, depth: 1 },
    )
    .unwrap();
    let mut pool = CommandPool::new(&mut dev, 0).unwrap();
    let area = Rect2D {
        offset: Offset2D { x: 0, y: 0 },
        extent: Extent2D { width: 1, height: 1 },
    };
    let mut rec = pool.begin().begin_render_pass(&pass, &fb, &area, &vec![]).ok().unwrap();
    // No pipeline is bound yet.
    assert_eq!(rec.draw(3, 1, 0, 0), Err(Error::InvalidState));

    // A pipeline made for another pass is rejected too.
    let other_pass = RenderPass::new(
        &mut dev,
        &RenderPassCreateInfo {
            attachments: vec![],
            subpasses: vec![SubpassDescription::new(), SubpassDescription::new()],
        },
    )
    .unwrap();
    let pipe_layout = PipelineLayout::new(&mut dev, &vec![], &vec![]).unwrap();
    let shader = ShaderModule::new(&mut dev, &vec![0x0723_0203u32]).unwrap();
    let pipe = Pipeline::new_graphics(
        &mut dev,
        &vec![PipelineShaderStageCreateInfo {
            stage: ShaderStageFlags(SHADER_STAGE_VERTEX),
            module: shader.handle(),
        }],
        &pipe_layout,
        &other_pass,
        1,
    )
    .unwrap();
    rec.bind_pipeline(&pipe);
    assert_eq!(rec.draw(3, 1, 0, 0), Err(Error::InvalidState));
}

#[test]
fn submit_refuses_foreign_buffers() {
    let (mut dev, mut q) = test_device();
    let mut pool_a = CommandPool::new(&mut dev, 0).unwrap();
    let mut pool_b = CommandPool::new(&mut dev, 0).unwrap();
    let mut sems: Vec<Semaphore> = vec![];
    let buf = pool_a.begin().end().unwrap();
    let mut info = SubmitInfo::new();
    info.commands.push(buf);
    // The buffer belongs to the other pool.
    assert!(q
        .submit_with_fence(&mut pool_b, vec![info], &mut sems, Fence::new(&mut dev).unwrap())
        .is_err());
    // A failed submission leaves the pool resettable.
    assert!(pool_a.reset().is_ok());
    assert!(pool_b.reset().is_ok());
}

#[test]
fn fence_less_submission_and_wait_idle() {
    let (mut dev, mut q) = test_device();
    let mut pool = CommandPool::new(&mut dev, 0).unwrap();
    let mut sems: Vec<Semaphore> = vec![];

    let buf = pool.begin().end().unwrap();
    let mut info = SubmitInfo::new();
    info.commands.push(buf);
    q.submit(&mut pool, vec![info], &mut sems).ok().unwrap();

    // The queue retains the work; the pool refuses to reset until the
    // queue has been waited idle and the buffers handed back.
    assert_eq!(pool.reset(), Err(Error::SynchronizationError));
    let mut bag = q.wait_idle();
    assert_eq!(bag.command_buffers.len(), 1);
    for buffer in bag.take_command_buffers() {
        pool.free(buffer).ok().unwrap();
    }
    assert!(pool.reset().is_ok());

    // A signal submitted without a fence still pairs with a later wait.
    let mut sems = vec![Semaphore::new(&mut dev).unwrap()];
    let mut info = SubmitInfo::new();
    info.signal.push(0);
    q.submit(&mut pool, vec![info], &mut sems).ok().unwrap();
    let mut info = SubmitInfo::new();
    info.wait.push(WaitOp {
        semaphore: 0,
        stage_mask: PipelineStageFlags(PIPELINE_STAGE_TOP_OF_PIPE),
    });
    assert!(q
        .submit_with_fence(&mut pool, vec![info], &mut sems, Fence::new(&mut dev).unwrap())
        .is_ok());
    let _ = q.wait_idle();
}
