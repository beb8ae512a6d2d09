use maia::buffer::BufferWithoutMemory;
use maia::command_buffer::CommandPool;
use maia::device::Device;
use maia::enums::Bool;
use maia::enums::BufferUsageFlags;
use maia::enums::Format;
use maia::enums::ShaderStageFlags;
use maia::enums::FORMAT_R8G8B8A8_SRGB;
use maia::enums::SHADER_STAGE_FRAGMENT;
use maia::enums::SHADER_STAGE_VERTEX;
use maia::image::Framebuffer;
use maia::image::ImageWithoutMemory;
use maia::instance::Instance;
use maia::pipeline::PipelineLayout;
use maia::render_pass::RenderPass;
use maia::render_pass::RenderPassCreateInfo;
use maia::render_pass::SubpassDescription;
use maia::types::BufferCopy;
use maia::types::BufferCreateInfo;
use maia::types::BufferImageCopy;
use maia::types::DeviceCreateInfo;
use maia::types::DeviceQueueCreateInfo;
use maia::types::Extent3D;
use maia::types::ImageCreateInfo;
use maia::types::ImageSubresourceLayers;
use maia::types::InstanceCreateInfo;
use maia::types::Offset3D;
use maia::types::PhysicalDeviceFeatures;
use maia::error::Error;
use maia::types::PushConstantRange;
use maia::types::Rect2D;
use maia::types::Extent2D;
use maia::types::Offset2D;
use maia::enums::ImageLayout;
use maia::enums::IMAGE_LAYOUT_GENERAL;

fn test_device() -> Device {
    let mut instance = Instance::new(&InstanceCreateInfo::new());
    let adapters = instance.enumerate_physical_devices().unwrap();
    let info = DeviceCreateInfo {
        queue_create_infos: vec![DeviceQueueCreateInfo { queue_family_index: 0, queue_count: 1 }],
        enabled_features: Some(PhysicalDeviceFeatures { robust_buffer_access: Bool::True }),
    };
    Device::new(&mut instance, &adapters[0], &info).unwrap()
}

fn area() -> Rect2D {
    Rect2D { offset: Offset2D { x: 0, y: 0 }, extent: Extent2D { width: 1, height: 1 } }
}

#[test]
fn subpass() {
    let mut dev = test_device();
    let pass = RenderPass::new(
        &mut dev,
        &RenderPassCreateInfo {
            attachments: vec![],
            subpasses: vec![SubpassDescription::new(), SubpassDescription::new()],
        },
    )
    .unwrap();
    let fb = Framebuffer::new(
        &mut dev,
        &pass,
        &vec![],
        Extent3D { width: 1, height: 1, depth: 1 },
    )
    .unwrap();

    let mut pool = CommandPool::new(&mut dev, 0).unwrap();

    let rec = pool.begin();
    let rec = rec.begin_render_pass(&pass, &fb, &area(), &vec![]).ok().unwrap();
    assert!(rec.end().is_err());

    let rec = pool.begin();
    let mut rec = rec.begin_render_pass(&pass, &fb, &area(), &vec![]).ok().unwrap();
    assert!(rec.next_subpass().is_ok());
    assert!(rec.next_subpass().is_err());
    assert!(rec.next_subpass_secondary().is_err());

    pool.reset().unwrap();

    let rec = pool.begin();
    let mut rec = rec.begin_render_pass_secondary(&pass, &fb, &area(), &vec![]).ok().unwrap();
    assert!(rec.next_subpass_secondary().is_ok());
    assert!(rec.next_subpass_secondary().is_err());
    assert!(rec.next_subpass().is_err());
}

#[test]
fn bounds_check() {
    let mut dev = test_device();
    let (buf, _buf_mem) = BufferWithoutMemory::new(
        &mut dev,
        &BufferCreateInfo { size: 1024, usage: BufferUsageFlags(0) },
    )
    .unwrap()
    .allocate_memory(&mut dev, 0)
    .unwrap();
    let mut img_info = ImageCreateInfo::new();
    img_info.extent = Extent3D { width: 512, height: 512, depth: 1 };
    img_info.format = Format(FORMAT_R8G8B8A8_SRGB);
    img_info.mip_levels = 10;
    let (img, _img_mem) = ImageWithoutMemory::new(&mut dev, &img_info)
        .unwrap()
        .allocate_memory(&mut dev, 0)
        .unwrap();
    let mut pool = CommandPool::new(&mut dev, 0).unwrap();
    let mut rec = pool.begin();
    // Empty region lists are malformed arguments.
    assert_eq!(rec.copy_buffer(&buf, &buf, &vec![]), Err(Error::InvalidArgument));
    assert_eq!(
        rec.copy_buffer_to_image(&buf, &img, ImageLayout(IMAGE_LAYOUT_GENERAL), &vec![]),
        Err(Error::InvalidArgument)
    );
    assert_eq!(
        rec.clear_color_image(
            &img,
            ImageLayout(IMAGE_LAYOUT_GENERAL),
            maia::types::ClearColorValue(0, 0, 0, 0),
            &vec![],
        ),
        Err(Error::InvalidArgument)
    );
    assert!(rec.fill_buffer(&buf, 100, Some(1024), 42).is_err());
    assert!(rec.fill_buffer(&buf, 2000, None, 42).is_err());
    assert!(rec
        .copy_buffer(
            &buf,
            &buf,
            &vec![BufferCopy { size: 1024, src_offset: 0, dst_offset: 100 }],
        )
        .is_err());
    assert!(rec
        .copy_buffer(
            &buf,
            &buf,
            &vec![BufferCopy { size: 1024, src_offset: 100, dst_offset: 0 }],
        )
        .is_err());
    assert!(rec
        .copy_buffer_to_image(
            &buf,
            &img,
            ImageLayout(IMAGE_LAYOUT_GENERAL),
            &vec![BufferImageCopy {
                buffer_offset: 0,
                buffer_row_length: 0,
                buffer_image_height: 0,
                image_subresource: ImageSubresourceLayers::base_color(),
                image_offset: Offset3D { x: 5, y: 0, z: 0 },
                image_extent: Extent3D { width: 512, height: 512, depth: 1 },
            }],
        )
        .is_err());
    let mut four_layers = ImageSubresourceLayers::base_color();
    four_layers.layer_count = 4;
    assert!(rec
        .copy_buffer_to_image(
            &buf,
            &img,
            ImageLayout(IMAGE_LAYOUT_GENERAL),
            &vec![BufferImageCopy {
                buffer_offset: 0,
                buffer_row_length: 0,
                buffer_image_height: 0,
                image_subresource: four_layers,
                image_offset: Offset3D { x: 0, y: 0, z: 0 },
                image_extent: Extent3D { width: 512, height: 512, depth: 1 },
            }],
        )
        .is_err());
    assert!(rec
        .copy_buffer_to_image(
            &buf,
            &img,
            ImageLayout(IMAGE_LAYOUT_GENERAL),
            &vec![BufferImageCopy {
                buffer_offset: 0,
                buffer_row_length: 0,
                buffer_image_height: 0,
                image_subresource: ImageSubresourceLayers::base_color(),
                image_offset: Offset3D { x: 0, y: 0, z: 0 },
                image_extent: Extent3D { width: 512, height: 512, depth: 1 },
            }],
        )
        .is_err());
}

#[test]
fn fill_buffer_rounds_down() {
    let mut dev = test_device();
    let (buf, _mem) = BufferWithoutMemory::new(
        &mut dev,
        &BufferCreateInfo { size: 1024, usage: BufferUsageFlags(0) },
    )
    .unwrap()
    .allocate_memory(&mut dev, 0)
    .unwrap();
    let mut pool = CommandPool::new(&mut dev, 0).unwrap();
    let mut rec = pool.begin();
    assert!(rec.fill_buffer(&buf, 103, Some(920), 7).is_ok());
    assert!(rec.fill_buffer(&buf, 1024, None, 7).is_ok());
    assert!(rec.fill_buffer(&buf, 1031, None, 7).is_err());
}

#[test]
fn push_constant_check() {
    let mut dev = test_device();
    let layout = PipelineLayout::new(
        &mut dev,
        &vec![],
        &vec![
            PushConstantRange {
                stage_flags: ShaderStageFlags(SHADER_STAGE_VERTEX),
                offset: 0,
                size: 16,
            },
            PushConstantRange {
                stage_flags: ShaderStageFlags(SHADER_STAGE_FRAGMENT),
                offset: 32,
                size: 16,
            },
            PushConstantRange {
                stage_flags: ShaderStageFlags(SHADER_STAGE_VERTEX),
                offset: 48,
                size: 16,
            },
        ],
    )
    .unwrap();
    let mut pool = CommandPool::new(&mut dev, 0).unwrap();
    let mut rec = pool.begin();

    let both = ShaderStageFlags(SHADER_STAGE_VERTEX | SHADER_STAGE_FRAGMENT);
    // An offset past the limit cannot be satisfied.
    assert!(rec.push_constants(&layout, both, u32::MAX, &vec![0u8; 48]).is_err());
    // The window [0, 48) touches undeclared bytes in [16, 32).
    assert!(rec.push_constants(&layout, both, 0, &vec![0u8; 48]).is_err());
    // The window [32, 64) also touches a vertex-stage range.
    assert!(rec
        .push_constants(&layout, ShaderStageFlags(SHADER_STAGE_FRAGMENT), 32, &vec![0u8; 32])
        .is_err());
    assert!(rec.push_constants(&layout, both, 32, &vec![0u8; 32]).is_ok());
    // An empty write is a malformed argument, not a bounds failure.
    assert_eq!(rec.push_constants(&layout, both, 0, &vec![]), Err(Error::InvalidArgument));
}

#[test]
fn framebuffer_compatibility() {
    let mut dev = test_device();
    let pass = RenderPass::new(
        &mut dev,
        &RenderPassCreateInfo { attachments: vec![], subpasses: vec![SubpassDescription::new()] },
    )
    .unwrap();
    let fb = Framebuffer::new(
        &mut dev,
        &pass,
        &vec![],
        Extent3D { width: 16, height: 16, depth: 1 },
    )
    .unwrap();
    assert!(fb.is_compatible_with(&pass));
    // A framebuffer larger than the device allows is refused.
    assert!(Framebuffer::new(
        &mut dev,
        &pass,
        &vec![],
        Extent3D { width: 1 << 20, height: 1, depth: 1 },
    )
    .is_err());
}

#[test]
fn secondary_pass_compatibility() {
    let mut dev = test_device();
    let pass = RenderPass::new(
        &mut dev,
        &RenderPassCreateInfo {
            attachments: vec![],
            subpasses: vec![SubpassDescription::new(), SubpassDescription::new()],
        },
    )
    .unwrap();
    let fb = Framebuffer::new(
        &mut dev,
        &pass,
        &vec![],
        Extent3D { width: 1, height: 1, depth: 1 },
    )
    .unwrap();
    let mut pool = CommandPool::new(&mut dev, 0).unwrap();

    // A secondary buffer is recorded for subpass 1.
    let sec = pool.allocate_secondary();
    assert!(pool.begin_secondary(sec, &pass, 9).is_err());
    let sec = pool.allocate_secondary();
    let sec_rec = pool.begin_secondary(sec, &pass, 1).ok().unwrap();
    let sec = sec_rec.end().unwrap();

    let rec = pool.begin();
    let mut rec = rec.begin_render_pass_secondary(&pass, &fb, &area(), &vec![]).ok().unwrap();
    // At subpass 0 the buffer recorded for subpass 1 is refused.
    assert!(rec.execute_commands(&vec![&sec]).is_err());
    assert!(rec.next_subpass_secondary().is_ok());
    assert!(rec.execute_commands(&vec![&sec]).is_ok());
    // An empty replay list is refused.
    assert!(rec.execute_commands(&vec![]).is_err());
    let rec = rec.end().ok().unwrap();
    let _buf = rec.end().unwrap();
}
