use ash::vk;
use magma::image::view::{Aspects, ComponentMapping, ComponentSwizzle, CreationError, SubresourceRange, Type as ViewType};
use magma::image::{check_usage, BindError, CreationError as ImageCreationError, Layout, Tiling, Type, Usage};
use magma::OomError;

#[test]
fn image_usage_flags_match_vulkan() {
    let u = Usage {
        transfer_source: true,
        sampled: true,
        input_attachment: true,
        ..Usage::none()
    };
    let expected = vk::ImageUsageFlags::TRANSFER_SRC | vk::ImageUsageFlags::SAMPLED | vk::ImageUsageFlags::INPUT_ATTACHMENT;
    assert_eq!(u.to_vulkan(), expected.as_raw());
    assert_eq!(Usage::none().to_vulkan(), 0);
    assert_eq!(Usage::all().to_vulkan(), 0xff);
    assert_eq!(Usage::color_attachment().to_vulkan(), vk::ImageUsageFlags::COLOR_ATTACHMENT.as_raw());
    assert_eq!(
        Usage::transient_depth_stencil_attachment().to_vulkan(),
        (vk::ImageUsageFlags::DEPTH_STENCIL_ATTACHMENT | vk::ImageUsageFlags::TRANSIENT_ATTACHMENT).as_raw()
    );
}

#[test]
fn image_usage_round_trip() {
    for bits in 0u32..256 {
        let u = Usage::from_vulkan(bits);
        assert_eq!(u.to_vulkan(), bits);
        assert_eq!(Usage::from_vulkan(u.to_vulkan()), u);
    }
    let u = Usage::from_vulkan(vk::ImageUsageFlags::STORAGE.as_raw() | 0x1000);
    assert!(u.storage);
    assert_eq!(u, Usage { storage: true, ..Usage::none() });
}

#[test]
fn image_usage_union() {
    let a = Usage::color_attachment();
    let b = Usage::transient_depth_stencil_attachment();
    let c = a | b;
    assert!(c.color_attachment && c.depth_stencil_attachment && c.transient_attachment);
    assert!(!c.sampled);
    assert_eq!(c.to_vulkan(), a.to_vulkan() | b.to_vulkan());
}

#[test]
fn image_usage_constructors() {
    let d = Usage::depth_stencil_attachment();
    assert!(d.depth_stencil_attachment && !d.transient_attachment && !d.color_attachment);
    let t = Usage::transient_color_attachment();
    assert!(t.color_attachment && t.transient_attachment && !t.depth_stencil_attachment);
}

#[test]
fn image_enum_codes_match_vulkan() {
    assert_eq!(Type::D2.into_vulkan(), vk::ImageType::TYPE_2D.as_raw());
    assert_eq!(Tiling::Linear.into_vulkan(), vk::ImageTiling::LINEAR.as_raw());
    assert_eq!(Tiling::Optimal.into_vulkan(), vk::ImageTiling::OPTIMAL.as_raw());
    assert!(Tiling::Linear.is_linear());
    assert!(!Tiling::Optimal.is_linear());
    assert_eq!(Layout::PresentSrc.into_vulkan(), vk::ImageLayout::PRESENT_SRC_KHR.as_raw());
    assert_eq!(Layout::TransferDstOptimal.into_vulkan(), vk::ImageLayout::TRANSFER_DST_OPTIMAL.as_raw());
    assert_eq!(ViewType::CubeArray.into_vulkan(), vk::ImageViewType::CUBE_ARRAY.as_raw());
    assert_eq!(ComponentSwizzle::Alpha.into_vulkan(), vk::ComponentSwizzle::A.as_raw());
}

#[test]
fn aspects_flags_match_vulkan() {
    assert_eq!(Aspects::color().into_vulkan(), vk::ImageAspectFlags::COLOR.as_raw());
    assert_eq!(Aspects::depth().into_vulkan(), vk::ImageAspectFlags::DEPTH.as_raw());
    assert_eq!(
        Aspects::depth_stencil().into_vulkan(),
        (vk::ImageAspectFlags::DEPTH | vk::ImageAspectFlags::STENCIL).as_raw()
    );
    assert_eq!(Aspects::new(true, false, false, true).into_vulkan(), 0x9);
    assert_eq!(Aspects::new(false, false, false, false).into_vulkan(), 0);
}

#[test]
fn component_mapping() {
    let m = ComponentMapping::new(ComponentSwizzle::Blue, ComponentSwizzle::Green, ComponentSwizzle::Red, ComponentSwizzle::One);
    assert_eq!(m.into_vulkan(), (5, 4, 3, 2));
    assert_eq!(ComponentMapping::default().into_vulkan(), (0, 0, 0, 0));
    assert_eq!(ComponentSwizzle::default(), ComponentSwizzle::Identity);
}

#[test]
fn subresource_range() {
    let r = SubresourceRange {
        aspects: Aspects::color(),
        base_mip_level: 1,
        level_count: 3,
        base_array_layer: 0,
        layer_count: 6,
    };
    assert_eq!(r.into_vulkan(), (1, 1, 3, 0, 6));
}

#[test]
fn image_errors() {
    assert_eq!(BindError::from_vk_result(-1), Some(BindError::OutOfMemory(OomError::Host)));
    assert_eq!(BindError::from_vk_result(-1000257000), Some(BindError::InvalidOpaqueCaptureAddress));
    assert_eq!(BindError::from_vk_result(-4), None);
    assert_eq!(BindError::InvalidOpaqueCaptureAddress.message(), "invalid opaque capture address");
    assert_eq!(BindError::OutOfMemory(OomError::Device).message(), "device is out of memory");
    assert_eq!(BindError::OutOfMemory(OomError::Host).source(), Some(OomError::Host));
    assert_eq!(BindError::InvalidOpaqueCaptureAddress.source(), None);
    assert_eq!(CreationError::from_vk_result(-2), Some(CreationError::OutOfMemory(OomError::Device)));
    assert_eq!(CreationError::from_vk_result(-3), None);
    assert_eq!(OomError::Host.message(), "host is out of memory");
}

#[test]
fn transient_usage_is_checked() {
    let transient = Usage { transient_attachment: true, color_attachment: true, input_attachment: true, ..Usage::none() };
    assert!(transient.is_valid());
    assert_eq!(check_usage(&transient), Ok(()));
    let bad = Usage { transient_attachment: true, sampled: true, ..Usage::none() };
    assert!(!bad.is_valid());
    assert_eq!(check_usage(&bad), Err(ImageCreationError::InvalidUsage));
    assert_eq!(check_usage(&Usage::all()), Err(ImageCreationError::InvalidUsage));
    assert_eq!(check_usage(&Usage { sampled: true, storage: true, ..Usage::none() }), Ok(()));
    assert_eq!(
        ImageCreationError::from_vk_result(vk::Result::ERROR_OUT_OF_DEVICE_MEMORY.as_raw()),
        Some(ImageCreationError::OutOfMemory(OomError::Device))
    );
    assert_eq!(ImageCreationError::from_vk_result(vk::Result::ERROR_DEVICE_LOST.as_raw()), None);
}
