use std::convert::TryFrom;
use ash::vk;
use magma::format::Format;
use magma::framebuffer::render_pass::attachment::{Attachment, Attachments, UnformatedReference};
use magma::framebuffer::render_pass::subpass::{AccessFlags, Dependency, PipelineStages, Reference, Subpass, Subpasses};
use magma::framebuffer::render_pass::{CreationError as RenderPassCreationError, LoadOp, RenderPassBuilder, StoreOp};
use magma::framebuffer::{CreationError, InvalidSampleCount, SampleCount};
use magma::image::Layout;
use magma::OomError;

#[test]
fn sample_count_from_count() {
    for c in [1u8, 2, 4, 8, 16, 32, 64] {
        let s = SampleCount::try_from(c).unwrap();
        assert_eq!(s.into_vulkan(), c as u32);
    }
    assert_eq!(SampleCount::try_from(4u8).unwrap().into_vulkan(), vk::SampleCountFlags::TYPE_4.as_raw());
    assert_eq!(SampleCount::try_from(1u8).unwrap().into_vulkan(), vk::SampleCountFlags::TYPE_1.as_raw());
    assert_eq!(SampleCount::try_from(64u8).unwrap().into_vulkan(), vk::SampleCountFlags::TYPE_64.as_raw());
    for c in [0u8, 3, 5, 12, 65, 128, 255] {
        assert_eq!(SampleCount::try_from(c), Err(InvalidSampleCount));
        assert_eq!(SampleCount::new(c), Err(InvalidSampleCount));
    }
}

#[test]
fn pipeline_stages_flags_match_vulkan() {
    let s = PipelineStages {
        color_attachment_output: true,
        fragment_shader: true,
        ..PipelineStages::none()
    };
    assert_eq!(
        s.into_vulkan(),
        (vk::PipelineStageFlags::COLOR_ATTACHMENT_OUTPUT | vk::PipelineStageFlags::FRAGMENT_SHADER).as_raw()
    );
    let t = PipelineStages { all_commands: true, top_of_pipe: true, ..PipelineStages::default() };
    assert_eq!(t.into_vulkan(), (vk::PipelineStageFlags::ALL_COMMANDS | vk::PipelineStageFlags::TOP_OF_PIPE).as_raw());
    let u = s | t;
    assert_eq!(u.into_vulkan(), s.into_vulkan() | t.into_vulkan());
    let mut v = s;
    v.union_with(t);
    assert_eq!(v, u);
    assert_eq!(PipelineStages::none().into_vulkan(), 0);
}

#[test]
fn access_flags_match_vulkan() {
    assert_eq!(AccessFlags::all().into_vulkan(), 0x1ffff);
    assert_eq!(AccessFlags::none().into_vulkan(), 0);
    let a = AccessFlags { memory_write: true, shader_read: true, ..AccessFlags::none() };
    assert_eq!(a.into_vulkan(), (vk::AccessFlags::MEMORY_WRITE | vk::AccessFlags::SHADER_READ).as_raw());
    let b = AccessFlags { host_write: true, ..AccessFlags::none() };
    let mut c = a;
    c.union_with(b);
    assert_eq!(c, a | b);
    assert_eq!((a | b).into_vulkan(), a.into_vulkan() | b.into_vulkan());
}

#[test]
fn dependency_into_vulkan() {
    let d = Dependency {
        source_subpass: vk::SUBPASS_EXTERNAL,
        destination_subpass: 0,
        source_stages: PipelineStages { color_attachment_output: true, ..PipelineStages::none() },
        destination_stages: PipelineStages { color_attachment_output: true, ..PipelineStages::none() },
        source_access: AccessFlags::none(),
        destination_access: AccessFlags { color_attachment_write: true, ..AccessFlags::none() },
        by_region: true,
    };
    let v = d.into_vulkan();
    assert_eq!(v.src_subpass, vk::SUBPASS_EXTERNAL);
    assert_eq!(v.dst_subpass, 0);
    assert_eq!(v.src_stage_mask, vk::PipelineStageFlags::COLOR_ATTACHMENT_OUTPUT.as_raw());
    assert_eq!(v.src_access_mask, 0);
    assert_eq!(v.dst_access_mask, vk::AccessFlags::COLOR_ATTACHMENT_WRITE.as_raw());
    assert_eq!(v.dependency_flags, vk::DependencyFlags::BY_REGION.as_raw());
    let e = Dependency { by_region: false, ..d };
    assert_eq!(e.into_vulkan().dependency_flags, 0);
}

fn color_attachment() -> Attachment {
    Attachment {
        format: Format::B8G8R8A8Srgb,
        samples: SampleCount::try_from(1u8).unwrap(),
        load: LoadOp::Clear,
        store: StoreOp::Store,
        stencil_load: LoadOp::DontCare,
        stencil_store: StoreOp::DontCare,
        initial_layout: Layout::Undefined,
        final_layout: Layout::PresentSrc,
    }
}

#[test]
fn attachments_add_returns_successive_indices() {
    let mut attachments = Attachments::new();
    assert_eq!(attachments.len(), 0);
    let r0 = attachments.add(color_attachment());
    let r1 = attachments.add(color_attachment());
    let r2 = attachments.add(Attachment { format: Format::D32Sfloat, ..color_attachment() });
    assert_eq!((r0.index(), r1.index(), r2.index()), (0, 1, 2));
    assert_eq!(attachments.len(), 3);
    let d = attachments.descriptions()[0];
    assert_eq!(d.format, vk::Format::B8G8R8A8_SRGB.as_raw());
    assert_eq!(d.samples, vk::SampleCountFlags::TYPE_1.as_raw());
    assert_eq!(d.load_op, vk::AttachmentLoadOp::CLEAR.as_raw());
    assert_eq!(d.store_op, vk::AttachmentStoreOp::STORE.as_raw());
    assert_eq!(d.stencil_load_op, vk::AttachmentLoadOp::DONT_CARE.as_raw());
    assert_eq!(d.stencil_store_op, vk::AttachmentStoreOp::DONT_CARE.as_raw());
    assert_eq!(d.initial_layout, vk::ImageLayout::UNDEFINED.as_raw());
    assert_eq!(d.final_layout, vk::ImageLayout::PRESENT_SRC_KHR.as_raw());
    assert_eq!(attachments.descriptions()[2].format, vk::Format::D32_SFLOAT.as_raw());
}

#[test]
fn reference_with_layout() {
    let r = UnformatedReference::new(3).with_layout(Layout::ColorAttachmentOptimal);
    assert_eq!(r.attachment, 3);
    assert_eq!(r.layout, vk::ImageLayout::COLOR_ATTACHMENT_OPTIMAL.as_raw());
}

#[test]
fn render_pass_builder_indices() {
    let mut attachments = Attachments::new();
    let color = attachments.add(color_attachment()).with_layout(Layout::ColorAttachmentOptimal);
    let subpass = Subpass {
        color_attachments: vec![color],
        depth_stencil: None,
        input_attachments: Vec::new(),
        resolve_attachments: Vec::new(),
        preserve_attachments: vec![2, 5],
    };
    let mut builder = RenderPassBuilder::new(&attachments);
    assert_eq!(builder.add(subpass.as_ref()), 0);
    assert_eq!(builder.add(subpass.as_ref()), 1);
    assert_eq!(builder.subpass_count(), 2);
    builder.add_dependency(Dependency {
        source_subpass: 0,
        destination_subpass: 1,
        source_stages: PipelineStages::none(),
        destination_stages: PipelineStages::none(),
        source_access: AccessFlags::none(),
        destination_access: AccessFlags::none(),
        by_region: false,
    });
    assert_eq!(builder.dependencies().len(), 1);
    assert_eq!(builder.dependencies()[0].dst_subpass, 1);
    assert_eq!(builder.subpasses()[1].color_attachments.len(), 1);
    assert_eq!(builder.subpasses()[1].preserve_attachments, &[2, 5]);
    assert_eq!(builder.attachments().len(), 1);
}

#[test]
fn subpass_as_ref() {
    let depth = UnformatedReference::new(1).with_layout(Layout::DepthStencilAttachmentOptimal);
    let subpass = Subpass {
        color_attachments: vec![UnformatedReference::new(0).with_layout(Layout::ColorAttachmentOptimal)],
        depth_stencil: Some(depth),
        input_attachments: Vec::new(),
        resolve_attachments: Vec::new(),
        preserve_attachments: Vec::new(),
    };
    let r = subpass.as_ref();
    assert_eq!(r.color_attachments, &subpass.color_attachments[..]);
    assert_eq!(r.depth_stencil, Some(&depth));
    assert!(r.input_attachments.is_empty());
    let attachments = Attachments::new();
    let mut subpasses = Subpasses::new(&attachments);
    subpasses.add(r);
    assert_eq!(subpasses.attachments().len(), 0);
}

#[test]
fn subpass_reference_exists_only_in_range() {
    assert!(Reference::new("pass", 2, 2).is_none());
    assert!(Reference::new("pass", 0, 0).is_none());
    let r = Reference::new("pass", 2, 1).unwrap();
    assert_eq!(r.index(), 1);
    assert_eq!(*r.render_pass(), "pass");
}

#[test]
fn framebuffer_errors() {
    assert_eq!(CreationError::from_vk_result(-1), Some(CreationError::OutOfMemory(OomError::Host)));
    assert_eq!(CreationError::from_vk_result(-5), None);
    assert_eq!(
        RenderPassCreationError::from_vk_result(-2),
        Some(RenderPassCreationError::OutOfMemory(OomError::Device))
    );
    assert_eq!(RenderPassCreationError::from_vk_result(0), None);
    assert_eq!(LoadOp::Load.into_vulkan(), vk::AttachmentLoadOp::LOAD.as_raw());
    assert_eq!(StoreOp::DontCare.into_vulkan(), vk::AttachmentStoreOp::DONT_CARE.as_raw());
}
