use ash::vk;
use magma::command::buffer::{CreationError as BufferCreationError, RecordError};
use magma::command::pool::{AllocError, CreationError as PoolCreationError};
use magma::descriptor::pool::{create_flags, AllocationError, CreationError, Size, FREE_DESCRIPTOR_SET};
use magma::descriptor::set::layout::Binding;
use magma::descriptor::{Type, WriteInfo};
use magma::OomError;

#[test]
fn descriptor_type_codes_match_vulkan() {
    assert_eq!(Type::Sampler.into_vulkan(), vk::DescriptorType::SAMPLER.as_raw());
    assert_eq!(Type::UniformBuffer.into_vulkan(), vk::DescriptorType::UNIFORM_BUFFER.as_raw());
    assert_eq!(Type::StorageBufferDynamic.into_vulkan(), vk::DescriptorType::STORAGE_BUFFER_DYNAMIC.as_raw());
    assert_eq!(Type::InputAttachment.into_vulkan(), vk::DescriptorType::INPUT_ATTACHMENT.as_raw());
}

#[test]
fn descriptor_pool_flags_and_sizes() {
    assert_eq!(create_flags(true), vk::DescriptorPoolCreateFlags::FREE_DESCRIPTOR_SET.as_raw());
    assert_eq!(create_flags(true), FREE_DESCRIPTOR_SET);
    assert_eq!(create_flags(false), 0);
    assert_eq!(Size::new(Type::CombinedImageSampler, 4).into_vulkan(), (1, 4));
}

#[test]
fn descriptor_binding() {
    let b = Binding::new(2, Type::UniformBuffer, 3, vk::ShaderStageFlags::VERTEX.as_raw());
    assert_eq!(b.binding, 2);
    assert_eq!(b.descriptor_type, vk::DescriptorType::UNIFORM_BUFFER.as_raw());
    assert_eq!(b.descriptor_count, 3);
    assert_eq!(b.stage_flags, vk::ShaderStageFlags::VERTEX.as_raw());
}

#[test]
fn descriptor_write_counts() {
    let one: WriteInfo<u8, u16> = WriteInfo::Image(0);
    assert_eq!(one.count(), 1);
    let many: WriteInfo<u8, u16> = WriteInfo::Buffers(vec![1, 2, 3]);
    assert_eq!(many.count(), 3);
    assert!(many.fits(1, 4));
    assert!(!many.fits(2, 4));
    assert!(!many.fits(u32::MAX, 4));
    let none: WriteInfo<u8, u16> = WriteInfo::Images(Vec::new());
    assert_eq!(none.count(), 0);
    assert!(none.fits(4, 4));
}

#[test]
fn descriptor_pool_errors() {
    assert_eq!(
        CreationError::from_vk_result(vk::Result::ERROR_FRAGMENTATION.as_raw()),
        Some(CreationError::Fragmentation)
    );
    assert_eq!(CreationError::from_vk_result(-12), None);
    assert_eq!(AllocationError::from_vk_result(-12), Some(AllocationError::FragmentedPool));
    assert_eq!(
        AllocationError::from_vk_result(vk::Result::ERROR_OUT_OF_POOL_MEMORY.as_raw()),
        Some(AllocationError::OutOfPoolMemory)
    );
    assert_eq!(AllocationError::from_vk_result(-1), Some(AllocationError::OutOfMemory(OomError::Host)));
}

#[test]
fn command_errors() {
    assert_eq!(PoolCreationError::from_vk_result(-2), Some(PoolCreationError::OutOfMemory(OomError::Device)));
    assert_eq!(AllocError::from_vk_result(-1), Some(AllocError::OutOfMemory(OomError::Host)));
    assert_eq!(AllocError::from_vk_result(-4), None);
    assert_eq!(BufferCreationError::from_vk_result(-1), Some(BufferCreationError::OutOfMemory(OomError::Host)));
    assert_eq!(RecordError::from_vk_result(-2), Some(RecordError::OutOfMemory(OomError::Device)));
    assert_eq!(RecordError::from_vk_result(7), None);
}

#[test]
fn update_write_descriptor_appends_writes() {
    let mut update: magma::descriptor::Update<u8, u16> = magma::descriptor::Update::new();
    assert!(update.writes.is_empty() && update.copies.is_empty());
    let info: WriteInfo<u8, u16> = WriteInfo::Buffers(vec![4, 5]);
    assert!(info.fits(1, 3));
    update.write_descriptor(42, 2, Type::UniformBuffer, 3, 1, info);
    update.write_descriptor(43, 0, Type::CombinedImageSampler, 1, 0, WriteInfo::Image(9));
    assert_eq!(update.writes.len(), 2);
    let w = &update.writes[0];
    assert_eq!((w.dst_set, w.dst_binding, w.dst_array_element, w.descriptor_count), (42, 2, 1, 2));
    assert_eq!(w.descriptor_type, vk::DescriptorType::UNIFORM_BUFFER.as_raw());
    assert!(matches!(&w.info, WriteInfo::Buffers(v) if v == &vec![4u16, 5]));
    let w = &update.writes[1];
    assert_eq!((w.dst_set, w.dst_binding, w.dst_array_element, w.descriptor_count), (43, 0, 0, 1));
    assert_eq!(w.descriptor_type, vk::DescriptorType::COMBINED_IMAGE_SAMPLER.as_raw());
    assert!(update.copies.is_empty());
    assert!(!WriteInfo::<u8, u16>::Buffers(vec![1, 2, 3]).fits(1, 3));
}

#[test]
fn recorded_resources_are_tracked_once() {
    let mut resources = magma::command::buffer::Resources::new();
    assert_eq!(resources.len(), 0);
    assert!(!resources.uses(7));
    resources.insert(7);
    resources.insert(9);
    resources.insert(7);
    assert!(resources.uses(7) && resources.uses(9) && !resources.uses(8));
    assert_eq!(resources.len(), 2);
}
