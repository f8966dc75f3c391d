use ash::vk;
use magma::buffer::{BindError, CreationError, MemoryRequirements, Usage, Usages};
use magma::instance::physical_device::Limits;
use magma::OomError;

#[test]
fn usage_bits_match_vulkan() {
    assert_eq!(Usage::TransferSource.into_vulkan(), vk::BufferUsageFlags::TRANSFER_SRC.as_raw());
    assert_eq!(Usage::TransferDestination.into_vulkan(), vk::BufferUsageFlags::TRANSFER_DST.as_raw());
    assert_eq!(Usage::UniformTexelBuffer.into_vulkan(), vk::BufferUsageFlags::UNIFORM_TEXEL_BUFFER.as_raw());
    assert_eq!(Usage::StorageTexelBuffer.into_vulkan(), vk::BufferUsageFlags::STORAGE_TEXEL_BUFFER.as_raw());
    assert_eq!(Usage::UniformBuffer.into_vulkan(), vk::BufferUsageFlags::UNIFORM_BUFFER.as_raw());
    assert_eq!(Usage::StorageBuffer.into_vulkan(), vk::BufferUsageFlags::STORAGE_BUFFER.as_raw());
    assert_eq!(Usage::IndexBuffer.into_vulkan(), vk::BufferUsageFlags::INDEX_BUFFER.as_raw());
    assert_eq!(Usage::VertexBuffer.into_vulkan(), vk::BufferUsageFlags::VERTEX_BUFFER.as_raw());
    assert_eq!(Usage::IndirectBuffer.into_vulkan(), vk::BufferUsageFlags::INDIRECT_BUFFER.as_raw());
}

#[test]
fn usages_union() {
    let u = Usage::VertexBuffer | Usage::TransferDestination;
    assert!(u.vertex_buffer());
    assert!(u.transfer_destination());
    assert!(!u.index_buffer());
    assert!(!u.transfer_source());
    assert_eq!(u.into_vulkan(), 0x82);
    let v = u | Usage::IndexBuffer;
    assert!(v.index_buffer() && v.vertex_buffer());
    let w = Usage::UniformBuffer | v;
    assert!(w.uniform_buffer() && w.index_buffer());
    assert_eq!(u | v, v);
    assert_eq!(v | u, v);
}

#[test]
fn usages_insert() {
    let mut u = Usages::from(Usage::StorageBuffer);
    assert!(u.storage_buffer() && !u.uniform_buffer());
    u.insert(Usage::UniformBuffer);
    assert!(u.storage_buffer() && u.uniform_buffer());
    u.insert_all(Usage::IndirectBuffer | Usage::TransferSource);
    assert!(u.indirect_buffer() && u.transfer_source() && !u.vertex_buffer());
}

#[test]
fn usages_empty() {
    assert!(Usages::from_vulkan(0).is_empty());
    assert!(!Usages::from(Usage::TransferSource).is_empty());
}

#[test]
fn usages_offset_alignment() {
    let limits = Limits {
        min_texel_buffer_offset_alignment: 16,
        min_uniform_buffer_offset_alignment: 256,
        min_storage_buffer_offset_alignment: 64,
    };
    let vertex = Usages::from(Usage::VertexBuffer);
    assert!(vertex.offset_aligned(3, &limits));
    let uniform = Usages::from(Usage::UniformBuffer);
    assert!(uniform.offset_aligned(512, &limits));
    assert!(!uniform.offset_aligned(128, &limits));
    let storage = Usage::StorageBuffer | Usage::StorageTexelBuffer;
    assert!(storage.offset_aligned(128, &limits));
    assert!(!storage.offset_aligned(32, &limits));
    let texel = Usages::from(Usage::UniformTexelBuffer);
    assert!(texel.offset_aligned(48, &limits));
    assert!(!texel.offset_aligned(40, &limits));
}

#[test]
fn memory_requirements_accessors() {
    let r = MemoryRequirements::new(1024, 256, 0b1010);
    assert_eq!(r.size(), 1024);
    assert_eq!(r.alignment(), 256);
    assert_eq!(r.memory_type_bits(), 0b1010);
    assert!(!r.contains_memory_type_index(0));
    assert!(r.contains_memory_type_index(1));
    assert!(!r.contains_memory_type_index(2));
    assert!(r.contains_memory_type_index(3));
    assert!(!r.contains_memory_type_index(31));
}

#[test]
fn memory_requirements_satisfied_by() {
    let r = MemoryRequirements::new(1024, 256, 0b10);
    assert!(r.satisfied_by(4096, 512, 1));
    assert!(r.satisfied_by(1536, 512, 1));
    assert!(!r.satisfied_by(1535, 512, 1));
    assert!(!r.satisfied_by(4096, 100, 1));
    assert!(!r.satisfied_by(4096, 512, 0));
}

#[test]
fn buffer_errors_from_codes() {
    assert_eq!(
        CreationError::from_vk_result(vk::Result::ERROR_OUT_OF_HOST_MEMORY.as_raw()),
        Some(CreationError::OutOfMemory(OomError::Host))
    );
    assert_eq!(
        CreationError::from_vk_result(vk::Result::ERROR_OUT_OF_DEVICE_MEMORY.as_raw()),
        Some(CreationError::OutOfMemory(OomError::Device))
    );
    assert_eq!(
        CreationError::from_vk_result(vk::Result::ERROR_INVALID_OPAQUE_CAPTURE_ADDRESS_KHR.as_raw()),
        Some(CreationError::InvalidOpaqueCaptureAddress)
    );
    assert_eq!(CreationError::from_vk_result(vk::Result::ERROR_DEVICE_LOST.as_raw()), None);
    assert_eq!(
        BindError::from_vk_result(vk::Result::ERROR_INVALID_OPAQUE_CAPTURE_ADDRESS.as_raw()),
        Some(BindError::InvalidOpaqueCaptureAddress)
    );
    assert_eq!(BindError::from_vk_result(vk::Result::SUCCESS.as_raw()), None);
}

#[test]
fn buffer_creation_info() {
    let usages = Usage::VertexBuffer | Usage::TransferDestination;
    assert_eq!(
        magma::buffer::creation_info(256, usages),
        (256, (vk::BufferUsageFlags::VERTEX_BUFFER | vk::BufferUsageFlags::TRANSFER_DST).as_raw())
    );
}
