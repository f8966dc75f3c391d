//! Descriptors: descriptor types, pools, set layouts and writes.
use vstd::prelude::*;

pub mod pool;
pub mod set;

verus! {

/// Descriptor type.
#[derive(Clone, Copy, Debug, PartialEq, Eq, Hash, Structural)]
pub enum Type {
    Sampler,
    CombinedImageSampler,
    SampledImage,
    StorageImage,
    UniformTexelBuffer,
    StorageTexelBuffer,
    UniformBuffer,
    StorageBuffer,
    UniformBufferDynamic,
    StorageBufferDynamic,
    InputAttachment,
}

impl Type {
    /// The Vulkan code of this value (`VkDescriptorType`).
    pub open spec fn spec_code(self) -> i32 {
        match self {
            Type::Sampler => 0,
            Type::CombinedImageSampler => 1,
            Type::SampledImage => 2,
            Type::StorageImage => 3,
            Type::UniformTexelBuffer => 4,
            Type::StorageTexelBuffer => 5,
            Type::UniformBuffer => 6,
            Type::StorageBuffer => 7,
            Type::UniformBufferDynamic => 8,
            Type::StorageBufferDynamic => 9,
            Type::InputAttachment => 10,
        }
    }

    /// Returns the Vulkan code of this value.
    pub fn into_vulkan(self) -> (c: i32)
        ensures
            c == self.spec_code(),
    {
        match self {
            Type::Sampler => 0,
            Type::CombinedImageSampler => 1,
            Type::SampledImage => 2,
            Type::StorageImage => 3,
            Type::UniformTexelBuffer => 4,
            Type::StorageTexelBuffer => 5,
            Type::UniformBuffer => 6,
            Type::StorageBuffer => 7,
            Type::UniformBufferDynamic => 8,
            Type::StorageBufferDynamic => 9,
            Type::InputAttachment => 10,
        }
    }
}

/// The descriptor types in the order of the Vulkan enumeration `VkDescriptorType`.
pub open spec fn vulkan_order() -> Seq<Type> {
    seq![
        Type::Sampler,
        Type::CombinedImageSampler,
        Type::SampledImage,
        Type::StorageImage,
        Type::UniformTexelBuffer,
        Type::StorageTexelBuffer,
        Type::UniformBuffer,
        Type::StorageBuffer,
        Type::UniformBufferDynamic,
        Type::StorageBufferDynamic,
        Type::InputAttachment,
    ]
}

/// The Vulkan code of a descriptor type is its position in the Vulkan
/// enumeration, and every descriptor type appears there.
pub proof fn lemma_type_code_is_position(t: Type)
    ensures
        vulkan_order().contains(t),
        0 <= t.spec_code() < vulkan_order().len(),
        vulkan_order()[t.spec_code() as int] == t,
{
    match t {
        Type::Sampler => assert(vulkan_order()[0] == t),
        Type::CombinedImageSampler => assert(vulkan_order()[1] == t),
        Type::SampledImage => assert(vulkan_order()[2] == t),
        Type::StorageImage => assert(vulkan_order()[3] == t),
        Type::UniformTexelBuffer => assert(vulkan_order()[4] == t),
        Type::StorageTexelBuffer => assert(vulkan_order()[5] == t),
        Type::UniformBuffer => assert(vulkan_order()[6] == t),
        Type::StorageBuffer => assert(vulkan_order()[7] == t),
        Type::UniformBufferDynamic => assert(vulkan_order()[8] == t),
        Type::StorageBufferDynamic => assert(vulkan_order()[9] == t),
        Type::InputAttachment => assert(vulkan_order()[10] == t),
    }
}

/// Distinct descriptor types have distinct Vulkan codes.
pub proof fn lemma_type_code_injective(a: Type, b: Type)
    requires
        a.spec_code() == b.spec_code(),
    ensures
        a == b,
{
    lemma_type_code_is_position(a);
    lemma_type_code_is_position(b);
}

/// The storage variant of a uniform descriptor type has the next Vulkan code.
pub proof fn lemma_storage_follows_uniform()
    ensures
        Type::StorageTexelBuffer.spec_code() == Type::UniformTexelBuffer.spec_code() + 1,
        Type::StorageBuffer.spec_code() == Type::UniformBuffer.spec_code() + 1,
        Type::StorageBufferDynamic.spec_code() == Type::UniformBufferDynamic.spec_code() + 1,
{
}

/// What a descriptor write sets: one image, several images, one buffer or
/// several buffers, each described by its Vulkan info (`I` for images, `B`
/// for buffers).
pub enum WriteInfo<I, B> {
    Image(I),
    Images(Vec<I>),
    Buffer(B),
    Buffers(Vec<B>),
}

impl<I, B> WriteInfo<I, B> {
    /// The number of descriptors that the write sets (as a 32-bit Vulkan count).
    pub open spec fn spec_count(&self) -> u32 {
        match self {
            WriteInfo::Image(_) => 1,
            WriteInfo::Images(infos) => infos@.len() as u32,
            WriteInfo::Buffer(_) => 1,
            WriteInfo::Buffers(infos) => infos@.len() as u32,
        }
    }

    /// The number of descriptors that the write sets.
    pub fn count(&self) -> (n: u32)
        ensures
            n == self.spec_count(),
    {
        match self {
            WriteInfo::Image(_) => 1,
            WriteInfo::Images(infos) => infos.len() as u32,
            WriteInfo::Buffer(_) => 1,
            WriteInfo::Buffers(infos) => infos.len() as u32,
        }
    }

    /// True when the write, starting at array element `offset`, stays within
    /// a binding of `descriptor_count` descriptors.
    pub fn fits(&self, offset: u32, descriptor_count: u32) -> (b: bool)
        ensures
            b == (offset + self.spec_count() <= descriptor_count),
    {
        (offset as u64) + (self.count() as u64) <= descriptor_count as u64
    }
}

/// A descriptor write (`VkWriteDescriptorSet`): the set (by handle), the
/// binding and first array element written, the number of descriptors and
/// their type code, and what is written.
pub struct DescriptorWrite<I, B> {
    pub dst_set: u64,
    pub dst_binding: u32,
    pub dst_array_element: u32,
    pub descriptor_count: u32,
    pub descriptor_type: i32,
    pub info: WriteInfo<I, B>,
}

/// A descriptor set update: the writes and copies to apply together, in
/// order. A copy is `(src_set, src_binding, src_array_element, dst_set,
/// dst_binding, dst_array_element, descriptor_count)`.
pub struct Update<I, B> {
    pub writes: Vec<DescriptorWrite<I, B>>,
    pub copies: Vec<(u64, u32, u32, u64, u32, u32, u32)>,
}

impl<I, B> Update<I, B> {
    /// An update with nothing to write or copy.
    pub fn new() -> (u: Update<I, B>)
        ensures
            u.writes@.len() == 0,
            u.copies@.len() == 0,
    {
        Update { writes: Vec::new(), copies: Vec::new() }
    }

    /// Adds a write of `info` to binding `binding` (of descriptor type `ty`,
    /// with `binding_count` array elements) of the set `dst_set`, starting
    /// at array element `offset`. The write must stay within the binding.
    pub fn write_descriptor(
        &mut self,
        dst_set: u64,
        binding: u32,
        ty: Type,
        binding_count: u32,
        offset: u32,
        info: WriteInfo<I, B>,
    )
        requires
            offset + info.spec_count() <= binding_count,
        ensures
            final(self).writes@ == old(self).writes@.push(
                (DescriptorWrite {
                    dst_set,
                    dst_binding: binding,
                    dst_array_element: offset,
                    descriptor_count: info.spec_count(),
                    descriptor_type: ty.spec_code(),
                    info,
                }),
            ),
            final(self).copies@ == old(self).copies@,
    {
        let descriptor_count = info.count();
        self.writes.push(
            DescriptorWrite {
                dst_set,
                dst_binding: binding,
                dst_array_element: offset,
                descriptor_count,
                descriptor_type: ty.into_vulkan(),
                info,
            },
        );
    }
}

} // verus!
