//! Descriptor pools: pool sizes, creation flags and errors.
use vstd::prelude::*;
use crate::OomError;
use crate::codes;
use super::Type;

verus! {

/// Descriptor pool creation error.
#[derive(Debug, Clone, Copy, PartialEq, Eq, Structural)]
pub enum CreationError {
    OutOfMemory(OomError),
    Fragmentation,
}

impl CreationError {
    /// The error that a Vulkan result code denotes; `None` for the codes
    /// that pool creation cannot return.
    pub fn from_vk_result(code: i32) -> (r: Option<CreationError>)
        ensures
            r == (match codes::spec_oom(code) {
                Some(e) => Some(CreationError::OutOfMemory(e)),
                None => if code == codes::ERROR_FRAGMENTATION {
                    Some(CreationError::Fragmentation)
                } else {
                    None
                },
            }),
    {
        match codes::oom(code) {
            Some(e) => Some(CreationError::OutOfMemory(e)),
            None => if code == codes::ERROR_FRAGMENTATION {
                Some(CreationError::Fragmentation)
            } else {
                None
            },
        }
    }
}

/// Descriptor set allocation error.
#[derive(Debug, Clone, Copy, PartialEq, Eq, Structural)]
pub enum AllocationError {
    OutOfMemory(OomError),
    FragmentedPool,
    OutOfPoolMemory,
}

impl AllocationError {
    /// The error that a Vulkan result code denotes; `None` for the codes
    /// that set allocation cannot return.
    pub fn from_vk_result(code: i32) -> (r: Option<AllocationError>)
        ensures
            r == (match codes::spec_oom(code) {
                Some(e) => Some(AllocationError::OutOfMemory(e)),
                None => if code == codes::ERROR_FRAGMENTED_POOL {
                    Some(AllocationError::FragmentedPool)
                } else if code == codes::ERROR_OUT_OF_POOL_MEMORY {
                    Some(AllocationError::OutOfPoolMemory)
                } else {
                    None
                },
            }),
    {
        match codes::oom(code) {
            Some(e) => Some(AllocationError::OutOfMemory(e)),
            None => if code == codes::ERROR_FRAGMENTED_POOL {
                Some(AllocationError::FragmentedPool)
            } else if code == codes::ERROR_OUT_OF_POOL_MEMORY {
                Some(AllocationError::OutOfPoolMemory)
            } else {
                None
            },
        }
    }
}

/// Number of descriptors of one type that a pool holds (`VkDescriptorPoolSize`).
#[derive(Debug, Clone, Copy, PartialEq, Eq, Structural)]
pub struct Size {
    ty: Type,
    descriptor_count: u32,
}

impl View for Size {
    type V = (Type, u32);

    closed spec fn view(&self) -> (Type, u32) {
        (self.ty, self.descriptor_count)
    }
}

impl Size {
    pub fn new(ty: Type, descriptor_count: u32) -> (s: Size)
        ensures
            s@ == (ty, descriptor_count),
    {
        Size { ty, descriptor_count }
    }

    /// The Vulkan pool size: descriptor type code and count.
    pub fn into_vulkan(self) -> (r: (i32, u32))
        ensures
            r == (self@.0.spec_code(), self@.1),
    {
        (self.ty.into_vulkan(), self.descriptor_count)
    }
}

/// The flag that lets descriptor sets be freed one by one (`VK_DESCRIPTOR_POOL_CREATE_FREE_DESCRIPTOR_SET_BIT`).
pub const FREE_DESCRIPTOR_SET: u32 = 0x1;

/// The creation flags of a pool whose sets are freed when dropped (`free`)
/// or only when the pool is.
pub fn create_flags(free: bool) -> (flags: u32)
    ensures
        flags == (if free { FREE_DESCRIPTOR_SET } else { 0 }),
{
    let mut flags: u32 = 0;
    if free {
        flags = flags | FREE_DESCRIPTOR_SET;
    }
    proof {
        assert(0u32 | 0x1u32 == 0x1u32) by (bit_vector);
    }
    flags
}

} // verus!
