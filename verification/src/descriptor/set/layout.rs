//! Descriptor set layouts: bindings and the relations between typed and
//! untyped layouts.
use vstd::prelude::*;
use crate::descriptor::Type;

verus! {

/// Untyped shader module descriptor set layout
/// well typed by the typed shader module descriptor set layout
/// `T`.
///
/// The `T` layout type is a well typed version of `Self` if
/// - it matches `Self` (every binding defined in `T` is defined in `Self`)
/// - every binding defined in `Self` is defined in `T` and its
///   definition matches the constraints defined in `Self`
///   (descriptor type, count and accessing shader stages).
pub trait WellTypedBy<T> {}

/// Typed shader module descriptor set layout
/// that matches the untyped shader module descriptor set layout
/// `T`.
/// This means that all the bindings in `Self` are defined
/// in `T` with the same item count.
pub trait Matches<T> {}

/// A binding of a descriptor set layout (`VkDescriptorSetLayoutBinding`):
/// its index, descriptor type code, descriptor count and the flags of the
/// shader stages that access it.
#[derive(Debug, Clone, Copy, PartialEq, Eq, Structural)]
pub struct Binding {
    pub binding: u32,
    pub descriptor_type: i32,
    pub descriptor_count: u32,
    pub stage_flags: u32,
}

impl Binding {
    pub fn new(index: u32, ty: Type, count: u32, stage_flags: u32) -> (b: Binding)
        ensures
            b == (Binding {
                binding: index,
                descriptor_type: ty.spec_code(),
                descriptor_count: count,
                stage_flags,
            }),
    {
        Binding { binding: index, descriptor_type: ty.into_vulkan(), descriptor_count: count, stage_flags }
    }
}

} // verus!
