//! Image views: view type, component mapping and subresource ranges.
use vstd::prelude::*;
use crate::OomError;
use crate::codes;
use crate::format::has_flag;

verus! {

/// Image view creation error.
#[derive(Debug, Clone, Copy, PartialEq, Eq, Structural)]
pub enum CreationError {
    OutOfMemory(OomError),
}

impl CreationError {
    /// The error that a Vulkan result code denotes; `None` for the codes
    /// that view creation cannot return.
    pub fn from_vk_result(code: i32) -> (r: Option<CreationError>)
        ensures
            r == (match codes::spec_oom(code) {
                Some(e) => Some(CreationError::OutOfMemory(e)),
                None => None,
            }),
    {
        match codes::oom(code) {
            Some(e) => Some(CreationError::OutOfMemory(e)),
            None => None,
        }
    }
}

/// Type of an image view.
#[derive(Clone, Copy, Debug, PartialEq, Eq, Hash, Structural)]
pub enum Type {
    D1,
    D2,
    D3,
    Cube,
    D1Array,
    D2Array,
    CubeArray,
}

impl Type {
    /// The Vulkan code of this value (`VkImageViewType`).
    pub open spec fn spec_code(self) -> i32 {
        match self {
            Type::D1 => 0,
            Type::D2 => 1,
            Type::D3 => 2,
            Type::Cube => 3,
            Type::D1Array => 4,
            Type::D2Array => 5,
            Type::CubeArray => 6,
        }
    }

    /// Returns the Vulkan code of this value.
    pub fn into_vulkan(self) -> (c: i32)
        ensures
            c == self.spec_code(),
    {
        match self {
            Type::D1 => 0,
            Type::D2 => 1,
            Type::D3 => 2,
            Type::Cube => 3,
            Type::D1Array => 4,
            Type::D2Array => 5,
            Type::CubeArray => 6,
        }
    }
}

/// Source of a component of an image view.
#[derive(Clone, Copy, Debug, PartialEq, Eq, Hash, Structural)]
pub enum ComponentSwizzle {
    Identity,
    Zero,
    One,
    Red,
    Green,
    Blue,
    Alpha,
}

impl ComponentSwizzle {
    /// The Vulkan code of this value (`VkComponentSwizzle`).
    pub open spec fn spec_code(self) -> i32 {
        match self {
            ComponentSwizzle::Identity => 0,
            ComponentSwizzle::Zero => 1,
            ComponentSwizzle::One => 2,
            ComponentSwizzle::Red => 3,
            ComponentSwizzle::Green => 4,
            ComponentSwizzle::Blue => 5,
            ComponentSwizzle::Alpha => 6,
        }
    }

    /// Returns the Vulkan code of this value.
    pub fn into_vulkan(self) -> (c: i32)
        ensures
            c == self.spec_code(),
    {
        match self {
            ComponentSwizzle::Identity => 0,
            ComponentSwizzle::Zero => 1,
            ComponentSwizzle::One => 2,
            ComponentSwizzle::Red => 3,
            ComponentSwizzle::Green => 4,
            ComponentSwizzle::Blue => 5,
            ComponentSwizzle::Alpha => 6,
        }
    }
}

impl Default for ComponentSwizzle {
    fn default() -> (s: ComponentSwizzle)
        ensures
            s == ComponentSwizzle::Identity,
    {
        ComponentSwizzle::Identity
    }
}

/// Mapping of the color components of an image view.
#[derive(Clone, Copy, Debug, PartialEq, Eq, Structural)]
pub struct ComponentMapping {
    red: ComponentSwizzle,
    green: ComponentSwizzle,
    blue: ComponentSwizzle,
    alpha: ComponentSwizzle,
}

impl View for ComponentMapping {
    /// Swizzles of the red, green, blue and alpha components.
    type V = (ComponentSwizzle, ComponentSwizzle, ComponentSwizzle, ComponentSwizzle);

    closed spec fn view(&self) -> (ComponentSwizzle, ComponentSwizzle, ComponentSwizzle, ComponentSwizzle) {
        (self.red, self.green, self.blue, self.alpha)
    }
}

impl ComponentMapping {
    pub fn new(
        red: ComponentSwizzle,
        green: ComponentSwizzle,
        blue: ComponentSwizzle,
        alpha: ComponentSwizzle,
    ) -> (m: ComponentMapping)
        ensures
            m@ == (red, green, blue, alpha),
    {
        ComponentMapping { red, green, blue, alpha }
    }

    /// The Vulkan codes of the four swizzles (`VkComponentMapping`).
    pub fn into_vulkan(self) -> (c: (i32, i32, i32, i32))
        ensures
            c == (self@.0.spec_code(), self@.1.spec_code(), self@.2.spec_code(), self@.3.spec_code()),
    {
        (self.red.into_vulkan(), self.green.into_vulkan(), self.blue.into_vulkan(), self.alpha.into_vulkan())
    }
}

impl Default for ComponentMapping {
    fn default() -> (m: ComponentMapping)
        ensures
            m@ == (
                ComponentSwizzle::Identity,
                ComponentSwizzle::Identity,
                ComponentSwizzle::Identity,
                ComponentSwizzle::Identity,
            ),
    {
        ComponentMapping {
            red: ComponentSwizzle::Identity,
            green: ComponentSwizzle::Identity,
            blue: ComponentSwizzle::Identity,
            alpha: ComponentSwizzle::Identity,
        }
    }
}

/// Aspects of an image (color, depth, stencil, metadata).
#[derive(Clone, Copy, Debug, PartialEq, Eq, Structural)]
pub struct Aspects {
    color: bool,
    depth: bool,
    stencil: bool,
    metadata: bool,
}

impl View for Aspects {
    /// Whether the color, depth, stencil and metadata aspects are selected.
    type V = (bool, bool, bool, bool);

    closed spec fn view(&self) -> (bool, bool, bool, bool) {
        (self.color, self.depth, self.stencil, self.metadata)
    }
}

/// The Vulkan aspect flags (`VkImageAspectFlags`) of a selection of aspects.
pub open spec fn spec_aspect_flags(a: (bool, bool, bool, bool)) -> u32 {
    (if a.0 { 0x1u32 } else { 0u32 }) | (if a.1 { 0x2u32 } else { 0u32 }) | (if a.2 { 0x4u32 } else { 0u32 }) | (
    if a.3 {
        0x8u32
    } else {
        0u32
    })
}

impl Aspects {
    pub fn new(color: bool, depth: bool, stencil: bool, metadata: bool) -> (a: Aspects)
        ensures
            a@ == (color, depth, stencil, metadata),
    {
        Aspects { color, depth, stencil, metadata }
    }

    pub fn color() -> (a: Aspects)
        ensures
            a@ == (true, false, false, false),
    {
        Self::new(true, false, false, false)
    }

    pub fn depth() -> (a: Aspects)
        ensures
            a@ == (false, true, false, false),
    {
        Self::new(false, true, false, false)
    }

    pub fn depth_stencil() -> (a: Aspects)
        ensures
            a@ == (false, true, true, false),
    {
        Self::new(false, true, true, false)
    }

    /// Returns the Vulkan aspect flags of this selection.
    pub fn into_vulkan(self) -> (f: u32)
        ensures
            f == spec_aspect_flags(self@),
    {
        let color: u32 = if self.color { 0x1 } else { 0 };
        let depth: u32 = if self.depth { 0x2 } else { 0 };
        let stencil: u32 = if self.stencil { 0x4 } else { 0 };
        let metadata: u32 = if self.metadata { 0x8 } else { 0 };
        color | depth | stencil | metadata
    }
}

/// Each aspect is selected exactly when its bit is in the aspect flags.
pub proof fn lemma_aspect_flags(a: (bool, bool, bool, bool))
    ensures
        has_flag(spec_aspect_flags(a), 0x1) == a.0,
        has_flag(spec_aspect_flags(a), 0x2) == a.1,
        has_flag(spec_aspect_flags(a), 0x4) == a.2,
        has_flag(spec_aspect_flags(a), 0x8) == a.3,
        spec_aspect_flags(a) < 16,
{
    let (c, d, s, m) = a;
    assert(has_flag(spec_aspect_flags((c, d, s, m)), 0x1) == c) by (bit_vector);
    assert(has_flag(spec_aspect_flags((c, d, s, m)), 0x2) == d) by (bit_vector);
    assert(has_flag(spec_aspect_flags((c, d, s, m)), 0x4) == s) by (bit_vector);
    assert(has_flag(spec_aspect_flags((c, d, s, m)), 0x8) == m) by (bit_vector);
    assert(spec_aspect_flags((c, d, s, m)) < 16) by (bit_vector);
}

/// A range of mipmap levels and array layers of some aspects of an image.
#[derive(Clone, Copy, Debug, PartialEq, Eq, Structural)]
pub struct SubresourceRange {
    pub aspects: Aspects,
    pub base_mip_level: u32,
    pub level_count: u32,
    pub base_array_layer: u32,
    pub layer_count: u32,
}

impl SubresourceRange {
    /// The Vulkan description of this range (`VkImageSubresourceRange`):
    /// aspect flags, base mip level, level count, base array layer, layer count.
    pub fn into_vulkan(self) -> (r: (u32, u32, u32, u32, u32))
        ensures
            r == (
                spec_aspect_flags(self.aspects@),
                self.base_mip_level,
                self.level_count,
                self.base_array_layer,
                self.layer_count,
            ),
    {
        (
            self.aspects.into_vulkan(),
            self.base_mip_level,
            self.level_count,
            self.base_array_layer,
            self.layer_count,
        )
    }
}

} // verus!
