//! Images: usage, type, tiling and layout, and the errors of image
//! operations.
use vstd::prelude::*;
use crate::OomError;
use crate::codes;
use crate::format::has_flag;

pub mod view;

verus! {

/// Describes how an image is going to be used. This is **not** just an optimization.
///
/// If `transient_attachment` is true, then only `color_attachment`, `depth_stencil_attachment`
/// and `input_attachment` can be true as well. The rest must be false or an error will be returned
/// when creating the image.
#[derive(Debug, Copy, Clone, PartialEq, Eq, Hash, Structural)]
pub struct Usage {
    /// Can be used as a source for transfers. Includes blits.
    pub transfer_source: bool,
    /// Can be used as a destination for transfers. Includes blits.
    pub transfer_destination: bool,
    /// Can be sampled from a shader.
    pub sampled: bool,
    /// Can be used as an image storage in a shader.
    pub storage: bool,
    /// Can be attached as a color attachment to a framebuffer.
    pub color_attachment: bool,
    /// Can be attached as a depth, stencil or depth-stencil attachment to a framebuffer.
    pub depth_stencil_attachment: bool,
    /// Indicates that this image will only ever be used as a temporary framebuffer attachment.
    /// As soon as you leave a render pass, the content of transient images becomes undefined.
    pub transient_attachment: bool,
    /// Can be used as an input attachment. In other words, you can draw to it in a subpass then
    /// read from it in a following pass.
    pub input_attachment: bool,
}

impl Usage {
    /// Builds a `Usage` with all values set to true. Note that using the returned value will
    /// produce an error because of `transient_attachment` being true.
    pub fn all() -> (u: Usage)
        ensures
            u.transfer_source == true,
            u.transfer_destination == true,
            u.sampled == true,
            u.storage == true,
            u.color_attachment == true,
            u.depth_stencil_attachment == true,
            u.transient_attachment == true,
            u.input_attachment == true,
    {
        Usage {
            transfer_source: true,
            transfer_destination: true,
            sampled: true,
            storage: true,
            color_attachment: true,
            depth_stencil_attachment: true,
            transient_attachment: true,
            input_attachment: true,
        }
    }

    /// Builds a `Usage` with all values set to false. Useful as a default value.
    pub fn none() -> (u: Usage)
        ensures
            u.transfer_source == false,
            u.transfer_destination == false,
            u.sampled == false,
            u.storage == false,
            u.color_attachment == false,
            u.depth_stencil_attachment == false,
            u.transient_attachment == false,
            u.input_attachment == false,
    {
        Usage {
            transfer_source: false,
            transfer_destination: false,
            sampled: false,
            storage: false,
            color_attachment: false,
            depth_stencil_attachment: false,
            transient_attachment: false,
            input_attachment: false,
        }
    }

    /// Builds a Usage with color_attachment set to true and the rest to false.
    pub fn color_attachment() -> (u: Usage)
        ensures
            u.transfer_source == false,
            u.transfer_destination == false,
            u.sampled == false,
            u.storage == false,
            u.color_attachment == true,
            u.depth_stencil_attachment == false,
            u.transient_attachment == false,
            u.input_attachment == false,
    {
        Usage {
            transfer_source: false,
            transfer_destination: false,
            sampled: false,
            storage: false,
            color_attachment: true,
            depth_stencil_attachment: false,
            transient_attachment: false,
            input_attachment: false,
        }
    }

    /// Builds a Usage with depth_stencil_attachment set to true and the rest to false.
    pub fn depth_stencil_attachment() -> (u: Usage)
        ensures
            u.transfer_source == false,
            u.transfer_destination == false,
            u.sampled == false,
            u.storage == false,
            u.color_attachment == false,
            u.depth_stencil_attachment == true,
            u.transient_attachment == false,
            u.input_attachment == false,
    {
        Usage {
            transfer_source: false,
            transfer_destination: false,
            sampled: false,
            storage: false,
            color_attachment: false,
            depth_stencil_attachment: true,
            transient_attachment: false,
            input_attachment: false,
        }
    }

    /// Builds a Usage with color_attachment and transient_attachment set to true and the rest to false.
    pub fn transient_color_attachment() -> (u: Usage)
        ensures
            u.transfer_source == false,
            u.transfer_destination == false,
            u.sampled == false,
            u.storage == false,
            u.color_attachment == true,
            u.depth_stencil_attachment == false,
            u.transient_attachment == true,
            u.input_attachment == false,
    {
        Usage {
            transfer_source: false,
            transfer_destination: false,
            sampled: false,
            storage: false,
            color_attachment: true,
            depth_stencil_attachment: false,
            transient_attachment: true,
            input_attachment: false,
        }
    }

    /// Builds a Usage with depth_stencil_attachment and transient_attachment set to true and the rest to false.
    pub fn transient_depth_stencil_attachment() -> (u: Usage)
        ensures
            u.transfer_source == false,
            u.transfer_destination == false,
            u.sampled == false,
            u.storage == false,
            u.color_attachment == false,
            u.depth_stencil_attachment == true,
            u.transient_attachment == true,
            u.input_attachment == false,
    {
        Usage {
            transfer_source: false,
            transfer_destination: false,
            sampled: false,
            storage: false,
            color_attachment: false,
            depth_stencil_attachment: true,
            transient_attachment: true,
            input_attachment: false,
        }
    }

    /// The Vulkan flags of this usage (`VkImageUsageFlags`): one bit per
    /// usage that is set.
    pub open spec fn spec_to_vulkan(self) -> u32 {
        (if self.transfer_source { 0x1u32 } else { 0u32 })
            | (if self.transfer_destination { 0x2u32 } else { 0u32 })
            | (if self.sampled { 0x4u32 } else { 0u32 })
            | (if self.storage { 0x8u32 } else { 0u32 })
            | (if self.color_attachment { 0x10u32 } else { 0u32 })
            | (if self.depth_stencil_attachment { 0x20u32 } else { 0u32 })
            | (if self.transient_attachment { 0x40u32 } else { 0u32 })
            | (if self.input_attachment { 0x80u32 } else { 0u32 })
    }

    /// The usage that the Vulkan flags `val` denote.
    pub open spec fn spec_from_vulkan(val: u32) -> Usage {
        Usage {
            transfer_source: has_flag(val, 0x1),
            transfer_destination: has_flag(val, 0x2),
            sampled: has_flag(val, 0x4),
            storage: has_flag(val, 0x8),
            color_attachment: has_flag(val, 0x10),
            depth_stencil_attachment: has_flag(val, 0x20),
            transient_attachment: has_flag(val, 0x40),
            input_attachment: has_flag(val, 0x80),
        }
    }

    /// Returns the Vulkan flags of this usage.
    pub fn to_vulkan(&self) -> (r: u32)
        ensures
            r == self.spec_to_vulkan(),
    {
        (if self.transfer_source { 0x1u32 } else { 0u32 })
            | (if self.transfer_destination { 0x2u32 } else { 0u32 })
            | (if self.sampled { 0x4u32 } else { 0u32 })
            | (if self.storage { 0x8u32 } else { 0u32 })
            | (if self.color_attachment { 0x10u32 } else { 0u32 })
            | (if self.depth_stencil_attachment { 0x20u32 } else { 0u32 })
            | (if self.transient_attachment { 0x40u32 } else { 0u32 })
            | (if self.input_attachment { 0x80u32 } else { 0u32 })
    }

    /// Reads the Vulkan flags `val`.
    pub fn from_vulkan(val: u32) -> (u: Usage)
        ensures
            u == Usage::spec_from_vulkan(val),
    {
        Usage {
            transfer_source: val & 0x1 == 0x1,
            transfer_destination: val & 0x2 == 0x2,
            sampled: val & 0x4 == 0x4,
            storage: val & 0x8 == 0x8,
            color_attachment: val & 0x10 == 0x10,
            depth_stencil_attachment: val & 0x20 == 0x20,
            transient_attachment: val & 0x40 == 0x40,
            input_attachment: val & 0x80 == 0x80,
        }
    }

    /// The union of two usages: each usage is set when it is set in either.
    pub open spec fn spec_union(self, rhs: Usage) -> Usage {
        Usage {
            transfer_source: self.transfer_source || rhs.transfer_source,
            transfer_destination: self.transfer_destination || rhs.transfer_destination,
            sampled: self.sampled || rhs.sampled,
            storage: self.storage || rhs.storage,
            color_attachment: self.color_attachment || rhs.color_attachment,
            depth_stencil_attachment: self.depth_stencil_attachment || rhs.depth_stencil_attachment,
            transient_attachment: self.transient_attachment || rhs.transient_attachment,
            input_attachment: self.input_attachment || rhs.input_attachment,
        }
    }
}

impl Usage {
    /// Whether an image can be created with this usage: a transient
    /// attachment can only also be a color, depth/stencil or input attachment.
    pub open spec fn spec_is_valid(self) -> bool {
        !self.transient_attachment || !(self.transfer_source || self.transfer_destination
            || self.sampled || self.storage)
    }

    /// Whether an image can be created with this usage.
    pub fn is_valid(&self) -> (b: bool)
        ensures
            b == self.spec_is_valid(),
    {
        !self.transient_attachment || !(self.transfer_source || self.transfer_destination
            || self.sampled || self.storage)
    }
}

/// Image creation error.
#[derive(Debug, Clone, Copy, PartialEq, Eq, Structural)]
pub enum CreationError {
    OutOfMemory(OomError),
    /// The usage marks the image as a transient attachment together with a
    /// transfer, sampled or storage use.
    InvalidUsage,
}

impl CreationError {
    /// The error that a Vulkan result code denotes; `None` for the codes
    /// that image creation cannot return.
    pub fn from_vk_result(code: i32) -> (r: Option<CreationError>)
        ensures
            r == (match codes::spec_oom(code) {
                Some(e) => Some(CreationError::OutOfMemory(e)),
                None => None,
            }),
    {
        match codes::oom(code) {
            Some(e) => Some(CreationError::OutOfMemory(e)),
            None => None,
        }
    }
}

/// Checks the usage an image is created with, before creation.
pub fn check_usage(usage: &Usage) -> (r: Result<(), CreationError>)
    ensures
        r is Ok <==> usage.spec_is_valid(),
        r matches Err(e) ==> e == CreationError::InvalidUsage,
{
    if usage.is_valid() {
        Ok(())
    } else {
        Err(CreationError::InvalidUsage)
    }
}

impl core::ops::BitOr for Usage {
    type Output = Usage;

    fn bitor(self, rhs: Usage) -> (r: Usage) {
        Usage {
            transfer_source: self.transfer_source || rhs.transfer_source,
            transfer_destination: self.transfer_destination || rhs.transfer_destination,
            sampled: self.sampled || rhs.sampled,
            storage: self.storage || rhs.storage,
            color_attachment: self.color_attachment || rhs.color_attachment,
            depth_stencil_attachment: self.depth_stencil_attachment || rhs.depth_stencil_attachment,
            transient_attachment: self.transient_attachment || rhs.transient_attachment,
            input_attachment: self.input_attachment || rhs.input_attachment,
        }
    }
}

impl vstd::std_specs::ops::BitOrSpecImpl for Usage {
    open spec fn obeys_bitor_spec() -> bool {
        true
    }

    open spec fn bitor_req(self, rhs: Usage) -> bool {
        true
    }

    open spec fn bitor_spec(self, rhs: Usage) -> Usage {
        self.spec_union(rhs)
    }
}

/// Reading back the flags of a usage gives that usage.
pub proof fn lemma_usage_round_trip(u: Usage)
    ensures
        Usage::spec_from_vulkan(u.spec_to_vulkan()) == u,
{
    let (transfer_source, transfer_destination, sampled, storage, color_attachment, depth_stencil_attachment, transient_attachment, input_attachment) = (u.transfer_source, u.transfer_destination, u.sampled, u.storage, u.color_attachment, u.depth_stencil_attachment, u.transient_attachment, u.input_attachment);
    let x = (if transfer_source { 0x1u32 } else { 0u32 })
        | (if transfer_destination { 0x2u32 } else { 0u32 })
        | (if sampled { 0x4u32 } else { 0u32 })
        | (if storage { 0x8u32 } else { 0u32 })
        | (if color_attachment { 0x10u32 } else { 0u32 })
        | (if depth_stencil_attachment { 0x20u32 } else { 0u32 })
        | (if transient_attachment { 0x40u32 } else { 0u32 })
        | (if input_attachment { 0x80u32 } else { 0u32 });
    assert(has_flag(x, 0x1) == transfer_source && has_flag(x, 0x2) == transfer_destination && has_flag(x, 0x4) == sampled && has_flag(x, 0x8) == storage && has_flag(x, 0x10) == color_attachment && has_flag(x, 0x20) == depth_stencil_attachment && has_flag(x, 0x40) == transient_attachment && has_flag(x, 0x80) == input_attachment) by (bit_vector)
        requires
            x == (if transfer_source { 0x1u32 } else { 0u32 })
        | (if transfer_destination { 0x2u32 } else { 0u32 })
        | (if sampled { 0x4u32 } else { 0u32 })
        | (if storage { 0x8u32 } else { 0u32 })
        | (if color_attachment { 0x10u32 } else { 0u32 })
        | (if depth_stencil_attachment { 0x20u32 } else { 0u32 })
        | (if transient_attachment { 0x40u32 } else { 0u32 })
        | (if input_attachment { 0x80u32 } else { 0u32 }),
    ;
}

/// The flags of a union of usages are the union of their flags.
pub proof fn lemma_usage_union_flags(a: Usage, b: Usage)
    ensures
        a.spec_union(b).spec_to_vulkan() == a.spec_to_vulkan() | b.spec_to_vulkan(),
{
    let (a_transfer_source, a_transfer_destination, a_sampled, a_storage, a_color_attachment, a_depth_stencil_attachment, a_transient_attachment, a_input_attachment) = (a.transfer_source, a.transfer_destination, a.sampled, a.storage, a.color_attachment, a.depth_stencil_attachment, a.transient_attachment, a.input_attachment);
    let (b_transfer_source, b_transfer_destination, b_sampled, b_storage, b_color_attachment, b_depth_stencil_attachment, b_transient_attachment, b_input_attachment) = (b.transfer_source, b.transfer_destination, b.sampled, b.storage, b.color_attachment, b.depth_stencil_attachment, b.transient_attachment, b.input_attachment);
    assert(((if a_transfer_source || b_transfer_source { 0x1u32 } else { 0u32 })
        | (if a_transfer_destination || b_transfer_destination { 0x2u32 } else { 0u32 })
        | (if a_sampled || b_sampled { 0x4u32 } else { 0u32 })
        | (if a_storage || b_storage { 0x8u32 } else { 0u32 })
        | (if a_color_attachment || b_color_attachment { 0x10u32 } else { 0u32 })
        | (if a_depth_stencil_attachment || b_depth_stencil_attachment { 0x20u32 } else { 0u32 })
        | (if a_transient_attachment || b_transient_attachment { 0x40u32 } else { 0u32 })
        | (if a_input_attachment || b_input_attachment { 0x80u32 } else { 0u32 })) == ((if a_transfer_source { 0x1u32 } else { 0u32 })
        | (if a_transfer_destination { 0x2u32 } else { 0u32 })
        | (if a_sampled { 0x4u32 } else { 0u32 })
        | (if a_storage { 0x8u32 } else { 0u32 })
        | (if a_color_attachment { 0x10u32 } else { 0u32 })
        | (if a_depth_stencil_attachment { 0x20u32 } else { 0u32 })
        | (if a_transient_attachment { 0x40u32 } else { 0u32 })
        | (if a_input_attachment { 0x80u32 } else { 0u32 })) | ((if b_transfer_source { 0x1u32 } else { 0u32 })
        | (if b_transfer_destination { 0x2u32 } else { 0u32 })
        | (if b_sampled { 0x4u32 } else { 0u32 })
        | (if b_storage { 0x8u32 } else { 0u32 })
        | (if b_color_attachment { 0x10u32 } else { 0u32 })
        | (if b_depth_stencil_attachment { 0x20u32 } else { 0u32 })
        | (if b_transient_attachment { 0x40u32 } else { 0u32 })
        | (if b_input_attachment { 0x80u32 } else { 0u32 }))) by (bit_vector);
}

/// Reading the union of two flag sets gives the union of the usages read.
pub proof fn lemma_usage_from_union(x: u32, y: u32)
    ensures
        Usage::spec_from_vulkan(x | y) == Usage::spec_from_vulkan(x).spec_union(Usage::spec_from_vulkan(y)),
{
    assert(has_flag(x | y, 0x1) == (has_flag(x, 0x1) || has_flag(y, 0x1)) && has_flag(x | y, 0x2) == (has_flag(x, 0x2) || has_flag(y, 0x2)) && has_flag(x | y, 0x4) == (has_flag(x, 0x4) || has_flag(y, 0x4)) && has_flag(x | y, 0x8) == (has_flag(x, 0x8) || has_flag(y, 0x8)) && has_flag(x | y, 0x10) == (has_flag(x, 0x10) || has_flag(y, 0x10)) && has_flag(x | y, 0x20) == (has_flag(x, 0x20) || has_flag(y, 0x20)) && has_flag(x | y, 0x40) == (has_flag(x, 0x40) || has_flag(y, 0x40)) && has_flag(x | y, 0x80) == (has_flag(x, 0x80) || has_flag(y, 0x80))) by (bit_vector);
}

/// Dimensionality of an image.
#[derive(Clone, Copy, Debug, PartialEq, Eq, Hash, Structural)]
pub enum Type {
    D1,
    D2,
    D3,
}

impl Type {
    /// The Vulkan code of this value (`VkImageType`).
    pub open spec fn spec_code(self) -> i32 {
        match self {
            Type::D1 => 0,
            Type::D2 => 1,
            Type::D3 => 2,
        }
    }

    /// Returns the Vulkan code of this value.
    pub fn into_vulkan(self) -> (c: i32)
        ensures
            c == self.spec_code(),
    {
        match self {
            Type::D1 => 0,
            Type::D2 => 1,
            Type::D3 => 2,
        }
    }
}

/// Arrangement of the texels of an image in memory.
#[derive(Clone, Copy, Debug, PartialEq, Eq, Hash, Structural)]
pub enum Tiling {
    Linear,
    Optimal,
}

impl Tiling {
    /// The Vulkan code of this value (`VkImageTiling`).
    pub open spec fn spec_code(self) -> i32 {
        match self {
            Tiling::Linear => 1,
            Tiling::Optimal => 0,
        }
    }

    /// Returns the Vulkan code of this value.
    pub fn into_vulkan(self) -> (c: i32)
        ensures
            c == self.spec_code(),
    {
        match self {
            Tiling::Linear => 1,
            Tiling::Optimal => 0,
        }
    }
}

impl Tiling {
    pub fn is_linear(&self) -> (b: bool)
        ensures
            b == (*self == Tiling::Linear),
    {
        match self {
            Tiling::Linear => true,
            _ => false,
        }
    }
}

/// Layout of an image.
///
/// In the Vulkan API, each mipmap level of each array layer is in one of the layouts of this enum.
///
/// Unless you use some sort of high-level shortcut function, an image always starts in either
/// the `Undefined` or the `Preinitialized` layout.
/// Before you can use an image for a given purpose, you must ensure that the image in question is
/// in the layout required for that purpose. For example if you want to write data to an image, you
/// must first transition the image to the `TransferDstOptimal` layout. The `General` layout can
/// also be used as a general-purpose fit-all layout, but using it will result in slower operations.
///
/// Transitioning between layouts can only be done through a GPU-side operation that is part of
/// a command buffer.
#[derive(Clone, Copy, Debug, PartialEq, Eq, Hash, Structural)]
pub enum Layout {
    Undefined,
    General,
    ColorAttachmentOptimal,
    DepthStencilAttachmentOptimal,
    DepthStencilReadOnlyOptimal,
    ShaderReadOnlyOptimal,
    TransferSrcOptimal,
    TransferDstOptimal,
    Preinitialized,
    PresentSrc,
}

impl Layout {
    /// The Vulkan code of this value (`VkImageLayout`).
    pub open spec fn spec_code(self) -> i32 {
        match self {
            Layout::Undefined => 0,
            Layout::General => 1,
            Layout::ColorAttachmentOptimal => 2,
            Layout::DepthStencilAttachmentOptimal => 3,
            Layout::DepthStencilReadOnlyOptimal => 4,
            Layout::ShaderReadOnlyOptimal => 5,
            Layout::TransferSrcOptimal => 6,
            Layout::TransferDstOptimal => 7,
            Layout::Preinitialized => 8,
            Layout::PresentSrc => 1000001002,
        }
    }

    /// Returns the Vulkan code of this value.
    pub fn into_vulkan(self) -> (c: i32)
        ensures
            c == self.spec_code(),
    {
        match self {
            Layout::Undefined => 0,
            Layout::General => 1,
            Layout::ColorAttachmentOptimal => 2,
            Layout::DepthStencilAttachmentOptimal => 3,
            Layout::DepthStencilReadOnlyOptimal => 4,
            Layout::ShaderReadOnlyOptimal => 5,
            Layout::TransferSrcOptimal => 6,
            Layout::TransferDstOptimal => 7,
            Layout::Preinitialized => 8,
            Layout::PresentSrc => 1000001002,
        }
    }
}

/// Image memory binding error.
#[derive(Debug, Clone, Copy, PartialEq, Eq, Structural)]
pub enum BindError {
    OutOfMemory(OomError),
    InvalidOpaqueCaptureAddress,
}

impl BindError {
    /// The error that a Vulkan result code denotes; `None` for the codes
    /// that memory binding cannot return.
    pub fn from_vk_result(code: i32) -> (r: Option<BindError>)
        ensures
            r == (match codes::spec_oom(code) {
                Some(e) => Some(BindError::OutOfMemory(e)),
                None => if code == codes::ERROR_INVALID_OPAQUE_CAPTURE_ADDRESS {
                    Some(BindError::InvalidOpaqueCaptureAddress)
                } else {
                    None
                },
            }),
    {
        match codes::oom(code) {
            Some(e) => Some(BindError::OutOfMemory(e)),
            None => if code == codes::ERROR_INVALID_OPAQUE_CAPTURE_ADDRESS {
                Some(BindError::InvalidOpaqueCaptureAddress)
            } else {
                None
            },
        }
    }

    /// The message that describes this error.
    pub fn message(&self) -> (m: &'static str)
        ensures
            m@ == (match self {
                BindError::OutOfMemory(OomError::Host) => "host is out of memory"@,
                BindError::OutOfMemory(OomError::Device) => "device is out of memory"@,
                BindError::InvalidOpaqueCaptureAddress => "invalid opaque capture address"@,
            }),
    {
        match self {
            BindError::OutOfMemory(e) => e.message(),
            BindError::InvalidOpaqueCaptureAddress => "invalid opaque capture address",
        }
    }

    /// The error that caused this one, if any.
    pub fn source(&self) -> (s: Option<OomError>)
        ensures
            s == (match self {
                BindError::OutOfMemory(e) => Some(*e),
                _ => None,
            }),
    {
        match self {
            BindError::OutOfMemory(e) => Some(*e),
            _ => None,
        }
    }
}

/// The usage rule of Vulkan, on the flags: an image can be created with a
/// usage exactly when, if its flags hold the transient attachment bit
/// (`0x40`), they hold no bit besides the color, depth/stencil, input and
/// transient attachment bits (`0x10`, `0x20`, `0x80`, `0x40`).
pub proof fn lemma_usage_validity_flags(u: Usage)
    ensures
        u.spec_is_valid() <==> (has_flag(u.spec_to_vulkan(), 0x40) ==> u.spec_to_vulkan() & 0xffff_ff0f == 0),
{
    let (transfer_source, transfer_destination, sampled, storage, color_attachment, depth_stencil_attachment, transient_attachment, input_attachment) = (u.transfer_source, u.transfer_destination, u.sampled, u.storage, u.color_attachment, u.depth_stencil_attachment, u.transient_attachment, u.input_attachment);
    let x = u.spec_to_vulkan();
    assert((has_flag(x, 0x40) ==> x & 0xffff_ff0f == 0) == (!transient_attachment || !(transfer_source
        || transfer_destination || sampled || storage))) by (bit_vector)
        requires
            x == (if transfer_source { 0x1u32 } else { 0u32 })
            | (if transfer_destination { 0x2u32 } else { 0u32 })
            | (if sampled { 0x4u32 } else { 0u32 })
            | (if storage { 0x8u32 } else { 0u32 })
            | (if color_attachment { 0x10u32 } else { 0u32 })
            | (if depth_stencil_attachment { 0x20u32 } else { 0u32 })
            | (if transient_attachment { 0x40u32 } else { 0u32 })
            | (if input_attachment { 0x80u32 } else { 0u32 }),
    ;
}

/// With the transient attachment usage, an image can be created only when
/// it has none of the transfer source, transfer destination, sampled and
/// storage usages; without it, any usage can be created.
pub proof fn lemma_usage_validity(u: Usage)
    ensures
        u.transient_attachment && u.spec_is_valid() ==> !u.transfer_source && !u.transfer_destination
            && !u.sampled && !u.storage,
        u.transient_attachment && (u.transfer_source || u.transfer_destination || u.sampled
            || u.storage) ==> !u.spec_is_valid(),
        !u.transient_attachment ==> u.spec_is_valid(),
{
}

} // verus!
