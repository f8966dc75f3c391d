//! Render pass attachments.
use vstd::prelude::*;
use crate::format::Format;
use crate::image;
use crate::framebuffer::SampleCount;
use super::{LoadOp, StoreOp};

verus! {

/// Describes an attachment that will be used in a render pass.
#[derive(Debug, Clone, Copy, PartialEq, Eq, Structural)]
pub struct Attachment {
    /// Format of the image that is going to be bound.
    pub format: Format,
    /// Number of samples of the image that is going to be bound.
    pub samples: SampleCount,
    /// What the implementation should do with that attachment at the start of the render pass.
    pub load: LoadOp,
    /// What the implementation should do with that attachment at the end of the render pass.
    pub store: StoreOp,
    /// Equivalent of `load` for the stencil component of the attachment, if any. Irrelevant if
    /// there is no stencil component.
    pub stencil_load: LoadOp,
    /// Equivalent of `store` for the stencil component of the attachment, if any. Irrelevant if
    /// there is no stencil component.
    pub stencil_store: StoreOp,
    /// Layout that the image is going to be in at the start of the renderpass.
    pub initial_layout: image::Layout,
    /// Layout that the image will be transitioned to at the end of the renderpass.
    pub final_layout: image::Layout,
}

/// The Vulkan description of an attachment (`VkAttachmentDescription`), as codes and flags.
#[derive(Debug, Clone, Copy, PartialEq, Eq, Structural)]
pub struct AttachmentDescription {
    pub flags: u32,
    pub format: i32,
    pub samples: u32,
    pub load_op: i32,
    pub store_op: i32,
    pub stencil_load_op: i32,
    pub stencil_store_op: i32,
    pub initial_layout: i32,
    pub final_layout: i32,
}

impl Attachment {
    pub open spec fn spec_into_vulkan(self) -> AttachmentDescription {
        AttachmentDescription {
            flags: 0,
            format: self.format.spec_code(),
            samples: self.samples@,
            load_op: self.load.spec_code(),
            store_op: self.store.spec_code(),
            stencil_load_op: self.stencil_load.spec_code(),
            stencil_store_op: self.stencil_store.spec_code(),
            initial_layout: self.initial_layout.spec_code(),
            final_layout: self.final_layout.spec_code(),
        }
    }

    /// The Vulkan description of this attachment.
    pub fn into_vulkan(&self) -> (d: AttachmentDescription)
        ensures
            d == self.spec_into_vulkan(),
    {
        AttachmentDescription {
            flags: 0,
            format: self.format.into_vulkan(),
            samples: self.samples.into_vulkan(),
            load_op: self.load.into_vulkan(),
            store_op: self.store.into_vulkan(),
            stencil_load_op: self.stencil_load.into_vulkan(),
            stencil_store_op: self.stencil_store.into_vulkan(),
            initial_layout: self.initial_layout.into_vulkan(),
            final_layout: self.final_layout.into_vulkan(),
        }
    }
}

/// Reference to an attachment by its index, before a layout is chosen.
#[derive(Clone, Copy, Debug, PartialEq, Eq, Structural)]
pub struct UnformatedReference(u32);

impl View for UnformatedReference {
    type V = u32;

    closed spec fn view(&self) -> u32 {
        self.0
    }
}

impl UnformatedReference {
    pub fn new(index: u32) -> (r: UnformatedReference)
        ensures
            r@ == index,
    {
        UnformatedReference(index)
    }

    /// The attachment index this reference designates.
    pub fn index(&self) -> (i: u32)
        ensures
            i == self@,
    {
        self.0
    }

    /// A reference to the same attachment, used in the given layout.
    pub fn with_layout(self, layout: image::Layout) -> (r: Reference)
        ensures
            r.attachment == self@,
            r.layout == layout.spec_code(),
    {
        Reference { attachment: self.0, layout: layout.into_vulkan() }
    }
}

/// Reference to an attachment in a given layout (`VkAttachmentReference`).
#[derive(Clone, Copy, Debug, PartialEq, Eq, Structural)]
pub struct Reference {
    /// Index of the attachment.
    pub attachment: u32,
    /// Vulkan code of the layout.
    pub layout: i32,
}

/// The list of the attachments of a render pass.
#[derive(Clone, Debug)]
pub struct Attachments(Vec<AttachmentDescription>);

impl View for Attachments {
    type V = Seq<AttachmentDescription>;

    closed spec fn view(&self) -> Seq<AttachmentDescription> {
        self.0@
    }
}

impl Attachments {
    pub fn new() -> (a: Attachments)
        ensures
            a@ == Seq::<AttachmentDescription>::empty(),
    {
        Attachments(Vec::new())
    }

    /// The number of attachments, as a 32-bit Vulkan count.
    pub fn len(&self) -> (l: u32)
        ensures
            l == self@.len() as u32,
    {
        self.0.len() as u32
    }

    /// Appends an attachment and returns a reference to it: its index is the
    /// number of attachments before it.
    pub fn add(&mut self, desc: Attachment) -> (r: UnformatedReference)
        ensures
            r@ == old(self)@.len() as u32,
            final(self)@ == old(self)@.push(desc.spec_into_vulkan()),
    {
        let index = self.len();
        self.0.push(desc.into_vulkan());
        UnformatedReference::new(index)
    }

    /// The Vulkan descriptions of the attachments, in order.
    pub fn descriptions(&self) -> (d: &Vec<AttachmentDescription>)
        ensures
            d@ == self@,
    {
        &self.0
    }
}

} // verus!
