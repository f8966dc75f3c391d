//! Render passes: attachment operations, subpasses and their dependencies.
use vstd::prelude::*;
use crate::OomError;
use crate::codes;

pub mod attachment;
pub mod subpass;

pub use attachment::{Attachment, Attachments};
pub use subpass::{Subpass, SubpassRef, Subpasses};

verus! {

/// Describes what the implementation should do with an attachment at the start of the subpass.
#[derive(Clone, Copy, Debug, PartialEq, Eq, Hash, Structural)]
pub enum LoadOp {
    /// The content of the attachment will be loaded from memory. This is what you want if you want
    /// to draw over something existing.
    ///
    /// While this is the most intuitive option, it is also the slowest because it uses a lot of
    /// memory bandwidth.
    Load,
    /// The content of the attachment will be filled by the implementation with a uniform value
    /// that you must provide when you start drawing.
    ///
    /// This is what you usually use at the start of a frame, in order to reset the content of
    /// the color, depth and/or stencil buffers.
    Clear,
    /// The attachment will have undefined content.
    ///
    /// This is what you should use for attachments that you intend to entirely cover with draw
    /// commands.
    /// If you are going to fill the attachment with a uniform value, it is better to use `Clear`
    /// instead.
    DontCare,
}

impl LoadOp {
    /// The Vulkan code of this value (`VkAttachmentLoadOp`).
    pub open spec fn spec_code(self) -> i32 {
        match self {
            LoadOp::Load => 0,
            LoadOp::Clear => 1,
            LoadOp::DontCare => 2,
        }
    }

    /// Returns the Vulkan code of this value.
    pub fn into_vulkan(self) -> (c: i32)
        ensures
            c == self.spec_code(),
    {
        match self {
            LoadOp::Load => 0,
            LoadOp::Clear => 1,
            LoadOp::DontCare => 2,
        }
    }
}

/// Describes what the implementation should do with an attachment after all the subpasses have
/// completed.
#[derive(Clone, Copy, Debug, PartialEq, Eq, Hash, Structural)]
pub enum StoreOp {
    /// The attachment will be stored. This is what you usually want.
    ///
    /// While this is the most intuitive option, it is also slower than `DontCare` because it can
    /// take time to write the data back to memory.
    Store,
    /// What happens is implementation-specific.
    ///
    /// This is purely an optimization compared to `Store`. The implementation doesn't need to copy
    /// from the internal cache to the memory, which saves memory bandwidth.
    ///
    /// This doesn't mean that the data won't be copied, as an implementation is also free to not
    /// use a cache and write the output directly in memory. In other words, the content of the
    /// image will be undefined.
    DontCare,
}

impl StoreOp {
    /// The Vulkan code of this value (`VkAttachmentStoreOp`).
    pub open spec fn spec_code(self) -> i32 {
        match self {
            StoreOp::Store => 0,
            StoreOp::DontCare => 1,
        }
    }

    /// Returns the Vulkan code of this value.
    pub fn into_vulkan(self) -> (c: i32)
        ensures
            c == self.spec_code(),
    {
        match self {
            StoreOp::Store => 0,
            StoreOp::DontCare => 1,
        }
    }
}

/// Render pass creation error.
#[derive(Debug, Clone, Copy, PartialEq, Eq, Structural)]
pub enum CreationError {
    OutOfMemory(OomError),
}

impl CreationError {
    /// The error that a Vulkan result code denotes; `None` for the codes
    /// that render pass creation cannot return.
    pub fn from_vk_result(code: i32) -> (r: Option<CreationError>)
        ensures
            r == (match codes::spec_oom(code) {
                Some(e) => Some(CreationError::OutOfMemory(e)),
                None => None,
            }),
    {
        match codes::oom(code) {
            Some(e) => Some(CreationError::OutOfMemory(e)),
            None => None,
        }
    }
}

/// Collects the subpasses and dependencies of a render pass before it is built.
pub struct RenderPassBuilder<'a> {
    attachments: &'a Attachments,
    subpasses: Vec<SubpassRef<'a>>,
    dependencies: Vec<subpass::SubpassDependency>,
}

impl<'a> RenderPassBuilder<'a> {
    /// The attachments that the render pass uses.
    pub closed spec fn spec_attachments(&self) -> &'a Attachments {
        self.attachments
    }

    /// The subpasses added so far, in order.
    pub closed spec fn spec_subpasses(&self) -> Seq<SubpassRef<'a>> {
        self.subpasses@
    }

    /// The Vulkan descriptions of the dependencies added so far, in order.
    pub closed spec fn spec_dependencies(&self) -> Seq<subpass::SubpassDependency> {
        self.dependencies@
    }

    pub fn new(attachments: &'a Attachments) -> (b: RenderPassBuilder<'a>)
        ensures
            b.spec_attachments() == attachments,
            b.spec_subpasses() == Seq::<SubpassRef<'a>>::empty(),
            b.spec_dependencies() == Seq::<subpass::SubpassDependency>::empty(),
    {
        RenderPassBuilder { attachments, subpasses: Vec::new(), dependencies: Vec::new() }
    }

    /// Adds a subpass and returns its index, the number of subpasses added
    /// before it (as a 32-bit Vulkan index).
    pub fn add(&mut self, subpass: SubpassRef<'a>) -> (index: u32)
        ensures
            index == old(self).spec_subpasses().len() as u32,
            final(self).spec_subpasses() == old(self).spec_subpasses().push(subpass),
            final(self).spec_dependencies() == old(self).spec_dependencies(),
            final(self).spec_attachments() == old(self).spec_attachments(),
    {
        let index = self.subpasses.len() as u32;
        self.subpasses.push(subpass);
        index
    }

    /// Adds a dependency between two subpasses.
    pub fn add_dependency(&mut self, dependency: subpass::Dependency)
        ensures
            final(self).spec_dependencies() == old(self).spec_dependencies().push(
                dependency.spec_into_vulkan(),
            ),
            final(self).spec_subpasses() == old(self).spec_subpasses(),
            final(self).spec_attachments() == old(self).spec_attachments(),
    {
        self.dependencies.push(dependency.into_vulkan())
    }

    pub fn attachments(&self) -> (a: &'a Attachments)
        ensures
            a == self.spec_attachments(),
    {
        self.attachments
    }

    pub fn subpasses(&self) -> (s: &Vec<SubpassRef<'a>>)
        ensures
            s@ == self.spec_subpasses(),
    {
        &self.subpasses
    }

    pub fn dependencies(&self) -> (d: &Vec<subpass::SubpassDependency>)
        ensures
            d@ == self.spec_dependencies(),
    {
        &self.dependencies
    }

    /// The number of subpasses of the render pass that this builder describes
    /// (as a 32-bit Vulkan count).
    pub fn subpass_count(&self) -> (n: u32)
        ensures
            n == self.spec_subpasses().len() as u32,
    {
        self.subpasses.len() as u32
    }
}

} // verus!
