//! Framebuffers and render passes.
use vstd::prelude::*;
use crate::OomError;
use crate::codes;

pub mod render_pass;

verus! {

/// Number of samples per pixel, held as its Vulkan flag (`VkSampleCountFlagBits`).
#[derive(Debug, Clone, Copy, PartialEq, Eq, Structural)]
pub struct SampleCount(u32);

impl View for SampleCount {
    type V = u32;

    closed spec fn view(&self) -> u32 {
        self.0
    }
}

/// Error returned when a sample count is not a power of two between 1 and 64.
#[derive(Debug, Clone, Copy, PartialEq, Eq, Structural)]
pub struct InvalidSampleCount;

/// The sample counts that Vulkan supports.
pub open spec fn is_valid_sample_count(c: u8) -> bool {
    c == 1 || c == 2 || c == 4 || c == 8 || c == 16 || c == 32 || c == 64
}

impl SampleCount {
    /// The sample count that `c` samples per pixel make, if Vulkan supports it.
    /// The Vulkan flag of `n` samples is `n` itself.
    pub fn new(c: u8) -> (r: Result<SampleCount, InvalidSampleCount>)
        ensures
            r is Ok <==> is_valid_sample_count(c),
            r matches Ok(s) ==> s@ == c as u32,
    {
        if c == 1 || c == 2 || c == 4 || c == 8 || c == 16 || c == 32 || c == 64 {
            Ok(SampleCount(c as u32))
        } else {
            Err(InvalidSampleCount)
        }
    }

    /// Returns the Vulkan flag of this sample count.
    pub fn into_vulkan(self) -> (f: u32)
        ensures
            f == self@,
    {
        self.0
    }
}

impl TryFrom<u8> for SampleCount {
    type Error = InvalidSampleCount;

    /// The sample count that `c` samples per pixel make, if Vulkan supports it.
    fn try_from(c: u8) -> (r: Result<SampleCount, InvalidSampleCount>)
        ensures
            r is Ok <==> is_valid_sample_count(c),
            r matches Ok(s) ==> s@ == c as u32,
            r matches Err(e) ==> e == InvalidSampleCount,
    {
        let r = SampleCount::new(c);
        proof {
            if let Ok(s) = r {
                assert(s == SampleCount(c as u32));
            }
            if let Err(e) = r {
                assert(e == InvalidSampleCount);
            }
        }
        r
    }
}

impl vstd::std_specs::convert::TryFromSpecImpl<u8> for SampleCount {
    open spec fn obeys_try_from_spec() -> bool {
        true
    }

    /// `Ok` with the flag `c` when Vulkan supports `c` samples per pixel.
    closed spec fn try_from_spec(c: u8) -> Result<SampleCount, InvalidSampleCount> {
        if is_valid_sample_count(c) {
            Ok(SampleCount(c as u32))
        } else {
            Err(InvalidSampleCount)
        }
    }
}

/// Framebuffer creation error.
#[derive(Debug, Clone, Copy, PartialEq, Eq, Structural)]
pub enum CreationError {
    OutOfMemory(OomError),
}

impl CreationError {
    /// The error that a Vulkan result code denotes; `None` for the codes
    /// that framebuffer creation cannot return.
    pub fn from_vk_result(code: i32) -> (r: Option<CreationError>)
        ensures
            r == (match codes::spec_oom(code) {
                Some(e) => Some(CreationError::OutOfMemory(e)),
                None => None,
            }),
    {
        match codes::oom(code) {
            Some(e) => Some(CreationError::OutOfMemory(e)),
            None => None,
        }
    }
}

} // verus!
