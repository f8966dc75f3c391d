//! Command pools: errors of their creation and of buffer allocation.
use vstd::prelude::*;
use crate::OomError;
use crate::codes;

verus! {

/// Command pool creation error.
#[derive(Debug, Clone, Copy, PartialEq, Eq, Structural)]
pub enum CreationError {
    OutOfMemory(OomError),
}

impl CreationError {
    /// The error that a Vulkan result code denotes; `None` for the codes
    /// that command pool creation cannot return.
    pub fn from_vk_result(code: i32) -> (r: Option<CreationError>)
        ensures
            r == (match codes::spec_oom(code) {
                Some(e) => Some(CreationError::OutOfMemory(e)),
                None => None,
            }),
    {
        match codes::oom(code) {
            Some(e) => Some(CreationError::OutOfMemory(e)),
            None => None,
        }
    }
}

/// Command buffer allocation error.
#[derive(Debug, Clone, Copy, PartialEq, Eq, Structural)]
pub enum AllocError {
    OutOfMemory(OomError),
}

impl AllocError {
    /// The error that a Vulkan result code denotes; `None` for the codes
    /// that command buffer allocation cannot return.
    pub fn from_vk_result(code: i32) -> (r: Option<AllocError>)
        ensures
            r == (match codes::spec_oom(code) {
                Some(e) => Some(AllocError::OutOfMemory(e)),
                None => None,
            }),
    {
        match codes::oom(code) {
            Some(e) => Some(AllocError::OutOfMemory(e)),
            None => None,
        }
    }
}

} // verus!
