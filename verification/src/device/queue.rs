//! Device queues: submission and presentation errors.
use vstd::prelude::*;
use crate::OomError;
use crate::codes;
use super::MissingExtensionError;

verus! {

/// Queue submission error.
#[derive(Debug, Clone, Copy, PartialEq, Eq, Structural)]
pub enum SubmitError {
    OutOfMemory(OomError),
    DeviceLost,
}

impl SubmitError {
    /// The error that a Vulkan result code denotes; `None` for the codes
    /// that submission cannot return.
    pub fn from_vk_result(code: i32) -> (r: Option<SubmitError>)
        ensures
            r == (match codes::spec_oom(code) {
                Some(e) => Some(SubmitError::OutOfMemory(e)),
                None => if code == codes::ERROR_DEVICE_LOST {
                    Some(SubmitError::DeviceLost)
                } else {
                    None
                },
            }),
    {
        match codes::oom(code) {
            Some(e) => Some(SubmitError::OutOfMemory(e)),
            None => if code == codes::ERROR_DEVICE_LOST {
                Some(SubmitError::DeviceLost)
            } else {
                None
            },
        }
    }
}

/// Presentation error.
#[derive(Debug, Clone, Copy, PartialEq, Eq, Structural)]
pub enum PresentError {
    OutOfMemory(OomError),
    DeviceLost,
    MissingDeviceExtension(MissingExtensionError),
}

impl PresentError {
    /// The error that a Vulkan result code denotes; `None` for the codes
    /// that presentation cannot return.
    pub open spec fn spec_from_vk_result(code: i32) -> Option<PresentError> {
        match codes::spec_oom(code) {
            Some(e) => Some(PresentError::OutOfMemory(e)),
            None => if code == codes::ERROR_DEVICE_LOST {
                Some(PresentError::DeviceLost)
            } else {
                None
            },
        }
    }

    /// The error that a Vulkan result code denotes; `None` for the codes
    /// that presentation cannot return.
    pub fn from_vk_result(code: i32) -> (r: Option<PresentError>)
        ensures
            r == PresentError::spec_from_vk_result(code),
    {
        match codes::oom(code) {
            Some(e) => Some(PresentError::OutOfMemory(e)),
            None => if code == codes::ERROR_DEVICE_LOST {
                Some(PresentError::DeviceLost)
            } else {
                None
            },
        }
    }
}

impl From<MissingExtensionError> for PresentError {
    fn from(e: MissingExtensionError) -> (r: PresentError) {
        PresentError::MissingDeviceExtension(e)
    }
}

impl vstd::std_specs::convert::FromSpecImpl<MissingExtensionError> for PresentError {
    open spec fn obeys_from_spec() -> bool {
        true
    }

    open spec fn from_spec(e: MissingExtensionError) -> PresentError {
        PresentError::MissingDeviceExtension(e)
    }
}

/// The outcome of a presentation: `call` is what presenting returned (whether
/// the swapchain is suboptimal, or the error code), `result` the result code
/// reported for the swapchain. An error of the call comes first, then a
/// failed swapchain result; otherwise the suboptimal flag is returned.
/// `None` when a code is one that presentation cannot return.
pub fn present_outcome(call: Result<bool, i32>, result: i32) -> (r: Option<Result<bool, PresentError>>)
    ensures
        r == (match call {
            Err(code) => match PresentError::spec_from_vk_result(code) {
                Some(e) => Some(Err(e)),
                None => None,
            },
            Ok(suboptimal) => if result == codes::SUCCESS {
                Some(Ok(suboptimal))
            } else {
                match PresentError::spec_from_vk_result(result) {
                    Some(e) => Some(Err(e)),
                    None => None,
                }
            },
        }),
{
    match call {
        Err(code) => match PresentError::from_vk_result(code) {
            Some(e) => Some(Err(e)),
            None => None,
        },
        Ok(suboptimal) => if result == codes::SUCCESS {
            Some(Ok(suboptimal))
        } else {
            match PresentError::from_vk_result(result) {
                Some(e) => Some(Err(e)),
                None => None,
            }
        },
    }
}

} // verus!
