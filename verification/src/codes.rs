//! Vulkan result codes (`VkResult`) that the interface recognises.
use vstd::prelude::*;

verus! {

pub const SUCCESS: i32 = 0;
pub const ERROR_OUT_OF_HOST_MEMORY: i32 = -1;
pub const ERROR_OUT_OF_DEVICE_MEMORY: i32 = -2;
pub const ERROR_INITIALIZATION_FAILED: i32 = -3;
pub const ERROR_DEVICE_LOST: i32 = -4;
pub const ERROR_MEMORY_MAP_FAILED: i32 = -5;
pub const ERROR_LAYER_NOT_PRESENT: i32 = -6;
pub const ERROR_EXTENSION_NOT_PRESENT: i32 = -7;
pub const ERROR_FEATURE_NOT_PRESENT: i32 = -8;
pub const ERROR_INCOMPATIBLE_DRIVER: i32 = -9;
pub const ERROR_TOO_MANY_OBJECTS: i32 = -10;
pub const ERROR_FRAGMENTED_POOL: i32 = -12;
pub const ERROR_OUT_OF_POOL_MEMORY: i32 = -1000069000;
pub const ERROR_INVALID_EXTERNAL_HANDLE: i32 = -1000072003;
pub const ERROR_FRAGMENTATION: i32 = -1000161000;
pub const ERROR_INVALID_OPAQUE_CAPTURE_ADDRESS: i32 = -1000257000;

/// The out-of-memory error that a result code denotes, if any.
pub open spec fn spec_oom(code: i32) -> Option<crate::OomError> {
    if code == ERROR_OUT_OF_HOST_MEMORY {
        Some(crate::OomError::Host)
    } else if code == ERROR_OUT_OF_DEVICE_MEMORY {
        Some(crate::OomError::Device)
    } else {
        None
    }
}

/// Reads the out-of-memory error that a result code denotes, if any.
pub fn oom(code: i32) -> (r: Option<crate::OomError>)
    ensures
        r == spec_oom(code),
{
    if code == ERROR_OUT_OF_HOST_MEMORY {
        Some(crate::OomError::Host)
    } else if code == ERROR_OUT_OF_DEVICE_MEMORY {
        Some(crate::OomError::Device)
    } else {
        None
    }
}

} // verus!
