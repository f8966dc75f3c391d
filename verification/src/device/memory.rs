//! Device memory: mapping decisions and errors.
use vstd::prelude::*;
use crate::OomError;
use crate::codes;
use crate::format::has_flag;
use crate::instance::physical_device::MemoryType;

verus! {

/// Memory mapping error.
#[derive(Debug, Clone, Copy, PartialEq, Eq, Structural)]
pub enum MapError {
    NotHostVisible,
    OutOfMemory(OomError),
    MemoryMapFailed,
}

impl MapError {
    /// The error that a Vulkan result code denotes; `None` for the codes
    /// that memory mapping cannot return.
    pub fn from_vk_result(code: i32) -> (r: Option<MapError>)
        ensures
            r == (match codes::spec_oom(code) {
                Some(e) => Some(MapError::OutOfMemory(e)),
                None => if code == codes::ERROR_MEMORY_MAP_FAILED {
                    Some(MapError::MemoryMapFailed)
                } else {
                    None
                },
            }),
    {
        match codes::oom(code) {
            Some(e) => Some(MapError::OutOfMemory(e)),
            None => if code == codes::ERROR_MEMORY_MAP_FAILED {
                Some(MapError::MemoryMapFailed)
            } else {
                None
            },
        }
    }
}

/// The size that stands for "up to the end of the memory" (`VK_WHOLE_SIZE`).
pub const WHOLE_SIZE: u64 = 0xffff_ffff_ffff_ffff;

/// The size to map when mapping memory of the given type: the requested
/// size, or the whole memory when none is given. Memory that the host cannot
/// see cannot be mapped.
pub fn mapping_size(memory_type: &MemoryType, size: Option<u64>) -> (r: Result<u64, MapError>)
    ensures
        r is Err <==> !has_flag(memory_type@.1, 0x2),
        r matches Err(e) ==> e == MapError::NotHostVisible,
        r matches Ok(s) ==> s == (match size {
            Some(s) => s,
            None => WHOLE_SIZE,
        }),
{
    if memory_type.is_host_visible() {
        Ok(match size {
            Some(s) => s,
            None => WHOLE_SIZE,
        })
    } else {
        Err(MapError::NotHostVisible)
    }
}

} // verus!
