//! Magma: a strictly typed interface to the Vulkan API.
//!
//! This crate holds the decision logic of the interface: the encoding of
//! every Vulkan enumeration and flag set the interface exposes, the error
//! codes it recognises, and the checks it performs before it hands work to
//! the driver. Each function states its behaviour in its contract.
use vstd::prelude::*;

pub mod codes;
pub mod format;
pub mod buffer;
pub mod instance;
pub mod image;
pub mod framebuffer;
pub mod device;
pub mod command;
pub mod descriptor;

verus! {

/// Out of memory error.
#[derive(Debug, Clone, Copy, PartialEq, Eq, Structural)]
pub enum OomError {
    /// Host is out of memory.
    Host,
    /// Device is out of memory.
    Device,
}

impl OomError {
    /// The message that describes this error.
    pub fn message(&self) -> (m: &'static str)
        ensures
            m@ == (match self {
                OomError::Host => "host is out of memory"@,
                OomError::Device => "device is out of memory"@,
            }),
    {
        match self {
            OomError::Host => "host is out of memory",
            OomError::Device => "device is out of memory",
        }
    }
}

/// A value that only this crate can build: a private field of this type keeps
/// a structure from being built outside of the crate.
#[derive(Clone, Copy, Debug, PartialEq, Eq, Hash, PartialOrd, Ord)]
pub struct Unbuildable(());

/// Equality of two string slices.
pub(crate) fn str_eq(a: &str, b: &str) -> (r: bool)
    ensures
        r == (a@ == b@),
{
    a.to_owned() == b.to_owned()
}

} // verus!
