//! Instances: the extensions and validation layers they load, and the
//! physical devices they expose.
use vstd::prelude::*;
use crate::OomError;
use crate::codes;

pub mod extension;
pub mod physical_device;

pub use extension::{Extension, Extensions};
pub use physical_device::{PhysicalDevice, QueueFamily, MemoryType};

verus! {

/// A validation layer.
#[derive(Clone, Copy, Debug, PartialEq, Eq, Hash, Structural)]
pub enum ValidationLayer {
    KhronosValidation,
}

impl ValidationLayer {
    /// The name of this layer, as Vulkan knows it.
    pub open spec fn spec_name(self) -> Seq<char> {
        match self {
            ValidationLayer::KhronosValidation => "VK_LAYER_KHRONOS_validation"@,
        }
    }

    /// Returns the name of this layer, as Vulkan knows it.
    pub fn name(self) -> (s: &'static str)
        ensures
            s@ == self.spec_name(),
    {
        match self {
            ValidationLayer::KhronosValidation => "VK_LAYER_KHRONOS_validation",
        }
    }

    /// The layer of the given name, if it is one of this enumeration.
    pub fn from_name(name: &str) -> (r: Option<ValidationLayer>)
        ensures
            r matches Some(l) ==> l.spec_name() == name@,
            r is None <==> forall|l: ValidationLayer| l.spec_name() != name@,
    {
        if crate::str_eq(name, ValidationLayer::KhronosValidation.name()) {
            Some(ValidationLayer::KhronosValidation)
        } else {
            None
        }
    }
}

/// Instance creation error.
#[derive(Debug, Clone, PartialEq, Eq)]
pub enum CreationError {
    /// The Vulkan library could not be loaded; the names of the entry points that failed.
    LoadError(Vec<&'static str>),
    OutOfMemory(OomError),
    InitializationFailed,
    MissingValidationLayer(ValidationLayer),
    MissingExtension(Extension),
    IncompatibleDriver,
}

impl CreationError {
    /// The error that a Vulkan result code denotes; `None` for the codes
    /// that instance creation cannot return, and for a missing layer or
    /// extension, which must have been checked before creation.
    pub fn from_vk_result(code: i32) -> (r: Option<CreationError>)
        ensures
            r == (match codes::spec_oom(code) {
                Some(e) => Some(CreationError::OutOfMemory(e)),
                None => if code == codes::ERROR_INITIALIZATION_FAILED {
                    Some(CreationError::InitializationFailed)
                } else if code == codes::ERROR_INCOMPATIBLE_DRIVER {
                    Some(CreationError::IncompatibleDriver)
                } else {
                    None
                },
            }),
    {
        match codes::oom(code) {
            Some(e) => Some(CreationError::OutOfMemory(e)),
            None => if code == codes::ERROR_INITIALIZATION_FAILED {
                Some(CreationError::InitializationFailed)
            } else if code == codes::ERROR_INCOMPATIBLE_DRIVER {
                Some(CreationError::IncompatibleDriver)
            } else {
                None
            },
        }
    }
}

/// Error returned when an instance extension that was not loaded is used.
#[derive(Debug, Clone, Copy, PartialEq, Eq, Structural)]
pub struct MissingExtensionError(pub Extension);

/// Checks that an extension is loaded.
pub fn check_extension(loaded: &Extensions, ext: Extension) -> (r: Result<(), MissingExtensionError>)
    ensures
        r is Ok <==> loaded.has(ext),
        r matches Err(e) ==> e == MissingExtensionError(ext),
{
    if loaded.contains(ext) {
        Ok(())
    } else {
        Err(MissingExtensionError(ext))
    }
}

/// The extensions that an instance loads when `required` are asked for and
/// `available` are offered: all of the required ones, or the first required
/// extension that is not available.
pub fn load_extensions(available: &Extensions, required: &Vec<Extension>) -> (r: Result<
    Extensions,
    CreationError,
>)
    ensures
        r is Ok <==> (forall|i: int| 0 <= i < required@.len() ==> available.has(#[trigger] required@[i])),
        r matches Ok(loaded) ==> (forall|e: Extension| loaded.has(e) <==> required@.contains(e)),
        r matches Err(err) ==> exists|i: int|
            0 <= i < required@.len() && err == CreationError::MissingExtension(required@[i])
                && !available.has(required@[i]) && (forall|j: int|
                0 <= j < i ==> available.has(#[trigger] required@[j])),
{
    let mut loaded = Extensions::none();
    let mut i: usize = 0;
    while i < required.len()
        invariant
            i <= required@.len(),
            forall|j: int| 0 <= j < i ==> available.has(#[trigger] required@[j]),
            forall|e: Extension| loaded.has(e) <==> required@.take(i as int).contains(e),
        decreases required@.len() - i,
    {
        let ext = required[i];
        if !available.contains(ext) {
            return Err(CreationError::MissingExtension(ext));
        }
        loaded.insert(ext);
        proof {
            assert(required@.take(i + 1) == required@.take(i as int).push(ext));
            assert forall|e: Extension| loaded.has(e) <==> required@.take(i + 1).contains(e) by {
                if e == ext {
                    assert(required@.take(i + 1)[i as int] == ext);
                } else if required@.take(i + 1).contains(e) {
                    let k = choose|k: int| 0 <= k < i + 1 && #[trigger] required@.take(i + 1)[k] == e;
                    assert(required@.take(i as int)[k] == e);
                }
            }
        }
        i = i + 1;
    }
    assert(required@.take(i as int) == required@);
    Ok(loaded)
}

/// The positions, in order, of the names that denote no known extension.
pub open spec fn unknown_names(names: Seq<&str>) -> Seq<usize>
    decreases names.len(),
{
    if names.len() == 0 {
        Seq::empty()
    } else {
        let prev = unknown_names(names.drop_last());
        if extension::spec_known(names.last()@) {
            prev
        } else {
            prev.push((names.len() - 1) as usize)
        }
    }
}

/// The extensions that the names `names` denote, with the positions of the
/// names that denote no known extension.
pub fn extensions_from_names(names: &Vec<&str>) -> (r: (Extensions, Vec<usize>))
    ensures
        forall|e: Extension|
            r.0.has(e) <==> exists|i: int| 0 <= i < names@.len() && e.spec_name() == #[trigger] names@[i]@,
        r.1@ == unknown_names(names@),
{
    let mut extensions = Extensions::none();
    let mut unknown: Vec<usize> = Vec::new();
    let mut i: usize = 0;
    while i < names.len()
        invariant
            i <= names@.len(),
            forall|e: Extension|
                extensions.has(e) <==> exists|j: int| 0 <= j < i && e.spec_name() == #[trigger] names@[j]@,
            unknown@ == unknown_names(names@.take(i as int)),
        decreases names@.len() - i,
    {
        let name = names[i];
        assert(names@.take(i + 1).drop_last() == names@.take(i as int));
        match Extension::from_name(name) {
            Some(ext) => {
                let ghost old_ext = extensions;
                extensions.insert(ext);
                assert forall|e: Extension|
                    extensions.has(e) <==> exists|j: int| 0 <= j < i + 1 && e.spec_name() == #[trigger] names@[j]@ by {
                    if e == ext {
                        assert(e.spec_name() == names@[i as int]@);
                    } else {
                        assert(old_ext.has(e) == extensions.has(e));
                        if exists|j: int| 0 <= j < i + 1 && e.spec_name() == #[trigger] names@[j]@ {
                            let j = choose|j: int| 0 <= j < i + 1 && e.spec_name() == #[trigger] names@[j]@;
                            assert(j != i);
                        }
                    }
                }
            },
            None => {
                unknown.push(i);
            },
        }
        i = i + 1;
    }
    assert(names@.take(i as int) == names@);
    (extensions, unknown)
}

} // verus!
