//! Device extensions.
use vstd::prelude::*;

verus! {

/// True when some extension has the given name.
pub open spec fn spec_known(name: Seq<char>) -> bool {
    exists|e: Extension| e.spec_name() == name
}

/// A device extension.
#[derive(Clone, Copy, Debug, PartialEq, Eq, Hash, Structural)]
pub enum Extension {
    KhrSwapchain,
    KhrDisplaySwapchain,
    KhrSamplerMirrorClampToEdge,
    KhrMaintenance1,
    KhrGetMemoryRequirements2,
    KhrDedicatedAllocation,
    KhrIncrementalPresent,
    Khr16bitsStorage,
    KhrStorageBufferStorageClass,
    ExtDebugUtils,
    KhrMultiview,
    ExtFullScreenExclusive,
}

impl Extension {
    /// The name of this extension, as Vulkan knows it.
    pub open spec fn spec_name(self) -> Seq<char> {
        match self {
            Extension::KhrSwapchain => "VK_KHR_swapchain"@,
            Extension::KhrDisplaySwapchain => "VK_KHR_display_swapchain"@,
            Extension::KhrSamplerMirrorClampToEdge => "VK_KHR_sampler_mirror_clamp_to_edge"@,
            Extension::KhrMaintenance1 => "VK_KHR_maintenance1"@,
            Extension::KhrGetMemoryRequirements2 => "VK_KHR_get_memory_requirements2"@,
            Extension::KhrDedicatedAllocation => "VK_KHR_dedicated_allocation"@,
            Extension::KhrIncrementalPresent => "VK_KHR_incremental_present"@,
            Extension::Khr16bitsStorage => "VK_KHR_16bit_storage"@,
            Extension::KhrStorageBufferStorageClass => "VK_KHR_storage_buffer_storage_class"@,
            Extension::ExtDebugUtils => "VK_EXT_debug_utils"@,
            Extension::KhrMultiview => "VK_KHR_multiview"@,
            Extension::ExtFullScreenExclusive => "VK_EXT_full_screen_exclusive"@,
        }
    }

    /// Returns the name of this extension, as Vulkan knows it.
    pub fn name(self) -> (s: &'static str)
        ensures
            s@ == self.spec_name(),
    {
        match self {
            Extension::KhrSwapchain => "VK_KHR_swapchain",
            Extension::KhrDisplaySwapchain => "VK_KHR_display_swapchain",
            Extension::KhrSamplerMirrorClampToEdge => "VK_KHR_sampler_mirror_clamp_to_edge",
            Extension::KhrMaintenance1 => "VK_KHR_maintenance1",
            Extension::KhrGetMemoryRequirements2 => "VK_KHR_get_memory_requirements2",
            Extension::KhrDedicatedAllocation => "VK_KHR_dedicated_allocation",
            Extension::KhrIncrementalPresent => "VK_KHR_incremental_present",
            Extension::Khr16bitsStorage => "VK_KHR_16bit_storage",
            Extension::KhrStorageBufferStorageClass => "VK_KHR_storage_buffer_storage_class",
            Extension::ExtDebugUtils => "VK_EXT_debug_utils",
            Extension::KhrMultiview => "VK_KHR_multiview",
            Extension::ExtFullScreenExclusive => "VK_EXT_full_screen_exclusive",
        }
    }

    /// The extension of the given name, if it is one of this enumeration.
    pub fn from_name(name: &str) -> (r: Option<Extension>)
        ensures
            forall|e: Extension| r == Some(e) <==> e.spec_name() == name@,
            r is None <==> !spec_known(name@),
    {
        if crate::str_eq(name, Extension::KhrSwapchain.name()) {
            proof {
                assert forall|e: Extension| e.spec_name() == name@ implies e == Extension::KhrSwapchain by {
                    lemma_names_distinct(e, Extension::KhrSwapchain);
                }
            }
            return Some(Extension::KhrSwapchain);
        }
        if crate::str_eq(name, Extension::KhrDisplaySwapchain.name()) {
            proof {
                assert forall|e: Extension| e.spec_name() == name@ implies e == Extension::KhrDisplaySwapchain by {
                    lemma_names_distinct(e, Extension::KhrDisplaySwapchain);
                }
            }
            return Some(Extension::KhrDisplaySwapchain);
        }
        if crate::str_eq(name, Extension::KhrSamplerMirrorClampToEdge.name()) {
            proof {
                assert forall|e: Extension| e.spec_name() == name@ implies e == Extension::KhrSamplerMirrorClampToEdge by {
                    lemma_names_distinct(e, Extension::KhrSamplerMirrorClampToEdge);
                }
            }
            return Some(Extension::KhrSamplerMirrorClampToEdge);
        }
        if crate::str_eq(name, Extension::KhrMaintenance1.name()) {
            proof {
                assert forall|e: Extension| e.spec_name() == name@ implies e == Extension::KhrMaintenance1 by {
                    lemma_names_distinct(e, Extension::KhrMaintenance1);
                }
            }
            return Some(Extension::KhrMaintenance1);
        }
        if crate::str_eq(name, Extension::KhrGetMemoryRequirements2.name()) {
            proof {
                assert forall|e: Extension| e.spec_name() == name@ implies e == Extension::KhrGetMemoryRequirements2 by {
                    lemma_names_distinct(e, Extension::KhrGetMemoryRequirements2);
                }
            }
            return Some(Extension::KhrGetMemoryRequirements2);
        }
        if crate::str_eq(name, Extension::KhrDedicatedAllocation.name()) {
            proof {
                assert forall|e: Extension| e.spec_name() == name@ implies e == Extension::KhrDedicatedAllocation by {
                    lemma_names_distinct(e, Extension::KhrDedicatedAllocation);
                }
            }
            return Some(Extension::KhrDedicatedAllocation);
        }
        if crate::str_eq(name, Extension::KhrIncrementalPresent.name()) {
            proof {
                assert forall|e: Extension| e.spec_name() == name@ implies e == Extension::KhrIncrementalPresent by {
                    lemma_names_distinct(e, Extension::KhrIncrementalPresent);
                }
            }
            return Some(Extension::KhrIncrementalPresent);
        }
        if crate::str_eq(name, Extension::Khr16bitsStorage.name()) {
            proof {
                assert forall|e: Extension| e.spec_name() == name@ implies e == Extension::Khr16bitsStorage by {
                    lemma_names_distinct(e, Extension::Khr16bitsStorage);
                }
            }
            return Some(Extension::Khr16bitsStorage);
        }
        if crate::str_eq(name, Extension::KhrStorageBufferStorageClass.name()) {
            proof {
                assert forall|e: Extension| e.spec_name() == name@ implies e == Extension::KhrStorageBufferStorageClass by {
                    lemma_names_distinct(e, Extension::KhrStorageBufferStorageClass);
                }
            }
            return Some(Extension::KhrStorageBufferStorageClass);
        }
        if crate::str_eq(name, Extension::ExtDebugUtils.name()) {
            proof {
                assert forall|e: Extension| e.spec_name() == name@ implies e == Extension::ExtDebugUtils by {
                    lemma_names_distinct(e, Extension::ExtDebugUtils);
                }
            }
            return Some(Extension::ExtDebugUtils);
        }
        if crate::str_eq(name, Extension::KhrMultiview.name()) {
            proof {
                assert forall|e: Extension| e.spec_name() == name@ implies e == Extension::KhrMultiview by {
                    lemma_names_distinct(e, Extension::KhrMultiview);
                }
            }
            return Some(Extension::KhrMultiview);
        }
        if crate::str_eq(name, Extension::ExtFullScreenExclusive.name()) {
            proof {
                assert forall|e: Extension| e.spec_name() == name@ implies e == Extension::ExtFullScreenExclusive by {
                    lemma_names_distinct(e, Extension::ExtFullScreenExclusive);
                }
            }
            return Some(Extension::ExtFullScreenExclusive);
        }
        None
    }
}

/// Distinct extensions have distinct names.
pub proof fn lemma_names_distinct(e1: Extension, e2: Extension)
    ensures
        e1.spec_name() == e2.spec_name() ==> e1 == e2,
{
    reveal_strlit("VK_KHR_swapchain");
    reveal_strlit("VK_KHR_display_swapchain");
    reveal_strlit("VK_KHR_sampler_mirror_clamp_to_edge");
    reveal_strlit("VK_KHR_maintenance1");
    reveal_strlit("VK_KHR_get_memory_requirements2");
    reveal_strlit("VK_KHR_dedicated_allocation");
    reveal_strlit("VK_KHR_incremental_present");
    reveal_strlit("VK_KHR_16bit_storage");
    reveal_strlit("VK_KHR_storage_buffer_storage_class");
    reveal_strlit("VK_EXT_debug_utils");
    reveal_strlit("VK_KHR_multiview");
    reveal_strlit("VK_EXT_full_screen_exclusive");
    if e1 == Extension::KhrSwapchain && e2 == Extension::KhrDisplaySwapchain {
        assert(e1.spec_name().len() != e2.spec_name().len());
    }
    if e1 == Extension::KhrSwapchain && e2 == Extension::KhrSamplerMirrorClampToEdge {
        assert(e1.spec_name().len() != e2.spec_name().len());
    }
    if e1 == Extension::KhrSwapchain && e2 == Extension::KhrMaintenance1 {
        assert(e1.spec_name().len() != e2.spec_name().len());
    }
    if e1 == Extension::KhrSwapchain && e2 == Extension::KhrGetMemoryRequirements2 {
        assert(e1.spec_name().len() != e2.spec_name().len());
    }
    if e1 == Extension::KhrSwapchain && e2 == Extension::KhrDedicatedAllocation {
        assert(e1.spec_name().len() != e2.spec_name().len());
    }
    if e1 == Extension::KhrSwapchain && e2 == Extension::KhrIncrementalPresent {
        assert(e1.spec_name().len() != e2.spec_name().len());
    }
    if e1 == Extension::KhrSwapchain && e2 == Extension::Khr16bitsStorage {
        assert(e1.spec_name().len() != e2.spec_name().len());
    }
    if e1 == Extension::KhrSwapchain && e2 == Extension::KhrStorageBufferStorageClass {
        assert(e1.spec_name().len() != e2.spec_name().len());
    }
    if e1 == Extension::KhrSwapchain && e2 == Extension::ExtDebugUtils {
        assert(e1.spec_name().len() != e2.spec_name().len());
    }
    if e1 == Extension::KhrSwapchain && e2 == Extension::KhrMultiview {
        assert(e1.spec_name()[7] != e2.spec_name()[7]);
    }
    if e1 == Extension::KhrSwapchain && e2 == Extension::ExtFullScreenExclusive {
        assert(e1.spec_name().len() != e2.spec_name().len());
    }
    if e1 == Extension::KhrDisplaySwapchain && e2 == Extension::KhrSwapchain {
        assert(e1.spec_name().len() != e2.spec_name().len());
    }
    if e1 == Extension::KhrDisplaySwapchain && e2 == Extension::KhrSamplerMirrorClampToEdge {
        assert(e1.spec_name().len() != e2.spec_name().len());
    }
    if e1 == Extension::KhrDisplaySwapchain && e2 == Extension::KhrMaintenance1 {
        assert(e1.spec_name().len() != e2.spec_name().len());
    }
    if e1 == Extension::KhrDisplaySwapchain && e2 == Extension::KhrGetMemoryRequirements2 {
        assert(e1.spec_name().len() != e2.spec_name().len());
    }
    if e1 == Extension::KhrDisplaySwapchain && e2 == Extension::KhrDedicatedAllocation {
        assert(e1.spec_name().len() != e2.spec_name().len());
    }
    if e1 == Extension::KhrDisplaySwapchain && e2 == Extension::KhrIncrementalPresent {
        assert(e1.spec_name().len() != e2.spec_name().len());
    }
    if e1 == Extension::KhrDisplaySwapchain && e2 == Extension::Khr16bitsStorage {
        assert(e1.spec_name().len() != e2.spec_name().len());
    }
    if e1 == Extension::KhrDisplaySwapchain && e2 == Extension::KhrStorageBufferStorageClass {
        assert(e1.spec_name().len() != e2.spec_name().len());
    }
    if e1 == Extension::KhrDisplaySwapchain && e2 == Extension::ExtDebugUtils {
        assert(e1.spec_name().len() != e2.spec_name().len());
    }
    if e1 == Extension::KhrDisplaySwapchain && e2 == Extension::KhrMultiview {
        assert(e1.spec_name().len() != e2.spec_name().len());
    }
    if e1 == Extension::KhrDisplaySwapchain && e2 == Extension::ExtFullScreenExclusive {
        assert(e1.spec_name().len() != e2.spec_name().len());
    }
    if e1 == Extension::KhrSamplerMirrorClampToEdge && e2 == Extension::KhrSwapchain {
        assert(e1.spec_name().len() != e2.spec_name().len());
    }
    if e1 == Extension::KhrSamplerMirrorClampToEdge && e2 == Extension::KhrDisplaySwapchain {
        assert(e1.spec_name().len() != e2.spec_name().len());
    }
    if e1 == Extension::KhrSamplerMirrorClampToEdge && e2 == Extension::KhrMaintenance1 {
        assert(e1.spec_name().len() != e2.spec_name().len());
    }
    if e1 == Extension::KhrSamplerMirrorClampToEdge && e2 == Extension::KhrGetMemoryRequirements2 {
        assert(e1.spec_name().len() != e2.spec_name().len());
    }
    if e1 == Extension::KhrSamplerMirrorClampToEdge && e2 == Extension::KhrDedicatedAllocation {
        assert(e1.spec_name().len() != e2.spec_name().len());
    }
    if e1 == Extension::KhrSamplerMirrorClampToEdge && e2 == Extension::KhrIncrementalPresent {
        assert(e1.spec_name().len() != e2.spec_name().len());
    }
    if e1 == Extension::KhrSamplerMirrorClampToEdge && e2 == Extension::Khr16bitsStorage {
        assert(e1.spec_name().len() != e2.spec_name().len());
    }
    if e1 == Extension::KhrSamplerMirrorClampToEdge && e2 == Extension::KhrStorageBufferStorageClass {
        assert(e1.spec_name()[8] != e2.spec_name()[8]);
    }
    if e1 == Extension::KhrSamplerMirrorClampToEdge && e2 == Extension::ExtDebugUtils {
        assert(e1.spec_name().len() != e2.spec_name().len());
    }
    if e1 == Extension::KhrSamplerMirrorClampToEdge && e2 == Extension::KhrMultiview {
        assert(e1.spec_name().len() != e2.spec_name().len());
    }
    if e1 == Extension::KhrSamplerMirrorClampToEdge && e2 == Extension::ExtFullScreenExclusive {
        assert(e1.spec_name().len() != e2.spec_name().len());
    }
    if e1 == Extension::KhrMaintenance1 && e2 == Extension::KhrSwapchain {
        assert(e1.spec_name().len() != e2.spec_name().len());
    }
    if e1 == Extension::KhrMaintenance1 && e2 == Extension::KhrDisplaySwapchain {
        assert(e1.spec_name().len() != e2.spec_name().len());
    }
    if e1 == Extension::KhrMaintenance1 && e2 == Extension::KhrSamplerMirrorClampToEdge {
        assert(e1.spec_name().len() != e2.spec_name().len());
    }
    if e1 == Extension::KhrMaintenance1 && e2 == Extension::KhrGetMemoryRequirements2 {
        assert(e1.spec_name().len() != e2.spec_name().len());
    }
    if e1 == Extension::KhrMaintenance1 && e2 == Extension::KhrDedicatedAllocation {
        assert(e1.spec_name().len() != e2.spec_name().len());
    }
    if e1 == Extension::KhrMaintenance1 && e2 == Extension::KhrIncrementalPresent {
        assert(e1.spec_name().len() != e2.spec_name().len());
    }
    if e1 == Extension::KhrMaintenance1 && e2 == Extension::Khr16bitsStorage {
        assert(e1.spec_name().len() != e2.spec_name().len());
    }
    if e1 == Extension::KhrMaintenance1 && e2 == Extension::KhrStorageBufferStorageClass {
        assert(e1.spec_name().len() != e2.spec_name().len());
    }
    if e1 == Extension::KhrMaintenance1 && e2 == Extension::ExtDebugUtils {
        assert(e1.spec_name().len() != e2.spec_name().len());
    }
    if e1 == Extension::KhrMaintenance1 && e2 == Extension::KhrMultiview {
        assert(e1.spec_name().len() != e2.spec_name().len());
    }
    if e1 == Extension::KhrMaintenance1 && e2 == Extension::ExtFullScreenExclusive {
        assert(e1.spec_name().len() != e2.spec_name().len());
    }
    if e1 == Extension::KhrGetMemoryRequirements2 && e2 == Extension::KhrSwapchain {
        assert(e1.spec_name().len() != e2.spec_name().len());
    }
    if e1 == Extension::KhrGetMemoryRequirements2 && e2 == Extension::KhrDisplaySwapchain {
        assert(e1.spec_name().len() != e2.spec_name().len());
    }
    if e1 == Extension::KhrGetMemoryRequirements2 && e2 == Extension::KhrSamplerMirrorClampToEdge {
        assert(e1.spec_name().len() != e2.spec_name().len());
    }
    if e1 == Extension::KhrGetMemoryRequirements2 && e2 == Extension::KhrMaintenance1 {
        assert(e1.spec_name().len() != e2.spec_name().len());
    }
    if e1 == Extension::KhrGetMemoryRequirements2 && e2 == Extension::KhrDedicatedAllocation {
        assert(e1.spec_name().len() != e2.spec_name().len());
    }
    if e1 == Extension::KhrGetMemoryRequirements2 && e2 == Extension::KhrIncrementalPresent {
        assert(e1.spec_name().len() != e2.spec_name().len());
    }
    if e1 == Extension::KhrGetMemoryRequirements2 && e2 == Extension::Khr16bitsStorage {
        assert(e1.spec_name().len() != e2.spec_name().len());
    }
    if e1 == Extension::KhrGetMemoryRequirements2 && e2 == Extension::KhrStorageBufferStorageClass {
        assert(e1.spec_name().len() != e2.spec_name().len());
    }
    if e1 == Extension::KhrGetMemoryRequirements2 && e2 == Extension::ExtDebugUtils {
        assert(e1.spec_name().len() != e2.spec_name().len());
    }
    if e1 == Extension::KhrGetMemoryRequirements2 && e2 == Extension::KhrMultiview {
        assert(e1.spec_name().len() != e2.spec_name().len());
    }
    if e1 == Extension::KhrGetMemoryRequirements2 && e2 == Extension::ExtFullScreenExclusive {
        assert(e1.spec_name().len() != e2.spec_name().len());
    }
    if e1 == Extension::KhrDedicatedAllocation && e2 == Extension::KhrSwapchain {
        assert(e1.spec_name().len() != e2.spec_name().len());
    }
    if e1 == Extension::KhrDedicatedAllocation && e2 == Extension::KhrDisplaySwapchain {
        assert(e1.spec_name().len() != e2.spec_name().len());
    }
    if e1 == Extension::KhrDedicatedAllocation && e2 == Extension::KhrSamplerMirrorClampToEdge {
        assert(e1.spec_name().len() != e2.spec_name().len());
    }
    if e1 == Extension::KhrDedicatedAllocation && e2 == Extension::KhrMaintenance1 {
        assert(e1.spec_name().len() != e2.spec_name().len());
    }
    if e1 == Extension::KhrDedicatedAllocation && e2 == Extension::KhrGetMemoryRequirements2 {
        assert(e1.spec_name().len() != e2.spec_name().len());
    }
    if e1 == Extension::KhrDedicatedAllocation && e2 == Extension::KhrIncrementalPresent {
        assert(e1.spec_name().len() != e2.spec_name().len());
    }
    if e1 == Extension::KhrDedicatedAllocation && e2 == Extension::Khr16bitsStorage {
        assert(e1.spec_name().len() != e2.spec_name().len());
    }
    if e1 == Extension::KhrDedicatedAllocation && e2 == Extension::KhrStorageBufferStorageClass {
        assert(e1.spec_name().len() != e2.spec_name().len());
    }
    if e1 == Extension::KhrDedicatedAllocation && e2 == Extension::ExtDebugUtils {
        assert(e1.spec_name().len() != e2.spec_name().len());
    }
    if e1 == Extension::KhrDedicatedAllocation && e2 == Extension::KhrMultiview {
        assert(e1.spec_name().len() != e2.spec_name().len());
    }
    if e1 == Extension::KhrDedicatedAllocation && e2 == Extension::ExtFullScreenExclusive {
        assert(e1.spec_name().len() != e2.spec_name().len());
    }
    if e1 == Extension::KhrIncrementalPresent && e2 == Extension::KhrSwapchain {
        assert(e1.spec_name().len() != e2.spec_name().len());
    }
    if e1 == Extension::KhrIncrementalPresent && e2 == Extension::KhrDisplaySwapchain {
        assert(e1.spec_name().len() != e2.spec_name().len());
    }
    if e1 == Extension::KhrIncrementalPresent && e2 == Extension::KhrSamplerMirrorClampToEdge {
        assert(e1.spec_name().len() != e2.spec_name().len());
    }
    if e1 == Extension::KhrIncrementalPresent && e2 == Extension::KhrMaintenance1 {
        assert(e1.spec_name().len() != e2.spec_name().len());
    }
    if e1 == Extension::KhrIncrementalPresent && e2 == Extension::KhrGetMemoryRequirements2 {
        assert(e1.spec_name().len() != e2.spec_name().len());
    }
    if e1 == Extension::KhrIncrementalPresent && e2 == Extension::KhrDedicatedAllocation {
        assert(e1.spec_name().len() != e2.spec_name().len());
    }
    if e1 == Extension::KhrIncrementalPresent && e2 == Extension::Khr16bitsStorage {
        assert(e1.spec_name().len() != e2.spec_name().len());
    }
    if e1 == Extension::KhrIncrementalPresent && e2 == Extension::KhrStorageBufferStorageClass {
        assert(e1.spec_name().len() != e2.spec_name().len());
    }
    if e1 == Extension::KhrIncrementalPresent && e2 == Extension::ExtDebugUtils {
        assert(e1.spec_name().len() != e2.spec_name().len());
    }
    if e1 == Extension::KhrIncrementalPresent && e2 == Extension::KhrMultiview {
        assert(e1.spec_name().len() != e2.spec_name().len());
    }
    if e1 == Extension::KhrIncrementalPresent && e2 == Extension::ExtFullScreenExclusive {
        assert(e1.spec_name().len() != e2.spec_name().len());
    }
    if e1 == Extension::Khr16bitsStorage && e2 == Extension::KhrSwapchain {
        assert(e1.spec_name().len() != e2.spec_name().len());
    }
    if e1 == Extension::Khr16bitsStorage && e2 == Extension::KhrDisplaySwapchain {
        assert(e1.spec_name().len() != e2.spec_name().len());
    }
    if e1 == Extension::Khr16bitsStorage && e2 == Extension::KhrSamplerMirrorClampToEdge {
        assert(e1.spec_name().len() != e2.spec_name().len());
    }
    if e1 == Extension::Khr16bitsStorage && e2 == Extension::KhrMaintenance1 {
        assert(e1.spec_name().len() != e2.spec_name().len());
    }
    if e1 == Extension::Khr16bitsStorage && e2 == Extension::KhrGetMemoryRequirements2 {
        assert(e1.spec_name().len() != e2.spec_name().len());
    }
    if e1 == Extension::Khr16bitsStorage && e2 == Extension::KhrDedicatedAllocation {
        assert(e1.spec_name().len() != e2.spec_name().len());
    }
    if e1 == Extension::Khr16bitsStorage && e2 == Extension::KhrIncrementalPresent {
        assert(e1.spec_name().len() != e2.spec_name().len());
    }
    if e1 == Extension::Khr16bitsStorage && e2 == Extension::KhrStorageBufferStorageClass {
        assert(e1.spec_name().len() != e2.spec_name().len());
    }
    if e1 == Extension::Khr16bitsStorage && e2 == Extension::ExtDebugUtils {
        assert(e1.spec_name().len() != e2.spec_name().len());
    }
    if e1 == Extension::Khr16bitsStorage && e2 == Extension::KhrMultiview {
        assert(e1.spec_name().len() != e2.spec_name().len());
    }
    if e1 == Extension::Khr16bitsStorage && e2 == Extension::ExtFullScreenExclusive {
        assert(e1.spec_name().len() != e2.spec_name().len());
    }
    if e1 == Extension::KhrStorageBufferStorageClass && e2 == Extension::KhrSwapchain {
        assert(e1.spec_name().len() != e2.spec_name().len());
    }
    if e1 == Extension::KhrStorageBufferStorageClass && e2 == Extension::KhrDisplaySwapchain {
        assert(e1.spec_name().len() != e2.spec_name().len());
    }
    if e1 == Extension::KhrStorageBufferStorageClass && e2 == Extension::KhrSamplerMirrorClampToEdge {
        assert(e1.spec_name()[8] != e2.spec_name()[8]);
    }
    if e1 == Extension::KhrStorageBufferStorageClass && e2 == Extension::KhrMaintenance1 {
        assert(e1.spec_name().len() != e2.spec_name().len());
    }
    if e1 == Extension::KhrStorageBufferStorageClass && e2 == Extension::KhrGetMemoryRequirements2 {
        assert(e1.spec_name().len() != e2.spec_name().len());
    }
    if e1 == Extension::KhrStorageBufferStorageClass && e2 == Extension::KhrDedicatedAllocation {
        assert(e1.spec_name().len() != e2.spec_name().len());
    }
    if e1 == Extension::KhrStorageBufferStorageClass && e2 == Extension::KhrIncrementalPresent {
        assert(e1.spec_name().len() != e2.spec_name().len());
    }
    if e1 == Extension::KhrStorageBufferStorageClass && e2 == Extension::Khr16bitsStorage {
        assert(e1.spec_name().len() != e2.spec_name().len());
    }
    if e1 == Extension::KhrStorageBufferStorageClass && e2 == Extension::ExtDebugUtils {
        assert(e1.spec_name().len() != e2.spec_name().len());
    }
    if e1 == Extension::KhrStorageBufferStorageClass && e2 == Extension::KhrMultiview {
        assert(e1.spec_name().len() != e2.spec_name().len());
    }
    if e1 == Extension::KhrStorageBufferStorageClass && e2 == Extension::ExtFullScreenExclusive {
        assert(e1.spec_name().len() != e2.spec_name().len());
    }
    if e1 == Extension::ExtDebugUtils && e2 == Extension::KhrSwapchain {
        assert(e1.spec_name().len() != e2.spec_name().len());
    }
    if e1 == Extension::ExtDebugUtils && e2 == Extension::KhrDisplaySwapchain {
        assert(e1.spec_name().len() != e2.spec_name().len());
    }
    if e1 == Extension::ExtDebugUtils && e2 == Extension::KhrSamplerMirrorClampToEdge {
        assert(e1.spec_name().len() != e2.spec_name().len());
    }
    if e1 == Extension::ExtDebugUtils && e2 == Extension::KhrMaintenance1 {
        assert(e1.spec_name().len() != e2.spec_name().len());
    }
    if e1 == Extension::ExtDebugUtils && e2 == Extension::KhrGetMemoryRequirements2 {
        assert(e1.spec_name().len() != e2.spec_name().len());
    }
    if e1 == Extension::ExtDebugUtils && e2 == Extension::KhrDedicatedAllocation {
        assert(e1.spec_name().len() != e2.spec_name().len());
    }
    if e1 == Extension::ExtDebugUtils && e2 == Extension::KhrIncrementalPresent {
        assert(e1.spec_name().len() != e2.spec_name().len());
    }
    if e1 == Extension::ExtDebugUtils && e2 == Extension::Khr16bitsStorage {
        assert(e1.spec_name().len() != e2.spec_name().len());
    }
    if e1 == Extension::ExtDebugUtils && e2 == Extension::KhrStorageBufferStorageClass {
        assert(e1.spec_name().len() != e2.spec_name().len());
    }
    if e1 == Extension::ExtDebugUtils && e2 == Extension::KhrMultiview {
        assert(e1.spec_name().len() != e2.spec_name().len());
    }
    if e1 == Extension::ExtDebugUtils && e2 == Extension::ExtFullScreenExclusive {
        assert(e1.spec_name().len() != e2.spec_name().len());
    }
    if e1 == Extension::KhrMultiview && e2 == Extension::KhrSwapchain {
        assert(e1.spec_name()[7] != e2.spec_name()[7]);
    }
    if e1 == Extension::KhrMultiview && e2 == Extension::KhrDisplaySwapchain {
        assert(e1.spec_name().len() != e2.spec_name().len());
    }
    if e1 == Extension::KhrMultiview && e2 == Extension::KhrSamplerMirrorClampToEdge {
        assert(e1.spec_name().len() != e2.spec_name().len());
    }
    if e1 == Extension::KhrMultiview && e2 == Extension::KhrMaintenance1 {
        assert(e1.spec_name().len() != e2.spec_name().len());
    }
    if e1 == Extension::KhrMultiview && e2 == Extension::KhrGetMemoryRequirements2 {
        assert(e1.spec_name().len() != e2.spec_name().len());
    }
    if e1 == Extension::KhrMultiview && e2 == Extension::KhrDedicatedAllocation {
        assert(e1.spec_name().len() != e2.spec_name().len());
    }
    if e1 == Extension::KhrMultiview && e2 == Extension::KhrIncrementalPresent {
        assert(e1.spec_name().len() != e2.spec_name().len());
    }
    if e1 == Extension::KhrMultiview && e2 == Extension::Khr16bitsStorage {
        assert(e1.spec_name().len() != e2.spec_name().len());
    }
    if e1 == Extension::KhrMultiview && e2 == Extension::KhrStorageBufferStorageClass {
        assert(e1.spec_name().len() != e2.spec_name().len());
    }
    if e1 == Extension::KhrMultiview && e2 == Extension::ExtDebugUtils {
        assert(e1.spec_name().len() != e2.spec_name().len());
    }
    if e1 == Extension::KhrMultiview && e2 == Extension::ExtFullScreenExclusive {
        assert(e1.spec_name().len() != e2.spec_name().len());
    }
    if e1 == Extension::ExtFullScreenExclusive && e2 == Extension::KhrSwapchain {
        assert(e1.spec_name().len() != e2.spec_name().len());
    }
    if e1 == Extension::ExtFullScreenExclusive && e2 == Extension::KhrDisplaySwapchain {
        assert(e1.spec_name().len() != e2.spec_name().len());
    }
    if e1 == Extension::ExtFullScreenExclusive && e2 == Extension::KhrSamplerMirrorClampToEdge {
        assert(e1.spec_name().len() != e2.spec_name().len());
    }
    if e1 == Extension::ExtFullScreenExclusive && e2 == Extension::KhrMaintenance1 {
        assert(e1.spec_name().len() != e2.spec_name().len());
    }
    if e1 == Extension::ExtFullScreenExclusive && e2 == Extension::KhrGetMemoryRequirements2 {
        assert(e1.spec_name().len() != e2.spec_name().len());
    }
    if e1 == Extension::ExtFullScreenExclusive && e2 == Extension::KhrDedicatedAllocation {
        assert(e1.spec_name().len() != e2.spec_name().len());
    }
    if e1 == Extension::ExtFullScreenExclusive && e2 == Extension::KhrIncrementalPresent {
        assert(e1.spec_name().len() != e2.spec_name().len());
    }
    if e1 == Extension::ExtFullScreenExclusive && e2 == Extension::Khr16bitsStorage {
        assert(e1.spec_name().len() != e2.spec_name().len());
    }
    if e1 == Extension::ExtFullScreenExclusive && e2 == Extension::KhrStorageBufferStorageClass {
        assert(e1.spec_name().len() != e2.spec_name().len());
    }
    if e1 == Extension::ExtFullScreenExclusive && e2 == Extension::ExtDebugUtils {
        assert(e1.spec_name().len() != e2.spec_name().len());
    }
    if e1 == Extension::ExtFullScreenExclusive && e2 == Extension::KhrMultiview {
        assert(e1.spec_name().len() != e2.spec_name().len());
    }
}

/// A set of device extensions.
#[derive(Clone, Copy, Debug, PartialEq, Eq, Hash, Structural)]
pub struct Extensions {
    pub khr_swapchain: bool,
    pub khr_display_swapchain: bool,
    pub khr_sampler_mirror_clamp_to_edge: bool,
    pub khr_maintenance1: bool,
    pub khr_get_memory_requirements2: bool,
    pub khr_dedicated_allocation: bool,
    pub khr_incremental_present: bool,
    pub khr_16bit_storage: bool,
    pub khr_storage_buffer_storage_class: bool,
    pub ext_debug_utils: bool,
    pub khr_multiview: bool,
    pub ext_full_screen_exclusive: bool,
}

impl Extensions {
    /// True when the extension is in the set.
    pub open spec fn has(self, e: Extension) -> bool {
        match e {
            Extension::KhrSwapchain => self.khr_swapchain,
            Extension::KhrDisplaySwapchain => self.khr_display_swapchain,
            Extension::KhrSamplerMirrorClampToEdge => self.khr_sampler_mirror_clamp_to_edge,
            Extension::KhrMaintenance1 => self.khr_maintenance1,
            Extension::KhrGetMemoryRequirements2 => self.khr_get_memory_requirements2,
            Extension::KhrDedicatedAllocation => self.khr_dedicated_allocation,
            Extension::KhrIncrementalPresent => self.khr_incremental_present,
            Extension::Khr16bitsStorage => self.khr_16bit_storage,
            Extension::KhrStorageBufferStorageClass => self.khr_storage_buffer_storage_class,
            Extension::ExtDebugUtils => self.ext_debug_utils,
            Extension::KhrMultiview => self.khr_multiview,
            Extension::ExtFullScreenExclusive => self.ext_full_screen_exclusive,
        }
    }

    /// The set with no extension.
    pub fn none() -> (s: Extensions)
        ensures
            forall|e: Extension| !s.has(e),
    {
        Extensions {
            khr_swapchain: false,
            khr_display_swapchain: false,
            khr_sampler_mirror_clamp_to_edge: false,
            khr_maintenance1: false,
            khr_get_memory_requirements2: false,
            khr_dedicated_allocation: false,
            khr_incremental_present: false,
            khr_16bit_storage: false,
            khr_storage_buffer_storage_class: false,
            ext_debug_utils: false,
            khr_multiview: false,
            ext_full_screen_exclusive: false,
        }
    }

    /// True when the extension is in the set.
    pub fn contains(&self, e: Extension) -> (b: bool)
        ensures
            b == self.has(e),
    {
        match e {
            Extension::KhrSwapchain => self.khr_swapchain,
            Extension::KhrDisplaySwapchain => self.khr_display_swapchain,
            Extension::KhrSamplerMirrorClampToEdge => self.khr_sampler_mirror_clamp_to_edge,
            Extension::KhrMaintenance1 => self.khr_maintenance1,
            Extension::KhrGetMemoryRequirements2 => self.khr_get_memory_requirements2,
            Extension::KhrDedicatedAllocation => self.khr_dedicated_allocation,
            Extension::KhrIncrementalPresent => self.khr_incremental_present,
            Extension::Khr16bitsStorage => self.khr_16bit_storage,
            Extension::KhrStorageBufferStorageClass => self.khr_storage_buffer_storage_class,
            Extension::ExtDebugUtils => self.ext_debug_utils,
            Extension::KhrMultiview => self.khr_multiview,
            Extension::ExtFullScreenExclusive => self.ext_full_screen_exclusive,
        }
    }

    /// The set with the extension added.
    pub open spec fn spec_insert(self, e: Extension) -> Extensions {
        match e {
            Extension::KhrSwapchain => Extensions { khr_swapchain: true, ..self },
            Extension::KhrDisplaySwapchain => Extensions { khr_display_swapchain: true, ..self },
            Extension::KhrSamplerMirrorClampToEdge => Extensions { khr_sampler_mirror_clamp_to_edge: true, ..self },
            Extension::KhrMaintenance1 => Extensions { khr_maintenance1: true, ..self },
            Extension::KhrGetMemoryRequirements2 => Extensions { khr_get_memory_requirements2: true, ..self },
            Extension::KhrDedicatedAllocation => Extensions { khr_dedicated_allocation: true, ..self },
            Extension::KhrIncrementalPresent => Extensions { khr_incremental_present: true, ..self },
            Extension::Khr16bitsStorage => Extensions { khr_16bit_storage: true, ..self },
            Extension::KhrStorageBufferStorageClass => Extensions { khr_storage_buffer_storage_class: true, ..self },
            Extension::ExtDebugUtils => Extensions { ext_debug_utils: true, ..self },
            Extension::KhrMultiview => Extensions { khr_multiview: true, ..self },
            Extension::ExtFullScreenExclusive => Extensions { ext_full_screen_exclusive: true, ..self },
        }
    }

    /// Adds the extension to the set.
    pub fn insert(&mut self, e: Extension)
        ensures
            *final(self) == old(self).spec_insert(e),
            forall|x: Extension| #[trigger] final(self).has(x) == (old(self).has(x) || x == e),
    {
        proof {
            lemma_insert_has(*self, e);
        }
        *self = match e {
            Extension::KhrSwapchain => Extensions { khr_swapchain: true, ..*self },
            Extension::KhrDisplaySwapchain => Extensions { khr_display_swapchain: true, ..*self },
            Extension::KhrSamplerMirrorClampToEdge => Extensions { khr_sampler_mirror_clamp_to_edge: true, ..*self },
            Extension::KhrMaintenance1 => Extensions { khr_maintenance1: true, ..*self },
            Extension::KhrGetMemoryRequirements2 => Extensions { khr_get_memory_requirements2: true, ..*self },
            Extension::KhrDedicatedAllocation => Extensions { khr_dedicated_allocation: true, ..*self },
            Extension::KhrIncrementalPresent => Extensions { khr_incremental_present: true, ..*self },
            Extension::Khr16bitsStorage => Extensions { khr_16bit_storage: true, ..*self },
            Extension::KhrStorageBufferStorageClass => Extensions { khr_storage_buffer_storage_class: true, ..*self },
            Extension::ExtDebugUtils => Extensions { ext_debug_utils: true, ..*self },
            Extension::KhrMultiview => Extensions { khr_multiview: true, ..*self },
            Extension::ExtFullScreenExclusive => Extensions { ext_full_screen_exclusive: true, ..*self },
        };
    }
}

/// After an insertion the set holds the inserted extension and those it held before.
pub proof fn lemma_insert_has(s: Extensions, e: Extension)
    ensures
        forall|x: Extension| #[trigger] s.spec_insert(e).has(x) == (s.has(x) || x == e),
{
}

} // verus!
