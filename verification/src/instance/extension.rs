//! Instance extensions.
use vstd::prelude::*;

verus! {

/// True when some extension has the given name.
pub open spec fn spec_known(name: Seq<char>) -> bool {
    exists|e: Extension| e.spec_name() == name
}

/// A instance extension.
#[derive(Clone, Copy, Debug, PartialEq, Eq, Hash, Structural)]
pub enum Extension {
    KhrSurface,
    KhrDisplay,
    KhrXlibSurface,
    KhrXcbSurface,
    KhrWaylandSurface,
    KhrAndroidSurface,
    KhrWin32Surface,
    ExtDebugUtils,
    MkvIosSurface,
    MkvMacosSurface,
    NnViSurface,
    ExtSwapchainColorspace,
    KhrGetPhysicalDeviceproperties2,
    KhrGetSurfaceCapabilities2,
}

impl Extension {
    /// The name of this extension, as Vulkan knows it.
    pub open spec fn spec_name(self) -> Seq<char> {
        match self {
            Extension::KhrSurface => "VK_KHR_surface"@,
            Extension::KhrDisplay => "VK_KHR_display"@,
            Extension::KhrXlibSurface => "VK_KHR_xlib_surface"@,
            Extension::KhrXcbSurface => "VK_KHR_xcb_surface"@,
            Extension::KhrWaylandSurface => "VK_KHR_wayland_surface"@,
            Extension::KhrAndroidSurface => "VK_KHR_android_surface"@,
            Extension::KhrWin32Surface => "VK_KHR_win32_surface"@,
            Extension::ExtDebugUtils => "VK_EXT_debug_utils"@,
            Extension::MkvIosSurface => "VK_MVK_ios_surface"@,
            Extension::MkvMacosSurface => "VK_MVK_macos_surface"@,
            Extension::NnViSurface => "VK_NN_vi_surface"@,
            Extension::ExtSwapchainColorspace => "VK_EXT_swapchain_colorspace"@,
            Extension::KhrGetPhysicalDeviceproperties2 => "VK_KHR_get_physical_device_properties2"@,
            Extension::KhrGetSurfaceCapabilities2 => "VK_KHR_get_surface_capabilities2"@,
        }
    }

    /// Returns the name of this extension, as Vulkan knows it.
    pub fn name(self) -> (s: &'static str)
        ensures
            s@ == self.spec_name(),
    {
        match self {
            Extension::KhrSurface => "VK_KHR_surface",
            Extension::KhrDisplay => "VK_KHR_display",
            Extension::KhrXlibSurface => "VK_KHR_xlib_surface",
            Extension::KhrXcbSurface => "VK_KHR_xcb_surface",
            Extension::KhrWaylandSurface => "VK_KHR_wayland_surface",
            Extension::KhrAndroidSurface => "VK_KHR_android_surface",
            Extension::KhrWin32Surface => "VK_KHR_win32_surface",
            Extension::ExtDebugUtils => "VK_EXT_debug_utils",
            Extension::MkvIosSurface => "VK_MVK_ios_surface",
            Extension::MkvMacosSurface => "VK_MVK_macos_surface",
            Extension::NnViSurface => "VK_NN_vi_surface",
            Extension::ExtSwapchainColorspace => "VK_EXT_swapchain_colorspace",
            Extension::KhrGetPhysicalDeviceproperties2 => "VK_KHR_get_physical_device_properties2",
            Extension::KhrGetSurfaceCapabilities2 => "VK_KHR_get_surface_capabilities2",
        }
    }

    /// The extension of the given name, if it is one of this enumeration.
    pub fn from_name(name: &str) -> (r: Option<Extension>)
        ensures
            forall|e: Extension| r == Some(e) <==> e.spec_name() == name@,
            r is None <==> !spec_known(name@),
    {
        if crate::str_eq(name, Extension::KhrSurface.name()) {
            proof {
                assert forall|e: Extension| e.spec_name() == name@ implies e == Extension::KhrSurface by {
                    lemma_names_distinct(e, Extension::KhrSurface);
                }
            }
            return Some(Extension::KhrSurface);
        }
        if crate::str_eq(name, Extension::KhrDisplay.name()) {
            proof {
                assert forall|e: Extension| e.spec_name() == name@ implies e == Extension::KhrDisplay by {
                    lemma_names_distinct(e, Extension::KhrDisplay);
                }
            }
            return Some(Extension::KhrDisplay);
        }
        if crate::str_eq(name, Extension::KhrXlibSurface.name()) {
            proof {
                assert forall|e: Extension| e.spec_name() == name@ implies e == Extension::KhrXlibSurface by {
                    lemma_names_distinct(e, Extension::KhrXlibSurface);
                }
            }
            return Some(Extension::KhrXlibSurface);
        }
        if crate::str_eq(name, Extension::KhrXcbSurface.name()) {
            proof {
                assert forall|e: Extension| e.spec_name() == name@ implies e == Extension::KhrXcbSurface by {
                    lemma_names_distinct(e, Extension::KhrXcbSurface);
                }
            }
            return Some(Extension::KhrXcbSurface);
        }
        if crate::str_eq(name, Extension::KhrWaylandSurface.name()) {
            proof {
                assert forall|e: Extension| e.spec_name() == name@ implies e == Extension::KhrWaylandSurface by {
                    lemma_names_distinct(e, Extension::KhrWaylandSurface);
                }
            }
            return Some(Extension::KhrWaylandSurface);
        }
        if crate::str_eq(name, Extension::KhrAndroidSurface.name()) {
            proof {
                assert forall|e: Extension| e.spec_name() == name@ implies e == Extension::KhrAndroidSurface by {
                    lemma_names_distinct(e, Extension::KhrAndroidSurface);
                }
            }
            return Some(Extension::KhrAndroidSurface);
        }
        if crate::str_eq(name, Extension::KhrWin32Surface.name()) {
            proof {
                assert forall|e: Extension| e.spec_name() == name@ implies e == Extension::KhrWin32Surface by {
                    lemma_names_distinct(e, Extension::KhrWin32Surface);
                }
            }
            return Some(Extension::KhrWin32Surface);
        }
        if crate::str_eq(name, Extension::ExtDebugUtils.name()) {
            proof {
                assert forall|e: Extension| e.spec_name() == name@ implies e == Extension::ExtDebugUtils by {
                    lemma_names_distinct(e, Extension::ExtDebugUtils);
                }
            }
            return Some(Extension::ExtDebugUtils);
        }
        if crate::str_eq(name, Extension::MkvIosSurface.name()) {
            proof {
                assert forall|e: Extension| e.spec_name() == name@ implies e == Extension::MkvIosSurface by {
                    lemma_names_distinct(e, Extension::MkvIosSurface);
                }
            }
            return Some(Extension::MkvIosSurface);
        }
        if crate::str_eq(name, Extension::MkvMacosSurface.name()) {
            proof {
                assert forall|e: Extension| e.spec_name() == name@ implies e == Extension::MkvMacosSurface by {
                    lemma_names_distinct(e, Extension::MkvMacosSurface);
                }
            }
            return Some(Extension::MkvMacosSurface);
        }
        if crate::str_eq(name, Extension::NnViSurface.name()) {
            proof {
                assert forall|e: Extension| e.spec_name() == name@ implies e == Extension::NnViSurface by {
                    lemma_names_distinct(e, Extension::NnViSurface);
                }
            }
            return Some(Extension::NnViSurface);
        }
        if crate::str_eq(name, Extension::ExtSwapchainColorspace.name()) {
            proof {
                assert forall|e: Extension| e.spec_name() == name@ implies e == Extension::ExtSwapchainColorspace by {
                    lemma_names_distinct(e, Extension::ExtSwapchainColorspace);
                }
            }
            return Some(Extension::ExtSwapchainColorspace);
        }
        if crate::str_eq(name, Extension::KhrGetPhysicalDeviceproperties2.name()) {
            proof {
                assert forall|e: Extension| e.spec_name() == name@ implies e == Extension::KhrGetPhysicalDeviceproperties2 by {
                    lemma_names_distinct(e, Extension::KhrGetPhysicalDeviceproperties2);
                }
            }
            return Some(Extension::KhrGetPhysicalDeviceproperties2);
        }
        if crate::str_eq(name, Extension::KhrGetSurfaceCapabilities2.name()) {
            proof {
                assert forall|e: Extension| e.spec_name() == name@ implies e == Extension::KhrGetSurfaceCapabilities2 by {
                    lemma_names_distinct(e, Extension::KhrGetSurfaceCapabilities2);
                }
            }
            return Some(Extension::KhrGetSurfaceCapabilities2);
        }
        None
    }
}

/// Distinct extensions have distinct names.
pub proof fn lemma_names_distinct(e1: Extension, e2: Extension)
    ensures
        e1.spec_name() == e2.spec_name() ==> e1 == e2,
{
    reveal_strlit("VK_KHR_surface");
    reveal_strlit("VK_KHR_display");
    reveal_strlit("VK_KHR_xlib_surface");
    reveal_strlit("VK_KHR_xcb_surface");
    reveal_strlit("VK_KHR_wayland_surface");
    reveal_strlit("VK_KHR_android_surface");
    reveal_strlit("VK_KHR_win32_surface");
    reveal_strlit("VK_EXT_debug_utils");
    reveal_strlit("VK_MVK_ios_surface");
    reveal_strlit("VK_MVK_macos_surface");
    reveal_strlit("VK_NN_vi_surface");
    reveal_strlit("VK_EXT_swapchain_colorspace");
    reveal_strlit("VK_KHR_get_physical_device_properties2");
    reveal_strlit("VK_KHR_get_surface_capabilities2");
    if e1 == Extension::KhrSurface && e2 == Extension::KhrDisplay {
        assert(e1.spec_name()[7] != e2.spec_name()[7]);
    }
    if e1 == Extension::KhrSurface && e2 == Extension::KhrXlibSurface {
        assert(e1.spec_name().len() != e2.spec_name().len());
    }
    if e1 == Extension::KhrSurface && e2 == Extension::KhrXcbSurface {
        assert(e1.spec_name().len() != e2.spec_name().len());
    }
    if e1 == Extension::KhrSurface && e2 == Extension::KhrWaylandSurface {
        assert(e1.spec_name().len() != e2.spec_name().len());
    }
    if e1 == Extension::KhrSurface && e2 == Extension::KhrAndroidSurface {
        assert(e1.spec_name().len() != e2.spec_name().len());
    }
    if e1 == Extension::KhrSurface && e2 == Extension::KhrWin32Surface {
        assert(e1.spec_name().len() != e2.spec_name().len());
    }
    if e1 == Extension::KhrSurface && e2 == Extension::ExtDebugUtils {
        assert(e1.spec_name().len() != e2.spec_name().len());
    }
    if e1 == Extension::KhrSurface && e2 == Extension::MkvIosSurface {
        assert(e1.spec_name().len() != e2.spec_name().len());
    }
    if e1 == Extension::KhrSurface && e2 == Extension::MkvMacosSurface {
        assert(e1.spec_name().len() != e2.spec_name().len());
    }
    if e1 == Extension::KhrSurface && e2 == Extension::NnViSurface {
        assert(e1.spec_name().len() != e2.spec_name().len());
    }
    if e1 == Extension::KhrSurface && e2 == Extension::ExtSwapchainColorspace {
        assert(e1.spec_name().len() != e2.spec_name().len());
    }
    if e1 == Extension::KhrSurface && e2 == Extension::KhrGetPhysicalDeviceproperties2 {
        assert(e1.spec_name().len() != e2.spec_name().len());
    }
    if e1 == Extension::KhrSurface && e2 == Extension::KhrGetSurfaceCapabilities2 {
        assert(e1.spec_name().len() != e2.spec_name().len());
    }
    if e1 == Extension::KhrDisplay && e2 == Extension::KhrSurface {
        assert(e1.spec_name()[7] != e2.spec_name()[7]);
    }
    if e1 == Extension::KhrDisplay && e2 == Extension::KhrXlibSurface {
        assert(e1.spec_name().len() != e2.spec_name().len());
    }
    if e1 == Extension::KhrDisplay && e2 == Extension::KhrXcbSurface {
        assert(e1.spec_name().len() != e2.spec_name().len());
    }
    if e1 == Extension::KhrDisplay && e2 == Extension::KhrWaylandSurface {
        assert(e1.spec_name().len() != e2.spec_name().len());
    }
    if e1 == Extension::KhrDisplay && e2 == Extension::KhrAndroidSurface {
        assert(e1.spec_name().len() != e2.spec_name().len());
    }
    if e1 == Extension::KhrDisplay && e2 == Extension::KhrWin32Surface {
        assert(e1.spec_name().len() != e2.spec_name().len());
    }
    if e1 == Extension::KhrDisplay && e2 == Extension::ExtDebugUtils {
        assert(e1.spec_name().len() != e2.spec_name().len());
    }
    if e1 == Extension::KhrDisplay && e2 == Extension::MkvIosSurface {
        assert(e1.spec_name().len() != e2.spec_name().len());
    }
    if e1 == Extension::KhrDisplay && e2 == Extension::MkvMacosSurface {
        assert(e1.spec_name().len() != e2.spec_name().len());
    }
    if e1 == Extension::KhrDisplay && e2 == Extension::NnViSurface {
        assert(e1.spec_name().len() != e2.spec_name().len());
    }
    if e1 == Extension::KhrDisplay && e2 == Extension::ExtSwapchainColorspace {
        assert(e1.spec_name().len() != e2.spec_name().len());
    }
    if e1 == Extension::KhrDisplay && e2 == Extension::KhrGetPhysicalDeviceproperties2 {
        assert(e1.spec_name().len() != e2.spec_name().len());
    }
    if e1 == Extension::KhrDisplay && e2 == Extension::KhrGetSurfaceCapabilities2 {
        assert(e1.spec_name().len() != e2.spec_name().len());
    }
    if e1 == Extension::KhrXlibSurface && e2 == Extension::KhrSurface {
        assert(e1.spec_name().len() != e2.spec_name().len());
    }
    if e1 == Extension::KhrXlibSurface && e2 == Extension::KhrDisplay {
        assert(e1.spec_name().len() != e2.spec_name().len());
    }
    if e1 == Extension::KhrXlibSurface && e2 == Extension::KhrXcbSurface {
        assert(e1.spec_name().len() != e2.spec_name().len());
    }
    if e1 == Extension::KhrXlibSurface && e2 == Extension::KhrWaylandSurface {
        assert(e1.spec_name().len() != e2.spec_name().len());
    }
    if e1 == Extension::KhrXlibSurface && e2 == Extension::KhrAndroidSurface {
        assert(e1.spec_name().len() != e2.spec_name().len());
    }
    if e1 == Extension::KhrXlibSurface && e2 == Extension::KhrWin32Surface {
        assert(e1.spec_name().len() != e2.spec_name().len());
    }
    if e1 == Extension::KhrXlibSurface && e2 == Extension::ExtDebugUtils {
        assert(e1.spec_name().len() != e2.spec_name().len());
    }
    if e1 == Extension::KhrXlibSurface && e2 == Extension::MkvIosSurface {
        assert(e1.spec_name().len() != e2.spec_name().len());
    }
    if e1 == Extension::KhrXlibSurface && e2 == Extension::MkvMacosSurface {
        assert(e1.spec_name().len() != e2.spec_name().len());
    }
    if e1 == Extension::KhrXlibSurface && e2 == Extension::NnViSurface {
        assert(e1.spec_name().len() != e2.spec_name().len());
    }
    if e1 == Extension::KhrXlibSurface && e2 == Extension::ExtSwapchainColorspace {
        assert(e1.spec_name().len() != e2.spec_name().len());
    }
    if e1 == Extension::KhrXlibSurface && e2 == Extension::KhrGetPhysicalDeviceproperties2 {
        assert(e1.spec_name().len() != e2.spec_name().len());
    }
    if e1 == Extension::KhrXlibSurface && e2 == Extension::KhrGetSurfaceCapabilities2 {
        assert(e1.spec_name().len() != e2.spec_name().len());
    }
    if e1 == Extension::KhrXcbSurface && e2 == Extension::KhrSurface {
        assert(e1.spec_name().len() != e2.spec_name().len());
    }
    if e1 == Extension::KhrXcbSurface && e2 == Extension::KhrDisplay {
        assert(e1.spec_name().len() != e2.spec_name().len());
    }
    if e1 == Extension::KhrXcbSurface && e2 == Extension::KhrXlibSurface {
        assert(e1.spec_name().len() != e2.spec_name().len());
    }
    if e1 == Extension::KhrXcbSurface && e2 == Extension::KhrWaylandSurface {
        assert(e1.spec_name().len() != e2.spec_name().len());
    }
    if e1 == Extension::KhrXcbSurface && e2 == Extension::KhrAndroidSurface {
        assert(e1.spec_name().len() != e2.spec_name().len());
    }
    if e1 == Extension::KhrXcbSurface && e2 == Extension::KhrWin32Surface {
        assert(e1.spec_name().len() != e2.spec_name().len());
    }
    if e1 == Extension::KhrXcbSurface && e2 == Extension::ExtDebugUtils {
        assert(e1.spec_name()[3] != e2.spec_name()[3]);
    }
    if e1 == Extension::KhrXcbSurface && e2 == Extension::MkvIosSurface {
        assert(e1.spec_name()[3] != e2.spec_name()[3]);
    }
    if e1 == Extension::KhrXcbSurface && e2 == Extension::MkvMacosSurface {
        assert(e1.spec_name().len() != e2.spec_name().len());
    }
    if e1 == Extension::KhrXcbSurface && e2 == Extension::NnViSurface {
        assert(e1.spec_name().len() != e2.spec_name().len());
    }
    if e1 == Extension::KhrXcbSurface && e2 == Extension::ExtSwapchainColorspace {
        assert(e1.spec_name().len() != e2.spec_name().len());
    }
    if e1 == Extension::KhrXcbSurface && e2 == Extension::KhrGetPhysicalDeviceproperties2 {
        assert(e1.spec_name().len() != e2.spec_name().len());
    }
    if e1 == Extension::KhrXcbSurface && e2 == Extension::KhrGetSurfaceCapabilities2 {
        assert(e1.spec_name().len() != e2.spec_name().len());
    }
    if e1 == Extension::KhrWaylandSurface && e2 == Extension::KhrSurface {
        assert(e1.spec_name().len() != e2.spec_name().len());
    }
    if e1 == Extension::KhrWaylandSurface && e2 == Extension::KhrDisplay {
        assert(e1.spec_name().len() != e2.spec_name().len());
    }
    if e1 == Extension::KhrWaylandSurface && e2 == Extension::KhrXlibSurface {
        assert(e1.spec_name().len() != e2.spec_name().len());
    }
    if e1 == Extension::KhrWaylandSurface && e2 == Extension::KhrXcbSurface {
        assert(e1.spec_name().len() != e2.spec_name().len());
    }
    if e1 == Extension::KhrWaylandSurface && e2 == Extension::KhrAndroidSurface {
        assert(e1.spec_name()[7] != e2.spec_name()[7]);
    }
    if e1 == Extension::KhrWaylandSurface && e2 == Extension::KhrWin32Surface {
        assert(e1.spec_name().len() != e2.spec_name().len());
    }
    if e1 == Extension::KhrWaylandSurface && e2 == Extension::ExtDebugUtils {
        assert(e1.spec_name().len() != e2.spec_name().len());
    }
    if e1 == Extension::KhrWaylandSurface && e2 == Extension::MkvIosSurface {
        assert(e1.spec_name().len() != e2.spec_name().len());
    }
    if e1 == Extension::KhrWaylandSurface && e2 == Extension::MkvMacosSurface {
        assert(e1.spec_name().len() != e2.spec_name().len());
    }
    if e1 == Extension::KhrWaylandSurface && e2 == Extension::NnViSurface {
        assert(e1.spec_name().len() != e2.spec_name().len());
    }
    if e1 == Extension::KhrWaylandSurface && e2 == Extension::ExtSwapchainColorspace {
        assert(e1.spec_name().len() != e2.spec_name().len());
    }
    if e1 == Extension::KhrWaylandSurface && e2 == Extension::KhrGetPhysicalDeviceproperties2 {
        assert(e1.spec_name().len() != e2.spec_name().len());
    }
    if e1 == Extension::KhrWaylandSurface && e2 == Extension::KhrGetSurfaceCapabilities2 {
        assert(e1.spec_name().len() != e2.spec_name().len());
    }
    if e1 == Extension::KhrAndroidSurface && e2 == Extension::KhrSurface {
        assert(e1.spec_name().len() != e2.spec_name().len());
    }
    if e1 == Extension::KhrAndroidSurface && e2 == Extension::KhrDisplay {
        assert(e1.spec_name().len() != e2.spec_name().len());
    }
    if e1 == Extension::KhrAndroidSurface && e2 == Extension::KhrXlibSurface {
        assert(e1.spec_name().len() != e2.spec_name().len());
    }
    if e1 == Extension::KhrAndroidSurface && e2 == Extension::KhrXcbSurface {
        assert(e1.spec_name().len() != e2.spec_name().len());
    }
    if e1 == Extension::KhrAndroidSurface && e2 == Extension::KhrWaylandSurface {
        assert(e1.spec_name()[7] != e2.spec_name()[7]);
    }
    if e1 == Extension::KhrAndroidSurface && e2 == Extension::KhrWin32Surface {
        assert(e1.spec_name().len() != e2.spec_name().len());
    }
    if e1 == Extension::KhrAndroidSurface && e2 == Extension::ExtDebugUtils {
        assert(e1.spec_name().len() != e2.spec_name().len());
    }
    if e1 == Extension::KhrAndroidSurface && e2 == Extension::MkvIosSurface {
        assert(e1.spec_name().len() != e2.spec_name().len());
    }
    if e1 == Extension::KhrAndroidSurface && e2 == Extension::MkvMacosSurface {
        assert(e1.spec_name().len() != e2.spec_name().len());
    }
    if e1 == Extension::KhrAndroidSurface && e2 == Extension::NnViSurface {
        assert(e1.spec_name().len() != e2.spec_name().len());
    }
    if e1 == Extension::KhrAndroidSurface && e2 == Extension::ExtSwapchainColorspace {
        assert(e1.spec_name().len() != e2.spec_name().len());
    }
    if e1 == Extension::KhrAndroidSurface && e2 == Extension::KhrGetPhysicalDeviceproperties2 {
        assert(e1.spec_name().len() != e2.spec_name().len());
    }
    if e1 == Extension::KhrAndroidSurface && e2 == Extension::KhrGetSurfaceCapabilities2 {
        assert(e1.spec_name().len() != e2.spec_name().len());
    }
    if e1 == Extension::KhrWin32Surface && e2 == Extension::KhrSurface {
        assert(e1.spec_name().len() != e2.spec_name().len());
    }
    if e1 == Extension::KhrWin32Surface && e2 == Extension::KhrDisplay {
        assert(e1.spec_name().len() != e2.spec_name().len());
    }
    if e1 == Extension::KhrWin32Surface && e2 == Extension::KhrXlibSurface {
        assert(e1.spec_name().len() != e2.spec_name().len());
    }
    if e1 == Extension::KhrWin32Surface && e2 == Extension::KhrXcbSurface {
        assert(e1.spec_name().len() != e2.spec_name().len());
    }
    if e1 == Extension::KhrWin32Surface && e2 == Extension::KhrWaylandSurface {
        assert(e1.spec_name().len() != e2.spec_name().len());
    }
    if e1 == Extension::KhrWin32Surface && e2 == Extension::KhrAndroidSurface {
        assert(e1.spec_name().len() != e2.spec_name().len());
    }
    if e1 == Extension::KhrWin32Surface && e2 == Extension::ExtDebugUtils {
        assert(e1.spec_name().len() != e2.spec_name().len());
    }
    if e1 == Extension::KhrWin32Surface && e2 == Extension::MkvIosSurface {
        assert(e1.spec_name().len() != e2.spec_name().len());
    }
    if e1 == Extension::KhrWin32Surface && e2 == Extension::MkvMacosSurface {
        assert(e1.spec_name()[3] != e2.spec_name()[3]);
    }
    if e1 == Extension::KhrWin32Surface && e2 == Extension::NnViSurface {
        assert(e1.spec_name().len() != e2.spec_name().len());
    }
    if e1 == Extension::KhrWin32Surface && e2 == Extension::ExtSwapchainColorspace {
        assert(e1.spec_name().len() != e2.spec_name().len());
    }
    if e1 == Extension::KhrWin32Surface && e2 == Extension::KhrGetPhysicalDeviceproperties2 {
        assert(e1.spec_name().len() != e2.spec_name().len());
    }
    if e1 == Extension::KhrWin32Surface && e2 == Extension::KhrGetSurfaceCapabilities2 {
        assert(e1.spec_name().len() != e2.spec_name().len());
    }
    if e1 == Extension::ExtDebugUtils && e2 == Extension::KhrSurface {
        assert(e1.spec_name().len() != e2.spec_name().len());
    }
    if e1 == Extension::ExtDebugUtils && e2 == Extension::KhrDisplay {
        assert(e1.spec_name().len() != e2.spec_name().len());
    }
    if e1 == Extension::ExtDebugUtils && e2 == Extension::KhrXlibSurface {
        assert(e1.spec_name().len() != e2.spec_name().len());
    }
    if e1 == Extension::ExtDebugUtils && e2 == Extension::KhrXcbSurface {
        assert(e1.spec_name()[3] != e2.spec_name()[3]);
    }
    if e1 == Extension::ExtDebugUtils && e2 == Extension::KhrWaylandSurface {
        assert(e1.spec_name().len() != e2.spec_name().len());
    }
    if e1 == Extension::ExtDebugUtils && e2 == Extension::KhrAndroidSurface {
        assert(e1.spec_name().len() != e2.spec_name().len());
    }
    if e1 == Extension::ExtDebugUtils && e2 == Extension::KhrWin32Surface {
        assert(e1.spec_name().len() != e2.spec_name().len());
    }
    if e1 == Extension::ExtDebugUtils && e2 == Extension::MkvIosSurface {
        assert(e1.spec_name()[3] != e2.spec_name()[3]);
    }
    if e1 == Extension::ExtDebugUtils && e2 == Extension::MkvMacosSurface {
        assert(e1.spec_name().len() != e2.spec_name().len());
    }
    if e1 == Extension::ExtDebugUtils && e2 == Extension::NnViSurface {
        assert(e1.spec_name().len() != e2.spec_name().len());
    }
    if e1 == Extension::ExtDebugUtils && e2 == Extension::ExtSwapchainColorspace {
        assert(e1.spec_name().len() != e2.spec_name().len());
    }
    if e1 == Extension::ExtDebugUtils && e2 == Extension::KhrGetPhysicalDeviceproperties2 {
        assert(e1.spec_name().len() != e2.spec_name().len());
    }
    if e1 == Extension::ExtDebugUtils && e2 == Extension::KhrGetSurfaceCapabilities2 {
        assert(e1.spec_name().len() != e2.spec_name().len());
    }
    if e1 == Extension::MkvIosSurface && e2 == Extension::KhrSurface {
        assert(e1.spec_name().len() != e2.spec_name().len());
    }
    if e1 == Extension::MkvIosSurface && e2 == Extension::KhrDisplay {
        assert(e1.spec_name().len() != e2.spec_name().len());
    }
    if e1 == Extension::MkvIosSurface && e2 == Extension::KhrXlibSurface {
        assert(e1.spec_name().len() != e2.spec_name().len());
    }
    if e1 == Extension::MkvIosSurface && e2 == Extension::KhrXcbSurface {
        assert(e1.spec_name()[3] != e2.spec_name()[3]);
    }
    if e1 == Extension::MkvIosSurface && e2 == Extension::KhrWaylandSurface {
        assert(e1.spec_name().len() != e2.spec_name().len());
    }
    if e1 == Extension::MkvIosSurface && e2 == Extension::KhrAndroidSurface {
        assert(e1.spec_name().len() != e2.spec_name().len());
    }
    if e1 == Extension::MkvIosSurface && e2 == Extension::KhrWin32Surface {
        assert(e1.spec_name().len() != e2.spec_name().len());
    }
    if e1 == Extension::MkvIosSurface && e2 == Extension::ExtDebugUtils {
        assert(e1.spec_name()[3] != e2.spec_name()[3]);
    }
    if e1 == Extension::MkvIosSurface && e2 == Extension::MkvMacosSurface {
        assert(e1.spec_name().len() != e2.spec_name().len());
    }
    if e1 == Extension::MkvIosSurface && e2 == Extension::NnViSurface {
        assert(e1.spec_name().len() != e2.spec_name().len());
    }
    if e1 == Extension::MkvIosSurface && e2 == Extension::ExtSwapchainColorspace {
        assert(e1.spec_name().len() != e2.spec_name().len());
    }
    if e1 == Extension::MkvIosSurface && e2 == Extension::KhrGetPhysicalDeviceproperties2 {
        assert(e1.spec_name().len() != e2.spec_name().len());
    }
    if e1 == Extension::MkvIosSurface && e2 == Extension::KhrGetSurfaceCapabilities2 {
        assert(e1.spec_name().len() != e2.spec_name().len());
    }
    if e1 == Extension::MkvMacosSurface && e2 == Extension::KhrSurface {
        assert(e1.spec_name().len() != e2.spec_name().len());
    }
    if e1 == Extension::MkvMacosSurface && e2 == Extension::KhrDisplay {
        assert(e1.spec_name().len() != e2.spec_name().len());
    }
    if e1 == Extension::MkvMacosSurface && e2 == Extension::KhrXlibSurface {
        assert(e1.spec_name().len() != e2.spec_name().len());
    }
    if e1 == Extension::MkvMacosSurface && e2 == Extension::KhrXcbSurface {
        assert(e1.spec_name().len() != e2.spec_name().len());
    }
    if e1 == Extension::MkvMacosSurface && e2 == Extension::KhrWaylandSurface {
        assert(e1.spec_name().len() != e2.spec_name().len());
    }
    if e1 == Extension::MkvMacosSurface && e2 == Extension::KhrAndroidSurface {
        assert(e1.spec_name().len() != e2.spec_name().len());
    }
    if e1 == Extension::MkvMacosSurface && e2 == Extension::KhrWin32Surface {
        assert(e1.spec_name()[3] != e2.spec_name()[3]);
    }
    if e1 == Extension::MkvMacosSurface && e2 == Extension::ExtDebugUtils {
        assert(e1.spec_name().len() != e2.spec_name().len());
    }
    if e1 == Extension::MkvMacosSurface && e2 == Extension::MkvIosSurface {
        assert(e1.spec_name().len() != e2.spec_name().len());
    }
    if e1 == Extension::MkvMacosSurface && e2 == Extension::NnViSurface {
        assert(e1.spec_name().len() != e2.spec_name().len());
    }
    if e1 == Extension::MkvMacosSurface && e2 == Extension::ExtSwapchainColorspace {
        assert(e1.spec_name().len() != e2.spec_name().len());
    }
    if e1 == Extension::MkvMacosSurface && e2 == Extension::KhrGetPhysicalDeviceproperties2 {
        assert(e1.spec_name().len() != e2.spec_name().len());
    }
    if e1 == Extension::MkvMacosSurface && e2 == Extension::KhrGetSurfaceCapabilities2 {
        assert(e1.spec_name().len() != e2.spec_name().len());
    }
    if e1 == Extension::NnViSurface && e2 == Extension::KhrSurface {
        assert(e1.spec_name().len() != e2.spec_name().len());
    }
    if e1 == Extension::NnViSurface && e2 == Extension::KhrDisplay {
        assert(e1.spec_name().len() != e2.spec_name().len());
    }
    if e1 == Extension::NnViSurface && e2 == Extension::KhrXlibSurface {
        assert(e1.spec_name().len() != e2.spec_name().len());
    }
    if e1 == Extension::NnViSurface && e2 == Extension::KhrXcbSurface {
        assert(e1.spec_name().len() != e2.spec_name().len());
    }
    if e1 == Extension::NnViSurface && e2 == Extension::KhrWaylandSurface {
        assert(e1.spec_name().len() != e2.spec_name().len());
    }
    if e1 == Extension::NnViSurface && e2 == Extension::KhrAndroidSurface {
        assert(e1.spec_name().len() != e2.spec_name().len());
    }
    if e1 == Extension::NnViSurface && e2 == Extension::KhrWin32Surface {
        assert(e1.spec_name().len() != e2.spec_name().len());
    }
    if e1 == Extension::NnViSurface && e2 == Extension::ExtDebugUtils {
        assert(e1.spec_name().len() != e2.spec_name().len());
    }
    if e1 == Extension::NnViSurface && e2 == Extension::MkvIosSurface {
        assert(e1.spec_name().len() != e2.spec_name().len());
    }
    if e1 == Extension::NnViSurface && e2 == Extension::MkvMacosSurface {
        assert(e1.spec_name().len() != e2.spec_name().len());
    }
    if e1 == Extension::NnViSurface && e2 == Extension::ExtSwapchainColorspace {
        assert(e1.spec_name().len() != e2.spec_name().len());
    }
    if e1 == Extension::NnViSurface && e2 == Extension::KhrGetPhysicalDeviceproperties2 {
        assert(e1.spec_name().len() != e2.spec_name().len());
    }
    if e1 == Extension::NnViSurface && e2 == Extension::KhrGetSurfaceCapabilities2 {
        assert(e1.spec_name().len() != e2.spec_name().len());
    }
    if e1 == Extension::ExtSwapchainColorspace && e2 == Extension::KhrSurface {
        assert(e1.spec_name().len() != e2.spec_name().len());
    }
    if e1 == Extension::ExtSwapchainColorspace && e2 == Extension::KhrDisplay {
        assert(e1.spec_name().len() != e2.spec_name().len());
    }
    if e1 == Extension::ExtSwapchainColorspace && e2 == Extension::KhrXlibSurface {
        assert(e1.spec_name().len() != e2.spec_name().len());
    }
    if e1 == Extension::ExtSwapchainColorspace && e2 == Extension::KhrXcbSurface {
        assert(e1.spec_name().len() != e2.spec_name().len());
    }
    if e1 == Extension::ExtSwapchainColorspace && e2 == Extension::KhrWaylandSurface {
        assert(e1.spec_name().len() != e2.spec_name().len());
    }
    if e1 == Extension::ExtSwapchainColorspace && e2 == Extension::KhrAndroidSurface {
        assert(e1.spec_name().len() != e2.spec_name().len());
    }
    if e1 == Extension::ExtSwapchainColorspace && e2 == Extension::KhrWin32Surface {
        assert(e1.spec_name().len() != e2.spec_name().len());
    }
    if e1 == Extension::ExtSwapchainColorspace && e2 == Extension::ExtDebugUtils {
        assert(e1.spec_name().len() != e2.spec_name().len());
    }
    if e1 == Extension::ExtSwapchainColorspace && e2 == Extension::MkvIosSurface {
        assert(e1.spec_name().len() != e2.spec_name().len());
    }
    if e1 == Extension::ExtSwapchainColorspace && e2 == Extension::MkvMacosSurface {
        assert(e1.spec_name().len() != e2.spec_name().len());
    }
    if e1 == Extension::ExtSwapchainColorspace && e2 == Extension::NnViSurface {
        assert(e1.spec_name().len() != e2.spec_name().len());
    }
    if e1 == Extension::ExtSwapchainColorspace && e2 == Extension::KhrGetPhysicalDeviceproperties2 {
        assert(e1.spec_name().len() != e2.spec_name().len());
    }
    if e1 == Extension::ExtSwapchainColorspace && e2 == Extension::KhrGetSurfaceCapabilities2 {
        assert(e1.spec_name().len() != e2.spec_name().len());
    }
    if e1 == Extension::KhrGetPhysicalDeviceproperties2 && e2 == Extension::KhrSurface {
        assert(e1.spec_name().len() != e2.spec_name().len());
    }
    if e1 == Extension::KhrGetPhysicalDeviceproperties2 && e2 == Extension::KhrDisplay {
        assert(e1.spec_name().len() != e2.spec_name().len());
    }
    if e1 == Extension::KhrGetPhysicalDeviceproperties2 && e2 == Extension::KhrXlibSurface {
        assert(e1.spec_name().len() != e2.spec_name().len());
    }
    if e1 == Extension::KhrGetPhysicalDeviceproperties2 && e2 == Extension::KhrXcbSurface {
        assert(e1.spec_name().len() != e2.spec_name().len());
    }
    if e1 == Extension::KhrGetPhysicalDeviceproperties2 && e2 == Extension::KhrWaylandSurface {
        assert(e1.spec_name().len() != e2.spec_name().len());
    }
    if e1 == Extension::KhrGetPhysicalDeviceproperties2 && e2 == Extension::KhrAndroidSurface {
        assert(e1.spec_name().len() != e2.spec_name().len());
    }
    if e1 == Extension::KhrGetPhysicalDeviceproperties2 && e2 == Extension::KhrWin32Surface {
        assert(e1.spec_name().len() != e2.spec_name().len());
    }
    if e1 == Extension::KhrGetPhysicalDeviceproperties2 && e2 == Extension::ExtDebugUtils {
        assert(e1.spec_name().len() != e2.spec_name().len());
    }
    if e1 == Extension::KhrGetPhysicalDeviceproperties2 && e2 == Extension::MkvIosSurface {
        assert(e1.spec_name().len() != e2.spec_name().len());
    }
    if e1 == Extension::KhrGetPhysicalDeviceproperties2 && e2 == Extension::MkvMacosSurface {
        assert(e1.spec_name().len() != e2.spec_name().len());
    }
    if e1 == Extension::KhrGetPhysicalDeviceproperties2 && e2 == Extension::NnViSurface {
        assert(e1.spec_name().len() != e2.spec_name().len());
    }
    if e1 == Extension::KhrGetPhysicalDeviceproperties2 && e2 == Extension::ExtSwapchainColorspace {
        assert(e1.spec_name().len() != e2.spec_name().len());
    }
    if e1 == Extension::KhrGetPhysicalDeviceproperties2 && e2 == Extension::KhrGetSurfaceCapabilities2 {
        assert(e1.spec_name().len() != e2.spec_name().len());
    }
    if e1 == Extension::KhrGetSurfaceCapabilities2 && e2 == Extension::KhrSurface {
        assert(e1.spec_name().len() != e2.spec_name().len());
    }
    if e1 == Extension::KhrGetSurfaceCapabilities2 && e2 == Extension::KhrDisplay {
        assert(e1.spec_name().len() != e2.spec_name().len());
    }
    if e1 == Extension::KhrGetSurfaceCapabilities2 && e2 == Extension::KhrXlibSurface {
        assert(e1.spec_name().len() != e2.spec_name().len());
    }
    if e1 == Extension::KhrGetSurfaceCapabilities2 && e2 == Extension::KhrXcbSurface {
        assert(e1.spec_name().len() != e2.spec_name().len());
    }
    if e1 == Extension::KhrGetSurfaceCapabilities2 && e2 == Extension::KhrWaylandSurface {
        assert(e1.spec_name().len() != e2.spec_name().len());
    }
    if e1 == Extension::KhrGetSurfaceCapabilities2 && e2 == Extension::KhrAndroidSurface {
        assert(e1.spec_name().len() != e2.spec_name().len());
    }
    if e1 == Extension::KhrGetSurfaceCapabilities2 && e2 == Extension::KhrWin32Surface {
        assert(e1.spec_name().len() != e2.spec_name().len());
    }
    if e1 == Extension::KhrGetSurfaceCapabilities2 && e2 == Extension::ExtDebugUtils {
        assert(e1.spec_name().len() != e2.spec_name().len());
    }
    if e1 == Extension::KhrGetSurfaceCapabilities2 && e2 == Extension::MkvIosSurface {
        assert(e1.spec_name().len() != e2.spec_name().len());
    }
    if e1 == Extension::KhrGetSurfaceCapabilities2 && e2 == Extension::MkvMacosSurface {
        assert(e1.spec_name().len() != e2.spec_name().len());
    }
    if e1 == Extension::KhrGetSurfaceCapabilities2 && e2 == Extension::NnViSurface {
        assert(e1.spec_name().len() != e2.spec_name().len());
    }
    if e1 == Extension::KhrGetSurfaceCapabilities2 && e2 == Extension::ExtSwapchainColorspace {
        assert(e1.spec_name().len() != e2.spec_name().len());
    }
    if e1 == Extension::KhrGetSurfaceCapabilities2 && e2 == Extension::KhrGetPhysicalDeviceproperties2 {
        assert(e1.spec_name().len() != e2.spec_name().len());
    }
}

/// A set of instance extensions.
#[derive(Clone, Copy, Debug, PartialEq, Eq, Hash, Structural)]
pub struct Extensions {
    pub khr_surface: bool,
    pub khr_display: bool,
    pub khr_xlib_surface: bool,
    pub khr_xcb_surface: bool,
    pub khr_wayland_surface: bool,
    pub khr_android_surface: bool,
    pub khr_win32_surface: bool,
    pub ext_debug_utils: bool,
    pub mvk_ios_surface: bool,
    pub mvk_macos_surface: bool,
    pub nn_vi_surface: bool,
    pub ext_swapchain_colorspace: bool,
    pub khr_get_physical_device_properties2: bool,
    pub khr_get_surface_capabilities2: bool,
}

impl Extensions {
    /// True when the extension is in the set.
    pub open spec fn has(self, e: Extension) -> bool {
        match e {
            Extension::KhrSurface => self.khr_surface,
            Extension::KhrDisplay => self.khr_display,
            Extension::KhrXlibSurface => self.khr_xlib_surface,
            Extension::KhrXcbSurface => self.khr_xcb_surface,
            Extension::KhrWaylandSurface => self.khr_wayland_surface,
            Extension::KhrAndroidSurface => self.khr_android_surface,
            Extension::KhrWin32Surface => self.khr_win32_surface,
            Extension::ExtDebugUtils => self.ext_debug_utils,
            Extension::MkvIosSurface => self.mvk_ios_surface,
            Extension::MkvMacosSurface => self.mvk_macos_surface,
            Extension::NnViSurface => self.nn_vi_surface,
            Extension::ExtSwapchainColorspace => self.ext_swapchain_colorspace,
            Extension::KhrGetPhysicalDeviceproperties2 => self.khr_get_physical_device_properties2,
            Extension::KhrGetSurfaceCapabilities2 => self.khr_get_surface_capabilities2,
        }
    }

    /// The set with no extension.
    pub fn none() -> (s: Extensions)
        ensures
            forall|e: Extension| !s.has(e),
    {
        Extensions {
            khr_surface: false,
            khr_display: false,
            khr_xlib_surface: false,
            khr_xcb_surface: false,
            khr_wayland_surface: false,
            khr_android_surface: false,
            khr_win32_surface: false,
            ext_debug_utils: false,
            mvk_ios_surface: false,
            mvk_macos_surface: false,
            nn_vi_surface: false,
            ext_swapchain_colorspace: false,
            khr_get_physical_device_properties2: false,
            khr_get_surface_capabilities2: false,
        }
    }

    /// True when the extension is in the set.
    pub fn contains(&self, e: Extension) -> (b: bool)
        ensures
            b == self.has(e),
    {
        match e {
            Extension::KhrSurface => self.khr_surface,
            Extension::KhrDisplay => self.khr_display,
            Extension::KhrXlibSurface => self.khr_xlib_surface,
            Extension::KhrXcbSurface => self.khr_xcb_surface,
            Extension::KhrWaylandSurface => self.khr_wayland_surface,
            Extension::KhrAndroidSurface => self.khr_android_surface,
            Extension::KhrWin32Surface => self.khr_win32_surface,
            Extension::ExtDebugUtils => self.ext_debug_utils,
            Extension::MkvIosSurface => self.mvk_ios_surface,
            Extension::MkvMacosSurface => self.mvk_macos_surface,
            Extension::NnViSurface => self.nn_vi_surface,
            Extension::ExtSwapchainColorspace => self.ext_swapchain_colorspace,
            Extension::KhrGetPhysicalDeviceproperties2 => self.khr_get_physical_device_properties2,
            Extension::KhrGetSurfaceCapabilities2 => self.khr_get_surface_capabilities2,
        }
    }

    /// The set with the extension added.
    pub open spec fn spec_insert(self, e: Extension) -> Extensions {
        match e {
            Extension::KhrSurface => Extensions { khr_surface: true, ..self },
            Extension::KhrDisplay => Extensions { khr_display: true, ..self },
            Extension::KhrXlibSurface => Extensions { khr_xlib_surface: true, ..self },
            Extension::KhrXcbSurface => Extensions { khr_xcb_surface: true, ..self },
            Extension::KhrWaylandSurface => Extensions { khr_wayland_surface: true, ..self },
            Extension::KhrAndroidSurface => Extensions { khr_android_surface: true, ..self },
            Extension::KhrWin32Surface => Extensions { khr_win32_surface: true, ..self },
            Extension::ExtDebugUtils => Extensions { ext_debug_utils: true, ..self },
            Extension::MkvIosSurface => Extensions { mvk_ios_surface: true, ..self },
            Extension::MkvMacosSurface => Extensions { mvk_macos_surface: true, ..self },
            Extension::NnViSurface => Extensions { nn_vi_surface: true, ..self },
            Extension::ExtSwapchainColorspace => Extensions { ext_swapchain_colorspace: true, ..self },
            Extension::KhrGetPhysicalDeviceproperties2 => Extensions { khr_get_physical_device_properties2: true, ..self },
            Extension::KhrGetSurfaceCapabilities2 => Extensions { khr_get_surface_capabilities2: true, ..self },
        }
    }

    /// Adds the extension to the set.
    pub fn insert(&mut self, e: Extension)
        ensures
            *final(self) == old(self).spec_insert(e),
            forall|x: Extension| #[trigger] final(self).has(x) == (old(self).has(x) || x == e),
    {
        proof {
            lemma_insert_has(*self, e);
        }
        *self = match e {
            Extension::KhrSurface => Extensions { khr_surface: true, ..*self },
            Extension::KhrDisplay => Extensions { khr_display: true, ..*self },
            Extension::KhrXlibSurface => Extensions { khr_xlib_surface: true, ..*self },
            Extension::KhrXcbSurface => Extensions { khr_xcb_surface: true, ..*self },
            Extension::KhrWaylandSurface => Extensions { khr_wayland_surface: true, ..*self },
            Extension::KhrAndroidSurface => Extensions { khr_android_surface: true, ..*self },
            Extension::KhrWin32Surface => Extensions { khr_win32_surface: true, ..*self },
            Extension::ExtDebugUtils => Extensions { ext_debug_utils: true, ..*self },
            Extension::MkvIosSurface => Extensions { mvk_ios_surface: true, ..*self },
            Extension::MkvMacosSurface => Extensions { mvk_macos_surface: true, ..*self },
            Extension::NnViSurface => Extensions { nn_vi_surface: true, ..*self },
            Extension::ExtSwapchainColorspace => Extensions { ext_swapchain_colorspace: true, ..*self },
            Extension::KhrGetPhysicalDeviceproperties2 => Extensions { khr_get_physical_device_properties2: true, ..*self },
            Extension::KhrGetSurfaceCapabilities2 => Extensions { khr_get_surface_capabilities2: true, ..*self },
        };
    }
}

/// After an insertion the set holds the inserted extension and those it held before.
pub proof fn lemma_insert_has(s: Extensions, e: Extension)
    ensures
        forall|x: Extension| #[trigger] s.spec_insert(e).has(x) == (s.has(x) || x == e),
{
}

} // verus!
