use ash::vk;
use magma::buffer::MemoryRequirements;
use magma::instance::physical_device::{Limits, MemoryType, PhysicalDevice, QueueFamily};
use magma::instance::{
    check_extension, extensions_from_names, load_extensions, CreationError, Extension, Extensions,
    MissingExtensionError, ValidationLayer,
};
use magma::OomError;

fn limits() -> Limits {
    Limits {
        min_texel_buffer_offset_alignment: 16,
        min_uniform_buffer_offset_alignment: 64,
        min_storage_buffer_offset_alignment: 32,
    }
}

#[test]
fn instance_extension_names_match_vulkan() {
    assert_eq!(Extension::KhrSurface.name(), ash::extensions::khr::Surface::name().to_str().unwrap());
    assert_eq!(
        Extension::KhrWaylandSurface.name(),
        ash::extensions::khr::WaylandSurface::name().to_str().unwrap()
    );
    assert_eq!(Extension::from_name("VK_KHR_display"), Some(Extension::KhrDisplay));
    assert_eq!(Extension::from_name("VK_KHR_displays"), None);
    assert_eq!(ValidationLayer::KhronosValidation.name(), "VK_LAYER_KHRONOS_validation");
    assert_eq!(ValidationLayer::from_name("VK_LAYER_KHRONOS_validation"), Some(ValidationLayer::KhronosValidation));
    assert_eq!(ValidationLayer::from_name("VK_LAYER_LUNARG_standard_validation"), None);
}

#[test]
fn instance_extensions_from_names() {
    let names = vec!["VK_KHR_surface", "VK_FOO_unknown", "VK_EXT_debug_utils", "VK_KHR_surface", "bar"];
    let (exts, unknown) = extensions_from_names(&names);
    assert!(exts.khr_surface && exts.ext_debug_utils);
    assert!(!exts.khr_display);
    assert_eq!(unknown, vec![1, 4]);
    let (none, unknown) = extensions_from_names(&Vec::new());
    assert_eq!(none, Extensions::none());
    assert!(unknown.is_empty());
}

#[test]
fn instance_load_extensions() {
    let mut available = Extensions::none();
    available.insert(Extension::KhrSurface);
    available.insert(Extension::KhrXcbSurface);
    let loaded = load_extensions(&available, &vec![Extension::KhrXcbSurface]).unwrap();
    assert!(loaded.khr_xcb_surface && !loaded.khr_surface);
    let err = load_extensions(
        &available,
        &vec![Extension::KhrSurface, Extension::KhrWin32Surface, Extension::KhrDisplay],
    );
    assert_eq!(err, Err(CreationError::MissingExtension(Extension::KhrWin32Surface)));
    assert_eq!(check_extension(&available, Extension::KhrSurface), Ok(()));
    assert_eq!(
        check_extension(&available, Extension::KhrWaylandSurface),
        Err(MissingExtensionError(Extension::KhrWaylandSurface))
    );
}

#[test]
fn instance_errors_from_codes() {
    assert_eq!(CreationError::from_vk_result(-1), Some(CreationError::OutOfMemory(OomError::Host)));
    assert_eq!(CreationError::from_vk_result(-3), Some(CreationError::InitializationFailed));
    assert_eq!(
        CreationError::from_vk_result(vk::Result::ERROR_INCOMPATIBLE_DRIVER.as_raw()),
        Some(CreationError::IncompatibleDriver)
    );
    assert_eq!(CreationError::from_vk_result(vk::Result::ERROR_LAYER_NOT_PRESENT.as_raw()), None);
}

#[test]
fn memory_types() {
    let pd = PhysicalDevice::new(
        0,
        vec![
            vk::MemoryPropertyFlags::DEVICE_LOCAL.as_raw(),
            (vk::MemoryPropertyFlags::HOST_VISIBLE | vk::MemoryPropertyFlags::HOST_CACHED).as_raw(),
            vk::MemoryPropertyFlags::LAZILY_ALLOCATED.as_raw(),
        ],
        vec![],
        limits(),
    );
    assert_eq!(pd.memory_type_count(), 3);
    assert!(pd.memory_type(3).is_none());
    let t = pd.memory_type(1).unwrap();
    assert_eq!(t.index(), 1);
    assert!(t.is_host_visible() && t.is_host_cached());
    assert!(!t.is_device_local() && !t.is_host_coherent() && !t.is_lazily_allocated());
    let all = pd.memory_types();
    assert_eq!(all.len(), 3);
    assert!(all[0].is_device_local());
    assert!(all[2].is_lazily_allocated());
    let reqs = MemoryRequirements::new(256, 16, 0b101);
    assert!(all[0].satisfies(&reqs));
    assert!(!all[1].satisfies(&reqs));
    assert!(all[2].satisfies(&reqs));
    assert_eq!(pd.limits(), limits());
}

#[test]
fn queue_families() {
    let graphics = (vk::QueueFlags::GRAPHICS | vk::QueueFlags::COMPUTE | vk::QueueFlags::TRANSFER).as_raw();
    let transfer = (vk::QueueFlags::TRANSFER | vk::QueueFlags::SPARSE_BINDING).as_raw();
    let pd = PhysicalDevice::new(7, vec![], vec![(graphics, 16), (transfer, 2)], limits());
    assert_eq!(pd.index(), 7);
    let q = pd.queue_family(0).unwrap();
    assert!(q.supports_graphics() && q.supports_compute() && q.supports_transfer() && !q.supports_sparse_binding());
    assert_eq!(q.queue_count(), 16);
    let t = pd.queue_family(1).unwrap();
    assert_eq!(t.index(), 1);
    assert!(!t.supports_graphics() && t.supports_sparse_binding());
    assert!(pd.queue_family(2).is_none());
    let fams = pd.queue_families();
    assert_eq!(fams, vec![QueueFamily::new(0, graphics, 16, 7), QueueFamily::new(1, transfer, 2, 7)]);
    assert_eq!(t.physical_device_index(), 7);
}
