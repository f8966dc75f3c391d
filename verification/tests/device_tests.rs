use ash::vk;
use magma::device::memory::{mapping_size, MapError, WHOLE_SIZE};
use magma::device::queue::{present_outcome, PresentError, SubmitError};
use magma::device::{
    check_extension, load_extensions, plan_queues, queue_create_counts, AllocationError, CreationError, Extension,
    Extensions, MissingExtensionError,
};
use magma::instance::physical_device::MemoryType;
use magma::OomError;

#[test]
fn device_extension_names_match_vulkan() {
    assert_eq!(Extension::KhrSwapchain.name(), ash::extensions::khr::Swapchain::name().to_str().unwrap());
    assert_eq!(Extension::KhrSwapchain.name(), "VK_KHR_swapchain");
    assert_eq!(Extension::Khr16bitsStorage.name(), "VK_KHR_16bit_storage");
    assert_eq!(Extension::from_name("VK_KHR_multiview"), Some(Extension::KhrMultiview));
    assert_eq!(Extension::from_name("VK_KHR_multiview2"), None);
    assert_eq!(Extension::from_name(""), None);
}

#[test]
fn device_extension_name_round_trip() {
    let all = [
        Extension::KhrSwapchain,
        Extension::KhrDisplaySwapchain,
        Extension::KhrSamplerMirrorClampToEdge,
        Extension::KhrMaintenance1,
        Extension::KhrGetMemoryRequirements2,
        Extension::KhrDedicatedAllocation,
        Extension::KhrIncrementalPresent,
        Extension::Khr16bitsStorage,
        Extension::KhrStorageBufferStorageClass,
        Extension::ExtDebugUtils,
        Extension::KhrMultiview,
        Extension::ExtFullScreenExclusive,
    ];
    for e in all {
        assert_eq!(Extension::from_name(e.name()), Some(e));
    }
}

#[test]
fn device_extension_set() {
    let mut s = Extensions::none();
    assert!(!s.contains(Extension::KhrSwapchain));
    s.insert(Extension::KhrSwapchain);
    assert!(s.contains(Extension::KhrSwapchain));
    assert!(s.khr_swapchain);
    assert!(!s.contains(Extension::KhrMultiview));
    assert_eq!(check_extension(&s, Extension::KhrSwapchain), Ok(()));
    assert_eq!(
        check_extension(&s, Extension::KhrMultiview),
        Err(MissingExtensionError(Extension::KhrMultiview))
    );
}

#[test]
fn device_load_extensions() {
    let loaded = load_extensions(&vec![Extension::KhrSwapchain, Extension::ExtDebugUtils, Extension::KhrSwapchain]);
    assert!(loaded.khr_swapchain && loaded.ext_debug_utils);
    assert!(!loaded.khr_maintenance1);
    assert_eq!(load_extensions(&Vec::new()), Extensions::none());
}

#[test]
fn queue_plan_groups_by_family() {
    let requests = vec![(1u32, 0.5f32), (0, 1.0), (1, 0.25), (3, 0.0), (1, 0.75)];
    let plan = plan_queues(&requests);
    assert_eq!(plan.priorities.len(), 4);
    assert_eq!(plan.priorities[0], vec![1.0]);
    assert_eq!(plan.priorities[1], vec![0.5, 0.25, 0.75]);
    assert!(plan.priorities[2].is_empty());
    assert_eq!(plan.priorities[3], vec![0.0]);
    assert_eq!(plan.queues, vec![(1, 0), (0, 0), (1, 1), (3, 0), (1, 2)]);
    for (i, &(family, index)) in plan.queues.iter().enumerate() {
        assert_eq!(plan.priorities[family as usize][index as usize], requests[i].1);
    }
    let counts = queue_create_counts(&plan.priorities);
    assert_eq!(counts, vec![(0, 1), (1, 3), (3, 1)]);
}

#[test]
fn queue_plan_empty() {
    let requests: Vec<(u32, f32)> = Vec::new();
    let plan = plan_queues(&requests);
    assert!(plan.priorities.is_empty());
    assert!(plan.queues.is_empty());
    assert!(queue_create_counts(&plan.priorities).is_empty());
}

#[test]
fn mapping_requires_host_visible_memory() {
    let visible = MemoryType::new(2, (vk::MemoryPropertyFlags::HOST_VISIBLE | vk::MemoryPropertyFlags::HOST_COHERENT).as_raw());
    assert_eq!(mapping_size(&visible, Some(64)), Ok(64));
    assert_eq!(mapping_size(&visible, None), Ok(WHOLE_SIZE));
    assert_eq!(WHOLE_SIZE, vk::WHOLE_SIZE);
    let local = MemoryType::new(0, vk::MemoryPropertyFlags::DEVICE_LOCAL.as_raw());
    assert_eq!(mapping_size(&local, Some(64)), Err(MapError::NotHostVisible));
    assert_eq!(mapping_size(&local, None), Err(MapError::NotHostVisible));
}

#[test]
fn present_outcomes() {
    assert_eq!(present_outcome(Ok(true), 0), Some(Ok(true)));
    assert_eq!(present_outcome(Ok(false), 0), Some(Ok(false)));
    assert_eq!(
        present_outcome(Ok(false), vk::Result::ERROR_DEVICE_LOST.as_raw()),
        Some(Err(PresentError::DeviceLost))
    );
    assert_eq!(
        present_outcome(Err(vk::Result::ERROR_OUT_OF_HOST_MEMORY.as_raw()), 0),
        Some(Err(PresentError::OutOfMemory(OomError::Host)))
    );
    assert_eq!(present_outcome(Err(vk::Result::ERROR_SURFACE_LOST_KHR.as_raw()), 0), None);
    let e: PresentError = MissingExtensionError(Extension::KhrSwapchain).into();
    assert_eq!(e, PresentError::MissingDeviceExtension(MissingExtensionError(Extension::KhrSwapchain)));
}

#[test]
fn device_errors_from_codes() {
    assert_eq!(CreationError::from_vk_result(-3), Some(CreationError::InitializationFailed));
    assert_eq!(CreationError::from_vk_result(-10), Some(CreationError::TooManyObjets));
    assert_eq!(CreationError::from_vk_result(-4), Some(CreationError::DeviceLost));
    assert_eq!(CreationError::from_vk_result(vk::Result::ERROR_EXTENSION_NOT_PRESENT.as_raw()), None);
    assert_eq!(CreationError::from_vk_result(vk::Result::ERROR_FEATURE_NOT_PRESENT.as_raw()), None);
    assert_eq!(
        AllocationError::from_vk_result(vk::Result::ERROR_INVALID_EXTERNAL_HANDLE.as_raw()),
        Some(AllocationError::InvalidExternalHandle)
    );
    assert_eq!(
        AllocationError::from_vk_result(vk::Result::ERROR_INVALID_OPAQUE_CAPTURE_ADDRESS.as_raw()),
        Some(AllocationError::InvalidOpaqueCaptureAddress)
    );
    assert_eq!(SubmitError::from_vk_result(-4), Some(SubmitError::DeviceLost));
    assert_eq!(SubmitError::from_vk_result(-2), Some(SubmitError::OutOfMemory(OomError::Device)));
    assert_eq!(SubmitError::from_vk_result(-5), None);
    assert_eq!(MapError::from_vk_result(vk::Result::ERROR_MEMORY_MAP_FAILED.as_raw()), Some(MapError::MemoryMapFailed));
}

#[test]
fn queues_are_handed_out_in_request_order() {
    let requests: Vec<(u32, u8)> = vec![(1, 10), (0, 20), (1, 30), (1, 40), (0, 50)];
    let plan = magma::device::plan_queues(&requests);
    let mut queues = magma::device::Queues::new(plan.queues);
    assert_eq!(queues.next(), Some((1, 0)));
    assert_eq!(queues.next(), Some((0, 0)));
    assert_eq!(queues.next(), Some((1, 1)));
    assert_eq!(queues.next(), Some((1, 2)));
    assert_eq!(queues.next(), Some((0, 1)));
    assert_eq!(queues.next(), None);
    assert_eq!(queues.next(), None);
}
