use ruffle_libretro::negotiation::{
    device_answer, has_nv_optimus, instance_answer, make_api_version, plan_device, required_instance_extensions,
    select_physical_device, select_queue_families, select_queue_family, ApplicationInfo, NegotiationPhase,
    NegotiationState, PhysicalDeviceInfo, QueueFamilies, QueueFamily, QueueFamilyProperties, Queues, VulkanCall,
    VulkanContext, VulkanNegotiationError,
};

fn fam(flags: u32) -> QueueFamilyProperties {
    QueueFamilyProperties { queue_flags: flags, queue_count: 1 }
}

fn qf(flags: u32, index: u32) -> QueueFamily {
    QueueFamily { properties: fam(flags), index }
}

#[test]
fn single_family_with_present() {
    let families = vec![fam(0x4), fam(0x7), fam(0x1)];
    let support = vec![Ok(false), Ok(true), Ok(false)];
    assert_eq!(select_queue_families(&families, &support), Ok(QueueFamilies::Single(qf(0x7, 1))));
}

#[test]
fn split_families() {
    let families = vec![fam(0x3), fam(0x4)];
    let support = vec![Ok(false), Ok(true)];
    assert_eq!(
        select_queue_families(&families, &support),
        Ok(QueueFamilies::Split { graphics_compute: qf(0x3, 0), present: qf(0x4, 1) })
    );
}

#[test]
fn graphics_compute_only_without_surface() {
    let families = vec![fam(0x1), fam(0x2), fam(0x3), fam(0x7)];
    assert_eq!(select_queue_family(&families), Ok(qf(0x3, 2)));
}

#[test]
fn no_graphics_compute_family() {
    let families = vec![fam(0x1), fam(0x2), fam(0x4)];
    assert_eq!(select_queue_family(&families), Err(VulkanNegotiationError::NoAcceptableQueueFamily));
    let support = vec![Ok(true), Ok(true), Ok(true)];
    assert_eq!(select_queue_families(&families, &support), Err(VulkanNegotiationError::NoAcceptableQueueFamily));
}

#[test]
fn no_family_presents() {
    let families = vec![fam(0x3), fam(0x4)];
    let support = vec![Ok(false), Ok(false)];
    assert_eq!(select_queue_families(&families, &support), Err(VulkanNegotiationError::NoAcceptableQueueFamily));
}

#[test]
fn surface_query_failure_is_reported() {
    let families = vec![fam(0x3), fam(0x3)];
    let support = vec![Err(-3), Ok(true)];
    assert_eq!(
        select_queue_families(&families, &support),
        Err(VulkanNegotiationError::VulkanError(VulkanCall::GetPhysicalDeviceSurfaceSupport, -3))
    );
}

#[test]
fn queue_family_indices_and_create_families() {
    let split = QueueFamilies::Split { graphics_compute: qf(0x3, 0), present: qf(0x4, 2) };
    assert_eq!(split.queue_family_index(), 0);
    assert_eq!(split.presentation_queue_family_index(), 2);
    assert_eq!(split.queue_create_families(), vec![0, 2]);
    let only = QueueFamilies::GraphicsComputeOnly(qf(0x3, 5));
    assert_eq!(only.presentation_queue_family_index(), 0);
    assert_eq!(only.queue_create_families(), vec![5]);
    let single = QueueFamilies::Single(qf(0x7, 1));
    assert_eq!(single.presentation_queue_family_index(), 1);
    assert_eq!(single.queue_create_families(), vec![1]);
}

fn device(handle: u64, flags: &[u32], support: &[Result<bool, i32>]) -> PhysicalDeviceInfo {
    PhysicalDeviceInfo {
        handle,
        queue_families: flags.iter().map(|f| fam(*f)).collect(),
        surface_support: support.to_vec(),
    }
}

#[test]
fn physical_device_selection() {
    assert_eq!(select_physical_device(&vec![]), Err(VulkanNegotiationError::NoPhysicalDevicesFound));
    let devices = vec![device(10, &[0x4], &[]), device(20, &[0x1, 0x3], &[]), device(30, &[0x3], &[])];
    assert_eq!(select_physical_device(&devices), Ok(1));
    let none = vec![device(10, &[0x4], &[]), device(20, &[0x1], &[])];
    assert_eq!(select_physical_device(&none), Err(VulkanNegotiationError::NoAcceptablePhysicalDevice));
}

#[test]
fn plan_uses_host_device() {
    let host = device(77, &[0x4, 0x3], &[Ok(true), Ok(false)]);
    let plan = plan_device(Some(host), &vec![], true).unwrap();
    assert_eq!(plan.gpu, 77);
    assert_eq!(plan.families, QueueFamilies::Split { graphics_compute: qf(0x3, 1), present: qf(0x4, 0) });
    assert_eq!(plan.queue_create_families, vec![1, 0]);
}

#[test]
fn plan_picks_first_acceptable_device() {
    let devices = vec![device(1, &[0x2], &[]), device(2, &[0x3], &[])];
    let plan = plan_device(None, &devices, false).unwrap();
    assert_eq!(plan.gpu, 2);
    assert_eq!(plan.families, QueueFamilies::GraphicsComputeOnly(qf(0x3, 0)));
    assert_eq!(plan.queue_create_families, vec![0]);
}

#[test]
fn plan_without_devices_fails() {
    assert_eq!(plan_device(None, &vec![], false).unwrap_err(), VulkanNegotiationError::NoPhysicalDevicesFound);
}

#[test]
fn queues_and_context() {
    let families = QueueFamilies::GraphicsComputeOnly(qf(0x3, 4));
    let queues = Queues::new(&families, 900, 901);
    assert_eq!(queues.queue(), 900);
    assert_eq!(queues.presentation_queue(), 0);
    let ctx = VulkanContext::negotiated(5, 6, &families, &queues);
    assert_eq!(
        ctx,
        VulkanContext {
            gpu: 5,
            device: 6,
            queue: 900,
            queue_family_index: 4,
            presentation_queue: 0,
            presentation_queue_family_index: 0
        }
    );
    let single = QueueFamilies::Single(qf(0x7, 2));
    let queues = Queues::new(&single, 800, 801);
    assert_eq!(queues.presentation_queue(), 800);
    let split = QueueFamilies::Split { graphics_compute: qf(0x3, 0), present: qf(0x4, 1) };
    let queues = Queues::new(&split, 700, 701);
    assert_eq!((queues.queue(), queues.presentation_queue()), (700, 701));
}

#[test]
fn api_version_packing() {
    assert_eq!(make_api_version(0, 1, 3, 0), 4206592);
    assert_eq!(make_api_version(0, 1, 3, 0), ash::vk::API_VERSION_1_3);
    assert_eq!(make_api_version(0, 2, 5, 7), ash::vk::make_api_version(0, 2, 5, 7));
    let info = ApplicationInfo::for_version(1, 2, 3);
    assert_eq!(info.application_name, "ruffle_libretro");
    assert_eq!(info.application_version, ash::vk::make_api_version(0, 1, 2, 3));
    assert_eq!(info.api_version, ash::vk::API_VERSION_1_3);
}

#[test]
fn instance_extensions() {
    assert_eq!(required_instance_extensions(false), vec!["VK_KHR_surface", "VK_KHR_get_physical_device_properties2"]);
    assert_eq!(
        required_instance_extensions(true),
        vec!["VK_KHR_surface", "VK_KHR_get_physical_device_properties2", "VK_EXT_debug_utils"]
    );
    assert_eq!(ash::extensions::khr::Surface::name().to_str().unwrap(), "VK_KHR_surface");
    assert_eq!(ash::extensions::ext::DebugUtils::name().to_str().unwrap(), "VK_EXT_debug_utils");
}

#[test]
fn nv_optimus_detection_is_exact() {
    let layers = vec!["VK_LAYER_KHRONOS_validation".to_string(), "VK_LAYER_NV_optimus".to_string()];
    assert!(has_nv_optimus(&layers));
    let near = vec!["VK_LAYER_NV_optimus2".to_string(), "vk_layer_nv_optimus".to_string()];
    assert!(!has_nv_optimus(&near));
    assert!(!has_nv_optimus(&vec![]));
}

#[test]
fn negotiation_session() {
    assert_eq!(
        NegotiationState::check_instance_request(false, true),
        Err(VulkanNegotiationError::NullCreateInstanceWrapper)
    );
    assert_eq!(
        NegotiationState::check_instance_request(true, false),
        Err(VulkanNegotiationError::NullGetInstanceProcAddr)
    );
    assert_eq!(NegotiationState::check_instance_request(true, true), Ok(()));

    let mut s = NegotiationState::new();
    assert_eq!(s.check_device_request(true, true, true), Err(VulkanNegotiationError::InstanceNotCreated));
    assert_eq!(s.instance_created(42), Ok(42));
    assert_eq!(s.phase, NegotiationPhase::InstanceCreated);
    assert_eq!(s.check_device_request(true, false, true), Err(VulkanNegotiationError::NullGetInstanceProcAddr));
    assert_eq!(s.check_device_request(true, true, false), Err(VulkanNegotiationError::NullCreateDeviceWrapper));
    assert_eq!(s.check_device_request(true, true, true), Ok(42));
    assert_eq!(s.check_device_request(false, true, true), Err(VulkanNegotiationError::NullContextSlot));
    assert_eq!(s.check_device_request(false, false, false), Err(VulkanNegotiationError::NullContextSlot));
    let ctx = VulkanContext {
        gpu: 1,
        device: 2,
        queue: 3,
        queue_family_index: 0,
        presentation_queue: 3,
        presentation_queue_family_index: 0,
    };
    s.device_created(ctx);
    assert_eq!(s.phase, NegotiationPhase::Ready);
    assert_eq!(s.context, Some(ctx));
    s.destroy_device();
    assert_eq!(s.phase, NegotiationPhase::Idle);

    let mut f = NegotiationState::new();
    assert_eq!(f.instance_created(0), Err(VulkanNegotiationError::NullInstance));
    assert_eq!(f.phase, NegotiationPhase::Failed);
}

#[test]
fn answers_to_the_host() {
    assert_eq!(instance_answer(Ok(9)), 9);
    assert_eq!(instance_answer(Err(VulkanNegotiationError::NullInstance)), 0);
    let ctx = VulkanContext {
        gpu: 1,
        device: 2,
        queue: 3,
        queue_family_index: 0,
        presentation_queue: 3,
        presentation_queue_family_index: 0,
    };
    assert_eq!(device_answer(true, Ok(ctx)), Some(ctx));
    assert_eq!(device_answer(false, Ok(ctx)), None);
    assert_eq!(device_answer(true, Err(VulkanNegotiationError::NoAcceptableQueueFamily)), None);
}
