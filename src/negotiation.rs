//! Vulkan context negotiation: the choices the core makes when the host lets it
//! create the instance and the device.
use vstd::prelude::*;

verus! {

/// `VK_QUEUE_GRAPHICS_BIT`.
pub const QUEUE_GRAPHICS_BIT: u32 = 1;
/// `VK_QUEUE_COMPUTE_BIT`.
pub const QUEUE_COMPUTE_BIT: u32 = 2;
/// The queue flags that the renderer needs on one family.
pub const QUEUE_GRAPHICS_COMPUTE: u32 = 3;

/// Whether queue flags include both graphics and compute.
pub open spec fn graphics_compute(flags: u32) -> bool {
    flags & QUEUE_GRAPHICS_COMPUTE == QUEUE_GRAPHICS_COMPUTE
}

/// The Vulkan calls whose failures the negotiation reports.
#[derive(Clone, Copy, Debug, PartialEq, Eq, Structural)]
pub enum VulkanCall {
    EnumerateInstanceVersion,
    EnumerateInstanceLayerProperties,
    EnumeratePhysicalDevices,
    GetPhysicalDeviceSurfaceSupport,
    CreateImageView,
}

/// Failures of the negotiation.
#[derive(Clone, Copy, Debug, PartialEq, Eq, Structural)]
pub enum VulkanNegotiationError {
    /// A Vulkan call failed with this `VkResult`.
    VulkanError(VulkanCall, i32),
    NoPhysicalDevicesFound,
    NoAcceptablePhysicalDevice,
    NoAcceptableQueueFamily,
    CannotExposePhysicalDevice,
    /// The host gave no `create_instance_wrapper`.
    NullCreateInstanceWrapper,
    /// The host gave no `create_device_wrapper`.
    NullCreateDeviceWrapper,
    /// The host gave no `get_instance_proc_addr`.
    NullGetInstanceProcAddr,
    /// The host's instance wrapper returned `VK_NULL_HANDLE`.
    NullInstance,
    /// The host asked for a device before an instance was created.
    InstanceNotCreated,
    /// The host gave `create_device2` no slot for the negotiated context.
    NullContextSlot,
}

/// What the negotiation reads of a `VkQueueFamilyProperties`.
#[derive(Clone, Copy, Debug, PartialEq, Eq, Structural)]
pub struct QueueFamilyProperties {
    pub queue_flags: u32,
    pub queue_count: u32,
}

/// A queue family with its index on the device.
#[derive(Clone, Copy, Debug, PartialEq, Eq, Structural)]
pub struct QueueFamily {
    pub properties: QueueFamilyProperties,
    pub index: u32,
}

/// The queue families chosen on a device.
#[derive(Clone, Copy, Debug, PartialEq, Eq, Structural)]
pub enum QueueFamilies {
    /// One family serves graphics, compute and presentation.
    Single(QueueFamily),
    /// One family serves graphics and compute, another presents.
    Split { graphics_compute: QueueFamily, present: QueueFamily },
    /// No surface to present to: one family serves graphics and compute.
    GraphicsComputeOnly(QueueFamily),
}

/// The family at an index of a list.
pub open spec fn family_at(families: Seq<QueueFamilyProperties>, i: int) -> QueueFamily {
    QueueFamily { properties: families[i], index: i as u32 }
}

/// Family `i` supports graphics and compute.
pub open spec fn gc_at(families: Seq<QueueFamilyProperties>, i: int) -> bool {
    graphics_compute(families[i].queue_flags)
}

/// Family `i` supports graphics and compute, and the surface query on it did
/// not answer "no" (it answered "yes" or failed).
pub open spec fn single_at(
    families: Seq<QueueFamilyProperties>,
    support: Seq<Result<bool, i32>>,
    i: int,
) -> bool {
    gc_at(families, i) && support[i] != Ok::<bool, i32>(false)
}

/// The surface query on family `i` did not answer "no".
pub open spec fn present_at(support: Seq<Result<bool, i32>>, i: int) -> bool {
    support[i] != Ok::<bool, i32>(false)
}

pub open spec fn is_first_gc(families: Seq<QueueFamilyProperties>, i: int) -> bool {
    0 <= i < families.len() && gc_at(families, i) && forall|j: int| 0 <= j < i ==> !gc_at(families, j)
}

pub open spec fn is_first_single(
    families: Seq<QueueFamilyProperties>,
    support: Seq<Result<bool, i32>>,
    i: int,
) -> bool {
    0 <= i < families.len() && single_at(families, support, i) && forall|j: int|
        0 <= j < i ==> !single_at(families, support, j)
}

pub open spec fn is_first_present(support: Seq<Result<bool, i32>>, i: int) -> bool {
    0 <= i < support.len() && present_at(support, i) && forall|j: int| 0 <= j < i ==> !present_at(support, j)
}

/// The first family that supports graphics and compute.
pub open spec fn first_gc(families: Seq<QueueFamilyProperties>) -> Option<int> {
    if exists|i: int| is_first_gc(families, i) {
        Some(choose|i: int| is_first_gc(families, i))
    } else {
        None
    }
}

/// The first graphics and compute family whose surface query did not answer "no".
pub open spec fn first_single(families: Seq<QueueFamilyProperties>, support: Seq<Result<bool, i32>>) -> Option<int> {
    if exists|i: int| is_first_single(families, support, i) {
        Some(choose|i: int| is_first_single(families, support, i))
    } else {
        None
    }
}

/// The first family whose surface query did not answer "no".
pub open spec fn first_present(support: Seq<Result<bool, i32>>) -> Option<int> {
    if exists|i: int| is_first_present(support, i) {
        Some(choose|i: int| is_first_present(support, i))
    } else {
        None
    }
}

/// The error code of a failed surface query (zero for an answer).
pub open spec fn error_code(r: Result<bool, i32>) -> i32 {
    match r {
        Ok(_) => 0,
        Err(e) => e,
    }
}

pub open spec fn surface_query_failed(r: Result<bool, i32>) -> VulkanNegotiationError {
    VulkanNegotiationError::VulkanError(VulkanCall::GetPhysicalDeviceSurfaceSupport, error_code(r))
}

/// The family chosen where no surface is given.
pub open spec fn graphics_compute_outcome(families: Seq<QueueFamilyProperties>) -> Result<QueueFamily, VulkanNegotiationError> {
    match first_gc(families) {
        Some(i) => Ok(family_at(families, i)),
        None => Err(VulkanNegotiationError::NoAcceptableQueueFamily),
    }
}

/// The families chosen for presenting to a surface, where `support[i]` is the
/// answer of the surface query on family `i`: the first graphics and compute
/// family that presents; else the first graphics and compute family beside the
/// first family that presents. The queries are read in that order, and the
/// first one that fails ends the choice.
pub open spec fn surface_outcome(
    families: Seq<QueueFamilyProperties>,
    support: Seq<Result<bool, i32>>,
) -> Result<QueueFamilies, VulkanNegotiationError> {
    match first_single(families, support) {
        Some(i) => if support[i] == Ok::<bool, i32>(true) {
            Ok(QueueFamilies::Single(family_at(families, i)))
        } else {
            Err(surface_query_failed(support[i]))
        },
        None => match first_gc(families) {
            None => Err(VulkanNegotiationError::NoAcceptableQueueFamily),
            Some(g) => match first_present(support) {
                None => Err(VulkanNegotiationError::NoAcceptableQueueFamily),
                Some(k) => if support[k] == Ok::<bool, i32>(true) {
                    Ok(QueueFamilies::Split { graphics_compute: family_at(families, g), present: family_at(families, k) })
                } else {
                    Err(surface_query_failed(support[k]))
                },
            },
        },
    }
}

proof fn lemma_first_gc(families: Seq<QueueFamilyProperties>, i: int)
    requires
        is_first_gc(families, i),
    ensures
        first_gc(families) == Some(i),
{
    let c = choose|c: int| is_first_gc(families, c);
    assert(is_first_gc(families, c));
    if c < i {
        assert(!gc_at(families, c));
    } else if c > i {
        assert(!gc_at(families, i));
    }
}

proof fn lemma_first_single(families: Seq<QueueFamilyProperties>, support: Seq<Result<bool, i32>>, i: int)
    requires
        is_first_single(families, support, i),
    ensures
        first_single(families, support) == Some(i),
{
    let c = choose|c: int| is_first_single(families, support, c);
    assert(is_first_single(families, support, c));
    if c < i {
        assert(!single_at(families, support, c));
    } else if c > i {
        assert(!single_at(families, support, i));
    }
}

proof fn lemma_first_present(support: Seq<Result<bool, i32>>, i: int)
    requires
        is_first_present(support, i),
    ensures
        first_present(support) == Some(i),
{
    let c = choose|c: int| is_first_present(support, c);
    assert(is_first_present(support, c));
    if c < i {
        assert(!present_at(support, c));
    } else if c > i {
        assert(!present_at(support, i));
    }
}

/// Whether queue flags include both graphics and compute.
pub fn supports_graphics_compute(flags: u32) -> (r: bool)
    ensures
        r == graphics_compute(flags),
{
    flags & QUEUE_GRAPHICS_COMPUTE == QUEUE_GRAPHICS_COMPUTE
}

/// The first family that supports graphics and compute.
pub fn select_queue_family(families: &Vec<QueueFamilyProperties>) -> (r: Result<QueueFamily, VulkanNegotiationError>)
    requires
        families@.len() <= u32::MAX,
    ensures
        r == graphics_compute_outcome(families@),
{
    let mut i: usize = 0;
    while i < families.len()
        invariant
            i <= families@.len() <= u32::MAX,
            forall|j: int| 0 <= j < i ==> !gc_at(families@, j),
        decreases families@.len() - i,
    {
        if supports_graphics_compute(families[i].queue_flags) {
            proof {
                lemma_first_gc(families@, i as int);
            }
            return Ok(QueueFamily { properties: families[i], index: i as u32 });
        }
        i = i + 1;
    }
    assert(!exists|k: int| is_first_gc(families@, k));
    Err(VulkanNegotiationError::NoAcceptableQueueFamily)
}

/// Chooses the families for presenting to a surface; `support[i]` is the
/// answer of the surface query on family `i`.
pub fn select_queue_families(
    families: &Vec<QueueFamilyProperties>,
    support: &Vec<Result<bool, i32>>,
) -> (r: Result<QueueFamilies, VulkanNegotiationError>)
    requires
        families@.len() <= u32::MAX,
        support@.len() == families@.len(),
    ensures
        r == surface_outcome(families@, support@),
{
    let mut i: usize = 0;
    while i < families.len()
        invariant
            i <= families@.len() <= u32::MAX,
            support@.len() == families@.len(),
            forall|j: int| 0 <= j < i ==> !single_at(families@, support@, j),
        decreases families@.len() - i,
    {
        if supports_graphics_compute(families[i].queue_flags) {
            match support[i] {
                Ok(true) => {
                    proof {
                        lemma_first_single(families@, support@, i as int);
                    }
                    return Ok(QueueFamilies::Single(QueueFamily { properties: families[i], index: i as u32 }));
                },
                Ok(false) => {},
                Err(e) => {
                    proof {
                        lemma_first_single(families@, support@, i as int);
                    }
                    return Err(VulkanNegotiationError::VulkanError(VulkanCall::GetPhysicalDeviceSurfaceSupport, e));
                },
            }
        }
        i = i + 1;
    }
    assert(!exists|k: int| is_first_single(families@, support@, k));
    let graphics = match select_queue_family(families) {
        Ok(f) => f,
        Err(e) => {
            return Err(e);
        },
    };
    proof {
        lemma_first_gc(families@, graphics.index as int);
    }
    let mut k: usize = 0;
    while k < support.len()
        invariant
            k <= support@.len() == families@.len() <= u32::MAX,
            forall|j: int| 0 <= j < k ==> !present_at(support@, j),
            forall|j: int| 0 <= j < families@.len() ==> !single_at(families@, support@, j),
            first_gc(families@) == Some(graphics.index as int),
            graphics == family_at(families@, graphics.index as int),
        decreases support@.len() - k,
    {
        match support[k] {
            Ok(true) => {
                proof {
                    lemma_first_present(support@, k as int);
                }
                return Ok(
                    QueueFamilies::Split {
                        graphics_compute: graphics,
                        present: QueueFamily { properties: families[k], index: k as u32 },
                    },
                );
            },
            Ok(false) => {},
            Err(e) => {
                proof {
                    lemma_first_present(support@, k as int);
                }
                return Err(VulkanNegotiationError::VulkanError(VulkanCall::GetPhysicalDeviceSurfaceSupport, e));
            },
        }
        k = k + 1;
    }
    assert(!exists|j: int| is_first_present(support@, j));
    Err(VulkanNegotiationError::NoAcceptableQueueFamily)
}

impl QueueFamilies {
    /// The index of the family that serves graphics and compute.
    pub open spec fn graphics_index(self) -> u32 {
        match self {
            QueueFamilies::Single(q) => q.index,
            QueueFamilies::Split { graphics_compute, .. } => graphics_compute.index,
            QueueFamilies::GraphicsComputeOnly(q) => q.index,
        }
    }

    /// The index of the family that presents; zero where none does.
    pub open spec fn present_index(self) -> u32 {
        match self {
            QueueFamilies::Single(q) => q.index,
            QueueFamilies::Split { present, .. } => present.index,
            QueueFamilies::GraphicsComputeOnly(_) => 0,
        }
    }

    /// The index of the family that serves graphics and compute.
    pub fn queue_family_index(&self) -> (r: u32)
        ensures
            r == self.graphics_index(),
            r == match *self {
                QueueFamilies::Single(q) => q.index,
                QueueFamilies::Split { graphics_compute, .. } => graphics_compute.index,
                QueueFamilies::GraphicsComputeOnly(q) => q.index,
            },
    {
        match self {
            QueueFamilies::Single(q) => q.index,
            QueueFamilies::Split { graphics_compute, .. } => graphics_compute.index,
            QueueFamilies::GraphicsComputeOnly(q) => q.index,
        }
    }

    /// The index of the family that presents; zero where none does.
    pub fn presentation_queue_family_index(&self) -> (r: u32)
        ensures
            r == self.present_index(),
            r == match *self {
                QueueFamilies::Single(q) => q.index,
                QueueFamilies::Split { present, .. } => present.index,
                QueueFamilies::GraphicsComputeOnly(_) => 0,
            },
    {
        match self {
            QueueFamilies::Single(q) => q.index,
            QueueFamilies::Split { present, .. } => present.index,
            QueueFamilies::GraphicsComputeOnly(_) => 0,
        }
    }

    /// The families that the device is created with, one queue each: two where
    /// presentation has a family of its own, else one.
    pub fn queue_create_families(&self) -> (r: Vec<u32>)
        ensures
            r@ == match *self {
                QueueFamilies::Split { graphics_compute, present } => seq![graphics_compute.index, present.index],
                QueueFamilies::Single(q) => seq![q.index],
                QueueFamilies::GraphicsComputeOnly(q) => seq![q.index],
            },
    {
        let mut r: Vec<u32> = Vec::new();
        r.push(self.queue_family_index());
        match self {
            QueueFamilies::Split { present, .. } => {
                r.push(present.index);
            },
            _ => {},
        }
        r
    }
}

/// A physical device as the negotiation sees it: its handle, its queue
/// families, and the answers of the surface query on each family (empty where
/// no surface is given).
#[derive(Clone, Debug)]
pub struct PhysicalDeviceInfo {
    pub handle: u64,
    pub queue_families: Vec<QueueFamilyProperties>,
    pub surface_support: Vec<Result<bool, i32>>,
}

/// A device is acceptable where one of its families supports graphics and compute.
pub open spec fn acceptable(d: PhysicalDeviceInfo) -> bool {
    exists|i: int| 0 <= i < d.queue_families@.len() && gc_at(d.queue_families@, i)
}

pub open spec fn is_first_acceptable(devices: Seq<PhysicalDeviceInfo>, i: int) -> bool {
    0 <= i < devices.len() && acceptable(devices[i]) && forall|j: int| 0 <= j < i ==> !acceptable(devices[j])
}

/// The device chosen among the enumerated ones: the first acceptable one.
pub open spec fn physical_device_outcome(devices: Seq<PhysicalDeviceInfo>) -> Result<int, VulkanNegotiationError> {
    if devices.len() == 0 {
        Err(VulkanNegotiationError::NoPhysicalDevicesFound)
    } else if exists|i: int| is_first_acceptable(devices, i) {
        Ok(choose|i: int| is_first_acceptable(devices, i))
    } else {
        Err(VulkanNegotiationError::NoAcceptablePhysicalDevice)
    }
}

proof fn lemma_first_acceptable(devices: Seq<PhysicalDeviceInfo>, i: int)
    requires
        is_first_acceptable(devices, i),
    ensures
        physical_device_outcome(devices) == Ok::<int, VulkanNegotiationError>(i),
{
    let c = choose|c: int| is_first_acceptable(devices, c);
    assert(is_first_acceptable(devices, c));
    if c < i {
        assert(!acceptable(devices[c]));
    } else if c > i {
        assert(!acceptable(devices[i]));
    }
}

/// Whether a device has a family that supports graphics and compute.
pub fn filter_physical_device(device: &PhysicalDeviceInfo) -> (r: bool)
    ensures
        r == acceptable(*device),
{
    let mut i: usize = 0;
    while i < device.queue_families.len()
        invariant
            i <= device.queue_families@.len(),
            forall|j: int| 0 <= j < i ==> !gc_at(device.queue_families@, j),
        decreases device.queue_families@.len() - i,
    {
        if supports_graphics_compute(device.queue_families[i].queue_flags) {
            assert(gc_at(device.queue_families@, i as int));
            return true;
        }
        i = i + 1;
    }
    false
}

/// The position of the first acceptable device among the enumerated ones.
pub fn select_physical_device(devices: &Vec<PhysicalDeviceInfo>) -> (r: Result<usize, VulkanNegotiationError>)
    ensures
        match r {
            Ok(i) => physical_device_outcome(devices@) == Ok::<int, VulkanNegotiationError>(i as int),
            Err(e) => physical_device_outcome(devices@) == Err::<int, VulkanNegotiationError>(e),
        },
{
    if devices.len() == 0 {
        return Err(VulkanNegotiationError::NoPhysicalDevicesFound);
    }
    let mut i: usize = 0;
    while i < devices.len()
        invariant
            0 < devices@.len(),
            i <= devices@.len(),
            forall|j: int| 0 <= j < i ==> !acceptable(devices@[j]),
        decreases devices@.len() - i,
    {
        if filter_physical_device(&devices[i]) {
            proof {
                lemma_first_acceptable(devices@, i as int);
            }
            return Ok(i);
        }
        i = i + 1;
    }
    assert(!exists|k: int| is_first_acceptable(devices@, k));
    Err(VulkanNegotiationError::NoAcceptablePhysicalDevice)
}

/// A device's list of families fits the index type, and where a surface is
/// given, the device carries one surface answer per family.
pub open spec fn device_well_formed(d: PhysicalDeviceInfo, has_surface: bool) -> bool {
    &&& d.queue_families@.len() <= u32::MAX
    &&& has_surface ==> d.surface_support@.len() == d.queue_families@.len()
}

/// The families chosen on a device.
pub open spec fn families_outcome(d: PhysicalDeviceInfo, has_surface: bool) -> Result<QueueFamilies, VulkanNegotiationError> {
    if has_surface {
        surface_outcome(d.queue_families@, d.surface_support@)
    } else {
        match graphics_compute_outcome(d.queue_families@) {
            Ok(f) => Ok(QueueFamilies::GraphicsComputeOnly(f)),
            Err(e) => Err(e),
        }
    }
}

/// What the core settles on before it asks the host to create the device.
#[derive(Clone, Debug)]
pub struct DevicePlan {
    /// The physical device.
    pub gpu: u64,
    /// The families chosen on it.
    pub families: QueueFamilies,
    /// The families the device is created with, one queue each.
    pub queue_create_families: Vec<u32>,
}

/// The device that the plan is made on: the host's, if it picked one, else the
/// first acceptable enumerated one.
pub open spec fn planned_device(host: Option<PhysicalDeviceInfo>, devices: Seq<PhysicalDeviceInfo>) -> Result<PhysicalDeviceInfo, VulkanNegotiationError> {
    match host {
        Some(d) => Ok(d),
        None => match physical_device_outcome(devices) {
            Ok(i) => Ok(devices[i]),
            Err(e) => Err(e),
        },
    }
}

/// Settles the physical device and its queue families. `host` is the device
/// that the host picked, if any; `devices` are the enumerated ones, read only
/// where the host picked none; `has_surface` says whether the host gave a
/// surface to present to.
pub fn plan_device(host: Option<PhysicalDeviceInfo>, devices: &Vec<PhysicalDeviceInfo>, has_surface: bool) -> (r: Result<DevicePlan, VulkanNegotiationError>)
    requires
        match host {
            Some(d) => device_well_formed(d, has_surface),
            None => forall|i: int| 0 <= i < devices@.len() ==> device_well_formed(#[trigger] devices@[i], has_surface),
        },
    ensures
        match planned_device(host, devices@) {
            Err(e) => r == Err::<DevicePlan, VulkanNegotiationError>(e),
            Ok(d) => match families_outcome(d, has_surface) {
                Err(e) => r == Err::<DevicePlan, VulkanNegotiationError>(e),
                Ok(f) => r.is_ok() && r.unwrap().gpu == d.handle && r.unwrap().families == f
                    && r.unwrap().queue_create_families@ == match f {
                        QueueFamilies::Split { graphics_compute, present } => seq![graphics_compute.index, present.index],
                        QueueFamilies::Single(q) => seq![q.index],
                        QueueFamilies::GraphicsComputeOnly(q) => seq![q.index],
                    },
            },
        },
{
    let device: &PhysicalDeviceInfo;
    let picked;
    match host {
        Some(d) => {
            picked = d;
            device = &picked;
        },
        None => {
            let i = match select_physical_device(devices) {
                Ok(i) => i,
                Err(e) => {
                    return Err(e);
                },
            };
            device = &devices[i];
        },
    }
    let families = if has_surface {
        match select_queue_families(&device.queue_families, &device.surface_support) {
            Ok(f) => f,
            Err(e) => {
                return Err(e);
            },
        }
    } else {
        match select_queue_family(&device.queue_families) {
            Ok(f) => QueueFamilies::GraphicsComputeOnly(f),
            Err(e) => {
                return Err(e);
            },
        }
    };
    let queue_create_families = families.queue_create_families();
    Ok(DevicePlan { gpu: device.handle, families, queue_create_families })
}

/// The queues taken from a created device, one per chosen family.
#[derive(Clone, Copy, Debug, PartialEq, Eq, Structural)]
pub enum Queues {
    Single(u64),
    Split { graphics_compute: u64, present: u64 },
    GraphicsComputeOnly(u64),
}

impl Queues {
    /// Pairs the families with the queues taken from them: `queue` from the
    /// graphics and compute family, `present_queue` from a separate present family.
    pub fn new(families: &QueueFamilies, queue: u64, present_queue: u64) -> (r: Queues)
        ensures
            r == match *families {
                QueueFamilies::Single(_) => Queues::Single(queue),
                QueueFamilies::Split { .. } => Queues::Split { graphics_compute: queue, present: present_queue },
                QueueFamilies::GraphicsComputeOnly(_) => Queues::GraphicsComputeOnly(queue),
            },
    {
        match families {
            QueueFamilies::Single(_) => Queues::Single(queue),
            QueueFamilies::Split { .. } => Queues::Split { graphics_compute: queue, present: present_queue },
            QueueFamilies::GraphicsComputeOnly(_) => Queues::GraphicsComputeOnly(queue),
        }
    }

    /// The graphics and compute queue.
    pub open spec fn main_queue(self) -> u64 {
        match self {
            Queues::Single(q) => q,
            Queues::Split { graphics_compute, .. } => graphics_compute,
            Queues::GraphicsComputeOnly(q) => q,
        }
    }

    /// The presentation queue; the null handle where none was chosen.
    pub open spec fn present_queue(self) -> u64 {
        match self {
            Queues::Single(q) => q,
            Queues::Split { present, .. } => present,
            Queues::GraphicsComputeOnly(_) => 0,
        }
    }

    /// The graphics and compute queue.
    pub fn queue(&self) -> (r: u64)
        ensures
            r == self.main_queue(),
            r == match *self {
                Queues::Single(q) => q,
                Queues::Split { graphics_compute, .. } => graphics_compute,
                Queues::GraphicsComputeOnly(q) => q,
            },
    {
        match self {
            Queues::Single(q) => *q,
            Queues::Split { graphics_compute, .. } => *graphics_compute,
            Queues::GraphicsComputeOnly(q) => *q,
        }
    }

    /// The presentation queue; the null handle where none was chosen.
    pub fn presentation_queue(&self) -> (r: u64)
        ensures
            r == self.present_queue(),
            r == match *self {
                Queues::Single(q) => q,
                Queues::Split { present, .. } => present,
                Queues::GraphicsComputeOnly(_) => 0,
            },
    {
        match self {
            Queues::Single(q) => *q,
            Queues::Split { present, .. } => *present,
            Queues::GraphicsComputeOnly(_) => 0,
        }
    }
}

/// The negotiated context handed back to the host (`retro_vulkan_context`).
#[derive(Clone, Copy, Debug, PartialEq, Eq, Structural)]
pub struct VulkanContext {
    pub gpu: u64,
    pub device: u64,
    pub queue: u64,
    pub queue_family_index: u32,
    pub presentation_queue: u64,
    pub presentation_queue_family_index: u32,
}

impl VulkanContext {
    /// The context for a created device and the queues taken from it.
    pub fn negotiated(gpu: u64, device: u64, families: &QueueFamilies, queues: &Queues) -> (r: VulkanContext)
        ensures
            r.gpu == gpu,
            r.device == device,
            r.queue == queues.main_queue(),
            r.queue_family_index == families.graphics_index(),
            r.presentation_queue == queues.present_queue(),
            r.presentation_queue_family_index == families.present_index(),
    {
        VulkanContext {
            gpu,
            device,
            queue: queues.queue(),
            queue_family_index: families.queue_family_index(),
            presentation_queue: queues.presentation_queue(),
            presentation_queue_family_index: families.presentation_queue_family_index(),
        }
    }
}

/// `VK_MAKE_API_VERSION`: variant, major, minor and patch packed in 32 bits.
pub open spec fn api_version(variant: u32, major: u32, minor: u32, patch: u32) -> u32 {
    (variant << 29u32) | (major << 22u32) | (minor << 12u32) | patch
}

/// Packs a Vulkan version number.
pub fn make_api_version(variant: u32, major: u32, minor: u32, patch: u32) -> (r: u32)
    ensures
        r == api_version(variant, major, minor, patch),
{
    (variant << 29u32) | (major << 22u32) | (minor << 12u32) | patch
}

/// The Vulkan version the core asks for.
pub fn api_version_1_3() -> (r: u32)
    ensures
        r == api_version(0, 1, 3, 0),
        r == 4206592,
{
    let r = make_api_version(0, 1, 3, 0);
    assert((0u32 << 29u32) | (1u32 << 22u32) | (3u32 << 12u32) | 0u32 == 4206592u32) by (bit_vector);
    r
}

/// The name the core gives itself in `VkApplicationInfo`.
pub const APPLICATION_NAME: &'static str = "ruffle_libretro";

/// The application description handed to the host (`VkApplicationInfo`).
#[derive(Clone, Copy, Debug)]
pub struct ApplicationInfo {
    pub application_name: &'static str,
    pub application_version: u32,
    pub api_version: u32,
}

impl ApplicationInfo {
    /// The description for a package version.
    pub fn for_version(major: u32, minor: u32, patch: u32) -> (r: ApplicationInfo)
        ensures
            r.application_name@ == APPLICATION_NAME@,
            r.application_version == api_version(0, major, minor, patch),
            r.api_version == api_version(0, 1, 3, 0),
    {
        ApplicationInfo {
            application_name: APPLICATION_NAME,
            application_version: make_api_version(0, major, minor, patch),
            api_version: api_version_1_3(),
        }
    }
}

/// `VK_KHR_surface`.
pub const SURFACE_EXTENSION: &'static str = "VK_KHR_surface";
/// `VK_KHR_get_physical_device_properties2`.
pub const PROPERTIES2_EXTENSION: &'static str = "VK_KHR_get_physical_device_properties2";
/// `VK_EXT_debug_utils`.
pub const DEBUG_UTILS_EXTENSION: &'static str = "VK_EXT_debug_utils";
/// The layer whose presence changes how the graphics layer treats the instance.
pub const NV_OPTIMUS_LAYER: &'static str = "VK_LAYER_NV_optimus";

/// The instance extensions the core asks for: the surface and
/// physical-device-properties-2 extensions, and debug utilities in a debug build.
pub fn required_instance_extensions(debug: bool) -> (r: Vec<&'static str>)
    ensures
        r@.len() == if debug { 3int } else { 2int },
        r@[0]@ == SURFACE_EXTENSION@,
        r@[1]@ == PROPERTIES2_EXTENSION@,
        debug ==> r@[2]@ == DEBUG_UTILS_EXTENSION@,
{
    let mut r: Vec<&'static str> = Vec::new();
    r.push(SURFACE_EXTENSION);
    r.push(PROPERTIES2_EXTENSION);
    if debug {
        r.push(DEBUG_UTILS_EXTENSION);
    }
    r
}

/// Whether two strings hold the same characters.
pub fn same_text(a: &str, b: &str) -> (r: bool)
    ensures
        r == (a@ == b@),
{
    let n = a.unicode_len();
    if n != b.unicode_len() {
        return false;
    }
    let mut i: usize = 0;
    while i < n
        invariant
            n == a@.len() == b@.len(),
            i <= n,
            forall|j: int| 0 <= j < i ==> a@[j] == b@[j],
        decreases n - i,
    {
        if a.get_char(i) != b.get_char(i) {
            return false;
        }
        i = i + 1;
    }
    assert(a@ =~= b@);
    true
}

/// Whether a layer of this exact name is among the instance layers.
pub fn has_layer(layers: &Vec<String>, name: &str) -> (r: bool)
    ensures
        r == exists|i: int| 0 <= i < layers@.len() && #[trigger] layers@[i]@ == name@,
{
    let mut i: usize = 0;
    while i < layers.len()
        invariant
            i <= layers@.len(),
            forall|j: int| 0 <= j < i ==> #[trigger] layers@[j]@ != name@,
        decreases layers@.len() - i,
    {
        if same_text(layers[i].as_str(), name) {
            return true;
        }
        i = i + 1;
    }
    false
}

/// Whether the NV Optimus layer is among the instance layers.
pub fn has_nv_optimus(layers: &Vec<String>) -> (r: bool)
    ensures
        r == exists|i: int| 0 <= i < layers@.len() && #[trigger] layers@[i]@ == NV_OPTIMUS_LAYER@,
{
    has_layer(layers, NV_OPTIMUS_LAYER)
}

/// Where a negotiation stands.
#[derive(Clone, Copy, Debug, PartialEq, Eq, Structural)]
pub enum NegotiationPhase {
    /// Registered with the host, nothing created yet.
    Idle,
    /// The host created the instance.
    InstanceCreated,
    /// The device was created: the context no longer changes.
    Ready,
    /// A step failed; the host falls back to its own device creation.
    Failed,
}

/// One negotiation with the host, from instance creation to device creation.
#[derive(Clone, Copy, Debug)]
pub struct NegotiationState {
    pub phase: NegotiationPhase,
    /// The instance the host created; the null handle before that.
    pub instance: u64,
    /// The negotiated context, once the device exists.
    pub context: Option<VulkanContext>,
}

impl NegotiationState {
    /// The consistency of the fields with the phase.
    pub open spec fn wf(self) -> bool {
        &&& (self.phase == NegotiationPhase::Idle ==> self.instance == 0 && self.context is None)
        &&& (self.phase == NegotiationPhase::InstanceCreated ==> self.instance != 0 && self.context is None)
        &&& (self.phase == NegotiationPhase::Ready ==> self.instance != 0 && self.context is Some)
        &&& (self.phase == NegotiationPhase::Failed ==> self.context is None)
    }

    /// A negotiation that has not started.
    pub fn new() -> (r: NegotiationState)
        ensures
            r.wf(),
            r.phase == NegotiationPhase::Idle,
    {
        NegotiationState { phase: NegotiationPhase::Idle, instance: 0, context: None }
    }

    /// Checks what the host hands to `create_instance` before anything is
    /// created: the instance wrapper, then the loader entry point.
    pub fn check_instance_request(has_create_instance_wrapper: bool, has_get_instance_proc_addr: bool) -> (r: Result<(), VulkanNegotiationError>)
        ensures
            !has_create_instance_wrapper ==> r == Err::<(), VulkanNegotiationError>(VulkanNegotiationError::NullCreateInstanceWrapper),
            has_create_instance_wrapper && !has_get_instance_proc_addr ==> r == Err::<(), VulkanNegotiationError>(VulkanNegotiationError::NullGetInstanceProcAddr),
            has_create_instance_wrapper && has_get_instance_proc_addr ==> r is Ok,
    {
        if !has_create_instance_wrapper {
            Err(VulkanNegotiationError::NullCreateInstanceWrapper)
        } else if !has_get_instance_proc_addr {
            Err(VulkanNegotiationError::NullGetInstanceProcAddr)
        } else {
            Ok(())
        }
    }

    /// Records the instance that the host's wrapper returned; the null handle
    /// fails the negotiation.
    pub fn instance_created(&mut self, handle: u64) -> (r: Result<u64, VulkanNegotiationError>)
        requires
            old(self).wf(),
            old(self).phase == NegotiationPhase::Idle,
        ensures
            final(self).wf(),
            handle == 0 ==> r == Err::<u64, VulkanNegotiationError>(VulkanNegotiationError::NullInstance)
                && final(self).phase == NegotiationPhase::Failed,
            handle != 0 ==> r == Ok::<u64, VulkanNegotiationError>(handle)
                && final(self).phase == NegotiationPhase::InstanceCreated && final(self).instance == handle,
    {
        if handle == 0 {
            self.phase = NegotiationPhase::Failed;
            Err(VulkanNegotiationError::NullInstance)
        } else {
            self.phase = NegotiationPhase::InstanceCreated;
            self.instance = handle;
            Ok(handle)
        }
    }

    /// Checks what the host hands to `create_device2` before anything is
    /// created: the slot for the negotiated context must be given, then an
    /// instance must exist, and the loader entry point and the device wrapper
    /// must be given. The device wrapper is called only after an `Ok`.
    pub fn check_device_request(
        &self,
        has_context_slot: bool,
        has_get_instance_proc_addr: bool,
        has_create_device_wrapper: bool,
    ) -> (r: Result<u64, VulkanNegotiationError>)
        requires
            self.wf(),
        ensures
            r == device_request_outcome(*self, has_context_slot, has_get_instance_proc_addr, has_create_device_wrapper),
            r is Ok ==> has_context_slot && has_get_instance_proc_addr && has_create_device_wrapper,
    {
        if !has_context_slot {
            Err(VulkanNegotiationError::NullContextSlot)
        } else if !has_get_instance_proc_addr {
            Err(VulkanNegotiationError::NullGetInstanceProcAddr)
        } else if !has_create_device_wrapper {
            Err(VulkanNegotiationError::NullCreateDeviceWrapper)
        } else {
            match self.phase {
                NegotiationPhase::InstanceCreated => Ok(self.instance),
                _ => Err(VulkanNegotiationError::InstanceNotCreated),
            }
        }
    }

    /// Records the created device; from here the context no longer changes.
    pub fn device_created(&mut self, context: VulkanContext)
        requires
            old(self).wf(),
            old(self).phase == NegotiationPhase::InstanceCreated,
        ensures
            final(self).wf(),
            final(self).phase == NegotiationPhase::Ready,
            final(self).instance == old(self).instance,
            final(self).context == Some(context),
    {
        self.phase = NegotiationPhase::Ready;
        self.context = Some(context);
    }

    /// Records a failed step.
    pub fn fail(&mut self)
        requires
            old(self).wf(),
        ensures
            final(self).wf(),
            final(self).phase == NegotiationPhase::Failed,
            final(self).instance == old(self).instance,
            final(self).context is None,
    {
        self.phase = NegotiationPhase::Failed;
        self.context = None;
    }

    /// The host destroyed the device: the negotiation starts over.
    pub fn destroy_device(&mut self)
        ensures
            final(self).wf(),
            final(self).phase == NegotiationPhase::Idle,
    {
        *self = NegotiationState::new();
    }
}

/// The outcome of checking a `create_device2` request.
pub open spec fn device_request_outcome(
    s: NegotiationState,
    has_context_slot: bool,
    has_get_instance_proc_addr: bool,
    has_create_device_wrapper: bool,
) -> Result<u64, VulkanNegotiationError> {
    if !has_context_slot {
        Err(VulkanNegotiationError::NullContextSlot)
    } else if !has_get_instance_proc_addr {
        Err(VulkanNegotiationError::NullGetInstanceProcAddr)
    } else if !has_create_device_wrapper {
        Err(VulkanNegotiationError::NullCreateDeviceWrapper)
    } else if s.phase == NegotiationPhase::InstanceCreated {
        Ok(s.instance)
    } else {
        Err(VulkanNegotiationError::InstanceNotCreated)
    }
}

/// The handle `create_instance` returns to the host: the null handle on failure.
pub fn instance_answer(r: Result<u64, VulkanNegotiationError>) -> (h: u64)
    ensures
        h == match r {
            Ok(i) => i,
            Err(_) => 0,
        },
{
    match r {
        Ok(i) => i,
        Err(_) => 0,
    }
}

/// What `create_device2` does with the host's context slot: `has_context` says
/// whether the slot is non-null. It returns the context to write there, if
/// any; the host's call succeeds exactly then.
pub fn device_answer(has_context: bool, r: Result<VulkanContext, VulkanNegotiationError>) -> (w: Option<VulkanContext>)
    ensures
        w == if has_context {
            match r {
                Ok(c) => Some(c),
                Err(_) => None,
            }
        } else {
            None::<VulkanContext>
        },
{
    if !has_context {
        return None;
    }
    match r {
        Ok(c) => Some(c),
        Err(_) => None,
    }
}

/// A device without a graphics and compute family has no acceptable queue
/// family, with or without a surface, whatever the surface queries answer.
pub proof fn lemma_no_graphics_compute_family(families: Seq<QueueFamilyProperties>, support: Seq<Result<bool, i32>>)
    requires
        forall|i: int| 0 <= i < families.len() ==> !gc_at(families, i),
    ensures
        graphics_compute_outcome(families) == Err::<QueueFamily, VulkanNegotiationError>(
            VulkanNegotiationError::NoAcceptableQueueFamily,
        ),
        surface_outcome(families, support) == Err::<QueueFamilies, VulkanNegotiationError>(
            VulkanNegotiationError::NoAcceptableQueueFamily,
        ),
{
    assert(!exists|i: int| is_first_gc(families, i));
    assert(!exists|i: int| is_first_single(families, support, i));
}

/// Where exactly one family supports graphics and compute and it presents to
/// the surface, that family serves everything.
pub proof fn lemma_single_family(families: Seq<QueueFamilyProperties>, support: Seq<Result<bool, i32>>, i: int)
    requires
        0 <= i < families.len(),
        support.len() == families.len(),
        gc_at(families, i),
        support[i] == Ok::<bool, i32>(true),
        forall|j: int| 0 <= j < families.len() && j != i ==> !gc_at(families, j),
    ensures
        surface_outcome(families, support) == Ok::<QueueFamilies, VulkanNegotiationError>(
            QueueFamilies::Single(family_at(families, i)),
        ),
{
    lemma_first_single(families, support, i);
}

/// Where the only graphics and compute family does not present and another
/// family is the only one that does, the two are split.
pub proof fn lemma_split_families(families: Seq<QueueFamilyProperties>, support: Seq<Result<bool, i32>>, g: int, p: int)
    requires
        0 <= g < families.len(),
        0 <= p < families.len(),
        support.len() == families.len(),
        gc_at(families, g),
        forall|j: int| 0 <= j < families.len() && j != g ==> !gc_at(families, j),
        support[p] == Ok::<bool, i32>(true),
        forall|j: int| 0 <= j < families.len() && j != p ==> support[j] == Ok::<bool, i32>(false),
        p != g,
    ensures
        surface_outcome(families, support) == Ok::<QueueFamilies, VulkanNegotiationError>(
            QueueFamilies::Split { graphics_compute: family_at(families, g), present: family_at(families, p) },
        ),
{
    assert forall|j: int| 0 <= j < families.len() implies !single_at(families, support, j) by {
        if j == g {
            assert(support[g] == Ok::<bool, i32>(false));
        }
    }
    assert(!exists|i: int| is_first_single(families, support, i));
    lemma_first_gc(families, g);
    lemma_first_present(support, p);
}

/// Without a surface, the first graphics and compute family serves alone.
pub proof fn lemma_graphics_compute_only(families: Seq<QueueFamilyProperties>, i: int)
    requires
        is_first_gc(families, i),
    ensures
        graphics_compute_outcome(families) == Ok::<QueueFamily, VulkanNegotiationError>(family_at(families, i)),
{
    lemma_first_gc(families, i);
}

} // verus!
