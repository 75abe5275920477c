use vstd::prelude::*;
use crate::bootstrap::BootstrapError;

verus! {

/// The kind of a physical device, as the driver reports it.
#[derive(Clone, Copy, PartialEq, Eq, Structural, Debug)]
pub enum DeviceType {
    Cpu,
    IntegratedGpu,
    DiscreteGpu,
    VirtualGpu,
    Other,
}

/// What the logic reads of one queue family.
#[derive(Clone, Copy, Debug)]
pub struct QueueFamily {
    pub queue_count: u32,
    pub graphics: bool,
}

/// What the logic reads of a device's feature set.
#[derive(Clone, Copy, Debug)]
pub struct DeviceFeatures {
    pub geometry_shader: bool,
    pub tessellation_shader: bool,
}

/// A capability snapshot of one enumerated physical device.
#[derive(Clone, Debug)]
pub struct DeviceSnapshot {
    pub device_id: u32,
    pub device_type: DeviceType,
    pub features: DeviceFeatures,
    pub queue_families: Vec<QueueFamily>,
}

/// The hard filter on devices: a discrete GPU with geometry shaders.
pub open spec fn is_eligible(device_type: DeviceType, geometry_shader: bool) -> bool {
    device_type == DeviceType::DiscreteGpu && geometry_shader
}

pub open spec fn device_eligible(d: DeviceSnapshot) -> bool {
    is_eligible(d.device_type, d.features.geometry_shader)
}

/// Index `i` is the lowest index of `devices` that holds an eligible device.
pub open spec fn first_eligible(devices: Seq<DeviceSnapshot>, i: int) -> bool {
    &&& 0 <= i < devices.len()
    &&& device_eligible(devices[i])
    &&& forall|j: int| 0 <= j < i ==> !device_eligible(#[trigger] devices[j])
}

pub open spec fn graphics_capable(f: QueueFamily) -> bool {
    f.queue_count > 0 && f.graphics
}

/// Family `i` has queues, and the surface can be presented to from it.
pub open spec fn present_capable(families: Seq<QueueFamily>, support: Seq<bool>, i: int) -> bool {
    &&& 0 <= i < families.len()
    &&& families[i].queue_count > 0
    &&& i < support.len()
    &&& support[i]
}

/// The result of a scan for the lowest index of `families` whose family can
/// do graphics.
pub open spec fn graphics_scan(families: Seq<QueueFamily>, r: Option<usize>) -> bool {
    match r {
        Some(i) => {
            &&& i < families.len()
            &&& graphics_capable(families[i as int])
            &&& forall|j: int| 0 <= j < i ==> !graphics_capable(#[trigger] families[j])
        },
        None => forall|j: int| 0 <= j < families.len() ==> !graphics_capable(#[trigger] families[j]),
    }
}

/// The result of a scan for the lowest index of `families` that can present.
pub open spec fn present_scan(families: Seq<QueueFamily>, support: Seq<bool>, r: Option<usize>) -> bool {
    match r {
        Some(i) => {
            &&& present_capable(families, support, i as int)
            &&& forall|j: int| 0 <= j < i ==> !#[trigger] present_capable(families, support, j)
        },
        None => forall|j: int| 0 <= j < families.len() ==> !#[trigger] present_capable(families, support, j),
    }
}

/// Whether a device passes the filter: its type and its geometry-shader
/// support decide, and nothing else that is handed in.
pub fn check_physical_device(
    device_type: DeviceType,
    features: DeviceFeatures,
    queue_families: &Vec<QueueFamily>,
) -> (r: bool)
    ensures
        r == is_eligible(device_type, features.geometry_shader),
{
    let _ = queue_families;
    device_type == DeviceType::DiscreteGpu && features.geometry_shader
}

/// The first eligible device in enumeration order, by index.
pub fn pick_physical_device(devices: &Vec<DeviceSnapshot>) -> (r: Result<usize, BootstrapError>)
    ensures
        devices@.len() == 0 ==> r == Err::<usize, BootstrapError>(BootstrapError::NoGpuFound),
        devices@.len() > 0 && (forall|j: int| 0 <= j < devices@.len() ==> !device_eligible(#[trigger] devices@[j]))
            ==> r == Err::<usize, BootstrapError>(BootstrapError::NoSuitableGpu),
        r is Ok ==> first_eligible(devices@, r->Ok_0 as int),
        (exists|j: int| 0 <= j < devices@.len() && device_eligible(#[trigger] devices@[j])) ==> r is Ok,
{
    if devices.len() == 0 {
        return Err(BootstrapError::NoGpuFound);
    }
    let mut i: usize = 0;
    while i < devices.len()
        invariant
            i <= devices@.len(),
            forall|j: int| 0 <= j < i ==> !device_eligible(#[trigger] devices@[j]),
        decreases devices@.len() - i,
    {
        let d = &devices[i];
        if check_physical_device(d.device_type, d.features, &d.queue_families) {
            return Ok(i);
        }
        i = i + 1;
    }
    Err(BootstrapError::NoSuitableGpu)
}

/// The lowest index whose family has queues and can do graphics.
pub fn find_graphics_queue_family(families: &Vec<QueueFamily>) -> (r: Option<usize>)
    ensures
        graphics_scan(families@, r),
{
    let mut i: usize = 0;
    while i < families.len()
        invariant
            i <= families@.len(),
            forall|j: int| 0 <= j < i ==> !graphics_capable(#[trigger] families@[j]),
        decreases families@.len() - i,
    {
        if families[i].queue_count > 0 && families[i].graphics {
            return Some(i);
        }
        i = i + 1;
    }
    None
}

/// The lowest index whose family has queues and can present to the surface;
/// `present_support[i]` is the answer of the driver for family `i`, and a
/// family that has no answer counts as unable to present.
pub fn find_present_queue_family(families: &Vec<QueueFamily>, present_support: &Vec<bool>) -> (r: Option<usize>)
    ensures
        present_scan(families@, present_support@, r),
{
    let mut i: usize = 0;
    while i < families.len()
        invariant
            i <= families@.len(),
            forall|j: int| 0 <= j < i ==> !#[trigger] present_capable(families@, present_support@, j),
        decreases families@.len() - i,
    {
        if families[i].queue_count > 0 && i < present_support.len() && present_support[i] {
            return Some(i);
        }
        i = i + 1;
    }
    None
}

/// The queue families that the logical device draws its queues from.
#[derive(Clone, Copy, PartialEq, Eq, Structural, Debug)]
pub struct QueueFamilySelection {
    pub graphics_family: Option<usize>,
    pub present_family: Option<usize>,
}

pub open spec fn no_graphics_family(families: Seq<QueueFamily>) -> bool {
    forall|j: int| 0 <= j < families.len() ==> !graphics_capable(#[trigger] families[j])
}

pub open spec fn no_present_family(families: Seq<QueueFamily>, support: Seq<bool>) -> bool {
    forall|j: int| 0 <= j < families.len() ==> !#[trigger] present_capable(families, support, j)
}

pub open spec fn opt_view(v: Option<&Vec<bool>>) -> Option<Seq<bool>> {
    match v {
        Some(s) => Some(s@),
        None => None,
    }
}

/// What the resolution of queue families gives for a device's family list;
/// `present_support` is `None` where there is no surface to present to.
pub open spec fn resolution(
    families: Seq<QueueFamily>,
    present_support: Option<Seq<bool>>,
    r: Result<QueueFamilySelection, BootstrapError>,
) -> bool {
    if no_graphics_family(families) {
        r == Err::<QueueFamilySelection, BootstrapError>(BootstrapError::NoGraphicsQueueFamily)
    } else {
        match present_support {
            None => r matches Ok(sel) && sel.present_family is None && sel.graphics_family is Some
                && graphics_scan(families, sel.graphics_family),
            Some(support) => {
                if no_present_family(families, support) {
                    r == Err::<QueueFamilySelection, BootstrapError>(BootstrapError::NoPresentQueueFamily)
                } else {
                    r matches Ok(sel) && sel.graphics_family is Some && sel.present_family is Some
                        && graphics_scan(families, sel.graphics_family)
                        && present_scan(families, support, sel.present_family)
                }
            },
        }
    }
}

/// Resolves the graphics family and, where a surface exists, the present
/// family, by two independent scans in index order.
pub fn resolve_queue_families(families: &Vec<QueueFamily>, present_support: Option<&Vec<bool>>) -> (r: Result<QueueFamilySelection, BootstrapError>)
    ensures
        resolution(families@, opt_view(present_support), r),
{
    let graphics = find_graphics_queue_family(families);
    if graphics.is_none() {
        return Err(BootstrapError::NoGraphicsQueueFamily);
    }
    match present_support {
        None => Ok(QueueFamilySelection { graphics_family: graphics, present_family: None }),
        Some(support) => {
            let present = find_present_queue_family(families, support);
            if present.is_none() {
                Err(BootstrapError::NoPresentQueueFamily)
            } else {
                Ok(QueueFamilySelection { graphics_family: graphics, present_family: present })
            }
        },
    }
}

/// The distinct family indices that get one queue-create record each.
pub open spec fn distinct_families(graphics: usize, present: Option<usize>) -> Seq<usize> {
    match present {
        Some(p) => if p == graphics { seq![graphics] } else { seq![graphics, p] },
        None => seq![graphics],
    }
}

/// One entry per distinct family of the selection, graphics first.
pub fn queue_create_families(graphics: usize, present: Option<usize>) -> (r: Vec<usize>)
    ensures
        r@ == distinct_families(graphics, present),
{
    let mut v: Vec<usize> = Vec::new();
    v.push(graphics);
    match present {
        Some(p) => {
            if p != graphics {
                v.push(p);
            }
        },
        None => {},
    }
    assert(v@ =~= distinct_families(graphics, present));
    v
}

/// Each scan has one result on a given input: the graphics family is the
/// lowest index with the graphics bit and queues, and the present family the
/// lowest index that can present, each found without regard to the other.
pub proof fn lemma_scans_deterministic(
    families: Seq<QueueFamily>,
    support: Seq<bool>,
    g1: Option<usize>,
    g2: Option<usize>,
    p1: Option<usize>,
    p2: Option<usize>,
)
    requires
        graphics_scan(families, g1),
        graphics_scan(families, g2),
        present_scan(families, support, p1),
        present_scan(families, support, p2),
    ensures
        g1 == g2,
        p1 == p2,
{
    match (g1, g2) {
        (Some(a), Some(b)) => {
            if a < b {
                assert(!graphics_capable(families[a as int]));
            } else if b < a {
                assert(!graphics_capable(families[b as int]));
            }
        },
        (Some(a), None) => {
            assert(!graphics_capable(families[a as int]));
        },
        (None, Some(b)) => {
            assert(!graphics_capable(families[b as int]));
        },
        (None, None) => {},
    }
    match (p1, p2) {
        (Some(a), Some(b)) => {
            if a < b {
                assert(!present_capable(families, support, a as int));
            } else if b < a {
                assert(!present_capable(families, support, b as int));
            }
        },
        (Some(a), None) => {
            assert(!present_capable(families, support, a as int));
        },
        (None, Some(b)) => {
            assert(!present_capable(families, support, b as int));
        },
        (None, None) => {},
    }
}

} // verus!
