use torii_engine::bootstrap::BootstrapError;
use torii_engine::device::{
    check_physical_device, find_graphics_queue_family, find_present_queue_family, pick_physical_device,
    queue_create_families, resolve_queue_families, DeviceFeatures, DeviceSnapshot, DeviceType, QueueFamily,
};

fn family(queue_count: u32, graphics: bool) -> QueueFamily {
    QueueFamily { queue_count, graphics }
}

fn features(geometry_shader: bool, tessellation_shader: bool) -> DeviceFeatures {
    DeviceFeatures { geometry_shader, tessellation_shader }
}

fn device(device_id: u32, device_type: DeviceType, geometry_shader: bool) -> DeviceSnapshot {
    DeviceSnapshot {
        device_id,
        device_type,
        features: features(geometry_shader, false),
        queue_families: vec![family(1, true)],
    }
}

#[test]
fn eligibility_needs_discrete_gpu_and_geometry_shader() {
    let types = [
        DeviceType::Cpu,
        DeviceType::IntegratedGpu,
        DeviceType::DiscreteGpu,
        DeviceType::VirtualGpu,
        DeviceType::Other,
    ];
    let family_lists = vec![vec![], vec![family(0, false)], vec![family(4, true), family(2, false)]];
    for t in types {
        for geometry in [false, true] {
            for tessellation in [false, true] {
                for fams in &family_lists {
                    let expected = t == DeviceType::DiscreteGpu && geometry;
                    assert_eq!(check_physical_device(t, features(geometry, tessellation), fams), expected);
                }
            }
        }
    }
}

#[test]
fn pick_with_no_devices_is_no_gpu_found() {
    assert_eq!(pick_physical_device(&vec![]), Err(BootstrapError::NoGpuFound));
}

#[test]
fn pick_with_no_eligible_device_is_no_suitable_gpu() {
    let devices = vec![
        device(1, DeviceType::IntegratedGpu, true),
        device(2, DeviceType::DiscreteGpu, false),
        device(3, DeviceType::Cpu, true),
    ];
    assert_eq!(pick_physical_device(&devices), Err(BootstrapError::NoSuitableGpu));
}

#[test]
fn pick_takes_first_eligible_device() {
    let devices = vec![
        device(1, DeviceType::IntegratedGpu, true),
        device(2, DeviceType::DiscreteGpu, true),
        device(3, DeviceType::DiscreteGpu, true),
    ];
    assert_eq!(pick_physical_device(&devices), Ok(1));
}

#[test]
fn graphics_family_is_lowest_index_with_queues_and_graphics() {
    let fams = vec![family(2, false), family(0, true), family(3, true), family(1, true)];
    assert_eq!(find_graphics_queue_family(&fams), Some(2));
    assert_eq!(find_graphics_queue_family(&vec![family(1, false)]), None);
    assert_eq!(find_graphics_queue_family(&vec![]), None);
}

#[test]
fn present_family_is_lowest_index_with_queues_and_support() {
    let fams = vec![family(0, true), family(1, true), family(1, false), family(1, true)];
    assert_eq!(find_present_queue_family(&fams, &vec![true, false, true, true]), Some(2));
    assert_eq!(find_present_queue_family(&fams, &vec![true, false, false, false]), None);
    // a family without an answer cannot present
    assert_eq!(find_present_queue_family(&fams, &vec![true, false]), None);
}

#[test]
fn resolution_scans_independently() {
    let fams = vec![family(1, true), family(1, false)];
    let sel = resolve_queue_families(&fams, Some(&vec![false, true])).unwrap();
    assert_eq!(sel.graphics_family, Some(0));
    assert_eq!(sel.present_family, Some(1));
    let sel = resolve_queue_families(&fams, Some(&vec![true, true])).unwrap();
    assert_eq!(sel.graphics_family, Some(0));
    assert_eq!(sel.present_family, Some(0));
    let sel = resolve_queue_families(&fams, None).unwrap();
    assert_eq!(sel.present_family, None);
}

#[test]
fn resolution_errors() {
    let fams = vec![family(1, false), family(0, true)];
    assert_eq!(resolve_queue_families(&fams, None), Err(BootstrapError::NoGraphicsQueueFamily));
    assert_eq!(
        resolve_queue_families(&fams, Some(&vec![true, true])),
        Err(BootstrapError::NoGraphicsQueueFamily)
    );
    let fams = vec![family(1, true)];
    assert_eq!(
        resolve_queue_families(&fams, Some(&vec![false])),
        Err(BootstrapError::NoPresentQueueFamily)
    );
}

#[test]
fn one_queue_record_per_distinct_family() {
    assert_eq!(queue_create_families(0, Some(0)), vec![0]);
    assert_eq!(queue_create_families(0, Some(2)), vec![0, 2]);
    assert_eq!(queue_create_families(3, None), vec![3]);
}
