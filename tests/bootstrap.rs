use torii_engine::bootstrap::{
    plan_instance, plan_logical_device, teardown_order, Bootstrap, BootstrapAction, BootstrapError, BootstrapEvent,
    Created, Resource, Stage, VkProp,
};
use torii_engine::device::{DeviceFeatures, DeviceSnapshot, DeviceType, QueueFamily};
use torii_engine::platforms::Platform;
use torii_engine::validation::DebugModuleProp;
use torii_engine::versioning::VkAppInfo;

fn created(instance: bool, diagnostics: bool, surface: bool, device: bool) -> Created {
    Created { instance, diagnostics, surface, device }
}

fn good_device() -> DeviceSnapshot {
    DeviceSnapshot {
        device_id: 7,
        device_type: DeviceType::DiscreteGpu,
        features: DeviceFeatures { geometry_shader: true, tessellation_shader: true },
        queue_families: vec![
            QueueFamily { queue_count: 1, graphics: false },
            QueueFamily { queue_count: 2, graphics: true },
        ],
    }
}

fn weak_device() -> DeviceSnapshot {
    DeviceSnapshot {
        device_id: 3,
        device_type: DeviceType::IntegratedGpu,
        features: DeviceFeatures { geometry_shader: true, tessellation_shader: true },
        queue_families: vec![QueueFamily { queue_count: 1, graphics: true }],
    }
}

fn no_debug() -> VkProp {
    VkProp { vk_app_info: VkAppInfo::default(), debug_module_info: None }
}

#[test]
fn teardown_order_all_resources() {
    assert_eq!(
        teardown_order(created(true, true, true, true)),
        vec![Resource::Device, Resource::Diagnostics, Resource::Surface, Resource::Instance]
    );
}

#[test]
fn teardown_order_skips_absent_resources() {
    for bits in 0..16u32 {
        let c = created(bits & 1 != 0, bits & 2 != 0, bits & 4 != 0, bits & 8 != 0);
        let order = teardown_order(c);
        let mut expected = vec![];
        if c.device {
            expected.push(Resource::Device);
        }
        if c.diagnostics {
            expected.push(Resource::Diagnostics);
        }
        if c.surface {
            expected.push(Resource::Surface);
        }
        if c.instance {
            expected.push(Resource::Instance);
        }
        assert_eq!(order, expected);
    }
    assert_eq!(teardown_order(created(true, false, true, false)), vec![Resource::Surface, Resource::Instance]);
    assert_eq!(teardown_order(created(false, false, false, false)), vec![]);
}

#[test]
fn instance_plan_without_diagnostics() {
    let plan = plan_instance(&no_debug(), Platform::Xlib);
    assert!(plan.enabled_layers.is_empty());
    assert!(!plan.chain_diagnostics);
    assert_eq!(plan.extensions, vec!["VK_KHR_surface", "VK_KHR_xlib_surface"]);
    assert_eq!(plan.app_info.app_name(), "Torii Application");
}

#[test]
fn instance_plan_with_diagnostics() {
    let plan = plan_instance(&VkProp::default(), Platform::Windows);
    assert_eq!(plan.enabled_layers, vec!["VK_LAYER_KHRONOS_validation"]);
    assert!(plan.chain_diagnostics);
    assert_eq!(plan.extensions, vec!["VK_KHR_surface", "VK_KHR_win32_surface", "VK_EXT_debug_utils"]);
}

#[test]
fn device_plan_shares_one_family() {
    let fams = vec![QueueFamily { queue_count: 1, graphics: true }];
    let plan = plan_logical_device(0, &fams, Some(&vec![true])).unwrap();
    assert_eq!(plan.graphics_family, 0);
    assert_eq!(plan.present_family, Some(0));
    assert_eq!(plan.queue_families, vec![0]);
}

#[test]
fn scenario_no_debug_no_window_succeeds() {
    let mut b = Bootstrap::new(no_debug(), false, Platform::Xlib);
    match b.step(BootstrapEvent::Start) {
        BootstrapAction::CreateInstance(plan) => {
            assert!(plan.enabled_layers.is_empty());
            assert!(!plan.chain_diagnostics);
        },
        other => panic!("unexpected {:?}", other),
    }
    assert!(matches!(b.step(BootstrapEvent::Succeeded), BootstrapAction::EnumerateDevices));
    match b.step(BootstrapEvent::Devices(vec![weak_device(), good_device()])) {
        BootstrapAction::CreateDevice(plan) => {
            assert_eq!(plan.physical_device, 1);
            assert_eq!(plan.graphics_family, 1);
            assert_eq!(plan.present_family, None);
            assert_eq!(plan.queue_families, vec![1]);
        },
        other => panic!("unexpected {:?}", other),
    }
    assert!(matches!(b.step(BootstrapEvent::Succeeded), BootstrapAction::Complete));
    assert_eq!(b.stage(), Stage::Ready);
    assert_eq!(b.created(), created(true, false, false, true));
    assert_eq!(b.physical_device(), 1);
}

#[test]
fn scenario_missing_validation_layer_fails_before_instance() {
    let mut b = Bootstrap::new(VkProp::default(), true, Platform::Xlib);
    assert!(matches!(b.step(BootstrapEvent::Start), BootstrapAction::EnumerateLayers));
    match b.step(BootstrapEvent::Layers(vec!["VK_LAYER_MESA_overlay".to_string()])) {
        BootstrapAction::Abort { error, teardown } => {
            assert_eq!(error, BootstrapError::ValidationLayerUnavailable);
            assert!(teardown.is_empty());
        },
        other => panic!("unexpected {:?}", other),
    }
    assert_eq!(b.stage(), Stage::Failed);
    assert!(!b.created().instance);
}

#[test]
fn full_bootstrap_with_diagnostics_and_surface() {
    let prop = VkProp { vk_app_info: VkAppInfo::default(), debug_module_info: Some(DebugModuleProp::default()) };
    let mut b = Bootstrap::new(prop, true, Platform::Xlib);
    assert!(matches!(b.step(BootstrapEvent::Start), BootstrapAction::EnumerateLayers));
    match b.step(BootstrapEvent::Layers(vec!["VK_LAYER_KHRONOS_validation".to_string()])) {
        BootstrapAction::CreateInstance(plan) => assert!(plan.chain_diagnostics),
        other => panic!("unexpected {:?}", other),
    }
    match b.step(BootstrapEvent::Succeeded) {
        BootstrapAction::AttachDiagnostics(f) => assert_eq!(f.severities, 0x1100),
        other => panic!("unexpected {:?}", other),
    }
    assert!(matches!(b.step(BootstrapEvent::Succeeded), BootstrapAction::CreateSurface));
    assert!(matches!(b.step(BootstrapEvent::Succeeded), BootstrapAction::EnumerateDevices));
    match b.step(BootstrapEvent::Devices(vec![good_device()])) {
        BootstrapAction::QueryPresentSupport { device, family_count } => {
            assert_eq!(device, 0);
            assert_eq!(family_count, 2);
        },
        other => panic!("unexpected {:?}", other),
    }
    match b.step(BootstrapEvent::PresentSupport(vec![true, false])) {
        BootstrapAction::CreateDevice(plan) => {
            assert_eq!(plan.graphics_family, 1);
            assert_eq!(plan.present_family, Some(0));
            assert_eq!(plan.queue_families, vec![1, 0]);
        },
        other => panic!("unexpected {:?}", other),
    }
    assert!(matches!(b.step(BootstrapEvent::Succeeded), BootstrapAction::Complete));
    assert_eq!(b.created(), created(true, true, true, true));
}

#[test]
fn device_failure_unwinds_in_reverse_order() {
    let mut b = Bootstrap::new(VkProp::default(), true, Platform::Xlib);
    b.step(BootstrapEvent::Start);
    b.step(BootstrapEvent::Layers(vec!["VK_LAYER_KHRONOS_validation".to_string()]));
    b.step(BootstrapEvent::Succeeded);
    b.step(BootstrapEvent::Succeeded);
    b.step(BootstrapEvent::Succeeded);
    b.step(BootstrapEvent::Devices(vec![good_device()]));
    b.step(BootstrapEvent::PresentSupport(vec![true, true]));
    match b.step(BootstrapEvent::Failed) {
        BootstrapAction::Abort { error, teardown } => {
            assert_eq!(error, BootstrapError::DeviceCreationFailed);
            assert_eq!(teardown, vec![Resource::Diagnostics, Resource::Surface, Resource::Instance]);
        },
        other => panic!("unexpected {:?}", other),
    }
}

#[test]
fn bootstrap_errors_by_stage() {
    let mut b = Bootstrap::new(no_debug(), false, Platform::Xlib);
    b.step(BootstrapEvent::Start);
    match b.step(BootstrapEvent::Failed) {
        BootstrapAction::Abort { error, teardown } => {
            assert_eq!(error, BootstrapError::InstanceCreationFailed);
            assert!(teardown.is_empty());
        },
        other => panic!("unexpected {:?}", other),
    }

    let mut b = Bootstrap::new(no_debug(), false, Platform::Xlib);
    b.step(BootstrapEvent::Start);
    b.step(BootstrapEvent::Succeeded);
    match b.step(BootstrapEvent::Devices(vec![])) {
        BootstrapAction::Abort { error, teardown } => {
            assert_eq!(error, BootstrapError::NoGpuFound);
            assert_eq!(teardown, vec![Resource::Instance]);
        },
        other => panic!("unexpected {:?}", other),
    }

    let mut b = Bootstrap::new(no_debug(), false, Platform::Xlib);
    b.step(BootstrapEvent::Start);
    b.step(BootstrapEvent::Succeeded);
    match b.step(BootstrapEvent::Devices(vec![weak_device()])) {
        BootstrapAction::Abort { error, .. } => assert_eq!(error, BootstrapError::NoSuitableGpu),
        other => panic!("unexpected {:?}", other),
    }

    let mut b = Bootstrap::new(no_debug(), true, Platform::Xlib);
    b.step(BootstrapEvent::Start);
    b.step(BootstrapEvent::Succeeded);
    match b.step(BootstrapEvent::Failed) {
        BootstrapAction::Abort { error, teardown } => {
            assert_eq!(error, BootstrapError::SurfaceCreationFailed);
            assert_eq!(teardown, vec![Resource::Instance]);
        },
        other => panic!("unexpected {:?}", other),
    }

    let mut b = Bootstrap::new(no_debug(), true, Platform::Xlib);
    b.step(BootstrapEvent::Start);
    b.step(BootstrapEvent::Succeeded);
    b.step(BootstrapEvent::Succeeded);
    b.step(BootstrapEvent::Devices(vec![good_device()]));
    match b.step(BootstrapEvent::PresentSupport(vec![false, false])) {
        BootstrapAction::Abort { error, teardown } => {
            assert_eq!(error, BootstrapError::NoPresentQueueFamily);
            assert_eq!(teardown, vec![Resource::Surface, Resource::Instance]);
        },
        other => panic!("unexpected {:?}", other),
    }

    let mut no_graphics = good_device();
    no_graphics.queue_families = vec![QueueFamily { queue_count: 4, graphics: false }];
    let mut b = Bootstrap::new(no_debug(), false, Platform::Xlib);
    b.step(BootstrapEvent::Start);
    b.step(BootstrapEvent::Succeeded);
    match b.step(BootstrapEvent::Devices(vec![no_graphics])) {
        BootstrapAction::Abort { error, .. } => assert_eq!(error, BootstrapError::NoGraphicsQueueFamily),
        other => panic!("unexpected {:?}", other),
    }
}

#[test]
fn out_of_place_events_are_ignored() {
    let mut b = Bootstrap::new(no_debug(), false, Platform::Xlib);
    assert!(matches!(b.step(BootstrapEvent::Succeeded), BootstrapAction::Ignore));
    assert_eq!(b.stage(), Stage::NotStarted);
    b.step(BootstrapEvent::Start);
    assert!(matches!(b.step(BootstrapEvent::PresentSupport(vec![])), BootstrapAction::Ignore));
    assert_eq!(b.stage(), Stage::CreatingInstance);
}
