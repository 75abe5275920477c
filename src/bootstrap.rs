use vstd::prelude::*;
use crate::device::{
    DeviceSnapshot, QueueFamily, device_eligible, distinct_families, first_eligible, graphics_scan,
    no_graphics_family, no_present_family, opt_view, present_scan, pick_physical_device,
    queue_create_families, resolve_queue_families,
};
use crate::platforms::{Platform, names_of, required_extensions, required_extension_names};
use crate::validation::{
    DebugModuleProp, DiagnosticsFilter, check_validation_layer_support, layers_present,
    messenger_filter, messenger_filter_spec,
};
use crate::versioning::VkAppInfo;

verus! {

/// Why a bootstrap attempt was abandoned.
#[derive(Clone, Copy, PartialEq, Eq, Structural, Debug)]
pub enum BootstrapError {
    /// Diagnostics were asked for, and a layer that they need is missing, or
    /// the layers could not be listed.
    ValidationLayerUnavailable,
    /// No physical device was found, or they could not be listed.
    NoGpuFound,
    /// No device is a discrete GPU with geometry shaders.
    NoSuitableGpu,
    /// The chosen device has no family with queues that can do graphics.
    NoGraphicsQueueFamily,
    /// The chosen device has no family with queues that can present to the
    /// surface.
    NoPresentQueueFamily,
    /// The instance, or the messenger of its diagnostics channel, could not
    /// be created.
    InstanceCreationFailed,
    DeviceCreationFailed,
    SurfaceCreationFailed,
}

/// A resource that the bootstrap creates and that must be destroyed.
#[derive(Clone, Copy, PartialEq, Eq, Structural, Debug)]
pub enum Resource {
    Device,
    Diagnostics,
    Surface,
    Instance,
}

/// Which resources exist.
#[derive(Clone, Copy, PartialEq, Eq, Structural, Debug)]
pub struct Created {
    pub instance: bool,
    pub diagnostics: bool,
    pub surface: bool,
    pub device: bool,
}

pub open spec fn created_has(c: Created, r: Resource) -> bool {
    match r {
        Resource::Device => c.device,
        Resource::Diagnostics => c.diagnostics,
        Resource::Surface => c.surface,
        Resource::Instance => c.instance,
    }
}

/// The place of a resource in the order of destruction.
pub open spec fn teardown_rank(r: Resource) -> int {
    match r {
        Resource::Device => 0,
        Resource::Diagnostics => 1,
        Resource::Surface => 2,
        Resource::Instance => 3,
    }
}

pub open spec fn keep_if(b: bool, r: Resource) -> Seq<Resource> {
    if b { seq![r] } else { Seq::empty() }
}

/// The resources of `c` in the order in which they are destroyed: device,
/// diagnostics, surface, instance, each only if it exists.
pub open spec fn teardown_seq(c: Created) -> Seq<Resource> {
    keep_if(c.device, Resource::Device) + keep_if(c.diagnostics, Resource::Diagnostics)
        + keep_if(c.surface, Resource::Surface) + keep_if(c.instance, Resource::Instance)
}

/// The order in which the existing resources of `created` are destroyed.
pub fn teardown_order(created: Created) -> (r: Vec<Resource>)
    ensures
        r@ == teardown_seq(created),
{
    let mut order: Vec<Resource> = Vec::new();
    if created.device {
        order.push(Resource::Device);
    }
    if created.diagnostics {
        order.push(Resource::Diagnostics);
    }
    if created.surface {
        order.push(Resource::Surface);
    }
    if created.instance {
        order.push(Resource::Instance);
    }
    assert(order@ =~= teardown_seq(created));
    order
}

/// Teardown destroys exactly the resources that exist, each once, in the
/// order device, diagnostics, surface, instance; the instance, where it
/// exists, is the last one.
pub proof fn lemma_teardown_order(c: Created)
    ensures
        forall|r: Resource| #[trigger] teardown_seq(c).contains(r) <==> created_has(c, r),
        forall|i: int, j: int|
            0 <= i < j < teardown_seq(c).len() ==> teardown_rank(#[trigger] teardown_seq(c)[i]) < teardown_rank(
                #[trigger] teardown_seq(c)[j],
            ),
        c.instance ==> teardown_seq(c).last() == Resource::Instance,
{
    let s = teardown_seq(c);
    assert forall|r: Resource| #[trigger] s.contains(r) <==> created_has(c, r) by {
        if created_has(c, r) {
            let k = match r {
                Resource::Device => 0int,
                Resource::Diagnostics => (if c.device { 1int } else { 0int }),
                Resource::Surface => (if c.device { 1int } else { 0int }) + (if c.diagnostics { 1int } else { 0int }),
                Resource::Instance => (if c.device { 1int } else { 0int }) + (if c.diagnostics { 1int } else { 0int })
                    + (if c.surface { 1int } else { 0int }),
            };
            assert(s[k] == r);
        }
        if s.contains(r) {
            let k = choose|k: int| 0 <= k < s.len() && s[k] == r;
            assert(created_has(c, s[k]));
        }
    }
}

/// The stages of a bootstrap, in the order in which they come.
#[derive(Clone, Copy, PartialEq, Eq, Structural, Debug)]
pub enum Stage {
    NotStarted,
    CheckingLayers,
    CreatingInstance,
    AttachingDiagnostics,
    CreatingSurface,
    EnumeratingDevices,
    QueryingPresentSupport,
    CreatingDevice,
    Ready,
    Failed,
}

/// The settings of the bootstrap: the application identity, and the layers
/// of the diagnostics channel where one is wanted.
#[derive(Clone, Copy, Debug)]
pub struct VkProp {
    pub vk_app_info: VkAppInfo,
    pub debug_module_info: Option<DebugModuleProp>,
}

impl Default for VkProp {
    fn default() -> (r: Self)
        ensures
            r.debug_module_info matches Some(p) && p.required_validation_layers@ == seq![
                crate::validation::KHRONOS_VALIDATION_LAYER,
            ],
            r.vk_app_info.spec_app_name() == crate::versioning::DEFAULT_APP_NAME,
            r.vk_app_info.spec_application_version() == crate::versioning::packed_version(0, 0, 1, 0),
            r.vk_app_info.spec_engine_name() == crate::versioning::ENGINE_NAME,
            r.vk_app_info.spec_engine_version() == crate::versioning::engine_version_spec(),
            r.vk_app_info.spec_api_version() == crate::versioning::target_api_version_spec(),
    {
        VkProp { vk_app_info: VkAppInfo::default(), debug_module_info: Some(DebugModuleProp::default()) }
    }
}

/// What the instance is created with.
#[derive(Clone, Debug)]
pub struct InstancePlan {
    pub app_info: VkAppInfo,
    pub enabled_layers: Vec<&'static str>,
    pub extensions: Vec<String>,
    /// The messenger's create-info is chained into the instance's, so that
    /// messages of instance creation are caught as well.
    pub chain_diagnostics: bool,
}

/// What the logical device is created with: one queue, at full priority,
/// from each family of `queue_families`.
#[derive(Clone, Debug)]
pub struct DevicePlan {
    pub physical_device: usize,
    pub graphics_family: usize,
    pub present_family: Option<usize>,
    pub queue_families: Vec<usize>,
}

/// The layers of the diagnostics settings, none where there are none.
pub open spec fn layers_of(p: Option<DebugModuleProp>) -> Seq<&'static str> {
    match p {
        Some(m) => m.required_validation_layers@,
        None => Seq::empty(),
    }
}

pub open spec fn instance_plan_spec(prop: VkProp, platform: Platform, p: InstancePlan) -> bool {
    &&& p.app_info == prop.vk_app_info
    &&& p.chain_diagnostics == prop.debug_module_info is Some
    &&& p.enabled_layers@ == layers_of(prop.debug_module_info)
    &&& names_of(p.extensions@) == required_extensions(platform, prop.debug_module_info is Some)
}

/// The instance plan of the settings: layers and the chained messenger only
/// where diagnostics are wanted.
pub fn plan_instance(prop: &VkProp, platform: Platform) -> (r: InstancePlan)
    ensures
        instance_plan_spec(*prop, platform, r),
{
    let debug = prop.debug_module_info.is_some();
    let mut layers: Vec<&'static str> = Vec::new();
    match &prop.debug_module_info {
        Some(m) => {
            let required = m.required_validation_layers.as_slice();
            let mut i: usize = 0;
            while i < required.len()
                invariant
                    i <= required@.len(),
                    required@ == m.required_validation_layers@,
                    layers@ == required@.subrange(0, i as int),
                decreases required@.len() - i,
            {
                layers.push(required[i]);
                i = i + 1;
            }
            assert(layers@ =~= required@);
        },
        None => {
            assert(layers@ =~= Seq::<&'static str>::empty());
        },
    }
    InstancePlan {
        app_info: prop.vk_app_info,
        enabled_layers: layers,
        extensions: required_extension_names(platform, debug),
        chain_diagnostics: debug,
    }
}

pub open spec fn device_plan_spec(
    device: usize,
    families: Seq<QueueFamily>,
    present_support: Option<Seq<bool>>,
    p: DevicePlan,
) -> bool {
    &&& p.physical_device == device
    &&& graphics_scan(families, Some(p.graphics_family))
    &&& match present_support {
        None => p.present_family is None,
        Some(support) => p.present_family is Some && present_scan(families, support, p.present_family),
    }
    &&& p.queue_families@ == distinct_families(p.graphics_family, p.present_family)
}

/// The plan of the logical device of `device`: the graphics family and,
/// where there is a surface, the present family, and one queue-create
/// record per distinct family among them.
pub fn plan_logical_device(device: usize, families: &Vec<QueueFamily>, present_support: Option<&Vec<bool>>) -> (r: Result<DevicePlan, BootstrapError>)
    ensures
        no_graphics_family(families@) ==> r == Err::<DevicePlan, BootstrapError>(BootstrapError::NoGraphicsQueueFamily),
        !no_graphics_family(families@) && (present_support matches Some(s) && no_present_family(families@, s@))
            ==> r == Err::<DevicePlan, BootstrapError>(BootstrapError::NoPresentQueueFamily),
        r is Ok ==> device_plan_spec(device, families@, opt_view(present_support), r->Ok_0),
        !no_graphics_family(families@) && !(present_support matches Some(s) && no_present_family(families@, s@)) ==> r is Ok,
{
    let selection = match resolve_queue_families(families, present_support) {
        Ok(sel) => sel,
        Err(e) => {
            return Err(e);
        },
    };
    let graphics = selection.graphics_family.unwrap();
    let present = selection.present_family;
    Ok(DevicePlan {
        physical_device: device,
        graphics_family: graphics,
        present_family: present,
        queue_families: queue_create_families(graphics, present),
    })
}

/// A step of outside work that the bootstrap hands back its result from.
#[derive(Clone, Debug)]
pub enum BootstrapEvent {
    /// The caller asks for the bootstrap to begin.
    Start,
    /// The names of the instance layers that the loader offers.
    Layers(Vec<String>),
    /// The last action that creates something succeeded.
    Succeeded,
    /// The last action failed.
    Failed,
    /// A snapshot of each physical device, in enumeration order.
    Devices(Vec<DeviceSnapshot>),
    /// For each queue family of the chosen device, whether it can present to
    /// the surface.
    PresentSupport(Vec<bool>),
}

/// What the caller is to do next.
#[derive(Clone, Debug)]
pub enum BootstrapAction {
    EnumerateLayers,
    CreateInstance(InstancePlan),
    AttachDiagnostics(DiagnosticsFilter),
    CreateSurface,
    EnumerateDevices,
    QueryPresentSupport { device: usize, family_count: usize },
    CreateDevice(DevicePlan),
    /// Every resource exists; the context is ready.
    Complete,
    /// The attempt is abandoned: destroy `teardown`, in that order.
    Abort { error: BootstrapError, teardown: Vec<Resource> },
    /// The event does not belong to the current stage.
    Ignore,
}

/// The state of a bootstrap, as the contracts see it.
pub struct BootstrapView {
    pub prop: VkProp,
    pub has_window: bool,
    pub platform: Platform,
    pub stage: Stage,
    pub created: Created,
    pub device: usize,
    pub families: Seq<QueueFamily>,
}

/// The ordered bootstrap of a graphics context: instance, diagnostics,
/// surface, physical device, logical device. Each step is outside work that
/// the caller performs when `step` asks for it.
pub struct Bootstrap {
    prop: VkProp,
    has_window: bool,
    platform: Platform,
    stage: Stage,
    created: Created,
    device: usize,
    families: Vec<QueueFamily>,
}

impl View for Bootstrap {
    type V = BootstrapView;

    closed spec fn view(&self) -> BootstrapView {
        BootstrapView {
            prop: self.prop,
            has_window: self.has_window,
            platform: self.platform,
            stage: self.stage,
            created: self.created,
            device: self.device,
            families: self.families@,
        }
    }
}

pub open spec fn debug_enabled(v: BootstrapView) -> bool {
    v.prop.debug_module_info is Some
}

/// A resource exists only together with the instance, and only where the
/// settings ask for it; the stages after instance creation have an instance.
pub open spec fn view_wf(v: BootstrapView) -> bool {
    &&& v.created.diagnostics ==> v.created.instance && debug_enabled(v)
    &&& v.created.surface ==> v.created.instance && v.has_window
    &&& v.created.device ==> v.created.instance
    &&& v.stage is AttachingDiagnostics ==> v.created.instance && debug_enabled(v)
    &&& v.stage is CreatingSurface ==> v.created.instance && v.has_window
    &&& (v.stage is EnumeratingDevices || v.stage is QueryingPresentSupport || v.stage is CreatingDevice
        || v.stage is Ready) ==> v.created.instance
}

/// The stage that follows once the instance, and what has been attached to
/// it, exist.
pub open spec fn stage_after_instance(v: BootstrapView) -> Stage {
    if debug_enabled(v) && !v.created.diagnostics {
        Stage::AttachingDiagnostics
    } else if v.has_window && !v.created.surface {
        Stage::CreatingSurface
    } else {
        Stage::EnumeratingDevices
    }
}

/// `a` is what `stage` asks of the caller, for the stages that need no plan.
pub open spec fn requests(stage: Stage, a: BootstrapAction) -> bool {
    match stage {
        Stage::AttachingDiagnostics => a == BootstrapAction::AttachDiagnostics(messenger_filter_spec()),
        Stage::CreatingSurface => a is CreateSurface,
        Stage::EnumeratingDevices => a is EnumerateDevices,
        _ => false,
    }
}

/// The attempt fails with `e`: what exists is destroyed in teardown order.
pub open spec fn aborts(v: BootstrapView, t: BootstrapView, a: BootstrapAction, e: BootstrapError) -> bool {
    &&& t == (BootstrapView { stage: Stage::Failed, ..v })
    &&& a matches BootstrapAction::Abort { error, teardown } && error == e && teardown@ == teardown_seq(v.created)
}

pub open spec fn ignores(v: BootstrapView, t: BootstrapView, a: BootstrapAction) -> bool {
    t == v && a is Ignore
}

pub open spec fn creates_instance(v: BootstrapView, t: BootstrapView, a: BootstrapAction) -> bool {
    &&& t == (BootstrapView { stage: Stage::CreatingInstance, ..v })
    &&& a matches BootstrapAction::CreateInstance(p) && instance_plan_spec(v.prop, v.platform, p)
}

/// `v` with `c` created moves on to the next stage.
pub open spec fn moves_on(v: BootstrapView, c: Created, t: BootstrapView, a: BootstrapAction) -> bool {
    let w = BootstrapView { created: c, ..v };
    &&& t == (BootstrapView { stage: stage_after_instance(w), ..w })
    &&& requests(t.stage, a)
}

/// With the device and its families chosen in `v`, the queue families are
/// resolved and the logical device is planned, or the attempt fails.
pub open spec fn plans_device(v: BootstrapView, support: Option<Seq<bool>>, t: BootstrapView, a: BootstrapAction) -> bool {
    if no_graphics_family(v.families) {
        aborts(v, t, a, BootstrapError::NoGraphicsQueueFamily)
    } else if support matches Some(s) && no_present_family(v.families, s) {
        aborts(v, t, a, BootstrapError::NoPresentQueueFamily)
    } else {
        &&& t == (BootstrapView { stage: Stage::CreatingDevice, ..v })
        &&& a matches BootstrapAction::CreateDevice(p) && device_plan_spec(v.device, v.families, support, p)
    }
}

/// The first eligible device is chosen; its families are resolved now where
/// there is no surface, else after the present support has been asked.
pub open spec fn chooses_device(v: BootstrapView, devices: Seq<DeviceSnapshot>, t: BootstrapView, a: BootstrapAction) -> bool {
    let w = BootstrapView { device: t.device, families: devices[t.device as int].queue_families@, ..v };
    &&& first_eligible(devices, t.device as int)
    &&& if v.created.surface {
        &&& t == (BootstrapView { stage: Stage::QueryingPresentSupport, ..w })
        &&& a == (BootstrapAction::QueryPresentSupport { device: t.device, family_count: w.families.len() as usize })
    } else {
        plans_device(w, None, t, a)
    }
}

/// One step of the bootstrap: from state `v` and event `e` to state `t` and
/// action `a`.
pub open spec fn transition(v: BootstrapView, e: BootstrapEvent, t: BootstrapView, a: BootstrapAction) -> bool {
    match v.stage {
        Stage::NotStarted => match e {
            BootstrapEvent::Start => if debug_enabled(v) {
                t == (BootstrapView { stage: Stage::CheckingLayers, ..v }) && a is EnumerateLayers
            } else {
                creates_instance(v, t, a)
            },
            _ => ignores(v, t, a),
        },
        Stage::CheckingLayers => match e {
            BootstrapEvent::Layers(names) => if layers_present(layers_of(v.prop.debug_module_info), names@) {
                creates_instance(v, t, a)
            } else {
                aborts(v, t, a, BootstrapError::ValidationLayerUnavailable)
            },
            BootstrapEvent::Failed => aborts(v, t, a, BootstrapError::ValidationLayerUnavailable),
            _ => ignores(v, t, a),
        },
        Stage::CreatingInstance => match e {
            BootstrapEvent::Succeeded => moves_on(v, Created { instance: true, ..v.created }, t, a),
            BootstrapEvent::Failed => aborts(v, t, a, BootstrapError::InstanceCreationFailed),
            _ => ignores(v, t, a),
        },
        Stage::AttachingDiagnostics => match e {
            BootstrapEvent::Succeeded => moves_on(v, Created { diagnostics: true, ..v.created }, t, a),
            BootstrapEvent::Failed => aborts(v, t, a, BootstrapError::InstanceCreationFailed),
            _ => ignores(v, t, a),
        },
        Stage::CreatingSurface => match e {
            BootstrapEvent::Succeeded => moves_on(v, Created { surface: true, ..v.created }, t, a),
            BootstrapEvent::Failed => aborts(v, t, a, BootstrapError::SurfaceCreationFailed),
            _ => ignores(v, t, a),
        },
        Stage::EnumeratingDevices => match e {
            BootstrapEvent::Devices(list) => if list@.len() == 0 {
                aborts(v, t, a, BootstrapError::NoGpuFound)
            } else if forall|j: int| 0 <= j < list@.len() ==> !device_eligible(#[trigger] list@[j]) {
                aborts(v, t, a, BootstrapError::NoSuitableGpu)
            } else {
                chooses_device(v, list@, t, a)
            },
            BootstrapEvent::Failed => aborts(v, t, a, BootstrapError::NoGpuFound),
            _ => ignores(v, t, a),
        },
        Stage::QueryingPresentSupport => match e {
            BootstrapEvent::PresentSupport(s) => plans_device(v, Some(s@), t, a),
            BootstrapEvent::Failed => aborts(v, t, a, BootstrapError::NoPresentQueueFamily),
            _ => ignores(v, t, a),
        },
        Stage::CreatingDevice => match e {
            BootstrapEvent::Succeeded => {
                &&& t == (BootstrapView { stage: Stage::Ready, created: Created { device: true, ..v.created }, ..v })
                &&& a is Complete
            },
            BootstrapEvent::Failed => aborts(v, t, a, BootstrapError::DeviceCreationFailed),
            _ => ignores(v, t, a),
        },
        Stage::Ready | Stage::Failed => ignores(v, t, a),
    }
}

/// Whenever a bootstrap step abandons the attempt, it destroys exactly what
/// the attempt created, in the order device, diagnostics, surface, instance,
/// and the instance, where anything was created, last of all.
pub proof fn lemma_abort_unwinds(v: BootstrapView, e: BootstrapEvent, t: BootstrapView, a: BootstrapAction)
    requires
        view_wf(v),
        transition(v, e, t, a),
        a is Abort,
    ensures
        ({
            let teardown = (a->teardown)@;
            &&& teardown == teardown_seq(v.created)
            &&& forall|r: Resource| #[trigger] teardown.contains(r) <==> created_has(v.created, r)
            &&& forall|i: int, j: int|
                0 <= i < j < teardown.len() ==> teardown_rank(#[trigger] teardown[i]) < teardown_rank(#[trigger] teardown[j])
            &&& teardown.len() > 0 ==> teardown.last() == Resource::Instance
        }),
{
    lemma_teardown_order(v.created);
}

impl Bootstrap {
    pub closed spec fn wf(&self) -> bool {
        view_wf(self@)
    }

    /// A bootstrap that has not begun and has created nothing.
    pub fn new(prop: VkProp, has_window: bool, platform: Platform) -> (r: Self)
        ensures
            r.wf(),
            r@.prop == prop,
            r@.has_window == has_window,
            r@.platform == platform,
            r@.stage == Stage::NotStarted,
            r@.created == (Created { instance: false, diagnostics: false, surface: false, device: false }),
    {
        Bootstrap {
            prop,
            has_window,
            platform,
            stage: Stage::NotStarted,
            created: Created { instance: false, diagnostics: false, surface: false, device: false },
            device: 0,
            families: Vec::new(),
        }
    }

    pub fn stage(&self) -> (r: Stage)
        ensures
            r == self@.stage,
    {
        self.stage
    }

    pub fn created(&self) -> (r: Created)
        ensures
            r == self@.created,
    {
        self.created
    }

    /// The index of the chosen physical device, once one is chosen.
    pub fn physical_device(&self) -> (r: usize)
        ensures
            r == self@.device,
    {
        self.device
    }

    fn abort(&mut self, error: BootstrapError) -> (r: BootstrapAction)
        ensures
            aborts(old(self)@, final(self)@, r, error),
    {
        self.stage = Stage::Failed;
        BootstrapAction::Abort { error, teardown: teardown_order(self.created) }
    }

    fn create_instance(&mut self) -> (r: BootstrapAction)
        ensures
            creates_instance(old(self)@, final(self)@, r),
    {
        self.stage = Stage::CreatingInstance;
        BootstrapAction::CreateInstance(plan_instance(&self.prop, self.platform))
    }

    fn move_on(&mut self, created: Created) -> (r: BootstrapAction)
        ensures
            moves_on(old(self)@, created, final(self)@, r),
    {
        self.created = created;
        if self.prop.debug_module_info.is_some() && !created.diagnostics {
            self.stage = Stage::AttachingDiagnostics;
            BootstrapAction::AttachDiagnostics(messenger_filter())
        } else if self.has_window && !created.surface {
            self.stage = Stage::CreatingSurface;
            BootstrapAction::CreateSurface
        } else {
            self.stage = Stage::EnumeratingDevices;
            BootstrapAction::EnumerateDevices
        }
    }

    fn plan_device(&mut self, present_support: Option<&Vec<bool>>) -> (r: BootstrapAction)
        ensures
            plans_device(old(self)@, opt_view(present_support), final(self)@, r),
    {
        match plan_logical_device(self.device, &self.families, present_support) {
            Ok(plan) => {
                self.stage = Stage::CreatingDevice;
                BootstrapAction::CreateDevice(plan)
            },
            Err(e) => self.abort(e),
        }
    }

    fn choose_device(&mut self, devices: Vec<DeviceSnapshot>) -> (r: BootstrapAction)
        ensures
            devices@.len() == 0 ==> aborts(old(self)@, final(self)@, r, BootstrapError::NoGpuFound),
            devices@.len() > 0 && (forall|j: int| 0 <= j < devices@.len() ==> !device_eligible(#[trigger] devices@[j]))
                ==> aborts(old(self)@, final(self)@, r, BootstrapError::NoSuitableGpu),
            (exists|j: int| 0 <= j < devices@.len() && device_eligible(#[trigger] devices@[j]))
                ==> chooses_device(old(self)@, devices@, final(self)@, r),
    {
        match pick_physical_device(&devices) {
            Err(e) => self.abort(e),
            Ok(i) => {
                let mut devices = devices;
                let chosen = devices.remove(i);
                self.device = i;
                self.families = chosen.queue_families;
                if self.created.surface {
                    self.stage = Stage::QueryingPresentSupport;
                    BootstrapAction::QueryPresentSupport { device: i, family_count: self.families.len() }
                } else {
                    self.plan_device(None)
                }
            },
        }
    }

    /// Advances the bootstrap by one event and says what to do next.
    pub fn step(&mut self, event: BootstrapEvent) -> (r: BootstrapAction)
        requires
            old(self).wf(),
        ensures
            final(self).wf(),
            transition(old(self)@, event, final(self)@, r),
    {
        match self.stage {
            Stage::NotStarted => match event {
                BootstrapEvent::Start => {
                    if self.prop.debug_module_info.is_some() {
                        self.stage = Stage::CheckingLayers;
                        BootstrapAction::EnumerateLayers
                    } else {
                        self.create_instance()
                    }
                },
                _ => BootstrapAction::Ignore,
            },
            Stage::CheckingLayers => match event {
                BootstrapEvent::Layers(names) => {
                    let supported = match &self.prop.debug_module_info {
                        Some(m) => check_validation_layer_support(m, &names),
                        None => true,
                    };
                    if supported {
                        self.create_instance()
                    } else {
                        self.abort(BootstrapError::ValidationLayerUnavailable)
                    }
                },
                BootstrapEvent::Failed => self.abort(BootstrapError::ValidationLayerUnavailable),
                _ => BootstrapAction::Ignore,
            },
            Stage::CreatingInstance => match event {
                BootstrapEvent::Succeeded => self.move_on(Created { instance: true, ..self.created }),
                BootstrapEvent::Failed => self.abort(BootstrapError::InstanceCreationFailed),
                _ => BootstrapAction::Ignore,
            },
            Stage::AttachingDiagnostics => match event {
                BootstrapEvent::Succeeded => self.move_on(Created { diagnostics: true, ..self.created }),
                BootstrapEvent::Failed => self.abort(BootstrapError::InstanceCreationFailed),
                _ => BootstrapAction::Ignore,
            },
            Stage::CreatingSurface => match event {
                BootstrapEvent::Succeeded => self.move_on(Created { surface: true, ..self.created }),
                BootstrapEvent::Failed => self.abort(BootstrapError::SurfaceCreationFailed),
                _ => BootstrapAction::Ignore,
            },
            Stage::EnumeratingDevices => match event {
                BootstrapEvent::Devices(list) => self.choose_device(list),
                BootstrapEvent::Failed => self.abort(BootstrapError::NoGpuFound),
                _ => BootstrapAction::Ignore,
            },
            Stage::QueryingPresentSupport => match event {
                BootstrapEvent::PresentSupport(support) => self.plan_device(Some(&support)),
                BootstrapEvent::Failed => self.abort(BootstrapError::NoPresentQueueFamily),
                _ => BootstrapAction::Ignore,
            },
            Stage::CreatingDevice => match event {
                BootstrapEvent::Succeeded => {
                    self.created = Created { device: true, ..self.created };
                    self.stage = Stage::Ready;
                    BootstrapAction::Complete
                },
                BootstrapEvent::Failed => self.abort(BootstrapError::DeviceCreationFailed),
                _ => BootstrapAction::Ignore,
            },
            Stage::Ready | Stage::Failed => BootstrapAction::Ignore,
        }
    }
}

} // verus!
