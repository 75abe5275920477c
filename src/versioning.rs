use vstd::prelude::*;

verus! {

/// The packed version word of the Vulkan API: variant in the top three bits,
/// then seven bits of major, ten of minor and twelve of patch.
pub open spec fn packed_version(variant: u32, major: u32, minor: u32, patch: u32) -> u32 {
    (variant << 29u32) | (major << 22u32) | (minor << 12u32) | patch
}

/// Relies on `ash::vk::make_api_version`, which shifts and ors its four
/// arguments into one word.
#[verifier::external_body]
pub fn make_api_version(variant: u32, major: u32, minor: u32, patch: u32) -> (r: u32)
    ensures
        r == packed_version(variant, major, minor, patch),
{
    ash::vk::make_api_version(variant, major, minor, patch)
}

pub const ENGINE_NAME: &'static str = "Torii Engine";

pub const DEFAULT_APP_NAME: &'static str = "Torii Application";

/// The engine's version, 0.1.0 in the packed form.
pub open spec fn engine_version_spec() -> u32 {
    packed_version(0, 0, 1, 0)
}

/// The API version that the instance asks for, 1.3.0 in the packed form.
pub open spec fn target_api_version_spec() -> u32 {
    packed_version(0, 1, 3, 0)
}

/// The identity that the instance is created with.
#[derive(Clone, Copy, Debug)]
pub struct VkAppInfo {
    engine_version: u32,
    api_version: u32,
    application_version: u32,
    engine_name: &'static str,
    app_name: &'static str,
}

impl VkAppInfo {
    pub closed spec fn spec_engine_version(&self) -> u32 {
        self.engine_version
    }

    pub closed spec fn spec_api_version(&self) -> u32 {
        self.api_version
    }

    pub closed spec fn spec_application_version(&self) -> u32 {
        self.application_version
    }

    pub closed spec fn spec_engine_name(&self) -> &'static str {
        self.engine_name
    }

    pub closed spec fn spec_app_name(&self) -> &'static str {
        self.app_name
    }

    /// An application identity: the engine's name and version and the target
    /// API version are fixed, the rest is given.
    pub fn new(application_version: u32, app_name: &'static str) -> (r: Self)
        ensures
            r.spec_application_version() == application_version,
            r.spec_app_name() == app_name,
            r.spec_engine_name() == ENGINE_NAME,
            r.spec_engine_version() == engine_version_spec(),
            r.spec_api_version() == target_api_version_spec(),
    {
        VkAppInfo {
            engine_version: make_api_version(0, 0, 1, 0),
            api_version: make_api_version(0, 1, 3, 0),
            application_version,
            engine_name: ENGINE_NAME,
            app_name,
        }
    }

    pub fn app_name(&self) -> (r: &'static str)
        ensures
            r == self.spec_app_name(),
    {
        self.app_name
    }

    pub fn engine_name(&self) -> (r: &'static str)
        ensures
            r == self.spec_engine_name(),
    {
        self.engine_name
    }

    pub fn application_version(&self) -> (r: u32)
        ensures
            r == self.spec_application_version(),
    {
        self.application_version
    }

    pub fn api_version(&self) -> (r: u32)
        ensures
            r == self.spec_api_version(),
    {
        self.api_version
    }

    pub fn engine_version(&self) -> (r: u32)
        ensures
            r == self.spec_engine_version(),
    {
        self.engine_version
    }
}

impl Default for VkAppInfo {
    /// The default application: named after the engine's default, version 0.1.0.
    fn default() -> (r: Self)
        ensures
            r.spec_app_name() == DEFAULT_APP_NAME,
            r.spec_application_version() == packed_version(0, 0, 1, 0),
            r.spec_engine_name() == ENGINE_NAME,
            r.spec_engine_version() == engine_version_spec(),
            r.spec_api_version() == target_api_version_spec(),
    {
        Self::new(make_api_version(0, 0, 1, 0), DEFAULT_APP_NAME)
    }
}

} // verus!
