use vstd::prelude::*;

verus! {

/// The family of windowing systems that the surface extension is chosen for.
#[derive(Clone, Copy, PartialEq, Eq, Structural, Debug)]
pub enum Platform {
    Windows,
    Xlib,
    MacOs,
}

/// Relies on `ash::khr::surface::NAME`, the C string `VK_KHR_surface`.
#[verifier::external_body]
fn surface_extension() -> (r: String)
    ensures
        r@ == "VK_KHR_surface"@,
{
    ash::khr::surface::NAME.to_string_lossy().into_owned()
}

/// Relies on `ash::khr::win32_surface::NAME`, the C string `VK_KHR_win32_surface`.
#[verifier::external_body]
fn win32_surface_extension() -> (r: String)
    ensures
        r@ == "VK_KHR_win32_surface"@,
{
    ash::khr::win32_surface::NAME.to_string_lossy().into_owned()
}

/// Relies on `ash::khr::xlib_surface::NAME`, the C string `VK_KHR_xlib_surface`.
#[verifier::external_body]
fn xlib_surface_extension() -> (r: String)
    ensures
        r@ == "VK_KHR_xlib_surface"@,
{
    ash::khr::xlib_surface::NAME.to_string_lossy().into_owned()
}

/// Relies on `ash::mvk::macos_surface::NAME`, the C string `VK_MVK_macos_surface`.
#[verifier::external_body]
fn macos_surface_extension() -> (r: String)
    ensures
        r@ == "VK_MVK_macos_surface"@,
{
    ash::mvk::macos_surface::NAME.to_string_lossy().into_owned()
}

/// Relies on `ash::ext::debug_utils::NAME`, the C string `VK_EXT_debug_utils`.
#[verifier::external_body]
fn debug_utils_extension() -> (r: String)
    ensures
        r@ == "VK_EXT_debug_utils"@,
{
    ash::ext::debug_utils::NAME.to_string_lossy().into_owned()
}

pub open spec fn platform_surface_name(platform: Platform) -> Seq<char> {
    match platform {
        Platform::Windows => "VK_KHR_win32_surface"@,
        Platform::Xlib => "VK_KHR_xlib_surface"@,
        Platform::MacOs => "VK_MVK_macos_surface"@,
    }
}

/// The instance extensions: the surface extension, the platform's own surface
/// extension, and the debug-utilities extension where diagnostics are wanted.
pub open spec fn required_extensions(platform: Platform, debug_enabled: bool) -> Seq<Seq<char>> {
    let base = seq!["VK_KHR_surface"@, platform_surface_name(platform)];
    if debug_enabled {
        base.push("VK_EXT_debug_utils"@)
    } else {
        base
    }
}

pub open spec fn names_of(v: Seq<String>) -> Seq<Seq<char>> {
    v.map_values(|s: String| s@)
}

pub fn required_extension_names(platform: Platform, debug_enabled: bool) -> (r: Vec<String>)
    ensures
        names_of(r@) == required_extensions(platform, debug_enabled),
{
    let mut names: Vec<String> = Vec::new();
    names.push(surface_extension());
    let own = match platform {
        Platform::Windows => win32_surface_extension(),
        Platform::Xlib => xlib_surface_extension(),
        Platform::MacOs => macos_surface_extension(),
    };
    names.push(own);
    if debug_enabled {
        names.push(debug_utils_extension());
    }
    assert(names_of(names@) =~= required_extensions(platform, debug_enabled));
    names
}

} // verus!
