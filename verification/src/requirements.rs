//! The layers and instance extensions that the bootstrap asks for.

use vstd::prelude::*;

verus! {

/// The windowing system whose surface extension is needed. A build targets
/// exactly one of them.
#[derive(Clone, Copy, Debug, PartialEq, Eq, Structural)]
pub enum SurfacePlatform {
    /// Windows: the surface is made from an instance and window handle pair.
    Win32,
    /// X11 through Xlib: the surface is made from a display and window pair.
    Xlib,
}

/// The texts of a list of names.
pub open spec fn name_views(names: Seq<String>) -> Seq<Seq<char>> {
    names.map_values(|name: String| name@)
}

/// Calls `ash::extensions::ext::DebugUtils::name`, which returns the
/// extension's registered name, and copies it into a `String`.
#[verifier::external_body]
fn debug_utils_extension() -> (name: String)
    ensures
        name@ == "VK_EXT_debug_utils"@,
{
    ash::extensions::ext::DebugUtils::name().to_string_lossy().into_owned()
}

/// Calls `ash::extensions::khr::Surface::name`, which returns the
/// extension's registered name, and copies it into a `String`.
#[verifier::external_body]
fn surface_extension() -> (name: String)
    ensures
        name@ == "VK_KHR_surface"@,
{
    ash::extensions::khr::Surface::name().to_string_lossy().into_owned()
}

/// Calls `ash::extensions::khr::Win32Surface::name`, which returns the
/// extension's registered name, and copies it into a `String`.
#[verifier::external_body]
fn win32_surface_extension() -> (name: String)
    ensures
        name@ == "VK_KHR_win32_surface"@,
{
    ash::extensions::khr::Win32Surface::name().to_string_lossy().into_owned()
}

/// Calls `ash::extensions::khr::XlibSurface::name`, which returns the
/// extension's registered name, and copies it into a `String`.
#[verifier::external_body]
fn xlib_surface_extension() -> (name: String)
    ensures
        name@ == "VK_KHR_xlib_surface"@,
{
    ash::extensions::khr::XlibSurface::name().to_string_lossy().into_owned()
}

impl SurfacePlatform {
    /// The name of the platform's surface extension.
    pub open spec fn extension_name(self) -> Seq<char> {
        match self {
            SurfacePlatform::Win32 => "VK_KHR_win32_surface"@,
            SurfacePlatform::Xlib => "VK_KHR_xlib_surface"@,
        }
    }

    /// The platform's surface extension.
    pub fn surface_extension(&self) -> (name: String)
        ensures
            name@ == self.extension_name(),
    {
        match self {
            SurfacePlatform::Win32 => win32_surface_extension(),
            SurfacePlatform::Xlib => xlib_surface_extension(),
        }
    }
}

/// The layers asked for: the Khronos validation layer when `validation` is
/// set, none otherwise.
pub open spec fn layer_names(validation: bool) -> Seq<Seq<char>> {
    if validation {
        seq!["VK_LAYER_KHRONOS_validation"@]
    } else {
        seq![]
    }
}

/// The instance extensions asked for, in the order in which they are
/// requested: diagnostics, surface, the platform's surface.
pub open spec fn extension_names(platform: SurfacePlatform) -> Seq<Seq<char>> {
    seq!["VK_EXT_debug_utils"@, "VK_KHR_surface"@, platform.extension_name()]
}

/// The validation layers to enable. Whether validation runs is the caller's
/// explicit choice.
pub fn required_layers(validation: bool) -> (layers: Vec<String>)
    ensures
        name_views(layers@) == layer_names(validation),
{
    let mut layers: Vec<String> = Vec::new();
    if validation {
        layers.push(String::from_str("VK_LAYER_KHRONOS_validation"));
    }
    assert(name_views(layers@) =~= layer_names(validation));
    layers
}

/// The instance extensions to enable for the platform.
pub fn required_extensions(platform: SurfacePlatform) -> (extensions: Vec<String>)
    ensures
        name_views(extensions@) == extension_names(platform),
{
    let mut extensions: Vec<String> = Vec::new();
    extensions.push(debug_utils_extension());
    extensions.push(surface_extension());
    extensions.push(platform.surface_extension());
    assert(name_views(extensions@) =~= extension_names(platform));
    extensions
}

} // verus!
