//! What an instance is created with: the layers, and the extensions that the
//! platform's window system needs.
use vstd::prelude::*;

verus! {

/// The window systems that a surface can be made for.
#[derive(Clone, Copy, Debug, PartialEq, Eq, Structural)]
pub enum Platform {
    Linux,
    Android,
    Windows,
    Other,
}

/// The layers to enable: the standard validation layer with checks on,
/// none without.
pub fn instance_layers(checks: bool) -> (r: Vec<&'static str>)
    ensures
        r@.len() == if checks {
            1nat
        } else {
            0nat
        },
        checks ==> r@[0]@ == "VK_LAYER_LUNARG_standard_validation"@,
{
    let mut r: Vec<&'static str> = Vec::new();
    if checks {
        r.push("VK_LAYER_LUNARG_standard_validation");
    }
    r
}

/// The window-system extension of a platform; none where no surface can be
/// made.
pub fn surface_extension(platform: Platform) -> (r: Option<&'static str>)
    ensures
        r == match platform {
            Platform::Linux => Some("VK_KHR_xcb_surface"),
            Platform::Android => Some("VK_KHR_android_surface"),
            Platform::Windows => Some("VK_KHR_win32_surface"),
            Platform::Other => None::<&'static str>,
        },
{
    match platform {
        Platform::Linux => Some("VK_KHR_xcb_surface"),
        Platform::Android => Some("VK_KHR_android_surface"),
        Platform::Windows => Some("VK_KHR_win32_surface"),
        Platform::Other => None,
    }
}

/// The extensions to enable: the surface extension, the platform's, and
/// with checks on the debug report; none where the platform has no surface.
pub fn instance_extensions(platform: Platform, checks: bool) -> (r: Option<Vec<&'static str>>)
    ensures
        match r {
            Some(v) => {
                &&& platform != Platform::Other
                &&& v@.len() == if checks {
                    3nat
                } else {
                    2nat
                }
                &&& v@[0] == "VK_KHR_surface"
                &&& Some(v@[1]) == surface_extension_spec(platform)
                &&& checks ==> v@[2] == "VK_EXT_debug_report"
            },
            None => platform == Platform::Other,
        },
{
    let s2 = match surface_extension(platform) {
        Some(s) => s,
        None => {
            return None;
        },
    };
    let mut v: Vec<&'static str> = Vec::new();
    v.push("VK_KHR_surface");
    v.push(s2);
    if checks {
        v.push("VK_EXT_debug_report");
    }
    Some(v)
}

pub open spec fn surface_extension_spec(platform: Platform) -> Option<&'static str> {
    match platform {
        Platform::Linux => Some("VK_KHR_xcb_surface"),
        Platform::Android => Some("VK_KHR_android_surface"),
        Platform::Windows => Some("VK_KHR_win32_surface"),
        Platform::Other => None,
    }
}

} // verus!
