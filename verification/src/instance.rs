//! Choosing instance extensions and validation layers.
//!
//! The windowing system names the instance extensions it needs; the
//! instance creation checks them against what the driver offers, works
//! around a windowing quirk, and turns validation layers on when they are
//! available.

use vstd::prelude::*;
use crate::device_selection::contains_str;
use crate::device_selection::str_seq_contains;
use crate::device_selection::supports_all_extensions;
use crate::surface::SurfaceError;

verus! {

/// Why creating the instance failed: a required extension the driver does
/// not offer, an API result code, a loader failure, or a surface error.
#[derive(Debug, Clone)]
pub enum InstanceError {
    MissingExtension(String),
    VkError(i32),
    VkInstanceLoadError,
    Surface(SurfaceError),
}

/// How many extensions `choose_instance_extensions` adds beyond the
/// required ones: the Xlib workaround and the debug-utils extension.
pub open spec fn extra_extension_count(required: Seq<String>, use_validation: bool) -> int {
    (if needs_xlib_addition(required) {
        1int
    } else {
        0int
    }) + (if use_validation {
        1int
    } else {
        0int
    })
}

/// Check that every required extension is available.  The first missing
/// one is reported.
pub fn check_extensions(required: &Vec<String>, available: &Vec<String>) -> (r: Result<
    (),
    InstanceError,
>)
    ensures
        supports_all_extensions(available@, required@) ==> r is Ok,
        !supports_all_extensions(available@, required@) ==> (r matches Err(
            InstanceError::MissingExtension(m),
        ) && !str_seq_contains(available@, m@) && exists|i: int|
            0 <= i < required@.len() && #[trigger] required@[i]@ == m@),
{
    let n = required.len();
    for i in 0..n
        invariant
            n == required@.len(),
            forall|k: int|
                0 <= k < i ==> str_seq_contains(available@, #[trigger] required@[k]@),
    {
        if !contains_str(available, &required[i]) {
            return Err(InstanceError::MissingExtension(required[i].clone()));
        }
    }
    Ok(())
}

/// The one validation layer the renderer asks for.
pub fn validation_layers() -> (r: Vec<String>)
    ensures
        r@.len() == 1,
        r@[0]@ == "VK_LAYER_KHRONOS_validation"@,
{
    let mut v: Vec<String> = Vec::new();
    v.push("VK_LAYER_KHRONOS_validation".to_owned());
    v
}

/// The validation layers to enable: the requested ones when validation is
/// wanted and the driver offers them all, else none.
pub fn choose_validation_layers(use_validation: bool, available_layers: &Vec<String>) -> (r: Vec<
    String,
>)
    ensures
        use_validation && str_seq_contains(available_layers@, "VK_LAYER_KHRONOS_validation"@) ==> (
        r@.len() == 1 && r@[0]@ == "VK_LAYER_KHRONOS_validation"@),
        !(use_validation && str_seq_contains(available_layers@, "VK_LAYER_KHRONOS_validation"@))
            ==> r@.len() == 0,
{
    if use_validation {
        let requested = validation_layers();
        if contains_str(available_layers, &requested[0]) {
            requested
        } else {
            Vec::new()
        }
    } else {
        Vec::new()
    }
}

/// Whether the windowing system asked for the XCB surface extension but
/// not the Xlib one.  Some windowing systems report only XCB while the
/// surface is then created through Xlib, so the Xlib extension is enabled
/// alongside.
pub open spec fn needs_xlib_addition(required: Seq<String>) -> bool {
    str_seq_contains(required, "VK_KHR_xcb_surface"@) && !str_seq_contains(
        required,
        "VK_KHR_xlib_surface"@,
    )
}

/// The instance extensions to enable for the given window requirements:
/// the required ones, the Xlib surface extension when only XCB was named,
/// and the debug-utils extension when validation is wanted.  Fails as
/// [`check_extensions`] does when a required extension is unavailable.
pub fn choose_instance_extensions(
    required_window_extensions: &Vec<String>,
    available: &Vec<String>,
    use_validation: bool,
) -> (r: Result<Vec<String>, InstanceError>)
    ensures
        !supports_all_extensions(available@, required_window_extensions@) ==> (r matches Err(
            InstanceError::MissingExtension(m),
        ) && !str_seq_contains(available@, m@)),
        supports_all_extensions(available@, required_window_extensions@) ==> (r matches Ok(v)
            && v@.len() == required_window_extensions@.len() + extra_extension_count(
            required_window_extensions@,
            use_validation,
        ) && (forall|k: int|
            0 <= k < required_window_extensions@.len() ==> (#[trigger] v@[k])@
                == required_window_extensions@[k]@) && (needs_xlib_addition(
            required_window_extensions@,
        ) ==> v@[required_window_extensions@.len() as int]@ == "VK_KHR_xlib_surface"@) && (
        use_validation ==> v@[v@.len() - 1]@ == "VK_EXT_debug_utils"@)),
{
    match check_extensions(required_window_extensions, available) {
        Err(e) => {
            return Err(e);
        },
        Ok(()) => {},
    }

    let mut instance_extensions: Vec<String> = Vec::new();
    let n = required_window_extensions.len();
    for i in 0..n
        invariant
            n == required_window_extensions@.len(),
            instance_extensions@.len() == i,
            forall|k: int|
                0 <= k < i ==> (#[trigger] instance_extensions@[k])@
                    == required_window_extensions@[k]@,
    {
        instance_extensions.push(required_window_extensions[i].clone());
    }

    let xcb_name: String = "VK_KHR_xcb_surface".to_owned();
    let xlib_name: String = "VK_KHR_xlib_surface".to_owned();
    let has_xcb = contains_str(required_window_extensions, &xcb_name);
    let has_xlib = contains_str(required_window_extensions, &xlib_name);
    if has_xcb && !has_xlib {
        instance_extensions.push(xlib_name);
    }

    if use_validation {
        instance_extensions.push("VK_EXT_debug_utils".to_owned());
    }

    Ok(instance_extensions)
}

} // verus!
