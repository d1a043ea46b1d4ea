use trekanten::instance::check_extensions;
use trekanten::instance::choose_instance_extensions;
use trekanten::instance::choose_validation_layers;
use trekanten::instance::validation_layers;
use trekanten::instance::InstanceError;

fn strings(names: &[&str]) -> Vec<String> {
    names.iter().map(|n| String::from(*n)).collect()
}

#[test]
fn check_extensions_all_available() {
    let required = strings(&["VK_KHR_surface", "VK_KHR_xcb_surface"]);
    let available = strings(&["VK_KHR_surface", "VK_KHR_xcb_surface", "VK_EXT_debug_utils"]);
    assert!(check_extensions(&required, &available).is_ok());
}

#[test]
fn check_extensions_reports_first_missing() {
    let required = strings(&["VK_KHR_surface", "VK_KHR_xcb_surface"]);
    let available = strings(&["VK_KHR_surface"]);
    match check_extensions(&required, &available) {
        Err(InstanceError::MissingExtension(m)) => assert_eq!(m, "VK_KHR_xcb_surface"),
        _ => panic!("expected a missing extension"),
    }
}

#[test]
fn validation_layer_list() {
    let layers = validation_layers();
    assert_eq!(layers, vec![String::from("VK_LAYER_KHRONOS_validation")]);
}

#[test]
fn validation_layers_chosen_when_available() {
    let available = strings(&["VK_LAYER_KHRONOS_validation", "VK_LAYER_other"]);
    let chosen = choose_validation_layers(true, &available);
    assert_eq!(chosen, vec![String::from("VK_LAYER_KHRONOS_validation")]);
}

#[test]
fn validation_layers_empty_when_unavailable_or_disabled() {
    let available = strings(&["VK_LAYER_other"]);
    assert!(choose_validation_layers(true, &available).is_empty());

    let available = strings(&["VK_LAYER_KHRONOS_validation"]);
    assert!(choose_validation_layers(false, &available).is_empty());
}

#[test]
fn instance_extensions_pass_required_through() {
    let required = strings(&["VK_KHR_surface", "VK_KHR_wayland_surface"]);
    let available = strings(&["VK_KHR_surface", "VK_KHR_wayland_surface"]);
    let chosen = choose_instance_extensions(&required, &available, false).expect("extensions");
    assert_eq!(chosen, required);
}

#[test]
fn instance_extensions_add_xlib_beside_xcb() {
    let required = strings(&["VK_KHR_surface", "VK_KHR_xcb_surface"]);
    let available = strings(&["VK_KHR_surface", "VK_KHR_xcb_surface"]);
    let chosen = choose_instance_extensions(&required, &available, false).expect("extensions");
    assert_eq!(
        chosen,
        strings(&["VK_KHR_surface", "VK_KHR_xcb_surface", "VK_KHR_xlib_surface"])
    );
}

#[test]
fn instance_extensions_keep_explicit_xlib() {
    let required = strings(&["VK_KHR_xcb_surface", "VK_KHR_xlib_surface"]);
    let available = required.clone();
    let chosen = choose_instance_extensions(&required, &available, false).expect("extensions");
    assert_eq!(chosen, required);
}

#[test]
fn instance_extensions_add_debug_utils_for_validation() {
    let required = strings(&["VK_KHR_surface"]);
    let available = strings(&["VK_KHR_surface"]);
    let chosen = choose_instance_extensions(&required, &available, true).expect("extensions");
    assert_eq!(chosen, strings(&["VK_KHR_surface", "VK_EXT_debug_utils"]));
}

#[test]
fn instance_extensions_fail_on_missing_requirement() {
    let required = strings(&["VK_KHR_surface", "VK_KHR_xcb_surface"]);
    let available = strings(&["VK_KHR_surface"]);
    let r = choose_instance_extensions(&required, &available, true);
    match r {
        Err(InstanceError::MissingExtension(m)) => assert_eq!(m, "VK_KHR_xcb_surface"),
        _ => panic!("expected a missing extension"),
    }
}
