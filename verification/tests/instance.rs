use enegine::instance::{instance_plan, offers, InstancePlan};

fn names(list: &[&str]) -> Vec<String> {
    list.iter().map(|s| s.to_string()).collect()
}

#[test]
fn offered_names_are_found_whole() {
    let offered = names(&["VK_KHR_surface", "VK_EXT_debug_utils", ""]);
    assert!(offers(&offered, "VK_KHR_surface"));
    assert!(offers(&offered, "VK_EXT_debug_utils"));
    assert!(offers(&offered, ""));
    assert!(!offers(&offered, "VK_EXT_debug"));
    assert!(!offers(&offered, "VK_EXT_debug_utils2"));
    assert!(!offers(&offered, "vk_ext_debug_utils"));
    assert!(!offers(&Vec::new(), "VK_KHR_surface"));
}

#[test]
fn plan_adds_debug_extension_and_validation_layer_where_offered() {
    let plan = instance_plan(
        names(&["VK_KHR_surface", "VK_KHR_xcb_surface"]),
        &names(&["VK_KHR_surface", "VK_KHR_xcb_surface", "VK_EXT_debug_utils"]),
        &names(&["VK_LAYER_MESA_overlay", "VK_LAYER_KHRONOS_validation"]),
    );
    assert_eq!(
        plan,
        InstancePlan {
            api_version: 1 << 22,
            extensions: names(&["VK_KHR_surface", "VK_KHR_xcb_surface", "VK_EXT_debug_utils"]),
            layers: names(&["VK_LAYER_KHRONOS_validation"]),
            debug: true,
        }
    );
}

#[test]
fn plan_asks_for_nothing_that_is_not_offered() {
    let plan = instance_plan(
        names(&["VK_KHR_surface", "VK_KHR_xcb_surface"]),
        &names(&["VK_KHR_surface", "VK_KHR_xcb_surface"]),
        &names(&["VK_LAYER_MESA_overlay"]),
    );
    assert_eq!(
        plan,
        InstancePlan {
            api_version: 1 << 22,
            extensions: names(&["VK_KHR_surface", "VK_KHR_xcb_surface"]),
            layers: Vec::new(),
            debug: false,
        }
    );
    let plan = instance_plan(Vec::new(), &Vec::new(), &Vec::new());
    assert_eq!(
        plan,
        InstancePlan { api_version: 1 << 22, extensions: Vec::new(), layers: Vec::new(), debug: false }
    );
}

#[test]
fn plan_keeps_required_extensions_even_if_not_reported() {
    let plan = instance_plan(
        names(&["VK_KHR_surface"]),
        &names(&["VK_EXT_debug_utils"]),
        &names(&["VK_LAYER_KHRONOS_validation", "VK_LAYER_KHRONOS_validation"]),
    );
    assert_eq!(plan.extensions, names(&["VK_KHR_surface", "VK_EXT_debug_utils"]));
    assert_eq!(plan.layers, names(&["VK_LAYER_KHRONOS_validation"]));
    assert!(plan.debug);
}
