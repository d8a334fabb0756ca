use frame_renderer::layers::{check_validation_layer_support, layer_is_supported, same_name};

fn names(list: &[&str]) -> Vec<Vec<u8>> {
    list.iter().map(|name| name.as_bytes().to_vec()).collect()
}

#[test]
fn all_required_layers_present() {
    let supported = names(&["VK_LAYER_KHRONOS_validation", "VK_LAYER_LUNARG_api_dump"]);
    let required = names(&["VK_LAYER_KHRONOS_validation"]);
    assert!(check_validation_layer_support(&supported, &required));
}

#[test]
fn missing_layer_is_reported() {
    let supported = names(&["VK_LAYER_LUNARG_api_dump"]);
    let required = names(&["VK_LAYER_LUNARG_api_dump", "VK_LAYER_KHRONOS_validation"]);
    assert!(!check_validation_layer_support(&supported, &required));
}

#[test]
fn no_required_layers_is_always_supported() {
    assert!(check_validation_layer_support(&names(&[]), &names(&[])));
    assert!(check_validation_layer_support(&names(&["a"]), &names(&[])));
}

#[test]
fn layer_names_are_compared_byte_for_byte() {
    let supported = names(&["VK_LAYER_KHRONOS_validation"]);
    assert!(!layer_is_supported(&supported, &b"VK_LAYER_KHRONOS_validatio".to_vec()));
    assert!(!layer_is_supported(&supported, &b"vk_layer_khronos_validation".to_vec()));
    assert!(layer_is_supported(&supported, &b"VK_LAYER_KHRONOS_validation".to_vec()));
    assert!(same_name(&Vec::new(), &Vec::new()));
    assert!(!same_name(&b"ab".to_vec(), &b"ac".to_vec()));
    assert!(!same_name(&b"ab".to_vec(), &b"abc".to_vec()));
}
