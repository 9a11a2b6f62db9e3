use vinit::instance::Instance;

#[test]
fn make_version_encodes_major_minor_patch() {
    assert_eq!(Instance::make_version((1, 3, 0)), 4206592);
    assert_eq!(Instance::make_version((1, 0, 0)), 1 << 22);
    assert_eq!(Instance::make_version((0, 0, 1)), 1);
}

#[test]
fn default_instance_plan() {
    let plan = Instance::default().plan();
    assert_eq!(plan.api_version, 1 << 22);
    assert_eq!(plan.application_name, None);
    assert_eq!(plan.application_version, 0);
    assert_eq!(plan.engine_version, 0);
    assert!(plan.enabled_extensions.is_empty());
    assert!(plan.enabled_layers.is_empty());
}

#[test]
fn builder_values_reach_the_plan() {
    let plan = Instance::default()
        .api_version(1, 3, 0)
        .app_name("ChainTest".to_string())
        .app_version(2, 1, 5)
        .engine_name("MyEngine".to_string())
        .engine_version(3, 0, 0)
        .validation(vec!["VK_LAYER_KHRONOS_validation".to_string()])
        .extensions(vec!["VK_KHR_surface".to_string()])
        .plan();
    assert_eq!(plan.api_version, Instance::make_version((1, 3, 0)));
    assert_eq!(plan.application_name, Some("ChainTest".to_string()));
    assert_eq!(plan.application_version, Instance::make_version((2, 1, 5)));
    assert_eq!(plan.engine_version, Instance::make_version((3, 0, 0)));
    assert_eq!(plan.application_version, (2 << 22) | (1 << 12) | 5);
    assert_eq!(plan.engine_name, Some("MyEngine".to_string()));
    assert_eq!(plan.enabled_layers, vec!["VK_LAYER_KHRONOS_validation".to_string()]);
    assert_eq!(plan.enabled_extensions, vec!["VK_KHR_surface".to_string()]);
}

#[test]
fn versions_are_stored_major_minor_patch() {
    let i = Instance::default().app_version(1, 2, 3).engine_version(4, 5, 6);
    assert_eq!(i.app_version, Some((1, 2, 3)));
    assert_eq!(i.engine_version, Some((4, 5, 6)));
}
