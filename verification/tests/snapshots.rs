use ir_handles::snapshots::{Config, ConfigItem};

#[test]
fn empty_config_has_no_entry_points() {
    let config = Config::empty();
    assert!(config.vertex.is_empty());
    assert!(config.fragment.is_empty());
    assert!(config.compute.is_empty());
    assert!(config.is_empty());
}

#[test]
fn config_with_any_entry_point_is_not_empty() {
    let item = ConfigItem { entry_point: String::from("main"), target_profile: String::from("vs_5_1") };
    let mut vertex = Config::empty();
    vertex.vertex.push(item.clone());
    assert!(!vertex.is_empty());
    let mut fragment = Config::empty();
    fragment.fragment.push(item.clone());
    assert!(!fragment.is_empty());
    let mut compute = Config::empty();
    compute.compute.push(item);
    assert!(!compute.is_empty());
}
