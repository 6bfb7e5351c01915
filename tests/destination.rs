use cargo_gluegun::config::ConfigValue;
use cargo_gluegun::destination::{
    dest_crate_name_and_path, destination_in, parent_directory, placement_policy, PlacementPolicy,
};
use cargo_gluegun::error::GluegunError;
use cargo_gluegun::package::Package;

fn package(name: &str, manifest: &str) -> Package {
    Package {
        name: name.to_string(),
        manifest_path: manifest.to_string(),
        source: None,
        metadata: ConfigValue::Null,
    }
}

fn policy_config(value: ConfigValue) -> ConfigValue {
    ConfigValue::Object(vec![("destination-path".to_string(), value)])
}

#[test]
fn child_destination_is_inside_package() {
    let d = dest_crate_name_and_path("java", &ConfigValue::Null, &package("foo", "/ws/foo/Cargo.toml"))
        .unwrap();
    assert_eq!(d.crate_name, "foo-java");
    assert_eq!(d.path, "/ws/foo/foo-java");
    let explicit = policy_config(ConfigValue::String("child".to_string()));
    let d = dest_crate_name_and_path("java", &explicit, &package("foo", "/ws/foo/Cargo.toml")).unwrap();
    assert_eq!(d.path, "/ws/foo/foo-java");
}

#[test]
fn sibling_destination_is_beside_package() {
    let config = policy_config(ConfigValue::String("sibling".to_string()));
    let d = dest_crate_name_and_path("java", &config, &package("foo", "/ws/foo/Cargo.toml")).unwrap();
    assert_eq!(d.crate_name, "foo-java");
    assert_eq!(d.path, "/ws/foo-java");
}

#[test]
fn unknown_policy_is_refused() {
    let config = policy_config(ConfigValue::String("cousin".to_string()));
    match dest_crate_name_and_path("java", &config, &package("foo", "/ws/foo/Cargo.toml")) {
        Err(GluegunError::UnsupportedPlacementPolicy { value }) => {
            assert_eq!(value, ConfigValue::String("cousin".to_string()))
        }
        other => panic!("unexpected {:?}", other),
    }
    let config = policy_config(ConfigValue::Bool(true));
    assert!(matches!(
        placement_policy(&config),
        Err(GluegunError::UnsupportedPlacementPolicy { .. })
    ));
}

#[test]
fn missing_parent_is_reported() {
    let config = policy_config(ConfigValue::String("sibling".to_string()));
    match dest_crate_name_and_path("java", &config, &package("foo", "/")) {
        Err(GluegunError::PathComputationFailed { manifest_path }) => assert_eq!(manifest_path, "/"),
        other => panic!("unexpected {:?}", other),
    }
    assert_eq!(parent_directory(PlacementPolicy::Child, "/"), None);
    assert!(matches!(
        destination_in(None, "foo", "java", "/x"),
        Err(GluegunError::PathComputationFailed { .. })
    ));
}

#[test]
fn parent_directory_follows_policy() {
    assert_eq!(parent_directory(PlacementPolicy::Child, "/ws/foo/Cargo.toml"), Some("/ws/foo".to_string()));
    assert_eq!(parent_directory(PlacementPolicy::Sibling, "/ws/foo/Cargo.toml"), Some("/ws".to_string()));
    let d = destination_in(Some("/a/b".to_string()), "pkg", "py", "/a/b/Cargo.toml").unwrap();
    assert_eq!(d.crate_name, "pkg-py");
    assert_eq!(d.path, "/a/b/pkg-py");
}
