use proxid::config::{ConfigBuilder, ConfigLayer, MergedData};

#[test]
fn default_layers_are_defaults_then_environment() {
    let layers = ConfigBuilder::new().layers();
    assert_eq!(layers.len(), 2);
    assert!(matches!(layers[0], ConfigLayer::Defaults));
    match &layers[1] {
        ConfigLayer::Env { prefix, separator } => {
            assert_eq!(prefix, "PROXID__");
            assert_eq!(*separator, "__");
        }
        _ => panic!("environment comes last"),
    }
}

#[test]
fn custom_file_sits_between_defaults_and_environment() {
    let layers = ConfigBuilder::new()
        .with_custom_config(Some(MergedData::File("config/test.toml".to_string())))
        .with_env_prefix("APP__".to_string())
        .layers();
    assert_eq!(layers.len(), 3);
    assert!(matches!(&layers[1], ConfigLayer::TomlFile(p) if p == "config/test.toml"));
    assert!(matches!(&layers[2], ConfigLayer::Env { prefix, .. } if prefix == "APP__"));
}

#[test]
fn custom_content_and_its_removal() {
    let b = ConfigBuilder::new().with_custom_config(Some(MergedData::Content("[server]\nport = 1".to_string())));
    let layers = b.layers();
    assert!(matches!(&layers[1], ConfigLayer::TomlString(c) if c == "[server]\nport = 1"));
    let layers = ConfigBuilder::default()
        .with_custom_config(Some(MergedData::Content(String::new())))
        .with_custom_config(None)
        .layers();
    assert_eq!(layers.len(), 2);
}
