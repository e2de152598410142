use signal_wm::config::{initialize_config, Config, ConfigError, GraphicsConfig, ServerConfig, DEFAULT_SERVER_NAME};

fn named(name: &str, vfr: bool) -> Config {
    Config { server: ServerConfig { name: name.to_string(), graphics: GraphicsConfig { vfr } } }
}

#[test]
fn default_config_is_named_after_the_program() {
    let c = Config::default();
    assert_eq!(c.server.name, "signal_wm");
    assert_eq!(DEFAULT_SERVER_NAME, "signal_wm");
    assert!(!c.server.graphics.vfr);
    assert_eq!(ServerConfig::default().name, "signal_wm");
    assert_eq!(GraphicsConfig::default(), GraphicsConfig { vfr: false });
}

#[test]
fn loaded_config_is_kept() {
    let r = initialize_config(Ok(named("desk", true)));
    let c = r.unwrap();
    assert_eq!(c.server.name, "desk");
    assert!(c.server.graphics.vfr);
}

#[test]
fn unreadable_config_falls_back_to_defaults() {
    let err = std::io::Error::new(std::io::ErrorKind::NotFound, "no config.toml");
    let c = initialize_config(Err(ConfigError::Io(err))).unwrap();
    assert_eq!(c.server.name, "signal_wm");
    assert!(!c.server.graphics.vfr);
}

#[test]
fn unparsable_config_is_an_error() {
    let parse_err = toml::from_str::<toml::Value>("server = = 3").unwrap_err();
    let message = parse_err.to_string();
    let r = initialize_config(Err(ConfigError::Deserialize(parse_err)));
    match r {
        Err(ConfigError::Deserialize(e)) => assert_eq!(e.to_string(), message),
        _ => panic!("a parse error must be handed back"),
    }
}

#[test]
fn config_clone_keeps_contents() {
    let c = named("desk", true);
    let d = c.clone();
    assert_eq!(d.server.name, "desk");
    assert!(d.server.graphics.vfr);
}
