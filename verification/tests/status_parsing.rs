use waybar_dbus_monitor::cli::Config;
use waybar_dbus_monitor::cli::TypeHandler;

fn config_with_status(status: Option<&str>) -> Config {
    Config {
        interface: "com.example.Test".to_string(),
        monitor: "Changed".to_string(),
        status: status.map(|s| s.to_string()),
        type_handler: TypeHandler::Boolean {
            return_true: "true".to_string(),
            return_false: "false".to_string(),
        },
    }
}

#[test]
fn parses_well_formed_status() {
    let config = config_with_status(Some("svc/path iface prop"));
    let parsed = config.parse_status().unwrap().unwrap();
    assert_eq!(parsed.service, "svc");
    assert_eq!(parsed.object_path, "/path");
    assert_eq!(parsed.interface, "iface");
    assert_eq!(parsed.property, "prop");
}

#[test]
fn parses_deep_object_path() {
    let config = config_with_status(Some("org.example.Svc/org/example/Obj com.example.Iface Enabled"));
    let parsed = config.parse_status().unwrap().unwrap();
    assert_eq!(parsed.service, "org.example.Svc");
    assert_eq!(parsed.object_path, "/org/example/Obj");
    assert_eq!(parsed.interface, "com.example.Iface");
    assert_eq!(parsed.property, "Enabled");
}

#[test]
fn parses_root_object_path() {
    let config = config_with_status(Some("svc/ iface prop"));
    let parsed = config.parse_status().unwrap().unwrap();
    assert_eq!(parsed.service, "svc");
    assert_eq!(parsed.object_path, "/");
}

#[test]
fn ignores_surrounding_whitespace() {
    let config = config_with_status(Some("  svc/path \t iface  prop\n"));
    let parsed = config.parse_status().unwrap().unwrap();
    assert_eq!(parsed.service, "svc");
    assert_eq!(parsed.object_path, "/path");
    assert_eq!(parsed.interface, "iface");
    assert_eq!(parsed.property, "prop");
}

#[test]
fn rejects_missing_slash() {
    let config = config_with_status(Some("svc path iface prop"));
    assert!(config.parse_status().is_err());
    assert!(config.validate().is_err());
}

#[test]
fn rejects_two_tokens() {
    let config = config_with_status(Some("svc/path iface"));
    assert!(config.parse_status().is_err());
}

#[test]
fn rejects_four_tokens() {
    let config = config_with_status(Some("svc/path iface prop extra"));
    assert!(config.parse_status().is_err());
}

#[test]
fn rejects_empty_service() {
    let config = config_with_status(Some("/path iface prop"));
    assert!(config.parse_status().is_err());
}

#[test]
fn accepts_absent_status() {
    let config = config_with_status(None);
    assert!(config.parse_status().unwrap().is_none());
    assert!(config.validate().is_ok());
}
