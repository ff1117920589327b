use loco::resolve::ConfigError;
use loco::resolve::ConfigField;
use loco::resolve::ConfigLayer;
use loco::resolve::merge_port;
use loco::resolve::merge_string;
use loco::resolve::resolve;

fn empty_layer() -> ConfigLayer {
    ConfigLayer { port: None, dest: None, username: None }
}

#[test]
fn cli_value_wins_over_all() {
    let cli = ConfigLayer {
        port: Some(9),
        dest: Some(String::from("/cli")),
        username: Some(String::from("carol")),
    };
    let env = ConfigLayer {
        port: Some(8),
        dest: Some(String::from("/env")),
        username: Some(String::from("bob")),
    };
    let file = ConfigLayer {
        port: Some(7),
        dest: Some(String::from("/file")),
        username: Some(String::from("alice")),
    };
    let r = resolve(&cli, &env, &file).unwrap();
    assert_eq!(r.port, 9);
    assert_eq!(r.dest, "/cli");
    assert_eq!(r.username, "carol");
}

#[test]
fn env_value_wins_over_file() {
    let cli = empty_layer();
    let env = ConfigLayer { port: Some(8), dest: None, username: None };
    let file = ConfigLayer {
        port: Some(7),
        dest: Some(String::from("/file")),
        username: Some(String::from("alice")),
    };
    let r = resolve(&cli, &env, &file).unwrap();
    assert_eq!(r.port, 8);
    assert_eq!(r.dest, "/file");
    assert_eq!(r.username, "alice");
}

#[test]
fn file_value_kept_when_others_absent() {
    let cli = empty_layer();
    let env = empty_layer();
    let file = ConfigLayer {
        port: Some(7),
        dest: Some(String::from("/file")),
        username: Some(String::from("alice")),
    };
    let r = resolve(&cli, &env, &file).unwrap();
    assert_eq!(r.port, 7);
    assert_eq!(r.dest, "/file");
    assert_eq!(r.username, "alice");
}

#[test]
fn persisted_port_survives_absent_cli_port() {
    let cli = ConfigLayer {
        port: None,
        dest: Some(String::from("/backup")),
        username: Some(String::from("alice")),
    };
    let env = empty_layer();
    let file = ConfigLayer { port: Some(22), dest: None, username: None };
    let r = resolve(&cli, &env, &file).unwrap();
    assert_eq!(r.port, 22);
}

#[test]
fn missing_port_reported() {
    let file = ConfigLayer {
        port: None,
        dest: Some(String::from("/file")),
        username: Some(String::from("alice")),
    };
    let r = resolve(&empty_layer(), &empty_layer(), &file);
    assert_eq!(r, Err(ConfigError::MissingField(ConfigField::Port)));
}

#[test]
fn missing_dest_reported() {
    let file = ConfigLayer { port: Some(22), dest: None, username: Some(String::from("alice")) };
    let r = resolve(&empty_layer(), &empty_layer(), &file);
    assert_eq!(r, Err(ConfigError::MissingField(ConfigField::Dest)));
}

#[test]
fn missing_username_reported() {
    let file = ConfigLayer { port: Some(22), dest: Some(String::from("/file")), username: None };
    let r = resolve(&empty_layer(), &empty_layer(), &file);
    assert_eq!(r, Err(ConfigError::MissingField(ConfigField::Username)));
}

#[test]
fn port_zero_rejected_as_invalid() {
    let file = ConfigLayer {
        port: Some(0),
        dest: Some(String::from("/file")),
        username: Some(String::from("alice")),
    };
    let r = resolve(&empty_layer(), &empty_layer(), &file);
    assert_eq!(r, Err(ConfigError::InvalidPort));
}

#[test]
fn cli_port_zero_rejected_even_with_valid_file_port() {
    let cli = ConfigLayer { port: Some(0), dest: None, username: None };
    let file = ConfigLayer {
        port: Some(22),
        dest: Some(String::from("/file")),
        username: Some(String::from("alice")),
    };
    let r = resolve(&cli, &empty_layer(), &file);
    assert_eq!(r, Err(ConfigError::InvalidPort));
}

#[test]
fn all_fields_missing_reports_port_first() {
    let r = resolve(&empty_layer(), &empty_layer(), &empty_layer());
    assert_eq!(r, Err(ConfigError::MissingField(ConfigField::Port)));
}

#[test]
fn merge_port_layers() {
    assert_eq!(merge_port(&Some(1), &Some(2), &Some(3)), Some(1));
    assert_eq!(merge_port(&None, &Some(2), &Some(3)), Some(2));
    assert_eq!(merge_port(&None, &None, &Some(3)), Some(3));
    assert_eq!(merge_port(&None, &None, &None), None);
}

#[test]
fn merge_string_layers() {
    let a = Some(String::from("a"));
    let b = Some(String::from("b"));
    assert_eq!(merge_string(&a, &b, &None), a);
    assert_eq!(merge_string(&None, &b, &a), b);
    assert_eq!(merge_string(&None, &None, &a), a);
    assert_eq!(merge_string(&None, &None, &None), None);
}
