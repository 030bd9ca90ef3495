use bot_core::config::{capacity_from_value, config_from_values, ConfigError, DEFAULT_POOL_CAPACITY};

fn s(t: &str) -> Option<String> {
    Some(t.to_string())
}

#[test]
fn config_defaults() {
    let c = config_from_values(None, None, None, None).ok().unwrap();
    assert_eq!(c.host, "localhost");
    assert_eq!(c.port, 5432);
    assert_eq!(c.user, "postgres");
    assert_eq!(c.dbname, "bot");
}

#[test]
fn config_given_values() {
    let c = config_from_values(s("db.local"), s("6543"), s("ada"), s("dialogues")).ok().unwrap();
    assert_eq!(c.host, "db.local");
    assert_eq!(c.port, 6543);
    assert_eq!(c.user, "ada");
    assert_eq!(c.dbname, "dialogues");
    assert_eq!(config_from_values(None, s("+65535"), None, None).ok().unwrap().port, 65535);
    assert_eq!(config_from_values(None, s("0"), None, None).ok().unwrap().port, 0);
}

#[test]
fn config_invalid_port() {
    for p in ["", "+", "65536", "-1", "54 32", "port", "99999999999999999999999"] {
        assert_eq!(config_from_values(None, s(p), None, None).err(), Some(ConfigError::InvalidPort));
    }
}

#[test]
fn capacity_values() {
    assert_eq!(capacity_from_value(None), DEFAULT_POOL_CAPACITY);
    assert_eq!(capacity_from_value(s("25")), 25);
    assert_eq!(capacity_from_value(s("+3")), 3);
    assert_eq!(capacity_from_value(s("many")), 10);
    assert_eq!(capacity_from_value(s("")), 10);
    assert_eq!(capacity_from_value(s("18446744073709551615")), usize::MAX);
    assert_eq!(capacity_from_value(s("18446744073709551616")), 10);
}
