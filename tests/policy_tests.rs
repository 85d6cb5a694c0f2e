use btmnr::address::is_valid_address;
use btmnr::policy::{Config, ConfigError};
use btmnr::store::{ConfigManager, ReloadOutcome};

fn policy(timeout: u64, auto_connect: bool, address: &str) -> Config {
    Config {
        inactivity_timeout: timeout,
        auto_connect,
        device_address: address.to_string(),
    }
}

#[test]
fn default_policy_values() {
    let d = Config::default();
    assert_eq!(d.inactivity_timeout, 300);
    assert!(d.auto_connect);
    assert_eq!(d.device_address, "XX:XX:XX:XX:XX:XX");
    assert_eq!(d.validate(), Err(ConfigError::ValidationError));
}

#[test]
fn validate_accepts_canonical_policy() {
    assert_eq!(policy(300, true, "AA:BB:CC:DD:EE:FF").validate(), Ok(()));
    assert_eq!(policy(1, false, "00:1A:7D:DA:71:13").validate(), Ok(()));
}

#[test]
fn validate_rejects_zero_timeout() {
    assert_eq!(
        policy(0, true, "AA:BB:CC:DD:EE:FF").validate(),
        Err(ConfigError::ValidationError)
    );
}

#[test]
fn validate_rejects_malformed_addresses() {
    for bad in [
        "aa:bb:cc:dd:ee:ff",
        "AA-BB-CC-DD-EE-FF",
        "AA:BB:CC:DD:EE:F",
        "AA:BB:CC:DD:EE:FF0",
        "AABB:CC:DD:EE:FF:",
        "GG:BB:CC:DD:EE:FF",
        "",
    ] {
        assert!(!is_valid_address(bad), "{}", bad);
        assert_eq!(
            policy(300, true, bad).validate(),
            Err(ConfigError::ValidationError)
        );
    }
    assert!(is_valid_address("AA:BB:CC:DD:EE:FF"));
}

#[test]
fn save_renders_pretty_json() {
    let text = policy(300, true, "AA:BB:CC:DD:EE:FF").save().unwrap();
    assert_eq!(
        text,
        "{\n  \"inactivity_timeout\": 300,\n  \"auto_connect\": true,\n  \"device_address\": \"AA:BB:CC:DD:EE:FF\"\n}"
    );
    let text = policy(18446744073709551615, false, "01:23:45:67:89:AB").save().unwrap();
    assert!(text.contains("\"inactivity_timeout\": 18446744073709551615,"));
    assert!(text.contains("\"auto_connect\": false,"));
}

#[test]
fn save_rejects_invalid_policy() {
    assert_eq!(
        policy(0, true, "AA:BB:CC:DD:EE:FF").save(),
        Err(ConfigError::ValidationError)
    );
    assert_eq!(Config::default().save(), Err(ConfigError::ValidationError));
}

#[test]
fn load_round_trips_saved_policy() {
    for p in [
        policy(300, true, "AA:BB:CC:DD:EE:FF"),
        policy(600, false, "AA:BB:CC:DD:EE:FF"),
        policy(1, true, "00:00:00:00:00:00"),
        policy(u64::MAX, false, "9F:8E:7D:6C:5B:4A"),
    ] {
        let text = p.save().unwrap();
        assert_eq!(Config::load(Some(text)), Ok(p));
    }
}

#[test]
fn load_accepts_any_key_order_and_spacing() {
    let text = "{\"device_address\":\"AA:BB:CC:DD:EE:FF\",\"auto_connect\":false,\"inactivity_timeout\":45}";
    assert_eq!(
        Config::load(Some(text.to_string())),
        Ok(policy(45, false, "AA:BB:CC:DD:EE:FF"))
    );
}

#[test]
fn load_read_failure_is_io_error() {
    assert_eq!(Config::load(None), Err(ConfigError::IoError));
}

#[test]
fn load_malformed_json_is_validation_error() {
    for text in [
        "{ not json",
        "",
        "[300, true, \"AA:BB:CC:DD:EE:FF\"]",
        "{\"inactivity_timeout\": 300, \"auto_connect\": true}",
        "{\"inactivity_timeout\": \"300\", \"auto_connect\": true, \"device_address\": \"AA:BB:CC:DD:EE:FF\"}",
        "{\"inactivity_timeout\": -5, \"auto_connect\": true, \"device_address\": \"AA:BB:CC:DD:EE:FF\"}",
        "{\"inactivity_timeout\": 0, \"auto_connect\": true, \"device_address\": \"AA:BB:CC:DD:EE:FF\"}",
        "{\"inactivity_timeout\": 300, \"auto_connect\": true, \"device_address\": \"aa:bb:cc:dd:ee:ff\"}",
    ] {
        assert_eq!(
            Config::load(Some(text.to_string())),
            Err(ConfigError::ValidationError),
            "{}",
            text
        );
    }
}

#[test]
fn from_fields_requires_every_field() {
    assert_eq!(
        Config::from_fields(Some(5), Some(true), None),
        Err(ConfigError::ValidationError)
    );
    assert_eq!(
        Config::from_fields(None, Some(true), Some("AA:BB:CC:DD:EE:FF".to_string())),
        Err(ConfigError::ValidationError)
    );
    assert_eq!(
        Config::from_fields(Some(5), Some(true), Some("AA:BB:CC:DD:EE:FF".to_string())),
        Ok(policy(5, true, "AA:BB:CC:DD:EE:FF"))
    );
}

#[test]
fn store_starts_from_default_when_load_fails() {
    let m = ConfigManager::new(Err(ConfigError::IoError));
    assert_eq!(m.get_config(), Config::default());
    assert_eq!(m.get_backup(), Config::default());
    let m = ConfigManager::new(Ok(policy(0, true, "AA:BB:CC:DD:EE:FF")));
    assert_eq!(m.get_config(), Config::default());
}

#[test]
fn store_starts_from_loaded_policy() {
    let p = policy(120, false, "AA:BB:CC:DD:EE:FF");
    let m = ConfigManager::new(Ok(p.clone()));
    assert_eq!(m.get_config(), p);
    assert_eq!(m.get_backup(), p);
}

#[test]
fn failed_reload_keeps_prior_policy() {
    let p = policy(300, true, "AA:BB:CC:DD:EE:FF");
    let mut m = ConfigManager::new(Ok(p.clone()));
    let loaded = Config::load(Some("{\"inactivity_timeout\": 600,".to_string()));
    assert_eq!(loaded, Err(ConfigError::ValidationError));
    assert_eq!(
        m.reload(loaded),
        ReloadOutcome::RolledBack(ConfigError::ValidationError)
    );
    assert_eq!(m.get_config(), p);
    assert_eq!(m.get_backup(), p);
    assert_eq!(
        m.reload(Err(ConfigError::IoError)),
        ReloadOutcome::RolledBack(ConfigError::IoError)
    );
    assert_eq!(m.get_config(), p);
}

#[test]
fn successful_reload_moves_previous_to_backup() {
    let old = policy(300, true, "AA:BB:CC:DD:EE:FF");
    let new = policy(600, false, "AA:BB:CC:DD:EE:FF");
    let mut m = ConfigManager::new(Ok(old.clone()));
    let loaded = Config::load(Some(new.save().unwrap()));
    assert_eq!(m.reload(loaded), ReloadOutcome::Applied);
    assert_eq!(m.get_backup(), old);
    assert_eq!(m.get_config(), new);
    assert_eq!(m.get_config().inactivity_timeout, 600);
    assert_eq!(m.get_config().inactivity_timeout, 600);
}

#[test]
fn failed_reload_after_swap_restores_backup() {
    let old = policy(300, true, "AA:BB:CC:DD:EE:FF");
    let new = policy(600, false, "AA:BB:CC:DD:EE:FF");
    let mut m = ConfigManager::new(Ok(old.clone()));
    assert_eq!(m.reload(Ok(new)), ReloadOutcome::Applied);
    assert_eq!(
        m.reload(Ok(policy(0, true, "AA:BB:CC:DD:EE:FF"))),
        ReloadOutcome::RolledBack(ConfigError::ValidationError)
    );
    assert_eq!(m.get_config(), old);
    assert_eq!(m.get_backup(), old);
}

#[test]
fn error_messages_are_distinct() {
    assert_ne!(ConfigError::IoError.message(), ConfigError::ValidationError.message());
}

#[test]
fn placeholder_never_returns_after_a_file_loaded() {
    let mut m = ConfigManager::new(Err(ConfigError::IoError));
    assert_eq!(m.get_config(), Config::default());
    let first = policy(300, true, "AA:BB:CC:DD:EE:FF");
    assert_eq!(m.reload(Ok(first.clone())), ReloadOutcome::Applied);
    assert_eq!(m.get_config(), first);
    assert_eq!(m.get_backup(), first);
    assert_eq!(
        m.reload(Config::load(Some("{not json".to_string()))),
        ReloadOutcome::RolledBack(ConfigError::ValidationError)
    );
    assert_eq!(m.get_config(), first);
    assert_eq!(m.get_backup(), first);
}
