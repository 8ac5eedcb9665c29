use batteryctl::band::{Band, Thresholds};
use batteryctl::config::{copy_command, copy_names, Config, ConfigKey, ConfigValue, SetError};
use batteryctl::daemon::DaemonConfig;

fn sample() -> Config {
    Config {
        batteries: vec!["BAT0".to_string(), "BAT1".to_string()],
        read_delay_ms: 1000,
        good_capacity: 80,
        okay_capacity: 60,
        bad_capacity: 30,
        critical_capacity: 10,
        good_capacity_handler: Some("good.sh".to_string()),
        okay_capacity_handler: None,
        bad_capacity_handler: Some("bad.sh".to_string()),
        critical_capacity_handler: Some("critical.sh".to_string()),
    }
}

#[test]
fn the_defaults() {
    let config = Config::new();
    assert_eq!(config.batteries, Vec::<String>::new());
    assert_eq!(config.read_delay_ms, 180000);
    assert_eq!(config.good_capacity, 75);
    assert_eq!(config.okay_capacity, 50);
    assert_eq!(config.bad_capacity, 20);
    assert_eq!(config.critical_capacity, 5);
    assert_eq!(config.good_capacity_handler, None);
    assert_eq!(config.okay_capacity_handler, None);
    assert_eq!(config.bad_capacity_handler, None);
    assert_eq!(config.critical_capacity_handler, None);
    assert_eq!(config.thresholds(), Thresholds { good: 75, okay: 50, bad: 20, critical: 5 });
    assert!(config.thresholds().is_valid());
}

#[test]
fn every_setting_can_be_read() {
    let config = sample();
    assert_eq!(
        config.get(ConfigKey::Batteries),
        ConfigValue::Batteries(vec!["BAT0".to_string(), "BAT1".to_string()])
    );
    assert_eq!(config.get(ConfigKey::ReadDelay), ConfigValue::ReadDelay(1000));
    assert_eq!(config.get(ConfigKey::GoodCapacity), ConfigValue::Capacity(80));
    assert_eq!(config.get(ConfigKey::OkayCapacity), ConfigValue::Capacity(60));
    assert_eq!(config.get(ConfigKey::BadCapacity), ConfigValue::Capacity(30));
    assert_eq!(config.get(ConfigKey::CriticalCapacity), ConfigValue::Capacity(10));
    assert_eq!(
        config.get(ConfigKey::GoodCapacityHandler),
        ConfigValue::Handler(Some("good.sh".to_string()))
    );
    assert_eq!(config.get(ConfigKey::OkayCapacityHandler), ConfigValue::Handler(None));
    assert_eq!(
        config.get(ConfigKey::BadCapacityHandler),
        ConfigValue::Handler(Some("bad.sh".to_string()))
    );
    assert_eq!(
        config.get(ConfigKey::CriticalCapacityHandler),
        ConfigValue::Handler(Some("critical.sh".to_string()))
    );
    assert_eq!(config, sample());
}

#[test]
fn numbers_are_set_from_text() {
    let mut config = sample();
    assert_eq!(config.set(ConfigKey::ReadDelay, "250"), Ok(()));
    assert_eq!(config.set(ConfigKey::GoodCapacity, "90"), Ok(()));
    assert_eq!(config.set(ConfigKey::OkayCapacity, "70"), Ok(()));
    assert_eq!(config.set(ConfigKey::BadCapacity, "+40"), Ok(()));
    assert_eq!(config.set(ConfigKey::CriticalCapacity, "015"), Ok(()));
    let expected = Config {
        read_delay_ms: 250,
        good_capacity: 90,
        okay_capacity: 70,
        bad_capacity: 40,
        critical_capacity: 15,
        ..sample()
    };
    assert_eq!(config, expected);
    assert_eq!(config.set(ConfigKey::ReadDelay, "18446744073709551615"), Ok(()));
    assert_eq!(config.read_delay_ms, u64::MAX);
    assert_eq!(config.set(ConfigKey::GoodCapacity, "255"), Ok(()));
    assert_eq!(config.good_capacity, 255);
}

#[test]
fn handlers_are_set_as_they_are() {
    let mut config = sample();
    assert_eq!(config.set(ConfigKey::GoodCapacityHandler, "notify-send good"), Ok(()));
    assert_eq!(config.set(ConfigKey::OkayCapacityHandler, ""), Ok(()));
    assert_eq!(config.set(ConfigKey::BadCapacityHandler, "12"), Ok(()));
    assert_eq!(config.set(ConfigKey::CriticalCapacityHandler, "systemctl suspend"), Ok(()));
    let expected = Config {
        good_capacity_handler: Some("notify-send good".to_string()),
        okay_capacity_handler: Some("".to_string()),
        bad_capacity_handler: Some("12".to_string()),
        critical_capacity_handler: Some("systemctl suspend".to_string()),
        ..sample()
    };
    assert_eq!(config, expected);
}

#[test]
fn what_cannot_be_set_changes_nothing() {
    let mut config = sample();
    assert_eq!(config.set(ConfigKey::Batteries, "BAT2"), Err(SetError::ListUnsupported));
    assert_eq!(config.set(ConfigKey::ReadDelay, "soon"), Err(SetError::NotU64));
    assert_eq!(config.set(ConfigKey::ReadDelay, "-1"), Err(SetError::NotU64));
    assert_eq!(config.set(ConfigKey::ReadDelay, "18446744073709551616"), Err(SetError::NotU64));
    assert_eq!(config.set(ConfigKey::GoodCapacity, "256"), Err(SetError::NotU8));
    assert_eq!(config.set(ConfigKey::OkayCapacity, ""), Err(SetError::NotU8));
    assert_eq!(config.set(ConfigKey::BadCapacity, "2 0"), Err(SetError::NotU8));
    assert_eq!(config.set(ConfigKey::CriticalCapacity, "5%"), Err(SetError::NotU8));
    assert_eq!(config, sample());
}

#[test]
fn set_error_messages() {
    assert_eq!(
        SetError::ListUnsupported.message(),
        "Setting array properties via the CLI isn't supported yet. Edit the configuration file at '~/.config/batteryctl/ instead.'"
    );
    assert_eq!(SetError::NotU64.message(), "The value has to be a valid unsigned 64-bit integer.");
    assert_eq!(SetError::NotU8.message(), "The value has to be a valid unsigned 8-bit integer.");
}

#[test]
fn copies_are_equal() {
    let names = vec!["BAT0".to_string(), "".to_string(), "AC".to_string()];
    assert_eq!(copy_names(&names), names);
    assert_eq!(copy_names(&Vec::new()), Vec::<String>::new());
    assert_eq!(copy_command(&Some("run".to_string())), Some("run".to_string()));
    assert_eq!(copy_command(&None), None);
}

#[test]
fn the_daemon_takes_the_settings_over() {
    let config = sample();
    let settings = DaemonConfig::from_config(&config);
    assert_eq!(settings.batteries, config.batteries);
    assert_eq!(settings.read_delay_ms, 1000);
    assert_eq!(settings.thresholds(), Thresholds { good: 80, okay: 60, bad: 30, critical: 10 });
    assert_eq!(settings.thresholds(), config.thresholds());
    assert_eq!(settings.handler(Band::Good), &Some("good.sh".to_string()));
    assert_eq!(settings.handler(Band::Okay), &None);
    assert_eq!(settings.handler(Band::Bad), &Some("bad.sh".to_string()));
    assert_eq!(settings.handler(Band::Critical), &Some("critical.sh".to_string()));
}
