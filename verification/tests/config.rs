use autobright::config::{
    config_home, config_path, Config, ConfigError, DisplayTarget, Settings, DEFAULT_DIVIDE,
    DEFAULT_INTERVAL, DEFAULT_MAXIMUM, DEFAULT_MINIMUM, DEFAULT_OFFSET,
};

fn bare(sensor: &str) -> Config {
    Config {
        default_offset: None,
        interval: None,
        divide: None,
        sensor: String::from(sensor),
        displays: Vec::new(),
        minimum: None,
        maximum: None,
    }
}

#[test]
fn defaults_stand_in_for_what_is_absent() {
    let settings = Settings::from_config(bare("/sys/bus/iio/devices/iio:device0/in_illuminance_raw")).unwrap();
    assert_eq!(settings.interval(), 5);
    assert_eq!(settings.default_offset(), 0);
    assert_eq!(settings.divide(), 1);
    assert_eq!(settings.minimum(), 0);
    assert_eq!(settings.maximum(), 100);
    assert_eq!(settings.sensor(), "/sys/bus/iio/devices/iio:device0/in_illuminance_raw");
    assert!(settings.displays().is_empty());
}

#[test]
fn default_constants_have_their_values() {
    assert_eq!(DEFAULT_INTERVAL, 5);
    assert_eq!(DEFAULT_OFFSET, 0);
    assert_eq!(DEFAULT_DIVIDE, 1);
    assert_eq!(DEFAULT_MINIMUM, 0);
    assert_eq!(DEFAULT_MAXIMUM, 100);
}

#[test]
fn what_is_present_is_kept() {
    let config = Config {
        default_offset: Some(-15),
        interval: Some(2500),
        divide: Some(12),
        sensor: String::from("/tmp/lux"),
        displays: vec![
            DisplayTarget { cmd: String::from("set-internal") },
            DisplayTarget { cmd: String::from("/usr/local/bin/set-external") },
        ],
        minimum: Some(10),
        maximum: Some(90),
    };
    let settings = Settings::from_config(config).unwrap();
    assert_eq!(settings.interval(), 2500);
    assert_eq!(settings.default_offset(), -15);
    assert_eq!(settings.divide(), 12);
    assert_eq!(settings.minimum(), 10);
    assert_eq!(settings.maximum(), 90);
    assert_eq!(settings.sensor(), "/tmp/lux");
    assert_eq!(
        settings.displays(),
        &vec![
            DisplayTarget { cmd: String::from("set-internal") },
            DisplayTarget { cmd: String::from("/usr/local/bin/set-external") },
        ]
    );
}

#[test]
fn zero_divisor_is_refused() {
    let mut config = bare("/tmp/lux");
    config.divide = Some(0);
    assert_eq!(Settings::from_config(config).err(), Some(ConfigError::ZeroDivide));
}

#[test]
fn negative_divisor_is_refused() {
    let mut config = bare("/tmp/lux");
    config.divide = Some(-1);
    assert_eq!(Settings::from_config(config).err(), Some(ConfigError::NegativeDivide));
    let mut config = bare("/tmp/lux");
    config.divide = Some(i32::MIN);
    assert_eq!(Settings::from_config(config).err(), Some(ConfigError::NegativeDivide));
}

#[test]
fn every_positive_divisor_is_accepted() {
    for divide in [1, 2, 1000, i32::MAX] {
        let mut config = bare("/tmp/lux");
        config.divide = Some(divide);
        assert_eq!(Settings::from_config(config).unwrap().divide(), divide);
    }
}

#[test]
fn bounds_are_not_checked_against_each_other() {
    let mut config = bare("/tmp/lux");
    config.minimum = Some(80);
    config.maximum = Some(20);
    let settings = Settings::from_config(config).unwrap();
    assert_eq!(settings.minimum(), 80);
    assert_eq!(settings.maximum(), 20);
}

#[test]
fn xdg_config_home_comes_before_home() {
    assert_eq!(
        config_home(Some(String::from("/home/u/.config")), Some(String::from("/home/u"))),
        Some(String::from("/home/u/.config"))
    );
    assert_eq!(config_home(Some(String::from("/etc/xdg")), None), Some(String::from("/etc/xdg")));
    assert_eq!(config_home(None, Some(String::from("/home/u"))), Some(String::from("/home/u")));
    assert_eq!(config_home(None, None), None);
}

#[test]
fn configuration_file_lies_below_the_home() {
    assert_eq!(config_path("/home/u/.config"), "/home/u/.config/Oceania/autobright.toml");
    assert_eq!(config_path(""), "/Oceania/autobright.toml");
}
