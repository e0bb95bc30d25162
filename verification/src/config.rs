//! The configuration: the record as it is loaded, and the settings that a run
//! works with once defaults are filled in and the divisor is checked.

use vstd::prelude::*;
use vstd::string::*;

verus! {

/// Milliseconds between two ticks where the configuration names none.
pub const DEFAULT_INTERVAL: u64 = 5;

/// The offset at startup where the configuration names none.
pub const DEFAULT_OFFSET: i32 = 0;

/// The divisor where the configuration names none.
pub const DEFAULT_DIVIDE: i32 = 1;

/// The lower bound of the brightness where the configuration names none.
pub const DEFAULT_MINIMUM: u32 = 0;

/// The upper bound of the brightness where the configuration names none.
pub const DEFAULT_MAXIMUM: u32 = 100;

/// A display: the command that sets its brightness, called with the brightness
/// as its only argument.
#[derive(Clone, Debug, PartialEq, Eq)]
pub struct DisplayTarget {
    pub cmd: String,
}

impl View for DisplayTarget {
    type V = Seq<char>;

    open spec fn view(&self) -> Seq<char> {
        self.cmd@
    }
}

/// The commands of a list of displays, in order.
pub open spec fn commands_of(displays: Seq<DisplayTarget>) -> Seq<Seq<char>> {
    displays.map_values(|display: DisplayTarget| display@)
}

/// The configuration record as loaded; what is optional may be absent.
#[derive(Clone, Debug, PartialEq, Eq)]
pub struct Config {
    pub default_offset: Option<i32>,
    pub interval: Option<u64>,
    pub divide: Option<i32>,
    pub sensor: String,
    pub displays: Vec<DisplayTarget>,
    pub minimum: Option<u32>,
    pub maximum: Option<u32>,
}

/// Why a configuration is refused.
#[derive(Clone, Copy, Debug, PartialEq, Eq, Structural)]
pub enum ConfigError {
    /// The divisor is zero.
    ZeroDivide,
    /// The divisor is negative.
    NegativeDivide,
}

/// The settings of a run. The divisor is at least one.
#[derive(Debug)]
pub struct Settings {
    interval: u64,
    divide: i32,
    sensor: String,
    default_offset: i32,
    minimum: u32,
    maximum: u32,
    displays: Vec<DisplayTarget>,
}

/// What the settings hold, as plain mathematical values.
pub struct SettingsView {
    pub interval: nat,
    pub divide: int,
    pub sensor: Seq<char>,
    pub default_offset: int,
    pub minimum: int,
    pub maximum: int,
    pub displays: Seq<Seq<char>>,
}

impl View for Settings {
    type V = SettingsView;

    closed spec fn view(&self) -> SettingsView {
        SettingsView {
            interval: self.interval as nat,
            divide: self.divide as int,
            sensor: self.sensor@,
            default_offset: self.default_offset as int,
            minimum: self.minimum as int,
            maximum: self.maximum as int,
            displays: commands_of(self.displays@),
        }
    }
}

/// The divisor that a configuration asks for.
pub open spec fn divisor_of(config: Config) -> int {
    match config.divide {
        Some(divide) => divide as int,
        None => DEFAULT_DIVIDE as int,
    }
}

/// The settings that a configuration stands for, or the reason it is refused.
pub open spec fn validated(config: Config) -> Result<SettingsView, ConfigError> {
    if divisor_of(config) == 0 {
        Err(ConfigError::ZeroDivide)
    } else if divisor_of(config) < 0 {
        Err(ConfigError::NegativeDivide)
    } else {
        Ok(
            SettingsView {
                interval: match config.interval {
                    Some(interval) => interval as nat,
                    None => DEFAULT_INTERVAL as nat,
                },
                divide: divisor_of(config),
                sensor: config.sensor@,
                default_offset: match config.default_offset {
                    Some(offset) => offset as int,
                    None => DEFAULT_OFFSET as int,
                },
                minimum: match config.minimum {
                    Some(minimum) => minimum as int,
                    None => DEFAULT_MINIMUM as int,
                },
                maximum: match config.maximum {
                    Some(maximum) => maximum as int,
                    None => DEFAULT_MAXIMUM as int,
                },
                displays: commands_of(config.displays@),
            },
        )
    }
}

impl Settings {
    #[verifier::type_invariant]
    spec fn divisor_is_positive(self) -> bool {
        self.divide >= 1
    }

    /// Fills in the defaults and checks the divisor.
    ///
    /// A divisor of zero or below is refused; every other configuration is
    /// accepted, with `5` ms, offset `0`, divisor `1` and bounds `0` and `100`
    /// standing in for what is absent.
    pub fn from_config(config: Config) -> (settings: Result<Settings, ConfigError>)
        ensures
            match settings {
                Ok(settings) => validated(config) == Ok::<SettingsView, ConfigError>(settings@),
                Err(error) => validated(config) == Err::<SettingsView, ConfigError>(error),
            },
    {
        let divide = match config.divide {
            Some(divide) => divide,
            None => DEFAULT_DIVIDE,
        };
        if divide == 0 {
            return Err(ConfigError::ZeroDivide);
        }
        if divide < 0 {
            return Err(ConfigError::NegativeDivide);
        }
        Ok(
            Settings {
                interval: match config.interval {
                    Some(interval) => interval,
                    None => DEFAULT_INTERVAL,
                },
                divide,
                sensor: config.sensor,
                default_offset: match config.default_offset {
                    Some(offset) => offset,
                    None => DEFAULT_OFFSET,
                },
                minimum: match config.minimum {
                    Some(minimum) => minimum,
                    None => DEFAULT_MINIMUM,
                },
                maximum: match config.maximum {
                    Some(maximum) => maximum,
                    None => DEFAULT_MAXIMUM,
                },
                displays: config.displays,
            },
        )
    }

    /// Milliseconds between two ticks.
    pub fn interval(&self) -> (interval: u64)
        ensures
            interval == self@.interval,
    {
        self.interval
    }

    /// The divisor applied to a sensor reading; at least one.
    pub fn divide(&self) -> (divide: i32)
        ensures
            divide == self@.divide,
            divide >= 1,
    {
        proof {
            use_type_invariant(self);
        }
        self.divide
    }

    /// The path of the sensor's file.
    pub fn sensor(&self) -> (sensor: &str)
        ensures
            sensor@ == self@.sensor,
    {
        self.sensor.as_str()
    }

    /// The offset at startup.
    pub fn default_offset(&self) -> (offset: i32)
        ensures
            offset == self@.default_offset,
    {
        self.default_offset
    }

    /// The lower bound of the brightness.
    pub fn minimum(&self) -> (minimum: u32)
        ensures
            minimum == self@.minimum,
    {
        self.minimum
    }

    /// The upper bound of the brightness.
    pub fn maximum(&self) -> (maximum: u32)
        ensures
            maximum == self@.maximum,
    {
        self.maximum
    }

    /// The displays, in the order in which they are served.
    pub fn displays(&self) -> (displays: &Vec<DisplayTarget>)
        ensures
            commands_of(displays@) == self@.displays,
    {
        &self.displays
    }
}

/// The directory that holds the user's configuration: `xdg_config_home` where it
/// is set, else `home`; `None` where neither is.
pub fn config_home(xdg_config_home: Option<String>, home: Option<String>) -> (dir: Option<String>)
    ensures
        dir == match xdg_config_home {
            Some(dir) => Some(dir),
            None => home,
        },
{
    match xdg_config_home {
        Some(dir) => Some(dir),
        None => home,
    }
}

/// The path of the configuration file below the directory `home`.
pub open spec fn config_path_of(home: Seq<char>) -> Seq<char> {
    home + "/Oceania/autobright.toml"@
}

/// The path of the configuration file below the directory `home`.
pub fn config_path(home: &str) -> (path: String)
    ensures
        path@ == config_path_of(home@),
{
    let mut path = String::from_str(home);
    path.append("/Oceania/autobright.toml");
    path
}

} // verus!
