//! Configuration: the five values the controller needs, loaded from
//! environment-style key/value inputs.
//!
//! Validation happens here, on plain values handed in by the process
//! wrapper: every key is required, and the numeric ones must be
//! unsigned decimals in range. `env_of` is the spec-level definition of
//! the whole load, including which error is reported first.

use vstd::prelude::*;
use crate::parse::{dec_value, digits_of, is_dec_u32, is_dec_u64, is_dec_u8, parse_u32, parse_u64,
    parse_u8};

verus! {

/// One of the required configuration keys.
#[derive(Clone, Copy, Debug, PartialEq, Eq, Structural)]
pub enum ConfigKey {
    TemperatureFile,
    FanPin,
    FanOnTemp,
    FanOffTemp,
    CheckTempInterval,
}

/// A configuration failure, naming the offending key.
#[derive(Clone, Copy, Debug, PartialEq, Eq, Structural)]
pub enum ConfigError {
    /// The key was absent from the inputs.
    Missing(ConfigKey),
    /// The key was present but its value is not an unsigned decimal in
    /// range for its type.
    Malformed(ConfigKey),
}

/// Everything that can go wrong in the controller process, as a tagged
/// union so that callers can tell the fatal causes apart.
#[derive(Clone, Copy, Debug, PartialEq, Eq, Structural)]
pub enum FanError {
    /// Malformed or missing startup input; fatal before the loop starts.
    Config(ConfigError),
    /// GPIO acquisition, read or write failed; fatal, not retried.
    Hardware,
    /// The temperature source could not be opened, read or parsed;
    /// triggers fail-safe de-energization, then is fatal.
    SensorRead,
    /// The termination handler could not be registered; fatal at startup.
    SignalRegistration,
}

impl FanError {
    /// A short human-readable description of the failure.
    pub fn message(&self) -> &'static str {
        match self {
            FanError::Config(ConfigError::Missing(_)) => "missing configuration value",
            FanError::Config(ConfigError::Malformed(_)) => "malformed configuration value",
            FanError::Hardware => "GPIO hardware failure",
            FanError::SensorRead => "temperature sensor read failure",
            FanError::SignalRegistration => "could not register termination handler",
        }
    }
}

/// The immutable configuration of the controller.
#[derive(Debug)]
pub struct Environment {
    /// Path of the file-backed temperature source.
    pub temperature_file: String,
    /// Number of the GPIO output pin that drives the fan.
    pub fan_pin: u8,
    /// Temperature at or above which the fan turns on, whole degrees.
    pub fan_on_temp: u32,
    /// Temperature at or below which the fan turns off, whole degrees.
    pub fan_off_temp: u32,
    /// Delay between temperature checks, whole seconds.
    pub check_temp_interval_secs: u64,
}

/// What loading the configuration from the given raw inputs must
/// produce: each key is checked in a fixed order, absence first, then
/// form; the first failure wins.
pub open spec fn env_of(
    temperature_file: Option<String>,
    fan_pin: Option<Vec<u8>>,
    fan_on_temp: Option<Vec<u8>>,
    fan_off_temp: Option<Vec<u8>>,
    check_temp_interval: Option<Vec<u8>>,
) -> Result<Environment, ConfigError> {
    match temperature_file {
        None => Err(ConfigError::Missing(ConfigKey::TemperatureFile)),
        Some(file) => match fan_pin {
            None => Err(ConfigError::Missing(ConfigKey::FanPin)),
            Some(pin) => if !is_dec_u8(pin@) {
                Err(ConfigError::Malformed(ConfigKey::FanPin))
            } else {
                match fan_on_temp {
                    None => Err(ConfigError::Missing(ConfigKey::FanOnTemp)),
                    Some(on_t) => if !is_dec_u32(on_t@) {
                        Err(ConfigError::Malformed(ConfigKey::FanOnTemp))
                    } else {
                        match fan_off_temp {
                            None => Err(ConfigError::Missing(ConfigKey::FanOffTemp)),
                            Some(off_t) => if !is_dec_u32(off_t@) {
                                Err(ConfigError::Malformed(ConfigKey::FanOffTemp))
                            } else {
                                match check_temp_interval {
                                    None => Err(
                                        ConfigError::Missing(ConfigKey::CheckTempInterval),
                                    ),
                                    Some(iv) => if !is_dec_u64(iv@) {
                                        Err(ConfigError::Malformed(ConfigKey::CheckTempInterval))
                                    } else {
                                        Ok(
                                            Environment {
                                                temperature_file: file,
                                                fan_pin: dec_value(digits_of(pin@)) as u8,
                                                fan_on_temp: dec_value(digits_of(on_t@)) as u32,
                                                fan_off_temp: dec_value(digits_of(off_t@)) as u32,
                                                check_temp_interval_secs: dec_value(
                                                    digits_of(iv@),
                                                ) as u64,
                                            },
                                        )
                                    },
                                }
                            },
                        }
                    },
                }
            },
        },
    }
}

impl Environment {
    /// Validate the raw key/value inputs (`None` marks an absent key)
    /// and build the configuration, or report the first missing or
    /// malformed key.
    pub fn from_values(
        temperature_file: Option<String>,
        fan_pin: Option<Vec<u8>>,
        fan_on_temp: Option<Vec<u8>>,
        fan_off_temp: Option<Vec<u8>>,
        check_temp_interval: Option<Vec<u8>>,
    ) -> (r: Result<Environment, ConfigError>)
        ensures
            r == env_of(temperature_file, fan_pin, fan_on_temp, fan_off_temp, check_temp_interval),
    {
        let file = match temperature_file {
            None => {
                return Err(ConfigError::Missing(ConfigKey::TemperatureFile));
            },
            Some(file) => file,
        };
        let pin_bytes = match fan_pin {
            None => {
                return Err(ConfigError::Missing(ConfigKey::FanPin));
            },
            Some(pin) => pin,
        };
        let pin = match parse_u8(&pin_bytes) {
            None => {
                return Err(ConfigError::Malformed(ConfigKey::FanPin));
            },
            Some(pin) => pin,
        };
        let on_bytes = match fan_on_temp {
            None => {
                return Err(ConfigError::Missing(ConfigKey::FanOnTemp));
            },
            Some(on_t) => on_t,
        };
        let on_temp = match parse_u32(&on_bytes) {
            None => {
                return Err(ConfigError::Malformed(ConfigKey::FanOnTemp));
            },
            Some(on_t) => on_t,
        };
        let off_bytes = match fan_off_temp {
            None => {
                return Err(ConfigError::Missing(ConfigKey::FanOffTemp));
            },
            Some(off_t) => off_t,
        };
        let off_temp = match parse_u32(&off_bytes) {
            None => {
                return Err(ConfigError::Malformed(ConfigKey::FanOffTemp));
            },
            Some(off_t) => off_t,
        };
        let iv_bytes = match check_temp_interval {
            None => {
                return Err(ConfigError::Missing(ConfigKey::CheckTempInterval));
            },
            Some(iv) => iv,
        };
        let interval = match parse_u64(&iv_bytes) {
            None => {
                return Err(ConfigError::Malformed(ConfigKey::CheckTempInterval));
            },
            Some(iv) => iv,
        };
        Ok(
            Environment {
                temperature_file: file,
                fan_pin: pin,
                fan_on_temp: on_temp,
                fan_off_temp: off_temp,
                check_temp_interval_secs: interval,
            },
        )
    }
}

} // verus!
