//! Reading a configuration that holds one integer.

use vstd::prelude::*;
use crate::parse::{parse_i32, read_i32, trimmed};

verus! {

/// The failure that the operating system reports for a read: `std::io::Error`.
/// Nothing is known of what is inside; it is carried through as it came.
#[verifier::external_type_specification]
#[verifier::external_body]
pub struct ExIoError(std::io::Error);

/// Why a configuration could not be read.
#[derive(Debug)]
pub enum ConfigError {
    /// The file could not be read; the failure is the one that the read reported.
    FileNotFound(std::io::Error),
    /// The file was read and does not hold an integer.
    InvalidFormat,
}

/// What a configuration yields, given what reading its file gave.
pub open spec fn config_value(contents: Result<String, std::io::Error>) -> Result<
    i32,
    ConfigError,
> {
    match contents {
        Err(failure) => Err(ConfigError::FileNotFound(failure)),
        Ok(text) => match parse_i32(trimmed(text@)) {
            Some(number) => Ok(number),
            None => Err(ConfigError::InvalidFormat),
        },
    }
}

/// Turns what reading the configuration file gave into the configured number.
///
/// A failed read is passed on as `FileNotFound`. Contents that are not a
/// signed 32-bit integer in decimal, white space around it aside, give
/// `InvalidFormat`.
pub fn read_config(contents: Result<String, std::io::Error>) -> (value: Result<i32, ConfigError>)
    ensures
        value == config_value(contents),
{
    match contents {
        Err(failure) => Err(ConfigError::FileNotFound(failure)),
        Ok(text) => match read_i32(text.as_str()) {
            Some(number) => Ok(number),
            None => Err(ConfigError::InvalidFormat),
        },
    }
}

} // verus!
