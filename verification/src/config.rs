//! Session configuration: the target device path, the baud rate, the debug
//! flag, and the optional source path that enables virtual-link provisioning.

use vstd::prelude::*;

verus! {

/// The immutable configuration of one run.
pub struct Config {
    /// Path of the serial device to open (the target endpoint in
    /// virtual-link mode).
    pub port: String,
    /// Baud rate of the serial link; always positive.
    pub baudrate: u32,
    /// Enables verbose logging of sends, receives and lifecycle events.
    pub debug: bool,
    /// When present, the source endpoint path: the pairing helper is spawned
    /// with this path and `port` as its two linked endpoints.
    pub socat_port: Option<String>,
}

/// Why a configuration was rejected.
#[derive(Clone, Copy, PartialEq, Eq, Structural, Debug)]
pub enum ConfigError {
    /// The baud rate must be a positive integer.
    ZeroBaudRate,
}

impl Config {
    /// A well-formed configuration has a positive baud rate.
    pub open spec fn valid(self) -> bool {
        self.baudrate >= 1
    }

    /// Builds the configuration, rejecting a zero baud rate.
    pub fn new(port: String, baudrate: u32, debug: bool, socat_port: Option<String>) -> (r:
        Result<Config, ConfigError>)
        ensures
            baudrate >= 1 ==> r == Ok::<Config, ConfigError>(
                (Config { port, baudrate, debug, socat_port }),
            ),
            baudrate == 0 ==> r == Err::<Config, ConfigError>(ConfigError::ZeroBaudRate),
            r matches Ok(c) ==> c.valid(),
    {
        if baudrate == 0 {
            Err(ConfigError::ZeroBaudRate)
        } else {
            Ok(Config { port, baudrate, debug, socat_port })
        }
    }
}

} // verus!
