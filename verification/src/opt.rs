//! The shapes of the command-line commands: inert data an argument parser
//! fills and the command dispatcher reads.

use vstd::prelude::*;

verus! {

/// The parsed command line: one subcommand.
pub struct Opts {
    pub subcmd: SubCmd,
}

/// The subcommands the tool offers.
pub enum SubCmd {
    Config(Config),
    Device(DeviceOpt),
    Alarm(AlarmOpt),
    Decrypt(DecryptOpt),
}

/// Arguments of the configuration subcommand.
pub struct Config {
    pub key: String,
    pub secret: String,
    pub default_device: Option<String>,
}

/// What the device subcommand should do.
pub enum DeviceAction {
    List,
    Info,
}

/// Arguments of the device subcommand.
pub struct DeviceOpt {
    pub serial: Option<String>,
    pub action: DeviceAction,
}

/// Arguments of the alarm subcommand. The time bounds are strings in the
/// format `yyyy-mm-dd HH:MM:ss`, parsed by the caller.
pub struct AlarmOpt {
    pub serial: Option<String>,
    pub start: Option<String>,
    pub end: Option<String>,
}

/// Arguments of the decrypt subcommand.
pub struct DecryptOpt {
    pub file: String,
    pub code: String,
}

} // verus!
