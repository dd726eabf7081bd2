//! The command surface: what a caller may ask of the controller, as plain
//! values.

use vstd::prelude::*;

verus! {

/// The parameters of automatic control, also used by the curve preview.
#[derive(Clone, Copy, Debug, PartialEq, Eq)]
pub struct Auto {
    /// Seconds between two ticks of the control loop.
    pub interval: u64,
    /// Temperature at or above which the fan runs at full speed.
    pub threshold: u16,
    /// Temperature at or below which the fan is off.
    pub target_temperature: u16,
    /// Full speed, in percent.
    pub max_fan_speed: u16,
    /// Seconds between two clear-air purges; 0 switches purging off.
    pub clear_air_interval: u64,
    /// Seconds a purge holds full speed.
    pub clear_air_duration: u64,
}

/// One operation of the controller.
#[derive(Clone, Copy, Debug, PartialEq, Eq)]
pub enum Command {
    /// Adjust the fan speed periodically from the measured temperature.
    Auto(Auto),
    /// Set one fixed speed.
    Fixed {
        /// Requested speed in percent; values above 100 count as 100.
        value: u16,
    },
    /// Print temperature and fan state.
    Info,
    /// Print the speed the curve gives each temperature of the preview range.
    PrintAllSpeeds(Auto),
}

/// A parsed command line.
#[derive(Clone, Copy, Debug, PartialEq, Eq)]
pub struct Args {
    /// The operation asked for.
    pub command: Command,
    /// Whether to log in more detail.
    pub verbose: bool,
}

/// The parameters used where the caller gives none.
pub open spec fn default_auto() -> Auto {
    Auto {
        interval: 5,
        threshold: 70,
        target_temperature: 35,
        max_fan_speed: 100,
        clear_air_interval: 0,
        clear_air_duration: 10,
    }
}

impl Default for Auto {
    fn default() -> (parameters: Auto)
        ensures
            parameters == default_auto(),
    {
        Auto {
            interval: 5,
            threshold: 70,
            target_temperature: 35,
            max_fan_speed: 100,
            clear_air_interval: 0,
            clear_air_duration: 10,
        }
    }
}

} // verus!
