//! The build-time choice of how much of a fault is printed.

use vstd::prelude::*;

verus! {

/// Two independent switches, fixed when the firmware is built.
#[derive(Clone, Copy, Debug, PartialEq, Eq, Structural)]
pub struct Config {
    /// Print where the fault was raised.
    pub location: bool,
    /// Print the fault's message.
    pub message: bool,
}

/// The four rendering modes that the two switches select.
#[derive(Clone, Copy, Debug, PartialEq, Eq, Structural)]
pub enum Mode {
    /// Location and message.
    Full,
    /// Location alone.
    LocationOnly,
    /// Message alone.
    MessageOnly,
    /// Neither: a fixed text.
    Minimal,
}

/// The mode that a pair of switches selects.
pub open spec fn mode_of(config: Config) -> Mode {
    if config.location {
        if config.message {
            Mode::Full
        } else {
            Mode::LocationOnly
        }
    } else {
        if config.message {
            Mode::MessageOnly
        } else {
            Mode::Minimal
        }
    }
}

/// The switches that select a mode.
pub open spec fn config_of(mode: Mode) -> Config {
    Config {
        location: mode == Mode::Full || mode == Mode::LocationOnly,
        message: mode == Mode::Full || mode == Mode::MessageOnly,
    }
}

impl Config {
    /// The rendering mode that these switches select.
    pub fn mode(self) -> (mode: Mode)
        ensures
            mode == mode_of(self),
    {
        if self.location {
            if self.message {
                Mode::Full
            } else {
                Mode::LocationOnly
            }
        } else if self.message {
            Mode::MessageOnly
        } else {
            Mode::Minimal
        }
    }
}

impl Mode {
    /// The switches that select this mode.
    pub fn config(self) -> (config: Config)
        ensures
            config == config_of(self),
    {
        match self {
            Mode::Full => Config { location: true, message: true },
            Mode::LocationOnly => Config { location: true, message: false },
            Mode::MessageOnly => Config { location: false, message: true },
            Mode::Minimal => Config { location: false, message: false },
        }
    }
}

/// Switches and modes correspond one to one: every pair of switches selects
/// one mode, and every mode is selected by exactly that pair.
pub proof fn lemma_modes_are_the_switch_pairs(config: Config, mode: Mode)
    ensures
        config_of(mode_of(config)) == config,
        mode_of(config_of(mode)) == mode,
{
}

} // verus!
