//! What can go wrong, and what the user is told when it does.

use vstd::prelude::*;

verus! {

/// A peripheral refused a sensor read or a duty write.
#[derive(Clone, Copy, Debug, PartialEq, Eq, Structural)]
pub struct DriverError;

/// The query of an LED request was neither `on` nor `off`.
#[derive(Clone, Copy, Debug, PartialEq, Eq, Structural)]
pub struct InvalidCommand;

/// The background task has exited for good and takes no more commands.
#[derive(Clone, Copy, Debug, PartialEq, Eq, Structural)]
pub struct ChannelClosed;

/// Why an LED request was not accepted.
#[derive(Clone, Copy, Debug, PartialEq, Eq, Structural)]
pub enum LedError {
    /// The query named no command.
    InvalidCommand,
    /// The command was understood, but nobody is left to carry it out.
    ChannelClosed,
}

} // verus!
