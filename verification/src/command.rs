//! Commands for the actuator, and how a request's query names one.

use vstd::prelude::*;
use crate::error::InvalidCommand;

verus! {

/// What a request asks of the actuator.
#[derive(Clone, Copy, Debug, PartialEq, Eq, Structural)]
pub enum ActuatorCommand {
    /// Start fading in and out.
    TurnOn,
    /// Go dark and stay dark.
    TurnOff,
}

/// The command a query spells, if it spells one: exactly `on` or `off`.
pub open spec fn command_named(query: Seq<char>) -> Option<ActuatorCommand> {
    if query == "on"@ {
        Some(ActuatorCommand::TurnOn)
    } else if query == "off"@ {
        Some(ActuatorCommand::TurnOff)
    } else {
        None
    }
}

/// Reads the query of an LED request.
///
/// Only the literal queries `on` and `off` are commands; every other text,
/// the empty one included, is rejected.
pub fn parse_command(query: &str) -> (parsed: Result<ActuatorCommand, InvalidCommand>)
    ensures
        parsed == match command_named(query@) {
            Some(command) => Ok::<ActuatorCommand, InvalidCommand>(command),
            None => Err::<ActuatorCommand, InvalidCommand>(InvalidCommand),
        },
{
    let given: String = query.to_owned();
    if given == "on".to_owned() {
        Ok(ActuatorCommand::TurnOn)
    } else if given == "off".to_owned() {
        Ok(ActuatorCommand::TurnOff)
    } else {
        Err(InvalidCommand)
    }
}

/// The two command words differ, so no query names both commands, and each
/// command has its word.
pub proof fn lemma_command_words()
    ensures
        command_named("on"@) == Some(ActuatorCommand::TurnOn),
        command_named("off"@) == Some(ActuatorCommand::TurnOff),
        command_named(Seq::<char>::empty()) == None::<ActuatorCommand>,
{
    reveal_strlit("on");
    reveal_strlit("off");
    assert("on"@.len() == 2);
    assert("off"@.len() == 3);
}

} // verus!
