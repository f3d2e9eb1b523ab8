//! The request dispatcher: which route a path names, and what an LED
//! request does.

use vstd::prelude::*;
use crate::command::{command_named, parse_command};
use crate::controller::{submit_outcome, Ack, ActuatorController, ControllerModel};
use crate::error::LedError;
use crate::page::{framed, led_html, led_message, stamped, STATUS_OK};

verus! {

/// The path of the front page.
pub const INDEX_PATH: &'static str = "/";

/// The path of the temperature page.
pub const TEMPERATURE_PATH: &'static str = "/temperature";

/// The path of the LED page.
pub const LED_PATH: &'static str = "/led";

/// The three things the service answers.
#[derive(Clone, Copy, Debug, PartialEq, Eq, Structural)]
pub enum Route {
    /// The greeting.
    Index,
    /// The chip temperature.
    Temperature,
    /// The LED, with a command as the query.
    Led,
}

/// The route a path names, if it names one. Paths are taken to the letter.
pub open spec fn route_named(path: Seq<char>) -> Option<Route> {
    if path == INDEX_PATH@ {
        Some(Route::Index)
    } else if path == TEMPERATURE_PATH@ {
        Some(Route::Temperature)
    } else if path == LED_PATH@ {
        Some(Route::Led)
    } else {
        None
    }
}

/// What an LED request with the given query does to the controller, and how
/// it ends: a query that names no command never reaches the controller; one
/// that names a command is submitted.
pub open spec fn led_outcome(before: ControllerModel, query: Seq<char>) -> (
    ControllerModel,
    Result<Ack, LedError>,
) {
    match command_named(query) {
        None => (before, Err(LedError::InvalidCommand)),
        Some(command) => match submit_outcome(before, command).1 {
            Ok(ack) => (submit_outcome(before, command).0, Ok(ack)),
            Err(_) => (submit_outcome(before, command).0, Err(LedError::ChannelClosed)),
        },
    }
}

impl Route {
    /// The path under which the route is served.
    pub fn path(self) -> (path: &'static str)
        ensures
            route_named(path@) == Some(self),
    {
        proof {
            reveal_strlit("/");
            reveal_strlit("/temperature");
            reveal_strlit("/led");
            assert(INDEX_PATH@.len() == 1);
            assert(TEMPERATURE_PATH@.len() == 12);
            assert(LED_PATH@.len() == 4);
        }
        match self {
            Route::Index => INDEX_PATH,
            Route::Temperature => TEMPERATURE_PATH,
            Route::Led => LED_PATH,
        }
    }
}

/// Finds the route of a request path.
pub fn resolve(path: &str) -> (route: Option<Route>)
    ensures
        route == route_named(path@),
{
    let given: String = path.to_owned();
    if given == INDEX_PATH.to_owned() {
        Some(Route::Index)
    } else if given == TEMPERATURE_PATH.to_owned() {
        Some(Route::Temperature)
    } else if given == LED_PATH.to_owned() {
        Some(Route::Led)
    } else {
        None
    }
}

/// The answer to an LED request.
#[derive(Debug)]
pub struct LedReply {
    /// The status to send: success, however the request ended.
    pub status: u16,
    /// The page to send.
    pub html: String,
    /// Whether the caller must now start the background task.
    pub spawn_task: bool,
}

/// Reads the query of an LED request and submits the command it names, as
/// [`led_outcome`] says.
pub fn submit_query(
    controller: &mut ActuatorController,
    query: &str,
) -> (outcome: Result<Ack, LedError>)
    ensures
        (final(controller)@, outcome) == led_outcome(old(controller)@, query@),
{
    match parse_command(query) {
        Err(_) => Err(LedError::InvalidCommand),
        Ok(command) => match controller.submit(command) {
            Ok(ack) => Ok(ack),
            Err(_) => Err(LedError::ChannelClosed),
        },
    }
}

/// Serves an LED request: submits the command that the query names and
/// renders the page that says how that went. The page reports that the
/// command was accepted, not that the actuator has followed it.
pub fn handle_led(controller: &mut ActuatorController, query: &str, now: u64) -> (reply: LedReply)
    ensures
        final(controller)@ == led_outcome(old(controller)@, query@).0,
        reply.status == STATUS_OK,
        reply.html@ == framed(
            stamped(now, led_message(led_outcome(old(controller)@, query@).1)),
        ),
        reply.spawn_task == (led_outcome(old(controller)@, query@).1 matches Ok(ack)
            && ack.spawn_task),
{
    let outcome: Result<Ack, LedError> = submit_query(controller, query);
    let spawn_task: bool = match outcome {
        Ok(ack) => ack.spawn_task,
        Err(_) => false,
    };
    LedReply { status: STATUS_OK, html: led_html(now, outcome), spawn_task }
}

} // verus!
