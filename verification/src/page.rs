//! The pages the service answers with.
//!
//! Every page is one line of text, stamped with the time of the answer and
//! set into a fixed frame of markup.

use vstd::prelude::*;
use vstd::string::StringExecFns;
use crate::command::ActuatorCommand;
use crate::controller::Ack;
use crate::error::{DriverError, LedError};

verus! {

/// The status every page is sent with. A refused command and a failed sensor
/// are told in the page, never in the status.
pub const STATUS_OK: u16 = 200;

/// The markup in front of a page's line.
pub const PAGE_HEAD: &'static str =
    "\n<!DOCTYPE html>\n<html>\n    <head>\n        <meta charset=\"utf-8\">\n        <title>esp-rs web server</title>\n    </head>\n    <body>\n        ";

/// The markup behind a page's line.
pub const PAGE_TAIL: &'static str = "\n    </body>\n</html>\n";

/// Between the time stamp and the message.
pub const STAMP_MARK: &'static str = " ~ ";

/// The greeting of the front page.
pub const HELLO: &'static str = "Hello from mcu!";

/// What stands in front of a temperature.
pub const TEMPERATURE_LABEL: &'static str = "chip temperature: ";

/// The unit behind a temperature.
pub const TEMPERATURE_UNIT: &'static str = "\u{b0}C";

/// What the temperature page says when the sensor could not be read.
pub const SENSOR_FAILED: &'static str = "chip temperature is unavailable (sensor read failed).";

/// The acknowledgment of `TurnOn`.
pub const LED_FADING: &'static str = "The LED is fading in / out ...";

/// The acknowledgment of `TurnOff`.
pub const LED_OFF: &'static str = "The LED is off.";

/// What the LED page says to a query that names no command.
pub const LED_INVALID: &'static str = "Invalid cmd!";

/// What the LED page says once the background task is gone.
pub const LED_UNAVAILABLE: &'static str = "The LED is unavailable (its driver failed).";

/// A chip temperature in hundredths of a degree Celsius.
#[derive(Clone, Copy, Debug, PartialEq, Eq, Structural)]
pub struct Temperature {
    pub hundredths: i32,
}

/// The character of a single decimal digit.
pub open spec fn digit_char(digit: int) -> char {
    if digit == 0 {
        '0'
    } else if digit == 1 {
        '1'
    } else if digit == 2 {
        '2'
    } else if digit == 3 {
        '3'
    } else if digit == 4 {
        '4'
    } else if digit == 5 {
        '5'
    } else if digit == 6 {
        '6'
    } else if digit == 7 {
        '7'
    } else if digit == 8 {
        '8'
    } else {
        '9'
    }
}

/// A number in decimal, without sign and without leading zeros.
pub open spec fn decimal(number: nat) -> Seq<char>
    decreases number,
{
    if number < 10 {
        seq![digit_char(number as int)]
    } else {
        decimal(number / 10).push(digit_char((number % 10) as int))
    }
}

/// A count of hundredths as a number with two decimals: a minus sign if it
/// is negative, the whole part in decimal, a point and two digits.
pub open spec fn two_decimals(hundredths: int) -> Seq<char> {
    let size: int = if hundredths < 0 {
        -hundredths
    } else {
        hundredths
    };
    let sign: Seq<char> = if hundredths < 0 {
        seq!['-']
    } else {
        Seq::empty()
    };
    sign + decimal((size / 100) as nat) + seq![
        '.',
        digit_char((size / 10) % 10),
        digit_char(size % 10),
    ]
}

/// A page: the frame around one line.
pub open spec fn framed(line: Seq<char>) -> Seq<char> {
    PAGE_HEAD@ + line + PAGE_TAIL@
}

/// A line: the time stamp in decimal, the mark, the message.
pub open spec fn stamped(now: u64, message: Seq<char>) -> Seq<char> {
    decimal(now as nat) + STAMP_MARK@ + message
}

/// The message of the temperature page for a reading or a failed read.
pub open spec fn temperature_message(reading: Result<Temperature, DriverError>) -> Seq<char> {
    match reading {
        Ok(temperature) => TEMPERATURE_LABEL@ + two_decimals(temperature.hundredths as int)
            + TEMPERATURE_UNIT@,
        Err(_) => SENSOR_FAILED@,
    }
}

/// The words that acknowledge a command.
pub open spec fn ack_message(command: ActuatorCommand) -> Seq<char> {
    match command {
        ActuatorCommand::TurnOn => LED_FADING@,
        ActuatorCommand::TurnOff => LED_OFF@,
    }
}

/// The words for a refused LED request.
pub open spec fn refusal_message(error: LedError) -> Seq<char> {
    match error {
        LedError::InvalidCommand => LED_INVALID@,
        LedError::ChannelClosed => LED_UNAVAILABLE@,
    }
}

/// The message of the LED page for each way an LED request can end.
pub open spec fn led_message(outcome: Result<Ack, LedError>) -> Seq<char> {
    match outcome {
        Ok(ack) => ack_message(ack.command),
        Err(error) => refusal_message(error),
    }
}

/// The four messages of the LED page differ from one another, and the
/// temperature page never takes a failed read for a reading.
pub proof fn lemma_messages_differ(temperature: Temperature)
    ensures
        ack_message(ActuatorCommand::TurnOn) != ack_message(ActuatorCommand::TurnOff),
        ack_message(ActuatorCommand::TurnOn) != refusal_message(LedError::InvalidCommand),
        ack_message(ActuatorCommand::TurnOn) != refusal_message(LedError::ChannelClosed),
        ack_message(ActuatorCommand::TurnOff) != refusal_message(LedError::InvalidCommand),
        ack_message(ActuatorCommand::TurnOff) != refusal_message(LedError::ChannelClosed),
        refusal_message(LedError::InvalidCommand) != refusal_message(LedError::ChannelClosed),
        temperature_message(Ok(temperature)) != temperature_message(Err(DriverError)),
{
    reveal_strlit("The LED is fading in / out ...");
    reveal_strlit("The LED is off.");
    reveal_strlit("Invalid cmd!");
    reveal_strlit("The LED is unavailable (its driver failed).");
    reveal_strlit("chip temperature: ");
    reveal_strlit("chip temperature is unavailable (sensor read failed).");
    assert(LED_FADING@.len() == 30);
    assert(LED_OFF@.len() == 15);
    assert(LED_INVALID@.len() == 12);
    assert(LED_UNAVAILABLE@.len() == 43);
    assert(TEMPERATURE_LABEL@.len() == 18);
    assert(TEMPERATURE_LABEL@[16] == ':');
    assert(SENSOR_FAILED@[16] == ' ');
    assert(temperature_message(Ok(temperature))[16] == ':');
}

fn digit_text(digit: u64) -> (text: &'static str)
    requires
        digit < 10,
    ensures
        text@ == seq![digit_char(digit as int)],
{
    proof {
        reveal_strlit("0");
        reveal_strlit("1");
        reveal_strlit("2");
        reveal_strlit("3");
        reveal_strlit("4");
        reveal_strlit("5");
        reveal_strlit("6");
        reveal_strlit("7");
        reveal_strlit("8");
        reveal_strlit("9");
    }
    let text: &'static str = if digit == 0 {
        "0"
    } else if digit == 1 {
        "1"
    } else if digit == 2 {
        "2"
    } else if digit == 3 {
        "3"
    } else if digit == 4 {
        "4"
    } else if digit == 5 {
        "5"
    } else if digit == 6 {
        "6"
    } else if digit == 7 {
        "7"
    } else if digit == 8 {
        "8"
    } else {
        "9"
    };
    assert(text@ =~= seq![digit_char(digit as int)]);
    text
}

/// Writes a number in decimal.
pub fn decimal_text(number: u64) -> (text: String)
    ensures
        text@ == decimal(number as nat),
    decreases number,
{
    if number < 10 {
        String::from_str(digit_text(number))
    } else {
        let mut text: String = decimal_text(number / 10);
        text.append(digit_text(number % 10));
        assert(text@ =~= decimal(number as nat));
        text
    }
}

impl Temperature {
    /// The reading of a sensor that reports `raw` hundredths of a degree.
    ///
    /// A count that does not fit the 32 bits of a temperature cannot come
    /// from a working sensor and is taken for a failed read.
    pub fn from_hundredths(raw: i64) -> (reading: Result<Temperature, DriverError>)
        ensures
            reading == if i32::MIN <= raw <= i32::MAX {
                Ok::<Temperature, DriverError>(Temperature { hundredths: raw as i32 })
            } else {
                Err::<Temperature, DriverError>(DriverError)
            },
    {
        if raw < -2147483648 || raw > 2147483647 {
            Err(DriverError)
        } else {
            Ok(Temperature { hundredths: raw as i32 })
        }
    }

    /// Writes the temperature in degrees with two decimals.
    pub fn to_text(&self) -> (text: String)
        ensures
            text@ == two_decimals(self.hundredths as int),
    {
        let negative: bool = self.hundredths < 0;
        let size: u64 = if negative {
            (-(self.hundredths as i64)) as u64
        } else {
            self.hundredths as u64
        };
        let mut text: String = String::new();
        if negative {
            proof {
                reveal_strlit("-");
            }
            text.append("-");
        }
        let whole: String = decimal_text(size / 100);
        text.append(whole.as_str());
        proof {
            reveal_strlit(".");
        }
        text.append(".");
        text.append(digit_text((size / 10) % 10));
        text.append(digit_text(size % 10));
        assert(text@ =~= two_decimals(self.hundredths as int));
        text
    }
}

impl Ack {
    /// The words that acknowledge the command. They say that the command
    /// was accepted, not that the actuator has followed it.
    pub fn message(&self) -> (words: &'static str)
        ensures
            words@ == ack_message(self.command),
    {
        match self.command {
            ActuatorCommand::TurnOn => LED_FADING,
            ActuatorCommand::TurnOff => LED_OFF,
        }
    }
}

impl LedError {
    /// The words that tell the user why the request was refused.
    pub fn message(&self) -> (words: &'static str)
        ensures
            words@ == refusal_message(*self),
    {
        match self {
            LedError::InvalidCommand => LED_INVALID,
            LedError::ChannelClosed => LED_UNAVAILABLE,
        }
    }
}

/// Sets a line into the frame of a page.
pub fn templated(content: &str) -> (html: String)
    ensures
        html@ == framed(content@),
{
    let mut html: String = String::from_str(PAGE_HEAD);
    html.append(content);
    html.append(PAGE_TAIL);
    html
}

/// Stamps a message with the time and sets it into a page.
pub fn stamped_page(now: u64, message: &str) -> (html: String)
    ensures
        html@ == framed(stamped(now, message@)),
{
    let mut line: String = decimal_text(now);
    line.append(STAMP_MARK);
    line.append(message);
    templated(line.as_str())
}

/// The front page: a greeting with the time.
pub fn index_html(now: u64) -> (html: String)
    ensures
        html@ == framed(stamped(now, HELLO@)),
{
    stamped_page(now, HELLO)
}

/// The temperature page: the reading with two decimals, or the word that
/// the sensor could not be read.
pub fn func_temperature(now: u64, reading: Result<Temperature, DriverError>) -> (html: String)
    ensures
        html@ == framed(stamped(now, temperature_message(reading))),
{
    match reading {
        Ok(temperature) => {
            let mut message: String = String::from_str(TEMPERATURE_LABEL);
            let value: String = temperature.to_text();
            message.append(value.as_str());
            message.append(TEMPERATURE_UNIT);
            stamped_page(now, message.as_str())
        },
        Err(_) => stamped_page(now, SENSOR_FAILED),
    }
}

/// The LED page: the acknowledgment of the command, or the reason why
/// there is none.
pub fn led_html(now: u64, outcome: Result<Ack, LedError>) -> (html: String)
    ensures
        html@ == framed(stamped(now, led_message(outcome))),
{
    let message: &'static str = match outcome {
        Ok(ack) => ack.message(),
        Err(error) => error.message(),
    };
    stamped_page(now, message)
}

} // verus!
