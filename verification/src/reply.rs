//! What a request handler answers.

use crate::seconds::{decimal_digits, push_seconds, seconds_text};
use vstd::prelude::*;
use vstd::string::*;

verus! {

/// The answer to one request.
#[derive(Clone, Copy, Debug, PartialEq, Eq, Structural)]
pub enum Reply {
    /// The countdown was started.
    Started,
    /// The countdown was stopped.
    Stopped,
    /// A minute was added to the remaining seconds.
    MinuteAdded,
    /// A minute was subtracted from the remaining seconds.
    MinuteSubtracted,
    /// The ticking flag as it was read.
    Ticking(bool),
    /// The remaining seconds as they were read.
    RemainingSeconds(u16),
    /// The remaining seconds were set to this value.
    SecondsSet(u16),
    /// The value to set was no number that the counter can hold; nothing
    /// changed.
    WrongArgument,
    /// No value to set was given; nothing changed.
    MissingArgument,
    /// Termination was requested.
    Farewell,
}

impl Reply {
    /// The text of the answer.
    pub open spec fn text_spec(self) -> Seq<char> {
        match self {
            Reply::Started => "Started."@,
            Reply::Stopped => "Stopped."@,
            Reply::MinuteAdded => "Minute added."@,
            Reply::MinuteSubtracted => "Minute subtracted."@,
            Reply::Ticking(ticking) => if ticking {
                "true"@
            } else {
                "false"@
            },
            Reply::RemainingSeconds(seconds) => decimal_digits(seconds as nat),
            Reply::SecondsSet(seconds) => "Set remaining seconds to "@ + decimal_digits(
                seconds as nat,
            ),
            Reply::WrongArgument => "Remaining seconds not changed, wrong argument. Try a positive number."@,
            Reply::MissingArgument => "Remaining seconds not changed, missing argument."@,
            Reply::Farewell => "Good bye!"@,
        }
    }

    /// Does the answer report a change of the state?
    pub open spec fn reports_change(self) -> bool {
        match self {
            Reply::Started
            | Reply::Stopped
            | Reply::MinuteAdded
            | Reply::MinuteSubtracted
            | Reply::SecondsSet(_)
            | Reply::Farewell => true,
            _ => false,
        }
    }

    /// Writes the answer out as the text that the caller receives.
    pub fn text(&self) -> (text: String)
        ensures
            text@ == self.text_spec(),
    {
        match self {
            Reply::Started => String::from_str("Started."),
            Reply::Stopped => String::from_str("Stopped."),
            Reply::MinuteAdded => String::from_str("Minute added."),
            Reply::MinuteSubtracted => String::from_str("Minute subtracted."),
            Reply::Ticking(ticking) => if *ticking {
                String::from_str("true")
            } else {
                String::from_str("false")
            },
            Reply::RemainingSeconds(seconds) => seconds_text(*seconds),
            Reply::SecondsSet(seconds) => {
                let mut text = String::from_str("Set remaining seconds to ");
                push_seconds(&mut text, *seconds);
                text
            },
            Reply::WrongArgument => String::from_str(
                "Remaining seconds not changed, wrong argument. Try a positive number.",
            ),
            Reply::MissingArgument => String::from_str(
                "Remaining seconds not changed, missing argument.",
            ),
            Reply::Farewell => String::from_str("Good bye!"),
        }
    }
}

} // verus!
