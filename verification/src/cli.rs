//! The command line: one word that asks for an output.
//!
//! Where the application is already running, the word is passed on to it as
//! a message. Where it is not, the switch is made by the invocation itself.

use crate::audio::SwitchError;
use crate::config::Config;
use crate::controller::{
    is_current_speakers, signal_of, speakers_active, Signal, WM_APP_SELECT, WM_APP_TOGGLE,
};
use crate::text::{chars_of, lowercased, spells};
use vstd::prelude::*;

verus! {

/// What the command line asks for.
#[derive(Clone, Copy, Debug, PartialEq, Eq, Structural)]
pub enum Command {
    /// The speakers.
    Speakers,
    /// The headphones.
    Headphones,
    /// The output that is not the current one.
    Toggle,
}

/// What is to be done about a command.
#[derive(Clone, Copy, Debug, PartialEq, Eq, Structural)]
pub enum CliPlan {
    /// Send the running application this message.
    Message { message: u32, wparam: usize },
    /// Make the speakers, or the headphones, the default output.
    Switch { to_speakers: bool },
    /// Find out which output is the default, and switch to the other.
    Toggle,
}

/// The command that a word in lower case names.
pub open spec fn command_named(word: Seq<char>) -> Option<Command> {
    if word == "speakers"@ {
        Some(Command::Speakers)
    } else if word == "headphones"@ {
        Some(Command::Headphones)
    } else if word == "toggle"@ {
        Some(Command::Toggle)
    } else {
        None
    }
}

impl Command {
    /// The event that the command is for the running application.
    pub open spec fn signal(self) -> Signal {
        match self {
            Command::Speakers => Signal::SelectRequested { to_speakers: true },
            Command::Headphones => Signal::SelectRequested { to_speakers: false },
            Command::Toggle => Signal::ToggleRequested,
        }
    }

    /// What is to be done about the command: with the application running,
    /// the message that stands for it; else the switch itself.
    pub open spec fn planned(self, resident: bool) -> CliPlan {
        if resident {
            match self {
                Command::Speakers => CliPlan::Message { message: WM_APP_SELECT, wparam: 1 },
                Command::Headphones => CliPlan::Message { message: WM_APP_SELECT, wparam: 0 },
                Command::Toggle => CliPlan::Message { message: WM_APP_TOGGLE, wparam: 0 },
            }
        } else {
            match self {
                Command::Speakers => CliPlan::Switch { to_speakers: true },
                Command::Headphones => CliPlan::Switch { to_speakers: false },
                Command::Toggle => CliPlan::Toggle,
            }
        }
    }

    /// The command that a word in lower case names: `speakers`,
    /// `headphones` or `toggle`.
    pub fn named(word: &str) -> (r: Option<Command>)
        ensures
            r == command_named(word@),
    {
        let chars: Vec<char> = chars_of(word);
        if spells(&chars, "speakers") {
            Some(Command::Speakers)
        } else if spells(&chars, "headphones") {
            Some(Command::Headphones)
        } else if spells(&chars, "toggle") {
            Some(Command::Toggle)
        } else {
            None
        }
    }

    /// What is to be done about the command. `resident` says whether the
    /// application is running already.
    pub fn plan(self, resident: bool) -> (r: CliPlan)
        ensures
            r == self.planned(resident),
    {
        if resident {
            match self {
                Command::Speakers => CliPlan::Message { message: WM_APP_SELECT, wparam: 1 },
                Command::Headphones => CliPlan::Message { message: WM_APP_SELECT, wparam: 0 },
                Command::Toggle => CliPlan::Message { message: WM_APP_TOGGLE, wparam: 0 },
            }
        } else {
            match self {
                Command::Speakers => CliPlan::Switch { to_speakers: true },
                Command::Headphones => CliPlan::Switch { to_speakers: false },
                Command::Toggle => CliPlan::Toggle,
            }
        }
    }
}

/// The command that an argument names; the case of its letters does not
/// matter.
pub fn parse_command(arg: &str) -> (r: Option<Command>)
    ensures
        r == command_named(lowercased(arg@)),
{
    let lower: String = arg.to_lowercase();
    Command::named(lower.as_str())
}

/// The endpoint that a toggle switches to: the headphones where the
/// speakers are the default output, and the speakers where they are not.
/// `live_default` is the id of the default output, or `None` where the
/// platform did not tell; the speakers are then taken to be the default.
pub fn toggle_target<'a>(cfg: &'a Config, live_default: Option<&str>) -> (r: &'a String)
    ensures
        r@ == cfg@.endpoint(
            !speakers_active(
                cfg@,
                match live_default {
                    Some(id) => Some(id@),
                    None => None,
                },
            ),
        ),
{
    let active: bool = is_current_speakers(cfg, live_default);
    cfg.endpoint(!active)
}

/// What follows a switch that the invocation has made itself.
#[derive(Clone, Copy, Debug, PartialEq, Eq, Structural)]
pub enum CliFollowUp {
    /// The switch succeeded: play the confirmation cue.
    PlayCue,
    /// The switch failed: report why.
    Report { error: SwitchError },
}

/// What follows a switch that returned `outcome`.
pub fn cli_follow_up(outcome: Result<(), SwitchError>) -> (r: CliFollowUp)
    ensures
        r == match outcome {
            Ok(_) => CliFollowUp::PlayCue,
            Err(error) => CliFollowUp::Report { error },
        },
{
    match outcome {
        Ok(_) => CliFollowUp::PlayCue,
        Err(error) => CliFollowUp::Report { error },
    }
}

/// The message that is sent for a command is read by the running
/// application as the event that the command stands for.
pub proof fn lemma_message_carries_command(command: Command)
    ensures
        command.planned(true) matches CliPlan::Message { message, wparam } && signal_of(
            message,
            wparam,
        ) == Some(command.signal()),
{
}

} // verus!
