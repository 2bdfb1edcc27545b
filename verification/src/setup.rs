//! The setup: from a list of devices and the user's answers to settings.
//!
//! The user is asked for the speakers, for the headphones and for the
//! shortcut, in that order. The devices are chosen by their number in the
//! list, counted from one. An answer that is no such number, and the same
//! device twice, end the setup without settings. A shortcut that cannot be
//! parsed is asked for again. `SetupFlow` decides what is asked next; its
//! caller shows the questions and reads the answers.

use crate::audio::AudioDevice;
use crate::config::{Config, ConfigText};
use crate::hotkey::{parse_hotkey, parse_model, HotkeyError, HotkeyFault};
use crate::text::{parse_number, parsed_number, trimmed};
use vstd::prelude::*;
use vstd::string::StringExecFns;

verus! {

/// The least number of devices between which there is anything to switch.
pub const MIN_DEVICES: usize = 2;

/// The shortcut that an empty answer stands for.
pub open spec fn default_hotkey_text() -> Seq<char> {
    "Ctrl+Alt+S"@
}

/// The shortcut that an empty answer stands for.
pub fn default_hotkey() -> (r: String)
    ensures
        r@ == default_hotkey_text(),
{
    String::from_str("Ctrl+Alt+S")
}

/// Why the setup ended without settings.
#[derive(Clone, Copy, Debug, PartialEq, Eq, Structural)]
pub enum SetupError {
    /// There are fewer than two devices.
    TooFewDevices { found: usize },
    /// An answer is not a number.
    NotANumber,
    /// An answer is a number, but not that of a device in the list.
    OutOfRange { number: usize },
    /// The same device was chosen twice.
    SameDevice,
    /// No answer could be read.
    InputClosed,
    /// A position that the setup holds from an earlier answer is not in the
    /// list.
    StaleChoice,
}

/// The position in a list of `count` devices that a number chooses: the
/// number is from 1 to `count`, and chooses the position one below it.
pub open spec fn position_chosen(number: Option<usize>, count: int) -> Result<int, SetupError> {
    match number {
        Some(n) => if 1 <= n <= count {
            Ok(n - 1)
        } else {
            Err(SetupError::OutOfRange { number: n })
        },
        None => Err(SetupError::NotANumber),
    }
}

/// The position in a list of `count` devices that an answer chooses: the
/// answer, trimmed, is read as a number.
pub open spec fn chosen_position(answer: Seq<char>, count: int) -> Result<int, SetupError> {
    position_chosen(parsed_number(trimmed(answer)), count)
}

/// The position that a number chooses in a list of `count` devices.
pub fn position_of(number: Option<usize>, count: usize) -> (r: Result<usize, SetupError>)
    ensures
        match r {
            Ok(i) => position_chosen(number, count as int) == Ok::<int, SetupError>(i as int),
            Err(e) => position_chosen(number, count as int) == Err::<int, SetupError>(e),
        },
{
    match number {
        Some(n) => if n >= 1 && n <= count {
            Ok(n - 1)
        } else {
            Err(SetupError::OutOfRange { number: n })
        },
        None => Err(SetupError::NotANumber),
    }
}

/// The position in a list of `count` devices that an answer chooses.
pub fn device_choice(answer: &str, count: usize) -> (r: Result<usize, SetupError>)
    ensures
        match r {
            Ok(i) => chosen_position(answer@, count as int) == Ok::<int, SetupError>(i as int),
            Err(e) => chosen_position(answer@, count as int) == Err::<int, SetupError>(e),
        },
{
    position_of(parse_number(answer.trim()), count)
}

/// The shortcut text that an answer stands for: the answer trimmed, or the
/// default shortcut where nothing is left of it.
pub open spec fn chosen_hotkey_text(answer: Seq<char>) -> Seq<char> {
    if trimmed(answer).len() == 0 {
        default_hotkey_text()
    } else {
        trimmed(answer)
    }
}

/// The shortcut text that an answer stands for, if it is that of a
/// shortcut, and else what is wrong with it.
pub fn hotkey_choice(answer: &str) -> (r: Result<String, HotkeyError>)
    ensures
        match r {
            Ok(text) => text@ == chosen_hotkey_text(answer@) && parse_model(text@) is Ok,
            Err(e) => parse_model(chosen_hotkey_text(answer@)) == Err::<
                crate::hotkey::HotkeySpec,
                HotkeyFault,
            >(e@),
        },
{
    let written: &str = answer.trim();
    let text: String = if written.unicode_len() == 0 {
        default_hotkey()
    } else {
        written.to_owned()
    };
    match parse_hotkey(text.as_str()) {
        Ok(_) => Ok(text),
        Err(e) => Err(e),
    }
}

/// The question that the user is asked.
#[derive(Clone, Copy, Debug, PartialEq, Eq, Structural)]
pub enum Question {
    /// Which device the speakers are.
    Speakers,
    /// Which device the headphones are.
    Headphones,
    /// Which shortcut toggles between them.
    Hotkey,
}

impl Question {
    /// The words in which the question is asked.
    pub open spec fn wording(self) -> Seq<char> {
        match self {
            Question::Speakers => "Select Speakers (number): "@,
            Question::Headphones => "Select Headphones (number): "@,
            Question::Hotkey => "Enter hotkey (default: Ctrl+Alt+S): "@,
        }
    }

    /// The words in which the question is asked.
    pub fn prompt(self) -> (r: &'static str)
        ensures
            r@ == self.wording(),
    {
        match self {
            Question::Speakers => "Select Speakers (number): ",
            Question::Headphones => "Select Headphones (number): ",
            Question::Hotkey => "Enter hotkey (default: Ctrl+Alt+S): ",
        }
    }
}

/// What has been answered so far; the devices are given by their positions
/// in the list.
#[derive(Clone, Copy, Debug, PartialEq, Eq, Structural)]
pub enum SetupStage {
    AskingSpeakers,
    AskingHeadphones { speakers: usize },
    AskingHotkey { speakers: usize, headphones: usize },
}

impl SetupStage {
    /// The question that is open at this stage.
    pub open spec fn question(self) -> Question {
        match self {
            SetupStage::AskingSpeakers => Question::Speakers,
            SetupStage::AskingHeadphones { .. } => Question::Headphones,
            SetupStage::AskingHotkey { .. } => Question::Hotkey,
        }
    }
}

/// A setup under way: the devices to choose from, and what has been
/// answered.
#[derive(Debug, PartialEq, Eq)]
pub struct SetupFlow {
    pub devices: Vec<AudioDevice>,
    pub stage: SetupStage,
}

/// What comes next in a setup.
#[derive(Debug, PartialEq, Eq)]
pub enum SetupStep {
    /// The question of `flow`'s stage is to be asked.
    Ask { flow: SetupFlow },
    /// The shortcut that was answered is none, for the reason given; it is
    /// to be asked for again.
    AskAgain { refused: HotkeyError, flow: SetupFlow },
    /// The setup is complete, with these settings.
    Finished { config: Config },
    /// The setup is over without settings.
    Cancelled { error: SetupError },
}

/// What comes next in a setup, by content.
pub enum SetupOutcome {
    Ask { stage: SetupStage },
    AskAgain { fault: HotkeyFault, stage: SetupStage },
    Finished { config: ConfigText },
    Cancelled { error: SetupError },
}

impl SetupStep {
    /// The content of the step.
    pub open spec fn outcome(self) -> SetupOutcome {
        match self {
            SetupStep::Ask { flow } => SetupOutcome::Ask { stage: flow.stage },
            SetupStep::AskAgain { refused, flow } => SetupOutcome::AskAgain {
                fault: refused@,
                stage: flow.stage,
            },
            SetupStep::Finished { config } => SetupOutcome::Finished { config: config@ },
            SetupStep::Cancelled { error } => SetupOutcome::Cancelled { error },
        }
    }

    /// The devices that the step goes on with, if it goes on.
    pub open spec fn devices(self) -> Option<Vec<AudioDevice>> {
        match self {
            SetupStep::Ask { flow } => Some(flow.devices),
            SetupStep::AskAgain { flow, .. } => Some(flow.devices),
            _ => None,
        }
    }
}

impl SetupFlow {
    /// The positions that have been chosen are positions in the list, and
    /// they are those of two different endpoints. Every setup that `begin`
    /// and `answer` hand out is so.
    pub open spec fn wf(self) -> bool {
        let count = self.devices@.len();
        match self.stage {
            SetupStage::AskingSpeakers => true,
            SetupStage::AskingHeadphones { speakers } => speakers < count,
            SetupStage::AskingHotkey { speakers, headphones } => {
                &&& speakers < count
                &&& headphones < count
                &&& self.devices@[speakers as int].id@ != self.devices@[headphones as int].id@
            },
        }
    }

    /// What an answer leads to. `None` stands for an answer that could not
    /// be read, which ends the setup. A number of a device leads to the
    /// next question, unless it is the device chosen before; any other
    /// answer to the first two questions ends the setup. A shortcut leads to
    /// the settings, and a text that is none to the same question. A setup
    /// that is not well-formed is ended.
    pub open spec fn answered(self, answer: Option<Seq<char>>) -> SetupOutcome {
        let count = self.devices@.len() as int;
        match answer {
            None => SetupOutcome::Cancelled { error: SetupError::InputClosed },
            Some(line) => match self.stage {
                SetupStage::AskingSpeakers => match chosen_position(line, count) {
                    Ok(i) => SetupOutcome::Ask {
                        stage: SetupStage::AskingHeadphones { speakers: i as usize },
                    },
                    Err(error) => SetupOutcome::Cancelled { error },
                },
                SetupStage::AskingHeadphones { speakers } => match chosen_position(line, count) {
                    Ok(i) => if speakers >= count {
                        SetupOutcome::Cancelled { error: SetupError::StaleChoice }
                    } else if self.devices@[speakers as int].id@ == self.devices@[i].id@ {
                        SetupOutcome::Cancelled { error: SetupError::SameDevice }
                    } else {
                        SetupOutcome::Ask {
                            stage: SetupStage::AskingHotkey { speakers, headphones: i as usize },
                        }
                    },
                    Err(error) => SetupOutcome::Cancelled { error },
                },
                SetupStage::AskingHotkey { speakers, headphones } => if speakers >= count
                    || headphones >= count {
                    SetupOutcome::Cancelled { error: SetupError::StaleChoice }
                } else if self.devices@[speakers as int].id@ == self.devices@[headphones as int].id@ {
                    SetupOutcome::Cancelled { error: SetupError::SameDevice }
                } else {
                    match parse_model(chosen_hotkey_text(line)) {
                        Ok(_) => SetupOutcome::Finished {
                            config: ConfigText {
                                speakers: self.devices@[speakers as int].id@,
                                headphones: self.devices@[headphones as int].id@,
                                hotkey: chosen_hotkey_text(line),
                            },
                        },
                        Err(fault) => SetupOutcome::AskAgain { fault, stage: self.stage },
                    }
                },
            },
        }
    }

    /// Starts a setup with the devices to choose from. With two devices or
    /// more the speakers are asked for; with fewer the setup is over.
    pub fn begin(devices: Vec<AudioDevice>) -> (r: SetupStep)
        ensures
            devices@.len() >= 2 ==> r.outcome() == (SetupOutcome::Ask {
                stage: SetupStage::AskingSpeakers,
            }) && r.devices() == Some(devices),
            devices@.len() < 2 ==> r.outcome() == (SetupOutcome::Cancelled {
                error: SetupError::TooFewDevices { found: devices@.len() as usize },
            }),
            r matches SetupStep::Ask { flow } ==> flow.wf(),
    {
        if devices.len() < MIN_DEVICES {
            SetupStep::Cancelled { error: SetupError::TooFewDevices { found: devices.len() } }
        } else {
            SetupStep::Ask { flow: SetupFlow { devices, stage: SetupStage::AskingSpeakers } }
        }
    }

    /// The question that is open.
    pub fn question(&self) -> (r: Question)
        ensures
            r == self.stage.question(),
    {
        match self.stage {
            SetupStage::AskingSpeakers => Question::Speakers,
            SetupStage::AskingHeadphones { .. } => Question::Headphones,
            SetupStage::AskingHotkey { .. } => Question::Hotkey,
        }
    }

    /// Takes the answer to the open question; `None` where none could be
    /// read. See `answered` for what it leads to. The setup goes on with
    /// the same devices, and settings that come out have two different
    /// endpoints.
    pub fn answer(self, answer: Option<&str>) -> (r: SetupStep)
        ensures
            r.outcome() == self.answered(
                match answer {
                    Some(line) => Some(line@),
                    None => None,
                },
            ),
            r.devices() matches Some(devices) ==> devices == self.devices,
            r matches SetupStep::Ask { flow } ==> flow.wf(),
            r matches SetupStep::AskAgain { flow, .. } ==> flow.wf(),
            r matches SetupStep::Finished { config } ==> config.wf(),
    {
        let line: &str = match answer {
            Some(line) => line,
            None => {
                return SetupStep::Cancelled { error: SetupError::InputClosed };
            },
        };
        let count: usize = self.devices.len();
        match self.stage {
            SetupStage::AskingSpeakers => match device_choice(line, count) {
                Ok(i) => SetupStep::Ask {
                    flow: SetupFlow {
                        devices: self.devices,
                        stage: SetupStage::AskingHeadphones { speakers: i },
                    },
                },
                Err(error) => SetupStep::Cancelled { error },
            },
            SetupStage::AskingHeadphones { speakers } => match device_choice(line, count) {
                Ok(i) => {
                    if speakers >= count {
                        SetupStep::Cancelled { error: SetupError::StaleChoice }
                    } else if self.devices[speakers].id == self.devices[i].id {
                        SetupStep::Cancelled { error: SetupError::SameDevice }
                    } else {
                        SetupStep::Ask {
                            flow: SetupFlow {
                                devices: self.devices,
                                stage: SetupStage::AskingHotkey { speakers, headphones: i },
                            },
                        }
                    }
                },
                Err(error) => SetupStep::Cancelled { error },
            },
            SetupStage::AskingHotkey { speakers, headphones } => {
                if speakers >= count || headphones >= count {
                    SetupStep::Cancelled { error: SetupError::StaleChoice }
                } else if self.devices[speakers].id == self.devices[headphones].id {
                    SetupStep::Cancelled { error: SetupError::SameDevice }
                } else {
                    match hotkey_choice(line) {
                        Ok(text) => {
                            let config = Config {
                                speakers: self.devices[speakers].id.clone(),
                                headphones: self.devices[headphones].id.clone(),
                                hotkey: text,
                            };
                            SetupStep::Finished { config }
                        },
                        Err(refused) => SetupStep::AskAgain { refused, flow: self },
                    }
                }
            },
        }
    }
}

} // verus!
