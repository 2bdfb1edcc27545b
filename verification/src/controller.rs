//! The controller: what the application does about each event.
//!
//! The application is in one of three modes. While it is running, a request
//! to toggle or to select an output leads to a switch, and what the switch
//! returns decides whether the remembered output changes. A request to
//! reconfigure suspends that until the setup has produced new settings or
//! was cancelled. The controller decides; its caller waits for events, hands
//! them in one at a time, and carries out the action that it gets back.

use crate::audio::SwitchError;
use crate::config::{Config, ConfigText};
use crate::hotkey::{HOTKEY_OPTIONS, HOTKEY_TOGGLE};
use crate::text::same_text;
use vstd::prelude::*;

verus! {

/// Number of the message that reports a pressed shortcut; its parameter is
/// the id under which the shortcut was registered.
pub const WM_HOTKEY: u32 = 0x0312;

/// Number of the message by which another invocation asks for a toggle.
pub const WM_APP_TOGGLE: u32 = 0x8002;

/// Number of the message that asks for the settings to be made anew.
pub const WM_APP_RECONFIGURE: u32 = 0x8003;

/// Number of the message by which another invocation asks for one of the
/// two outputs; its parameter is zero for the headphones and anything else
/// for the speakers.
pub const WM_APP_SELECT: u32 = 0x8004;

/// The mode of the application.
#[derive(Clone, Copy, Debug, PartialEq, Eq, Structural)]
pub enum Mode {
    Running,
    Reconfiguring,
    Exiting,
}

/// The state of the application: its mode, and which of the two outputs it
/// takes to be the default. The latter is what the last successful switch
/// made it, not what the platform says now.
#[derive(Clone, Copy, Debug, PartialEq, Eq, Structural)]
pub struct ApplicationState {
    pub mode: Mode,
    pub current_output_is_speakers: bool,
}

/// An event, as far as the state depends on it.
#[derive(Clone, Copy, Debug, PartialEq, Eq)]
pub enum Signal {
    /// The toggle shortcut was pressed, or another invocation asked for a
    /// toggle.
    ToggleRequested,
    /// Another invocation asked for the speakers or for the headphones.
    SelectRequested { to_speakers: bool },
    /// A switch that the controller had asked for has returned.
    SwitchFinished { to_speakers: bool, outcome: Result<(), SwitchError> },
    /// New settings were asked for.
    ReconfigureRequested,
    /// The setup has produced settings, under which the speakers are or are
    /// not the default output now.
    SetupSucceeded { speakers_active: bool },
    /// The setup was given up.
    SetupCancelled,
    /// The toggle shortcut could not be registered.
    ShortcutUnavailable,
    /// The application was asked to end.
    QuitRequested,
}

/// What the caller of the controller has to do.
#[derive(Clone, Copy, Debug, PartialEq, Eq, Structural)]
pub enum Action {
    /// Nothing.
    Nothing,
    /// Make the speakers, or the headphones, the default output, and hand
    /// back what came of it as `SwitchFinished`.
    Switch { to_speakers: bool },
    /// Show the indicator of this output and play the confirmation cue.
    Announce { is_speakers: bool },
    /// Report that the switch failed; the indicator stays as it is.
    ReportFailure { error: SwitchError },
    /// Unregister both shortcuts and run the setup.
    BeginSetup,
    /// Store the new settings, register both shortcuts again and show the
    /// indicator of this output.
    Resume { is_speakers: bool },
    /// Remove the indicator, unregister all shortcuts and end.
    Shutdown,
}

impl ApplicationState {
    /// The state in which the application starts.
    pub open spec fn initial(speakers_active: bool) -> ApplicationState {
        ApplicationState { mode: Mode::Running, current_output_is_speakers: speakers_active }
    }

    /// The state after an event.
    ///
    /// Running: a switch that succeeded sets the remembered output to the
    /// one switched to, and one that failed changes nothing; a request to
    /// reconfigure leads to `Reconfiguring`; a request to quit, and a
    /// shortcut that cannot be registered, lead to `Exiting`.
    /// Reconfiguring: settings lead back to `Running`, with the output that
    /// is the default under them; a cancelled setup leads to `Exiting`.
    /// Exiting is final. An event that a mode has no use for changes
    /// nothing.
    pub open spec fn next(self, signal: Signal) -> ApplicationState {
        match self.mode {
            Mode::Running => match signal {
                Signal::SwitchFinished { to_speakers, outcome } => if outcome is Ok {
                    ApplicationState { mode: Mode::Running, current_output_is_speakers: to_speakers }
                } else {
                    self
                },
                Signal::ReconfigureRequested => ApplicationState {
                    mode: Mode::Reconfiguring,
                    ..self
                },
                Signal::ShortcutUnavailable => ApplicationState { mode: Mode::Exiting, ..self },
                Signal::QuitRequested => ApplicationState { mode: Mode::Exiting, ..self },
                _ => self,
            },
            Mode::Reconfiguring => match signal {
                Signal::SetupSucceeded { speakers_active } => ApplicationState {
                    mode: Mode::Running,
                    current_output_is_speakers: speakers_active,
                },
                Signal::SetupCancelled => ApplicationState { mode: Mode::Exiting, ..self },
                _ => self,
            },
            Mode::Exiting => self,
        }
    }

    /// What is to be done about an event.
    ///
    /// Running: a toggle asks for a switch to the output that is not the
    /// remembered one, a selection for a switch to the selected one; a
    /// switch that succeeded is announced and one that failed is reported.
    /// Each change of mode has its action. An event that a mode has no use
    /// for asks for nothing.
    pub open spec fn reaction(self, signal: Signal) -> Action {
        match self.mode {
            Mode::Running => match signal {
                Signal::ToggleRequested => Action::Switch {
                    to_speakers: !self.current_output_is_speakers,
                },
                Signal::SelectRequested { to_speakers } => Action::Switch { to_speakers },
                Signal::SwitchFinished { to_speakers, outcome } => match outcome {
                    Ok(_) => Action::Announce { is_speakers: to_speakers },
                    Err(error) => Action::ReportFailure { error },
                },
                Signal::ReconfigureRequested => Action::BeginSetup,
                Signal::ShortcutUnavailable => Action::Shutdown,
                Signal::QuitRequested => Action::Shutdown,
                _ => Action::Nothing,
            },
            Mode::Reconfiguring => match signal {
                Signal::SetupSucceeded { speakers_active } => Action::Resume {
                    is_speakers: speakers_active,
                },
                Signal::SetupCancelled => Action::Shutdown,
                _ => Action::Nothing,
            },
            Mode::Exiting => Action::Nothing,
        }
    }

    /// The state after a toggle whose switch returned `outcome`: after the
    /// request and, if it asked for a switch, the news of how that ended.
    pub open spec fn toggled(self, outcome: Result<(), SwitchError>) -> ApplicationState {
        let asked = self.next(Signal::ToggleRequested);
        match self.reaction(Signal::ToggleRequested) {
            Action::Switch { to_speakers } => asked.next(
                Signal::SwitchFinished { to_speakers, outcome },
            ),
            _ => asked,
        }
    }

    /// The state after one toggle for each of `outcomes`, in order.
    pub open spec fn after_toggles(
        self,
        outcomes: Seq<Result<(), SwitchError>>,
    ) -> ApplicationState
        decreases outcomes.len(),
    {
        if outcomes.len() == 0 {
            self
        } else {
            self.after_toggles(outcomes.drop_last()).toggled(outcomes.last())
        }
    }

    /// The state and the action that an event leads to.
    pub fn step(self, signal: Signal) -> (r: (ApplicationState, Action))
        ensures
            r.0 == self.next(signal),
            r.1 == self.reaction(signal),
    {
        let cur: bool = self.current_output_is_speakers;
        match self.mode {
            Mode::Running => match signal {
                Signal::ToggleRequested => (self, Action::Switch { to_speakers: !cur }),
                Signal::SelectRequested { to_speakers } => (self, Action::Switch { to_speakers }),
                Signal::SwitchFinished { to_speakers, outcome } => match outcome {
                    Ok(_) => (
                        ApplicationState {
                            mode: Mode::Running,
                            current_output_is_speakers: to_speakers,
                        },
                        Action::Announce { is_speakers: to_speakers },
                    ),
                    Err(error) => (self, Action::ReportFailure { error }),
                },
                Signal::ReconfigureRequested => (
                    ApplicationState { mode: Mode::Reconfiguring, current_output_is_speakers: cur },
                    Action::BeginSetup,
                ),
                Signal::ShortcutUnavailable => (
                    ApplicationState { mode: Mode::Exiting, current_output_is_speakers: cur },
                    Action::Shutdown,
                ),
                Signal::QuitRequested => (
                    ApplicationState { mode: Mode::Exiting, current_output_is_speakers: cur },
                    Action::Shutdown,
                ),
                _ => (self, Action::Nothing),
            },
            Mode::Reconfiguring => match signal {
                Signal::SetupSucceeded { speakers_active } => (
                    ApplicationState {
                        mode: Mode::Running,
                        current_output_is_speakers: speakers_active,
                    },
                    Action::Resume { is_speakers: speakers_active },
                ),
                Signal::SetupCancelled => (
                    ApplicationState { mode: Mode::Exiting, current_output_is_speakers: cur },
                    Action::Shutdown,
                ),
                _ => (self, Action::Nothing),
            },
            Mode::Exiting => (self, Action::Nothing),
        }
    }
}

/// Whether the speakers are the default output, given the id of the default
/// output as far as it could be found out. Where it could not, the speakers
/// are taken to be.
pub open spec fn speakers_active(config: ConfigText, live_default: Option<Seq<char>>) -> bool {
    match live_default {
        Some(id) => id == config.speakers,
        None => true,
    }
}

/// Whether the speakers are the default output. `live_default` is the id of
/// the default output, or `None` where the platform did not tell.
pub fn is_current_speakers(cfg: &Config, live_default: Option<&str>) -> (r: bool)
    ensures
        r == speakers_active(
            cfg@,
            match live_default {
                Some(id) => Some(id@),
                None => None,
            },
        ),
{
    match live_default {
        Some(id) => same_text(id, cfg.speakers.as_str()),
        None => true,
    }
}

/// The event that a message stands for, if it stands for one. `wparam` is
/// the message's first parameter.
pub open spec fn signal_of(message: u32, wparam: usize) -> Option<Signal> {
    if message == WM_HOTKEY {
        if wparam == HOTKEY_TOGGLE {
            Some(Signal::ToggleRequested)
        } else if wparam == HOTKEY_OPTIONS {
            Some(Signal::ReconfigureRequested)
        } else {
            None
        }
    } else if message == WM_APP_TOGGLE {
        Some(Signal::ToggleRequested)
    } else if message == WM_APP_RECONFIGURE {
        Some(Signal::ReconfigureRequested)
    } else if message == WM_APP_SELECT {
        Some(Signal::SelectRequested { to_speakers: wparam != 0 })
    } else {
        None
    }
}

/// The event that a message stands for: a pressed shortcut by the id it was
/// registered under, and the three requests of another invocation. Any
/// other message is none of the controller's.
pub fn signal_of_message(message: u32, wparam: usize) -> (r: Option<Signal>)
    ensures
        r == signal_of(message, wparam),
{
    if message == WM_HOTKEY {
        if wparam == 1 {
            Some(Signal::ToggleRequested)
        } else if wparam == 2 {
            Some(Signal::ReconfigureRequested)
        } else {
            None
        }
    } else if message == WM_APP_TOGGLE {
        Some(Signal::ToggleRequested)
    } else if message == WM_APP_RECONFIGURE {
        Some(Signal::ReconfigureRequested)
    } else if message == WM_APP_SELECT {
        Some(Signal::SelectRequested { to_speakers: wparam != 0 })
    } else {
        None
    }
}

/// An event with all that comes with it.
#[derive(Debug, PartialEq, Eq)]
pub enum Event {
    /// See `Signal::ToggleRequested`.
    ToggleRequested,
    /// See `Signal::SelectRequested`.
    SelectRequested { to_speakers: bool },
    /// See `Signal::SwitchFinished`.
    SwitchFinished { to_speakers: bool, outcome: Result<(), SwitchError> },
    /// See `Signal::ReconfigureRequested`.
    ReconfigureRequested,
    /// The setup has produced `config`. `live_default` is the id of the
    /// default output at that time, or `None` where the platform did not
    /// tell.
    SetupSucceeded { config: Config, live_default: Option<String> },
    /// See `Signal::SetupCancelled`.
    SetupCancelled,
    /// See `Signal::ShortcutUnavailable`.
    ShortcutUnavailable,
    /// See `Signal::QuitRequested`.
    QuitRequested,
}

impl Event {
    /// The event as far as the state depends on it.
    pub open spec fn signal(self) -> Signal {
        match self {
            Event::ToggleRequested => Signal::ToggleRequested,
            Event::SelectRequested { to_speakers } => Signal::SelectRequested { to_speakers },
            Event::SwitchFinished { to_speakers, outcome } => Signal::SwitchFinished {
                to_speakers,
                outcome,
            },
            Event::ReconfigureRequested => Signal::ReconfigureRequested,
            Event::SetupSucceeded { config, live_default } => Signal::SetupSucceeded {
                speakers_active: speakers_active(
                    config@,
                    match live_default {
                        Some(id) => Some(id@),
                        None => None,
                    },
                ),
            },
            Event::SetupCancelled => Signal::SetupCancelled,
            Event::ShortcutUnavailable => Signal::ShortcutUnavailable,
            Event::QuitRequested => Signal::QuitRequested,
        }
    }

    /// The settings that the event brings, if it brings any.
    pub open spec fn settings(self) -> Option<ConfigText> {
        match self {
            Event::SetupSucceeded { config, .. } => Some(config@),
            _ => None,
        }
    }

    /// An event that brings nothing with it.
    pub fn of_signal(signal: Signal) -> (r: Option<Event>)
        ensures
            match r {
                Some(e) => e.signal() == signal && e.settings() is None,
                None => signal is SetupSucceeded,
            },
    {
        match signal {
            Signal::ToggleRequested => Some(Event::ToggleRequested),
            Signal::SelectRequested { to_speakers } => Some(Event::SelectRequested { to_speakers }),
            Signal::SwitchFinished { to_speakers, outcome } => Some(
                Event::SwitchFinished { to_speakers, outcome },
            ),
            Signal::ReconfigureRequested => Some(Event::ReconfigureRequested),
            Signal::SetupSucceeded { .. } => None,
            Signal::SetupCancelled => Some(Event::SetupCancelled),
            Signal::ShortcutUnavailable => Some(Event::ShortcutUnavailable),
            Signal::QuitRequested => Some(Event::QuitRequested),
        }
    }
}

/// The controller: it owns the settings and the state, and nothing else
/// changes them.
#[derive(Debug, PartialEq, Eq)]
pub struct Controller {
    config: Config,
    state: ApplicationState,
}

/// What a controller holds: the content of the settings, and the state.
pub struct ControllerView {
    pub config: ConfigText,
    pub state: ApplicationState,
}

impl View for Controller {
    type V = ControllerView;

    closed spec fn view(&self) -> ControllerView {
        ControllerView { config: self.config@, state: self.state }
    }
}

impl ControllerView {
    /// What the controller holds after `event`. The state changes as
    /// `ApplicationState::next` says. New settings replace the old ones as
    /// a whole, and only when the setup that the controller waits for has
    /// produced them.
    pub open spec fn after(self, event: Event) -> ControllerView {
        ControllerView {
            config: match event.settings() {
                Some(settings) if self.state.mode == Mode::Reconfiguring => settings,
                _ => self.config,
            },
            state: self.state.next(event.signal()),
        }
    }
}

impl Controller {
    /// A controller that starts running under `config`. `live_default` is
    /// the id of the default output, or `None` where the platform did not
    /// tell; it decides once which output is taken to be the current one.
    pub fn start(config: Config, live_default: Option<&str>) -> (r: Controller)
        ensures
            r@.config == config@,
            r@.state == ApplicationState::initial(
                speakers_active(
                    config@,
                    match live_default {
                        Some(id) => Some(id@),
                        None => None,
                    },
                ),
            ),
    {
        let active: bool = is_current_speakers(&config, live_default);
        Controller {
            config,
            state: ApplicationState { mode: Mode::Running, current_output_is_speakers: active },
        }
    }

    /// Takes an event in and says what is to be done about it: see
    /// `ControllerView::after` and `ApplicationState::reaction`.
    pub fn handle(&mut self, event: Event) -> (action: Action)
        ensures
            final(self)@ == old(self)@.after(event),
            action == old(self)@.state.reaction(event.signal()),
    {
        let signal: Signal = match &event {
            Event::ToggleRequested => Signal::ToggleRequested,
            Event::SelectRequested { to_speakers } => Signal::SelectRequested {
                to_speakers: *to_speakers,
            },
            Event::SwitchFinished { to_speakers, outcome } => Signal::SwitchFinished {
                to_speakers: *to_speakers,
                outcome: *outcome,
            },
            Event::ReconfigureRequested => Signal::ReconfigureRequested,
            Event::SetupSucceeded { config, live_default } => {
                let active: bool = match live_default {
                    Some(id) => is_current_speakers(config, Some(id.as_str())),
                    None => is_current_speakers(config, None),
                };
                Signal::SetupSucceeded { speakers_active: active }
            },
            Event::SetupCancelled => Signal::SetupCancelled,
            Event::ShortcutUnavailable => Signal::ShortcutUnavailable,
            Event::QuitRequested => Signal::QuitRequested,
        };
        let accepts: bool = match self.state.mode {
            Mode::Reconfiguring => true,
            _ => false,
        };
        let (state, action) = self.state.step(signal);
        self.state = state;
        if accepts {
            match event {
                Event::SetupSucceeded { config, live_default: _ } => {
                    self.config = config;
                },
                _ => {},
            }
        }
        action
    }

    /// The state.
    pub fn state(&self) -> (r: ApplicationState)
        ensures
            r == self@.state,
    {
        self.state
    }

    /// The settings.
    pub fn config(&self) -> (r: &Config)
        ensures
            r@ == self@.config,
    {
        &self.config
    }

    /// The endpoint that a switch to the speakers, or to the headphones, is
    /// made to.
    pub fn target(&self, to_speakers: bool) -> (r: &String)
        ensures
            r@ == self@.config.endpoint(to_speakers),
    {
        self.config.endpoint(to_speakers)
    }
}

/// A toggle while running leaves the application running. If its switch
/// succeeded, the remembered output is the other one afterwards; if it
/// failed, the state is what it was.
pub proof fn lemma_toggle(s: ApplicationState, outcome: Result<(), SwitchError>)
    requires
        s.mode == Mode::Running,
    ensures
        s.toggled(outcome).mode == Mode::Running,
        outcome is Ok ==> s.toggled(outcome).current_output_is_speakers
            != s.current_output_is_speakers,
        outcome is Err ==> s.toggled(outcome) == s,
{
}

/// Any number of toggles leaves a running application running.
pub proof fn lemma_toggles_keep_running(
    s: ApplicationState,
    outcomes: Seq<Result<(), SwitchError>>,
)
    requires
        s.mode == Mode::Running,
    ensures
        s.after_toggles(outcomes).mode == Mode::Running,
    decreases outcomes.len(),
{
    if outcomes.len() > 0 {
        lemma_toggles_keep_running(s, outcomes.drop_last());
        lemma_toggle(s.after_toggles(outcomes.drop_last()), outcomes.last());
    }
}

/// In any sequence of toggles of a running application, each toggle whose
/// switch succeeded changes the remembered output to the other one, and
/// each toggle whose switch failed leaves the state as it was: the state
/// after the first `k + 1` toggles is compared with that after the first
/// `k`.
pub proof fn lemma_toggles_alternate(
    s: ApplicationState,
    outcomes: Seq<Result<(), SwitchError>>,
    k: int,
)
    requires
        s.mode == Mode::Running,
        0 <= k < outcomes.len(),
    ensures
        ({
            let before = s.after_toggles(outcomes.take(k));
            let after = s.after_toggles(outcomes.take(k + 1));
            &&& before.mode == Mode::Running
            &&& after.mode == Mode::Running
            &&& outcomes[k] is Ok ==> after.current_output_is_speakers
                != before.current_output_is_speakers
            &&& outcomes[k] is Err ==> after == before
        }),
{
    let upto = outcomes.take(k + 1);
    assert(upto.drop_last() =~= outcomes.take(k));
    assert(upto.last() == outcomes[k]);
    lemma_toggles_keep_running(s, outcomes.take(k));
    lemma_toggle(s.after_toggles(outcomes.take(k)), outcomes[k]);
}

/// Two toggles whose switches both succeed lead back: the state is the one
/// before them, so the endpoint that is taken to be the default is the same
/// as before, and in between it is the other of the two.
pub proof fn lemma_toggle_round_trip(s: ApplicationState, config: ConfigText)
    requires
        s.mode == Mode::Running,
    ensures
        s.toggled(Ok(())).toggled(Ok(())) == s,
        config.endpoint(s.toggled(Ok(())).toggled(Ok(())).current_output_is_speakers)
            == config.endpoint(s.current_output_is_speakers),
        config.endpoint(s.toggled(Ok(())).current_output_is_speakers) == config.endpoint(
            !s.current_output_is_speakers,
        ),
        s.reaction(Signal::ToggleRequested) == (Action::Switch {
            to_speakers: !s.current_output_is_speakers,
        }),
        s.toggled(Ok(())).reaction(Signal::ToggleRequested) == (Action::Switch {
            to_speakers: s.current_output_is_speakers,
        }),
{
}

/// The ways between the modes. `Reconfiguring` is entered from `Running`
/// alone, by a request to reconfigure. It is left for `Running` by a setup
/// that succeeded and for `Exiting` by one that was cancelled, which never
/// leads back to `Running`. `Running` is entered from `Reconfiguring`
/// alone, and `Exiting` is never left.
pub proof fn lemma_mode_changes(s: ApplicationState, signal: Signal)
    ensures
        s.next(signal).mode == Mode::Reconfiguring && s.mode != Mode::Reconfiguring ==> s.mode
            == Mode::Running && signal == Signal::ReconfigureRequested,
        s.mode == Mode::Reconfiguring ==> s.next(Signal::SetupCancelled).mode == Mode::Exiting,
        s.next(Signal::SetupCancelled).mode == Mode::Running ==> s.mode == Mode::Running,
        s.next(signal).mode == Mode::Running && s.mode != Mode::Running ==> s.mode
            == Mode::Reconfiguring && signal is SetupSucceeded,
        s.mode == Mode::Exiting ==> s.next(signal) == s && s.reaction(signal) == Action::Nothing,
{
}

} // verus!
