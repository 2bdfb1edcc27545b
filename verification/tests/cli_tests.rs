use audio_output_switcher::audio::{Role, SwitchError};
use audio_output_switcher::cli::{
    cli_follow_up, parse_command, toggle_target, CliFollowUp, CliPlan, Command,
};
use audio_output_switcher::config::Config;
use audio_output_switcher::controller::{
    signal_of_message, Signal, WM_APP_SELECT, WM_APP_TOGGLE,
};

#[test]
fn the_three_commands_are_known_in_any_case() {
    assert_eq!(parse_command("speakers"), Some(Command::Speakers));
    assert_eq!(parse_command("headphones"), Some(Command::Headphones));
    assert_eq!(parse_command("toggle"), Some(Command::Toggle));
    assert_eq!(parse_command("SPEAKERS"), Some(Command::Speakers));
    assert_eq!(parse_command("HeadPhones"), Some(Command::Headphones));
    assert_eq!(parse_command("Toggle"), Some(Command::Toggle));
}

#[test]
fn anything_else_is_no_command() {
    for arg in ["", "speaker", " toggle", "toggle ", "--toggle", "headphones!", "on"] {
        assert_eq!(parse_command(arg), None);
    }
}

#[test]
fn commands_are_looked_up_in_lower_case() {
    assert_eq!(Command::named("toggle"), Some(Command::Toggle));
    assert_eq!(Command::named("Toggle"), None);
    assert_eq!(Command::named("SPEAKERS"), None);
}

#[test]
fn a_running_application_is_sent_a_message() {
    assert_eq!(
        Command::Toggle.plan(true),
        CliPlan::Message { message: WM_APP_TOGGLE, wparam: 0 }
    );
    assert_eq!(
        Command::Speakers.plan(true),
        CliPlan::Message { message: WM_APP_SELECT, wparam: 1 }
    );
    assert_eq!(
        Command::Headphones.plan(true),
        CliPlan::Message { message: WM_APP_SELECT, wparam: 0 }
    );
}

#[test]
fn the_message_is_read_as_the_command() {
    let expected = [
        (Command::Toggle, Signal::ToggleRequested),
        (Command::Speakers, Signal::SelectRequested { to_speakers: true }),
        (Command::Headphones, Signal::SelectRequested { to_speakers: false }),
    ];
    for (command, signal) in expected {
        match command.plan(true) {
            CliPlan::Message { message, wparam } => {
                assert_eq!(signal_of_message(message, wparam), Some(signal))
            }
            other => panic!("no message: {:?}", other),
        }
    }
}

#[test]
fn without_a_running_application_the_switch_is_made_here() {
    assert_eq!(Command::Speakers.plan(false), CliPlan::Switch { to_speakers: true });
    assert_eq!(Command::Headphones.plan(false), CliPlan::Switch { to_speakers: false });
    assert_eq!(Command::Toggle.plan(false), CliPlan::Toggle);
}

fn config() -> Config {
    Config { speakers: "spk".to_string(), headphones: "hp".to_string(), hotkey: "S".to_string() }
}

/// The endpoint that the word on the command line leads to a switch to,
/// where the application is not running already.
fn switched_to(word: &str, live_default: Option<&str>) -> Option<String> {
    let cfg = config();
    match parse_command(word)?.plan(false) {
        CliPlan::Switch { to_speakers } => Some(cfg.endpoint(to_speakers).clone()),
        CliPlan::Toggle => Some(toggle_target(&cfg, live_default).clone()),
        CliPlan::Message { .. } => None,
    }
}

#[test]
fn a_toggle_switches_to_the_endpoint_that_is_not_the_default() {
    assert_eq!(toggle_target(&config(), Some("spk")), "hp");
    assert_eq!(toggle_target(&config(), Some("hp")), "spk");
    assert_eq!(toggle_target(&config(), Some("another")), "spk");
    assert_eq!(toggle_target(&config(), Some("")), "spk");
}

#[test]
fn a_toggle_without_a_live_default_switches_to_the_headphones() {
    assert_eq!(toggle_target(&config(), None), "hp");
}

#[test]
fn each_word_leads_to_one_switch_and_any_other_to_none() {
    assert_eq!(switched_to("speakers", Some("hp")), Some("spk".to_string()));
    assert_eq!(switched_to("speakers", Some("spk")), Some("spk".to_string()));
    assert_eq!(switched_to("Headphones", Some("hp")), Some("hp".to_string()));
    assert_eq!(switched_to("headphones", None), Some("hp".to_string()));
    assert_eq!(switched_to("TOGGLE", Some("spk")), Some("hp".to_string()));
    assert_eq!(switched_to("toggle", Some("hp")), Some("spk".to_string()));
    assert_eq!(switched_to("toggle", None), Some("hp".to_string()));
    assert_eq!(switched_to("mute", Some("hp")), None);
    assert_eq!(switched_to("", Some("hp")), None);
}

#[test]
fn a_switch_is_followed_by_the_cue_or_by_a_report() {
    assert_eq!(cli_follow_up(Ok(())), CliFollowUp::PlayCue);
    let error = SwitchError::RoleSet { role: Role::Communications, code: -3 };
    assert_eq!(cli_follow_up(Err(error)), CliFollowUp::Report { error });
    let error = SwitchError::InterfaceUnavailable { code: 9 };
    assert_eq!(cli_follow_up(Err(error)), CliFollowUp::Report { error });
}
